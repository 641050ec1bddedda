//! The tray manager: the state shared between the shell's message loop and the
//! application's threads, and every decision taken on it. The caller owns the
//! native window, the loop and the hand-off channel; each operation here says
//! what to do with them.
use vstd::prelude::*;

use crate::text::{body_field, field_of, title_field, tooltip_field, utf16_of};
use crate::text::{BODY_LIMIT, BODY_WIDTH, TITLE_LIMIT, TITLE_WIDTH, TOOLTIP_LIMIT, TOOLTIP_WIDTH};

verus! {

/// What a click on the tray icon asks of the application.
#[derive(Clone, Copy, Debug, PartialEq, Eq, Structural)]
pub enum TrayMessage {
    ShowWindow,
    Exit,
}

/// The two icon images the tray can show.
#[derive(Clone, Copy, Debug, PartialEq, Eq, Structural)]
pub enum IconImage {
    Active,
    Inactive,
}

/// The image that stands for the enabled state `enable`.
pub open spec fn image_for(enable: bool) -> IconImage {
    if enable {
        IconImage::Active
    } else {
        IconImage::Inactive
    }
}

impl IconImage {
    /// The image for the enabled state `enable`.
    pub fn of(enable: bool) -> (r: IconImage)
        ensures
            r == image_for(enable),
    {
        if enable {
            IconImage::Active
        } else {
            IconImage::Inactive
        }
    }

    /// Name of the packaged icon resource that holds this image.
    pub fn resource_name(&self) -> (r: &'static str)
        ensures
            r@ == (match self {
                IconImage::Active => "ICON"@,
                IconImage::Inactive => "ICON_GRAY"@,
            }),
    {
        match self {
            IconImage::Active => "ICON",
            IconImage::Inactive => "ICON_GRAY",
        }
    }
}

/// Sub-code of the tray callback for a release of the primary button.
pub const PRIMARY_UP: u32 = 0x0202;

/// Sub-code of the tray callback for a release of the secondary button.
pub const SECONDARY_UP: u32 = 0x0205;

/// Command id of the context menu entry that shows the application.
pub const MENU_SHOW: u32 = 1;

/// Command id of the context menu entry that exits the application.
pub const MENU_EXIT: u32 = 2;

/// A raw tray callback, classified.
#[derive(Clone, Copy, Debug, PartialEq, Eq, Structural)]
pub enum TrayEvent {
    /// Primary activation: show the application.
    Primary,
    /// Secondary activation: open the context menu.
    Secondary,
    /// Any other sub-code; ignored.
    Other(u32),
}

/// The sub-code that a tray callback carries in the low word of its `lparam`.
pub open spec fn event_code(lparam: u64) -> u32 {
    (lparam % 0x10000) as u32
}

/// Classifies a tray callback by the sub-code in the low word of `lparam`.
pub fn tray_event(lparam: u64) -> (r: TrayEvent)
    ensures
        event_code(lparam) == PRIMARY_UP ==> r == TrayEvent::Primary,
        event_code(lparam) == SECONDARY_UP ==> r == TrayEvent::Secondary,
        event_code(lparam) != PRIMARY_UP && event_code(lparam) != SECONDARY_UP ==> r
            == TrayEvent::Other(event_code(lparam)),
{
    let low: u64 = lparam & 0xFFFF;
    assert(low == lparam % 0x10000) by (bit_vector)
        requires
            low == lparam & 0xFFFF,
    ;
    let code: u32 = low as u32;
    if code == PRIMARY_UP {
        TrayEvent::Primary
    } else if code == SECONDARY_UP {
        TrayEvent::Secondary
    } else {
        TrayEvent::Other(code)
    }
}

/// A user activation of the tray, after any context menu has been answered.
#[derive(Clone, Copy, Debug, PartialEq, Eq, Structural)]
pub enum Activation {
    /// Primary activation of the icon.
    Primary,
    /// "Show" picked from the context menu.
    MenuShow,
    /// "Exit" picked from the context menu.
    MenuExit,
}

/// One entry of the context menu.
pub struct MenuEntry {
    pub id: u32,
    pub label: &'static str,
}

/// The context menu's entries, in the order shown: "show", then "exit".
pub fn menu_entries() -> (r: Vec<MenuEntry>)
    ensures
        r@.len() == 2,
        r@[0].id == MENU_SHOW,
        r@[1].id == MENU_EXIT,
{
    let mut r: Vec<MenuEntry> = Vec::new();
    r.push(MenuEntry { id: MENU_SHOW, label: "显示 HiPer Bridge" });
    r.push(MenuEntry { id: MENU_EXIT, label: "关闭 HiPer Bridge" });
    r
}

/// What the context menu's answer `cmd` (0 when it was dismissed) asks for.
pub fn menu_choice(cmd: u32) -> (r: Option<Activation>)
    ensures
        cmd == MENU_SHOW ==> r == Some(Activation::MenuShow),
        cmd == MENU_EXIT ==> r == Some(Activation::MenuExit),
        cmd != MENU_SHOW && cmd != MENU_EXIT ==> r.is_none(),
{
    if cmd == MENU_SHOW {
        Some(Activation::MenuShow)
    } else if cmd == MENU_EXIT {
        Some(Activation::MenuExit)
    } else {
        None
    }
}

/// The request an activation hands to a waiting consumer.
pub open spec fn intent_of(a: Activation) -> TrayMessage {
    match a {
        Activation::MenuExit => TrayMessage::Exit,
        _ => TrayMessage::ShowWindow,
    }
}

/// A command pushed at once to the application's event sink.
#[derive(Clone, Copy, Debug, PartialEq, Eq, Structural)]
pub enum SinkCommand {
    /// Bring the main window up.
    ShowWindow,
    /// Close every window: the application shuts down.
    CloseAllWindows,
}

/// What the message loop does after an activation: a command for the
/// application's sink, and the reply to the pending consumer request.
#[derive(Clone, Copy, Debug, PartialEq, Eq, Structural)]
pub struct Reaction {
    pub sink: Option<SinkCommand>,
    pub reply: Option<TrayMessage>,
}

/// How a request for the next tray message begins.
#[derive(Clone, Copy, Debug, PartialEq, Eq, Structural)]
pub enum TakeStep {
    /// The answer is known at once; nothing is to be waited for.
    Finished(TrayMessage),
    /// The window is gone: create a new one showing this image, then wait.
    Recreate(IconImage),
    /// The window is live: wait for the reply to the request just installed.
    Wait,
}

/// What tearing the tray down asks for.
#[derive(Clone, Copy, Debug, PartialEq, Eq, Structural)]
pub struct Teardown {
    /// Remove the icon and destroy the window.
    pub destroy_window: bool,
    /// The reply owed to a consumer that was still waiting.
    pub reply: Option<TrayMessage>,
}

/// A balloon notification, as the shell's fixed-width fields hold it.
pub struct Notification {
    pub title: Vec<u16>,
    pub body: Vec<u16>,
}

/// The tray manager's state.
#[derive(Clone, Copy, Debug, PartialEq, Eq, Structural)]
pub struct TrayIcon {
    /// A native window backs the icon, as far as the manager knows.
    pub window_live: bool,
    /// The enabled state last asked for.
    pub enable: bool,
    /// The enabled state whose image was last pushed to the shell.
    pub shown: bool,
    /// Terminal: the user chose to exit, or the tray was torn down.
    pub should_exit: bool,
    /// An application event sink is bound.
    pub sink_bound: bool,
    /// A consumer waits for the next activation.
    pub pending: bool,
}

/// One operation on the tray manager.
#[derive(Clone, Copy, Debug, PartialEq, Eq, Structural)]
pub enum TrayOp {
    /// A new enabled state is asked for.
    SetIcon(bool),
    /// A request for the next message, with whether the window was found live.
    Take(bool),
    /// The user activates the tray.
    Activate(Activation),
    /// An application event sink is bound.
    BindSink,
    /// The tray is torn down.
    Shutdown,
}

impl TrayIcon {
    /// Well-formed: a live window shows the image last asked for; a terminal
    /// manager has no consumer waiting.
    pub open spec fn wf(self) -> bool {
        &&& self.window_live ==> self.shown == self.enable
        &&& self.should_exit ==> !self.pending
        &&& !self.should_exit ==> self.window_live
    }

    /// The state right after construction: a fresh window showing the
    /// inactive image.
    pub open spec fn initial() -> TrayIcon {
        TrayIcon {
            window_live: true,
            enable: false,
            shown: false,
            should_exit: false,
            sink_bound: false,
            pending: false,
        }
    }

    /// The state after asking for the enabled state `enable`.
    pub open spec fn after_set_icon(self, enable: bool) -> TrayIcon {
        TrayIcon {
            window_live: self.window_live,
            enable,
            shown: enable,
            should_exit: self.should_exit,
            sink_bound: self.sink_bound,
            pending: self.pending,
        }
    }

    /// How a request for the next message begins, given whether the window
    /// was found live.
    pub open spec fn take_step(self, window_alive: bool) -> TakeStep {
        if self.should_exit {
            TakeStep::Finished(TrayMessage::Exit)
        } else if !window_alive {
            TakeStep::Recreate(image_for(self.enable))
        } else {
            TakeStep::Wait
        }
    }

    /// The state after a request for the next message has begun.
    pub open spec fn after_take(self, window_alive: bool) -> TrayIcon {
        if self.should_exit {
            self
        } else {
            TrayIcon {
                window_live: true,
                enable: self.enable,
                shown: if window_alive {
                    self.shown
                } else {
                    self.enable
                },
                should_exit: false,
                sink_bound: self.sink_bound,
                pending: true,
            }
        }
    }

    /// What the activation `a` sends to the sink and to a waiting consumer.
    pub open spec fn reaction(self, a: Activation) -> Reaction {
        if self.should_exit {
            Reaction { sink: None, reply: None }
        } else {
            Reaction {
                sink: if !self.sink_bound {
                    None
                } else if a == Activation::MenuExit {
                    Some(SinkCommand::CloseAllWindows)
                } else {
                    Some(SinkCommand::ShowWindow)
                },
                reply: if self.pending {
                    Some(intent_of(a))
                } else {
                    None
                },
            }
        }
    }

    /// The state after the activation `a`.
    pub open spec fn after_activation(self, a: Activation) -> TrayIcon {
        if self.should_exit {
            self
        } else {
            TrayIcon {
                window_live: self.window_live,
                enable: self.enable,
                shown: self.shown,
                should_exit: a == Activation::MenuExit,
                sink_bound: self.sink_bound,
                pending: false,
            }
        }
    }

    /// The state after an event sink is bound.
    pub open spec fn after_bind(self) -> TrayIcon {
        TrayIcon {
            window_live: self.window_live,
            enable: self.enable,
            shown: self.shown,
            should_exit: self.should_exit,
            sink_bound: true,
            pending: self.pending,
        }
    }

    /// What tearing the tray down asks for.
    pub open spec fn teardown(self) -> Teardown {
        Teardown {
            destroy_window: self.window_live,
            reply: if self.pending {
                Some(TrayMessage::Exit)
            } else {
                None
            },
        }
    }

    /// The state after the tray is torn down: terminal, with no window.
    pub open spec fn after_shutdown(self) -> TrayIcon {
        TrayIcon {
            window_live: false,
            enable: self.enable,
            shown: self.shown,
            should_exit: true,
            sink_bound: self.sink_bound,
            pending: false,
        }
    }

    /// The state after one operation.
    pub open spec fn step(self, op: TrayOp) -> TrayIcon {
        match op {
            TrayOp::SetIcon(b) => self.after_set_icon(b),
            TrayOp::Take(alive) => self.after_take(alive),
            TrayOp::Activate(a) => self.after_activation(a),
            TrayOp::BindSink => self.after_bind(),
            TrayOp::Shutdown => self.after_shutdown(),
        }
    }

    /// The state after a sequence of operations.
    pub open spec fn run(self, ops: Seq<TrayOp>) -> TrayIcon
        decreases ops.len(),
    {
        if ops.len() == 0 {
            self
        } else {
            self.run(ops.drop_last()).step(ops.last())
        }
    }

    /// A manager whose window has just been created showing the inactive image.
    pub fn new() -> (r: TrayIcon)
        ensures
            r == TrayIcon::initial(),
            r.wf(),
    {
        TrayIcon {
            window_live: true,
            enable: false,
            shown: false,
            should_exit: false,
            sink_bound: false,
            pending: false,
        }
    }

    /// Records that an application event sink is bound; activations are
    /// pushed to it from now on.
    pub fn set_ctx(&mut self)
        requires
            old(self).wf(),
        ensures
            *final(self) == old(self).after_bind(),
            final(self).wf(),
    {
        self.sink_bound = true;
    }

    /// Asks for the enabled state `enable`; returns the image to push to the
    /// shell. The state is kept, so a recreated window shows it too.
    pub fn set_icon(&mut self, enable: bool) -> (r: IconImage)
        requires
            old(self).wf(),
        ensures
            r == image_for(enable),
            *final(self) == old(self).after_set_icon(enable),
            final(self).wf(),
    {
        self.enable = enable;
        self.shown = enable;
        IconImage::of(enable)
    }

    /// Begins a request for the next tray message. `window_alive` tells
    /// whether the window was found live. A terminal manager answers `Exit` at
    /// once and touches nothing; otherwise a lost window is recreated with the
    /// image last asked for, and a fresh request is installed.
    pub fn take_command(&mut self, window_alive: bool) -> (r: TakeStep)
        requires
            old(self).wf(),
        ensures
            r == old(self).take_step(window_alive),
            *final(self) == old(self).after_take(window_alive),
            final(self).wf(),
    {
        if self.should_exit {
            return TakeStep::Finished(TrayMessage::Exit);
        }
        self.window_live = true;
        self.pending = true;
        if !window_alive {
            self.shown = self.enable;
            TakeStep::Recreate(IconImage::of(self.enable))
        } else {
            TakeStep::Wait
        }
    }

    /// Handles an activation on the message loop: what goes to the sink, and
    /// the reply that fulfils the pending request, which is then used up.
    /// "Exit" makes the manager terminal. A terminal manager ignores
    /// activations.
    pub fn activate(&mut self, a: Activation) -> (r: Reaction)
        requires
            old(self).wf(),
        ensures
            r == old(self).reaction(a),
            *final(self) == old(self).after_activation(a),
            final(self).wf(),
    {
        if self.should_exit {
            return Reaction { sink: None, reply: None };
        }
        let exit = match a {
            Activation::MenuExit => true,
            _ => false,
        };
        let sink = if !self.sink_bound {
            None
        } else if exit {
            Some(SinkCommand::CloseAllWindows)
        } else {
            Some(SinkCommand::ShowWindow)
        };
        let intent = if exit {
            TrayMessage::Exit
        } else {
            TrayMessage::ShowWindow
        };
        let reply = if self.pending {
            Some(intent)
        } else {
            None
        };
        self.pending = false;
        self.should_exit = exit;
        Reaction { sink, reply }
    }

    /// The tooltip field for `tooltip`, clipped to the shell's width.
    pub fn set_tooltip(&self, tooltip: &str) -> (r: Vec<u16>)
        ensures
            r@ == field_of(utf16_of(tooltip@), TOOLTIP_LIMIT as nat, TOOLTIP_WIDTH as nat),
    {
        tooltip_field(tooltip)
    }

    /// The balloon to show for `title` and `message`; none once terminal.
    pub fn notify(&self, title: &str, message: &str) -> (r: Option<Notification>)
        ensures
            self.should_exit <==> r.is_none(),
            r matches Some(n) ==> n.title@ == field_of(
                utf16_of(title@),
                TITLE_LIMIT as nat,
                TITLE_WIDTH as nat,
            ) && n.body@ == field_of(utf16_of(message@), BODY_LIMIT as nat, BODY_WIDTH as nat),
    {
        if self.should_exit {
            return None;
        }
        Some(Notification { title: title_field(title), body: body_field(message) })
    }

    /// Tears the tray down: the manager becomes terminal for good, and a
    /// waiting consumer is answered `Exit`. Safe to repeat.
    pub fn delete(&mut self) -> (r: Teardown)
        requires
            old(self).wf(),
        ensures
            r == old(self).teardown(),
            *final(self) == old(self).after_shutdown(),
            final(self).wf(),
    {
        let reply = if self.pending {
            Some(TrayMessage::Exit)
        } else {
            None
        };
        let destroy_window = self.window_live;
        self.window_live = false;
        self.should_exit = true;
        self.pending = false;
        Teardown { destroy_window, reply }
    }
}

} // verus!
