use hiper_bridge::text::{body_field, fixed_field, title_field, tooltip_field};
use hiper_bridge::tray::{
    menu_choice, menu_entries, tray_event, Activation, IconImage, Reaction, SinkCommand, TakeStep,
    Teardown, TrayEvent, TrayIcon, TrayMessage, MENU_EXIT, MENU_SHOW,
};

fn initialized() -> (TrayIcon, IconImage) {
    let mut tray = TrayIcon::new();
    let image = tray.set_icon(false);
    (tray, image)
}

#[test]
fn initialize_shows_inactive_icon() {
    let (tray, image) = initialized();
    assert_eq!(image, IconImage::Inactive);
    assert_eq!(image.resource_name(), "ICON_GRAY");
    assert!(!tray.enable);
    assert!(!tray.should_exit);
}

#[test]
fn icon_follows_last_request_across_recreation() {
    let (mut tray, _) = initialized();
    assert_eq!(tray.set_icon(true), IconImage::Active);
    assert_eq!(tray.set_icon(false), IconImage::Inactive);
    assert_eq!(tray.set_icon(true), IconImage::Active);
    assert_eq!(tray.take_command(false), TakeStep::Recreate(IconImage::Active));
    assert!(tray.shown);
    tray.activate(Activation::Primary);
    assert_eq!(tray.set_icon(false), IconImage::Inactive);
    assert_eq!(tray.take_command(false), TakeStep::Recreate(IconImage::Inactive));
    assert_eq!(IconImage::Active.resource_name(), "ICON");
}

#[test]
fn take_when_terminal_returns_exit_at_once() {
    let (mut tray, _) = initialized();
    tray.delete();
    let before = tray;
    assert_eq!(tray.take_command(false), TakeStep::Finished(TrayMessage::Exit));
    assert_eq!(tray, before);
    assert!(!tray.window_live);
    assert!(!tray.pending);
}

#[test]
fn one_reply_per_activation() {
    let (mut tray, _) = initialized();
    assert_eq!(tray.take_command(true), TakeStep::Wait);
    let first = tray.activate(Activation::Primary);
    assert_eq!(first.reply, Some(TrayMessage::ShowWindow));
    let second = tray.activate(Activation::Primary);
    assert_eq!(second.reply, None);
    assert_eq!(tray.take_command(true), TakeStep::Wait);
    let third = tray.activate(Activation::MenuShow);
    assert_eq!(third.reply, Some(TrayMessage::ShowWindow));
}

#[test]
fn activation_without_request_reaches_only_the_sink() {
    let (mut tray, _) = initialized();
    assert_eq!(tray.activate(Activation::Primary), Reaction { sink: None, reply: None });
    tray.set_ctx();
    assert_eq!(
        tray.activate(Activation::Primary),
        Reaction { sink: Some(SinkCommand::ShowWindow), reply: None }
    );
}

#[test]
fn menu_exit_shuts_down_once() {
    let (mut tray, _) = initialized();
    tray.set_ctx();
    assert_eq!(tray.take_command(true), TakeStep::Wait);
    let r = tray.activate(Activation::MenuExit);
    assert_eq!(
        r,
        Reaction { sink: Some(SinkCommand::CloseAllWindows), reply: Some(TrayMessage::Exit) }
    );
    assert!(tray.should_exit);
    assert_eq!(tray.activate(Activation::MenuExit), Reaction { sink: None, reply: None });
    assert_eq!(tray.activate(Activation::Primary), Reaction { sink: None, reply: None });
}

#[test]
fn tooltip_of_200_units_is_cut_to_126() {
    let text = "a".repeat(200);
    let field = tooltip_field(&text);
    assert_eq!(field.len(), 128);
    assert!(field[..126].iter().all(|&u| u == 'a' as u16));
    assert_eq!(field[126], 0);
    assert_eq!(field[127], 0);
    let tray = TrayIcon::new();
    assert_eq!(tray.set_tooltip(&text), field);
}

#[test]
fn title_and_body_are_cut_to_62_and_254() {
    let text = "b".repeat(300);
    let title = title_field(&text);
    assert_eq!(title.len(), 64);
    assert!(title[..62].iter().all(|&u| u == 'b' as u16));
    assert!(title[62..].iter().all(|&u| u == 0));
    let body = body_field(&text);
    assert_eq!(body.len(), 256);
    assert!(body[..254].iter().all(|&u| u == 'b' as u16));
    assert!(body[254..].iter().all(|&u| u == 0));
}

#[test]
fn short_text_is_zero_padded() {
    let field = tooltip_field("hi");
    assert_eq!(field.len(), 128);
    assert_eq!(field[0], 'h' as u16);
    assert_eq!(field[1], 'i' as u16);
    assert!(field[2..].iter().all(|&u| u == 0));
    assert!(tooltip_field("").iter().all(|&u| u == 0));
}

#[test]
fn text_is_encoded_as_utf16() {
    let field = tooltip_field("é😀");
    assert_eq!(&field[..4], &[0x00E9, 0xD83D, 0xDE00, 0]);
    let field = title_field("显示");
    assert_eq!(&field[..3], &[0x663E, 0x793A, 0]);
}

#[test]
fn fixed_field_keeps_limit_minus_one() {
    assert_eq!(fixed_field(&vec![1, 2, 3, 4], 3, 5), vec![1, 2, 0, 0, 0]);
    assert_eq!(fixed_field(&vec![1, 2], 4, 4), vec![1, 2, 0, 0]);
    assert_eq!(fixed_field(&vec![7, 8, 9], 1, 2), vec![0, 0]);
}

#[test]
fn notify_is_suppressed_once_terminal() {
    let (mut tray, _) = initialized();
    let n = tray.notify("title", "body").unwrap();
    assert_eq!(n.title.len(), 64);
    assert_eq!(n.body.len(), 256);
    assert_eq!(n.title[0], 't' as u16);
    assert_eq!(n.body[3], 'y' as u16);
    assert_eq!(n.body[4], 0);
    tray.activate(Activation::MenuExit);
    assert!(tray.notify("title", "body").is_none());
}

#[test]
fn delete_is_repeatable_and_answers_waiting_consumer() {
    let (mut tray, _) = initialized();
    assert_eq!(tray.take_command(true), TakeStep::Wait);
    assert_eq!(
        tray.delete(),
        Teardown { destroy_window: true, reply: Some(TrayMessage::Exit) }
    );
    assert_eq!(tray.delete(), Teardown { destroy_window: false, reply: None });
    assert!(tray.should_exit);
}

#[test]
fn tray_events_are_classified_by_low_word() {
    assert_eq!(tray_event(0x0202), TrayEvent::Primary);
    assert_eq!(tray_event(0x0005_0205), TrayEvent::Secondary);
    assert_eq!(tray_event(0x0001_0200), TrayEvent::Other(0x0200));
    assert_eq!(tray_event(0), TrayEvent::Other(0));
}

#[test]
fn menu_has_show_then_exit() {
    let entries = menu_entries();
    assert_eq!(entries.len(), 2);
    assert_eq!(entries[0].id, MENU_SHOW);
    assert_eq!(entries[1].id, MENU_EXIT);
    assert_eq!(menu_choice(MENU_SHOW), Some(Activation::MenuShow));
    assert_eq!(menu_choice(MENU_EXIT), Some(Activation::MenuExit));
    assert_eq!(menu_choice(0), None);
    assert_eq!(menu_choice(3), None);
}

#[test]
fn recreated_window_replays_active_icon_then_shows() {
    let (mut tray, _) = initialized();
    assert_eq!(tray.set_icon(true), IconImage::Active);
    // The host destroyed the window: the next request finds it gone.
    assert_eq!(tray.take_command(false), TakeStep::Recreate(IconImage::Active));
    assert!(tray.window_live);
    assert!(tray.pending);
    let r = tray.activate(Activation::Primary);
    assert_eq!(r.reply, Some(TrayMessage::ShowWindow));
}

#[test]
fn exit_from_menu_answers_every_later_request() {
    let (mut tray, _) = initialized();
    tray.set_ctx();
    let r = tray.activate(Activation::MenuExit);
    assert_eq!(r.sink, Some(SinkCommand::CloseAllWindows));
    assert_eq!(r.reply, None);
    assert_eq!(tray.take_command(true), TakeStep::Finished(TrayMessage::Exit));
    assert_eq!(tray.take_command(true), TakeStep::Finished(TrayMessage::Exit));
}
