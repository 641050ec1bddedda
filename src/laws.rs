//! Properties of the tray manager over whole runs of operations.
use vstd::prelude::*;

use crate::tray::{image_for, intent_of, Activation, SinkCommand, TakeStep, TrayIcon, TrayMessage, TrayOp};

verus! {

/// The enabled state last asked for by the operations `ops`, or `start` when
/// none of them asks.
pub open spec fn last_enable(start: bool, ops: Seq<TrayOp>) -> bool
    decreases ops.len(),
{
    if ops.len() == 0 {
        start
    } else {
        match ops.last() {
            TrayOp::SetIcon(b) => b,
            _ => last_enable(start, ops.drop_last()),
        }
    }
}

/// Whatever operations run, the manager stays well-formed and its enabled
/// state is the one last asked for; a live window, whether recreated or not,
/// shows that state's image, and a window recreated next is given it too.
pub proof fn lemma_icon_follows_last_request(s: TrayIcon, ops: Seq<TrayOp>)
    requires
        s.wf(),
    ensures
        s.run(ops).wf(),
        s.run(ops).enable == last_enable(s.enable, ops),
        s.run(ops).window_live ==> image_for(s.run(ops).shown) == image_for(
            last_enable(s.enable, ops),
        ),
        !s.run(ops).should_exit ==> s.run(ops).take_step(false) == TakeStep::Recreate(
            image_for(last_enable(s.enable, ops)),
        ),
    decreases ops.len(),
{
    if ops.len() > 0 {
        lemma_icon_follows_last_request(s, ops.drop_last());
    }
}

/// Once terminal, a manager stays terminal whatever follows: every request for
/// the next message is answered `Exit` at once, and no activation reaches the
/// sink or a consumer.
pub proof fn lemma_terminal_is_sticky(s: TrayIcon, ops: Seq<TrayOp>)
    requires
        s.wf(),
        s.should_exit,
    ensures
        s.run(ops).should_exit,
        forall|alive: bool|
            #![trigger s.run(ops).take_step(alive)]
            s.run(ops).take_step(alive) == TakeStep::Finished(TrayMessage::Exit),
        forall|alive: bool|
            #![trigger s.run(ops).after_take(alive)]
            s.run(ops).after_take(alive) == s.run(ops),
        forall|a: Activation|
            #![trigger s.run(ops).reaction(a)]
            s.run(ops).reaction(a).sink.is_none() && s.run(ops).reaction(a).reply.is_none(),
    decreases ops.len(),
{
    if ops.len() > 0 {
        lemma_terminal_is_sticky(s, ops.drop_last());
    }
}

/// An activation fulfils the one pending request with its intent and uses it
/// up: a second activation reaches no consumer, and a request installed after
/// the first is answered by the next activation only.
pub proof fn lemma_one_reply_per_activation(
    s: TrayIcon,
    a: Activation,
    b: Activation,
    alive: bool,
)
    requires
        s.wf(),
        s.pending,
    ensures
        s.reaction(a).reply == Some(intent_of(a)),
        !s.after_activation(a).pending,
        s.after_activation(a).reaction(b).reply.is_none(),
        !s.after_activation(a).should_exit ==> {
            &&& s.after_activation(a).take_step(alive) != TakeStep::Finished(TrayMessage::ShowWindow)
            &&& s.after_activation(a).take_step(alive) != TakeStep::Finished(TrayMessage::Exit)
            &&& s.after_activation(a).after_take(alive).reaction(b).reply == Some(intent_of(b))
        },
{
}

/// Picking "exit" from the menu makes the manager terminal, asks the bound
/// sink to shut the application down, answers a waiting consumer `Exit`, and
/// the shutdown command is never sent again, whatever follows.
pub proof fn lemma_exit_shuts_down_once(s: TrayIcon)
    requires
        s.wf(),
        !s.should_exit,
        s.sink_bound,
    ensures
        s.after_activation(Activation::MenuExit).should_exit,
        s.reaction(Activation::MenuExit).sink == Some(SinkCommand::CloseAllWindows),
        s.pending ==> s.reaction(Activation::MenuExit).reply == Some(TrayMessage::Exit),
        forall|ops: Seq<TrayOp>, b: Activation|
            #![trigger s.after_activation(Activation::MenuExit).run(ops).reaction(b)]
            s.after_activation(Activation::MenuExit).run(ops).reaction(b).sink
                != Some(SinkCommand::CloseAllWindows),
{
    let t = s.after_activation(Activation::MenuExit);
    assert forall|ops: Seq<TrayOp>, b: Activation|
        #![trigger t.run(ops).reaction(b)]
        t.run(ops).reaction(b).sink != Some(SinkCommand::CloseAllWindows) by {
        lemma_terminal_is_sticky(t, ops);
        assert(t.run(ops).reaction(b).sink.is_none());
    }
}

} // verus!
