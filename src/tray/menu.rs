//! The full tray menu, whose thread forwards picked entries to the window.

use vstd::prelude::*;

verus! {

/// An entry picked in the tray menu.
#[derive(Clone, Copy, Debug, PartialEq, Eq, Structural)]
pub enum Message {
    About,
    Add,
    Clear,
    Config,
    ShowMainWindow,
    Quit,
}

/// What the tray thread does with a picked entry: the message it forwards,
/// if any, and whether it stops afterwards.
pub open spec fn routed(msg: Message, shown: bool) -> (Option<Message>, bool) {
    match msg {
        Message::Quit => (Some(Message::Quit), true),
        Message::ShowMainWindow => (if shown {
            None
        } else {
            Some(Message::ShowMainWindow)
        }, false),
        _ => (Some(msg), false),
    }
}

/// Routes a picked entry: "show" is dropped while the window is already
/// shown, "quit" is forwarded and ends the thread, the rest are forwarded.
pub fn route(msg: Message, shown: bool) -> (r: (Option<Message>, bool))
    ensures
        r == routed(msg, shown),
{
    match msg {
        Message::Quit => (Some(Message::Quit), true),
        Message::ShowMainWindow => {
            if shown {
                (None, false)
            } else {
                (Some(Message::ShowMainWindow), false)
            }
        },
        _ => (Some(msg), false),
    }
}

} // verus!
