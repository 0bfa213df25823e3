//! Messages of the system-tray menu.

use vstd::prelude::*;

pub mod menu;

verus! {

/// A request from the tray menu to the main window.
#[derive(Clone, Copy, Debug, PartialEq, Eq, Structural)]
pub enum Message {
    ShowMainWindow,
    Quit,
}

} // verus!
