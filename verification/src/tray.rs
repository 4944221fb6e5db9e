//! The tray icon's menu.

use vstd::prelude::*;
use crate::text::str_eq;

verus! {

/// What a tray menu entry asks for.
#[derive(Clone, Copy, Debug, PartialEq, Eq, Structural)]
pub enum TrayCommand {
    /// Open (or bring forward) the settings window.
    OpenSettings,
    /// Switch Learn Mode over.
    ToggleLearnMode,
    /// Quit the application.
    Quit,
}

/// The command of the menu entry with identifier `id` (`None` for an
/// unknown entry).
pub open spec fn command_of(id: Seq<char>) -> Option<TrayCommand> {
    if id == "settings"@ {
        Some(TrayCommand::OpenSettings)
    } else if id == "learn_mode"@ {
        Some(TrayCommand::ToggleLearnMode)
    } else if id == "quit"@ {
        Some(TrayCommand::Quit)
    } else {
        None
    }
}

/// The command of the menu entry with identifier `id`.
pub fn tray_command(id: &str) -> (r: Option<TrayCommand>)
    ensures
        r == command_of(id@),
{
    if str_eq(id, "settings") {
        Some(TrayCommand::OpenSettings)
    } else if str_eq(id, "learn_mode") {
        Some(TrayCommand::ToggleLearnMode)
    } else if str_eq(id, "quit") {
        Some(TrayCommand::Quit)
    } else {
        None
    }
}

} // verus!
