//! The states of the interaction state machine.
use vstd::prelude::*;

verus! {

/// What the keyboard currently drives.
#[derive(Clone, Copy, Debug, PartialEq, Eq, Structural)]
pub enum Mode {
    Normal,
    Editing,
    Naming,
    Renaming,
    ChangingDirectory,
    SelectingTemplateFolder,
    SelectingTemplate,
    Search,
    ConfirmingDelete,
    SelectingMoveDestination,
    Settings,
}

impl Mode {
    /// The label that the status line shows for the mode.
    pub fn to_string(&self) -> (r: &'static str)
        ensures
            r@ == (match *self {
                Mode::Normal => "NAVIGATE"@,
                Mode::Editing => "EDITING"@,
                Mode::Naming => "NAMING"@,
                Mode::Renaming => "RENAMING"@,
                Mode::ChangingDirectory => "CHANGE DIR"@,
                Mode::SelectingTemplateFolder => "SELECT TMPL DIR"@,
                Mode::SelectingTemplate => "SELECT TMPL"@,
                Mode::Search => "SEARCH"@,
                Mode::ConfirmingDelete => "CONFIRM DELETE"@,
                Mode::SelectingMoveDestination => "SELECT MOVE DEST"@,
                Mode::Settings => "SETTINGS"@,
            }),
    {
        match self {
            Mode::Normal => "NAVIGATE",
            Mode::Editing => "EDITING",
            Mode::Naming => "NAMING",
            Mode::Renaming => "RENAMING",
            Mode::ChangingDirectory => "CHANGE DIR",
            Mode::SelectingTemplateFolder => "SELECT TMPL DIR",
            Mode::SelectingTemplate => "SELECT TMPL",
            Mode::Search => "SEARCH",
            Mode::ConfirmingDelete => "CONFIRM DELETE",
            Mode::SelectingMoveDestination => "SELECT MOVE DEST",
            Mode::Settings => "SETTINGS",
        }
    }
}

} // verus!
