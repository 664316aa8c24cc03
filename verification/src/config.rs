//! The parts of the application's configuration that key routing reads.
use vstd::prelude::*;

use crate::actionhandler::Action;
use crate::keymap::Keymap;
use crate::logger::LoggerAction;

verus! {

/// An action of any pane of the application.
#[derive(Debug, Clone, Copy, PartialEq, Eq, Structural)]
pub enum AppAction {
    Log(LoggerAction),
}

impl Action for AppAction {
    open spec fn context_text(&self) -> Seq<char> {
        match self {
            AppAction::Log(a) => a.context_text(),
        }
    }

    open spec fn description_text(&self) -> Seq<char> {
        match self {
            AppAction::Log(a) => a.description_text(),
        }
    }

    fn context(&self) -> (r: String) {
        match self {
            AppAction::Log(a) => a.context(),
        }
    }

    fn describe(&self) -> (r: String) {
        match self {
            AppAction::Log(a) => a.describe(),
        }
    }
}

/// The keymaps of the application's panes.
pub struct YoutuiKeymap {
    pub log: Keymap<AppAction>,
}

/// The application's configuration.
pub struct Config {
    pub keybinds: YoutuiKeymap,
}

} // verus!
