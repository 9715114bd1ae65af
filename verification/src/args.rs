//! What the command line can ask of the launcher.

use vstd::prelude::*;
use crate::theme::ThemeType;

verus! {

/// A command given on the command line.
#[derive(Debug, PartialEq, Eq)]
pub enum OpenMCommands {
    /// Start the instance of the given name without opening a window.
    Launch { instance: String },
}

impl Clone for OpenMCommands {
    fn clone(&self) -> (r: Self)
        ensures
            r == *self,
    {
        match self {
            OpenMCommands::Launch { instance } => OpenMCommands::Launch {
                instance: instance.clone(),
            },
        }
    }
}

/// What the command line holds.
#[derive(Debug, PartialEq, Eq)]
pub struct OpenMCArgs {
    /// The theme to show in place of the stored one.
    pub theme: Option<ThemeType>,
    /// Whether to run without a window.
    pub no_gui: bool,
    pub command: Option<OpenMCommands>,
}

} // verus!
