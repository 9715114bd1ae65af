//! The launcher's views.

use vstd::prelude::*;
use crate::settings::{LauncherSettings, SettingsView};

verus! {

/// One of the launcher's views.
#[derive(Debug, Clone, Copy, PartialEq, Eq, Structural)]
pub enum ViewType {
    Home,
    Instances,
    Preferences,
}

/// What the list of instances asks for.
#[derive(Debug, Clone, Copy, PartialEq, Eq, Structural)]
pub enum InstanceEvent {
    Add,
    Show,
}

/// The view that the launcher opens on: the list of instances while there is
/// none to play, the home view afterwards.
pub open spec fn first_view(s: SettingsView) -> ViewType {
    if s.instances.len() == 0 {
        ViewType::Instances
    } else {
        ViewType::Home
    }
}

/// The view that the launcher opens on.
pub fn initial_view(cfg: &LauncherSettings) -> (r: ViewType)
    ensures
        r == first_view(cfg@),
{
    if cfg.instances.len() == 0 {
        ViewType::Instances
    } else {
        ViewType::Home
    }
}

} // verus!
