//! Alerts: the records of the launcher's alert area.

use vstd::prelude::*;

verus! {

/// How serious an alert is.
#[derive(Clone, Copy, Debug, PartialEq, Eq, Structural)]
pub enum AlertType {
    Information,
    Warning,
    Error,
}

/// One alert.
#[derive(Debug, PartialEq, Eq)]
pub struct AlertWidget {
    pub id: usize,
    pub alert_type: AlertType,
    pub title: String,
    pub content: String,
}

/// What the alert area is asked to do.
#[derive(Clone, Copy, Debug, PartialEq, Eq, Structural)]
pub enum AlertManagerMessage {
    Add(),
    Remove(usize),
    /// Nothing is asked.
    Idle,
}

/// The alert area: it shows each alert for a number of seconds.
#[derive(Clone, Copy, Debug, PartialEq, Eq, Structural)]
pub struct AlertManager {
    pub timeout_secs: u64,
}

impl AlertWidget {
    /// An empty informational alert with the id 0.
    pub fn new() -> (r: Self)
        ensures
            r.id == 0,
            r.alert_type == AlertType::Information,
            r.title@ == Seq::<char>::empty(),
            r.content@ == Seq::<char>::empty(),
    {
        AlertWidget {
            id: 0,
            alert_type: AlertType::Information,
            title: String::new(),
            content: String::new(),
        }
    }
}

impl AlertManager {
    /// An alert area that shows each alert for the given number of seconds.
    pub fn new(timeout_secs: u64) -> (r: Self)
        ensures
            r.timeout_secs == timeout_secs,
    {
        AlertManager { timeout_secs }
    }
}

} // verus!
