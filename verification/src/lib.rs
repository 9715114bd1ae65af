//! Instance lifecycle and download-progress coordination for a game launcher.
//!
//! The crate holds the launcher's rules as verified functions on plain values:
//! the registry of instances, the per-instance download state machine, the
//! progress protocol between a download worker and its consumer, the creation
//! wizard with its validation steps, and the session and theme settings.
//! Everything that touches the disk, the network, a window or another thread is
//! left to the caller, who hands in what it read and carries out what is returned.

pub mod text;
pub mod version;
pub mod session;
pub mod theme;
pub mod instance;
pub mod toast;
pub mod download_svc;
pub mod args;
pub mod settings;
pub mod instances;
pub mod steps;
pub mod create;
pub mod screens;
pub mod notifications;
pub mod title_bar;
