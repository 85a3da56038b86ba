//! Decision core of a system-tray shell for a locally running backend
//! service.
//!
//! The tray surface offers three backend operations (pause, resume, open a
//! monitoring dashboard) and a quit entry. This crate holds everything that
//! can be decided without touching the platform: the menu definition, the
//! translation of tray events into directives, the outbound request each
//! backend operation stands for, and the success or failure message each
//! attempt produces. A thin platform layer executes the directives.

use vstd::prelude::*;

pub mod client;
pub mod dispatch;
pub mod menu;

verus! {

/// One of the three operations the tray can ask of the backend service.
#[derive(Clone, Copy, PartialEq, Eq, Debug, Structural)]
pub enum BackendAction {
    /// Ask the backend to pause itself.
    Pause,
    /// Ask the backend to resume.
    Resume,
    /// Open the backend's monitoring dashboard in the user's browser.
    Dashboard,
}

} // verus!
