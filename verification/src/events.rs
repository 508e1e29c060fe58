//! Requests that the settings window makes to the application.

use crate::gpu::PresentMode;
use std::time::Duration;
use vstd::prelude::*;

verus! {

/// A request to the application.
#[derive(Debug)]
pub enum ApplicationEvent {
    /// Load the scene in this file.
    LoadScene(String),
    ResetScene,
    /// Simulate this long without showing it.
    FastForwardSimulation(Duration),
    /// Start over and record. The recording ends when the simulation is paused.
    ResetAndStartRecording { recording_fps: i32 },
    ChangePresentMode(PresentMode),
}

} // verus!
