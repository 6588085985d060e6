//! A verified model of a real-time frame-rendering lifecycle: the surface
//! configuration rules, the pipeline-build decision logic, the per-frame
//! command sequence, and the frame-loop state machine that survives resizes,
//! acquisition timeouts and shutdown without leaking GPU resources.
//!
//! The GPU, the window system and the shader compiler are outside
//! collaborators: they hand this library plain values (sizes, acquisition
//! outcomes, compile outcomes) and receive plain descriptions back
//! (configurations, pipeline plans, command sequences, release orders).

pub mod commands;
pub mod geometry;
pub mod lifecycle;
pub mod mock;
pub mod pipeline;
pub mod surface;

use vstd::prelude::*;

verus! {

/// How a run of the frame loop's process ended.
#[derive(Copy, Clone, PartialEq, Eq, Structural, Debug)]
pub enum RunOutcome {
    /// The close signal was honoured and every resource released.
    CleanShutdown,
    /// Startup failed: no adapter or device, a refused shader or pipeline,
    /// or no memory for the geometry buffer.
    StartupFailure,
    /// The device was lost while the loop ran.
    DeviceLoss,
}

/// The process exit code: zero exactly on a clean close-signal shutdown,
/// non-zero on every fatal failure.
pub fn exit_code(outcome: RunOutcome) -> (code: i32)
    ensures
        code == 0 <==> outcome is CleanShutdown,
        outcome is StartupFailure ==> code == 1,
        outcome is DeviceLoss ==> code == 2,
{
    match outcome {
        RunOutcome::CleanShutdown => 0,
        RunOutcome::StartupFailure => 1,
        RunOutcome::DeviceLoss => 2,
    }
}

} // verus!
