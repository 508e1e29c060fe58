//! The start: which step follows which, and what ends it.

use crate::gpu::PresentMode;
use crate::gui::panels::Profile;
use crate::startup::{first_step, next_step, StartupAction, StartupOutcome, StartupStep};
use vstd::prelude::*;

verus! {

/// The place of a step in the start.
pub open spec fn place(action: StartupAction) -> int {
    match action {
        StartupAction::CreateInstance => 0,
        StartupAction::CreateWindow { .. } => 1,
        StartupAction::CreateSurface => 2,
        StartupAction::RequestAdapter => 3,
        StartupAction::RequestDevice { .. } => 4,
        StartupAction::OpenShaderDirectory { .. } => 5,
        StartupAction::CreateScreen { .. } => 6,
        StartupAction::CreateHdrBackbuffer => 7,
        StartupAction::CreateGlobals => 8,
        StartupAction::CreateSimulationController => 9,
        StartupAction::CreateSceneRenderer => 10,
        StartupAction::CreateGui => 11,
        StartupAction::CreateProfiler { profile: Profile::Rendering, .. } => 12,
        StartupAction::CreateProfiler { profile: Profile::Simulation, .. } => 13,
        StartupAction::LoadSelectedScene => 14,
        StartupAction::NotifyRenderer => 15,
        StartupAction::CreateBindGroup => 16,
    }
}

/// The start begins at the first of its seventeen places. Each step that does not fail is followed
/// by the one at the next place, and the last one by the running application; whatever a step
/// was asked for.
pub proof fn law_start_goes_from_place_to_place(
    performed: StartupAction,
    outcome: StartupOutcome,
    step: StartupStep,
    first: StartupAction,
)
    requires
        call_ensures(first_step, (), first),
        call_ensures(next_step, (performed, outcome), step),
        outcome != StartupOutcome::Failed,
    ensures
        place(first) == 0,
        step is Ready <==> place(performed) == 16,
        !(step is Abort),
        step matches StartupStep::Perform(next) ==> place(next) == place(performed) + 1,
{
}

/// A step that fails ends the start with a message that names what failed, and nothing else does.
pub proof fn law_failure_ends_the_start(
    performed: StartupAction,
    outcome: StartupOutcome,
    step: StartupStep,
)
    requires
        crate::startup::yields(performed, outcome),
        call_ensures(next_step, (performed, outcome), step),
    ensures
        step is Abort <==> outcome == StartupOutcome::Failed,
        step matches StartupStep::Abort(message) ==> {
            &&& place(performed) == 1 ==> message@ == "Failed to create window"@
            &&& place(performed) == 2 ==> message@ == "Failed to create surface"@
            &&& place(performed) == 3 ==> message@ == "Failed to find an appropriate adapter"@
            &&& place(performed) == 4 ==> message@ == "Failed to create device"@
            &&& place(performed) == 12 ==> message@ == "profiler (rendering)"@
            &&& place(performed) == 13 ==> message@ == "profiler (simulation)"@
            &&& place(performed) == 14 ==> message@ == "Failed to load scene"@
        },
{
}

/// What a step of the start is asked for: a window of the application's title and size, a device
/// with the larger of 256 and what the adapter offers for immediate data, the directories of the
/// shaders, a screen that waits for the vertical blank, and four frames in flight for the
/// profiler of the rendering, sixteen for that of the simulation.
pub proof fn law_what_the_start_asks_for(
    performed: StartupAction,
    outcome: StartupOutcome,
    step: StartupStep,
)
    requires
        call_ensures(next_step, (performed, outcome), step),
        step is Perform,
    ensures
        match step->Perform_0 {
            StartupAction::CreateWindow { title, width, height } => title@ == "Blub"@ && width
                == 1980 && height == 1080,
            StartupAction::RequestDevice { max_immediate_size } => max_immediate_size >= 256 && (
            outcome matches StartupOutcome::Adapter { max_immediate_size: offered } ==> (
            max_immediate_size == offered || offered < 256 && max_immediate_size == 256)),
            StartupAction::OpenShaderDirectory { shaders, cache } => shaders@ == "shader"@ && cache@
                == ".shadercache"@,
            StartupAction::CreateScreen { present_mode } => present_mode == PresentMode::Fifo,
            StartupAction::CreateProfiler { profile, max_num_pending_frames } => match profile {
                Profile::Rendering => max_num_pending_frames == 4,
                Profile::Simulation => max_num_pending_frames == 16,
            },
            _ => true,
        },
{
}

} // verus!
