//! The start of the application, up to the first frame.
//!
//! Like a frame, the start is a chain of actions that are performed outside.

use crate::gpu::PresentMode;
use crate::gui::panels::Profile;
use crate::screen::Screen;
use vstd::prelude::*;

verus! {

/// A step of the start.
#[derive(Clone, Copy, Debug)]
pub enum StartupAction {
    /// Open the graphics interface.
    CreateInstance,
    /// Open a window with this title and this size in logical pixels.
    CreateWindow { title: &'static str, width: u32, height: u32 },
    /// Make a surface to draw to out of the window.
    CreateSurface,
    /// Look for a fast adapter that can draw to the surface, and ask for its limit on immediate
    /// data.
    RequestAdapter,
    /// Open a device with this limit on immediate data and all other limits of the adapter.
    RequestDevice { max_immediate_size: u32 },
    /// Read shaders from one directory and keep compiled ones in another.
    OpenShaderDirectory { shaders: &'static str, cache: &'static str },
    /// Make a screen of the window's size.
    CreateScreen { present_mode: PresentMode },
    /// Make a backbuffer for high dynamic range of the size that the screen has for it.
    CreateHdrBackbuffer,
    /// Make the buffer and the bindings that all shaders share.
    CreateGlobals,
    CreateSimulationController,
    CreateSceneRenderer,
    CreateGui,
    /// Make a profiler that keeps up with so many frames in flight.
    CreateProfiler { profile: Profile, max_num_pending_frames: u32 },
    /// Load the scene that is chosen in the settings window.
    LoadSelectedScene,
    /// Tell the renderer of the scene.
    NotifyRenderer,
    /// Bind the meshes of the scene.
    CreateBindGroup,
}

/// What came of a step of the start.
#[derive(Clone, Copy, Debug, PartialEq, Eq, Structural)]
pub enum StartupOutcome {
    Done,
    /// The adapter, with its limit on immediate data.
    Adapter { max_immediate_size: u32 },
    Failed,
}

/// How the start goes on.
#[derive(Clone, Copy, Debug)]
pub enum StartupStep {
    Perform(StartupAction),
    /// The application cannot start.
    Abort(&'static str),
    /// The application runs.
    Ready,
}

/// The least limit on immediate data that the shaders need.
pub const MIN_IMMEDIATE_SIZE: u32 = 256;

/// The step that the start begins with.
pub fn first_step() -> (step: StartupAction)
    ensures
        step == StartupAction::CreateInstance,
{
    StartupAction::CreateInstance
}

/// What is said when a step fails; none for a step that cannot fail.
pub open spec fn failure_message(action: StartupAction) -> Option<&'static str> {
    match action {
        StartupAction::CreateWindow { .. } => Some("Failed to create window"),
        StartupAction::CreateSurface => Some("Failed to create surface"),
        StartupAction::RequestAdapter => Some("Failed to find an appropriate adapter"),
        StartupAction::RequestDevice { .. } => Some("Failed to create device"),
        StartupAction::CreateProfiler { profile: Profile::Rendering, .. } => Some(
            "profiler (rendering)",
        ),
        StartupAction::CreateProfiler { profile: Profile::Simulation, .. } => Some(
            "profiler (simulation)",
        ),
        StartupAction::LoadSelectedScene => Some("Failed to load scene"),
        _ => None,
    }
}

/// Whether an outcome is of a kind that the step has.
pub open spec fn yields(action: StartupAction, outcome: StartupOutcome) -> bool {
    match outcome {
        StartupOutcome::Done => !(action is RequestAdapter),
        StartupOutcome::Adapter { .. } => action is RequestAdapter,
        StartupOutcome::Failed => failure_message(action) is Some,
    }
}

/// The step that follows another one that did not fail.
pub open spec fn following_step(action: StartupAction, outcome: StartupOutcome) -> StartupStep {
    match action {
        StartupAction::CreateInstance => StartupStep::Perform(
            StartupAction::CreateWindow { title: "Blub", width: 1980, height: 1080 },
        ),
        StartupAction::CreateWindow { .. } => StartupStep::Perform(StartupAction::CreateSurface),
        StartupAction::CreateSurface => StartupStep::Perform(StartupAction::RequestAdapter),
        StartupAction::RequestAdapter => StartupStep::Perform(
            StartupAction::RequestDevice {
                max_immediate_size: match outcome {
                    StartupOutcome::Adapter { max_immediate_size } => if max_immediate_size
                        > MIN_IMMEDIATE_SIZE {
                        max_immediate_size
                    } else {
                        MIN_IMMEDIATE_SIZE
                    },
                    _ => MIN_IMMEDIATE_SIZE,
                },
            },
        ),
        StartupAction::RequestDevice { .. } => StartupStep::Perform(
            StartupAction::OpenShaderDirectory { shaders: "shader", cache: ".shadercache" },
        ),
        StartupAction::OpenShaderDirectory { .. } => StartupStep::Perform(
            StartupAction::CreateScreen { present_mode: Screen::DEFAULT_PRESENT_MODE },
        ),
        StartupAction::CreateScreen { .. } => StartupStep::Perform(
            StartupAction::CreateHdrBackbuffer,
        ),
        StartupAction::CreateHdrBackbuffer => StartupStep::Perform(StartupAction::CreateGlobals),
        StartupAction::CreateGlobals => StartupStep::Perform(
            StartupAction::CreateSimulationController,
        ),
        StartupAction::CreateSimulationController => StartupStep::Perform(
            StartupAction::CreateSceneRenderer,
        ),
        StartupAction::CreateSceneRenderer => StartupStep::Perform(StartupAction::CreateGui),
        StartupAction::CreateGui => StartupStep::Perform(
            StartupAction::CreateProfiler {
                profile: Profile::Rendering,
                max_num_pending_frames: 4,
            },
        ),
        StartupAction::CreateProfiler { profile: Profile::Rendering, .. } => StartupStep::Perform(
            StartupAction::CreateProfiler {
                profile: Profile::Simulation,
                max_num_pending_frames: 16,
            },
        ),
        StartupAction::CreateProfiler { profile: Profile::Simulation, .. } => StartupStep::Perform(
            StartupAction::LoadSelectedScene,
        ),
        StartupAction::LoadSelectedScene => StartupStep::Perform(StartupAction::NotifyRenderer),
        StartupAction::NotifyRenderer => StartupStep::Perform(StartupAction::CreateBindGroup),
        StartupAction::CreateBindGroup => StartupStep::Ready,
    }
}

/// The step that follows another. The first failure ends the start.
pub open spec fn startup_step(action: StartupAction, outcome: StartupOutcome) -> StartupStep {
    if outcome == StartupOutcome::Failed {
        StartupStep::Abort(failure_message(action)->0)
    } else {
        following_step(action, outcome)
    }
}

fn message_of(action: StartupAction) -> (message: &'static str)
    requires
        failure_message(action) is Some,
    ensures
        failure_message(action) == Some(message),
{
    match action {
        StartupAction::CreateWindow { .. } => "Failed to create window",
        StartupAction::CreateSurface => "Failed to create surface",
        StartupAction::RequestAdapter => "Failed to find an appropriate adapter",
        StartupAction::RequestDevice { .. } => "Failed to create device",
        StartupAction::CreateProfiler { profile: Profile::Rendering, .. } => "profiler (rendering)",
        StartupAction::CreateProfiler { profile: Profile::Simulation, .. } => {
            "profiler (simulation)"
        },
        _ => "Failed to load scene",
    }
}

/// Decides how the start goes on after a step.
pub fn next_step(performed: StartupAction, outcome: StartupOutcome) -> (step: StartupStep)
    requires
        yields(performed, outcome),
    ensures
        step == startup_step(performed, outcome),
{
    if outcome == StartupOutcome::Failed {
        return StartupStep::Abort(message_of(performed));
    }
    let next = match performed {
        StartupAction::CreateInstance => StartupAction::CreateWindow {
            title: "Blub",
            width: 1980,
            height: 1080,
        },
        StartupAction::CreateWindow { .. } => StartupAction::CreateSurface,
        StartupAction::CreateSurface => StartupAction::RequestAdapter,
        StartupAction::RequestAdapter => {
            let mut limit: u32 = MIN_IMMEDIATE_SIZE;
            if let StartupOutcome::Adapter { max_immediate_size } = outcome {
                if max_immediate_size > MIN_IMMEDIATE_SIZE {
                    limit = max_immediate_size;
                }
            }
            StartupAction::RequestDevice { max_immediate_size: limit }
        },
        StartupAction::RequestDevice { .. } => StartupAction::OpenShaderDirectory {
            shaders: "shader",
            cache: ".shadercache",
        },
        StartupAction::OpenShaderDirectory { .. } => StartupAction::CreateScreen {
            present_mode: Screen::DEFAULT_PRESENT_MODE,
        },
        StartupAction::CreateScreen { .. } => StartupAction::CreateHdrBackbuffer,
        StartupAction::CreateHdrBackbuffer => StartupAction::CreateGlobals,
        StartupAction::CreateGlobals => StartupAction::CreateSimulationController,
        StartupAction::CreateSimulationController => StartupAction::CreateSceneRenderer,
        StartupAction::CreateSceneRenderer => StartupAction::CreateGui,
        StartupAction::CreateGui => StartupAction::CreateProfiler {
            profile: Profile::Rendering,
            max_num_pending_frames: 4,
        },
        StartupAction::CreateProfiler { profile: Profile::Rendering, .. } => {
            StartupAction::CreateProfiler {
                profile: Profile::Simulation,
                max_num_pending_frames: 16,
            }
        },
        StartupAction::CreateProfiler { profile: Profile::Simulation, .. } => {
            StartupAction::LoadSelectedScene
        },
        StartupAction::LoadSelectedScene => StartupAction::NotifyRenderer,
        StartupAction::NotifyRenderer => StartupAction::CreateBindGroup,
        StartupAction::CreateBindGroup => return StartupStep::Ready,
    };
    StartupStep::Perform(next)
}

/// How the start goes on after so many steps, where `outcome` tells what came of each step.
pub open spec fn step_after(
    steps: nat,
    outcome: spec_fn(StartupAction) -> StartupOutcome,
) -> StartupStep
    decreases steps,
{
    if steps == 0 {
        StartupStep::Perform(StartupAction::CreateInstance)
    } else {
        match step_after((steps - 1) as nat, outcome) {
            StartupStep::Perform(action) => startup_step(action, outcome(action)),
            ended => ended,
        }
    }
}

/// Whether the step after so many others fails with this message.
pub open spec fn fails_after(
    steps: nat,
    outcome: spec_fn(StartupAction) -> StartupOutcome,
    message: &'static str,
) -> bool {
    step_after(steps, outcome) matches StartupStep::Perform(action) && outcome(action)
        == StartupOutcome::Failed && failure_message(action) == Some(message)
}

proof fn lemma_abort(
    steps: nat,
    outcome: spec_fn(StartupAction) -> StartupOutcome,
    message: &'static str,
)
    requires
        forall|action: StartupAction| #[trigger] yields(action, outcome(action)),
    ensures
        step_after(steps, outcome) == StartupStep::Abort(message) <==> exists|earlier: nat|
            earlier < steps && #[trigger] fails_after(earlier, outcome, message),
    decreases steps,
{
    if steps > 0 {
        let before = (steps - 1) as nat;
        lemma_abort(before, outcome, message);
        if let StartupStep::Perform(action) = step_after(before, outcome) {
            assert(yields(action, outcome(action)));
            if step_after(steps, outcome) == StartupStep::Abort(message) {
                assert(fails_after(before, outcome, message));
            }
        }
        if exists|earlier: nat| earlier < steps && #[trigger] fails_after(earlier, outcome, message) {
            let earlier = choose|earlier: nat|
                earlier < steps && #[trigger] fails_after(earlier, outcome, message);
            if earlier < before {
                assert(step_after(before, outcome) == StartupStep::Abort(message));
            }
        }
    }
}

/// The start ends: after its seventeen steps the application runs or has been aborted. It has
/// been aborted with a message exactly if a step failed with it; no step follows one that failed.
pub proof fn law_startup_ends(
    outcome: spec_fn(StartupAction) -> StartupOutcome,
    message: &'static str,
)
    requires
        forall|action: StartupAction| #[trigger] yields(action, outcome(action)),
    ensures
        step_after(17, outcome) is Ready || step_after(17, outcome) is Abort,
        step_after(17, outcome) == StartupStep::Abort(message) <==> exists|earlier: nat|
            earlier < 17 && #[trigger] fails_after(earlier, outcome, message),
{
    lemma_abort(17, outcome, message);
    reveal_with_fuel(step_after, 18);
}

/// The device is opened with room for the immediate data of the shaders, and with no less than
/// the adapter offers.
pub proof fn law_immediate_size(offered: u32)
    ensures
        startup_step(
            StartupAction::RequestAdapter,
            StartupOutcome::Adapter { max_immediate_size: offered },
        ) matches StartupStep::Perform(StartupAction::RequestDevice { max_immediate_size })
            && max_immediate_size >= MIN_IMMEDIATE_SIZE && max_immediate_size >= offered && (
        max_immediate_size == MIN_IMMEDIATE_SIZE || max_immediate_size == offered),
{
}

} // verus!
