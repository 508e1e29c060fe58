//! A frame: which step follows which, and why.

use crate::application::Application;
use crate::frame::{DrawAction, DrawOutcome, UpdateAction, UpdateOutcome};
use crate::gpu::{CurrentSurfaceTexture, Resolution};
use crate::simulation::SimulationControllerStatus;
use vstd::prelude::*;

verus! {

/// Whether `next` follows a step of a drawing on the screen of `application`.
pub open spec fn draws_on(
    application: &Application,
    performed: DrawAction,
    outcome: DrawOutcome,
    next: Option<DrawAction>,
) -> bool {
    call_ensures(Application::draw, (application, performed, outcome), next)
}

/// The screen follows the window. A window without area is not drawn. A window of any other size
/// than the screen, smaller or larger, gets a new screen of exactly its size with the present mode
/// of the old one. Only a window of exactly the size of the screen is drawn at once.
pub proof fn law_window_size_decides(
    application: &Application,
    size: Resolution,
    next: Option<DrawAction>,
)
    requires
        draws_on(
            application,
            DrawAction::QueryWindowSize,
            DrawOutcome::WindowSize(size),
            next,
        ),
    ensures
        next is None <==> size.width == 0 || size.height == 0,
        size.width > 0 && size.height > 0 && (size.width != application@.screen.resolution.width
            || size.height != application@.screen.resolution.height) ==> next == Some(
            DrawAction::RecreateScreen {
                present_mode: application@.screen.present_mode,
                resolution: size,
            },
        ),
        next == Some(DrawAction::AcquireTexture) <==> size == application@.screen.resolution
            && size.width > 0 && size.height > 0,
{
}

/// A new screen brings the other things of its size with it before a texture is asked for: the
/// backbuffer for high dynamic range, then what the renderer keeps.
pub proof fn law_new_screen_is_followed_up(
    application: &Application,
    recreate: DrawAction,
    second: Option<DrawAction>,
    third: Option<DrawAction>,
    fourth: Option<DrawAction>,
)
    requires
        recreate is RecreateScreen,
        draws_on(application, recreate, DrawOutcome::Done, second),
        second is Some ==> draws_on(application, second->0, DrawOutcome::Done, third),
        third is Some ==> draws_on(application, third->0, DrawOutcome::Done, fourth),
    ensures
        second == Some(DrawAction::RecreateHdrBackbuffer),
        third == Some(DrawAction::ResizeRenderer),
        fourth == Some(DrawAction::AcquireTexture),
{
}

/// A texture starts the frame. A surface that is lost or outdated is set up again and asked again,
/// however often. A rejected request is reported and ends the drawing; so does any other answer,
/// without a report.
pub proof fn law_answer_decides(
    application: &Application,
    answer: CurrentSurfaceTexture,
    next: Option<DrawAction>,
    after: Option<DrawAction>,
)
    requires
        draws_on(
            application,
            DrawAction::AcquireTexture,
            DrawOutcome::Surface(answer),
            next,
        ),
        next is Some ==> draws_on(application, next->0, DrawOutcome::Done, after),
    ensures
        next == Some(DrawAction::CreateEncoder) <==> answer == CurrentSurfaceTexture::Success
            || answer == CurrentSurfaceTexture::Suboptimal,
        next == Some(DrawAction::ReconfigureSurface) <==> answer == CurrentSurfaceTexture::Lost
            || answer == CurrentSurfaceTexture::Outdated,
        next == Some(DrawAction::ReportSurfaceError) <==> answer
            == CurrentSurfaceTexture::Validation,
        next is None <==> answer == CurrentSurfaceTexture::Timeout || answer
            == CurrentSurfaceTexture::Occluded,
        next == Some(DrawAction::ReconfigureSurface) ==> after == Some(DrawAction::AcquireTexture),
        next == Some(DrawAction::ReportSurfaceError) ==> after is None,
{
}

/// The place of a step among those of a frame that has its texture.
pub open spec fn place_in_frame(action: DrawAction) -> Option<int> {
    match action {
        DrawAction::CreateEncoder => Some(0),
        DrawAction::UpdateGlobalUbo => Some(1),
        DrawAction::DrawScene => Some(2),
        DrawAction::Tonemap => Some(3),
        DrawAction::CaptureScreenshot => Some(4),
        DrawAction::DrawGui => Some(5),
        DrawAction::CopyToSwapchain => Some(6),
        DrawAction::ResolveQueries => Some(7),
        DrawAction::Submit => Some(8),
        DrawAction::Present => Some(9),
        DrawAction::ProcessScreenshots => Some(10),
        DrawAction::FrameSubmitted => Some(11),
        DrawAction::EndProfilerFrame => Some(12),
        _ => None,
    }
}

/// A frame that has its texture goes through all of its thirteen steps, each behind the one before
/// it, whatever the screen is; behind the last one there is none.
pub proof fn law_frame_goes_through(
    application: &Application,
    performed: DrawAction,
    next: Option<DrawAction>,
)
    requires
        place_in_frame(performed) is Some,
        draws_on(application, performed, DrawOutcome::Done, next),
    ensures
        next is None <==> place_in_frame(performed) == Some(12int),
        next is Some ==> place_in_frame(next->0) == Some(place_in_frame(performed)->0 + 1),
{
}

/// The scene, the tone mapping, the settings window and the copy are timed, each under a name of
/// its own, and nothing else is.
pub proof fn law_timed_steps(action: DrawAction, scope: Option<&'static str>)
    requires
        call_ensures(DrawAction::profiler_scope, (action,), scope),
    ensures
        scope is Some <==> action is DrawScene || action is Tonemap || action is DrawGui || action
            is CopyToSwapchain,
        action is DrawScene ==> (scope->0)@ == "scene"@,
        action is Tonemap ==> (scope->0)@ == "tonemap"@,
        action is DrawGui ==> (scope->0)@ == "gui"@,
        action is CopyToSwapchain ==> (scope->0)@ == "copy to swapchain"@,
{
}

/// Whether `next` follows a step of an update of an application.
pub open spec fn updates(
    application: &mut Application,
    performed: UpdateAction,
    outcome: UpdateOutcome,
    next: Option<UpdateAction>,
) -> bool {
    call_ensures(Application::update, (application, performed, outcome), next)
}

/// Pipelines are rebuilt exactly if any shader file has changed; then, and else at once, the
/// camera moves, the globals are updated and the simulation steps. The screenshots of a recording
/// end exactly if the simulation is paused behind its steps.
pub proof fn law_update_follows_shaders_and_status()
    ensures
        forall|application: &mut Application, files: usize, next: Option<UpdateAction>| #[trigger]
            updates(
                application,
                UpdateAction::DrainChangedFiles,
                UpdateOutcome::ChangedFiles(files),
                next,
            ) ==> next == Some(
                if files > 0 {
                    UpdateAction::ReloadPipelines
                } else {
                    UpdateAction::MoveCamera
                },
            ),
        forall|application: &mut Application, next: Option<UpdateAction>| #[trigger]
            updates(application, UpdateAction::ReloadPipelines, UpdateOutcome::Done, next)
                ==> next == Some(UpdateAction::MoveCamera),
        forall|application: &mut Application, next: Option<UpdateAction>| #[trigger]
            updates(application, UpdateAction::MoveCamera, UpdateOutcome::Done, next) ==> next
                == Some(UpdateAction::UpdateGlobalUbo),
        forall|application: &mut Application, next: Option<UpdateAction>| #[trigger]
            updates(application, UpdateAction::UpdateGlobalUbo, UpdateOutcome::Done, next) ==> next
                == Some(UpdateAction::FrameSteps),
        forall|
            application: &mut Application,
            status: SimulationControllerStatus,
            next: Option<UpdateAction>,
        | #[trigger]
            updates(application, UpdateAction::FrameSteps, UpdateOutcome::Status(status), next)
                ==> next is Some && (next == Some(UpdateAction::StopRecording) <==> status
                == SimulationControllerStatus::Paused) && (status
                != SimulationControllerStatus::Paused ==> next->0 is SetSimulationTimers),
{
}

/// The timers of each profiler run exactly while its data is being looked at: first those of the
/// simulation are set, then those of the rendering.
pub proof fn law_timers_follow_the_window()
    ensures
        forall|
            application: &mut Application,
            performed: UpdateAction,
            outcome: UpdateOutcome,
            next: Option<UpdateAction>,
        | #[trigger]
            updates(application, performed, outcome, next) ==> {
                &&& next matches Some(UpdateAction::SetSimulationTimers { enabled }) ==> enabled
                    == application@.gui.show_profiling_data_simulation
                &&& next matches Some(UpdateAction::SetRenderingTimers { enabled }) ==> enabled
                    == application@.gui.show_profiling_data_rendering
                &&& performed is StopRecording ==> next is Some && next->0 is SetSimulationTimers
                &&& performed is SetSimulationTimers ==> next is Some && next->0
                    is SetRenderingTimers
                &&& performed is SetRenderingTimers ==> next == Some(
                    UpdateAction::ProcessRenderingFrame,
                )
            },
{
}

/// Finished frames of the simulation are asked for, behind the one of the rendering, until there
/// is none. The data of a finished frame replaces the data of its own kind, and an update changes
/// nothing else that the application remembers.
pub proof fn law_finished_frames_are_reported()
    ensures
        forall|
            application: &mut Application,
            performed: UpdateAction,
            outcome: UpdateOutcome,
            next: Option<UpdateAction>,
        | #[trigger]
            updates(application, performed, outcome, next) ==> {
                let before = application@;
                let after = final(application)@;
                let data = match outcome {
                    UpdateOutcome::Profile(data) => data,
                    _ => None,
                };
                &&& performed is ProcessRenderingFrame ==> next == Some(
                    UpdateAction::ProcessSimulationFrame,
                )
                &&& performed is ProcessSimulationFrame ==> (next is None <==> outcome
                    == UpdateOutcome::Profile(None))
                &&& performed is ProcessSimulationFrame && next is Some ==> next == Some(performed)
                &&& next is None ==> performed is ProcessSimulationFrame
                &&& after.gui.profiling_data_rendering == if performed is ProcessRenderingFrame
                    && data is Some {
                    (data->0)@
                } else {
                    before.gui.profiling_data_rendering
                }
                &&& after.gui.profiling_data_simulation == if performed is ProcessSimulationFrame
                    && data is Some {
                    (data->0)@
                } else {
                    before.gui.profiling_data_simulation
                }
                &&& after.gui.video_fps == before.gui.video_fps
                &&& after.gui.selected_scene == before.gui.selected_scene
                &&& after.gui.scenes == before.gui.scenes
                &&& after.gui.wait_for_vblank == before.gui.wait_for_vblank
                &&& after.gui.show_profiling_data_rendering
                    == before.gui.show_profiling_data_rendering
                &&& after.gui.show_profiling_data_simulation
                    == before.gui.show_profiling_data_simulation
                &&& after.screen == before.screen
                &&& after.camera == before.camera
                &&& after.window_id == before.window_id
            },
{
}

} // verus!
