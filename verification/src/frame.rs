//! One frame of the application: an update, then a drawing.
//!
//! Both are chains of actions. Each action is performed outside, and its outcome decides which
//! one comes next.

use crate::application::{Application, ApplicationState};
use crate::gpu::{CurrentSurfaceTexture, PresentMode, Resolution};
use crate::gui::profiler::ProfilerScope;
use crate::gui::GuiModel;
use crate::screen::{acquire_step, AcquireStep, ScreenState};
use crate::simulation::SimulationControllerStatus;
use vstd::prelude::*;

verus! {

/// A step of the update.
#[derive(Clone, Copy, Debug, PartialEq, Eq, Structural)]
pub enum UpdateAction {
    /// Ask which shader files have changed.
    DrainChangedFiles,
    /// Build the pipelines of the changed shaders again.
    ReloadPipelines,
    /// Let the camera move.
    MoveCamera,
    UpdateGlobalUbo,
    /// Perform the simulation steps of the frame, and ask what the simulation is doing then.
    FrameSteps,
    /// End the series of screenshots.
    StopRecording,
    SetSimulationTimers { enabled: bool },
    SetRenderingTimers { enabled: bool },
    /// Ask the profiler of the rendering for a finished frame.
    ProcessRenderingFrame,
    /// Ask the profiler of the simulation for a finished frame.
    ProcessSimulationFrame,
}

/// What came of a step of the update.
#[derive(Debug)]
pub enum UpdateOutcome {
    Done,
    /// So many shader files have changed.
    ChangedFiles(usize),
    Status(SimulationControllerStatus),
    /// The profiling data of a finished frame, if there is one.
    Profile(Option<Vec<ProfilerScope>>),
}

impl UpdateAction {
    /// Whether an outcome is of the kind that the step has.
    pub open spec fn yields(self, outcome: UpdateOutcome) -> bool {
        match self {
            UpdateAction::DrainChangedFiles => outcome is ChangedFiles,
            UpdateAction::FrameSteps => outcome is Status,
            UpdateAction::ProcessRenderingFrame
            | UpdateAction::ProcessSimulationFrame => outcome is Profile,
            _ => outcome is Done,
        }
    }
}

impl GuiModel {
    /// What the settings window remembers after a step of the update: profiling data of finished
    /// frames.
    pub open spec fn after_update_step(
        self,
        performed: UpdateAction,
        outcome: UpdateOutcome,
    ) -> GuiModel {
        match (performed, outcome) {
            (
                UpdateAction::ProcessRenderingFrame,
                UpdateOutcome::Profile(Some(profile)),
            ) => GuiModel { profiling_data_rendering: profile@, ..self },
            (
                UpdateAction::ProcessSimulationFrame,
                UpdateOutcome::Profile(Some(profile)),
            ) => GuiModel { profiling_data_simulation: profile@, ..self },
            _ => self,
        }
    }

    /// The step of the update that follows another; none at the end.
    pub open spec fn update_step(
        self,
        performed: UpdateAction,
        outcome: UpdateOutcome,
    ) -> Option<UpdateAction> {
        match performed {
            UpdateAction::DrainChangedFiles => if outcome == UpdateOutcome::ChangedFiles(0) {
                Some(UpdateAction::MoveCamera)
            } else {
                Some(UpdateAction::ReloadPipelines)
            },
            UpdateAction::ReloadPipelines => Some(UpdateAction::MoveCamera),
            UpdateAction::MoveCamera => Some(UpdateAction::UpdateGlobalUbo),
            UpdateAction::UpdateGlobalUbo => Some(UpdateAction::FrameSteps),
            UpdateAction::FrameSteps => if outcome == UpdateOutcome::Status(
                SimulationControllerStatus::Paused,
            ) {
                Some(UpdateAction::StopRecording)
            } else {
                Some(
                    UpdateAction::SetSimulationTimers {
                        enabled: self.show_profiling_data_simulation,
                    },
                )
            },
            UpdateAction::StopRecording => Some(
                UpdateAction::SetSimulationTimers { enabled: self.show_profiling_data_simulation },
            ),
            UpdateAction::SetSimulationTimers { .. } => Some(
                UpdateAction::SetRenderingTimers { enabled: self.show_profiling_data_rendering },
            ),
            UpdateAction::SetRenderingTimers { .. } => Some(UpdateAction::ProcessRenderingFrame),
            UpdateAction::ProcessRenderingFrame => Some(UpdateAction::ProcessSimulationFrame),
            UpdateAction::ProcessSimulationFrame => if outcome == UpdateOutcome::Profile(None) {
                None
            } else {
                Some(UpdateAction::ProcessSimulationFrame)
            },
        }
    }
}

/// A step of the drawing.
#[derive(Clone, Copy, Debug, PartialEq, Eq, Structural)]
pub enum DrawAction {
    /// Ask for the size of the window.
    QueryWindowSize,
    /// Replace the screen.
    RecreateScreen { present_mode: PresentMode, resolution: Resolution },
    /// Replace the backbuffer for high dynamic range by one of the size that the new screen has for
    /// it.
    RecreateHdrBackbuffer,
    /// Tell the renderer of the new size.
    ResizeRenderer,
    /// Ask the surface for its next texture.
    AcquireTexture,
    /// Set the surface up again with the configuration of the screen.
    ReconfigureSurface,
    /// Report that the surface rejected the request.
    ReportSurfaceError,
    CreateEncoder,
    UpdateGlobalUbo,
    DrawScene,
    Tonemap,
    /// Copy the picture for a screenshot, if one is due. The settings window is not in it.
    CaptureScreenshot,
    DrawGui,
    CopyToSwapchain,
    /// Have the timers of the profiler read out.
    ResolveQueries,
    Submit,
    Present,
    /// Save the screenshots that have arrived.
    ProcessScreenshots,
    /// Tell the simulation that the frame is on its way.
    FrameSubmitted,
    EndProfilerFrame,
}

/// What came of a step of the drawing.
#[derive(Clone, Copy, Debug, PartialEq, Eq, Structural)]
pub enum DrawOutcome {
    Done,
    WindowSize(Resolution),
    Surface(CurrentSurfaceTexture),
}

impl DrawAction {
    /// Whether an outcome is of the kind that the step has.
    pub open spec fn yields(self, outcome: DrawOutcome) -> bool {
        match self {
            DrawAction::QueryWindowSize => outcome is WindowSize,
            DrawAction::AcquireTexture => outcome is Surface,
            _ => outcome is Done,
        }
    }

    /// The name under which the profiler times the step.
    pub open spec fn spec_profiler_scope(self) -> Option<&'static str> {
        match self {
            DrawAction::DrawScene => Some("scene"),
            DrawAction::Tonemap => Some("tonemap"),
            DrawAction::DrawGui => Some("gui"),
            DrawAction::CopyToSwapchain => Some("copy to swapchain"),
            _ => None,
        }
    }

    /// The name under which the profiler times the step; none for a step that is not timed.
    pub fn profiler_scope(self) -> (scope: Option<&'static str>)
        ensures
            scope == self.spec_profiler_scope(),
    {
        match self {
            DrawAction::DrawScene => Some("scene"),
            DrawAction::Tonemap => Some("tonemap"),
            DrawAction::DrawGui => Some("gui"),
            DrawAction::CopyToSwapchain => Some("copy to swapchain"),
            _ => None,
        }
    }
}

impl ScreenState {
    /// The step of the drawing that follows another; none at the end. A window without area is
    /// not drawn; a window of another size than the screen gets another screen first.
    pub open spec fn draw_step(
        self,
        performed: DrawAction,
        outcome: DrawOutcome,
    ) -> Option<DrawAction> {
        match performed {
            DrawAction::QueryWindowSize => match outcome {
                DrawOutcome::WindowSize(size) => if size.spec_is_degenerate() {
                    None
                } else if size != self.resolution {
                    Some(
                        DrawAction::RecreateScreen {
                            present_mode: self.present_mode,
                            resolution: size,
                        },
                    )
                } else {
                    Some(DrawAction::AcquireTexture)
                },
                _ => None,
            },
            DrawAction::RecreateScreen { .. } => Some(DrawAction::RecreateHdrBackbuffer),
            DrawAction::RecreateHdrBackbuffer => Some(DrawAction::ResizeRenderer),
            DrawAction::ResizeRenderer => Some(DrawAction::AcquireTexture),
            DrawAction::AcquireTexture => match outcome {
                DrawOutcome::Surface(answer) => match acquire_step(self.surface_config, answer) {
                    AcquireStep::Use => Some(DrawAction::CreateEncoder),
                    AcquireStep::Reconfigure(_) => Some(DrawAction::ReconfigureSurface),
                    AcquireStep::Skip => None,
                    AcquireStep::SkipWithError => Some(DrawAction::ReportSurfaceError),
                },
                _ => None,
            },
            DrawAction::ReconfigureSurface => Some(DrawAction::AcquireTexture),
            DrawAction::ReportSurfaceError => None,
            DrawAction::CreateEncoder => Some(DrawAction::UpdateGlobalUbo),
            DrawAction::UpdateGlobalUbo => Some(DrawAction::DrawScene),
            DrawAction::DrawScene => Some(DrawAction::Tonemap),
            DrawAction::Tonemap => Some(DrawAction::CaptureScreenshot),
            DrawAction::CaptureScreenshot => Some(DrawAction::DrawGui),
            DrawAction::DrawGui => Some(DrawAction::CopyToSwapchain),
            DrawAction::CopyToSwapchain => Some(DrawAction::ResolveQueries),
            DrawAction::ResolveQueries => Some(DrawAction::Submit),
            DrawAction::Submit => Some(DrawAction::Present),
            DrawAction::Present => Some(DrawAction::ProcessScreenshots),
            DrawAction::ProcessScreenshots => Some(DrawAction::FrameSubmitted),
            DrawAction::FrameSubmitted => Some(DrawAction::EndProfilerFrame),
            DrawAction::EndProfilerFrame => None,
        }
    }
}

impl Application {
    /// Decides how the update goes on after a step. It begins with `DrainChangedFiles`.
    pub fn update(&mut self, performed: UpdateAction, outcome: UpdateOutcome) -> (next: Option<
        UpdateAction,
    >)
        requires
            performed.yields(outcome),
        ensures
            final(self)@ == (ApplicationState {
                gui: old(self)@.gui.after_update_step(performed, outcome),
                ..old(self)@
            }),
            next == old(self)@.gui.update_step(performed, outcome),
    {
        match performed {
            UpdateAction::DrainChangedFiles => match outcome {
                UpdateOutcome::ChangedFiles(0) => Some(UpdateAction::MoveCamera),
                _ => Some(UpdateAction::ReloadPipelines),
            },
            UpdateAction::ReloadPipelines => Some(UpdateAction::MoveCamera),
            UpdateAction::MoveCamera => Some(UpdateAction::UpdateGlobalUbo),
            UpdateAction::UpdateGlobalUbo => Some(UpdateAction::FrameSteps),
            UpdateAction::FrameSteps => match outcome {
                UpdateOutcome::Status(SimulationControllerStatus::Paused) => {
                    Some(UpdateAction::StopRecording)
                },
                _ => Some(
                    UpdateAction::SetSimulationTimers {
                        enabled: self.gui.show_profiling_data_simulation(),
                    },
                ),
            },
            UpdateAction::StopRecording => Some(
                UpdateAction::SetSimulationTimers {
                    enabled: self.gui.show_profiling_data_simulation(),
                },
            ),
            UpdateAction::SetSimulationTimers { .. } => Some(
                UpdateAction::SetRenderingTimers {
                    enabled: self.gui.show_profiling_data_rendering(),
                },
            ),
            UpdateAction::SetRenderingTimers { .. } => Some(UpdateAction::ProcessRenderingFrame),
            UpdateAction::ProcessRenderingFrame => {
                if let UpdateOutcome::Profile(Some(profile)) = outcome {
                    self.gui.report_profiling_data_rendering(profile);
                }
                Some(UpdateAction::ProcessSimulationFrame)
            },
            UpdateAction::ProcessSimulationFrame => match outcome {
                UpdateOutcome::Profile(Some(profile)) => {
                    self.gui.report_profiling_data_simulation(profile);
                    Some(UpdateAction::ProcessSimulationFrame)
                },
                _ => None,
            },
        }
    }

    /// Decides how the drawing goes on after a step. It begins with `QueryWindowSize`.
    pub fn draw(&self, performed: DrawAction, outcome: DrawOutcome) -> (next: Option<DrawAction>)
        requires
            performed.yields(outcome),
        ensures
            next == self@.screen.draw_step(performed, outcome),
    {
        match performed {
            DrawAction::QueryWindowSize => match outcome {
                DrawOutcome::WindowSize(size) => {
                    if size.is_degenerate() {
                        None
                    } else if size != self.screen.resolution() {
                        Some(
                            DrawAction::RecreateScreen {
                                present_mode: self.screen.present_mode(),
                                resolution: size,
                            },
                        )
                    } else {
                        Some(DrawAction::AcquireTexture)
                    }
                },
                _ => None,
            },
            DrawAction::RecreateScreen { .. } => Some(DrawAction::RecreateHdrBackbuffer),
            DrawAction::RecreateHdrBackbuffer => Some(DrawAction::ResizeRenderer),
            DrawAction::ResizeRenderer => Some(DrawAction::AcquireTexture),
            DrawAction::AcquireTexture => match outcome {
                DrawOutcome::Surface(answer) => match self.screen.acquire_surface_texture(answer) {
                    AcquireStep::Use => Some(DrawAction::CreateEncoder),
                    AcquireStep::Reconfigure(_) => Some(DrawAction::ReconfigureSurface),
                    AcquireStep::Skip => None,
                    AcquireStep::SkipWithError => Some(DrawAction::ReportSurfaceError),
                },
                _ => None,
            },
            DrawAction::ReconfigureSurface => Some(DrawAction::AcquireTexture),
            DrawAction::ReportSurfaceError => None,
            DrawAction::CreateEncoder => Some(DrawAction::UpdateGlobalUbo),
            DrawAction::UpdateGlobalUbo => Some(DrawAction::DrawScene),
            DrawAction::DrawScene => Some(DrawAction::Tonemap),
            DrawAction::Tonemap => Some(DrawAction::CaptureScreenshot),
            DrawAction::CaptureScreenshot => Some(DrawAction::DrawGui),
            DrawAction::DrawGui => Some(DrawAction::CopyToSwapchain),
            DrawAction::CopyToSwapchain => Some(DrawAction::ResolveQueries),
            DrawAction::ResolveQueries => Some(DrawAction::Submit),
            DrawAction::Submit => Some(DrawAction::Present),
            DrawAction::Present => Some(DrawAction::ProcessScreenshots),
            DrawAction::ProcessScreenshots => Some(DrawAction::FrameSubmitted),
            DrawAction::FrameSubmitted => Some(DrawAction::EndProfilerFrame),
            DrawAction::EndProfilerFrame => None,
        }
    }
}

impl ScreenState {
    /// The steps of a drawing that goes on from `first`, where `outcomes` came of the steps, in
    /// order.
    pub open spec fn draw_trace(self, first: DrawAction, outcomes: Seq<DrawOutcome>) -> Seq<
        DrawAction,
    >
        decreases outcomes.len(),
    {
        if outcomes.len() == 0 {
            seq![first]
        } else {
            match self.draw_step(first, outcomes[0]) {
                None => seq![first],
                Some(next) => seq![first] + self.draw_trace(next, outcomes.drop_first()),
            }
        }
    }
}

/// A surface that is lost or outdated so often, each time set up again.
pub open spec fn retry_outcomes(answers: Seq<CurrentSurfaceTexture>) -> Seq<DrawOutcome>
    decreases answers.len(),
{
    if answers.len() == 0 {
        Seq::empty()
    } else {
        seq![DrawOutcome::Surface(answers[0]), DrawOutcome::Done] + retry_outcomes(
            answers.drop_first(),
        )
    }
}

/// The steps that set a surface up again so often.
pub open spec fn retry_actions(times: nat) -> Seq<DrawAction>
    decreases times,
{
    if times == 0 {
        Seq::empty()
    } else {
        seq![DrawAction::AcquireTexture, DrawAction::ReconfigureSurface] + retry_actions(
            (times - 1) as nat,
        )
    }
}

/// The steps of a frame once its texture is there.
pub open spec fn frame_actions() -> Seq<DrawAction> {
    seq![
        DrawAction::CreateEncoder,
        DrawAction::UpdateGlobalUbo,
        DrawAction::DrawScene,
        DrawAction::Tonemap,
        DrawAction::CaptureScreenshot,
        DrawAction::DrawGui,
        DrawAction::CopyToSwapchain,
        DrawAction::ResolveQueries,
        DrawAction::Submit,
        DrawAction::Present,
        DrawAction::ProcessScreenshots,
        DrawAction::FrameSubmitted,
        DrawAction::EndProfilerFrame,
    ]
}

/// The steps that follow the first answer of the surface that is not that it was lost or
/// outdated.
pub open spec fn actions_after_answer(answer: CurrentSurfaceTexture) -> Seq<DrawAction> {
    match answer {
        CurrentSurfaceTexture::Success | CurrentSurfaceTexture::Suboptimal => frame_actions(),
        CurrentSurfaceTexture::Validation => seq![DrawAction::ReportSurfaceError],
        _ => Seq::empty(),
    }
}

/// Whether a surface has to be set up again.
pub open spec fn needs_reconfiguration(answer: CurrentSurfaceTexture) -> bool {
    answer == CurrentSurfaceTexture::Outdated || answer == CurrentSurfaceTexture::Lost
}

proof fn lemma_draw_first(
    screen: ScreenState,
    first: DrawAction,
    outcome: DrawOutcome,
    rest: Seq<DrawOutcome>,
)
    ensures
        screen.draw_trace(first, seq![outcome] + rest) == match screen.draw_step(first, outcome) {
            None => seq![first],
            Some(next) => seq![first] + screen.draw_trace(next, rest),
        },
{
    assert((seq![outcome] + rest).drop_first() =~= rest);
}

/// However often the surface is lost, the drawing sets it up again and goes on with the first
/// other answer: it draws a whole frame, in a fixed order, if there is a texture, and nothing
/// if there is none.
pub proof fn law_drawing_after_lost_surfaces(
    screen: ScreenState,
    answers: Seq<CurrentSurfaceTexture>,
    answer: CurrentSurfaceTexture,
)
    requires
        forall|i: int| 0 <= i < answers.len() ==> needs_reconfiguration(#[trigger] answers[i]),
        !needs_reconfiguration(answer),
    ensures
        screen.draw_trace(
            DrawAction::AcquireTexture,
            retry_outcomes(answers) + seq![DrawOutcome::Surface(answer)] + Seq::new(
                13,
                |i: int| DrawOutcome::Done,
            ),
        ) == retry_actions(answers.len()) + seq![DrawAction::AcquireTexture]
            + actions_after_answer(answer),
    decreases answers.len(),
{
    let done = Seq::new(13, |i: int| DrawOutcome::Done);
    let tail = seq![DrawOutcome::Surface(answer)] + done;
    if answers.len() == 0 {
        assert(retry_outcomes(answers) + seq![DrawOutcome::Surface(answer)] + done =~= tail);
        lemma_draw_first(screen, DrawAction::AcquireTexture, DrawOutcome::Surface(answer), done);
        lemma_frame_is_drawn_in_order(screen);
        if answer == CurrentSurfaceTexture::Validation {
            assert(screen.draw_trace(DrawAction::ReportSurfaceError, done) =~= seq![
                DrawAction::ReportSurfaceError,
            ]);
        }
        assert(screen.draw_trace(DrawAction::AcquireTexture, tail) =~= retry_actions(0) + seq![
            DrawAction::AcquireTexture,
        ] + actions_after_answer(answer));
    } else {
        let fewer = answers.drop_first();
        assert forall|i: int| 0 <= i < fewer.len() implies needs_reconfiguration(
            #[trigger] fewer[i],
        ) by {
            assert(fewer[i] == answers[i + 1]);
        }
        law_drawing_after_lost_surfaces(screen, fewer, answer);
        let rest = retry_outcomes(fewer) + seq![DrawOutcome::Surface(answer)] + done;
        let lost = DrawOutcome::Surface(answers[0]);
        assert(needs_reconfiguration(answers[0]));
        assert(retry_outcomes(answers) + seq![DrawOutcome::Surface(answer)] + done =~= seq![lost]
            + (seq![DrawOutcome::Done] + rest));
        lemma_draw_first(
            screen,
            DrawAction::AcquireTexture,
            lost,
            seq![DrawOutcome::Done] + rest,
        );
        lemma_draw_first(screen, DrawAction::ReconfigureSurface, DrawOutcome::Done, rest);
        assert(screen.draw_trace(
            DrawAction::AcquireTexture,
            seq![lost] + (seq![DrawOutcome::Done] + rest),
        ) =~= retry_actions(answers.len()) + seq![DrawAction::AcquireTexture]
            + actions_after_answer(answer));
    }
}

/// Once the texture is there, the frame goes through to the end.
proof fn lemma_frame_is_drawn_in_order(screen: ScreenState)
    ensures
        screen.draw_trace(DrawAction::CreateEncoder, Seq::new(13, |i: int| DrawOutcome::Done))
            == frame_actions(),
{
    let done = |n: nat| Seq::new(n, |i: int| DrawOutcome::Done);
    assert forall|n: nat| n > 0 implies (#[trigger] done(n)).drop_first() =~= done(
        (n - 1) as nat,
    ) by {}
    assert(screen.draw_trace(DrawAction::EndProfilerFrame, done(1)) =~= seq![
        DrawAction::EndProfilerFrame,
    ]);
    assert(screen.draw_trace(DrawAction::FrameSubmitted, done(2)) =~= seq![
        DrawAction::FrameSubmitted,
        DrawAction::EndProfilerFrame,
    ]);
    assert(screen.draw_trace(DrawAction::ProcessScreenshots, done(3)) =~= seq![
        DrawAction::ProcessScreenshots,
        DrawAction::FrameSubmitted,
        DrawAction::EndProfilerFrame,
    ]);
    let last_three = seq![
        DrawAction::ProcessScreenshots,
        DrawAction::FrameSubmitted,
        DrawAction::EndProfilerFrame,
    ];
    assert(screen.draw_trace(DrawAction::Present, done(4)) == seq![DrawAction::Present]
        + last_three);
    assert(screen.draw_trace(DrawAction::Submit, done(5)) == seq![DrawAction::Submit] + (
    seq![DrawAction::Present] + last_three));
    assert(screen.draw_trace(DrawAction::ResolveQueries, done(6)) =~= seq![
        DrawAction::ResolveQueries,
        DrawAction::Submit,
        DrawAction::Present,
    ] + last_three);
    assert(screen.draw_trace(DrawAction::CopyToSwapchain, done(7)) =~= seq![
        DrawAction::CopyToSwapchain,
        DrawAction::ResolveQueries,
        DrawAction::Submit,
        DrawAction::Present,
    ] + last_three);
    assert(screen.draw_trace(DrawAction::DrawGui, done(8)) =~= seq![
        DrawAction::DrawGui,
        DrawAction::CopyToSwapchain,
        DrawAction::ResolveQueries,
        DrawAction::Submit,
        DrawAction::Present,
    ] + last_three);
    let last_eight = seq![
        DrawAction::DrawGui,
        DrawAction::CopyToSwapchain,
        DrawAction::ResolveQueries,
        DrawAction::Submit,
        DrawAction::Present,
    ] + last_three;
    assert(screen.draw_trace(DrawAction::CaptureScreenshot, done(9)) =~= seq![
        DrawAction::CaptureScreenshot,
    ] + last_eight);
    assert(screen.draw_trace(DrawAction::Tonemap, done(10)) =~= seq![
        DrawAction::Tonemap,
        DrawAction::CaptureScreenshot,
    ] + last_eight);
    assert(screen.draw_trace(DrawAction::DrawScene, done(11)) =~= seq![
        DrawAction::DrawScene,
        DrawAction::Tonemap,
        DrawAction::CaptureScreenshot,
    ] + last_eight);
    assert(screen.draw_trace(DrawAction::UpdateGlobalUbo, done(12)) =~= seq![
        DrawAction::UpdateGlobalUbo,
        DrawAction::DrawScene,
        DrawAction::Tonemap,
        DrawAction::CaptureScreenshot,
    ] + last_eight);
    assert(screen.draw_trace(DrawAction::CreateEncoder, done(13)) =~= frame_actions());
}

/// A window without area is not drawn. A window of the size of the screen is drawn on it. Any
/// other window gets a screen of its size, with the present mode of the old one, and is then
/// drawn as a window of the size of the screen.
pub proof fn law_screen_follows_window(screen: ScreenState, replaced: ScreenState, size: Resolution)
    ensures
        ({
            let next = screen.draw_step(
                DrawAction::QueryWindowSize,
                DrawOutcome::WindowSize(size),
            );
            &&& next is None <==> size.spec_is_degenerate()
            &&& next == Some(DrawAction::AcquireTexture) <==> !size.spec_is_degenerate() && size
                == screen.resolution
            &&& next matches Some(DrawAction::RecreateScreen { present_mode, resolution }) ==> {
                &&& present_mode == screen.present_mode
                &&& resolution == size
                &&& replaced.resolution == resolution ==> replaced.draw_step(
                    DrawAction::QueryWindowSize,
                    DrawOutcome::WindowSize(size),
                ) == Some(DrawAction::AcquireTexture)
            }
        }),
        screen.draw_trace(
            DrawAction::RecreateScreen {
                present_mode: screen.present_mode,
                resolution: size,
            },
            seq![DrawOutcome::Done, DrawOutcome::Done, DrawOutcome::Done],
        ) == seq![
            DrawAction::RecreateScreen {
                present_mode: screen.present_mode,
                resolution: size,
            },
            DrawAction::RecreateHdrBackbuffer,
            DrawAction::ResizeRenderer,
            DrawAction::AcquireTexture,
        ],
{
    let done = DrawOutcome::Done;
    let recreate = DrawAction::RecreateScreen {
        present_mode: screen.present_mode,
        resolution: size,
    };
    assert(seq![done, done, done] =~= seq![done] + (seq![done] + (seq![done] + Seq::empty())));
    lemma_draw_first(screen, recreate, done, seq![done] + (seq![done] + Seq::empty()));
    lemma_draw_first(
        screen,
        DrawAction::RecreateHdrBackbuffer,
        done,
        seq![done] + Seq::empty(),
    );
    lemma_draw_first(screen, DrawAction::ResizeRenderer, done, Seq::empty());
    assert(screen.draw_trace(recreate, seq![done, done, done]) =~= seq![
        recreate,
        DrawAction::RecreateHdrBackbuffer,
        DrawAction::ResizeRenderer,
        DrawAction::AcquireTexture,
    ]);
}

impl GuiModel {
    /// The steps of an update that goes on from `first`, where `outcomes` came of the steps, in
    /// order; and what the settings window remembers in the end.
    pub open spec fn update_trace(self, first: UpdateAction, outcomes: Seq<UpdateOutcome>) -> (
        Seq<UpdateAction>,
        GuiModel,
    )
        decreases outcomes.len(),
    {
        if outcomes.len() == 0 {
            (seq![first], self)
        } else {
            let gui = self.after_update_step(first, outcomes[0]);
            match self.update_step(first, outcomes[0]) {
                None => (seq![first], gui),
                Some(next) => {
                    let (actions, last) = gui.update_trace(next, outcomes.drop_first());
                    (seq![first] + actions, last)
                },
            }
        }
    }
}

proof fn lemma_update_first(
    gui: GuiModel,
    first: UpdateAction,
    outcome: UpdateOutcome,
    rest: Seq<UpdateOutcome>,
)
    ensures
        ({
            let after = gui.after_update_step(first, outcome);
            gui.update_trace(first, seq![outcome] + rest) == match gui.update_step(
                first,
                outcome,
            ) {
                None => (seq![first], after),
                Some(next) => (
                    seq![first] + after.update_trace(next, rest).0,
                    after.update_trace(next, rest).1,
                ),
            }
        }),
{
    assert((seq![outcome] + rest).drop_first() =~= rest);
}

/// What comes of asking for finished frames of the simulation until there is none.
pub open spec fn drain_outcomes(frames: Seq<Vec<ProfilerScope>>) -> Seq<UpdateOutcome>
    decreases frames.len(),
{
    if frames.len() == 0 {
        seq![UpdateOutcome::Profile(None)]
    } else {
        seq![UpdateOutcome::Profile(Some(frames[0]))] + drain_outcomes(frames.drop_first())
    }
}

/// What the settings window remembers after finished frames of the simulation: the last one.
pub open spec fn after_drain(gui: GuiModel, frames: Seq<Vec<ProfilerScope>>) -> GuiModel {
    if frames.len() == 0 {
        gui
    } else {
        GuiModel { profiling_data_simulation: frames.last()@, ..gui }
    }
}

proof fn lemma_drain(gui: GuiModel, frames: Seq<Vec<ProfilerScope>>)
    ensures
        gui.update_trace(UpdateAction::ProcessSimulationFrame, drain_outcomes(frames)) == (
            Seq::new(frames.len() + 1, |i: int| UpdateAction::ProcessSimulationFrame),
            after_drain(gui, frames),
        ),
    decreases frames.len(),
{
    let ask = UpdateAction::ProcessSimulationFrame;
    let trace = gui.update_trace(ask, drain_outcomes(frames));
    if frames.len() == 0 {
        assert(trace.0 =~= Seq::new(1, |i: int| ask));
    } else {
        let rest = frames.drop_first();
        let outcome = UpdateOutcome::Profile(Some(frames[0]));
        let after = gui.after_update_step(ask, outcome);
        lemma_drain(after, rest);
        lemma_update_first(gui, ask, outcome, drain_outcomes(rest));
        assert(trace.0 =~= Seq::new(frames.len() + 1, |i: int| ask));
        assert(frames.len() > 1 ==> rest.last() == frames.last());
        assert(after_drain(after, rest) == after_drain(gui, frames));
    }
}

/// The outcomes of a whole update.
pub open spec fn update_outcomes(
    changed_files: usize,
    status: SimulationControllerStatus,
    rendering: Option<Vec<ProfilerScope>>,
    simulation: Seq<Vec<ProfilerScope>>,
) -> Seq<UpdateOutcome> {
    let profiles = seq![UpdateOutcome::Profile(rendering)] + drain_outcomes(simulation);
    let settings = seq![UpdateOutcome::Done] + (seq![UpdateOutcome::Done] + profiles);
    let stopped = if status == SimulationControllerStatus::Paused {
        seq![UpdateOutcome::Done] + settings
    } else {
        settings
    };
    let moved = seq![UpdateOutcome::Done] + (seq![UpdateOutcome::Done] + (seq![
        UpdateOutcome::Status(status),
    ] + stopped));
    seq![UpdateOutcome::ChangedFiles(changed_files)] + (if changed_files > 0 {
        seq![UpdateOutcome::Done] + moved
    } else {
        moved
    })
}

/// The steps of a whole update.
pub open spec fn update_actions(
    gui: GuiModel,
    changed_files: usize,
    status: SimulationControllerStatus,
    simulation_frames: nat,
) -> Seq<UpdateAction> {
    seq![UpdateAction::DrainChangedFiles] + (if changed_files > 0 {
        seq![UpdateAction::ReloadPipelines]
    } else {
        Seq::empty()
    }) + seq![UpdateAction::MoveCamera, UpdateAction::UpdateGlobalUbo, UpdateAction::FrameSteps] + (
    if status == SimulationControllerStatus::Paused {
        seq![UpdateAction::StopRecording]
    } else {
        Seq::empty()
    }) + seq![
        UpdateAction::SetSimulationTimers { enabled: gui.show_profiling_data_simulation },
        UpdateAction::SetRenderingTimers { enabled: gui.show_profiling_data_rendering },
        UpdateAction::ProcessRenderingFrame,
    ] + Seq::new(simulation_frames + 1, |i: int| UpdateAction::ProcessSimulationFrame)
}

/// A whole update performs its steps in a fixed order. It rebuilds pipelines exactly if shaders
/// have changed, and ends a recording exactly if the simulation is paused. It asks for frames of
/// the simulation until there is none; the last one of them, and the one of the rendering if
/// there is any, are what the settings window has afterwards, and nothing else in it changes.
pub proof fn law_update_order(
    gui: GuiModel,
    changed_files: usize,
    status: SimulationControllerStatus,
    rendering: Option<Vec<ProfilerScope>>,
    simulation: Seq<Vec<ProfilerScope>>,
)
    ensures
        gui.update_trace(
            UpdateAction::DrainChangedFiles,
            update_outcomes(changed_files, status, rendering, simulation),
        ) == (
            update_actions(gui, changed_files, status, simulation.len()),
            after_drain(
                match rendering {
                    Some(profile) => GuiModel { profiling_data_rendering: profile@, ..gui },
                    None => gui,
                },
                simulation,
            ),
        ),
{
    let done = UpdateOutcome::Done;
    let drained = drain_outcomes(simulation);
    let profiles = seq![UpdateOutcome::Profile(rendering)] + drained;
    let settings = seq![done] + (seq![done] + profiles);
    let stopped = if status == SimulationControllerStatus::Paused {
        seq![done] + settings
    } else {
        settings
    };
    let stepped = seq![UpdateOutcome::Status(status)] + stopped;
    let moved = seq![done] + (seq![done] + stepped);
    let reported = gui.after_update_step(
        UpdateAction::ProcessRenderingFrame,
        UpdateOutcome::Profile(rendering),
    );
    let timers = UpdateAction::SetSimulationTimers {
        enabled: gui.show_profiling_data_simulation,
    };
    let rendering_timers = UpdateAction::SetRenderingTimers {
        enabled: gui.show_profiling_data_rendering,
    };
    lemma_drain(reported, simulation);
    lemma_update_first(
        gui,
        UpdateAction::ProcessRenderingFrame,
        UpdateOutcome::Profile(rendering),
        drained,
    );
    lemma_update_first(gui, rendering_timers, done, profiles);
    lemma_update_first(gui, timers, done, seq![done] + profiles);
    if status == SimulationControllerStatus::Paused {
        lemma_update_first(gui, UpdateAction::StopRecording, done, settings);
    }
    lemma_update_first(gui, UpdateAction::FrameSteps, UpdateOutcome::Status(status), stopped);
    lemma_update_first(gui, UpdateAction::UpdateGlobalUbo, done, stepped);
    lemma_update_first(gui, UpdateAction::MoveCamera, done, seq![done] + stepped);
    if changed_files > 0 {
        lemma_update_first(gui, UpdateAction::ReloadPipelines, done, moved);
    }
    lemma_update_first(
        gui,
        UpdateAction::DrainChangedFiles,
        UpdateOutcome::ChangedFiles(changed_files),
        if changed_files > 0 {
            seq![done] + moved
        } else {
            moved
        },
    );
    assert(gui.update_trace(
        UpdateAction::DrainChangedFiles,
        update_outcomes(changed_files, status, rendering, simulation),
    ).0 =~= update_actions(gui, changed_files, status, simulation.len()));
}

} // verus!
