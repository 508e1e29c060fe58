use blub::application::{Action, Application, Event, SceneAction};
use blub::events::ApplicationEvent;
use blub::frame::{DrawAction, DrawOutcome, UpdateAction, UpdateOutcome};
use blub::gpu::{
    CompositeAlphaMode, CurrentSurfaceTexture, PresentMode, Resolution, SurfaceCapabilities,
    TextureFormat,
};
use blub::gui::panels::Profile;
use blub::gui::profiler::ProfilerScope;
use blub::gui::{DirectoryEntry, UiEvent, GUI};
use blub::input::{
    DeviceEvent, ElementState, KeyCode, KeyEvent, LogicalKey, MouseButton, PhysicalKey, WindowEvent,
};
use blub::screen::Screen;
use blub::simulation::SimulationControllerStatus;
use blub::startup::{first_step, next_step, StartupAction, StartupOutcome, StartupStep};
use std::time::Duration;

fn size(width: u32, height: u32) -> Resolution {
    Resolution { width, height }
}

fn caps() -> SurfaceCapabilities {
    SurfaceCapabilities {
        formats: vec![TextureFormat::Rgba8UnormSrgb],
        present_modes: vec![PresentMode::Fifo, PresentMode::Mailbox],
        alpha_modes: vec![CompositeAlphaMode::Opaque],
    }
}

fn application() -> Application {
    let entries = vec![DirectoryEntry {
        file_name: "dam.json".to_string(),
        is_file: true,
    }];
    let screen = Screen::new(&caps(), Screen::DEFAULT_PRESENT_MODE, size(640, 480));
    Application::new(42, screen, GUI::new(&entries))
}

fn own(event: WindowEvent) -> Event {
    Event::WindowEvent { window_id: 42, event }
}

fn key(logical_key: LogicalKey, state: ElementState, is_synthetic: bool) -> WindowEvent {
    WindowEvent::KeyboardInput {
        event: KeyEvent {
            physical_key: PhysicalKey::Code(KeyCode::KeyW),
            logical_key,
            state,
        },
        is_synthetic,
    }
}

#[test]
fn a_new_application_has_its_screen() {
    let application = application();
    assert_eq!(application.window_id, 42);
    assert_eq!(application.screen.resolution(), size(640, 480));
    assert_eq!(application.screen.present_mode(), PresentMode::Fifo);
}

#[test]
fn requests() {
    let mut app = application();
    let request = |app: &mut Application, event| app.on_event(Event::UserEvent(event));
    let actions = request(&mut app, ApplicationEvent::LoadScene("scenes/a.json".to_string()));
    assert!(matches!(&actions[0], Action::LoadScene(path) if path == "scenes/a.json"));
    assert!(matches!(actions[1], Action::RestartSimulation));
    assert_eq!(actions.len(), 2);

    let actions = request(&mut app, ApplicationEvent::ResetScene);
    assert!(matches!(actions[..], [Action::ResetScene, Action::RestartSimulation]));

    let length = Duration::from_secs(3);
    let actions = request(&mut app, ApplicationEvent::FastForwardSimulation(length));
    assert!(matches!(actions[..], [Action::FastForward(l)] if l == length));

    let recording = ApplicationEvent::ResetAndStartRecording { recording_fps: 30 };
    assert!(matches!(
        request(&mut app, recording)[..],
        [
            Action::ResetScene,
            Action::RestartSimulation,
            Action::StartRecording { recording_fps: 30 },
            Action::StartScreenshotSeries,
        ]
    ));

    let change = ApplicationEvent::ChangePresentMode(PresentMode::Mailbox);
    match request(&mut app, change)[..] {
        [Action::RecreateScreen { present_mode, resolution }] => {
            assert_eq!(present_mode, PresentMode::Mailbox);
            assert_eq!(resolution, size(640, 480));
            app.recreate_screen(&caps(), present_mode, resolution);
        }
        _ => panic!("no screen"),
    }
    assert_eq!(app.screen.present_mode(), PresentMode::Mailbox);
}

#[test]
fn window_events() {
    let mut app = application();
    assert!(matches!(
        app.on_event(own(WindowEvent::CloseRequested))[..],
        [Action::ForwardToGui(WindowEvent::CloseRequested), Action::Exit]
    ));
    assert!(matches!(
        app.on_event(own(WindowEvent::RedrawRequested))[..],
        [Action::ForwardToGui(_), Action::Update, Action::Draw]
    ));
    assert!(matches!(
        app.on_event(own(key(LogicalKey::Escape, ElementState::Pressed, false)))[..],
        [Action::ForwardToGui(_), Action::Exit]
    ));
    assert!(matches!(
        app.on_event(own(key(LogicalKey::PrintScreen, ElementState::Pressed, false)))[..],
        [Action::ForwardToGui(_), Action::ScheduleScreenshot]
    ));
    assert!(matches!(
        app.on_event(own(key(LogicalKey::Space, ElementState::Pressed, false)))[..],
        [Action::ForwardToGui(_), Action::PauseOrResume]
    ));
    assert!(matches!(
        app.on_event(own(key(LogicalKey::Space, ElementState::Released, false)))[..],
        [Action::ForwardToGui(_)]
    ));
    assert!(matches!(
        app.on_event(own(key(LogicalKey::Escape, ElementState::Pressed, true)))[..],
        [Action::ForwardToGui(_)]
    ));
    let foreign = Event::WindowEvent { window_id: 1, event: WindowEvent::CloseRequested };
    assert!(app.on_event(foreign).is_empty());
}

#[test]
fn events_reach_the_camera() {
    let mut app = application();
    let unlock = WindowEvent::MouseInput {
        button: MouseButton::Right,
        state: ElementState::Pressed,
    };
    let _ = app.on_event(own(unlock));
    let _ = app.on_event(own(key(LogicalKey::Other, ElementState::Pressed, true)));
    assert_eq!(app.camera.update().unwrap().forwards, 1);
    let released = DeviceEvent::Key {
        physical_key: PhysicalKey::Code(KeyCode::KeyW),
        state: ElementState::Released,
    };
    assert!(app.on_event(Event::DeviceEvent(released)).is_empty());
    assert_eq!(app.camera.update().unwrap().forwards, 0);
}

#[test]
fn other_events() {
    let mut app = application();
    assert!(matches!(app.on_event(Event::AboutToWait)[..], [Action::RequestRedraw]));
    assert!(matches!(app.on_event(Event::LoopExiting)[..], [Action::WaitForScreenshots]));
    assert!(app.on_event(Event::Other).is_empty());
}

#[test]
fn a_scene_that_fails_to_load_changes_nothing() {
    let app = application();
    assert_eq!(
        app.load_scene(true),
        vec![
            SceneAction::ReplaceScene,
            SceneAction::NotifyRenderer,
            SceneAction::CreateBindGroup
        ]
    );
    assert_eq!(app.load_scene(false), vec![SceneAction::ReportError]);
}

fn profile(label: &str) -> Vec<ProfilerScope> {
    vec![ProfilerScope {
        label: label.to_string(),
        time: None,
        nested: vec![],
    }]
}

#[test]
fn a_whole_update() {
    let mut app = application();
    let _ = app.gui.on_ui_event(UiEvent::ProfilerSection {
        profile: Profile::Simulation,
        open: true,
    });
    let paused = SimulationControllerStatus::Paused;
    let outcomes = vec![
        UpdateOutcome::ChangedFiles(2),
        UpdateOutcome::Done,
        UpdateOutcome::Done,
        UpdateOutcome::Done,
        UpdateOutcome::Status(paused),
        UpdateOutcome::Done,
        UpdateOutcome::Done,
        UpdateOutcome::Done,
        UpdateOutcome::Profile(Some(profile("rendering"))),
        UpdateOutcome::Profile(Some(profile("old"))),
        UpdateOutcome::Profile(Some(vec![])),
        UpdateOutcome::Profile(None),
    ];
    let mut actions = vec![UpdateAction::DrainChangedFiles];
    let mut ended = false;
    for outcome in outcomes {
        assert!(!ended);
        match app.update(actions[actions.len() - 1], outcome) {
            Some(next) => actions.push(next),
            None => ended = true,
        }
    }
    assert!(ended);
    assert_eq!(
        actions,
        vec![
            UpdateAction::DrainChangedFiles,
            UpdateAction::ReloadPipelines,
            UpdateAction::MoveCamera,
            UpdateAction::UpdateGlobalUbo,
            UpdateAction::FrameSteps,
            UpdateAction::StopRecording,
            UpdateAction::SetSimulationTimers { enabled: true },
            UpdateAction::SetRenderingTimers { enabled: false },
            UpdateAction::ProcessRenderingFrame,
            UpdateAction::ProcessSimulationFrame,
            UpdateAction::ProcessSimulationFrame,
            UpdateAction::ProcessSimulationFrame,
        ]
    );
    assert_eq!(app.gui.profiler_rows(Profile::Rendering, 4).len(), 2);
    assert!(app.gui.profiler_rows(Profile::Simulation, 2).is_empty());
}

#[test]
fn an_update_without_changes() {
    let mut app = application();
    assert_eq!(
        app.update(UpdateAction::DrainChangedFiles, UpdateOutcome::ChangedFiles(0)),
        Some(UpdateAction::MoveCamera)
    );
    let running = UpdateOutcome::Status(SimulationControllerStatus::Realtime);
    assert_eq!(
        app.update(UpdateAction::FrameSteps, running),
        Some(UpdateAction::SetSimulationTimers { enabled: false })
    );
}

fn drawn(app: &Application, first: DrawAction, outcomes: &[DrawOutcome]) -> Vec<DrawAction> {
    let mut actions = vec![first];
    for outcome in outcomes {
        match app.draw(actions[actions.len() - 1], *outcome) {
            Some(next) => actions.push(next),
            None => return actions,
        }
    }
    actions
}

#[test]
fn a_whole_frame() {
    let app = application();
    let mut outcomes = vec![
        DrawOutcome::WindowSize(size(640, 480)),
        DrawOutcome::Surface(CurrentSurfaceTexture::Lost),
        DrawOutcome::Done,
        DrawOutcome::Surface(CurrentSurfaceTexture::Outdated),
        DrawOutcome::Done,
        DrawOutcome::Surface(CurrentSurfaceTexture::Suboptimal),
    ];
    outcomes.extend([DrawOutcome::Done; 13]);
    assert_eq!(
        drawn(&app, DrawAction::QueryWindowSize, &outcomes),
        vec![
            DrawAction::QueryWindowSize,
            DrawAction::AcquireTexture,
            DrawAction::ReconfigureSurface,
            DrawAction::AcquireTexture,
            DrawAction::ReconfigureSurface,
            DrawAction::AcquireTexture,
            DrawAction::CreateEncoder,
            DrawAction::UpdateGlobalUbo,
            DrawAction::DrawScene,
            DrawAction::Tonemap,
            DrawAction::CaptureScreenshot,
            DrawAction::DrawGui,
            DrawAction::CopyToSwapchain,
            DrawAction::ResolveQueries,
            DrawAction::Submit,
            DrawAction::Present,
            DrawAction::ProcessScreenshots,
            DrawAction::FrameSubmitted,
            DrawAction::EndProfilerFrame,
        ]
    );
}

#[test]
fn frames_that_are_not_drawn() {
    let app = application();
    let degenerate = DrawOutcome::WindowSize(size(0, 480));
    assert_eq!(app.draw(DrawAction::QueryWindowSize, degenerate), None);
    let flat = DrawOutcome::WindowSize(size(640, 0));
    assert_eq!(app.draw(DrawAction::QueryWindowSize, flat), None);
    for answer in [CurrentSurfaceTexture::Timeout, CurrentSurfaceTexture::Occluded] {
        assert_eq!(app.draw(DrawAction::AcquireTexture, DrawOutcome::Surface(answer)), None);
    }
    assert_eq!(
        drawn(
            &app,
            DrawAction::AcquireTexture,
            &[DrawOutcome::Surface(CurrentSurfaceTexture::Validation), DrawOutcome::Done]
        ),
        vec![DrawAction::AcquireTexture, DrawAction::ReportSurfaceError]
    );
}

#[test]
fn a_resized_window_gets_a_new_screen() {
    let mut app = application();
    app.recreate_screen(&caps(), PresentMode::Mailbox, size(640, 480));
    let resized = DrawOutcome::WindowSize(size(800, 600));
    let actions = drawn(
        &app,
        DrawAction::QueryWindowSize,
        &[resized, DrawOutcome::Done, DrawOutcome::Done, DrawOutcome::Done],
    );
    assert_eq!(
        actions[1..],
        [
            DrawAction::RecreateScreen {
                present_mode: PresentMode::Mailbox,
                resolution: size(800, 600)
            },
            DrawAction::RecreateHdrBackbuffer,
            DrawAction::ResizeRenderer,
            DrawAction::AcquireTexture,
        ]
    );
    app.recreate_screen(&caps(), PresentMode::Mailbox, size(800, 600));
    assert_eq!(
        app.draw(DrawAction::QueryWindowSize, resized),
        Some(DrawAction::AcquireTexture)
    );
}

#[test]
fn timed_steps() {
    assert_eq!(DrawAction::DrawScene.profiler_scope(), Some("scene"));
    assert_eq!(DrawAction::Tonemap.profiler_scope(), Some("tonemap"));
    assert_eq!(DrawAction::DrawGui.profiler_scope(), Some("gui"));
    assert_eq!(DrawAction::CopyToSwapchain.profiler_scope(), Some("copy to swapchain"));
    assert_eq!(DrawAction::Submit.profiler_scope(), None);
}

#[test]
fn a_whole_start() {
    let mut action = first_step();
    let mut steps = 0;
    loop {
        steps += 1;
        let outcome = match action {
            StartupAction::RequestAdapter => StartupOutcome::Adapter { max_immediate_size: 128 },
            StartupAction::RequestDevice { max_immediate_size } => {
                assert_eq!(max_immediate_size, 256);
                StartupOutcome::Done
            }
            StartupAction::CreateWindow { title, width, height } => {
                assert_eq!((title, width, height), ("Blub", 1980, 1080));
                StartupOutcome::Done
            }
            StartupAction::CreateProfiler { profile, max_num_pending_frames } => {
                let frames = if profile == Profile::Rendering { 4 } else { 16 };
                assert_eq!(max_num_pending_frames, frames);
                StartupOutcome::Done
            }
            _ => StartupOutcome::Done,
        };
        match next_step(action, outcome) {
            StartupStep::Perform(next) => action = next,
            StartupStep::Ready => break,
            StartupStep::Abort(message) => panic!("{}", message),
        }
    }
    assert_eq!(steps, 17);
}

#[test]
fn starts_that_fail() {
    let large = StartupOutcome::Adapter { max_immediate_size: 4096 };
    assert!(matches!(
        next_step(StartupAction::RequestAdapter, large),
        StartupStep::Perform(StartupAction::RequestDevice { max_immediate_size: 4096 })
    ));
    let failures = [
        (
            StartupAction::CreateWindow { title: "Blub", width: 1980, height: 1080 },
            "Failed to create window",
        ),
        (StartupAction::CreateSurface, "Failed to create surface"),
        (StartupAction::RequestAdapter, "Failed to find an appropriate adapter"),
        (
            StartupAction::RequestDevice { max_immediate_size: 256 },
            "Failed to create device",
        ),
        (
            StartupAction::CreateProfiler {
                profile: Profile::Rendering,
                max_num_pending_frames: 4,
            },
            "profiler (rendering)",
        ),
        (
            StartupAction::CreateProfiler {
                profile: Profile::Simulation,
                max_num_pending_frames: 16,
            },
            "profiler (simulation)",
        ),
        (StartupAction::LoadSelectedScene, "Failed to load scene"),
    ];
    for (action, message) in failures {
        match next_step(action, StartupOutcome::Failed) {
            StartupStep::Abort(said) => assert_eq!(said, message),
            _ => panic!("the start went on"),
        }
    }
}
