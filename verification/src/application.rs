//! The application: what each event sets off.

use crate::camera::{Camera, CameraState, MoveCommands};
use crate::events::ApplicationEvent;
use crate::gpu::{PresentMode, Resolution, SurfaceCapabilities};
use crate::gui::{GuiModel, GUI};
use crate::input::{DeviceEvent, ElementState, LogicalKey, MouseDelta, WindowEvent};
use crate::screen::{
    backbuffer_descriptor, configures, depthbuffer_descriptor, Screen, ScreenState,
};
use std::time::Duration;
use vstd::prelude::*;

verus! {

/// An event of the event loop.
#[derive(Debug)]
pub enum Event {
    /// A request of the settings window.
    UserEvent(ApplicationEvent),
    WindowEvent { window_id: u64, event: WindowEvent },
    /// All pending events have been handled.
    AboutToWait,
    DeviceEvent(DeviceEvent),
    /// The event loop is about to end.
    LoopExiting,
    Other,
}

/// Work that an event sets off.
#[derive(Debug)]
pub enum Action {
    /// Hand the window event to the settings window.
    ForwardToGui(WindowEvent),
    /// Try to load the scene in this file.
    LoadScene(String),
    ResetScene,
    RestartSimulation,
    FastForward(Duration),
    /// Simulate and save frames of a fixed length from here on.
    StartRecording { recording_fps: i32 },
    /// Save the frames from here on as a new series of screenshots.
    StartScreenshotSeries,
    /// Replace the screen.
    RecreateScreen { present_mode: PresentMode, resolution: Resolution },
    PauseOrResume,
    /// Save the next frame as a screenshot.
    ScheduleScreenshot,
    Update,
    Draw,
    RequestRedraw,
    /// Wait until the screenshots that are still being saved are complete.
    WaitForScreenshots,
    /// Leave the event loop.
    Exit,
}

/// What a request of the settings window sets off. A recording starts from a scene that was
/// reset; another present mode needs another screen of the same size.
pub open spec fn actions_of_request(
    request: ApplicationEvent,
    resolution: Resolution,
) -> Seq<Action> {
    match request {
        ApplicationEvent::LoadScene(path) => seq![
            Action::LoadScene(path),
            Action::RestartSimulation,
        ],
        ApplicationEvent::ResetScene => seq![Action::ResetScene, Action::RestartSimulation],
        ApplicationEvent::FastForwardSimulation(length) => seq![Action::FastForward(length)],
        ApplicationEvent::ResetAndStartRecording { recording_fps } => seq![
            Action::ResetScene,
            Action::RestartSimulation,
            Action::StartRecording { recording_fps },
            Action::StartScreenshotSeries,
        ],
        ApplicationEvent::ChangePresentMode(present_mode) => seq![
            Action::RecreateScreen { present_mode, resolution },
        ],
    }
}

/// What a key sets off when it is pressed.
pub open spec fn actions_of_key(key: LogicalKey) -> Seq<Action> {
    match key {
        LogicalKey::Escape => seq![Action::Exit],
        LogicalKey::PrintScreen => seq![Action::ScheduleScreenshot],
        LogicalKey::Space => seq![Action::PauseOrResume],
        LogicalKey::Other => Seq::empty(),
    }
}

/// What an event of the application's own window sets off. The settings window sees each of them
/// first. Keys that the window system made up set nothing off.
pub open spec fn actions_of_window_event(event: WindowEvent) -> Seq<Action> {
    seq![Action::ForwardToGui(event)] + match event {
        WindowEvent::CloseRequested => seq![Action::Exit],
        WindowEvent::RedrawRequested => seq![Action::Update, Action::Draw],
        WindowEvent::KeyboardInput { event: key, is_synthetic } => if !is_synthetic && key.state
            == ElementState::Pressed {
            actions_of_key(key.logical_key)
        } else {
            Seq::empty()
        },
        _ => Seq::empty(),
    }
}

/// What the application remembers.
pub struct ApplicationState {
    pub window_id: u64,
    pub screen: ScreenState,
    pub gui: GuiModel,
    pub camera: CameraState,
}

impl ApplicationState {
    /// What an event sets off. Events of other windows set nothing off.
    pub open spec fn actions_of(self, event: Event) -> Seq<Action> {
        match event {
            Event::UserEvent(request) => actions_of_request(request, self.screen.resolution),
            Event::WindowEvent { window_id, event } => if window_id == self.window_id {
                actions_of_window_event(event)
            } else {
                Seq::empty()
            },
            Event::AboutToWait => seq![Action::RequestRedraw],
            Event::LoopExiting => seq![Action::WaitForScreenshots],
            Event::DeviceEvent(_) | Event::Other => Seq::empty(),
        }
    }

    /// What the application remembers after an event: only the camera takes events in at once.
    pub open spec fn after(self, event: Event) -> ApplicationState {
        match event {
            Event::WindowEvent { window_id, event } => if window_id == self.window_id {
                ApplicationState { camera: self.camera.after_window_event(event), ..self }
            } else {
                self
            },
            Event::DeviceEvent(event) => ApplicationState {
                camera: self.camera.after_device_event(event),
                ..self
            },
            _ => self,
        }
    }
}

/// What follows an attempt to load a scene.
#[derive(Clone, Copy, Debug, PartialEq, Eq, Structural)]
pub enum SceneAction {
    /// Let the new scene take the place of the old one.
    ReplaceScene,
    /// Tell the renderer of the new scene.
    NotifyRenderer,
    /// Bind the meshes of the new scene.
    CreateBindGroup,
    /// Report the error and keep the old scene.
    ReportError,
}

/// The application.
#[derive(Debug)]
pub struct Application {
    pub window_id: u64,
    pub screen: Screen,
    pub gui: GUI,
    pub camera: Camera,
}

impl View for Application {
    type V = ApplicationState;

    open spec fn view(&self) -> ApplicationState {
        ApplicationState {
            window_id: self.window_id,
            screen: self.screen@,
            gui: self.gui@,
            camera: self.camera@,
        }
    }
}

impl Application {
    /// An application whose window has the given number and screen.
    pub fn new(window_id: u64, screen: Screen, gui: GUI) -> (application: Application)
        ensures
            application@.window_id == window_id,
            application@.gui == gui@,
            application@.camera == (CameraState {
                movement_locked: true,
                commands: Set::<MoveCommands>::empty(),
                mouse_motion: Seq::<MouseDelta>::empty(),
            }),
            application@.screen == screen@,
    {
        Application { window_id, screen, gui, camera: Camera::new() }
    }

    /// Takes an event in, and returns the work that it sets off, in order.
    pub fn on_event(&mut self, event: Event) -> (actions: Vec<Action>)
        ensures
            final(self)@ == old(self)@.after(event),
            actions@ == old(self)@.actions_of(event),
    {
        match event {
            Event::UserEvent(request) => on_request(request, self.screen.resolution()),
            Event::WindowEvent { window_id, event } => {
                if window_id == self.window_id {
                    self.camera.on_window_event(&event);
                    on_window_event(event)
                } else {
                    Vec::new()
                }
            },
            Event::AboutToWait => vec![Action::RequestRedraw],
            Event::DeviceEvent(event) => {
                self.camera.on_device_event(&event);
                Vec::new()
            },
            Event::LoopExiting => vec![Action::WaitForScreenshots],
            Event::Other => Vec::new(),
        }
    }

    /// Decides what follows an attempt to load a scene: a scene that could not be loaded leaves
    /// the old one in place.
    pub fn load_scene(&self, loaded: bool) -> (actions: Vec<SceneAction>)
        ensures
            actions@ == (if loaded {
                seq![
                    SceneAction::ReplaceScene,
                    SceneAction::NotifyRenderer,
                    SceneAction::CreateBindGroup,
                ]
            } else {
                seq![SceneAction::ReportError]
            }),
    {
        if loaded {
            vec![
                SceneAction::ReplaceScene,
                SceneAction::NotifyRenderer,
                SceneAction::CreateBindGroup,
            ]
        } else {
            vec![SceneAction::ReportError]
        }
    }

    /// Replaces the screen.
    pub fn recreate_screen(
        &mut self,
        caps: &SurfaceCapabilities,
        present_mode: PresentMode,
        resolution: Resolution,
    )
        requires
            caps.usable(),
        ensures
            final(self)@ == (ApplicationState { screen: final(self)@.screen, ..old(self)@ }),
            final(self)@.screen.resolution == resolution,
            final(self)@.screen.present_mode == present_mode,
            configures(final(self)@.screen.surface_config, caps, present_mode, resolution),
            final(self)@.screen.backbuffer == backbuffer_descriptor(resolution),
            final(self)@.screen.depthbuffer == depthbuffer_descriptor(resolution),
    {
        self.screen = Screen::new(caps, present_mode, resolution);
    }
}

fn on_request(request: ApplicationEvent, resolution: Resolution) -> (actions: Vec<Action>)
    ensures
        actions@ == actions_of_request(request, resolution),
{
    match request {
        ApplicationEvent::LoadScene(path) => vec![
            Action::LoadScene(path),
            Action::RestartSimulation,
        ],
        ApplicationEvent::ResetScene => vec![Action::ResetScene, Action::RestartSimulation],
        ApplicationEvent::FastForwardSimulation(length) => vec![Action::FastForward(length)],
        ApplicationEvent::ResetAndStartRecording { recording_fps } => vec![
            Action::ResetScene,
            Action::RestartSimulation,
            Action::StartRecording { recording_fps },
            Action::StartScreenshotSeries,
        ],
        ApplicationEvent::ChangePresentMode(present_mode) => vec![
            Action::RecreateScreen { present_mode, resolution },
        ],
    }
}

fn on_window_event(event: WindowEvent) -> (actions: Vec<Action>)
    ensures
        actions@ == actions_of_window_event(event),
{
    let mut actions = vec![Action::ForwardToGui(event)];
    match event {
        WindowEvent::CloseRequested => actions.push(Action::Exit),
        WindowEvent::RedrawRequested => {
            actions.push(Action::Update);
            actions.push(Action::Draw);
        },
        WindowEvent::KeyboardInput { event: key, is_synthetic } => {
            if !is_synthetic && key.state == ElementState::Pressed {
                match key.logical_key {
                    LogicalKey::Escape => actions.push(Action::Exit),
                    LogicalKey::PrintScreen => actions.push(Action::ScheduleScreenshot),
                    LogicalKey::Space => actions.push(Action::PauseOrResume),
                    LogicalKey::Other => {},
                }
            }
        },
        _ => {},
    }
    assert(actions@ =~= actions_of_window_event(event));
    actions
}

/// Whether an event of the application's own window ends the application.
pub open spec fn asks_to_exit(event: WindowEvent) -> bool {
    match event {
        WindowEvent::CloseRequested => true,
        WindowEvent::KeyboardInput { event: key, is_synthetic } => {
            &&& !is_synthetic
            &&& key.state == ElementState::Pressed
            &&& key.logical_key == LogicalKey::Escape
        },
        _ => false,
    }
}

/// The application leaves the event loop exactly when its own window is asked to close or the
/// escape key is pressed in it.
pub proof fn law_exit(application: ApplicationState, event: Event)
    ensures
        application.actions_of(event).contains(Action::Exit) <==> (event matches Event::WindowEvent {
            window_id,
            event,
        } && window_id == application.window_id && asks_to_exit(event)),
{
    let actions = application.actions_of(event);
    if let Event::WindowEvent { window_id, event } = event {
        if window_id == application.window_id {
            if asks_to_exit(event) {
                assert(actions[1] == Action::Exit);
            }
        }
    }
}

/// An event of another window has no effect at all. One of the application's own window reaches
/// the settings window, before anything else happens, and the camera.
pub proof fn law_window_events(
    application: ApplicationState,
    window_id: u64,
    event: WindowEvent,
)
    ensures
        ({
            let actions = application.actions_of(Event::WindowEvent { window_id, event });
            let after = application.after(Event::WindowEvent { window_id, event });
            if window_id == application.window_id {
                &&& actions.len() > 0
                &&& actions[0] == Action::ForwardToGui(event)
                &&& after.camera == application.camera.after_window_event(event)
            } else {
                &&& actions.len() == 0
                &&& after == application
            }
        }),
{
}

/// No event changes the screen or the settings window before its actions are performed.
pub proof fn law_events_wait_for_their_actions(application: ApplicationState, event: Event)
    ensures
        application.after(event).window_id == application.window_id,
        application.after(event).screen == application.screen,
        application.after(event).gui == application.gui,
{
}

/// A recording starts from the beginning: whenever an event starts one, the scene has been reset
/// and the simulation restarted before.
pub proof fn law_recording_starts_from_reset(application: ApplicationState, event: Event, i: int)
    requires
        0 <= i < application.actions_of(event).len(),
        application.actions_of(event)[i] is StartRecording,
    ensures
        exists|j: int| 0 <= j < i && application.actions_of(event)[j] == Action::ResetScene,
        exists|j: int| 0 <= j < i && application.actions_of(event)[j] == Action::RestartSimulation,
{
    let actions = application.actions_of(event);
    match event {
        Event::UserEvent(ApplicationEvent::ResetAndStartRecording { .. }) => {
            assert(i == 2);
            assert(actions[0] == Action::ResetScene);
            assert(actions[1] == Action::RestartSimulation);
        },
        _ => {},
    }
}

/// The simulation is restarted whenever a scene is to be loaded or reset, also where the loading
/// fails: the restart is part of the event, not of the loading.
pub proof fn law_new_scene_restarts_simulation(application: ApplicationState, event: Event, i: int)
    requires
        0 <= i < application.actions_of(event).len(),
        application.actions_of(event)[i] is LoadScene || application.actions_of(event)[i]
            is ResetScene,
    ensures
        i + 1 < application.actions_of(event).len(),
        application.actions_of(event)[i + 1] == Action::RestartSimulation,
{
    match event {
        Event::UserEvent(_) => {
            assert(i == 0 || i == 1 || i == 2 || i == 3);
        },
        _ => {},
    }
}

} // verus!
