//! Events: which work each of them sets off.

use crate::application::{Action, Application, Event, SceneAction};
use crate::camera::Camera;
use crate::events::ApplicationEvent;
use crate::gpu::PresentMode;
use crate::gui::GUI;
use crate::input::{DeviceEvent, ElementState, LogicalKey, WindowEvent};
use crate::screen::Screen;
use std::time::Duration;
use vstd::prelude::*;

verus! {

/// Whether an event sets this work off in an application.
pub open spec fn sets_off(
    application: &mut Application,
    event: Event,
    actions: Vec<Action>,
) -> bool {
    call_ensures(Application::on_event, (application, event), actions)
}

/// Whether an event is that the given key was pressed in the application's own window, not one
/// that the window system made up.
pub open spec fn is_press(window_id: u64, event: Event, key: LogicalKey) -> bool {
    event matches Event::WindowEvent {
        window_id: id,
        event: WindowEvent::KeyboardInput { event: pressed, is_synthetic },
    } && id == window_id && !is_synthetic && pressed.state == ElementState::Pressed
        && pressed.logical_key == key
}

/// Whether an event is one of the application's own window.
pub open spec fn is_own(window_id: u64, event: Event, window_event: WindowEvent) -> bool {
    event matches Event::WindowEvent { window_id: id, event: inner } && id == window_id && inner
        == window_event
}

/// Whether an event is a request to reset and record.
pub open spec fn asks_to_record(event: Event) -> bool {
    event matches Event::UserEvent(ApplicationEvent::ResetAndStartRecording { .. })
}

/// A recording has the frame rate that was asked for: every request to reset and record starts
/// one, with exactly its frame rate, and nothing else does. It comes behind the reset of the
/// scene and the restart of the simulation, and before the series of screenshots, and none of the
/// four comes twice.
pub proof fn law_recording_has_the_frame_rate_of_the_request()
    ensures
        forall|application: &mut Application, event: Event, actions: Vec<Action>, i: int|
            #![trigger sets_off(application, event, actions), actions@[i]]
            sets_off(application, event, actions) && 0 <= i < actions@.len() ==> {
                &&& actions@[i] matches Action::StartRecording { recording_fps } ==> event
                    == Event::UserEvent(ApplicationEvent::ResetAndStartRecording { recording_fps })
                &&& actions@[i] is StartScreenshotSeries ==> asks_to_record(event)
            },
        forall|application: &mut Application, recording_fps: i32, actions: Vec<Action>| #[trigger]
            sets_off(
                application,
                Event::UserEvent(ApplicationEvent::ResetAndStartRecording { recording_fps }),
                actions,
            ) ==> {
                &&& actions@.len() == 4
                &&& actions@[0] is ResetScene
                &&& actions@[1] is RestartSimulation
                &&& actions@[2] == (Action::StartRecording { recording_fps })
                &&& actions@[3] is StartScreenshotSeries
            },
{
}

/// A scene is loaded exactly if that is asked for, from exactly the path that is asked for, and it
/// is reset exactly if that or a recording is asked for. The simulation is restarted right behind.
pub proof fn law_scene_requests()
    ensures
        forall|application: &mut Application, path: String, actions: Vec<Action>| #[trigger]
            sets_off(application, Event::UserEvent(ApplicationEvent::LoadScene(path)), actions)
                ==> actions@.len() == 2 && actions@[0] == Action::LoadScene(path) && actions@[1]
                is RestartSimulation,
        forall|application: &mut Application, actions: Vec<Action>| #[trigger]
            sets_off(application, Event::UserEvent(ApplicationEvent::ResetScene), actions)
                ==> actions@.len() == 2 && actions@[0] is ResetScene && actions@[1]
                is RestartSimulation,
        forall|application: &mut Application, event: Event, actions: Vec<Action>, i: int|
            #![trigger sets_off(application, event, actions), actions@[i]]
            sets_off(application, event, actions) && 0 <= i < actions@.len() ==> {
                &&& actions@[i] matches Action::LoadScene(path) ==> event == Event::UserEvent(
                    ApplicationEvent::LoadScene(path),
                )
                &&& actions@[i] is ResetScene ==> event == Event::UserEvent(
                    ApplicationEvent::ResetScene,
                ) || asks_to_record(event)
                &&& actions@[i] is RestartSimulation ==> event is UserEvent
            },
{
}

/// The simulation jumps exactly if that is asked for, and exactly as far.
pub proof fn law_jumps_are_as_long_as_asked()
    ensures
        forall|application: &mut Application, length: Duration, actions: Vec<Action>| #[trigger]
            sets_off(
                application,
                Event::UserEvent(ApplicationEvent::FastForwardSimulation(length)),
                actions,
            ) ==> actions@.len() == 1 && actions@[0] == Action::FastForward(length),
        forall|application: &mut Application, event: Event, actions: Vec<Action>, i: int|
            #![trigger sets_off(application, event, actions), actions@[i]]
            sets_off(application, event, actions) && 0 <= i < actions@.len() ==> (
            actions@[i] matches Action::FastForward(length) ==> event == Event::UserEvent(
                ApplicationEvent::FastForwardSimulation(length),
            )),
{
}

/// Another present mode gets a screen with exactly that mode and of the size that the screen has,
/// and no other event replaces the screen.
pub proof fn law_present_mode_requests()
    ensures
        forall|application: &mut Application, present_mode: PresentMode, actions: Vec<Action>|
         #[trigger]
            sets_off(
                application,
                Event::UserEvent(ApplicationEvent::ChangePresentMode(present_mode)),
                actions,
            ) ==> actions@.len() == 1 && actions@[0] == (Action::RecreateScreen {
                present_mode,
                resolution: application@.screen.resolution,
            }),
        forall|application: &mut Application, event: Event, actions: Vec<Action>, i: int|
            #![trigger sets_off(application, event, actions), actions@[i]]
            sets_off(application, event, actions) && 0 <= i < actions@.len() ==> (
            actions@[i] matches Action::RecreateScreen { present_mode, resolution } ==> event
                == Event::UserEvent(ApplicationEvent::ChangePresentMode(present_mode))),
{
}

/// Each key of the window sets its own work off when it is pressed, and only then: escape ends the
/// application, as a request to close the window does, print takes a screenshot, and space pauses
/// or resumes. Nothing else of the window sets one thing off besides reaching the settings window.
pub proof fn law_keys_of_the_window()
    ensures
        forall|application: &mut Application, event: Event, actions: Vec<Action>| #[trigger]
            sets_off(application, event, actions) ==> {
                let id = application@.window_id;
                &&& (exists|i: int| 0 <= i < actions@.len() && #[trigger] actions@[i] is Exit)
                    <==> is_press(id, event, LogicalKey::Escape) || is_own(
                    id,
                    event,
                    WindowEvent::CloseRequested,
                )
                &&& (exists|i: int|
                    0 <= i < actions@.len() && #[trigger] actions@[i] is ScheduleScreenshot)
                    <==> is_press(id, event, LogicalKey::PrintScreen)
                &&& (exists|i: int|
                    0 <= i < actions@.len() && #[trigger] actions@[i] is PauseOrResume)
                    <==> is_press(id, event, LogicalKey::Space)
                &&& event is WindowEvent ==> (actions@.len() == 2 <==> is_press(
                    id,
                    event,
                    LogicalKey::Escape,
                ) || is_press(id, event, LogicalKey::PrintScreen) || is_press(
                    id,
                    event,
                    LogicalKey::Space,
                ) || is_own(id, event, WindowEvent::CloseRequested))
            },
{
    assert forall|application: &mut Application, event: Event, actions: Vec<Action>| #[trigger]
        sets_off(application, event, actions) implies {
        let id = application@.window_id;
        &&& (exists|i: int| 0 <= i < actions@.len() && #[trigger] actions@[i] is Exit) <==> is_press(
            id,
            event,
            LogicalKey::Escape,
        ) || is_own(id, event, WindowEvent::CloseRequested)
        &&& (exists|i: int| 0 <= i < actions@.len() && #[trigger] actions@[i] is ScheduleScreenshot)
            <==> is_press(id, event, LogicalKey::PrintScreen)
        &&& (exists|i: int| 0 <= i < actions@.len() && #[trigger] actions@[i] is PauseOrResume)
            <==> is_press(id, event, LogicalKey::Space)
        &&& event is WindowEvent ==> (actions@.len() == 2 <==> is_press(
            id,
            event,
            LogicalKey::Escape,
        ) || is_press(id, event, LogicalKey::PrintScreen) || is_press(id, event, LogicalKey::Space)
            || is_own(id, event, WindowEvent::CloseRequested))
    } by {
        let id = application@.window_id;
        if is_press(id, event, LogicalKey::Escape) || is_own(id, event, WindowEvent::CloseRequested) {
            assert(actions@[1] is Exit);
        }
        if is_press(id, event, LogicalKey::PrintScreen) {
            assert(actions@[1] is ScheduleScreenshot);
        }
        if is_press(id, event, LogicalKey::Space) {
            assert(actions@[1] is PauseOrResume);
        }
    }
}

/// Events of the application's own window reach the settings window, before anything else and
/// once; a request to redraw updates and then draws. Events of other windows set nothing off.
pub proof fn law_own_window()
    ensures
        forall|application: &mut Application, event: Event, actions: Vec<Action>| #[trigger]
            sets_off(application, event, actions) ==> match event {
                Event::WindowEvent { window_id, event } => if window_id == application@.window_id {
                    &&& 1 <= actions@.len() <= 3
                    &&& actions@[0] == Action::ForwardToGui(event)
                    &&& forall|i: int|
                        0 < i < actions@.len() ==> !(#[trigger] actions@[i] is ForwardToGui)
                    &&& event is RedrawRequested <==> actions@.len() == 3
                    &&& event is RedrawRequested ==> actions@[1] is Update && actions@[2] is Draw
                    &&& !(event is RedrawRequested) ==> forall|i: int|
                        0 <= i < actions@.len() ==> !(#[trigger] actions@[i] is Update)
                            && !(actions@[i] is Draw)
                } else {
                    actions@.len() == 0
                },
                Event::UserEvent(_) => forall|i: int|
                    0 <= i < actions@.len() ==> !(#[trigger] actions@[i] is ForwardToGui)
                        && !(actions@[i] is Update) && !(actions@[i] is Draw)
                        && !(actions@[i] is RequestRedraw)
                        && !(actions@[i] is WaitForScreenshots),
                Event::AboutToWait => actions@.len() == 1 && actions@[0] is RequestRedraw,
                Event::LoopExiting => actions@.len() == 1 && actions@[0] is WaitForScreenshots,
                Event::DeviceEvent(_) | Event::Other => actions@.len() == 0,
            },
{
}

/// An event changes the camera exactly as the camera takes it in on its own, and nothing else that
/// the application remembers: window events only if they are those of its own window, device
/// events always, other events not at all.
pub proof fn law_events_reach_the_camera()
    ensures
        forall|application: &mut Application, event: Event, actions: Vec<Action>| #[trigger]
            sets_off(application, event, actions) ==> {
                &&& final(application)@.window_id == application@.window_id
                &&& final(application)@.screen == application@.screen
                &&& final(application)@.gui == application@.gui
                &&& event is UserEvent || event is AboutToWait || event is LoopExiting || event
                    is Other ==> final(application)@.camera == application@.camera
                &&& event matches Event::WindowEvent { window_id, .. } ==> window_id
                    == application@.window_id || final(application)@.camera
                    == application@.camera
            },
        forall|
            application: &mut Application,
            camera: &mut Camera,
            event: WindowEvent,
            actions: Vec<Action>,
        |
            #![trigger sets_off(application, Event::WindowEvent { window_id: application@.window_id, event }, actions), call_ensures(Camera::on_window_event, (camera, &event), ())]
            sets_off(
                application,
                Event::WindowEvent { window_id: application@.window_id, event },
                actions,
            ) && call_ensures(Camera::on_window_event, (camera, &event), ()) && camera@
                == application@.camera ==> final(application)@.camera == final(camera)@,
        forall|
            application: &mut Application,
            camera: &mut Camera,
            event: DeviceEvent,
            actions: Vec<Action>,
        |
            #![trigger sets_off(application, Event::DeviceEvent(event), actions), call_ensures(Camera::on_device_event, (camera, &event), ())]
            sets_off(application, Event::DeviceEvent(event), actions) && call_ensures(
                Camera::on_device_event,
                (camera, &event),
                (),
            ) && camera@ == application@.camera ==> final(application)@.camera == final(camera)@,
{
}

/// A scene that was loaded takes the place of the old one before the renderer hears of it and its
/// meshes are bound. One that was not is reported, and nothing else happens.
pub proof fn law_loaded_scene_replaces(
    application: &Application,
    loaded: bool,
    actions: Vec<SceneAction>,
)
    requires
        call_ensures(Application::load_scene, (application, loaded), actions),
    ensures
        loaded ==> actions@.len() == 3 && actions@[0] is ReplaceScene && actions@[1]
            is NotifyRenderer && actions@[2] is CreateBindGroup,
        !loaded ==> actions@.len() == 1 && actions@[0] is ReportError,
{
}

/// A new application has the window, the screen and the settings window that it was given, and a
/// camera at rest.
pub proof fn law_new_application(
    window_id: u64,
    screen: Screen,
    gui: GUI,
    application: Application,
)
    requires
        call_ensures(Application::new, (window_id, screen, gui), application),
    ensures
        application@.window_id == window_id,
        application@.screen == screen@,
        application@.gui == gui@,
        application@.camera.movement_locked,
        application@.camera.mouse_motion.len() == 0,
        application@.camera.commands.is_empty(),
{
}

} // verus!
