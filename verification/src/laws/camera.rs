//! The camera: which events change what it remembers, and what an update makes of it.

use crate::camera::{move_flags_for_physical_key, Camera, CameraStep, MoveCommands, MoveFlags};
use crate::input::{
    DeviceEvent, ElementState, KeyCode, MouseButton, PhysicalKey, WindowEvent,
};
use vstd::prelude::*;

verus! {

/// The two keys of a command.
pub open spec fn keys_of(command: MoveCommands) -> (KeyCode, KeyCode) {
    match command {
        MoveCommands::Left => (KeyCode::KeyA, KeyCode::ArrowLeft),
        MoveCommands::Right => (KeyCode::KeyD, KeyCode::ArrowRight),
        MoveCommands::Forwards => (KeyCode::KeyW, KeyCode::ArrowUp),
        MoveCommands::Backwards => (KeyCode::KeyS, KeyCode::ArrowDown),
        MoveCommands::SpeedUp => (KeyCode::ShiftLeft, KeyCode::ShiftRight),
    }
}

/// Whether a key is one of the two keys of a command.
pub open spec fn is_key_of(key: PhysicalKey, command: MoveCommands) -> bool {
    key == PhysicalKey::Code(keys_of(command).0) || key == PhysicalKey::Code(keys_of(command).1)
}

/// A key asks for a command exactly if it is one of the command's two keys; any other key asks
/// for nothing.
pub proof fn law_each_command_has_its_keys(
    key: PhysicalKey,
    flags: MoveFlags,
    command: MoveCommands,
)
    requires
        call_ensures(move_flags_for_physical_key, (key,), flags),
    ensures
        flags@.contains(command) <==> is_key_of(key, command),
{
}

/// A set of flags holds what was put into it and not taken out again: adding a set adds exactly its
/// commands, taking it away takes exactly its commands away.
pub proof fn law_flags_are_a_set(
    none: MoveFlags,
    one: MoveFlags,
    single: MoveCommands,
    flags: &MoveFlags,
    empty: bool,
    command: MoveCommands,
    present: bool,
)
    requires
        call_ensures(MoveFlags::empty, (), none),
        call_ensures(MoveFlags::of, (single,), one),
        call_ensures(MoveFlags::is_empty, (flags,), empty),
        call_ensures(MoveFlags::contains, (flags, command), present),
    ensures
        !none@.contains(command),
        one@.contains(command) <==> command == single,
        empty ==> !present,
        !empty <==> exists|c: MoveCommands| flags@.contains(c),
        present <==> flags@.contains(command),
        forall|changed: &mut MoveFlags, other: MoveFlags| #[trigger]
            call_ensures(MoveFlags::insert, (changed, other), ()) ==> (final(changed)@.contains(
                command,
            ) <==> changed@.contains(command) || other@.contains(command)),
        forall|changed: &mut MoveFlags, other: MoveFlags| #[trigger]
            call_ensures(MoveFlags::remove, (changed, other), ()) ==> (final(changed)@.contains(
                command,
            ) <==> changed@.contains(command) && !other@.contains(command)),
{
    if !(exists|c: MoveCommands| flags@.contains(c)) {
        assert(flags@ =~= Set::<MoveCommands>::empty());
    }
}

/// A new camera is locked; no key is held and no mouse movement waits.
pub proof fn law_new_camera_rests(camera: Camera)
    requires
        call_ensures(Camera::new, (), camera),
    ensures
        camera@.movement_locked,
        forall|command: MoveCommands| !camera@.commands.contains(command),
        camera@.mouse_motion.len() == 0,
{
}

/// A command is held exactly from the press of one of its keys to the next release of one of them.
/// No event but that of a key, mouse movements and mouse buttons among them, starts or stops any
/// command, and no key changes a command that is not its own.
pub proof fn law_only_its_keys_change_a_command()
    ensures
        forall|camera: &mut Camera, event: &WindowEvent, command: MoveCommands|
            #![trigger call_ensures(Camera::on_window_event, (camera, event), ()), camera@.commands.contains(command)]
            call_ensures(Camera::on_window_event, (camera, event), ()) ==> (
            final(camera)@.commands.contains(command) <==> match *event {
                WindowEvent::KeyboardInput { event: key, .. } => if is_key_of(
                    key.physical_key,
                    command,
                ) {
                    key.state == ElementState::Pressed
                } else {
                    camera@.commands.contains(command)
                },
                _ => camera@.commands.contains(command),
            }),
        forall|camera: &mut Camera, event: &DeviceEvent, command: MoveCommands|
            #![trigger call_ensures(Camera::on_device_event, (camera, event), ()), camera@.commands.contains(command)]
            call_ensures(Camera::on_device_event, (camera, event), ()) ==> (
            final(camera)@.commands.contains(command) <==> match *event {
                DeviceEvent::Key { physical_key, state } => if is_key_of(physical_key, command) {
                    state == ElementState::Pressed
                } else {
                    camera@.commands.contains(command)
                },
                _ => camera@.commands.contains(command),
            }),
        forall|camera: &mut Camera, step: Option<CameraStep>| #[trigger]
            call_ensures(Camera::update, (camera,), step) ==> final(camera)@.commands
                == camera@.commands,
{
}

/// Mouse movements are remembered one behind the other until an update takes them all. Nothing
/// else adds, drops or reorders any.
pub proof fn law_only_the_mouse_moves()
    ensures
        forall|camera: &mut Camera, event: &WindowEvent| #[trigger]
            call_ensures(Camera::on_window_event, (camera, event), ())
                ==> final(camera)@.mouse_motion == camera@.mouse_motion,
        forall|camera: &mut Camera, event: &DeviceEvent| #[trigger]
            call_ensures(Camera::on_device_event, (camera, event), ())
                ==> final(camera)@.mouse_motion == match *event {
                DeviceEvent::MouseMotion { delta } => camera@.mouse_motion + seq![delta],
                _ => camera@.mouse_motion,
            },
        forall|camera: &mut Camera, step: Option<CameraStep>| #[trigger]
            call_ensures(Camera::update, (camera,), step) ==> final(camera)@.mouse_motion.len()
                == 0 && (step matches Some(s) ==> s.mouse_motion@ == camera@.mouse_motion),
{
}

/// The camera is unlocked while the right mouse button is down. No other button, no key, no mouse
/// movement and no update locks or unlocks it.
pub proof fn law_only_the_right_button_locks()
    ensures
        forall|camera: &mut Camera, event: &WindowEvent| #[trigger]
            call_ensures(Camera::on_window_event, (camera, event), ())
                ==> final(camera)@.movement_locked == match *event {
                WindowEvent::MouseInput { button, state } => if button == MouseButton::Right {
                    state != ElementState::Pressed
                } else {
                    camera@.movement_locked
                },
                _ => camera@.movement_locked,
            },
        forall|camera: &mut Camera, event: &DeviceEvent| #[trigger]
            call_ensures(Camera::on_device_event, (camera, event), ())
                ==> final(camera)@.movement_locked == camera@.movement_locked,
        forall|camera: &mut Camera, step: Option<CameraStep>| #[trigger]
            call_ensures(Camera::update, (camera,), step) ==> final(camera)@.movement_locked
                == camera@.movement_locked,
{
}

/// An update moves the pose exactly if the camera is unlocked. It goes forwards if that is held and
/// backwards is not, backwards in the opposite case, and neither way if both or none are held;
/// likewise to the right and to the left. All of it is four times as fast while sped up.
pub proof fn law_held_commands_move()
    ensures
        forall|camera: &mut Camera, step: Option<CameraStep>| #[trigger]
            call_ensures(Camera::update, (camera,), step) ==> {
                let held = camera@.commands;
                let forwards = held.contains(MoveCommands::Forwards);
                let backwards = held.contains(MoveCommands::Backwards);
                let right = held.contains(MoveCommands::Right);
                let left = held.contains(MoveCommands::Left);
                &&& step is Some <==> !camera@.movement_locked
                &&& step matches Some(s) ==> {
                    &&& -1 <= s.forwards <= 1
                    &&& s.forwards == 1 <==> forwards && !backwards
                    &&& s.forwards == -1 <==> backwards && !forwards
                    &&& -1 <= s.rightwards <= 1
                    &&& s.rightwards == 1 <==> right && !left
                    &&& s.rightwards == -1 <==> left && !right
                    &&& s.speed_factor == if held.contains(MoveCommands::SpeedUp) {
                        4int
                    } else {
                        1int
                    }
                }
            },
{
}

} // verus!
