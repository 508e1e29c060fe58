use blub::camera::{move_flags_for_physical_key, Camera, MoveCommands, MoveFlags, SPEED_UP_FACTOR};
use blub::input::{
    DeviceEvent, ElementState, KeyCode, KeyEvent, LogicalKey, MouseButton, MouseDelta, PhysicalKey,
    WindowEvent,
};

fn key_event(code: KeyCode, state: ElementState) -> WindowEvent {
    WindowEvent::KeyboardInput {
        event: KeyEvent {
            physical_key: PhysicalKey::Code(code),
            logical_key: LogicalKey::Other,
            state,
        },
        is_synthetic: false,
    }
}

fn raw_key(code: KeyCode, state: ElementState) -> DeviceEvent {
    DeviceEvent::Key {
        physical_key: PhysicalKey::Code(code),
        state,
    }
}

fn unlock(camera: &mut Camera) {
    camera.on_window_event(&WindowEvent::MouseInput {
        button: MouseButton::Right,
        state: ElementState::Pressed,
    });
}

fn delta(x: f64, y: f64) -> MouseDelta {
    MouseDelta {
        x_bits: x.to_bits(),
        y_bits: y.to_bits(),
    }
}

#[test]
fn every_bound_key_has_its_command() {
    let bindings = [
        (KeyCode::KeyS, MoveCommands::Backwards),
        (KeyCode::ArrowDown, MoveCommands::Backwards),
        (KeyCode::KeyA, MoveCommands::Left),
        (KeyCode::ArrowLeft, MoveCommands::Left),
        (KeyCode::KeyD, MoveCommands::Right),
        (KeyCode::ArrowRight, MoveCommands::Right),
        (KeyCode::KeyW, MoveCommands::Forwards),
        (KeyCode::ArrowUp, MoveCommands::Forwards),
        (KeyCode::ShiftLeft, MoveCommands::SpeedUp),
        (KeyCode::ShiftRight, MoveCommands::SpeedUp),
    ];
    for (code, command) in bindings {
        let flags = move_flags_for_physical_key(PhysicalKey::Code(code));
        assert_eq!(flags, MoveFlags::of(command));
        assert!(flags.contains(command));
    }
    assert!(move_flags_for_physical_key(PhysicalKey::Code(KeyCode::Other)).is_empty());
    assert!(move_flags_for_physical_key(PhysicalKey::Unidentified).is_empty());
}

#[test]
fn flags_are_sets() {
    let mut flags = MoveFlags::empty();
    flags.insert(MoveFlags::of(MoveCommands::Left));
    flags.insert(MoveFlags::of(MoveCommands::SpeedUp));
    flags.insert(MoveFlags::of(MoveCommands::Left));
    assert!(flags.contains(MoveCommands::Left));
    assert!(flags.contains(MoveCommands::SpeedUp));
    assert!(!flags.contains(MoveCommands::Right));
    flags.remove(MoveFlags::of(MoveCommands::Left));
    assert!(!flags.contains(MoveCommands::Left));
    assert!(flags.contains(MoveCommands::SpeedUp));
    flags.remove(MoveFlags::of(MoveCommands::SpeedUp));
    assert!(flags.is_empty());
}

#[test]
fn a_new_camera_is_locked() {
    let mut camera = Camera::new();
    camera.on_window_event(&key_event(KeyCode::KeyW, ElementState::Pressed));
    assert!(camera.update().is_none());
}

#[test]
fn held_keys_move_an_unlocked_camera() {
    let mut camera = Camera::new();
    unlock(&mut camera);
    camera.on_window_event(&key_event(KeyCode::KeyW, ElementState::Pressed));
    camera.on_device_event(&raw_key(KeyCode::ArrowLeft, ElementState::Pressed));
    let step = camera.update().unwrap();
    assert_eq!((step.forwards, step.rightwards), (1, -1));
    assert_eq!(step.speed_factor, 1);

    camera.on_window_event(&key_event(KeyCode::ShiftLeft, ElementState::Pressed));
    camera.on_window_event(&key_event(KeyCode::KeyS, ElementState::Pressed));
    let step = camera.update().unwrap();
    assert_eq!((step.forwards, step.rightwards), (0, -1));
    assert_eq!(step.speed_factor, SPEED_UP_FACTOR);
    assert_eq!(SPEED_UP_FACTOR, 4);
}

#[test]
fn keys_of_one_command_release_each_other() {
    let mut camera = Camera::new();
    unlock(&mut camera);
    camera.on_window_event(&key_event(KeyCode::KeyD, ElementState::Pressed));
    camera.on_device_event(&raw_key(KeyCode::ArrowRight, ElementState::Released));
    assert_eq!(camera.update().unwrap().rightwards, 0);
}

#[test]
fn only_the_right_button_locks() {
    let mut camera = Camera::new();
    camera.on_window_event(&WindowEvent::MouseInput {
        button: MouseButton::Left,
        state: ElementState::Pressed,
    });
    assert!(camera.update().is_none());
    unlock(&mut camera);
    camera.on_window_event(&WindowEvent::MouseInput {
        button: MouseButton::Other,
        state: ElementState::Released,
    });
    assert!(camera.update().is_some());
    camera.on_window_event(&WindowEvent::MouseInput {
        button: MouseButton::Right,
        state: ElementState::Released,
    });
    assert!(camera.update().is_none());
}

#[test]
fn mouse_movements_come_in_order_and_once() {
    let mut camera = Camera::new();
    unlock(&mut camera);
    camera.on_device_event(&DeviceEvent::MouseMotion {
        delta: delta(1.0, 2.0),
    });
    camera.on_device_event(&raw_key(KeyCode::KeyW, ElementState::Pressed));
    camera.on_device_event(&DeviceEvent::MouseMotion {
        delta: delta(-3.5, 0.25),
    });
    let step = camera.update().unwrap();
    assert_eq!(step.mouse_motion, vec![delta(1.0, 2.0), delta(-3.5, 0.25)]);
    assert!(camera.update().unwrap().mouse_motion.is_empty());
}

#[test]
fn a_locked_update_drops_mouse_movements() {
    let mut camera = Camera::new();
    camera.on_device_event(&DeviceEvent::MouseMotion {
        delta: delta(1.0, 2.0),
    });
    assert!(camera.update().is_none());
    unlock(&mut camera);
    assert!(camera.update().unwrap().mouse_motion.is_empty());
}
