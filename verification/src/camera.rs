//! The free-flying camera: which movement the held keys and the mouse ask for.
//!
//! The pose itself is made of floating-point vectors and belongs to the caller. What is decided
//! here is when the pose moves, along which axes, and by which mouse movements it turns.

use crate::input::{
    DeviceEvent, ElementState, KeyCode, MouseButton, MouseDelta, PhysicalKey, WindowEvent,
};
use vstd::prelude::*;

verus! {

/// How many times faster the camera moves while it is sped up.
pub const SPEED_UP_FACTOR: u32 = 4;

/// A movement that a held key asks for.
#[derive(Clone, Copy, Debug, PartialEq, Eq, Structural)]
pub enum MoveCommands {
    Left,
    Right,
    Forwards,
    Backwards,
    SpeedUp,
}

impl MoveCommands {
    /// The bit that stands for the command in a set of flags.
    pub open spec fn spec_bit(self) -> u8 {
        match self {
            MoveCommands::Left => 1,
            MoveCommands::Right => 2,
            MoveCommands::Forwards => 4,
            MoveCommands::Backwards => 8,
            MoveCommands::SpeedUp => 16,
        }
    }

    fn bit(self) -> (bit: u8)
        ensures
            bit == self.spec_bit(),
    {
        match self {
            MoveCommands::Left => 1,
            MoveCommands::Right => 2,
            MoveCommands::Forwards => 4,
            MoveCommands::Backwards => 8,
            MoveCommands::SpeedUp => 16,
        }
    }
}

/// A set of movement commands, one bit for each.
#[derive(Clone, Copy, Debug, PartialEq, Eq, Structural)]
pub struct MoveFlags {
    bits: u8,
}

impl View for MoveFlags {
    type V = Set<MoveCommands>;

    closed spec fn view(&self) -> Set<MoveCommands> {
        let bits = self.bits;
        Set::new(|c: MoveCommands| bits & c.spec_bit() != 0)
    }
}

/// Bits of different commands do not meet, so setting or clearing one leaves the others alone.
proof fn lemma_bits(bits: u8, other: u8, bit: u8)
    ensures
        (bits | other) & bit != 0 <==> bits & bit != 0 || other & bit != 0,
        bit == 1 || bit == 2 || bit == 4 || bit == 8 || bit == 16 ==> ((bits & !other) & bit != 0
            <==> bits & bit != 0 && !(other & bit != 0)),
{
    assert((bits | other) & bit != 0 <==> bits & bit != 0 || other & bit != 0) by (bit_vector);
    assert(bit == 1 || bit == 2 || bit == 4 || bit == 8 || bit == 16 ==> ((bits & !other) & bit != 0
        <==> bits & bit != 0 && !(other & bit != 0))) by (bit_vector);
}

impl MoveFlags {
    /// Every bit belongs to a command.
    #[verifier::type_invariant]
    spec fn only_command_bits(self) -> bool {
        self.bits < 32
    }

    /// No command.
    pub fn empty() -> (flags: MoveFlags)
        ensures
            flags@ == Set::<MoveCommands>::empty(),
    {
        let flags = MoveFlags { bits: 0 };
        proof {
            assert forall|c: MoveCommands| !flags@.contains(c) by {
                let bit = c.spec_bit();
                assert(0u8 & bit == 0) by (bit_vector);
            }
        }
        flags
    }

    /// The one command `command`.
    pub fn of(command: MoveCommands) -> (flags: MoveFlags)
        ensures
            flags@ == Set::<MoveCommands>::empty().insert(command),
    {
        let flags = MoveFlags { bits: command.bit() };
        proof {
            assert forall|c: MoveCommands| flags@.contains(c) <==> c == command by {
                assert(1u8 & 1 == 1 && 1u8 & 2 == 0 && 1u8 & 4 == 0 && 1u8 & 8 == 0 && 1u8 & 16 == 0
                    && 2u8 & 1 == 0 && 2u8 & 2 == 2 && 2u8 & 4 == 0 && 2u8 & 8 == 0 && 2u8 & 16
                    == 0 && 4u8 & 1 == 0 && 4u8 & 2 == 0 && 4u8 & 4 == 4 && 4u8 & 8 == 0 && 4u8 & 16
                    == 0 && 8u8 & 1 == 0 && 8u8 & 2 == 0 && 8u8 & 4 == 0 && 8u8 & 8 == 8 && 8u8 & 16
                    == 0 && 16u8 & 1 == 0 && 16u8 & 2 == 0 && 16u8 & 4 == 0 && 16u8 & 8 == 0 && 16u8
                    & 16 == 16) by (bit_vector);
            }
        }
        flags
    }

    /// Whether no command is in the set.
    pub fn is_empty(&self) -> (empty: bool)
        ensures
            empty <==> self@ == Set::<MoveCommands>::empty(),
    {
        proof {
            use_type_invariant(self);
            let bits = self.bits;
            assert(bits < 32 && bits & 1 == 0 && bits & 2 == 0 && bits & 4 == 0 && bits & 8 == 0
                && bits & 16 == 0 ==> bits == 0) by (bit_vector);
            assert(bits == 0 ==> bits & 1 == 0 && bits & 2 == 0 && bits & 4 == 0 && bits & 8 == 0
                && bits & 16 == 0) by (bit_vector);
            assert(self@.contains(MoveCommands::Left) <==> bits & 1 != 0);
            assert(self@.contains(MoveCommands::Right) <==> bits & 2 != 0);
            assert(self@.contains(MoveCommands::Forwards) <==> bits & 4 != 0);
            assert(self@.contains(MoveCommands::Backwards) <==> bits & 8 != 0);
            assert(self@.contains(MoveCommands::SpeedUp) <==> bits & 16 != 0);
            if bits == 0 {
                assert(self@ =~= Set::<MoveCommands>::empty());
            }
        }
        self.bits == 0
    }

    /// Whether `command` is in the set.
    pub fn contains(&self, command: MoveCommands) -> (present: bool)
        ensures
            present <==> self@.contains(command),
    {
        self.bits & command.bit() != 0
    }

    /// Adds the commands of `other`.
    pub fn insert(&mut self, other: MoveFlags)
        ensures
            final(self)@ == old(self)@.union(other@),
    {
        proof {
            use_type_invariant(&*self);
            use_type_invariant(&other);
            let a = self.bits;
            let b = other.bits;
            assert(a < 32 && b < 32 ==> (a | b) < 32) by (bit_vector);
            assert forall|c: MoveCommands|
                (a | b) & (#[trigger] c.spec_bit()) != 0 <==> old(self)@.contains(c)
                    || other@.contains(c) by {
                lemma_bits(a, b, c.spec_bit());
            }
        }
        self.bits = self.bits | other.bits;
        assert(self@ =~= old(self)@.union(other@));
    }

    /// Takes the commands of `other` away.
    pub fn remove(&mut self, other: MoveFlags)
        ensures
            final(self)@ == old(self)@.difference(other@),
    {
        proof {
            use_type_invariant(&*self);
            let a = self.bits;
            let b = other.bits;
            assert(a < 32 ==> (a & !b) < 32) by (bit_vector);
            assert forall|c: MoveCommands|
                (a & !b) & (#[trigger] c.spec_bit()) != 0 <==> old(self)@.contains(c)
                    && !other@.contains(c) by {
                lemma_bits(a, b, c.spec_bit());
            }
        }
        self.bits = self.bits & !other.bits;
        assert(self@ =~= old(self)@.difference(other@));
    }
}

/// The command that a key is bound to.
pub open spec fn command_of_key(key: PhysicalKey) -> Option<MoveCommands> {
    match key {
        PhysicalKey::Code(KeyCode::KeyS) | PhysicalKey::Code(KeyCode::ArrowDown) => Some(
            MoveCommands::Backwards,
        ),
        PhysicalKey::Code(KeyCode::KeyA) | PhysicalKey::Code(KeyCode::ArrowLeft) => Some(
            MoveCommands::Left,
        ),
        PhysicalKey::Code(KeyCode::KeyD) | PhysicalKey::Code(KeyCode::ArrowRight) => Some(
            MoveCommands::Right,
        ),
        PhysicalKey::Code(KeyCode::KeyW) | PhysicalKey::Code(KeyCode::ArrowUp) => Some(
            MoveCommands::Forwards,
        ),
        PhysicalKey::Code(KeyCode::ShiftLeft) | PhysicalKey::Code(KeyCode::ShiftRight) => Some(
            MoveCommands::SpeedUp,
        ),
        _ => None,
    }
}

/// The flags of the command that a key is bound to; none for a key without a binding.
pub fn move_flags_for_physical_key(code: PhysicalKey) -> (flags: MoveFlags)
    ensures
        flags@ == match command_of_key(code) {
            Some(command) => Set::<MoveCommands>::empty().insert(command),
            None => Set::<MoveCommands>::empty(),
        },
{
    match code {
        PhysicalKey::Code(KeyCode::KeyS) | PhysicalKey::Code(KeyCode::ArrowDown) => MoveFlags::of(
            MoveCommands::Backwards,
        ),
        PhysicalKey::Code(KeyCode::KeyA) | PhysicalKey::Code(KeyCode::ArrowLeft) => MoveFlags::of(
            MoveCommands::Left,
        ),
        PhysicalKey::Code(KeyCode::KeyD) | PhysicalKey::Code(KeyCode::ArrowRight) => MoveFlags::of(
            MoveCommands::Right,
        ),
        PhysicalKey::Code(KeyCode::KeyW) | PhysicalKey::Code(KeyCode::ArrowUp) => MoveFlags::of(
            MoveCommands::Forwards,
        ),
        PhysicalKey::Code(KeyCode::ShiftLeft) | PhysicalKey::Code(KeyCode::ShiftRight) => {
            MoveFlags::of(MoveCommands::SpeedUp)
        },
        _ => MoveFlags::empty(),
    }
}

/// What the camera remembers between two frames.
#[verifier::ext_equal]
pub struct CameraState {
    /// Whether the camera ignores movement.
    pub movement_locked: bool,
    /// The commands whose key is held.
    pub commands: Set<MoveCommands>,
    /// The mouse movements since the last update, oldest first.
    pub mouse_motion: Seq<MouseDelta>,
}

/// The held commands after a key went down or came up.
pub open spec fn commands_after_key(
    commands: Set<MoveCommands>,
    key: PhysicalKey,
    state: ElementState,
) -> Set<MoveCommands> {
    match (command_of_key(key), state) {
        (Some(command), ElementState::Pressed) => commands.insert(command),
        (Some(command), ElementState::Released) => commands.remove(command),
        (None, _) => commands,
    }
}

impl CameraState {
    /// The state after a window event.
    pub open spec fn after_window_event(self, event: WindowEvent) -> CameraState {
        match event {
            WindowEvent::KeyboardInput { event: key, .. } => CameraState {
                commands: commands_after_key(self.commands, key.physical_key, key.state),
                ..self
            },
            WindowEvent::MouseInput { button: MouseButton::Right, state } => CameraState {
                movement_locked: state == ElementState::Released,
                ..self
            },
            _ => self,
        }
    }

    /// The state after a device event.
    pub open spec fn after_device_event(self, event: DeviceEvent) -> CameraState {
        match event {
            DeviceEvent::MouseMotion { delta } => CameraState {
                mouse_motion: self.mouse_motion.push(delta),
                ..self
            },
            DeviceEvent::Key { physical_key, state } => CameraState {
                commands: commands_after_key(self.commands, physical_key, state),
                ..self
            },
            DeviceEvent::Other => self,
        }
    }

    /// The state after a run of device events, first event first.
    pub open spec fn after_device_events(self, events: Seq<DeviceEvent>) -> CameraState
        decreases events.len(),
    {
        if events.len() == 0 {
            self
        } else {
            self.after_device_events(events.drop_last()).after_device_event(events.last())
        }
    }

    /// The state after an update.
    pub open spec fn after_update(self) -> CameraState {
        CameraState { mouse_motion: Seq::empty(), ..self }
    }

    /// One if `command` is held, else zero.
    pub open spec fn held(self, command: MoveCommands) -> int {
        if self.commands.contains(command) {
            1
        } else {
            0
        }
    }
}

/// How the pose moves in one update: along the viewing direction and to the right, each in units
/// of the translation speed, all of it times a factor; and the mouse movements that turn the
/// pose, oldest first.
#[derive(Debug)]
pub struct CameraStep {
    pub forwards: i32,
    pub rightwards: i32,
    pub speed_factor: u32,
    pub mouse_motion: Vec<MouseDelta>,
}

/// Movement state of the camera.
#[derive(Debug)]
pub struct Camera {
    movement_locked: bool,
    active_move_commands: MoveFlags,
    mouse_motion: Vec<MouseDelta>,
}

impl View for Camera {
    type V = CameraState;

    closed spec fn view(&self) -> CameraState {
        CameraState {
            movement_locked: self.movement_locked,
            commands: self.active_move_commands@,
            mouse_motion: self.mouse_motion@,
        }
    }
}

impl Camera {
    /// A camera at rest: locked, with no key held and no mouse movement seen.
    pub fn new() -> (camera: Camera)
        ensures
            camera@ == (CameraState {
                movement_locked: true,
                commands: Set::<MoveCommands>::empty(),
                mouse_motion: Seq::<MouseDelta>::empty(),
            }),
    {
        Camera {
            movement_locked: true,
            active_move_commands: MoveFlags::empty(),
            mouse_motion: Vec::new(),
        }
    }

    fn on_key(&mut self, key: PhysicalKey, state: ElementState)
        ensures
            final(self)@ == (CameraState {
                commands: commands_after_key(old(self)@.commands, key, state),
                ..old(self)@
            }),
    {
        let flags = move_flags_for_physical_key(key);
        if flags.is_empty() {
            proof {
                if let Some(command) = command_of_key(key) {
                    assert(flags@.contains(command));
                }
            }
            return ;
        }
        let mut commands = self.active_move_commands;
        match state {
            ElementState::Pressed => commands.insert(flags),
            ElementState::Released => commands.remove(flags),
        }
        self.active_move_commands = commands;
        assert(self@.commands =~= commands_after_key(old(self)@.commands, key, state));
    }

    /// Keys of the window start and stop movements; the right mouse button held unlocks them.
    pub fn on_window_event(&mut self, event: &WindowEvent)
        ensures
            final(self)@ == old(self)@.after_window_event(*event),
    {
        match *event {
            WindowEvent::KeyboardInput { event: key, .. } => {
                self.on_key(key.physical_key, key.state);
            },
            WindowEvent::MouseInput { button, state } => {
                if button == MouseButton::Right {
                    self.movement_locked = state == ElementState::Released;
                }
            },
            _ => {},
        }
    }

    /// Mouse movements pile up until the next update; raw keys act as keys of the window.
    pub fn on_device_event(&mut self, event: &DeviceEvent)
        ensures
            final(self)@ == old(self)@.after_device_event(*event),
    {
        match *event {
            DeviceEvent::MouseMotion { delta } => {
                self.mouse_motion.push(delta);
            },
            DeviceEvent::Key { physical_key, state } => {
                self.on_key(physical_key, state);
            },
            DeviceEvent::Other => {},
        }
    }

    /// Uses up the mouse movements. Unless the camera is locked, returns the step that the held
    /// keys and those movements ask for.
    pub fn update(&mut self) -> (step: Option<CameraStep>)
        ensures
            final(self)@ == old(self)@.after_update(),
            step is None <==> old(self)@.movement_locked,
            step matches Some(s) ==> {
                &&& s.forwards == old(self)@.held(MoveCommands::Forwards) - old(self)@.held(
                    MoveCommands::Backwards,
                )
                &&& s.rightwards == old(self)@.held(MoveCommands::Right) - old(self)@.held(
                    MoveCommands::Left,
                )
                &&& s.speed_factor == if old(self)@.commands.contains(MoveCommands::SpeedUp) {
                    SPEED_UP_FACTOR
                } else {
                    1
                }
                &&& s.mouse_motion@ == old(self)@.mouse_motion
            },
    {
        let mut mouse_motion: Vec<MouseDelta> = Vec::new();
        std::mem::swap(&mut mouse_motion, &mut self.mouse_motion);
        if self.movement_locked {
            return None;
        }
        let commands = self.active_move_commands;
        Some(
            CameraStep {
                forwards: axis(
                    commands.contains(MoveCommands::Forwards),
                    commands.contains(MoveCommands::Backwards),
                ),
                rightwards: axis(
                    commands.contains(MoveCommands::Right),
                    commands.contains(MoveCommands::Left),
                ),
                speed_factor: if commands.contains(MoveCommands::SpeedUp) {
                    SPEED_UP_FACTOR
                } else {
                    1
                },
                mouse_motion,
            },
        )
    }
}

/// The movement along an axis: one way, the other way, or none when both or neither are held.
fn axis(positive: bool, negative: bool) -> (direction: i32)
    ensures
        direction == (if positive {
            1int
        } else {
            0
        }) - (if negative {
            1int
        } else {
            0
        }),
{
    if positive == negative {
        0
    } else if positive {
        1
    } else {
        -1
    }
}

/// A key event has the same effect whether it comes from the window or from the device.
pub proof fn law_key_sources_agree(
    camera: CameraState,
    event: crate::input::KeyEvent,
    is_synthetic: bool,
)
    ensures
        camera.after_window_event(WindowEvent::KeyboardInput { event, is_synthetic })
            == camera.after_device_event(
            DeviceEvent::Key { physical_key: event.physical_key, state: event.state },
        ),
{
}

/// Keys bound to one command are interchangeable: what one starts the other stops.
pub proof fn law_bound_keys_interchangeable(
    commands: Set<MoveCommands>,
    first: PhysicalKey,
    second: PhysicalKey,
    state: ElementState,
)
    requires
        command_of_key(first) == command_of_key(second),
    ensures
        commands_after_key(commands, first, state) == commands_after_key(commands, second, state),
{
}

/// After a press its command is held, after the release it is not, and no other command changes
/// on the way. A key without a binding changes nothing.
pub proof fn law_press_and_release(
    commands: Set<MoveCommands>,
    key: PhysicalKey,
    other: MoveCommands,
)
    ensures
        ({
            let pressed = commands_after_key(commands, key, ElementState::Pressed);
            let released = commands_after_key(pressed, key, ElementState::Released);
            match command_of_key(key) {
                Some(command) => {
                    &&& pressed.contains(command)
                    &&& !released.contains(command)
                    &&& other != command ==> (pressed.contains(other) <==> commands.contains(other))
                    &&& other != command ==> (released.contains(other) <==> commands.contains(
                        other,
                    ))
                },
                None => pressed == commands && released == commands,
            }
        }),
{
}

/// The mouse movements that an update hands out are those of the device events since the last
/// update, in the order of their arrival; keys do not get in between.
pub proof fn law_motion_in_arrival_order(camera: CameraState, events: Seq<DeviceEvent>)
    ensures
        camera.after_update().after_device_events(events).mouse_motion == motions_of(events),
    decreases events.len(),
{
    if events.len() > 0 {
        law_motion_in_arrival_order(camera, events.drop_last());
    }
}

/// The mouse movements among device events, in order.
pub open spec fn motions_of(events: Seq<DeviceEvent>) -> Seq<MouseDelta>
    decreases events.len(),
{
    if events.len() == 0 {
        Seq::empty()
    } else {
        match events.last() {
            DeviceEvent::MouseMotion { delta } => motions_of(events.drop_last()).push(delta),
            _ => motions_of(events.drop_last()),
        }
    }
}

/// No device event locks or unlocks the camera, and of the window events only those of the right
/// mouse button do: the camera is unlocked exactly while that button is down.
pub proof fn law_lock_follows_right_button(
    camera: CameraState,
    window_event: WindowEvent,
    device_event: DeviceEvent,
)
    ensures
        camera.after_device_event(device_event).movement_locked == camera.movement_locked,
        camera.after_window_event(window_event).movement_locked == match window_event {
            WindowEvent::MouseInput { button: MouseButton::Right, state } => state
                == ElementState::Released,
            _ => camera.movement_locked,
        },
{
}

} // verus!
