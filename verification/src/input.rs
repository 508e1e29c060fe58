//! Window-system input, as plain values.

use vstd::prelude::*;

verus! {

/// Whether a key or a mouse button went down or came up.
#[derive(Clone, Copy, Debug, PartialEq, Eq, Structural)]
pub enum ElementState {
    Pressed,
    Released,
}

/// The mouse buttons that the application tells apart.
#[derive(Clone, Copy, Debug, PartialEq, Eq, Structural)]
pub enum MouseButton {
    Left,
    Right,
    Other,
}

/// The key positions that the application tells apart.
#[derive(Clone, Copy, Debug, PartialEq, Eq, Structural)]
pub enum KeyCode {
    KeyW,
    KeyA,
    KeyS,
    KeyD,
    ArrowUp,
    ArrowLeft,
    ArrowDown,
    ArrowRight,
    ShiftLeft,
    ShiftRight,
    Other,
}

/// The location of a key, independent of the keyboard layout.
#[derive(Clone, Copy, Debug, PartialEq, Eq, Structural)]
pub enum PhysicalKey {
    Code(KeyCode),
    Unidentified,
}

/// The meaning of a key under the current keyboard layout.
#[derive(Clone, Copy, Debug, PartialEq, Eq, Structural)]
pub enum LogicalKey {
    Escape,
    PrintScreen,
    Space,
    Other,
}

/// A key going down or coming up while the window has the focus.
#[derive(Clone, Copy, Debug, PartialEq, Eq, Structural)]
pub struct KeyEvent {
    pub physical_key: PhysicalKey,
    pub logical_key: LogicalKey,
    pub state: ElementState,
}

/// An event that belongs to a window.
#[derive(Clone, Copy, Debug, PartialEq, Eq, Structural)]
pub enum WindowEvent {
    CloseRequested,
    RedrawRequested,
    /// `is_synthetic` marks a key event that the window system made up on a change of focus.
    KeyboardInput { event: KeyEvent, is_synthetic: bool },
    MouseInput { button: MouseButton, state: ElementState },
    Other,
}

/// One raw movement of the mouse. Each axis is the bit pattern of a double-precision number,
/// which is carried and never interpreted here.
#[derive(Clone, Copy, Debug, PartialEq, Eq, Structural)]
pub struct MouseDelta {
    pub x_bits: u64,
    pub y_bits: u64,
}

/// An event that comes from an input device, whichever window has the focus.
#[derive(Clone, Copy, Debug, PartialEq, Eq, Structural)]
pub enum DeviceEvent {
    MouseMotion { delta: MouseDelta },
    Key { physical_key: PhysicalKey, state: ElementState },
    Other,
}

} // verus!
