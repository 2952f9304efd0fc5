//! Domain events: what the core tells its consumer.

use vstd::prelude::*;
use crate::handle::Handle;

verus! {

/// A 64-bit binary floating-point number, carried as its bit pattern.
///
/// The core never computes with such a number; it hands it on unchanged.
#[derive(Clone, Copy, Debug, PartialEq, Eq, Structural)]
pub struct Scalar {
    pub bits: u64,
}

/// A point in time: whole seconds and the nanoseconds of the second begun.
#[derive(Clone, Copy, Debug, PartialEq, Eq, Structural)]
pub struct Timestamp {
    pub secs: u64,
    pub nanos: u32,
}

/// Whether a pointer button went down or up.
#[derive(Clone, Copy, Debug, PartialEq, Eq, Structural)]
pub enum ButtonState {
    Released,
    Pressed,
}

/// The direction of a scroll axis.
#[derive(Clone, Copy, Debug, PartialEq, Eq, Structural)]
pub enum AxisOrientation {
    Vertical,
    Horizontal,
}

/// What produced a scroll.
#[derive(Clone, Copy, Debug, PartialEq, Eq, Structural)]
pub enum AxisSource {
    Wheel,
    Finger,
    Continuous,
    WheelTilt,
}

/// Whether a key went down or up.
#[derive(Clone, Copy, Debug, PartialEq, Eq, Structural)]
pub enum KeyState {
    Released,
    Pressed,
}

/// The modifier masks of a keyboard.
#[derive(Clone, Copy, Debug, PartialEq, Eq, Structural)]
pub struct KeyboardModifiers {
    pub depressed: u32,
    pub latched: u32,
    pub locked: u32,
    pub group: u32,
}

/// One occurrence, as the consumer sees it. An event holds plain data and
/// handles only; a handle in it may be stale by the time the event is read.
#[allow(inconsistent_fields)]
#[derive(Clone, Copy, Debug, PartialEq, Eq, Structural)]
pub enum Event {
    CursorMotion { time_ms: u32, delta_x: Scalar, delta_y: Scalar },
    CursorMotionAbsolute { time_ms: u32, x: Scalar, y: Scalar },
    CursorButton { time_ms: u32, state: ButtonState, button: u32 },
    CursorAxis {
        time_ms: u32,
        orientation: AxisOrientation,
        source: AxisSource,
        delta: Scalar,
        delta_discrete: i32,
    },
    CursorFrame,
    CursorImageRequested { serial: u32, hotspot_x: i32, hotspot_y: i32 },
    OutputFrameReady { output: Handle, when: Timestamp },
    KeyModifier { keyboard: Handle, modifiers: KeyboardModifiers },
    KeyEvent { keyboard: Handle, state: KeyState, keycode: u32 },
    ViewMoveRequested { view: Handle },
    ViewResizeRequested { view: Handle, edges: u32 },
    ViewMapped { view: Handle },
    ViewUnmapped { view: Handle },
    ViewCreated { view: Handle },
    ViewDestroyed { view: Handle },
}

impl Event {
    /// The view that the event speaks of, if it speaks of one.
    pub open spec fn about_view(self) -> Option<Handle> {
        match self {
            Event::ViewMoveRequested { view } => Some(view),
            Event::ViewResizeRequested { view, .. } => Some(view),
            Event::ViewMapped { view } => Some(view),
            Event::ViewUnmapped { view } => Some(view),
            Event::ViewCreated { view } => Some(view),
            Event::ViewDestroyed { view } => Some(view),
            _ => None,
        }
    }
}

} // verus!
