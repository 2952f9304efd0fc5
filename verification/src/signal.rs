//! The listener bridge: what the backend notifies the core of, which entity
//! and handler each notification belongs to, and what the core asks of the
//! backend in return.

use vstd::prelude::*;
use crate::event::{AxisOrientation, AxisSource, ButtonState, Scalar, Timestamp};

verus! {

/// The name of a signal that the core listens to.
#[derive(Clone, Copy, Debug, PartialEq, Eq, Structural)]
pub enum SignalKind {
    NewOutput,
    NewInput,
    NewSurface,
    CursorMotion,
    CursorMotionAbsolute,
    CursorButton,
    CursorAxis,
    CursorFrame,
    RequestSetCursor,
    OutputFrame,
    SurfaceMap,
    SurfaceUnmap,
    SurfaceDestroy,
    RequestMove,
    RequestResize,
}

/// The backend object that emits a signal. Entities of the backend are named
/// by keys that the backend's side chooses, one per object.
#[derive(Clone, Copy, Debug, PartialEq, Eq, Structural)]
pub enum SignalSource {
    Backend,
    XdgShell,
    Cursor,
    Seat,
    Output { output: u64 },
    Surface { surface: u64 },
    Toplevel { toplevel: u64 },
}

/// The entity that a registration belongs to.
#[derive(Clone, Copy, Debug, PartialEq, Eq, Structural)]
pub enum Owner {
    Server,
    Output { output: u64 },
    View { surface: u64 },
}

/// One registration: the owner's handler for `signal` is to be called
/// whenever `source` emits it.
#[derive(Clone, Copy, Debug, PartialEq, Eq, Structural)]
pub struct Listener {
    pub owner: Owner,
    pub signal: SignalKind,
    pub source: SignalSource,
}

/// A display mode that an output advertises.
#[derive(Clone, Copy, Debug, PartialEq, Eq, Structural)]
pub struct Mode {
    pub width: i32,
    pub height: i32,
    pub refresh: i32,
}

/// The kind of an input device.
#[derive(Clone, Copy, Debug, PartialEq, Eq, Structural)]
pub enum InputDeviceKind {
    Keyboard,
    Pointer,
    Touch,
    TabletTool,
    TabletPad,
    Switch,
}

/// The role that a shell surface plays.
#[derive(Clone, Copy, Debug, PartialEq, Eq, Structural)]
pub enum SurfaceRole {
    Unassigned,
    Toplevel,
    Popup,
}

/// What the core asks the backend to do, in answer to a notification.
#[derive(Clone, Copy, Debug, PartialEq, Eq, Structural)]
pub enum Command {
    Connect { listener: Listener },
    CreateOutputGlobal { output: u64 },
    SetOutputMode { output: u64, mode: Mode },
    AddOutputToLayout { output: u64 },
    AttachPointer { device: u64 },
    SetSeatCapabilities { pointer: bool, keyboard: bool, touch: bool },
}

/// One notification of the backend, with its payload in the type that the
/// signal carries.
#[derive(Debug, PartialEq, Eq)]
pub enum Signal {
    NewOutput { output: u64, modes: Vec<Mode> },
    NewInput { device: u64, kind: InputDeviceKind },
    NewSurface { surface: u64, toplevel: u64, role: SurfaceRole },
    CursorMotion { time_ms: u32, delta_x: Scalar, delta_y: Scalar },
    CursorMotionAbsolute { time_ms: u32, x: Scalar, y: Scalar },
    CursorButton { time_ms: u32, state: ButtonState, button: u32 },
    CursorAxis {
        time_ms: u32,
        orientation: AxisOrientation,
        source: AxisSource,
        delta: Scalar,
        delta_discrete: i32,
    },
    CursorFrame,
    RequestSetCursor { serial: u32, hotspot_x: i32, hotspot_y: i32 },
    OutputFrame { output: u64, when: Timestamp },
    SurfaceMap { surface: u64 },
    SurfaceUnmap { surface: u64 },
    SurfaceDestroy { surface: u64 },
    RequestMove { surface: u64 },
    RequestResize { surface: u64, edges: u32 },
}

impl Signal {
    /// The name of the signal.
    pub open spec fn spec_kind(&self) -> SignalKind {
        match self {
            Signal::NewOutput { .. } => SignalKind::NewOutput,
            Signal::NewInput { .. } => SignalKind::NewInput,
            Signal::NewSurface { .. } => SignalKind::NewSurface,
            Signal::CursorMotion { .. } => SignalKind::CursorMotion,
            Signal::CursorMotionAbsolute { .. } => SignalKind::CursorMotionAbsolute,
            Signal::CursorButton { .. } => SignalKind::CursorButton,
            Signal::CursorAxis { .. } => SignalKind::CursorAxis,
            Signal::CursorFrame => SignalKind::CursorFrame,
            Signal::RequestSetCursor { .. } => SignalKind::RequestSetCursor,
            Signal::OutputFrame { .. } => SignalKind::OutputFrame,
            Signal::SurfaceMap { .. } => SignalKind::SurfaceMap,
            Signal::SurfaceUnmap { .. } => SignalKind::SurfaceUnmap,
            Signal::SurfaceDestroy { .. } => SignalKind::SurfaceDestroy,
            Signal::RequestMove { .. } => SignalKind::RequestMove,
            Signal::RequestResize { .. } => SignalKind::RequestResize,
        }
    }

    /// The name of the signal.
    #[verifier::when_used_as_spec(spec_kind)]
    pub fn kind(&self) -> (k: SignalKind)
        ensures
            k == self.spec_kind(),
    {
        match self {
            Signal::NewOutput { .. } => SignalKind::NewOutput,
            Signal::NewInput { .. } => SignalKind::NewInput,
            Signal::NewSurface { .. } => SignalKind::NewSurface,
            Signal::CursorMotion { .. } => SignalKind::CursorMotion,
            Signal::CursorMotionAbsolute { .. } => SignalKind::CursorMotionAbsolute,
            Signal::CursorButton { .. } => SignalKind::CursorButton,
            Signal::CursorAxis { .. } => SignalKind::CursorAxis,
            Signal::CursorFrame => SignalKind::CursorFrame,
            Signal::RequestSetCursor { .. } => SignalKind::RequestSetCursor,
            Signal::OutputFrame { .. } => SignalKind::OutputFrame,
            Signal::SurfaceMap { .. } => SignalKind::SurfaceMap,
            Signal::SurfaceUnmap { .. } => SignalKind::SurfaceUnmap,
            Signal::SurfaceDestroy { .. } => SignalKind::SurfaceDestroy,
            Signal::RequestMove { .. } => SignalKind::RequestMove,
            Signal::RequestResize { .. } => SignalKind::RequestResize,
        }
    }

    /// The entity whose handler the signal is for.
    pub open spec fn spec_owner(&self) -> Owner {
        match self {
            Signal::OutputFrame { output, .. } => Owner::Output { output: *output },
            Signal::SurfaceMap { surface } => Owner::View { surface: *surface },
            Signal::SurfaceUnmap { surface } => Owner::View { surface: *surface },
            Signal::SurfaceDestroy { surface } => Owner::View { surface: *surface },
            Signal::RequestMove { surface } => Owner::View { surface: *surface },
            Signal::RequestResize { surface, .. } => Owner::View { surface: *surface },
            _ => Owner::Server,
        }
    }

    /// The entity whose handler the signal is for.
    #[verifier::when_used_as_spec(spec_owner)]
    pub fn owner(&self) -> (o: Owner)
        ensures
            o == self.spec_owner(),
    {
        match self {
            Signal::OutputFrame { output, .. } => Owner::Output { output: *output },
            Signal::SurfaceMap { surface } => Owner::View { surface: *surface },
            Signal::SurfaceUnmap { surface } => Owner::View { surface: *surface },
            Signal::SurfaceDestroy { surface } => Owner::View { surface: *surface },
            Signal::RequestMove { surface } => Owner::View { surface: *surface },
            Signal::RequestResize { surface, .. } => Owner::View { surface: *surface },
            _ => Owner::Server,
        }
    }
}

impl Listener {
    /// Whether the registration is the one that `signal` reaches: it names
    /// the signal, and it belongs to the entity that the signal is for.
    pub open spec fn spec_accepts(&self, signal: &Signal) -> bool {
        self.signal == signal.spec_kind() && self.owner == signal.spec_owner()
    }

    /// Whether the registration is the one that `signal` reaches.
    #[verifier::when_used_as_spec(spec_accepts)]
    pub fn accepts(&self, signal: &Signal) -> (b: bool)
        ensures
            b == self.spec_accepts(signal),
    {
        self.signal == signal.kind() && self.owner == signal.owner()
    }
}

/// The registrations of the server itself, in the order in which they are
/// made while the server starts.
pub open spec fn server_listeners() -> Seq<Listener> {
    seq![
        Listener { owner: Owner::Server, signal: SignalKind::NewOutput, source: SignalSource::Backend },
        Listener { owner: Owner::Server, signal: SignalKind::NewInput, source: SignalSource::Backend },
        Listener { owner: Owner::Server, signal: SignalKind::NewSurface, source: SignalSource::XdgShell },
        Listener { owner: Owner::Server, signal: SignalKind::CursorMotion, source: SignalSource::Cursor },
        Listener {
            owner: Owner::Server,
            signal: SignalKind::CursorMotionAbsolute,
            source: SignalSource::Cursor,
        },
        Listener { owner: Owner::Server, signal: SignalKind::CursorButton, source: SignalSource::Cursor },
        Listener { owner: Owner::Server, signal: SignalKind::CursorAxis, source: SignalSource::Cursor },
        Listener { owner: Owner::Server, signal: SignalKind::CursorFrame, source: SignalSource::Cursor },
        Listener { owner: Owner::Server, signal: SignalKind::RequestSetCursor, source: SignalSource::Seat },
    ]
}

} // verus!
