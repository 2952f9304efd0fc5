//! The server as a mathematical value: what it holds, what every handler
//! makes of it, and what a whole pass makes of it.

use vstd::prelude::*;
use vstd::view::View as _;
use crate::event::Event;
use crate::handle::Handle;
use crate::output::Output;
use crate::registry::RegistryState;
use crate::signal::{Command, InputDeviceKind, Mode, Signal, SurfaceRole};
use crate::view::View;

verus! {

/// What a server is, mathematically.
pub struct ServerState {
    /// The registry of outputs: handle to output key.
    pub outputs: RegistryState,
    /// The registry of views: handle to surface key.
    pub views: RegistryState,
    /// The views destroyed in the current pass, oldest first. They are held
    /// until the next pass begins.
    pub retired: Seq<View>,
    /// The events that wait for the consumer, oldest first.
    pub queue: Seq<Event>,
    /// The name of the socket at which clients connect.
    pub socket_name: Seq<char>,
}

impl ServerState {
    /// The state of a server that has just started.
    pub open spec fn started(socket_name: Seq<char>) -> ServerState {
        ServerState {
            outputs: RegistryState::empty(),
            views: RegistryState::empty(),
            retired: Seq::empty(),
            queue: Seq::empty(),
            socket_name,
        }
    }

    /// Both registries are well formed.
    pub open spec fn wf(self) -> bool {
        self.outputs.wf() && self.views.wf()
    }

    /// The state once `event` is queued.
    pub open spec fn emit(self, event: Event) -> ServerState {
        ServerState { queue: self.queue.push(event), ..self }
    }

    /// The state once a new output is registered under `h`.
    pub open spec fn with_output(self, h: Handle, output: u64) -> ServerState {
        ServerState { outputs: self.outputs.insert(h, output), ..self }
    }

    /// The state once a new view is registered under `h` and announced.
    pub open spec fn with_view(self, h: Handle, surface: u64) -> ServerState {
        ServerState {
            views: self.views.insert(h, surface),
            queue: self.queue.push(Event::ViewCreated { view: h }),
            ..self
        }
    }

    /// The state once the view of `surface` is destroyed: it has left the
    /// registry, it is held among the retired views, and its end is announced.
    pub open spec fn without_view(self, surface: u64) -> ServerState {
        let h = self.views.holder(surface);
        ServerState {
            views: self.views.remove(h),
            retired: self.retired.push(View { surface }),
            queue: self.queue.push(Event::ViewDestroyed { view: h }),
            ..self
        }
    }

    /// Whether the handler that `signal` is for can do its work: a signal of
    /// an output or a view finds its owner in the registry, and a view that
    /// is to be destroyed can still be removed.
    pub open spec fn admits(self, signal: Signal) -> bool {
        match signal {
            Signal::OutputFrame { output, .. } => self.outputs.holds(output),
            Signal::SurfaceMap { surface } => self.views.holds(surface),
            Signal::SurfaceUnmap { surface } => self.views.holds(surface),
            Signal::SurfaceDestroy { surface } => self.views.holds(surface) && self.views.generation
                < u64::MAX,
            Signal::RequestMove { surface } => self.views.holds(surface),
            Signal::RequestResize { surface, .. } => self.views.holds(surface),
            _ => true,
        }
    }

    /// Whether `issued` can be the handle that the handler of `signal` hands
    /// out: a fresh one for a new output and for a new top-level surface,
    /// none for anything else.
    pub open spec fn grants(self, signal: Signal, issued: Option<Handle>) -> bool {
        match signal {
            Signal::NewOutput { .. } => issued is Some && self.outputs.fresh(issued->0),
            Signal::NewSurface { role: SurfaceRole::Toplevel, .. } => issued is Some && self.views.fresh(
                issued->0,
            ),
            _ => issued is None,
        }
    }

    /// The state after the handler of `signal` has run and handed out
    /// `issued`.
    pub open spec fn after(self, signal: Signal, issued: Option<Handle>) -> ServerState {
        match signal {
            Signal::NewOutput { output, .. } => self.with_output(issued->0, output),
            Signal::NewInput { .. } => self,
            Signal::NewSurface { surface, role: SurfaceRole::Toplevel, .. } => self.with_view(
                issued->0,
                surface,
            ),
            Signal::NewSurface { .. } => self,
            Signal::CursorMotion { time_ms, delta_x, delta_y } => self.emit(
                Event::CursorMotion { time_ms, delta_x, delta_y },
            ),
            Signal::CursorMotionAbsolute { time_ms, x, y } => self.emit(
                Event::CursorMotionAbsolute { time_ms, x, y },
            ),
            Signal::CursorButton { time_ms, state, button } => self.emit(
                Event::CursorButton { time_ms, state, button },
            ),
            Signal::CursorAxis { time_ms, orientation, source, delta, delta_discrete } => self.emit(
                Event::CursorAxis { time_ms, orientation, source, delta, delta_discrete },
            ),
            Signal::CursorFrame => self.emit(Event::CursorFrame),
            Signal::RequestSetCursor { serial, hotspot_x, hotspot_y } => self.emit(
                Event::CursorImageRequested { serial, hotspot_x, hotspot_y },
            ),
            Signal::OutputFrame { output, when } => self.emit(
                Event::OutputFrameReady { output: self.outputs.holder(output), when },
            ),
            Signal::SurfaceMap { surface } => self.emit(
                Event::ViewMapped { view: self.views.holder(surface) },
            ),
            Signal::SurfaceUnmap { surface } => self.emit(
                Event::ViewUnmapped { view: self.views.holder(surface) },
            ),
            Signal::SurfaceDestroy { surface } => self.without_view(surface),
            Signal::RequestMove { surface } => self.emit(
                Event::ViewMoveRequested { view: self.views.holder(surface) },
            ),
            Signal::RequestResize { surface, edges } => self.emit(
                Event::ViewResizeRequested { view: self.views.holder(surface), edges },
            ),
        }
    }

    /// The state when a pass begins: the views retired in the pass before are
    /// let go.
    pub open spec fn begun(self) -> ServerState {
        ServerState { retired: Seq::empty(), ..self }
    }

    /// The state once the consumer has taken the waiting events.
    pub open spec fn drained(self) -> ServerState {
        ServerState { queue: Seq::empty(), ..self }
    }

    /// The state after the handlers of `signals` have run, first to last,
    /// the handler of each signal handing out the handle listed for it.
    pub open spec fn after_all(self, signals: Seq<Signal>, issued: Seq<Option<Handle>>) -> ServerState
        decreases signals.len(),
    {
        if signals.len() == 0 || issued.len() != signals.len() {
            self
        } else {
            self.after_all(signals.drop_last(), issued.drop_last()).after(signals.last(), issued.last())
        }
    }

    /// Whether the handlers of `signals` can run one after another, each in
    /// the state that the ones before it leave, and hand out the handles
    /// listed.
    pub open spec fn accepts_all(self, signals: Seq<Signal>, issued: Seq<Option<Handle>>) -> bool
        decreases signals.len(),
    {
        &&& issued.len() == signals.len()
        &&& signals.len() > 0 ==> {
            let before = self.after_all(signals.drop_last(), issued.drop_last());
            &&& self.accepts_all(signals.drop_last(), issued.drop_last())
            &&& before.admits(signals.last())
            &&& before.grants(signals.last(), issued.last())
        }
    }

    /// Whether a pass over `signals` that starts in this state can hand out
    /// the handles `issued`, handle the first `handled` signals, give
    /// `events` to the consumer and leave the state `post`. The pass goes on
    /// to the end, or to the first signal that the state reached does not
    /// admit.
    pub open spec fn passes(
        self,
        signals: Seq<Signal>,
        handled: int,
        issued: Seq<Option<Handle>>,
        events: Seq<Event>,
        post: ServerState,
    ) -> bool {
        let taken = signals.take(handled);
        let end = self.begun().after_all(taken, issued);
        &&& 0 <= handled <= signals.len()
        &&& self.begun().accepts_all(taken, issued)
        &&& handled < signals.len() ==> !end.admits(signals[handled])
        &&& events == end.queue
        &&& post == end.drained()
    }

    /// Whether the view that `h` named is gone for good: `h` is stale, and
    /// older than any handle that the registry can still hand out.
    pub open spec fn buried(self, h: Handle) -> bool {
        !self.views.live(h) && h.generation < self.views.generation
    }
}

/// What the handler of a new output asks of the backend: the output's own
/// set-up, the last mode that the output advertises if it advertises any, and
/// a place in the layout.
pub open spec fn new_output_commands(output: u64, modes: Seq<Mode>) -> Seq<Command> {
    let select = if modes.len() > 0 {
        seq![Command::SetOutputMode { output, mode: modes.last() }]
    } else {
        Seq::empty()
    };
    Output::wiring(output) + select + seq![Command::AddOutputToLayout { output }]
}

/// What the handler of a new input device asks of the backend: a pointer is
/// attached to the cursor, any other device is left alone; then the seat's
/// capabilities are published anew.
pub open spec fn new_input_commands(device: u64, kind: InputDeviceKind) -> Seq<Command> {
    let attach = if kind == InputDeviceKind::Pointer {
        seq![Command::AttachPointer { device }]
    } else {
        Seq::empty()
    };
    attach + seq![Command::SetSeatCapabilities { pointer: true, keyboard: false, touch: false }]
}

/// What the handler of `signal` asks of the backend.
pub open spec fn commands_of(signal: Signal) -> Seq<Command> {
    match signal {
        Signal::NewOutput { output, modes } => new_output_commands(output, modes@),
        Signal::NewInput { device, kind } => new_input_commands(device, kind),
        Signal::NewSurface { surface, toplevel, role: SurfaceRole::Toplevel } => View::wiring(
            surface,
            toplevel,
        ),
        _ => Seq::empty(),
    }
}

/// What the handlers of `signals` ask of the backend, first to last.
pub open spec fn commands_of_all(signals: Seq<Signal>) -> Seq<Command>
    decreases signals.len(),
{
    if signals.len() == 0 {
        Seq::empty()
    } else {
        commands_of_all(signals.drop_last()) + commands_of(signals.last())
    }
}

} // verus!
