//! The server: owner of the registries, the retired views and the event
//! queue, and the place where every notification of the backend arrives.

use vstd::prelude::*;
use vstd::view::View as _;
use crate::event::{AxisOrientation, AxisSource, ButtonState, Event, Scalar};
use crate::handle::Handle;
use crate::output::Output;
use crate::queue::EventQueue;
use crate::registry::Registry;
use crate::signal::{Command, InputDeviceKind, Mode, Signal, SurfaceRole};
use crate::state::{commands_of, commands_of_all, new_input_commands, new_output_commands, ServerState};
use crate::startup::{plan, release_plan, released, startup_plan, InitError, Resource, Startup};
use crate::view::View;

verus! {

/// What one pass gave: the events for the consumer, the commands for the
/// backend, and how many of the signals were handled.
pub struct Pass {
    pub events: Vec<Event>,
    pub commands: Vec<Command>,
    pub handled: usize,
}

/// What a handler did beside changing the server: the commands for the
/// backend, and the handle that it handed out, if it registered an entity.
pub struct Reaction {
    pub commands: Vec<Command>,
    pub issued: Option<Handle>,
}

/// The server.
pub struct Server {
    socket_name: String,
    outputs: Registry,
    views: Registry,
    dead_views: Vec<View>,
    event_queue: EventQueue,
}

impl Server {
    /// The server as a mathematical value.
    pub closed spec fn state(&self) -> ServerState {
        ServerState {
            outputs: self.outputs.state(),
            views: self.views.state(),
            retired: self.dead_views@,
            queue: self.event_queue@,
            socket_name: self.socket_name@,
        }
    }

    /// The server's invariant.
    pub closed spec fn wf(&self) -> bool {
        self.outputs.wf() && self.views.wf()
    }

    /// A server in order has a state in order.
    pub proof fn lemma_wf(&self)
        requires
            self.wf(),
        ensures
            self.state().wf(),
    {
    }

    /// Creates the server once the start-up has run. Where a step of the
    /// start-up did not succeed there is no server, and the error is that of
    /// the first such step. Otherwise the server begins with empty
    /// registries, nothing retired and nothing queued, and clients connect at
    /// the socket that was opened.
    pub fn new(startup: Startup) -> (r: Result<Server, InitError>)
        ensures
            match r {
                Ok(server) => startup.spec_error() is None && server.wf() && server.state()
                    == ServerState::started(startup.socket_name->0@),
                Err(e) => startup.spec_error() == Some(e),
            },
    {
        if !startup.display_created {
            return Err(InitError::DisplayCreateFailed);
        }
        let socket_name = match startup.socket_name {
            Some(name) => name,
            None => {
                return Err(InitError::SocketUnavailable);
            },
        };
        if !startup.backend_started {
            return Err(InitError::BackendStartFailed);
        }
        Ok(
            Server {
                socket_name,
                outputs: Registry::new(),
                views: Registry::new(),
                dead_views: Vec::new(),
                event_queue: EventQueue::new(),
            },
        )
    }

    /// Shuts the server down: gives up everything that it holds and says
    /// what has to be released, in the order of release, the resource
    /// acquired last going first.
    pub fn shutdown(self) -> (resources: Vec<Resource>)
        ensures
            resources@ == released(plan()),
    {
        let steps = startup_plan();
        assert(plan().take(plan().len() as int) =~= plan());
        release_plan(steps.len())
    }

    /// The backend found an output. Its modes are given in the order in
    /// which they were added. The output is set up, the mode added last is
    /// selected if there is any, the output gets its place in the layout and
    /// its entry in the registry. The consumer is told nothing.
    pub fn backend_new_output(&mut self, output: u64, modes: &Vec<Mode>) -> (r: (Handle, Vec<Command>))
        requires
            old(self).wf(),
        ensures
            final(self).wf(),
            old(self).state().outputs.fresh(r.0),
            final(self).state() == old(self).state().with_output(r.0, output),
            r.1@ == new_output_commands(output, modes@),
    {
        let (entity, mut commands) = Output::new(output);
        if modes.len() > 0 {
            commands.push(Command::SetOutputMode { output, mode: modes[modes.len() - 1] });
        }
        commands.push(Command::AddOutputToLayout { output });
        let h = self.outputs.insert(entity.output);
        assert(commands@ =~= new_output_commands(output, modes@));
        (h, commands)
    }

    /// The backend found an input device. A pointer is attached to the
    /// cursor; a keyboard or any other device is left alone. Then the seat's
    /// capabilities are published anew.
    pub fn backend_new_input(&mut self, device: u64, kind: InputDeviceKind) -> (commands: Vec<Command>)
        requires
            old(self).wf(),
        ensures
            final(self).wf(),
            final(self).state() == old(self).state(),
            commands@ == new_input_commands(device, kind),
    {
        let mut commands: Vec<Command> = Vec::new();
        match kind {
            InputDeviceKind::Pointer => {
                commands.push(Command::AttachPointer { device });
            },
            _ => {},
        }
        commands.push(Command::SetSeatCapabilities { pointer: true, keyboard: false, touch: false });
        assert(commands@ =~= new_input_commands(device, kind));
        commands
    }

    /// The shell announced a surface. Only a top-level surface becomes a
    /// view: it is registered and the consumer is told of it. A surface of
    /// any other role is passed over.
    pub fn xdg_shell_new_surface(&mut self, surface: u64, toplevel: u64, role: SurfaceRole) -> (r:
        Reaction)
        requires
            old(self).wf(),
        ensures
            final(self).wf(),
            old(self).state().grants(Signal::NewSurface { surface, toplevel, role }, r.issued),
            final(self).state() == old(self).state().after(
                Signal::NewSurface { surface, toplevel, role },
                r.issued,
            ),
            r.commands@ == commands_of(Signal::NewSurface { surface, toplevel, role }),
    {
        match role {
            SurfaceRole::Toplevel => {},
            _ => {
                return Reaction { commands: Vec::new(), issued: None };
            },
        }
        let (view, commands) = View::new(surface, toplevel);
        let h = self.views.insert(view.surface);
        self.event_queue.push(Event::ViewCreated { view: h });
        Reaction { commands, issued: Some(h) }
    }

    /// The pointer moved by a distance: hands the motion on.
    pub fn cursor_motion(&mut self, time_ms: u32, delta_x: Scalar, delta_y: Scalar)
        requires
            old(self).wf(),
        ensures
            final(self).wf(),
            final(self).state() == old(self).state().emit(
                Event::CursorMotion { time_ms, delta_x, delta_y },
            ),
    {
        self.event_queue.push(Event::CursorMotion { time_ms, delta_x, delta_y });
    }

    /// The pointer moved to a place: hands the motion on.
    pub fn cursor_motion_absolute(&mut self, time_ms: u32, x: Scalar, y: Scalar)
        requires
            old(self).wf(),
        ensures
            final(self).wf(),
            final(self).state() == old(self).state().emit(
                Event::CursorMotionAbsolute { time_ms, x, y },
            ),
    {
        self.event_queue.push(Event::CursorMotionAbsolute { time_ms, x, y });
    }

    /// A pointer button changed: hands the change on.
    pub fn cursor_button(&mut self, time_ms: u32, state: ButtonState, button: u32)
        requires
            old(self).wf(),
        ensures
            final(self).wf(),
            final(self).state() == old(self).state().emit(
                Event::CursorButton { time_ms, state, button },
            ),
    {
        self.event_queue.push(Event::CursorButton { time_ms, state, button });
    }

    /// The pointer scrolled: hands the scroll on.
    pub fn cursor_axis(
        &mut self,
        time_ms: u32,
        orientation: AxisOrientation,
        source: AxisSource,
        delta: Scalar,
        delta_discrete: i32,
    )
        requires
            old(self).wf(),
        ensures
            final(self).wf(),
            final(self).state() == old(self).state().emit(
                Event::CursorAxis { time_ms, orientation, source, delta, delta_discrete },
            ),
    {
        self.event_queue.push(
            Event::CursorAxis { time_ms, orientation, source, delta, delta_discrete },
        );
    }

    /// A group of pointer events is complete: says so.
    pub fn cursor_frame(&mut self)
        requires
            old(self).wf(),
        ensures
            final(self).wf(),
            final(self).state() == old(self).state().emit(Event::CursorFrame),
    {
        self.event_queue.push(Event::CursorFrame);
    }

    /// A client asks for a cursor image: hands the request on.
    pub fn seat_request_set_cursor(&mut self, serial: u32, hotspot_x: i32, hotspot_y: i32)
        requires
            old(self).wf(),
        ensures
            final(self).wf(),
            final(self).state() == old(self).state().emit(
                Event::CursorImageRequested { serial, hotspot_x, hotspot_y },
            ),
    {
        self.event_queue.push(Event::CursorImageRequested { serial, hotspot_x, hotspot_y });
    }

    /// Whether the handler that `signal` is for can do its work.
    pub fn admits(&self, signal: &Signal) -> (b: bool)
        requires
            self.wf(),
        ensures
            b == self.state().admits(*signal),
    {
        match signal {
            Signal::OutputFrame { output, .. } => self.outputs.find(*output).is_some(),
            Signal::SurfaceMap { surface } => self.views.find(*surface).is_some(),
            Signal::SurfaceUnmap { surface } => self.views.find(*surface).is_some(),
            Signal::SurfaceDestroy { surface } => self.views.find(*surface).is_some()
                && self.views.generation() < u64::MAX,
            Signal::RequestMove { surface } => self.views.find(*surface).is_some(),
            Signal::RequestResize { surface, .. } => self.views.find(*surface).is_some(),
            _ => true,
        }
    }

    /// The trampoline: calls the handler that `signal` is for, with the
    /// payload in the handler's own type, on the server or on the entity that
    /// owns the registration.
    pub fn dispatch(&mut self, signal: &Signal) -> (r: Reaction)
        requires
            old(self).wf(),
            old(self).state().admits(*signal),
        ensures
            final(self).wf(),
            old(self).state().grants(*signal, r.issued),
            final(self).state() == old(self).state().after(*signal, r.issued),
            r.commands@ == commands_of(*signal),
    {
        match signal {
            Signal::NewOutput { output, modes } => {
                let (h, commands) = self.backend_new_output(*output, modes);
                Reaction { commands, issued: Some(h) }
            },
            Signal::NewInput { device, kind } => {
                let commands = self.backend_new_input(*device, *kind);
                Reaction { commands, issued: None }
            },
            Signal::NewSurface { surface, toplevel, role } => {
                self.xdg_shell_new_surface(*surface, *toplevel, *role)
            },
            Signal::CursorMotion { time_ms, delta_x, delta_y } => {
                self.cursor_motion(*time_ms, *delta_x, *delta_y);
                Reaction { commands: Vec::new(), issued: None }
            },
            Signal::CursorMotionAbsolute { time_ms, x, y } => {
                self.cursor_motion_absolute(*time_ms, *x, *y);
                Reaction { commands: Vec::new(), issued: None }
            },
            Signal::CursorButton { time_ms, state, button } => {
                self.cursor_button(*time_ms, *state, *button);
                Reaction { commands: Vec::new(), issued: None }
            },
            Signal::CursorAxis { time_ms, orientation, source, delta, delta_discrete } => {
                self.cursor_axis(*time_ms, *orientation, *source, *delta, *delta_discrete);
                Reaction { commands: Vec::new(), issued: None }
            },
            Signal::CursorFrame => {
                self.cursor_frame();
                Reaction { commands: Vec::new(), issued: None }
            },
            Signal::RequestSetCursor { serial, hotspot_x, hotspot_y } => {
                self.seat_request_set_cursor(*serial, *hotspot_x, *hotspot_y);
                Reaction { commands: Vec::new(), issued: None }
            },
            Signal::OutputFrame { output, when } => {
                let entity = Output { output: *output };
                entity.output_frame(self, *when);
                Reaction { commands: Vec::new(), issued: None }
            },
            Signal::SurfaceMap { surface } => {
                let entity = View { surface: *surface };
                entity.xdg_surface_map(self);
                Reaction { commands: Vec::new(), issued: None }
            },
            Signal::SurfaceUnmap { surface } => {
                let entity = View { surface: *surface };
                entity.xdg_surface_unmap(self);
                Reaction { commands: Vec::new(), issued: None }
            },
            Signal::SurfaceDestroy { surface } => {
                let entity = View { surface: *surface };
                entity.xdg_surface_destroy(self);
                Reaction { commands: Vec::new(), issued: None }
            },
            Signal::RequestMove { surface } => {
                let entity = View { surface: *surface };
                entity.xdg_surface_request_move(self);
                Reaction { commands: Vec::new(), issued: None }
            },
            Signal::RequestResize { surface, edges } => {
                let entity = View { surface: *surface };
                entity.xdg_surface_request_resize(self, *edges);
                Reaction { commands: Vec::new(), issued: None }
            },
        }
    }

    /// The views destroyed in the current pass, oldest first.
    pub fn retired(&self) -> (views: &Vec<View>)
        ensures
            views@ == self.state().retired,
    {
        &self.dead_views
    }

    /// Begins a pass: lets the views go that were retired in the pass
    /// before.
    pub fn begin_pass(&mut self)
        requires
            old(self).wf(),
        ensures
            final(self).wf(),
            final(self).state() == old(self).state().begun(),
    {
        self.dead_views.clear();
    }

    /// Ends a pass: hands the waiting events to the consumer, oldest first,
    /// and leaves the queue empty.
    pub fn take_events(&mut self) -> (events: Vec<Event>)
        requires
            old(self).wf(),
        ensures
            final(self).wf(),
            events@ == old(self).state().queue,
            final(self).state() == old(self).state().drained(),
    {
        self.event_queue.drain()
    }

    /// One whole pass over the signals that the backend delivers, in the
    /// order of their delivery: the views retired in the pass before are let
    /// go, the handler of each signal runs, and the events that wait at the
    /// end are handed out.
    ///
    /// A signal whose owner is in no registry breaks the bridge's promise;
    /// the pass stops in front of the first such signal, and `handled` says
    /// how many signals came before it.
    pub fn poll_events(&mut self, signals: &Vec<Signal>) -> (pass: Pass)
        requires
            old(self).wf(),
        ensures
            final(self).wf(),
            pass.handled <= signals@.len(),
            pass.commands@ == commands_of_all(signals@.take(pass.handled as int)),
            exists|issued: Seq<Option<Handle>>|
                old(self).state().passes(
                    signals@,
                    pass.handled as int,
                    issued,
                    pass.events@,
                    final(self).state(),
                ),
    {
        self.begin_pass();
        let ghost begun = self.state();
        let ghost mut issued: Seq<Option<Handle>> = Seq::empty();
        let mut commands: Vec<Command> = Vec::new();
        let mut handled: usize = 0;
        while handled < signals.len()
            invariant
                self.wf(),
                0 <= handled <= signals@.len(),
                begun.accepts_all(signals@.take(handled as int), issued),
                self.state() == begun.after_all(signals@.take(handled as int), issued),
                commands@ == commands_of_all(signals@.take(handled as int)),
            ensures
                handled < signals@.len() ==> !self.state().admits(signals@[handled as int]),
            decreases signals@.len() - handled,
        {
            if !self.admits(&signals[handled]) {
                break ;
            }
            let mut reaction = self.dispatch(&signals[handled]);
            commands.append(&mut reaction.commands);
            proof {
                let next = signals@.take(handled as int + 1);
                assert(next.drop_last() =~= signals@.take(handled as int));
                assert(next.last() == signals@[handled as int]);
                assert(issued.push(reaction.issued).drop_last() =~= issued);
                issued = issued.push(reaction.issued);
            }
            handled = handled + 1;
        }
        let events = self.take_events();
        let pass = Pass { events, commands, handled };
        proof {
            assert(old(self).state().passes(
                signals@,
                pass.handled as int,
                issued,
                pass.events@,
                self.state(),
            ));
        }
        pass
    }

    /// The name of the socket at which clients connect.
    pub fn socket_name(&self) -> (name: &String)
        ensures
            name@ == self.state().socket_name,
    {
        &self.socket_name
    }

    /// The output under `h`, or `None` where `h` is stale: an output that is
    /// gone is no error, the caller skips it.
    pub fn get_output(&self, h: Handle) -> (r: Option<Output>)
        ensures
            r == match self.state().outputs.get(h) {
                Some(output) => Some(Output { output }),
                None => None,
            },
    {
        match self.outputs.get(h) {
            Some(output) => Some(Output { output }),
            None => None,
        }
    }

    /// The view under `h`, or `None` where `h` is stale: a view that is gone
    /// is no error, the caller skips it.
    pub fn get_view(&self, h: Handle) -> (r: Option<View>)
        ensures
            r == match self.state().views.get(h) {
                Some(surface) => Some(View { surface }),
                None => None,
            },
    {
        match self.views.get(h) {
            Some(surface) => Some(View { surface }),
            None => None,
        }
    }

    /// Every registered output with its handle, by ascending slot.
    pub fn outputs(&self) -> (listing: Vec<(Handle, Output)>)
        ensures
            self.state().outputs.listed_by(listing@.map_values(|e: (Handle, Output)| (e.0, e.1.output))),
    {
        let entries = self.outputs.iter();
        let mut listing: Vec<(Handle, Output)> = Vec::new();
        let mut i: usize = 0;
        while i < entries.len()
            invariant
                0 <= i <= entries.len(),
                listing@.len() == i,
                forall|j: int|
                    0 <= j < i ==> (#[trigger] listing@[j]).0 == entries@[j].0 && listing@[j].1.output
                        == entries@[j].1,
            decreases entries.len() - i,
        {
            listing.push((entries[i].0, Output { output: entries[i].1 }));
            i = i + 1;
        }
        assert(listing@.map_values(|e: (Handle, Output)| (e.0, e.1.output)) =~= entries@);
        listing
    }

    /// Every registered view with its handle, by ascending slot.
    pub fn views(&self) -> (listing: Vec<(Handle, View)>)
        ensures
            self.state().views.listed_by(listing@.map_values(|e: (Handle, View)| (e.0, e.1.surface))),
    {
        let entries = self.views.iter();
        let mut listing: Vec<(Handle, View)> = Vec::new();
        let mut i: usize = 0;
        while i < entries.len()
            invariant
                0 <= i <= entries.len(),
                listing@.len() == i,
                forall|j: int|
                    0 <= j < i ==> (#[trigger] listing@[j]).0 == entries@[j].0 && listing@[j].1.surface
                        == entries@[j].1,
            decreases entries.len() - i,
        {
            listing.push((entries[i].0, View { surface: entries[i].1 }));
            i = i + 1;
        }
        assert(listing@.map_values(|e: (Handle, View)| (e.0, e.1.surface)) =~= entries@);
        listing
    }

    /// The handle of the output that stands for the backend's `output`.
    pub fn find_output(&self, output: u64) -> (r: Option<Handle>)
        ensures
            match r {
                Some(h) => self.state().outputs.is_holder(h, output),
                None => !self.state().outputs.holds(output),
            },
    {
        self.outputs.find(output)
    }

    /// The handle of the view that stands for the shell's `surface`.
    pub fn find_view(&self, surface: u64) -> (r: Option<Handle>)
        ensures
            match r {
                Some(h) => self.state().views.is_holder(h, surface),
                None => !self.state().views.holds(surface),
            },
    {
        self.views.find(surface)
    }

    /// Queues an event for the consumer.
    pub(crate) fn push_event(&mut self, event: Event)
        requires
            old(self).wf(),
        ensures
            final(self).wf(),
            final(self).state() == old(self).state().emit(event),
    {
        self.event_queue.push(event);
    }

    /// Takes the view under `h` out of the registry and holds it among the
    /// retired views.
    pub(crate) fn retire_view(&mut self, h: Handle)
        requires
            old(self).wf(),
            old(self).state().views.live(h),
            old(self).state().views.generation < u64::MAX,
        ensures
            final(self).wf(),
            final(self).state() == (ServerState {
                views: old(self).state().views.remove(h),
                retired: old(self).state().retired.push(
                    View { surface: old(self).state().views.entries[h] },
                ),
                ..old(self).state()
            }),
    {
        let removed = self.views.remove(h);
        if let Some(surface) = removed {
            self.dead_views.push(View { surface });
        }
    }
}

} // verus!
