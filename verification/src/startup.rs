//! Starting the server up and shutting it down: the order of the steps, the
//! failures that end a start-up, and what has to be released afterwards.

use vstd::prelude::*;
use crate::signal::{server_listeners, Listener, Owner, SignalKind, SignalSource};

verus! {

/// Why a server could not be created.
#[derive(Clone, Copy, Debug, PartialEq, Eq, Structural)]
pub enum InitError {
    DisplayCreateFailed,
    SocketUnavailable,
    BackendStartFailed,
}

impl InitError {
    /// The error in words.
    pub fn message(&self) -> (text: &'static str)
        ensures
            text@ == match self {
                InitError::DisplayCreateFailed => "cannot create display"@,
                InitError::SocketUnavailable => "cannot create socket"@,
                InitError::BackendStartFailed => "cannot start backend"@,
            },
    {
        match self {
            InitError::DisplayCreateFailed => "cannot create display",
            InitError::SocketUnavailable => "cannot create socket",
            InitError::BackendStartFailed => "cannot start backend",
        }
    }
}

/// A resource of the backend that the server owns and has to release itself.
/// Everything else that a start-up creates belongs to the display and goes
/// with it.
#[derive(Clone, Copy, Debug, PartialEq, Eq, Structural)]
pub enum Resource {
    Display,
    Backend,
}

/// One step of a start-up.
#[derive(Clone, Copy, Debug, PartialEq, Eq, Structural)]
pub enum StartupStep {
    CreateDisplay,
    CreateBackend,
    InitRenderer,
    CreateCompositor,
    CreateDataDeviceManager,
    CreateOutputLayout,
    Listen { listener: Listener },
    CreateXdgShell,
    CreateCursor,
    LoadCursorTheme,
    CreateSeat,
    OpenSocket,
    StartBackend,
}

impl StartupStep {
    /// The error that ends the start-up where this step fails; `None` for a
    /// step that has no failure to report.
    pub open spec fn spec_failure(&self) -> Option<InitError> {
        match self {
            StartupStep::CreateDisplay => Some(InitError::DisplayCreateFailed),
            StartupStep::OpenSocket => Some(InitError::SocketUnavailable),
            StartupStep::StartBackend => Some(InitError::BackendStartFailed),
            _ => None,
        }
    }

    /// The error that ends the start-up where this step fails.
    #[verifier::when_used_as_spec(spec_failure)]
    pub fn failure(&self) -> (e: Option<InitError>)
        ensures
            e == self.spec_failure(),
    {
        match self {
            StartupStep::CreateDisplay => Some(InitError::DisplayCreateFailed),
            StartupStep::OpenSocket => Some(InitError::SocketUnavailable),
            StartupStep::StartBackend => Some(InitError::BackendStartFailed),
            _ => None,
        }
    }

    /// The resource that the server owns once this step is done.
    pub open spec fn spec_acquires(&self) -> Option<Resource> {
        match self {
            StartupStep::CreateDisplay => Some(Resource::Display),
            StartupStep::CreateBackend => Some(Resource::Backend),
            _ => None,
        }
    }

    /// The resource that the server owns once this step is done.
    #[verifier::when_used_as_spec(spec_acquires)]
    pub fn acquires(&self) -> (r: Option<Resource>)
        ensures
            r == self.spec_acquires(),
    {
        match self {
            StartupStep::CreateDisplay => Some(Resource::Display),
            StartupStep::CreateBackend => Some(Resource::Backend),
            _ => None,
        }
    }
}

/// The server's own registration for `signal` at `source`.
pub open spec fn spec_listen(signal: SignalKind, source: SignalSource) -> StartupStep {
    StartupStep::Listen { listener: Listener { owner: Owner::Server, signal, source } }
}

/// The server's own registration for `signal` at `source`.
#[verifier::when_used_as_spec(spec_listen)]
pub fn listen(signal: SignalKind, source: SignalSource) -> (step: StartupStep)
    ensures
        step == spec_listen(signal, source),
{
    StartupStep::Listen { listener: Listener { owner: Owner::Server, signal, source } }
}

/// The steps of a start-up, in their order. Each listener is registered as
/// soon as its source exists, and all of them before the backend starts and
/// the first signal can come.
pub open spec fn plan() -> Seq<StartupStep> {
    seq![
        StartupStep::CreateDisplay,
        StartupStep::CreateBackend,
        StartupStep::InitRenderer,
        StartupStep::CreateCompositor,
        StartupStep::CreateDataDeviceManager,
        StartupStep::CreateOutputLayout,
        spec_listen(SignalKind::NewOutput, SignalSource::Backend),
        spec_listen(SignalKind::NewInput, SignalSource::Backend),
        StartupStep::CreateXdgShell,
        spec_listen(SignalKind::NewSurface, SignalSource::XdgShell),
        StartupStep::CreateCursor,
        StartupStep::LoadCursorTheme,
        spec_listen(SignalKind::CursorMotion, SignalSource::Cursor),
        spec_listen(SignalKind::CursorMotionAbsolute, SignalSource::Cursor),
        spec_listen(SignalKind::CursorButton, SignalSource::Cursor),
        spec_listen(SignalKind::CursorAxis, SignalSource::Cursor),
        spec_listen(SignalKind::CursorFrame, SignalSource::Cursor),
        StartupStep::CreateSeat,
        spec_listen(SignalKind::RequestSetCursor, SignalSource::Seat),
        StartupStep::OpenSocket,
        StartupStep::StartBackend,
    ]
}

/// The steps of a start-up, in their order.
pub fn startup_plan() -> (steps: Vec<StartupStep>)
    ensures
        steps@ == plan(),
{
    let mut steps: Vec<StartupStep> = Vec::new();
    steps.push(StartupStep::CreateDisplay);
    steps.push(StartupStep::CreateBackend);
    steps.push(StartupStep::InitRenderer);
    steps.push(StartupStep::CreateCompositor);
    steps.push(StartupStep::CreateDataDeviceManager);
    steps.push(StartupStep::CreateOutputLayout);
    steps.push(listen(SignalKind::NewOutput, SignalSource::Backend));
    steps.push(listen(SignalKind::NewInput, SignalSource::Backend));
    steps.push(StartupStep::CreateXdgShell);
    steps.push(listen(SignalKind::NewSurface, SignalSource::XdgShell));
    steps.push(StartupStep::CreateCursor);
    steps.push(StartupStep::LoadCursorTheme);
    steps.push(listen(SignalKind::CursorMotion, SignalSource::Cursor));
    steps.push(listen(SignalKind::CursorMotionAbsolute, SignalSource::Cursor));
    steps.push(listen(SignalKind::CursorButton, SignalSource::Cursor));
    steps.push(listen(SignalKind::CursorAxis, SignalSource::Cursor));
    steps.push(listen(SignalKind::CursorFrame, SignalSource::Cursor));
    steps.push(StartupStep::CreateSeat);
    steps.push(listen(SignalKind::RequestSetCursor, SignalSource::Seat));
    steps.push(StartupStep::OpenSocket);
    steps.push(StartupStep::StartBackend);
    assert(steps@ =~= plan());
    steps
}

/// The registrations that `steps` make, in their order.
pub open spec fn registered(steps: Seq<StartupStep>) -> Seq<Listener>
    decreases steps.len(),
{
    if steps.len() == 0 {
        Seq::empty()
    } else {
        match steps.last() {
            StartupStep::Listen { listener } => registered(steps.drop_last()).push(listener),
            _ => registered(steps.drop_last()),
        }
    }
}

/// A start-up registers every listener of the server, and all of them before
/// its last step, which starts the backend: no signal can come while a
/// listener is still missing.
pub proof fn lemma_plan_registers_every_listener()
    ensures
        plan().last() == StartupStep::StartBackend,
        registered(plan().drop_last()) == server_listeners(),
        registered(plan()) == server_listeners(),
{
    let p = plan();
    reveal_with_fuel(registered, 22);
    assert(p.drop_last().len() == 20);
    assert(registered(p.drop_last()) =~= server_listeners());
    assert(registered(p) == registered(p.drop_last()));
}

/// What has to be released once `steps` are done, in the order of release:
/// the resource acquired last goes first.
pub open spec fn released(steps: Seq<StartupStep>) -> Seq<Resource>
    decreases steps.len(),
{
    if steps.len() == 0 {
        Seq::empty()
    } else {
        match steps.last().spec_acquires() {
            Some(resource) => seq![resource] + released(steps.drop_last()),
            None => released(steps.drop_last()),
        }
    }
}

/// What has to be released when a start-up ends after `completed` steps of
/// the plan, in the order of release. This is the way out of a failed
/// start-up; with every step completed it is the way to shut a server down.
pub fn release_plan(completed: usize) -> (resources: Vec<Resource>)
    requires
        completed <= plan().len(),
    ensures
        resources@ == released(plan().take(completed as int)),
{
    let steps = startup_plan();
    let mut resources: Vec<Resource> = Vec::new();
    let mut i: usize = completed;
    while i > 0
        invariant
            0 <= i <= completed <= steps@.len(),
            steps@ == plan(),
            resources@ + released(steps@.take(i as int)) == released(steps@.take(completed as int)),
        decreases i,
    {
        proof {
            assert(steps@.take(i as int).drop_last() =~= steps@.take(i as int - 1));
            assert(steps@.take(i as int).last() == steps@[i as int - 1]);
        }
        i = i - 1;
        let ghost before = resources@;
        match steps[i].acquires() {
            Some(resource) => {
                resources.push(resource);
                assert(resources@ + released(steps@.take(i as int)) =~= before + (seq![resource]
                    + released(steps@.take(i as int))));
            },
            None => {},
        }
    }
    assert(released(steps@.take(0)) =~= Seq::<Resource>::empty());
    assert(resources@ =~= resources@ + released(steps@.take(0)));
    resources
}

/// How a start-up went: whether the display was created, the name of the
/// socket if one could be opened, and whether the backend started. A step
/// that was not reached counts as not done.
pub struct Startup {
    pub display_created: bool,
    pub socket_name: Option<String>,
    pub backend_started: bool,
}

impl Startup {
    /// The error of the first step that did not succeed, if there is one.
    pub open spec fn spec_error(&self) -> Option<InitError> {
        if !self.display_created {
            Some(InitError::DisplayCreateFailed)
        } else if self.socket_name is None {
            Some(InitError::SocketUnavailable)
        } else if !self.backend_started {
            Some(InitError::BackendStartFailed)
        } else {
            None
        }
    }

    /// The error of the first step that did not succeed, if there is one.
    #[verifier::when_used_as_spec(spec_error)]
    pub fn error(&self) -> (e: Option<InitError>)
        ensures
            e == self.spec_error(),
    {
        if !self.display_created {
            Some(InitError::DisplayCreateFailed)
        } else if self.socket_name.is_none() {
            Some(InitError::SocketUnavailable)
        } else if !self.backend_started {
            Some(InitError::BackendStartFailed)
        } else {
            None
        }
    }
}

} // verus!
