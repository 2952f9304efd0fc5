//! Outputs: display sinks, their frame notifications and their render
//! passes.

use vstd::prelude::*;
use vstd::view::View as _;
use crate::event::{Event, Timestamp};
use crate::handle::Handle;
use crate::registry::{lemma_holder_unique, RegistryState};
use crate::server::Server;
use crate::signal::{Command, Listener, Owner, SignalKind, SignalSource};

verus! {

/// Where a view is placed on screen.
#[derive(Clone, Copy, Debug, PartialEq, Eq, Structural)]
pub struct Rect {
    pub x: i32,
    pub y: i32,
    pub w: i32,
    pub h: i32,
}

impl Rect {
    /// Where a sub-surface of the placed view begins: the placement's origin,
    /// moved by the sub-surface's offset within the view.
    pub fn origin_of(&self, sx: i32, sy: i32) -> (p: (i64, i64))
        ensures
            p.0 == self.x + sx,
            p.1 == self.y + sy,
    {
        (self.x as i64 + sx as i64, self.y as i64 + sy as i64)
    }
}

/// One step of a render pass, for the renderer to carry out.
#[derive(Clone, Copy, Debug, PartialEq, Eq, Structural)]
pub enum RenderStep {
    /// Start rendering at the output's effective resolution.
    Begin { output: u64 },
    /// Fill the frame with the background.
    Clear,
    /// Composite every sub-surface of the view at the placement.
    Surfaces { surface: u64, placement: Rect },
    /// Draw the cursors that the hardware does not.
    SoftwareCursors { output: u64 },
    /// Stop rendering.
    End,
    /// Submit the frame.
    Commit { output: u64 },
}

/// The compositing steps for the requests, first to last: one for each
/// request whose handle is live, none for a stale one.
pub open spec fn draws(views: RegistryState, requests: Seq<(Handle, Rect)>) -> Seq<RenderStep>
    decreases requests.len(),
{
    if requests.len() == 0 {
        Seq::empty()
    } else {
        let before = draws(views, requests.drop_last());
        match views.get(requests.last().0) {
            Some(surface) => before.push(
                RenderStep::Surfaces { surface, placement: requests.last().1 },
            ),
            None => before,
        }
    }
}

/// One display sink.
#[derive(Clone, Copy, Debug, PartialEq, Eq, Structural)]
pub struct Output {
    /// The key of the backend's output that this one stands for.
    pub output: u64,
}

impl Output {
    /// What a new output asks of the backend: the registration of its frame
    /// listener, and its announcement to clients.
    pub open spec fn wiring(output: u64) -> Seq<Command> {
        seq![
            Command::Connect {
                listener: Listener {
                    owner: Owner::Output { output },
                    signal: SignalKind::OutputFrame,
                    source: SignalSource::Output { output },
                },
            },
            Command::CreateOutputGlobal { output },
        ]
    }

    /// An output for the backend's `output`, with the commands that set it
    /// up.
    pub fn new(output: u64) -> (r: (Output, Vec<Command>))
        ensures
            r.0.output == output,
            r.1@ == Output::wiring(output),
    {
        let mut commands: Vec<Command> = Vec::new();
        commands.push(
            Command::Connect {
                listener: Listener {
                    owner: Owner::Output { output },
                    signal: SignalKind::OutputFrame,
                    source: SignalSource::Output { output },
                },
            },
        );
        commands.push(Command::CreateOutputGlobal { output });
        assert(commands@ =~= Output::wiring(output));
        (Output { output }, commands)
    }

    /// The whole render pass of this output for the requests. Where no
    /// buffer could be attached nothing is rendered. Otherwise the frame is
    /// begun and cleared, the live views are composited in the order of the
    /// requests, and the frame is committed once; a request whose handle is
    /// stale is passed over.
    pub open spec fn frame(
        self,
        views: RegistryState,
        requests: Seq<(Handle, Rect)>,
        attached: bool,
    ) -> Seq<RenderStep> {
        if attached {
            seq![RenderStep::Begin { output: self.output }, RenderStep::Clear] + draws(views, requests)
                + seq![
                RenderStep::SoftwareCursors { output: self.output },
                RenderStep::End,
                RenderStep::Commit { output: self.output },
            ]
        } else {
            Seq::empty()
        }
    }

    /// Plans the render pass for the views requested, each with its
    /// placement. `attached` says whether the backend could attach a buffer
    /// to render into.
    pub fn render_views(&self, server: &Server, views: &Vec<(Handle, Rect)>, attached: bool) -> (steps:
        Vec<RenderStep>)
        ensures
            steps@ == self.frame(server.state().views, views@, attached),
    {
        let mut steps: Vec<RenderStep> = Vec::new();
        if !attached {
            return steps;
        }
        steps.push(RenderStep::Begin { output: self.output });
        steps.push(RenderStep::Clear);
        let ghost head = steps@;
        let mut i: usize = 0;
        while i < views.len()
            invariant
                0 <= i <= views.len(),
                steps@ == head + draws(server.state().views, views@.take(i as int)),
            decreases views.len() - i,
        {
            let request = views[i];
            let found = server.get_view(request.0);
            proof {
                assert(views@.take(i as int + 1).drop_last() =~= views@.take(i as int));
                assert(views@.take(i as int + 1).last() == request);
            }
            if let Some(view) = found {
                steps.push(RenderStep::Surfaces { surface: view.surface, placement: request.1 });
            }
            i = i + 1;
        }
        assert(views@.take(i as int) =~= views@);
        steps.push(RenderStep::SoftwareCursors { output: self.output });
        steps.push(RenderStep::End);
        steps.push(RenderStep::Commit { output: self.output });
        assert(steps@ =~= self.frame(server.state().views, views@, attached));
        steps
    }

    /// The backend is ready for a frame of this output: tells the consumer,
    /// under the output's own handle, and renders nothing.
    pub fn output_frame(&self, server: &mut Server, when: Timestamp)
        requires
            old(server).wf(),
            old(server).state().outputs.holds(self.output),
        ensures
            final(server).wf(),
            final(server).state() == old(server).state().emit(
                Event::OutputFrameReady {
                    output: old(server).state().outputs.holder(self.output),
                    when,
                },
            ),
    {
        let found = server.find_output(self.output);
        if let Some(output) = found {
            proof {
                server.lemma_wf();
                lemma_holder_unique(server.state().outputs, output, self.output);
            }
            server.push_event(Event::OutputFrameReady { output, when });
        }
    }
}

} // verus!
