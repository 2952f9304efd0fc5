//! Views: application surfaces and their shell lifecycle.

use vstd::prelude::*;
use vstd::view::View as _;
use crate::event::Event;
use crate::registry::lemma_holder_unique;
use crate::server::Server;
use crate::signal::{Command, Listener, Owner, SignalKind, SignalSource};

verus! {

/// One application surface. A view is created when the shell announces a
/// top-level surface, may then be mapped and unmapped any number of times,
/// and ends when the surface is destroyed.
#[derive(Clone, Copy, Debug, PartialEq, Eq, Structural)]
pub struct View {
    /// The key of the shell surface that the view stands for.
    pub surface: u64,
}

impl View {
    /// The registrations of a view: map, unmap and destroy at the surface,
    /// move and resize requests at its top-level role.
    pub open spec fn wiring(surface: u64, toplevel: u64) -> Seq<Command> {
        let owner = Owner::View { surface };
        seq![
            Command::Connect {
                listener: Listener {
                    owner,
                    signal: SignalKind::SurfaceMap,
                    source: SignalSource::Surface { surface },
                },
            },
            Command::Connect {
                listener: Listener {
                    owner,
                    signal: SignalKind::SurfaceUnmap,
                    source: SignalSource::Surface { surface },
                },
            },
            Command::Connect {
                listener: Listener {
                    owner,
                    signal: SignalKind::SurfaceDestroy,
                    source: SignalSource::Surface { surface },
                },
            },
            Command::Connect {
                listener: Listener {
                    owner,
                    signal: SignalKind::RequestMove,
                    source: SignalSource::Toplevel { toplevel },
                },
            },
            Command::Connect {
                listener: Listener {
                    owner,
                    signal: SignalKind::RequestResize,
                    source: SignalSource::Toplevel { toplevel },
                },
            },
        ]
    }

    /// A view for the surface, with the commands that register its five
    /// listeners. They are made at construction, so that no signal is missed.
    pub fn new(surface: u64, toplevel: u64) -> (r: (View, Vec<Command>))
        ensures
            r.0.surface == surface,
            r.1@ == View::wiring(surface, toplevel),
    {
        let owner = Owner::View { surface };
        let at_surface = SignalSource::Surface { surface };
        let at_toplevel = SignalSource::Toplevel { toplevel };
        let mut commands: Vec<Command> = Vec::new();
        commands.push(
            Command::Connect {
                listener: Listener { owner, signal: SignalKind::SurfaceMap, source: at_surface },
            },
        );
        commands.push(
            Command::Connect {
                listener: Listener { owner, signal: SignalKind::SurfaceUnmap, source: at_surface },
            },
        );
        commands.push(
            Command::Connect {
                listener: Listener { owner, signal: SignalKind::SurfaceDestroy, source: at_surface },
            },
        );
        commands.push(
            Command::Connect {
                listener: Listener { owner, signal: SignalKind::RequestMove, source: at_toplevel },
            },
        );
        commands.push(
            Command::Connect {
                listener: Listener { owner, signal: SignalKind::RequestResize, source: at_toplevel },
            },
        );
        assert(commands@ =~= View::wiring(surface, toplevel));
        (View { surface }, commands)
    }

    /// The surface was mapped: tells the consumer so, under the view's own
    /// handle.
    pub fn xdg_surface_map(&self, server: &mut Server)
        requires
            old(server).wf(),
            old(server).state().views.holds(self.surface),
        ensures
            final(server).wf(),
            final(server).state() == old(server).state().emit(
                Event::ViewMapped { view: old(server).state().views.holder(self.surface) },
            ),
    {
        let found = server.find_view(self.surface);
        if let Some(view) = found {
            proof {
                server.lemma_wf();
                lemma_holder_unique(server.state().views, view, self.surface);
            }
            server.push_event(Event::ViewMapped { view });
        }
    }

    /// The surface was unmapped: tells the consumer so.
    pub fn xdg_surface_unmap(&self, server: &mut Server)
        requires
            old(server).wf(),
            old(server).state().views.holds(self.surface),
        ensures
            final(server).wf(),
            final(server).state() == old(server).state().emit(
                Event::ViewUnmapped { view: old(server).state().views.holder(self.surface) },
            ),
    {
        let found = server.find_view(self.surface);
        if let Some(view) = found {
            proof {
                server.lemma_wf();
                lemma_holder_unique(server.state().views, view, self.surface);
            }
            server.push_event(Event::ViewUnmapped { view });
        }
    }

    /// The surface is being destroyed: the view leaves the registry, so that
    /// its handle is stale from here on, is kept among the retired views
    /// until the next pass begins, and the consumer is told.
    pub fn xdg_surface_destroy(&self, server: &mut Server)
        requires
            old(server).wf(),
            old(server).state().views.holds(self.surface),
            old(server).state().views.generation < u64::MAX,
        ensures
            final(server).wf(),
            final(server).state() == old(server).state().without_view(self.surface),
    {
        let found = server.find_view(self.surface);
        if let Some(view) = found {
            proof {
                server.lemma_wf();
                lemma_holder_unique(server.state().views, view, self.surface);
            }
            server.retire_view(view);
            server.push_event(Event::ViewDestroyed { view });
        }
    }

    /// The client asks to be moved: hands the request to the consumer and
    /// moves nothing.
    pub fn xdg_surface_request_move(&self, server: &mut Server)
        requires
            old(server).wf(),
            old(server).state().views.holds(self.surface),
        ensures
            final(server).wf(),
            final(server).state() == old(server).state().emit(
                Event::ViewMoveRequested { view: old(server).state().views.holder(self.surface) },
            ),
    {
        let found = server.find_view(self.surface);
        if let Some(view) = found {
            proof {
                server.lemma_wf();
                lemma_holder_unique(server.state().views, view, self.surface);
            }
            server.push_event(Event::ViewMoveRequested { view });
        }
    }

    /// The client asks to be resized at the given edges: hands the request to
    /// the consumer and resizes nothing.
    pub fn xdg_surface_request_resize(&self, server: &mut Server, edges: u32)
        requires
            old(server).wf(),
            old(server).state().views.holds(self.surface),
        ensures
            final(server).wf(),
            final(server).state() == old(server).state().emit(
                Event::ViewResizeRequested {
                    view: old(server).state().views.holder(self.surface),
                    edges,
                },
            ),
    {
        let found = server.find_view(self.surface);
        if let Some(view) = found {
            proof {
                server.lemma_wf();
                lemma_holder_unique(server.state().views, view, self.surface);
            }
            server.push_event(Event::ViewResizeRequested { view, edges });
        }
    }
}

} // verus!
