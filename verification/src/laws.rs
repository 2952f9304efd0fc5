//! What holds of every server, whatever the backend delivers.

use vstd::prelude::*;
use vstd::view::View as _;
use crate::event::Event;
use crate::handle::Handle;
use crate::registry::{lemma_holder_exists, lemma_steps_keep_wf};
use crate::state::ServerState;
use crate::signal::{Signal, SurfaceRole};
use crate::view::View;

verus! {

/// A handler leaves the registries well formed.
pub proof fn lemma_handler_keeps_wf(s: ServerState, signal: Signal, issued: Option<Handle>)
    requires
        s.wf(),
        s.admits(signal),
        s.grants(signal, issued),
    ensures
        s.after(signal, issued).wf(),
{
    match signal {
        Signal::NewOutput { output, .. } => {
            lemma_steps_keep_wf(s.outputs, issued->0, output);
        },
        Signal::NewSurface { surface, role: SurfaceRole::Toplevel, .. } => {
            lemma_steps_keep_wf(s.views, issued->0, surface);
        },
        Signal::SurfaceDestroy { surface } => {
            lemma_steps_keep_wf(s.views, s.views.holder(surface), surface);
        },
        _ => {},
    }
}

/// Event ordering: while handlers run one after another, each event that is
/// queued stays where it was put. The queue after the first `k` signals is
/// the beginning of the queue after all of them, so the consumer reads the
/// events in the order in which the handlers produced them, none dropped,
/// merged or moved.
pub proof fn lemma_events_keep_their_order(
    s: ServerState,
    signals: Seq<Signal>,
    issued: Seq<Option<Handle>>,
    k: int,
)
    requires
        s.accepts_all(signals, issued),
        0 <= k <= signals.len(),
    ensures
        s.after_all(signals.take(k), issued.take(k)).queue.is_prefix_of(
            s.after_all(signals, issued).queue,
        ),
    decreases signals.len(),
{
    if k == signals.len() {
        assert(signals.take(k) =~= signals);
        assert(issued.take(k) =~= issued);
    } else {
        let front = signals.drop_last();
        let handles = issued.drop_last();
        lemma_events_keep_their_order(s, front, handles, k);
        assert(front.take(k) =~= signals.take(k));
        assert(handles.take(k) =~= issued.take(k));
        let before = s.after_all(front, handles);
        assert(before.queue.is_prefix_of(before.after(signals.last(), issued.last()).queue));
    }
}

/// Deferred destruction, first half: a view that is destroyed leaves the
/// registry at once, so that its handle is stale, and is held among the
/// retired views.
pub proof fn lemma_destroyed_view_is_retired(s: ServerState, surface: u64)
    requires
        s.wf(),
        s.admits(Signal::SurfaceDestroy { surface }),
    ensures
        ({
            let h = s.views.holder(surface);
            let t = s.after(Signal::SurfaceDestroy { surface }, None);
            &&& s.views.get(h) == Some(surface)
            &&& t.views.get(h) is None
            &&& t.buried(h)
            &&& t.retired == s.retired.push(View { surface })
            &&& t.queue == s.queue.push(Event::ViewDestroyed { view: h })
        }),
{
    lemma_holder_exists(s.views, surface);
}

/// Deferred destruction, second half: no handler lets a retired view go. The
/// views held after the first `k` signals of a pass are still held, in the
/// same places, after all of them; only the beginning of the next pass
/// empties the list.
pub proof fn lemma_retired_views_are_held(
    s: ServerState,
    signals: Seq<Signal>,
    issued: Seq<Option<Handle>>,
    k: int,
)
    requires
        s.accepts_all(signals, issued),
        0 <= k <= signals.len(),
    ensures
        s.after_all(signals.take(k), issued.take(k)).retired.is_prefix_of(
            s.after_all(signals, issued).retired,
        ),
        s.after_all(signals, issued).begun().retired.len() == 0,
    decreases signals.len(),
{
    if k == signals.len() {
        assert(signals.take(k) =~= signals);
        assert(issued.take(k) =~= issued);
    } else {
        let front = signals.drop_last();
        let handles = issued.drop_last();
        lemma_retired_views_are_held(s, front, handles, k);
        assert(front.take(k) =~= signals.take(k));
        assert(handles.take(k) =~= issued.take(k));
        let before = s.after_all(front, handles);
        assert(before.retired.is_prefix_of(before.after(signals.last(), issued.last()).retired));
    }
}

/// The handle of a destroyed view stays stale: whatever handlers run
/// afterwards, in this pass or in a later one, no lookup through it finds a
/// view again, and no view that is created later gets the same handle.
pub proof fn lemma_buried_view_stays_stale(
    s: ServerState,
    h: Handle,
    signals: Seq<Signal>,
    issued: Seq<Option<Handle>>,
)
    requires
        s.wf(),
        s.buried(h),
        s.accepts_all(signals, issued),
    ensures
        s.after_all(signals, issued).wf(),
        s.after_all(signals, issued).buried(h),
        s.after_all(signals, issued).views.get(h) is None,
        s.begun().buried(h),
        s.drained().buried(h),
    decreases signals.len(),
{
    if signals.len() > 0 {
        let front = signals.drop_last();
        let handles = issued.drop_last();
        lemma_buried_view_stays_stale(s, h, front, handles);
        let before = s.after_all(front, handles);
        lemma_handler_keeps_wf(before, signals.last(), issued.last());
    }
}

/// Destruction is final: once a view is destroyed, no handler that runs
/// afterwards queues an event that speaks of it. The event that announces
/// its end is the last one under its handle.
pub proof fn lemma_destroyed_is_terminal(
    s: ServerState,
    h: Handle,
    signals: Seq<Signal>,
    issued: Seq<Option<Handle>>,
)
    requires
        s.wf(),
        s.buried(h),
        s.accepts_all(signals, issued),
    ensures
        s.queue.len() <= s.after_all(signals, issued).queue.len(),
        forall|i: int|
            s.queue.len() <= i < s.after_all(signals, issued).queue.len() ==> (
            #[trigger] s.after_all(signals, issued).queue[i]).about_view() != Some(h),
    decreases signals.len(),
{
    if signals.len() > 0 {
        let front = signals.drop_last();
        let handles = issued.drop_last();
        lemma_destroyed_is_terminal(s, h, front, handles);
        lemma_buried_view_stays_stale(s, h, front, handles);
        let before = s.after_all(front, handles);
        let signal = signals.last();
        match signal {
            Signal::SurfaceMap { surface } => {
                lemma_holder_exists(before.views, surface);
            },
            Signal::SurfaceUnmap { surface } => {
                lemma_holder_exists(before.views, surface);
            },
            Signal::SurfaceDestroy { surface } => {
                lemma_holder_exists(before.views, surface);
            },
            Signal::RequestMove { surface } => {
                lemma_holder_exists(before.views, surface);
            },
            Signal::RequestResize { surface, .. } => {
                lemma_holder_exists(before.views, surface);
            },
            _ => {},
        }
    }
}

} // verus!
