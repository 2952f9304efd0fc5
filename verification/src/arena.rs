//! The slot arena that backs every registry.
//!
//! Storage, slot reuse and generation counting are the work of
//! `generational_arena::Arena`. Nothing in this module is proved: each item
//! states what the arena's code does, so that the rest of the crate can be
//! proved against it.

use vstd::prelude::*;
use generational_arena::Arena;
use crate::handle::Handle;

verus! {

/// `generational_arena::Arena`, whose fields stay hidden.
#[verifier::external_type_specification]
#[verifier::external_body]
#[verifier::reject_recursive_types(T)]
pub struct ExArena<T>(Arena<T>);

/// The occupied entries of an arena: for each occupied slot, the handle made
/// of the slot's position and the generation stored in it, and the value.
pub uninterp spec fn arena_entries(a: Arena<u64>) -> Map<Handle, u64>;

/// The arena's generation counter.
pub uninterp spec fn arena_generation(a: Arena<u64>) -> nat;

/// `Arena::new`: an arena without occupied slots whose counter is zero.
#[verifier::external_body]
pub(crate) fn arena_new() -> (a: Arena<u64>)
    ensures
        arena_entries(a).dom() == Set::<Handle>::empty(),
        arena_generation(a) == 0,
{
    Arena::new()
}

/// `Arena::insert`: stores the value in a slot that was free and stamps it
/// with the counter's current value; the counter and every other slot stay as
/// they were. The handle returned names that slot and that stamp.
#[verifier::external_body]
pub(crate) fn arena_insert(a: &mut Arena<u64>, value: u64) -> (h: Handle)
    ensures
        h.generation == arena_generation(*old(a)),
        forall|k: Handle| #[trigger]
            arena_entries(*old(a)).dom().contains(k) ==> k.slot != h.slot,
        arena_entries(*final(a)) == arena_entries(*old(a)).insert(h, value),
        arena_generation(*final(a)) == arena_generation(*old(a)),
{
    let (slot, generation) = a.insert(value).into_raw_parts();
    Handle { slot, generation }
}

/// `Arena::get`: the value of the slot that the handle names, if that slot is
/// occupied and carries the handle's generation.
#[verifier::external_body]
pub(crate) fn arena_get(a: &Arena<u64>, h: Handle) -> (r: Option<u64>)
    ensures
        r == (if arena_entries(*a).dom().contains(h) {
            Some(arena_entries(*a)[h])
        } else {
            None
        }),
{
    a.get(generational_arena::Index::from_raw_parts(h.slot, h.generation)).copied()
}

/// `Arena::get_mut`: access to the value of the slot that the handle names,
/// if that slot is occupied and carries the handle's generation. Writing
/// through it changes that value and nothing else.
#[verifier::external_body]
pub(crate) fn arena_get_mut(a: &mut Arena<u64>, h: Handle) -> (r: Option<&mut u64>)
    ensures
        match r {
            Some(value) => {
                &&& arena_entries(*old(a)).dom().contains(h)
                &&& *value == arena_entries(*old(a))[h]
                &&& arena_entries(*final(a)) == arena_entries(*old(a)).insert(h, *final(value))
                &&& arena_generation(*final(a)) == arena_generation(*old(a))
            },
            None => {
                &&& !arena_entries(*old(a)).dom().contains(h)
                &&& arena_entries(*final(a)) == arena_entries(*old(a))
                &&& arena_generation(*final(a)) == arena_generation(*old(a))
            },
        },
{
    a.get_mut(generational_arena::Index::from_raw_parts(h.slot, h.generation))
}

/// `Arena::remove`: where the handle names an occupied slot of its own
/// generation, frees the slot, hands its value out and advances the counter by
/// one; otherwise changes nothing. The counter is a `u64`, so an entry can
/// only be removed while the counter is below its maximum.
#[verifier::external_body]
pub(crate) fn arena_remove(a: &mut Arena<u64>, h: Handle) -> (r: Option<u64>)
    requires
        arena_entries(*old(a)).dom().contains(h) ==> arena_generation(*old(a)) < u64::MAX,
    ensures
        arena_entries(*old(a)).dom().contains(h) ==> {
            &&& r == Some(arena_entries(*old(a))[h])
            &&& arena_entries(*final(a)) == arena_entries(*old(a)).remove(h)
            &&& arena_generation(*final(a)) == arena_generation(*old(a)) + 1
        },
        !arena_entries(*old(a)).dom().contains(h) ==> {
            &&& r is None
            &&& arena_entries(*final(a)) == arena_entries(*old(a))
            &&& arena_generation(*final(a)) == arena_generation(*old(a))
        },
{
    a.remove(generational_arena::Index::from_raw_parts(h.slot, h.generation))
}

/// `Arena::iter`: walks the slots from the first to the last and yields each
/// occupied one once, with its handle and its value.
#[verifier::external_body]
pub(crate) fn arena_iter(a: &Arena<u64>) -> (v: Vec<(Handle, u64)>)
    ensures
        forall|i: int|
            0 <= i < v@.len() ==> arena_entries(*a).dom().contains((#[trigger] v@[i]).0)
                && arena_entries(*a)[v@[i].0] == v@[i].1,
        forall|h: Handle| #[trigger]
            arena_entries(*a).dom().contains(h) ==> exists|i: int|
                0 <= i < v@.len() && (#[trigger] v@[i]).0 == h,
        forall|i: int, j: int|
            0 <= i < j < v@.len() ==> (#[trigger] v@[i]).0.slot < (#[trigger] v@[j]).0.slot,
{
    a.iter().map(
        |(i, x)|
            {
                let (slot, generation) = i.into_raw_parts();
                (Handle { slot, generation }, *x)
            },
    ).collect()
}

} // verus!
