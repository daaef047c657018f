//! Where targets get their identity.

use crate::target::{BreakTarget, TargetView};
use vstd::prelude::*;

verus! {

/// The source of target ids for one call stack, or for one whole program.
///
/// It counts upwards and never hands out an id twice, so every target that
/// it opens differs in identity from every other one that it has opened or
/// will open, and a request can only be taken for the target that minted it.
#[derive(Debug)]
pub struct TargetIds {
    next: u64,
}

impl View for TargetIds {
    type V = u64;

    /// How many ids have been handed out: the ids below this number.
    closed spec fn view(&self) -> u64 {
        self.next
    }
}

impl TargetIds {
    /// Whether this source has handed out `id`.
    pub open spec fn has_issued(self, id: u64) -> bool {
        id < self@
    }

    /// Whether this source can open one more target.
    pub open spec fn has_room(self) -> bool {
        self@ < u64::MAX
    }

    /// The count of a source that stood at `count` and must go on counting
    /// above `id`: the larger of `count` and `id + 1`.
    pub open spec fn kept_above(count: u64, id: u64) -> int {
        if count > id {
            count as int
        } else {
            id + 1
        }
    }

    /// A source that has handed out nothing yet.
    pub fn new() -> (ids: Self)
        ensures
            ids@ == 0,
    {
        TargetIds { next: 0 }
    }

    /// How many targets this source has opened.
    pub fn issued(&self) -> (count: u64)
        ensures
            count == self@,
    {
        self.next
    }

    /// Whether [`open`](Self::open) may be called.
    pub fn can_open(&self) -> (room: bool)
        ensures
            room == self.has_room(),
    {
        self.next < u64::MAX
    }

    /// Opens a target with an empty slot and an id of its own.
    ///
    /// The id is one that this source has never handed out, and from now on
    /// it counts as handed out.
    pub fn open<T>(&mut self) -> (target: BreakTarget<T>)
        requires
            old(self).has_room(),
        ensures
            target@ == TargetView::<T>::fresh(old(self)@),
            final(self)@ == old(self)@ + 1,
            !old(self).has_issued(target@.id),
            final(self).has_issued(target@.id),
            forall|id: u64| old(self).has_issued(id) ==> final(self).has_issued(id),
    {
        let id = self.next;
        self.next = id + 1;
        BreakTarget::with_id(id)
    }

    /// Makes sure that `id` and every id below it count as handed out.
    pub(crate) fn keep_above(&mut self, id: u64)
        requires
            id < u64::MAX,
        ensures
            final(self)@ == Self::kept_above(old(self)@, id),
    {
        if self.next <= id {
            self.next = id + 1;
        }
    }
}

} // verus!
