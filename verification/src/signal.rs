//! What travels up the stack in place of a normal return.

use vstd::prelude::*;

verus! {

/// A request to escape to one particular target.
///
/// It carries the id of that target and nothing else. The value to deliver
/// waits in the target's own slot, so one request type serves targets of every
/// payload type. Requests are minted by `BreakTarget::break_with` only, and a
/// request that is not sent up the stack has no effect.
#[must_use]
#[derive(Debug, PartialEq, Eq)]
pub struct BreakRequest {
    marker: u64,
}

impl View for BreakRequest {
    type V = u64;

    /// The id of the target that the request names.
    closed spec fn view(&self) -> u64 {
        self.marker
    }
}

impl BreakRequest {
    pub(crate) fn aimed_at(marker: u64) -> (request: Self)
        ensures
            request@ == marker,
    {
        BreakRequest { marker }
    }

    /// The id of the target that this request names.
    pub fn marker(&self) -> (marker: u64)
        ensures
            marker == self@,
    {
        self.marker
    }
}

/// An abrupt exit on its way up the stack.
///
/// The two kinds never overlap: an escape is recognised by its variant, not by
/// looking into a failure's contents.
#[derive(Debug, PartialEq, Eq)]
pub enum Unwind<E> {
    /// An escape heading for the target that the request names.
    Escape(BreakRequest),
    /// Any other failure, with its contents untouched.
    Failure(E),
}

impl<E> Unwind<E> {
    /// The id an escape is heading for; `None` for a failure.
    pub open spec fn destination(self) -> Option<u64> {
        match self {
            Unwind::Escape(request) => Some(request@),
            Unwind::Failure(_) => None,
        }
    }
}

} // verus!
