//! What holds of every deployment, whatever its body does.
//!
//! The laws on deployments are stated over [`TargetView`], the model in which
//! the contracts of `BreakTarget::break_with`, `BreakTarget::intercept` and
//! `BreakTarget::deploy` speak; the law on ids over the count that is the view
//! of a [`TargetIds`].

use crate::ids::TargetIds;
use crate::signal::{BreakRequest, Unwind};
use crate::target::TargetView;
use vstd::prelude::*;

verus! {

/// A source hands out each id once.
///
/// The id that a source hands out next is none of those it has handed out,
/// and in every later state of the source it is one of them: a target opened
/// later gets another id.
pub proof fn ids_are_handed_out_once(earlier: TargetIds, later: TargetIds)
    requires
        earlier@ < later@,
    ensures
        !earlier.has_issued(earlier@),
        later.has_issued(earlier@),
        earlier@ != later@,
        forall|id: u64| earlier.has_issued(id) ==> later.has_issued(id),
{
}

/// A body that returns is answered with its own value, and the slot of its
/// target is as empty as it was when the target was opened.
pub proof fn direct_return_is_the_answer<T, E>(id: u64, value: T)
    ensures
        TargetView::<T>::fresh(id).payload is None,
        TargetView::<T>::fresh(id).ready_for(Ok::<T, Unwind<E>>(value)),
        TargetView::<T>::fresh(id).intercept(Ok::<T, Unwind<E>>(value)) == Ok::<T, Unwind<E>>(
            value,
        ),
{
}

/// A return and a filled slot exclude each other, and so do an escape to a
/// target and an empty slot of that target.
///
/// A deployment takes a returned value only over an empty slot, and an escape
/// that names its target only over a filled one. After `break_with`, the slot
/// is filled: what is left to the body is to send the request up.
pub proof fn slot_tells_return_from_escape<T, E>(
    target: TargetView<T>,
    value: T,
    data: T,
    request: BreakRequest,
)
    requires
        request@ == target.id,
    ensures
        target.ready_for(Ok::<T, Unwind<E>>(value)) <==> target.payload is None,
        target.ready_for(Err::<T, Unwind<E>>(Unwind::Escape(request))) <==> target.payload is Some,
        !target.break_with(data).ready_for(Ok::<T, Unwind<E>>(value)),
        target.break_with(data).ready_for(Err::<T, Unwind<E>>(Unwind::Escape(request))),
{
}

/// An escape requested on a target is answered, at that target's deployment,
/// with the value that was handed to `break_with`.
pub proof fn escape_delivers_its_value<T, E>(id: u64, value: T, request: BreakRequest)
    requires
        request@ == id,
    ensures
        TargetView::<T>::fresh(id).break_with(value).id == id,
        TargetView::<T>::fresh(id).break_with(value).payload == Some(value),
        TargetView::<T>::fresh(id).break_with(value).claims(Unwind::<E>::Escape(request)),
        TargetView::<T>::fresh(id).break_with(value).ready_for(
            Err::<T, Unwind<E>>(Unwind::Escape(request)),
        ),
        TargetView::<T>::fresh(id).break_with(value).intercept(
            Err::<T, Unwind<E>>(Unwind::Escape(request)),
        ) == Ok::<T, Unwind<E>>(value),
{
}

/// An escape that names another target is no business of this one: its
/// deployment does not answer, it passes the very same request on.
///
/// Only the ids are compared. What either slot holds plays no part, so two
/// targets with equal contents are never taken for one another.
pub proof fn foreign_escape_passes_untouched<U, E>(bystander: TargetView<U>, request: BreakRequest)
    requires
        request@ != bystander.id,
    ensures
        !bystander.claims(Unwind::<E>::Escape(request)),
        bystander.ready_for(Err::<U, Unwind<E>>(Unwind::Escape(request))),
        bystander.intercept(Err::<U, Unwind<E>>(Unwind::Escape(request))) == Err::<U, Unwind<E>>(
            Unwind::Escape(request),
        ),
{
}

/// With a target deployed inside the body of another, an escape aimed at the
/// outer one goes past the inner deployment and is answered by the outer one.
///
/// The two targets took their ids from one source, the outer one first. The
/// inner deployment ends with the request still on its way, not with a value,
/// whatever its own slot holds.
pub proof fn escape_selects_the_outer_target<T, U, E>(
    outer_id: u64,
    inner: TargetView<U>,
    value: T,
    request: BreakRequest,
)
    requires
        outer_id < inner.id,
        request@ == outer_id,
    ensures
        inner.ready_for(Err::<U, Unwind<E>>(Unwind::Escape(request))),
        inner.intercept(Err::<U, Unwind<E>>(Unwind::Escape(request))) == Err::<U, Unwind<E>>(
            Unwind::Escape(request),
        ),
        TargetView::<T>::fresh(outer_id).break_with(value).intercept(
            Err::<T, Unwind<E>>(Unwind::Escape(request)),
        ) == Ok::<T, Unwind<E>>(value),
{
}

/// However many deployments of other targets lie between the place where an
/// escape was requested and the deployment of its target, each of them passes
/// the request on unchanged, and the target's deployment answers with the
/// value: the depth makes no difference.
pub proof fn escape_crosses_any_depth<T, U, E>(
    id: u64,
    between: Seq<TargetView<U>>,
    value: T,
    request: BreakRequest,
)
    requires
        request@ == id,
        forall|i: int| 0 <= i < between.len() ==> (#[trigger] between[i]).id != id,
    ensures
        forall|i: int|
            0 <= i < between.len() ==> (#[trigger] between[i]).ready_for(
                Err::<U, Unwind<E>>(Unwind::Escape(request)),
            ),
        forall|i: int|
            0 <= i < between.len() ==> (#[trigger] between[i]).intercept(
                Err::<U, Unwind<E>>(Unwind::Escape(request)),
            ) == Err::<U, Unwind<E>>(Unwind::Escape(request)),
        TargetView::<T>::fresh(id).break_with(value).intercept(
            Err::<T, Unwind<E>>(Unwind::Escape(request)),
        ) == Ok::<T, Unwind<E>>(value),
{
}

/// A failure that is no escape is never answered and never altered: every
/// deployment, in whatever state its target is, passes it on as it came.
pub proof fn failure_passes_untouched<T, E>(target: TargetView<T>, failure: E)
    ensures
        !target.claims(Unwind::Failure(failure)),
        target.ready_for(Err::<T, Unwind<E>>(Unwind::Failure(failure))),
        target.intercept(Err::<T, Unwind<E>>(Unwind::Failure(failure))) == Err::<T, Unwind<E>>(
            Unwind::Failure(failure),
        ),
{
}

} // verus!
