//! The escape target and the decisions of a deployment.

use crate::ids::TargetIds;
use crate::signal::{BreakRequest, Unwind};
use vstd::prelude::*;

verus! {

/// The mathematical content of a [`BreakTarget`]: who it is and what it holds.
pub struct TargetView<T> {
    /// The identity that requests are matched against.
    pub id: u64,
    /// The value left by an escape, if one was requested.
    pub payload: Option<T>,
}

impl<T> TargetView<T> {
    /// A target as a deployment creates it: nothing stored yet.
    pub open spec fn fresh(id: u64) -> Self {
        TargetView { id, payload: None }
    }

    /// The target after an escape with `data` was requested on it.
    pub open spec fn break_with(self, data: T) -> Self {
        TargetView { id: self.id, payload: Some(data) }
    }

    /// The same slot under the identity `id`.
    pub open spec fn with_id(self, id: u64) -> Self {
        TargetView { id, payload: self.payload }
    }

    /// Whether `unwind` is an escape and names this very target.
    pub open spec fn claims<E>(self, unwind: Unwind<E>) -> bool {
        unwind.destination() == Some(self.id)
    }

    /// Whether a deployment of this target can take `outcome` from its body.
    ///
    /// A body that returns has left the slot empty, and an escape that names
    /// the target has left its value there: the two exclude each other.
    pub open spec fn ready_for<E>(self, outcome: Result<T, Unwind<E>>) -> bool {
        match outcome {
            Ok(_) => self.payload is None,
            Err(unwind) => self.claims(unwind) ==> self.payload is Some,
        }
    }

    /// What a deployment of this target answers when its body ends with
    /// `outcome`: a returned value as it is, the stored value for an escape
    /// that names this target, and every other exit unchanged.
    pub open spec fn intercept<E>(self, outcome: Result<T, Unwind<E>>) -> Result<T, Unwind<E>> {
        match outcome {
            Ok(value) => Ok(value),
            Err(unwind) => if self.claims(unwind) {
                Ok(self.payload->Some_0)
            } else {
                Err(unwind)
            },
        }
    }
}

/// The landing point of an escape: an identity and a slot for the value that
/// an escape delivers.
///
/// A target lives for one deployment. `deploy` opens it, lends it to the body
/// for the length of the call and uses it up when the body is back, so no
/// reference to it outlasts its deployment. Its slot is written at most once.
#[derive(Debug)]
pub struct BreakTarget<T> {
    id: u64,
    slot: Option<T>,
    /// Ties the target to the thread of its deployment: neither the target nor
    /// a reference to it can be sent to another one.
    one_stack: std::marker::PhantomData<std::rc::Rc<()>>,
}

impl<T> View for BreakTarget<T> {
    type V = TargetView<T>;

    closed spec fn view(&self) -> TargetView<T> {
        TargetView { id: self.id, payload: self.slot }
    }
}

impl<T> BreakTarget<T> {
    pub(crate) fn with_id(id: u64) -> (target: Self)
        ensures
            target@ == TargetView::<T>::fresh(id),
    {
        BreakTarget { id, slot: None, one_stack: std::marker::PhantomData }
    }

    /// The id that requests aimed at this target carry.
    pub fn id(&self) -> (id: u64)
        ensures
            id == self@.id,
    {
        self.id
    }

    /// Whether an escape has left a value in the slot.
    pub fn is_armed(&self) -> (armed: bool)
        ensures
            armed == (self@.payload is Some),
    {
        self.slot.is_some()
    }

    /// Requests an escape to this target with `data`.
    ///
    /// Stores `data` in the slot, which must still be empty, and returns the
    /// request to send up the stack: the caller ends with
    /// `Err(Unwind::Escape(request))`, and so does every frame above it, up to
    /// the deployment of this target.
    pub fn break_with(&mut self, data: T) -> (request: BreakRequest)
        requires
            old(self)@.payload is None,
        ensures
            final(self)@ == old(self)@.break_with(data),
            request@ == old(self)@.id,
    {
        self.slot = Some(data);
        BreakRequest::aimed_at(self.id)
    }

    /// Whether `unwind` is an escape that names this target.
    pub fn claims<E>(&self, unwind: &Unwind<E>) -> (mine: bool)
        ensures
            mine == self@.claims(*unwind),
    {
        match unwind {
            Unwind::Escape(request) => request.marker() == self.id,
            Unwind::Failure(_) => false,
        }
    }

    /// Whether [`intercept`](Self::intercept) may be called with `outcome`.
    pub fn ready_for<E>(&self, outcome: &Result<T, Unwind<E>>) -> (ready: bool)
        ensures
            ready == self@.ready_for(*outcome),
    {
        match outcome {
            Ok(_) => self.slot.is_none(),
            Err(unwind) => !self.claims(unwind) || self.slot.is_some(),
        }
    }

    /// Decides what the deployment of this target answers, given how its body
    /// ended, and uses the target up.
    ///
    /// A value the body returned is the answer. An escape that names this
    /// target is consumed and the stored value is the answer. An escape that
    /// names another target, and any failure, goes on upwards as it came.
    pub fn intercept<E>(self, outcome: Result<T, Unwind<E>>) -> (answer: Result<T, Unwind<E>>)
        requires
            self@.ready_for(outcome),
        ensures
            answer == self@.intercept(outcome),
    {
        match outcome {
            Ok(value) => Ok(value),
            Err(unwind) => {
                if self.claims(&unwind) {
                    Ok(self.slot.unwrap())
                } else {
                    Err(unwind)
                }
            },
        }
    }

    /// Deploys a target around `func`.
    ///
    /// The target is opened from `ids`, so its id is one that `ids` has never
    /// handed out. `func` runs once, on that target and on `ids` as the source
    /// for the deployments that it makes in turn. The deployment then answers
    /// as [`intercept`](Self::intercept) decides on the slot as `func` left it,
    /// under the id that was handed out here. Whatever `func` did to `ids`,
    /// that id and the ids handed out before it stay handed out.
    pub fn deploy<E, F>(ids: &mut TargetIds, func: F) -> (answer: Result<T, Unwind<E>>) where
        F: FnOnce(&mut BreakTarget<T>, &mut TargetIds) -> Result<T, Unwind<E>>,

        requires
            old(ids).has_room(),
            forall|target: &mut BreakTarget<T>, rest: &mut TargetIds|
                target@ == TargetView::<T>::fresh(old(ids)@) && rest@ == old(ids)@ + 1
                    ==> call_requires(func, (target, rest)),
            forall|target: &mut BreakTarget<T>, rest: &mut TargetIds, outcome: Result<T, Unwind<E>>|
                target@ == TargetView::<T>::fresh(old(ids)@) && rest@ == old(ids)@ + 1
                    && call_ensures(func, (target, rest), outcome)
                    ==> final(target)@.with_id(old(ids)@).ready_for(outcome),
        ensures
            final(ids)@ > old(ids)@,
            exists|target: &mut BreakTarget<T>, rest: &mut TargetIds, outcome: Result<T, Unwind<E>>|
                target@ == TargetView::<T>::fresh(old(ids)@) && rest@ == old(ids)@ + 1
                    && call_ensures(func, (target, rest), outcome)
                    && final(ids)@ == TargetIds::kept_above(final(rest)@, old(ids)@)
                    && answer == final(target)@.with_id(old(ids)@).intercept(outcome),
    {
        let mut target = ids.open();
        let id = target.id;
        let outcome = func(&mut target, ids);
        ids.keep_above(id);
        let BreakTarget { id: _, slot, one_stack } = target;
        let deployed = BreakTarget { id, slot, one_stack };
        deployed.intercept(outcome)
    }
}

} // verus!
