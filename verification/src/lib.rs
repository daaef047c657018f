//! Escape-only non-local exits.
//!
//! [`BreakTarget::deploy`] opens a target, runs a body against it and hands
//! back what the body produced. Anywhere below the body, however deep,
//! [`BreakTarget::break_with`] leaves a value in the target and mints a
//! [`BreakRequest`] naming it. The request travels up the call stack inside
//! [`Unwind::Escape`], in the error position of each frame's `Result`, until it
//! meets the deployment whose target it names; that deployment answers with the
//! stored value as if the body had returned it. Deployments of other targets,
//! and every failure that is no escape, are passed on exactly as they came.
//!
//! Targets are told apart by their id and by nothing else: two targets that
//! hold equal values are still two targets. The ids come from a [`TargetIds`],
//! which never hands one out twice; a deployment takes its id from the source
//! it is given and passes the source on to its body for the deployments made
//! there.
//!
//! A target's slot is written once at most. A body either returns and leaves
//! the slot empty, or requests an escape and sends the request up.
//!
//! The decision a deployment takes when its body comes back,
//! [`BreakTarget::intercept`], is also offered on its own, for callers that
//! carry requests over another transport.

pub mod ids;
pub mod laws;
pub mod signal;
pub mod target;

pub use ids::TargetIds;
pub use signal::{BreakRequest, Unwind};
pub use target::{BreakTarget, TargetView};
