//! Sandboxed render orchestration for untrusted typesetting source.
//!
//! Untrusted, user-submitted markup is rendered to an image by an external
//! engine that must never be trusted with host resources. This library is the
//! decision core of that system, with its behaviour stated in contracts and
//! machine-checked:
//!
//! - [`sandbox`]: one hard-isolated, resource-capped container invocation per
//!   request, run as a state machine that enforces a wall-clock deadline and
//!   force-kills the container by its exact name on expiry;
//! - [`protocol`]: the byte-level framing between the orchestrator and the
//!   renderer subprocess, on both streams;
//! - [`supervisor`]: the per-request orchestration, from a render request to
//!   the invocation and from the run's outcome to what the user may see;
//! - [`cache`]: the in-memory correlation between inbound messages, rendered
//!   responses and widening information;
//! - [`gate`]: action identifiers that embed their owner, and the ownership
//!   checks on follow-up actions;
//! - [`latexlog`] and [`wolfram`]: the engine-log and answer-image decision
//!   cores on the renderer and client sides.
//!
//! The process around the library does the outside work — container commands,
//! stream I/O, the chat front end — and hands the library plain values.
use vstd::prelude::*;

pub mod bytes;
pub mod cache;
pub mod digits;
pub mod gate;
pub mod latexlog;
pub mod outcome;
pub mod protocol;
pub mod sandbox;
pub mod supervisor;
pub mod wolfram;

verus! {

/// Rendering width variants for the typesetting engine: `Normal` for the
/// default page width, `Wide` for the widened re-render offered when a
/// normal-width render overflowed its bounds.
#[derive(Clone, Copy, PartialEq, Eq, Structural, Debug)]
pub enum ImageWidth {
    Wide,
    Normal,
}

impl ImageWidth {
    /// The command-line token naming this width variant.
    pub fn arg_name(self) -> (r: &'static str)
        ensures
            self == ImageWidth::Wide ==> r@ == "wide"@,
            self == ImageWidth::Normal ==> r@ == "normal"@,
    {
        match self {
            ImageWidth::Wide => "wide",
            ImageWidth::Normal => "normal",
        }
    }
}

} // verus!
