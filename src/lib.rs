//! Two-party negotiation of four attributes (term, protocol, parameters and
//! stake) over alternating turns.
//!
//! - `codec` decodes the packed event word of a proposal;
//! - `state` holds the lifecycle of one attribute;
//! - `negotiation` holds the session and applies proposals atomically;
//! - `instructions` offers setup and proposal to callers;
//! - `laws` states and proves the properties that span several steps.
pub mod codec;
pub mod identity;
pub mod instructions;
pub mod laws;
pub mod negotiation;
pub mod proposal;
pub mod state;
