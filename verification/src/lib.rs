//! The decisions a desktop application shell takes when it starts.
//!
//! The shell registers a fixed set of host capabilities, in a fixed order,
//! hands control to the host's runtime, and ends in one of two ways once the
//! host hands control back. Talking to the host is left to the caller; this
//! crate says what is registered, in which order, and how startup ends.

pub mod capability;
pub mod exit;

pub use capability::{capabilities, registration_order, Capability};
pub use exit::{conclude, Exit, FAILURE_MESSAGE};
