//! A host-side counter that an embedded guest drains one value (or one batch)
//! per call, the native sum it is checked against, and the guest program that
//! does the draining.
pub mod counter;
pub mod guest;
