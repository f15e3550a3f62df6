//! A verified core for a single-operation posting service: one fixed-layout
//! record type ("tweet") and the one operation that creates a record after
//! validating its two bounded text fields.
//!
//! The host execution environment (signature checks, storage allocation,
//! the clock, transaction ordering) stays outside this crate; it hands the
//! operation plain values and a freshly allocated record slot.

pub mod schema;
pub mod tweet;
