//! An interning cache for primitive values that cross into an embedded
//! runtime.
//!
//! A host program hands the runtime boxed numbers, strings and booleans.
//! Boxing is not free, so each distinct literal is boxed once and the box is
//! reused for as long as its execution context lives. The library holds the
//! cache and its rules; how a box is made is the caller's business and comes
//! in as a builder.
pub mod bitwise;
pub mod cacher;
pub mod registry;
pub mod memo;
pub mod laws;
pub mod intern;
pub mod eligibility;
