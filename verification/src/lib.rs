//! Decides when a recurring moment of the week has come and who is told about it.
//!
//! A moment is a class of day together with a window of the day. The library
//! classifies an instant, applies the skip policy and the per-destination
//! deduplication, and drives the dispatch loop and the subscription toggle as
//! state machines whose outside work (store, messaging, sleeping) is done by
//! the caller.

pub mod clock;
pub mod policy;
pub mod texts;
pub mod daytype;
pub mod subscription;
pub mod messages;
