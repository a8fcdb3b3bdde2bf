//! Decision logic of a scheduled health probe.
//!
//! One invocation takes a trigger that names a URL, has that URL fetched once,
//! classifies what came back and, when the target answered with a server-side
//! failure, has one alert posted to a chat channel. The network calls and the
//! environment are the caller's business: this crate decides what to do next
//! from what the caller reports, and states those decisions as contracts.

pub mod invocation;
pub mod laws;
pub mod notifier;
pub mod outcome;
pub mod prober;
pub mod reply;
pub mod request;
