//! Message passing between threads, as verified protocol state.
//!
//! A channel is a value that its endpoints act on. [`mpsc`] holds the
//! multi-producer, single-consumer channel with a message counter and a count
//! of live senders; [`directed`] holds its variant with one readiness flag
//! and one fixed consumer thread; [`oneshot`] holds the single-value slot in
//! its two ownership forms. Every transition states exactly what it does to
//! the channel, including whether the consumer sleeps or is woken, and the
//! blocking loops of a threaded front end are driven by the decision
//! functions found beside the transitions.

pub mod directed;
pub mod mpsc;
pub mod oneshot;
pub mod utils;
