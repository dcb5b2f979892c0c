//! Building blocks shared by the channels.

pub mod queue;
pub mod wait;
