//! Single-use channels: one value, handed over once.

pub mod oneshot_arc;
pub mod oneshot_ptr;
