//! Small utilities shared by the rest of the kernel.

pub mod bytes;
pub mod queue;
