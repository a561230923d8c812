//! The executive core of a small single-address-space kernel: trap dispatch,
//! the session with its module registry, and single-use continuation hand-over.

pub mod action;
pub mod common;
pub mod debug;
pub mod handle;
pub mod laws;
pub mod mem;
pub mod session;
pub mod trap;
pub mod url;
