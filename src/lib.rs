//! Sandboxing utilities: a builder for invocations of the `chroot` utility.

mod chroot;
pub mod laws;

pub use chroot::{join_commas, Chroot, ChrootView, Invocation};
