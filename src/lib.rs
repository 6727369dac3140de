//! Lifetimes of references into a garbage-collected foreign runtime, and
//! pinning of its primitive arrays.
//!
//! Every operation here decides which foreign call is to be made and what the
//! runtime's answer means; the caller makes the call through its environment
//! and hands back what it returned and whether an exception is pending.
pub mod calls;
pub mod error;
pub mod global_ref;
pub mod jarray;
pub mod local_ref;
pub mod objects;
