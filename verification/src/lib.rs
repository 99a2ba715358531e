//! A single-slot, mutually exclusive value cell and a one-value rendezvous
//! channel built on top of it.
//!
//! [`cell::PingPongCell`] holds at most one value and changes only through
//! whole transactions on its slot; its contracts pin down the effect of every
//! transaction. [`channel`] layers the oneshot protocol over one such cell:
//! a single sender and a single receiver exchange exactly one value, either
//! side may close, and a suspended party is woken through an opaque wake
//! handle that the caller's scheduler supplies.
//!
//! The crate verifies the serialized behaviour: each `&mut self` method is
//! one transaction, and a shell that shares a cell or an endpoint across
//! threads must guard it with a mutual-exclusion primitive and perform one
//! method call per critical section. Wake handles returned by the channel
//! operations must be invoked after the critical section ends, so a wake is
//! only a hint: a woken party re-examines the state on its next step.

pub mod cell;
pub mod channel;

pub use cell::PingPongCell;
