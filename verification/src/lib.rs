//! A self-rearming periodic timer on top of a one-shot host timer.
//!
//! The host offers a wrapping tick counter and a one-shot timer handle that
//! it fires once at an absolute tick. Periodicity comes from the expiration
//! callback submitting the same handle again. This crate holds the rules of
//! that protocol: the tick arithmetic, the life cycle of the handle, and a
//! deterministic host on which the protocol can be run step by step.

pub mod host;
pub mod ticks;
pub mod timer;
