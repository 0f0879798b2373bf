//! Probing a compiler for the features it supports, by handing it small
//! programs and seeing whether it accepts them.
//!
//! A [`Probe`] holds the configuration. A probing method wraps the fragment
//! in question into a program ([`snippet`]), works out how the compiler is to
//! be invoked ([`invocation`]), and has the attempt made, again after a fault
//! as far as the configuration allows ([`retry`]). The attempt itself, the
//! start of a child process, is the caller's: it comes in as a function.

pub mod invocation;
pub mod probe;
pub mod retry;
pub mod snippet;

pub use invocation::{Invocation, Platform, Stream};
pub use probe::{Probe, DEFAULT_RUSTC, RUSTC_VARIABLE};
pub use retry::{retry_n_times, RunState};
