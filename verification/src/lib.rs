//! Core of a single-child process supervisor.
//!
//! The supervisor keeps one external command running, restarts it on demand
//! (OS signal or terminal hotkey, debounced), and guarantees that the child
//! and its whole process group are terminated when the supervisor shuts down.
//!
//! This crate holds the verified control core: the debouncer, the signal
//! classification, the child-lifecycle bookkeeping with its spawn/termination
//! directives, and the event-loop state machine.  The unverified runtime
//! around it performs the actual OS calls that the directives describe and
//! feeds the resulting events back in.

pub mod cli;
pub mod debounce;
pub mod hotkey;
pub mod output;
pub mod process;
pub mod signals;
pub mod supervisor;
pub mod text;
