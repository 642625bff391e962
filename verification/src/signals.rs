//! Signal names and their classification.
//!
//! The watcher registers for the interrupt, terminate and quit signals plus
//! one configurable restart signal, and classifies every delivery into a
//! termination or a restart event.  Only the name validation and the
//! classification are decided here; subscribing to the OS and awaiting
//! deliveries is the runtime's work.

use vstd::prelude::*;
use crate::text::{eq_ignore_case, spec_eq_ignore_case};

verus! {

/// A signal the supervisor watches.
#[derive(Debug, Clone, Copy, PartialEq, Eq, Structural)]
pub enum Sig {
    Int,
    Term,
    Quit,
    Usr1,
    Usr2,
    Hup,
}

impl Sig {
    /// Conventional name of the signal.
    pub open spec fn spec_name(self) -> Seq<char> {
        match self {
            Sig::Int => "SIGINT"@,
            Sig::Term => "SIGTERM"@,
            Sig::Quit => "SIGQUIT"@,
            Sig::Usr1 => "SIGUSR1"@,
            Sig::Usr2 => "SIGUSR2"@,
            Sig::Hup => "SIGHUP"@,
        }
    }

    /// Conventional name of the signal, for log lines.
    pub fn name(&self) -> (r: &'static str)
        ensures
            r@ == self.spec_name(),
    {
        match self {
            Sig::Int => "SIGINT",
            Sig::Term => "SIGTERM",
            Sig::Quit => "SIGQUIT",
            Sig::Usr1 => "SIGUSR1",
            Sig::Usr2 => "SIGUSR2",
            Sig::Hup => "SIGHUP",
        }
    }
}

/// A classified signal delivery, consumed exactly once by the supervisor.
#[derive(Debug, Clone, Copy, PartialEq, Eq, Structural)]
pub enum SignalEvent {
    /// An interrupt, terminate or quit signal: shut down.
    Terminate(Sig),
    /// The configured restart signal: restart the child.
    Restart(Sig),
}

/// The restart signal `name` designates, if it is one of the supported
/// alternatives (matched without regard to ASCII case, with or without the
/// `SIG` prefix).
pub open spec fn spec_restart_sig(name: Seq<char>) -> Option<Sig> {
    if spec_eq_ignore_case(name, "SIGUSR1"@) || spec_eq_ignore_case(name, "USR1"@) {
        Some(Sig::Usr1)
    } else if spec_eq_ignore_case(name, "SIGUSR2"@) || spec_eq_ignore_case(name, "USR2"@) {
        Some(Sig::Usr2)
    } else if spec_eq_ignore_case(name, "SIGHUP"@) || spec_eq_ignore_case(name, "HUP"@) {
        Some(Sig::Hup)
    } else {
        None
    }
}

/// How one signal delivery is classified: the termination signals end the
/// supervisor, the restart candidates trigger a restart.
pub open spec fn spec_classify(s: Sig) -> SignalEvent {
    match s {
        Sig::Int => SignalEvent::Terminate(s),
        Sig::Term => SignalEvent::Terminate(s),
        Sig::Quit => SignalEvent::Terminate(s),
        Sig::Usr1 => SignalEvent::Restart(s),
        Sig::Usr2 => SignalEvent::Restart(s),
        Sig::Hup => SignalEvent::Restart(s),
    }
}

/// The restart-signal name was not one of the supported alternatives.
#[derive(Debug, Clone, Copy, PartialEq, Eq, Structural)]
pub enum SignalError {
    UnsupportedSignal,
}

/// Validated signal subscription: which signals to watch and how to read
/// each delivery.
#[derive(Debug, Clone, Copy, PartialEq, Eq, Structural)]
pub struct SignalHandler {
    /// The configured restart signal.
    pub restart_signal: Sig,
}

impl SignalHandler {
    /// Validate the restart-signal name.  Succeeds exactly on the supported
    /// alternatives; anything else is rejected before the loop starts.
    pub fn new(restart_signal_name: &str) -> (r: Result<SignalHandler, SignalError>)
        ensures
            match r {
                Ok(h) => spec_restart_sig(restart_signal_name@) == Some(h.restart_signal),
                Err(e) => spec_restart_sig(restart_signal_name@) is None && e
                    == SignalError::UnsupportedSignal,
            },
    {
        if eq_ignore_case(restart_signal_name, "SIGUSR1") || eq_ignore_case(
            restart_signal_name,
            "USR1",
        ) {
            Ok(SignalHandler { restart_signal: Sig::Usr1 })
        } else if eq_ignore_case(restart_signal_name, "SIGUSR2") || eq_ignore_case(
            restart_signal_name,
            "USR2",
        ) {
            Ok(SignalHandler { restart_signal: Sig::Usr2 })
        } else if eq_ignore_case(restart_signal_name, "SIGHUP") || eq_ignore_case(
            restart_signal_name,
            "HUP",
        ) {
            Ok(SignalHandler { restart_signal: Sig::Hup })
        } else {
            Err(SignalError::UnsupportedSignal)
        }
    }

    /// The signals the runtime must subscribe to: the three termination
    /// signals and the configured restart signal.
    pub fn watched_signals(&self) -> (v: Vec<Sig>)
        ensures
            v@ == seq![Sig::Int, Sig::Term, Sig::Quit, self.restart_signal],
    {
        let v: Vec<Sig> = vec![Sig::Int, Sig::Term, Sig::Quit, self.restart_signal];
        assert(v@ =~= seq![Sig::Int, Sig::Term, Sig::Quit, self.restart_signal]);
        v
    }

    /// Classify one delivered signal.
    pub fn classify(&self, s: Sig) -> (e: SignalEvent)
        ensures
            e == spec_classify(s),
    {
        match s {
            Sig::Int => SignalEvent::Terminate(s),
            Sig::Term => SignalEvent::Terminate(s),
            Sig::Quit => SignalEvent::Terminate(s),
            Sig::Usr1 => SignalEvent::Restart(s),
            Sig::Usr2 => SignalEvent::Restart(s),
            Sig::Hup => SignalEvent::Restart(s),
        }
    }
}

} // verus!
