//! The control core: one event loop state machine.
//!
//! The supervisor merges three event sources — classified OS signals, the
//! optional restart hotkey, and child exit — into one sequential state
//! machine.  Each call to [`Supervisor::step`] consumes exactly one event,
//! moves the machine, and returns the action the runtime must perform
//! before the next event is considered.  Restart triggers pass through one
//! shared debouncer, whichever source they came from.
//!
//! States follow `Starting -> Running <-> ChildAbsent -> (Running |
//! Stopped)`, with `ShuttingDown -> Stopped` reachable from both running
//! states.  `Stopped` is terminal: `step` is never called on it again.

use vstd::prelude::*;
use crate::debounce::RestartGate;
use crate::process::{ExitStatus, ProcessError, ProcessManager, TermDirective};
use crate::signals::{SignalEvent, SignalHandler};

verus! {

/// Where the loop stands.
#[derive(Debug, Clone, Copy, PartialEq, Eq, Structural)]
pub enum RunState {
    /// Before the first spawn succeeded.
    Starting,
    /// A child is present and being awaited.
    Running,
    /// The child exited, the loop lives on listening for triggers.
    ChildAbsent,
    /// A termination was accepted; the child is being torn down.
    ShuttingDown,
    /// Terminal: the loop has ended.
    Stopped,
}

/// One event, consumed exactly once.
#[derive(Debug, Clone, Copy, PartialEq, Eq)]
pub enum Event {
    /// A classified OS signal.
    Signal(SignalEvent),
    /// The configured restart hotkey was pressed with no modifiers.
    Hotkey,
    /// The current child exited and was reaped with this status.
    ChildExited(ExitStatus),
    /// Reaping the child failed; its fate cannot be determined, so the
    /// supervisor cannot safely continue.
    WaitFailed,
}

/// What the runtime must perform after a step, before the next event.
#[derive(Debug, Clone, Copy, PartialEq, Eq, Structural)]
pub enum Action {
    /// Nothing; wait for the next event.
    Continue,
    /// A restart trigger was denied by the debouncer; nothing changes,
    /// the denial is only logged with the remaining wait.
    Denied { remaining_ms: u64 },
    /// Tear the child down (`begin_shutdown`, then the escalation), then
    /// acknowledge with `note_shutdown_complete` and end the loop.
    ShutdownAndStop,
    /// Full restart: tear the current child down, then launch a new one
    /// and acknowledge it with `note_spawned`.  Never overlapping: the
    /// shutdown half completes before the spawn half begins.
    Restart,
    /// Launch a child (none is present) and acknowledge it with
    /// `note_spawned`.
    Spawn,
    /// End the loop; no child is left to clean up.
    Stop,
}

/// The supervisor: configuration, debouncer, child bookkeeping, and
/// the loop state.
#[derive(Debug)]
pub struct Supervisor {
    /// Lifecycle bookkeeping of the one child.
    pub process_manager: ProcessManager,
    /// The validated signal subscription.
    pub signal_handler: SignalHandler,
    /// End the loop when the child exits on its own.
    pub stop_on_child_exit: bool,
    /// The configured restart hotkey character.
    pub restart_hotkey: char,
    /// The shared debouncer for restart triggers of either source.
    pub debounce: RestartGate,
    /// Where the loop stands.
    pub state: RunState,
    /// Status of the last child exit the loop observed, if any.
    pub last_exit: Option<ExitStatus>,
}

impl Supervisor {
    /// The loop state never disagrees with the child bookkeeping.
    pub open spec fn inv(self) -> bool {
        &&& (self.state == RunState::Starting ==> !self.process_manager.running())
        &&& (self.state == RunState::Running ==> self.process_manager.running())
        &&& (self.state == RunState::ChildAbsent ==> !self.process_manager.running())
        &&& (self.state == RunState::Stopped ==> !self.process_manager.running())
    }

    /// What one event does: the successor supervisor and the action the
    /// runtime must perform.
    pub open spec fn spec_step(self, event: Event, now_ms: u64) -> (Supervisor, Action) {
        match event {
            Event::Signal(SignalEvent::Terminate(_)) => (
                (Supervisor { state: RunState::ShuttingDown, ..self }),
                Action::ShutdownAndStop,
            ),
            Event::WaitFailed => (
                (Supervisor { state: RunState::ShuttingDown, ..self }),
                Action::ShutdownAndStop,
            ),
            Event::Signal(SignalEvent::Restart(_)) => self.spec_restart_trigger(now_ms),
            Event::Hotkey => self.spec_restart_trigger(now_ms),
            Event::ChildExited(status) => {
                if self.state == RunState::Running {
                    let pm = self.process_manager.spec_wait(status).0;
                    if self.stop_on_child_exit {
                        (
                            (Supervisor {
                                process_manager: pm,
                                state: RunState::Stopped,
                                last_exit: Some(status),
                                ..self
                            }),
                            Action::Stop,
                        )
                    } else {
                        (
                            (Supervisor {
                                process_manager: pm,
                                state: RunState::ChildAbsent,
                                last_exit: Some(status),
                                ..self
                            }),
                            Action::Continue,
                        )
                    }
                } else {
                    (self, Action::Continue)
                }
            },
        }
    }

    /// What a restart trigger does, whichever source it came from: consult
    /// the shared debouncer; when denied, nothing; when allowed, a restart of
    /// the present child, or a plain spawn when none is present.
    pub open spec fn spec_restart_trigger(self, now_ms: u64) -> (Supervisor, Action) {
        let (debounce, allowed, remaining) = self.debounce.spec_should_allow(now_ms);
        if !allowed {
            (self, (Action::Denied { remaining_ms: remaining }))
        } else if self.state == RunState::Running {
            ((Supervisor { debounce, ..self }), Action::Restart)
        } else {
            ((Supervisor { debounce, ..self }), Action::Spawn)
        }
    }

    /// Compose a supervisor around a fresh manager.  The loop starts in
    /// `Starting`; the first spawn is acknowledged with `note_spawned`.
    pub fn new(
        process_manager: ProcessManager,
        signal_handler: SignalHandler,
        stop_on_child_exit: bool,
        restart_hotkey: char,
        debounce_ms: u64,
    ) -> (s: Supervisor)
        requires
            !process_manager.running(),
        ensures
            s == (Supervisor {
                process_manager,
                signal_handler,
                stop_on_child_exit,
                restart_hotkey,
                debounce: RestartGate { debounce_ms, last_restart_ms: None },
                state: RunState::Starting,
                last_exit: None,
            }),
            s.inv(),
    {
        Supervisor {
            process_manager,
            signal_handler,
            stop_on_child_exit,
            restart_hotkey,
            debounce: RestartGate::new(debounce_ms),
            state: RunState::Starting,
            last_exit: None,
        }
    }

    /// Consume one event.  The caller performs the returned action — and
    /// its acknowledgments — before feeding the next event.
    pub fn step(&mut self, event: Event, now_ms: u64) -> (a: Action)
        requires
            old(self).inv(),
            old(self).state == RunState::Running || old(self).state == RunState::ChildAbsent,
        ensures
            (*final(self), a) == old(self).spec_step(event, now_ms),
            final(self).inv(),
    {
        match event {
            Event::Signal(SignalEvent::Terminate(_)) => {
                self.state = RunState::ShuttingDown;
                Action::ShutdownAndStop
            },
            Event::WaitFailed => {
                self.state = RunState::ShuttingDown;
                Action::ShutdownAndStop
            },
            Event::Signal(SignalEvent::Restart(_)) => self.restart_trigger(now_ms),
            Event::Hotkey => self.restart_trigger(now_ms),
            Event::ChildExited(status) => {
                if self.state == RunState::Running {
                    let _ = self.process_manager.wait(status);
                    self.last_exit = Some(status);
                    if self.stop_on_child_exit {
                        self.state = RunState::Stopped;
                        Action::Stop
                    } else {
                        self.state = RunState::ChildAbsent;
                        Action::Continue
                    }
                } else {
                    Action::Continue
                }
            },
        }
    }

    /// Consume one restart trigger through the shared debouncer.
    fn restart_trigger(&mut self, now_ms: u64) -> (a: Action)
        ensures
            (*final(self), a) == old(self).spec_restart_trigger(now_ms),
    {
        let (allowed, remaining) = self.debounce.should_allow(now_ms);
        if !allowed {
            Action::Denied { remaining_ms: remaining }
        } else if self.state == RunState::Running {
            Action::Restart
        } else {
            Action::Spawn
        }
    }

    /// Acknowledge a successful launch: the runtime obtained `pid` from
    /// the OS, for the first spawn, the spawn half of a restart, or a
    /// respawn out of `ChildAbsent`.  The loop is in `Running` afterwards.
    pub fn note_spawned(&mut self, pid: u32) -> (r: Result<(), ProcessError>)
        requires
            old(self).state == RunState::Starting || old(self).state == RunState::Running || old(
                self,
            ).state == RunState::ChildAbsent,
            !old(self).process_manager.running(),
        ensures
            r == Ok::<(), ProcessError>(()),
            *final(self) == (Supervisor {
                process_manager: old(self).process_manager.spec_spawn(pid).0,
                state: RunState::Running,
                ..*old(self)
            }),
            final(self).inv(),
    {
        let r = self.process_manager.spawn(pid);
        self.state = RunState::Running;
        r
    }

    /// The shutdown half of a termination or of a restart: clears the
    /// child and hands out its termination order (none when no child is
    /// present).  The loop state is untouched; a restart stays `Running`
    /// and a termination stays `ShuttingDown` until acknowledged.
    pub fn begin_shutdown(&mut self) -> (r: Option<TermDirective>)
        ensures
            (final(self).process_manager, r) == old(self).process_manager.spec_shutdown(),
            !final(self).process_manager.running(),
            *final(self) == (Supervisor {
                process_manager: final(self).process_manager,
                ..*old(self)
            }),
    {
        self.process_manager.shutdown()
    }

    /// Acknowledge that the shutdown ordered by `ShutdownAndStop` has been
    /// performed: the loop is `Stopped` and must not be stepped again.
    pub fn note_shutdown_complete(&mut self)
        requires
            old(self).state == RunState::ShuttingDown,
            !old(self).process_manager.running(),
        ensures
            *final(self) == (Supervisor { state: RunState::Stopped, ..*old(self) }),
            final(self).inv(),
    {
        self.state = RunState::Stopped;
    }
}

/// `stop_on_child_exit` semantics.  With the flag set, the child's natural
/// exit stops the loop at once, and `Stopped` is terminal.  With the flag
/// clear, the loop survives the exit in `ChildAbsent`, and a later restart
/// trigger that the debouncer allows orders a fresh spawn.
pub proof fn lemma_stop_on_child_exit(
    s: Supervisor,
    status: ExitStatus,
    trigger: Event,
    now_exit: u64,
    now_trigger: u64,
)
    requires
        s.inv(),
        s.state == RunState::Running,
        trigger == Event::Hotkey || trigger matches Event::Signal(SignalEvent::Restart(_)),
    ensures
        s.stop_on_child_exit ==> ({
            let (s1, a1) = s.spec_step(Event::ChildExited(status), now_exit);
            s1.state == RunState::Stopped && a1 == Action::Stop && s1.last_exit == Some(status)
        }),
        !s.stop_on_child_exit ==> ({
            let (s1, a1) = s.spec_step(Event::ChildExited(status), now_exit);
            s1.state == RunState::ChildAbsent && a1 == Action::Continue
                && !s1.process_manager.running() && (s1.debounce.spec_should_allow(now_trigger).1
                ==> s1.spec_step(trigger, now_trigger).1 == Action::Spawn)
        }),
{
}

/// The state discipline protects the manager: a full restart is only
/// ordered while a child is present, a plain spawn only while none is —
/// so a runtime that performs the actions as ordered never runs into the
/// manager's defensive `AlreadyRunning` and `NotRunning` errors.
pub proof fn lemma_actions_respect_child_presence(s: Supervisor, event: Event, now_ms: u64)
    requires
        s.inv(),
        s.state == RunState::Running || s.state == RunState::ChildAbsent,
    ensures
        s.spec_step(event, now_ms).1 == Action::Restart ==> s.process_manager.running(),
        s.spec_step(event, now_ms).1 == Action::Spawn ==> !s.process_manager.running(),
{
}

/// With debouncing disabled, every restart trigger that arrives while a
/// child is present orders a full restart and leaves the supervisor
/// unchanged — so any number of triggers in rapid succession order one
/// restart each, none overlapping (each restart's shutdown half completes
/// before its spawn half, see `lemma_restart_never_overlaps`).
pub proof fn lemma_debounce_disabled_every_trigger_restarts(
    s: Supervisor,
    trigger: Event,
    now_ms: u64,
)
    requires
        s.inv(),
        s.state == RunState::Running,
        s.debounce.debounce_ms == 0,
        trigger == Event::Hotkey || trigger matches Event::Signal(SignalEvent::Restart(_)),
    ensures
        s.spec_step(trigger, now_ms) == (s, Action::Restart),
{
}

/// A terminate event ends the loop from either running state, through
/// `ShuttingDown`, whatever the debounce or the flag say.
pub proof fn lemma_terminate_always_stops(s: Supervisor, sig_event: SignalEvent, now_ms: u64)
    requires
        s.inv(),
        sig_event matches SignalEvent::Terminate(_),
    ensures
        s.spec_step(Event::Signal(sig_event), now_ms).0.state == RunState::ShuttingDown,
        s.spec_step(Event::Signal(sig_event), now_ms).1 == Action::ShutdownAndStop,
{
}

} // verus!
