//! Child-process lifecycle.
//!
//! The manager owns the identity of the one supervised child: its command,
//! its arguments and, while one is present, its process id (which is also
//! its process-group id, because the child is always launched as the leader
//! of a new group).  Every lifecycle decision — whether a spawn is legal,
//! what a shutdown must send and to whom, when the grace period escalates
//! to a forced kill — is made and verified here; the runtime only performs
//! the OS calls the directives describe and reports their outcomes back.

use vstd::prelude::*;

verus! {

/// Grace period a child gets to exit voluntarily after the termination
/// signal, in milliseconds, before the shutdown escalates to a forced kill.
pub const GRACE_PERIOD_MS: u64 = 5000;

/// Violations of the manager's state discipline.  Under the supervisor's
/// verified call order these never occur; they remain as defensive results.
#[derive(Debug, Clone, Copy, PartialEq, Eq, Structural)]
pub enum ProcessError {
    /// A spawn was requested while a child is present.
    AlreadyRunning,
    /// A wait was requested while no child is present.
    NotRunning,
}

/// How the child must be launched.  The runtime must honor every flag.
#[derive(Debug, Clone, Copy, PartialEq, Eq, Structural)]
pub struct SpawnDirective {
    /// Launch the child as the leader of a new process group, so a signal
    /// to the group reaches it and all of its descendants.
    pub new_process_group: bool,
    /// Capture stdout and stderr as byte streams for line forwarding.
    pub capture_output: bool,
    /// Reclaim the OS child if the handle is dropped before an explicit
    /// shutdown; the child must never be leaked as a zombie.
    pub kill_on_drop: bool,
}

/// An order to send the termination signal and await a voluntary exit.
#[derive(Debug, Clone, Copy, PartialEq, Eq, Structural)]
pub struct TermDirective {
    /// Process id of the child, which is also its process-group id.
    pub pid: u32,
    /// Address the whole process group, never only the direct child.
    pub whole_group: bool,
    /// How long to wait for a voluntary exit before escalating, in
    /// milliseconds.
    pub grace_ms: u64,
}

/// An order to kill forcibly and wait unconditionally.
#[derive(Debug, Clone, Copy, PartialEq, Eq, Structural)]
pub struct KillDirective {
    /// Process id of the child, which is also its process-group id.
    pub pid: u32,
    /// Address the whole process group, never only the direct child.
    pub whole_group: bool,
}

/// Exit status of a reaped child: its exit code, or none when a signal
/// ended it.
#[derive(Debug, Clone, Copy, PartialEq, Eq)]
pub struct ExitStatus {
    pub code: Option<i32>,
}

impl ExitStatus {
    /// The child exited voluntarily with code zero.
    pub open spec fn spec_success(self) -> bool {
        self.code == Some(0i32)
    }

    /// The child exited voluntarily with code zero.
    pub fn success(&self) -> (r: bool)
        ensures
            r == self.spec_success(),
    {
        match self.code {
            Some(c) => c == 0,
            None => false,
        }
    }
}

/// Bookkeeping for the one supervised child.
#[derive(Debug)]
pub struct ProcessManager {
    /// Command path of the child.
    pub command: String,
    /// Arguments of the child.
    pub args: Vec<String>,
    /// Process id of the current child, while one is present.
    pub child: Option<u32>,
}

impl ProcessManager {
    /// A child is currently recorded.
    pub open spec fn running(self) -> bool {
        self.child is Some
    }

    /// What a spawn does: refused while a child is present, otherwise the
    /// new child is recorded.
    pub open spec fn spec_spawn(self, pid: u32) -> (ProcessManager, Result<(), ProcessError>) {
        if self.running() {
            (self, Err(ProcessError::AlreadyRunning))
        } else {
            ((ProcessManager { child: Some(pid), ..self }), Ok(()))
        }
    }

    /// What reaping does: refused while no child is present, otherwise the
    /// child is cleared and the status handed through.
    pub open spec fn spec_wait(self, status: ExitStatus) -> (
        ProcessManager,
        Result<ExitStatus, ProcessError>,
    ) {
        if self.running() {
            ((ProcessManager { child: None, ..self }), Ok(status))
        } else {
            (self, Err(ProcessError::NotRunning))
        }
    }

    /// What a shutdown does: a no-op without a child, otherwise the child
    /// is cleared and the termination order — the whole process group, the
    /// full grace period — is handed out.
    pub open spec fn spec_shutdown(self) -> (ProcessManager, Option<TermDirective>) {
        match self.child {
            Some(pid) => (
                (ProcessManager { child: None, ..self }),
                Some(TermDirective { pid, whole_group: true, grace_ms: GRACE_PERIOD_MS }),
            ),
            None => (self, None),
        }
    }

    pub fn new(command: String, args: Vec<String>) -> (pm: ProcessManager)
        ensures
            pm.command == command,
            pm.args == args,
            !pm.running(),
    {
        ProcessManager { command, args, child: None }
    }

    /// Cheap, non-blocking presence check, used to choose between restart
    /// and plain spawn when a restart trigger arrives.
    pub fn is_running(&self) -> (r: bool)
        ensures
            r == self.running(),
    {
        self.child.is_some()
    }

    /// Flags the runtime must launch the child with.
    pub fn spawn_directive(&self) -> (d: SpawnDirective)
        ensures
            d == (SpawnDirective { new_process_group: true, capture_output: true, kill_on_drop: true }),
    {
        SpawnDirective { new_process_group: true, capture_output: true, kill_on_drop: true }
    }

    /// Record a successful launch: the runtime obtained `pid` from the OS
    /// after launching per `spawn_directive`.  Refused with `AlreadyRunning`
    /// while a child is present.
    pub fn spawn(&mut self, pid: u32) -> (r: Result<(), ProcessError>)
        ensures
            (*final(self), r) == old(self).spec_spawn(pid),
    {
        if self.child.is_some() {
            Err(ProcessError::AlreadyRunning)
        } else {
            self.child = Some(pid);
            Ok(())
        }
    }

    /// Record that the OS reaped the current child with `status`.  The
    /// manager is empty afterwards and a new spawn is legal.  Refused with
    /// `NotRunning` while no child is present.
    pub fn wait(&mut self, status: ExitStatus) -> (r: Result<ExitStatus, ProcessError>)
        ensures
            (*final(self), r) == old(self).spec_wait(status),
    {
        if self.child.is_some() {
            self.child = None;
            Ok(status)
        } else {
            Err(ProcessError::NotRunning)
        }
    }

    /// Begin shutdown.  Idempotent: without a child there is nothing to do.
    /// Otherwise the child is cleared and the returned order tells the
    /// runtime to signal the whole process group and await a voluntary exit
    /// for the grace period; `escalation` decides what follows.  Every path
    /// converges to no child present.
    pub fn shutdown(&mut self) -> (r: Option<TermDirective>)
        ensures
            (*final(self), r) == old(self).spec_shutdown(),
            !final(self).running(),
    {
        match self.child {
            Some(pid) => {
                self.child = None;
                Some(TermDirective { pid, whole_group: true, grace_ms: GRACE_PERIOD_MS })
            },
            None => None,
        }
    }
}

/// What follows the grace period of `d`: nothing when the child exited in
/// time; otherwise an unconditional kill of the whole process group, after
/// which the runtime waits without a timeout.
pub open spec fn spec_escalation(d: TermDirective, exited_within_grace: bool) -> Option<
    KillDirective,
> {
    if exited_within_grace {
        None
    } else {
        Some(KillDirective { pid: d.pid, whole_group: true })
    }
}

/// Decide the follow-up once the grace period of `d` has been awaited.
pub fn escalation(d: &TermDirective, exited_within_grace: bool) -> (r: Option<KillDirective>)
    ensures
        r == spec_escalation(*d, exited_within_grace),
{
    if exited_within_grace {
        None
    } else {
        Some(KillDirective { pid: d.pid, whole_group: true })
    }
}

/// At most one child at a time: while a child is present, a further spawn
/// is refused with `AlreadyRunning` and records nothing.
pub proof fn lemma_spawn_refused_while_running(pm: ProcessManager, pid: u32)
    requires
        pm.running(),
    ensures
        pm.spec_spawn(pid) == (pm, Err::<(), ProcessError>(ProcessError::AlreadyRunning)),
{
}

/// A restart never overlaps two children: once its shutdown half has
/// completed, no child is present, and its spawn half then succeeds and
/// records exactly the new child.
pub proof fn lemma_restart_never_overlaps(pm: ProcessManager, pid: u32)
    ensures
        !pm.spec_shutdown().0.running(),
        pm.spec_shutdown().0.spec_spawn(pid).1 == Ok::<(), ProcessError>(()),
        pm.spec_shutdown().0.spec_spawn(pid).0.child == Some(pid),
{
}

/// Shutdown convergence: whatever the child does — exit within the grace
/// period or ignore the termination signal — the shutdown leaves no child
/// recorded, and an ignored signal escalates to an unconditional kill.
pub proof fn lemma_shutdown_converges(pm: ProcessManager, exited_within_grace: bool)
    ensures
        !pm.spec_shutdown().0.running(),
        pm.running() && !exited_within_grace ==> (pm.spec_shutdown().1 matches Some(d)
            && spec_escalation(d, false) is Some),
{
}

/// Process-group completeness: both termination orders of a shutdown — the
/// graceful one and the escalated kill — address the whole process group of
/// the recorded child, so descendants the child spawned are signaled too.
pub proof fn lemma_shutdown_targets_process_group(pm: ProcessManager)
    requires
        pm.running(),
    ensures
        pm.spec_shutdown().1 matches Some(d) && d.whole_group && pm.child == Some(d.pid)
            && (spec_escalation(d, false) matches Some(k) && k.whole_group && k.pid == d.pid),
{
}

} // verus!
