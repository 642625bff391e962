//! Debouncing of restart triggers.
//!
//! Every restart trigger, whether it came from a signal or from the hotkey,
//! passes through one debouncer, which allows a trigger when debouncing is
//! disabled, when no restart has been allowed yet, or when at least the
//! configured interval has passed since the last allowed restart; otherwise
//! it denies the trigger and reports how long the caller would have to wait.

use vstd::prelude::*;

verus! {

/// Debounce decision state over a monotonic millisecond clock.
#[derive(Debug)]
pub struct RestartGate {
    /// Debounce interval in milliseconds; zero disables debouncing.
    pub debounce_ms: u64,
    /// Instant of the last restart that was allowed, if any.
    pub last_restart_ms: Option<u64>,
}

impl RestartGate {
    /// What `should_allow` decides and how it moves the debouncer: the successor
    /// value, whether the trigger is allowed, and the remaining wait in
    /// milliseconds when it is denied.
    pub open spec fn spec_should_allow(self, now_ms: u64) -> (RestartGate, bool, u64) {
        if self.debounce_ms == 0 {
            (self, true, 0u64)
        } else {
            match self.last_restart_ms {
                None => (RestartGate { last_restart_ms: Some(now_ms), ..self }, true, 0u64),
                Some(last) => {
                    let elapsed = if now_ms >= last {
                        (now_ms - last) as u64
                    } else {
                        0u64
                    };
                    if elapsed >= self.debounce_ms {
                        (RestartGate { last_restart_ms: Some(now_ms), ..self }, true, 0u64)
                    } else {
                        (self, false, (self.debounce_ms - elapsed) as u64)
                    }
                },
            }
        }
    }

    pub fn new(debounce_ms: u64) -> (g: RestartGate)
        ensures
            g.debounce_ms == debounce_ms,
            g.last_restart_ms is None,
    {
        RestartGate { debounce_ms, last_restart_ms: None }
    }

    /// Decide one restart trigger arriving at `now_ms`.
    ///
    /// Returns whether the restart is allowed and, when it is denied, the
    /// remaining wait in milliseconds.  Only an allowed trigger is recorded;
    /// a denied one changes nothing, and with debouncing disabled
    /// nothing is ever recorded.
    pub fn should_allow(&mut self, now_ms: u64) -> (r: (bool, u64))
        ensures
            ({
                let (g, allowed, remaining) = old(self).spec_should_allow(now_ms);
                *final(self) == g && r.0 == allowed && r.1 == remaining
            }),
    {
        if self.debounce_ms == 0 {
            return (true, 0);
        }
        match self.last_restart_ms {
            None => {
                self.last_restart_ms = Some(now_ms);
                (true, 0)
            },
            Some(last) => {
                let elapsed: u64 = if now_ms >= last {
                    now_ms - last
                } else {
                    0
                };
                if elapsed >= self.debounce_ms {
                    self.last_restart_ms = Some(now_ms);
                    (true, 0)
                } else {
                    (false, self.debounce_ms - elapsed)
                }
            },
        }
    }
}

/// Two triggers separated by less than the interval: when the first is
/// allowed, the second is denied, reports exactly the rest of the interval,
/// and changes nothing that the first trigger had not already set.
pub proof fn lemma_debounce_denies_rapid_second_trigger(g: RestartGate, t1: u64, t2: u64)
    requires
        g.debounce_ms > 0,
        t1 <= t2,
        t2 - t1 < g.debounce_ms,
        g.spec_should_allow(t1).1,
    ensures
        ({
            let (g1, _, _) = g.spec_should_allow(t1);
            let (g2, allowed, remaining) = g1.spec_should_allow(t2);
            !allowed && remaining == g.debounce_ms - (t2 - t1) && g2 == g1
        }),
{
}

/// Two triggers separated by at least the interval: when the first is
/// allowed, so is the second.
pub proof fn lemma_debounce_allows_spaced_second_trigger(g: RestartGate, t1: u64, t2: u64)
    requires
        g.debounce_ms > 0,
        t1 <= t2,
        t2 - t1 >= g.debounce_ms,
        g.spec_should_allow(t1).1,
    ensures
        g.spec_should_allow(t1).0.spec_should_allow(t2).1,
{
}

/// With debouncing disabled every trigger is allowed, regardless of spacing,
/// and nothing is recorded.
pub proof fn lemma_debounce_disabled_always_allows(g: RestartGate, now_ms: u64)
    requires
        g.debounce_ms == 0,
    ensures
        g.spec_should_allow(now_ms) == (g, true, 0u64),
{
}

} // verus!
