//! Waiting for a freshly started server to answer: a probe every half
//! second, at most sixty times (30 s).

use vstd::prelude::*;

verus! {

/// The most probes made while waiting.
pub const MAX_PROBES: u32 = 60;

/// The pause before each probe, in milliseconds.
pub const PROBE_INTERVAL_MS: u64 = 500;

/// What to do after a probe.
#[derive(Debug, PartialEq, Eq)]
pub enum WaitStep {
    /// Sleep `PROBE_INTERVAL_MS`, then probe again.
    ProbeAgain,
    /// The server answered; it took about `waited_ms` milliseconds.
    Ready { waited_ms: u64 },
    /// All probes failed.
    GaveUp,
}

/// The number of probes made so far.
#[derive(Debug)]
pub struct ReadinessWait {
    probes: u32,
}

impl View for ReadinessWait {
    type V = nat;

    closed spec fn view(&self) -> nat {
        self.probes as nat
    }
}

impl ReadinessWait {
    /// No probe made yet.  The caller sleeps `PROBE_INTERVAL_MS` and probes.
    pub fn new() -> (w: Self)
        ensures
            w@ == 0,
    {
        ReadinessWait { probes: 0 }
    }

    /// The number of probes made so far.
    pub fn probes(&self) -> (n: u32)
        ensures
            n == self@,
    {
        self.probes
    }

    /// Records the outcome of one more probe.  A probe that answered ends the
    /// wait, reporting the time slept; the sixtieth failed probe gives up.
    pub fn after_probe(&mut self, answered: bool) -> (s: WaitStep)
        requires
            old(self)@ < MAX_PROBES,
        ensures
            final(self)@ == old(self)@ + 1,
            answered ==> s == (WaitStep::Ready {
                waited_ms: (final(self)@ * PROBE_INTERVAL_MS) as u64,
            }),
            !answered && final(self)@ < MAX_PROBES ==> s is ProbeAgain,
            !answered && final(self)@ == MAX_PROBES ==> s is GaveUp,
    {
        self.probes = self.probes + 1;
        if answered {
            WaitStep::Ready { waited_ms: (self.probes as u64) * PROBE_INTERVAL_MS }
        } else if self.probes < MAX_PROBES {
            WaitStep::ProbeAgain
        } else {
            WaitStep::GaveUp
        }
    }
}

} // verus!
