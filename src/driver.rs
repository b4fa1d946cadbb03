use vstd::prelude::*;

use crate::probe::PingResult;

verus! {

/// How many probes one sequence sends to a target.
pub const PROBES_PER_SEQUENCE: u32 = 10;

/// What the driver does after a probe.
#[derive(Clone, Copy, Debug, PartialEq, Eq, Structural)]
pub enum SequenceStep {
    /// Send the next probe.
    Next,
    /// Stop at once on this outcome; no statistics are reported.
    Abort(PingResult),
    /// All probes were sent; report the statistics.
    Done,
}

/// Round-trip statistics of a sequence of probes to one target.
pub struct ProbeStats {
    attempts: u32,
    success_count: u32,
    timeout_count: u32,
    elapsed_ms: u64,
    finished: bool,
}

impl ProbeStats {
    pub closed spec fn attempts_spec(&self) -> nat {
        self.attempts as nat
    }

    pub closed spec fn success_spec(&self) -> nat {
        self.success_count as nat
    }

    pub closed spec fn timeout_spec(&self) -> nat {
        self.timeout_count as nat
    }

    /// The summed round-trip time of the successful probes, in ms, held at
    /// `u64::MAX` should it ever exceed that.
    pub closed spec fn elapsed_spec(&self) -> nat {
        self.elapsed_ms as nat
    }

    /// Whether the sequence has ended, complete or aborted.
    pub closed spec fn finished_spec(&self) -> bool {
        self.finished
    }

    pub closed spec fn wf(&self) -> bool {
        &&& self.attempts <= PROBES_PER_SEQUENCE
        &&& self.success_count + self.timeout_count <= self.attempts
        &&& !self.finished ==> self.attempts < PROBES_PER_SEQUENCE
        &&& !self.finished ==> self.success_count + self.timeout_count == self.attempts
    }

    pub fn new() -> (r: Self)
        ensures
            r.wf(),
            r.attempts_spec() == 0,
            r.success_spec() == 0,
            r.timeout_spec() == 0,
            r.elapsed_spec() == 0,
            !r.finished_spec(),
    {
        ProbeStats { attempts: 0, success_count: 0, timeout_count: 0, elapsed_ms: 0, finished: false }
    }

    /// Records the outcome of one probe that took `elapsed_ms`. A success adds
    /// its time and counts; a timeout counts; a send failure or an invalid
    /// reply aborts the sequence. After the last probe the sequence is done.
    /// A finished sequence records nothing more.
    pub fn record(&mut self, result: PingResult, elapsed_ms: u64) -> (r: SequenceStep)
        requires
            old(self).wf(),
        ensures
            final(self).wf(),
            old(self).finished_spec() ==> r == SequenceStep::Done && *final(self) == *old(self),
            !old(self).finished_spec() ==> {
                &&& final(self).attempts_spec() == old(self).attempts_spec() + 1
                &&& final(self).success_spec() == old(self).success_spec() + if result
                    == PingResult::Success {
                    1nat
                } else {
                    0nat
                }
                &&& final(self).timeout_spec() == old(self).timeout_spec() + if result
                    == PingResult::Timeout {
                    1nat
                } else {
                    0nat
                }
                &&& final(self).elapsed_spec() == if result == PingResult::Success {
                    if old(self).elapsed_spec() + elapsed_ms > u64::MAX {
                        u64::MAX as nat
                    } else {
                        (old(self).elapsed_spec() + elapsed_ms) as nat
                    }
                } else {
                    old(self).elapsed_spec()
                }
                &&& (result == PingResult::SendFailed || result == PingResult::Invalid) ==> {
                    &&& r == SequenceStep::Abort(result)
                    &&& final(self).finished_spec()
                }
                &&& (result == PingResult::Success || result == PingResult::Timeout) ==> {
                    &&& r == if final(self).attempts_spec() == PROBES_PER_SEQUENCE {
                        SequenceStep::Done
                    } else {
                        SequenceStep::Next
                    }
                    &&& final(self).finished_spec() == (final(self).attempts_spec()
                        == PROBES_PER_SEQUENCE)
                }
            },
    {
        if self.finished {
            return SequenceStep::Done;
        }
        self.attempts = self.attempts + 1;
        match result {
            PingResult::Success => {
                self.success_count = self.success_count + 1;
                self.elapsed_ms = self.elapsed_ms.saturating_add(elapsed_ms);
            },
            PingResult::Timeout => {
                self.timeout_count = self.timeout_count + 1;
            },
            PingResult::SendFailed | PingResult::Invalid => {
                self.finished = true;
                return SequenceStep::Abort(result);
            },
        }
        if self.attempts == PROBES_PER_SEQUENCE {
            self.finished = true;
            SequenceStep::Done
        } else {
            SequenceStep::Next
        }
    }

    pub fn attempts(&self) -> (r: u32)
        ensures
            r == self.attempts_spec(),
    {
        self.attempts
    }

    pub fn success_count(&self) -> (r: u32)
        ensures
            r == self.success_spec(),
    {
        self.success_count
    }

    pub fn timeout_count(&self) -> (r: u32)
        ensures
            r == self.timeout_spec(),
    {
        self.timeout_count
    }

    pub fn elapsed_ms(&self) -> (r: u64)
        ensures
            r == self.elapsed_spec(),
    {
        self.elapsed_ms
    }

    /// The mean round-trip time of the successful probes in ms, rounded down;
    /// `None` when no probe succeeded.
    pub fn average_rtt_ms(&self) -> (r: Option<u64>)
        ensures
            self.success_spec() == 0 ==> r == None::<u64>,
            self.success_spec() > 0 ==> r == Some((self.elapsed_spec() / self.success_spec()) as u64),
    {
        if self.success_count == 0 {
            None
        } else {
            Some(self.elapsed_ms / (self.success_count as u64))
        }
    }
}

} // verus!
