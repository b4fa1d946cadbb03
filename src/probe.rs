use vstd::prelude::*;

use crate::magic_head::{is_valid_reply, MagicHead, magic_bytes, MAGIC_LEN};
use crate::peer::PeerAddr;
use crate::request_manager::RequestManager;

verus! {

/// How long a probe waits for its reply, in seconds.
pub const PROBE_DEADLINE_SECS: u64 = 3;

/// The outcome of one probe.
#[derive(Clone, Copy, Debug, PartialEq, Eq, Structural)]
pub enum PingResult {
    /// A reply from the target began with the magic header.
    Success,
    /// The probe payload could not be sent whole.
    SendFailed,
    /// A reply came from the target but did not begin with the magic header.
    Invalid,
    /// No reply resolved the probe before its deadline.
    Timeout,
}

impl PingResult {
    /// The outcome's name, as it is printed.
    pub fn as_str(&self) -> (r: &'static str)
        ensures
            r@ == match *self {
                PingResult::Success => "Success"@,
                PingResult::SendFailed => "SendFailed"@,
                PingResult::Invalid => "Invalid"@,
                PingResult::Timeout => "Timeout"@,
            },
    {
        match *self {
            PingResult::Success => "Success",
            PingResult::SendFailed => "SendFailed",
            PingResult::Invalid => "Invalid",
            PingResult::Timeout => "Timeout",
        }
    }
}

/// How the wait on a probe's completion signal ended.
#[derive(Clone, Copy, Debug, PartialEq, Eq, Structural)]
pub enum WaitOutcome {
    /// The signal was resolved, with whether the reply was valid.
    Resolved(bool),
    /// The deadline elapsed first, or the signal was dropped unresolved.
    Elapsed,
}

/// The result a probe reports for the way its wait ended.
pub open spec fn classify(outcome: WaitOutcome) -> PingResult {
    match outcome {
        WaitOutcome::Resolved(true) => PingResult::Success,
        WaitOutcome::Resolved(false) => PingResult::Invalid,
        WaitOutcome::Elapsed => PingResult::Timeout,
    }
}

/// Decides after the probe payload was handed to the socket. `sent` is the
/// number of bytes the socket reports as sent, or `None` when sending failed.
/// A probe whose whole header was not sent ends at once as `SendFailed`, and
/// its entry leaves the table; otherwise the probe goes on waiting (`None`)
/// and the table is unchanged.
pub fn after_send<S>(table: &mut RequestManager<S>, target: &PeerAddr, sent: Option<usize>) -> (r:
    Option<PingResult>)
    requires
        old(table).wf(),
    ensures
        final(table).wf(),
        sent == Some(MAGIC_LEN) ==> r == None::<PingResult> && final(table)@ == old(table)@,
        sent != Some(MAGIC_LEN) ==> r == Some(PingResult::SendFailed) && final(table)@ == old(
            table,
        )@.remove(*target),
{
    match sent {
        Some(n) => {
            if n == MAGIC_LEN {
                return None;
            }
        },
        None => {},
    }
    table.unregister(target);
    Some(PingResult::SendFailed)
}

/// Ends a probe of `target` after its wait: the entry leaves the table and the
/// outcome of the wait is classified.
pub fn finish_probe<S>(table: &mut RequestManager<S>, target: &PeerAddr, outcome: WaitOutcome) -> (r:
    PingResult)
    requires
        old(table).wf(),
    ensures
        final(table).wf(),
        final(table)@ == old(table)@.remove(*target),
        !final(table)@.contains_key(*target),
        r == classify(outcome),
{
    table.unregister(target);
    match outcome {
        WaitOutcome::Resolved(true) => PingResult::Success,
        WaitOutcome::Resolved(false) => PingResult::Invalid,
        WaitOutcome::Elapsed => PingResult::Timeout,
    }
}

/// How a probe on a socket of its own judges one received datagram: one from
/// another peer is ignored (`None`); one from the target is `Success` when it
/// begins with the magic header and `Invalid` otherwise.
pub fn classify_reply(head: &MagicHead, target: &PeerAddr, peer: &PeerAddr, payload: &[u8]) -> (r:
    Option<PingResult>)
    requires
        head@ == magic_bytes(),
    ensures
        *peer != *target ==> r == None::<PingResult>,
        *peer == *target && is_valid_reply(payload@) ==> r == Some(PingResult::Success),
        *peer == *target && !is_valid_reply(payload@) ==> r == Some(PingResult::Invalid),
{
    if *peer != *target {
        None
    } else if head.is_prefix_of(payload) {
        Some(PingResult::Success)
    } else {
        Some(PingResult::Invalid)
    }
}

/// The least time between the starts of two probes after a success, in ms.
pub const OK_MIN_INTERVAL_MS: u64 = 20;

/// The least time between the starts of two probes after any other outcome, in ms.
pub const ERR_MIN_INTERVAL_MS: u64 = 1000;

/// The least time between the start of a probe with `result` and the next one.
pub open spec fn min_interval_ms(result: PingResult) -> u64 {
    if result == PingResult::Success {
        OK_MIN_INTERVAL_MS
    } else {
        ERR_MIN_INTERVAL_MS
    }
}

/// How long to pause after a probe with `result` that took `elapsed_ms`, so
/// that probes start no more often than the minimum interval allows.
pub fn pause_ms(result: PingResult, elapsed_ms: u64) -> (r: u64)
    ensures
        elapsed_ms < min_interval_ms(result) ==> r == min_interval_ms(result) - elapsed_ms,
        elapsed_ms >= min_interval_ms(result) ==> r == 0,
{
    let min = if result == PingResult::Success {
        OK_MIN_INTERVAL_MS
    } else {
        ERR_MIN_INTERVAL_MS
    };
    if elapsed_ms < min {
        min - elapsed_ms
    } else {
        0
    }
}

} // verus!
