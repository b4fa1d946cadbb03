use vstd::prelude::*;

use crate::magic_head::{is_valid_reply, MagicHead, magic_bytes};
use crate::peer::PeerAddr;
use crate::request_manager::RequestManager;

verus! {

/// How long the dispatcher waits for a datagram before it looks at the table
/// again, in seconds.
pub const POLL_INTERVAL_SECS: u64 = 1;

/// What one wait on the socket produced.
pub enum PollEvent {
    /// A datagram with `payload` arrived from `peer`.
    Datagram { payload: Vec<u8>, peer: PeerAddr },
    /// The poll interval elapsed with no datagram.
    Elapsed,
    /// Reading from the socket failed; the socket is no longer usable.
    ReadFailed,
}

/// What the dispatcher did with an event, and whether it keeps polling.
#[derive(Clone, Copy, Debug, PartialEq, Eq, Structural)]
pub enum Dispatched {
    /// A pending probe of the sender was resolved, with whether the reply was valid.
    Resolved(bool),
    /// No probe of the sender was pending; the datagram was dropped.
    Unmatched,
    /// Nothing arrived, and probes are still pending.
    Idle,
    /// The dispatcher stops.
    Stop,
}

/// The background task that hands each inbound datagram to the probe that
/// waits for a reply from its sender.
pub struct PongReceiver {
    head: MagicHead,
    stop_requested: bool,
}

impl PongReceiver {
    pub closed spec fn wf(&self) -> bool {
        self.head@ == magic_bytes()
    }

    /// Whether a stop was asked for.
    pub closed spec fn stopping(&self) -> bool {
        self.stop_requested
    }

    pub fn new() -> (r: Self)
        ensures
            r.wf(),
            !r.stopping(),
    {
        PongReceiver { head: MagicHead::new(), stop_requested: false }
    }

    /// Asks the dispatcher to stop at its next idle poll.
    pub fn stop(&mut self)
        requires
            old(self).wf(),
        ensures
            final(self).wf(),
            final(self).stopping(),
    {
        self.stop_requested = true;
    }

    /// Whether the dispatcher has been asked to stop.
    pub fn is_stopping(&self) -> (r: bool)
        ensures
            r == self.stopping(),
    {
        self.stop_requested
    }

    /// One turn of the receive loop. A datagram resolves the probe pending
    /// for its sender with whether it begins with the magic header; a
    /// datagram from anyone else changes nothing. When a poll interval passes
    /// in silence the dispatcher stops if the table is empty or a stop was
    /// asked for. A failed read stops it.
    pub fn on_event(
        &self,
        table: &mut RequestManager<tokio::sync::oneshot::Sender<bool>>,
        event: PollEvent,
    ) -> (r: Dispatched)
        requires
            self.wf(),
            old(table).wf(),
        ensures
            final(table).wf(),
            match event {
                PollEvent::Datagram { payload, peer } => {
                    &&& final(table)@ == old(table)@.remove(peer)
                    &&& r == if old(table)@.contains_key(peer) {
                        Dispatched::Resolved(is_valid_reply(payload@))
                    } else {
                        Dispatched::Unmatched
                    }
                },
                PollEvent::Elapsed => {
                    &&& final(table)@ == old(table)@
                    &&& r == if self.stopping() || old(table)@ == Map::<
                        PeerAddr,
                        tokio::sync::oneshot::Sender<bool>,
                    >::empty() {
                        Dispatched::Stop
                    } else {
                        Dispatched::Idle
                    }
                },
                PollEvent::ReadFailed => {
                    &&& final(table)@ == old(table)@
                    &&& r == Dispatched::Stop
                },
            },
    {
        match event {
            PollEvent::Datagram { payload, peer } => {
                let matched = self.head.is_prefix_of(payload.as_slice());
                if table.notify(peer, matched) {
                    Dispatched::Resolved(matched)
                } else {
                    Dispatched::Unmatched
                }
            },
            PollEvent::Elapsed => {
                if self.stop_requested || table.is_empty() {
                    Dispatched::Stop
                } else {
                    Dispatched::Idle
                }
            },
            PollEvent::ReadFailed => Dispatched::Stop,
        }
    }
}

} // verus!
