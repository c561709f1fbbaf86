//! Link supervision: the vehicle's watchdog over the control stream.
use vstd::prelude::*;

verus! {

/// Supervision state of the control link.
#[derive(Copy, Clone, PartialEq, Eq, Structural, Debug)]
pub enum LinkState {
    /// No valid packet yet, and the start-up grace period has not run out.
    AwaitingFirstPacket,
    /// A valid packet arrived within the timeout.
    Alive,
    /// No valid packet within the timeout: the fail-safe applies.
    TimedOut,
}

/// Tracks the time of the last valid control packet.
#[derive(Copy, Clone, Debug)]
pub struct LinkWatchdog {
    timeout_ms: u64,
    last_valid_rx_ms: Option<u64>,
}

/// The link state at `now_ms` for a watchdog with the given timeout and time
/// of the last valid packet.
pub open spec fn link_state_at(timeout_ms: u64, last_valid_rx_ms: Option<u64>, now_ms: u64) -> LinkState {
    match last_valid_rx_ms {
        Some(last) => if now_ms > last && now_ms - last > timeout_ms {
            LinkState::TimedOut
        } else {
            LinkState::Alive
        },
        None => if now_ms > timeout_ms {
            LinkState::TimedOut
        } else {
            LinkState::AwaitingFirstPacket
        },
    }
}

impl LinkWatchdog {
    /// The silence, in milliseconds, after which the link counts as timed out.
    pub closed spec fn timeout_ms(&self) -> u64 {
        self.timeout_ms
    }

    /// The time of the last valid packet, if one was recorded.
    pub closed spec fn last_valid_rx_ms(&self) -> Option<u64> {
        self.last_valid_rx_ms
    }

    /// The state this watchdog reports at `now_ms`.
    pub open spec fn state_at(&self, now_ms: u64) -> LinkState {
        link_state_at(self.timeout_ms(), self.last_valid_rx_ms(), now_ms)
    }

    /// A watchdog that has seen no packet yet.
    pub fn new(timeout_ms: u64) -> (w: Self)
        ensures
            w.timeout_ms() == timeout_ms,
            w.last_valid_rx_ms() == None::<u64>,
    {
        LinkWatchdog { timeout_ms, last_valid_rx_ms: None }
    }

    /// Record a valid packet received at `now_ms`.
    pub fn record_valid_packet(&mut self, now_ms: u64)
        ensures
            final(self).timeout_ms() == old(self).timeout_ms(),
            final(self).last_valid_rx_ms() == Some(now_ms),
    {
        self.last_valid_rx_ms = Some(now_ms);
    }

    /// The link state at `now_ms`.
    pub fn state(&self, now_ms: u64) -> (s: LinkState)
        ensures
            s == self.state_at(now_ms),
    {
        match self.last_valid_rx_ms {
            Some(last_rx) => {
                if now_ms.saturating_sub(last_rx) > self.timeout_ms {
                    LinkState::TimedOut
                } else {
                    LinkState::Alive
                }
            },
            None => {
                if now_ms > self.timeout_ms {
                    LinkState::TimedOut
                } else {
                    LinkState::AwaitingFirstPacket
                }
            },
        }
    }
}

/// Once a valid packet has been recorded at `last`, the link is `Alive` exactly
/// until more than the timeout has passed since `last`, and `TimedOut` after.
pub proof fn lemma_alive_within_timeout(timeout_ms: u64, last: u64, now_ms: u64)
    ensures
        link_state_at(timeout_ms, Some(last), now_ms) == LinkState::Alive <==> now_ms <= last + timeout_ms,
        link_state_at(timeout_ms, Some(last), now_ms) == LinkState::TimedOut <==> now_ms > last + timeout_ms,
{
}

/// Without a new packet, a timed-out link stays timed out as time goes on.
pub proof fn lemma_timeout_persists(timeout_ms: u64, last: Option<u64>, now1: u64, now2: u64)
    requires
        link_state_at(timeout_ms, last, now1) == LinkState::TimedOut,
        now1 <= now2,
    ensures
        link_state_at(timeout_ms, last, now2) == LinkState::TimedOut,
{
}

/// A watchdog that has never seen a packet is never `Alive`, and one that has
/// is never `AwaitingFirstPacket`.
pub proof fn lemma_alive_needs_packet(timeout_ms: u64, last: Option<u64>, now_ms: u64)
    ensures
        last is None ==> link_state_at(timeout_ms, last, now_ms) != LinkState::Alive,
        last is Some ==> link_state_at(timeout_ms, last, now_ms) != LinkState::AwaitingFirstPacket,
{
}

} // verus!
