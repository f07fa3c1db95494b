//! Heartbeat liveness state: a monotonically increasing sent counter, the
//! highest acknowledged counter, and the probing interval the peer may
//! adjust with each acknowledgement. Acknowledgements never move the state
//! backward, and a peer that leaves more than two probes unanswered is
//! reported unresponsive on the next tick.
use vstd::prelude::*;

verus! {

use crate::text::{dec_str, parse_u64, spec_parse_u64, u64_to_dec};

/// Seconds between heartbeat probes until the peer advises otherwise.
pub const DEFAULT_PING_INTERVAL_SECS: u64 = 30;

/// Heartbeat liveness state, owned by the inbound actor for the lifetime
/// of a connection.
#[derive(Debug, PartialEq, Eq, Structural, Clone, Copy)]
pub struct Ping {
    /// Seconds between heartbeat probes.
    pub interval_secs: u64,
    /// Number of heartbeat probes sent.
    pub iteration: u64,
    /// The highest probe counter the peer has acknowledged.
    pub acknowledged: u64,
}

impl Default for Ping {
    /// The state of a fresh connection: nothing sent, nothing
    /// acknowledged, the default probing interval.
    fn default() -> (p: Ping)
        ensures
            p == (Ping { interval_secs: DEFAULT_PING_INTERVAL_SECS, iteration: 0u64, acknowledged: 0u64 }),
    {
        Ping { interval_secs: DEFAULT_PING_INTERVAL_SECS, iteration: 0, acknowledged: 0 }
    }
}

/// The heartbeat state after an acknowledgement carrying `nonce` and the
/// advised interval `gap` arrives: an unparsable or stale counter changes
/// nothing; a counter above the highest acknowledged one becomes the
/// highest and adopts `gap`.
pub open spec fn pong_update(p: Ping, nonce: Seq<char>, gap: u64) -> Ping {
    match spec_parse_u64(nonce) {
        Some(c) => if c > p.acknowledged {
            Ping { interval_secs: gap, iteration: p.iteration, acknowledged: c }
        } else {
            p
        },
        None => p,
    }
}

/// Whether the probe sent by the next tick finds more than two probes
/// unacknowledged.
pub open spec fn tick_times_out(p: Ping) -> bool {
    p.iteration + 1 - p.acknowledged > 2
}

/// What a heartbeat tick decides.
#[derive(Debug, PartialEq)]
pub enum TickOutcome {
    /// More than two probes stand unacknowledged: the peer is
    /// unresponsive.
    Unresponsive,
    /// Probe the peer with a heartbeat carrying this nonce.
    Probe(String),
}

impl Ping {
    /// Record a heartbeat acknowledgement. The echoed nonce is read as the
    /// counter it answers; unparsable nonces are ignored, and an
    /// acknowledgement never moves the state backward.
    pub fn acknowledge(&mut self, nonce: &str, gap: u64)
        ensures
            *final(self) == pong_update(*old(self), nonce@, gap),
    {
        match parse_u64(nonce) {
            Some(c) => {
                if c > self.acknowledged {
                    self.acknowledged = c;
                    self.interval_secs = gap;
                }
            },
            None => {},
        }
    }

    /// Advance the sent counter for an elapsed interval. The probe nonce
    /// is the new counter in decimal; when more than two probes stand
    /// unacknowledged, the peer is unresponsive instead — exactly then,
    /// never before.
    pub fn tick(&mut self) -> (r: TickOutcome)
        requires
            old(self).iteration < u64::MAX,
        ensures
            final(self).iteration == old(self).iteration + 1,
            final(self).acknowledged == old(self).acknowledged,
            final(self).interval_secs == old(self).interval_secs,
            r == TickOutcome::Unresponsive <==> tick_times_out(*old(self)),
            r matches TickOutcome::Probe(nonce) ==> nonce@ == dec_str(
                final(self).iteration as int,
            ),
    {
        self.iteration = self.iteration + 1;
        if (self.iteration as u128) > (self.acknowledged as u128) + 2 {
            TickOutcome::Unresponsive
        } else {
            TickOutcome::Probe(u64_to_dec(self.iteration))
        }
    }
}

/// An acknowledgement whose nonce does not read as a counter leaves the
/// acknowledged counter and the interval unchanged.
pub proof fn lemma_unparsable_ack_ignored(p: Ping, nonce: Seq<char>, gap: u64)
    requires
        spec_parse_u64(nonce) is None,
    ensures
        pong_update(p, nonce, gap) == p,
{
}

/// An acknowledgement whose counter is at or below the highest
/// acknowledged one leaves the acknowledged counter and the interval
/// unchanged: duplicate or out-of-order acknowledgements never move the
/// state backward.
pub proof fn lemma_stale_ack_ignored(p: Ping, nonce: Seq<char>, gap: u64, c: u64)
    requires
        spec_parse_u64(nonce) == Some(c),
        c <= p.acknowledged,
    ensures
        pong_update(p, nonce, gap) == p,
{
}

/// An acknowledgement whose counter is above the highest acknowledged one
/// advances the acknowledged counter to exactly that value and adopts the
/// acked interval; the sent counter is untouched.
pub proof fn lemma_fresh_ack_advances(p: Ping, nonce: Seq<char>, gap: u64, c: u64)
    requires
        spec_parse_u64(nonce) == Some(c),
        c > p.acknowledged,
    ensures
        pong_update(p, nonce, gap) == (Ping {
            interval_secs: gap,
            iteration: p.iteration,
            acknowledged: c,
        }),
{
}

/// The nonce a probe carries reads back as exactly the counter it was
/// built from, so the peer's echo is matched to the right probe.
pub proof fn lemma_probe_nonce_round_trip(n: u64)
    ensures
        spec_parse_u64(dec_str(n as int)) == Some(n),
{
    crate::text::lemma_dec_str_round_trip(n);
}

} // verus!
