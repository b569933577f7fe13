use vstd::prelude::*;

use crate::LOSS_SCALE;
use crate::codec::EncodedPacket;

verus! {

/// Relies on rand::random for a uniformly distributed machine word; nothing
/// is promised of the value.
#[verifier::external_body]
fn draw_random_u64() -> u64 {
    rand::random::<u64>()
}

/// A scheduled delivery: one packet paired with the instant, in
/// microseconds, at which it is due at the decode stage.
pub struct NetworkEvent {
    pub packet: EncodedPacket,
    pub delivery_time_us: u64,
}

/// Emulates an unreliable channel: each submitted packet is either dropped
/// outright or scheduled for delivery after the base latency plus a random
/// jitter. Submitting never blocks and never sleeps; delay is represented
/// as data, a delivery timestamp on the resulting event.
pub struct NetworkSimulator {
    /// Probability of dropping a packet, in parts per million:
    /// 0 never drops, LOSS_SCALE always drops.
    pub packet_loss_ppm: u32,
    /// Fixed delay applied to every delivered packet.
    pub latency_us: u64,
    /// Upper bound of the additional uniformly distributed delay.
    pub jitter_us: u64,
}

impl NetworkSimulator {
    pub open spec fn wf(self) -> bool {
        self.packet_loss_ppm <= LOSS_SCALE
    }

    pub fn new(packet_loss_ppm: u32, latency_us: u64, jitter_us: u64) -> (r: Self)
        requires
            packet_loss_ppm <= LOSS_SCALE,
        ensures
            r == (NetworkSimulator { packet_loss_ppm, latency_us, jitter_us }),
            r.wf(),
    {
        NetworkSimulator { packet_loss_ppm, latency_us, jitter_us }
    }

    /// Whether a loss draw falls below the configured loss probability.
    pub open spec fn drops(self, loss_draw: u64) -> bool {
        loss_draw % (LOSS_SCALE as u64) < self.packet_loss_ppm as u64
    }

    /// The jitter a jitter draw yields: uniform in [0, jitter_us), and zero
    /// when no jitter is configured.
    pub open spec fn jitter_of(self, jitter_draw: u64) -> u64 {
        if self.jitter_us == 0 {
            0
        } else {
            (jitter_draw % self.jitter_us) as u64
        }
    }

    /// The deterministic core of the impairment policy, on explicit random
    /// draws so that a test can reproduce an exact loss and delay sequence:
    /// either the packet is dropped, or it is due at submission time plus
    /// the base latency plus the drawn jitter.
    pub fn classify(&self, loss_draw: u64, jitter_draw: u64, now_us: u64) -> (r: Option<u64>)
        requires
            now_us + self.latency_us + self.jitter_us <= u64::MAX,
        ensures
            self.drops(loss_draw) ==> r is None,
            !self.drops(loss_draw) ==> r == Some(
                (now_us + self.latency_us + self.jitter_of(jitter_draw)) as u64,
            ),
    {
        if loss_draw % (LOSS_SCALE as u64) < self.packet_loss_ppm as u64 {
            return None;
        }
        let jitter: u64 = if self.jitter_us == 0 {
            0
        } else {
            jitter_draw % self.jitter_us
        };
        Some(now_us + self.latency_us + jitter)
    }

    /// Decide the fate of one packet at submission time `now_us`: drop it,
    /// or wrap it in an event due within the configured delay window. With
    /// loss probability zero every packet is scheduled; with loss
    /// probability one none is. The random draws decide the rest, so only
    /// what holds of every outcome is promised.
    pub fn simulate_network(&self, packet: EncodedPacket, now_us: u64) -> (r: Option<NetworkEvent>)
        requires
            self.wf(),
            now_us + self.latency_us + self.jitter_us <= u64::MAX,
        ensures
            self.packet_loss_ppm == 0 ==> r is Some,
            self.packet_loss_ppm == LOSS_SCALE ==> r is None,
            r matches Some(ev) ==> (ev.packet == packet && now_us + self.latency_us
                <= ev.delivery_time_us && ev.delivery_time_us <= now_us + self.latency_us
                + self.jitter_us),
    {
        let loss_draw = draw_random_u64();
        let jitter_draw = draw_random_u64();
        proof {
            assert(loss_draw % (LOSS_SCALE as u64) < LOSS_SCALE as u64);
        }
        match self.classify(loss_draw, jitter_draw, now_us) {
            None => None,
            Some(t) => Some(NetworkEvent { packet, delivery_time_us: t }),
        }
    }
}

/// Events ordered by delivery time, earliest first.
pub open spec fn time_sorted(s: Seq<NetworkEvent>) -> bool {
    forall|i: int, j: int|
        0 <= i < j < s.len() ==> s[i].delivery_time_us <= s[j].delivery_time_us
}

/// In a time-sorted queue the head is an earliest pending event, so a
/// dispatcher that always releases the head hands packets to the decode
/// stage in delivery-time order, each pending event exactly once.
pub proof fn lemma_sorted_head_is_earliest(s: Seq<NetworkEvent>)
    requires
        time_sorted(s),
        s.len() > 0,
    ensures
        forall|i: int|
            0 <= i < s.len() ==> s[0].delivery_time_us <= #[trigger] s[i].delivery_time_us,
{
}

/// The pending scheduled deliveries, kept ordered by delivery time. The
/// background dispatcher polls it and releases each event to the decode
/// stage once its time has arrived.
pub struct EventQueue {
    events: Vec<NetworkEvent>,
}

impl EventQueue {
    /// The pending events, earliest delivery first.
    pub closed spec fn pending(self) -> Seq<NetworkEvent> {
        self.events@
    }

    pub open spec fn wf(self) -> bool {
        time_sorted(self.pending())
    }

    pub fn new() -> (r: Self)
        ensures
            r.pending() == Seq::<NetworkEvent>::empty(),
            r.wf(),
    {
        EventQueue { events: Vec::new() }
    }

    pub fn len(&self) -> (n: usize)
        ensures
            n == self.pending().len(),
    {
        self.events.len()
    }

    /// Schedule one event: it enters at the position its delivery time
    /// calls for, after any event already due at the same time, and every
    /// other pending event stays. Returns that position.
    pub fn insert(&mut self, ev: NetworkEvent) -> (pos: usize)
        requires
            old(self).wf(),
        ensures
            final(self).wf(),
            pos <= old(self).pending().len(),
            final(self).pending() == old(self).pending().insert(pos as int, ev),
            final(self).pending().len() == old(self).pending().len() + 1,
    {
        let mut i: usize = 0;
        while i < self.events.len() && self.events[i].delivery_time_us <= ev.delivery_time_us
            invariant
                i <= self.events@.len(),
                time_sorted(self.events@),
                forall|k: int|
                    0 <= k < i ==> self.events@[k].delivery_time_us <= ev.delivery_time_us,
            decreases self.events@.len() - i,
        {
            i = i + 1;
        }
        proof {
            assert(forall|k: int|
                i <= k < self.events@.len() ==> ev.delivery_time_us
                    < self.events@[k].delivery_time_us);
        }
        self.events.insert(i, ev);
        proof {
            assert(time_sorted(self.events@));
        }
        i
    }

    /// Release the earliest pending event if its delivery time has arrived;
    /// otherwise nothing changes. Because the queue is time-sorted, the
    /// events a dispatcher obtains by polling leave in delivery-time order,
    /// each exactly once.
    pub fn pop_due(&mut self, now_us: u64) -> (r: Option<NetworkEvent>)
        requires
            old(self).wf(),
        ensures
            final(self).wf(),
            (old(self).pending().len() > 0 && old(self).pending()[0].delivery_time_us <= now_us)
                ==> (r == Some(old(self).pending()[0]) && final(self).pending() == old(self).pending().skip(1)),
            !(old(self).pending().len() > 0 && old(self).pending()[0].delivery_time_us <= now_us)
                ==> (r is None && final(self).pending() == old(self).pending()),
    {
        if self.events.len() > 0 {
            if self.events[0].delivery_time_us <= now_us {
                let ev = self.events.remove(0);
                proof {
                    assert(self.events@ =~= old(self).pending().skip(1));
                }
                return Some(ev);
            }
        }
        None
    }

    /// Discard every pending event, undecoded: what shutdown does to
    /// deliveries that did not make the grace period.
    pub fn clear(&mut self)
        ensures
            final(self).pending() == Seq::<NetworkEvent>::empty(),
            final(self).wf(),
    {
        self.events.clear();
    }
}

} // verus!
