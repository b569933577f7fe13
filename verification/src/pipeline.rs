use vstd::prelude::*;

use vstd::arithmetic::div_mod::lemma_fundamental_div_mod_converse;

use crate::FRAME_LEN;
use crate::MAX_PACKET_SIZE;
use crate::PipelineError;
use crate::accumulator::FrameAccumulator;
use crate::accumulator::spec_frame_len;
use crate::codec::CodecEngine;
use crate::codec::EncodedPacket;
use crate::config::StreamConfig;
use crate::impairment::EventQueue;
use crate::impairment::NetworkEvent;
use crate::impairment::NetworkSimulator;
use crate::sink::SinkWriter;

verus! {

/// What became of one encoded payload submitted to the network stage.
#[derive(Clone, Copy, Debug, PartialEq, Eq, Structural)]
pub enum SubmitOutcome {
    /// The packet entered the delivery queue with a delivery timestamp.
    Scheduled,
    /// The impairment model dropped the packet; it will never be decoded.
    Dropped,
    /// The codec payload was oversized and was discarded as a codec failure.
    Rejected,
}

/// Wires the diagnostic flow together: device buffers enter through the
/// accumulator, complete frames leave for the encoder, encoded payloads
/// come back and pass through the impairment model into the time-ordered
/// delivery queue, due packets leave for the decoder, and decoded audio is
/// accounted to the sink. The codec and the device run outside; this state
/// machine makes every decision between them.
pub struct Pipeline {
    pub config: StreamConfig,
    pub acc: FrameAccumulator,
    pub codec: CodecEngine,
    pub net: NetworkSimulator,
    pub queue: EventQueue,
    pub sink: SinkWriter,
    pub dropped_packets: u64,
    pub shutdown: bool,
}

impl Pipeline {
    /// The accumulator never holds a complete frame between calls, the
    /// queue is time-sorted, and the loss probability is a valid fraction.
    pub open spec fn wf(self) -> bool {
        &&& self.acc.wf()
        &&& self.acc.buffered().len() < spec_frame_len()
        &&& self.net.wf()
        &&& self.queue.wf()
    }

    pub fn new(config: StreamConfig, net: NetworkSimulator) -> (r: Self)
        requires
            net.wf(),
        ensures
            r.wf(),
            r.config == config,
            r.net == net,
            !r.acc.is_finished(),
            r.acc.samples_pushed() == 0,
            r.acc.frames_emitted() == 0,
            r.codec.next_sequence() == 0,
            r.codec.failed_units() == 0,
            r.queue.pending() == Seq::<NetworkEvent>::empty(),
            !r.sink.is_finalized(),
            r.sink.samples_written() == 0,
            r.dropped_packets == 0,
            !r.shutdown,
    {
        Pipeline {
            config,
            acc: FrameAccumulator::new(),
            codec: CodecEngine::new(),
            net,
            queue: EventQueue::new(),
            sink: SinkWriter::new(),
            dropped_packets: 0,
            shutdown: false,
        }
    }

    /// Accept one device buffer and hand back every complete frame it
    /// completes, in arrival order: the buffered remainder and the new
    /// samples are cut into consecutive frames of exactly `FRAME_LEN`
    /// samples, and what is left stays buffered for the next call.
    pub fn on_samples(&mut self, chunk: &[i16]) -> (frames: Vec<Vec<i16>>)
        requires
            old(self).wf(),
            !old(self).acc.is_finished(),
            old(self).acc.samples_pushed() + chunk@.len() <= u64::MAX,
        ensures
            final(self).wf(),
            !final(self).acc.is_finished(),
            final(self).acc.samples_pushed() == old(self).acc.samples_pushed() + chunk@.len(),
            frames@.len() == (old(self).acc.buffered() + chunk@).len() / spec_frame_len(),
            forall|i: int|
                0 <= i < frames@.len() ==> frames@[i]@ == (old(self).acc.buffered()
                    + chunk@).subrange(i * (FRAME_LEN as int), (i + 1) * (FRAME_LEN as int)),
            final(self).acc.buffered() == (old(self).acc.buffered() + chunk@).skip(
                frames@.len() * (FRAME_LEN as int),
            ),
            final(self).acc.frames_emitted() == old(self).acc.frames_emitted() + frames@.len(),
            final(self).codec == old(self).codec,
            final(self).net == old(self).net,
            final(self).queue == old(self).queue,
            final(self).sink == old(self).sink,
            final(self).config == old(self).config,
            final(self).dropped_packets == old(self).dropped_packets,
            final(self).shutdown == old(self).shutdown,
    {
        let ghost total = old(self).acc.buffered() + chunk@;
        self.acc.push(chunk);
        let mut frames: Vec<Vec<i16>> = Vec::new();
        while self.acc.buffered_len() >= FRAME_LEN
            invariant
                self.acc.wf(),
                !self.acc.is_finished(),
                self.acc.samples_pushed() == old(self).acc.samples_pushed() + chunk@.len(),
                self.acc.buffered() == total.skip(frames@.len() * (FRAME_LEN as int)),
                frames@.len() * (FRAME_LEN as int) <= total.len(),
                forall|i: int|
                    0 <= i < frames@.len() ==> frames@[i]@ == total.subrange(
                        i * (FRAME_LEN as int),
                        (i + 1) * (FRAME_LEN as int),
                    ),
                self.acc.frames_emitted() == old(self).acc.frames_emitted() + frames@.len(),
                self.codec == old(self).codec,
                self.net == old(self).net,
                self.queue == old(self).queue,
                self.sink == old(self).sink,
                self.config == old(self).config,
                self.dropped_packets == old(self).dropped_packets,
                self.shutdown == old(self).shutdown,
            decreases self.acc.buffered().len(),
        {
            let ghost k = frames@.len() as int;
            let f = self.acc.pop_frame().unwrap();
            proof {
                assert(f@ =~= total.subrange(k * (FRAME_LEN as int), (k + 1) * (FRAME_LEN
                    as int)));
                assert(self.acc.buffered() =~= total.skip((k + 1) * (FRAME_LEN as int)));
            }
            frames.push(f);
        }
        proof {
            let k = frames@.len() as int;
            lemma_fundamental_div_mod_converse(
                total.len() as int,
                spec_frame_len() as int,
                k,
                total.len() - k * (FRAME_LEN as int),
            );
        }
        frames
    }

    /// Submit the byte payload the encoder produced for the oldest
    /// unsubmitted frame. An oversized payload is rejected and counted as a
    /// codec failure. An admitted payload becomes the packet with the next
    /// sequence number and meets the impairment model: it is either dropped
    /// for good, or scheduled for delivery between `now_us` plus the base
    /// latency and that plus the jitter bound. With loss probability zero
    /// every admitted packet is scheduled; with loss probability one every
    /// admitted packet is dropped.
    pub fn on_encoded(&mut self, data: Vec<u8>, now_us: u64) -> (r: SubmitOutcome)
        requires
            old(self).wf(),
            old(self).codec.next_sequence() < u64::MAX,
            old(self).codec.failed_units() < u64::MAX,
            old(self).dropped_packets < u64::MAX,
            now_us + old(self).net.latency_us + old(self).net.jitter_us <= u64::MAX,
        ensures
            final(self).wf(),
            final(self).acc == old(self).acc,
            final(self).net == old(self).net,
            final(self).sink == old(self).sink,
            final(self).config == old(self).config,
            final(self).shutdown == old(self).shutdown,
            data@.len() > MAX_PACKET_SIZE ==> (r == SubmitOutcome::Rejected && final(self).codec.failed_units() == old(self).codec.failed_units() + 1 && final(self).codec.next_sequence() == old(self).codec.next_sequence() && final(self).queue
                == old(self).queue && final(self).dropped_packets == old(self).dropped_packets),
            data@.len() <= MAX_PACKET_SIZE ==> (final(self).codec.next_sequence() == old(self).codec.next_sequence() + 1 && final(self).codec.failed_units() == old(self).codec.failed_units() && r != SubmitOutcome::Rejected),
            r == SubmitOutcome::Dropped ==> (final(self).dropped_packets == old(self).dropped_packets + 1 && final(self).queue == old(self).queue),
            r == SubmitOutcome::Scheduled ==> (final(self).dropped_packets == old(self).dropped_packets && final(self).queue.pending().len() == old(self).queue.pending().len() + 1 && (exists|pos: int, ev: NetworkEvent|
                {
                    &&& 0 <= pos <= old(self).queue.pending().len()
                    &&& ev.packet.bytes() == data@
                    &&& ev.packet.sequence_number() == old(self).codec.next_sequence()
                    &&& ev.packet.wf()
                    &&& now_us + old(self).net.latency_us <= ev.delivery_time_us
                    &&& ev.delivery_time_us <= now_us + old(self).net.latency_us + old(self).net.jitter_us
                    &&& final(self).queue.pending() == old(self).queue.pending().insert(pos, ev)
                })),
            data@.len() <= MAX_PACKET_SIZE && old(self).net.packet_loss_ppm == 0 ==> r
                == SubmitOutcome::Scheduled,
            data@.len() <= MAX_PACKET_SIZE && old(self).net.packet_loss_ppm == crate::LOSS_SCALE
                ==> r == SubmitOutcome::Dropped,
    {
        let packet = match self.codec.accept_encoded(data) {
            Ok(p) => p,
            Err(_) => {
                return SubmitOutcome::Rejected;
            },
        };
        match self.net.simulate_network(packet, now_us) {
            None => {
                self.dropped_packets = self.dropped_packets + 1;
                SubmitOutcome::Dropped
            },
            Some(ev) => {
                let ghost the_event = ev;
                let pos = self.queue.insert(ev);
                proof {
                    assert(0 <= pos as int <= old(self).queue.pending().len());
                    assert(final(self).queue.pending() == old(self).queue.pending().insert(
                        pos as int,
                        the_event,
                    ));
                }
                SubmitOutcome::Scheduled
            },
        }
    }

    /// Release the next due packet to the decode stage, if the earliest
    /// pending delivery time has arrived. After shutdown is signaled no
    /// packet leaves, so nothing is decoded.
    pub fn next_delivery(&mut self, now_us: u64) -> (r: Option<EncodedPacket>)
        requires
            old(self).wf(),
        ensures
            final(self).wf(),
            final(self).acc == old(self).acc,
            final(self).codec == old(self).codec,
            final(self).net == old(self).net,
            final(self).sink == old(self).sink,
            final(self).config == old(self).config,
            final(self).dropped_packets == old(self).dropped_packets,
            final(self).shutdown == old(self).shutdown,
            old(self).shutdown ==> (r is None && final(self).queue == old(self).queue),
            !old(self).shutdown ==> {
                &&& (old(self).queue.pending().len() > 0 && old(self).queue.pending()[0].delivery_time_us <= now_us) ==> (r == Some(
                    old(self).queue.pending()[0].packet,
                ) && final(self).queue.pending() == old(self).queue.pending().skip(1))
                &&& !(old(self).queue.pending().len() > 0 && old(self).queue.pending()[0].delivery_time_us <= now_us) ==> (r is None && final(self).queue.pending() == old(self).queue.pending())
            },
    {
        if self.shutdown {
            return None;
        }
        match self.queue.pop_due(now_us) {
            None => None,
            Some(ev) => Some(ev.packet),
        }
    }

    /// Account one decoded frame to the sink. On an open sink the samples
    /// are accepted; after finalization the append fails and nothing
    /// changes, as the sink contract promises.
    pub fn on_decoded(&mut self, frame: &[i16]) -> (r: Result<(), PipelineError>)
        requires
            old(self).wf(),
            old(self).sink.samples_written() + frame@.len() <= u64::MAX,
        ensures
            final(self).wf(),
            final(self).acc == old(self).acc,
            final(self).codec == old(self).codec,
            final(self).net == old(self).net,
            final(self).queue == old(self).queue,
            final(self).config == old(self).config,
            final(self).dropped_packets == old(self).dropped_packets,
            final(self).shutdown == old(self).shutdown,
            old(self).sink.is_finalized() ==> (r == Err::<(), PipelineError>(
                PipelineError::AlreadyFinalized,
            ) && final(self).sink == old(self).sink),
            !old(self).sink.is_finalized() ==> (r == Ok::<(), PipelineError>(()) && final(self).sink.samples_written() == old(self).sink.samples_written() + frame@.len() && !final(self).sink.is_finalized()),
    {
        self.sink.append(frame.len())
    }

    /// Record that the codec rejected one frame or packet; that unit is
    /// dropped and the stream continues.
    pub fn on_codec_failure(&mut self)
        requires
            old(self).wf(),
            old(self).codec.failed_units() < u64::MAX,
        ensures
            final(self).wf(),
            final(self).codec.failed_units() == old(self).codec.failed_units() + 1,
            final(self).codec.next_sequence() == old(self).codec.next_sequence(),
            final(self).acc == old(self).acc,
            final(self).net == old(self).net,
            final(self).queue == old(self).queue,
            final(self).sink == old(self).sink,
            final(self).config == old(self).config,
            final(self).dropped_packets == old(self).dropped_packets,
            final(self).shutdown == old(self).shutdown,
    {
        self.codec.record_failure();
    }

    /// End the input stream: zero-pad the buffered remainder into one last
    /// frame for the encoder, if any samples were left over.
    pub fn finish_input(&mut self) -> (r: Option<Vec<i16>>)
        requires
            old(self).wf(),
            !old(self).acc.is_finished(),
        ensures
            final(self).wf(),
            final(self).acc.is_finished(),
            final(self).acc.samples_pushed() == old(self).acc.samples_pushed(),
            final(self).acc.frames_emitted() == crate::accumulator::frame_count_for(
                old(self).acc.samples_pushed() as nat,
            ),
            old(self).acc.buffered().len() == 0 ==> r is None,
            old(self).acc.buffered().len() > 0 ==> (r matches Some(f) && f@
                == crate::accumulator::zero_padded(old(self).acc.buffered()) && f@.len()
                == spec_frame_len()),
            final(self).codec == old(self).codec,
            final(self).net == old(self).net,
            final(self).queue == old(self).queue,
            final(self).sink == old(self).sink,
            final(self).config == old(self).config,
            final(self).dropped_packets == old(self).dropped_packets,
            final(self).shutdown == old(self).shutdown,
    {
        self.acc.finish()
    }

    /// Signal shutdown: from here on no packet is released to the decoder.
    pub fn signal_shutdown(&mut self)
        requires
            old(self).wf(),
        ensures
            final(self).wf(),
            final(self).shutdown,
            final(self).acc == old(self).acc,
            final(self).codec == old(self).codec,
            final(self).net == old(self).net,
            final(self).queue == old(self).queue,
            final(self).sink == old(self).sink,
            final(self).config == old(self).config,
            final(self).dropped_packets == old(self).dropped_packets,
    {
        self.shutdown = true;
    }

    /// Discard every pending delivery, undecoded: the fate of events that
    /// did not make the shutdown grace period.
    pub fn discard_pending(&mut self)
        requires
            old(self).wf(),
        ensures
            final(self).wf(),
            final(self).queue.pending() == Seq::<NetworkEvent>::empty(),
            final(self).acc == old(self).acc,
            final(self).codec == old(self).codec,
            final(self).net == old(self).net,
            final(self).sink == old(self).sink,
            final(self).config == old(self).config,
            final(self).dropped_packets == old(self).dropped_packets,
            final(self).shutdown == old(self).shutdown,
    {
        self.queue.clear();
    }

    /// Close the sink: the first call succeeds, every later one reports
    /// `AlreadyFinalized` and changes nothing.
    pub fn finalize_sink(&mut self) -> (r: Result<(), PipelineError>)
        requires
            old(self).wf(),
        ensures
            final(self).wf(),
            final(self).acc == old(self).acc,
            final(self).codec == old(self).codec,
            final(self).net == old(self).net,
            final(self).queue == old(self).queue,
            final(self).config == old(self).config,
            final(self).dropped_packets == old(self).dropped_packets,
            final(self).shutdown == old(self).shutdown,
            old(self).sink.is_finalized() ==> (r == Err::<(), PipelineError>(
                PipelineError::AlreadyFinalized,
            ) && final(self).sink == old(self).sink),
            !old(self).sink.is_finalized() ==> (r == Ok::<(), PipelineError>(()) && final(self).sink.is_finalized() && final(self).sink.samples_written() == old(self).sink.samples_written()),
    {
        self.sink.finalize()
    }

    /// Packets the impairment model dropped so far.
    pub fn dropped_count(&self) -> (n: u64)
        ensures
            n == self.dropped_packets,
    {
        self.dropped_packets
    }
}

} // verus!
