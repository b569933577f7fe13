use vstd::prelude::*;

use crate::MAX_PACKET_SIZE;
use crate::PipelineError;

verus! {

/// One encoded codec packet: an opaque byte payload of bounded size, tagged
/// with the monotonically increasing sequence number assigned at encode
/// time. A packet is owned by exactly one stage at a time and moves by
/// value from encoder to impairment model to decoder.
pub struct EncodedPacket {
    data: Vec<u8>,
    sequence: u64,
}

impl EncodedPacket {
    /// The payload bytes.
    pub closed spec fn bytes(self) -> Seq<u8> {
        self.data@
    }

    /// The sequence number assigned at encode time.
    pub closed spec fn sequence_number(self) -> u64 {
        self.sequence
    }

    /// A packet never exceeds the codec's maximum packet size.
    pub open spec fn wf(self) -> bool {
        self.bytes().len() <= MAX_PACKET_SIZE
    }

    pub fn payload(&self) -> (r: &Vec<u8>)
        ensures
            r@ == self.bytes(),
    {
        &self.data
    }

    pub fn payload_len(&self) -> (n: usize)
        ensures
            n == self.bytes().len(),
    {
        self.data.len()
    }

    pub fn sequence(&self) -> (n: u64)
        ensures
            n == self.sequence_number(),
    {
        self.sequence
    }
}

/// Bookkeeping for the encode and decode stages. The codec itself runs
/// outside this crate; this type assigns sequence numbers, enforces the
/// packet size bound, and counts the frames the codec rejected, which are
/// dropped one at a time while the stream continues.
pub struct CodecEngine {
    next_sequence: u64,
    failed_units: u64,
}

impl CodecEngine {
    /// The sequence number the next accepted packet will carry.
    pub closed spec fn next_sequence(self) -> u64 {
        self.next_sequence
    }

    /// How many frames or packets the codec has rejected so far.
    pub closed spec fn failed_units(self) -> u64 {
        self.failed_units
    }

    pub fn new() -> (r: Self)
        ensures
            r.next_sequence() == 0,
            r.failed_units() == 0,
    {
        CodecEngine { next_sequence: 0, failed_units: 0 }
    }

    pub fn sequence_counter(&self) -> (n: u64)
        ensures
            n == self.next_sequence(),
    {
        self.next_sequence
    }

    pub fn failures(&self) -> (n: u64)
        ensures
            n == self.failed_units(),
    {
        self.failed_units
    }

    /// Admit the byte payload the encoder produced for the next frame. A
    /// payload within the codec's size bound becomes a packet carrying the
    /// next sequence number; an oversized payload is rejected as a codec
    /// failure and the sequence counter does not move.
    pub fn accept_encoded(&mut self, data: Vec<u8>) -> (r: Result<EncodedPacket, PipelineError>)
        requires
            old(self).next_sequence() < u64::MAX,
            old(self).failed_units() < u64::MAX,
        ensures
            data@.len() <= MAX_PACKET_SIZE ==> (r matches Ok(p) && p.bytes() == data@
                && p.sequence_number() == old(self).next_sequence() && p.wf()
                && final(self).next_sequence() == old(self).next_sequence() + 1
                && final(self).failed_units() == old(self).failed_units()),
            data@.len() > MAX_PACKET_SIZE ==> (r == Err::<EncodedPacket, PipelineError>(
                PipelineError::Codec,
            ) && final(self).next_sequence() == old(self).next_sequence()
                && final(self).failed_units() == old(self).failed_units() + 1),
    {
        if data.len() > MAX_PACKET_SIZE {
            self.failed_units = self.failed_units + 1;
            return Err(PipelineError::Codec);
        }
        let packet = EncodedPacket { data, sequence: self.next_sequence };
        self.next_sequence = self.next_sequence + 1;
        Ok(packet)
    }

    /// Record that the codec rejected one frame or packet. That unit is
    /// dropped and the stream continues; the whole stream is never aborted
    /// for a single bad unit.
    pub fn record_failure(&mut self)
        requires
            old(self).failed_units() < u64::MAX,
        ensures
            final(self).failed_units() == old(self).failed_units() + 1,
            final(self).next_sequence() == old(self).next_sequence(),
    {
        self.failed_units = self.failed_units + 1;
    }
}

} // verus!
