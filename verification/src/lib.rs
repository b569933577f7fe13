//! A diagnostic voice pipeline: device buffers are reshaped into fixed codec
//! frames, encoded, passed through an emulated lossy network, decoded, and
//! appended to a wave sink. The framing, the impairment model, the delivery
//! scheduling and the sink bookkeeping are verified; the codec and the audio
//! device run in the surrounding program, which hands plain sample and byte
//! buffers across this boundary.

use vstd::prelude::*;

pub mod accumulator;
pub mod codec;
pub mod config;
pub mod impairment;
pub mod pipeline;
pub mod samples;
pub mod sink;

verus! {

/// Samples per channel in one codec frame (20 ms at 48 kHz).
pub const FRAME_SIZE: usize = 960;

/// Channel count, fixed for the lifetime of a pipeline instance.
pub const CHANNELS: usize = 2;

/// Interleaved samples in one codec frame: FRAME_SIZE * CHANNELS.
pub const FRAME_LEN: usize = 1920;

/// Largest encoded packet the codec may produce, in bytes.
pub const MAX_PACKET_SIZE: usize = 1275;

/// Loss probability is expressed in parts per million of this scale:
/// 0 never drops, LOSS_SCALE always drops.
pub const LOSS_SCALE: u32 = 1000000;

/// The pipeline's error taxonomy.
#[derive(Clone, Copy, Debug, PartialEq, Eq, Structural)]
pub enum PipelineError {
    /// No device configuration satisfies the required constraints; fatal
    /// before any stream starts.
    DeviceConfig,
    /// The codec rejected one frame or packet; that unit is dropped and the
    /// stream continues.
    Codec,
    /// Reading the source or writing the sink failed.
    Io,
    /// The sink lock was unavailable when the real-time thread tried to
    /// append; transient, that audio is simply not written.
    ContentionSkip,
    /// An operation reached the sink after it was closed.
    AlreadyFinalized,
}

} // verus!
