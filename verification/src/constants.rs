use vstd::prelude::*;

verus! {

pub const AUDIOPASS_APP_ID: &'static str = "com.nithinrdy.audiopass";

pub const AUDIOPASS_APP_NAME: &'static str = "AudioPass";

pub const AUDIOPASS_PIPEWIRE_CLIENT_NAME: &'static str = "AudioPass Pipewire Client";

pub const AUDIOPASS_VIRTUAL_MIC_STREAM_NAME: &'static str = "AudioPass Virtual Microphone Stream";

pub const AUDIOPASS_VIRTUAL_MIC_DESCRIPTION: &'static str = "AudioPass Virtual Microphone";

pub const AUDIOPASS_VIRTUAL_MIC_IDENTIFIER_PREFIX: &'static str = "audiopass.virtual-mic";

pub const AUDIOPASS_VIRTUAL_CAPTURE_STREAM_NAME: &'static str = "AudioPass Virtual Capture Stream";

/// Interleaved channels of every stream (front left, front right).
pub const AUDIOPASS_VIRTUAL_MIC_CHANNEL_COUNT: u8 = 2u8;

pub const AUDIOPASS_VIRTUAL_MIC_SAMPLE_RATE: u16 = 48000u16;

/// Bytes of one F32LE sample.
pub const AUDIOPASS_BYTES_PER_SAMPLE: usize = 4usize;

/// The channel count as a `usize`, for sample arithmetic.
pub const CHANNELS: usize = 2usize;

/// The sample rate as a `usize`, for sample arithmetic.
pub const SAMPLE_RATE: usize = 48000usize;

/// Bytes of one interleaved frame: one sample per channel.
pub const AUDIOPASS_BYTES_PER_FRAME: usize = CHANNELS * AUDIOPASS_BYTES_PER_SAMPLE;

/// Samples held by the ring between capture and microphone: 100 ms of interleaved audio.
pub const AUDIOPASS_MIC_RING_CAPACITY_IN_SAMPLES: usize = SAMPLE_RATE / 10 * CHANNELS;

} // verus!
