//! The audio capture actor: stamping chunks in the device callback, handing
//! them over without ever blocking it, and the steps of the encode loop.

use crate::util::lemma_stamps_ordered;
use crate::util::non_decreasing;
use crate::util::pts_of_micros;
use crate::util::stamps;
use crate::util::steady_clock;
use crate::util::stream_time_base;
use crate::util::SlickscreenTime;
use crate::util::TimeBase;
use crate::worker::receive_blocking;
use crate::worker::send_now;
use crate::worker::Offered;
use crate::worker::WorkerControlMessage;
use crossbeam::channel::Receiver;
use crossbeam::channel::Sender;
use vstd::prelude::*;
use vstd::slice::slice_to_vec;

verus! {

/// Samples per second and channel.
pub const SAMPLE_RATE: u32 = 48000;

/// Channels of the captured stream: stereo.
pub const CHANNEL_COUNT: u16 = 2;

/// Chunks that the device delivers per second: one every ten milliseconds.
pub const CHUNKS_PER_SECOND: u32 = 100;

/// How the capture device is opened.
#[derive(Clone, Copy, Debug, PartialEq, Eq, Structural)]
pub struct AudioCaptureSettings {
    pub channels: u16,
    pub sample_rate: u32,
    /// Samples per channel in one chunk.
    pub chunk_samples: u32,
}

/// The fixed configuration of the capture device: stereo at 48 kHz in chunks
/// of ten milliseconds, which is 480 samples a channel.
pub fn audio_capture_settings() -> (settings: AudioCaptureSettings)
    ensures
        settings == (AudioCaptureSettings { channels: 2, sample_rate: 48000, chunk_samples: 480 }),
{
    AudioCaptureSettings {
        channels: CHANNEL_COUNT,
        sample_rate: SAMPLE_RATE,
        chunk_samples: SAMPLE_RATE / CHUNKS_PER_SECOND,
    }
}

/// How the samples of a chunk are laid out.
#[derive(Clone, Copy, Debug, PartialEq, Eq, Structural)]
pub enum SampleLayout {
    /// Signed 16-bit samples, the channels interleaved.
    PackedI16,
}

/// The fixed configuration of the audio encoder.
pub struct AudioEncoderSettings {
    pub encoder: &'static str,
    pub time_base: TimeBase,
    pub rate: i32,
    pub layout: SampleLayout,
    pub channels: i32,
}

/// Whether `settings` is the fixed audio configuration.
pub open spec fn is_audio_configuration(settings: AudioEncoderSettings) -> bool {
    &&& settings.encoder@ == "libfdk_aac"@
    &&& settings.time_base == (TimeBase { numerator: 1, denominator: 1_000_000 })
    &&& settings.rate == 48000
    &&& settings.layout == SampleLayout::PackedI16
    &&& settings.channels == 2
}

/// The configuration of the audio encoder. The muxer's audio stream is set up
/// with the same values.
pub fn audio_encoder_settings() -> (settings: AudioEncoderSettings)
    ensures
        is_audio_configuration(settings),
{
    AudioEncoderSettings {
        encoder: "libfdk_aac",
        time_base: stream_time_base(),
        rate: 48000,
        layout: SampleLayout::PackedI16,
        channels: 2,
    }
}

/// One chunk of captured audio: interleaved samples and the time at which
/// they arrived.
#[derive(Clone, Debug)]
pub struct RawAudioChunk {
    pub pts: i64,
    /// Samples per channel.
    pub samples: usize,
    /// The samples as the device gave them, byte for byte.
    pub data: Vec<u8>,
}

/// The messages that the audio encode actor takes.
#[derive(Clone, Debug)]
pub enum AudioRecorderMessage {
    Quit,
    /// A chunk to encode, with its timestamp.
    RawAudioPacket(i64, RawAudioChunk),
}

impl From<WorkerControlMessage> for AudioRecorderMessage {
    fn from(msg: WorkerControlMessage) -> (message: Self) {
        match msg {
            WorkerControlMessage::Quit => AudioRecorderMessage::Quit,
        }
    }
}

impl vstd::std_specs::convert::FromSpecImpl<WorkerControlMessage> for AudioRecorderMessage {
    open spec fn obeys_from_spec() -> bool {
        true
    }

    open spec fn from_spec(msg: WorkerControlMessage) -> Self {
        AudioRecorderMessage::Quit
    }
}

/// What became of a chunk that the device callback offered to the encode
/// actor.
#[derive(Clone, Copy, Debug, PartialEq, Eq, Structural)]
pub enum Handoff {
    /// It is in the actor's queue.
    Queued,
    /// The queue was full: the chunk is dropped.
    DroppedFull,
    /// The actor is gone: the chunk is dropped.
    DroppedClosed,
}

/// What the encode actor does with what it received.
pub enum AudioStep {
    /// Encode this chunk, then forward every packet that the encoder gives.
    Encode(RawAudioChunk),
    /// Leave the loop.
    Stop,
}

/// Whether `chunk` is what the callback makes of `sample_count` interleaved
/// samples held in `bytes` when the clock gives `pts`: the samples are shared
/// out over the channels and the bytes are kept as they are.
pub open spec fn chunk_of(pts: i64, sample_count: usize, bytes: Seq<u8>, chunk: RawAudioChunk) -> bool {
    &&& chunk.pts == pts
    &&& chunk.samples == sample_count / (CHANNEL_COUNT as usize)
    &&& chunk.data@ == bytes
}

/// Stamps the samples that the device delivered with the current time. The
/// bytes are taken over unchanged.
pub fn stamp_chunk(time: &SlickscreenTime, sample_count: usize, bytes: &[u8]) -> (chunk:
    RawAudioChunk)
    ensures
        exists|micros: u128| chunk_of(pts_of_micros(micros), sample_count, bytes@, chunk),
        0 <= chunk.pts,
{
    let pts = time.pts_now();
    let chunk = RawAudioChunk {
        pts,
        samples: sample_count / (CHANNEL_COUNT as usize),
        data: slice_to_vec(bytes),
    };
    assert(chunk_of(pts, sample_count, bytes@, chunk));
    chunk
}

/// What became of a message after a send that does not wait: it is queued,
/// or it is dropped, for a full queue or for a vanished receiver.
pub fn handoff_of<M>(offered: Offered<M>) -> (handoff: Handoff)
    ensures
        handoff == (match offered {
            Offered::Queued => Handoff::Queued,
            Offered::Full(_) => Handoff::DroppedFull,
            Offered::Closed(_) => Handoff::DroppedClosed,
        }),
{
    match offered {
        Offered::Queued => Handoff::Queued,
        Offered::Full(_) => Handoff::DroppedFull,
        Offered::Closed(_) => Handoff::DroppedClosed,
    }
}

/// The message that carries a stamped chunk to the encode actor: the chunk
/// with its own timestamp beside it.
pub fn chunk_message(chunk: RawAudioChunk) -> (message: AudioRecorderMessage)
    ensures
        message == AudioRecorderMessage::RawAudioPacket(chunk.pts, chunk),
{
    let pts = chunk.pts;
    AudioRecorderMessage::RawAudioPacket(pts, chunk)
}

/// Offers a stamped chunk to the encode actor without waiting, so that the
/// device callback is never held up. A chunk that finds the queue full or the
/// actor gone is dropped.
pub fn offer_chunk(sender: &Sender<AudioRecorderMessage>, chunk: RawAudioChunk) -> (handoff:
    Handoff) {
    handoff_of(send_now(sender, chunk_message(chunk)))
}

/// The step that follows what the encode actor received: a chunk is encoded;
/// a quit signal or a closed queue ends the loop.
pub open spec fn audio_step_of(received: Option<AudioRecorderMessage>) -> AudioStep {
    match received {
        Some(AudioRecorderMessage::RawAudioPacket(_, chunk)) => AudioStep::Encode(chunk),
        Some(AudioRecorderMessage::Quit) => AudioStep::Stop,
        None => AudioStep::Stop,
    }
}

/// Decides what the encode actor does with what it received.
pub fn audio_step(received: Option<AudioRecorderMessage>) -> (step: AudioStep)
    ensures
        step == audio_step_of(received),
{
    match received {
        Some(AudioRecorderMessage::RawAudioPacket(_, chunk)) => AudioStep::Encode(chunk),
        Some(AudioRecorderMessage::Quit) => AudioStep::Stop,
        None => AudioStep::Stop,
    }
}

/// Waits for the next message of the encode actor and decides what to do
/// with it.
pub fn next_audio_step(receiver: &Receiver<AudioRecorderMessage>) -> (step: AudioStep) {
    audio_step(receive_blocking(receiver))
}

/// Which of the offered chunks reached the queue.
pub open spec fn queued(handoffs: Seq<Handoff>) -> Seq<bool> {
    Seq::new(handoffs.len(), |i: int| handoffs[i] == Handoff::Queued)
}

/// On a steady clock the timestamps of the chunks that reach the encode
/// actor never go back, whichever chunks were dropped on the way.
pub proof fn lemma_audio_timestamps_ordered(readings: Seq<u128>, handoffs: Seq<Handoff>)
    requires
        readings.len() == handoffs.len(),
        steady_clock(readings),
    ensures
        non_decreasing(stamps(readings, queued(handoffs))),
        stamps(readings, queued(handoffs)).len() == queued(handoffs).filter(|q: bool| q).len(),
{
    lemma_stamps_ordered(readings, queued(handoffs));
}

} // verus!
