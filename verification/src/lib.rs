//! Screen and system-audio recording pipeline: the timing, buffer and
//! lifecycle rules that the capture, encode and mux actors follow.

pub mod audio_recorder;
pub mod error;
pub mod util;
pub mod video_recorder;
pub mod worker;

pub use error::SlickscreenError;

use crossbeam::channel::Receiver;
use crossbeam::channel::Sender;
use util::TimeBase;
use vstd::prelude::*;
use worker::forward;
use worker::receive_blocking;
use worker::LoopControl;
use worker::WorkerControlMessage;
use worker::WorkerError;

verus! {

/// What a recording session is started with.
#[derive(Clone, Debug)]
pub struct SlickscreenConfig {
    /// Where the recording is written.
    pub output_file: Option<String>,
}

impl Default for SlickscreenConfig {
    fn default() -> (config: Self)
        ensures
            config.output_file is None,
    {
        SlickscreenConfig { output_file: None }
    }
}

/// The two streams of a recording.
#[derive(Clone, Copy, Debug, PartialEq, Eq, Structural)]
pub enum StreamKind {
    Audio,
    Video,
}

/// The messages that the muxer takes: encoded packets of either stream, and
/// the signal to finish. A packet is whatever the encoders give; the muxer
/// never looks inside.
pub enum SlickscreenMessage<P> {
    Quit,
    Audio(P),
    Video(P),
}

impl<P> From<WorkerControlMessage> for SlickscreenMessage<P> {
    fn from(msg: WorkerControlMessage) -> (message: Self) {
        match msg {
            WorkerControlMessage::Quit => SlickscreenMessage::Quit,
        }
    }
}

impl<P> vstd::std_specs::convert::FromSpecImpl<WorkerControlMessage> for SlickscreenMessage<P> {
    open spec fn obeys_from_spec() -> bool {
        true
    }

    open spec fn from_spec(msg: WorkerControlMessage) -> Self {
        SlickscreenMessage::Quit
    }
}

/// A stream of the container: its index there and the time base that the
/// container gave it when the header was written.
#[derive(Clone, Copy, Debug, PartialEq, Eq, Structural)]
pub struct StreamSlot {
    pub index: usize,
    pub time_base: TimeBase,
}

/// The streams of the container, fixed once its header is written.
#[derive(Clone, Copy, Debug, PartialEq, Eq, Structural)]
pub struct MuxerStreams {
    pub audio: StreamSlot,
    pub video: StreamSlot,
}

impl MuxerStreams {
    /// The stream that packets of `kind` go to.
    pub open spec fn slot_of(&self, kind: StreamKind) -> StreamSlot {
        match kind {
            StreamKind::Audio => self.audio,
            StreamKind::Video => self.video,
        }
    }

    /// The stream that packets of `kind` go to.
    pub fn slot(&self, kind: StreamKind) -> (slot: StreamSlot)
        ensures
            slot == self.slot_of(kind),
    {
        match kind {
            StreamKind::Audio => self.audio,
            StreamKind::Video => self.video,
        }
    }
}

/// What the muxer does next.
pub enum MuxAction<P> {
    /// Rescale the packet's timestamps from `from` to the time base of the
    /// stream, tag it with the stream's index and write it interleaved.
    Write { packet: P, kind: StreamKind, from: TimeBase, to: StreamSlot },
    /// Write the trailer and leave the loop.
    Finish,
    /// Leave the loop: every sender is gone.
    Stop,
}

/// The action that follows what the muxer received. A packet goes to the
/// stream of its kind, rescaled from microseconds; the quit signal finishes
/// the container; a closed queue ends the loop with nothing written.
pub open spec fn mux_action_of<P>(
    streams: MuxerStreams,
    received: Option<SlickscreenMessage<P>>,
) -> MuxAction<P> {
    match received {
        Some(SlickscreenMessage::Audio(packet)) => MuxAction::Write {
            packet,
            kind: StreamKind::Audio,
            from: TimeBase { numerator: 1, denominator: 1_000_000 },
            to: streams.audio,
        },
        Some(SlickscreenMessage::Video(packet)) => MuxAction::Write {
            packet,
            kind: StreamKind::Video,
            from: TimeBase { numerator: 1, denominator: 1_000_000 },
            to: streams.video,
        },
        Some(SlickscreenMessage::Quit) => MuxAction::Finish,
        None => MuxAction::Stop,
    }
}

/// Decides what the muxer does with what it received.
pub fn mux_step<P>(streams: &MuxerStreams, received: Option<SlickscreenMessage<P>>) -> (action:
    MuxAction<P>)
    ensures
        action == mux_action_of(*streams, received),
{
    match received {
        Some(SlickscreenMessage::Audio(packet)) => MuxAction::Write {
            packet,
            kind: StreamKind::Audio,
            from: util::stream_time_base(),
            to: streams.slot(StreamKind::Audio),
        },
        Some(SlickscreenMessage::Video(packet)) => MuxAction::Write {
            packet,
            kind: StreamKind::Video,
            from: util::stream_time_base(),
            to: streams.slot(StreamKind::Video),
        },
        Some(SlickscreenMessage::Quit) => MuxAction::Finish,
        None => MuxAction::Stop,
    }
}

/// Waits for the next message of the muxer and decides what to do with it.
/// Whatever arrives, the action is the one that belongs to it: a packet is
/// only ever written to the stream of its kind, rescaled from microseconds.
pub fn next_mux_step<P>(streams: &MuxerStreams, receiver: &Receiver<SlickscreenMessage<P>>) -> (action:
    MuxAction<P>)
    ensures
        exists|received: Option<SlickscreenMessage<P>>|
            action == mux_action_of(*streams, received),
{
    mux_step(streams, receive_blocking(receiver))
}

/// The message that carries an encoded packet of `kind` to the muxer: the
/// packet under the tag of its own stream.
pub open spec fn packet_message_of<P>(kind: StreamKind, packet: P) -> SlickscreenMessage<P> {
    match kind {
        StreamKind::Audio => SlickscreenMessage::Audio(packet),
        StreamKind::Video => SlickscreenMessage::Video(packet),
    }
}

/// Tags an encoded packet with its stream.
pub fn packet_message<P>(kind: StreamKind, packet: P) -> (message: SlickscreenMessage<P>)
    ensures
        message == packet_message_of(kind, packet),
{
    match kind {
        StreamKind::Audio => SlickscreenMessage::Audio(packet),
        StreamKind::Video => SlickscreenMessage::Video(packet),
    }
}

/// Hands an encoded packet of `kind` to the muxer, tagged with its stream,
/// waiting while the muxer's queue is full. The encode actor goes on unless
/// the muxer has vanished.
pub fn forward_packet<P>(sender: &Sender<SlickscreenMessage<P>>, kind: StreamKind, packet: P) -> (control:
    LoopControl) {
    forward(sender, packet_message(kind, packet))
}

/// The packets of `kind` that the muxer writes when `messages` arrive in
/// this order: it takes one message after the other and stops at the first
/// quit signal.
pub open spec fn written<P>(
    streams: MuxerStreams,
    kind: StreamKind,
    messages: Seq<SlickscreenMessage<P>>,
) -> Seq<P>
    decreases messages.len(),
{
    if messages.len() == 0 {
        Seq::empty()
    } else {
        match mux_action_of(streams, Some(messages.first())) {
            MuxAction::Write { packet, kind: to, from: _, to: _ } => {
                let later = written(streams, kind, messages.drop_first());
                if to == kind {
                    seq![packet] + later
                } else {
                    later
                }
            },
            _ => Seq::empty(),
        }
    }
}

/// The messages that arrive before the first quit signal.
pub open spec fn before_quit<P>(messages: Seq<SlickscreenMessage<P>>) -> Seq<SlickscreenMessage<P>>
    decreases messages.len(),
{
    if messages.len() == 0 || messages.first() is Quit {
        Seq::empty()
    } else {
        seq![messages.first()] + before_quit(messages.drop_first())
    }
}

/// The packets of `kind` among `messages`, in their order.
pub open spec fn packets_of<P>(kind: StreamKind, messages: Seq<SlickscreenMessage<P>>) -> Seq<P>
    decreases messages.len(),
{
    if messages.len() == 0 {
        Seq::empty()
    } else {
        let later = packets_of(kind, messages.drop_first());
        match (kind, messages.first()) {
            (StreamKind::Audio, SlickscreenMessage::Audio(packet)) => seq![packet] + later,
            (StreamKind::Video, SlickscreenMessage::Video(packet)) => seq![packet] + later,
            _ => later,
        }
    }
}

/// The muxer writes the packets of each stream in the order in which they
/// arrived, all those that came before the quit signal and none that came
/// after it.
pub proof fn lemma_mux_keeps_stream_order<P>(
    streams: MuxerStreams,
    kind: StreamKind,
    messages: Seq<SlickscreenMessage<P>>,
)
    ensures
        written(streams, kind, messages) == packets_of(kind, before_quit(messages)),
    decreases messages.len(),
{
    if messages.len() > 0 && !(messages.first() is Quit) {
        lemma_mux_keeps_stream_order(streams, kind, messages.drop_first());
        let kept = seq![messages.first()] + before_quit(messages.drop_first());
        assert(kept.first() == messages.first());
        assert(kept.drop_first() =~= before_quit(messages.drop_first()));
    } else {
        assert(packets_of(kind, Seq::<SlickscreenMessage<P>>::empty()) =~= Seq::<P>::empty());
    }
}

/// Messages that hold no quit signal, followed by one, are all taken before
/// the muxer finishes.
pub proof fn lemma_before_quit_takes_all<P>(messages: Seq<SlickscreenMessage<P>>)
    requires
        forall|i: int| 0 <= i < messages.len() ==> !(#[trigger] messages[i] is Quit),
    ensures
        before_quit(messages.push(SlickscreenMessage::Quit)) == messages,
    decreases messages.len(),
{
    let all = messages.push(SlickscreenMessage::Quit);
    if messages.len() == 0 {
        assert(all.first() is Quit);
        assert(before_quit(all) =~= messages);
    } else {
        assert(all.first() == messages[0]);
        assert(all.drop_first() =~= messages.drop_first().push(SlickscreenMessage::Quit));
        assert forall|i: int| 0 <= i < messages.drop_first().len() implies !(
        #[trigger] messages.drop_first()[i] is Quit) by {
            assert(messages.drop_first()[i] == messages[i + 1]);
        }
        lemma_before_quit_takes_all(messages.drop_first());
        assert(before_quit(all) =~= messages);
    }
}

/// When packets of both streams arrive in any order and are followed by the
/// quit signal, the muxer writes to each stream exactly the packets of that
/// stream, in the order in which they arrived: none is lost, written twice
/// or written to the other stream.
pub proof fn lemma_mux_writes_every_packet<P>(
    streams: MuxerStreams,
    kind: StreamKind,
    messages: Seq<SlickscreenMessage<P>>,
)
    requires
        forall|i: int| 0 <= i < messages.len() ==> !(#[trigger] messages[i] is Quit),
    ensures
        written(streams, kind, messages.push(SlickscreenMessage::Quit)) == packets_of(
            kind,
            messages,
        ),
{
    lemma_mux_keeps_stream_order(streams, kind, messages.push(SlickscreenMessage::Quit));
    lemma_before_quit_takes_all(messages);
}

/// The actors of a session.
#[derive(Clone, Copy, Debug, PartialEq, Eq, Structural)]
pub enum Stage {
    Audio,
    Video,
    Muxer,
}

/// The order in which the actors of a session are started: the muxer, whose
/// queue the others feed, before the two capture pipelines.
pub fn start_order() -> (order: [Stage; 3])
    ensures
        order@ == seq![Stage::Muxer, Stage::Audio, Stage::Video],
{
    let order = [Stage::Muxer, Stage::Audio, Stage::Video];
    assert(order@ =~= seq![Stage::Muxer, Stage::Audio, Stage::Video]);
    order
}

/// The order in which the actors of a session are stopped: the producers
/// before the muxer, so that the packets already queued are still written.
pub fn stop_order() -> (order: [Stage; 3])
    ensures
        order@ == seq![Stage::Audio, Stage::Video, Stage::Muxer],
{
    let order = [Stage::Audio, Stage::Video, Stage::Muxer];
    assert(order@ =~= seq![Stage::Audio, Stage::Video, Stage::Muxer]);
    order
}

/// The failures among the results of stopping the three actors, each with
/// its actor, in stop order.
pub open spec fn stop_failures(
    audio: Result<(), WorkerError>,
    video: Result<(), WorkerError>,
    muxer: Result<(), WorkerError>,
) -> Seq<(Stage, WorkerError)> {
    let of_audio = match audio {
        Err(error) => seq![(Stage::Audio, error)],
        Ok(_) => Seq::empty(),
    };
    let of_video = match video {
        Err(error) => seq![(Stage::Video, error)],
        Ok(_) => Seq::empty(),
    };
    let of_muxer = match muxer {
        Err(error) => seq![(Stage::Muxer, error)],
        Ok(_) => Seq::empty(),
    };
    of_audio + of_video + of_muxer
}

/// Gathers what went wrong while the three actors were stopped. A failure of
/// one actor does not keep the others from being stopped, so every result is
/// there; the failures are reported in stop order.
pub fn stop_report(
    audio: Result<(), WorkerError>,
    video: Result<(), WorkerError>,
    muxer: Result<(), WorkerError>,
) -> (failures: Vec<(Stage, WorkerError)>)
    ensures
        failures@ == stop_failures(audio, video, muxer),
{
    let mut failures: Vec<(Stage, WorkerError)> = Vec::new();
    if let Err(error) = audio {
        failures.push((Stage::Audio, error));
    }
    if let Err(error) = video {
        failures.push((Stage::Video, error));
    }
    if let Err(error) = muxer {
        failures.push((Stage::Muxer, error));
    }
    assert(failures@ =~= stop_failures(audio, video, muxer));
    failures
}

} // verus!
