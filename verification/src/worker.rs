//! The rules that every actor of the pipeline shares: its control signal, the
//! queue operations it uses, and how a stop call reports what happened.

use crossbeam::channel::Receiver;
use crossbeam::channel::Sender;
use vstd::prelude::*;

verus! {

/// `crossbeam::channel::Sender`, the sending half of a queue, carried through
/// as an opaque value.
#[verifier::external_type_specification]
#[verifier::external_body]
#[verifier::reject_recursive_types(T)]
pub struct ExSender<T>(Sender<T>);

/// `crossbeam::channel::Receiver`, the receiving half of a queue, carried
/// through as an opaque value.
#[verifier::external_type_specification]
#[verifier::external_body]
#[verifier::reject_recursive_types(T)]
pub struct ExReceiver<T>(Receiver<T>);

/// The number of messages that an actor's inbound queue holds unless the
/// caller asks for another bound.
pub const DEFAULT_CAPACITY: usize = 100;

/// The lifecycle signals that every actor understands.
#[derive(Clone, Copy, Debug, PartialEq, Eq, Structural)]
pub enum WorkerControlMessage {
    Quit,
}

/// Whether an actor goes on with its loop or leaves it.
#[derive(Clone, Copy, Debug, PartialEq, Eq, Structural)]
pub enum LoopControl {
    Continue,
    Exit,
}

/// What a non-blocking send came to.
pub enum Offered<M> {
    /// The message is in the queue.
    Queued,
    /// The queue was full; the message comes back.
    Full(M),
    /// The receiving side is gone; the message comes back.
    Closed(M),
}

/// What a non-blocking receive came to.
pub enum Polled<M> {
    /// A message was waiting.
    Message(M),
    /// Nothing was waiting.
    Empty,
    /// Nothing was waiting and every sender is gone.
    Closed,
}

/// How the thread of an actor ended when it was joined.
pub enum JoinOutcome {
    /// The body returned.
    Finished,
    /// The body panicked, with the text of the payload where it was a string.
    Panicked(Option<String>),
}

/// Why stopping an actor did not go cleanly.
#[derive(Debug, Clone)]
pub enum WorkerError {
    /// It was impossible to send a quit message to the worker thread.
    WorkerSendError,
    /// The worker thread had panicked when it was joined.
    WorkerPanic(String),
}

/// The text `WorkerError::WorkerPanic` carries for a payload: the payload's
/// own text, or a fixed marker where it had none.
pub open spec fn panic_text(payload: Option<String>) -> Seq<char> {
    match payload {
        Some(text) => text@,
        None => "non-string panic"@,
    }
}

/// What a stop call reports: a panic of the thread before anything else, then
/// a quit signal that could not be delivered.
pub open spec fn stop_reports(delivered: bool, joined: JoinOutcome, result: Result<(), WorkerError>) -> bool {
    match joined {
        JoinOutcome::Panicked(payload) => result matches Err(WorkerError::WorkerPanic(text))
            && text@ == panic_text(payload),
        JoinOutcome::Finished => if delivered {
            result is Ok
        } else {
            result matches Err(WorkerError::WorkerSendError)
        },
    }
}

/// `str`'s `Debug` form: the text between double quotes, with escapes.
pub uninterp spec fn debug_quoted(text: Seq<char>) -> Seq<char>;

/// `format!("{:?}", text)` on a string slice: std's `Debug` form of the text,
/// which is a function of the text alone.
#[verifier::external_body]
fn quote_text(text: &str) -> (quoted: String)
    ensures
        quoted@ == debug_quoted(text@),
{
    format!("{:?}", text)
}

impl WorkerError {
    /// The error for a thread that panicked with `payload`.
    pub fn from_panic(payload: Option<String>) -> (error: WorkerError)
        ensures
            error matches WorkerError::WorkerPanic(text) && text@ == panic_text(payload),
    {
        match payload {
            Some(text) => WorkerError::WorkerPanic(text),
            None => WorkerError::WorkerPanic(String::from_str("non-string panic")),
        }
    }

    /// The text that `describe` gives: the variant's name, followed for a
    /// panic by the quoted payload text in parentheses.
    pub open spec fn description(&self) -> Seq<char> {
        match self {
            WorkerError::WorkerSendError => "WorkerSendError"@,
            WorkerError::WorkerPanic(text) => "WorkerPanic("@ + debug_quoted(text@) + ")"@,
        }
    }

    /// The error as text.
    pub fn describe(&self) -> (text: String)
        ensures
            text@ == self.description(),
    {
        match self {
            WorkerError::WorkerSendError => String::from_str("WorkerSendError"),
            WorkerError::WorkerPanic(payload) => {
                let quoted = quote_text(payload.as_str());
                String::from_str("WorkerPanic(").concat(quoted.as_str()).concat(")")
            },
        }
    }
}

/// `Sender::send`: blocks until the message is queued or the receiving side
/// is gone. On failure the message comes back.
#[verifier::external_body]
pub(crate) fn send_blocking<M>(sender: &Sender<M>, message: M) -> (sent: Result<(), M>)
    ensures
        sent matches Err(returned) ==> returned == message,
{
    match sender.send(message) {
        Ok(()) => Ok(()),
        Err(crossbeam::channel::SendError(message)) => Err(message),
    }
}

/// `Sender::try_send`: queues the message if there is room and a receiver,
/// without waiting. On failure the message comes back.
#[verifier::external_body]
pub(crate) fn send_now<M>(sender: &Sender<M>, message: M) -> (offered: Offered<M>)
    ensures
        offered matches Offered::Full(returned) ==> returned == message,
        offered matches Offered::Closed(returned) ==> returned == message,
{
    match sender.try_send(message) {
        Ok(()) => Offered::Queued,
        Err(crossbeam::channel::TrySendError::Full(message)) => Offered::Full(message),
        Err(crossbeam::channel::TrySendError::Disconnected(message)) => Offered::Closed(message),
    }
}

/// `Receiver::try_recv`: takes a waiting message, without waiting for one.
#[verifier::external_body]
pub(crate) fn receive_now<M>(receiver: &Receiver<M>) -> (polled: Polled<M>) {
    match receiver.try_recv() {
        Ok(message) => Polled::Message(message),
        Err(crossbeam::channel::TryRecvError::Empty) => Polled::Empty,
        Err(crossbeam::channel::TryRecvError::Disconnected) => Polled::Closed,
    }
}

/// `Receiver::recv`: waits for the next message; `None` once the queue is
/// empty and every sender is gone.
#[verifier::external_body]
pub(crate) fn receive_blocking<M>(receiver: &Receiver<M>) -> (received: Option<M>) {
    receiver.recv().ok()
}

/// What can go wrong inside the loop of an actor.
#[derive(Clone, Copy, Debug, PartialEq, Eq, Structural)]
pub enum StageFailure {
    /// A frame could not be brought into the layout that the encoder takes.
    Conversion,
    /// The encoder refused a frame or a chunk.
    Encode,
    /// The container refused a packet.
    Write,
    /// The container's header could not be written.
    Header,
}

/// What an actor does after a failure in its loop. A frame that cannot be
/// converted or encoded ends the actor; a packet or a header that the
/// container refuses is given up and the muxer goes on.
pub open spec fn failure_verdict_of(failure: StageFailure) -> LoopControl {
    match failure {
        StageFailure::Conversion => LoopControl::Exit,
        StageFailure::Encode => LoopControl::Exit,
        StageFailure::Write => LoopControl::Continue,
        StageFailure::Header => LoopControl::Continue,
    }
}

/// Decides whether an actor goes on after a failure in its loop.
pub fn failure_verdict(failure: StageFailure) -> (control: LoopControl)
    ensures
        control == failure_verdict_of(failure),
{
    match failure {
        StageFailure::Conversion => LoopControl::Exit,
        StageFailure::Encode => LoopControl::Exit,
        StageFailure::Write => LoopControl::Continue,
        StageFailure::Header => LoopControl::Continue,
    }
}

/// What an actor does after a blocking send: it goes on if the message was
/// queued and leaves its loop if the receiver has vanished.
pub fn after_send<M>(sent: Result<(), M>) -> (control: LoopControl)
    ensures
        control == (if sent is Ok {
            LoopControl::Continue
        } else {
            LoopControl::Exit
        }),
{
    match sent {
        Ok(()) => LoopControl::Continue,
        Err(_) => LoopControl::Exit,
    }
}

/// Hands `message` to the next stage, waiting while its queue is full. The
/// actor goes on unless the receiver has vanished.
pub fn forward<M>(sender: &Sender<M>, message: M) -> (control: LoopControl) {
    after_send(send_blocking(sender, message))
}

/// Asks the actor behind `sender` to quit, waiting while its queue is full.
/// Tells whether the signal was queued; it was not if the actor's receiver is
/// gone.
pub fn request_quit<M: From<WorkerControlMessage>>(sender: &Sender<M>) -> (delivered: bool) {
    let message = M::from(WorkerControlMessage::Quit);
    send_blocking(sender, message).is_ok()
}

/// The result of stopping an actor, from whether the quit signal was
/// delivered and how joining its thread ended. A panic is reported before a
/// lost receiver; the thread has been joined either way.
pub fn stop_result(delivered: bool, joined: JoinOutcome) -> (result: Result<(), WorkerError>)
    ensures
        stop_reports(delivered, joined, result),
{
    match joined {
        JoinOutcome::Panicked(payload) => Err(WorkerError::from_panic(payload)),
        JoinOutcome::Finished => if delivered {
            Ok(())
        } else {
            Err(WorkerError::WorkerSendError)
        },
    }
}

} // verus!
