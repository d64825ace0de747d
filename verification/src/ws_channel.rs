//! The per-connection message channel: the native event loop pushes inbound
//! [`WsMessage`] frames into the sender half from the loop thread, and the
//! owning task pulls them from the receiver half. The channel is the single
//! bridge that turns push-style frame delivery into pull-style consumption.

use crate::ws_message::WsMessage;
use vstd::prelude::*;

verus! {

#[verifier::external_type_specification]
#[verifier::external_body]
#[verifier::reject_recursive_types(T)]
pub struct ExUnboundedSender<T>(tokio::sync::mpsc::UnboundedSender<T>);

#[verifier::external_type_specification]
#[verifier::external_body]
#[verifier::reject_recursive_types(T)]
pub struct ExUnboundedReceiver<T>(tokio::sync::mpsc::UnboundedReceiver<T>);

/// What pushing a frame into a channel's sender half yielded.
#[derive(Debug)]
pub enum SendOutcome {
    /// The frame was queued for the receiver.
    Accepted,
    /// The receiver half is gone; the frame comes back to the caller.
    ChannelClosed(WsMessage),
}

/// What polling a channel's receiver half yielded.
#[derive(Debug)]
pub enum ReceivePoll {
    /// The next queued frame, in the order the senders pushed them.
    Frame(WsMessage),
    /// No frame is queued right now, but senders remain.
    Empty,
    /// The channel is permanently closed: every sender is gone and the queue
    /// has been drained. The consuming loop must terminate.
    Disconnected,
}

/// Relies on tokio's `mpsc::unbounded_channel`: the two halves share one
/// queue; frames pushed into the sender come out of the receiver in push
/// order.
#[verifier::external_body]
fn raw_frame_channel() -> (
    tokio::sync::mpsc::UnboundedSender<WsMessage>,
    tokio::sync::mpsc::UnboundedReceiver<WsMessage>,
) {
    tokio::sync::mpsc::unbounded_channel::<WsMessage>()
}

/// Relies on tokio's `UnboundedSender::send`: it queues the frame without
/// blocking, and when the receiver half has been dropped it returns the frame
/// unsent inside the error.
#[verifier::external_body]
fn raw_send(sink: &tokio::sync::mpsc::UnboundedSender<WsMessage>, message: WsMessage) -> (r:
    SendOutcome)
    ensures
        r matches SendOutcome::ChannelClosed(back) ==> back == message,
{
    match sink.send(message) {
        Ok(()) => SendOutcome::Accepted,
        Err(tokio::sync::mpsc::error::SendError(back)) => SendOutcome::ChannelClosed(back),
    }
}

/// Relies on tokio's `UnboundedReceiver::try_recv`: it pops the next queued
/// frame, or reports the queue empty, or reports the channel closed once
/// every sender is gone and the queue is drained.
#[verifier::external_body]
fn raw_try_recv(stream: &mut tokio::sync::mpsc::UnboundedReceiver<WsMessage>) -> ReceivePoll {
    match stream.try_recv() {
        Ok(message) => ReceivePoll::Frame(message),
        Err(tokio::sync::mpsc::error::TryRecvError::Empty) => ReceivePoll::Empty,
        Err(tokio::sync::mpsc::error::TryRecvError::Disconnected) => ReceivePoll::Disconnected,
    }
}

/// Opens a fresh per-connection channel: the sender half is installed where
/// the native callback path can reach it, the receiver half goes to the
/// owning task.
pub fn open_frame_channel() -> (
    tokio::sync::mpsc::UnboundedSender<WsMessage>,
    tokio::sync::mpsc::UnboundedReceiver<WsMessage>,
) {
    raw_frame_channel()
}

/// Pushes one frame into the sender half. When the receiving task is gone
/// the frame is handed back unchanged inside the outcome.
pub fn push_frame(sink: &tokio::sync::mpsc::UnboundedSender<WsMessage>, message: WsMessage) -> (r:
    SendOutcome)
    ensures
        r matches SendOutcome::ChannelClosed(back) ==> back == message,
{
    raw_send(sink, message)
}

/// Polls the receiver half for the next frame without suspending.
pub fn poll_frame(stream: &mut tokio::sync::mpsc::UnboundedReceiver<WsMessage>) -> ReceivePoll {
    raw_try_recv(stream)
}

/// The consuming loop's state: still receiving frames, or finished because a
/// close frame was observed (or the channel ended).
#[derive(Clone, Copy, PartialEq, Eq, Structural, Debug)]
pub enum ReceiveState {
    Receiving,
    Finished,
}

/// One step of the consuming loop: observing a close frame ends the loop,
/// and a finished loop observes nothing further.
pub open spec fn next_receive_state(state: ReceiveState, message: WsMessage) -> ReceiveState {
    if state is Finished || message.is_close_spec() {
        ReceiveState::Finished
    } else {
        ReceiveState::Receiving
    }
}

/// Advances the consuming loop by one observed frame.
pub fn receive_step(state: ReceiveState, message: &WsMessage) -> (next: ReceiveState)
    ensures
        next == next_receive_state(state, *message),
{
    if matches!(state, ReceiveState::Finished) || message.is_close() {
        ReceiveState::Finished
    } else {
        ReceiveState::Receiving
    }
}

/// The loop state after a whole sequence of inbound frames has been pushed
/// at the consumer, frame by frame.
pub open spec fn state_after(frames: Seq<WsMessage>) -> ReceiveState
    decreases frames.len(),
{
    if frames.len() == 0 {
        ReceiveState::Receiving
    } else {
        next_receive_state(state_after(frames.drop_last()), frames.last())
    }
}

/// The frames a consumer that follows the close rule actually observes: the
/// prefix of the inbound sequence up to and including the first close frame.
pub open spec fn delivered_frames(frames: Seq<WsMessage>) -> Seq<WsMessage>
    decreases frames.len(),
{
    if frames.len() == 0 {
        Seq::empty()
    } else if state_after(frames.drop_last()) is Finished {
        delivered_frames(frames.drop_last())
    } else {
        delivered_frames(frames.drop_last()).push(frames.last())
    }
}

/// Among the observed frames, only the final one can be a close frame, and
/// the loop is finished exactly when a close frame was observed.
pub proof fn lemma_delivery_invariant(frames: Seq<WsMessage>)
    ensures
        forall|i: int|
            0 <= i < delivered_frames(frames).len() - 1 ==> !delivered_frames(
                frames,
            )[i].is_close_spec(),
        state_after(frames) is Finished <==> delivered_frames(frames).len() > 0
            && delivered_frames(frames).last().is_close_spec(),
    decreases frames.len(),
{
    if frames.len() > 0 {
        lemma_delivery_invariant(frames.drop_last());
    }
}

/// A close frame, once observed by the consumer, is never followed by a
/// further data, ping or pong frame: whatever the inbound sequence was, an
/// observed close frame is the last observed frame.
pub proof fn lemma_no_frame_follows_close(frames: Seq<WsMessage>)
    ensures
        forall|i: int|
            0 <= i < delivered_frames(frames).len() - 1 ==> !(#[trigger] delivered_frames(
                frames,
            )[i]).is_close_spec(),
{
    lemma_delivery_invariant(frames);
}

/// Drains the receiver without suspending, observing at most `max_frames`
/// frames in queue order and stopping at the first close frame (or when no
/// frame is ready). The result never holds a frame after a close frame.
pub fn collect_session_frames(
    stream: &mut tokio::sync::mpsc::UnboundedReceiver<WsMessage>,
    max_frames: usize,
) -> (r: Vec<WsMessage>)
    ensures
        forall|i: int| 0 <= i < r.len() - 1 ==> !r[i].is_close_spec(),
        r.len() <= max_frames,
{
    let mut out: Vec<WsMessage> = Vec::new();
    let mut state = ReceiveState::Receiving;
    while out.len() < max_frames
        invariant
            out.len() <= max_frames,
            state is Receiving,
            forall|i: int| 0 <= i < out.len() ==> !out[i].is_close_spec(),
        decreases max_frames - out.len(),
    {
        match poll_frame(stream) {
            ReceivePoll::Frame(message) => {
                state = receive_step(state, &message);
                out.push(message);
                if matches!(state, ReceiveState::Finished) {
                    return out;
                }
            },
            ReceivePoll::Empty => {
                return out;
            },
            ReceivePoll::Disconnected => {
                return out;
            },
        }
    }
    out
}

} // verus!
