//! The channel layer: declarations and thin wrappers around the
//! crossbeam-channel endpoints that the client and the event-loop driver
//! share, together with the two endpoint types the library builds on them.
//!
//! `StopSender` carries the client's stop signals to the driver and keeps a
//! ghost history of every message it has successfully enqueued, so contracts
//! can count stop signals. `WatcherChannel` holds the watcher wiring as it
//! stands today: a fresh channel pair whose sending side is dropped at once,
//! so polling it can never yield an event.

use vstd::prelude::*;

use crate::messages::EventLoopMsg;

verus! {

/// Declaration of crossbeam-channel's `Sender`, so that endpoint values can
/// sit in fields and signatures. The type stays opaque to the verifier.
#[verifier::external_type_specification]
#[verifier::external_body]
#[verifier::reject_recursive_types(T)]
pub struct ExSender<T>(crossbeam_channel::Sender<T>);

/// Declaration of crossbeam-channel's `Receiver`, so that endpoint values can
/// sit in fields and signatures. The type stays opaque to the verifier.
#[verifier::external_type_specification]
#[verifier::external_body]
#[verifier::reject_recursive_types(T)]
pub struct ExReceiver<T>(crossbeam_channel::Receiver<T>);

/// Declaration of notify's `Event`, the payload the watcher channel was meant
/// to carry. The type stays opaque to the verifier.
#[verifier::external_type_specification]
#[verifier::external_body]
pub struct ExNotifyEvent(notify::Event);

/// Declaration of notify's `Error`, the error half of the watcher payload.
/// The type stays opaque to the verifier.
#[verifier::external_type_specification]
#[verifier::external_body]
pub struct ExNotifyError(notify::Error);

/// Error returned when a message could not be enqueued because every
/// receiver of the channel has been dropped.
#[derive(Clone, Copy, Debug, PartialEq, Eq, Structural)]
pub struct ChannelClosed;

/// Outcome of one non-blocking poll of the driver's control channel.
#[derive(Clone, Copy, Debug, PartialEq, Eq, Structural)]
pub enum StopPoll {
    /// A message was waiting and is handed over.
    Received(EventLoopMsg),
    /// No message was waiting, but senders still exist.
    Empty,
    /// No message was waiting and every sender has been dropped.
    Disconnected,
}

/// Relies on crossbeam-channel's `Sender::send`: on an unbounded channel it
/// enqueues the message without blocking and returns `Ok`, unless every
/// receiver of the channel has been dropped, in which case it returns an
/// error and the message is lost. Nothing is promised about the channel's
/// contents, which other endpoints share.
#[verifier::external_body]
fn send_stop_raw(
    sender: &crossbeam_channel::Sender<EventLoopMsg>,
    msg: EventLoopMsg,
) -> (r: Result<(), ChannelClosed>) {
    match sender.send(msg) {
        Ok(()) => Ok(()),
        Err(_) => Err(ChannelClosed),
    }
}

/// Relies on crossbeam-channel's `Receiver::try_recv`: it returns a waiting
/// message without blocking, `Err(TryRecvError::Empty)` when none waits, and
/// `Err(TryRecvError::Disconnected)` when none waits and every sender has
/// been dropped. The three cases are passed on one for one. Nothing is
/// promised about which case comes back: the channel is shared state.
#[verifier::external_body]
pub(crate) fn poll_stop_raw(
    receiver: &crossbeam_channel::Receiver<EventLoopMsg>,
) -> (r: StopPoll) {
    match receiver.try_recv() {
        Ok(msg) => StopPoll::Received(msg),
        Err(crossbeam_channel::TryRecvError::Empty) => StopPoll::Empty,
        Err(crossbeam_channel::TryRecvError::Disconnected) => StopPoll::Disconnected,
    }
}

/// Relies on crossbeam-channel's `unbounded`: it returns a connected
/// sender/receiver pair. The sender is dropped on the spot and never leaves
/// this function, so the returned receiver's channel is empty and stays
/// disconnected: no value of the payload type can ever arrive on it.
#[verifier::external_body]
fn orphan_watch_receiver() -> crossbeam_channel::Receiver<
    Result<notify::Event, notify::Error>,
> {
    let (_tx, rx) = crossbeam_channel::unbounded();
    rx
}

/// The receiving end of the watcher channel as it is wired today: a
/// fresh pair whose sending side was dropped before anything was sent. The
/// only constructor is [`WatcherChannel::new`], so every value of this type
/// holds such an orphaned receiver.
pub struct WatcherChannel {
    receiver: crossbeam_channel::Receiver<Result<notify::Event, notify::Error>>,
}

/// Relies on crossbeam-channel's `Receiver::try_recv`: on a channel that is
/// empty and whose every sender has been dropped it returns
/// `Err(TryRecvError::Disconnected)`. The field of [`WatcherChannel`] is
/// private and its only constructor orphans the receiver before anything is
/// sent, so every call lands in that case and no message ever comes back.
#[verifier::external_body]
fn watch_poll_raw(channel: &WatcherChannel) -> (r: Option<
    Result<notify::Event, notify::Error>,
>)
    ensures
        r is None,
{
    match channel.receiver.try_recv() {
        Ok(msg) => Some(msg),
        Err(_) => None,
    }
}

impl WatcherChannel {
    /// Build the watcher channel as it is wired today: create a fresh pair
    /// and let the sending side go at once, leaving a receiver that can
    /// never yield an event.
    pub fn new() -> WatcherChannel {
        WatcherChannel { receiver: orphan_watch_receiver() }
    }

    /// Poll the channel without blocking. Because the channel's sending side
    /// was dropped before anything was sent, this never yields a message.
    pub fn poll(&self) -> (r: Option<Result<notify::Event, notify::Error>>)
        ensures
            r is None,
    {
        watch_poll_raw(self)
    }
}

/// The client's sending end of the control channel to the event-loop driver.
/// Its view is the sequence of messages this endpoint has successfully
/// enqueued since it was built.
pub struct StopSender {
    inner: crossbeam_channel::Sender<EventLoopMsg>,
    sent: Ghost<Seq<EventLoopMsg>>,
}

impl View for StopSender {
    type V = Seq<EventLoopMsg>;

    closed spec fn view(&self) -> Seq<EventLoopMsg> {
        self.sent@
    }
}

impl StopSender {
    /// Wrap a raw sending endpoint; the record of enqueued messages starts
    /// empty.
    pub fn new(inner: crossbeam_channel::Sender<EventLoopMsg>) -> (s: StopSender)
        ensures
            s@ == Seq::<EventLoopMsg>::empty(),
    {
        StopSender { inner, sent: Ghost(Seq::empty()) }
    }

    /// Enqueue one message for the driver. On success the record grows by
    /// exactly that message; on failure (every receiver dropped) it is
    /// unchanged and the message is lost.
    pub fn send(&mut self, msg: EventLoopMsg) -> (r: Result<(), ChannelClosed>)
        ensures
            r is Ok ==> final(self)@ == old(self)@.push(msg),
            r is Err ==> final(self)@ == old(self)@,
    {
        let r = send_stop_raw(&self.inner, msg);
        if r.is_ok() {
            self.sent = Ghost(self.sent@.push(msg));
        }
        r
    }
}

} // verus!
