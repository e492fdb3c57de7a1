//! The event-loop driver's decisions, lifted out of the platform loop.
//!
//! The application shell owns the OS event loop. For each platform event it
//! converts the event into a [`GameEvent`] and asks [`EventLoopDriver`] what
//! to do; the shell's only remaining job is to stop the loop when the driver
//! says so.

use vstd::prelude::*;

use crate::channels::ChannelClosed;
use crate::channels::StopPoll;
use crate::channels::poll_stop_raw;
use crate::client::Client;
use crate::client::GameEvent;
use crate::client::WindowEventKind;
use crate::messages::EventLoopMsg;

verus! {

/// What the platform loop should do after one event was handled.
#[derive(Clone, Copy, Debug, PartialEq, Eq, Structural)]
pub enum LoopDecision {
    /// Terminate the event loop.
    Exit,
    /// Keep the loop running.
    Run,
}

/// The event-loop driver: the client together with the receiving end of the
/// control channel on which the client's stop signals arrive. Its view is
/// the client's model.
pub struct EventLoopDriver {
    client: Client,
    receiver_to_event_loop: crossbeam_channel::Receiver<EventLoopMsg>,
}

impl View for EventLoopDriver {
    type V = crate::client::ClientModel;

    closed spec fn view(&self) -> crate::client::ClientModel {
        self.client@
    }
}

impl EventLoopDriver {
    /// Pair the client with the receiving end of the control channel.
    pub fn new(
        client: Client,
        receiver_to_event_loop: crossbeam_channel::Receiver<EventLoopMsg>,
    ) -> (d: EventLoopDriver)
        ensures
            d@ == client@,
    {
        EventLoopDriver { client, receiver_to_event_loop }
    }

    /// The client the driver routes events to.
    pub fn client(&self) -> (c: &Client)
        ensures
            c@ == self@,
    {
        &self.client
    }

    /// One idle tick's reaction to what the poll of the control channel
    /// returned: a dequeued stop signal — and only that — terminates the
    /// loop with the client untouched, so no further frame is rendered;
    /// an empty poll, and likewise a disconnected channel, runs one
    /// receive-then-render tick and keeps the loop going. Further stop
    /// signals still waiting in the channel are never reached: the first
    /// one dequeued decides.
    pub fn idle_step(&mut self, poll: StopPoll) -> (r: LoopDecision)
        requires
            !(poll matches StopPoll::Received(EventLoopMsg::Stop)) ==> old(
                self,
            )@.frame_count < i32::MAX,
        ensures
            poll matches StopPoll::Received(EventLoopMsg::Stop) ==> r == LoopDecision::Exit
                && final(self)@ == old(self)@,
            !(poll matches StopPoll::Received(EventLoopMsg::Stop)) ==> r == LoopDecision::Run
                && final(self)@ == old(self)@.tick(),
    {
        match poll {
            StopPoll::Received(EventLoopMsg::Stop) => LoopDecision::Exit,
            _ => {
                self.client.receive();
                self.client.render();
                LoopDecision::Run
            },
        }
    }

    /// Route one event, as the platform loop did: a window event goes to the
    /// client, which enqueues a stop signal exactly on a close request; the
    /// idle event polls the control channel once and hands the outcome to
    /// [`Self::idle_step`], whose contract fixes the reaction to each poll
    /// value — here, where the poll's outcome is shared channel state, only
    /// the two possible results are stated; anything else is ignored. The
    /// error comes back precisely when a close request's stop signal could
    /// not be enqueued.
    pub fn handle_event(&mut self, event: &GameEvent) -> (r: Result<LoopDecision, ChannelClosed>)
        requires
            event matches GameEvent::MainEventsCleared ==> old(self)@.frame_count
                < i32::MAX,
        ensures
            event matches GameEvent::Window(WindowEventKind::CloseRequested) ==> {
                &&& r is Ok ==> r == Ok::<LoopDecision, ChannelClosed>(LoopDecision::Run)
                    && final(self)@ == old(self)@.record_stop()
                &&& r is Err ==> final(self)@ == old(self)@
            },
            event matches GameEvent::Window(k) && !(k matches WindowEventKind::CloseRequested)
                ==> r == Ok::<LoopDecision, ChannelClosed>(LoopDecision::Run)
                && final(self)@ == old(self)@,
            event matches GameEvent::MainEventsCleared ==> r is Ok && {
                ||| r == Ok::<LoopDecision, ChannelClosed>(LoopDecision::Exit)
                    && final(self)@ == old(self)@
                ||| r == Ok::<LoopDecision, ChannelClosed>(LoopDecision::Run)
                    && final(self)@ == old(self)@.tick()
            },
            event matches GameEvent::Other ==> r == Ok::<LoopDecision, ChannelClosed>(
                LoopDecision::Run,
            ) && final(self)@ == old(self)@,
    {
        match event {
            GameEvent::Window(_) => {
                match self.client.handle_winit_event(event) {
                    Ok(()) => Ok(LoopDecision::Run),
                    Err(e) => Err(e),
                }
            },
            GameEvent::MainEventsCleared => {
                let poll = poll_stop_raw(&self.receiver_to_event_loop);
                Ok(self.idle_step(poll))
            },
            GameEvent::Other => Ok(LoopDecision::Run),
        }
    }
}

} // verus!
