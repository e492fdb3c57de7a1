//! The game client: the state machine at the core of the crate.
//!
//! The client owns a model of the OS window (its title and maximized flag,
//! the two things the client ever reads or writes of it), a frame counter, the
//! sending end of the control channel to the event-loop driver, and the
//! watcher channel. The application shell owns the real window and converts
//! between it and the model here.

use vstd::prelude::*;

use crate::channels::ChannelClosed;
use crate::channels::StopSender;
use crate::channels::WatcherChannel;
use crate::messages::EventLoopMsg;
use crate::messages::FromGameClient;
use crate::messages::ToGameClient;

verus! {

/// What the client reads and writes of the OS window: its title and its
/// maximized flag. The application shell mirrors this model onto the real
/// window.
pub struct GameWindow {
    /// The window's title.
    pub title: String,
    /// Whether the window is maximized.
    pub maximized: bool,
}

impl GameWindow {
    /// A window model with the given title and maximized flag, as the real
    /// window reports them when it is created.
    pub fn new(title: String, maximized: bool) -> (w: GameWindow)
        ensures
            w.title@ == title@,
            w.maximized == maximized,
    {
        GameWindow { title, maximized }
    }
}

/// A window event, reduced to what the client reads of it.
#[derive(Clone, Copy, Debug, PartialEq, Eq, Structural)]
pub enum WindowEventKind {
    /// The user asked to close the window.
    CloseRequested,
    /// A key changed state; `pressed` tells which way, and `keycode` is the
    /// platform's code for the key, when it has one.
    KeyboardInput { pressed: bool, keycode: Option<u32> },
    /// Any other window event; the client only logs these.
    Other,
}

/// An event-loop event, reduced to what the client and the driver read of
/// it. The application shell converts the platform's events into this form.
#[derive(Clone, Copy, Debug, PartialEq, Eq, Structural)]
pub enum GameEvent {
    /// An event aimed at the window.
    Window(WindowEventKind),
    /// The platform has delivered all pending events; one idle tick runs.
    MainEventsCleared,
    /// Any other platform event; nothing reacts to these.
    Other,
}

/// The client's state as contracts speak of it: the frame counter, the
/// window model, and the stop signals enqueued so far.
pub struct ClientModel {
    /// The frame counter.
    pub frame_count: int,
    /// Whether the window is maximized.
    pub maximized: bool,
    /// The window's title.
    pub title: Seq<char>,
    /// Every message the client has successfully enqueued for the driver.
    pub stops_sent: Seq<EventLoopMsg>,
}

impl ClientModel {
    /// One idle tick: the frame counter goes up by one, and on the step
    /// from frame 0 to frame 1 — and only there — the window stops being
    /// maximized.
    pub open spec fn tick(self) -> ClientModel {
        ClientModel {
            frame_count: self.frame_count + 1,
            maximized: if self.frame_count == 0 {
                false
            } else {
                self.maximized
            },
            ..self
        }
    }

    /// One stop signal enqueued for the driver; nothing else moves.
    pub open spec fn record_stop(self) -> ClientModel {
        ClientModel { stops_sent: self.stops_sent.push(EventLoopMsg::Stop), ..self }
    }
}

/// The game client. It reacts to window events by enqueueing a stop signal
/// on a close request, drains the (permanently empty) watcher channel, and
/// counts frames, un-maximizing the window once on the first tick.
pub struct Client {
    window: GameWindow,
    sender_to_client: crossbeam_channel::Sender<ToGameClient>,
    receiver_to_client: crossbeam_channel::Receiver<ToGameClient>,
    sender_to_event_loop: StopSender,
    sender_from_client_to_manager: crossbeam_channel::Sender<FromGameClient>,
    receiver_notify: WatcherChannel,
    frame_count: i32,
}

impl View for Client {
    type V = ClientModel;

    closed spec fn view(&self) -> ClientModel {
        ClientModel {
            frame_count: self.frame_count as int,
            maximized: self.window.maximized,
            title: self.window.title@,
            stops_sent: self.sender_to_event_loop@,
        }
    }
}

impl Client {
    /// The frame counter's current value.
    pub fn frame_count(&self) -> (r: i32)
        ensures
            r == self@.frame_count,
    {
        self.frame_count
    }

    /// Whether the window model is maximized.
    pub fn is_maximized(&self) -> (r: bool)
        ensures
            r == self@.maximized,
    {
        self.window.maximized
    }

    /// A copy of the window model's title.
    pub fn window_title(&self) -> (r: String)
        ensures
            r@ == self@.title,
    {
        self.window.title.clone()
    }

    /// Build a client around the window model and the channel endpoints the
    /// caller wired. The window's title becomes the fixed client title, the
    /// frame counter starts at zero, the watcher channel is created with its
    /// sending side dropped at once (so it can never yield an event), and no
    /// stop signal has been enqueued yet.
    pub fn new(
        window: GameWindow,
        sender_to_client: crossbeam_channel::Sender<ToGameClient>,
        receiver_to_client: crossbeam_channel::Receiver<ToGameClient>,
        sender_to_event_loop: crossbeam_channel::Sender<EventLoopMsg>,
        sender_from_client_to_manager: crossbeam_channel::Sender<FromGameClient>,
    ) -> (c: Client)
        ensures
            c@.frame_count == 0,
            c@.title == "Huskarl"@,
            c@.maximized == window.maximized,
            c@.stops_sent == Seq::<EventLoopMsg>::empty(),
    {
        let mut window = window;
        window.title = "Huskarl".to_owned();
        Client {
            window,
            sender_to_client,
            receiver_to_client,
            sender_to_event_loop: StopSender::new(sender_to_event_loop),
            sender_from_client_to_manager,
            receiver_notify: WatcherChannel::new(),
            frame_count: 0,
        }
    }

    /// React to one event-loop event. A close request enqueues exactly one
    /// stop signal for the driver; every other event — keyboard input
    /// included — leaves the client exactly as it was. The error comes back
    /// precisely when the stop signal could not be enqueued because the
    /// driver's receiving end is gone, and then too the client is unchanged.
    pub fn handle_winit_event(&mut self, event: &GameEvent) -> (r: Result<(), ChannelClosed>)
        ensures
            event matches GameEvent::Window(WindowEventKind::CloseRequested) ==> {
                &&& r is Ok ==> final(self)@ == old(self)@.record_stop()
                &&& r is Err ==> final(self)@ == old(self)@
            },
            !(event matches GameEvent::Window(WindowEventKind::CloseRequested)) ==> {
                &&& r is Ok
                &&& final(self)@ == old(self)@
            },
    {
        match event {
            GameEvent::Window(window_event) => match window_event {
                WindowEventKind::CloseRequested => {
                    self.sender_to_event_loop.send(EventLoopMsg::Stop)
                },
                WindowEventKind::KeyboardInput { pressed: true, keycode: Some(_) } => {
                    // A pressed key is only logged by the shell; no client state moves.
                    Ok(())
                },
                _ => {
                    // Other window events are only logged; no client state moves.
                    Ok(())
                },
            },
            _ => Ok(()),
        }
    }

    /// Drain the watcher channel without blocking. As wired, the channel's
    /// producing side was dropped before anything was sent, so nothing ever
    /// arrives and the client is left exactly as it was.
    pub fn receive(&mut self)
        ensures
            final(self)@ == old(self)@,
    {
        let msg = self.receiver_notify.poll();
        match msg {
            Some(_) => {
                // A watcher event would only be logged; as wired, the channel
                // never yields one.
            },
            None => {},
        }
    }

    /// One idle frame: the counter goes up by one, and on the step from
    /// frame 0 to frame 1 the window model is un-maximized, never before
    /// and never again.
    pub fn render(&mut self)
        requires
            old(self)@.frame_count < i32::MAX,
        ensures
            final(self)@ == old(self)@.tick(),
    {
        self.frame_count = self.frame_count + 1;
        if self.frame_count == 1 {
            self.window.maximized = false;
        }
    }
}

} // verus!
