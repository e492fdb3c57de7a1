//! Verified core of a small windowed game client.
//!
//! The library holds the client's state machine: frame counting, the one-shot
//! un-maximize of the window, dispatch of window events into a stop signal,
//! and the (deliberately disconnected) watcher channel. Platform work — the
//! OS window, the event loop, the filesystem watcher — lives outside, in the
//! application shell, which feeds this library plain values.

mod channels;
mod client;
mod driver;
mod laws;
mod messages;

pub use channels::ChannelClosed;
pub use channels::StopPoll;
pub use channels::StopSender;
pub use channels::WatcherChannel;
pub use client::Client;
pub use client::ClientModel;
pub use client::GameEvent;
pub use client::GameWindow;
pub use client::WindowEventKind;
pub use driver::EventLoopDriver;
pub use driver::LoopDecision;
pub use laws::after_ticks;
pub use laws::lemma_close_enqueues_exactly_one_stop;
pub use laws::lemma_frame_count_per_tick;
pub use laws::lemma_maximized_stable_past_first_frame;
pub use laws::lemma_ticks_unaffected_by_interleaved_stops;
pub use laws::lemma_unmaximized_from_first_tick;
pub use messages::EventLoopMsg;
pub use messages::FromGameClient;
pub use messages::NoMessage;
pub use messages::ToGameClient;
