//! Laws of the client's state machine, stated over [`ClientModel`] and
//! proved once and for all: how the frame counter moves over any run of idle
//! ticks, that the window is un-maximized exactly once, and what one close
//! request adds to the stop-signal record.

use vstd::prelude::*;

use crate::client::ClientModel;
use crate::messages::EventLoopMsg;

verus! {

/// The client's model after `n` idle ticks, each as [`ClientModel::tick`]
/// describes — exactly what `n` successive receive-then-render steps leave
/// behind.
pub open spec fn after_ticks(m: ClientModel, n: nat) -> ClientModel
    decreases n,
{
    if n == 0 {
        m
    } else {
        after_ticks(m, (n - 1) as nat).tick()
    }
}

/// Law: over any run of idle ticks, every tick moves the frame counter up by
/// exactly one, so after `n` ticks it stands exactly `n` higher than it
/// started and at no point does it decrease.
pub proof fn lemma_frame_count_per_tick(m: ClientModel, n: nat)
    ensures
        after_ticks(m, n).frame_count == m.frame_count + n,
        after_ticks(m, n + 1).frame_count == after_ticks(m, n).frame_count + 1,
    decreases n,
{
    if n > 0 {
        lemma_frame_count_per_tick(m, (n - 1) as nat);
    }
}

/// Law: starting from frame 0, the window is no longer maximized after the
/// first tick and after every later one — the flag is cleared on the
/// transition from frame 0 to frame 1 and no tick ever sets it again.
pub proof fn lemma_unmaximized_from_first_tick(m: ClientModel, n: nat)
    requires
        m.frame_count == 0,
        n >= 1,
    ensures
        after_ticks(m, n).maximized == false,
    decreases n,
{
    if n == 1 {
        assert(after_ticks(m, 0) == m);
        assert(after_ticks(m, 1) == m.tick());
    } else {
        lemma_unmaximized_from_first_tick(m, (n - 1) as nat);
        lemma_frame_count_per_tick(m, (n - 1) as nat);
        assert(after_ticks(m, n) == after_ticks(m, (n - 1) as nat).tick());
    }
}

/// Law: once the frame counter has passed 0, ticks never change the
/// maximized flag again; together with
/// [`lemma_unmaximized_from_first_tick`] this says the flag is cleared
/// exactly once, on the transition from frame 0 to frame 1.
pub proof fn lemma_maximized_stable_past_first_frame(m: ClientModel, n: nat)
    requires
        m.frame_count >= 1,
    ensures
        after_ticks(m, n).maximized == m.maximized,
    decreases n,
{
    if n > 0 {
        lemma_maximized_stable_past_first_frame(m, (n - 1) as nat);
        lemma_frame_count_per_tick(m, (n - 1) as nat);
    }
}

/// Law: a recorded stop signal moves neither the frame counter nor the
/// maximized flag, so however many close requests are interleaved with a
/// run of idle ticks, the counter and the flag travel exactly as they would
/// over the ticks alone.
pub proof fn lemma_ticks_unaffected_by_interleaved_stops(m: ClientModel, n: nat)
    ensures
        after_ticks(m.record_stop(), n).frame_count == after_ticks(m, n).frame_count,
        after_ticks(m.record_stop(), n).maximized == after_ticks(m, n).maximized,
    decreases n,
{
    if n > 0 {
        lemma_ticks_unaffected_by_interleaved_stops(m, (n - 1) as nat);
        assert(after_ticks(m.record_stop(), n) == after_ticks(
            m.record_stop(),
            (n - 1) as nat,
        ).tick());
        assert(after_ticks(m, n) == after_ticks(m, (n - 1) as nat).tick());
    }
}

/// Law: recording the stop signal of one close request enqueues exactly one
/// message, a stop signal, after the ones already recorded, and moves
/// nothing else of the client's state — however many close requests came
/// before.
pub proof fn lemma_close_enqueues_exactly_one_stop(m: ClientModel)
    ensures
        m.record_stop().stops_sent.len() == m.stops_sent.len() + 1,
        m.record_stop().stops_sent.last() == EventLoopMsg::Stop,
        forall|i: int|
            0 <= i < m.stops_sent.len() ==> m.record_stop().stops_sent[i] == m.stops_sent[i],
        m.record_stop().frame_count == m.frame_count,
        m.record_stop().maximized == m.maximized,
        m.record_stop().title == m.title,
{
}

} // verus!
