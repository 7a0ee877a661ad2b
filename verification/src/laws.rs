//! Laws of the coalescing pipeline, proved over the session transition
//! functions: buffered motion is conserved across any run of messages and
//! timer ticks, a burst of moves below both thresholds coalesces into
//! exactly one batch, a click drains the buffer first, and a malformed
//! frame is inert.

use vstd::prelude::*;
use crate::codec::{decode_spec, InputEvent};
use crate::coalescer::{due, flush_spec, push_spec, tick_spec, CoalescerConfig, CoalescerState};
use crate::session::{close_step, frame_step, tick_step, ActionModel};

verus! {

/// One thing that can happen to an open session: a transport message
/// arrives, or the periodic timer fires.
pub enum SessionEvent {
    Message(Seq<u8>),
    TimerTick,
}

/// How an open session answers one event.
pub open spec fn event_step(
    s: CoalescerState,
    cfg: CoalescerConfig,
    e: SessionEvent,
    now: int,
) -> (CoalescerState, Seq<ActionModel>) {
    match e {
        SessionEvent::Message(data) => frame_step(s, cfg, data, now),
        SessionEvent::TimerTick => tick_step(s, cfg, now),
    }
}

/// An open session served `events[i]` at time `times[i]`, one after the
/// other.
pub open spec fn run_events(
    s: CoalescerState,
    cfg: CoalescerConfig,
    events: Seq<SessionEvent>,
    times: Seq<int>,
) -> (CoalescerState, Seq<ActionModel>)
    decreases events.len(),
{
    if events.len() == 0 {
        (s, Seq::empty())
    } else {
        let first = event_step(s, cfg, events[0], times[0]);
        let rest = run_events(first.0, cfg, events.drop_first(), times.drop_first());
        (rest.0, first.1 + rest.1)
    }
}

/// All deltas a list of actions applies, in order.
pub open spec fn emitted_moves(acts: Seq<ActionModel>) -> Seq<(i32, i32)>
    decreases acts.len(),
{
    if acts.len() == 0 {
        Seq::empty()
    } else {
        (match acts[0] {
            ActionModel::ApplyMoves(b) => b,
            ActionModel::Click(_) => Seq::empty(),
        }) + emitted_moves(acts.drop_first())
    }
}

/// The deltas one message contributes: one pair for a move frame, none for
/// anything else.
pub open spec fn frame_moves(data: Seq<u8>) -> Seq<(i32, i32)> {
    match decode_spec(data) {
        Ok(Some(InputEvent::Move { dx, dy })) => seq![(dx, dy)],
        _ => Seq::empty(),
    }
}

/// The deltas one event contributes.
pub open spec fn event_moves(e: SessionEvent) -> Seq<(i32, i32)> {
    match e {
        SessionEvent::Message(data) => frame_moves(data),
        SessionEvent::TimerTick => Seq::empty(),
    }
}

/// The deltas a whole run of events contributes, in arrival order.
pub open spec fn events_moves(events: Seq<SessionEvent>) -> Seq<(i32, i32)>
    decreases events.len(),
{
    if events.len() == 0 {
        Seq::empty()
    } else {
        event_moves(events[0]) + events_moves(events.drop_first())
    }
}

pub proof fn lemma_emitted_moves_single(a: ActionModel)
    ensures
        emitted_moves(seq![a]) == (match a {
            ActionModel::ApplyMoves(b) => b,
            ActionModel::Click(_) => Seq::<(i32, i32)>::empty(),
        }),
{
    let acts = seq![a];
    assert(acts.drop_first() =~= Seq::<ActionModel>::empty());
    assert(emitted_moves(acts.drop_first()) =~= Seq::<(i32, i32)>::empty());
    assert(emitted_moves(acts) =~= (match a {
        ActionModel::ApplyMoves(b) => b,
        ActionModel::Click(_) => Seq::<(i32, i32)>::empty(),
    }));
}

pub proof fn lemma_emitted_moves_concat(a: Seq<ActionModel>, b: Seq<ActionModel>)
    ensures
        emitted_moves(a + b) == emitted_moves(a) + emitted_moves(b),
    decreases a.len(),
{
    if a.len() == 0 {
        assert(a + b =~= b);
        assert(emitted_moves(a) + emitted_moves(b) =~= emitted_moves(b));
    } else {
        assert((a + b).drop_first() =~= a.drop_first() + b);
        lemma_emitted_moves_concat(a.drop_first(), b);
        assert(emitted_moves(a) + emitted_moves(b) =~= (match a[0] {
            ActionModel::ApplyMoves(m) => m,
            ActionModel::Click(_) => Seq::empty(),
        }) + (emitted_moves(a.drop_first()) + emitted_moves(b)));
    }
}

/// Conservation across one event: the deltas a step emits, followed by
/// what stays buffered, are exactly what was buffered before followed by
/// what the event carried. Nothing is lost, duplicated, or reordered.
pub proof fn lemma_event_step_conserves(
    s: CoalescerState,
    cfg: CoalescerConfig,
    e: SessionEvent,
    now: int,
)
    ensures
        ({
            let stepped = event_step(s, cfg, e, now);
            emitted_moves(stepped.1) + stepped.0.batch == s.batch + event_moves(e)
        }),
{
    let stepped = event_step(s, cfg, e, now);
    match e {
        SessionEvent::TimerTick => {
            match tick_spec(s, cfg, now).1 {
                Some(b) => {
                    lemma_emitted_moves_single(ActionModel::ApplyMoves(b));
                    assert(emitted_moves(stepped.1) + stepped.0.batch =~= s.batch + event_moves(e));
                },
                None => {
                    assert(emitted_moves(stepped.1) + stepped.0.batch =~= s.batch + event_moves(e));
                },
            }
        },
        SessionEvent::Message(data) => {
            match decode_spec(data) {
                Ok(Some(InputEvent::Move { dx, dy })) => {
                    match push_spec(s, cfg, (dx, dy), now).1 {
                        Some(b) => {
                            lemma_emitted_moves_single(ActionModel::ApplyMoves(b));
                            assert(emitted_moves(stepped.1) + stepped.0.batch =~= s.batch
                                + event_moves(e));
                        },
                        None => {
                            assert(emitted_moves(stepped.1) + stepped.0.batch =~= s.batch
                                + event_moves(e));
                        },
                    }
                },
                Ok(Some(InputEvent::Click { button })) => {
                    match flush_spec(s, now).1 {
                        Some(b) => {
                            assert(stepped.1 =~= seq![ActionModel::ApplyMoves(b)] + seq![
                                ActionModel::Click(button),
                            ]);
                            lemma_emitted_moves_concat(
                                seq![ActionModel::ApplyMoves(b)],
                                seq![ActionModel::Click(button)],
                            );
                            lemma_emitted_moves_single(ActionModel::ApplyMoves(b));
                            lemma_emitted_moves_single(ActionModel::Click(button));
                            assert(emitted_moves(stepped.1) + stepped.0.batch =~= s.batch
                                + event_moves(e));
                        },
                        None => {
                            assert(stepped.1 =~= seq![ActionModel::Click(button)]);
                            lemma_emitted_moves_single(ActionModel::Click(button));
                            assert(emitted_moves(stepped.1) + stepped.0.batch =~= s.batch
                                + event_moves(e));
                        },
                    }
                },
                Ok(None) => {
                    assert(emitted_moves(stepped.1) + stepped.0.batch =~= s.batch + event_moves(e));
                },
                Err(_) => {
                    assert(emitted_moves(stepped.1) + stepped.0.batch =~= s.batch + event_moves(e));
                },
            }
        },
    }
}

/// Conservation across a whole run: however moves, clicks, timer ticks,
/// no-ops and malformed frames interleave, the deltas emitted so far,
/// followed by the deltas still buffered, are exactly the initial buffer
/// followed by every delta the run carried, in arrival order.
pub proof fn lemma_run_conserves(
    s: CoalescerState,
    cfg: CoalescerConfig,
    events: Seq<SessionEvent>,
    times: Seq<int>,
)
    requires
        times.len() == events.len(),
    ensures
        ({
            let ran = run_events(s, cfg, events, times);
            emitted_moves(ran.1) + ran.0.batch == s.batch + events_moves(events)
        }),
    decreases events.len(),
{
    let ran = run_events(s, cfg, events, times);
    if events.len() == 0 {
        assert(emitted_moves(ran.1) + ran.0.batch =~= s.batch + events_moves(events));
    } else {
        let first = event_step(s, cfg, events[0], times[0]);
        let rest = run_events(first.0, cfg, events.drop_first(), times.drop_first());
        lemma_event_step_conserves(s, cfg, events[0], times[0]);
        lemma_run_conserves(first.0, cfg, events.drop_first(), times.drop_first());
        lemma_emitted_moves_concat(first.1, rest.1);
        assert(emitted_moves(ran.1) + ran.0.batch =~= s.batch + events_moves(events));
    }
}

/// No motion is ever silently dropped: a run followed by the close emits
/// every delta the client sent (after what was already buffered), exactly
/// once and in arrival order, and leaves nothing buffered.
pub proof fn lemma_no_move_lost(
    s: CoalescerState,
    cfg: CoalescerConfig,
    events: Seq<SessionEvent>,
    times: Seq<int>,
    close_time: int,
)
    requires
        times.len() == events.len(),
    ensures
        ({
            let ran = run_events(s, cfg, events, times);
            let closed = close_step(ran.0, close_time);
            emitted_moves(ran.1 + closed.1) == s.batch + events_moves(events)
                && closed.0.batch.len() == 0
        }),
{
    let ran = run_events(s, cfg, events, times);
    let closed = close_step(ran.0, close_time);
    lemma_run_conserves(s, cfg, events, times);
    lemma_emitted_moves_concat(ran.1, closed.1);
    match flush_spec(ran.0, close_time).1 {
        Some(b) => {
            lemma_emitted_moves_single(ActionModel::ApplyMoves(b));
        },
        None => {
            assert(ran.0.batch =~= Seq::<(i32, i32)>::empty());
        },
    }
    assert(emitted_moves(ran.1 + closed.1) =~= s.batch + events_moves(events));
}

/// Whether every event of a run is a move frame or a timer tick — the
/// shape of an uninterrupted motion burst as the read loop sees it.
pub open spec fn all_moves_or_ticks(events: Seq<SessionEvent>) -> bool {
    forall|i: int|
        0 <= i < events.len() ==> (match #[trigger] events[i] {
            SessionEvent::Message(data) => decode_spec(data) matches Ok(Some(
                InputEvent::Move { .. },
            )),
            SessionEvent::TimerTick => true,
        })
}

/// Whether every timestamp of a run falls before the interval threshold of
/// a state that last flushed at `last_flush_ms`.
pub open spec fn all_within_interval(
    times: Seq<int>,
    last_flush_ms: int,
    cfg: CoalescerConfig,
) -> bool {
    forall|i: int|
        0 <= i < times.len() ==> #[trigger] times[i] < last_flush_ms + cfg.max_batch_interval_ms
}

/// A burst below both thresholds only buffers: move frames that leave the
/// batch under `max_batch_size`, all arriving within
/// `max_batch_interval_ms` of the last flush, emit no action at all — the
/// timer may fire throughout without draining anything — and append every
/// delta to the buffer in arrival order.
pub proof fn lemma_small_burst_buffers(
    s: CoalescerState,
    cfg: CoalescerConfig,
    events: Seq<SessionEvent>,
    times: Seq<int>,
)
    requires
        times.len() == events.len(),
        all_moves_or_ticks(events),
        s.batch.len() + events_moves(events).len() < cfg.max_batch_size,
        all_within_interval(times, s.last_flush_ms, cfg),
    ensures
        ({
            let ran = run_events(s, cfg, events, times);
            ran.1 == Seq::<ActionModel>::empty() && ran.0.batch == s.batch + events_moves(events)
                && ran.0.last_flush_ms == s.last_flush_ms
        }),
    decreases events.len(),
{
    let ran = run_events(s, cfg, events, times);
    if events.len() == 0 {
        assert(ran.0.batch =~= s.batch + events_moves(events));
    } else {
        let first = event_step(s, cfg, events[0], times[0]);
        assert(!due(s, cfg, times[0]));
        assert(events_moves(events).len() == event_moves(events[0]).len() + events_moves(
            events.drop_first(),
        ).len());
        assert(first.1 =~= Seq::<ActionModel>::empty());
        assert(first.0.batch =~= s.batch + event_moves(events[0]));
        lemma_small_burst_buffers(first.0, cfg, events.drop_first(), times.drop_first());
        assert(ran.1 =~= Seq::<ActionModel>::empty());
        assert(ran.0.batch =~= s.batch + events_moves(events));
    }
}

/// Coalescing of a small burst: fed into an empty batch, the burst of
/// [`lemma_small_burst_buffers`], once anything then drains the batch (a
/// later click, the timer past the interval, or the close), reaches the
/// actuator as exactly one `ApplyMoves` holding all its deltas in arrival
/// order.
pub proof fn lemma_small_burst_single_batch(
    s: CoalescerState,
    cfg: CoalescerConfig,
    events: Seq<SessionEvent>,
    times: Seq<int>,
    close_time: int,
)
    requires
        s.batch.len() == 0,
        times.len() == events.len(),
        all_moves_or_ticks(events),
        0 < events_moves(events).len(),
        events_moves(events).len() < cfg.max_batch_size,
        all_within_interval(times, s.last_flush_ms, cfg),
    ensures
        ({
            let ran = run_events(s, cfg, events, times);
            ran.1 + close_step(ran.0, close_time).1 == seq![
                ActionModel::ApplyMoves(events_moves(events)),
            ]
        }),
{
    lemma_small_burst_buffers(s, cfg, events, times);
    let ran = run_events(s, cfg, events, times);
    assert(ran.0.batch =~= events_moves(events));
    assert(ran.1 + close_step(ran.0, close_time).1 =~= seq![
        ActionModel::ApplyMoves(events_moves(events)),
    ]);
}

/// A click drains the buffer first: a click frame arriving while deltas are
/// buffered yields exactly one `ApplyMoves` carrying the whole buffer,
/// followed by exactly one `Click`, in that order — and with nothing
/// buffered it yields the `Click` alone.
pub proof fn lemma_click_flushes_first(
    s: CoalescerState,
    cfg: CoalescerConfig,
    data: Seq<u8>,
    now: int,
)
    requires
        decode_spec(data) matches Ok(Some(InputEvent::Click { .. })),
    ensures
        ({
            let b = decode_spec(data)->Ok_0->Some_0->Click_button;
            let stepped = frame_step(s, cfg, data, now);
            stepped.0.batch.len() == 0 && stepped.1 == (if s.batch.len() > 0 {
                seq![ActionModel::ApplyMoves(s.batch), ActionModel::Click(b)]
            } else {
                seq![ActionModel::Click(b)]
            })
        }),
{
    let b = decode_spec(data)->Ok_0->Some_0->Click_button;
    let stepped = frame_step(s, cfg, data, now);
    if s.batch.len() > 0 {
        assert(stepped.1 =~= seq![ActionModel::ApplyMoves(s.batch), ActionModel::Click(b)]);
    } else {
        assert(stepped.1 =~= seq![ActionModel::Click(b)]);
    }
}

/// A malformed or empty message is inert: the session keeps its exact
/// state and asks for no action, so a later valid frame is handled as if
/// the bad one had never arrived.
pub proof fn lemma_malformed_frame_inert(
    s: CoalescerState,
    cfg: CoalescerConfig,
    data: Seq<u8>,
    now: int,
)
    requires
        decode_spec(data) matches Err(_) || decode_spec(data) matches Ok(None),
    ensures
        frame_step(s, cfg, data, now).0 == s,
        frame_step(s, cfg, data, now).1 == Seq::<ActionModel>::empty(),
{
}

} // verus!
