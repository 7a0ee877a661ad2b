//! Per-connection protocol state machine.
//!
//! A session owns one connection's coalescer and phase. The transport layer
//! hands it each received message, a periodic tick, and the close, all with
//! a millisecond timestamp; the session answers with the ordered list of
//! actuator actions to perform. Decisions are pure: performing the actions
//! and reading the clock stay with the caller.
//!
//! Each handler's contract pins it to a transition function over the
//! coalescer's ghost state; the laws module proves of those transitions
//! that a malformed frame changes nothing, that buffered motion flushes,
//! in arrival order, before a later click, and that across any run no
//! buffered motion is lost, reordered, or duplicated.

use vstd::prelude::*;
use crate::codec::{decode_frame, decode_spec, ButtonKind, InputEvent};
use crate::coalescer::{
    flush_spec, push_spec, tick_spec, Coalescer, CoalescerConfig, CoalescerState,
};

verus! {

/// One actuator invocation a session asks its caller to perform.
pub enum Action {
    /// Apply these relative deltas, in order, as one atomic unit.
    ApplyMoves(Vec<(i32, i32)>),
    /// Press and release this button.
    Click(ButtonKind),
}

/// The mathematical image of an [`Action`].
pub enum ActionModel {
    ApplyMoves(Seq<(i32, i32)>),
    Click(ButtonKind),
}

impl View for Action {
    type V = ActionModel;

    open spec fn view(&self) -> ActionModel {
        match self {
            Action::ApplyMoves(b) => ActionModel::ApplyMoves(b@),
            Action::Click(k) => ActionModel::Click(*k),
        }
    }
}

/// Lifecycle of a session. The transport handshake precedes `Open`; the
/// close flush is the passage from `Open` to `Closed`.
#[derive(Clone, Copy, PartialEq, Eq, Structural, Debug)]
pub enum SessionPhase {
    Open,
    Closed,
}

/// The actions that draining a coalescer contributes: nothing for an empty
/// batch, one `ApplyMoves` otherwise.
pub open spec fn flush_actions(out: Option<Seq<(i32, i32)>>) -> Seq<ActionModel> {
    match out {
        Some(b) => seq![ActionModel::ApplyMoves(b)],
        None => Seq::empty(),
    }
}

/// How an open session answers one complete message: a malformed or empty
/// message changes nothing; a move steps the coalescer; a click first
/// drains the whole buffered batch, then clicks.
pub open spec fn frame_step(
    s: CoalescerState,
    cfg: CoalescerConfig,
    data: Seq<u8>,
    now: int,
) -> (CoalescerState, Seq<ActionModel>) {
    match decode_spec(data) {
        Ok(Some(InputEvent::Move { dx, dy })) => {
            let (s2, out) = push_spec(s, cfg, (dx, dy), now);
            (s2, flush_actions(out))
        },
        Ok(Some(InputEvent::Click { button })) => {
            let (s2, out) = flush_spec(s, now);
            (s2, flush_actions(out).push(ActionModel::Click(button)))
        },
        Ok(None) => (s, Seq::empty()),
        Err(_) => (s, Seq::empty()),
    }
}

/// How an open session answers the periodic timer check.
pub open spec fn tick_step(s: CoalescerState, cfg: CoalescerConfig, now: int) -> (
    CoalescerState,
    Seq<ActionModel>,
) {
    let (s2, out) = tick_spec(s, cfg, now);
    (s2, flush_actions(out))
}

/// How a session closes: drain whatever is buffered, then stop.
pub open spec fn close_step(s: CoalescerState, now: int) -> (CoalescerState, Seq<ActionModel>) {
    let (s2, out) = flush_spec(s, now);
    (s2, flush_actions(out))
}

/// Protocol state for one accepted connection.
pub struct Session {
    coalescer: Coalescer,
    phase: SessionPhase,
}

impl Session {
    pub closed spec fn coalescer_state(self) -> CoalescerState {
        self.coalescer@
    }

    pub closed spec fn config_spec(self) -> CoalescerConfig {
        self.coalescer.config_spec()
    }

    pub closed spec fn phase_spec(self) -> SessionPhase {
        self.phase
    }

    pub closed spec fn wf(self) -> bool {
        self.coalescer.wf()
    }

    pub open spec fn is_open(self) -> bool {
        self.phase_spec() == SessionPhase::Open
    }

    /// A freshly opened session with nothing buffered.
    pub fn new(config: CoalescerConfig, now_ms: u64) -> (r: Self)
        requires
            config.wf(),
        ensures
            r.wf(),
            r.is_open(),
            r.config_spec() == config,
            r.coalescer_state() == (CoalescerState {
                batch: Seq::<(i32, i32)>::empty(),
                last_flush_ms: now_ms as int,
            }),
    {
        Session { coalescer: Coalescer::new(config, now_ms), phase: SessionPhase::Open }
    }

    /// Handle one complete message, exactly as [`frame_step`] says. In
    /// particular a malformed frame leaves the session open and untouched.
    pub fn handle_message(&mut self, data: &[u8], now_ms: u64) -> (actions: Vec<Action>)
        requires
            old(self).wf(),
            old(self).is_open(),
        ensures
            final(self).wf(),
            final(self).is_open(),
            final(self).config_spec() == old(self).config_spec(),
            final(self).coalescer_state() == frame_step(
                old(self).coalescer_state(),
                old(self).config_spec(),
                data@,
                now_ms as int,
            ).0,
            actions@.map_values(|a: Action| a@) == frame_step(
                old(self).coalescer_state(),
                old(self).config_spec(),
                data@,
                now_ms as int,
            ).1,
    {
        let mut actions: Vec<Action> = Vec::new();
        match decode_frame(data) {
            Ok(Some(InputEvent::Move { dx, dy })) => {
                if let Some(batch) = self.coalescer.push_move(dx, dy, now_ms) {
                    actions.push(Action::ApplyMoves(batch));
                }
            },
            Ok(Some(InputEvent::Click { button })) => {
                if let Some(batch) = self.coalescer.flush(now_ms) {
                    actions.push(Action::ApplyMoves(batch));
                }
                actions.push(Action::Click(button));
            },
            Ok(None) => {},
            Err(_) => {},
        }
        proof {
            assert(actions@.map_values(|a: Action| a@) =~= frame_step(
                old(self).coalescer_state(),
                old(self).config_spec(),
                data@,
                now_ms as int,
            ).1);
        }
        actions
    }

    /// The periodic timer check, exactly as [`tick_step`] says.
    pub fn handle_tick(&mut self, now_ms: u64) -> (actions: Vec<Action>)
        requires
            old(self).wf(),
            old(self).is_open(),
        ensures
            final(self).wf(),
            final(self).is_open(),
            final(self).config_spec() == old(self).config_spec(),
            final(self).coalescer_state() == tick_step(
                old(self).coalescer_state(),
                old(self).config_spec(),
                now_ms as int,
            ).0,
            actions@.map_values(|a: Action| a@) == tick_step(
                old(self).coalescer_state(),
                old(self).config_spec(),
                now_ms as int,
            ).1,
    {
        let mut actions: Vec<Action> = Vec::new();
        if let Some(batch) = self.coalescer.tick(now_ms) {
            actions.push(Action::ApplyMoves(batch));
        }
        proof {
            assert(actions@.map_values(|a: Action| a@) =~= tick_step(
                old(self).coalescer_state(),
                old(self).config_spec(),
                now_ms as int,
            ).1);
        }
        actions
    }

    /// Close the session: whatever is buffered flushes first, exactly as
    /// [`close_step`] says, so teardown never drops motion silently.
    pub fn handle_close(&mut self, now_ms: u64) -> (actions: Vec<Action>)
        requires
            old(self).wf(),
            old(self).is_open(),
        ensures
            final(self).wf(),
            !final(self).is_open(),
            final(self).config_spec() == old(self).config_spec(),
            final(self).coalescer_state() == close_step(
                old(self).coalescer_state(),
                now_ms as int,
            ).0,
            actions@.map_values(|a: Action| a@) == close_step(
                old(self).coalescer_state(),
                now_ms as int,
            ).1,
            final(self).coalescer_state().batch.len() == 0,
    {
        let mut actions: Vec<Action> = Vec::new();
        if let Some(batch) = self.coalescer.flush(now_ms) {
            actions.push(Action::ApplyMoves(batch));
        }
        self.phase = SessionPhase::Closed;
        proof {
            assert(actions@.map_values(|a: Action| a@) =~= close_step(
                old(self).coalescer_state(),
                now_ms as int,
            ).1);
        }
        actions
    }

    /// How many deltas the session has buffered.
    pub fn buffered_len(&self) -> (n: usize)
        ensures
            n == self.coalescer_state().batch.len(),
    {
        self.coalescer.buffered_len()
    }
}

} // verus!
