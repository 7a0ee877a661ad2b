//! Batching of consecutive motion deltas.
//!
//! The coalescer buffers `(dx, dy)` pairs and hands the whole buffer back —
//! to be applied as one actuator call — when the batch reaches a configured
//! size, when a configured interval has elapsed since the last flush, or on
//! demand (before a click, on teardown). A batch is drained atomically and
//! its deltas keep their arrival order; an empty batch flushes to nothing.
//!
//! The ghost state [`CoalescerState`] and the transition functions
//! [`push_spec`], [`flush_spec`] and [`tick_spec`] are the mathematical
//! model; every method's contract says that it steps exactly as they do.

use vstd::prelude::*;

verus! {

/// Thresholds of the batching policy: flush at `max_batch_size` buffered
/// moves, or once `max_batch_interval_ms` milliseconds have passed since the
/// last flush, whichever comes first.
#[derive(Clone, Copy, PartialEq, Eq, Structural, Debug)]
pub struct CoalescerConfig {
    pub max_batch_size: usize,
    pub max_batch_interval_ms: u64,
}

impl CoalescerConfig {
    /// A size threshold of zero would make the policy meaningless.
    pub open spec fn wf(self) -> bool {
        self.max_batch_size >= 1
    }
}

/// The mathematical state of a coalescer: the buffered deltas in arrival
/// order, and the time of the last flush.
pub struct CoalescerState {
    pub batch: Seq<(i32, i32)>,
    pub last_flush_ms: int,
}

/// Whether the interval threshold has been reached at time `now`.
pub open spec fn due(s: CoalescerState, cfg: CoalescerConfig, now: int) -> bool {
    now >= s.last_flush_ms + cfg.max_batch_interval_ms
}

/// Appending one delta: the grown batch is handed out whole if it reaches
/// the size threshold or the interval has elapsed, and kept otherwise.
pub open spec fn push_spec(
    s: CoalescerState,
    cfg: CoalescerConfig,
    m: (i32, i32),
    now: int,
) -> (CoalescerState, Option<Seq<(i32, i32)>>) {
    let grown = s.batch.push(m);
    if grown.len() >= cfg.max_batch_size || due(s, cfg, now) {
        (CoalescerState { batch: Seq::empty(), last_flush_ms: now }, Some(grown))
    } else {
        (CoalescerState { batch: grown, last_flush_ms: s.last_flush_ms }, None)
    }
}

/// Draining on demand: a non-empty batch is handed out whole; an empty
/// batch yields nothing and changes nothing.
pub open spec fn flush_spec(s: CoalescerState, now: int) -> (
    CoalescerState,
    Option<Seq<(i32, i32)>>,
) {
    if s.batch.len() == 0 {
        (s, None)
    } else {
        (CoalescerState { batch: Seq::empty(), last_flush_ms: now }, Some(s.batch))
    }
}

/// The periodic check: drain only a non-empty batch whose interval has
/// elapsed, so a paused input stream is not held indefinitely.
pub open spec fn tick_spec(s: CoalescerState, cfg: CoalescerConfig, now: int) -> (
    CoalescerState,
    Option<Seq<(i32, i32)>>,
) {
    if s.batch.len() > 0 && due(s, cfg, now) {
        (CoalescerState { batch: Seq::empty(), last_flush_ms: now }, Some(s.batch))
    } else {
        (s, None)
    }
}

/// Buffers consecutive motion deltas for one session.
pub struct Coalescer {
    config: CoalescerConfig,
    batch: Vec<(i32, i32)>,
    last_flush_ms: u64,
}

impl View for Coalescer {
    type V = CoalescerState;

    closed spec fn view(&self) -> CoalescerState {
        CoalescerState { batch: self.batch@, last_flush_ms: self.last_flush_ms as int }
    }
}

impl Coalescer {
    pub closed spec fn config_spec(self) -> CoalescerConfig {
        self.config
    }

    /// The buffer never reaches the size threshold between calls.
    pub open spec fn wf(self) -> bool {
        self.config_spec().wf() && self@.batch.len() < self.config_spec().max_batch_size
    }

    /// A coalescer with an empty batch, created at time `now_ms`.
    pub fn new(config: CoalescerConfig, now_ms: u64) -> (r: Self)
        requires
            config.wf(),
        ensures
            r.wf(),
            r.config_spec() == config,
            r@ == (CoalescerState { batch: Seq::<(i32, i32)>::empty(), last_flush_ms: now_ms as int }),
    {
        let r = Coalescer { config, batch: Vec::new(), last_flush_ms: now_ms };
        proof {
            assert(r@.batch =~= Seq::<(i32, i32)>::empty());
        }
        r
    }

    fn is_due(&self, now_ms: u64) -> (r: bool)
        ensures
            r == due(self@, self.config_spec(), now_ms as int),
    {
        now_ms >= self.last_flush_ms && now_ms - self.last_flush_ms
            >= self.config.max_batch_interval_ms
    }

    /// Append one decoded move; hand back the whole batch when a threshold
    /// is reached. Steps exactly as [`push_spec`].
    pub fn push_move(&mut self, dx: i32, dy: i32, now_ms: u64) -> (flushed: Option<
        Vec<(i32, i32)>,
    >)
        requires
            old(self).wf(),
        ensures
            final(self).wf(),
            final(self).config_spec() == old(self).config_spec(),
            final(self)@ == push_spec(old(self)@, old(self).config_spec(), (dx, dy), now_ms as int).0,
            ({
                let out = push_spec(old(self)@, old(self).config_spec(), (dx, dy), now_ms as int).1;
                match flushed {
                    Some(b) => out == Some(b@),
                    None => out is None,
                }
            }),
    {
        self.batch.push((dx, dy));
        if self.batch.len() >= self.config.max_batch_size || self.is_due(now_ms) {
            let mut drained: Vec<(i32, i32)> = Vec::new();
            core::mem::swap(&mut drained, &mut self.batch);
            self.last_flush_ms = now_ms;
            proof {
                assert(self@.batch =~= Seq::<(i32, i32)>::empty());
            }
            Some(drained)
        } else {
            None
        }
    }

    /// Drain the batch unconditionally; an empty batch is a no-op and hands
    /// nothing back. Steps exactly as [`flush_spec`].
    pub fn flush(&mut self, now_ms: u64) -> (flushed: Option<Vec<(i32, i32)>>)
        requires
            old(self).wf(),
        ensures
            final(self).wf(),
            final(self).config_spec() == old(self).config_spec(),
            final(self)@ == flush_spec(old(self)@, now_ms as int).0,
            ({
                let out = flush_spec(old(self)@, now_ms as int).1;
                match flushed {
                    Some(b) => out == Some(b@),
                    None => out is None,
                }
            }),
    {
        if self.batch.len() == 0 {
            None
        } else {
            let mut drained: Vec<(i32, i32)> = Vec::new();
            core::mem::swap(&mut drained, &mut self.batch);
            self.last_flush_ms = now_ms;
            proof {
                assert(self@.batch =~= Seq::<(i32, i32)>::empty());
            }
            Some(drained)
        }
    }

    /// Drain only if the interval threshold has been reached, so a batch
    /// below the size threshold is not held while input pauses. Steps
    /// exactly as [`tick_spec`].
    pub fn tick(&mut self, now_ms: u64) -> (flushed: Option<Vec<(i32, i32)>>)
        requires
            old(self).wf(),
        ensures
            final(self).wf(),
            final(self).config_spec() == old(self).config_spec(),
            final(self)@ == tick_spec(old(self)@, old(self).config_spec(), now_ms as int).0,
            ({
                let out = tick_spec(old(self)@, old(self).config_spec(), now_ms as int).1;
                match flushed {
                    Some(b) => out == Some(b@),
                    None => out is None,
                }
            }),
    {
        if self.batch.len() > 0 && self.is_due(now_ms) {
            let mut drained: Vec<(i32, i32)> = Vec::new();
            core::mem::swap(&mut drained, &mut self.batch);
            self.last_flush_ms = now_ms;
            proof {
                assert(self@.batch =~= Seq::<(i32, i32)>::empty());
            }
            Some(drained)
        } else {
            None
        }
    }

    /// How many deltas are buffered right now.
    pub fn buffered_len(&self) -> (n: usize)
        ensures
            n == self@.batch.len(),
    {
        self.batch.len()
    }
}

/// Flushing an empty batch yields nothing and leaves the state untouched:
/// an empty flush never reaches the actuator.
pub proof fn lemma_flush_empty_is_noop(s: CoalescerState, now: int)
    requires
        s.batch.len() == 0,
    ensures
        flush_spec(s, now).0 == s,
        flush_spec(s, now).1 is None,
{
}

} // verus!
