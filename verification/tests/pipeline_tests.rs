use remote_mouse::coalescer::{Coalescer, CoalescerConfig};
use remote_mouse::codec::{encode_click, encode_move, ButtonKind};
use remote_mouse::session::{Action, Session};

fn cfg(size: usize, interval_ms: u64) -> CoalescerConfig {
    CoalescerConfig { max_batch_size: size, max_batch_interval_ms: interval_ms }
}

/// Flatten every delta the actions apply, checking the shape on the way.
fn applied_moves(actions: &[Action]) -> Vec<(i32, i32)> {
    let mut all = Vec::new();
    for a in actions {
        if let Action::ApplyMoves(batch) = a {
            all.extend_from_slice(batch);
        }
    }
    all
}

#[test]
fn coalescer_buffers_below_thresholds() {
    let mut c = Coalescer::new(cfg(5, 100), 0);
    assert_eq!(c.push_move(1, 1, 1), None);
    assert_eq!(c.push_move(2, 2, 2), None);
    assert_eq!(c.buffered_len(), 2);
}

#[test]
fn coalescer_flushes_at_size_threshold() {
    let mut c = Coalescer::new(cfg(3, 100), 0);
    assert_eq!(c.push_move(1, 0, 1), None);
    assert_eq!(c.push_move(2, 0, 2), None);
    let batch = c.push_move(3, 0, 3).expect("third push must reach the size threshold");
    assert_eq!(batch, vec![(1, 0), (2, 0), (3, 0)]);
    assert_eq!(c.buffered_len(), 0);
}

#[test]
fn coalescer_flushes_at_interval() {
    let mut c = Coalescer::new(cfg(100, 16), 0);
    assert_eq!(c.push_move(1, 0, 5), None);
    // 16 ms after the last flush, one more move drains the batch.
    let batch = c.push_move(2, 0, 16).expect("the interval has elapsed");
    assert_eq!(batch, vec![(1, 0), (2, 0)]);
}

#[test]
fn coalescer_tick_drains_idle_batch() {
    let mut c = Coalescer::new(cfg(100, 16), 0);
    assert_eq!(c.push_move(4, 5, 3), None);
    assert_eq!(c.tick(10), None, "the interval has not elapsed yet");
    let batch = c.tick(20).expect("an idle batch past the interval must drain");
    assert_eq!(batch, vec![(4, 5)]);
    assert_eq!(c.tick(40), None, "nothing is left to drain");
}

#[test]
fn coalescer_flush_empty_is_noop() {
    let mut c = Coalescer::new(cfg(5, 100), 0);
    assert_eq!(c.flush(50), None);
    assert_eq!(c.tick(500), None);
}

#[test]
fn flush_empty_never_reaches_actuator_after_activity() {
    let mut c = Coalescer::new(cfg(2, 100), 0);
    assert_eq!(c.push_move(1, 1, 1), None);
    assert!(c.push_move(2, 2, 2).is_some());
    // The batch was just drained: flushing again yields nothing.
    assert_eq!(c.flush(3), None);
}

#[test]
fn five_moves_then_click_coalesce_into_one_batch() {
    // The client sends dx=1, dy=2 five times, then a left click, all
    // within 10 ms, with a batch limit of 32 and a 100 ms interval.
    let mut s = Session::new(cfg(32, 100), 0);
    let move_frame: Vec<u8> = vec![0x01, 1, 0, 0, 0, 2, 0, 0, 0];
    for t in 0..5u64 {
        let actions = s.handle_message(&move_frame, t * 2);
        assert!(actions.is_empty(), "below both thresholds nothing flushes");
    }
    let actions = s.handle_message(&[0x03, 1], 10);
    assert_eq!(actions.len(), 2, "exactly one batch, then exactly one click");
    match &actions[0] {
        Action::ApplyMoves(batch) => assert_eq!(batch, &vec![(1, 2); 5]),
        Action::Click(_) => panic!("the batch must flush before the click"),
    }
    match &actions[1] {
        Action::Click(b) => assert_eq!(*b, ButtonKind::Left),
        Action::ApplyMoves(_) => panic!("the click must follow the batch"),
    }
}

#[test]
fn ticks_inside_the_window_do_not_split_a_burst() {
    // The read loop checks the timer after every message; a tick before
    // the interval elapses must not break a burst into several batches.
    let mut s = Session::new(cfg(32, 100), 0);
    for t in 0..5u64 {
        assert!(s.handle_message(&encode_move(1, 2), t * 2).is_empty());
        assert!(s.handle_tick(t * 2 + 1).is_empty());
    }
    let actions = s.handle_message(&encode_click(ButtonKind::Left), 10);
    assert_eq!(actions.len(), 2);
    match &actions[0] {
        Action::ApplyMoves(batch) => assert_eq!(batch, &vec![(1, 2); 5]),
        Action::Click(_) => panic!("the batch must flush before the click"),
    }
}

#[test]
fn click_with_empty_buffer_clicks_alone() {
    let mut s = Session::new(cfg(32, 100), 0);
    let actions = s.handle_message(&encode_click(ButtonKind::Right), 1);
    assert_eq!(actions.len(), 1);
    match &actions[0] {
        Action::Click(b) => assert_eq!(*b, ButtonKind::Right),
        Action::ApplyMoves(_) => panic!("nothing was buffered, nothing may flush"),
    }
}

#[test]
fn malformed_frame_keeps_session_open() {
    let mut s = Session::new(cfg(32, 100), 0);
    // A move tag with length 5 is malformed: it is discarded in silence.
    let actions = s.handle_message(&[0x01, 1, 0, 0, 0], 1);
    assert!(actions.is_empty());
    assert_eq!(s.buffered_len(), 0);
    // A subsequent valid frame is still processed.
    let actions = s.handle_message(&encode_move(3, 4), 2);
    assert!(actions.is_empty());
    assert_eq!(s.buffered_len(), 1);
    let actions = s.handle_close(3);
    assert_eq!(applied_moves(&actions), vec![(3, 4)]);
}

#[test]
fn malformed_frame_does_not_drop_buffered_moves() {
    let mut s = Session::new(cfg(32, 100), 0);
    assert!(s.handle_message(&encode_move(1, 1), 1).is_empty());
    assert!(s.handle_message(&[0xee, 0xee], 2).is_empty());
    assert_eq!(s.buffered_len(), 1);
}

#[test]
fn single_move_flushes_on_close() {
    // One buffered delta below every threshold still flushes, exactly
    // once, before teardown.
    let mut s = Session::new(cfg(32, 100), 0);
    assert!(s.handle_message(&encode_move(9, -9), 1).is_empty());
    let actions = s.handle_close(2);
    assert_eq!(actions.len(), 1);
    match &actions[0] {
        Action::ApplyMoves(batch) => assert_eq!(batch, &vec![(9, -9)]),
        Action::Click(_) => panic!("closing clicks nothing"),
    }
}

#[test]
fn close_with_empty_buffer_does_nothing() {
    let mut s = Session::new(cfg(32, 100), 0);
    let actions = s.handle_close(1);
    assert!(actions.is_empty());
}

#[test]
fn empty_message_is_ignored() {
    let mut s = Session::new(cfg(32, 100), 0);
    let actions = s.handle_message(&[], 1);
    assert!(actions.is_empty());
    assert_eq!(s.buffered_len(), 0);
}

#[test]
fn session_tick_flushes_idle_batch() {
    let mut s = Session::new(cfg(32, 16), 0);
    assert!(s.handle_message(&encode_move(1, 1), 4).is_empty());
    assert!(s.handle_tick(10).is_empty(), "too early to flush");
    let actions = s.handle_tick(16);
    assert_eq!(applied_moves(&actions), vec![(1, 1)]);
}

#[test]
fn two_sessions_lose_nothing() {
    // Two concurrent clients each send 1000 moves; however their handling
    // interleaves, the actuator receives every delta of each, in each
    // session's order.
    let mut a = Session::new(cfg(5, 16), 0);
    let mut b = Session::new(cfg(7, 16), 0);
    let mut from_a = Vec::new();
    let mut from_b = Vec::new();
    for i in 0..1000i32 {
        from_a.extend(applied_moves(&a.handle_message(&encode_move(i, 1), i as u64)));
        from_b.extend(applied_moves(&b.handle_message(&encode_move(-i, 2), i as u64)));
    }
    from_a.extend(applied_moves(&a.handle_close(2000)));
    from_b.extend(applied_moves(&b.handle_close(2000)));
    let expect_a: Vec<(i32, i32)> = (0..1000).map(|i| (i, 1)).collect();
    let expect_b: Vec<(i32, i32)> = (0..1000).map(|i| (-i, 2)).collect();
    assert_eq!(from_a, expect_a);
    assert_eq!(from_b, expect_b);
}
