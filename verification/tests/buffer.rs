use mplayer::buffer::{frame_is_due, Frame, PresentationBuffer, LOOKAHEAD_CAPACITY};
use mplayer::clock::PlaybackClock;
use mplayer::rational::Rational;

fn frame(pts: Option<i64>, payload: u32) -> Frame<u32> {
    Frame { pts, payload }
}

#[test]
fn lookahead_is_ten_frames() {
    assert_eq!(LOOKAHEAD_CAPACITY, 10);
}

#[test]
fn new_buffer_is_empty_and_wants_frames() {
    let buffer: PresentationBuffer<u32> = PresentationBuffer::new(10, Rational(1, 30));
    assert_eq!(buffer.len(), 0);
    assert_eq!(buffer.capacity(), 10);
    assert_eq!(buffer.time_base(), Rational(1, 30));
    assert!(buffer.wants_frame());
    assert_eq!(buffer.front_pts(), None);
}

#[test]
fn full_buffer_hands_the_frame_back() {
    let mut buffer = PresentationBuffer::new(2, Rational(1, 30));
    assert_eq!(buffer.offer(frame(Some(5), 1)), None);
    assert_eq!(buffer.offer(frame(Some(6), 2)), None);
    assert!(!buffer.wants_frame());
    assert_eq!(buffer.offer(frame(Some(7), 3)), Some(frame(Some(7), 3)));
    assert_eq!(buffer.len(), 2);
    assert_eq!(buffer.front_pts(), Some(5));
}

#[test]
fn buffer_of_no_capacity_takes_nothing() {
    let mut buffer = PresentationBuffer::new(0, Rational(1, 30));
    assert!(!buffer.wants_frame());
    assert_eq!(buffer.offer(frame(Some(0), 9)), Some(frame(Some(0), 9)));
    assert_eq!(buffer.len(), 0);
}

#[test]
fn frame_is_due_when_the_clock_reaches_it() {
    // One timestamp unit is a thirtieth of a second: 33 ticks and a third
    // at a thousand ticks per second.
    let mut clock = PlaybackClock::new(1000);
    clock.advance(32_000_000);
    assert!(!frame_is_due(1, Rational(1, 30), &clock));
    clock.advance(1_000_000);
    assert!(frame_is_due(1, Rational(1, 30), &clock));
    assert!(frame_is_due(0, Rational(1, 30), &clock));
    assert!(frame_is_due(-4, Rational(1, 30), &clock));
    assert!(!frame_is_due(2, Rational(1, 30), &clock));
}

#[test]
fn negative_timestamps_round_down() {
    let clock = PlaybackClock::new(1000);
    // -1 / 30 s is -33.3 ticks, which rounds down to -34: due at zero.
    assert!(frame_is_due(-1, Rational(1, 30), &clock));
    assert!(frame_is_due(i64::MIN, Rational(i32::MAX, 1), &clock));
    assert!(!frame_is_due(i64::MAX, Rational(i32::MAX, 1), &clock));
}

#[test]
fn release_hands_out_frames_in_order_as_they_fall_due() {
    let mut clock = PlaybackClock::new(1000);
    let mut buffer = PresentationBuffer::new(10, Rational(1, 30));
    for (pts, payload) in [(1i64, 10u32), (2, 20), (3, 30)] {
        assert_eq!(buffer.offer(frame(Some(pts), payload)), None);
    }
    assert_eq!(buffer.release_due(&mut clock), None);
    assert_eq!(buffer.len(), 3);
    clock.advance(33_000_000);
    assert_eq!(buffer.release_due(&mut clock), Some(frame(Some(1), 10)));
    assert_eq!(buffer.release_due(&mut clock), None);
    assert_eq!(buffer.len(), 2);
    clock.advance(67_000_000);
    assert_eq!(clock.now(), 100);
    assert_eq!(buffer.release_due(&mut clock), Some(frame(Some(2), 20)));
    assert_eq!(buffer.release_due(&mut clock), Some(frame(Some(3), 30)));
    assert_eq!(buffer.release_due(&mut clock), None);
    assert_eq!(buffer.len(), 0);
}

#[test]
fn frame_that_is_not_due_is_held_not_dropped() {
    let mut clock = PlaybackClock::new(1000);
    let mut buffer = PresentationBuffer::new(10, Rational(1, 30));
    assert_eq!(buffer.offer(frame(Some(300), 1)), None);
    assert_eq!(buffer.offer(frame(Some(301), 2)), None);
    for _ in 0..5 {
        clock.advance(1_000_000);
        assert_eq!(buffer.release_due(&mut clock), None);
        assert_eq!(buffer.len(), 2);
        assert_eq!(buffer.front_pts(), Some(300));
    }
    assert_eq!(clock.now(), 5);
}

#[test]
fn frame_stamped_zero_resets_the_clock_and_leaves() {
    let mut clock = PlaybackClock::new(1000);
    clock.advance(750_500_000);
    assert_eq!(clock.now(), 750);
    let mut buffer = PresentationBuffer::new(10, Rational(1, 30));
    assert_eq!(buffer.offer(frame(Some(0), 1)), None);
    assert_eq!(buffer.offer(frame(Some(1), 2)), None);
    assert_eq!(buffer.release_due(&mut clock), Some(frame(Some(0), 1)));
    assert_eq!(clock.now(), 0);
    // The second frame waits for the clock that started anew.
    assert_eq!(buffer.release_due(&mut clock), None);
    clock.advance(33_000_000);
    assert_eq!(buffer.release_due(&mut clock), Some(frame(Some(1), 2)));
}

#[test]
fn frame_without_timestamp_is_held() {
    let mut clock = PlaybackClock::new(1000);
    clock.advance(5_000_000_000);
    let mut buffer = PresentationBuffer::new(10, Rational(1, 30));
    assert_eq!(buffer.offer(frame(None, 1)), None);
    assert_eq!(buffer.offer(frame(Some(1), 2)), None);
    assert_eq!(buffer.front_pts(), None);
    assert_eq!(buffer.release_due(&mut clock), None);
    assert_eq!(buffer.len(), 2);
    assert_eq!(clock.now(), 5000);
}

#[test]
fn release_on_an_empty_buffer_changes_nothing() {
    let mut clock = PlaybackClock::new(1000);
    clock.advance(42_000_000);
    let mut buffer: PresentationBuffer<u32> = PresentationBuffer::new(10, Rational(1, 30));
    assert_eq!(buffer.release_due(&mut clock), None);
    assert_eq!(buffer.len(), 0);
    assert_eq!(clock.now(), 42);
}

#[test]
fn zero_time_base_numerator_makes_every_frame_due() {
    let mut clock = PlaybackClock::new(1000);
    let mut buffer = PresentationBuffer::new(10, Rational(0, 1));
    assert_eq!(buffer.offer(frame(Some(1_000_000), 1)), None);
    assert_eq!(buffer.release_due(&mut clock), Some(frame(Some(1_000_000), 1)));
}
