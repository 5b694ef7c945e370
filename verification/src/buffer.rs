//! The presentation buffer: a short queue of decoded frames of one stream,
//! and the rule by which its front frame is released against the clock.

use crate::clock::{lemma_advance_monotonic, ClockModel, PlaybackClock, NANOS_PER_SECOND};
use crate::rational::Rational;
use std::collections::VecDeque;
use vstd::arithmetic::div_mod::{lemma_fundamental_div_mod, lemma_mod_bound};
use vstd::prelude::*;

verus! {

/// How many decoded frames a presentation buffer holds ahead of the clock.
pub const LOOKAHEAD_CAPACITY: usize = 10;

/// A decoded frame: a raw buffer that the library never looks into, and the
/// presentation timestamp, in the stream's time base, where one is known.
#[derive(Debug, Clone, PartialEq, Eq)]
pub struct Frame<T> {
    pub pts: Option<i64>,
    pub payload: T,
}

/// A timestamp converted from the stream's time base into clock ticks:
/// `pts * time_base * frequency`, rounded down.
pub open spec fn scaled_pts(pts: int, time_base: Rational, frequency: int) -> int
    recommends
        time_base.1 > 0,
{
    (pts * time_base.0 * frequency) / (time_base.1 as int)
}

/// A frame is due once its converted timestamp is not after the clock.
pub open spec fn is_due(pts: int, time_base: Rational, clock: ClockModel) -> bool {
    scaled_pts(pts, time_base, clock.frequency as int) <= clock.ticks
}

/// What one release decision leaves behind and hands out.
pub struct ReleaseOutcome<T> {
    pub frames: Seq<Frame<T>>,
    pub clock: ClockModel,
    pub released: Option<Frame<T>>,
}

/// The mathematical state of a presentation buffer.
pub struct BufferModel<T> {
    pub frames: Seq<Frame<T>>,
    pub capacity: nat,
    pub time_base: Rational,
}

impl<T> BufferModel<T> {
    pub open spec fn wf(self) -> bool {
        self.frames.len() <= self.capacity && self.time_base.1 > 0
    }

    /// The buffer after `frame` was offered to it: appended where there was
    /// room, refused where there was none.
    pub open spec fn offer(self, frame: Frame<T>) -> BufferModel<T> {
        if self.frames.len() < self.capacity {
            BufferModel { frames: self.frames.push(frame), ..self }
        } else {
            self
        }
    }

    /// The release decision on the buffer against `clock`.
    pub open spec fn release(self, clock: ClockModel) -> ReleaseOutcome<T> {
        release_step(self.frames, self.time_base, clock)
    }
}

/// The clock as the front frame leaves it: a front frame stamped `0` sets it
/// back to zero, anything else leaves it alone.
pub open spec fn anchored_clock<T>(frames: Seq<Frame<T>>, clock: ClockModel) -> ClockModel {
    if frames.len() > 0 && frames[0].pts == Some(0i64) {
        clock.reset()
    } else {
        clock
    }
}

/// The release decision on a buffer's content against a clock.
///
/// The front frame anchors the clock; it is then handed out if it is due, and
/// held otherwise. A front frame without a timestamp is held. Nothing but the
/// released frame ever leaves the buffer.
pub open spec fn release_step<T>(
    frames: Seq<Frame<T>>,
    time_base: Rational,
    clock: ClockModel,
) -> ReleaseOutcome<T> {
    let anchored = anchored_clock(frames, clock);
    if frames.len() > 0 && frames[0].pts is Some && is_due(
        frames[0].pts->0 as int,
        time_base,
        anchored,
    ) {
        ReleaseOutcome { frames: frames.drop_first(), clock: anchored, released: Some(frames[0]) }
    } else {
        ReleaseOutcome { frames, clock: anchored, released: None }
    }
}

/// Tells whether a frame stamped `pts` in `time_base` is due on `clock`.
pub fn frame_is_due(pts: i64, time_base: Rational, clock: &PlaybackClock) -> (due: bool)
    requires
        time_base.1 > 0,
        clock.wf(),
    ensures
        due == is_due(pts as int, time_base, clock@),
{
    let wide_pts: i128 = pts as i128;
    let numerator: i128 = time_base.0 as i128;
    let frequency: i128 = clock.tick_frequency() as i128;
    let denominator: i128 = time_base.1 as i128;
    let next_tick: i128 = clock.now() as i128 + 1;
    assert(-0x8000_0000_0000_0000 * 0x8000_0000 <= wide_pts * numerator
        <= 0x8000_0000_0000_0000 * 0x8000_0000) by (nonlinear_arith)
        requires
            -0x8000_0000_0000_0000 <= wide_pts < 0x8000_0000_0000_0000,
            -0x8000_0000 <= numerator < 0x8000_0000,
    ;
    let in_seconds: i128 = wide_pts * numerator;
    assert(-0x4000_0000_0000_0000_0000_0000 * 0x1_0000_0000 <= in_seconds * frequency
        <= 0x4000_0000_0000_0000_0000_0000 * 0x1_0000_0000) by (nonlinear_arith)
        requires
            -0x4000_0000_0000_0000_0000_0000 <= in_seconds <= 0x4000_0000_0000_0000_0000_0000,
            0 <= frequency < 0x1_0000_0000,
    ;
    let scaled: i128 = in_seconds * frequency;
    assert(0 <= next_tick * denominator <= 0x1_0000_0000_0000_0000 * 0x8000_0000)
        by (nonlinear_arith)
        requires
            0 <= next_tick <= 0x1_0000_0000_0000_0000,
            0 <= denominator < 0x8000_0000,
    ;
    let limit: i128 = next_tick * denominator;
    proof {
        let a = scaled as int;
        let d = denominator as int;
        let n = clock@.ticks as int;
        lemma_fundamental_div_mod(a, d);
        lemma_mod_bound(a, d);
        let q = a / d;
        assert((q <= n) == (a < (n + 1) * d)) by (nonlinear_arith)
            requires
                a == d * q + a % d,
                0 <= a % d < d,
        ;
        assert(a == pts * time_base.0 * clock@.frequency);
    }
    scaled < limit
}

/// A small queue of decoded frames of one stream, waiting for the clock to
/// reach them. It takes frames in up to its capacity and gives them out in
/// the order it took them, one at a time, as they fall due.
pub struct PresentationBuffer<T> {
    frames: VecDeque<Frame<T>>,
    capacity: usize,
    time_base: Rational,
}

impl<T> View for PresentationBuffer<T> {
    type V = Seq<Frame<T>>;

    closed spec fn view(&self) -> Seq<Frame<T>> {
        self.frames@
    }
}

impl<T> PresentationBuffer<T> {
    /// The most frames the buffer holds.
    pub closed spec fn lookahead(&self) -> nat {
        self.capacity as nat
    }

    /// The time base in which the frames are stamped.
    pub closed spec fn stream_time_base(&self) -> Rational {
        self.time_base
    }

    /// The buffer's content, capacity and time base together.
    pub open spec fn model(&self) -> BufferModel<T> {
        BufferModel {
            frames: self@,
            capacity: self.lookahead(),
            time_base: self.stream_time_base(),
        }
    }

    pub open spec fn wf(&self) -> bool {
        self.model().wf()
    }

    /// An empty buffer for frames stamped in `time_base`.
    pub fn new(capacity: usize, time_base: Rational) -> (buffer: PresentationBuffer<T>)
        requires
            time_base.1 > 0,
        ensures
            buffer.wf(),
            buffer@ == Seq::<Frame<T>>::empty(),
            buffer.lookahead() == capacity,
            buffer.stream_time_base() == time_base,
    {
        PresentationBuffer { frames: VecDeque::new(), capacity, time_base }
    }

    pub fn len(&self) -> (n: usize)
        ensures
            n == self@.len(),
    {
        self.frames.len()
    }

    pub fn capacity(&self) -> (n: usize)
        ensures
            n == self.lookahead(),
    {
        self.capacity
    }

    pub fn time_base(&self) -> (time_base: Rational)
        ensures
            time_base == self.stream_time_base(),
    {
        self.time_base
    }

    /// Tells whether there is room for one more frame.
    pub fn wants_frame(&self) -> (wanted: bool)
        ensures
            wanted == (self@.len() < self.lookahead()),
    {
        self.frames.len() < self.capacity
    }

    /// The timestamp of the frame at the front, if there is one and it is
    /// stamped.
    pub fn front_pts(&self) -> (pts: Option<i64>)
        ensures
            pts == if self@.len() > 0 {
                self@[0].pts
            } else {
                None
            },
    {
        if self.frames.len() > 0 {
            self.frames[0].pts
        } else {
            None
        }
    }

    /// Appends `frame` if there is room and returns `None`; a full buffer is
    /// left as it is and the frame comes back to the caller.
    pub fn offer(&mut self, frame: Frame<T>) -> (refused: Option<Frame<T>>)
        requires
            old(self).wf(),
        ensures
            final(self).wf(),
            final(self).lookahead() == old(self).lookahead(),
            final(self).stream_time_base() == old(self).stream_time_base(),
            final(self).model() == old(self).model().offer(frame),
            refused == if old(self)@.len() < old(self).lookahead() {
                None
            } else {
                Some(frame)
            },
    {
        if self.frames.len() < self.capacity {
            self.frames.push_back(frame);
            None
        } else {
            Some(frame)
        }
    }

    /// Takes the release decision on the front frame against `clock`: see
    /// [`release_step`]. A released frame is returned and leaves the buffer.
    pub fn release_due(&mut self, clock: &mut PlaybackClock) -> (released: Option<Frame<T>>)
        requires
            old(self).wf(),
            old(clock).wf(),
        ensures
            final(self).wf(),
            final(clock).wf(),
            final(self).lookahead() == old(self).lookahead(),
            final(self).stream_time_base() == old(self).stream_time_base(),
            (ReleaseOutcome { frames: final(self)@, clock: final(clock)@, released })
                == release_step(old(self)@, old(self).stream_time_base(), old(clock)@),
    {
        match self.front_pts() {
            Some(pts) => {
                if pts == 0 {
                    clock.reset();
                }
                if frame_is_due(pts, self.time_base, clock) {
                    let front = self.frames.pop_front();
                    assert(self.frames@ =~= old(self)@.drop_first());
                    front
                } else {
                    None
                }
            },
            None => None,
        }
    }
}

/// Releasing drops nothing and reorders nothing: what is handed out is the
/// front frame, and what stays is the rest, in the order it was in.
pub proof fn lemma_release_keeps_order<T>(
    frames: Seq<Frame<T>>,
    time_base: Rational,
    clock: ClockModel,
)
    ensures
        ({
            let outcome = release_step(frames, time_base, clock);
            match outcome.released {
                Some(frame) => frames == seq![frame] + outcome.frames,
                None => frames == outcome.frames,
            }
        }),
{
    let outcome = release_step(frames, time_base, clock);
    if outcome.released is Some {
        assert(frames =~= seq![frames[0]] + frames.drop_first());
    }
}

/// A frame stamped `0` at the front of a buffer sets the clock to zero and
/// is released at once.
pub proof fn lemma_zero_stamp_anchors_clock<T>(
    frames: Seq<Frame<T>>,
    time_base: Rational,
    clock: ClockModel,
)
    requires
        frames.len() > 0,
        frames[0].pts == Some(0i64),
        time_base.1 > 0,
    ensures
        release_step(frames, time_base, clock).clock.ticks == 0,
        release_step(frames, time_base, clock).clock.carry == 0,
        release_step(frames, time_base, clock).clock.frequency == clock.frequency,
        release_step(frames, time_base, clock).released == Some(frames[0]),
{
    assert(0 * time_base.0 * clock.frequency == 0) by (nonlinear_arith);
    assert(0int / (time_base.1 as int) == 0);
}

/// A frame that is due stays due: the clock only moves on, and a later
/// reading of the same clock releases what an earlier reading released.
pub proof fn lemma_due_stays_due(pts: int, time_base: Rational, clock: ClockModel, elapsed_ns: nat)
    requires
        clock.wf(),
        clock.ticks <= u64::MAX,
        is_due(pts, time_base, clock),
    ensures
        is_due(pts, time_base, clock.advance(elapsed_ns)),
        is_due(pts, time_base, clock.advance(elapsed_ns).saturated()),
{
    lemma_advance_monotonic(clock, elapsed_ns);
}

/// A frame is held exactly until the clock reaches its converted timestamp:
/// the release decision hands the front frame out if and only if it is
/// stamped and due on the anchored clock.
pub proof fn lemma_release_iff_due<T>(frames: Seq<Frame<T>>, time_base: Rational, clock: ClockModel)
    ensures
        release_step(frames, time_base, clock).released is Some <==> frames.len() > 0
            && frames[0].pts is Some && is_due(
            frames[0].pts->0 as int,
            time_base,
            anchored_clock(frames, clock),
        ),
        release_step(frames, time_base, clock).released is None ==> release_step(
            frames,
            time_base,
            clock,
        ).frames == frames,
{
}

/// A frame is due in exact time: it is due once the wall time that the
/// clock has counted, in billionths of a tick, has reached the frame's
/// converted timestamp, whatever part of a tick the clock carries.
pub proof fn lemma_due_in_exact_time(pts: int, time_base: Rational, clock: ClockModel)
    requires
        clock.wf(),
    ensures
        is_due(pts, time_base, clock) <==> scaled_pts(pts, time_base, clock.frequency as int)
            * NANOS_PER_SECOND <= clock.scaled_time(),
{
    let due_at = scaled_pts(pts, time_base, clock.frequency as int);
    let second = NANOS_PER_SECOND as int;
    assert((due_at <= clock.ticks) <==> (due_at * second <= clock.ticks * second + clock.carry))
        by (nonlinear_arith)
        requires
            0 <= clock.carry < second,
            second > 0,
    ;
}

} // verus!
