//! The playback clock: ticks of a fixed frequency, counted from the wall
//! time that goes by between observations, without loss.

use vstd::arithmetic::div_mod::{
    lemma_div_pos_is_pos, lemma_fundamental_div_mod, lemma_fundamental_div_mod_converse,
    lemma_mod_bound,
};
use vstd::prelude::*;

verus! {

/// Nanoseconds in one second.
pub const NANOS_PER_SECOND: u64 = 1_000_000_000;

/// The mathematical state of a playback clock.
///
/// The clock counts whole ticks and keeps what is left over, so that no time
/// is lost between observations: `ticks * 10^9 + carry` is the observed
/// wall time in nanoseconds multiplied by the tick frequency. `last` is the
/// instant of the last observation, in nanoseconds of wall time, once there
/// was one.
pub struct ClockModel {
    pub ticks: nat,
    pub carry: nat,
    pub frequency: nat,
    pub last: Option<nat>,
}

impl ClockModel {
    pub open spec fn wf(self) -> bool {
        self.carry < NANOS_PER_SECOND && self.frequency > 0
    }

    /// Observed nanoseconds times the frequency: the clock's exact reading
    /// in units of a billionth of a tick.
    pub open spec fn scaled_time(self) -> nat {
        self.ticks * (NANOS_PER_SECOND as nat) + self.carry
    }

    /// The clock after `elapsed_ns` more nanoseconds of wall time.
    pub open spec fn advance(self, elapsed_ns: nat) -> ClockModel {
        let total = self.carry + elapsed_ns * self.frequency;
        ClockModel {
            ticks: self.ticks + total / (NANOS_PER_SECOND as nat),
            carry: total % (NANOS_PER_SECOND as nat),
            ..self
        }
    }

    /// The clock after it was observed at the instant `now_ns`: the wall
    /// time since the observation before has gone by. The first observation
    /// only marks its instant, and so does one that is not later than the
    /// one before.
    pub open spec fn observe(self, now_ns: nat) -> ClockModel {
        match self.last {
            Some(last) if last <= now_ns => ClockModel {
                last: Some(now_ns),
                ..self.advance((now_ns - last) as nat)
            },
            Some(_) => self,
            None => ClockModel { last: Some(now_ns), ..self },
        }
    }

    /// The clock set back to zero, at the same frequency.
    pub open spec fn reset(self) -> ClockModel {
        ClockModel { ticks: 0, carry: 0, ..self }
    }

    /// The clock with its tick count cut off at the largest `u64`.
    pub open spec fn saturated(self) -> ClockModel {
        if self.ticks <= u64::MAX {
            self
        } else {
            ClockModel { ticks: u64::MAX as nat, ..self }
        }
    }
}

/// A monotonic clock in the media's own time domain, counted in ticks of
/// `1 / tick_frequency` seconds and advanced by elapsed wall time.
pub struct PlaybackClock {
    ticks: u64,
    carry: u64,
    tick_frequency: u32,
    last_ns: Option<u64>,
}

impl View for PlaybackClock {
    type V = ClockModel;

    closed spec fn view(&self) -> ClockModel {
        ClockModel {
            ticks: self.ticks as nat,
            carry: self.carry as nat,
            frequency: self.tick_frequency as nat,
            last: match self.last_ns {
                Some(last) => Some(last as nat),
                None => None,
            },
        }
    }
}

impl PlaybackClock {
    pub open spec fn wf(&self) -> bool {
        &&& self@.wf()
        &&& self@.ticks <= u64::MAX
        &&& self@.frequency <= u32::MAX
        &&& self@.last is Some ==> self@.last->0 <= u64::MAX
    }

    /// A clock at zero that ticks `tick_frequency` times per second and was
    /// not observed yet.
    pub fn new(tick_frequency: u32) -> (clock: PlaybackClock)
        requires
            tick_frequency > 0,
        ensures
            clock.wf(),
            clock@ == (ClockModel {
                ticks: 0,
                carry: 0,
                frequency: tick_frequency as nat,
                last: None,
            }),
    {
        PlaybackClock { ticks: 0, carry: 0, tick_frequency, last_ns: None }
    }

    /// The accumulated number of whole ticks.
    pub fn now(&self) -> (ticks: u64)
        ensures
            ticks == self@.ticks,
    {
        self.ticks
    }

    /// Ticks per second.
    pub fn tick_frequency(&self) -> (frequency: u32)
        ensures
            frequency == self@.frequency,
    {
        self.tick_frequency
    }

    /// Adds `elapsed_ns` nanoseconds of wall time. The sub-tick remainder is
    /// carried to the next call; the tick count stops at `u64::MAX`.
    pub fn advance(&mut self, elapsed_ns: u64)
        requires
            old(self).wf(),
        ensures
            final(self).wf(),
            final(self)@ == old(self)@.advance(elapsed_ns as nat).saturated(),
    {
        let wide_elapsed: u128 = elapsed_ns as u128;
        let wide_frequency: u128 = self.tick_frequency as u128;
        assert(wide_elapsed * wide_frequency <= 0xffff_ffff_ffff_ffff * 0xffff_ffff)
            by (nonlinear_arith)
            requires
                wide_elapsed <= 0xffff_ffff_ffff_ffff,
                wide_frequency <= 0xffff_ffff,
        ;
        let product: u128 = wide_elapsed * wide_frequency;
        let total: u128 = self.carry as u128 + product;
        let whole: u128 = total / (NANOS_PER_SECOND as u128);
        let rest: u128 = total % (NANOS_PER_SECOND as u128);
        let sum: u128 = self.ticks as u128 + whole;
        if sum > u64::MAX as u128 {
            self.ticks = u64::MAX;
        } else {
            self.ticks = sum as u64;
        }
        self.carry = rest as u64;
    }

    /// Observes the clock at the instant `now_ns`, in nanoseconds of a wall
    /// time that does not run backwards: the time since the observation
    /// before is added. The tick count stops at `u64::MAX`.
    pub fn observe(&mut self, now_ns: u64)
        requires
            old(self).wf(),
        ensures
            final(self).wf(),
            final(self)@ == old(self)@.observe(now_ns as nat).saturated(),
    {
        match self.last_ns {
            Some(last) => {
                if last <= now_ns {
                    self.advance(now_ns - last);
                    self.last_ns = Some(now_ns);
                }
            },
            None => {
                self.last_ns = Some(now_ns);
            },
        }
    }

    /// Marks `now_ns` as the instant of the last observation, without
    /// counting the time that went by before it.
    pub fn rebase(&mut self, now_ns: u64)
        requires
            old(self).wf(),
        ensures
            final(self).wf(),
            final(self)@ == (ClockModel { last: Some(now_ns as nat), ..old(self)@ }),
    {
        self.last_ns = Some(now_ns);
    }

    /// Sets the clock back to zero.
    pub fn reset(&mut self)
        requires
            old(self).wf(),
        ensures
            final(self).wf(),
            final(self)@ == old(self)@.reset(),
    {
        self.ticks = 0;
        self.carry = 0;
    }

    /// Changes the tick frequency. The tick count stays; the sub-tick
    /// remainder, counted at the former frequency, is dropped.
    pub fn set_frequency(&mut self, tick_frequency: u32)
        requires
            old(self).wf(),
            tick_frequency > 0,
        ensures
            final(self).wf(),
            final(self)@ == (ClockModel {
                carry: 0,
                frequency: tick_frequency as nat,
                ..old(self)@
            }),
    {
        self.carry = 0;
        self.tick_frequency = tick_frequency;
    }
}

/// Advancing loses no time: the exact reading grows by the elapsed
/// nanoseconds times the frequency, whatever the sub-tick remainder was.
pub proof fn lemma_advance_keeps_time(clock: ClockModel, elapsed_ns: nat)
    requires
        clock.wf(),
    ensures
        clock.advance(elapsed_ns).wf(),
        clock.advance(elapsed_ns).scaled_time() == clock.scaled_time() + elapsed_ns
            * clock.frequency,
{
    let total = (clock.carry + elapsed_ns * clock.frequency) as int;
    let second = NANOS_PER_SECOND as int;
    lemma_fundamental_div_mod(total, second);
    lemma_mod_bound(total, second);
    lemma_div_pos_is_pos(total, second);
    assert((clock.ticks + total / second) * second == clock.ticks * second + second * (total
        / second)) by (nonlinear_arith);
}

/// Observing twice is observing once: two advances in a row leave the clock
/// where one advance by the summed time leaves it.
pub proof fn lemma_advance_additive(clock: ClockModel, first_ns: nat, second_ns: nat)
    requires
        clock.wf(),
    ensures
        clock.advance(first_ns).advance(second_ns) == clock.advance(first_ns + second_ns),
{
    let second = NANOS_PER_SECOND as int;
    let once = clock.advance(first_ns + second_ns);
    let twice = clock.advance(first_ns).advance(second_ns);
    lemma_advance_keeps_time(clock, first_ns);
    lemma_advance_keeps_time(clock.advance(first_ns), second_ns);
    lemma_advance_keeps_time(clock, first_ns + second_ns);
    assert((first_ns + second_ns) * clock.frequency == first_ns * clock.frequency + second_ns
        * clock.frequency) by (nonlinear_arith);
    assert(once.scaled_time() == twice.scaled_time());
    lemma_fundamental_div_mod_converse(
        once.scaled_time() as int,
        second,
        once.ticks as int,
        once.carry as int,
    );
    lemma_fundamental_div_mod_converse(
        twice.scaled_time() as int,
        second,
        twice.ticks as int,
        twice.carry as int,
    );
}

/// The clock never runs backwards.
pub proof fn lemma_advance_monotonic(clock: ClockModel, elapsed_ns: nat)
    requires
        clock.wf(),
    ensures
        clock.advance(elapsed_ns).ticks >= clock.ticks,
        clock.advance(elapsed_ns).saturated().ticks >= clock.saturated().ticks,
{
    let total = (clock.carry + elapsed_ns * clock.frequency) as int;
    lemma_div_pos_is_pos(total, NANOS_PER_SECOND as int);
}

/// One advance adds the whole ticks that fit in the elapsed time, and at
/// most one more, owed to the remainder carried in.
pub proof fn lemma_advance_within_one_tick(clock: ClockModel, elapsed_ns: nat)
    requires
        clock.wf(),
    ensures
        ({
            let gained = clock.advance(elapsed_ns).ticks - clock.ticks;
            let whole = (elapsed_ns * clock.frequency) / (NANOS_PER_SECOND as nat);
            whole <= gained <= whole + 1
        }),
{
    let second = NANOS_PER_SECOND as int;
    let fresh = (elapsed_ns * clock.frequency) as int;
    let total = clock.carry + fresh;
    lemma_fundamental_div_mod(fresh, second);
    lemma_fundamental_div_mod(total, second);
    lemma_mod_bound(fresh, second);
    lemma_mod_bound(total, second);
    let q1 = fresh / second;
    let q2 = total / second;
    assert(q1 <= q2 <= q1 + 1) by (nonlinear_arith)
        requires
            fresh == second * q1 + fresh % second,
            total == second * q2 + total % second,
            0 <= fresh % second < second,
            0 <= total % second < second,
            fresh <= total < fresh + second,
            second > 0,
    ;
}

/// Observing loses no time: between two observations the exact reading
/// grows by the wall time between them times the frequency.
pub proof fn lemma_observe_keeps_time(clock: ClockModel, now_ns: nat)
    requires
        clock.wf(),
        clock.last is Some,
        clock.last->0 <= now_ns,
    ensures
        clock.observe(now_ns).wf(),
        clock.observe(now_ns).last == Some(now_ns),
        clock.observe(now_ns).scaled_time() == clock.scaled_time() + (now_ns - clock.last->0)
            * clock.frequency,
{
    lemma_advance_keeps_time(clock, (now_ns - clock.last->0) as nat);
}

/// The clock does not drift: it makes no difference how often it is looked
/// at. An observation in between leaves the clock, at the later
/// observation, where it would be without it.
pub proof fn lemma_observe_is_drift_free(clock: ClockModel, earlier_ns: nat, later_ns: nat)
    requires
        clock.wf(),
        clock.last is Some,
        clock.last->0 <= earlier_ns <= later_ns,
    ensures
        clock.observe(earlier_ns).observe(later_ns) == clock.observe(later_ns),
{
    let start = clock.last->0;
    lemma_advance_additive(clock, (earlier_ns - start) as nat, (later_ns - earlier_ns) as nat);
    let between = clock.observe(earlier_ns);
    assert(between.advance((later_ns - earlier_ns) as nat) == (ClockModel {
        last: Some(earlier_ns),
        ..clock.advance((earlier_ns - start) as nat).advance((later_ns - earlier_ns) as nat)
    }));
}

/// An observed clock never runs backwards, whenever it is observed.
pub proof fn lemma_observe_monotonic(clock: ClockModel, now_ns: nat)
    requires
        clock.wf(),
    ensures
        clock.observe(now_ns).ticks >= clock.ticks,
        clock.observe(now_ns).saturated().ticks >= clock.saturated().ticks,
{
    if clock.last is Some && clock.last->0 <= now_ns {
        lemma_advance_monotonic(clock, (now_ns - clock.last->0) as nat);
    }
}

} // verus!
