//! Monotonic tick clock and the non-blocking wait primitives built on it.
//!
//! A [`Time`] value holds the tick counter that the hardware timer
//! interrupt increments once per timer period (1 ms with the vehicle's
//! 1 kHz timer). The embedding program owns the single `Time` instance,
//! calls [`Time::tick`] from the interrupt handler, and passes the
//! instance by reference to every consumer.
//!
//! The counter wraps at the `u32` boundary. All comparisons are made on
//! the wrapping difference between the current tick and a target tick, so
//! a delay that spans the wrap point still completes; see
//! [`lemma_delay_wraparound_safe`].

use vstd::prelude::*;

verus! {

/// Half of the `u32` tick range. A target tick counts as reached while the
/// wrapping distance from the target to the current tick is below this,
/// i.e. within the most recent half-range of ticks.
pub const TICK_HALF_RANGE: u32 = 0x8000_0000;

/// `a + b` modulo `2^32`, the arithmetic of the wrapping tick counter.
pub open spec fn wrap_add(a: u32, b: u32) -> u32 {
    vstd::wrapping::u32_specs::wrapping_add(a, b)
}

/// `now - target` modulo `2^32`: how many ticks ago `target` passed,
/// counting the wrap, as a mathematical integer in `[0, 2^32)`.
pub open spec fn wrap_diff(now: u32, target: u32) -> int {
    if now >= target {
        now - target
    } else {
        now - target + 0x1_0000_0000
    }
}

/// Wraparound-safe "the clock has reached `target`": true when `target`
/// lies at most half the counter range in the past of `now`.
pub open spec fn tick_reached(target: u32, now: u32) -> bool {
    wrap_diff(now, target) < TICK_HALF_RANGE
}

/// The monotonic clock service: a wrapping `u32` tick counter.
///
/// The counter is written only by [`Time::tick`] (the timer interrupt's
/// one permitted action) and read by [`Time::current_time`].
pub struct Time {
    /// The current tick count.
    pub ticks: u32,
}

impl Time {
    /// A freshly configured clock; the counter starts at zero.
    pub fn init() -> (r: Time)
        ensures
            r.ticks == 0,
    {
        Time { ticks: 0 }
    }

    /// The timer interrupt's entire effect on this service: advance the
    /// counter by exactly one tick, wrapping at the `u32` boundary.
    pub fn tick(&mut self)
        ensures
            final(self).ticks == wrap_add(old(self).ticks, 1),
    {
        self.ticks = self.ticks.wrapping_add(1);
    }

    /// Non-blocking read of the current tick count.
    pub fn current_time(&self) -> (r: u32)
        ensures
            r == self.ticks,
    {
        self.ticks
    }
}

/// A single-shot non-blocking delay: a target tick captured at
/// construction, compared against the live clock on each poll.
pub struct Delay {
    target_time: u32,
}

impl Delay {
    /// The tick at which this delay becomes ready.
    pub closed spec fn target(&self) -> u32 {
        self.target_time
    }

    /// Arm a delay that becomes ready `delay_ms` ticks from now
    /// (wrapping addition, per the counter's arithmetic).
    pub fn new(delay_ms: u32, time: &Time) -> (r: Delay)
        ensures
            r.target() == wrap_add(time.ticks, delay_ms),
    {
        Delay { target_time: time.current_time().wrapping_add(delay_ms) }
    }

    /// Non-blocking poll: true exactly when the clock has reached the
    /// target, under the wraparound-safe comparison. Callers that need a
    /// blocking wait spin on this.
    pub fn poll(&self, time: &Time) -> (r: bool)
        ensures
            r == tick_reached(self.target(), time.ticks),
    {
        let now = time.current_time();
        now.wrapping_sub(self.target_time) < TICK_HALF_RANGE
    }
}

/// A recurring delay. On firing it re-arms from the tick it was due at,
/// not from the tick it was polled at, so late polls do not accumulate
/// drift across a long-running loop.
pub struct Interval {
    interval_ms: u32,
    delay: Delay,
}

impl Interval {
    /// The period, in ticks.
    pub closed spec fn period(&self) -> u32 {
        self.interval_ms
    }

    /// The tick at which this interval next fires.
    pub closed spec fn target(&self) -> u32 {
        self.delay.target()
    }

    /// Arm an interval that first fires `interval_ms` ticks from now.
    pub fn new(interval_ms: u32, time: &Time) -> (r: Interval)
        ensures
            r.period() == interval_ms,
            r.target() == wrap_add(time.ticks, interval_ms),
    {
        Interval { interval_ms, delay: Delay::new(interval_ms, time) }
    }

    /// Non-blocking poll. Fires (returns true) exactly when the clock has
    /// reached the current target; on firing the target advances by one
    /// period from where it was due, otherwise nothing changes.
    pub fn poll(&mut self, time: &Time) -> (r: bool)
        ensures
            r == tick_reached(old(self).target(), time.ticks),
            final(self).period() == old(self).period(),
            final(self).target() == if r {
                wrap_add(old(self).target(), old(self).period())
            } else {
                old(self).target()
            },
    {
        if self.delay.poll(time) {
            self.delay = Delay {
                target_time: self.delay.target_time.wrapping_add(self.interval_ms),
            };
            true
        } else {
            false
        }
    }
}

/// Wraparound safety of the delay comparison: for any start tick, a delay
/// of fewer than half the counter range becomes ready exactly when at
/// least that many ticks have elapsed, counted through the wrap, as long
/// as it is polled within half a range of its start.
pub proof fn lemma_delay_wraparound_safe(start: u32, duration: u32, elapsed: u32)
    requires
        duration < TICK_HALF_RANGE,
        elapsed < TICK_HALF_RANGE,
    ensures
        tick_reached(wrap_add(start, duration), wrap_add(start, elapsed)) <==> elapsed
            >= duration,
{
}

} // verus!
