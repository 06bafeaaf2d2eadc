use vstd::prelude::*;

use crate::cpu::CPU_CLOCK_SPEED;

verus! {

/// When the output samples fall due: the cycles that passed since the
/// clock last wrapped, and the cycle at which the next sample is complete.
#[derive(Clone, Copy, PartialEq, Eq, Structural, Debug)]
pub struct SampleClock {
    pub time_passed: u64,
    pub next_sample_time: u64,
}

/// The cycle at which the sample after the one due at `t` is complete, for
/// `rate` samples per second: the first cycle of the next sample slot.
pub open spec fn next_due(t: u64, rate: u32) -> int {
    (((t + 1) * rate / CPU_CLOCK_SPEED as int) + 1) * CPU_CLOCK_SPEED as int / rate as int
}

/// The due time that follows `t`, after the wrap that keeps the clock
/// within two seconds: past one second, both times move back by a second.
pub open spec fn next_due_wrapped(t: u64, rate: u32) -> int {
    let base: u64 = if t > CPU_CLOCK_SPEED { (t - CPU_CLOCK_SPEED) as u64 } else { t };
    next_due(base, rate)
}

proof fn lemma_next_due_bounds(t: u64, rate: u32)
    requires
        2 <= rate <= CPU_CLOCK_SPEED,
        t <= CPU_CLOCK_SPEED,
    ensures
        t + 1 <= next_due(t, rate) <= t + 2 + CPU_CLOCK_SPEED / 2,
{
    let c = CPU_CLOCK_SPEED as int;
    let r = rate as int;
    let x = (t + 1) * r;
    let k = x / c;
    vstd::arithmetic::div_mod::lemma_fundamental_div_mod(x, c);
    let y = (k + 1) * c;
    let q = y / r;
    vstd::arithmetic::div_mod::lemma_fundamental_div_mod(y, r);
    assert(x < y) by (nonlinear_arith)
        requires
            x == c * k + x % c,
            0 <= x % c < c,
            y == (k + 1) * c,
    ;
    assert(y <= x + c) by (nonlinear_arith)
        requires
            x == c * k + x % c,
            0 <= x % c,
            y == (k + 1) * c,
    ;
    assert(q >= t + 1) by (nonlinear_arith)
        requires
            y == r * q + y % r,
            0 <= y % r < r,
            x < y,
            x == (t + 1) * r,
            r >= 2,
    ;
    assert(r * (q - t - 1) <= c) by (nonlinear_arith)
        requires
            y == r * q + y % r,
            0 <= y % r,
            y <= x + c,
            x == (t + 1) * r,
    ;
    assert(2 * (q - t - 1) <= c) by (nonlinear_arith)
        requires
            r * (q - t - 1) <= c,
            r >= 2,
            q - t - 1 >= 0,
    ;
}

/// Moves the clock on by at most `remaining` cycles, up to the time the
/// next sample is due (at least one cycle). Returns the cycles used and
/// whether a sample fell due; then the due time moves to the next slot,
/// after moving both times back by a second once past one.
pub fn advance_sample_clock(c: &mut SampleClock, remaining: u64, sample_rate: u32) -> (r: (u64, bool))
    requires
        2 <= sample_rate <= CPU_CLOCK_SPEED,
        0 < remaining,
        old(c).time_passed <= old(c).next_sample_time <= 2 * CPU_CLOCK_SPEED,
    ensures
        r.0 == (if remaining < (if old(c).next_sample_time - old(c).time_passed > 1 {
            old(c).next_sample_time - old(c).time_passed
        } else {
            1
        }) {
            remaining as int
        } else if old(c).next_sample_time - old(c).time_passed > 1 {
            old(c).next_sample_time - old(c).time_passed
        } else {
            1
        }),
        r.1 == (old(c).time_passed + r.0 >= old(c).next_sample_time),
        !r.1 ==> *final(c) == (SampleClock { time_passed: (old(c).time_passed + r.0) as u64, ..*old(c) }),
        r.1 ==> final(c).next_sample_time == next_due_wrapped(old(c).next_sample_time, sample_rate),
        r.1 ==> final(c).time_passed == (if old(c).next_sample_time > CPU_CLOCK_SPEED {
            old(c).time_passed + r.0 - CPU_CLOCK_SPEED
        } else {
            old(c).time_passed + r.0
        }),
        final(c).time_passed <= final(c).next_sample_time <= 2 * CPU_CLOCK_SPEED,
{
    let gap = c.next_sample_time - c.time_passed;
    let step: u64 = if gap > 1 { gap } else { 1 };
    let run: u64 = if remaining < step { remaining } else { step };
    c.time_passed = c.time_passed + run;
    if c.time_passed < c.next_sample_time {
        return (run, false);
    }
    if c.next_sample_time > CPU_CLOCK_SPEED {
        c.next_sample_time = c.next_sample_time - CPU_CLOCK_SPEED;
        c.time_passed = c.time_passed - CPU_CLOCK_SPEED;
    }
    proof {
        lemma_next_due_bounds(c.next_sample_time, sample_rate);
    }
    let rate = sample_rate as u64;
    assert((c.next_sample_time + 1) * rate <= (CPU_CLOCK_SPEED + 1) * CPU_CLOCK_SPEED) by (nonlinear_arith)
        requires
            c.next_sample_time <= CPU_CLOCK_SPEED,
            rate <= CPU_CLOCK_SPEED,
    ;
    assert((c.next_sample_time + 1) * rate / (CPU_CLOCK_SPEED as int) <= CPU_CLOCK_SPEED + 1) by (nonlinear_arith)
        requires
            (c.next_sample_time + 1) * rate <= (CPU_CLOCK_SPEED + 1) * CPU_CLOCK_SPEED,
    ;
    let number = (c.next_sample_time + 1) * rate / CPU_CLOCK_SPEED + 1;
    assert(number * CPU_CLOCK_SPEED <= (CPU_CLOCK_SPEED + 2) * CPU_CLOCK_SPEED) by (nonlinear_arith)
        requires
            number <= CPU_CLOCK_SPEED + 2,
    ;
    c.next_sample_time = number * CPU_CLOCK_SPEED / rate;
    (run, true)
}

} // verus!
