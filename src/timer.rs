use vstd::prelude::*;

use crate::memory::{Memory, Interrupt, MEMORY_LOCATION_DIV, MEMORY_LOCATION_TIMA, MEMORY_LOCATION_TMA, MEMORY_LOCATION_TAC, MEMORY_LOCATION_INTERRUPTS_FLAGGED};

verus! {

/// The bit of the internal counter whose falling edge increments TIMA, for TAC.
pub open spec fn timer_bit(tac: u8) -> u16 {
    let sel = tac & 3;
    if sel == 0 { 9 } else if sel == 1 { 3 } else if sel == 2 { 5 } else { 7 }
}

/// Whether TAC enables TIMA.
pub open spec fn timer_enabled(tac: u8) -> bool {
    tac & 4 != 0
}

/// Whether bit `b` of `counter` is set.
pub open spec fn counter_bit(counter: u16, b: u16) -> bool {
    (counter >> b) & 1 == 1
}

/// The timer's state after some cycles, and how many interrupts it requested.
pub struct TimerRun {
    pub counter: u16,
    pub delay: u8,
    pub tima: u8,
    pub irqs: nat,
}

/// TIMA and the overflow delay after one increment of TIMA.
pub open spec fn tima_increment(tima: u8, delay: u8) -> (u8, u8) {
    if tima == 0xff { (0, 4) } else { ((tima + 1) as u8, delay) }
}

/// One cycle of the timer: a pending reload counts down and, when it ends,
/// loads TMA into TIMA and requests the interrupt; the counter moves on, and a
/// falling edge of the selected bit increments TIMA while the timer is enabled.
pub open spec fn timer_tick(r: TimerRun, tma: u8, tac: u8) -> TimerRun {
    let reload = r.delay == 1;
    let tima1: u8 = if reload { tma } else { r.tima };
    let delay1: u8 = if r.delay > 0 { (r.delay - 1) as u8 } else { 0 };
    let next: u16 = ((r.counter + 1) % 65536) as u16;
    let fell = counter_bit(r.counter, timer_bit(tac)) && !counter_bit(next, timer_bit(tac));
    let (tima2, delay2) = if timer_enabled(tac) && fell { tima_increment(tima1, delay1) } else { (tima1, delay1) };
    TimerRun { counter: next, delay: delay2, tima: tima2, irqs: if reload { r.irqs + 1 } else { r.irqs } }
}

/// The timer after `n` cycles.
pub open spec fn timer_run(start: TimerRun, tma: u8, tac: u8, n: nat) -> TimerRun
    decreases n,
{
    if n == 0 { start } else { timer_tick(timer_run(start, tma, tac, (n - 1) as nat), tma, tac) }
}

/// The timer's state before the cycles run, after a write to DIV: the counter
/// restarts at 0, and when the selected bit was set (with the timer enabled)
/// the falling edge increments TIMA.
pub open spec fn after_div_write(counter: u16, delay: u8, tima: u8, tac: u8) -> TimerRun {
    let (t, d) = if timer_enabled(tac) && counter_bit(counter, timer_bit(tac)) {
        tima_increment(tima, delay)
    } else {
        (tima, delay)
    };
    TimerRun { counter: 0, delay: d, tima: t, irqs: 0 }
}

/// The timer: DIV, TIMA, TMA and TAC.
#[derive(Clone)]
pub struct Timer {
    counter: u16,
    overflow_delay: u8,
}

impl Timer {
    pub closed spec fn wf(&self) -> bool {
        self.overflow_delay <= 4
    }

    /// The free-running 16-bit counter; DIV is its high byte.
    pub closed spec fn counter_spec(&self) -> u16 {
        self.counter
    }

    /// Cycles left until a pending TMA reload; 0 when none is pending.
    pub closed spec fn delay_spec(&self) -> u8 {
        self.overflow_delay
    }

    /// A timer with its counter at 0 and no reload pending.
    pub fn new() -> (r: Timer)
        ensures
            r.wf(),
            r.counter_spec() == 0,
            r.delay_spec() == 0,
    {
        Timer { counter: 0, overflow_delay: 0 }
    }

    /// Sets the internal counter, and TAC, DIV to match.
    pub fn initialize_counter(&mut self, mem: &mut Memory, counter: u16, tac: u8)
        requires
            old(self).wf(),
            old(mem).wf(),
        ensures
            final(self).wf(),
            final(self).counter_spec() == counter,
            final(self).delay_spec() == old(self).delay_spec(),
            final(mem).wf(),
            final(mem).same_extras(old(mem)),
            final(mem)@ == old(mem)@.update(MEMORY_LOCATION_DIV as int, (counter >> 8u16) as u8).update(MEMORY_LOCATION_TAC as int, tac),
    {
        self.counter = counter;
        mem.set(MEMORY_LOCATION_DIV, (counter >> 8) as u8);
        mem.set(MEMORY_LOCATION_TAC, tac);
    }

    /// Lets `cycles` cycles pass, after applying pending writes: a write to
    /// TIMA cancels a pending reload, and a write to DIV restarts the counter.
    pub fn update(&mut self, mem: &mut Memory, cycles: u64)
        requires
            old(self).wf(),
            old(mem).wf(),
        ensures
            final(self).wf(),
            final(mem).wf(),
            !final(mem).div_written_spec(),
            !final(mem).tima_written_spec(),
            final(mem).boot_rom_active() == old(mem).boot_rom_active(),
            final(mem).boot_rom_image() == old(mem).boot_rom_image(),
            final(mem).buttons_spec() == old(mem).buttons_spec(),
            ({
                let tima0 = old(mem)@[MEMORY_LOCATION_TIMA as int];
                let tma = old(mem)@[MEMORY_LOCATION_TMA as int];
                let tac = old(mem)@[MEMORY_LOCATION_TAC as int];
                let delay0: u8 = if old(mem).tima_written_spec() { 0 } else { old(self).delay_spec() };
                let start = if old(mem).div_written_spec() {
                    after_div_write(old(self).counter_spec(), delay0, tima0, tac)
                } else {
                    TimerRun { counter: old(self).counter_spec(), delay: delay0, tima: tima0, irqs: 0 }
                };
                let end = timer_run(start, tma, tac, cycles as nat);
                let flags = old(mem)@[MEMORY_LOCATION_INTERRUPTS_FLAGGED as int];
                &&& final(self).counter_spec() == end.counter
                &&& final(self).delay_spec() == end.delay
                &&& final(mem)@ == old(mem)@.update(MEMORY_LOCATION_TIMA as int, end.tima).update(
                    MEMORY_LOCATION_DIV as int, (end.counter >> 8u16) as u8).update(
                    MEMORY_LOCATION_INTERRUPTS_FLAGGED as int,
                    if end.irqs > 0 { flags | (1u8 << 2u8) } else { flags })
            }),
    {
        let tma = mem.get(MEMORY_LOCATION_TMA);
        let tac = mem.get(MEMORY_LOCATION_TAC);
        let mut tima = mem.get(MEMORY_LOCATION_TIMA);
        let enabled = tac & 4 != 0;
        let sel = tac & 3;
        let bit: u16 = if sel == 0 { 9 } else if sel == 1 { 3 } else if sel == 2 { 5 } else { 7 };
        if mem.take_tima_written() {
            self.overflow_delay = 0;
        }
        if mem.take_div_written() {
            if enabled && (self.counter >> bit) & 1 == 1 {
                if tima == 0xff {
                    tima = 0;
                    self.overflow_delay = 4;
                } else {
                    tima = tima + 1;
                }
            }
            self.counter = 0;
        }
        let ghost start = TimerRun { counter: self.counter, delay: self.overflow_delay, tima, irqs: 0 };
        let mut irq = false;
        let mut done: u64 = 0;
        while done < cycles
            invariant
                done <= cycles,
                self.overflow_delay <= 4,
                bit == timer_bit(tac),
                enabled == timer_enabled(tac),
                ({
                    let r = timer_run(start, tma, tac, done as nat);
                    r.counter == self.counter && r.delay == self.overflow_delay && r.tima == tima && (r.irqs > 0) == irq
                }),
            decreases cycles - done,
        {
            let reload = self.overflow_delay == 1;
            if reload {
                tima = tma;
                irq = true;
            }
            if self.overflow_delay > 0 {
                self.overflow_delay = self.overflow_delay - 1;
            }
            let next = self.counter.wrapping_add(1);
            let fell = (self.counter >> bit) & 1 == 1 && !((next >> bit) & 1 == 1);
            if enabled && fell {
                if tima == 0xff {
                    tima = 0;
                    self.overflow_delay = 4;
                } else {
                    tima = tima + 1;
                }
            }
            self.counter = next;
            done = done + 1;
        }
        mem.set(MEMORY_LOCATION_TIMA, tima);
        mem.set(MEMORY_LOCATION_DIV, (self.counter >> 8) as u8);
        if irq {
            mem.request_interrupt(Interrupt::Timer);
        }
    }
}

/// An overflow of TIMA leads to exactly one timer interrupt: in the four
/// cycles after the overflow the interrupt is requested once, on the last,
/// and TIMA then holds TMA (unless it was incremented again in that cycle).
pub proof fn lemma_one_interrupt_per_overflow(counter: u16, tma: u8, tac: u8, irqs: nat)
    ensures
        ({
            let start = TimerRun { counter, delay: 4, tima: 0, irqs };
            &&& timer_run(start, tma, tac, 1).irqs == irqs
            &&& timer_run(start, tma, tac, 2).irqs == irqs
            &&& timer_run(start, tma, tac, 3).irqs == irqs
            &&& timer_run(start, tma, tac, 4).irqs == irqs + 1
            &&& timer_run(start, tma, tac, 3).tima <= 3
        }),
{
    let start = TimerRun { counter, delay: 4, tima: 0, irqs };
    reveal_with_fuel(timer_run, 5);
    let r1 = timer_run(start, tma, tac, 1);
    let r2 = timer_run(start, tma, tac, 2);
    let r3 = timer_run(start, tma, tac, 3);
    assert(r1.delay == 3 && r1.tima <= 1);
    assert(r2.delay == 2 && r2.tima <= 2);
    assert(r3.delay == 1 && r3.tima <= 3);
}

} // verus!
