use vstd::prelude::*;

use crate::utils::{bit_of, get_bit};

verus! {

/// One shift of the noise register: the XNOR of its two low bits moves in at
/// bit 14, and also at bit 6 in 7-bit mode.
pub open spec fn lfsr_step(lfsr: u16, short: bool) -> u16 {
    let b: u16 = (lfsr ^ (lfsr >> 1u16) ^ 1u16) & 1u16;
    let shifted: u16 = ((lfsr >> 1u16) & 0x3fffu16) | (b << 14u16);
    if short {
        (shifted & !(1u16 << 6u16)) | (b << 6u16)
    } else {
        shifted
    }
}

/// The register and timer after `n` cycles: each cycle counts the timer down,
/// and when it runs out the register shifts and the timer restarts at `period`.
pub open spec fn noise_run(lfsr: u16, short: bool, timer: u64, period: u64, n: nat) -> (u16, u64)
    decreases n,
{
    if n == 0 {
        (lfsr, timer)
    } else {
        let (l, t) = noise_run(lfsr, short, timer, period, (n - 1) as nat);
        if t <= 1 {
            (lfsr_step(l, short), period)
        } else {
            (l, (t - 1) as u64)
        }
    }
}

/// The divider that NR43's low three bits select.
pub open spec fn noise_divider(code: u8) -> u64 {
    if code == 0 { 8 } else { ((code as u64) * 16) as u64 }
}

/// The noise generator of channel 4: a linear feedback shift register
/// clocked every `divider << shift` cycles.
#[derive(Clone)]
pub struct NoiseGenerator {
    /// The shift register; its bit 0 is the generated signal.
    pub lfsr: u16,
    /// Whether the register runs in 7-bit mode.
    pub short_mode: bool,
    /// The base value of the frequency divider.
    pub frequency_divider: u64,
    /// The number of bits to shift the divider left.
    pub frequency_shift: u64,
    /// The time left until the next shift.
    pub frequency_timer: u64,
}

impl NoiseGenerator {
    pub open spec fn wf(&self) -> bool {
        &&& 8 <= self.frequency_divider <= 112
        &&& self.frequency_shift <= 15
        &&& self.frequency_timer <= 112 * 32768
    }

    /// The number of cycles between two shifts.
    pub open spec fn period(&self) -> u64 {
        (self.frequency_divider * pow2_u64(self.frequency_shift)) as u64
    }

    /// A generator with a cleared register, divider 8 and shift 0.
    pub fn new() -> (r: Self)
        ensures
            r.wf(),
            r.lfsr == 0,
            !r.short_mode,
            r.frequency_divider == 8,
            r.frequency_shift == 0,
            r.frequency_timer == 0,
    {
        Self { lfsr: 0, short_mode: false, frequency_divider: 8, frequency_shift: 0, frequency_timer: 0 }
    }

    /// Restarts the time until the next shift.
    pub fn reset_timer(&mut self)
        requires
            old(self).wf(),
        ensures
            final(self).wf(),
            final(self).frequency_timer == old(self).period(),
            final(self).lfsr == old(self).lfsr,
            final(self).short_mode == old(self).short_mode,
            final(self).frequency_divider == old(self).frequency_divider,
            final(self).frequency_shift == old(self).frequency_shift,
    {
        let p = shift_left(self.frequency_divider, self.frequency_shift);
        self.frequency_timer = p;
    }

    /// Takes NR43: shift (bits 7..4), 7-bit mode (bit 3), divider code (bits 2..0).
    pub fn on_register_changed(&mut self, nr43: u8)
        requires
            old(self).wf(),
        ensures
            final(self).wf(),
            final(self).frequency_shift == (nr43 >> 4u8) as u64,
            final(self).frequency_divider == noise_divider(nr43 & 7),
            final(self).short_mode == bit_of(nr43, 3),
            final(self).lfsr == old(self).lfsr,
            final(self).frequency_timer == old(self).frequency_timer,
    {
        let shift = nr43 >> 4;
        let divider_code = nr43 & 0x07;
        assert(shift <= 15 && divider_code <= 7) by (bit_vector)
            requires
                shift == nr43 >> 4u8,
                divider_code == nr43 & 7,
        ;
        self.frequency_shift = shift as u64;
        self.frequency_divider = if divider_code == 0 { 8 } else { (divider_code as u64) * 16 };
        self.short_mode = get_bit(nr43, 3);
    }

    /// Starts the generator: clears the register and restarts the timer.
    pub fn on_trigger_event(&mut self)
        requires
            old(self).wf(),
        ensures
            final(self).wf(),
            final(self).lfsr == 0,
            final(self).frequency_timer == old(self).period(),
            final(self).short_mode == old(self).short_mode,
            final(self).frequency_divider == old(self).frequency_divider,
            final(self).frequency_shift == old(self).frequency_shift,
    {
        self.reset_timer();
        self.lfsr = 0;
    }

    /// The time left until the next shift.
    pub fn get_frequency(&self) -> (r: u64)
        ensures
            r == self.frequency_timer,
    {
        self.frequency_timer
    }

    /// Lets `cycles` cycles pass.
    pub fn update(&mut self, cycles: u64)
        requires
            old(self).wf(),
        ensures
            final(self).wf(),
            (final(self).lfsr, final(self).frequency_timer) == noise_run(
                old(self).lfsr,
                old(self).short_mode,
                old(self).frequency_timer,
                old(self).period(),
                cycles as nat,
            ),
            final(self).short_mode == old(self).short_mode,
            final(self).frequency_divider == old(self).frequency_divider,
            final(self).frequency_shift == old(self).frequency_shift,
    {
        let mut done: u64 = 0;
        while done < cycles
            invariant
                done <= cycles,
                self.wf(),
                (self.lfsr, self.frequency_timer) == noise_run(
                    old(self).lfsr,
                    old(self).short_mode,
                    old(self).frequency_timer,
                    old(self).period(),
                    done as nat,
                ),
                self.short_mode == old(self).short_mode,
                self.frequency_divider == old(self).frequency_divider,
                self.frequency_shift == old(self).frequency_shift,
            decreases cycles - done,
        {
            if self.frequency_timer <= 1 {
                self.reset_timer();
                self.lfsr = next_lfsr(self.lfsr, self.short_mode);
            } else {
                self.frequency_timer = self.frequency_timer - 1;
            }
            done = done + 1;
        }
    }

    /// The generated signal: bit 0 of the register.
    pub fn get_sample(&self) -> (r: u8)
        ensures
            r == (self.lfsr & 1) as u8,
            r <= 1,
            (r == 1) == (self.lfsr & 1 == 1),
    {
        let l = self.lfsr;
        assert((l & 1u16) <= 1) by (bit_vector);
        (l & 0x01) as u8
    }
}

/// Two to the power `e`.
pub open spec fn pow2_u64(e: u64) -> int
    decreases e,
{
    if e == 0 { 1 } else { 2 * pow2_u64((e - 1) as u64) }
}

/// `value << shift`, for a divider and a shift of NR43.
fn shift_left(value: u64, shift: u64) -> (r: u64)
    requires
        8 <= value <= 112,
        shift <= 15,
    ensures
        r == value * pow2_u64(shift),
        r <= 112 * 32768,
{
    let mut r = value;
    let mut i: u64 = 0;
    while i < shift
        invariant
            i <= shift <= 15,
            8 <= value <= 112,
            r == value * pow2_u64(i),
            r <= 112 * pow2_u64(i),
            pow2_u64(i) <= 32768,
        decreases shift - i,
    {
        proof {
            assert(pow2_u64((i + 1) as u64) == 2 * pow2_u64(i));
            lemma_pow2_bound((i + 1) as u64);
        }
        r = r * 2;
        i = i + 1;
        proof {
            assert(r == value * pow2_u64(i)) by (nonlinear_arith)
                requires
                    r == 2 * (value * pow2_u64((i - 1) as u64)),
                    pow2_u64(i) == 2 * pow2_u64((i - 1) as u64),
            ;
        }
    }
    r
}

proof fn lemma_pow2_mono(a: u64, b: u64)
    requires
        a <= b,
    ensures
        1 <= pow2_u64(a) <= pow2_u64(b),
    decreases b,
{
    if b > a {
        lemma_pow2_mono(a, (b - 1) as u64);
    } else if a > 0 {
        lemma_pow2_mono((a - 1) as u64, (a - 1) as u64);
    }
}

proof fn lemma_pow2_bound(e: u64)
    requires
        e <= 15,
    ensures
        pow2_u64(e) <= 32768,
        pow2_u64(e) >= 1,
{
    lemma_pow2_mono(e, 15);
    reveal_with_fuel(pow2_u64, 16);
    assert(pow2_u64(15) == 32768);
}

/// One shift of the noise register.
fn next_lfsr(lfsr: u16, short: bool) -> (r: u16)
    ensures
        r == lfsr_step(lfsr, short),
{
    let b: u16 = (lfsr ^ (lfsr >> 1) ^ 1) & 1;
    let shifted: u16 = ((lfsr >> 1) & 0x3fff) | (b << 14);
    if short {
        (shifted & !(1u16 << 6)) | (b << 6)
    } else {
        shifted
    }
}

} // verus!
