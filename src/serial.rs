use vstd::prelude::*;

use crate::memory::{Memory, Interrupt, MEMORY_LOCATION_SB, MEMORY_LOCATION_SC, MEMORY_LOCATION_INTERRUPTS_FLAGGED};
use crate::utils::{bit_of, get_bit, change_bit};

verus! {

/// The number of cycles one byte takes to shift out.
pub const UPDATE_TIME_SERIAL_TRANSFER: u64 = 4096;

/// Whether SC starts a transfer on the internal clock (bits 7 and 0 set).
pub open spec fn transfer_armed(sc: u8) -> bool {
    bit_of(sc, 7) && bit_of(sc, 0)
}

/// The serial port: sends the byte in SB when SC asks for it, requests the
/// serial interrupt when done, and keeps the sent bytes in an output queue
/// when that queue is enabled (it is off by default).
#[derive(Clone)]
pub struct SerialPort {
    clock: u64,
    output_queue: Vec<u8>,
    output_queue_enabled: bool,
}

impl View for SerialPort {
    type V = Seq<u8>;

    /// The bytes in the output queue, oldest first.
    closed spec fn view(&self) -> Seq<u8> {
        self.output_queue@
    }
}

/// The text whose characters are the bytes of `bytes`, one for one.
pub open spec fn bytes_as_text(bytes: Seq<u8>) -> Seq<char> {
    bytes.map_values(|b: u8| b as char)
}

impl SerialPort {
    pub closed spec fn wf(&self) -> bool {
        self.clock < UPDATE_TIME_SERIAL_TRANSFER
    }

    /// Whether the output queue records sent bytes.
    pub closed spec fn queue_enabled(&self) -> bool {
        self.output_queue_enabled
    }

    /// Cycles since the last transfer slot.
    pub closed spec fn clock_spec(&self) -> u64 {
        self.clock
    }

    /// Constructs a serial port with an empty, disabled output queue.
    pub fn new() -> (r: SerialPort)
        ensures
            r.wf(),
            r@ == Seq::<u8>::empty(),
            !r.queue_enabled(),
            r.clock_spec() == 0,
    {
        SerialPort { clock: 0, output_queue: Vec::new(), output_queue_enabled: false }
    }

    /// Lets `cycles` cycles pass. When a transfer slot of 4096 cycles ends
    /// while SC is armed, the byte in SB is sent: it joins the queue if the
    /// queue is enabled, SC's bit 7 is cleared and the serial interrupt requested.
    pub fn update(&mut self, mem: &mut Memory, cycles: u64)
        requires
            old(self).wf(),
            old(mem).wf(),
            cycles <= 0xffff_ffff,
        ensures
            final(self).wf(),
            final(mem).wf(),
            final(mem).same_extras(old(mem)),
            final(self).queue_enabled() == old(self).queue_enabled(),
            final(self).clock_spec() == (old(self).clock_spec() + cycles) % 4096,
            ({
                let sc = old(mem)@[MEMORY_LOCATION_SC as int];
                let sent = old(self).clock_spec() + cycles >= 4096 && transfer_armed(sc);
                &&& sent && old(self).queue_enabled() ==> final(self)@ == old(self)@.push(old(mem)@[MEMORY_LOCATION_SB as int])
                &&& !(sent && old(self).queue_enabled()) ==> final(self)@ == old(self)@
                &&& sent ==> final(mem)@ == old(mem)@.update(MEMORY_LOCATION_SC as int, sc & !(1u8 << 7u8)).update(
                    MEMORY_LOCATION_INTERRUPTS_FLAGGED as int,
                    old(mem)@[MEMORY_LOCATION_INTERRUPTS_FLAGGED as int] | (1u8 << 3u8))
                &&& !sent ==> final(mem)@ == old(mem)@
            }),
    {
        let total = self.clock + cycles;
        let sc = mem.get(MEMORY_LOCATION_SC);
        if total >= UPDATE_TIME_SERIAL_TRANSFER && get_bit(sc, 7) && get_bit(sc, 0) {
            let transfer_byte = mem.get(MEMORY_LOCATION_SB);
            if self.output_queue_enabled {
                self.output_queue.push(transfer_byte);
            }
            mem.set(MEMORY_LOCATION_SC, change_bit(sc, 7, false));
            mem.request_interrupt(Interrupt::Serial);
        }
        self.clock = total % UPDATE_TIME_SERIAL_TRANSFER;
    }

    /// Enables or disables the output queue.
    pub fn enable_output_queue(&mut self, enabled: bool)
        ensures
            final(self).queue_enabled() == enabled,
            final(self)@ == old(self)@,
            final(self).wf() == old(self).wf(),
            final(self).clock_spec() == old(self).clock_spec(),
    {
        self.output_queue_enabled = enabled;
    }

    /// Takes the bytes in the output queue, leaving it empty.
    pub fn take_output(&mut self) -> (r: Vec<u8>)
        ensures
            r@ == old(self)@,
            final(self)@ == Seq::<u8>::empty(),
            final(self).queue_enabled() == old(self).queue_enabled(),
            final(self).wf() == old(self).wf(),
            final(self).clock_spec() == old(self).clock_spec(),
    {
        let result = self.output_queue.clone();
        self.output_queue = Vec::new();
        result
    }

    /// Takes the bytes in the output queue as text, one character per byte,
    /// leaving the queue empty.
    pub fn take_output_as_text(&mut self) -> (r: String)
        ensures
            r@ == bytes_as_text(old(self)@),
            final(self)@ == Seq::<u8>::empty(),
            final(self).queue_enabled() == old(self).queue_enabled(),
            final(self).wf() == old(self).wf(),
            final(self).clock_spec() == old(self).clock_spec(),
    {
        let bytes = self.take_output();
        let mut text = String::new();
        let mut i: usize = 0;
        while i < bytes.len()
            invariant
                i <= bytes@.len(),
                text@ == bytes_as_text(bytes@.take(i as int)),
            decreases bytes@.len() - i,
        {
            push_char(&mut text, bytes[i] as char);
            proof {
                assert(bytes@.take(i + 1) =~= bytes@.take(i as int).push(bytes@[i as int]));
                assert(bytes_as_text(bytes@.take(i + 1)) =~= bytes_as_text(bytes@.take(i as int)).push(bytes@[i as int] as char));
            }
            i = i + 1;
        }
        assert(bytes@.take(bytes@.len() as int) =~= bytes@);
        text
    }

    /// Takes the oldest byte from the output queue.
    pub fn take_next(&mut self) -> (r: Option<u8>)
        ensures
            old(self)@.len() == 0 ==> r.is_none() && final(self)@ == old(self)@,
            old(self)@.len() > 0 ==> r == Some(old(self)@[0]) && final(self)@ == old(self)@.subrange(1, old(self)@.len() as int),
            final(self).queue_enabled() == old(self).queue_enabled(),
            final(self).wf() == old(self).wf(),
            final(self).clock_spec() == old(self).clock_spec(),
    {
        if self.output_queue.len() > 0 {
            let next_byte = self.output_queue.remove(0);
            Some(next_byte)
        } else {
            None
        }
    }
}

/// Relies on String::push: appends one character to the end of the string.
#[verifier::external_body]
fn push_char(s: &mut String, c: char)
    ensures
        final(s)@ == old(s)@.push(c),
{
    s.push(c);
}

} // verus!
