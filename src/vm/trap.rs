//! The trap routines: keyboard input into R0, and character output.

use vstd::prelude::*;
use crate::vm::machine::{
    reg, set_result, wrap_add, read_state, read_value, Machine, MAX_STRING,
};
use crate::vm::run::VM;

verus! {

/// The six trap vectors, named by the low byte of a TRAP instruction:
/// 0x20 to 0x25 in the order below.
#[allow(non_camel_case_types)]
#[derive(Debug, Clone, Copy, PartialEq, Eq, Structural)]
pub enum OP_TRAP {
    TRAP_GETC,
    TRAP_OUT,
    TRAP_PUTS,
    TRAP_IN,
    TRAP_PUTSP,
    TRAP_HALT,
}

pub open spec fn trap_of(val: u16) -> Option<OP_TRAP> {
    if val == 0x20 {
        Some(OP_TRAP::TRAP_GETC)
    } else if val == 0x21 {
        Some(OP_TRAP::TRAP_OUT)
    } else if val == 0x22 {
        Some(OP_TRAP::TRAP_PUTS)
    } else if val == 0x23 {
        Some(OP_TRAP::TRAP_IN)
    } else if val == 0x24 {
        Some(OP_TRAP::TRAP_PUTSP)
    } else if val == 0x25 {
        Some(OP_TRAP::TRAP_HALT)
    } else {
        None
    }
}

impl OP_TRAP {
    /// The trap vector numbered `val`, if there is one.
    pub fn from_u16(val: u16) -> (r: Option<Self>)
        ensures
            r == trap_of(val),
    {
        match val {
            0x20 => Some(OP_TRAP::TRAP_GETC),
            0x21 => Some(OP_TRAP::TRAP_OUT),
            0x22 => Some(OP_TRAP::TRAP_PUTS),
            0x23 => Some(OP_TRAP::TRAP_IN),
            0x24 => Some(OP_TRAP::TRAP_PUTSP),
            0x25 => Some(OP_TRAP::TRAP_HALT),
            _ => None,
        }
    }
}

pub open spec fn low_byte(w: u16) -> u8 {
    (w & 0xFF) as u8
}

pub open spec fn high_byte(w: u16) -> u8 {
    (w >> 8u16) as u8
}

/// The characters of one string word: its low byte; when `packed`, also its
/// high byte unless that is zero.
pub open spec fn word_chars(w: u16, packed: bool) -> Seq<u8> {
    if packed && high_byte(w) != 0 {
        seq![low_byte(w), high_byte(w)]
    } else {
        seq![low_byte(w)]
    }
}

/// Printing the string at `a`: reads successive words, each through the
/// memory's read, up to the first zero word and at most `fuel` of them.
/// Gives the machine after those reads and the characters printed.
pub open spec fn string_output(m: Machine, a: u16, fuel: nat, packed: bool) -> (Machine, Seq<u8>)
    decreases fuel,
{
    if fuel == 0 {
        (m, Seq::empty())
    } else {
        let w = read_value(m, a);
        let m1 = read_state(m, a);
        if w == 0 {
            (m1, Seq::empty())
        } else {
            let rest = string_output(m1, wrap_add(a, 1), (fuel - 1) as nat, packed);
            (rest.0, word_chars(w, packed) + rest.1)
        }
    }
}

/// What GETC leaves: R0 takes `input` when given, else the key waiting at
/// the keyboard (which is consumed), else keeps its value; the flags follow R0.
pub open spec fn getc_state(m: Machine, input: Option<u16>) -> Machine {
    match input {
        Some(v) => set_result(m, 0, v),
        None => match m.key {
            Some(c) => set_result(Machine { key: None, ..m }, 0, c),
            None => set_result(m, 0, reg(m, 0)),
        },
    }
}

impl VM {
    /// GETC and IN: R0 takes `input` when given, else the key waiting at the
    /// keyboard, which is consumed; with neither it keeps its value. The flags
    /// follow R0.
    pub fn trap_getc(&mut self, input: Option<u16>)
        requires
            old(self).wf(),
        ensures
            final(self).wf(),
            final(self)@ == getc_state(old(self)@, input),
    {
        if let Some(value) = input {
            self.registers_storage[0] = value;
        } else if let Some(c) = self.keyboard {
            self.registers_storage[0] = c;
            self.keyboard = None;
        }
        self.update_flags(0);
        proof {
            let m = old(self)@;
            assert(self@.regs =~= getc_state(m, input).regs);
        }
    }

    /// OUT: the byte to print, the low byte of R0.
    pub fn trap_out(&self) -> (c: u8)
        requires
            self.wf(),
        ensures
            c == low_byte(reg(self@, 0)),
    {
        (self.registers_storage[0] & 0xFF) as u8
    }

    /// The characters of the string at R0 (see `string_output`).
    fn print_string(&mut self, packed: bool) -> (out: Vec<u8>)
        requires
            old(self).wf(),
        ensures
            final(self).wf(),
            (final(self)@, out@) == string_output(
                old(self)@,
                reg(old(self)@, 0),
                MAX_STRING as nat,
                packed,
            ),
    {
        let ghost start = old(self)@;
        let ghost whole = string_output(start, reg(start, 0), MAX_STRING as nat, packed);
        let mut address = self.registers_storage[0];
        let mut out: Vec<u8> = Vec::new();
        let mut n: usize = 0;
        loop
            invariant_except_break
                string_output(self@, address, (MAX_STRING - n) as nat, packed).0 == whole.0,
                out@ + string_output(self@, address, (MAX_STRING - n) as nat, packed).1
                    == whole.1,
            invariant
                self.wf(),
                n <= MAX_STRING,
            ensures
                self.wf(),
                self@ == whole.0,
                out@ == whole.1,
            decreases MAX_STRING - n,
        {
            if n >= MAX_STRING {
                break;
            }
            let ghost before = self@;
            let ghost fuel = (MAX_STRING - n) as nat;
            let w = self.memory_read(address);
            if w == 0 {
                break;
            }
            let ghost rest = string_output(self@, wrap_add(address, 1), (fuel - 1) as nat, packed);
            assert(string_output(before, address, fuel, packed).1 == word_chars(w, packed)
                + rest.1);
            let ghost old_out = out@;
            assert(w & 0xFF < 256 && w >> 8u16 < 256) by (bit_vector);
            out.push((w & 0xFF) as u8);
            if packed && (w >> 8) != 0 {
                out.push((w >> 8) as u8);
            }
            assert(out@ =~= old_out + word_chars(w, packed));
            assert(old_out + (word_chars(w, packed) + rest.1) =~= (old_out + word_chars(w, packed))
                + rest.1);
            address = ((address as u32 + 1) % 65536) as u16;
            n = n + 1;
        }
        out
    }

    /// PUTS: the characters of the string at R0, one per word (its low byte),
    /// up to the first zero word; the words are read through the memory's read.
    pub fn trap_puts(&mut self) -> (out: Vec<u8>)
        requires
            old(self).wf(),
        ensures
            final(self).wf(),
            (final(self)@, out@) == string_output(
                old(self)@,
                reg(old(self)@, 0),
                MAX_STRING as nat,
                false,
            ),
    {
        self.print_string(false)
    }

    /// PUTSP: the characters of the string at R0, two per word (low byte,
    /// then the high byte unless zero), up to the first zero word.
    pub fn trap_putsp(&mut self) -> (out: Vec<u8>)
        requires
            old(self).wf(),
        ensures
            final(self).wf(),
            (final(self)@, out@) == string_output(
                old(self)@,
                reg(old(self)@, 0),
                MAX_STRING as nat,
                true,
            ),
    {
        self.print_string(true)
    }
}

} // verus!
