//! The mathematical model of the machine: its state as sequences, and what
//! one read of memory and one instruction do to that state.

use vstd::prelude::*;
use crate::vm::codec::{bit, imm5_of, offset11_of, offset6_of, offset9_of, reg_of};

verus! {

/// Keyboard status register: bit 15 is set while a key is ready.
pub const MR_KBSR: u16 = 0xFE00;

/// Keyboard data register: the last key read.
pub const MR_KBDR: u16 = 0xFE02;

/// Words of memory: the whole sixteen-bit address space.
pub const MEMORY_SIZE: usize = 65536;

/// Slots of the register file: R0 to R7, the program counter, the flags.
pub const REGISTER_COUNT: usize = 10;

/// Register file slot of the program counter.
pub const PC: usize = 8;

/// Register file slot of the condition flags.
pub const COND: usize = 9;

/// Register through which subroutine calls and traps save the return address.
pub const R7: usize = 7;

/// Condition flag: the last result was positive.
pub const FL_POS: u16 = 1;

/// Condition flag: the last result was zero.
pub const FL_ZRO: u16 = 2;

/// Condition flag: the last result was negative (bit 15 set).
pub const FL_NEG: u16 = 4;

/// Address at which programs start.
pub const PC_START: u16 = 0x3000;

/// Longest string, in words, that the string traps print.
pub const MAX_STRING: usize = 65536;

/// The state of the machine as mathematics: memory, the register file, and
/// the key that the keyboard holds for the next poll of the status register.
pub struct Machine {
    pub mem: Seq<u16>,
    pub regs: Seq<u16>,
    pub key: Option<u16>,
}

/// The flag that describes `v`: negative when bit 15 is set, zero when `v`
/// is zero, positive otherwise.
pub open spec fn flag_of(v: u16) -> u16 {
    if v >> 15u16 == 1 {
        FL_NEG
    } else if v == 0 {
        FL_ZRO
    } else {
        FL_POS
    }
}

pub open spec fn valid_flag(f: u16) -> bool {
    f == FL_POS || f == FL_ZRO || f == FL_NEG
}

/// Sum modulo `2^16`.
pub open spec fn wrap_add(a: u16, b: u16) -> u16 {
    ((a as int + b as int) % 65536) as u16
}

pub open spec fn well_formed(m: Machine) -> bool {
    &&& m.mem.len() == MEMORY_SIZE
    &&& m.regs.len() == REGISTER_COUNT
    &&& valid_flag(m.regs[COND as int])
}

/// Memory after a read of `a`: a read of the status register polls the
/// keyboard; with a key waiting it sets bit 15 of the status register and
/// moves the key into the data register, otherwise it clears the status
/// register. No other address has a side effect.
pub open spec fn read_state(m: Machine, a: u16) -> Machine {
    if a == MR_KBSR {
        match m.key {
            Some(c) => Machine {
                mem: m.mem.update(MR_KBSR as int, 0x8000).update(MR_KBDR as int, c),
                key: None,
                ..m
            },
            None => Machine { mem: m.mem.update(MR_KBSR as int, 0), ..m },
        }
    } else {
        m
    }
}

/// The word that a read of `a` returns.
pub open spec fn read_value(m: Machine, a: u16) -> u16 {
    read_state(m, a).mem[a as int]
}

pub open spec fn write_mem(m: Machine, a: u16, v: u16) -> Machine {
    Machine { mem: m.mem.update(a as int, v), ..m }
}

pub open spec fn set_reg(m: Machine, r: int, v: u16) -> Machine {
    Machine { regs: m.regs.update(r, v), ..m }
}

/// Writes `v` to register `r` and sets the flags from it.
pub open spec fn set_result(m: Machine, r: int, v: u16) -> Machine {
    Machine { regs: m.regs.update(r, v).update(COND as int, flag_of(v)), ..m }
}

pub open spec fn reg(m: Machine, r: u16) -> u16 {
    m.regs[r as int]
}

pub open spec fn pc(m: Machine) -> u16 {
    m.regs[PC as int]
}

/// `PC + offset9`, the address that LD, LDI, LEA, ST and STI work on.
pub open spec fn pc_relative(m: Machine, i: u16) -> u16 {
    wrap_add(pc(m), offset9_of(i))
}

/// `base + offset6`, the address that LDR and STR work on.
pub open spec fn base_relative(m: Machine, i: u16) -> u16 {
    wrap_add(reg(m, reg_of(i, 6)), offset6_of(i))
}

pub open spec fn add_value(m: Machine, i: u16) -> u16 {
    if bit(i, 5) {
        wrap_add(reg(m, reg_of(i, 6)), imm5_of(i))
    } else {
        wrap_add(reg(m, reg_of(i, 6)), reg(m, reg_of(i, 0)))
    }
}

pub open spec fn and_value(m: Machine, i: u16) -> u16 {
    if bit(i, 5) {
        reg(m, reg_of(i, 6)) & imm5_of(i)
    } else {
        reg(m, reg_of(i, 6)) & reg(m, reg_of(i, 0))
    }
}

pub open spec fn exec_add(m: Machine, i: u16) -> Machine {
    set_result(m, reg_of(i, 9) as int, add_value(m, i))
}

pub open spec fn exec_and(m: Machine, i: u16) -> Machine {
    set_result(m, reg_of(i, 9) as int, and_value(m, i))
}

pub open spec fn exec_not(m: Machine, i: u16) -> Machine {
    set_result(m, reg_of(i, 9) as int, !reg(m, reg_of(i, 6)))
}

/// BR branches when one of its n, z, p bits (11, 10, 9) names the current flag.
pub open spec fn branch_taken(m: Machine, i: u16) -> bool {
    ((i >> 9u16) & 7) & m.regs[COND as int] != 0
}

pub open spec fn exec_branch(m: Machine, i: u16) -> Machine {
    if branch_taken(m, i) {
        set_reg(m, PC as int, pc_relative(m, i))
    } else {
        m
    }
}

pub open spec fn exec_jump(m: Machine, i: u16) -> Machine {
    set_reg(m, PC as int, reg(m, reg_of(i, 6)))
}

/// JSR and JSRR: R7 takes the program counter, then the program counter
/// moves by offset11 (bit 11 set) or takes the base register.
pub open spec fn exec_jsr(m: Machine, i: u16) -> Machine {
    let saved = set_reg(m, R7 as int, pc(m));
    if bit(i, 11) {
        set_reg(saved, PC as int, wrap_add(pc(m), offset11_of(i)))
    } else {
        set_reg(saved, PC as int, reg(saved, reg_of(i, 6)))
    }
}

pub open spec fn exec_load(m: Machine, i: u16) -> Machine {
    let a = pc_relative(m, i);
    set_result(read_state(m, a), reg_of(i, 9) as int, read_value(m, a))
}

pub open spec fn exec_ldi(m: Machine, i: u16) -> Machine {
    let a = pc_relative(m, i);
    let m1 = read_state(m, a);
    let p = read_value(m, a);
    set_result(read_state(m1, p), reg_of(i, 9) as int, read_value(m1, p))
}

pub open spec fn exec_load_register(m: Machine, i: u16) -> Machine {
    let a = base_relative(m, i);
    set_result(read_state(m, a), reg_of(i, 9) as int, read_value(m, a))
}

pub open spec fn exec_lea(m: Machine, i: u16) -> Machine {
    set_result(m, reg_of(i, 9) as int, pc_relative(m, i))
}

pub open spec fn exec_store(m: Machine, i: u16) -> Machine {
    write_mem(m, pc_relative(m, i), reg(m, reg_of(i, 9)))
}

pub open spec fn exec_store_indirect(m: Machine, i: u16) -> Machine {
    let a = pc_relative(m, i);
    let m1 = read_state(m, a);
    write_mem(m1, read_value(m, a), reg(m1, reg_of(i, 9)))
}

pub open spec fn exec_store_register(m: Machine, i: u16) -> Machine {
    write_mem(m, base_relative(m, i), reg(m, reg_of(i, 9)))
}

} // verus!
