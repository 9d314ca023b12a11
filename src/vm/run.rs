//! The virtual machine: its state, the memory with the keyboard device, the
//! condition flags and one handler per opcode.

use vstd::prelude::*;
use crate::vm::codec::{imm5, offset11, offset6, offset9, reg};
use crate::vm::machine::{
    exec_add, exec_and, exec_branch, exec_jsr, exec_jump, exec_lea, exec_ldi, exec_load,
    exec_load_register, exec_not, exec_store, exec_store_indirect, exec_store_register, flag_of,
    read_state, read_value, set_result, well_formed, write_mem, Machine, COND,
    FL_NEG, FL_POS, FL_ZRO, MEMORY_SIZE, MR_KBDR, MR_KBSR, PC, PC_START, R7, REGISTER_COUNT,
};

pub use crate::vm::codec::sign_extend;

verus! {

/// Slots of the register file, in order: R0 to R7, the program counter, the
/// condition flags, and their count.
#[allow(non_camel_case_types)]
#[derive(Debug, Clone, Copy)]
pub enum Registers {
    R_R0,
    R_R1,
    R_R2,
    R_R3,
    R_R4,
    R_R5,
    R_R6,
    R_R7,
    R_PC,
    R_COND,
    R_COUNT,
}

/// A machine: all of memory, the register file (indexed as `Registers`), and
/// the key that the keyboard holds for the next poll of the status register.
#[derive(Debug, Clone)]
pub struct VM {
    pub memory: Vec<u16>,
    pub registers_storage: Vec<u16>,
    pub keyboard: Option<u16>,
}

impl View for VM {
    type V = Machine;

    open spec fn view(&self) -> Machine {
        Machine { mem: self.memory@, regs: self.registers_storage@, key: self.keyboard }
    }
}

impl VM {
    pub open spec fn wf(&self) -> bool {
        well_formed(self@)
    }

    /// A machine with memory and registers cleared, the program counter at
    /// the entry point, the flags at zero, and no key waiting.
    pub fn new() -> (r: Self)
        ensures
            r.wf(),
            r@.mem == Seq::new(MEMORY_SIZE as nat, |a: int| 0u16),
            r@.regs == Seq::new(REGISTER_COUNT as nat, |k: int| 0u16).update(PC as int, PC_START)
                .update(COND as int, FL_ZRO),
            r@.key == None::<u16>,
    {
        let memory = vec![0u16; MEMORY_SIZE];
        let mut registers_storage = vec![0u16; REGISTER_COUNT];
        registers_storage[PC] = PC_START;
        registers_storage[COND] = FL_ZRO;
        let r = VM { memory, registers_storage, keyboard: None };
        assert(r@.mem =~= Seq::new(MEMORY_SIZE as nat, |a: int| 0u16));
        assert(r@.regs =~= Seq::new(REGISTER_COUNT as nat, |k: int| 0u16).update(
            PC as int,
            PC_START,
        ).update(COND as int, FL_ZRO));
        r
    }

    /// Exchanges the two bytes of a word.
    pub fn swap16(x: u16) -> (r: u16)
        ensures
            r == ((x & 0xFF) << 8u16) | (x >> 8u16),
    {
        assert(((x << 8u16) | (x >> 8u16)) == (((x & 0xFF) << 8u16) | (x >> 8u16)))
            by (bit_vector);
        x << 8 | x >> 8
    }

    /// Stores `val` at `address`; no address has a side effect on a write.
    pub fn mem_write(&mut self, address: u16, val: u16)
        requires
            old(self).wf(),
        ensures
            final(self).wf(),
            final(self)@ == write_mem(old(self)@, address, val),
    {
        self.memory[address as usize] = val;
    }

    /// Reads the word at `address`. A read of the status register first polls
    /// the keyboard: a waiting key is consumed into the data register and sets
    /// bit 15 of the status register; with none the status register is cleared.
    pub fn memory_read(&mut self, address: u16) -> (r: u16)
        requires
            old(self).wf(),
        ensures
            final(self).wf(),
            final(self)@ == read_state(old(self)@, address),
            r == read_value(old(self)@, address),
    {
        if address == MR_KBSR {
            match self.keyboard {
                Some(c) => {
                    self.memory[MR_KBSR as usize] = 0x8000;
                    self.memory[MR_KBDR as usize] = c;
                    self.keyboard = None;
                },
                None => {
                    self.memory[MR_KBSR as usize] = 0;
                },
            }
        }
        self.memory[address as usize]
    }

    /// Sets the flags from the value of register `r` and returns them.
    pub fn update_flags(&mut self, r: u16) -> (flag: u16)
        requires
            old(self).wf(),
            r < 8,
        ensures
            final(self).wf(),
            flag == flag_of(old(self)@.regs[r as int]),
            final(self)@ == set_result(old(self)@, r as int, old(self)@.regs[r as int]),
    {
        let v = self.registers_storage[r as usize];
        let flag = if v >> 15 == 1 {
            FL_NEG
        } else if v == 0 {
            FL_ZRO
        } else {
            FL_POS
        };
        self.registers_storage[COND] = flag;
        assert(self@.regs =~= old(self)@.regs.update(r as int, v).update(COND as int, flag));
        flag
    }

    /// Writes `v` to register `r` and sets the flags from it.
    fn set_register(&mut self, r: u16, v: u16)
        requires
            old(self).wf(),
            r < 8,
        ensures
            final(self).wf(),
            final(self)@ == set_result(old(self)@, r as int, v),
    {
        self.registers_storage[r as usize] = v;
        self.update_flags(r);
        assert(self@.regs =~= set_result(old(self)@, r as int, v).regs);
    }
}

/// Sum modulo `2^16`.
fn wrapping(a: u16, b: u16) -> (r: u16)
    ensures
        r == crate::vm::machine::wrap_add(a, b),
{
    ((a as u32 + b as u32) % 65536) as u16
}

impl VM {
    /// ADD: `DR = SR1 + SR2`, or `DR = SR1 + imm5` when bit 5 is set, modulo
    /// `2^16`; the flags follow DR.
    pub fn add(&mut self, instruction: u16)
        requires
            old(self).wf(),
        ensures
            final(self).wf(),
            final(self)@ == exec_add(old(self)@, instruction),
    {
        let r0 = reg(instruction, 9);
        let r1 = reg(instruction, 6);
        let v = if (instruction >> 5) & 0x1 == 1 {
            wrapping(self.registers_storage[r1 as usize], imm5(instruction))
        } else {
            let r2 = reg(instruction, 0);
            wrapping(self.registers_storage[r1 as usize], self.registers_storage[r2 as usize])
        };
        self.set_register(r0, v);
    }

    /// AND: `DR = SR1 & SR2`, or `DR = SR1 & imm5` when bit 5 is set; the
    /// flags follow DR.
    pub fn and(&mut self, instruction: u16)
        requires
            old(self).wf(),
        ensures
            final(self).wf(),
            final(self)@ == exec_and(old(self)@, instruction),
    {
        let dr = reg(instruction, 9);
        let r1 = reg(instruction, 6);
        let v = if (instruction >> 5) & 0x1 == 1 {
            self.registers_storage[r1 as usize] & imm5(instruction)
        } else {
            let r2 = reg(instruction, 0);
            self.registers_storage[r1 as usize] & self.registers_storage[r2 as usize]
        };
        self.set_register(dr, v);
    }

    /// NOT: `DR = !SR1`; the flags follow DR.
    pub fn not(&mut self, instruction: u16)
        requires
            old(self).wf(),
        ensures
            final(self).wf(),
            final(self)@ == exec_not(old(self)@, instruction),
    {
        let dr = reg(instruction, 9);
        let r1 = reg(instruction, 6);
        let v = !self.registers_storage[r1 as usize];
        self.set_register(dr, v);
    }

    /// JMP: the program counter takes the base register.
    pub fn jump(&mut self, instruction: u16)
        requires
            old(self).wf(),
        ensures
            final(self).wf(),
            final(self)@ == exec_jump(old(self)@, instruction),
    {
        let r1 = reg(instruction, 6);
        self.registers_storage[PC] = self.registers_storage[r1 as usize];
    }

    /// JSR / JSRR: R7 takes the program counter; then the program counter
    /// moves by offset11 when bit 11 is set, else takes the base register.
    pub fn jump_register(&mut self, instruction: u16)
        requires
            old(self).wf(),
        ensures
            final(self).wf(),
            final(self)@ == exec_jsr(old(self)@, instruction),
    {
        let long_flag = (instruction >> 11) & 0x1;
        self.registers_storage[R7] = self.registers_storage[PC];
        if long_flag == 1 {
            let pc_offset = offset11(instruction);
            self.registers_storage[PC] = wrapping(self.registers_storage[PC], pc_offset);
        } else {
            let r1 = reg(instruction, 6);
            self.registers_storage[PC] = self.registers_storage[r1 as usize];
        }
    }

    /// BR: moves the program counter by offset9 when one of the n, z, p bits
    /// of the instruction names the current flag; otherwise nothing changes.
    pub fn branch(&mut self, instruction: u16)
        requires
            old(self).wf(),
        ensures
            final(self).wf(),
            final(self)@ == exec_branch(old(self)@, instruction),
    {
        let nzp = (instruction >> 9) & 0x7;
        if nzp & self.registers_storage[COND] != 0 {
            let pc_offset = offset9(instruction);
            self.registers_storage[PC] = wrapping(self.registers_storage[PC], pc_offset);
        }
    }

    /// LDI: `DR = mem[mem[PC + offset9]]`; the flags follow DR.
    pub fn ldi(&mut self, instruction: u16)
        requires
            old(self).wf(),
        ensures
            final(self).wf(),
            final(self)@ == exec_ldi(old(self)@, instruction),
    {
        let dr = reg(instruction, 9);
        let pc_offset = offset9(instruction);
        let address = self.memory_read(wrapping(self.registers_storage[PC], pc_offset));
        let v = self.memory_read(address);
        self.set_register(dr, v);
    }

    /// LD: `DR = mem[PC + offset9]`; the flags follow DR.
    pub fn load(&mut self, instruction: u16)
        requires
            old(self).wf(),
        ensures
            final(self).wf(),
            final(self)@ == exec_load(old(self)@, instruction),
    {
        let dr = reg(instruction, 9);
        let pc_offset = offset9(instruction);
        let v = self.memory_read(wrapping(self.registers_storage[PC], pc_offset));
        self.set_register(dr, v);
    }

    /// LDR: `DR = mem[base + offset6]`; the flags follow DR.
    pub fn load_register(&mut self, instruction: u16)
        requires
            old(self).wf(),
        ensures
            final(self).wf(),
            final(self)@ == exec_load_register(old(self)@, instruction),
    {
        let dr = reg(instruction, 9);
        let r1 = reg(instruction, 6);
        let offset = offset6(instruction);
        let v = self.memory_read(wrapping(self.registers_storage[r1 as usize], offset));
        self.set_register(dr, v);
    }

    /// LEA: `DR = PC + offset9`; the flags follow DR.
    pub fn lea(&mut self, instruction: u16)
        requires
            old(self).wf(),
        ensures
            final(self).wf(),
            final(self)@ == exec_lea(old(self)@, instruction),
    {
        let dr = reg(instruction, 9);
        let pc_offset = offset9(instruction);
        let v = wrapping(self.registers_storage[PC], pc_offset);
        self.set_register(dr, v);
    }

    /// ST: `mem[PC + offset9] = SR`.
    pub fn store(&mut self, instruction: u16)
        requires
            old(self).wf(),
        ensures
            final(self).wf(),
            final(self)@ == exec_store(old(self)@, instruction),
    {
        let sr = reg(instruction, 9);
        let pc_offset = offset9(instruction);
        let address = wrapping(self.registers_storage[PC], pc_offset);
        let v = self.registers_storage[sr as usize];
        self.mem_write(address, v);
    }

    /// STI: `mem[mem[PC + offset9]] = SR`.
    pub fn store_indirect(&mut self, instruction: u16)
        requires
            old(self).wf(),
        ensures
            final(self).wf(),
            final(self)@ == exec_store_indirect(old(self)@, instruction),
    {
        let sr = reg(instruction, 9);
        let pc_offset = offset9(instruction);
        let address = self.memory_read(wrapping(self.registers_storage[PC], pc_offset));
        let v = self.registers_storage[sr as usize];
        self.mem_write(address, v);
    }

    /// STR: `mem[base + offset6] = SR`.
    pub fn store_register(&mut self, instruction: u16)
        requires
            old(self).wf(),
        ensures
            final(self).wf(),
            final(self)@ == exec_store_register(old(self)@, instruction),
    {
        let sr = reg(instruction, 9);
        let r1 = reg(instruction, 6);
        let offset = offset6(instruction);
        let address = wrapping(self.registers_storage[r1 as usize], offset);
        let v = self.registers_storage[sr as usize];
        self.mem_write(address, v);
    }
}

} // verus!
