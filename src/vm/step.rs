//! One step of the execution loop: fetch, decode, execute. What the step
//! needs from the world outside (printing, a blocking read of a key) it hands
//! back as an `Action`; the caller performs it and goes on stepping.

use vstd::prelude::*;
use crate::vm::codec::opcode;
use crate::vm::machine::{
    exec_add, exec_and, exec_branch, exec_jsr, exec_jump, exec_lea, exec_ldi, exec_load,
    exec_load_register, exec_not, exec_store, exec_store_indirect, exec_store_register, pc,
    read_state, read_value, reg, set_reg, wrap_add, Machine, MAX_STRING, PC, R7,
};
use crate::vm::run::VM;
use crate::vm::trap::{getc_state, low_byte, string_output, trap_of, OP_TRAP};

verus! {

/// The sixteen opcodes, numbered 0 to 15 in the order below.
#[allow(non_camel_case_types)]
#[derive(Debug, Clone, Copy, PartialEq, Eq, Structural)]
pub enum Opcodes {
    OP_BR,
    OP_ADD,
    OP_LD,
    OP_ST,
    OP_JSR,
    OP_AND,
    OP_LDR,
    OP_STR,
    OP_RTI,
    OP_NOT,
    OP_LDI,
    OP_STI,
    OP_JMP,
    OP_RES,
    OP_LEA,
    OP_TRAP,
}

pub open spec fn opcode_of(value: u16) -> Option<Opcodes> {
    if value == 0 {
        Some(Opcodes::OP_BR)
    } else if value == 1 {
        Some(Opcodes::OP_ADD)
    } else if value == 2 {
        Some(Opcodes::OP_LD)
    } else if value == 3 {
        Some(Opcodes::OP_ST)
    } else if value == 4 {
        Some(Opcodes::OP_JSR)
    } else if value == 5 {
        Some(Opcodes::OP_AND)
    } else if value == 6 {
        Some(Opcodes::OP_LDR)
    } else if value == 7 {
        Some(Opcodes::OP_STR)
    } else if value == 8 {
        Some(Opcodes::OP_RTI)
    } else if value == 9 {
        Some(Opcodes::OP_NOT)
    } else if value == 10 {
        Some(Opcodes::OP_LDI)
    } else if value == 11 {
        Some(Opcodes::OP_STI)
    } else if value == 12 {
        Some(Opcodes::OP_JMP)
    } else if value == 13 {
        Some(Opcodes::OP_RES)
    } else if value == 14 {
        Some(Opcodes::OP_LEA)
    } else if value == 15 {
        Some(Opcodes::OP_TRAP)
    } else {
        None
    }
}

impl Opcodes {
    /// The opcode numbered `value`, if there is one.
    pub fn from_u16(value: u16) -> (r: Option<Self>)
        ensures
            r == opcode_of(value),
    {
        match value {
            0 => Some(Opcodes::OP_BR),
            1 => Some(Opcodes::OP_ADD),
            2 => Some(Opcodes::OP_LD),
            3 => Some(Opcodes::OP_ST),
            4 => Some(Opcodes::OP_JSR),
            5 => Some(Opcodes::OP_AND),
            6 => Some(Opcodes::OP_LDR),
            7 => Some(Opcodes::OP_STR),
            8 => Some(Opcodes::OP_RTI),
            9 => Some(Opcodes::OP_NOT),
            10 => Some(Opcodes::OP_LDI),
            11 => Some(Opcodes::OP_STI),
            12 => Some(Opcodes::OP_JMP),
            13 => Some(Opcodes::OP_RES),
            14 => Some(Opcodes::OP_LEA),
            15 => Some(Opcodes::OP_TRAP),
            _ => None,
        }
    }
}

/// What a step asks of the world outside.
#[derive(Debug)]
pub enum Action {
    /// Nothing: the machine runs on.
    Continue,
    /// Print these bytes, then run on.
    Output(Vec<u8>),
    /// GETC (`echo` false) or IN (`echo` true) found no key waiting: read one
    /// byte, blocking (IN: after a prompt, and echo it), and hand it to
    /// `trap_getc`.
    ReadKey { echo: bool },
    /// IN took a key that was already waiting: show the prompt and this byte.
    Echo(u8),
    /// HALT: the run is over.
    Halt,
    /// A TRAP with an unknown vector (its low byte): report it and run on.
    BadTrap(u16),
    /// An instruction with an unknown opcode: the run is over.
    BadOpcode(u16),
}

/// `Action` as mathematics.
pub enum Outcome {
    Continue,
    Output(Seq<u8>),
    ReadKey(bool),
    Echo(u8),
    Halt,
    BadTrap(u16),
    BadOpcode(u16),
}

impl View for Action {
    type V = Outcome;

    open spec fn view(&self) -> Outcome {
        match self {
            Action::Continue => Outcome::Continue,
            Action::Output(v) => Outcome::Output(v@),
            Action::ReadKey { echo } => Outcome::ReadKey(*echo),
            Action::Echo(c) => Outcome::Echo(*c),
            Action::Halt => Outcome::Halt,
            Action::BadTrap(v) => Outcome::BadTrap(*v),
            Action::BadOpcode(v) => Outcome::BadOpcode(*v),
        }
    }
}

/// The instruction that the next step fetches.
pub open spec fn fetched_instr(m: Machine) -> u16 {
    read_value(m, pc(m))
}

/// The machine after the fetch: the read of the program counter's word, and
/// the program counter one past it.
pub open spec fn after_fetch(m: Machine) -> Machine {
    set_reg(read_state(m, pc(m)), PC as int, wrap_add(pc(m), 1))
}

/// The machine once a TRAP has saved the program counter in R7 and run the
/// routine of vector `v`.
pub open spec fn trap_state(m: Machine, v: u16) -> Machine {
    let s = set_reg(m, R7 as int, pc(m));
    match trap_of(v) {
        Some(OP_TRAP::TRAP_GETC) | Some(OP_TRAP::TRAP_IN) => if s.key is Some {
            getc_state(s, None)
        } else {
            s
        },
        Some(OP_TRAP::TRAP_PUTS) => string_output(s, reg(s, 0), MAX_STRING as nat, false).0,
        Some(OP_TRAP::TRAP_PUTSP) => string_output(s, reg(s, 0), MAX_STRING as nat, true).0,
        _ => s,
    }
}

pub open spec fn trap_outcome(m: Machine, v: u16) -> Outcome {
    let s = set_reg(m, R7 as int, pc(m));
    match trap_of(v) {
        Some(OP_TRAP::TRAP_GETC) => if s.key is Some {
            Outcome::Continue
        } else {
            Outcome::ReadKey(false)
        },
        Some(OP_TRAP::TRAP_IN) => match s.key {
            Some(c) => Outcome::Echo(low_byte(c)),
            None => Outcome::ReadKey(true),
        },
        Some(OP_TRAP::TRAP_OUT) => Outcome::Output(seq![low_byte(reg(s, 0))]),
        Some(OP_TRAP::TRAP_PUTS) => Outcome::Output(
            string_output(s, reg(s, 0), MAX_STRING as nat, false).1,
        ),
        Some(OP_TRAP::TRAP_PUTSP) => Outcome::Output(
            string_output(s, reg(s, 0), MAX_STRING as nat, true).1,
        ),
        Some(OP_TRAP::TRAP_HALT) => Outcome::Halt,
        None => Outcome::BadTrap(v),
    }
}

/// The machine after one step. RTI and RES change nothing but the program
/// counter.
pub open spec fn next_state(m: Machine) -> Machine {
    let i = fetched_instr(m);
    let f = after_fetch(m);
    match opcode_of(i >> 12u16) {
        Some(Opcodes::OP_BR) => exec_branch(f, i),
        Some(Opcodes::OP_ADD) => exec_add(f, i),
        Some(Opcodes::OP_LD) => exec_load(f, i),
        Some(Opcodes::OP_ST) => exec_store(f, i),
        Some(Opcodes::OP_JSR) => exec_jsr(f, i),
        Some(Opcodes::OP_AND) => exec_and(f, i),
        Some(Opcodes::OP_LDR) => exec_load_register(f, i),
        Some(Opcodes::OP_STR) => exec_store_register(f, i),
        Some(Opcodes::OP_NOT) => exec_not(f, i),
        Some(Opcodes::OP_LDI) => exec_ldi(f, i),
        Some(Opcodes::OP_STI) => exec_store_indirect(f, i),
        Some(Opcodes::OP_JMP) => exec_jump(f, i),
        Some(Opcodes::OP_LEA) => exec_lea(f, i),
        Some(Opcodes::OP_TRAP) => trap_state(f, i & 0xFF),
        _ => f,
    }
}

/// What one step asks of the world outside.
pub open spec fn next_outcome(m: Machine) -> Outcome {
    let i = fetched_instr(m);
    match opcode_of(i >> 12u16) {
        Some(Opcodes::OP_TRAP) => trap_outcome(after_fetch(m), i & 0xFF),
        Some(_) => Outcome::Continue,
        None => Outcome::BadOpcode(i >> 12u16),
    }
}

impl VM {
    fn trap(&mut self, instr: u16) -> (r: Action)
        requires
            old(self).wf(),
        ensures
            final(self).wf(),
            final(self)@ == trap_state(old(self)@, instr & 0xFF),
            r@ == trap_outcome(old(self)@, instr & 0xFF),
    {
        self.registers_storage[R7] = self.registers_storage[PC];
        let vector = instr & 0xFF;
        match OP_TRAP::from_u16(vector) {
            Some(OP_TRAP::TRAP_GETC) => {
                if self.keyboard.is_some() {
                    self.trap_getc(None);
                    Action::Continue
                } else {
                    Action::ReadKey { echo: false }
                }
            },
            Some(OP_TRAP::TRAP_IN) => {
                match self.keyboard {
                    Some(c) => {
                        self.trap_getc(None);
                        assert(c & 0xFF < 256) by (bit_vector);
                        Action::Echo((c & 0xFF) as u8)
                    },
                    None => Action::ReadKey { echo: true },
                }
            },
            Some(OP_TRAP::TRAP_OUT) => {
                let c = self.trap_out();
                let out = vec![c];
                assert(out@ =~= seq![c]);
                Action::Output(out)
            },
            Some(OP_TRAP::TRAP_PUTS) => Action::Output(self.trap_puts()),
            Some(OP_TRAP::TRAP_PUTSP) => Action::Output(self.trap_putsp()),
            Some(OP_TRAP::TRAP_HALT) => Action::Halt,
            None => Action::BadTrap(vector),
        }
    }

    /// Runs one instruction: fetches the word at the program counter through
    /// the memory's read, moves the program counter past it, and executes it.
    pub fn step(&mut self) -> (r: Action)
        requires
            old(self).wf(),
        ensures
            final(self).wf(),
            final(self)@ == next_state(old(self)@),
            r@ == next_outcome(old(self)@),
    {
        let pc = self.registers_storage[PC];
        let instr = self.memory_read(pc);
        self.registers_storage[PC] = ((pc as u32 + 1) % 65536) as u16;
        let op = opcode(instr);
        match Opcodes::from_u16(op) {
            Some(Opcodes::OP_BR) => self.branch(instr),
            Some(Opcodes::OP_ADD) => self.add(instr),
            Some(Opcodes::OP_LD) => self.load(instr),
            Some(Opcodes::OP_ST) => self.store(instr),
            Some(Opcodes::OP_JSR) => self.jump_register(instr),
            Some(Opcodes::OP_AND) => self.and(instr),
            Some(Opcodes::OP_LDR) => self.load_register(instr),
            Some(Opcodes::OP_STR) => self.store_register(instr),
            Some(Opcodes::OP_RTI) => {},
            Some(Opcodes::OP_NOT) => self.not(instr),
            Some(Opcodes::OP_LDI) => self.ldi(instr),
            Some(Opcodes::OP_STI) => self.store_indirect(instr),
            Some(Opcodes::OP_JMP) => self.jump(instr),
            Some(Opcodes::OP_RES) => {},
            Some(Opcodes::OP_LEA) => self.lea(instr),
            Some(Opcodes::OP_TRAP) => {
                return self.trap(instr);
            },
            None => {
                return Action::BadOpcode(op);
            },
        }
        Action::Continue
    }
}

} // verus!
