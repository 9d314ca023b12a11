//! Laws of the machine, stated over the model and proved.

use vstd::prelude::*;
use crate::vm::codec::{bit, reg_of};
use crate::vm::image::{be_word, image_origin, image_word, loaded};
use crate::vm::machine::{
    add_value, and_value, exec_add, exec_and, exec_ldi, flag_of, pc, pc_relative, reg,
    well_formed, write_mem, wrap_add, Machine, COND, FL_NEG, FL_POS, FL_ZRO, MEMORY_SIZE,
    MR_KBSR, PC, R7,
};
use crate::vm::step::{after_fetch, fetched_instr, next_outcome, next_state, Outcome};

verus! {

proof fn lemma_field_bounds(i: u16)
    by (bit_vector)
    ensures
        i >> 12u16 < 16,
        (i >> 9u16) & 7 < 8,
        (i >> 6u16) & 7 < 8,
        (i >> 0u16) & 7 < 8,
{
}

proof fn lemma_sign_bit_nonzero(v: u16)
    by (bit_vector)
    ensures
        v >> 15u16 == 1 ==> v != 0,
{
}

proof fn lemma_and_commutes(a: u16, b: u16)
    by (bit_vector)
    ensures
        a & b == b & a,
{
}

/// Two register-register instructions that name the same destination and
/// the same two sources in the other order.
pub open spec fn sources_swapped(i: u16, j: u16) -> bool {
    &&& !bit(i, 5)
    &&& !bit(j, 5)
    &&& reg_of(i, 9) == reg_of(j, 9)
    &&& reg_of(i, 6) == reg_of(j, 0)
    &&& reg_of(i, 0) == reg_of(j, 6)
}

/// ADD and AND in register-register mode do not depend on the order of their
/// sources, and ADD wraps around: its result is the sum modulo `2^16`.
pub proof fn lemma_add_and_commute(m: Machine, i: u16, j: u16)
    requires
        well_formed(m),
        sources_swapped(i, j),
    ensures
        exec_add(m, i) == exec_add(m, j),
        exec_and(m, i) == exec_and(m, j),
        add_value(m, i) as int == (reg(m, reg_of(i, 6)) as int + reg(m, reg_of(i, 0)) as int)
            % 65536,
{
    lemma_and_commutes(reg(m, reg_of(i, 6)), reg(m, reg_of(i, 0)));
}

/// Whether an opcode sets the flags from its destination register.
pub open spec fn sets_flags(op: u16) -> bool {
    op == 1 || op == 5 || op == 9 || op == 2 || op == 10 || op == 6 || op == 14
}

/// After ADD, AND, NOT, LD, LDI, LDR or LEA the flags describe the value just
/// written to the destination register: negative exactly when its bit 15 is
/// set, zero exactly when it is zero, positive otherwise.
pub proof fn lemma_flags_follow_result(m: Machine)
    requires
        well_formed(m),
        sets_flags(fetched_instr(m) >> 12u16),
    ensures
        ({
            let v = next_state(m).regs[reg_of(fetched_instr(m), 9) as int];
            let f = next_state(m).regs[COND as int];
            &&& f == FL_NEG <==> v >> 15u16 == 1
            &&& f == FL_ZRO <==> v == 0
            &&& f == FL_POS <==> (v != 0 && v >> 15u16 != 1)
        }),
{
    let i = fetched_instr(m);
    let v = next_state(m).regs[reg_of(i, 9) as int];
    lemma_field_bounds(i);
    lemma_sign_bit_nonzero(v);
    assert(next_state(m).regs[COND as int] == flag_of(v));
}

/// LDI follows a pointer: when `a` holds `p` and `p` holds `x` (two distinct
/// addresses, neither the keyboard status register), an LDI whose effective
/// address is `a` loads `x`.
pub proof fn lemma_ldi_round_trip(m: Machine, a: u16, p: u16, x: u16, i: u16)
    requires
        well_formed(m),
        a != p,
        a != MR_KBSR,
        p != MR_KBSR,
        pc_relative(write_mem(write_mem(m, a, p), p, x), i) == a,
    ensures
        exec_ldi(write_mem(write_mem(m, a, p), p, x), i).regs[reg_of(i, 9) as int] == x,
{
    lemma_field_bounds(i);
}

/// JSRR (bit 11 clear) saves in R7 the program counter as it stands after
/// the fetch, then jumps to the base register.
pub proof fn lemma_jsrr_saves_return(m: Machine)
    requires
        well_formed(m),
        fetched_instr(m) >> 12u16 == 4,
        !bit(fetched_instr(m), 11),
    ensures
        next_state(m).regs[R7 as int] == wrap_add(pc(m), 1),
        next_state(m).regs[PC as int] == if reg_of(fetched_instr(m), 6) == 7 {
            wrap_add(pc(m), 1)
        } else {
            reg(m, reg_of(fetched_instr(m), 6))
        },
{
    lemma_field_bounds(fetched_instr(m));
}

/// Every instruction word decodes; the reserved opcodes RTI and RES change
/// nothing but the program counter and the run goes on.
pub proof fn lemma_reserved_is_noop(m: Machine)
    requires
        well_formed(m),
    ensures
        !(next_outcome(m) is BadOpcode),
        (fetched_instr(m) >> 12u16 == 13 || fetched_instr(m) >> 12u16 == 8) ==> next_state(m)
            == after_fetch(m) && next_outcome(m) == Outcome::Continue,
{
    lemma_field_bounds(fetched_instr(m));
}

pub open spec fn hi_byte(w: u16) -> u8 {
    (w / 256) as u8
}

pub open spec fn lo_byte(w: u16) -> u8 {
    (w % 256) as u8
}

/// The image whose origin is `origin` and whose words are `words`.
pub open spec fn encode_image(origin: u16, words: Seq<u16>) -> Seq<u8> {
    Seq::new(
        (2 + 2 * words.len()) as nat,
        |j: int|
            if j == 0 {
                hi_byte(origin)
            } else if j == 1 {
                lo_byte(origin)
            } else if (j - 2) % 2 == 0 {
                hi_byte(words[(j - 2) / 2])
            } else {
                lo_byte(words[(j - 2) / 2])
            },
    )
}

proof fn lemma_be_round_trip(w: u16)
    ensures
        be_word(hi_byte(w), lo_byte(w)) == w,
{
}

/// Loading an encoded image stores each of its words from the origin up, as
/// far as the top of memory, and leaves every other address as it was.
pub proof fn lemma_image_round_trip(mem: Seq<u16>, origin: u16, words: Seq<u16>)
    requires
        mem.len() == MEMORY_SIZE,
    ensures
        ({
            let after = loaded(mem, encode_image(origin, words));
            &&& after.len() == MEMORY_SIZE
            &&& forall|k: int|
                0 <= k < words.len() && origin + k < MEMORY_SIZE ==> #[trigger] after[origin + k]
                    == words[k]
            &&& forall|a: int|
                0 <= a < MEMORY_SIZE && !(origin <= a < origin + words.len()) ==> #[trigger] after[a]
                    == mem[a]
        }),
{
    let b = encode_image(origin, words);
    lemma_be_round_trip(origin);
    assert(image_origin(b) == origin);
    assert((b.len() - 2) / 2 == words.len());
    assert forall|k: int| 0 <= k < words.len() implies #[trigger] image_word(b, k) == words[k] by {
        assert((2 + 2 * k - 2) / 2 == k);
        assert((3 + 2 * k - 2) / 2 == k);
        assert((2 + 2 * k - 2) % 2 == 0);
        assert((3 + 2 * k - 2) % 2 == 1);
        lemma_be_round_trip(words[k]);
    }
    let after = loaded(mem, b);
    assert forall|k: int| 0 <= k < words.len() && origin + k < MEMORY_SIZE implies #[trigger] after[
        origin + k] == words[k] by {
        assert(image_word(b, k) == words[k]);
    }
}

} // verus!
