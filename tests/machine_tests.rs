use virtual_vm::vm::codec::{offset9, opcode, reg, sign_extend};
use virtual_vm::vm::image::LoadError;
use virtual_vm::vm::machine::{FL_NEG, FL_POS, FL_ZRO, MR_KBDR, MR_KBSR};
use virtual_vm::vm::run::{Registers, VM};
use virtual_vm::vm::step::{Action, Opcodes};
use virtual_vm::vm::trap::OP_TRAP;

const COND: usize = Registers::R_COND as usize;
const PC: usize = Registers::R_PC as usize;

/// Runs steps until HALT or a fault, collecting what the machine prints.
fn run_to_halt(vm: &mut VM, limit: usize) -> Vec<u8> {
    let mut printed = Vec::new();
    for _ in 0..limit {
        match vm.step() {
            Action::Continue => {}
            Action::Output(bytes) => printed.extend(bytes),
            Action::Halt => return printed,
            other => panic!("unexpected action {:?}", other),
        }
    }
    panic!("program did not halt");
}

#[test]
fn sign_extend_known_values() {
    assert_eq!(sign_extend(0x1F, 5), 0xFFFF);
    assert_eq!(sign_extend(0x10, 5), 0xFFF0);
    assert_eq!(sign_extend(0x0F, 5), 0x000F);
    assert_eq!(sign_extend(0x100, 9), 0xFF00);
    assert_eq!(sign_extend(0x7FF, 11), 0xFFFF);
}

#[test]
fn sign_extend_matches_twos_complement() {
    for n in 1u16..16 {
        let mask: u16 = (1u16 << n) - 1;
        for v in (0u32..=0xFFFF).step_by(7) {
            let f = (v as u16) & mask;
            let signed: i32 = if (f as i32) >= (1 << (n - 1)) {
                f as i32 - (1 << n)
            } else {
                f as i32
            };
            assert_eq!(sign_extend(f, n), signed as u16, "field {:#x} of {} bits", f, n);
        }
    }
}

#[test]
fn fields_of_an_instruction() {
    assert_eq!(opcode(0xA405), 10);
    assert_eq!(reg(0xA405, 9), 2);
    assert_eq!(offset9(0x01FF), 0xFFFF);
    assert_eq!(VM::swap16(0x1234), 0x3412);
}

#[test]
fn add_wraps_around() {
    let mut vm = VM::new();
    vm.registers_storage[1] = 0xFFFF;
    vm.registers_storage[2] = 1;
    vm.add(0x1042);
    assert_eq!(vm.registers_storage[0], 0x0000);
    assert_eq!(vm.registers_storage[COND], FL_ZRO);
}

#[test]
fn add_and_and_commute() {
    for (a, b) in [(3u16, 9u16), (0xFFFF, 0x8001), (0x1234, 0xF0F0)] {
        let mut x = VM::new();
        let mut y = VM::new();
        for vm in [&mut x, &mut y] {
            vm.registers_storage[1] = a;
            vm.registers_storage[2] = b;
        }
        // ADD R0, R1, R2 and ADD R0, R2, R1
        x.add(0x1042);
        y.add(0x1081);
        assert_eq!(x.registers_storage, y.registers_storage);
        assert_eq!(x.registers_storage[0], a.wrapping_add(b));
        // AND R3, R1, R2 and AND R3, R2, R1
        x.and(0x5642);
        y.and(0x5681);
        assert_eq!(x.registers_storage, y.registers_storage);
        assert_eq!(x.registers_storage[3], a & b);
    }
}

#[test]
fn add_immediate_negative() {
    let mut vm = VM::new();
    vm.registers_storage[1] = 5;
    // ADD R0, R1, #-1
    vm.add(0x107F);
    assert_eq!(vm.registers_storage[0], 4);
    assert_eq!(vm.registers_storage[COND], FL_POS);
}

#[test]
fn flags_follow_result() {
    let mut vm = VM::new();
    vm.registers_storage[2] = 0;
    vm.not(0x96BF);
    assert_eq!(vm.registers_storage[3], 0xFFFF);
    assert_eq!(vm.registers_storage[COND], FL_NEG);
    vm.registers_storage[2] = 0xFFFF;
    vm.not(0x96BF);
    assert_eq!(vm.registers_storage[COND], FL_ZRO);
    vm.registers_storage[2] = 0x8000;
    vm.not(0x96BF);
    assert_eq!(vm.registers_storage[3], 0x7FFF);
    assert_eq!(vm.registers_storage[COND], FL_POS);
    assert_eq!(vm.update_flags(3), FL_POS);
}

#[test]
fn ldi_follows_the_pointer() {
    let mut vm = VM::new();
    vm.registers_storage[PC] = 0x4000;
    vm.mem_write(0x3FFE, 0x5000);
    vm.mem_write(0x5000, 0x8001);
    // LDI R5, #-2
    vm.ldi(0xABFE);
    assert_eq!(vm.registers_storage[5], 0x8001);
    assert_eq!(vm.registers_storage[COND], FL_NEG);
}

#[test]
fn branch_not_taken_leaves_pc() {
    let mut vm = VM::new();
    vm.registers_storage[PC] = 0x3000;
    // BRn #4 while the flag is zero
    vm.branch(0x0804);
    assert_eq!(vm.registers_storage[PC], 0x3000);
    // BRnzp #-1
    vm.branch(0x0FFF);
    assert_eq!(vm.registers_storage[PC], 0x2FFF);
}

#[test]
fn image_round_trip_leaves_the_rest_zero() {
    let mut vm = VM::new();
    vm.load_image(&[0x30, 0x00, 0x12, 0x34]).unwrap();
    for a in 0..0x10000usize {
        let expected = if a == 0x3000 { 0x1234 } else { 0 };
        assert_eq!(vm.memory[a], expected, "address {:#x}", a);
    }
}

#[test]
fn image_errors_and_limits() {
    let mut vm = VM::new();
    assert_eq!(vm.load_image(&[]), Err(LoadError::Truncated));
    assert_eq!(vm.load_image(&[0x30]), Err(LoadError::Truncated));
    // a trailing odd byte is ignored
    vm.load_image(&[0x30, 0x00, 0xAB, 0xCD, 0xEF]).unwrap();
    assert_eq!(vm.memory[0x3000], 0xABCD);
    assert_eq!(vm.memory[0x3001], 0);
    // words past the top of memory are dropped
    vm.load_image(&[0xFF, 0xFF, 0x00, 0x07, 0x00, 0x09]).unwrap();
    assert_eq!(vm.memory[0xFFFF], 0x0007);
    assert_eq!(vm.memory[0x0000], 0);
}

#[test]
fn puts_prints_up_to_the_terminator() {
    let mut vm = VM::new();
    vm.registers_storage[0] = 0x4000;
    vm.mem_write(0x4000, 0x0048);
    vm.mem_write(0x4001, 0x0069);
    vm.mem_write(0x4002, 0x0000);
    vm.mem_write(0x4003, 0x0041);
    assert_eq!(vm.trap_puts(), b"Hi".to_vec());
}

#[test]
fn putsp_prints_two_per_word() {
    let mut vm = VM::new();
    vm.registers_storage[0] = 0x4000;
    vm.mem_write(0x4000, 0x6548);
    vm.mem_write(0x4001, 0x006C);
    assert_eq!(vm.trap_putsp(), b"Hel".to_vec());
}

#[test]
fn jsrr_saves_the_fetched_pc() {
    let mut vm = VM::new();
    vm.registers_storage[3] = 0x5000;
    // JSRR R3 at 0x3000
    vm.mem_write(0x3000, 0x40C0);
    assert!(matches!(vm.step(), Action::Continue));
    assert_eq!(vm.registers_storage[7], 0x3001);
    assert_eq!(vm.registers_storage[PC], 0x5000);
}

#[test]
fn jsr_moves_by_offset() {
    let mut vm = VM::new();
    // JSR #-2 at 0x3000
    vm.mem_write(0x3000, 0x4FFE);
    vm.step();
    assert_eq!(vm.registers_storage[7], 0x3001);
    assert_eq!(vm.registers_storage[PC], 0x2FFF);
}

#[test]
fn reserved_opcodes_do_nothing() {
    for instr in [0xD000u16, 0x8000, 0xDFFF] {
        let mut vm = VM::new();
        vm.mem_write(0x3000, instr);
        let before = vm.clone();
        assert!(matches!(vm.step(), Action::Continue));
        assert_eq!(vm.registers_storage[PC], 0x3001);
        for k in 0..8 {
            assert_eq!(vm.registers_storage[k], before.registers_storage[k]);
        }
        assert_eq!(vm.registers_storage[COND], before.registers_storage[COND]);
        assert_eq!(vm.memory, before.memory);
    }
}

#[test]
fn program_runs_to_halt() {
    let mut vm = VM::new();
    let image: Vec<u8> = vec![
        0x30, 0x00, // origin
        0xE0, 0x03, // LEA R0, #3
        0xF0, 0x22, // PUTS
        0x10, 0x3F, // ADD R0, R0, #-1
        0xF0, 0x25, // HALT
        0x00, 0x4F, 0x00, 0x4B, 0x00, 0x00, // "OK"
    ];
    vm.load_image(&image).unwrap();
    assert_eq!(run_to_halt(&mut vm, 10), b"OK".to_vec());
    assert_eq!(vm.registers_storage[0], 0x3003);
    assert_eq!(vm.registers_storage[7], 0x3004);
    assert_eq!(vm.registers_storage[PC], 0x3004);
}

#[test]
fn keyboard_status_read_polls_the_key() {
    let mut vm = VM::new();
    vm.keyboard = Some(0x61);
    assert_eq!(vm.memory_read(MR_KBSR), 0x8000);
    assert_eq!(vm.memory[MR_KBDR as usize], 0x61);
    assert_eq!(vm.keyboard, None);
    assert_eq!(vm.memory_read(MR_KBSR), 0);
    // the data register itself has no side effect
    assert_eq!(vm.memory_read(MR_KBDR), 0x61);
    vm.mem_write(MR_KBSR, 0x1234);
    assert_eq!(vm.memory[MR_KBSR as usize], 0x1234);
}

#[test]
fn getc_and_in_through_step() {
    let mut vm = VM::new();
    vm.mem_write(0x3000, 0xF020);
    vm.mem_write(0x3001, 0xF020);
    vm.mem_write(0x3002, 0xF023);
    vm.mem_write(0x3003, 0xF021);
    vm.keyboard = Some(0x41);
    assert!(matches!(vm.step(), Action::Continue));
    assert_eq!(vm.registers_storage[0], 0x41);
    assert_eq!(vm.keyboard, None);
    assert!(matches!(vm.step(), Action::ReadKey { echo: false }));
    assert_eq!(vm.registers_storage[7], 0x3002);
    vm.trap_getc(Some(0));
    assert_eq!(vm.registers_storage[COND], FL_ZRO);
    vm.keyboard = Some(0x7A);
    assert!(matches!(vm.step(), Action::Echo(0x7A)));
    assert_eq!(vm.registers_storage[0], 0x7A);
    match vm.step() {
        Action::Output(bytes) => assert_eq!(bytes, vec![0x7A]),
        other => panic!("unexpected action {:?}", other),
    }
    vm.trap_getc(None);
    assert_eq!(vm.registers_storage[0], 0x7A);
}

#[test]
fn unknown_trap_is_reported() {
    let mut vm = VM::new();
    vm.mem_write(0x3000, 0xF0FF);
    assert!(matches!(vm.step(), Action::BadTrap(0xFF)));
    assert_eq!(vm.registers_storage[PC], 0x3001);
    assert_eq!(vm.registers_storage[7], 0x3001);
}

#[test]
fn decoders() {
    assert_eq!(Opcodes::from_u16(6), Some(Opcodes::OP_LDR));
    assert_eq!(Opcodes::from_u16(9), Some(Opcodes::OP_NOT));
    assert_eq!(Opcodes::from_u16(16), None);
    assert_eq!(OP_TRAP::from_u16(0x25), Some(OP_TRAP::TRAP_HALT));
    assert_eq!(OP_TRAP::from_u16(0x26), None);
}

#[test]
fn sign_extend_full_width_is_identity() {
    for v in [0u16, 1, 0x7FFF, 0x8000, 0x8001, 0xFFFF] {
        assert_eq!(sign_extend(v, 16), v);
    }
}

#[test]
fn register_field_at_any_shift() {
    assert_eq!(reg(0xE000, 13), 7);
    assert_eq!(reg(0x8000, 15), 1);
}
