use um32::{Cpu, Operator, VmError};

/// Drives spin cycles until the machine halts or a cycle fails, as the
/// host does.
fn run(cpu: &mut Cpu) -> Result<(), VmError> {
    while !cpu.halted {
        cpu.spin_cycle()?;
    }
    Ok(())
}

#[test]
fn halt_only_image_exits_cleanly() {
    let mut cpu = Cpu::new(vec![0x70000000]);
    assert_eq!(run(&mut cpu), Ok(()));
    assert!(cpu.halted);
    assert_eq!(cpu.pc, 1);
    assert_eq!(cpu.regs, vec![0; 8]);
}

#[test]
fn output_letter_then_halt() {
    // Orthography R0 <- 65, Output R0, Halt: writes 'A' on stdout
    let mut cpu = Cpu::new(vec![0xd0000041, 0xa0000000, 0x70000000]);
    assert_eq!(run(&mut cpu), Ok(()));
    assert!(cpu.halted);
    assert_eq!(cpu.regs[0], 65);
}

#[test]
fn addition_wraps_modulo_2_to_the_32() {
    let mut cpu = Cpu::new(vec![0x70000000]);
    cpu.regs[1] = 0xffffffff;
    cpu.regs[2] = 2;
    // Addition R3 <- R1 + R2
    cpu.addition(Operator(0x30000000 | (3 << 6) | (1 << 3) | 2));
    assert_eq!(cpu.regs[3], 1);
}

#[test]
fn addition_wrap_through_an_image() {
    // R1 <- NOT(R0 AND R0) = 0xffffffff, R2 <- 2, R3 <- R1 + R2, Halt
    let not_and = 0x60000000 | (1 << 6);
    let orth_r2 = 0xd0000000 | (2 << 25) | 2;
    let add = 0x30000000 | (3 << 6) | (1 << 3) | 2;
    let mut cpu = Cpu::new(vec![not_and, orth_r2, add, 0x70000000]);
    assert_eq!(run(&mut cpu), Ok(()));
    assert_eq!(cpu.regs[1], 0xffffffff);
    assert_eq!(cpu.regs[3], 1);
}

#[test]
fn multiplication_wraps_modulo_2_to_the_32() {
    let mut cpu = Cpu::new(vec![0x70000000]);
    cpu.regs[1] = 0x10000;
    cpu.regs[2] = 0x10001;
    cpu.multiplication(Operator(0x40000000 | (3 << 6) | (1 << 3) | 2));
    assert_eq!(cpu.regs[3], 0x10000u64.wrapping_mul(0x10001) as u32);
    assert_eq!(cpu.regs[3], 0x00010000);
}

#[test]
fn not_and_is_bitwise_negated_conjunction() {
    let mut cpu = Cpu::new(vec![0x70000000]);
    cpu.regs[1] = 0b1100;
    cpu.regs[2] = 0b1010;
    cpu.not_and(Operator(0x60000000 | (3 << 6) | (1 << 3) | 2));
    assert_eq!(cpu.regs[3], !(0b1100u32 & 0b1010));
}

#[test]
fn division_is_unsigned_floor() {
    let mut cpu = Cpu::new(vec![0x70000000]);
    cpu.regs[1] = 7;
    cpu.regs[2] = 2;
    assert_eq!(cpu.division(Operator(0x50000000 | (3 << 6) | (1 << 3) | 2)), Ok(()));
    assert_eq!(cpu.regs[3], 3);
}

#[test]
fn division_by_zero_is_fatal() {
    // R1 <- 1, then R0 <- R1 / R0 with R0 = 0
    let orth_r1 = 0xd0000000 | (1 << 25) | 1;
    let div = 0x50000000 | (1 << 3);
    let mut cpu = Cpu::new(vec![orth_r1, div, 0x70000000]);
    assert_eq!(run(&mut cpu), Err(VmError::DivisionByZero));
    assert!(!cpu.halted);
}

#[test]
fn orthography_masks_to_25_bits() {
    let mut cpu = Cpu::new(vec![0x70000000]);
    // all low 28 bits set; only 25 may land in the register
    cpu.orthography(Operator(0xd0000000 | 0x0fffffff));
    assert_eq!(cpu.regs[7], 0x01ffffff);
}

#[test]
fn conditional_move_waits_on_register_c() {
    let mut cpu = Cpu::new(vec![0x70000000]);
    cpu.regs[5] = 99;
    let cmov = Operator((6 << 6) | (5 << 3) | 3);
    cpu.conditional_move(cmov);
    assert_eq!(cpu.regs[6], 0, "no move while R3 is zero");
    cpu.regs[3] = 1;
    cpu.conditional_move(cmov);
    assert_eq!(cpu.regs[6], 99);
}

#[test]
fn allocate_abandon_allocate_reuses_identifier() {
    // Orthography R1 <- 4; Allocation R2 <- allocate(R1); Abandon R2;
    // Allocation R2 again: the abandoned identifier comes back.
    let mut cpu = Cpu::new(vec![0x70000000]);
    cpu.regs[1] = 4;
    let alloc = Operator(0x80000000 | (2 << 3) | 1);
    assert_eq!(cpu.allocation(alloc), Ok(()));
    let id = cpu.regs[2];
    assert_ne!(id, 0);
    assert_eq!(cpu.abandonment(Operator(0x90000000 | 2)), Ok(()));
    assert_eq!(cpu.allocation(alloc), Ok(()));
    assert_eq!(cpu.regs[2], id);
}

#[test]
fn reuse_through_an_image() {
    let orth = 0xd2000004; // R1 <- 4
    let alloc = 0x80000011; // R2 <- allocate(R1)
    let aband = 0x90000002; // abandon R2
    let halt = 0x70000000;
    let mut first = Cpu::new(vec![orth, alloc, halt]);
    assert_eq!(run(&mut first), Ok(()));
    let id = first.regs[2];
    assert_ne!(id, 0);
    // the same machine, abandoning and allocating again, gets the same
    // identifier back
    let mut second = Cpu::new(vec![orth, alloc, aband, alloc, halt]);
    assert_eq!(run(&mut second), Ok(()));
    assert_eq!(second.regs[2], id);
}

#[test]
fn abandoning_zero_or_dead_identifier_is_fatal() {
    let mut cpu = Cpu::new(vec![0x70000000]);
    assert_eq!(
        cpu.abandonment(Operator(0x90000000 | 2)),
        Err(VmError::AbandonZero)
    );
    cpu.regs[2] = 17;
    assert_eq!(
        cpu.abandonment(Operator(0x90000000 | 2)),
        Err(VmError::DeadArray { id: 17 })
    );
}

#[test]
fn self_load_halts_and_keeps_the_source() {
    // Build an array holding [Halt] and make it the executing image.
    let orth_r1_1 = 0xd0000000 | (1 << 25) | 1; // R1 <- 1, the capacity
    let alloc_r2 = 0x80000000 | (2 << 3) | 1; // R2 <- allocate(R1)
    let orth_r3_4000 = 0xd0000000 | (3 << 25) | 0x4000; // R3 <- 2^14
    let orth_r4_7 = 0xd0000000 | (4 << 25) | 7; // R4 <- 7
    let mul1 = 0x40000000 | (4 << 6) | (4 << 3) | 3; // R4 <- R4 * R3
    let mul2 = 0x40000000 | (4 << 6) | (4 << 3) | 3; // R4 = 7 * 2^28 = Halt
    let amend = 0x20000000 | (2 << 6) | (0 << 3) | 4; // array[R2][R0] <- R4
    let load = 0xc0000000 | (2 << 3) | 0; // image <- array R2, pc <- R0
    let mut cpu = Cpu::new(vec![
        orth_r1_1,
        alloc_r2,
        orth_r3_4000,
        orth_r4_7,
        mul1,
        mul2,
        amend,
        load,
    ]);
    assert_eq!(run(&mut cpu), Ok(()));
    assert!(cpu.halted);
    assert_eq!(cpu.regs[4], 0x70000000);
    // the source array stays live and readable after the load
    let source = cpu.regs[2];
    assert_ne!(source, 0);
    let read_back = 0x10000000 | (6 << 6) | (2 << 3) | 0; // R6 <- array[R2][R0]
    assert_eq!(cpu.array_index(Operator(read_back)), Ok(()));
    assert_eq!(cpu.regs[6], 0x70000000);
}

#[test]
fn branch_within_the_image_is_a_plain_jump() {
    // Load Program with B = 0 retargets the counter without copying:
    // jump over a would-be unknown word straight to Halt.
    let orth_r1_3 = 0xd0000000 | (1 << 25) | 3; // R1 <- 3
    let jump = 0xc0000000 | (0 << 3) | 1; // pc <- R1, image stays
    let mut cpu = Cpu::new(vec![orth_r1_3, jump, 0xe0000000, 0x70000000]);
    assert_eq!(run(&mut cpu), Ok(()));
    assert!(cpu.halted);
    assert_eq!(cpu.pc, 4);
}

#[test]
fn input_at_end_of_stream_sets_all_ones() {
    let mut cpu = Cpu::new(vec![0x70000000]);
    cpu.apply_input(3, None);
    assert_eq!(cpu.regs[3], 0xffffffff);
    // a conditional move guarded by that register now moves
    cpu.regs[5] = 41;
    cpu.conditional_move(Operator((6 << 6) | (5 << 3) | 3));
    assert_eq!(cpu.regs[6], 41);
}

#[test]
fn input_byte_lands_in_register_c() {
    let mut cpu = Cpu::new(vec![0x70000000]);
    cpu.apply_input(2, Some(7));
    assert_eq!(cpu.regs[2], 7);
    cpu.apply_input(2, Some(255));
    assert_eq!(cpu.regs[2], 255);
}

#[test]
fn output_above_255_is_fatal() {
    let mut cpu = Cpu::new(vec![0x70000000]);
    cpu.regs[4] = 256;
    assert_eq!(
        cpu.output(Operator(0xa0000000 | 4)),
        Err(VmError::OutputTooLarge { value: 256 })
    );
}

#[test]
fn unknown_opcode_is_fatal() {
    let mut cpu = Cpu::new(vec![0xe0000000]);
    assert_eq!(
        run(&mut cpu),
        Err(VmError::UnknownOpcode { number: 14 })
    );
}

#[test]
fn fetch_beyond_the_image_is_fatal() {
    let mut cpu = Cpu::new(vec![]);
    assert_eq!(
        run(&mut cpu),
        Err(VmError::OutOfRange { id: 0, offset: 0 })
    );
    // running off the end of a non-halting image fails the same way
    let mut cpu = Cpu::new(vec![0xd0000001]);
    assert_eq!(
        run(&mut cpu),
        Err(VmError::OutOfRange { id: 0, offset: 1 })
    );
}

#[test]
fn array_access_faults_are_fatal() {
    let mut cpu = Cpu::new(vec![0x70000000]);
    cpu.regs[1] = 9; // no such array
    assert_eq!(
        cpu.array_index(Operator(0x10000000 | (0 << 6) | (1 << 3) | 2)),
        Err(VmError::DeadArray { id: 9 })
    );
    cpu.regs[1] = 0;
    cpu.regs[2] = 5; // beyond the one-word image
    assert_eq!(
        cpu.array_index(Operator(0x10000000 | (0 << 6) | (1 << 3) | 2)),
        Err(VmError::OutOfRange { id: 0, offset: 5 })
    );
    assert_eq!(
        cpu.array_amendment(Operator(0x20000000 | (1 << 6) | (2 << 3) | 0)),
        Err(VmError::OutOfRange { id: 0, offset: 5 })
    );
}

#[test]
fn load_program_from_dead_identifier_is_fatal() {
    let mut cpu = Cpu::new(vec![0x70000000]);
    cpu.regs[1] = 3;
    assert_eq!(
        cpu.load_program(Operator(0xc0000000 | (1 << 3) | 0)),
        Err(VmError::DeadArray { id: 3 })
    );
}

#[test]
fn fresh_machine_starts_clean() {
    let cpu = Cpu::new(vec![1, 2]);
    assert_eq!(cpu.regs, vec![0; 8]);
    assert_eq!(cpu.pc, 0);
    assert!(!cpu.halted);
    assert_eq!(cpu.arena.read(0, 0), Ok(1));
    assert_eq!(cpu.arena.read(0, 1), Ok(2));
}
