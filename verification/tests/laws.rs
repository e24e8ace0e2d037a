use mos6502::{CPUError, Status, Step, CPU};

fn patterned_cpu() -> CPU {
    let mut cpu = CPU::new();
    for i in 0..2048usize {
        cpu.mem[i] = ((i * 7 + 3) % 251) as u8;
    }
    cpu
}

#[test]
fn loads_set_zero_and_negative_for_every_byte() {
    for v in 0..=255u8 {
        let mut cpu = CPU::new();
        cpu.lda(v);
        assert_eq!(cpu.a, v);
        assert_eq!(cpu.p.contains(Status::Z), v == 0);
        assert_eq!(cpu.p.contains(Status::N), v >= 0x80);

        let mut cpu = CPU::new();
        cpu.ldx(v);
        assert_eq!(cpu.x, v);
        assert_eq!(cpu.p.contains(Status::Z), v == 0);
        assert_eq!(cpu.p.contains(Status::N), v >= 0x80);

        let mut cpu = CPU::new();
        cpu.ldy(v);
        assert_eq!(cpu.y, v);
        assert_eq!(cpu.p.contains(Status::Z), v == 0);
        assert_eq!(cpu.p.contains(Status::N), v >= 0x80);
    }
}

#[test]
fn loads_replace_stale_flags() {
    let mut cpu = CPU::new();
    cpu.lda(0x00);
    assert!(cpu.p.contains(Status::Z));
    cpu.lda(0x90);
    assert!(!cpu.p.contains(Status::Z));
    assert!(cpu.p.contains(Status::N));
    cpu.lda(0x01);
    assert!(cpu.p.is_empty());
}

#[test]
fn pop_returns_pushed_byte_for_every_stack_pointer() {
    for s in 0..=255u8 {
        let mut cpu = CPU::new();
        cpu.s = s;
        cpu.push_byte(0xA5);
        assert_eq!(cpu.s, s.wrapping_sub(1));
        assert_eq!(cpu.mem[0x0100 + s as usize], 0xA5);
        assert_eq!(cpu.pop_byte(), 0xA5);
        assert_eq!(cpu.s, s);
    }
}

#[test]
fn pop_returns_pushed_word_for_every_stack_pointer() {
    for s in 0..=255u8 {
        let mut cpu = CPU::new();
        cpu.s = s;
        cpu.push_word(0xBEEF);
        assert_eq!(cpu.s, s.wrapping_sub(2));
        assert_eq!(cpu.mem[0x0100 + s as usize], 0xBE);
        assert_eq!(cpu.mem[0x0100 + s.wrapping_sub(1) as usize], 0xEF);
        assert_eq!(cpu.pop_word(), 0xBEEF);
        assert_eq!(cpu.s, s);
    }
}

#[test]
fn pushed_word_has_low_byte_at_lower_address() {
    let mut cpu = CPU::new();
    cpu.s = 0x80;
    cpu.push_word(0x1234);
    assert_eq!(cpu.mem[0x017f], 0x34);
    assert_eq!(cpu.mem[0x0180], 0x12);
}

#[test]
fn pushed_word_wraps_within_stack_page() {
    let mut cpu = CPU::new();
    cpu.s = 0x00;
    cpu.push_word(0x1234);
    assert_eq!(cpu.mem[0x0100], 0x12);
    assert_eq!(cpu.mem[0x01ff], 0x34);
    assert_eq!(cpu.s, 0xfe);
    assert_eq!(cpu.mem[0x00ff], 0x00);
    assert_eq!(cpu.mem[0x0200], 0x00);
    assert_eq!(cpu.pop_word(), 0x1234);
    assert_eq!(cpu.s, 0x00);
}

#[test]
fn zero_page_indexing_wraps_for_every_operand_and_index() {
    let mut cpu = patterned_cpu();
    for a in 0..=255u8 {
        for i in 0..=255u8 {
            let expected = cpu.mem[(a as usize + i as usize) % 256];
            cpu.x = i;
            cpu.y = 0;
            assert_eq!(cpu.get_byte_zpgx(a), expected);
            cpu.x = 0;
            cpu.y = i;
            assert_eq!(cpu.get_byte_zpgy(a), expected);
        }
    }
}

#[test]
fn words_are_read_low_byte_first() {
    let mut cpu = CPU::new();
    cpu.mem[0x0300] = 0xCD;
    cpu.mem[0x0301] = 0xAB;
    assert_eq!(cpu.get_word(0x0300), 0xABCD);
    cpu.pc = 0x0300;
    assert_eq!(cpu.read_word(), 0xABCD);
    assert_eq!(cpu.pc, 0x0302);
}

#[test]
fn zero_page_pointer_wraps_within_page_zero() {
    let mut cpu = CPU::new();
    cpu.mem[0x00ff] = 0x34;
    cpu.mem[0x0000] = 0x02;
    cpu.mem[0x0100] = 0x07;
    cpu.mem[0x0234] = 0x99;
    cpu.mem[0x0734] = 0x11;
    cpu.mem[0x0237] = 0x77;
    // (zp),Y with the pointer at 0xff: high byte comes from 0x00, not 0x100.
    cpu.y = 0;
    assert_eq!(cpu.get_byte_indy(0xff), 0x99);
    cpu.y = 3;
    assert_eq!(cpu.get_byte_indy(0xff), 0x77);
    // (zp,X) with operand + X reaching 0xff.
    cpu.x = 0x0f;
    assert_eq!(cpu.get_byte_xind(0xf0), 0x99);
    // (zp,X) with operand + X wrapping past 0xff.
    cpu.x = 0x20;
    assert_eq!(cpu.get_byte_xind(0xdf), 0x99);
}

#[test]
fn jump_indirect_reads_vector_low_byte_first() {
    let mut cpu = CPU::new();
    cpu.mem[0x0400] = 0x6C; // JMP ($0210)
    cpu.mem[0x0401] = 0x10;
    cpu.mem[0x0402] = 0x02;
    cpu.mem[0x0210] = 0x56;
    cpu.mem[0x0211] = 0x04;
    assert_eq!(cpu.step(), Ok(Step::Continue));
    assert_eq!(cpu.pc, 0x0456);
}

#[test]
fn return_lands_after_the_call() {
    for s in [0xffu8, 0x80, 0x01, 0x00] {
        let mut cpu = CPU::new();
        cpu.s = s;
        cpu.pc = 0x0410;
        cpu.mem[0x0410] = 0x20; // JSR $0600
        cpu.mem[0x0411] = 0x00;
        cpu.mem[0x0412] = 0x06;
        cpu.mem[0x0600] = 0xEA; // NOP
        cpu.mem[0x0601] = 0x60; // RTS
        assert_eq!(cpu.step(), Ok(Step::Continue));
        assert_eq!(cpu.pc, 0x0600);
        assert_eq!(cpu.s, s.wrapping_sub(2));
        assert_eq!(cpu.mem[0x0100 + s as usize], 0x04);
        assert_eq!(cpu.mem[0x0100 + s.wrapping_sub(1) as usize], 0x12);
        assert_eq!(cpu.step(), Ok(Step::Continue));
        assert_eq!(cpu.step(), Ok(Step::Continue));
        assert_eq!(cpu.pc, 0x0413);
        assert_eq!(cpu.s, s);
    }
}

fn branch_case(opcode: u8, flag: Status, value: bool, offset: u8) -> u16 {
    let mut cpu = CPU::new();
    cpu.pc = 0x0480;
    cpu.mem[0x0480] = opcode;
    cpu.mem[0x0481] = offset;
    cpu.p.set(flag, value);
    let before = cpu.p;
    assert_eq!(cpu.step(), Ok(Step::Continue));
    assert_eq!(cpu.p, before);
    assert_eq!(cpu.s, 0xff);
    cpu.pc
}

#[test]
fn branches_follow_their_flag() {
    let table = [
        (0x90u8, Status::C, false),
        (0xB0, Status::C, true),
        (0xD0, Status::Z, false),
        (0xF0, Status::Z, true),
        (0x10, Status::N, false),
        (0x30, Status::N, true),
        (0x50, Status::V, false),
        (0x70, Status::V, true),
    ];
    for (opcode, flag, taken_on) in table {
        // Not taken: only the operand is passed.
        assert_eq!(branch_case(opcode, flag, !taken_on, 0x10), 0x0482);
        assert_eq!(branch_case(opcode, flag, !taken_on, 0xF0), 0x0482);
        // Taken forward and backward.
        assert_eq!(branch_case(opcode, flag, taken_on, 0x10), 0x0492);
        assert_eq!(branch_case(opcode, flag, taken_on, 0x7F), 0x0501);
        assert_eq!(branch_case(opcode, flag, taken_on, 0xF0), 0x0472);
        assert_eq!(branch_case(opcode, flag, taken_on, 0x80), 0x0402);
        assert_eq!(branch_case(opcode, flag, taken_on, 0xFE), 0x0480);
        assert_eq!(branch_case(opcode, flag, taken_on, 0x00), 0x0482);
    }
}

#[test]
fn overflow_branches_ignore_carry() {
    let mut cpu = CPU::new();
    cpu.mem[0x0400] = 0x70; // BVS +4
    cpu.mem[0x0401] = 0x04;
    cpu.p.set(Status::C, true);
    assert_eq!(cpu.step(), Ok(Step::Continue));
    assert_eq!(cpu.pc, 0x0402);
}

#[test]
fn branch_wraps_around_the_address_space() {
    let mut cpu = CPU::new();
    cpu.pc = 0xFFF0;
    cpu.branch(Status::C, false);
    // memory is zeroed: offset 0, so only the operand is passed
    assert_eq!(cpu.pc, 0xFFF1);

    let mut cpu = CPU::new();
    cpu.pc = 0x0000;
    cpu.mem[0x0000] = 0x80; // -128
    cpu.branch(Status::Z, false);
    assert_eq!(cpu.pc, 0xFF81);

    let mut cpu = CPU::new();
    cpu.pc = 0xFFFE;
    cpu.mem[0x07FE] = 0x7F; // +127, read at 0xFFFE modulo the image size
    cpu.branch(Status::Z, false);
    assert_eq!(cpu.pc, 0x007E);
}

#[test]
fn compare_sets_carry_zero_and_negative_for_every_pair() {
    for a in 0..=255u8 {
        for m in 0..=255u8 {
            let mut cpu = CPU::new();
            cpu.a = a;
            cpu.cmp(m);
            assert_eq!(cpu.a, a);
            assert_eq!(cpu.p.contains(Status::C), a >= m);
            assert_eq!(cpu.p.contains(Status::Z), a == m);
            assert_eq!(cpu.p.contains(Status::N), a.wrapping_sub(m) & 0x80 != 0);
        }
    }
}

#[test]
fn compare_does_not_underflow() {
    let mut cpu = CPU::new();
    cpu.a = 0x10;
    cpu.cmp(0x20);
    assert!(!cpu.p.contains(Status::C));
    assert!(!cpu.p.contains(Status::Z));
    assert!(cpu.p.contains(Status::N)); // 0x10 - 0x20 = 0xF0

    cpu.x = 0x00;
    cpu.cpx(0x01);
    assert!(!cpu.p.contains(Status::C));
    assert!(cpu.p.contains(Status::N)); // 0xFF

    cpu.y = 0x80;
    cpu.cpy(0x01);
    assert!(cpu.p.contains(Status::C));
    assert!(!cpu.p.contains(Status::N)); // 0x7F
    assert!(!cpu.p.contains(Status::Z));
}

#[test]
fn illegal_opcode_leaves_pc_one_past_it() {
    let mut cpu = CPU::new();
    cpu.mem[0x0400] = 0xA9; // LDA #$07
    cpu.mem[0x0401] = 0x07;
    cpu.mem[0x0402] = 0x02; // no opcode
    assert_eq!(cpu.run(), Err(CPUError::IllegalInstruction(0x02)));
    assert_eq!(cpu.a, 0x07);
    assert_eq!(cpu.pc, 0x0403);
}
