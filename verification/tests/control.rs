use chip8::chip8::Chip8;
use chip8::instruction::Instruction;

#[test]
fn call_then_return_restores_the_program_counter_at_every_depth() {
    let mut vm = Chip8::new();
    let mut expected = Vec::new();
    for depth in 1..=16u16 {
        let before = vm.pc();
        expected.push(before);
        assert!(vm.can_execute_opcode(Instruction::Call { nnn: 0x300 + 2 * depth }));
        vm.op_2nnn(0x300 + 2 * depth);
        assert_eq!(vm.pc(), 0x300 + 2 * depth);
        assert_eq!(vm.sp() as u16, depth);
        assert_eq!(vm.stack_at(depth as u8 - 1), before);
    }
    assert!(!vm.can_execute_opcode(Instruction::Call { nnn: 0x400 }));
    for depth in (1..=16u16).rev() {
        assert!(vm.can_execute_opcode(Instruction::Return));
        vm.op_00ee();
        assert_eq!(vm.pc(), expected[depth as usize - 1]);
        assert_eq!(vm.sp() as u16, depth - 1);
    }
    assert!(!vm.can_execute_opcode(Instruction::Return));
}

#[test]
fn call_cycle_then_return_lands_after_the_call() {
    for depth in 0..16u8 {
        let mut vm = Chip8::new();
        // `2300` at the load address, `00EE` at 0x300.
        vm.load_rom(&[0x23, 0x00]);
        for _ in 0..depth {
            vm.op_2nnn(0x200);
        }
        // memory at 0x300 is zero; place the return there through a store.
        vm.op_6xkk(0, 0x00);
        vm.op_6xkk(1, 0xEE);
        vm.op_annn(0x300);
        vm.op_fx55(1);
        assert!(vm.can_execute_cycle());
        assert_eq!(vm.execute_cycle(), Instruction::Call { nnn: 0x300 });
        assert_eq!(vm.pc(), 0x300);
        assert_eq!(vm.sp(), depth + 1);
        assert!(vm.can_execute_cycle());
        assert_eq!(vm.execute_cycle(), Instruction::Return);
        assert_eq!(vm.pc(), 0x202);
        assert_eq!(vm.sp(), depth);
    }
}

#[test]
fn jump_and_indirect_jump() {
    let mut vm = Chip8::new();
    vm.op_1nnn(0x456);
    assert_eq!(vm.pc(), 0x456);
    vm.op_6xkk(0, 0x10);
    vm.op_bnnn(0x300);
    assert_eq!(vm.pc(), 0x310);
    vm.op_6xkk(0, 0xFF);
    vm.op_bnnn(0xFFF);
    assert_eq!(vm.pc(), 0xFFF + 0xFF);
}

#[test]
fn skips_advance_by_two_only_when_the_condition_holds() {
    let mut vm = Chip8::new();
    vm.op_6xkk(1, 7);
    vm.op_6xkk(2, 7);
    vm.op_6xkk(3, 8);

    vm.op_3xkk(1, 7);
    assert_eq!(vm.pc(), 0x202);
    vm.op_3xkk(1, 8);
    assert_eq!(vm.pc(), 0x202);

    vm.op_4xkk(1, 8);
    assert_eq!(vm.pc(), 0x204);
    vm.op_4xkk(1, 7);
    assert_eq!(vm.pc(), 0x204);

    vm.op_5xy0(1, 2);
    assert_eq!(vm.pc(), 0x206);
    vm.op_5xy0(1, 3);
    assert_eq!(vm.pc(), 0x206);

    vm.op_9xy0(1, 3);
    assert_eq!(vm.pc(), 0x208);
    vm.op_9xy0(1, 2);
    assert_eq!(vm.pc(), 0x208);
}

#[test]
fn skip_in_a_cycle_moves_four_bytes() {
    let mut vm = Chip8::new();
    vm.load_rom(&[0x30, 0x00, 0x60, 0x01, 0x61, 0x02]);
    assert!(vm.can_execute_cycle());
    assert_eq!(vm.execute_cycle(), Instruction::SkipEqImm { x: 0, kk: 0 });
    assert_eq!(vm.pc(), 0x204);
    assert!(vm.can_execute_cycle());
    vm.execute_cycle();
    assert_eq!(vm.register(0), 0);
    assert_eq!(vm.register(1), 2);
}

#[test]
fn key_skips_read_the_line_that_vx_names() {
    let mut vm = Chip8::new();
    vm.op_6xkk(4, 0xB);
    assert!(vm.can_execute_opcode(Instruction::SkipKey { x: 4 }));
    vm.op_ex9e(4);
    assert_eq!(vm.pc(), 0x200);
    vm.op_exa1(4);
    assert_eq!(vm.pc(), 0x202);
    vm.set_key(0xB, true);
    assert!(vm.key(0xB));
    vm.op_ex9e(4);
    assert_eq!(vm.pc(), 0x204);
    vm.op_exa1(4);
    assert_eq!(vm.pc(), 0x204);
    vm.set_key(0xB, false);
    vm.op_ex9e(4);
    assert_eq!(vm.pc(), 0x204);
}

#[test]
fn key_skip_cannot_run_on_a_line_that_does_not_exist() {
    let mut vm = Chip8::new();
    vm.op_6xkk(4, 16);
    assert!(!vm.can_execute_opcode(Instruction::SkipKey { x: 4 }));
    assert!(!vm.can_execute_opcode(Instruction::SkipNotKey { x: 4 }));
    vm.op_6xkk(4, 15);
    assert!(vm.can_execute_opcode(Instruction::SkipKey { x: 4 }));
    assert!(vm.can_execute_opcode(Instruction::SkipNotKey { x: 4 }));
}

#[test]
fn wait_for_key_rewinds_until_a_key_is_pressed() {
    let mut vm = Chip8::new();
    vm.load_rom(&[0xF3, 0x0A, 0x12, 0x02]);
    for _ in 0..5 {
        assert!(vm.can_execute_cycle());
        assert_eq!(vm.execute_cycle(), Instruction::WaitKey { x: 3 });
        assert_eq!(vm.pc(), 0x200);
        assert_eq!(vm.register(3), 0);
    }
    vm.set_key(9, true);
    vm.set_key(6, true);
    assert!(vm.can_execute_cycle());
    vm.execute_cycle();
    assert_eq!(vm.pc(), 0x202);
    assert_eq!(vm.register(3), 6);
    assert!(vm.key(6));
    assert!(vm.key(9));
}

#[test]
fn wait_for_key_takes_line_zero_first() {
    let mut vm = Chip8::new();
    vm.op_6xkk(3, 0xFF);
    vm.set_key(0, true);
    vm.set_key(15, true);
    vm.op_fx0a(3);
    assert_eq!(vm.register(3), 0);
    assert_eq!(vm.pc(), 0x200);
}

#[test]
fn clear_display_then_jump_to_self_for_1000_steps() {
    let mut vm = Chip8::new();
    vm.load_rom(&[0x00, 0xE0, 0x12, 0x02]);
    assert!(vm.can_execute_cycle());
    assert_eq!(vm.execute_cycle(), Instruction::ClearDisplay);
    assert!(vm.can_execute_cycle());
    assert_eq!(vm.execute_cycle(), Instruction::Jump { nnn: 0x202 });
    let settled = vm.pc();
    assert_eq!(settled, 0x202);
    for _ in 2..1000 {
        assert!(vm.can_execute_cycle());
        vm.execute_cycle();
        assert_eq!(vm.pc(), settled);
    }
    assert!(vm.video_frame_buffer().iter().all(|p| *p == 0));
}

#[test]
fn load_five_then_jump() {
    let mut vm = Chip8::new();
    vm.load_rom(&[0x60, 0x05, 0x12, 0x00]);
    assert!(vm.can_execute_cycle());
    assert_eq!(vm.execute_cycle(), Instruction::LoadImm { x: 0, kk: 5 });
    assert_eq!(vm.register(0), 5);
    assert_eq!(vm.pc(), 0x202);
    assert!(vm.can_execute_cycle());
    assert_eq!(vm.execute_cycle(), Instruction::Jump { nnn: 0x200 });
    assert_eq!(vm.register(0), 5);
    assert_eq!(vm.pc(), 0x200);
    for _ in 0..500 {
        assert!(vm.can_execute_cycle());
        vm.execute_cycle();
        assert!(vm.can_execute_cycle());
        vm.execute_cycle();
        assert_eq!(vm.register(0), 5);
        assert_eq!(vm.pc(), 0x200);
    }
}

#[test]
fn load_five_then_jump_to_self() {
    let mut vm = Chip8::new();
    vm.load_rom(&[0x60, 0x05, 0x12, 0x02]);
    assert!(vm.can_execute_cycle());
    vm.execute_cycle();
    assert!(vm.can_execute_cycle());
    vm.execute_cycle();
    for _ in 0..1000 {
        assert_eq!(vm.register(0), 5);
        assert_eq!(vm.pc(), 0x202);
        assert!(vm.can_execute_cycle());
        vm.execute_cycle();
    }
}

#[test]
fn unknown_word_only_moves_the_program_counter() {
    let mut vm = Chip8::new();
    vm.load_rom(&[0x51, 0x21, 0xFF, 0xFF, 0x00, 0x00, 0x8A, 0xB8]);
    for (i, word) in [0x5121u16, 0xFFFF, 0x0000, 0x8AB8].iter().enumerate() {
        assert!(vm.can_execute_cycle());
        assert_eq!(vm.execute_cycle(), Instruction::Unknown { opcode: *word });
        assert_eq!(vm.pc(), 0x202 + 2 * i as u16);
    }
    for x in 0..16u8 {
        assert_eq!(vm.register(x), 0);
    }
    assert_eq!(vm.index(), 0);
    assert_eq!(vm.sp(), 0);
}

#[test]
fn cycle_cannot_run_where_the_word_is_not_in_memory() {
    let mut vm = Chip8::new();
    vm.op_1nnn(4094);
    assert!(vm.can_execute_cycle());
    vm.op_1nnn(4095);
    assert!(!vm.can_execute_cycle());
    vm.op_6xkk(0, 0xFF);
    vm.op_bnnn(0xFFF);
    assert!(!vm.can_execute_cycle());
}

#[test]
fn cycle_cannot_run_a_return_on_an_empty_stack() {
    let mut vm = Chip8::new();
    vm.load_rom(&[0x00, 0xEE]);
    assert!(!vm.can_execute_cycle());
    assert_eq!(vm.pc(), 0x200);
}

#[test]
fn execute_opcode_runs_the_decoded_instruction() {
    let mut vm = Chip8::new();
    vm.execute_opcode(Instruction::LoadImm { x: 3, kk: 9 });
    vm.execute_opcode(Instruction::LoadImm { x: 4, kk: 250 });
    vm.execute_opcode(Instruction::AddReg { x: 3, y: 4 });
    assert_eq!(vm.register(3), 3);
    assert_eq!(vm.register(0xF), 1);
    vm.execute_opcode(Instruction::SetDelay { x: 4 });
    assert_eq!(vm.delay_timer(), 250);
    vm.execute_opcode(Instruction::SetSound { x: 3 });
    assert_eq!(vm.sound_timer(), 3);
    vm.execute_opcode(Instruction::LoadDelay { x: 7 });
    assert_eq!(vm.register(7), 250);
    vm.execute_opcode(Instruction::Unknown { opcode: 0xFFFF });
    assert_eq!(vm.pc(), 0x200);
    vm.execute_opcode(Instruction::Random { x: 8, kk: 0x0F });
    assert!(vm.register(8) < 16);
}
