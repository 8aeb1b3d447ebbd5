use chip8::chip8::Chip8;
use chip8::scheduler::{Scheduler, CPU_HZ, MAX_SLICE_NANOS, TIMER_HZ, UNIT};

fn totals(slices: &[u64]) -> (u64, u64) {
    let mut scheduler = Scheduler::new();
    let (mut cpu, mut timer) = (0u64, 0u64);
    for slice in slices {
        let due = scheduler.advance(*slice);
        cpu += due.cpu_steps as u64;
        timer += due.timer_steps as u64;
    }
    (cpu, timer)
}

#[test]
fn one_second_in_quarter_seconds() {
    assert_eq!(totals(&[250_000_000; 4]), (800, 60));
}

#[test]
fn one_second_in_milliseconds() {
    assert_eq!(totals(&[1_000_000; 1000]), (800, 60));
}

#[test]
fn one_second_in_instruction_periods() {
    assert_eq!(totals(&[1_250_000; 800]), (800, 60));
}

#[test]
fn one_second_in_uneven_slices() {
    let mut slices = vec![7u64; 1000];
    slices.extend([999_993; 999]);
    slices.push(1_000_000_000 - 7_000 - 999 * 999_993);
    assert_eq!(slices.iter().sum::<u64>(), 1_000_000_000);
    assert!(slices.iter().all(|s| *s <= MAX_SLICE_NANOS));
    assert_eq!(totals(&slices), (800, 60));
}

#[test]
fn one_second_in_nanoseconds_pays_out_on_the_period() {
    let mut scheduler = Scheduler::new();
    let mut cpu = 0u32;
    for ns in 1..=2_500_000u64 {
        let due = scheduler.advance(1);
        cpu += due.cpu_steps;
        assert_eq!(cpu as u64, ns / 1_250_000);
    }
}

#[test]
fn a_stall_is_cut_down_to_the_longest_slice() {
    assert_eq!(totals(&[1_000_000_000]), (200, 15));
    assert_eq!(totals(&[u64::MAX]), (200, 15));
    assert_eq!(totals(&[250_000_001]), (200, 15));
}

#[test]
fn constants() {
    assert_eq!(CPU_HZ, 800);
    assert_eq!(TIMER_HZ, 60);
    assert_eq!(UNIT, 1_000_000_000);
    assert_eq!(MAX_SLICE_NANOS, 250_000_000);
}

#[test]
fn nothing_is_due_before_a_period_has_passed() {
    let mut scheduler = Scheduler::new();
    let due = scheduler.advance(0);
    assert_eq!((due.cpu_steps, due.timer_steps), (0, 0));
    assert_eq!(due.sleep_nanos, 1_250_000);
    let due = scheduler.advance(1_249_999);
    assert_eq!((due.cpu_steps, due.timer_steps), (0, 0));
    assert_eq!(due.sleep_nanos, 1);
    let due = scheduler.advance(1);
    assert_eq!((due.cpu_steps, due.timer_steps), (1, 0));
    assert_eq!(due.sleep_nanos, 1_250_000);
}

#[test]
fn timer_steps_come_every_sixtieth_of_a_second() {
    let mut scheduler = Scheduler::new();
    let due = scheduler.advance(16_666_666);
    assert_eq!((due.cpu_steps, due.timer_steps), (13, 0));
    // 40 units short of a timer step: less than a nanosecond.
    assert_eq!(due.sleep_nanos, 0);
    let due = scheduler.advance(1);
    assert_eq!((due.cpu_steps, due.timer_steps), (0, 1));
    // Instruction balance: 16_666_667 ns - 13 periods = 416_667 ns.
    assert_eq!(due.sleep_nanos, 1_250_000 - 416_667);
}

#[test]
fn sleep_never_passes_the_next_due_step() {
    let mut scheduler = Scheduler::new();
    let mut slice = 1u64;
    for _ in 0..5000 {
        slice = (slice * 48_271 + 11) % 3_000_000;
        let due = scheduler.advance(slice);
        assert!(due.sleep_nanos <= 1_250_000);
        let next = scheduler.advance(due.sleep_nanos);
        assert!(next.cpu_steps <= 1 && next.timer_steps <= 1);
        let after = scheduler.advance(1);
        let _ = after;
    }
}

#[test]
fn tick_runs_the_due_cycles_and_timer_steps() {
    let mut vm = Chip8::new();
    // 6A3C: VA = 60; FA15: delay = VA; FA18: sound = VA; 7001: V0 += 1; 1206: jump back.
    vm.load_rom(&[0x6A, 0x3C, 0xFA, 0x15, 0xFA, 0x18, 0x70, 0x01, 0x12, 0x06]);
    let mut scheduler = Scheduler::new();
    let report = scheduler.tick(250_000_000, &mut vm);
    assert!(!report.halted);
    assert_eq!(report.cpu_steps, 200);
    assert_eq!(report.timer_steps, 15);
    assert_eq!(report.sleep_nanos, 1_250_000);
    assert!(report.unknown_opcodes.is_empty());
    // 3 set-up cycles, then 197 cycles of the two-instruction loop.
    assert_eq!(vm.register(0), 99);
    assert_eq!(vm.pc(), 0x208);
    assert_eq!(vm.delay_timer(), 45);
    assert_eq!(vm.sound_timer(), 45);
}

#[test]
fn tick_over_one_second_runs_800_cycles_and_60_timer_steps() {
    for calls in [4u64, 10, 1000] {
        let mut vm = Chip8::new();
        vm.load_rom(&[0x6A, 0xFF, 0xFA, 0x15, 0x12, 0x04]);
        let mut scheduler = Scheduler::new();
        let (mut cpu, mut timer) = (0, 0);
        for _ in 0..calls {
            let report = scheduler.tick(1_000_000_000 / calls, &mut vm);
            assert!(!report.halted);
            cpu += report.cpu_steps;
            timer += report.timer_steps;
        }
        assert_eq!((cpu, timer), (800, 60));
    }
}

#[test]
fn tick_reports_unknown_words_in_order() {
    let mut vm = Chip8::new();
    vm.load_rom(&[0xFF, 0xFF, 0x60, 0x01, 0x51, 0x23, 0x12, 0x06]);
    let mut scheduler = Scheduler::new();
    let report = scheduler.tick(1_250_000 * 4, &mut vm);
    assert!(!report.halted);
    assert_eq!(report.cpu_steps, 4);
    assert_eq!(report.unknown_opcodes, vec![0xFFFF, 0x5123]);
    assert_eq!(vm.register(0), 1);
    assert_eq!(vm.pc(), 0x206);
}

#[test]
fn tick_halts_in_front_of_a_cycle_that_cannot_run() {
    let mut vm = Chip8::new();
    // 6007: V0 = 7; 00EE: return with nothing on the stack.
    vm.load_rom(&[0x60, 0x07, 0x00, 0xEE]);
    vm.op_6xkk(1, 9);
    vm.op_fx15(1);
    let mut scheduler = Scheduler::new();
    let report = scheduler.tick(250_000_000, &mut vm);
    assert!(report.halted);
    assert_eq!(report.cpu_steps, 1);
    assert_eq!(report.timer_steps, 0);
    assert_eq!(vm.register(0), 7);
    assert_eq!(vm.pc(), 0x202);
    assert_eq!(vm.delay_timer(), 9);
    assert!(!vm.can_execute_cycle());
    // The balances were settled: nothing is left over for the next call.
    let next = scheduler.advance(0);
    assert_eq!((next.cpu_steps, next.timer_steps), (0, 0));
}

#[test]
fn tick_with_nothing_due_leaves_the_machine_alone() {
    let mut vm = Chip8::new();
    vm.load_rom(&[0x60, 0x07]);
    let mut scheduler = Scheduler::new();
    let report = scheduler.tick(1_000, &mut vm);
    assert!(!report.halted);
    assert_eq!((report.cpu_steps, report.timer_steps), (0, 0));
    assert_eq!(report.sleep_nanos, 1_249_000);
    assert_eq!(vm.register(0), 0);
    assert_eq!(vm.pc(), 0x200);
}

#[test]
fn clear_display_loop_for_1000_scheduled_cycles() {
    let mut vm = Chip8::new();
    vm.load_rom(&[0x00, 0xE0, 0x12, 0x02]);
    let mut scheduler = Scheduler::new();
    let mut cycles = 0;
    // 1000 instruction periods are 1.25 s: five slices of a quarter second.
    for _ in 0..5 {
        let report = scheduler.tick(250_000_000, &mut vm);
        assert!(!report.halted);
        assert!(report.unknown_opcodes.is_empty());
        cycles += report.cpu_steps;
        assert_eq!(vm.pc(), 0x202);
        assert!(vm.video_frame_buffer().iter().all(|p| *p == 0));
    }
    assert_eq!(cycles, 1000);
}
