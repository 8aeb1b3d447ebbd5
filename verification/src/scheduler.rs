//! The fixed-cadence scheduler. It keeps, for the instruction cadence and for
//! the timer cadence, the time that has passed and is not yet paid out in
//! steps, and turns elapsed wall-clock time into a number of instruction
//! cycles and timer steps that are due.
//!
//! Time is counted in whole nanoseconds. So that both periods are whole
//! numbers, a balance holds nanoseconds multiplied by the cadence's
//! frequency: one step is due for every `UNIT` of it.

use vstd::prelude::*;
use crate::chip8::Chip8;
use crate::instruction::Instruction;
use crate::machine::Machine;

verus! {

/// Instruction cycles per second.
pub const CPU_HZ: u64 = 800;

/// Timer steps per second.
pub const TIMER_HZ: u64 = 60;

/// Nanoseconds in a second; also the balance that pays for one step.
pub const UNIT: u64 = 1_000_000_000;

/// The longest stretch of elapsed time, in nanoseconds, that one call
/// credits: a quarter of a second. What a stall adds beyond it is dropped.
pub const MAX_SLICE_NANOS: u64 = 250_000_000;

/// Elapsed time cut down to the longest slice.
pub open spec fn clamp_slice(elapsed_nanos: nat) -> nat {
    if elapsed_nanos > MAX_SLICE_NANOS {
        MAX_SLICE_NANOS as nat
    } else {
        elapsed_nanos
    }
}

/// The two balances of a scheduler.
pub struct Balances {
    /// Nanoseconds times `CPU_HZ` not yet paid out in instruction cycles.
    pub cpu: nat,
    /// Nanoseconds times `TIMER_HZ` not yet paid out in timer steps.
    pub timer: nat,
}

impl Balances {
    /// Neither cadence has a step due.
    pub open spec fn wf(self) -> bool {
        self.cpu < UNIT && self.timer < UNIT
    }

    /// The balances with the clamped elapsed time added to both.
    pub open spec fn credited(self, elapsed_nanos: nat) -> Balances {
        Balances {
            cpu: self.cpu + clamp_slice(elapsed_nanos) * (CPU_HZ as nat),
            timer: self.timer + clamp_slice(elapsed_nanos) * (TIMER_HZ as nat),
        }
    }

    /// Instruction cycles that the balance pays for.
    pub open spec fn cpu_due(self) -> nat {
        self.cpu / (UNIT as nat)
    }

    /// Timer steps that the balance pays for.
    pub open spec fn timer_due(self) -> nat {
        self.timer / (UNIT as nat)
    }

    /// The balances after every due step is paid out.
    pub open spec fn drained(self) -> Balances {
        Balances { cpu: self.cpu % (UNIT as nat), timer: self.timer % (UNIT as nat) }
    }

    /// Whole nanoseconds until the next step of either cadence is due.
    pub open spec fn sleep_nanos(self) -> nat {
        let cpu_wait = (UNIT - self.cpu) / (CPU_HZ as int);
        let timer_wait = (UNIT - self.timer) / (TIMER_HZ as int);
        if cpu_wait <= timer_wait {
            cpu_wait as nat
        } else {
            timer_wait as nat
        }
    }
}

/// What one call of `advance` decided.
#[derive(Clone, Copy, Debug, PartialEq, Eq, Structural)]
pub struct Due {
    /// Instruction cycles to run now.
    pub cpu_steps: u32,
    /// Timer steps to run now, after the instruction cycles.
    pub timer_steps: u32,
    /// Nanoseconds to sleep afterwards.
    pub sleep_nanos: u64,
}

/// What one call of `tick` did.
pub struct TickReport {
    /// Instruction cycles that ran.
    pub cpu_steps: u32,
    /// Timer steps that ran.
    pub timer_steps: u32,
    /// Nanoseconds to sleep before the next call.
    pub sleep_nanos: u64,
    /// The fetched words that matched no instruction, in order.
    pub unknown_opcodes: Vec<u16>,
    /// Whether a due instruction cycle could not run, so that the machine
    /// was left in front of it.
    pub halted: bool,
}

/// Whether a call of `tick` that reports `report` took the machine from
/// `before` to `after`: as many instruction cycles ran as the report
/// counts, drawing `randoms` in order, each in a state in which it could run;
/// the timer steps followed; and the report lists the unknown words that the
/// cycles fetched.
pub open spec fn ran(before: Machine, randoms: Seq<u8>, report: TickReport, after: Machine) -> bool {
    &&& randoms.len() == report.cpu_steps
    &&& before.can_run(randoms)
    &&& after == before.run(randoms).tick_timers_n(report.timer_steps as nat)
    &&& report.unknown_opcodes@ == before.unknown_words(randoms)
}

/// The scheduler. Between calls neither balance holds a whole step.
pub struct Scheduler {
    cpu_time: u64,
    timer_time: u64,
}

impl View for Scheduler {
    type V = Balances;

    closed spec fn view(&self) -> Balances {
        Balances { cpu: self.cpu_time as nat, timer: self.timer_time as nat }
    }
}

impl Scheduler {
    /// A scheduler with nothing on either balance.
    pub fn new() -> (scheduler: Self)
        ensures
            scheduler@ == (Balances { cpu: 0, timer: 0 }),
            scheduler@.wf(),
    {
        Scheduler { cpu_time: 0, timer_time: 0 }
    }

    /// Credits the elapsed time, cut down to the longest slice, to both
    /// balances, then pays out one period at a time until no step is due.
    /// Reports how many steps of each cadence were paid out and for how
    /// long the caller can sleep without passing the next due step.
    pub fn advance(&mut self, elapsed_nanos: u64) -> (due: Due)
        requires
            old(self)@.wf(),
        ensures
            final(self)@ == old(self)@.credited(elapsed_nanos as nat).drained(),
            final(self)@.wf(),
            due.cpu_steps == old(self)@.credited(elapsed_nanos as nat).cpu_due(),
            due.timer_steps == old(self)@.credited(elapsed_nanos as nat).timer_due(),
            due.sleep_nanos == final(self)@.sleep_nanos(),
            final(self)@.cpu + due.sleep_nanos * CPU_HZ <= UNIT,
            final(self)@.timer + due.sleep_nanos * TIMER_HZ <= UNIT,
            final(self)@.cpu + (due.sleep_nanos + 1) * CPU_HZ > UNIT || final(self)@.timer + (
            due.sleep_nanos + 1) * TIMER_HZ > UNIT,
    {
        let dt = if elapsed_nanos > MAX_SLICE_NANOS {
            MAX_SLICE_NANOS
        } else {
            elapsed_nanos
        };
        self.cpu_time += dt * CPU_HZ;
        self.timer_time += dt * TIMER_HZ;
        let ghost credited = self@;

        let mut cpu_steps: u32 = 0;
        let mut timer_steps: u32 = 0;
        loop
            invariant
                credited == old(self)@.credited(elapsed_nanos as nat),
                credited.cpu <= UNIT + MAX_SLICE_NANOS * CPU_HZ,
                credited.timer <= UNIT + MAX_SLICE_NANOS * TIMER_HZ,
                cpu_steps * UNIT + self.cpu_time == credited.cpu,
                timer_steps * UNIT + self.timer_time == credited.timer,
            ensures
                self.cpu_time < UNIT,
                self.timer_time < UNIT,
            decreases self.cpu_time + self.timer_time,
        {
            if self.cpu_time >= UNIT {
                cpu_steps += 1;
                self.cpu_time -= UNIT;
            } else if self.timer_time >= UNIT {
                timer_steps += 1;
                self.timer_time -= UNIT;
            } else {
                break ;
            }
        }

        let cpu_wait = (UNIT - self.cpu_time) / CPU_HZ;
        let timer_wait = (UNIT - self.timer_time) / TIMER_HZ;
        let sleep_nanos = if cpu_wait <= timer_wait {
            cpu_wait
        } else {
            timer_wait
        };
        Due { cpu_steps, timer_steps, sleep_nanos }
    }

    /// Accounts for the elapsed time as `advance` does and runs what is due
    /// on the machine: first the instruction cycles, then the timer steps.
    ///
    /// Before each cycle the machine is asked whether the cycle can run.
    /// Where it cannot, the machine is left as it stands in front of that
    /// cycle, nothing more runs in this call, and the report says `halted`.
    /// The balances are settled either way.
    pub fn tick(&mut self, elapsed_nanos: u64, chip8: &mut Chip8) -> (report: TickReport)
        requires
            old(self)@.wf(),
            old(chip8)@.wf(),
        ensures
            final(self)@ == old(self)@.credited(elapsed_nanos as nat).drained(),
            final(self)@.wf(),
            final(chip8)@.wf(),
            report.sleep_nanos == final(self)@.sleep_nanos(),
            !report.halted ==> report.cpu_steps == old(self)@.credited(
                elapsed_nanos as nat,
            ).cpu_due() && report.timer_steps == old(self)@.credited(
                elapsed_nanos as nat,
            ).timer_due(),
            report.halted ==> report.cpu_steps < old(self)@.credited(elapsed_nanos as nat).cpu_due()
                && report.timer_steps == 0 && !final(chip8)@.can_step(),
            exists|randoms: Seq<u8>| #[trigger] ran(old(chip8)@, randoms, report, final(chip8)@),
    {
        let due = self.advance(elapsed_nanos);
        let mut unknown_opcodes: Vec<u16> = Vec::new();
        let mut halted = false;
        let mut cpu_steps: u32 = 0;
        let ghost mut randoms: Seq<u8> = Seq::empty();
        while !halted && cpu_steps < due.cpu_steps
            invariant
                cpu_steps <= due.cpu_steps,
                chip8@.wf(),
                randoms.len() == cpu_steps,
                old(chip8)@.can_run(randoms),
                chip8@ == old(chip8)@.run(randoms),
                unknown_opcodes@ == old(chip8)@.unknown_words(randoms),
                halted ==> cpu_steps < due.cpu_steps && !chip8@.can_step(),
            decreases
                    due.cpu_steps - cpu_steps + if halted {
                        0int
                    } else {
                        1int
                    },
        {
            if chip8.can_execute_cycle() {
                let ghost before = chip8@;
                let ghost earlier = randoms;
                let inst = chip8.execute_cycle();
                proof {
                    let random = choose|random: u8| chip8@ == #[trigger] before.step(random);
                    randoms = earlier.push(random);
                    assert(randoms.drop_last() =~= earlier);
                    assert(randoms.last() == random);
                }
                if let Instruction::Unknown { opcode } = inst {
                    unknown_opcodes.push(opcode);
                }
                cpu_steps += 1;
            } else {
                halted = true;
            }
        }
        let ghost stepped = chip8@;
        let mut timer_steps: u32 = 0;
        if !halted {
            while timer_steps < due.timer_steps
                invariant
                    timer_steps <= due.timer_steps,
                    chip8@.wf(),
                    chip8@ == stepped.tick_timers_n(timer_steps as nat),
                decreases due.timer_steps - timer_steps,
            {
                chip8.update_timers();
                timer_steps += 1;
            }
        }
        let report = TickReport {
            cpu_steps,
            timer_steps,
            sleep_nanos: due.sleep_nanos,
            unknown_opcodes,
            halted,
        };
        assert(ran(old(chip8)@, randoms, report, chip8@));
        report
    }
}

} // verus!
