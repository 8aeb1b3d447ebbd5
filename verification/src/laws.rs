//! Laws of the machine model and of the scheduler's accounting that relate
//! several operations to one another.

use vstd::prelude::*;
use crate::instruction::{decode_spec, Instruction};
use crate::machine::{Machine, FLAG};
use crate::sprite::{lemma_blit_twice, lemma_flip};
use crate::scheduler::{Balances, CPU_HZ, MAX_SLICE_NANOS, TIMER_HZ, UNIT};

verus! {

/// Two draw instructions in a row with the same operands restore the frame
/// buffer, provided that neither position register is the flag register,
/// which the first draw overwrites.
pub proof fn lemma_draw_twice(m: Machine, x: u8, y: u8, n: u8)
    requires
        m.wf(),
        x < 16,
        y < 16,
        x != FLAG,
        y != FLAG,
    ensures
        m.draw(x, y, n).draw(x, y, n).frame == m.frame,
        m.draw(x, y, n).draw(x, y, n).memory == m.memory,
{
    let once = m.draw(x, y, n);
    assert(once.sprite(n) =~= m.sprite(n));
    assert(once.origin_x(x) == m.origin_x(x));
    assert(once.origin_y(y) == m.origin_y(y));
    lemma_blit_twice(m.frame, m.sprite(n), m.origin_x(x), m.origin_y(y));
}

/// A call followed by a return brings the program counter back to where it
/// stood when the call ran, and the stack pointer to its depth before the
/// call. This holds at every depth that leaves room for the call: 0 to 15
/// live return addresses before it, 1 to 16 after it.
pub proof fn lemma_call_return(m: Machine, nnn: u16)
    requires
        m.wf(),
        m.sp < 16,
    ensures
        m.call(nnn).wf(),
        m.call(nnn).can_execute(Instruction::Return),
        m.call(nnn).ret().pc == m.pc,
        m.call(nnn).ret().sp == m.sp,
        forall|i: int| 0 <= i < m.sp ==> m.call(nnn).ret().stack[i] == m.stack[i],
{
}

/// A cycle that runs a call instruction, followed by a return, leaves the
/// program counter on the instruction after the call.
pub proof fn lemma_call_cycle_return(m: Machine, nnn: u16, random: u8)
    requires
        m.wf(),
        m.can_fetch(),
        decode_spec(m.fetch()) == (Instruction::Call { nnn }),
        m.sp < 16,
    ensures
        m.can_step(),
        m.step(random).pc == nnn,
        m.step(random).can_execute(Instruction::Return),
        m.step(random).ret().pc == m.pc + 2,
        m.step(random).ret().sp == m.sp,
{
}

/// Storing `V0..=Vx` and loading them back through the same index register
/// leaves every register as it was.
pub proof fn lemma_store_load_regs(m: Machine, x: u8)
    requires
        m.wf(),
        x < 16,
        m.index + x < 4096,
    ensures
        m.store_regs(x).can_execute(Instruction::LoadRegs { x }),
        m.store_regs(x).load_regs(x).registers == m.registers,
        m.store_regs(x).load_regs(x) == m.store_regs(x),
{
    let stored = m.store_regs(x);
    let loaded = stored.load_regs(x);
    assert(loaded.registers =~= m.registers);
    assert(loaded =~= stored);
}

/// Every instruction that can run keeps the machine well formed, whatever
/// byte the random instruction draws.
pub proof fn lemma_execute_preserves_wf(m: Machine, inst: Instruction, random: u8)
    requires
        m.wf(),
        inst.wf(),
        m.can_execute(inst),
    ensures
        m.execute(inst, random).wf(),
{
    match inst {
        Instruction::Draw { x, y, n } => {
            let after = m.draw(x, y, n);
            assert forall|p: int| 0 <= p < 2048 implies after.frame[p] <= 1 by {
                lemma_flip(m.frame[p]);
            }
        },
        _ => {},
    }
}

/// The sum of a sequence of time slices.
pub open spec fn total_nanos(slices: Seq<nat>) -> nat
    decreases slices.len(),
{
    if slices.len() == 0 {
        0
    } else {
        total_nanos(slices.drop_last()) + slices.last()
    }
}

impl Balances {
    /// The balances after one call of `advance` for each slice, in order.
    pub open spec fn after(self, slices: Seq<nat>) -> Balances
        decreases slices.len(),
    {
        if slices.len() == 0 {
            self
        } else {
            self.after(slices.drop_last()).credited(slices.last()).drained()
        }
    }

    /// The instruction cycles that those calls pay out, all together.
    pub open spec fn cpu_steps_over(self, slices: Seq<nat>) -> nat
        decreases slices.len(),
    {
        if slices.len() == 0 {
            0
        } else {
            self.cpu_steps_over(slices.drop_last()) + self.after(slices.drop_last()).credited(
                slices.last(),
            ).cpu_due()
        }
    }

    /// The timer steps that those calls pay out, all together.
    pub open spec fn timer_steps_over(self, slices: Seq<nat>) -> nat
        decreases slices.len(),
    {
        if slices.len() == 0 {
            0
        } else {
            self.timer_steps_over(slices.drop_last()) + self.after(slices.drop_last()).credited(
                slices.last(),
            ).timer_due()
        }
    }
}

/// However elapsed time is cut into calls, none longer than the longest
/// slice, the calls together pay out as many steps as one division of the
/// whole time would: the steps depend on the sum of the slices alone.
pub proof fn lemma_steps_depend_on_total(start: Balances, slices: Seq<nat>)
    requires
        start.wf(),
        forall|i: int| 0 <= i < slices.len() ==> slices[i] <= MAX_SLICE_NANOS,
    ensures
        start.after(slices).wf(),
        start.cpu_steps_over(slices) == (start.cpu + total_nanos(slices) * CPU_HZ) / (UNIT as int),
        start.after(slices).cpu == (start.cpu + total_nanos(slices) * CPU_HZ) % (UNIT as int),
        start.timer_steps_over(slices) == (start.timer + total_nanos(slices) * TIMER_HZ) / (
        UNIT as int),
        start.after(slices).timer == (start.timer + total_nanos(slices) * TIMER_HZ) % (UNIT as int),
    decreases slices.len(),
{
    if slices.len() > 0 {
        lemma_steps_depend_on_total(start, slices.drop_last());
    }
}

/// From a fresh scheduler, calls whose slices add up to exactly one second
/// pay out exactly `CPU_HZ` instruction cycles and `TIMER_HZ` timer steps,
/// and leave both balances empty.
pub proof fn lemma_one_second(slices: Seq<nat>)
    requires
        forall|i: int| 0 <= i < slices.len() ==> slices[i] <= MAX_SLICE_NANOS,
        total_nanos(slices) == UNIT,
    ensures
        (Balances { cpu: 0, timer: 0 }).cpu_steps_over(slices) == 800,
        (Balances { cpu: 0, timer: 0 }).timer_steps_over(slices) == 60,
        (Balances { cpu: 0, timer: 0 }).after(slices) == (Balances { cpu: 0, timer: 0 }),
{
    lemma_steps_depend_on_total(Balances { cpu: 0, timer: 0 }, slices);
}

} // verus!
