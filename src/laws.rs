//! Facts about the instruction semantics that hold for every machine state.

use vstd::prelude::*;

use crate::instruction::Instruction;
use crate::machine::{execute_outcome, execute_spec, model_wf, pc_plus, MachineModel};

verus! {

/// Register-register add leaves `(a + b) mod 256` in `Vx` and sets `VF` to 1
/// exactly when `a + b` exceeds 255, where `a` and `b` are `Vx` and `Vy`
/// before. (With `Vx` being `VF` itself the sum overwrites the flag.)
pub proof fn add_sets_carry(s: MachineModel, x: u8, y: u8)
    requires
        model_wf(s),
        x < 15,
        y < 16,
    ensures
        execute_outcome(s, Instruction::AddReg { x, y }) is Ok,
        execute_spec(s, Instruction::AddReg { x, y }, 0).v[x as int] == (s.v[x as int] + s.v[y as int]) % 256,
        execute_spec(s, Instruction::AddReg { x, y }, 0).v[15] == (if s.v[x as int] + s.v[y as int] > 255 { 1u8 } else { 0u8 }),
{
}

/// Subtract leaves `(a - b) mod 256` in `Vx` and sets `VF` to 1 exactly when
/// `a >= b`, where `a` and `b` are `Vx` and `Vy` before.
pub proof fn sub_sets_no_borrow(s: MachineModel, x: u8, y: u8)
    requires
        model_wf(s),
        x < 15,
        y < 16,
    ensures
        execute_outcome(s, Instruction::Sub { x, y }) is Ok,
        execute_spec(s, Instruction::Sub { x, y }, 0).v[x as int] == (s.v[x as int] - s.v[y as int]) % 256,
        execute_spec(s, Instruction::Sub { x, y }, 0).v[15] == (if s.v[x as int] >= s.v[y as int] { 1u8 } else { 0u8 }),
{
}

/// Shift right sets `VF` to the low bit of `Vx` before the shift and leaves
/// `Vx >> 1` in `Vx`.
pub proof fn shift_right_sets_low_bit(s: MachineModel, x: u8)
    requires
        model_wf(s),
        x < 15,
    ensures
        execute_outcome(s, Instruction::ShiftRight { x }) is Ok,
        execute_spec(s, Instruction::ShiftRight { x }, 0).v[15] == s.v[x as int] & 1,
        execute_spec(s, Instruction::ShiftRight { x }, 0).v[x as int] == s.v[x as int] >> 1,
{
}

/// A call followed at once by a return succeeds whenever the stack has a
/// free slot, and gives back the program counter and stack pointer from
/// before the call; only the stack slot that the call wrote differs.
pub proof fn call_then_return_restores(s: MachineModel, addr: u16)
    requires
        model_wf(s),
        s.sp < 16,
        addr < 0x1000,
    ensures
        execute_outcome(s, Instruction::Call { addr }) is Ok,
        execute_outcome(execute_spec(s, Instruction::Call { addr }, 0), Instruction::Return) is Ok,
        execute_spec(execute_spec(s, Instruction::Call { addr }, 0), Instruction::Return, 0).pc == s.pc,
        execute_spec(execute_spec(s, Instruction::Call { addr }, 0), Instruction::Return, 0).sp == s.sp,
        execute_spec(execute_spec(s, Instruction::Call { addr }, 0), Instruction::Return, 0) == (MachineModel { stack: s.stack.update(s.sp as int, s.pc), ..s }),
{
}

/// Skip-if-equal moves the program counter on by 4 when its operands are
/// equal and by 2 when they differ, in both its immediate and its register
/// form.
pub proof fn skip_if_equal_advances(s: MachineModel, x: u8, y: u8, kk: u8)
    requires
        model_wf(s),
        x < 16,
        y < 16,
    ensures
        execute_spec(s, Instruction::SkipEqImm { x, kk }, 0).pc == pc_plus(s.pc, if s.v[x as int] == kk { 4 } else { 2 }),
        execute_spec(s, Instruction::SkipEqReg { x, y }, 0).pc == pc_plus(s.pc, if s.v[x as int] == s.v[y as int] { 4 } else { 2 }),
        execute_outcome(s, Instruction::SkipEqImm { x, kk }) is Ok,
        execute_outcome(s, Instruction::SkipEqReg { x, y }) is Ok,
{
}

/// Clearing the screen leaves every pixel unset and the display marked as
/// changed, whatever it held before; doing it twice gives the same display.
pub proof fn clear_screen_blanks_display(s: MachineModel)
    requires
        model_wf(s),
    ensures
        execute_outcome(s, Instruction::ClearScreen) is Ok,
        execute_spec(s, Instruction::ClearScreen, 0).gfx == Seq::new(2048, |k: int| false),
        execute_spec(s, Instruction::ClearScreen, 0).redraw,
        execute_spec(execute_spec(s, Instruction::ClearScreen, 0), Instruction::ClearScreen, 0).gfx
            == execute_spec(s, Instruction::ClearScreen, 0).gfx,
{
}

} // verus!
