//! Decoding of instruction words into instruction kinds with typed operands.

use vstd::prelude::*;

use crate::opcode::{nibble_of, OpCode};

verus! {

/// One decoded instruction. Register operands `x` and `y` and the sprite
/// height `n` are nibbles (below 16); `addr` holds 12 bits.
#[derive(Clone, Copy, Debug, PartialEq, Eq, Structural)]
pub enum Instruction {
    /// `00E0`
    ClearScreen,
    /// `00EE`
    Return,
    /// Any other word of the `0` family: a deliberate null action.
    Nop,
    /// `1nnn`
    Jump { addr: u16 },
    /// `2nnn`
    Call { addr: u16 },
    /// `3xkk`
    SkipEqImm { x: u8, kk: u8 },
    /// `4xkk`
    SkipNeqImm { x: u8, kk: u8 },
    /// `5xy0`
    SkipEqReg { x: u8, y: u8 },
    /// `6xkk`
    LoadImm { x: u8, kk: u8 },
    /// `7xkk`
    AddImm { x: u8, kk: u8 },
    /// `8xy0`
    Move { x: u8, y: u8 },
    /// `8xy1`
    Or { x: u8, y: u8 },
    /// `8xy2`
    And { x: u8, y: u8 },
    /// `8xy3`
    Xor { x: u8, y: u8 },
    /// `8xy4`
    AddReg { x: u8, y: u8 },
    /// `8xy5`
    Sub { x: u8, y: u8 },
    /// `8xy6`
    ShiftRight { x: u8 },
    /// `8xy7`
    SubReverse { x: u8, y: u8 },
    /// `8xyE`
    ShiftLeft { x: u8 },
    /// `9xy0`
    SkipNeqReg { x: u8, y: u8 },
    /// `Annn`
    SetIndex { addr: u16 },
    /// `Bnnn`
    JumpOffset { addr: u16 },
    /// `Cxkk`
    RandomAnd { x: u8, kk: u8 },
    /// `Dxyn`
    Draw { x: u8, y: u8, n: u8 },
    /// `Ex9_`
    SkipKeyPressed { x: u8 },
    /// `ExA_`
    SkipKeyNotPressed { x: u8 },
    /// `Fx07`
    LoadDelay { x: u8 },
    /// `Fx0A`
    WaitKey { x: u8 },
    /// `Fx15`
    SetDelay { x: u8 },
    /// `Fx18`
    SetSound { x: u8 },
    /// `Fx1E`
    AddIndex { x: u8 },
    /// A word that no instruction kind matches.
    Unknown { op: u16 },
}

/// Operand fields are in range: register indices and heights are nibbles,
/// addresses have 12 bits.
pub open spec fn instruction_wf(ins: Instruction) -> bool {
    match ins {
        Instruction::Jump { addr } | Instruction::Call { addr } | Instruction::SetIndex { addr }
        | Instruction::JumpOffset { addr } => addr < 0x1000,
        Instruction::SkipEqImm { x, .. } | Instruction::SkipNeqImm { x, .. }
        | Instruction::LoadImm { x, .. } | Instruction::AddImm { x, .. }
        | Instruction::RandomAnd { x, .. } | Instruction::ShiftRight { x }
        | Instruction::ShiftLeft { x } | Instruction::SkipKeyPressed { x }
        | Instruction::SkipKeyNotPressed { x } | Instruction::LoadDelay { x }
        | Instruction::WaitKey { x } | Instruction::SetDelay { x } | Instruction::SetSound { x }
        | Instruction::AddIndex { x } => x < 16,
        Instruction::SkipEqReg { x, y } | Instruction::Move { x, y } | Instruction::Or { x, y }
        | Instruction::And { x, y } | Instruction::Xor { x, y } | Instruction::AddReg { x, y }
        | Instruction::Sub { x, y } | Instruction::SubReverse { x, y }
        | Instruction::SkipNeqReg { x, y } => x < 16 && y < 16,
        Instruction::Draw { x, y, n } => x < 16 && y < 16 && n < 16,
        _ => true,
    }
}

/// The instruction that the word `w` encodes. The top nibble picks the
/// family; families `0`, `8`, `E` and `F` look at further nibbles.
pub open spec fn decode_spec(w: u16) -> Instruction {
    let top = nibble_of(w, 1);
    let x = nibble_of(w, 2);
    let y = nibble_of(w, 3);
    let n = nibble_of(w, 4);
    let addr = w & 0x0FFFu16;
    let kk = (w & 0x00FFu16) as u8;
    if top == 0 {
        if w == 0x00E0 {
            Instruction::ClearScreen
        } else if w == 0x00EE {
            Instruction::Return
        } else {
            Instruction::Nop
        }
    } else if top == 1 {
        Instruction::Jump { addr }
    } else if top == 2 {
        Instruction::Call { addr }
    } else if top == 3 {
        Instruction::SkipEqImm { x, kk }
    } else if top == 4 {
        Instruction::SkipNeqImm { x, kk }
    } else if top == 5 {
        if n == 0 {
            Instruction::SkipEqReg { x, y }
        } else {
            Instruction::Unknown { op: w }
        }
    } else if top == 6 {
        Instruction::LoadImm { x, kk }
    } else if top == 7 {
        Instruction::AddImm { x, kk }
    } else if top == 8 {
        if n == 0 {
            Instruction::Move { x, y }
        } else if n == 1 {
            Instruction::Or { x, y }
        } else if n == 2 {
            Instruction::And { x, y }
        } else if n == 3 {
            Instruction::Xor { x, y }
        } else if n == 4 {
            Instruction::AddReg { x, y }
        } else if n == 5 {
            Instruction::Sub { x, y }
        } else if n == 6 {
            Instruction::ShiftRight { x }
        } else if n == 7 {
            Instruction::SubReverse { x, y }
        } else if n == 0xE {
            Instruction::ShiftLeft { x }
        } else {
            Instruction::Unknown { op: w }
        }
    } else if top == 9 {
        if n == 0 {
            Instruction::SkipNeqReg { x, y }
        } else {
            Instruction::Unknown { op: w }
        }
    } else if top == 0xA {
        Instruction::SetIndex { addr }
    } else if top == 0xB {
        Instruction::JumpOffset { addr }
    } else if top == 0xC {
        Instruction::RandomAnd { x, kk }
    } else if top == 0xD {
        Instruction::Draw { x, y, n }
    } else if top == 0xE {
        if y == 9 {
            Instruction::SkipKeyPressed { x }
        } else if y == 0xA {
            Instruction::SkipKeyNotPressed { x }
        } else {
            Instruction::Unknown { op: w }
        }
    } else if y == 0 && n == 7 {
        Instruction::LoadDelay { x }
    } else if y == 0 && n == 0xA {
        Instruction::WaitKey { x }
    } else if y == 1 && n == 5 {
        Instruction::SetDelay { x }
    } else if y == 1 && n == 8 {
        Instruction::SetSound { x }
    } else if y == 1 && n == 0xE {
        Instruction::AddIndex { x }
    } else {
        Instruction::Unknown { op: w }
    }
}

/// Decodes the word `w`.
pub fn decode(w: u16) -> (r: Instruction)
    ensures
        r == decode_spec(w),
        instruction_wf(r),
{
    let top = w.extract_nibble_value(1);
    let x = w.extract_nibble_value(2);
    let y = w.extract_nibble_value(3);
    let n = w.extract_nibble_value(4);
    let addr = w.get_argument_sum(0);
    let kk = w.get_argument_sum(1) as u8;
    assert((w & 0x0FFFu16) < 0x1000) by (bit_vector);
    match top {
        0 => {
            if w == 0x00E0 {
                Instruction::ClearScreen
            } else if w == 0x00EE {
                Instruction::Return
            } else {
                Instruction::Nop
            }
        },
        1 => Instruction::Jump { addr },
        2 => Instruction::Call { addr },
        3 => Instruction::SkipEqImm { x, kk },
        4 => Instruction::SkipNeqImm { x, kk },
        5 => {
            if n == 0 {
                Instruction::SkipEqReg { x, y }
            } else {
                Instruction::Unknown { op: w }
            }
        },
        6 => Instruction::LoadImm { x, kk },
        7 => Instruction::AddImm { x, kk },
        8 => match n {
            0 => Instruction::Move { x, y },
            1 => Instruction::Or { x, y },
            2 => Instruction::And { x, y },
            3 => Instruction::Xor { x, y },
            4 => Instruction::AddReg { x, y },
            5 => Instruction::Sub { x, y },
            6 => Instruction::ShiftRight { x },
            7 => Instruction::SubReverse { x, y },
            0xE => Instruction::ShiftLeft { x },
            _ => Instruction::Unknown { op: w },
        },
        9 => {
            if n == 0 {
                Instruction::SkipNeqReg { x, y }
            } else {
                Instruction::Unknown { op: w }
            }
        },
        0xA => Instruction::SetIndex { addr },
        0xB => Instruction::JumpOffset { addr },
        0xC => Instruction::RandomAnd { x, kk },
        0xD => Instruction::Draw { x, y, n },
        0xE => match y {
            9 => Instruction::SkipKeyPressed { x },
            0xA => Instruction::SkipKeyNotPressed { x },
            _ => Instruction::Unknown { op: w },
        },
        _ => match (y, n) {
            (0, 7) => Instruction::LoadDelay { x },
            (0, 0xA) => Instruction::WaitKey { x },
            (1, 5) => Instruction::SetDelay { x },
            (1, 8) => Instruction::SetSound { x },
            (1, 0xE) => Instruction::AddIndex { x },
            _ => Instruction::Unknown { op: w },
        },
    }
}

} // verus!
