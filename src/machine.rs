//! Machine state, its abstract model, and the semantics of each instruction.

use vstd::prelude::*;

use crate::instruction::{decode, decode_spec, instruction_wf, Instruction};
use crate::random::random_byte;

verus! {

/// Bytes of addressable memory.
pub const MEMORY_SIZE: usize = 4096;

/// Address at which programs are loaded and execution starts.
pub const PROGRAM_START: usize = 0x200;

/// Display width in pixels.
pub const DISPLAY_WIDTH: usize = 64;

/// Display height in pixels.
pub const DISPLAY_HEIGHT: usize = 32;

/// Number of return addresses the stack holds.
pub const STACK_DEPTH: usize = 16;

/// Bytes of the built-in font table at the start of memory.
pub const FONT_SIZE: usize = 80;

/// The flat byte store.
pub struct Memory {
    pub ram: [u8; 4096],
}

/// General registers `V0` to `VF`, the index register and the program counter.
pub struct Registers {
    pub v: [u8; 16],
    pub i: u16,
    pub program_counter: u16,
}

/// The monochrome bitmap, row by row, and the flag that says it changed.
pub struct Graphics {
    pub gfx: [bool; 2048],
    pub redraw: bool,
}

/// The two countdown values, which the host decrements.
pub struct Timers {
    pub delay_timer: u8,
    pub sound_timer: u8,
}

/// Return addresses; `stack_pointer` is the number of them in use.
pub struct Stack {
    pub stack: [u16; 16],
    pub stack_pointer: u16,
}

/// Which of the sixteen keys are held down; written by the host.
pub struct Keypad {
    pub keys: [bool; 16],
}

/// The whole machine.
pub struct Chip8 {
    pub memory: Memory,
    pub registers: Registers,
    pub graphics: Graphics,
    pub timers: Timers,
    pub stack: Stack,
    pub keypad: Keypad,
    pub rng: rand::rngs::ThreadRng,
}

/// Conditions under which the machine refuses to go on.
#[derive(Clone, Copy, Debug, PartialEq, Eq, Structural)]
pub enum Chip8Error {
    /// An instruction fetch or a sprite read would pass the end of memory.
    MemoryOutOfBounds,
    /// A call with every stack slot in use, or a return with the pointer past the stack.
    StackOverflow,
    /// A return with an empty stack.
    StackUnderflow,
    /// The word matches no instruction kind.
    UnknownOpcode { op: u16 },
    /// A program longer than the memory above the program start.
    ProgramTooLarge,
}

/// The machine as mathematical values.
pub struct MachineModel {
    pub ram: Seq<u8>,
    pub v: Seq<u8>,
    pub i: u16,
    pub pc: u16,
    pub stack: Seq<u16>,
    pub sp: u16,
    pub gfx: Seq<bool>,
    pub redraw: bool,
    pub delay: u8,
    pub sound: u8,
    pub keys: Seq<bool>,
}

/// Every part of the model has the size of the part of the machine it stands for.
pub open spec fn model_wf(s: MachineModel) -> bool {
    &&& s.ram.len() == 4096
    &&& s.v.len() == 16
    &&& s.stack.len() == 16
    &&& s.gfx.len() == 2048
    &&& s.keys.len() == 16
}

/// The glyphs of the hexadecimal digits, five rows of four pixels each.
pub open spec fn font_set() -> Seq<u8> {
    seq![
        0xF0u8, 0x90, 0x90, 0x90, 0xF0, 0x20, 0x60, 0x20, 0x20, 0x70,
        0xF0, 0x10, 0xF0, 0x80, 0xF0, 0xF0, 0x10, 0xF0, 0x10, 0xF0,
        0x90, 0x90, 0xF0, 0x10, 0x10, 0xF0, 0x80, 0xF0, 0x10, 0xF0,
        0xF0, 0x80, 0xF0, 0x90, 0xF0, 0xF0, 0x10, 0x20, 0x40, 0x40,
        0xF0, 0x90, 0xF0, 0x90, 0xF0, 0xF0, 0x90, 0xF0, 0x10, 0xF0,
        0xF0, 0x90, 0xF0, 0x90, 0x90, 0xE0, 0x90, 0xE0, 0x90, 0xE0,
        0xF0, 0x80, 0x80, 0x80, 0xF0, 0xE0, 0x90, 0x90, 0x90, 0xE0,
        0xF0, 0x80, 0xF0, 0x80, 0xF0, 0xF0, 0x80, 0xF0, 0x80, 0x80,
    ]
}

/// The machine right after initialization: the font at the start of memory,
/// the program counter at the program start, everything else zero.
pub open spec fn initial_model() -> MachineModel {
    MachineModel {
        ram: font_set() + Seq::new(4016, |k: int| 0u8),
        v: Seq::new(16, |k: int| 0u8),
        i: 0,
        pc: 0x200,
        stack: Seq::new(16, |k: int| 0u16),
        sp: 0,
        gfx: Seq::new(2048, |k: int| false),
        redraw: false,
        delay: 0,
        sound: 0,
        keys: Seq::new(16, |k: int| false),
    }
}

/// The program counter `pc` moved on by `n` bytes, wrapping at 16 bits.
pub open spec fn pc_plus(pc: u16, n: int) -> u16 {
    ((pc + n) % 0x10000) as u16
}

/// Moves on to the next instruction.
pub open spec fn advanced(s: MachineModel) -> MachineModel {
    MachineModel { pc: pc_plus(s.pc, 2), ..s }
}

/// Skips the next instruction when `cond` holds, else moves on to it.
pub open spec fn skipped_if(s: MachineModel, cond: bool) -> MachineModel {
    MachineModel { pc: pc_plus(s.pc, if cond { 4 } else { 2 }), ..s }
}

/// Writes `val` to register `x` and moves on.
pub open spec fn with_register(s: MachineModel, x: u8, val: u8) -> MachineModel {
    MachineModel { v: s.v.update(x as int, val), pc: pc_plus(s.pc, 2), ..s }
}

/// Writes `flag` to `VF`, then `val` to register `x`, and moves on.
pub open spec fn with_flag_and_register(s: MachineModel, x: u8, flag: u8, val: u8) -> MachineModel {
    MachineModel { v: s.v.update(15, flag).update(x as int, val), pc: pc_plus(s.pc, 2), ..s }
}

/// Whether column `col` (0 is the leftmost) of a sprite row `byte` is set.
pub open spec fn sprite_bit(byte: u8, col: int) -> bool {
    byte & (0x80u8 >> (col as u8)) != 0
}

/// How far `p` lies past `origin` going forward around a circle of `m` points.
pub open spec fn wrapped_offset(p: int, origin: int, m: int) -> int {
    (p + m - origin % m) % m
}

/// Whether the pixel at index `idx` of the display receives a set sprite bit
/// when an `n`-row sprite at address `s.i` is drawn with its top left corner
/// at column `vx` and row `vy`, both wrapping around the display.
pub open spec fn sprite_covers(s: MachineModel, vx: u8, vy: u8, n: u8, idx: int) -> bool {
    let col = wrapped_offset(idx % 64, vx as int, 64);
    let row = wrapped_offset(idx / 64, vy as int, 32);
    col < 8 && row < n && sprite_bit(s.ram[s.i + row], col)
}

/// The display after the sprite has been XORed onto it.
pub open spec fn drawn_display(s: MachineModel, vx: u8, vy: u8, n: u8) -> Seq<bool> {
    Seq::new(2048, |idx: int| s.gfx[idx] != sprite_covers(s, vx, vy, n, idx))
}

/// Whether drawing the sprite turns some set pixel off.
pub open spec fn draw_collides(s: MachineModel, vx: u8, vy: u8, n: u8) -> bool {
    exists|idx: int| 0 <= idx < 2048 && #[trigger] s.gfx[idx] && sprite_covers(s, vx, vy, n, idx)
}

/// Whether drawing the sprite changes some pixel.
pub open spec fn draw_changes(s: MachineModel, vx: u8, vy: u8, n: u8) -> bool {
    exists|idx: int| 0 <= idx < 2048 && #[trigger] sprite_covers(s, vx, vy, n, idx)
}

/// Whether some key is held down.
pub open spec fn any_key_pressed(s: MachineModel) -> bool {
    exists|k: int| 0 <= k < 16 && #[trigger] s.keys[k]
}

/// Whether `ins` can run on `s`, and which error it raises if it cannot.
pub open spec fn execute_outcome(s: MachineModel, ins: Instruction) -> Result<(), Chip8Error> {
    match ins {
        Instruction::Return => if s.sp == 0 {
            Err(Chip8Error::StackUnderflow)
        } else if s.sp > 16 {
            Err(Chip8Error::StackOverflow)
        } else {
            Ok(())
        },
        Instruction::Call { .. } => if s.sp >= 16 {
            Err(Chip8Error::StackOverflow)
        } else {
            Ok(())
        },
        Instruction::Draw { n, .. } => if s.i + n > 4096 {
            Err(Chip8Error::MemoryOutOfBounds)
        } else {
            Ok(())
        },
        Instruction::Unknown { op } => Err(Chip8Error::UnknownOpcode { op }),
        _ => Ok(()),
    }
}

/// The machine after `ins` has run on `s`, where `execute_outcome` allows it;
/// `rnd` is the random byte that the random-AND instruction uses.
pub open spec fn execute_spec(s: MachineModel, ins: Instruction, rnd: u8) -> MachineModel {
    match ins {
        Instruction::ClearScreen => MachineModel {
            gfx: Seq::new(2048, |k: int| false),
            redraw: true,
            pc: pc_plus(s.pc, 2),
            ..s
        },
        Instruction::Return => MachineModel { sp: (s.sp - 1) as u16, pc: s.stack[s.sp - 1], ..s },
        Instruction::Nop => advanced(s),
        Instruction::Jump { addr } => MachineModel { pc: addr, ..s },
        Instruction::Call { addr } => MachineModel {
            stack: s.stack.update(s.sp as int, s.pc),
            sp: (s.sp + 1) as u16,
            pc: addr,
            ..s
        },
        Instruction::SkipEqImm { x, kk } => skipped_if(s, s.v[x as int] == kk),
        Instruction::SkipNeqImm { x, kk } => skipped_if(s, s.v[x as int] != kk),
        Instruction::SkipEqReg { x, y } => skipped_if(s, s.v[x as int] == s.v[y as int]),
        Instruction::SkipNeqReg { x, y } => skipped_if(s, s.v[x as int] != s.v[y as int]),
        Instruction::LoadImm { x, kk } => with_register(s, x, kk),
        Instruction::AddImm { x, kk } => with_register(s, x, ((s.v[x as int] + kk) % 256) as u8),
        Instruction::Move { x, y } => with_register(s, x, s.v[y as int]),
        Instruction::Or { x, y } => with_register(s, x, s.v[x as int] | s.v[y as int]),
        Instruction::And { x, y } => with_register(s, x, s.v[x as int] & s.v[y as int]),
        Instruction::Xor { x, y } => with_register(s, x, s.v[x as int] ^ s.v[y as int]),
        Instruction::AddReg { x, y } => with_flag_and_register(
            s,
            x,
            if s.v[x as int] + s.v[y as int] > 255 { 1 } else { 0 },
            ((s.v[x as int] + s.v[y as int]) % 256) as u8,
        ),
        Instruction::Sub { x, y } => with_flag_and_register(
            s,
            x,
            if s.v[x as int] >= s.v[y as int] { 1 } else { 0 },
            ((s.v[x as int] - s.v[y as int]) % 256) as u8,
        ),
        Instruction::ShiftRight { x } => with_flag_and_register(
            s,
            x,
            s.v[x as int] & 1,
            s.v[x as int] >> 1,
        ),
        Instruction::SubReverse { x, y } => with_flag_and_register(
            s,
            x,
            if s.v[y as int] >= s.v[x as int] { 1 } else { 0 },
            ((s.v[y as int] - s.v[x as int]) % 256) as u8,
        ),
        Instruction::ShiftLeft { x } => with_flag_and_register(
            s,
            x,
            s.v[x as int] >> 7,
            ((s.v[x as int] * 2) % 256) as u8,
        ),
        Instruction::SetIndex { addr } => MachineModel { i: addr, pc: pc_plus(s.pc, 2), ..s },
        Instruction::JumpOffset { addr } => MachineModel { pc: (addr + s.v[0]) as u16, ..s },
        Instruction::RandomAnd { x, kk } => with_register(s, x, rnd & kk),
        Instruction::Draw { x, y, n } => {
            let vx = s.v[x as int];
            let vy = s.v[y as int];
            MachineModel {
                v: s.v.update(15, if draw_collides(s, vx, vy, n) { 1u8 } else { 0u8 }),
                gfx: drawn_display(s, vx, vy, n),
                redraw: s.redraw || draw_changes(s, vx, vy, n),
                pc: pc_plus(s.pc, 2),
                ..s
            }
        },
        Instruction::SkipKeyPressed { x } => skipped_if(s, s.keys[(s.v[x as int] % 16) as int]),
        Instruction::SkipKeyNotPressed { x } => skipped_if(s, !s.keys[(s.v[x as int] % 16) as int]),
        Instruction::LoadDelay { x } => with_register(s, x, s.delay),
        Instruction::WaitKey { x } => if any_key_pressed(s) {
            with_register(s, x, 1)
        } else {
            s
        },
        Instruction::SetDelay { x } => MachineModel { delay: s.v[x as int], pc: pc_plus(s.pc, 2), ..s },
        Instruction::SetSound { x } => MachineModel { sound: s.v[x as int], pc: pc_plus(s.pc, 2), ..s },
        Instruction::AddIndex { x } => MachineModel {
            i: ((s.i + s.v[x as int]) % 0x10000) as u16,
            pc: pc_plus(s.pc, 2),
            ..s
        },
        Instruction::Unknown { .. } => s,
    }
}

/// `after` and `r` are what running `ins` on `before` may give: the outcome
/// that `execute_outcome` names, the state unchanged on an error, and on
/// success the state of `execute_spec` for the random byte drawn (which only
/// the random-AND instruction reads).
pub open spec fn executed(before: MachineModel, ins: Instruction, after: MachineModel, r: Result<(), Chip8Error>) -> bool {
    &&& r == execute_outcome(before, ins)
    &&& r is Err ==> after == before
    &&& r is Ok ==> exists|b: u8| after == #[trigger] execute_spec(before, ins, b)
    &&& (r is Ok && !(ins is RandomAnd)) ==> after == execute_spec(before, ins, 0)
}

/// The word stored at `pc`, high byte first.
pub open spec fn fetched_word(s: MachineModel) -> u16 {
    (s.ram[s.pc as int] * 256 + s.ram[s.pc + 1]) as u16
}

impl Memory {
    /// Writes the font table to the first bytes of memory.
    pub fn load_font_set(&mut self)
        ensures
            final(self).ram@ == font_set() + old(self).ram@.subrange(80, 4096),
    {
        let glyphs: [u8; 80] = [
            0xF0, 0x90, 0x90, 0x90, 0xF0, // 0
            0x20, 0x60, 0x20, 0x20, 0x70, // 1
            0xF0, 0x10, 0xF0, 0x80, 0xF0, // 2
            0xF0, 0x10, 0xF0, 0x10, 0xF0, // 3
            0x90, 0x90, 0xF0, 0x10, 0x10, // 4
            0xF0, 0x80, 0xF0, 0x10, 0xF0, // 5
            0xF0, 0x80, 0xF0, 0x90, 0xF0, // 6
            0xF0, 0x10, 0x20, 0x40, 0x40, // 7
            0xF0, 0x90, 0xF0, 0x90, 0xF0, // 8
            0xF0, 0x90, 0xF0, 0x10, 0xF0, // 9
            0xF0, 0x90, 0xF0, 0x90, 0x90, // A
            0xE0, 0x90, 0xE0, 0x90, 0xE0, // B
            0xF0, 0x80, 0x80, 0x80, 0xF0, // C
            0xE0, 0x90, 0x90, 0x90, 0xE0, // D
            0xF0, 0x80, 0xF0, 0x80, 0xF0, // E
            0xF0, 0x80, 0xF0, 0x80, 0x80, // F
        ];
        assert(glyphs@ =~= font_set());
        let ghost before = self.ram@;
        let mut k: usize = 0;
        while k < FONT_SIZE
            invariant
                0 <= k <= 80,
                glyphs@ == font_set(),
                self.ram@.len() == 4096,
                forall|j: int| 0 <= j < k ==> self.ram@[j] == font_set()[j],
                forall|j: int| k <= j < 4096 ==> self.ram@[j] == before[j],
            decreases 80 - k,
        {
            self.ram[k] = glyphs[k];
            k = k + 1;
        }
        assert(self.ram@ =~= font_set() + before.subrange(80, 4096));
    }

    /// Copies `rom` to memory from the program start on. A program longer
    /// than the memory above the program start is refused, with memory
    /// left as it was.
    pub fn load_rom(&mut self, rom: &[u8]) -> (r: Result<(), Chip8Error>)
        ensures
            rom@.len() > 4096 - 0x200 ==> r == Err::<(), Chip8Error>(Chip8Error::ProgramTooLarge)
                && final(self).ram@ == old(self).ram@,
            rom@.len() <= 4096 - 0x200 ==> r is Ok && final(self).ram@ == old(self).ram@.subrange(0, 0x200)
                + rom@ + old(self).ram@.subrange(0x200 + rom@.len() as int, 4096),
    {
        if rom.len() > MEMORY_SIZE - PROGRAM_START {
            return Err(Chip8Error::ProgramTooLarge);
        }
        let ghost before = self.ram@;
        let mut k: usize = 0;
        while k < rom.len()
            invariant
                0 <= k <= rom@.len() <= 4096 - 0x200,
                self.ram@.len() == 4096,
                forall|j: int| 0 <= j < 0x200 ==> self.ram@[j] == before[j],
                forall|j: int| 0 <= j < k ==> self.ram@[0x200 + j] == rom@[j],
                forall|j: int| 0x200 + k <= j < 4096 ==> self.ram@[j] == before[j],
            decreases rom@.len() - k,
        {
            self.ram[PROGRAM_START + k] = rom[k];
            k = k + 1;
        }
        assert(self.ram@ =~= before.subrange(0, 0x200) + rom@ + before.subrange(
            0x200 + rom@.len() as int,
            4096,
        ));
        Ok(())
    }

    /// Whether column `axis_x` of sprite row `axis_y`, read at `register_i`, is set.
    pub fn current_pixel_is_on(&self, register_i: u16, axis_x: u8, axis_y: u8) -> (r: bool)
        requires
            register_i + axis_y < 4096,
            axis_x < 8,
        ensures
            r == sprite_bit(self.ram@[register_i + axis_y], axis_x as int),
    {
        self.ram[register_i as usize + axis_y as usize] & (0x80u8 >> axis_x) != 0
    }
}

impl Registers {
    /// Writes the flag register `VF`.
    pub fn set_register_v_f_value(&mut self, value: u8)
        ensures
            final(self).v@ == old(self).v@.update(15, value),
            final(self).i == old(self).i,
            final(self).program_counter == old(self).program_counter,
    {
        self.v[15] = value;
    }

    /// Reads the flag register `VF`.
    pub fn get_register_v_f_value(&self) -> (r: u8)
        ensures
            r == self.v@[15],
    {
        self.v[15]
    }
}

/// Index of the display pixel at column `coord_x + axis_x` and row
/// `coord_y + axis_y`, each wrapping around the display.
pub open spec fn pixel_index(coord_x: u8, axis_x: u8, coord_y: u8, axis_y: u8) -> int {
    (coord_x + axis_x) % 64 + ((coord_y + axis_y) % 32) * 64
}

impl Graphics {
    /// Whether the pixel at the wrapped position is set.
    pub fn current_pixel_is_on(&self, coord_x: u8, axis_x: u8, coord_y: u8, axis_y: u8) -> (r: bool)
        ensures
            r == self.gfx@[pixel_index(coord_x, axis_x, coord_y, axis_y)],
    {
        self.gfx[(coord_x as usize + axis_x as usize) % DISPLAY_WIDTH + ((coord_y as usize
            + axis_y as usize) % DISPLAY_HEIGHT) * DISPLAY_WIDTH]
    }

    /// Flips the pixel at the wrapped position and marks the display changed.
    pub fn change_pixel_value(&mut self, coord_x: u8, axis_x: u8, coord_y: u8, axis_y: u8)
        ensures
            final(self).gfx@ == old(self).gfx@.update(
                pixel_index(coord_x, axis_x, coord_y, axis_y),
                !old(self).gfx@[pixel_index(coord_x, axis_x, coord_y, axis_y)],
            ),
            final(self).redraw,
    {
        let idx = (coord_x as usize + axis_x as usize) % DISPLAY_WIDTH + ((coord_y as usize
            + axis_y as usize) % DISPLAY_HEIGHT) * DISPLAY_WIDTH;
        self.gfx[idx] = !self.gfx[idx];
        self.redraw = true;
    }

    /// Clears every pixel and marks the display changed.
    pub fn clear(&mut self)
        ensures
            final(self).gfx@ == Seq::new(2048, |k: int| false),
            final(self).redraw,
    {
        self.gfx = [false; 2048];
        assert(self.gfx@ =~= Seq::new(2048, |k: int| false));
        self.redraw = true;
    }

    /// A copy of the bitmap, row by row, and the changed flag.
    pub fn export(&self) -> (r: (Vec<bool>, bool))
        ensures
            r.0@ == self.gfx@,
            r.1 == self.redraw,
    {
        let mut pixels: Vec<bool> = Vec::new();
        let mut k: usize = 0;
        while k < DISPLAY_WIDTH * DISPLAY_HEIGHT
            invariant
                0 <= k <= 2048,
                pixels@ == self.gfx@.subrange(0, k as int),
            decreases 2048 - k,
        {
            pixels.push(self.gfx[k]);
            k = k + 1;
            assert(pixels@ =~= self.gfx@.subrange(0, k as int));
        }
        assert(pixels@ =~= self.gfx@);
        (pixels, self.redraw)
    }
}

impl Chip8 {
    /// The machine as mathematical values (the random source left out).
    pub open spec fn model(&self) -> MachineModel {
        MachineModel {
            ram: self.memory.ram@,
            v: self.registers.v@,
            i: self.registers.i,
            pc: self.registers.program_counter,
            stack: self.stack.stack@,
            sp: self.stack.stack_pointer,
            gfx: self.graphics.gfx@,
            redraw: self.graphics.redraw,
            delay: self.timers.delay_timer,
            sound: self.timers.sound_timer,
            keys: self.keypad.keys@,
        }
    }

    /// A machine with the font loaded, the program counter at the program
    /// start and everything else zero.
    pub fn initialize() -> (r: Chip8)
        ensures
            r.model() == initial_model(),
    {
        let mut chip8 = Chip8 {
            registers: Registers { program_counter: 0x200, i: 0, v: [0; 16] },
            memory: Memory { ram: [0; 4096] },
            graphics: Graphics { gfx: [false; 2048], redraw: false },
            timers: Timers { sound_timer: 0, delay_timer: 0 },
            stack: Stack { stack: [0; 16], stack_pointer: 0 },
            keypad: Keypad { keys: [false; 16] },
            rng: rand::thread_rng(),
        };
        chip8.memory.load_font_set();
        assert(chip8.memory.ram@ =~= initial_model().ram);
        assert(chip8.registers.v@ =~= initial_model().v);
        assert(chip8.stack.stack@ =~= initial_model().stack);
        assert(chip8.graphics.gfx@ =~= initial_model().gfx);
        assert(chip8.keypad.keys@ =~= initial_model().keys);
        chip8
    }

    /// Fetches the next instruction and runs it. A program counter whose
    /// word would pass the end of memory is refused with nothing changed.
    pub fn emulate_cycle(&mut self) -> (r: Result<(), Chip8Error>)
        ensures
            old(self).registers.program_counter + 1 >= 4096 ==> r == Err::<(), Chip8Error>(
                Chip8Error::MemoryOutOfBounds,
            ) && final(self).model() == old(self).model(),
            old(self).registers.program_counter + 1 < 4096 ==> executed(
                old(self).model(),
                decode_spec(fetched_word(old(self).model())),
                final(self).model(),
                r,
            ),
    {
        if self.registers.program_counter as usize + 1 >= MEMORY_SIZE {
            return Err(Chip8Error::MemoryOutOfBounds);
        }
        let op_code = self.fetch_op_code();
        self.execute_op_code(op_code)
    }

    /// The word at the program counter, high byte first.
    pub fn fetch_op_code(&self) -> (r: u16)
        requires
            self.registers.program_counter + 1 < 4096,
        ensures
            r == fetched_word(self.model()),
    {
        let pc = self.registers.program_counter as usize;
        (self.memory.ram[pc] as u16) * 256 + self.memory.ram[pc + 1] as u16
    }

    /// Decodes `op_code` and runs it, drawing a random byte for the
    /// random-AND instruction.
    pub fn execute_op_code(&mut self, op_code: u16) -> (r: Result<(), Chip8Error>)
        ensures
            executed(old(self).model(), decode_spec(op_code), final(self).model(), r),
    {
        let ins = decode(op_code);
        let rnd = match ins {
            Instruction::RandomAnd { .. } => random_byte(&mut self.rng),
            _ => 0,
        };
        let ghost before = self.model();
        let r = self.execute_instruction(ins, rnd);
        assert(r is Ok ==> self.model() == execute_spec(before, ins, rnd));
        r
    }

    /// Runs the decoded instruction `ins`, with `random` as the random byte.
    #[verifier::spinoff_prover]
    #[verifier::rlimit(100)]
    pub fn execute_instruction(&mut self, ins: Instruction, random: u8) -> (r: Result<(), Chip8Error>)
        requires
            instruction_wf(ins),
        ensures
            r == execute_outcome(old(self).model(), ins),
            r is Ok ==> final(self).model() == execute_spec(old(self).model(), ins, random),
            r is Err ==> final(self).model() == old(self).model(),
    {
        match ins {
            Instruction::ClearScreen => {
                self.clear_screen();
                Ok(())
            },
            Instruction::Return => self.return_from_subroutine(),
            Instruction::Nop => {
                self.advance(2);
                Ok(())
            },
            Instruction::Jump { addr } => {
                self.jump_to_location(addr);
                Ok(())
            },
            Instruction::Call { addr } => self.call_subroutine(addr),
            Instruction::SkipEqImm { x, kk } => {
                self.skip_next_if_vx_eq_kk(x, kk);
                Ok(())
            },
            Instruction::SkipNeqImm { x, kk } => {
                self.skip_next_if_vx_neq_kk(x, kk);
                Ok(())
            },
            Instruction::SkipEqReg { x, y } => {
                self.skip_next_if_vx_eq_vy(x, y);
                Ok(())
            },
            Instruction::SkipNeqReg { x, y } => {
                self.skip_next_if_vx_neq_vy(x, y);
                Ok(())
            },
            Instruction::LoadImm { x, kk } => {
                self.set_vx_to(x, kk);
                Ok(())
            },
            Instruction::AddImm { x, kk } => {
                self.add_kk_to_vx(x, kk);
                Ok(())
            },
            Instruction::Move { x, y } => {
                let val = self.registers.v[y as usize];
                self.set_vx_to(x, val);
                Ok(())
            },
            Instruction::Or { x, y } => {
                let val = self.registers.v[x as usize] | self.registers.v[y as usize];
                self.set_vx_to(x, val);
                Ok(())
            },
            Instruction::And { x, y } => {
                let val = self.registers.v[x as usize] & self.registers.v[y as usize];
                self.set_vx_to(x, val);
                Ok(())
            },
            Instruction::Xor { x, y } => {
                let val = self.registers.v[x as usize] ^ self.registers.v[y as usize];
                self.set_vx_to(x, val);
                Ok(())
            },
            Instruction::AddReg { x, y } => {
                self.set_vx_to_vx_and_vy_sum(x, y);
                Ok(())
            },
            Instruction::Sub { x, y } => {
                self.set_vx_to_vx_and_vy_difference(x, y);
                Ok(())
            },
            Instruction::ShiftRight { x } => {
                self.set_vx_to_vx_shift_right(x);
                Ok(())
            },
            Instruction::SubReverse { x, y } => {
                self.set_vx_to_vy_and_vx_difference(x, y);
                Ok(())
            },
            Instruction::ShiftLeft { x } => {
                self.set_vx_to_vx_shift_left(x);
                Ok(())
            },
            Instruction::SetIndex { addr } => {
                self.set_register_i_address(addr);
                Ok(())
            },
            Instruction::JumpOffset { addr } => {
                self.jump_to_location_plus_v_0(addr);
                Ok(())
            },
            Instruction::RandomAnd { x, kk } => {
                self.set_vx_to_random_and_kk(x, kk, random);
                Ok(())
            },
            Instruction::Draw { x, y, n } => self.draw_sprite(x, y, n),
            Instruction::SkipKeyPressed { x } => {
                self.skip_next_if_key_pressed(x);
                Ok(())
            },
            Instruction::SkipKeyNotPressed { x } => {
                self.skip_next_if_key_not_pressed(x);
                Ok(())
            },
            Instruction::LoadDelay { x } => {
                self.set_vx_to_delay_timer(x);
                Ok(())
            },
            Instruction::WaitKey { x } => {
                self.await_key_and_store_to_value_vx(x);
                Ok(())
            },
            Instruction::SetDelay { x } => {
                self.set_delay_timer_to_vx(x);
                Ok(())
            },
            Instruction::SetSound { x } => {
                self.set_sound_timer_to_vx(x);
                Ok(())
            },
            Instruction::AddIndex { x } => {
                self.set_i_to_sum_of_i_and_vx(x);
                Ok(())
            },
            Instruction::Unknown { op } => Err(Chip8Error::UnknownOpcode { op }),
        }
    }

    /// Moves the program counter on by `n` bytes, wrapping at 16 bits.
    fn advance(&mut self, n: u16)
        ensures
            final(self).model() == (MachineModel { pc: pc_plus(old(self).model().pc, n as int), ..old(self).model() }),
    {
        self.registers.program_counter = self.registers.program_counter.wrapping_add(n);
    }

    /// Skips the next instruction when `cond` holds, else moves on to it.
    fn skip_if(&mut self, cond: bool)
        ensures
            final(self).model() == skipped_if(old(self).model(), cond),
    {
        if cond {
            self.advance(4);
        } else {
            self.advance(2);
        }
    }

    /// Writes `value` to register `x` and moves on.
    fn set_vx_to(&mut self, x: u8, value: u8)
        requires
            x < 16,
        ensures
            final(self).model() == with_register(old(self).model(), x, value),
    {
        self.registers.v[x as usize] = value;
        self.advance(2);
    }

    /// Writes `flag` to `VF`, then `value` to register `x`, and moves on.
    fn set_flag_and_vx(&mut self, x: u8, flag: u8, value: u8)
        requires
            x < 16,
        ensures
            final(self).model() == with_flag_and_register(old(self).model(), x, flag, value),
    {
        self.registers.set_register_v_f_value(flag);
        self.registers.v[x as usize] = value;
        self.advance(2);
    }

    /// Whether the sprite of `n` rows at `I`, drawn at (`coord_x`, `coord_y`),
    /// sets a bit on display pixel `idx`.
    fn sprite_hits(&self, coord_x: u8, coord_y: u8, n: u8, idx: usize) -> (r: bool)
        requires
            idx < 2048,
            self.registers.i + n <= 4096,
        ensures
            r == sprite_covers(self.model(), coord_x, coord_y, n, idx as int),
    {
        let col = (idx % DISPLAY_WIDTH + DISPLAY_WIDTH - coord_x as usize % DISPLAY_WIDTH) % DISPLAY_WIDTH;
        let row = (idx / DISPLAY_WIDTH + DISPLAY_HEIGHT - coord_y as usize % DISPLAY_HEIGHT) % DISPLAY_HEIGHT;
        if col < 8 && row < n as usize {
            self.memory.current_pixel_is_on(self.registers.i, col as u8, row as u8)
        } else {
            false
        }
    }

    /// XORs the `n`-row sprite at `I` onto the display at (`Vx`, `Vy`),
    /// wrapping around the edges; `VF` becomes 1 when a set pixel is turned
    /// off and 0 otherwise. Each display pixel is visited once and takes the
    /// sprite bit that falls on it, if any.
    fn draw_sprite(&mut self, x: u8, y: u8, n: u8) -> (r: Result<(), Chip8Error>)
        requires
            x < 16,
            y < 16,
            n < 16,
        ensures
            r == execute_outcome(old(self).model(), Instruction::Draw { x, y, n }),
            r is Ok ==> final(self).model() == execute_spec(old(self).model(), Instruction::Draw { x, y, n }, 0),
            r is Err ==> final(self).model() == old(self).model(),
    {
        if self.registers.i as usize + n as usize > MEMORY_SIZE {
            return Err(Chip8Error::MemoryOutOfBounds);
        }
        let coord_x = self.registers.v[x as usize];
        let coord_y = self.registers.v[y as usize];
        let ghost s0 = self.model();
        let mut gfx = self.graphics.gfx;
        let mut collision = false;
        let mut changed = false;
        let mut idx: usize = 0;
        while idx < DISPLAY_WIDTH * DISPLAY_HEIGHT
            invariant
                0 <= idx <= 2048,
                s0 == self.model(),
                s0.i + n <= 4096,
                gfx@.len() == 2048,
                forall|j: int| 0 <= j < idx ==> gfx@[j] == (s0.gfx[j] != sprite_covers(s0, coord_x, coord_y, n, j)),
                forall|j: int| idx <= j < 2048 ==> gfx@[j] == s0.gfx[j],
                collision == exists|j: int| 0 <= j < idx && #[trigger] s0.gfx[j] && sprite_covers(s0, coord_x, coord_y, n, j),
                changed == exists|j: int| 0 <= j < idx && #[trigger] sprite_covers(s0, coord_x, coord_y, n, j),
            decreases 2048 - idx,
        {
            let hit = self.sprite_hits(coord_x, coord_y, n, idx);
            if hit {
                if gfx[idx] {
                    collision = true;
                }
                gfx[idx] = !gfx[idx];
                changed = true;
            }
            proof {
                if s0.gfx[idx as int] && hit {
                    assert(s0.gfx[idx as int] && sprite_covers(s0, coord_x, coord_y, n, idx as int));
                }
            }
            idx = idx + 1;
        }
        self.graphics.gfx = gfx;
        assert(self.graphics.gfx@ =~= drawn_display(s0, coord_x, coord_y, n));
        let flag: u8 = if collision { 1 } else { 0 };
        self.registers.set_register_v_f_value(flag);
        if changed {
            self.graphics.redraw = true;
        }
        self.advance(2);
        Ok(())
    }

    /// Skips the next instruction when `Vx == kk`.
    fn skip_next_if_vx_eq_kk(&mut self, x: u8, kk: u8)
        requires
            x < 16,
        ensures
            final(self).model() == execute_spec(old(self).model(), Instruction::SkipEqImm { x, kk }, 0),
    {
        let c = self.registers.v[x as usize] == kk;
        self.skip_if(c);
    }

    /// Skips the next instruction when `Vx != kk`.
    fn skip_next_if_vx_neq_kk(&mut self, x: u8, kk: u8)
        requires
            x < 16,
        ensures
            final(self).model() == execute_spec(old(self).model(), Instruction::SkipNeqImm { x, kk }, 0),
    {
        let c = self.registers.v[x as usize] != kk;
        self.skip_if(c);
    }

    /// Skips the next instruction when `Vx == Vy`.
    fn skip_next_if_vx_eq_vy(&mut self, x: u8, y: u8)
        requires
            x < 16,
            y < 16,
        ensures
            final(self).model() == execute_spec(old(self).model(), Instruction::SkipEqReg { x, y }, 0),
    {
        let c = self.registers.v[x as usize] == self.registers.v[y as usize];
        self.skip_if(c);
    }

    /// Skips the next instruction when `Vx != Vy`.
    fn skip_next_if_vx_neq_vy(&mut self, x: u8, y: u8)
        requires
            x < 16,
            y < 16,
        ensures
            final(self).model() == execute_spec(old(self).model(), Instruction::SkipNeqReg { x, y }, 0),
    {
        let c = self.registers.v[x as usize] != self.registers.v[y as usize];
        self.skip_if(c);
    }

    /// `Vx = Vx + kk`, wrapping; `VF` is left alone.
    fn add_kk_to_vx(&mut self, x: u8, kk: u8)
        requires
            x < 16,
        ensures
            final(self).model() == execute_spec(old(self).model(), Instruction::AddImm { x, kk }, 0),
    {
        let val = self.registers.v[x as usize].wrapping_add(kk);
        self.set_vx_to(x, val);
    }

    /// `I = addr`.
    fn set_register_i_address(&mut self, addr: u16)
        ensures
            final(self).model() == execute_spec(old(self).model(), Instruction::SetIndex { addr }, 0),
    {
        self.registers.i = addr;
        self.advance(2);
    }

    /// Jumps to `addr + V0`.
    fn jump_to_location_plus_v_0(&mut self, addr: u16)
        requires
            addr < 0x1000,
        ensures
            final(self).model() == execute_spec(old(self).model(), Instruction::JumpOffset { addr }, 0),
    {
        self.registers.program_counter = addr + self.registers.v[0] as u16;
    }

    /// `Vx = random & kk`.
    fn set_vx_to_random_and_kk(&mut self, x: u8, kk: u8, random: u8)
        requires
            x < 16,
        ensures
            final(self).model() == execute_spec(old(self).model(), Instruction::RandomAnd { x, kk }, random),
    {
        self.set_vx_to(x, random & kk);
    }

    /// Skips the next instruction when the key numbered by the low nibble of `Vx` is down.
    fn skip_next_if_key_pressed(&mut self, x: u8)
        requires
            x < 16,
        ensures
            final(self).model() == execute_spec(old(self).model(), Instruction::SkipKeyPressed { x }, 0),
    {
        let c = self.keypad.keys[(self.registers.v[x as usize] % 16) as usize];
        self.skip_if(c);
    }

    /// Skips the next instruction when the key numbered by the low nibble of `Vx` is up.
    fn skip_next_if_key_not_pressed(&mut self, x: u8)
        requires
            x < 16,
        ensures
            final(self).model() == execute_spec(old(self).model(), Instruction::SkipKeyNotPressed { x }, 0),
    {
        let c = !self.keypad.keys[(self.registers.v[x as usize] % 16) as usize];
        self.skip_if(c);
    }

    /// `Vx = delay timer`.
    fn set_vx_to_delay_timer(&mut self, x: u8)
        requires
            x < 16,
        ensures
            final(self).model() == execute_spec(old(self).model(), Instruction::LoadDelay { x }, 0),
    {
        let val = self.timers.delay_timer;
        self.set_vx_to(x, val);
    }

    /// `delay timer = Vx`.
    fn set_delay_timer_to_vx(&mut self, x: u8)
        requires
            x < 16,
        ensures
            final(self).model() == execute_spec(old(self).model(), Instruction::SetDelay { x }, 0),
    {
        self.timers.delay_timer = self.registers.v[x as usize];
        self.advance(2);
    }

    /// `sound timer = Vx`.
    fn set_sound_timer_to_vx(&mut self, x: u8)
        requires
            x < 16,
        ensures
            final(self).model() == execute_spec(old(self).model(), Instruction::SetSound { x }, 0),
    {
        self.timers.sound_timer = self.registers.v[x as usize];
        self.advance(2);
    }

    /// `I = I + Vx`, wrapping at 16 bits.
    fn set_i_to_sum_of_i_and_vx(&mut self, x: u8)
        requires
            x < 16,
        ensures
            final(self).model() == execute_spec(old(self).model(), Instruction::AddIndex { x }, 0),
    {
        self.registers.i = self.registers.i.wrapping_add(self.registers.v[x as usize] as u16);
        self.advance(2);
    }

    fn clear_screen(&mut self)
        ensures
            final(self).model() == execute_spec(old(self).model(), Instruction::ClearScreen, 0),
    {
        self.graphics.clear();
        self.advance(2);
    }

    fn return_from_subroutine(&mut self) -> (r: Result<(), Chip8Error>)
        ensures
            r == execute_outcome(old(self).model(), Instruction::Return),
            r is Ok ==> final(self).model() == execute_spec(old(self).model(), Instruction::Return, 0),
            r is Err ==> final(self).model() == old(self).model(),
    {
        if self.stack.stack_pointer == 0 {
            return Err(Chip8Error::StackUnderflow);
        }
        if self.stack.stack_pointer as usize > STACK_DEPTH {
            return Err(Chip8Error::StackOverflow);
        }
        self.stack.stack_pointer = self.stack.stack_pointer - 1;
        self.registers.program_counter = self.stack.stack[self.stack.stack_pointer as usize];
        Ok(())
    }

    fn jump_to_location(&mut self, addr: u16)
        ensures
            final(self).model() == execute_spec(old(self).model(), Instruction::Jump { addr }, 0),
    {
        self.registers.program_counter = addr;
    }

    fn call_subroutine(&mut self, addr: u16) -> (r: Result<(), Chip8Error>)
        ensures
            r == execute_outcome(old(self).model(), Instruction::Call { addr }),
            r is Ok ==> final(self).model() == execute_spec(old(self).model(), Instruction::Call { addr }, 0),
            r is Err ==> final(self).model() == old(self).model(),
    {
        if self.stack.stack_pointer as usize >= STACK_DEPTH {
            return Err(Chip8Error::StackOverflow);
        }
        self.stack.stack[self.stack.stack_pointer as usize] = self.registers.program_counter;
        self.stack.stack_pointer = self.stack.stack_pointer + 1;
        self.registers.program_counter = addr;
        Ok(())
    }

    fn set_vx_to_vx_and_vy_sum(&mut self, x: u8, y: u8)
        requires
            x < 16,
            y < 16,
        ensures
            final(self).model() == execute_spec(old(self).model(), Instruction::AddReg { x, y }, 0),
    {
        let a = self.registers.v[x as usize];
        let b = self.registers.v[y as usize];
        let carried = a as u16 + b as u16 > 255;
        let flag: u8 = if carried { 1 } else { 0 };
        self.set_flag_and_vx(x, flag, a.wrapping_add(b));
    }

    fn set_vx_to_vx_and_vy_difference(&mut self, x: u8, y: u8)
        requires
            x < 16,
            y < 16,
        ensures
            final(self).model() == execute_spec(old(self).model(), Instruction::Sub { x, y }, 0),
    {
        let a = self.registers.v[x as usize];
        let b = self.registers.v[y as usize];
        let flag: u8 = if a >= b { 1 } else { 0 };
        self.set_flag_and_vx(x, flag, a.wrapping_sub(b));
    }

    fn set_vx_to_vx_shift_right(&mut self, x: u8)
        requires
            x < 16,
        ensures
            final(self).model() == execute_spec(old(self).model(), Instruction::ShiftRight { x }, 0),
    {
        let a = self.registers.v[x as usize];
        self.set_flag_and_vx(x, a & 1, a >> 1);
    }

    fn set_vx_to_vy_and_vx_difference(&mut self, x: u8, y: u8)
        requires
            x < 16,
            y < 16,
        ensures
            final(self).model() == execute_spec(old(self).model(), Instruction::SubReverse { x, y }, 0),
    {
        let a = self.registers.v[x as usize];
        let b = self.registers.v[y as usize];
        let flag: u8 = if b >= a { 1 } else { 0 };
        self.set_flag_and_vx(x, flag, b.wrapping_sub(a));
    }

    fn set_vx_to_vx_shift_left(&mut self, x: u8)
        requires
            x < 16,
        ensures
            final(self).model() == execute_spec(old(self).model(), Instruction::ShiftLeft { x }, 0),
    {
        let a = self.registers.v[x as usize];
        self.set_flag_and_vx(x, a >> 7, a.wrapping_mul(2));
    }

    /// Stores 1 in register `x` and moves on when some key is down; with no
    /// key down the machine stays at this instruction, so the host can
    /// refresh the keypad before the next cycle polls it again.
    fn await_key_and_store_to_value_vx(&mut self, x: u8)
        requires
            x < 16,
        ensures
            final(self).model() == execute_spec(old(self).model(), Instruction::WaitKey { x }, 0),
    {
        let mut k: usize = 0;
        let mut pressed = false;
        while k < 16
            invariant
                0 <= k <= 16,
                self.keypad.keys@.len() == 16,
                pressed == exists|j: int| 0 <= j < k && #[trigger] self.keypad.keys@[j],
            decreases 16 - k,
        {
            if self.keypad.keys[k] {
                pressed = true;
            }
            k = k + 1;
        }
        if pressed {
            self.set_vx_to(x, 1);
        }
    }
}

} // verus!
