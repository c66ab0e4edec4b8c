//! The mathematical model of the machine: its state as sequences and
//! integers, and what each instruction and each clock cycle does to it.

use crate::instruction::{decoded, Instruction};
use vstd::prelude::*;

verus! {

/// The number of pixels in a row of the display.
pub const SCREEN_WIDTH: usize = 64;

/// The number of rows of the display.
pub const SCREEN_HEIGHT: usize = 32;

/// The number of bytes of memory.
pub const MEMORY_SIZE: usize = 4096;

/// The address at which a program image is loaded and execution starts.
pub const PROGRAM_START: u16 = 0x200;

/// The largest number of return addresses on the call stack.
pub const STACK_LIMIT: u8 = 16;

/// The sixteen digit sprites, five bytes each, that occupy the start of memory.
pub const FONT: [u8; 80] = [
    0xF0, 0x90, 0x90, 0x90, 0xF0,
    0x20, 0x60, 0x20, 0x20, 0x70,
    0xF0, 0x10, 0xF0, 0x80, 0xF0,
    0xF0, 0x10, 0xF0, 0x10, 0xF0,
    0x90, 0x90, 0xF0, 0x10, 0x10,
    0xF0, 0x80, 0xF0, 0x10, 0xF0,
    0xF0, 0x80, 0xF0, 0x90, 0xF0,
    0xF0, 0x10, 0x20, 0x40, 0x40,
    0xF0, 0x90, 0xF0, 0x90, 0xF0,
    0xF0, 0x90, 0xF0, 0x10, 0xF0,
    0xF0, 0x90, 0xF0, 0x90, 0x90,
    0xE0, 0x90, 0xE0, 0x90, 0xE0,
    0xF0, 0x80, 0x80, 0x80, 0xF0,
    0xE0, 0x90, 0x90, 0x90, 0xE0,
    0xF0, 0x80, 0xF0, 0x80, 0xF0,
    0xF0, 0x80, 0xF0, 0x80, 0x80,
];

/// The two switches that select between historical behaviours.
#[derive(Clone, Copy, Debug, PartialEq, Eq, Structural)]
pub struct Quirks {
    /// Shifts read `Vx` instead of `Vy`.
    pub shift: bool,
    /// Block store and load leave `I` unchanged.
    pub load_store: bool,
}

/// How an executed instruction leaves the program counter.
#[derive(Clone, Copy, Debug, PartialEq, Eq, Structural)]
pub enum Flow {
    /// The program counter still has to be advanced past the instruction.
    Next,
    /// The instruction has set the program counter itself.
    Jumped,
    /// A key is awaited; nothing has changed and the instruction must be
    /// executed again once a key is pressed.
    AwaitKey,
}

/// What one clock cycle did.
#[derive(Clone, Copy, Debug, PartialEq, Eq, Structural)]
pub enum Tick {
    /// The delay timer was running and was decremented; no instruction ran.
    Delayed,
    /// One instruction was fetched and executed.
    Executed,
    /// The instruction at the program counter awaits a key; nothing changed.
    AwaitKey,
}

/// A fatal condition. The machine is left as it was before the instruction.
#[derive(Clone, Copy, Debug, PartialEq, Eq, Structural)]
pub enum Fault {
    /// The program counter is below `0x200` or leaves no room for a
    /// two-byte instruction.
    ProgramCounter { pc: u16 },
    /// A call with sixteen return addresses already on the stack.
    StackOverflow { pc: u16, opcode: u16 },
    /// A return with no return address on the stack.
    StackUnderflow { pc: u16, opcode: u16 },
    /// The bytes addressed through `I` reach past the end of memory, or a
    /// write would touch the font.
    Address { pc: u16, opcode: u16, index: u16 },
}

/// Why a program image was not loaded.
#[derive(Clone, Copy, Debug, PartialEq, Eq, Structural)]
pub enum RomError {
    /// The image has more than 3584 bytes.
    TooLarge { len: usize },
    /// The image has an odd number of bytes.
    OddLength { len: usize },
}

/// The state of the machine.
pub struct Machine {
    /// The registers `V0` to `VF`.
    pub v: Seq<u8>,
    /// The index register.
    pub i: u16,
    /// The program counter.
    pub pc: u16,
    /// The delay timer.
    pub dt: u8,
    /// The sound timer.
    pub st: u8,
    /// The 4096 bytes of memory.
    pub memory: Seq<u8>,
    /// The display: 32 rows of 64 pixels.
    pub display: Seq<Seq<bool>>,
    /// The return addresses, the most recent last.
    pub stack: Seq<u16>,
    /// The key that is pressed, if any.
    pub key: Option<u8>,
    /// Whether the display changed since it was last rendered.
    pub dirty: bool,
    /// The configured quirks.
    pub quirks: Quirks,
    /// How many words that match no pattern have been executed; it stops
    /// counting at the largest `u64`.
    pub ignored: u64,
}

/// 1 for true, 0 for false.
pub open spec fn flag(b: bool) -> u8 {
    if b {
        1
    } else {
        0
    }
}

/// An address from which an instruction may be fetched.
pub open spec fn is_code_address(pc: u16) -> bool {
    0x200 <= pc <= 0xFFE
}

/// The display with every pixel off.
pub open spec fn blank_display() -> Seq<Seq<bool>> {
    Seq::new(32, |r: int| Seq::new(64, |c: int| false))
}

/// Memory at startup: the font, then zeros.
pub open spec fn initial_memory() -> Seq<u8> {
    Seq::new(4096, |a: int| if a < 80 { FONT[a] } else { 0u8 })
}

/// Bit `j` of a sprite row, counted from the most significant bit.
pub open spec fn sprite_bit(byte: u8, j: u8) -> bool {
    byte & (0x80u8 >> j) != 0
}

/// The screen row on which sprite row `i` lands when the sprite is at row `vy`.
pub open spec fn target_row(vy: u8, i: int) -> int {
    (vy + i) % 32
}

/// The screen column on which sprite column `j` lands when the sprite is at
/// column `vx`.
pub open spec fn target_col(vx: u8, j: int) -> int {
    (vx + j) % 64
}

/// The sprite row that lands on screen row `r` when the sprite is at row `vy`.
pub open spec fn sprite_row_at(vy: u8, r: int) -> int {
    (r - vy) % 32
}

/// The sprite column that lands on screen column `c` when the sprite is at
/// column `vx`.
pub open spec fn sprite_col_at(vx: u8, c: int) -> int {
    (c - vx) % 64
}

/// The pixel at `(r, c)` once the first `rows` rows of the sprite and the
/// first `cols` pixels of the next row have been blended in.
pub open spec fn blended_pixel(
    display: Seq<Seq<bool>>,
    memory: Seq<u8>,
    base: int,
    vx: u8,
    vy: u8,
    rows: int,
    cols: int,
    r: int,
    c: int,
) -> bool {
    let i = sprite_row_at(vy, r);
    let j = sprite_col_at(vx, c);
    if (i < rows && j < 8) || (i == rows && j < cols) {
        display[r][c] != sprite_bit(memory[base + i], j as u8)
    } else {
        display[r][c]
    }
}

/// The display after the `n`-row sprite at `base` has been drawn at
/// `(vx, vy)`: each pixel under the sprite is XORed with its sprite bit, and
/// coordinates wrap around both edges.
pub open spec fn drawn_display(
    display: Seq<Seq<bool>>,
    memory: Seq<u8>,
    base: int,
    vx: u8,
    vy: u8,
    n: int,
) -> Seq<Seq<bool>> {
    Seq::new(
        32,
        |r: int| Seq::new(64, |c: int| blended_pixel(display, memory, base, vx, vy, n, 0, r, c)),
    )
}

/// Memory after the registers `V0..=Vx` have been stored from `base` on.
pub open spec fn stored(memory: Seq<u8>, v: Seq<u8>, base: int, x: int) -> Seq<u8> {
    Seq::new(4096, |a: int| if base <= a <= base + x { v[a - base] } else { memory[a] })
}

/// The registers after `V0..=Vx` have been loaded from `base` on.
pub open spec fn loaded(v: Seq<u8>, memory: Seq<u8>, base: int, x: int) -> Seq<u8> {
    Seq::new(16, |k: int| if k <= x { memory[base + k] } else { v[k] })
}

/// Memory after a program image has been copied to `0x200`.
pub open spec fn with_image(memory: Seq<u8>, rom: Seq<u8>) -> Seq<u8> {
    Seq::new(4096, |a: int| if 0x200 <= a < 0x200 + rom.len() { rom[a - 0x200] } else { memory[a] })
}

/// Why the image is refused, if it is.
pub open spec fn image_error(rom: Seq<u8>) -> Option<RomError> {
    if rom.len() > 3584 {
        Some(RomError::TooLarge { len: rom.len() as usize })
    } else if rom.len() % 2 == 1 {
        Some(RomError::OddLength { len: rom.len() as usize })
    } else {
        None
    }
}

impl Machine {
    /// The machine at startup.
    pub open spec fn initial(quirks: Quirks) -> Machine {
        Machine {
            v: Seq::new(16, |k: int| 0u8),
            i: 0,
            pc: 0x200,
            dt: 0,
            st: 0,
            memory: initial_memory(),
            display: blank_display(),
            stack: Seq::empty(),
            key: None,
            dirty: false,
            quirks,
            ignored: 0,
        }
    }

    /// The shape of the state and what holds of it at all times: at most
    /// sixteen return addresses, each one an address of an instruction, a key
    /// code below 16, and the font in place.
    pub open spec fn valid(self) -> bool {
        &&& self.v.len() == 16
        &&& self.memory.len() == 4096
        &&& self.display.len() == 32
        &&& forall|r: int| 0 <= r < 32 ==> (#[trigger] self.display[r]).len() == 64
        &&& self.stack.len() <= 16
        &&& forall|k: int| 0 <= k < self.stack.len() ==> is_code_address(#[trigger] self.stack[k])
        &&& (self.key matches Some(k) ==> k < 16)
        &&& forall|a: int| 0 <= a < 80 ==> #[trigger] self.memory[a] == FONT[a]
    }

    /// The value of register `x`.
    pub open spec fn reg(self, x: u8) -> u8 {
        self.v[x as int]
    }

    /// The machine with register `x` set to `value`.
    pub open spec fn with_reg(self, x: u8, value: u8) -> Machine {
        Machine { v: self.v.update(x as int, value), ..self }
    }

    /// The machine with memory byte `a` set to `value`.
    pub open spec fn with_byte(self, a: int, value: u8) -> Machine {
        Machine { memory: self.memory.update(a, value), ..self }
    }

    /// The machine with the program counter moved past one more instruction
    /// if `skip` holds.
    pub open spec fn skip_if(self, skip: bool) -> Machine {
        if skip {
            Machine { pc: (self.pc + 2) as u16, ..self }
        } else {
            self
        }
    }

    /// The machine with one more ignored word counted.
    pub open spec fn with_one_more_ignored(self) -> Machine {
        Machine {
            ignored: if self.ignored < u64::MAX { (self.ignored + 1) as u64 } else { self.ignored },
            ..self
        }
    }

    /// The source of a shift: `Vx` under the shift quirk, else `Vy`.
    pub open spec fn shift_operand(self, x: u8, y: u8) -> u8 {
        if self.quirks.shift {
            self.reg(x)
        } else {
            self.reg(y)
        }
    }

    /// `I` after a block transfer of `V0..=Vx`.
    pub open spec fn index_after_block(self, x: u8) -> u16 {
        if self.quirks.load_store {
            self.i
        } else {
            (self.i + x + 1) as u16
        }
    }

    /// The machine after the draw instruction: the sprite is blended in, the
    /// display is marked as changed, and `VF` tells whether the pixel under
    /// the last sprite bit was lit before. Without rows `VF` is kept.
    pub open spec fn drawn(self, x: u8, y: u8, n: u8) -> Machine {
        let vx = self.reg(x);
        let vy = self.reg(y);
        let hit = self.display[target_row(vy, n - 1)][target_col(vx, 7)];
        Machine {
            display: drawn_display(self.display, self.memory, self.i as int, vx, vy, n as int),
            v: if n == 0 { self.v } else { self.v.update(15, flag(hit)) },
            dirty: true,
            ..self
        }
    }

    /// The instruction word at the program counter, high byte first.
    pub open spec fn fetched(self) -> u16 {
        (self.memory[self.pc as int] * 256 + self.memory[self.pc + 1]) as u16
    }
}

/// The fault that executing `op` raises, if any.
pub open spec fn fault_of(m: Machine, op: u16) -> Option<Fault> {
    let at = Fault::Address { pc: m.pc, opcode: op, index: m.i };
    if !is_code_address(m.pc) {
        Some(Fault::ProgramCounter { pc: m.pc })
    } else {
        match decoded(op) {
            Instruction::Ret => if m.stack.len() == 0 {
                Some(Fault::StackUnderflow { pc: m.pc, opcode: op })
            } else {
                None
            },
            Instruction::Call { .. } => if m.stack.len() >= 16 {
                Some(Fault::StackOverflow { pc: m.pc, opcode: op })
            } else {
                None
            },
            Instruction::Drw { n, .. } => if n > 0 && m.i + n > 4096 {
                Some(at)
            } else {
                None
            },
            Instruction::Bcd { .. } => if m.i < 80 || m.i + 2 > 4095 {
                Some(at)
            } else {
                None
            },
            Instruction::Store { x } => if m.i < 80 || m.i + x > 4095 {
                Some(at)
            } else {
                None
            },
            Instruction::Load { x } => if m.i + x > 4095 {
                Some(at)
            } else {
                None
            },
            _ => None,
        }
    }
}

/// How executing `op` leaves the program counter.
pub open spec fn flow_of(m: Machine, op: u16) -> Flow {
    match decoded(op) {
        Instruction::Jp { .. } | Instruction::Call { .. } | Instruction::JpV0 { .. } => Flow::Jumped,
        Instruction::LdKey { .. } => if m.key is None {
            Flow::AwaitKey
        } else {
            Flow::Next
        },
        _ => Flow::Next,
    }
}

/// The machine after `op` has been executed without a fault. `rand` is the
/// random byte that the random instruction consumes. Where two registers are
/// written, the second write is the one that stays if they coincide.
pub open spec fn after(m: Machine, op: u16, rand: u8) -> Machine {
    match decoded(op) {
        Instruction::Cls => Machine { display: blank_display(), dirty: true, ..m },
        Instruction::Ret => Machine { pc: m.stack.last(), stack: m.stack.drop_last(), ..m },
        Instruction::Jp { nnn } => Machine { pc: nnn, ..m },
        Instruction::Call { nnn } => Machine { pc: nnn, stack: m.stack.push(m.pc), ..m },
        Instruction::SeByte { x, kk } => m.skip_if(m.reg(x) == kk),
        Instruction::SneByte { x, kk } => m.skip_if(m.reg(x) != kk),
        Instruction::SeReg { x, y } => m.skip_if(m.reg(x) == m.reg(y)),
        Instruction::LdByte { x, kk } => m.with_reg(x, kk),
        Instruction::AddByte { x, kk } => m.with_reg(x, ((m.reg(x) + kk) % 256) as u8).with_reg(
            15,
            flag(m.reg(x) + kk > 255),
        ),
        Instruction::LdReg { x, y } => m.with_reg(x, m.reg(y)),
        Instruction::Or { x, y } => m.with_reg(x, m.reg(x) | m.reg(y)),
        Instruction::And { x, y } => m.with_reg(x, m.reg(x) & m.reg(y)),
        Instruction::Xor { x, y } => m.with_reg(x, m.reg(x) ^ m.reg(y)),
        Instruction::AddReg { x, y } => m.with_reg(
            x,
            ((m.reg(x) + m.reg(y)) % 256) as u8,
        ).with_reg(15, flag(m.reg(x) + m.reg(y) > 255)),
        Instruction::Sub { x, y } => m.with_reg(
            x,
            ((m.reg(x) + 256 - m.reg(y)) % 256) as u8,
        ).with_reg(15, flag(m.reg(x) >= m.reg(y))),
        Instruction::Shr { x, y } => m.with_reg(15, m.shift_operand(x, y) % 2).with_reg(
            x,
            m.shift_operand(x, y) / 2,
        ),
        Instruction::Subn { x, y } => m.with_reg(
            x,
            ((m.reg(y) + 256 - m.reg(x)) % 256) as u8,
        ).with_reg(15, flag(m.reg(y) >= m.reg(x))),
        Instruction::Shl { x, y } => m.with_reg(15, m.shift_operand(x, y) / 128).with_reg(
            x,
            ((m.shift_operand(x, y) * 2) % 256) as u8,
        ),
        Instruction::SneReg { x, y } => m.skip_if(m.reg(x) != m.reg(y)),
        Instruction::LdI { nnn } => Machine { i: nnn, ..m },
        Instruction::JpV0 { nnn } => Machine { pc: (nnn + m.reg(0)) as u16, ..m },
        Instruction::Rnd { x, kk } => m.with_reg(x, rand & kk),
        Instruction::Drw { x, y, n } => m.drawn(x, y, n),
        Instruction::Skp { x } => m.skip_if(m.key == Some(m.reg(x))),
        Instruction::Sknp { x } => m.skip_if(m.key != Some(m.reg(x))),
        Instruction::LdVxDt { x } => m.with_reg(x, m.dt),
        Instruction::LdKey { x } => match m.key {
            Some(k) => m.with_reg(x, k),
            None => m,
        },
        Instruction::LdDtVx { x } => Machine { dt: m.reg(x), ..m },
        Instruction::LdStVx { x } => Machine { st: m.reg(x), ..m },
        Instruction::AddI { x } => Machine { i: ((m.i + m.reg(x)) % 65536) as u16, ..m },
        Instruction::LdFont { x } => Machine { i: (m.reg(x) * 5) as u16, ..m },
        Instruction::Bcd { x } => m.with_byte(m.i as int, m.reg(x) / 100).with_byte(
            m.i + 1,
            (m.reg(x) / 10) % 10,
        ).with_byte(m.i + 2, m.reg(x) % 10),
        Instruction::Store { x } => Machine {
            memory: stored(m.memory, m.v, m.i as int, x as int),
            i: m.index_after_block(x),
            ..m
        },
        Instruction::Load { x } => Machine {
            v: loaded(m.v, m.memory, m.i as int, x as int),
            i: m.index_after_block(x),
            ..m
        },
        Instruction::Unknown { .. } => m.with_one_more_ignored(),
    }
}

/// The fault that the next clock cycle raises, if any: none while the delay
/// timer runs, else that of the instruction at the program counter.
pub open spec fn cycle_fault(m: Machine) -> Option<Fault> {
    if m.dt != 0 {
        None
    } else if !is_code_address(m.pc) {
        Some(Fault::ProgramCounter { pc: m.pc })
    } else {
        fault_of(m, m.fetched())
    }
}

/// What the next clock cycle does, if it raises no fault.
pub open spec fn tick_of(m: Machine) -> Tick {
    if m.dt != 0 {
        Tick::Delayed
    } else if flow_of(m, m.fetched()) == Flow::AwaitKey {
        Tick::AwaitKey
    } else {
        Tick::Executed
    }
}

/// The machine with the sound timer one lower, unless it is zero.
pub open spec fn sound_ticked(m: Machine) -> Machine {
    Machine { st: if m.st > 0 { (m.st - 1) as u8 } else { 0 }, ..m }
}

/// The machine after one clock cycle without a fault. While the delay timer
/// runs it is decremented and nothing else happens. Otherwise the instruction
/// at the program counter is executed, the sound timer is decremented, and
/// the program counter moves on by two unless the instruction has set it.
/// An instruction that awaits a key changes nothing.
pub open spec fn after_cycle(m: Machine, rand: u8) -> Machine {
    if m.dt != 0 {
        Machine { dt: (m.dt - 1) as u8, ..m }
    } else {
        let op = m.fetched();
        let e = sound_ticked(after(m, op, rand));
        match flow_of(m, op) {
            Flow::AwaitKey => m,
            Flow::Jumped => e,
            Flow::Next => Machine { pc: (e.pc + 2) as u16, ..e },
        }
    }
}

} // verus!
