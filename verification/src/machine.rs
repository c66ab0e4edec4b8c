//! The executable machine.

use crate::instruction::{decode, Instruction};
use crate::model::{
    after, after_cycle, blended_pixel, cycle_fault, drawn_display, fault_of, flow_of,
    image_error, is_code_address, loaded, sprite_bit, stored, target_col, target_row,
    tick_of, with_image, Fault, Flow, Machine, Quirks, RomError, Tick, FONT, MEMORY_SIZE,
    PROGRAM_START, SCREEN_HEIGHT, SCREEN_WIDTH, STACK_LIMIT,
};
use vstd::prelude::*;

verus! {

/// The display as rows of pixels.
pub open spec fn grid_view(display: [[bool; SCREEN_WIDTH]; SCREEN_HEIGHT]) -> Seq<Seq<bool>> {
    Seq::new(32, |r: int| display[r]@)
}

/// A CHIP-8 machine: registers, memory, display, call stack, timers, the
/// pressed key and the configured quirks.
pub struct Chip8 {
    registers: [u8; 16],
    i_reg: u16,
    pc: u16,
    st: u8,
    dt: u8,
    memory: [u8; MEMORY_SIZE],
    display: [[bool; SCREEN_WIDTH]; SCREEN_HEIGHT],
    stack: Vec<u16>,
    sp: u8,
    key: Option<u8>,
    dirty: bool,
    quirks: Quirks,
    ignored: u64,
}

impl View for Chip8 {
    type V = Machine;

    closed spec fn view(&self) -> Machine {
        Machine {
            v: self.registers@,
            i: self.i_reg,
            pc: self.pc,
            dt: self.dt,
            st: self.st,
            memory: self.memory@,
            display: grid_view(self.display),
            stack: self.stack@,
            key: self.key,
            dirty: self.dirty,
            quirks: self.quirks,
            ignored: self.ignored,
        }
    }
}

impl Chip8 {
    /// The state is valid and the stack pointer is the depth of the stack.
    pub closed spec fn wf(&self) -> bool {
        &&& self@.valid()
        &&& self.sp == self.stack@.len()
    }

    /// A well-formed machine has a valid state.
    pub proof fn wf_is_valid(&self)
        requires
            self.wf(),
        ensures
            self@.valid(),
    {
    }

    /// A machine at startup with both quirks off.
    pub fn new() -> (c: Chip8)
        ensures
            c.wf(),
            c@ == Machine::initial((Quirks { shift: false, load_store: false })),
    {
        Chip8::with_quirks(Quirks { shift: false, load_store: false })
    }

    /// A machine at startup: the font in memory, everything else zero, the
    /// program counter at `0x200`.
    pub fn with_quirks(quirks: Quirks) -> (c: Chip8)
        ensures
            c.wf(),
            c@ == Machine::initial(quirks),
    {
        let mut memory: [u8; MEMORY_SIZE] = [0u8; MEMORY_SIZE];
        let mut a: usize = 0;
        while a < 80
            invariant
                a <= 80,
                forall|k: int| 0 <= k < a ==> memory[k] == FONT[k],
                forall|k: int| a <= k < 4096 ==> memory[k] == 0,
            decreases 80 - a,
        {
            memory[a] = FONT[a];
            a += 1;
        }
        let c = Chip8 {
            registers: [0u8; 16],
            i_reg: 0,
            pc: PROGRAM_START,
            st: 0,
            dt: 0,
            memory,
            display: [[false; SCREEN_WIDTH]; SCREEN_HEIGHT],
            stack: Vec::new(),
            sp: 0,
            key: None,
            dirty: false,
            quirks,
            ignored: 0,
        };
        proof {
            let m = Machine::initial(quirks);
            assert(c@.v =~= m.v);
            assert(c@.memory =~= m.memory);
            assert(c@.display =~~= m.display);
            assert(c@.stack =~= m.stack);
        }
        c
    }

    /// Copies a program image into memory from `0x200` on, two bytes at a
    /// time. An image of more than 3584 bytes or of odd length is refused
    /// and nothing changes.
    pub fn load_rom(&mut self, rom: &[u8]) -> (r: Result<(), RomError>)
        requires
            old(self).wf(),
        ensures
            final(self).wf(),
            match image_error(rom@) {
                Some(e) => r == Err::<(), RomError>(e) && final(self)@ == old(self)@,
                None => r == Ok::<(), RomError>(()) && final(self)@ == (Machine {
                    memory: with_image(old(self)@.memory, rom@),
                    ..old(self)@
                }),
            },
    {
        let len: usize = rom.len();
        if len > 3584 {
            return Err(RomError::TooLarge { len });
        }
        if len % 2 == 1 {
            return Err(RomError::OddLength { len });
        }
        let mut k: usize = 0;
        while k < len
            invariant
                len == rom@.len(),
                len <= 3584,
                len % 2 == 0,
                k % 2 == 0,
                k <= len,
                self.wf(),
                self@ == (Machine { memory: self@.memory, ..old(self)@ }),
                forall|a: int|
                    0 <= a < 4096 ==> self@.memory[a] == if 0x200 <= a < 0x200 + k {
                        rom@[a - 0x200]
                    } else {
                        old(self)@.memory[a]
                    },
            decreases len - k,
        {
            self.set_byte(0x200 + k, rom[k]);
            self.set_byte(0x200 + k + 1, rom[k + 1]);
            k += 2;
        }
        proof {
            assert(self@.memory =~= with_image(old(self)@.memory, rom@));
        }
        Ok(())
    }

    /// Presses a key. A code above 15 is no key: it is refused and the
    /// pressed key stays as it was.
    pub fn press_key(&mut self, code: u8) -> (accepted: bool)
        requires
            old(self).wf(),
        ensures
            final(self).wf(),
            accepted == (code < 16),
            final(self)@ == (Machine {
                key: if code < 16 { Some(code) } else { old(self)@.key },
                ..old(self)@
            }),
    {
        if code < 16 {
            self.key = Some(code);
            true
        } else {
            false
        }
    }

    /// Releases the pressed key.
    pub fn release_key(&mut self)
        requires
            old(self).wf(),
        ensures
            final(self).wf(),
            final(self)@ == (Machine { key: None, ..old(self)@ }),
    {
        self.key = None;
    }

    /// Tells whether the display changed since the last call, and resets
    /// that mark.
    pub fn take_dirty(&mut self) -> (dirty: bool)
        requires
            old(self).wf(),
        ensures
            final(self).wf(),
            dirty == old(self)@.dirty,
            final(self)@ == (Machine { dirty: false, ..old(self)@ }),
    {
        let dirty = self.dirty;
        self.dirty = false;
        dirty
    }

    fn set_reg(&mut self, x: u8, value: u8)
        requires
            old(self).wf(),
            x < 16,
        ensures
            final(self).wf(),
            final(self)@ == old(self)@.with_reg(x, value),
    {
        self.registers[x as usize] = value;
    }

    fn set_byte(&mut self, a: usize, value: u8)
        requires
            old(self).wf(),
            80 <= a < 4096,
        ensures
            final(self).wf(),
            final(self)@ == old(self)@.with_byte(a as int, value),
    {
        self.memory[a] = value;
    }

    fn skip_if(&mut self, skip: bool)
        requires
            old(self).wf(),
            old(self)@.pc <= 0xFFE,
        ensures
            final(self).wf(),
            final(self)@ == old(self)@.skip_if(skip),
    {
        if skip {
            self.pc = self.pc + 2;
        }
    }

    /// Executes one instruction word, taken to stand at the program counter.
    /// `rand` is the random byte for the random instruction. On a fault
    /// nothing changes. The program counter is not advanced past the
    /// instruction: the result says whether that remains to be done.
    pub fn execute(&mut self, opcode: u16, rand: u8) -> (r: Result<Flow, Fault>)
        requires
            old(self).wf(),
        ensures
            final(self).wf(),
            match fault_of(old(self)@, opcode) {
                Some(f) => r == Err::<Flow, Fault>(f) && final(self)@ == old(self)@,
                None => r == Ok::<Flow, Fault>(flow_of(old(self)@, opcode)) && final(self)@
                    == after(old(self)@, opcode, rand),
            },
    {
        let pc: u16 = self.pc;
        if pc < PROGRAM_START || pc > 0xFFE {
            return Err(Fault::ProgramCounter { pc });
        }
        let index: u16 = self.i_reg;
        match decode(opcode) {
            Instruction::Cls => {
                self.display = [[false; SCREEN_WIDTH]; SCREEN_HEIGHT];
                self.dirty = true;
                proof {
                    assert(self@.display =~~= crate::model::blank_display());
                }
                Ok(Flow::Next)
            },
            Instruction::Ret => {
                if self.sp == 0 {
                    return Err(Fault::StackUnderflow { pc, opcode });
                }
                let target: u16 = self.stack[self.stack.len() - 1];
                self.stack.pop();
                self.sp = self.sp - 1;
                self.pc = target;
                Ok(Flow::Next)
            },
            Instruction::Jp { nnn } => {
                self.pc = nnn;
                Ok(Flow::Jumped)
            },
            Instruction::Call { nnn } => {
                if self.sp >= STACK_LIMIT {
                    return Err(Fault::StackOverflow { pc, opcode });
                }
                self.stack.push(pc);
                self.sp = self.sp + 1;
                self.pc = nnn;
                Ok(Flow::Jumped)
            },
            Instruction::SeByte { x, kk } => {
                let skip: bool = self.registers[x as usize] == kk;
                self.skip_if(skip);
                Ok(Flow::Next)
            },
            Instruction::SneByte { x, kk } => {
                let skip: bool = self.registers[x as usize] != kk;
                self.skip_if(skip);
                Ok(Flow::Next)
            },
            Instruction::SeReg { x, y } => {
                let skip: bool = self.registers[x as usize] == self.registers[y as usize];
                self.skip_if(skip);
                Ok(Flow::Next)
            },
            Instruction::SneReg { x, y } => {
                let skip: bool = self.registers[x as usize] != self.registers[y as usize];
                self.skip_if(skip);
                Ok(Flow::Next)
            },
            Instruction::LdByte { x, kk } => {
                self.set_reg(x, kk);
                Ok(Flow::Next)
            },
            Instruction::AddByte { x, kk } => {
                let sum: u16 = self.registers[x as usize] as u16 + kk as u16;
                self.set_reg(x, (sum % 256) as u8);
                self.set_reg(15, if sum > 255 { 1 } else { 0 });
                Ok(Flow::Next)
            },
            Instruction::LdReg { .. }
            | Instruction::Or { .. }
            | Instruction::And { .. }
            | Instruction::Xor { .. }
            | Instruction::AddReg { .. }
            | Instruction::Sub { .. }
            | Instruction::Shr { .. }
            | Instruction::Subn { .. }
            | Instruction::Shl { .. } => {
                self.execute_arithmetic(opcode);
                Ok(Flow::Next)
            },
            Instruction::LdI { nnn } => {
                self.i_reg = nnn;
                Ok(Flow::Next)
            },
            Instruction::JpV0 { nnn } => {
                self.pc = nnn + self.registers[0] as u16;
                Ok(Flow::Jumped)
            },
            Instruction::Rnd { x, kk } => {
                self.set_reg(x, rand & kk);
                Ok(Flow::Next)
            },
            Instruction::Drw { x, y, n } => {
                if n > 0 && index as usize + n as usize > 4096 {
                    return Err(Fault::Address { pc, opcode, index });
                }
                let vx: u8 = self.registers[x as usize];
                let vy: u8 = self.registers[y as usize];
                let hit: bool = draw_sprite(&mut self.display, &self.memory, index as usize, vx, vy, n);
                self.dirty = true;
                if n > 0 {
                    self.registers[15] = if hit { 1 } else { 0 };
                }
                Ok(Flow::Next)
            },
            Instruction::Skp { x } => {
                let vx: u8 = self.registers[x as usize];
                let skip: bool = match self.key {
                    Some(k) => k == vx,
                    None => false,
                };
                self.skip_if(skip);
                Ok(Flow::Next)
            },
            Instruction::Sknp { x } => {
                let vx: u8 = self.registers[x as usize];
                let skip: bool = match self.key {
                    Some(k) => k != vx,
                    None => true,
                };
                self.skip_if(skip);
                Ok(Flow::Next)
            },
            Instruction::LdVxDt { x } => {
                let dt: u8 = self.dt;
                self.set_reg(x, dt);
                Ok(Flow::Next)
            },
            Instruction::LdKey { x } => {
                match self.key {
                    Some(k) => {
                        self.set_reg(x, k);
                        Ok(Flow::Next)
                    },
                    None => Ok(Flow::AwaitKey),
                }
            },
            Instruction::LdDtVx { x } => {
                self.dt = self.registers[x as usize];
                Ok(Flow::Next)
            },
            Instruction::LdStVx { x } => {
                self.st = self.registers[x as usize];
                Ok(Flow::Next)
            },
            Instruction::AddI { x } => {
                let sum: u32 = index as u32 + self.registers[x as usize] as u32;
                self.i_reg = (sum % 65536) as u16;
                Ok(Flow::Next)
            },
            Instruction::LdFont { x } => {
                self.i_reg = self.registers[x as usize] as u16 * 5;
                Ok(Flow::Next)
            },
            Instruction::Bcd { x } => {
                if index < 80 || index > 4093 {
                    return Err(Fault::Address { pc, opcode, index });
                }
                let vx: u8 = self.registers[x as usize];
                let a: usize = index as usize;
                self.set_byte(a, vx / 100);
                self.set_byte(a + 1, (vx / 10) % 10);
                self.set_byte(a + 2, vx % 10);
                Ok(Flow::Next)
            },
            Instruction::Store { x } => {
                if index < 80 || index as usize + x as usize > 4095 {
                    return Err(Fault::Address { pc, opcode, index });
                }
                store_block(&mut self.memory, &self.registers, index as usize, x as usize);
                if !self.quirks.load_store {
                    self.i_reg = index + x as u16 + 1;
                }
                Ok(Flow::Next)
            },
            Instruction::Load { x } => {
                if index as usize + x as usize > 4095 {
                    return Err(Fault::Address { pc, opcode, index });
                }
                load_block(&mut self.registers, &self.memory, index as usize, x as usize);
                if !self.quirks.load_store {
                    self.i_reg = index + x as u16 + 1;
                }
                Ok(Flow::Next)
            },
            Instruction::Unknown { .. } => {
                if self.ignored < u64::MAX {
                    self.ignored = self.ignored + 1;
                }
                Ok(Flow::Next)
            },
        }
    }

    /// The register-to-register family `8XYN`.
    fn execute_arithmetic(&mut self, opcode: u16)
        requires
            old(self).wf(),
            crate::instruction::family_of(opcode) == 8,
            !(crate::instruction::decoded(opcode) is Unknown),
        ensures
            final(self).wf(),
            final(self)@ == after(old(self)@, opcode, 0),
    {
        match decode(opcode) {
            Instruction::LdReg { x, y } => {
                let vy: u8 = self.registers[y as usize];
                self.set_reg(x, vy);
            },
            Instruction::Or { x, y } => {
                let value: u8 = self.registers[x as usize] | self.registers[y as usize];
                self.set_reg(x, value);
            },
            Instruction::And { x, y } => {
                let value: u8 = self.registers[x as usize] & self.registers[y as usize];
                self.set_reg(x, value);
            },
            Instruction::Xor { x, y } => {
                let value: u8 = self.registers[x as usize] ^ self.registers[y as usize];
                self.set_reg(x, value);
            },
            Instruction::AddReg { x, y } => {
                let sum: u16 = self.registers[x as usize] as u16 + self.registers[y as usize] as u16;
                self.set_reg(x, (sum % 256) as u8);
                self.set_reg(15, if sum > 255 { 1 } else { 0 });
            },
            Instruction::Sub { x, y } => {
                let vx: u8 = self.registers[x as usize];
                let vy: u8 = self.registers[y as usize];
                self.set_reg(x, ((vx as u16 + 256 - vy as u16) % 256) as u8);
                self.set_reg(15, if vx >= vy { 1 } else { 0 });
            },
            Instruction::Subn { x, y } => {
                let vx: u8 = self.registers[x as usize];
                let vy: u8 = self.registers[y as usize];
                self.set_reg(x, ((vy as u16 + 256 - vx as u16) % 256) as u8);
                self.set_reg(15, if vy >= vx { 1 } else { 0 });
            },
            Instruction::Shr { x, y } => {
                let operand: u8 = if self.quirks.shift {
                    self.registers[x as usize]
                } else {
                    self.registers[y as usize]
                };
                self.set_reg(15, operand % 2);
                self.set_reg(x, operand / 2);
            },
            Instruction::Shl { x, y } => {
                let operand: u8 = if self.quirks.shift {
                    self.registers[x as usize]
                } else {
                    self.registers[y as usize]
                };
                self.set_reg(15, operand / 128);
                self.set_reg(x, ((operand as u16 * 2) % 256) as u8);
            },
            _ => {},
        }
    }

    /// Reads the instruction word at the program counter, high byte first.
    pub fn fetch(&self) -> (r: Result<u16, Fault>)
        requires
            self.wf(),
        ensures
            is_code_address(self@.pc) ==> r == Ok::<u16, Fault>(self@.fetched()),
            !is_code_address(self@.pc) ==> r == Err::<u16, Fault>(
                Fault::ProgramCounter { pc: self@.pc },
            ),
    {
        let pc: u16 = self.pc;
        if pc < PROGRAM_START || pc > 0xFFE {
            return Err(Fault::ProgramCounter { pc });
        }
        let high: u16 = self.memory[pc as usize] as u16;
        let low: u16 = self.memory[pc as usize + 1] as u16;
        Ok(high * 256 + low)
    }

    /// Runs one clock cycle. While the delay timer runs, it is decremented
    /// and no instruction is executed. Otherwise one instruction is fetched
    /// and executed, the sound timer is decremented, and the program counter
    /// is advanced unless the instruction has set it. On a fault, or while a
    /// key is awaited, nothing changes.
    pub fn cycle(&mut self, rand: u8) -> (r: Result<Tick, Fault>)
        requires
            old(self).wf(),
        ensures
            final(self).wf(),
            match cycle_fault(old(self)@) {
                Some(f) => r == Err::<Tick, Fault>(f) && final(self)@ == old(self)@,
                None => r == Ok::<Tick, Fault>(tick_of(old(self)@)) && final(self)@
                    == after_cycle(old(self)@, rand),
            },
    {
        if self.dt != 0 {
            self.dt = self.dt - 1;
            return Ok(Tick::Delayed);
        }
        let opcode: u16 = match self.fetch() {
            Ok(word) => word,
            Err(f) => {
                return Err(f);
            },
        };
        match self.execute(opcode, rand) {
            Err(f) => Err(f),
            Ok(Flow::AwaitKey) => Ok(Tick::AwaitKey),
            Ok(Flow::Jumped) => {
                self.tick_sound();
                Ok(Tick::Executed)
            },
            Ok(Flow::Next) => {
                self.tick_sound();
                proof {
                    crate::laws::next_leaves_room(old(self)@, opcode, rand);
                }
                self.pc = self.pc + 2;
                Ok(Tick::Executed)
            },
        }
    }

    fn tick_sound(&mut self)
        requires
            old(self).wf(),
        ensures
            final(self).wf(),
            final(self)@ == crate::model::sound_ticked(old(self)@),
    {
        if self.st > 0 {
            self.st = self.st - 1;
        }
    }

    /// The registers `V0` to `VF`.
    pub fn registers(&self) -> (v: &[u8; 16])
        ensures
            v@ == self@.v,
    {
        &self.registers
    }

    /// The index register.
    pub fn index(&self) -> (i: u16)
        ensures
            i == self@.i,
    {
        self.i_reg
    }

    /// The program counter.
    pub fn program_counter(&self) -> (pc: u16)
        ensures
            pc == self@.pc,
    {
        self.pc
    }

    /// The delay timer.
    pub fn delay_timer(&self) -> (dt: u8)
        ensures
            dt == self@.dt,
    {
        self.dt
    }

    /// The sound timer.
    pub fn sound_timer(&self) -> (st: u8)
        ensures
            st == self@.st,
    {
        self.st
    }

    /// The 4096 bytes of memory.
    pub fn memory(&self) -> (m: &[u8; MEMORY_SIZE])
        ensures
            m@ == self@.memory,
    {
        &self.memory
    }

    /// The display: 32 rows of 64 pixels, `true` for a lit one.
    pub fn display(&self) -> (d: &[[bool; SCREEN_WIDTH]; SCREEN_HEIGHT])
        ensures
            grid_view(*d) == self@.display,
    {
        &self.display
    }

    /// The return addresses on the call stack, the most recent last.
    pub fn stack(&self) -> (s: &Vec<u16>)
        ensures
            s@ == self@.stack,
    {
        &self.stack
    }

    /// The number of return addresses on the call stack.
    pub fn stack_depth(&self) -> (sp: u8)
        requires
            self.wf(),
        ensures
            sp == self@.stack.len(),
            sp <= 16,
    {
        self.sp
    }

    /// The key that is pressed, if any.
    pub fn key(&self) -> (k: Option<u8>)
        ensures
            k == self@.key,
    {
        self.key
    }

    /// Whether the display changed since it was last rendered.
    pub fn is_dirty(&self) -> (dirty: bool)
        ensures
            dirty == self@.dirty,
    {
        self.dirty
    }

    /// How many words that match no pattern have been executed and
    /// ignored.
    pub fn ignored_words(&self) -> (count: u64)
        ensures
            count == self@.ignored,
    {
        self.ignored
    }

    /// The configured quirks.
    pub fn quirks(&self) -> (q: Quirks)
        ensures
            q == self@.quirks,
    {
        self.quirks
    }

}

/// Copies the registers `V0..=Vx` to memory from `base` on.
fn store_block(memory: &mut [u8; MEMORY_SIZE], registers: &[u8; 16], base: usize, x: usize)
    requires
        x < 16,
        base + x < 4096,
    ensures
        final(memory)@ == stored(old(memory)@, registers@, base as int, x as int),
{
    let mut k: usize = 0;
    while k <= x
        invariant
            x < 16,
            base + x < 4096,
            k <= x + 1,
            forall|a: int|
                0 <= a < 4096 ==> memory[a] == if base <= a < base + k {
                    registers[a - base]
                } else {
                    old(memory)[a]
                },
        decreases x + 1 - k,
    {
        memory[base + k] = registers[k];
        k += 1;
    }
    proof {
        assert(memory@ =~= stored(old(memory)@, registers@, base as int, x as int));
    }
}

/// Copies memory from `base` on to the registers `V0..=Vx`.
fn load_block(registers: &mut [u8; 16], memory: &[u8; MEMORY_SIZE], base: usize, x: usize)
    requires
        x < 16,
        base + x < 4096,
    ensures
        final(registers)@ == loaded(old(registers)@, memory@, base as int, x as int),
{
    let mut k: usize = 0;
    while k <= x
        invariant
            x < 16,
            base + x < 4096,
            k <= x + 1,
            forall|j: int|
                0 <= j < 16 ==> registers[j] == if j < k {
                    memory[base + j]
                } else {
                    old(registers)[j]
                },
        decreases x + 1 - k,
    {
        registers[k] = memory[base + k];
        k += 1;
    }
    proof {
        assert(registers@ =~= loaded(old(registers)@, memory@, base as int, x as int));
    }
}

/// One step of blending: bit `col` of sprite row `row` changes the pixel
/// it lands on and no other.
proof fn blend_step(
    before: Seq<Seq<bool>>,
    memory: Seq<u8>,
    base: int,
    vx: u8,
    vy: u8,
    row: int,
    col: int,
    r: int,
    c: int,
)
    requires
        0 <= row < 16,
        0 <= col < 8,
        0 <= r < 32,
        0 <= c < 64,
    ensures
        r == target_row(vy, row) && c == target_col(vx, col) ==> {
            &&& blended_pixel(before, memory, base, vx, vy, row, col, r, c) == before[r][c]
            &&& blended_pixel(before, memory, base, vx, vy, row, col + 1, r, c) == (before[r][c]
                != sprite_bit(memory[base + row], col as u8))
        },
        !(r == target_row(vy, row) && c == target_col(vx, col)) ==> blended_pixel(
            before,
            memory,
            base,
            vx,
            vy,
            row,
            col + 1,
            r,
            c,
        ) == blended_pixel(before, memory, base, vx, vy, row, col, r, c),
{
}

/// Blends the `n`-row sprite at `base` into the display at `(vx, vy)`,
/// pixel by pixel, and tells whether the pixel under the last sprite bit was
/// lit before.
fn draw_sprite(
    display: &mut [[bool; SCREEN_WIDTH]; SCREEN_HEIGHT],
    memory: &[u8; MEMORY_SIZE],
    base: usize,
    vx: u8,
    vy: u8,
    n: u8,
) -> (hit: bool)
    requires
        n < 16,
        n > 0 ==> base + n <= 4096,
    ensures
        grid_view(*final(display)) == drawn_display(
            grid_view(*old(display)),
            memory@,
            base as int,
            vx,
            vy,
            n as int,
        ),
        n > 0 ==> hit == grid_view(*old(display))[target_row(vy, n - 1)][target_col(vx, 7)],
{
    let ghost before = grid_view(*display);
    let ghost mem = memory@;
    let ghost b = base as int;
    let mut hit: bool = false;
    let mut row: u8 = 0;
    while row < n
        invariant
            n < 16,
            n > 0 ==> base + n <= 4096,
            row <= n,
            mem == memory@,
            b == base,
            before == grid_view(*old(display)),
            forall|r: int, c: int|
                0 <= r < 32 && 0 <= c < 64 ==> #[trigger] display[r][c] == blended_pixel(
                    before,
                    mem,
                    b,
                    vx,
                    vy,
                    row as int,
                    0,
                    r,
                    c,
                ),
            row > 0 ==> hit == before[target_row(vy, row - 1)][target_col(vx, 7)],
        decreases n - row,
    {
        let byte: u8 = memory[base + row as usize];
        let tr: usize = (vy as usize + row as usize) % 32;
        let mut col: u8 = 0;
        while col < 8
            invariant
                row < n < 16,
                base + n <= 4096,
                col <= 8,
                mem == memory@,
                b == base,
                byte == mem[b + row],
                tr == target_row(vy, row as int),
                before == grid_view(*old(display)),
                forall|r: int, c: int|
                    0 <= r < 32 && 0 <= c < 64 ==> #[trigger] display[r][c] == blended_pixel(
                        before,
                        mem,
                        b,
                        vx,
                        vy,
                        row as int,
                        col as int,
                        r,
                        c,
                    ),
                col > 0 ==> hit == before[tr as int][target_col(vx, col - 1)],
            decreases 8 - col,
        {
            let tc: usize = (vx as usize + col as usize) % 64;
            let bit: bool = byte & (0x80u8 >> col) != 0;
            let lit: bool = display[tr][tc];
            let ghost prev = *display;
            proof {
                blend_step(before, mem, b, vx, vy, row as int, col as int, tr as int, tc as int);
                assert(lit == before[tr as int][tc as int]);
            }
            hit = lit;
            display[tr][tc] = lit != bit;
            proof {
                assert forall|r: int, c: int| 0 <= r < 32 && 0 <= c < 64 implies #[trigger] display[r][c]
                    == blended_pixel(before, mem, b, vx, vy, row as int, col + 1, r, c) by {
                    blend_step(before, mem, b, vx, vy, row as int, col as int, r, c);
                    if r == tr && c == tc {
                    } else {
                        assert(display[r][c] == prev[r][c]);
                    }
                }
            }
            col += 1;
        }
        row += 1;
        proof {
            assert forall|r: int, c: int| 0 <= r < 32 && 0 <= c < 64 implies #[trigger] display[r][c]
                == blended_pixel(before, mem, b, vx, vy, row as int, 0, r, c) by {
                assert(display[r][c] == blended_pixel(before, mem, b, vx, vy, row - 1, 8, r, c));
            }
        }
    }
    proof {
        assert forall|r: int, c: int| 0 <= r < 32 && 0 <= c < 64 implies grid_view(*display)[r][c]
            == blended_pixel(before, mem, b, vx, vy, n as int, 0, r, c) by {
            assert(display[r][c] == blended_pixel(before, mem, b, vx, vy, n as int, 0, r, c));
        }
        assert(grid_view(*display) =~~= drawn_display(before, mem, b, vx, vy, n as int));
    }
    hit
}

} // verus!
