//! The instruction set: one variant per recognised bit pattern.

use vstd::prelude::*;

verus! {

/// A decoded instruction word. `x` and `y` are register indices, `kk` an
/// immediate byte, `nnn` a 12-bit address and `n` a nibble.
#[derive(Clone, Copy, Debug, PartialEq, Eq, Structural)]
pub enum Instruction {
    /// `00E0`: clear the display.
    Cls,
    /// `00EE`: return from a subroutine.
    Ret,
    /// `1NNN`: jump to `nnn`.
    Jp { nnn: u16 },
    /// `2NNN`: call the subroutine at `nnn`.
    Call { nnn: u16 },
    /// `3XKK`: skip the next instruction if `Vx == kk`.
    SeByte { x: u8, kk: u8 },
    /// `4XKK`: skip the next instruction if `Vx != kk`.
    SneByte { x: u8, kk: u8 },
    /// `5XY0`: skip the next instruction if `Vx == Vy`.
    SeReg { x: u8, y: u8 },
    /// `6XKK`: `Vx = kk`.
    LdByte { x: u8, kk: u8 },
    /// `7XKK`: `Vx += kk`, with the carry in `VF`.
    AddByte { x: u8, kk: u8 },
    /// `8XY0`: `Vx = Vy`.
    LdReg { x: u8, y: u8 },
    /// `8XY1`: `Vx |= Vy`.
    Or { x: u8, y: u8 },
    /// `8XY2`: `Vx &= Vy`.
    And { x: u8, y: u8 },
    /// `8XY3`: `Vx ^= Vy`.
    Xor { x: u8, y: u8 },
    /// `8XY4`: `Vx += Vy`, with the carry in `VF`.
    AddReg { x: u8, y: u8 },
    /// `8XY5`: `Vx -= Vy`, with "no borrow" in `VF`.
    Sub { x: u8, y: u8 },
    /// `8XY6`: shift right by one, with the bit shifted out in `VF`.
    Shr { x: u8, y: u8 },
    /// `8XY7`: `Vx = Vy - Vx`, with "no borrow" in `VF`.
    Subn { x: u8, y: u8 },
    /// `8XYE`: shift left by one, with the bit shifted out in `VF`.
    Shl { x: u8, y: u8 },
    /// `9XY0`: skip the next instruction if `Vx != Vy`.
    SneReg { x: u8, y: u8 },
    /// `ANNN`: `I = nnn`.
    LdI { nnn: u16 },
    /// `BNNN`: jump to `nnn + V0`.
    JpV0 { nnn: u16 },
    /// `CXKK`: `Vx = random byte & kk`.
    Rnd { x: u8, kk: u8 },
    /// `DXYN`: draw the `n`-row sprite at `I` at `(Vx, Vy)`.
    Drw { x: u8, y: u8, n: u8 },
    /// `EX9E`: skip the next instruction if the pressed key is `Vx`.
    Skp { x: u8 },
    /// `EXA1`: skip the next instruction if the pressed key is not `Vx`.
    Sknp { x: u8 },
    /// `FX07`: `Vx = delay timer`.
    LdVxDt { x: u8 },
    /// `FX0A`: wait for a key and store it in `Vx`.
    LdKey { x: u8 },
    /// `FX15`: `delay timer = Vx`.
    LdDtVx { x: u8 },
    /// `FX18`: `sound timer = Vx`.
    LdStVx { x: u8 },
    /// `FX1E`: `I += Vx`.
    AddI { x: u8 },
    /// `FX29`: `I =` address of the font sprite for `Vx`.
    LdFont { x: u8 },
    /// `FX33`: store the decimal digits of `Vx` at `I`, `I + 1`, `I + 2`.
    Bcd { x: u8 },
    /// `FX55`: store `V0..=Vx` at `I`.
    Store { x: u8 },
    /// `FX65`: load `V0..=Vx` from `I`.
    Load { x: u8 },
    /// Any other word; executing it does nothing.
    Unknown { opcode: u16 },
}

/// The primary family of a word: its highest nibble.
pub open spec fn family_of(op: u16) -> int {
    op as int / 4096
}

/// The register index `x`: bits 8 to 11.
pub open spec fn x_of(op: u16) -> u8 {
    ((op as int / 256) % 16) as u8
}

/// The register index `y`: bits 4 to 7.
pub open spec fn y_of(op: u16) -> u8 {
    ((op as int / 16) % 16) as u8
}

/// The lowest nibble.
pub open spec fn n_of(op: u16) -> u8 {
    (op as int % 16) as u8
}

/// The low byte.
pub open spec fn kk_of(op: u16) -> u8 {
    (op as int % 256) as u8
}

/// The low twelve bits.
pub open spec fn nnn_of(op: u16) -> u16 {
    (op as int % 4096) as u16
}

/// What the arithmetic family `8XYN` decodes to.
pub open spec fn decoded_alu(op: u16) -> Instruction {
    let x = x_of(op);
    let y = y_of(op);
    let n = n_of(op);
    if n == 0 {
        Instruction::LdReg { x, y }
    } else if n == 1 {
        Instruction::Or { x, y }
    } else if n == 2 {
        Instruction::And { x, y }
    } else if n == 3 {
        Instruction::Xor { x, y }
    } else if n == 4 {
        Instruction::AddReg { x, y }
    } else if n == 5 {
        Instruction::Sub { x, y }
    } else if n == 6 {
        Instruction::Shr { x, y }
    } else if n == 7 {
        Instruction::Subn { x, y }
    } else if n == 0xE {
        Instruction::Shl { x, y }
    } else {
        Instruction::Unknown { opcode: op }
    }
}

/// What the family `FXKK` decodes to.
pub open spec fn decoded_misc(op: u16) -> Instruction {
    let x = x_of(op);
    let kk = kk_of(op);
    if kk == 0x07 {
        Instruction::LdVxDt { x }
    } else if kk == 0x0A {
        Instruction::LdKey { x }
    } else if kk == 0x15 {
        Instruction::LdDtVx { x }
    } else if kk == 0x18 {
        Instruction::LdStVx { x }
    } else if kk == 0x1E {
        Instruction::AddI { x }
    } else if kk == 0x29 {
        Instruction::LdFont { x }
    } else if kk == 0x33 {
        Instruction::Bcd { x }
    } else if kk == 0x55 {
        Instruction::Store { x }
    } else if kk == 0x65 {
        Instruction::Load { x }
    } else {
        Instruction::Unknown { opcode: op }
    }
}

/// The instruction that a 16-bit word stands for.
pub open spec fn decoded(op: u16) -> Instruction {
    let family = family_of(op);
    let x = x_of(op);
    let y = y_of(op);
    let n = n_of(op);
    let kk = kk_of(op);
    let nnn = nnn_of(op);
    if op == 0x00E0 {
        Instruction::Cls
    } else if op == 0x00EE {
        Instruction::Ret
    } else if family == 1 {
        Instruction::Jp { nnn }
    } else if family == 2 {
        Instruction::Call { nnn }
    } else if family == 3 {
        Instruction::SeByte { x, kk }
    } else if family == 4 {
        Instruction::SneByte { x, kk }
    } else if family == 5 && n == 0 {
        Instruction::SeReg { x, y }
    } else if family == 6 {
        Instruction::LdByte { x, kk }
    } else if family == 7 {
        Instruction::AddByte { x, kk }
    } else if family == 8 {
        decoded_alu(op)
    } else if family == 9 && n == 0 {
        Instruction::SneReg { x, y }
    } else if family == 0xA {
        Instruction::LdI { nnn }
    } else if family == 0xB {
        Instruction::JpV0 { nnn }
    } else if family == 0xC {
        Instruction::Rnd { x, kk }
    } else if family == 0xD {
        Instruction::Drw { x, y, n }
    } else if family == 0xE && kk == 0x9E {
        Instruction::Skp { x }
    } else if family == 0xE && kk == 0xA1 {
        Instruction::Sknp { x }
    } else if family == 0xF {
        decoded_misc(op)
    } else {
        Instruction::Unknown { opcode: op }
    }
}

impl Instruction {
    /// Register indices are below 16, addresses below 4096, nibbles below 16.
    pub open spec fn well_formed(self) -> bool {
        match self {
            Instruction::Cls | Instruction::Ret | Instruction::Unknown { .. } => true,
            Instruction::Jp { nnn }
            | Instruction::Call { nnn }
            | Instruction::LdI { nnn }
            | Instruction::JpV0 { nnn } => nnn < 4096,
            Instruction::SeByte { x, .. }
            | Instruction::SneByte { x, .. }
            | Instruction::LdByte { x, .. }
            | Instruction::AddByte { x, .. }
            | Instruction::Rnd { x, .. } => x < 16,
            Instruction::SeReg { x, y }
            | Instruction::LdReg { x, y }
            | Instruction::Or { x, y }
            | Instruction::And { x, y }
            | Instruction::Xor { x, y }
            | Instruction::AddReg { x, y }
            | Instruction::Sub { x, y }
            | Instruction::Shr { x, y }
            | Instruction::Subn { x, y }
            | Instruction::Shl { x, y }
            | Instruction::SneReg { x, y } => x < 16 && y < 16,
            Instruction::Drw { x, y, n } => x < 16 && y < 16 && n < 16,
            Instruction::Skp { x }
            | Instruction::Sknp { x }
            | Instruction::LdVxDt { x }
            | Instruction::LdKey { x }
            | Instruction::LdDtVx { x }
            | Instruction::LdStVx { x }
            | Instruction::AddI { x }
            | Instruction::LdFont { x }
            | Instruction::Bcd { x }
            | Instruction::Store { x }
            | Instruction::Load { x } => x < 16,
        }
    }
}

/// Every word decodes to an instruction whose fields are in range.
pub proof fn decoded_is_well_formed(op: u16)
    ensures
        decoded(op).well_formed(),
{
}

/// Decodes one instruction word.
pub fn decode(op: u16) -> (ins: Instruction)
    ensures
        ins == decoded(op),
        ins.well_formed(),
{
    let family: u16 = op / 4096;
    let x: u8 = ((op / 256) % 16) as u8;
    let y: u8 = ((op / 16) % 16) as u8;
    let n: u8 = (op % 16) as u8;
    let kk: u8 = (op % 256) as u8;
    let nnn: u16 = op % 4096;
    if op == 0x00E0 {
        Instruction::Cls
    } else if op == 0x00EE {
        Instruction::Ret
    } else if family == 1 {
        Instruction::Jp { nnn }
    } else if family == 2 {
        Instruction::Call { nnn }
    } else if family == 3 {
        Instruction::SeByte { x, kk }
    } else if family == 4 {
        Instruction::SneByte { x, kk }
    } else if family == 5 && n == 0 {
        Instruction::SeReg { x, y }
    } else if family == 6 {
        Instruction::LdByte { x, kk }
    } else if family == 7 {
        Instruction::AddByte { x, kk }
    } else if family == 8 {
        decode_alu(op)
    } else if family == 9 && n == 0 {
        Instruction::SneReg { x, y }
    } else if family == 0xA {
        Instruction::LdI { nnn }
    } else if family == 0xB {
        Instruction::JpV0 { nnn }
    } else if family == 0xC {
        Instruction::Rnd { x, kk }
    } else if family == 0xD {
        Instruction::Drw { x, y, n }
    } else if family == 0xE && kk == 0x9E {
        Instruction::Skp { x }
    } else if family == 0xE && kk == 0xA1 {
        Instruction::Sknp { x }
    } else if family == 0xF {
        decode_misc(op)
    } else {
        Instruction::Unknown { opcode: op }
    }
}

fn decode_alu(op: u16) -> (ins: Instruction)
    ensures
        ins == decoded_alu(op),
{
    let x: u8 = ((op / 256) % 16) as u8;
    let y: u8 = ((op / 16) % 16) as u8;
    let n: u8 = (op % 16) as u8;
    match n {
        0 => Instruction::LdReg { x, y },
        1 => Instruction::Or { x, y },
        2 => Instruction::And { x, y },
        3 => Instruction::Xor { x, y },
        4 => Instruction::AddReg { x, y },
        5 => Instruction::Sub { x, y },
        6 => Instruction::Shr { x, y },
        7 => Instruction::Subn { x, y },
        0xE => Instruction::Shl { x, y },
        _ => Instruction::Unknown { opcode: op },
    }
}

fn decode_misc(op: u16) -> (ins: Instruction)
    ensures
        ins == decoded_misc(op),
{
    let x: u8 = ((op / 256) % 16) as u8;
    let kk: u8 = (op % 256) as u8;
    match kk {
        0x07 => Instruction::LdVxDt { x },
        0x0A => Instruction::LdKey { x },
        0x15 => Instruction::LdDtVx { x },
        0x18 => Instruction::LdStVx { x },
        0x1E => Instruction::AddI { x },
        0x29 => Instruction::LdFont { x },
        0x33 => Instruction::Bcd { x },
        0x55 => Instruction::Store { x },
        0x65 => Instruction::Load { x },
        _ => Instruction::Unknown { opcode: op },
    }
}

} // verus!
