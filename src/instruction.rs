//! Decoding of 16-bit opcodes into instructions.
use vstd::prelude::*;

verus! {

/// One decoded instruction. `x` and `y` name registers (`0..16`), `kk` is
/// the low byte of the opcode, `addr` its low twelve bits and `n` its low
/// nibble.
#[derive(Clone, Copy, Debug, PartialEq, Eq, Structural)]
pub enum Instruction {
    /// `00E0`: clear the display.
    Cls,
    /// `00EE`: return from a subroutine.
    Ret,
    /// `1nnn`: jump to `addr`.
    Jp { addr: u16 },
    /// `2nnn`: call the subroutine at `addr`.
    Call { addr: u16 },
    /// `3xkk`: skip if `Vx == kk`.
    SeByte { x: usize, kk: u8 },
    /// `4xkk`: skip if `Vx != kk`.
    SneByte { x: usize, kk: u8 },
    /// `5xy0`: skip if `Vx == Vy`.
    SeReg { x: usize, y: usize },
    /// `6xkk`: `Vx = kk`.
    LdByte { x: usize, kk: u8 },
    /// `7xkk`: `Vx = Vx + kk`, wrapping, flag untouched.
    AddByte { x: usize, kk: u8 },
    /// `8xy0`: `Vx = Vy`.
    LdReg { x: usize, y: usize },
    /// `8xy1`: `Vx = Vx | Vy`.
    Or { x: usize, y: usize },
    /// `8xy2`: `Vx = Vx & Vy`.
    And { x: usize, y: usize },
    /// `8xy3`: `Vx = Vx ^ Vy`.
    Xor { x: usize, y: usize },
    /// `8xy4`: `Vx = Vx + Vy`, `VF` = carry.
    AddReg { x: usize, y: usize },
    /// `8xy5`: `Vx = Vx - Vy`, `VF` = no borrow.
    Sub { x: usize, y: usize },
    /// `8xy6`: `VF` = low bit of `Vx`, `Vx = Vx >> 1`.
    Shr { x: usize },
    /// `8xy7`: `Vx = Vy - Vx`, `VF` = no borrow.
    Subn { x: usize, y: usize },
    /// `8xyE`: `VF` = high bit of `Vx`, `Vx = Vx << 1`.
    Shl { x: usize },
    /// `9xy0`: skip if `Vx != Vy`.
    SneReg { x: usize, y: usize },
    /// `Annn`: `I = addr`.
    LdI { addr: u16 },
    /// `Bnnn`: jump to `addr + V0`.
    JpV0 { addr: u16 },
    /// `Cxkk`: `Vx` = a random byte masked with `kk`.
    Rnd { x: usize, kk: u8 },
    /// `Dxyn`: draw the `n`-row sprite at `I` at `(Vx, Vy)`, `VF` = collision.
    Drw { x: usize, y: usize, n: usize },
    /// `Ex9E`: skip if key `Vx` is pressed.
    Skp { x: usize },
    /// `ExA1`: skip if key `Vx` is not pressed.
    Sknp { x: usize },
    /// `Fx07`: `Vx` = delay timer.
    LdVxDt { x: usize },
    /// `Fx0A`: wait for a key and store its index in `Vx`.
    LdVxK { x: usize },
    /// `Fx15`: delay timer = `Vx`.
    LdDtVx { x: usize },
    /// `Fx18`: sound timer = `Vx`.
    LdStVx { x: usize },
    /// `Fx1E`: `I = I + Vx`, `VF` = whether the sum leaves the 12-bit space.
    AddI { x: usize },
    /// `Fx29`: `I` = address of the font glyph for `Vx`.
    LdF { x: usize },
    /// `Fx33`: store the decimal digits of `Vx` at `I`, `I+1`, `I+2`.
    LdB { x: usize },
    /// `Fx55`: store `V0..=Vx` from `I` on.
    StoreRegs { x: usize },
    /// `Fx65`: load `V0..=Vx` from `I` on.
    LoadRegs { x: usize },
    /// Any other opcode: does nothing.
    Unknown { opcode: u16 },
}

/// The opcode's four nibbles, most significant first.
pub open spec fn nibble_a(op: u16) -> int {
    op as int / 4096
}

pub open spec fn nibble_x(op: u16) -> int {
    (op as int / 256) % 16
}

pub open spec fn nibble_y(op: u16) -> int {
    (op as int / 16) % 16
}

pub open spec fn nibble_n(op: u16) -> int {
    op as int % 16
}

/// The instruction that `op` encodes.
pub open spec fn decode_spec(op: u16) -> Instruction {
    let a = nibble_a(op);
    let x = nibble_x(op) as usize;
    let y = nibble_y(op) as usize;
    let n = nibble_n(op);
    let kk = (op as int % 256) as u8;
    let addr = (op as int % 4096) as u16;
    if op == 0x00E0 {
        Instruction::Cls
    } else if op == 0x00EE {
        Instruction::Ret
    } else if a == 0x1 {
        Instruction::Jp { addr }
    } else if a == 0x2 {
        Instruction::Call { addr }
    } else if a == 0x3 {
        Instruction::SeByte { x, kk }
    } else if a == 0x4 {
        Instruction::SneByte { x, kk }
    } else if a == 0x5 && n == 0x0 {
        Instruction::SeReg { x, y }
    } else if a == 0x6 {
        Instruction::LdByte { x, kk }
    } else if a == 0x7 {
        Instruction::AddByte { x, kk }
    } else if a == 0x8 && n == 0x0 {
        Instruction::LdReg { x, y }
    } else if a == 0x8 && n == 0x1 {
        Instruction::Or { x, y }
    } else if a == 0x8 && n == 0x2 {
        Instruction::And { x, y }
    } else if a == 0x8 && n == 0x3 {
        Instruction::Xor { x, y }
    } else if a == 0x8 && n == 0x4 {
        Instruction::AddReg { x, y }
    } else if a == 0x8 && n == 0x5 {
        Instruction::Sub { x, y }
    } else if a == 0x8 && n == 0x6 {
        Instruction::Shr { x }
    } else if a == 0x8 && n == 0x7 {
        Instruction::Subn { x, y }
    } else if a == 0x8 && n == 0xE {
        Instruction::Shl { x }
    } else if a == 0x9 && n == 0x0 {
        Instruction::SneReg { x, y }
    } else if a == 0xA {
        Instruction::LdI { addr }
    } else if a == 0xB {
        Instruction::JpV0 { addr }
    } else if a == 0xC {
        Instruction::Rnd { x, kk }
    } else if a == 0xD {
        Instruction::Drw { x, y, n: n as usize }
    } else if a == 0xE && kk == 0x9E {
        Instruction::Skp { x }
    } else if a == 0xE && kk == 0xA1 {
        Instruction::Sknp { x }
    } else if a == 0xF && kk == 0x07 {
        Instruction::LdVxDt { x }
    } else if a == 0xF && kk == 0x0A {
        Instruction::LdVxK { x }
    } else if a == 0xF && kk == 0x15 {
        Instruction::LdDtVx { x }
    } else if a == 0xF && kk == 0x18 {
        Instruction::LdStVx { x }
    } else if a == 0xF && kk == 0x1E {
        Instruction::AddI { x }
    } else if a == 0xF && kk == 0x29 {
        Instruction::LdF { x }
    } else if a == 0xF && kk == 0x33 {
        Instruction::LdB { x }
    } else if a == 0xF && kk == 0x55 {
        Instruction::StoreRegs { x }
    } else if a == 0xF && kk == 0x65 {
        Instruction::LoadRegs { x }
    } else {
        Instruction::Unknown { opcode: op }
    }
}

/// Whether every register index, nibble and address in `ins` is in range.
pub open spec fn operands_in_range(ins: Instruction) -> bool {
    match ins {
        Instruction::Jp { addr } | Instruction::Call { addr } | Instruction::LdI { addr }
        | Instruction::JpV0 { addr } => addr < 4096,
        Instruction::SeByte { x, .. } | Instruction::SneByte { x, .. } | Instruction::LdByte {
            x,
            ..
        } | Instruction::AddByte { x, .. } | Instruction::Rnd { x, .. } => x < 16,
        Instruction::SeReg { x, y } | Instruction::LdReg { x, y } | Instruction::Or { x, y }
        | Instruction::And { x, y } | Instruction::Xor { x, y } | Instruction::AddReg { x, y }
        | Instruction::Sub { x, y } | Instruction::Subn { x, y } | Instruction::SneReg {
            x,
            y,
        } => x < 16 && y < 16,
        Instruction::Drw { x, y, n } => x < 16 && y < 16 && n < 16,
        Instruction::Shr { x } | Instruction::Shl { x } | Instruction::Skp { x }
        | Instruction::Sknp { x } | Instruction::LdVxDt { x } | Instruction::LdVxK { x }
        | Instruction::LdDtVx { x } | Instruction::LdStVx { x } | Instruction::AddI { x }
        | Instruction::LdF { x } | Instruction::LdB { x } | Instruction::StoreRegs { x }
        | Instruction::LoadRegs { x } => x < 16,
        _ => true,
    }
}

/// Decodes `op` by its four nibbles. Opcodes outside the instruction set
/// decode to `Unknown`, which executes as a no-op.
pub fn decode(op: u16) -> (r: Instruction)
    ensures
        r == decode_spec(op),
        operands_in_range(r),
{
    let a: u16 = op / 4096;
    let x: usize = ((op / 256) % 16) as usize;
    let y: usize = ((op / 16) % 16) as usize;
    let n: u16 = op % 16;
    let kk: u8 = (op % 256) as u8;
    let addr: u16 = op % 4096;
    if op == 0x00E0 {
        Instruction::Cls
    } else if op == 0x00EE {
        Instruction::Ret
    } else if a == 0x1 {
        Instruction::Jp { addr }
    } else if a == 0x2 {
        Instruction::Call { addr }
    } else if a == 0x3 {
        Instruction::SeByte { x, kk }
    } else if a == 0x4 {
        Instruction::SneByte { x, kk }
    } else if a == 0x5 && n == 0x0 {
        Instruction::SeReg { x, y }
    } else if a == 0x6 {
        Instruction::LdByte { x, kk }
    } else if a == 0x7 {
        Instruction::AddByte { x, kk }
    } else if a == 0x8 && n == 0x0 {
        Instruction::LdReg { x, y }
    } else if a == 0x8 && n == 0x1 {
        Instruction::Or { x, y }
    } else if a == 0x8 && n == 0x2 {
        Instruction::And { x, y }
    } else if a == 0x8 && n == 0x3 {
        Instruction::Xor { x, y }
    } else if a == 0x8 && n == 0x4 {
        Instruction::AddReg { x, y }
    } else if a == 0x8 && n == 0x5 {
        Instruction::Sub { x, y }
    } else if a == 0x8 && n == 0x6 {
        Instruction::Shr { x }
    } else if a == 0x8 && n == 0x7 {
        Instruction::Subn { x, y }
    } else if a == 0x8 && n == 0xE {
        Instruction::Shl { x }
    } else if a == 0x9 && n == 0x0 {
        Instruction::SneReg { x, y }
    } else if a == 0xA {
        Instruction::LdI { addr }
    } else if a == 0xB {
        Instruction::JpV0 { addr }
    } else if a == 0xC {
        Instruction::Rnd { x, kk }
    } else if a == 0xD {
        Instruction::Drw { x, y, n: n as usize }
    } else if a == 0xE && kk == 0x9E {
        Instruction::Skp { x }
    } else if a == 0xE && kk == 0xA1 {
        Instruction::Sknp { x }
    } else if a == 0xF && kk == 0x07 {
        Instruction::LdVxDt { x }
    } else if a == 0xF && kk == 0x0A {
        Instruction::LdVxK { x }
    } else if a == 0xF && kk == 0x15 {
        Instruction::LdDtVx { x }
    } else if a == 0xF && kk == 0x18 {
        Instruction::LdStVx { x }
    } else if a == 0xF && kk == 0x1E {
        Instruction::AddI { x }
    } else if a == 0xF && kk == 0x29 {
        Instruction::LdF { x }
    } else if a == 0xF && kk == 0x33 {
        Instruction::LdB { x }
    } else if a == 0xF && kk == 0x55 {
        Instruction::StoreRegs { x }
    } else if a == 0xF && kk == 0x65 {
        Instruction::LoadRegs { x }
    } else {
        Instruction::Unknown { opcode: op }
    }
}

} // verus!
