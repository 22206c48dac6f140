use vstd::prelude::*;

verus! {

/// One decoded instruction of the base 35-instruction set, named by its
/// opcode pattern. Register operands are the nibbles `x` and `y`, immediates
/// are the trailing byte `kk`, nibble `n` or 12-bit address `nnn`.
#[derive(Clone, Copy, Debug, PartialEq, Eq, Structural)]
pub enum Instruction {
    /// `00E0`: clear the framebuffer.
    Cls,
    /// `00EE`: return from a subroutine.
    Ret,
    /// `0nnn` (other): legacy machine-subroutine call, a documented no-op.
    Sys(u16),
    /// `1nnn`: jump.
    Jump(u16),
    /// `2nnn`: call a subroutine.
    Call(u16),
    /// `3xkk`: skip next instruction if Vx == kk.
    SkipEqImm(u8, u8),
    /// `4xkk`: skip next instruction if Vx != kk.
    SkipNeImm(u8, u8),
    /// `5xy0`: skip next instruction if Vx == Vy.
    SkipEqReg(u8, u8),
    /// `6xkk`: Vx := kk.
    SetImm(u8, u8),
    /// `7xkk`: Vx := Vx + kk, wrapping, no flag.
    AddImm(u8, u8),
    /// `8xy0`: Vx := Vy.
    CopyReg(u8, u8),
    /// `8xy1`: Vx := Vx | Vy.
    OrReg(u8, u8),
    /// `8xy2`: Vx := Vx & Vy.
    AndReg(u8, u8),
    /// `8xy3`: Vx := Vx ^ Vy.
    XorReg(u8, u8),
    /// `8xy4`: Vx := Vx + Vy wrapping, VF := carry.
    AddReg(u8, u8),
    /// `8xy5`: Vx := Vx - Vy wrapping, VF := no-borrow.
    SubReg(u8, u8),
    /// `8xy6`: VF := low bit of Vx, Vx := Vx >> 1.
    ShrReg(u8, u8),
    /// `8xy7`: Vx := Vy - Vx wrapping, VF := no-borrow.
    SubInvReg(u8, u8),
    /// `8xyE`: VF := high bit of Vx (0 or 1), Vx := Vx << 1 wrapping.
    ShlReg(u8, u8),
    /// `9xy0`: skip next instruction if Vx != Vy.
    SkipNeReg(u8, u8),
    /// `Annn`: I := nnn.
    SetIndex(u16),
    /// `Bnnn`: jump to nnn + V0.
    JumpV0(u16),
    /// `Cxkk`: Vx := random byte & kk.
    Rand(u8, u8),
    /// `Dxyn`: draw an n-row sprite from memory[I..] at (Vx, Vy).
    Draw(u8, u8, u8),
    /// `Ex9E`: skip next instruction if key Vx is held down.
    SkipKey(u8),
    /// `ExA1`: skip next instruction if key Vx is not held down.
    SkipNoKey(u8),
    /// `Fx07`: Vx := delay timer.
    GetDelay(u8),
    /// `Fx15`: delay timer := Vx.
    SetDelay(u8),
    /// `Fx18`: sound timer := Vx.
    SetSound(u8),
    /// `Fx1E`: I := I + Vx, 16-bit wrapping, VF untouched.
    AddIndex(u8),
    /// `Fx29`: I := address of the font glyph for digit Vx.
    FontAddr(u8),
    /// `Fx55`: copy V0..Vx inclusive into memory[I..].
    StoreRegs(u8),
    /// `Fx65`: copy memory[I..] into V0..Vx inclusive.
    LoadRegs(u8),
}

/// Leading nibble: the instruction family.
pub open spec fn spec_op_family(op: u16) -> u16 {
    op / 0x1000
}

/// The `x` register nibble (bits 11..8).
pub open spec fn spec_op_x(op: u16) -> u8 {
    ((op / 0x100) % 0x10) as u8
}

/// The `y` register nibble (bits 7..4).
pub open spec fn spec_op_y(op: u16) -> u8 {
    ((op / 0x10) % 0x10) as u8
}

/// The trailing byte `kk`.
pub open spec fn spec_op_kk(op: u16) -> u8 {
    (op % 0x100) as u8
}

/// The 12-bit address `nnn`.
pub open spec fn spec_op_nnn(op: u16) -> u16 {
    op % 0x1000
}

/// The trailing nibble `n`.
pub open spec fn spec_op_n(op: u16) -> u8 {
    (op % 0x10) as u8
}

/// What an instruction word decodes to: `None` means the word matches no
/// known pattern within its family. The inner dispatch looks at the trailing
/// nibble or byte only in the families 0x0, 0x8, 0xE and 0xF; the other
/// families are selected by the leading nibble alone.
pub open spec fn spec_decode(op: u16) -> Option<Instruction> {
    let x = spec_op_x(op);
    let y = spec_op_y(op);
    let kk = spec_op_kk(op);
    let nnn = spec_op_nnn(op);
    let n = spec_op_n(op);
    match spec_op_family(op) {
        0x0 => if op == 0x00E0 {
            Some(Instruction::Cls)
        } else if op == 0x00EE {
            Some(Instruction::Ret)
        } else {
            Some(Instruction::Sys(nnn))
        },
        0x1 => Some(Instruction::Jump(nnn)),
        0x2 => Some(Instruction::Call(nnn)),
        0x3 => Some(Instruction::SkipEqImm(x, kk)),
        0x4 => Some(Instruction::SkipNeImm(x, kk)),
        0x5 => Some(Instruction::SkipEqReg(x, y)),
        0x6 => Some(Instruction::SetImm(x, kk)),
        0x7 => Some(Instruction::AddImm(x, kk)),
        0x8 => match n {
            0x0 => Some(Instruction::CopyReg(x, y)),
            0x1 => Some(Instruction::OrReg(x, y)),
            0x2 => Some(Instruction::AndReg(x, y)),
            0x3 => Some(Instruction::XorReg(x, y)),
            0x4 => Some(Instruction::AddReg(x, y)),
            0x5 => Some(Instruction::SubReg(x, y)),
            0x6 => Some(Instruction::ShrReg(x, y)),
            0x7 => Some(Instruction::SubInvReg(x, y)),
            0xE => Some(Instruction::ShlReg(x, y)),
            _ => None,
        },
        0x9 => Some(Instruction::SkipNeReg(x, y)),
        0xA => Some(Instruction::SetIndex(nnn)),
        0xB => Some(Instruction::JumpV0(nnn)),
        0xC => Some(Instruction::Rand(x, kk)),
        0xD => Some(Instruction::Draw(x, y, n)),
        0xE => match kk {
            0x9E => Some(Instruction::SkipKey(x)),
            0xA1 => Some(Instruction::SkipNoKey(x)),
            _ => None,
        },
        0xF => match kk {
            0x07 => Some(Instruction::GetDelay(x)),
            0x15 => Some(Instruction::SetDelay(x)),
            0x18 => Some(Instruction::SetSound(x)),
            0x1E => Some(Instruction::AddIndex(x)),
            0x29 => Some(Instruction::FontAddr(x)),
            0x55 => Some(Instruction::StoreRegs(x)),
            0x65 => Some(Instruction::LoadRegs(x)),
            _ => None,
        },
        _ => None,
    }
}

/// Every register operand of a decoded instruction is a nibble, every
/// address fits in 12 bits, every sprite height in a nibble.
pub open spec fn instr_operands_ok(i: Instruction) -> bool {
    match i {
        Instruction::Cls => true,
        Instruction::Ret => true,
        Instruction::Sys(nnn) => nnn < 0x1000,
        Instruction::Jump(nnn) => nnn < 0x1000,
        Instruction::Call(nnn) => nnn < 0x1000,
        Instruction::SkipEqImm(x, _kk) => x < 16,
        Instruction::SkipNeImm(x, _kk) => x < 16,
        Instruction::SkipEqReg(x, y) => x < 16 && y < 16,
        Instruction::SetImm(x, _kk) => x < 16,
        Instruction::AddImm(x, _kk) => x < 16,
        Instruction::CopyReg(x, y) => x < 16 && y < 16,
        Instruction::OrReg(x, y) => x < 16 && y < 16,
        Instruction::AndReg(x, y) => x < 16 && y < 16,
        Instruction::XorReg(x, y) => x < 16 && y < 16,
        Instruction::AddReg(x, y) => x < 16 && y < 16,
        Instruction::SubReg(x, y) => x < 16 && y < 16,
        Instruction::ShrReg(x, y) => x < 16 && y < 16,
        Instruction::SubInvReg(x, y) => x < 16 && y < 16,
        Instruction::ShlReg(x, y) => x < 16 && y < 16,
        Instruction::SkipNeReg(x, y) => x < 16 && y < 16,
        Instruction::SetIndex(nnn) => nnn < 0x1000,
        Instruction::JumpV0(nnn) => nnn < 0x1000,
        Instruction::Rand(x, _kk) => x < 16,
        Instruction::Draw(x, y, n) => x < 16 && y < 16 && n < 16,
        Instruction::SkipKey(x) => x < 16,
        Instruction::SkipNoKey(x) => x < 16,
        Instruction::GetDelay(x) => x < 16,
        Instruction::SetDelay(x) => x < 16,
        Instruction::SetSound(x) => x < 16,
        Instruction::AddIndex(x) => x < 16,
        Instruction::FontAddr(x) => x < 16,
        Instruction::StoreRegs(x) => x < 16,
        Instruction::LoadRegs(x) => x < 16,
    }
}

/// Decoding only ever yields instructions with in-range operands.
pub proof fn lemma_decode_operands_ok(op: u16)
    ensures
        spec_decode(op) is Some ==> instr_operands_ok(spec_decode(op)->Some_0),
{
}

/// Decode one instruction word, exactly as `spec_decode` says.
pub fn decode(op: u16) -> (r: Option<Instruction>)
    ensures
        r == spec_decode(op),
{
    let x = ((op / 0x100) % 0x10) as u8;
    let y = ((op / 0x10) % 0x10) as u8;
    let kk = (op % 0x100) as u8;
    let nnn = op % 0x1000;
    let n = (op % 0x10) as u8;
    match op / 0x1000 {
        0x0 => if op == 0x00E0 {
            Some(Instruction::Cls)
        } else if op == 0x00EE {
            Some(Instruction::Ret)
        } else {
            Some(Instruction::Sys(nnn))
        },
        0x1 => Some(Instruction::Jump(nnn)),
        0x2 => Some(Instruction::Call(nnn)),
        0x3 => Some(Instruction::SkipEqImm(x, kk)),
        0x4 => Some(Instruction::SkipNeImm(x, kk)),
        0x5 => Some(Instruction::SkipEqReg(x, y)),
        0x6 => Some(Instruction::SetImm(x, kk)),
        0x7 => Some(Instruction::AddImm(x, kk)),
        0x8 => match n {
            0x0 => Some(Instruction::CopyReg(x, y)),
            0x1 => Some(Instruction::OrReg(x, y)),
            0x2 => Some(Instruction::AndReg(x, y)),
            0x3 => Some(Instruction::XorReg(x, y)),
            0x4 => Some(Instruction::AddReg(x, y)),
            0x5 => Some(Instruction::SubReg(x, y)),
            0x6 => Some(Instruction::ShrReg(x, y)),
            0x7 => Some(Instruction::SubInvReg(x, y)),
            0xE => Some(Instruction::ShlReg(x, y)),
            _ => None,
        },
        0x9 => Some(Instruction::SkipNeReg(x, y)),
        0xA => Some(Instruction::SetIndex(nnn)),
        0xB => Some(Instruction::JumpV0(nnn)),
        0xC => Some(Instruction::Rand(x, kk)),
        0xD => Some(Instruction::Draw(x, y, n)),
        0xE => match kk {
            0x9E => Some(Instruction::SkipKey(x)),
            0xA1 => Some(Instruction::SkipNoKey(x)),
            _ => None,
        },
        0xF => match kk {
            0x07 => Some(Instruction::GetDelay(x)),
            0x15 => Some(Instruction::SetDelay(x)),
            0x18 => Some(Instruction::SetSound(x)),
            0x1E => Some(Instruction::AddIndex(x)),
            0x29 => Some(Instruction::FontAddr(x)),
            0x55 => Some(Instruction::StoreRegs(x)),
            0x65 => Some(Instruction::LoadRegs(x)),
            _ => None,
        },
        _ => None,
    }
}

} // verus!
