//! The CHIP-8 instruction set: the error taxonomy, the decoded instruction
//! type, and the decoder that splits a 16-bit opcode into operand fields.

use vstd::prelude::*;

verus! {

/// Every way an operation of the core can fail.  Each fatal variant carries
/// the program counter at which it occurred, so the host can report it.
#[derive(Clone, Copy, PartialEq, Eq, Structural, Debug)]
pub enum Chip8Error {
    /// A program does not fit between 0x200 and the end of memory.
    OutOfSpace,
    /// A fetch or an operand access reached past the 4096-byte address space.
    OutOfBounds { pc: u16 },
    /// A CALL would nest deeper than the 16-level stack.
    StackOverflow { pc: u16 },
    /// A RET with nothing on the stack.
    StackUnderflow { pc: u16 },
    /// An instruction word outside the opcode table.
    UnknownOpcode { opcode: u16, pc: u16 },
}

/// One decoded instruction.  `x` and `y` are register indices (always below
/// 16), `kk` an immediate byte, `n` an immediate nibble, `nnn` a 12-bit
/// address.
#[derive(Clone, Copy, PartialEq, Eq, Structural, Debug)]
pub enum Instr {
    /// 00E0: clear the framebuffer.
    Cls,
    /// 00EE: pop the stack into pc.
    Ret,
    /// 1nnn: jump.
    Jump { nnn: u16 },
    /// 2nnn: push the return address, jump.
    Call { nnn: u16 },
    /// 3xkk: skip next instruction if Vx == kk.
    SkipEqImm { x: u8, kk: u8 },
    /// 4xkk: skip next instruction if Vx != kk.
    SkipNeImm { x: u8, kk: u8 },
    /// 5xy0: skip next instruction if Vx == Vy.
    SkipEqReg { x: u8, y: u8 },
    /// 6xkk: Vx = kk.
    LoadImm { x: u8, kk: u8 },
    /// 7xkk: Vx += kk, wrapping, carry flag untouched.
    AddImm { x: u8, kk: u8 },
    /// 8xy0: Vx = Vy.
    Move { x: u8, y: u8 },
    /// 8xy1: Vx |= Vy.
    Or { x: u8, y: u8 },
    /// 8xy2: Vx &= Vy.
    And { x: u8, y: u8 },
    /// 8xy3: Vx ^= Vy.
    Xor { x: u8, y: u8 },
    /// 8xy4: Vx += Vy, VF = carry.
    Add { x: u8, y: u8 },
    /// 8xy5: Vx -= Vy, VF = 1 when no borrow.
    Sub { x: u8, y: u8 },
    /// 8xy6: VF = low bit of Vx, Vx >>= 1.
    Shr { x: u8 },
    /// 8xy7: Vx = Vy - Vx, VF = 1 when no borrow.
    SubN { x: u8, y: u8 },
    /// 8xyE: VF = high bit of Vx, Vx <<= 1.
    Shl { x: u8 },
    /// 9xy0: skip next instruction if Vx != Vy.
    SkipNeReg { x: u8, y: u8 },
    /// Annn: I = nnn.
    LoadIndex { nnn: u16 },
    /// Bnnn: jump to nnn + V0.
    JumpV0 { nnn: u16 },
    /// Cxkk: Vx = random byte AND kk.
    Rand { x: u8, kk: u8 },
    /// Dxyn: XOR an n-byte sprite at (Vx, Vy), VF = collision.
    Draw { x: u8, y: u8, n: u8 },
    /// Ex9E: skip next instruction if the key named by the low nibble of Vx
    /// is down.
    SkipKey { x: u8 },
    /// ExA1: skip next instruction if the key named by the low nibble of Vx
    /// is up.
    SkipNoKey { x: u8 },
    /// Fx07: Vx = delay timer.
    ReadDelay { x: u8 },
    /// Fx0A: hold pc until a key is down, then Vx = its index.
    WaitKey { x: u8 },
    /// Fx15: delay timer = Vx.
    SetDelay { x: u8 },
    /// Fx18: sound timer = Vx.
    SetSound { x: u8 },
    /// Fx1E: I += Vx, wrapping at 16 bits.
    AddIndex { x: u8 },
    /// Fx29: I = 0x50 + 5 * Vx, the font glyph address for hex digit Vx.
    FontAddr { x: u8 },
    /// Fx33: store the decimal digits of Vx at I, I+1, I+2.
    StoreBcd { x: u8 },
    /// Fx55: store V0..=Vx at I..=I+x.
    StoreRegs { x: u8 },
    /// Fx65: load V0..=Vx from I..=I+x.
    LoadRegs { x: u8 },
    /// Anything outside the table.
    Unknown,
}

/// The operand fields of a decoded instruction lie in their nibble ranges.
pub open spec fn instr_fields_ok(i: Instr) -> bool {
    match i {
        Instr::Jump { nnn } => nnn < 4096,
        Instr::Call { nnn } => nnn < 4096,
        Instr::SkipEqImm { x, kk } => x < 16,
        Instr::SkipNeImm { x, kk } => x < 16,
        Instr::SkipEqReg { x, y } => x < 16 && y < 16,
        Instr::LoadImm { x, kk } => x < 16,
        Instr::AddImm { x, kk } => x < 16,
        Instr::Move { x, y } => x < 16 && y < 16,
        Instr::Or { x, y } => x < 16 && y < 16,
        Instr::And { x, y } => x < 16 && y < 16,
        Instr::Xor { x, y } => x < 16 && y < 16,
        Instr::Add { x, y } => x < 16 && y < 16,
        Instr::Sub { x, y } => x < 16 && y < 16,
        Instr::Shr { x } => x < 16,
        Instr::SubN { x, y } => x < 16 && y < 16,
        Instr::Shl { x } => x < 16,
        Instr::SkipNeReg { x, y } => x < 16 && y < 16,
        Instr::LoadIndex { nnn } => nnn < 4096,
        Instr::JumpV0 { nnn } => nnn < 4096,
        Instr::Rand { x, kk } => x < 16,
        Instr::Draw { x, y, n } => x < 16 && y < 16 && n < 16,
        Instr::SkipKey { x } => x < 16,
        Instr::SkipNoKey { x } => x < 16,
        Instr::ReadDelay { x } => x < 16,
        Instr::WaitKey { x } => x < 16,
        Instr::SetDelay { x } => x < 16,
        Instr::SetSound { x } => x < 16,
        Instr::AddIndex { x } => x < 16,
        Instr::FontAddr { x } => x < 16,
        Instr::StoreBcd { x } => x < 16,
        Instr::StoreRegs { x } => x < 16,
        Instr::LoadRegs { x } => x < 16,
        _ => true,
    }
}

/// What the decoder returns for each opcode word: the family is the high
/// nibble, sub-operations discriminate on the low byte or nibble.
pub open spec fn spec_decode(op: u16) -> Instr {
    let x = ((op >> 8) & 0xF) as u8;
    let y = ((op >> 4) & 0xF) as u8;
    let kk = (op & 0xFF) as u8;
    let n = (op & 0xF) as u8;
    let nnn = op & 0xFFF;
    let fam = op >> 12;
    if op == 0x00E0 {
        Instr::Cls
    } else if op == 0x00EE {
        Instr::Ret
    } else if fam == 0x1 {
        Instr::Jump { nnn }
    } else if fam == 0x2 {
        Instr::Call { nnn }
    } else if fam == 0x3 {
        Instr::SkipEqImm { x, kk }
    } else if fam == 0x4 {
        Instr::SkipNeImm { x, kk }
    } else if fam == 0x5 && n == 0x0 {
        Instr::SkipEqReg { x, y }
    } else if fam == 0x6 {
        Instr::LoadImm { x, kk }
    } else if fam == 0x7 {
        Instr::AddImm { x, kk }
    } else if fam == 0x8 && n == 0x0 {
        Instr::Move { x, y }
    } else if fam == 0x8 && n == 0x1 {
        Instr::Or { x, y }
    } else if fam == 0x8 && n == 0x2 {
        Instr::And { x, y }
    } else if fam == 0x8 && n == 0x3 {
        Instr::Xor { x, y }
    } else if fam == 0x8 && n == 0x4 {
        Instr::Add { x, y }
    } else if fam == 0x8 && n == 0x5 {
        Instr::Sub { x, y }
    } else if fam == 0x8 && n == 0x6 {
        Instr::Shr { x }
    } else if fam == 0x8 && n == 0x7 {
        Instr::SubN { x, y }
    } else if fam == 0x8 && n == 0xE {
        Instr::Shl { x }
    } else if fam == 0x9 && n == 0x0 {
        Instr::SkipNeReg { x, y }
    } else if fam == 0xA {
        Instr::LoadIndex { nnn }
    } else if fam == 0xB {
        Instr::JumpV0 { nnn }
    } else if fam == 0xC {
        Instr::Rand { x, kk }
    } else if fam == 0xD {
        Instr::Draw { x, y, n }
    } else if fam == 0xE && kk == 0x9E {
        Instr::SkipKey { x }
    } else if fam == 0xE && kk == 0xA1 {
        Instr::SkipNoKey { x }
    } else if fam == 0xF && kk == 0x07 {
        Instr::ReadDelay { x }
    } else if fam == 0xF && kk == 0x0A {
        Instr::WaitKey { x }
    } else if fam == 0xF && kk == 0x15 {
        Instr::SetDelay { x }
    } else if fam == 0xF && kk == 0x18 {
        Instr::SetSound { x }
    } else if fam == 0xF && kk == 0x1E {
        Instr::AddIndex { x }
    } else if fam == 0xF && kk == 0x29 {
        Instr::FontAddr { x }
    } else if fam == 0xF && kk == 0x33 {
        Instr::StoreBcd { x }
    } else if fam == 0xF && kk == 0x55 {
        Instr::StoreRegs { x }
    } else if fam == 0xF && kk == 0x65 {
        Instr::LoadRegs { x }
    } else {
        Instr::Unknown
    }
}

/// Every decoded instruction has its operand fields in range.
pub proof fn lemma_decode_fields_ok(op: u16)
    ensures
        instr_fields_ok(spec_decode(op)),
{
    assert(((op >> 8) & 0xF) < 16) by (bit_vector);
    assert(((op >> 4) & 0xF) < 16) by (bit_vector);
    assert((op & 0xF) < 16) by (bit_vector);
    assert((op & 0xFF) < 256) by (bit_vector);
    assert((op & 0xFFF) < 4096) by (bit_vector);
}

/// Splits an opcode word into its instruction and operand fields.
pub fn decode(op: u16) -> (i: Instr)
    ensures
        i == spec_decode(op),
        instr_fields_ok(i),
{
    proof {
        lemma_decode_fields_ok(op);
    }
    let x = ((op >> 8) & 0xF) as u8;
    let y = ((op >> 4) & 0xF) as u8;
    let kk = (op & 0xFF) as u8;
    let n = (op & 0xF) as u8;
    let nnn = op & 0xFFF;
    let fam = op >> 12;
    if op == 0x00E0 {
        Instr::Cls
    } else if op == 0x00EE {
        Instr::Ret
    } else if fam == 0x1 {
        Instr::Jump { nnn }
    } else if fam == 0x2 {
        Instr::Call { nnn }
    } else if fam == 0x3 {
        Instr::SkipEqImm { x, kk }
    } else if fam == 0x4 {
        Instr::SkipNeImm { x, kk }
    } else if fam == 0x5 && n == 0x0 {
        Instr::SkipEqReg { x, y }
    } else if fam == 0x6 {
        Instr::LoadImm { x, kk }
    } else if fam == 0x7 {
        Instr::AddImm { x, kk }
    } else if fam == 0x8 && n == 0x0 {
        Instr::Move { x, y }
    } else if fam == 0x8 && n == 0x1 {
        Instr::Or { x, y }
    } else if fam == 0x8 && n == 0x2 {
        Instr::And { x, y }
    } else if fam == 0x8 && n == 0x3 {
        Instr::Xor { x, y }
    } else if fam == 0x8 && n == 0x4 {
        Instr::Add { x, y }
    } else if fam == 0x8 && n == 0x5 {
        Instr::Sub { x, y }
    } else if fam == 0x8 && n == 0x6 {
        Instr::Shr { x }
    } else if fam == 0x8 && n == 0x7 {
        Instr::SubN { x, y }
    } else if fam == 0x8 && n == 0xE {
        Instr::Shl { x }
    } else if fam == 0x9 && n == 0x0 {
        Instr::SkipNeReg { x, y }
    } else if fam == 0xA {
        Instr::LoadIndex { nnn }
    } else if fam == 0xB {
        Instr::JumpV0 { nnn }
    } else if fam == 0xC {
        Instr::Rand { x, kk }
    } else if fam == 0xD {
        Instr::Draw { x, y, n }
    } else if fam == 0xE && kk == 0x9E {
        Instr::SkipKey { x }
    } else if fam == 0xE && kk == 0xA1 {
        Instr::SkipNoKey { x }
    } else if fam == 0xF && kk == 0x07 {
        Instr::ReadDelay { x }
    } else if fam == 0xF && kk == 0x0A {
        Instr::WaitKey { x }
    } else if fam == 0xF && kk == 0x15 {
        Instr::SetDelay { x }
    } else if fam == 0xF && kk == 0x18 {
        Instr::SetSound { x }
    } else if fam == 0xF && kk == 0x1E {
        Instr::AddIndex { x }
    } else if fam == 0xF && kk == 0x29 {
        Instr::FontAddr { x }
    } else if fam == 0xF && kk == 0x33 {
        Instr::StoreBcd { x }
    } else if fam == 0xF && kk == 0x55 {
        Instr::StoreRegs { x }
    } else if fam == 0xF && kk == 0x65 {
        Instr::LoadRegs { x }
    } else {
        Instr::Unknown
    }
}

} // verus!
