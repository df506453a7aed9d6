//! Splitting a two-byte instruction into its fields.

use vstd::prelude::*;

verus! {

/// The value of the 4-bit field `position` (0 = high nibble of the first byte,
/// 3 = low nibble of the second byte).
pub open spec fn nibble_of(instruction: [u8; 2], position: u8) -> u8 {
    if position == 0 {
        (instruction@[0] / 16) as u8
    } else if position == 1 {
        (instruction@[0] % 16) as u8
    } else if position == 2 {
        (instruction@[1] / 16) as u8
    } else {
        (instruction@[1] % 16) as u8
    }
}

/// Whether bit `position` (0 = least significant) of `b` is set.
pub open spec fn bit_set(b: u8, position: u8) -> bool {
    (b as int / vstd::arithmetic::power2::pow2(position as nat) as int) % 2 == 1
}

/// The 16-bit opcode value of an instruction, first byte most significant.
pub open spec fn opcode_of(instruction: [u8; 2]) -> u16 {
    (instruction@[0] as int * 256 + instruction@[1] as int) as u16
}

/// Extracts one 4-bit field of an instruction; positions past 3 read the last one.
pub fn nib(instruction: [u8; 2], position: u8) -> (r: u8)
    ensures
        r == nibble_of(instruction, position),
        r < 16,
{
    let b0 = instruction[0];
    let b1 = instruction[1];
    if position == 0 {
        let r = (b0 & 0xF0) >> 4;
        assert(r == b0 / 16) by (bit_vector)
            requires r == (b0 & 0xF0u8) >> 4u8;
        r
    } else if position == 1 {
        let r = b0 & 0x0F;
        assert(r == b0 % 16) by (bit_vector)
            requires r == b0 & 0x0Fu8;
        r
    } else if position == 2 {
        let r = (b1 & 0xF0) >> 4;
        assert(r == b1 / 16) by (bit_vector)
            requires r == (b1 & 0xF0u8) >> 4u8;
        r
    } else {
        let r = b1 & 0x0F;
        assert(r == b1 % 16) by (bit_vector)
            requires r == b1 & 0x0Fu8;
        r
    }
}

/// Masks `inp_byte` down to bit `position`: nonzero exactly when that bit is set.
pub fn byte(inp_byte: u8, position: u8) -> (r: u8)
    requires
        position < 8,
    ensures
        (r != 0) == bit_set(inp_byte, position),
        r == 0 || r as int == vstd::arithmetic::power2::pow2(position as nat),
{
    let r = inp_byte & (1u8 << position);
    proof {
        lemma_bit_mask(inp_byte, position);
    }
    r
}

proof fn lemma_bit_mask(b: u8, p: u8)
    requires
        p < 8,
    ensures
        ((b & (1u8 << p)) != 0) == bit_set(b, p),
        (b & (1u8 << p)) == 0 || (b & (1u8 << p)) as int == vstd::arithmetic::power2::pow2(p as nat),
{
    vstd::arithmetic::power2::lemma2_to64();
    assert(b >> p == b / ((1u8 << p))) by (bit_vector)
        requires p < 8;
    assert(((b & (1u8 << p)) != 0) == ((b >> p) % 2 == 1)) by (bit_vector)
        requires p < 8;
    assert((b & (1u8 << p)) == 0 || (b & (1u8 << p)) == (1u8 << p)) by (bit_vector)
        requires p < 8;
    assert((1u8 << p) as int == vstd::arithmetic::power2::pow2(p as nat)) by {
        assert(p == 0 || p == 1 || p == 2 || p == 3 || p == 4 || p == 5 || p == 6 || p == 7);
        assert(1u8 << 0u8 == 1u8) by (bit_vector);
        assert(1u8 << 1u8 == 2u8) by (bit_vector);
        assert(1u8 << 2u8 == 4u8) by (bit_vector);
        assert(1u8 << 3u8 == 8u8) by (bit_vector);
        assert(1u8 << 4u8 == 16u8) by (bit_vector);
        assert(1u8 << 5u8 == 32u8) by (bit_vector);
        assert(1u8 << 6u8 == 64u8) by (bit_vector);
        assert(1u8 << 7u8 == 128u8) by (bit_vector);
    }
}

/// Combines both bytes of an instruction into its 16-bit opcode value.
pub fn inst_byte(instruction: [u8; 2]) -> (r: u16)
    ensures
        r == opcode_of(instruction),
{
    let byte_more: u16 = instruction[0] as u16;
    let byte_less: u16 = instruction[1] as u16;
    (byte_more * 256) + byte_less
}


/// One decoded CHIP-8 instruction. `x` and `y` name registers, `kk` is an 8-bit
/// immediate, `addr` a 12-bit address and `n` a 4-bit row count.
#[derive(Clone, Copy, Debug, PartialEq, Eq, Structural)]
pub enum Instruction {
    /// 00E0: clear the display.
    Cls,
    /// 00EE: return from a subroutine.
    Ret,
    /// 1nnn: jump.
    Jp { addr: u16 },
    /// 2nnn: call a subroutine.
    Call { addr: u16 },
    /// 3xkk: skip if Vx == kk.
    SeByte { x: u8, kk: u8 },
    /// 4xkk: skip if Vx != kk.
    SneByte { x: u8, kk: u8 },
    /// 5xy0: skip if Vx == Vy.
    SeReg { x: u8, y: u8 },
    /// 6xkk: Vx = kk.
    LdByte { x: u8, kk: u8 },
    /// 7xkk: Vx += kk, no flag.
    AddByte { x: u8, kk: u8 },
    /// 8xy0: Vx = Vy.
    LdReg { x: u8, y: u8 },
    /// 8xy1: Vx |= Vy.
    Or { x: u8, y: u8 },
    /// 8xy2: Vx &= Vy.
    And { x: u8, y: u8 },
    /// 8xy3: Vx ^= Vy.
    Xor { x: u8, y: u8 },
    /// 8xy4: Vx += Vy, VF = carry.
    AddReg { x: u8, y: u8 },
    /// 8xy5: Vx -= Vy, VF = no borrow.
    Sub { x: u8, y: u8 },
    /// 8xy6: Vx >>= 1, VF = bit shifted out.
    Shr { x: u8 },
    /// 8xy7: Vx = Vy - Vx, VF = no borrow.
    Subn { x: u8, y: u8 },
    /// 8xyE: Vx <<= 1, VF = bit shifted out.
    Shl { x: u8 },
    /// 9xy0: skip if Vx != Vy.
    SneReg { x: u8, y: u8 },
    /// Annn: I = nnn.
    LdI { addr: u16 },
    /// Bnnn: jump to nnn + V0.
    JpV0 { addr: u16 },
    /// Cxkk: Vx = random byte & kk.
    Rnd { x: u8, kk: u8 },
    /// Dxyn: draw an n-row sprite at (Vx, Vy).
    Drw { x: u8, y: u8, n: u8 },
    /// Ex9E: skip if key Vx is pressed.
    Skp { x: u8 },
    /// ExA1: skip if key Vx is not pressed.
    Sknp { x: u8 },
    /// Fx07: Vx = DT.
    LdVxDt { x: u8 },
    /// Fx0A: wait for a key, store its index in Vx; the highest index wins
    /// when several keys are down.
    LdKey { x: u8 },
    /// Fx15: DT = Vx.
    LdDtVx { x: u8 },
    /// Fx18: sound timer, which this machine does not have.
    LdSt { x: u8 },
    /// Fx1E: I += Vx.
    AddI { x: u8 },
    /// Fx29: I = address of the glyph for Vx.
    LdFont { x: u8 },
    /// Fx33: decimal digits of Vx at I, I+1, I+2.
    Bcd { x: u8 },
    /// Fx55: store V0..=Vx at I.
    StoreRegs { x: u8 },
    /// Fx65: load V0..=Vx from I.
    LoadRegs { x: u8 },
    /// Any other opcode.
    Unknown { opcode: u16 },
}

impl Instruction {
    /// Register indices, addresses and counts are in range.
    pub open spec fn wf(self) -> bool {
        match self {
            Instruction::Jp { addr } => addr < 4096,
            Instruction::Call { addr } => addr < 4096,
            Instruction::LdI { addr } => addr < 4096,
            Instruction::JpV0 { addr } => addr < 4096,
            Instruction::SeByte { x, kk } => x < 16,
            Instruction::SneByte { x, kk } => x < 16,
            Instruction::LdByte { x, kk } => x < 16,
            Instruction::AddByte { x, kk } => x < 16,
            Instruction::Rnd { x, kk } => x < 16,
            Instruction::SeReg { x, y } => x < 16 && y < 16,
            Instruction::LdReg { x, y } => x < 16 && y < 16,
            Instruction::Or { x, y } => x < 16 && y < 16,
            Instruction::And { x, y } => x < 16 && y < 16,
            Instruction::Xor { x, y } => x < 16 && y < 16,
            Instruction::AddReg { x, y } => x < 16 && y < 16,
            Instruction::Sub { x, y } => x < 16 && y < 16,
            Instruction::Subn { x, y } => x < 16 && y < 16,
            Instruction::SneReg { x, y } => x < 16 && y < 16,
            Instruction::Drw { x, y, n } => x < 16 && y < 16 && n < 16,
            Instruction::Shr { x } => x < 16,
            Instruction::Shl { x } => x < 16,
            Instruction::Skp { x } => x < 16,
            Instruction::Sknp { x } => x < 16,
            Instruction::LdVxDt { x } => x < 16,
            Instruction::LdKey { x } => x < 16,
            Instruction::LdDtVx { x } => x < 16,
            Instruction::LdSt { x } => x < 16,
            Instruction::AddI { x } => x < 16,
            Instruction::LdFont { x } => x < 16,
            Instruction::Bcd { x } => x < 16,
            Instruction::StoreRegs { x } => x < 16,
            Instruction::LoadRegs { x } => x < 16,
            _ => true,
        }
    }
}

/// The instruction that the nibbles `a b c d` encode; the most specific
/// pattern wins, and anything unlisted is `Unknown`.
pub open spec fn decode_nibbles(a: u8, b: u8, c: u8, d: u8) -> Instruction {
    let op = (a as int * 4096 + b as int * 256 + c as int * 16 + d as int) as u16;
    let addr = (b as int * 256 + c as int * 16 + d as int) as u16;
    let kk = (c as int * 16 + d as int) as u8;
    if a == 0 && b == 0 && c == 0xE && d == 0 {
        Instruction::Cls
    } else if a == 0 && b == 0 && c == 0xE && d == 0xE {
        Instruction::Ret
    } else if a == 1 {
        Instruction::Jp { addr }
    } else if a == 2 {
        Instruction::Call { addr }
    } else if a == 3 {
        Instruction::SeByte { x: b, kk }
    } else if a == 4 {
        Instruction::SneByte { x: b, kk }
    } else if a == 5 && d == 0 {
        Instruction::SeReg { x: b, y: c }
    } else if a == 6 {
        Instruction::LdByte { x: b, kk }
    } else if a == 7 {
        Instruction::AddByte { x: b, kk }
    } else if a == 8 && d == 0 {
        Instruction::LdReg { x: b, y: c }
    } else if a == 8 && d == 1 {
        Instruction::Or { x: b, y: c }
    } else if a == 8 && d == 2 {
        Instruction::And { x: b, y: c }
    } else if a == 8 && d == 3 {
        Instruction::Xor { x: b, y: c }
    } else if a == 8 && d == 4 {
        Instruction::AddReg { x: b, y: c }
    } else if a == 8 && d == 5 {
        Instruction::Sub { x: b, y: c }
    } else if a == 8 && d == 6 {
        Instruction::Shr { x: b }
    } else if a == 8 && d == 7 {
        Instruction::Subn { x: b, y: c }
    } else if a == 8 && d == 0xE {
        Instruction::Shl { x: b }
    } else if a == 9 && d == 0 {
        Instruction::SneReg { x: b, y: c }
    } else if a == 0xA {
        Instruction::LdI { addr }
    } else if a == 0xB {
        Instruction::JpV0 { addr }
    } else if a == 0xC {
        Instruction::Rnd { x: b, kk }
    } else if a == 0xD {
        Instruction::Drw { x: b, y: c, n: d }
    } else if a == 0xE && c == 9 && d == 0xE {
        Instruction::Skp { x: b }
    } else if a == 0xE && c == 0xA && d == 1 {
        Instruction::Sknp { x: b }
    } else if a == 0xF && c == 0 && d == 7 {
        Instruction::LdVxDt { x: b }
    } else if a == 0xF && c == 0 && d == 0xA {
        Instruction::LdKey { x: b }
    } else if a == 0xF && c == 1 && d == 5 {
        Instruction::LdDtVx { x: b }
    } else if a == 0xF && c == 1 && d == 8 {
        Instruction::LdSt { x: b }
    } else if a == 0xF && c == 1 && d == 0xE {
        Instruction::AddI { x: b }
    } else if a == 0xF && c == 2 && d == 9 {
        Instruction::LdFont { x: b }
    } else if a == 0xF && c == 3 && d == 3 {
        Instruction::Bcd { x: b }
    } else if a == 0xF && c == 5 && d == 5 {
        Instruction::StoreRegs { x: b }
    } else if a == 0xF && c == 6 && d == 5 {
        Instruction::LoadRegs { x: b }
    } else {
        Instruction::Unknown { opcode: op }
    }
}

/// The instruction that the bytes `hi`, `lo` encode, in that order.
pub open spec fn decode_bytes(hi: u8, lo: u8) -> Instruction {
    decode_nibbles((hi / 16) as u8, (hi % 16) as u8, (lo / 16) as u8, (lo % 16) as u8)
}

/// The instruction that two bytes encode.
pub open spec fn decode_spec(instruction: [u8; 2]) -> Instruction {
    decode_bytes(instruction@[0], instruction@[1])
}

/// Decodes a two-byte instruction.
pub fn decode(instruction: [u8; 2]) -> (r: Instruction)
    ensures
        r == decode_spec(instruction),
        r.wf(),
{
    let a = nib(instruction, 0);
    let b = nib(instruction, 1);
    let c = nib(instruction, 2);
    let d = nib(instruction, 3);
    let addr: u16 = (b as u16) * 256 + (c as u16) * 16 + (d as u16);
    let kk: u8 = c * 16 + d;
    if a == 0 && b == 0 && c == 0xE && d == 0 {
        Instruction::Cls
    } else if a == 0 && b == 0 && c == 0xE && d == 0xE {
        Instruction::Ret
    } else if a == 1 {
        Instruction::Jp { addr }
    } else if a == 2 {
        Instruction::Call { addr }
    } else if a == 3 {
        Instruction::SeByte { x: b, kk }
    } else if a == 4 {
        Instruction::SneByte { x: b, kk }
    } else if a == 5 && d == 0 {
        Instruction::SeReg { x: b, y: c }
    } else if a == 6 {
        Instruction::LdByte { x: b, kk }
    } else if a == 7 {
        Instruction::AddByte { x: b, kk }
    } else if a == 8 && d == 0 {
        Instruction::LdReg { x: b, y: c }
    } else if a == 8 && d == 1 {
        Instruction::Or { x: b, y: c }
    } else if a == 8 && d == 2 {
        Instruction::And { x: b, y: c }
    } else if a == 8 && d == 3 {
        Instruction::Xor { x: b, y: c }
    } else if a == 8 && d == 4 {
        Instruction::AddReg { x: b, y: c }
    } else if a == 8 && d == 5 {
        Instruction::Sub { x: b, y: c }
    } else if a == 8 && d == 6 {
        Instruction::Shr { x: b }
    } else if a == 8 && d == 7 {
        Instruction::Subn { x: b, y: c }
    } else if a == 8 && d == 0xE {
        Instruction::Shl { x: b }
    } else if a == 9 && d == 0 {
        Instruction::SneReg { x: b, y: c }
    } else if a == 0xA {
        Instruction::LdI { addr }
    } else if a == 0xB {
        Instruction::JpV0 { addr }
    } else if a == 0xC {
        Instruction::Rnd { x: b, kk }
    } else if a == 0xD {
        Instruction::Drw { x: b, y: c, n: d }
    } else if a == 0xE && c == 9 && d == 0xE {
        Instruction::Skp { x: b }
    } else if a == 0xE && c == 0xA && d == 1 {
        Instruction::Sknp { x: b }
    } else if a == 0xF && c == 0 && d == 7 {
        Instruction::LdVxDt { x: b }
    } else if a == 0xF && c == 0 && d == 0xA {
        Instruction::LdKey { x: b }
    } else if a == 0xF && c == 1 && d == 5 {
        Instruction::LdDtVx { x: b }
    } else if a == 0xF && c == 1 && d == 8 {
        Instruction::LdSt { x: b }
    } else if a == 0xF && c == 1 && d == 0xE {
        Instruction::AddI { x: b }
    } else if a == 0xF && c == 2 && d == 9 {
        Instruction::LdFont { x: b }
    } else if a == 0xF && c == 3 && d == 3 {
        Instruction::Bcd { x: b }
    } else if a == 0xF && c == 5 && d == 5 {
        Instruction::StoreRegs { x: b }
    } else if a == 0xF && c == 6 && d == 5 {
        Instruction::LoadRegs { x: b }
    } else {
        Instruction::Unknown { opcode: inst_byte(instruction) }
    }
}

} // verus!
