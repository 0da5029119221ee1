//! The instruction set and its decoder.

use vstd::prelude::*;
use crate::fault::Fault;

verus! {

/// The machine's instructions. The operands of an instruction are fields of
/// its 16-bit word, read with `x`, `y`, `kk`, `nnn` and `nibble`.
#[derive(Clone, Copy, Debug, PartialEq, Eq, Structural)]
pub enum Op {
    /// `0_E0`: clear the screen.
    CLR,
    /// `0_EE`: return from a subroutine.
    RET,
    /// `1nnn`: jump to `nnn`.
    JP,
    /// `2nnn`: call the subroutine at `nnn`.
    CALL,
    /// `3xkk`: skip the next instruction if `Vx == kk`.
    SE,
    /// `4xkk`: skip the next instruction if `Vx != kk`.
    SNE,
    /// `5xy_`: skip the next instruction if `Vx == Vy`.
    SER,
    /// `6xkk`: `Vx = kk`.
    LD,
    /// `7xkk`: `Vx = Vx + kk`, wrapping, flag untouched.
    ADD,
    /// `8xy0`: `Vx = Vy`.
    LDR,
    /// `8xy1`: `Vx = Vx | Vy`.
    OR,
    /// `8xy2`: `Vx = Vx & Vy`.
    AND,
    /// `8xy3`: `Vx = Vx ^ Vy`.
    XOR,
    /// `8xy4`: `Vx = Vx + Vy`, `VF` = carry.
    ADDR,
    /// `8xy5`: `Vx = Vx - Vy`, `VF` = no borrow.
    SUB,
    /// `8xy6`: `Vx = Vx >> 1`, `VF` = the bit shifted out.
    SHR,
    /// `8xy7`: `Vx = Vy - Vx`, `VF` = no borrow.
    SUBN,
    /// `8xyE`: `Vx = Vx << 1`, `VF` = the bit shifted out.
    SHL,
    /// `9xy_`: skip the next instruction if `Vx != Vy`.
    SNER,
    /// `Annn`: `I = nnn`.
    LDI,
    /// `Bnnn`: jump to `nnn + V0`.
    JPA,
    /// `Cxkk`: `Vx` = random byte `& kk`.
    RND,
    /// `Dxyn`: draw the `n`-row sprite at `I` at `(Vx, Vy)`, `VF` = collision.
    DRW,
    /// `Ex9E`: skip the next instruction if key `Vx` is pressed.
    SKP,
    /// `ExA1`: skip the next instruction if key `Vx` is not pressed.
    SKNP,
    /// `Fx07`: `Vx` = delay timer.
    LDD,
    /// `Fx0A`: wait for a key, `Vx` = that key.
    LDK,
    /// `Fx15`: delay timer = `Vx`.
    LDDT,
    /// `Fx18`: sound timer = `Vx`.
    LDST,
    /// `Fx1E`: `I = I + Vx`.
    ADDI,
    /// `Fx29`: `I` = address of the glyph of digit `Vx`.
    LDF,
    /// `Fx33`: store the decimal digits of `Vx` at `I`, `I + 1`, `I + 2`.
    LDB,
    /// `Fx55`: store `V0..=Vx` at `I..`.
    LDII,
    /// `Fx65`: load `V0..=Vx` from `I..`.
    LDVX,
}

/// The instruction selected by the low nibble of a word of group `8`.
pub open spec fn decode8_of(opcode: u16) -> Option<Op> {
    let low = opcode as int % 16;
    if low == 0x0 {
        Some(Op::LDR)
    } else if low == 0x1 {
        Some(Op::OR)
    } else if low == 0x2 {
        Some(Op::AND)
    } else if low == 0x3 {
        Some(Op::XOR)
    } else if low == 0x4 {
        Some(Op::ADDR)
    } else if low == 0x5 {
        Some(Op::SUB)
    } else if low == 0x6 {
        Some(Op::SHR)
    } else if low == 0x7 {
        Some(Op::SUBN)
    } else if low == 0xE {
        Some(Op::SHL)
    } else {
        None
    }
}

/// The instruction selected by the low byte of a word of group `F`.
pub open spec fn decode_f_of(opcode: u16) -> Option<Op> {
    let low = opcode as int % 256;
    if low == 0x07 {
        Some(Op::LDD)
    } else if low == 0x0A {
        Some(Op::LDK)
    } else if low == 0x15 {
        Some(Op::LDDT)
    } else if low == 0x18 {
        Some(Op::LDST)
    } else if low == 0x1E {
        Some(Op::ADDI)
    } else if low == 0x29 {
        Some(Op::LDF)
    } else if low == 0x33 {
        Some(Op::LDB)
    } else if low == 0x55 {
        Some(Op::LDII)
    } else if low == 0x65 {
        Some(Op::LDVX)
    } else {
        None
    }
}

/// The instruction that a word encodes, or `None` where it encodes none.
/// The top nibble selects a group; groups `0`, `E` and `F` are told apart
/// further by their low byte, group `8` by its low nibble.
pub open spec fn decode_of(opcode: u16) -> Option<Op> {
    let group = opcode as int / 4096;
    let low = opcode as int % 256;
    if group == 0x0 {
        if low == 0xE0 {
            Some(Op::CLR)
        } else if low == 0xEE {
            Some(Op::RET)
        } else {
            None
        }
    } else if group == 0x1 {
        Some(Op::JP)
    } else if group == 0x2 {
        Some(Op::CALL)
    } else if group == 0x3 {
        Some(Op::SE)
    } else if group == 0x4 {
        Some(Op::SNE)
    } else if group == 0x5 {
        Some(Op::SER)
    } else if group == 0x6 {
        Some(Op::LD)
    } else if group == 0x7 {
        Some(Op::ADD)
    } else if group == 0x8 {
        decode8_of(opcode)
    } else if group == 0x9 {
        Some(Op::SNER)
    } else if group == 0xA {
        Some(Op::LDI)
    } else if group == 0xB {
        Some(Op::JPA)
    } else if group == 0xC {
        Some(Op::RND)
    } else if group == 0xD {
        Some(Op::DRW)
    } else if group == 0xE {
        if low == 0x9E {
            Some(Op::SKP)
        } else if low == 0xA1 {
            Some(Op::SKNP)
        } else {
            None
        }
    } else {
        decode_f_of(opcode)
    }
}

/// What a decoder returns for a word whose instruction is `op`.
pub open spec fn decoded(op: Option<Op>) -> Result<Op, Fault> {
    match op {
        Some(op) => Ok(op),
        None => Err(Fault::InvalidOpcode),
    }
}

/// Bits 11 to 8 of a word: the first register operand.
pub open spec fn x_of(opcode: u16) -> int {
    (opcode as int / 256) % 16
}

/// Bits 7 to 4 of a word: the second register operand.
pub open spec fn y_of(opcode: u16) -> int {
    (opcode as int / 16) % 16
}

/// Bits 7 to 0 of a word: the immediate byte.
pub open spec fn kk_of(opcode: u16) -> int {
    opcode as int % 256
}

/// Bits 11 to 0 of a word: the address operand.
pub open spec fn nnn_of(opcode: u16) -> int {
    opcode as int % 4096
}

/// Bits 3 to 0 of a word: the sprite height.
pub open spec fn nibble_of(opcode: u16) -> int {
    opcode as int % 16
}

impl Op {
    /// Decodes a word. Fails with `InvalidOpcode` exactly on the words that
    /// encode no instruction.
    pub fn decode(opcode: u16) -> (r: Result<Self, Fault>)
        ensures
            r == decoded(decode_of(opcode)),
    {
        assert(opcode & 0xF000 == (opcode / 4096) * 4096) by (bit_vector);
        assert(opcode & 0x00FF == opcode % 256) by (bit_vector);
        match opcode & 0xF000 {
            0x0000 => match opcode & 0x00FF {
                0x00E0 => Ok(Self::CLR),
                0x00EE => Ok(Self::RET),
                _ => Err(Fault::InvalidOpcode),
            },
            0x1000 => Ok(Self::JP),
            0x2000 => Ok(Self::CALL),
            0x3000 => Ok(Self::SE),
            0x4000 => Ok(Self::SNE),
            0x5000 => Ok(Self::SER),
            0x6000 => Ok(Self::LD),
            0x7000 => Ok(Self::ADD),
            0x8000 => Self::decode8(opcode),
            0x9000 => Ok(Self::SNER),
            0xA000 => Ok(Self::LDI),
            0xB000 => Ok(Self::JPA),
            0xC000 => Ok(Self::RND),
            0xD000 => Ok(Self::DRW),
            0xE000 => match opcode & 0x00FF {
                0x009E => Ok(Self::SKP),
                0x00A1 => Ok(Self::SKNP),
                _ => Err(Fault::InvalidOpcode),
            },
            _ => Self::decode_f(opcode),
        }
    }

    /// Decodes the arithmetic and logic family by the low nibble alone.
    pub fn decode8(opcode: u16) -> (r: Result<Self, Fault>)
        ensures
            r == decoded(decode8_of(opcode)),
    {
        assert(opcode & 0x000F == opcode % 16) by (bit_vector);
        match opcode & 0x000F {
            0x0000 => Ok(Self::LDR),
            0x0001 => Ok(Self::OR),
            0x0002 => Ok(Self::AND),
            0x0003 => Ok(Self::XOR),
            0x0004 => Ok(Self::ADDR),
            0x0005 => Ok(Self::SUB),
            0x0006 => Ok(Self::SHR),
            0x0007 => Ok(Self::SUBN),
            0x000E => Ok(Self::SHL),
            _ => Err(Fault::InvalidOpcode),
        }
    }

    /// Decodes the timer, memory and font family by the low byte alone.
    pub fn decode_f(opcode: u16) -> (r: Result<Self, Fault>)
        ensures
            r == decoded(decode_f_of(opcode)),
    {
        assert(opcode & 0x00FF == opcode % 256) by (bit_vector);
        match opcode & 0x00FF {
            0x0007 => Ok(Self::LDD),
            0x000A => Ok(Self::LDK),
            0x0015 => Ok(Self::LDDT),
            0x0018 => Ok(Self::LDST),
            0x001E => Ok(Self::ADDI),
            0x0029 => Ok(Self::LDF),
            0x0033 => Ok(Self::LDB),
            0x0055 => Ok(Self::LDII),
            0x0065 => Ok(Self::LDVX),
            _ => Err(Fault::InvalidOpcode),
        }
    }

    /// The first register operand, always below 16.
    pub fn x(opcode: u16) -> (r: usize)
        ensures
            r == x_of(opcode),
            r < 16,
    {
        assert((opcode & 0x0F00) >> 8 == (opcode / 256) % 16) by (bit_vector);
        ((opcode & 0x0F00) >> 8) as usize
    }

    /// The second register operand, always below 16.
    pub fn y(opcode: u16) -> (r: usize)
        ensures
            r == y_of(opcode),
            r < 16,
    {
        assert((opcode & 0x00F0) >> 4 == (opcode / 16) % 16) by (bit_vector);
        ((opcode & 0x00F0) >> 4) as usize
    }

    /// The immediate byte.
    pub fn kk(opcode: u16) -> (r: u8)
        ensures
            r == kk_of(opcode),
    {
        assert(opcode & 0x00FF == opcode % 256) by (bit_vector);
        (opcode & 0x00FF) as u8
    }

    /// The address operand, always below 4096.
    pub fn nnn(opcode: u16) -> (r: u16)
        ensures
            r == nnn_of(opcode),
            r < 4096,
    {
        assert(opcode & 0x0FFF == opcode % 4096) by (bit_vector);
        opcode & 0x0FFF
    }

    /// The sprite height, always below 16.
    pub fn nibble(opcode: u16) -> (r: usize)
        ensures
            r == nibble_of(opcode),
            r < 16,
    {
        assert(opcode & 0x000F == opcode % 16) by (bit_vector);
        (opcode & 0x000F) as usize
    }
}

} // verus!
