//! The instruction set: what each 16-bit word means.

use vstd::prelude::*;

verus! {

/// One decoded instruction. `x` and `y` number registers, `addr` is a 12-bit
/// address, `byte` an immediate value.
#[derive(Clone, Copy, Debug, PartialEq, Eq)]
pub enum Instruction {
    /// `00E0`: clear the framebuffer.
    ClearScreen,
    /// `00EE`: return from the pending call.
    Return,
    /// `1nnn`: continue at `addr`.
    Jump { addr: u16 },
    /// `2nnn`: call the routine at `addr`.
    Call { addr: u16 },
    /// `3xkk`: skip the next instruction if `Vx == byte`.
    SkipEqual { x: u8, byte: u8 },
    /// `4xkk`: skip the next instruction if `Vx != byte`.
    SkipNotEqual { x: u8, byte: u8 },
    /// `5xy0`: skip the next instruction if `Vx == Vy`.
    SkipRegistersEqual { x: u8, y: u8 },
    /// `6xkk`: `Vx := byte`.
    Load { x: u8, byte: u8 },
    /// `7xkk`: `Vx := Vx + byte`, wrapping, no flag.
    AddByte { x: u8, byte: u8 },
    /// `8xy0`: `Vx := Vy`.
    Move { x: u8, y: u8 },
    /// `8xy1`: `Vx := Vx | Vy`.
    Or { x: u8, y: u8 },
    /// `8xy2`: `Vx := Vx & Vy`.
    And { x: u8, y: u8 },
    /// `8xy3`: `Vx := Vx ^ Vy`.
    Xor { x: u8, y: u8 },
    /// `8xy4`: `Vx := Vx + Vy`, wrapping; `VF` is the carry.
    Add { x: u8, y: u8 },
    /// `8xy5`: `Vx := Vx - Vy`, wrapping; `VF` is 1 if `Vx > Vy`.
    Subtract { x: u8, y: u8 },
    /// `8xy6`: `Vx := Vx >> 1`; `VF` is the bit shifted out. `y` is ignored.
    ShiftRight { x: u8 },
    /// `8xy7`: `Vx := Vy - Vx`, wrapping; `VF` is 1 if `Vy > Vx`.
    SubtractFrom { x: u8, y: u8 },
    /// `8xyE`: `Vx := Vx << 1`; `VF` is the bit shifted out. `y` is ignored.
    ShiftLeft { x: u8 },
    /// `9xy0`: skip the next instruction if `Vx != Vy`.
    SkipRegistersNotEqual { x: u8, y: u8 },
    /// `Annn`: `I := addr`.
    LoadIndex { addr: u16 },
    /// `Bnnn`: continue at `addr + V0`.
    JumpOffset { addr: u16 },
    /// `Cxkk`: `Vx := random byte & byte`.
    Random { x: u8, byte: u8 },
    /// `Dxyn`: draw the `rows`-row sprite at `I` at (`Vx`, `Vy`).
    Draw { x: u8, y: u8, rows: u8 },
    /// `Ex9E`: skip the next instruction if key `Vx` is down.
    SkipKeyDown { x: u8 },
    /// `ExA1`: skip the next instruction if key `Vx` is up.
    SkipKeyUp { x: u8 },
    /// `Fx07`: `Vx := delay timer`.
    ReadDelay { x: u8 },
    /// `Fx0A`: wait for a key, then `Vx :=` its number.
    WaitKey { x: u8 },
    /// `Fx15`: `delay timer := Vx`.
    SetDelay { x: u8 },
    /// `Fx18`: `sound timer := Vx`.
    SetSound { x: u8 },
    /// `Fx1E`: `I := I + Vx`, wrapping at 16 bits.
    AddIndex { x: u8 },
    /// `Fx29`: `I :=` address of the glyph for `Vx`, if `Vx < 16`.
    LoadGlyph { x: u8 },
    /// `Fx33`: store the three decimal digits of `Vx` at `I`, `I+1`, `I+2`.
    StoreDecimal { x: u8 },
    /// `Fx55`: store `V0` to `Vx`, `Vx` included, from `I` on.
    StoreRegisters { x: u8 },
    /// `Fx65`: load `V0` to `Vx`, `Vx` excluded, from `I` on.
    LoadRegisters { x: u8 },
}

/// Bits 15 to 12 of an instruction word: its category.
pub open spec fn word_class(word: u16) -> int {
    word as int / 0x1000
}

/// Bits 11 to 8: the register number `x`.
pub open spec fn word_x(word: u16) -> u8 {
    (word as int / 0x100 % 0x10) as u8
}

/// Bits 7 to 4: the register number `y`.
pub open spec fn word_y(word: u16) -> u8 {
    (word as int / 0x10 % 0x10) as u8
}

/// Bits 3 to 0: the nibble `n`.
pub open spec fn word_n(word: u16) -> u8 {
    (word as int % 0x10) as u8
}

/// Bits 7 to 0: the immediate byte `kk`.
pub open spec fn word_byte(word: u16) -> u8 {
    (word as int % 0x100) as u8
}

/// Bits 11 to 0: the address `nnn`.
pub open spec fn word_addr(word: u16) -> u16 {
    (word as int % 0x1000) as u16
}

/// The instruction that `word` encodes, or `None` where it encodes none.
pub open spec fn decode_word(word: u16) -> Option<Instruction> {
    let x = word_x(word);
    let y = word_y(word);
    let n = word_n(word);
    let byte = word_byte(word);
    let addr = word_addr(word);
    let class = word_class(word);
    if class == 0x0 {
        if word == 0x00E0 {
            Some(Instruction::ClearScreen)
        } else if word == 0x00EE {
            Some(Instruction::Return)
        } else {
            None
        }
    } else if class == 0x1 {
        Some(Instruction::Jump { addr })
    } else if class == 0x2 {
        Some(Instruction::Call { addr })
    } else if class == 0x3 {
        Some(Instruction::SkipEqual { x, byte })
    } else if class == 0x4 {
        Some(Instruction::SkipNotEqual { x, byte })
    } else if class == 0x5 {
        if n == 0 {
            Some(Instruction::SkipRegistersEqual { x, y })
        } else {
            None
        }
    } else if class == 0x6 {
        Some(Instruction::Load { x, byte })
    } else if class == 0x7 {
        Some(Instruction::AddByte { x, byte })
    } else if class == 0x8 {
        if n == 0x0 {
            Some(Instruction::Move { x, y })
        } else if n == 0x1 {
            Some(Instruction::Or { x, y })
        } else if n == 0x2 {
            Some(Instruction::And { x, y })
        } else if n == 0x3 {
            Some(Instruction::Xor { x, y })
        } else if n == 0x4 {
            Some(Instruction::Add { x, y })
        } else if n == 0x5 {
            Some(Instruction::Subtract { x, y })
        } else if n == 0x6 {
            Some(Instruction::ShiftRight { x })
        } else if n == 0x7 {
            Some(Instruction::SubtractFrom { x, y })
        } else if n == 0xE {
            Some(Instruction::ShiftLeft { x })
        } else {
            None
        }
    } else if class == 0x9 {
        if n == 0 {
            Some(Instruction::SkipRegistersNotEqual { x, y })
        } else {
            None
        }
    } else if class == 0xA {
        Some(Instruction::LoadIndex { addr })
    } else if class == 0xB {
        Some(Instruction::JumpOffset { addr })
    } else if class == 0xC {
        Some(Instruction::Random { x, byte })
    } else if class == 0xD {
        Some(Instruction::Draw { x, y, rows: n })
    } else if class == 0xE {
        if byte == 0x9E {
            Some(Instruction::SkipKeyDown { x })
        } else if byte == 0xA1 {
            Some(Instruction::SkipKeyUp { x })
        } else {
            None
        }
    } else {
        if byte == 0x07 {
            Some(Instruction::ReadDelay { x })
        } else if byte == 0x0A {
            Some(Instruction::WaitKey { x })
        } else if byte == 0x15 {
            Some(Instruction::SetDelay { x })
        } else if byte == 0x18 {
            Some(Instruction::SetSound { x })
        } else if byte == 0x1E {
            Some(Instruction::AddIndex { x })
        } else if byte == 0x29 {
            Some(Instruction::LoadGlyph { x })
        } else if byte == 0x33 {
            Some(Instruction::StoreDecimal { x })
        } else if byte == 0x55 {
            Some(Instruction::StoreRegisters { x })
        } else if byte == 0x65 {
            Some(Instruction::LoadRegisters { x })
        } else {
            None
        }
    }
}

impl Instruction {
    /// Whether the instruction says itself where execution goes on: a jump, a
    /// call or a return.
    pub open spec fn redirects(self) -> bool {
        self is Jump || self is JumpOffset || self is Call || self is Return
    }

    /// Register numbers are below 16, addresses below 4096, and a sprite has at
    /// most 15 rows: what every decoded instruction satisfies.
    pub open spec fn wf(self) -> bool {
        match self {
            Instruction::ClearScreen | Instruction::Return => true,
            Instruction::Jump { addr }
            | Instruction::Call { addr }
            | Instruction::LoadIndex { addr }
            | Instruction::JumpOffset { addr } => addr < 0x1000,
            Instruction::SkipEqual { x, .. }
            | Instruction::SkipNotEqual { x, .. }
            | Instruction::Load { x, .. }
            | Instruction::AddByte { x, .. }
            | Instruction::Random { x, .. }
            | Instruction::ShiftRight { x }
            | Instruction::ShiftLeft { x }
            | Instruction::SkipKeyDown { x }
            | Instruction::SkipKeyUp { x }
            | Instruction::ReadDelay { x }
            | Instruction::WaitKey { x }
            | Instruction::SetDelay { x }
            | Instruction::SetSound { x }
            | Instruction::AddIndex { x }
            | Instruction::LoadGlyph { x }
            | Instruction::StoreDecimal { x }
            | Instruction::StoreRegisters { x }
            | Instruction::LoadRegisters { x } => x < 16,
            Instruction::SkipRegistersEqual { x, y }
            | Instruction::Move { x, y }
            | Instruction::Or { x, y }
            | Instruction::And { x, y }
            | Instruction::Xor { x, y }
            | Instruction::Add { x, y }
            | Instruction::Subtract { x, y }
            | Instruction::SubtractFrom { x, y }
            | Instruction::SkipRegistersNotEqual { x, y } => x < 16 && y < 16,
            Instruction::Draw { x, y, rows } => x < 16 && y < 16 && rows < 16,
        }
    }
}

/// Decodes one instruction word.
pub fn decode(word: u16) -> (res: Option<Instruction>)
    ensures
        res == decode_word(word),
        res matches Some(instr) ==> instr.wf(),
{
    let class: u8 = (word >> 12) as u8;
    let x: u8 = ((word >> 8) & 0xF) as u8;
    let y: u8 = ((word >> 4) & 0xF) as u8;
    let n: u8 = (word & 0xF) as u8;
    let byte: u8 = (word & 0xFF) as u8;
    let addr: u16 = word & 0xFFF;
    proof {
        assert(word >> 12 == word / 0x1000 && (word >> 12) < 16) by (bit_vector);
        assert((word >> 8) & 0xF == word / 0x100 % 0x10) by (bit_vector);
        assert((word >> 4) & 0xF == word / 0x10 % 0x10) by (bit_vector);
        assert(word & 0xF == word % 0x10) by (bit_vector);
        assert(word & 0xFF == word % 0x100) by (bit_vector);
        assert(word & 0xFFF == word % 0x1000) by (bit_vector);
    }
    match class {
        0x0 => match word {
            0x00E0 => Some(Instruction::ClearScreen),
            0x00EE => Some(Instruction::Return),
            _ => None,
        },
        0x1 => Some(Instruction::Jump { addr }),
        0x2 => Some(Instruction::Call { addr }),
        0x3 => Some(Instruction::SkipEqual { x, byte }),
        0x4 => Some(Instruction::SkipNotEqual { x, byte }),
        0x5 => match n {
            0x0 => Some(Instruction::SkipRegistersEqual { x, y }),
            _ => None,
        },
        0x6 => Some(Instruction::Load { x, byte }),
        0x7 => Some(Instruction::AddByte { x, byte }),
        0x8 => match n {
            0x0 => Some(Instruction::Move { x, y }),
            0x1 => Some(Instruction::Or { x, y }),
            0x2 => Some(Instruction::And { x, y }),
            0x3 => Some(Instruction::Xor { x, y }),
            0x4 => Some(Instruction::Add { x, y }),
            0x5 => Some(Instruction::Subtract { x, y }),
            0x6 => Some(Instruction::ShiftRight { x }),
            0x7 => Some(Instruction::SubtractFrom { x, y }),
            0xE => Some(Instruction::ShiftLeft { x }),
            _ => None,
        },
        0x9 => match n {
            0x0 => Some(Instruction::SkipRegistersNotEqual { x, y }),
            _ => None,
        },
        0xA => Some(Instruction::LoadIndex { addr }),
        0xB => Some(Instruction::JumpOffset { addr }),
        0xC => Some(Instruction::Random { x, byte }),
        0xD => Some(Instruction::Draw { x, y, rows: n }),
        0xE => match byte {
            0x9E => Some(Instruction::SkipKeyDown { x }),
            0xA1 => Some(Instruction::SkipKeyUp { x }),
            _ => None,
        },
        _ => match byte {
            0x07 => Some(Instruction::ReadDelay { x }),
            0x0A => Some(Instruction::WaitKey { x }),
            0x15 => Some(Instruction::SetDelay { x }),
            0x18 => Some(Instruction::SetSound { x }),
            0x1E => Some(Instruction::AddIndex { x }),
            0x29 => Some(Instruction::LoadGlyph { x }),
            0x33 => Some(Instruction::StoreDecimal { x }),
            0x55 => Some(Instruction::StoreRegisters { x }),
            0x65 => Some(Instruction::LoadRegisters { x }),
            _ => None,
        },
    }
}

} // verus!
