use vstd::prelude::*;

verus! {

/// One decoded instruction word. `x` and `y` name registers (0 to 15), `nn` is
/// an 8-bit constant, `n` a 4-bit count and `addr` a 12-bit address.
#[derive(Clone, Copy, Debug, PartialEq, Eq, Structural)]
pub enum Instruction {
    /// `00E0`: clear the frame.
    ClearScreen,
    /// `00EE`: return from a subroutine.
    Return,
    /// `1NNN`: jump to `addr`.
    Jump { addr: u16 },
    /// `2NNN`: call the subroutine at `addr`.
    Call { addr: u16 },
    /// `3XNN`: skip the next instruction if `V[x] == nn`.
    SkipEqual { x: usize, nn: u8 },
    /// `4XNN`: skip the next instruction if `V[x] != nn`.
    SkipNotEqual { x: usize, nn: u8 },
    /// `5XY0`: skip the next instruction if `V[x] == V[y]`.
    SkipRegsEqual { x: usize, y: usize },
    /// `6XNN`: `V[x] = nn`.
    SetNum { x: usize, nn: u8 },
    /// `7XNN`: `V[x] += nn`, wrapping, flag untouched.
    AddNum { x: usize, nn: u8 },
    /// `8XY0`: `V[x] = V[y]`.
    SetReg { x: usize, y: usize },
    /// `8XY1`: `V[x] |= V[y]`.
    Or { x: usize, y: usize },
    /// `8XY2`: `V[x] &= V[y]`.
    And { x: usize, y: usize },
    /// `8XY3`: `V[x] ^= V[y]`.
    Xor { x: usize, y: usize },
    /// `8XY4`: `V[x] += V[y]`, flag set on carry.
    AddRegs { x: usize, y: usize },
    /// `8XY5`: `V[x] -= V[y]`, flag cleared on borrow.
    SubRegs { x: usize, y: usize },
    /// `8XY6`: `V[x] >>= 1`, flag takes the bit shifted out.
    ShiftRight { x: usize },
    /// `8XY7`: `V[x] = V[y] - V[x]`, flag cleared on borrow.
    SubReversed { x: usize, y: usize },
    /// `8XYE`: `V[x] <<= 1`, flag takes the bit shifted out.
    ShiftLeft { x: usize },
    /// `9XY0`: skip the next instruction if `V[x] != V[y]`.
    SkipRegsNotEqual { x: usize, y: usize },
    /// `ANNN`: `I = addr`.
    SetAddress { addr: u16 },
    /// `BNNN`: jump to `addr + V[0]`.
    JumpOffset { addr: u16 },
    /// `CXNN`: `V[x] = nn & random byte`.
    Random { x: usize, nn: u8 },
    /// `DXYN`: draw the `n`-byte sprite at `I` at `(V[x], V[y])`.
    Draw { x: usize, y: usize, n: u8 },
    /// `EX9E`: skip the next instruction if key `V[x]` is down.
    SkipKeyDown { x: usize },
    /// `EXA1`: skip the next instruction if key `V[x]` is up.
    SkipKeyUp { x: usize },
    /// `FX07`: `V[x] = delay timer`.
    GetDelay { x: usize },
    /// `FX0A`: wait for a key and store its code in `V[x]`.
    WaitKey { x: usize },
    /// `FX15`: `delay timer = V[x]`.
    SetDelay { x: usize },
    /// `FX18`: `sound timer = V[x]`.
    SetSound { x: usize },
    /// `FX1E`: `I += V[x]`.
    AddAddress { x: usize },
    /// `FX29`: `I` = address of the glyph for digit `V[x]`.
    FontChar { x: usize },
    /// `FX33`: store the decimal digits of `V[x]` at `I`, `I + 1`, `I + 2`.
    Bcd { x: usize },
    /// `FX55`: store `V[0]..=V[x]` at `I..`.
    StoreRegs { x: usize },
    /// `FX65`: load `V[0]..=V[x]` from `I..`.
    LoadRegs { x: usize },
    /// Any word that is none of the above.
    Unknown { word: u16 },
}

/// The register named by bits 8 to 11.
pub open spec fn field_x(w: u16) -> usize {
    ((w / 0x100) % 0x10) as usize
}

/// The register named by bits 4 to 7.
pub open spec fn field_y(w: u16) -> usize {
    ((w / 0x10) % 0x10) as usize
}

/// The low byte.
pub open spec fn field_nn(w: u16) -> u8 {
    (w % 0x100) as u8
}

/// The low twelve bits.
pub open spec fn field_nnn(w: u16) -> u16 {
    (w % 0x1000) as u16
}

/// What the word `w` encodes.
pub open spec fn decode_spec(w: u16) -> Instruction {
    let x = field_x(w);
    let y = field_y(w);
    let n = w % 0x10;
    let nn = field_nn(w);
    let addr = field_nnn(w);
    let top = w / 0x1000;
    if top == 0x0 {
        if w == 0x00E0 {
            Instruction::ClearScreen
        } else if w == 0x00EE {
            Instruction::Return
        } else {
            Instruction::Unknown { word: w }
        }
    } else if top == 0x1 {
        Instruction::Jump { addr }
    } else if top == 0x2 {
        Instruction::Call { addr }
    } else if top == 0x3 {
        Instruction::SkipEqual { x, nn }
    } else if top == 0x4 {
        Instruction::SkipNotEqual { x, nn }
    } else if top == 0x5 && n == 0 {
        Instruction::SkipRegsEqual { x, y }
    } else if top == 0x6 {
        Instruction::SetNum { x, nn }
    } else if top == 0x7 {
        Instruction::AddNum { x, nn }
    } else if top == 0x8 && n == 0x0 {
        Instruction::SetReg { x, y }
    } else if top == 0x8 && n == 0x1 {
        Instruction::Or { x, y }
    } else if top == 0x8 && n == 0x2 {
        Instruction::And { x, y }
    } else if top == 0x8 && n == 0x3 {
        Instruction::Xor { x, y }
    } else if top == 0x8 && n == 0x4 {
        Instruction::AddRegs { x, y }
    } else if top == 0x8 && n == 0x5 {
        Instruction::SubRegs { x, y }
    } else if top == 0x8 && n == 0x6 {
        Instruction::ShiftRight { x }
    } else if top == 0x8 && n == 0x7 {
        Instruction::SubReversed { x, y }
    } else if top == 0x8 && n == 0xE {
        Instruction::ShiftLeft { x }
    } else if top == 0x9 && n == 0 {
        Instruction::SkipRegsNotEqual { x, y }
    } else if top == 0xA {
        Instruction::SetAddress { addr }
    } else if top == 0xB {
        Instruction::JumpOffset { addr }
    } else if top == 0xC {
        Instruction::Random { x, nn }
    } else if top == 0xD {
        Instruction::Draw { x, y, n: n as u8 }
    } else if top == 0xE && nn == 0x9E {
        Instruction::SkipKeyDown { x }
    } else if top == 0xE && nn == 0xA1 {
        Instruction::SkipKeyUp { x }
    } else if top == 0xF && nn == 0x07 {
        Instruction::GetDelay { x }
    } else if top == 0xF && nn == 0x0A {
        Instruction::WaitKey { x }
    } else if top == 0xF && nn == 0x15 {
        Instruction::SetDelay { x }
    } else if top == 0xF && nn == 0x18 {
        Instruction::SetSound { x }
    } else if top == 0xF && nn == 0x1E {
        Instruction::AddAddress { x }
    } else if top == 0xF && nn == 0x29 {
        Instruction::FontChar { x }
    } else if top == 0xF && nn == 0x33 {
        Instruction::Bcd { x }
    } else if top == 0xF && nn == 0x55 {
        Instruction::StoreRegs { x }
    } else if top == 0xF && nn == 0x65 {
        Instruction::LoadRegs { x }
    } else {
        Instruction::Unknown { word: w }
    }
}

/// Register fields of a decoded instruction name one of the sixteen registers
/// and a sprite is at most fifteen rows tall.
pub open spec fn fields_in_range(ins: Instruction) -> bool {
    match ins {
        Instruction::SkipEqual { x, .. } | Instruction::SkipNotEqual { x, .. }
        | Instruction::SetNum { x, .. } | Instruction::AddNum { x, .. }
        | Instruction::ShiftRight { x } | Instruction::ShiftLeft { x }
        | Instruction::Random { x, .. } | Instruction::SkipKeyDown { x }
        | Instruction::SkipKeyUp { x } | Instruction::GetDelay { x }
        | Instruction::WaitKey { x } | Instruction::SetDelay { x }
        | Instruction::SetSound { x } | Instruction::AddAddress { x }
        | Instruction::FontChar { x } | Instruction::Bcd { x }
        | Instruction::StoreRegs { x } | Instruction::LoadRegs { x } => x < 16,
        Instruction::SkipRegsEqual { x, y } | Instruction::SetReg { x, y }
        | Instruction::Or { x, y } | Instruction::And { x, y }
        | Instruction::Xor { x, y } | Instruction::AddRegs { x, y }
        | Instruction::SubRegs { x, y } | Instruction::SubReversed { x, y }
        | Instruction::SkipRegsNotEqual { x, y } => x < 16 && y < 16,
        Instruction::Draw { x, y, n } => x < 16 && y < 16 && n < 16,
        Instruction::Jump { addr } | Instruction::Call { addr }
        | Instruction::SetAddress { addr } | Instruction::JumpOffset { addr } => addr < 0x1000,
        _ => true,
    }
}

/// Decodes an instruction word.
pub fn decode(w: u16) -> (ins: Instruction)
    ensures
        ins == decode_spec(w),
        fields_in_range(ins),
{
    let x = ((w / 0x100) % 0x10) as usize;
    let y = ((w / 0x10) % 0x10) as usize;
    let n = w % 0x10;
    let nn = (w % 0x100) as u8;
    let addr = w % 0x1000;
    match w / 0x1000 {
        0x0 => {
            if w == 0x00E0 {
                Instruction::ClearScreen
            } else if w == 0x00EE {
                Instruction::Return
            } else {
                Instruction::Unknown { word: w }
            }
        },
        0x1 => Instruction::Jump { addr },
        0x2 => Instruction::Call { addr },
        0x3 => Instruction::SkipEqual { x, nn },
        0x4 => Instruction::SkipNotEqual { x, nn },
        0x5 => {
            if n == 0 {
                Instruction::SkipRegsEqual { x, y }
            } else {
                Instruction::Unknown { word: w }
            }
        },
        0x6 => Instruction::SetNum { x, nn },
        0x7 => Instruction::AddNum { x, nn },
        0x8 => match n {
            0x0 => Instruction::SetReg { x, y },
            0x1 => Instruction::Or { x, y },
            0x2 => Instruction::And { x, y },
            0x3 => Instruction::Xor { x, y },
            0x4 => Instruction::AddRegs { x, y },
            0x5 => Instruction::SubRegs { x, y },
            0x6 => Instruction::ShiftRight { x },
            0x7 => Instruction::SubReversed { x, y },
            0xE => Instruction::ShiftLeft { x },
            _ => Instruction::Unknown { word: w },
        },
        0x9 => {
            if n == 0 {
                Instruction::SkipRegsNotEqual { x, y }
            } else {
                Instruction::Unknown { word: w }
            }
        },
        0xA => Instruction::SetAddress { addr },
        0xB => Instruction::JumpOffset { addr },
        0xC => Instruction::Random { x, nn },
        0xD => Instruction::Draw { x, y, n: n as u8 },
        0xE => match nn {
            0x9E => Instruction::SkipKeyDown { x },
            0xA1 => Instruction::SkipKeyUp { x },
            _ => Instruction::Unknown { word: w },
        },
        _ => match nn {
            0x07 => Instruction::GetDelay { x },
            0x0A => Instruction::WaitKey { x },
            0x15 => Instruction::SetDelay { x },
            0x18 => Instruction::SetSound { x },
            0x1E => Instruction::AddAddress { x },
            0x29 => Instruction::FontChar { x },
            0x33 => Instruction::Bcd { x },
            0x55 => Instruction::StoreRegs { x },
            0x65 => Instruction::LoadRegs { x },
            _ => Instruction::Unknown { word: w },
        },
    }
}

} // verus!
