use vstd::prelude::*;

use crate::instruction::{decode_spec, Instruction};
use crate::screen::{blank, draw_collides, drawn};

verus! {

/// Bytes of addressable memory.
pub const MEMORY_SIZE: usize = 4096;

/// Where programs are loaded and execution starts.
pub const PROGRAM_START: u16 = 0x200;

/// Depth of the call stack.
pub const STACK_DEPTH: u16 = 16;

/// The flag register, written by arithmetic, shifts and sprite drawing.
pub const FLAG: usize = 0xF;

/// A fault that stops the machine.
#[derive(Clone, Copy, Debug, PartialEq, Eq, Structural)]
pub enum Fault {
    /// The instruction at this program counter does not lie within memory.
    ProgramCounterOutOfRange { pc: u16 },
    /// A return with an empty call stack.
    StackUnderflow,
    /// A call with a full call stack.
    StackOverflow,
    /// Memory from the address register on, as far as the instruction reaches,
    /// does not lie within memory.
    MemoryOutOfRange { address: u16 },
    /// A key instruction named a register that holds no key code.
    KeyOutOfRange { key: u8 },
}

/// The whole machine as mathematical values.
pub struct MachineState {
    /// The 4096 bytes of memory.
    pub memory: Seq<u8>,
    /// `V[0]` to `V[F]`.
    pub registers: Seq<u8>,
    /// `I`, the base of indexed memory instructions.
    pub address_register: u16,
    pub program_counter: u16,
    /// Sixteen slots, of which the first `stack_pointer` hold return points.
    pub stack: Seq<u16>,
    pub stack_pointer: u16,
    pub delay_timer: u8,
    pub sound_timer: u8,
    /// The frame, row-major, 64 pixels to a row.
    pub pixels: Seq<u8>,
    /// Which of the sixteen keys are down.
    pub keys: Seq<bool>,
    /// Whether the frame changed since the caller last drew it.
    pub draw_flag: bool,
}

/// The glyphs of the hexadecimal digits, five rows of one byte each.
pub open spec fn font() -> Seq<u8> {
    seq![
        0xF0u8, 0x90, 0x90, 0x90, 0xF0, // 0
        0x20, 0x60, 0x20, 0x20, 0x70, // 1
        0xF0, 0x10, 0xF0, 0x80, 0xF0, // 2
        0xF0, 0x10, 0xF0, 0x10, 0xF0, // 3
        0x90, 0x90, 0xF0, 0x10, 0x10, // 4
        0xF0, 0x80, 0xF0, 0x10, 0xF0, // 5
        0xF0, 0x80, 0xF0, 0x90, 0xF0, // 6
        0xF0, 0x10, 0x20, 0x40, 0x40, // 7
        0xF0, 0x90, 0xF0, 0x90, 0xF0, // 8
        0xF0, 0x90, 0xF0, 0x10, 0xF0, // 9
        0xF0, 0x90, 0xF0, 0x90, 0x90, // A
        0xE0, 0x90, 0xE0, 0x90, 0xE0, // B
        0xF0, 0x80, 0x80, 0x80, 0xF0, // C
        0xE0, 0x90, 0x90, 0x90, 0xE0, // D
        0xF0, 0x80, 0xF0, 0x80, 0xF0, // E
        0xF0, 0x80, 0xF0, 0x80, 0x80, // F
    ]
}

impl MachineState {
    /// Sizes of the parts, and a stack whose entries are addresses that an
    /// instruction was fetched from.
    pub open spec fn wf(self) -> bool {
        &&& self.memory.len() == 4096
        &&& self.registers.len() == 16
        &&& self.stack.len() == 16
        &&& self.stack_pointer <= 16
        &&& self.pixels.len() == 2048
        &&& self.keys.len() == 16
        &&& forall|i: int| 0 <= i < 16 ==> #[trigger] self.stack[i] < 4095
    }

    /// The machine with register `x` set to `v`.
    pub open spec fn with_reg(self, x: int, v: u8) -> MachineState {
        MachineState { registers: self.registers.update(x, v), ..self }
    }

    /// The machine moved on to the next instruction.
    pub open spec fn next(self) -> MachineState {
        MachineState { program_counter: (self.program_counter + 2) as u16, ..self }
    }

    /// The machine moved on past the next instruction if `cond` holds, else to it.
    pub open spec fn skip_if(self, cond: bool) -> MachineState {
        MachineState {
            program_counter: (self.program_counter + if cond { 4int } else { 2int }) as u16,
            ..self
        }
    }

    /// The word at the program counter, most significant byte first.
    pub open spec fn fetched(self) -> u16 {
        (self.memory[self.program_counter as int] * 256 + self.memory[self.program_counter + 1]) as u16
    }
}

/// The machine as it is built: glyphs at the bottom of memory, everything
/// else zero, execution at the program start, the frame due for drawing.
pub open spec fn initial_state() -> MachineState {
    MachineState {
        memory: Seq::new(4096, |i: int| if i < 80 { font()[i] } else { 0u8 }),
        registers: Seq::new(16, |_i: int| 0u8),
        address_register: 0,
        program_counter: PROGRAM_START,
        stack: Seq::new(16, |_i: int| 0u16),
        stack_pointer: 0,
        delay_timer: 0,
        sound_timer: 0,
        pixels: blank(),
        keys: Seq::new(16, |_i: int| false),
        draw_flag: true,
    }
}

/// The machine with `program` copied into memory at the program start.
pub open spec fn load_spec(s: MachineState, program: Seq<u8>) -> MachineState {
    MachineState {
        memory: Seq::new(
            s.memory.len(),
            |i: int|
                if PROGRAM_START <= i < PROGRAM_START + program.len() {
                    program[i - PROGRAM_START]
                } else {
                    s.memory[i]
                },
        ),
        ..s
    }
}

/// The code of the highest-numbered key among codes `0..n` that is down.
pub open spec fn highest_key_below(keys: Seq<bool>, n: int) -> Option<u8>
    decreases n,
{
    if n <= 0 {
        None
    } else if keys[n - 1] {
        Some((n - 1) as u8)
    } else {
        highest_key_below(keys, n - 1)
    }
}

/// The code of the highest-numbered key that is down, if any is.
pub open spec fn highest_key_down(keys: Seq<bool>) -> Option<u8> {
    highest_key_below(keys, 16)
}

/// Whether `len` bytes from the address register on lie within memory.
pub open spec fn span_fits(s: MachineState, len: int) -> bool {
    s.address_register + len <= 4096
}

/// What executing `ins` does to `s`; `random` is the byte that `CXNN` masks.
/// The program counter moves on by one instruction unless the instruction
/// jumps, calls, returns, skips or waits.
pub open spec fn execute_spec(s: MachineState, ins: Instruction, random: u8) -> Result<MachineState, Fault> {
    let reg = s.registers;
    match ins {
        Instruction::ClearScreen => Ok(MachineState { pixels: blank(), draw_flag: true, ..s }.next()),
        Instruction::Return => {
            if s.stack_pointer == 0 {
                Err(Fault::StackUnderflow)
            } else {
                let sp = (s.stack_pointer - 1) as u16;
                Ok(MachineState { stack_pointer: sp, program_counter: (s.stack[sp as int] + 2) as u16, ..s })
            }
        },
        Instruction::Jump { addr } => Ok(MachineState { program_counter: addr, ..s }),
        Instruction::Call { addr } => {
            if s.stack_pointer >= STACK_DEPTH {
                Err(Fault::StackOverflow)
            } else {
                Ok(MachineState {
                    stack: s.stack.update(s.stack_pointer as int, s.program_counter),
                    stack_pointer: (s.stack_pointer + 1) as u16,
                    program_counter: addr,
                    ..s
                })
            }
        },
        Instruction::SkipEqual { x, nn } => Ok(s.skip_if(reg[x as int] == nn)),
        Instruction::SkipNotEqual { x, nn } => Ok(s.skip_if(reg[x as int] != nn)),
        Instruction::SkipRegsEqual { x, y } => Ok(s.skip_if(reg[x as int] == reg[y as int])),
        Instruction::SetNum { x, nn } => Ok(s.with_reg(x as int, nn).next()),
        Instruction::AddNum { x, nn } => Ok(s.with_reg(x as int, ((reg[x as int] + nn) % 256) as u8).next()),
        Instruction::SetReg { x, y } => Ok(s.with_reg(x as int, reg[y as int]).next()),
        Instruction::Or { x, y } => Ok(s.with_reg(x as int, reg[x as int] | reg[y as int]).next()),
        Instruction::And { x, y } => Ok(s.with_reg(x as int, reg[x as int] & reg[y as int]).next()),
        Instruction::Xor { x, y } => Ok(s.with_reg(x as int, reg[x as int] ^ reg[y as int]).next()),
        Instruction::AddRegs { x, y } => {
            let sum = reg[x as int] + reg[y as int];
            let flag: u8 = if sum > 255 { 1 } else { 0 };
            Ok(s.with_reg(FLAG as int, flag).with_reg(x as int, (sum % 256) as u8).next())
        },
        Instruction::SubRegs { x, y } => {
            let (a, b) = (reg[x as int], reg[y as int]);
            let flag: u8 = if a < b { 0 } else { 1 };
            Ok(s.with_reg(FLAG as int, flag).with_reg(x as int, ((a - b + 256) % 256) as u8).next())
        },
        Instruction::ShiftRight { x } => {
            let a = reg[x as int];
            Ok(s.with_reg(FLAG as int, (a % 2) as u8).with_reg(x as int, (a / 2) as u8).next())
        },
        Instruction::SubReversed { x, y } => {
            let (a, b) = (reg[x as int], reg[y as int]);
            let flag: u8 = if b < a { 0 } else { 1 };
            Ok(s.with_reg(FLAG as int, flag).with_reg(x as int, ((b - a + 256) % 256) as u8).next())
        },
        Instruction::ShiftLeft { x } => {
            let a = reg[x as int];
            Ok(s.with_reg(FLAG as int, (a / 128) as u8).with_reg(x as int, ((a * 2) % 256) as u8).next())
        },
        Instruction::SkipRegsNotEqual { x, y } => Ok(s.skip_if(reg[x as int] != reg[y as int])),
        Instruction::SetAddress { addr } => Ok(MachineState { address_register: addr, ..s }.next()),
        Instruction::JumpOffset { addr } => Ok(MachineState { program_counter: (addr + reg[0]) as u16, ..s }),
        Instruction::Random { x, nn } => Ok(s.with_reg(x as int, nn & random).next()),
        Instruction::Draw { x, y, n } => {
            if !span_fits(s, n as int) {
                Err(Fault::MemoryOutOfRange { address: s.address_register })
            } else {
                let sprite = s.memory.subrange(s.address_register as int, s.address_register + n);
                let (px, py) = (reg[x as int] as int, reg[y as int] as int);
                let flag: u8 = if draw_collides(s.pixels, px, py, sprite) { 1 } else { 0 };
                Ok(MachineState { pixels: drawn(s.pixels, px, py, sprite), draw_flag: true, ..s }.with_reg(
                    FLAG as int,
                    flag,
                ).next())
            }
        },
        Instruction::SkipKeyDown { x } => {
            if reg[x as int] >= 16 {
                Err(Fault::KeyOutOfRange { key: reg[x as int] })
            } else {
                Ok(s.skip_if(s.keys[reg[x as int] as int]))
            }
        },
        Instruction::SkipKeyUp { x } => {
            if reg[x as int] >= 16 {
                Err(Fault::KeyOutOfRange { key: reg[x as int] })
            } else {
                Ok(s.skip_if(!s.keys[reg[x as int] as int]))
            }
        },
        Instruction::GetDelay { x } => Ok(s.with_reg(x as int, s.delay_timer).next()),
        Instruction::WaitKey { x } => match highest_key_down(s.keys) {
            Some(k) => Ok(s.with_reg(x as int, k).next()),
            None => Ok(s),
        },
        Instruction::SetDelay { x } => Ok(MachineState { delay_timer: reg[x as int], ..s }.next()),
        Instruction::SetSound { x } => Ok(MachineState { sound_timer: reg[x as int], ..s }.next()),
        Instruction::AddAddress { x } => Ok(
            MachineState { address_register: ((s.address_register + reg[x as int]) % 0x10000) as u16, ..s }.next(),
        ),
        Instruction::FontChar { x } => Ok(
            MachineState { address_register: (reg[x as int] * 5) as u16, ..s }.next(),
        ),
        Instruction::Bcd { x } => {
            if !span_fits(s, 3) {
                Err(Fault::MemoryOutOfRange { address: s.address_register })
            } else {
                let (v, i) = (reg[x as int], s.address_register as int);
                Ok(MachineState {
                    memory: s.memory.update(i, (v / 100) as u8).update(i + 1, ((v / 10) % 10) as u8).update(
                        i + 2,
                        (v % 10) as u8,
                    ),
                    ..s
                }.next())
            }
        },
        Instruction::StoreRegs { x } => {
            if !span_fits(s, x + 1) {
                Err(Fault::MemoryOutOfRange { address: s.address_register })
            } else {
                let i = s.address_register as int;
                Ok(MachineState {
                    memory: Seq::new(
                        s.memory.len(),
                        |a: int| if i <= a <= i + x { reg[a - i] } else { s.memory[a] },
                    ),
                    ..s
                }.next())
            }
        },
        Instruction::LoadRegs { x } => {
            if !span_fits(s, x + 1) {
                Err(Fault::MemoryOutOfRange { address: s.address_register })
            } else {
                let i = s.address_register as int;
                Ok(MachineState {
                    registers: Seq::new(16, |r: int| if r <= x { s.memory[i + r] } else { reg[r] }),
                    ..s
                }.next())
            }
        },
        Instruction::Unknown { .. } => Ok(s.next()),
    }
}

/// Executing `ins` on `pre` succeeds and reaches `post`.
pub open spec fn executes_to(pre: MachineState, ins: Instruction, random: u8, post: MachineState) -> bool {
    execute_spec(pre, ins, random) == Ok::<MachineState, Fault>(post)
}

/// Whether a handler that returned `r` and left the machine at `post` did
/// what `expected` says of the machine `pre`: on success it reached the
/// expected machine, on a fault it reports it and changes nothing.
pub open spec fn achieves(
    pre: MachineState,
    expected: Result<MachineState, Fault>,
    post: MachineState,
    r: Result<(), Fault>,
) -> bool {
    match expected {
        Ok(t) => r is Ok && post == t,
        Err(e) => r == Err::<(), Fault>(e) && post == pre,
    }
}

/// Executing a decoded instruction keeps the machine well formed.
pub proof fn lemma_execute_wf(s: MachineState, ins: Instruction, random: u8)
    requires
        s.wf(),
        s.program_counter < 4095,
        crate::instruction::fields_in_range(ins),
    ensures
        execute_spec(s, ins, random) matches Ok(t) ==> t.wf(),
{
}

/// The timers after one cycle: each counts down by one and stops at zero.
pub open spec fn tick_timers(s: MachineState) -> MachineState {
    MachineState {
        delay_timer: if s.delay_timer > 0 { (s.delay_timer - 1) as u8 } else { 0 },
        sound_timer: if s.sound_timer > 0 { (s.sound_timer - 1) as u8 } else { 0 },
        ..s
    }
}

/// One cycle: fetch the word at the program counter, execute it, then count
/// the timers down. A fault leaves the machine as it was.
pub open spec fn step_spec(s: MachineState, random: u8) -> Result<MachineState, Fault> {
    if s.program_counter + 1 >= 4096 {
        Err(Fault::ProgramCounterOutOfRange { pc: s.program_counter })
    } else {
        match execute_spec(s, decode_spec(s.fetched()), random) {
            Ok(t) => Ok(tick_timers(t)),
            Err(e) => Err(e),
        }
    }
}

} // verus!
