use vstd::prelude::*;

use crate::instruction::{decode, decode_spec, fields_in_range, Instruction};
use crate::keys::Keys;
use crate::machine::{
    achieves, execute_spec, executes_to, font, highest_key_below, initial_state, lemma_execute_wf, load_spec, step_spec, tick_timers,
    Fault, MachineState, FLAG, MEMORY_SIZE, PROGRAM_START, STACK_DEPTH,
};
use crate::screen::Screen;

verus! {

/// What one cycle did: the instruction it executed, and whether the frame is
/// due for drawing afterwards.
#[derive(Clone, Copy, Debug, PartialEq, Eq, Structural)]
pub struct Executed {
    pub instruction: Instruction,
    pub redraw: bool,
}

/// The machine: memory, registers, call stack, timers, frame and key pad.
pub struct Cpu {
    /// Set when the frame changed; the caller clears it once it has drawn it.
    pub draw_flag: bool,
    memory: [u8; 4096],
    register: [u8; 16],
    address_register: u16,
    program_counter: u16,
    delay_timer: u8,
    sound_timer: u8,
    stack: [u16; 16],
    stack_pointer: u16,
    pub graphics: Screen,
    pub keypad: Keys,
}

impl View for Cpu {
    type V = MachineState;

    closed spec fn view(&self) -> MachineState {
        MachineState {
            memory: self.memory@,
            registers: self.register@,
            address_register: self.address_register,
            program_counter: self.program_counter,
            stack: self.stack@,
            stack_pointer: self.stack_pointer,
            delay_timer: self.delay_timer,
            sound_timer: self.sound_timer,
            pixels: self.graphics@,
            keys: self.keypad@,
            draw_flag: self.draw_flag,
        }
    }
}

/// Relies on `rand::random::<u8>`: a byte drawn from the thread's generator.
/// Nothing is promised of its value.
#[verifier::external_body]
fn random_byte() -> (r: u8) {
    rand::random::<u8>()
}

/// The glyph table as an array.
fn font_bytes() -> (r: [u8; 80])
    ensures
        r@ == font(),
{
    let r: [u8; 80] = [
        0xF0, 0x90, 0x90, 0x90, 0xF0, // 0
        0x20, 0x60, 0x20, 0x20, 0x70, // 1
        0xF0, 0x10, 0xF0, 0x80, 0xF0, // 2
        0xF0, 0x10, 0xF0, 0x10, 0xF0, // 3
        0x90, 0x90, 0xF0, 0x10, 0x10, // 4
        0xF0, 0x80, 0xF0, 0x10, 0xF0, // 5
        0xF0, 0x80, 0xF0, 0x90, 0xF0, // 6
        0xF0, 0x10, 0x20, 0x40, 0x40, // 7
        0xF0, 0x90, 0xF0, 0x90, 0xF0, // 8
        0xF0, 0x90, 0xF0, 0x10, 0xF0, // 9
        0xF0, 0x90, 0xF0, 0x90, 0x90, // A
        0xE0, 0x90, 0xE0, 0x90, 0xE0, // B
        0xF0, 0x80, 0x80, 0x80, 0xF0, // C
        0xE0, 0x90, 0x90, 0x90, 0xE0, // D
        0xF0, 0x80, 0xF0, 0x80, 0xF0, // E
        0xF0, 0x80, 0xF0, 0x80, 0x80, // F
    ];
    assert(r@ =~= font());
    r
}

/// Whether a cycle on `pre` with the byte `random` that returned `r` and left
/// the machine at `post` did what the model says: on success the machine
/// reached the model's next state and `r` names the executed instruction and
/// whether the frame is due for drawing; on a fault nothing changed.
pub open spec fn stepped(pre: MachineState, random: u8, post: MachineState, r: Result<Executed, Fault>) -> bool {
    match step_spec(pre, random) {
        Ok(t) => r == Ok::<Executed, Fault>(
            Executed { instruction: decode_spec(pre.fetched()), redraw: t.draw_flag },
        ) && post == t,
        Err(f) => r == Err::<Executed, Fault>(f) && post == pre,
    }
}

impl Cpu {
    /// The machine is well formed.
    pub open spec fn wf(&self) -> bool {
        self@.wf()
    }

    /// A machine with the glyph table in memory, every other byte, register,
    /// timer and stack entry zero, execution at the program start.
    pub fn new() -> (cpu: Cpu)
        ensures
            cpu@ == initial_state(),
            cpu.wf(),
    {
        let mut cpu = Cpu {
            draw_flag: true,
            memory: [0; 4096],
            register: [0; 16],
            address_register: 0,
            program_counter: PROGRAM_START,
            delay_timer: 0,
            sound_timer: 0,
            stack: [0; 16],
            stack_pointer: 0,
            graphics: Screen::new(),
            keypad: Keys::new(),
        };
        let glyphs = font_bytes();
        let mut i: usize = 0;
        while i < 80
            invariant
                i <= 80,
                glyphs@ == font(),
                cpu.memory@.len() == 4096,
                forall|a: int| 0 <= a < 4096 ==> #[trigger] cpu.memory@[a] == if a < i { font()[a] } else { 0u8 },
                cpu.register@ == Seq::new(16, |_i: int| 0u8),
                cpu.stack@ == Seq::new(16, |_i: int| 0u16),
                cpu.graphics@ == crate::screen::blank(),
                cpu.keypad@ == Seq::new(16, |_i: int| false),
                cpu.draw_flag,
                cpu.address_register == 0,
                cpu.program_counter == PROGRAM_START,
                cpu.delay_timer == 0,
                cpu.sound_timer == 0,
                cpu.stack_pointer == 0,
            decreases 80 - i,
        {
            cpu.memory[i] = glyphs[i];
            i += 1;
        }
        assert(cpu.register@ =~= Seq::new(16, |_i: int| 0u8));
        assert(cpu.memory@ =~= initial_state().memory);
        cpu
    }

    /// Copies `program` into memory from the program start on.
    pub fn load(&mut self, program: &[u8])
        requires
            program@.len() <= MEMORY_SIZE - PROGRAM_START,
        ensures
            final(self)@ == load_spec(old(self)@, program@),
            old(self).wf() ==> final(self).wf(),
    {
        let ghost old_mem = self.memory@;
        let mut k: usize = 0;
        while k < program.len()
            invariant
                k <= program@.len() <= 4096 - 0x200,
                self.memory@.len() == 4096,
                forall|a: int| 0 <= a < 4096 ==> #[trigger] self.memory@[a] == if 0x200 <= a < 0x200 + k {
                    program@[a - 0x200]
                } else {
                    old_mem[a]
                },
                self@ == (MachineState { memory: self.memory@, ..old(self)@ }),
            decreases program@.len() - k,
        {
            self.memory[0x200 + k] = program[k];
            k += 1;
        }
        assert(self.memory@ =~= load_spec(old(self)@, program@).memory);
    }

    /// The word at the program counter.
    fn fetch_opcode(&self) -> (w: u16)
        requires
            self.program_counter + 1 < 4096,
            self.wf(),
        ensures
            w == self@.fetched(),
    {
        let pc = self.program_counter as usize;
        (self.memory[pc] as u16) * 256 + self.memory[pc + 1] as u16
    }

    /// Well formed, with the program counter at a fetched instruction.
    spec fn ready(&self) -> bool {
        self.wf() && self@.program_counter < 4095
    }

    // 00E0
    fn clear_screen(&mut self)
        requires
            old(self).ready(),
        ensures
            executes_to(old(self)@, Instruction::ClearScreen, 0, final(self)@),
    {
        self.graphics.clear();
        self.draw_flag = true;
        self.program_counter += 2;
    }

    // 00EE
    fn cpu_return(&mut self) -> (r: Result<(), Fault>)
        requires
            old(self).ready(),
        ensures
            achieves(old(self)@, execute_spec(old(self)@, Instruction::Return, 0), final(self)@, r),
    {
        if self.stack_pointer == 0 {
            return Err(Fault::StackUnderflow);
        }
        self.stack_pointer -= 1;
        self.program_counter = self.stack[self.stack_pointer as usize] + 2;
        Ok(())
    }

    // 1NNN
    fn jump(&mut self, addr: u16)
        requires
            old(self).ready(),
        ensures
            executes_to(old(self)@, Instruction::Jump { addr }, 0, final(self)@),
    {
        self.program_counter = addr;
    }

    // 2NNN
    fn call(&mut self, addr: u16) -> (r: Result<(), Fault>)
        requires
            old(self).ready(),
        ensures
            achieves(old(self)@, execute_spec(old(self)@, Instruction::Call { addr }, 0), final(self)@, r),
    {
        if self.stack_pointer >= STACK_DEPTH {
            return Err(Fault::StackOverflow);
        }
        self.stack[self.stack_pointer as usize] = self.program_counter;
        self.stack_pointer += 1;
        self.program_counter = addr;
        Ok(())
    }

    /// Moves past the next instruction when `cond` holds, else to it.
    fn skip_if(&mut self, cond: bool)
        requires
            old(self).ready(),
        ensures
            final(self)@ == old(self)@.skip_if(cond),
    {
        if cond {
            self.program_counter += 4;
        } else {
            self.program_counter += 2;
        }
    }

    // 3XNN
    fn skip_equal(&mut self, x: usize, nn: u8)
        requires
            old(self).ready(),
            x < 16,
        ensures
            executes_to(old(self)@, Instruction::SkipEqual { x, nn }, 0, final(self)@),
    {
        let cond = self.register[x] == nn;
        self.skip_if(cond);
    }

    // 4XNN
    fn skip_not_equal(&mut self, x: usize, nn: u8)
        requires
            old(self).ready(),
            x < 16,
        ensures
            executes_to(old(self)@, Instruction::SkipNotEqual { x, nn }, 0, final(self)@),
    {
        let cond = self.register[x] != nn;
        self.skip_if(cond);
    }

    // 5XY0
    fn skip_regs_equal(&mut self, x: usize, y: usize)
        requires
            old(self).ready(),
            x < 16,
            y < 16,
        ensures
            executes_to(old(self)@, Instruction::SkipRegsEqual { x, y }, 0, final(self)@),
    {
        let cond = self.register[x] == self.register[y];
        self.skip_if(cond);
    }

    // 9XY0
    fn skip_regs_not_equal(&mut self, x: usize, y: usize)
        requires
            old(self).ready(),
            x < 16,
            y < 16,
        ensures
            executes_to(old(self)@, Instruction::SkipRegsNotEqual { x, y }, 0, final(self)@),
    {
        let cond = self.register[x] != self.register[y];
        self.skip_if(cond);
    }

    // 6XNN
    fn set_vx_num(&mut self, x: usize, nn: u8)
        requires
            old(self).ready(),
            x < 16,
        ensures
            executes_to(old(self)@, Instruction::SetNum { x, nn }, 0, final(self)@),
    {
        self.register[x] = nn;
        self.program_counter += 2;
    }

    // 7XNN
    fn add_vx_num(&mut self, x: usize, nn: u8)
        requires
            old(self).ready(),
            x < 16,
        ensures
            executes_to(old(self)@, Instruction::AddNum { x, nn }, 0, final(self)@),
    {
        let sum: u16 = self.register[x] as u16 + nn as u16;
        self.register[x] = (sum % 256) as u8;
        self.program_counter += 2;
    }

    // 8XY0
    fn set_vx_vy(&mut self, x: usize, y: usize)
        requires
            old(self).ready(),
            x < 16,
            y < 16,
        ensures
            executes_to(old(self)@, Instruction::SetReg { x, y }, 0, final(self)@),
    {
        self.register[x] = self.register[y];
        self.program_counter += 2;
    }

    // 8XY1
    fn set_vx_or(&mut self, x: usize, y: usize)
        requires
            old(self).ready(),
            x < 16,
            y < 16,
        ensures
            executes_to(old(self)@, Instruction::Or { x, y }, 0, final(self)@),
    {
        self.register[x] = self.register[x] | self.register[y];
        self.program_counter += 2;
    }

    // 8XY2
    fn set_vx_and(&mut self, x: usize, y: usize)
        requires
            old(self).ready(),
            x < 16,
            y < 16,
        ensures
            executes_to(old(self)@, Instruction::And { x, y }, 0, final(self)@),
    {
        self.register[x] = self.register[x] & self.register[y];
        self.program_counter += 2;
    }

    // 8XY3
    fn set_vx_xor(&mut self, x: usize, y: usize)
        requires
            old(self).ready(),
            x < 16,
            y < 16,
        ensures
            executes_to(old(self)@, Instruction::Xor { x, y }, 0, final(self)@),
    {
        self.register[x] = self.register[x] ^ self.register[y];
        self.program_counter += 2;
    }

    // 8XY4: the flag is written first, so with X = F the sum wins.
    fn add_vx_vy(&mut self, x: usize, y: usize)
        requires
            old(self).ready(),
            x < 16,
            y < 16,
        ensures
            executes_to(old(self)@, Instruction::AddRegs { x, y }, 0, final(self)@),
    {
        let sum: u16 = self.register[x] as u16 + self.register[y] as u16;
        self.register[FLAG] = if sum > 255 { 1 } else { 0 };
        self.register[x] = (sum % 256) as u8;
        self.program_counter += 2;
    }

    // 8XY5
    fn sub_vx_vy(&mut self, x: usize, y: usize)
        requires
            old(self).ready(),
            x < 16,
            y < 16,
        ensures
            executes_to(old(self)@, Instruction::SubRegs { x, y }, 0, final(self)@),
    {
        let a = self.register[x];
        let b = self.register[y];
        self.register[FLAG] = if a < b { 0 } else { 1 };
        self.register[x] = ((a as u16 + 256 - b as u16) % 256) as u8;
        self.program_counter += 2;
    }

    // 8XY6
    fn shr_vx(&mut self, x: usize)
        requires
            old(self).ready(),
            x < 16,
        ensures
            executes_to(old(self)@, Instruction::ShiftRight { x }, 0, final(self)@),
    {
        let a = self.register[x];
        self.register[FLAG] = a % 2;
        self.register[x] = a / 2;
        self.program_counter += 2;
    }

    // 8XY7
    fn sub_vy_vx(&mut self, x: usize, y: usize)
        requires
            old(self).ready(),
            x < 16,
            y < 16,
        ensures
            executes_to(old(self)@, Instruction::SubReversed { x, y }, 0, final(self)@),
    {
        let a = self.register[x];
        let b = self.register[y];
        self.register[FLAG] = if b < a { 0 } else { 1 };
        self.register[x] = ((b as u16 + 256 - a as u16) % 256) as u8;
        self.program_counter += 2;
    }

    // 8XYE
    fn shl_vx(&mut self, x: usize)
        requires
            old(self).ready(),
            x < 16,
        ensures
            executes_to(old(self)@, Instruction::ShiftLeft { x }, 0, final(self)@),
    {
        let a = self.register[x];
        self.register[FLAG] = a / 128;
        self.register[x] = ((a as u16 * 2) % 256) as u8;
        self.program_counter += 2;
    }

    // ANNN
    fn set_adr_reg(&mut self, addr: u16)
        requires
            old(self).ready(),
        ensures
            executes_to(old(self)@, Instruction::SetAddress { addr }, 0, final(self)@),
    {
        self.address_register = addr;
        self.program_counter += 2;
    }

    // BNNN
    fn jump_add(&mut self, addr: u16)
        requires
            old(self).ready(),
            addr < 0x1000,
        ensures
            executes_to(old(self)@, Instruction::JumpOffset { addr }, 0, final(self)@),
    {
        self.program_counter = addr + self.register[0] as u16;
    }

    // CXNN
    fn rand_op(&mut self, x: usize, nn: u8, random: u8)
        requires
            old(self).ready(),
            x < 16,
        ensures
            executes_to(old(self)@, Instruction::Random { x, nn }, random, final(self)@),
    {
        self.register[x] = nn & random;
        self.program_counter += 2;
    }

    // DXYN
    fn draw(&mut self, x: usize, y: usize, n: u8) -> (r: Result<(), Fault>)
        requires
            old(self).ready(),
            x < 16,
            y < 16,
        ensures
            achieves(old(self)@, execute_spec(old(self)@, Instruction::Draw { x, y, n }, 0), final(self)@, r),
    {
        let start = self.address_register as usize;
        if start + n as usize > MEMORY_SIZE {
            return Err(Fault::MemoryOutOfRange { address: self.address_register });
        }
        let mut sprite: Vec<u8> = Vec::new();
        let mut k: usize = 0;
        while k < n as usize
            invariant
                k <= n,
                start + n <= 4096,
                self.memory@.len() == 4096,
                sprite@ == self.memory@.subrange(start as int, start + k),
            decreases n - k,
        {
            sprite.push(self.memory[start + k]);
            k += 1;
        }
        let flag = self.graphics.draw(self.register[x] as usize, self.register[y] as usize, sprite.as_slice());
        self.register[FLAG] = flag;
        self.draw_flag = true;
        self.program_counter += 2;
        Ok(())
    }

    // EX9E when `down`, EXA1 otherwise
    fn skip_key_press(&mut self, x: usize, down: bool) -> (r: Result<(), Fault>)
        requires
            old(self).ready(),
            x < 16,
        ensures
            achieves(
                old(self)@,
                execute_spec(
                    old(self)@,
                    if down { Instruction::SkipKeyDown { x } } else { Instruction::SkipKeyUp { x } },
                    0,
                ),
                final(self)@,
                r,
            ),
    {
        let key = self.register[x];
        if key >= 16 {
            return Err(Fault::KeyOutOfRange { key });
        }
        let cond = self.keypad.is_down(key as usize) == down;
        self.skip_if(cond);
        Ok(())
    }

    // FX07
    fn set_vx_delay(&mut self, x: usize)
        requires
            old(self).ready(),
            x < 16,
        ensures
            executes_to(old(self)@, Instruction::GetDelay { x }, 0, final(self)@),
    {
        self.register[x] = self.delay_timer;
        self.program_counter += 2;
    }

    // FX0A: stays on this instruction until a key is down.
    fn set_vx_key(&mut self, x: usize)
        requires
            old(self).ready(),
            x < 16,
        ensures
            executes_to(old(self)@, Instruction::WaitKey { x }, 0, final(self)@),
    {
        let mut found: Option<u8> = None;
        let mut i: usize = 0;
        while i < 16
            invariant
                i <= 16,
                self.wf(),
                found == highest_key_below(self@.keys, i as int),
            decreases 16 - i,
        {
            if self.keypad.is_down(i) {
                found = Some(i as u8);
            }
            i += 1;
        }
        if let Some(k) = found {
            self.register[x] = k;
            self.program_counter += 2;
        }
    }

    // FX15
    fn set_delay_vx(&mut self, x: usize)
        requires
            old(self).ready(),
            x < 16,
        ensures
            executes_to(old(self)@, Instruction::SetDelay { x }, 0, final(self)@),
    {
        self.delay_timer = self.register[x];
        self.program_counter += 2;
    }

    // FX18
    fn set_sound_vx(&mut self, x: usize)
        requires
            old(self).ready(),
            x < 16,
        ensures
            executes_to(old(self)@, Instruction::SetSound { x }, 0, final(self)@),
    {
        self.sound_timer = self.register[x];
        self.program_counter += 2;
    }

    // FX1E: the address register is 16 bits wide and wraps.
    fn add_adr_reg(&mut self, x: usize)
        requires
            old(self).ready(),
            x < 16,
        ensures
            executes_to(old(self)@, Instruction::AddAddress { x }, 0, final(self)@),
    {
        self.address_register = ((self.address_register as u32 + self.register[x] as u32) % 0x10000) as u16;
        self.program_counter += 2;
    }

    // FX29
    fn set_adr_char(&mut self, x: usize)
        requires
            old(self).ready(),
            x < 16,
        ensures
            executes_to(old(self)@, Instruction::FontChar { x }, 0, final(self)@),
    {
        self.address_register = (self.register[x] as u16) * 5;
        self.program_counter += 2;
    }

    // FX33
    fn vx_to_bcd(&mut self, x: usize) -> (r: Result<(), Fault>)
        requires
            old(self).ready(),
            x < 16,
        ensures
            achieves(old(self)@, execute_spec(old(self)@, Instruction::Bcd { x }, 0), final(self)@, r),
    {
        let i = self.address_register as usize;
        if i + 3 > MEMORY_SIZE {
            return Err(Fault::MemoryOutOfRange { address: self.address_register });
        }
        let v = self.register[x];
        self.memory[i] = v / 100;
        self.memory[i + 1] = (v / 10) % 10;
        self.memory[i + 2] = v % 10;
        self.program_counter += 2;
        Ok(())
    }

    // FX55
    fn store_regs(&mut self, x: usize) -> (r: Result<(), Fault>)
        requires
            old(self).ready(),
            x < 16,
        ensures
            achieves(old(self)@, execute_spec(old(self)@, Instruction::StoreRegs { x }, 0), final(self)@, r),
    {
        let start = self.address_register as usize;
        if start + x + 1 > MEMORY_SIZE {
            return Err(Fault::MemoryOutOfRange { address: self.address_register });
        }
        let ghost old_mem = self.memory@;
        let mut k: usize = 0;
        while k <= x
            invariant
                x < 16,
                k <= x + 1,
                start + x + 1 <= 4096,
                self.memory@.len() == 4096,
                forall|a: int| 0 <= a < 4096 ==> #[trigger] self.memory@[a] == if start <= a < start + k {
                    self.register@[a - start]
                } else {
                    old_mem[a]
                },
                self@ == (MachineState { memory: self.memory@, ..old(self)@ }),
            decreases x + 1 - k,
        {
            self.memory[start + k] = self.register[k];
            k += 1;
        }
        self.program_counter += 2;
        assert(self.memory@ =~= execute_spec(old(self)@, Instruction::StoreRegs { x }, 0)->Ok_0.memory);
        Ok(())
    }

    // FX65
    fn read_regs(&mut self, x: usize) -> (r: Result<(), Fault>)
        requires
            old(self).ready(),
            x < 16,
        ensures
            achieves(old(self)@, execute_spec(old(self)@, Instruction::LoadRegs { x }, 0), final(self)@, r),
    {
        let start = self.address_register as usize;
        if start + x + 1 > MEMORY_SIZE {
            return Err(Fault::MemoryOutOfRange { address: self.address_register });
        }
        let ghost old_reg = self.register@;
        let mut k: usize = 0;
        while k <= x
            invariant
                x < 16,
                k <= x + 1,
                start + x + 1 <= 4096,
                self.memory@.len() == 4096,
                self.register@.len() == 16,
                forall|r: int| 0 <= r < 16 ==> #[trigger] self.register@[r] == if r < k {
                    self.memory@[start + r]
                } else {
                    old_reg[r]
                },
                self@ == (MachineState { registers: self.register@, ..old(self)@ }),
            decreases x + 1 - k,
        {
            self.register[k] = self.memory[start + k];
            k += 1;
        }
        self.program_counter += 2;
        assert(self.register@ =~= execute_spec(old(self)@, Instruction::LoadRegs { x }, 0)->Ok_0.registers);
        Ok(())
    }

    /// Executes one decoded instruction.
    fn execute(&mut self, ins: Instruction, random: u8) -> (r: Result<(), Fault>)
        requires
            old(self).ready(),
            fields_in_range(ins),
        ensures
            achieves(old(self)@, execute_spec(old(self)@, ins, random), final(self)@, r),
    {
        match ins {
            Instruction::ClearScreen => {
                self.clear_screen();
                Ok(())
            },
            Instruction::Return => self.cpu_return(),
            Instruction::Jump { addr } => {
                self.jump(addr);
                Ok(())
            },
            Instruction::Call { addr } => self.call(addr),
            Instruction::SkipEqual { x, nn } => {
                self.skip_equal(x, nn);
                Ok(())
            },
            Instruction::SkipNotEqual { x, nn } => {
                self.skip_not_equal(x, nn);
                Ok(())
            },
            Instruction::SkipRegsEqual { x, y } => {
                self.skip_regs_equal(x, y);
                Ok(())
            },
            Instruction::SetNum { x, nn } => {
                self.set_vx_num(x, nn);
                Ok(())
            },
            Instruction::AddNum { x, nn } => {
                self.add_vx_num(x, nn);
                Ok(())
            },
            Instruction::SetReg { x, y } => {
                self.set_vx_vy(x, y);
                Ok(())
            },
            Instruction::Or { x, y } => {
                self.set_vx_or(x, y);
                Ok(())
            },
            Instruction::And { x, y } => {
                self.set_vx_and(x, y);
                Ok(())
            },
            Instruction::Xor { x, y } => {
                self.set_vx_xor(x, y);
                Ok(())
            },
            Instruction::AddRegs { x, y } => {
                self.add_vx_vy(x, y);
                Ok(())
            },
            Instruction::SubRegs { x, y } => {
                self.sub_vx_vy(x, y);
                Ok(())
            },
            Instruction::ShiftRight { x } => {
                self.shr_vx(x);
                Ok(())
            },
            Instruction::SubReversed { x, y } => {
                self.sub_vy_vx(x, y);
                Ok(())
            },
            Instruction::ShiftLeft { x } => {
                self.shl_vx(x);
                Ok(())
            },
            Instruction::SkipRegsNotEqual { x, y } => {
                self.skip_regs_not_equal(x, y);
                Ok(())
            },
            Instruction::SetAddress { addr } => {
                self.set_adr_reg(addr);
                Ok(())
            },
            Instruction::JumpOffset { addr } => {
                self.jump_add(addr);
                Ok(())
            },
            Instruction::Random { x, nn } => {
                self.rand_op(x, nn, random);
                Ok(())
            },
            Instruction::Draw { x, y, n } => self.draw(x, y, n),
            Instruction::SkipKeyDown { x } => self.skip_key_press(x, true),
            Instruction::SkipKeyUp { x } => self.skip_key_press(x, false),
            Instruction::GetDelay { x } => {
                self.set_vx_delay(x);
                Ok(())
            },
            Instruction::WaitKey { x } => {
                self.set_vx_key(x);
                Ok(())
            },
            Instruction::SetDelay { x } => {
                self.set_delay_vx(x);
                Ok(())
            },
            Instruction::SetSound { x } => {
                self.set_sound_vx(x);
                Ok(())
            },
            Instruction::AddAddress { x } => {
                self.add_adr_reg(x);
                Ok(())
            },
            Instruction::FontChar { x } => {
                self.set_adr_char(x);
                Ok(())
            },
            Instruction::Bcd { x } => self.vx_to_bcd(x),
            Instruction::StoreRegs { x } => self.store_regs(x),
            Instruction::LoadRegs { x } => self.read_regs(x),
            Instruction::Unknown { .. } => {
                self.program_counter += 2;
                Ok(())
            },
        }
    }

    /// One cycle: fetches the instruction at the program counter, executes it
    /// and counts the timers down. `random` is the byte that `CXNN` masks.
    pub fn step(&mut self, random: u8) -> (r: Result<Executed, Fault>)
        requires
            old(self).wf(),
        ensures
            final(self).wf(),
            stepped(old(self)@, random, final(self)@, r),
    {
        if self.program_counter >= 4095 {
            return Err(Fault::ProgramCounterOutOfRange { pc: self.program_counter });
        }
        let word = self.fetch_opcode();
        let ins = decode(word);
        proof {
            lemma_execute_wf(self@, ins, random);
        }
        match self.execute(ins, random) {
            Ok(()) => {
                self.step_timers();
                Ok(Executed { instruction: ins, redraw: self.draw_flag })
            },
            Err(f) => Err(f),
        }
    }

    /// One cycle, with a fresh random byte for `CXNN`.
    pub fn cycle(&mut self) -> (r: Result<Executed, Fault>)
        requires
            old(self).wf(),
        ensures
            final(self).wf(),
            exists|random: u8| stepped(old(self)@, random, final(self)@, r),
    {
        let random = random_byte();
        let r = self.step(random);
        assert(stepped(old(self)@, random, self@, r));
        r
    }

    /// Register `i`.
    pub fn register(&self, i: usize) -> (v: u8)
        requires
            i < 16,
        ensures
            v == self@.registers[i as int],
    {
        self.register[i]
    }

    /// The byte at `address`.
    pub fn memory_at(&self, address: usize) -> (v: u8)
        requires
            address < MEMORY_SIZE,
        ensures
            v == self@.memory[address as int],
    {
        self.memory[address]
    }

    /// The program counter.
    pub fn program_counter(&self) -> (v: u16)
        ensures
            v == self@.program_counter,
    {
        self.program_counter
    }

    /// The address register.
    pub fn address_register(&self) -> (v: u16)
        ensures
            v == self@.address_register,
    {
        self.address_register
    }

    /// The number of return addresses on the call stack.
    pub fn stack_pointer(&self) -> (v: u16)
        ensures
            v == self@.stack_pointer,
    {
        self.stack_pointer
    }

    /// The delay timer.
    pub fn delay_timer(&self) -> (v: u8)
        ensures
            v == self@.delay_timer,
    {
        self.delay_timer
    }

    /// The sound timer.
    pub fn sound_timer(&self) -> (v: u8)
        ensures
            v == self@.sound_timer,
    {
        self.sound_timer
    }

    /// Counts both timers down by one, stopping at zero.
    fn step_timers(&mut self)
        ensures
            final(self)@ == tick_timers(old(self)@),
    {
        if self.delay_timer > 0 {
            self.delay_timer -= 1;
        }
        if self.sound_timer > 0 {
            self.sound_timer -= 1;
        }
    }
}

} // verus!
