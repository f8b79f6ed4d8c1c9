//! Properties of the machine that relate several operations or hold for
//! every input, proved over the model that the operations' contracts use.

use vstd::prelude::*;

use crate::instruction::{decode_spec, Instruction};
use crate::machine::{
    execute_spec, highest_key_below, highest_key_down, initial_state, load_spec, step_spec,
    Fault, MachineState, FLAG, PROGRAM_START,
};
use crate::screen::{drawn, pixel_index};

verus! {

/// `8XY4` with `V[x] = a` and `V[y] = b` sets the flag to 1 exactly when
/// `a + b > 255` and leaves `(a + b) mod 256` in `V[x]`, for `x` other than the
/// flag register itself.
pub proof fn law_add_carry(s: MachineState, x: usize, y: usize, random: u8)
    requires
        s.wf(),
        x < 16,
        y < 16,
        x != FLAG,
    ensures
        ({
            let (a, b) = (s.registers[x as int], s.registers[y as int]);
            let t = execute_spec(s, Instruction::AddRegs { x, y }, random)->Ok_0;
            &&& execute_spec(s, Instruction::AddRegs { x, y }, random) is Ok
            &&& (t.registers[FLAG as int] == 1) == (a + b > 255)
            &&& t.registers[FLAG as int] <= 1
            &&& t.registers[x as int] == (a + b) % 256
        }),
{
}

/// `8XY5` with `V[x] = a` and `V[y] = b` sets the flag to 0 exactly when
/// `a < b` and leaves `(a - b) mod 256` in `V[x]`, for `x` other than the flag
/// register itself.
pub proof fn law_sub_borrow(s: MachineState, x: usize, y: usize, random: u8)
    requires
        s.wf(),
        x < 16,
        y < 16,
        x != FLAG,
    ensures
        ({
            let (a, b) = (s.registers[x as int], s.registers[y as int]);
            let t = execute_spec(s, Instruction::SubRegs { x, y }, random)->Ok_0;
            &&& execute_spec(s, Instruction::SubRegs { x, y }, random) is Ok
            &&& (t.registers[FLAG as int] == 0) == (a < b)
            &&& t.registers[FLAG as int] <= 1
            &&& t.registers[x as int] == (a - b) % 256
        }),
{
}

/// After `00E0` every pixel of the frame is dark.
pub proof fn law_clear_darkens_all(s: MachineState, random: u8)
    requires
        s.wf(),
    ensures
        execute_spec(s, Instruction::ClearScreen, random) is Ok,
        forall|px: int, py: int|
            0 <= px < 64 && 0 <= py < 32 ==> #[trigger] execute_spec(
                s,
                Instruction::ClearScreen,
                random,
            )->Ok_0.pixels[pixel_index(px, py)] == 0,
{
    assert forall|px: int, py: int| 0 <= px < 64 && 0 <= py < 32 implies #[trigger] execute_spec(
        s,
        Instruction::ClearScreen,
        random,
    )->Ok_0.pixels[pixel_index(px, py)] == 0 by {
        assert(0 <= pixel_index(px, py) < 2048);
    }
}

/// Drawing the same sprite at the same place twice gives back the frame that
/// was there before.
pub proof fn law_draw_twice_restores(p: Seq<u8>, x: int, y: int, sprite: Seq<u8>)
    ensures
        drawn(drawn(p, x, y, sprite), x, y, sprite) == p,
{
    let q = drawn(p, x, y, sprite);
    let r = drawn(q, x, y, sprite);
    assert forall|i: int| 0 <= i < p.len() implies r[i] == p[i] by {
        let v = p[i];
        assert((v ^ 1u8) ^ 1u8 == v) by (bit_vector);
    }
    assert(r =~= p);
}

/// `DXYN` run twice with the same operands, the sprite read from memory and
/// its position taken from registers other than the flag register, leaves the
/// frame as it was.
pub proof fn law_draw_instruction_twice(s: MachineState, x: usize, y: usize, n: u8, random: u8)
    requires
        s.wf(),
        s.program_counter < 4093,
        x < 16,
        y < 16,
        x != FLAG,
        y != FLAG,
        s.address_register + n <= 4096,
    ensures
        ({
            let ins = Instruction::Draw { x, y, n };
            let t = execute_spec(s, ins, random)->Ok_0;
            &&& execute_spec(s, ins, random) is Ok
            &&& execute_spec(t, ins, random) is Ok
            &&& execute_spec(t, ins, random)->Ok_0.pixels == s.pixels
        }),
{
    let ins = Instruction::Draw { x, y, n };
    let t = execute_spec(s, ins, random)->Ok_0;
    assert(t.memory == s.memory && t.address_register == s.address_register);
    assert(t.registers[x as int] == s.registers[x as int]);
    assert(t.registers[y as int] == s.registers[y as int]);
    let sprite = s.memory.subrange(s.address_register as int, s.address_register + n);
    law_draw_twice_restores(
        s.pixels,
        s.registers[x as int] as int,
        s.registers[y as int] as int,
        sprite,
    );
}

/// `2NNN` followed by the `00EE` that it calls returns to the instruction
/// after the call, with the stack as deep as before.
pub proof fn law_call_then_return(s: MachineState, addr: u16, random1: u8, random2: u8)
    requires
        s.wf(),
        s.program_counter + 1 < 4096,
        decode_spec(s.fetched()) == (Instruction::Call { addr }),
        s.stack_pointer < 16,
        addr + 1 < 4096,
        s.memory[addr as int] == 0x00,
        s.memory[addr + 1] == 0xEE,
    ensures
        ({
            let t = step_spec(s, random1)->Ok_0;
            &&& step_spec(s, random1) is Ok
            &&& step_spec(t, random2) is Ok
            &&& step_spec(t, random2)->Ok_0.program_counter == s.program_counter + 2
            &&& step_spec(t, random2)->Ok_0.stack_pointer == s.stack_pointer
        }),
{
    let t = step_spec(s, random1)->Ok_0;
    assert(t.fetched() == 0x00EE);
}

/// The machine after running one cycle per byte of `randoms`, each byte
/// handed to its cycle; the first fault ends the run.
pub open spec fn run(s: MachineState, randoms: Seq<u8>) -> Result<MachineState, Fault>
    decreases randoms.len(),
{
    if randoms.len() == 0 {
        Ok(s)
    } else {
        match step_spec(s, randoms[0]) {
            Ok(t) => run(t, randoms.drop_first()),
            Err(e) => Err(e),
        }
    }
}

/// With no key among `0..n` down, none is found there.
proof fn lemma_no_key_below(keys: Seq<bool>, n: int)
    requires
        forall|k: int| 0 <= k < n ==> !#[trigger] keys[k],
    ensures
        highest_key_below(keys, n) is None,
    decreases n,
{
    if n > 0 {
        lemma_no_key_below(keys, n - 1);
    }
}

/// When `k` is down and no key from `k + 1` to `n` is, `k` is the one found.
proof fn lemma_highest_key_below(keys: Seq<bool>, n: int, k: int)
    requires
        0 <= k < n,
        k < 256,
        keys[k],
        forall|j: int| k < j < n ==> !#[trigger] keys[j],
    ensures
        highest_key_below(keys, n) == Some(k as u8),
    decreases n,
{
    if n - 1 > k {
        lemma_highest_key_below(keys, n - 1, k);
    }
}

/// While no key is down, cycles on `FX0A` never move the program counter,
/// however many there are.
pub proof fn law_wait_key_blocks(s: MachineState, x: usize, randoms: Seq<u8>)
    requires
        s.wf(),
        s.program_counter + 1 < 4096,
        decode_spec(s.fetched()) == (Instruction::WaitKey { x }),
        forall|k: int| 0 <= k < 16 ==> !#[trigger] s.keys[k],
    ensures
        run(s, randoms) is Ok,
        run(s, randoms)->Ok_0.program_counter == s.program_counter,
    decreases randoms.len(),
{
    lemma_no_key_below(s.keys, 16);
    if randoms.len() > 0 {
        let t = step_spec(s, randoms[0])->Ok_0;
        assert(t.fetched() == s.fetched());
        law_wait_key_blocks(t, x, randoms.drop_first());
    }
}

/// `FX0A` with key `k` down and no higher-numbered key down stores `k` in
/// `V[x]` and moves on to the next instruction.
pub proof fn law_wait_key_takes_highest(s: MachineState, x: usize, k: int, random: u8)
    requires
        s.wf(),
        s.program_counter + 1 < 4096,
        decode_spec(s.fetched()) == (Instruction::WaitKey { x }),
        0 <= k < 16,
        s.keys[k],
        forall|j: int| k < j < 16 ==> !#[trigger] s.keys[j],
    ensures
        step_spec(s, random) is Ok,
        step_spec(s, random)->Ok_0.registers[x as int] == k,
        step_spec(s, random)->Ok_0.program_counter == s.program_counter + 2,
{
    lemma_highest_key_below(s.keys, 16, k);
    assert(highest_key_down(s.keys) == Some(k as u8));
}

/// `FX55` then `FX65` with the address register unchanged between them: the
/// load brings back registers `0..=x` as they were stored, whatever the
/// registers held in between, and leaves the higher registers as they were
/// in between.
pub proof fn law_store_load_round_trip(s: MachineState, x: usize, between: Seq<u8>, random: u8)
    requires
        s.wf(),
        s.program_counter < 4093,
        x < 16,
        s.address_register + x + 1 <= 4096,
        between.len() == 16,
    ensures
        ({
            let t = execute_spec(s, Instruction::StoreRegs { x }, random)->Ok_0;
            let u = MachineState { registers: between, ..t };
            let v = execute_spec(u, Instruction::LoadRegs { x }, random)->Ok_0;
            &&& execute_spec(s, Instruction::StoreRegs { x }, random) is Ok
            &&& execute_spec(u, Instruction::LoadRegs { x }, random) is Ok
            &&& forall|i: int| 0 <= i <= x ==> #[trigger] v.registers[i] == s.registers[i]
            &&& forall|i: int| x < i < 16 ==> #[trigger] v.registers[i] == between[i]
        }),
{
}

/// A program loaded into a fresh machine whose first instruction is `1NNN`
/// moves the program counter to `NNN` in one cycle and changes nothing else.
pub proof fn law_load_then_jump(program: Seq<u8>, random: u8)
    requires
        2 <= program.len() <= 4096 - 0x200,
        program[0] / 16 == 1,
    ensures
        ({
            let s = load_spec(initial_state(), program);
            let nnn = ((program[0] % 16) * 256 + program[1]) as u16;
            step_spec(s, random) == Ok::<MachineState, Fault>(
                MachineState { program_counter: nnn, ..s },
            )
        }),
{
    let s = load_spec(initial_state(), program);
    assert(s.memory[PROGRAM_START as int] == program[0]);
    assert(s.memory[PROGRAM_START + 1] == program[1]);
}

} // verus!
