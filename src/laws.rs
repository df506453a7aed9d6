//! Properties of the instruction set that hold of every machine state.

use vstd::prelude::*;
use crate::decode::{decode_bytes, Instruction};
use crate::display::all_clear;
use crate::exec::{advance, cycle_spec, exec_spec, fetched, highest_pressed, ExecError, Outcome};
use crate::machine::{initial_memory, Machine};

verus! {

/// 8xy4 adds with carry: VF is 1 exactly when the true sum of the old Vx and
/// Vy exceeds 255, and Vx (unless it is VF itself) becomes the sum modulo 256.
pub proof fn lemma_add_carry(m: Machine, screen: Seq<bool>, keys: Seq<bool>, x: u8, y: u8, random: u8)
    requires
        m.wf(),
        x < 16,
        y < 16,
    ensures
        ({
            let (m2, s2, r) = exec_spec(m, screen, keys, decode_bytes((0x80 + x) as u8, (y * 16 + 4) as u8), random);
            let sum = m.v[x as int] + m.v[y as int];
            &&& m2.v[15] == (if sum > 255 { 1u8 } else { 0u8 })
            &&& x != 15 ==> m2.v[x as int] == sum % 256
            &&& m2.pc == advance(m.pc, 2)
            &&& s2 == screen
            &&& r == Ok::<Outcome, ExecError>(Outcome::Executed)
        }),
{
    assert(decode_bytes((0x80 + x) as u8, (y * 16 + 4) as u8) == Instruction::AddReg { x, y });
}

/// 8xy6 shifts right by exactly one bit and leaves the bit shifted out, 0 or
/// 1, in VF.
pub proof fn lemma_shift_right(m: Machine, screen: Seq<bool>, keys: Seq<bool>, x: u8, y: u8, random: u8)
    requires
        m.wf(),
        x < 16,
        y < 16,
    ensures
        ({
            let (m2, s2, r) = exec_spec(m, screen, keys, decode_bytes((0x80 + x) as u8, (y * 16 + 6) as u8), random);
            let a = m.v[x as int];
            &&& m2.v[15] == a % 2
            &&& m2.v[15] == 0 || m2.v[15] == 1
            &&& x != 15 ==> m2.v[x as int] == a / 2
            &&& r == Ok::<Outcome, ExecError>(Outcome::Executed)
        }),
{
    assert(decode_bytes((0x80 + x) as u8, (y * 16 + 6) as u8) == Instruction::Shr { x });
}

/// 8xyE shifts left by exactly one bit, dropping bit 7, and leaves the bit
/// shifted out, 0 or 1, in VF.
pub proof fn lemma_shift_left(m: Machine, screen: Seq<bool>, keys: Seq<bool>, x: u8, y: u8, random: u8)
    requires
        m.wf(),
        x < 16,
        y < 16,
    ensures
        ({
            let (m2, s2, r) = exec_spec(m, screen, keys, decode_bytes((0x80 + x) as u8, (y * 16 + 0xE) as u8), random);
            let a = m.v[x as int];
            &&& m2.v[15] == (if a >= 128 { 1u8 } else { 0u8 })
            &&& m2.v[15] == 0 || m2.v[15] == 1
            &&& x != 15 ==> m2.v[x as int] == (a * 2) % 256
            &&& r == Ok::<Outcome, ExecError>(Outcome::Executed)
        }),
{
    assert(decode_bytes((0x80 + x) as u8, (y * 16 + 0xE) as u8) == Instruction::Shl { x });
}

/// After 00E0 every pixel of the display is off.
pub proof fn lemma_clear_screen(m: Machine, screen: Seq<bool>, keys: Seq<bool>, random: u8)
    requires
        m.wf(),
        screen.len() == 2048,
    ensures
        ({
            let (m2, s2, r) = exec_spec(m, screen, keys, decode_bytes(0x00, 0xE0), random);
            &&& s2.len() == 2048
            &&& all_clear(s2)
            &&& forall|k: int| 0 <= k < 2048 ==> !#[trigger] s2[k]
        }),
{
}

/// A CALL followed by a RET comes back to the instruction after the CALL,
/// with the stack pointer where it was.
pub proof fn lemma_call_then_return(m: Machine, screen: Seq<bool>, keys: Seq<bool>, addr: u16, random: u8)
    requires
        m.wf(),
        m.sp < 16,
        addr < 4096,
    ensures
        ({
            let (m1, s1, r1) = exec_spec(m, screen, keys, Instruction::Call { addr }, random);
            let (m2, s2, r2) = exec_spec(m1, s1, keys, Instruction::Ret, random);
            &&& m1.pc == addr
            &&& m2.pc == advance(m.pc, 2)
            &&& m2.sp == m.sp
            &&& r1 == Ok::<Outcome, ExecError>(Outcome::Executed)
            &&& r2 == Ok::<Outcome, ExecError>(Outcome::Executed)
        }),
{
}

/// The machine and display after `n` cycles with the same keys held and the
/// same random byte.
pub open spec fn cycles(m: Machine, screen: Seq<bool>, keys: Seq<bool>, random: u8, n: nat) -> (Machine, Seq<bool>)
    decreases n,
{
    if n == 0 {
        (m, screen)
    } else {
        let (m1, s1, r) = cycle_spec(m, screen, keys, random);
        cycles(m1, s1, keys, random, (n - 1) as nat)
    }
}

/// While no key is pressed, Fx0A at the program counter leaves the machine
/// and the display as they are, however many cycles run, and reports that it
/// waits.
pub proof fn lemma_wait_for_key(m: Machine, screen: Seq<bool>, keys: Seq<bool>, random: u8, n: nat)
    requires
        m.wf(),
        keys.len() == 16,
        fetched(m) is LdKey,
        forall|k: int| 0 <= k < 16 ==> !#[trigger] keys[k],
    ensures
        cycle_spec(m, screen, keys, random) == (m, screen, Ok::<Outcome, ExecError>(Outcome::WaitingForKey)),
        cycles(m, screen, keys, random, n) == (m, screen),
    decreases n,
{
    lemma_none_pressed(keys, 16);
    if n > 0 {
        lemma_wait_for_key(m, screen, keys, random, (n - 1) as nat);
    }
}

proof fn lemma_none_pressed(keys: Seq<bool>, n: int)
    requires
        0 <= n <= keys.len(),
        forall|k: int| 0 <= k < n ==> !#[trigger] keys[k],
    ensures
        highest_pressed(keys, n) == -1,
    decreases n,
{
    if n > 0 {
        lemma_none_pressed(keys, n - 1);
    }
}

proof fn lemma_highest_is_pressed(keys: Seq<bool>, n: int)
    requires
        0 <= n <= keys.len(),
    ensures
        -1 <= highest_pressed(keys, n) < n,
        highest_pressed(keys, n) >= 0 ==> keys[highest_pressed(keys, n)],
        (exists|k: int| 0 <= k < n && #[trigger] keys[k]) ==> highest_pressed(keys, n) >= 0,
    decreases n,
{
    if n > 0 {
        lemma_highest_is_pressed(keys, n - 1);
    }
}

/// Once a key is pressed, Fx0A stores the index of a pressed key (the highest
/// one) in Vx and moves on to the next instruction.
pub proof fn lemma_key_pressed(m: Machine, screen: Seq<bool>, keys: Seq<bool>, random: u8, x: u8)
    requires
        m.wf(),
        keys.len() == 16,
        fetched(m) == (Instruction::LdKey { x }),
        exists|k: int| 0 <= k < 16 && #[trigger] keys[k],
    ensures
        ({
            let (m2, s2, r) = cycle_spec(m, screen, keys, random);
            let key = m2.v[x as int];
            &&& key < 16
            &&& keys[key as int]
            &&& forall|k: int| key < k < 16 ==> !#[trigger] keys[k]
            &&& m2.pc == advance(m.pc, 2)
            &&& s2 == screen
            &&& r == Ok::<Outcome, ExecError>(Outcome::Executed)
        }),
{
    lemma_highest_is_pressed(keys, 16);
    lemma_highest_is_top(keys, 16);
}

proof fn lemma_highest_is_top(keys: Seq<bool>, n: int)
    requires
        0 <= n <= keys.len(),
    ensures
        forall|k: int| highest_pressed(keys, n) < k < n ==> !#[trigger] keys[k],
    decreases n,
{
    if n > 0 {
        lemma_highest_is_top(keys, n - 1);
    }
}

/// A ROM of the largest size fills memory from 0x200 to the end exactly, and
/// the bytes between the font and 0x200 stay zero.
pub proof fn lemma_full_rom(rom: Seq<u8>)
    requires
        rom.len() == 3584,
    ensures
        initial_memory(rom).subrange(0x200, 0x1000) == rom,
        forall|a: int| 0x50 <= a < 0x200 ==> #[trigger] initial_memory(rom)[a] == 0,
{
    assert(initial_memory(rom).subrange(0x200, 0x1000) =~= rom);
}

} // verus!
