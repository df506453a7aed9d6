//! Executing one instruction against the machine, the display and the keypad.

use vstd::prelude::*;
use crate::decode::{bit_set, byte, decode, decode_bytes, decode_spec, Instruction};
use crate::display::FrameBuffer;
use crate::keypad::{input_key_seek, key_down, Keypad};
use crate::machine::{Cpu, Machine};

verus! {

/// How a successfully executed cycle ended.
#[derive(Clone, Copy, Debug, PartialEq, Eq, Structural)]
pub enum Outcome {
    /// The instruction took effect.
    Executed,
    /// Fx0A found no key pressed: nothing changed, and the same instruction
    /// runs again next cycle.
    WaitingForKey,
}

/// A condition that the driver loop is told about.
#[derive(Clone, Copy, Debug, PartialEq, Eq, Structural)]
pub enum ExecError {
    /// CALL with all sixteen stack entries in use; nothing changed.
    StackOverflow,
    /// RET with an empty stack; nothing changed.
    StackUnderflow,
    /// An opcode that names no instruction; it was skipped like a no-op.
    UnknownOpcode { opcode: u16 },
}

/// `pc` moved forward by `k` bytes, within the 12-bit address space.
pub open spec fn advance(pc: u16, k: int) -> u16 {
    ((pc + k) % 4096) as u16
}

/// The address `k` bytes after `base`, masked to 12 bits.
pub open spec fn addr_at(base: u16, k: int) -> int {
    (base + k) % 4096
}

/// How far `a` lies past `base` in the 12-bit address space.
pub open spec fn offset_of(a: int, base: u16) -> int {
    (a - base) % 4096
}

/// `m` with the program counter past the current instruction.
pub open spec fn next(m: Machine) -> Machine {
    Machine { pc: advance(m.pc, 2), ..m }
}

/// `m` with the next instruction skipped when `cond` holds.
pub open spec fn skip_if(m: Machine, cond: bool) -> Machine {
    Machine { pc: advance(m.pc, if cond { 4 } else { 2 }), ..m }
}

/// `m` with register `x` set to `val`, then advanced.
pub open spec fn load(m: Machine, x: u8, val: u8) -> Machine {
    next(Machine { v: m.v.update(x as int, val), ..m })
}

/// `m` with register `x` set to `val`, then VF set to `flag`, then advanced.
pub open spec fn load_flag(m: Machine, x: u8, val: u8, flag: u8) -> Machine {
    next(Machine { v: m.v.update(x as int, val).update(15, flag), ..m })
}

/// Column of the sprite that cell `k` would show when drawn at x-coordinate `x`.
pub open spec fn sprite_col(k: int, x: u8) -> int {
    (k / 32 - x) % 64
}

/// Row of the sprite that cell `k` would show when drawn at y-coordinate `y`.
pub open spec fn sprite_row(k: int, y: u8) -> int {
    (k % 32 - y) % 32
}

/// Whether an 8-wide, `n`-high sprite at (x, y) covers cell `k`, wrapping
/// around both edges.
pub open spec fn covers(k: int, x: u8, y: u8, n: u8) -> bool {
    sprite_col(k, x) < 8 && sprite_row(k, y) < n
}

/// The sprite bit that lands on cell `k`: rows are bytes from `i` on, most
/// significant bit leftmost.
pub open spec fn sprite_bit(memory: Seq<u8>, i: u16, k: int, x: u8, y: u8) -> bool {
    bit_set(memory[addr_at(i, sprite_row(k, y))], (7 - sprite_col(k, x)) as u8)
}

/// Whether drawing flips cell `k`.
pub open spec fn flips(memory: Seq<u8>, i: u16, k: int, x: u8, y: u8, n: u8) -> bool {
    covers(k, x, y, n) && sprite_bit(memory, i, k, x, y)
}

/// The display after XOR-drawing the sprite.
pub open spec fn drawn(screen: Seq<bool>, memory: Seq<u8>, i: u16, x: u8, y: u8, n: u8) -> Seq<bool> {
    Seq::new(screen.len(), |k: int| if flips(memory, i, k, x, y, n) { !screen[k] } else { screen[k] })
}

/// Whether drawing the sprite turns off a pixel that was on.
pub open spec fn collides(screen: Seq<bool>, memory: Seq<u8>, i: u16, x: u8, y: u8, n: u8) -> bool {
    exists|k: int| 0 <= k < screen.len() && #[trigger] flips(memory, i, k, x, y, n) && screen[k]
}

/// The highest pressed key below `n`, or -1 when there is none.
pub open spec fn highest_pressed(keys: Seq<bool>, n: int) -> int
    decreases n,
{
    if n <= 0 {
        -1
    } else if keys[n - 1] {
        n - 1
    } else {
        highest_pressed(keys, n - 1)
    }
}

/// Memory after V0..=Vx are stored from address `i` on.
pub open spec fn stored(memory: Seq<u8>, v: Seq<u8>, i: u16, x: u8) -> Seq<u8> {
    Seq::new(
        memory.len(),
        |a: int| if offset_of(a, i) <= x { v[offset_of(a, i)] } else { memory[a] },
    )
}

/// Registers after V0..=Vx are loaded from address `i` on.
pub open spec fn loaded(memory: Seq<u8>, v: Seq<u8>, i: u16, x: u8) -> Seq<u8> {
    Seq::new(v.len(), |k: int| if k <= x { memory[addr_at(i, k)] } else { v[k] })
}

/// Memory after the decimal digits of `val` are written from address `i` on.
pub open spec fn bcd(memory: Seq<u8>, i: u16, val: u8) -> Seq<u8> {
    memory.update(addr_at(i, 0), val / 100).update(addr_at(i, 1), (val / 10) % 10).update(
        addr_at(i, 2),
        val % 10,
    )
}

/// Instructions that decide where execution goes next, or that may fail.
pub open spec fn is_control(ins: Instruction) -> bool {
    matches!(ins, Instruction::Ret | Instruction::Jp { .. } | Instruction::Call { .. }
        | Instruction::SeByte { .. } | Instruction::SneByte { .. } | Instruction::SeReg { .. }
        | Instruction::SneReg { .. } | Instruction::JpV0 { .. } | Instruction::Skp { .. }
        | Instruction::Sknp { .. } | Instruction::LdKey { .. } | Instruction::Unknown { .. })
}

/// Instructions that compute into the general registers.
pub open spec fn is_alu(ins: Instruction) -> bool {
    matches!(ins, Instruction::LdByte { .. } | Instruction::AddByte { .. }
        | Instruction::LdReg { .. } | Instruction::Or { .. } | Instruction::And { .. }
        | Instruction::Xor { .. } | Instruction::AddReg { .. } | Instruction::Sub { .. }
        | Instruction::Subn { .. } | Instruction::Shr { .. } | Instruction::Shl { .. }
        | Instruction::Rnd { .. })
}

/// Effect of a control instruction, with `keys` pressed.
pub open spec fn control_step(m: Machine, keys: Seq<bool>, ins: Instruction) -> (Machine, Result<Outcome, ExecError>) {
    let ok = Ok::<Outcome, ExecError>(Outcome::Executed);
    match ins {
        Instruction::Ret => if m.sp == 0 {
            (m, Err(ExecError::StackUnderflow))
        } else {
            (Machine { sp: (m.sp - 1) as u8, pc: advance(m.stack[m.sp - 1], 2), ..m }, ok)
        },
        Instruction::Jp { addr } => (Machine { pc: addr, ..m }, ok),
        Instruction::Call { addr } => if m.sp >= 16 {
            (m, Err(ExecError::StackOverflow))
        } else {
            (
                Machine {
                    stack: m.stack.update(m.sp as int, m.pc),
                    sp: (m.sp + 1) as u8,
                    pc: addr,
                    ..m
                },
                ok,
            )
        },
        Instruction::SeByte { x, kk } => (skip_if(m, m.v[x as int] == kk), ok),
        Instruction::SneByte { x, kk } => (skip_if(m, m.v[x as int] != kk), ok),
        Instruction::SeReg { x, y } => (skip_if(m, m.v[x as int] == m.v[y as int]), ok),
        Instruction::SneReg { x, y } => (skip_if(m, m.v[x as int] != m.v[y as int]), ok),
        Instruction::JpV0 { addr } => (Machine { pc: ((addr + m.v[0]) % 4096) as u16, ..m }, ok),
        Instruction::Skp { x } => (skip_if(m, key_down(keys, m.v[x as int] as int)), ok),
        Instruction::Sknp { x } => (skip_if(m, !key_down(keys, m.v[x as int] as int)), ok),
        Instruction::LdKey { x } => {
            let key = highest_pressed(keys, 16);
            if key < 0 {
                (m, Ok(Outcome::WaitingForKey))
            } else {
                (load(m, x, key as u8), ok)
            }
        },
        Instruction::Unknown { opcode } => (next(m), Err(ExecError::UnknownOpcode { opcode })),
        _ => (m, ok),
    }
}

/// Effect of an instruction that computes into the general registers;
/// `random` is the byte Cxkk draws.
pub open spec fn alu_step(m: Machine, ins: Instruction, random: u8) -> Machine {
    match ins {
        Instruction::LdByte { x, kk } => load(m, x, kk),
        Instruction::AddByte { x, kk } => load(m, x, ((m.v[x as int] + kk) % 256) as u8),
        Instruction::LdReg { x, y } => load(m, x, m.v[y as int]),
        Instruction::Or { x, y } => load(m, x, m.v[x as int] | m.v[y as int]),
        Instruction::And { x, y } => load(m, x, m.v[x as int] & m.v[y as int]),
        Instruction::Xor { x, y } => load(m, x, m.v[x as int] ^ m.v[y as int]),
        Instruction::AddReg { x, y } => {
            let sum = m.v[x as int] + m.v[y as int];
            load_flag(m, x, (sum % 256) as u8, if sum > 255 { 1 } else { 0 })
        },
        Instruction::Sub { x, y } => {
            let (a, b) = (m.v[x as int], m.v[y as int]);
            load_flag(m, x, ((a - b) % 256) as u8, if a > b { 1 } else { 0 })
        },
        Instruction::Subn { x, y } => {
            let (a, b) = (m.v[x as int], m.v[y as int]);
            load_flag(m, x, ((b - a) % 256) as u8, if b > a { 1 } else { 0 })
        },
        Instruction::Shr { x } => {
            let a = m.v[x as int];
            load_flag(m, x, a / 2, a % 2)
        },
        Instruction::Shl { x } => {
            let a = m.v[x as int];
            load_flag(m, x, ((a * 2) % 256) as u8, a / 128)
        },
        Instruction::Rnd { x, kk } => load(m, x, random & kk),
        _ => m,
    }
}

/// Effect of the instructions on I, the delay timer and memory.
pub open spec fn index_step(m: Machine, ins: Instruction) -> Machine {
    match ins {
        Instruction::LdI { addr } => next(Machine { i: addr, ..m }),
        Instruction::LdVxDt { x } => load(m, x, m.dt),
        Instruction::LdDtVx { x } => next(Machine { dt: m.v[x as int], ..m }),
        Instruction::LdSt { x } => next(m),
        Instruction::AddI { x } => next(Machine { i: ((m.i + m.v[x as int]) % 65536) as u16, ..m }),
        Instruction::LdFont { x } => next(Machine { i: (m.v[x as int] * 5) as u16, ..m }),
        Instruction::Bcd { x } => next(Machine { memory: bcd(m.memory, m.i, m.v[x as int]), ..m }),
        Instruction::StoreRegs { x } => next(Machine { memory: stored(m.memory, m.v, m.i, x), ..m }),
        Instruction::LoadRegs { x } => next(Machine { v: loaded(m.memory, m.v, m.i, x), ..m }),
        _ => m,
    }
}

/// What one instruction does: the machine, the display and the result that
/// follow from `m` and `screen`, with `keys` pressed and `random` as the
/// byte drawn for Cxkk.
pub open spec fn exec_spec(
    m: Machine,
    screen: Seq<bool>,
    keys: Seq<bool>,
    ins: Instruction,
    random: u8,
) -> (Machine, Seq<bool>, Result<Outcome, ExecError>) {
    let ok = Ok::<Outcome, ExecError>(Outcome::Executed);
    match ins {
        Instruction::Cls => (next(m), Seq::new(screen.len(), |k: int| false), ok),
        Instruction::Drw { x, y, n } => {
            let (px, py) = (m.v[x as int], m.v[y as int]);
            let hit = collides(screen, m.memory, m.i, px, py, n);
            (
                next(Machine { v: m.v.update(15, if hit { 1u8 } else { 0u8 }), ..m }),
                drawn(screen, m.memory, m.i, px, py, n),
                ok,
            )
        },
        _ => if is_control(ins) {
            let (m2, r) = control_step(m, keys, ins);
            (m2, screen, r)
        } else if is_alu(ins) {
            (alu_step(m, ins, random), screen, ok)
        } else {
            (index_step(m, ins), screen, ok)
        },
    }
}

proof fn lemma_wrap_offset(a: int, b: int, m: int)
    requires
        0 <= a < m,
        0 <= b,
        0 < m,
    ensures
        (a + m - b % m) % m == (a - b) % m,
{
    let q = b / m;
    let r = b % m;
    assert(b == m * q + r) by (nonlinear_arith)
        requires q == b / m, r == b % m, 0 < m;
    assert((a + m - r) == (a - b) + m * (q + 1)) by (nonlinear_arith)
        requires b == m * q + r;
    vstd::arithmetic::div_mod::lemma_mod_multiples_vanish(q + 1, a - b, m);
}

/// XOR-draws the `n`-row sprite stored from `i` on at (x, y) and reports
/// whether any lit pixel was turned off.
fn draw_sprite(frame_buffer: &mut FrameBuffer, memory: &[u8; 4096], i: u16, x: u8, y: u8, n: u8) -> (hit: bool)
    requires
        n < 16,
    ensures
        final(frame_buffer)@ == drawn(old(frame_buffer)@, memory@, i, x, y, n),
        hit == collides(old(frame_buffer)@, memory@, i, x, y, n),
{
    let ghost screen = frame_buffer@;
    let mut hit = false;
    let mut k: usize = 0;
    while k < 2048
        invariant
            0 <= k <= 2048,
            frame_buffer@.len() == 2048,
            screen.len() == 2048,
            memory@.len() == 4096,
            forall|j: int| 0 <= j < k ==> frame_buffer@[j] == (if flips(memory@, i, j, x, y, n) { !screen[j] } else { screen[j] }),
            forall|j: int| k <= j < 2048 ==> frame_buffer@[j] == screen[j],
            hit ==> collides(screen, memory@, i, x, y, n),
            !hit ==> forall|j: int| 0 <= j < k ==> !(#[trigger] flips(memory@, i, j, x, y, n) && screen[j]),
        decreases 2048 - k,
    {
        let px = k / 32;
        let py = k % 32;
        let col = (px + 64 - (x as usize) % 64) % 64;
        let row = (py + 32 - (y as usize) % 32) % 32;
        proof {
            lemma_wrap_offset(px as int, x as int, 64);
            lemma_wrap_offset(py as int, y as int, 32);
            assert(col == sprite_col(k as int, x));
            assert(row == sprite_row(k as int, y));
        }
        if col < 8 && row < n as usize {
            let addr = (i as usize + row) % 4096;
            let bit = byte(memory[addr], (7 - col) as u8) != 0;
            assert(bit == sprite_bit(memory@, i, k as int, x, y));
            if bit {
                let lit = frame_buffer.cells[k];
                if lit {
                    hit = true;
                    assert(flips(memory@, i, k as int, x, y, n) && screen[k as int]);
                }
                frame_buffer.cells[k] = !lit;
            }
        }
        k = k + 1;
    }
    assert(frame_buffer@ =~= drawn(screen, memory@, i, x, y, n));
    hit
}

/// The highest key that is pressed, if any.
fn pressed_key(input: &Keypad) -> (r: Option<u8>)
    ensures
        highest_pressed(input@, 16) < 0 ==> r is None,
        highest_pressed(input@, 16) >= 0 ==> r == Some(highest_pressed(input@, 16) as u8),
{
    let mut found: Option<u8> = None;
    let mut k: u8 = 0;
    while k < 16
        invariant
            0 <= k <= 16,
            input@.len() == 16,
            highest_pressed(input@, k as int) < 0 ==> found is None,
            highest_pressed(input@, k as int) >= 0 ==> found == Some(highest_pressed(input@, k as int) as u8),
            -1 <= highest_pressed(input@, k as int) < k,
        decreases 16 - k,
    {
        if input_key_seek(input, k) {
            found = Some(k);
        }
        k = k + 1;
    }
    found
}

/// Stores V0..=Vx in memory from I on, wrapping at the end of memory.
fn store_regs(cpu: &mut Cpu, x: u8)
    requires
        x < 16,
    ensures
        final(cpu)@ == (Machine { memory: stored(old(cpu)@.memory, old(cpu)@.v, old(cpu).i, x), ..old(cpu)@ }),
{
    let ghost mem = cpu@.memory;
    let mut k: u8 = 0;
    while k <= x
        invariant
            0 <= k <= x + 1,
            x < 16,
            cpu@ == (Machine { memory: cpu@.memory, ..old(cpu)@ }),
            cpu@.memory.len() == 4096,
            mem.len() == 4096,
            forall|a: int| 0 <= a < 4096 ==> #[trigger] cpu@.memory[a] == (if offset_of(a, cpu.i) < k { cpu@.v[offset_of(a, cpu.i)] } else { mem[a] }),
        decreases x + 1 - k,
    {
        let addr = (cpu.i as usize + k as usize) % 4096;
        cpu.memory[addr] = cpu.v[k as usize];
        k = k + 1;
    }
    assert(cpu@.memory =~= stored(mem, old(cpu)@.v, old(cpu).i, x));
}

/// Loads V0..=Vx from memory from I on, wrapping at the end of memory.
fn load_regs(cpu: &mut Cpu, x: u8)
    requires
        x < 16,
    ensures
        final(cpu)@ == (Machine { v: loaded(old(cpu)@.memory, old(cpu)@.v, old(cpu).i, x), ..old(cpu)@ }),
{
    let mut k: u8 = 0;
    while k <= x
        invariant
            0 <= k <= x + 1,
            x < 16,
            cpu@ == (Machine { v: cpu@.v, ..old(cpu)@ }),
            cpu@.v.len() == 16,
            forall|j: int| 0 <= j < 16 ==> #[trigger] cpu@.v[j] == (if j < k { old(cpu)@.memory[addr_at(old(cpu).i, j)] } else { old(cpu)@.v[j] }),
        decreases x + 1 - k,
    {
        let addr = (cpu.i as usize + k as usize) % 4096;
        cpu.v[k as usize] = cpu.memory[addr];
        k = k + 1;
    }
    assert(cpu@.v =~= loaded(old(cpu)@.memory, old(cpu)@.v, old(cpu).i, x));
}


fn exec_control(cpu: &mut Cpu, input: &Keypad, ins: Instruction) -> (r: Result<Outcome, ExecError>)
    requires
        old(cpu)@.wf(),
        ins.wf(),
        is_control(ins),
    ensures
        (final(cpu)@, r) == control_step(old(cpu)@, input@, ins),
        final(cpu)@.wf(),
{
    let pc = cpu.pc;
    let skip: u16 = (pc + 4) % 4096;
    let next_pc: u16 = (pc + 2) % 4096;
    match ins {
        Instruction::Ret => {
            if cpu.sp == 0 {
                return Err(ExecError::StackUnderflow);
            }
            cpu.sp = cpu.sp - 1;
            let ret = cpu.stack[cpu.sp as usize];
            cpu.pc = ((ret as u32 + 2) % 4096) as u16;
            Ok(Outcome::Executed)
        },
        Instruction::Jp { addr } => {
            cpu.pc = addr;
            Ok(Outcome::Executed)
        },
        Instruction::Call { addr } => {
            if cpu.sp >= 16 {
                return Err(ExecError::StackOverflow);
            }
            cpu.stack[cpu.sp as usize] = pc;
            cpu.sp = cpu.sp + 1;
            cpu.pc = addr;
            assert(cpu@.stack =~= old(cpu)@.stack.update(old(cpu).sp as int, pc));
            Ok(Outcome::Executed)
        },
        Instruction::SeByte { x, kk } => {
            cpu.pc = if cpu.v[x as usize] == kk { skip } else { next_pc };
            Ok(Outcome::Executed)
        },
        Instruction::SneByte { x, kk } => {
            cpu.pc = if cpu.v[x as usize] != kk { skip } else { next_pc };
            Ok(Outcome::Executed)
        },
        Instruction::SeReg { x, y } => {
            cpu.pc = if cpu.v[x as usize] == cpu.v[y as usize] { skip } else { next_pc };
            Ok(Outcome::Executed)
        },
        Instruction::SneReg { x, y } => {
            cpu.pc = if cpu.v[x as usize] != cpu.v[y as usize] { skip } else { next_pc };
            Ok(Outcome::Executed)
        },
        Instruction::JpV0 { addr } => {
            cpu.pc = (addr + cpu.v[0] as u16) % 4096;
            Ok(Outcome::Executed)
        },
        Instruction::Skp { x } => {
            cpu.pc = if input_key_seek(input, cpu.v[x as usize]) { skip } else { next_pc };
            Ok(Outcome::Executed)
        },
        Instruction::Sknp { x } => {
            cpu.pc = if !input_key_seek(input, cpu.v[x as usize]) { skip } else { next_pc };
            Ok(Outcome::Executed)
        },
        Instruction::LdKey { x } => {
            match pressed_key(input) {
                Some(key) => {
                    cpu.v[x as usize] = key;
                    cpu.pc = next_pc;
                    Ok(Outcome::Executed)
                },
                None => Ok(Outcome::WaitingForKey),
            }
        },
        Instruction::Unknown { opcode } => {
            cpu.pc = next_pc;
            Err(ExecError::UnknownOpcode { opcode })
        },
        _ => Ok(Outcome::Executed),
    }
}

fn exec_alu(cpu: &mut Cpu, ins: Instruction, random: u8)
    requires
        old(cpu)@.wf(),
        ins.wf(),
        is_alu(ins),
    ensures
        final(cpu)@ == alu_step(old(cpu)@, ins, random),
        final(cpu)@.wf(),
{
    match ins {
        Instruction::LdByte { x, kk } => {
            cpu.v[x as usize] = kk;
        },
        Instruction::AddByte { x, kk } => {
            cpu.v[x as usize] = ((cpu.v[x as usize] as u16 + kk as u16) % 256) as u8;
        },
        Instruction::LdReg { x, y } => {
            cpu.v[x as usize] = cpu.v[y as usize];
        },
        Instruction::Or { x, y } => {
            cpu.v[x as usize] = cpu.v[x as usize] | cpu.v[y as usize];
        },
        Instruction::And { x, y } => {
            cpu.v[x as usize] = cpu.v[x as usize] & cpu.v[y as usize];
        },
        Instruction::Xor { x, y } => {
            cpu.v[x as usize] = cpu.v[x as usize] ^ cpu.v[y as usize];
        },
        Instruction::AddReg { x, y } => {
            let sum: u16 = cpu.v[x as usize] as u16 + cpu.v[y as usize] as u16;
            cpu.v[x as usize] = (sum % 256) as u8;
            cpu.v[15] = if sum > 255 { 1 } else { 0 };
        },
        Instruction::Sub { x, y } => {
            let a = cpu.v[x as usize];
            let b = cpu.v[y as usize];
            cpu.v[x as usize] = ((a as u16 + 256 - b as u16) % 256) as u8;
            cpu.v[15] = if a > b { 1 } else { 0 };
        },
        Instruction::Subn { x, y } => {
            let a = cpu.v[x as usize];
            let b = cpu.v[y as usize];
            cpu.v[x as usize] = ((b as u16 + 256 - a as u16) % 256) as u8;
            cpu.v[15] = if b > a { 1 } else { 0 };
        },
        Instruction::Shr { x } => {
            let a = cpu.v[x as usize];
            cpu.v[x as usize] = a / 2;
            cpu.v[15] = a % 2;
        },
        Instruction::Shl { x } => {
            let a = cpu.v[x as usize];
            cpu.v[x as usize] = ((a as u16 * 2) % 256) as u8;
            cpu.v[15] = a / 128;
        },
        Instruction::Rnd { x, kk } => {
            cpu.v[x as usize] = random & kk;
        },
        _ => {},
    }
    cpu.pc = (cpu.pc + 2) % 4096;
    assert(cpu@ =~= alu_step(old(cpu)@, ins, random));
}

fn exec_index(cpu: &mut Cpu, ins: Instruction)
    requires
        old(cpu)@.wf(),
        ins.wf(),
        !is_control(ins),
        !is_alu(ins),
        !(ins is Cls),
        !(ins is Drw),
    ensures
        final(cpu)@ == index_step(old(cpu)@, ins),
        final(cpu)@.wf(),
{
    match ins {
        Instruction::LdI { addr } => {
            cpu.i = addr;
        },
        Instruction::LdVxDt { x } => {
            cpu.v[x as usize] = cpu.dt;
        },
        Instruction::LdDtVx { x } => {
            cpu.dt = cpu.v[x as usize];
        },
        Instruction::AddI { x } => {
            cpu.i = ((cpu.i as u32 + cpu.v[x as usize] as u32) % 65536) as u16;
        },
        Instruction::LdFont { x } => {
            cpu.i = cpu.v[x as usize] as u16 * 5;
        },
        Instruction::Bcd { x } => {
            let val = cpu.v[x as usize];
            let base = cpu.i as usize;
            cpu.memory[base % 4096] = val / 100;
            cpu.memory[(base + 1) % 4096] = (val / 10) % 10;
            cpu.memory[(base + 2) % 4096] = val % 10;
        },
        Instruction::StoreRegs { x } => {
            store_regs(cpu, x);
        },
        Instruction::LoadRegs { x } => {
            load_regs(cpu, x);
        },
        _ => {},
    }
    cpu.pc = (cpu.pc + 2) % 4096;
    assert(cpu@ =~= index_step(old(cpu)@, ins));
}

/// Executes one instruction; `random` is the byte Cxkk uses. On success and
/// on an unknown opcode the program counter moves on; on a stack error
/// nothing changes; while Fx0A waits for a key nothing changes either.
pub fn execute(
    cpu: &mut Cpu,
    frame_buffer: &mut FrameBuffer,
    input: &Keypad,
    instruction: [u8; 2],
    random: u8,
) -> (r: Result<Outcome, ExecError>)
    requires
        old(cpu)@.wf(),
    ensures
        (final(cpu)@, final(frame_buffer)@, r) == exec_spec(
            old(cpu)@,
            old(frame_buffer)@,
            input@,
            decode_spec(instruction),
            random,
        ),
        final(cpu)@.wf(),
{
    let ins = decode(instruction);
    match ins {
        Instruction::Cls => {
            frame_buffer.clear();
            cpu.pc = (cpu.pc + 2) % 4096;
            assert(frame_buffer@ =~= Seq::new(old(frame_buffer)@.len(), |k: int| false));
            Ok(Outcome::Executed)
        },
        Instruction::Drw { x, y, n } => {
            let px = cpu.v[x as usize];
            let py = cpu.v[y as usize];
            let hit = draw_sprite(frame_buffer, &cpu.memory, cpu.i, px, py, n);
            cpu.v[15] = if hit { 1 } else { 0 };
            cpu.pc = (cpu.pc + 2) % 4096;
            assert(cpu@ =~= exec_spec(old(cpu)@, old(frame_buffer)@, input@, ins, random).0);
            Ok(Outcome::Executed)
        },
        _ => {
            if is_control_ins(&ins) {
                exec_control(cpu, input, ins)
            } else if is_alu_ins(&ins) {
                exec_alu(cpu, ins, random);
                Ok(Outcome::Executed)
            } else {
                exec_index(cpu, ins);
                Ok(Outcome::Executed)
            }
        },
    }
}

fn is_control_ins(ins: &Instruction) -> (r: bool)
    ensures
        r == is_control(*ins),
{
    matches!(*ins, Instruction::Ret | Instruction::Jp { .. } | Instruction::Call { .. }
        | Instruction::SeByte { .. } | Instruction::SneByte { .. } | Instruction::SeReg { .. }
        | Instruction::SneReg { .. } | Instruction::JpV0 { .. } | Instruction::Skp { .. }
        | Instruction::Sknp { .. } | Instruction::LdKey { .. } | Instruction::Unknown { .. })
}

fn is_alu_ins(ins: &Instruction) -> (r: bool)
    ensures
        r == is_alu(*ins),
{
    matches!(*ins, Instruction::LdByte { .. } | Instruction::AddByte { .. }
        | Instruction::LdReg { .. } | Instruction::Or { .. } | Instruction::And { .. }
        | Instruction::Xor { .. } | Instruction::AddReg { .. } | Instruction::Sub { .. }
        | Instruction::Subn { .. } | Instruction::Shr { .. } | Instruction::Shl { .. }
        | Instruction::Rnd { .. })
}

/// The instruction at the program counter.
pub open spec fn fetched(m: Machine) -> Instruction {
    decode_bytes(m.memory[m.pc as int % 4096], m.memory[(m.pc + 1) % 4096])
}

/// One cycle: fetch the instruction at the program counter and execute it.
pub open spec fn cycle_spec(m: Machine, screen: Seq<bool>, keys: Seq<bool>, random: u8) -> (
    Machine,
    Seq<bool>,
    Result<Outcome, ExecError>,
) {
    exec_spec(m, screen, keys, fetched(m), random)
}

/// Runs one cycle with `random` as the byte Cxkk uses.
pub fn step(cpu: &mut Cpu, frame_buffer: &mut FrameBuffer, input: &Keypad, random: u8) -> (r: Result<Outcome, ExecError>)
    requires
        old(cpu)@.wf(),
    ensures
        (final(cpu)@, final(frame_buffer)@, r) == cycle_spec(old(cpu)@, old(frame_buffer)@, input@, random),
        final(cpu)@.wf(),
{
    let pc = cpu.pc as usize;
    let ins: [u8; 2] = [cpu.memory[pc % 4096], cpu.memory[(pc + 1) % 4096]];
    assert(decode_spec(ins) == fetched(old(cpu)@));
    execute(cpu, frame_buffer, input, ins, random)
}

/// Relies on `rand::random::<u8>`, which draws from the thread-local
/// generator: any byte may come back.
#[verifier::external_body]
fn random_byte() -> (r: u8) {
    rand::random::<u8>()
}

/// Runs one cycle, drawing the byte that Cxkk uses from the thread-local
/// random generator.
pub fn run(cpu: &mut Cpu, frame_buffer: &mut FrameBuffer, input: &Keypad) -> (r: Result<Outcome, ExecError>)
    requires
        old(cpu)@.wf(),
    ensures
        exists|random: u8|
            (final(cpu)@, final(frame_buffer)@, r) == #[trigger] cycle_spec(old(cpu)@, old(frame_buffer)@, input@, random),
        final(cpu)@.wf(),
{
    let random = random_byte();
    step(cpu, frame_buffer, input, random)
}

} // verus!
