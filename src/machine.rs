//! The machine state: memory, registers, stack and delay timer.

use vstd::prelude::*;

verus! {

/// Size of the address space in bytes.
pub const MEMORY_SIZE: usize = 4096;

/// Address at which programs are loaded and execution starts.
pub const PROGRAM_START: usize = 0x200;

/// Largest program that fits between `PROGRAM_START` and the end of memory.
pub const MAX_ROM_SIZE: usize = 3584;

/// Number of return addresses the stack holds.
pub const STACK_DEPTH: u8 = 16;

/// The built-in hexadecimal glyphs 0 to F, five rows each.
pub open spec fn font() -> Seq<u8> {
    seq![
        0xF0u8, 0x90, 0x90, 0x90, 0xF0,
        0x20, 0x60, 0x20, 0x20, 0x70,
        0xF0, 0x10, 0xF0, 0x80, 0xF0,
        0xF0, 0x10, 0xF0, 0x10, 0xF0,
        0x90, 0x90, 0xF0, 0x10, 0x10,
        0xF0, 0x80, 0xF0, 0x10, 0xF0,
        0xF0, 0x80, 0xF0, 0x90, 0xF0,
        0xF0, 0x10, 0x20, 0x40, 0x40,
        0xF0, 0x90, 0xF0, 0x90, 0xF0,
        0xF0, 0x90, 0xF0, 0x10, 0xF0,
        0xF0, 0x90, 0xF0, 0x90, 0x90,
        0xE0, 0x90, 0xE0, 0x90, 0xE0,
        0xF0, 0x80, 0x80, 0x80, 0xF0,
        0xE0, 0x90, 0x90, 0x90, 0xE0,
        0xF0, 0x80, 0xF0, 0x80, 0xF0,
        0xF0, 0x80, 0xF0, 0x80, 0x80,
    ]
}

fn font_glyphs() -> (r: [u8; 80])
    ensures
        r@ == font(),
{
    let r: [u8; 80] = [
        0xF0, 0x90, 0x90, 0x90, 0xF0,
        0x20, 0x60, 0x20, 0x20, 0x70,
        0xF0, 0x10, 0xF0, 0x80, 0xF0,
        0xF0, 0x10, 0xF0, 0x10, 0xF0,
        0x90, 0x90, 0xF0, 0x10, 0x10,
        0xF0, 0x80, 0xF0, 0x10, 0xF0,
        0xF0, 0x80, 0xF0, 0x90, 0xF0,
        0xF0, 0x10, 0x20, 0x40, 0x40,
        0xF0, 0x90, 0xF0, 0x90, 0xF0,
        0xF0, 0x90, 0xF0, 0x10, 0xF0,
        0xF0, 0x90, 0xF0, 0x90, 0x90,
        0xE0, 0x90, 0xE0, 0x90, 0xE0,
        0xF0, 0x80, 0x80, 0x80, 0xF0,
        0xE0, 0x90, 0x90, 0x90, 0xE0,
        0xF0, 0x80, 0xF0, 0x80, 0xF0,
        0xF0, 0x80, 0xF0, 0x80, 0x80,
    ];
    assert(r@ =~= font());
    r
}

/// The state of a CHIP-8 machine, as plain values.
#[verifier::ext_equal]
pub struct Machine {
    pub memory: Seq<u8>,
    pub v: Seq<u8>,
    pub i: u16,
    pub pc: u16,
    pub sp: u8,
    pub stack: Seq<u16>,
    pub dt: u8,
}

/// A CHIP-8 CPU: 4 KiB of memory, registers V0 to VF, the index register I,
/// the program counter, a sixteen-entry return stack and the delay timer.
pub struct Cpu {
    pub memory: [u8; 4096],
    pub v: [u8; 16],
    pub i: u16,
    pub pc: u16,
    pub sp: u8,
    pub stack: [u16; 16],
    pub dt: u8,
}

impl View for Cpu {
    type V = Machine;

    open spec fn view(&self) -> Machine {
        Machine {
            memory: self.memory@,
            v: self.v@,
            i: self.i,
            pc: self.pc,
            sp: self.sp,
            stack: self.stack@,
            dt: self.dt,
        }
    }
}

/// Why a program could not be loaded.
#[derive(Clone, Copy, Debug, PartialEq, Eq, Structural)]
pub enum LoadError {
    /// The image is longer than `MAX_ROM_SIZE` bytes.
    RomTooLarge,
}

/// Memory right after loading `rom`: the font at 0, the program at
/// `PROGRAM_START`, zero everywhere else.
pub open spec fn initial_memory(rom: Seq<u8>) -> Seq<u8> {
    Seq::new(
        4096,
        |a: int|
            if a < 80 {
                font()[a]
            } else if 0x200 <= a < 0x200 + rom.len() {
                rom[a - 0x200]
            } else {
                0u8
            },
    )
}

/// The machine right after loading `rom`.
pub open spec fn initial_machine(rom: Seq<u8>) -> Machine {
    Machine {
        memory: initial_memory(rom),
        v: Seq::new(16, |k: int| 0u8),
        i: 0,
        pc: 0x200,
        sp: 0,
        stack: Seq::new(16, |k: int| 0u16),
        dt: 0,
    }
}

impl Machine {
    /// The shape every reachable machine has.
    pub open spec fn wf(self) -> bool {
        &&& self.memory.len() == 4096
        &&& self.v.len() == 16
        &&& self.stack.len() == 16
        &&& self.sp <= 16
        &&& self.pc < 4096
    }
}

impl Cpu {
    /// Builds a machine with the font and `rom` in memory, everything else zero
    /// and the program counter at `PROGRAM_START`. A ROM longer than
    /// `MAX_ROM_SIZE` is refused whole.
    pub fn new(rom: &[u8]) -> (r: Result<Cpu, LoadError>)
        ensures
            rom@.len() > MAX_ROM_SIZE <==> r is Err,
            r matches Err(e) ==> e == LoadError::RomTooLarge,
            r matches Ok(c) ==> c@ == initial_machine(rom@) && c@.wf(),
    {
        if rom.len() > MAX_ROM_SIZE {
            return Err(LoadError::RomTooLarge);
        }
        let glyphs = font_glyphs();
        let mut memory = [0u8; 4096];
        let mut a: usize = 0;
        while a < 80
            invariant
                0 <= a <= 80,
                glyphs@ == font(),
                memory@.len() == 4096,
                forall|j: int| 0 <= j < a ==> memory@[j] == font()[j],
                forall|j: int| a <= j < 4096 ==> memory@[j] == 0,
            decreases 80 - a,
        {
            memory[a] = glyphs[a];
            a = a + 1;
        }
        let mut k: usize = 0;
        while k < rom.len()
            invariant
                0 <= k <= rom@.len() <= 3584,
                memory@.len() == 4096,
                forall|j: int| 0 <= j < 80 ==> memory@[j] == font()[j],
                forall|j: int| 80 <= j < 0x200 ==> memory@[j] == 0,
                forall|j: int| 0x200 <= j < 0x200 + k ==> memory@[j] == rom@[j - 0x200],
                forall|j: int| 0x200 + k <= j < 4096 ==> memory@[j] == 0,
            decreases rom@.len() - k,
        {
            memory[PROGRAM_START + k] = rom[k];
            k = k + 1;
        }
        let c = Cpu { memory, v: [0u8; 16], i: 0, pc: 0x200, sp: 0, stack: [0u16; 16], dt: 0 };
        assert(c@.memory =~= initial_memory(rom@));
        assert(c@.v =~= initial_machine(rom@).v);
        assert(c@.stack =~= initial_machine(rom@).stack);
        Ok(c)
    }

    /// One tick of the delay timer: down by one, stopping at zero.
    pub fn decrement_timer(&mut self)
        ensures
            final(self)@ == (Machine { dt: if old(self).dt > 0 { (old(self).dt - 1) as u8 } else { 0 }, ..old(self)@ }),
    {
        if self.dt > 0 {
            self.dt = self.dt - 1;
        }
    }
}

} // verus!
