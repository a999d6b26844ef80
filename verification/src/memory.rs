use vstd::prelude::*;

use crate::errors::LoadError;

verus! {

/// Size of the byte-addressable memory.
pub const MEM_SIZE: usize = 0x1000;

/// Address at which program images load; everything below is reserved.
pub const PROGRAM_START: usize = 0x200;

/// First byte of the fixed 16-glyph hexadecimal font table.
pub const FONT_BASE: usize = 0x50;

/// Highest value the program counter can ever take: a popped 16-bit return
/// address advanced by at most two instruction slots.
pub const PC_LIMIT: usize = 0xFFFF + 4;

/// The 80-byte font table: glyphs 0 through F in order, 5 bytes per glyph.
pub open spec fn font_seq() -> Seq<u8> {
    seq![
        0xF0u8, 0x90, 0x90, 0x90, 0xF0, // 0
        0x20, 0x60, 0x20, 0x20, 0x70, // 1
        0xF0, 0x10, 0xF0, 0x80, 0xF0, // 2
        0xF0, 0x10, 0xF0, 0x10, 0xF0, // 3
        0x90, 0x90, 0xF0, 0x10, 0x10, // 4
        0xF0, 0x80, 0xF0, 0x10, 0xF0, // 5
        0xF0, 0x80, 0xF0, 0x90, 0xF0, // 6
        0xF0, 0x10, 0x20, 0x40, 0x40, // 7
        0xF0, 0x90, 0xF0, 0x90, 0xF0, // 8
        0xF0, 0x90, 0xF0, 0x10, 0xF0, // 9
        0xF0, 0x90, 0xF0, 0x90, 0x90, // A
        0xE0, 0x90, 0xE0, 0x90, 0xE0, // B
        0xF0, 0x80, 0x80, 0x80, 0xF0, // C
        0xE0, 0x90, 0x90, 0x90, 0xE0, // D
        0xF0, 0x80, 0xF0, 0x80, 0xF0, // E
        0xF0, 0x80, 0xF0, 0x80, 0x80, // F
    ]
}

/// Memory contents right after construction: the font table at its base,
/// zero everywhere else.
pub open spec fn mem_init() -> Seq<u8> {
    Seq::new(MEM_SIZE as nat, |a: int| if FONT_BASE <= a < FONT_BASE + 80 {
        font_seq()[a - FONT_BASE]
    } else {
        0u8
    })
}

/// The big-endian 16-bit word formed by the bytes at `a` and `a + 1`.
pub open spec fn word_at(mem: Seq<u8>, a: int) -> u16 {
    ((mem[a] as u16) << 8u16) | (mem[a + 1] as u16)
}

/// The flat byte store together with the program counter that walks it.
pub struct Memory {
    pub mem: Vec<u8>,
    pub program_counter: usize,
}

impl Memory {
    pub open spec fn wf(&self) -> bool {
        &&& self.mem@.len() == MEM_SIZE
        &&& self.program_counter <= PC_LIMIT
    }

    /// Builds the memory: all zero, the font table installed once at
    /// construction, the program counter at the program start.
    pub fn new() -> (m: Memory)
        ensures
            m.wf(),
            m.mem@ == mem_init(),
            m.program_counter == PROGRAM_START,
    {
        let font = font_data();
        let mut mem: Vec<u8> = vec![0u8; MEM_SIZE];
        proof {
            assert(forall|a: int| 0 <= a < MEM_SIZE ==> mem@[a] == 0u8);
        }
        let mut k: usize = 0;
        while k < 80
            invariant
                k <= 80,
                font@ == font_seq(),
                mem@.len() == MEM_SIZE,
                forall|a: int| 0 <= a < MEM_SIZE && !(FONT_BASE <= a < FONT_BASE + k) ==> mem@[a] == 0u8,
                forall|a: int| FONT_BASE <= a < FONT_BASE + k ==> mem@[a] == font_seq()[a - FONT_BASE],
            decreases 80 - k,
        {
            mem[FONT_BASE + k] = font[k];
            k += 1;
        }
        proof {
            assert(mem@ =~= mem_init());
        }
        Memory { mem, program_counter: PROGRAM_START }
    }

    pub fn get_program_counter(&self) -> (r: usize)
        ensures
            r == self.program_counter,
    {
        self.program_counter
    }

    /// Copies a program image to the program start, leaving the rest of
    /// memory as it was. An image that would run past the end of the
    /// 4096-byte space is rejected whole, with nothing written.
    pub fn load_rom(&mut self, rom: &Vec<u8>) -> (r: Result<(), LoadError>)
        requires
            old(self).wf(),
        ensures
            final(self).wf(),
            final(self).program_counter == old(self).program_counter,
            rom@.len() <= MEM_SIZE - PROGRAM_START ==> r == Ok::<(), LoadError>(())
                && final(self).mem@ == Seq::new(MEM_SIZE as nat, |a: int|
                    if PROGRAM_START <= a < PROGRAM_START + rom@.len() {
                        rom@[a - PROGRAM_START]
                    } else {
                        old(self).mem@[a]
                    }),
            rom@.len() > MEM_SIZE - PROGRAM_START ==> r == Err::<(), LoadError>(
                LoadError { rom_len: rom@.len() as usize },
            ) && final(self).mem@ == old(self).mem@,
    {
        if rom.len() > MEM_SIZE - PROGRAM_START {
            return Err(LoadError { rom_len: rom.len() });
        }
        let ghost pre = self.mem@;
        let mut k: usize = 0;
        while k < rom.len()
            invariant
                k <= rom@.len(),
                rom@.len() <= MEM_SIZE - PROGRAM_START,
                self.mem@.len() == MEM_SIZE,
                self.program_counter == old(self).program_counter,
                forall|a: int| 0 <= a < MEM_SIZE && !(PROGRAM_START <= a < PROGRAM_START + k)
                    ==> self.mem@[a] == pre[a],
                forall|a: int| PROGRAM_START <= a < PROGRAM_START + k
                    ==> self.mem@[a] == rom@[a - PROGRAM_START],
            decreases rom@.len() - k,
        {
            self.mem[PROGRAM_START + k] = rom[k];
            k += 1;
        }
        proof {
            assert(self.mem@ =~= Seq::new(MEM_SIZE as nat, |a: int|
                if PROGRAM_START <= a < PROGRAM_START + rom@.len() {
                    rom@[a - PROGRAM_START]
                } else {
                    pre[a]
                }));
        }
        Ok(())
    }

    /// Fetches the big-endian opcode at the current program counter.
    pub fn fetch_opcode(&self) -> (r: u16)
        requires
            self.wf(),
            self.program_counter + 1 < MEM_SIZE,
        ensures
            r == word_at(self.mem@, self.program_counter as int),
    {
        let hi = (self.mem[self.program_counter] as u16) << 8u16;
        let lo = self.mem[self.program_counter + 1] as u16;
        hi | lo
    }

    /// Moves the program counter to the given address.
    pub fn jump(&mut self, addr: usize)
        requires
            old(self).wf(),
            addr <= 0xFFFF,
        ensures
            final(self).wf(),
            final(self).program_counter == addr,
            final(self).mem@ == old(self).mem@,
    {
        self.program_counter = addr;
    }

    /// Advances the program counter past one instruction slot.
    pub fn next_instruction(&mut self)
        requires
            old(self).wf(),
            old(self).program_counter + 2 <= PC_LIMIT,
        ensures
            final(self).wf(),
            final(self).program_counter == old(self).program_counter + 2,
            final(self).mem@ == old(self).mem@,
    {
        self.program_counter += 2;
    }

    pub fn set_mem(&mut self, addr: usize, value: u8)
        requires
            old(self).wf(),
            addr < MEM_SIZE,
        ensures
            final(self).wf(),
            final(self).mem@ == old(self).mem@.update(addr as int, value),
            final(self).program_counter == old(self).program_counter,
    {
        self.mem[addr] = value;
    }

    pub fn get_mem(&self, addr: usize) -> (r: u8)
        requires
            self.wf(),
            addr < MEM_SIZE,
        ensures
            r == self.mem@[addr as int],
    {
        self.mem[addr]
    }
}

/// The font table as an executable vector, in the order of `font_seq`.
fn font_data() -> (v: Vec<u8>)
    ensures
        v@ == font_seq(),
{
    let mut v: Vec<u8> = Vec::new();
    v.push(0xF0); v.push(0x90); v.push(0x90); v.push(0x90); v.push(0xF0);
    v.push(0x20); v.push(0x60); v.push(0x20); v.push(0x20); v.push(0x70);
    v.push(0xF0); v.push(0x10); v.push(0xF0); v.push(0x80); v.push(0xF0);
    v.push(0xF0); v.push(0x10); v.push(0xF0); v.push(0x10); v.push(0xF0);
    v.push(0x90); v.push(0x90); v.push(0xF0); v.push(0x10); v.push(0x10);
    v.push(0xF0); v.push(0x80); v.push(0xF0); v.push(0x10); v.push(0xF0);
    v.push(0xF0); v.push(0x80); v.push(0xF0); v.push(0x90); v.push(0xF0);
    v.push(0xF0); v.push(0x10); v.push(0x20); v.push(0x40); v.push(0x40);
    v.push(0xF0); v.push(0x90); v.push(0xF0); v.push(0x90); v.push(0xF0);
    v.push(0xF0); v.push(0x90); v.push(0xF0); v.push(0x10); v.push(0xF0);
    v.push(0xF0); v.push(0x90); v.push(0xF0); v.push(0x90); v.push(0x90);
    v.push(0xE0); v.push(0x90); v.push(0xE0); v.push(0x90); v.push(0xE0);
    v.push(0xF0); v.push(0x80); v.push(0x80); v.push(0x80); v.push(0xF0);
    v.push(0xE0); v.push(0x90); v.push(0x90); v.push(0x90); v.push(0xE0);
    v.push(0xF0); v.push(0x80); v.push(0xF0); v.push(0x80); v.push(0xF0);
    v.push(0xF0); v.push(0x80); v.push(0xF0); v.push(0x80); v.push(0x80);
    proof {
        assert(v@ =~= font_seq());
    }
    v
}

} // verus!
