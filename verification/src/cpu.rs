use vstd::prelude::*;

use rand::Rng;

use crate::errors::{DecodeError, ExecStatus, Fault, LoadError, StackError};
use crate::framebuffer::Framebuffer;
use crate::framebuffer::cleared_pixels;
use crate::instructions::{decoded, Instruction};
use crate::keypad::{first_pressed, Keypad};
use crate::memory::{mem_init, word_at, Memory, MEM_SIZE, PROGRAM_START};
use crate::stack::Stack;
use vstd::arithmetic::div_mod::{
    lemma_add_mod_noop, lemma_mod_bound, lemma_small_mod, lemma_sub_mod_noop,
    lemma_sub_mod_noop_right,
};

verus! {

/// The machine core: byte memory with its program counter, the return
/// stack, the sixteen 8-bit registers, the index register, and the two
/// countdown timers. The framebuffer and keypad are external collaborators
/// handed into each execution step.
pub struct Chip8 {
    pub memory: Memory,
    pub stack: Stack,
    pub registers: Vec<u8>,
    pub delay_timer: u8,
    pub sound_timer: u8,
    pub i: u16,
}

impl Chip8 {
    pub open spec fn wf(&self) -> bool {
        &&& self.memory.wf()
        &&& self.stack.wf()
        &&& self.registers@.len() == 16
    }

    /// The program counter as a mathematical integer.
    pub open spec fn pc(&self) -> int {
        self.memory.program_counter as int
    }

    /// The return stack contents, bottom first.
    pub open spec fn stk(&self) -> Seq<u16> {
        self.stack.entries@
    }
}

/// Set if `col` counts from the most significant bit of a sprite row byte.
pub open spec fn sprite_bit(b: u8, col: int) -> bool {
    b & (0x80u8 >> col) != 0
}

/// Whether the sprite blit touches the pixel at column `x`, row `y`: some
/// sprite row and bit, after wraparound, lands there with its bit set.
/// Rows and columns wrap, so the touching row index is `(y - vy) mod 32`
/// and the touching bit index is `(x - vx) mod 64`.
pub open spec fn draw_hit(mem: Seq<u8>, i: int, h: int, vx: u8, vy: u8, x: int, y: int) -> bool {
    let row = (y - vy) % 32;
    let col = (x - vx) % 64;
    row < h && col < 8 && sprite_bit(mem[i + row], col)
}

/// `draw_hit` restricted to the part of the sprite already blitted: all
/// rows before `rows_done`, plus the first `cols_done` bits of row
/// `rows_done`.
pub open spec fn draw_hit_upto(
    mem: Seq<u8>, i: int, h: int, vx: u8, vy: u8, x: int, y: int,
    rows_done: int, cols_done: int,
) -> bool {
    let row = (y - vy) % 32;
    let col = (x - vx) % 64;
    &&& row < h
    &&& col < 8
    &&& (row < rows_done || (row == rows_done && col < cols_done))
    &&& sprite_bit(mem[i + row], col)
}

/// `draw_hit` over a flat row-major pixel index.
pub open spec fn draw_hit_at(mem: Seq<u8>, i: int, h: int, vx: u8, vy: u8, p: int) -> bool {
    draw_hit(mem, i, h, vx, vy, p % 64, p / 64)
}

/// `draw_hit_upto` over a flat row-major pixel index.
pub open spec fn draw_hit_upto_at(
    mem: Seq<u8>, i: int, h: int, vx: u8, vy: u8, p: int, rows_done: int, cols_done: int,
) -> bool {
    draw_hit_upto(mem, i, h, vx, vy, p % 64, p / 64, rows_done, cols_done)
}

/// The pixel grid after an XOR blit: every touched pixel toggles, every
/// other pixel keeps its state.
pub open spec fn draw_pixels(fb: Seq<bool>, mem: Seq<u8>, i: int, h: int, vx: u8, vy: u8) -> Seq<bool> {
    Seq::new(2048, |p: int| fb[p] != draw_hit_at(mem, i, h, vx, vy, p))
}

/// Whether the blit collides: some touched pixel is already on.
pub open spec fn draw_collides(fb: Seq<bool>, mem: Seq<u8>, i: int, h: int, vx: u8, vy: u8) -> bool {
    exists|x: int, y: int|
        0 <= x < 64 && 0 <= y < 32 && #[trigger] draw_hit(mem, i, h, vx, vy, x, y)
            && fb[y * 64 + x]
}

/// Registers after `Vx += Vy`: VF is 1 exactly when the add carried, and
/// Vx holds the 8-bit wrapped sum. The flag is written first, so an add
/// aimed at VF itself leaves the sum there.
pub open spec fn alu_add(regs: Seq<u8>, x: int, y: int) -> Seq<u8> {
    let flag: u8 = if regs[x] + regs[y] > 255 { 1u8 } else { 0u8 };
    regs.update(15, flag).update(x, regs[x].wrapping_add(regs[y]))
}

/// Registers after `Vx -= Vy`: VF is 0 exactly when the subtraction
/// borrowed, else 1.
pub open spec fn alu_sub(regs: Seq<u8>, x: int, y: int) -> Seq<u8> {
    let flag: u8 = if regs[x] >= regs[y] { 1u8 } else { 0u8 };
    regs.update(15, flag).update(x, regs[x].wrapping_sub(regs[y]))
}

/// Registers after `Vx = Vy - Vx`: the same borrow rule with the operands
/// mirrored.
pub open spec fn alu_subn(regs: Seq<u8>, x: int, y: int) -> Seq<u8> {
    let flag: u8 = if regs[y] >= regs[x] { 1u8 } else { 0u8 };
    regs.update(15, flag).update(x, regs[y].wrapping_sub(regs[x]))
}

/// Registers after a right shift: VF takes the shifted-out low bit first,
/// then Vx (which is VF itself when x is 15) shifts right by one.
pub open spec fn alu_shr(regs: Seq<u8>, x: int) -> Seq<u8> {
    let flagged = regs.update(15, regs[x] & 1);
    flagged.update(x, flagged[x] >> 1u8)
}

/// Registers after a left shift: VF takes the shifted-out high bit first,
/// then Vx (which is VF itself when x is 15) shifts left by one.
pub open spec fn alu_shl(regs: Seq<u8>, x: int) -> Seq<u8> {
    let flagged = regs.update(15, (regs[x] & 0x80) >> 7u8);
    flagged.update(x, flagged[x] << 1u8)
}

/// Memory after the BCD store: the hundreds digit of `vx` at `i`, the tens
/// digit at `i + 1`, the ones digit at `i + 2`.
pub open spec fn bcd_mem(mem: Seq<u8>, i: int, vx: u8) -> Seq<u8> {
    mem.update(i, vx / 100).update(i + 1, (vx / 10) % 10).update(i + 2, vx % 10)
}

/// Memory after the register dump: `regs[0..=x]` copied to `i..=i+x`,
/// everything else untouched.
pub open spec fn mem_after_dump(mem: Seq<u8>, regs: Seq<u8>, i: int, x: int) -> Seq<u8> {
    Seq::new(mem.len(), |a: int| if i <= a <= i + x { regs[a - i] } else { mem[a] })
}

/// Registers after the register load: `V0..=Vx` taken from memory at
/// `i..=i+x`, the higher registers untouched.
pub open spec fn regs_after_load(regs: Seq<u8>, mem: Seq<u8>, i: int, x: int) -> Seq<u8> {
    Seq::new(regs.len(), |k: int| if k <= x { mem[i + k] } else { regs[k] })
}

/// The program counter after a conditional skip: past the next instruction
/// as well when the condition holds.
pub open spec fn skip_target(pc: int, cond: bool) -> int {
    if cond { pc + 4 } else { pc + 2 }
}

/// Everything except the registers and the program counter is unchanged.
pub open spec fn frame_rest(p: Chip8, q: Chip8) -> bool {
    &&& q.memory.mem@ == p.memory.mem@
    &&& q.stack.entries@ == p.stack.entries@
    &&& q.i == p.i
    &&& q.delay_timer == p.delay_timer
    &&& q.sound_timer == p.sound_timer
}

/// Everything except the stack and the program counter is unchanged.
pub open spec fn frame_flow(p: Chip8, q: Chip8) -> bool {
    &&& q.memory.mem@ == p.memory.mem@
    &&& q.registers@ == p.registers@
    &&& q.i == p.i
    &&& q.delay_timer == p.delay_timer
    &&& q.sound_timer == p.sound_timer
}

/// Everything except memory contents and the program counter is unchanged.
pub open spec fn frame_mem(p: Chip8, q: Chip8) -> bool {
    &&& q.registers@ == p.registers@
    &&& q.stack.entries@ == p.stack.entries@
    &&& q.i == p.i
    &&& q.delay_timer == p.delay_timer
    &&& q.sound_timer == p.sound_timer
}

/// Everything except the index register and the program counter is
/// unchanged.
pub open spec fn frame_index(p: Chip8, q: Chip8) -> bool {
    &&& q.memory.mem@ == p.memory.mem@
    &&& q.registers@ == p.registers@
    &&& q.stack.entries@ == p.stack.entries@
    &&& q.delay_timer == p.delay_timer
    &&& q.sound_timer == p.sound_timer
}

/// Everything except the two timers and the program counter is unchanged.
pub open spec fn frame_timer(p: Chip8, q: Chip8) -> bool {
    &&& q.memory.mem@ == p.memory.mem@
    &&& q.registers@ == p.registers@
    &&& q.stack.entries@ == p.stack.entries@
    &&& q.i == p.i
}

/// The whole core state, program counter included, is unchanged.
pub open spec fn unchanged_core(p: Chip8, q: Chip8) -> bool {
    &&& frame_rest(p, q)
    &&& q.registers@ == p.registers@
    &&& q.pc() == p.pc()
}

/// The transition relation of one execution step: how executing `instr`
/// takes the core from `p` to `q`, the pixel grid from `fb0` to `fb1`,
/// and what it returns, given the keypad snapshot `keys`. This is the
/// contract of `Chip8::execute_instruction`, one arm per instruction.
pub open spec fn step_spec(
    p: Chip8,
    fb0: Seq<bool>,
    keys: Seq<bool>,
    instr: Instruction,
    q: Chip8,
    fb1: Seq<bool>,
    r: Result<ExecStatus, Fault>,
) -> bool {
    match instr {
        Instruction::DisplayClear => {
            &&& r == Ok::<ExecStatus, Fault>(ExecStatus::Ready)
            &&& frame_rest(p, q)
            &&& q.registers@ == p.registers@
            &&& q.pc() == p.pc() + 2
            &&& fb1 == cleared_pixels()
        },
        Instruction::FlowReturn => {
            &&& fb1 == fb0
            &&& if p.stk().len() == 0 {
                r == Err::<ExecStatus, Fault>(Fault::Stack(StackError::Underflow))
                    && unchanged_core(p, q)
            } else {
                &&& r == Ok::<ExecStatus, Fault>(ExecStatus::Ready)
                &&& frame_flow(p, q)
                &&& q.stk() == p.stk().drop_last()
                &&& q.pc() == p.stk().last() as int
            }
        },
        Instruction::FlowJump(addr) => {
            &&& fb1 == fb0
            &&& r == Ok::<ExecStatus, Fault>(ExecStatus::Ready)
            &&& frame_rest(p, q)
            &&& q.registers@ == p.registers@
            &&& q.pc() == addr
        },
        Instruction::FlowCall(addr) => {
            &&& fb1 == fb0
            &&& if p.stk().len() >= 16 {
                r == Err::<ExecStatus, Fault>(Fault::Stack(StackError::Overflow))
                    && unchanged_core(p, q)
            } else {
                &&& r == Ok::<ExecStatus, Fault>(ExecStatus::Ready)
                &&& frame_flow(p, q)
                &&& q.stk() == p.stk().push(p.memory.program_counter as u16)
                &&& q.pc() == addr
            }
        },
        Instruction::CondVxNNEq(x, nn) => {
            &&& fb1 == fb0
            &&& r == Ok::<ExecStatus, Fault>(ExecStatus::Ready)
            &&& frame_rest(p, q)
            &&& q.registers@ == p.registers@
            &&& q.pc() == skip_target(p.pc(), p.registers@[x as int] == nn)
        },
        Instruction::CondVxNNNeq(x, nn) => {
            &&& fb1 == fb0
            &&& r == Ok::<ExecStatus, Fault>(ExecStatus::Ready)
            &&& frame_rest(p, q)
            &&& q.registers@ == p.registers@
            &&& q.pc() == skip_target(p.pc(), p.registers@[x as int] != nn)
        },
        Instruction::CondVxVyEq(x, y) => {
            &&& fb1 == fb0
            &&& r == Ok::<ExecStatus, Fault>(ExecStatus::Ready)
            &&& frame_rest(p, q)
            &&& q.registers@ == p.registers@
            &&& q.pc() == skip_target(p.pc(), p.registers@[x as int] == p.registers@[y as int])
        },
        Instruction::ConstVxNN(x, nn) => {
            &&& fb1 == fb0
            &&& r == Ok::<ExecStatus, Fault>(ExecStatus::Ready)
            &&& frame_rest(p, q)
            &&& q.registers@ == p.registers@.update(x as int, nn)
            &&& q.pc() == p.pc() + 2
        },
        Instruction::ConstVxAddNN(x, nn) => {
            &&& fb1 == fb0
            &&& r == Ok::<ExecStatus, Fault>(ExecStatus::Ready)
            &&& frame_rest(p, q)
            &&& q.registers@ == p.registers@.update(
                x as int,
                p.registers@[x as int].wrapping_add(nn),
            )
            &&& q.pc() == p.pc() + 2
        },
        Instruction::AssignVxVy(x, y) => {
            &&& fb1 == fb0
            &&& r == Ok::<ExecStatus, Fault>(ExecStatus::Ready)
            &&& frame_rest(p, q)
            &&& q.registers@ == p.registers@.update(x as int, p.registers@[y as int])
            &&& q.pc() == p.pc() + 2
        },
        Instruction::BitOpOR(x, y) => {
            &&& fb1 == fb0
            &&& r == Ok::<ExecStatus, Fault>(ExecStatus::Ready)
            &&& frame_rest(p, q)
            &&& q.registers@ == p.registers@.update(
                x as int,
                p.registers@[x as int] | p.registers@[y as int],
            )
            &&& q.pc() == p.pc() + 2
        },
        Instruction::BitOpAND(x, y) => {
            &&& fb1 == fb0
            &&& r == Ok::<ExecStatus, Fault>(ExecStatus::Ready)
            &&& frame_rest(p, q)
            &&& q.registers@ == p.registers@.update(
                x as int,
                p.registers@[x as int] & p.registers@[y as int],
            )
            &&& q.pc() == p.pc() + 2
        },
        Instruction::BitOpXOR(x, y) => {
            &&& fb1 == fb0
            &&& r == Ok::<ExecStatus, Fault>(ExecStatus::Ready)
            &&& frame_rest(p, q)
            &&& q.registers@ == p.registers@.update(
                x as int,
                p.registers@[x as int] ^ p.registers@[y as int],
            )
            &&& q.pc() == p.pc() + 2
        },
        Instruction::MathVxVyAdd(x, y) => {
            &&& fb1 == fb0
            &&& r == Ok::<ExecStatus, Fault>(ExecStatus::Ready)
            &&& frame_rest(p, q)
            &&& q.registers@ == alu_add(p.registers@, x as int, y as int)
            &&& q.pc() == p.pc() + 2
        },
        Instruction::MathVxVySub(x, y) => {
            &&& fb1 == fb0
            &&& r == Ok::<ExecStatus, Fault>(ExecStatus::Ready)
            &&& frame_rest(p, q)
            &&& q.registers@ == alu_sub(p.registers@, x as int, y as int)
            &&& q.pc() == p.pc() + 2
        },
        Instruction::BitOpShiftRight(x, _y) => {
            &&& fb1 == fb0
            &&& r == Ok::<ExecStatus, Fault>(ExecStatus::Ready)
            &&& frame_rest(p, q)
            &&& q.registers@ == alu_shr(p.registers@, x as int)
            &&& q.pc() == p.pc() + 2
        },
        Instruction::MathVyVxSub(x, y) => {
            &&& fb1 == fb0
            &&& r == Ok::<ExecStatus, Fault>(ExecStatus::Ready)
            &&& frame_rest(p, q)
            &&& q.registers@ == alu_subn(p.registers@, x as int, y as int)
            &&& q.pc() == p.pc() + 2
        },
        Instruction::BitOpShiftLeft(x, _y) => {
            &&& fb1 == fb0
            &&& r == Ok::<ExecStatus, Fault>(ExecStatus::Ready)
            &&& frame_rest(p, q)
            &&& q.registers@ == alu_shl(p.registers@, x as int)
            &&& q.pc() == p.pc() + 2
        },
        Instruction::CondVxVyNeq(x, y) => {
            &&& fb1 == fb0
            &&& r == Ok::<ExecStatus, Fault>(ExecStatus::Ready)
            &&& frame_rest(p, q)
            &&& q.registers@ == p.registers@
            &&& q.pc() == skip_target(p.pc(), p.registers@[x as int] != p.registers@[y as int])
        },
        Instruction::MemSetIAddress(addr) => {
            &&& fb1 == fb0
            &&& r == Ok::<ExecStatus, Fault>(ExecStatus::Ready)
            &&& frame_index(p, q)
            &&& q.i == addr
            &&& q.pc() == p.pc() + 2
        },
        Instruction::FlowJumpOffsetV0(addr) => {
            &&& fb1 == fb0
            &&& r == Ok::<ExecStatus, Fault>(ExecStatus::Ready)
            &&& frame_rest(p, q)
            &&& q.registers@ == p.registers@
            &&& q.pc() == addr + p.registers@[0]
        },
        Instruction::RandomANDVxNN(x, nn) => {
            &&& fb1 == fb0
            &&& r == Ok::<ExecStatus, Fault>(ExecStatus::Ready)
            &&& frame_rest(p, q)
            &&& (exists|b: u8| q.registers@ == p.registers@.update(x as int, #[trigger] (b & nn)))
            &&& q.pc() == p.pc() + 2
        },
        Instruction::DrawSprite(x, y, h) => {
            let i = p.i as int;
            let vx = p.registers@[x as int];
            let vy = p.registers@[y as int];
            &&& if h > 0 && i + h > MEM_SIZE {
                &&& fb1 == fb0
                &&& r == Err::<ExecStatus, Fault>(Fault::Bounds((i + h - 1) as usize))
                &&& unchanged_core(p, q)
            } else {
                &&& r == Ok::<ExecStatus, Fault>(ExecStatus::Ready)
                &&& frame_rest(p, q)
                &&& q.registers@ == p.registers@.update(
                    15,
                    if draw_collides(fb0, p.memory.mem@, i, h as int, vx, vy) { 1u8 } else { 0u8 },
                )
                &&& q.pc() == p.pc() + 2
                &&& fb1 == draw_pixels(fb0, p.memory.mem@, i, h as int, vx, vy)
            }
        },
        Instruction::KeyOpKeyPressed(x) => {
            &&& fb1 == fb0
            &&& r == Ok::<ExecStatus, Fault>(ExecStatus::Ready)
            &&& frame_rest(p, q)
            &&& q.registers@ == p.registers@
            &&& q.pc() == skip_target(p.pc(), keys[(p.registers@[x as int] & 0xF) as int])
        },
        Instruction::KeyOpKeyNotPressed(x) => {
            &&& fb1 == fb0
            &&& r == Ok::<ExecStatus, Fault>(ExecStatus::Ready)
            &&& frame_rest(p, q)
            &&& q.registers@ == p.registers@
            &&& q.pc() == skip_target(p.pc(), !keys[(p.registers@[x as int] & 0xF) as int])
        },
        Instruction::DelayTimerSaveVx(x) => {
            &&& fb1 == fb0
            &&& r == Ok::<ExecStatus, Fault>(ExecStatus::Ready)
            &&& frame_rest(p, q)
            &&& q.registers@ == p.registers@.update(x as int, p.delay_timer)
            &&& q.pc() == p.pc() + 2
        },
        Instruction::KeyOpGetKey(x) => {
            &&& fb1 == fb0
            &&& if first_pressed(keys) < 16 {
                &&& r == Ok::<ExecStatus, Fault>(ExecStatus::Ready)
                &&& frame_rest(p, q)
                &&& q.registers@ == p.registers@.update(x as int, first_pressed(keys) as u8)
                &&& q.pc() == p.pc() + 2
            } else {
                &&& r == Ok::<ExecStatus, Fault>(ExecStatus::AwaitingKey)
                &&& unchanged_core(p, q)
            }
        },
        Instruction::DelayTimerSetVx(x) => {
            &&& fb1 == fb0
            &&& r == Ok::<ExecStatus, Fault>(ExecStatus::Ready)
            &&& frame_timer(p, q)
            &&& q.delay_timer == p.registers@[x as int]
            &&& q.sound_timer == p.sound_timer
            &&& q.pc() == p.pc() + 2
        },
        Instruction::SoundTimerSetVx(x) => {
            &&& fb1 == fb0
            &&& r == Ok::<ExecStatus, Fault>(ExecStatus::Ready)
            &&& frame_timer(p, q)
            &&& q.sound_timer == p.registers@[x as int]
            &&& q.delay_timer == p.delay_timer
            &&& q.pc() == p.pc() + 2
        },
        Instruction::MemAddIVx(x) => {
            &&& fb1 == fb0
            &&& r == Ok::<ExecStatus, Fault>(ExecStatus::Ready)
            &&& frame_index(p, q)
            &&& q.i == p.i.wrapping_add(p.registers@[x as int] as u16)
            &&& q.pc() == p.pc() + 2
        },
        Instruction::MemSetISprite(x) => {
            &&& fb1 == fb0
            &&& r == Ok::<ExecStatus, Fault>(ExecStatus::Ready)
            &&& frame_index(p, q)
            &&& q.i == 0x50 + 5 * (p.registers@[x as int] as int)
            &&& q.pc() == p.pc() + 2
        },
        Instruction::BCDSave(x) => {
            let i = p.i as int;
            &&& fb1 == fb0
            &&& if i + 2 < MEM_SIZE {
                &&& r == Ok::<ExecStatus, Fault>(ExecStatus::Ready)
                &&& frame_mem(p, q)
                &&& q.memory.mem@ == bcd_mem(p.memory.mem@, i, p.registers@[x as int])
                &&& q.pc() == p.pc() + 2
            } else {
                &&& r == Err::<ExecStatus, Fault>(Fault::Bounds((i + 2) as usize))
                &&& unchanged_core(p, q)
            }
        },
        Instruction::MemRegisterDump(x) => {
            let i = p.i as int;
            &&& fb1 == fb0
            &&& if i + x < MEM_SIZE {
                &&& r == Ok::<ExecStatus, Fault>(ExecStatus::Ready)
                &&& frame_mem(p, q)
                &&& q.memory.mem@ == mem_after_dump(p.memory.mem@, p.registers@, i, x as int)
                &&& q.pc() == p.pc() + 2
            } else {
                &&& r == Err::<ExecStatus, Fault>(Fault::Bounds((i + x) as usize))
                &&& unchanged_core(p, q)
            }
        },
        Instruction::MemRegisterLoad(x) => {
            let i = p.i as int;
            &&& fb1 == fb0
            &&& if i + x < MEM_SIZE {
                &&& r == Ok::<ExecStatus, Fault>(ExecStatus::Ready)
                &&& frame_rest(p, q)
                &&& q.registers@ == regs_after_load(p.registers@, p.memory.mem@, i, x as int)
                &&& q.pc() == p.pc() + 2
            } else {
                &&& r == Err::<ExecStatus, Fault>(Fault::Bounds((i + x) as usize))
                &&& unchanged_core(p, q)
            }
        },
    }
}

/// Relies on rand::Rng::gen for u8 on the thread-local generator: yields
/// some byte; nothing is assumed about its value.
#[verifier::external_body]
fn random_byte() -> u8 {
    rand::thread_rng().gen::<u8>()
}

impl Chip8 {
    /// A fresh machine: zeroed registers, timers and index register, the
    /// program counter at the program start, the font installed, the
    /// stack empty.
    pub fn new() -> (c: Chip8)
        ensures
            c.wf(),
            c.memory.mem@ == mem_init(),
            c.pc() == PROGRAM_START,
            c.registers@ == Seq::new(16, |k: int| 0u8),
            c.stk() == Seq::<u16>::empty(),
            c.i == 0,
            c.delay_timer == 0,
            c.sound_timer == 0,
    {
        let registers: Vec<u8> = vec![0u8; 16];
        proof {
            assert(registers@ =~= Seq::new(16, |k: int| 0u8));
        }
        Chip8 {
            memory: Memory::new(),
            stack: Stack::new(),
            registers,
            delay_timer: 0,
            sound_timer: 0,
            i: 0,
        }
    }

    /// Loads a program image at the program start; rejects one that would
    /// run past the end of memory, leaving everything unchanged.
    pub fn load_rom(&mut self, rom: &Vec<u8>) -> (r: Result<(), LoadError>)
        requires
            old(self).wf(),
        ensures
            final(self).wf(),
            frame_mem(*old(self), *final(self)),
            final(self).pc() == old(self).pc(),
            rom@.len() <= MEM_SIZE - PROGRAM_START ==> r == Ok::<(), LoadError>(())
                && final(self).memory.mem@ == Seq::new(MEM_SIZE as nat, |a: int|
                    if PROGRAM_START <= a < PROGRAM_START + rom@.len() {
                        rom@[a - PROGRAM_START]
                    } else {
                        old(self).memory.mem@[a]
                    }),
            rom@.len() > MEM_SIZE - PROGRAM_START ==> r == Err::<(), LoadError>(
                LoadError { rom_len: rom@.len() as usize },
            ) && final(self).memory.mem@ == old(self).memory.mem@,
    {
        self.memory.load_rom(rom)
    }

    /// One timer tick, decoupled from instruction execution: each timer
    /// drops by one while above zero and never goes below it.
    pub fn update_timers(&mut self)
        requires
            old(self).wf(),
        ensures
            final(self).wf(),
            frame_timer(*old(self), *final(self)),
            final(self).pc() == old(self).pc(),
            final(self).delay_timer == (if old(self).delay_timer > 0 {
                (old(self).delay_timer - 1) as u8
            } else {
                0u8
            }),
            final(self).sound_timer == (if old(self).sound_timer > 0 {
                (old(self).sound_timer - 1) as u8
            } else {
                0u8
            }),
    {
        if self.delay_timer > 0 {
            self.delay_timer -= 1;
        }
        if self.sound_timer > 0 {
            self.sound_timer -= 1;
        }
    }

    /// One full cycle: fetch the opcode at the program counter, decode it,
    /// execute it. A program counter that cannot address a full opcode,
    /// or a word that decodes to nothing, surfaces as a fault with the
    /// whole state untouched.
    pub fn emulate_cycle(&mut self, fb: &mut Framebuffer, keys: &Keypad) -> (r: Result<
        ExecStatus,
        Fault,
    >)
        requires
            old(self).wf(),
            old(fb).wf(),
            keys.wf(),
        ensures
            final(self).wf(),
            final(fb).wf(),
            ({
                let p = *old(self);
                let q = *final(self);
                if p.pc() + 1 >= MEM_SIZE {
                    r == Err::<ExecStatus, Fault>(Fault::Bounds(p.memory.program_counter))
                        && unchanged_core(p, q) && final(fb)@ == old(fb)@
                } else {
                    let op = word_at(p.memory.mem@, p.pc());
                    match decoded(op) {
                        Option::None => r == Err::<ExecStatus, Fault>(Fault::Decode(
                            DecodeError { code: op },
                        )) && unchanged_core(p, q) && final(fb)@ == old(fb)@,
                        Option::Some(instr) => step_spec(p, old(fb)@, keys@, instr, q, final(fb)@, r),
                    }
                }
            }),
    {
        let pc_now = self.memory.get_program_counter();
        if pc_now + 1 >= MEM_SIZE {
            return Err(Fault::Bounds(pc_now));
        }
        let opcode = self.memory.fetch_opcode();
        match Instruction::try_from(opcode) {
            Ok(instr) => self.execute_instruction(instr, fb, keys),
            Err(e) => Err(Fault::Decode(e)),
        }
    }

    /// Executes one decoded instruction against the core state, the
    /// framebuffer and the keypad snapshot. The full effect, instruction
    /// by instruction, is `step_spec`; the default outcome advances the
    /// program counter by two, control transfers set it directly, and a
    /// key-wait with no key down reports `AwaitingKey` without advancing.
    /// The program counter is asked to fit the 16-bit address space,
    /// which every address the machine can produce does.
    pub fn execute_instruction(&mut self, instr: Instruction, fb: &mut Framebuffer, keys: &Keypad)
        -> (r: Result<ExecStatus, Fault>)
        requires
            old(self).wf(),
            instr.wf(),
            old(fb).wf(),
            keys.wf(),
            old(self).memory.program_counter <= 0xFFFF,
        ensures
            final(self).wf(),
            final(fb).wf(),
            step_spec(*old(self), old(fb)@, keys@, instr, *final(self), final(fb)@, r),
    {
        match instr {
            Instruction::DisplayClear => {
                fb.clear();
                self.memory.next_instruction();
                Ok(ExecStatus::Ready)
            }
            Instruction::FlowReturn => {
                match self.stack.pop() {
                    Ok(addr) => {
                        self.memory.jump(addr as usize);
                        Ok(ExecStatus::Ready)
                    }
                    Err(e) => Err(Fault::Stack(e)),
                }
            }
            Instruction::FlowJump(addr) => {
                self.memory.jump(addr);
                Ok(ExecStatus::Ready)
            }
            Instruction::FlowCall(addr) => {
                let pc_now = self.memory.get_program_counter();
                match self.stack.push(pc_now as u16) {
                    Ok(_) => {
                        self.memory.jump(addr as usize);
                        Ok(ExecStatus::Ready)
                    }
                    Err(e) => Err(Fault::Stack(e)),
                }
            }
            Instruction::CondVxNNEq(x, nn) => {
                if self.registers[x] == nn {
                    self.memory.next_instruction();
                }
                self.memory.next_instruction();
                Ok(ExecStatus::Ready)
            }
            Instruction::CondVxNNNeq(x, nn) => {
                if self.registers[x] != nn {
                    self.memory.next_instruction();
                }
                self.memory.next_instruction();
                Ok(ExecStatus::Ready)
            }
            Instruction::CondVxVyEq(x, y) => {
                if self.registers[x] == self.registers[y] {
                    self.memory.next_instruction();
                }
                self.memory.next_instruction();
                Ok(ExecStatus::Ready)
            }
            Instruction::ConstVxNN(x, nn) => {
                self.registers[x] = nn;
                self.memory.next_instruction();
                Ok(ExecStatus::Ready)
            }
            Instruction::ConstVxAddNN(x, nn) => {
                let v = self.registers[x].wrapping_add(nn);
                self.registers[x] = v;
                self.memory.next_instruction();
                Ok(ExecStatus::Ready)
            }
            Instruction::AssignVxVy(x, y) => {
                let v = self.registers[y];
                self.registers[x] = v;
                self.memory.next_instruction();
                Ok(ExecStatus::Ready)
            }
            Instruction::BitOpOR(x, y) => {
                let v = self.registers[x] | self.registers[y];
                self.registers[x] = v;
                self.memory.next_instruction();
                Ok(ExecStatus::Ready)
            }
            Instruction::BitOpAND(x, y) => {
                let v = self.registers[x] & self.registers[y];
                self.registers[x] = v;
                self.memory.next_instruction();
                Ok(ExecStatus::Ready)
            }
            Instruction::BitOpXOR(x, y) => {
                let v = self.registers[x] ^ self.registers[y];
                self.registers[x] = v;
                self.memory.next_instruction();
                Ok(ExecStatus::Ready)
            }
            Instruction::MathVxVyAdd(x, y) => {
                let a = self.registers[x];
                let b = self.registers[y];
                let flag: u8 = if a as u16 + b as u16 > 255 { 1 } else { 0 };
                self.registers[15] = flag;
                self.registers[x] = a.wrapping_add(b);
                self.memory.next_instruction();
                Ok(ExecStatus::Ready)
            }
            Instruction::MathVxVySub(x, y) => {
                let a = self.registers[x];
                let b = self.registers[y];
                let flag: u8 = if a >= b { 1 } else { 0 };
                self.registers[15] = flag;
                self.registers[x] = a.wrapping_sub(b);
                self.memory.next_instruction();
                Ok(ExecStatus::Ready)
            }
            Instruction::BitOpShiftRight(x, _y) => {
                let a = self.registers[x];
                self.registers[15] = a & 1;
                let cur = self.registers[x];
                self.registers[x] = cur >> 1u8;
                self.memory.next_instruction();
                Ok(ExecStatus::Ready)
            }
            Instruction::MathVyVxSub(x, y) => {
                let a = self.registers[x];
                let b = self.registers[y];
                let flag: u8 = if b >= a { 1 } else { 0 };
                self.registers[15] = flag;
                self.registers[x] = b.wrapping_sub(a);
                self.memory.next_instruction();
                Ok(ExecStatus::Ready)
            }
            Instruction::BitOpShiftLeft(x, _y) => {
                let a = self.registers[x];
                self.registers[15] = (a & 0x80) >> 7u8;
                let cur = self.registers[x];
                self.registers[x] = cur << 1u8;
                self.memory.next_instruction();
                Ok(ExecStatus::Ready)
            }
            Instruction::CondVxVyNeq(x, y) => {
                if self.registers[x] != self.registers[y] {
                    self.memory.next_instruction();
                }
                self.memory.next_instruction();
                Ok(ExecStatus::Ready)
            }
            Instruction::MemSetIAddress(addr) => {
                self.i = addr;
                self.memory.next_instruction();
                Ok(ExecStatus::Ready)
            }
            Instruction::FlowJumpOffsetV0(addr) => {
                let target = addr + self.registers[0] as usize;
                self.memory.jump(target);
                Ok(ExecStatus::Ready)
            }
            Instruction::RandomANDVxNN(x, nn) => {
                let b = random_byte();
                self.registers[x] = b & nn;
                self.memory.next_instruction();
                proof {
                    assert(self.registers@ == old(self).registers@.update(x as int, b & nn));
                }
                Ok(ExecStatus::Ready)
            }
            Instruction::DrawSprite(x, y, h) => self.op_draw(x, y, h, fb),
            Instruction::KeyOpKeyPressed(x) => {
                let vx = self.registers[x];
                let key = vx & 0xF;
                proof {
                    assert(vx & 0xF < 16) by (bit_vector);
                }
                if keys.is_pressed(key as usize) {
                    self.memory.next_instruction();
                }
                self.memory.next_instruction();
                Ok(ExecStatus::Ready)
            }
            Instruction::KeyOpKeyNotPressed(x) => {
                let vx = self.registers[x];
                let key = vx & 0xF;
                proof {
                    assert(vx & 0xF < 16) by (bit_vector);
                }
                if !keys.is_pressed(key as usize) {
                    self.memory.next_instruction();
                }
                self.memory.next_instruction();
                Ok(ExecStatus::Ready)
            }
            Instruction::DelayTimerSaveVx(x) => {
                let v = self.delay_timer;
                self.registers[x] = v;
                self.memory.next_instruction();
                Ok(ExecStatus::Ready)
            }
            Instruction::KeyOpGetKey(x) => {
                let fp = keys.first_pressed_key();
                if fp < 16 {
                    self.registers[x] = fp as u8;
                    self.memory.next_instruction();
                    Ok(ExecStatus::Ready)
                } else {
                    Ok(ExecStatus::AwaitingKey)
                }
            }
            Instruction::DelayTimerSetVx(x) => {
                self.delay_timer = self.registers[x];
                self.memory.next_instruction();
                Ok(ExecStatus::Ready)
            }
            Instruction::SoundTimerSetVx(x) => {
                self.sound_timer = self.registers[x];
                self.memory.next_instruction();
                Ok(ExecStatus::Ready)
            }
            Instruction::MemAddIVx(x) => {
                let v = self.registers[x] as u16;
                self.i = self.i.wrapping_add(v);
                self.memory.next_instruction();
                Ok(ExecStatus::Ready)
            }
            Instruction::MemSetISprite(x) => {
                let d = self.registers[x] as u16;
                self.i = 0x50 + 5 * d;
                self.memory.next_instruction();
                Ok(ExecStatus::Ready)
            }
            Instruction::BCDSave(x) => {
                let i_base = self.i as usize;
                if i_base + 2 >= MEM_SIZE {
                    Err(Fault::Bounds(i_base + 2))
                } else {
                    let vx = self.registers[x];
                    self.memory.set_mem(i_base, vx / 100);
                    self.memory.set_mem(i_base + 1, (vx / 10) % 10);
                    self.memory.set_mem(i_base + 2, vx % 10);
                    self.memory.next_instruction();
                    Ok(ExecStatus::Ready)
                }
            }
            Instruction::MemRegisterDump(x) => self.op_dump(x),
            Instruction::MemRegisterLoad(x) => self.op_load(x),
        }
    }

    /// Copies V0..=Vx to memory at the index register, or faults when the
    /// span leaves memory.
    fn op_dump(&mut self, x: usize) -> (r: Result<ExecStatus, Fault>)
        requires
            old(self).wf(),
            x < 16,
            old(self).memory.program_counter <= 0xFFFF,
        ensures
            final(self).wf(),
            ({
                let p = *old(self);
                let q = *final(self);
                let i = p.i as int;
                if i + x < MEM_SIZE {
                    &&& r == Ok::<ExecStatus, Fault>(ExecStatus::Ready)
                    &&& frame_mem(p, q)
                    &&& q.memory.mem@ == mem_after_dump(p.memory.mem@, p.registers@, i, x as int)
                    &&& q.pc() == p.pc() + 2
                } else {
                    &&& r == Err::<ExecStatus, Fault>(Fault::Bounds((i + x) as usize))
                    &&& unchanged_core(p, q)
                }
            }),
    {
        let i_base = self.i as usize;
        if i_base + x >= MEM_SIZE {
            return Err(Fault::Bounds(i_base + x));
        }
        let mut reg: usize = 0;
        while reg <= x
            invariant
                reg <= x + 1,
                x < 16,
                i_base == old(self).i,
                i_base + x < MEM_SIZE,
                self.wf(),
                self.registers@ == old(self).registers@,
                self.stack.entries@ == old(self).stack.entries@,
                self.i == old(self).i,
                self.delay_timer == old(self).delay_timer,
                self.sound_timer == old(self).sound_timer,
                self.memory.program_counter == old(self).memory.program_counter,
                forall|a: int| 0 <= a < MEM_SIZE && !(i_base <= a < i_base + reg)
                    ==> self.memory.mem@[a] == old(self).memory.mem@[a],
                forall|a: int| i_base <= a < i_base + reg
                    ==> self.memory.mem@[a] == old(self).registers@[a - i_base],
            decreases x + 1 - reg,
        {
            let v = self.registers[reg];
            self.memory.set_mem(i_base + reg, v);
            reg += 1;
        }
        proof {
            assert(self.memory.mem@ =~= mem_after_dump(
                old(self).memory.mem@,
                old(self).registers@,
                i_base as int,
                x as int,
            ));
        }
        self.memory.next_instruction();
        Ok(ExecStatus::Ready)
    }

    /// Loads V0..=Vx from memory at the index register, or faults when the
    /// span leaves memory.
    fn op_load(&mut self, x: usize) -> (r: Result<ExecStatus, Fault>)
        requires
            old(self).wf(),
            x < 16,
            old(self).memory.program_counter <= 0xFFFF,
        ensures
            final(self).wf(),
            ({
                let p = *old(self);
                let q = *final(self);
                let i = p.i as int;
                if i + x < MEM_SIZE {
                    &&& r == Ok::<ExecStatus, Fault>(ExecStatus::Ready)
                    &&& frame_rest(p, q)
                    &&& q.registers@ == regs_after_load(p.registers@, p.memory.mem@, i, x as int)
                    &&& q.pc() == p.pc() + 2
                } else {
                    &&& r == Err::<ExecStatus, Fault>(Fault::Bounds((i + x) as usize))
                    &&& unchanged_core(p, q)
                }
            }),
    {
        let i_base = self.i as usize;
        if i_base + x >= MEM_SIZE {
            return Err(Fault::Bounds(i_base + x));
        }
        let mut reg: usize = 0;
        while reg <= x
            invariant
                reg <= x + 1,
                x < 16,
                i_base == old(self).i,
                i_base + x < MEM_SIZE,
                self.wf(),
                self.memory.mem@ == old(self).memory.mem@,
                self.stack.entries@ == old(self).stack.entries@,
                self.i == old(self).i,
                self.delay_timer == old(self).delay_timer,
                self.sound_timer == old(self).sound_timer,
                self.memory.program_counter == old(self).memory.program_counter,
                forall|k: int| reg <= k < 16 ==> self.registers@[k] == old(self).registers@[k],
                forall|k: int| 0 <= k < reg
                    ==> self.registers@[k] == old(self).memory.mem@[i_base + k],
            decreases x + 1 - reg,
        {
            let v = self.memory.get_mem(i_base + reg);
            self.registers[reg] = v;
            reg += 1;
        }
        proof {
            assert(self.registers@ =~= regs_after_load(
                old(self).registers@,
                old(self).memory.mem@,
                i_base as int,
                x as int,
            ));
        }
        self.memory.next_instruction();
        Ok(ExecStatus::Ready)
    }

    /// XOR-blits an 8-wide, `h`-tall sprite read from memory at the index
    /// register to position (Vx, Vy), wrapping at the screen edges, and
    /// reports a collision in VF; faults when the sprite bytes leave
    /// memory.
    #[verifier::loop_isolation(false)]
    #[verifier::rlimit(100)]
    fn op_draw(&mut self, x: usize, y: usize, h: usize, fb: &mut Framebuffer) -> (r: Result<
        ExecStatus,
        Fault,
    >)
        requires
            old(self).wf(),
            old(fb).wf(),
            x < 16,
            y < 16,
            h < 16,
            old(self).memory.program_counter <= 0xFFFF,
        ensures
            final(self).wf(),
            final(fb).wf(),
            ({
                let p = *old(self);
                let q = *final(self);
                let i = p.i as int;
                let vx = p.registers@[x as int];
                let vy = p.registers@[y as int];
                if h > 0 && i + h > MEM_SIZE {
                    &&& final(fb)@ == old(fb)@
                    &&& r == Err::<ExecStatus, Fault>(Fault::Bounds((i + h - 1) as usize))
                    &&& unchanged_core(p, q)
                } else {
                    &&& r == Ok::<ExecStatus, Fault>(ExecStatus::Ready)
                    &&& frame_rest(p, q)
                    &&& q.registers@ == p.registers@.update(
                        15,
                        if draw_collides(old(fb)@, p.memory.mem@, i, h as int, vx, vy) {
                            1u8
                        } else {
                            0u8
                        },
                    )
                    &&& q.pc() == p.pc() + 2
                    &&& final(fb)@ == draw_pixels(old(fb)@, p.memory.mem@, i, h as int, vx, vy)
                }
            }),
    {
        let vx = self.registers[x];
        let vy = self.registers[y];
        let i_base = self.i as usize;
        if h > 0 && i_base + h > MEM_SIZE {
            return Err(Fault::Bounds(i_base + h - 1));
        }
        let ghost fb0 = fb.cells@;
        let ghost msq = self.memory.mem@;
        let mut collision = false;
        let mut row: usize = 0;
        proof {
            assert forall|pp: int| 0 <= pp < 2048 implies
                !draw_hit_upto_at(msq, i_base as int, h as int, vx, vy, pp, 0, 0)
            by {}
            assert forall|xx: int, yy: int| 0 <= xx < 64 && 0 <= yy < 32 implies
                !(#[trigger] draw_hit_upto(msq, i_base as int, h as int, vx, vy, xx, yy, 0, 0))
            by {}
        }
        while row < h
            invariant
                row <= h,
                fb.cells@.len() == 2048,
                forall|pp: int| 0 <= pp < 2048 ==> fb.cells@[pp] == (fb0[pp] != draw_hit_upto_at(
                    msq, i_base as int, h as int, vx, vy, pp, row as int, 0,
                )),
                collision == exists|xx: int, yy: int|
                    0 <= xx < 64 && 0 <= yy < 32 && #[trigger] draw_hit_upto(
                        msq, i_base as int, h as int, vx, vy, xx, yy, row as int, 0,
                    ) && fb0[yy * 64 + xx],
            decreases h - row,
        {
            let b = self.memory.get_mem(i_base + row);
            let mut col: usize = 0;
            while col < 8
                invariant
                    row < h,
                    col <= 8,
                    b == msq[i_base + row],
                    fb.cells@.len() == 2048,
                    forall|pp: int| 0 <= pp < 2048 ==> fb.cells@[pp] == (fb0[pp] != draw_hit_upto_at(
                        msq, i_base as int, h as int, vx, vy, pp, row as int, col as int,
                    )),
                    collision == exists|xx: int, yy: int|
                        0 <= xx < 64 && 0 <= yy < 32 && #[trigger] draw_hit_upto(
                            msq, i_base as int, h as int, vx, vy, xx, yy,
                            row as int, col as int,
                        ) && fb0[yy * 64 + xx],
                decreases 8 - col,
            {
                let bit_set = b & (0x80u8 >> col) != 0;
                proof {
                    lemma_wrap_window(vx as int, col as int, 64);
                    lemma_wrap_window(vy as int, row as int, 32);
                }
                if bit_set {
                    let px = (vx as usize + col) % 64;
                    let py = (vy as usize + row) % 32;
                    let was_on = fb.get_pixel(px, py);
                    if was_on {
                        collision = true;
                    }
                    fb.set_pixel(px, py, !was_on);
                    proof {
                        let i = i_base as int;
                        let hh = h as int;
                        let rr = row as int;
                        let cc = col as int;
                        let xt = px as int;
                        let yt = py as int;
                        let p0 = yt * 64 + xt;
                        // the target pixel maps back to exactly this row and bit
                        assert((yt - vy) % 32 == rr && (xt - vx) % 64 == cc);
                        assert(!draw_hit_upto(msq, i, hh, vx, vy, xt, yt, rr, cc));
                        assert(draw_hit_upto(msq, i, hh, vx, vy, xt, yt, rr, cc + 1));
                        assert(was_on == fb0[p0]);
                        // pixels other than the target keep their hit status
                        assert forall|pp: int| 0 <= pp < 2048 && pp != p0 implies
                            draw_hit_upto_at(msq, i, hh, vx, vy, pp, rr, cc + 1)
                                == draw_hit_upto_at(msq, i, hh, vx, vy, pp, rr, cc)
                        by {
                            if (pp / 64 - vy) % 32 == rr && (pp % 64 - vx) % 64 == cc {
                                assert(0 <= pp % 64 < 64 && 0 <= pp / 64 < 32);
                                lemma_wrap_unique(vx as int, cc, 64, pp % 64);
                                lemma_wrap_unique(vy as int, rr, 32, pp / 64);
                                assert(pp % 64 == xt && pp / 64 == yt);
                                assert(pp == 64 * (pp / 64) + pp % 64);
                                assert(pp == p0);
                            }
                        }
                        // grid invariant at the new position
                        assert(p0 % 64 == xt && p0 / 64 == yt);
                        assert(draw_hit_upto_at(msq, i, hh, vx, vy, p0, rr, cc + 1));
                        assert(!draw_hit_upto_at(msq, i, hh, vx, vy, p0, rr, cc));
                        assert forall|pp: int| 0 <= pp < 2048 implies
                            fb.cells@[pp] == (fb0[pp] != draw_hit_upto_at(
                                msq, i, hh, vx, vy, pp, rr, cc + 1,
                            ))
                        by {}
                        // collision invariant at the new position
                        if collision {
                            if was_on {
                                assert(draw_hit_upto(msq, i, hh, vx, vy, xt, yt, rr, cc + 1)
                                    && fb0[yt * 64 + xt]);
                            } else {
                                let (xx, yy) = choose|xx: int, yy: int|
                                    0 <= xx < 64 && 0 <= yy < 32 && #[trigger] draw_hit_upto(
                                        msq, i, hh, vx, vy, xx, yy, rr, cc,
                                    ) && fb0[yy * 64 + xx];
                                assert(draw_hit_upto(msq, i, hh, vx, vy, xx, yy, rr, cc + 1)
                                    && fb0[yy * 64 + xx]);
                            }
                        } else {
                            assert forall|xx: int, yy: int|
                                0 <= xx < 64 && 0 <= yy < 32 && #[trigger] draw_hit_upto(
                                    msq, i, hh, vx, vy, xx, yy, rr, cc + 1,
                                ) implies !fb0[yy * 64 + xx]
                            by {
                                if (yy - vy) % 32 == rr && (xx - vx) % 64 == cc {
                                    lemma_wrap_unique(vx as int, cc, 64, xx);
                                    lemma_wrap_unique(vy as int, rr, 32, yy);
                                    assert(xx == xt && yy == yt);
                                    assert(!fb0[yt * 64 + xt]);
                                } else {
                                    assert(draw_hit_upto(msq, i, hh, vx, vy, xx, yy, rr, cc));
                                }
                            }
                        }
                    }
                } else {
                    proof {
                        let i = i_base as int;
                        let hh = h as int;
                        let rr = row as int;
                        let cc = col as int;
                        assert(!sprite_bit(msq[i + rr], cc));
                        assert forall|pp: int| 0 <= pp < 2048 implies
                            draw_hit_upto_at(msq, i, hh, vx, vy, pp, rr, cc + 1)
                                == draw_hit_upto_at(msq, i, hh, vx, vy, pp, rr, cc)
                        by {}
                        assert forall|xx: int, yy: int|
                            0 <= xx < 64 && 0 <= yy < 32 && #[trigger] draw_hit_upto(
                                msq, i, hh, vx, vy, xx, yy, rr, cc + 1,
                            ) implies draw_hit_upto(msq, i, hh, vx, vy, xx, yy, rr, cc)
                        by {}
                        assert forall|xx: int, yy: int|
                            0 <= xx < 64 && 0 <= yy < 32 && #[trigger] draw_hit_upto(
                                msq, i, hh, vx, vy, xx, yy, rr, cc,
                            ) implies draw_hit_upto(msq, i, hh, vx, vy, xx, yy, rr, cc + 1)
                        by {}
                    }
                }
                col += 1;
            }
            row += 1;
            proof {
                let i = i_base as int;
                let hh = h as int;
                let rr = row as int;
                assert forall|pp: int| 0 <= pp < 2048 implies
                    draw_hit_upto_at(msq, i, hh, vx, vy, pp, rr, 0)
                        == draw_hit_upto_at(msq, i, hh, vx, vy, pp, rr - 1, 8)
                by {}
                if collision {
                    let (xx, yy) = choose|xx: int, yy: int|
                        0 <= xx < 64 && 0 <= yy < 32 && #[trigger] draw_hit_upto(
                            msq, i, hh, vx, vy, xx, yy, rr - 1, 8,
                        ) && fb0[yy * 64 + xx];
                    assert(draw_hit_upto(msq, i, hh, vx, vy, xx, yy, rr, 0)
                        && fb0[yy * 64 + xx]);
                } else {
                    assert forall|xx: int, yy: int|
                        0 <= xx < 64 && 0 <= yy < 32 && #[trigger] draw_hit_upto(
                            msq, i, hh, vx, vy, xx, yy, rr, 0,
                        ) implies !fb0[yy * 64 + xx]
                    by {
                        assert(draw_hit_upto(msq, i, hh, vx, vy, xx, yy, rr - 1, 8));
                    }
                }
            }
        }
        proof {
            let i = i_base as int;
            let hh = h as int;
            assert forall|pp: int| 0 <= pp < 2048 implies
                draw_hit_upto_at(msq, i, hh, vx, vy, pp, hh, 0)
                    == draw_hit_at(msq, i, hh, vx, vy, pp)
            by {}
            assert(fb.cells@ =~= draw_pixels(fb0, msq, i, hh, vx, vy));
            if collision {
                let (xx, yy) = choose|xx: int, yy: int|
                    0 <= xx < 64 && 0 <= yy < 32 && #[trigger] draw_hit_upto(
                        msq, i, hh, vx, vy, xx, yy, hh, 0,
                    ) && fb0[yy * 64 + xx];
                assert(draw_hit(msq, i, hh, vx, vy, xx, yy) && fb0[yy * 64 + xx]);
            } else {
                assert forall|xx: int, yy: int|
                    0 <= xx < 64 && 0 <= yy < 32 && #[trigger] draw_hit(
                        msq, i, hh, vx, vy, xx, yy,
                    ) implies !fb0[yy * 64 + xx]
                by {
                    assert(draw_hit_upto(msq, i, hh, vx, vy, xx, yy, hh, 0));
                }
            }
            assert(collision == draw_collides(fb0, msq, i, hh, vx, vy));
        }
        self.registers[15] = if collision { 1 } else { 0 };
        self.memory.next_instruction();
        Ok(ExecStatus::Ready)
    }
}

/// For a window `off` shorter than the modulus `n`: the wrapped position
/// `(base + off) % n` maps back to exactly `off`, and it is the only cell
/// of `[0, n)` that does.
proof fn lemma_wrap_window(base: int, off: int, n: int)
    requires
        n > 0,
        0 <= base,
        0 <= off < n,
    ensures
        0 <= (base + off) % n < n,
        ((base + off) % n - base) % n == off,
{
    lemma_mod_bound(base + off, n);
    lemma_small_mod(off as nat, n as nat);
    let m = (base + off) % n;
    assert((m - base) % n == off) by {
        lemma_sub_mod_noop_right(m, base, n);
        lemma_sub_mod_noop(base + off, base, n);
        lemma_mod_bound(m - base % n, n);
        assert((m - base % n) % n == (m - base) % n);
        assert((base + off) % n % n == (base + off) % n) by {
            lemma_small_mod(m as nat, n as nat);
        }
        assert((m % n - base % n) % n == ((base + off) - base) % n);
        lemma_small_mod(m as nat, n as nat);
    }
}

/// The wrapped position `(base + off) % n` is the only cell of `[0, n)`
/// that maps back to `off`: any `t` in range with `(t - base) % n == off`
/// is that position.
proof fn lemma_wrap_unique(base: int, off: int, n: int, t: int)
    requires
        n > 0,
        0 <= base,
        0 <= off < n,
        0 <= t < n,
        (t - base) % n == off,
    ensures
        t == (base + off) % n,
{
    lemma_sub_mod_noop_right(t, base, n);
    assert((t - base % n) % n == (t - base) % n);
    lemma_add_mod_noop(t - base, base, n);
    assert(((t - base) % n + base % n) % n == t % n);
    lemma_small_mod(t as nat, n as nat);
    lemma_add_mod_noop(base, off, n);
    assert((base % n + off % n) % n == (base + off) % n);
    lemma_small_mod(off as nat, n as nat);
    lemma_sub_mod_noop(t, base, n);
    assert(((t % n) - (base % n)) % n == (t - base) % n);
    assert((off + base % n) % n == (base % n + off % n) % n);
    assert(t % n == (base + off) % n);
}

} // verus!
