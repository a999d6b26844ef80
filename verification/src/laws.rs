use vstd::prelude::*;

use crate::cpu::{
    draw_collides, draw_hit, draw_hit_at, draw_pixels, step_spec, Chip8,
};
use crate::errors::{ExecStatus, Fault};
use crate::instructions::Instruction;
use crate::memory::MEM_SIZE;

verus! {

/// Law: a call followed by a return restores the program counter. Two
/// consecutive steps that execute `Call(addr)` and then `Return` on a
/// stack with room leave the program counter at the exact value the call
/// pushed, and the stack exactly as it was before the call.
pub proof fn lemma_call_return_round_trip(
    p: Chip8,
    q1: Chip8,
    q2: Chip8,
    fb0: Seq<bool>,
    fb1: Seq<bool>,
    fb2: Seq<bool>,
    keys: Seq<bool>,
    addr: u16,
    r1: Result<ExecStatus, Fault>,
    r2: Result<ExecStatus, Fault>,
)
    requires
        p.stk().len() < 16,
        p.memory.program_counter <= 0xFFFF,
        step_spec(p, fb0, keys, Instruction::FlowCall(addr), q1, fb1, r1),
        step_spec(q1, fb1, keys, Instruction::FlowReturn, q2, fb2, r2),
    ensures
        r1 == Ok::<ExecStatus, Fault>(ExecStatus::Ready),
        r2 == Ok::<ExecStatus, Fault>(ExecStatus::Ready),
        q2.pc() == p.pc(),
        q2.stk() == p.stk(),
{
    assert(q1.stk() == p.stk().push(p.memory.program_counter as u16));
    assert(q1.stk().last() == p.memory.program_counter as u16);
    assert(q2.stk() =~= p.stk());
}

/// Law: a register dump followed by a register load restores the
/// registers. For any starting register contents and any index register
/// whose span stays in memory, dumping V0..=Vx and loading V0..=Vx back
/// leaves every register as it started.
pub proof fn lemma_dump_then_load_restores_registers(
    p: Chip8,
    q1: Chip8,
    q2: Chip8,
    fb0: Seq<bool>,
    fb1: Seq<bool>,
    fb2: Seq<bool>,
    keys: Seq<bool>,
    x: usize,
    r1: Result<ExecStatus, Fault>,
    r2: Result<ExecStatus, Fault>,
)
    requires
        p.wf(),
        x < 16,
        p.i + x < MEM_SIZE,
        step_spec(p, fb0, keys, Instruction::MemRegisterDump(x), q1, fb1, r1),
        step_spec(q1, fb1, keys, Instruction::MemRegisterLoad(x), q2, fb2, r2),
    ensures
        r1 == Ok::<ExecStatus, Fault>(ExecStatus::Ready),
        r2 == Ok::<ExecStatus, Fault>(ExecStatus::Ready),
        q2.registers@ == p.registers@,
{
    assert(q2.registers@ =~= p.registers@);
}

/// Law: drawing the same sprite at the same location twice toggles every
/// touched pixel back, leaving the whole pixel grid exactly as it
/// started. Holds for any starting grid; the coordinate registers must
/// not be VF, which the first draw overwrites with the collision flag.
pub proof fn lemma_draw_twice_restores(
    p: Chip8,
    q1: Chip8,
    q2: Chip8,
    fb0: Seq<bool>,
    fb1: Seq<bool>,
    fb2: Seq<bool>,
    keys: Seq<bool>,
    x: usize,
    y: usize,
    h: usize,
    r1: Result<ExecStatus, Fault>,
    r2: Result<ExecStatus, Fault>,
)
    requires
        p.wf(),
        fb0.len() == 2048,
        x < 15,
        y < 15,
        h == 0 || p.i + h <= MEM_SIZE,
        step_spec(p, fb0, keys, Instruction::DrawSprite(x, y, h), q1, fb1, r1),
        step_spec(q1, fb1, keys, Instruction::DrawSprite(x, y, h), q2, fb2, r2),
    ensures
        r1 == Ok::<ExecStatus, Fault>(ExecStatus::Ready),
        r2 == Ok::<ExecStatus, Fault>(ExecStatus::Ready),
        fb2 == fb0,
{
    let i = p.i as int;
    let vx = p.registers@[x as int];
    let vy = p.registers@[y as int];
    assert(q1.registers@[x as int] == vx && q1.registers@[y as int] == vy);
    assert(fb1 == draw_pixels(fb0, p.memory.mem@, i, h as int, vx, vy));
    assert(fb2 == draw_pixels(fb1, p.memory.mem@, i, h as int, vx, vy));
    assert forall|pp: int| 0 <= pp < 2048 implies fb2[pp] == fb0[pp] by {
        let hit = draw_hit_at(p.memory.mem@, i, h as int, vx, vy, pp);
        assert(fb1[pp] == (fb0[pp] != hit));
        assert(fb2[pp] == (fb1[pp] != hit));
    }
    assert(fb2 =~= fb0);
}

/// Law: drawing a sprite on a grid whose touched pixels are all off
/// reports no collision, and drawing the identical sprite again right
/// away reports one, because the first draw switched a touched pixel on.
/// The pixel `px` names one touched cell; the coordinate registers must
/// not be VF, which the first draw overwrites with the collision flag.
pub proof fn lemma_repeat_draw_collides(
    p: Chip8,
    q1: Chip8,
    q2: Chip8,
    fb0: Seq<bool>,
    fb1: Seq<bool>,
    fb2: Seq<bool>,
    keys: Seq<bool>,
    x: usize,
    y: usize,
    h: usize,
    px: int,
    r1: Result<ExecStatus, Fault>,
    r2: Result<ExecStatus, Fault>,
)
    requires
        p.wf(),
        fb0.len() == 2048,
        x < 15,
        y < 15,
        h == 0 || p.i + h <= MEM_SIZE,
        0 <= px < 2048,
        draw_hit_at(
            p.memory.mem@,
            p.i as int,
            h as int,
            p.registers@[x as int],
            p.registers@[y as int],
            px,
        ),
        forall|pp: int| 0 <= pp < 2048 && #[trigger] draw_hit_at(
            p.memory.mem@,
            p.i as int,
            h as int,
            p.registers@[x as int],
            p.registers@[y as int],
            pp,
        ) ==> !fb0[pp],
        step_spec(p, fb0, keys, Instruction::DrawSprite(x, y, h), q1, fb1, r1),
        step_spec(q1, fb1, keys, Instruction::DrawSprite(x, y, h), q2, fb2, r2),
    ensures
        q1.registers@[15] == 0,
        q2.registers@[15] == 1,
{
    let i = p.i as int;
    let mem = p.memory.mem@;
    let vx = p.registers@[x as int];
    let vy = p.registers@[y as int];
    // the first draw finds every touched pixel off
    assert(!draw_collides(fb0, mem, i, h as int, vx, vy)) by {
        if draw_collides(fb0, mem, i, h as int, vx, vy) {
            let (xx, yy) = choose|xx: int, yy: int|
                0 <= xx < 64 && 0 <= yy < 32 && #[trigger] draw_hit(
                    mem, i, h as int, vx, vy, xx, yy,
                ) && fb0[yy * 64 + xx];
            let pp = yy * 64 + xx;
            assert(pp % 64 == xx && pp / 64 == yy);
            assert(draw_hit_at(mem, i, h as int, vx, vy, pp));
            assert(!fb0[pp]);
        }
    }
    // the second draw finds the named pixel on
    assert(q1.registers@[x as int] == vx && q1.registers@[y as int] == vy);
    assert(fb1 == draw_pixels(fb0, mem, i, h as int, vx, vy));
    assert(fb1[px] == (fb0[px] != draw_hit_at(mem, i, h as int, vx, vy, px)));
    assert(fb1[px]);
    assert(draw_collides(fb1, mem, i, h as int, vx, vy)) by {
        let xx = px % 64;
        let yy = px / 64;
        assert(px == 64 * (px / 64) + px % 64);
        assert(0 <= xx < 64 && 0 <= yy < 32);
        assert(draw_hit(mem, i, h as int, vx, vy, xx, yy) && fb1[yy * 64 + xx]);
    }
}

} // verus!
