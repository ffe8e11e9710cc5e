//! Laws of the instruction set, proved once and for all states: wrapping
//! addition, the carry and borrow flags, XOR drawing as its own inverse,
//! call and return as a round trip, and register store then load as a round
//! trip.

use vstd::prelude::*;

use crate::isa::Instr;
use crate::semantics::St;
use crate::semantics::adv;
use crate::semantics::draw_collision;
use crate::semantics::draw_video;
use crate::semantics::exec_spec;
use crate::semantics::st_wf;
use crate::semantics::store_regs_mem;
use crate::semantics::toggles;

verus! {

/// 7xkk: adding an immediate wraps at 256 and never fails, for every
/// register, immediate and state: afterwards Vx reads (Vx + kk) mod 256.
pub proof fn lemma_add_imm_wraps(s: St, x: u8, kk: u8, rand: u8)
    requires
        st_wf(s),
        x < 16,
    ensures
        exec_spec(s, Instr::AddImm { x, kk }, rand) is Ok,
        exec_spec(s, Instr::AddImm { x, kk }, rand).unwrap().regs[x as int] == (s.regs[x as int]
            + kk) % 256,
{
}

/// 8xy4 sets VF to 1 exactly when the unsigned sum of Vx and Vy exceeds
/// 255; 8xy5 and 8xy7 set VF to 1 exactly when no borrow occurs.
pub proof fn lemma_arith_flags(s: St, x: u8, y: u8, rand: u8)
    requires
        st_wf(s),
        x < 16,
        y < 16,
    ensures
        exec_spec(s, Instr::Add { x, y }, rand) is Ok,
        exec_spec(s, Instr::Add { x, y }, rand).unwrap().regs[15] == (if s.regs[x as int] + s.regs[
            y as int
        ] > 255 {
            1u8
        } else {
            0u8
        }),
        exec_spec(s, Instr::Sub { x, y }, rand) is Ok,
        exec_spec(s, Instr::Sub { x, y }, rand).unwrap().regs[15] == (if s.regs[x as int]
            >= s.regs[y as int] {
            1u8
        } else {
            0u8
        }),
        exec_spec(s, Instr::SubN { x, y }, rand) is Ok,
        exec_spec(s, Instr::SubN { x, y }, rand).unwrap().regs[15] == (if s.regs[y as int]
            >= s.regs[x as int] {
            1u8
        } else {
            0u8
        }),
{
}

/// Drawing a sprite twice at the same spot restores the framebuffer, and
/// when the first draw collides with nothing, the second collides exactly
/// when the sprite toggles some pixel at all.
pub proof fn lemma_draw_involution(v0: Seq<bool>, bytes: Seq<u8>, x0: int, y0: int)
    requires
        v0.len() == 2048,
    ensures
        draw_video(draw_video(v0, bytes, x0, y0), bytes, x0, y0) == v0,
        draw_collision(draw_video(v0, bytes, x0, y0), bytes, x0, y0) <==> exists|p: int|
            0 <= p < 2048 && !v0[p] && toggles(bytes, x0, y0, p),
        !draw_collision(v0, bytes, x0, y0) ==> (draw_collision(
            draw_video(v0, bytes, x0, y0),
            bytes,
            x0,
            y0,
        ) <==> exists|p: int| 0 <= p < 2048 && toggles(bytes, x0, y0, p)),
{
    let v1 = draw_video(v0, bytes, x0, y0);
    assert(draw_video(v1, bytes, x0, y0) =~= v0);
    // The second draw erases exactly the pixels the first draw lit.
    if draw_collision(v1, bytes, x0, y0) {
        let p = choose|p: int| 0 <= p < v1.len() && v1[p] && toggles(bytes, x0, y0, p);
        assert(0 <= p < 2048 && !v0[p] && toggles(bytes, x0, y0, p));
    }
    if exists|p: int| 0 <= p < 2048 && !v0[p] && toggles(bytes, x0, y0, p) {
        let p = choose|p: int| 0 <= p < 2048 && !v0[p] && toggles(bytes, x0, y0, p);
        assert(v1[p] && toggles(bytes, x0, y0, p));
    }
    if !draw_collision(v0, bytes, x0, y0) {
        if exists|p: int| 0 <= p < 2048 && toggles(bytes, x0, y0, p) {
            let p = choose|p: int| 0 <= p < 2048 && toggles(bytes, x0, y0, p);
            // No collision on the first draw, so pixel p was dark and the
            // first draw lit it.
            assert(!v0[p]);
            assert(v1[p] && toggles(bytes, x0, y0, p));
        }
    }
}

/// 2nnn followed at once by 00EE comes back: pc is what it would have been
/// just after the CALL, the stack pointer is restored, and registers,
/// memory, framebuffer and timers are untouched.
pub proof fn lemma_call_ret_round_trip(s: St, nnn: u16, rand: u8)
    requires
        st_wf(s),
        s.sp < 16,
    ensures
        exec_spec(s, Instr::Call { nnn }, rand) is Ok,
        ({
            let s1 = exec_spec(s, Instr::Call { nnn }, rand).unwrap();
            &&& s1.pc == nnn
            &&& exec_spec(s1, Instr::Ret, rand) is Ok
            &&& ({
                let s2 = exec_spec(s1, Instr::Ret, rand).unwrap();
                &&& s2.pc == adv(s.pc)
                &&& s2.sp == s.sp
                &&& s2.regs == s.regs
                &&& s2.mem == s.mem
                &&& s2.video == s.video
                &&& s2.delay_timer == s.delay_timer
                &&& s2.sound_timer == s.sound_timer
            })
        }),
{
}

/// Fx55 followed by Fx65 with the same I and x leaves every register as it
/// was, for all 0 <= x <= 15.
pub proof fn lemma_store_load_round_trip(s: St, x: u8, rand: u8)
    requires
        st_wf(s),
        x < 16,
        s.index + x < 4096,
    ensures
        exec_spec(s, Instr::StoreRegs { x }, rand) is Ok,
        ({
            let s1 = exec_spec(s, Instr::StoreRegs { x }, rand).unwrap();
            &&& s1.mem == store_regs_mem(s.mem, s.regs, s.index as int, x as int)
            &&& exec_spec(s1, Instr::LoadRegs { x }, rand) is Ok
            &&& exec_spec(s1, Instr::LoadRegs { x }, rand).unwrap().regs == s.regs
        }),
{
    let s1 = exec_spec(s, Instr::StoreRegs { x }, rand).unwrap();
    let s2 = exec_spec(s1, Instr::LoadRegs { x }, rand).unwrap();
    assert(s2.regs =~= s.regs);
}

} // verus!
