//! XOR sprite compositing onto the framebuffer, and the facts about it that
//! the executor's loops rest on.

use vstd::prelude::*;

use vstd::arithmetic::div_mod::lemma_fundamental_div_mod;

use crate::semantics::collision_upto;
use crate::semantics::draw_collision;
use crate::semantics::draw_upto;
use crate::semantics::draw_video;
use crate::semantics::sprite_bit;
use crate::semantics::toggles;
use crate::semantics::toggles_upto;
use crate::semantics::wrap_col;
use crate::semantics::wrap_row;

verus! {

/// Before any sprite position is processed, nothing has toggled and nothing
/// has collided.
pub proof fn lemma_draw_start(v0: Seq<bool>, bytes: Seq<u8>, x0: int, y0: int)
    requires
        v0.len() == 2048,
    ensures
        draw_upto(v0, bytes, x0, y0, 0, 0) == v0,
        !collision_upto(v0, bytes, x0, y0, 0, 0),
{
    assert(draw_upto(v0, bytes, x0, y0, 0, 0) =~= v0);
}

/// A row fully processed counts the same sprite positions as the next row
/// not yet begun.
pub proof fn lemma_draw_row_roll(v0: Seq<bool>, bytes: Seq<u8>, x0: int, y0: int, r: int)
    requires
        v0.len() == 2048,
        0 <= r,
    ensures
        draw_upto(v0, bytes, x0, y0, r, 8) == draw_upto(v0, bytes, x0, y0, r + 1, 0),
        collision_upto(v0, bytes, x0, y0, r, 8) == collision_upto(v0, bytes, x0, y0, r + 1, 0),
{
    assert forall|q: int|
        toggles_upto(bytes, x0, y0, r, 8, q) == toggles_upto(bytes, x0, y0, r + 1, 0, q) by {}
    assert(draw_upto(v0, bytes, x0, y0, r, 8) =~= draw_upto(v0, bytes, x0, y0, r + 1, 0));
    if collision_upto(v0, bytes, x0, y0, r, 8) {
        let q = choose|q: int|
            0 <= q < v0.len() && v0[q] && toggles_upto(bytes, x0, y0, r, 8, q);
        assert(v0[q] && toggles_upto(bytes, x0, y0, r + 1, 0, q));
    }
    if collision_upto(v0, bytes, x0, y0, r + 1, 0) {
        let q = choose|q: int|
            0 <= q < v0.len() && v0[q] && toggles_upto(bytes, x0, y0, r + 1, 0, q);
        assert(v0[q] && toggles_upto(bytes, x0, y0, r, 8, q));
    }
}

/// The whole sprite processed is the drawn framebuffer, and its collisions
/// are the draw opcode's collision.
pub proof fn lemma_draw_finish(v0: Seq<bool>, bytes: Seq<u8>, x0: int, y0: int)
    requires
        v0.len() == 2048,
    ensures
        draw_upto(v0, bytes, x0, y0, bytes.len() as int, 0) == draw_video(v0, bytes, x0, y0),
        collision_upto(v0, bytes, x0, y0, bytes.len() as int, 0) == draw_collision(
            v0,
            bytes,
            x0,
            y0,
        ),
{
    assert(draw_upto(v0, bytes, x0, y0, bytes.len() as int, 0) =~= draw_video(v0, bytes, x0, y0));
    if collision_upto(v0, bytes, x0, y0, bytes.len() as int, 0) {
        let q = choose|q: int|
            0 <= q < v0.len() && v0[q] && toggles_upto(bytes, x0, y0, bytes.len() as int, 0, q);
        assert(v0[q] && toggles(bytes, x0, y0, q));
    }
    if draw_collision(v0, bytes, x0, y0) {
        let q = choose|q: int| 0 <= q < v0.len() && v0[q] && toggles(bytes, x0, y0, q);
        assert(v0[q] && toggles_upto(bytes, x0, y0, bytes.len() as int, 0, q));
    }
}

/// Processing one more sprite position touches exactly one pixel: sprite row
/// `r`, column `c` lands on pixel `p` below, no position counted so far
/// lands there, and every other pixel is left as it was.
pub proof fn lemma_draw_col_step(
    v0: Seq<bool>,
    bytes: Seq<u8>,
    x0: int,
    y0: int,
    r: int,
    c: int,
)
    requires
        v0.len() == 2048,
        0 <= x0 < 64,
        0 <= y0 < 32,
        bytes.len() <= 32,
        0 <= r < bytes.len(),
        0 <= c < 8,
    ensures
        ({
            let p = wrap_row(y0, r) * 64 + wrap_col(x0, c);
            &&& 0 <= p < 2048
            &&& !toggles_upto(bytes, x0, y0, r, c, p)
            &&& toggles_upto(bytes, x0, y0, r, c + 1, p) == sprite_bit(bytes[r], c)
            &&& draw_upto(v0, bytes, x0, y0, r, c)[p] == v0[p]
            &&& (sprite_bit(bytes[r], c) ==> draw_upto(v0, bytes, x0, y0, r, c + 1) == draw_upto(
                v0,
                bytes,
                x0,
                y0,
                r,
                c,
            ).update(p, !v0[p]))
            &&& (!sprite_bit(bytes[r], c) ==> draw_upto(v0, bytes, x0, y0, r, c + 1) == draw_upto(
                v0,
                bytes,
                x0,
                y0,
                r,
                c,
            ))
            &&& collision_upto(v0, bytes, x0, y0, r, c + 1) == (collision_upto(
                v0,
                bytes,
                x0,
                y0,
                r,
                c,
            ) || (v0[p] && sprite_bit(bytes[r], c)))
        }),
{
    let py = wrap_row(y0, r);
    let px = wrap_col(x0, c);
    let p = py * 64 + px;
    assert(0 <= py < 32);
    assert(0 <= px < 64);
    assert(0 <= p < 2048) by (nonlinear_arith)
        requires
            0 <= py < 32,
            0 <= px < 64,
            p == py * 64 + px,
    ;
    assert(p / 64 == py && p % 64 == px) by (nonlinear_arith)
        requires
            0 <= py < 32,
            0 <= px < 64,
            p == py * 64 + px,
    ;
    // Decoding pixel p gives back sprite position (r, c).
    assert(!toggles_upto(bytes, x0, y0, r, c, p));
    assert(toggles_upto(bytes, x0, y0, r, c + 1, p) == sprite_bit(bytes[r], c));
    // No other pixel changes its count: a pixel decodes to one sprite
    // position, and only (r, c) is new.
    assert forall|q: int| 0 <= q < 2048 && q != p implies toggles_upto(
        bytes,
        x0,
        y0,
        r,
        c + 1,
        q,
    ) == toggles_upto(bytes, x0, y0, r, c, q) by {
        lemma_fundamental_div_mod(q, 64);
    }
    assert(draw_upto(v0, bytes, x0, y0, r, c)[p] == v0[p]);
    if sprite_bit(bytes[r], c) {
        assert(draw_upto(v0, bytes, x0, y0, r, c + 1) =~= draw_upto(v0, bytes, x0, y0, r, c)
            .update(p, !v0[p]));
    } else {
        assert(draw_upto(v0, bytes, x0, y0, r, c + 1) =~= draw_upto(v0, bytes, x0, y0, r, c));
    }
    // Collision gains exactly the new position's possible erasure.
    if collision_upto(v0, bytes, x0, y0, r, c + 1) {
        let q = choose|q: int|
            0 <= q < v0.len() && v0[q] && toggles_upto(bytes, x0, y0, r, c + 1, q);
        if q != p {
            assert(v0[q] && toggles_upto(bytes, x0, y0, r, c, q));
        }
    }
    if collision_upto(v0, bytes, x0, y0, r, c) {
        let q = choose|q: int| 0 <= q < v0.len() && v0[q] && toggles_upto(bytes, x0, y0, r, c, q);
        assert(v0[q] && toggles_upto(bytes, x0, y0, r, c + 1, q));
    }
    if v0[p] && sprite_bit(bytes[r], c) {
        assert(v0[p] && toggles_upto(bytes, x0, y0, r, c + 1, p));
    }
}

/// XORs the sprite `bytes` onto the framebuffer at column `x0`, row `y0`,
/// wrapping on both axes, and reports whether any lit pixel was erased.
pub fn draw_into(video: &mut Vec<bool>, bytes: &Vec<u8>, x0: usize, y0: usize) -> (coll: bool)
    requires
        old(video)@.len() == 2048,
        bytes@.len() <= 32,
        x0 < 64,
        y0 < 32,
    ensures
        final(video)@ == draw_video(old(video)@, bytes@, x0 as int, y0 as int),
        coll == draw_collision(old(video)@, bytes@, x0 as int, y0 as int),
{
    let ghost v0 = video@;
    let mut coll = false;
    let n = bytes.len();
    let mut r: usize = 0;
    proof {
        lemma_draw_start(v0, bytes@, x0 as int, y0 as int);
    }
    while r < n
        invariant
            video@.len() == 2048,
            v0.len() == 2048,
            bytes@.len() == n,
            n <= 32,
            x0 < 64,
            y0 < 32,
            r <= n,
            video@ == draw_upto(v0, bytes@, x0 as int, y0 as int, r as int, 0),
            coll == collision_upto(v0, bytes@, x0 as int, y0 as int, r as int, 0),
        decreases n - r,
    {
        let row_byte = bytes[r];
        let mut c: usize = 0;
        while c < 8
            invariant
                video@.len() == 2048,
                v0.len() == 2048,
                bytes@.len() == n,
                n <= 32,
                x0 < 64,
                y0 < 32,
                r < n,
                c <= 8,
                row_byte == bytes@[r as int],
                video@ == draw_upto(v0, bytes@, x0 as int, y0 as int, r as int, c as int),
                coll == collision_upto(v0, bytes@, x0 as int, y0 as int, r as int, c as int),
            decreases 8 - c,
        {
            let mut py = y0 + r;
            if py >= 32 {
                py = py - 32;
            }
            let mut px = x0 + c;
            if px >= 64 {
                px = px - 64;
            }
            let p = py * 64 + px;
            let bit = (row_byte >> ((7 - c) as u8)) & 1 == 1;
            proof {
                lemma_draw_col_step(v0, bytes@, x0 as int, y0 as int, r as int, c as int);
                assert(py == wrap_row(y0 as int, r as int));
                assert(px == wrap_col(x0 as int, c as int));
                assert(bit == sprite_bit(bytes@[r as int], c as int));
            }
            if bit {
                let cur = video[p];
                if cur {
                    coll = true;
                }
                video[p] = !cur;
            }
            c = c + 1;
        }
        proof {
            lemma_draw_row_roll(v0, bytes@, x0 as int, y0 as int, r as int);
        }
        r = r + 1;
    }
    proof {
        lemma_draw_finish(v0, bytes@, x0 as int, y0 as int);
    }
    coll
}

} // verus!
