//! The fetch-decode-execute cycle: one step of the virtual CPU, proved
//! against the transition function of the semantics module.

use vstd::prelude::*;

use crate::draw::draw_into;
use crate::isa::Chip8Error;
use crate::isa::Instr;
use crate::isa::decode;
use crate::machine::Chip8;
use crate::semantics::St;
use crate::semantics::blank_video;
use crate::semantics::draw_collision;
use crate::semantics::draw_video;
use crate::semantics::fetched;
use crate::semantics::first_key;
use crate::semantics::first_key_from;
use crate::semantics::load_regs_regs;
use crate::semantics::step_spec;
use crate::semantics::store_regs_mem;

verus! {

/// The grid column where the font test draws glyph `d`.
pub open spec fn glyph_col(d: int) -> int {
    5 + (d % 7) * 7
}

/// The grid row where the font test draws glyph `d`.
pub open spec fn glyph_row(d: int) -> int {
    1 + (d / 7) * 8
}

/// The framebuffer after the font test has drawn the first `k` glyphs, each
/// read from its 5 bytes of the font table.
pub open spec fn font_grid(s: St, k: int) -> Seq<bool>
    decreases k,
{
    if k <= 0 {
        s.video
    } else {
        draw_video(
            font_grid(s, k - 1),
            s.mem.subrange(0x50 + (k - 1) * 5, 0x50 + (k - 1) * 5 + 5),
            glyph_col(k - 1),
            glyph_row(k - 1),
        )
    }
}

/// The font test never changes the framebuffer's size.
pub proof fn lemma_font_grid_len(s: St, k: int)
    ensures
        font_grid(s, k).len() == s.video.len(),
    decreases k,
{
    if k > 0 {
        lemma_font_grid_len(s, k - 1);
    }
}

/// Scans the keypad from key 0 up and returns the first key that is down.
fn scan_key(keypad: &Vec<bool>) -> (r: Option<u8>)
    requires
        keypad@.len() == 16,
    ensures
        r == first_key(keypad@),
{
    let mut i: usize = 0;
    while i < 16
        invariant
            i <= 16,
            keypad@.len() == 16,
            first_key(keypad@) == first_key_from(keypad@, i as int),
        decreases 16 - i,
    {
        if keypad[i] {
            return Some(i as u8);
        }
        proof {
            assert(first_key_from(keypad@, i as int) == first_key_from(keypad@, i + 1));
        }
        i = i + 1;
    }
    None
}

impl Chip8 {
    /// XORs a sprite onto the framebuffer at (x mod 64, y mod 32) and
    /// reports whether any lit pixel was erased.  Nothing but the
    /// framebuffer changes; the collision flag is the draw opcode's to set.
    /// A sprite has at most 32 rows, so no two of its rows share a
    /// framebuffer row; the draw opcode's sprites have at most 15.
    pub fn draw_sprite(&mut self, x: usize, y: usize, sprite: &Vec<u8>) -> (coll: bool)
        requires
            old(self).wf(),
            sprite@.len() <= 32,
        ensures
            final(self).wf(),
            final(self)@ == (St {
                video: draw_video(
                    old(self)@.video,
                    sprite@,
                    (x % 64) as int,
                    (y % 32) as int,
                ),
                ..old(self)@
            }),
            coll == draw_collision(old(self)@.video, sprite@, (x % 64) as int, (y % 32) as int),
    {
        let coll = draw_into(&mut self.video, sprite, x % 64, y % 32);
        proof {
            assert(self@ =~= (St {
                video: draw_video(
                    old(self)@.video,
                    sprite@,
                    (x % 64) as int,
                    (y % 32) as int,
                ),
                ..old(self)@
            }));
        }
        coll
    }

    /// Draws the 16 font glyphs in a 7-column grid, a debugging aid: the
    /// framebuffer becomes `font_grid`, nothing else changes.
    pub fn font_test(&mut self)
        requires
            old(self).wf(),
        ensures
            final(self).wf(),
            final(self)@ == (St { video: font_grid(old(self)@, 16), ..old(self)@ }),
    {
        let mut d: usize = 0;
        while d < 16
            invariant
                old(self).wf(),
                d <= 16,
                self@ == (St { video: font_grid(old(self)@, d as int), ..old(self)@ }),
            decreases 16 - d,
        {
            let start = 0x50 + d * 5;
            let mut glyph: Vec<u8> = Vec::new();
            let mut j: usize = 0;
            while j < 5
                invariant
                    old(self).wf(),
                    d < 16,
                    start == 0x50 + d * 5,
                    j <= 5,
                    self@ == (St { video: font_grid(old(self)@, d as int), ..old(self)@ }),
                    glyph@ == old(self)@.mem.subrange(start as int, start + j),
                decreases 5 - j,
            {
                let b = self.memory[start + j];
                glyph.push(b);
                proof {
                    assert(glyph@ =~= old(self)@.mem.subrange(start as int, start + j + 1));
                }
                j = j + 1;
            }
            let x = 5 + (d % 7) * 7;
            let y = 1 + (d / 7) * 8;
            proof {
                lemma_font_grid_len(old(self)@, d as int);
            }
            self.draw_sprite(x, y, &glyph);
            proof {
                assert(x % 64 == glyph_col(d as int));
                assert(y % 32 == glyph_row(d as int));
                assert(self@ =~= (St { video: font_grid(old(self)@, d + 1), ..old(self)@ }));
            }
            d = d + 1;
        }
        proof {
            lemma_font_grid_len(old(self)@, 16);
        }
    }

    /// One step of the virtual CPU: fetch the two bytes at pc, decode them,
    /// execute the instruction, and advance or redirect pc.  On a fatal
    /// condition the machine is left exactly as it was and the error names
    /// the pc and the offending word.  The host passes one random byte for
    /// the Cxkk opcode; the step is exact for every value of it.
    #[verifier::rlimit(80)]
    pub fn cycle(&mut self, rand: u8) -> (r: Result<(), Chip8Error>)
        requires
            old(self).wf(),
        ensures
            final(self).wf(),
            ({
                let res = step_spec(old(self)@, rand);
                match res {
                    Ok(t) => r == Ok::<(), Chip8Error>(()) && final(self)@ == t,
                    Err(e) => r == Err::<(), Chip8Error>(e) && final(self)@ == old(self)@,
                }
            }),
    {
        if self.pc > 4094 {
            return Err(Chip8Error::OutOfBounds { pc: self.pc });
        }
        let pc_index = self.pc as usize;
        let hi = self.memory[pc_index];
        let lo = self.memory[pc_index + 1];
        let op: u16 = ((hi as u16) << 8) | (lo as u16);
        proof {
            assert(op == fetched(old(self)@));
        }
        let instr = decode(op);
        match instr {
            Instr::Cls => {
                self.video = vec![false; 2048];
                proof {
                    assert(self.video@ =~= blank_video());
                }
                self.pc = self.pc + 2;
            },
            Instr::Ret => {
                if self.sp == 0 {
                    return Err(Chip8Error::StackUnderflow { pc: self.pc });
                }
                self.sp = self.sp - 1;
                self.pc = self.stack[self.sp as usize];
            },
            Instr::Jump { nnn } => {
                self.pc = nnn;
            },
            Instr::Call { nnn } => {
                if self.sp >= 16 {
                    return Err(Chip8Error::StackOverflow { pc: self.pc });
                }
                self.stack[self.sp as usize] = self.pc + 2;
                self.sp = self.sp + 1;
                self.pc = nnn;
            },
            Instr::SkipEqImm { x, kk } => {
                if self.registers[x as usize] == kk {
                    self.pc = self.pc + 4;
                } else {
                    self.pc = self.pc + 2;
                }
            },
            Instr::SkipNeImm { x, kk } => {
                if self.registers[x as usize] != kk {
                    self.pc = self.pc + 4;
                } else {
                    self.pc = self.pc + 2;
                }
            },
            Instr::SkipEqReg { x, y } => {
                if self.registers[x as usize] == self.registers[y as usize] {
                    self.pc = self.pc + 4;
                } else {
                    self.pc = self.pc + 2;
                }
            },
            Instr::LoadImm { x, kk } => {
                self.registers[x as usize] = kk;
                self.pc = self.pc + 2;
            },
            Instr::AddImm { x, kk } => {
                let vx = self.registers[x as usize];
                self.registers[x as usize] = ((vx as u16 + kk as u16) % 256) as u8;
                self.pc = self.pc + 2;
            },
            Instr::Move { x, y } => {
                self.registers[x as usize] = self.registers[y as usize];
                self.pc = self.pc + 2;
            },
            Instr::Or { x, y } => {
                self.registers[x as usize] = self.registers[x as usize] | self.registers[y
                    as usize];
                self.pc = self.pc + 2;
            },
            Instr::And { x, y } => {
                self.registers[x as usize] = self.registers[x as usize] & self.registers[y
                    as usize];
                self.pc = self.pc + 2;
            },
            Instr::Xor { x, y } => {
                self.registers[x as usize] = self.registers[x as usize] ^ self.registers[y
                    as usize];
                self.pc = self.pc + 2;
            },
            Instr::Add { x, y } => {
                let vx = self.registers[x as usize];
                let vy = self.registers[y as usize];
                let sum = vx as u16 + vy as u16;
                self.registers[x as usize] = (sum % 256) as u8;
                self.registers[15] = if sum > 255 {
                    1
                } else {
                    0
                };
                self.pc = self.pc + 2;
            },
            Instr::Sub { x, y } => {
                let vx = self.registers[x as usize];
                let vy = self.registers[y as usize];
                self.registers[x as usize] = ((vx as u16 + 256 - vy as u16) % 256) as u8;
                self.registers[15] = if vx >= vy {
                    1
                } else {
                    0
                };
                self.pc = self.pc + 2;
            },
            Instr::Shr { x } => {
                let vx = self.registers[x as usize];
                self.registers[x as usize] = vx / 2;
                self.registers[15] = vx % 2;
                self.pc = self.pc + 2;
            },
            Instr::SubN { x, y } => {
                let vx = self.registers[x as usize];
                let vy = self.registers[y as usize];
                self.registers[x as usize] = ((vy as u16 + 256 - vx as u16) % 256) as u8;
                self.registers[15] = if vy >= vx {
                    1
                } else {
                    0
                };
                self.pc = self.pc + 2;
            },
            Instr::Shl { x } => {
                let vx = self.registers[x as usize];
                self.registers[x as usize] = ((vx as u16 * 2) % 256) as u8;
                self.registers[15] = vx / 128;
                self.pc = self.pc + 2;
            },
            Instr::SkipNeReg { x, y } => {
                if self.registers[x as usize] != self.registers[y as usize] {
                    self.pc = self.pc + 4;
                } else {
                    self.pc = self.pc + 2;
                }
            },
            Instr::LoadIndex { nnn } => {
                self.index = nnn;
                self.pc = self.pc + 2;
            },
            Instr::JumpV0 { nnn } => {
                self.pc = nnn + self.registers[0] as u16;
            },
            Instr::Rand { x, kk } => {
                self.registers[x as usize] = rand & kk;
                self.pc = self.pc + 2;
            },
            Instr::Draw { x, y, n } => {
                if self.index as usize + n as usize > 4096 {
                    return Err(Chip8Error::OutOfBounds { pc: self.pc });
                }
                let i0 = self.index as usize;
                let mut sprite: Vec<u8> = Vec::new();
                let mut j: usize = 0;
                while j < n as usize
                    invariant
                        self == old(self),
                        old(self).wf(),
                        i0 == old(self)@.index,
                        i0 + n <= 4096,
                        j <= n,
                        sprite@ == old(self)@.mem.subrange(i0 as int, i0 + j),
                    decreases n as usize - j,
                {
                    let b = self.memory[i0 + j];
                    sprite.push(b);
                    proof {
                        assert(sprite@ =~= old(self)@.mem.subrange(i0 as int, i0 + j + 1));
                    }
                    j = j + 1;
                }
                let vx = self.registers[x as usize] % 64;
                let vy = self.registers[y as usize] % 32;
                let coll = draw_into(&mut self.video, &sprite, vx as usize, vy as usize);
                self.registers[15] = if coll {
                    1
                } else {
                    0
                };
                self.pc = self.pc + 2;
            },
            Instr::SkipKey { x } => {
                let key = (self.registers[x as usize] % 16) as usize;
                if self.keypad[key] {
                    self.pc = self.pc + 4;
                } else {
                    self.pc = self.pc + 2;
                }
            },
            Instr::SkipNoKey { x } => {
                let key = (self.registers[x as usize] % 16) as usize;
                if !self.keypad[key] {
                    self.pc = self.pc + 4;
                } else {
                    self.pc = self.pc + 2;
                }
            },
            Instr::ReadDelay { x } => {
                self.registers[x as usize] = self.delay_timer;
                self.pc = self.pc + 2;
            },
            Instr::WaitKey { x } => {
                match scan_key(&self.keypad) {
                    Some(k) => {
                        self.registers[x as usize] = k;
                        self.pc = self.pc + 2;
                    },
                    None => {},
                }
            },
            Instr::SetDelay { x } => {
                self.delay_timer = self.registers[x as usize];
                self.pc = self.pc + 2;
            },
            Instr::SetSound { x } => {
                self.sound_timer = self.registers[x as usize];
                self.pc = self.pc + 2;
            },
            Instr::AddIndex { x } => {
                let vx = self.registers[x as usize];
                self.index = ((self.index as u32 + vx as u32) % 0x10000) as u16;
                self.pc = self.pc + 2;
            },
            Instr::FontAddr { x } => {
                let vx = self.registers[x as usize];
                self.index = 0x50 + 5 * vx as u16;
                self.pc = self.pc + 2;
            },
            Instr::StoreBcd { x } => {
                if self.index > 4093 {
                    return Err(Chip8Error::OutOfBounds { pc: self.pc });
                }
                let i0 = self.index as usize;
                let vx = self.registers[x as usize];
                self.memory[i0] = vx / 100;
                self.memory[i0 + 1] = (vx / 10) % 10;
                self.memory[i0 + 2] = vx % 10;
                self.pc = self.pc + 2;
            },
            Instr::StoreRegs { x } => {
                if self.index as usize + x as usize >= 4096 {
                    return Err(Chip8Error::OutOfBounds { pc: self.pc });
                }
                let i0 = self.index as usize;
                let mut j: usize = 0;
                while j < x as usize + 1
                    invariant
                        old(self).wf(),
                        x < 16,
                        i0 == old(self)@.index,
                        i0 + x < 4096,
                        j <= x + 1,
                        self.memory@.len() == 4096,
                        forall|q: int|
                            i0 <= q < i0 + j ==> self.memory@[q] == old(self)@.regs[q - i0],
                        forall|q: int|
                            0 <= q < 4096 && !(i0 <= q < i0 + j) ==> self.memory@[q] == old(
                                self,
                            )@.mem[q],
                        self.registers@ == old(self).registers@,
                        self.index == old(self).index,
                        self.pc == old(self).pc,
                        self.stack@ == old(self).stack@,
                        self.sp == old(self).sp,
                        self.delay_timer == old(self).delay_timer,
                        self.sound_timer == old(self).sound_timer,
                        self.keypad@ == old(self).keypad@,
                        self.video@ == old(self).video@,
                        self.opcode == old(self).opcode,
                    decreases x as usize + 1 - j,
                {
                    let b = self.registers[j];
                    self.memory[i0 + j] = b;
                    j = j + 1;
                }
                proof {
                    assert(self.memory@ =~= store_regs_mem(
                        old(self)@.mem,
                        old(self)@.regs,
                        i0 as int,
                        x as int,
                    ));
                }
                self.pc = self.pc + 2;
            },
            Instr::LoadRegs { x } => {
                if self.index as usize + x as usize >= 4096 {
                    return Err(Chip8Error::OutOfBounds { pc: self.pc });
                }
                let i0 = self.index as usize;
                let mut j: usize = 0;
                while j < x as usize + 1
                    invariant
                        old(self).wf(),
                        x < 16,
                        i0 == old(self)@.index,
                        i0 + x < 4096,
                        j <= x + 1,
                        self.registers@.len() == 16,
                        forall|q: int| 0 <= q < j ==> self.registers@[q] == old(self)@.mem[i0 + q],
                        forall|q: int|
                            j <= q < 16 ==> self.registers@[q] == old(self)@.regs[q],
                        self.memory@ == old(self).memory@,
                        self.index == old(self).index,
                        self.pc == old(self).pc,
                        self.stack@ == old(self).stack@,
                        self.sp == old(self).sp,
                        self.delay_timer == old(self).delay_timer,
                        self.sound_timer == old(self).sound_timer,
                        self.keypad@ == old(self).keypad@,
                        self.video@ == old(self).video@,
                        self.opcode == old(self).opcode,
                    decreases x as usize + 1 - j,
                {
                    let b = self.memory[i0 + j];
                    self.registers[j] = b;
                    j = j + 1;
                }
                proof {
                    assert(self.registers@ =~= load_regs_regs(
                        old(self)@.mem,
                        old(self)@.regs,
                        i0 as int,
                        x as int,
                    ));
                }
                self.pc = self.pc + 2;
            },
            Instr::Unknown => {
                return Err(Chip8Error::UnknownOpcode { opcode: op, pc: self.pc });
            },
        }
        self.opcode = op;
        proof {
            let res = step_spec(old(self)@, rand);
            assert(res is Ok && self@ =~= res.unwrap());
        }
        Ok(())
    }
}

} // verus!
