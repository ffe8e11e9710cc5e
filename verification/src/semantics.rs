//! The mathematical model of the machine: a ghost image of the whole state,
//! and the transition function that gives the meaning of one
//! fetch-decode-execute step, one opcode at a time.

use vstd::prelude::*;

use crate::isa::Chip8Error;
use crate::isa::Instr;
use crate::isa::spec_decode;

verus! {

/// The machine state as mathematics: every field of the interpreter, with
/// the byte arrays as sequences.
#[verifier::ext_equal]
pub ghost struct St {
    /// 4096 bytes of address space.
    pub mem: Seq<u8>,
    /// The 16 general-purpose registers V0..VF.
    pub regs: Seq<u8>,
    /// The index register I.
    pub index: u16,
    /// The program counter.
    pub pc: u16,
    /// The 16-level call stack.
    pub stack: Seq<u16>,
    /// The stack pointer: the next free slot.
    pub sp: u8,
    /// The delay timer.
    pub delay_timer: u8,
    /// The sound timer.
    pub sound_timer: u8,
    /// The 16 key states, true while a key is down.
    pub keypad: Seq<bool>,
    /// The 64 by 32 framebuffer, row-major, true while a pixel is lit.
    pub video: Seq<bool>,
    /// The last opcode that a step fetched.
    pub opcode: u16,
}

/// The fixed sizes of the state: 4096 bytes of memory, 16 registers, a
/// 16-level stack, 16 keys, 2048 pixels, and a stack pointer at most 16.
pub open spec fn st_wf(s: St) -> bool {
    &&& s.mem.len() == 4096
    &&& s.regs.len() == 16
    &&& s.stack.len() == 16
    &&& s.keypad.len() == 16
    &&& s.video.len() == 2048
    &&& s.sp <= 16
}

/// The program counter after a plain instruction: two bytes further on.
pub open spec fn adv(pc: u16) -> u16 {
    (pc + 2) as u16
}

/// The program counter after a taken skip: four bytes further on.
pub open spec fn skip(pc: u16) -> u16 {
    (pc + 4) as u16
}

/// A framebuffer with every pixel off.
pub open spec fn blank_video() -> Seq<bool> {
    Seq::new(2048, |p: int| false)
}

/// Bit `c` of a sprite row, counting the leftmost (most significant) bit as
/// column 0.
pub open spec fn sprite_bit(b: u8, c: int) -> bool {
    (b >> ((7 - c) as u8)) & 1 == 1
}

/// The framebuffer row holding row `r` of a sprite drawn at row `y0`:
/// rows wrap around the 32-row screen.  Meant for `0 <= y0 < 32` and
/// `0 <= r < 32`.
pub open spec fn wrap_row(y0: int, r: int) -> int {
    if y0 + r < 32 {
        y0 + r
    } else {
        y0 + r - 32
    }
}

/// The framebuffer column holding column `c` of a sprite drawn at column
/// `x0`: columns wrap around the 64-column screen.  Meant for `0 <= x0 < 64`
/// and `0 <= c < 64`.
pub open spec fn wrap_col(x0: int, c: int) -> int {
    if x0 + c < 64 {
        x0 + c
    } else {
        x0 + c - 64
    }
}

/// Whether drawing `bytes` at (`x0`, `y0`) toggles pixel `p`, but counting
/// only sprite positions before row `rd`, plus those on row `rd` before
/// column `cd`.  With `rd == bytes.len()` and `cd == 0` this is the whole
/// sprite.
pub open spec fn toggles_upto(bytes: Seq<u8>, x0: int, y0: int, rd: int, cd: int, p: int) -> bool {
    let py = p / 64;
    let px = p % 64;
    let r = if py >= y0 {
        py - y0
    } else {
        py - y0 + 32
    };
    let c = if px >= x0 {
        px - x0
    } else {
        px - x0 + 64
    };
    &&& 0 <= r < bytes.len()
    &&& 0 <= c < 8
    &&& (r < rd || (r == rd && c < cd))
    &&& sprite_bit(bytes[r], c)
}

/// Whether drawing `bytes` at (`x0`, `y0`) toggles pixel `p`: some sprite
/// bit that is set lands on `p`.
pub open spec fn toggles(bytes: Seq<u8>, x0: int, y0: int, p: int) -> bool {
    toggles_upto(bytes, x0, y0, bytes.len() as int, 0, p)
}

/// The framebuffer after the sprite positions counted by `rd`, `cd` have
/// been XORed in.
pub open spec fn draw_upto(
    v0: Seq<bool>,
    bytes: Seq<u8>,
    x0: int,
    y0: int,
    rd: int,
    cd: int,
) -> Seq<bool> {
    Seq::new(v0.len(), |p: int| v0[p] != toggles_upto(bytes, x0, y0, rd, cd, p))
}

/// The framebuffer after drawing the whole sprite `bytes` at (`x0`, `y0`):
/// each set sprite bit toggles its pixel, with wraparound on both axes.
pub open spec fn draw_video(v0: Seq<bool>, bytes: Seq<u8>, x0: int, y0: int) -> Seq<bool> {
    Seq::new(v0.len(), |p: int| v0[p] != toggles(bytes, x0, y0, p))
}

/// Whether the positions counted by `rd`, `cd` erase some lit pixel.
pub open spec fn collision_upto(
    v0: Seq<bool>,
    bytes: Seq<u8>,
    x0: int,
    y0: int,
    rd: int,
    cd: int,
) -> bool {
    exists|p: int| 0 <= p < v0.len() && v0[p] && toggles_upto(bytes, x0, y0, rd, cd, p)
}

/// Whether drawing `bytes` at (`x0`, `y0`) erases some lit pixel: the
/// collision that the draw opcode reports in VF.
pub open spec fn draw_collision(v0: Seq<bool>, bytes: Seq<u8>, x0: int, y0: int) -> bool {
    exists|p: int| 0 <= p < v0.len() && v0[p] && toggles(bytes, x0, y0, p)
}

/// Memory after storing registers 0..=x at I..=I+x.
pub open spec fn store_regs_mem(mem: Seq<u8>, regs: Seq<u8>, i: int, x: int) -> Seq<u8> {
    Seq::new(mem.len(), |p: int| if i <= p <= i + x {
        regs[p - i]
    } else {
        mem[p]
    })
}

/// Registers after loading 0..=x from I..=I+x, the rest untouched.
pub open spec fn load_regs_regs(mem: Seq<u8>, regs: Seq<u8>, i: int, x: int) -> Seq<u8> {
    Seq::new(regs.len(), |j: int| if j <= x {
        mem[i + j]
    } else {
        regs[j]
    })
}

/// The lowest key at position `i` or beyond that is down, if any.
pub open spec fn first_key_from(keypad: Seq<bool>, i: int) -> Option<u8>
    decreases keypad.len() - i,
{
    if !(0 <= i < keypad.len()) {
        None
    } else if keypad[i] {
        Some(i as u8)
    } else {
        first_key_from(keypad, i + 1)
    }
}

/// The lowest key currently down, if any: the key that the wait-for-key
/// opcode reports.
pub open spec fn first_key(keypad: Seq<bool>) -> Option<u8> {
    first_key_from(keypad, 0)
}

/// The effect of one decoded instruction on the state: `Ok` carries the
/// next state, `Err` the fatal condition, with the state unchanged.  The
/// `opcode` field is left alone; the step function sets it.
pub open spec fn exec_spec(s: St, i: Instr, rand: u8) -> Result<St, Chip8Error> {
    match i {
        Instr::Cls => Ok(St { video: blank_video(), pc: adv(s.pc), ..s }),
        Instr::Ret => if s.sp == 0 {
            Err(Chip8Error::StackUnderflow { pc: s.pc })
        } else {
            Ok(St { pc: s.stack[s.sp - 1], sp: (s.sp - 1) as u8, ..s })
        },
        Instr::Jump { nnn } => Ok(St { pc: nnn, ..s }),
        Instr::Call { nnn } => if s.sp >= 16 {
            Err(Chip8Error::StackOverflow { pc: s.pc })
        } else {
            Ok(
                St {
                    stack: s.stack.update(s.sp as int, adv(s.pc)),
                    sp: (s.sp + 1) as u8,
                    pc: nnn,
                    ..s
                },
            )
        },
        Instr::SkipEqImm { x, kk } => Ok(
            St { pc: if s.regs[x as int] == kk { skip(s.pc) } else { adv(s.pc) }, ..s },
        ),
        Instr::SkipNeImm { x, kk } => Ok(
            St { pc: if s.regs[x as int] != kk { skip(s.pc) } else { adv(s.pc) }, ..s },
        ),
        Instr::SkipEqReg { x, y } => Ok(
            St { pc: if s.regs[x as int] == s.regs[y as int] { skip(s.pc) } else { adv(s.pc) }, ..s },
        ),
        Instr::LoadImm { x, kk } => Ok(
            St { regs: s.regs.update(x as int, kk), pc: adv(s.pc), ..s },
        ),
        Instr::AddImm { x, kk } => Ok(
            St {
                regs: s.regs.update(x as int, ((s.regs[x as int] + kk) % 256) as u8),
                pc: adv(s.pc),
                ..s
            },
        ),
        Instr::Move { x, y } => Ok(
            St { regs: s.regs.update(x as int, s.regs[y as int]), pc: adv(s.pc), ..s },
        ),
        Instr::Or { x, y } => Ok(
            St {
                regs: s.regs.update(x as int, s.regs[x as int] | s.regs[y as int]),
                pc: adv(s.pc),
                ..s
            },
        ),
        Instr::And { x, y } => Ok(
            St {
                regs: s.regs.update(x as int, s.regs[x as int] & s.regs[y as int]),
                pc: adv(s.pc),
                ..s
            },
        ),
        Instr::Xor { x, y } => Ok(
            St {
                regs: s.regs.update(x as int, s.regs[x as int] ^ s.regs[y as int]),
                pc: adv(s.pc),
                ..s
            },
        ),
        Instr::Add { x, y } => Ok(
            St {
                regs: s.regs.update(x as int, ((s.regs[x as int] + s.regs[y as int]) % 256) as u8)
                    .update(15, if s.regs[x as int] + s.regs[y as int] > 255 { 1u8 } else { 0u8 }),
                pc: adv(s.pc),
                ..s
            },
        ),
        Instr::Sub { x, y } => Ok(
            St {
                regs: s.regs.update(
                    x as int,
                    ((s.regs[x as int] - s.regs[y as int] + 256) % 256) as u8,
                ).update(15, if s.regs[x as int] >= s.regs[y as int] { 1u8 } else { 0u8 }),
                pc: adv(s.pc),
                ..s
            },
        ),
        Instr::Shr { x } => Ok(
            St {
                regs: s.regs.update(x as int, s.regs[x as int] / 2).update(
                    15,
                    s.regs[x as int] % 2,
                ),
                pc: adv(s.pc),
                ..s
            },
        ),
        Instr::SubN { x, y } => Ok(
            St {
                regs: s.regs.update(
                    x as int,
                    ((s.regs[y as int] - s.regs[x as int] + 256) % 256) as u8,
                ).update(15, if s.regs[y as int] >= s.regs[x as int] { 1u8 } else { 0u8 }),
                pc: adv(s.pc),
                ..s
            },
        ),
        Instr::Shl { x } => Ok(
            St {
                regs: s.regs.update(x as int, ((s.regs[x as int] * 2) % 256) as u8).update(
                    15,
                    s.regs[x as int] / 128,
                ),
                pc: adv(s.pc),
                ..s
            },
        ),
        Instr::SkipNeReg { x, y } => Ok(
            St { pc: if s.regs[x as int] != s.regs[y as int] { skip(s.pc) } else { adv(s.pc) }, ..s },
        ),
        Instr::LoadIndex { nnn } => Ok(St { index: nnn, pc: adv(s.pc), ..s }),
        Instr::JumpV0 { nnn } => Ok(St { pc: (nnn + s.regs[0]) as u16, ..s }),
        Instr::Rand { x, kk } => Ok(
            St { regs: s.regs.update(x as int, rand & kk), pc: adv(s.pc), ..s },
        ),
        Instr::Draw { x, y, n } => if s.index + n > 4096 {
            Err(Chip8Error::OutOfBounds { pc: s.pc })
        } else {
            let bytes = s.mem.subrange(s.index as int, s.index + n);
            let x0 = s.regs[x as int] % 64;
            let y0 = s.regs[y as int] % 32;
            Ok(
                St {
                    video: draw_video(s.video, bytes, x0 as int, y0 as int),
                    regs: s.regs.update(
                        15,
                        if draw_collision(s.video, bytes, x0 as int, y0 as int) {
                            1u8
                        } else {
                            0u8
                        },
                    ),
                    pc: adv(s.pc),
                    ..s
                },
            )
        },
        Instr::SkipKey { x } => Ok(
            St {
                pc: if s.keypad[(s.regs[x as int] % 16) as int] { skip(s.pc) } else { adv(s.pc) },
                ..s
            },
        ),
        Instr::SkipNoKey { x } => Ok(
            St {
                pc: if !s.keypad[(s.regs[x as int] % 16) as int] { skip(s.pc) } else { adv(s.pc) },
                ..s
            },
        ),
        Instr::ReadDelay { x } => Ok(
            St { regs: s.regs.update(x as int, s.delay_timer), pc: adv(s.pc), ..s },
        ),
        Instr::WaitKey { x } => match first_key(s.keypad) {
            Some(k) => Ok(St { regs: s.regs.update(x as int, k), pc: adv(s.pc), ..s }),
            None => Ok(s),
        },
        Instr::SetDelay { x } => Ok(St { delay_timer: s.regs[x as int], pc: adv(s.pc), ..s }),
        Instr::SetSound { x } => Ok(St { sound_timer: s.regs[x as int], pc: adv(s.pc), ..s }),
        Instr::AddIndex { x } => Ok(
            St { index: ((s.index + s.regs[x as int]) % 0x10000) as u16, pc: adv(s.pc), ..s },
        ),
        Instr::FontAddr { x } => Ok(
            St { index: (0x50 + 5 * s.regs[x as int]) as u16, pc: adv(s.pc), ..s },
        ),
        Instr::StoreBcd { x } => if s.index + 2 >= 4096 {
            Err(Chip8Error::OutOfBounds { pc: s.pc })
        } else {
            let vx = s.regs[x as int];
            Ok(
                St {
                    mem: s.mem.update(s.index as int, vx / 100).update(
                        s.index + 1,
                        (vx / 10) % 10,
                    ).update(s.index + 2, vx % 10),
                    pc: adv(s.pc),
                    ..s
                },
            )
        },
        Instr::StoreRegs { x } => if s.index + x >= 4096 {
            Err(Chip8Error::OutOfBounds { pc: s.pc })
        } else {
            Ok(
                St {
                    mem: store_regs_mem(s.mem, s.regs, s.index as int, x as int),
                    pc: adv(s.pc),
                    ..s
                },
            )
        },
        Instr::LoadRegs { x } => if s.index + x >= 4096 {
            Err(Chip8Error::OutOfBounds { pc: s.pc })
        } else {
            Ok(
                St {
                    regs: load_regs_regs(s.mem, s.regs, s.index as int, x as int),
                    pc: adv(s.pc),
                    ..s
                },
            )
        },
        Instr::Unknown => Err(Chip8Error::UnknownOpcode { opcode: s.opcode, pc: s.pc }),
    }
}

/// The opcode word at the program counter: two bytes, big-endian.
pub open spec fn fetched(s: St) -> u16 {
    ((s.mem[s.pc as int] as u16) << 8) | (s.mem[s.pc + 1] as u16)
}

/// One whole step: fetch the opcode at pc (failing past the end of memory),
/// decode it (failing on a word outside the table), execute it, and record
/// the fetched word in the opcode field.
pub open spec fn step_spec(s: St, rand: u8) -> Result<St, Chip8Error> {
    if s.pc + 1 >= 4096 {
        Err(Chip8Error::OutOfBounds { pc: s.pc })
    } else {
        let op = fetched(s);
        if spec_decode(op) is Unknown {
            Err(Chip8Error::UnknownOpcode { opcode: op, pc: s.pc })
        } else {
            match exec_spec(s, spec_decode(op), rand) {
                Ok(t) => Ok(St { opcode: op, ..t }),
                Err(e) => Err(e),
            }
        }
    }
}

} // verus!
