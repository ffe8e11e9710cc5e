//! The machine itself: the state aggregate, the bootstrap and loader, the
//! timer driver, and the display and input surfaces.  The execution cycle
//! lives in its own module.

use vstd::prelude::*;

use crate::font::font_byte;
use crate::font::font_byte_at;
use crate::isa::Chip8Error;
use crate::semantics::St;
use crate::semantics::blank_video;
use crate::semantics::st_wf;

verus! {

/// A CHIP-8 machine: 4096 bytes of memory with the font preloaded, 16
/// registers, the index register, the program counter, a 16-level call
/// stack, two timers, 16 keys, and a 64 by 32 framebuffer.
pub struct Chip8 {
    pub registers: Vec<u8>,
    pub memory: Vec<u8>,
    pub index: u16,
    pub pc: u16,
    pub stack: Vec<u16>,
    pub sp: u8,
    /// Counts down toward zero under the timer driver.
    pub delay_timer: u8,
    /// Counts down toward zero under the timer driver; the host sounds a
    /// tone while it is nonzero.
    pub sound_timer: u8,
    /// The 16 key states, set by the host before each batch of steps.
    pub keypad: Vec<bool>,
    /// The framebuffer, row-major: pixel (x, y) is entry `y * 64 + x`.
    pub video: Vec<bool>,
    pub opcode: u16,
}

impl View for Chip8 {
    type V = St;

    open spec fn view(&self) -> St {
        St {
            mem: self.memory@,
            regs: self.registers@,
            index: self.index,
            pc: self.pc,
            stack: self.stack@,
            sp: self.sp,
            delay_timer: self.delay_timer,
            sound_timer: self.sound_timer,
            keypad: self.keypad@,
            video: self.video@,
            opcode: self.opcode,
        }
    }
}

/// The state of a machine fresh from the constructor: everything zeroed but
/// the font table at 0x50..0xA0.
pub open spec fn init_st() -> St {
    St {
        mem: Seq::new(4096, |p: int| if 0x50 <= p < 0xA0 {
            font_byte(p - 0x50)
        } else {
            0u8
        }),
        regs: Seq::new(16, |i: int| 0u8),
        index: 0,
        pc: 0,
        stack: Seq::new(16, |i: int| 0u16),
        sp: 0,
        delay_timer: 0,
        sound_timer: 0,
        keypad: Seq::new(16, |i: int| false),
        video: blank_video(),
        opcode: 0,
    }
}

impl Chip8 {
    /// The fixed sizes of the state hold.
    pub open spec fn wf(&self) -> bool {
        st_wf(self@)
    }

    /// Builds a machine with all state zeroed and the font copied to
    /// 0x50..0xA0.
    pub fn new() -> (m: Chip8)
        ensures
            m.wf(),
            m@ == init_st(),
    {
        let mut memory: Vec<u8> = vec![0u8; 4096];
        assert(forall|p: int| 0 <= p < 4096 ==> memory@[p] == 0u8);
        let mut i: usize = 0;
        while i < 80
            invariant
                i <= 80,
                memory@.len() == 4096,
                forall|j: int| 0 <= j < i ==> memory@[0x50 + j] == font_byte(j),
                forall|p: int|
                    0 <= p < 4096 && !(0x50 <= p < 0x50 + i) ==> memory@[p] == 0u8,
            decreases 80 - i,
        {
            let b = font_byte_at(i);
            memory[0x50 + i] = b;
            i = i + 1;
        }
        let m = Chip8 {
            registers: vec![0u8; 16],
            memory,
            index: 0,
            pc: 0,
            stack: vec![0u16; 16],
            sp: 0,
            delay_timer: 0,
            sound_timer: 0,
            keypad: vec![false; 16],
            video: vec![false; 2048],
            opcode: 0,
        };
        proof {
            assert(m@.mem =~= init_st().mem);
            assert(m@.regs =~= init_st().regs);
            assert(m@.stack =~= init_st().stack);
            assert(m@.keypad =~= init_st().keypad);
            assert(m@.video =~= init_st().video);
            assert(m@ =~= init_st());
        }
        m
    }

    /// Copies a program into memory starting at 0x200 and resets pc there.
    /// Fails, changing nothing, exactly when the program does not fit.
    pub fn load_rom(&mut self, data: &Vec<u8>) -> (r: Result<(), Chip8Error>)
        requires
            old(self).wf(),
        ensures
            final(self).wf(),
            data@.len() > 4096 - 0x200 ==> r == Err::<(), Chip8Error>(Chip8Error::OutOfSpace)
                && final(self)@ == old(self)@,
            data@.len() <= 4096 - 0x200 ==> r == Ok::<(), Chip8Error>(()) && final(self)@ == (St {
                mem: Seq::new(4096, |p: int| if 0x200 <= p < 0x200 + data@.len() {
                    data@[p - 0x200]
                } else {
                    old(self)@.mem[p]
                }),
                pc: 0x200,
                ..old(self)@
            }),
    {
        if data.len() > 4096 - 0x200 {
            return Err(Chip8Error::OutOfSpace);
        }
        let ghost mem0 = self.memory@;
        let mut i: usize = 0;
        while i < data.len()
            invariant
                self.wf(),
                i <= data@.len(),
                data@.len() <= 4096 - 0x200,
                self.memory@.len() == 4096,
                mem0.len() == 4096,
                forall|j: int| 0 <= j < i ==> self.memory@[0x200 + j] == data@[j],
                forall|p: int|
                    0 <= p < 4096 && !(0x200 <= p < 0x200 + i) ==> self.memory@[p] == mem0[p],
                self.registers@ == old(self).registers@,
                self.index == old(self).index,
                self.pc == old(self).pc,
                self.stack@ == old(self).stack@,
                self.sp == old(self).sp,
                self.delay_timer == old(self).delay_timer,
                self.sound_timer == old(self).sound_timer,
                self.keypad@ == old(self).keypad@,
                self.video@ == old(self).video@,
                self.opcode == old(self).opcode,
                mem0 == old(self).memory@,
            decreases data@.len() - i,
        {
            let b = data[i];
            self.memory[0x200 + i] = b;
            i = i + 1;
        }
        self.pc = 0x200;
        proof {
            assert(self@.mem =~= Seq::new(4096, |p: int| if 0x200 <= p < 0x200 + data@.len() {
                data@[p - 0x200]
            } else {
                old(self)@.mem[p]
            }));
            assert(self@ =~= (St {
                mem: Seq::new(4096, |p: int| if 0x200 <= p < 0x200 + data@.len() {
                    data@[p - 0x200]
                } else {
                    old(self)@.mem[p]
                }),
                pc: 0x200,
                ..old(self)@
            }));
        }
        Ok(())
    }

    /// One tick of the timer driver: each timer moves one step toward zero
    /// and stops there; nothing else changes.
    pub fn update_timers(&mut self)
        ensures
            final(self)@ == (St {
                delay_timer: if old(self)@.delay_timer > 0 {
                    (old(self)@.delay_timer - 1) as u8
                } else {
                    0u8
                },
                sound_timer: if old(self)@.sound_timer > 0 {
                    (old(self)@.sound_timer - 1) as u8
                } else {
                    0u8
                },
                ..old(self)@
            }),
    {
        if self.sound_timer > 0 {
            self.sound_timer = self.sound_timer - 1;
        }
        if self.delay_timer > 0 {
            self.delay_timer = self.delay_timer - 1;
        }
        proof {
            assert(self@ =~= (St {
                delay_timer: if old(self)@.delay_timer > 0 {
                    (old(self)@.delay_timer - 1) as u8
                } else {
                    0u8
                },
                sound_timer: if old(self)@.sound_timer > 0 {
                    (old(self)@.sound_timer - 1) as u8
                } else {
                    0u8
                },
                ..old(self)@
            }));
        }
    }

    /// Sets one key of the input latch, for the host's input collaborator.
    pub fn set_key(&mut self, key: usize, pressed: bool)
        requires
            old(self).wf(),
            key < 16,
        ensures
            final(self).wf(),
            final(self)@ == (St { keypad: old(self)@.keypad.update(key as int, pressed), ..old(self)@ }),
    {
        self.keypad[key] = pressed;
        proof {
            assert(self@ =~= (St {
                keypad: old(self)@.keypad.update(key as int, pressed),
                ..old(self)@
            }));
        }
    }

    /// Whether framebuffer cell (x, y) is lit, for the presentation layer.
    pub fn pixel(&self, x: usize, y: usize) -> (lit: bool)
        requires
            self.wf(),
            x < 64,
            y < 32,
        ensures
            lit == self@.video[y * 64 + x],
    {
        self.video[y * 64 + x]
    }

    /// Register Vx.
    pub fn register(&self, x: usize) -> (v: u8)
        requires
            self.wf(),
            x < 16,
        ensures
            v == self@.regs[x as int],
    {
        self.registers[x]
    }

    /// The index register I.
    pub fn index_register(&self) -> (v: u16)
        ensures
            v == self@.index,
    {
        self.index
    }

    /// The program counter.
    pub fn program_counter(&self) -> (v: u16)
        ensures
            v == self@.pc,
    {
        self.pc
    }

    /// The stack pointer: how many calls are in flight.
    pub fn stack_pointer(&self) -> (v: u8)
        ensures
            v == self@.sp,
    {
        self.sp
    }

    /// The byte at a memory address.
    pub fn memory_at(&self, addr: usize) -> (b: u8)
        requires
            self.wf(),
            addr < 4096,
        ensures
            b == self@.mem[addr as int],
    {
        self.memory[addr]
    }

    /// A contiguous run of `len` bytes of memory starting at `addr`.
    pub fn memory_run(&self, addr: usize, len: usize) -> (run: Vec<u8>)
        requires
            self.wf(),
            addr + len <= 4096,
        ensures
            run@ == self@.mem.subrange(addr as int, addr + len),
    {
        let mut run: Vec<u8> = Vec::new();
        let mut j: usize = 0;
        while j < len
            invariant
                self.wf(),
                addr + len <= 4096,
                j <= len,
                run@ == self@.mem.subrange(addr as int, addr + j),
            decreases len - j,
        {
            let b = self.memory[addr + j];
            run.push(b);
            proof {
                assert(run@ =~= self@.mem.subrange(addr as int, addr + j + 1));
            }
            j = j + 1;
        }
        run
    }

    /// The last opcode a step fetched, kept for diagnostics.
    pub fn last_opcode(&self) -> (v: u16)
        ensures
            v == self@.opcode,
    {
        self.opcode
    }
}

} // verus!
