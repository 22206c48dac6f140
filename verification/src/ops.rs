use vstd::prelude::*;
use crate::state::Chip8;
use crate::state::FONT_OFFSET;
use crate::state::MEM_SIZE;
use crate::state::NUM_KEYS;
use crate::state::NUM_REGS;
use crate::state::STACK_SIZE;

verus! {

/// A byte sum wrapped to 8 bits.
pub open spec fn wrap8(v: int) -> u8 {
    (v % 256) as u8
}

/// A 16-bit sum wrapped to 16 bits.
pub open spec fn wrap16(v: int) -> u16 {
    (v % 0x10000) as u16
}

impl Chip8 {
    /// `1nnn`: jump. PC := addr.
    pub fn jmp(&mut self, addr: u16)
        requires
            old(self).wf(),
        ensures
            final(self).wf(),
            final(self).same_but_pc(*old(self)),
            final(self).pc == addr,
    {
        self.pc = addr;
    }

    /// `0nnn` (other): legacy machine-subroutine call, documented as
    /// unsupported; the state is left untouched.
    pub fn call(&mut self, _addr: u16)
        requires
            old(self).wf(),
        ensures
            final(self).wf(),
            final(self).all_same(*old(self)),
    {
    }

    /// `2nnn`: push the current PC (already advanced past the call
    /// instruction), then jump to addr. The caller must have a free stack
    /// slot; a full stack is `StackOverflow` at the dispatch level.
    pub fn call_sub(&mut self, addr: u16)
        requires
            old(self).wf(),
            old(self).sp < STACK_SIZE,
        ensures
            final(self).wf(),
            final(self).same_but_stack_sp_pc(*old(self)),
            final(self).stack@ == old(self).stack@.update(old(self).sp as int, old(self).pc),
            final(self).sp == old(self).sp + 1,
            final(self).pc == addr,
    {
        self.stack[self.sp as usize] = self.pc;
        self.sp = self.sp + 1;
        self.pc = addr;
    }

    /// `00EE`: pop the return address into PC. The caller must know the
    /// stack is nonempty; an empty stack is `StackUnderflow` at the dispatch
    /// level.
    pub fn ret(&mut self)
        requires
            old(self).wf(),
            old(self).sp >= 1,
        ensures
            final(self).wf(),
            final(self).same_but_sp_pc(*old(self)),
            final(self).sp == old(self).sp - 1,
            final(self).pc == old(self).stack@[old(self).sp - 1],
    {
        self.sp = self.sp - 1;
        self.pc = self.stack[self.sp as usize];
    }

    /// `6xkk`: Vx := kk.
    pub fn set_reg(&mut self, reg: u8, val: u8)
        requires
            old(self).wf(),
            reg < NUM_REGS,
        ensures
            final(self).wf(),
            final(self).same_but_regs(*old(self)),
            final(self).registers@ == old(self).registers@.update(reg as int, val),
    {
        self.registers[reg as usize] = val;
    }

    /// `7xkk`: Vx := Vx + kk, wrapping on 8-bit overflow, no flag.
    pub fn add_reg(&mut self, reg: u8, val: u8)
        requires
            old(self).wf(),
            reg < NUM_REGS,
        ensures
            final(self).wf(),
            final(self).same_but_regs(*old(self)),
            final(self).registers@ == old(self).registers@.update(
                reg as int,
                wrap8(old(self).registers@[reg as int] + val),
            ),
    {
        let a = self.registers[reg as usize];
        self.registers[reg as usize] = ((a as u16 + val as u16) % 256) as u8;
    }

    /// `Annn`: I := val.
    pub fn set_index(&mut self, val: u16)
        requires
            old(self).wf(),
        ensures
            final(self).wf(),
            final(self).same_but_index(*old(self)),
            final(self).index_register == val,
    {
        self.index_register = val;
    }

    /// `3xkk`: skip the next instruction when Vx == kk.
    pub fn eq(&mut self, reg: u8, val: u8)
        requires
            old(self).wf(),
            reg < NUM_REGS,
            old(self).pc + 2 < 0x10000,
        ensures
            final(self).wf(),
            final(self).same_but_pc(*old(self)),
            final(self).pc == (if old(self).registers@[reg as int] == val {
                (old(self).pc + 2) as u16
            } else {
                old(self).pc
            }),
    {
        if self.registers[reg as usize] == val {
            self.pc = self.pc + 2;
        }
    }

    /// `4xkk`: skip the next instruction when Vx != kk.
    pub fn ne(&mut self, reg: u8, val: u8)
        requires
            old(self).wf(),
            reg < NUM_REGS,
            old(self).pc + 2 < 0x10000,
        ensures
            final(self).wf(),
            final(self).same_but_pc(*old(self)),
            final(self).pc == (if old(self).registers@[reg as int] != val {
                (old(self).pc + 2) as u16
            } else {
                old(self).pc
            }),
    {
        if self.registers[reg as usize] != val {
            self.pc = self.pc + 2;
        }
    }

    /// `5xy0`: skip the next instruction when Vx == Vy.
    pub fn reg_eq(&mut self, vx: u8, vy: u8)
        requires
            old(self).wf(),
            vx < NUM_REGS,
            vy < NUM_REGS,
            old(self).pc + 2 < 0x10000,
        ensures
            final(self).wf(),
            final(self).same_but_pc(*old(self)),
            final(self).pc == (if old(self).registers@[vx as int] == old(self).registers@[vy as int] {
                (old(self).pc + 2) as u16
            } else {
                old(self).pc
            }),
    {
        if self.registers[vx as usize] == self.registers[vy as usize] {
            self.pc = self.pc + 2;
        }
    }

    /// `9xy0`: skip the next instruction when Vx != Vy.
    pub fn jne(&mut self, vx: u8, vy: u8)
        requires
            old(self).wf(),
            vx < NUM_REGS,
            vy < NUM_REGS,
            old(self).pc + 2 < 0x10000,
        ensures
            final(self).wf(),
            final(self).same_but_pc(*old(self)),
            final(self).pc == (if old(self).registers@[vx as int] != old(self).registers@[vy as int] {
                (old(self).pc + 2) as u16
            } else {
                old(self).pc
            }),
    {
        if self.registers[vx as usize] != self.registers[vy as usize] {
            self.pc = self.pc + 2;
        }
    }

    /// `8xy0`: Vx := Vy.
    pub fn reg_cp(&mut self, vx: u8, vy: u8)
        requires
            old(self).wf(),
            vx < NUM_REGS,
            vy < NUM_REGS,
        ensures
            final(self).wf(),
            final(self).same_but_regs(*old(self)),
            final(self).registers@ == old(self).registers@.update(
                vx as int,
                old(self).registers@[vy as int],
            ),
    {
        self.registers[vx as usize] = self.registers[vy as usize];
    }

    /// `8xy1`: Vx := Vx | Vy.
    pub fn reg_or(&mut self, vx: u8, vy: u8)
        requires
            old(self).wf(),
            vx < NUM_REGS,
            vy < NUM_REGS,
        ensures
            final(self).wf(),
            final(self).same_but_regs(*old(self)),
            final(self).registers@ == old(self).registers@.update(
                vx as int,
                old(self).registers@[vx as int] | old(self).registers@[vy as int],
            ),
    {
        let v = self.registers[vx as usize] | self.registers[vy as usize];
        self.registers[vx as usize] = v;
    }

    /// `8xy2`: Vx := Vx & Vy.
    pub fn reg_and(&mut self, vx: u8, vy: u8)
        requires
            old(self).wf(),
            vx < NUM_REGS,
            vy < NUM_REGS,
        ensures
            final(self).wf(),
            final(self).same_but_regs(*old(self)),
            final(self).registers@ == old(self).registers@.update(
                vx as int,
                old(self).registers@[vx as int] & old(self).registers@[vy as int],
            ),
    {
        let v = self.registers[vx as usize] & self.registers[vy as usize];
        self.registers[vx as usize] = v;
    }

    /// `8xy3`: Vx := Vx ^ Vy.
    pub fn vxor(&mut self, vx: u8, vy: u8)
        requires
            old(self).wf(),
            vx < NUM_REGS,
            vy < NUM_REGS,
        ensures
            final(self).wf(),
            final(self).same_but_regs(*old(self)),
            final(self).registers@ == old(self).registers@.update(
                vx as int,
                old(self).registers@[vx as int] ^ old(self).registers@[vy as int],
            ),
    {
        let v = self.registers[vx as usize] ^ self.registers[vy as usize];
        self.registers[vx as usize] = v;
    }

    /// `8xy4`: Vx := Vx + Vy wrapping; VF := 1 exactly when the 9-bit sum
    /// exceeds 255, else 0. The flag write lands last, so for x = 0xF the
    /// flag value prevails.
    pub fn reg_add(&mut self, vx: u8, vy: u8)
        requires
            old(self).wf(),
            vx < NUM_REGS,
            vy < NUM_REGS,
        ensures
            final(self).wf(),
            final(self).same_but_regs(*old(self)),
            final(self).registers@ == old(self).registers@.update(
                vx as int,
                wrap8(old(self).registers@[vx as int] + old(self).registers@[vy as int]),
            ).update(
                15,
                (if old(self).registers@[vx as int] + old(self).registers@[vy as int] > 255 {
                    1u8
                } else {
                    0u8
                }),
            ),
    {
        let a = self.registers[vx as usize];
        let b = self.registers[vy as usize];
        let sum = a as u16 + b as u16;
        self.registers[vx as usize] = (sum % 256) as u8;
        self.registers[0xF] = if sum > 255 {
            1
        } else {
            0
        };
    }

    /// `8xy5`: Vx := Vx - Vy wrapping on borrow; VF := 1 exactly when
    /// Vx >= Vy before the subtraction, else 0. The flag write lands last.
    pub fn reg_sub(&mut self, vx: u8, vy: u8)
        requires
            old(self).wf(),
            vx < NUM_REGS,
            vy < NUM_REGS,
        ensures
            final(self).wf(),
            final(self).same_but_regs(*old(self)),
            final(self).registers@ == old(self).registers@.update(
                vx as int,
                wrap8(old(self).registers@[vx as int] - old(self).registers@[vy as int] + 256),
            ).update(
                15,
                (if old(self).registers@[vx as int] >= old(self).registers@[vy as int] {
                    1u8
                } else {
                    0u8
                }),
            ),
    {
        let a = self.registers[vx as usize];
        let b = self.registers[vy as usize];
        self.registers[vx as usize] = (((a as u16 + 256) - b as u16) % 256) as u8;
        self.registers[0xF] = if a >= b {
            1
        } else {
            0
        };
    }

    /// `8xy7`: Vx := Vy - Vx wrapping on borrow; VF := 1 exactly when
    /// Vy >= Vx before the subtraction, else 0. The flag write lands last.
    pub fn reg_sub_inv(&mut self, vx: u8, vy: u8)
        requires
            old(self).wf(),
            vx < NUM_REGS,
            vy < NUM_REGS,
        ensures
            final(self).wf(),
            final(self).same_but_regs(*old(self)),
            final(self).registers@ == old(self).registers@.update(
                vx as int,
                wrap8(old(self).registers@[vy as int] - old(self).registers@[vx as int] + 256),
            ).update(
                15,
                (if old(self).registers@[vy as int] >= old(self).registers@[vx as int] {
                    1u8
                } else {
                    0u8
                }),
            ),
    {
        let a = self.registers[vx as usize];
        let b = self.registers[vy as usize];
        self.registers[vx as usize] = (((b as u16 + 256) - a as u16) % 256) as u8;
        self.registers[0xF] = if b >= a {
            1
        } else {
            0
        };
    }

    /// `8xy6`: Vx := Vx >> 1; VF := the low bit of Vx before the shift. The
    /// flag write lands last.
    pub fn reg_shr(&mut self, vx: u8, _vy: u8)
        requires
            old(self).wf(),
            vx < NUM_REGS,
        ensures
            final(self).wf(),
            final(self).same_but_regs(*old(self)),
            final(self).registers@ == old(self).registers@.update(
                vx as int,
                (old(self).registers@[vx as int] / 2) as u8,
            ).update(15, (old(self).registers@[vx as int] % 2) as u8),
    {
        let a = self.registers[vx as usize];
        self.registers[vx as usize] = a / 2;
        self.registers[0xF] = a % 2;
    }

    /// `8xyE`: Vx := Vx << 1 wrapping; VF := the high bit of Vx before the
    /// shift, as 0 or 1. The flag write lands last.
    pub fn reg_shl(&mut self, vx: u8, _vy: u8)
        requires
            old(self).wf(),
            vx < NUM_REGS,
        ensures
            final(self).wf(),
            final(self).same_but_regs(*old(self)),
            final(self).registers@ == old(self).registers@.update(
                vx as int,
                wrap8(old(self).registers@[vx as int] * 2),
            ).update(15, (old(self).registers@[vx as int] / 128) as u8),
    {
        let a = self.registers[vx as usize];
        self.registers[vx as usize] = ((a as u16 * 2) % 256) as u8;
        self.registers[0xF] = a / 128;
    }

    /// `Bnnn`: PC := val + V0.
    pub fn jmp_v0(&mut self, val: u16)
        requires
            old(self).wf(),
            val + old(self).registers@[0] < 0x10000,
        ensures
            final(self).wf(),
            final(self).same_but_pc(*old(self)),
            final(self).pc == val + old(self).registers@[0],
    {
        self.pc = val + self.registers[0] as u16;
    }

    /// `Ex9E`: skip the next instruction when key Vx is held down. The key
    /// index must be a nibble; a larger register value is `OutOfBounds` at
    /// the dispatch level.
    pub fn keydown(&mut self, vx: u8)
        requires
            old(self).wf(),
            vx < NUM_REGS,
            old(self).registers@[vx as int] < NUM_KEYS,
            old(self).pc + 2 < 0x10000,
        ensures
            final(self).wf(),
            final(self).same_but_pc(*old(self)),
            final(self).pc == (if old(self).keypad@[old(self).registers@[vx as int] as int] {
                (old(self).pc + 2) as u16
            } else {
                old(self).pc
            }),
    {
        if self.keypad[self.registers[vx as usize] as usize] {
            self.pc = self.pc + 2;
        }
    }

    /// `ExA1`: skip the next instruction when key Vx is not held down. The
    /// key index must be a nibble; a larger register value is `OutOfBounds`
    /// at the dispatch level.
    pub fn key_not_down(&mut self, vx: u8)
        requires
            old(self).wf(),
            vx < NUM_REGS,
            old(self).registers@[vx as int] < NUM_KEYS,
            old(self).pc + 2 < 0x10000,
        ensures
            final(self).wf(),
            final(self).same_but_pc(*old(self)),
            final(self).pc == (if !old(self).keypad@[old(self).registers@[vx as int] as int] {
                (old(self).pc + 2) as u16
            } else {
                old(self).pc
            }),
    {
        if !self.keypad[self.registers[vx as usize] as usize] {
            self.pc = self.pc + 2;
        }
    }

    /// `Fx07`: Vx := delay timer.
    pub fn get_delay(&mut self, vx: u8)
        requires
            old(self).wf(),
            vx < NUM_REGS,
        ensures
            final(self).wf(),
            final(self).same_but_regs(*old(self)),
            final(self).registers@ == old(self).registers@.update(
                vx as int,
                old(self).delay_timer,
            ),
    {
        self.registers[vx as usize] = self.delay_timer;
    }

    /// `Fx15`: delay timer := Vx.
    pub fn set_delay(&mut self, vx: u8)
        requires
            old(self).wf(),
            vx < NUM_REGS,
        ensures
            final(self).wf(),
            final(self).same_but_timers(*old(self)),
            final(self).delay_timer == old(self).registers@[vx as int],
            final(self).sound_timer == old(self).sound_timer,
    {
        self.delay_timer = self.registers[vx as usize];
    }

    /// `Fx18`: sound timer := Vx.
    pub fn set_sound(&mut self, vx: u8)
        requires
            old(self).wf(),
            vx < NUM_REGS,
        ensures
            final(self).wf(),
            final(self).same_but_timers(*old(self)),
            final(self).sound_timer == old(self).registers@[vx as int],
            final(self).delay_timer == old(self).delay_timer,
    {
        self.sound_timer = self.registers[vx as usize];
    }

    /// `Fx1E`: I := I + Vx, 16-bit wrapping addition. VF is left untouched:
    /// the base instruction set does not define a flag here and this machine
    /// sets none.
    pub fn add_to_i(&mut self, vx: u8)
        requires
            old(self).wf(),
            vx < NUM_REGS,
        ensures
            final(self).wf(),
            final(self).same_but_index(*old(self)),
            final(self).index_register == wrap16(
                old(self).index_register + old(self).registers@[vx as int],
            ),
    {
        let s = self.index_register as u32 + self.registers[vx as usize] as u32;
        self.index_register = (s % 0x10000) as u16;
    }

    /// `Fx29`: I := the address of the built-in font glyph for digit Vx,
    /// five bytes per glyph starting at `FONT_OFFSET`.
    pub fn set_sprite(&mut self, vx: u8)
        requires
            old(self).wf(),
            vx < NUM_REGS,
        ensures
            final(self).wf(),
            final(self).same_but_index(*old(self)),
            final(self).index_register == FONT_OFFSET + 5 * old(self).registers@[vx as int],
    {
        self.index_register = (FONT_OFFSET as u16) + 5 * (self.registers[vx as usize] as u16);
    }

    /// `Fx55`: copy V0..Vx inclusive into memory starting at I. The whole
    /// destination must lie in memory; anything else is `OutOfBounds` at the
    /// dispatch level.
    pub fn fill_mem(&mut self, vx: u8)
        requires
            old(self).wf(),
            vx < NUM_REGS,
            old(self).index_register + vx < MEM_SIZE,
        ensures
            final(self).wf(),
            final(self).same_but_mem(*old(self)),
            forall|j: int|
                0 <= j <= vx ==> final(self).memory@[old(self).index_register + j]
                    == old(self).registers@[j],
            forall|j: int|
                0 <= j < MEM_SIZE && !(old(self).index_register <= j <= old(self).index_register
                    + vx) ==> final(self).memory@[j] == old(self).memory@[j],
    {
        let base = self.index_register as usize;
        let mut i: usize = 0;
        while i <= vx as usize
            invariant
                self.wf(),
                self.same_but_mem(*old(self)),
                base == old(self).index_register,
                vx < NUM_REGS,
                base + vx < MEM_SIZE,
                i <= vx + 1,
                forall|j: int| 0 <= j < i ==> self.memory@[base + j] == old(self).registers@[j],
                forall|j: int|
                    0 <= j < MEM_SIZE && !(base <= j < base + i) ==> self.memory@[j] == old(
                        self,
                    ).memory@[j],
            decreases vx + 1 - i,
        {
            self.memory[base + i] = self.registers[i];
            i = i + 1;
        }
    }

    /// `Fx65`: copy memory starting at I into V0..Vx inclusive. The whole
    /// source must lie in memory; anything else is `OutOfBounds` at the
    /// dispatch level.
    pub fn fill_reg(&mut self, vx: u8)
        requires
            old(self).wf(),
            vx < NUM_REGS,
            old(self).index_register + vx < MEM_SIZE,
        ensures
            final(self).wf(),
            final(self).same_but_regs(*old(self)),
            forall|j: int|
                0 <= j <= vx ==> final(self).registers@[j]
                    == old(self).memory@[old(self).index_register + j],
            forall|j: int|
                vx < j < NUM_REGS ==> final(self).registers@[j] == old(self).registers@[j],
    {
        let base = self.index_register as usize;
        let mut i: usize = 0;
        while i <= vx as usize
            invariant
                self.wf(),
                self.same_but_regs(*old(self)),
                base == old(self).index_register,
                vx < NUM_REGS,
                base + vx < MEM_SIZE,
                i <= vx + 1,
                forall|j: int| 0 <= j < i ==> self.registers@[j] == old(self).memory@[base + j],
                forall|j: int| i <= j < NUM_REGS ==> self.registers@[j] == old(self).registers@[j],
            decreases vx + 1 - i,
        {
            self.registers[i] = self.memory[base + i];
            i = i + 1;
        }
    }

    /// `Cxkk`: Vx := a byte from the random source, masked with kk. Nothing
    /// is assumed about the byte, so the contract promises only that some
    /// byte was masked in.
    pub fn vx_rand(&mut self, vx: u8, val: u8)
        requires
            old(self).wf(),
            vx < NUM_REGS,
        ensures
            final(self).wf(),
            final(self).same_but_regs(*old(self)),
            exists|b: u8| final(self).registers@ == old(self).registers@.update(
                vx as int,
                b & val,
            ),
    {
        let b = rand_byte();
        self.apply_rand(vx, val, b);
    }

    /// Mask a byte with the immediate and store it in Vx. The byte normally
    /// comes from the random source; the masking itself is exact, so a
    /// zero mask always stores zero.
    pub fn apply_rand(&mut self, vx: u8, val: u8, b: u8)
        requires
            old(self).wf(),
            vx < NUM_REGS,
        ensures
            final(self).wf(),
            final(self).same_but_regs(*old(self)),
            final(self).registers@ == old(self).registers@.update(vx as int, b & val),
    {
        self.registers[vx as usize] = b & val;
    }
}

/// Relies on rand::random for a uniformly drawn byte. A different byte may
/// come back on every call, so nothing is stated of the result.
#[verifier::external_body]
fn rand_byte() -> u8 {
    rand::random::<u8>()
}

} // verus!
