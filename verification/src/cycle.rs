use vstd::prelude::*;
use crate::decode::Instruction;
use crate::decode::decode;
use crate::decode::instr_operands_ok;
use crate::decode::lemma_decode_operands_ok;
use crate::decode::spec_decode;
use crate::draw::blank_display;
use crate::draw::spec_draw;
use crate::draw::spec_hit;
use crate::ops::wrap8;
use crate::ops::wrap16;
use crate::state::Chip8;
use crate::state::Chip8Error;
use crate::state::FONT_OFFSET;
use crate::state::MEM_SIZE;
use crate::state::NUM_KEYS;
use crate::state::STACK_SIZE;

verus! {

/// What executing one decoded instruction does to the state, as the
/// semantics table says: `pre` is the state the dispatcher hands over (the
/// program counter already moved past the fetched word), `post` the state
/// after, `r` the verdict. Every arithmetic flag is written on every
/// arithmetic instruction, never left stale; the flag write lands last, so
/// for x = 0xF the flag prevails.
pub open spec fn execute_rel(
    pre: Chip8,
    instr: Instruction,
    post: Chip8,
    r: Result<(), Chip8Error>,
) -> bool {
    match instr {
        Instruction::Cls => r == Ok::<(), Chip8Error>(()) && post.same_but_display(pre)
            && post.display@ == blank_display(),
        Instruction::Ret => if pre.sp == 0 {
            r == Err::<(), Chip8Error>(Chip8Error::StackUnderflow) && post.all_same(pre)
        } else {
            r == Ok::<(), Chip8Error>(()) && post.same_but_sp_pc(pre) && post.sp == pre.sp - 1
                && post.pc == pre.stack@[pre.sp - 1]
        },
        Instruction::Sys(_nnn) => r == Ok::<(), Chip8Error>(()) && post.all_same(pre),
        Instruction::Jump(nnn) => r == Ok::<(), Chip8Error>(()) && post.same_but_pc(pre)
            && post.pc == nnn,
        Instruction::Call(nnn) => if pre.sp >= STACK_SIZE {
            r == Err::<(), Chip8Error>(Chip8Error::StackOverflow) && post.all_same(pre)
        } else {
            r == Ok::<(), Chip8Error>(()) && post.same_but_stack_sp_pc(pre) && post.stack@
                == pre.stack@.update(pre.sp as int, pre.pc) && post.sp == pre.sp + 1 && post.pc
                == nnn
        },
        Instruction::SkipEqImm(x, kk) => r == Ok::<(), Chip8Error>(()) && post.same_but_pc(pre)
            && post.pc == (if pre.registers@[x as int] == kk {
            (pre.pc + 2) as u16
        } else {
            pre.pc
        }),
        Instruction::SkipNeImm(x, kk) => r == Ok::<(), Chip8Error>(()) && post.same_but_pc(pre)
            && post.pc == (if pre.registers@[x as int] != kk {
            (pre.pc + 2) as u16
        } else {
            pre.pc
        }),
        Instruction::SkipEqReg(x, y) => r == Ok::<(), Chip8Error>(()) && post.same_but_pc(pre)
            && post.pc == (if pre.registers@[x as int] == pre.registers@[y as int] {
            (pre.pc + 2) as u16
        } else {
            pre.pc
        }),
        Instruction::SetImm(x, kk) => r == Ok::<(), Chip8Error>(()) && post.same_but_regs(pre)
            && post.registers@ == pre.registers@.update(x as int, kk),
        Instruction::AddImm(x, kk) => r == Ok::<(), Chip8Error>(()) && post.same_but_regs(pre)
            && post.registers@ == pre.registers@.update(
            x as int,
            wrap8(pre.registers@[x as int] + kk),
        ),
        Instruction::CopyReg(x, y) => r == Ok::<(), Chip8Error>(()) && post.same_but_regs(pre)
            && post.registers@ == pre.registers@.update(x as int, pre.registers@[y as int]),
        Instruction::OrReg(x, y) => r == Ok::<(), Chip8Error>(()) && post.same_but_regs(pre)
            && post.registers@ == pre.registers@.update(
            x as int,
            pre.registers@[x as int] | pre.registers@[y as int],
        ),
        Instruction::AndReg(x, y) => r == Ok::<(), Chip8Error>(()) && post.same_but_regs(pre)
            && post.registers@ == pre.registers@.update(
            x as int,
            pre.registers@[x as int] & pre.registers@[y as int],
        ),
        Instruction::XorReg(x, y) => r == Ok::<(), Chip8Error>(()) && post.same_but_regs(pre)
            && post.registers@ == pre.registers@.update(
            x as int,
            pre.registers@[x as int] ^ pre.registers@[y as int],
        ),
        Instruction::AddReg(x, y) => r == Ok::<(), Chip8Error>(()) && post.same_but_regs(pre)
            && post.registers@ == pre.registers@.update(
            x as int,
            wrap8(pre.registers@[x as int] + pre.registers@[y as int]),
        ).update(
            15,
            (if pre.registers@[x as int] + pre.registers@[y as int] > 255 {
                1u8
            } else {
                0u8
            }),
        ),
        Instruction::SubReg(x, y) => r == Ok::<(), Chip8Error>(()) && post.same_but_regs(pre)
            && post.registers@ == pre.registers@.update(
            x as int,
            wrap8(pre.registers@[x as int] - pre.registers@[y as int] + 256),
        ).update(
            15,
            (if pre.registers@[x as int] >= pre.registers@[y as int] {
                1u8
            } else {
                0u8
            }),
        ),
        Instruction::ShrReg(x, _y) => r == Ok::<(), Chip8Error>(()) && post.same_but_regs(pre)
            && post.registers@ == pre.registers@.update(
            x as int,
            (pre.registers@[x as int] / 2) as u8,
        ).update(15, (pre.registers@[x as int] % 2) as u8),
        Instruction::SubInvReg(x, y) => r == Ok::<(), Chip8Error>(()) && post.same_but_regs(pre)
            && post.registers@ == pre.registers@.update(
            x as int,
            wrap8(pre.registers@[y as int] - pre.registers@[x as int] + 256),
        ).update(
            15,
            (if pre.registers@[y as int] >= pre.registers@[x as int] {
                1u8
            } else {
                0u8
            }),
        ),
        Instruction::ShlReg(x, _y) => r == Ok::<(), Chip8Error>(()) && post.same_but_regs(pre)
            && post.registers@ == pre.registers@.update(
            x as int,
            wrap8(pre.registers@[x as int] * 2),
        ).update(15, (pre.registers@[x as int] / 128) as u8),
        Instruction::SkipNeReg(x, y) => r == Ok::<(), Chip8Error>(()) && post.same_but_pc(pre)
            && post.pc == (if pre.registers@[x as int] != pre.registers@[y as int] {
            (pre.pc + 2) as u16
        } else {
            pre.pc
        }),
        Instruction::SetIndex(nnn) => r == Ok::<(), Chip8Error>(()) && post.same_but_index(pre)
            && post.index_register == nnn,
        Instruction::JumpV0(nnn) => r == Ok::<(), Chip8Error>(()) && post.same_but_pc(pre)
            && post.pc == nnn + pre.registers@[0],
        Instruction::Rand(x, kk) => r == Ok::<(), Chip8Error>(()) && post.same_but_regs(pre) && (
        exists|b: u8| post.registers@ == pre.registers@.update(x as int, b & kk)),
        Instruction::Draw(x, y, n) => if pre.index_register + n > MEM_SIZE {
            r == Err::<(), Chip8Error>(Chip8Error::OutOfBounds) && post.all_same(pre)
        } else {
            r == Ok::<(), Chip8Error>(()) && post.same_but_display_regs(pre) && post.display@
                == spec_draw(
                pre.display@,
                pre.memory@.subrange(pre.index_register as int, pre.index_register + n),
                pre.registers@[x as int] as int,
                pre.registers@[y as int] as int,
            ) && post.registers@ == pre.registers@.update(
                15,
                (if spec_hit(
                    pre.display@,
                    pre.memory@.subrange(pre.index_register as int, pre.index_register + n),
                    pre.registers@[x as int] as int,
                    pre.registers@[y as int] as int,
                ) {
                    1u8
                } else {
                    0u8
                }),
            )
        },
        Instruction::SkipKey(x) => if pre.registers@[x as int] >= NUM_KEYS {
            r == Err::<(), Chip8Error>(Chip8Error::OutOfBounds) && post.all_same(pre)
        } else {
            r == Ok::<(), Chip8Error>(()) && post.same_but_pc(pre) && post.pc == (if pre.keypad@[
                pre.registers@[x as int] as int
            ] {
                (pre.pc + 2) as u16
            } else {
                pre.pc
            })
        },
        Instruction::SkipNoKey(x) => if pre.registers@[x as int] >= NUM_KEYS {
            r == Err::<(), Chip8Error>(Chip8Error::OutOfBounds) && post.all_same(pre)
        } else {
            r == Ok::<(), Chip8Error>(()) && post.same_but_pc(pre) && post.pc == (if !pre.keypad@[
                pre.registers@[x as int] as int
            ] {
                (pre.pc + 2) as u16
            } else {
                pre.pc
            })
        },
        Instruction::GetDelay(x) => r == Ok::<(), Chip8Error>(()) && post.same_but_regs(pre)
            && post.registers@ == pre.registers@.update(x as int, pre.delay_timer),
        Instruction::SetDelay(x) => r == Ok::<(), Chip8Error>(()) && post.same_but_timers(pre)
            && post.delay_timer == pre.registers@[x as int] && post.sound_timer == pre.sound_timer,
        Instruction::SetSound(x) => r == Ok::<(), Chip8Error>(()) && post.same_but_timers(pre)
            && post.sound_timer == pre.registers@[x as int] && post.delay_timer == pre.delay_timer,
        Instruction::AddIndex(x) => r == Ok::<(), Chip8Error>(()) && post.same_but_index(pre)
            && post.index_register == wrap16(pre.index_register + pre.registers@[x as int]),
        Instruction::FontAddr(x) => r == Ok::<(), Chip8Error>(()) && post.same_but_index(pre)
            && post.index_register == FONT_OFFSET + 5 * pre.registers@[x as int],
        Instruction::StoreRegs(x) => if pre.index_register + x >= MEM_SIZE {
            r == Err::<(), Chip8Error>(Chip8Error::OutOfBounds) && post.all_same(pre)
        } else {
            r == Ok::<(), Chip8Error>(()) && post.same_but_mem(pre) && (forall|j: int|
                0 <= j <= x ==> post.memory@[pre.index_register + j] == pre.registers@[j]) && (
            forall|j: int|
                0 <= j < MEM_SIZE && !(pre.index_register <= j <= pre.index_register + x)
                    ==> post.memory@[j] == pre.memory@[j])
        },
        Instruction::LoadRegs(x) => if pre.index_register + x >= MEM_SIZE {
            r == Err::<(), Chip8Error>(Chip8Error::OutOfBounds) && post.all_same(pre)
        } else {
            r == Ok::<(), Chip8Error>(()) && post.same_but_regs(pre) && (forall|j: int|
                0 <= j <= x ==> post.registers@[j] == pre.memory@[pre.index_register + j]) && (
            forall|j: int|
                x < j < 16 ==> post.registers@[j] == pre.registers@[j])
        },
    }
}

/// The state as the dispatcher sees it: the program counter has already
/// moved past the fetched word.
pub open spec fn after_fetch(pre: Chip8) -> Chip8 {
    Chip8 { pc: (pre.pc + 2) as u16, ..pre }
}

/// The instruction word at PC: high byte first.
pub open spec fn spec_fetch_word(pre: Chip8) -> u16 {
    (pre.memory@[pre.pc as int] * 256 + pre.memory@[pre.pc as int + 1]) as u16
}

/// What one whole step does: fetch the word at PC (both bytes must lie in
/// memory), advance PC by 2 before dispatch, decode, execute. A word that
/// matches no pattern halts with `UnknownOpcode`, leaving only the advanced
/// PC behind; a PC at the end of memory halts with `OutOfBounds`, leaving
/// everything behind.
pub open spec fn step_rel(pre: Chip8, post: Chip8, r: Result<(), Chip8Error>) -> bool {
    if pre.pc + 1 >= MEM_SIZE {
        r == Err::<(), Chip8Error>(Chip8Error::OutOfBounds) && post.all_same(pre)
    } else {
        match spec_decode(spec_fetch_word(pre)) {
            Option::None => r == Err::<(), Chip8Error>(
                Chip8Error::UnknownOpcode(spec_fetch_word(pre)),
            ) && post.all_same(after_fetch(pre)),
            Option::Some(i) => execute_rel(after_fetch(pre), i, post, r),
        }
    }
}

impl Chip8 {
    /// Fetch the 16-bit instruction word at PC (high byte first) and
    /// advance PC by 2, so instructions that set PC do so relative to the
    /// next address.
    pub fn fetch(&mut self) -> (op: u16)
        requires
            old(self).wf(),
            old(self).pc + 1 < MEM_SIZE,
        ensures
            final(self).wf(),
            final(self).same_but_pc(*old(self)),
            final(self).pc == old(self).pc + 2,
            op == spec_fetch_word(*old(self)),
    {
        let hi = self.memory[self.pc as usize];
        let lo = self.memory[self.pc as usize + 1];
        self.pc = self.pc + 2;
        (hi as u16) * 256 + (lo as u16)
    }

    /// Dispatch one decoded instruction to its handler, exactly as
    /// `execute_rel` says. The dispatcher tests the stack, memory and
    /// keypad bounds first and reports the matching error with the state
    /// untouched.
    pub fn execute(&mut self, instr: Instruction) -> (r: Result<(), Chip8Error>)
        requires
            old(self).wf(),
            instr_operands_ok(instr),
            old(self).pc + 2 < 0x10000,
        ensures
            final(self).wf(),
            execute_rel(*old(self), instr, *final(self), r),
    {
        match instr {
            Instruction::Cls => {
                self.cls();
                Ok(())
            },
            Instruction::Ret => {
                if self.sp == 0 {
                    Err(Chip8Error::StackUnderflow)
                } else {
                    self.ret();
                    Ok(())
                }
            },
            Instruction::Sys(nnn) => {
                self.call(nnn);
                Ok(())
            },
            Instruction::Jump(nnn) => {
                self.jmp(nnn);
                Ok(())
            },
            Instruction::Call(nnn) => {
                if self.sp as usize >= STACK_SIZE {
                    Err(Chip8Error::StackOverflow)
                } else {
                    self.call_sub(nnn);
                    Ok(())
                }
            },
            Instruction::SkipEqImm(x, kk) => {
                self.eq(x, kk);
                Ok(())
            },
            Instruction::SkipNeImm(x, kk) => {
                self.ne(x, kk);
                Ok(())
            },
            Instruction::SkipEqReg(x, y) => {
                self.reg_eq(x, y);
                Ok(())
            },
            Instruction::SetImm(x, kk) => {
                self.set_reg(x, kk);
                Ok(())
            },
            Instruction::AddImm(x, kk) => {
                self.add_reg(x, kk);
                Ok(())
            },
            Instruction::CopyReg(x, y) => {
                self.reg_cp(x, y);
                Ok(())
            },
            Instruction::OrReg(x, y) => {
                self.reg_or(x, y);
                Ok(())
            },
            Instruction::AndReg(x, y) => {
                self.reg_and(x, y);
                Ok(())
            },
            Instruction::XorReg(x, y) => {
                self.vxor(x, y);
                Ok(())
            },
            Instruction::AddReg(x, y) => {
                self.reg_add(x, y);
                Ok(())
            },
            Instruction::SubReg(x, y) => {
                self.reg_sub(x, y);
                Ok(())
            },
            Instruction::ShrReg(x, y) => {
                self.reg_shr(x, y);
                Ok(())
            },
            Instruction::SubInvReg(x, y) => {
                self.reg_sub_inv(x, y);
                Ok(())
            },
            Instruction::ShlReg(x, y) => {
                self.reg_shl(x, y);
                Ok(())
            },
            Instruction::SkipNeReg(x, y) => {
                self.jne(x, y);
                Ok(())
            },
            Instruction::SetIndex(nnn) => {
                self.set_index(nnn);
                Ok(())
            },
            Instruction::JumpV0(nnn) => {
                self.jmp_v0(nnn);
                Ok(())
            },
            Instruction::Rand(x, kk) => {
                self.vx_rand(x, kk);
                Ok(())
            },
            Instruction::Draw(x, y, n) => {
                if self.index_register as usize + n as usize > MEM_SIZE {
                    Err(Chip8Error::OutOfBounds)
                } else {
                    self.draw(x, y, n);
                    Ok(())
                }
            },
            Instruction::SkipKey(x) => {
                if self.registers[x as usize] as usize >= NUM_KEYS {
                    Err(Chip8Error::OutOfBounds)
                } else {
                    self.keydown(x);
                    Ok(())
                }
            },
            Instruction::SkipNoKey(x) => {
                if self.registers[x as usize] as usize >= NUM_KEYS {
                    Err(Chip8Error::OutOfBounds)
                } else {
                    self.key_not_down(x);
                    Ok(())
                }
            },
            Instruction::GetDelay(x) => {
                self.get_delay(x);
                Ok(())
            },
            Instruction::SetDelay(x) => {
                self.set_delay(x);
                Ok(())
            },
            Instruction::SetSound(x) => {
                self.set_sound(x);
                Ok(())
            },
            Instruction::AddIndex(x) => {
                self.add_to_i(x);
                Ok(())
            },
            Instruction::FontAddr(x) => {
                self.set_sprite(x);
                Ok(())
            },
            Instruction::StoreRegs(x) => {
                if self.index_register as usize + x as usize >= MEM_SIZE {
                    Err(Chip8Error::OutOfBounds)
                } else {
                    self.fill_mem(x);
                    Ok(())
                }
            },
            Instruction::LoadRegs(x) => {
                if self.index_register as usize + x as usize >= MEM_SIZE {
                    Err(Chip8Error::OutOfBounds)
                } else {
                    self.fill_reg(x);
                    Ok(())
                }
            },
        }
    }

    /// One fetch-decode-execute step, exactly as `step_rel` says.
    pub fn step(&mut self) -> (r: Result<(), Chip8Error>)
        requires
            old(self).wf(),
        ensures
            final(self).wf(),
            step_rel(*old(self), *final(self), r),
    {
        if self.pc as usize + 1 >= MEM_SIZE {
            return Err(Chip8Error::OutOfBounds);
        }
        let op = self.fetch();
        proof {
            assert(*self =~= after_fetch(*old(self)));
        }
        match decode(op) {
            Option::None => Err(Chip8Error::UnknownOpcode(op)),
            Option::Some(i) => {
                proof {
                    lemma_decode_operands_ok(op);
                }
                self.execute(i)
            },
        }
    }
}

/// Executing `6xkk` leaves exactly kk in Vx, whatever Vx held before.
pub proof fn lemma_set_imm_reads_back(pre: Chip8, x: u8, kk: u8, post: Chip8)
    requires
        pre.wf(),
        x < 16,
        execute_rel(pre, Instruction::SetImm(x, kk), post, Ok(())),
    ensures
        post.registers@[x as int] == kk,
{
}

/// A call followed immediately by a return: the return lands on the very
/// address the call saved (the instruction after the call, since fetch had
/// already advanced PC), and the stack pointer is back at its pre-call
/// value; only the now-vacated stack slot keeps the saved address.
pub proof fn lemma_call_ret_roundtrip(pre: Chip8, nnn: u16, mid: Chip8, post: Chip8)
    requires
        pre.wf(),
        pre.sp < STACK_SIZE,
        execute_rel(pre, Instruction::Call(nnn), mid, Ok(())),
        execute_rel(mid, Instruction::Ret, post, Ok(())),
    ensures
        post.pc == pre.pc,
        post.sp == pre.sp,
        post.same_but_stack_sp_pc(pre),
        post.stack@ == pre.stack@.update(pre.sp as int, pre.pc),
{
    assert(mid.sp == pre.sp + 1);
    assert(post.pc == mid.stack@[pre.sp as int]);
}

} // verus!
