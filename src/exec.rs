use vstd::prelude::*;
use crate::alu::{add_with_carry, subtract_with_flag};
use crate::machine::{VirtualMachine, VmError, VmState};
use crate::ops::Operation;
use crate::semantics::{
    advance, apply, draw_origin, draw_spec, dump_spec, rows_on_screen, sprite_covers, index_after_transfer, load_spec, logic_result, released,
    first_released_from, set_reg, set_reg_flag, skip_when, wrap16,
};

verus! {

/// `new` and `res` agree: on success `new` is the resulting state, on failure `r`
/// carries the error and nothing changed.
pub open spec fn applied(
    old: VmState,
    new: VmState,
    r: Result<(), VmError>,
    res: Result<VmState, VmError>,
) -> bool {
    match res {
        Ok(t) => r is Ok && new == t,
        Err(e) => r == Err::<(), VmError>(e) && new == old,
    }
}

/// Whether screen cell `p` comes before column `col` of sprite row `row` in drawing
/// order, for a sprite drawn at column `x0` and row `y0`.
spec fn drawn_before(x0: int, y0: int, row: int, col: int, p: int) -> bool {
    p / 64 - y0 < row || (p / 64 - y0 == row && p % 64 - x0 < col)
}

proof fn lemma_first_released_skip(s: VmState, k: int)
    requires
        0 <= k <= 16,
        forall|j: int| 0 <= j < k ==> !released(s, j),
    ensures
        first_released_from(s, 0) == first_released_from(s, k),
    decreases k,
{
    if k > 0 {
        lemma_first_released_skip(s, k - 1);
    }
}

impl VirtualMachine {
    pub(crate) fn advance_pc(&mut self, by: u16)
        requires
            by == 2 || by == 4,
        ensures
            *final(self) == (VirtualMachine { pc: final(self).pc, ..*old(self) }),
            final(self).pc == wrap16(old(self).pc + by),
    {
        self.pc = self.pc.wrapping_add(by);
    }

    /// 0nnn: ignored.
    pub(crate) fn call_routine(&mut self, _nnn: u16)
        requires
            old(self).wf(),
        ensures
            final(self).wf(),
            final(self)@ == advance(old(self)@, 2),
    {
        self.advance_pc(2);
    }

    /// 00E0: clears the screen.
    pub(crate) fn clear_display(&mut self)
        requires
            old(self).wf(),
        ensures
            final(self).wf(),
            forall|p: int| 0 <= p < 2048 ==> !final(self).fb@[p],
            apply(old(self)@, Operation::ClearDisplay, 0) == Ok::<VmState, VmError>(final(self)@),
    {
        let mut p: usize = 0;
        while p < 2048
            invariant
                p <= 2048,
                forall|q: int| 0 <= q < p ==> !self.fb@[q],
                *self == (VirtualMachine { fb: self.fb, ..*old(self) }),
            decreases 2048 - p,
        {
            self.fb[p] = false;
            p += 1;
        }
        self.advance_pc(2);
        assert(self@.fb =~= Seq::new(2048, |p: int| false));
    }

    /// 00EE: returns to the instruction after the most recent call.
    pub(crate) fn subroutine_return(&mut self) -> (r: Result<(), VmError>)
        requires
            old(self).wf(),
        ensures
            final(self).wf(),
            applied(old(self)@, final(self)@, r, apply(old(self)@, Operation::SubroutineReturn, 0)),
    {
        if self.sp == 0 {
            return Err(VmError::StackUnderflow);
        }
        let top = self.stack[self.sp - 1];
        self.sp = self.sp - 1;
        self.pc = top.wrapping_add(2);
        assert(self@.stack =~= old(self)@.stack.drop_last());
        Ok(())
    }

    /// 1nnn: jumps to nnn.
    pub(crate) fn jump_to_nnn(&mut self, nnn: u16)
        requires
            old(self).wf(),
        ensures
            final(self).wf(),
            apply(old(self)@, Operation::JumpToNnn { nnn }, 0) == Ok::<VmState, VmError>(final(self)@),
    {
        self.pc = nnn;
    }

    /// 2nnn: pushes the program counter and jumps to nnn.
    pub(crate) fn call_subroutine(&mut self, nnn: u16) -> (r: Result<(), VmError>)
        requires
            old(self).wf(),
        ensures
            final(self).wf(),
            applied(old(self)@, final(self)@, r, apply(old(self)@, Operation::CallSubroutine { nnn }, 0)),
    {
        if self.sp >= 16 {
            return Err(VmError::StackOverflow);
        }
        self.stack[self.sp] = self.pc;
        self.sp = self.sp + 1;
        self.pc = nnn;
        assert(self@.stack =~= old(self)@.stack.push(old(self).pc));
        Ok(())
    }

    /// Skips the next instruction when `cond` holds.
    pub(crate) fn skip_if(&mut self, cond: bool)
        requires
            old(self).wf(),
        ensures
            final(self).wf(),
            final(self)@ == skip_when(old(self)@, cond),
    {
        if cond {
            self.advance_pc(4);
        } else {
            self.advance_pc(2);
        }
    }

    /// 3xnn: skips the next instruction if Vx == nn.
    pub(crate) fn skip_if_eq_nn(&mut self, x: u8, nn: u8)
        requires
            old(self).wf(),
            x < 16,
        ensures
            final(self).wf(),
            apply(old(self)@, Operation::SkipIfEqNn { x, nn }, 0) == Ok::<VmState, VmError>(final(self)@),
    {
        let cond = self.v[x as usize] == nn;
        self.skip_if(cond);
    }

    /// 4xnn: skips the next instruction if Vx != nn.
    pub(crate) fn skip_if_neq_nn(&mut self, x: u8, nn: u8)
        requires
            old(self).wf(),
            x < 16,
        ensures
            final(self).wf(),
            apply(old(self)@, Operation::SkipIfNeqNn { x, nn }, 0) == Ok::<VmState, VmError>(final(self)@),
    {
        let cond = self.v[x as usize] != nn;
        self.skip_if(cond);
    }

    /// 5xy0: skips the next instruction if Vx == Vy.
    pub(crate) fn skip_if_eq(&mut self, x: u8, y: u8)
        requires
            old(self).wf(),
            x < 16,
            y < 16,
        ensures
            final(self).wf(),
            apply(old(self)@, Operation::SkipIfEq { x, y }, 0) == Ok::<VmState, VmError>(final(self)@),
    {
        let cond = self.v[x as usize] == self.v[y as usize];
        self.skip_if(cond);
    }

    /// Sets Vx and moves on.
    pub(crate) fn write_register(&mut self, x: u8, val: u8)
        requires
            old(self).wf(),
            x < 16,
        ensures
            final(self).wf(),
            final(self)@ == set_reg(old(self)@, x, val),
    {
        self.v[x as usize] = val;
        self.advance_pc(2);
    }

    /// Sets Vx, then VF, and moves on.
    pub(crate) fn write_register_and_flag(&mut self, x: u8, val: u8, flag: u8)
        requires
            old(self).wf(),
            x < 16,
        ensures
            final(self).wf(),
            final(self)@ == set_reg_flag(old(self)@, x, val, flag),
    {
        self.v[x as usize] = val;
        self.v[15] = flag;
        self.advance_pc(2);
    }

    /// Sets Vx to the result of a bitwise operation; VF is reset under the logic quirk.
    pub(crate) fn write_logic_result(&mut self, x: u8, val: u8)
        requires
            old(self).wf(),
            x < 16,
        ensures
            final(self).wf(),
            final(self)@ == logic_result(old(self)@, x, val),
    {
        if self.settings.or_and_xor_quirk {
            self.write_register_and_flag(x, val, 0);
        } else {
            self.write_register(x, val);
        }
    }

    /// 6xnn: Vx = nn.
    pub(crate) fn set_vx_to_nn(&mut self, x: u8, nn: u8)
        requires
            old(self).wf(),
            x < 16,
        ensures
            final(self).wf(),
            apply(old(self)@, Operation::SetVxToNn { x, nn }, 0) == Ok::<VmState, VmError>(final(self)@),
    {
        self.write_register(x, nn);
    }

    /// 7xnn: Vx += nn, wrapping; VF untouched.
    pub(crate) fn add_nn_to_vx(&mut self, x: u8, nn: u8)
        requires
            old(self).wf(),
            x < 16,
        ensures
            final(self).wf(),
            apply(old(self)@, Operation::AddNnToVx { x, nn }, 0) == Ok::<VmState, VmError>(final(self)@),
    {
        let (sum, _carry) = add_with_carry(self.v[x as usize], nn);
        self.write_register(x, sum);
    }

    /// 8xy0: Vx = Vy.
    pub(crate) fn clone(&mut self, x: u8, y: u8)
        requires
            old(self).wf(),
            x < 16,
            y < 16,
        ensures
            final(self).wf(),
            apply(old(self)@, Operation::Clone { x, y }, 0) == Ok::<VmState, VmError>(final(self)@),
    {
        let val = self.v[y as usize];
        self.write_register(x, val);
    }

    /// 8xy1: Vx |= Vy.
    pub(crate) fn or(&mut self, x: u8, y: u8)
        requires
            old(self).wf(),
            x < 16,
            y < 16,
        ensures
            final(self).wf(),
            apply(old(self)@, Operation::Or { x, y }, 0) == Ok::<VmState, VmError>(final(self)@),
    {
        let val = self.v[x as usize] | self.v[y as usize];
        self.write_logic_result(x, val);
    }

    /// 8xy2: Vx &= Vy.
    pub(crate) fn and(&mut self, x: u8, y: u8)
        requires
            old(self).wf(),
            x < 16,
            y < 16,
        ensures
            final(self).wf(),
            apply(old(self)@, Operation::And { x, y }, 0) == Ok::<VmState, VmError>(final(self)@),
    {
        let val = self.v[x as usize] & self.v[y as usize];
        self.write_logic_result(x, val);
    }

    /// 8xy3: Vx ^= Vy.
    pub(crate) fn xor(&mut self, x: u8, y: u8)
        requires
            old(self).wf(),
            x < 16,
            y < 16,
        ensures
            final(self).wf(),
            apply(old(self)@, Operation::Xor { x, y }, 0) == Ok::<VmState, VmError>(final(self)@),
    {
        let val = self.v[x as usize] ^ self.v[y as usize];
        self.write_logic_result(x, val);
    }

    /// 8xy4: Vx += Vy; VF = 1 on overflow, else 0.
    pub(crate) fn add(&mut self, x: u8, y: u8)
        requires
            old(self).wf(),
            x < 16,
            y < 16,
        ensures
            final(self).wf(),
            apply(old(self)@, Operation::Add { x, y }, 0) == Ok::<VmState, VmError>(final(self)@),
    {
        let (sum, carry) = add_with_carry(self.v[x as usize], self.v[y as usize]);
        self.write_register_and_flag(x, sum, carry);
    }

    /// 8xy5: Vx -= Vy; VF = 1 when no borrow occurs, else 0.
    pub(crate) fn subtract_vy_from_vx(&mut self, x: u8, y: u8)
        requires
            old(self).wf(),
            x < 16,
            y < 16,
        ensures
            final(self).wf(),
            apply(old(self)@, Operation::SubtractVyFromVx { x, y }, 0) == Ok::<VmState, VmError>(
                final(self)@,
            ),
    {
        let (diff, flag) = subtract_with_flag(self.v[x as usize], self.v[y as usize]);
        self.write_register_and_flag(x, diff, flag);
    }

    /// 8xy6: shifts Vy (Vx under the shift quirk) right by one into Vx; VF = the bit
    /// shifted out.
    pub(crate) fn shift_right(&mut self, x: u8, y: u8)
        requires
            old(self).wf(),
            x < 16,
            y < 16,
        ensures
            final(self).wf(),
            apply(old(self)@, Operation::ShiftRight { x, y }, 0) == Ok::<VmState, VmError>(final(self)@),
    {
        let src = if self.settings.shift_quirk {
            self.v[x as usize]
        } else {
            self.v[y as usize]
        };
        self.write_register_and_flag(x, src / 2, src % 2);
    }

    /// 8xy7: Vx = Vy - Vx; VF = 1 when no borrow occurs, else 0.
    pub(crate) fn subtract_vx_from_vy(&mut self, x: u8, y: u8)
        requires
            old(self).wf(),
            x < 16,
            y < 16,
        ensures
            final(self).wf(),
            apply(old(self)@, Operation::SubtractVxFromVy { x, y }, 0) == Ok::<VmState, VmError>(
                final(self)@,
            ),
    {
        let (diff, flag) = subtract_with_flag(self.v[y as usize], self.v[x as usize]);
        self.write_register_and_flag(x, diff, flag);
    }

    /// 8xyE: shifts Vy (Vx under the shift quirk) left by one into Vx; VF = the bit
    /// shifted out.
    pub(crate) fn shift_left(&mut self, x: u8, y: u8)
        requires
            old(self).wf(),
            x < 16,
            y < 16,
        ensures
            final(self).wf(),
            apply(old(self)@, Operation::ShiftLeft { x, y }, 0) == Ok::<VmState, VmError>(final(self)@),
    {
        let src = if self.settings.shift_quirk {
            self.v[x as usize]
        } else {
            self.v[y as usize]
        };
        let shifted: u8 = ((src as u16 * 2) % 256) as u8;
        self.write_register_and_flag(x, shifted, src / 128);
    }

    /// 9xy0: skips the next instruction if Vx != Vy.
    pub(crate) fn skip_if_neq(&mut self, x: u8, y: u8)
        requires
            old(self).wf(),
            x < 16,
            y < 16,
        ensures
            final(self).wf(),
            apply(old(self)@, Operation::SkipIfNeq { x, y }, 0) == Ok::<VmState, VmError>(final(self)@),
    {
        let cond = self.v[x as usize] != self.v[y as usize];
        self.skip_if(cond);
    }

    /// Annn: I = nnn.
    pub(crate) fn set_i_to_nnn(&mut self, nnn: u16)
        requires
            old(self).wf(),
        ensures
            final(self).wf(),
            apply(old(self)@, Operation::SetIToNnn { nnn }, 0) == Ok::<VmState, VmError>(final(self)@),
    {
        self.i = nnn;
        self.advance_pc(2);
    }

    /// Bnnn: jumps to nnn + V0, or nnn + V[nnn >> 8] under the jump quirk.
    pub(crate) fn jump_to_v0_plus_nnn(&mut self, nnn: u16)
        requires
            old(self).wf(),
            nnn < 4096,
        ensures
            final(self).wf(),
            apply(old(self)@, Operation::JumpToV0PlusNnn { nnn }, 0) == Ok::<VmState, VmError>(
                final(self)@,
            ),
    {
        let r: usize = if self.settings.jump_offset_quirk {
            (nnn / 256) as usize
        } else {
            0
        };
        self.pc = nnn + self.v[r] as u16;
    }

    /// Cxnn: Vx = `random` AND nn.
    pub(crate) fn random_and_nn(&mut self, x: u8, nn: u8, random: u8)
        requires
            old(self).wf(),
            x < 16,
        ensures
            final(self).wf(),
            apply(old(self)@, Operation::RandomAndNn { x, nn }, random) == Ok::<VmState, VmError>(
                final(self)@,
            ),
    {
        self.write_register(x, random & nn);
    }

    /// Dxyn: XORs the n-row sprite stored at I onto the screen at (Vx, Vy), clipping
    /// at the right and bottom edges; VF = 1 if an on-pixel was turned off, else 0.
    pub(crate) fn draw_sprite(&mut self, x: u8, y: u8, n: u8) -> (r: Result<(), VmError>)
        requires
            old(self).wf(),
            x < 16,
            y < 16,
            n < 16,
        ensures
            final(self).wf(),
            applied(old(self)@, final(self)@, r, apply(old(self)@, Operation::DrawSprite { x, y, n }, 0)),
    {
        let ghost s = self@;
        let (x0, y0): (usize, usize) = if self.settings.sprite_wrapping_quirk {
            ((self.v[x as usize] % 64) as usize, (self.v[y as usize] % 32) as usize)
        } else {
            (self.v[x as usize] as usize, self.v[y as usize] as usize)
        };
        let rows: usize = if y0 >= 32 {
            0
        } else if y0 + n as usize > 32 {
            32 - y0
        } else {
            n as usize
        };
        let i = self.i as usize;
        if i + rows > 4096 {
            return Err(VmError::MemoryOutOfBounds);
        }
        assert((x0 as int, y0 as int) == draw_origin(s, x, y));
        assert(rows as int == rows_on_screen(y0 as int, n as int));
        let mut collision = false;
        let mut row: usize = 0;
        while row < rows
            invariant
                s == old(self)@,
                row <= rows,
                rows <= 32,
                rows > 0 ==> y0 + rows <= 32,
                x0 < 256,
                i == s.i,
                i + rows <= 4096,
                rows as int == rows_on_screen(y0 as int, n as int),
                (x0 as int, y0 as int) == draw_origin(s, x, y),
                *self == (VirtualMachine { fb: self.fb, ..*old(self) }),
                forall|p: int|
                    0 <= p < 2048 ==> self.fb@[p] == (s.fb[p] != (sprite_covers(
                        s,
                        x0 as int,
                        y0 as int,
                        rows as int,
                        p,
                    ) && drawn_before(x0 as int, y0 as int, row as int, 0, p))),
                collision == exists|p: int|
                    0 <= p < 2048 && #[trigger] sprite_covers(s, x0 as int, y0 as int, rows as int, p)
                        && drawn_before(x0 as int, y0 as int, row as int, 0, p) && s.fb[p],
            decreases rows - row,
        {
            let byte = self.mem[i + row];
            let mut col: usize = 0;
            while col < 8 && x0 + col < 64
                invariant
                    s == old(self)@,
                    row < rows,
                    rows <= 32,
                    y0 + rows <= 32,
                    x0 < 256,
                    col <= 8,
                    i == s.i,
                    i + rows <= 4096,
                    byte == s.mem[i + row],
                    *self == (VirtualMachine { fb: self.fb, ..*old(self) }),
                    forall|p: int|
                        0 <= p < 2048 ==> self.fb@[p] == (s.fb[p] != (sprite_covers(
                            s,
                            x0 as int,
                            y0 as int,
                            rows as int,
                            p,
                        ) && drawn_before(x0 as int, y0 as int, row as int, col as int, p))),
                    collision == exists|p: int|
                        0 <= p < 2048 && #[trigger] sprite_covers(s, x0 as int, y0 as int, rows as int, p)
                            && drawn_before(x0 as int, y0 as int, row as int, col as int, p) && s.fb[p],
                decreases 8 - col,
            {
                let idx: usize = (y0 + row) * 64 + x0 + col;
                let shift: u8 = (7 - col) as u8;
                let bit = (byte >> shift) & 1u8 == 1u8;
                proof {
                    vstd::arithmetic::div_mod::lemma_fundamental_div_mod_converse(
                        idx as int,
                        64,
                        (y0 + row) as int,
                        (x0 + col) as int,
                    );
                    assert(sprite_covers(s, x0 as int, y0 as int, rows as int, idx as int) == bit);
                    assert forall|p: int| 0 <= p < 2048 implies drawn_before(
                        x0 as int,
                        y0 as int,
                        row as int,
                        col + 1,
                        p,
                    ) == (drawn_before(x0 as int, y0 as int, row as int, col as int, p) || p
                        == idx) by {
                        if p / 64 - y0 == row && p % 64 - x0 == col {
                            assert(p == 64 * (p / 64) + p % 64);
                        }
                    }
                }
                if bit {
                    let was = self.fb[idx];
                    self.fb[idx] = !was;
                    if was {
                        collision = true;
                    }
                }
                col += 1;
            }
            proof {
                assert forall|p: int| 0 <= p < 2048 && sprite_covers(s, x0 as int, y0 as int, rows as int, p) implies drawn_before(
                    x0 as int,
                    y0 as int,
                    row as int,
                    col as int,
                    p,
                ) == drawn_before(x0 as int, y0 as int, row + 1, 0, p) by {}
            }
            row += 1;
        }
        proof {
            assert forall|p: int| 0 <= p < 2048 && sprite_covers(s, x0 as int, y0 as int, rows as int, p) implies drawn_before(
                x0 as int,
                y0 as int,
                rows as int,
                0,
                p,
            ) by {}
        }
        self.v[15] = if collision { 1 } else { 0 };
        self.advance_pc(2);
        proof {
            let t = draw_spec(s, x, y, n)->Ok_0;
            assert(self@.fb =~= t.fb);
            assert(self@.v =~= t.v);
        }
        Ok(())
    }

    /// Ex9E: skips the next instruction if the key in the low nibble of Vx is held.
    pub(crate) fn skip_if_pressed(&mut self, x: u8)
        requires
            old(self).wf(),
            x < 16,
        ensures
            final(self).wf(),
            apply(old(self)@, Operation::SkipIfPressed { x }, 0) == Ok::<VmState, VmError>(final(self)@),
    {
        let cond = self.keypad[(self.v[x as usize] % 16) as usize];
        self.skip_if(cond);
    }

    /// ExA1: skips the next instruction if the key in the low nibble of Vx is not held.
    pub(crate) fn skip_if_not_pressed(&mut self, x: u8)
        requires
            old(self).wf(),
            x < 16,
        ensures
            final(self).wf(),
            apply(old(self)@, Operation::SkipIfNotPressed { x }, 0) == Ok::<VmState, VmError>(
                final(self)@,
            ),
    {
        let cond = !self.keypad[(self.v[x as usize] % 16) as usize];
        self.skip_if(cond);
    }

    /// Fx07: Vx = delay timer.
    pub(crate) fn clone_dt_into_vx(&mut self, x: u8)
        requires
            old(self).wf(),
            x < 16,
        ensures
            final(self).wf(),
            apply(old(self)@, Operation::CloneDtIntoVx { x }, 0) == Ok::<VmState, VmError>(final(self)@),
    {
        let dt = self.delay_timer;
        self.write_register(x, dt);
    }

    /// Fx0A: stores the lowest key that was released and is not held again in Vx and
    /// moves on; with no such key nothing changes, so the operation runs again.
    pub(crate) fn store_keypress(&mut self, x: u8)
        requires
            old(self).wf(),
            x < 16,
        ensures
            final(self).wf(),
            apply(old(self)@, Operation::StoreKeypress { x }, 0) == Ok::<VmState, VmError>(final(self)@),
    {
        let ghost s = self@;
        let mut k: usize = 0;
        while k < 16
            invariant
                k <= 16,
                s == old(self)@,
                *self == *old(self),
                self.wf(),
                x < 16,
                forall|j: int| 0 <= j < k ==> !released(s, j),
            decreases 16 - k,
        {
            if self.keypad_shadow[k] && !self.keypad[k] {
                proof {
                    lemma_first_released_skip(s, k as int);
                }
                self.write_register(x, k as u8);
                return;
            }
            k += 1;
        }
        proof {
            lemma_first_released_skip(s, 16);
        }
    }

    /// Fx15: delay timer = Vx.
    pub(crate) fn set_delay_timer(&mut self, x: u8)
        requires
            old(self).wf(),
            x < 16,
        ensures
            final(self).wf(),
            apply(old(self)@, Operation::SetDelayTimer { x }, 0) == Ok::<VmState, VmError>(final(self)@),
    {
        self.delay_timer = self.v[x as usize];
        self.advance_pc(2);
    }

    /// Fx18: sound timer = Vx.
    pub(crate) fn set_sound_timer(&mut self, x: u8)
        requires
            old(self).wf(),
            x < 16,
        ensures
            final(self).wf(),
            apply(old(self)@, Operation::SetSoundTimer { x }, 0) == Ok::<VmState, VmError>(final(self)@),
    {
        self.sound_timer = self.v[x as usize];
        self.advance_pc(2);
    }

    /// Fx1E: I += Vx, wrapping at 16 bits.
    pub(crate) fn add_vx_to_i(&mut self, x: u8)
        requires
            old(self).wf(),
            x < 16,
        ensures
            final(self).wf(),
            apply(old(self)@, Operation::AddVxToI { x }, 0) == Ok::<VmState, VmError>(final(self)@),
    {
        self.i = self.i.wrapping_add(self.v[x as usize] as u16);
        self.advance_pc(2);
    }

    /// Fx29: I = address of the glyph of the digit in the low nibble of Vx.
    pub(crate) fn set_i_to_font_sprite_location(&mut self, x: u8)
        requires
            old(self).wf(),
            x < 16,
        ensures
            final(self).wf(),
            apply(old(self)@, Operation::SetIToFontSpriteLocation { x }, 0) == Ok::<
                VmState,
                VmError,
            >(final(self)@),
    {
        self.i = self.font_locations[(self.v[x as usize] % 16) as usize];
        self.advance_pc(2);
    }

    /// Fx33: hundreds, tens and ones digit of Vx to memory at I, I+1, I+2.
    pub(crate) fn bcd_vx(&mut self, x: u8) -> (r: Result<(), VmError>)
        requires
            old(self).wf(),
            x < 16,
        ensures
            final(self).wf(),
            applied(old(self)@, final(self)@, r, apply(old(self)@, Operation::BcdVx { x }, 0)),
    {
        let i = self.i as usize;
        if i + 3 > 4096 {
            return Err(VmError::MemoryOutOfBounds);
        }
        let val = self.v[x as usize];
        self.mem[i] = val / 100;
        self.mem[i + 1] = (val / 10) % 10;
        self.mem[i + 2] = val % 10;
        self.advance_pc(2);
        Ok(())
    }

    /// I after a block transfer of V0..=Vx.
    pub(crate) fn index_after(&self, x: u8) -> (r: u16)
        requires
            self.i + x < 4096,
        ensures
            r == index_after_transfer(self@, x),
    {
        if self.settings.mem_quirk {
            self.i + x as u16 + 1
        } else {
            self.i
        }
    }

    /// Fx55: stores V0..=Vx in memory from I on.
    pub(crate) fn dump_registers(&mut self, x: u8) -> (r: Result<(), VmError>)
        requires
            old(self).wf(),
            x < 16,
        ensures
            final(self).wf(),
            applied(old(self)@, final(self)@, r, apply(old(self)@, Operation::DumpRegisters { x }, 0)),
    {
        let i = self.i as usize;
        if i + x as usize >= 4096 {
            return Err(VmError::MemoryOutOfBounds);
        }
        let mut r: usize = 0;
        while r <= x as usize
            invariant
                r <= x + 1,
                x < 16,
                i == old(self).i,
                i + x < 4096,
                *self == (VirtualMachine { mem: self.mem, ..*old(self) }),
                forall|a: int|
                    0 <= a < 4096 ==> self.mem@[a] == (if i <= a < i + r {
                        old(self).v@[a - i]
                    } else {
                        old(self).mem@[a]
                    }),
            decreases x + 1 - r,
        {
            self.mem[i + r] = self.v[r];
            r += 1;
        }
        let new_i = self.index_after(x);
        self.i = new_i;
        self.advance_pc(2);
        proof {
            let t = dump_spec(old(self)@, x)->Ok_0;
            assert(self@.mem =~= t.mem);
        }
        Ok(())
    }

    /// Fx65: loads V0..=Vx from memory from I on.
    pub(crate) fn load_registers(&mut self, x: u8) -> (r: Result<(), VmError>)
        requires
            old(self).wf(),
            x < 16,
        ensures
            final(self).wf(),
            applied(old(self)@, final(self)@, r, apply(old(self)@, Operation::LoadRegisters { x }, 0)),
    {
        let i = self.i as usize;
        if i + x as usize >= 4096 {
            return Err(VmError::MemoryOutOfBounds);
        }
        let mut r: usize = 0;
        while r <= x as usize
            invariant
                r <= x + 1,
                x < 16,
                i == old(self).i,
                i + x < 4096,
                *self == (VirtualMachine { v: self.v, ..*old(self) }),
                forall|q: int|
                    0 <= q < 16 ==> self.v@[q] == (if q < r {
                        old(self).mem@[i + q]
                    } else {
                        old(self).v@[q]
                    }),
            decreases x + 1 - r,
        {
            self.v[r] = self.mem[i + r];
            r += 1;
        }
        let new_i = self.index_after(x);
        self.i = new_i;
        self.advance_pc(2);
        proof {
            let t = load_spec(old(self)@, x)->Ok_0;
            assert(self@.v =~= t.v);
        }
        Ok(())
    }
}

} // verus!
