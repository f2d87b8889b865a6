use vstd::prelude::*;
use crate::machine::{VmError, VmState, Execution, FRAME_BUDGET_NS};
use crate::ops::Operation;

verus! {

/// `a` reduced to 16 bits.
pub open spec fn wrap16(a: int) -> u16 {
    (a % 0x10000) as u16
}

/// The state with the program counter moved on by `by` bytes.
pub open spec fn advance(s: VmState, by: int) -> VmState {
    VmState { pc: wrap16(s.pc + by), ..s }
}

/// The state with register `x` set to `val`, then the program counter moved on.
pub open spec fn set_reg(s: VmState, x: u8, val: u8) -> VmState {
    advance(VmState { v: s.v.update(x as int, val), ..s }, 2)
}

/// The state with register `x` set to `val` and then VF set to `flag`, then the
/// program counter moved on.
pub open spec fn set_reg_flag(s: VmState, x: u8, val: u8, flag: u8) -> VmState {
    advance(VmState { v: s.v.update(x as int, val).update(15, flag), ..s }, 2)
}

/// The state that skips the next instruction when `cond` holds.
pub open spec fn skip_when(s: VmState, cond: bool) -> VmState {
    advance(s, if cond { 4 } else { 2 })
}

/// The result of a bitwise operation under the logic quirk: VF reset afterwards.
pub open spec fn logic_result(s: VmState, x: u8, val: u8) -> VmState {
    if s.settings.or_and_xor_quirk {
        set_reg_flag(s, x, val, 0)
    } else {
        set_reg(s, x, val)
    }
}

/// The register a shift reads: Vx under the shift quirk, Vy otherwise.
pub open spec fn shift_source(s: VmState, x: u8, y: u8) -> u8 {
    if s.settings.shift_quirk {
        s.v[x as int]
    } else {
        s.v[y as int]
    }
}

/// Start column and row of a sprite drawn from Vx, Vy.
pub open spec fn draw_origin(s: VmState, x: u8, y: u8) -> (int, int) {
    if s.settings.sprite_wrapping_quirk {
        ((s.v[x as int] % 64) as int, (s.v[y as int] % 32) as int)
    } else {
        (s.v[x as int] as int, s.v[y as int] as int)
    }
}

/// Number of sprite rows of an `n`-row sprite starting at row `y0` that are on screen.
pub open spec fn rows_on_screen(y0: int, n: int) -> int {
    if y0 >= 32 {
        0
    } else if y0 + n > 32 {
        32 - y0
    } else {
        n
    }
}

/// Pixel `col` (0 is leftmost) of a sprite row stored most significant bit first.
pub open spec fn sprite_bit(row: u8, col: int) -> bool {
    (row >> ((7 - col) as u8)) & 1u8 == 1u8
}

/// Whether screen cell `p` is covered by an on-pixel of the sprite whose rows are
/// read from memory at I, drawn at column `x0` and row `y0`, `rows` rows tall.
pub open spec fn sprite_covers(s: VmState, x0: int, y0: int, rows: int, p: int) -> bool {
    let row = p / 64 - y0;
    let col = p % 64 - x0;
    &&& 0 <= row < rows
    &&& 0 <= col < 8
    &&& sprite_bit(s.mem[s.i + row], col)
}

/// Dxyn: the screen after XOR-ing the sprite on, and the collision flag.
pub open spec fn draw_spec(s: VmState, x: u8, y: u8, n: u8) -> Result<VmState, VmError> {
    let (x0, y0) = draw_origin(s, x, y);
    let rows = rows_on_screen(y0, n as int);
    if s.i + rows > 4096 {
        Err(VmError::MemoryOutOfBounds)
    } else {
        let collision = exists|p: int|
            0 <= p < 2048 && #[trigger] sprite_covers(s, x0, y0, rows, p) && s.fb[p];
        Ok(
            advance(
                VmState {
                    fb: Seq::new(2048, |p: int| s.fb[p] != sprite_covers(s, x0, y0, rows, p)),
                    v: s.v.update(15, if collision { 1u8 } else { 0u8 }),
                    ..s
                },
                2,
            ),
        )
    }
}

/// I after a block transfer of V0..=Vx: moved past the block under the memory quirk.
pub open spec fn index_after_transfer(s: VmState, x: u8) -> u16 {
    if s.settings.mem_quirk {
        wrap16(s.i + x + 1)
    } else {
        s.i
    }
}

/// Fx55: V0..=Vx stored at I, I+1, ...
pub open spec fn dump_spec(s: VmState, x: u8) -> Result<VmState, VmError> {
    if s.i + x >= 4096 {
        Err(VmError::MemoryOutOfBounds)
    } else {
        Ok(
            advance(
                VmState {
                    mem: Seq::new(
                        4096,
                        |a: int| if s.i <= a <= s.i + x { s.v[a - s.i] } else { s.mem[a] },
                    ),
                    i: index_after_transfer(s, x),
                    ..s
                },
                2,
            ),
        )
    }
}

/// Fx65: V0..=Vx loaded from I, I+1, ...
pub open spec fn load_spec(s: VmState, x: u8) -> Result<VmState, VmError> {
    if s.i + x >= 4096 {
        Err(VmError::MemoryOutOfBounds)
    } else {
        Ok(
            advance(
                VmState {
                    v: Seq::new(16, |r: int| if r <= x { s.mem[s.i + r] } else { s.v[r] }),
                    i: index_after_transfer(s, x),
                    ..s
                },
                2,
            ),
        )
    }
}

/// Fx33: hundreds, tens and ones of Vx at I, I+1, I+2.
pub open spec fn bcd_spec(s: VmState, x: u8) -> Result<VmState, VmError> {
    let val = s.v[x as int];
    if s.i + 3 > 4096 {
        Err(VmError::MemoryOutOfBounds)
    } else {
        Ok(
            advance(
                VmState {
                    mem: s.mem.update(s.i as int, val / 100).update(
                        s.i + 1,
                        (val / 10) % 10,
                    ).update(s.i + 2, val % 10),
                    ..s
                },
                2,
            ),
        )
    }
}

/// Key `k` was released within the release window and is not held again.
pub open spec fn released(s: VmState, k: int) -> bool {
    s.keypad_shadow[k] && !s.keypad[k]
}

/// The lowest released key at or above `k`, or 16 if there is none.
pub open spec fn first_released_from(s: VmState, k: int) -> int
    decreases 16 - k,
{
    if k >= 16 {
        16
    } else if released(s, k) {
        k
    } else {
        first_released_from(s, k + 1)
    }
}

/// Fx0A: the lowest released key goes to Vx and execution moves on; with no key
/// released nothing changes and the operation runs again.
pub open spec fn store_keypress_spec(s: VmState, x: u8) -> VmState {
    let k = first_released_from(s, 0);
    if k < 16 {
        set_reg(s, x, k as u8)
    } else {
        s
    }
}

/// The effect of running `op` on `s`, budget aside. `random` is the random byte that
/// Cxnn uses.
pub open spec fn apply(s: VmState, op: Operation, random: u8) -> Result<VmState, VmError> {
    match op {
        Operation::CallRoutine { .. } => Ok(advance(s, 2)),
        Operation::ClearDisplay => Ok(
            advance(VmState { fb: Seq::new(2048, |p: int| false), ..s }, 2),
        ),
        Operation::SubroutineReturn => if s.stack.len() == 0 {
            Err(VmError::StackUnderflow)
        } else {
            Ok(
                VmState {
                    pc: wrap16(s.stack.last() + 2),
                    stack: s.stack.drop_last(),
                    ..s
                },
            )
        },
        Operation::JumpToNnn { nnn } => Ok(VmState { pc: nnn, ..s }),
        Operation::CallSubroutine { nnn } => if s.stack.len() >= 16 {
            Err(VmError::StackOverflow)
        } else {
            Ok(VmState { pc: nnn, stack: s.stack.push(s.pc), ..s })
        },
        Operation::SkipIfEqNn { x, nn } => Ok(skip_when(s, s.v[x as int] == nn)),
        Operation::SkipIfNeqNn { x, nn } => Ok(skip_when(s, s.v[x as int] != nn)),
        Operation::SkipIfEq { x, y } => Ok(skip_when(s, s.v[x as int] == s.v[y as int])),
        Operation::SetVxToNn { x, nn } => Ok(set_reg(s, x, nn)),
        Operation::AddNnToVx { x, nn } => Ok(
            set_reg(s, x, ((s.v[x as int] + nn) % 256) as u8),
        ),
        Operation::Clone { x, y } => Ok(set_reg(s, x, s.v[y as int])),
        Operation::Or { x, y } => Ok(logic_result(s, x, s.v[x as int] | s.v[y as int])),
        Operation::And { x, y } => Ok(logic_result(s, x, s.v[x as int] & s.v[y as int])),
        Operation::Xor { x, y } => Ok(logic_result(s, x, s.v[x as int] ^ s.v[y as int])),
        Operation::Add { x, y } => {
            let sum = s.v[x as int] + s.v[y as int];
            Ok(set_reg_flag(s, x, (sum % 256) as u8, if sum > 255 { 1 } else { 0 }))
        },
        Operation::SubtractVyFromVx { x, y } => {
            let (a, b) = (s.v[x as int], s.v[y as int]);
            Ok(set_reg_flag(s, x, ((a - b + 256) % 256) as u8, if a >= b { 1 } else { 0 }))
        },
        Operation::ShiftRight { x, y } => {
            let src = shift_source(s, x, y);
            Ok(set_reg_flag(s, x, src / 2, src % 2))
        },
        Operation::SubtractVxFromVy { x, y } => {
            let (a, b) = (s.v[y as int], s.v[x as int]);
            Ok(set_reg_flag(s, x, ((a - b + 256) % 256) as u8, if a >= b { 1 } else { 0 }))
        },
        Operation::ShiftLeft { x, y } => {
            let src = shift_source(s, x, y);
            Ok(set_reg_flag(s, x, ((src * 2) % 256) as u8, src / 128))
        },
        Operation::SkipIfNeq { x, y } => Ok(skip_when(s, s.v[x as int] != s.v[y as int])),
        Operation::SetIToNnn { nnn } => Ok(advance(VmState { i: nnn, ..s }, 2)),
        Operation::JumpToV0PlusNnn { nnn } => {
            let r = if s.settings.jump_offset_quirk {
                nnn / 256
            } else {
                0
            };
            Ok(VmState { pc: wrap16(nnn + s.v[r as int]), ..s })
        },
        Operation::RandomAndNn { x, nn } => Ok(set_reg(s, x, random & nn)),
        Operation::DrawSprite { x, y, n } => draw_spec(s, x, y, n),
        Operation::SkipIfPressed { x } => Ok(skip_when(s, s.keypad[(s.v[x as int] % 16) as int])),
        Operation::SkipIfNotPressed { x } => Ok(skip_when(s, !s.keypad[(s.v[x as int] % 16) as int])),
        Operation::CloneDtIntoVx { x } => Ok(set_reg(s, x, s.delay_timer)),
        Operation::StoreKeypress { x } => Ok(store_keypress_spec(s, x)),
        Operation::SetDelayTimer { x } => Ok(
            advance(VmState { delay_timer: s.v[x as int], ..s }, 2),
        ),
        Operation::SetSoundTimer { x } => Ok(
            advance(VmState { sound_timer: s.v[x as int], ..s }, 2),
        ),
        Operation::AddVxToI { x } => Ok(advance(VmState { i: wrap16(s.i + s.v[x as int]), ..s }, 2)),
        Operation::SetIToFontSpriteLocation { x } => Ok(
            advance(VmState { i: s.font_locations[(s.v[x as int] % 16) as int], ..s }, 2),
        ),
        Operation::BcdVx { x } => bcd_spec(s, x),
        Operation::DumpRegisters { x } => dump_spec(s, x),
        Operation::LoadRegisters { x } => load_spec(s, x),
    }
}

/// Running `op` under the frame budget: deferred with nothing changed when its cost
/// would take the frame past the budget; otherwise its effect and its cost, or its
/// error with nothing changed.
pub open spec fn execute_spec(s: VmState, op: Operation, random: u8) -> (VmState, Result<
    Execution,
    VmError,
>) {
    let cost = op.cost_ns_spec(s.settings.execution_speed_permille);
    if s.frame_time_ns + cost > FRAME_BUDGET_NS {
        (s, Ok(Execution::Deferred))
    } else {
        match apply(s, op, random) {
            Ok(t) => (t, Ok(Execution::Done(cost))),
            Err(e) => (s, Err(e)),
        }
    }
}

} // verus!
