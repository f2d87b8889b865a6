use vstd::prelude::*;
use crate::cycle::{cycle_spec, fetch_spec};
use crate::keypad::{input_spec, key_down_spec, key_event_of, key_up_spec, KeyEvent};
use crate::machine::{VmError, VmState, Execution, FRAME_BUDGET_NS};
use crate::ops::{Operation, decode_spec};
use crate::semantics::{
    apply, execute_spec, draw_origin, rows_on_screen, sprite_covers, released,
    first_released_from,
};

verus! {

/// Clearing the screen leaves every pixel off, whether it ran as an operation or as
/// part of a budgeted execution that completed.
pub proof fn lemma_clear_blanks_screen(s: VmState, random: u8)
    requires
        s.wf(),
    ensures
        apply(s, Operation::ClearDisplay, random) matches Ok(t) && forall|p: int|
            0 <= p < 2048 ==> !t.fb[p],
        execute_spec(s, Operation::ClearDisplay, random).1 matches Ok(Execution::Done(_))
            ==> forall|p: int| 0 <= p < 2048 ==> !execute_spec(s, Operation::ClearDisplay, random).0.fb[p],
{
}

/// Drawing the same sprite at the same place twice in a row gives back the screen as
/// it was before the first draw, and the second draw reports a collision exactly when
/// the first one turned some pixel on. The sprite's coordinates must not sit in VF,
/// which the first draw overwrites.
pub proof fn lemma_draw_twice_restores(s: VmState, x: u8, y: u8, n: u8, random: u8)
    requires
        s.wf(),
        x < 15,
        y < 15,
        n < 16,
        apply(s, Operation::DrawSprite { x, y, n }, random) is Ok,
    ensures
        ({
            let op = Operation::DrawSprite { x, y, n };
            let t = apply(s, op, random)->Ok_0;
            let (x0, y0) = draw_origin(s, x, y);
            let rows = rows_on_screen(y0, n as int);
            apply(t, op, random) matches Ok(u) && u.fb == s.fb && u.v[15] == (if exists|p: int|
                0 <= p < 2048 && #[trigger] sprite_covers(s, x0, y0, rows, p) && !s.fb[p] {
                1u8
            } else {
                0u8
            })
        }),
{
    let op = Operation::DrawSprite { x, y, n };
    let t = apply(s, op, random)->Ok_0;
    let (x0, y0) = draw_origin(s, x, y);
    let rows = rows_on_screen(y0, n as int);
    assert(t.v[x as int] == s.v[x as int] && t.v[y as int] == s.v[y as int]);
    assert(draw_origin(t, x, y) == draw_origin(s, x, y));
    assert forall|p: int| sprite_covers(t, x0, y0, rows, p) == sprite_covers(s, x0, y0, rows, p) by {}
    let u = apply(t, op, random)->Ok_0;
    assert(u.fb =~= s.fb);
    if exists|p: int| 0 <= p < 2048 && #[trigger] sprite_covers(s, x0, y0, rows, p) && !s.fb[p] {
        let p = choose|p: int| 0 <= p < 2048 && #[trigger] sprite_covers(s, x0, y0, rows, p) && !s.fb[p];
        assert(sprite_covers(t, x0, y0, rows, p) && t.fb[p]);
    }
}

/// The shifts read Vy when the shift quirk is off and Vx when it is on; VF receives
/// the bit shifted out and, unless Vx is VF, Vx the shifted value.
pub proof fn lemma_shift_source(s: VmState, x: u8, y: u8, random: u8)
    requires
        s.wf(),
        x < 16,
        y < 16,
    ensures
        ({
            let src = if s.settings.shift_quirk {
                s.v[x as int]
            } else {
                s.v[y as int]
            };
            &&& apply(s, Operation::ShiftRight { x, y }, random) matches Ok(t) && t.v[15] == src
                % 2 && (x != 15 ==> t.v[x as int] == src / 2)
            &&& apply(s, Operation::ShiftLeft { x, y }, random) matches Ok(t) && t.v[15] == src
                / 128 && (x != 15 ==> t.v[x as int] == (src * 2) % 256)
        }),
{
}

/// Under the logic quirk OR leaves VF at zero whatever it held; without it OR leaves
/// VF as it was, unless VF is the destination.
pub proof fn lemma_or_flag(s: VmState, x: u8, y: u8, random: u8)
    requires
        s.wf(),
        x < 16,
        y < 16,
    ensures
        apply(s, Operation::Or { x, y }, random) matches Ok(t) && (if s.settings.or_and_xor_quirk {
            t.v[15] == 0
        } else {
            x != 15 ==> t.v[15] == s.v[15]
        }),
{
}

/// An operation runs only when its cost fits in what is left of the frame budget.
/// Otherwise it is deferred: the machine is left as it was, so the next cycle fetches
/// the same operation again, and only the frame bookkeeping moves on.
pub proof fn lemma_budget_respected(s: VmState, op: Operation, random: u8)
    requires
        s.wf(),
    ensures
        ({
            let cost = op.cost_ns_spec(s.settings.execution_speed_permille);
            let (t, r) = execute_spec(s, op, random);
            &&& r == Ok::<Execution, VmError>(Execution::Deferred) <==> s.frame_time_ns + cost
                > FRAME_BUDGET_NS
            &&& r == Ok::<Execution, VmError>(Execution::Deferred) ==> t == s
            &&& r matches Ok(Execution::Done(c)) ==> c == cost && s.frame_time_ns + c
                <= FRAME_BUDGET_NS
        }),
{
}

/// A deferred cycle leaves the program counter, registers, memory, stack and screen
/// alone, so the same operation is fetched again on the next cycle.
pub proof fn lemma_deferred_cycle_retries(s: VmState, random: u8, elapsed_ns: u64, now_ns: u64)
    requires
        s.wf(),
        cycle_spec(s, random, elapsed_ns, now_ns).1 == Ok::<Execution, VmError>(
            Execution::Deferred,
        ),
    ensures
        ({
            let t = cycle_spec(s, random, elapsed_ns, now_ns).0;
            &&& t.pc == s.pc
            &&& t.v == s.v
            &&& t.i == s.i
            &&& t.mem == s.mem
            &&& t.stack == s.stack
            &&& t.fb == s.fb
            &&& fetch_spec(t) == fetch_spec(s)
        }),
{
}

/// The input code that releases key `k`.
pub open spec fn release_code(k: u8) -> usize {
    if k == 0 {
        0x100
    } else {
        (k as usize * 16) as usize
    }
}

/// Fx0A with a key pressed but not yet released changes nothing, so the program
/// counter stays and the operation runs again; once the key is released the key is
/// stored in Vx and execution moves on.
pub proof fn lemma_wait_for_key_release(
    s: VmState,
    x: u8,
    k: u8,
    down_ns: u64,
    up_ns: u64,
    random: u8,
)
    requires
        s.wf(),
        x < 16,
        k < 16,
        forall|j: int| 0 <= j < 16 ==> !released(s, j),
    ensures
        ({
            let op = Operation::StoreKeypress { x };
            let pressed = input_spec(s, k as usize, down_ns);
            let lifted = input_spec(pressed, release_code(k), up_ns);
            &&& apply(pressed, op, random) == Ok::<VmState, VmError>(pressed)
            &&& apply(lifted, op, random) matches Ok(t) && t.v[x as int] == k && t.pc == (
            lifted.pc + 2) % 0x10000
        }),
{
    let pressed = input_spec(s, k as usize, down_ns);
    assert(key_event_of(k as usize) == Some(KeyEvent::Down(k)));
    assert(pressed == key_down_spec(s, k as int));
    assert forall|j: int| 0 <= j < 16 implies !released(pressed, j) by {
        assert(!released(s, j));
        if j != k {
            assert(pressed.keypad[j] == s.keypad[j]);
        }
    }
    assert(first_released_from(pressed, 16) == 16);
    lemma_no_release_from(pressed, 0);
    assert(key_event_of(release_code(k)) == Some(KeyEvent::Up(k)));
    let lifted = input_spec(pressed, release_code(k), up_ns);
    assert(lifted == key_up_spec(pressed, k as int, up_ns));
    assert forall|j: int| 0 <= j < 16 && j != k implies !released(lifted, j) by {
        assert(!released(pressed, j));
        assert(lifted.keypad[j] == pressed.keypad[j]);
        assert(lifted.keypad_shadow[j] == pressed.keypad_shadow[j]);
    }
    lemma_first_release_is(lifted, k as int, 0);
}

proof fn lemma_no_release_from(s: VmState, k: int)
    requires
        0 <= k <= 16,
        forall|j: int| 0 <= j < 16 ==> !released(s, j),
    ensures
        first_released_from(s, k) == 16,
    decreases 16 - k,
{
    if k < 16 {
        lemma_no_release_from(s, k + 1);
    }
}

proof fn lemma_first_release_is(s: VmState, k: int, from: int)
    requires
        0 <= from <= k < 16,
        released(s, k),
        forall|j: int| 0 <= j < 16 && j != k ==> !released(s, j),
    ensures
        first_released_from(s, from) == k,
    decreases k - from,
{
    if from < k {
        lemma_first_release_is(s, k, from + 1);
    }
}

/// A program that clears the screen at 0x200 and jumps back to 0x200 at 0x202 keeps
/// its program counter on those two addresses and its stack as it was, forever; each
/// completed cycle at 0x200 leaves the screen blank.
pub proof fn lemma_clear_and_jump_loop(s: VmState, random: u8, elapsed_ns: u64, now_ns: u64)
    requires
        s.wf(),
        s.mem[0x200] == 0x00,
        s.mem[0x201] == 0xe0,
        s.mem[0x202] == 0x12,
        s.mem[0x203] == 0x00,
        s.pc == 0x200 || s.pc == 0x202,
    ensures
        ({
            let (t, r) = cycle_spec(s, random, elapsed_ns, now_ns);
            &&& r is Ok
            &&& t.pc == 0x200 || t.pc == 0x202
            &&& t.stack == s.stack
            &&& t.mem == s.mem
            &&& t.wf()
            &&& (s.pc == 0x200 && r matches Ok(Execution::Done(_))) ==> forall|p: int|
                0 <= p < 2048 ==> !t.fb[p]
        }),
{
    if s.pc == 0x200 {
        assert(fetch_spec(s) == Ok::<u16, VmError>(0x00e0));
        assert(decode_spec(0x00e0) == Ok::<Operation, VmError>(Operation::ClearDisplay));
    } else {
        assert(fetch_spec(s) == Ok::<u16, VmError>(0x1200));
        assert(decode_spec(0x1200) == Ok::<Operation, VmError>(Operation::JumpToNnn { nnn: 0x200 }));
    }
}

} // verus!
