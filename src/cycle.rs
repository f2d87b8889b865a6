use vstd::prelude::*;
use crate::machine::{
    VirtualMachine, VmError, VmState, Execution, FRAME_BUDGET_NS, KEY_RELEASE_NS,
};
use crate::ops::{Operation, decode_opcode, decode_spec};
use crate::semantics::{apply, execute_spec};
use crate::exec::applied;

verus! {

/// The opcode at the program counter, most significant byte first, or
/// `MemoryOutOfBounds` when its second byte lies past the end of memory.
pub open spec fn fetch_spec(s: VmState) -> Result<u16, VmError> {
    if s.pc + 1 < 4096 {
        Ok((s.mem[s.pc as int] * 256 + s.mem[s.pc + 1]) as u16)
    } else {
        Err(VmError::MemoryOutOfBounds)
    }
}

/// Decoding `opcode` and running it under the frame budget.
pub open spec fn dispatch_spec(s: VmState, opcode: u16, random: u8) -> (VmState, Result<
    Execution,
    VmError,
>) {
    match decode_spec(opcode) {
        Ok(op) => execute_spec(s, op, random),
        Err(e) => (s, Err(e)),
    }
}

/// Whether key `k` leaves the recently-released state at time `now_ns`: its release
/// window has fully passed.
pub open spec fn release_expired(s: VmState, k: int, now_ns: u64) -> bool {
    now_ns >= s.key_release_ns[k] + KEY_RELEASE_NS
}

/// `a + b`, capped at the largest `u64`.
pub open spec fn sat_add(a: u64, b: u64) -> u64 {
    if a + b > u64::MAX {
        u64::MAX
    } else {
        (a + b) as u64
    }
}

/// The bookkeeping after an operation: the frame time grows by the operation's cost
/// and the real time elapsed, expired key releases are forgotten, and when the frame
/// time passes the budget both timers count down once, a redraw is requested and the
/// frame time starts again from zero.
pub open spec fn end_cycle(s: VmState, spent: u64, elapsed_ns: u64, now_ns: u64) -> VmState {
    let ft = sat_add((s.frame_time_ns + spent) as u64, elapsed_ns);
    let shadow = Seq::new(
        16,
        |k: int| s.keypad_shadow[k] && !release_expired(s, k, now_ns),
    );
    if ft > FRAME_BUDGET_NS {
        VmState {
            keypad_shadow: shadow,
            delay_timer: if s.delay_timer > 0 { (s.delay_timer - 1) as u8 } else { 0 },
            sound_timer: if s.sound_timer > 0 { (s.sound_timer - 1) as u8 } else { 0 },
            draw_flag: true,
            frame_time_ns: 0,
            ..s
        }
    } else {
        VmState { keypad_shadow: shadow, frame_time_ns: ft, ..s }
    }
}

/// The cost that an execution adds to the frame time.
pub open spec fn spent(e: Execution) -> u64 {
    match e {
        Execution::Done(c) => c,
        Execution::Deferred => 0,
    }
}

/// One whole cycle: fetch, decode, run under the budget, then the frame bookkeeping.
/// On an error nothing changes.
pub open spec fn cycle_spec(s: VmState, random: u8, elapsed_ns: u64, now_ns: u64) -> (VmState, Result<
    Execution,
    VmError,
>) {
    match fetch_spec(s) {
        Err(e) => (s, Err(e)),
        Ok(opcode) => {
            let (t, r) = dispatch_spec(s, opcode, random);
            match r {
                Err(e) => (s, Err(e)),
                Ok(ex) => (end_cycle(t, spent(ex), elapsed_ns, now_ns), Ok(ex)),
            }
        },
    }
}

/// Whether the next cycle runs Cxnn, the one operation that consumes a random byte.
pub open spec fn needs_random(s: VmState) -> bool {
    fetch_spec(s) matches Ok(opcode) && opcode / 4096 == 0xc
}

/// Relies on `rand::random::<u8>`: a byte from the thread-local generator. Nothing is
/// known of its value.
#[verifier::external_body]
fn random_byte() -> (r: u8) {
    rand::random::<u8>()
}

impl VirtualMachine {
    /// Reads the opcode at the program counter, most significant byte first.
    pub fn fetch_opcode(&self) -> (r: Result<u16, VmError>)
        ensures
            r == fetch_spec(self@),
    {
        if self.pc < 4095 {
            let hi = self.mem[self.pc as usize] as u16;
            let lo = self.mem[self.pc as usize + 1] as u16;
            Ok(hi * 256 + lo)
        } else {
            Err(VmError::MemoryOutOfBounds)
        }
    }

    /// Runs `op` if its cost fits in what is left of the frame budget; otherwise
    /// reports `Deferred` and changes nothing. `random` is the byte that Cxnn uses.
    pub fn execute_operation(&mut self, op: Operation, random: u8) -> (r: Result<
        Execution,
        VmError,
    >)
        requires
            old(self).wf(),
            op.wf(),
        ensures
            final(self).wf(),
            (final(self)@, r) == execute_spec(old(self)@, op, random),
    {
        let cost = op.cost_ns(self.settings.execution_speed_permille);
        if cost > FRAME_BUDGET_NS - self.frame_time_ns {
            return Ok(Execution::Deferred);
        }
        let ghost s = self@;
        let res: Result<(), VmError> = match op {
            Operation::CallRoutine { nnn } => {
                self.call_routine(nnn);
                Ok(())
            },
            Operation::ClearDisplay => {
                self.clear_display();
                Ok(())
            },
            Operation::SubroutineReturn => self.subroutine_return(),
            Operation::JumpToNnn { nnn } => {
                self.jump_to_nnn(nnn);
                Ok(())
            },
            Operation::CallSubroutine { nnn } => self.call_subroutine(nnn),
            Operation::SkipIfEqNn { x, nn } => {
                self.skip_if_eq_nn(x, nn);
                Ok(())
            },
            Operation::SkipIfNeqNn { x, nn } => {
                self.skip_if_neq_nn(x, nn);
                Ok(())
            },
            Operation::SkipIfEq { x, y } => {
                self.skip_if_eq(x, y);
                Ok(())
            },
            Operation::SetVxToNn { x, nn } => {
                self.set_vx_to_nn(x, nn);
                Ok(())
            },
            Operation::AddNnToVx { x, nn } => {
                self.add_nn_to_vx(x, nn);
                Ok(())
            },
            Operation::Clone { x, y } => {
                self.clone(x, y);
                Ok(())
            },
            Operation::Or { x, y } => {
                self.or(x, y);
                Ok(())
            },
            Operation::And { x, y } => {
                self.and(x, y);
                Ok(())
            },
            Operation::Xor { x, y } => {
                self.xor(x, y);
                Ok(())
            },
            Operation::Add { x, y } => {
                self.add(x, y);
                Ok(())
            },
            Operation::SubtractVyFromVx { x, y } => {
                self.subtract_vy_from_vx(x, y);
                Ok(())
            },
            Operation::ShiftRight { x, y } => {
                self.shift_right(x, y);
                Ok(())
            },
            Operation::SubtractVxFromVy { x, y } => {
                self.subtract_vx_from_vy(x, y);
                Ok(())
            },
            Operation::ShiftLeft { x, y } => {
                self.shift_left(x, y);
                Ok(())
            },
            Operation::SkipIfNeq { x, y } => {
                self.skip_if_neq(x, y);
                Ok(())
            },
            Operation::SetIToNnn { nnn } => {
                self.set_i_to_nnn(nnn);
                Ok(())
            },
            Operation::JumpToV0PlusNnn { nnn } => {
                self.jump_to_v0_plus_nnn(nnn);
                Ok(())
            },
            Operation::RandomAndNn { x, nn } => {
                self.random_and_nn(x, nn, random);
                Ok(())
            },
            Operation::DrawSprite { x, y, n } => self.draw_sprite(x, y, n),
            Operation::SkipIfPressed { x } => {
                self.skip_if_pressed(x);
                Ok(())
            },
            Operation::SkipIfNotPressed { x } => {
                self.skip_if_not_pressed(x);
                Ok(())
            },
            Operation::CloneDtIntoVx { x } => {
                self.clone_dt_into_vx(x);
                Ok(())
            },
            Operation::StoreKeypress { x } => {
                self.store_keypress(x);
                Ok(())
            },
            Operation::SetDelayTimer { x } => {
                self.set_delay_timer(x);
                Ok(())
            },
            Operation::SetSoundTimer { x } => {
                self.set_sound_timer(x);
                Ok(())
            },
            Operation::AddVxToI { x } => {
                self.add_vx_to_i(x);
                Ok(())
            },
            Operation::SetIToFontSpriteLocation { x } => {
                self.set_i_to_font_sprite_location(x);
                Ok(())
            },
            Operation::BcdVx { x } => self.bcd_vx(x),
            Operation::DumpRegisters { x } => self.dump_registers(x),
            Operation::LoadRegisters { x } => self.load_registers(x),
        };
        assert(applied(s, self@, res, apply(s, op, random)));
        match res {
            Ok(()) => Ok(Execution::Done(cost)),
            Err(e) => Err(e),
        }
    }

    /// Decodes `opcode` and runs it under the frame budget. `random` is the byte that
    /// Cxnn uses.
    pub fn decode_opcode_and_execute_operation(&mut self, opcode: u16, random: u8) -> (r: Result<
        Execution,
        VmError,
    >)
        requires
            old(self).wf(),
        ensures
            final(self).wf(),
            (final(self)@, r) == dispatch_spec(old(self)@, opcode, random),
    {
        match decode_opcode(opcode) {
            Ok(op) => self.execute_operation(op, random),
            Err(e) => Err(e),
        }
    }

    /// Frame bookkeeping after an operation that cost `spent_ns`.
    fn end_cycle(&mut self, spent_ns: u64, elapsed_ns: u64, now_ns: u64)
        requires
            old(self).wf(),
            old(self).frame_time_ns + spent_ns <= FRAME_BUDGET_NS,
        ensures
            final(self).wf(),
            final(self)@ == end_cycle(old(self)@, spent_ns, elapsed_ns, now_ns),
    {
        let ft1: u64 = self.frame_time_ns + spent_ns;
        let ft: u64 = ft1.saturating_add(elapsed_ns);
        let mut k: usize = 0;
        while k < 16
            invariant
                k <= 16,
                *self == (VirtualMachine { keypad_shadow: self.keypad_shadow, ..*old(self) }),
                forall|j: int|
                    0 <= j < 16 ==> self.keypad_shadow@[j] == (if j < k {
                        old(self).keypad_shadow@[j] && !release_expired(old(self)@, j, now_ns)
                    } else {
                        old(self).keypad_shadow@[j]
                    }),
            decreases 16 - k,
        {
            if self.keypad_shadow[k] && now_ns.saturating_sub(self.key_release_ns[k])
                >= KEY_RELEASE_NS {
                self.keypad_shadow[k] = false;
            }
            k += 1;
        }
        if ft > FRAME_BUDGET_NS {
            if self.delay_timer > 0 {
                self.delay_timer = self.delay_timer - 1;
            }
            if self.sound_timer > 0 {
                self.sound_timer = self.sound_timer - 1;
            }
            self.draw_flag = true;
            self.frame_time_ns = 0;
        } else {
            self.frame_time_ns = ft;
        }
        assert(self@.keypad_shadow =~= end_cycle(old(self)@, spent_ns, elapsed_ns, now_ns).keypad_shadow);
    }

    /// One operation cycle with a given random byte: fetches the opcode at the program
    /// counter, runs it if it fits in the frame budget, adds its cost and the real time
    /// `elapsed_ns` spent in this pass of the host loop to the frame time, forgets key
    /// releases older than the release window at time `now_ns`, and at the frame
    /// boundary counts the timers down and requests a redraw. On an error nothing
    /// changes.
    pub fn run_cycle(&mut self, random: u8, elapsed_ns: u64, now_ns: u64) -> (r: Result<
        Execution,
        VmError,
    >)
        requires
            old(self).wf(),
        ensures
            final(self).wf(),
            (final(self)@, r) == cycle_spec(old(self)@, random, elapsed_ns, now_ns),
    {
        let opcode = match self.fetch_opcode() {
            Ok(opcode) => opcode,
            Err(e) => return Err(e),
        };
        let ghost s = self@;
        let r = self.decode_opcode_and_execute_operation(opcode, random);
        match r {
            Ok(ex) => {
                let spent_ns: u64 = match ex {
                    Execution::Done(c) => c,
                    Execution::Deferred => 0,
                };
                proof {
                    if let Ok(op) = decode_spec(opcode) {
                        assert(spent_ns == 0 || s.frame_time_ns + spent_ns <= FRAME_BUDGET_NS);
                    }
                }
                self.end_cycle(spent_ns, elapsed_ns, now_ns);
                Ok(ex)
            },
            Err(e) => Err(e),
        }
    }

    /// One operation cycle: like `run_cycle`, drawing the random byte from the
    /// thread-local generator when the operation is Cxnn.
    pub fn simulate_operation_cycle(&mut self, elapsed_ns: u64, now_ns: u64) -> (r: Result<
        Execution,
        VmError,
    >)
        requires
            old(self).wf(),
        ensures
            final(self).wf(),
            exists|random: u8|
                (final(self)@, r) == #[trigger] cycle_spec(old(self)@, random, elapsed_ns, now_ns),
            !needs_random(old(self)@) ==> (final(self)@, r) == cycle_spec(
                old(self)@,
                0,
                elapsed_ns,
                now_ns,
            ),
    {
        let random: u8 = match self.fetch_opcode() {
            Ok(opcode) => {
                if opcode / 4096 == 0xc {
                    random_byte()
                } else {
                    0
                }
            },
            Err(_) => 0,
        };
        self.run_cycle(random, elapsed_ns, now_ns)
    }
}

} // verus!
