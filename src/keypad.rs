use vstd::prelude::*;
use crate::machine::{VirtualMachine, VmState};

verus! {

/// A key going down or coming up.
#[derive(Clone, Copy, Debug, PartialEq, Eq, Structural)]
pub enum KeyEvent {
    Down(u8),
    Up(u8),
}

/// The key event that an input code stands for: 0x0 to 0xf press that key, 0x100
/// releases key 0 and `k << 4` releases key `k` for 0x1 to 0xf. Other codes stand
/// for nothing.
pub open spec fn key_event_of(code: usize) -> Option<KeyEvent> {
    if code <= 0xf {
        Some(KeyEvent::Down(code as u8))
    } else if code == 0x100 {
        Some(KeyEvent::Up(0))
    } else if code / 16 <= 0xf {
        Some(KeyEvent::Up((code / 16) as u8))
    } else {
        None
    }
}

/// The state after key `k` goes down.
pub open spec fn key_down_spec(s: VmState, k: int) -> VmState {
    VmState { keypad: s.keypad.update(k, true), ..s }
}

/// The state after key `k` comes up at time `now_ns`: no longer held, recently
/// released, and its release time recorded.
pub open spec fn key_up_spec(s: VmState, k: int, now_ns: u64) -> VmState {
    VmState {
        keypad: s.keypad.update(k, false),
        keypad_shadow: s.keypad_shadow.update(k, true),
        key_release_ns: s.key_release_ns.update(k, now_ns),
        ..s
    }
}

/// The state after the input code `code` at time `now_ns`.
pub open spec fn input_spec(s: VmState, code: usize, now_ns: u64) -> VmState {
    match key_event_of(code) {
        Some(KeyEvent::Down(k)) => key_down_spec(s, k as int),
        Some(KeyEvent::Up(k)) => key_up_spec(s, k as int, now_ns),
        None => s,
    }
}

/// Maps an input code to the key event it stands for.
pub fn key_event(code: usize) -> (r: Option<KeyEvent>)
    ensures
        r == key_event_of(code),
{
    if code <= 0xf {
        Some(KeyEvent::Down(code as u8))
    } else if code == 0x100 {
        Some(KeyEvent::Up(0))
    } else if code / 16 <= 0xf {
        Some(KeyEvent::Up((code / 16) as u8))
    } else {
        None
    }
}

impl VirtualMachine {
    /// Marks key `k` as held.
    pub fn key_down(&mut self, k: u8)
        requires
            old(self).wf(),
            k < 16,
        ensures
            final(self).wf(),
            final(self)@ == key_down_spec(old(self)@, k as int),
    {
        self.keypad[k as usize] = true;
    }

    /// Marks key `k` as released at time `now_ns`.
    pub fn key_up(&mut self, k: u8, now_ns: u64)
        requires
            old(self).wf(),
            k < 16,
        ensures
            final(self).wf(),
            final(self)@ == key_up_spec(old(self)@, k as int, now_ns),
    {
        self.keypad[k as usize] = false;
        self.keypad_shadow[k as usize] = true;
        self.key_release_ns[k as usize] = now_ns;
    }
}

/// Applies the input code `input_event` (see `key_event`) at time `now_ns` to the
/// keypad of `vm`.
pub fn set_keypad_value(vm: &mut VirtualMachine, input_event: usize, now_ns: u64)
    requires
        old(vm).wf(),
    ensures
        final(vm).wf(),
        final(vm)@ == input_spec(old(vm)@, input_event, now_ns),
{
    match key_event(input_event) {
        Some(KeyEvent::Down(k)) => vm.key_down(k),
        Some(KeyEvent::Up(k)) => vm.key_up(k, now_ns),
        None => {},
    }
}

} // verus!
