use vstd::prelude::*;
use crate::settings::Chip8Settings;

verus! {

/// Number of addressable memory cells.
pub const MEMORY_SIZE: usize = 4096;
/// Address at which programs are loaded and execution starts.
pub const PROGRAM_START: u16 = 0x200;
/// Depth of the call stack.
pub const STACK_DEPTH: usize = 16;
/// Number of pixels on the screen, stored row by row.
pub const FRAME_BUFFER_SIZE: usize = 2048;
/// Number of keys on the keypad.
pub const KEY_COUNT: usize = 16;
/// Length of one frame in nanoseconds (60 frames per second).
pub const FRAME_BUDGET_NS: u64 = 16_666_667;
/// How long a released key stays marked as recently released, in nanoseconds.
pub const KEY_RELEASE_NS: u64 = 30_000_000;

/// Why the machine cannot go on.
#[derive(Clone, Copy, Debug, PartialEq, Eq, Structural)]
pub enum VmError {
    /// A read or write outside the 4096 memory cells.
    MemoryOutOfBounds,
    /// An opcode that names no operation.
    UnknownOpcode(u16),
    /// A return with an empty call stack.
    StackUnderflow,
    /// A call with a full call stack.
    StackOverflow,
    /// The font does not fit below the program area.
    FontOutOfRange,
    /// The program does not fit in memory.
    ProgramTooLarge,
}

/// What one attempt to run an operation did.
#[derive(Clone, Copy, Debug, PartialEq, Eq, Structural)]
pub enum Execution {
    /// The operation ran; its simulated cost in nanoseconds.
    Done(u64),
    /// The operation would overrun the frame budget: nothing changed and it is tried
    /// again on the next cycle.
    Deferred,
}

/// The machine as mathematical values.
pub struct VmState {
    pub mem: Seq<u8>,
    pub v: Seq<u8>,
    pub i: u16,
    /// The call stack, bottom first.
    pub stack: Seq<u16>,
    pub pc: u16,
    pub delay_timer: u8,
    pub sound_timer: u8,
    pub keypad: Seq<bool>,
    pub keypad_shadow: Seq<bool>,
    pub key_release_ns: Seq<u64>,
    pub fb: Seq<bool>,
    pub draw_flag: bool,
    pub font_locations: Seq<u16>,
    pub frame_time_ns: u64,
    pub settings: Chip8Settings,
}

/// A CHIP-8 virtual machine.
pub struct VirtualMachine {
    /// Working memory, addresses 0x000 to 0xfff.
    pub mem: [u8; 4096],
    /// General purpose registers V0 to VF; VF doubles as the flag register.
    pub v: [u8; 16],
    /// Index register.
    pub i: u16,
    /// Return addresses; the first `sp` entries are in use.
    pub stack: [u16; 16],
    /// Number of return addresses on the stack.
    pub sp: usize,
    /// Address of the next opcode.
    pub pc: u16,
    /// Counts down once per frame while not zero.
    pub delay_timer: u8,
    /// Counts down once per frame while not zero; the buzzer sounds while it is not zero.
    pub sound_timer: u8,
    /// Which keys are held down.
    pub keypad: [bool; 16],
    /// Which keys were released less than the release window ago.
    pub keypad_shadow: [bool; 16],
    /// When each key was last released, in nanoseconds of the host's clock.
    pub key_release_ns: [u64; 16],
    /// The screen, 64 x 32 pixels, row by row.
    pub fb: [bool; 2048],
    /// Set at each frame boundary; the renderer clears it after drawing.
    pub draw_flag: bool,
    /// Address of the glyph of each hex digit.
    pub font_locations: [u16; 16],
    /// Time spent in the current frame, in nanoseconds.
    pub frame_time_ns: u64,
    pub settings: Chip8Settings,
}

impl View for VirtualMachine {
    type V = VmState;

    open spec fn view(&self) -> VmState {
        VmState {
            mem: self.mem@,
            v: self.v@,
            i: self.i,
            stack: self.stack@.subrange(0, self.sp as int),
            pc: self.pc,
            delay_timer: self.delay_timer,
            sound_timer: self.sound_timer,
            keypad: self.keypad@,
            keypad_shadow: self.keypad_shadow@,
            key_release_ns: self.key_release_ns@,
            fb: self.fb@,
            draw_flag: self.draw_flag,
            font_locations: self.font_locations@,
            frame_time_ns: self.frame_time_ns,
            settings: self.settings,
        }
    }
}

impl VmState {
    /// The sizes of the state's parts and the bounds of its counters.
    pub open spec fn wf(self) -> bool {
        &&& self.mem.len() == 4096
        &&& self.v.len() == 16
        &&& self.stack.len() <= 16
        &&& self.keypad.len() == 16
        &&& self.keypad_shadow.len() == 16
        &&& self.key_release_ns.len() == 16
        &&& self.fb.len() == 2048
        &&& self.font_locations.len() == 16
        &&& self.frame_time_ns <= FRAME_BUDGET_NS
    }
}

impl VirtualMachine {
    pub open spec fn wf(&self) -> bool {
        &&& self.sp <= STACK_DEPTH
        &&& self.frame_time_ns <= FRAME_BUDGET_NS
    }
}

/// A well-formed machine has a well-formed view.
pub proof fn lemma_wf_view(m: VirtualMachine)
    requires
        m.wf(),
    ensures
        m@.wf(),
{
}

/// Memory right after construction: the font at `base`, the program at 0x200, zeros
/// elsewhere.
pub open spec fn initial_memory(base: int, program: Seq<u8>) -> Seq<u8> {
    Seq::new(
        4096,
        |a: int|
            if base <= a < base + 80 {
                font_glyphs()[a - base]
            } else if 0x200 <= a < 0x200 + program.len() {
                program[a - 0x200]
            } else {
                0u8
            },
    )
}

/// The machine right after construction with `settings` and `program`.
pub open spec fn initial_state(settings: Chip8Settings, program: Seq<u8>) -> VmState {
    VmState {
        mem: initial_memory(settings.font_memory_starting_location as int, program),
        v: Seq::new(16, |k: int| 0u8),
        i: 0,
        stack: Seq::empty(),
        pc: PROGRAM_START,
        delay_timer: 0,
        sound_timer: 0,
        keypad: Seq::new(16, |k: int| false),
        keypad_shadow: Seq::new(16, |k: int| false),
        key_release_ns: Seq::new(16, |k: int| 0u64),
        fb: Seq::new(2048, |p: int| false),
        draw_flag: false,
        font_locations: Seq::new(
            16,
            |k: int| (settings.font_memory_starting_location + 5 * k) as u16,
        ),
        frame_time_ns: 0,
        settings,
    }
}

/// The machine after `reset`: memory, font table and settings kept, everything else
/// cleared and execution back at the program start.
pub open spec fn reset_state(s: VmState) -> VmState {
    VmState {
        mem: s.mem,
        v: Seq::new(16, |k: int| 0u8),
        i: 0,
        stack: Seq::empty(),
        pc: PROGRAM_START,
        delay_timer: 0,
        sound_timer: 0,
        keypad: Seq::new(16, |k: int| false),
        keypad_shadow: Seq::new(16, |k: int| false),
        key_release_ns: Seq::new(16, |k: int| 0u64),
        fb: Seq::new(2048, |p: int| false),
        draw_flag: s.draw_flag,
        font_locations: s.font_locations,
        frame_time_ns: s.frame_time_ns,
        settings: s.settings,
    }
}

impl VirtualMachine {
    /// Builds a machine that holds the built-in font at the configured address and
    /// `program` at 0x200, ready to run it.
    pub fn initialize(settings: &Chip8Settings, program: &[u8]) -> (r: Result<
        VirtualMachine,
        VmError,
    >)
        ensures
            settings.font_memory_starting_location + 80 > 0x200 ==> r == Err::<
                VirtualMachine,
                VmError,
            >(VmError::FontOutOfRange),
            settings.font_memory_starting_location + 80 <= 0x200 && program@.len() > 4096
                - 0x200 ==> r == Err::<VirtualMachine, VmError>(VmError::ProgramTooLarge),
            settings.font_memory_starting_location + 80 <= 0x200 && program@.len() <= 4096
                - 0x200 ==> (r matches Ok(m) && m.wf() && m@ == initial_state(*settings, program@)),
    {
        let base: u16 = settings.font_memory_starting_location;
        if base > 0x200 - 80 {
            return Err(VmError::FontOutOfRange);
        }
        if program.len() > MEMORY_SIZE - 0x200 {
            return Err(VmError::ProgramTooLarge);
        }
        let font = font_data();
        let mut mem: [u8; 4096] = [0u8; 4096];
        let mut font_locations: [u16; 16] = [0u16; 16];
        let mut k: usize = 0;
        while k < 80
            invariant
                k <= 80,
                base + 80 <= 0x200,
                font@ == font_glyphs(),
                mem@.len() == 4096,
                font_locations@.len() == 16,
                forall|a: int|
                    0 <= a < 4096 ==> mem@[a] == (if base <= a < base + k {
                        font_glyphs()[a - base]
                    } else {
                        0u8
                    }),
                forall|c: int|
                    0 <= c < 16 && 5 * c < k ==> font_locations@[c] == (base + 5 * c) as u16,
            decreases 80 - k,
        {
            if k % 5 == 0 {
                font_locations[k / 5] = base + k as u16;
            }
            mem[base as usize + k] = font[k];
            k += 1;
        }
        let mut p: usize = 0;
        while p < program.len()
            invariant
                p <= program@.len(),
                program@.len() <= 4096 - 0x200,
                base + 80 <= 0x200,
                mem@.len() == 4096,
                forall|a: int|
                    0 <= a < 4096 ==> mem@[a] == (if base <= a < base + 80 {
                        font_glyphs()[a - base]
                    } else if 0x200 <= a < 0x200 + p {
                        program@[a - 0x200]
                    } else {
                        0u8
                    }),
            decreases program@.len() - p,
        {
            mem[0x200 + p] = program[p];
            p += 1;
        }
        let m = VirtualMachine {
            mem,
            v: [0u8; 16],
            i: 0,
            stack: [0u16; 16],
            sp: 0,
            pc: PROGRAM_START,
            delay_timer: 0,
            sound_timer: 0,
            keypad: [false; 16],
            keypad_shadow: [false; 16],
            key_release_ns: [0u64; 16],
            fb: [false; 2048],
            draw_flag: false,
            font_locations,
            frame_time_ns: 0,
            settings: *settings,
        };
        assert(m@.mem =~= initial_state(*settings, program@).mem);
        assert(m@.v =~= initial_state(*settings, program@).v);
        assert(m@.stack =~= initial_state(*settings, program@).stack);
        assert(m@.keypad =~= initial_state(*settings, program@).keypad);
        assert(m@.keypad_shadow =~= initial_state(*settings, program@).keypad_shadow);
        assert(m@.key_release_ns =~= initial_state(*settings, program@).key_release_ns);
        assert(m@.fb =~= initial_state(*settings, program@).fb);
        assert(m@.font_locations =~= initial_state(*settings, program@).font_locations);
        Ok(m)
    }

    /// Restarts the loaded program: registers, stack, timers, screen and keypad are
    /// cleared and the program counter goes back to 0x200. Memory, the font table and
    /// the settings are kept.
    pub fn reset(&mut self)
        requires
            old(self).wf(),
        ensures
            final(self).wf(),
            final(self)@ == reset_state(old(self)@),
    {
        let mut p: usize = 0;
        while p < FRAME_BUFFER_SIZE
            invariant
                p <= 2048,
                forall|q: int| 0 <= q < p ==> !self.fb@[q],
                self.sp == old(self).sp,
                self.mem == old(self).mem,
                self.font_locations == old(self).font_locations,
                self.settings == old(self).settings,
                self.draw_flag == old(self).draw_flag,
                self.frame_time_ns == old(self).frame_time_ns,
            decreases 2048 - p,
        {
            self.fb[p] = false;
            p += 1;
        }
        self.sp = 0;
        let mut k: usize = 0;
        while k < KEY_COUNT
            invariant
                k <= 16,
                self.sp == 0,
                forall|q: int| 0 <= q < 2048 ==> !self.fb@[q],
                self.mem == old(self).mem,
                self.font_locations == old(self).font_locations,
                self.settings == old(self).settings,
                self.draw_flag == old(self).draw_flag,
                self.frame_time_ns == old(self).frame_time_ns,
                forall|q: int| 0 <= q < k ==> self.v@[q] == 0,
                forall|q: int| 0 <= q < k ==> !self.keypad@[q],
                forall|q: int| 0 <= q < k ==> !self.keypad_shadow@[q],
                forall|q: int| 0 <= q < k ==> self.key_release_ns@[q] == 0,
            decreases 16 - k,
        {
            self.v[k] = 0;
            self.keypad[k] = false;
            self.keypad_shadow[k] = false;
            self.key_release_ns[k] = 0;
            k += 1;
        }
        self.i = 0;
        self.delay_timer = 0;
        self.sound_timer = 0;
        self.pc = PROGRAM_START;
        assert(self@.v =~= reset_state(old(self)@).v);
        assert(self@.stack =~= reset_state(old(self)@).stack);
        assert(self@.keypad =~= reset_state(old(self)@).keypad);
        assert(self@.keypad_shadow =~= reset_state(old(self)@).keypad_shadow);
        assert(self@.key_release_ns =~= reset_state(old(self)@).key_release_ns);
        assert(self@.fb =~= reset_state(old(self)@).fb);
    }

    /// Whether the buzzer should sound.
    pub fn buzzer_active(&self) -> (r: bool)
        ensures
            r == (self.sound_timer > 0),
    {
        self.sound_timer > 0
    }
}

/// The built-in font: sixteen glyphs for the hex digits, five rows of eight pixels
/// each, most significant bit leftmost.
pub open spec fn font_glyphs() -> Seq<u8> {
    seq![
        0xf0u8, 0x90, 0x90, 0x90, 0xf0, // 0
        0x20, 0x60, 0x20, 0x20, 0x70, // 1
        0xf0, 0x10, 0xf0, 0x80, 0xf0, // 2
        0xf0, 0x10, 0xf0, 0x10, 0xf0, // 3
        0x90, 0x90, 0xf0, 0x10, 0x10, // 4
        0xf0, 0x80, 0xf0, 0x10, 0xf0, // 5
        0xf0, 0x80, 0xf0, 0x90, 0xf0, // 6
        0xf0, 0x10, 0x20, 0x40, 0x40, // 7
        0xf0, 0x90, 0xf0, 0x90, 0xf0, // 8
        0xf0, 0x90, 0xf0, 0x10, 0xf0, // 9
        0xf0, 0x90, 0xf0, 0x90, 0x90, // A
        0xe0, 0x90, 0xe0, 0x90, 0xe0, // B
        0xf0, 0x80, 0x80, 0x80, 0xf0, // C
        0xe0, 0x90, 0x90, 0x90, 0xe0, // D
        0xf0, 0x80, 0xf0, 0x80, 0xf0, // E
        0xf0, 0x80, 0xf0, 0x80, 0x80, // F
    ]
}

/// Returns the built-in font as an array.
pub fn font_data() -> (r: [u8; 80])
    ensures
        r@ == font_glyphs(),
{
    [
        0xf0, 0x90, 0x90, 0x90, 0xf0, // 0
        0x20, 0x60, 0x20, 0x20, 0x70, // 1
        0xf0, 0x10, 0xf0, 0x80, 0xf0, // 2
        0xf0, 0x10, 0xf0, 0x10, 0xf0, // 3
        0x90, 0x90, 0xf0, 0x10, 0x10, // 4
        0xf0, 0x80, 0xf0, 0x10, 0xf0, // 5
        0xf0, 0x80, 0xf0, 0x90, 0xf0, // 6
        0xf0, 0x10, 0x20, 0x40, 0x40, // 7
        0xf0, 0x90, 0xf0, 0x90, 0xf0, // 8
        0xf0, 0x90, 0xf0, 0x10, 0xf0, // 9
        0xf0, 0x90, 0xf0, 0x90, 0x90, // A
        0xe0, 0x90, 0xe0, 0x90, 0xe0, // B
        0xf0, 0x80, 0x80, 0x80, 0xf0, // C
        0xe0, 0x90, 0x90, 0x90, 0xe0, // D
        0xf0, 0x80, 0xf0, 0x80, 0xf0, // E
        0xf0, 0x80, 0xf0, 0x80, 0x80, // F
    ]
}

} // verus!
