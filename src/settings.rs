use vstd::prelude::*;

verus! {

/// Compatibility toggles and tuning values handed to the machine when it is built.
/// The machine never changes them.
#[derive(Clone, Copy, Debug, PartialEq, Eq, Structural)]
pub struct Chip8Settings {
    /// `8xy6` / `8xyE` shift Vx in place instead of copying Vy into Vx first.
    pub shift_quirk: bool,
    /// `8xy1` / `8xy2` / `8xy3` reset VF to zero afterwards.
    pub or_and_xor_quirk: bool,
    /// `Fx55` / `Fx65` advance I by one for each register transferred.
    pub mem_quirk: bool,
    /// `Dxyn` takes its start coordinates modulo the screen size.
    pub sprite_wrapping_quirk: bool,
    /// `Bnnn` adds V[n >> 8] instead of V0.
    pub jump_offset_quirk: bool,
    /// Execution speed scale in thousandths: 1000 runs every operation at its
    /// historical cost, 500 at half of it.
    pub execution_speed_permille: u32,
    /// Address of the first glyph of the built-in font.
    pub font_memory_starting_location: u16,
}

} // verus!
