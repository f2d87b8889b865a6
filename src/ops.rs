use vstd::prelude::*;
use crate::machine::VmError;

verus! {

/// One decoded instruction with its operands. `x` and `y` name registers, `n` is a
/// nibble, `nn` a byte and `nnn` a 12-bit address.
#[derive(Clone, Copy, Debug, PartialEq, Eq, Structural)]
pub enum Operation {
    /// 0nnn: machine routine call, ignored.
    CallRoutine { nnn: u16 },
    /// 00E0: clear the screen.
    ClearDisplay,
    /// 00EE: return from a subroutine.
    SubroutineReturn,
    /// 1nnn: jump to nnn.
    JumpToNnn { nnn: u16 },
    /// 2nnn: call the subroutine at nnn.
    CallSubroutine { nnn: u16 },
    /// 3xnn: skip the next instruction if Vx == nn.
    SkipIfEqNn { x: u8, nn: u8 },
    /// 4xnn: skip the next instruction if Vx != nn.
    SkipIfNeqNn { x: u8, nn: u8 },
    /// 5xy0: skip the next instruction if Vx == Vy.
    SkipIfEq { x: u8, y: u8 },
    /// 6xnn: Vx = nn.
    SetVxToNn { x: u8, nn: u8 },
    /// 7xnn: Vx += nn, wrapping, flag untouched.
    AddNnToVx { x: u8, nn: u8 },
    /// 8xy0: Vx = Vy.
    Clone { x: u8, y: u8 },
    /// 8xy1: Vx |= Vy.
    Or { x: u8, y: u8 },
    /// 8xy2: Vx &= Vy.
    And { x: u8, y: u8 },
    /// 8xy3: Vx ^= Vy.
    Xor { x: u8, y: u8 },
    /// 8xy4: Vx += Vy, VF = carry.
    Add { x: u8, y: u8 },
    /// 8xy5: Vx -= Vy, VF = no borrow.
    SubtractVyFromVx { x: u8, y: u8 },
    /// 8xy6: shift right by one, VF = bit shifted out.
    ShiftRight { x: u8, y: u8 },
    /// 8xy7: Vx = Vy - Vx, VF = no borrow.
    SubtractVxFromVy { x: u8, y: u8 },
    /// 8xyE: shift left by one, VF = bit shifted out.
    ShiftLeft { x: u8, y: u8 },
    /// 9xy0: skip the next instruction if Vx != Vy.
    SkipIfNeq { x: u8, y: u8 },
    /// Annn: I = nnn.
    SetIToNnn { nnn: u16 },
    /// Bnnn: jump to nnn plus V0 (or plus V[nnn >> 8] under the jump quirk).
    JumpToV0PlusNnn { nnn: u16 },
    /// Cxnn: Vx = random byte AND nn.
    RandomAndNn { x: u8, nn: u8 },
    /// Dxyn: draw an n-row sprite from memory at I at (Vx, Vy).
    DrawSprite { x: u8, y: u8, n: u8 },
    /// Ex9E: skip the next instruction if key Vx is held.
    SkipIfPressed { x: u8 },
    /// ExA1: skip the next instruction if key Vx is not held.
    SkipIfNotPressed { x: u8 },
    /// Fx07: Vx = delay timer.
    CloneDtIntoVx { x: u8 },
    /// Fx0A: wait for a key to be pressed and released, store it in Vx.
    StoreKeypress { x: u8 },
    /// Fx15: delay timer = Vx.
    SetDelayTimer { x: u8 },
    /// Fx18: sound timer = Vx.
    SetSoundTimer { x: u8 },
    /// Fx1E: I += Vx, wrapping.
    AddVxToI { x: u8 },
    /// Fx29: I = address of the glyph of digit Vx.
    SetIToFontSpriteLocation { x: u8 },
    /// Fx33: decimal digits of Vx to memory at I, I+1, I+2.
    BcdVx { x: u8 },
    /// Fx55: V0..=Vx to memory from I.
    DumpRegisters { x: u8 },
    /// Fx65: V0..=Vx from memory from I.
    LoadRegisters { x: u8 },
}

/// The operation that `opcode` names, or `UnknownOpcode`.
pub open spec fn decode_spec(opcode: u16) -> Result<Operation, VmError> {
    let n = (opcode % 16) as u8;
    let nn = (opcode % 256) as u8;
    let nnn = (opcode % 4096) as u16;
    let x = ((opcode / 256) % 16) as u8;
    let y = ((opcode / 16) % 16) as u8;
    let family = opcode / 4096;
    if family == 0x0 {
        if opcode == 0x00e0 {
            Ok(Operation::ClearDisplay)
        } else if opcode == 0x00ee {
            Ok(Operation::SubroutineReturn)
        } else {
            Ok(Operation::CallRoutine { nnn })
        }
    } else if family == 0x1 {
        Ok(Operation::JumpToNnn { nnn })
    } else if family == 0x2 {
        Ok(Operation::CallSubroutine { nnn })
    } else if family == 0x3 {
        Ok(Operation::SkipIfEqNn { x, nn })
    } else if family == 0x4 {
        Ok(Operation::SkipIfNeqNn { x, nn })
    } else if family == 0x5 && n == 0 {
        Ok(Operation::SkipIfEq { x, y })
    } else if family == 0x6 {
        Ok(Operation::SetVxToNn { x, nn })
    } else if family == 0x7 {
        Ok(Operation::AddNnToVx { x, nn })
    } else if family == 0x8 && n == 0x0 {
        Ok(Operation::Clone { x, y })
    } else if family == 0x8 && n == 0x1 {
        Ok(Operation::Or { x, y })
    } else if family == 0x8 && n == 0x2 {
        Ok(Operation::And { x, y })
    } else if family == 0x8 && n == 0x3 {
        Ok(Operation::Xor { x, y })
    } else if family == 0x8 && n == 0x4 {
        Ok(Operation::Add { x, y })
    } else if family == 0x8 && n == 0x5 {
        Ok(Operation::SubtractVyFromVx { x, y })
    } else if family == 0x8 && n == 0x6 {
        Ok(Operation::ShiftRight { x, y })
    } else if family == 0x8 && n == 0x7 {
        Ok(Operation::SubtractVxFromVy { x, y })
    } else if family == 0x8 && n == 0xe {
        Ok(Operation::ShiftLeft { x, y })
    } else if family == 0x9 && n == 0 {
        Ok(Operation::SkipIfNeq { x, y })
    } else if family == 0xa {
        Ok(Operation::SetIToNnn { nnn })
    } else if family == 0xb {
        Ok(Operation::JumpToV0PlusNnn { nnn })
    } else if family == 0xc {
        Ok(Operation::RandomAndNn { x, nn })
    } else if family == 0xd {
        Ok(Operation::DrawSprite { x, y, n })
    } else if family == 0xe && nn == 0x9e {
        Ok(Operation::SkipIfPressed { x })
    } else if family == 0xe && nn == 0xa1 {
        Ok(Operation::SkipIfNotPressed { x })
    } else if family == 0xf && nn == 0x07 {
        Ok(Operation::CloneDtIntoVx { x })
    } else if family == 0xf && nn == 0x0a {
        Ok(Operation::StoreKeypress { x })
    } else if family == 0xf && nn == 0x15 {
        Ok(Operation::SetDelayTimer { x })
    } else if family == 0xf && nn == 0x18 {
        Ok(Operation::SetSoundTimer { x })
    } else if family == 0xf && nn == 0x1e {
        Ok(Operation::AddVxToI { x })
    } else if family == 0xf && nn == 0x29 {
        Ok(Operation::SetIToFontSpriteLocation { x })
    } else if family == 0xf && nn == 0x33 {
        Ok(Operation::BcdVx { x })
    } else if family == 0xf && nn == 0x55 {
        Ok(Operation::DumpRegisters { x })
    } else if family == 0xf && nn == 0x65 {
        Ok(Operation::LoadRegisters { x })
    } else {
        Err(VmError::UnknownOpcode(opcode))
    }
}

impl Operation {
    /// Register operands name one of the sixteen registers, nibbles fit in four bits
    /// and addresses in twelve.
    pub open spec fn wf(self) -> bool {
        match self {
            Operation::CallRoutine { nnn } => nnn < 4096,
            Operation::JumpToNnn { nnn } => nnn < 4096,
            Operation::CallSubroutine { nnn } => nnn < 4096,
            Operation::SetIToNnn { nnn } => nnn < 4096,
            Operation::JumpToV0PlusNnn { nnn } => nnn < 4096,
            Operation::ClearDisplay => true,
            Operation::SubroutineReturn => true,
            Operation::SkipIfEqNn { x, nn } => x < 16,
            Operation::SkipIfNeqNn { x, nn } => x < 16,
            Operation::SetVxToNn { x, nn } => x < 16,
            Operation::AddNnToVx { x, nn } => x < 16,
            Operation::RandomAndNn { x, nn } => x < 16,
            Operation::SkipIfEq { x, y } => x < 16 && y < 16,
            Operation::Clone { x, y } => x < 16 && y < 16,
            Operation::Or { x, y } => x < 16 && y < 16,
            Operation::And { x, y } => x < 16 && y < 16,
            Operation::Xor { x, y } => x < 16 && y < 16,
            Operation::Add { x, y } => x < 16 && y < 16,
            Operation::SubtractVyFromVx { x, y } => x < 16 && y < 16,
            Operation::ShiftRight { x, y } => x < 16 && y < 16,
            Operation::SubtractVxFromVy { x, y } => x < 16 && y < 16,
            Operation::ShiftLeft { x, y } => x < 16 && y < 16,
            Operation::SkipIfNeq { x, y } => x < 16 && y < 16,
            Operation::DrawSprite { x, y, n } => x < 16 && y < 16 && n < 16,
            Operation::SkipIfPressed { x } => x < 16,
            Operation::SkipIfNotPressed { x } => x < 16,
            Operation::CloneDtIntoVx { x } => x < 16,
            Operation::StoreKeypress { x } => x < 16,
            Operation::SetDelayTimer { x } => x < 16,
            Operation::SetSoundTimer { x } => x < 16,
            Operation::AddVxToI { x } => x < 16,
            Operation::SetIToFontSpriteLocation { x } => x < 16,
            Operation::BcdVx { x } => x < 16,
            Operation::DumpRegisters { x } => x < 16,
            Operation::LoadRegisters { x } => x < 16,
        }
    }

    /// Historical execution time of the operation in microseconds.
    pub open spec fn base_cost_us(self) -> u64 {
        match self {
            Operation::CallRoutine { .. } => 100,
            Operation::ClearDisplay => 109,
            Operation::SubroutineReturn => 105,
            Operation::JumpToNnn { .. } => 105,
            Operation::CallSubroutine { .. } => 105,
            Operation::SkipIfEqNn { .. } => 61,
            Operation::SkipIfNeqNn { .. } => 61,
            Operation::SkipIfEq { .. } => 61,
            Operation::SetVxToNn { .. } => 27,
            Operation::AddNnToVx { .. } => 45,
            Operation::Clone { .. } => 45,
            Operation::Or { .. } => 200,
            Operation::And { .. } => 200,
            Operation::Xor { .. } => 200,
            Operation::Add { .. } => 45,
            Operation::SubtractVyFromVx { .. } => 200,
            Operation::ShiftRight { .. } => 200,
            Operation::SubtractVxFromVy { .. } => 200,
            Operation::ShiftLeft { .. } => 200,
            Operation::SkipIfNeq { .. } => 61,
            Operation::SetIToNnn { .. } => 55,
            Operation::JumpToV0PlusNnn { .. } => 105,
            Operation::RandomAndNn { .. } => 164,
            Operation::DrawSprite { .. } => 10734,
            Operation::SkipIfPressed { .. } => 73,
            Operation::SkipIfNotPressed { .. } => 73,
            Operation::CloneDtIntoVx { .. } => 27,
            Operation::StoreKeypress { .. } => 200,
            Operation::SetDelayTimer { .. } => 45,
            Operation::SetSoundTimer { .. } => 45,
            Operation::AddVxToI { .. } => 86,
            Operation::SetIToFontSpriteLocation { .. } => 91,
            Operation::BcdVx { .. } => 927,
            Operation::DumpRegisters { .. } => 605,
            Operation::LoadRegisters { .. } => 605,
        }
    }

    /// Simulated cost in nanoseconds at a speed scale of `permille` thousandths.
    pub open spec fn cost_ns_spec(self, permille: u32) -> u64 {
        (self.base_cost_us() * permille) as u64
    }

    /// Returns the historical execution time of the operation in microseconds.
    pub fn base_cost(&self) -> (r: u64)
        ensures
            r == self.base_cost_us(),
            r <= 10734,
    {
        match self {
            Operation::CallRoutine { .. } => 100,
            Operation::ClearDisplay => 109,
            Operation::SubroutineReturn => 105,
            Operation::JumpToNnn { .. } => 105,
            Operation::CallSubroutine { .. } => 105,
            Operation::SkipIfEqNn { .. } => 61,
            Operation::SkipIfNeqNn { .. } => 61,
            Operation::SkipIfEq { .. } => 61,
            Operation::SetVxToNn { .. } => 27,
            Operation::AddNnToVx { .. } => 45,
            Operation::Clone { .. } => 45,
            Operation::Or { .. } => 200,
            Operation::And { .. } => 200,
            Operation::Xor { .. } => 200,
            Operation::Add { .. } => 45,
            Operation::SubtractVyFromVx { .. } => 200,
            Operation::ShiftRight { .. } => 200,
            Operation::SubtractVxFromVy { .. } => 200,
            Operation::ShiftLeft { .. } => 200,
            Operation::SkipIfNeq { .. } => 61,
            Operation::SetIToNnn { .. } => 55,
            Operation::JumpToV0PlusNnn { .. } => 105,
            Operation::RandomAndNn { .. } => 164,
            Operation::DrawSprite { .. } => 10734,
            Operation::SkipIfPressed { .. } => 73,
            Operation::SkipIfNotPressed { .. } => 73,
            Operation::CloneDtIntoVx { .. } => 27,
            Operation::StoreKeypress { .. } => 200,
            Operation::SetDelayTimer { .. } => 45,
            Operation::SetSoundTimer { .. } => 45,
            Operation::AddVxToI { .. } => 86,
            Operation::SetIToFontSpriteLocation { .. } => 91,
            Operation::BcdVx { .. } => 927,
            Operation::DumpRegisters { .. } => 605,
            Operation::LoadRegisters { .. } => 605,
        }
    }

    /// Returns the simulated cost in nanoseconds at a speed scale of `permille`
    /// thousandths: the base cost in microseconds times `permille / 1000`.
    pub fn cost_ns(&self, permille: u32) -> (r: u64)
        ensures
            r == self.cost_ns_spec(permille),
            r == self.base_cost_us() * permille,
    {
        let base = self.base_cost();
        assert(base * permille <= 10734 * 0xffff_ffff) by (nonlinear_arith)
            requires
                base <= 10734,
                permille <= 0xffff_ffff,
        ;
        base * (permille as u64)
    }
}

/// Splits `opcode` into its operation and operands.
pub fn decode_opcode(opcode: u16) -> (r: Result<Operation, VmError>)
    ensures
        r == decode_spec(opcode),
        r matches Ok(op) ==> op.wf(),
{
    let n: u8 = (opcode % 16) as u8;
    let nn: u8 = (opcode % 256) as u8;
    let nnn: u16 = opcode % 4096;
    let x: u8 = ((opcode / 256) % 16) as u8;
    let y: u8 = ((opcode / 16) % 16) as u8;
    match opcode / 4096 {
        0x0 => {
            if opcode == 0x00e0 {
                Ok(Operation::ClearDisplay)
            } else if opcode == 0x00ee {
                Ok(Operation::SubroutineReturn)
            } else {
                Ok(Operation::CallRoutine { nnn })
            }
        },
        0x1 => Ok(Operation::JumpToNnn { nnn }),
        0x2 => Ok(Operation::CallSubroutine { nnn }),
        0x3 => Ok(Operation::SkipIfEqNn { x, nn }),
        0x4 => Ok(Operation::SkipIfNeqNn { x, nn }),
        0x5 => {
            if n == 0 {
                Ok(Operation::SkipIfEq { x, y })
            } else {
                Err(VmError::UnknownOpcode(opcode))
            }
        },
        0x6 => Ok(Operation::SetVxToNn { x, nn }),
        0x7 => Ok(Operation::AddNnToVx { x, nn }),
        0x8 => match n {
            0x0 => Ok(Operation::Clone { x, y }),
            0x1 => Ok(Operation::Or { x, y }),
            0x2 => Ok(Operation::And { x, y }),
            0x3 => Ok(Operation::Xor { x, y }),
            0x4 => Ok(Operation::Add { x, y }),
            0x5 => Ok(Operation::SubtractVyFromVx { x, y }),
            0x6 => Ok(Operation::ShiftRight { x, y }),
            0x7 => Ok(Operation::SubtractVxFromVy { x, y }),
            0xe => Ok(Operation::ShiftLeft { x, y }),
            _ => Err(VmError::UnknownOpcode(opcode)),
        },
        0x9 => {
            if n == 0 {
                Ok(Operation::SkipIfNeq { x, y })
            } else {
                Err(VmError::UnknownOpcode(opcode))
            }
        },
        0xa => Ok(Operation::SetIToNnn { nnn }),
        0xb => Ok(Operation::JumpToV0PlusNnn { nnn }),
        0xc => Ok(Operation::RandomAndNn { x, nn }),
        0xd => Ok(Operation::DrawSprite { x, y, n }),
        0xe => match nn {
            0x9e => Ok(Operation::SkipIfPressed { x }),
            0xa1 => Ok(Operation::SkipIfNotPressed { x }),
            _ => Err(VmError::UnknownOpcode(opcode)),
        },
        _ => match nn {
            0x07 => Ok(Operation::CloneDtIntoVx { x }),
            0x0a => Ok(Operation::StoreKeypress { x }),
            0x15 => Ok(Operation::SetDelayTimer { x }),
            0x18 => Ok(Operation::SetSoundTimer { x }),
            0x1e => Ok(Operation::AddVxToI { x }),
            0x29 => Ok(Operation::SetIToFontSpriteLocation { x }),
            0x33 => Ok(Operation::BcdVx { x }),
            0x55 => Ok(Operation::DumpRegisters { x }),
            0x65 => Ok(Operation::LoadRegisters { x }),
            _ => Err(VmError::UnknownOpcode(opcode)),
        },
    }
}

} // verus!
