use vstd::prelude::*;

use crate::errors::DecodeError;

verus! {

/// The closed set of 35 instruction encodings of the machine. Each variant
/// carries the operands extracted from the opcode: register indices come
/// first (x, then y), then an immediate byte, address, or sprite height.
#[derive(Debug, Clone, Copy, PartialEq, Eq, Structural)]
pub enum Instruction {
    /// Clears the display. Opcode: 00E0
    DisplayClear,
    /// Returns from a subroutine. Opcode: 00EE
    FlowReturn,
    /// Jumps to address NNN. Opcode: 1NNN
    FlowJump(usize),
    /// Calls a subroutine at address NNN. Opcode: 2NNN
    FlowCall(u16),
    /// Skips the next instruction if Vx equals NN. Opcode: 3XNN
    CondVxNNEq(usize, u8),
    /// Skips the next instruction if Vx does not equal NN. Opcode: 4XNN
    CondVxNNNeq(usize, u8),
    /// Skips the next instruction if Vx equals Vy. Opcode: 5XY0
    CondVxVyEq(usize, usize),
    /// Sets Vx to NN. Opcode: 6XNN
    ConstVxNN(usize, u8),
    /// Adds NN to Vx with 8-bit wraparound; the flag is untouched. Opcode: 7XNN
    ConstVxAddNN(usize, u8),
    /// Sets Vx to the value of Vy. Opcode: 8XY0
    AssignVxVy(usize, usize),
    /// Sets Vx to (Vx | Vy). Opcode: 8XY1
    BitOpOR(usize, usize),
    /// Sets Vx to (Vx & Vy). Opcode: 8XY2
    BitOpAND(usize, usize),
    /// Sets Vx to (Vx ^ Vy). Opcode: 8XY3
    BitOpXOR(usize, usize),
    /// Adds Vy to Vx; VF is 1 when the add carried, else 0. Opcode: 8XY4
    MathVxVyAdd(usize, usize),
    /// Subtracts Vy from Vx; VF is 0 when the subtraction borrowed, else 1.
    /// Opcode: 8XY5
    MathVxVySub(usize, usize),
    /// Stores the least significant bit of Vx in VF, then shifts Vx right
    /// by one. Opcode: 8XY6
    BitOpShiftRight(usize, usize),
    /// Stores Vy minus Vx in Vx; VF is 0 when the subtraction borrowed,
    /// else 1. Opcode: 8XY7
    MathVyVxSub(usize, usize),
    /// Stores the most significant bit of Vx in VF, then shifts Vx left by
    /// one. Opcode: 8XYE
    BitOpShiftLeft(usize, usize),
    /// Skips the next instruction if Vx does not equal Vy. Opcode: 9XY0
    CondVxVyNeq(usize, usize),
    /// Sets the index register to NNN. Opcode: ANNN
    MemSetIAddress(u16),
    /// Jumps to NNN plus V0. Opcode: BNNN
    FlowJumpOffsetV0(usize),
    /// Sets Vx to a random byte masked by NN. Opcode: CXNN
    RandomANDVxNN(usize, u8),
    /// XOR-blits an 8-wide, N-tall sprite at (Vx, Vy). Opcode: DXYN
    DrawSprite(usize, usize, usize),
    /// Skips the next instruction if the key named by Vx is pressed.
    /// Opcode: EX9E
    KeyOpKeyPressed(usize),
    /// Skips the next instruction if the key named by Vx is not pressed.
    /// Opcode: EXA1
    KeyOpKeyNotPressed(usize),
    /// Sets Vx to the delay timer. Opcode: FX07
    DelayTimerSaveVx(usize),
    /// Waits for a pressed key and stores its index in Vx; suspends rather
    /// than advancing while no key is down. Opcode: FX0A
    KeyOpGetKey(usize),
    /// Sets the delay timer to Vx. Opcode: FX15
    DelayTimerSetVx(usize),
    /// Sets the sound timer to Vx. Opcode: FX18
    SoundTimerSetVx(usize),
    /// Adds Vx to the index register with 16-bit wraparound; the flag is
    /// untouched. Opcode: FX1E
    MemAddIVx(usize),
    /// Points the index register at the font glyph for Vx. Opcode: FX29
    MemSetISprite(usize),
    /// Stores the three decimal digits of Vx at Index, Index+1, Index+2.
    /// Opcode: FX33
    BCDSave(usize),
    /// Copies V0..=Vx to memory starting at Index. Opcode: FX55
    MemRegisterDump(usize),
    /// Loads V0..=Vx from memory starting at Index. Opcode: FX65
    MemRegisterLoad(usize),
}

/// What `Instruction::try_from` yields for every 16-bit word: the decoded
/// instruction, or `None` where the word matches no documented encoding.
pub open spec fn decoded(op: u16) -> Option<Instruction> {
    if op == 0x00E0 {
        Some(Instruction::DisplayClear)
    } else if op == 0x00EE {
        Some(Instruction::FlowReturn)
    } else {
        let family = op >> 12u16;
        let x = ((op & 0xF00) >> 8u16) as usize;
        let y = ((op & 0xF0) >> 4u16) as usize;
        let nn = (op & 0xFF) as u8;
        let nnn = op & 0xFFF;
        let n = op & 0xF;
        if family == 0x1 {
            Some(Instruction::FlowJump(nnn as usize))
        } else if family == 0x2 {
            Some(Instruction::FlowCall(nnn))
        } else if family == 0x3 {
            Some(Instruction::CondVxNNEq(x, nn))
        } else if family == 0x4 {
            Some(Instruction::CondVxNNNeq(x, nn))
        } else if family == 0x5 {
            if n == 0 {
                Some(Instruction::CondVxVyEq(x, y))
            } else {
                None
            }
        } else if family == 0x6 {
            Some(Instruction::ConstVxNN(x, nn))
        } else if family == 0x7 {
            Some(Instruction::ConstVxAddNN(x, nn))
        } else if family == 0x8 {
            if n == 0x0 {
                Some(Instruction::AssignVxVy(x, y))
            } else if n == 0x1 {
                Some(Instruction::BitOpOR(x, y))
            } else if n == 0x2 {
                Some(Instruction::BitOpAND(x, y))
            } else if n == 0x3 {
                Some(Instruction::BitOpXOR(x, y))
            } else if n == 0x4 {
                Some(Instruction::MathVxVyAdd(x, y))
            } else if n == 0x5 {
                Some(Instruction::MathVxVySub(x, y))
            } else if n == 0x6 {
                Some(Instruction::BitOpShiftRight(x, y))
            } else if n == 0x7 {
                Some(Instruction::MathVyVxSub(x, y))
            } else if n == 0xE {
                Some(Instruction::BitOpShiftLeft(x, y))
            } else {
                None
            }
        } else if family == 0x9 {
            if n == 0 {
                Some(Instruction::CondVxVyNeq(x, y))
            } else {
                None
            }
        } else if family == 0xA {
            Some(Instruction::MemSetIAddress(nnn))
        } else if family == 0xB {
            Some(Instruction::FlowJumpOffsetV0(nnn as usize))
        } else if family == 0xC {
            Some(Instruction::RandomANDVxNN(x, nn))
        } else if family == 0xD {
            Some(Instruction::DrawSprite(x, y, n as usize))
        } else if family == 0xE {
            if nn == 0x9E {
                Some(Instruction::KeyOpKeyPressed(x))
            } else if nn == 0xA1 {
                Some(Instruction::KeyOpKeyNotPressed(x))
            } else {
                None
            }
        } else if family == 0xF {
            if nn == 0x07 {
                Some(Instruction::DelayTimerSaveVx(x))
            } else if nn == 0x0A {
                Some(Instruction::KeyOpGetKey(x))
            } else if nn == 0x15 {
                Some(Instruction::DelayTimerSetVx(x))
            } else if nn == 0x18 {
                Some(Instruction::SoundTimerSetVx(x))
            } else if nn == 0x1E {
                Some(Instruction::MemAddIVx(x))
            } else if nn == 0x29 {
                Some(Instruction::MemSetISprite(x))
            } else if nn == 0x33 {
                Some(Instruction::BCDSave(x))
            } else if nn == 0x55 {
                Some(Instruction::MemRegisterDump(x))
            } else if nn == 0x65 {
                Some(Instruction::MemRegisterLoad(x))
            } else {
                None
            }
        } else {
            None
        }
    }
}

impl Instruction {
    /// Operand ranges every decoded instruction satisfies: register indices
    /// below 16, addresses below 0x1000, sprite heights below 16.
    pub open spec fn wf(&self) -> bool {
        match *self {
            Instruction::DisplayClear => true,
            Instruction::FlowReturn => true,
            Instruction::FlowJump(a) => a < 0x1000,
            Instruction::FlowCall(a) => a < 0x1000,
            Instruction::CondVxNNEq(x, _) => x < 16,
            Instruction::CondVxNNNeq(x, _) => x < 16,
            Instruction::CondVxVyEq(x, y) => x < 16 && y < 16,
            Instruction::ConstVxNN(x, _) => x < 16,
            Instruction::ConstVxAddNN(x, _) => x < 16,
            Instruction::AssignVxVy(x, y) => x < 16 && y < 16,
            Instruction::BitOpOR(x, y) => x < 16 && y < 16,
            Instruction::BitOpAND(x, y) => x < 16 && y < 16,
            Instruction::BitOpXOR(x, y) => x < 16 && y < 16,
            Instruction::MathVxVyAdd(x, y) => x < 16 && y < 16,
            Instruction::MathVxVySub(x, y) => x < 16 && y < 16,
            Instruction::BitOpShiftRight(x, y) => x < 16 && y < 16,
            Instruction::MathVyVxSub(x, y) => x < 16 && y < 16,
            Instruction::BitOpShiftLeft(x, y) => x < 16 && y < 16,
            Instruction::CondVxVyNeq(x, y) => x < 16 && y < 16,
            Instruction::MemSetIAddress(a) => a < 0x1000,
            Instruction::FlowJumpOffsetV0(a) => a < 0x1000,
            Instruction::RandomANDVxNN(x, _) => x < 16,
            Instruction::DrawSprite(x, y, h) => x < 16 && y < 16 && h < 16,
            Instruction::KeyOpKeyPressed(x) => x < 16,
            Instruction::KeyOpKeyNotPressed(x) => x < 16,
            Instruction::DelayTimerSaveVx(x) => x < 16,
            Instruction::KeyOpGetKey(x) => x < 16,
            Instruction::DelayTimerSetVx(x) => x < 16,
            Instruction::SoundTimerSetVx(x) => x < 16,
            Instruction::MemAddIVx(x) => x < 16,
            Instruction::MemSetISprite(x) => x < 16,
            Instruction::BCDSave(x) => x < 16,
            Instruction::MemRegisterDump(x) => x < 16,
            Instruction::MemRegisterLoad(x) => x < 16,
        }
    }

    /// The two register operands of an opcode: x from bits 8-11, y from
    /// bits 4-7.
    pub fn get_registers(opcode: u16) -> (r: (usize, usize))
        ensures
            r.0 == ((opcode & 0xF00) >> 8u16) as usize,
            r.1 == ((opcode & 0xF0) >> 4u16) as usize,
            r.0 < 16,
            r.1 < 16,
    {
        let x = (opcode & 0xF00) >> 8u16;
        let y = (opcode & 0xF0) >> 4u16;
        proof {
            assert((opcode & 0xF00) >> 8u16 < 16 && (opcode & 0xF0) >> 4u16 < 16) by (bit_vector);
        }
        (x as usize, y as usize)
    }

    /// The register operand and immediate byte of an opcode: x from bits
    /// 8-11, the byte from bits 0-7.
    pub fn get_register_and_byte(opcode: u16) -> (r: (usize, u8))
        ensures
            r.0 == ((opcode & 0xF00) >> 8u16) as usize,
            r.1 == (opcode & 0xFF) as u8,
            r.0 < 16,
    {
        let x = (opcode & 0xF00) >> 8u16;
        let byte = opcode & 0xFF;
        proof {
            assert((opcode & 0xF00) >> 8u16 < 16 && (opcode & 0xFF) < 0x100) by (bit_vector);
        }
        (x as usize, byte as u8)
    }

    /// The 12-bit address operand of an opcode.
    pub fn get_address(opcode: u16) -> (r: u16)
        ensures
            r == opcode & 0xFFF,
            r < 0x1000,
    {
        proof {
            assert(opcode & 0xFFF < 0x1000) by (bit_vector);
        }
        opcode & 0xFFF
    }

    /// Decodes a 16-bit opcode into its instruction, or reports the word
    /// itself when it matches no documented encoding. Pure and total: the
    /// result is exactly `decoded(opcode)` on success, and the error keeps
    /// the offending word.
    pub fn try_from(opcode: u16) -> (r: Result<Instruction, DecodeError>)
        ensures
            match r {
                Ok(instr) => decoded(opcode) == Some(instr) && instr.wf(),
                Err(e) => decoded(opcode) is None && e == (DecodeError { code: opcode }),
            },
    {
        if opcode == 0x00E0 {
            return Ok(Instruction::DisplayClear);
        } else if opcode == 0x00EE {
            return Ok(Instruction::FlowReturn);
        }

        let family = opcode >> 12u16;
        proof {
            assert(opcode >> 12u16 < 16) by (bit_vector);
            assert((opcode & 0xF) < 16 && (opcode & 0xFF) < 0x100) by (bit_vector);
        }
        match family {
            0x1 => {
                let addr = Instruction::get_address(opcode);
                Ok(Instruction::FlowJump(addr as usize))
            }
            0x2 => {
                let addr = Instruction::get_address(opcode);
                Ok(Instruction::FlowCall(addr))
            }
            0x3 => {
                let (x, byte) = Instruction::get_register_and_byte(opcode);
                Ok(Instruction::CondVxNNEq(x, byte))
            }
            0x4 => {
                let (x, byte) = Instruction::get_register_and_byte(opcode);
                Ok(Instruction::CondVxNNNeq(x, byte))
            }
            0x5 => {
                let (x, y) = Instruction::get_registers(opcode);
                match opcode & 0xF {
                    0x0 => Ok(Instruction::CondVxVyEq(x, y)),
                    _ => Err(DecodeError { code: opcode }),
                }
            }
            0x6 => {
                let (x, byte) = Instruction::get_register_and_byte(opcode);
                Ok(Instruction::ConstVxNN(x, byte))
            }
            0x7 => {
                let (x, byte) = Instruction::get_register_and_byte(opcode);
                Ok(Instruction::ConstVxAddNN(x, byte))
            }
            0x8 => {
                let (x, y) = Instruction::get_registers(opcode);
                match opcode & 0xF {
                    0x0 => Ok(Instruction::AssignVxVy(x, y)),
                    0x1 => Ok(Instruction::BitOpOR(x, y)),
                    0x2 => Ok(Instruction::BitOpAND(x, y)),
                    0x3 => Ok(Instruction::BitOpXOR(x, y)),
                    0x4 => Ok(Instruction::MathVxVyAdd(x, y)),
                    0x5 => Ok(Instruction::MathVxVySub(x, y)),
                    0x6 => Ok(Instruction::BitOpShiftRight(x, y)),
                    0x7 => Ok(Instruction::MathVyVxSub(x, y)),
                    0xE => Ok(Instruction::BitOpShiftLeft(x, y)),
                    _ => Err(DecodeError { code: opcode }),
                }
            }
            0x9 => {
                let (x, y) = Instruction::get_registers(opcode);
                match opcode & 0xF {
                    0x0 => Ok(Instruction::CondVxVyNeq(x, y)),
                    _ => Err(DecodeError { code: opcode }),
                }
            }
            0xA => Ok(Instruction::MemSetIAddress(Instruction::get_address(opcode))),
            0xB => Ok(Instruction::FlowJumpOffsetV0(Instruction::get_address(opcode) as usize)),
            0xC => {
                let (x, byte) = Instruction::get_register_and_byte(opcode);
                Ok(Instruction::RandomANDVxNN(x, byte))
            }
            0xD => {
                let (x, y) = Instruction::get_registers(opcode);
                let height = opcode & 0xF;
                Ok(Instruction::DrawSprite(x, y, height as usize))
            }
            0xE => {
                let (x, _) = Instruction::get_registers(opcode);
                match opcode & 0xFF {
                    0x9E => Ok(Instruction::KeyOpKeyPressed(x)),
                    0xA1 => Ok(Instruction::KeyOpKeyNotPressed(x)),
                    _ => Err(DecodeError { code: opcode }),
                }
            }
            0xF => {
                let (x, _) = Instruction::get_registers(opcode);
                match opcode & 0xFF {
                    0x07 => Ok(Instruction::DelayTimerSaveVx(x)),
                    0x0A => Ok(Instruction::KeyOpGetKey(x)),
                    0x15 => Ok(Instruction::DelayTimerSetVx(x)),
                    0x18 => Ok(Instruction::SoundTimerSetVx(x)),
                    0x1E => Ok(Instruction::MemAddIVx(x)),
                    0x29 => Ok(Instruction::MemSetISprite(x)),
                    0x33 => Ok(Instruction::BCDSave(x)),
                    0x55 => Ok(Instruction::MemRegisterDump(x)),
                    0x65 => Ok(Instruction::MemRegisterLoad(x)),
                    _ => Err(DecodeError { code: opcode }),
                }
            }
            _ => Err(DecodeError { code: opcode }),
        }
    }
}

} // verus!
