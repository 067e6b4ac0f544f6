//! The instruction codec: the bidirectional mapping between a symbolic
//! instruction and its packed binary word form.
//!
//! A word packs a 3 bit opcode into bits 15..13 of the 16 bit
//! instruction field and a 5 bit operand address into bits 4..0; the
//! bits in between are ignored on decode and zero on encode. The
//! opcodes `001` and `101` both decode to `Subtract` (one hardware bit
//! was unused), while encode always emits `001`: decode and encode are
//! deliberately not symmetric for that one opcode.

use vstd::prelude::*;

verus! {

use crate::text;

/// Defines each of the 7 instructions of the Baby's ISA, plus the
/// assembly-time marker for a raw data word.
#[derive(Debug, Clone, Copy, PartialEq, Eq, Structural)]
pub enum BabyInstruction {
    /// Jump to the instruction at the address obtained from the
    /// specified memory address (absolute unconditional jump).
    Jump(u16),
    /// Jump to the instruction at the program counter plus the
    /// relative value obtained from the specified memory address.
    RelativeJump(u16),
    /// Take the number from the specified memory address, negate it,
    /// and load it into the accumulator.
    Negate(u16),
    /// Store the number in the accumulator to the specified memory
    /// address.
    Store(u16),
    /// Subtract the number at the specified memory address from the
    /// accumulator, and store the result in the accumulator.
    Subtract(u16),
    /// Skip next instruction if the accumulator contains a negative
    /// value.
    SkipNextIfNegative,
    /// Stop.
    Stop,
    /// A helper instruction denoting program data in memory; it never
    /// reaches the running machine.
    AbsoluteValue(i32),
}

/// What a 16 bit instruction word decodes to: the top 3 bits select
/// the operation, the bottom 5 bits are the operand address.
pub open spec fn spec_decode(value: u16) -> BabyInstruction {
    let opcode = value >> 13;
    let operand = value & 0x1F;
    if opcode == 0b000 {
        BabyInstruction::Jump(operand)
    } else if opcode == 0b100 {
        BabyInstruction::RelativeJump(operand)
    } else if opcode == 0b010 {
        BabyInstruction::Negate(operand)
    } else if opcode == 0b110 {
        BabyInstruction::Store(operand)
    } else if opcode == 0b001 || opcode == 0b101 {
        BabyInstruction::Subtract(operand)
    } else if opcode == 0b011 {
        BabyInstruction::SkipNextIfNegative
    } else {
        BabyInstruction::Stop
    }
}

/// What an instruction encodes to: the opcode shifted into the top of
/// the 16 bit field, the operand masked to 5 bits. `Subtract` always
/// encodes as opcode `001`; an absolute value is the raw word itself.
pub open spec fn spec_encode(instr: BabyInstruction) -> i32 {
    match instr {
        BabyInstruction::Jump(operand) => (0b000i32 << 13) | (operand & 0x1F) as i32,
        BabyInstruction::RelativeJump(operand) => (0b100i32 << 13) | (operand & 0x1F) as i32,
        BabyInstruction::Negate(operand) => (0b010i32 << 13) | (operand & 0x1F) as i32,
        BabyInstruction::Store(operand) => (0b110i32 << 13) | (operand & 0x1F) as i32,
        BabyInstruction::Subtract(operand) => (0b001i32 << 13) | (operand & 0x1F) as i32,
        BabyInstruction::SkipNextIfNegative => 0b011i32 << 13,
        BabyInstruction::Stop => 0b111i32 << 13,
        BabyInstruction::AbsoluteValue(v) => v,
    }
}

/// The operand address carried by an instruction, masked to the 32
/// word address space; 0 for the variants that carry none.
pub open spec fn spec_operand(instr: BabyInstruction) -> usize {
    match instr {
        BabyInstruction::Jump(operand) => (operand & 0x1F) as usize,
        BabyInstruction::RelativeJump(operand) => (operand & 0x1F) as usize,
        BabyInstruction::Negate(operand) => (operand & 0x1F) as usize,
        BabyInstruction::Store(operand) => (operand & 0x1F) as usize,
        BabyInstruction::Subtract(operand) => (operand & 0x1F) as usize,
        BabyInstruction::SkipNextIfNegative => 0,
        BabyInstruction::Stop => 0,
        BabyInstruction::AbsoluteValue(_) => 0,
    }
}

/// The short description of an instruction.
pub open spec fn spec_instr_description(instr: BabyInstruction) -> Seq<char> {
    match instr {
        BabyInstruction::Jump(_) => "jump instruction"@,
        BabyInstruction::RelativeJump(_) => "relative jump instruction"@,
        BabyInstruction::Negate(_) => "negate instruction"@,
        BabyInstruction::Store(_) => "store instruction"@,
        BabyInstruction::Subtract(_) => "subtract instruction"@,
        BabyInstruction::SkipNextIfNegative => "skip next if negative instruction"@,
        BabyInstruction::Stop => "jump instruction"@,
        BabyInstruction::AbsoluteValue(v) => "absolute value "@ + text::spec_dec_i32(v),
    }
}

impl BabyInstruction {
    /// Gets a short description of the instruction.
    ///
    /// `Stop` describes itself as a jump instruction — a long-standing
    /// quirk of this machine's tooling that callers rely on.
    pub fn get_instr_description(&self) -> (r: String)
        ensures
            r@ == spec_instr_description(*self),
    {
        match self {
            BabyInstruction::Jump(_) => "jump instruction".to_owned(),
            BabyInstruction::RelativeJump(_) => "relative jump instruction".to_owned(),
            BabyInstruction::Negate(_) => "negate instruction".to_owned(),
            BabyInstruction::Store(_) => "store instruction".to_owned(),
            BabyInstruction::Subtract(_) => "subtract instruction".to_owned(),
            BabyInstruction::SkipNextIfNegative => "skip next if negative instruction".to_owned(),
            BabyInstruction::Stop => "jump instruction".to_owned(),
            BabyInstruction::AbsoluteValue(v) => {
                let mut s = String::from_str("absolute value ");
                s.append(text::dec_i32(*v).as_str());
                s
            },
        }
    }

    /// Decodes a 16 bit program instruction word.
    ///
    /// The top 3 bits select the operation:
    ///
    /// | bits | instruction |
    /// |------|-------------|
    /// | 000 | `Jump` |
    /// | 100 | `RelativeJump` |
    /// | 010 | `Negate` |
    /// | 110 | `Store` |
    /// | 001 or 101 | `Subtract` |
    /// | 011 | `SkipNextIfNegative` |
    /// | 111 | `Stop` |
    ///
    /// The bottom 5 bits are the operand address. Every word decodes
    /// to something: unmapped opcodes fall through to `Stop`.
    pub fn from_number(value: u16) -> (r: BabyInstruction)
        ensures
            r == spec_decode(value),
    {
        let opcode = value >> 13;
        let operand = value & 0x1F;
        let res = match opcode {
            0b000 => BabyInstruction::Jump(operand),
            0b100 => BabyInstruction::RelativeJump(operand),
            0b010 => BabyInstruction::Negate(operand),
            0b110 => BabyInstruction::Store(operand),
            0b001 | 0b101 => BabyInstruction::Subtract(operand),
            0b011 => BabyInstruction::SkipNextIfNegative,
            _ => BabyInstruction::Stop,
        };
        res
    }

    /// Encodes an instruction and operand into a program instruction
    /// word; an absolute value passes through unchanged.
    pub fn to_number(&self) -> (r: i32)
        ensures
            r == spec_encode(*self),
    {
        match self {
            BabyInstruction::Jump(operand) => (0b000i32 << 13) | (*operand & 0x1F) as i32,
            BabyInstruction::RelativeJump(operand) => (0b100i32 << 13) | (*operand & 0x1F) as i32,
            BabyInstruction::Negate(operand) => (0b010i32 << 13) | (*operand & 0x1F) as i32,
            BabyInstruction::Store(operand) => (0b110i32 << 13) | (*operand & 0x1F) as i32,
            BabyInstruction::Subtract(operand) => (0b001i32 << 13) | (*operand & 0x1F) as i32,
            BabyInstruction::SkipNextIfNegative => 0b011i32 << 13,
            BabyInstruction::Stop => 0b111i32 << 13,
            BabyInstruction::AbsoluteValue(v) => *v,
        }
    }

    /// Encodes a program of instructions into the fixed 32 word memory
    /// image; positions beyond the program are zero and instructions
    /// beyond the 32nd are dropped.
    pub fn to_numbers(instructions: Vec<BabyInstruction>) -> (r: [i32; 32])
        ensures
            forall|i: int|
                0 <= i < 32 ==> r@[i] == if i < instructions@.len() {
                    spec_encode(instructions@[i])
                } else {
                    0i32
                },
    {
        let mut res: [i32; 32] = [0; 32];
        let mut i: usize = 0;
        while i < 32
            invariant
                i <= 32,
                forall|j: int|
                    0 <= j < i ==> res@[j] == if j < instructions@.len() {
                        spec_encode(instructions@[j])
                    } else {
                        0i32
                    },
                forall|j: int| i <= j < 32 ==> res@[j] == 0i32,
            decreases 32 - i,
        {
            if i < instructions.len() {
                res[i] = instructions[i].to_number();
            }
            i = i + 1;
        }
        res
    }

    /// Gets the operand memory address from the instruction, masked
    /// with `0x1F` so that it always indexes within the 32 word
    /// memory; 0 for the variants without an operand.
    pub fn get_operand(&self) -> (r: usize)
        ensures
            r == spec_operand(*self),
            r < 32,
    {
        let r = match self {
            BabyInstruction::Jump(operand) => (*operand & 0x1F) as usize,
            BabyInstruction::RelativeJump(operand) => (*operand & 0x1F) as usize,
            BabyInstruction::Negate(operand) => (*operand & 0x1F) as usize,
            BabyInstruction::Store(operand) => (*operand & 0x1F) as usize,
            BabyInstruction::Subtract(operand) => (*operand & 0x1F) as usize,
            BabyInstruction::SkipNextIfNegative => 0,
            BabyInstruction::Stop => 0,
            BabyInstruction::AbsoluteValue(_) => 0,
        };
        proof {
            lemma_operand_bounds(*self);
        }
        r
    }
}

/// The masked operand always lies inside the 32 word address space.
pub proof fn lemma_operand_bounds(instr: BabyInstruction)
    ensures
        spec_operand(instr) < 32,
{
    match instr {
        BabyInstruction::Jump(op) => lemma_mask5_u16(op),
        BabyInstruction::RelativeJump(op) => lemma_mask5_u16(op),
        BabyInstruction::Negate(op) => lemma_mask5_u16(op),
        BabyInstruction::Store(op) => lemma_mask5_u16(op),
        BabyInstruction::Subtract(op) => lemma_mask5_u16(op),
        _ => (),
    }
}

/// Masking a 16 bit value to its low 5 bits yields an address below 32.
pub proof fn lemma_mask5_u16(op: u16)
    by (bit_vector)
    ensures
        op & 0x1F < 32,
        (op & 0x1F) & 0x1F == op & 0x1F,
{
}

/// Masking a word to its low 16 bits yields a value that fits the
/// instruction register.
pub proof fn lemma_mask16_i32(w: i32)
    by (bit_vector)
    ensures
        0 <= (w & 0xFFFF) <= 0xFFFF,
{
}

/// The instruction field of an encoded instruction: the low 16 bits of
/// the word it encodes to, as they reach the instruction register.
pub open spec fn encoded_field(instr: BabyInstruction) -> u16 {
    (spec_encode(instr) & 0xFFFF) as u16
}

/// Encode then decode is the identity on every instruction with an
/// in-range operand, except `Subtract` (whose decode has two
/// preimages, see [`lemma_subtract_aliasing`]) and `AbsoluteValue`
/// (which is raw data, not an instruction).
pub proof fn lemma_encode_decode_round_trip(instr: BabyInstruction)
    requires
        match instr {
            BabyInstruction::Jump(op) => op < 32,
            BabyInstruction::RelativeJump(op) => op < 32,
            BabyInstruction::Negate(op) => op < 32,
            BabyInstruction::Store(op) => op < 32,
            BabyInstruction::SkipNextIfNegative => true,
            BabyInstruction::Stop => true,
            BabyInstruction::Subtract(_) => false,
            BabyInstruction::AbsoluteValue(_) => false,
        },
    ensures
        spec_decode(encoded_field(instr)) == instr,
{
    match instr {
        BabyInstruction::Jump(op) => {
            assert(op < 32 ==> ((((0b000i32 << 13) | (op & 0x1F) as i32) & 0xFFFF) as u16) >> 13
                == 0b000 && ((((0b000i32 << 13) | (op & 0x1F) as i32) & 0xFFFF) as u16) & 0x1F
                == op) by (bit_vector);
        },
        BabyInstruction::RelativeJump(op) => {
            assert(op < 32 ==> ((((0b100i32 << 13) | (op & 0x1F) as i32) & 0xFFFF) as u16) >> 13
                == 0b100 && ((((0b100i32 << 13) | (op & 0x1F) as i32) & 0xFFFF) as u16) & 0x1F
                == op) by (bit_vector);
        },
        BabyInstruction::Negate(op) => {
            assert(op < 32 ==> ((((0b010i32 << 13) | (op & 0x1F) as i32) & 0xFFFF) as u16) >> 13
                == 0b010 && ((((0b010i32 << 13) | (op & 0x1F) as i32) & 0xFFFF) as u16) & 0x1F
                == op) by (bit_vector);
        },
        BabyInstruction::Store(op) => {
            assert(op < 32 ==> ((((0b110i32 << 13) | (op & 0x1F) as i32) & 0xFFFF) as u16) >> 13
                == 0b110 && ((((0b110i32 << 13) | (op & 0x1F) as i32) & 0xFFFF) as u16) & 0x1F
                == op) by (bit_vector);
        },
        BabyInstruction::SkipNextIfNegative => {
            assert((((0b011i32 << 13) & 0xFFFF) as u16) >> 13 == 0b011) by (bit_vector);
        },
        BabyInstruction::Stop => {
            assert((((0b111i32 << 13) & 0xFFFF) as u16) >> 13 == 0b111) by (bit_vector);
        },
        _ => (),
    }
}

/// Encode then decode on `Subtract` masks the operand into the 32 word
/// address space: the round trip returns `Subtract(op & 0x1F)`.
pub proof fn lemma_subtract_round_trip(op: u16)
    ensures
        spec_decode(encoded_field(BabyInstruction::Subtract(op))) == BabyInstruction::Subtract(
            op & 0x1F,
        ),
{
    assert(((((0b001i32 << 13) | (op & 0x1F) as i32) & 0xFFFF) as u16) >> 13 == 0b001 && ((((
    0b001i32 << 13) | (op & 0x1F) as i32) & 0xFFFF) as u16) & 0x1F == op & 0x1F) by (bit_vector);
}

/// Both opcodes `001` and `101` decode to `Subtract` with the same
/// masked operand: one hardware bit was unused, and decode accepts
/// both patterns while encode always emits `001`.
pub proof fn lemma_subtract_aliasing(word: u16)
    requires
        word >> 13 == 0b001 || word >> 13 == 0b101,
    ensures
        spec_decode(word) == BabyInstruction::Subtract(word & 0x1F),
{
}

} // verus!
