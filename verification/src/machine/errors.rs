//! The signals that end a run of the machine: the stop instruction,
//! and the bounded runner's iteration ceiling. Both are expected
//! outcomes carried as values, not aborts, so a driving loop can match
//! on them and act.

use vstd::prelude::*;
use vstd::string::*;

verus! {

use crate::machine::BabyModel;
use crate::machine::instructions::{BabyInstruction, spec_decode};
use crate::text;

/// Defines standard behaviour for any thrown errors: a description, the
/// instruction being executed, and the address it was executed at.
pub trait BabyError: Clone {
    /// What the description reads.
    spec fn descriptor_spec(&self) -> Seq<char>;

    /// Which instruction was being executed.
    spec fn instruction_spec(&self) -> BabyInstruction;

    /// At which memory address it was being executed.
    spec fn at_spec(&self) -> u16;

    /// Gets a string describing the error.
    fn get_descriptor(&self) -> (r: String)
        ensures
            r@ == self.descriptor_spec(),
    ;

    /// Gets the instruction being executed when the error was thrown.
    fn get_instruction(&self) -> (r: BabyInstruction)
        ensures
            r == self.instruction_spec(),
    ;

    /// Gets the memory address of the instruction being executed when
    /// the error was thrown.
    fn at(&self) -> (r: u16)
        ensures
            r == self.at_spec(),
    ;
}

/// An enum containing potential errors allowing them to be handled.
#[derive(Clone, Copy, Debug)]
pub enum BabyErrors {
    /// The emulator has encountered a stop instruction.
    Stop(Stop),
    /// The emulator has hit the maximum number of iterations.
    IterationExceeded(IterationsExceeded),
}

impl BabyError for BabyErrors {
    open spec fn descriptor_spec(&self) -> Seq<char> {
        match self {
            BabyErrors::Stop(s) => s.descriptor_spec(),
            BabyErrors::IterationExceeded(e) => e.descriptor_spec(),
        }
    }

    open spec fn instruction_spec(&self) -> BabyInstruction {
        match self {
            BabyErrors::Stop(s) => s.instruction_spec(),
            BabyErrors::IterationExceeded(e) => e.instruction_spec(),
        }
    }

    open spec fn at_spec(&self) -> u16 {
        match self {
            BabyErrors::Stop(s) => s.at_spec(),
            BabyErrors::IterationExceeded(e) => e.at_spec(),
        }
    }

    fn get_descriptor(&self) -> (r: String)
        ensures
            r@ == self.descriptor_spec(),
    {
        match self {
            BabyErrors::Stop(s) => s.get_descriptor(),
            BabyErrors::IterationExceeded(e) => e.get_descriptor(),
        }
    }

    fn get_instruction(&self) -> (r: BabyInstruction)
        ensures
            r == self.instruction_spec(),
    {
        match self {
            BabyErrors::Stop(s) => s.get_instruction(),
            BabyErrors::IterationExceeded(e) => e.get_instruction(),
        }
    }

    fn at(&self) -> (r: u16)
        ensures
            r == self.at_spec(),
    {
        match self {
            BabyErrors::Stop(s) => s.at(),
            BabyErrors::IterationExceeded(e) => e.at(),
        }
    }
}

/// An error thrown when the emulator encounters a stop instruction.
///
/// Carries the position in memory where it was encountered, so that a
/// driving loop can break out and report where the program ended.
#[derive(Clone, Copy, PartialEq, Eq, Structural, Debug)]
pub struct Stop {
    /// The memory address where the stop was encountered.
    pub at: u16,
}

impl BabyError for Stop {
    open spec fn descriptor_spec(&self) -> Seq<char> {
        "Program stop instruction encountered at 0x"@ + text::spec_hex_fixed(self.at as u32, 4)
            + "; \n"@
    }

    open spec fn instruction_spec(&self) -> BabyInstruction {
        BabyInstruction::Stop
    }

    open spec fn at_spec(&self) -> u16 {
        self.at
    }

    fn get_descriptor(&self) -> (r: String)
        ensures
            r@ == self.descriptor_spec(),
    {
        let mut s = String::from_str("Program stop instruction encountered at 0x");
        s.append(text::hex_fixed(self.at as u32, 4).as_str());
        s.append("; \n");
        s
    }

    fn get_instruction(&self) -> (r: BabyInstruction)
        ensures
            r == self.instruction_spec(),
    {
        BabyInstruction::Stop
    }

    fn at(&self) -> (r: u16)
        ensures
            r == self.at_spec(),
    {
        self.at
    }
}

/// An error thrown when the emulator execution iteration loop exceeds
/// the maximum specified number of iterations.
///
/// Carries the state of the model when the iteration was exceeded.
#[derive(Clone, Copy, Debug)]
pub struct IterationsExceeded {
    /// The maximum number of specified iterations.
    pub max_iter: usize,
    /// The state of the model when iterations were exceeded.
    pub end_model: BabyModel,
}

impl IterationsExceeded {
    /// Packs up the iteration ceiling and the state the machine had
    /// reached when it was hit.
    pub fn new(max_iter: usize, end_model: BabyModel) -> (r: IterationsExceeded)
        ensures
            r.max_iter == max_iter,
            r.end_model == end_model,
    {
        IterationsExceeded { max_iter, end_model }
    }
}

impl BabyError for IterationsExceeded {
    open spec fn descriptor_spec(&self) -> Seq<char> {
        "Emulation execution iterations hit limmit of "@ + text::spec_dec_nat(self.max_iter as nat)
            + ". \n"@
    }

    open spec fn instruction_spec(&self) -> BabyInstruction {
        spec_decode(self.end_model.instruction)
    }

    open spec fn at_spec(&self) -> u16 {
        self.end_model.instruction_address
    }

    fn get_descriptor(&self) -> (r: String)
        ensures
            r@ == self.descriptor_spec(),
    {
        let mut s = String::from_str("Emulation execution iterations hit limmit of ");
        s.append(text::dec_usize(self.max_iter).as_str());
        s.append(". \n");
        s
    }

    fn get_instruction(&self) -> (r: BabyInstruction)
        ensures
            r == self.instruction_spec(),
    {
        BabyInstruction::from_number(self.end_model.instruction)
    }

    fn at(&self) -> (r: u16)
        ensures
            r == self.at_spec(),
    {
        self.end_model.instruction_address
    }
}

} // verus!
