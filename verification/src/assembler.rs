//! The assembler: parsing Baby assembly text into typed lines and
//! linking those lines into machine words.
//!
//! [`assemble`] runs both passes: the text is split into lines and
//! parsed ([`parser`]), the tags are resolved and the program packed
//! into machine instructions ([`linker`]). The result can be handed to
//! `BabyInstruction::to_numbers` to make a memory image a machine
//! model runs.

use vstd::prelude::*;

pub mod errors;
pub mod linker;
pub mod linker_errors;
pub mod parse_errors;
pub mod parser;
pub mod symbols;

verus! {

use crate::assembler::errors::{AssemblyError, AssemblyErrorModel};
use crate::assembler::linker::{link_parsed_lines, spec_link_parsed_lines};
use crate::assembler::parser::{parse_asm_string, spec_parse_asm_string, LineType};
use crate::machine::instructions::BabyInstruction;

/// What assembling a string of Baby assembly returns: its lines parsed
/// (failing fast at the first bad line, with its index) and the parsed
/// program linked (failing on the first unresolved tag, or on a
/// program that exceeds the 32 word memory).
pub open spec fn spec_assemble(s: Seq<char>, og_notation: bool) -> Result<
    Seq<BabyInstruction>,
    AssemblyErrorModel,
> {
    match spec_parse_asm_string(s, og_notation) {
        Err((i, e)) => Err(AssemblyErrorModel::Parser(i, e)),
        Ok(lines) => match spec_link_parsed_lines(lines) {
            Ok(bs) => Ok(bs),
            Err(e) => Err(AssemblyErrorModel::Linker(e)),
        },
    }
}

/// Assembles a string of Baby assembly to a vector of machine code
/// instructions, in the modern or the original notation.
///
/// The result can be fed into `BabyInstruction::to_numbers` to build
/// the 32 word memory image of a runnable machine model. The error
/// names the first bad line or the first unresolved tag, or reports a
/// program larger than the memory.
pub fn assemble(source: &String, og_notation: bool) -> (r: Result<Vec<BabyInstruction>, AssemblyError>)
    ensures
        match r {
            Ok(v) => {
                &&& spec_assemble(source@, og_notation) matches Ok(bs)
                &&& v@ == bs
            },
            Err(e) => spec_assemble(source@, og_notation) == Err::<
                Seq<BabyInstruction>,
                AssemblyErrorModel,
            >(e@),
        },
{
    let parse_result: Vec<LineType> = match parse_asm_string(source, og_notation) {
        Ok(v) => v,
        Err((l, e)) => return Err(AssemblyError::ParserError(l, e)),
    };
    match link_parsed_lines(parse_result) {
        Ok(v) => Ok(v),
        Err(e) => Err(AssemblyError::LinkerError(e)),
    }
}

} // verus!
