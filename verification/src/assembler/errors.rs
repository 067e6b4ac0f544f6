//! The error wrapper for the whole assembly process: an error from the
//! parser, with the index of the line it was found on, or an error
//! from the linker.

use vstd::prelude::*;
use vstd::string::*;

verus! {

use crate::assembler::linker_errors::{LinkingError, LinkingErrorModel, LinkerError};
use crate::assembler::parse_errors::{LineParseError, LineErrorModel, ParseError};
use crate::text;

/// The mathematical view of an [`AssemblyError`].
#[verifier::ext_equal]
pub enum AssemblyErrorModel {
    /// An error parsing a line, with the index of the line.
    Parser(int, LineErrorModel),
    /// An error thrown during linking.
    Linker(LinkingErrorModel),
}

/// Possible errors thrown at parts of the assembly process.
#[derive(Clone, PartialEq, Debug)]
pub enum AssemblyError {
    /// Error parsing a line (line index, error).
    ParserError(usize, LineParseError),
    /// Error thrown during linking.
    LinkerError(LinkingError),
}

impl View for AssemblyError {
    type V = AssemblyErrorModel;

    open spec fn view(&self) -> AssemblyErrorModel {
        match self {
            AssemblyError::ParserError(i, e) => AssemblyErrorModel::Parser(*i as int, e@),
            AssemblyError::LinkerError(e) => AssemblyErrorModel::Linker(e@),
        }
    }
}

impl AssemblyError {
    /// What the description reads.
    pub open spec fn describe_spec(&self, line_breaks: bool) -> Seq<char> {
        match self {
            AssemblyError::ParserError(i, p) => "An error was thrown during parsing at line "@
                + text::spec_dec_nat(*i as nat) + ". "@ + p.describe_spec(line_breaks),
            AssemblyError::LinkerError(l) => "An error was thrown during linking. "@
                + l.describe_spec(line_breaks),
        }
    }

    /// Returns a string describing the error.
    ///
    /// # Parameters
    /// * `line_breaks` - Add in line breaks between each embedded
    ///   error.
    pub fn describe(&self, line_breaks: bool) -> (r: String)
        ensures
            r@ == self.describe_spec(line_breaks),
    {
        match self {
            AssemblyError::ParserError(i, p) => {
                let mut s = String::from_str("An error was thrown during parsing at line ");
                s.append(text::dec_usize(*i).as_str());
                s.append(". ");
                s.append(p.describe(line_breaks).as_str());
                s
            },
            AssemblyError::LinkerError(l) => {
                let mut s = String::from_str("An error was thrown during linking. ");
                s.append(l.describe(line_breaks).as_str());
                s
            },
        }
    }
}

} // verus!
