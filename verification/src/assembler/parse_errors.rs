//! The errors thrown while parsing Baby assembly, one enum per layer:
//! values, instructions, absolute value declarations, tag declarations
//! and whole lines. All of them implement [`ParseError`], whose
//! `describe` renders the error as text.

use vstd::prelude::*;
use vstd::string::*;

verus! {

use crate::assembler::parser::{Instruction, InstrModel, spec_instr_describe};

/// Defines common behaviour for all errors thrown whilst parsing Baby
/// assembly.
pub trait ParseError {
    /// What the description reads, with or without line breaks between
    /// the embedded errors.
    spec fn describe_spec(&self, line_breaks: bool) -> Seq<char>;

    /// Returns a string describing an error thrown.
    ///
    /// # Parameters
    /// * `line_breaks` - Add in line breaks between each embedded
    ///   error.
    fn describe(&self, line_breaks: bool) -> (r: String)
        ensures
            r@ == self.describe_spec(line_breaks),
    ;
}

/// The mathematical view of a [`ValueParseError`]: the variant with the
/// offending text.
#[verifier::ext_equal]
pub enum ValueErrorModel {
    /// No discernable value was detected.
    Value(Seq<char>),
    /// An invalid hex value.
    Hex(Seq<char>),
    /// An invalid decimal value.
    Decimal(Seq<char>),
    /// An invalid octal value.
    Octal(Seq<char>),
    /// An invalid binary value.
    Binary(Seq<char>),
    /// An invalid tag name.
    TagName(Seq<char>),
}

/// Thrown when an invalid value is encountered.
#[derive(Clone, PartialEq, Debug)]
pub enum ValueParseError {
    /// No discernable value detected where one is expected.
    InvalidValue(String),
    /// Invalid hex value.
    InvalidHex(String),
    /// Invalid decimal value.
    InvalidDecimal(String),
    /// Invalid octal value.
    InvalidOctal(String),
    /// Invalid binary value.
    InvalidBinary(String),
    /// Invalid tag name.
    InvalidTagName(String),
}

impl View for ValueParseError {
    type V = ValueErrorModel;

    open spec fn view(&self) -> ValueErrorModel {
        match self {
            ValueParseError::InvalidValue(v) => ValueErrorModel::Value(v@),
            ValueParseError::InvalidHex(v) => ValueErrorModel::Hex(v@),
            ValueParseError::InvalidDecimal(v) => ValueErrorModel::Decimal(v@),
            ValueParseError::InvalidOctal(v) => ValueErrorModel::Octal(v@),
            ValueParseError::InvalidBinary(v) => ValueErrorModel::Binary(v@),
            ValueParseError::InvalidTagName(v) => ValueErrorModel::TagName(v@),
        }
    }
}

impl ParseError for ValueParseError {
    open spec fn describe_spec(&self, line_breaks: bool) -> Seq<char> {
        match self {
            ValueParseError::InvalidValue(v) => "The value: "@ + v@ + "; is an invalid value. "@,
            ValueParseError::InvalidHex(v) => "The value: "@ + v@ + "; is invalid hex value. "@,
            ValueParseError::InvalidDecimal(v) => "The value: "@ + v@
                + "; is invalid decimal value. "@,
            ValueParseError::InvalidOctal(v) => "The value: "@ + v@
                + "; is invalid octal value. "@,
            ValueParseError::InvalidBinary(v) => "The value: "@ + v@
                + "; is invalid binary value. "@,
            ValueParseError::InvalidTagName(v) => "The value: "@ + v@
                + "; is invalid tag name. "@,
        }
    }

    fn describe(&self, line_breaks: bool) -> (r: String)
        ensures
            r@ == self.describe_spec(line_breaks),
    {
        let mut s = String::from_str("The value: ");
        match self {
            ValueParseError::InvalidValue(v) => {
                s.append(v.as_str());
                s.append("; is an invalid value. ");
            },
            ValueParseError::InvalidHex(v) => {
                s.append(v.as_str());
                s.append("; is invalid hex value. ");
            },
            ValueParseError::InvalidDecimal(v) => {
                s.append(v.as_str());
                s.append("; is invalid decimal value. ");
            },
            ValueParseError::InvalidOctal(v) => {
                s.append(v.as_str());
                s.append("; is invalid octal value. ");
            },
            ValueParseError::InvalidBinary(v) => {
                s.append(v.as_str());
                s.append("; is invalid binary value. ");
            },
            ValueParseError::InvalidTagName(v) => {
                s.append(v.as_str());
                s.append("; is invalid tag name. ");
            },
        }
        s
    }
}

/// The mathematical view of an [`InstructionError`].
#[verifier::ext_equal]
pub enum InstrErrorModel {
    /// The instruction is not known.
    Unknown(Seq<char>),
    /// The operand of the given instruction failed to parse.
    Operand(InstrModel, ValueErrorModel),
}

/// Thrown when errors are found parsing Baby assembly instructions.
#[derive(Clone, PartialEq, Debug)]
pub enum InstructionError {
    /// A given instruction isn't correct.
    UnkownInstruction(String),
    /// Attempting to parse an instruction's operand threw an error.
    OperandValueParseError(Instruction, ValueParseError),
}

impl View for InstructionError {
    type V = InstrErrorModel;

    open spec fn view(&self) -> InstrErrorModel {
        match self {
            InstructionError::UnkownInstruction(v) => InstrErrorModel::Unknown(v@),
            InstructionError::OperandValueParseError(c, v) => InstrErrorModel::Operand(c@, v@),
        }
    }
}

impl ParseError for InstructionError {
    open spec fn describe_spec(&self, line_breaks: bool) -> Seq<char> {
        let line_break = if line_breaks {
            "\n"@
        } else {
            ""@
        };
        match self {
            InstructionError::UnkownInstruction(v) => "The specified instruction "@ + v@
                + " is not known. "@,
            InstructionError::OperandValueParseError(c, v) => "Failed to parse operand for "@
                + spec_instr_describe(c@) + ". "@ + line_break + " "@ + v.describe_spec(
                line_breaks,
            ),
        }
    }

    fn describe(&self, line_breaks: bool) -> (r: String)
        ensures
            r@ == self.describe_spec(line_breaks),
    {
        let line_break = if line_breaks {
            "\n"
        } else {
            ""
        };
        match self {
            InstructionError::UnkownInstruction(v) => {
                let mut s = String::from_str("The specified instruction ");
                s.append(v.as_str());
                s.append(" is not known. ");
                s
            },
            InstructionError::OperandValueParseError(c, v) => {
                let mut s = String::from_str("Failed to parse operand for ");
                s.append(c.describe().as_str());
                s.append(". ");
                s.append(line_break);
                s.append(" ");
                s.append(v.describe(line_breaks).as_str());
                s
            },
        }
    }
}

/// The mathematical view of an [`AbsoluteError`].
#[verifier::ext_equal]
pub enum AbsErrorModel {
    /// The value of the declaration failed to parse.
    Value(ValueErrorModel),
}

/// Thrown when an error was encountered parsing an absolute value.
#[derive(Clone, PartialEq, Debug)]
pub enum AbsoluteError {
    /// Attempt to parse a value to an absolute value encountered an
    /// error.
    ValueError(ValueParseError),
}

impl View for AbsoluteError {
    type V = AbsErrorModel;

    open spec fn view(&self) -> AbsErrorModel {
        match self {
            AbsoluteError::ValueError(v) => AbsErrorModel::Value(v@),
        }
    }
}

impl ParseError for AbsoluteError {
    open spec fn describe_spec(&self, line_breaks: bool) -> Seq<char> {
        let line_break = if line_breaks {
            "\n"@
        } else {
            ""@
        };
        match self {
            AbsoluteError::ValueError(v) => "Failed to parse value for absolute value declaration. "@
                + line_break + " "@ + v.describe_spec(line_breaks),
        }
    }

    fn describe(&self, line_breaks: bool) -> (r: String)
        ensures
            r@ == self.describe_spec(line_breaks),
    {
        let line_break = if line_breaks {
            "\n"
        } else {
            ""
        };
        match self {
            AbsoluteError::ValueError(v) => {
                let mut s = String::from_str("Failed to parse value for absolute value declaration. ");
                s.append(line_break);
                s.append(" ");
                s.append(v.describe(line_breaks).as_str());
                s
            },
        }
    }
}

/// The mathematical view of a tag declaration error.
#[verifier::ext_equal]
pub enum TagErrorModel {
    /// The declared tag name holds whitespace.
    Whitespace(Seq<char>),
}

/// Thrown when an error is encountered trying to parse a tag
/// declaration.
#[derive(Clone, PartialEq, Debug)]
pub enum TagError {
    /// Thrown when a declared tag name has whitespace.
    TagNameWhitespace(String),
}

impl View for TagError {
    type V = TagErrorModel;

    open spec fn view(&self) -> TagErrorModel {
        match self {
            TagError::TagNameWhitespace(v) => TagErrorModel::Whitespace(v@),
        }
    }
}

impl ParseError for TagError {
    open spec fn describe_spec(&self, line_breaks: bool) -> Seq<char> {
        match self {
            TagError::TagNameWhitespace(v) => "The tag name `"@ + v@ + "` is invalid. "@,
        }
    }

    fn describe(&self, line_breaks: bool) -> (r: String)
        ensures
            r@ == self.describe_spec(line_breaks),
    {
        match self {
            TagError::TagNameWhitespace(v) => {
                let mut s = String::from_str("The tag name `");
                s.append(v.as_str());
                s.append("` is invalid. ");
                s
            },
        }
    }
}

/// The mathematical view of a [`LineParseError`].
#[verifier::ext_equal]
pub enum LineErrorModel {
    /// An error in a tag declaration line.
    Tag(TagErrorModel),
    /// An error in an absolute value declaration line.
    Absolute(AbsErrorModel),
    /// An error in an instruction line.
    Instruction(InstrErrorModel),
}

/// Thrown when an error is encountered parsing a Baby assembly line.
#[derive(Clone, PartialEq, Debug)]
pub enum LineParseError {
    /// Thrown when an error is encountered parsing a tag declaration.
    TagError(TagError),
    /// Thrown when an error is encountered parsing an absolute value
    /// declaration.
    AbsoluteError(AbsoluteError),
    /// Thrown when an error is encountered parsing an instruction use.
    InstructionError(InstructionError),
}

impl View for LineParseError {
    type V = LineErrorModel;

    open spec fn view(&self) -> LineErrorModel {
        match self {
            LineParseError::TagError(v) => LineErrorModel::Tag(v@),
            LineParseError::AbsoluteError(v) => LineErrorModel::Absolute(v@),
            LineParseError::InstructionError(v) => LineErrorModel::Instruction(v@),
        }
    }
}

impl ParseError for LineParseError {
    open spec fn describe_spec(&self, line_breaks: bool) -> Seq<char> {
        let line_break = if line_breaks {
            "\n"@
        } else {
            ""@
        };
        match self {
            LineParseError::TagError(v) => "Error parsing a tag line, "@ + v.describe_spec(
                line_breaks,
            ),
            LineParseError::AbsoluteError(v) => "Error parsing an absolute value line. "@
                + line_break + " "@ + v.describe_spec(line_breaks),
            LineParseError::InstructionError(v) => "Error parsing a instruction line. "@
                + line_break + " "@ + v.describe_spec(line_breaks),
        }
    }

    fn describe(&self, line_breaks: bool) -> (r: String)
        ensures
            r@ == self.describe_spec(line_breaks),
    {
        let line_break = if line_breaks {
            "\n"
        } else {
            ""
        };
        match self {
            LineParseError::TagError(v) => {
                let mut s = String::from_str("Error parsing a tag line, ");
                s.append(v.describe(line_breaks).as_str());
                s
            },
            LineParseError::AbsoluteError(v) => {
                let mut s = String::from_str("Error parsing an absolute value line. ");
                s.append(line_break);
                s.append(" ");
                s.append(v.describe(line_breaks).as_str());
                s
            },
            LineParseError::InstructionError(v) => {
                let mut s = String::from_str("Error parsing a instruction line. ");
                s.append(line_break);
                s.append(" ");
                s.append(v.describe(line_breaks).as_str());
                s
            },
        }
    }
}

} // verus!
