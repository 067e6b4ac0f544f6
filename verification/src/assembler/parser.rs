//! The parser: turning Baby assembly text into typed line records.
//!
//! A line is a tag declaration (`:name`), an absolute value
//! declaration (`abs 0xA`), or an instruction in either modern
//! (`jmp $start`) or original (`$start, Cl`) notation. Values are hex
//! (`0xA`), decimal (`0d10`), octal (`0o12`), binary (`0b1010`) or tag
//! references (`$foo`). Every parsing function is specified by a total
//! spec function from the text to the parsed record or the exact error.

use vstd::prelude::*;
use vstd::string::*;

verus! {

use crate::assembler::parse_errors::{
    LineParseError,
    TagError,
    AbsoluteError,
    InstructionError,
    ValueParseError,
    LineErrorModel,
    TagErrorModel,
    AbsErrorModel,
    InstrErrorModel,
    ValueErrorModel,
};
use crate::text;

/// The mathematical view of a [`Value`]: a literal or the name of a
/// tag reference.
#[verifier::ext_equal]
pub enum ValueModel {
    /// A literal value.
    Literal(i32),
    /// A reference to a tag, by name.
    TagRef(Seq<char>),
}

/// Represents the possible notations for a value.
#[derive(Clone, PartialEq, Debug)]
pub enum Value {
    /// A literal value.
    Value(i32),
    /// A reference to a [`LineType::Tag`] value, e.g. `$SomeTag`.
    Tag(String),
}

impl View for Value {
    type V = ValueModel;

    open spec fn view(&self) -> ValueModel {
        match self {
            Value::Value(v) => ValueModel::Literal(*v),
            Value::Tag(t) => ValueModel::TagRef(t@),
        }
    }
}

/// What parsing a value expression returns: each notation hands its
/// body (with every prefix occurrence removed) to the radix parser,
/// a tag reference must be free of whitespace, and anything else is an
/// invalid value.
pub open spec fn spec_parse_value(s: Seq<char>) -> Result<ValueModel, ValueErrorModel> {
    let t = text::spec_trim(s);
    if text::spec_starts_with(t, "0x"@) {
        let body = text::spec_remove_all(t, "0x"@);
        match text::spec_parse_int_radix(body, 16) {
            Some(n) => Ok(ValueModel::Literal(n)),
            None => Err(ValueErrorModel::Hex(body)),
        }
    } else if text::spec_starts_with(t, "0d"@) {
        let body = text::spec_remove_all(t, "0d"@);
        match text::spec_parse_int_radix(body, 10) {
            Some(n) => Ok(ValueModel::Literal(n)),
            None => Err(ValueErrorModel::Decimal(body)),
        }
    } else if text::spec_starts_with(t, "0o"@) {
        let body = text::spec_remove_all(t, "0o"@);
        match text::spec_parse_int_radix(body, 8) {
            Some(n) => Ok(ValueModel::Literal(n)),
            None => Err(ValueErrorModel::Octal(body)),
        }
    } else if text::spec_starts_with(t, "0b"@) {
        let body = text::spec_remove_all(t, "0b"@);
        match text::spec_parse_int_radix(body, 2) {
            Some(n) => Ok(ValueModel::Literal(n)),
            None => Err(ValueErrorModel::Binary(body)),
        }
    } else if text::spec_starts_with(t, "$"@) {
        let name = text::spec_remove_all(t, "$"@);
        if text::spec_contains_ws(name) {
            Err(ValueErrorModel::TagName(name))
        } else {
            Ok(ValueModel::TagRef(name))
        }
    } else {
        Err(ValueErrorModel::Value(t))
    }
}

impl Value {
    /// Tries to parse a value expression: hex `0xA`, decimal `0d10`,
    /// octal `0o12`, binary `0b1010`, or a tag reference `$foo`.
    pub fn parse(value: &str) -> (r: Result<Value, ValueParseError>)
        ensures
            match r {
                Ok(v) => spec_parse_value(value@) == Ok::<ValueModel, ValueErrorModel>(v@),
                Err(e) => spec_parse_value(value@) == Err::<ValueModel, ValueErrorModel>(e@),
            },
    {
        proof {
            reveal_strlit("0x");
            reveal_strlit("0d");
            reveal_strlit("0o");
            reveal_strlit("0b");
            reveal_strlit("$");
        }
        let value = text::trimmed(value);
        if text::starts_with_str(value.as_str(), "0x") {
            Self::parse_hex(text::with_removed(value.as_str(), "0x"))
        } else if text::starts_with_str(value.as_str(), "0d") {
            Self::parse_decimal(text::with_removed(value.as_str(), "0d"))
        } else if text::starts_with_str(value.as_str(), "0o") {
            Self::parse_octal(text::with_removed(value.as_str(), "0o"))
        } else if text::starts_with_str(value.as_str(), "0b") {
            Self::parse_binary(text::with_removed(value.as_str(), "0b"))
        } else if text::starts_with_str(value.as_str(), "$") {
            Self::parse_tag_name(text::with_removed(value.as_str(), "$"))
        } else {
            Err(ValueParseError::InvalidValue(value))
        }
    }

    /// Tries to parse a hex string.
    pub fn parse_hex(value: String) -> (r: Result<Value, ValueParseError>)
        ensures
            match text::spec_parse_int_radix(value@, 16) {
                Some(n) => r == Ok::<Value, ValueParseError>(Value::Value(n)),
                None => r matches Err(ValueParseError::InvalidHex(e)) && e@ == value@,
            },
    {
        match text::parse_int_radix(value.as_str(), 16) {
            Some(v) => Ok(Value::Value(v)),
            None => Err(ValueParseError::InvalidHex(value)),
        }
    }

    /// Tries to parse a decimal string.
    pub fn parse_decimal(value: String) -> (r: Result<Value, ValueParseError>)
        ensures
            match text::spec_parse_int_radix(value@, 10) {
                Some(n) => r == Ok::<Value, ValueParseError>(Value::Value(n)),
                None => r matches Err(ValueParseError::InvalidDecimal(e)) && e@ == value@,
            },
    {
        match text::parse_int_radix(value.as_str(), 10) {
            Some(v) => Ok(Value::Value(v)),
            None => Err(ValueParseError::InvalidDecimal(value)),
        }
    }

    /// Tries to parse an octal string.
    pub fn parse_octal(value: String) -> (r: Result<Value, ValueParseError>)
        ensures
            match text::spec_parse_int_radix(value@, 8) {
                Some(n) => r == Ok::<Value, ValueParseError>(Value::Value(n)),
                None => r matches Err(ValueParseError::InvalidOctal(e)) && e@ == value@,
            },
    {
        match text::parse_int_radix(value.as_str(), 8) {
            Some(v) => Ok(Value::Value(v)),
            None => Err(ValueParseError::InvalidOctal(value)),
        }
    }

    /// Tries to parse a binary string.
    pub fn parse_binary(value: String) -> (r: Result<Value, ValueParseError>)
        ensures
            match text::spec_parse_int_radix(value@, 2) {
                Some(n) => r == Ok::<Value, ValueParseError>(Value::Value(n)),
                None => r matches Err(ValueParseError::InvalidBinary(e)) && e@ == value@,
            },
    {
        match text::parse_int_radix(value.as_str(), 2) {
            Some(v) => Ok(Value::Value(v)),
            None => Err(ValueParseError::InvalidBinary(value)),
        }
    }

    /// Tries to parse a tag reference name, which may not contain any
    /// whitespace.
    pub fn parse_tag_name(v: String) -> (r: Result<Value, ValueParseError>)
        ensures
            if text::spec_contains_ws(v@) {
                r matches Err(ValueParseError::InvalidTagName(e)) && e@ == v@
            } else {
                r matches Ok(Value::Tag(t)) && t@ == v@
            },
    {
        if !text::contains_ws(v.as_str()) {
            return Ok(Value::Tag(v));
        }
        Err(ValueParseError::InvalidTagName(v))
    }
}

/// The mathematical view of an [`Instruction`].
#[verifier::ext_equal]
pub enum InstrModel {
    /// An absolute unconditional jump.
    Jump(ValueModel),
    /// A relative unconditional jump.
    RelativeJump(ValueModel),
    /// A negated load into the accumulator.
    Negate(ValueModel),
    /// A store of the accumulator to memory.
    Store(ValueModel),
    /// A subtraction from the accumulator.
    Subtract(ValueModel),
    /// Skip the next instruction if the accumulator is negative.
    Test,
    /// Stop.
    Stop,
}

/// Represents all the instructions.
#[derive(Clone, PartialEq, Debug)]
pub enum Instruction {
    /// An absolute unconditional jump.
    Jump(Value),
    /// A relative unconditional jump.
    RelativeJump(Value),
    /// A negated load into the accumulator.
    Negate(Value),
    /// A store of the accumulator to memory.
    Store(Value),
    /// A subtraction from the accumulator.
    Subtract(Value),
    /// Skip the next instruction if the accumulator is negative.
    Test,
    /// Stop.
    Stop,
}

impl View for Instruction {
    type V = InstrModel;

    open spec fn view(&self) -> InstrModel {
        match self {
            Instruction::Jump(v) => InstrModel::Jump(v@),
            Instruction::RelativeJump(v) => InstrModel::RelativeJump(v@),
            Instruction::Negate(v) => InstrModel::Negate(v@),
            Instruction::Store(v) => InstrModel::Store(v@),
            Instruction::Subtract(v) => InstrModel::Subtract(v@),
            Instruction::Test => InstrModel::Test,
            Instruction::Stop => InstrModel::Stop,
        }
    }
}

/// The short name of an instruction.
pub open spec fn spec_instr_describe(c: InstrModel) -> Seq<char> {
    match c {
        InstrModel::Jump(_) => "jump"@,
        InstrModel::RelativeJump(_) => "relative jump"@,
        InstrModel::Negate(_) => "negate"@,
        InstrModel::Store(_) => "store"@,
        InstrModel::Subtract(_) => "subtract"@,
        InstrModel::Test => "test"@,
        InstrModel::Stop => "stop"@,
    }
}

/// The operand a parsed instruction carries; a zero literal for the
/// variants without one.
pub open spec fn spec_instr_operand(c: InstrModel) -> ValueModel {
    match c {
        InstrModel::Jump(v) => v,
        InstrModel::RelativeJump(v) => v,
        InstrModel::Negate(v) => v,
        InstrModel::Store(v) => v,
        InstrModel::Subtract(v) => v,
        InstrModel::Test => ValueModel::Literal(0),
        InstrModel::Stop => ValueModel::Literal(0),
    }
}

/// The instruction with its operand replaced; `Test` and `Stop` carry
/// none and stay as they are.
pub open spec fn spec_with_operand(c: InstrModel, v: ValueModel) -> InstrModel {
    match c {
        InstrModel::Jump(_) => InstrModel::Jump(v),
        InstrModel::RelativeJump(_) => InstrModel::RelativeJump(v),
        InstrModel::Negate(_) => InstrModel::Negate(v),
        InstrModel::Store(_) => InstrModel::Store(v),
        InstrModel::Subtract(_) => InstrModel::Subtract(v),
        InstrModel::Test => InstrModel::Test,
        InstrModel::Stop => InstrModel::Stop,
    }
}

/// What combining an instruction template with an operand expression
/// returns: the parsed operand put into the instruction, or the value
/// error wrapped up with the template.
pub open spec fn spec_make_instruction(c: InstrModel, operand: Seq<char>) -> Result<
    InstrModel,
    InstrErrorModel,
> {
    match spec_parse_value(operand) {
        Ok(v) => Ok(spec_with_operand(c, v)),
        Err(e) => Err(InstrErrorModel::Operand(c, e)),
    }
}

/// What parsing an instruction in modern notation returns: the line is
/// trimmed and folded to lower case, the mnemonic selects the
/// instruction, and the rest of the line is its operand expression.
pub open spec fn spec_parse_instruction(s: Seq<char>) -> Result<InstrModel, InstrErrorModel> {
    let t = text::spec_lower(text::spec_trim(s));
    if text::spec_starts_with(t, "jmp "@) {
        spec_make_instruction(
            InstrModel::Jump(ValueModel::Literal(0)),
            text::spec_remove_all(t, "jmp "@),
        )
    } else if text::spec_starts_with(t, "jrp "@) {
        spec_make_instruction(
            InstrModel::RelativeJump(ValueModel::Literal(0)),
            text::spec_remove_all(t, "jrp "@),
        )
    } else if text::spec_starts_with(t, "ldn "@) {
        spec_make_instruction(
            InstrModel::Negate(ValueModel::Literal(0)),
            text::spec_remove_all(t, "ldn "@),
        )
    } else if text::spec_starts_with(t, "sto "@) {
        spec_make_instruction(
            InstrModel::Store(ValueModel::Literal(0)),
            text::spec_remove_all(t, "sto "@),
        )
    } else if text::spec_starts_with(t, "sub "@) {
        spec_make_instruction(
            InstrModel::Subtract(ValueModel::Literal(0)),
            text::spec_remove_all(t, "sub "@),
        )
    } else if text::spec_starts_with(t, "cmp"@) {
        Ok(InstrModel::Test)
    } else if text::spec_starts_with(t, "stp"@) {
        Ok(InstrModel::Stop)
    } else {
        Err(InstrErrorModel::Unknown(t))
    }
}

/// What parsing an instruction in original notation returns: the line
/// is trimmed (case is kept), and the surrounding markers select the
/// instruction.
pub open spec fn spec_parse_instruction_ogn(s: Seq<char>) -> Result<InstrModel, InstrErrorModel> {
    let t = text::spec_trim(s);
    if text::spec_ends_with(t, ", Cl"@) && !text::spec_starts_with(t, "Add "@) {
        spec_make_instruction(
            InstrModel::Jump(ValueModel::Literal(0)),
            text::spec_remove_all(t, ", Cl"@),
        )
    } else if text::spec_starts_with(t, "Add "@) && text::spec_ends_with(t, ", Cl"@) {
        spec_make_instruction(
            InstrModel::RelativeJump(ValueModel::Literal(0)),
            text::spec_remove_all(text::spec_remove_all(t, "Add "@), ", Cl"@),
        )
    } else if text::spec_starts_with(t, "-"@) && text::spec_ends_with(t, ", C"@) {
        spec_make_instruction(
            InstrModel::Negate(ValueModel::Literal(0)),
            text::spec_remove_all(text::spec_remove_all(t, "-"@), ", C"@),
        )
    } else if text::spec_starts_with(t, "c, "@) {
        spec_make_instruction(
            InstrModel::Store(ValueModel::Literal(0)),
            text::spec_remove_all(t, "c, "@),
        )
    } else if text::spec_starts_with(t, "SUB "@) {
        spec_make_instruction(
            InstrModel::Subtract(ValueModel::Literal(0)),
            text::spec_remove_all(t, "SUB "@),
        )
    } else if text::spec_starts_with(t, "Test"@) {
        Ok(InstrModel::Test)
    } else if text::spec_starts_with(t, "Stop"@) {
        Ok(InstrModel::Stop)
    } else {
        Err(InstrErrorModel::Unknown(t))
    }
}

impl Instruction {
    /// Parses a Baby assembly instruction in modern notation: `JMP #`,
    /// `JRP #`, `LDN #`, `STO #`, `SUB #`, `CMP`, `STP`, case
    /// insensitively, where `#` is a value expression.
    pub fn parse(instruction: &str) -> (r: Result<Instruction, InstructionError>)
        ensures
            match r {
                Ok(c) => spec_parse_instruction(instruction@) == Ok::<
                    InstrModel,
                    InstrErrorModel,
                >(c@),
                Err(e) => spec_parse_instruction(instruction@) == Err::<
                    InstrModel,
                    InstrErrorModel,
                >(e@),
            },
    {
        proof {
            reveal_strlit("jmp ");
            reveal_strlit("jrp ");
            reveal_strlit("ldn ");
            reveal_strlit("sto ");
            reveal_strlit("sub ");
        }
        let t = text::trimmed(instruction);
        let instruction = text::lowercased(t.as_str());
        let v = Value::Value(0);
        if text::starts_with_str(instruction.as_str(), "jmp ") {
            Self::make_instruction(
                Instruction::Jump(v),
                text::with_removed(instruction.as_str(), "jmp "),
            )
        } else if text::starts_with_str(instruction.as_str(), "jrp ") {
            Self::make_instruction(
                Instruction::RelativeJump(v),
                text::with_removed(instruction.as_str(), "jrp "),
            )
        } else if text::starts_with_str(instruction.as_str(), "ldn ") {
            Self::make_instruction(
                Instruction::Negate(v),
                text::with_removed(instruction.as_str(), "ldn "),
            )
        } else if text::starts_with_str(instruction.as_str(), "sto ") {
            Self::make_instruction(
                Instruction::Store(v),
                text::with_removed(instruction.as_str(), "sto "),
            )
        } else if text::starts_with_str(instruction.as_str(), "sub ") {
            Self::make_instruction(
                Instruction::Subtract(v),
                text::with_removed(instruction.as_str(), "sub "),
            )
        } else if text::starts_with_str(instruction.as_str(), "cmp") {
            Ok(Instruction::Test)
        } else if text::starts_with_str(instruction.as_str(), "stp") {
            Ok(Instruction::Stop)
        } else {
            Err(InstructionError::UnkownInstruction(instruction))
        }
    }

    /// Parses a Baby assembly instruction in original notation:
    /// `#, Cl`, `Add #, Cl`, `-#, C`, `c, #`, `SUB #`, `Test`, `Stop`,
    /// where `#` is a value expression.
    pub fn parse_ogn(instruction: &str) -> (r: Result<Instruction, InstructionError>)
        ensures
            match r {
                Ok(c) => spec_parse_instruction_ogn(instruction@) == Ok::<
                    InstrModel,
                    InstrErrorModel,
                >(c@),
                Err(e) => spec_parse_instruction_ogn(instruction@) == Err::<
                    InstrModel,
                    InstrErrorModel,
                >(e@),
            },
    {
        proof {
            reveal_strlit(", Cl");
            reveal_strlit("Add ");
            reveal_strlit("-");
            reveal_strlit(", C");
            reveal_strlit("c, ");
            reveal_strlit("SUB ");
        }
        let instruction = text::trimmed(instruction);
        let v = Value::Value(0);
        if text::ends_with_str(instruction.as_str(), ", Cl") && !text::starts_with_str(
            instruction.as_str(),
            "Add ",
        ) {
            Self::make_instruction(
                Instruction::Jump(v),
                text::with_removed(instruction.as_str(), ", Cl"),
            )
        } else if text::starts_with_str(instruction.as_str(), "Add ") && text::ends_with_str(
            instruction.as_str(),
            ", Cl",
        ) {
            let body = text::with_removed(instruction.as_str(), "Add ");
            Self::make_instruction(
                Instruction::RelativeJump(v),
                text::with_removed(body.as_str(), ", Cl"),
            )
        } else if text::starts_with_str(instruction.as_str(), "-") && text::ends_with_str(
            instruction.as_str(),
            ", C",
        ) {
            let body = text::with_removed(instruction.as_str(), "-");
            Self::make_instruction(
                Instruction::Negate(v),
                text::with_removed(body.as_str(), ", C"),
            )
        } else if text::starts_with_str(instruction.as_str(), "c, ") {
            Self::make_instruction(
                Instruction::Store(v),
                text::with_removed(instruction.as_str(), "c, "),
            )
        } else if text::starts_with_str(instruction.as_str(), "SUB ") {
            Self::make_instruction(
                Instruction::Subtract(v),
                text::with_removed(instruction.as_str(), "SUB "),
            )
        } else if text::starts_with_str(instruction.as_str(), "Test") {
            Ok(Instruction::Test)
        } else if text::starts_with_str(instruction.as_str(), "Stop") {
            Ok(Instruction::Stop)
        } else {
            Err(InstructionError::UnkownInstruction(instruction))
        }
    }

    /// Returns a string with a short description of the instruction.
    pub fn describe(&self) -> (r: String)
        ensures
            r@ == spec_instr_describe(self@),
    {
        match self {
            Instruction::Jump(_) => "jump".to_owned(),
            Instruction::RelativeJump(_) => "relative jump".to_owned(),
            Instruction::Negate(_) => "negate".to_owned(),
            Instruction::Store(_) => "store".to_owned(),
            Instruction::Subtract(_) => "subtract".to_owned(),
            Instruction::Test => "test".to_owned(),
            Instruction::Stop => "stop".to_owned(),
        }
    }

    /// Returns the stored memory address operand of an instruction; a
    /// zero literal for `Test` and `Stop`.
    pub fn get_operand(&self) -> (r: Value)
        ensures
            r@ == spec_instr_operand(self@),
    {
        match self {
            Instruction::Jump(v) => dup_value(v),
            Instruction::RelativeJump(v) => dup_value(v),
            Instruction::Negate(v) => dup_value(v),
            Instruction::Store(v) => dup_value(v),
            Instruction::Subtract(v) => dup_value(v),
            Instruction::Test => Value::Value(0),
            Instruction::Stop => Value::Value(0),
        }
    }

    /// Tries to parse an operand value expression, combining it with
    /// an instruction; the value error is wrapped up with the
    /// instruction when parsing the operand fails.
    pub fn make_instruction(instr: Instruction, operand: String) -> (r: Result<
        Instruction,
        InstructionError,
    >)
        ensures
            match r {
                Ok(c) => spec_make_instruction(instr@, operand@) == Ok::<
                    InstrModel,
                    InstrErrorModel,
                >(c@),
                Err(e) => spec_make_instruction(instr@, operand@) == Err::<
                    InstrModel,
                    InstrErrorModel,
                >(e@),
            },
    {
        let value = match Value::parse(operand.as_str()) {
            Ok(v) => v,
            Err(e) => return Err(InstructionError::OperandValueParseError(instr, e)),
        };
        let res = match instr {
            Instruction::Jump(_) => Instruction::Jump(value),
            Instruction::RelativeJump(_) => Instruction::RelativeJump(value),
            Instruction::Negate(_) => Instruction::Negate(value),
            Instruction::Store(_) => Instruction::Store(value),
            Instruction::Subtract(_) => Instruction::Subtract(value),
            v => v,
        };
        Ok(res)
    }
}

/// Copies a value expression; the copy has the same view.
pub fn dup_value(v: &Value) -> (r: Value)
    ensures
        r@ == v@,
{
    match v {
        Value::Value(n) => Value::Value(*n),
        Value::Tag(t) => Value::Tag(t.clone()),
    }
}

/// Copies an instruction; the copy has the same view.
pub fn dup_instruction(c: &Instruction) -> (r: Instruction)
    ensures
        r@ == c@,
{
    match c {
        Instruction::Jump(v) => Instruction::Jump(dup_value(v)),
        Instruction::RelativeJump(v) => Instruction::RelativeJump(dup_value(v)),
        Instruction::Negate(v) => Instruction::Negate(dup_value(v)),
        Instruction::Store(v) => Instruction::Store(dup_value(v)),
        Instruction::Subtract(v) => Instruction::Subtract(dup_value(v)),
        Instruction::Test => Instruction::Test,
        Instruction::Stop => Instruction::Stop,
    }
}

/// The mathematical view of a [`LineType`].
#[verifier::ext_equal]
pub enum LineModel {
    /// A tag declaration, by name.
    Tag(Seq<char>),
    /// An absolute value in the program stack.
    Absolute(ValueModel),
    /// An instruction directive.
    Instruction(InstrModel),
}

/// Represents all the possible syntaxes for a line.
#[derive(Clone, PartialEq, Debug)]
pub enum LineType {
    /// A named reference to a position in the program code, declared
    /// as `:name` and referenced as `$name`.
    Tag(String),
    /// An absolute value in the program stack.
    Absolute(Value),
    /// An actual instruction directive telling the computer to perform
    /// an action.
    Instruction(Instruction),
}

impl View for LineType {
    type V = LineModel;

    open spec fn view(&self) -> LineModel {
        match self {
            LineType::Tag(t) => LineModel::Tag(t@),
            LineType::Absolute(v) => LineModel::Absolute(v@),
            LineType::Instruction(c) => LineModel::Instruction(c@),
        }
    }
}

/// What parsing a tag declaration returns: the trimmed name, which may
/// not contain whitespace.
pub open spec fn spec_parse_tag(tag: Seq<char>) -> Result<LineModel, LineErrorModel> {
    let t = text::spec_trim(tag);
    if text::spec_contains_ws(t) {
        Err(LineErrorModel::Tag(TagErrorModel::Whitespace(t)))
    } else {
        Ok(LineModel::Tag(t))
    }
}

/// What parsing an absolute value declaration returns.
pub open spec fn spec_parse_absolute(v: Seq<char>) -> Result<LineModel, LineErrorModel> {
    match spec_parse_value(v) {
        Ok(m) => Ok(LineModel::Absolute(m)),
        Err(e) => Err(LineErrorModel::Absolute(AbsErrorModel::Value(e))),
    }
}

/// What parsing one line returns: after trimming and dropping any
/// comment, a leading `:` makes it a tag declaration and a leading
/// `abs ` an absolute value declaration; anything else is an
/// instruction in the selected notation.
#[verifier::opaque]
pub open spec fn spec_parse_line(s: Seq<char>, og_notation: bool) -> Result<
    LineModel,
    LineErrorModel,
> {
    let l = text::spec_take_until(text::spec_trim(s), ';');
    if text::spec_starts_with(l, ":"@) {
        spec_parse_tag(text::spec_remove_all(l, ":"@))
    } else if text::spec_starts_with(l, "abs "@) {
        spec_parse_absolute(text::spec_remove_all(l, "abs "@))
    } else if og_notation {
        match spec_parse_instruction_ogn(l) {
            Ok(c) => Ok(LineModel::Instruction(c)),
            Err(e) => Err(LineErrorModel::Instruction(e)),
        }
    } else {
        match spec_parse_instruction(l) {
            Ok(c) => Ok(LineModel::Instruction(c)),
            Err(e) => Err(LineErrorModel::Instruction(e)),
        }
    }
}

/// Parses a tag declaration; the tag name may not contain whitespace.
pub fn parse_tag(tag: String) -> (r: Result<LineType, LineParseError>)
    ensures
        match r {
            Ok(l) => spec_parse_tag(tag@) == Ok::<LineModel, LineErrorModel>(l@),
            Err(e) => spec_parse_tag(tag@) == Err::<LineModel, LineErrorModel>(e@),
        },
{
    let tag = text::trimmed(tag.as_str());
    if text::contains_ws(tag.as_str()) {
        return Err(LineParseError::TagError(TagError::TagNameWhitespace(tag)));
    }
    Ok(LineType::Tag(tag))
}

/// Parses an absolute value declaration.
pub fn parse_absolute(tag: String) -> (r: Result<LineType, LineParseError>)
    ensures
        match r {
            Ok(l) => spec_parse_absolute(tag@) == Ok::<LineModel, LineErrorModel>(l@),
            Err(e) => spec_parse_absolute(tag@) == Err::<LineModel, LineErrorModel>(e@),
        },
{
    match Value::parse(tag.as_str()) {
        Ok(v) => Ok(LineType::Absolute(v)),
        Err(e) => Err(LineParseError::AbsoluteError(AbsoluteError::ValueError(e))),
    }
}

/// Parses an assembly instruction in modern notation, as a line.
pub fn parse_instruction(instruction: String) -> (r: Result<LineType, LineParseError>)
    ensures
        match r {
            Ok(l) => {
                &&& spec_parse_instruction(instruction@) matches Ok(c)
                &&& l@ == LineModel::Instruction(c)
            },
            Err(e) => {
                &&& spec_parse_instruction(instruction@) matches Err(m)
                &&& e@ == LineErrorModel::Instruction(m)
            },
        },
{
    match Instruction::parse(instruction.as_str()) {
        Ok(v) => Ok(LineType::Instruction(v)),
        Err(e) => Err(LineParseError::InstructionError(e)),
    }
}

/// Parses an assembly instruction in original notation, as a line.
pub fn parse_instruction_ogn(instruction: String) -> (r: Result<LineType, LineParseError>)
    ensures
        match r {
            Ok(l) => {
                &&& spec_parse_instruction_ogn(instruction@) matches Ok(c)
                &&& l@ == LineModel::Instruction(c)
            },
            Err(e) => {
                &&& spec_parse_instruction_ogn(instruction@) matches Err(m)
                &&& e@ == LineErrorModel::Instruction(m)
            },
        },
{
    match Instruction::parse_ogn(instruction.as_str()) {
        Ok(v) => Ok(LineType::Instruction(v)),
        Err(e) => Err(LineParseError::InstructionError(e)),
    }
}

/// Tries to parse a line of Baby assembly: a tag declaration, an
/// absolute value declaration, or an instruction in the selected
/// notation.
pub fn parse_line(line: &String, og_notation: bool) -> (r: Result<LineType, LineParseError>)
    ensures
        match r {
            Ok(l) => spec_parse_line(line@, og_notation) == Ok::<LineModel, LineErrorModel>(l@),
            Err(e) => spec_parse_line(line@, og_notation) == Err::<LineModel, LineErrorModel>(e@),
        },
{
    proof {
        reveal(spec_parse_line);
        reveal_strlit(":");
        reveal_strlit("abs ");
    }
    let line = text::trimmed(line.as_str());
    let line = text::take_until(line.as_str(), ';');
    if text::starts_with_str(line.as_str(), ":") {
        parse_tag(text::with_removed(line.as_str(), ":"))
    } else if text::starts_with_str(line.as_str(), "abs ") {
        parse_absolute(text::with_removed(line.as_str(), "abs "))
    } else if og_notation {
        parse_instruction_ogn(line)
    } else {
        parse_instruction(line)
    }
}

/// Strips the comment (everything from the first `;`) from a line of
/// Baby assembly.
pub fn strip_comments(line: &str) -> (r: String)
    ensures
        r@ == text::spec_take_until(line@, ';'),
{
    text::take_until(line, ';')
}

/// One raw line made ready for parsing: its comment dropped and the
/// rest trimmed.
pub open spec fn spec_clean_line(l: Seq<char>) -> Seq<char> {
    text::spec_trim(text::spec_take_until(l, ';'))
}

/// The cleaned lines of an assembly text that still hold anything.
pub open spec fn spec_filter_lines(ls: Seq<Seq<char>>) -> Seq<Seq<char>>
    decreases ls.len(),
{
    if ls.len() == 0 {
        Seq::empty()
    } else {
        spec_filter_lines(ls.drop_last()) + if spec_clean_line(ls.last()).len() > 0 {
            seq![spec_clean_line(ls.last())]
        } else {
            Seq::empty()
        }
    }
}

/// The lines of an assembly text that reach the parser: split on line
/// breaks, comments dropped, trimmed, and blank lines left out.
pub open spec fn spec_split_filter(s: Seq<char>) -> Seq<Seq<char>> {
    spec_filter_lines(text::spec_lines(s))
}

/// Splits an assembly string into lines, drops comments and
/// whitespace, and leaves out the lines with nothing left.
pub fn split_filter_lines(source: &String) -> (r: Vec<String>)
    ensures
        r@.map_values(|l: String| l@) == spec_split_filter(source@),
{
    let raw = text::split_lines(source.as_str());
    let ghost rawv = raw@.map_values(|l: String| l@);
    let mut out: Vec<String> = Vec::new();
    let mut i: usize = 0;
    while i < raw.len()
        invariant
            0 <= i <= raw.len(),
            rawv == raw@.map_values(|l: String| l@),
            rawv.len() == raw@.len(),
            out@.map_values(|l: String| l@) == spec_filter_lines(rawv.take(i as int)),
        decreases raw.len() - i,
    {
        let stripped = text::take_until(raw[i].as_str(), ';');
        let clean = text::trimmed(stripped.as_str());
        proof {
            assert(rawv.take(i + 1).drop_last() =~= rawv.take(i as int));
            assert(rawv.take(i + 1).last() == rawv[i as int]);
        }
        if !clean.as_str().is_empty() {
            out.push(clean);
        }
        proof {
            assert(out@.map_values(|l: String| l@) =~= spec_filter_lines(rawv.take(i + 1)));
        }
        i = i + 1;
    }
    proof {
        assert(rawv.take(raw@.len() as int) =~= rawv);
    }
    out
}

/// What parsing the lines from index `i` on returns: the parsed
/// records, or the first error with the index it occurred at.
pub open spec fn spec_parse_lines_from(lines: Seq<Seq<char>>, og_notation: bool, i: int) -> Result<
    Seq<LineModel>,
    (int, LineErrorModel),
>
    decreases lines.len() - i when 0 <= i <= lines.len()
{
    if i >= lines.len() {
        Ok(Seq::empty())
    } else {
        match spec_parse_line(lines[i], og_notation) {
            Err(e) => Err((i, e)),
            Ok(m) => match spec_parse_lines_from(lines, og_notation, i + 1) {
                Ok(rest) => Ok(seq![m] + rest),
                Err(p) => Err(p),
            },
        }
    }
}

/// What parsing a list of lines returns: every line parsed in order,
/// failing fast at the first bad line.
pub open spec fn spec_parse_lines(lines: Seq<Seq<char>>, og_notation: bool) -> Result<
    Seq<LineModel>,
    (int, LineErrorModel),
> {
    spec_parse_lines_from(lines, og_notation, 0)
}

/// The models of the first `i` lines, all of which parse.
spec fn parsed_prefix(lines: Seq<Seq<char>>, og_notation: bool, i: int) -> Seq<LineModel> {
    Seq::new(i as nat, |j: int| spec_parse_line(lines[j], og_notation)->Ok_0)
}

proof fn lemma_parse_lines_prefix(lines: Seq<Seq<char>>, og_notation: bool, i: int)
    requires
        0 <= i <= lines.len(),
        forall|j: int| 0 <= j < i ==> spec_parse_line(lines[j], og_notation) is Ok,
    ensures
        spec_parse_lines(lines, og_notation) == match spec_parse_lines_from(
            lines,
            og_notation,
            i,
        ) {
            Ok(rest) => Ok::<Seq<LineModel>, (int, LineErrorModel)>(
                parsed_prefix(lines, og_notation, i) + rest,
            ),
            Err(p) => Err::<Seq<LineModel>, (int, LineErrorModel)>(p),
        },
    decreases i,
{
    if i == 0 {
        match spec_parse_lines_from(lines, og_notation, 0) {
            Ok(rest) => {
                assert(parsed_prefix(lines, og_notation, 0) + rest =~= rest);
            },
            Err(_) => {},
        }
    } else {
        lemma_parse_lines_prefix(lines, og_notation, i - 1);
        let m = spec_parse_line(lines[i - 1], og_notation)->Ok_0;
        match spec_parse_lines_from(lines, og_notation, i) {
            Ok(rest) => {
                assert(parsed_prefix(lines, og_notation, i - 1) + (seq![m] + rest) =~= parsed_prefix(
                    lines,
                    og_notation,
                    i,
                ) + rest);
            },
            Err(_) => {},
        }
    }
}

/// Tries to parse a vector of lines of Baby assembly, in order,
/// returning the first error together with the index of the line it
/// was found on.
pub fn parse_lines(lines: Vec<String>, og_notation: bool) -> (r: Result<
    Vec<LineType>,
    (usize, LineParseError),
>)
    ensures
        match r {
            Ok(v) => {
                &&& spec_parse_lines(lines@.map_values(|l: String| l@), og_notation) matches Ok(ms)
                &&& v@.map_values(|l: LineType| l@) == ms
            },
            Err((i, e)) => spec_parse_lines(lines@.map_values(|l: String| l@), og_notation) == Err::<
                Seq<LineModel>,
                (int, LineErrorModel),
            >((i as int, e@)),
        },
{
    let ghost lv = lines@.map_values(|l: String| l@);
    let mut res: Vec<LineType> = Vec::new();
    let mut index: usize = 0;
    while index < lines.len()
        invariant
            0 <= index <= lines.len(),
            lv == lines@.map_values(|l: String| l@),
            lv.len() == lines@.len(),
            res@.len() == index,
            forall|j: int|
                0 <= j < index ==> #[trigger] spec_parse_line(lv[j], og_notation) == Ok::<
                    LineModel,
                    LineErrorModel,
                >(res@[j]@),
        decreases lines.len() - index,
    {
        match parse_line(&lines[index], og_notation) {
            Ok(l) => {
                res.push(l);
            },
            Err(e) => {
                proof {
                    assert(forall|j: int|
                        0 <= j < index ==> spec_parse_line(lv[j], og_notation) is Ok);
                    lemma_parse_lines_prefix(lv, og_notation, index as int);
                }
                return Err((index, e));
            },
        }
        index = index + 1;
    }
    proof {
        assert(forall|j: int| 0 <= j < index ==> spec_parse_line(lv[j], og_notation) is Ok);
        lemma_parse_lines_prefix(lv, og_notation, index as int);
        assert(res@.map_values(|l: LineType| l@) =~= parsed_prefix(lv, og_notation, index as int)
            + Seq::<LineModel>::empty());
    }
    Ok(res)
}

/// What parsing a whole assembly string returns: its cleaned non-blank
/// lines parsed in order, failing fast at the first bad line.
pub open spec fn spec_parse_asm_string(s: Seq<char>, og_notation: bool) -> Result<
    Seq<LineModel>,
    (int, LineErrorModel),
> {
    spec_parse_lines(spec_split_filter(s), og_notation)
}

/// Splits an assembly string into lines, removes the blank lines and
/// tries to parse each one, returning the index of the first bad line
/// with the error found on it.
pub fn parse_asm_string(source: &String, og_notation: bool) -> (r: Result<
    Vec<LineType>,
    (usize, LineParseError),
>)
    ensures
        match r {
            Ok(v) => {
                &&& spec_parse_asm_string(source@, og_notation) matches Ok(ms)
                &&& v@.map_values(|l: LineType| l@) == ms
            },
            Err((i, e)) => spec_parse_asm_string(source@, og_notation) == Err::<
                Seq<LineModel>,
                (int, LineErrorModel),
            >((i as int, e@)),
        },
{
    let lines = split_filter_lines(source);
    parse_lines(lines, og_notation)
}

} // verus!
