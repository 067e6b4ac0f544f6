//! The linker: resolving the symbolic tags of parsed lines into
//! concrete addresses and assembling the final machine words.
//!
//! Linking runs in two passes over the real (non-tag) lines: the first
//! pass records, for every tag, the position of the next real line
//! after it ([`inline_tags`] and [`position_tags`]); the second
//! resolves each line's value expression against that table and packs
//! it into a machine word ([`link_tags`]). A tag reference with no
//! entry in the table fails the whole link at the first occurrence,
//! and a program longer than the 32 word memory is rejected outright.

use vstd::prelude::*;
use vstd::string::*;

verus! {

use crate::assembler::linker_errors::{LinkingError, LinkingErrorModel, TagError};
use crate::assembler::parser::{
    Instruction,
    InstrModel,
    LineType,
    LineModel,
    Value,
    ValueModel,
    dup_value,
    dup_instruction,
    spec_instr_operand,
};
use crate::assembler::symbols::SymbolTable;
use crate::machine::instructions::BabyInstruction;
use crate::machine::MEMORY_WORDS;

/// The mathematical view of an [`UnlinkedData`]: a real line before
/// its value expression is resolved.
#[verifier::ext_equal]
pub enum UnlinkedModel {
    /// An absolute value line.
    Absolute(ValueModel),
    /// An instruction line.
    Instruction(InstrModel),
}

/// Represents either an instruction or an absolute value: a real line,
/// whose value expression has not yet been resolved to a concrete
/// value.
#[derive(Clone, PartialEq, Debug)]
pub enum UnlinkedData {
    /// An absolute value line.
    Absolute(Value),
    /// An instruction line.
    Instruction(Instruction),
}

impl View for UnlinkedData {
    type V = UnlinkedModel;

    open spec fn view(&self) -> UnlinkedModel {
        match self {
            UnlinkedData::Absolute(v) => UnlinkedModel::Absolute(v@),
            UnlinkedData::Instruction(c) => UnlinkedModel::Instruction(c@),
        }
    }
}

/// What resolving a value expression against the tag table returns: a
/// literal passes through, a tag reference looks its name up, and an
/// unbound name is the error.
pub open spec fn spec_resolve_value(v: ValueModel, tags: Map<Seq<char>, i32>) -> Result<
    i32,
    Seq<char>,
> {
    match v {
        ValueModel::Literal(n) => Ok(n),
        ValueModel::TagRef(name) => if tags.contains_key(name) {
            Ok(tags[name])
        } else {
            Err(name)
        },
    }
}

/// What resolving an instruction returns: its operand expression
/// resolved and truncated to the 16 bit instruction field, packed back
/// into the matching machine instruction.
pub open spec fn spec_resolve_instruction(c: InstrModel, tags: Map<Seq<char>, i32>) -> Result<
    BabyInstruction,
    Seq<char>,
> {
    match spec_resolve_value(spec_instr_operand(c), tags) {
        Err(name) => Err(name),
        Ok(val) => {
            let operand = (val & 0xFFFF) as u16;
            Ok(
                match c {
                    InstrModel::Jump(_) => BabyInstruction::Jump(operand),
                    InstrModel::RelativeJump(_) => BabyInstruction::RelativeJump(operand),
                    InstrModel::Negate(_) => BabyInstruction::Negate(operand),
                    InstrModel::Store(_) => BabyInstruction::Store(operand),
                    InstrModel::Subtract(_) => BabyInstruction::Subtract(operand),
                    InstrModel::Test => BabyInstruction::SkipNextIfNegative,
                    InstrModel::Stop => BabyInstruction::Stop,
                },
            )
        },
    }
}

/// What resolving an absolute value line returns: the resolved value
/// as a raw data word, not instruction-packed.
pub open spec fn spec_resolve_absolute(v: ValueModel, tags: Map<Seq<char>, i32>) -> Result<
    BabyInstruction,
    Seq<char>,
> {
    match spec_resolve_value(v, tags) {
        Ok(n) => Ok(BabyInstruction::AbsoluteValue(n)),
        Err(name) => Err(name),
    }
}

/// What resolving one unlinked line returns.
pub open spec fn spec_resolve_unlinked(u: UnlinkedModel, tags: Map<Seq<char>, i32>) -> Result<
    BabyInstruction,
    Seq<char>,
> {
    match u {
        UnlinkedModel::Absolute(v) => spec_resolve_absolute(v, tags),
        UnlinkedModel::Instruction(c) => spec_resolve_instruction(c, tags),
    }
}

impl UnlinkedData {
    /// Accepts the tag table and tries to resolve the line's concrete
    /// value: the error carries the first unresolved tag name.
    pub fn resolve(&self, tags: &SymbolTable) -> (r: Result<BabyInstruction, TagError>)
        requires
            tags.wf(),
        ensures
            match r {
                Ok(b) => spec_resolve_unlinked(self@, tags@) == Ok::<BabyInstruction, Seq<char>>(b),
                Err(TagError::UnknownTagName(name)) => spec_resolve_unlinked(self@, tags@) == Err::<
                    BabyInstruction,
                    Seq<char>,
                >(name@),
            },
    {
        match self {
            UnlinkedData::Absolute(v) => Self::resolve_absolute_value(v, tags),
            UnlinkedData::Instruction(c) => Self::resolve_instruction(c, tags),
        }
    }

    /// Converts a parsed instruction to a machine instruction,
    /// resolving its operand value expression to a concrete address.
    pub fn resolve_instruction(instr: &Instruction, tags: &SymbolTable) -> (r: Result<
        BabyInstruction,
        TagError,
    >)
        requires
            tags.wf(),
        ensures
            match r {
                Ok(b) => spec_resolve_instruction(instr@, tags@) == Ok::<
                    BabyInstruction,
                    Seq<char>,
                >(b),
                Err(TagError::UnknownTagName(name)) => spec_resolve_instruction(instr@, tags@)
                    == Err::<BabyInstruction, Seq<char>>(name@),
            },
    {
        let operand = instr.get_operand();
        let val = match Self::resolve_value(&operand, tags) {
            Ok(v) => v,
            Err(v) => return Err(TagError::UnknownTagName(v)),
        };
        proof {
            crate::machine::instructions::lemma_mask16_i32(val);
        }
        let operand = (val & 0xFFFF) as u16;
        match instr {
            Instruction::Jump(_) => Ok(BabyInstruction::Jump(operand)),
            Instruction::RelativeJump(_) => Ok(BabyInstruction::RelativeJump(operand)),
            Instruction::Negate(_) => Ok(BabyInstruction::Negate(operand)),
            Instruction::Store(_) => Ok(BabyInstruction::Store(operand)),
            Instruction::Subtract(_) => Ok(BabyInstruction::Subtract(operand)),
            Instruction::Test => Ok(BabyInstruction::SkipNextIfNegative),
            Instruction::Stop => Ok(BabyInstruction::Stop),
        }
    }

    /// Tries to resolve an absolute value line to a raw data word.
    pub fn resolve_absolute_value(val: &Value, tags: &SymbolTable) -> (r: Result<
        BabyInstruction,
        TagError,
    >)
        requires
            tags.wf(),
        ensures
            match r {
                Ok(b) => spec_resolve_absolute(val@, tags@) == Ok::<BabyInstruction, Seq<char>>(b),
                Err(TagError::UnknownTagName(name)) => spec_resolve_absolute(val@, tags@) == Err::<
                    BabyInstruction,
                    Seq<char>,
                >(name@),
            },
    {
        match Self::resolve_value(val, tags) {
            Ok(v) => Ok(BabyInstruction::AbsoluteValue(v)),
            Err(v) => Err(TagError::UnknownTagName(v)),
        }
    }

    /// Tries to resolve a value expression: a literal passes through,
    /// a tag reference is looked up in the table, and the error is the
    /// unbound tag name.
    pub fn resolve_value(val: &Value, tags: &SymbolTable) -> (r: Result<i32, String>)
        requires
            tags.wf(),
        ensures
            match r {
                Ok(n) => spec_resolve_value(val@, tags@) == Ok::<i32, Seq<char>>(n),
                Err(name) => spec_resolve_value(val@, tags@) == Err::<i32, Seq<char>>(name@),
            },
    {
        match val {
            Value::Tag(tag) => Self::get_tag(tag.as_str(), tags),
            Value::Value(v) => Ok(*v),
        }
    }

    /// Tries to get a tag's position from the table; the error is the
    /// tag name itself.
    pub fn get_tag(tag: &str, tags: &SymbolTable) -> (r: Result<i32, String>)
        requires
            tags.wf(),
        ensures
            match r {
                Ok(n) => tags@.contains_key(tag@) && n == tags@[tag@],
                Err(name) => !tags@.contains_key(tag@) && name@ == tag@,
            },
    {
        match tags.get(tag) {
            Some(v) => Ok(v),
            None => Err(tag.to_owned()),
        }
    }
}

/// The tag bound to position `i` of the line list: the name of an
/// immediately preceding tag declaration line, if any.
pub open spec fn spec_preceding_tag(lines: Seq<LineModel>, i: int) -> Option<Seq<char>> {
    if i >= 1 && lines[i - 1] is Tag {
        Some(lines[i - 1]->Tag_0)
    } else {
        None
    }
}

/// What inlining the tags of the first `n` lines gives: every real
/// (non-tag) line paired with the name of the tag declared directly
/// above it, if any. A tag binds only the next real line, and only the
/// nearest tag before a real line binds it.
pub open spec fn spec_inline_tags_prefix(lines: Seq<LineModel>, n: int) -> Seq<
    (Option<Seq<char>>, UnlinkedModel),
>
    decreases n,
{
    if n <= 0 {
        Seq::empty()
    } else {
        spec_inline_tags_prefix(lines, n - 1) + match lines[n - 1] {
            LineModel::Tag(_) => Seq::empty(),
            LineModel::Absolute(v) => seq![
                (spec_preceding_tag(lines, n - 1), UnlinkedModel::Absolute(v)),
            ],
            LineModel::Instruction(c) => seq![
                (spec_preceding_tag(lines, n - 1), UnlinkedModel::Instruction(c)),
            ],
        }
    }
}

/// What inlining the tags of a line list gives.
pub open spec fn spec_inline_tags(lines: Seq<LineModel>) -> Seq<
    (Option<Seq<char>>, UnlinkedModel),
> {
    spec_inline_tags_prefix(lines, lines.len() as int)
}

/// The view of one inlined pair.
pub open spec fn pair_view(p: (Option<String>, UnlinkedData)) -> (Option<Seq<char>>, UnlinkedModel) {
    (
        match p.0 {
            Some(t) => Some(t@),
            None => None,
        },
        p.1@,
    )
}

/// Takes a vector of parsed assembly lines and converts them to the
/// real values to be turned into machine words, each paired with the
/// name of the tag declared directly above it, if any.
pub fn inline_tags(lines: Vec<LineType>) -> (r: Vec<(Option<String>, UnlinkedData)>)
    ensures
        r@.map_values(|p: (Option<String>, UnlinkedData)| pair_view(p)) == spec_inline_tags(
            lines@.map_values(|l: LineType| l@),
        ),
{
    let ghost lv = lines@.map_values(|l: LineType| l@);
    let mut out: Vec<(Option<String>, UnlinkedData)> = Vec::new();
    let mut i: usize = 0;
    while i < lines.len()
        invariant
            0 <= i <= lines.len(),
            lv == lines@.map_values(|l: LineType| l@),
            lv.len() == lines@.len(),
            out@.map_values(|p: (Option<String>, UnlinkedData)| pair_view(p))
                == spec_inline_tags_prefix(lv, i as int),
        decreases lines.len() - i,
    {
        let tag: Option<String> = if i >= 1 {
            match &lines[i - 1] {
                LineType::Tag(t) => Some(t.clone()),
                _ => None,
            }
        } else {
            None
        };
        let entry: Option<UnlinkedData> = match &lines[i] {
            LineType::Tag(_) => None,
            LineType::Absolute(v) => Some(UnlinkedData::Absolute(dup_value(v))),
            LineType::Instruction(c) => Some(UnlinkedData::Instruction(dup_instruction(c))),
        };
        match entry {
            Some(u) => {
                out.push((tag, u));
            },
            None => (),
        }
        proof {
            assert(out@.map_values(|p: (Option<String>, UnlinkedData)| pair_view(p))
                =~= spec_inline_tags_prefix(lv, i + 1));
        }
        i = i + 1;
    }
    out
}

/// The tag table the inlined pairs denote: every named pair binds its
/// tag to its own index, later pairs overriding earlier ones.
pub open spec fn spec_position_tags_prefix(
    pairs: Seq<(Option<Seq<char>>, UnlinkedModel)>,
    n: int,
) -> Map<Seq<char>, i32>
    decreases n,
{
    if n <= 0 {
        Map::empty()
    } else {
        let m = spec_position_tags_prefix(pairs, n - 1);
        match pairs[n - 1].0 {
            Some(t) => m.insert(t, (n - 1) as i32),
            None => m,
        }
    }
}

/// The tag table the inlined pairs denote.
pub open spec fn spec_position_tags(pairs: Seq<(Option<Seq<char>>, UnlinkedModel)>) -> Map<
    Seq<char>,
    i32,
> {
    spec_position_tags_prefix(pairs, pairs.len() as int)
}

/// Takes the inlined pairs and builds the symbol table: each tag name
/// bound to the index of the real line it labels. Positions are stored
/// as 32 bit words, so the list must fit in one.
pub fn position_tags(lines: &Vec<(Option<String>, UnlinkedData)>) -> (r: SymbolTable)
    requires
        lines@.len() <= 0x7FFF_FFFF,
    ensures
        r.wf(),
        r@ == spec_position_tags(
            lines@.map_values(|p: (Option<String>, UnlinkedData)| pair_view(p)),
        ),
{
    let ghost pv = lines@.map_values(|p: (Option<String>, UnlinkedData)| pair_view(p));
    let mut table = SymbolTable::new();
    let mut i: usize = 0;
    while i < lines.len()
        invariant
            0 <= i <= lines.len(),
            lines@.len() <= 0x7FFF_FFFF,
            pv == lines@.map_values(|p: (Option<String>, UnlinkedData)| pair_view(p)),
            pv.len() == lines@.len(),
            table.wf(),
            table@ == spec_position_tags_prefix(pv, i as int),
        decreases lines.len() - i,
    {
        match &lines[i].0 {
            Some(t) => {
                table.insert(t.clone(), i as i32);
            },
            None => (),
        }
        i = i + 1;
    }
    table
}

/// What resolving the lines from index `i` on returns: the machine
/// words in order, or the first unresolved tag name.
pub open spec fn spec_link_from(
    us: Seq<UnlinkedModel>,
    tags: Map<Seq<char>, i32>,
    i: int,
) -> Result<Seq<BabyInstruction>, Seq<char>>
    decreases us.len() - i when 0 <= i <= us.len()
{
    if i >= us.len() {
        Ok(Seq::empty())
    } else {
        match spec_resolve_unlinked(us[i], tags) {
            Err(name) => Err(name),
            Ok(b) => match spec_link_from(us, tags, i + 1) {
                Ok(rest) => Ok(seq![b] + rest),
                Err(name) => Err(name),
            },
        }
    }
}

/// What linking the unlinked lines against a tag table returns: the
/// program rejected when it exceeds the 32 word memory, otherwise every
/// line resolved in order, failing fast at the first unresolved tag.
pub open spec fn spec_link_tags(us: Seq<UnlinkedModel>, tags: Map<Seq<char>, i32>) -> Result<
    Seq<BabyInstruction>,
    LinkingErrorModel,
> {
    if us.len() > 32 {
        Err(LinkingErrorModel::Memory(us.len() as int))
    } else {
        match spec_link_from(us, tags, 0) {
            Ok(bs) => Ok(bs),
            Err(name) => Err(LinkingErrorModel::Tag(name)),
        }
    }
}

/// The machine words of the first `i` lines, all of which resolve.
spec fn resolved_prefix(us: Seq<UnlinkedModel>, tags: Map<Seq<char>, i32>, i: int) -> Seq<
    BabyInstruction,
> {
    Seq::new(i as nat, |j: int| spec_resolve_unlinked(us[j], tags)->Ok_0)
}

proof fn lemma_link_prefix(us: Seq<UnlinkedModel>, tags: Map<Seq<char>, i32>, i: int)
    requires
        0 <= i <= us.len(),
        forall|j: int| 0 <= j < i ==> spec_resolve_unlinked(us[j], tags) is Ok,
    ensures
        spec_link_from(us, tags, 0) == match spec_link_from(us, tags, i) {
            Ok(rest) => Ok::<Seq<BabyInstruction>, Seq<char>>(resolved_prefix(us, tags, i) + rest),
            Err(name) => Err::<Seq<BabyInstruction>, Seq<char>>(name),
        },
    decreases i,
{
    if i == 0 {
        match spec_link_from(us, tags, 0) {
            Ok(rest) => {
                assert(resolved_prefix(us, tags, 0) + rest =~= rest);
            },
            Err(_) => {},
        }
    } else {
        lemma_link_prefix(us, tags, i - 1);
        let b = spec_resolve_unlinked(us[i - 1], tags)->Ok_0;
        match spec_link_from(us, tags, i) {
            Ok(rest) => {
                assert(resolved_prefix(us, tags, i - 1) + (seq![b] + rest) =~= resolved_prefix(
                    us,
                    tags,
                    i,
                ) + rest);
            },
            Err(_) => {},
        }
    }
}

/// Takes the unlinked lines and the tag table and resolves every tag
/// name reference, packing each line into a machine word.
///
/// A program longer than the 32 word memory is rejected with its
/// length; otherwise the lines are resolved in order and the first
/// unresolved tag name fails the whole link.
pub fn link_tags(preprocessed_lines: Vec<UnlinkedData>, tag_values: SymbolTable) -> (r: Result<
    Vec<BabyInstruction>,
    LinkingError,
>)
    requires
        tag_values.wf(),
    ensures
        match r {
            Ok(v) => {
                &&& spec_link_tags(
                    preprocessed_lines@.map_values(|u: UnlinkedData| u@),
                    tag_values@,
                ) matches Ok(bs)
                &&& v@ == bs
            },
            Err(e) => spec_link_tags(
                preprocessed_lines@.map_values(|u: UnlinkedData| u@),
                tag_values@,
            ) == Err::<Seq<BabyInstruction>, LinkingErrorModel>(e@),
        },
{
    let ghost uv = preprocessed_lines@.map_values(|u: UnlinkedData| u@);
    let mut instructions: Vec<BabyInstruction> = Vec::new();
    if preprocessed_lines.len() > MEMORY_WORDS {
        return Err(
            LinkingError::MemoryExceedingError(
                crate::assembler::linker_errors::MemoryExceedingError {
                    linked_size: preprocessed_lines.len(),
                },
            ),
        );
    }
    let mut i: usize = 0;
    while i < preprocessed_lines.len()
        invariant
            0 <= i <= preprocessed_lines.len(),
            uv == preprocessed_lines@.map_values(|u: UnlinkedData| u@),
            uv.len() == preprocessed_lines@.len(),
            uv.len() <= 32,
            tag_values.wf(),
            instructions@.len() == i,
            forall|j: int|
                0 <= j < i ==> #[trigger] spec_resolve_unlinked(uv[j], tag_values@) == Ok::<
                    BabyInstruction,
                    Seq<char>,
                >(instructions@[j]),
        decreases preprocessed_lines.len() - i,
    {
        let val = match preprocessed_lines[i].resolve(&tag_values) {
            Ok(v) => v,
            Err(e) => {
                proof {
                    lemma_link_prefix(uv, tag_values@, i as int);
                }
                return Err(LinkingError::TagError(e));
            },
        };
        instructions.push(val);
        i = i + 1;
    }
    proof {
        lemma_link_prefix(uv, tag_values@, i as int);
        assert(instructions@ =~= resolved_prefix(uv, tag_values@, i as int) + Seq::<
            BabyInstruction,
        >::empty());
    }
    Ok(instructions)
}

/// What linking a parsed program returns: tags inlined and positioned,
/// then every real line resolved against the table, with the program
/// rejected when it exceeds the 32 word memory.
pub open spec fn spec_link_parsed_lines(lines: Seq<LineModel>) -> Result<
    Seq<BabyInstruction>,
    LinkingErrorModel,
> {
    let inlined = spec_inline_tags(lines);
    let us = inlined.map_values(|p: (Option<Seq<char>>, UnlinkedModel)| p.1);
    spec_link_tags(us, spec_position_tags(inlined))
}

/// Links the parsed lines into the corresponding machine code:
/// determines the position every tag stands for and resolves every
/// reference to it, packing each real line into a machine word.
pub fn link_parsed_lines(lines: Vec<LineType>) -> (r: Result<Vec<BabyInstruction>, LinkingError>)
    ensures
        match r {
            Ok(v) => {
                &&& spec_link_parsed_lines(lines@.map_values(|l: LineType| l@)) matches Ok(bs)
                &&& v@ == bs
            },
            Err(e) => spec_link_parsed_lines(lines@.map_values(|l: LineType| l@)) == Err::<
                Seq<BabyInstruction>,
                LinkingErrorModel,
            >(e@),
        },
{
    let ghost lv = lines@.map_values(|l: LineType| l@);
    let inlined_tags = inline_tags(lines);
    let ghost pv = inlined_tags@.map_values(|p: (Option<String>, UnlinkedData)| pair_view(p));
    if inlined_tags.len() > MEMORY_WORDS {
        proof {
            assert(pv.map_values(|p: (Option<Seq<char>>, UnlinkedModel)| p.1).len() == pv.len());
        }
        return Err(
            LinkingError::MemoryExceedingError(
                crate::assembler::linker_errors::MemoryExceedingError {
                    linked_size: inlined_tags.len(),
                },
            ),
        );
    }
    let tag_values = position_tags(&inlined_tags);
    let mut preprocessed_lines: Vec<UnlinkedData> = Vec::new();
    let mut i: usize = 0;
    while i < inlined_tags.len()
        invariant
            0 <= i <= inlined_tags.len(),
            pv == inlined_tags@.map_values(|p: (Option<String>, UnlinkedData)| pair_view(p)),
            pv.len() == inlined_tags@.len(),
            preprocessed_lines@.len() == i,
            forall|j: int| 0 <= j < i ==> #[trigger] preprocessed_lines@[j]@ == pv[j].1,
        decreases inlined_tags.len() - i,
    {
        let u = match &inlined_tags[i].1 {
            UnlinkedData::Absolute(v) => UnlinkedData::Absolute(dup_value(v)),
            UnlinkedData::Instruction(c) => UnlinkedData::Instruction(dup_instruction(c)),
        };
        preprocessed_lines.push(u);
        i = i + 1;
    }
    proof {
        assert(preprocessed_lines@.map_values(|u: UnlinkedData| u@) =~= pv.map_values(
            |p: (Option<Seq<char>>, UnlinkedModel)| p.1,
        ));
    }
    link_tags(preprocessed_lines, tag_values)
}

} // verus!
