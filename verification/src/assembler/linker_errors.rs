//! The errors thrown during linking: an unresolved tag reference, or a
//! program too large for the 32 word memory. All of them implement
//! [`LinkerError`], whose `describe` renders the error as text.

use vstd::prelude::*;
use vstd::string::*;

verus! {

use crate::text;

/// Defines common behaviour for any error thrown by the linker.
pub trait LinkerError {
    /// What the description reads, with or without line breaks between
    /// the embedded errors.
    spec fn describe_spec(&self, line_breaks: bool) -> Seq<char>;

    /// Returns a short string describing the error.
    ///
    /// # Parameters
    /// * `line_breaks` - Add in line breaks between each embedded
    ///   error.
    fn describe(&self, line_breaks: bool) -> (r: String)
        ensures
            r@ == self.describe_spec(line_breaks),
    ;
}

/// Possible errors thrown when resolving a tag name.
#[derive(Clone, PartialEq, Debug)]
pub enum TagError {
    /// A tag reference could not be resolved.
    UnknownTagName(String),
}

impl View for TagError {
    type V = Seq<char>;

    open spec fn view(&self) -> Seq<char> {
        match self {
            TagError::UnknownTagName(s) => s@,
        }
    }
}

impl LinkerError for TagError {
    open spec fn describe_spec(&self, line_breaks: bool) -> Seq<char> {
        match self {
            TagError::UnknownTagName(s) => "The tag reference `"@ + s@ + "` is not declared. "@,
        }
    }

    fn describe(&self, line_breaks: bool) -> (r: String)
        ensures
            r@ == self.describe_spec(line_breaks),
    {
        match self {
            TagError::UnknownTagName(s) => {
                let mut r = String::from_str("The tag reference `");
                r.append(s.as_str());
                r.append("` is not declared. ");
                r
            },
        }
    }
}

/// The linked program stack is greater than the Baby's memory.
#[derive(Clone, Copy, PartialEq, Eq, Structural, Debug)]
pub struct MemoryExceedingError {
    /// The number of words in the linked program stack.
    pub linked_size: usize,
}

impl LinkerError for MemoryExceedingError {
    open spec fn describe_spec(&self, line_breaks: bool) -> Seq<char> {
        "The linked program stack is `"@ + text::spec_dec_nat(self.linked_size as nat)
            + "` words in length, maximum 32. "@
    }

    fn describe(&self, line_breaks: bool) -> (r: String)
        ensures
            r@ == self.describe_spec(line_breaks),
    {
        let mut r = String::from_str("The linked program stack is `");
        r.append(text::dec_usize(self.linked_size).as_str());
        r.append("` words in length, maximum 32. ");
        r
    }
}

/// The mathematical view of a [`LinkingError`].
#[verifier::ext_equal]
pub enum LinkingErrorModel {
    /// An unresolved tag reference, by name.
    Tag(Seq<char>),
    /// A program too large for the memory, with its length.
    Memory(int),
}

/// Possible errors thrown during the linking process.
#[derive(Clone, PartialEq, Debug)]
pub enum LinkingError {
    /// Error thrown during resolving a tag.
    TagError(TagError),
    /// The linked program stack is greater than the Baby's memory.
    MemoryExceedingError(MemoryExceedingError),
}

impl View for LinkingError {
    type V = LinkingErrorModel;

    open spec fn view(&self) -> LinkingErrorModel {
        match self {
            LinkingError::TagError(t) => LinkingErrorModel::Tag(t@),
            LinkingError::MemoryExceedingError(m) => LinkingErrorModel::Memory(
                m.linked_size as int,
            ),
        }
    }
}

impl LinkerError for LinkingError {
    open spec fn describe_spec(&self, line_breaks: bool) -> Seq<char> {
        let line_break = if line_breaks {
            "\n"@
        } else {
            ""@
        };
        match self {
            LinkingError::TagError(t) => "There was an error linking a tag. "@ + line_break + " "@
                + t.describe_spec(line_breaks),
            LinkingError::MemoryExceedingError(m) => "There was an error positiong the program. "@
                + line_break + " "@ + m.describe_spec(line_breaks),
        }
    }

    fn describe(&self, line_breaks: bool) -> (r: String)
        ensures
            r@ == self.describe_spec(line_breaks),
    {
        let line_break = if line_breaks {
            "\n"
        } else {
            ""
        };
        match self {
            LinkingError::TagError(t) => {
                let mut r = String::from_str("There was an error linking a tag. ");
                r.append(line_break);
                r.append(" ");
                r.append(t.describe(line_breaks).as_str());
                r
            },
            LinkingError::MemoryExceedingError(m) => {
                let mut r = String::from_str("There was an error positiong the program. ");
                r.append(line_break);
                r.append(" ");
                r.append(m.describe(line_breaks).as_str());
                r
            },
        }
    }
}

} // verus!
