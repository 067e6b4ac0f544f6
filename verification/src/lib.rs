//! An emulator and assembler for the Manchester Baby, the first
//! stored-program computer: a 32-word memory, a seven-instruction
//! machine model, and a two-pass assembler that resolves symbolic
//! tags into memory addresses.
//!
//! Every state transition of the machine model and every step of the
//! assembler is specified and verified: the binary instruction word
//! format, the wraparound addressing, and the tag resolution rules
//! are stated as contracts on the public functions.

use vstd::prelude::*;

pub mod assembler;
pub mod machine;
pub mod text;

verus! {

/// Adds two numbers.
pub fn add(left: usize, right: usize) -> (r: usize)
    requires
        left + right <= usize::MAX,
    ensures
        r == left + right,
{
    left + right
}

} // verus!
