//! Tagged variants and pattern matching: an optional value, an outcome
//! that may fail, and name extraction from an optional record.

use vstd::prelude::*;

verus! {

/// A value that may be missing: either `Present(value)` or `Absent`.
#[derive(Debug)]
pub enum Optional<T> {
    Present(T),
    Absent,
}

/// An operation's outcome: either `Success(value)` or `Failure(error)`.
#[derive(Debug)]
pub enum Outcome<T, E> {
    Success(T),
    Failure(E),
}

/// An immutable record with a single string attribute.
#[derive(Debug)]
pub struct Human {
    pub name: String,
}

/// The name that `get_human_name` extracts: the record's name when one
/// is present, and the fixed fallback text otherwise.
pub open spec fn extracted_name(human: Optional<Human>) -> Seq<char> {
    match human {
        Optional::Present(h) => h.name@,
        Optional::Absent => "No human found"@,
    }
}

/// Deconstructs the optional record by pattern matching: returns the
/// record's name if one is present, else the fallback "No human found".
pub fn get_human_name(human: Optional<Human>) -> (r: String)
    ensures
        r@ == extracted_name(human),
{
    match human {
        Optional::Present(h) => h.name,
        Optional::Absent => "No human found".to_owned(),
    }
}

} // verus!
