//! Tokens of the surface language.
use vstd::prelude::*;

verus! {

/// Categories of [tokens][Tkn].
#[derive(Clone, Copy, Debug, PartialEq, Eq, Structural)]
pub enum Cat {
    /// Representation of the cursor.
    Cur,
    /// String of characters with no implied meaning.
    Str,
}

/// A word of the language being parsed.
#[derive(Clone, Debug, PartialEq, Eq)]
pub struct Tkn {
    /// The text that the token stands for, if any.
    pub inp: Option<String>,
    /// The category of the token.
    pub cat: Cat,
}

impl Tkn {
    /// The token of category `cat` for the text `inp`.
    pub fn new(inp: &str, cat: Cat) -> (r: Tkn)
        ensures
            r.inp is Some,
            r.inp->Some_0@ == inp@,
            r.cat == cat,
    {
        Tkn { inp: Some(inp.to_string()), cat }
    }
}

} // verus!
