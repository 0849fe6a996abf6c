//! Serial command-line parser. The command surface is not implemented yet:
//! the parser answers every character with a parser error.

use vstd::prelude::*;

verus! {

/// Result of feeding one character to the command parser.
#[derive(Clone, Copy, Debug, PartialEq, Eq, Structural)]
pub enum ParserResult {
    ParserError,
    NeedMoreData,
    ReadTime,
    SetTime,
}

/// The command-line parser's state.
pub struct CLI {
}

impl CLI {
    /// Add the next read character to the internal state. Parsing is a
    /// stub: every character is answered with a parser error.
    pub fn next_char(&mut self, _c: u8) -> (r: ParserResult)
        ensures
            r == ParserResult::ParserError,
    {
        ParserResult::ParserError
    }
}

} // verus!
