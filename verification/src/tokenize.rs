//! Tokenizing a raw command line into words under shell quoting rules.
//!
//! The splitting itself is done by the `shell-words` crate; its result is a
//! pure function of the line, so it is given the name `shell_split` and every
//! contract downstream speaks of that name.

use vstd::prelude::*;

verus! {

/// What `shell_words::split` returns on a line: `Some` with the word
/// sequence when every quote is closed, `None` when the line ends inside a
/// quoted word.
pub uninterp spec fn shell_split(line: Seq<char>) -> Option<Seq<Seq<char>>>;

/// A raw line could not be split into words because a quote was left open.
#[derive(Clone, Copy, Debug, PartialEq, Eq, Structural)]
pub struct TokenizeError;

impl TokenizeError {
    /// The one-line diagnostic for a malformed line, worded as the
    /// `shell-words` crate words it.
    pub fn message(&self) -> (r: String)
        ensures
            r@ == "missing closing quote"@,
    {
        String::from_str("missing closing quote")
    }
}

/// Relies on `shell_words::split`: POSIX-style word splitting with quote
/// removal, deterministic in the line alone; it fails exactly when a quote
/// is unterminated.
#[verifier::external_body]
pub(crate) fn split_words(line: &str) -> (r: Result<Vec<String>, TokenizeError>)
    ensures
        match r {
            Ok(words) => shell_split(line@) == Some(words.deep_view()),
            Err(_) => shell_split(line@) is None,
        },
{
    match shell_words::split(line) {
        Ok(words) => Ok(words),
        Err(_) => Err(TokenizeError),
    }
}

} // verus!
