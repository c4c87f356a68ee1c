//! The lexical unit every node keeps as its anchor.

use vstd::prelude::*;

verus! {

/// Mathematical model of a [`Token`]: its kind and its literal text.
pub struct TokenView {
    pub kind: Seq<char>,
    pub literal: Seq<char>,
}

/// A lexical unit: the kind the lexer gave it and the exact source text.
///
/// Nodes never re-read or re-validate a token; they only reproduce its
/// literal text.
#[derive(Debug)]
pub struct Token {
    pub kind: String,
    pub literal: String,
}

impl View for Token {
    type V = TokenView;

    open spec fn view(&self) -> TokenView {
        TokenView { kind: self.kind@, literal: self.literal@ }
    }
}

impl Token {
    /// Builds a token of the given kind with the given source text.
    pub fn new(kind: &str, literal: &str) -> (token: Token)
        ensures
            token@ == (TokenView { kind: kind@, literal: literal@ }),
    {
        Token { kind: kind.to_owned(), literal: literal.to_owned() }
    }
}

impl Clone for Token {
    fn clone(&self) -> (copy: Token)
        ensures
            copy@ == self@,
    {
        Token { kind: self.kind.clone(), literal: self.literal.clone() }
    }
}

} // verus!
