//! Tokens: the atomic lexical units that the parser consumes.

use vstd::prelude::*;

verus! {

/// The closed set of token kinds.
#[derive(Clone, Copy, Debug, PartialEq, Eq, Structural)]
pub enum Kind {
    /// A name.
    Identifier,
    /// An unsigned number literal.
    Number,
    /// The reference-parameter marker `var`.
    Var,
    /// The keyword `function`.
    Function,
    /// The body-open marker `begin`.
    Begin,
    /// The body-close marker `end`.
    End,
    /// The keyword `return`.
    Return,
    /// The type name `integer`.
    Integer,
    /// The type name `boolean`.
    Boolean,
    /// `:`
    Colon,
    /// `,`
    Comma,
    /// `;`
    Semicolon,
    /// `(`
    LeftParen,
    /// `)`
    RightParen,
    /// `+`
    Plus,
    /// `-`
    Minus,
    /// End of input.
    Eof,
}

/// A place in the source text.
#[derive(Clone, Copy, Debug, PartialEq, Eq, Structural)]
pub struct Position {
    pub line: u32,
    pub column: u32,
}

/// A token: its kind, its source text and where it stands.
#[derive(Debug, PartialEq, Eq)]
pub struct Token {
    pub kind: Kind,
    pub lexeme: String,
    pub position: Position,
}

/// The mathematical model of a token: its lexeme as a sequence of
/// characters.
pub struct TokenView {
    pub kind: Kind,
    pub lexeme: Seq<char>,
    pub position: Position,
}

impl View for Token {
    type V = TokenView;

    open spec fn view(&self) -> TokenView {
        TokenView { kind: self.kind, lexeme: self.lexeme@, position: self.position }
    }
}

/// The models of a sequence of tokens, in order.
pub open spec fn token_views(tokens: Seq<Token>) -> Seq<TokenView> {
    Seq::new(tokens.len(), |i: int| tokens[i]@)
}

impl Clone for Token {
    fn clone(&self) -> (res: Self)
        ensures
            res == *self,
    {
        Token { kind: self.kind, lexeme: self.lexeme.clone(), position: self.position }
    }
}

impl Token {
    /// Builds a token from its three parts.
    pub fn new(kind: Kind, lexeme: String, position: Position) -> (res: Token)
        ensures
            res.kind == kind,
            res.lexeme == lexeme,
            res.position == position,
    {
        Token { kind, lexeme, position }
    }
}

} // verus!
