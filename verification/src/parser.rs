//! The parser: a cursor over the token sequence, the stack of scopes, and
//! the grammar rules as executable code.

use vstd::prelude::*;
use crate::ast::{model, views, ASTNode, Ast, BinaryExprNode};
use crate::errors::{error_views, ErrorView, SyntaxError};
use crate::grammar::{
    block, expression, expression_rest, lemma_statement_advances, statement, statements,
    type_ref, Source,
};
use crate::symbol_table::{found_view, lookup, Symbol, SymbolTable, SymbolView, Type};
use crate::token::{token_views, Kind, Position, Token, TokenView};

pub mod function;

verus! {

/// A parser over an in-memory token sequence.
pub struct Parser {
    /// The tokens to parse.
    pub tokens: Vec<Token>,
    /// The token that stands for the end of input once the tokens are used
    /// up.
    pub eof: Token,
    /// The place of the current token: the one consumed last.
    pub pos: usize,
    /// The stack of scopes; the last one is the active scope.
    pub context: Vec<SymbolTable>,
}

/// The mathematical state of a parser.
pub struct ParserState {
    pub src: Source,
    pub pos: int,
    pub scopes: Seq<Seq<SymbolView>>,
}

/// The state of a fresh parser on `tokens`: the cursor on the first token,
/// no scopes. The end-of-input token has no text and takes the place of
/// the last token, or line 0, column 0 where there is none.
pub open spec fn fresh(tokens: Seq<TokenView>) -> ParserState {
    ParserState {
        src: Source {
            tokens,
            eof: TokenView {
                kind: Kind::Eof,
                lexeme: Seq::empty(),
                position: if tokens.len() > 0 {
                    tokens.last().position
                } else {
                    Position { line: 0, column: 0 }
                },
            },
        },
        pos: 0,
        scopes: Seq::empty(),
    }
}

/// The scopes of a stack of symbol tables, bottom first.
pub open spec fn scopes_of(context: Seq<SymbolTable>) -> Seq<Seq<SymbolView>> {
    Seq::new(context.len(), |i: int| context[i]@)
}

/// The scope in which names resolve: the top of the stack alone, and no
/// symbols at all where the stack is empty.
pub open spec fn active_scope(scopes: Seq<Seq<SymbolView>>) -> Seq<SymbolView> {
    if scopes.len() > 0 {
        scopes.last()
    } else {
        Seq::empty()
    }
}

/// The model of a result with a plain value.
pub open spec fn plain_result<T>(r: Result<T, Vec<SyntaxError>>) -> Result<T, Seq<ErrorView>> {
    match r {
        Ok(v) => Ok(v),
        Err(errors) => Err(error_views(errors@)),
    }
}

/// The model of a result with a symbol.
pub open spec fn symbol_result(r: Result<Symbol, Vec<SyntaxError>>) -> Result<
    SymbolView,
    Seq<ErrorView>,
> {
    match r {
        Ok(symbol) => Ok(symbol@),
        Err(errors) => Err(error_views(errors@)),
    }
}

/// The model of a result with a symbol table.
pub open spec fn table_result(r: Result<SymbolTable, Vec<SyntaxError>>) -> Result<
    Seq<SymbolView>,
    Seq<ErrorView>,
> {
    match r {
        Ok(table) => Ok(table@),
        Err(errors) => Err(error_views(errors@)),
    }
}

/// The model of a result with a syntax tree.
pub open spec fn node_result(r: Result<ASTNode, Vec<SyntaxError>>) -> Result<
    Ast,
    Seq<ErrorView>,
> {
    match r {
        Ok(node) => Ok(node@),
        Err(errors) => Err(error_views(errors@)),
    }
}

/// Adds `error` at the end of `errors`.
pub fn report(errors: &mut Vec<SyntaxError>, error: SyntaxError)
    ensures
        final(errors)@ == old(errors)@.push(error),
        error_views(final(errors)@) == error_views(old(errors)@).push(error@),
{
    errors.push(error);
    assert(error_views(errors@) =~= error_views(old(errors)@).push(error@));
}

/// A list that holds `error` alone.
pub fn single(error: SyntaxError) -> (res: Vec<SyntaxError>)
    ensures
        res@ == seq![error],
        error_views(res@) == seq![error@],
{
    let mut errors: Vec<SyntaxError> = Vec::new();
    errors.push(error);
    assert(error_views(errors@) =~= seq![error@]);
    errors
}

impl View for Parser {
    type V = ParserState;

    open spec fn view(&self) -> ParserState {
        ParserState {
            src: Source { tokens: token_views(self.tokens@), eof: self.eof@ },
            pos: self.pos as int,
            scopes: scopes_of(self.context@),
        }
    }
}

impl Parser {
    /// The parser's invariant: the cursor stands on a token or just past
    /// the last one, and the end-of-input token is one.
    pub open spec fn wf(&self) -> bool {
        self.pos <= self.tokens.len() && self.eof.kind == Kind::Eof
    }

    /// Whether this parser reads the same input as `before`.
    pub open spec fn same_input(&self, before: Parser) -> bool {
        self.tokens@ == before.tokens@ && self.eof == before.eof
    }

    /// Whether this parser is `before` with the cursor moved to `pos` and
    /// nothing else changed.
    pub open spec fn follows(&self, before: Parser, pos: int) -> bool {
        self.wf() && self.same_input(before) && self.context@ == before.context@ && self.pos
            == pos
    }

    /// A fresh parser on `tokens`.
    pub fn new(tokens: Vec<Token>) -> (res: Parser)
        ensures
            res.wf(),
            res.tokens@ == tokens@,
            res@ == fresh(token_views(tokens@)),
    {
        let n = tokens.len();
        let position = if n > 0 {
            tokens[n - 1].position
        } else {
            Position { line: 0, column: 0 }
        };
        let res = Parser {
            tokens,
            eof: Token { kind: Kind::Eof, lexeme: String::new(), position },
            pos: 0,
            context: Vec::new(),
        };
        assert(res@.scopes =~= Seq::<Seq<SymbolView>>::empty());
        res
    }

    /// The current token.
    pub fn current(&self) -> (res: &Token)
        requires
            self.wf(),
        ensures
            res@ == self@.src.token(self@.pos),
            res.kind == self@.src.kind(self@.pos),
    {
        if self.pos < self.tokens.len() {
            &self.tokens[self.pos]
        } else {
            &self.eof
        }
    }

    /// The kind of the current token.
    pub fn current_kind(&self) -> (res: Kind)
        requires
            self.wf(),
        ensures
            res == self@.src.kind(self@.pos),
    {
        self.current().kind
    }

    /// Whether the current token is of kind `kind`.
    pub fn matches(&self, kind: Kind) -> (res: bool)
        requires
            self.wf(),
        ensures
            res == (self@.src.kind(self@.pos) == kind),
    {
        self.current_kind() == kind
    }

    /// Moves the cursor to the next token and gives its kind. Past the
    /// last token the cursor stays, and the kind is end of input.
    pub fn advance(&mut self) -> (res: Kind)
        requires
            old(self).wf(),
        ensures
            final(self).follows(*old(self), old(self)@.src.next(old(self)@.pos)),
            res == old(self)@.src.kind(final(self)@.pos),
    {
        if self.pos < self.tokens.len() {
            self.pos = self.pos + 1;
        }
        self.current_kind()
    }

    /// Moves the cursor back by one token; on the first token it stays.
    pub fn go_back(&mut self)
        requires
            old(self).wf(),
        ensures
            final(self).follows(*old(self), old(self)@.src.prev(old(self)@.pos)),
    {
        if self.pos > 0 {
            self.pos = self.pos - 1;
        }
    }

    /// Makes `scope` the active scope.
    pub fn push_scope(&mut self, scope: SymbolTable)
        requires
            old(self).wf(),
        ensures
            final(self).wf(),
            final(self).same_input(*old(self)),
            final(self)@.pos == old(self)@.pos,
            final(self)@.scopes == old(self)@.scopes.push(scope@),
            final(self).context@ == old(self).context@.push(scope),
    {
        self.context.push(scope);
        assert(self@.scopes =~= old(self)@.scopes.push(scope@));
    }

    /// Takes the active scope off the stack, if there is one.
    pub fn pop_scope(&mut self) -> (res: Option<SymbolTable>)
        requires
            old(self).wf(),
        ensures
            final(self).wf(),
            final(self).same_input(*old(self)),
            final(self)@.pos == old(self)@.pos,
            old(self)@.scopes.len() == 0 ==> res is None && final(self)@.scopes == old(
                self,
            )@.scopes,
            old(self)@.scopes.len() > 0 ==> res is Some && res->0@ == old(self)@.scopes.last()
                && final(self)@.scopes == old(self)@.scopes.drop_last() && res->0 == old(
                self,
            ).context@.last() && final(self).context@ == old(self).context@.drop_last(),
    {
        let res = self.context.pop();
        assert(self@.scopes =~= if old(self)@.scopes.len() > 0 {
            old(self)@.scopes.drop_last()
        } else {
            old(self)@.scopes
        });
        res
    }

    /// A copy of the symbol that `name` resolves to in the active scope.
    pub fn resolve(&self, name: &String) -> (res: Option<Symbol>)
        ensures
            found_view(res) == lookup(active_scope(self@.scopes), name@),
    {
        let n = self.context.len();
        if n == 0 {
            None
        } else {
            self.context[n - 1].get(name)
        }
    }

    /// The diagnostic for the current token standing where one of kind
    /// `expected` was required.
    pub fn unexpected_token_err(&self, expected: Kind) -> (res: SyntaxError)
        requires
            self.wf(),
        ensures
            res@ == self@.src.unexpected(expected, self@.pos),
    {
        let token = self.current();
        SyntaxError::UnexpectedToken { expected, found: token.kind, position: token.position }
    }

    /// The diagnostic for the current token, an identifier that does not
    /// resolve.
    pub fn undeclared_err(&self) -> (res: SyntaxError)
        requires
            self.wf(),
        ensures
            res@ == self@.src.undeclared(self@.pos),
    {
        let token = self.current();
        SyntaxError::UndeclaredIdentifier { name: token.lexeme.clone(), position: token.position }
    }

    /// The diagnostic for the input ending at the current token, where a
    /// token of kind `expected` was still required.
    pub fn premature_eof_err(&self, expected: Kind) -> (res: SyntaxError)
        requires
            self.wf(),
        ensures
            res@ == self@.src.premature_eof(expected, self@.pos),
    {
        SyntaxError::PrematureEof { expected, position: self.current().position }
    }

    /// Parses a type: the next token names it.
    pub fn parse_type(&mut self) -> (res: Result<Type, Vec<SyntaxError>>)
        requires
            old(self).wf(),
        ensures
            final(self).follows(*old(self), type_ref(old(self)@.src, old(self)@.pos).pos),
            plain_result(res) == type_ref(old(self)@.src, old(self)@.pos).result,
    {
        match self.advance() {
            Kind::Integer => Ok(Type::Integer),
            Kind::Boolean => Ok(Type::Boolean),
            _ => Err(single(self.unexpected_token_err(Kind::Integer))),
        }
    }

    /// Parses an expression that begins with the next token: an operand,
    /// then operators and operands, grouped to the left. The cursor stops
    /// on the first token after the expression.
    pub fn parse_expression(&mut self) -> (res: Result<ASTNode, Vec<SyntaxError>>)
        requires
            old(self).wf(),
        ensures
            final(self).follows(*old(self), expression(old(self)@.src, old(self)@.pos).pos),
            node_result(res) == expression(old(self)@.src, old(self)@.pos).result,
    {
        let first = self.advance();
        if !(first == Kind::Identifier || first == Kind::Number) {
            return Err(single(self.unexpected_token_err(Kind::Identifier)));
        }
        let mut left = ASTNode::Operand(self.current().clone());
        let ghost src = old(self)@.src;
        let ghost whole = expression(src, old(self)@.pos);
        loop
            invariant
                self.follows(*old(self), self.pos as int),
                src == old(self)@.src,
                whole == expression(src, old(self)@.pos),
                whole == expression_rest(src, self.pos as int, left@),
            decreases self.tokens.len() - self.pos,
        {
            let op_kind = self.advance();
            if !(op_kind == Kind::Plus || op_kind == Kind::Minus) {
                return Ok(left);
            }
            let op = self.current().clone();
            let operand = self.advance();
            if !(operand == Kind::Identifier || operand == Kind::Number) {
                return Err(single(self.unexpected_token_err(Kind::Identifier)));
            }
            let right = ASTNode::Operand(self.current().clone());
            let ghost left_model = left@;
            let ghost right_model = right@;
            left = ASTNode::BinaryExpr(
                BinaryExprNode { op, left: Box::new(left), right: Box::new(right) },
            );
            assert(left@ == Ast::BinaryExpr {
                op: op@,
                left: Box::new(left_model),
                right: Box::new(right_model),
            });
        }
    }

    /// Parses one statement that begins with the current token: a return
    /// statement, or a call statement and the semicolon that ends it.
    pub fn parse_statement(&mut self) -> (res: Result<ASTNode, Vec<SyntaxError>>)
        requires
            old(self).wf(),
        ensures
            final(self).follows(
                *old(self),
                statement(
                    old(self)@.src,
                    active_scope(old(self)@.scopes),
                    old(self)@.pos,
                ).pos,
            ),
            node_result(res) == statement(
                old(self)@.src,
                active_scope(old(self)@.scopes),
                old(self)@.pos,
            ).result,
    {
        match self.current_kind() {
            Kind::Return => self.parse_return(),
            Kind::Identifier => {
                match self.parse_function_call() {
                    Ok(node) => {
                        if self.advance() == Kind::Semicolon {
                            Ok(node)
                        } else {
                            Err(single(self.unexpected_token_err(Kind::Semicolon)))
                        }
                    },
                    Err(errors) => Err(errors),
                }
            },
            _ => Err(single(self.unexpected_token_err(Kind::End))),
        }
    }

    /// Parses a body after its opening marker: statements up to the
    /// closing `end`, on which the cursor stops. The first statement that
    /// fails ends the body with its diagnostics.
    pub fn parse_block(&mut self) -> (res: Result<ASTNode, Vec<SyntaxError>>)
        requires
            old(self).wf(),
        ensures
            final(self).follows(
                *old(self),
                block(old(self)@.src, active_scope(old(self)@.scopes), old(self)@.pos).pos,
            ),
            node_result(res) == block(
                old(self)@.src,
                active_scope(old(self)@.scopes),
                old(self)@.pos,
            ).result,
    {
        let mut stmts: Vec<ASTNode> = Vec::new();
        let ghost src = old(self)@.src;
        let ghost scope = active_scope(old(self)@.scopes);
        let ghost whole = statements(src, scope, old(self)@.pos, Seq::empty());
        assert(views(stmts@) =~= Seq::<Ast>::empty());
        loop
            invariant
                self.follows(*old(self), self.pos as int),
                src == old(self)@.src,
                scope == active_scope(old(self)@.scopes),
                whole == statements(src, scope, old(self)@.pos, Seq::empty()),
                whole == statements(src, scope, self.pos as int, views(stmts@)),
            decreases self.tokens.len() - self.pos,
        {
            let ghost before = self.pos as int;
            if self.advance() == Kind::End {
                proof {
                    lemma_block_model(stmts);
                }
                return Ok(ASTNode::Block(stmts));
            }
            match self.parse_statement() {
                Err(errors) => {
                    return Err(errors);
                },
                Ok(node) => {
                    proof {
                        lemma_statement_advances(src, scope, src.next(before));
                        assert(views(stmts@.push(node)) =~= views(stmts@).push(node@));
                    }
                    stmts.push(node);
                },
            }
        }
    }
}

/// The model of a block is the block of its statements' models.
pub proof fn lemma_block_model(stmts: Vec<ASTNode>)
    ensures
        model(ASTNode::Block(stmts)) == Ast::Block(views(stmts@)),
{
    assert(model(ASTNode::Block(stmts))->Block_0 =~= views(stmts@));
}

} // verus!
