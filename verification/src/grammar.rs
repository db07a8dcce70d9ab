//! The grammar of the function constructs, as mathematical functions over
//! a token sequence.
//!
//! Each rule takes the place `pos` of the token that was consumed last and
//! gives the place where it stops together with what it recognised. The
//! executable parser is proved to compute these functions.

use vstd::prelude::*;
use crate::ast::Ast;
use crate::errors::ErrorView;
use crate::symbol_table::{lookup, SymbolType, SymbolView, Type};
use crate::token::{Kind, TokenView};

verus! {

/// The input of a parse: the tokens, and the token that stands for the end
/// of input once they are used up.
pub struct Source {
    pub tokens: Seq<TokenView>,
    pub eof: TokenView,
}

impl Source {
    /// The number of tokens.
    pub open spec fn len(self) -> int {
        self.tokens.len() as int
    }

    /// The token at `pos`; past the last token, the end-of-input token.
    pub open spec fn token(self, pos: int) -> TokenView {
        if 0 <= pos < self.len() {
            self.tokens[pos]
        } else {
            self.eof
        }
    }

    /// The kind of the token at `pos`; past the last token, end of input.
    pub open spec fn kind(self, pos: int) -> Kind {
        if 0 <= pos < self.len() {
            self.tokens[pos].kind
        } else {
            Kind::Eof
        }
    }

    /// The place after `pos`. The cursor never moves beyond the place just
    /// past the last token.
    pub open spec fn next(self, pos: int) -> int {
        if pos < self.len() {
            pos + 1
        } else {
            pos
        }
    }

    /// The place before `pos`. The cursor never moves before the first
    /// token.
    pub open spec fn prev(self, pos: int) -> int {
        if pos > 0 {
            pos - 1
        } else {
            pos
        }
    }

    /// The diagnostic for the token at `pos` standing where one of kind
    /// `expected` was required.
    pub open spec fn unexpected(self, expected: Kind, pos: int) -> ErrorView {
        ErrorView::UnexpectedToken {
            expected,
            found: self.kind(pos),
            position: self.token(pos).position,
        }
    }

    /// The diagnostic for an identifier at `pos` that does not resolve.
    pub open spec fn undeclared(self, pos: int) -> ErrorView {
        ErrorView::UndeclaredIdentifier {
            name: self.token(pos).lexeme,
            position: self.token(pos).position,
        }
    }

    /// The diagnostic for the input ending at `pos`, where a token of kind
    /// `expected` was still required.
    pub open spec fn premature_eof(self, expected: Kind, pos: int) -> ErrorView {
        ErrorView::PrematureEof { expected, position: self.token(pos).position }
    }
}

/// Where a rule stopped, and what it recognised or which diagnostics it
/// reports.
pub struct Outcome<T> {
    pub pos: int,
    pub result: Result<T, Seq<ErrorView>>,
}

/// A rule that stopped at `pos` with the single diagnostic `error`.
pub open spec fn fail<T>(pos: int, error: ErrorView) -> Outcome<T> {
    Outcome { pos, result: Err(seq![error]) }
}

/// A rule that stopped at `pos` having recognised `value`.
pub open spec fn done<T>(pos: int, value: T) -> Outcome<T> {
    Outcome { pos, result: Ok(value) }
}

/// A type: the one token after `pos` names it.
pub open spec fn type_ref(src: Source, pos: int) -> Outcome<Type> {
    let p = src.next(pos);
    if src.kind(p) == Kind::Integer {
        done(p, Type::Integer)
    } else if src.kind(p) == Kind::Boolean {
        done(p, Type::Boolean)
    } else {
        fail(p, src.unexpected(Kind::Integer, p))
    }
}

/// The rest of one parameter whose identifier stands at `id`: a colon, a
/// type, and a comma or right parenthesis.
pub open spec fn param_tail(src: Source, id: int, s_type: SymbolType) -> Outcome<SymbolView> {
    let colon = src.next(id);
    if src.kind(colon) != Kind::Colon {
        fail(colon, src.unexpected(Kind::Colon, colon))
    } else {
        let ty = type_ref(src, colon);
        match ty.result {
            Err(errors) => Outcome { pos: ty.pos, result: Err(errors) },
            Ok(r_type) => {
                let stop = src.next(ty.pos);
                if src.kind(stop) == Kind::Comma || src.kind(stop) == Kind::RightParen {
                    done(
                        stop,
                        SymbolView {
                            name: src.token(id).lexeme,
                            s_type,
                            r_type,
                            position: src.token(id).position,
                        },
                    )
                } else {
                    fail(stop, src.unexpected(Kind::RightParen, stop))
                }
            },
        }
    }
}

/// One parameter after `pos`: an optional reference marker, an identifier,
/// a colon, a type, and the comma or right parenthesis that ends it.
pub open spec fn single_param(src: Source, pos: int) -> Outcome<SymbolView> {
    let first = src.next(pos);
    if src.kind(first) == Kind::Var {
        let id = src.next(first);
        if src.kind(id) == Kind::Identifier {
            param_tail(src, id, SymbolType::VarParam)
        } else {
            fail(id, src.unexpected(Kind::Identifier, id))
        }
    } else if src.kind(first) == Kind::Identifier {
        param_tail(src, first, SymbolType::Param)
    } else {
        fail(first, src.unexpected(Kind::Identifier, first))
    }
}

/// Parameters after `pos`, one after the other until one ends in a right
/// parenthesis, appended to `acc`. The first malformed parameter ends the
/// rule with its diagnostic alone.
pub open spec fn more_params(src: Source, pos: int, acc: Seq<SymbolView>) -> Outcome<Seq<SymbolView>>
    decreases src.len() - pos,
{
    let one = single_param(src, pos);
    match one.result {
        Err(errors) => Outcome { pos: one.pos, result: Err(errors) },
        Ok(symbol) => {
            if src.kind(one.pos) == Kind::RightParen {
                done(one.pos, acc.push(symbol))
            } else {
                more_params(src, one.pos, acc.push(symbol))
            }
        },
    }
}

/// A parameter list whose left parenthesis stands at `pos`: either a right
/// parenthesis at once, for no parameters, or parameters up to the right
/// parenthesis. The rule stops on the right parenthesis.
pub open spec fn parameters(src: Source, pos: int) -> Outcome<Seq<SymbolView>> {
    if src.kind(src.next(pos)) == Kind::RightParen {
        done(src.next(pos), Seq::empty())
    } else {
        more_params(src, pos, Seq::empty())
    }
}

/// What scanning call arguments gives: where it stopped, the symbols that
/// resolved, and every diagnostic met on the way.
pub struct ArgScan {
    pub pos: int,
    pub args: Seq<SymbolView>,
    pub errors: Seq<ErrorView>,
}

/// Call arguments after `pos`, resolved in `scope`, added to `args` and
/// `errors`.
///
/// An identifier that resolves is added to the arguments; after it a comma
/// goes on, a right parenthesis ends the scan, the end of input ends it
/// with a diagnostic for the missing right parenthesis, and any other token
/// is reported and the scan goes on.
/// An identifier that does not resolve is reported and dropped. Any other
/// token in an argument's place is reported and skipped, but for the end of
/// input, which is reported and ends the scan.
pub open spec fn scan_args(
    src: Source,
    scope: Seq<SymbolView>,
    pos: int,
    args: Seq<SymbolView>,
    errors: Seq<ErrorView>,
) -> ArgScan
    decreases src.len() - pos,
{
    let p = src.next(pos);
    if src.kind(p) == Kind::Identifier {
        match lookup(scope, src.token(p).lexeme) {
            Some(symbol) => {
                let q = src.next(p);
                if src.kind(q) == Kind::Comma {
                    scan_args(src, scope, q, args.push(symbol), errors)
                } else if src.kind(q) == Kind::RightParen {
                    ArgScan { pos: q, args: args.push(symbol), errors }
                } else if src.kind(q) == Kind::Eof {
                    ArgScan {
                        pos: q,
                        args: args.push(symbol),
                        errors: errors.push(src.premature_eof(Kind::RightParen, q)),
                    }
                } else {
                    scan_args(
                        src,
                        scope,
                        q,
                        args.push(symbol),
                        errors.push(src.unexpected(Kind::RightParen, q)),
                    )
                }
            },
            None => scan_args(src, scope, p, args, errors.push(src.undeclared(p))),
        }
    } else if src.kind(p) == Kind::Eof {
        ArgScan { pos: p, args, errors: errors.push(src.premature_eof(Kind::Identifier, p)) }
    } else {
        scan_args(src, scope, p, args, errors.push(src.unexpected(Kind::Identifier, p)))
    }
}

/// The arguments of a call whose left parenthesis stands at `pos`: the
/// resolved symbols if the scan met no diagnostic, else all of them.
pub open spec fn call_parameters(src: Source, scope: Seq<SymbolView>, pos: int) -> Outcome<
    Seq<SymbolView>,
> {
    let scan = scan_args(src, scope, pos, Seq::empty(), Seq::empty());
    if scan.errors.len() == 0 {
        done(scan.pos, scan.args)
    } else {
        Outcome { pos: scan.pos, result: Err(scan.errors) }
    }
}

/// A call statement whose target stands at `pos`: a left parenthesis, the
/// arguments, and the right parenthesis on which the arguments stopped.
pub open spec fn function_call(src: Source, scope: Seq<SymbolView>, pos: int) -> Outcome<Ast> {
    let open = src.next(pos);
    if src.kind(open) != Kind::LeftParen {
        fail(open, src.unexpected(Kind::LeftParen, open))
    } else {
        let params = call_parameters(src, scope, open);
        match params.result {
            Err(errors) => Outcome { pos: params.pos, result: Err(errors) },
            Ok(args) => {
                if src.kind(params.pos) == Kind::RightParen {
                    done(
                        params.pos,
                        Ast::FunctionCallStmt {
                            position: src.token(pos).position,
                            args,
                            target: src.token(pos).lexeme,
                        },
                    )
                } else {
                    fail(params.pos, src.unexpected(Kind::RightParen, params.pos))
                }
            },
        }
    }
}

/// Whether `kind` is the kind of an operand.
pub open spec fn is_operand(kind: Kind) -> bool {
    kind == Kind::Identifier || kind == Kind::Number
}

/// Whether `kind` is the kind of a binary operator.
pub open spec fn is_operator(kind: Kind) -> bool {
    kind == Kind::Plus || kind == Kind::Minus
}

/// The rest of an expression whose last operand stands at `pos` and whose
/// value so far is `left`: operators and operands, grouped to the left.
/// The rule stops on the first token that is no operator.
pub open spec fn expression_rest(src: Source, pos: int, left: Ast) -> Outcome<Ast>
    decreases src.len() - pos,
{
    let op = src.next(pos);
    if is_operator(src.kind(op)) {
        let operand = src.next(op);
        if is_operand(src.kind(operand)) {
            expression_rest(
                src,
                operand,
                Ast::BinaryExpr {
                    op: src.token(op),
                    left: Box::new(left),
                    right: Box::new(Ast::Operand(src.token(operand))),
                },
            )
        } else {
            fail(operand, src.unexpected(Kind::Identifier, operand))
        }
    } else {
        done(op, left)
    }
}

/// An expression after `pos`: an operand, then operators and operands.
pub open spec fn expression(src: Source, pos: int) -> Outcome<Ast> {
    let first = src.next(pos);
    if is_operand(src.kind(first)) {
        expression_rest(src, first, Ast::Operand(src.token(first)))
    } else {
        fail(first, src.unexpected(Kind::Identifier, first))
    }
}

/// A return statement whose keyword stands at `pos`: a semicolon at once,
/// for no value, or an expression and then a semicolon.
pub open spec fn return_stmt(src: Source, pos: int) -> Outcome<Ast> {
    let after = src.next(pos);
    if src.kind(after) == Kind::Semicolon {
        done(after, Ast::ReturnStmt { token: src.token(pos), value: None })
    } else {
        let value = expression(src, src.prev(after));
        match value.result {
            Err(errors) => Outcome { pos: value.pos, result: Err(errors) },
            Ok(expr) => {
                if src.kind(value.pos) == Kind::Semicolon {
                    done(
                        value.pos,
                        Ast::ReturnStmt { token: src.token(pos), value: Some(Box::new(expr)) },
                    )
                } else {
                    fail(value.pos, src.unexpected(Kind::Semicolon, value.pos))
                }
            },
        }
    }
}

/// One statement that begins with the token at `pos`: a return statement,
/// or a call statement with the semicolon that ends it.
pub open spec fn statement(src: Source, scope: Seq<SymbolView>, pos: int) -> Outcome<Ast> {
    if src.kind(pos) == Kind::Return {
        return_stmt(src, pos)
    } else if src.kind(pos) == Kind::Identifier {
        let call = function_call(src, scope, pos);
        match call.result {
            Err(errors) => call,
            Ok(node) => {
                let semi = src.next(call.pos);
                if src.kind(semi) == Kind::Semicolon {
                    done(semi, node)
                } else {
                    fail(semi, src.unexpected(Kind::Semicolon, semi))
                }
            },
        }
    } else {
        fail(pos, src.unexpected(Kind::End, pos))
    }
}

/// The rest of an expression never stops before the place it starts from.
pub proof fn lemma_expression_rest_advances(src: Source, pos: int, left: Ast)
    ensures
        expression_rest(src, pos, left).pos >= pos,
    decreases src.len() - pos,
{
    let op = src.next(pos);
    if is_operator(src.kind(op)) {
        let operand = src.next(op);
        if is_operand(src.kind(operand)) {
            lemma_expression_rest_advances(
                src,
                operand,
                Ast::BinaryExpr {
                    op: src.token(op),
                    left: Box::new(left),
                    right: Box::new(Ast::Operand(src.token(operand))),
                },
            );
        }
    }
}

/// A scan of call arguments never stops before the place it starts from.
pub proof fn lemma_scan_args_advances(
    src: Source,
    scope: Seq<SymbolView>,
    pos: int,
    args: Seq<SymbolView>,
    errors: Seq<ErrorView>,
)
    ensures
        scan_args(src, scope, pos, args, errors).pos >= pos,
    decreases src.len() - pos,
{
    let p = src.next(pos);
    let q = src.next(p);
    let out = scan_args(src, scope, pos, args, errors);
    if src.kind(p) == Kind::Identifier {
        match lookup(scope, src.token(p).lexeme) {
            Some(symbol) => {
                if src.kind(q) == Kind::Comma {
                    lemma_scan_args_advances(src, scope, q, args.push(symbol), errors);
                } else if src.kind(q) == Kind::RightParen {
                } else if src.kind(q) == Kind::Eof {
                } else {
                    lemma_scan_args_advances(
                        src,
                        scope,
                        q,
                        args.push(symbol),
                        errors.push(src.unexpected(Kind::RightParen, q)),
                    );
                }
            },
            None => {
                lemma_scan_args_advances(src, scope, p, args, errors.push(src.undeclared(p)));
            },
        }
    } else if src.kind(p) == Kind::Eof {
    } else {
        lemma_scan_args_advances(
            src,
            scope,
            p,
            args,
            errors.push(src.unexpected(Kind::Identifier, p)),
        );
    }
}

/// A statement that is recognised ends after the token it begins with.
pub proof fn lemma_statement_advances(src: Source, scope: Seq<SymbolView>, pos: int)
    requires
        statement(src, scope, pos).result is Ok,
    ensures
        statement(src, scope, pos).pos > pos,
{
    if src.kind(pos) == Kind::Return {
        let after = src.next(pos);
        if src.kind(after) != Kind::Semicolon {
            let first = src.next(src.prev(after));
            if is_operand(src.kind(first)) {
                lemma_expression_rest_advances(src, first, Ast::Operand(src.token(first)));
            }
        }
    } else if src.kind(pos) == Kind::Identifier {
        let open = src.next(pos);
        lemma_scan_args_advances(src, scope, open, Seq::empty(), Seq::empty());
    }
}

/// The statements of a body after `pos`, up to the closing `end`, appended
/// to `acc`. The first statement that fails ends the rule with its
/// diagnostics.
pub open spec fn statements(src: Source, scope: Seq<SymbolView>, pos: int, acc: Seq<Ast>) -> Outcome<
    Seq<Ast>,
>
    decreases src.len() - pos,
    via statements_decreases
{
    let first = src.next(pos);
    if src.kind(first) == Kind::End {
        done(first, acc)
    } else {
        let one = statement(src, scope, first);
        match one.result {
            Err(errors) => Outcome { pos: one.pos, result: Err(errors) },
            Ok(node) => statements(src, scope, one.pos, acc.push(node)),
        }
    }
}

#[via_fn]
proof fn statements_decreases(src: Source, scope: Seq<SymbolView>, pos: int, acc: Seq<Ast>) {
    let first = src.next(pos);
    if src.kind(first) != Kind::End && statement(src, scope, first).result is Ok {
        lemma_statement_advances(src, scope, first);
    }
}

/// A body whose opening marker stands at `pos`.
pub open spec fn block(src: Source, scope: Seq<SymbolView>, pos: int) -> Outcome<Ast> {
    let items = statements(src, scope, pos, Seq::empty());
    match items.result {
        Err(errors) => Outcome { pos: items.pos, result: Err(errors) },
        Ok(nodes) => done(items.pos, Ast::Block(nodes)),
    }
}

/// What a function declaration gives: where it stopped, the scope stack it
/// leaves, and the declaration or the diagnostics.
pub struct DeclOutcome {
    pub pos: int,
    pub scopes: Seq<Seq<SymbolView>>,
    pub result: Result<Ast, Seq<ErrorView>>,
}

/// A declaration that stopped at `pos` with `errors` and left the scope
/// stack as it was.
pub open spec fn decl_fail(pos: int, scopes: Seq<Seq<SymbolView>>, errors: Seq<ErrorView>)
    -> DeclOutcome {
    DeclOutcome { pos, scopes, result: Err(errors) }
}

/// The symbol that stands for a declared function itself.
pub open spec fn function_symbol(src: Source, name: int, r_type: Type) -> SymbolView {
    SymbolView {
        name: src.token(name).lexeme,
        s_type: SymbolType::Function,
        r_type,
        position: src.token(name).position,
    }
}

/// The body of a declaration whose name stands at `name`, whose parameters
/// are `params` and whose body-open marker stands at `begin`.
///
/// The body sees the parameters alone. Only when it has been recognised is
/// a scope pushed that holds the parameters and then the function itself.
pub open spec fn function_body(
    src: Source,
    scopes: Seq<Seq<SymbolView>>,
    name: int,
    params: Seq<SymbolView>,
    r_type: Type,
    begin: int,
) -> DeclOutcome {
    let body = block(src, params, begin);
    match body.result {
        Err(errors) => decl_fail(body.pos, scopes, errors),
        Ok(node) => DeclOutcome {
            pos: body.pos,
            scopes: scopes.push(params.push(function_symbol(src, name, r_type))),
            result: Ok(
                Ast::FunctionDecl {
                    name: src.token(name).lexeme,
                    position: src.token(body.pos).position,
                    args: params,
                    block: Box::new(node),
                    r_type,
                },
            ),
        },
    }
}

/// What follows the parameter list of a declaration, whose right
/// parenthesis stands at `close`: a colon, the return type, a semicolon,
/// the body-open marker and the body.
pub open spec fn function_tail(
    src: Source,
    scopes: Seq<Seq<SymbolView>>,
    name: int,
    params: Seq<SymbolView>,
    close: int,
) -> DeclOutcome {
    let colon = src.next(close);
    if src.kind(close) != Kind::RightParen {
        decl_fail(close, scopes, seq![src.unexpected(Kind::RightParen, close)])
    } else if src.kind(colon) != Kind::Colon {
        decl_fail(colon, scopes, seq![src.unexpected(Kind::Colon, colon)])
    } else {
        let ty = type_ref(src, colon);
        match ty.result {
            Err(errors) => decl_fail(ty.pos, scopes, errors),
            Ok(r_type) => {
                let semi = src.next(ty.pos);
                let begin = src.next(semi);
                if src.kind(semi) != Kind::Semicolon {
                    decl_fail(semi, scopes, seq![src.unexpected(Kind::Semicolon, semi)])
                } else if src.kind(begin) != Kind::Begin {
                    decl_fail(begin, scopes, seq![src.unexpected(Kind::Begin, begin)])
                } else {
                    function_body(src, scopes, name, params, r_type, begin)
                }
            },
        }
    }
}

/// A function declaration whose keyword stands at `pos`: the name, a left
/// parenthesis, the parameter list, and what follows it.
pub open spec fn function_decl(src: Source, scopes: Seq<Seq<SymbolView>>, pos: int) -> DeclOutcome {
    let name = src.next(pos);
    let open = src.next(name);
    if src.kind(name) != Kind::Identifier {
        decl_fail(name, scopes, seq![src.unexpected(Kind::Identifier, name)])
    } else if src.kind(open) != Kind::LeftParen {
        decl_fail(open, scopes, seq![src.unexpected(Kind::LeftParen, open)])
    } else {
        let params = parameters(src, open);
        match params.result {
            Err(errors) => decl_fail(params.pos, scopes, errors),
            Ok(symbols) => function_tail(src, scopes, name, symbols, params.pos),
        }
    }
}

} // verus!
