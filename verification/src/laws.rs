//! Laws of the grammar: facts that hold of every input.

use vstd::prelude::*;
use crate::ast::{ASTNode, Ast};
use crate::errors::{ErrorView, SyntaxError};
use crate::grammar::{
    block, call_parameters, done, expression, function_call, function_decl, function_symbol,
    more_params, parameters, return_stmt, scan_args, ArgScan, Source,
};
use crate::parser::{active_scope, fresh, node_result, Parser};
use crate::symbol_table::{lookup, lookup_from, SymbolType, SymbolView, Type};
use crate::token::{token_views, Kind, Token};

verus! {

/// The kind of the token that names `t`.
pub open spec fn type_kind(t: Type) -> Kind {
    match t {
        Type::Integer => Kind::Integer,
        Type::Boolean => Kind::Boolean,
    }
}

/// The number of tokens that spell the parameter `param`, without the
/// comma or right parenthesis after it.
pub open spec fn param_width(param: SymbolView) -> int {
    if param.s_type == SymbolType::VarParam {
        4
    } else {
        3
    }
}

/// Whether the tokens after `pos` spell the parameter `param`: the
/// reference marker if it is passed by reference, its name at its place of
/// declaration, a colon, and the name of its type.
pub open spec fn spells_param(src: Source, pos: int, param: SymbolView) -> bool {
    let id = pos + param_width(param) - 2;
    &&& param.s_type != SymbolType::Function
    &&& param.s_type == SymbolType::VarParam ==> src.kind(pos + 1) == Kind::Var
    &&& src.kind(id) == Kind::Identifier
    &&& src.token(id).lexeme == param.name
    &&& src.token(id).position == param.position
    &&& src.kind(id + 1) == Kind::Colon
    &&& src.kind(id + 2) == type_kind(param.r_type)
}

/// Whether the tokens after `pos` spell the parameters `params`, one or
/// more, with a comma between two of them and a right parenthesis after
/// the last.
pub open spec fn spells_params(src: Source, pos: int, params: Seq<SymbolView>) -> bool
    decreases params.len(),
{
    if params.len() == 0 {
        false
    } else {
        let sep = pos + param_width(params[0]) + 1;
        &&& spells_param(src, pos, params[0])
        &&& if params.len() == 1 {
            src.kind(sep) == Kind::RightParen
        } else {
            src.kind(sep) == Kind::Comma && spells_params(src, sep, params.skip(1))
        }
    }
}

/// The place of the right parenthesis that ends the parameters `params`
/// spelled after `pos`.
pub open spec fn params_end(pos: int, params: Seq<SymbolView>) -> int
    decreases params.len(),
{
    if params.len() == 0 {
        pos
    } else {
        params_end(pos + param_width(params[0]) + 1, params.skip(1))
    }
}

/// Parameters spelled after `pos` are recognised one for one and appended
/// to what was recognised before.
pub proof fn lemma_more_params_round_trip(
    src: Source,
    pos: int,
    acc: Seq<SymbolView>,
    params: Seq<SymbolView>,
)
    requires
        0 <= pos,
        spells_params(src, pos, params),
    ensures
        more_params(src, pos, acc) == done(params_end(pos, params), acc + params),
    decreases params.len(),
{
    let first = params[0];
    let sep = pos + param_width(first) + 1;
    let rest = params.skip(1);
    assert(crate::grammar::single_param(src, pos) == done(sep, first));
    if params.len() == 1 {
        assert(params_end(sep, rest) == sep);
        assert(acc.push(first) =~= acc + params);
    } else {
        lemma_more_params_round_trip(src, sep, acc.push(first), rest);
        assert(acc.push(first) + rest =~= acc + params);
    }
}

/// Every well-formed parameter list gives exactly one symbol for each
/// parameter, in the order of declaration, each with its own name, its
/// kind (by value or by reference), its type and its place; and the parse
/// stops on the closing right parenthesis.
pub proof fn lemma_parameters_round_trip(src: Source, pos: int, params: Seq<SymbolView>)
    requires
        0 <= pos,
        spells_params(src, pos, params),
    ensures
        parameters(src, pos) == done(params_end(pos, params), params),
{
    lemma_more_params_round_trip(src, pos, Seq::empty(), params);
    assert(Seq::<SymbolView>::empty() + params =~= params);
}

/// Parameters fail fast: where they fail, they report one diagnostic
/// alone, that of the first malformed parameter.
pub proof fn lemma_more_params_fail_fast(src: Source, pos: int, acc: Seq<SymbolView>)
    ensures
        more_params(src, pos, acc).result is Err ==> more_params(src, pos, acc).result->Err_0.len()
            == 1,
    decreases src.len() - pos,
{
    let one = crate::grammar::single_param(src, pos);
    if one.result is Ok && src.kind(one.pos) != Kind::RightParen {
        lemma_more_params_fail_fast(src, one.pos, acc.push(one.result->Ok_0));
    }
}

/// A parameter list fails fast: where it fails, it reports one diagnostic
/// alone.
pub proof fn lemma_parameters_fail_fast(src: Source, pos: int)
    ensures
        parameters(src, pos).result is Err ==> parameters(src, pos).result->Err_0.len() == 1,
{
    lemma_more_params_fail_fast(src, pos, Seq::empty());
}

/// A left parenthesis that is followed by a right parenthesis at once is
/// a parameter list without parameters.
pub proof fn lemma_no_parameters(src: Source, pos: int)
    requires
        src.kind(pos + 1) == Kind::RightParen,
    ensures
        parameters(src, pos) == done(pos + 1, Seq::<SymbolView>::empty()),
{
}

/// Whether the tokens after `pos` spell the call arguments `args`, one or
/// more: identifiers that resolve in `scope` to these symbols, with a
/// comma between two of them and a right parenthesis after the last.
pub open spec fn spells_args(src: Source, scope: Seq<SymbolView>, pos: int, args: Seq<SymbolView>)
    -> bool
    decreases args.len(),
{
    if args.len() == 0 {
        false
    } else {
        &&& src.kind(pos + 1) == Kind::Identifier
        &&& lookup(scope, src.token(pos + 1).lexeme) == Some(args[0])
        &&& if args.len() == 1 {
            src.kind(pos + 2) == Kind::RightParen
        } else {
            src.kind(pos + 2) == Kind::Comma && spells_args(src, scope, pos + 2, args.skip(1))
        }
    }
}

/// Call arguments spelled after `pos` are resolved one for one and added
/// to what was resolved before, and no diagnostic is added.
pub proof fn lemma_scan_args_round_trip(
    src: Source,
    scope: Seq<SymbolView>,
    pos: int,
    acc: Seq<SymbolView>,
    errors: Seq<ErrorView>,
    args: Seq<SymbolView>,
)
    requires
        0 <= pos,
        spells_args(src, scope, pos, args),
    ensures
        scan_args(src, scope, pos, acc, errors) == (ArgScan {
            pos: pos + 2 * args.len(),
            args: acc + args,
            errors,
        }),
    decreases args.len(),
{
    if args.len() == 1 {
        assert(acc.push(args[0]) =~= acc + args);
    } else {
        lemma_scan_args_round_trip(src, scope, pos + 2, acc.push(args[0]), errors, args.skip(1));
        assert(acc.push(args[0]) + args.skip(1) =~= acc + args);
    }
}

/// A well-formed argument list whose identifiers all resolve gives exactly
/// the symbols they resolve to, in the order of the arguments, and the
/// parse stops on the closing right parenthesis.
pub proof fn lemma_call_parameters_round_trip(
    src: Source,
    scope: Seq<SymbolView>,
    pos: int,
    args: Seq<SymbolView>,
)
    requires
        0 <= pos,
        spells_args(src, scope, pos, args),
    ensures
        call_parameters(src, scope, pos) == done(pos + 2 * args.len(), args),
{
    lemma_scan_args_round_trip(src, scope, pos, Seq::empty(), Seq::empty(), args);
    assert(Seq::<SymbolView>::empty() + args =~= args);
}

/// A scan of call arguments loses nothing: the arguments and the
/// diagnostics it starts with stand at the head of those it ends with.
pub proof fn lemma_scan_accumulates(
    src: Source,
    scope: Seq<SymbolView>,
    pos: int,
    args: Seq<SymbolView>,
    errors: Seq<ErrorView>,
)
    ensures
        args.is_prefix_of(scan_args(src, scope, pos, args, errors).args),
        errors.is_prefix_of(scan_args(src, scope, pos, args, errors).errors),
    decreases src.len() - pos,
{
    let p = src.next(pos);
    let q = src.next(p);
    if src.kind(p) == Kind::Identifier {
        match lookup(scope, src.token(p).lexeme) {
            Some(symbol) => {
                if src.kind(q) == Kind::Comma {
                    lemma_scan_accumulates(src, scope, q, args.push(symbol), errors);
                } else if src.kind(q) == Kind::RightParen {
                } else if src.kind(q) == Kind::Eof {
                } else {
                    lemma_scan_accumulates(
                        src,
                        scope,
                        q,
                        args.push(symbol),
                        errors.push(src.unexpected(Kind::RightParen, q)),
                    );
                }
            },
            None => {
                lemma_scan_accumulates(src, scope, p, args, errors.push(src.undeclared(p)));
            },
        }
    } else if src.kind(p) == Kind::Eof {
    } else {
        lemma_scan_accumulates(
            src,
            scope,
            p,
            args,
            errors.push(src.unexpected(Kind::Identifier, p)),
        );
    }
}

/// An argument that resolves does not end the collection of diagnostics:
/// where the argument after it and a comma is an identifier that the scope
/// does not declare, the call fails, and the diagnostic that names that
/// identifier is the first one reported.
pub proof fn lemma_undeclared_after_resolved(src: Source, scope: Seq<SymbolView>, pos: int)
    requires
        src.kind(pos + 1) == Kind::Identifier,
        lookup(scope, src.token(pos + 1).lexeme) is Some,
        src.kind(pos + 2) == Kind::Comma,
        src.kind(pos + 3) == Kind::Identifier,
        lookup(scope, src.token(pos + 3).lexeme) is None,
    ensures
        call_parameters(src, scope, pos).result is Err,
        call_parameters(src, scope, pos).result->Err_0.len() > 0,
        call_parameters(src, scope, pos).result->Err_0[0] == src.undeclared(pos + 3),
{
    let x = lookup(scope, src.token(pos + 1).lexeme)->0;
    let args = Seq::<SymbolView>::empty().push(x);
    let errors = Seq::<ErrorView>::empty().push(src.undeclared(pos + 3));
    assert(scan_args(src, scope, pos, Seq::empty(), Seq::empty()) == scan_args(
        src,
        scope,
        pos + 2,
        args,
        Seq::empty(),
    ));
    assert(scan_args(src, scope, pos + 2, args, Seq::empty()) == scan_args(
        src,
        scope,
        pos + 3,
        args,
        errors,
    ));
    lemma_scan_accumulates(src, scope, pos + 3, args, errors);
    assert(errors[0] == src.undeclared(pos + 3));
}

/// An identifier in an argument's place that the scope does not declare
/// makes the call fail, whatever follows it.
pub proof fn lemma_undeclared_argument_fails(src: Source, scope: Seq<SymbolView>, pos: int)
    requires
        src.kind(pos + 1) == Kind::Identifier,
        lookup(scope, src.token(pos + 1).lexeme) is None,
    ensures
        call_parameters(src, scope, pos).result is Err,
        call_parameters(src, scope, pos).result->Err_0[0] == src.undeclared(pos + 1),
{
    let errors = Seq::<ErrorView>::empty().push(src.undeclared(pos + 1));
    lemma_scan_accumulates(src, scope, pos + 1, Seq::empty(), errors);
    assert(errors[0] == src.undeclared(pos + 1));
}

/// A name that no symbol of the table carries does not resolve.
pub proof fn lemma_lookup_absent(table: Seq<SymbolView>, name: Seq<char>, from: int)
    requires
        forall|i: int| 0 <= i < table.len() ==> (#[trigger] table[i]).name != name,
    ensures
        lookup_from(table, name, from) is None,
    decreases table.len() - from,
{
    if 0 <= from < table.len() {
        lemma_lookup_absent(table, name, from + 1);
    }
}

/// What a lookup returns is a symbol of the table and carries the name
/// asked for.
pub proof fn lemma_lookup_found(table: Seq<SymbolView>, name: Seq<char>, from: int)
    requires
        0 <= from,
        lookup_from(table, name, from) is Some,
    ensures
        table.contains(lookup_from(table, name, from)->0),
        lookup_from(table, name, from)->0.name == name,
    decreases table.len() - from,
{
    if table[from].name != name {
        lemma_lookup_found(table, name, from + 1);
    }
}

/// A call inside a function's body that passes the function's own name as
/// its first argument fails with that name undeclared, unless a parameter
/// carries the name: the body is parsed in the scope of the parameters
/// `params`, and the function's own symbol is declared only after it.
pub proof fn lemma_own_name_undeclared_in_body(
    src: Source,
    params: Seq<SymbolView>,
    name: int,
    call: int,
)
    requires
        forall|i: int|
            0 <= i < params.len() ==> (#[trigger] params[i]).name != src.token(name).lexeme,
        src.kind(call + 1) == Kind::LeftParen,
        src.kind(call + 2) == Kind::Identifier,
        src.token(call + 2).lexeme == src.token(name).lexeme,
    ensures
        function_call(src, params, call).result is Err,
        function_call(src, params, call).result->Err_0[0] == src.undeclared(call + 2),
{
    lemma_lookup_absent(params, src.token(name).lexeme, 0);
    lemma_undeclared_argument_fails(src, params, call + 1);
}

/// A declaration without parameters whose body is well formed succeeds
/// without any earlier declaration: it carries no parameters, the return
/// type that was written and the body, and the scope that it leaves on top
/// holds the function's own symbol alone.
pub proof fn lemma_declaration_without_parameters(
    src: Source,
    scopes: Seq<Seq<SymbolView>>,
    pos: int,
    r_type: Type,
)
    requires
        src.kind(pos + 1) == Kind::Identifier,
        src.kind(pos + 2) == Kind::LeftParen,
        src.kind(pos + 3) == Kind::RightParen,
        src.kind(pos + 4) == Kind::Colon,
        src.kind(pos + 5) == type_kind(r_type),
        src.kind(pos + 6) == Kind::Semicolon,
        src.kind(pos + 7) == Kind::Begin,
        block(src, Seq::empty(), pos + 7).result is Ok,
    ensures
        function_decl(src, scopes, pos).result == Ok::<Ast, Seq<ErrorView>>(
            Ast::FunctionDecl {
                name: src.token(pos + 1).lexeme,
                position: src.token(block(src, Seq::empty(), pos + 7).pos).position,
                args: Seq::empty(),
                block: Box::new(block(src, Seq::empty(), pos + 7).result->Ok_0),
                r_type,
            },
        ),
        function_decl(src, scopes, pos).scopes == scopes.push(
            seq![function_symbol(src, pos + 1, r_type)],
        ),
{
    assert(Seq::<SymbolView>::empty().push(function_symbol(src, pos + 1, r_type)) =~= seq![
        function_symbol(src, pos + 1, r_type),
    ]);
}

/// A return keyword that is followed by a semicolon at once is a return
/// statement without a value.
pub proof fn lemma_return_without_value(src: Source, pos: int)
    requires
        src.kind(pos + 1) == Kind::Semicolon,
    ensures
        return_stmt(src, pos) == done(
            pos + 1,
            Ast::ReturnStmt { token: src.token(pos), value: None },
        ),
{
}

/// A return keyword that is followed by an expression and a semicolon is
/// a return statement that wraps the expression.
pub proof fn lemma_return_with_value(src: Source, pos: int)
    requires
        0 <= pos,
        src.kind(pos + 1) != Kind::Semicolon,
        expression(src, pos).result is Ok,
        src.kind(expression(src, pos).pos) == Kind::Semicolon,
    ensures
        return_stmt(src, pos) == done(
            expression(src, pos).pos,
            Ast::ReturnStmt {
                token: src.token(pos),
                value: Some(Box::new(expression(src, pos).result->Ok_0)),
            },
        ),
{
}

/// A return statement is recognised only where it ends in a semicolon:
/// without one, the parse fails.
pub proof fn lemma_return_needs_semicolon(src: Source, pos: int)
    ensures
        return_stmt(src, pos).result is Ok ==> src.kind(return_stmt(src, pos).pos)
            == Kind::Semicolon,
{
}

/// A token in the first argument's place that is no identifier makes the
/// call fail; unless the input ends there, the first diagnostic says that
/// the token was unexpected.
pub proof fn lemma_non_identifier_argument_fails(src: Source, scope: Seq<SymbolView>, pos: int)
    requires
        src.kind(src.next(pos)) != Kind::Identifier,
    ensures
        call_parameters(src, scope, pos).result is Err,
        src.kind(src.next(pos)) != Kind::Eof ==> call_parameters(src, scope, pos).result->Err_0[0]
            == src.unexpected(Kind::Identifier, src.next(pos)),
{
    let p = src.next(pos);
    if src.kind(p) == Kind::Eof {
        let errors = Seq::<ErrorView>::empty().push(src.premature_eof(Kind::Identifier, p));
        assert(errors.len() > 0);
    } else {
        let errors = Seq::<ErrorView>::empty().push(src.unexpected(Kind::Identifier, p));
        lemma_scan_accumulates(src, scope, p, Seq::empty(), errors);
        assert(errors[0] == src.unexpected(Kind::Identifier, p));
    }
}

/// What a declaration is parsed to does not depend on the scopes that
/// stood before it: its body sees its parameters and nothing else, not
/// even the function's own name.
pub proof fn lemma_declaration_ignores_outer_scopes(
    src: Source,
    pos: int,
    one: Seq<Seq<SymbolView>>,
    other: Seq<Seq<SymbolView>>,
)
    ensures
        function_decl(src, one, pos).result == function_decl(src, other, pos).result,
        function_decl(src, one, pos).pos == function_decl(src, other, pos).pos,
{
}

/// A declaration that fails leaves the scope stack as it found it; one
/// that succeeds adds exactly one scope on top.
pub proof fn lemma_declaration_scopes(src: Source, scopes: Seq<Seq<SymbolView>>, pos: int)
    ensures
        function_decl(src, scopes, pos).result is Err ==> function_decl(src, scopes, pos).scopes
            == scopes,
        function_decl(src, scopes, pos).result is Ok ==> function_decl(
            src,
            scopes,
            pos,
        ).scopes.drop_last() == scopes,
{
    let out = function_decl(src, scopes, pos);
    if out.result is Ok {
        assert(out.scopes.drop_last() =~= scopes);
    }
}

/// Fresh parsers on token sequences that read the same are in the same
/// state.
pub proof fn lemma_fresh_parsers_agree(a: Parser, b: Parser, ta: Seq<Token>, tb: Seq<Token>)
    requires
        token_views(ta) == token_views(tb),
        a@ == fresh(token_views(ta)),
        b@ == fresh(token_views(tb)),
    ensures
        a@ == b@,
{
}

/// Two parses of a declaration from parsers in the same state give the
/// same tree or the same diagnostics, and leave the parsers in the same
/// state.
pub proof fn lemma_parse_function_deterministic(
    a: Parser,
    b: Parser,
    a_after: Parser,
    b_after: Parser,
    a_res: Result<ASTNode, Vec<SyntaxError>>,
    b_res: Result<ASTNode, Vec<SyntaxError>>,
)
    requires
        a@ == b@,
        a_after.same_input(a),
        a_after@.pos == function_decl(a@.src, a@.scopes, a@.pos).pos,
        a_after@.scopes == function_decl(a@.src, a@.scopes, a@.pos).scopes,
        node_result(a_res) == function_decl(a@.src, a@.scopes, a@.pos).result,
        b_after.same_input(b),
        b_after@.pos == function_decl(b@.src, b@.scopes, b@.pos).pos,
        b_after@.scopes == function_decl(b@.src, b@.scopes, b@.pos).scopes,
        node_result(b_res) == function_decl(b@.src, b@.scopes, b@.pos).result,
    ensures
        node_result(a_res) == node_result(b_res),
        a_after@ == b_after@,
{
}

/// Two parses of a call statement from parsers in the same state give the
/// same tree or the same diagnostics, and leave the parsers in the same
/// state.
pub proof fn lemma_parse_function_call_deterministic(
    a: Parser,
    b: Parser,
    a_after: Parser,
    b_after: Parser,
    a_res: Result<ASTNode, Vec<SyntaxError>>,
    b_res: Result<ASTNode, Vec<SyntaxError>>,
)
    requires
        a@ == b@,
        a_after.follows(a, function_call(a@.src, active_scope(a@.scopes), a@.pos).pos),
        node_result(a_res) == function_call(a@.src, active_scope(a@.scopes), a@.pos).result,
        b_after.follows(b, function_call(b@.src, active_scope(b@.scopes), b@.pos).pos),
        node_result(b_res) == function_call(b@.src, active_scope(b@.scopes), b@.pos).result,
    ensures
        node_result(a_res) == node_result(b_res),
        a_after@ == b_after@,
{
}

/// Two parses of a return statement from parsers in the same state give
/// the same tree or the same diagnostics, and leave the parsers in the
/// same state.
pub proof fn lemma_parse_return_deterministic(
    a: Parser,
    b: Parser,
    a_after: Parser,
    b_after: Parser,
    a_res: Result<ASTNode, Vec<SyntaxError>>,
    b_res: Result<ASTNode, Vec<SyntaxError>>,
)
    requires
        a@ == b@,
        a_after.follows(a, return_stmt(a@.src, a@.pos).pos),
        node_result(a_res) == return_stmt(a@.src, a@.pos).result,
        b_after.follows(b, return_stmt(b@.src, b@.pos).pos),
        node_result(b_res) == return_stmt(b@.src, b@.pos).result,
    ensures
        node_result(a_res) == node_result(b_res),
        a_after@ == b_after@,
{
}

} // verus!
