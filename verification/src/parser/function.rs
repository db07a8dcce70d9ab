//! The rules for function declarations, parameter lists, call statements
//! and return statements.

use vstd::prelude::*;
use crate::ast::{ASTNode, FunctionCallNode, FunctionDeclNode, ReturnStmtNode};
use crate::errors::{error_views, SyntaxError};
use crate::grammar::{
    call_parameters, function_body, function_call, function_decl, function_tail, more_params,
    param_tail, parameters, return_stmt, scan_args, single_param,
};
use crate::parser::{
    active_scope, node_result, report, single, symbol_result, table_result, Parser,
};
use crate::symbol_table::{Symbol, SymbolTable, SymbolType};
use crate::token::Kind;

verus! {

impl Parser {
    /// Parses what follows a parameter's identifier, the current token: a
    /// colon, a type, and a comma or right parenthesis.
    fn parse_param_tail(&mut self, s_type: SymbolType) -> (res: Result<Symbol, Vec<SyntaxError>>)
        requires
            old(self).wf(),
        ensures
            final(self).follows(
                *old(self),
                param_tail(old(self)@.src, old(self)@.pos, s_type).pos,
            ),
            symbol_result(res) == param_tail(old(self)@.src, old(self)@.pos, s_type).result,
    {
        let id = self.current().clone();
        if self.advance() != Kind::Colon {
            return Err(single(self.unexpected_token_err(Kind::Colon)));
        }
        let r_type = match self.parse_type() {
            Ok(t) => t,
            Err(errors) => {
                return Err(errors);
            },
        };
        match self.advance() {
            Kind::Comma | Kind::RightParen => Ok(
                Symbol { name: id.lexeme, s_type, r_type, position: id.position },
            ),
            _ => Err(single(self.unexpected_token_err(Kind::RightParen))),
        }
    }

    /// Parses one parameter: an optional reference marker, an identifier,
    /// a colon, a type, and the comma or right parenthesis that ends it,
    /// on which the cursor stops.
    fn parse_single_param(&mut self) -> (res: Result<Symbol, Vec<SyntaxError>>)
        requires
            old(self).wf(),
        ensures
            final(self).follows(*old(self), single_param(old(self)@.src, old(self)@.pos).pos),
            symbol_result(res) == single_param(old(self)@.src, old(self)@.pos).result,
    {
        match self.advance() {
            Kind::Var => {
                if self.advance() == Kind::Identifier {
                    self.parse_param_tail(SymbolType::VarParam)
                } else {
                    Err(single(self.unexpected_token_err(Kind::Identifier)))
                }
            },
            Kind::Identifier => self.parse_param_tail(SymbolType::Param),
            _ => Err(single(self.unexpected_token_err(Kind::Identifier))),
        }
    }

    /// Parses the parameter list of a declaration, the current token being
    /// its left parenthesis. Gives one symbol for each parameter, in the
    /// order of declaration, and stops on the right parenthesis; the first
    /// malformed parameter ends the parse with its diagnostic alone.
    pub fn parse_parameters(&mut self) -> (res: Result<SymbolTable, Vec<SyntaxError>>)
        requires
            old(self).wf(),
        ensures
            final(self).follows(*old(self), parameters(old(self)@.src, old(self)@.pos).pos),
            table_result(res) == parameters(old(self)@.src, old(self)@.pos).result,
    {
        let mut params = SymbolTable::new();
        if self.advance() == Kind::RightParen {
            return Ok(params);
        }
        self.go_back();
        let ghost src = old(self)@.src;
        let ghost whole = parameters(src, old(self)@.pos);
        loop
            invariant
                self.follows(*old(self), self.pos as int),
                src == old(self)@.src,
                whole == parameters(src, old(self)@.pos),
                whole == more_params(src, self.pos as int, params@),
            decreases self.tokens.len() - self.pos,
        {
            let param = match self.parse_single_param() {
                Ok(p) => p,
                Err(errors) => {
                    return Err(errors);
                },
            };
            params.push(param);
            if self.matches(Kind::RightParen) {
                return Ok(params);
            }
        }
    }

    /// Parses a function declaration, the current token being its keyword:
    /// the name, the parameter list, the return type and the body.
    ///
    /// The body is parsed with the parameters as the active scope. When it
    /// has been parsed, that scope is taken off again; on success it is put
    /// back with the function's own symbol added after the parameters, on
    /// failure the scope stack is left as it was found. The first
    /// diagnostic ends the parse.
    pub fn parse_function(&mut self) -> (res: Result<ASTNode, Vec<SyntaxError>>)
        requires
            old(self).wf(),
        ensures
            final(self).wf(),
            final(self).same_input(*old(self)),
            final(self)@.pos == function_decl(
                old(self)@.src,
                old(self)@.scopes,
                old(self)@.pos,
            ).pos,
            final(self)@.scopes == function_decl(
                old(self)@.src,
                old(self)@.scopes,
                old(self)@.pos,
            ).scopes,
            node_result(res) == function_decl(
                old(self)@.src,
                old(self)@.scopes,
                old(self)@.pos,
            ).result,
    {
        if self.advance() != Kind::Identifier {
            return Err(single(self.unexpected_token_err(Kind::Identifier)));
        }
        let id = self.current().clone();
        let ghost name = self.pos as int;
        if self.advance() != Kind::LeftParen {
            return Err(single(self.unexpected_token_err(Kind::LeftParen)));
        }
        let args = match self.parse_parameters() {
            Ok(table) => table,
            Err(errors) => {
                return Err(errors);
            },
        };
        let ghost close = self.pos as int;
        assert(function_decl(old(self)@.src, old(self)@.scopes, old(self)@.pos) == function_tail(
            old(self)@.src,
            old(self)@.scopes,
            name,
            args@,
            close,
        ));
        if !self.matches(Kind::RightParen) {
            return Err(single(self.unexpected_token_err(Kind::RightParen)));
        }
        if self.advance() != Kind::Colon {
            return Err(single(self.unexpected_token_err(Kind::Colon)));
        }
        let r_type = match self.parse_type() {
            Ok(t) => t,
            Err(errors) => {
                return Err(errors);
            },
        };
        if self.advance() != Kind::Semicolon {
            return Err(single(self.unexpected_token_err(Kind::Semicolon)));
        }
        if self.advance() != Kind::Begin {
            return Err(single(self.unexpected_token_err(Kind::Begin)));
        }
        assert(function_decl(old(self)@.src, old(self)@.scopes, old(self)@.pos) == function_body(
            old(self)@.src,
            old(self)@.scopes,
            name,
            args@,
            r_type,
            self.pos as int,
        ));
        self.push_scope(args.clone());
        let parsed = self.parse_block();
        let popped = self.pop_scope();
        assert(self@.scopes =~= old(self)@.scopes);
        let body = match parsed {
            Ok(node) => node,
            Err(errors) => {
                return Err(errors);
            },
        };
        let mut scope = popped.unwrap();
        scope.push(
            Symbol {
                name: id.lexeme.clone(),
                s_type: SymbolType::Function,
                r_type,
                position: id.position,
            },
        );
        self.push_scope(scope);
        let position = self.current().position;
        Ok(
            ASTNode::FunctionDecl(
                FunctionDeclNode { name: id.lexeme, position, args, block: Box::new(body), r_type },
            ),
        )
    }

    /// Parses the arguments of a call, the current token being its left
    /// parenthesis: bare identifiers, each resolved in the active scope.
    ///
    /// Nothing ends the parse early but a right parenthesis after an
    /// argument that resolved, or the end of input: every diagnostic met on
    /// the way is collected. The result is the table of the resolved
    /// symbols where there was no diagnostic, and all diagnostics, in the
    /// order in which they were met, where there was one.
    pub fn parse_call_parameters(&mut self) -> (res: Result<SymbolTable, Vec<SyntaxError>>)
        requires
            old(self).wf(),
        ensures
            final(self).follows(
                *old(self),
                call_parameters(
                    old(self)@.src,
                    active_scope(old(self)@.scopes),
                    old(self)@.pos,
                ).pos,
            ),
            table_result(res) == call_parameters(
                old(self)@.src,
                active_scope(old(self)@.scopes),
                old(self)@.pos,
            ).result,
    {
        let mut params = SymbolTable::new();
        let mut errors: Vec<SyntaxError> = Vec::new();
        let mut finished = false;
        let ghost src = old(self)@.src;
        let ghost scope = active_scope(old(self)@.scopes);
        let ghost whole = scan_args(src, scope, old(self)@.pos, Seq::empty(), Seq::empty());
        assert(error_views(errors@) =~= Seq::empty());
        while !finished
            invariant
                self.follows(*old(self), self.pos as int),
                src == old(self)@.src,
                scope == active_scope(old(self)@.scopes),
                whole == scan_args(src, scope, old(self)@.pos, Seq::empty(), Seq::empty()),
                !finished ==> whole == scan_args(
                    src,
                    scope,
                    self.pos as int,
                    params@,
                    error_views(errors@),
                ),
                finished ==> whole.pos == self.pos && whole.args == params@ && whole.errors
                    == error_views(errors@),
            decreases self.tokens.len() - self.pos + (if finished { 0int } else { 1int }),
        {
            match self.advance() {
                Kind::Identifier => {
                    let found = self.resolve(&self.current().lexeme);
                    match found {
                        Some(symbol) => {
                            params.push(symbol);
                            match self.advance() {
                                Kind::Comma => {},
                                Kind::RightParen => {
                                    finished = true;
                                },
                                Kind::Eof => {
                                    report(&mut errors, self.premature_eof_err(Kind::RightParen));
                                    finished = true;
                                },
                                _ => {
                                    report(&mut errors, self.unexpected_token_err(Kind::RightParen));
                                },
                            }
                        },
                        None => {
                            report(&mut errors, self.undeclared_err());
                        },
                    }
                },
                Kind::Eof => {
                    report(&mut errors, self.premature_eof_err(Kind::Identifier));
                    finished = true;
                },
                _ => {
                    report(&mut errors, self.unexpected_token_err(Kind::Identifier));
                },
            }
        }
        if errors.len() == 0 {
            Ok(params)
        } else {
            Err(errors)
        }
    }

    /// Parses a call statement, the current token being the target's name:
    /// a left parenthesis, the arguments, and the right parenthesis, on
    /// which the cursor stops. The diagnostics of the arguments are handed
    /// on as they are.
    pub fn parse_function_call(&mut self) -> (res: Result<ASTNode, Vec<SyntaxError>>)
        requires
            old(self).wf(),
        ensures
            final(self).follows(
                *old(self),
                function_call(
                    old(self)@.src,
                    active_scope(old(self)@.scopes),
                    old(self)@.pos,
                ).pos,
            ),
            node_result(res) == function_call(
                old(self)@.src,
                active_scope(old(self)@.scopes),
                old(self)@.pos,
            ).result,
    {
        let f_name = self.current().clone();
        if self.advance() != Kind::LeftParen {
            return Err(single(self.unexpected_token_err(Kind::LeftParen)));
        }
        let params = match self.parse_call_parameters() {
            Ok(table) => table,
            Err(errors) => {
                return Err(errors);
            },
        };
        if !self.matches(Kind::RightParen) {
            return Err(single(self.unexpected_token_err(Kind::RightParen)));
        }
        Ok(
            ASTNode::FunctionCallStmt(
                FunctionCallNode { position: f_name.position, args: params, target: f_name.lexeme },
            ),
        )
    }

    /// Parses a return statement, the current token being its keyword: a
    /// semicolon at once gives a statement without a value; else an
    /// expression follows, and then a semicolon, on which the cursor stops.
    pub fn parse_return(&mut self) -> (res: Result<ASTNode, Vec<SyntaxError>>)
        requires
            old(self).wf(),
        ensures
            final(self).follows(*old(self), return_stmt(old(self)@.src, old(self)@.pos).pos),
            node_result(res) == return_stmt(old(self)@.src, old(self)@.pos).result,
    {
        let id = self.current().clone();
        match self.advance() {
            Kind::Semicolon => Ok(ASTNode::ReturnStmt(ReturnStmtNode { token: id, value: None })),
            _ => {
                self.go_back();
                let expr = match self.parse_expression() {
                    Ok(node) => node,
                    Err(errors) => {
                        return Err(errors);
                    },
                };
                if !self.matches(Kind::Semicolon) {
                    return Err(single(self.unexpected_token_err(Kind::Semicolon)));
                }
                Ok(ASTNode::ReturnStmt(ReturnStmtNode { token: id, value: Some(Box::new(expr)) }))
            },
        }
    }
}

} // verus!
