use function_parser::ast::{ASTNode, BinaryExprNode, FunctionCallNode, ReturnStmtNode};
use function_parser::errors::SyntaxError;
use function_parser::parser::Parser;
use function_parser::symbol_table::{Symbol, SymbolTable, SymbolType, Type};
use function_parser::token::{Kind, Position, Token};

fn kind_of(word: &str) -> Kind {
    match word {
        "var" => Kind::Var,
        "function" => Kind::Function,
        "begin" => Kind::Begin,
        "end" => Kind::End,
        "return" => Kind::Return,
        "integer" => Kind::Integer,
        "boolean" => Kind::Boolean,
        ":" => Kind::Colon,
        "," => Kind::Comma,
        ";" => Kind::Semicolon,
        "(" => Kind::LeftParen,
        ")" => Kind::RightParen,
        "+" => Kind::Plus,
        "-" => Kind::Minus,
        _ => {
            if word.chars().all(|c| c.is_ascii_digit()) {
                Kind::Number
            } else {
                Kind::Identifier
            }
        }
    }
}

fn at(column: u32) -> Position {
    Position { line: 1, column }
}

/// Splits `text` at blanks; the n-th word stands at line 1, column n.
fn lex(text: &str) -> Vec<Token> {
    let mut tokens = Vec::new();
    for (i, word) in text.split_whitespace().enumerate() {
        tokens.push(Token::new(kind_of(word), word.to_string(), at(i as u32 + 1)));
    }
    tokens
}

fn word(kind: Kind, text: &str, column: u32) -> Token {
    Token::new(kind, text.to_string(), at(column))
}

fn symbol(name: &str, s_type: SymbolType, r_type: Type, column: u32) -> Symbol {
    Symbol { name: name.to_string(), s_type, r_type, position: at(column) }
}

fn table(symbols: Vec<Symbol>) -> SymbolTable {
    SymbolTable { symbols }
}

fn unexpected(expected: Kind, found: Kind, column: u32) -> SyntaxError {
    SyntaxError::UnexpectedToken { expected, found, position: at(column) }
}

fn undeclared(name: &str, column: u32) -> SyntaxError {
    SyntaxError::UndeclaredIdentifier { name: name.to_string(), position: at(column) }
}

#[test]
fn parameters_come_out_in_declaration_order() {
    let mut p = Parser::new(lex("( a : integer , var b : boolean , c : boolean ) :"));
    let params = p.parse_parameters().unwrap();
    assert_eq!(
        params,
        table(vec![
            symbol("a", SymbolType::Param, Type::Integer, 2),
            symbol("b", SymbolType::VarParam, Type::Boolean, 7),
            symbol("c", SymbolType::Param, Type::Boolean, 11),
        ])
    );
    assert_eq!(p.current().kind, Kind::RightParen);
    assert_eq!(p.pos, 13);
}

#[test]
fn empty_parameter_list_is_accepted() {
    let mut p = Parser::new(lex("( ) :"));
    assert_eq!(p.parse_parameters(), Ok(SymbolTable::new()));
    assert_eq!(p.pos, 1);
}

#[test]
fn single_reference_parameter() {
    let mut p = Parser::new(lex("( var x : integer )"));
    assert_eq!(
        p.parse_parameters(),
        Ok(table(vec![symbol("x", SymbolType::VarParam, Type::Integer, 3)]))
    );
}

#[test]
fn parameter_without_colon_fails_fast() {
    let mut p = Parser::new(lex("( a integer , 1 2 3 )"));
    assert_eq!(p.parse_parameters(), Err(vec![unexpected(Kind::Colon, Kind::Integer, 3)]));
    assert_eq!(p.pos, 2);
}

#[test]
fn parameter_without_name_fails() {
    let mut p = Parser::new(lex("( : integer )"));
    assert_eq!(p.parse_parameters(), Err(vec![unexpected(Kind::Identifier, Kind::Colon, 2)]));
}

#[test]
fn reference_marker_without_name_fails() {
    let mut p = Parser::new(lex("( var : integer )"));
    assert_eq!(p.parse_parameters(), Err(vec![unexpected(Kind::Identifier, Kind::Colon, 3)]));
}

#[test]
fn parameter_with_unknown_type_fails() {
    let mut p = Parser::new(lex("( a : b )"));
    assert_eq!(p.parse_parameters(), Err(vec![unexpected(Kind::Integer, Kind::Identifier, 4)]));
}

#[test]
fn parameter_must_end_in_comma_or_right_paren() {
    let mut p = Parser::new(lex("( a : integer ; b : integer )"));
    assert_eq!(
        p.parse_parameters(),
        Err(vec![unexpected(Kind::RightParen, Kind::Semicolon, 5)])
    );
}

#[test]
fn unterminated_parameter_list_reports_end_of_input() {
    let mut p = Parser::new(lex("( a : integer ,"));
    assert_eq!(p.parse_parameters(), Err(vec![unexpected(Kind::Identifier, Kind::Eof, 5)]));
    assert_eq!(p.pos, 5);
}

#[test]
fn function_without_parameters() {
    let mut p = Parser::new(lex("function f ( ) : integer ; begin end"));
    let node = p.parse_function().unwrap();
    match node {
        ASTNode::FunctionDecl(decl) => {
            assert_eq!(decl.name, "f");
            assert_eq!(decl.r_type, Type::Integer);
            assert_eq!(decl.args.len(), 0);
            assert_eq!(*decl.block, ASTNode::Block(vec![]));
            assert_eq!(decl.position, at(9));
        }
        other => panic!("not a declaration: {:?}", other),
    }
    assert_eq!(p.context, vec![table(vec![symbol("f", SymbolType::Function, Type::Integer, 2)])]);
    assert_eq!(p.current().kind, Kind::End);
}

#[test]
fn function_with_parameters_and_body() {
    let mut p = Parser::new(lex(
        "function add ( a : integer , var b : integer ) : boolean ; begin g ( a , b ) ; return a + b ; end",
    ));
    let node = p.parse_function().unwrap();
    let a = symbol("a", SymbolType::Param, Type::Integer, 4);
    let b = symbol("b", SymbolType::VarParam, Type::Integer, 9);
    match node {
        ASTNode::FunctionDecl(decl) => {
            assert_eq!(decl.name, "add");
            assert_eq!(decl.r_type, Type::Boolean);
            assert_eq!(decl.args, table(vec![a.clone(), b.clone()]));
            let call = ASTNode::FunctionCallStmt(FunctionCallNode {
                position: at(17),
                args: table(vec![a.clone(), b.clone()]),
                target: "g".to_string(),
            });
            let sum = ASTNode::BinaryExpr(BinaryExprNode {
                op: word(Kind::Plus, "+", 26),
                left: Box::new(ASTNode::Operand(word(Kind::Identifier, "a", 25))),
                right: Box::new(ASTNode::Operand(word(Kind::Identifier, "b", 27))),
            });
            let ret = ASTNode::ReturnStmt(ReturnStmtNode {
                token: word(Kind::Return, "return", 24),
                value: Some(Box::new(sum)),
            });
            assert_eq!(*decl.block, ASTNode::Block(vec![call, ret]));
            assert_eq!(decl.position, at(29));
        }
        other => panic!("not a declaration: {:?}", other),
    }
    assert_eq!(
        p.context,
        vec![table(vec![a, b, symbol("add", SymbolType::Function, Type::Boolean, 2)])]
    );
}

#[test]
fn function_declaration_errors_are_single() {
    let cases: Vec<(&str, SyntaxError)> = vec![
        ("function ( ) : integer ; begin end", unexpected(Kind::Identifier, Kind::LeftParen, 2)),
        ("function f ) : integer ; begin end", unexpected(Kind::LeftParen, Kind::RightParen, 3)),
        ("function f ( ) integer ; begin end", unexpected(Kind::Colon, Kind::Integer, 5)),
        ("function f ( ) : ; begin end", unexpected(Kind::Integer, Kind::Semicolon, 6)),
        ("function f ( ) : integer begin end", unexpected(Kind::Semicolon, Kind::Begin, 7)),
        ("function f ( ) : integer ; end", unexpected(Kind::Begin, Kind::End, 8)),
        ("function f ( ) : integer ; begin", unexpected(Kind::End, Kind::Eof, 8)),
        ("function f ( ) : integer ; begin begin end", unexpected(Kind::End, Kind::Begin, 9)),
        ("function f ( a ) : integer ; begin end", unexpected(Kind::Colon, Kind::RightParen, 5)),
    ];
    for (text, error) in cases {
        let mut p = Parser::new(lex(text));
        assert_eq!(p.parse_function(), Err(vec![error]), "{}", text);
        assert!(p.context.is_empty(), "{}", text);
    }
}

#[test]
fn failing_body_leaves_the_scope_stack_as_it_was() {
    let mut p = Parser::new(lex("function f ( a : integer ) : integer ; begin return ; g ( b ) ; end"));
    let outer = table(vec![symbol("z", SymbolType::Param, Type::Boolean, 40)]);
    p.push_scope(outer.clone());
    let errors = p.parse_function().unwrap_err();
    assert_eq!(errors[0], undeclared("b", 16));
    assert_eq!(p.context, vec![outer]);
}

#[test]
fn own_name_does_not_resolve_inside_the_body() {
    let mut p = Parser::new(lex(
        "function f ( a : integer ) : integer ; begin f ( f ) ; end",
    ));
    let errors = p.parse_function().unwrap_err();
    assert_eq!(errors[0], undeclared("f", 14));
    assert!(p.context.is_empty());
}

#[test]
fn own_name_resolves_after_the_declaration() {
    let mut p = Parser::new(lex(
        "function f ( a : integer ) : integer ; begin return a ; end f ( f , a )",
    ));
    assert!(p.parse_function().is_ok());
    assert_eq!(p.advance(), Kind::Identifier);
    let f = symbol("f", SymbolType::Function, Type::Integer, 2);
    let a = symbol("a", SymbolType::Param, Type::Integer, 4);
    assert_eq!(
        p.parse_function_call(),
        Ok(ASTNode::FunctionCallStmt(FunctionCallNode {
            position: at(16),
            args: table(vec![f, a]),
            target: "f".to_string(),
        }))
    );
}

#[test]
fn call_with_one_undeclared_argument_reports_it_once() {
    let mut p = Parser::new(lex("f ( x , y )"));
    p.push_scope(table(vec![symbol("x", SymbolType::Param, Type::Integer, 90)]));
    let errors = p.parse_function_call().unwrap_err();
    let naming_y: Vec<&SyntaxError> = errors
        .iter()
        .filter(|e| matches!(e, SyntaxError::UndeclaredIdentifier { .. }))
        .collect();
    assert_eq!(naming_y, vec![&undeclared("y", 5)]);
    assert_eq!(
        errors,
        vec![
            undeclared("y", 5),
            unexpected(Kind::Identifier, Kind::RightParen, 6),
            SyntaxError::PrematureEof { expected: Kind::Identifier, position: at(6) },
        ]
    );
}

#[test]
fn call_collects_every_undeclared_argument() {
    let mut p = Parser::new(lex("( p q x , r )"));
    p.push_scope(table(vec![symbol("x", SymbolType::Param, Type::Integer, 90)]));
    assert_eq!(
        p.parse_call_parameters(),
        Err(vec![
            undeclared("p", 2),
            undeclared("q", 3),
            undeclared("r", 6),
            unexpected(Kind::Identifier, Kind::RightParen, 7),
            SyntaxError::PrematureEof { expected: Kind::Identifier, position: at(7) },
        ])
    );
}

#[test]
fn call_with_literal_argument_is_refused() {
    let mut p = Parser::new(lex("f ( 1 )"));
    p.push_scope(SymbolTable::new());
    let errors = p.parse_function_call().unwrap_err();
    assert_eq!(errors[0], unexpected(Kind::Identifier, Kind::Number, 3));
}

#[test]
fn call_arguments_resolve_to_the_declared_symbols() {
    let mut p = Parser::new(lex("f ( y , x ) ;"));
    let x = symbol("x", SymbolType::Param, Type::Integer, 70);
    let y = symbol("y", SymbolType::VarParam, Type::Boolean, 80);
    p.push_scope(table(vec![x.clone(), y.clone()]));
    assert_eq!(
        p.parse_function_call(),
        Ok(ASTNode::FunctionCallStmt(FunctionCallNode {
            position: at(1),
            args: table(vec![y, x]),
            target: "f".to_string(),
        }))
    );
    assert_eq!(p.current().kind, Kind::RightParen);
    assert_eq!(p.pos, 5);
}

#[test]
fn call_without_left_paren_fails() {
    let mut p = Parser::new(lex("f x )"));
    assert_eq!(
        p.parse_function_call(),
        Err(vec![unexpected(Kind::LeftParen, Kind::Identifier, 2)])
    );
}

#[test]
fn call_cut_short_after_an_argument_reports_end_of_input() {
    let mut p = Parser::new(lex("( x"));
    p.push_scope(table(vec![symbol("x", SymbolType::Param, Type::Integer, 90)]));
    assert_eq!(
        p.parse_call_parameters(),
        Err(vec![SyntaxError::PrematureEof { expected: Kind::RightParen, position: at(2) }])
    );
}

#[test]
fn call_with_wrong_separator_goes_on() {
    let mut p = Parser::new(lex("( x ; x )"));
    p.push_scope(table(vec![symbol("x", SymbolType::Param, Type::Integer, 90)]));
    assert_eq!(
        p.parse_call_parameters(),
        Err(vec![unexpected(Kind::RightParen, Kind::Semicolon, 3)])
    );
    assert_eq!(p.pos, 4);
}

#[test]
fn call_sees_only_the_top_scope() {
    let mut p = Parser::new(lex("( x )"));
    p.push_scope(table(vec![symbol("x", SymbolType::Param, Type::Integer, 90)]));
    p.push_scope(table(vec![symbol("y", SymbolType::Param, Type::Integer, 91)]));
    let errors = p.parse_call_parameters().unwrap_err();
    assert_eq!(errors[0], undeclared("x", 2));
}

#[test]
fn call_with_no_scope_resolves_nothing() {
    let mut p = Parser::new(lex("( x )"));
    let errors = p.parse_call_parameters().unwrap_err();
    assert_eq!(errors[0], undeclared("x", 2));
}

#[test]
fn return_without_value() {
    let mut p = Parser::new(lex("return ;"));
    assert_eq!(
        p.parse_return(),
        Ok(ASTNode::ReturnStmt(ReturnStmtNode {
            token: word(Kind::Return, "return", 1),
            value: None,
        }))
    );
    assert_eq!(p.pos, 1);
}

#[test]
fn return_with_expression() {
    let mut p = Parser::new(lex("return x + 1 ;"));
    let sum = ASTNode::BinaryExpr(BinaryExprNode {
        op: word(Kind::Plus, "+", 3),
        left: Box::new(ASTNode::Operand(word(Kind::Identifier, "x", 2))),
        right: Box::new(ASTNode::Operand(word(Kind::Number, "1", 4))),
    });
    assert_eq!(
        p.parse_return(),
        Ok(ASTNode::ReturnStmt(ReturnStmtNode {
            token: word(Kind::Return, "return", 1),
            value: Some(Box::new(sum)),
        }))
    );
    assert_eq!(p.current().kind, Kind::Semicolon);
}

#[test]
fn return_without_semicolon_is_an_error() {
    let mut p = Parser::new(lex("return x + 1"));
    assert_eq!(p.parse_return(), Err(vec![unexpected(Kind::Semicolon, Kind::Eof, 4)]));
    let mut q = Parser::new(lex("return x end"));
    assert_eq!(q.parse_return(), Err(vec![unexpected(Kind::Semicolon, Kind::End, 3)]));
}

#[test]
fn return_with_malformed_expression() {
    let mut p = Parser::new(lex("return x + ;"));
    assert_eq!(p.parse_return(), Err(vec![unexpected(Kind::Identifier, Kind::Semicolon, 4)]));
    let mut q = Parser::new(lex("return ) ;"));
    assert_eq!(q.parse_return(), Err(vec![unexpected(Kind::Identifier, Kind::RightParen, 2)]));
}

#[test]
fn expression_groups_to_the_left() {
    let mut p = Parser::new(lex("return a - b + c ;"));
    let inner = ASTNode::BinaryExpr(BinaryExprNode {
        op: word(Kind::Minus, "-", 3),
        left: Box::new(ASTNode::Operand(word(Kind::Identifier, "a", 2))),
        right: Box::new(ASTNode::Operand(word(Kind::Identifier, "b", 4))),
    });
    let outer = ASTNode::BinaryExpr(BinaryExprNode {
        op: word(Kind::Plus, "+", 5),
        left: Box::new(inner),
        right: Box::new(ASTNode::Operand(word(Kind::Identifier, "c", 6))),
    });
    match p.parse_return().unwrap() {
        ASTNode::ReturnStmt(r) => assert_eq!(r.value, Some(Box::new(outer))),
        other => panic!("not a return statement: {:?}", other),
    }
}

#[test]
fn parsing_twice_gives_the_same() {
    let texts = [
        "function add ( a : integer , var b : integer ) : boolean ; begin g ( a , b ) ; return a + b ; end",
        "function f ( a : integer ) : integer ; begin f ( f , 1 , a ; ) end",
        "function f ( a : ) : integer ; begin end",
    ];
    for text in texts {
        let mut p = Parser::new(lex(text));
        let mut q = Parser::new(lex(text));
        assert_eq!(p.parse_function(), q.parse_function(), "{}", text);
        assert_eq!(p.pos, q.pos);
        assert_eq!(p.context, q.context);
    }
}

#[test]
fn cursor_stays_within_the_input() {
    let mut p = Parser::new(lex("a ,"));
    assert_eq!(p.current().kind, Kind::Identifier);
    p.go_back();
    assert_eq!(p.pos, 0);
    assert_eq!(p.advance(), Kind::Comma);
    assert_eq!(p.advance(), Kind::Eof);
    assert_eq!(p.advance(), Kind::Eof);
    assert_eq!(p.pos, 2);
    assert_eq!(p.current().position, at(2));
    assert_eq!(p.current().lexeme, "");
    p.go_back();
    assert!(p.matches(Kind::Comma));
}

#[test]
fn parser_on_no_tokens_is_at_the_end() {
    let mut p = Parser::new(Vec::new());
    assert_eq!(p.current_kind(), Kind::Eof);
    assert_eq!(p.current().position, Position { line: 0, column: 0 });
    assert_eq!(
        p.parse_function(),
        Err(vec![SyntaxError::UnexpectedToken {
            expected: Kind::Identifier,
            found: Kind::Eof,
            position: Position { line: 0, column: 0 },
        }])
    );
    assert_eq!(
        p.parse_call_parameters(),
        Err(vec![SyntaxError::PrematureEof {
            expected: Kind::Identifier,
            position: Position { line: 0, column: 0 },
        }])
    );
}

#[test]
fn lookup_gives_the_first_symbol_declared_under_a_name() {
    let mut t = SymbolTable::new();
    t.push(symbol("a", SymbolType::Param, Type::Integer, 1));
    t.push(symbol("b", SymbolType::VarParam, Type::Boolean, 2));
    t.push(symbol("a", SymbolType::Function, Type::Boolean, 3));
    assert_eq!(t.len(), 3);
    assert_eq!(t.get(&"a".to_string()), Some(symbol("a", SymbolType::Param, Type::Integer, 1)));
    assert_eq!(t.get(&"b".to_string()), Some(symbol("b", SymbolType::VarParam, Type::Boolean, 2)));
    assert_eq!(t.get(&"c".to_string()), None);
    assert_eq!(t.clone(), t);
}

#[test]
fn scopes_are_pushed_and_popped_in_order() {
    let mut p = Parser::new(lex("x"));
    assert_eq!(p.pop_scope(), None);
    let one = table(vec![symbol("x", SymbolType::Param, Type::Integer, 1)]);
    let two = table(vec![symbol("y", SymbolType::Param, Type::Integer, 2)]);
    p.push_scope(one.clone());
    p.push_scope(two.clone());
    assert_eq!(p.resolve(&"x".to_string()), None);
    assert_eq!(p.resolve(&"y".to_string()), Some(two.symbols[0].clone()));
    assert_eq!(p.pop_scope(), Some(two));
    assert_eq!(p.resolve(&"x".to_string()), Some(one.symbols[0].clone()));
    assert_eq!(p.pop_scope(), Some(one));
}

#[test]
fn block_statements_need_their_semicolon() {
    let mut p = Parser::new(lex("begin g ( ) end"));
    p.push_scope(SymbolTable::new());
    let errors = p.parse_block().unwrap_err();
    assert_eq!(errors[0], unexpected(Kind::Identifier, Kind::RightParen, 4));
    let mut q = Parser::new(lex("begin g ( x ) end"));
    q.push_scope(table(vec![symbol("x", SymbolType::Param, Type::Integer, 9)]));
    assert_eq!(q.parse_block(), Err(vec![unexpected(Kind::Semicolon, Kind::End, 6)]));
}

#[test]
fn type_names() {
    let mut p = Parser::new(lex(": integer boolean x"));
    assert_eq!(p.parse_type(), Ok(Type::Integer));
    assert_eq!(p.parse_type(), Ok(Type::Boolean));
    assert_eq!(p.parse_type(), Err(vec![unexpected(Kind::Integer, Kind::Identifier, 4)]));
}

#[test]
fn clones_are_equal() {
    let t = word(Kind::Identifier, "abc", 7);
    assert_eq!(t.clone(), t);
    let s = symbol("abc", SymbolType::VarParam, Type::Boolean, 7);
    assert_eq!(s.clone(), s);
}

#[test]
fn body_does_not_see_outer_scopes() {
    let text = "function f ( a : integer ) : integer ; begin g ( z ) ; end";
    let mut p = Parser::new(lex(text));
    p.push_scope(table(vec![symbol("z", SymbolType::Param, Type::Boolean, 40)]));
    let mut q = Parser::new(lex(text));
    let with_outer = p.parse_function();
    assert_eq!(with_outer.as_ref().unwrap_err()[0], undeclared("z", 14));
    assert_eq!(with_outer, q.parse_function());
}

#[test]
fn separator_in_an_argument_place_is_unexpected() {
    let mut p = Parser::new(lex("( , x )"));
    p.push_scope(table(vec![symbol("x", SymbolType::Param, Type::Integer, 90)]));
    assert_eq!(
        p.parse_call_parameters(),
        Err(vec![unexpected(Kind::Identifier, Kind::Comma, 2)])
    );
    assert_eq!(p.pos, 3);
}

#[test]
fn return_at_the_end_of_input() {
    let mut p = Parser::new(lex("return"));
    assert_eq!(p.parse_return(), Err(vec![unexpected(Kind::Identifier, Kind::Eof, 1)]));
    assert_eq!(p.pos, 1);
}

#[test]
fn declaration_scope_holds_parameters_then_the_function() {
    let mut p = Parser::new(lex("function f ( var a : boolean ) : integer ; begin return 1 ; end"));
    let outer = table(vec![symbol("z", SymbolType::Param, Type::Boolean, 40)]);
    p.push_scope(outer.clone());
    assert!(p.parse_function().is_ok());
    assert_eq!(
        p.context,
        vec![
            outer,
            table(vec![
                symbol("a", SymbolType::VarParam, Type::Boolean, 5),
                symbol("f", SymbolType::Function, Type::Integer, 2),
            ]),
        ]
    );
}
