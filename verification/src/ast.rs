//! The abstract syntax tree that the grammar rules build, and its
//! mathematical model.

use vstd::prelude::*;
use crate::symbol_table::{SymbolTable, SymbolView, Type};
use crate::token::{Position, Token, TokenView};

verus! {

/// A function declaration.
#[derive(Debug, PartialEq, Eq)]
pub struct FunctionDeclNode {
    pub name: String,
    /// Where the declaration ends: the place of its closing `end`.
    pub position: Position,
    pub args: SymbolTable,
    pub block: Box<ASTNode>,
    pub r_type: Type,
}

/// A call statement with its arguments resolved to symbols.
#[derive(Debug, PartialEq, Eq)]
pub struct FunctionCallNode {
    pub position: Position,
    pub args: SymbolTable,
    pub target: String,
}

/// A return statement, with or without a value.
#[derive(Debug, PartialEq, Eq)]
pub struct ReturnStmtNode {
    pub token: Token,
    pub value: Option<Box<ASTNode>>,
}

/// An operator applied to two operands.
#[derive(Debug, PartialEq, Eq)]
pub struct BinaryExprNode {
    pub op: Token,
    pub left: Box<ASTNode>,
    pub right: Box<ASTNode>,
}

/// A node of the syntax tree.
#[derive(Debug, PartialEq, Eq)]
pub enum ASTNode {
    FunctionDecl(FunctionDeclNode),
    FunctionCallStmt(FunctionCallNode),
    ReturnStmt(ReturnStmtNode),
    Block(Vec<ASTNode>),
    Operand(Token),
    BinaryExpr(BinaryExprNode),
}

/// The mathematical model of a syntax tree: the same shape, with
/// sequences in place of vectors and strings.
pub enum Ast {
    FunctionDecl {
        name: Seq<char>,
        position: Position,
        args: Seq<SymbolView>,
        block: Box<Ast>,
        r_type: Type,
    },
    FunctionCallStmt { position: Position, args: Seq<SymbolView>, target: Seq<char> },
    ReturnStmt { token: TokenView, value: Option<Box<Ast>> },
    Block(Seq<Ast>),
    Operand(TokenView),
    BinaryExpr { op: TokenView, left: Box<Ast>, right: Box<Ast> },
}

/// The model of one node.
pub open spec fn model(node: ASTNode) -> Ast
    decreases node,
{
    match node {
        ASTNode::FunctionDecl(d) => Ast::FunctionDecl {
            name: d.name@,
            position: d.position,
            args: d.args@,
            block: Box::new(model(*d.block)),
            r_type: d.r_type,
        },
        ASTNode::FunctionCallStmt(c) => Ast::FunctionCallStmt {
            position: c.position,
            args: c.args@,
            target: c.target@,
        },
        ASTNode::ReturnStmt(r) => Ast::ReturnStmt {
            token: r.token@,
            value: match r.value {
                Some(v) => Some(Box::new(model(*v))),
                None => None,
            },
        },
        ASTNode::Block(stmts) => Ast::Block(
            Seq::new(
                stmts.len() as nat,
                |i: int|
                    if 0 <= i < stmts.len() {
                        model(stmts[i])
                    } else {
                        Ast::Block(Seq::empty())
                    },
            ),
        ),
        ASTNode::Operand(t) => Ast::Operand(t@),
        ASTNode::BinaryExpr(b) => Ast::BinaryExpr {
            op: b.op@,
            left: Box::new(model(*b.left)),
            right: Box::new(model(*b.right)),
        },
    }
}

impl View for ASTNode {
    type V = Ast;

    open spec fn view(&self) -> Ast {
        model(*self)
    }
}

/// The models of a vector of nodes, in order.
pub open spec fn views(nodes: Seq<ASTNode>) -> Seq<Ast> {
    Seq::new(nodes.len(), |i: int| model(nodes[i]))
}

} // verus!
