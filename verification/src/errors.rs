//! Diagnostics that the grammar rules report.

use vstd::prelude::*;
use crate::token::{Kind, Position};

verus! {

/// One syntax diagnostic.
#[derive(Debug, PartialEq, Eq)]
pub enum SyntaxError {
    /// A token of kind `found` stood where one of kind `expected` was
    /// required.
    UnexpectedToken { expected: Kind, found: Kind, position: Position },
    /// An identifier was used that the active scope does not declare.
    UndeclaredIdentifier { name: String, position: Position },
    /// The input ended inside a construct, where a token of kind
    /// `expected` was still required.
    PrematureEof { expected: Kind, position: Position },
}

/// The mathematical model of a diagnostic: the name as a sequence of
/// characters.
pub enum ErrorView {
    UnexpectedToken { expected: Kind, found: Kind, position: Position },
    UndeclaredIdentifier { name: Seq<char>, position: Position },
    PrematureEof { expected: Kind, position: Position },
}

impl View for SyntaxError {
    type V = ErrorView;

    open spec fn view(&self) -> ErrorView {
        match self {
            SyntaxError::UnexpectedToken { expected, found, position } => {
                ErrorView::UnexpectedToken {
                    expected: *expected,
                    found: *found,
                    position: *position,
                }
            },
            SyntaxError::UndeclaredIdentifier { name, position } => {
                ErrorView::UndeclaredIdentifier { name: name@, position: *position }
            },
            SyntaxError::PrematureEof { expected, position } => ErrorView::PrematureEof {
                expected: *expected,
                position: *position,
            },
        }
    }
}

/// The models of a sequence of diagnostics, in order.
pub open spec fn error_views(errors: Seq<SyntaxError>) -> Seq<ErrorView> {
    Seq::new(errors.len(), |i: int| errors[i]@)
}

} // verus!
