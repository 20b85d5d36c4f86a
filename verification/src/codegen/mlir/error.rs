//! Errors of the MLIR back end.
//!
//! - `General`: general code generation errors with a custom message
//! - `TypeParseError`: an MLIR type could not be parsed
//! - `OperationBuildError`: an MLIR operation could not be constructed
//! - `MissingResult`: an operation lacks an expected result
//! - `InvalidOperation`: an operation is malformed
//! - `ContextError`: a problem with the code generation context
use vstd::prelude::*;

use crate::text::{decimal, push_decimal, string_of};

verus! {

/// Errors that can occur during MLIR code generation.
#[derive(Debug, Clone)]
pub enum MlirError {
    TypeParseError(String),
    OperationBuildError(String),
    InvalidOperation(String),
    MissingResult(String),
    ContextError(String),
    General(String),
}

/// An MLIR error with its text as a character sequence.
pub enum MlirErrorView {
    TypeParseError(Seq<char>),
    OperationBuildError(Seq<char>),
    InvalidOperation(Seq<char>),
    MissingResult(Seq<char>),
    ContextError(Seq<char>),
    General(Seq<char>),
}

impl View for MlirError {
    type V = MlirErrorView;

    open spec fn view(&self) -> MlirErrorView {
        match self {
            MlirError::TypeParseError(s) => MlirErrorView::TypeParseError(s@),
            MlirError::OperationBuildError(s) => MlirErrorView::OperationBuildError(s@),
            MlirError::InvalidOperation(s) => MlirErrorView::InvalidOperation(s@),
            MlirError::MissingResult(s) => MlirErrorView::MissingResult(s@),
            MlirError::ContextError(s) => MlirErrorView::ContextError(s@),
            MlirError::General(s) => MlirErrorView::General(s@),
        }
    }
}

/// The text shown for an error: a prefix naming its kind, then its message.
pub open spec fn mlir_error_text(e: MlirErrorView) -> Seq<char> {
    match e {
        MlirErrorView::TypeParseError(m) => "Type parsing failed: "@ + m,
        MlirErrorView::OperationBuildError(m) => "Operation building failed: "@ + m,
        MlirErrorView::InvalidOperation(m) => "Invalid operation: "@ + m,
        MlirErrorView::MissingResult(m) => "Missing operation result: "@ + m,
        MlirErrorView::ContextError(m) => "Context error: "@ + m,
        MlirErrorView::General(m) => "MLIR error: "@ + m,
    }
}

impl MlirError {
    /// The text shown for this error.
    pub fn message(&self) -> (s: String)
        ensures
            s@ == mlir_error_text(self@),
    {
        let (prefix, msg) = match self {
            MlirError::TypeParseError(m) => ("Type parsing failed: ", m),
            MlirError::OperationBuildError(m) => ("Operation building failed: ", m),
            MlirError::InvalidOperation(m) => ("Invalid operation: ", m),
            MlirError::MissingResult(m) => ("Missing operation result: ", m),
            MlirError::ContextError(m) => ("Context error: ", m),
            MlirError::General(m) => ("MLIR error: ", m),
        };
        let mut s = string_of(prefix);
        s.append(msg.as_str());
        s
    }
}

/// An error for a type text that could not be parsed.
pub fn type_parse_error(type_str: &str) -> (e: MlirError)
    ensures
        e@ == MlirErrorView::TypeParseError("Failed to parse type '"@ + type_str@ + "'"@),
{
    let mut s = string_of("Failed to parse type '");
    s.append(type_str);
    s.append("'");
    MlirError::TypeParseError(s)
}

/// An error for an operation that could not be built.
pub fn operation_build_error(operation: &str) -> (e: MlirError)
    ensures
        e@ == MlirErrorView::OperationBuildError(
            "Failed to build operation '"@ + operation@ + "'"@,
        ),
{
    let mut s = string_of("Failed to build operation '");
    s.append(operation);
    s.append("'");
    MlirError::OperationBuildError(s)
}

/// An error for an operation without the result at `index`.
pub fn missing_result_error(operation: &str, index: usize) -> (e: MlirError)
    ensures
        e@ == MlirErrorView::MissingResult(
            "Operation '"@ + operation@ + "' missing result at index "@ + decimal(index as nat),
        ),
{
    let mut s = string_of("Operation '");
    s.append(operation);
    s.append("' missing result at index ");
    push_decimal(&mut s, index as u128);
    MlirError::MissingResult(s)
}

/// A context error with the given message.
pub fn context_error(msg: &str) -> (e: MlirError)
    ensures
        e@ == MlirErrorView::ContextError(msg@),
{
    MlirError::ContextError(string_of(msg))
}

/// A general error with the given message.
pub fn general_error(msg: &str) -> (e: MlirError)
    ensures
        e@ == MlirErrorView::General(msg@),
{
    MlirError::General(string_of(msg))
}

} // verus!
