//! Compilation errors and their diagnostic data.
//!
//! Every stage of the compiler reports a `CompileError`; type-checker errors
//! are turned into diagnostics with a message, a primary span, secondary
//! spans, help text and related information.
use vstd::prelude::*;

use crate::ast::printer::{dty_text, PrintState};
use crate::ast::{Ownership, Span, TyKind};
use crate::text::{decimal, push_decimal, string_of};
use crate::ty_check::error::{BorrowingError, CtxError, SubTyError, TyError, UnifyContext, UnifyError};
use crate::ast::NatEvalError;

verus! {

/// A byte range in the source: where it starts and how long it is.
#[derive(Debug, Clone, Copy, PartialEq, Eq)]
pub struct SourceSpan {
    pub offset: usize,
    pub length: usize,
}

/// The source range of a span; a span that ends before it begins is empty.
pub open spec fn source_span_of(s: Span) -> SourceSpan {
    SourceSpan { offset: s.begin, length: if s.end >= s.begin { (s.end - s.begin) as usize } else { 0 } }
}

pub open spec fn opt_source_span(s: Option<Span>) -> Option<SourceSpan> {
    match s {
        Some(sp) => Some(source_span_of(sp)),
        None => None,
    }
}

impl SourceSpan {
    pub fn from_span(s: Span) -> (r: SourceSpan)
        ensures
            r == source_span_of(s),
    {
        SourceSpan { offset: s.begin, length: if s.end >= s.begin { s.end - s.begin } else { 0 } }
    }
}

fn opt_span(s: Option<Span>) -> (r: Option<SourceSpan>)
    ensures
        r == opt_source_span(s),
{
    match s {
        Some(sp) => Some(SourceSpan::from_span(sp)),
        None => None,
    }
}

/// The kinds of input/output failure that diagnostics distinguish.
#[derive(Debug, Clone, Copy, PartialEq, Eq)]
pub enum IoErrorKind {
    NotFound,
    PermissionDenied,
    ConnectionRefused,
    ConnectionReset,
    ConnectionAborted,
    NotConnected,
    AddrInUse,
    AddrNotAvailable,
    BrokenPipe,
    AlreadyExists,
    WouldBlock,
    InvalidInput,
    InvalidData,
    TimedOut,
    WriteZero,
    Interrupted,
    Unsupported,
    UnexpectedEof,
    OutOfMemory,
    Other,
}

/// The human-readable message for an I/O failure kind.
pub open spec fn error_kind_message(kind: IoErrorKind) -> Seq<char> {
    match kind {
        IoErrorKind::NotFound => "entity not found"@,
        IoErrorKind::PermissionDenied => "permission denied"@,
        IoErrorKind::InvalidInput => "invalid input"@,
        IoErrorKind::UnexpectedEof => "unexpected end of file"@,
        _ => "unknown error"@,
    }
}

/// Converts an I/O failure kind to a human-readable message.
pub fn error_kind_to_message(kind: IoErrorKind) -> (s: String)
    ensures
        s@ == error_kind_message(kind),
{
    match kind {
        IoErrorKind::NotFound => string_of("entity not found"),
        IoErrorKind::PermissionDenied => string_of("permission denied"),
        IoErrorKind::InvalidInput => string_of("invalid input"),
        IoErrorKind::UnexpectedEof => string_of("unexpected end of file"),
        _ => string_of("unknown error"),
    }
}

/// A file could not be read.
pub struct FileIOError<'a> {
    pub file_path: &'a str,
    pub io_error_kind: IoErrorKind,
    /// The description of the underlying I/O failure.
    pub io_error_message: String,
}

impl<'a> FileIOError<'a> {
    pub fn new(
        file_path: &'a str,
        io_error_kind: IoErrorKind,
        io_error_message: String,
    ) -> (e: FileIOError<'a>)
        ensures
            e.file_path == file_path,
            e.io_error_kind == io_error_kind,
            e.io_error_message == io_error_message,
    {
        FileIOError { file_path, io_error_kind, io_error_message }
    }

    /// The diagnostic for this failure.
    pub fn to_compile_error(self) -> (e: CompileError)
        ensures
            e@ == (CompileErrorView::FileIO {
                file_path: self.file_path@,
                io_error_kind: self.io_error_kind,
                error_message: error_kind_message(self.io_error_kind),
                span: None,
            }),
    {
        CompileError::FileIO(
            FileIOErrorData {
                file_path: self.file_path.to_string(),
                io_error_kind: self.io_error_kind,
                error_message: error_kind_to_message(self.io_error_kind),
                span: None,
            },
        )
    }
}

/// Data of a file-reading diagnostic.
#[derive(Debug, Clone)]
pub struct FileIOErrorData {
    pub file_path: String,
    pub io_error_kind: IoErrorKind,
    pub error_message: String,
    pub span: Option<SourceSpan>,
}

/// Data of a parse diagnostic.
#[derive(Debug, Clone)]
pub struct ParseErrorData {
    pub message: String,
    pub span: Option<SourceSpan>,
}

/// Data of a type-checking diagnostic.
#[derive(Debug, Clone)]
pub struct TypeCheckErrorData {
    pub message: String,
    pub span: Option<SourceSpan>,
    /// Further labelled locations, e.g. the other side of a conflicting borrow.
    pub secondary_spans: Vec<(SourceSpan, String)>,
    pub help_text: Option<String>,
    pub related: Option<String>,
}

/// Data of a code-generation diagnostic.
#[derive(Debug, Clone)]
pub struct CodegenErrorData {
    pub message: String,
    pub span: Option<SourceSpan>,
}

/// The mark that an error has been reported to the user.
pub struct ErrorReported;

impl ErrorReported {
    /// The text shown for the mark.
    pub fn message(&self) -> (s: String)
        ensures
            s@ == "Aborting due to previous error."@,
    {
        string_of("Aborting due to previous error.")
    }
}

/// The errors of the compiler's stages.
#[derive(Debug, Clone)]
pub enum CompileError {
    FileIO(FileIOErrorData),
    Parse(ParseErrorData),
    TypeCheck(TypeCheckErrorData),
    Codegen(CodegenErrorData),
}

/// The contents of a type-checking diagnostic, with texts as character sequences.
pub struct TypeCheckView {
    pub message: Seq<char>,
    pub span: Option<SourceSpan>,
    pub secondary_spans: Seq<(SourceSpan, Seq<char>)>,
    pub help_text: Option<Seq<char>>,
    pub related: Option<Seq<char>>,
}

/// The contents of a compile error, with texts as character sequences.
pub enum CompileErrorView {
    FileIO {
        file_path: Seq<char>,
        io_error_kind: IoErrorKind,
        error_message: Seq<char>,
        span: Option<SourceSpan>,
    },
    Parse { message: Seq<char>, span: Option<SourceSpan> },
    TypeCheck(TypeCheckView),
    Codegen { message: Seq<char>, span: Option<SourceSpan> },
}

pub open spec fn opt_text(o: Option<String>) -> Option<Seq<char>> {
    match o {
        Some(s) => Some(s@),
        None => None,
    }
}

pub open spec fn labelled_spans_view(v: Seq<(SourceSpan, String)>) -> Seq<(SourceSpan, Seq<char>)> {
    v.map_values(|p: (SourceSpan, String)| (p.0, p.1@))
}

impl TypeCheckErrorData {
    pub open spec fn view_of(self) -> TypeCheckView {
        TypeCheckView {
            message: self.message@,
            span: self.span,
            secondary_spans: labelled_spans_view(self.secondary_spans@),
            help_text: opt_text(self.help_text),
            related: opt_text(self.related),
        }
    }
}

impl View for CompileError {
    type V = CompileErrorView;

    open spec fn view(&self) -> CompileErrorView {
        match self {
            CompileError::FileIO(d) => CompileErrorView::FileIO {
                file_path: d.file_path@,
                io_error_kind: d.io_error_kind,
                error_message: d.error_message@,
                span: d.span,
            },
            CompileError::Parse(d) => CompileErrorView::Parse { message: d.message@, span: d.span },
            CompileError::TypeCheck(d) => CompileErrorView::TypeCheck(d.view_of()),
            CompileError::Codegen(d) => CompileErrorView::Codegen { message: d.message@, span: d.span },
        }
    }
}

impl From<FileIOErrorData> for CompileError {
    fn from(d: FileIOErrorData) -> (e: CompileError) {
        CompileError::FileIO(d)
    }
}

impl vstd::std_specs::convert::FromSpecImpl<FileIOErrorData> for CompileError {
    open spec fn obeys_from_spec() -> bool {
        true
    }

    open spec fn from_spec(v: FileIOErrorData) -> CompileError {
        CompileError::FileIO(v)
    }
}

impl From<ParseErrorData> for CompileError {
    fn from(d: ParseErrorData) -> (e: CompileError) {
        CompileError::Parse(d)
    }
}

impl vstd::std_specs::convert::FromSpecImpl<ParseErrorData> for CompileError {
    open spec fn obeys_from_spec() -> bool {
        true
    }

    open spec fn from_spec(v: ParseErrorData) -> CompileError {
        CompileError::Parse(v)
    }
}

impl From<TypeCheckErrorData> for CompileError {
    fn from(d: TypeCheckErrorData) -> (e: CompileError) {
        CompileError::TypeCheck(d)
    }
}

impl vstd::std_specs::convert::FromSpecImpl<TypeCheckErrorData> for CompileError {
    open spec fn obeys_from_spec() -> bool {
        true
    }

    open spec fn from_spec(v: TypeCheckErrorData) -> CompileError {
        CompileError::TypeCheck(v)
    }
}

impl From<CodegenErrorData> for CompileError {
    fn from(d: CodegenErrorData) -> (e: CompileError) {
        CompileError::Codegen(d)
    }
}

impl vstd::std_specs::convert::FromSpecImpl<CodegenErrorData> for CompileError {
    open spec fn obeys_from_spec() -> bool {
        true
    }

    open spec fn from_spec(v: CodegenErrorData) -> CompileError {
        CompileError::Codegen(v)
    }
}

// ---------------------------------------------------------------------------
// Debug renderings that diagnostics quote.

/// The text `{:?}` renders for an ownership.
pub open spec fn ownership_debug(o: Ownership) -> Seq<char> {
    match o {
        Ownership::Shrd => "Shrd"@,
        Ownership::Uniq => "Uniq"@,
    }
}

/// What `{:?}` renders for a borrowing error.
pub uninterp spec fn borrowing_error_debug(e: BorrowingError) -> Seq<char>;

/// What `{:?}` renders for a type kind.
pub uninterp spec fn ty_kind_debug(t: TyKind) -> Seq<char>;

/// What `{:?}` renders for a natural-number evaluation error.
pub uninterp spec fn nat_eval_error_debug(e: NatEvalError) -> Seq<char>;

/// What `{:?}` renders for a subtyping error.
pub uninterp spec fn sub_ty_error_debug(e: SubTyError) -> Seq<char>;

/// What `{:?}` renders for a type error.
pub uninterp spec fn ty_error_debug(e: TyError) -> Seq<char>;

/// Calls `std::format!` with `{:?}` on a borrowing error; the contract names
/// the resulting text `borrowing_error_debug(e)`, and says nothing more of it.
#[verifier::external_body]
fn debug_borrowing_error(e: &BorrowingError) -> (s: String)
    ensures
        s@ == borrowing_error_debug(*e),
{
    format!("{:?}", e)
}

/// Calls `std::format!` with `{:?}` on a type kind; the contract names the
/// resulting text `ty_kind_debug(t)`, and says nothing more of it.
#[verifier::external_body]
fn debug_ty_kind(t: &TyKind) -> (s: String)
    ensures
        s@ == ty_kind_debug(*t),
{
    format!("{:?}", t)
}

/// Calls `std::format!` with `{:?}` on a natural-number evaluation error; the
/// contract names the resulting text `nat_eval_error_debug(e)`, and says
/// nothing more of it.
#[verifier::external_body]
fn debug_nat_eval_error(e: &NatEvalError) -> (s: String)
    ensures
        s@ == nat_eval_error_debug(*e),
{
    format!("{:?}", e)
}

/// Calls `std::format!` with `{:?}` on a subtyping error; the contract names
/// the resulting text `sub_ty_error_debug(e)`, and says nothing more of it.
#[verifier::external_body]
fn debug_sub_ty_error(e: &SubTyError) -> (s: String)
    ensures
        s@ == sub_ty_error_debug(*e),
{
    format!("{:?}", e)
}

/// Calls `std::format!` with `{:?}` on a type error; the contract names the
/// resulting text `ty_error_debug(e)`, and says nothing more of it.
#[verifier::external_body]
fn debug_ty_error(e: &TyError) -> (s: String)
    ensures
        s@ == ty_error_debug(*e),
{
    format!("{:?}", e)
}

// ---------------------------------------------------------------------------
// Type-checker errors as diagnostics.

pub open spec fn tc_view(
    message: Seq<char>,
    span: Option<SourceSpan>,
    help: Seq<char>,
) -> CompileErrorView {
    CompileErrorView::TypeCheck(
        TypeCheckView {
            message,
            span,
            secondary_spans: Seq::empty(),
            help_text: Some(help),
            related: None,
        },
    )
}

/// The text of the data type inside a type, or nothing for function types.
pub open spec fn ty_data_text(t: crate::ast::Ty) -> Seq<char> {
    match t.ty {
        TyKind::Data(d) => dty_text(*d),
        TyKind::FnTy(_) => Seq::empty(),
    }
}

/// How a unification context is described in diagnostics.
pub open spec fn unify_context_text(c: UnifyContext) -> Seq<char> {
    match c {
        UnifyContext::FunctionParameter(idx) => "function parameter "@ + decimal((idx + 1) as nat),
        UnifyContext::FunctionReturn => "function return type"@,
        UnifyContext::VariableAssignment(i) => "assignment to variable '"@ + i.name@ + "'"@,
        UnifyContext::ArrayElement => "array element type"@,
        UnifyContext::TupleElement(idx) => "tuple element "@ + decimal((idx + 1) as nat),
        UnifyContext::StructField(i) => "struct field '"@ + i.name@ + "'"@,
        UnifyContext::PatternMatch => "pattern matching"@,
        UnifyContext::GenericParameter(i) => "generic parameter '"@ + i.name@ + "'"@,
        UnifyContext::Expression(_) => "expression"@,
        UnifyContext::Other(d) => d@,
    }
}

pub open spec fn unify_error_view(u: UnifyError) -> CompileErrorView {
    match u {
        UnifyError::CannotUnify { left_type, right_type, context, span } => tc_view(
            "Expected `"@ + ty_data_text(right_type) + "` but found `"@ + ty_data_text(left_type)
                + "` in "@ + unify_context_text(context),
            opt_source_span(span),
            "The types cannot be unified in this context. Check your type annotations."@,
        ),
        UnifyError::InfiniteType => tc_view(
            "Infinite type detected during unification"@,
            None,
            "A type variable is being unified with a term that contains itself, creating an infinite type."@,
        ),
        UnifyError::SubTyError(sub) => CompileErrorView::TypeCheck(
            TypeCheckView {
                message: "Subtyping error"@,
                span: None,
                secondary_spans: Seq::empty(),
                help_text: Some("The types do not satisfy the subtyping relationship."@),
                related: Some("Subtyping error: "@ + sub_ty_error_debug(sub)),
            },
        ),
    }
}

/// The secondary spans of an undefined outlives relation.
pub open spec fn outlives_spans(
    longer: crate::ast::Ident,
    shorter: crate::ast::Ident,
) -> Seq<(SourceSpan, Seq<char>)> {
    let first: Seq<(SourceSpan, Seq<char>)> = match longer.span {
        Some(s) => seq![(source_span_of(s), "longer lifetime"@)],
        None => Seq::empty(),
    };
    let second: Seq<(SourceSpan, Seq<char>)> = match shorter.span {
        Some(s) => seq![(source_span_of(s), "shorter lifetime"@)],
        None => Seq::empty(),
    };
    first + second
}

pub open spec fn ctx_error_view(c: CtxError) -> CompileErrorView {
    match c {
        CtxError::IdentNotFound(i) => tc_view(
            "Identifier '"@ + i.name@ + "' not found in context"@,
            opt_source_span(i.span),
            "Check that the identifier is declared before use, or consider if there's a typo in the name."@,
        ),
        CtxError::KindedIdentNotFound(i) => tc_view(
            "Identifier '"@ + i.name@ + "' not found in kinding context"@,
            opt_source_span(i.span),
            "This identifier needs to be declared with a kind (type, natural number, memory, or provenance) before use."@,
        ),
        CtxError::PrvValueNotFound(p) => tc_view(
            "Provenance value '"@ + p@ + "' not found in typing context"@,
            None,
            "Ensure the provenance is properly declared and available in the current scope."@,
        ),
        CtxError::PrvIdentNotFound(i) => tc_view(
            "Provenance identifier '"@ + i.name@ + "' is not declared"@,
            opt_source_span(i.span),
            "Declare this provenance identifier before use, or check for typos in the name."@,
        ),
        CtxError::OutlRelNotDefined(longer, shorter) => CompileErrorView::TypeCheck(
            TypeCheckView {
                message: "Outlives relation not defined"@,
                span: None,
                secondary_spans: outlives_spans(longer, shorter),
                help_text: Some(
                    "Define the outlives relation: "@ + longer.name@ + " outlives "@ + shorter.name@,
                ),
                related: None,
            },
        ),
        CtxError::IllegalProjection => tc_view(
            "Illegal projection operation"@,
            None,
            "This projection operation is not allowed in the current context. Check the type structure and projection rules."@,
        ),
    }
}

/// The diagnostic for a type-checker error.  Of several errors the first is
/// reported.
pub open spec fn ty_error_view(e: TyError) -> CompileErrorView
    decreases e,
{
    match e {
        TyError::MultiError(errors) => if errors.len() > 0 {
            ty_error_view(errors[0])
        } else {
            tc_view(
                "Multiple type checking errors occurred"@,
                None,
                "Fix each error individually"@,
            )
        },
        TyError::MutabilityNotAllowed(ty) => tc_view(
            "Mutability not allowed"@,
            opt_source_span(ty.span),
            "This type does not allow mutability. Consider using a mutable type or removing the mutability requirement."@,
        ),
        TyError::MismatchedDataTypes(expected, actual, expr) => tc_view(
            "Expected `"@ + dty_text(expected) + "` but found `"@ + dty_text(actual) + "`"@,
            opt_source_span(expr.span),
            "The types do not match. Check that you're using the correct types for this operation."@,
        ),
        TyError::ConflictingBorrow(place_expr, ownership, conflict) => CompileErrorView::TypeCheck(
            TypeCheckView {
                message: "Conflicting borrow detected"@,
                span: opt_source_span(place_expr.span),
                secondary_spans: match place_expr.span {
                    Some(s) => seq![(source_span_of(s), "conflicting borrow"@)],
                    None => Seq::empty(),
                },
                help_text: Some(
                    "This borrow conflicts with an existing borrow. Consider restructuring your code to avoid simultaneous borrows."@
                        + " Ownership: "@ + ownership_debug(ownership) + "."@,
                ),
                related: Some("Conflict details: "@ + borrowing_error_debug(conflict)),
            },
        ),
        TyError::ReferenceToDeadTy(place_expr) => tc_view(
            "Reference points to moved value"@,
            opt_source_span(place_expr.span),
            "The value this reference points to has been moved. Consider restructuring your code to avoid moving values that are still referenced."@,
        ),
        TyError::IllegalExec(exec_expr) => tc_view(
            "Illegal execution context"@,
            opt_source_span(exec_expr.span),
            "The execution context is not valid for this operation. Check that you're using the correct execution resource (CPU thread, NPU block, etc.)."@,
        ),
        TyError::AssignToConst(place_expr) => tc_view(
            "Cannot assign to constant"@,
            opt_source_span(place_expr.span),
            "Make the variable mutable by declaring it with 'mut' to allow assignment."@,
        ),
        TyError::ConstBorrow(place_expr) => tc_view(
            "Cannot borrow as unique"@,
            opt_source_span(place_expr.span),
            "Make the variable mutable by declaring it with 'mut' to allow unique borrowing."@,
        ),
        TyError::ExpectedTupleType(ty_kind, place_expr) => tc_view(
            "Expected tuple type but found `"@ + ty_kind_debug(ty_kind) + "`"@,
            opt_source_span(place_expr.span),
            "This operation expects a tuple type. Check that you're using the correct type."@,
        ),
        TyError::UnifyError(u) => unify_error_view(u),
        TyError::CtxError(c) => ctx_error_view(c),
        TyError::MissingMain => tc_view(
            "Missing main function"@,
            None,
            "A main function is required as the entry point of your program."@,
        ),
        TyError::NatEvalError(nat_err, span) => CompileErrorView::TypeCheck(
            TypeCheckView {
                message: "Natural number evaluation error"@,
                span: opt_source_span(span),
                secondary_spans: Seq::empty(),
                help_text: Some("There was an error evaluating a natural number expression."@),
                related: Some("Natural number error: "@ + nat_eval_error_debug(nat_err)),
            },
        ),
        TyError::CannotInferGenericArg(ident) => tc_view(
            "Cannot infer generic argument for '"@ + ident.name@ + "'"@,
            opt_source_span(ident.span),
            "Provide explicit type annotations for generic arguments or ensure the context provides enough information for inference."@,
        ),
        TyError::UnsafeRequired(expr) => tc_view(
            "Unsafe operation required"@,
            opt_source_span(expr.span),
            "This operation requires unsafe code. Wrap it in an 'unsafe' block if you're certain it's safe."@,
        ),
        TyError::String(msg) => CompileErrorView::TypeCheck(
            TypeCheckView {
                message: msg@,
                span: None,
                secondary_spans: Seq::empty(),
                help_text: None,
                related: None,
            },
        ),
        _ => tc_view(
            "Type check error: "@ + ty_error_debug(e),
            None,
            "Check your type annotations and variable usage."@,
        ),
    }
}

fn type_check(message: String, span: Option<SourceSpan>, help: &str) -> (e: CompileError)
    ensures
        e@ == tc_view(message@, span, help@),
{
    let r = CompileError::TypeCheck(
        TypeCheckErrorData {
            message,
            span,
            secondary_spans: Vec::new(),
            help_text: Some(string_of(help)),
            related: None,
        },
    );
    proof {
        assert(labelled_spans_view(Seq::<(SourceSpan, String)>::empty()) =~= Seq::empty());
    }
    r
}

fn dty_string(d: &crate::ast::DataTy) -> (s: String)
    ensures
        s@ == dty_text(*d),
{
    let mut p = PrintState::new();
    p.print_dty(d);
    p.get()
}

fn ty_data_string(t: &crate::ast::Ty) -> (s: String)
    ensures
        s@ == ty_data_text(*t),
{
    let mut p = PrintState::new();
    if let TyKind::Data(d) = &t.ty {
        p.print_dty(d);
    }
    p.get()
}

fn unify_context_string(c: UnifyContext) -> (s: String)
    ensures
        s@ == unify_context_text(c),
{
    match c {
        UnifyContext::FunctionParameter(idx) => {
            let mut s = string_of("function parameter ");
            push_decimal(&mut s, idx as u128 + 1);
            s
        },
        UnifyContext::FunctionReturn => string_of("function return type"),
        UnifyContext::VariableAssignment(ident) => {
            let mut s = string_of("assignment to variable '");
            s.append(ident.name.as_str());
            s.append("'");
            s
        },
        UnifyContext::ArrayElement => string_of("array element type"),
        UnifyContext::TupleElement(idx) => {
            let mut s = string_of("tuple element ");
            push_decimal(&mut s, idx as u128 + 1);
            s
        },
        UnifyContext::StructField(ident) => {
            let mut s = string_of("struct field '");
            s.append(ident.name.as_str());
            s.append("'");
            s
        },
        UnifyContext::PatternMatch => string_of("pattern matching"),
        UnifyContext::GenericParameter(ident) => {
            let mut s = string_of("generic parameter '");
            s.append(ident.name.as_str());
            s.append("'");
            s
        },
        UnifyContext::Expression(_) => string_of("expression"),
        UnifyContext::Other(desc) => desc,
    }
}

fn unify_error_to_compile_error(u: UnifyError) -> (e: CompileError)
    ensures
        e@ == unify_error_view(u),
{
    match u {
        UnifyError::CannotUnify { left_type, right_type, context, span } => {
            let left = ty_data_string(&left_type);
            let right = ty_data_string(&right_type);
            let ctx_text = unify_context_string(context);
            let mut message = string_of("Expected `");
            message.append(right.as_str());
            message.append("` but found `");
            message.append(left.as_str());
            message.append("` in ");
            message.append(ctx_text.as_str());
            type_check(
                message,
                opt_span(span),
                "The types cannot be unified in this context. Check your type annotations.",
            )
        },
        UnifyError::InfiniteType => type_check(
            string_of("Infinite type detected during unification"),
            None,
            "A type variable is being unified with a term that contains itself, creating an infinite type.",
        ),
        UnifyError::SubTyError(sub_err) => {
            let mut related = string_of("Subtyping error: ");
            let d = debug_sub_ty_error(&sub_err);
            related.append(d.as_str());
            let r = CompileError::TypeCheck(
                TypeCheckErrorData {
                    message: string_of("Subtyping error"),
                    span: None,
                    secondary_spans: Vec::new(),
                    help_text: Some(string_of("The types do not satisfy the subtyping relationship.")),
                    related: Some(related),
                },
            );
            proof {
                assert(labelled_spans_view(Seq::<(SourceSpan, String)>::empty()) =~= Seq::empty());
            }
            r
        },
    }
}

fn ctx_error_to_compile_error(c: CtxError) -> (e: CompileError)
    ensures
        e@ == ctx_error_view(c),
{
    match c {
        CtxError::IdentNotFound(ident) => {
            let mut m = string_of("Identifier '");
            m.append(ident.name.as_str());
            m.append("' not found in context");
            type_check(
                m,
                opt_span(ident.span),
                "Check that the identifier is declared before use, or consider if there's a typo in the name.",
            )
        },
        CtxError::KindedIdentNotFound(ident) => {
            let mut m = string_of("Identifier '");
            m.append(ident.name.as_str());
            m.append("' not found in kinding context");
            type_check(
                m,
                opt_span(ident.span),
                "This identifier needs to be declared with a kind (type, natural number, memory, or provenance) before use.",
            )
        },
        CtxError::PrvValueNotFound(prv_name) => {
            let mut m = string_of("Provenance value '");
            m.append(prv_name.as_str());
            m.append("' not found in typing context");
            type_check(
                m,
                None,
                "Ensure the provenance is properly declared and available in the current scope.",
            )
        },
        CtxError::PrvIdentNotFound(ident) => {
            let mut m = string_of("Provenance identifier '");
            m.append(ident.name.as_str());
            m.append("' is not declared");
            type_check(
                m,
                opt_span(ident.span),
                "Declare this provenance identifier before use, or check for typos in the name.",
            )
        },
        CtxError::OutlRelNotDefined(longer, shorter) => {
            let mut secondary_spans: Vec<(SourceSpan, String)> = Vec::new();
            if let Some(span) = longer.span {
                secondary_spans.push((SourceSpan::from_span(span), string_of("longer lifetime")));
            }
            let ghost after_first = secondary_spans@;
            if let Some(span) = shorter.span {
                secondary_spans.push((SourceSpan::from_span(span), string_of("shorter lifetime")));
            }
            let mut help = string_of("Define the outlives relation: ");
            help.append(longer.name.as_str());
            help.append(" outlives ");
            help.append(shorter.name.as_str());
            let r = CompileError::TypeCheck(
                TypeCheckErrorData {
                    message: string_of("Outlives relation not defined"),
                    span: None,
                    secondary_spans,
                    help_text: Some(help),
                    related: None,
                },
            );
            proof {
                assert(labelled_spans_view(secondary_spans@) =~= outlives_spans(longer, shorter));
            }
            r
        },
        CtxError::IllegalProjection => type_check(
            string_of("Illegal projection operation"),
            None,
            "This projection operation is not allowed in the current context. Check the type structure and projection rules.",
        ),
    }
}

impl From<TyError> for CompileError {
    /// The diagnostic for a type-checker error, as `from_ty_error` gives it.
    fn from(error: TyError) -> (e: CompileError)
        ensures
            e@ == ty_error_view(error),
    {
        CompileError::from_ty_error(error)
    }
}

/// The diagnostic of a type-checker error is fixed by its view: the
/// `ensures` of `from` states it; no value of `CompileError` is named here.
impl vstd::std_specs::convert::FromSpecImpl<TyError> for CompileError {
    open spec fn obeys_from_spec() -> bool {
        false
    }

    open spec fn from_spec(v: TyError) -> CompileError {
        choose|e: CompileError| e@ == ty_error_view(v)
    }
}

impl CompileError {
    /// The diagnostic for a type-checker error; of several errors the first
    /// one is reported.
    pub fn from_ty_error(error: TyError) -> (e: CompileError)
        ensures
            e@ == ty_error_view(error),
        decreases error,
    {
        let ghost whole_error = error;
        match error {
            TyError::MultiError(errors) => {
                let mut errors = errors;
                if errors.len() > 0 {
                    let first = errors.remove(0);
                    proof {
                        vstd::std_specs::vec::axiom_vec_index_decreases(whole_error->MultiError_0, 0);
                        assert(decreases_to!(whole_error => whole_error->MultiError_0));
                    }
                    CompileError::from_ty_error(first)
                } else {
                    type_check(
                        string_of("Multiple type checking errors occurred"),
                        None,
                        "Fix each error individually",
                    )
                }
            },
            TyError::MutabilityNotAllowed(ty) => type_check(
                string_of("Mutability not allowed"),
                opt_span(ty.span),
                "This type does not allow mutability. Consider using a mutable type or removing the mutability requirement.",
            ),
            TyError::MismatchedDataTypes(expected, actual, expr) => {
                let e = dty_string(&expected);
                let a = dty_string(&actual);
                let mut m = string_of("Expected `");
                m.append(e.as_str());
                m.append("` but found `");
                m.append(a.as_str());
                m.append("`");
                type_check(
                    m,
                    opt_span(expr.span),
                    "The types do not match. Check that you're using the correct types for this operation.",
                )
            },
            TyError::ConflictingBorrow(place_expr, ownership, conflict) => {
                let mut secondary_spans: Vec<(SourceSpan, String)> = Vec::new();
                if let Some(place_span) = place_expr.span {
                    secondary_spans.push(
                        (SourceSpan::from_span(place_span), string_of("conflicting borrow")),
                    );
                }
                let mut help_text = string_of(
                    "This borrow conflicts with an existing borrow. Consider restructuring your code to avoid simultaneous borrows.",
                );
                help_text.append(" Ownership: ");
                match ownership {
                    Ownership::Shrd => help_text.append("Shrd"),
                    Ownership::Uniq => help_text.append("Uniq"),
                }
                help_text.append(".");
                let mut related = string_of("Conflict details: ");
                let d = debug_borrowing_error(&conflict);
                related.append(d.as_str());
                let r = CompileError::TypeCheck(
                    TypeCheckErrorData {
                        message: string_of("Conflicting borrow detected"),
                        span: opt_span(place_expr.span),
                        secondary_spans,
                        help_text: Some(help_text),
                        related: Some(related),
                    },
                );
                proof {
                    assert(labelled_spans_view(secondary_spans@) =~= match place_expr.span {
                        Some(s) => seq![(source_span_of(s), "conflicting borrow"@)],
                        None => Seq::empty(),
                    });
                }
                r
            },
            TyError::ReferenceToDeadTy(place_expr) => type_check(
                string_of("Reference points to moved value"),
                opt_span(place_expr.span),
                "The value this reference points to has been moved. Consider restructuring your code to avoid moving values that are still referenced.",
            ),
            TyError::IllegalExec(exec_expr) => type_check(
                string_of("Illegal execution context"),
                opt_span(exec_expr.span),
                "The execution context is not valid for this operation. Check that you're using the correct execution resource (CPU thread, NPU block, etc.).",
            ),
            TyError::AssignToConst(place_expr) => type_check(
                string_of("Cannot assign to constant"),
                opt_span(place_expr.span),
                "Make the variable mutable by declaring it with 'mut' to allow assignment.",
            ),
            TyError::ConstBorrow(place_expr) => type_check(
                string_of("Cannot borrow as unique"),
                opt_span(place_expr.span),
                "Make the variable mutable by declaring it with 'mut' to allow unique borrowing.",
            ),
            TyError::ExpectedTupleType(ty_kind, place_expr) => {
                let d = debug_ty_kind(&ty_kind);
                let mut m = string_of("Expected tuple type but found `");
                m.append(d.as_str());
                m.append("`");
                type_check(
                    m,
                    opt_span(place_expr.span),
                    "This operation expects a tuple type. Check that you're using the correct type.",
                )
            },
            TyError::UnifyError(unify_err) => unify_error_to_compile_error(unify_err),
            TyError::CtxError(ctx_err) => ctx_error_to_compile_error(ctx_err),
            TyError::MissingMain => type_check(
                string_of("Missing main function"),
                None,
                "A main function is required as the entry point of your program.",
            ),
            TyError::NatEvalError(nat_err, span) => {
                let mut related = string_of("Natural number error: ");
                let d = debug_nat_eval_error(&nat_err);
                related.append(d.as_str());
                let r = CompileError::TypeCheck(
                    TypeCheckErrorData {
                        message: string_of("Natural number evaluation error"),
                        span: opt_span(span),
                        secondary_spans: Vec::new(),
                        help_text: Some(
                            string_of("There was an error evaluating a natural number expression."),
                        ),
                        related: Some(related),
                    },
                );
                proof {
                    assert(labelled_spans_view(Seq::<(SourceSpan, String)>::empty()) =~= Seq::empty());
                }
                r
            },
            TyError::CannotInferGenericArg(ident) => {
                let mut m = string_of("Cannot infer generic argument for '");
                m.append(ident.name.as_str());
                m.append("'");
                type_check(
                    m,
                    opt_span(ident.span),
                    "Provide explicit type annotations for generic arguments or ensure the context provides enough information for inference.",
                )
            },
            TyError::UnsafeRequired(expr) => type_check(
                string_of("Unsafe operation required"),
                opt_span(expr.span),
                "This operation requires unsafe code. Wrap it in an 'unsafe' block if you're certain it's safe.",
            ),
            TyError::String(msg) => {
                let r = CompileError::TypeCheck(
                    TypeCheckErrorData {
                        message: msg,
                        span: None,
                        secondary_spans: Vec::new(),
                        help_text: None,
                        related: None,
                    },
                );
                proof {
                    assert(labelled_spans_view(Seq::<(SourceSpan, String)>::empty()) =~= Seq::empty());
                }
                r
            },
            other => {
                let d = debug_ty_error(&other);
                let mut m = string_of("Type check error: ");
                m.append(d.as_str());
                type_check(m, None, "Check your type annotations and variable usage.")
            },
        }
    }

    /// The diagnostic for an I/O failure whose file is not known.
    pub fn from_io_error_kind(kind: IoErrorKind) -> (e: CompileError)
        ensures
            e@ == (CompileErrorView::FileIO {
                file_path: "unknown file"@,
                io_error_kind: kind,
                error_message: error_kind_message(kind),
                span: None,
            }),
    {
        CompileError::FileIO(
            FileIOErrorData {
                file_path: string_of("unknown file"),
                io_error_kind: kind,
                error_message: error_kind_to_message(kind),
                span: None,
            },
        )
    }
}

} // verus!
