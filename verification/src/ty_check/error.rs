//! Errors of the type checker.
//!
//! Errors are plain data: they record what went wrong and where, and are
//! turned into user-facing diagnostics by `crate::error`.
use vstd::prelude::*;

use crate::ast::internal::Place;
use crate::ast::{
    BaseExec, DataTy, DataTyKind, ExecExpr, Expr, Ident, Nat, NatEvalError, Ownership, Pattern,
    PlaceExpr, ScalarTy, Span, Ty, TyKind,
};

verus! {

/// Errors that the type checker reports.
#[derive(Debug)]
pub enum TyError {
    MultiError(Vec<TyError>),
    MutabilityNotAllowed(Ty),
    CtxError(CtxError),
    SubTyError(SubTyError),
    /// Expected type, actual type, and the expression at which they differ.
    MismatchedDataTypes(DataTy, DataTy, Expr),
    /// The place, the ownership it was used with, and the conflict.
    ConflictingBorrow(Box<PlaceExpr>, Ownership, BorrowingError),
    PrvValueAlreadyInUse(String),
    ReferenceToIncompatibleType(PlaceExpr),
    ReferenceToWrongOwnership(PlaceExpr),
    ReferenceToDeadTy(PlaceExpr),
    AssignToConst(PlaceExpr),
    AssignToView(PlaceExpr),
    SplittingNonViewArray(PlaceExpr),
    ExpectedTupleType(TyKind, PlaceExpr),
    ConstBorrow(PlaceExpr),
    BorrowingDeadView(PlaceExpr),
    IllegalExec(ExecExpr),
    DeadTy(Ty),
    MissingParallelCollectionIdent(Expr),
    CouldNotInferProvenance(Expr),
    PatternAndTypeDoNotMatch(Pattern, Ty),
    UnexpectedType(Ty),
    IllegalDimension(Nat),
    UnifyError(UnifyError),
    MissingMain,
    NatEvalError(NatEvalError, Option<Span>),
    CannotInferGenericArg(Ident),
    UnsafeRequired(Expr),
    String(String),
}

impl TyError {
    /// Collects several errors into one.
    pub fn from_errors(errors: Vec<TyError>) -> (e: TyError)
        ensures
            e == TyError::MultiError(errors),
    {
        TyError::MultiError(errors)
    }
}

impl From<CtxError> for TyError {
    fn from(err: CtxError) -> (e: TyError) {
        TyError::CtxError(err)
    }
}

impl vstd::std_specs::convert::FromSpecImpl<CtxError> for TyError {
    open spec fn obeys_from_spec() -> bool {
        true
    }

    open spec fn from_spec(v: CtxError) -> TyError {
        TyError::CtxError(v)
    }
}

impl From<SubTyError> for TyError {
    fn from(err: SubTyError) -> (e: TyError) {
        TyError::SubTyError(err)
    }
}

impl vstd::std_specs::convert::FromSpecImpl<SubTyError> for TyError {
    open spec fn obeys_from_spec() -> bool {
        true
    }

    open spec fn from_spec(v: SubTyError) -> TyError {
        TyError::SubTyError(v)
    }
}

impl From<UnifyError> for TyError {
    fn from(err: UnifyError) -> (e: TyError) {
        TyError::UnifyError(err)
    }
}

impl vstd::std_specs::convert::FromSpecImpl<UnifyError> for TyError {
    open spec fn obeys_from_spec() -> bool {
        true
    }

    open spec fn from_spec(v: UnifyError) -> TyError {
        TyError::UnifyError(v)
    }
}

impl From<NatEvalError> for TyError {
    fn from(err: NatEvalError) -> (e: TyError) {
        TyError::NatEvalError(err, None)
    }
}

impl vstd::std_specs::convert::FromSpecImpl<NatEvalError> for TyError {
    open spec fn obeys_from_spec() -> bool {
        true
    }

    open spec fn from_spec(v: NatEvalError) -> TyError {
        TyError::NatEvalError(v, None)
    }
}

/// Errors of the subtyping check.
#[derive(Debug)]
pub enum SubTyError {
    CtxError(CtxError),
    /// The first lifetime does not outlive the second.
    NotOutliving(String, String),
    PrvNotUsedInBorrow(String),
    MemoryKindsNoMatch,
    OwnershipNoMatch,
    Dummy,
}

/// Where a type unification failed.
#[derive(Debug)]
pub enum UnifyContext {
    FunctionParameter(usize),
    FunctionReturn,
    VariableAssignment(Ident),
    ArrayElement,
    TupleElement(usize),
    StructField(Ident),
    PatternMatch,
    GenericParameter(Ident),
    Expression(Expr),
    Other(String),
}

/// Errors of type unification.
#[derive(Debug)]
pub enum UnifyError {
    CannotUnify { left_type: Ty, right_type: Ty, context: UnifyContext, span: Option<Span> },
    InfiniteType,
    SubTyError(SubTyError),
}

impl From<SubTyError> for UnifyError {
    fn from(err: SubTyError) -> (e: UnifyError) {
        UnifyError::SubTyError(err)
    }
}

impl vstd::std_specs::convert::FromSpecImpl<SubTyError> for UnifyError {
    open spec fn obeys_from_spec() -> bool {
        true
    }

    open spec fn from_spec(v: SubTyError) -> UnifyError {
        UnifyError::SubTyError(v)
    }
}

/// The `i32` data type.
pub open spec fn i32_dty() -> DataTy {
    DataTy { dty: DataTyKind::Scalar(ScalarTy::I32), span: None }
}

/// The type that wraps the data type `d` without a source position.
pub open spec fn data_ty_of(d: DataTy) -> Ty {
    Ty { ty: TyKind::Data(Box::new(d)), span: None }
}

impl UnifyError {
    /// A unification failure between two types.
    pub fn cannot_unify(left_type: Ty, right_type: Ty, context: UnifyContext, span: Option<Span>) -> (e:
        UnifyError)
        ensures
            e == (UnifyError::CannotUnify { left_type, right_type, context, span }),
    {
        UnifyError::CannotUnify { left_type, right_type, context, span }
    }

    /// A unification failure between two data types, each wrapped as a type.
    pub fn cannot_unify_dty(left: DataTy, right: DataTy, context: UnifyContext, span: Option<Span>) -> (e:
        UnifyError)
        ensures
            e == (UnifyError::CannotUnify {
                left_type: data_ty_of(left),
                right_type: data_ty_of(right),
                context,
                span,
            }),
    {
        UnifyError::CannotUnify {
            left_type: Ty::new(TyKind::Data(Box::new(left))),
            right_type: Ty::new(TyKind::Data(Box::new(right))),
            context,
            span,
        }
    }

    /// A unification failure whose context is described by text.
    pub fn cannot_unify_with_string(left_type: Ty, right_type: Ty, context: &str, span: Option<Span>) -> (e:
        UnifyError)
        ensures
            e is CannotUnify,
            e->left_type == left_type,
            e->right_type == right_type,
            e->span == span,
            e->context is Other,
            e->context->Other_0@ == context@,
    {
        UnifyError::CannotUnify {
            left_type,
            right_type,
            context: UnifyContext::Other(context.to_string()),
            span,
        }
    }

    /// A unification failure where the types are unknown; both sides are
    /// recorded as `i32`.
    pub fn cannot_unify_unknown(context: &str, span: Option<Span>) -> (e: UnifyError)
        ensures
            e is CannotUnify,
            e->left_type == data_ty_of(i32_dty()),
            e->right_type == data_ty_of(i32_dty()),
            e->span == span,
            e->context is Other,
            e->context->Other_0@ == context@,
    {
        let left_type = Ty::new(TyKind::Data(Box::new(DataTy::new(DataTyKind::Scalar(ScalarTy::I32)))));
        let right_type = Ty::new(
            TyKind::Data(Box::new(DataTy::new(DataTyKind::Scalar(ScalarTy::I32)))),
        );
        UnifyError::CannotUnify {
            left_type,
            right_type,
            context: UnifyContext::Other(context.to_string()),
            span,
        }
    }
}

/// Errors when looking things up in the typing and kinding contexts.
#[derive(Debug)]
pub enum CtxError {
    IdentNotFound(Ident),
    KindedIdentNotFound(Ident),
    PrvValueNotFound(String),
    PrvIdentNotFound(Ident),
    /// The first identifier is not declared to outlive the second.
    OutlRelNotDefined(Ident, Ident),
    IllegalProjection,
}

impl From<CtxError> for SubTyError {
    fn from(err: CtxError) -> (e: SubTyError) {
        SubTyError::CtxError(err)
    }
}

impl vstd::std_specs::convert::FromSpecImpl<CtxError> for SubTyError {
    open spec fn obeys_from_spec() -> bool {
        true
    }

    open spec fn from_spec(v: CtxError) -> SubTyError {
        SubTyError::CtxError(v)
    }
}

/// Why a borrow is rejected.
#[derive(Debug)]
pub enum BorrowingError {
    Conflict { checked: PlaceExpr, existing: PlaceExpr },
    CtxError(CtxError),
    ConflictingOwnership,
    ConflictingAccess,
    BorrowNotInReborrowList(Place),
    TemporaryConflictingBorrow(String),
    WrongDevice(BaseExec, BaseExec),
    MultipleDistribs,
    CannotNarrow,
    DivergingExec,
    TyError(Box<TyError>),
    NatEvalError(NatEvalError),
}

impl From<TyError> for BorrowingError {
    fn from(err: TyError) -> (e: BorrowingError) {
        BorrowingError::TyError(Box::new(err))
    }
}

impl vstd::std_specs::convert::FromSpecImpl<TyError> for BorrowingError {
    open spec fn obeys_from_spec() -> bool {
        true
    }

    open spec fn from_spec(v: TyError) -> BorrowingError {
        BorrowingError::TyError(Box::new(v))
    }
}

impl From<CtxError> for BorrowingError {
    fn from(err: CtxError) -> (e: BorrowingError) {
        BorrowingError::CtxError(err)
    }
}

impl vstd::std_specs::convert::FromSpecImpl<CtxError> for BorrowingError {
    open spec fn obeys_from_spec() -> bool {
        true
    }

    open spec fn from_spec(v: CtxError) -> BorrowingError {
        BorrowingError::CtxError(v)
    }
}

impl From<NatEvalError> for BorrowingError {
    fn from(err: NatEvalError) -> (e: BorrowingError) {
        BorrowingError::NatEvalError(err)
    }
}

impl vstd::std_specs::convert::FromSpecImpl<NatEvalError> for BorrowingError {
    open spec fn obeys_from_spec() -> bool {
        true
    }

    open spec fn from_spec(v: NatEvalError) -> BorrowingError {
        BorrowingError::NatEvalError(v)
    }
}

} // verus!
