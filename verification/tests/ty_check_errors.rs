use descend::ast::{
    BaseExec, DataTy, DataTyKind, ExecExpr, ExecExprKind, Expr, ExprKind, Ident, Mutability,
    Ownership, Pattern, PlaceExpr, PlaceExprKind, ScalarTy, Span, Ty, TyKind,
};
use descend::ty_check::error::{
    BorrowingError, CtxError, SubTyError, TyError, UnifyContext, UnifyError,
};

fn scalar_ty(s: ScalarTy) -> Ty {
    Ty::new(TyKind::Data(Box::new(DataTy::new(DataTyKind::Scalar(s)))))
}

fn ident_place(name: &str) -> PlaceExpr {
    PlaceExpr::new(PlaceExprKind::Ident(Ident::new(name)))
}

#[test]
fn test_cannot_unify_error_creation() {
    let left_ty = scalar_ty(ScalarTy::I32);
    let right_ty = scalar_ty(ScalarTy::F32);
    let context = UnifyContext::FunctionParameter(1);

    let error = UnifyError::cannot_unify(
        scalar_ty(ScalarTy::I32),
        scalar_ty(ScalarTy::F32),
        context,
        None,
    );

    match error {
        UnifyError::CannotUnify {
            left_type,
            right_type,
            context: UnifyContext::FunctionParameter(idx),
            span,
        } => {
            assert_eq!(left_type, left_ty);
            assert_eq!(right_type, right_ty);
            assert_eq!(idx, 1);
            assert!(span.is_none());
        }
        _ => panic!("Expected CannotUnify variant"),
    }
}

#[test]
fn test_cannot_unify_dty_error_creation() {
    let left_dty = DataTy::new(DataTyKind::Scalar(ScalarTy::I32));
    let right_dty = DataTy::new(DataTyKind::Scalar(ScalarTy::F32));
    let context = UnifyContext::ArrayElement;

    let error = UnifyError::cannot_unify_dty(
        DataTy::new(DataTyKind::Scalar(ScalarTy::I32)),
        DataTy::new(DataTyKind::Scalar(ScalarTy::F32)),
        context,
        None,
    );

    match error {
        UnifyError::CannotUnify {
            left_type,
            right_type,
            context: UnifyContext::ArrayElement,
            span,
        } => {
            match (&left_type.ty, &right_type.ty) {
                (TyKind::Data(left_box), TyKind::Data(right_box)) => {
                    assert_eq!(**left_box, left_dty);
                    assert_eq!(**right_box, right_dty);
                }
                _ => panic!("Expected DataTy wrapped in Ty"),
            }
            assert!(span.is_none());
        }
        _ => panic!("Expected CannotUnify variant"),
    }
}

#[test]
fn test_cannot_unify_with_span() {
    let span = Span { begin: 10, end: 15 };
    let left_ty = scalar_ty(ScalarTy::I32);
    let right_ty = scalar_ty(ScalarTy::F32);
    let context = UnifyContext::VariableAssignment(Ident::new("x"));

    let error = UnifyError::cannot_unify(left_ty, right_ty, context, Some(span));

    match error {
        UnifyError::CannotUnify {
            left_type: _,
            right_type: _,
            context: UnifyContext::VariableAssignment(ident),
            span: error_span,
        } => {
            assert_eq!(ident.name.as_str(), "x");
            assert!(error_span.is_some());
            if let Some(error_span) = error_span {
                assert_eq!(error_span.begin, 10);
                assert_eq!(error_span.end, 15);
            }
        }
        _ => panic!("Expected CannotUnify variant"),
    }
}

#[test]
fn test_unify_error_other_variants() {
    let infinite_error = UnifyError::InfiniteType;
    match infinite_error {
        UnifyError::InfiniteType => {}
        _ => panic!("Expected InfiniteType variant"),
    }

    let subty_error = UnifyError::SubTyError(SubTyError::Dummy);
    match subty_error {
        UnifyError::SubTyError(_) => {}
        _ => panic!("Expected SubTyError variant"),
    }
}

#[test]
fn test_unify_error_from_conversions() {
    let subty_err = SubTyError::Dummy;
    let unify_err: UnifyError = subty_err.into();

    match unify_err {
        UnifyError::SubTyError(_) => {}
        _ => panic!("Expected SubTyError variant"),
    }
}

#[test]
fn test_conflicting_borrow_error_creation() {
    let place = ident_place("x");
    let conflict = BorrowingError::ConflictingOwnership;
    let error = TyError::ConflictingBorrow(Box::new(place), Ownership::Uniq, conflict);

    match error {
        TyError::ConflictingBorrow(_, own, BorrowingError::ConflictingOwnership) => {
            assert_eq!(own, Ownership::Uniq);
        }
        _ => panic!("Expected ConflictingBorrow with ConflictingOwnership"),
    }
}

#[test]
fn test_ctx_error_creation() {
    let ident = Ident::new("unknown_var");
    let error = TyError::CtxError(CtxError::IdentNotFound(ident.clone()));

    match error {
        TyError::CtxError(CtxError::IdentNotFound(found_ident)) => {
            assert_eq!(found_ident.name.as_str(), "unknown_var");
        }
        _ => panic!("Expected CtxError::IdentNotFound"),
    }

    let kinded_ident = Ident::new("T");
    let error = TyError::CtxError(CtxError::KindedIdentNotFound(kinded_ident.clone()));

    match error {
        TyError::CtxError(CtxError::KindedIdentNotFound(found_ident)) => {
            assert_eq!(found_ident.name.as_str(), "T");
        }
        _ => panic!("Expected CtxError::KindedIdentNotFound"),
    }

    let longer = Ident::new("'a");
    let shorter = Ident::new("'b");
    let error = TyError::CtxError(CtxError::OutlRelNotDefined(longer.clone(), shorter.clone()));

    match error {
        TyError::CtxError(CtxError::OutlRelNotDefined(found_longer, found_shorter)) => {
            assert_eq!(found_longer.name.as_str(), "'a");
            assert_eq!(found_shorter.name.as_str(), "'b");
        }
        _ => panic!("Expected CtxError::OutlRelNotDefined"),
    }
}

#[test]
fn test_subty_error_creation() {
    let error = TyError::SubTyError(SubTyError::NotOutliving("'a".to_string(), "'b".to_string()));

    match error {
        TyError::SubTyError(SubTyError::NotOutliving(shorter, longer)) => {
            assert_eq!(shorter, "'a");
            assert_eq!(longer, "'b");
        }
        _ => panic!("Expected SubTyError::NotOutliving"),
    }

    let error = TyError::SubTyError(SubTyError::PrvNotUsedInBorrow("r1".to_string()));

    match error {
        TyError::SubTyError(SubTyError::PrvNotUsedInBorrow(prv)) => {
            assert_eq!(prv, "r1");
        }
        _ => panic!("Expected SubTyError::PrvNotUsedInBorrow"),
    }

    let error = TyError::SubTyError(SubTyError::MemoryKindsNoMatch);

    match error {
        TyError::SubTyError(SubTyError::MemoryKindsNoMatch) => {}
        _ => panic!("Expected SubTyError::MemoryKindsNoMatch"),
    }

    let error = TyError::SubTyError(SubTyError::OwnershipNoMatch);

    match error {
        TyError::SubTyError(SubTyError::OwnershipNoMatch) => {}
        _ => panic!("Expected SubTyError::OwnershipNoMatch"),
    }
}

#[test]
fn test_misc_error_creation() {
    let error = TyError::AssignToConst(ident_place("x"));

    match error {
        TyError::AssignToConst(found_place) => {
            assert!(matches!(found_place.pl_expr, PlaceExprKind::Ident(_)));
        }
        _ => panic!("Expected TyError::AssignToConst"),
    }

    let error = TyError::ConstBorrow(ident_place("x"));

    match error {
        TyError::ConstBorrow(found_place) => {
            assert!(matches!(found_place.pl_expr, PlaceExprKind::Ident(_)));
        }
        _ => panic!("Expected TyError::ConstBorrow"),
    }

    let place_expr = ident_place("x");
    let error = TyError::ReferenceToDeadTy(place_expr);

    match error {
        TyError::ReferenceToDeadTy(_) => {}
        _ => panic!("Expected TyError::ReferenceToDeadTy"),
    }

    let exec_expr = ExecExpr::new(ExecExprKind::new(BaseExec::CpuThread));
    let error = TyError::IllegalExec(exec_expr);

    match error {
        TyError::IllegalExec(_) => {}
        _ => panic!("Expected TyError::IllegalExec"),
    }

    let pattern = Pattern::Ident(Mutability::Mut, Ident::new("x"));
    let ty = scalar_ty(ScalarTy::I32);
    let error = TyError::PatternAndTypeDoNotMatch(pattern, ty);

    match error {
        TyError::PatternAndTypeDoNotMatch(_, _) => {}
        _ => panic!("Expected TyError::PatternAndTypeDoNotMatch"),
    }

    let error = TyError::PrvValueAlreadyInUse("r1".to_string());

    match error {
        TyError::PrvValueAlreadyInUse(prv) => {
            assert_eq!(prv, "r1");
        }
        _ => panic!("Expected TyError::PrvValueAlreadyInUse"),
    }

    let ident = Ident::new("T");
    let error = TyError::CannotInferGenericArg(ident.clone());

    match error {
        TyError::CannotInferGenericArg(found_ident) => {
            assert_eq!(found_ident.name.as_str(), "T");
        }
        _ => panic!("Expected TyError::CannotInferGenericArg"),
    }

    let expr = Expr::new(ExprKind::Hole);
    let error = TyError::UnsafeRequired(expr);

    match error {
        TyError::UnsafeRequired(_) => {}
        _ => panic!("Expected TyError::UnsafeRequired"),
    }
}

#[test]
fn test_error_with_spans() {
    let mut ident = Ident::new("x");
    ident.span = Some(Span { begin: 10, end: 15 });

    let error = TyError::CtxError(CtxError::IdentNotFound(ident));

    match error {
        TyError::CtxError(CtxError::IdentNotFound(found_ident)) => {
            assert_eq!(found_ident.name.as_str(), "x");
            assert!(found_ident.span.is_some());
            if let Some(span) = found_ident.span {
                assert_eq!(span.begin, 10);
                assert_eq!(span.end, 15);
            }
        }
        _ => panic!("Expected CtxError::IdentNotFound"),
    }
}

#[test]
fn test_multi_error_creation() {
    let place_expr1 = ident_place("x");
    let error1 = TyError::ReferenceToDeadTy(place_expr1);
    let error2 = TyError::IllegalExec(ExecExpr::new(ExecExprKind::new(BaseExec::CpuThread)));
    let multi_error = TyError::MultiError(vec![error1, error2]);

    match multi_error {
        TyError::MultiError(errors) => {
            assert_eq!(errors.len(), 2);
            assert!(matches!(errors[0], TyError::ReferenceToDeadTy(_)));
            assert!(matches!(errors[1], TyError::IllegalExec(_)));
        }
        _ => panic!("Expected TyError::MultiError"),
    }
}

#[test]
fn test_error_from_conversions() {
    let ctx_err = CtxError::IdentNotFound(Ident::new("x"));
    let ty_err: TyError = ctx_err.into();

    match ty_err {
        TyError::CtxError(CtxError::IdentNotFound(_)) => {}
        _ => panic!("Expected TyError::CtxError"),
    }

    let subty_err = SubTyError::Dummy;
    let ty_err: TyError = subty_err.into();

    match ty_err {
        TyError::SubTyError(SubTyError::Dummy) => {}
        _ => panic!("Expected TyError::SubTyError"),
    }

    let unify_err = UnifyError::InfiniteType;
    let ty_err: TyError = unify_err.into();

    match ty_err {
        TyError::UnifyError(UnifyError::InfiniteType) => {}
        _ => panic!("Expected TyError::UnifyError"),
    }
}
