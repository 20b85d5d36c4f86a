use descend::ast::printer::PrintState;
use descend::ast::{
    DataTy, DataTyKind, Expr, ExprKind, Ident, Memory, Nat, NatCtx, Ownership, PlaceExpr,
    PlaceExprKind, ScalarTy, Span,
};
use descend::codegen::mlir::error::{
    context_error, general_error, missing_result_error, operation_build_error, type_parse_error,
};
use descend::compile;
use descend::ast::CompilUnit;
use descend::error::{error_kind_to_message, CompileError, FileIOError, IoErrorKind, SourceSpan};
use descend::text::decimal_string;
use descend::ty_check::error::{BorrowingError, CtxError, TyError};

fn type_check_data(e: CompileError) -> descend::error::TypeCheckErrorData {
    match e {
        CompileError::TypeCheck(d) => d,
        other => panic!("expected a type check error, got {:?}", other),
    }
}

#[test]
fn io_error_kinds_have_messages() {
    assert_eq!(error_kind_to_message(IoErrorKind::NotFound), "entity not found");
    assert_eq!(error_kind_to_message(IoErrorKind::PermissionDenied), "permission denied");
    assert_eq!(error_kind_to_message(IoErrorKind::InvalidInput), "invalid input");
    assert_eq!(error_kind_to_message(IoErrorKind::UnexpectedEof), "unexpected end of file");
    assert_eq!(error_kind_to_message(IoErrorKind::TimedOut), "unknown error");
}

#[test]
fn file_io_error_becomes_a_file_diagnostic() {
    let e = FileIOError::new("missing.desc", IoErrorKind::NotFound, "No such file".to_string());
    match e.to_compile_error() {
        CompileError::FileIO(d) => {
            assert_eq!(d.file_path, "missing.desc");
            assert_eq!(d.io_error_kind, IoErrorKind::NotFound);
            assert_eq!(d.error_message, "entity not found");
            assert!(d.span.is_none());
        }
        other => panic!("unexpected {:?}", other),
    }
    match CompileError::from_io_error_kind(IoErrorKind::PermissionDenied) {
        CompileError::FileIO(d) => {
            assert_eq!(d.file_path, "unknown file");
            assert_eq!(d.error_message, "permission denied");
        }
        other => panic!("unexpected {:?}", other),
    }
}

#[test]
fn missing_main_diagnostic() {
    let d = type_check_data(CompileError::from_ty_error(TyError::MissingMain));
    assert_eq!(d.message, "Missing main function");
    assert!(d.span.is_none());
    assert_eq!(
        d.help_text,
        Some("A main function is required as the entry point of your program.".to_string())
    );
}

#[test]
fn unknown_identifier_diagnostic_keeps_the_span() {
    let ident = Ident::with_span("foo", Span { begin: 10, end: 15 });
    let d = type_check_data(CompileError::from_ty_error(TyError::CtxError(
        CtxError::IdentNotFound(ident),
    )));
    assert_eq!(d.message, "Identifier 'foo' not found in context");
    assert_eq!(d.span, Some(SourceSpan { offset: 10, length: 5 }));
}

#[test]
fn mismatched_types_are_printed() {
    let expected = DataTy::new(DataTyKind::Scalar(ScalarTy::I32));
    let actual = DataTy::new(DataTyKind::Scalar(ScalarTy::F64));
    let d = type_check_data(CompileError::from_ty_error(TyError::MismatchedDataTypes(
        expected,
        actual,
        Expr::new(ExprKind::Hole),
    )));
    assert_eq!(d.message, "Expected `i32` but found `f64`");
}

#[test]
fn conflicting_borrow_diagnostic() {
    let mut place = PlaceExpr::new(PlaceExprKind::Ident(Ident::new("x")));
    place.span = Some(Span { begin: 3, end: 4 });
    let d = type_check_data(CompileError::from_ty_error(TyError::ConflictingBorrow(
        Box::new(place),
        Ownership::Uniq,
        BorrowingError::ConflictingOwnership,
    )));
    assert_eq!(d.message, "Conflicting borrow detected");
    assert_eq!(d.span, Some(SourceSpan { offset: 3, length: 1 }));
    assert_eq!(d.secondary_spans, vec![(SourceSpan { offset: 3, length: 1 }, "conflicting borrow".to_string())]);
    assert_eq!(
        d.help_text,
        Some("This borrow conflicts with an existing borrow. Consider restructuring your code to avoid simultaneous borrows. Ownership: Uniq.".to_string())
    );
    assert_eq!(d.related, Some("Conflict details: ConflictingOwnership".to_string()));
}

#[test]
fn multi_error_reports_its_first_error() {
    let d = type_check_data(CompileError::from_ty_error(TyError::MultiError(vec![
        TyError::MissingMain,
        TyError::String("second".to_string()),
    ])));
    assert_eq!(d.message, "Missing main function");
    let d = type_check_data(CompileError::from_ty_error(TyError::MultiError(vec![])));
    assert_eq!(d.message, "Multiple type checking errors occurred");
    assert_eq!(d.help_text, Some("Fix each error individually".to_string()));
}

#[test]
fn span_that_ends_before_it_begins_is_empty() {
    assert_eq!(SourceSpan::from_span(Span { begin: 9, end: 4 }), SourceSpan { offset: 9, length: 0 });
}

#[test]
fn mlir_error_texts() {
    assert_eq!(type_parse_error("foo").message(), "Type parsing failed: Failed to parse type 'foo'");
    assert_eq!(
        operation_build_error("memref.alloca").message(),
        "Operation building failed: Failed to build operation 'memref.alloca'"
    );
    assert_eq!(
        missing_result_error("func.call", 0).message(),
        "Missing operation result: Operation 'func.call' missing result at index 0"
    );
    assert_eq!(context_error("no block").message(), "Context error: no block");
    assert_eq!(general_error("boom").message(), "MLIR error: boom");
}

#[test]
fn compile_reports_codegen_failures() {
    let unit = CompilUnit { items: vec![] };
    match compile(&unit, Err("bad module".to_string())) {
        Err(CompileError::Codegen(d)) => {
            assert_eq!(d.message, "MLIR verification failed: bad module");
            assert!(d.span.is_none());
        }
        other => panic!("unexpected {:?}", other),
    }
    let (code, ast) = compile(&unit, Ok("module {\n}\n".to_string())).unwrap();
    assert_eq!(code, "module {\n}\n");
    assert_eq!(ast, "[]");
}

#[test]
fn printer_renders_data_types() {
    let mut p = PrintState::new();
    p.print_dty(&DataTy::new(DataTyKind::Array(
        Box::new(DataTy::new(DataTyKind::Scalar(ScalarTy::F32))),
        Nat::Lit(16),
    )));
    assert_eq!(p.get(), "[f32; 16]");
    let mut p = PrintState::new();
    p.print_memory(&Memory::NpuGm);
    assert_eq!(p.get(), "npu.global");
}

#[test]
fn decimal_texts() {
    assert_eq!(decimal_string(0), "0");
    assert_eq!(decimal_string(1234567890), "1234567890");
    assert_eq!(decimal_string(u128::MAX), "340282366920938463463374607431768211455");
}

#[test]
fn nat_evaluation() {
    let mut ctx = NatCtx::new();
    ctx.push("n".to_string(), 8);
    let term = Nat::BinOp(
        descend::ast::BinOpNat::Mul,
        Box::new(Nat::Ident(Ident::new("n"))),
        Box::new(Nat::Lit(4)),
    );
    assert_eq!(term.eval(&ctx), Ok(32));
    assert!(Nat::Ident(Ident::new("m")).eval(&ctx).is_err());
    let div0 = Nat::BinOp(descend::ast::BinOpNat::Div, Box::new(Nat::Lit(1)), Box::new(Nat::Lit(0)));
    assert!(div0.eval(&ctx).is_err());
}

#[test]
fn type_error_converts_into_its_diagnostic() {
    let e: CompileError = TyError::MissingMain.into();
    let d = type_check_data(e);
    assert_eq!(d.message, "Missing main function");
    assert!(d.span.is_none());
}

#[test]
fn error_reported_message() {
    assert_eq!(descend::error::ErrorReported.message(), "Aborting due to previous error.");
}
