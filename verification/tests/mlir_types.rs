use descend::ast::{
    AtomicTy, BaseExec, Block, CompilUnit, DataTy, DataTyKind, Dim, Dim1d, ExecExpr, ExecExprKind,
    Expr, ExprKind, FunDef, Ident, Item, Lit, Memory, Mutability, Nat, Ownership, ParamDecl,
    Provenance, RefDty, ScalarTy, Span, Ty, TyKind,
};
use descend::codegen::mlir::builder::support::lowering_supported;
use descend::codegen::mlir::{gen_checked, needs_hivm_address_space, CodegenOutput};
use descend::codegen::mlir::ir::type_to_string;
use descend::codegen::mlir::to_mlir::types::{
    apply_hivm_address_space, dty_is_lowerable, generate_function_with_body,
};
use descend::codegen::mlir::to_mlir::ToMlir;

fn make_data_ty(kind: DataTyKind) -> DataTy {
    DataTy::new(kind)
}

fn lowered_text(data_ty: &DataTy) -> String {
    type_to_string(&data_ty.to_mlir())
}

#[test]
fn test_scalar_unit_to_mlir() {
    let data_ty = make_data_ty(DataTyKind::Scalar(ScalarTy::Unit));
    assert_eq!(lowered_text(&data_ty), "none");
}

#[test]
fn test_scalar_u8_to_mlir() {
    let data_ty = make_data_ty(DataTyKind::Scalar(ScalarTy::U8));
    assert_eq!(lowered_text(&data_ty), "i8");
}

#[test]
fn test_scalar_u32_to_mlir() {
    let data_ty = make_data_ty(DataTyKind::Scalar(ScalarTy::U32));
    assert_eq!(lowered_text(&data_ty), "i32");
}

#[test]
fn test_scalar_u64_to_mlir() {
    let data_ty = make_data_ty(DataTyKind::Scalar(ScalarTy::U64));
    assert_eq!(lowered_text(&data_ty), "i64");
}

#[test]
fn test_scalar_i32_to_mlir() {
    let data_ty = make_data_ty(DataTyKind::Scalar(ScalarTy::I32));
    assert_eq!(lowered_text(&data_ty), "i32");
}

#[test]
fn test_scalar_i64_to_mlir() {
    let data_ty = make_data_ty(DataTyKind::Scalar(ScalarTy::I64));
    assert_eq!(lowered_text(&data_ty), "i64");
}

#[test]
fn test_scalar_f32_to_mlir() {
    let data_ty = make_data_ty(DataTyKind::Scalar(ScalarTy::F32));
    assert_eq!(lowered_text(&data_ty), "f32");
}

#[test]
fn test_scalar_f64_to_mlir() {
    let data_ty = make_data_ty(DataTyKind::Scalar(ScalarTy::F64));
    assert_eq!(lowered_text(&data_ty), "f64");
}

#[test]
fn test_scalar_bool_to_mlir() {
    let data_ty = make_data_ty(DataTyKind::Scalar(ScalarTy::Bool));
    assert_eq!(lowered_text(&data_ty), "i1");
}

#[test]
fn test_atomic_u32_to_mlir() {
    let data_ty = make_data_ty(DataTyKind::Atomic(AtomicTy::AtomicU32));
    assert_eq!(lowered_text(&data_ty), "i32");
}

#[test]
fn test_atomic_i32_to_mlir() {
    let data_ty = make_data_ty(DataTyKind::Atomic(AtomicTy::AtomicI32));
    assert_eq!(lowered_text(&data_ty), "i32");
}

#[test]
fn test_tuple_empty_to_mlir() {
    let data_ty = make_data_ty(DataTyKind::Tuple(vec![]));
    assert_eq!(lowered_text(&data_ty), "tuple<>");
}

#[test]
fn test_tuple_single_element_to_mlir() {
    let data_ty = make_data_ty(DataTyKind::Tuple(vec![make_data_ty(DataTyKind::Scalar(
        ScalarTy::I32,
    ))]));
    assert_eq!(lowered_text(&data_ty), "tuple<i32>");
}

#[test]
fn test_tuple_multiple_elements_to_mlir() {
    let data_ty = make_data_ty(DataTyKind::Tuple(vec![
        make_data_ty(DataTyKind::Scalar(ScalarTy::I32)),
        make_data_ty(DataTyKind::Scalar(ScalarTy::F64)),
        make_data_ty(DataTyKind::Scalar(ScalarTy::Bool)),
    ]));
    assert_eq!(lowered_text(&data_ty), "tuple<i32, f64, i1>");
}

#[test]
fn test_tuple_nested_to_mlir() {
    let inner_tuple = make_data_ty(DataTyKind::Tuple(vec![
        make_data_ty(DataTyKind::Scalar(ScalarTy::I32)),
        make_data_ty(DataTyKind::Scalar(ScalarTy::F32)),
    ]));
    let data_ty = make_data_ty(DataTyKind::Tuple(vec![
        inner_tuple,
        make_data_ty(DataTyKind::Scalar(ScalarTy::Bool)),
    ]));
    assert_eq!(lowered_text(&data_ty), "tuple<tuple<i32, f32>, i1>");
}

#[test]
fn test_array_with_literal_size_to_mlir() {
    let data_ty = make_data_ty(DataTyKind::Array(
        Box::new(make_data_ty(DataTyKind::Scalar(ScalarTy::F32))),
        Nat::Lit(10),
    ));
    assert_eq!(lowered_text(&data_ty), "memref<10xf32>");
}

#[test]
fn test_array_shape_with_literal_size_to_mlir() {
    let data_ty = make_data_ty(DataTyKind::ArrayShape(
        Box::new(make_data_ty(DataTyKind::Scalar(ScalarTy::U32))),
        Nat::Lit(5),
    ));
    assert_eq!(lowered_text(&data_ty), "memref<5xi32>");
}

#[test]
fn test_ref_scalar_to_mlir() {
    let ref_dty = RefDty::new(
        Provenance::Ident(Ident::new("r")),
        Ownership::Uniq,
        Memory::CpuMem,
        make_data_ty(DataTyKind::Scalar(ScalarTy::I32)),
    );
    let data_ty = make_data_ty(DataTyKind::Ref(Box::new(ref_dty)));
    assert_eq!(lowered_text(&data_ty), "memref<i32>");
}

#[test]
fn test_ref_scalar_f32_to_mlir() {
    let ref_dty = RefDty::new(
        Provenance::Ident(Ident::new("r")),
        Ownership::Shrd,
        Memory::NpuGm,
        make_data_ty(DataTyKind::Scalar(ScalarTy::F32)),
    );
    let data_ty = make_data_ty(DataTyKind::Ref(Box::new(ref_dty)));
    assert_eq!(lowered_text(&data_ty), "memref<f32>");
}

#[test]
fn test_ref_array_to_mlir() {
    let ref_dty = RefDty::new(
        Provenance::Ident(Ident::new("r")),
        Ownership::Uniq,
        Memory::CpuMem,
        make_data_ty(DataTyKind::Array(
            Box::new(make_data_ty(DataTyKind::Scalar(ScalarTy::F32))),
            Nat::Lit(10),
        )),
    );
    let data_ty = make_data_ty(DataTyKind::Ref(Box::new(ref_dty)));
    assert_eq!(lowered_text(&data_ty), "memref<10xf32>");
}

fn at_type_string(data_ty: &DataTy) -> String {
    match &data_ty.dty {
        DataTyKind::At(inner, mem) => {
            let base_str = lowered_text(inner);
            apply_hivm_address_space(base_str, mem)
        }
        _ => panic!("Expected At type"),
    }
}

#[test]
fn test_at_array_npu_global_adds_gm_address_space() {
    let inner = make_data_ty(DataTyKind::Array(
        Box::new(make_data_ty(DataTyKind::Scalar(ScalarTy::I32))),
        Nat::Lit(16),
    ));
    let data_ty = make_data_ty(DataTyKind::At(Box::new(inner), Memory::NpuGm));
    let type_str = at_type_string(&data_ty);
    assert_eq!(type_str, "memref<16xi32, #hivm.address_space<gm>>");
}

#[test]
fn test_at_array_cpu_mem_keeps_plain_memref() {
    let inner = make_data_ty(DataTyKind::Array(
        Box::new(make_data_ty(DataTyKind::Scalar(ScalarTy::I32))),
        Nat::Lit(16),
    ));
    let data_ty = make_data_ty(DataTyKind::At(Box::new(inner), Memory::CpuMem));
    let type_str = at_type_string(&data_ty);
    assert_eq!(type_str, "memref<16xi32>");
}

fn unit_body() -> Box<Block> {
    Box::new(Block {
        prvs: vec![],
        body: Box::new(Expr {
            expr: ExprKind::Lit(Lit::Unit),
            ty: Some(Box::new(Ty {
                ty: TyKind::Data(Box::new(DataTy::new(DataTyKind::Scalar(ScalarTy::Unit)))),
                span: None,
            })),
            span: Some(Span { begin: 0, end: 0 }),
        }),
    })
}

fn make_npu_function() -> FunDef {
    FunDef {
        ident: Ident {
            name: "npu_kernel".into(),
            span: Some(Span { begin: 0, end: 10 }),
            is_implicit: false,
        },
        generic_params: vec![],
        generic_exec: None,
        param_decls: vec![],
        ret_dty: Box::new(DataTy::new(DataTyKind::Scalar(ScalarTy::Unit))),
        exec_expr: ExecExpr {
            exec_kind: Box::new(ExecExprKind {
                base: BaseExec::NpuGrid(
                    Dim::X(Box::new(Dim1d(Nat::Lit(1)))),
                    Dim::X(Box::new(Dim1d(Nat::Lit(16)))),
                ),
                path: vec![],
            }),
            ty: None,
            span: None,
        },
        prv_rels: vec![],
        body: unit_body(),
    }
}

fn make_cpu_function() -> FunDef {
    FunDef {
        ident: Ident {
            name: "cpu_function".into(),
            span: Some(Span { begin: 0, end: 12 }),
            is_implicit: false,
        },
        generic_params: vec![],
        generic_exec: None,
        param_decls: vec![],
        ret_dty: Box::new(DataTy::new(DataTyKind::Scalar(ScalarTy::Unit))),
        exec_expr: ExecExpr {
            exec_kind: Box::new(ExecExprKind { base: BaseExec::CpuThread, path: vec![] }),
            ty: None,
            span: None,
        },
        prv_rels: vec![],
        body: unit_body(),
    }
}

#[test]
fn test_npu_function_signature_with_attributes() {
    let npu_fun = make_npu_function();
    let signature = generate_function_with_body(&npu_fun);

    assert!(signature
        .contains("attributes {hacc.entry, hacc.function_kind = #hacc.function_kind<DEVICE>}"));
    assert!(signature.contains("func.func @npu_kernel"));
    assert!(signature.contains(") attributes"));
}

#[test]
fn test_cpu_function_signature_without_attributes() {
    let cpu_fun = make_cpu_function();
    let signature = generate_function_with_body(&cpu_fun);

    assert!(!signature
        .contains("attributes {hacc.entry, hacc.function_kind = #hacc.function_kind<DEVICE>}"));
    assert!(signature.contains("func.func @cpu_function"));
    assert!(signature.contains(") {"));
    assert!(!signature.contains(") attributes"));
}

#[test]
fn test_function_signature_format() {
    let npu_fun = make_npu_function();
    let signature = generate_function_with_body(&npu_fun);

    let lines: Vec<&str> = signature.lines().collect();
    assert_eq!(lines.len(), 3);

    let func_line = lines[0];
    assert!(func_line.contains("func.func @npu_kernel"));
    assert!(func_line
        .contains(") attributes {hacc.entry, hacc.function_kind = #hacc.function_kind<DEVICE>} {"));

    let parts: Vec<&str> = func_line.split(") attributes").collect();
    assert_eq!(parts.len(), 2);
    assert!(parts[0].contains("@npu_kernel"));
    assert!(parts[1].starts_with(" {hacc.entry"));
}

fn npu_global_array_param(name: &str, own: Ownership) -> ParamDecl {
    let elem = make_data_ty(DataTyKind::Ident(Ident::new("i16")));
    let array = make_data_ty(DataTyKind::Array(Box::new(elem), Nat::Lit(16)));
    let ref_dty = RefDty::new(Provenance::Ident(Ident::new("r")), own, Memory::NpuGm, array);
    ParamDecl {
        ident: Ident::new(name),
        ty: Some(Ty {
            ty: TyKind::Data(Box::new(make_data_ty(DataTyKind::Ref(Box::new(ref_dty))))),
            span: None,
        }),
        mutbl: Mutability::Const,
    }
}

fn readme_add_kernel() -> FunDef {
    let mut f = make_npu_function();
    f.ident = Ident::new("add");
    f.param_decls = vec![
        npu_global_array_param("a", Ownership::Shrd),
        npu_global_array_param("b", Ownership::Shrd),
        npu_global_array_param("c", Ownership::Uniq),
    ];
    f
}

#[test]
fn npu_kernel_takes_the_hivm_text_path() {
    let unit = CompilUnit { items: vec![Item::FunDef(Box::new(readme_add_kernel()))] };
    assert!(needs_hivm_address_space(&unit));
    assert!(lowering_supported(&unit));
    match gen_checked(&unit, false) {
        Ok(CodegenOutput::Text(s)) => {
            assert_eq!(
                s,
                "module {\n  func.func @add(%arg0: memref<16xi16, #hivm.address_space<gm>>, \
                 %arg1: memref<16xi16, #hivm.address_space<gm>>, \
                 %arg2: memref<16xi16, #hivm.address_space<gm>>) \
                 attributes {hacc.entry, hacc.function_kind = #hacc.function_kind<DEVICE>} {\n    \
                 return\n  }\n}\n"
            );
        }
        _ => panic!("expected the HIVM text"),
    }
}

#[test]
fn cpu_function_needs_no_hivm() {
    let unit = CompilUnit { items: vec![Item::FunDef(Box::new(make_cpu_function()))] };
    assert!(!needs_hivm_address_space(&unit));
}

#[test]
fn reference_to_placed_value_ignores_outer_memory() {
    let inner = make_data_ty(DataTyKind::Array(
        Box::new(make_data_ty(DataTyKind::Scalar(ScalarTy::I32))),
        Nat::Lit(4),
    ));
    let at = make_data_ty(DataTyKind::At(Box::new(inner), Memory::NpuUb));
    let ref_dty = RefDty::new(
        Provenance::Ident(Ident::new("r")),
        Ownership::Shrd,
        Memory::Ident(Ident::new("m")),
        at,
    );
    let data_ty = make_data_ty(DataTyKind::Ref(Box::new(ref_dty)));
    assert!(dty_is_lowerable(&data_ty));
    assert_eq!(lowered_text(&data_ty), "memref<4xi32>");
}

#[test]
fn npu_kernel_body_is_not_lowered_on_the_text_path() {
    let mut kernel = readme_add_kernel();
    kernel.body.body = Box::new(Expr {
        expr: ExprKind::While(
            Box::new(Expr { expr: ExprKind::Lit(Lit::Bool(true)), ty: None, span: None }),
            Box::new(Expr { expr: ExprKind::Lit(Lit::Unit), ty: None, span: None }),
        ),
        ty: None,
        span: None,
    });
    let unit = CompilUnit { items: vec![Item::FunDef(Box::new(kernel))] };
    assert!(lowering_supported(&unit));
    match gen_checked(&unit, true) {
        Ok(CodegenOutput::Text(s)) => assert!(s.contains("attributes {hacc.entry")),
        _ => panic!("expected the HIVM text"),
    }
}
