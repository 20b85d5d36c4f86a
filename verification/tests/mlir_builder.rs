use descend::ast::{
    BaseExec, BinOp, Block, CompilUnit, DataTy, DataTyKind, ExecExpr, ExecExprKind, Expr, ExprKind,
    FunDef, Ident, Item, Lit, Mutability, Nat, NatRange, Ownership, Pattern, PlaceExpr,
    PlaceExprKind, ScalarTy,
};
use descend::codegen::mlir::builder::context::MlirContext;
use descend::codegen::mlir::builder::support::lowering_supported;
use descend::codegen::mlir::builder::{build_expr, MlirBuilder};
use descend::codegen::mlir::error::MlirError;
use descend::codegen::mlir::ir::{
    ArithOp, CmpiPredicate, ConstantAttr, IrBlock, IrModule, MlirType, Operation,
};
use descend::codegen::mlir::{checked_module_text, gen_checked, needs_hivm_address_space, CodegenOutput};

fn expr(kind: ExprKind) -> Expr {
    Expr::new(kind)
}

fn var(name: &str) -> Expr {
    expr(ExprKind::PlaceExpr(Box::new(PlaceExpr::new(PlaceExprKind::Ident(Ident::new(name))))))
}

fn let_(name: &str, value: Expr) -> Expr {
    expr(ExprKind::Let(Pattern::Ident(Mutability::Const, Ident::new(name)), None, Box::new(value)))
}

fn lit(l: Lit) -> Expr {
    expr(ExprKind::Lit(l))
}

fn binop(op: BinOp, l: Expr, r: Expr) -> Expr {
    expr(ExprKind::BinOp(op, Box::new(l), Box::new(r)))
}

fn seq(es: Vec<Expr>) -> Expr {
    expr(ExprKind::Sequence(es))
}

fn fun(name: &str, ret: ScalarTy, body: Expr) -> FunDef {
    FunDef {
        ident: Ident::new(name),
        generic_params: vec![],
        generic_exec: None,
        param_decls: vec![],
        ret_dty: Box::new(DataTy::new(DataTyKind::Scalar(ret))),
        exec_expr: ExecExpr::new(ExecExprKind::new(BaseExec::CpuThread)),
        prv_rels: vec![],
        body: Box::new(Block { prvs: vec![], body: Box::new(body) }),
    }
}

fn build_unit(items: Vec<Item>) -> IrModule {
    let mut builder = MlirBuilder::new(IrModule { functions: vec![] });
    builder.build_items_two_pass(&CompilUnit { items });
    builder.into_module()
}

fn body_ops(m: &IrModule, k: usize) -> &Vec<Operation> {
    &m.functions[k].body.as_ref().unwrap().operations
}

fn int_const(result: usize, width: u32, value: i64) -> Operation {
    Operation::Constant {
        result,
        attr: ConstantAttr::Integer { ty: MlirType::Integer(width), value },
    }
}

fn index_const(result: usize, value: i64) -> Operation {
    Operation::Constant { result, attr: ConstantAttr::Integer { ty: MlirType::Index, value } }
}

#[test]
fn simple_addition_lowers_to_constants_addi_and_return() {
    // fn main() -[t: cpu.thread]-> i32 { let a = 10; let b = 32; a + b }
    let body = seq(vec![
        let_("a", lit(Lit::I32(10))),
        let_("b", lit(Lit::I32(32))),
        binop(BinOp::Add, var("a"), var("b")),
    ]);
    let m = build_unit(vec![Item::FunDef(Box::new(fun("main", ScalarTy::I32, body)))]);
    assert_eq!(m.functions.len(), 1);
    let f = &m.functions[0];
    assert_eq!(f.name, "main");
    assert_eq!(f.inputs, vec![]);
    assert_eq!(f.results, vec![MlirType::Integer(32)]);
    assert_eq!(
        *body_ops(&m, 0),
        vec![
            int_const(0, 32, 10),
            int_const(1, 32, 32),
            Operation::Arith { result: 2, op: ArithOp::AddI, lhs: 0, rhs: 1 },
            Operation::Return { operands: vec![2] },
        ]
    );
    assert_eq!(
        f.value_types,
        vec![MlirType::Integer(32), MlirType::Integer(32), MlirType::Integer(32)]
    );
}

#[test]
fn comparison_yields_i1() {
    let body = binop(BinOp::Lt, lit(Lit::I32(1)), lit(Lit::I32(2)));
    let m = build_unit(vec![Item::FunDef(Box::new(fun("cmp", ScalarTy::Bool, body)))]);
    assert_eq!(
        *body_ops(&m, 0),
        vec![
            int_const(0, 32, 1),
            int_const(1, 32, 2),
            Operation::Arith { result: 2, op: ArithOp::CmpI(CmpiPredicate::Slt), lhs: 0, rhs: 1 },
            Operation::Return { operands: vec![2] },
        ]
    );
    assert_eq!(m.functions[0].value_types[2], MlirType::Integer(1));
}

#[test]
fn literal_constants() {
    let mut ctx = MlirContext::new(vec![]);
    assert_eq!(build_expr(&lit(Lit::Unit), &mut ctx).unwrap(), None);
    assert_eq!(build_expr(&lit(Lit::Bool(false)), &mut ctx).unwrap(), Some(0));
    assert_eq!(build_expr(&lit(Lit::U8(255)), &mut ctx).unwrap(), Some(1));
    assert_eq!(build_expr(&lit(Lit::U64(u64::MAX)), &mut ctx).unwrap(), Some(2));
    assert_eq!(build_expr(&lit(Lit::I32(-5)), &mut ctx).unwrap(), Some(3));
    assert_eq!(build_expr(&lit(Lit::F32(1.5f32.to_bits())), &mut ctx).unwrap(), Some(4));
    assert_eq!(
        ctx.current_block,
        vec![
            int_const(0, 1, 0),
            int_const(1, 8, 255),
            int_const(2, 64, -1),
            int_const(3, 32, -5),
            Operation::Constant {
                result: 4,
                attr: ConstantAttr::Float { ty: MlirType::F32, bits: 1.5f32.to_bits() as u64 },
            },
        ]
    );
}

#[test]
fn missing_left_operand_is_an_error() {
    let mut ctx = MlirContext::new(vec![]);
    let e = binop(BinOp::Add, lit(Lit::Unit), lit(Lit::I32(1)));
    match build_expr(&e, &mut ctx) {
        Err(MlirError::General(m)) => assert_eq!(m, "Missing left operand for binary operation"),
        other => panic!("unexpected {:?}", other),
    }
}

#[test]
fn missing_right_operand_is_an_error() {
    let mut ctx = MlirContext::new(vec![]);
    let e = binop(BinOp::Add, lit(Lit::I32(1)), var("nowhere"));
    match build_expr(&e, &mut ctx) {
        Err(MlirError::General(m)) => assert_eq!(m, "Missing right operand for binary operation"),
        other => panic!("unexpected {:?}", other),
    }
}

#[test]
fn address_of_unknown_identifier_is_an_error() {
    let mut ctx = MlirContext::new(vec![]);
    let place = PlaceExpr::new(PlaceExprKind::Ident(Ident::new("ghost")));
    let e = expr(ExprKind::Ref(None, Ownership::Shrd, Box::new(place)));
    match build_expr(&e, &mut ctx) {
        Err(MlirError::General(m)) => assert_eq!(m, "address-of of unknown identifier"),
        other => panic!("unexpected {:?}", other),
    }
}

#[test]
fn missing_condition_values_are_errors() {
    let mut ctx = MlirContext::new(vec![]);
    let e = expr(ExprKind::If(Box::new(lit(Lit::Unit)), Box::new(lit(Lit::I32(1)))));
    match build_expr(&e, &mut ctx) {
        Err(MlirError::General(m)) => assert_eq!(m, "Missing condition value for if expression"),
        other => panic!("unexpected {:?}", other),
    }
    let e = expr(ExprKind::IfElse(
        Box::new(lit(Lit::Unit)),
        Box::new(lit(Lit::I32(1))),
        Box::new(lit(Lit::I32(2))),
    ));
    match build_expr(&e, &mut ctx) {
        Err(MlirError::General(m)) => {
            assert_eq!(m, "Missing condition value for if-else expression")
        }
        other => panic!("unexpected {:?}", other),
    }
}

#[test]
fn missing_call_operand_is_an_error() {
    let mut ctx = MlirContext::new(vec![]);
    let e = expr(ExprKind::App(Ident::new("f"), vec![], vec![lit(Lit::Unit)]));
    match build_expr(&e, &mut ctx) {
        Err(MlirError::General(m)) => assert_eq!(m, "Missing operand for function call"),
        other => panic!("unexpected {:?}", other),
    }
}

#[test]
fn reference_and_dereference() {
    // let x = 7; let r = &shrd x; *r
    let mut ctx = MlirContext::new(vec![]);
    let x_place = PlaceExpr::new(PlaceExprKind::Ident(Ident::new("x")));
    let r_place = PlaceExpr::new(PlaceExprKind::Ident(Ident::new("r")));
    let e = seq(vec![
        let_("x", lit(Lit::I32(7))),
        let_("r", expr(ExprKind::Ref(None, Ownership::Shrd, Box::new(x_place)))),
        expr(ExprKind::PlaceExpr(Box::new(PlaceExpr::new(PlaceExprKind::Deref(Box::new(
            r_place,
        )))))),
    ]);
    assert_eq!(build_expr(&e, &mut ctx).unwrap(), Some(2));
    let memref_i32 = MlirType::MemRef(Box::new(MlirType::Integer(32)), vec![]);
    assert_eq!(
        ctx.current_block,
        vec![
            int_const(0, 32, 7),
            Operation::Alloca { result: 1, ty: MlirType::MemRef(Box::new(MlirType::Integer(32)), vec![]) },
            Operation::Store { value: 0, memref: 1 },
            Operation::Load { result: 2, memref: 1, ty: MlirType::Integer(32) },
        ]
    );
    assert_eq!(ctx.value_types[1], memref_i32);
}

#[test]
fn if_else_with_values_has_one_result() {
    let e = expr(ExprKind::IfElse(
        Box::new(lit(Lit::Bool(true))),
        Box::new(lit(Lit::I32(1))),
        Box::new(lit(Lit::I32(2))),
    ));
    let m = build_unit(vec![Item::FunDef(Box::new(fun("choose", ScalarTy::I32, e)))]);
    assert_eq!(
        *body_ops(&m, 0),
        vec![
            int_const(0, 1, 1),
            Operation::If {
                condition: 0,
                result_types: vec![MlirType::Integer(32)],
                then_region: IrBlock {
                    arguments: vec![],
                    operations: vec![int_const(1, 32, 1), Operation::Yield { operands: vec![1] }],
                },
                else_region: IrBlock {
                    arguments: vec![],
                    operations: vec![int_const(2, 32, 2), Operation::Yield { operands: vec![2] }],
                },
                results: vec![3],
            },
            Operation::Return { operands: vec![3] },
        ]
    );
}

#[test]
fn names_bound_in_an_arm_do_not_leak() {
    // let c = true; if c { let y = 1; } ; y
    let mut ctx = MlirContext::new(vec![]);
    let e = seq(vec![
        let_("c", lit(Lit::Bool(true))),
        expr(ExprKind::If(Box::new(var("c")), Box::new(let_("y", lit(Lit::I32(1)))))),
        var("y"),
    ]);
    assert_eq!(build_expr(&e, &mut ctx).unwrap(), None);
    assert_eq!(ctx.variables.len(), 1);
    assert_eq!(ctx.variables[0].0, "c");
}

#[test]
fn for_loop_carries_variables() {
    // let s = 0; for i in 0..10 { s = s + i }; s
    let body = seq(vec![
        let_("s", lit(Lit::I32(0))),
        expr(ExprKind::ForNat(
            Ident::new("i"),
            NatRange::Simple { lower: Nat::Lit(0), upper: Nat::Lit(10) },
            Box::new(expr(ExprKind::Assign(
                Box::new(PlaceExpr::new(PlaceExprKind::Ident(Ident::new("s")))),
                Box::new(binop(BinOp::Add, var("s"), var("i"))),
            ))),
        )),
        var("s"),
    ]);
    let m = build_unit(vec![Item::FunDef(Box::new(fun("sum", ScalarTy::I32, body)))]);
    assert_eq!(
        *body_ops(&m, 0),
        vec![
            int_const(0, 32, 0),
            index_const(1, 0),
            index_const(2, 10),
            index_const(3, 1),
            Operation::For {
                lower: 1,
                upper: 2,
                step: 3,
                init_args: vec![0],
                body: IrBlock {
                    arguments: vec![4, 5],
                    operations: vec![
                        Operation::Arith { result: 6, op: ArithOp::AddI, lhs: 5, rhs: 4 },
                        Operation::Yield { operands: vec![6] },
                    ],
                },
                results: vec![7],
            },
            Operation::Return { operands: vec![7] },
        ]
    );
    assert_eq!(m.functions[0].value_types[4], MlirType::Index);
    assert_eq!(m.functions[0].value_types[7], MlirType::Integer(32));
}

#[test]
fn loop_without_bound_value_builds_nothing() {
    let mut ctx = MlirContext::new(vec![]);
    let e = expr(ExprKind::ForNat(
        Ident::new("i"),
        NatRange::Simple { lower: Nat::Lit(0), upper: Nat::Ident(Ident::new("n")) },
        Box::new(lit(Lit::I32(1))),
    ));
    assert_eq!(build_expr(&e, &mut ctx).unwrap(), None);
    assert_eq!(ctx.current_block, vec![index_const(0, 0)]);
    assert!(ctx.variables.is_empty());
}

#[test]
fn calls_see_result_types_of_later_functions() {
    // fn main() -> i32 { answer() }  fn answer() -> i32 { 42 }
    let call = expr(ExprKind::App(Ident::new("answer"), vec![], vec![]));
    let m = build_unit(vec![
        Item::FunDef(Box::new(fun("main", ScalarTy::I32, call))),
        Item::FunDef(Box::new(fun("answer", ScalarTy::I32, lit(Lit::I32(42))))),
    ]);
    assert_eq!(m.functions.len(), 2);
    assert_eq!(
        *body_ops(&m, 0),
        vec![
            Operation::Call {
                callee: "answer".to_string(),
                operands: vec![],
                result_types: vec![MlirType::Integer(32)],
                results: vec![0],
            },
            Operation::Return { operands: vec![0] },
        ]
    );
    assert_eq!(
        *body_ops(&m, 1),
        vec![int_const(0, 32, 42), Operation::Return { operands: vec![0] }]
    );
}

#[test]
fn unit_function_returns_nothing() {
    let m = build_unit(vec![Item::FunDef(Box::new(fun("noop", ScalarTy::Unit, lit(Lit::Unit))))]);
    assert_eq!(m.functions[0].results, vec![]);
    assert_eq!(*body_ops(&m, 0), vec![Operation::Return { operands: vec![] }]);
}

#[test]
fn failing_body_returns_nothing() {
    let body = binop(BinOp::Add, lit(Lit::Unit), lit(Lit::I32(1)));
    let m = build_unit(vec![Item::FunDef(Box::new(fun("bad", ScalarTy::I32, body)))]);
    assert_eq!(*body_ops(&m, 0), vec![Operation::Return { operands: vec![] }]);
}

#[test]
fn build_item_skips_declarations_free_of_bodies() {
    let mut builder = MlirBuilder::new(IrModule { functions: vec![] });
    builder.build_item(&Item::FunDef(Box::new(fun("one", ScalarTy::I32, lit(Lit::I32(1))))));
    let m = builder.into_module();
    assert_eq!(m.functions.len(), 1);
    assert_eq!(m.functions[0].name, "one");
}

#[test]
fn generation_takes_the_module_path() {
    let unit = CompilUnit {
        items: vec![Item::FunDef(Box::new(fun("main", ScalarTy::I32, lit(Lit::I32(3)))))],
    };
    assert!(!needs_hivm_address_space(&unit));
    match gen_checked(&unit, false) {
        Ok(CodegenOutput::Module(m)) => {
            assert_eq!(m.functions.len(), 1);
            assert_eq!(m.functions[0].name, "main");
        }
        _ => panic!("expected a module"),
    }
}

#[test]
fn verification_verdict_decides_the_result() {
    assert_eq!(checked_module_text(true, "module {}".to_string()), Ok("module {}".to_string()));
    assert_eq!(
        checked_module_text(false, "module {}".to_string()),
        Err("MLIR module building failed: MLIR error: MLIR module verification failed".to_string())
    );
}

fn unit_of(body: Expr) -> CompilUnit {
    CompilUnit { items: vec![Item::FunDef(Box::new(fun("main", ScalarTy::I32, body)))] }
}

#[test]
fn supported_programs_are_recognised() {
    let body = seq(vec![let_("a", lit(Lit::I32(1))), binop(BinOp::Mul, var("a"), var("a"))]);
    assert!(lowering_supported(&unit_of(body)));
}

#[test]
fn unsupported_constructs_are_recognised() {
    let while_loop =
        expr(ExprKind::While(Box::new(lit(Lit::Bool(true))), Box::new(lit(Lit::Unit))));
    assert!(!lowering_supported(&unit_of(while_loop)));

    let tuple_let = expr(ExprKind::Let(Pattern::Tuple(vec![]), None, Box::new(lit(Lit::I32(1)))));
    assert!(!lowering_supported(&unit_of(tuple_let)));

    // *p = 1 where p is unbound: the store has no memref.
    let deref_assign = expr(ExprKind::Assign(
        Box::new(PlaceExpr::new(PlaceExprKind::Deref(Box::new(PlaceExpr::new(
            PlaceExprKind::Ident(Ident::new("p")),
        ))))),
        Box::new(lit(Lit::I32(1))),
    ));
    assert!(!lowering_supported(&unit_of(deref_assign)));

    let halved = expr(ExprKind::ForNat(
        Ident::new("i"),
        NatRange::Halved { upper: Nat::Lit(8) },
        Box::new(lit(Lit::Unit)),
    ));
    assert!(!lowering_supported(&unit_of(halved)));
}

#[test]
fn constructs_after_a_failure_are_not_reached() {
    // (() + 1); while true {}  -- lowering stops at the failing addition.
    let body = seq(vec![
        binop(BinOp::Add, lit(Lit::Unit), lit(Lit::I32(1))),
        expr(ExprKind::While(Box::new(lit(Lit::Bool(true))), Box::new(lit(Lit::Unit)))),
    ]);
    assert!(lowering_supported(&unit_of(body)));
}

#[test]
fn unbound_loop_bound_skips_the_loop_body() {
    // for i in 0..n { while true {} } with n unbound: nothing is lowered.
    let body = expr(ExprKind::ForNat(
        Ident::new("i"),
        NatRange::Simple { lower: Nat::Lit(0), upper: Nat::Ident(Ident::new("n")) },
        Box::new(expr(ExprKind::While(Box::new(lit(Lit::Bool(true))), Box::new(lit(Lit::Unit))))),
    ));
    assert!(lowering_supported(&unit_of(body)));
}
