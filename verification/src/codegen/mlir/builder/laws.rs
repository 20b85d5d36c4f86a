//! Properties of lowering that span constructs.
use vstd::prelude::*;

use crate::ast::{Expr, Ident, Mutability, NatRange, Pattern, PlaceExpr, PlaceExprKind, Ty};
use crate::codegen::mlir::ir::TypeModel;
use crate::codegen::mlir::error::MlirError;
use crate::codegen::mlir::ir::Operation;
use super::context::MlirContext;
use super::lowering::lowers;
use super::ops::{arith_op_of, nat_arith_op_of};
use crate::ast::{binop_value, int_div_trunc, int_rem_trunc, nat_eval, BinOp, BinOpNat, Nat};
use crate::codegen::mlir::ir::{arith_value, ConstantAttr};
use crate::codegen::mlir::to_mlir::types::scalar_model;
use crate::ast::{lit_int_value, lit_scalar, Lit};
use super::literal::{attr_type, literal_attr};
use super::outcome::{
    assign_outcome, expr_outcome, for_nat_outcome, if_else_outcome, if_outcome, let_outcome,
    outcome_scope, seq_outcome, Outcome, Scope,
};

verus! {

/// Names bound inside the arms of a conditional are not visible after it: a
/// two-armed conditional that succeeds leaves the scope its condition left,
/// and yields a value of the first arm's type exactly when its first arm
/// yields one.
pub proof fn lemma_if_else_restores_scope(
    c: Expr,
    t: Expr,
    f: Expr,
    scope: Scope,
    fns: spec_fn(Seq<char>) -> Option<TypeModel>,
)
    requires
        if_else_outcome(c, t, f, scope, fns) is Built,
    ensures
        expr_outcome(c, scope, fns) is Built,
        if_else_outcome(c, t, f, scope, fns)->Built_scope == outcome_scope(
            expr_outcome(c, scope, fns),
        ),
        expr_outcome(t, outcome_scope(expr_outcome(c, scope, fns)), fns) is Built,
        if_else_outcome(c, t, f, scope, fns)->Built_value == expr_outcome(
            t,
            outcome_scope(expr_outcome(c, scope, fns)),
            fns,
        )->Built_value,
{
}

/// A one-armed conditional that succeeds yields no value and leaves the scope
/// its condition left.
pub proof fn lemma_if_restores_scope(
    c: Expr,
    t: Expr,
    scope: Scope,
    fns: spec_fn(Seq<char>) -> Option<TypeModel>,
)
    requires
        if_outcome(c, t, scope, fns) is Built,
    ensures
        expr_outcome(c, scope, fns) is Built,
        if_outcome(c, t, scope, fns)->Built_scope == outcome_scope(expr_outcome(c, scope, fns)),
        if_outcome(c, t, scope, fns)->Built_value is None,
{
}

/// A loop yields no value, never reports an error, leaves its loop variable
/// unbound, and keeps every other variable bound before it with its type
/// from before the loop.
pub proof fn lemma_loop_scope(
    i: Ident,
    range: NatRange,
    body: Expr,
    scope: Scope,
    fns: spec_fn(Seq<char>) -> Option<TypeModel>,
)
    requires
        !(for_nat_outcome(i, range, body, scope, fns) is Unsupported),
    ensures
        for_nat_outcome(i, range, body, scope, fns) is Built,
        for_nat_outcome(i, range, body, scope, fns)->Built_value is None,
        forall|x: Seq<char>|
            x != i.name@ && scope.contains_key(x) ==> #[trigger] for_nat_outcome(
                i,
                range,
                body,
                scope,
                fns,
            )->Built_scope.contains_key(x) && for_nat_outcome(i, range, body, scope, fns)->Built_scope[x]
                == scope[x],
        !scope.contains_key(i.name@) ==> !for_nat_outcome(
            i,
            range,
            body,
            scope,
            fns,
        )->Built_scope.contains_key(i.name@),
{
}

/// Binding a name with `let` to an expression that yields a value binds the
/// name to the value's type and yields nothing.
pub proof fn lemma_let_binds_name(
    m: Mutability,
    x: Ident,
    ty: Option<Box<Ty>>,
    v: Expr,
    scope: Scope,
    fns: spec_fn(Seq<char>) -> Option<TypeModel>,
)
    requires
        expr_outcome(v, scope, fns) matches Outcome::Built { value: Some(_), scope: _ },
    ensures
        let_outcome(Pattern::Ident(m, x), ty, v, scope, fns) == (Outcome::Built {
            value: None,
            scope: outcome_scope(expr_outcome(v, scope, fns)).insert(
                x.name@,
                expr_outcome(v, scope, fns)->Built_value->Some_0,
            ),
        }),
{
}

/// Assigning a value to a name rebinds the name to the value's type and
/// yields nothing.
pub proof fn lemma_assign_rebinds_name(
    p: PlaceExpr,
    x: Ident,
    v: Expr,
    scope: Scope,
    fns: spec_fn(Seq<char>) -> Option<TypeModel>,
)
    requires
        p.pl_expr == PlaceExprKind::Ident(x),
        expr_outcome(v, scope, fns) matches Outcome::Built { value: Some(_), scope: _ },
    ensures
        assign_outcome(p, v, scope, fns) == (Outcome::Built {
            value: None,
            scope: outcome_scope(expr_outcome(v, scope, fns)).insert(
                x.name@,
                expr_outcome(v, scope, fns)->Built_value->Some_0,
            ),
        }),
{
}

/// A sequence yields what its last expression yields, lowered in the scope
/// the expressions before it left.
pub proof fn lemma_sequence_yields_last(
    es: Seq<Expr>,
    scope: Scope,
    fns: spec_fn(Seq<char>) -> Option<TypeModel>,
)
    requires
        es.len() > 0,
        seq_outcome(es.drop_last(), scope, fns) is Built,
    ensures
        seq_outcome(es, scope, fns) == expr_outcome(
            es.last(),
            outcome_scope(seq_outcome(es.drop_last(), scope, fns)),
            fns,
        ),
{
}

/// A hole builds nothing: it appends no operation, defines no value, binds
/// nothing and yields no value.
pub proof fn lemma_hole_builds_nothing(
    e: Expr,
    before: MlirContext,
    after: MlirContext,
    r: Result<Option<usize>, MlirError>,
)
    requires
        e.expr is Hole,
        lowers(e, before, after, r),
    ensures
        after == before,
        r matches Ok(None),
        forall|scope: Scope, fns: spec_fn(Seq<char>) -> Option<TypeModel>|
            #[trigger] expr_outcome(e, scope, fns) == (Outcome::Built { value: None, scope }),
{
}

/// A block, and an unsafe block, lower exactly as their body: they build
/// what it builds, yield what it yields, fail where it fails, and are
/// supported exactly when it is.
pub proof fn lemma_blocks_build_their_body(
    e: Expr,
    before: MlirContext,
    after: MlirContext,
    r: Result<Option<usize>, MlirError>,
    scope: Scope,
    fns: spec_fn(Seq<char>) -> Option<TypeModel>,
)
    ensures
        e.expr matches crate::ast::ExprKind::Block(b) ==> expr_outcome(e, scope, fns) == expr_outcome(
            *b.body,
            scope,
            fns,
        ),
        e.expr matches crate::ast::ExprKind::Unsafe(inner) ==> expr_outcome(e, scope, fns)
            == expr_outcome(*inner, scope, fns),
        e.expr matches crate::ast::ExprKind::Block(b) ==> (lowers(e, before, after, r) <==> lowers(
            *b.body,
            before,
            after,
            r,
        )),
        e.expr matches crate::ast::ExprKind::Unsafe(inner) ==> (lowers(e, before, after, r)
            <==> lowers(*inner, before, after, r)),
{
}

/// A binary operation that yields a value ends in the `arith` operation of
/// its operator, and yields that operation's result.
pub proof fn lemma_binop_ends_in_arith(
    e: Expr,
    before: MlirContext,
    after: MlirContext,
    v: usize,
)
    requires
        e.expr is BinOp,
        lowers(e, before, after, Ok(Some(v))),
    ensures
        after.current_block@.last() matches Operation::Arith { result, op, lhs: _, rhs: _ }
            && result == v && op == arith_op_of(e.expr->BinOp_0),
{
    reveal_with_fuel(lowers, 2);
}

/// A two-armed conditional that succeeds ends in one `scf.if`.
pub proof fn lemma_if_else_ends_in_if(
    e: Expr,
    before: MlirContext,
    after: MlirContext,
    r: Result<Option<usize>, MlirError>,
)
    requires
        e.expr is IfElse,
        lowers(e, before, after, r),
        r is Ok,
    ensures
        after.current_block@.last() is If,
{
    reveal_with_fuel(lowers, 2);
}

/// A loop over a simple range whose bounds yield values ends in one
/// `scf.for`; it never reports an error.
pub proof fn lemma_loop_never_fails(
    e: Expr,
    before: MlirContext,
    after: MlirContext,
    r: Result<Option<usize>, MlirError>,
)
    requires
        e.expr matches crate::ast::ExprKind::ForNat(_, range, _) && range is Simple,
        lowers(e, before, after, r),
    ensures
        r matches Ok(None),
{
    reveal_with_fuel(lowers, 2);
}

/// The `arith` operation a binary operator lowers to computes what the
/// operator computes, on every pair of operands (truth values for the
/// logical operators): `a - b` subtracts, `a < b` compares, and so on.
pub proof fn lemma_binop_operation_computes(op: BinOp, x: int, y: int)
    requires
        (op is And || op is Or) ==> (x == 0 || x == 1) && (y == 0 || y == 1),
    ensures
        arith_value(arith_op_of(op), x, y) == binop_value(op, x, y),
{
    match op {
        BinOp::And => {
            assert(0i64 & 0i64 == 0i64) by (bit_vector);
            assert(0i64 & 1i64 == 0i64) by (bit_vector);
            assert(1i64 & 0i64 == 0i64) by (bit_vector);
            assert(1i64 & 1i64 == 1i64) by (bit_vector);
        },
        BinOp::Or => {
            assert(0i64 | 0i64 == 0i64) by (bit_vector);
            assert(0i64 | 1i64 == 1i64) by (bit_vector);
            assert(1i64 | 0i64 == 1i64) by (bit_vector);
            assert(1i64 | 1i64 == 1i64) by (bit_vector);
        },
        _ => {},
    }
}

/// The `arith` operation a natural-number operator lowers to computes the
/// term's value: on operands whose term evaluates, the operation gives that
/// value.
pub proof fn lemma_nat_operation_computes(op: BinOpNat, x: usize, y: usize)
    requires
        nat_eval(Nat::BinOp(op, Box::new(Nat::Lit(x)), Box::new(Nat::Lit(y))), Seq::empty()) is Some,
    ensures
        arith_value(nat_arith_op_of(op), x as int, y as int) == nat_eval(
            Nat::BinOp(op, Box::new(Nat::Lit(x)), Box::new(Nat::Lit(y))),
            Seq::empty(),
        )->Some_0 as int,
{
    assert(nat_eval(Nat::Lit(x), Seq::empty()) == Some(x));
    assert(nat_eval(Nat::Lit(y), Seq::empty()) == Some(y));
    match op {
        BinOpNat::Mod => {
            vstd::arithmetic::div_mod::lemma_fundamental_div_mod(x as int, y as int);
            assert(int_div_trunc(x as int, y as int) == (x as int) / (y as int));
            assert(int_rem_trunc(x as int, y as int) == (x as int) % (y as int));
        },
        BinOpNat::Div => {
            assert(int_div_trunc(x as int, y as int) == (x as int) / (y as int));
        },
        _ => {},
    }
}

/// A literal's constant has the MLIR type of the literal's scalar type, and
/// an integer or truth-value literal that fits a signed 64-bit integer keeps
/// its value; a float keeps its bits.
pub proof fn lemma_literal_constant_keeps_type_and_value(l: Lit)
    requires
        !(l is Unit),
    ensures
        attr_type(literal_attr(l)) == scalar_model(lit_scalar(l)),
        lit_int_value(l) is Some && lit_int_value(l)->Some_0 <= i64::MAX ==> (literal_attr(
            l,
        ) matches ConstantAttr::Integer { ty: _, value } && value as int == lit_int_value(
            l,
        )->Some_0),
        l matches Lit::F32(b) ==> (literal_attr(l) matches ConstantAttr::Float { ty: _, bits } && bits
            == b as u64),
        l matches Lit::F64(b) ==> (literal_attr(l) matches ConstantAttr::Float { ty: _, bits } && bits
            == b),
{
}

/// A lowered binary operation that yields a value ends in an operation that
/// computes what the operator computes: a lowered `a - b` ends in a
/// subtraction of its operands' values.
pub proof fn lemma_lowered_binop_computes(
    e: Expr,
    before: MlirContext,
    after: MlirContext,
    v: usize,
    x: int,
    y: int,
)
    requires
        e.expr is BinOp,
        lowers(e, before, after, Ok(Some(v))),
        (e.expr->BinOp_0 is And || e.expr->BinOp_0 is Or) ==> (x == 0 || x == 1) && (y == 0
            || y == 1),
    ensures
        after.current_block@.last() matches Operation::Arith { result, op, lhs: _, rhs: _ }
            && result == v && arith_value(op, x, y) == binop_value(e.expr->BinOp_0, x, y),
{
    lemma_binop_ends_in_arith(e, before, after, v);
    lemma_binop_operation_computes(e.expr->BinOp_0, x, y);
}

} // verus!