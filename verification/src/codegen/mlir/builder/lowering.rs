//! The operations that lowering appends and the bindings it leaves.
//!
//! `lowers(e, before, after, r)` says that lowering `e` from the context
//! `before` ends in the context `after` with the result `r`: which operations
//! are appended to the current block, in which order and on which values,
//! which values are defined, to which value each name is bound, and which
//! error is reported.  A construct lowered in parts is related through the
//! contexts between its parts.
use vstd::prelude::*;

use crate::ast::{Expr, ExprKind, Ident, Lit, Nat, NatRange, Pattern, PlaceExpr, PlaceExprKind, Ty};
use crate::codegen::mlir::error::{MlirError, MlirErrorView};
use crate::codegen::mlir::ir::{
    types_model, ConstantAttr, IrBlock, MlirType, Operation, TypeModel,
};
use crate::codegen::mlir::to_mlir::types::ty_model;
use super::context::{appends_value, binds, rank0_memref, MlirContext};
use super::literal::{attr_type, literal_attr};
use super::ops::{arith_op_of, arith_result_type, nat_arith_op_of};
use super::outcome::{
    callee_results, expr_size, exprs_size, lemma_expr_size_pos, missing_if_cond_msg,
    missing_if_else_cond_msg, missing_lhs_msg, missing_operand_msg, missing_rhs_msg,
    unknown_ref_msg,
};

verus! {

/// An intermediate context `c` together with what came with it.  It holds
/// of every such pair; naming one points the prover at it as a witness.
pub open spec fn between<R>(c: MlirContext, x: R) -> bool {
    true
}

/// `r` is the general error with message `msg`.
pub open spec fn fails_with(r: Result<Option<usize>, MlirError>, msg: Seq<char>) -> bool {
    r matches Err(x) && x@ == MlirErrorView::General(msg)
}

/// The operands of a yield of an optional value.
pub open spec fn opt_seq(v: Option<usize>) -> Seq<usize> {
    match v {
        Some(x) => seq![x],
        None => Seq::empty(),
    }
}

/// `after` is `c` with `name` bound to `v`; nothing else changes.
pub open spec fn rebinds(c: MlirContext, after: MlirContext, name: Seq<char>, v: usize) -> bool {
    &&& after.lookup(name) == Some(v)
    &&& forall|k: Seq<char>| k != name ==> #[trigger] after.lookup(k) == c.lookup(k)
    &&& after.current_block == c.current_block
    &&& after.value_types == c.value_types
    &&& after.function_results == c.function_results
}

/// Binding the value `v` to a pattern: a name is bound to it; a wildcard
/// binds nothing.
pub open spec fn binds_pattern(pat: Pattern, v: usize, c: MlirContext, after: MlirContext) -> bool {
    match pat {
        Pattern::Ident(_, i) => rebinds(c, after, i.name@, v),
        _ => after == c,
    }
}

/// `after` is `c` with one `memref.alloca` of type `t` appended, defining
/// the value `m`.
pub open spec fn alloca_appended(c: MlirContext, after: MlirContext, m: usize, t: TypeModel) -> bool {
    &&& after.current_block@.last() matches Operation::Alloca { result, ty } && result == m && ty@ == t
    &&& appends_value(c, after, after.current_block@.last(), m, t)
}

/// `after` is `c` with an `index` constant `n` appended, defining `v`.
pub open spec fn index_constant_appended(c: MlirContext, after: MlirContext, v: usize, n: i64) -> bool {
    &&& after.current_block@.last() matches Operation::Constant {
        result,
        attr: ConstantAttr::Integer { ty, value },
    } && result == v && ty@ == TypeModel::Index && value == n
    &&& appends_value(c, after, after.current_block@.last(), v, TypeModel::Index)
}

/// Lowering a natural-number term: a literal appends an `index` constant,
/// a name gives its bound value (none when unbound), an operation appends
/// the `arith` operation on its operands' values.
pub open spec fn nat_lowers(n: Nat, before: MlirContext, after: MlirContext, r: Option<usize>) -> bool
    decreases n,
{
    match n {
        Nat::Lit(l) => r matches Some(v) && index_constant_appended(before, after, v, l as i64),
        Nat::Ident(i) => after == before && r == before.lookup(i.name@),
        Nat::BinOp(op, l, rr) => exists|c1: MlirContext, r1: Option<usize>|
            #![trigger between(c1, r1)]
            between(c1, r1) &&
            nat_lowers(*l, before, c1, r1) && match r1 {
                None => after == c1 && r is None,
                Some(lv) => exists|c2: MlirContext, r2: Option<usize>|
                    #![trigger between(c2, r2)]
                    between(c2, r2) &&
                    nat_lowers(*rr, c1, c2, r2) && match r2 {
                        None => after == c2 && r is None,
                        Some(rv) => r matches Some(v) && appends_value(
                            c2,
                            after,
                            Operation::Arith { result: v, op: nat_arith_op_of(op), lhs: lv, rhs: rv },
                            v,
                            c2.value_types@[lv as int]@,
                        ),
                    },
            },
        _ => after == before && r is None,
    }
}

/// Reading a place: a name gives its bound value (none when unbound); a
/// dereference appends a `memref.load` of an `i32` from the memref its
/// inner place gives.
pub open spec fn place_lowers(
    p: PlaceExpr,
    before: MlirContext,
    after: MlirContext,
    r: Result<Option<usize>, MlirError>,
) -> bool
    decreases p,
{
    match p.pl_expr {
        PlaceExprKind::Ident(i) => after == before && r == Ok::<Option<usize>, MlirError>(
            before.lookup(i.name@),
        ),
        PlaceExprKind::Deref(inner) => exists|c1: MlirContext, r1: Result<Option<usize>, MlirError>|
            #![trigger between(c1, r1)]
            between(c1, r1) &&
            place_lowers(*inner, before, c1, r1) && match r1 {
                Ok(Some(m)) => r matches Ok(Some(v)) && after.current_block@.last() matches Operation::Load {
                    result,
                    memref,
                    ty,
                } && result == v && memref == m && ty@ == TypeModel::Integer(32) && appends_value(
                    c1,
                    after,
                    after.current_block@.last(),
                    v,
                    TypeModel::Integer(32),
                ),
                _ => after == c1 && r matches Ok(None),
            },
        _ => after == before && r matches Ok(None),
    }
}

/// Taking the address of a bound name: a `memref.alloca` of a rank-0
/// `memref<i32>`, then a `memref.store` of the name's value into it; the
/// memref is the result.
pub open spec fn ref_lowers(
    p: PlaceExpr,
    before: MlirContext,
    after: MlirContext,
    r: Result<Option<usize>, MlirError>,
) -> bool {
    match p.pl_expr {
        PlaceExprKind::Ident(i) => match before.lookup(i.name@) {
            None => after == before && fails_with(r, unknown_ref_msg()),
            Some(val) => {
                let m = before.value_types@.len();
                let b = before.current_block@.len() as int;
                &&& r == Ok::<Option<usize>, MlirError>(Some(m as usize))
                &&& after.value_types@.len() == m + 1
                &&& after.value_types@.drop_last() == before.value_types@
                &&& after.value_types@.last()@ == rank0_memref(TypeModel::Integer(32))
                &&& after.current_block@.len() == b + 2
                &&& after.current_block@.take(b) == before.current_block@
                &&& after.current_block@[b] matches Operation::Alloca { result, ty } && result == m
                    && ty@ == rank0_memref(TypeModel::Integer(32))
                &&& after.current_block@[b + 1] == Operation::Store { value: val, memref: m as usize }
                &&& after.variables == before.variables
                &&& after.function_results == before.function_results
            },
        },
        _ => after == before && r matches Ok(None),
    }
}

/// The result types recorded for a callee, none when it is unknown.
pub open spec fn callee_types(fns: Seq<(String, Vec<MlirType>)>, name: Seq<char>) -> Seq<TypeModel> {
    match callee_results(fns, name) {
        Some(ts) => types_model(ts),
        None => Seq::empty(),
    }
}

/// `after` is `mid` with one `func.call` of `name` on the operands `vs`
/// appended, defining one value per result type recorded for the callee;
/// the result is the first of them, if any.
pub open spec fn call_appended(
    name: Seq<char>,
    vs: Seq<usize>,
    mid: MlirContext,
    after: MlirContext,
    r: Result<Option<usize>, MlirError>,
) -> bool {
    let rts = callee_types(mid.function_results@, name);
    let n = mid.value_types@.len();
    &&& after.variables == mid.variables
    &&& after.function_results == mid.function_results
    &&& after.value_types@.len() == n + rts.len()
    &&& after.value_types@.take(n as int) == mid.value_types@
    &&& forall|j: int| 0 <= j < rts.len() ==> after.value_types@[n + j]@ == #[trigger] rts[j]
    &&& after.current_block@.len() == mid.current_block@.len() + 1
    &&& after.current_block@.drop_last() == mid.current_block@
    &&& after.current_block@.last() matches Operation::Call { callee, operands, result_types, results }
        && callee@ == name && operands@ == vs && types_model(result_types@) == rts && results@
        == Seq::new(rts.len(), |j: int| (n + j) as usize)
    &&& r == Ok::<Option<usize>, MlirError>(
        if rts.len() == 0 {
            None
        } else {
            Some(n as usize)
        },
    )
}

/// Lowering an expression.
pub open spec fn lowers(
    e: Expr,
    before: MlirContext,
    after: MlirContext,
    r: Result<Option<usize>, MlirError>,
) -> bool
    decreases expr_size(e), 0int,
{
    match e.expr {
        ExprKind::Hole => after == before && r matches Ok(None),
        ExprKind::Lit(l) => if l is Unit {
            after == before && r matches Ok(None)
        } else {
            r matches Ok(Some(v)) && appends_value(
                before,
                after,
                Operation::Constant { result: v, attr: literal_attr(l) },
                v,
                attr_type(literal_attr(l)),
            )
        },
        ExprKind::Block(b) => lowers(*b.body, before, after, r),
        ExprKind::BinOp(op, l, rr) => binop_lowers(op, *l, *rr, before, after, r),
        ExprKind::Let(pat, ty, v) => let_lowers(pat, ty, *v, before, after, r),
        ExprKind::PlaceExpr(p) => place_lowers(*p, before, after, r),
        ExprKind::Sequence(es) => seq_lowers(es@, before, after, r),
        ExprKind::Ref(_, _, p) => ref_lowers(*p, before, after, r),
        ExprKind::Assign(p, v) => assign_lowers(*p, *v, before, after, r),
        ExprKind::App(f, _, args) => call_lowers(f.name@, args@, before, after, r),
        ExprKind::IfElse(c, t, f) => if_else_lowers(*c, *t, *f, before, after, r),
        ExprKind::If(c, t) => if_lowers(*c, *t, before, after, r),
        ExprKind::ForNat(i, range, body) => for_lowers(i, range, *body, before, after, r),
        ExprKind::Unsafe(inner) => lowers(*inner, before, after, r),
        _ => after == before && r matches Ok(None),
    }
}

/// A binary operation: the left operand, then the right one, then the
/// `arith` operation on their values, which is the result.  An operand
/// without a value is an error, and nothing more is lowered.
pub open spec fn binop_lowers(
    op: crate::ast::BinOp,
    l: Expr,
    rr: Expr,
    before: MlirContext,
    after: MlirContext,
    r: Result<Option<usize>, MlirError>,
) -> bool
    decreases expr_size(l) + expr_size(rr), 1int,
{
    exists|c1: MlirContext, r1: Result<Option<usize>, MlirError>|
        #![trigger between(c1, r1)]
        between(c1, r1) &&
        lowers(l, before, c1, r1) && match r1 {
            Err(_) => after == c1 && r == r1,
            Ok(None) => after == c1 && fails_with(r, missing_lhs_msg()),
            Ok(Some(lv)) => exists|c2: MlirContext, r2: Result<Option<usize>, MlirError>|
                #![trigger between(c2, r2)]
                between(c2, r2) &&
                lowers(rr, c1, c2, r2) && match r2 {
                    Err(_) => after == c2 && r == r2,
                    Ok(None) => after == c2 && fails_with(r, missing_rhs_msg()),
                    Ok(Some(rv)) => r matches Ok(Some(v)) && appends_value(
                        c2,
                        after,
                        Operation::Arith { result: v, op: arith_op_of(op), lhs: lv, rhs: rv },
                        v,
                        arith_result_type(arith_op_of(op), c2.value_types@[lv as int]@),
                    ),
                },
        }
}

/// A let binding: the value, bound to the pattern.  Without a value, a
/// `memref.alloca` of the annotated type is appended and bound instead;
/// without an annotation nothing is bound.
pub open spec fn let_lowers(
    pat: Pattern,
    ty: Option<Box<Ty>>,
    v: Expr,
    before: MlirContext,
    after: MlirContext,
    r: Result<Option<usize>, MlirError>,
) -> bool
    decreases expr_size(v), 1int,
{
    exists|c1: MlirContext, r1: Result<Option<usize>, MlirError>|
        #![trigger between(c1, r1)]
        between(c1, r1) &&
        lowers(v, before, c1, r1) && match r1 {
            Err(_) => after == c1 && r == r1,
            Ok(Some(val)) => r matches Ok(None) && binds_pattern(pat, val, c1, after),
            Ok(None) => match ty {
                None => after == c1 && r matches Ok(None),
                Some(t) => r matches Ok(None) && exists|c2: MlirContext|
                    #![trigger between(c2, ())]
                    between(c2, ()) &&
                    alloca_appended(c1, c2, c1.value_types@.len() as usize, ty_model(*t))
                        && binds_pattern(pat, c1.value_types@.len() as usize, c2, after),
            },
        }
}

/// An assignment: the value, then to a name its rebinding, through a
/// reference a `memref.store` into the memref the inner place gives.
pub open spec fn assign_lowers(
    p: PlaceExpr,
    v: Expr,
    before: MlirContext,
    after: MlirContext,
    r: Result<Option<usize>, MlirError>,
) -> bool
    decreases expr_size(v), 1int,
{
    exists|c1: MlirContext, r1: Result<Option<usize>, MlirError>|
        #![trigger between(c1, r1)]
        between(c1, r1) &&
        lowers(v, before, c1, r1) && match r1 {
            Err(_) => after == c1 && r == r1,
            Ok(None) => after == c1 && r matches Ok(None),
            Ok(Some(val)) => r matches Ok(None) && match p.pl_expr {
                PlaceExprKind::Ident(i) => rebinds(c1, after, i.name@, val),
                PlaceExprKind::Deref(inner) => exists|c2: MlirContext, rp: Result<Option<usize>, MlirError>|
                    #![trigger between(c2, rp)]
                    between(c2, rp) &&
                    place_lowers(*inner, c1, c2, rp) && match rp {
                        Ok(Some(m)) => after.current_block@ == c2.current_block@.push(
                            Operation::Store { value: val, memref: m },
                        ) && after.value_types == c2.value_types && after.variables == c2.variables
                            && after.function_results == c2.function_results,
                        _ => after == c2,
                    },
                _ => after == c1,
            },
        }
}

/// A sequence: each expression in turn; the result is the last one's.  The
/// first error ends it.
pub open spec fn seq_lowers(
    es: Seq<Expr>,
    before: MlirContext,
    after: MlirContext,
    r: Result<Option<usize>, MlirError>,
) -> bool
    decreases exprs_size(es), 1int,
{
    if es.len() == 0 {
        after == before && r matches Ok(None)
    } else {
        proof {
            lemma_expr_size_pos(es.last());
        }
        exists|mid: MlirContext, rm: Result<Option<usize>, MlirError>|
            #![trigger between(mid, rm)]
            between(mid, rm) &&
            seq_lowers(es.drop_last(), before, mid, rm) && match rm {
                Err(_) => after == mid && r == rm,
                Ok(_) => lowers(es.last(), mid, after, r),
            }
    }
}

/// Call arguments: each in turn; the result is their values in order.  The
/// first error, or an argument without a value, ends it.
pub open spec fn args_lowers(
    args: Seq<Expr>,
    before: MlirContext,
    after: MlirContext,
    r: Result<Seq<usize>, MlirError>,
) -> bool
    decreases exprs_size(args), 1int,
{
    if args.len() == 0 {
        after == before && r == Ok::<Seq<usize>, MlirError>(Seq::empty())
    } else {
        proof {
            lemma_expr_size_pos(args.last());
        }
        exists|mid: MlirContext, rm: Result<Seq<usize>, MlirError>|
            #![trigger between(mid, rm)]
            between(mid, rm) &&
            args_lowers(args.drop_last(), before, mid, rm) && match rm {
                Err(x) => after == mid && r == Err::<Seq<usize>, MlirError>(x),
                Ok(vs) => exists|c2: MlirContext, r2: Result<Option<usize>, MlirError>|
                    #![trigger between(c2, r2)]
                    between(c2, r2) &&
                    lowers(args.last(), mid, c2, r2) && after == c2 && match r2 {
                        Err(x) => r == Err::<Seq<usize>, MlirError>(x),
                        Ok(None) => r matches Err(x) && x@ == MlirErrorView::General(
                            missing_operand_msg(),
                        ),
                        Ok(Some(v)) => r == Ok::<Seq<usize>, MlirError>(vs.push(v)),
                    },
            }
    }
}

/// A call: the arguments, then one `func.call` on their values.
pub open spec fn call_lowers(
    name: Seq<char>,
    args: Seq<Expr>,
    before: MlirContext,
    after: MlirContext,
    r: Result<Option<usize>, MlirError>,
) -> bool
    decreases exprs_size(args), 2int,
{
    exists|mid: MlirContext, ra: Result<Seq<usize>, MlirError>|
        #![trigger between(mid, ra)]
        between(mid, ra) &&
        args_lowers(args, before, mid, ra) && match ra {
            Err(x) => after == mid && r == Err::<Option<usize>, MlirError>(x),
            Ok(vs) => call_appended(name, vs, mid, after, r),
        }
}

/// `blk` holds the operations `ops` followed by a yield of `v`.
pub open spec fn block_yields(blk: IrBlock, ops: Seq<Operation>, v: Option<usize>) -> bool {
    &&& blk.arguments@.len() == 0
    &&& blk.operations@.len() == ops.len() + 1
    &&& blk.operations@.drop_last() == ops
    &&& blk.operations@.last() matches Operation::Yield { operands } && operands@ == opt_seq(v)
}

/// A region of its own: `e` is lowered into an empty block with the
/// bindings of `before`; the block ends in a yield of its value.  Afterwards
/// the current block is that of `before`, and on success so are the
/// bindings.
pub open spec fn region_lowers(
    e: Expr,
    before: MlirContext,
    after: MlirContext,
    r: Result<(IrBlock, Option<usize>), MlirError>,
) -> bool
    decreases expr_size(e), 1int,
{
    exists|ci: MlirContext, co: MlirContext, ri: Result<Option<usize>, MlirError>|
        #![trigger between(co, (ci, ri))]
        between(co, (ci, ri)) &&
        {
            &&& ci.current_block@.len() == 0
            &&& ci.variables == before.variables
            &&& ci.value_types == before.value_types
            &&& ci.function_results == before.function_results
            &&& lowers(e, ci, co, ri)
            &&& after.current_block == before.current_block
            &&& after.value_types == co.value_types
            &&& after.function_results == co.function_results
            &&& match ri {
                Err(x) => r == Err::<(IrBlock, Option<usize>), MlirError>(x) && after.variables
                    == co.variables,
                Ok(v) => after.variables@ == before.variables@ && (r matches Ok((blk, rv)) && rv == v
                    && block_yields(blk, co.current_block@, v)),
            }
        }
}

/// `after` is `c` with one `scf.if` on `cv` appended, with the regions
/// `tb` and `fb`; it has one result of the type of `tv` when the then-region
/// yields `tv`, and the conditional's result is that.
pub open spec fn if_appended(
    cv: usize,
    tb: IrBlock,
    fb: IrBlock,
    tv: Option<usize>,
    c: MlirContext,
    after: MlirContext,
    r: Result<Option<usize>, MlirError>,
) -> bool {
    let n = c.value_types@.len();
    &&& after.variables == c.variables
    &&& after.function_results == c.function_results
    &&& after.current_block@.len() == c.current_block@.len() + 1
    &&& after.current_block@.drop_last() == c.current_block@
    &&& after.current_block@.last() matches Operation::If {
        condition,
        result_types,
        then_region,
        else_region,
        results,
    } && condition == cv && then_region == tb && else_region == fb && match tv {
        None => result_types@.len() == 0 && results@.len() == 0 && after.value_types == c.value_types
            && r matches Ok(None),
        Some(val) => result_types@.len() == 1 && result_types@[0]@ == c.value_types@[val as int]@
            && results@ == seq![n as usize] && after.value_types@.len() == n + 1
            && after.value_types@.drop_last() == c.value_types@ && after.value_types@.last()@
            == c.value_types@[val as int]@ && r == Ok::<Option<usize>, MlirError>(Some(n as usize)),
    }
}

/// A two-armed conditional: the condition, the then-region from the first
/// arm, the else-region from the second, then one `scf.if`.  A condition
/// without a value is an error, and no arm is lowered.
pub open spec fn if_else_lowers(
    c: Expr,
    t: Expr,
    f: Expr,
    before: MlirContext,
    after: MlirContext,
    r: Result<Option<usize>, MlirError>,
) -> bool
    decreases expr_size(c) + expr_size(t) + expr_size(f), 2int,
{
    exists|c1: MlirContext, rc: Result<Option<usize>, MlirError>|
        #![trigger between(c1, rc)]
        between(c1, rc) &&
        lowers(c, before, c1, rc) && match rc {
            Err(_) => after == c1 && r == rc,
            Ok(None) => after == c1 && fails_with(r, missing_if_else_cond_msg()),
            Ok(Some(cv)) => exists|c2: MlirContext, rt: Result<(IrBlock, Option<usize>), MlirError>|
                #![trigger between(c2, rt)]
                between(c2, rt) &&
                region_lowers(t, c1, c2, rt) && match rt {
                    Err(x) => after == c2 && r == Err::<Option<usize>, MlirError>(x),
                    Ok((tb, tv)) => exists|c3: MlirContext, rf: Result<(IrBlock, Option<usize>), MlirError>|
                        #![trigger between(c3, rf)]
                        between(c3, rf) &&
                        region_lowers(f, c2, c3, rf) && match rf {
                            Err(x) => after == c3 && r == Err::<Option<usize>, MlirError>(x),
                            Ok((fb, _)) => if_appended(cv, tb, fb, tv, c3, after, r),
                        },
                },
        }
}

/// The else-region of a one-armed conditional: only a yield of nothing.
pub open spec fn empty_else(b: IrBlock) -> bool {
    &&& b.arguments@.len() == 0
    &&& b.operations@.len() == 1
    &&& b.operations@[0] matches Operation::Yield { operands } && operands@.len() == 0
}

/// A one-armed conditional: the condition, the then-region from the arm,
/// then one `scf.if` without results whose else-region only yields.
pub open spec fn if_lowers(
    c: Expr,
    t: Expr,
    before: MlirContext,
    after: MlirContext,
    r: Result<Option<usize>, MlirError>,
) -> bool
    decreases expr_size(c) + expr_size(t), 2int,
{
    exists|c1: MlirContext, rc: Result<Option<usize>, MlirError>|
        #![trigger between(c1, rc)]
        between(c1, rc) &&
        lowers(c, before, c1, rc) && match rc {
            Err(_) => after == c1 && r == rc,
            Ok(None) => after == c1 && fails_with(r, missing_if_cond_msg()),
            Ok(Some(cv)) => exists|c2: MlirContext, rt: Result<(IrBlock, Option<usize>), MlirError>|
                #![trigger between(c2, rt)]
                between(c2, rt) &&
                region_lowers(t, c1, c2, rt) && match rt {
                    Err(x) => after == c2 && r == Err::<Option<usize>, MlirError>(x),
                    Ok((tb, _)) => {
                        &&& after.variables == c2.variables
                        &&& after.function_results == c2.function_results
                        &&& after.value_types == c2.value_types
                        &&& after.current_block@.len() == c2.current_block@.len() + 1
                        &&& after.current_block@.drop_last() == c2.current_block@
                        &&& after.current_block@.last() matches Operation::If {
                            condition,
                            result_types,
                            then_region,
                            else_region,
                            results,
                        } && condition == cv && then_region == tb && empty_else(else_region)
                            && result_types@.len() == 0 && results@.len() == 0
                        &&& r matches Ok(None)
                    },
                },
        }
}

/// The values still bound, at the end of a loop body `c`, to the carried
/// names `vars`, in order.
pub open spec fn still_bound(vars: Seq<(String, usize)>, c: MlirContext) -> Seq<usize>
    decreases vars.len(),
{
    if vars.len() == 0 {
        Seq::empty()
    } else {
        still_bound(vars.drop_last(), c) + match c.lookup(vars.last().0@) {
            Some(v) => seq![v],
            None => Seq::empty(),
        }
    }
}

/// The context in which a loop body starts: an empty block, the induction
/// variable `t0` of type `index`, and one value per carried variable of `c`
/// after it, of that variable's type and bound to its name; the loop
/// variable is bound to the induction variable unless a carried variable has
/// its name.
pub open spec fn loop_entry(i: Ident, c: MlirContext, cb: MlirContext) -> bool {
    let vars = c.variables@;
    let n = vars.len();
    let t0 = c.value_types@.len();
    &&& cb.current_block@.len() == 0
    &&& cb.function_results == c.function_results
    &&& cb.value_types@.len() == t0 + 1 + n
    &&& cb.value_types@.take(t0 as int) == c.value_types@
    &&& cb.value_types@[t0 as int]@ == TypeModel::Index
    &&& forall|j: int|
        0 <= j < n ==> cb.value_types@[t0 + 1 + j]@ == c.value_types@[#[trigger] vars[j].1 as int]@
            && cb.lookup(vars[j].0@) == Some((t0 + 1 + j) as usize)
    &&& !binds(vars, i.name@) ==> cb.lookup(i.name@) == Some(t0 as usize)
    &&& forall|k: Seq<char>| !binds(vars, k) && k != i.name@ ==> #[trigger] cb.lookup(k) is None
}

/// After a loop body ending in `co`: `after` is `c` with one `scf.for` from
/// `lv` to `uv` with step `sv` appended, whose initial arguments are the
/// values of the carried variables of `c`, whose body holds the body's
/// operations and a yield of the values still bound to them, and which
/// defines one result per carried variable; each carried variable is then
/// bound to its result, the loop variable is unbound, and the other names
/// keep their bindings from the end of the body.
pub open spec fn loop_exit(
    i: Ident,
    lv: usize,
    uv: usize,
    sv: usize,
    c: MlirContext,
    co: MlirContext,
    after: MlirContext,
) -> bool {
    let vars = c.variables@;
    let n = vars.len();
    let t0 = c.value_types@.len();
    let t1 = co.value_types@.len();
    &&& after.function_results == c.function_results
    &&& after.value_types@.len() == t1 + n
    &&& after.value_types@.take(t1 as int) == co.value_types@
    &&& forall|j: int|
        0 <= j < n ==> after.value_types@[t1 + j]@ == c.value_types@[#[trigger] vars[j].1 as int]@
            && after.lookup(vars[j].0@) == (if vars[j].0@ == i.name@ {
            None
        } else {
            Some((t1 + j) as usize)
        })
    &&& after.lookup(i.name@) is None
    &&& forall|k: Seq<char>| !binds(vars, k) && k != i.name@ ==> #[trigger] after.lookup(k) == co.lookup(k)
    &&& after.current_block@.len() == c.current_block@.len() + 1
    &&& after.current_block@.drop_last() == c.current_block@
    &&& after.current_block@.last() matches Operation::For { lower, upper, step, init_args, body, results }
        && lower == lv && upper == uv && step == sv && init_args@ == vars.map_values(
        |p: (String, usize)| p.1,
    ) && body.arguments@ == Seq::new((n + 1) as nat, |j: int| (t0 + j) as usize)
        && body.operations@.len() == co.current_block@.len() + 1 && body.operations@.drop_last()
        == co.current_block@ && (body.operations@.last() matches Operation::Yield { operands }
        && operands@ == still_bound(vars, co)) && results@ == Seq::new(n, |j: int| (t1 + j) as usize)
}

/// A loop over a simple range: the lower bound, the upper bound, an `index`
/// constant 1 as the step, then the body in a block of its own, and one
/// `scf.for`.  An error in the body is not reported.  Without a value for a
/// bound nothing more is lowered.
pub open spec fn for_lowers(
    i: Ident,
    range: NatRange,
    body: Expr,
    before: MlirContext,
    after: MlirContext,
    r: Result<Option<usize>, MlirError>,
) -> bool
    decreases expr_size(body), 2int,
{
    match range {
        NatRange::Simple { lower, upper } => r matches Ok(None) && exists|c1: MlirContext, rl: Option<usize>|
            #![trigger between(c1, rl)]
            between(c1, rl) &&
            nat_lowers(lower, before, c1, rl) && match rl {
                None => after == c1,
                Some(lv) => exists|c2: MlirContext, ru: Option<usize>|
                    #![trigger between(c2, ru)]
                    between(c2, ru) &&
                    nat_lowers(upper, c1, c2, ru) && match ru {
                        None => after == c2,
                        Some(uv) => exists|c3: MlirContext, cb: MlirContext, co: MlirContext, rb: Result<Option<usize>, MlirError>|
                            #![trigger between(c3, (cb, co, rb))]
                            between(c3, (cb, co, rb)) &&
                            {
                                &&& index_constant_appended(c2, c3, c2.value_types@.len() as usize, 1)
                                &&& loop_entry(i, c3, cb)
                                &&& lowers(body, cb, co, rb)
                                &&& loop_exit(i, lv, uv, c2.value_types@.len() as usize, c3, co, after)
                            },
                    },
            },
        _ => after == before && r matches Ok(None),
    }
}

/// Once a prefix of a sequence ends in an error, the whole sequence ends in
/// it.
pub proof fn lemma_seq_lowers_stops(
    es: Seq<Expr>,
    k: int,
    before: MlirContext,
    after: MlirContext,
    r: Result<Option<usize>, MlirError>,
)
    requires
        0 <= k <= es.len(),
        r is Err,
        seq_lowers(es.take(k), before, after, r),
    ensures
        seq_lowers(es, before, after, r),
    decreases es.len() - k,
{
    if k < es.len() {
        let t = es.take(k + 1);
        assert(t.drop_last() =~= es.take(k));
        assert(between(after, r));
        assert(seq_lowers(t, before, after, r));
        lemma_seq_lowers_stops(es, k + 1, before, after, r);
    } else {
        assert(es.take(k) =~= es);
    }
}

/// Once a prefix of the arguments ends in an error, all of them end in it.
pub proof fn lemma_args_lowers_stops(
    args: Seq<Expr>,
    k: int,
    before: MlirContext,
    after: MlirContext,
    r: Result<Seq<usize>, MlirError>,
)
    requires
        0 <= k <= args.len(),
        r is Err,
        args_lowers(args.take(k), before, after, r),
    ensures
        args_lowers(args, before, after, r),
    decreases args.len() - k,
{
    if k < args.len() {
        let t = args.take(k + 1);
        assert(t.drop_last() =~= args.take(k));
        assert(between(after, r));
        assert(args_lowers(t, before, after, r));
        lemma_args_lowers_stops(args, k + 1, before, after, r);
    } else {
        assert(args.take(k) =~= args);
    }
}

} // verus!
