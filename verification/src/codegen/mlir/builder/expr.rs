//! Lowering of expressions.
use vstd::prelude::*;

use crate::ast::{BinOp, Expr, ExprKind, Ownership, Pattern, PlaceExpr, PlaceExprKind, Ty};
use crate::codegen::mlir::error::{general_error, MlirError};
use crate::codegen::mlir::ir::{
    lemma_types_model_at, lemma_types_model_len, types_model, MlirType, Operation, TypeModel,
};
use crate::codegen::mlir::to_mlir::types::{ty_model, ToMlir};
use super::context::{
    alloca_memref, alloca_rank0_memref, extends, lemma_appends_value_extends, lemma_extends_refl,
    lemma_extends_trans, lemma_scope_stable, memref_store_rank0, MlirContext,
};
use super::control_flow::{build_if, build_if_else};
use super::literal::build_literal;
use super::loops::build_for_nat;
use super::ops::build_binary_operation;
use super::outcome::{
    args_outcome, binop_outcome, callee_results, callee_value, expr_outcome, expr_size,
    exprs_size, lemma_args_outcome_stops, lemma_expr_size_pos, lemma_exprs_size_bound,
    lemma_seq_outcome_stops, let_outcome, meets, ref_outcome, seq_outcome, Outcome,
};
use super::place::{build_assign, build_place_expr};
use super::lowering::{
    alloca_appended, args_lowers, between, binds_pattern, binop_lowers, call_appended, let_lowers,
    call_lowers, callee_types, lemma_args_lowers_stops, lemma_seq_lowers_stops, lowers, ref_lowers,
    seq_lowers,
};

verus! {

/// Binds the value of `value_expr` to the pattern.  Without a value, a
/// memory slot of the annotated type is allocated and bound instead; without
/// an annotation nothing is bound.  Yields no value.
fn build_let_binding(
    pattern: &Pattern,
    ty: &Option<Box<Ty>>,
    value_expr: &Expr,
    ctx: &mut MlirContext,
) -> (r: Result<Option<usize>, MlirError>)
    requires
        old(ctx).wf(),
        !(let_outcome(*pattern, *ty, *value_expr, old(ctx).scope(), old(ctx).callees())
            is Unsupported),
    ensures
        meets(
            let_outcome(*pattern, *ty, *value_expr, old(ctx).scope(), old(ctx).callees()),
            *old(ctx),
            *final(ctx),
            r,
        ),
        let_lowers(*pattern, *ty, *value_expr, *old(ctx), *final(ctx), r),
    decreases expr_size(*value_expr), 1int,
{
    let r1 = build_expr(value_expr, ctx);
    let ghost c1 = *ctx;
    proof {
        assert(between(c1, r1));
    }
    let value = match r1 {
        Err(e) => return Err(e),
        Ok(Some(v)) => v,
        Ok(None) => match ty {
            Some(t) => {
                let ghost mid = *ctx;
                let mlir_type = t.to_mlir();
                let ghost bound_ty = mlir_type@;
                let v = alloca_memref(ctx, mlir_type)?;
                proof {
                    lemma_appends_value_extends(mid, *ctx, ctx.current_block@.last(), v, mlir_type@);
                    lemma_extends_trans(*old(ctx), mid, *ctx);
                    assert(between(*ctx, ()));
                    assert(alloca_appended(c1, *ctx, c1.value_types@.len() as usize, ty_model(**t)));
                }
                v
            },
            None => return Ok(None),
        },
    };
    let ghost mid = *ctx;
    match pattern {
        Pattern::Ident(_, ident) => {
            ctx.set_var(ident.name.clone(), value);
            proof {
                lemma_extends_refl(*ctx);
                lemma_extends_trans(*old(ctx), mid, *ctx);
            }
        },
        _ => {},
    }
    proof {
        assert(binds_pattern(*pattern, value, mid, *ctx));
    }
    Ok(None)
}

/// Takes the address of a bound name: allocates a rank-0 `memref<i32>`,
/// stores the name's value into it and yields the memref.
fn build_ref_expr(
    _prv: &Option<String>,
    _own: &Ownership,
    place_expr: &PlaceExpr,
    ctx: &mut MlirContext,
) -> (r: Result<Option<usize>, MlirError>)
    requires
        old(ctx).wf(),
        !(ref_outcome(*place_expr, old(ctx).scope()) is Unsupported),
    ensures
        meets(ref_outcome(*place_expr, old(ctx).scope()), *old(ctx), *final(ctx), r),
        ref_lowers(*place_expr, *old(ctx), *final(ctx), r),
{
    match &place_expr.pl_expr {
        PlaceExprKind::Ident(ident) => {
            let val = match ctx.get_var(ident.name.as_str()) {
                Some(v) => v,
                None => {
                    proof {
                        lemma_extends_refl(*ctx);
                    }
                    return Err(general_error("address-of of unknown identifier"));
                },
            };
            let ghost c0 = *ctx;
            let mem = alloca_rank0_memref(ctx, MlirType::Integer(32))?;
            proof {
                lemma_appends_value_extends(
                    c0,
                    *ctx,
                    ctx.current_block@.last(),
                    mem,
                    super::context::rank0_memref(TypeModel::Integer(32)),
                );
            }
            let ghost c1 = *ctx;
            memref_store_rank0(ctx, val, mem)?;
            proof {
                assert(ctx.current_block@.take(c1.current_block@.len() as int)
                    =~= c1.current_block@);
                assert(ctx.value_types@.take(c1.value_types@.len() as int) =~= c1.value_types@);
                lemma_extends_trans(c0, c1, *ctx);
                let b = c0.current_block@.len() as int;
                assert(ctx.current_block@.take(b) =~= c0.current_block@);
                assert(ctx.current_block@[b] == c1.current_block@.last());
            }
            Ok(Some(mem))
        },
        _ => Ok(None),
    }
}

/// Lowers the expressions in turn; yields the value of the last one.
fn build_sequence(exprs: &Vec<Expr>, ctx: &mut MlirContext) -> (r: Result<
    Option<usize>,
    MlirError,
>)
    requires
        old(ctx).wf(),
        !(seq_outcome(exprs@, old(ctx).scope(), old(ctx).callees()) is Unsupported),
    ensures
        meets(seq_outcome(exprs@, old(ctx).scope(), old(ctx).callees()), *old(ctx), *final(ctx), r),
        seq_lowers(exprs@, *old(ctx), *final(ctx), r),
    decreases exprs_size(exprs@), 1int,
{
    let ghost s0 = ctx.scope();
    let ghost fns = ctx.callees();
    let mut last_value: Option<usize> = None;
    let mut i: usize = 0;
    proof {
        lemma_extends_refl(*ctx);
        assert(exprs@.take(0) =~= Seq::<Expr>::empty());
    }
    while i < exprs.len()
        invariant
            i <= exprs@.len(),
            ctx.wf(),
            extends(*old(ctx), *ctx),
            fns == ctx.callees(),
            s0 == old(ctx).scope(),
            fns == old(ctx).callees(),
            !(seq_outcome(exprs@, s0, fns) is Unsupported),
            seq_outcome(exprs@.take(i as int), s0, fns) matches Outcome::Built { value, scope }
                && ctx.scope() == scope && value.is_some() == last_value.is_some() && (
            last_value matches Some(v) ==> ctx.value_types@[v as int]@ == value->Some_0),
            last_value matches Some(v) ==> v < ctx.value_types@.len(),
            seq_lowers(exprs@.take(i as int), *old(ctx), *ctx, Ok::<Option<usize>, MlirError>(last_value)),
        decreases exprs@.len() - i,
    {
        proof {
            lemma_exprs_size_bound(exprs@, i as int);
            assert(exprs@.take(i + 1).drop_last() =~= exprs@.take(i as int));
            assert(exprs@.take(i + 1).last() == exprs@[i as int]);
        }
        proof {
            if expr_outcome(exprs@[i as int], ctx.scope(), fns) is Unsupported {
                lemma_seq_outcome_stops(exprs@, i + 1, s0, fns);
            }
        }
        let ghost before = *ctx;
        let r = build_expr(&exprs[i], ctx);
        proof {
            lemma_extends_trans(*old(ctx), before, *ctx);
            assert(between(before, Ok::<Option<usize>, MlirError>(last_value)));
            assert(seq_lowers(exprs@.take(i + 1), *old(ctx), *ctx, r));
        }
        match r {
            Err(e) => {
                proof {
                    lemma_seq_outcome_stops(exprs@, i + 1, s0, fns);
                    lemma_seq_lowers_stops(exprs@, i + 1, *old(ctx), *ctx, r);
                }
                return Err(e);
            },
            Ok(v) => {
                last_value = v;
            },
        }
        proof {
            if !(seq_outcome(exprs@.take(i + 1), s0, fns) is Built) {
                lemma_seq_outcome_stops(exprs@, i + 1, s0, fns);
            }
        }
        i = i + 1;
    }
    proof {
        assert(exprs@.take(exprs@.len() as int) =~= exprs@);
    }
    Ok(last_value)
}

/// The result types recorded for the callee `name`, or none.
fn callee_result_types(fns: &Vec<(String, Vec<MlirType>)>, name: &str) -> (r: Vec<MlirType>)
    ensures
        types_model(r@) == (match callee_results(fns@, name@) {
            Some(ts) => types_model(ts),
            None => Seq::empty(),
        }),
        r@.len() == (match callee_results(fns@, name@) {
            Some(ts) => ts.len(),
            None => 0,
        }),
{
    let mut i: usize = 0;
    proof {
        assert(fns@.skip(0) =~= fns@);
    }
    while i < fns.len()
        invariant
            i <= fns@.len(),
            callee_results(fns@, name@) == callee_results(fns@.skip(i as int), name@),
        decreases fns@.len() - i,
    {
        proof {
            assert(fns@.skip(i as int)[0] == fns@[i as int]);
            assert(fns@.skip(i as int).drop_first() =~= fns@.skip(i + 1));
        }
        if crate::text::str_equal(fns[i].0.as_str(), name) {
            let src = &fns[i].1;
            let mut out: Vec<MlirType> = Vec::new();
            let mut j: usize = 0;
            while j < src.len()
                invariant
                    j <= src@.len(),
                    types_model(out@) == types_model(src@.take(j as int)),
                    out@.len() == j,
                decreases src@.len() - j,
            {
                let ghost before = out@;
                out.push(src[j].copy());
                proof {
                    assert(out@.drop_last() =~= before);
                    assert(src@.take(j + 1).drop_last() =~= src@.take(j as int));
                }
                j = j + 1;
            }
            proof {
                assert(src@.take(src@.len() as int) =~= src@);
            }
            return out;
        }
        i = i + 1;
    }
    proof {
        assert(fns@.skip(i as int).len() == 0);
    }
    Vec::new()
}

/// Lowers a call: the arguments in turn, then a `func.call` whose result
/// types are those recorded for the callee (none when it is unknown); yields
/// the first result, if any.
fn build_call(
    callee: &String,
    args: &Vec<Expr>,
    ctx: &mut MlirContext,
) -> (r: Result<Option<usize>, MlirError>)
    requires
        old(ctx).wf(),
        !(args_outcome(args@, old(ctx).scope(), old(ctx).callees()) is Unsupported),
    ensures
        meets(
            match args_outcome(args@, old(ctx).scope(), old(ctx).callees()) {
                Outcome::Built { value: _, scope: s } => Outcome::Built {
                    value: callee_value(old(ctx).function_results@, callee@),
                    scope: s,
                },
                other => other,
            },
            *old(ctx),
            *final(ctx),
            r,
        ),
        call_lowers(callee@, args@, *old(ctx), *final(ctx), r),
    decreases exprs_size(args@), 1int,
{
    let ghost s0 = ctx.scope();
    let ghost fns = ctx.callees();
    let mut operands: Vec<usize> = Vec::new();
    let mut i: usize = 0;
    proof {
        lemma_extends_refl(*ctx);
        assert(args@.take(0) =~= Seq::<Expr>::empty());
    }
    while i < args.len()
        invariant
            i <= args@.len(),
            ctx.wf(),
            extends(*old(ctx), *ctx),
            fns == ctx.callees(),
            s0 == old(ctx).scope(),
            fns == old(ctx).callees(),
            !(args_outcome(args@, s0, fns) is Unsupported),
            args_outcome(args@.take(i as int), s0, fns) matches Outcome::Built { value: _, scope }
                && ctx.scope() == scope,
            operands@.len() == i,
            args_lowers(args@.take(i as int), *old(ctx), *ctx, Ok::<Seq<usize>, MlirError>(operands@)),
        decreases args@.len() - i,
    {
        proof {
            lemma_exprs_size_bound(args@, i as int);
            assert(args@.take(i + 1).drop_last() =~= args@.take(i as int));
            assert(args@.take(i + 1).last() == args@[i as int]);
        }
        proof {
            if expr_outcome(args@[i as int], ctx.scope(), fns) is Unsupported {
                lemma_args_outcome_stops(args@, i + 1, s0, fns);
            }
        }
        let ghost before = *ctx;
        let ghost ops_before = operands@;
        let r = build_expr(&args[i], ctx);
        proof {
            lemma_extends_trans(*old(ctx), before, *ctx);
            assert(between(before, Ok::<Seq<usize>, MlirError>(operands@)));
            assert(between(*ctx, r));
        }
        match r {
            Err(e) => {
                proof {
                    lemma_args_outcome_stops(args@, i + 1, s0, fns);
                    assert(args_lowers(args@.take(i + 1), *old(ctx), *ctx, Err::<Seq<usize>, MlirError>(e)));
                    lemma_args_lowers_stops(args@, i + 1, *old(ctx), *ctx, Err::<Seq<usize>, MlirError>(e));
                    assert(between(*ctx, Err::<Seq<usize>, MlirError>(e)));
                }
                return Err(e);
            },
            Ok(Some(v)) => {
                operands.push(v);
                proof {
                    assert(args_lowers(args@.take(i + 1), *old(ctx), *ctx, Ok::<Seq<usize>, MlirError>(operands@)));
                }
            },
            Ok(None) => {
                let e = general_error("Missing operand for function call");
                proof {
                    lemma_args_outcome_stops(args@, i + 1, s0, fns);
                    assert(args_lowers(args@.take(i + 1), *old(ctx), *ctx, Err::<Seq<usize>, MlirError>(e)));
                    lemma_args_lowers_stops(args@, i + 1, *old(ctx), *ctx, Err::<Seq<usize>, MlirError>(e));
                    assert(between(*ctx, Err::<Seq<usize>, MlirError>(e)));
                }
                return Err(e);
            },
        }
        proof {
            if !(args_outcome(args@.take(i + 1), s0, fns) is Built) {
                lemma_args_outcome_stops(args@, i + 1, s0, fns);
            }
        }
        i = i + 1;
    }
    proof {
        assert(args@.take(args@.len() as int) =~= args@);
    }
    let ghost vs = operands@;
    let ghost fns_seq = ctx.function_results@;
    let result_types = callee_result_types(&ctx.function_results, callee.as_str());
    let ghost before_results = *ctx;
    proof {
        lemma_extends_refl(*ctx);
    }
    let mut results: Vec<usize> = Vec::new();
    let mut k: usize = 0;
    while k < result_types.len()
        invariant
            k <= result_types@.len(),
            results@.len() == k,
            ctx.wf(),
            extends(before_results, *ctx),
            ctx.variables == before_results.variables,
            ctx.current_block == before_results.current_block,
            ctx.scope() == before_results.scope(),
            forall|j: int| 0 <= j < k ==> #[trigger] results@[j] < ctx.value_types@.len(),
            k > 0 ==> ctx.value_types@[results@[0] as int]@ == result_types@[0]@,
            ctx.value_types@.len() == before_results.value_types@.len() + k,
            ctx.value_types@.take(before_results.value_types@.len() as int) == before_results.value_types@,
            forall|j: int| 0 <= j < k ==> ctx.value_types@[before_results.value_types@.len() + j]@
                == #[trigger] result_types@[j]@,
            results@ =~= Seq::new(k as nat, |j: int| (before_results.value_types@.len() + j) as usize),
        decreases result_types@.len() - k,
    {
        let ghost c0 = *ctx;
        let v = ctx.new_value(result_types[k].copy());
        proof {
            assert(ctx.value_types@.take(c0.value_types@.len() as int) =~= c0.value_types@);
            lemma_extends_trans(before_results, c0, *ctx);
            assert(ctx.value_types@.take(before_results.value_types@.len() as int)
                =~= before_results.value_types@);
        }
        results.push(v);
        k = k + 1;
    }
    let first: Option<usize> = if results.len() == 0 {
        None
    } else {
        Some(results[0])
    };
    proof {
        match callee_results(fns_seq, callee@) {
            Some(ts) => {
                if ts.len() > 0 {
                    lemma_types_model_at(ts, 0);
                    lemma_types_model_at(result_types@, 0);
                }
                lemma_types_model_len(ts);
                lemma_types_model_len(result_types@);
            },
            None => {},
        }
    }
    let ghost c1 = *ctx;
    let ghost c1_result_types = result_types@;
    ctx.current_block.push(
        Operation::Call { callee: callee.clone(), operands, result_types, results },
    );
    proof {
        assert(ctx.current_block@.take(c1.current_block@.len() as int) =~= c1.current_block@);
        assert(ctx.value_types@.take(c1.value_types@.len() as int) =~= c1.value_types@);
        lemma_extends_trans(*old(ctx), before_results, c1);
        lemma_extends_trans(*old(ctx), c1, *ctx);
        let rts = callee_types(before_results.function_results@, callee@);
        let n = before_results.value_types@.len();
        lemma_types_model_len(c1_result_types);
        assert forall|j: int| 0 <= j < rts.len() implies ctx.value_types@[n + j]@
            == #[trigger] rts[j] by {
            lemma_types_model_at(c1_result_types, j);
            assert(c1.value_types@[n + j]@ == c1_result_types[j]@);
        }
        assert(between(before_results, Ok::<Seq<usize>, MlirError>(vs)));
        assert(call_appended(callee@, vs, before_results, *ctx, Ok::<Option<usize>, MlirError>(first)));
    }
    Ok(first)
}

/// Lowers a binary operation: the left operand, the right operand, then the
/// `arith` operation on their values, which it yields.
fn build_binop(op: BinOp, lhs: &Expr, rhs: &Expr, ctx: &mut MlirContext) -> (r: Result<
    Option<usize>,
    MlirError,
>)
    requires
        old(ctx).wf(),
        !(binop_outcome(op, *lhs, *rhs, old(ctx).scope(), old(ctx).callees()) is Unsupported),
    ensures
        meets(
            binop_outcome(op, *lhs, *rhs, old(ctx).scope(), old(ctx).callees()),
            *old(ctx),
            *final(ctx),
            r,
        ),
        binop_lowers(op, *lhs, *rhs, *old(ctx), *final(ctx), r),
    decreases expr_size(*lhs) + expr_size(*rhs), 1int,
{
    proof {
        lemma_expr_size_pos(*lhs);
        lemma_expr_size_pos(*rhs);
    }
    let r1 = build_expr(lhs, ctx);
    let ghost c1 = *ctx;
    proof {
        assert(between(c1, r1));
    }
    let lhs_value = match r1 {
        Err(e) => return Err(e),
        Ok(Some(v)) => v,
        Ok(None) => return Err(general_error("Missing left operand for binary operation")),
    };
    let r2 = build_expr(rhs, ctx);
    proof {
        assert(between(*ctx, r2));
    }
    let rhs_value = match r2 {
        Err(e) => {
            proof {
                lemma_extends_trans(*old(ctx), c1, *ctx);
            }
            return Err(e);
        },
        Ok(Some(v)) => v,
        Ok(None) => {
            proof {
                lemma_extends_trans(*old(ctx), c1, *ctx);
            }
            return Err(general_error("Missing right operand for binary operation"));
        },
    };
    let ghost c2 = *ctx;
    proof {
        assert(c2.value_types@.take(c1.value_types@.len() as int)[lhs_value as int]
            == c2.value_types@[lhs_value as int]);
    }
    let result_value = build_binary_operation(lhs_value, rhs_value, op, ctx);
    proof {
        lemma_appends_value_extends(
            c2,
            *ctx,
            ctx.current_block@.last(),
            result_value,
            ctx.value_types@[result_value as int]@,
        );
        lemma_extends_trans(*old(ctx), c1, c2);
        lemma_extends_trans(*old(ctx), c2, *ctx);
    }
    Ok(Some(result_value))
}

/// Lowers an expression into the current block.
///
/// Holes, unit literals, lets, assignments, one-armed conditionals and loops
/// yield no value; other literals, operations, references and calls of
/// functions with a result yield one.  Expressions whose lowering reaches a
/// construct the back end does not support are excluded.
pub fn build_expr(expr: &Expr, ctx: &mut MlirContext) -> (r: Result<Option<usize>, MlirError>)
    requires
        old(ctx).wf(),
        !(expr_outcome(*expr, old(ctx).scope(), old(ctx).callees()) is Unsupported),
    ensures
        meets(
            expr_outcome(*expr, old(ctx).scope(), old(ctx).callees()),
            *old(ctx),
            *final(ctx),
            r,
        ),
        lowers(*expr, *old(ctx), *final(ctx), r),
    decreases expr_size(*expr), 0int,
{
    match &expr.expr {
        ExprKind::Hole => {
            proof {
                lemma_extends_refl(*ctx);
            }
            Ok(None)
        },
        ExprKind::Lit(lit) => {
            let ghost c0 = *ctx;
            let r = build_literal(lit, ctx);
            proof {
                if lit is Unit {
                    lemma_extends_refl(*ctx);
                } else {
                    let v = r->Ok_0->Some_0;
                    lemma_appends_value_extends(
                        c0,
                        *ctx,
                        ctx.current_block@.last(),
                        v,
                        ctx.value_types@[v as int]@,
                    );
                }
            }
            r
        },
        ExprKind::Block(block_expr) => build_expr(&block_expr.body, ctx),
        ExprKind::BinOp(op, lhs, rhs) => build_binop(*op, lhs, rhs, ctx),
        ExprKind::Let(pattern, ty, value_expr) => build_let_binding(pattern, ty, value_expr, ctx),
        ExprKind::PlaceExpr(place_expr) => {
            let r = build_place_expr(place_expr, ctx);
            proof {
                lemma_scope_stable(ctx.variables@, old(ctx).value_types@, ctx.value_types@);
            }
            r
        },
        ExprKind::Sequence(exprs) => build_sequence(exprs, ctx),
        ExprKind::Ref(prv, own, place_expr) => build_ref_expr(prv, own, place_expr, ctx),
        ExprKind::Assign(place_expr, value_expr) => build_assign(place_expr, value_expr, ctx),
        ExprKind::App(ident, _gen_args, args) => build_call(&ident.name, args, ctx),
        ExprKind::IfElse(cond, case_true, case_false) => build_if_else(
            cond,
            case_true,
            case_false,
            ctx,
        ),
        ExprKind::If(cond, case_true) => build_if(cond, case_true, ctx),
        ExprKind::ForNat(ident, range, body) => build_for_nat(ident, range, body, ctx),
        ExprKind::Unsafe(inner) => build_expr(inner, ctx),
        _ => Ok(None),
    }
}

} // verus!
