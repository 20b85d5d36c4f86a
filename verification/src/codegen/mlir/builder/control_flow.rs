//! Conditionals as `scf.if` operations.
use vstd::prelude::*;

use crate::ast::Expr;
use crate::codegen::mlir::error::{general_error, MlirError, MlirErrorView};
use crate::codegen::mlir::ir::{IrBlock, MlirType, Operation};
use super::context::{
    append_yield, extends, lemma_extends_trans, lemma_scope_stable,
    MlirContext,
};
use super::expr::build_expr;
use super::lowering::{between, if_else_lowers, if_lowers, region_lowers};
use super::outcome::{
    expr_outcome, expr_size, if_else_outcome, if_outcome, lemma_expr_size_pos, meets, };

verus! {

/// A copy of the bindings.
fn copy_bindings(v: &Vec<(String, usize)>) -> (r: Vec<(String, usize)>)
    ensures
        r@ == v@,
{
    let mut r: Vec<(String, usize)> = Vec::new();
    let mut i: usize = 0;
    while i < v.len()
        invariant
            i <= v@.len(),
            r@ == v@.take(i as int),
        decreases v@.len() - i,
    {
        r.push((v[i].0.clone(), v[i].1));
        proof {
            assert(r@ =~= v@.take(i + 1));
        }
        i = i + 1;
    }
    proof {
        assert(v@.take(v@.len() as int) =~= v@);
    }
    r
}

/// Lowers `expr` into a block of its own, ended by an `scf.yield` of its
/// value.  On success the bindings and the current block are restored to
/// those before; on failure the current block is restored and the bindings
/// are left as they were at the failure.
pub fn build_branch_region(expr: &Expr, ctx: &mut MlirContext) -> (r: Result<
    (IrBlock, Option<usize>),
    MlirError,
>)
    requires
        old(ctx).wf(),
        !(expr_outcome(*expr, old(ctx).scope(), old(ctx).callees()) is Unsupported),
    ensures
        final(ctx).wf(),
        extends(*old(ctx), *final(ctx)),
        final(ctx).current_block == old(ctx).current_block,
        r matches Ok((_, Some(v))) ==> v < final(ctx).value_types@.len(),
        expr_outcome(*expr, old(ctx).scope(), old(ctx).callees()) is Built ==> (r matches Ok(
            (blk, res),
        ) && res.is_some() == expr_outcome(
            *expr,
            old(ctx).scope(),
            old(ctx).callees(),
        )->Built_value.is_some() && blk.arguments@.len() == 0 && (blk.operations@.last() matches Operation::Yield {
            operands,
        } && operands@ == (match res {
            Some(v) => seq![v],
            None => Seq::<usize>::empty(),
        }))),
        r matches Ok((_, Some(v))) ==> final(ctx).value_types@[v as int]@ == expr_outcome(
            *expr,
            old(ctx).scope(),
            old(ctx).callees(),
        )->Built_value->Some_0,
        expr_outcome(*expr, old(ctx).scope(), old(ctx).callees()) is Built ==> final(ctx).variables@
            == old(ctx).variables@,
        expr_outcome(*expr, old(ctx).scope(), old(ctx).callees()) is Built ==> final(ctx).scope()
            == old(ctx).scope(),
        expr_outcome(*expr, old(ctx).scope(), old(ctx).callees()) is Failed ==> (r matches Err(
            e,
        ) && e@ == MlirErrorView::General(
            expr_outcome(*expr, old(ctx).scope(), old(ctx).callees())->msg,
        )) && final(ctx).scope() == expr_outcome(
            *expr,
            old(ctx).scope(),
            old(ctx).callees(),
        )->Failed_scope,
        region_lowers(*expr, *old(ctx), *final(ctx), r),
    decreases expr_size(*expr), 1int,
{
    let mut parent_block: Vec<Operation> = Vec::new();
    std::mem::swap(&mut parent_block, &mut ctx.current_block);
    let parent_variables = copy_bindings(&ctx.variables);
    let ghost ci = *ctx;
    let built = build_expr(expr, ctx);
    let ghost co = *ctx;
    proof {
        assert(between(co, (ci, built)));
    }
    let mut block_ops: Vec<Operation> = Vec::new();
    std::mem::swap(&mut block_ops, &mut ctx.current_block);
    std::mem::swap(&mut parent_block, &mut ctx.current_block);
    proof {
        assert(ctx.value_types@.take(old(ctx).value_types@.len() as int) =~= old(ctx).value_types@);
        assert(ctx.current_block@.take(old(ctx).current_block@.len() as int) =~= old(ctx).current_block@);
    }
    match built {
        Err(e) => Err(e),
        Ok(result_value) => {
            append_yield(&mut block_ops, result_value);
            ctx.variables = parent_variables;
            proof {
                lemma_scope_stable(ctx.variables@, old(ctx).value_types@, ctx.value_types@);
            }
            Ok((IrBlock { arguments: Vec::new(), operations: block_ops }, result_value))
        },
    }
}

/// Lowers a one-armed conditional: the condition, then an `scf.if` without
/// results whose then-region is `case_true` and whose else-region only
/// yields.  Yields no value.
pub fn build_if(cond: &Expr, case_true: &Expr, ctx: &mut MlirContext) -> (r: Result<
    Option<usize>,
    MlirError,
>)
    requires
        old(ctx).wf(),
        !(if_outcome(*cond, *case_true, old(ctx).scope(), old(ctx).callees())
            is Unsupported),
    ensures
        meets(
            if_outcome(*cond, *case_true, old(ctx).scope(), old(ctx).callees()),
            *old(ctx),
            *final(ctx),
            r,
        ),
        if_lowers(*cond, *case_true, *old(ctx), *final(ctx), r),
    decreases expr_size(*cond) + expr_size(*case_true), 1int,
{
    proof {
        lemma_expr_size_pos(*cond);
        lemma_expr_size_pos(*case_true);
    }
    let rc = build_expr(cond, ctx);
    proof {
        assert(between(*ctx, rc));
    }
    let cond_value = match rc {
        Err(e) => return Err(e),
        Ok(Some(v)) => v,
        Ok(None) => return Err(general_error("Missing condition value for if expression")),
    };
    let ghost c1 = *ctx;
    let rt = build_branch_region(case_true, ctx);
    proof {
        assert(between(*ctx, rt));
    }
    let (then_region, _true_value) = match rt {
        Err(e) => {
            proof {
                lemma_extends_trans(*old(ctx), c1, *ctx);
            }
            return Err(e);
        },
        Ok(x) => x,
    };
    let ghost c2 = *ctx;
    let mut else_ops: Vec<Operation> = Vec::new();
    append_yield(&mut else_ops, None);
    ctx.current_block.push(
        Operation::If {
            condition: cond_value,
            result_types: Vec::new(),
            then_region,
            else_region: IrBlock { arguments: Vec::new(), operations: else_ops },
            results: Vec::new(),
        },
    );
    proof {
        assert(ctx.current_block@.take(c2.current_block@.len() as int) =~= c2.current_block@);
        assert(ctx.value_types@.take(c2.value_types@.len() as int) =~= c2.value_types@);
        lemma_extends_trans(*old(ctx), c1, c2);
        lemma_extends_trans(*old(ctx), c2, *ctx);
    }
    Ok(None)
}

/// Lowers a two-armed conditional: the condition, then an `scf.if` whose
/// regions are the two arms.  It has one result, of the type of the first
/// arm's value, when the first arm yields a value, and none otherwise; the
/// conditional yields that result.
pub fn build_if_else(
    cond: &Expr,
    case_true: &Expr,
    case_false: &Expr,
    ctx: &mut MlirContext,
) -> (r: Result<Option<usize>, MlirError>)
    requires
        old(ctx).wf(),
        !(if_else_outcome(
            *cond,
            *case_true,
            *case_false,
            old(ctx).scope(),
            old(ctx).callees(),
        ) is Unsupported),
    ensures
        meets(
            if_else_outcome(
                *cond,
                *case_true,
                *case_false,
                old(ctx).scope(),
                old(ctx).callees(),
            ),
            *old(ctx),
            *final(ctx),
            r,
        ),
        if_else_lowers(*cond, *case_true, *case_false, *old(ctx), *final(ctx), r),
    decreases expr_size(*cond) + expr_size(*case_true) + expr_size(*case_false), 1int,
{
    proof {
        lemma_expr_size_pos(*cond);
        lemma_expr_size_pos(*case_true);
        lemma_expr_size_pos(*case_false);
    }
    let rc = build_expr(cond, ctx);
    proof {
        assert(between(*ctx, rc));
    }
    let cond_value = match rc {
        Err(e) => return Err(e),
        Ok(Some(v)) => v,
        Ok(None) => return Err(general_error("Missing condition value for if-else expression")),
    };
    let ghost c1 = *ctx;
    let rt = build_branch_region(case_true, ctx);
    proof {
        assert(between(*ctx, rt));
    }
    let (then_region, true_value) = match rt {
        Err(e) => {
            proof {
                lemma_extends_trans(*old(ctx), c1, *ctx);
            }
            return Err(e);
        },
        Ok(x) => x,
    };
    let ghost c2 = *ctx;
    let rf = build_branch_region(case_false, ctx);
    proof {
        assert(between(*ctx, rf));
    }
    let (else_region, _false_value) = match rf {
        Err(e) => {
            proof {
                lemma_extends_trans(*old(ctx), c1, c2);
                lemma_extends_trans(*old(ctx), c2, *ctx);
            }
            return Err(e);
        },
        Ok(x) => x,
    };
    let ghost c3 = *ctx;
    let mut result_types: Vec<MlirType> = Vec::new();
    let mut results: Vec<usize> = Vec::new();
    let mut result: Option<usize> = None;
    if let Some(val) = true_value {
        let t = ctx.value_types[val].copy();
        result_types.push(t);
        let t2 = ctx.value_types[val].copy();
        let v = ctx.new_value(t2);
        results.push(v);
        result = Some(v);
    }
    let ghost c4 = *ctx;
    ctx.current_block.push(
        Operation::If {
            condition: cond_value,
            result_types,
            then_region,
            else_region,
            results,
        },
    );
    proof {
        assert(c4.value_types@.take(c3.value_types@.len() as int) =~= c3.value_types@);
        assert(c4.current_block@.take(c3.current_block@.len() as int) =~= c3.current_block@);
        assert(ctx.current_block@.take(c4.current_block@.len() as int) =~= c4.current_block@);
        assert(ctx.value_types@.take(c4.value_types@.len() as int) =~= c4.value_types@);
        lemma_extends_trans(*old(ctx), c1, c2);
        lemma_extends_trans(*old(ctx), c2, c3);
        lemma_extends_trans(*old(ctx), c3, c4);
        lemma_extends_trans(*old(ctx), c4, *ctx);
    }
    Ok(result)
}

} // verus!
