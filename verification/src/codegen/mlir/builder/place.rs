//! Reading and assigning places.
use vstd::prelude::*;

use crate::ast::{Expr, PlaceExpr, PlaceExprKind};
use crate::codegen::mlir::error::MlirError;
use crate::codegen::mlir::ir::{MlirType, TypeModel};
use super::context::{
    extends, lemma_appends_value_extends, lemma_extends_refl, lemma_extends_trans,
    lemma_scope_stable, memref_load_rank0, memref_store_rank0, MlirContext,
};
use super::expr::build_expr;
use super::lowering::{assign_lowers, between, place_lowers};
use super::outcome::{assign_outcome, expr_size, meets, place_outcome};

verus! {

/// Reads a place: a name gives the value bound to it, a dereference loads an
/// `i32` from the rank-0 memref its inner place gives.  Yields no value when
/// the name is unbound.
pub fn build_place_expr(place_expr: &PlaceExpr, ctx: &mut MlirContext) -> (r: Result<
    Option<usize>,
    MlirError,
>)
    requires
        old(ctx).wf(),
        place_outcome(*place_expr, old(ctx).scope()) is Some,
    ensures
        final(ctx).wf(),
        extends(*old(ctx), *final(ctx)),
        final(ctx).variables == old(ctx).variables,
        r matches Ok(o) && o.is_some() == place_outcome(*place_expr, old(ctx).scope())->Some_0.is_some(),
        r matches Ok(Some(v)) ==> v < final(ctx).value_types@.len() && final(ctx).value_types@[v as int]@
            == place_outcome(*place_expr, old(ctx).scope())->Some_0->Some_0,
        place_lowers(*place_expr, *old(ctx), *final(ctx), r),
    decreases place_expr,
{
    match &place_expr.pl_expr {
        PlaceExprKind::Ident(ident) => {
            proof {
                lemma_extends_refl(*ctx);
            }
            Ok(ctx.get_var(ident.name.as_str()))
        },
        PlaceExprKind::Deref(inner) => {
            let rm = build_place_expr(inner, ctx);
            proof {
                assert(between(*ctx, rm));
            }
            let mem = match rm {
                Ok(Some(m)) => m,
                _ => return Ok(None),
            };
            let ghost mid = *ctx;
            let v = memref_load_rank0(ctx, mem, MlirType::Integer(32))?;
            proof {
                lemma_appends_value_extends(
                    mid,
                    *ctx,
                    ctx.current_block@.last(),
                    v,
                    TypeModel::Integer(32),
                );
                lemma_extends_trans(*old(ctx), mid, *ctx);
            }
            Ok(Some(v))
        },
        _ => Ok(None),
    }
}

/// Assigns the value of `value_expr` to a place: a name is rebound to it, a
/// dereference stores it into the rank-0 memref its inner place gives.  A
/// value expression without a value assigns nothing.  Yields no value.
pub fn build_assign(place_expr: &PlaceExpr, value_expr: &Expr, ctx: &mut MlirContext) -> (r:
    Result<Option<usize>, MlirError>)
    requires
        old(ctx).wf(),
        !(assign_outcome(*place_expr, *value_expr, old(ctx).scope(), old(ctx).callees())
            is Unsupported),
    ensures
        meets(
            assign_outcome(*place_expr, *value_expr, old(ctx).scope(), old(ctx).callees()),
            *old(ctx),
            *final(ctx),
            r,
        ),
        assign_lowers(*place_expr, *value_expr, *old(ctx), *final(ctx), r),
    decreases expr_size(*value_expr), 1int,
{
    let r1 = build_expr(value_expr, ctx);
    proof {
        assert(between(*ctx, r1));
    }
    let value = match r1 {
        Err(e) => return Err(e),
        Ok(Some(v)) => v,
        Ok(None) => return Ok(None),
    };
    let ghost mid = *ctx;
    match &place_expr.pl_expr {
        PlaceExprKind::Ident(ident) => {
            ctx.set_var(ident.name.clone(), value);
            proof {
                lemma_extends_refl(*ctx);
                assert(extends(mid, *ctx));
                lemma_extends_trans(*old(ctx), mid, *ctx);
            }
            Ok(None)
        },
        PlaceExprKind::Deref(inner) => {
            let rp = build_place_expr(inner, ctx);
            proof {
                assert(between(*ctx, rp));
            }
            let mem = match rp {
                Ok(Some(m)) => m,
                _ => return Ok(None),
            };
            let ghost mid2 = *ctx;
            memref_store_rank0(ctx, value, mem)?;
            proof {
                assert(ctx.current_block@.take(mid2.current_block@.len() as int)
                    =~= mid2.current_block@);
                assert(ctx.value_types@.take(mid2.value_types@.len() as int)
                    =~= mid2.value_types@);
                lemma_extends_trans(*old(ctx), mid, mid2);
                lemma_extends_trans(*old(ctx), mid2, *ctx);
                lemma_scope_stable(ctx.variables@, mid.value_types@, ctx.value_types@);
            }
            Ok(None)
        },
        _ => Ok(None),
    }
}

} // verus!
