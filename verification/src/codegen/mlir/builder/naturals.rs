//! Natural-number terms as `index` computations.
use vstd::prelude::*;

use crate::ast::Nat;
use crate::codegen::mlir::error::MlirError;
use super::context::{
    create_index_constant, extends, lemma_appends_value_extends, lemma_extends_refl, lemma_extends_trans,
    MlirContext,
};
use super::ops::build_nat_binary_operation;
use super::lowering::{between, nat_lowers};
use super::outcome::nat_outcome;

verus! {

/// Computes a natural-number term: a literal as an `index` constant, a name
/// as the value bound to it, an operation on the values of its operands.
/// Yields no value when a name in the term is unbound.
pub fn build_nat(term: &Nat, ctx: &mut MlirContext) -> (r: Result<Option<usize>, MlirError>)
    requires
        old(ctx).wf(),
        nat_outcome(*term, old(ctx).names()) is Some,
    ensures
        final(ctx).wf(),
        extends(*old(ctx), *final(ctx)),
        final(ctx).variables == old(ctx).variables,
        r matches Ok(o) && o.is_some() == nat_outcome(*term, old(ctx).names()).unwrap(),
        r matches Ok(Some(v)) ==> v < final(ctx).value_types@.len(),
        r matches Ok(o) && nat_lowers(*term, *old(ctx), *final(ctx), o),
    decreases term,
{
    match term {
        Nat::Lit(n) => {
            let v = create_index_constant(ctx, *n as i64)?;
            proof {
                lemma_appends_value_extends(*old(ctx), *ctx, ctx.current_block@.last(), v, crate::codegen::mlir::ir::TypeModel::Index);
            }
            Ok(Some(v))
        },
        Nat::Ident(ident) => {
            proof {
                assert(ctx.names().contains(ident.name@) == (ctx.lookup(ident.name@) is Some));
                lemma_extends_refl(*ctx);
            }
            Ok(ctx.get_var(ident.name.as_str()))
        },
        Nat::BinOp(op, lhs, rhs) => {
            let lhs_value = match build_nat(lhs, ctx)? {
                Some(v) => v,
                None => {
                    proof {
                        assert(between(*ctx, None::<usize>));
                    }
                    return Ok(None);
                },
            };
            let ghost mid = *ctx;
            let rhs_value = match build_nat(rhs, ctx)? {
                Some(v) => v,
                None => {
                    proof {
                        lemma_extends_trans(*old(ctx), mid, *ctx);
                        assert(between(mid, Some(lhs_value)));
                        assert(between(*ctx, None::<usize>));
                    }
                    return Ok(None);
                },
            };
            let ghost mid2 = *ctx;
            let v = build_nat_binary_operation(lhs_value, rhs_value, op, ctx);
            proof {
                lemma_appends_value_extends(mid2, *ctx, ctx.current_block@.last(), v, mid2.value_types@[lhs_value as int]@);
                lemma_extends_trans(*old(ctx), mid, mid2);
                lemma_extends_trans(*old(ctx), mid2, *ctx);
                assert(between(mid, Some(lhs_value)));
                assert(between(mid2, Some(rhs_value)));
            }
            Ok(Some(v))
        },
        _ => Ok(None),
    }
}

} // verus!
