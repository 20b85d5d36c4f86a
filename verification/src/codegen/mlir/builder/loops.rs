//! Loops over natural-number ranges as `scf.for` operations.
use vstd::prelude::*;

use crate::ast::{Expr, Ident, NatRange};
use crate::codegen::mlir::error::MlirError;
use crate::codegen::mlir::ir::{IrBlock, MlirType, Operation, TypeModel};
use super::context::{
    create_index_constant, is_prefix, lemma_appends_value_extends, lemma_extends_trans,
    binds, lemma_prefix_push, lemma_prefix_trans, lemma_scope_stable, lemma_typed_scope_take_next,
    names_unique, typed_scope, MlirContext,
};
use super::expr::build_expr;
use super::lowering::{between, for_lowers, index_constant_appended, loop_entry, loop_exit, still_bound};
use super::naturals::build_nat;
use super::outcome::{
    expr_outcome, expr_size, for_nat_outcome, loop_body_scope, meets, outcome_scope,
    };

verus! {

/// Lowers a loop over a simple range to an `scf.for` from the lower to the
/// upper bound with step 1.  Every variable bound before the loop is carried
/// through it: passed in as an initial argument, bound in the body to a block
/// argument after the induction variable, yielded at the end of the body
/// (when still bound), and rebound after the loop to the loop's result.  An
/// error in the body is not reported.  The loop variable is unbound after the
/// loop.  Without a value for a bound nothing is built.  Yields no value.
#[verifier::loop_isolation(false)]
#[verifier::spinoff_prover]
#[verifier::rlimit(100)]
pub fn build_for_nat(ident: &Ident, range: &NatRange, body: &Expr, ctx: &mut MlirContext) -> (r:
    Result<Option<usize>, MlirError>)
    requires
        old(ctx).wf(),
        !(for_nat_outcome(*ident, *range, *body, old(ctx).scope(), old(ctx).callees())
            is Unsupported),
    ensures
        meets(
            for_nat_outcome(*ident, *range, *body, old(ctx).scope(), old(ctx).callees()),
            *old(ctx),
            *final(ctx),
            r,
        ),
        for_lowers(*ident, *range, *body, *old(ctx), *final(ctx), r),
    decreases expr_size(*body), 1int,
{
    let ghost s0 = ctx.scope();
    let ghost fns = ctx.callees();
    let ghost name = ident.name@;
    match range {
        NatRange::Simple { lower, upper } => {
            let rl = build_nat(lower, ctx)?;
            proof {
                assert(between(*ctx, rl));
            }
            let lower_value = match rl {
                Some(v) => v,
                None => {
                    proof {
                        lemma_scope_stable(ctx.variables@, old(ctx).value_types@, ctx.value_types@);
                    }
                    return Ok(None);
                },
            };
            let ghost c1 = *ctx;
            let ru = build_nat(upper, ctx)?;
            proof {
                assert(between(*ctx, ru));
            }
            let upper_value = match ru {
                Some(v) => v,
                None => {
                    proof {
                        lemma_extends_trans(*old(ctx), c1, *ctx);
                        lemma_scope_stable(ctx.variables@, old(ctx).value_types@, ctx.value_types@);
                    }
                    return Ok(None);
                },
            };
            let ghost c2 = *ctx;
            let step_value = create_index_constant(ctx, 1)?;
            proof {
                lemma_appends_value_extends(
                    c2,
                    *ctx,
                    ctx.current_block@.last(),
                    step_value,
                    TypeModel::Index,
                );
                lemma_extends_trans(*old(ctx), c1, c2);
                lemma_extends_trans(*old(ctx), c2, *ctx);
                lemma_scope_stable(ctx.variables@, old(ctx).value_types@, ctx.value_types@);
            }
            let ghost c3 = *ctx;
            let ghost vars0 = ctx.variables@;
            let ghost vt0 = ctx.value_types@;
            let ghost t0 = vt0.len();
            assert(typed_scope(vars0, vt0) == s0);
            assert(index_constant_appended(c2, c3, c2.value_types@.len() as usize, 1));

            // The loop-carried variables: every binding, in order.
            let n = ctx.variables.len();
            let mut iter_arg_names: Vec<String> = Vec::new();
            let mut iter_arg_values: Vec<usize> = Vec::new();
            let mut iter_arg_types: Vec<MlirType> = Vec::new();
            let mut i: usize = 0;
            while i < n
                invariant
                    i <= n,
                    *ctx == c3,
                    iter_arg_names@.len() == i,
                    iter_arg_values@.len() == i,
                    iter_arg_types@.len() == i,
                    forall|j: int|
                        0 <= j < i ==> #[trigger] iter_arg_names@[j]@ == vars0[j].0@
                            && iter_arg_values@[j] == vars0[j].1 && iter_arg_types@[j]@
                            == vt0[vars0[j].1 as int]@,
                decreases n - i,
            {
                let ghost (n_before, v_before, t_before) = (iter_arg_names@, iter_arg_values@, iter_arg_types@);
                iter_arg_names.push(ctx.variables[i].0.clone());
                iter_arg_values.push(ctx.variables[i].1);
                iter_arg_types.push(ctx.value_types[ctx.variables[i].1].copy());
                proof {
                    assert forall|j: int| 0 <= j < i + 1 implies #[trigger] iter_arg_names@[j]@
                        == vars0[j].0@ && iter_arg_values@[j] == vars0[j].1 && iter_arg_types@[j]@
                        == vt0[vars0[j].1 as int]@ by {
                        if j < i {
                            assert(iter_arg_names@[j] == n_before[j]);
                            assert(iter_arg_values@[j] == v_before[j]);
                            assert(iter_arg_types@[j] == t_before[j]);
                        }
                    }
                }
                i = i + 1;
            }

            // The body block: the induction variable, then one argument per
            // carried variable.
            let mut parent_block: Vec<Operation> = Vec::new();
            std::mem::swap(&mut parent_block, &mut ctx.current_block);
            let induction_var = ctx.new_value(MlirType::Index);
            let mut block_args: Vec<usize> = Vec::new();
            block_args.push(induction_var);
            let ghost c_iv = *ctx;
            ctx.set_var(ident.name.clone(), induction_var);
            proof {
                assert(block_args@ =~= Seq::new(1, |j: int| (t0 + j) as usize));
                assert forall|key: Seq<char>| !binds(vars0, key) && key != name implies #[trigger] ctx.lookup(key) is None by {
                    assert(c_iv.lookup(key) == c3.lookup(key));
                }
                lemma_prefix_push(vt0, MlirType::Index);
                assert(typed_scope(vars0.take(0), vt0) =~= Map::<Seq<char>, TypeModel>::empty());
                assert(ctx.scope() =~= s0.insert(name, TypeModel::Index).union_prefer_right(
                    typed_scope(vars0.take(0), vt0),
                ));
            }
            let mut k: usize = 0;
            while k < n
                invariant
                    k <= n,
                    ctx.wf(),
                    ctx.scope() == s0.insert(name, TypeModel::Index).union_prefer_right(
                        typed_scope(vars0.take(k as int), vt0),
                    ),
                    ctx.function_results == c3.function_results,
                    is_prefix(vt0, ctx.value_types@),
                    block_args@.len() == k + 1,
                    forall|j: int|
                        0 <= j < block_args@.len() ==> #[trigger] block_args@[j]
                            < ctx.value_types@.len(),
                    n == vars0.len(),
                    names_unique(vars0),
                    ctx.current_block@.len() == 0,
                    ctx.value_types@.len() == t0 + 1 + k,
                    ctx.value_types@.take(t0 as int) == vt0,
                    ctx.value_types@[t0 as int]@ == TypeModel::Index,
                    block_args@ =~= Seq::new((k + 1) as nat, |j: int| (t0 + j) as usize),
                    forall|j: int|
                        0 <= j < k ==> ctx.value_types@[t0 + 1 + j]@ == vt0[#[trigger] vars0[j].1 as int]@
                            && ctx.lookup(vars0[j].0@) == Some((t0 + 1 + j) as usize),
                    !binds(vars0, name) ==> ctx.lookup(name) == Some(t0 as usize),
                    forall|key: Seq<char>| !binds(vars0, key) && key != name ==> #[trigger] ctx.lookup(key) is None,
                decreases n - k,
            {
                let ghost head = *ctx;
                let ghost before = ctx.value_types@;
                let a = ctx.new_value(iter_arg_types[k].copy());
                block_args.push(a);
                proof {
                    lemma_prefix_push(before, ctx.value_types@.last());
                    assert(ctx.value_types@ == before.push(ctx.value_types@.last()));
                    lemma_prefix_trans(vt0, before, ctx.value_types@);
                }
                let ghost c4 = *ctx;
                ctx.set_var(iter_arg_names[k].clone(), a);
                proof {
                    assert(ctx.value_types@.take(t0 as int) =~= vt0);
                    assert forall|j: int| 0 <= j < k + 1 implies ctx.value_types@[t0 + 1 + j]@ == vt0[#[trigger] vars0[j].1 as int]@
                        && ctx.lookup(vars0[j].0@) == Some((t0 + 1 + j) as usize) by {
                        if j < k {
                            assert(vars0[j].0@ != vars0[k as int].0@);
                            assert(before[t0 + 1 + j] == ctx.value_types@[t0 + 1 + j]);
                        }
                    }
                    if !binds(vars0, name) {
                        assert(name != vars0[k as int].0@);
                    }
                    assert forall|key: Seq<char>| !binds(vars0, key) && key != name implies #[trigger] ctx.lookup(key) is None by {
                        assert(key != vars0[k as int].0@);
                        assert(head.lookup(key) is None);
                        assert(c4.lookup(key) is None);
                    }
                    assert(iter_arg_names@[k as int]@ == vars0[k as int].0@);
                    assert(c4.value_types@[a as int]@ == vt0[vars0[k as int].1 as int]@);
                    lemma_typed_scope_take_next(vars0, vt0, k as int);
                    assert(ctx.scope() =~= s0.insert(name, TypeModel::Index).union_prefer_right(
                        typed_scope(vars0.take(k + 1), vt0),
                    ));
                }
                k = k + 1;
            }
            proof {
                assert(vars0.take(n as int) =~= vars0);
                assert(ctx.scope() =~= loop_body_scope(*ident, s0));
            }
            let ghost c5 = *ctx;
            proof {
                assert(loop_entry(*ident, c3, c5));
            }
            let _body_value = build_expr(body, ctx);
            let ghost c6 = *ctx;
            let ghost t1 = c6.value_types@.len();
            let ghost sb = ctx.scope();
            proof {
                assert(sb == outcome_scope(expr_outcome(*body, loop_body_scope(*ident, s0), fns)));
                lemma_prefix_trans(vt0, c5.value_types@, c6.value_types@);
            }

            // Yield the carried variables that are still bound.
            let mut yield_values: Vec<usize> = Vec::new();
            let mut k2: usize = 0;
            while k2 < n
                invariant
                    k2 <= n,
                    *ctx == c6,
                    n == vars0.len(),
                    yield_values@ == still_bound(vars0.take(k2 as int), c6),
                decreases n - k2,
            {
                proof {
                    assert(vars0.take(k2 + 1).drop_last() =~= vars0.take(k2 as int));
                    assert(vars0.take(k2 + 1).last() == vars0[k2 as int]);
                }
                match ctx.get_var(iter_arg_names[k2].as_str()) {
                    Some(v) => yield_values.push(v),
                    None => {},
                }
                proof {
                    assert(yield_values@ =~= still_bound(vars0.take(k2 + 1), c6));
                }
                k2 = k2 + 1;
            }
            proof {
                assert(vars0.take(n as int) =~= vars0);
            }
            let ghost yielded = yield_values@;
            let mut body_ops: Vec<Operation> = Vec::new();
            std::mem::swap(&mut body_ops, &mut ctx.current_block);
            std::mem::swap(&mut parent_block, &mut ctx.current_block);
            let ghost body_before = body_ops@;
            body_ops.push(Operation::Yield { operands: yield_values });
            proof {
                assert(body_ops@.drop_last() =~= body_before);
            }
            let ghost c7 = *ctx;
            proof {
                assert(c7.value_types@.take(c7.value_types@.len() as int) =~= c7.value_types@);
                assert(c7.scope() == sb);
            }

            // The results of the loop, one per carried variable.
            let mut results: Vec<usize> = Vec::new();
            let mut k3: usize = 0;
            while k3 < n
                invariant
                    k3 <= n,
                    ctx.wf(),
                    ctx.scope() == sb,
                    ctx.variables == c7.variables,
                    ctx.current_block == c7.current_block,
                    ctx.function_results == c7.function_results,
                    is_prefix(c7.value_types@, ctx.value_types@),
                    results@.len() == k3,
                    forall|j: int|
                        0 <= j < results@.len() ==> #[trigger] results@[j] < ctx.value_types@.len()
                            && ctx.value_types@[results@[j] as int]@ == iter_arg_types@[j]@,
                    ctx.value_types@.len() == t1 + k3,
                    c7.value_types@.len() == t1,
                    results@ =~= Seq::new(k3 as nat, |j: int| (t1 + j) as usize),
                    forall|j: int| 0 <= j < k3 ==> #[trigger] results@[j] as int == t1 + j,
                decreases n - k3,
            {
                let ghost before = ctx.value_types@;
                let rv = ctx.new_value(iter_arg_types[k3].copy());
                results.push(rv);
                proof {
                    lemma_prefix_push(before, ctx.value_types@.last());
                    assert(ctx.value_types@ == before.push(ctx.value_types@.last()));
                    lemma_prefix_trans(c7.value_types@, before, ctx.value_types@);
                }
                k3 = k3 + 1;
            }

            // Rebind the carried variables to the results.
            let ghost c8 = *ctx;
            let ghost res = results@;
            let mut k4: usize = 0;
            proof {
                assert(typed_scope(vars0.take(0), vt0) =~= Map::<Seq<char>, TypeModel>::empty());
                assert(ctx.scope() =~= sb.union_prefer_right(typed_scope(vars0.take(0), vt0)));
            }
            while k4 < n
                invariant
                    k4 <= n,
                    ctx.wf(),
                    ctx.current_block == c8.current_block,
                    ctx.value_types == c8.value_types,
                    ctx.function_results == c8.function_results,
                    ctx.scope() == sb.union_prefer_right(typed_scope(vars0.take(k4 as int), vt0)),
                    n == vars0.len(),
                    names_unique(vars0),
                    results@ == res,
                    forall|j: int|
                        0 <= j < k4 ==> ctx.lookup(#[trigger] vars0[j].0@) == Some(res[j]),
                    forall|key: Seq<char>|
                        !binds(vars0.take(k4 as int), key) ==> #[trigger] ctx.lookup(key) == c8.lookup(key),
                decreases n - k4,
            {
                let ghost c_k = *ctx;
                ctx.set_var(iter_arg_names[k4].clone(), results[k4]);
                proof {
                    assert forall|j: int| 0 <= j < k4 + 1 implies ctx.lookup(#[trigger] vars0[j].0@) == Some(res[j]) by {
                        if j < k4 {
                            assert(vars0[j].0@ != vars0[k4 as int].0@);
                        }
                    }
                    assert forall|key: Seq<char>| !binds(vars0.take(k4 + 1), key) implies #[trigger] ctx.lookup(key) == c8.lookup(key) by {
                        assert(vars0.take(k4 + 1)[k4 as int] == vars0[k4 as int]);
                        assert(key != vars0[k4 as int].0@);
                        if binds(vars0.take(k4 as int), key) {
                            let q = choose|q: int| 0 <= q < vars0.take(k4 as int).len() && #[trigger] vars0.take(k4 as int)[q].0@ == key;
                            assert(vars0.take(k4 + 1)[q] == vars0.take(k4 as int)[q]);
                        }
                        assert(c_k.lookup(key) == c8.lookup(key));
                    }
                    assert(iter_arg_names@[k4 as int]@ == vars0[k4 as int].0@);
                    assert(c8.value_types@[results@[k4 as int] as int]@ == vt0[vars0[k4 as int].1 as int]@);
                    lemma_typed_scope_take_next(vars0, vt0, k4 as int);
                    assert(ctx.scope() =~= sb.union_prefer_right(typed_scope(vars0.take(k4 + 1), vt0)));
                }
                k4 = k4 + 1;
            }
            proof {
                assert(vars0.take(n as int) =~= vars0);
            }
            let ghost c9 = *ctx;
            let ghost init_vals = iter_arg_values@;
            let ghost args_b = block_args@;
            proof {
                assert forall|j: int| 0 <= j < n implies init_vals[j] == vars0[j].1 by {
                    assert(iter_arg_names@[j]@ == vars0[j].0@);
                }
                assert(init_vals =~= vars0.map_values(|p: (String, usize)| p.1));
            }
            ctx.current_block.push(
                Operation::For {
                    lower: lower_value,
                    upper: upper_value,
                    step: step_value,
                    init_args: iter_arg_values,
                    body: IrBlock { arguments: block_args, operations: body_ops },
                    results,
                },
            );
            ctx.remove_var(ident.name.as_str());
            proof {
                lemma_prefix_trans(c3.value_types@, c6.value_types@, c7.value_types@);
                lemma_prefix_trans(c3.value_types@, c7.value_types@, c9.value_types@);
                lemma_prefix_trans(old(ctx).value_types@, c3.value_types@, ctx.value_types@);
                assert(ctx.current_block@.take(c3.current_block@.len() as int) =~= c3.current_block@);
                lemma_prefix_trans(old(ctx).current_block@, c3.current_block@, ctx.current_block@);
                assert(ctx.scope() =~= sb.union_prefer_right(s0).remove(name));
                assert(ctx.current_block@.drop_last() =~= c3.current_block@);
                assert(ctx.value_types@.take(t1 as int) =~= c6.value_types@);
                assert(body_before == c6.current_block@);
                assert(res.len() == n);
                assert(c8.value_types@.len() == t1 + n);
                assert(!ctx.names().contains(name));
                assert(ctx.lookup(name) is None);
                assert forall|j: int| 0 <= j < n implies ctx.value_types@[t1 + j]@ == vt0[#[trigger] vars0[j].1 as int]@
                    && ctx.lookup(vars0[j].0@) == (if vars0[j].0@ == name { None } else { Some((t1 + j) as usize) }) by {
                    assert(res[j] == (t1 + j) as usize);
                    assert(res[j] < c8.value_types@.len());
                    assert(iter_arg_names@[j]@ == vars0[j].0@);
                    assert(c8.value_types@[res[j] as int]@ == iter_arg_types@[j]@);
                    assert(c9.lookup(vars0[j].0@) == Some(res[j]));
                    assert(iter_arg_types@[j]@ == vt0[vars0[j].1 as int]@);
                    assert(ctx.value_types == c8.value_types);
                    assert(res[j] as int == t1 + j);
                    assert(ctx.value_types@[t1 + j]@ == vt0[vars0[j].1 as int]@);
                    if vars0[j].0@ != name {
                        assert(ctx.lookup(vars0[j].0@) == c9.lookup(vars0[j].0@));
                    }
                }
                assert forall|key: Seq<char>| !binds(vars0, key) && key != name implies #[trigger] ctx.lookup(key) == c6.lookup(key) by {
                    assert(vars0.take(n as int) =~= vars0);
                    assert(c9.lookup(key) == c8.lookup(key));
                }
                assert(loop_exit(*ident, lower_value, upper_value, step_value, c3, c6, *ctx));
                assert(between(c3, (c5, c6, _body_value)));
            }
            Ok(None)
        },
        _ => Ok(None),
    }
}

} // verus!
