//! Deciding whether lowering a program stays within what the back end
//! supports, without building it.
use vstd::prelude::*;

use crate::ast::{CompilUnit, Expr, ExprKind, Item, Nat, NatRange, Pattern, PlaceExpr, PlaceExprKind};
use crate::codegen::mlir::ir::{MlirType, TypeModel};
use crate::codegen::mlir::to_mlir::types::{fun_is_lowerable, ty_is_lowerable};
use super::context::{MlirContext};
use super::expr::build_expr;
use super::outcome::{
    args_outcome, assign_outcome, binop_outcome, expr_outcome, expr_size, exprs_size,
    for_nat_outcome, if_else_outcome, if_outcome, lemma_args_outcome_stops, lemma_expr_size_pos,
    lemma_exprs_size_bound, lemma_seq_outcome_stops, let_outcome, loop_body_scope, nat_outcome,
    place_outcome, seq_outcome, Outcome,
};
use super::place::build_place_expr;
use super::{
    callee_table, copy_results, declared_callees, items_lowerable, lemma_copy_same_callees,
};

verus! {

/// Lowering a natural-number term in the context `ctx`: `None` when
/// unsupported, otherwise whether it yields a value.
fn nat_check(n: &Nat, ctx: &MlirContext) -> (r: Option<bool>)
    requires
        ctx.wf(),
    ensures
        r == nat_outcome(*n, ctx.names()),
    decreases n,
{
    match n {
        Nat::Lit(_) => Some(true),
        Nat::Ident(i) => {
            proof {
                assert(ctx.names().contains(i.name@) == (ctx.lookup(i.name@) is Some));
            }
            Some(ctx.get_var(i.name.as_str()).is_some())
        },
        Nat::BinOp(_, l, r) => match nat_check(l, ctx) {
            Some(true) => nat_check(r, ctx),
            other => other,
        },
        _ => None,
    }
}

/// Whether a place expression has a supported form, whatever is bound.
pub open spec fn place_form_ok(p: PlaceExpr) -> bool
    decreases p,
{
    match p.pl_expr {
        PlaceExprKind::Ident(_) => true,
        PlaceExprKind::Deref(inner) => place_form_ok(*inner),
        _ => false,
    }
}

pub proof fn lemma_place_form(p: PlaceExpr, scope: Map<Seq<char>, TypeModel>)
    ensures
        (place_outcome(p, scope) is Some) == place_form_ok(p),
    decreases p,
{
    match p.pl_expr {
        PlaceExprKind::Deref(inner) => lemma_place_form(*inner, scope),
        _ => {},
    }
}

fn place_form_check(p: &PlaceExpr) -> (b: bool)
    ensures
        b == place_form_ok(*p),
    decreases p,
{
    match &p.pl_expr {
        PlaceExprKind::Ident(_) => true,
        PlaceExprKind::Deref(inner) => place_form_check(inner),
        _ => false,
    }
}

/// A context with the same bindings, value types and callee table, and an
/// empty block.
fn copy_context(ctx: &MlirContext) -> (c: MlirContext)
    requires
        ctx.wf(),
    ensures
        c.wf(),
        c.scope() == ctx.scope(),
        c.callees() == ctx.callees(),
{
    let mut vars: Vec<(String, usize)> = Vec::new();
    let mut i: usize = 0;
    while i < ctx.variables.len()
        invariant
            i <= ctx.variables@.len(),
            vars@ == ctx.variables@.take(i as int),
        decreases ctx.variables@.len() - i,
    {
        vars.push((ctx.variables[i].0.clone(), ctx.variables[i].1));
        proof {
            assert(vars@ =~= ctx.variables@.take(i + 1));
        }
        i = i + 1;
    }
    let mut types: Vec<MlirType> = Vec::new();
    let mut j: usize = 0;
    while j < ctx.value_types.len()
        invariant
            j <= ctx.value_types@.len(),
            types@.len() == j,
            forall|k: int| 0 <= k < j ==> #[trigger] types@[k]@ == ctx.value_types@[k]@,
        decreases ctx.value_types@.len() - j,
    {
        let ghost before = types@;
        types.push(ctx.value_types[j].copy());
        proof {
            assert forall|k: int| 0 <= k < j + 1 implies #[trigger] types@[k]@
                == ctx.value_types@[k]@ by {
                if k < j {
                    assert(types@[k] == before[k]);
                }
            }
        }
        j = j + 1;
    }
    let table = copy_results(&ctx.function_results);
    let c = MlirContext {
        variables: vars,
        current_block: Vec::new(),
        value_types: types,
        function_results: table,
    };
    proof {
        assert(ctx.variables@.take(ctx.variables@.len() as int) =~= ctx.variables@);
        assert(c.scope() =~= ctx.scope()) by {
            assert forall|k: Seq<char>| #[trigger] c.scope().dom().contains(k) implies c.scope()[k]
                == ctx.scope()[k] by {
                let b = super::context::bound_value(ctx.variables@, k);
                let w = choose|w: int|
                    0 <= w < ctx.variables@.len() && #[trigger] ctx.variables@[w].0@ == k;
                assert(ctx.variables@[w].1 < ctx.value_types@.len());
            }
        }
        assert forall|name: Seq<char>| #[trigger] (c.callees())(name) == (ctx.callees())(name) by {
            lemma_copy_same_callees(c.function_results@, ctx.function_results@, name);
        }
        assert(c.callees() =~= ctx.callees());
    }
    c
}

/// Whether lowering `e` in the context `ctx` reaches only constructs the
/// back end supports.
pub fn expr_supported(e: &Expr, ctx: &MlirContext) -> (b: bool)
    requires
        ctx.wf(),
    ensures
        b == !(expr_outcome(*e, ctx.scope(), ctx.callees()) is Unsupported),
    decreases expr_size(*e), 0int,
{
    match &e.expr {
        ExprKind::Hole | ExprKind::Lit(_) => true,
        ExprKind::Block(b) => expr_supported(&b.body, ctx),
        ExprKind::Unsafe(inner) => expr_supported(inner, ctx),
        ExprKind::BinOp(op, l, r) => {
            proof {
                lemma_expr_size_pos(**l);
                lemma_expr_size_pos(**r);
            }
            proof {
                assert(expr_outcome(*e, ctx.scope(), ctx.callees()) == binop_outcome(
                    *op,
                    **l,
                    **r,
                    ctx.scope(),
                    ctx.callees(),
                ));
            }
            if !expr_supported(l, ctx) {
                return false;
            }
            let mut c = copy_context(ctx);
            match build_expr(l, &mut c) {
                Ok(Some(_)) => expr_supported(r, &c),
                _ => true,
            }
        },
        ExprKind::Let(pattern, ty, value_expr) => {
            proof {
                assert(expr_outcome(*e, ctx.scope(), ctx.callees()) == let_outcome(
                    *pattern,
                    *ty,
                    **value_expr,
                    ctx.scope(),
                    ctx.callees(),
                ));
            }
            if !expr_supported(value_expr, ctx) {
                return false;
            }
            let mut c = copy_context(ctx);
            let tuple = match pattern {
                Pattern::Tuple(_) => true,
                _ => false,
            };
            match build_expr(value_expr, &mut c) {
                Err(_) => true,
                Ok(Some(_)) => !tuple,
                Ok(None) => match ty {
                    None => true,
                    Some(t) => ty_is_lowerable(t) && !tuple,
                },
            }
        },
        ExprKind::PlaceExpr(p) => {
            proof {
                lemma_place_form(**p, ctx.scope());
            }
            place_form_check(p)
        },
        ExprKind::Sequence(es) => sequence_supported(es, ctx),
        ExprKind::Ref(_, _, p) => match &p.pl_expr {
            PlaceExprKind::Ident(_) => true,
            _ => false,
        },
        ExprKind::Assign(p, v) => {
            proof {
                assert(expr_outcome(*e, ctx.scope(), ctx.callees()) == assign_outcome(
                    **p,
                    **v,
                    ctx.scope(),
                    ctx.callees(),
                ));
            }
            if !expr_supported(v, ctx) {
                return false;
            }
            let mut c = copy_context(ctx);
            match build_expr(v, &mut c) {
                Ok(Some(_)) => match &p.pl_expr {
                    PlaceExprKind::Ident(_) => true,
                    PlaceExprKind::Deref(inner) => {
                        proof {
                            lemma_place_form(**inner, c.scope());
                        }
                        if !place_form_check(inner) {
                            return false;
                        }
                        match build_place_expr(inner, &mut c) {
                            Ok(Some(_)) => true,
                            _ => false,
                        }
                    },
                    _ => false,
                },
                _ => true,
            }
        },
        ExprKind::App(_, _, args) => arguments_supported(args, ctx),
        ExprKind::IfElse(cond, case_true, case_false) => {
            proof {
                lemma_expr_size_pos(**cond);
                lemma_expr_size_pos(**case_true);
                lemma_expr_size_pos(**case_false);
            }
            proof {
                assert(expr_outcome(*e, ctx.scope(), ctx.callees()) == if_else_outcome(
                    **cond,
                    **case_true,
                    **case_false,
                    ctx.scope(),
                    ctx.callees(),
                ));
            }
            if !expr_supported(cond, ctx) {
                return false;
            }
            let mut c = copy_context(ctx);
            match build_expr(cond, &mut c) {
                Ok(Some(_)) => {
                    if !expr_supported(case_true, &c) {
                        return false;
                    }
                    let mut c2 = copy_context(&c);
                    match build_expr(case_true, &mut c2) {
                        Ok(_) => expr_supported(case_false, &c),
                        Err(_) => true,
                    }
                },
                _ => true,
            }
        },
        ExprKind::If(cond, case_true) => {
            proof {
                lemma_expr_size_pos(**cond);
                lemma_expr_size_pos(**case_true);
            }
            proof {
                assert(expr_outcome(*e, ctx.scope(), ctx.callees()) == if_outcome(
                    **cond,
                    **case_true,
                    ctx.scope(),
                    ctx.callees(),
                ));
            }
            if !expr_supported(cond, ctx) {
                return false;
            }
            let mut c = copy_context(ctx);
            match build_expr(cond, &mut c) {
                Ok(Some(_)) => expr_supported(case_true, &c),
                _ => true,
            }
        },
        ExprKind::ForNat(ident, range, body) => match range {
            NatRange::Simple { lower, upper } => {
                proof {
                    assert(ctx.names() =~= ctx.scope().dom());
                    assert(expr_outcome(*e, ctx.scope(), ctx.callees()) == for_nat_outcome(
                        *ident,
                        *range,
                        **body,
                        ctx.scope(),
                        ctx.callees(),
                    ));
                }
                match nat_check(lower, ctx) {
                    None => return false,
                    Some(false) => return true,
                    Some(true) => {},
                }
                match nat_check(upper, ctx) {
                    None => return false,
                    Some(false) => return true,
                    Some(true) => {},
                }
                let mut c2 = copy_context(ctx);
                match c2.get_var(ident.name.as_str()) {
                    Some(_) => {
                        proof {
                            assert(c2.scope().contains_key(ident.name@));
                            assert(loop_body_scope(*ident, c2.scope()) =~= c2.scope());
                        }
                    },
                    None => {
                        let v = c2.new_value(MlirType::Index);
                        let ghost before = c2;
                        c2.set_var(ident.name.clone(), v);
                        proof {
                            assert(!before.scope().contains_key(ident.name@));
                            assert(loop_body_scope(*ident, ctx.scope()) =~= c2.scope());
                        }
                    },
                }
                expr_supported(body, &c2)
            },
            _ => {
                proof {
                    assert(expr_outcome(*e, ctx.scope(), ctx.callees()) == for_nat_outcome(
                        *ident,
                        *range,
                        **body,
                        ctx.scope(),
                        ctx.callees(),
                    ));
                }
                false
            },
        },
        _ => false,
    }
}

/// Whether lowering a sequence reaches only supported constructs: each
/// expression in turn, up to the first failure.
fn sequence_supported(es: &Vec<Expr>, ctx: &MlirContext) -> (b: bool)
    requires
        ctx.wf(),
    ensures
        b == !(seq_outcome(es@, ctx.scope(), ctx.callees()) is Unsupported),
    decreases exprs_size(es@), 1int,
{
    let ghost s0 = ctx.scope();
    let ghost fns = ctx.callees();
    let mut c = copy_context(ctx);
    let mut i: usize = 0;
    proof {
        assert(es@.take(0) =~= Seq::<Expr>::empty());
    }
    while i < es.len()
        invariant
            i <= es@.len(),
            c.wf(),
            c.callees() == fns,
            s0 == ctx.scope(),
            fns == ctx.callees(),
            seq_outcome(es@.take(i as int), s0, fns) matches Outcome::Built { value: _, scope }
                && c.scope() == scope,
        decreases es@.len() - i,
    {
        proof {
            lemma_exprs_size_bound(es@, i as int);
            assert(es@.take(i + 1).drop_last() =~= es@.take(i as int));
            assert(es@.take(i + 1).last() == es@[i as int]);
        }
        if !expr_supported(&es[i], &c) {
            proof {
                lemma_seq_outcome_stops(es@, i + 1, s0, fns);
            }
            return false;
        }
        match build_expr(&es[i], &mut c) {
            Err(_) => {
                proof {
                    lemma_seq_outcome_stops(es@, i + 1, s0, fns);
                }
                return true;
            },
            Ok(_) => {},
        }
        i = i + 1;
    }
    proof {
        assert(es@.take(es@.len() as int) =~= es@);
    }
    true
}

/// Whether lowering call arguments reaches only supported constructs: each
/// argument in turn, up to the first failure or argument without a value.
fn arguments_supported(args: &Vec<Expr>, ctx: &MlirContext) -> (b: bool)
    requires
        ctx.wf(),
    ensures
        b == !(args_outcome(args@, ctx.scope(), ctx.callees()) is Unsupported),
    decreases exprs_size(args@), 1int,
{
    let ghost s0 = ctx.scope();
    let ghost fns = ctx.callees();
    let mut c = copy_context(ctx);
    let mut i: usize = 0;
    proof {
        assert(args@.take(0) =~= Seq::<Expr>::empty());
    }
    while i < args.len()
        invariant
            i <= args@.len(),
            c.wf(),
            c.callees() == fns,
            s0 == ctx.scope(),
            fns == ctx.callees(),
            args_outcome(args@.take(i as int), s0, fns) matches Outcome::Built { value: _, scope }
                && c.scope() == scope,
        decreases args@.len() - i,
    {
        proof {
            lemma_exprs_size_bound(args@, i as int);
            assert(args@.take(i + 1).drop_last() =~= args@.take(i as int));
            assert(args@.take(i + 1).last() == args@[i as int]);
        }
        if !expr_supported(&args[i], &c) {
            proof {
                lemma_args_outcome_stops(args@, i + 1, s0, fns);
            }
            return false;
        }
        match build_expr(&args[i], &mut c) {
            Ok(Some(_)) => {},
            _ => {
                proof {
                    lemma_args_outcome_stops(args@, i + 1, s0, fns);
                }
                return true;
            },
        }
        i = i + 1;
    }
    proof {
        assert(args@.take(args@.len() as int) =~= args@);
    }
    true
}

/// Whether code can be generated for a program: when it needs HIVM address
/// spaces, every parameter type can be lowered and written with its address
/// space; otherwise every function definition can be lowered (its
/// signature, and its body with the callee table of the program).
pub fn lowering_supported(comp_unit: &CompilUnit) -> (b: bool)
    ensures
        b == crate::codegen::mlir::codegen_supported(comp_unit.items@),
{
    if crate::codegen::mlir::needs_hivm_address_space(comp_unit) {
        crate::codegen::mlir::to_mlir::types::params_text_supported(comp_unit)
    } else {
        bodies_supported(comp_unit)
    }
}

/// Whether every function definition of a program can be lowered: its
/// signature, and its body with the callee table of the program.  This is
/// what building the program's module requires.
fn bodies_supported(comp_unit: &CompilUnit) -> (b: bool)
    ensures
        b == items_lowerable(comp_unit.items@),
{
    let ghost items = comp_unit.items@;
    let mut i: usize = 0;
    while i < comp_unit.items.len()
        invariant
            i <= items.len(),
            items == comp_unit.items@,
            forall|j: int|
                0 <= j < i ==> (#[trigger] items[j] matches Item::FunDef(f) ==> crate::codegen::mlir::to_mlir::types::fun_lowerable(*f)),
        decreases items.len() - i,
    {
        if let Item::FunDef(fun) = &comp_unit.items[i] {
            if !fun_is_lowerable(fun) {
                return false;
            }
        }
        i = i + 1;
    }
    let table = callee_table(comp_unit);
    let mut k: usize = 0;
    while k < comp_unit.items.len()
        invariant
            k <= items.len(),
            items == comp_unit.items@,
            super::items_signatures_lowerable(items),
            (|name: Seq<char>| super::outcome::callee_value(table@, name)) == declared_callees(items),
            forall|j: int|
                0 <= j < k ==> (#[trigger] items[j] matches Item::FunDef(f) ==> super::fun_body_lowerable(
                    *f,
                    declared_callees(items),
                )),
        decreases items.len() - k,
    {
        if let Item::FunDef(fun) = &comp_unit.items[k] {
            let ctx = MlirContext::new(copy_results(&table));
            proof {
                assert(ctx.scope() =~= Map::<Seq<char>, TypeModel>::empty());
                assert forall|name: Seq<char>| #[trigger] (ctx.callees())(name)
                    == declared_callees(items)(name) by {
                    lemma_copy_same_callees(ctx.function_results@, table@, name);
                }
                assert(ctx.callees() =~= declared_callees(items));
                assert(items[k as int] matches Item::FunDef(f) && crate::codegen::mlir::to_mlir::types::fun_lowerable(*f));
            }
            if !expr_supported(&fun.body.body, &ctx) {
                return false;
            }
        }
        k = k + 1;
    }
    true
}

} // verus!
