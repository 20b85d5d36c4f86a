//! What lowering an expression yields, stated over scopes.
//!
//! Lowering an expression either fails with an error, or succeeds with or
//! without a result value.  A scope maps each bound variable name to the type
//! of the value bound to it.  Whether lowering fails, the type of the value it
//! yields, and the scope it leaves depend only on the expression, the scope
//! before, and the result types of callees.  Expressions the back end does not
//! support are `Unsupported`.
use vstd::prelude::*;

use crate::ast::{
    BinOp, Expr, ExprKind, Ident, Lit, Nat, NatRange, Pattern, PlaceExpr, PlaceExprKind, Ty,
};
use crate::codegen::mlir::error::{MlirError, MlirErrorView};
use crate::codegen::mlir::ir::{MlirType, TypeModel};
use crate::codegen::mlir::to_mlir::types::{ty_lowerable, ty_model};
use super::context::{extends, rank0_memref, MlirContext};
use super::literal::{attr_type, literal_attr};
use super::ops::{arith_op_of, arith_result_type};

verus! {

/// Names bound to the types of their values.
pub type Scope = Map<Seq<char>, TypeModel>;

/// The result of lowering.
pub enum Outcome {
    /// The expression, or a part of it that lowering reaches, is outside what
    /// the back end supports.
    Unsupported,
    /// Lowering reports a general error with message `msg`; `scope` is the
    /// scope at that point.
    Failed { msg: Seq<char>, scope: Scope },
    /// Lowering succeeds; `value` is the type of the value it yields, if any;
    /// `scope` is the scope afterwards.
    Built { value: Option<TypeModel>, scope: Scope },
}

/// The result types recorded for `name`: those of its first entry.
pub open spec fn callee_results(fns: Seq<(String, Vec<MlirType>)>, name: Seq<char>) -> Option<
    Seq<MlirType>,
>
    decreases fns.len(),
{
    if fns.len() == 0 {
        None
    } else if fns[0].0@ == name {
        Some(fns[0].1@)
    } else {
        callee_results(fns.drop_first(), name)
    }
}

/// The type of the value a call of `name` yields: its first recorded result
/// type, if any.
pub open spec fn callee_value(fns: Seq<(String, Vec<MlirType>)>, name: Seq<char>) -> Option<
    TypeModel,
> {
    match callee_results(fns, name) {
        Some(r) => if r.len() > 0 {
            Some(r[0]@)
        } else {
            None
        },
        None => None,
    }
}

/// Lowering a natural-number term: `None` when unsupported, otherwise
/// whether it yields a value (all names it mentions are bound).
pub open spec fn nat_outcome(n: Nat, names: Set<Seq<char>>) -> Option<bool>
    decreases n,
{
    match n {
        Nat::Lit(_) => Some(true),
        Nat::Ident(i) => Some(names.contains(i.name@)),
        Nat::BinOp(_, l, r) => match nat_outcome(*l, names) {
            Some(true) => nat_outcome(*r, names),
            other => other,
        },
        _ => None,
    }
}

/// Reading a place: `None` when unsupported, otherwise the type of the value
/// it yields, if any: a name's type, or `i32` loaded through a reference.
pub open spec fn place_outcome(p: PlaceExpr, scope: Scope) -> Option<Option<TypeModel>>
    decreases p,
{
    match p.pl_expr {
        PlaceExprKind::Ident(i) => Some(
            if scope.contains_key(i.name@) {
                Some(scope[i.name@])
            } else {
                None
            },
        ),
        PlaceExprKind::Deref(inner) => match place_outcome(*inner, scope) {
            Some(Some(_)) => Some(Some(TypeModel::Integer(32))),
            other => other,
        },
        _ => None,
    }
}

/// An operand that must yield a value: without one, lowering fails with `msg`.
pub open spec fn valued(o: Outcome, msg: Seq<char>) -> Outcome {
    match o {
        Outcome::Built { value: None, scope } => Outcome::Failed { msg, scope },
        other => other,
    }
}

pub open spec fn missing_lhs_msg() -> Seq<char> {
    "Missing left operand for binary operation"@
}

pub open spec fn missing_rhs_msg() -> Seq<char> {
    "Missing right operand for binary operation"@
}

pub open spec fn missing_operand_msg() -> Seq<char> {
    "Missing operand for function call"@
}

pub open spec fn missing_if_else_cond_msg() -> Seq<char> {
    "Missing condition value for if-else expression"@
}

pub open spec fn missing_if_cond_msg() -> Seq<char> {
    "Missing condition value for if expression"@
}

pub open spec fn unknown_ref_msg() -> Seq<char> {
    "address-of of unknown identifier"@
}

/// The scope an outcome leaves, whether it succeeded or failed.
pub open spec fn outcome_scope(o: Outcome) -> Scope {
    match o {
        Outcome::Built { value: _, scope } => scope,
        Outcome::Failed { msg: _, scope } => scope,
        Outcome::Unsupported => Map::empty(),
    }
}

/// The type of a literal's constant, none for unit.
pub open spec fn literal_value(l: Lit) -> Option<TypeModel> {
    if l is Unit {
        None
    } else {
        Some(attr_type(literal_attr(l)))
    }
}

/// Lowering `e` in the scope `scope`, where a call of `f` yields a value of
/// type `t` exactly when `fns(f) == Some(t)`.
pub open spec fn expr_outcome(
    e: Expr,
    scope: Scope,
    fns: spec_fn(Seq<char>) -> Option<TypeModel>,
) -> Outcome
    decreases expr_size(e), 0int,
{
    match e.expr {
        ExprKind::Hole => Outcome::Built { value: None, scope },
        ExprKind::Lit(l) => Outcome::Built { value: literal_value(l), scope },
        ExprKind::Block(b) => expr_outcome(*b.body, scope, fns),
        ExprKind::BinOp(op, l, r) => binop_outcome(op, *l, *r, scope, fns),
        ExprKind::Let(pat, ty, v) => let_outcome(pat, ty, *v, scope, fns),
        ExprKind::PlaceExpr(p) => match place_outcome(*p, scope) {
            Some(v) => Outcome::Built { value: v, scope },
            None => Outcome::Unsupported,
        },
        ExprKind::Sequence(es) => seq_outcome(es@, scope, fns),
        ExprKind::Ref(_, _, p) => ref_outcome(*p, scope),
        ExprKind::Assign(p, v) => assign_outcome(*p, *v, scope, fns),
        ExprKind::App(f, _, args) => match args_outcome(args@, scope, fns) {
            Outcome::Built { value: _, scope: s } => Outcome::Built { value: fns(f.name@), scope: s },
            other => other,
        },
        ExprKind::IfElse(c, t, f) => if_else_outcome(*c, *t, *f, scope, fns),
        ExprKind::If(c, t) => if_outcome(*c, *t, scope, fns),
        ExprKind::ForNat(i, range, body) => for_nat_outcome(i, range, *body, scope, fns),
        ExprKind::Unsafe(inner) => expr_outcome(*inner, scope, fns),
        _ => Outcome::Unsupported,
    }
}

/// A binary operation: both operands in turn, each must yield a value; the
/// result has the type of the operation on the left operand's type.
pub open spec fn binop_outcome(
    op: BinOp,
    l: Expr,
    r: Expr,
    scope: Scope,
    fns: spec_fn(Seq<char>) -> Option<TypeModel>,
) -> Outcome
    decreases expr_size(l) + expr_size(r), 1int,
{
    match valued(expr_outcome(l, scope, fns), missing_lhs_msg()) {
        Outcome::Built { value: tl, scope: s1 } => match valued(
            expr_outcome(r, s1, fns),
            missing_rhs_msg(),
        ) {
            Outcome::Built { value: _, scope: s2 } => Outcome::Built {
                value: Some(arith_result_type(arith_op_of(op), tl.unwrap())),
                scope: s2,
            },
            other => other,
        },
        other => other,
    }
}

/// A let binding: the bound value, or without one a memory slot of the
/// annotated type; nothing is bound when there is neither.
pub open spec fn let_outcome(
    pat: Pattern,
    ty: Option<Box<Ty>>,
    v: Expr,
    scope: Scope,
    fns: spec_fn(Seq<char>) -> Option<TypeModel>,
) -> Outcome
    decreases expr_size(v), 1int,
{
    match expr_outcome(v, scope, fns) {
        Outcome::Built { value, scope: s } => if value is None && ty is None {
            Outcome::Built { value: None, scope: s }
        } else if value is None && !ty_lowerable(*ty.unwrap()) {
            Outcome::Unsupported
        } else {
            let bound = match value {
                Some(t) => t,
                None => ty_model(*ty.unwrap()),
            };
            match pat {
                Pattern::Ident(_, i) => Outcome::Built {
                    value: None,
                    scope: s.insert(i.name@, bound),
                },
                Pattern::Wildcard => Outcome::Built { value: None, scope: s },
                Pattern::Tuple(_) => Outcome::Unsupported,
            }
        },
        other => other,
    }
}

/// Taking the address of a bound name yields a rank-0 `memref<i32>`.
pub open spec fn ref_outcome(p: PlaceExpr, scope: Scope) -> Outcome {
    match p.pl_expr {
        PlaceExprKind::Ident(i) => if scope.contains_key(i.name@) {
            Outcome::Built { value: Some(rank0_memref(TypeModel::Integer(32))), scope }
        } else {
            Outcome::Failed { msg: unknown_ref_msg(), scope }
        },
        _ => Outcome::Unsupported,
    }
}

/// An assignment: to a name rebinds it, through a reference stores; a value
/// expression without a value assigns nothing.
pub open spec fn assign_outcome(
    p: PlaceExpr,
    v: Expr,
    scope: Scope,
    fns: spec_fn(Seq<char>) -> Option<TypeModel>,
) -> Outcome
    decreases expr_size(v), 1int,
{
    match expr_outcome(v, scope, fns) {
        Outcome::Built { value, scope: s } => match value {
            None => Outcome::Built { value: None, scope: s },
            Some(t) => match p.pl_expr {
                PlaceExprKind::Ident(i) => Outcome::Built { value: None, scope: s.insert(i.name@, t) },
                PlaceExprKind::Deref(inner) => if place_outcome(*inner, s) matches Some(Some(_)) {
                    Outcome::Built { value: None, scope: s }
                } else {
                    Outcome::Unsupported
                },
                _ => Outcome::Unsupported,
            },
        },
        other => other,
    }
}

/// A two-armed conditional: the condition must yield a value; each arm is
/// lowered in a region of its own, after which the scope of the enclosing
/// block is restored; the value is that of the first arm.
pub open spec fn if_else_outcome(
    c: Expr,
    t: Expr,
    f: Expr,
    scope: Scope,
    fns: spec_fn(Seq<char>) -> Option<TypeModel>,
) -> Outcome
    decreases expr_size(c) + expr_size(t) + expr_size(f), 1int,
{
    match valued(expr_outcome(c, scope, fns), missing_if_else_cond_msg()) {
        Outcome::Built { value: _, scope: sc } => match expr_outcome(t, sc, fns) {
            Outcome::Built { value: vt, scope: _ } => match expr_outcome(f, sc, fns) {
                Outcome::Built { value: _, scope: _ } => Outcome::Built { value: vt, scope: sc },
                other => other,
            },
            other => other,
        },
        other => other,
    }
}

/// A one-armed conditional: it yields no value.
pub open spec fn if_outcome(
    c: Expr,
    t: Expr,
    scope: Scope,
    fns: spec_fn(Seq<char>) -> Option<TypeModel>,
) -> Outcome
    decreases expr_size(c) + expr_size(t), 1int,
{
    match valued(expr_outcome(c, scope, fns), missing_if_cond_msg()) {
        Outcome::Built { value: _, scope: sc } => match expr_outcome(t, sc, fns) {
            Outcome::Built { value: _, scope: _ } => Outcome::Built { value: None, scope: sc },
            other => other,
        },
        other => other,
    }
}

/// The scope in which a loop body starts: the loop variable as an `index`,
/// unless a variable of that name is carried through the loop.
pub open spec fn loop_body_scope(i: Ident, scope: Scope) -> Scope {
    Map::<Seq<char>, TypeModel>::empty().insert(i.name@, TypeModel::Index).union_prefer_right(scope)
}

/// A loop over a simple range: without both bounds nothing happens;
/// otherwise the body is lowered with the loop variable bound, an error in it
/// is not reported, and afterwards every variable bound before the loop is
/// bound with its type from before, every other variable bound at the end of
/// the body stays bound, and the loop variable is unbound.
pub open spec fn for_nat_outcome(
    i: Ident,
    range: NatRange,
    body: Expr,
    scope: Scope,
    fns: spec_fn(Seq<char>) -> Option<TypeModel>,
) -> Outcome
    decreases expr_size(body), 1int,
{
    match range {
        NatRange::Simple { lower, upper } => match nat_outcome(lower, scope.dom()) {
            None => Outcome::Unsupported,
            Some(false) => Outcome::Built { value: None, scope },
            Some(true) => match nat_outcome(upper, scope.dom()) {
                None => Outcome::Unsupported,
                Some(false) => Outcome::Built { value: None, scope },
                Some(true) => match expr_outcome(body, loop_body_scope(i, scope), fns) {
                    Outcome::Unsupported => Outcome::Unsupported,
                    o => Outcome::Built {
                        value: None,
                        scope: outcome_scope(o).union_prefer_right(scope).remove(i.name@),
                    },
                },
            },
        },
        _ => Outcome::Unsupported,
    }
}

/// Lowering a sequence: each expression in turn; the value is the last one's.
pub open spec fn seq_outcome(
    es: Seq<Expr>,
    scope: Scope,
    fns: spec_fn(Seq<char>) -> Option<TypeModel>,
) -> Outcome
    decreases exprs_size(es), 1int,
{
    if es.len() == 0 {
        Outcome::Built { value: None, scope }
    } else {
        proof {
            lemma_expr_size_pos(es.last());
        }
        match seq_outcome(es.drop_last(), scope, fns) {
            Outcome::Built { value: _, scope: s } => expr_outcome(es.last(), s, fns),
            other => other,
        }
    }
}

/// Lowering call arguments: each in turn, each must yield a value.
pub open spec fn args_outcome(
    args: Seq<Expr>,
    scope: Scope,
    fns: spec_fn(Seq<char>) -> Option<TypeModel>,
) -> Outcome
    decreases exprs_size(args), 1int,
{
    if args.len() == 0 {
        Outcome::Built { value: None, scope }
    } else {
        proof {
            lemma_expr_size_pos(args.last());
        }
        match args_outcome(args.drop_last(), scope, fns) {
            Outcome::Built { value: _, scope: s } => valued(
                expr_outcome(args.last(), s, fns),
                missing_operand_msg(),
            ),
            other => other,
        }
    }
}

/// Lowering from `before` to `after` with result `r` met the outcome `o`:
/// the context stays well formed and only grows; on success the result is a
/// value of the outcome's type exactly when the outcome has one; on failure
/// the error is the general error of `o`; either way the scope is that of
/// `o`.
pub open spec fn meets(
    o: Outcome,
    before: MlirContext,
    after: MlirContext,
    r: Result<Option<usize>, MlirError>,
) -> bool {
    &&& after.wf()
    &&& extends(before, after)
    &&& (r matches Ok(Some(v)) ==> v < after.value_types@.len())
    &&& match o {
        Outcome::Built { value, scope } => (r matches Ok(res) && res.is_some() == value.is_some())
            && (r matches Ok(Some(v)) ==> after.value_types@[v as int]@ == value->Some_0)
            && after.scope() == scope,
        Outcome::Failed { msg, scope } => (r matches Err(err) && err@ == MlirErrorView::General(
            msg,
        )) && after.scope() == scope,
        Outcome::Unsupported => true,
    }
}

/// Once a prefix of a sequence fails, the sequence fails the same way.
pub proof fn lemma_seq_outcome_stops(
    es: Seq<Expr>,
    k: int,
    scope: Scope,
    fns: spec_fn(Seq<char>) -> Option<TypeModel>,
)
    requires
        0 <= k <= es.len(),
        !(seq_outcome(es.take(k), scope, fns) is Built),
    ensures
        seq_outcome(es, scope, fns) == seq_outcome(es.take(k), scope, fns),
    decreases es.len() - k,
{
    if k < es.len() {
        assert(es.take(k + 1).drop_last() =~= es.take(k));
        lemma_seq_outcome_stops(es, k + 1, scope, fns);
    } else {
        assert(es.take(k) =~= es);
    }
}

/// Once a prefix of the arguments fails, all of them fail the same way.
pub proof fn lemma_args_outcome_stops(
    args: Seq<Expr>,
    k: int,
    scope: Scope,
    fns: spec_fn(Seq<char>) -> Option<TypeModel>,
)
    requires
        0 <= k <= args.len(),
        !(args_outcome(args.take(k), scope, fns) is Built),
    ensures
        args_outcome(args, scope, fns) == args_outcome(args.take(k), scope, fns),
    decreases args.len() - k,
{
    if k < args.len() {
        assert(args.take(k + 1).drop_last() =~= args.take(k));
        lemma_args_outcome_stops(args, k + 1, scope, fns);
    } else {
        assert(args.take(k) =~= args);
    }
}

/// A size of expressions that lowering recursion decreases.
pub open spec fn expr_size(e: Expr) -> nat
    decreases e, 1int,
{
    1 + match e.expr {
        ExprKind::Block(b) => expr_size(*b.body),
        ExprKind::BinOp(_, l, r) => expr_size(*l) + expr_size(*r),
        ExprKind::Let(_, _, v) => expr_size(*v),
        ExprKind::Sequence(es) => exprs_size(es@),
        ExprKind::Assign(_, v) => expr_size(*v),
        ExprKind::App(_, _, args) => exprs_size(args@),
        ExprKind::IfElse(c, t, f) => expr_size(*c) + expr_size(*t) + expr_size(*f),
        ExprKind::If(c, t) => expr_size(*c) + expr_size(*t),
        ExprKind::ForNat(_, _, body) => expr_size(*body),
        ExprKind::Unsafe(inner) => expr_size(*inner),
        _ => 0,
    }
}

pub open spec fn exprs_size(s: Seq<Expr>) -> nat
    decreases s, 0int,
{
    if s.len() == 0 {
        0
    } else {
        exprs_size(s.drop_last()) + expr_size(s.last())
    }
}

pub proof fn lemma_expr_size_pos(e: Expr)
    ensures
        expr_size(e) >= 1,
{
}

pub proof fn lemma_exprs_size_bound(s: Seq<Expr>, i: int)
    requires
        0 <= i < s.len(),
    ensures
        expr_size(s[i]) <= exprs_size(s),
    decreases s.len(),
{
    if i < s.len() - 1 {
        lemma_exprs_size_bound(s.drop_last(), i);
    }
}

} // verus!
