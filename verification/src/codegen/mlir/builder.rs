//! Lowering of Descend functions and expressions to MLIR operations.
use vstd::prelude::*;

pub mod context;
pub mod control_flow;
pub mod expr;
pub mod laws;
pub mod literal;
pub mod loops;
pub mod lowering;
pub mod naturals;
pub mod ops;
pub mod outcome;
pub mod place;
pub mod support;

use crate::ast::{CompilUnit, FunDef, Item};
use crate::codegen::mlir::ir::{
    lemma_types_model_at, lemma_types_model_len, types_model, IrBlock, IrFunction, IrModule, MlirType, Operation,
    TypeModel,
};
use crate::codegen::mlir::to_mlir::types::{
    annotated_param_tys, fun_lowerable, result_types_model, tys_model, ToMlir,
};
use context::{is_prefix, lemma_prefix_push, lemma_prefix_trans, MlirContext};
use lowering::{between, lowers};
use crate::codegen::mlir::error::MlirError;
use outcome::{callee_results, callee_value, expr_outcome, Outcome};

pub use expr::build_expr;

verus! {

/// Whether no callee is recorded twice.
pub open spec fn keys_unique(fns: Seq<(String, Vec<MlirType>)>) -> bool {
    forall|i: int, j: int|
        0 <= i < fns.len() && 0 <= j < fns.len() && i != j ==> #[trigger] fns[i].0@
            != #[trigger] fns[j].0@
}

/// The result types recorded for `name`, as type contents.
pub open spec fn callee_model(fns: Seq<(String, Vec<MlirType>)>, name: Seq<char>) -> Option<
    Seq<TypeModel>,
> {
    match callee_results(fns, name) {
        Some(ts) => Some(types_model(ts)),
        None => None,
    }
}

pub proof fn lemma_callee_results_at(fns: Seq<(String, Vec<MlirType>)>, i: int)
    requires
        keys_unique(fns),
        0 <= i < fns.len(),
    ensures
        callee_results(fns, fns[i].0@) == Some(fns[i].1@),
    decreases i,
{
    if i > 0 {
        assert(fns[0].0@ != fns[i].0@);
        let rest = fns.drop_first();
        assert(rest[i - 1] == fns[i]);
        assert(keys_unique(rest)) by {
            assert forall|a: int, b: int|
                0 <= a < rest.len() && 0 <= b < rest.len() && a != b implies #[trigger] rest[a].0@
                != #[trigger] rest[b].0@ by {
                assert(rest[a] == fns[a + 1]);
                assert(rest[b] == fns[b + 1]);
            }
        }
        lemma_callee_results_at(rest, i - 1);
    }
}

pub proof fn lemma_callee_results_absent(fns: Seq<(String, Vec<MlirType>)>, name: Seq<char>)
    requires
        forall|i: int| 0 <= i < fns.len() ==> #[trigger] fns[i].0@ != name,
    ensures
        callee_results(fns, name) is None,
    decreases fns.len(),
{
    if fns.len() > 0 {
        let rest = fns.drop_first();
        assert forall|i: int| 0 <= i < rest.len() implies #[trigger] rest[i].0@ != name by {
            assert(rest[i] == fns[i + 1]);
        }
        lemma_callee_results_absent(rest, name);
    }
}

/// Records `types` as the result types of `name`, replacing an earlier
/// record of `name`.
fn insert_result(fns: &mut Vec<(String, Vec<MlirType>)>, name: String, types: Vec<MlirType>)
    requires
        keys_unique(old(fns)@),
    ensures
        keys_unique(final(fns)@),
        callee_model(final(fns)@, name@) == Some(types_model(types@)),
        forall|k: Seq<char>|
            k != name@ ==> #[trigger] callee_model(final(fns)@, k) == callee_model(old(fns)@, k),
{
    let ghost s0 = fns@;
    let ghost n = name@;
    let ghost t = types@;
    let mut i: usize = 0;
    while i < fns.len()
        invariant
            i <= fns@.len(),
            fns@ == s0,
            s0 == old(fns)@,
            n == name@,
            t == types@,
            keys_unique(s0),
            forall|j: int| 0 <= j < i ==> #[trigger] fns@[j].0@ != n,
        decreases fns@.len() - i,
    {
        if crate::text::str_equal(fns[i].0.as_str(), name.as_str()) {
            fns.set(i, (name, types));
            proof {
                let s1 = fns@;
                assert(s0[i as int].0@ == n);
                assert(s1[i as int].0@ == n);
                assert(keys_unique(s1)) by {
                    assert forall|a: int, b: int|
                        0 <= a < s1.len() && 0 <= b < s1.len() && a != b implies #[trigger] s1[a].0@
                        != #[trigger] s1[b].0@ by {
                        if a != i && b != i {
                            assert(s0[a].0@ != s0[b].0@);
                        } else if a == i {
                            assert(s0[i as int].0@ != s0[b].0@);
                        } else {
                            assert(s0[a].0@ != s0[i as int].0@);
                        }
                    }
                }
                lemma_callee_results_at(s1, i as int);
                assert forall|k: Seq<char>| k != n implies #[trigger] callee_model(s1, k)
                    == callee_model(s0, k) by {
                    if exists|j: int| 0 <= j < s0.len() && #[trigger] s0[j].0@ == k {
                        let j = choose|j: int| 0 <= j < s0.len() && #[trigger] s0[j].0@ == k;
                        assert(j != i);
                        assert(s1[j] == s0[j]);
                        lemma_callee_results_at(s0, j);
                        lemma_callee_results_at(s1, j);
                    } else {
                        assert forall|j: int| 0 <= j < s1.len() implies #[trigger] s1[j].0@ != k by {
                            if j != i {
                                assert(s1[j] == s0[j]);
                            }
                        }
                        lemma_callee_results_absent(s0, k);
                        lemma_callee_results_absent(s1, k);
                    }
                }
            }
            return ;
        }
        i = i + 1;
    }
    fns.push((name, types));
    proof {
        let s1 = fns@;
        let last = s1.len() - 1;
        assert(keys_unique(s1)) by {
            assert forall|a: int, b: int|
                0 <= a < s1.len() && 0 <= b < s1.len() && a != b implies #[trigger] s1[a].0@
                != #[trigger] s1[b].0@ by {
                if a != last && b != last {
                    assert(s0[a].0@ != s0[b].0@);
                } else if a == last {
                    assert(s1[b] == s0[b]);
                } else {
                    assert(s1[a] == s0[a]);
                }
            }
        }
        lemma_callee_results_at(s1, last);
        assert forall|k: Seq<char>| k != n implies #[trigger] callee_model(s1, k) == callee_model(
            s0,
            k,
        ) by {
            if exists|j: int| 0 <= j < s0.len() && #[trigger] s0[j].0@ == k {
                let j = choose|j: int| 0 <= j < s0.len() && #[trigger] s0[j].0@ == k;
                assert(s1[j] == s0[j]);
                lemma_callee_results_at(s0, j);
                lemma_callee_results_at(s1, j);
            } else {
                assert forall|j: int| 0 <= j < s1.len() implies #[trigger] s1[j].0@ != k by {
                    if j != last {
                        assert(s1[j] == s0[j]);
                    }
                }
                lemma_callee_results_absent(s0, k);
                lemma_callee_results_absent(s1, k);
            }
        }
    }
}

/// A copy of a callee table.
pub(crate) fn copy_results(fns: &Vec<(String, Vec<MlirType>)>) -> (r: Vec<(String, Vec<MlirType>)>)
    ensures
        r@.len() == fns@.len(),
        forall|i: int|
            0 <= i < fns@.len() ==> #[trigger] r@[i].0 == fns@[i].0 && types_model(r@[i].1@)
                == types_model(fns@[i].1@),
{
    let mut r: Vec<(String, Vec<MlirType>)> = Vec::new();
    let mut i: usize = 0;
    while i < fns.len()
        invariant
            i <= fns@.len(),
            r@.len() == i,
            forall|j: int|
                0 <= j < i ==> #[trigger] r@[j].0 == fns@[j].0 && types_model(r@[j].1@)
                    == types_model(fns@[j].1@),
        decreases fns@.len() - i,
    {
        let src = &fns[i].1;
        let mut out: Vec<MlirType> = Vec::new();
        let mut j: usize = 0;
        while j < src.len()
            invariant
                j <= src@.len(),
                types_model(out@) == types_model(src@.take(j as int)),
            decreases src@.len() - j,
        {
            let ghost before = out@;
            out.push(src[j].copy());
            proof {
                assert(out@.drop_last() =~= before);
                assert(src@.take(j + 1).drop_last() =~= src@.take(j as int));
            }
            j = j + 1;
        }
        proof {
            assert(src@.take(src@.len() as int) =~= src@);
        }
        let ghost before = r@;
        r.push((fns[i].0.clone(), out));
        proof {
            assert forall|m: int| 0 <= m < i + 1 implies #[trigger] r@[m].0 == fns@[m].0
                && types_model(r@[m].1@) == types_model(fns@[m].1@) by {
                if m < i {
                    assert(r@[m] == before[m]);
                }
            }
        }
        i = i + 1;
    }
    r
}

pub proof fn lemma_copy_same_callees(
    a: Seq<(String, Vec<MlirType>)>,
    b: Seq<(String, Vec<MlirType>)>,
    name: Seq<char>,
)
    requires
        a.len() == b.len(),
        forall|i: int|
            0 <= i < a.len() ==> #[trigger] a[i].0 == b[i].0 && types_model(a[i].1@) == types_model(
                b[i].1@,
            ),
    ensures
        callee_model(a, name) == callee_model(b, name),
        callee_value(a, name) == callee_value(b, name),
    decreases a.len(),
{
    if a.len() > 0 {
        assert(a[0].0 == b[0].0);
        let a1 = a.drop_first();
        let b1 = b.drop_first();
        assert forall|i: int| 0 <= i < a1.len() implies #[trigger] a1[i].0 == b1[i].0
            && types_model(a1[i].1@) == types_model(b1[i].1@) by {
            assert(a1[i] == a[i + 1]);
            assert(b1[i] == b[i + 1]);
        }
        lemma_copy_same_callees(a1, b1, name);
        lemma_types_model_len(a[0].1@);
        lemma_types_model_len(b[0].1@);
        if a[0].1@.len() > 0 {
            lemma_types_model_at(a[0].1@, 0);
            lemma_types_model_at(b[0].1@, 0);
        }
    }
}

/// The result types of the last function defined under `name`.
pub open spec fn declared_results(items: Seq<Item>, name: Seq<char>) -> Option<Seq<TypeModel>>
    decreases items.len(),
{
    if items.len() == 0 {
        None
    } else {
        match items.last() {
            Item::FunDef(f) => if f.ident.name@ == name {
                Some(result_types_model(*f.ret_dty))
            } else {
                declared_results(items.drop_last(), name)
            },
            _ => declared_results(items.drop_last(), name),
        }
    }
}

/// The type of the value a call yields, by callee: the first result type of
/// the function defined under that name.
pub open spec fn declared_callees(items: Seq<Item>) -> spec_fn(Seq<char>) -> Option<TypeModel> {
    |name: Seq<char>|
        match declared_results(items, name) {
            Some(ts) => if ts.len() > 0 {
                Some(ts[0])
            } else {
                None
            },
            None => None,
        }
}

/// The function definitions among the items, in order.
pub open spec fn fun_defs(items: Seq<Item>) -> Seq<FunDef>
    decreases items.len(),
{
    if items.len() == 0 {
        Seq::empty()
    } else {
        match items.last() {
            Item::FunDef(f) => fun_defs(items.drop_last()).push(*f),
            _ => fun_defs(items.drop_last()),
        }
    }
}

pub proof fn lemma_fun_defs_prefix(items: Seq<Item>, j: int)
    requires
        0 <= j <= items.len(),
    ensures
        is_prefix(fun_defs(items.take(j)), fun_defs(items)),
    decreases items.len() - j,
{
    if j < items.len() {
        lemma_fun_defs_prefix(items, j + 1);
        assert(items.take(j + 1).drop_last() =~= items.take(j));
        let a = fun_defs(items.take(j));
        let b = fun_defs(items.take(j + 1));
        assert(is_prefix(a, b)) by {
            if items[j] is FunDef {
                lemma_prefix_push(a, b.last());
                assert(b == a.push(b.last()));
            } else {
                assert(b.take(a.len() as int) =~= a);
            }
        }
        lemma_prefix_trans(a, b, fun_defs(items));
    } else {
        assert(items.take(j) =~= items);
        assert(fun_defs(items).take(fun_defs(items).len() as int) =~= fun_defs(items));
    }
}

/// Whether a function and its body can be lowered, given which callees
/// yield a value.
pub open spec fn fun_body_lowerable(
    fun: FunDef,
    callees: spec_fn(Seq<char>) -> Option<TypeModel>,
) -> bool {
    fun_lowerable(fun) && !(expr_outcome(*fun.body.body, Map::empty(), callees) is Unsupported)
}

/// Whether every function definition among the items can be lowered.
pub open spec fn items_lowerable(items: Seq<Item>) -> bool {
    forall|i: int|
        0 <= i < items.len() ==> (#[trigger] items[i] matches Item::FunDef(f) ==> fun_body_lowerable(
            *f,
            declared_callees(items),
        ))
}

/// `b` is the entry block of a function whose body is `body`, lowered from
/// a context with nothing bound, an empty block and no values, whose callee
/// table records for each callee the result types `declared` gives: the
/// block holds the operations lowering appends, then a `func.return` of the
/// body's value (of nothing when it has none or lowering failed); the
/// function's values are those lowering defined.
pub open spec fn body_built(
    b: IrBlock,
    value_types: Seq<MlirType>,
    body: crate::ast::Expr,
    declared: spec_fn(Seq<char>) -> Option<Seq<TypeModel>>,
) -> bool {
    exists|c0: MlirContext, c: MlirContext, r: Result<Option<usize>, MlirError>|
        #![trigger between(c, (c0, r))]
        {
            &&& between(c, (c0, r))
            &&& c0.variables@.len() == 0
            &&& c0.current_block@.len() == 0
            &&& c0.value_types@.len() == 0
            &&& forall|name: Seq<char>| #[trigger] callee_model(c0.function_results@, name) == declared(name)
            &&& lowers(body, c0, c, r)
            &&& b.arguments@.len() == 0
            &&& b.operations@.len() == c.current_block@.len() + 1
            &&& b.operations@.drop_last() == c.current_block@
            &&& b.operations@.last() matches Operation::Return { operands } && operands@ == (match r {
                Ok(Some(v)) => seq![v],
                _ => Seq::<usize>::empty(),
            })
            &&& value_types == c.value_types@
        }
}

/// `f` is the lowering of `fun`: its name and signature, and a body whose
/// entry block holds the operations its lowering appends and ends in a
/// `func.return` of the body's value when the body yields one, and of
/// nothing otherwise.
pub open spec fn built_function(
    f: IrFunction,
    fun: FunDef,
    callees: spec_fn(Seq<char>) -> Option<TypeModel>,
    declared: spec_fn(Seq<char>) -> Option<Seq<TypeModel>>,
) -> bool {
    &&& f.body matches Some(b) && body_built(b, f.value_types@, *fun.body.body, declared)
    &&& f.name@ == fun.ident.name@
    &&& types_model(f.inputs@) == tys_model(annotated_param_tys(fun.param_decls@))
    &&& types_model(f.results@) == result_types_model(*fun.ret_dty)
    &&& f.body matches Some(b) && b.arguments@.len() == 0 && b.operations@.len() > 0 && (
    b.operations@.last() matches Operation::Return { operands } && operands@.len() == (if expr_outcome(
        *fun.body.body,
        Map::empty(),
        callees,
    ) matches Outcome::Built { value: Some(_), scope: _ } {
        1int
    } else {
        0int
    }) && (operands@.len() == 1 ==> operands@[0] < f.value_types@.len() && f.value_types@[operands@[0] as int]@
        == expr_outcome(*fun.body.body, Map::empty(), callees)->Built_value->Some_0))
}

/// Whether the signature of every function definition can be lowered.
pub open spec fn items_signatures_lowerable(items: Seq<Item>) -> bool {
    forall|i: int|
        0 <= i < items.len() ==> (#[trigger] items[i] matches Item::FunDef(f) ==> fun_lowerable(*f))
}

/// The callee table of a program: for each defined function, by name, the
/// result types of its last definition (none for a unit result).
pub(crate) fn callee_table(comp: &CompilUnit) -> (t: Vec<(String, Vec<MlirType>)>)
    requires
        items_signatures_lowerable(comp.items@),
    ensures
        keys_unique(t@),
        forall|name: Seq<char>| #[trigger]
            callee_model(t@, name) == declared_results(comp.items@, name),
        (|name: Seq<char>| callee_value(t@, name)) == declared_callees(comp.items@),
{
    let ghost items = comp.items@;
    let mut results_map: Vec<(String, Vec<MlirType>)> = Vec::new();
    let mut i: usize = 0;
    proof {
        assert(items.take(0) =~= Seq::<Item>::empty());
    }
    while i < comp.items.len()
        invariant
            i <= items.len(),
            items == comp.items@,
            items_signatures_lowerable(items),
            keys_unique(results_map@),
            forall|name: Seq<char>|
                #[trigger] callee_model(results_map@, name) == declared_results(
                    items.take(i as int),
                    name,
                ),
        decreases items.len() - i,
    {
        proof {
            assert(items.take(i + 1).drop_last() =~= items.take(i as int));
            assert(items.take(i + 1).last() == items[i as int]);
        }
        match &comp.items[i] {
            Item::FunDef(fun) => {
                proof {
                    assert(items[i as int] matches Item::FunDef(f) && fun_lowerable(*f));
                }
                let ret_ty = fun.ret_dty.to_mlir();
                let mut res_types: Vec<MlirType> = Vec::new();
                if !ret_ty.is_none_type() {
                    res_types.push(ret_ty);
                    proof {
                        assert(res_types@.drop_last() =~= Seq::<MlirType>::empty());
                        assert(types_model(Seq::<MlirType>::empty()) =~= Seq::<TypeModel>::empty());
                        assert(types_model(res_types@) =~= seq![ret_ty@]);
                    }
                }
                proof {
                    assert(types_model(res_types@) =~= result_types_model(*fun.ret_dty));
                }
                insert_result(&mut results_map, fun.ident.name.clone(), res_types);
            },
            _ => {},
        }
        i = i + 1;
    }
    proof {
        assert(items.take(items.len() as int) =~= items);
        assert forall|name: Seq<char>| #[trigger] callee_value(results_map@, name)
            == declared_callees(items)(name) by {
            assert(callee_model(results_map@, name) == declared_results(items, name));
            match callee_results(results_map@, name) {
                Some(ts) => {
                    lemma_types_model_len(ts);
                    if ts.len() > 0 {
                        lemma_types_model_at(ts, 0);
                    }
                },
                None => {},
            }
        }
        assert((|name: Seq<char>| callee_value(results_map@, name)) =~= declared_callees(items));
    }
    results_map
}

/// Builds the MLIR module of a program.
pub struct MlirBuilder {
    module: IrModule,
}

impl MlirBuilder {
    pub fn new(module: IrModule) -> (b: Self)
        ensures
            b.spec_module() == module,
    {
        MlirBuilder { module }
    }

    /// The module built so far.
    pub closed spec fn spec_module(&self) -> IrModule {
        self.module
    }

    /// The module built so far.
    pub fn module(&self) -> (m: &IrModule)
        ensures
            *m == self.spec_module(),
    {
        &self.module
    }

    /// The module built, taken out of the builder.
    pub fn into_module(self) -> (m: IrModule)
        ensures
            m == self.spec_module(),
    {
        self.module
    }

    /// Lowers the body of `fun` with the given callee table into an entry
    /// block ending in a `func.return`.
    fn build_body(fun: &FunDef, function_results: Vec<(String, Vec<MlirType>)>) -> (r: (
        IrBlock,
        Vec<MlirType>,
    ))
        requires
            !(expr_outcome(
                *fun.body.body,
                Map::empty(),
                |name: Seq<char>| callee_value(function_results@, name),
            ) is Unsupported),
        ensures
            r.0.arguments@.len() == 0,
            r.0.operations@.len() > 0,
            r.0.operations@.last() matches Operation::Return { operands } && operands@.len() == (
            if expr_outcome(
                *fun.body.body,
                Map::empty(),
                |name: Seq<char>| callee_value(function_results@, name),
            ) matches Outcome::Built { value: Some(_), scope: _ } {
                1int
            } else {
                0int
            }) && (operands@.len() == 1 ==> operands@[0] < r.1@.len() && r.1@[operands@[0] as int]@
                == expr_outcome(
                *fun.body.body,
                Map::empty(),
                |name: Seq<char>| callee_value(function_results@, name),
            )->Built_value->Some_0),
            body_built(
                r.0,
                r.1@,
                *fun.body.body,
                |name: Seq<char>| callee_model(function_results@, name),
            ),
    {
        let ghost fr = function_results@;
        let mut ctx = MlirContext::new(function_results);
        let ghost c0 = ctx;
        proof {
            assert(ctx.scope() =~= Map::<Seq<char>, TypeModel>::empty());
        }
        let result_value = build_expr(&fun.body.body, &mut ctx);
        let ghost c = ctx;
        let mut operands: Vec<usize> = Vec::new();
        match result_value {
            Ok(Some(v)) => operands.push(v),
            _ => {},
        }
        proof {
            assert(operands@ =~= (match result_value {
                Ok(Some(v)) => seq![v],
                _ => Seq::<usize>::empty(),
            }));
        }
        ctx.current_block.push(Operation::Return { operands });
        proof {
            assert(ctx.current_block@.drop_last() =~= c.current_block@);
            assert(between(c, (c0, result_value)));
            assert(forall|name: Seq<char>| #[trigger] callee_model(c0.function_results@, name)
                == (|name: Seq<char>| callee_model(fr, name))(name));
        }
        (IrBlock { arguments: Vec::new(), operations: ctx.current_block }, ctx.value_types)
    }

    /// Builds an item: a function definition becomes a function of the
    /// module; declarations add nothing.
    pub fn build_item(&mut self, item: &Item)
        requires
            *item matches Item::FunDef(f) ==> fun_body_lowerable(*f, |name: Seq<char>| None),
        ensures
            *item matches Item::FunDef(f) ==> final(self).spec_module().functions@.len()
                == old(self).spec_module().functions@.len() + 1 && final(self).spec_module().functions@.drop_last()
                == old(self).spec_module().functions@ && built_function(
                final(self).spec_module().functions@.last(),
                *f,
                |name: Seq<char>| None,
                |name: Seq<char>| None,
            ),
            !(*item is FunDef) ==> final(self).spec_module() == old(self).spec_module(),
    {
        match item {
            Item::FunDef(fun) => self.build_function(fun),
            Item::FunDecl(_) => {},
            Item::StructDecl(_) => {},
        }
    }

    /// Builds a function definition on its own: calls in its body are
    /// taken to yield no value.
    fn build_function(&mut self, fun: &FunDef)
        requires
            fun_body_lowerable(*fun, |name: Seq<char>| None),
        ensures
            final(self).spec_module().functions@.len() == old(self).spec_module().functions@.len() + 1,
            final(self).spec_module().functions@.drop_last() == old(self).spec_module().functions@,
            built_function(
                final(self).spec_module().functions@.last(),
                *fun,
                |name: Seq<char>| None,
                |name: Seq<char>| None,
            ),
    {
        let mut function_op = fun.to_mlir();
        let no_results: Vec<(String, Vec<MlirType>)> = Vec::new();
        proof {
            assert((|name: Seq<char>| callee_value(no_results@, name)) =~= (|name: Seq<char>|
                None::<TypeModel>));
            assert((|name: Seq<char>| callee_model(no_results@, name)) =~= (|name: Seq<char>|
                None::<Seq<TypeModel>>));
        }
        let (block, value_types) = Self::build_body(fun, no_results);
        function_op.body = Some(block);
        function_op.value_types = value_types;
        self.module.functions.push(function_op);
        proof {
            assert(self.module.functions@.drop_last() =~= old(self).spec_module().functions@);
        }
    }

    /// Builds all function definitions in two passes: the first declares
    /// every function and records its result types, so that the second can
    /// give each call the result types of its callee while building bodies.
    pub fn build_items_two_pass(&mut self, comp: &CompilUnit)
        requires
            items_lowerable(comp.items@),
        ensures
            final(self).spec_module().functions@.len() == old(self).spec_module().functions@.len() + fun_defs(
                comp.items@,
            ).len(),
            final(self).spec_module().functions@.take(old(self).spec_module().functions@.len() as int)
                == old(self).spec_module().functions@,
            forall|k: int|
                0 <= k < fun_defs(comp.items@).len() ==> built_function(
                    #[trigger] final(self).spec_module().functions@[old(self).spec_module().functions@.len() + k],
                    fun_defs(comp.items@)[k],
                    declared_callees(comp.items@),
                    |name: Seq<char>| declared_results(comp.items@, name),
                ),
    {
        let ghost items = comp.items@;
        let ghost f0 = self.module.functions@;
        let base = self.module.functions.len();
        proof {
            assert forall|i: int| 0 <= i < items.len() implies (#[trigger] items[i] matches Item::FunDef(
                f,
            ) ==> fun_lowerable(*f)) by {
                if items[i] is FunDef {
                    assert(fun_body_lowerable(*items[i]->FunDef_0, declared_callees(items)));
                }
            }
        }

        // Pass 1: record the result types of all functions and declare them.
        let results_map = callee_table(comp);
        let mut i: usize = 0;
        proof {
            assert(items.take(0) =~= Seq::<Item>::empty());
            assert(self.module.functions@.take(base as int) =~= f0);
        }
        while i < comp.items.len()
            invariant
                i <= items.len(),
                items == comp.items@,
                items_lowerable(items),
                base == f0.len(),
                self.module.functions@.len() == base + fun_defs(items.take(i as int)).len(),
                self.module.functions@.take(base as int) == f0,
            decreases items.len() - i,
        {
            proof {
                assert(items.take(i + 1).drop_last() =~= items.take(i as int));
                assert(items.take(i + 1).last() == items[i as int]);
            }
            match &comp.items[i] {
                Item::FunDef(fun) => {
                    proof {
                        assert(items[i as int] matches Item::FunDef(f) && fun_body_lowerable(
                            *f,
                            declared_callees(items),
                        ));
                    }
                    let op = fun.to_mlir();
                    let ghost before = self.module.functions@;
                    self.module.functions.push(op);
                    proof {
                        assert(self.module.functions@.take(base as int) =~= before.take(
                            base as int,
                        ));
                    }
                },
                _ => {},
            }
            i = i + 1;
        }
        proof {
            assert(items.take(items.len() as int) =~= items);
        }

        // Pass 2: build the bodies.
        let total = self.module.functions.len();
        let mut k: usize = 0;
        let mut j: usize = 0;
        proof {
            assert(items.take(0) =~= Seq::<Item>::empty());
        }
        while j < comp.items.len()
            invariant
                j <= items.len(),
                items == comp.items@,
                items_lowerable(items),
                base == f0.len(),
                (|name: Seq<char>| callee_value(results_map@, name)) == declared_callees(items),
                forall|name: Seq<char>| #[trigger]
                    callee_model(results_map@, name) == declared_results(items, name),
                k == fun_defs(items.take(j as int)).len(),
                self.module.functions@.len() == base + fun_defs(items).len(),
                total == self.module.functions@.len(),
                self.module.functions@.take(base as int) == f0,
                forall|m: int|
                    0 <= m < k ==> built_function(
                        #[trigger] self.module.functions@[base + m],
                        fun_defs(items)[m],
                        declared_callees(items),
                        |name: Seq<char>| declared_results(items, name),
                    ),
            decreases items.len() - j,
        {
            proof {
                assert(items.take(j + 1).drop_last() =~= items.take(j as int));
                assert(items.take(j + 1).last() == items[j as int]);
                lemma_fun_defs_prefix(items, j + 1);
            }
            match &comp.items[j] {
                Item::FunDef(fun) => {
                    proof {
                        assert(items[j as int] matches Item::FunDef(f) && fun_body_lowerable(
                            *f,
                            declared_callees(items),
                        ));
                        assert(fun_defs(items.take(j + 1)) == fun_defs(items.take(j as int)).push(
                            **fun,
                        ));
                        assert(fun_defs(items)[k as int] == fun_defs(items.take(j + 1))[k as int]);
                        assert(k < fun_defs(items).len());
                    }
                    let table = copy_results(&results_map);
                    proof {
                        assert forall|name: Seq<char>| #[trigger] callee_value(table@, name)
                            == callee_value(results_map@, name) && callee_model(table@, name)
                            == declared_results(items, name) by {
                            lemma_copy_same_callees(table@, results_map@, name);
                            assert(callee_model(results_map@, name) == declared_results(items, name));
                        }
                        assert((|name: Seq<char>| callee_value(table@, name)) =~= (|name: Seq<
                            char,
                        >| callee_value(results_map@, name)));
                        assert forall|name: Seq<char>| #[trigger] callee_model(table@, name)
                            == declared_results(items, name) by {
                            assert(callee_value(table@, name) == callee_value(results_map@, name));
                        }
                        assert((|name: Seq<char>| callee_model(table@, name)) =~= (|name: Seq<
                            char,
                        >| declared_results(items, name)));
                    }
                    let (block, value_types) = Self::build_body(fun, table);
                    let mut f = fun.to_mlir();
                    f.body = Some(block);
                    f.value_types = value_types;
                    let ghost before = self.module.functions@;
                    self.module.functions.set(base + k, f);
                    proof {
                        assert(self.module.functions@.take(base as int) =~= before.take(
                            base as int,
                        ));
                        assert forall|m: int| 0 <= m < k + 1 implies built_function(
                            #[trigger] self.module.functions@[base + m],
                            fun_defs(items)[m],
                            declared_callees(items),
                            |name: Seq<char>| declared_results(items, name),
                        ) by {
                            if m < k {
                                assert(self.module.functions@[base + m] == before[base + m]);
                            }
                        }
                    }
                    k = k + 1;
                },
                _ => {},
            }
            j = j + 1;
        }
        proof {
            assert(items.take(items.len() as int) =~= items);
        }
    }
}

} // verus!
