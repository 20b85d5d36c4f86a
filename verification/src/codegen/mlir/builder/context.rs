//! The state of lowering one function body, and helpers that append single
//! operations to the current block.
//!
//! The context holds:
//! - the variable bindings, from names to value numbers, each name once;
//! - the operations of the block being filled;
//! - the type of every value defined so far;
//! - the result types of the functions of the module, for calls.
use vstd::prelude::*;

use crate::codegen::mlir::error::MlirError;
use crate::codegen::mlir::ir::{ConstantAttr, MlirType, Operation, TypeModel};
use super::outcome::{callee_value, Scope};

verus! {

/// Whether no name is bound twice.
pub open spec fn names_unique(s: Seq<(String, usize)>) -> bool {
    forall|i: int, j: int|
        0 <= i < s.len() && 0 <= j < s.len() && i != j ==> #[trigger] s[i].0@ != #[trigger] s[j].0@
}

/// Whether `k` is bound.
pub open spec fn binds(s: Seq<(String, usize)>, k: Seq<char>) -> bool {
    exists|i: int| 0 <= i < s.len() && #[trigger] s[i].0@ == k
}

/// The value bound to `k`.
pub open spec fn bound_value(s: Seq<(String, usize)>, k: Seq<char>) -> usize {
    s[choose|i: int| 0 <= i < s.len() && #[trigger] s[i].0@ == k].1
}

/// The set of bound names.
pub open spec fn scope_of(s: Seq<(String, usize)>) -> Set<Seq<char>> {
    Set::new(|k: Seq<char>| binds(s, k))
}

/// Binding one more name adds it to the scope.
pub proof fn lemma_scope_of_take_next(s: Seq<(String, usize)>, k: int)
    requires
        0 <= k < s.len(),
    ensures
        scope_of(s.take(k + 1)) == scope_of(s.take(k)).insert(s[k].0@),
{
    let a = s.take(k + 1);
    let b = s.take(k);
    assert forall|x: Seq<char>| binds(a, x) <==> (binds(b, x) || x == s[k].0@) by {
        if binds(a, x) {
            let j = choose|j: int| 0 <= j < a.len() && #[trigger] a[j].0@ == x;
            if j < k {
                assert(b[j].0@ == x);
            }
        }
        if binds(b, x) {
            let j = choose|j: int| 0 <= j < b.len() && #[trigger] b[j].0@ == x;
            assert(a[j].0@ == x);
        }
        if x == s[k].0@ {
            assert(a[k].0@ == x);
        }
    }
    assert(scope_of(a) =~= scope_of(b).insert(s[k].0@));
}

/// The bound names with the types of their values, where `types[v]` is the
/// type of value `v`.
pub open spec fn typed_scope(s: Seq<(String, usize)>, types: Seq<MlirType>) -> Scope {
    Map::new(|k: Seq<char>| binds(s, k), |k: Seq<char>| types[bound_value(s, k) as int]@)
}

/// Adding values does not change the types of the bound names.
pub proof fn lemma_scope_stable(s: Seq<(String, usize)>, t1: Seq<MlirType>, t2: Seq<MlirType>)
    requires
        forall|i: int| 0 <= i < s.len() ==> #[trigger] s[i].1 < t1.len(),
        is_prefix(t1, t2),
    ensures
        typed_scope(s, t1) == typed_scope(s, t2),
{
    assert forall|k: Seq<char>| binds(s, k) implies t1[bound_value(s, k) as int]
        == t2[bound_value(s, k) as int] by {
        let j = choose|j: int| 0 <= j < s.len() && #[trigger] s[j].0@ == k;
        assert(s[j].1 < t1.len());
        assert(t2.take(t1.len() as int)[s[j].1 as int] == t2[s[j].1 as int]);
    }
    assert(typed_scope(s, t1) =~= typed_scope(s, t2));
}

/// Binding one more name of a prefix adds it with the type of its value.
pub proof fn lemma_typed_scope_take_next(s: Seq<(String, usize)>, types: Seq<MlirType>, k: int)
    requires
        names_unique(s),
        0 <= k < s.len(),
    ensures
        typed_scope(s.take(k + 1), types) == typed_scope(s.take(k), types).insert(
            s[k].0@,
            types[s[k].1 as int]@,
        ),
{
    let a = s.take(k + 1);
    let b = s.take(k);
    lemma_scope_of_take_next(s, k);
    assert(names_unique(a));
    assert(names_unique(b));
    assert forall|x: Seq<char>| binds(a, x) <==> (binds(b, x) || x == s[k].0@) by {
        assert(scope_of(a).contains(x) == scope_of(b).insert(s[k].0@).contains(x));
    }
    assert forall|x: Seq<char>| #[trigger] binds(b, x) && x != s[k].0@ implies bound_value(a, x)
        == bound_value(b, x) by {
        let j = choose|j: int| 0 <= j < b.len() && #[trigger] b[j].0@ == x;
        lemma_bound_value_at(b, j);
        assert(a[j] == b[j]);
        lemma_bound_value_at(a, j);
    }
    assert(a[k] == s[k]);
    lemma_bound_value_at(a, k);
    assert(typed_scope(a, types) =~= typed_scope(b, types).insert(s[k].0@, types[s[k].1 as int]@));
}

/// With unique names, the value bound to the name at `i` is the one at `i`.
pub proof fn lemma_bound_value_at(s: Seq<(String, usize)>, i: int)
    requires
        names_unique(s),
        0 <= i < s.len(),
    ensures
        binds(s, s[i].0@),
        bound_value(s, s[i].0@) == s[i].1,
{
    let k = s[i].0@;
    assert(0 <= i < s.len() && s[i].0@ == k);
    let j = choose|j: int| 0 <= j < s.len() && #[trigger] s[j].0@ == k;
    assert(s[j].0@ == k);
}

pub proof fn lemma_scope_after_insert(a: MlirContext, b: MlirContext, n: Seq<char>, v: usize)
    requires
        a.value_types == b.value_types,
        b.names() == a.names().insert(n),
        b.lookup(n) == Some(v),
        forall|k: Seq<char>| k != n ==> #[trigger] b.lookup(k) == a.lookup(k),
    ensures
        b.scope() == a.scope().insert(n, a.value_types@[v as int]@),
{
    let t = a.value_types@[v as int]@;
    assert forall|k: Seq<char>| #[trigger] b.scope().dom().contains(k) <==> a.scope().insert(
        n,
        t,
    ).dom().contains(k) by {
        assert(b.names().contains(k) == a.names().insert(n).contains(k));
    }
    assert forall|k: Seq<char>| b.scope().dom().contains(k) implies #[trigger] b.scope()[k]
        == a.scope().insert(n, t)[k] by {
        if k != n {
            assert(b.lookup(k) == a.lookup(k));
        } else {
            assert(b.lookup(n) == Some(v));
        }
    }
    assert(b.scope() =~= a.scope().insert(n, t));
}

pub proof fn lemma_scope_after_remove(a: MlirContext, b: MlirContext, n: Seq<char>)
    requires
        a.value_types == b.value_types,
        b.names() == a.names().remove(n),
        forall|k: Seq<char>| k != n ==> #[trigger] b.lookup(k) == a.lookup(k),
    ensures
        b.scope() == a.scope().remove(n),
{
    assert forall|k: Seq<char>| #[trigger] b.scope().dom().contains(k) <==> a.scope().remove(
        n,
    ).dom().contains(k) by {
        assert(b.names().contains(k) == a.names().remove(n).contains(k));
    }
    assert forall|k: Seq<char>| b.scope().dom().contains(k) implies #[trigger] b.scope()[k]
        == a.scope().remove(n)[k] by {
        assert(b.lookup(k) == a.lookup(k));
    }
    assert(b.scope() =~= a.scope().remove(n));
}

/// The state of lowering a function body.
pub struct MlirContext {
    pub variables: Vec<(String, usize)>,
    pub current_block: Vec<Operation>,
    pub value_types: Vec<MlirType>,
    pub function_results: Vec<(String, Vec<MlirType>)>,
}

impl MlirContext {
    /// Names are bound once each, and only to values defined so far.
    pub open spec fn wf(&self) -> bool {
        &&& names_unique(self.variables@)
        &&& forall|i: int|
            0 <= i < self.variables@.len() ==> #[trigger] self.variables@[i].1
                < self.value_types@.len()
    }

    /// The bound names with the types of their values.
    pub open spec fn scope(&self) -> Scope {
        typed_scope(self.variables@, self.value_types@)
    }

    /// The set of bound names.
    pub open spec fn names(&self) -> Set<Seq<char>> {
        scope_of(self.variables@)
    }

    /// The type of the value a call yields, by callee: its first recorded
    /// result type.
    pub open spec fn callees(&self) -> spec_fn(Seq<char>) -> Option<TypeModel> {
        |name: Seq<char>| callee_value(self.function_results@, name)
    }

    /// The value bound to `k`, if any.
    pub open spec fn lookup(&self, k: Seq<char>) -> Option<usize> {
        if binds(self.variables@, k) {
            Some(bound_value(self.variables@, k))
        } else {
            None
        }
    }

    /// A fresh context with nothing bound, an empty block and no values.
    pub fn new(function_results: Vec<(String, Vec<MlirType>)>) -> (ctx: Self)
        ensures
            ctx.wf(),
            ctx.variables@.len() == 0,
            ctx.current_block@.len() == 0,
            ctx.value_types@.len() == 0,
            ctx.function_results == function_results,
    {
        MlirContext {
            variables: Vec::new(),
            current_block: Vec::new(),
            value_types: Vec::new(),
            function_results,
        }
    }

    /// The value bound to `name`, if any.
    pub fn get_var(&self, name: &str) -> (r: Option<usize>)
        requires
            self.wf(),
        ensures
            r == self.lookup(name@),
            r matches Some(v) ==> v < self.value_types@.len(),
    {
        let mut i: usize = 0;
        while i < self.variables.len()
            invariant
                i <= self.variables@.len(),
                self.wf(),
                forall|j: int| 0 <= j < i ==> #[trigger] self.variables@[j].0@ != name@,
            decreases self.variables@.len() - i,
        {
            if crate::text::str_equal(self.variables[i].0.as_str(), name) {
                proof {
                    assert(self.variables@[i as int].1 < self.value_types@.len());
                    lemma_bound_value_at(self.variables@, i as int);
                }
                return Some(self.variables[i].1);
            }
            i = i + 1;
        }
        proof {
            if binds(self.variables@, name@) {
                let j = choose|j: int|
                    0 <= j < self.variables@.len() && #[trigger] self.variables@[j].0@ == name@;
                assert(self.variables@[j].0@ != name@);
            }
        }
        None
    }

    /// The position of `name` among the bindings, if bound.
    fn position(&self, name: &str) -> (r: Option<usize>)
        ensures
            r matches Some(i) ==> i < self.variables@.len() && self.variables@[i as int].0@ == name@,
            r is None ==> !binds(self.variables@, name@),
    {
        let mut i: usize = 0;
        while i < self.variables.len()
            invariant
                i <= self.variables@.len(),
                forall|j: int| 0 <= j < i ==> #[trigger] self.variables@[j].0@ != name@,
            decreases self.variables@.len() - i,
        {
            if crate::text::str_equal(self.variables[i].0.as_str(), name) {
                return Some(i);
            }
            i = i + 1;
        }
        proof {
            if binds(self.variables@, name@) {
                let j = choose|j: int|
                    0 <= j < self.variables@.len() && #[trigger] self.variables@[j].0@ == name@;
                assert(self.variables@[j].0@ != name@);
            }
        }
        None
    }

    /// Binds `name` to `v`, replacing an earlier binding of `name`.
    pub fn set_var(&mut self, name: String, v: usize)
        requires
            old(self).wf(),
            v < old(self).value_types@.len(),
        ensures
            final(self).wf(),
            final(self).names() == old(self).names().insert(name@),
            final(self).scope() == old(self).scope().insert(name@, old(self).value_types@[v as int]@),
            final(self).lookup(name@) == Some(v),
            forall|k: Seq<char>| k != name@ ==> #[trigger] final(self).lookup(k) == old(self).lookup(k),
            final(self).current_block == old(self).current_block,
            final(self).value_types == old(self).value_types,
            final(self).function_results == old(self).function_results,
    {
        let ghost s0 = self.variables@;
        let ghost n = name@;
        match self.position(name.as_str()) {
            Some(i) => {
                self.variables.set(i, (name, v));
                proof {
                    let s1 = self.variables@;
                    assert(s1 == s0.update(i as int, (s1[i as int].0, v)));
                    assert(names_unique(s1)) by {
                        assert forall|a: int, b: int|
                            0 <= a < s1.len() && 0 <= b < s1.len() && a != b implies #[trigger] s1[a].0@
                            != #[trigger] s1[b].0@ by {
                            if a != i && b != i {
                                assert(s0[a].0@ != s0[b].0@);
                            } else if a == i {
                                assert(s0[i as int].0@ != s0[b].0@);
                            } else {
                                assert(s0[a].0@ != s0[i as int].0@);
                            }
                        }
                    }
                    lemma_bound_value_at(s1, i as int);
                    assert forall|k: Seq<char>| binds(s1, k) <==> binds(s0, k) by {
                        if binds(s0, k) {
                            let j = choose|j: int| 0 <= j < s0.len() && #[trigger] s0[j].0@ == k;
                            assert(s1[j].0@ == k);
                        }
                        if binds(s1, k) {
                            let j = choose|j: int| 0 <= j < s1.len() && #[trigger] s1[j].0@ == k;
                            assert(s0[j].0@ == k);
                        }
                    }
                    assert(self.names() =~= scope_of(s0).insert(n));
                    assert forall|k: Seq<char>| k != n implies #[trigger] self.lookup(k)
                        == old(self).lookup(k) by {
                        if binds(s0, k) {
                            let j = choose|j: int| 0 <= j < s0.len() && #[trigger] s0[j].0@ == k;
                            lemma_bound_value_at(s0, j);
                            lemma_bound_value_at(s1, j);
                        }
                    }
                }
            },
            None => {
                self.variables.push((name, v));
                proof {
                    let s1 = self.variables@;
                    let last = s1.len() - 1;
                    assert(s1.drop_last() == s0);
                    assert(names_unique(s1)) by {
                        assert forall|a: int, b: int|
                            0 <= a < s1.len() && 0 <= b < s1.len() && a != b implies #[trigger] s1[a].0@
                            != #[trigger] s1[b].0@ by {
                            if a != last && b != last {
                                assert(s0[a].0@ != s0[b].0@);
                            } else if a == last {
                                assert(s0[b].0@ == s1[b].0@);
                            } else {
                                assert(s0[a].0@ == s1[a].0@);
                            }
                        }
                    }
                    lemma_bound_value_at(s1, last);
                    assert forall|k: Seq<char>| binds(s1, k) <==> (binds(s0, k) || k == n) by {
                        if binds(s0, k) {
                            let j = choose|j: int| 0 <= j < s0.len() && #[trigger] s0[j].0@ == k;
                            assert(s1[j].0@ == k);
                        }
                        if binds(s1, k) && k != n {
                            let j = choose|j: int| 0 <= j < s1.len() && #[trigger] s1[j].0@ == k;
                            assert(j != last);
                            assert(s0[j].0@ == k);
                        }
                    }
                    assert(self.names() =~= scope_of(s0).insert(n));
                    assert forall|k: Seq<char>| k != n implies #[trigger] self.lookup(k)
                        == old(self).lookup(k) by {
                        if binds(s0, k) {
                            let j = choose|j: int| 0 <= j < s0.len() && #[trigger] s0[j].0@ == k;
                            lemma_bound_value_at(s0, j);
                            assert(s1[j] == s0[j]);
                            lemma_bound_value_at(s1, j);
                        }
                    }
                }
            },
        }
        proof {
            lemma_scope_after_insert(*old(self), *self, n, v);
        }
    }

    /// Removes the binding of `name`, if any.
    pub fn remove_var(&mut self, name: &str)
        requires
            old(self).wf(),
        ensures
            final(self).wf(),
            final(self).names() == old(self).names().remove(name@),
            final(self).scope() == old(self).scope().remove(name@),
            forall|k: Seq<char>| k != name@ ==> #[trigger] final(self).lookup(k) == old(self).lookup(k),
            final(self).current_block == old(self).current_block,
            final(self).value_types == old(self).value_types,
            final(self).function_results == old(self).function_results,
    {
        let ghost s0 = self.variables@;
        let ghost n = name@;
        match self.position(name) {
            Some(i) => {
                let _ = self.variables.remove(i);
                proof {
                    let s1 = self.variables@;
                    assert(s1 == s0.remove(i as int));
                    assert forall|a: int| 0 <= a < s1.len() implies #[trigger] s1[a] == s0[if a < i {
                        a
                    } else {
                        a + 1
                    }] by {}
                    assert(names_unique(s1)) by {
                        assert forall|a: int, b: int|
                            0 <= a < s1.len() && 0 <= b < s1.len() && a != b implies #[trigger] s1[a].0@
                            != #[trigger] s1[b].0@ by {
                            let a0 = if a < i { a } else { a + 1 };
                            let b0 = if b < i { b } else { b + 1 };
                            assert(s1[a] == s0[a0]);
                            assert(s1[b] == s0[b0]);
                            assert(s0[a0].0@ != s0[b0].0@);
                        }
                    }
                    assert forall|a: int| 0 <= a < s1.len() implies #[trigger] s1[a].1
                        < self.value_types@.len() by {
                        let a0 = if a < i { a } else { a + 1 };
                        assert(s1[a] == s0[a0]);
                    }
                    assert forall|k: Seq<char>| binds(s1, k) <==> (binds(s0, k) && k != n) by {
                        if binds(s0, k) && k != n {
                            let j = choose|j: int| 0 <= j < s0.len() && #[trigger] s0[j].0@ == k;
                            assert(j != i);
                            let j1 = if j < i { j } else { j - 1 };
                            assert(s1[j1] == s0[j]);
                            assert(s1[j1].0@ == k);
                        }
                        if binds(s1, k) {
                            let j = choose|j: int| 0 <= j < s1.len() && #[trigger] s1[j].0@ == k;
                            let j0 = if j < i { j } else { j + 1 };
                            assert(s1[j] == s0[j0]);
                            assert(s0[j0].0@ == k);
                            assert(j0 != i);
                            assert(s0[j0].0@ != s0[i as int].0@);
                        }
                    }
                    assert(self.names() =~= scope_of(s0).remove(n));
                    assert forall|k: Seq<char>| k != n implies #[trigger] self.lookup(k)
                        == old(self).lookup(k) by {
                        if binds(s0, k) {
                            let j = choose|j: int| 0 <= j < s0.len() && #[trigger] s0[j].0@ == k;
                            lemma_bound_value_at(s0, j);
                            assert(j != i);
                            let j1 = if j < i { j } else { j - 1 };
                            assert(s1[j1] == s0[j]);
                            lemma_bound_value_at(s1, j1);
                        }
                    }
                }
            },
            None => {
                proof {
                    assert(self.names() =~= scope_of(s0).remove(n));
                }
            },
        }
        proof {
            lemma_scope_after_remove(*old(self), *self, n);
        }
    }

    /// Defines a new value of type `t` and returns its number.
    pub fn new_value(&mut self, t: MlirType) -> (v: usize)
        requires
            old(self).wf(),
        ensures
            final(self).wf(),
            v == old(self).value_types@.len(),
            final(self).value_types@ == old(self).value_types@.push(t),
            final(self).scope() == old(self).scope(),
            final(self).variables == old(self).variables,
            final(self).current_block == old(self).current_block,
            final(self).function_results == old(self).function_results,
    {
        let v = self.value_types.len();
        self.value_types.push(t);
        proof {
            lemma_prefix_push(old(self).value_types@, t);
            lemma_scope_stable(self.variables@, old(self).value_types@, self.value_types@);
        }
        v
    }
}

/// `after` extends `before`: values and operations are only added, and the
/// callee table is unchanged.
pub open spec fn extends(before: MlirContext, after: MlirContext) -> bool {
    &&& before.value_types@.len() <= after.value_types@.len()
    &&& after.value_types@.take(before.value_types@.len() as int) == before.value_types@
    &&& before.current_block@.len() <= after.current_block@.len()
    &&& after.current_block@.take(before.current_block@.len() as int) == before.current_block@
    &&& after.function_results == before.function_results
}

pub proof fn lemma_extends_refl(a: MlirContext)
    ensures
        extends(a, a),
{
    assert(a.value_types@.take(a.value_types@.len() as int) =~= a.value_types@);
    assert(a.current_block@.take(a.current_block@.len() as int) =~= a.current_block@);
}

pub proof fn lemma_extends_trans(a: MlirContext, b: MlirContext, c: MlirContext)
    requires
        extends(a, b),
        extends(b, c),
    ensures
        extends(a, c),
{
    let n = a.value_types@.len() as int;
    assert(c.value_types@.take(n) =~= c.value_types@.take(b.value_types@.len() as int).take(n));
    let m = a.current_block@.len() as int;
    assert(c.current_block@.take(m) =~= c.current_block@.take(b.current_block@.len() as int).take(m));
}

/// `b` starts with `a`.
pub open spec fn is_prefix<T>(a: Seq<T>, b: Seq<T>) -> bool {
    a.len() <= b.len() && b.take(a.len() as int) == a
}

pub proof fn lemma_prefix_trans<T>(a: Seq<T>, b: Seq<T>, c: Seq<T>)
    requires
        is_prefix(a, b),
        is_prefix(b, c),
    ensures
        is_prefix(a, c),
{
    assert(c.take(a.len() as int) =~= c.take(b.len() as int).take(a.len() as int));
}

pub proof fn lemma_prefix_push<T>(a: Seq<T>, x: T)
    ensures
        is_prefix(a, a.push(x)),
{
    assert(a.push(x).take(a.len() as int) =~= a);
}

/// `after` is `before` with one operation `op` appended and one value `v` of
/// type `t` defined; the bindings are unchanged.
pub open spec fn appends_value(
    before: MlirContext,
    after: MlirContext,
    op: Operation,
    v: usize,
    t: TypeModel,
) -> bool {
    &&& v == before.value_types@.len()
    &&& after.value_types@.len() == v + 1
    &&& after.value_types@.drop_last() == before.value_types@
    &&& after.value_types@[v as int]@ == t
    &&& after.current_block@ == before.current_block@.push(op)
    &&& after.variables == before.variables
    &&& after.function_results == before.function_results
}

pub proof fn lemma_appends_value_extends(
    before: MlirContext,
    after: MlirContext,
    op: Operation,
    v: usize,
    t: TypeModel,
)
    requires
        before.wf(),
        appends_value(before, after, op, v, t),
    ensures
        after.wf(),
        extends(before, after),
        after.scope() == before.scope(),
        forall|k: Seq<char>| #[trigger] after.lookup(k) == before.lookup(k),
{
    assert(after.value_types@.take(before.value_types@.len() as int) =~= before.value_types@);
    assert(after.current_block@.take(before.current_block@.len() as int) =~= before.current_block@);
    lemma_scope_stable(before.variables@, before.value_types@, after.value_types@);
}

/// Appends an `arith.constant` with attribute `value_attr` and returns its
/// result.
pub fn create_constant(ctx: &mut MlirContext, value_attr: ConstantAttr) -> (r: Result<
    usize,
    MlirError,
>)
    requires
        old(ctx).wf(),
    ensures
        r matches Ok(v) && appends_value(
            *old(ctx),
            *final(ctx),
            Operation::Constant { result: v, attr: value_attr },
            v,
            match value_attr {
                ConstantAttr::Integer { ty, value: _ } => ty@,
                ConstantAttr::Float { ty, bits: _ } => ty@,
            },
        ),
{
    let ty = match &value_attr {
        ConstantAttr::Integer { ty, value: _ } => ty.copy(),
        ConstantAttr::Float { ty, bits: _ } => ty.copy(),
    };
    let v = ctx.new_value(ty);
    ctx.current_block.push(Operation::Constant { result: v, attr: value_attr });
    proof {
        assert(ctx.value_types@.drop_last() =~= old(ctx).value_types@);
    }
    Ok(v)
}

/// Appends an integer constant of the given width.
pub fn create_int_constant(ctx: &mut MlirContext, width: u32, value: i64) -> (r: Result<
    usize,
    MlirError,
>)
    requires
        old(ctx).wf(),
    ensures
        r matches Ok(v) && final(ctx).current_block@.last() matches Operation::Constant {
            result,
            attr: ConstantAttr::Integer { ty, value: c },
        } && result == v && ty@ == TypeModel::Integer(width) && c == value && appends_value(
            *old(ctx),
            *final(ctx),
            final(ctx).current_block@.last(),
            v,
            TypeModel::Integer(width),
        ),
{
    create_constant(ctx, ConstantAttr::Integer { ty: MlirType::Integer(width), value })
}

/// Appends a float constant of type `ty` (`f32` or `f64`) whose IEEE-754
/// bit pattern at that precision is `bits`.
pub fn create_float_constant(ctx: &mut MlirContext, ty: MlirType, bits: u64) -> (r: Result<
    usize,
    MlirError,
>)
    requires
        old(ctx).wf(),
        ty is F32 || ty is F64,
    ensures
        r matches Ok(v) && final(ctx).current_block@.last() matches Operation::Constant {
            result,
            attr: ConstantAttr::Float { ty: t, bits: b },
        } && result == v && t@ == ty@ && b == bits && appends_value(
            *old(ctx),
            *final(ctx),
            final(ctx).current_block@.last(),
            v,
            ty@,
        ),
{
    create_constant(ctx, ConstantAttr::Float { ty, bits })
}

/// Appends a constant of type `index`.
pub fn create_index_constant(ctx: &mut MlirContext, value: i64) -> (r: Result<usize, MlirError>)
    requires
        old(ctx).wf(),
    ensures
        r matches Ok(v) && final(ctx).current_block@.last() matches Operation::Constant {
            result,
            attr: ConstantAttr::Integer { ty, value: c },
        } && result == v && ty@ == TypeModel::Index && c == value && appends_value(
            *old(ctx),
            *final(ctx),
            final(ctx).current_block@.last(),
            v,
            TypeModel::Index,
        ),
{
    create_constant(ctx, ConstantAttr::Integer { ty: MlirType::Index, value })
}

/// Appends an `i1` constant: 1 for true, 0 for false.
pub fn create_bool_constant(ctx: &mut MlirContext, value: bool) -> (r: Result<usize, MlirError>)
    requires
        old(ctx).wf(),
    ensures
        r matches Ok(v) && final(ctx).current_block@.last() matches Operation::Constant {
            result,
            attr: ConstantAttr::Integer { ty, value: c },
        } && result == v && ty@ == TypeModel::Integer(1) && c == (if value {
            1i64
        } else {
            0i64
        }) && appends_value(
            *old(ctx),
            *final(ctx),
            final(ctx).current_block@.last(),
            v,
            TypeModel::Integer(1),
        ),
{
    create_int_constant(ctx, 1, if value { 1 } else { 0 })
}

/// Appends an `scf.yield` of `value`, or of nothing, to `block`.
pub fn append_yield(block: &mut Vec<Operation>, value: Option<usize>)
    ensures
        final(block)@.drop_last() == old(block)@,
        final(block)@.len() == old(block)@.len() + 1,
        final(block)@.last() matches Operation::Yield { operands } && operands@ == (match value {
            Some(v) => seq![v],
            None => Seq::<usize>::empty(),
        }),
{
    let mut operands: Vec<usize> = Vec::new();
    if let Some(v) = value {
        operands.push(v);
    }
    proof {
        assert(operands@ =~= (match value {
            Some(v) => seq![v],
            None => Seq::<usize>::empty(),
        }));
    }
    block.push(Operation::Yield { operands });
    proof {
        assert(block@.drop_last() =~= old(block)@);
    }
}

/// Appends a `memref.alloca` of type `memref_type`.
pub fn alloca_memref(ctx: &mut MlirContext, memref_type: MlirType) -> (r: Result<
    usize,
    MlirError,
>)
    requires
        old(ctx).wf(),
    ensures
        r matches Ok(v) && final(ctx).current_block@.last() matches Operation::Alloca {
            result,
            ty,
        } && result == v && ty@ == memref_type@ && appends_value(
            *old(ctx),
            *final(ctx),
            final(ctx).current_block@.last(),
            v,
            memref_type@,
        ),
{
    let v = ctx.new_value(memref_type.copy());
    ctx.current_block.push(Operation::Alloca { result: v, ty: memref_type });
    proof {
        assert(ctx.value_types@.drop_last() =~= old(ctx).value_types@);
    }
    Ok(v)
}

/// The rank-0 memref type `memref<elem>`.
pub open spec fn rank0_memref(elem: TypeModel) -> TypeModel {
    TypeModel::MemRef(Box::new(elem), Seq::empty())
}

/// Appends a `memref.alloca` of the rank-0 memref of `elem_type`.
pub fn alloca_rank0_memref(ctx: &mut MlirContext, elem_type: MlirType) -> (r: Result<
    usize,
    MlirError,
>)
    requires
        old(ctx).wf(),
    ensures
        r matches Ok(v) && final(ctx).current_block@.last() matches Operation::Alloca {
            result,
            ty,
        } && result == v && ty@ == rank0_memref(elem_type@) && appends_value(
            *old(ctx),
            *final(ctx),
            final(ctx).current_block@.last(),
            v,
            rank0_memref(elem_type@),
        ),
{
    let memref_ty = MlirType::MemRef(Box::new(elem_type), Vec::new());
    proof {
        assert(memref_ty@ == rank0_memref(elem_type@));
    }
    alloca_memref(ctx, memref_ty)
}

/// Appends a `memref.load` from the rank-0 memref `memref`, of type
/// `elem_type`.
pub fn memref_load_rank0(ctx: &mut MlirContext, memref: usize, elem_type: MlirType) -> (r: Result<
    usize,
    MlirError,
>)
    requires
        old(ctx).wf(),
    ensures
        r matches Ok(v) && final(ctx).current_block@.last() matches Operation::Load {
            result,
            memref: m,
            ty,
        } && result == v && m == memref && ty@ == elem_type@ && appends_value(
            *old(ctx),
            *final(ctx),
            final(ctx).current_block@.last(),
            v,
            elem_type@,
        ),
{
    let v = ctx.new_value(elem_type.copy());
    ctx.current_block.push(Operation::Load { result: v, memref, ty: elem_type });
    proof {
        assert(ctx.value_types@.drop_last() =~= old(ctx).value_types@);
    }
    Ok(v)
}

/// Appends a `memref.store` of `value` into the rank-0 memref `memref`.
pub fn memref_store_rank0(ctx: &mut MlirContext, value: usize, memref: usize) -> (r: Result<
    (),
    MlirError,
>)
    requires
        old(ctx).wf(),
    ensures
        r is Ok,
        final(ctx).current_block@ == old(ctx).current_block@.push(
            Operation::Store { value, memref },
        ),
        final(ctx).value_types == old(ctx).value_types,
        final(ctx).variables == old(ctx).variables,
        final(ctx).function_results == old(ctx).function_results,
{
    ctx.current_block.push(Operation::Store { value, memref });
    Ok(())
}

} // verus!
