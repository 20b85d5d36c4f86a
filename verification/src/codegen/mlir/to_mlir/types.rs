//! Lowering of Descend types to MLIR types, and the textual output path for
//! NPU kernels with HIVM address spaces.
use vstd::prelude::*;

use crate::ast::{
    AtomicTy, BaseExec, CompilUnit, DataTy, DataTyKind, FunDef, Ident, Item, Memory, Nat,
    NatCtx, ScalarTy, Ty, TyKind, nat_eval,
};
use crate::codegen::mlir::ir::{
    dims_text, push_type_text, type_text, types_model, IrFunction, MlirType,
    TypeModel,
};
use crate::text::{push_decimal, decimal, str_equal, string_of};

verus! {

/// Conversion of a Descend construct into its MLIR counterpart.
pub trait ToMlir {
    type Output;

    /// Whether the construct can be lowered.
    spec fn lowerable(&self) -> bool;

    fn to_mlir(&self) -> (out: Self::Output)
        requires
            self.lowerable(),
    ;
}

// ---------------------------------------------------------------------------
// Natural numbers as memref shapes.

/// The shape of a memref whose extent is the term `n`: one extent when `n`
/// evaluates without free names, no extent otherwise.
pub open spec fn dimension_of(n: Nat) -> Seq<i64> {
    match nat_eval(n, Seq::empty()) {
        Some(v) => seq![v as i64],
        None => Seq::empty(),
    }
}

impl Nat {
    /// The memref shape for this term: its value when it evaluates in an
    /// empty context, no extent otherwise.
    pub fn to_dimension(&self) -> (d: Vec<i64>)
        ensures
            d@ == dimension_of(*self),
    {
        let nat_ctx = NatCtx::new();
        match self.eval(&nat_ctx) {
            Ok(size) => {
                let mut d = Vec::new();
                d.push(size as i64);
                proof {
                    assert(nat_ctx.bindings@ =~= Seq::<(String, usize)>::empty());
                    assert(d@ =~= dimension_of(*self));
                }
                d
            },
            Err(_) => {
                proof {
                    assert(nat_ctx.bindings@ =~= Seq::<(String, usize)>::empty());
                }
                Vec::new()
            },
        }
    }
}

// ---------------------------------------------------------------------------
// Scalar and named types.

pub open spec fn scalar_model(s: ScalarTy) -> TypeModel {
    match s {
        ScalarTy::Unit => TypeModel::NoneType,
        ScalarTy::U8 => TypeModel::Integer(8),
        ScalarTy::U32 => TypeModel::Integer(32),
        ScalarTy::U64 => TypeModel::Integer(64),
        ScalarTy::I32 => TypeModel::Integer(32),
        ScalarTy::I64 => TypeModel::Integer(64),
        ScalarTy::F32 => TypeModel::F32,
        ScalarTy::F64 => TypeModel::F64,
        ScalarTy::Bool => TypeModel::Integer(1),
        ScalarTy::Npu => TypeModel::Integer(32),
    }
}

impl ToMlir for ScalarTy {
    type Output = MlirType;

    open spec fn lowerable(&self) -> bool {
        true
    }

    fn to_mlir(&self) -> (t: MlirType)
        ensures
            t@ == scalar_model(*self),
    {
        match self {
            ScalarTy::Unit => MlirType::NoneType,
            ScalarTy::U8 => MlirType::Integer(8),
            ScalarTy::U32 => MlirType::Integer(32),
            ScalarTy::U64 => MlirType::Integer(64),
            ScalarTy::I32 => MlirType::Integer(32),
            ScalarTy::I64 => MlirType::Integer(64),
            ScalarTy::F32 => MlirType::F32,
            ScalarTy::F64 => MlirType::F64,
            ScalarTy::Bool => MlirType::Integer(1),
            ScalarTy::Npu => MlirType::Integer(32),
        }
    }
}

/// Named scalar types: `i16`, `i8` and `u16`.
pub open spec fn ident_model(name: Seq<char>) -> Option<TypeModel> {
    if name == "i16"@ {
        Some(TypeModel::Integer(16))
    } else if name == "i8"@ {
        Some(TypeModel::Integer(8))
    } else if name == "u16"@ {
        Some(TypeModel::Integer(16))
    } else {
        None
    }
}

impl ToMlir for Ident {
    type Output = MlirType;

    open spec fn lowerable(&self) -> bool {
        ident_model(self.name@) is Some
    }

    fn to_mlir(&self) -> (t: MlirType)
        ensures
            Some(t@) == ident_model(self.name@),
    {
        proof {
            reveal_strlit("i16");
            reveal_strlit("i8");
            reveal_strlit("u16");
        }
        if str_equal(self.name.as_str(), "i16") {
            MlirType::Integer(16)
        } else if str_equal(self.name.as_str(), "i8") {
            MlirType::Integer(8)
        } else {
            MlirType::Integer(16)
        }
    }
}

// ---------------------------------------------------------------------------
// Data types.

/// Types that a memref can hold as elements.
pub open spec fn memref_elem_ok(t: TypeModel) -> bool {
    match t {
        TypeModel::Integer(_) | TypeModel::Index | TypeModel::F32 | TypeModel::F64
        | TypeModel::MemRef(_, _) => true,
        _ => false,
    }
}

/// Whether attaching the address space of `mem` to the text of `t` is
/// defined: a memory parameter cannot be attached to a memref.
pub open spec fn address_space_ok(t: TypeModel, mem: Memory) -> bool {
    !(mem is Ident && t is MemRef)
}

/// Whether a data type can be lowered.
pub open spec fn dty_lowerable(d: DataTy) -> bool
    decreases d, 1int,
{
    match d.dty {
        DataTyKind::Scalar(_) | DataTyKind::Atomic(_) => true,
        DataTyKind::Tuple(elems) => dtys_lowerable(elems@),
        DataTyKind::Ident(i) => ident_model(i.name@) is Some,
        DataTyKind::Array(e, _) | DataTyKind::ArrayShape(e, _) => dty_lowerable(*e) && memref_elem_ok(
            dty_model(*e),
        ),
        DataTyKind::At(inner, mem) => dty_lowerable(*inner) && address_space_ok(
            dty_model(*inner),
            mem,
        ),
        DataTyKind::Ref(r) => match r.dty.dty {
            DataTyKind::Scalar(s) => !(r.mem is Ident) && s != ScalarTy::Unit,
            DataTyKind::Array(e, _) | DataTyKind::ArrayShape(e, _) => !(r.mem is Ident)
                && dty_lowerable(*e) && memref_elem_ok(dty_model(*e)),
            DataTyKind::At(inner, m2) => !(m2 is Ident) && match inner.dty {
                DataTyKind::Scalar(s) => s != ScalarTy::Unit,
                DataTyKind::Array(e, _) | DataTyKind::ArrayShape(e, _) => dty_lowerable(*e)
                    && memref_elem_ok(dty_model(*e)),
                _ => false,
            },
            _ => false,
        },
        _ => false,
    }
}

pub open spec fn dtys_lowerable(s: Seq<DataTy>) -> bool
    decreases s, 0int,
{
    if s.len() == 0 {
        true
    } else {
        dtys_lowerable(s.drop_last()) && dty_lowerable(s.last())
    }
}

/// The MLIR type of a data type.  References and arrays become memrefs;
/// address spaces are not part of the type.
pub open spec fn dty_model(d: DataTy) -> TypeModel
    decreases d, 1int,
{
    match d.dty {
        DataTyKind::Scalar(s) => scalar_model(s),
        DataTyKind::Atomic(_) => TypeModel::Integer(32),
        DataTyKind::Tuple(elems) => TypeModel::Tuple(dtys_model(elems@)),
        DataTyKind::Ident(i) => match ident_model(i.name@) {
            Some(t) => t,
            None => TypeModel::NoneType,
        },
        DataTyKind::Array(e, n) | DataTyKind::ArrayShape(e, n) => TypeModel::MemRef(
            Box::new(dty_model(*e)),
            dimension_of(n),
        ),
        DataTyKind::At(inner, _) => dty_model(*inner),
        DataTyKind::Ref(r) => match r.dty.dty {
            DataTyKind::Scalar(s) => TypeModel::MemRef(Box::new(scalar_model(s)), Seq::empty()),
            DataTyKind::Array(e, n) | DataTyKind::ArrayShape(e, n) => TypeModel::MemRef(
                Box::new(dty_model(*e)),
                dimension_of(n),
            ),
            DataTyKind::At(inner, _) => match inner.dty {
                DataTyKind::Scalar(s) => TypeModel::MemRef(
                    Box::new(scalar_model(s)),
                    Seq::empty(),
                ),
                DataTyKind::Array(e, n) | DataTyKind::ArrayShape(e, n) => TypeModel::MemRef(
                    Box::new(dty_model(*e)),
                    dimension_of(n),
                ),
                _ => TypeModel::NoneType,
            },
            _ => TypeModel::NoneType,
        },
        _ => TypeModel::NoneType,
    }
}

pub open spec fn dtys_model(s: Seq<DataTy>) -> Seq<TypeModel>
    decreases s, 0int,
{
    if s.len() == 0 {
        Seq::empty()
    } else {
        dtys_model(s.drop_last()).push(dty_model(s.last()))
    }
}

impl ScalarTy {
    /// The rank-0 memref type referring to a scalar in memory `mem`.
    pub fn to_mlir_ref(&self, mem: &Memory) -> (t: MlirType)
        requires
            *self != ScalarTy::Unit,
            !(mem is Ident),
        ensures
            t@ == TypeModel::MemRef(Box::new(scalar_model(*self)), Seq::empty()),
    {
        let elem = self.to_mlir();
        let t = MlirType::MemRef(Box::new(elem), Vec::new());
        proof {
            assert(t@->MemRef_1 =~= Seq::<i64>::empty());
        }
        t
    }
}

fn ref_array_to_mlir(elem_ty: &DataTy, size: &Nat) -> (t: MlirType)
    requires
        dty_lowerable(*elem_ty),
    ensures
        t@ == TypeModel::MemRef(Box::new(dty_model(*elem_ty)), dimension_of(*size)),
    decreases elem_ty, 2int,
{
    let elem = elem_ty.to_mlir();
    let dim = size.to_dimension();
    MlirType::MemRef(Box::new(elem), dim)
}

impl ToMlir for DataTy {
    type Output = MlirType;

    open spec fn lowerable(&self) -> bool {
        dty_lowerable(*self)
    }

    fn to_mlir(&self) -> (t: MlirType)
        ensures
            t@ == dty_model(*self),
        decreases self, 1int,
    {
        match &self.dty {
            DataTyKind::Scalar(s) => s.to_mlir(),
            DataTyKind::Atomic(a) => match a {
                AtomicTy::AtomicU32 => MlirType::Integer(32),
                AtomicTy::AtomicI32 => MlirType::Integer(32),
            },
            DataTyKind::Tuple(elems) => {
                let mut out: Vec<MlirType> = Vec::new();
                let mut i: usize = 0;
                #[verifier::loop_isolation(false)]
                while i < elems.len()
                    invariant
                        i <= elems@.len(),
                        types_model(out@) == dtys_model(elems@.take(i as int)),
                        dtys_lowerable(elems@.take(i as int)),
                    decreases elems@.len() - i,
                {
                    proof {
                        vstd::std_specs::vec::axiom_vec_index_decreases(*elems, i as int);
                        assert(decreases_to!(self => self.dty));
                        assert(decreases_to!(self.dty => self.dty->Tuple_0));
                        lemma_dtys_lowerable_each(elems@, i as int);
                    }
                    let e = elems[i].to_mlir();
                    let ghost before = out@;
                    out.push(e);
                    proof {
                        assert(out@.drop_last() =~= before);
                        assert(elems@.take(i + 1).drop_last() =~= elems@.take(i as int));
                    }
                    i = i + 1;
                }
                proof {
                    assert(elems@.take(elems@.len() as int) =~= elems@);
                }
                MlirType::Tuple(out)
            },
            DataTyKind::Ident(ident) => ident.to_mlir(),
            DataTyKind::Array(e, n) => {
                let elem = e.to_mlir();
                let dim = n.to_dimension();
                MlirType::MemRef(Box::new(elem), dim)
            },
            DataTyKind::ArrayShape(e, n) => {
                let elem = e.to_mlir();
                let dim = n.to_dimension();
                MlirType::MemRef(Box::new(elem), dim)
            },
            DataTyKind::At(inner, _mem) => inner.to_mlir(),
            DataTyKind::Ref(r) => match &r.dty.dty {
                DataTyKind::Scalar(s) => s.to_mlir_ref(&r.mem),
                DataTyKind::Array(e, n) => ref_array_to_mlir(e, n),
                DataTyKind::ArrayShape(e, n) => ref_array_to_mlir(e, n),
                DataTyKind::At(inner, mem) => ref_at_to_mlir(inner, mem),
                _ => MlirType::NoneType,
            },
            _ => MlirType::NoneType,
        }
    }
}

fn ref_at_to_mlir(inner: &DataTy, mem: &Memory) -> (t: MlirType)
    requires
        !(mem is Ident),
        match inner.dty {
            DataTyKind::Scalar(s) => s != ScalarTy::Unit,
            DataTyKind::Array(e, _) | DataTyKind::ArrayShape(e, _) => dty_lowerable(*e),
            _ => false,
        },
    ensures
        t@ == match inner.dty {
            DataTyKind::Scalar(s) => TypeModel::MemRef(Box::new(scalar_model(s)), Seq::empty()),
            DataTyKind::Array(e, n) | DataTyKind::ArrayShape(e, n) => TypeModel::MemRef(
                Box::new(dty_model(*e)),
                dimension_of(n),
            ),
            _ => TypeModel::NoneType,
        },
    decreases inner, 3int,
{
    match &inner.dty {
        DataTyKind::Scalar(s) => s.to_mlir_ref(mem),
        DataTyKind::Array(e, n) => ref_array_to_mlir(e, n),
        DataTyKind::ArrayShape(e, n) => ref_array_to_mlir(e, n),
        _ => MlirType::NoneType,
    }
}

pub proof fn lemma_dtys_lowerable_each(s: Seq<DataTy>, i: int)
    requires
        dtys_lowerable(s),
        0 <= i < s.len(),
    ensures
        dty_lowerable(s[i]),
    decreases s.len(),
{
    if i < s.len() - 1 {
        lemma_dtys_lowerable_each(s.drop_last(), i);
    }
}

pub open spec fn ty_lowerable(t: Ty) -> bool {
    match t.ty {
        TyKind::Data(d) => dty_lowerable(*d),
        TyKind::FnTy(_) => false,
    }
}

pub open spec fn ty_model(t: Ty) -> TypeModel {
    match t.ty {
        TyKind::Data(d) => dty_model(*d),
        TyKind::FnTy(_) => TypeModel::NoneType,
    }
}

impl ToMlir for Ty {
    type Output = MlirType;

    open spec fn lowerable(&self) -> bool {
        ty_lowerable(*self)
    }

    fn to_mlir(&self) -> (t: MlirType)
        ensures
            t@ == ty_model(*self),
    {
        match &self.ty {
            TyKind::Data(d) => d.to_mlir(),
            TyKind::FnTy(_) => MlirType::NoneType,
        }
    }
}

// ---------------------------------------------------------------------------
// HIVM address spaces in type texts.

pub open spec fn starts_with_memref(s: Seq<char>) -> bool {
    s.len() >= 7 && s.take(7) == "memref<"@
}

/// The position of the last `>` in `s`.
pub open spec fn last_gt(s: Seq<char>) -> Option<int>
    decreases s.len(),
{
    if s.len() == 0 {
        None
    } else if s.last() == '>' {
        Some(s.len() - 1)
    } else {
        last_gt(s.drop_last())
    }
}

/// The HIVM address-space attribute text of a memory, for NPU memories.
pub open spec fn address_space_text(mem: Memory) -> Option<Seq<char>> {
    match mem {
        Memory::NpuGm => Some(", #hivm.address_space<gm>"@),
        Memory::NpuUb => Some(", #hivm.address_space<ub>"@),
        _ => None,
    }
}

/// A memref type text with the address space of `mem` inserted before its
/// last `>`; other texts, and memrefs in CPU memory, stay as they are.
pub open spec fn with_address_space(base: Seq<char>, mem: Memory) -> Seq<char> {
    if starts_with_memref(base) {
        match address_space_text(mem) {
            Some(ins) => match last_gt(base) {
                Some(p) => base.take(p) + ins + base.skip(p),
                None => base,
            },
            None => base,
        }
    } else {
        base
    }
}

pub proof fn lemma_last_gt_bounds(s: Seq<char>)
    ensures
        last_gt(s) matches Some(p) ==> 0 <= p < s.len() && s[p] == '>',
    decreases s.len(),
{
    if s.len() > 0 && s.last() != '>' {
        lemma_last_gt_bounds(s.drop_last());
    }
}

fn has_memref_prefix(s: &str) -> (b: bool)
    ensures
        b == starts_with_memref(s@),
{
    proof {
        reveal_strlit("memref<");
    }
    let n = s.unicode_len();
    if n < 7 {
        return false;
    }
    str_equal(s.substring_char(0, 7), "memref<")
}

fn rfind_gt(s: &str) -> (r: Option<usize>)
    ensures
        r matches Some(p) ==> last_gt(s@) == Some(p as int),
        r is None ==> last_gt(s@) is None,
{
    let mut i = s.unicode_len();
    proof {
        assert(s@.take(i as int) =~= s@);
    }
    while i > 0
        invariant
            i <= s@.len(),
            last_gt(s@) == last_gt(s@.take(i as int)),
        decreases i,
    {
        proof {
            assert(s@.take(i as int).drop_last() =~= s@.take(i - 1));
        }
        if s.get_char(i - 1) == '>' {
            return Some(i - 1);
        }
        i = i - 1;
    }
    None
}

/// Attaches the HIVM address space of `mem` to a memref type text.
pub fn apply_hivm_address_space(base_str: String, mem: &Memory) -> (r: String)
    requires
        !(starts_with_memref(base_str@) && mem is Ident),
    ensures
        r@ == with_address_space(base_str@, *mem),
{
    if has_memref_prefix(base_str.as_str()) {
        let ins = match mem {
            Memory::NpuGm => ", #hivm.address_space<gm>",
            Memory::NpuUb => ", #hivm.address_space<ub>",
            _ => {
                return base_str;
            },
        };
        match rfind_gt(base_str.as_str()) {
            Some(pos) => {
                proof {
                    lemma_last_gt_bounds(base_str@);
                }
                let n = base_str.as_str().unicode_len();
                let mut result = base_str.as_str().substring_char(0, pos).to_string();
                result.append(ins);
                result.append(base_str.as_str().substring_char(pos, n));
                proof {
                    assert(base_str@.subrange(pos as int, n as int) =~= base_str@.skip(pos as int));
                    assert(base_str@.subrange(0, pos as int) =~= base_str@.take(pos as int));
                }
                result
            },
            None => base_str,
        }
    } else {
        base_str
    }
}

/// The text of a type never starts with `memref<` unless it is a memref.
pub proof fn lemma_memref_prefix(t: TypeModel)
    ensures
        starts_with_memref(type_text(t)) <==> t is MemRef,
{
    reveal_strlit("memref<");
    reveal_strlit("none");
    reveal_strlit("i");
    reveal_strlit("index");
    reveal_strlit("f32");
    reveal_strlit("f64");
    reveal_strlit("tuple<");
    reveal_strlit(">");
    let tx = type_text(t);
    match t {
        TypeModel::MemRef(e, dims) => {
            let rest = dims_text(dims) + type_text(*e) + ">"@;
            assert(tx == "memref<"@ + rest);
            assert(tx.take(7) =~= "memref<"@);
        },
        TypeModel::Integer(w) => {
            assert(tx == "i"@ + decimal(w as nat));
            assert(tx[0] == 'i');
            if tx.len() >= 7 {
                assert(tx.take(7)[0] == 'i');
            }
        },
        TypeModel::Tuple(elems) => {
            assert(tx == "tuple<"@ + crate::codegen::mlir::ir::types_text(elems) + ">"@);
            assert(tx[0] == 't');
            if tx.len() >= 7 {
                assert(tx.take(7)[0] == 't');
            }
        },
        _ => {
            assert(tx.len() < 7);
        },
    }
}

/// Appending an address space to a memref type text inserts the attribute
/// just before the closing `>`.
pub proof fn lemma_address_space_of_memref(t: TypeModel, mem: Memory)
    requires
        t is MemRef,
        address_space_text(mem) is Some,
    ensures
        with_address_space(type_text(t), mem) == type_text(t).drop_last() + address_space_text(
            mem,
        ).unwrap() + ">"@,
{
    reveal_strlit(">");
    lemma_memref_prefix(t);
    let tx = type_text(t);
    match t {
        TypeModel::MemRef(e, dims) => {
            assert(tx == "memref<"@ + dims_text(dims) + type_text(*e) + ">"@);
            assert(tx.last() == '>');
            assert(last_gt(tx) == Some(tx.len() - 1));
            assert(tx.skip(tx.len() - 1) =~= ">"@);
            assert(tx.take(tx.len() - 1) =~= tx.drop_last());
        },
        _ => {},
    }
}

/// The type text of a function parameter, with the address space of a
/// reference's or placed value's memory.
pub open spec fn param_type_text(ty: Ty) -> Seq<char> {
    let base = type_text(ty_model(ty));
    match ty.ty {
        TyKind::Data(d) => match d.dty {
            DataTyKind::At(_, mem) => with_address_space(base, mem),
            DataTyKind::Ref(r) => with_address_space(base, r.mem),
            _ => base,
        },
        _ => base,
    }
}

/// Whether the address space of a parameter type can be written: a reference
/// in a memory parameter cannot be given one.
pub open spec fn param_space_ok(t: Ty) -> bool {
    match t.ty {
        TyKind::Data(d) => match d.dty {
            DataTyKind::Ref(r) => !(r.mem is Ident),
            _ => true,
        },
        _ => true,
    }
}

fn get_mlir_type_string_with_address_space(ty: &Ty) -> (s: String)
    requires
        ty_lowerable(*ty),
        param_space_ok(*ty),
    ensures
        s@ == param_type_text(*ty),
{
    let base_type = ty.to_mlir();
    let mut base_str = String::new();
    push_type_text(&mut base_str, &base_type);
    proof {
        assert(base_str@ =~= type_text(ty_model(*ty)));
        lemma_memref_prefix(ty_model(*ty));
    }
    match &ty.ty {
        TyKind::Data(data_ty) => match &data_ty.dty {
            DataTyKind::At(_, mem) => apply_hivm_address_space(base_str, mem),
            DataTyKind::Ref(ref_dty) => apply_hivm_address_space(base_str, &ref_dty.mem),
            _ => base_str,
        },
        _ => base_str,
    }
}

// ---------------------------------------------------------------------------
// Function signatures.

/// The declared types of the parameters that carry a type annotation.
pub open spec fn annotated_param_tys(ps: Seq<crate::ast::ParamDecl>) -> Seq<Ty>
    decreases ps.len(),
{
    if ps.len() == 0 {
        Seq::empty()
    } else {
        annotated_param_tys(ps.drop_last()) + match ps.last().ty {
            Some(t) => seq![t],
            None => Seq::<Ty>::empty(),
        }
    }
}

/// Whether every annotated parameter type can be lowered.
pub open spec fn params_lowerable(ps: Seq<crate::ast::ParamDecl>) -> bool {
    forall|i: int| 0 <= i < ps.len() ==> (#[trigger] ps[i].ty matches Some(t) ==> ty_lowerable(t))
}

/// Whether every annotated parameter type can be lowered and written with
/// its address space.
pub open spec fn params_text_ok(ps: Seq<crate::ast::ParamDecl>) -> bool {
    forall|i: int|
        0 <= i < ps.len() ==> (#[trigger] ps[i].ty matches Some(t) ==> ty_lowerable(t)
            && param_space_ok(t))
}

pub open spec fn tys_model(ts: Seq<Ty>) -> Seq<TypeModel>
    decreases ts.len(),
{
    if ts.len() == 0 {
        Seq::empty()
    } else {
        tys_model(ts.drop_last()).push(ty_model(ts.last()))
    }
}

/// The result types of a function: none for a unit result.
pub open spec fn result_types_model(ret: DataTy) -> Seq<TypeModel> {
    if dty_model(ret) is NoneType {
        Seq::empty()
    } else {
        seq![dty_model(ret)]
    }
}

pub open spec fn fun_lowerable(fun: FunDef) -> bool {
    params_lowerable(fun.param_decls@) && dty_lowerable(*fun.ret_dty)
}

fn param_types(fun: &FunDef) -> (r: Vec<MlirType>)
    requires
        params_lowerable(fun.param_decls@),
    ensures
        types_model(r@) == tys_model(annotated_param_tys(fun.param_decls@)),
{
    let mut out: Vec<MlirType> = Vec::new();
    let mut i: usize = 0;
    while i < fun.param_decls.len()
        invariant
            i <= fun.param_decls@.len(),
            params_lowerable(fun.param_decls@),
            types_model(out@) == tys_model(annotated_param_tys(fun.param_decls@.take(i as int))),
        decreases fun.param_decls@.len() - i,
    {
        let ghost before = out@;
        proof {
            assert(fun.param_decls@.take(i + 1).drop_last() =~= fun.param_decls@.take(i as int));
            assert(fun.param_decls@.take(i + 1).last() == fun.param_decls@[i as int]);
        }
        if let Some(ty) = &fun.param_decls[i].ty {
            proof {
                assert(fun.param_decls@[i as int].ty matches Some(t) ==> ty_lowerable(t));
            }
            let t = ty.to_mlir();
            out.push(t);
            proof {
                assert(out@.drop_last() =~= before);
                let a = annotated_param_tys(fun.param_decls@.take(i as int));
                let b = annotated_param_tys(fun.param_decls@.take(i + 1));
                assert(b =~= a.push(*ty));
                assert(b.drop_last() =~= a);
            }
        } else {
            proof {
                let a = annotated_param_tys(fun.param_decls@.take(i as int));
                let b = annotated_param_tys(fun.param_decls@.take(i + 1));
                assert(b =~= a);
            }
        }
        i = i + 1;
    }
    proof {
        assert(fun.param_decls@.take(fun.param_decls@.len() as int) =~= fun.param_decls@);
    }
    out
}

impl ToMlir for FunDef {
    type Output = IrFunction;

    open spec fn lowerable(&self) -> bool {
        fun_lowerable(*self)
    }

    /// The `func.func` declaration: name and signature, without body.
    fn to_mlir(&self) -> (f: IrFunction)
        ensures
            f.name@ == self.ident.name@,
            types_model(f.inputs@) == tys_model(annotated_param_tys(self.param_decls@)),
            types_model(f.results@) == result_types_model(*self.ret_dty),
            f.body is None,
            f.value_types@.len() == 0,
    {
        let inputs = param_types(self);
        let ret_ty = self.ret_dty.to_mlir();
        let mut results: Vec<MlirType> = Vec::new();
        if !ret_ty.is_none_type() {
            results.push(ret_ty);
            proof {
                assert(results@.drop_last() =~= Seq::<MlirType>::empty());
                assert(types_model(Seq::<MlirType>::empty()) =~= Seq::<TypeModel>::empty());
                assert(!(ret_ty@ is NoneType));
                assert(types_model(results@) =~= seq![ret_ty@]);
                assert(types_model(results@) =~= result_types_model(*self.ret_dty));
            }
        } else {
            proof {
                assert(types_model(results@) =~= result_types_model(*self.ret_dty));
            }
        }
        IrFunction { name: self.ident.name.clone(), inputs, results, body: None, value_types: Vec::new() }
    }
}

// ---------------------------------------------------------------------------
// Textual output for NPU kernels.

/// The parameter list `%arg0: t0, %arg1: t1, ...`.
pub open spec fn params_text(tys: Seq<Ty>) -> Seq<char>
    decreases tys.len(),
{
    if tys.len() == 0 {
        Seq::empty()
    } else {
        params_text(tys.drop_last()) + (if tys.len() > 1 {
            ", "@
        } else {
            Seq::empty()
        }) + "%arg"@ + decimal((tys.len() - 1) as nat) + ": "@ + param_type_text(tys.last())
    }
}

pub open spec fn is_npu_kernel(fun: FunDef) -> bool {
    fun.exec_expr.exec_kind.base is NpuGrid
}

/// The text of a function: signature with address spaces, the HACC entry
/// attributes for NPU kernels, and a body that only returns.
pub open spec fn function_text(fun: FunDef) -> Seq<char> {
    "  func.func @"@ + fun.ident.name@ + "("@ + params_text(annotated_param_tys(fun.param_decls@))
        + ")"@ + (if is_npu_kernel(fun) {
        " attributes {hacc.entry, hacc.function_kind = #hacc.function_kind<DEVICE>}"@
    } else {
        Seq::empty()
    }) + " {\n"@ + "    return\n  }\n"@
}

/// The text of one function definition: its signature, then a body that
/// only returns.
pub fn generate_function_with_body(fun: &FunDef) -> (s: String)
    requires
        params_text_ok(fun.param_decls@),
    ensures
        s@ == function_text(*fun),
{
    let mut signature = string_of("  func.func @");
    signature.append(fun.ident.name.as_str());
    signature.append("(");
    let ghost head = signature@;
    let mut i: usize = 0;
    let mut count: usize = 0;
    while i < fun.param_decls.len()
        invariant
            i <= fun.param_decls@.len(),
            params_text_ok(fun.param_decls@),
            count == annotated_param_tys(fun.param_decls@.take(i as int)).len(),
            count <= i,
            signature@ == head + params_text(annotated_param_tys(fun.param_decls@.take(i as int))),
        decreases fun.param_decls@.len() - i,
    {
        proof {
            assert(fun.param_decls@.take(i + 1).drop_last() =~= fun.param_decls@.take(i as int));
            assert(fun.param_decls@.take(i + 1).last() == fun.param_decls@[i as int]);
        }
        if let Some(ty) = &fun.param_decls[i].ty {
            proof {
                assert(fun.param_decls@[i as int].ty matches Some(t) ==> ty_lowerable(t)
                    && param_space_ok(t));
            }
            let param_type = get_mlir_type_string_with_address_space(ty);
            if count > 0 {
                signature.append(", ");
            }
            signature.append("%arg");
            push_decimal(&mut signature, count as u128);
            signature.append(": ");
            signature.append(param_type.as_str());
            proof {
                let a = annotated_param_tys(fun.param_decls@.take(i as int));
                let b = annotated_param_tys(fun.param_decls@.take(i + 1));
                assert(b =~= a.push(*ty));
                assert(b.drop_last() =~= a);
                assert(signature@ =~= head + params_text(b));
            }
            count = count + 1;
        } else {
            proof {
                let a = annotated_param_tys(fun.param_decls@.take(i as int));
                let b = annotated_param_tys(fun.param_decls@.take(i + 1));
                assert(b =~= a);
            }
        }
        i = i + 1;
    }
    proof {
        assert(fun.param_decls@.take(fun.param_decls@.len() as int) =~= fun.param_decls@);
    }
    signature.append(")");
    let npu = match &fun.exec_expr.exec_kind.base {
        BaseExec::NpuGrid(_, _) => true,
        _ => false,
    };
    if npu {
        signature.append(
            " attributes {hacc.entry, hacc.function_kind = #hacc.function_kind<DEVICE>}",
        );
    }
    signature.append(" {\n");
    signature.append("    return\n  }\n");
    proof {
        assert(signature@ =~= function_text(*fun));
    }
    signature
}

/// The texts of the function definitions among `items`, in order.
pub open spec fn items_text(items: Seq<Item>) -> Seq<char>
    decreases items.len(),
{
    if items.len() == 0 {
        Seq::empty()
    } else {
        items_text(items.drop_last()) + match items.last() {
            Item::FunDef(f) => function_text(*f),
            _ => Seq::empty(),
        }
    }
}

/// Whether the parameter types of every function definition can be lowered
/// and written with their address spaces.
pub open spec fn items_params_lowerable(items: Seq<Item>) -> bool {
    forall|i: int|
        0 <= i < items.len() ==> (#[trigger] items[i] matches Item::FunDef(f) ==> params_text_ok(
            f.param_decls@,
        ))
}

/// Whether a parameter type can be written with its address space.
fn param_space_is_ok(t: &Ty) -> (b: bool)
    ensures
        b == param_space_ok(*t),
{
    match &t.ty {
        TyKind::Data(d) => match &d.dty {
            DataTyKind::Ref(r) => !is_memory_param(&r.mem),
            _ => true,
        },
        _ => true,
    }
}

/// Whether the textual path can write the program: every annotated
/// parameter type of every function definition can be lowered and written
/// with its address space.
#[verifier::loop_isolation(false)]
pub fn params_text_supported(comp_unit: &CompilUnit) -> (b: bool)
    ensures
        b == items_params_lowerable(comp_unit.items@),
{
    let mut i: usize = 0;
    while i < comp_unit.items.len()
        invariant
            i <= comp_unit.items@.len(),
            forall|k: int|
                0 <= k < i ==> (#[trigger] comp_unit.items@[k] matches Item::FunDef(f)
                    ==> params_text_ok(f.param_decls@)),
        decreases comp_unit.items@.len() - i,
    {
        if let Item::FunDef(fun) = &comp_unit.items[i] {
            let mut j: usize = 0;
            while j < fun.param_decls.len()
                invariant
                    j <= fun.param_decls@.len(),
                    forall|k: int|
                        0 <= k < j ==> (#[trigger] fun.param_decls@[k].ty matches Some(t)
                            ==> ty_lowerable(t) && param_space_ok(t)),
                decreases fun.param_decls@.len() - j,
            {
                if let Some(t) = &fun.param_decls[j].ty {
                    if !(ty_is_lowerable(t) && param_space_is_ok(t)) {
                        proof {
                            assert(comp_unit.items@[i as int] matches Item::FunDef(f)
                                && !params_text_ok(f.param_decls@)) by {
                                assert(fun.param_decls@[j as int].ty matches Some(t)
                                    && !(ty_lowerable(t) && param_space_ok(t)));
                            }
                        }
                        return false;
                    }
                }
                j = j + 1;
            }
        }
        i = i + 1;
    }
    true
}

/// The MLIR text of a program on the textual path.
pub open spec fn hivm_module_text(items: Seq<Item>) -> Seq<char> {
    "module {\n"@ + items_text(items) + "}\n"@
}

/// The MLIR text of a program whose kernels use HIVM address spaces: a module
/// holding, for each function definition, its signature and a body that
/// returns.
pub fn generate_mlir_string_with_hivm(comp_unit: &CompilUnit) -> (s: String)
    requires
        items_params_lowerable(comp_unit.items@),
    ensures
        s@ == hivm_module_text(comp_unit.items@),
{
    let mut result = string_of("module {\n");
    let mut i: usize = 0;
    while i < comp_unit.items.len()
        invariant
            i <= comp_unit.items@.len(),
            items_params_lowerable(comp_unit.items@),
            result@ == "module {\n"@ + items_text(comp_unit.items@.take(i as int)),
        decreases comp_unit.items@.len() - i,
    {
        proof {
            assert(comp_unit.items@.take(i + 1).drop_last() =~= comp_unit.items@.take(i as int));
            assert(comp_unit.items@.take(i + 1).last() == comp_unit.items@[i as int]);
        }
        if let Item::FunDef(fun) = &comp_unit.items[i] {
            proof {
                assert(comp_unit.items@[i as int] matches Item::FunDef(f) ==> params_text_ok(
                    f.param_decls@,
                ));
            }
            let text = generate_function_with_body(fun);
            result.append(text.as_str());
            proof {
                assert(result@ =~= "module {\n"@ + items_text(comp_unit.items@.take(i + 1)));
            }
        } else {
            proof {
                assert(result@ =~= "module {\n"@ + items_text(comp_unit.items@.take(i + 1)));
            }
        }
        i = i + 1;
    }
    proof {
        assert(comp_unit.items@.take(comp_unit.items@.len() as int) =~= comp_unit.items@);
    }
    result.append("}\n");
    result
}

// ---------------------------------------------------------------------------
// Checks of lowerability.

/// Whether a named scalar type is one the back end knows.
fn ident_is_lowerable(i: &Ident) -> (b: bool)
    ensures
        b == (ident_model(i.name@) is Some),
{
    proof {
        reveal_strlit("i16");
        reveal_strlit("i8");
        reveal_strlit("u16");
    }
    str_equal(i.name.as_str(), "i16") || str_equal(i.name.as_str(), "i8") || str_equal(
        i.name.as_str(),
        "u16",
    )
}

/// Whether a memref can hold elements of type `t`.
fn memref_elem_check(t: &MlirType) -> (b: bool)
    ensures
        b == memref_elem_ok(t@),
{
    match t {
        MlirType::Integer(_) | MlirType::Index | MlirType::F32 | MlirType::F64 | MlirType::MemRef(
            _,
            _,
        ) => true,
        _ => false,
    }
}

fn is_memory_param(mem: &Memory) -> (b: bool)
    ensures
        b == (*mem is Ident),
{
    match mem {
        Memory::Ident(_) => true,
        _ => false,
    }
}

fn is_unit(s: &ScalarTy) -> (b: bool)
    ensures
        b == (*s == ScalarTy::Unit),
{
    match s {
        ScalarTy::Unit => true,
        _ => false,
    }
}

/// Whether an array of `e` can be lowered: `e` can, and a memref can hold it.
fn array_elem_is_lowerable(e: &DataTy) -> (b: bool)
    ensures
        b == (dty_lowerable(*e) && memref_elem_ok(dty_model(*e))),
    decreases e, 5int,
{
    if dty_is_lowerable(e) {
        let t = e.to_mlir();
        memref_elem_check(&t)
    } else {
        false
    }
}

/// Whether a data type can be lowered.
pub fn dty_is_lowerable(d: &DataTy) -> (b: bool)
    ensures
        b == dty_lowerable(*d),
    decreases d, 4int,
{
    match &d.dty {
        DataTyKind::Scalar(_) | DataTyKind::Atomic(_) => true,
        DataTyKind::Tuple(elems) => {
            let mut i: usize = 0;
            #[verifier::loop_isolation(false)]
            while i < elems.len()
                invariant
                    i <= elems@.len(),
                    dtys_lowerable(elems@.take(i as int)),
                decreases elems@.len() - i,
            {
                proof {
                    vstd::std_specs::vec::axiom_vec_index_decreases(*elems, i as int);
                    assert(decreases_to!(d => d.dty));
                    assert(decreases_to!(d.dty => d.dty->Tuple_0));
                    assert(elems@.take(i + 1).drop_last() =~= elems@.take(i as int));
                    assert(elems@.take(i + 1).last() == elems@[i as int]);
                }
                if !dty_is_lowerable(&elems[i]) {
                    proof {
                        lemma_dtys_prefix_lowerable(elems@, i + 1);
                    }
                    return false;
                }
                i = i + 1;
            }
            proof {
                assert(elems@.take(elems@.len() as int) =~= elems@);
            }
            true
        },
        DataTyKind::Ident(i) => ident_is_lowerable(i),
        DataTyKind::Array(e, _) | DataTyKind::ArrayShape(e, _) => array_elem_is_lowerable(e),
        DataTyKind::At(inner, mem) => {
            if !dty_is_lowerable(inner) {
                return false;
            }
            let t = inner.to_mlir();
            let memref = match &t {
                MlirType::MemRef(_, _) => true,
                _ => false,
            };
            !(is_memory_param(mem) && memref)
        },
        DataTyKind::Ref(r) => {
            match &r.dty.dty {
                DataTyKind::Scalar(s) => !is_memory_param(&r.mem) && !is_unit(s),
                DataTyKind::Array(e, _) | DataTyKind::ArrayShape(e, _) => !is_memory_param(&r.mem)
                    && array_elem_is_lowerable(e),
                DataTyKind::At(inner, m2) => {
                    if is_memory_param(m2) {
                        return false;
                    }
                    match &inner.dty {
                        DataTyKind::Scalar(s) => !is_unit(s),
                        DataTyKind::Array(e, _) | DataTyKind::ArrayShape(e, _) => {
                            array_elem_is_lowerable(e)
                        },
                        _ => false,
                    }
                },
                _ => false,
            }
        },
        _ => false,
    }
}

/// A sequence of data types with one that cannot be lowered cannot be
/// lowered.
proof fn lemma_dtys_prefix_lowerable(s: Seq<DataTy>, k: int)
    requires
        0 <= k <= s.len(),
        !dtys_lowerable(s.take(k)),
    ensures
        !dtys_lowerable(s),
    decreases s.len() - k,
{
    if k < s.len() {
        assert(s.take(k + 1).drop_last() =~= s.take(k));
        lemma_dtys_prefix_lowerable(s, k + 1);
    } else {
        assert(s.take(k) =~= s);
    }
}

/// Whether a type can be lowered.
pub fn ty_is_lowerable(t: &Ty) -> (b: bool)
    ensures
        b == ty_lowerable(*t),
{
    match &t.ty {
        TyKind::Data(d) => dty_is_lowerable(d),
        TyKind::FnTy(_) => false,
    }
}

/// Whether a function's signature can be lowered: every annotated parameter
/// type and the result type.
pub fn fun_is_lowerable(fun: &FunDef) -> (b: bool)
    ensures
        b == fun_lowerable(*fun),
{
    let mut i: usize = 0;
    while i < fun.param_decls.len()
        invariant
            i <= fun.param_decls@.len(),
            forall|j: int|
                0 <= j < i ==> (#[trigger] fun.param_decls@[j].ty matches Some(t) ==> ty_lowerable(
                    t,
                )),
        decreases fun.param_decls@.len() - i,
    {
        if let Some(t) = &fun.param_decls[i].ty {
            if !ty_is_lowerable(t) {
                return false;
            }
        }
        i = i + 1;
    }
    dty_is_lowerable(&fun.ret_dty)
}

// ---------------------------------------------------------------------------
// Laws of type lowering.

/// A named integer type lowers to an integer of the width its name states:
/// the name is `i` or `u` followed by the width in decimal.
pub proof fn lemma_named_integers_have_their_width(name: Seq<char>)
    requires
        ident_model(name) is Some,
    ensures
        ident_model(name) matches Some(TypeModel::Integer(w)) && (name == "i"@ + decimal(w as nat)
            || name == "u"@ + decimal(w as nat)),
{
    reveal_strlit("i16");
    reveal_strlit("i8");
    reveal_strlit("u16");
    reveal_strlit("i");
    reveal_strlit("u");
    assert(decimal(8) =~= seq!['8']);
    assert(decimal(1) =~= seq!['1']);
    assert(decimal(16) =~= seq!['1', '6']);
    if name == "i16"@ {
        assert(name =~= "i"@ + decimal(16));
    } else if name == "i8"@ {
        assert(name =~= "i"@ + decimal(8));
    } else {
        assert(name =~= "u"@ + decimal(16));
    }
}

/// Exactly the NPU memories carry an HIVM address space, and distinct NPU
/// memories carry distinct ones.
pub proof fn lemma_address_spaces_name_their_memory(m1: Memory, m2: Memory)
    ensures
        address_space_text(m1) is Some <==> crate::codegen::mlir::npu_memory(m1),
        address_space_text(m1) is Some && address_space_text(m1) == address_space_text(m2) ==> m1
            == m2,
{
    reveal_strlit(", #hivm.address_space<gm>");
    reveal_strlit(", #hivm.address_space<ub>");
    if address_space_text(m1) is Some && address_space_text(m1) == address_space_text(m2) {
        if m1 is NpuGm && m2 is NpuUb {
            assert(", #hivm.address_space<gm>"@[22] != ", #hivm.address_space<ub>"@[22]);
        }
        if m1 is NpuUb && m2 is NpuGm {
            assert(", #hivm.address_space<gm>"@[22] != ", #hivm.address_space<ub>"@[22]);
        }
    }
}

} // verus!