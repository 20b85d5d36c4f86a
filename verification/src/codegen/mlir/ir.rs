//! The MLIR program that the back end builds: types, operations, blocks,
//! functions and modules, with values named by number.
//!
//! Within a function, values are numbered in the order they are created, and
//! `value_types[v]` is the type of value `v`.  Operations refer to values by
//! number.
use vstd::prelude::*;

use crate::ast::{bits_and, bits_or, int_div_trunc, int_rem_trunc, shifted_left, shifted_right};
use crate::text::{decimal, push_decimal};

verus! {

/// MLIR builtin types the back end produces.
#[derive(Debug, PartialEq, Eq)]
pub enum MlirType {
    NoneType,
    /// A signless integer of the given width.
    Integer(u32),
    Index,
    F32,
    F64,
    Tuple(Vec<MlirType>),
    /// A memref of an element type with the given shape; a negative extent is dynamic.
    MemRef(Box<MlirType>, Vec<i64>),
}

/// The mathematical content of an MLIR type.
pub enum TypeModel {
    NoneType,
    Integer(u32),
    Index,
    F32,
    F64,
    Tuple(Seq<TypeModel>),
    MemRef(Box<TypeModel>, Seq<i64>),
}

/// The content of a type.
pub open spec fn type_model(t: MlirType) -> TypeModel
    decreases t, 1int,
{
    match t {
        MlirType::NoneType => TypeModel::NoneType,
        MlirType::Integer(w) => TypeModel::Integer(w),
        MlirType::Index => TypeModel::Index,
        MlirType::F32 => TypeModel::F32,
        MlirType::F64 => TypeModel::F64,
        MlirType::Tuple(elems) => TypeModel::Tuple(types_model(elems@)),
        MlirType::MemRef(e, dims) => TypeModel::MemRef(Box::new(type_model(*e)), dims@),
    }
}

/// The contents of a sequence of types.
pub open spec fn types_model(s: Seq<MlirType>) -> Seq<TypeModel>
    decreases s, 0int,
{
    if s.len() == 0 {
        Seq::empty()
    } else {
        types_model(s.drop_last()).push(type_model(s.last()))
    }
}

impl View for MlirType {
    type V = TypeModel;

    open spec fn view(&self) -> TypeModel {
        type_model(*self)
    }
}

impl MlirType {
    /// A copy of this type.
    pub fn copy(&self) -> (t: MlirType)
        ensures
            t@ == self@,
        decreases self,
    {
        match self {
            MlirType::NoneType => MlirType::NoneType,
            MlirType::Integer(w) => MlirType::Integer(*w),
            MlirType::Index => MlirType::Index,
            MlirType::F32 => MlirType::F32,
            MlirType::F64 => MlirType::F64,
            MlirType::Tuple(elems) => {
                let mut out: Vec<MlirType> = Vec::new();
                let mut i: usize = 0;
                #[verifier::loop_isolation(false)]
                while i < elems.len()
                    invariant
                        i <= elems@.len(),
                        types_model(out@) == types_model(elems@.take(i as int)),
                    decreases elems@.len() - i,
                {
                    proof {
                        vstd::std_specs::vec::axiom_vec_index_decreases(*elems, i as int);
                        assert(decreases_to!(self => self->Tuple_0));
                    }
                    let e = elems[i].copy();
                    let ghost before = out@;
                    out.push(e);
                    proof {
                        assert(out@.drop_last() =~= before);
                        assert(elems@.take(i + 1).drop_last() =~= elems@.take(i as int));
                    }
                    i = i + 1;
                }
                let r = MlirType::Tuple(out);
                proof {
                    assert(elems@.take(elems@.len() as int) =~= elems@);
                }
                r
            },
            MlirType::MemRef(e, dims) => {
                let mut ds: Vec<i64> = Vec::new();
                let mut i: usize = 0;
                while i < dims.len()
                    invariant
                        i <= dims@.len(),
                        ds@ == dims@.take(i as int),
                    decreases dims@.len() - i,
                {
                    ds.push(dims[i]);
                    proof {
                        assert(ds@ =~= dims@.take(i + 1));
                    }
                    i = i + 1;
                }
                proof {
                    assert(dims@.take(dims@.len() as int) =~= dims@);
                    assert(ds@ =~= dims@);
                }
                MlirType::MemRef(Box::new(e.copy()), ds)
            },
        }
    }

    /// Whether this is the `none` type.
    pub fn is_none_type(&self) -> (b: bool)
        ensures
            b == (*self is NoneType),
    {
        match self {
            MlirType::NoneType => true,
            _ => false,
        }
    }
}

pub open spec fn dim_text(d: i64) -> Seq<char> {
    if d < 0 {
        "?"@
    } else {
        decimal(d as nat)
    }
}

/// The shape prefix of a memref type, e.g. `10x` or `2x3x`.
pub open spec fn dims_text(d: Seq<i64>) -> Seq<char>
    decreases d.len(),
{
    if d.len() == 0 {
        Seq::empty()
    } else {
        dims_text(d.drop_last()) + dim_text(d.last()) + "x"@
    }
}

/// MLIR's textual syntax of a builtin type, e.g. `i32`, `tuple<i32, f64>`,
/// `memref<10xf32>`.
pub open spec fn type_text(t: TypeModel) -> Seq<char>
    decreases t, 1int,
{
    match t {
        TypeModel::NoneType => "none"@,
        TypeModel::Integer(w) => "i"@ + decimal(w as nat),
        TypeModel::Index => "index"@,
        TypeModel::F32 => "f32"@,
        TypeModel::F64 => "f64"@,
        TypeModel::Tuple(elems) => "tuple<"@ + types_text(elems) + ">"@,
        TypeModel::MemRef(e, dims) => "memref<"@ + dims_text(dims) + type_text(*e) + ">"@,
    }
}

/// The texts of types separated by `", "`.
pub open spec fn types_text(s: Seq<TypeModel>) -> Seq<char>
    decreases s, 0int,
{
    if s.len() == 0 {
        Seq::empty()
    } else if s.len() == 1 {
        type_text(s[0])
    } else {
        types_text(s.drop_last()) + ", "@ + type_text(s.last())
    }
}

pub proof fn lemma_types_model_len(s: Seq<MlirType>)
    ensures
        types_model(s).len() == s.len(),
    decreases s.len(),
{
    if s.len() > 0 {
        lemma_types_model_len(s.drop_last());
    }
}

pub proof fn lemma_types_model_at(s: Seq<MlirType>, i: int)
    requires
        0 <= i < s.len(),
    ensures
        types_model(s).len() == s.len(),
        types_model(s)[i] == s[i]@,
    decreases s.len(),
{
    lemma_types_model_len(s);
    if i < s.len() - 1 {
        lemma_types_model_at(s.drop_last(), i);
    }
}

/// Appends the textual syntax of `t` to `out`.
pub fn push_type_text(out: &mut String, t: &MlirType)
    ensures
        final(out)@ == old(out)@ + type_text(t@),
    decreases t,
{
    let ghost start = out@;
    match t {
        MlirType::NoneType => out.append("none"),
        MlirType::Integer(w) => {
            out.append("i");
            push_decimal(out, *w as u128);
            assert(out@ =~= start + type_text(t@));
        },
        MlirType::Index => out.append("index"),
        MlirType::F32 => out.append("f32"),
        MlirType::F64 => out.append("f64"),
        MlirType::Tuple(elems) => {
            out.append("tuple<");
            let ghost mid = out@;
            let mut i: usize = 0;
            #[verifier::loop_isolation(false)]
            while i < elems.len()
                invariant
                    i <= elems@.len(),
                    out@ == mid + types_text(types_model(elems@.take(i as int))),
                decreases elems@.len() - i,
            {
                if i > 0 {
                    out.append(", ");
                }
                proof {
                    vstd::std_specs::vec::axiom_vec_index_decreases(*elems, i as int);
                    assert(decreases_to!(t => t->Tuple_0));
                }
                push_type_text(out, &elems[i]);
                proof {
                    assert(elems@.take(i + 1).drop_last() =~= elems@.take(i as int));
                    lemma_types_model_len(elems@.take(i as int));
                    lemma_types_model_len(elems@.take(i + 1));
                    assert(types_model(elems@.take(i + 1)).drop_last() =~= types_model(elems@.take(i as int)));
                }
                i = i + 1;
            }
            assert(elems@.take(elems@.len() as int) =~= elems@);
            out.append(">");
            assert(out@ =~= start + type_text(t@));
        },
        MlirType::MemRef(e, dims) => {
            out.append("memref<");
            let ghost mid = out@;
            let mut i: usize = 0;
            while i < dims.len()
                invariant
                    i <= dims@.len(),
                    out@ == mid + dims_text(dims@.take(i as int)),
                decreases dims@.len() - i,
            {
                let d = dims[i];
                if d < 0 {
                    out.append("?");
                } else {
                    push_decimal(out, d as u128);
                }
                out.append("x");
                proof {
                    assert(dims@.take(i + 1).drop_last() =~= dims@.take(i as int));
                    assert(out@ =~= mid + dims_text(dims@.take(i + 1)));
                }
                i = i + 1;
            }
            assert(dims@.take(dims@.len() as int) =~= dims@);
            push_type_text(out, e);
            out.append(">");
            assert(out@ =~= start + type_text(t@));
        },
    }
}

/// The textual syntax of `t`.
pub fn type_to_string(t: &MlirType) -> (s: String)
    ensures
        s@ == type_text(t@),
{
    let mut s = String::new();
    push_type_text(&mut s, t);
    proof {
        assert(s@ =~= type_text(t@));
    }
    s
}

/// Integer comparison predicates of `arith.cmpi`.
#[derive(Debug, Clone, Copy, PartialEq, Eq)]
pub enum CmpiPredicate {
    Eq,
    Ne,
    Slt,
    Sle,
    Sgt,
    Sge,
}

/// The binary operations of the `arith` dialect that the back end emits.
#[derive(Debug, Clone, Copy, PartialEq, Eq)]
pub enum ArithOp {
    AddI,
    SubI,
    MulI,
    DivSI,
    RemSI,
    AndI,
    OrI,
    ShLI,
    ShRSI,
    CmpI(CmpiPredicate),
}

/// Whether the comparison `p` holds of the signed integers `x` and `y`.
pub open spec fn predicate_holds(p: CmpiPredicate, x: int, y: int) -> bool {
    match p {
        CmpiPredicate::Eq => x == y,
        CmpiPredicate::Ne => x != y,
        CmpiPredicate::Slt => x < y,
        CmpiPredicate::Sle => x <= y,
        CmpiPredicate::Sgt => x > y,
        CmpiPredicate::Sge => x >= y,
    }
}

/// What the `arith` operation computes on the signed integers `x` and `y`,
/// before truncation to its width: `addi`, `subi` and `muli` the sum,
/// difference and product, `divsi` the quotient rounded toward zero and
/// `remsi` its remainder, `andi` and `ori` the bitwise combination of the
/// 64-bit representations, `shli` and `shrsi` a multiplication or a division
/// rounding down by a power of two, `cmpi` 1 when its predicate holds and 0
/// otherwise.
pub open spec fn arith_value(op: ArithOp, x: int, y: int) -> int {
    match op {
        ArithOp::AddI => x + y,
        ArithOp::SubI => x - y,
        ArithOp::MulI => x * y,
        ArithOp::DivSI => int_div_trunc(x, y),
        ArithOp::RemSI => int_rem_trunc(x, y),
        ArithOp::AndI => bits_and(x, y),
        ArithOp::OrI => bits_or(x, y),
        ArithOp::ShLI => shifted_left(x, y),
        ArithOp::ShRSI => shifted_right(x, y),
        ArithOp::CmpI(p) => if predicate_holds(p, x, y) {
            1
        } else {
            0
        },
    }
}

/// The attribute of an `arith.constant`.  A float constant holds the
/// IEEE-754 bit pattern of the value at the precision of its type.
#[derive(Debug, PartialEq, Eq)]
pub enum ConstantAttr {
    Integer { ty: MlirType, value: i64 },
    Float { ty: MlirType, bits: u64 },
}

/// Operations, each with the numbers of the values it defines.
#[derive(Debug, PartialEq, Eq)]
pub enum Operation {
    /// `arith.constant`
    Constant { result: usize, attr: ConstantAttr },
    /// A binary `arith` operation.
    Arith { result: usize, op: ArithOp, lhs: usize, rhs: usize },
    /// `func.call`
    Call { callee: String, operands: Vec<usize>, result_types: Vec<MlirType>, results: Vec<usize> },
    /// `scf.if` with its two regions.
    If {
        condition: usize,
        result_types: Vec<MlirType>,
        then_region: IrBlock,
        else_region: IrBlock,
        results: Vec<usize>,
    },
    /// `scf.for` with loop-carried values; the body's first argument is the
    /// induction variable.
    For {
        lower: usize,
        upper: usize,
        step: usize,
        init_args: Vec<usize>,
        body: IrBlock,
        results: Vec<usize>,
    },
    /// `scf.yield`
    Yield { operands: Vec<usize> },
    /// `func.return`
    Return { operands: Vec<usize> },
    /// `memref.alloca` of the given memref type.
    Alloca { result: usize, ty: MlirType },
    /// `memref.load` without indices.
    Load { result: usize, memref: usize, ty: MlirType },
    /// `memref.store` without indices.
    Store { value: usize, memref: usize },
}

/// A block: its arguments and its operations in order.
#[derive(Debug, PartialEq, Eq)]
pub struct IrBlock {
    pub arguments: Vec<usize>,
    pub operations: Vec<Operation>,
}

/// A `func.func` operation.
#[derive(Debug, PartialEq, Eq)]
pub struct IrFunction {
    pub name: String,
    pub inputs: Vec<MlirType>,
    pub results: Vec<MlirType>,
    /// The entry block, once the body is built.
    pub body: Option<IrBlock>,
    /// The type of every value the body defines, indexed by value number.
    pub value_types: Vec<MlirType>,
}

/// A `builtin.module` holding functions.
#[derive(Debug, PartialEq, Eq)]
pub struct IrModule {
    pub functions: Vec<IrFunction>,
}

} // verus!
