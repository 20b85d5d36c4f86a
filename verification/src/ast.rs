//! Abstract syntax of Descend programs.
//!
//! The syntax tree is what the type checker's error values carry and what
//! the MLIR back end lowers.  Source positions are byte offsets (`Span`).
//! Floating-point literals are held as their IEEE-754 bit patterns, so the
//! tree itself holds integers only.
use vstd::prelude::*;

pub mod internal;
pub mod printer;

verus! {

/// A half-open byte range `[begin, end)` in the source text.
#[derive(Debug, Clone, Copy, PartialEq, Eq)]
pub struct Span {
    pub begin: usize,
    pub end: usize,
}

impl Span {
    pub fn new(begin: usize, end: usize) -> (s: Span)
        ensures
            s.begin == begin,
            s.end == end,
    {
        Span { begin, end }
    }
}

/// An identifier.  Two identifiers are equal when their names and their
/// `is_implicit` flags agree; the span takes no part in equality.
#[derive(Debug, Clone)]
pub struct Ident {
    pub name: String,
    pub span: Option<Span>,
    pub is_implicit: bool,
}

impl Ident {
    /// A new explicit identifier without source position.
    pub fn new(name: &str) -> (i: Ident)
        ensures
            i.name@ == name@,
            i.span is None,
            !i.is_implicit,
    {
        Ident { name: name.to_string(), span: None, is_implicit: false }
    }

    /// A new identifier carrying a source position.
    pub fn with_span(name: &str, span: Span) -> (i: Ident)
        ensures
            i.name@ == name@,
            i.span == Some(span),
            !i.is_implicit,
    {
        Ident { name: name.to_string(), span: Some(span), is_implicit: false }
    }
}

impl PartialEq for Ident {
    fn eq(&self, other: &Self) -> (r: bool) {
        self.name == other.name && self.is_implicit == other.is_implicit
    }
}

impl Eq for Ident {}

impl vstd::std_specs::cmp::PartialEqSpecImpl for Ident {
    open spec fn obeys_eq_spec() -> bool {
        true
    }

    open spec fn eq_spec(&self, other: &Self) -> bool {
        self.name@ == other.name@ && self.is_implicit == other.is_implicit
    }
}

#[derive(Debug, Clone, Copy, PartialEq, Eq)]
pub enum Ownership {
    Shrd,
    Uniq,
}

#[derive(Debug, Clone, Copy, PartialEq, Eq)]
pub enum Mutability {
    Const,
    Mut,
}

#[derive(Debug, Clone, PartialEq, Eq)]
pub enum Provenance {
    Value(String),
    Ident(Ident),
}

/// Memory spaces: `cpu.mem`, `npu.global`, `npu.shared` (unified buffer),
/// or a memory parameter.
#[derive(Debug, Clone, PartialEq, Eq)]
pub enum Memory {
    CpuMem,
    NpuGm,
    NpuUb,
    Ident(Ident),
}

#[derive(Debug, Clone, Copy, PartialEq, Eq)]
pub enum DimCompo {
    X,
    Y,
    Z,
}

#[derive(Debug, Clone, Copy, PartialEq, Eq)]
pub enum BinOpNat {
    Add,
    Sub,
    Mul,
    Div,
    Mod,
}

/// Natural-number terms used for sizes, indices and loop bounds.
#[derive(Debug, PartialEq, Eq)]
pub enum Nat {
    Ident(Ident),
    Lit(usize),
    BinOp(BinOpNat, Box<Nat>, Box<Nat>),
    ThreadIdx(DimCompo),
    BlockIdx(DimCompo),
    BlockDim(DimCompo),
    WarpGrpIdx,
    WarpIdx,
    LaneIdx,
    GridIdx,
    App(Ident, Vec<Nat>),
}

/// Values of natural-number variables, innermost binding last.
pub struct NatCtx {
    pub bindings: Vec<(String, usize)>,
}

/// The value bound to `name`: the latest binding of that name.
pub open spec fn nat_ctx_lookup(b: Seq<(String, usize)>, name: Seq<char>) -> Option<usize>
    decreases b.len(),
{
    if b.len() == 0 {
        None
    } else if b.last().0@ == name {
        Some(b.last().1)
    } else {
        nat_ctx_lookup(b.drop_last(), name)
    }
}

impl NatCtx {
    /// A context without bindings.
    pub fn new() -> (c: NatCtx)
        ensures
            c.bindings@.len() == 0,
    {
        NatCtx { bindings: Vec::new() }
    }

    /// Binds `name` to `value`, shadowing earlier bindings of the name.
    pub fn push(&mut self, name: String, value: usize)
        ensures
            final(self).bindings@ == old(self).bindings@.push((name, value)),
    {
        self.bindings.push((name, value));
    }

    /// The value bound to `name`, if any.
    pub fn lookup(&self, name: &str) -> (r: Option<usize>)
        ensures
            r == nat_ctx_lookup(self.bindings@, name@),
    {
        let mut i = self.bindings.len();
        proof {
            assert(self.bindings@.take(i as int) =~= self.bindings@);
        }
        while i > 0
            invariant
                i <= self.bindings@.len(),
                nat_ctx_lookup(self.bindings@, name@) == nat_ctx_lookup(
                    self.bindings@.take(i as int),
                    name@,
                ),
            decreases i,
        {
            let ghost pre = self.bindings@.take(i as int);
            assert(pre.drop_last() =~= self.bindings@.take(i - 1));
            if crate::text::str_equal(self.bindings[i - 1].0.as_str(), name) {
                return Some(self.bindings[i - 1].1);
            }
            i = i - 1;
        }
        None
    }
}

/// The value of a natural-number term under the bindings `b`; none when the
/// term mentions an unbound name, a thread index or an application, or when
/// an operation leaves the range of `usize` or divides by zero.
pub open spec fn nat_eval(n: Nat, b: Seq<(String, usize)>) -> Option<usize>
    decreases n,
{
    match n {
        Nat::Ident(i) => nat_ctx_lookup(b, i.name@),
        Nat::Lit(l) => Some(l),
        Nat::BinOp(op, l, r) => match (nat_eval(*l, b), nat_eval(*r, b)) {
            (Some(x), Some(y)) => match op {
                BinOpNat::Add => if x + y <= usize::MAX {
                    Some((x + y) as usize)
                } else {
                    None
                },
                BinOpNat::Sub => if x >= y {
                    Some((x - y) as usize)
                } else {
                    None
                },
                BinOpNat::Mul => if x * y <= usize::MAX {
                    Some((x * y) as usize)
                } else {
                    None
                },
                BinOpNat::Div => if y != 0 {
                    Some((x / y) as usize)
                } else {
                    None
                },
                BinOpNat::Mod => if y != 0 {
                    Some((x % y) as usize)
                } else {
                    None
                },
            },
            _ => None,
        },
        _ => None,
    }
}

/// `c` is a copy of `n`: the same term, where the arguments of an
/// application are, one by one, copies of the arguments of `n`.
pub open spec fn nat_copy_of(c: Nat, n: Nat) -> bool
    decreases n,
{
    match n {
        Nat::BinOp(op, l, r) => match c {
            Nat::BinOp(op2, l2, r2) => op2 == op && nat_copy_of(*l2, *l) && nat_copy_of(*r2, *r),
            _ => false,
        },
        Nat::App(f, args) => match c {
            Nat::App(g, cargs) => {
                &&& g == f
                &&& cargs@.len() == args@.len()
                &&& forall|i: int|
                    0 <= i < args@.len() ==> nat_copy_of(#[trigger] cargs@[i], args@[i])
            },
            _ => false,
        },
        _ => c == n,
    }
}

impl Nat {
    /// A copy of this term.
    pub fn copy(&self) -> (c: Nat)
        ensures
            nat_copy_of(c, *self),
        decreases self,
    {
        match self {
            Nat::Ident(i) => Nat::Ident(
                Ident { name: i.name.clone(), span: i.span, is_implicit: i.is_implicit },
            ),
            Nat::Lit(l) => Nat::Lit(*l),
            Nat::BinOp(op, l, r) => Nat::BinOp(*op, Box::new(l.copy()), Box::new(r.copy())),
            Nat::ThreadIdx(d) => Nat::ThreadIdx(*d),
            Nat::BlockIdx(d) => Nat::BlockIdx(*d),
            Nat::BlockDim(d) => Nat::BlockDim(*d),
            Nat::WarpGrpIdx => Nat::WarpGrpIdx,
            Nat::WarpIdx => Nat::WarpIdx,
            Nat::LaneIdx => Nat::LaneIdx,
            Nat::GridIdx => Nat::GridIdx,
            Nat::App(f, args) => {
                let mut out: Vec<Nat> = Vec::new();
                let mut i: usize = 0;
                #[verifier::loop_isolation(false)]
                while i < args.len()
                    invariant
                        i <= args@.len(),
                        out@.len() == i,
                        forall|j: int| 0 <= j < i ==> nat_copy_of(#[trigger] out@[j], args@[j]),
                    decreases args@.len() - i,
                {
                    proof {
                        vstd::std_specs::vec::axiom_vec_index_decreases(*args, i as int);
                        assert(decreases_to!(self => self->App_1));
                    }
                    out.push(args[i].copy());
                    i = i + 1;
                }
                Nat::App(Ident { name: f.name.clone(), span: f.span, is_implicit: f.is_implicit }, out)
            },
        }
    }

    /// Evaluates the term under the bindings of `ctx`.  On failure the error
    /// holds the subterm on which evaluation got stuck.
    pub fn eval(&self, ctx: &NatCtx) -> (r: Result<usize, NatEvalError>)
        ensures
            r is Ok <==> nat_eval(*self, ctx.bindings@) is Some,
            r matches Ok(v) ==> nat_eval(*self, ctx.bindings@) == Some(v),
        decreases self,
    {
        match self {
            Nat::Ident(i) => match ctx.lookup(i.name.as_str()) {
                Some(v) => Ok(v),
                None => Err(NatEvalError { unevaluable: self.copy() }),
            },
            Nat::Lit(l) => Ok(*l),
            Nat::BinOp(op, l, r) => {
                let x = l.eval(ctx)?;
                let y = r.eval(ctx)?;
                match op {
                    BinOpNat::Add => match x.checked_add(y) {
                        Some(v) => Ok(v),
                        None => Err(NatEvalError { unevaluable: self.copy() }),
                    },
                    BinOpNat::Sub => match x.checked_sub(y) {
                        Some(v) => Ok(v),
                        None => Err(NatEvalError { unevaluable: self.copy() }),
                    },
                    BinOpNat::Mul => match x.checked_mul(y) {
                        Some(v) => Ok(v),
                        None => Err(NatEvalError { unevaluable: self.copy() }),
                    },
                    BinOpNat::Div => if y != 0 {
                        Ok(x / y)
                    } else {
                        Err(NatEvalError { unevaluable: self.copy() })
                    },
                    BinOpNat::Mod => if y != 0 {
                        Ok(x % y)
                    } else {
                        Err(NatEvalError { unevaluable: self.copy() })
                    },
                }
            },
            _ => Err(NatEvalError { unevaluable: self.copy() }),
        }
    }
}

/// The term on which natural-number evaluation got stuck.
#[derive(Debug, PartialEq, Eq)]
pub struct NatEvalError {
    pub unevaluable: Nat,
}

#[derive(Debug, PartialEq, Eq)]
pub struct Dim1d(pub Nat);

#[derive(Debug, PartialEq, Eq)]
pub struct Dim2d(pub Nat, pub Nat);

#[derive(Debug, PartialEq, Eq)]
pub struct Dim3d(pub Nat, pub Nat, pub Nat);

#[derive(Debug, PartialEq, Eq)]
pub enum Dim {
    XYZ(Box<Dim3d>),
    XY(Box<Dim2d>),
    XZ(Box<Dim2d>),
    YZ(Box<Dim2d>),
    X(Box<Dim1d>),
    Y(Box<Dim1d>),
    Z(Box<Dim1d>),
}

/// The execution resource a computation runs on.
#[derive(Debug, PartialEq, Eq)]
pub enum BaseExec {
    Ident(Ident),
    CpuThread,
    NpuGrid(Dim, Dim),
}

#[derive(Debug, PartialEq, Eq)]
pub enum ExecPathElem {
    SplitProj(DimCompo, Nat, u8),
    Distrib(DimCompo),
    ToThreads(DimCompo),
}

#[derive(Debug, PartialEq, Eq)]
pub struct ExecExprKind {
    pub base: BaseExec,
    pub path: Vec<ExecPathElem>,
}

impl ExecExprKind {
    pub fn new(base: BaseExec) -> (e: ExecExprKind)
        ensures
            e.base == base,
            e.path@.len() == 0,
    {
        ExecExprKind { base, path: Vec::new() }
    }
}

#[derive(Debug, PartialEq, Eq)]
pub enum ExecTyKind {
    CpuThread,
    NpuGrid(Dim, Dim),
    NpuBlock(Dim),
    NpuThread,
}

#[derive(Debug, PartialEq, Eq)]
pub struct ExecTy {
    pub ty: ExecTyKind,
}

#[derive(Debug, PartialEq, Eq)]
pub struct ExecExpr {
    pub exec_kind: Box<ExecExprKind>,
    pub ty: Option<Box<ExecTy>>,
    pub span: Option<Span>,
}

impl ExecExpr {
    pub fn new(exec_kind: ExecExprKind) -> (e: ExecExpr)
        ensures
            *e.exec_kind == exec_kind,
            e.ty is None,
            e.span is None,
    {
        ExecExpr { exec_kind: Box::new(exec_kind), ty: None, span: None }
    }
}

#[derive(Debug, Clone, Copy, PartialEq, Eq)]
pub enum ScalarTy {
    Unit,
    U8,
    U32,
    U64,
    I32,
    I64,
    F32,
    F64,
    Bool,
    Npu,
}

#[derive(Debug, Clone, Copy, PartialEq, Eq)]
pub enum AtomicTy {
    AtomicU32,
    AtomicI32,
}

#[derive(Debug, PartialEq, Eq)]
pub struct StructField {
    pub name: Ident,
    pub dty: DataTy,
}

#[derive(Debug, PartialEq, Eq)]
pub struct StructDecl {
    pub ident: Ident,
    pub generic_params: Vec<IdentKinded>,
    pub struct_fields: Vec<StructField>,
}

/// A reference type `&prv own mem dty`.
#[derive(Debug, PartialEq, Eq)]
pub struct RefDty {
    pub rgn: Provenance,
    pub own: Ownership,
    pub mem: Memory,
    pub dty: Box<DataTy>,
}

impl RefDty {
    pub fn new(rgn: Provenance, own: Ownership, mem: Memory, dty: DataTy) -> (r: RefDty)
        ensures
            r.rgn == rgn,
            r.own == own,
            r.mem == mem,
            *r.dty == dty,
    {
        RefDty { rgn, own, mem, dty: Box::new(dty) }
    }
}

#[derive(Debug, PartialEq, Eq)]
pub enum DataTyKind {
    Ident(Ident),
    Scalar(ScalarTy),
    Atomic(AtomicTy),
    Array(Box<DataTy>, Nat),
    ArrayShape(Box<DataTy>, Nat),
    Tuple(Vec<DataTy>),
    Struct(Box<StructDecl>),
    At(Box<DataTy>, Memory),
    Ref(Box<RefDty>),
    RawPtr(Box<DataTy>),
    Dead(Box<DataTy>),
}

/// Data types.
#[derive(Debug, PartialEq, Eq)]
pub struct DataTy {
    pub dty: DataTyKind,
    pub span: Option<Span>,
}

impl DataTy {
    pub fn new(dty: DataTyKind) -> (d: DataTy)
        ensures
            d.dty == dty,
            d.span is None,
    {
        DataTy { dty, span: None }
    }
}

#[derive(Debug, PartialEq, Eq)]
pub struct FnTy {
    pub param_tys: Vec<Ty>,
    pub exec_ty: ExecTy,
    pub ret_ty: Box<Ty>,
}

#[derive(Debug, PartialEq, Eq)]
pub enum TyKind {
    Data(Box<DataTy>),
    FnTy(Box<FnTy>),
}

/// Types: data types and function types.
#[derive(Debug, PartialEq, Eq)]
pub struct Ty {
    pub ty: TyKind,
    pub span: Option<Span>,
}

impl Ty {
    pub fn new(ty: TyKind) -> (t: Ty)
        ensures
            t.ty == ty,
            t.span is None,
    {
        Ty { ty, span: None }
    }
}

#[derive(Debug, Clone, Copy, PartialEq, Eq)]
pub enum Kind {
    Nat,
    Memory,
    DataTy,
    Provenance,
}

#[derive(Debug, Clone, PartialEq, Eq)]
pub struct IdentKinded {
    pub ident: Ident,
    pub kind: Kind,
}

#[derive(Debug, PartialEq, Eq)]
pub enum ArgKinded {
    Ident(Ident),
    Nat(Nat),
    Memory(Memory),
    DataTy(DataTy),
    Provenance(Provenance),
}

#[derive(Debug, PartialEq, Eq)]
pub struct PlaceView {
    pub name: Ident,
    pub gen_args: Vec<ArgKinded>,
}

#[derive(Debug, PartialEq, Eq)]
pub enum PlaceExprKind {
    Ident(Ident),
    Deref(Box<PlaceExpr>),
    View(Box<PlaceExpr>, Box<PlaceView>),
    Select(Box<PlaceExpr>, Box<ExecExpr>),
    Proj(Box<PlaceExpr>, usize),
    FieldProj(Box<PlaceExpr>, Ident),
    Idx(Box<PlaceExpr>, Box<Nat>),
}

/// Place expressions: the locations that can be read, written and borrowed.
#[derive(Debug, PartialEq, Eq)]
pub struct PlaceExpr {
    pub pl_expr: PlaceExprKind,
    pub ty: Option<Box<Ty>>,
    pub span: Option<Span>,
}

impl PlaceExpr {
    pub fn new(pl_expr: PlaceExprKind) -> (p: PlaceExpr)
        ensures
            p.pl_expr == pl_expr,
            p.ty is None,
            p.span is None,
    {
        PlaceExpr { pl_expr, ty: None, span: None }
    }
}

#[derive(Debug, PartialEq, Eq)]
pub enum Pattern {
    Ident(Mutability, Ident),
    Tuple(Vec<Pattern>),
    Wildcard,
}

/// Literals.  `F32` and `F64` hold the IEEE-754 bit pattern of the value.
#[derive(Debug, Clone, Copy, PartialEq, Eq)]
pub enum Lit {
    Unit,
    Bool(bool),
    I32(i32),
    U8(u8),
    U32(u32),
    U64(u64),
    F32(u32),
    F64(u64),
}

/// Integer division rounding toward zero, as Descend divides integers; zero
/// for a zero divisor.
pub open spec fn int_div_trunc(x: int, y: int) -> int {
    let q = (if x < 0 { -x } else { x }) / (if y < 0 { -y } else { y });
    if y == 0 {
        0
    } else if (x < 0) == (y < 0) {
        q
    } else {
        -q
    }
}

/// The remainder of `int_div_trunc`: it has the sign of the dividend.
pub open spec fn int_rem_trunc(x: int, y: int) -> int {
    x - y * int_div_trunc(x, y)
}

/// The bitwise and of the 64-bit two's-complement representations.
pub open spec fn bits_and(x: int, y: int) -> int {
    ((x as i64) & (y as i64)) as int
}

/// The bitwise or of the 64-bit two's-complement representations.
pub open spec fn bits_or(x: int, y: int) -> int {
    ((x as i64) | (y as i64)) as int
}

/// `x` shifted left by `y` bits: multiplied by the `y`th power of two.
pub open spec fn shifted_left(x: int, y: int) -> int {
    if y >= 0 {
        x * vstd::arithmetic::power2::pow2(y as nat)
    } else {
        0
    }
}

/// `x` shifted right arithmetically by `y` bits: divided by the `y`th power
/// of two, rounding down.
pub open spec fn shifted_right(x: int, y: int) -> int {
    if y >= 0 {
        x / (vstd::arithmetic::power2::pow2(y as nat) as int)
    } else {
        0
    }
}

/// A truth value as an integer: 1 for true, 0 for false.
pub open spec fn truth(b: bool) -> int {
    if b {
        1
    } else {
        0
    }
}

/// The value of `x op y` in Descend on integer operands, truth values being
/// 0 and 1: the arithmetic operators compute their integer results
/// (division rounds toward zero), comparisons give a truth value, the
/// logical operators combine truth values, the bitwise operators work on the
/// 64-bit two's-complement representations, and shifts multiply or divide
/// (rounding down) by a power of two.
pub open spec fn binop_value(op: BinOp, x: int, y: int) -> int {
    match op {
        BinOp::Add => x + y,
        BinOp::Sub => x - y,
        BinOp::Mul => x * y,
        BinOp::Div => int_div_trunc(x, y),
        BinOp::Mod => int_rem_trunc(x, y),
        BinOp::And => truth(x != 0 && y != 0),
        BinOp::Or => truth(x != 0 || y != 0),
        BinOp::Eq => truth(x == y),
        BinOp::Lt => truth(x < y),
        BinOp::Le => truth(x <= y),
        BinOp::Gt => truth(x > y),
        BinOp::Ge => truth(x >= y),
        BinOp::Neq => truth(x != y),
        BinOp::Shl => shifted_left(x, y),
        BinOp::Shr => shifted_right(x, y),
        BinOp::BitOr => bits_or(x, y),
        BinOp::BitAnd => bits_and(x, y),
    }
}

/// The scalar type of a literal.
pub open spec fn lit_scalar(l: Lit) -> ScalarTy {
    match l {
        Lit::Unit => ScalarTy::Unit,
        Lit::Bool(_) => ScalarTy::Bool,
        Lit::I32(_) => ScalarTy::I32,
        Lit::U8(_) => ScalarTy::U8,
        Lit::U32(_) => ScalarTy::U32,
        Lit::U64(_) => ScalarTy::U64,
        Lit::F32(_) => ScalarTy::F32,
        Lit::F64(_) => ScalarTy::F64,
    }
}

/// The integer value of a literal of integer or truth-value type.
pub open spec fn lit_int_value(l: Lit) -> Option<int> {
    match l {
        Lit::Bool(b) => Some(truth(b)),
        Lit::I32(x) => Some(x as int),
        Lit::U8(x) => Some(x as int),
        Lit::U32(x) => Some(x as int),
        Lit::U64(x) => Some(x as int),
        _ => None,
    }
}

#[derive(Debug, Clone, Copy, PartialEq, Eq)]
pub enum BinOp {
    Add,
    Sub,
    Mul,
    Div,
    Mod,
    And,
    Or,
    Eq,
    Lt,
    Le,
    Gt,
    Ge,
    Neq,
    Shl,
    Shr,
    BitOr,
    BitAnd,
}

#[derive(Debug, Clone, Copy, PartialEq, Eq)]
pub enum UnOp {
    Not,
    Neg,
}

#[derive(Debug, PartialEq, Eq)]
pub enum NatRange {
    Simple { lower: Nat, upper: Nat },
    Halved { upper: Nat },
    Doubled { upper: Nat },
}

#[derive(Debug, PartialEq, Eq)]
pub struct Block {
    pub prvs: Vec<String>,
    pub body: Box<Expr>,
}

#[derive(Debug, PartialEq, Eq)]
pub struct Split {
    pub dim_compo: DimCompo,
    pub pos: Nat,
    pub split_exec: Box<ExecExpr>,
    pub branch_idents: Vec<Ident>,
    pub branch_bodies: Vec<Expr>,
}

#[derive(Debug, PartialEq, Eq)]
pub struct Sched {
    pub dim: DimCompo,
    pub inner_exec_ident: Option<Ident>,
    pub sched_exec: Box<ExecExpr>,
    pub body: Box<Block>,
}

#[derive(Debug, PartialEq, Eq)]
pub struct AppKernel {
    pub grid_dim: Dim,
    pub block_dim: Dim,
    pub shared_mem_dtys: Vec<DataTy>,
    pub shared_mem_prvs: Vec<String>,
    pub fun_ident: Ident,
    pub gen_args: Vec<ArgKinded>,
    pub args: Vec<Expr>,
}

#[derive(Debug, PartialEq, Eq)]
pub enum ExprKind {
    Hole,
    Lit(Lit),
    PlaceExpr(Box<PlaceExpr>),
    Block(Box<Block>),
    BinOp(BinOp, Box<Expr>, Box<Expr>),
    Let(Pattern, Option<Box<Ty>>, Box<Expr>),
    LetUninit(Option<Box<ExecExpr>>, Ident, Box<Ty>),
    Sequence(Vec<Expr>),
    Array(Vec<Expr>),
    Tuple(Vec<Expr>),
    Ref(Option<String>, Ownership, Box<PlaceExpr>),
    Assign(Box<PlaceExpr>, Box<Expr>),
    IdxAssign(Box<PlaceExpr>, Nat, Box<Expr>),
    App(Ident, Vec<ArgKinded>, Vec<Expr>),
    DepApp(Ident, Vec<ArgKinded>),
    AppKernel(Box<AppKernel>),
    IfElse(Box<Expr>, Box<Expr>, Box<Expr>),
    If(Box<Expr>, Box<Expr>),
    For(Ident, Box<Expr>, Box<Expr>),
    ForNat(Ident, NatRange, Box<Expr>),
    While(Box<Expr>, Box<Expr>),
    UnOp(UnOp, Box<Expr>),
    Cast(Box<Expr>, Box<DataTy>),
    Split(Box<Split>),
    Sched(Box<Sched>),
    Sync(Option<Box<ExecExpr>>),
    Unsafe(Box<Expr>),
    Range(Box<Expr>, Box<Expr>),
}

/// Expressions, optionally annotated with their type.
#[derive(Debug, PartialEq, Eq)]
pub struct Expr {
    pub expr: ExprKind,
    pub ty: Option<Box<Ty>>,
    pub span: Option<Span>,
}

impl Expr {
    pub fn new(expr: ExprKind) -> (e: Expr)
        ensures
            e.expr == expr,
            e.ty is None,
            e.span is None,
    {
        Expr { expr, ty: None, span: None }
    }
}

#[derive(Debug, PartialEq, Eq)]
pub struct ParamDecl {
    pub ident: Ident,
    pub ty: Option<Ty>,
    pub mutbl: Mutability,
}

#[derive(Debug, PartialEq, Eq)]
pub struct IdentExec {
    pub ident: Ident,
    pub ty: Box<ExecTy>,
}

#[derive(Debug, PartialEq, Eq)]
pub struct PrvRel {
    pub longer: Ident,
    pub shorter: Ident,
}

/// A function definition.
#[derive(Debug, PartialEq, Eq)]
pub struct FunDef {
    pub ident: Ident,
    pub generic_params: Vec<IdentKinded>,
    pub generic_exec: Option<IdentExec>,
    pub param_decls: Vec<ParamDecl>,
    pub ret_dty: Box<DataTy>,
    pub exec_expr: ExecExpr,
    pub prv_rels: Vec<PrvRel>,
    pub body: Box<Block>,
}

/// A function declaration without body.
#[derive(Debug, PartialEq, Eq)]
pub struct FunDecl {
    pub ident: Ident,
    pub generic_params: Vec<IdentKinded>,
    pub generic_exec: Option<IdentExec>,
    pub param_decls: Vec<ParamDecl>,
    pub ret_dty: Box<DataTy>,
    pub exec_expr: ExecExpr,
    pub prv_rels: Vec<PrvRel>,
}

#[derive(Debug, PartialEq, Eq)]
pub enum Item {
    FunDef(Box<FunDef>),
    FunDecl(Box<FunDecl>),
    StructDecl(Box<StructDecl>),
}

/// A whole program.
#[derive(Debug, PartialEq, Eq)]
pub struct CompilUnit {
    pub items: Vec<Item>,
}

} // verus!
