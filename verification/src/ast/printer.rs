//! Rendering of types in Descend's concrete syntax, as used in diagnostics.
use vstd::prelude::*;

use super::{AtomicTy, BinOpNat, DataTy, DataTyKind, DimCompo, Memory, Nat, Ownership, Provenance, ScalarTy};
use crate::text::{decimal, push_decimal};

verus! {

pub open spec fn scalar_text(s: ScalarTy) -> Seq<char> {
    match s {
        ScalarTy::Unit => "()"@,
        ScalarTy::U8 => "u8"@,
        ScalarTy::U32 => "u32"@,
        ScalarTy::U64 => "u64"@,
        ScalarTy::I32 => "i32"@,
        ScalarTy::I64 => "i64"@,
        ScalarTy::F32 => "f32"@,
        ScalarTy::F64 => "f64"@,
        ScalarTy::Bool => "bool"@,
        ScalarTy::Npu => "npu"@,
    }
}

pub open spec fn atomic_text(a: AtomicTy) -> Seq<char> {
    match a {
        AtomicTy::AtomicU32 => "AtomicU32"@,
        AtomicTy::AtomicI32 => "AtomicI32"@,
    }
}

pub open spec fn memory_text(m: Memory) -> Seq<char> {
    match m {
        Memory::CpuMem => "cpu.mem"@,
        Memory::NpuGm => "npu.global"@,
        Memory::NpuUb => "npu.shared"@,
        Memory::Ident(i) => i.name@,
    }
}

pub open spec fn ownership_text(o: Ownership) -> Seq<char> {
    match o {
        Ownership::Shrd => "shrd"@,
        Ownership::Uniq => "uniq"@,
    }
}

pub open spec fn provenance_text(p: Provenance) -> Seq<char> {
    match p {
        Provenance::Value(s) => s@,
        Provenance::Ident(i) => i.name@,
    }
}

pub open spec fn bin_op_nat_text(op: BinOpNat) -> Seq<char> {
    match op {
        BinOpNat::Add => "+"@,
        BinOpNat::Sub => "-"@,
        BinOpNat::Mul => "*"@,
        BinOpNat::Div => "/"@,
        BinOpNat::Mod => "%"@,
    }
}

pub open spec fn dim_compo_text(d: DimCompo) -> Seq<char> {
    match d {
        DimCompo::X => "x"@,
        DimCompo::Y => "y"@,
        DimCompo::Z => "z"@,
    }
}

/// The text of a natural-number term.  Binary operations are parenthesised;
/// applications list their arguments separated by `", "`.
pub open spec fn nat_text(n: Nat) -> Seq<char>
    decreases n, 1int,
{
    match n {
        Nat::Ident(i) => i.name@,
        Nat::Lit(l) => decimal(l as nat),
        Nat::BinOp(op, l, r) => "("@ + nat_text(*l) + " "@ + bin_op_nat_text(op) + " "@ + nat_text(
            *r,
        ) + ")"@,
        Nat::ThreadIdx(d) => "thread_idx."@ + dim_compo_text(d),
        Nat::BlockIdx(d) => "block_idx."@ + dim_compo_text(d),
        Nat::BlockDim(d) => "block_dim."@ + dim_compo_text(d),
        Nat::WarpGrpIdx => "warp_grp_idx"@,
        Nat::WarpIdx => "warp_idx"@,
        Nat::LaneIdx => "lane_idx"@,
        Nat::GridIdx => "grid_idx"@,
        Nat::App(f, args) => f.name@ + "("@ + nats_text(args@) + ")"@,
    }
}

/// The texts of natural-number terms, separated by `", "`.
pub open spec fn nats_text(s: Seq<Nat>) -> Seq<char>
    decreases s, 0int,
{
    if s.len() == 0 {
        Seq::empty()
    } else if s.len() == 1 {
        nat_text(s[0])
    } else {
        nats_text(s.drop_last()) + ", "@ + nat_text(s.last())
    }
}

/// The text of a data type in Descend syntax, e.g. `&r shrd npu.global [i16; 16]`.
pub open spec fn dty_text(d: DataTy) -> Seq<char>
    decreases d, 1int,
{
    match d.dty {
        DataTyKind::Ident(i) => i.name@,
        DataTyKind::Scalar(s) => scalar_text(s),
        DataTyKind::Atomic(a) => atomic_text(a),
        DataTyKind::Array(e, n) => "["@ + dty_text(*e) + "; "@ + nat_text(n) + "]"@,
        DataTyKind::ArrayShape(e, n) => "[["@ + dty_text(*e) + "; "@ + nat_text(n) + "]]"@,
        DataTyKind::Tuple(elems) => "("@ + dtys_text(elems@) + ")"@,
        DataTyKind::Struct(decl) => decl.ident.name@,
        DataTyKind::At(e, m) => dty_text(*e) + " @ "@ + memory_text(m),
        DataTyKind::Ref(r) => "&"@ + provenance_text(r.rgn) + " "@ + ownership_text(r.own) + " "@
            + memory_text(r.mem) + " "@ + dty_text(*r.dty),
        DataTyKind::RawPtr(e) => "*"@ + dty_text(*e),
        DataTyKind::Dead(e) => "dead("@ + dty_text(*e) + ")"@,
    }
}

/// The texts of data types, separated by `", "`.
pub open spec fn dtys_text(s: Seq<DataTy>) -> Seq<char>
    decreases s, 0int,
{
    if s.len() == 0 {
        Seq::empty()
    } else if s.len() == 1 {
        dty_text(s[0])
    } else {
        dtys_text(s.drop_last()) + ", "@ + dty_text(s.last())
    }
}

/// Accumulates rendered text.
pub struct PrintState {
    pub string: String,
}

impl PrintState {
    pub fn new() -> (p: PrintState)
        ensures
            p.string@ == Seq::<char>::empty(),
    {
        PrintState { string: String::new() }
    }

    /// The text rendered so far.
    pub fn get(&self) -> (s: String)
        ensures
            s@ == self.string@,
    {
        self.string.clone()
    }

    fn push(&mut self, s: &str)
        ensures
            final(self).string@ == old(self).string@ + s@,
    {
        self.string.append(s);
    }

    pub fn print_scalar(&mut self, s: ScalarTy)
        ensures
            final(self).string@ == old(self).string@ + scalar_text(s),
    {
        let t = match s {
            ScalarTy::Unit => "()",
            ScalarTy::U8 => "u8",
            ScalarTy::U32 => "u32",
            ScalarTy::U64 => "u64",
            ScalarTy::I32 => "i32",
            ScalarTy::I64 => "i64",
            ScalarTy::F32 => "f32",
            ScalarTy::F64 => "f64",
            ScalarTy::Bool => "bool",
            ScalarTy::Npu => "npu",
        };
        self.push(t);
    }

    pub fn print_memory(&mut self, m: &Memory)
        ensures
            final(self).string@ == old(self).string@ + memory_text(*m),
    {
        match m {
            Memory::CpuMem => self.push("cpu.mem"),
            Memory::NpuGm => self.push("npu.global"),
            Memory::NpuUb => self.push("npu.shared"),
            Memory::Ident(i) => self.push(i.name.as_str()),
        }
    }

    pub fn print_nat(&mut self, n: &Nat)
        ensures
            final(self).string@ == old(self).string@ + nat_text(*n),
        decreases n,
    {
        let ghost start = self.string@;
        match n {
            Nat::Ident(i) => self.push(i.name.as_str()),
            Nat::Lit(l) => push_decimal(&mut self.string, *l as u128),
            Nat::BinOp(op, l, r) => {
                self.push("(");
                self.print_nat(l);
                self.push(" ");
                let t = match op {
                    BinOpNat::Add => "+",
                    BinOpNat::Sub => "-",
                    BinOpNat::Mul => "*",
                    BinOpNat::Div => "/",
                    BinOpNat::Mod => "%",
                };
                self.push(t);
                self.push(" ");
                self.print_nat(r);
                self.push(")");
                assert(self.string@ =~= start + nat_text(*n));
            },
            Nat::ThreadIdx(d) => {
                self.push("thread_idx.");
                self.print_dim_compo(*d);
                assert(self.string@ =~= start + nat_text(*n));
            },
            Nat::BlockIdx(d) => {
                self.push("block_idx.");
                self.print_dim_compo(*d);
                assert(self.string@ =~= start + nat_text(*n));
            },
            Nat::BlockDim(d) => {
                self.push("block_dim.");
                self.print_dim_compo(*d);
                assert(self.string@ =~= start + nat_text(*n));
            },
            Nat::WarpGrpIdx => self.push("warp_grp_idx"),
            Nat::WarpIdx => self.push("warp_idx"),
            Nat::LaneIdx => self.push("lane_idx"),
            Nat::GridIdx => self.push("grid_idx"),
            Nat::App(f, args) => {
                self.push(f.name.as_str());
                self.push("(");
                let ghost mid = self.string@;
                let mut i: usize = 0;
                #[verifier::loop_isolation(false)]
                while i < args.len()
                    invariant
                        i <= args@.len(),
                        self.string@ == mid + nats_text(args@.take(i as int)),
                    decreases args@.len() - i,
                {
                    if i > 0 {
                        self.push(", ");
                    }
                    proof {
                        vstd::std_specs::vec::axiom_vec_index_decreases(*args, i as int);
                        assert(decreases_to!(n => n->App_1));
                        assert(decreases_to!(n => args[i as int]));
                    }
                    self.print_nat(&args[i]);
                    proof {
                        assert(args@.take(i + 1).drop_last() =~= args@.take(i as int));
                    }
                    i = i + 1;
                }
                assert(args@.take(args@.len() as int) =~= args@);
                self.push(")");
                assert(self.string@ =~= start + nat_text(*n));
            },
        }
    }

    fn print_dim_compo(&mut self, d: DimCompo)
        ensures
            final(self).string@ == old(self).string@ + dim_compo_text(d),
    {
        match d {
            DimCompo::X => self.push("x"),
            DimCompo::Y => self.push("y"),
            DimCompo::Z => self.push("z"),
        }
    }

    /// Appends the text of the data type `d`.
    pub fn print_dty(&mut self, d: &DataTy)
        ensures
            final(self).string@ == old(self).string@ + dty_text(*d),
        decreases d,
    {
        let ghost start = self.string@;
        match &d.dty {
            DataTyKind::Ident(i) => self.push(i.name.as_str()),
            DataTyKind::Scalar(s) => self.print_scalar(*s),
            DataTyKind::Atomic(a) => match a {
                AtomicTy::AtomicU32 => self.push("AtomicU32"),
                AtomicTy::AtomicI32 => self.push("AtomicI32"),
            },
            DataTyKind::Array(e, n) => {
                self.push("[");
                self.print_dty(e);
                self.push("; ");
                self.print_nat(n);
                self.push("]");
                assert(self.string@ =~= start + dty_text(*d));
            },
            DataTyKind::ArrayShape(e, n) => {
                self.push("[[");
                self.print_dty(e);
                self.push("; ");
                self.print_nat(n);
                self.push("]]");
                assert(self.string@ =~= start + dty_text(*d));
            },
            DataTyKind::Tuple(elems) => {
                self.push("(");
                let ghost mid = self.string@;
                let mut i: usize = 0;
                #[verifier::loop_isolation(false)]
                while i < elems.len()
                    invariant
                        i <= elems@.len(),
                        self.string@ == mid + dtys_text(elems@.take(i as int)),
                    decreases elems@.len() - i,
                {
                    if i > 0 {
                        self.push(", ");
                    }
                    proof {
                        vstd::std_specs::vec::axiom_vec_index_decreases(*elems, i as int);
                        assert(decreases_to!(d => d.dty));
                        assert(decreases_to!(d.dty => d.dty->Tuple_0));
                        assert(decreases_to!(d => elems[i as int]));
                    }
                    self.print_dty(&elems[i]);
                    proof {
                        assert(elems@.take(i + 1).drop_last() =~= elems@.take(i as int));
                    }
                    i = i + 1;
                }
                assert(elems@.take(elems@.len() as int) =~= elems@);
                self.push(")");
                assert(self.string@ =~= start + dty_text(*d));
            },
            DataTyKind::Struct(decl) => self.push(decl.ident.name.as_str()),
            DataTyKind::At(e, m) => {
                self.print_dty(e);
                self.push(" @ ");
                self.print_memory(m);
                assert(self.string@ =~= start + dty_text(*d));
            },
            DataTyKind::Ref(r) => {
                self.push("&");
                match &r.rgn {
                    Provenance::Value(s) => self.push(s.as_str()),
                    Provenance::Ident(i) => self.push(i.name.as_str()),
                }
                self.push(" ");
                match r.own {
                    Ownership::Shrd => self.push("shrd"),
                    Ownership::Uniq => self.push("uniq"),
                }
                self.push(" ");
                self.print_memory(&r.mem);
                self.push(" ");
                self.print_dty(&r.dty);
                assert(self.string@ =~= start + dty_text(*d));
            },
            DataTyKind::RawPtr(e) => {
                self.push("*");
                self.print_dty(e);
                assert(self.string@ =~= start + dty_text(*d));
            },
            DataTyKind::Dead(e) => {
                self.push("dead(");
                self.print_dty(e);
                self.push(")");
                assert(self.string@ =~= start + dty_text(*d));
            },
        }
    }
}

} // verus!
