//! Binary operations of the `arith` dialect.
use vstd::prelude::*;

use crate::ast::{BinOp, BinOpNat};
use crate::codegen::mlir::ir::{ArithOp, CmpiPredicate, MlirType, Operation, TypeModel};
use super::context::{appends_value, MlirContext};

verus! {

/// The `arith` operation that implements a binary operator.
pub open spec fn arith_op_of(op: BinOp) -> ArithOp {
    match op {
        BinOp::Add => ArithOp::AddI,
        BinOp::Sub => ArithOp::SubI,
        BinOp::Mul => ArithOp::MulI,
        BinOp::Div => ArithOp::DivSI,
        BinOp::Mod => ArithOp::RemSI,
        BinOp::And => ArithOp::AndI,
        BinOp::Or => ArithOp::OrI,
        BinOp::Eq => ArithOp::CmpI(CmpiPredicate::Eq),
        BinOp::Lt => ArithOp::CmpI(CmpiPredicate::Slt),
        BinOp::Le => ArithOp::CmpI(CmpiPredicate::Sle),
        BinOp::Gt => ArithOp::CmpI(CmpiPredicate::Sgt),
        BinOp::Ge => ArithOp::CmpI(CmpiPredicate::Sge),
        BinOp::Neq => ArithOp::CmpI(CmpiPredicate::Ne),
        BinOp::Shl => ArithOp::ShLI,
        BinOp::Shr => ArithOp::ShRSI,
        BinOp::BitOr => ArithOp::OrI,
        BinOp::BitAnd => ArithOp::AndI,
    }
}

/// The `arith` operation that implements a natural-number operator.
pub open spec fn nat_arith_op_of(op: BinOpNat) -> ArithOp {
    match op {
        BinOpNat::Add => ArithOp::AddI,
        BinOpNat::Sub => ArithOp::SubI,
        BinOpNat::Mul => ArithOp::MulI,
        BinOpNat::Div => ArithOp::DivSI,
        BinOpNat::Mod => ArithOp::RemSI,
    }
}

/// The type of the result of `op` on operands of type `lhs`: `i1` for a
/// comparison, the operand type otherwise.
pub open spec fn arith_result_type(op: ArithOp, lhs: TypeModel) -> TypeModel {
    match op {
        ArithOp::CmpI(_) => TypeModel::Integer(1),
        _ => lhs,
    }
}

/// Appends the operation `op` on `lhs` and `rhs` and returns its result.
fn append_arith(ctx: &mut MlirContext, op: ArithOp, lhs: usize, rhs: usize) -> (v: usize)
    requires
        old(ctx).wf(),
        lhs < old(ctx).value_types@.len(),
    ensures
        appends_value(
            *old(ctx),
            *final(ctx),
            Operation::Arith { result: v, op, lhs, rhs },
            v,
            arith_result_type(op, old(ctx).value_types@[lhs as int]@),
        ),
{
    let t = match op {
        ArithOp::CmpI(_) => MlirType::Integer(1),
        _ => ctx.value_types[lhs].copy(),
    };
    let v = ctx.new_value(t);
    ctx.current_block.push(Operation::Arith { result: v, op, lhs, rhs });
    proof {
        assert(ctx.value_types@.drop_last() =~= old(ctx).value_types@);
    }
    v
}

/// Appends the `arith` operation for the binary operator `op` on `lhs` and
/// `rhs`: `addi`, `subi`, `muli`, `divsi`, `remsi`, `andi`, `ori`, `shli`,
/// `shrsi`, or `cmpi` with a signed predicate for comparisons.
pub fn build_binary_operation(lhs: usize, rhs: usize, op: BinOp, ctx: &mut MlirContext) -> (v:
    usize)
    requires
        old(ctx).wf(),
        lhs < old(ctx).value_types@.len(),
    ensures
        appends_value(
            *old(ctx),
            *final(ctx),
            Operation::Arith { result: v, op: arith_op_of(op), lhs, rhs },
            v,
            arith_result_type(arith_op_of(op), old(ctx).value_types@[lhs as int]@),
        ),
{
    let arith_op = match op {
        BinOp::Add => ArithOp::AddI,
        BinOp::Sub => ArithOp::SubI,
        BinOp::Mul => ArithOp::MulI,
        BinOp::Div => ArithOp::DivSI,
        BinOp::Mod => ArithOp::RemSI,
        BinOp::And => ArithOp::AndI,
        BinOp::Or => ArithOp::OrI,
        BinOp::Eq => ArithOp::CmpI(CmpiPredicate::Eq),
        BinOp::Lt => ArithOp::CmpI(CmpiPredicate::Slt),
        BinOp::Le => ArithOp::CmpI(CmpiPredicate::Sle),
        BinOp::Gt => ArithOp::CmpI(CmpiPredicate::Sgt),
        BinOp::Ge => ArithOp::CmpI(CmpiPredicate::Sge),
        BinOp::Neq => ArithOp::CmpI(CmpiPredicate::Ne),
        BinOp::Shl => ArithOp::ShLI,
        BinOp::Shr => ArithOp::ShRSI,
        BinOp::BitOr => ArithOp::OrI,
        BinOp::BitAnd => ArithOp::AndI,
    };
    append_arith(ctx, arith_op, lhs, rhs)
}

/// Appends the `arith` operation for the natural-number operator `op` on
/// `lhs` and `rhs`.
pub fn build_nat_binary_operation(
    lhs: usize,
    rhs: usize,
    op: &BinOpNat,
    ctx: &mut MlirContext,
) -> (v: usize)
    requires
        old(ctx).wf(),
        lhs < old(ctx).value_types@.len(),
    ensures
        appends_value(
            *old(ctx),
            *final(ctx),
            Operation::Arith { result: v, op: nat_arith_op_of(*op), lhs, rhs },
            v,
            old(ctx).value_types@[lhs as int]@,
        ),
{
    let arith_op = match op {
        BinOpNat::Add => ArithOp::AddI,
        BinOpNat::Sub => ArithOp::SubI,
        BinOpNat::Mul => ArithOp::MulI,
        BinOpNat::Div => ArithOp::DivSI,
        BinOpNat::Mod => ArithOp::RemSI,
    };
    append_arith(ctx, arith_op, lhs, rhs)
}

} // verus!
