//! Literals as `arith.constant` operations.
use vstd::prelude::*;

use crate::ast::Lit;
use crate::codegen::mlir::error::MlirError;
use crate::codegen::mlir::ir::{ConstantAttr, MlirType, Operation, TypeModel};
use super::context::{
    appends_value, create_constant, create_float_constant, create_int_constant, MlirContext,
};

verus! {

/// The constant attribute of a literal other than unit: booleans as `i1`
/// 1 or 0, integers at their width (sign-extended for `i32`, zero-extended
/// for unsigned, `u64` reinterpreted as `i64`), floats by their bits.
pub open spec fn literal_attr(l: Lit) -> ConstantAttr {
    match l {
        Lit::Bool(b) => ConstantAttr::Integer {
            ty: MlirType::Integer(1),
            value: if b {
                1
            } else {
                0
            },
        },
        Lit::I32(x) => ConstantAttr::Integer { ty: MlirType::Integer(32), value: x as i64 },
        Lit::U8(x) => ConstantAttr::Integer { ty: MlirType::Integer(8), value: x as i64 },
        Lit::U32(x) => ConstantAttr::Integer { ty: MlirType::Integer(32), value: x as i64 },
        Lit::U64(x) => ConstantAttr::Integer { ty: MlirType::Integer(64), value: x as i64 },
        Lit::F32(b) => ConstantAttr::Float { ty: MlirType::F32, bits: b as u64 },
        Lit::F64(b) => ConstantAttr::Float { ty: MlirType::F64, bits: b },
        Lit::Unit => ConstantAttr::Integer { ty: MlirType::NoneType, value: 0 },
    }
}

/// The type of a constant attribute.
pub open spec fn attr_type(a: ConstantAttr) -> TypeModel {
    match a {
        ConstantAttr::Integer { ty, value: _ } => ty@,
        ConstantAttr::Float { ty, bits: _ } => ty@,
    }
}

/// Appends the constant for a literal; unit yields no value and appends
/// nothing.
pub fn build_literal(lit: &Lit, ctx: &mut MlirContext) -> (r: Result<Option<usize>, MlirError>)
    requires
        old(ctx).wf(),
    ensures
        *lit is Unit ==> r == Ok::<Option<usize>, MlirError>(None) && *final(ctx) == *old(ctx),
        !(*lit is Unit) ==> (r matches Ok(Some(v)) && appends_value(
            *old(ctx),
            *final(ctx),
            Operation::Constant { result: v, attr: literal_attr(*lit) },
            v,
            attr_type(literal_attr(*lit)),
        )),
{
    match lit {
        Lit::Unit => Ok(None),
        Lit::Bool(value) => {
            let v = create_constant(
                ctx,
                ConstantAttr::Integer { ty: MlirType::Integer(1), value: if *value { 1 } else { 0 } },
            )?;
            Ok(Some(v))
        },
        Lit::I32(value) => Ok(Some(create_int_constant(ctx, 32, *value as i64)?)),
        Lit::U8(value) => Ok(Some(create_int_constant(ctx, 8, *value as i64)?)),
        Lit::U32(value) => Ok(Some(create_int_constant(ctx, 32, *value as i64)?)),
        Lit::U64(value) => Ok(Some(create_int_constant(ctx, 64, *value as i64)?)),
        Lit::F32(bits) => Ok(Some(create_float_constant(ctx, MlirType::F32, *bits as u64)?)),
        Lit::F64(bits) => Ok(Some(create_float_constant(ctx, MlirType::F64, *bits)?)),
    }
}

} // verus!
