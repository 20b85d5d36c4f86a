//! The MLIR back end.
//!
//! A program is lowered to an `IrModule`.  Verifying that module and printing
//! it is the work of the MLIR libraries; `checked_module_text` turns their
//! verdict and text into the back end's result.  Programs whose kernels need
//! HIVM address spaces are printed as text directly.
use vstd::prelude::*;

pub mod builder;
pub mod error;
pub mod ir;
pub mod to_mlir;

use crate::ast::{CompilUnit, DataTyKind, Item, Memory, ParamDecl, Ty, TyKind};
use crate::text::string_of;
use builder::{
    built_function, declared_callees, fun_body_lowerable, fun_defs, items_lowerable,
    MlirBuilder,
};
use error::{general_error, mlir_error_text, MlirError, MlirErrorView};
use ir::IrModule;
use to_mlir::types::{generate_mlir_string_with_hivm, hivm_module_text, items_params_lowerable};

verus! {

/// What code generation produces: the MLIR text of a program with HIVM
/// address spaces, or the module of any other program, to be verified and
/// printed.
pub enum CodegenOutput {
    Text(String),
    Module(IrModule),
}

/// `m` holds exactly the lowered function definitions of `items`, in order,
/// their bodies lowered with the result types that `items` declares for
/// each callee.
pub open spec fn module_of(m: IrModule, items: Seq<crate::ast::Item>) -> bool {
    &&& m.functions@.len() == fun_defs(items).len()
    &&& forall|k: int|
        0 <= k < m.functions@.len() ==> built_function(
            #[trigger] m.functions@[k],
            fun_defs(items)[k],
            declared_callees(items),
            |name: Seq<char>| builder::declared_results(items, name),
        )
}

/// Whether memory `m` is NPU memory: global memory or the unified buffer.
pub open spec fn npu_memory(m: Memory) -> bool {
    m is NpuGm || m is NpuUb
}

/// Whether a parameter type places its value in NPU memory: a value at NPU
/// memory, or a reference into NPU memory.
pub open spec fn npu_param_ty(t: Ty) -> bool {
    match t.ty {
        TyKind::Data(d) => match d.dty {
            DataTyKind::At(_, m) => npu_memory(m),
            DataTyKind::Ref(r) => npu_memory(r.mem),
            _ => false,
        },
        _ => false,
    }
}

/// Whether a parameter's annotated type is in NPU memory.
pub open spec fn param_needs_hivm(p: ParamDecl) -> bool {
    match p.ty {
        Some(t) => npu_param_ty(t),
        None => false,
    }
}

/// Whether an item is a function definition with a parameter in NPU memory.
pub open spec fn item_needs_hivm(it: Item) -> bool {
    match it {
        Item::FunDef(f) => exists|j: int|
            0 <= j < f.param_decls@.len() && param_needs_hivm(#[trigger] f.param_decls@[j]),
        _ => false,
    }
}

/// Whether a program needs HIVM address spaces: some function definition
/// has a parameter in NPU memory.
pub open spec fn program_needs_hivm(items: Seq<Item>) -> bool {
    exists|i: int| 0 <= i < items.len() && item_needs_hivm(#[trigger] items[i])
}

/// What code generation requires of a program: on the textual path, that
/// every parameter type can be lowered and written with its address space;
/// otherwise, that every function definition can be lowered.
pub open spec fn codegen_supported(items: Seq<Item>) -> bool {
    if program_needs_hivm(items) {
        items_params_lowerable(items)
    } else {
        items_lowerable(items)
    }
}

/// What code generation gives for a program: the HIVM text when it needs
/// HIVM address spaces, and otherwise its module.  This statement does not
/// depend on whether index checks were asked for.
pub open spec fn codegen_result(items: Seq<Item>, r: Result<CodegenOutput, String>) -> bool {
    if program_needs_hivm(items) {
        r matches Ok(CodegenOutput::Text(s)) && s@ == hivm_module_text(items)
    } else {
        r matches Ok(CodegenOutput::Module(m)) && module_of(m, items)
    }
}

fn is_npu_memory(m: &Memory) -> (b: bool)
    ensures
        b == npu_memory(*m),
{
    match m {
        Memory::NpuGm | Memory::NpuUb => true,
        _ => false,
    }
}

fn param_is_npu(p: &ParamDecl) -> (b: bool)
    ensures
        b == param_needs_hivm(*p),
{
    match &p.ty {
        Some(t) => match &t.ty {
            TyKind::Data(d) => match &d.dty {
                DataTyKind::At(_, m) => is_npu_memory(m),
                DataTyKind::Ref(r) => is_npu_memory(&r.mem),
                _ => false,
            },
            _ => false,
        },
        None => false,
    }
}

/// Whether the program needs HIVM address spaces: some function definition
/// has a parameter in NPU memory.
#[verifier::loop_isolation(false)]
pub fn needs_hivm_address_space(comp_unit: &CompilUnit) -> (b: bool)
    ensures
        b == program_needs_hivm(comp_unit.items@),
{
    let mut i: usize = 0;
    while i < comp_unit.items.len()
        invariant
            i <= comp_unit.items@.len(),
            forall|k: int| 0 <= k < i ==> !item_needs_hivm(#[trigger] comp_unit.items@[k]),
        decreases comp_unit.items@.len() - i,
    {
        if let Item::FunDef(fun) = &comp_unit.items[i] {
            let mut j: usize = 0;
            while j < fun.param_decls.len()
                invariant
                    j <= fun.param_decls@.len(),
                    forall|k: int| 0 <= k < j ==> !param_needs_hivm(#[trigger] fun.param_decls@[k]),
                decreases fun.param_decls@.len() - j,
            {
                if param_is_npu(&fun.param_decls[j]) {
                    proof {
                        assert(item_needs_hivm(comp_unit.items@[i as int]));
                    }
                    return true;
                }
                j = j + 1;
            }
        }
        i = i + 1;
    }
    false
}

/// Builds the module of a program with the two-pass builder.  Programs that
/// need HIVM address spaces are refused: they take the textual path.
pub fn build_module_internal(comp_unit: &CompilUnit) -> (r: Result<IrModule, MlirError>)
    requires
        items_lowerable(comp_unit.items@),
    ensures
        program_needs_hivm(comp_unit.items@) ==> (r matches Err(e) && e@ == MlirErrorView::General(
            "HIVM address spaces require string generation path"@,
        )),
        !program_needs_hivm(comp_unit.items@) ==> (r matches Ok(m) && module_of(
            m,
            comp_unit.items@,
        )),
{
    if needs_hivm_address_space(comp_unit) {
        return Err(general_error("HIVM address spaces require string generation path"));
    }
    let mut builder = MlirBuilder::new(IrModule { functions: Vec::new() });
    builder.build_items_two_pass(comp_unit);
    let module = builder.module();
    proof {
        assert(module.functions@.take(0) =~= Seq::<ir::IrFunction>::empty());
        assert forall|k: int| 0 <= k < module.functions@.len() implies built_function(
            #[trigger] module.functions@[k],
            fun_defs(comp_unit.items@)[k],
            declared_callees(comp_unit.items@),
            |name: Seq<char>| builder::declared_results(comp_unit.items@, name),
        ) by {
            assert(module.functions@[0 + k] == module.functions@[k]);
        }
    }
    Ok(builder.into_module())
}

/// Generates code for a program: the HIVM text when it needs HIVM address
/// spaces, its module otherwise.  Whether index checks are asked for does
/// not change what is generated.  A failure to build the module is reported
/// as `MLIR module building failed: ` and the error's text.
pub fn gen_checked(comp_unit: &CompilUnit, _idx_checks: bool) -> (r: Result<CodegenOutput, String>)
    requires
        codegen_supported(comp_unit.items@),
    ensures
        codegen_result(comp_unit.items@, r),
{
    if needs_hivm_address_space(comp_unit) {
        Ok(CodegenOutput::Text(generate_mlir_string_with_hivm(comp_unit)))
    } else {
        match build_module_internal(comp_unit) {
            Ok(module) => Ok(CodegenOutput::Module(module)),
            Err(e) => {
                let mut s = string_of("MLIR module building failed: ");
                let m = e.message();
                s.append(m.as_str());
                Err(s)
            },
        }
    }
}

/// The text reported when the MLIR verifier rejects a module.
pub open spec fn verification_failed_text() -> Seq<char> {
    "MLIR module building failed: "@ + mlir_error_text(
        MlirErrorView::General("MLIR module verification failed"@),
    )
}

/// The result of code generation for a built module, given whether the MLIR
/// verifier accepted it and its printed text: the text when accepted, and
/// otherwise the verification failure.
pub fn checked_module_text(verified: bool, text: String) -> (r: Result<String, String>)
    ensures
        verified ==> r == Ok::<String, String>(text),
        !verified ==> (r matches Err(s) && s@ == verification_failed_text()),
{
    if !verified {
        let e = general_error("MLIR module verification failed");
        let mut s = string_of("MLIR module building failed: ");
        let m = e.message();
        s.append(m.as_str());
        return Err(s);
    }
    Ok(text)
}

} // verus!
