//! Descend: a safe systems language for NPUs, with an MLIR back end.
use vstd::prelude::*;

pub mod ast;
pub mod codegen;
pub mod error;
pub mod text;
pub mod ty_check;

use ast::{CompilUnit, Item};
use error::{CodegenErrorData, CompileError, CompileErrorView};
use text::string_of;

verus! {

/// What `{:#?}` renders for the items of a program.
pub uninterp spec fn items_debug_text(items: Seq<Item>) -> Seq<char>;

/// Calls `std::format!` with `{:#?}` on the items of a program; the contract
/// names the resulting text `items_debug_text(items)`, and says nothing more
/// of it.
#[verifier::external_body]
fn debug_items(items: &Vec<Item>) -> (s: String)
    ensures
        s@ == items_debug_text(items@),
{
    format!("{:#?}", items)
}

/// The last stage of compiling a parsed, type-checked program: given the
/// code generated for it, the code text and the rendering of its items; a
/// code generation failure becomes a codegen error `MLIR verification
/// failed: ` followed by the failure's text, without span.
pub fn compile(compil_unit: &CompilUnit, generated: Result<String, String>) -> (r: Result<
    (String, String),
    CompileError,
>)
    ensures
        generated is Ok ==> (r matches Ok((code, ast)) && code@ == generated->Ok_0@ && ast@
            == items_debug_text(compil_unit.items@)),
        generated is Err ==> (r matches Err(e) && e@ == CompileErrorView::Codegen {
            message: "MLIR verification failed: "@ + generated->Err_0@,
            span: None,
        }),
{
    let code_string = match generated {
        Ok(code) => code,
        Err(e) => {
            let mut message = string_of("MLIR verification failed: ");
            message.append(e.as_str());
            return Err(CompileError::Codegen(CodegenErrorData { message, span: None }));
        },
    };
    let ast_string = debug_items(&compil_unit.items);
    Ok((code_string, ast_string))
}

} // verus!
