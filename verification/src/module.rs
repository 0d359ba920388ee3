use crate::instruction::Instruction;
use crate::types::{Export, ExportView, FuncType, FuncTypeView, FunctionLocal};
use vstd::prelude::*;

verus! {

/// One code-section entry: a function body's local declarations (still
/// run-length encoded) and its instruction sequence.
#[derive(Debug, Clone)]
pub struct FunctionBody {
    pub locals: Vec<FunctionLocal>,
    pub code: Vec<Instruction>,
}

/// The mathematical content of a [`FunctionBody`].
pub struct FunctionBodyView {
    pub locals: Seq<FunctionLocal>,
    pub code: Seq<Instruction>,
}

impl View for FunctionBody {
    type V = FunctionBodyView;

    open spec fn view(&self) -> FunctionBodyView {
        FunctionBodyView { locals: self.locals@, code: self.code@ }
    }
}

/// A module already parsed into typed sections by the external decoder.
/// The sections are positional: entry `i` of the function section names the
/// type of the function whose body is entry `i` of the code section.
#[derive(Debug, Clone)]
pub struct Module {
    pub type_section: Option<Vec<FuncType>>,
    pub function_section: Option<Vec<u32>>,
    pub code_section: Option<Vec<FunctionBody>>,
    pub exports: Vec<Export>,
}

/// The mathematical content of a [`Module`].
pub struct ModuleView {
    pub type_section: Option<Seq<FuncTypeView>>,
    pub function_section: Option<Seq<u32>>,
    pub code_section: Option<Seq<FunctionBodyView>>,
    pub exports: Seq<ExportView>,
}

impl View for Module {
    type V = ModuleView;

    open spec fn view(&self) -> ModuleView {
        ModuleView {
            type_section: match self.type_section {
                Some(ts) => Some(ts@.map_values(|t: FuncType| t@)),
                None => None,
            },
            function_section: match self.function_section {
                Some(fs) => Some(fs@),
                None => None,
            },
            code_section: match self.code_section {
                Some(cs) => Some(cs@.map_values(|b: FunctionBody| b@)),
                None => None,
            },
            exports: self.exports@.map_values(|e: Export| e@),
        }
    }
}

} // verus!
