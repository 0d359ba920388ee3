use crate::error::Error;
use crate::instruction::Instruction;
use crate::module::{FunctionBody, Module};
use crate::types::{Export, ExportView, FuncType, FuncTypeView, FunctionLocal, ValueType};
use vstd::prelude::*;

verus! {

/// A function's executable body: the flattened local declarations (one entry
/// per local slot, parameters excluded) and the instruction sequence.
#[derive(Debug)]
pub struct Func {
    pub locals: Vec<ValueType>,
    pub body: Vec<Instruction>,
}

impl Clone for Func {
    fn clone(&self) -> (r: Self)
        ensures
            r@ == self@,
    {
        Func {
            locals: crate::types::copied_vec(&self.locals),
            body: crate::types::copied_vec(&self.body),
        }
    }
}

/// The mathematical content of a [`Func`].
#[verifier::ext_equal]
pub struct FuncView {
    pub locals: Seq<ValueType>,
    pub body: Seq<Instruction>,
}

impl View for Func {
    type V = FuncView;

    open spec fn view(&self) -> FuncView {
        FuncView { locals: self.locals@, body: self.body@ }
    }
}

/// An instantiated function: its resolved signature and its code.
#[derive(Debug)]
pub struct InternalFuncInst {
    pub func_type: FuncType,
    pub code: Func,
}

impl Clone for InternalFuncInst {
    fn clone(&self) -> (r: Self)
        ensures
            r@ == self@,
    {
        InternalFuncInst { func_type: self.func_type.clone(), code: self.code.clone() }
    }
}

/// The mathematical content of an [`InternalFuncInst`].
#[verifier::ext_equal]
pub struct InternalFuncInstView {
    pub func_type: FuncTypeView,
    pub code: FuncView,
}

impl View for InternalFuncInst {
    type V = InternalFuncInstView;

    open spec fn view(&self) -> InternalFuncInstView {
        InternalFuncInstView { func_type: self.func_type@, code: self.code@ }
    }
}

/// A polymorphic function instance. `Internal` is the only variant today;
/// host or external functions would be further variants, each handled by one
/// new arm in the call dispatch.
#[derive(Debug, Clone)]
pub enum FuncInst {
    Internal(InternalFuncInst),
}

/// The mathematical content of a [`FuncInst`].
#[verifier::ext_equal]
pub enum FuncInstView {
    Internal(InternalFuncInstView),
}

impl View for FuncInst {
    type V = FuncInstView;

    open spec fn view(&self) -> FuncInstView {
        match self {
            FuncInst::Internal(f) => FuncInstView::Internal(f@),
        }
    }
}

/// The table of instantiated, callable function instances built from a
/// decoded module, together with the module's export table.
#[derive(Debug, Clone)]
pub struct Store {
    pub funcs: Vec<FuncInst>,
    pub exports: Vec<Export>,
}

/// The mathematical content of a [`Store`].
#[verifier::ext_equal]
pub struct StoreView {
    pub funcs: Seq<FuncInstView>,
    pub exports: Seq<ExportView>,
}

impl View for Store {
    type V = StoreView;

    open spec fn view(&self) -> StoreView {
        StoreView {
            funcs: self.funcs@.map_values(|f: FuncInst| f@),
            exports: self.exports@.map_values(|e: Export| e@),
        }
    }
}

/// Expands run-length-encoded local declarations into one entry per local
/// slot, preserving declaration order.
pub open spec fn flatten_locals(decls: Seq<FunctionLocal>) -> Seq<ValueType>
    decreases decls.len(),
{
    if decls.len() == 0 {
        Seq::empty()
    } else {
        Seq::new(decls[0].type_count as nat, |i: int| decls[0].value_type)
            + flatten_locals(decls.drop_first())
    }
}

/// How many function instances a module yields: its function-section entries
/// paired positionally with its code-section entries; absent sections pair to
/// nothing.
pub open spec fn instance_count(m: crate::module::ModuleView) -> int {
    match (m.code_section, m.function_section) {
        (Some(cs), Some(fs)) => if cs.len() < fs.len() {
            cs.len() as int
        } else {
            fs.len() as int
        },
        _ => 0,
    }
}

/// The function instance a module yields at index `i`, assuming every section
/// it touches is present and in range.
pub open spec fn instantiated_func(m: crate::module::ModuleView, i: int) -> InternalFuncInstView {
    let ts = m.type_section.unwrap();
    let fsec = m.function_section.unwrap();
    let cs = m.code_section.unwrap();
    InternalFuncInstView {
        func_type: ts[fsec[i] as int],
        code: FuncView { locals: flatten_locals(cs[i].locals), body: cs[i].code },
    }
}

/// What instantiating a module yields: the store contents, or the first
/// failure. The type section is required as soon as one function must be
/// instantiated, and every function's type index must be in range.
pub open spec fn instantiate_spec(m: crate::module::ModuleView) -> Result<StoreView, Error> {
    let n = instance_count(m);
    if n > 0 && m.type_section is None {
        Err(Error::MissingSection)
    } else if exists|i: int|
        0 <= i < n && m.function_section.unwrap()[i] >= m.type_section.unwrap().len() {
        Err(Error::InvalidTypeIndex)
    } else {
        Ok(
            StoreView {
                funcs: Seq::new(n as nat, |i: int| FuncInstView::Internal(instantiated_func(m, i))),
                exports: m.exports,
            },
        )
    }
}

/// Distributing [`flatten_locals`] over concatenation.
proof fn lemma_flatten_locals_append(a: Seq<FunctionLocal>, b: Seq<FunctionLocal>)
    ensures
        flatten_locals(a + b) == flatten_locals(a) + flatten_locals(b),
    decreases a.len(),
{
    if a.len() == 0 {
        assert(a + b =~= b);
        assert(flatten_locals(a) + flatten_locals(b) =~= flatten_locals(b));
    } else {
        lemma_flatten_locals_append(a.drop_first(), b);
        assert((a + b).drop_first() =~= a.drop_first() + b);
        assert(flatten_locals(a + b) =~= flatten_locals(a) + flatten_locals(b));
    }
}

impl Store {
    /// Converts a decoded module into the ordered list of its function
    /// instances, resolving each function's signature and flattening its
    /// run-length-encoded local declarations; the export table is kept for
    /// call-by-name lookup. A module with no defined functions is valid.
    pub fn new(module: Module) -> (r: Result<Store, Error>)
        ensures
            match r {
                Ok(store) => instantiate_spec(module@) == Ok::<StoreView, Error>(store@),
                Err(e) => instantiate_spec(module@) == Err::<StoreView, Error>(e),
            },
    {
        let count: usize = match (&module.code_section, &module.function_section) {
            (Some(cs), Some(fsec)) => if cs.len() < fsec.len() {
                cs.len()
            } else {
                fsec.len()
            },
            _ => 0,
        };
        assert(count == instance_count(module@));

        let mut funcs: Vec<FuncInst> = Vec::new();
        if count > 0 {
            let ts: &Vec<FuncType> = match &module.type_section {
                Some(ts) => ts,
                None => {
                    return Err(Error::MissingSection);
                },
            };
            let cs: &Vec<FunctionBody> = match &module.code_section {
                Some(cs) => cs,
                None => {
                    return Err(Error::MissingSection);
                },
            };
            let fsec: &Vec<u32> = match &module.function_section {
                Some(fsec) => fsec,
                None => {
                    return Err(Error::MissingSection);
                },
            };
            let mut i: usize = 0;
            while i < count
                invariant
                    i <= count,
                    count == instance_count(module@),
                    module.type_section == Some(*ts),
                    module.code_section == Some(*cs),
                    module.function_section == Some(*fsec),
                    funcs@.len() == i,
                    forall|k: int|
                        0 <= k < i ==> funcs@[k]@ == FuncInstView::Internal(
                            instantiated_func(module@, k),
                        ),
                    forall|k: int| 0 <= k < i ==> fsec@[k] < ts@.len(),
                decreases count - i,
            {
                let ti: u32 = fsec[i];
                if ti as usize >= ts.len() {
                    return Err(Error::InvalidTypeIndex);
                }
                let ft: &FuncType = &ts[ti as usize];
                let body: &FunctionBody = &cs[i];

                let mut locals: Vec<ValueType> = Vec::new();
                let mut k: usize = 0;
                while k < body.locals.len()
                    invariant
                        k <= body.locals@.len(),
                        locals@ == flatten_locals(body.locals@.subrange(0, k as int)),
                    decreases body.locals@.len() - k,
                {
                    let decl: FunctionLocal = body.locals[k];
                    let ghost prefix = locals@;
                    let mut j: u32 = 0;
                    while j < decl.type_count
                        invariant
                            j <= decl.type_count,
                            locals@ == prefix + Seq::new(j as nat, |x: int| decl.value_type),
                        decreases decl.type_count - j,
                    {
                        locals.push(decl.value_type);
                        assert(locals@ =~= prefix + Seq::new((j + 1) as nat, |x: int| decl.value_type));
                        j = j + 1;
                    }
                    proof {
                        let declseq = body.locals@;
                        let single = declseq.subrange(k as int, k + 1);
                        lemma_flatten_locals_append(declseq.subrange(0, k as int), single);
                        assert(declseq.subrange(0, k + 1) =~= declseq.subrange(0, k as int)
                            + single);
                        assert(single.drop_first() =~= Seq::<FunctionLocal>::empty());
                        assert(flatten_locals(single.drop_first()) =~= Seq::<ValueType>::empty());
                        assert(single[0] == decl);
                        assert(flatten_locals(single) =~= Seq::new(
                            decl.type_count as nat,
                            |x: int| decl.value_type,
                        ));
                        assert(locals@ =~= flatten_locals(declseq.subrange(0, k + 1)));
                    }
                    k = k + 1;
                }
                assert(body.locals@.subrange(0, body.locals@.len() as int) =~= body.locals@);

                let func_type = FuncType {
                    params: crate::types::copied_vec(&ft.params),
                    results: crate::types::copied_vec(&ft.results),
                };
                let code = Func { locals, body: crate::types::copied_vec(&body.code) };
                let inst = InternalFuncInst { func_type, code };
                proof {
                    assert(module@.type_section.unwrap() =~= ts@.map_values(|t: FuncType| t@));
                    assert(module@.code_section.unwrap() =~= cs@.map_values(
                        |b: FunctionBody| b@,
                    ));
                    assert(inst@.code =~= instantiated_func(module@, i as int).code);
                    assert(inst@.func_type =~= instantiated_func(module@, i as int).func_type);
                    assert(inst@ =~= instantiated_func(module@, i as int));
                }
                funcs.push(FuncInst::Internal(inst));
                i = i + 1;
            }
        }
        let store = Store { funcs, exports: module.exports };
        proof {
            assert(store@.funcs =~= Seq::new(
                instance_count(module@) as nat,
                |i: int| FuncInstView::Internal(instantiated_func(module@, i)),
            ));
            assert(store@.exports =~= module@.exports);
            assert(instantiate_spec(module@) == Ok::<StoreView, Error>(store@));
        }
        Ok(store)
    }
}

} // verus!
