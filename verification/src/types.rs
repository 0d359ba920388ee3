use vstd::prelude::*;

verus! {

/// A primitive value kind, as the decoder reports it.
#[derive(Debug, Clone, Copy, PartialEq, Eq, Structural)]
pub enum ValueType {
    I32,
    I64,
}

impl ValueType {
    /// Decodes the one-byte value-type code of the binary format.
    /// Only the two codes of the supported kinds are meaningful.
    pub fn from_code(code: u8) -> (t: ValueType)
        requires
            code == 0x7F || code == 0x7E,
        ensures
            code == 0x7F ==> t == ValueType::I32,
            code == 0x7E ==> t == ValueType::I64,
    {
        if code == 0x7F {
            ValueType::I32
        } else {
            ValueType::I64
        }
    }
}

/// A copy of a vector of plainly copyable elements.
pub(crate) fn copied_vec<T: Copy>(v: &Vec<T>) -> (r: Vec<T>)
    ensures
        r@ == v@,
{
    let mut r: Vec<T> = Vec::new();
    let mut i: usize = 0;
    while i < v.len()
        invariant
            i <= v@.len(),
            r@ == v@.subrange(0, i as int),
        decreases v@.len() - i,
    {
        r.push(v[i]);
        assert(r@ =~= v@.subrange(0, i + 1));
        i = i + 1;
    }
    assert(r@ =~= v@);
    r
}

/// A function signature: the ordered parameter kinds and result kinds.
#[derive(Debug)]
pub struct FuncType {
    pub params: Vec<ValueType>,
    pub results: Vec<ValueType>,
}

impl Clone for FuncType {
    fn clone(&self) -> (r: Self)
        ensures
            r@ == self@,
    {
        FuncType { params: copied_vec(&self.params), results: copied_vec(&self.results) }
    }
}

/// The mathematical content of a [`FuncType`].
#[verifier::ext_equal]
pub struct FuncTypeView {
    pub params: Seq<ValueType>,
    pub results: Seq<ValueType>,
}

impl View for FuncType {
    type V = FuncTypeView;

    open spec fn view(&self) -> FuncTypeView {
        FuncTypeView { params: self.params@, results: self.results@ }
    }
}

/// One run-length-encoded local declaration: `type_count` slots of
/// `value_type`, in declaration order.
#[derive(Debug, Clone, Copy, PartialEq, Eq, Structural)]
pub struct FunctionLocal {
    pub type_count: u32,
    pub value_type: ValueType,
}

/// What an export resolves to; only functions are exportable here.
#[derive(Debug, Clone, Copy, PartialEq, Eq, Structural)]
pub enum ExportDesc {
    Func(u32),
}

/// A named, externally callable entry point of a module.
#[derive(Debug, Clone)]
pub struct Export {
    pub name: String,
    pub desc: ExportDesc,
}

/// The mathematical content of an [`Export`].
#[verifier::ext_equal]
pub struct ExportView {
    pub name: Seq<char>,
    pub desc: ExportDesc,
}

impl View for Export {
    type V = ExportView;

    open spec fn view(&self) -> ExportView {
        ExportView { name: self.name@, desc: self.desc }
    }
}

} // verus!
