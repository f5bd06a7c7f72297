//! Value types and function signatures for import declarations.

use vstd::prelude::*;

verus! {

/// A WebAssembly value type, as it appears in an import signature.
#[derive(Clone, Copy, PartialEq, Eq, Structural, Debug)]
pub enum ValueType {
    I32,
    I64,
    F32,
    F64,
}

/// The mathematical view of a function signature: the parameter types in
/// order, and the optional single return type.
pub struct SignatureView {
    pub params: Seq<ValueType>,
    pub ret: Option<ValueType>,
}

/// The call signature of a function import: an ordered sequence of
/// parameter value types plus an optional single return value type.
#[derive(Clone, PartialEq, Eq, Debug)]
pub struct FunctionType {
    params: Vec<ValueType>,
    ret: Option<ValueType>,
}

impl View for FunctionType {
    type V = SignatureView;

    closed spec fn view(&self) -> SignatureView {
        SignatureView { params: self.params@, ret: self.ret }
    }
}

impl FunctionType {
    /// Builds a signature from its parameter list and optional return type.
    pub fn new(params: Vec<ValueType>, return_type: Option<ValueType>) -> (r: FunctionType)
        ensures
            r@ == (SignatureView { params: params@, ret: return_type }),
    {
        FunctionType { params, ret: return_type }
    }

    /// The parameter types, in declaration order.
    pub fn params(&self) -> (r: &Vec<ValueType>)
        ensures
            r@ == self@.params,
    {
        &self.params
    }

    /// The return type, if the signature has one.
    pub fn return_type(&self) -> (r: Option<ValueType>)
        ensures
            r == self@.ret,
    {
        self.ret
    }
}

} // verus!
