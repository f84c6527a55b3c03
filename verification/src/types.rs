//! Views of types. A view holds a handle and owns nothing.

use vstd::prelude::*;

verus! {

/// The type of a function.
#[derive(Debug, PartialEq, Eq, Copy, Clone, Structural)]
pub struct FunctionType {
    pub fn_type: usize,
}

impl FunctionType {
    /// The view of the function type at `ty`, if there is one.
    pub open spec fn spec_new(ty: usize) -> Option<FunctionType> {
        if ty == 0 {
            None
        } else {
            Some(FunctionType { fn_type: ty })
        }
    }

    /// Wraps the handle `ty`; null is no type.
    #[verifier::when_used_as_spec(spec_new)]
    pub fn new(ty: usize) -> (function_type: Option<FunctionType>)
        ensures
            function_type == Self::spec_new(ty),
    {
        if ty == 0 {
            None
        } else {
            Some(FunctionType { fn_type: ty })
        }
    }

    /// The handle.
    pub fn as_type_ref(&self) -> (ty: usize)
        ensures
            ty == self.fn_type,
    {
        self.fn_type
    }
}

/// A type that a value can have: what a global holds, what a named type
/// stands for.
#[derive(Debug, PartialEq, Eq, Copy, Clone, Structural)]
pub struct BasicType {
    pub basic_type: usize,
}

impl BasicType {
    /// The view of the type at `ty`, if there is one.
    pub open spec fn spec_new(ty: usize) -> Option<BasicType> {
        if ty == 0 {
            None
        } else {
            Some(BasicType { basic_type: ty })
        }
    }

    /// Wraps the handle `ty`; null is no type.
    #[verifier::when_used_as_spec(spec_new)]
    pub fn new(ty: usize) -> (basic_type: Option<BasicType>)
        ensures
            basic_type == Self::spec_new(ty),
    {
        if ty == 0 {
            None
        } else {
            Some(BasicType { basic_type: ty })
        }
    }

    /// The handle.
    pub fn as_type_ref(&self) -> (ty: usize)
        ensures
            ty == self.basic_type,
    {
        self.basic_type
    }
}

} // verus!
