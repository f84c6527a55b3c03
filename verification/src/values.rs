//! Views of values that live inside a unit: functions, globals, metadata.
//!
//! A view holds a handle and owns nothing. Two views are equal when their
//! handles are. A view is good for as long as the unit it came from has not
//! been handed back to LLVM; nothing here enforces that.

use crate::linkage::Linkage;
use llvm_sys::LLVMLinkage;
use crate::native::{ask_linkage, ask_unit, take_linkage, take_unit, Call, Reply, Step};
use vstd::prelude::*;

verus! {

/// A function of a unit.
#[derive(Debug, PartialEq, Eq, Copy, Clone, Structural)]
pub struct FunctionValue {
    pub fn_value: usize,
}

impl FunctionValue {
    /// The view of the function at `value`, if there is a function: LLVM
    /// gives null for "no such function".
    pub open spec fn spec_new(value: usize) -> Option<FunctionValue> {
        if value == 0 {
            None
        } else {
            Some(FunctionValue { fn_value: value })
        }
    }

    /// Wraps the handle `value`; null is no function.
    #[verifier::when_used_as_spec(spec_new)]
    pub fn new(value: usize) -> (function: Option<FunctionValue>)
        ensures
            function == Self::spec_new(value),
    {
        if value == 0 {
            None
        } else {
            Some(FunctionValue { fn_value: value })
        }
    }

    /// The handle.
    pub fn as_value_ref(&self) -> (value: usize)
        ensures
            value == self.fn_value,
    {
        self.fn_value
    }

    /// How reading the linkage proceeds: one query, whose answer is turned
    /// into a `Linkage`.
    pub open spec fn linkage_read(self, replies: Seq<Reply>) -> Step<'static, Linkage> {
        ask_linkage(Call::GetLinkage { value: self.fn_value }, replies).map(
            |native: LLVMLinkage| Linkage::from_native(native),
        )
    }

    /// Reads the linkage of the function.
    pub fn get_linkage(&self, replies: &Vec<Reply>) -> (step: Step<'static, Linkage>)
        ensures
            step == self.linkage_read(replies@),
    {
        match take_linkage(Call::GetLinkage { value: self.fn_value }, replies, 0) {
            Step::Perform(call) => Step::Perform(call),
            Step::Abort(violation) => Step::Abort(violation),
            Step::Finished(native) => Step::Finished(Linkage::new(native)),
        }
    }

    /// How setting the linkage proceeds: one call that hands over the
    /// native form of `linkage`.
    pub open spec fn linkage_write(self, linkage: Linkage, replies: Seq<Reply>) -> Step<
        'static,
        (),
    > {
        ask_unit(Call::SetLinkage { value: self.fn_value, linkage: linkage.native() }, replies)
    }

    /// Sets the linkage of the function.
    pub fn set_linkage(&self, linkage: Linkage, replies: &Vec<Reply>) -> (step: Step<'static, ()>)
        ensures
            step == self.linkage_write(linkage, replies@),
    {
        take_unit(
            Call::SetLinkage { value: self.fn_value, linkage: linkage.as_llvm_linkage() },
            replies,
            0,
        )
    }
}

/// A global variable of a unit.
#[derive(Debug, PartialEq, Eq, Copy, Clone, Structural)]
pub struct GlobalValue {
    pub global_value: usize,
}

impl GlobalValue {
    /// The view of the global at `value`, if there is one.
    pub open spec fn spec_new(value: usize) -> Option<GlobalValue> {
        if value == 0 {
            None
        } else {
            Some(GlobalValue { global_value: value })
        }
    }

    /// Wraps the handle `value`; null is no global.
    #[verifier::when_used_as_spec(spec_new)]
    pub fn new(value: usize) -> (global: Option<GlobalValue>)
        ensures
            global == Self::spec_new(value),
    {
        if value == 0 {
            None
        } else {
            Some(GlobalValue { global_value: value })
        }
    }

    /// The handle.
    pub fn as_value_ref(&self) -> (value: usize)
        ensures
            value == self.global_value,
    {
        self.global_value
    }
}

/// A metadata node or string.
#[derive(Debug, PartialEq, Eq, Copy, Clone, Structural)]
pub struct MetadataValue {
    pub metadata_value: usize,
}

impl MetadataValue {
    /// The view of the metadata at `value`, if there is any.
    pub open spec fn spec_new(value: usize) -> Option<MetadataValue> {
        if value == 0 {
            None
        } else {
            Some(MetadataValue { metadata_value: value })
        }
    }

    /// Wraps the handle `value`; null is no metadata.
    #[verifier::when_used_as_spec(spec_new)]
    pub fn new(value: usize) -> (metadata: Option<MetadataValue>)
        ensures
            metadata == Self::spec_new(value),
    {
        if value == 0 {
            None
        } else {
            Some(MetadataValue { metadata_value: value })
        }
    }

    /// The handle.
    pub fn as_value_ref(&self) -> (value: usize)
        ensures
            value == self.metadata_value,
    {
        self.metadata_value
    }
}

} // verus!
