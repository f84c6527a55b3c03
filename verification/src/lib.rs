//! The ownership rules of a wrapper around LLVM's C API, kept apart from the
//! calls themselves.
//!
//! LLVM hands out raw handles and leaves it to the caller to dispose of each
//! exactly once. This crate decides which native call is due and what its
//! answer means; it never makes a call.
//!
//! An operation is a function of the answers received so far. Asked with
//! no answers, it names the first call to make (`Step::Perform`). The
//! caller makes the call, appends the answer and asks again, until the
//! operation finishes with its result (`Step::Finished`) or stops because
//! going on would hand LLVM something it cannot take (`Step::Abort`). An
//! operation that has finished is not asked again.
//!
//! What goes away says which calls are due: `Module::dispose`, and
//! `release` on everything else that owns something of LLVM's.
//!
//! `unit` says how each operation on a module proceeds, `module` holds the
//! operations themselves, and `ownership` says what follows for the life of
//! a native module, whatever LLVM answers.

pub mod context;
pub mod data_layout;
pub mod execution_engine;
pub mod linkage;
pub mod memory_buffer;
pub mod module;
pub mod native;
pub mod ownership;
pub mod support;
pub mod targets;
pub mod types;
pub mod unit;
pub mod values;

use vstd::prelude::*;

verus! {

/// The memory region a global lives in.
#[derive(Debug, PartialEq, Eq, Copy, Clone, Structural)]
pub enum AddressSpace {
    Generic,
    Global,
    Shared,
    Const,
    Local,
}

impl AddressSpace {
    /// The number LLVM knows this address space by.
    pub open spec fn spec_code(self) -> u32 {
        match self {
            AddressSpace::Generic => 0,
            AddressSpace::Global => 1,
            AddressSpace::Shared => 3,
            AddressSpace::Const => 4,
            AddressSpace::Local => 5,
        }
    }

    #[verifier::when_used_as_spec(spec_code)]
    pub fn code(self) -> (code: u32)
        ensures
            code == self.spec_code(),
    {
        match self {
            AddressSpace::Generic => 0,
            AddressSpace::Global => 1,
            AddressSpace::Shared => 3,
            AddressSpace::Const => 4,
            AddressSpace::Local => 5,
        }
    }
}

/// How hard the just-in-time compiler should try.
#[derive(Debug, PartialEq, Eq, Copy, Clone, Structural)]
pub enum OptimizationLevel {
    Off,
    Less,
    Default,
    Aggressive,
}

impl OptimizationLevel {
    /// The number LLVM knows this level by.
    pub open spec fn spec_code(self) -> u32 {
        match self {
            OptimizationLevel::Off => 0,
            OptimizationLevel::Less => 1,
            OptimizationLevel::Default => 2,
            OptimizationLevel::Aggressive => 3,
        }
    }

    #[verifier::when_used_as_spec(spec_code)]
    pub fn code(self) -> (code: u32)
        ensures
            code == self.spec_code(),
    {
        match self {
            OptimizationLevel::Off => 0,
            OptimizationLevel::Less => 1,
            OptimizationLevel::Default => 2,
            OptimizationLevel::Aggressive => 3,
        }
    }
}

} // verus!
