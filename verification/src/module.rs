//! A `Module` is one unit of code in LLVM: functions, globals, metadata and
//! a data layout.
//!
//! The native module is disposed of exactly once. As long as no execution
//! engine was made from a unit, the unit itself is to do it; from then on
//! the engine is, and the unit never.

use crate::context::{Context, ContextRef};
use crate::data_layout::DataLayout;
use crate::execution_engine::ExecutionEngine;
use crate::linkage::Linkage;
use crate::memory_buffer::MemoryBuffer;
use crate::native::{
    answers_from, ask_handle, ask_outcome, take_count, take_handle, take_handles, take_outcome, take_status,
    take_unit, Call, Outcome, Reply, Step, Violation,
};
use crate::support::{has_interior_nul, LLVMString};
use crate::targets::Target;
use crate::types::{BasicType, FunctionType};
use crate::unit::ModuleView;
use crate::values::{FunctionValue, GlobalValue, MetadataValue};
use crate::{AddressSpace, OptimizationLevel};
use llvm_sys::analysis::LLVMVerifierFailureAction;
use std::rc::Rc;
use vstd::prelude::*;

verus! {

/// A unit of code, and with it the duty to dispose of the native module or
/// the knowledge of who has it.
#[derive(Debug, PartialEq, Eq)]
pub struct Module {
    non_global_context: Option<Context>,
    data_layout: DataLayout,
    module: usize,
    owned_by_ee: Option<ExecutionEngine>,
}

impl View for Module {
    type V = ModuleView;

    closed spec fn view(&self) -> ModuleView {
        ModuleView {
            non_global_context: self.non_global_context,
            data_layout: self.data_layout,
            module: self.module,
            owned_by_ee: self.owned_by_ee,
        }
    }
}

impl Module {
    #[verifier::type_invariant]
    spec fn well_formed(self) -> bool {
        self@.wf()
    }

    /// The handle of the native module.
    pub fn as_mut_ptr(&self) -> (module: usize)
        ensures
            module == self@.module,
            self@.wf(),
    {
        proof {
            use_type_invariant(self);
        }
        self.module
    }

    fn new_at(module: usize, context: Option<&Context>, replies: &Vec<Reply>, at: usize) -> (step:
        Step<'static, Module>)
        requires
            at <= replies@.len(),
        ensures
            step.map(|unit: Module| unit@) == ModuleView::adoption(
                module,
                match context {
                    Some(held) => Some(*held),
                    None => None,
                },
                answers_from(replies@, at),
            ),
    {
        if module == 0 {
            return Step::Abort(Violation::NullHandle);
        }
        match take_handle(Call::GetDataLayoutStr { module }, replies, at) {
            Step::Perform(call) => Step::Perform(call),
            Step::Abort(violation) => Step::Abort(violation),
            Step::Finished(layout) => Step::Finished(
                Module {
                    non_global_context: match context {
                        Some(held) => Some(held.clone()),
                        None => None,
                    },
                    data_layout: DataLayout::new_borrowed(layout, module),
                    module,
                    owned_by_ee: None,
                },
            ),
        }
    }

    /// Makes a unit around the native module `module`, which was made in
    /// `context`, or in the global context if there is none. The unit
    /// becomes one more holder of `context`.
    pub fn new(module: usize, context: Option<&Context>, replies: &Vec<Reply>) -> (step: Step<
        'static,
        Module,
    >)
        ensures
            step.map(|unit: Module| unit@) == ModuleView::adoption(
                module,
                match context {
                    Some(held) => Some(*held),
                    None => None,
                },
                replies@,
            ),
    {
        Self::new_at(module, context, replies, 0)
    }

    fn verify_at(&self, replies: &Vec<Reply>, at: usize) -> (step: Step<
        'static,
        Result<(), LLVMString>,
    >)
        requires
            at <= replies@.len(),
        ensures
            step == self@.verify(answers_from(replies@, at)),
    {
        match take_outcome(
            Call::VerifyModule {
                module: self.module,
                action: LLVMVerifierFailureAction::LLVMReturnStatusAction,
            },
            replies,
            at,
        ) {
            Step::Perform(call) => Step::Perform(call),
            Step::Abort(violation) => Step::Abort(violation),
            Step::Finished(outcome) => {
                if outcome.code == 1 && outcome.message != 0 {
                    Step::Finished(Err(LLVMString::new(outcome.message)))
                } else {
                    Step::Finished(Ok(()))
                }
            },
        }
    }

    /// Checks that the unit is valid. LLVM's message comes back when it is
    /// not.
    pub fn verify(&self, replies: &Vec<Reply>) -> (step: Step<'static, Result<(), LLVMString>>)
        ensures
            step == self@.verify(replies@),
    {
        self.verify_at(replies, 0)
    }

    fn clone_at(&self, replies: &Vec<Reply>, at: usize) -> (step: Step<'static, Module>)
        requires
            at <= replies@.len(),
        ensures
            step.map(|unit: Module| unit@) == self@.clone(answers_from(replies@, at)),
    {
        let ghost rest = answers_from(replies@, at);
        let received = replies.len();
        match self.verify_at(replies, at) {
            Step::Perform(call) => Step::Perform(call),
            Step::Abort(violation) => Step::Abort(violation),
            Step::Finished(Err(message)) => Step::Abort(Violation::InvalidModule(message)),
            Step::Finished(Ok(_)) => {
                assert(rest.len() >= 1 && at < received);
                assert(replies@.skip(at + 1) =~= rest.skip(1));
                match take_handle(Call::CloneModule { module: self.module }, replies, at + 1) {
                    Step::Perform(call) => Step::Perform(call),
                    Step::Abort(violation) => Step::Abort(violation),
                    Step::Finished(module) => {
                        assert(rest.len() >= 2 && at + 1 < received);
                        assert(replies@.skip(at + 2) =~= rest.skip(2));
                        Self::new_at(module, self.non_global_context.as_ref(), replies, at + 2)
                    },
                }
            },
        }
    }

    /// Makes a second unit with the same content, in the same context. The
    /// two share nothing: each has a native module of its own to dispose
    /// of.
    pub fn clone(&self, replies: &Vec<Reply>) -> (step: Step<'static, Module>)
        ensures
            step.map(|unit: Module| unit@) == self@.clone(replies@),
    {
        self.clone_at(replies, 0)
    }

    fn hand_to(&mut self, outcome: Outcome, jit_mode: bool) -> (made: Result<
        ExecutionEngine,
        LLVMString,
    >)
        ensures
            made == ModuleView::engine_made(outcome, jit_mode),
            final(self)@ == old(self)@.after_engine(Step::Finished(made)),
    {
        if outcome.code == 1 {
            return Err(LLVMString::new(outcome.message));
        }
        let engine = ExecutionEngine::new(Rc::new(outcome.handle), jit_mode);
        proof {
            use_type_invariant(&*self);
        }
        self.owned_by_ee = Some(engine.clone());
        Ok(engine)
    }

    /// Makes an execution engine from the unit. From then on the engine
    /// owns the native module, and the unit is one more holder of the
    /// engine.
    pub fn create_execution_engine(&mut self, replies: &Vec<Reply>) -> (step: Step<
        'static,
        Result<ExecutionEngine, LLVMString>,
    >)
        ensures
            step == old(self)@.create_execution_engine(replies@),
            final(self)@ == old(self)@.after_engine(step),
    {
        match take_outcome(
            Call::CreateExecutionEngineForModule { module: self.module },
            replies,
            0,
        ) {
            Step::Perform(call) => Step::Perform(call),
            Step::Abort(violation) => Step::Abort(violation),
            Step::Finished(outcome) => Step::Finished(self.hand_to(outcome, false)),
        }
    }

    /// Makes an interpreter from the unit. From then on the interpreter
    /// owns the native module, and the unit is one more holder of the
    /// interpreter.
    pub fn create_interpreter_execution_engine(&mut self, replies: &Vec<Reply>) -> (step: Step<
        'static,
        Result<ExecutionEngine, LLVMString>,
    >)
        ensures
            step == old(self)@.create_interpreter_execution_engine(replies@),
            final(self)@ == old(self)@.after_engine(step),
    {
        match take_outcome(Call::CreateInterpreterForModule { module: self.module }, replies, 0) {
            Step::Perform(call) => Step::Perform(call),
            Step::Abort(violation) => Step::Abort(violation),
            Step::Finished(outcome) => Step::Finished(self.hand_to(outcome, false)),
        }
    }

    /// Makes a just-in-time engine from the unit. From then on the engine
    /// owns the native module, and the unit is one more holder of the
    /// engine. When LLVM cannot make the engine, the unit comes back around
    /// a clone of its native module, which is the unit's alone whatever
    /// LLVM did with the first.
    pub fn create_jit_execution_engine(
        &mut self,
        opt_level: OptimizationLevel,
        replies: &Vec<Reply>,
    ) -> (step: Step<'static, Result<ExecutionEngine, LLVMString>>)
        ensures
            step == old(self)@.create_jit_execution_engine(opt_level, replies@),
            final(self)@ == old(self)@.after_jit(replies@),
    {
        let call = Call::CreateJITCompilerForModule {
            module: self.module,
            opt_level: opt_level.code(),
        };
        match take_outcome(call, replies, 0) {
            Step::Perform(call) => Step::Perform(call),
            Step::Abort(violation) => Step::Abort(violation),
            Step::Finished(outcome) => {
                if outcome.code != 1 {
                    return Step::Finished(self.hand_to(outcome, true));
                }
                match self.clone_at(replies, 1) {
                    Step::Perform(call) => Step::Perform(call),
                    Step::Abort(violation) => Step::Abort(violation),
                    Step::Finished(fresh) => {
                        let mut other = fresh;
                        proof {
                            use_type_invariant(&other);
                        }
                        core::mem::swap(self, &mut other);
                        let Module { non_global_context, owned_by_ee, .. } = other;
                        self.non_global_context = non_global_context;
                        self.owned_by_ee = owned_by_ee;
                        Step::Finished(Err(LLVMString::new(outcome.message)))
                    },
                }
            },
        }
    }

    /// Makes a unit named `name` in the global context.
    pub fn create<'a>(name: &'a str, replies: &Vec<Reply>) -> (step: Step<'a, Module>)
        ensures
            step.map(|unit: Module| unit@) == ModuleView::create(name, replies@),
    {
        if has_interior_nul(name) {
            return Step::Abort(Violation::InteriorNul);
        }
        match take_handle(Call::ModuleCreateWithName { name }, replies, 0) {
            Step::Perform(call) => Step::Perform(call),
            Step::Abort(violation) => Step::Abort(violation),
            Step::Finished(module) => match Self::new_at(module, None, replies, 1) {
                Step::Perform(call) => Step::Perform(call),
                Step::Abort(violation) => Step::Abort(violation),
                Step::Finished(unit) => Step::Finished(unit),
            },
        }
    }

    /// Makes a unit named `name` in `context`. The unit becomes one more
    /// holder of `context`, which therefore outlives it.
    pub fn create_in_context<'a>(name: &'a str, context: &Context, replies: &Vec<Reply>) -> (step:
        Step<'a, Module>)
        ensures
            step.map(|unit: Module| unit@) == ModuleView::create_in_context(
                name,
                *context,
                replies@,
            ),
    {
        if has_interior_nul(name) {
            return Step::Abort(Violation::InteriorNul);
        }
        let call = Call::ModuleCreateWithNameInContext { name, context: context.as_ptr() };
        match take_handle(call, replies, 0) {
            Step::Perform(call) => Step::Perform(call),
            Step::Abort(violation) => Step::Abort(violation),
            Step::Finished(module) => match Self::new_at(module, Some(context), replies, 1) {
                Step::Perform(call) => Step::Perform(call),
                Step::Abort(violation) => Step::Abort(violation),
                Step::Finished(unit) => Step::Finished(unit),
            },
        }
    }

    /// Adds a function named `name` of type `ty` to the unit and returns
    /// it. Without a `linkage` the function is visible outside the unit,
    /// which is what LLVM makes of a new function.
    pub fn add_function<'a>(
        &self,
        name: &'a str,
        ty: &FunctionType,
        linkage: Option<Linkage>,
        replies: &Vec<Reply>,
    ) -> (step: Step<'a, FunctionValue>)
        ensures
            step == self@.add_function(name, *ty, linkage, replies@),
    {
        if has_interior_nul(name) {
            return Step::Abort(Violation::InteriorNul);
        }
        let call = Call::AddFunction { module: self.module, name, ty: ty.as_type_ref() };
        match take_handle(call, replies, 0) {
            Step::Perform(call) => Step::Perform(call),
            Step::Abort(violation) => Step::Abort(violation),
            Step::Finished(value) => match FunctionValue::new(value) {
                None => Step::Abort(Violation::NullHandle),
                Some(function) => match linkage {
                    None => Step::Finished(function),
                    Some(linkage) => {
                        let set = Call::SetLinkage {
                            value: function.fn_value,
                            linkage: linkage.as_llvm_linkage(),
                        };
                        match take_unit(set, replies, 1) {
                            Step::Perform(call) => Step::Perform(call),
                            Step::Abort(violation) => Step::Abort(violation),
                            Step::Finished(_) => Step::Finished(function),
                        }
                    },
                },
            },
        }
    }

    /// The context that the unit was made in, as a view.
    pub fn get_context(&self, replies: &Vec<Reply>) -> (step: Step<'static, ContextRef>)
        ensures
            step == self@.get_context(replies@),
    {
        match take_handle(Call::GetModuleContext { module: self.module }, replies, 0) {
            Step::Perform(call) => Step::Perform(call),
            Step::Abort(violation) => Step::Abort(violation),
            Step::Finished(context) => Step::Finished(
                ContextRef::new(Context::new(Rc::new(context))),
            ),
        }
    }

    /// The first function of the unit, if it has any.
    pub fn get_first_function(&self, replies: &Vec<Reply>) -> (step: Step<
        'static,
        Option<FunctionValue>,
    >)
        ensures
            step == self@.get_first_function(replies@),
    {
        match take_handle(Call::GetFirstFunction { module: self.module }, replies, 0) {
            Step::Perform(call) => Step::Perform(call),
            Step::Abort(violation) => Step::Abort(violation),
            Step::Finished(value) => Step::Finished(FunctionValue::new(value)),
        }
    }

    /// The last function of the unit, if it has any.
    pub fn get_last_function(&self, replies: &Vec<Reply>) -> (step: Step<
        'static,
        Option<FunctionValue>,
    >)
        ensures
            step == self@.get_last_function(replies@),
    {
        match take_handle(Call::GetLastFunction { module: self.module }, replies, 0) {
            Step::Perform(call) => Step::Perform(call),
            Step::Abort(violation) => Step::Abort(violation),
            Step::Finished(value) => Step::Finished(FunctionValue::new(value)),
        }
    }

    /// The function named `name`, if the unit has one.
    pub fn get_function<'a>(&self, name: &'a str, replies: &Vec<Reply>) -> (step: Step<
        'a,
        Option<FunctionValue>,
    >)
        ensures
            step == self@.get_function(name, replies@),
    {
        if has_interior_nul(name) {
            return Step::Abort(Violation::InteriorNul);
        }
        match take_handle(Call::GetNamedFunction { module: self.module, name }, replies, 0) {
            Step::Perform(call) => Step::Perform(call),
            Step::Abort(violation) => Step::Abort(violation),
            Step::Finished(value) => Step::Finished(FunctionValue::new(value)),
        }
    }

    /// The type named `name`, if the unit knows one.
    pub fn get_type<'a>(&self, name: &'a str, replies: &Vec<Reply>) -> (step: Step<
        'a,
        Option<BasicType>,
    >)
        ensures
            step == self@.get_type(name, replies@),
    {
        if has_interior_nul(name) {
            return Step::Abort(Violation::InteriorNul);
        }
        match take_handle(Call::GetTypeByName { module: self.module, name }, replies, 0) {
            Step::Perform(call) => Step::Perform(call),
            Step::Abort(violation) => Step::Abort(violation),
            Step::Finished(ty) => Step::Finished(BasicType::new(ty)),
        }
    }

    /// Sets the target of the unit.
    pub fn set_target(&self, target: &Target, replies: &Vec<Reply>) -> (step: Step<'static, ()>)
        ensures
            step == self@.set_target(*target, replies@),
    {
        match take_handle(Call::GetTargetName { target: target.as_target_ref() }, replies, 0) {
            Step::Perform(call) => Step::Perform(call),
            Step::Abort(violation) => Step::Abort(violation),
            Step::Finished(name) => take_unit(
                Call::SetTarget { module: self.module, triple: name },
                replies,
                1,
            ),
        }
    }

    /// The target of the unit, if it has one that LLVM knows.
    pub fn get_target(&self, replies: &Vec<Reply>) -> (step: Step<'static, Option<Target>>)
        ensures
            step == self@.get_target(replies@),
    {
        match take_handle(Call::GetTarget { module: self.module }, replies, 0) {
            Step::Perform(call) => Step::Perform(call),
            Step::Abort(violation) => Step::Abort(violation),
            Step::Finished(name) => match take_handle(
                Call::GetTargetFromName { name },
                replies,
                1,
            ) {
                Step::Perform(call) => Step::Perform(call),
                Step::Abort(violation) => Step::Abort(violation),
                Step::Finished(target) => Step::Finished(Target::new(target)),
            },
        }
    }

    /// Adds a global named `name` of type `ty` to the unit, in
    /// `address_space` if one is given, and returns it.
    pub fn add_global<'a>(
        &self,
        ty: BasicType,
        address_space: Option<AddressSpace>,
        name: &'a str,
        replies: &Vec<Reply>,
    ) -> (step: Step<'a, GlobalValue>)
        ensures
            step == self@.add_global(ty, address_space, name, replies@),
    {
        if has_interior_nul(name) {
            return Step::Abort(Violation::InteriorNul);
        }
        let call = match address_space {
            Some(address_space) => Call::AddGlobalInAddressSpace {
                module: self.module,
                ty: ty.as_type_ref(),
                name,
                address_space: address_space.code(),
            },
            None => Call::AddGlobal { module: self.module, ty: ty.as_type_ref(), name },
        };
        match take_handle(call, replies, 0) {
            Step::Perform(call) => Step::Perform(call),
            Step::Abort(violation) => Step::Abort(violation),
            Step::Finished(value) => match GlobalValue::new(value) {
                None => Step::Abort(Violation::NullHandle),
                Some(global) => Step::Finished(global),
            },
        }
    }

    /// The first global of the unit, if it has any.
    pub fn get_first_global(&self, replies: &Vec<Reply>) -> (step: Step<
        'static,
        Option<GlobalValue>,
    >)
        ensures
            step == self@.get_first_global(replies@),
    {
        match take_handle(Call::GetFirstGlobal { module: self.module }, replies, 0) {
            Step::Perform(call) => Step::Perform(call),
            Step::Abort(violation) => Step::Abort(violation),
            Step::Finished(value) => Step::Finished(GlobalValue::new(value)),
        }
    }

    /// The last global of the unit, if it has any.
    pub fn get_last_global(&self, replies: &Vec<Reply>) -> (step: Step<
        'static,
        Option<GlobalValue>,
    >)
        ensures
            step == self@.get_last_global(replies@),
    {
        match take_handle(Call::GetLastGlobal { module: self.module }, replies, 0) {
            Step::Perform(call) => Step::Perform(call),
            Step::Abort(violation) => Step::Abort(violation),
            Step::Finished(value) => Step::Finished(GlobalValue::new(value)),
        }
    }

    /// The global named `name`, if the unit has one.
    pub fn get_global<'a>(&self, name: &'a str, replies: &Vec<Reply>) -> (step: Step<
        'a,
        Option<GlobalValue>,
    >)
        ensures
            step == self@.get_global(name, replies@),
    {
        if has_interior_nul(name) {
            return Step::Abort(Violation::InteriorNul);
        }
        match take_handle(Call::GetNamedGlobal { module: self.module, name }, replies, 0) {
            Step::Perform(call) => Step::Perform(call),
            Step::Abort(violation) => Step::Abort(violation),
            Step::Finished(value) => Step::Finished(GlobalValue::new(value)),
        }
    }

    /// Writes the unit as bitcode to the file at `path`; says whether that
    /// went well.
    pub fn write_bitcode_to_path<'a>(&self, path: &'a str, replies: &Vec<Reply>) -> (step: Step<
        'a,
        bool,
    >)
        ensures
            step == self@.write_bitcode_to_path(path, replies@),
    {
        if has_interior_nul(path) {
            return Step::Abort(Violation::InteriorNul);
        }
        match take_status(Call::WriteBitcodeToFile { module: self.module, path }, replies, 0) {
            Step::Perform(call) => Step::Perform(call),
            Step::Abort(violation) => Step::Abort(violation),
            Step::Finished(code) => Step::Finished(code == 0),
        }
    }

    /// Writes the unit as bitcode to the open file with descriptor `fd`;
    /// says whether that went well.
    pub fn write_bitcode_to_file(
        &self,
        fd: i32,
        should_close: bool,
        unbuffered: bool,
        replies: &Vec<Reply>,
    ) -> (step: Step<'static, bool>)
        ensures
            step == self@.write_bitcode_to_file(fd, should_close, unbuffered, replies@),
    {
        let call = Call::WriteBitcodeToFD {
            module: self.module,
            fd,
            should_close: if should_close {
                1
            } else {
                0
            },
            unbuffered: if unbuffered {
                1
            } else {
                0
            },
        };
        match take_status(call, replies, 0) {
            Step::Perform(call) => Step::Perform(call),
            Step::Abort(violation) => Step::Abort(violation),
            Step::Finished(code) => Step::Finished(code == 0),
        }
    }

    /// Writes the unit as bitcode to a new buffer, which is the caller's.
    pub fn write_bitcode_to_memory(&self, replies: &Vec<Reply>) -> (step: Step<
        'static,
        MemoryBuffer,
    >)
        ensures
            step == self@.write_bitcode_to_memory(replies@),
    {
        match take_handle(Call::WriteBitcodeToMemoryBuffer { module: self.module }, replies, 0) {
            Step::Perform(call) => Step::Perform(call),
            Step::Abort(violation) => Step::Abort(violation),
            Step::Finished(buffer) => match MemoryBuffer::new(buffer) {
                None => Step::Abort(Violation::NullHandle),
                Some(buffer) => Step::Finished(buffer),
            },
        }
    }

    /// Asks LLVM where the data layout string of the native module
    /// `module` lies.
    pub fn get_borrowed_data_layout(module: usize, replies: &Vec<Reply>) -> (step: Step<
        'static,
        DataLayout,
    >)
        ensures
            step == ask_handle(Call::GetDataLayoutStr { module }, replies@).map(
                |layout: usize| DataLayout { ptr: layout, parent: Some(module) },
            ),
    {
        match take_handle(Call::GetDataLayoutStr { module }, replies, 0) {
            Step::Perform(call) => Step::Perform(call),
            Step::Abort(violation) => Step::Abort(violation),
            Step::Finished(layout) => Step::Finished(DataLayout::new_borrowed(layout, module)),
        }
    }

    /// The data layout of the unit: a view into the unit, and the one that
    /// LLVM gave when the unit was made or its layout last set. It cannot
    /// be kept beyond the next change of the unit.
    pub fn get_data_layout(&self) -> (layout: &DataLayout)
        ensures
            *layout == self@.data_layout,
            layout.parent == Some(self@.module),
    {
        proof {
            use_type_invariant(self);
        }
        &self.data_layout
    }

    /// Sets the data layout of the unit to `data_layout`. When this is
    /// done, the unit holds the string that LLVM has for it now, and the
    /// one it held before is gone.
    pub fn set_data_layout(&mut self, data_layout: &DataLayout, replies: &Vec<Reply>) -> (step:
        Step<'static, ()>)
        ensures
            step == old(self)@.set_data_layout(*data_layout, replies@),
            final(self)@ == old(self)@.after_layout(replies@),
    {
        let set = Call::SetDataLayout { module: self.module, layout: data_layout.as_ptr() };
        match take_unit(set, replies, 0) {
            Step::Perform(call) => Step::Perform(call),
            Step::Abort(violation) => Step::Abort(violation),
            Step::Finished(_) => match take_handle(
                Call::GetDataLayoutStr { module: self.module },
                replies,
                1,
            ) {
                Step::Perform(call) => Step::Perform(call),
                Step::Abort(violation) => Step::Abort(violation),
                Step::Finished(layout) => {
                    proof {
                        use_type_invariant(&*self);
                    }
                    self.data_layout = DataLayout::new_borrowed(layout, self.module);
                    Step::Finished(())
                },
            },
        }
    }

    /// Prints the unit to standard error.
    pub fn print_to_stderr(&self, replies: &Vec<Reply>) -> (step: Step<'static, ()>)
        ensures
            step == self@.print_to_stderr(replies@),
    {
        take_unit(Call::DumpModule { module: self.module }, replies, 0)
    }

    /// Prints the unit to a string, which is the caller's.
    pub fn print_to_string(&self, replies: &Vec<Reply>) -> (step: Step<'static, LLVMString>)
        ensures
            step == self@.print_to_string(replies@),
    {
        match take_handle(Call::PrintModuleToString { module: self.module }, replies, 0) {
            Step::Perform(call) => Step::Perform(call),
            Step::Abort(violation) => Step::Abort(violation),
            Step::Finished(text) => Step::Finished(LLVMString::new(text)),
        }
    }

    /// Prints the unit to the file at `path`. LLVM's message comes back
    /// when it cannot.
    pub fn print_to_file<'a>(&self, path: &'a str, replies: &Vec<Reply>) -> (step: Step<
        'a,
        Result<(), LLVMString>,
    >)
        ensures
            step == self@.print_to_file(path, replies@),
    {
        if has_interior_nul(path) {
            return Step::Abort(Violation::InteriorNul);
        }
        match take_outcome(Call::PrintModuleToFile { module: self.module, path }, replies, 0) {
            Step::Perform(call) => Step::Perform(call),
            Step::Abort(violation) => Step::Abort(violation),
            Step::Finished(outcome) => {
                if outcome.code == 1 {
                    Step::Finished(Err(LLVMString::new(outcome.message)))
                } else {
                    Step::Finished(Ok(()))
                }
            },
        }
    }

    /// Sets the inline assembly of the unit.
    pub fn set_inline_assembly<'a>(&self, assembly: &'a str, replies: &Vec<Reply>) -> (step: Step<
        'a,
        (),
    >)
        ensures
            step == self@.set_inline_assembly(assembly, replies@),
    {
        if has_interior_nul(assembly) {
            return Step::Abort(Violation::InteriorNul);
        }
        take_unit(Call::SetModuleInlineAsm { module: self.module, assembly }, replies, 0)
    }

    /// Appends `metadata` to the unit's list of metadata named `key`.
    pub fn add_global_metadata<'a>(
        &self,
        key: &'a str,
        metadata: &MetadataValue,
        replies: &Vec<Reply>,
    ) -> (step: Step<'a, ()>)
        ensures
            step == self@.add_global_metadata(key, *metadata, replies@),
    {
        if has_interior_nul(key) {
            return Step::Abort(Violation::InteriorNul);
        }
        let call = Call::AddNamedMetadataOperand {
            module: self.module,
            key,
            value: metadata.as_value_ref(),
        };
        take_unit(call, replies, 0)
    }

    /// The length of the unit's list of metadata named `key`.
    pub fn get_global_metadata_size<'a>(&self, key: &'a str, replies: &Vec<Reply>) -> (step: Step<
        'a,
        u32,
    >)
        ensures
            step == self@.get_global_metadata_size(key, replies@),
    {
        if has_interior_nul(key) {
            return Step::Abort(Violation::InteriorNul);
        }
        take_count(Call::GetNamedMetadataNumOperands { module: self.module, key }, replies, 0)
    }

    /// Wraps each of `handles`, in order; none if one of them is null.
    pub fn wrap_metadata(handles: &Vec<usize>) -> (views: Option<Vec<MetadataValue>>)
        ensures
            match views {
                Some(views) => ModuleView::metadata_views(handles@) == Some(views@),
                None => ModuleView::metadata_views(handles@) is None,
            },
    {
        let mut views: Vec<MetadataValue> = Vec::new();
        let mut i: usize = 0;
        while i < handles.len()
            invariant
                i <= handles@.len(),
                views@.len() == i,
                forall|j: int|
                    0 <= j < i ==> handles@[j] != 0 && views@[j] == (MetadataValue {
                        metadata_value: handles@[j],
                    }),
            decreases handles@.len() - i,
        {
            match MetadataValue::new(handles[i]) {
                None => {
                    assert(handles@.contains(0usize));
                    return None;
                },
                Some(view) => views.push(view),
            }
            i += 1;
        }
        assert(views@ =~= handles@.map_values(
            |value: usize| MetadataValue { metadata_value: value },
        ));
        Some(views)
    }

    /// The unit's list of metadata named `key`, in the order in which LLVM
    /// gives the items.
    pub fn get_global_metadata<'a>(&self, key: &'a str, replies: &Vec<Reply>) -> (step: Step<
        'a,
        Vec<MetadataValue>,
    >)
        ensures
            step.map(|views: Vec<MetadataValue>| views@) == self@.get_global_metadata(
                key,
                replies@,
            ),
    {
        if has_interior_nul(key) {
            return Step::Abort(Violation::InteriorNul);
        }
        let size = Call::GetNamedMetadataNumOperands { module: self.module, key };
        match take_count(size, replies, 0) {
            Step::Perform(call) => Step::Perform(call),
            Step::Abort(violation) => Step::Abort(violation),
            Step::Finished(count) => {
                let read = Call::GetNamedMetadataOperands { module: self.module, key, count };
                match take_handles(read, count, replies, 1) {
                    Step::Perform(call) => Step::Perform(call),
                    Step::Abort(violation) => Step::Abort(violation),
                    Step::Finished(handles) => match Self::wrap_metadata(handles) {
                        None => Step::Abort(Violation::NullHandle),
                        Some(views) => Step::Finished(views),
                    },
                }
            },
        }
    }

    /// What a parse came to, with the unit seen as what it holds.
    pub open spec fn viewed(parsed: Result<Module, LLVMString>) -> Result<ModuleView, LLVMString> {
        match parsed {
            Ok(unit) => Ok(unit@),
            Err(message) => Err(message),
        }
    }

    fn parse_at(
        call: Call<'static>,
        context: Option<&Context>,
        replies: &Vec<Reply>,
        at: usize,
    ) -> (step: Step<'static, Result<Module, LLVMString>>)
        requires
            at <= replies@.len(),
        ensures
            step.map(|parsed: Result<Module, LLVMString>| Self::viewed(parsed)) == ask_outcome(
                call,
                answers_from(replies@, at),
            ).and_then(
                |outcome: Outcome|
                    ModuleView::parsed(
                        outcome,
                        match context {
                            Some(held) => Some(*held),
                            None => None,
                        },
                        answers_from(replies@, at).skip(1),
                    ),
            ),
            step is Finished ==> at + ModuleView::parse_length(answers_from(replies@, at))
                <= replies@.len(),
            step matches Step::Finished(parsed) ==> (parsed is Ok <==> ModuleView::parse_length(
                answers_from(replies@, at),
            ) == 2),
    {
        let ghost rest = answers_from(replies@, at);
        let received = replies.len();
        match take_outcome(call, replies, at) {
            Step::Perform(call) => Step::Perform(call),
            Step::Abort(violation) => Step::Abort(violation),
            Step::Finished(outcome) => {
                assert(rest.len() >= 1 && at < received);
                if outcome.code != 0 {
                    return Step::Finished(Err(LLVMString::new(outcome.message)));
                }
                assert(replies@.skip(at + 1) =~= rest.skip(1));
                match Self::new_at(outcome.handle, context, replies, at + 1) {
                    Step::Perform(call) => Step::Perform(call),
                    Step::Abort(violation) => Step::Abort(violation),
                    Step::Finished(unit) => {
                        assert(rest.len() >= 2);
                        Step::Finished(Ok(unit))
                    },
                }
            },
        }
    }

    /// Makes a unit of the global context from the bitcode in `buffer`.
    /// LLVM's message comes back when it cannot read the bitcode.
    pub fn parse_bitcode_from_buffer(buffer: &MemoryBuffer, replies: &Vec<Reply>) -> (step: Step<
        'static,
        Result<Module, LLVMString>,
    >)
        ensures
            step.map(|parsed: Result<Module, LLVMString>| Self::viewed(parsed))
                == ModuleView::parse_bitcode_from_buffer(*buffer, replies@),
    {
        Self::parse_at(Call::ParseBitcode { buffer: buffer.as_ptr() }, None, replies, 0)
    }

    /// Makes a unit of `context` from the bitcode in `buffer`. The unit
    /// becomes one more holder of `context`. LLVM's message comes back
    /// when it cannot read the bitcode.
    pub fn parse_bitcode_from_buffer_in_context(
        buffer: &MemoryBuffer,
        context: &Context,
        replies: &Vec<Reply>,
    ) -> (step: Step<'static, Result<Module, LLVMString>>)
        ensures
            step.map(|parsed: Result<Module, LLVMString>| Self::viewed(parsed))
                == ModuleView::parse_bitcode_from_buffer_in_context(*buffer, *context, replies@),
    {
        let call = Call::ParseBitcodeInContext {
            context: context.as_ptr(),
            buffer: buffer.as_ptr(),
        };
        Self::parse_at(call, Some(context), replies, 0)
    }

    fn parse_file<'a>(
        path: &'a str,
        context: Option<&Context>,
        replies: &Vec<Reply>,
    ) -> (step: Step<'a, Result<Module, LLVMString>>)
        ensures
            step.map(|parsed: Result<Module, LLVMString>| Self::viewed(parsed)) == (match context {
                Some(held) => ModuleView::parse_bitcode_from_path_in_context(
                    path,
                    *held,
                    replies@,
                ),
                None => ModuleView::parse_bitcode_from_path(path, replies@),
            }),
    {
        match MemoryBuffer::create_from_file(path, replies) {
            Step::Perform(call) => Step::Perform(call),
            Step::Abort(violation) => Step::Abort(violation),
            Step::Finished(Err(message)) => Step::Finished(Err(message)),
            Step::Finished(Ok(buffer)) => {
                assert(replies@.len() >= 1);
                let call = match context {
                    Some(held) => Call::ParseBitcodeInContext {
                        context: held.as_ptr(),
                        buffer: buffer.as_ptr(),
                    },
                    None => Call::ParseBitcode { buffer: buffer.as_ptr() },
                };
                match Self::parse_at(call, context, replies, 1) {
                    Step::Perform(call) => Step::Perform(call),
                    Step::Abort(violation) => Step::Abort(violation),
                    Step::Finished(parsed) => {
                        let used: usize = if parsed.is_ok() {
                            2
                        } else {
                            1
                        };
                        match take_unit(buffer.release(), replies, 1 + used) {
                            Step::Perform(call) => Step::Perform(call),
                            Step::Abort(violation) => Step::Abort(violation),
                            Step::Finished(_) => Step::Finished(parsed),
                        }
                    },
                }
            },
        }
    }

    /// Makes a unit of the global context from the bitcode file at `path`.
    /// LLVM's message comes back when it cannot read the file or the
    /// bitcode.
    pub fn parse_bitcode_from_path<'a>(path: &'a str, replies: &Vec<Reply>) -> (step: Step<
        'a,
        Result<Module, LLVMString>,
    >)
        ensures
            step.map(|parsed: Result<Module, LLVMString>| Self::viewed(parsed))
                == ModuleView::parse_bitcode_from_path(path, replies@),
    {
        Self::parse_file(path, None, replies)
    }

    /// Makes a unit of `context` from the bitcode file at `path`. The unit
    /// becomes one more holder of `context`. LLVM's message comes back
    /// when it cannot read the file or the bitcode.
    pub fn parse_bitcode_from_path_in_context<'a>(
        path: &'a str,
        context: &Context,
        replies: &Vec<Reply>,
    ) -> (step: Step<'a, Result<Module, LLVMString>>)
        ensures
            step.map(|parsed: Result<Module, LLVMString>| Self::viewed(parsed))
                == ModuleView::parse_bitcode_from_path_in_context(path, *context, replies@),
    {
        Self::parse_file(path, Some(context), replies)
    }

    /// Whether an execution engine owns the native module.
    pub fn is_owned_by_engine(&self) -> (owned: bool)
        ensures
            owned == (self@.owned_by_ee is Some),
    {
        self.owned_by_ee.is_some()
    }

    /// Gives the unit up, and says which calls are due, in their order.
    ///
    /// The disposal of the native module is due, first of all, if no
    /// execution engine owns it, and is not among the calls else. The unit
    /// lets go of its engine and of its context; where it was the last
    /// holder of one, the disposal of that one is due too.
    pub fn dispose(self) -> (calls: Vec<Call<'static>>)
        ensures
            exists|engine_last: bool, context_last: bool|
                calls@ == self@.disposal(engine_last, context_last),
    {
        let ghost unit = self@;
        let Module { non_global_context, owned_by_ee, module, .. } = self;
        let mut calls: Vec<Call<'static>> = Vec::new();
        let ghost mut engine_last = false;
        let ghost mut context_last = false;
        match owned_by_ee {
            None => calls.push(Call::DisposeModule { module }),
            Some(engine) => match engine.release() {
                Some(call) => {
                    proof {
                        engine_last = true;
                    }
                    calls.push(call);
                },
                None => {},
            },
        }
        match non_global_context {
            Some(context) => match context.release() {
                Some(call) => {
                    proof {
                        context_last = true;
                    }
                    calls.push(call);
                },
                None => {},
            },
            None => {},
        }
        assert(calls@ =~= unit.disposal(engine_last, context_last));
        calls
    }
}

} // verus!
