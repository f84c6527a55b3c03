//! What a unit holds, and how each operation on a unit proceeds: which call
//! it asks for after which answers, and what it comes to.

use crate::context::{Context, ContextRef};
use crate::data_layout::DataLayout;
use crate::execution_engine::ExecutionEngine;
use crate::linkage::Linkage;
use crate::memory_buffer::MemoryBuffer;
use crate::native::{
    ask_count, ask_handle, ask_handles, ask_outcome, ask_status, ask_unit, Call, Outcome, Reply,
    Step, Violation,
};
use crate::support::{interior_nul, LLVMString};
use crate::targets::Target;
use crate::types::{BasicType, FunctionType};
use crate::values::{FunctionValue, GlobalValue, MetadataValue};
use crate::{AddressSpace, OptimizationLevel};
use llvm_sys::analysis::LLVMVerifierFailureAction;
use std::rc::Rc;
use vstd::prelude::*;

verus! {

/// What a `Module` holds.
pub struct ModuleView {
    /// The context that the unit was made in and keeps alive; nothing for
    /// the global context, which lives as long as the process.
    pub non_global_context: Option<Context>,
    /// The unit's data layout string, as LLVM last gave it.
    pub data_layout: DataLayout,
    /// The handle of the native module.
    pub module: usize,
    /// The execution engine that owns the native module, once there is one.
    pub owned_by_ee: Option<ExecutionEngine>,
}

/// Who is to dispose of a native module.
pub enum Owner {
    /// The unit itself.
    Unit,
    /// The engine that the unit was handed to.
    Engine(ExecutionEngine),
}

impl ModuleView {
    /// What holds of every unit: its handle is of a native module, and its
    /// data layout is a view into that very module.
    pub open spec fn wf(self) -> bool {
        &&& self.module != 0
        &&& self.data_layout.parent == Some(self.module)
    }

    /// Who is to dispose of the native module: exactly one of the two, at
    /// any time.
    pub open spec fn owner(self) -> Owner {
        match self.owned_by_ee {
            None => Owner::Unit,
            Some(engine) => Owner::Engine(engine),
        }
    }

    /// The unit around the native module `module`, made in `context`, with
    /// its data layout string at `layout`. No engine owns it.
    pub open spec fn fresh(module: usize, context: Option<Context>, layout: usize) -> ModuleView {
        ModuleView {
            non_global_context: context,
            data_layout: DataLayout { ptr: layout, parent: Some(module) },
            module,
            owned_by_ee: None,
        }
    }

    /// How a unit is made around the native module `module`: null is
    /// refused; the data layout string is asked for, so that the unit starts
    /// with a current one.
    pub open spec fn adoption(module: usize, context: Option<Context>, replies: Seq<Reply>) -> Step<
        'static,
        ModuleView,
    > {
        if module == 0 {
            Step::Abort(Violation::NullHandle)
        } else {
            ask_handle(Call::GetDataLayoutStr { module }, replies).map(
                |layout: usize| Self::fresh(module, context, layout),
            )
        }
    }

    /// What the validator said: a failure is its code 1 together with a
    /// message, which is handed on.
    pub open spec fn verdict(outcome: Outcome) -> Result<(), LLVMString> {
        if outcome.code == 1 && outcome.message != 0 {
            Err(LLVMString { ptr: outcome.message })
        } else {
            Ok(())
        }
    }

    /// How validation proceeds: one call, in the mode that reports and
    /// never ends the process.
    pub open spec fn verify(self, replies: Seq<Reply>) -> Step<'static, Result<(), LLVMString>> {
        ask_outcome(
            Call::VerifyModule {
                module: self.module,
                action: LLVMVerifierFailureAction::LLVMReturnStatusAction,
            },
            replies,
        ).map(|outcome: Outcome| Self::verdict(outcome))
    }

    /// How cloning proceeds: the unit is validated first. If it is not
    /// valid the operation stops there, since LLVM may corrupt memory when
    /// it clones such a unit. Else the native module is cloned, and a unit
    /// is made around the clone, in the same context.
    pub open spec fn clone(self, replies: Seq<Reply>) -> Step<'static, ModuleView> {
        self.verify(replies).and_then(
            |verdict: Result<(), LLVMString>|
                match verdict {
                    Err(message) => Step::Abort(Violation::InvalidModule(message)),
                    Ok(_) => ask_handle(
                        Call::CloneModule { module: self.module },
                        replies.skip(1),
                    ).and_then(
                        |module: usize|
                            Self::adoption(module, self.non_global_context, replies.skip(2)),
                    ),
                },
        )
    }

    /// What making an engine came to: LLVM's message when it reported
    /// failure by its code 1, else a first holder of the new engine.
    pub open spec fn engine_made(outcome: Outcome, jit_mode: bool) -> Result<
        ExecutionEngine,
        LLVMString,
    > {
        if outcome.code == 1 {
            Err(LLVMString { ptr: outcome.message })
        } else {
            Ok(ExecutionEngine { execution_engine: Rc::new(outcome.handle), jit_mode })
        }
    }

    /// The unit once `engine` owns its native module.
    pub open spec fn handed_to(self, engine: ExecutionEngine) -> ModuleView {
        ModuleView { owned_by_ee: Some(engine), ..self }
    }

    /// The unit once the native module of `fresh` has taken the place of
    /// its own. The data layout comes with the module that it is a view
    /// into.
    pub open spec fn replaced_by(self, fresh: ModuleView) -> ModuleView {
        ModuleView { module: fresh.module, data_layout: fresh.data_layout, ..self }
    }

    /// How making a plain execution engine proceeds: one call.
    pub open spec fn create_execution_engine(self, replies: Seq<Reply>) -> Step<
        'static,
        Result<ExecutionEngine, LLVMString>,
    > {
        ask_outcome(Call::CreateExecutionEngineForModule { module: self.module }, replies).map(
            |outcome: Outcome| Self::engine_made(outcome, false),
        )
    }

    /// How making an interpreter proceeds: one call.
    pub open spec fn create_interpreter_execution_engine(self, replies: Seq<Reply>) -> Step<
        'static,
        Result<ExecutionEngine, LLVMString>,
    > {
        ask_outcome(Call::CreateInterpreterForModule { module: self.module }, replies).map(
            |outcome: Outcome| Self::engine_made(outcome, false),
        )
    }

    /// The unit after an engine was asked for: handed to the engine if one
    /// was made, else as before.
    pub open spec fn after_engine(
        self,
        step: Step<'static, Result<ExecutionEngine, LLVMString>>,
    ) -> ModuleView {
        match step {
            Step::Finished(Ok(engine)) => self.handed_to(engine),
            _ => self,
        }
    }

    /// How making a just-in-time engine proceeds. When LLVM reports
    /// failure, it may already have taken the native module for its own.
    /// The unit is then cloned, and the failure is reported once the clone
    /// is there to take the module's place.
    pub open spec fn create_jit_execution_engine(
        self,
        opt_level: OptimizationLevel,
        replies: Seq<Reply>,
    ) -> Step<'static, Result<ExecutionEngine, LLVMString>> {
        ask_outcome(
            Call::CreateJITCompilerForModule {
                module: self.module,
                opt_level: opt_level.spec_code(),
            },
            replies,
        ).and_then(
            |outcome: Outcome|
                if outcome.code == 1 {
                    self.clone(replies.skip(1)).map(
                        |fresh: ModuleView| Self::engine_made(outcome, true),
                    )
                } else {
                    Step::Finished(Self::engine_made(outcome, true))
                },
        )
    }

    /// The unit after a just-in-time engine was asked for: handed to the
    /// engine if one was made; around the clone if LLVM reported failure
    /// and the clone was made; else as before.
    pub open spec fn after_jit(self, replies: Seq<Reply>) -> ModuleView {
        if replies.len() > 0 && replies[0] is Outcome {
            if replies[0]->code == 1 {
                match self.clone(replies.skip(1)) {
                    Step::Finished(fresh) => self.replaced_by(fresh),
                    _ => self,
                }
            } else {
                self.handed_to(
                    ExecutionEngine {
                        execution_engine: Rc::new(replies[0]->handle),
                        jit_mode: true,
                    },
                )
            }
        } else {
            self
        }
    }

    /// How making a unit named `name` in the global context proceeds.
    pub open spec fn create<'a>(name: &'a str, replies: Seq<Reply>) -> Step<'a, ModuleView> {
        if interior_nul(name) {
            Step::Abort(Violation::InteriorNul)
        } else {
            ask_handle(Call::ModuleCreateWithName { name }, replies).and_then(
                |module: usize| Self::adoption(module, None, replies.skip(1)),
            )
        }
    }

    /// How making a unit named `name` in `context` proceeds.
    pub open spec fn create_in_context<'a>(
        name: &'a str,
        context: Context,
        replies: Seq<Reply>,
    ) -> Step<'a, ModuleView> {
        if interior_nul(name) {
            Step::Abort(Violation::InteriorNul)
        } else {
            ask_handle(
                Call::ModuleCreateWithNameInContext { name, context: context.raw() },
                replies,
            ).and_then(|module: usize| Self::adoption(module, Some(context), replies.skip(1)))
        }
    }

    /// How adding a function proceeds: the function is added; LLVM never
    /// answers that with null. A linkage, if one is asked for, is then set
    /// on the new function; without one the function keeps the linkage
    /// that LLVM gave it.
    pub open spec fn add_function<'a>(
        self,
        name: &'a str,
        ty: FunctionType,
        linkage: Option<Linkage>,
        replies: Seq<Reply>,
    ) -> Step<'a, FunctionValue> {
        if interior_nul(name) {
            Step::Abort(Violation::InteriorNul)
        } else {
            ask_handle(
                Call::AddFunction { module: self.module, name, ty: ty.fn_type },
                replies,
            ).and_then(
                |value: usize|
                    match FunctionValue::spec_new(value) {
                        None => Step::Abort(Violation::NullHandle),
                        Some(function) => match linkage {
                            None => Step::Finished(function),
                            Some(linkage) => function.linkage_write(linkage, replies.skip(1)).map(
                                |done: ()| function,
                            ),
                        },
                    },
            )
        }
    }

    /// How asking for the unit's context proceeds: one call; the answer is
    /// wrapped as a view.
    pub open spec fn get_context(self, replies: Seq<Reply>) -> Step<'static, ContextRef> {
        ask_handle(Call::GetModuleContext { module: self.module }, replies).map(
            |context: usize| ContextRef { context: Context { context: Rc::new(context) } },
        )
    }

    /// How asking for the first function proceeds.
    pub open spec fn get_first_function(self, replies: Seq<Reply>) -> Step<
        'static,
        Option<FunctionValue>,
    > {
        ask_handle(Call::GetFirstFunction { module: self.module }, replies).map(
            |value: usize| FunctionValue::spec_new(value),
        )
    }

    /// How asking for the last function proceeds.
    pub open spec fn get_last_function(self, replies: Seq<Reply>) -> Step<
        'static,
        Option<FunctionValue>,
    > {
        ask_handle(Call::GetLastFunction { module: self.module }, replies).map(
            |value: usize| FunctionValue::spec_new(value),
        )
    }

    /// How asking for the function named `name` proceeds.
    pub open spec fn get_function<'a>(self, name: &'a str, replies: Seq<Reply>) -> Step<
        'a,
        Option<FunctionValue>,
    > {
        if interior_nul(name) {
            Step::Abort(Violation::InteriorNul)
        } else {
            ask_handle(Call::GetNamedFunction { module: self.module, name }, replies).map(
                |value: usize| FunctionValue::spec_new(value),
            )
        }
    }

    /// How asking for the type named `name` proceeds.
    pub open spec fn get_type<'a>(self, name: &'a str, replies: Seq<Reply>) -> Step<
        'a,
        Option<BasicType>,
    > {
        if interior_nul(name) {
            Step::Abort(Violation::InteriorNul)
        } else {
            ask_handle(Call::GetTypeByName { module: self.module, name }, replies).map(
                |ty: usize| BasicType::spec_new(ty),
            )
        }
    }

    /// How setting the target proceeds: the name of `target` is asked for
    /// and handed on to the unit as it is.
    pub open spec fn set_target(self, target: Target, replies: Seq<Reply>) -> Step<'static, ()> {
        ask_handle(Call::GetTargetName { target: target.target }, replies).and_then(
            |name: usize|
                ask_unit(Call::SetTarget { module: self.module, triple: name }, replies.skip(1)),
        )
    }

    /// How asking for the target proceeds: the unit's target string is
    /// asked for, then the target of that name.
    pub open spec fn get_target(self, replies: Seq<Reply>) -> Step<'static, Option<Target>> {
        ask_handle(Call::GetTarget { module: self.module }, replies).and_then(
            |name: usize|
                ask_handle(Call::GetTargetFromName { name }, replies.skip(1)).map(
                    |target: usize| Target::spec_new(target),
                ),
        )
    }

    /// The call that adds a global: the one with an address space where
    /// one is given.
    pub open spec fn global_addition<'a>(
        self,
        ty: BasicType,
        address_space: Option<AddressSpace>,
        name: &'a str,
    ) -> Call<'a> {
        match address_space {
            Some(address_space) => Call::AddGlobalInAddressSpace {
                module: self.module,
                ty: ty.basic_type,
                name,
                address_space: address_space.spec_code(),
            },
            None => Call::AddGlobal { module: self.module, ty: ty.basic_type, name },
        }
    }

    /// How adding a global proceeds: one call; LLVM never answers it with
    /// null.
    pub open spec fn add_global<'a>(
        self,
        ty: BasicType,
        address_space: Option<AddressSpace>,
        name: &'a str,
        replies: Seq<Reply>,
    ) -> Step<'a, GlobalValue> {
        if interior_nul(name) {
            Step::Abort(Violation::InteriorNul)
        } else {
            ask_handle(self.global_addition(ty, address_space, name), replies).and_then(
                |value: usize|
                    match GlobalValue::spec_new(value) {
                        None => Step::Abort(Violation::NullHandle),
                        Some(global) => Step::Finished(global),
                    },
            )
        }
    }

    /// How asking for the first global proceeds.
    pub open spec fn get_first_global(self, replies: Seq<Reply>) -> Step<
        'static,
        Option<GlobalValue>,
    > {
        ask_handle(Call::GetFirstGlobal { module: self.module }, replies).map(
            |value: usize| GlobalValue::spec_new(value),
        )
    }

    /// How asking for the last global proceeds.
    pub open spec fn get_last_global(self, replies: Seq<Reply>) -> Step<
        'static,
        Option<GlobalValue>,
    > {
        ask_handle(Call::GetLastGlobal { module: self.module }, replies).map(
            |value: usize| GlobalValue::spec_new(value),
        )
    }

    /// How asking for the global named `name` proceeds.
    pub open spec fn get_global<'a>(self, name: &'a str, replies: Seq<Reply>) -> Step<
        'a,
        Option<GlobalValue>,
    > {
        if interior_nul(name) {
            Step::Abort(Violation::InteriorNul)
        } else {
            ask_handle(Call::GetNamedGlobal { module: self.module, name }, replies).map(
                |value: usize| GlobalValue::spec_new(value),
            )
        }
    }

    /// How writing bitcode to the file at `path` proceeds: one call, which
    /// reports success by 0.
    pub open spec fn write_bitcode_to_path<'a>(self, path: &'a str, replies: Seq<Reply>) -> Step<
        'a,
        bool,
    > {
        if interior_nul(path) {
            Step::Abort(Violation::InteriorNul)
        } else {
            ask_status(Call::WriteBitcodeToFile { module: self.module, path }, replies).map(
                |code: i32| code == 0,
            )
        }
    }

    /// The number that stands for a flag in a call.
    pub open spec fn flag(set: bool) -> i32 {
        if set {
            1
        } else {
            0
        }
    }

    /// How writing bitcode to an open file proceeds: one call, which
    /// reports success by 0.
    pub open spec fn write_bitcode_to_file(
        self,
        fd: i32,
        should_close: bool,
        unbuffered: bool,
        replies: Seq<Reply>,
    ) -> Step<'static, bool> {
        ask_status(
            Call::WriteBitcodeToFD {
                module: self.module,
                fd,
                should_close: Self::flag(should_close),
                unbuffered: Self::flag(unbuffered),
            },
            replies,
        ).map(|code: i32| code == 0)
    }

    /// How writing bitcode to memory proceeds: one call; LLVM never answers
    /// it with null.
    pub open spec fn write_bitcode_to_memory(self, replies: Seq<Reply>) -> Step<
        'static,
        MemoryBuffer,
    > {
        ask_handle(Call::WriteBitcodeToMemoryBuffer { module: self.module }, replies).and_then(
            |buffer: usize|
                match MemoryBuffer::spec_new(buffer) {
                    None => Step::Abort(Violation::NullHandle),
                    Some(buffer) => Step::Finished(buffer),
                },
        )
    }

    /// The unit with the data layout string at `layout`.
    pub open spec fn with_layout(self, layout: usize) -> ModuleView {
        ModuleView {
            data_layout: DataLayout { ptr: layout, parent: Some(self.module) },
            ..self
        }
    }

    /// How setting the data layout proceeds: the layout is set, and then
    /// the unit's string is asked for anew, since LLVM may have put it
    /// elsewhere.
    pub open spec fn set_data_layout(self, data_layout: DataLayout, replies: Seq<Reply>) -> Step<
        'static,
        (),
    > {
        ask_unit(
            Call::SetDataLayout { module: self.module, layout: data_layout.ptr },
            replies,
        ).and_then(
            |done: ()|
                ask_handle(Call::GetDataLayoutStr { module: self.module }, replies.skip(1)).map(
                    |layout: usize| (),
                ),
        )
    }

    /// The unit after its data layout was set: with the string that LLVM
    /// gave after the layout was set, once it has given one.
    pub open spec fn after_layout(self, replies: Seq<Reply>) -> ModuleView {
        if replies.len() > 1 && replies[0] is Unit && replies[1] is Handle {
            self.with_layout(replies[1]->Handle_0)
        } else {
            self
        }
    }

    /// How printing to standard error proceeds.
    pub open spec fn print_to_stderr(self, replies: Seq<Reply>) -> Step<'static, ()> {
        ask_unit(Call::DumpModule { module: self.module }, replies)
    }

    /// How printing to a string proceeds: the string is LLVM's, and the
    /// caller's to free.
    pub open spec fn print_to_string(self, replies: Seq<Reply>) -> Step<'static, LLVMString> {
        ask_handle(Call::PrintModuleToString { module: self.module }, replies).map(
            |text: usize| LLVMString { ptr: text },
        )
    }

    /// How printing to the file at `path` proceeds: one call, which
    /// reports failure by its code 1 and a message.
    pub open spec fn print_to_file<'a>(self, path: &'a str, replies: Seq<Reply>) -> Step<
        'a,
        Result<(), LLVMString>,
    > {
        if interior_nul(path) {
            Step::Abort(Violation::InteriorNul)
        } else {
            ask_outcome(Call::PrintModuleToFile { module: self.module, path }, replies).map(
                |outcome: Outcome|
                    if outcome.code == 1 {
                        Err(LLVMString { ptr: outcome.message })
                    } else {
                        Ok(())
                    },
            )
        }
    }

    /// How setting the inline assembly proceeds.
    pub open spec fn set_inline_assembly<'a>(self, assembly: &'a str, replies: Seq<Reply>) -> Step<
        'a,
        (),
    > {
        if interior_nul(assembly) {
            Step::Abort(Violation::InteriorNul)
        } else {
            ask_unit(Call::SetModuleInlineAsm { module: self.module, assembly }, replies)
        }
    }

    /// How appending `metadata` to the list named `key` proceeds.
    pub open spec fn add_global_metadata<'a>(
        self,
        key: &'a str,
        metadata: MetadataValue,
        replies: Seq<Reply>,
    ) -> Step<'a, ()> {
        if interior_nul(key) {
            Step::Abort(Violation::InteriorNul)
        } else {
            ask_unit(
                Call::AddNamedMetadataOperand {
                    module: self.module,
                    key,
                    value: metadata.metadata_value,
                },
                replies,
            )
        }
    }

    /// How asking for the length of the list named `key` proceeds.
    pub open spec fn get_global_metadata_size<'a>(self, key: &'a str, replies: Seq<Reply>) -> Step<
        'a,
        u32,
    > {
        if interior_nul(key) {
            Step::Abort(Violation::InteriorNul)
        } else {
            ask_count(Call::GetNamedMetadataNumOperands { module: self.module, key }, replies)
        }
    }

    /// The views of the metadata at `handles`, in the same order; none if
    /// a handle is null.
    pub open spec fn metadata_views(handles: Seq<usize>) -> Option<Seq<MetadataValue>> {
        if handles.contains(0usize) {
            None
        } else {
            Some(handles.map_values(|value: usize| MetadataValue { metadata_value: value }))
        }
    }

    /// How reading the list named `key` proceeds: its length is asked for
    /// first, and the items are then read into a buffer of that very
    /// length. They come back as many as that, in the order that LLVM
    /// wrote them.
    pub open spec fn get_global_metadata<'a>(self, key: &'a str, replies: Seq<Reply>) -> Step<
        'a,
        Seq<MetadataValue>,
    > {
        self.get_global_metadata_size(key, replies).and_then(
            |count: u32|
                ask_handles(
                    Call::GetNamedMetadataOperands { module: self.module, key, count },
                    count,
                    replies.skip(1),
                ).and_then(
                    |handles: Seq<usize>|
                        match Self::metadata_views(handles) {
                            None => Step::Abort(Violation::NullHandle),
                            Some(views) => Step::Finished(views),
                        },
                ),
        )
    }

    /// How a unit is made of what parsing reported: LLVM's message when
    /// its code is not 0, else a unit around the module that it stored.
    pub open spec fn parsed(
        outcome: Outcome,
        context: Option<Context>,
        replies: Seq<Reply>,
    ) -> Step<'static, Result<ModuleView, LLVMString>> {
        if outcome.code != 0 {
            Step::Finished(Err(LLVMString { ptr: outcome.message }))
        } else {
            Self::adoption(outcome.handle, context, replies).map(
                |unit: ModuleView| Ok::<ModuleView, LLVMString>(unit),
            )
        }
    }

    /// How parsing the bitcode in `buffer` into a unit of the global
    /// context proceeds.
    pub open spec fn parse_bitcode_from_buffer(buffer: MemoryBuffer, replies: Seq<Reply>) -> Step<
        'static,
        Result<ModuleView, LLVMString>,
    > {
        ask_outcome(Call::ParseBitcode { buffer: buffer.memory_buffer }, replies).and_then(
            |outcome: Outcome| Self::parsed(outcome, None, replies.skip(1)),
        )
    }

    /// How parsing the bitcode in `buffer` into a unit of `context`
    /// proceeds.
    pub open spec fn parse_bitcode_from_buffer_in_context(
        buffer: MemoryBuffer,
        context: Context,
        replies: Seq<Reply>,
    ) -> Step<'static, Result<ModuleView, LLVMString>> {
        ask_outcome(
            Call::ParseBitcodeInContext { context: context.raw(), buffer: buffer.memory_buffer },
            replies,
        ).and_then(|outcome: Outcome| Self::parsed(outcome, Some(context), replies.skip(1)))
    }

    /// How many answers a parse takes until it is done: the report, and
    /// the data layout if a unit is made.
    pub open spec fn parse_length(replies: Seq<Reply>) -> int {
        if replies.len() > 0 && replies[0] is Outcome && replies[0]->code == 0 {
            2
        } else {
            1
        }
    }

    /// How a parse from a file ends: the buffer that the file was read
    /// into is handed back to LLVM, whatever the parse came to.
    pub open spec fn then_free<'a>(
        parse: Step<'a, Result<ModuleView, LLVMString>>,
        buffer: MemoryBuffer,
        replies: Seq<Reply>,
    ) -> Step<'a, Result<ModuleView, LLVMString>> {
        parse.and_then(
            |parsed: Result<ModuleView, LLVMString>|
                ask_unit(Call::DisposeMemoryBuffer { buffer: buffer.memory_buffer }, replies).map(
                    |done: ()| parsed,
                ),
        )
    }

    /// How parsing the bitcode file at `path` into a unit of the global
    /// context proceeds: the file is read into a buffer, the buffer is
    /// parsed, and the buffer is freed.
    pub open spec fn parse_bitcode_from_path<'a>(path: &'a str, replies: Seq<Reply>) -> Step<
        'a,
        Result<ModuleView, LLVMString>,
    > {
        MemoryBuffer::file_read(path, replies).and_then(
            |read: Result<MemoryBuffer, LLVMString>|
                match read {
                    Err(message) => Step::Finished(Err(message)),
                    Ok(buffer) => Self::then_free(
                        Self::parse_bitcode_from_buffer(buffer, replies.skip(1)),
                        buffer,
                        replies.skip(1 + Self::parse_length(replies.skip(1))),
                    ),
                },
        )
    }

    /// How parsing the bitcode file at `path` into a unit of `context`
    /// proceeds: the file is read into a buffer, the buffer is parsed, and
    /// the buffer is freed.
    pub open spec fn parse_bitcode_from_path_in_context<'a>(
        path: &'a str,
        context: Context,
        replies: Seq<Reply>,
    ) -> Step<'a, Result<ModuleView, LLVMString>> {
        MemoryBuffer::file_read(path, replies).and_then(
            |read: Result<MemoryBuffer, LLVMString>|
                match read {
                    Err(message) => Step::Finished(Err(message)),
                    Ok(buffer) => Self::then_free(
                        Self::parse_bitcode_from_buffer_in_context(
                            buffer,
                            context,
                            replies.skip(1),
                        ),
                        buffer,
                        replies.skip(1 + Self::parse_length(replies.skip(1))),
                    ),
                },
        )
    }

    /// The calls that are due when the unit goes away, in their order.
    /// The native module is disposed of by the unit if no engine owns it,
    /// and never else. The unit lets go of its engine and of its context;
    /// for each of the two, `engine_last` and `context_last` say whether
    /// the unit was the last holder, who disposes of it.
    pub open spec fn disposal(self, engine_last: bool, context_last: bool) -> Seq<
        Call<'static>,
    > {
        let module = match self.owned_by_ee {
            None => seq![Call::DisposeModule { module: self.module }],
            Some(engine) => if engine_last {
                seq![Call::DisposeExecutionEngine { engine: engine.raw() }]
            } else {
                seq![]
            },
        };
        let context = match self.non_global_context {
            Some(context) if context_last => seq![Call::ContextDispose { context: context.raw() }],
            _ => seq![],
        };
        module + context
    }
}

} // verus!
