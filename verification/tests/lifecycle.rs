//! Whole operations, run against a stand-in for LLVM that keeps books on
//! what it was asked to make and to dispose of.

use inkwell_core::context::Context;
use inkwell_core::data_layout::DataLayout;
use inkwell_core::linkage::Linkage;
use inkwell_core::module::Module;
use inkwell_core::native::{Call, Reply, Step, Violation};
use inkwell_core::support::LLVMString;
use inkwell_core::types::{BasicType, FunctionType};
use inkwell_core::values::MetadataValue;
use inkwell_core::{AddressSpace, OptimizationLevel};
use llvm_sys::LLVMLinkage;

struct FakeGlobal {
    name: String,
    handle: usize,
    linkage: LLVMLinkage,
}

#[derive(Clone)]
struct FakeContent {
    layout: String,
    functions: Vec<(String, usize)>,
    globals: Vec<(String, usize)>,
    metadata: Vec<(String, Vec<usize>)>,
    valid: bool,
}

struct FakeModule {
    handle: usize,
    context: usize,
    layout_at: usize,
    content: FakeContent,
    disposals: usize,
}

/// A stand-in for LLVM.
struct Fake {
    next: usize,
    global_context: usize,
    modules: Vec<FakeModule>,
    values: Vec<FakeGlobal>,
    strings: Vec<(usize, String)>,
    buffers: Vec<(usize, FakeContent)>,
    live_contexts: Vec<usize>,
    live_engines: Vec<(usize, usize)>,
    disposed_contexts: Vec<usize>,
    disposed_engines: Vec<usize>,
    disposed_buffers: Vec<usize>,
    clones: usize,
    engines_fail: bool,
    log: Vec<String>,
}

impl Fake {
    fn new() -> Fake {
        Fake {
            next: 0x1000,
            global_context: 0x10,
            modules: Vec::new(),
            values: Vec::new(),
            strings: Vec::new(),
            buffers: Vec::new(),
            live_contexts: Vec::new(),
            live_engines: Vec::new(),
            disposed_contexts: Vec::new(),
            disposed_engines: Vec::new(),
            disposed_buffers: Vec::new(),
            clones: 0,
            engines_fail: false,
            log: Vec::new(),
        }
    }

    fn fresh(&mut self) -> usize {
        self.next += 0x10;
        self.next
    }

    fn string(&mut self, text: &str) -> usize {
        let at = self.fresh();
        self.strings.push((at, text.to_string()));
        at
    }

    fn text(&self, at: usize) -> String {
        for (address, text) in &self.strings {
            if *address == at {
                return text.clone();
            }
        }
        panic!("no string at {:#x}", at)
    }

    fn module(&mut self, handle: usize) -> &mut FakeModule {
        for module in self.modules.iter_mut() {
            if module.handle == handle {
                assert_eq!(module.disposals, 0, "use of a disposed module");
                return module;
            }
        }
        panic!("no module at {:#x}", handle)
    }

    fn disposals_of(&self, handle: usize) -> usize {
        for module in &self.modules {
            if module.handle == handle {
                return module.disposals;
            }
        }
        panic!("no module at {:#x}", handle)
    }

    fn add_module(&mut self, context: usize, content: FakeContent) -> usize {
        let handle = self.fresh();
        let layout_at = self.string(&content.layout);
        self.modules.push(FakeModule { handle, context, layout_at, content, disposals: 0 });
        handle
    }

    fn empty() -> FakeContent {
        FakeContent {
            layout: String::new(),
            functions: Vec::new(),
            globals: Vec::new(),
            metadata: Vec::new(),
            valid: true,
        }
    }

    fn make_engine(&mut self, module: usize) -> Reply {
        if self.engines_fail {
            let message = self.string("no engine for this target");
            return Reply::Outcome { code: 1, handle: 0, message };
        }
        let engine = self.fresh();
        self.live_engines.push((engine, module));
        Reply::Outcome { code: 0, handle: engine, message: 0 }
    }

    fn named(list: &[(String, usize)], name: &str) -> Reply {
        for (known, handle) in list {
            if known == name {
                return Reply::Handle(*handle);
            }
        }
        Reply::Handle(0)
    }

    fn perform(&mut self, call: &Call) -> Reply {
        self.log.push(format!("{:?}", call));
        match *call {
            Call::ContextCreate => {
                let context = self.fresh();
                self.live_contexts.push(context);
                Reply::Handle(context)
            }
            Call::GetGlobalContext => Reply::Handle(self.global_context),
            Call::ContextDispose { context } => {
                assert!(self.live_contexts.contains(&context), "context disposed of twice");
                for module in &self.modules {
                    assert!(
                        module.context != context || module.disposals > 0,
                        "context disposed of before its module"
                    );
                }
                self.live_contexts.retain(|live| *live != context);
                self.disposed_contexts.push(context);
                Reply::Unit
            }
            Call::ModuleCreateWithName { name: _ } => {
                let context = self.global_context;
                Reply::Handle(self.add_module(context, Fake::empty()))
            }
            Call::ModuleCreateWithNameInContext { name: _, context } => {
                assert!(self.live_contexts.contains(&context));
                Reply::Handle(self.add_module(context, Fake::empty()))
            }
            Call::CloneModule { module } => {
                self.clones += 1;
                let (context, content) = {
                    let source = self.module(module);
                    (source.context, source.content.clone())
                };
                Reply::Handle(self.add_module(context, content))
            }
            Call::DisposeModule { module } => {
                for known in self.modules.iter_mut() {
                    if known.handle == module {
                        known.disposals += 1;
                    }
                }
                Reply::Unit
            }
            Call::GetModuleContext { module } => Reply::Handle(self.module(module).context),
            Call::GetDataLayoutStr { module } => Reply::Handle(self.module(module).layout_at),
            Call::SetDataLayout { module, layout } => {
                let text = self.text(layout);
                let at = self.string(&text);
                let unit = self.module(module);
                unit.content.layout = text;
                unit.layout_at = at;
                Reply::Unit
            }
            Call::AddFunction { module, name, ty: _ } => {
                let handle = self.fresh();
                self.values.push(FakeGlobal {
                    name: name.to_string(),
                    handle,
                    linkage: LLVMLinkage::LLVMExternalLinkage,
                });
                self.module(module).content.functions.push((name.to_string(), handle));
                Reply::Handle(handle)
            }
            Call::GetNamedFunction { module, name } => {
                Fake::named(&self.module(module).content.functions, name)
            }
            Call::GetFirstFunction { module } => {
                Reply::Handle(self.module(module).content.functions.first().map_or(0, |f| f.1))
            }
            Call::GetLastFunction { module } => {
                Reply::Handle(self.module(module).content.functions.last().map_or(0, |f| f.1))
            }
            Call::GetLinkage { value } => {
                for known in &self.values {
                    if known.handle == value {
                        return Reply::Linkage(known.linkage);
                    }
                }
                panic!("no value at {:#x}", value)
            }
            Call::SetLinkage { value, linkage } => {
                for known in self.values.iter_mut() {
                    if known.handle == value {
                        known.linkage = linkage;
                    }
                }
                Reply::Unit
            }
            Call::AddGlobal { module, ty: _, name }
            | Call::AddGlobalInAddressSpace { module, ty: _, name, address_space: _ } => {
                let handle = self.fresh();
                self.values.push(FakeGlobal {
                    name: name.to_string(),
                    handle,
                    linkage: LLVMLinkage::LLVMExternalLinkage,
                });
                self.module(module).content.globals.push((name.to_string(), handle));
                Reply::Handle(handle)
            }
            Call::GetNamedGlobal { module, name } => {
                Fake::named(&self.module(module).content.globals, name)
            }
            Call::GetFirstGlobal { module } => {
                Reply::Handle(self.module(module).content.globals.first().map_or(0, |g| g.1))
            }
            Call::GetLastGlobal { module } => {
                Reply::Handle(self.module(module).content.globals.last().map_or(0, |g| g.1))
            }
            Call::AddNamedMetadataOperand { module, key, value } => {
                let lists = &mut self.module(module).content.metadata;
                match lists.iter_mut().find(|list| list.0 == key) {
                    Some(list) => list.1.push(value),
                    None => lists.push((key.to_string(), vec![value])),
                }
                Reply::Unit
            }
            Call::GetNamedMetadataNumOperands { module, key } => {
                let lists = &self.module(module).content.metadata;
                Reply::Count(lists.iter().find(|list| list.0 == key).map_or(0, |l| l.1.len()) as u32)
            }
            Call::GetNamedMetadataOperands { module, key, count } => {
                let lists = &self.module(module).content.metadata;
                let items = lists.iter().find(|list| list.0 == key).map_or(Vec::new(), |l| l.1.clone());
                assert_eq!(items.len(), count as usize, "buffer of the wrong size");
                Reply::Handles(items)
            }
            Call::VerifyModule { module, action } => {
                assert_eq!(
                    action,
                    llvm_sys::analysis::LLVMVerifierFailureAction::LLVMReturnStatusAction
                );
                if self.module(module).content.valid {
                    Reply::Outcome { code: 0, handle: 0, message: 0 }
                } else {
                    let message = self.string("basic block belongs to another function");
                    Reply::Outcome { code: 1, handle: 0, message }
                }
            }
            Call::WriteBitcodeToMemoryBuffer { module } => {
                let content = self.module(module).content.clone();
                let buffer = self.fresh();
                self.buffers.push((buffer, content));
                Reply::Handle(buffer)
            }
            Call::ParseBitcode { buffer } | Call::ParseBitcodeInContext { buffer, .. } => {
                let context = match *call {
                    Call::ParseBitcodeInContext { context, .. } => context,
                    _ => self.global_context,
                };
                let content = self.buffers.iter().find(|known| known.0 == buffer).map(|b| b.1.clone());
                match content {
                    Some(content) => {
                        let module = self.add_module(context, content);
                        Reply::Outcome { code: 0, handle: module, message: 0 }
                    }
                    None => {
                        let message = self.string("not bitcode");
                        Reply::Outcome { code: 1, handle: 0, message }
                    }
                }
            }
            Call::DisposeMemoryBuffer { buffer } => {
                self.disposed_buffers.push(buffer);
                Reply::Unit
            }
            Call::CreateExecutionEngineForModule { module }
            | Call::CreateInterpreterForModule { module }
            | Call::CreateJITCompilerForModule { module, .. } => self.make_engine(module),
            Call::DisposeExecutionEngine { engine } => {
                let owned: Vec<usize> =
                    self.live_engines.iter().filter(|e| e.0 == engine).map(|e| e.1).collect();
                assert!(!owned.is_empty(), "engine disposed of twice");
                for module in self.modules.iter_mut() {
                    if owned.contains(&module.handle) {
                        module.disposals += 1;
                    }
                }
                self.live_engines.retain(|e| e.0 != engine);
                self.disposed_engines.push(engine);
                Reply::Unit
            }
            _ => panic!("the stand-in does not know {:?}", call),
        }
    }

    fn perform_all(&mut self, calls: &[Call]) {
        for call in calls {
            assert_eq!(self.perform(call), Reply::Unit);
        }
    }
}

/// Runs an operation to its end: makes each call that it asks for and hands
/// it all the answers so far.
fn run<'a, T>(
    fake: &mut Fake,
    mut operation: impl FnMut(&Vec<Reply>) -> Step<'a, T>,
) -> Result<T, Violation> {
    let mut replies = Vec::new();
    loop {
        match operation(&replies) {
            Step::Perform(call) => replies.push(fake.perform(&call)),
            Step::Finished(result) => return Ok(result),
            Step::Abort(violation) => return Err(violation),
        }
    }
}

fn unit_named(fake: &mut Fake, name: &str) -> Module {
    run(fake, |replies| Module::create(name, replies)).unwrap()
}

#[test]
fn unit_disposes_of_its_native_module_exactly_once() {
    let mut fake = Fake::new();
    let unit = unit_named(&mut fake, "m");
    let handle = unit.as_mut_ptr();
    assert_eq!(fake.disposals_of(handle), 0);
    let calls = unit.dispose();
    assert_eq!(calls, vec![Call::DisposeModule { module: handle }]);
    fake.perform_all(&calls);
    assert_eq!(fake.disposals_of(handle), 1);
}

#[test]
fn unit_handed_to_an_engine_leaves_disposal_to_the_engine() {
    let mut fake = Fake::new();
    let mut unit = unit_named(&mut fake, "m");
    let handle = unit.as_mut_ptr();
    let engine = run(&mut fake, |replies| unit.create_execution_engine(replies)).unwrap().unwrap();
    assert!(unit.is_owned_by_engine());
    assert!(!engine.is_jit());

    let calls = unit.dispose();
    assert_eq!(calls, vec![]);
    fake.perform_all(&calls);
    assert_eq!(fake.disposals_of(handle), 0);

    let second = engine.clone();
    assert_eq!(engine.release(), None);
    assert_eq!(fake.disposals_of(handle), 0);

    let raw = second.as_ptr();
    let last = second.release();
    assert_eq!(last, Some(Call::DisposeExecutionEngine { engine: raw }));
    fake.perform_all(&[last.unwrap()]);
    assert_eq!(fake.disposals_of(handle), 1);
    assert_eq!(fake.disposed_engines, vec![raw]);
}

#[test]
fn unit_that_outlives_the_callers_engine_disposes_of_the_engine() {
    let mut fake = Fake::new();
    let mut unit = unit_named(&mut fake, "m");
    let handle = unit.as_mut_ptr();
    let engine =
        run(&mut fake, |replies| unit.create_interpreter_execution_engine(replies)).unwrap().unwrap();
    let raw = engine.as_ptr();
    assert_eq!(engine.release(), None);
    let calls = unit.dispose();
    assert_eq!(calls, vec![Call::DisposeExecutionEngine { engine: raw }]);
    fake.perform_all(&calls);
    assert_eq!(fake.disposals_of(handle), 1);
}

#[test]
fn verify_tells_a_valid_unit_from_an_invalid_one() {
    let mut fake = Fake::new();
    let unit = unit_named(&mut fake, "m");
    assert_eq!(run(&mut fake, |replies| unit.verify(replies)), Ok(Ok(())));

    fake.module(unit.as_mut_ptr()).content.valid = false;
    let failure = run(&mut fake, |replies| unit.verify(replies)).unwrap().unwrap_err();
    assert!(!fake.text(failure.as_ptr()).is_empty());
    assert_eq!(fake.text(failure.as_ptr()), "basic block belongs to another function");
}

#[test]
fn clone_of_an_invalid_unit_never_reaches_the_native_clone() {
    let mut fake = Fake::new();
    let unit = unit_named(&mut fake, "m");
    fake.module(unit.as_mut_ptr()).content.valid = false;
    let stopped = run(&mut fake, |replies| unit.clone(replies));
    match stopped {
        Err(Violation::InvalidModule(message)) => {
            assert_eq!(fake.text(message.as_ptr()), "basic block belongs to another function")
        }
        other => panic!("cloning went on: {:?}", other),
    }
    assert_eq!(fake.clones, 0);
    assert!(!fake.log.iter().any(|call| call.starts_with("CloneModule")));
}

#[test]
fn clone_of_a_valid_unit_is_a_second_unit() {
    let mut fake = Fake::new();
    let context = run(&mut fake, |replies| Context::create(replies)).unwrap();
    let unit = run(&mut fake, |replies| context.create_module("m", replies)).unwrap();
    let ty = FunctionType::new(0x77).unwrap();
    run(&mut fake, |replies| unit.add_function("f", &ty, None, replies)).unwrap();

    let copy = run(&mut fake, |replies| unit.clone(replies)).unwrap();
    assert_eq!(fake.clones, 1);
    assert_ne!(copy.as_mut_ptr(), unit.as_mut_ptr());
    assert!(!copy.is_owned_by_engine());
    let made_in = run(&mut fake, |replies| copy.get_context(replies)).unwrap();
    assert!(made_in.is(&context));
    assert!(run(&mut fake, |replies| copy.get_function("f", replies)).unwrap().is_some());

    let first = unit.as_mut_ptr();
    let second = copy.as_mut_ptr();
    fake.perform_all(&unit.dispose());
    assert_eq!((fake.disposals_of(first), fake.disposals_of(second)), (1, 0));
    fake.perform_all(&copy.dispose());
    assert_eq!((fake.disposals_of(first), fake.disposals_of(second)), (1, 1));
}

#[test]
fn bitcode_round_trip_keeps_the_names() {
    let mut fake = Fake::new();
    let context = run(&mut fake, |replies| Context::create(replies)).unwrap();
    let unit = run(&mut fake, |replies| context.create_module("m", replies)).unwrap();
    let ty = FunctionType::new(0x77).unwrap();
    let int = BasicType::new(0x88).unwrap();
    run(&mut fake, |replies| unit.add_function("f", &ty, None, replies)).unwrap();
    run(&mut fake, |replies| unit.add_function("g", &ty, Some(Linkage::Internal), replies)).unwrap();
    run(&mut fake, |replies| unit.add_global(int, None, "x", replies)).unwrap();

    let buffer = run(&mut fake, |replies| unit.write_bitcode_to_memory(replies)).unwrap();
    let read = run(&mut fake, |replies| {
        Module::parse_bitcode_from_buffer_in_context(&buffer, &context, replies)
    })
    .unwrap()
    .unwrap();

    assert_eq!(run(&mut fake, |replies| read.verify(replies)), Ok(Ok(())));
    let written = fake.module(unit.as_mut_ptr()).content.clone();
    let parsed = fake.module(read.as_mut_ptr()).content.clone();
    assert_eq!(written.functions, parsed.functions);
    assert_eq!(written.globals, parsed.globals);
    for name in ["f", "g"] {
        assert!(run(&mut fake, |replies| read.get_function(name, replies)).unwrap().is_some());
    }
    assert!(run(&mut fake, |replies| read.get_global("x", replies)).unwrap().is_some());
    assert!(run(&mut fake, |replies| read.get_context(replies)).unwrap().is(&context));
    assert_eq!(fake.perform(&buffer.release()), Reply::Unit);
}

#[test]
fn data_layout_read_after_set_is_the_one_set() {
    let mut fake = Fake::new();
    let mut unit = unit_named(&mut fake, "m");
    let before = unit.get_data_layout().as_ptr();
    assert_eq!(fake.text(before), "");
    assert!(unit.get_data_layout().is_borrowed());

    let wanted = "e-m:e-i64:64-f80:128-n8:16:32:64-S128";
    let layout = DataLayout::new_owned(fake.string(wanted));
    run(&mut fake, |replies| unit.set_data_layout(&layout, replies)).unwrap();

    let after = unit.get_data_layout();
    assert_ne!(after.as_ptr(), before);
    assert_eq!(after.parent, Some(unit.as_mut_ptr()));
    assert_eq!(fake.text(after.as_ptr()), wanted);
    assert_eq!(layout.release(), Some(Call::DisposeMessage { message: layout_ptr(&fake, wanted) }));
}

fn layout_ptr(fake: &Fake, text: &str) -> usize {
    fake.strings.iter().find(|known| known.1 == text).unwrap().0
}

#[test]
fn metadata_count_follows_the_additions() {
    let mut fake = Fake::new();
    let unit = unit_named(&mut fake, "m");
    assert_eq!(run(&mut fake, |replies| unit.get_global_metadata_size("k", replies)), Ok(0));
    assert_eq!(run(&mut fake, |replies| unit.get_global_metadata("k", replies)), Ok(vec![]));

    let items: Vec<MetadataValue> =
        [0x501, 0x502, 0x503].iter().map(|at| MetadataValue::new(*at).unwrap()).collect();
    for (added, item) in items.iter().enumerate() {
        run(&mut fake, |replies| unit.add_global_metadata("k", item, replies)).unwrap();
        assert_eq!(
            run(&mut fake, |replies| unit.get_global_metadata_size("k", replies)),
            Ok(added as u32 + 1)
        );
    }
    assert_eq!(run(&mut fake, |replies| unit.get_global_metadata("k", replies)), Ok(items));
    assert_eq!(run(&mut fake, |replies| unit.get_global_metadata_size("other", replies)), Ok(0));
}

#[test]
fn added_function_is_found_again_with_external_linkage() {
    let mut fake = Fake::new();
    let unit = unit_named(&mut fake, "m");
    let no_arguments = FunctionType::new(0x77).unwrap();
    let added = run(&mut fake, |replies| unit.add_function("f", &no_arguments, None, replies)).unwrap();
    let found = run(&mut fake, |replies| unit.get_function("f", replies)).unwrap();
    assert_eq!(found, Some(added));
    assert_eq!(run(&mut fake, |replies| added.get_linkage(replies)), Ok(Linkage::External));
    assert_eq!(run(&mut fake, |replies| unit.get_first_function(replies)), Ok(Some(added)));
    assert_eq!(run(&mut fake, |replies| unit.get_last_function(replies)), Ok(Some(added)));
    assert_eq!(run(&mut fake, |replies| unit.get_function("g", replies)), Ok(None));
}

#[test]
fn added_function_takes_the_linkage_asked_for() {
    let mut fake = Fake::new();
    let unit = unit_named(&mut fake, "m");
    let ty = FunctionType::new(0x77).unwrap();
    let added =
        run(&mut fake, |replies| unit.add_function("f", &ty, Some(Linkage::Private), replies)).unwrap();
    assert_eq!(run(&mut fake, |replies| added.get_linkage(replies)), Ok(Linkage::Private));
    run(&mut fake, |replies| added.set_linkage(Linkage::WeakODR, replies)).unwrap();
    assert_eq!(run(&mut fake, |replies| added.get_linkage(replies)), Ok(Linkage::WeakODR));
}

#[test]
fn local_context_differs_from_the_global_one() {
    let mut fake = Fake::new();
    let local = run(&mut fake, |replies| Context::create(replies)).unwrap();
    let global = run(&mut fake, |replies| Context::get_global(replies)).unwrap();
    let in_local = run(&mut fake, |replies| local.create_module("m", replies)).unwrap();
    let in_global = unit_named(&mut fake, "n");

    let first = run(&mut fake, |replies| in_local.get_context(replies)).unwrap();
    let second = run(&mut fake, |replies| in_global.get_context(replies)).unwrap();
    assert!(first.is(&local));
    assert!(*first.as_context() == local);
    assert!(second == global);
    assert!(!second.is(&local));
    assert!(first != second);
    assert!(first != global);
    assert!(*global.as_context() != local);
}

#[test]
fn context_outlives_the_units_made_in_it() {
    let mut fake = Fake::new();
    let context = run(&mut fake, |replies| Context::create(replies)).unwrap();
    let raw = context.as_ptr();
    let first = run(&mut fake, |replies| context.create_module("a", replies)).unwrap();
    let second = run(&mut fake, |replies| context.create_module("b", replies)).unwrap();

    assert_eq!(context.release(), None);
    let calls = first.dispose();
    assert_eq!(calls.len(), 1);
    fake.perform_all(&calls);
    assert_eq!(fake.disposed_contexts, vec![]);

    let handle = second.as_mut_ptr();
    let calls = second.dispose();
    assert_eq!(
        calls,
        vec![Call::DisposeModule { module: handle }, Call::ContextDispose { context: raw }]
    );
    fake.perform_all(&calls);
    assert_eq!(fake.disposed_contexts, vec![raw]);
}

#[test]
fn unit_of_the_global_context_never_disposes_of_it() {
    let mut fake = Fake::new();
    let unit = unit_named(&mut fake, "m");
    let handle = unit.as_mut_ptr();
    assert_eq!(unit.dispose(), vec![Call::DisposeModule { module: handle }]);
}

#[test]
fn cloned_holder_keeps_the_context_alive() {
    let mut fake = Fake::new();
    let context = run(&mut fake, |replies| Context::create(replies)).unwrap();
    let raw = context.as_ptr();
    let other = context.clone();
    assert!(other == context);
    assert_eq!(other.as_ptr(), raw);
    assert_eq!(context.release(), None);
    assert_eq!(other.release(), Some(Call::ContextDispose { context: raw }));
}

#[test]
fn failed_jit_leaves_the_unit_with_a_module_of_its_own() {
    let mut fake = Fake::new();
    let mut unit = unit_named(&mut fake, "m");
    let ty = FunctionType::new(0x77).unwrap();
    run(&mut fake, |replies| unit.add_function("f", &ty, None, replies)).unwrap();
    let first = unit.as_mut_ptr();
    let first_layout = unit.get_data_layout().as_ptr();

    fake.engines_fail = true;
    let failure = run(&mut fake, |replies| {
        unit.create_jit_execution_engine(OptimizationLevel::Aggressive, replies)
    })
    .unwrap()
    .unwrap_err();
    assert_eq!(fake.text(failure.as_ptr()), "no engine for this target");
    assert!(fake.log.contains(&format!(
        "{:?}",
        Call::CreateJITCompilerForModule { module: first, opt_level: 3 }
    )));

    let second = unit.as_mut_ptr();
    assert_ne!(second, first);
    assert!(!unit.is_owned_by_engine());
    assert_eq!(fake.clones, 1);
    assert_ne!(unit.get_data_layout().as_ptr(), first_layout);
    assert_eq!(unit.get_data_layout().parent, Some(second));
    assert!(run(&mut fake, |replies| unit.get_function("f", replies)).unwrap().is_some());

    fake.perform_all(&unit.dispose());
    assert_eq!((fake.disposals_of(first), fake.disposals_of(second)), (0, 1));
}

#[test]
fn failed_plain_engine_leaves_the_unit_as_it_was() {
    let mut fake = Fake::new();
    let mut unit = unit_named(&mut fake, "m");
    let handle = unit.as_mut_ptr();
    fake.engines_fail = true;
    let plain = run(&mut fake, |replies| unit.create_execution_engine(replies)).unwrap();
    assert!(plain.is_err());
    let interpreter =
        run(&mut fake, |replies| unit.create_interpreter_execution_engine(replies)).unwrap();
    assert!(interpreter.is_err());
    assert_eq!(unit.as_mut_ptr(), handle);
    assert!(!unit.is_owned_by_engine());
    assert_eq!(fake.clones, 0);
    assert_eq!(unit.dispose(), vec![Call::DisposeModule { module: handle }]);
}

#[test]
fn jit_engine_is_marked_as_such() {
    let mut fake = Fake::new();
    let mut unit = unit_named(&mut fake, "m");
    let engine =
        run(&mut fake, |replies| unit.create_jit_execution_engine(OptimizationLevel::Off, replies))
            .unwrap()
            .unwrap();
    assert!(engine.is_jit());
    assert!(unit.is_owned_by_engine());
    assert_eq!(fake.clones, 0);
}

#[test]
fn globals_are_found_by_name_and_position() {
    let mut fake = Fake::new();
    let unit = unit_named(&mut fake, "m");
    assert_eq!(run(&mut fake, |replies| unit.get_first_global(replies)), Ok(None));
    assert_eq!(run(&mut fake, |replies| unit.get_last_global(replies)), Ok(None));
    let ty = BasicType::new(0x88).unwrap();
    let first =
        run(&mut fake, |replies| unit.add_global(ty, Some(AddressSpace::Const), "a", replies)).unwrap();
    let last = run(&mut fake, |replies| unit.add_global(ty, None, "b", replies)).unwrap();
    assert_ne!(first, last);
    assert_eq!(run(&mut fake, |replies| unit.get_first_global(replies)), Ok(Some(first)));
    assert_eq!(run(&mut fake, |replies| unit.get_last_global(replies)), Ok(Some(last)));
    assert_eq!(run(&mut fake, |replies| unit.get_global("b", replies)), Ok(Some(last)));
    assert_eq!(run(&mut fake, |replies| unit.get_global("c", replies)), Ok(None));
    assert!(fake.log.iter().any(|call| call.starts_with("AddGlobalInAddressSpace")
        && call.contains("address_space: 4")));
}

#[test]
fn message_is_freed_by_the_call_that_release_names() {
    let message = LLVMString::new(0x9000);
    assert_eq!(message.as_ptr(), 0x9000);
    assert_eq!(message.release(), Call::DisposeMessage { message: 0x9000 });
}
