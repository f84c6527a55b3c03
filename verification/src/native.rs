//! The boundary with LLVM: the calls this layer asks for, the answers it
//! takes, and the steps of an operation.

use crate::support::LLVMString;
use llvm_sys::analysis::LLVMVerifierFailureAction;
use llvm_sys::LLVMLinkage;
use vstd::prelude::*;

verus! {

/// Lets `llvm_sys::LLVMLinkage` stand in verified code. Nothing is claimed
/// of it: the enum is read with its variants as `llvm_sys` declares them.
#[verifier::external_type_specification]
pub struct ExLLVMLinkage(LLVMLinkage);

/// Lets `llvm_sys::analysis::LLVMVerifierFailureAction` stand in verified
/// code. Nothing is claimed of it: the enum is read with its variants as
/// `llvm_sys` declares them.
#[verifier::external_type_specification]
pub struct ExLLVMVerifierFailureAction(LLVMVerifierFailureAction);

/// One call into LLVM's C API, with its arguments. A handle is the address
/// that LLVM gave; a `&str` argument is handed over as a C string.
#[derive(Debug, PartialEq, Clone, Copy)]
#[allow(inconsistent_fields)]
pub enum Call<'a> {
    /// `LLVMContextCreate`
    ContextCreate,
    /// `LLVMGetGlobalContext`
    GetGlobalContext,
    /// `LLVMContextDispose`
    ContextDispose { context: usize },
    /// `LLVMModuleCreateWithName`
    ModuleCreateWithName { name: &'a str },
    /// `LLVMModuleCreateWithNameInContext`
    ModuleCreateWithNameInContext { name: &'a str, context: usize },
    /// `LLVMCloneModule`
    CloneModule { module: usize },
    /// `LLVMDisposeModule`
    DisposeModule { module: usize },
    /// `LLVMGetModuleContext`
    GetModuleContext { module: usize },
    /// `LLVMGetDataLayoutStr`
    GetDataLayoutStr { module: usize },
    /// `LLVMSetDataLayout`; `layout` is the address of the layout string.
    SetDataLayout { module: usize, layout: usize },
    /// `LLVMGetTarget`
    GetTarget { module: usize },
    /// `LLVMSetTarget`; `triple` is the address of the string.
    SetTarget { module: usize, triple: usize },
    /// `LLVMGetTargetName`
    GetTargetName { target: usize },
    /// `LLVMGetTargetFromName`; `name` is the address of the string.
    GetTargetFromName { name: usize },
    /// `LLVMAddFunction`
    AddFunction { module: usize, name: &'a str, ty: usize },
    /// `LLVMGetNamedFunction`
    GetNamedFunction { module: usize, name: &'a str },
    /// `LLVMGetFirstFunction`
    GetFirstFunction { module: usize },
    /// `LLVMGetLastFunction`
    GetLastFunction { module: usize },
    /// `LLVMGetLinkage`
    GetLinkage { value: usize },
    /// `LLVMSetLinkage`
    SetLinkage { value: usize, linkage: LLVMLinkage },
    /// `LLVMGetTypeByName`
    GetTypeByName { module: usize, name: &'a str },
    /// `LLVMAddGlobal`
    AddGlobal { module: usize, ty: usize, name: &'a str },
    /// `LLVMAddGlobalInAddressSpace`
    AddGlobalInAddressSpace { module: usize, ty: usize, name: &'a str, address_space: u32 },
    /// `LLVMGetNamedGlobal`
    GetNamedGlobal { module: usize, name: &'a str },
    /// `LLVMGetFirstGlobal`
    GetFirstGlobal { module: usize },
    /// `LLVMGetLastGlobal`
    GetLastGlobal { module: usize },
    /// `LLVMAddNamedMetadataOperand`
    AddNamedMetadataOperand { module: usize, key: &'a str, value: usize },
    /// `LLVMGetNamedMetadataNumOperands`
    GetNamedMetadataNumOperands { module: usize, key: &'a str },
    /// `LLVMGetNamedMetadataOperands`, into a buffer with room for `count`
    /// handles.
    GetNamedMetadataOperands { module: usize, key: &'a str, count: u32 },
    /// `LLVMSetModuleInlineAsm`
    SetModuleInlineAsm { module: usize, assembly: &'a str },
    /// `LLVMVerifyModule`
    VerifyModule { module: usize, action: LLVMVerifierFailureAction },
    /// `LLVMDumpModule`
    DumpModule { module: usize },
    /// `LLVMPrintModuleToString`
    PrintModuleToString { module: usize },
    /// `LLVMPrintModuleToFile`
    PrintModuleToFile { module: usize, path: &'a str },
    /// `LLVMWriteBitcodeToFile`
    WriteBitcodeToFile { module: usize, path: &'a str },
    /// `LLVMWriteBitcodeToFD`
    WriteBitcodeToFD { module: usize, fd: i32, should_close: i32, unbuffered: i32 },
    /// `LLVMWriteBitcodeToMemoryBuffer`
    WriteBitcodeToMemoryBuffer { module: usize },
    /// `LLVMParseBitcode`
    ParseBitcode { buffer: usize },
    /// `LLVMParseBitcodeInContext`
    ParseBitcodeInContext { context: usize, buffer: usize },
    /// `LLVMCreateMemoryBufferWithContentsOfFile`
    CreateMemoryBufferWithContentsOfFile { path: &'a str },
    /// `LLVMDisposeMemoryBuffer`
    DisposeMemoryBuffer { buffer: usize },
    /// `LLVMCreateExecutionEngineForModule`
    CreateExecutionEngineForModule { module: usize },
    /// `LLVMCreateInterpreterForModule`
    CreateInterpreterForModule { module: usize },
    /// `LLVMCreateJITCompilerForModule`
    CreateJITCompilerForModule { module: usize, opt_level: u32 },
    /// `LLVMDisposeExecutionEngine`
    DisposeExecutionEngine { engine: usize },
    /// `LLVMDisposeMessage`
    DisposeMessage { message: usize },
}

/// What a call gave back.
#[derive(Debug, PartialEq)]
pub enum Reply {
    /// The call returns nothing.
    Unit,
    /// A handle or the address of a string; zero is the null pointer.
    Handle(usize),
    /// A number of items.
    Count(u32),
    /// An integer status.
    Status(i32),
    /// A linkage.
    Linkage(LLVMLinkage),
    /// The handles written into the buffer that the call was given.
    Handles(Vec<usize>),
    /// The result of a call that reports through out-parameters: the code
    /// it returned, the handle it stored, and the address of the message it
    /// stored. What the call left untouched is zero.
    Outcome { code: i32, handle: usize, message: usize },
}

/// Why an operation stops for good. Going on would hand LLVM something it
/// cannot take, or build on something it did not give.
#[derive(Debug, PartialEq)]
pub enum Violation {
    /// A name or path holds a zero byte.
    InteriorNul,
    /// LLVM returned null where it always returns an object.
    NullHandle,
    /// The unit to clone does not pass LLVM's validator.
    InvalidModule(LLVMString),
    /// The answer is not of the kind that the call gives.
    UnexpectedReply,
}

/// Where an operation stands after the answers received so far.
#[derive(Debug, PartialEq)]
pub enum Step<'a, T> {
    /// This call is to be made next, and its answer appended.
    Perform(Call<'a>),
    /// The operation is complete.
    Finished(T),
    /// The operation cannot go on.
    Abort(Violation),
}

impl<'a, T> Step<'a, T> {
    /// The same step, with `f` applied to the result once there is one.
    pub open spec fn map<U>(self, f: spec_fn(T) -> U) -> Step<'a, U> {
        match self {
            Step::Perform(call) => Step::Perform(call),
            Step::Finished(value) => Step::Finished(f(value)),
            Step::Abort(violation) => Step::Abort(violation),
        }
    }

    /// This step, followed by `next` once there is a result.
    pub open spec fn and_then<U>(self, next: spec_fn(T) -> Step<'a, U>) -> Step<'a, U> {
        match self {
            Step::Perform(call) => Step::Perform(call),
            Step::Finished(value) => next(value),
            Step::Abort(violation) => Step::Abort(violation),
        }
    }
}

/// One call whose answer is wanted whole: the call while no answer is
/// there, then the first answer.
pub open spec fn ask<'a>(call: Call<'a>, replies: Seq<Reply>) -> Step<'a, Reply> {
    if replies.len() == 0 {
        Step::Perform(call)
    } else {
        Step::Finished(replies[0])
    }
}

/// One call that returns a handle.
pub open spec fn ask_handle<'a>(call: Call<'a>, replies: Seq<Reply>) -> Step<'a, usize> {
    ask(call, replies).and_then(
        |reply: Reply|
            match reply {
                Reply::Handle(handle) => Step::Finished(handle),
                _ => Step::Abort(Violation::UnexpectedReply),
            },
    )
}

/// One call that returns nothing.
pub open spec fn ask_unit<'a>(call: Call<'a>, replies: Seq<Reply>) -> Step<'a, ()> {
    ask(call, replies).and_then(
        |reply: Reply|
            match reply {
                Reply::Unit => Step::Finished(()),
                _ => Step::Abort(Violation::UnexpectedReply),
            },
    )
}

/// One call that returns an integer status.
pub open spec fn ask_status<'a>(call: Call<'a>, replies: Seq<Reply>) -> Step<'a, i32> {
    ask(call, replies).and_then(
        |reply: Reply|
            match reply {
                Reply::Status(code) => Step::Finished(code),
                _ => Step::Abort(Violation::UnexpectedReply),
            },
    )
}

/// One call that returns a count.
pub open spec fn ask_count<'a>(call: Call<'a>, replies: Seq<Reply>) -> Step<'a, u32> {
    ask(call, replies).and_then(
        |reply: Reply|
            match reply {
                Reply::Count(count) => Step::Finished(count),
                _ => Step::Abort(Violation::UnexpectedReply),
            },
    )
}

/// One call that returns a linkage.
pub open spec fn ask_linkage<'a>(call: Call<'a>, replies: Seq<Reply>) -> Step<'a, LLVMLinkage> {
    ask(call, replies).and_then(
        |reply: Reply|
            match reply {
                Reply::Linkage(linkage) => Step::Finished(linkage),
                _ => Step::Abort(Violation::UnexpectedReply),
            },
    )
}

/// What a call with out-parameters reported.
#[derive(Debug, PartialEq, Eq, Clone, Copy)]
pub struct Outcome {
    pub code: i32,
    pub handle: usize,
    pub message: usize,
}

/// One call that reports through out-parameters.
pub open spec fn ask_outcome<'a>(call: Call<'a>, replies: Seq<Reply>) -> Step<'a, Outcome> {
    ask(call, replies).and_then(
        |reply: Reply|
            match reply {
                Reply::Outcome { code, handle, message } => Step::Finished(
                    Outcome { code, handle, message },
                ),
                _ => Step::Abort(Violation::UnexpectedReply),
            },
    )
}

/// One call that fills a buffer of `count` handles.
pub open spec fn ask_handles<'a>(call: Call<'a>, count: u32, replies: Seq<Reply>) -> Step<
    'a,
    Seq<usize>,
> {
    ask(call, replies).and_then(
        |reply: Reply|
            match reply {
                Reply::Handles(handles) if handles@.len() == count => Step::Finished(handles@),
                _ => Step::Abort(Violation::UnexpectedReply),
            },
    )
}

/// The answers from position `at` on: those that a part of an operation
/// takes when the parts before it have taken `at`. There are none if not
/// even `at` answers have come.
pub open spec fn answers_from(replies: Seq<Reply>, at: usize) -> Seq<Reply> {
    if at == 0 {
        replies
    } else if at <= replies.len() {
        replies.skip(at as int)
    } else {
        Seq::empty()
    }
}

/// The answer at `at`, if it has come.
fn reply_at(replies: &Vec<Reply>, at: usize) -> (reply: Option<&Reply>)
    ensures
        reply == if at < replies@.len() {
            Some(&replies@[at as int])
        } else {
            None
        },
{
    if at < replies.len() {
        Some(&replies[at])
    } else {
        None
    }
}

/// Makes `call` at position `at` of an operation and takes the handle that
/// it returns.
pub fn take_handle<'a>(call: Call<'a>, replies: &Vec<Reply>, at: usize) -> (step: Step<'a, usize>)
    ensures
        step == ask_handle(call, answers_from(replies@, at)),
{
    match reply_at(replies, at) {
        None => Step::Perform(call),
        Some(Reply::Handle(handle)) => Step::Finished(*handle),
        Some(_) => Step::Abort(Violation::UnexpectedReply),
    }
}

/// Makes `call` at position `at` of an operation; the call returns nothing.
pub fn take_unit<'a>(call: Call<'a>, replies: &Vec<Reply>, at: usize) -> (step: Step<'a, ()>)
    ensures
        step == ask_unit(call, answers_from(replies@, at)),
{
    match reply_at(replies, at) {
        None => Step::Perform(call),
        Some(Reply::Unit) => Step::Finished(()),
        Some(_) => Step::Abort(Violation::UnexpectedReply),
    }
}

/// Makes `call` at position `at` of an operation and takes the status that
/// it returns.
pub fn take_status<'a>(call: Call<'a>, replies: &Vec<Reply>, at: usize) -> (step: Step<'a, i32>)
    ensures
        step == ask_status(call, answers_from(replies@, at)),
{
    match reply_at(replies, at) {
        None => Step::Perform(call),
        Some(Reply::Status(code)) => Step::Finished(*code),
        Some(_) => Step::Abort(Violation::UnexpectedReply),
    }
}

/// Makes `call` at position `at` of an operation and takes the count that
/// it returns.
pub fn take_count<'a>(call: Call<'a>, replies: &Vec<Reply>, at: usize) -> (step: Step<'a, u32>)
    ensures
        step == ask_count(call, answers_from(replies@, at)),
{
    match reply_at(replies, at) {
        None => Step::Perform(call),
        Some(Reply::Count(count)) => Step::Finished(*count),
        Some(_) => Step::Abort(Violation::UnexpectedReply),
    }
}

/// Makes `call` at position `at` of an operation and takes the linkage that
/// it returns.
pub fn take_linkage<'a>(call: Call<'a>, replies: &Vec<Reply>, at: usize) -> (step: Step<
    'a,
    LLVMLinkage,
>)
    ensures
        step == ask_linkage(call, answers_from(replies@, at)),
{
    match reply_at(replies, at) {
        None => Step::Perform(call),
        Some(Reply::Linkage(linkage)) => Step::Finished(*linkage),
        Some(_) => Step::Abort(Violation::UnexpectedReply),
    }
}

/// Makes `call` at position `at` of an operation and takes what it reported
/// through its out-parameters.
pub fn take_outcome<'a>(call: Call<'a>, replies: &Vec<Reply>, at: usize) -> (step: Step<
    'a,
    Outcome,
>)
    ensures
        step == ask_outcome(call, answers_from(replies@, at)),
{
    match reply_at(replies, at) {
        None => Step::Perform(call),
        Some(Reply::Outcome { code, handle, message }) => Step::Finished(
            Outcome { code: *code, handle: *handle, message: *message },
        ),
        Some(_) => Step::Abort(Violation::UnexpectedReply),
    }
}

/// Makes `call` at position `at` of an operation and takes the `count`
/// handles that it wrote.
pub fn take_handles<'a, 'r>(
    call: Call<'a>,
    count: u32,
    replies: &'r Vec<Reply>,
    at: usize,
) -> (step: Step<'a, &'r Vec<usize>>)
    ensures
        step.map(|handles: &Vec<usize>| handles@) == ask_handles(
            call,
            count,
            answers_from(replies@, at),
        ),
{
    match reply_at(replies, at) {
        None => Step::Perform(call),
        Some(Reply::Handles(handles)) => {
            if handles.len() == count as usize {
                Step::Finished(handles)
            } else {
                Step::Abort(Violation::UnexpectedReply)
            }
        },
        Some(_) => Step::Abort(Violation::UnexpectedReply),
    }
}

} // verus!
