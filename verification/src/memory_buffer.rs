//! Buffers of bytes in LLVM's memory.

use crate::native::{ask_outcome, take_outcome, Call, Outcome, Reply, Step, Violation};
use crate::support::{has_interior_nul, interior_nul, LLVMString};
use vstd::prelude::*;

verus! {

/// A buffer that LLVM allocated and this layer owns. The type has no copy.
#[derive(Debug, PartialEq, Eq)]
pub struct MemoryBuffer {
    pub memory_buffer: usize,
}

impl MemoryBuffer {
    /// The buffer at `memory_buffer`, if there is one.
    pub open spec fn spec_new(memory_buffer: usize) -> Option<MemoryBuffer> {
        if memory_buffer == 0 {
            None
        } else {
            Some(MemoryBuffer { memory_buffer })
        }
    }

    /// Takes charge of the buffer at `memory_buffer`; null is no buffer.
    #[verifier::when_used_as_spec(spec_new)]
    pub fn new(memory_buffer: usize) -> (buffer: Option<MemoryBuffer>)
        ensures
            buffer == Self::spec_new(memory_buffer),
    {
        if memory_buffer == 0 {
            None
        } else {
            Some(MemoryBuffer { memory_buffer })
        }
    }

    /// The handle.
    pub fn as_ptr(&self) -> (memory_buffer: usize)
        ensures
            memory_buffer == self.memory_buffer,
    {
        self.memory_buffer
    }

    /// What reading a file into a buffer came to: the message when LLVM
    /// reported failure, else the buffer; a success without a buffer is
    /// none.
    pub open spec fn from_outcome(outcome: Outcome) -> Step<
        'static,
        Result<MemoryBuffer, LLVMString>,
    > {
        if outcome.code != 0 {
            Step::Finished(Err(LLVMString { ptr: outcome.message }))
        } else {
            match MemoryBuffer::spec_new(outcome.handle) {
                Some(buffer) => Step::Finished(Ok(buffer)),
                None => Step::Abort(Violation::NullHandle),
            }
        }
    }

    /// How reading the file at `path` into a buffer proceeds.
    pub open spec fn file_read<'a>(path: &'a str, replies: Seq<Reply>) -> Step<
        'a,
        Result<MemoryBuffer, LLVMString>,
    > {
        if interior_nul(path) {
            Step::Abort(Violation::InteriorNul)
        } else {
            ask_outcome(Call::CreateMemoryBufferWithContentsOfFile { path }, replies).and_then(
                |outcome: Outcome| Self::from_outcome(outcome),
            )
        }
    }

    /// Reads the file at `path` into a new buffer. LLVM's message comes
    /// back when it cannot.
    pub fn create_from_file<'a>(path: &'a str, replies: &Vec<Reply>) -> (step: Step<
        'a,
        Result<MemoryBuffer, LLVMString>,
    >)
        ensures
            step == Self::file_read(path, replies@),
    {
        if has_interior_nul(path) {
            return Step::Abort(Violation::InteriorNul);
        }
        match take_outcome(Call::CreateMemoryBufferWithContentsOfFile { path }, replies, 0) {
            Step::Perform(call) => Step::Perform(call),
            Step::Abort(violation) => Step::Abort(violation),
            Step::Finished(outcome) => {
                if outcome.code != 0 {
                    Step::Finished(Err(LLVMString::new(outcome.message)))
                } else {
                    match MemoryBuffer::new(outcome.handle) {
                        Some(buffer) => Step::Finished(Ok(buffer)),
                        None => Step::Abort(Violation::NullHandle),
                    }
                }
            },
        }
    }

    /// Gives the buffer up: the one call that frees it.
    pub fn release(self) -> (call: Call<'static>)
        ensures
            call == (Call::DisposeMemoryBuffer { buffer: self.memory_buffer }),
    {
        Call::DisposeMemoryBuffer { buffer: self.memory_buffer }
    }
}

} // verus!
