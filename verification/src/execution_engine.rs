//! Execution engines: what runs the code of a unit.

use crate::native::Call;
use std::rc::Rc;
use vstd::prelude::*;

verus! {

/// An execution engine, held together with every other `ExecutionEngine`
/// made from it by `clone`. The native engine owns the units that were
/// handed to it. The last holder to let go disposes of the native engine,
/// and with it of those units.
#[derive(Debug)]
pub struct ExecutionEngine {
    pub execution_engine: Rc<usize>,
    /// Whether the engine compiles just in time.
    pub jit_mode: bool,
}

impl ExecutionEngine {
    /// The handle of the native engine.
    pub open spec fn raw(&self) -> usize {
        *self.execution_engine
    }

    /// A holder of the engine behind `execution_engine`.
    pub fn new(execution_engine: Rc<usize>, jit_mode: bool) -> (held: ExecutionEngine)
        ensures
            held.execution_engine == execution_engine,
            held.jit_mode == jit_mode,
    {
        ExecutionEngine { execution_engine, jit_mode }
    }

    /// The handle of the native engine.
    pub fn as_ptr(&self) -> (engine: usize)
        ensures
            engine == self.raw(),
    {
        *self.execution_engine
    }

    /// Whether the engine compiles just in time.
    pub fn is_jit(&self) -> (jit: bool)
        ensures
            jit == self.jit_mode,
    {
        self.jit_mode
    }

    /// The call that is due when a holder lets go: the disposal of the
    /// engine if it was the only holder left, which is when
    /// `Rc::try_unwrap` hands the handle out; else none.
    pub open spec fn disposal(last: Result<usize, Rc<usize>>) -> Option<Call<'static>> {
        match last {
            Ok(engine) => Some(Call::DisposeExecutionEngine { engine }),
            Err(_) => None,
        }
    }

    /// Decides what is due from what `Rc::try_unwrap` said of a holder.
    pub fn on_release(last: Result<usize, Rc<usize>>) -> (call: Option<Call<'static>>)
        ensures
            call == Self::disposal(last),
    {
        match last {
            Ok(engine) => Some(Call::DisposeExecutionEngine { engine }),
            Err(_) => None,
        }
    }

    /// Lets go of the engine. If other holders remain, nothing is due; the
    /// engine stays for them. Only the disposal of this very engine can be
    /// due.
    pub fn release(self) -> (call: Option<Call<'static>>)
        ensures
            call is None || call == Some(Call::DisposeExecutionEngine { engine: self.raw() }),
    {
        Self::on_release(Rc::try_unwrap(self.execution_engine))
    }
}

impl Clone for ExecutionEngine {
    /// One more holder of the same engine.
    fn clone(&self) -> (held: ExecutionEngine)
        ensures
            held == *self,
    {
        ExecutionEngine {
            execution_engine: self.execution_engine.clone(),
            jit_mode: self.jit_mode,
        }
    }
}

impl PartialEq for ExecutionEngine {
    /// Two engines are equal when they hold the same native engine in the
    /// same mode.
    fn eq(&self, other: &ExecutionEngine) -> (equal: bool) {
        *self.execution_engine == *other.execution_engine && self.jit_mode == other.jit_mode
    }
}

impl Eq for ExecutionEngine {

}

impl vstd::std_specs::cmp::PartialEqSpecImpl for ExecutionEngine {
    open spec fn obeys_eq_spec() -> bool {
        true
    }

    open spec fn eq_spec(&self, other: &ExecutionEngine) -> bool {
        self.raw() == other.raw() && self.jit_mode == other.jit_mode
    }
}

} // verus!
