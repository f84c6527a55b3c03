//! Contexts: the scope in which LLVM keeps its types and constants unique.

use crate::module::Module;
use crate::native::{ask_handle, take_handle, Call, Reply, Step, Violation};
use crate::unit::ModuleView;
use std::rc::Rc;
use vstd::prelude::*;

verus! {

/// A context, held together with every other `Context` made from it by
/// `clone`. The last holder to let go disposes of the native context.
#[derive(Debug)]
pub struct Context {
    pub context: Rc<usize>,
}

impl Context {
    /// The handle of the native context.
    pub open spec fn raw(&self) -> usize {
        *self.context
    }

    /// A holder of the context behind `context`.
    pub fn new(context: Rc<usize>) -> (held: Context)
        ensures
            held.context == context,
    {
        Context { context }
    }

    /// The handle of the native context.
    pub fn as_ptr(&self) -> (context: usize)
        ensures
            context == self.raw(),
    {
        *self.context
    }

    /// How making a context proceeds: one call; LLVM never answers it with
    /// null.
    pub open spec fn creation(replies: Seq<Reply>) -> Step<'static, Context> {
        ask_handle(Call::ContextCreate, replies).and_then(
            |context: usize|
                if context == 0 {
                    Step::Abort(Violation::NullHandle)
                } else {
                    Step::Finished(Context { context: Rc::new(context) })
                },
        )
    }

    /// Makes a new context, with this value as its first holder.
    pub fn create(replies: &Vec<Reply>) -> (step: Step<'static, Context>)
        ensures
            step == Self::creation(replies@),
    {
        match take_handle(Call::ContextCreate, replies, 0) {
            Step::Perform(call) => Step::Perform(call),
            Step::Abort(violation) => Step::Abort(violation),
            Step::Finished(context) => {
                if context == 0 {
                    Step::Abort(Violation::NullHandle)
                } else {
                    Step::Finished(Context { context: Rc::new(context) })
                }
            },
        }
    }

    /// How asking for the global context proceeds: one call; the answer is
    /// wrapped as a view.
    pub open spec fn global_lookup(replies: Seq<Reply>) -> Step<'static, ContextRef> {
        ask_handle(Call::GetGlobalContext, replies).and_then(
            |context: usize|
                if context == 0 {
                    Step::Abort(Violation::NullHandle)
                } else {
                    Step::Finished(ContextRef { context: Context { context: Rc::new(context) } })
                },
        )
    }

    /// The context that LLVM keeps for the whole process. It comes as a
    /// view: nobody who asks for it disposes of it.
    pub fn get_global(replies: &Vec<Reply>) -> (step: Step<'static, ContextRef>)
        ensures
            step == Self::global_lookup(replies@),
    {
        match take_handle(Call::GetGlobalContext, replies, 0) {
            Step::Perform(call) => Step::Perform(call),
            Step::Abort(violation) => Step::Abort(violation),
            Step::Finished(context) => {
                if context == 0 {
                    Step::Abort(Violation::NullHandle)
                } else {
                    Step::Finished(ContextRef::new(Context { context: Rc::new(context) }))
                }
            },
        }
    }

    /// Makes a unit named `name` in this context. The unit becomes one
    /// more holder of the context, which therefore outlives it.
    pub fn create_module<'a>(&self, name: &'a str, replies: &Vec<Reply>) -> (step: Step<
        'a,
        Module,
    >)
        ensures
            step.map(|unit: Module| unit@) == ModuleView::create_in_context(
                name,
                *self,
                replies@,
            ),
    {
        Module::create_in_context(name, self, replies)
    }

    /// The call that is due when a holder lets go: the disposal of the
    /// context if it was the only holder left, which is when `Rc::try_unwrap`
    /// hands the handle out; else none.
    pub open spec fn disposal(last: Result<usize, Rc<usize>>) -> Option<Call<'static>> {
        match last {
            Ok(context) => Some(Call::ContextDispose { context }),
            Err(_) => None,
        }
    }

    /// Decides what is due from what `Rc::try_unwrap` said of a holder.
    pub fn on_release(last: Result<usize, Rc<usize>>) -> (call: Option<Call<'static>>)
        ensures
            call == Self::disposal(last),
    {
        match last {
            Ok(context) => Some(Call::ContextDispose { context }),
            Err(_) => None,
        }
    }

    /// Lets go of the context. If other holders remain, nothing is due; the
    /// context stays for them. Only the disposal of this very context can
    /// be due.
    pub fn release(self) -> (call: Option<Call<'static>>)
        ensures
            call is None || call == Some(Call::ContextDispose { context: self.raw() }),
    {
        Self::on_release(Rc::try_unwrap(self.context))
    }
}

impl Clone for Context {
    /// One more holder of the same context.
    fn clone(&self) -> (held: Context)
        ensures
            held == *self,
    {
        Context { context: self.context.clone() }
    }
}

impl PartialEq for Context {
    /// Two contexts are equal when they hold the same native context.
    fn eq(&self, other: &Context) -> (equal: bool) {
        *self.context == *other.context
    }
}

impl Eq for Context {

}

impl vstd::std_specs::cmp::PartialEqSpecImpl for Context {
    open spec fn obeys_eq_spec() -> bool {
        true
    }

    open spec fn eq_spec(&self, other: &Context) -> bool {
        self.raw() == other.raw()
    }
}

/// A view of a context that somebody else holds, such as the context that a
/// unit was made in. Letting go of a view disposes of nothing.
#[derive(Debug)]
pub struct ContextRef {
    pub context: Context,
}

impl ContextRef {
    /// The handle of the native context.
    pub open spec fn raw(&self) -> usize {
        self.context.raw()
    }

    /// A view of `context`.
    pub fn new(context: Context) -> (view: ContextRef)
        ensures
            view.context == context,
    {
        ContextRef { context }
    }

    /// The context viewed.
    pub fn as_context(&self) -> (context: &Context)
        ensures
            *context == self.context,
    {
        &self.context
    }

    /// Lets go of the view. Nothing is ever due: the context is somebody
    /// else's to dispose of, or the global one, which nobody disposes of.
    pub fn release(self) -> (call: Option<Call<'static>>)
        ensures
            call is None,
    {
        None
    }

    /// Whether this is a view of the context that `context` holds.
    pub fn is(&self, context: &Context) -> (same: bool)
        ensures
            same == (self.raw() == context.raw()),
    {
        *self.context.context == *context.context
    }
}

impl PartialEq for ContextRef {
    /// Two views are equal when they are views of the same native context.
    fn eq(&self, other: &ContextRef) -> (equal: bool) {
        *self.context.context == *other.context.context
    }
}

impl Eq for ContextRef {

}

impl vstd::std_specs::cmp::PartialEqSpecImpl for ContextRef {
    open spec fn obeys_eq_spec() -> bool {
        true
    }

    open spec fn eq_spec(&self, other: &ContextRef) -> bool {
        self.raw() == other.raw()
    }
}

} // verus!
