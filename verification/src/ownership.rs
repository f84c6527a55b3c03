//! What holds of units and their native modules, whatever LLVM answers.

use crate::context::Context;
use crate::data_layout::DataLayout;
use crate::execution_engine::ExecutionEngine;
use crate::unit::{ModuleView, Owner};
use crate::native::{Call, Reply, Step, Violation};
use crate::support::LLVMString;
use crate::OptimizationLevel;
use vstd::prelude::*;

verus! {

/// How many times `call` stands in `calls`.
pub open spec fn times(calls: Seq<Call<'static>>, call: Call<'static>) -> nat
    decreases calls.len(),
{
    if calls.len() == 0 {
        0
    } else {
        let before = times(calls.drop_last(), call);
        if calls.last() == call {
            before + 1
        } else {
            before
        }
    }
}

/// How many of `calls` dispose of the native module `module`.
pub open spec fn module_disposals(calls: Seq<Call<'static>>, module: usize) -> nat {
    times(calls, Call::DisposeModule { module })
}

/// How many of `calls` dispose of the execution engine `engine`.
pub open spec fn engine_disposals(calls: Seq<Call<'static>>, engine: usize) -> nat {
    times(calls, Call::DisposeExecutionEngine { engine })
}

/// How many of `calls` dispose of the context `context`.
pub open spec fn context_disposals(calls: Seq<Call<'static>>, context: usize) -> nat {
    times(calls, Call::ContextDispose { context })
}

/// Whether `reply` is the validator saying that a unit is not valid.
pub open spec fn says_invalid(reply: Reply) -> bool {
    reply matches Reply::Outcome { code, message, .. } && code == 1 && message != 0
}

/// Whether `reply` is LLVM saying that it made an execution engine.
pub open spec fn says_engine_made(reply: Reply) -> bool {
    reply matches Reply::Outcome { code, .. } && code != 1
}

proof fn times_in_short_lists(a: Seq<Call<'static>>, b: Seq<Call<'static>>, call: Call<'static>)
    requires
        a.len() <= 1,
        b.len() <= 1,
    ensures
        times(a + b, call) == times(a, call) + times(b, call),
        a.len() == 0 ==> times(a, call) == 0,
        a.len() == 1 ==> times(a, call) == if a[0] == call {
            1nat
        } else {
            0nat
        },
        b.len() == 0 ==> times(b, call) == 0,
        b.len() == 1 ==> times(b, call) == if b[0] == call {
            1nat
        } else {
            0nat
        },
{
    let none = Seq::<Call<'static>>::empty();
    assert(times(none, call) == 0);
    if a.len() == 1 {
        assert(a.drop_last() =~= none);
    }
    if b.len() == 0 {
        assert(a + b =~= a);
    } else {
        assert(b.drop_last() =~= none);
        assert((a + b).drop_last() =~= a);
        assert((a + b).last() == b.last());
    }
}

/// At any time exactly one of the two is to dispose of a unit's native
/// module: the unit, while no engine was made from it; the engine from
/// then on.
pub proof fn one_owner_at_any_time(unit: ModuleView)
    ensures
        unit.owner() is Unit <==> unit.owned_by_ee is None,
        unit.owner() matches Owner::Engine(engine) ==> unit.owned_by_ee == Some(engine),
{
}

/// A unit that no engine owns disposes of its native module exactly once
/// when it goes away, before anything else, and of no other module.
pub proof fn unit_disposes_of_its_module_once(
    unit: ModuleView,
    engine_last: bool,
    context_last: bool,
    other: usize,
)
    requires
        unit.owned_by_ee is None,
        other != unit.module,
    ensures
        module_disposals(unit.disposal(engine_last, context_last), unit.module) == 1,
        unit.disposal(engine_last, context_last)[0] == (Call::DisposeModule {
            module: unit.module,
        }),
        module_disposals(unit.disposal(engine_last, context_last), other) == 0,
{
    let first = seq![Call::DisposeModule { module: unit.module }];
    let second = match unit.non_global_context {
        Some(context) if context_last => seq![Call::ContextDispose { context: context.raw() }],
        _ => seq![],
    };
    assert(unit.disposal(engine_last, context_last) == first + second);
    times_in_short_lists(first, second, Call::DisposeModule { module: unit.module });
    times_in_short_lists(first, second, Call::DisposeModule { module: other });
}

/// A unit that an engine owns disposes of no native module when it goes
/// away. It disposes of the engine if it was the engine's last holder, and
/// never else.
pub proof fn owned_unit_leaves_its_module_to_the_engine(
    unit: ModuleView,
    engine_last: bool,
    context_last: bool,
    module: usize,
)
    requires
        unit.owned_by_ee is Some,
    ensures
        module_disposals(unit.disposal(engine_last, context_last), module) == 0,
        engine_disposals(
            unit.disposal(engine_last, context_last),
            unit.owned_by_ee->0.raw(),
        ) == if engine_last {
            1nat
        } else {
            0nat
        },
{
    let engine = unit.owned_by_ee->0;
    let first: Seq<Call<'static>> = if engine_last {
        seq![Call::DisposeExecutionEngine { engine: engine.raw() }]
    } else {
        seq![]
    };
    let second = match unit.non_global_context {
        Some(context) if context_last => seq![Call::ContextDispose { context: context.raw() }],
        _ => seq![],
    };
    assert(unit.disposal(engine_last, context_last) == first + second);
    times_in_short_lists(first, second, Call::DisposeModule { module });
    times_in_short_lists(first, second, Call::DisposeExecutionEngine { engine: engine.raw() });
}

/// A unit disposes of the context that it was made in only as the
/// context's last holder, and then after everything else, so that the
/// context outlives the unit's native module. A unit of the global context
/// disposes of no context.
pub proof fn context_goes_last(
    unit: ModuleView,
    engine_last: bool,
    context_last: bool,
    context: usize,
)
    ensures
        unit.non_global_context is None ==> context_disposals(
            unit.disposal(engine_last, context_last),
            context,
        ) == 0,
        unit.non_global_context matches Some(held) ==> context_disposals(
            unit.disposal(engine_last, context_last),
            context,
        ) == if context_last && held.raw() == context {
            1nat
        } else {
            0nat
        },
        unit.non_global_context is Some && context_last ==> unit.disposal(
            engine_last,
            context_last,
        ).last() == (Call::ContextDispose { context: unit.non_global_context->0.raw() }),
{
    let first: Seq<Call<'static>> = match unit.owned_by_ee {
        None => seq![Call::DisposeModule { module: unit.module }],
        Some(engine) => if engine_last {
            seq![Call::DisposeExecutionEngine { engine: engine.raw() }]
        } else {
            seq![]
        },
    };
    let second = match unit.non_global_context {
        Some(held) if context_last => seq![Call::ContextDispose { context: held.raw() }],
        _ => seq![],
    };
    assert(unit.disposal(engine_last, context_last) == first + second);
    times_in_short_lists(first, second, Call::ContextDispose { context });
}

/// Once LLVM has made an execution engine from a unit, of whichever kind,
/// the engine that the caller gets owns the unit's native module, and the
/// unit disposes of no native module when it goes away.
pub proof fn engine_takes_the_module_over(
    unit: ModuleView,
    opt_level: OptimizationLevel,
    replies: Seq<Reply>,
    engine_last: bool,
    context_last: bool,
    module: usize,
)
    requires
        replies.len() > 0,
        says_engine_made(replies[0]),
    ensures
        unit.create_execution_engine(replies) matches Step::Finished(Ok(engine))
            && unit.after_engine(unit.create_execution_engine(replies)).owner() == Owner::Engine(
            engine,
        ),
        unit.create_interpreter_execution_engine(replies) matches Step::Finished(Ok(engine))
            && unit.after_engine(unit.create_interpreter_execution_engine(replies)).owner()
            == Owner::Engine(engine),
        unit.create_jit_execution_engine(opt_level, replies) matches Step::Finished(Ok(engine))
            && unit.after_jit(replies).owner() == Owner::Engine(engine),
        module_disposals(
            unit.after_engine(unit.create_execution_engine(replies)).disposal(
                engine_last,
                context_last,
            ),
            module,
        ) == 0,
        module_disposals(
            unit.after_engine(unit.create_interpreter_execution_engine(replies)).disposal(
                engine_last,
                context_last,
            ),
            module,
        ) == 0,
        module_disposals(unit.after_jit(replies).disposal(engine_last, context_last), module) == 0,
{
    owned_unit_leaves_its_module_to_the_engine(
        unit.after_engine(unit.create_execution_engine(replies)),
        engine_last,
        context_last,
        module,
    );
    owned_unit_leaves_its_module_to_the_engine(
        unit.after_engine(unit.create_interpreter_execution_engine(replies)),
        engine_last,
        context_last,
        module,
    );
    owned_unit_leaves_its_module_to_the_engine(
        unit.after_jit(replies),
        engine_last,
        context_last,
        module,
    );
}

/// An engine that owns a unit's native module keeps it: nothing that is
/// done to the unit afterwards gives the module back to the unit.
pub proof fn engine_slot_is_never_cleared(
    unit: ModuleView,
    made: Step<'static, Result<ExecutionEngine, LLVMString>>,
    replies: Seq<Reply>,
)
    requires
        unit.owned_by_ee is Some,
    ensures
        unit.after_engine(made).owned_by_ee is Some,
        unit.after_jit(replies).owned_by_ee is Some,
        unit.after_layout(replies).owned_by_ee is Some,
{
}

/// When LLVM cannot make a just-in-time engine, the failure is reported
/// only once the unit is around a native module that LLVM has just made
/// for it by cloning, with that module's data layout. On the way no call
/// is made but the validation and the cloning of the unit and the query
/// for a data layout. The unit's context and the engine that owns it, if
/// there is one, stay as they were. Until the failure is reported the unit
/// is as it was.
pub proof fn failed_jit_leaves_a_unit_of_its_own(
    unit: ModuleView,
    opt_level: OptimizationLevel,
    replies: Seq<Reply>,
)
    requires
        unit.wf(),
        replies.len() > 0,
        replies[0] matches Reply::Outcome { code, .. } && code == 1,
    ensures
        unit.create_jit_execution_engine(opt_level, replies) matches Step::Finished(made) ==> {
            &&& made == Err::<ExecutionEngine, LLVMString>(LLVMString { ptr: replies[0]->message })
            &&& replies.len() >= 4
            &&& unit.verify(replies.skip(1)) == Step::<Result<(), LLVMString>>::Finished(Ok(()))
            &&& replies[2] == Reply::Handle(unit.after_jit(replies).module)
            &&& unit.after_jit(replies).module != 0
            &&& unit.after_jit(replies).data_layout == (DataLayout {
                ptr: replies[3]->Handle_0,
                parent: Some(unit.after_jit(replies).module),
            })
            &&& unit.after_jit(replies).owned_by_ee == unit.owned_by_ee
            &&& unit.after_jit(replies).non_global_context == unit.non_global_context
        },
        unit.create_jit_execution_engine(opt_level, replies) matches Step::Perform(call) ==> {
            ||| call matches Call::VerifyModule { module, .. } && module == unit.module
            ||| call == (Call::CloneModule { module: unit.module })
            ||| call matches Call::GetDataLayoutStr { .. }
        },
        !(unit.create_jit_execution_engine(opt_level, replies) is Finished) ==> unit.after_jit(
            replies,
        ) == unit,
        unit.after_jit(replies).wf(),
{
    let rest = replies.skip(1);
    if rest.len() > 0 {
        assert(rest[0] == replies[1]);
    }
    if rest.len() > 1 {
        assert(rest.skip(1)[0] == replies[2]);
        assert(rest[1] == replies[2]);
    }
    if rest.len() > 2 {
        assert(rest.skip(2)[0] == replies[3]);
    }
}

/// A unit that does not pass the validator is never cloned: the operation
/// stops with the validator's message, and the call that clones is not
/// made.
pub proof fn invalid_unit_is_never_cloned(unit: ModuleView, replies: Seq<Reply>)
    requires
        replies.len() > 0,
        says_invalid(replies[0]),
    ensures
        unit.clone(replies) == Step::<ModuleView>::Abort(
            Violation::InvalidModule(LLVMString { ptr: replies[0]->message }),
        ),
{
}

/// The call that clones a native module is made only of a unit that the
/// validator has just passed.
pub proof fn only_valid_units_are_cloned(unit: ModuleView, replies: Seq<Reply>)
    requires
        unit.clone(replies) matches Step::Perform(call) && call is CloneModule,
    ensures
        replies.len() == 1,
        unit.verify(replies) == Step::<Result<(), LLVMString>>::Finished(Ok(())),
        unit.clone(replies) == Step::<ModuleView>::Perform(
            Call::CloneModule { module: unit.module },
        ),
{
    if replies.len() > 1 {
        assert(replies.skip(1)[0] == replies[1]);
    }
}

/// A clone is a unit of its own: around the native module that LLVM made,
/// in the context of the unit cloned, with a current data layout, and
/// owned by no engine, whoever owns the unit cloned.
pub proof fn clone_is_a_unit_of_its_own(unit: ModuleView, replies: Seq<Reply>)
    requires
        unit.clone(replies) is Finished,
    ensures
        unit.clone(replies)->Finished_0.wf(),
        unit.clone(replies)->Finished_0.owned_by_ee is None,
        unit.clone(replies)->Finished_0.non_global_context == unit.non_global_context,
        replies.len() >= 3,
        replies[1] == Reply::Handle(unit.clone(replies)->Finished_0.module),
{
    let rest = replies.skip(1);
    assert(rest[0] == replies[1]);
}

/// After its data layout was set, a unit holds the string that LLVM gave
/// in answer to the query that followed the setting, and no older one.
/// The unit is otherwise as before.
pub proof fn data_layout_is_never_stale(
    unit: ModuleView,
    data_layout: DataLayout,
    replies: Seq<Reply>,
)
    requires
        unit.wf(),
    ensures
        unit.after_layout(replies).wf(),
        unit.set_data_layout(data_layout, replies) is Finished ==> {
            &&& replies.len() >= 2
            &&& replies[1] is Handle
            &&& unit.after_layout(replies).data_layout == (DataLayout {
                ptr: replies[1]->Handle_0,
                parent: Some(unit.module),
            })
        },
        unit.set_data_layout(data_layout, replies) is Finished || unit.after_layout(replies)
            == unit,
        replies.len() == 1 && replies[0] is Unit ==> unit.set_data_layout(data_layout, replies)
            == Step::<()>::Perform(Call::GetDataLayoutStr { module: unit.module }),
        unit.after_layout(replies).module == unit.module,
        unit.after_layout(replies).owned_by_ee == unit.owned_by_ee,
        unit.after_layout(replies).non_global_context == unit.non_global_context,
{
    if replies.len() > 1 {
        assert(replies.skip(1)[0] == replies[1]);
    }
}

/// The list of metadata under a key is read into a buffer of the very
/// length that LLVM gave for the key just before, and comes back as long
/// as that, item for item in the order in which LLVM wrote it.
pub proof fn metadata_comes_as_counted<'a>(unit: ModuleView, key: &'a str, replies: Seq<Reply>)
    ensures
        unit.get_global_metadata(key, replies) matches Step::Perform(call) ==> {
            ||| replies.len() == 0 && call == (Call::GetNamedMetadataNumOperands {
                module: unit.module,
                key,
            })
            ||| replies.len() == 1 && unit.get_global_metadata_size(key, replies)
                == Step::<u32>::Finished(call->GetNamedMetadataOperands_count) && call == (
            Call::GetNamedMetadataOperands {
                module: unit.module,
                key,
                count: call->GetNamedMetadataOperands_count,
            })
        },
        unit.get_global_metadata(key, replies) matches Step::Finished(views) ==> {
            &&& replies.len() >= 2
            &&& replies[0] == Reply::Count(views.len() as u32)
            &&& replies[1] matches Reply::Handles(handles)
            &&& handles@.len() == views.len()
            &&& forall|i: int|
                0 <= i < views.len() ==> (#[trigger] views[i]).metadata_value == handles@[i]
        },
{
    if replies.len() > 1 {
        assert(replies.skip(1)[0] == replies[1]);
    }
}

/// A parse from a bitcode file finishes only after the buffer that the
/// file was read into has been handed back to LLVM, whether the bitcode
/// could be parsed or not: with the answers up to the end of the parse,
/// the call that is due frees that buffer.
pub proof fn file_buffer_is_freed<'a>(path: &'a str, context: Context, replies: Seq<Reply>)
    requires
        replies.len() > 0,
        replies[0] matches Reply::Outcome { code, handle, .. } && code == 0 && handle != 0,
    ensures
        ModuleView::parse_bitcode_from_path(path, replies) is Finished ==> {
            let parse = 1 + ModuleView::parse_length(replies.skip(1));
            &&& replies.len() > parse
            &&& ModuleView::parse_bitcode_from_path(path, replies.take(parse)) == Step::<
                Result<ModuleView, LLVMString>,
            >::Perform(Call::DisposeMemoryBuffer { buffer: replies[0]->handle })
        },
        ModuleView::parse_bitcode_from_path_in_context(path, context, replies) is Finished ==> {
            let parse = 1 + ModuleView::parse_length(replies.skip(1));
            &&& replies.len() > parse
            &&& ModuleView::parse_bitcode_from_path_in_context(
                path,
                context,
                replies.take(parse),
            ) == Step::<Result<ModuleView, LLVMString>>::Perform(
                Call::DisposeMemoryBuffer { buffer: replies[0]->handle },
            )
        },
{
    let rest = replies.skip(1);
    let parse = 1 + ModuleView::parse_length(rest);
    if replies.len() > parse {
        let short = replies.take(parse);
        assert(short[0] == replies[0]);
        assert(short.skip(1)[0] == replies[1]);
        assert(rest[0] == replies[1]);
        assert(ModuleView::parse_length(short.skip(1)) == parse - 1);
        assert(short.skip(parse).len() == 0);
        if parse == 3 {
            assert(rest.skip(1)[0] == replies[2]);
            assert(short.skip(1).skip(1)[0] == replies[2]);
        }
    } else if replies.len() > 1 {
        assert(rest[0] == replies[1]);
        if replies.len() > 2 {
            assert(rest.skip(1)[0] == replies[2]);
        }
        if replies.len() == parse {
            assert(replies.skip(parse).len() == 0);
        }
    }
}

/// A unit made in a context of its own keeps that context; a unit made in
/// the global context keeps none.
pub proof fn unit_keeps_its_context<'a>(name: &'a str, context: Context, replies: Seq<Reply>)
    ensures
        ModuleView::create(name, replies) matches Step::Finished(unit)
            ==> unit.non_global_context is None && unit.wf() && unit.owned_by_ee is None,
        ModuleView::create_in_context(name, context, replies) matches Step::Finished(unit)
            ==> unit.non_global_context == Some(context) && unit.wf() && unit.owned_by_ee is None,
{
}

} // verus!
