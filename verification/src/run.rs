//! Whole invocations: all the calls that one invocation makes for given
//! answers of the engine, and what holds of them.

use vstd::prelude::*;
use crate::engine::{calls_view, lemma_net_refs_concat, net_refs, Call, EngineCall};
use crate::error::{buffer_text, ErrorKind, VipsError};
use crate::image::VipsImage;
use crate::operator::{
    bind_all, built_calls, created_calls, created_fault, out_name, outcome_view, output_calls,
    output_result, plan, set_calls, ArgumentView, BindingView, Fault, Invocation,
};
use crate::value::GValueView;

verus! {

/// What the engine answers in the course of one invocation. An answer that
/// the invocation never asks for is not looked at.
#[derive(Debug)]
pub struct Answers {
    /// The handle of the operation, null where the engine makes none.
    pub operation: usize,
    /// The handle that the build returns, null where it fails.
    pub built: usize,
    /// The handle in the output property.
    pub out: usize,
    /// The bytes of the error buffer after a failed build.
    pub buffer: Vec<u8>,
}

/// The engine's answers as a mathematical value.
pub struct AnswersView {
    pub operation: usize,
    pub built: usize,
    pub out: usize,
    pub buffer: Seq<u8>,
}

impl View for Answers {
    type V = AnswersView;

    open spec fn view(&self) -> AnswersView {
        AnswersView {
            operation: self.operation,
            built: self.built,
            out: self.out,
            buffer: self.buffer@,
        }
    }
}

/// Whether the invocation gets as far as submitting the operation.
pub open spec fn reaches_build(plan: Result<Seq<BindingView>, Fault>, answers: AnswersView) -> bool {
    answers.operation != 0 && plan is Ok
}

/// All calls of an invocation, in order.
pub open spec fn run_calls(
    name: Seq<u8>,
    plan: Result<Seq<BindingView>, Fault>,
    answers: AnswersView,
) -> Seq<Call> {
    let asked = seq![Call::OperationNew { name }] + created_calls(plan, answers.operation);
    if !reaches_build(plan, answers) {
        asked
    } else if answers.built == 0 {
        asked + built_calls(answers.operation, answers.built)
    } else {
        asked + built_calls(answers.operation, answers.built) + output_calls(
            answers.built,
            answers.out,
        )
    }
}

/// The result of an invocation: the handle of the new image, or the failure.
pub open spec fn run_result(plan: Result<Seq<BindingView>, Fault>, answers: AnswersView) -> Result<
    usize,
    Fault,
> {
    match created_fault(plan, answers.operation) {
        Some(fault) => Err(fault),
        None => if answers.built == 0 {
            Err((ErrorKind::Engine, buffer_text(answers.buffer)))
        } else {
            output_result(answers.out)
        },
    }
}

fn append(calls: &mut Vec<EngineCall>, more: Vec<EngineCall>)
    ensures
        calls_view(final(calls)@) == calls_view(old(calls)@) + calls_view(more@),
{
    let mut more = more;
    let ghost before = calls_view(calls@);
    let ghost added = calls_view(more@);
    calls.append(&mut more);
    assert(calls_view(calls@) =~= before + added);
}

impl Invocation {
    /// Runs the invocation to its end against answers that are known
    /// beforehand, and gives all its calls in order with its result.
    pub fn run(self, answers: &Answers) -> (r: (Vec<EngineCall>, Result<VipsImage, VipsError>))
        ensures
            calls_view(r.0@) == run_calls(self@.name, self@.plan, answers@),
            outcome_view(r.1) == run_result(self@.plan, answers@),
    {
        let mut calls: Vec<EngineCall> = Vec::new();
        calls.push(self.request());
        assert(calls_view(calls@) =~= seq![Call::OperationNew { name: self@.name }]);
        let (more, submitted) = self.created(answers.operation);
        append(&mut calls, more);
        let submitted = match submitted {
            Ok(submitted) => submitted,
            Err(fault) => {
                return (calls, Err(fault));
            },
        };
        let (more, built) = submitted.built(answers.built);
        append(&mut calls, more);
        match built {
            None => (calls, Err(VipsError::new_from_vips_state(answers.buffer.as_slice()))),
            Some(built) => {
                let (more, result) = built.output(answers.out);
                append(&mut calls, more);
                assert(calls_view(calls@) =~= run_calls(self@.name, self@.plan, answers@));
                (calls, result)
            },
        }
    }
}

/// An argument that is absent is as good as left out: the bindings are those
/// of the list without it.
pub proof fn lemma_absent_argument_is_skipped(args: Seq<ArgumentView>, i: int)
    requires
        0 <= i < args.len(),
        args[i].value == Ok::<Option<GValueView>, Fault>(None),
    ensures
        bind_all(args) == bind_all(args.remove(i)),
    decreases args.len(),
{
    if i == args.len() - 1 {
        assert(args.remove(i) =~= args.drop_last());
    } else {
        assert(args.remove(i).drop_last() =~= args.drop_last().remove(i));
        assert(args.remove(i).last() == args.last());
        lemma_absent_argument_is_skipped(args.drop_last(), i);
    }
}

/// An invocation with an absent argument makes the calls, and has the result,
/// of the invocation without that argument.
pub proof fn lemma_absent_argument_same_run(
    name: Seq<u8>,
    input_name: Seq<u8>,
    input: usize,
    args: Seq<ArgumentView>,
    i: int,
    answers: AnswersView,
)
    requires
        0 <= i < args.len(),
        args[i].value == Ok::<Option<GValueView>, Fault>(None),
    ensures
        run_calls(name, plan(input_name, input, args), answers) == run_calls(
            name,
            plan(input_name, input, args.remove(i)),
            answers,
        ),
        run_result(plan(input_name, input, args), answers) == run_result(
            plan(input_name, input, args.remove(i)),
            answers,
        ),
{
    lemma_absent_argument_is_skipped(args, i);
}

/// Setting properties takes and gives up no reference.
pub proof fn lemma_set_calls_keep_refs(operation: usize, bindings: Seq<BindingView>, object: usize)
    ensures
        net_refs(set_calls(operation, bindings), object) == 0,
    decreases bindings.len(),
{
    if bindings.len() > 0 {
        assert(set_calls(operation, bindings).drop_last() =~= set_calls(
            operation,
            bindings.drop_last(),
        ));
        lemma_set_calls_keep_refs(operation, bindings.drop_last(), object);
    }
}

/// The change that a list of one call makes.
proof fn lemma_net_refs_one(call: Call, object: usize)
    ensures
        net_refs(seq![call], object) == call.ref_change(object),
{
    assert(seq![call].drop_last() =~= Seq::<Call>::empty());
    reveal_with_fuel(net_refs, 2);
}

/// The change that a list of calls followed by one more makes.
proof fn lemma_net_refs_push(calls: Seq<Call>, call: Call, object: usize)
    ensures
        net_refs(calls.push(call), object) == net_refs(calls, object) + call.ref_change(object),
{
    assert(calls.push(call).drop_last() =~= calls);
}

/// One if the two handles are the same, else zero.
pub open spec fn one_if(same: bool) -> int {
    if same {
        1
    } else {
        0
    }
}

/// Over a whole invocation the layer gives up exactly the references that it
/// was given, and takes exactly the one that it hands on: the operation and
/// the built operation are each released once, and the image of a successful
/// invocation gains the one reference that the returned handle stands for.
pub proof fn lemma_run_balances_references(
    name: Seq<u8>,
    plan: Result<Seq<BindingView>, Fault>,
    answers: AnswersView,
    object: usize,
)
    ensures
        net_refs(run_calls(name, plan, answers), object) == one_if(
            run_result(plan, answers) == Ok::<usize, Fault>(object),
        ) - one_if(answers.operation != 0 && object == answers.operation) - one_if(
            reaches_build(plan, answers) && answers.built != 0 && object == answers.built,
        ),
{
    let operation = answers.operation;
    let built = answers.built;
    let out = answers.out;
    let first = seq![Call::OperationNew { name }];
    let second = created_calls(plan, operation);
    lemma_net_refs_one(Call::OperationNew { name }, object);
    lemma_net_refs_concat(first, second, object);
    if operation == 0 {
        assert(second =~= Seq::<Call>::empty());
    } else {
        match plan {
            Err(_) => {
                lemma_net_refs_one(Call::ObjectUnref { object: operation }, object);
            },
            Ok(bindings) => {
                lemma_set_calls_keep_refs(operation, bindings, object);
                lemma_net_refs_push(
                    set_calls(operation, bindings),
                    Call::CacheOperationBuild { operation },
                    object,
                );
                let third = built_calls(operation, built);
                lemma_net_refs_concat(first + second, third, object);
                let release = Call::ObjectUnref { object: operation };
                lemma_net_refs_one(release, object);
                if built == 0 {
                    assert(third =~= seq![release].push(Call::ErrorBuffer));
                    lemma_net_refs_push(seq![release], Call::ErrorBuffer, object);
                } else {
                    let read = Call::GetProperty { object: built, name: out_name() };
                    assert(third =~= seq![release].push(read));
                    lemma_net_refs_push(seq![release], read, object);
                    let fourth = output_calls(built, out);
                    lemma_net_refs_concat(first + second + third, fourth, object);
                    let a = Call::ValueUnset;
                    let b = Call::UnrefOutputs { object: built };
                    let c = Call::ObjectUnref { object: built };
                    let releases = seq![a, b, c];
                    assert(releases =~= seq![a].push(b).push(c));
                    lemma_net_refs_one(a, object);
                    lemma_net_refs_push(seq![a], b, object);
                    lemma_net_refs_push(seq![a].push(b), c, object);
                    if out != 0 {
                        let take = Call::ObjectRef { object: out };
                        lemma_net_refs_one(take, object);
                        lemma_net_refs_concat(seq![take], releases, object);
                    }
                }
            },
        }
    }
}

/// The handle of an image that an invocation returns is never null.
pub proof fn lemma_result_is_an_image(plan: Result<Seq<BindingView>, Fault>, answers: AnswersView)
    ensures
        run_result(plan, answers) is Ok ==> run_result(plan, answers)->Ok_0 != 0,
{
}

/// After a failed build the error buffer is read before any call that could
/// fail in its turn and overwrite it, and it is the last call made.
pub proof fn lemma_error_buffer_read_before_failing_call(operation: usize)
    ensures
        built_calls(operation, 0).last() == Call::ErrorBuffer,
        forall|i: int|
            0 <= i < built_calls(operation, 0).len() ==> !(#[trigger] built_calls(operation, 0)[i]).can_fail(),
{
}

/// In an invocation whose build fails, the build is the last call that can
/// fail: after it the operation is released and the error buffer is read,
/// and nothing else is asked of the engine.
pub proof fn lemma_failed_build_ends_with_the_read(
    name: Seq<u8>,
    plan: Result<Seq<BindingView>, Fault>,
    answers: AnswersView,
)
    requires
        reaches_build(plan, answers),
        answers.built == 0,
    ensures
        ({
            let calls = run_calls(name, plan, answers);
            let n = calls.len();
            &&& n >= 3
            &&& calls[n - 3] == Call::CacheOperationBuild { operation: answers.operation }
            &&& calls[n - 2] == Call::ObjectUnref { object: answers.operation }
            &&& calls[n - 1] == Call::ErrorBuffer
        }),
{
}

} // verus!
