//! Operations: how a named operation with its arguments becomes a run of
//! engine calls, and how the engine's answers become an image or an error.

use vstd::prelude::*;
use vstd::string::*;
use crate::engine::{calls_view, Call, EngineCall};
use crate::error::{ErrorKind, VipsError};
use crate::image::{null_error, VipsImage};
use crate::text::{first_nul, has_nul, lemma_ascii_nul_free, nul_error_text, CText};
use crate::value::{GValue, GValueView, Marshaled, ToGValue, Value};

verus! {

/// A failure as a mathematical value.
pub type Fault = (ErrorKind, Seq<char>);

/// A named argument of an operation.
#[derive(Debug)]
pub struct Argument<'a> {
    pub name: &'a str,
    pub value: Value<'a>,
}

/// A named argument as a mathematical value: the bytes of its name and what
/// its value marshals to.
pub struct ArgumentView {
    pub name: Seq<u8>,
    pub value: Marshaled,
}

impl<'a> View for Argument<'a> {
    type V = ArgumentView;

    open spec fn view(&self) -> ArgumentView {
        ArgumentView { name: self.name.spec_bytes(), value: self.value.marshaled() }
    }
}

/// A property name with the generic value to set it to.
#[derive(Debug)]
pub struct Binding {
    pub name: CText,
    pub value: GValue,
}

/// A binding as a mathematical value.
pub struct BindingView {
    pub name: Seq<u8>,
    pub value: GValueView,
}

impl View for Binding {
    type V = BindingView;

    open spec fn view(&self) -> BindingView {
        BindingView { name: self.name@, value: self.value@ }
    }
}

/// The views of a list of arguments, in order.
pub open spec fn arguments_view(args: Seq<Argument>) -> Seq<ArgumentView> {
    Seq::new(args.len(), |i: int| args[i]@)
}

/// The views of a list of bindings, in order.
pub open spec fn bindings_view(bindings: Seq<Binding>) -> Seq<BindingView> {
    Seq::new(bindings.len(), |i: int| bindings[i]@)
}

/// What is said of a name that holds a zero byte.
pub open spec fn name_fault(name: Seq<u8>) -> Fault {
    (ErrorKind::Conversion, nul_error_text(first_nul(name) as nat))
}

/// The binding for one argument: none where the argument is absent, whatever
/// its name; a failure where the value does not marshal, or where it does and
/// the name holds a zero byte.
pub open spec fn bind_one(arg: ArgumentView) -> Result<Option<BindingView>, Fault> {
    match arg.value {
        Err(e) => Err(e),
        Ok(None) => Ok(None),
        Ok(Some(value)) => if has_nul(arg.name) {
            Err(name_fault(arg.name))
        } else {
            Ok(Some(BindingView { name: arg.name, value }))
        },
    }
}

/// The bindings for a list of arguments, in their order, or the failure of
/// the first argument that has one.
pub open spec fn bind_all(args: Seq<ArgumentView>) -> Result<Seq<BindingView>, Fault>
    decreases args.len(),
{
    if args.len() == 0 {
        Ok(seq![])
    } else {
        match bind_all(args.drop_last()) {
            Err(e) => Err(e),
            Ok(bound) => match bind_one(args.last()) {
                Err(e) => Err(e),
                Ok(None) => Ok(bound),
                Ok(Some(binding)) => Ok(bound.push(binding)),
            },
        }
    }
}

/// What is said of a primary input that is no image.
pub open spec fn input_fault() -> Fault {
    (ErrorKind::Marshal, "Failed to convert input image to GValue"@)
}

/// All bindings of an operation: the primary input under its property name,
/// then the arguments. The primary input must be an image and its property
/// name free of zero bytes; failures come in this order.
pub open spec fn plan(input_name: Seq<u8>, input: usize, args: Seq<ArgumentView>) -> Result<
    Seq<BindingView>,
    Fault,
> {
    if input == 0 {
        Err(input_fault())
    } else if has_nul(input_name) {
        Err(name_fault(input_name))
    } else {
        match bind_all(args) {
            Err(e) => Err(e),
            Ok(bound) => Ok(
                seq![BindingView { name: input_name, value: GValueView::Object(input) }] + bound,
            ),
        }
    }
}

/// The view of a plan as it is held.
pub open spec fn plan_view(held: Result<Vec<Binding>, VipsError>) -> Result<
    Seq<BindingView>,
    Fault,
> {
    match held {
        Ok(bindings) => Ok(bindings_view(bindings@)),
        Err(e) => Err(e@),
    }
}

/// Marshals the primary input and the arguments into bindings.
pub fn make_plan(input_name: &str, input: &VipsImage, args: &[Argument]) -> (held: Result<
    Vec<Binding>,
    VipsError,
>)
    ensures
        plan_view(held) == plan(input_name.spec_bytes(), input.ptr, arguments_view(args@)),
{
    let first = match input.to_gvalue() {
        Ok(Some(value)) => value,
        _ => {
            return Err(
                VipsError::with_kind(
                    ErrorKind::Marshal,
                    "Failed to convert input image to GValue",
                ),
            );
        },
    };
    let first_name = match CText::new(input_name) {
        Ok(name) => name,
        Err(e) => { return Err(e); },
    };
    let mut bindings: Vec<Binding> = Vec::new();
    bindings.push(Binding { name: first_name, value: first });
    let ghost head = bindings_view(bindings@);
    let ghost views = arguments_view(args@);
    let mut i: usize = 0;
    assert(views.take(0) =~= Seq::<ArgumentView>::empty());
    assert(bindings_view(bindings@) =~= head + Seq::<BindingView>::empty());
    while i < args.len()
        invariant
            i <= args@.len(),
            views == arguments_view(args@),
            head == seq![
                BindingView { name: input_name.spec_bytes(), value: GValueView::Object(input.ptr) },
            ],
            input.ptr != 0,
            !has_nul(input_name.spec_bytes()),
            bind_all(views.take(i as int)) is Ok,
            bindings_view(bindings@) == head + bind_all(views.take(i as int))->Ok_0,
        decreases args@.len() - i,
    {
        let ghost before = bindings_view(bindings@);
        proof {
            assert(views.take(i + 1).drop_last() =~= views.take(i as int));
            assert(views.take(i + 1).last() == views[i as int]);
            assert(views[i as int] == args@[i as int]@);
        }
        match args[i].value.to_gvalue() {
            Err(e) => {
                proof {
                    lemma_bind_all_prefix_fault(views, i + 1);
                }
                return Err(e);
            },
            Ok(None) => {},
            Ok(Some(value)) => {
                match CText::new(args[i].name) {
                    Err(e) => {
                        proof {
                            lemma_bind_all_prefix_fault(views, i + 1);
                        }
                        return Err(e);
                    },
                    Ok(name) => {
                        bindings.push(Binding { name, value });
                        assert(bindings_view(bindings@) =~= before.push(
                            bind_one(views[i as int])->Ok_0->Some_0,
                        ));
                    },
                }
            },
        }
        i += 1;
        assert(bindings_view(bindings@) =~= head + bind_all(views.take(i as int))->Ok_0);
    }
    assert(views.take(i as int) =~= views);
    Ok(bindings)
}

/// A failure among the first arguments is the failure of the whole list.
pub proof fn lemma_bind_all_prefix_fault(args: Seq<ArgumentView>, n: int)
    requires
        0 <= n <= args.len(),
        bind_all(args.take(n)) is Err,
    ensures
        bind_all(args) == bind_all(args.take(n)),
    decreases args.len() - n,
{
    if n == args.len() {
        assert(args.take(n) =~= args);
    } else {
        assert(args.take(n + 1).drop_last() =~= args.take(n));
        lemma_bind_all_prefix_fault(args, n + 1);
    }
}

/// An operation that is ready to be asked of the engine: its name, and the
/// bindings to make on it. What the engine answers to its request decides
/// how the invocation goes on.
#[derive(Debug)]
pub struct Invocation {
    name: CText,
    plan: Result<Vec<Binding>, VipsError>,
}

/// An invocation as a mathematical value.
pub struct InvocationView {
    /// The name of the operation.
    pub name: Seq<u8>,
    /// The bindings to make, or why they cannot be made.
    pub plan: Result<Seq<BindingView>, Fault>,
}

impl View for Invocation {
    type V = InvocationView;

    closed spec fn view(&self) -> InvocationView {
        InvocationView { name: self.name@, plan: plan_view(self.plan) }
    }
}

/// An invocation whose operation has been configured and submitted. It
/// waits for the handle that the build returns.
#[derive(Debug)]
pub struct Submitted {
    operation: usize,
}

impl Submitted {
    /// The handle of the operation.
    pub closed spec fn operation(&self) -> usize {
        self.operation
    }
}

/// An invocation whose operation has been built. It waits for the handle in
/// the output property.
#[derive(Debug)]
pub struct Built {
    built: usize,
}

impl Built {
    /// The handle of the built operation.
    pub closed spec fn built(&self) -> usize {
        self.built
    }
}

/// The view of a result.
pub open spec fn outcome_view(result: Result<VipsImage, VipsError>) -> Result<usize, Fault> {
    match result {
        Ok(image) => Ok(image.ptr),
        Err(e) => Err(e@),
    }
}

/// The name of the property that holds the result of an operation: `out`.
pub open spec fn out_name() -> Seq<u8> {
    seq![0x6fu8, 0x75u8, 0x74u8]
}

/// What is said where the engine makes no operation.
pub open spec fn creation_fault() -> Fault {
    (ErrorKind::Creation, "Could not create operation"@)
}

/// The calls that set the bindings on an operation, in order.
pub open spec fn set_calls(operation: usize, bindings: Seq<BindingView>) -> Seq<Call> {
    Seq::new(
        bindings.len(),
        |i: int|
            Call::SetProperty {
                object: operation,
                name: bindings[i].name,
                value: bindings[i].value,
            },
    )
}

/// The calls that follow the engine's answer to the request for the
/// operation. No operation: none. An operation that cannot be configured is
/// released. Otherwise it is configured and submitted.
pub open spec fn created_calls(plan: Result<Seq<BindingView>, Fault>, operation: usize) -> Seq<
    Call,
> {
    if operation == 0 {
        seq![]
    } else {
        match plan {
            Err(_) => seq![Call::ObjectUnref { object: operation }],
            Ok(bindings) => set_calls(operation, bindings).push(
                Call::CacheOperationBuild { operation },
            ),
        }
    }
}

/// The failure, if any, after the engine's answer to the request for the
/// operation: no operation, or an operation that cannot be configured.
pub open spec fn created_fault(plan: Result<Seq<BindingView>, Fault>, operation: usize) -> Option<
    Fault,
> {
    if operation == 0 {
        Some(creation_fault())
    } else {
        match plan {
            Err(e) => Some(e),
            Ok(_) => None,
        }
    }
}

/// The calls that follow the engine's answer to the build. The operation is
/// released whatever the answer. After a failure the error buffer is read;
/// after a success the output property.
pub open spec fn built_calls(operation: usize, built: usize) -> Seq<Call> {
    if built == 0 {
        seq![Call::ObjectUnref { object: operation }, Call::ErrorBuffer]
    } else {
        seq![
            Call::ObjectUnref { object: operation },
            Call::GetProperty { object: built, name: out_name() },
        ]
    }
}

/// The calls that follow the handle read from the output property. The image
/// gets a reference for the handle that is returned; then the value that was
/// read, the outputs of the built operation and the built operation itself
/// are released, whether or not there is an image.
pub open spec fn output_calls(built: usize, out: usize) -> Seq<Call> {
    let releases = seq![
        Call::ValueUnset,
        Call::UnrefOutputs { object: built },
        Call::ObjectUnref { object: built },
    ];
    if out == 0 {
        releases
    } else {
        seq![Call::ObjectRef { object: out }] + releases
    }
}

/// The result for the handle read from the output property.
pub open spec fn output_result(out: usize) -> Result<usize, Fault> {
    if out == 0 {
        Err(null_error())
    } else {
        Ok(out)
    }
}

impl Invocation {
    /// An invocation of the operation `name` on the primary input `input`,
    /// bound under `input_name`, with the arguments `args`.
    pub fn new(name: CText, input_name: &str, input: &VipsImage, args: &[Argument]) -> (inv:
        Invocation)
        ensures
            inv@ == fresh(
                name@,
                plan(input_name.spec_bytes(), input.ptr, arguments_view(args@)),
            ),
    {
        let plan = make_plan(input_name, input, args);
        Invocation { name, plan }
    }

    /// The same for a name given as text. A name that holds a zero byte is
    /// refused before anything is asked of the engine.
    pub fn begin(name: &str, input_name: &str, input: &VipsImage, args: &[Argument]) -> (r: Result<
        Invocation,
        VipsError,
    >)
        ensures
            r is Ok <==> !has_nul(name.spec_bytes()),
            r is Ok ==> r->Ok_0@ == fresh(
                name.spec_bytes(),
                plan(input_name.spec_bytes(), input.ptr, arguments_view(args@)),
            ),
            r is Err ==> r->Err_0@ == name_fault(name.spec_bytes()),
    {
        match CText::new(name) {
            Ok(name) => Ok(Invocation::new(name, input_name, input, args)),
            Err(e) => Err(e),
        }
    }

    /// The first call: the request for the operation. Its answer goes to
    /// `created`.
    pub fn request(&self) -> (call: EngineCall)
        ensures
            call@ == (Call::OperationNew { name: self@.name }),
    {
        EngineCall::OperationNew { name: self.name.duplicate() }
    }

    /// Takes the handle of the operation. Gives the calls to make now and
    /// how the invocation goes on: it has failed, or it waits for the answer
    /// to the last of the calls, the build.
    pub fn created(self, operation: usize) -> (r: (Vec<EngineCall>, Result<Submitted, VipsError>))
        ensures
            calls_view(r.0@) == created_calls(self@.plan, operation),
            match created_fault(self@.plan, operation) {
                Some(fault) => r.1 is Err && r.1->Err_0@ == fault,
                None => r.1 is Ok && r.1->Ok_0.operation() == operation,
            },
    {
        let mut calls: Vec<EngineCall> = Vec::new();
        if operation == 0 {
            assert(calls_view(calls@) =~= created_calls(self@.plan, operation));
            return (
                calls,
                Err(VipsError::with_kind(ErrorKind::Creation, "Could not create operation")),
            );
        }
        match self.plan {
            Err(fault) => {
                calls.push(EngineCall::ObjectUnref { object: operation });
                assert(calls_view(calls@) =~= created_calls(self@.plan, operation));
                (calls, Err(fault))
            },
            Ok(bindings) => {
                let ghost views = bindings_view(bindings@);
                let mut i: usize = 0;
                while i < bindings.len()
                    invariant
                        i <= bindings@.len(),
                        views == bindings_view(bindings@),
                        calls_view(calls@) =~= set_calls(operation, views).take(i as int),
                    decreases bindings@.len() - i,
                {
                    let ghost before = calls_view(calls@);
                    calls.push(
                        EngineCall::SetProperty {
                            object: operation,
                            name: bindings[i].name.duplicate(),
                            value: bindings[i].value.duplicate(),
                        },
                    );
                    assert(calls_view(calls@) =~= before.push(set_calls(operation, views)[i as int]));
                    i += 1;
                }
                let ghost before = calls_view(calls@);
                calls.push(EngineCall::CacheOperationBuild { operation });
                assert(calls_view(calls@) =~= before.push(Call::CacheOperationBuild { operation }));
                assert(set_calls(operation, views).take(i as int) =~= set_calls(operation, views));
                (calls, Ok(Submitted { operation }))
            },
        }
    }
}

impl Submitted {
    /// Takes the handle that the build returned. Gives the calls to make
    /// now. After a failed build the last of them reads the error buffer,
    /// and its bytes make the failure of the invocation: see
    /// `VipsError::new_from_vips_state`. After a successful build the last
    /// of them reads the output property, and the invocation waits for the
    /// handle in it.
    pub fn built(self, built: usize) -> (r: (Vec<EngineCall>, Option<Built>))
        ensures
            calls_view(r.0@) == built_calls(self.operation(), built),
            built == 0 ==> r.1 is None,
            built != 0 ==> r.1 is Some && r.1->Some_0.built() == built,
    {
        let mut calls: Vec<EngineCall> = Vec::new();
        calls.push(EngineCall::ObjectUnref { object: self.operation });
        if built == 0 {
            calls.push(EngineCall::ErrorBuffer);
            assert(calls_view(calls@) =~= built_calls(self.operation(), built));
            (calls, None)
        } else {
            calls.push(EngineCall::GetProperty { object: built, name: out_text() });
            assert(calls_view(calls@) =~= built_calls(self.operation(), built));
            (calls, Some(Built { built }))
        }
    }
}

impl Built {
    /// Takes the handle read from the output property. Gives the last calls
    /// to make and the result of the invocation.
    pub fn output(self, out: usize) -> (r: (Vec<EngineCall>, Result<VipsImage, VipsError>))
        ensures
            calls_view(r.0@) == output_calls(self.built(), out),
            outcome_view(r.1) == output_result(out),
    {
        let mut calls: Vec<EngineCall> = Vec::new();
        let image = VipsImage::from_c_ptr(out);
        if out != 0 {
            calls.push(EngineCall::ObjectRef { object: out });
        }
        calls.push(EngineCall::ValueUnset);
        calls.push(EngineCall::UnrefOutputs { object: self.built });
        calls.push(EngineCall::ObjectUnref { object: self.built });
        assert(calls_view(calls@) =~= output_calls(self.built(), out));
        (calls, image)
    }
}

/// A fresh invocation as a mathematical value.
pub open spec fn fresh(name: Seq<u8>, plan: Result<Seq<BindingView>, Fault>) -> InvocationView {
    InvocationView { name, plan }
}

/// An argument as a mathematical value, by its name as text.
pub open spec fn argument(name: &str, value: Marshaled) -> ArgumentView {
    ArgumentView { name: name.spec_bytes(), value }
}

/// A binding as a mathematical value, by its name as text.
pub open spec fn bound(name: &str, value: GValueView) -> BindingView {
    BindingView { name: name.spec_bytes(), value }
}

/// The binding of a value that may be absent: one binding, or none.
pub open spec fn present(name: &str, value: Option<GValueView>) -> Seq<BindingView> {
    match value {
        Some(value) => seq![bound(name, value)],
        None => seq![],
    }
}

/// What an image marshals to: its handle, or nothing where there is no image.
pub open spec fn image_value(ptr: usize) -> Option<GValueView> {
    if ptr == 0 {
        None
    } else {
        Some(GValueView::Object(ptr))
    }
}

/// The bindings of an operation on the image `input`, bound under
/// `input_name`, followed by the bindings `rest`. Without an image there are
/// none.
pub open spec fn bindings_on(input_name: &str, input: usize, rest: Seq<BindingView>) -> Result<
    Seq<BindingView>,
    Fault,
> {
    if input == 0 {
        Err(input_fault())
    } else {
        Ok(seq![bound(input_name, GValueView::Object(input))] + rest)
    }
}

/// An argument whose value marshals, under a name without a zero byte, adds
/// its binding to those of the arguments before it, if it is present.
pub proof fn lemma_bind_all_push_present(
    args: Seq<ArgumentView>,
    before: Seq<BindingView>,
    name: &str,
    value: Option<GValueView>,
)
    requires
        bind_all(args) == Ok::<Seq<BindingView>, Fault>(before),
        !has_nul(name.spec_bytes()),
    ensures
        bind_all(args.push(argument(name, Ok(value)))) == Ok::<Seq<BindingView>, Fault>(
            before + present(name, value),
        ),
{
    let arg = argument(name, Ok(value));
    assert(args.push(arg).drop_last() =~= args);
    match value {
        Some(v) => {
            assert(before + present(name, value) =~= before.push(bound(name, v)));
        },
        None => {
            assert(before + present(name, value) =~= before);
        },
    }
}

/// An argument whose value does not marshal makes the bindings fail, unless
/// an argument before it has done so.
pub proof fn lemma_bind_all_push_fault(
    args: Seq<ArgumentView>,
    before: Seq<BindingView>,
    name: &str,
    fault: Fault,
)
    requires
        bind_all(args) == Ok::<Seq<BindingView>, Fault>(before),
    ensures
        bind_all(args.push(argument(name, Err(fault)))) == Err::<Seq<BindingView>, Fault>(fault),
{
    let arg = argument(name, Err(fault));
    assert(args.push(arg).drop_last() =~= args);
}

/// The plan of an operation whose arguments all marshal.
pub proof fn lemma_plan_bindings_on(
    input_name: &str,
    input: usize,
    args: Seq<ArgumentView>,
    rest: Seq<BindingView>,
)
    requires
        bind_all(args) == Ok::<Seq<BindingView>, Fault>(rest),
        !has_nul(input_name.spec_bytes()),
    ensures
        plan(input_name.spec_bytes(), input, args) == bindings_on(input_name, input, rest),
{
}

/// The name of an operation that is written in ASCII letters and digits.
pub fn ascii_name(text: &str) -> (name: CText)
    requires
        is_ascii(text),
        forall|i: int| 0 <= i < text@.len() ==> text@[i] != '\0',
    ensures
        name@ == text.spec_bytes(),
{
    proof {
        lemma_ascii_nul_free(text);
    }
    CText::from_nul_free(text)
}

/// The property names `in`, `left` and `right` hold no zero byte.
pub proof fn lemma_input_names_nul_free()
    ensures
        !has_nul("in".spec_bytes()),
        !has_nul("left".spec_bytes()),
        !has_nul("right".spec_bytes()),
{
    reveal_strlit("in");
    reveal_strlit("left");
    reveal_strlit("right");
    lemma_ascii_nul_free("in");
    lemma_ascii_nul_free("left");
    lemma_ascii_nul_free("right");
}

impl VipsImage {
    /// An invocation of the operation `name`, which takes this image as `in`
    /// and nothing else. A name that holds a zero byte is refused.
    pub fn operation(&self, name: &str) -> (r: Result<Invocation, VipsError>)
        ensures
            r is Ok <==> !has_nul(name.spec_bytes()),
            r is Ok ==> r->Ok_0@ == fresh(name.spec_bytes(), bindings_on("in", self.ptr, seq![])),
            r is Err ==> r->Err_0@ == name_fault(name.spec_bytes()),
    {
        let args: [Argument; 0] = [];
        proof {
            assert(arguments_view(args@) =~= seq![]);
            lemma_input_names_nul_free();
            lemma_plan_bindings_on("in", self.ptr, seq![], seq![]);
        }
        Invocation::begin(name, "in", self, &args)
    }
}

/// The name of the output property.
fn out_text() -> (name: CText)
    ensures
        name@ == out_name(),
{
    proof {
        reveal_strlit("out");
        lemma_ascii_nul_free("out");
        assert("out".spec_bytes() =~= out_name());
    }
    CText::from_nul_free("out")
}

} // verus!
