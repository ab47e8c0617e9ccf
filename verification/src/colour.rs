//! Colour spaces.

use vstd::prelude::*;
use vstd::string::*;
use crate::engine::{Call, EngineCall};
use crate::error::VipsError;
use crate::image::{null_error, VipsImage};
use crate::operator::{
    argument, arguments_view, ascii_name, bindings_on, fresh, lemma_bind_all_push_present,
    lemma_input_names_nul_free, lemma_plan_bindings_on, present, Argument, ArgumentView,
    BindingView, Fault, Invocation,
};
use crate::text::lemma_ascii_nul_free;
use crate::value::{GValueView, ToGValue, Value};

verus! {

/// The arguments of a change of colour space, by the engine's numbers for
/// the spaces.
#[derive(Clone, Copy, Debug)]
pub struct ColourSpaceArgs {
    /// The colour space to change to.
    pub space: i32,
    /// The colour space to change from; by default the one of the image.
    pub source_space: Option<i32>,
}

/// What a signed number that may be left out marshals to.
pub open spec fn int_value(value: Option<i32>) -> Option<GValueView> {
    match value {
        Some(n) => Some(GValueView::Int(n)),
        None => None,
    }
}

/// A signed argument that may be left out.
pub fn optional_int<'a>(value: Option<i32>) -> (v: Value<'a>)
    ensures
        v.marshaled() == Ok::<Option<GValueView>, Fault>(int_value(value)),
{
    match value {
        Some(n) => Value::Int(n),
        None => Value::Absent,
    }
}

impl VipsImage {
    /// The call that asks whether the colour space of this image can be
    /// converted: the answer is zero for no. The handle of no image is
    /// refused.
    pub fn colourspace_issupported(&self) -> (r: Result<EngineCall, VipsError>)
        ensures
            r is Ok <==> self.is_live(),
            r is Ok ==> r->Ok_0@ == (Call::ColourspaceIsSupported { image: self.ptr }),
            r is Err ==> r->Err_0@ == null_error(),
    {
        match self.live() {
            Ok(ptr) => Ok(EngineCall::ColourspaceIsSupported { image: ptr }),
            Err(e) => Err(e),
        }
    }

    /// An invocation of `colourspace`: this image in another colour space.
    pub fn colourspace(&self, args: ColourSpaceArgs) -> (inv: Invocation)
        ensures
            inv@ == fresh(
                "colourspace".spec_bytes(),
                bindings_on(
                    "in",
                    self.ptr,
                    present("space", Some(GValueView::Int(args.space))) + present(
                        "source_space",
                        int_value(args.source_space),
                    ),
                ),
            ),
    {
        proof {
            reveal_strlit("colourspace");
        }
        let list = [
            Argument { name: "space", value: Value::Int(args.space) },
            Argument { name: "source_space", value: optional_int(args.source_space) },
        ];
        proof {
            let space = Some(GValueView::Int(args.space));
            let source = int_value(args.source_space);
            let a1 = argument("space", Ok(space));
            let a2 = argument("source_space", Ok(source));
            assert(arguments_view(list@) =~= seq![a1, a2]);
            reveal_strlit("space");
            reveal_strlit("source_space");
            lemma_ascii_nul_free("space");
            lemma_ascii_nul_free("source_space");
            lemma_input_names_nul_free();
            let b1 = present("space", space);
            lemma_bind_all_push_present(seq![], seq![], "space", space);
            assert(Seq::<ArgumentView>::empty().push(a1) =~= seq![a1]);
            assert(Seq::<BindingView>::empty() + b1 =~= b1);
            lemma_bind_all_push_present(seq![a1], b1, "source_space", source);
            assert(seq![a1].push(a2) =~= seq![a1, a2]);
            lemma_plan_bindings_on(
                "in",
                self.ptr,
                seq![a1, a2],
                b1 + present("source_space", source),
            );
        }
        Invocation::new(ascii_name("colourspace"), "in", self, &list)
    }
}

} // verus!
