//! Convolution.

use vstd::prelude::*;
use vstd::string::*;
use crate::image::VipsImage;
use crate::operator::{
    argument, arguments_view, ascii_name, bindings_on, fresh, image_value,
    lemma_bind_all_push_present, lemma_input_names_nul_free, lemma_plan_bindings_on, present,
    Argument, BindingView, Invocation,
};
use crate::text::lemma_ascii_nul_free;
use crate::value::{GValueView, ToGValue, Value};

verus! {

/// The arguments of a convolution. Those that are `None` are left to the
/// engine's defaults.
#[derive(Debug)]
pub struct OpConvArguments<'a> {
    /// The matrix to convolve with.
    pub mask: &'a VipsImage,
    /// The engine's number for the precision to compute with.
    pub precision: Option<u32>,
    /// How many layers to approximate with.
    pub layers: Option<u32>,
    /// Up to which difference lines are put into one cluster.
    pub cluster: Option<u32>,
}

/// What an unsigned number that may be left out marshals to.
pub open spec fn uint_value(value: Option<u32>) -> Option<GValueView> {
    match value {
        Some(n) => Some(GValueView::UInt(n)),
        None => None,
    }
}

/// An unsigned argument that may be left out.
pub fn optional_uint<'a>(value: Option<u32>) -> (v: Value<'a>)
    ensures
        v.marshaled() == Ok::<Option<GValueView>, crate::operator::Fault>(uint_value(value)),
{
    match value {
        Some(n) => Value::UInt(n),
        None => Value::Absent,
    }
}

/// The bindings of a convolution besides its input: the mask, and each
/// setting that is given.
pub open spec fn conv_bindings(
    mask: usize,
    precision: Option<u32>,
    layers: Option<u32>,
    cluster: Option<u32>,
) -> Seq<BindingView> {
    present("mask", image_value(mask)) + present("precision", uint_value(precision)) + present(
        "layers",
        uint_value(layers),
    ) + present("cluster", uint_value(cluster))
}

impl VipsImage {
    /// An invocation of `conv`: this image, convolved with the mask.
    pub fn conv(&self, args: OpConvArguments) -> (inv: Invocation)
        ensures
            inv@ == fresh(
                "conv".spec_bytes(),
                bindings_on(
                    "in",
                    self.ptr,
                    conv_bindings(args.mask.ptr, args.precision, args.layers, args.cluster),
                ),
            ),
    {
        proof {
            reveal_strlit("conv");
        }
        let name = ascii_name("conv");
        let list = [
            Argument { name: "mask", value: Value::Image(args.mask) },
            Argument { name: "precision", value: optional_uint(args.precision) },
            Argument { name: "layers", value: optional_uint(args.layers) },
            Argument { name: "cluster", value: optional_uint(args.cluster) },
        ];
        proof {
            let mask = image_value(args.mask.ptr);
            let precision = uint_value(args.precision);
            let layers = uint_value(args.layers);
            let cluster = uint_value(args.cluster);
            let a1 = argument("mask", Ok(mask));
            let a2 = argument("precision", Ok(precision));
            let a3 = argument("layers", Ok(layers));
            let a4 = argument("cluster", Ok(cluster));
            assert(arguments_view(list@) =~= seq![a1, a2, a3, a4]);
            reveal_strlit("mask");
            reveal_strlit("precision");
            reveal_strlit("layers");
            reveal_strlit("cluster");
            lemma_ascii_nul_free("mask");
            lemma_ascii_nul_free("precision");
            lemma_ascii_nul_free("layers");
            lemma_ascii_nul_free("cluster");
            lemma_input_names_nul_free();
            let b1 = present("mask", mask);
            let b2 = b1 + present("precision", precision);
            let b3 = b2 + present("layers", layers);
            let b4 = b3 + present("cluster", cluster);
            lemma_bind_all_push_present(seq![], seq![], "mask", mask);
            assert(Seq::<crate::operator::ArgumentView>::empty().push(a1) =~= seq![a1]);
            assert(Seq::<BindingView>::empty() + b1 =~= b1);
            lemma_bind_all_push_present(seq![a1], b1, "precision", precision);
            assert(seq![a1].push(a2) =~= seq![a1, a2]);
            lemma_bind_all_push_present(seq![a1, a2], b2, "layers", layers);
            assert(seq![a1, a2].push(a3) =~= seq![a1, a2, a3]);
            lemma_bind_all_push_present(seq![a1, a2, a3], b3, "cluster", cluster);
            assert(seq![a1, a2, a3].push(a4) =~= seq![a1, a2, a3, a4]);
            lemma_plan_bindings_on("in", self.ptr, seq![a1, a2, a3, a4], b4);
        }
        Invocation::new(name, "in", self, &list)
    }
}

} // verus!
