//! Arithmetic on images: with another image, with one constant per band, and
//! with one constant for all bands.
//!
//! A constant is given by the bit pattern of a double.

use vstd::prelude::*;
use vstd::slice::slice_to_vec;
use vstd::string::*;
use crate::image::VipsImage;
use crate::error::ErrorKind;
use crate::operator::{
    argument, arguments_view, ascii_name, bindings_on, bound, fresh, image_value, input_fault,
    lemma_bind_all_push_fault, lemma_bind_all_push_present, lemma_input_names_nul_free,
    lemma_plan_bindings_on, present, Argument, ArgumentView, BindingView, Fault, Invocation,
};
use crate::text::{lemma_ascii_nul_free, CText};
use crate::value::{array_marshaled, length_error_text, GValueView, ToGValue, Value};

verus! {

/// The bit pattern of the double 1.
pub const ONE: u64 = 0x3ff0_0000_0000_0000;

/// The bit pattern of the double 0.
pub const ZERO: u64 = 0;

/// The sign bit of a double.
pub const SIGN: u64 = 0x8000_0000_0000_0000;

/// The scale and the offset of `linear1`, for all bands.
#[derive(Clone, Copy, Debug)]
pub struct OpArgs {
    pub a: u64,
    pub b: u64,
}

/// The bit pattern of the negative of the double with bit pattern `bits`.
pub open spec fn negated(bits: u64) -> u64 {
    bits ^ SIGN
}

/// The negative of a double, on bit patterns.
pub fn negate(bits: u64) -> (n: u64)
    ensures
        n == negated(bits),
{
    bits ^ SIGN
}

/// The negatives of doubles, on bit patterns.
pub fn negate_all(values: &[u64]) -> (r: Vec<u64>)
    ensures
        r@ == Seq::new(values@.len(), |i: int| negated(values@[i])),
{
    let mut r: Vec<u64> = Vec::new();
    let mut i: usize = 0;
    while i < values.len()
        invariant
            i <= values@.len(),
            r@ =~= Seq::new(i as nat, |j: int| negated(values@[j])),
        decreases values@.len() - i,
    {
        r.push(negate(values[i]));
        i += 1;
    }
    r
}

/// `len` times the same value.
pub fn filled(len: usize, value: u64) -> (r: Vec<u64>)
    ensures
        r@ == Seq::new(len as nat, |i: int| value),
{
    let mut r: Vec<u64> = Vec::new();
    let mut i: usize = 0;
    while i < len
        invariant
            i <= len,
            r@ =~= Seq::new(i as nat, |j: int| value),
        decreases len - i,
    {
        r.push(value);
        i += 1;
    }
    r
}

/// The bindings of `linear`: the image, then the scales and the offsets.
/// Without an image there are none, nor with an array that is too long for
/// the engine's `int`.
pub open spec fn linear_plan(input: usize, a: Seq<u64>, b: Seq<u64>) -> Result<
    Seq<BindingView>,
    Fault,
> {
    if input == 0 {
        Err(input_fault())
    } else if a.len() > i32::MAX || b.len() > i32::MAX {
        Err((ErrorKind::Conversion, length_error_text()))
    } else {
        Ok(
            seq![
                bound("in", GValueView::Object(input)),
                bound("a", GValueView::ArrayDouble(a)),
                bound("b", GValueView::ArrayDouble(b)),
            ],
        )
    }
}

/// The bindings of an operation on two images: the first as `left`, the
/// second, if it is an image, as `right`.
pub open spec fn binary_plan(left: usize, right: usize) -> Result<Seq<BindingView>, Fault> {
    bindings_on("left", left, present("right", image_value(right)))
}

impl VipsImage {
    fn binary(&self, name: CText, right: &VipsImage) -> (inv: Invocation)
        ensures
            inv@ == fresh(name@, binary_plan(self.ptr, right.ptr)),
    {
        let list = [Argument { name: "right", value: Value::Image(right) }];
        proof {
            let value = image_value(right.ptr);
            let a1 = argument("right", Ok(value));
            assert(arguments_view(list@) =~= seq![a1]);
            lemma_input_names_nul_free();
            lemma_bind_all_push_present(seq![], seq![], "right", value);
            assert(Seq::<ArgumentView>::empty().push(a1) =~= seq![a1]);
            assert(Seq::<BindingView>::empty() + present("right", value) =~= present(
                "right",
                value,
            ));
            lemma_plan_bindings_on("left", self.ptr, seq![a1], present("right", value));
        }
        Invocation::new(name, "left", self, &list)
    }

    /// An invocation of `add`: the sum of this image and `right`.
    pub fn add(&self, right: &VipsImage) -> (inv: Invocation)
        ensures
            inv@ == fresh("add".spec_bytes(), binary_plan(self.ptr, right.ptr)),
    {
        proof {
            reveal_strlit("add");
        }
        self.binary(ascii_name("add"), right)
    }

    /// An invocation of `subtract`: this image less `right`.
    pub fn subtract(&self, right: &VipsImage) -> (inv: Invocation)
        ensures
            inv@ == fresh("subtract".spec_bytes(), binary_plan(self.ptr, right.ptr)),
    {
        proof {
            reveal_strlit("subtract");
        }
        self.binary(ascii_name("subtract"), right)
    }

    /// An invocation of `multiply`: the product of this image and `right`.
    pub fn multiply(&self, right: &VipsImage) -> (inv: Invocation)
        ensures
            inv@ == fresh("multiply".spec_bytes(), binary_plan(self.ptr, right.ptr)),
    {
        proof {
            reveal_strlit("multiply");
        }
        self.binary(ascii_name("multiply"), right)
    }

    /// An invocation of `divide`: this image over `right`.
    pub fn divide(&self, right: &VipsImage) -> (inv: Invocation)
        ensures
            inv@ == fresh("divide".spec_bytes(), binary_plan(self.ptr, right.ptr)),
    {
        proof {
            reveal_strlit("divide");
        }
        self.binary(ascii_name("divide"), right)
    }

    /// An invocation of `linear`: this image times `a` plus `b`, band by
    /// band.
    pub fn linear(&self, a: &[u64], b: &[u64]) -> (inv: Invocation)
        ensures
            inv@ == fresh("linear".spec_bytes(), linear_plan(self.ptr, a@, b@)),
    {
        proof {
            reveal_strlit("linear");
        }
        let list = [
            Argument { name: "a", value: Value::ArrayDouble(slice_to_vec(a)) },
            Argument { name: "b", value: Value::ArrayDouble(slice_to_vec(b)) },
        ];
        proof {
            let a1 = argument("a", array_marshaled(a@));
            let a2 = argument("b", array_marshaled(b@));
            assert(arguments_view(list@) =~= seq![a1, a2]);
            reveal_strlit("a");
            reveal_strlit("b");
            lemma_ascii_nul_free("a");
            lemma_ascii_nul_free("b");
            lemma_input_names_nul_free();
            let fault = (ErrorKind::Conversion, length_error_text());
            let none = Seq::<ArgumentView>::empty();
            assert(none.push(a1) =~= seq![a1]);
            assert(seq![a1].push(a2) =~= seq![a1, a2]);
            if a@.len() > i32::MAX {
                lemma_bind_all_push_fault(none, seq![], "a", fault);
                assert(seq![a1, a2].drop_last() =~= seq![a1]);
            } else {
                let first = Some(GValueView::ArrayDouble(a@));
                lemma_bind_all_push_present(none, seq![], "a", first);
                let b1 = present("a", first);
                assert(Seq::<BindingView>::empty() + b1 =~= b1);
                if b@.len() > i32::MAX {
                    lemma_bind_all_push_fault(seq![a1], b1, "b", fault);
                } else {
                    let second = Some(GValueView::ArrayDouble(b@));
                    lemma_bind_all_push_present(seq![a1], b1, "b", second);
                    lemma_plan_bindings_on("in", self.ptr, seq![a1, a2], b1 + present("b", second));
                    assert(seq![bound("in", GValueView::Object(self.ptr))] + (b1 + present(
                        "b",
                        second,
                    )) =~= seq![
                        bound("in", GValueView::Object(self.ptr)),
                        bound("a", GValueView::ArrayDouble(a@)),
                        bound("b", GValueView::ArrayDouble(b@)),
                    ]);
                }
            }
        }
        Invocation::new(ascii_name("linear"), "in", self, &list)
    }

    /// An invocation of `linear` with one scale and one offset for all
    /// bands.
    pub fn linear1(&self, args: OpArgs) -> (inv: Invocation)
        ensures
            inv@ == fresh("linear".spec_bytes(), linear_plan(self.ptr, seq![args.a], seq![args.b])),
    {
        let a = [args.a];
        let b = [args.b];
        assert(a@ =~= seq![args.a]);
        assert(b@ =~= seq![args.b]);
        self.linear(&a, &b)
    }

    /// This image plus one constant per band.
    pub fn plus_constants(&self, rhs: &[u64]) -> (inv: Invocation)
        ensures
            inv@ == fresh(
                "linear".spec_bytes(),
                linear_plan(self.ptr, Seq::new(rhs@.len(), |i: int| ONE), rhs@),
            ),
    {
        let one = filled(rhs.len(), ONE);
        self.linear(one.as_slice(), rhs)
    }

    /// This image less one constant per band.
    pub fn minus_constants(&self, rhs: &[u64]) -> (inv: Invocation)
        ensures
            inv@ == fresh(
                "linear".spec_bytes(),
                linear_plan(
                    self.ptr,
                    Seq::new(rhs@.len(), |i: int| ONE),
                    Seq::new(rhs@.len(), |i: int| negated(rhs@[i])),
                ),
            ),
    {
        let one = filled(rhs.len(), ONE);
        let inv = negate_all(rhs);
        self.linear(one.as_slice(), inv.as_slice())
    }

    /// This image times one constant per band.
    pub fn times_constants(&self, rhs: &[u64]) -> (inv: Invocation)
        ensures
            inv@ == fresh(
                "linear".spec_bytes(),
                linear_plan(self.ptr, rhs@, Seq::new(rhs@.len(), |i: int| ZERO)),
            ),
    {
        let zero = filled(rhs.len(), ZERO);
        self.linear(rhs, zero.as_slice())
    }

    /// This image plus a constant.
    pub fn plus_constant(&self, rhs: u64) -> (inv: Invocation)
        ensures
            inv@ == fresh("linear".spec_bytes(), linear_plan(self.ptr, seq![ONE], seq![rhs])),
    {
        self.linear1(OpArgs { a: ONE, b: rhs })
    }

    /// This image less a constant.
    pub fn minus_constant(&self, rhs: u64) -> (inv: Invocation)
        ensures
            inv@ == fresh(
                "linear".spec_bytes(),
                linear_plan(self.ptr, seq![ONE], seq![negated(rhs)]),
            ),
    {
        self.linear1(OpArgs { a: ONE, b: negate(rhs) })
    }

    /// This image times a constant.
    pub fn times_constant(&self, rhs: u64) -> (inv: Invocation)
        ensures
            inv@ == fresh("linear".spec_bytes(), linear_plan(self.ptr, seq![rhs], seq![ZERO])),
    {
        self.linear1(OpArgs { a: rhs, b: ZERO })
    }
}

} // verus!
