//! Arguments and the generic values that the engine takes for them.

use vstd::prelude::*;
use vstd::slice::slice_to_vec;
use crate::error::{ErrorKind, VipsError};
use crate::image::VipsImage;

verus! {

/// The engine's type identifiers for the values that this layer produces.
#[derive(Clone, Copy, Debug, PartialEq, Eq, Structural)]
pub enum GType {
    Int,
    UInt,
    Float,
    Double,
    Boolean,
    ArrayDouble,
    Image,
}

/// A generic value record: a type identifier together with the value that the
/// setter of that type has stored. Floats travel as their bit patterns.
#[derive(Debug)]
pub enum GValue {
    Int(i32),
    UInt(u32),
    Float(u32),
    Double(u64),
    /// 1 for true and 0 for false.
    Boolean(i32),
    ArrayDouble(Vec<u64>),
    /// The raw handle of an object. The record holds no reference of its own.
    Object(usize),
}

/// A generic value record as a mathematical value.
pub enum GValueView {
    Int(i32),
    UInt(u32),
    Float(u32),
    Double(u64),
    Boolean(i32),
    ArrayDouble(Seq<u64>),
    Object(usize),
}

impl View for GValue {
    type V = GValueView;

    open spec fn view(&self) -> GValueView {
        match self {
            GValue::Int(v) => GValueView::Int(*v),
            GValue::UInt(v) => GValueView::UInt(*v),
            GValue::Float(v) => GValueView::Float(*v),
            GValue::Double(v) => GValueView::Double(*v),
            GValue::Boolean(v) => GValueView::Boolean(*v),
            GValue::ArrayDouble(v) => GValueView::ArrayDouble(v@),
            GValue::Object(v) => GValueView::Object(*v),
        }
    }
}

impl GValueView {
    /// The type identifier that the record carries.
    pub open spec fn gtype(self) -> GType {
        match self {
            GValueView::Int(_) => GType::Int,
            GValueView::UInt(_) => GType::UInt,
            GValueView::Float(_) => GType::Float,
            GValueView::Double(_) => GType::Double,
            GValueView::Boolean(_) => GType::Boolean,
            GValueView::ArrayDouble(_) => GType::ArrayDouble,
            GValueView::Object(_) => GType::Image,
        }
    }

    /// Whether the engine can take the record: the length of an array fits
    /// the engine's `int`, and an object is not null.
    pub open spec fn wf(self) -> bool {
        match self {
            GValueView::ArrayDouble(values) => values.len() <= i32::MAX,
            GValueView::Object(object) => object != 0,
            GValueView::Boolean(b) => b == 0 || b == 1,
            _ => true,
        }
    }
}

impl GValue {
    /// The type identifier that the record carries.
    pub fn gtype(&self) -> (t: GType)
        ensures
            t == self@.gtype(),
    {
        match self {
            GValue::Int(_) => GType::Int,
            GValue::UInt(_) => GType::UInt,
            GValue::Float(_) => GType::Float,
            GValue::Double(_) => GType::Double,
            GValue::Boolean(_) => GType::Boolean,
            GValue::ArrayDouble(_) => GType::ArrayDouble,
            GValue::Object(_) => GType::Image,
        }
    }
}

impl GValue {
    /// A copy of the record. A copy of an object record holds no reference
    /// either.
    pub fn duplicate(&self) -> (copy: GValue)
        ensures
            copy@ == self@,
    {
        match self {
            GValue::Int(v) => GValue::Int(*v),
            GValue::UInt(v) => GValue::UInt(*v),
            GValue::Float(v) => GValue::Float(*v),
            GValue::Double(v) => GValue::Double(*v),
            GValue::Boolean(v) => GValue::Boolean(*v),
            GValue::ArrayDouble(v) => GValue::ArrayDouble(slice_to_vec(v.as_slice())),
            GValue::Object(v) => GValue::Object(*v),
        }
    }
}

/// What is said of an array that is too long for the engine's `int`.
pub open spec fn length_error_text() -> Seq<char> {
    "Could not convert convert `array.len()` to i32: out of range integral type conversion attempted"@
}

/// The length of an array as the engine's `int`, if it fits.
pub fn array_length(len: usize) -> (r: Result<i32, VipsError>)
    ensures
        r is Ok <==> len <= i32::MAX,
        r is Ok ==> r->Ok_0 == len,
        r is Err ==> r->Err_0@ == (ErrorKind::Conversion, length_error_text()),
{
    if len <= 0x7fff_ffff {
        Ok(len as i32)
    } else {
        Err(
            VipsError::with_kind(
                ErrorKind::Conversion,
                "Could not convert convert `array.len()` to i32: out of range integral type conversion attempted",
            ),
        )
    }
}

/// The outcome of marshaling, as a mathematical value: a record, nothing
/// (the argument is absent), or the error.
pub type Marshaled = Result<Option<GValueView>, (ErrorKind, Seq<char>)>;

/// The view of what `to_gvalue` returns.
pub open spec fn marshaled_view(r: Result<Option<GValue>, VipsError>) -> Marshaled {
    match r {
        Ok(Some(value)) => Ok(Some(value@)),
        Ok(None) => Ok(None),
        Err(e) => Err(e@),
    }
}

/// An argument that can be handed to the engine as a generic value.
pub trait ToGValue {
    /// What the argument marshals to.
    spec fn marshaled(&self) -> Marshaled;

    /// The generic value for this argument; `None` where the argument is
    /// absent, so that nothing is bound and the engine's default applies.
    fn to_gvalue(&self) -> (r: Result<Option<GValue>, VipsError>)
        ensures
            marshaled_view(r) == self.marshaled(),
            r matches Ok(Some(value)) ==> value@.wf(),
    ;
}

impl<T: ToGValue> ToGValue for Option<T> {
    open spec fn marshaled(&self) -> Marshaled {
        match self {
            Some(v) => v.marshaled(),
            None => Ok(None),
        }
    }

    fn to_gvalue(&self) -> (r: Result<Option<GValue>, VipsError>) {
        match self {
            Some(v) => v.to_gvalue(),
            None => Ok(None),
        }
    }
}

impl ToGValue for i32 {
    open spec fn marshaled(&self) -> Marshaled {
        Ok(Some(GValueView::Int(*self)))
    }

    fn to_gvalue(&self) -> (r: Result<Option<GValue>, VipsError>) {
        Ok(Some(GValue::Int(*self)))
    }
}

impl ToGValue for u32 {
    open spec fn marshaled(&self) -> Marshaled {
        Ok(Some(GValueView::UInt(*self)))
    }

    fn to_gvalue(&self) -> (r: Result<Option<GValue>, VipsError>) {
        Ok(Some(GValue::UInt(*self)))
    }
}

impl ToGValue for bool {
    open spec fn marshaled(&self) -> Marshaled {
        Ok(Some(GValueView::Boolean(if *self { 1i32 } else { 0i32 })))
    }

    fn to_gvalue(&self) -> (r: Result<Option<GValue>, VipsError>) {
        Ok(Some(GValue::Boolean(if *self { 1 } else { 0 })))
    }
}

impl ToGValue for VipsImage {
    open spec fn marshaled(&self) -> Marshaled {
        if self.ptr == 0 {
            Ok(None)
        } else {
            Ok(Some(GValueView::Object(self.ptr)))
        }
    }

    fn to_gvalue(&self) -> (r: Result<Option<GValue>, VipsError>) {
        if self.ptr == 0 {
            Ok(None)
        } else {
            Ok(Some(GValue::Object(self.ptr)))
        }
    }
}

/// What an array of doubles marshals to: the array, if its length fits the
/// engine's `int`.
pub open spec fn array_marshaled(values: Seq<u64>) -> Marshaled {
    if values.len() <= i32::MAX {
        Ok(Some(GValueView::ArrayDouble(values)))
    } else {
        Err((ErrorKind::Conversion, length_error_text()))
    }
}

/// One argument of an operation. Floats are given by their bit patterns.
#[derive(Debug)]
pub enum Value<'a> {
    Int(i32),
    UInt(u32),
    Float(u32),
    Double(u64),
    Bool(bool),
    ArrayDouble(Vec<u64>),
    Image(&'a VipsImage),
    /// No value: the property is left out and the engine's default applies.
    Absent,
}

impl<'a> ToGValue for Value<'a> {
    open spec fn marshaled(&self) -> Marshaled {
        match self {
            Value::Int(v) => Ok(Some(GValueView::Int(*v))),
            Value::UInt(v) => Ok(Some(GValueView::UInt(*v))),
            Value::Float(v) => Ok(Some(GValueView::Float(*v))),
            Value::Double(v) => Ok(Some(GValueView::Double(*v))),
            Value::Bool(v) => v.marshaled(),
            Value::ArrayDouble(v) => array_marshaled(v@),
            Value::Image(image) => image.marshaled(),
            Value::Absent => Ok(None),
        }
    }

    fn to_gvalue(&self) -> (r: Result<Option<GValue>, VipsError>) {
        match self {
            Value::Int(v) => v.to_gvalue(),
            Value::UInt(v) => v.to_gvalue(),
            Value::Float(v) => Ok(Some(GValue::Float(*v))),
            Value::Double(v) => Ok(Some(GValue::Double(*v))),
            Value::Bool(v) => v.to_gvalue(),
            Value::ArrayDouble(v) => match array_length(v.len()) {
                Ok(_) => Ok(Some(GValue::ArrayDouble(slice_to_vec(v.as_slice())))),
                Err(e) => Err(e),
            },
            Value::Image(image) => image.to_gvalue(),
            Value::Absent => Ok(None),
        }
    }
}

} // verus!
