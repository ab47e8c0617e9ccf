//! Handles to images that the engine owns.

use vstd::prelude::*;
use vstd::utf8::valid_utf8;
use crate::engine::{net_refs, Call, EngineCall};
use crate::error::{ErrorKind, VipsError};
use crate::text::{decode, first_nul, has_nul, nul_error_text, CText};
use crate::value::{array_length, length_error_text};

verus! {

/// A handle to an image of the engine. A handle that is not null stands for
/// one reference to that image; the null handle stands for no image and is
/// never handed to the engine.
#[derive(Debug)]
pub struct VipsImage {
    pub ptr: usize,
}

/// What is said of a null handle.
pub open spec fn null_error() -> (ErrorKind, Seq<char>) {
    (ErrorKind::NullHandle, "Cannot wrap nullptr in VipsImage"@)
}

/// The calls by which a handle to `ptr` is shared: one more reference, if
/// there is an image.
pub open spec fn share_calls(ptr: usize) -> Seq<Call> {
    if ptr == 0 {
        seq![]
    } else {
        seq![Call::ObjectRef { object: ptr }]
    }
}

/// The calls by which a handle to `ptr` is released: one reference less, if
/// there is an image.
pub open spec fn release_calls(ptr: usize) -> Seq<Call> {
    if ptr == 0 {
        seq![]
    } else {
        seq![Call::ObjectUnref { object: ptr }]
    }
}

/// The call that may or may not be made, as a list.
pub open spec fn optional_call(call: Option<EngineCall>) -> Seq<Call> {
    match call {
        Some(c) => seq![c@],
        None => seq![],
    }
}

/// The request for a file, by the bytes of its path.
pub open spec fn path_request(file: Seq<u8>, nul_text: Seq<char>) -> Result<
    Seq<u8>,
    (ErrorKind, Seq<char>),
> {
    if !valid_utf8(file) {
        Err((ErrorKind::Conversion, "Could not convert path to string"@))
    } else if has_nul(file) {
        Err((ErrorKind::Conversion, nul_text))
    } else {
        Ok(file)
    }
}

impl VipsImage {
    /// Whether the handle stands for an image.
    pub open spec fn is_live(&self) -> bool {
        self.ptr != 0
    }

    /// Wraps a raw handle for which the caller already holds a reference. The
    /// null handle is refused.
    pub fn from_c_ptr(p: usize) -> (r: Result<VipsImage, VipsError>)
        ensures
            r is Ok <==> p != 0,
            r is Ok ==> r->Ok_0.ptr == p,
            r is Err ==> r->Err_0@ == null_error(),
    {
        if p == 0 {
            return Err(
                VipsError::with_kind(ErrorKind::NullHandle, "Cannot wrap nullptr in VipsImage"),
            );
        }
        Ok(VipsImage { ptr: p })
    }

    /// A second handle to the same image, and the call that takes the
    /// reference it stands for. The handle of no image is shared without a
    /// call.
    pub fn share(&self) -> (r: (VipsImage, Option<EngineCall>))
        ensures
            r.0.ptr == self.ptr,
            optional_call(r.1) == share_calls(self.ptr),
    {
        if self.ptr == 0 {
            (VipsImage { ptr: 0 }, None)
        } else {
            (VipsImage { ptr: self.ptr }, Some(EngineCall::ObjectRef { object: self.ptr }))
        }
    }

    /// Gives the handle up: it becomes the handle of no image, and the call
    /// gives up its reference. A handle that is already given up yields no
    /// call.
    pub fn release(&mut self) -> (call: Option<EngineCall>)
        ensures
            final(self).ptr == 0,
            optional_call(call) == release_calls(old(self).ptr),
    {
        let ptr = self.ptr;
        self.ptr = 0;
        if ptr == 0 {
            None
        } else {
            Some(EngineCall::ObjectUnref { object: ptr })
        }
    }

    /// The handle, if it stands for an image.
    pub(crate) fn live(&self) -> (r: Result<usize, VipsError>)
        ensures
            r is Ok <==> self.is_live(),
            r is Ok ==> r->Ok_0 == self.ptr,
            r is Err ==> r->Err_0@ == null_error(),
    {
        if self.ptr == 0 {
            Err(VipsError::with_kind(ErrorKind::NullHandle, "Cannot wrap nullptr in VipsImage"))
        } else {
            Ok(self.ptr)
        }
    }

    /// The call that makes an empty image.
    pub fn new() -> (call: EngineCall)
        ensures
            call@ == Call::ImageNew,
    {
        EngineCall::ImageNew
    }

    /// The call that loads the file at the path with these bytes. A path that
    /// is no text, or that holds a zero byte, is refused.
    pub fn new_from_file(file: &[u8]) -> (r: Result<EngineCall, VipsError>)
        ensures
            match path_request(file@, "Could not convert path to CString"@) {
                Ok(path) => r is Ok && r->Ok_0@ == (Call::ImageNewFromFile { path }),
                Err(e) => r is Err && r->Err_0@ == e,
            },
    {
        if decode(file).is_err() {
            return Err(
                VipsError::with_kind(ErrorKind::Conversion, "Could not convert path to string"),
            );
        }
        match CText::from_bytes(file) {
            Ok(path) => Ok(EngineCall::ImageNewFromFile { path }),
            Err(_) => Err(
                VipsError::with_kind(ErrorKind::Conversion, "Could not convert path to CString"),
            ),
        }
    }

    /// The call that wraps an image around `data`. The engine keeps reading
    /// `data` for as long as the image lives.
    pub fn new_from_memory(
        data: &[u8],
        width: i32,
        height: i32,
        bands: i32,
        band_format: i32,
    ) -> (call: EngineCall)
        ensures
            call@ == (Call::ImageNewFromMemory {
                len: data@.len() as usize,
                width,
                height,
                bands,
                format: band_format,
            }),
    {
        EngineCall::ImageNewFromMemory {
            len: data.len(),
            width,
            height,
            bands,
            format: band_format,
        }
    }

    /// The call that makes an image from a copy of `data`.
    pub fn new_from_memory_copy(
        data: &[u8],
        width: i32,
        height: i32,
        bands: i32,
        band_format: i32,
    ) -> (call: EngineCall)
        ensures
            call@ == (Call::ImageNewFromMemoryCopy {
                len: data@.len() as usize,
                width,
                height,
                bands,
                format: band_format,
            }),
    {
        EngineCall::ImageNewFromMemoryCopy {
            len: data.len(),
            width,
            height,
            bands,
            format: band_format,
        }
    }

    /// The call that makes a matrix image.
    pub fn new_matrix(width: i32, height: i32) -> (call: EngineCall)
        ensures
            call@ == (Call::ImageNewMatrix { width, height }),
    {
        EngineCall::ImageNewMatrix { width, height }
    }

    /// The call that makes a matrix image from the values with these bit
    /// patterns. An array whose length does not fit the engine's `int` is
    /// refused.
    pub fn new_matrix_from_array(width: i32, height: i32, array: &[u64]) -> (r: Result<
        EngineCall,
        VipsError,
    >)
        ensures
            r is Ok <==> array@.len() <= i32::MAX,
            r is Ok ==> r->Ok_0@ == (Call::ImageNewMatrixFromArray {
                width,
                height,
                n: array@.len() as i32,
            }),
            r is Err ==> r->Err_0@ == (ErrorKind::Conversion, length_error_text()),
    {
        match array_length(array.len()) {
            Ok(n) => Ok(EngineCall::ImageNewMatrixFromArray { width, height, n }),
            Err(e) => Err(e),
        }
    }

    /// The call that makes an image like `image`, its bands filled with the
    /// values of `c`. Too long an array is refused, and then the handle of no
    /// image.
    pub fn new_from_image(image: &VipsImage, c: &[u64]) -> (r: Result<EngineCall, VipsError>)
        ensures
            r is Ok <==> c@.len() <= i32::MAX && image.is_live(),
            r is Ok ==> r->Ok_0@ == (Call::ImageNewFromImage {
                image: image.ptr,
                n: c@.len() as i32,
            }),
            c@.len() > i32::MAX ==> r is Err && r->Err_0@ == (
                ErrorKind::Conversion,
                length_error_text(),
            ),
            c@.len() <= i32::MAX && !image.is_live() ==> r is Err && r->Err_0@ == null_error(),
    {
        match array_length(c.len()) {
            Ok(n) => match image.live() {
                Ok(ptr) => Ok(EngineCall::ImageNewFromImage { image: ptr, n }),
                Err(e) => Err(e),
            },
            Err(e) => Err(e),
        }
    }

    /// The call that makes an image like `image`, filled with the value of
    /// bit pattern `c`. The handle of no image is refused.
    pub fn new_from_image1(image: &VipsImage, c: u64) -> (r: Result<EngineCall, VipsError>)
        ensures
            r is Ok <==> image.is_live(),
            r is Ok ==> r->Ok_0@ == (Call::ImageNewFromImage1 { image: image.ptr, c }),
            r is Err ==> r->Err_0@ == null_error(),
    {
        match image.live() {
            Ok(ptr) => Ok(EngineCall::ImageNewFromImage1 { image: ptr, c }),
            Err(e) => Err(e),
        }
    }

    /// The call that writes the image to the file at the path with these
    /// bytes. A path that is no text or holds a zero byte is refused, and
    /// then the handle of no image. The status that the engine answers
    /// decides what follows: see `capture_after`.
    pub fn write_to_file(&self, file: &[u8]) -> (r: Result<EngineCall, VipsError>)
        ensures
            match path_request(file@, nul_error_text(first_nul(file@) as nat)) {
                Ok(path) => if self.is_live() {
                    r is Ok && r->Ok_0@ == (Call::ImageWriteToFile { image: self.ptr, path })
                } else {
                    r is Err && r->Err_0@ == null_error()
                },
                Err(e) => r is Err && r->Err_0@ == e,
            },
    {
        if decode(file).is_err() {
            return Err(
                VipsError::with_kind(ErrorKind::Conversion, "Could not convert path to string"),
            );
        }
        let path = match CText::from_bytes(file) {
            Ok(path) => path,
            Err(e) => { return Err(e); },
        };
        match self.live() {
            Ok(ptr) => Ok(EngineCall::ImageWriteToFile { image: ptr, path }),
            Err(e) => Err(e),
        }
    }

    /// The call that asks for the number of bands. The handle of no image is
    /// refused.
    pub fn nbands(&self) -> (r: Result<EngineCall, VipsError>)
        ensures
            r is Ok <==> self.is_live(),
            r is Ok ==> r->Ok_0@ == (Call::ImageGetBands { image: self.ptr }),
            r is Err ==> r->Err_0@ == null_error(),
    {
        match self.live() {
            Ok(ptr) => Ok(EngineCall::ImageGetBands { image: ptr }),
            Err(e) => Err(e),
        }
    }
}

/// Sharing a handle and then releasing the second handle leaves the number of
/// references to every object as it was.
pub proof fn lemma_share_release_round_trip(ptr: usize, object: usize)
    ensures
        net_refs(share_calls(ptr) + release_calls(ptr), object) == 0,
{
    let calls = share_calls(ptr) + release_calls(ptr);
    if ptr == 0 {
        assert(calls =~= Seq::<Call>::empty());
    } else {
        let first = Call::ObjectRef { object: ptr };
        let second = Call::ObjectUnref { object: ptr };
        assert(calls =~= seq![first, second]);
        assert(calls.drop_last() =~= seq![first]);
        assert(calls.drop_last().drop_last() =~= Seq::<Call>::empty());
        reveal_with_fuel(net_refs, 3);
    }
}

} // verus!
