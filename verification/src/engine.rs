//! The calls that this layer asks of the engine, and what they do to the
//! references that the layer holds.
//!
//! The layer decides which calls are made, with what arguments and in what
//! order. The program that links the engine performs them and hands back what
//! the engine answered.

use vstd::prelude::*;
use crate::text::CText;
use crate::value::{GValue, GValueView};

verus! {

/// One call into the engine. Handles are raw; names and paths hold no zero
/// byte.
#[derive(Debug)]
pub enum EngineCall {
    /// Starts the engine under the program's name. Answer: a status.
    Init { program: CText },
    /// Reports the engine's error buffer and ends the process.
    ErrorExit,
    /// Shuts the engine down.
    Shutdown,
    /// Makes an empty image. Answer: a handle.
    ImageNew,
    /// Loads an image from a file. Answer: a handle.
    ImageNewFromFile { path: CText },
    /// Wraps an image around `len` bytes that stay with the caller. Answer: a
    /// handle.
    ImageNewFromMemory { len: usize, width: i32, height: i32, bands: i32, format: i32 },
    /// Makes an image from a copy of `len` bytes. Answer: a handle.
    ImageNewFromMemoryCopy { len: usize, width: i32, height: i32, bands: i32, format: i32 },
    /// Makes a matrix image. Answer: a handle.
    ImageNewMatrix { width: i32, height: i32 },
    /// Makes a matrix image from `n` values. Answer: a handle.
    ImageNewMatrixFromArray { width: i32, height: i32, n: i32 },
    /// Makes an image like `image`, each band filled with one of `n` values.
    /// Answer: a handle.
    ImageNewFromImage { image: usize, n: i32 },
    /// Makes an image like `image`, filled with the value of bit pattern `c`.
    /// Answer: a handle.
    ImageNewFromImage1 { image: usize, c: u64 },
    /// Writes an image to a file. Answer: a status.
    ImageWriteToFile { image: usize, path: CText },
    /// Asks for the number of bands of an image. Answer: a number.
    ImageGetBands { image: usize },
    /// Asks whether the colour space of an image can be converted. Answer: a
    /// number, zero for no.
    ColourspaceIsSupported { image: usize },
    /// Takes one more reference to an object.
    ObjectRef { object: usize },
    /// Gives up one reference to an object.
    ObjectUnref { object: usize },
    /// Makes the operation of that name. Answer: a handle.
    OperationNew { name: CText },
    /// Sets a property of an object to a generic value.
    SetProperty { object: usize, name: CText, value: GValue },
    /// Builds an operation, or finds the built one in the engine's cache.
    /// Answer: a handle, which need not be the operation's own.
    CacheOperationBuild { operation: usize },
    /// Reads an object property into a generic value. Answer: the handle that
    /// the value holds. The value holds it without a reference for the caller.
    GetProperty { object: usize, name: CText },
    /// Releases the generic value that the last `GetProperty` has filled.
    ValueUnset,
    /// Drops the references that an operation holds to its outputs.
    UnrefOutputs { object: usize },
    /// Reads the engine's error buffer. Answer: its bytes.
    ErrorBuffer,
}

/// An engine call as a mathematical value.
pub enum Call {
    Init { program: Seq<u8> },
    ErrorExit,
    Shutdown,
    ImageNew,
    ImageNewFromFile { path: Seq<u8> },
    ImageNewFromMemory { len: usize, width: i32, height: i32, bands: i32, format: i32 },
    ImageNewFromMemoryCopy { len: usize, width: i32, height: i32, bands: i32, format: i32 },
    ImageNewMatrix { width: i32, height: i32 },
    ImageNewMatrixFromArray { width: i32, height: i32, n: i32 },
    ImageNewFromImage { image: usize, n: i32 },
    ImageNewFromImage1 { image: usize, c: u64 },
    ImageWriteToFile { image: usize, path: Seq<u8> },
    ImageGetBands { image: usize },
    ColourspaceIsSupported { image: usize },
    ObjectRef { object: usize },
    ObjectUnref { object: usize },
    OperationNew { name: Seq<u8> },
    SetProperty { object: usize, name: Seq<u8>, value: GValueView },
    CacheOperationBuild { operation: usize },
    GetProperty { object: usize, name: Seq<u8> },
    ValueUnset,
    UnrefOutputs { object: usize },
    ErrorBuffer,
}

impl View for EngineCall {
    type V = Call;

    open spec fn view(&self) -> Call {
        match self {
            EngineCall::Init { program } => Call::Init { program: program@ },
            EngineCall::ErrorExit => Call::ErrorExit,
            EngineCall::Shutdown => Call::Shutdown,
            EngineCall::ImageNew => Call::ImageNew,
            EngineCall::ImageNewFromFile { path } => Call::ImageNewFromFile { path: path@ },
            EngineCall::ImageNewFromMemory { len, width, height, bands, format } => {
                Call::ImageNewFromMemory {
                    len: *len,
                    width: *width,
                    height: *height,
                    bands: *bands,
                    format: *format,
                }
            },
            EngineCall::ImageNewFromMemoryCopy { len, width, height, bands, format } => {
                Call::ImageNewFromMemoryCopy {
                    len: *len,
                    width: *width,
                    height: *height,
                    bands: *bands,
                    format: *format,
                }
            },
            EngineCall::ImageNewMatrix { width, height } => Call::ImageNewMatrix {
                width: *width,
                height: *height,
            },
            EngineCall::ImageNewMatrixFromArray { width, height, n } => {
                Call::ImageNewMatrixFromArray { width: *width, height: *height, n: *n }
            },
            EngineCall::ImageNewFromImage { image, n } => Call::ImageNewFromImage {
                image: *image,
                n: *n,
            },
            EngineCall::ImageNewFromImage1 { image, c } => Call::ImageNewFromImage1 {
                image: *image,
                c: *c,
            },
            EngineCall::ImageWriteToFile { image, path } => Call::ImageWriteToFile {
                image: *image,
                path: path@,
            },
            EngineCall::ImageGetBands { image } => Call::ImageGetBands { image: *image },
            EngineCall::ColourspaceIsSupported { image } => Call::ColourspaceIsSupported {
                image: *image,
            },
            EngineCall::ObjectRef { object } => Call::ObjectRef { object: *object },
            EngineCall::ObjectUnref { object } => Call::ObjectUnref { object: *object },
            EngineCall::OperationNew { name } => Call::OperationNew { name: name@ },
            EngineCall::SetProperty { object, name, value } => Call::SetProperty {
                object: *object,
                name: name@,
                value: value@,
            },
            EngineCall::CacheOperationBuild { operation } => Call::CacheOperationBuild {
                operation: *operation,
            },
            EngineCall::GetProperty { object, name } => Call::GetProperty {
                object: *object,
                name: name@,
            },
            EngineCall::ValueUnset => Call::ValueUnset,
            EngineCall::UnrefOutputs { object } => Call::UnrefOutputs { object: *object },
            EngineCall::ErrorBuffer => Call::ErrorBuffer,
        }
    }
}

/// The views of a list of calls, in order.
pub open spec fn calls_view(calls: Seq<EngineCall>) -> Seq<Call> {
    Seq::new(calls.len(), |i: int| calls[i]@)
}

impl Call {
    /// By how much the call changes the number of references that this layer
    /// holds to `object`.
    pub open spec fn ref_change(self, object: usize) -> int {
        match self {
            Call::ObjectRef { object: o } => if o == object {
                1
            } else {
                0
            },
            Call::ObjectUnref { object: o } => if o == object {
                -1
            } else {
                0
            },
            _ => 0,
        }
    }

    /// Whether the call can fail inside the engine, and so can overwrite the
    /// error buffer. Reference counting, the release of a value and the
    /// reading of the buffer itself cannot.
    pub open spec fn can_fail(self) -> bool {
        match self {
            Call::ObjectRef { .. } => false,
            Call::ObjectUnref { .. } => false,
            Call::ValueUnset => false,
            Call::ErrorBuffer => false,
            _ => true,
        }
    }
}

/// By how much a list of calls changes the number of references that this
/// layer holds to `object`.
pub open spec fn net_refs(calls: Seq<Call>, object: usize) -> int
    decreases calls.len(),
{
    if calls.len() == 0 {
        0
    } else {
        net_refs(calls.drop_last(), object) + calls.last().ref_change(object)
    }
}

/// The change that two lists of calls make one after the other is the sum of
/// their changes.
pub proof fn lemma_net_refs_concat(first: Seq<Call>, second: Seq<Call>, object: usize)
    ensures
        net_refs(first + second, object) == net_refs(first, object) + net_refs(second, object),
    decreases second.len(),
{
    if second.len() == 0 {
        assert(first + second =~= first);
    } else {
        assert((first + second).drop_last() =~= first + second.drop_last());
        lemma_net_refs_concat(first, second.drop_last(), object);
    }
}

/// What follows a status that the engine returned: nothing after a success;
/// after a failure the error buffer is read, before any other call.
pub fn capture_after(status: i32) -> (call: Option<EngineCall>)
    ensures
        status == 0 ==> call is None,
        status != 0 ==> call is Some && call->Some_0@ == Call::ErrorBuffer,
{
    if status != 0 {
        Some(EngineCall::ErrorBuffer)
    } else {
        None
    }
}

} // verus!
