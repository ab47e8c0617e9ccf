//! Error values of the layer.

use vstd::prelude::*;
use vstd::string::*;
use vstd::utf8::{decode_utf8, valid_utf8};
use crate::text::{decode, utf8_error_text};

verus! {

/// What went wrong, by the stage at which it went wrong.
#[derive(Clone, Copy, Debug, PartialEq, Eq, Structural)]
pub enum ErrorKind {
    /// Data of the caller has no form that the engine accepts.
    Conversion,
    /// The engine handed back no object where one was expected.
    Creation,
    /// An argument yielded no generic value.
    Marshal,
    /// The engine ran and reported a failure through its error buffer.
    Engine,
    /// A null raw handle was offered as an image.
    NullHandle,
}

/// An owned description of a failure, with its kind.
#[derive(Debug)]
pub struct VipsError {
    kind: ErrorKind,
    description: String,
}

impl View for VipsError {
    type V = (ErrorKind, Seq<char>);

    closed spec fn view(&self) -> (ErrorKind, Seq<char>) {
        (self.kind, self.description@)
    }
}

/// The description for a decoded error buffer.
pub open spec fn decoded_text(decoded: Result<String, String>) -> Seq<char> {
    match decoded {
        Ok(text) => text@,
        Err(fault) => "Error parsing Vips error buffer: `"@ + fault@ + "`"@,
    }
}

/// The description for the bytes of an error buffer.
pub open spec fn buffer_text(buffer: Seq<u8>) -> Seq<char> {
    if valid_utf8(buffer) {
        decode_utf8(buffer)
    } else {
        "Error parsing Vips error buffer: `"@ + utf8_error_text(buffer) + "`"@
    }
}

impl VipsError {
    /// The kind of this error, in contracts.
    pub open spec fn spec_kind(&self) -> ErrorKind {
        self@.0
    }

    /// The text of this error, in contracts.
    pub open spec fn text(&self) -> Seq<char> {
        self@.1
    }

    /// An error written by hand: it counts as a failure of the engine.
    pub fn new(description: &str) -> (e: VipsError)
        ensures
            e@ == (ErrorKind::Engine, description@),
    {
        VipsError { kind: ErrorKind::Engine, description: description.to_owned() }
    }

    /// An error of the given kind.
    pub fn with_kind(kind: ErrorKind, description: &str) -> (e: VipsError)
        ensures
            e@ == (kind, description@),
    {
        VipsError { kind, description: description.to_owned() }
    }

    /// The error for what was read from the engine's error buffer: the text
    /// itself, or a note on why it could not be read as text.
    pub fn from_decoded(decoded: Result<String, String>) -> (e: VipsError)
        ensures
            e@ == (ErrorKind::Engine, decoded_text(decoded)),
    {
        match decoded {
            Ok(text) => VipsError::new(text.as_str()),
            Err(fault) => {
                let mut message = String::from_str("Error parsing Vips error buffer: `");
                message.append(fault.as_str());
                message.append("`");
                VipsError::new(message.as_str())
            },
        }
    }

    /// The error that the engine's error buffer describes. The buffer is
    /// overwritten by every failing engine call, so `buffer` must have been
    /// read directly after the call that failed.
    pub fn new_from_vips_state(buffer: &[u8]) -> (e: VipsError)
        ensures
            e@ == (ErrorKind::Engine, buffer_text(buffer@)),
    {
        VipsError::from_decoded(decode(buffer))
    }

    /// A copy of this error.
    pub fn duplicate(&self) -> (e: VipsError)
        ensures
            e@ == self@,
    {
        VipsError { kind: self.kind, description: self.description.clone() }
    }

    pub fn description(&self) -> (text: &str)
        ensures
            text@ == self.text(),
    {
        self.description.as_str()
    }

    pub fn kind(&self) -> (kind: ErrorKind)
        ensures
            kind == self.spec_kind(),
    {
        self.kind
    }
}

} // verus!
