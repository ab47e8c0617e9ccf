//! Text on its way to and from the engine: strings without a zero byte, the
//! decoding of the engine's bytes, and decimal numbers for messages.

use vstd::prelude::*;
use vstd::string::*;
use vstd::utf8::*;
use vstd::slice::slice_to_vec;
use crate::error::{ErrorKind, VipsError};

verus! {

/// The character of one decimal digit.
pub open spec fn digit(d: int) -> char {
    if d == 0 {
        '0'
    } else if d == 1 {
        '1'
    } else if d == 2 {
        '2'
    } else if d == 3 {
        '3'
    } else if d == 4 {
        '4'
    } else if d == 5 {
        '5'
    } else if d == 6 {
        '6'
    } else if d == 7 {
        '7'
    } else if d == 8 {
        '8'
    } else {
        '9'
    }
}

/// A natural number in decimal, without leading zeros.
pub open spec fn decimal_text(n: nat) -> Seq<char>
    decreases n,
{
    if n < 10 {
        seq![digit(n as int)]
    } else {
        decimal_text(n / 10).push(digit((n % 10) as int))
    }
}

fn digit_str(d: usize) -> (s: &'static str)
    requires
        d < 10,
    ensures
        s@ == seq![digit(d as int)],
{
    proof {
        reveal_strlit("0");
        reveal_strlit("1");
        reveal_strlit("2");
        reveal_strlit("3");
        reveal_strlit("4");
        reveal_strlit("5");
        reveal_strlit("6");
        reveal_strlit("7");
        reveal_strlit("8");
        reveal_strlit("9");
    }
    let s: &'static str = if d == 0 {
        "0"
    } else if d == 1 {
        "1"
    } else if d == 2 {
        "2"
    } else if d == 3 {
        "3"
    } else if d == 4 {
        "4"
    } else if d == 5 {
        "5"
    } else if d == 6 {
        "6"
    } else if d == 7 {
        "7"
    } else if d == 8 {
        "8"
    } else {
        "9"
    };
    assert(s@ =~= seq![digit(d as int)]);
    s
}

/// Writes a number in decimal.
pub fn decimal(n: usize) -> (text: String)
    ensures
        text@ == decimal_text(n as nat),
    decreases n,
{
    if n < 10 {
        digit_str(n).to_owned()
    } else {
        let mut text = decimal(n / 10);
        text.append(digit_str(n % 10));
        assert(text@ =~= decimal_text(n as nat));
        text
    }
}

/// Whether a zero byte stands before position `end`.
pub open spec fn nul_before(bytes: Seq<u8>, end: int) -> bool {
    exists|i: int| 0 <= i < end && i < bytes.len() && #[trigger] bytes[i] == 0
}

/// Whether the bytes hold a zero byte.
pub open spec fn has_nul(bytes: Seq<u8>) -> bool {
    nul_before(bytes, bytes.len() as int)
}

/// The place of the first zero byte, or the length where there is none: the
/// one position that is a zero byte or the end and that no zero byte
/// precedes.
pub open spec fn first_nul(bytes: Seq<u8>) -> int {
    choose|at: int|
        0 <= at <= bytes.len() && !nul_before(bytes, at) && (at < bytes.len() ==> bytes[at] == 0)
}

/// Only one position has no zero byte before it and is a zero byte or the end.
pub proof fn lemma_first_nul_unique(bytes: Seq<u8>, at: int)
    requires
        0 <= at <= bytes.len(),
        !nul_before(bytes, at),
        at < bytes.len() ==> bytes[at] == 0,
    ensures
        first_nul(bytes) == at,
        has_nul(bytes) <==> at < bytes.len(),
{
    let other = first_nul(bytes);
    assert(0 <= other <= bytes.len() && !nul_before(bytes, other) && (other < bytes.len()
        ==> bytes[other] == 0));
    if other < at {
        assert(bytes[other] == 0);
    }
    if at < other {
        assert(bytes[at] == 0);
    }
    if at < bytes.len() {
        assert(bytes[at] == 0);
    }
}

/// The place of the first zero byte, or the length where there is none.
pub fn find_nul(bytes: &[u8]) -> (at: usize)
    ensures
        at == first_nul(bytes@),
        at <= bytes@.len(),
        !nul_before(bytes@, at as int),
        at < bytes@.len() ==> bytes@[at as int] == 0,
        has_nul(bytes@) <==> at < bytes@.len(),
{
    let mut at: usize = 0;
    while at < bytes.len()
        invariant
            at <= bytes@.len(),
            !nul_before(bytes@, at as int),
        decreases bytes@.len() - at,
    {
        if bytes[at] == 0 {
            proof {
                lemma_first_nul_unique(bytes@, at as int);
            }
            return at;
        }
        at += 1;
    }
    proof {
        lemma_first_nul_unique(bytes@, at as int);
    }
    at
}

/// What is said of a string that holds a zero byte at `at`.
pub open spec fn nul_error_text(at: nat) -> Seq<char> {
    "nul byte found in provided data at position: "@ + decimal_text(at)
}

/// A text of ASCII characters other than the zero character holds no zero
/// byte.
pub proof fn lemma_ascii_nul_free(text: &str)
    requires
        is_ascii(text),
        forall|i: int| 0 <= i < text@.len() ==> text@[i] != '\0',
    ensures
        !has_nul(text.spec_bytes()),
        text.spec_bytes().len() == text@.len(),
        forall|i: int| 0 <= i < text@.len() ==> text.spec_bytes()[i] == text@[i] as u8,
{
    is_ascii_spec_bytes(text);
    let bytes = text.spec_bytes();
    assert forall|i: int| 0 <= i < bytes.len() implies #[trigger] bytes[i] != 0 by {
        assert(text@[i] != '\0');
        assert('\0' <= text@[i] <= '\u{7f}');
    }
}

/// What std says of bytes that are not UTF-8: the text of the `Utf8Error`
/// that `std::str::from_utf8` returns for them.
pub uninterp spec fn utf8_error_text(bytes: Seq<u8>) -> Seq<char>;

/// Decodes bytes with `std::str::from_utf8`. Trusted: the call succeeds on
/// exactly the valid UTF-8 sequences and then yields the characters they
/// encode; otherwise the result is what the returned `Utf8Error` displays.
#[verifier::external_body]
pub(crate) fn decode(bytes: &[u8]) -> (r: Result<String, String>)
    ensures
        r is Ok <==> valid_utf8(bytes@),
        r is Ok ==> r->Ok_0@ == decode_utf8(bytes@),
        r is Err ==> r->Err_0@ == utf8_error_text(bytes@),
{
    match std::str::from_utf8(bytes) {
        Ok(text) => Ok(text.to_owned()),
        Err(fault) => Err(fault.to_string()),
    }
}

/// Bytes for the engine's C interface: a string in which no zero byte occurs,
/// so that the engine reads all of it.
#[derive(Debug)]
pub struct CText {
    bytes: Vec<u8>,
}

impl View for CText {
    type V = Seq<u8>;

    closed spec fn view(&self) -> Seq<u8> {
        self.bytes@
    }
}

impl CText {
    #[verifier::type_invariant]
    spec fn nul_free(&self) -> bool {
        !has_nul(self.bytes@)
    }

    /// These bytes, if none of them is zero. Otherwise the error names the
    /// first zero byte.
    pub fn from_bytes(bytes: &[u8]) -> (r: Result<CText, VipsError>)
        ensures
            r is Ok <==> !has_nul(bytes@),
            r is Ok ==> r->Ok_0@ == bytes@,
            r is Err ==> r->Err_0@ == (
                ErrorKind::Conversion,
                nul_error_text(first_nul(bytes@) as nat),
            ),
    {
        let at = find_nul(bytes);
        if at < bytes.len() {
            let mut message = String::from_str("nul byte found in provided data at position: ");
            let number = decimal(at);
            message.append(number.as_str());
            Err(VipsError::with_kind(ErrorKind::Conversion, message.as_str()))
        } else {
            Ok(CText { bytes: slice_to_vec(bytes) })
        }
    }

    /// The bytes of `text`, under the same condition.
    pub fn new(text: &str) -> (r: Result<CText, VipsError>)
        ensures
            r is Ok <==> !has_nul(text.spec_bytes()),
            r is Ok ==> r->Ok_0@ == text.spec_bytes(),
            r is Err ==> r->Err_0@ == (
                ErrorKind::Conversion,
                nul_error_text(first_nul(text.spec_bytes()) as nat),
            ),
    {
        CText::from_bytes(text.as_bytes())
    }

    /// The empty string.
    pub fn empty() -> (name: CText)
        ensures
            name@ == Seq::<u8>::empty(),
    {
        CText { bytes: Vec::new() }
    }

    /// The bytes of a text that is known to hold no zero byte.
    pub fn from_nul_free(text: &str) -> (name: CText)
        requires
            !has_nul(text.spec_bytes()),
        ensures
            name@ == text.spec_bytes(),
    {
        CText { bytes: slice_to_vec(text.as_bytes()) }
    }

    /// The bytes, none of which is zero.
    pub fn as_bytes(&self) -> (bytes: &[u8])
        ensures
            bytes@ == self@,
            !has_nul(self@),
    {
        proof {
            use_type_invariant(self);
        }
        self.bytes.as_slice()
    }

    /// A copy of these bytes.
    pub fn duplicate(&self) -> (copy: CText)
        ensures
            copy@ == self@,
    {
        proof {
            use_type_invariant(self);
        }
        CText { bytes: slice_to_vec(self.bytes.as_slice()) }
    }
}

} // verus!
