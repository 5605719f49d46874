//! Error values with a numeric code and a bounded text, as the input and capture
//! backends report them.

use vstd::prelude::*;
use vstd::string::StringSliceAdditionalSpecFns;
use crate::text::{decimal, extend_chars, extend_str, spec_decimal, string_from_chars};

verus! {

/// Size of the message buffer, terminating NUL included.
pub const ERROR_STR_LEN: usize = 1024;

/// The code of an error whose input device cannot be opened.
pub const UINPUT_NOT_ACCESSIBLE_CODE: i32 = 101;

/// An error code with a message of at most 1023 bytes, stored NUL-padded.
pub struct CError {
    code: i32,
    error_str: Vec<u8>,
}

#[derive(Clone, Copy, Debug, PartialEq, Eq, Structural)]
pub enum CErrorCode {
    NoError,
    GenericError,
    UInputNotAccessible,
}

/// The kinds of failure of opening an input device that the error code tells apart.
#[derive(Clone, Copy, Debug, PartialEq, Eq, Structural)]
pub enum IoErrorKind {
    PermissionDenied,
    NotFound,
    Other,
}

/// Name for what `String::from_utf8_lossy` makes of some bytes.
pub uninterp spec fn utf8_lossy(bytes: Seq<u8>) -> Seq<char>;

/// Decodes bytes as UTF-8, replacing invalid sequences, by `String::from_utf8_lossy`.
/// Claims the result is the named function of the bytes, and the plain decoding when
/// the bytes are valid UTF-8; what replaces invalid sequences is left unsaid.
#[verifier::external_body]
fn from_utf8_lossy(bytes: &[u8]) -> (r: String)
    ensures
        r@ == utf8_lossy(bytes@),
        vstd::utf8::valid_utf8(bytes@) ==> r@ == vstd::utf8::decode_utf8(bytes@),
{
    String::from_utf8_lossy(bytes).into_owned()
}

/// The bytes before the first NUL.
pub open spec fn until_nul(b: Seq<u8>) -> Seq<u8>
    decreases b.len(),
{
    if b.len() == 0 {
        seq![]
    } else if b[0] == 0 {
        seq![]
    } else {
        seq![b[0]] + until_nul(b.drop_first())
    }
}

/// The message buffer holding the first 1023 bytes of `bytes`, NUL-padded.
pub open spec fn spec_error_buffer(bytes: Seq<u8>) -> Seq<u8> {
    let n = if bytes.len() < ERROR_STR_LEN - 1 { bytes.len() as int } else { ERROR_STR_LEN - 1 };
    bytes.take(n) + Seq::new((ERROR_STR_LEN - n) as nat, |i: int| 0u8)
}

/// Decimal text of a signed number.
pub open spec fn spec_signed_decimal(n: int) -> Seq<char> {
    if n < 0 {
        seq!['-'] + spec_decimal((-n) as nat)
    } else {
        spec_decimal(n as nat)
    }
}

/// The text of an error: its code and its message.
pub open spec fn spec_error_text(code: i32, message: Seq<u8>) -> Seq<char> {
    "CError: code: "@ + spec_signed_decimal(code as int) + " message: "@ + utf8_lossy(until_nul(message))
}

/// The error code of a failure to open an input device: 101 when the device is
/// missing or not permitted, 1 otherwise.
pub open spec fn spec_io_error_code(kind: IoErrorKind) -> i32 {
    match kind {
        IoErrorKind::PermissionDenied | IoErrorKind::NotFound => UINPUT_NOT_ACCESSIBLE_CODE,
        IoErrorKind::Other => 1,
    }
}

/// Decimal text of a signed number.
pub fn signed_decimal(n: i32) -> (r: Vec<char>)
    ensures
        r@ == spec_signed_decimal(n as int),
{
    if n < 0 {
        let mut v: Vec<char> = Vec::new();
        v.push('-');
        let m: i64 = -(n as i64);
        let d = decimal(m as u64);
        extend_chars(&mut v, d.as_slice());
        v
    } else {
        decimal(n as u64)
    }
}

impl CError {
    pub closed spec fn spec_code(&self) -> i32 {
        self.code
    }

    /// The stored message buffer.
    pub closed spec fn spec_buffer(&self) -> Seq<u8> {
        self.error_str@
    }

    pub closed spec fn wf(&self) -> bool {
        self.error_str@.len() == ERROR_STR_LEN
    }

    /// No error: code 0 and an empty message.
    pub fn new() -> (r: CError)
        ensures
            r.wf(),
            r.spec_code() == 0,
            r.spec_buffer() == Seq::new(ERROR_STR_LEN as nat, |i: int| 0u8),
    {
        let mut buf: Vec<u8> = Vec::new();
        let mut i: usize = 0;
        while i < ERROR_STR_LEN
            invariant
                i <= ERROR_STR_LEN,
                buf@ == Seq::new(i as nat, |k: int| 0u8),
            decreases ERROR_STR_LEN - i,
        {
            buf.push(0);
            i = i + 1;
        }
        CError { code: 0, error_str: buf }
    }

    /// An error with `code` and the first 1023 bytes of `msg`, the rest zeros.
    pub fn with_code(code: i32, msg: &str) -> (r: CError)
        ensures
            r.wf(),
            r.spec_code() == code,
            r.spec_buffer() == spec_error_buffer(msg.spec_bytes()),
    {
        let mut err = CError::new();
        err.code = code;
        let bytes = msg.as_bytes();
        let len = if bytes.len() < ERROR_STR_LEN - 1 { bytes.len() } else { ERROR_STR_LEN - 1 };
        let mut i: usize = 0;
        while i < len
            invariant
                i <= len <= bytes@.len(),
                len < ERROR_STR_LEN,
                err.code == code,
                err.error_str@ == bytes@.take(i as int) + Seq::new((ERROR_STR_LEN - i) as nat, |k: int| 0u8),
            decreases len - i,
        {
            err.error_str.set(i, bytes[i]);
            assert(err.error_str@ =~= bytes@.take(i + 1) + Seq::new((ERROR_STR_LEN - (i + 1)) as nat, |k: int| 0u8));
            i = i + 1;
        }
        assert(err.error_str@ =~= spec_error_buffer(msg.spec_bytes()));
        err
    }

    /// Whether the code is not zero.
    pub fn is_err(&self) -> (r: bool)
        ensures
            r == (self.spec_code() != 0),
    {
        self.code != 0
    }

    pub fn code(&self) -> (r: i32)
        ensures
            r == self.spec_code(),
    {
        self.code
    }

    /// Classifies the code: 0 is no error, 101 an inaccessible input device, any
    /// other a generic error.
    pub fn to_enum(&self) -> (r: CErrorCode)
        ensures
            r == (if self.spec_code() == 0 {
                CErrorCode::NoError
            } else if self.spec_code() == UINPUT_NOT_ACCESSIBLE_CODE {
                CErrorCode::UInputNotAccessible
            } else {
                CErrorCode::GenericError
            }),
    {
        match self.code {
            0 => CErrorCode::NoError,
            101 => CErrorCode::UInputNotAccessible,
            _ => CErrorCode::GenericError,
        }
    }

    /// The message bytes before the first NUL.
    pub fn message_bytes(&self) -> (r: Vec<u8>)
        ensures
            r@ == until_nul(self.spec_buffer()),
    {
        let mut out: Vec<u8> = Vec::new();
        let mut i: usize = 0;
        assert(self.error_str@.skip(0) == self.error_str@);
        assert(out@ + until_nul(self.error_str@) =~= until_nul(self.error_str@));
        while i < self.error_str.len()
            invariant
                i <= self.error_str@.len(),
                forall|k: int| 0 <= k < i ==> self.error_str@[k] != 0,
                until_nul(self.error_str@) == out@ + until_nul(self.error_str@.skip(i as int)),
            decreases self.error_str@.len() - i,
        {
            if self.error_str[i] == 0 {
                return out;
            }
            assert(self.error_str@.skip(i as int).drop_first() == self.error_str@.skip(i + 1));
            out.push(self.error_str[i]);
            assert(until_nul(self.error_str@) =~= out@ + until_nul(self.error_str@.skip(i + 1)));
            i = i + 1;
        }
        assert(self.error_str@.skip(i as int) =~= Seq::<u8>::empty());
        assert(out@ =~= out@ + until_nul(self.error_str@.skip(i as int)));
        out
    }

    /// The text of the error: `CError: code: <code> message: <message>`.
    pub fn to_display_string(&self) -> (r: String)
        ensures
            r@ == spec_error_text(self.spec_code(), self.spec_buffer()),
    {
        let mut v: Vec<char> = Vec::new();
        extend_str(&mut v, "CError: code: ");
        let d = signed_decimal(self.code);
        extend_chars(&mut v, d.as_slice());
        extend_str(&mut v, " message: ");
        let m = self.message_bytes();
        let text = from_utf8_lossy(m.as_slice());
        extend_str(&mut v, text.as_str());
        string_from_chars(v.as_slice())
    }

    /// The debug text of an error, the same as its display text.
    pub fn to_debug_string(&self) -> (r: String)
        ensures
            r@ == spec_error_text(self.spec_code(), self.spec_buffer()),
    {
        self.to_display_string()
    }
}

/// The error a failure to open an input device turns into, its text being
/// `<context>: <cause>`.
pub fn map_io_error(kind: IoErrorKind, context: &str, cause: &str) -> (r: CError)
    ensures
        r.spec_code() == spec_io_error_code(kind),
        r.wf(),
        r.spec_buffer() == spec_error_buffer(vstd::utf8::encode_utf8(context@ + ": "@ + cause@)),
{
    let code: i32 = match kind {
        IoErrorKind::PermissionDenied | IoErrorKind::NotFound => UINPUT_NOT_ACCESSIBLE_CODE,
        IoErrorKind::Other => 1,
    };
    let mut v: Vec<char> = Vec::new();
    extend_str(&mut v, context);
    extend_str(&mut v, ": ");
    extend_str(&mut v, cause);
    let s = string_from_chars(v.as_slice());
    CError::with_code(code, s.as_str())
}

} // verus!
