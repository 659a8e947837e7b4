//! The two wire encodings of a certificate, and how a raw buffer is told to
//! be one or the other.
use vstd::prelude::*;
use vstd::string::StringSliceAdditionalSpecFns;
use vstd::utf8::{encode_utf8_decode_utf8, is_ascii_chars_encode_utf8};

use crate::error::CertFormatError;

verus! {

/// The armour line that opens a PEM certificate.
pub const PEM_START: &'static str = "-----BEGIN CERTIFICATE-----";

/// The encoding of a certificate.
#[derive(Clone, Copy, Debug, PartialEq, Eq, Structural)]
pub enum CertFormat {
    Pem,
    Der,
}

/// The bytes of the PEM opening line.
pub open spec fn pem_marker() -> Seq<u8> {
    PEM_START.spec_bytes()
}

/// `bytes` begins with `prefix`.
pub open spec fn has_prefix(bytes: Seq<u8>, prefix: Seq<u8>) -> bool {
    prefix.len() <= bytes.len() && bytes.subrange(0, prefix.len() as int) == prefix
}

/// The encoding a buffer is taken to be in: PEM when it opens with the PEM
/// line, DER otherwise (short buffers included).
pub open spec fn format_of(bytes: Seq<u8>) -> CertFormat {
    if has_prefix(bytes, pem_marker()) {
        CertFormat::Pem
    } else {
        CertFormat::Der
    }
}

/// The canonical name of a format.
pub open spec fn format_name(f: CertFormat) -> Seq<char> {
    match f {
        CertFormat::Pem => "pem"@,
        CertFormat::Der => "der"@,
    }
}

/// What parsing a format name gives.
pub open spec fn parse_spec(s: Seq<char>) -> Result<CertFormat, CertFormatError> {
    if s == "pem"@ {
        Ok(CertFormat::Pem)
    } else if s == "der"@ {
        Ok(CertFormat::Der)
    } else {
        Err(CertFormatError::UnknownFormat)
    }
}

/// `pattern` occurs in `bytes` at `at`.
pub open spec fn occurs_at(bytes: Seq<u8>, pattern: Seq<u8>, at: int) -> bool {
    0 <= at && at + pattern.len() <= bytes.len() && bytes.subrange(at, at + pattern.len()) == pattern
}

/// `pattern` occurs somewhere in `bytes`.
pub open spec fn has_infix(bytes: Seq<u8>, pattern: Seq<u8>) -> bool {
    exists|at: int| #[trigger] occurs_at(bytes, pattern, at)
}

/// Whether `pattern` occurs in `bytes` at `at`.
fn matches_at(bytes: &[u8], pattern: &[u8], at: usize) -> (r: bool)
    requires
        at + pattern@.len() <= bytes@.len(),
    ensures
        r == occurs_at(bytes@, pattern@, at as int),
{
    let len: usize = bytes.len();
    let mut i: usize = 0;
    while i < pattern.len()
        invariant
            at + pattern@.len() <= bytes@.len() == len,
            i <= pattern@.len(),
            forall|j: int| 0 <= j < i ==> bytes@[at + j] == pattern@[j],
        decreases pattern@.len() - i,
    {
        if bytes[at + i] != pattern[i] {
            assert(bytes@.subrange(at as int, at + pattern@.len())[i as int] != pattern@[i as int]);
            return false;
        }
        i = i + 1;
    }
    assert(bytes@.subrange(at as int, at + pattern@.len()) =~= pattern@);
    true
}

/// Whether `bytes` begins with `prefix`; never reads past the end of either.
pub fn starts_with(bytes: &[u8], prefix: &[u8]) -> (r: bool)
    ensures
        r == has_prefix(bytes@, prefix@),
{
    if prefix.len() > bytes.len() {
        return false;
    }
    matches_at(bytes, prefix, 0)
}

/// Whether `pattern` occurs anywhere in `bytes`.
pub fn contains(bytes: &[u8], pattern: &[u8]) -> (r: bool)
    ensures
        r == has_infix(bytes@, pattern@),
{
    if pattern.len() > bytes.len() {
        assert(!has_infix(bytes@, pattern@));
        return false;
    }
    if pattern.len() == 0 {
        assert(bytes@.subrange(0, 0) =~= pattern@);
        assert(occurs_at(bytes@, pattern@, 0));
        return true;
    }
    let last = bytes.len() - pattern.len();
    let mut at: usize = 0;
    while at <= last
        invariant
            last == bytes@.len() - pattern@.len(),
            0 < pattern@.len() <= bytes@.len() <= usize::MAX,
            at <= last + 1,
            forall|k: int| 0 <= k < at ==> !occurs_at(bytes@, pattern@, k),
        decreases last + 1 - at,
    {
        if matches_at(bytes, pattern, at) {
            return true;
        }
        at = at + 1;
    }
    assert forall|k: int| !occurs_at(bytes@, pattern@, k) by {
        if 0 <= k < at {
        }
    }
    false
}

/// Two strings are equal exactly when their UTF-8 encodings are.
proof fn lemma_same_bytes_same_str(a: &str, b: &str)
    requires
        a.spec_bytes() == b.spec_bytes(),
    ensures
        a@ == b@,
{
    encode_utf8_decode_utf8(a@);
    encode_utf8_decode_utf8(b@);
}

/// Whether two strings hold the same characters.
fn str_eq(a: &str, b: &str) -> (r: bool)
    ensures
        r == (a@ == b@),
{
    let x = a.as_bytes();
    let y = b.as_bytes();
    if x.len() == y.len() && starts_with(x, y) {
        assert(x@ =~= y@);
        proof {
            lemma_same_bytes_same_str(a, b);
        }
        true
    } else {
        assert(a@ == b@ ==> x@.subrange(0, y@.len() as int) =~= y@);
        false
    }
}

impl CertFormat {
    /// Reads a format from its canonical name, `"pem"` or `"der"`.
    pub fn parse(s: &str) -> (r: Result<CertFormat, CertFormatError>)
        ensures
            r == parse_spec(s@),
    {
        if str_eq(s, "pem") {
            Ok(CertFormat::Pem)
        } else if str_eq(s, "der") {
            Ok(CertFormat::Der)
        } else {
            Err(CertFormatError::UnknownFormat)
        }
    }

    /// The canonical name of this format.
    pub fn as_str(&self) -> (r: &'static str)
        ensures
            r@ == format_name(*self),
    {
        match self {
            CertFormat::Pem => "pem",
            CertFormat::Der => "der",
        }
    }
}

impl std::str::FromStr for CertFormat {
    type Err = CertFormatError;

    fn from_str(s: &str) -> (r: Result<CertFormat, CertFormatError>)
        ensures
            r == parse_spec(s@),
    {
        CertFormat::parse(s)
    }
}

/// Parsing a format's canonical name gives that format back.
pub proof fn lemma_name_round_trip(f: CertFormat)
    ensures
        parse_spec(format_name(f)) == Ok::<CertFormat, CertFormatError>(f),
{
    reveal_strlit("pem");
    reveal_strlit("der");
    assert("pem"@ != "der"@) by {
        assert("pem"@[0] != "der"@[0]);
    }
}

/// The PEM opening line is twenty-seven bytes long and begins with a dash.
pub proof fn lemma_pem_marker_len()
    ensures
        pem_marker().len() == 27,
        pem_marker()[0] == 45u8,
{
    reveal_strlit("-----BEGIN CERTIFICATE-----");
    is_ascii_chars_encode_utf8(PEM_START@);
}

/// A buffer is PEM exactly when its first twenty-seven bytes are the PEM
/// opening line; any other buffer, of any length, is DER.
pub proof fn lemma_format_of_first_bytes(bytes: Seq<u8>)
    ensures
        format_of(bytes) == (if bytes.len() >= 27 && bytes.subrange(0, 27) == pem_marker() {
            CertFormat::Pem
        } else {
            CertFormat::Der
        }),
{
    lemma_pem_marker_len();
}

/// A buffer shorter than the PEM opening line is DER.
pub proof fn lemma_short_buffer_is_der(bytes: Seq<u8>)
    requires
        bytes.len() < 27,
    ensures
        format_of(bytes) == CertFormat::Der,
{
    lemma_pem_marker_len();
}

/// A buffer whose first byte is not a dash is DER.
pub proof fn lemma_no_leading_dash_is_der(bytes: Seq<u8>)
    requires
        bytes.len() > 0,
        bytes[0] != 45u8,
    ensures
        format_of(bytes) == CertFormat::Der,
{
    lemma_pem_marker_len();
    if has_prefix(bytes, pem_marker()) {
        assert(bytes.subrange(0, 27)[0] == bytes[0]);
    }
}

/// A buffer that opens with the DER tag of a sequence is DER.
pub proof fn lemma_sequence_tag_is_der(bytes: Seq<u8>)
    requires
        bytes.len() > 0,
        bytes[0] == 0x30u8,
    ensures
        format_of(bytes) == CertFormat::Der,
{
    lemma_no_leading_dash_is_der(bytes);
}

} // verus!
