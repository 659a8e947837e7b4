//! A parsed X.509 certificate, its two encodings, its public key, and the
//! check that one certificate signs another.
//!
//! Parsing, encoding and signature checks are done by OpenSSL. A certificate
//! is modelled by its DER encoding: the bytes that `to_der` writes for it.
use vstd::prelude::*;
use vstd::string::StringSliceAdditionalSpecFns;

use openssl::error::ErrorStack;
use openssl::pkey::{PKey, Public};
use openssl::x509::X509;

use crate::error::CertError;
use crate::format::{
    contains, format_of, has_infix, has_prefix, lemma_no_leading_dash_is_der, lemma_sequence_tag_is_der, pem_marker,
    starts_with, CertFormat, PEM_START,
};

verus! {

/// OpenSSL's parsed certificate, carried opaquely.
#[verifier::external_type_specification]
#[verifier::external_body]
pub struct ExX509(X509);

/// OpenSSL's error report, only ever discarded.
#[verifier::external_type_specification]
#[verifier::external_body]
pub struct ExErrorStack(ErrorStack);

/// The marker for a key that holds public material only.
#[verifier::external_type_specification]
#[verifier::external_body]
pub struct ExPublic(Public);

/// OpenSSL's key, carried opaquely.
#[verifier::external_type_specification]
#[verifier::external_body]
#[verifier::reject_recursive_types(T)]
pub struct ExPKey<T>(PKey<T>);

/// Relies on `Clone for X509`: it takes another reference to the same
/// certificate. Nothing is claimed of the result.
pub assume_specification[ <X509 as Clone>::clone ](x: &X509) -> X509;

/// Relies on `PartialEq for X509`, which asks OpenSSL's `X509_cmp`. Nothing is
/// claimed of the answer.
pub assume_specification[ <X509 as PartialEq>::eq ](x: &X509, other: &X509) -> bool;

/// The DER encoding of the certificate that OpenSSL reads from the PEM text
/// `pem`, or `None` when it reads none.
pub uninterp spec fn pem_decoded(pem: Seq<u8>) -> Option<Seq<u8>>;

/// The DER encoding of the certificate that OpenSSL reads from `der`, or
/// `None` when it refuses the bytes.
pub uninterp spec fn der_decoded(der: Seq<u8>) -> Option<Seq<u8>>;

/// The PEM text that OpenSSL writes for the certificate encoded as `der`.
pub uninterp spec fn pem_encoded(der: Seq<u8>) -> Seq<u8>;

/// Whether OpenSSL can decode the public key of the certificate encoded as
/// `der`.
pub uninterp spec fn has_public_key(der: Seq<u8>) -> bool;

/// What OpenSSL's signature check answers for the certificate `signee`
/// under the public key of the certificate `signer`: `None` when the check
/// itself fails.
pub uninterp spec fn signature_check(signee: Seq<u8>, signer: Seq<u8>) -> Option<bool>;

/// The PEM header line that names how an encrypted block was encrypted.
pub const DEK_INFO: &'static str = "DEK-Info:";

/// The bytes of the encryption header's name.
pub open spec fn dek_info() -> Seq<u8> {
    DEK_INFO.spec_bytes()
}

/// The largest PEM buffer that OpenSSL's reader accepts.
pub const PEM_MAX_LEN: usize = 0x7fff_ffff;

/// A parsed certificate. Every value holds a certificate that OpenSSL
/// parsed: there is no empty or partly built certificate.
pub struct Certificate {
    x509: X509,
    /// Always the bytes that OpenSSL's `to_der` writes for `x509`. Each
    /// constructor sets it from the name of what OpenSSL read, or copies it
    /// along with the certificate, and must keep it so.
    der: Ghost<Seq<u8>>,
}

impl View for Certificate {
    type V = Seq<u8>;

    /// The DER encoding of the certificate.
    closed spec fn view(&self) -> Seq<u8> {
        self.der@
    }
}

/// A public key taken from a certificate.
pub struct PublicKey {
    pkey: PKey<Public>,
    /// Always the DER encoding of the certificate that `pkey` was taken from.
    owner: Ghost<Seq<u8>>,
}

impl View for PublicKey {
    type V = Seq<u8>;

    /// The DER encoding of the certificate that the key was taken from.
    closed spec fn view(&self) -> Seq<u8> {
        self.owner@
    }
}

/// What reading `bytes` in `format` gives: the certificate's DER encoding,
/// or a decode error. PEM text that is too long for OpenSSL's reader, or
/// that holds an encryption header, is not handed to it and gives the error.
pub open spec fn read_spec(format: CertFormat, bytes: Seq<u8>) -> Result<Seq<u8>, CertError> {
    let decoded = match format {
        CertFormat::Pem => if bytes.len() <= PEM_MAX_LEN && !has_infix(bytes, dek_info()) {
            pem_decoded(bytes)
        } else {
            None
        },
        CertFormat::Der => der_decoded(bytes),
    };
    match decoded {
        Some(d) => Ok(d),
        None => Err(CertError::Decode),
    }
}

/// A result that holds a certificate, seen through its DER encoding.
pub open spec fn cert_result_view(r: Result<Certificate, CertError>) -> Result<Seq<u8>, CertError> {
    match r {
        Ok(c) => Ok(c@),
        Err(e) => Err(e),
    }
}

/// The outcome of checking that `signer` signs `signee`.
pub open spec fn verify_spec(signer: Seq<u8>, signee: Seq<u8>) -> Result<(), CertError> {
    if !has_public_key(signer) {
        Err(CertError::PublicKey)
    } else {
        verdict_spec(signature_check(signee, signer) == Some(true))
    }
}

/// The outcome of a signature check that answered `signed`.
pub open spec fn verdict_spec(signed: bool) -> Result<(), CertError> {
    if signed {
        Ok(())
    } else {
        Err(CertError::Verification)
    }
}

/// Relies on `X509::from_pem`: it reads a certificate from PEM text, and
/// panics on a buffer longer than `i32::MAX` bytes. Given no pass phrase, it
/// would ask the terminal for one on an encrypted block, which carries a
/// `DEK-Info:` header; such text is kept out.
#[verifier::external_body]
fn x509_from_pem(pem: &[u8]) -> (r: Result<Certificate, ErrorStack>)
    requires
        pem@.len() <= PEM_MAX_LEN,
        !has_infix(pem@, dek_info()),
    ensures
        r is Ok <==> pem_decoded(pem@) is Some,
        r is Ok ==> r->Ok_0@ == pem_decoded(pem@)->Some_0,
{
    X509::from_pem(pem).map(|x509| Certificate { x509, der: Ghost(pem_decoded(pem@)->Some_0) })
}

/// Relies on `X509::from_der`: it reads a certificate from DER bytes, which
/// must open with the identifier of a constructed universal SEQUENCE, never
/// with the byte of a dash (0x2d, the identifier of another type).
#[verifier::external_body]
fn x509_from_der(der: &[u8]) -> (r: Result<Certificate, ErrorStack>)
    ensures
        r is Ok <==> der_decoded(der@) is Some,
        r is Ok ==> r->Ok_0@ == der_decoded(der@)->Some_0,
        r is Ok ==> der@.len() > 0 && der@[0] != 45u8,
{
    X509::from_der(der).map(|x509| Certificate { x509, der: Ghost(der_decoded(der@)->Some_0) })
}

/// Relies on `X509Ref::to_pem`: for a certificate that OpenSSL parsed it
/// writes the base64 of the DER encoding between the armour lines, opening
/// with `-----BEGIN CERTIFICATE-----` and with no encryption header, and
/// `X509::from_pem` reads that text back to the same certificate.
#[verifier::external_body]
fn x509_to_pem(c: &Certificate) -> (r: Result<Vec<u8>, ErrorStack>)
    ensures
        r is Ok,
        r is Ok ==> r->Ok_0@ == pem_encoded(c@),
        r is Ok ==> pem_decoded(r->Ok_0@) == Some(c@),
        r is Ok ==> has_prefix(r->Ok_0@, pem_marker()),
        r is Ok ==> !has_infix(r->Ok_0@, dek_info()),
{
    c.x509.to_pem()
}

/// Relies on `X509Ref::to_der`: for a certificate that OpenSSL parsed it
/// writes the DER encoding, an ASN.1 SEQUENCE that opens with the tag 0x30,
/// and `X509::from_der` reads those bytes back to the same certificate.
#[verifier::external_body]
fn x509_to_der(c: &Certificate) -> (r: Result<Vec<u8>, ErrorStack>)
    ensures
        r is Ok,
        r is Ok ==> r->Ok_0@ == c@,
        r is Ok ==> der_decoded(r->Ok_0@) == Some(c@),
        r is Ok ==> r->Ok_0@.len() > 0 && r->Ok_0@[0] == 0x30u8,
{
    c.x509.to_der()
}

/// Relies on `X509Ref::public_key`: it decodes the certificate's public key.
#[verifier::external_body]
fn x509_public_key(c: &Certificate) -> (r: Result<PublicKey, ErrorStack>)
    ensures
        r is Ok <==> has_public_key(c@),
        r is Ok ==> r->Ok_0@ == c@,
{
    c.x509.public_key().map(|pkey| PublicKey { pkey, owner: Ghost(c@) })
}

/// Relies on `X509Ref::verify`: it checks the certificate's signature under
/// the given key.
#[verifier::external_body]
fn x509_verify(signee: &Certificate, key: &PublicKey) -> (r: Result<bool, ErrorStack>)
    ensures
        r is Ok <==> signature_check(signee@, key@) is Some,
        r is Ok ==> signature_check(signee@, key@) == Some(r->Ok_0),
{
    signee.x509.verify(&key.pkey)
}


impl Certificate {
    /// Creates a certificate from PEM text. Text longer than `PEM_MAX_LEN`
    /// bytes, or holding an encrypted block (a `DEK-Info:` header), is
    /// refused with `Decode`.
    pub fn from_pem(pem: &[u8]) -> (r: Result<Certificate, CertError>)
        ensures
            cert_result_view(r) == read_spec(CertFormat::Pem, pem@),
    {
        if pem.len() > PEM_MAX_LEN || contains(pem, DEK_INFO.as_bytes()) {
            return Err(CertError::Decode);
        }
        match x509_from_pem(pem) {
            Ok(cert) => Ok(cert),
            Err(_) => Err(CertError::Decode),
        }
    }

    /// Writes the certificate as PEM text. It always succeeds; the text opens
    /// with the PEM line, and `from_pem` and `from_bytes` read it back to this
    /// certificate.
    pub fn to_pem(&self) -> (r: Result<Vec<u8>, CertError>)
        ensures
            r is Ok,
            r->Ok_0@ == pem_encoded(self@),
            has_prefix(r->Ok_0@, pem_marker()),
            format_of(r->Ok_0@) == CertFormat::Pem,
            r->Ok_0@.len() <= PEM_MAX_LEN ==> read_spec(CertFormat::Pem, r->Ok_0@)
                == Ok::<Seq<u8>, CertError>(self@),
            r->Ok_0@.len() <= PEM_MAX_LEN ==> read_spec(format_of(r->Ok_0@), r->Ok_0@)
                == Ok::<Seq<u8>, CertError>(self@),
    {
        match x509_to_pem(self) {
            Ok(pem) => Ok(pem),
            Err(_) => Err(CertError::Decode),
        }
    }

    /// Creates a certificate from DER bytes. Bytes that it accepts are never
    /// taken for PEM, so `from_bytes` reads them the same way.
    pub fn from_der(der: &[u8]) -> (r: Result<Certificate, CertError>)
        ensures
            cert_result_view(r) == read_spec(CertFormat::Der, der@),
            r is Ok ==> format_of(der@) == CertFormat::Der,
            r is Ok ==> read_spec(format_of(der@), der@) == read_spec(CertFormat::Der, der@),
    {
        match x509_from_der(der) {
            Ok(cert) => {
                proof {
                    lemma_no_leading_dash_is_der(der@);
                }
                Ok(cert)
            },
            Err(_) => Err(CertError::Decode),
        }
    }

    /// Writes the certificate's DER encoding. It always succeeds; the bytes
    /// open with the SEQUENCE tag 0x30, and `from_der` and `from_bytes` read
    /// them back to this certificate.
    pub fn to_der(&self) -> (r: Result<Vec<u8>, CertError>)
        ensures
            r is Ok,
            r->Ok_0@ == self@,
            r->Ok_0@.len() > 0 && r->Ok_0@[0] == 0x30u8,
            format_of(r->Ok_0@) == CertFormat::Der,
            read_spec(CertFormat::Der, r->Ok_0@) == Ok::<Seq<u8>, CertError>(self@),
            read_spec(format_of(r->Ok_0@), r->Ok_0@) == Ok::<Seq<u8>, CertError>(self@),
    {
        match x509_to_der(self) {
            Ok(der) => {
                proof {
                    lemma_sequence_tag_is_der(der@);
                }
                Ok(der)
            },
            Err(_) => Err(CertError::Decode),
        }
    }

    /// The certificate's public key.
    pub fn public_key(&self) -> (r: Result<PublicKey, CertError>)
        ensures
            r is Ok <==> has_public_key(self@),
            r is Ok ==> r->Ok_0@ == self@,
            r is Err ==> r->Err_0 == CertError::PublicKey,
    {
        match x509_public_key(self) {
            Ok(key) => Ok(key),
            Err(_) => Err(CertError::PublicKey),
        }
    }

    /// Tells the encoding of `bytes` from their first twenty-seven bytes:
    /// PEM when they are the PEM opening line, DER otherwise. A buffer
    /// shorter than that line is taken to be DER.
    pub fn identify_format(bytes: &[u8]) -> (r: CertFormat)
        ensures
            r == format_of(bytes@),
    {
        if starts_with(bytes, PEM_START.as_bytes()) {
            CertFormat::Pem
        } else {
            CertFormat::Der
        }
    }

    /// Creates a certificate from raw bytes in either encoding, reading them
    /// in the encoding that `identify_format` tells.
    pub fn from_bytes(raw_bytes: &[u8]) -> (r: Result<Certificate, CertError>)
        ensures
            cert_result_view(r) == read_spec(format_of(raw_bytes@), raw_bytes@),
    {
        match Certificate::identify_format(raw_bytes) {
            CertFormat::Pem => Certificate::from_pem(raw_bytes),
            CertFormat::Der => Certificate::from_der(raw_bytes),
        }
    }

    /// The OpenSSL certificate held.
    pub fn x509(&self) -> &X509 {
        &self.x509
    }

    /// Gives up the OpenSSL certificate held.
    pub fn into_x509(self) -> X509 {
        self.x509
    }
}

impl PublicKey {
    /// The OpenSSL key held.
    pub fn pkey(&self) -> &PKey<Public> {
        &self.pkey
    }
}

impl Clone for Certificate {
    fn clone(&self) -> (r: Certificate)
        ensures
            r@ == self@,
    {
        Certificate { x509: self.x509.clone(), der: Ghost(self.der@) }
    }
}

/// Two certificates are equal when OpenSSL's `X509_cmp` finds them so: it
/// compares their fingerprints and the encodings of their signed parts.
/// Contracts claim nothing of the answer; they speak of `@` instead.
impl PartialEq for Certificate {
    fn eq(&self, other: &Certificate) -> (r: bool) {
        self.x509 == other.x509
    }
}

impl vstd::std_specs::cmp::PartialEqSpecImpl for Certificate {
    open spec fn obeys_eq_spec() -> bool {
        false
    }

    open spec fn eq_spec(&self, other: &Certificate) -> bool {
        self@ == other@
    }
}

impl Eq for Certificate {
}

/// The outcome of a signature check: success when it answered `signed`,
/// a verification failure otherwise.
pub fn verdict(signed: bool) -> (r: Result<(), CertError>)
    ensures
        r == verdict_spec(signed),
{
    if signed {
        Ok(())
    } else {
        Err(CertError::Verification)
    }
}

/// Checks that the public key of `signer` validates the signature of
/// `signee`. Fails with `PublicKey` when the signer's key cannot be decoded,
/// and with `Verification` when the signature does not validate. When
/// OpenSSL cannot carry out the check at all, the signature is not taken as
/// valid, and that too is reported as `Verification`.
pub fn verify(signer: &Certificate, signee: &Certificate) -> (r: Result<(), CertError>)
    ensures
        r == verify_spec(signer@, signee@),
{
    let key = signer.public_key()?;
    let signed = match x509_verify(signee, &key) {
        Ok(answer) => answer,
        Err(_) => false,
    };
    verdict(signed)
}

/// `from_bytes` on a buffer that opens with the PEM line reads it as
/// `from_pem` does.
pub proof fn lemma_from_bytes_reads_pem(bytes: Seq<u8>)
    requires
        has_prefix(bytes, pem_marker()),
    ensures
        read_spec(format_of(bytes), bytes) == read_spec(CertFormat::Pem, bytes),
{
}

/// `from_bytes` on a buffer that opens with the DER tag of a sequence, as
/// every DER certificate does, reads it as `from_der` does.
pub proof fn lemma_from_bytes_reads_der(bytes: Seq<u8>)
    requires
        bytes.len() > 0,
        bytes[0] == 0x30u8,
    ensures
        read_spec(format_of(bytes), bytes) == read_spec(CertFormat::Der, bytes),
{
    lemma_sequence_tag_is_der(bytes);
}

} // verus!
