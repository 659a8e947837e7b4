//! Errors reported by this library.
use vstd::prelude::*;

verus! {

/// A format name other than `"pem"` or `"der"` was given.
#[derive(Clone, Copy, Debug, PartialEq, Eq, Structural)]
pub enum CertFormatError {
    UnknownFormat,
}

/// Why a certificate could not be built, read or verified.
#[derive(Clone, Copy, Debug, PartialEq, Eq, Structural)]
pub enum CertError {
    /// The bytes are not a certificate in the encoding that was tried.
    Decode,
    /// The certificate's public key could not be decoded.
    PublicKey,
    /// The signer's key does not validate the signee's signature.
    Verification,
}

} // verus!
