//! Typed X.509 certificates for attestation trust chains: conversion between
//! the PEM and DER encodings, detection of the encoding of a raw buffer, and
//! verification of one certificate's signature by another's public key.
pub mod cert;
pub mod error;
pub mod format;

pub use cert::{verify, Certificate, PublicKey};
pub use error::{CertError, CertFormatError};
pub use format::CertFormat;
