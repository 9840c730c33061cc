use vstd::prelude::*;

verus! {

/// A failure kind reported by the package verification engine.
#[derive(Clone, Copy, Debug, PartialEq, Eq, Structural)]
pub enum ErrorKind {
    Io,
    ApkIsRaw,
    NoSigner,
    NoSignature,
    NoDigest,
    InvalidSignedData,
    V3NotSupported,
    VerificationFailed,
    PubKeyError,
    UnsupportedAlgorithm,
    DigestMismatch,
    InvalidApkStructure,
    InvalidStartSignature,
    InvalidEndSignature,
    EocdNotFound,
    InvalidEocd,
    Format,
    Signature,
    Padding,
}

/// Status reported when verification succeeds.
pub const STATUS_OK: i32 = 0;

/// Status reported when the path cannot be read or the archive cannot be opened.
pub const STATUS_OPEN_FAILED: i32 = 1;

/// The status code that crosses the boundary for each failure kind.
pub open spec fn status_of(kind: ErrorKind) -> i32 {
    match kind {
        ErrorKind::Io => 2,
        ErrorKind::ApkIsRaw => 3,
        ErrorKind::NoSigner => 4,
        ErrorKind::NoSignature => 5,
        ErrorKind::NoDigest => 6,
        ErrorKind::InvalidSignedData => 7,
        ErrorKind::V3NotSupported => 8,
        ErrorKind::VerificationFailed => 9,
        ErrorKind::PubKeyError => 10,
        ErrorKind::UnsupportedAlgorithm => 11,
        ErrorKind::DigestMismatch => 12,
        ErrorKind::InvalidApkStructure => 13,
        ErrorKind::InvalidStartSignature => 14,
        ErrorKind::InvalidEndSignature => 15,
        ErrorKind::EocdNotFound => 16,
        ErrorKind::InvalidEocd => 17,
        ErrorKind::Format => 18,
        ErrorKind::Signature => 19,
        ErrorKind::Padding => 20,
    }
}

/// Maps a failure kind to its status code.
pub fn status_code(kind: ErrorKind) -> (r: i32)
    ensures
        r == status_of(kind),
{
    match kind {
        ErrorKind::Io => 2,
        ErrorKind::ApkIsRaw => 3,
        ErrorKind::NoSigner => 4,
        ErrorKind::NoSignature => 5,
        ErrorKind::NoDigest => 6,
        ErrorKind::InvalidSignedData => 7,
        ErrorKind::V3NotSupported => 8,
        ErrorKind::VerificationFailed => 9,
        ErrorKind::PubKeyError => 10,
        ErrorKind::UnsupportedAlgorithm => 11,
        ErrorKind::DigestMismatch => 12,
        ErrorKind::InvalidApkStructure => 13,
        ErrorKind::InvalidStartSignature => 14,
        ErrorKind::InvalidEndSignature => 15,
        ErrorKind::EocdNotFound => 16,
        ErrorKind::InvalidEocd => 17,
        ErrorKind::Format => 18,
        ErrorKind::Signature => 19,
        ErrorKind::Padding => 20,
    }
}

/// Every failure kind has a code of its own: distinct kinds never share a
/// code, and no failure code collides with success or with an open failure.
pub proof fn lemma_status_codes_distinct(a: ErrorKind, b: ErrorKind)
    ensures
        status_of(a) == status_of(b) <==> a == b,
        2 <= status_of(a) <= 20,
        status_of(a) != STATUS_OK,
        status_of(a) != STATUS_OPEN_FAILED,
{
}

} // verus!
