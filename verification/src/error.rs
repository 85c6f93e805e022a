//! Errors surfaced by the manifest subsystem.

use vstd::prelude::*;

verus! {

/// Errors from encoding or decoding a manifest record.
///
/// Both signal corruption or misuse of the fixed-width record codec and are
/// never recoverable by retry.
#[derive(Clone, Copy, Debug, PartialEq, Eq, Structural)]
pub enum ManifestRecordError {
    /// The buffer is too small to encode a record into.
    EncodeBufferTooSmall,
    /// There are not enough bytes to decode a record from.
    NotEnoughBytes,
}

impl ManifestRecordError {
    /// A human-readable description of the error.
    pub fn message(&self) -> (r: &'static str)
        ensures
            self is EncodeBufferTooSmall ==> r@ == "buffer too small to encode manifest record."@,
            self is NotEnoughBytes ==> r@ == "not enough bytes to decode manifest record."@,
    {
        match self {
            ManifestRecordError::EncodeBufferTooSmall => "buffer too small to encode manifest record.",
            ManifestRecordError::NotEnoughBytes => "not enough bytes to decode manifest record.",
        }
    }
}

/// The single error surface of a manifest file, whichever backend it wraps.
///
/// A corrupt record met during replay is a fatal open-time error, never a
/// per-record skip; a failed append leaves the folded watermark unchanged.
#[derive(Clone, Copy, Debug, PartialEq, Eq, Structural)]
pub enum ManifestError {
    /// A record could not be encoded or decoded.
    Record(ManifestRecordError),
    /// The backing log could not be created, read, or carries an
    /// incompatible schema version.
    Open,
    /// The backing log rejected an append.
    Append,
}

} // verus!
