//! How one ingestion unit can fail. Every failure leaves the unit's
//! source files on disk untouched; only a confirmed duplicate leads to
//! their deletion.

use vstd::prelude::*;

verus! {

#[derive(Debug, Clone, Copy, PartialEq, Eq, Structural)]
pub enum IngestError {
    /// A probed file no longer exists.
    MissingFile,
    /// A probed path exists but is not a regular file.
    NotAFile,
    /// A probed file is empty.
    EmptyFile,
    /// The metadata document could not be decoded.
    DecodeFailed,
    /// The binary could not be read and hashed, even after retries.
    HashFailed,
    /// The target's parent directory could not be created.
    DirCreateFailed,
    /// The copy into the library tree failed.
    CopyFailed,
    /// The sizes of source and copy could not be read back.
    StatFailed,
    /// The copy's size differs from the source's: the copy was removed
    /// and the source left in place.
    CopyVerificationFailed,
    /// The source binary could not be removed after a verified copy.
    SourceRemovalFailed,
    /// The catalog insert failed, even after retries.
    InsertFailed,
    /// The driver answered with an event the current phase cannot take.
    UnexpectedEvent,
}

} // verus!
