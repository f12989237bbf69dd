//! The ingestion executor: one paired unit is taken from validation
//! through decode, fingerprinting, the deduplication gate, the verified
//! copy-then-delete relocation, the catalog insert, and cleanup.
//!
//! The machine only decides; every filesystem and catalog operation is an
//! action handed to the driver, which answers with an event. One unit is
//! driven to completion before the next, so the machine is sequential:
//! each phase expects exactly one kind of answer, and any other answer
//! abandons the unit.
//!
//! The ordering guarantees live in the transition structure: the source
//! binary is deleted only after the copy's size was read back equal to
//! the source's, and a catalog insert is commanded only after the catalog
//! answered that the fingerprint is absent.

use vstd::prelude::*;

use crate::errors::IngestError;
use crate::fingerprint::{compute_fingerprint, fingerprint_of};
use crate::metadata::{target_of, SampleMetadata};
use crate::record::{record_of, SampleRecord, SampleRecordV};
use crate::retry::{backoff_delay_ms, pow2, RETRY_BASE_DELAY_MS, RETRY_MAX_ATTEMPTS};
use crate::watcher::{parent_dir, parent_spec, validate_spec};

verus! {

/// How one unit's ingestion ended.
#[derive(Debug, Clone, Copy, PartialEq, Eq, Structural)]
pub enum IngestOutcome {
    /// The binary rests at its library path and the catalog records it;
    /// the source files are gone.
    Committed,
    /// The fingerprint was already on record: both source files were
    /// deleted, the catalog untouched.
    Duplicate,
    /// The unit was abandoned; except for a failed source removal, its
    /// source files remain on disk.
    Abandoned { error: IngestError },
}

/// Where the machine stands.
pub enum IngestPhase {
    /// Probing the binary file's status.
    ValidatingBinary,
    /// Probing the metadata file's status.
    ValidatingMetadata,
    /// Waiting for the metadata document to be decoded.
    Decoding,
    /// Waiting for the binary's bytes, attempt number `attempt`.
    Hashing { meta: SampleMetadata, attempt: u32 },
    /// Sleeping before re-reading the binary.
    HashBackoff { meta: SampleMetadata, attempt: u32 },
    /// Waiting for the catalog's answer about the fingerprint.
    CheckingCatalog { meta: SampleMetadata, fingerprint: String },
    /// Duplicate confirmed: waiting for both source files to be removed.
    CleaningDuplicate,
    /// Waiting for the target's parent directory to exist.
    PreparingDir { record: SampleRecord, target: String },
    /// Waiting for the copy into the library tree.
    Copying { record: SampleRecord, target: String },
    /// Waiting for the sizes of source and copy, to verify the copy.
    Verifying { record: SampleRecord, target: String },
    /// Size mismatch: waiting for the bad copy to be removed.
    RemovingBadCopy { target: String },
    /// Copy verified: waiting for the source binary to be removed.
    RemovingSource { record: SampleRecord, target: String },
    /// Waiting for the catalog insert, attempt number `attempt`.
    Inserting { record: SampleRecord, attempt: u32 },
    /// Sleeping before retrying the catalog insert.
    InsertBackoff { record: SampleRecord, attempt: u32 },
    /// Committed: waiting for the metadata file's removal.
    RemovingMetadata,
    /// Terminal.
    Done { outcome: IngestOutcome },
}

/// The driver's answer to the previous action.
pub enum IngestEvent {
    /// A file's status: whether the path exists, is a regular file, and
    /// its size.
    FileStatus { exists: bool, is_regular: bool, size: u64 },
    /// The metadata document, decoded.
    Decoded { meta: SampleMetadata },
    /// The metadata document could not be decoded.
    DecodeFailed,
    /// The binary's bytes, read in full.
    BinaryRead { data: Vec<u8> },
    /// The binary could not be read.
    ReadFailed,
    /// The requested sleep has passed.
    Slept,
    /// Whether the catalog holds the queried fingerprint.
    CatalogHas { exists: bool },
    /// Both source files were removed (failures to remove are logged by
    /// the driver, not escalated).
    Deleted,
    /// Whether the target's parent directory could be created.
    DirEnsured { ok: bool },
    /// Whether the copy succeeded.
    Copied { ok: bool },
    /// The sizes of the source binary and of the copy.
    SizesRead { source: u64, target: u64 },
    /// The sizes could not be read back.
    SizesFailed,
    /// Whether the source binary could be removed.
    SourceRemoved { ok: bool },
    /// The mismatching copy was removed (best-effort).
    BadCopyRemoved,
    /// Whether the catalog insert succeeded.
    Inserted { ok: bool },
    /// The metadata file was removed (best-effort).
    MetadataRemoved,
}

/// What the driver must do next.
pub enum IngestAction {
    /// Report the binary file's status.
    StatBinary,
    /// Report the metadata file's status.
    StatMetadata,
    /// Decode the metadata file.
    DecodeMetadata,
    /// Read the binary file's bytes.
    ReadBinary,
    /// Sleep for the given time.
    Sleep { ms: u64 },
    /// Ask the catalog whether it holds this fingerprint.
    QueryCatalog { fingerprint: String },
    /// Remove the binary and the metadata file (duplicate cleanup).
    DeleteBothFiles,
    /// Create this directory (recursively) if it is absent.
    EnsureDir { path: String },
    /// Copy the binary to the target path.
    CopyBinary { target: String },
    /// Report the sizes of the source binary and of the target copy.
    StatSizes { target: String },
    /// Remove the mismatching copy at the target path.
    RemoveBadCopy { target: String },
    /// Remove the source binary (its copy is verified).
    RemoveSourceBinary,
    /// Insert this record into the catalog.
    InsertRecord { record: SampleRecord },
    /// Remove the metadata file.
    RemoveMetadataFile,
    /// Nothing further: the unit is terminal.
    Halt,
}

/// The phase, abstracted: text as character sequences, the record as its
/// view, attempts as naturals.
pub ghost enum APhase {
    ValidatingBinary,
    ValidatingMetadata,
    Decoding,
    Hashing { meta: SampleMetadata, attempt: nat },
    HashBackoff { meta: SampleMetadata, attempt: nat },
    CheckingCatalog { meta: SampleMetadata, fp: Seq<char> },
    CleaningDuplicate,
    PreparingDir { rec: SampleRecordV, target: Seq<char> },
    Copying { rec: SampleRecordV, target: Seq<char> },
    Verifying { rec: SampleRecordV, target: Seq<char> },
    RemovingBadCopy { target: Seq<char> },
    RemovingSource { rec: SampleRecordV, target: Seq<char> },
    Inserting { rec: SampleRecordV, attempt: nat },
    InsertBackoff { rec: SampleRecordV, attempt: nat },
    RemovingMetadata,
    Done { outcome: IngestOutcome },
}

/// The event, abstracted.
pub ghost enum AEvent {
    FileStatus { exists: bool, is_regular: bool, size: u64 },
    Decoded { meta: SampleMetadata },
    DecodeFailed,
    BinaryRead { bytes: Seq<u8> },
    ReadFailed,
    Slept,
    CatalogHas { exists: bool },
    Deleted,
    DirEnsured { ok: bool },
    Copied { ok: bool },
    SizesRead { source: u64, target: u64 },
    SizesFailed,
    SourceRemoved { ok: bool },
    BadCopyRemoved,
    Inserted { ok: bool },
    MetadataRemoved,
}

/// The action, abstracted.
pub ghost enum AAction {
    StatBinary,
    StatMetadata,
    DecodeMetadata,
    ReadBinary,
    Sleep { ms: u64 },
    QueryCatalog { fp: Seq<char> },
    DeleteBothFiles,
    EnsureDir { path: Seq<char> },
    CopyBinary { target: Seq<char> },
    StatSizes { target: Seq<char> },
    RemoveBadCopy { target: Seq<char> },
    RemoveSourceBinary,
    InsertRecord { rec: SampleRecordV },
    RemoveMetadataFile,
    Halt,
}

pub open spec fn aphase(p: IngestPhase) -> APhase {
    match p {
        IngestPhase::ValidatingBinary => APhase::ValidatingBinary,
        IngestPhase::ValidatingMetadata => APhase::ValidatingMetadata,
        IngestPhase::Decoding => APhase::Decoding,
        IngestPhase::Hashing { meta, attempt } => APhase::Hashing {
            meta,
            attempt: attempt as nat,
        },
        IngestPhase::HashBackoff { meta, attempt } => APhase::HashBackoff {
            meta,
            attempt: attempt as nat,
        },
        IngestPhase::CheckingCatalog { meta, fingerprint } => APhase::CheckingCatalog {
            meta,
            fp: fingerprint@,
        },
        IngestPhase::CleaningDuplicate => APhase::CleaningDuplicate,
        IngestPhase::PreparingDir { record, target } => APhase::PreparingDir {
            rec: record@,
            target: target@,
        },
        IngestPhase::Copying { record, target } => APhase::Copying {
            rec: record@,
            target: target@,
        },
        IngestPhase::Verifying { record, target } => APhase::Verifying {
            rec: record@,
            target: target@,
        },
        IngestPhase::RemovingBadCopy { target } => APhase::RemovingBadCopy { target: target@ },
        IngestPhase::RemovingSource { record, target } => APhase::RemovingSource {
            rec: record@,
            target: target@,
        },
        IngestPhase::Inserting { record, attempt } => APhase::Inserting {
            rec: record@,
            attempt: attempt as nat,
        },
        IngestPhase::InsertBackoff { record, attempt } => APhase::InsertBackoff {
            rec: record@,
            attempt: attempt as nat,
        },
        IngestPhase::RemovingMetadata => APhase::RemovingMetadata,
        IngestPhase::Done { outcome } => APhase::Done { outcome },
    }
}

pub open spec fn aevent(e: IngestEvent) -> AEvent {
    match e {
        IngestEvent::FileStatus { exists, is_regular, size } => AEvent::FileStatus {
            exists,
            is_regular,
            size,
        },
        IngestEvent::Decoded { meta } => AEvent::Decoded { meta },
        IngestEvent::DecodeFailed => AEvent::DecodeFailed,
        IngestEvent::BinaryRead { data } => AEvent::BinaryRead { bytes: data@ },
        IngestEvent::ReadFailed => AEvent::ReadFailed,
        IngestEvent::Slept => AEvent::Slept,
        IngestEvent::CatalogHas { exists } => AEvent::CatalogHas { exists },
        IngestEvent::Deleted => AEvent::Deleted,
        IngestEvent::DirEnsured { ok } => AEvent::DirEnsured { ok },
        IngestEvent::Copied { ok } => AEvent::Copied { ok },
        IngestEvent::SizesRead { source, target } => AEvent::SizesRead { source, target },
        IngestEvent::SizesFailed => AEvent::SizesFailed,
        IngestEvent::SourceRemoved { ok } => AEvent::SourceRemoved { ok },
        IngestEvent::BadCopyRemoved => AEvent::BadCopyRemoved,
        IngestEvent::Inserted { ok } => AEvent::Inserted { ok },
        IngestEvent::MetadataRemoved => AEvent::MetadataRemoved,
    }
}

pub open spec fn aaction(a: IngestAction) -> AAction {
    match a {
        IngestAction::StatBinary => AAction::StatBinary,
        IngestAction::StatMetadata => AAction::StatMetadata,
        IngestAction::DecodeMetadata => AAction::DecodeMetadata,
        IngestAction::ReadBinary => AAction::ReadBinary,
        IngestAction::Sleep { ms } => AAction::Sleep { ms },
        IngestAction::QueryCatalog { fingerprint } => AAction::QueryCatalog { fp: fingerprint@ },
        IngestAction::DeleteBothFiles => AAction::DeleteBothFiles,
        IngestAction::EnsureDir { path } => AAction::EnsureDir { path: path@ },
        IngestAction::CopyBinary { target } => AAction::CopyBinary { target: target@ },
        IngestAction::StatSizes { target } => AAction::StatSizes { target: target@ },
        IngestAction::RemoveBadCopy { target } => AAction::RemoveBadCopy { target: target@ },
        IngestAction::RemoveSourceBinary => AAction::RemoveSourceBinary,
        IngestAction::InsertRecord { record } => AAction::InsertRecord { rec: record@ },
        IngestAction::RemoveMetadataFile => AAction::RemoveMetadataFile,
        IngestAction::Halt => AAction::Halt,
    }
}

/// The backoff before retrying after failed attempt number `attempt`.
pub open spec fn backoff_ms_spec(attempt: nat) -> u64 {
    (RETRY_BASE_DELAY_MS * pow2((attempt - 1) as nat)) as u64
}

/// A unit abandoned with the given error: terminal phase, nothing more
/// to do.
pub open spec fn abandon(error: IngestError) -> (APhase, AAction) {
    (APhase::Done { outcome: IngestOutcome::Abandoned { error } }, AAction::Halt)
}

/// The transition relation of the executor: from a phase and the
/// driver's answer to the next phase and the next action. `lib` is the
/// library base directory under which target paths are derived.
pub open spec fn astep(p: APhase, e: AEvent, lib: Seq<char>) -> (APhase, AAction) {
    match (p, e) {
        (APhase::ValidatingBinary, AEvent::FileStatus { exists, is_regular, size }) => {
            match validate_spec(exists, is_regular, size) {
                Ok(_) => (APhase::ValidatingMetadata, AAction::StatMetadata),
                Err(err) => abandon(err),
            }
        },
        (APhase::ValidatingMetadata, AEvent::FileStatus { exists, is_regular, size }) => {
            match validate_spec(exists, is_regular, size) {
                Ok(_) => (APhase::Decoding, AAction::DecodeMetadata),
                Err(err) => abandon(err),
            }
        },
        (APhase::Decoding, AEvent::Decoded { meta }) => (
            APhase::Hashing { meta, attempt: 1 },
            AAction::ReadBinary,
        ),
        (APhase::Decoding, AEvent::DecodeFailed) => abandon(IngestError::DecodeFailed),
        (APhase::Hashing { meta, attempt }, AEvent::BinaryRead { bytes }) => {
            let fp = fingerprint_of(bytes);
            (APhase::CheckingCatalog { meta, fp }, AAction::QueryCatalog { fp })
        },
        (APhase::Hashing { meta, attempt }, AEvent::ReadFailed) => {
            if attempt < RETRY_MAX_ATTEMPTS {
                (
                    APhase::HashBackoff { meta, attempt },
                    AAction::Sleep { ms: backoff_ms_spec(attempt) },
                )
            } else {
                abandon(IngestError::HashFailed)
            }
        },
        (APhase::HashBackoff { meta, attempt }, AEvent::Slept) => (
            APhase::Hashing { meta, attempt: attempt + 1 },
            AAction::ReadBinary,
        ),
        (APhase::CheckingCatalog { meta, fp }, AEvent::CatalogHas { exists }) => {
            if exists {
                (APhase::CleaningDuplicate, AAction::DeleteBothFiles)
            } else {
                let target = target_of(lib, meta);
                let rec = record_of(meta, target, fp);
                (
                    APhase::PreparingDir { rec, target },
                    AAction::EnsureDir { path: parent_spec(target) },
                )
            }
        },
        (APhase::CleaningDuplicate, AEvent::Deleted) => (
            APhase::Done { outcome: IngestOutcome::Duplicate },
            AAction::Halt,
        ),
        (APhase::PreparingDir { rec, target }, AEvent::DirEnsured { ok }) => {
            if ok {
                (APhase::Copying { rec, target }, AAction::CopyBinary { target })
            } else {
                abandon(IngestError::DirCreateFailed)
            }
        },
        (APhase::Copying { rec, target }, AEvent::Copied { ok }) => {
            if ok {
                (APhase::Verifying { rec, target }, AAction::StatSizes { target })
            } else {
                abandon(IngestError::CopyFailed)
            }
        },
        (APhase::Verifying { rec, target }, AEvent::SizesRead { source, target: copied }) => {
            if source == copied {
                (APhase::RemovingSource { rec, target }, AAction::RemoveSourceBinary)
            } else {
                (APhase::RemovingBadCopy { target }, AAction::RemoveBadCopy { target })
            }
        },
        (APhase::Verifying { rec, target }, AEvent::SizesFailed) => abandon(IngestError::StatFailed),
        (APhase::RemovingBadCopy { target }, AEvent::BadCopyRemoved) => abandon(
            IngestError::CopyVerificationFailed,
        ),
        (APhase::RemovingSource { rec, target }, AEvent::SourceRemoved { ok }) => {
            if ok {
                (APhase::Inserting { rec, attempt: 1 }, AAction::InsertRecord { rec })
            } else {
                abandon(IngestError::SourceRemovalFailed)
            }
        },
        (APhase::Inserting { rec, attempt }, AEvent::Inserted { ok }) => {
            if ok {
                (APhase::RemovingMetadata, AAction::RemoveMetadataFile)
            } else if attempt < RETRY_MAX_ATTEMPTS {
                (
                    APhase::InsertBackoff { rec, attempt },
                    AAction::Sleep { ms: backoff_ms_spec(attempt) },
                )
            } else {
                abandon(IngestError::InsertFailed)
            }
        },
        (APhase::InsertBackoff { rec, attempt }, AEvent::Slept) => (
            APhase::Inserting { rec, attempt: attempt + 1 },
            AAction::InsertRecord { rec },
        ),
        (APhase::RemovingMetadata, AEvent::MetadataRemoved) => (
            APhase::Done { outcome: IngestOutcome::Committed },
            AAction::Halt,
        ),
        (APhase::Done { outcome }, _) => (APhase::Done { outcome }, AAction::Halt),
        (_, _) => abandon(IngestError::UnexpectedEvent),
    }
}

/// The phase a whole run of the machine ends in, driven by a sequence
/// of events.
pub open spec fn arun(p: APhase, events: Seq<AEvent>, lib: Seq<char>) -> APhase
    decreases events.len(),
{
    if events.len() == 0 {
        p
    } else {
        arun(astep(p, events[0], lib).0, events.drop_first(), lib)
    }
}

/// The actions a whole run of the machine commands, in order.
pub open spec fn atrace(p: APhase, events: Seq<AEvent>, lib: Seq<char>) -> Seq<AAction>
    decreases events.len(),
{
    if events.len() == 0 {
        Seq::empty()
    } else {
        seq![astep(p, events[0], lib).1] + atrace(
            astep(p, events[0], lib).0,
            events.drop_first(),
            lib,
        )
    }
}

/// A terminal phase never moves again and never commands work.
pub proof fn lemma_done_is_final(outcome: IngestOutcome, events: Seq<AEvent>, lib: Seq<char>)
    ensures
        arun((APhase::Done { outcome }), events, lib) == (APhase::Done { outcome }),
        forall|i: int|
            0 <= i < atrace((APhase::Done { outcome }), events, lib).len() ==> ((#[trigger] atrace(
                (APhase::Done { outcome }),
                events,
                lib,
            )[i]) is Halt),
    decreases events.len(),
{
    if events.len() > 0 {
        lemma_done_is_final(outcome, events.drop_first(), lib);
    }
}

/// Phases from which no insert can ever be commanded again: the
/// duplicate-cleanup phase and every terminal phase.
pub open spec fn insert_free(p: APhase) -> bool {
    match p {
        APhase::CleaningDuplicate => true,
        APhase::Done { .. } => true,
        _ => false,
    }
}

/// Phases at or before the deduplication gate.
pub open spec fn pre_dedup(p: APhase) -> bool {
    match p {
        APhase::ValidatingBinary => true,
        APhase::ValidatingMetadata => true,
        APhase::Decoding => true,
        APhase::Hashing { .. } => true,
        APhase::HashBackoff { .. } => true,
        APhase::CheckingCatalog { .. } => true,
        _ => false,
    }
}

/// Phases at or before the copy-verification step (so the source binary
/// still exists untouched).
pub open spec fn pre_removal(p: APhase) -> bool {
    match p {
        APhase::ValidatingBinary => true,
        APhase::ValidatingMetadata => true,
        APhase::Decoding => true,
        APhase::Hashing { .. } => true,
        APhase::HashBackoff { .. } => true,
        APhase::CheckingCatalog { .. } => true,
        APhase::CleaningDuplicate => true,
        APhase::PreparingDir { .. } => true,
        APhase::Copying { .. } => true,
        APhase::Verifying { .. } => true,
        APhase::RemovingBadCopy { .. } => true,
        _ => false,
    }
}

/// From an insert-free phase, a run only idles: apart from the
/// machine's halting answers it commands nothing — in particular no
/// relocation and no catalog insert.
pub proof fn lemma_insert_free_run(p: APhase, events: Seq<AEvent>, lib: Seq<char>)
    requires
        insert_free(p),
    ensures
        insert_free(arun(p, events, lib)),
        forall|i: int|
            0 <= i < atrace(p, events, lib).len() ==> ((#[trigger] atrace(p, events, lib)[i])
                is Halt || atrace(p, events, lib)[i] is DeleteBothFiles),
        p is Done ==> forall|i: int|
            0 <= i < atrace(p, events, lib).len() ==> (#[trigger] atrace(p, events, lib)[i])
                is Halt,
    decreases events.len(),
{
    if events.len() > 0 {
        let p1 = astep(p, events[0], lib).0;
        lemma_insert_free_run(p1, events.drop_first(), lib);
        assert forall|i: int| 0 <= i < atrace(p, events, lib).len() implies ((#[trigger] atrace(
            p,
            events,
            lib,
        )[i]) is Halt || atrace(p, events, lib)[i] is DeleteBothFiles) by {
            if i > 0 {
                assert(atrace(p, events, lib)[i] == atrace(p1, events.drop_first(), lib)[i - 1]);
            }
        }
        if p is Done {
            assert forall|i: int| 0 <= i < atrace(p, events, lib).len() implies (
            #[trigger] atrace(p, events, lib)[i]) is Halt by {
                if i > 0 {
                    assert(atrace(p, events, lib)[i] == atrace(
                        p1,
                        events.drop_first(),
                        lib,
                    )[i - 1]);
                }
            }
        }
    }
}

/// A catalog hit commands the deletion of both source files, and from
/// then on the run commands nothing else: no copy, no insert, no
/// catalog mutation. Together with the catalog's own uniqueness
/// constraint this keeps every fingerprint's entry unique: a second
/// drop of the same content only ever deletes its own two files.
pub proof fn lemma_duplicate_drop_only_deletes(
    meta: SampleMetadata,
    fp: Seq<char>,
    events: Seq<AEvent>,
    lib: Seq<char>,
)
    requires
        events.len() > 0,
        events[0] == (AEvent::CatalogHas { exists: true }),
    ensures
        atrace(APhase::CheckingCatalog { meta, fp }, events, lib)[0] is DeleteBothFiles,
        forall|i: int|
            0 < i < atrace(APhase::CheckingCatalog { meta, fp }, events, lib).len() ==> (
            #[trigger] atrace(APhase::CheckingCatalog { meta, fp }, events, lib)[i]) is Halt
                || atrace(APhase::CheckingCatalog { meta, fp }, events, lib)[i]
                is DeleteBothFiles,
        forall|i: int|
            0 <= i < atrace(APhase::CheckingCatalog { meta, fp }, events, lib).len() ==> !((
            #[trigger] atrace(APhase::CheckingCatalog { meta, fp }, events, lib)[i])
                is InsertRecord),
{
    let p = APhase::CheckingCatalog { meta, fp };
    let p1 = astep(p, events[0], lib).0;
    lemma_insert_free_run(p1, events.drop_first(), lib);
    assert forall|i: int| 0 < i < atrace(p, events, lib).len() implies ((#[trigger] atrace(
        p,
        events,
        lib,
    )[i]) is Halt || atrace(p, events, lib)[i] is DeleteBothFiles) by {
        assert(atrace(p, events, lib)[i] == atrace(p1, events.drop_first(), lib)[i - 1]);
    }
}

/// The record handed to the catalog is exactly the one derived from the
/// decoded metadata, carrying the fingerprint the catalog was queried
/// with and the target path the binary is relocated to.
pub proof fn lemma_record_matches_query(
    meta: SampleMetadata,
    fp: Seq<char>,
    lib: Seq<char>,
)
    ensures
        astep(
            APhase::CheckingCatalog { meta, fp },
            AEvent::CatalogHas { exists: false },
            lib,
        ) == (
            APhase::PreparingDir {
                rec: record_of(meta, target_of(lib, meta), fp),
                target: target_of(lib, meta),
            },
            AAction::EnsureDir { path: parent_spec(target_of(lib, meta)) },
        ),
{
}

/// The source binary's removal is commanded only from the verification
/// phase, on the answer that the copy's size equals the source's.
pub proof fn lemma_source_removed_only_verified(p: APhase, e: AEvent, lib: Seq<char>)
    ensures
        astep(p, e, lib).1 is RemoveSourceBinary ==> (p is Verifying && (e matches
        AEvent::SizesRead { source, target } && source == target)),
{
}

/// An insert is commanded only on entry from the source-removal phase
/// or as a retry of that same insert.
pub proof fn lemma_insert_commanded_only_after_removal(p: APhase, e: AEvent, lib: Seq<char>)
    ensures
        astep(p, e, lib).1 is InsertRecord ==> ((p is RemovingSource && e == (
        AEvent::SourceRemoved { ok: true })) || (p is InsertBackoff && e is Slept)),
{
}

/// From the source-removal phase, a commit needs the driver's report
/// that the source binary was in fact removed.
proof fn lemma_commit_needs_removal_ack(
    rec: SampleRecordV,
    target: Seq<char>,
    events: Seq<AEvent>,
    lib: Seq<char>,
)
    ensures
        arun((APhase::RemovingSource { rec, target }), events, lib) == (APhase::Done {
            outcome: IngestOutcome::Committed,
        }) ==> (exists|j: int|
            0 <= j < events.len() && (#[trigger] events[j]) == (AEvent::SourceRemoved {
                ok: true,
            })),
{
    let p = APhase::RemovingSource { rec, target };
    if events.len() > 0 {
        let p1 = astep(p, events[0], lib).0;
        if events[0] != (AEvent::SourceRemoved { ok: true }) {
            assert(p1 matches APhase::Done { outcome } && outcome != IngestOutcome::Committed);
            let outcome1 = choose|outcome1: IngestOutcome|
                p1 == APhase::Done { outcome: outcome1 };
            lemma_done_is_final(outcome1, events.drop_first(), lib);
        }
    }
}

/// A run that commits went through copy verification: some event
/// reported the copy's size equal to the source's; only then was the
/// source binary's removal commanded; and the driver reported that
/// removal done before the commit. So a committed unit's binary rests
/// at the target path with the source's own size, and the source path
/// is gone.
pub proof fn lemma_commit_requires_verified_copy(
    p: APhase,
    events: Seq<AEvent>,
    lib: Seq<char>,
)
    requires
        pre_removal(p),
    ensures
        arun(p, events, lib) == (APhase::Done { outcome: IngestOutcome::Committed }) ==> ((exists|
            j: int,
        |
            0 <= j < events.len() && ((#[trigger] events[j]) matches AEvent::SizesRead {
                source,
                target,
            } && source == target)) && (exists|i: int|
            0 <= i < atrace(p, events, lib).len() && (#[trigger] atrace(p, events, lib)[i])
                is RemoveSourceBinary) && (exists|k: int|
            0 <= k < events.len() && (#[trigger] events[k]) == (AEvent::SourceRemoved {
                ok: true,
            }))),
    decreases events.len(),
{
    if events.len() > 0 {
        let e0 = events[0];
        let p1 = astep(p, e0, lib).0;
        let a0 = astep(p, e0, lib).1;
        let rest = events.drop_first();
        if pre_removal(p1) {
            lemma_commit_requires_verified_copy(p1, rest, lib);
            if arun(p, events, lib) == (APhase::Done { outcome: IngestOutcome::Committed }) {
                let j1 = choose|j1: int|
                    0 <= j1 < rest.len() && ((#[trigger] rest[j1]) matches AEvent::SizesRead {
                        source,
                        target,
                    } && source == target);
                assert(events[j1 + 1] == rest[j1]);
                let i1 = choose|i1: int|
                    0 <= i1 < atrace(p1, rest, lib).len() && (#[trigger] atrace(
                        p1,
                        rest,
                        lib,
                    )[i1]) is RemoveSourceBinary;
                assert(atrace(p, events, lib)[i1 + 1] == atrace(p1, rest, lib)[i1]);
                let k1 = choose|k1: int|
                    0 <= k1 < rest.len() && (#[trigger] rest[k1]) == (AEvent::SourceRemoved {
                        ok: true,
                    });
                assert(events[k1 + 1] == rest[k1]);
            }
        } else if p1 is RemovingSource {
            assert(a0 is RemoveSourceBinary);
            assert(atrace(p, events, lib)[0] == a0);
            match p1 {
                APhase::RemovingSource { rec, target } => {
                    lemma_commit_needs_removal_ack(rec, target, rest, lib);
                },
                _ => {},
            }
            if arun(p, events, lib) == (APhase::Done { outcome: IngestOutcome::Committed }) {
                let k1 = choose|k1: int|
                    0 <= k1 < rest.len() && (#[trigger] rest[k1]) == (AEvent::SourceRemoved {
                        ok: true,
                    });
                assert(events[k1 + 1] == rest[k1]);
            }
        } else {
            assert(p1 matches APhase::Done { outcome } && outcome != IngestOutcome::Committed);
            let outcome1 = choose|outcome1: IngestOutcome|
                p1 == APhase::Done { outcome: outcome1 };
            lemma_done_is_final(outcome1, rest, lib);
        }
    }
}

/// A run that starts at or before the deduplication check commands an
/// insert only after the catalog answered that the fingerprint is
/// absent: no catalog entry is ever created for a fingerprint the
/// catalog already holds, and none without that answer.
pub proof fn lemma_insert_needs_catalog_miss(p: APhase, events: Seq<AEvent>, lib: Seq<char>)
    requires
        pre_dedup(p),
    ensures
        (exists|i: int|
            0 <= i < atrace(p, events, lib).len() && (#[trigger] atrace(p, events, lib)[i])
                is InsertRecord) ==> (exists|j: int|
            0 <= j < events.len() && (#[trigger] events[j]) == (AEvent::CatalogHas {
                exists: false,
            })),
    decreases events.len(),
{
    if events.len() > 0 {
        let e0 = events[0];
        let p1 = astep(p, e0, lib).0;
        let a0 = astep(p, e0, lib).1;
        let rest = events.drop_first();
        assert(!(a0 is InsertRecord));
        if exists|i: int|
            0 <= i < atrace(p, events, lib).len() && (#[trigger] atrace(p, events, lib)[i])
                is InsertRecord {
            let i = choose|i: int|
                0 <= i < atrace(p, events, lib).len() && (#[trigger] atrace(p, events, lib)[i])
                    is InsertRecord;
            assert(i > 0);
            assert(atrace(p, events, lib)[i] == atrace(p1, rest, lib)[i - 1]);
            if pre_dedup(p1) {
                lemma_insert_needs_catalog_miss(p1, rest, lib);
                let j1 = choose|j1: int|
                    0 <= j1 < rest.len() && (#[trigger] rest[j1]) == (AEvent::CatalogHas {
                        exists: false,
                    });
                assert(events[j1 + 1] == rest[j1]);
            } else if insert_free(p1) {
                lemma_insert_free_run(p1, rest, lib);
                assert(false);
            } else {
                // the only other successor is the miss path itself
                assert(e0 == (AEvent::CatalogHas { exists: false }));
            }
        }
    }
}

/// One unit of work being ingested: the pair of source paths, the
/// library base directory, and the machine's phase.
pub struct IngestJob {
    pub binary_path: String,
    pub metadata_path: String,
    pub library_dir: String,
    pub phase: IngestPhase,
}

impl IngestJob {
    /// The retry counters the phase carries stay within the retry
    /// budget.
    pub open spec fn wf(self) -> bool {
        match self.phase {
            IngestPhase::Hashing { attempt, .. } => 1 <= attempt <= RETRY_MAX_ATTEMPTS,
            IngestPhase::HashBackoff { attempt, .. } => 1 <= attempt < RETRY_MAX_ATTEMPTS,
            IngestPhase::Inserting { attempt, .. } => 1 <= attempt <= RETRY_MAX_ATTEMPTS,
            IngestPhase::InsertBackoff { attempt, .. } => 1 <= attempt < RETRY_MAX_ATTEMPTS,
            _ => true,
        }
    }

    /// Begin ingesting a validated pair: the first thing to learn is the
    /// binary's file status.
    pub fn start(binary_path: String, metadata_path: String, library_dir: String) -> (r: (
        IngestJob,
        IngestAction,
    ))
        ensures
            r.0.wf(),
            r.0.binary_path == binary_path,
            r.0.metadata_path == metadata_path,
            r.0.library_dir == library_dir,
            aphase(r.0.phase) == APhase::ValidatingBinary,
            aaction(r.1) == AAction::StatBinary,
    {
        (
            IngestJob {
                binary_path,
                metadata_path,
                library_dir,
                phase: IngestPhase::ValidatingBinary,
            },
            IngestAction::StatBinary,
        )
    }

    /// Take the driver's answer and move to the next phase, returning
    /// the next action, exactly as the transition relation `astep`
    /// states.
    pub fn step(self, event: IngestEvent) -> (r: (IngestJob, IngestAction))
        requires
            self.wf(),
        ensures
            r.0.wf(),
            r.0.binary_path == self.binary_path,
            r.0.metadata_path == self.metadata_path,
            r.0.library_dir == self.library_dir,
            aphase(r.0.phase) == astep(aphase(self.phase), aevent(event), self.library_dir@).0,
            aaction(r.1) == astep(aphase(self.phase), aevent(event), self.library_dir@).1,
    {
        let IngestJob { binary_path, metadata_path, library_dir, phase } = self;
        let (next, action): (IngestPhase, IngestAction) = match (phase, event) {
            (
                IngestPhase::ValidatingBinary,
                IngestEvent::FileStatus { exists, is_regular, size },
            ) => {
                match crate::watcher::validate_decision(exists, is_regular, size) {
                    Ok(_) => (IngestPhase::ValidatingMetadata, IngestAction::StatMetadata),
                    Err(err) => (
                        IngestPhase::Done { outcome: IngestOutcome::Abandoned { error: err } },
                        IngestAction::Halt,
                    ),
                }
            },
            (
                IngestPhase::ValidatingMetadata,
                IngestEvent::FileStatus { exists, is_regular, size },
            ) => {
                match crate::watcher::validate_decision(exists, is_regular, size) {
                    Ok(_) => (IngestPhase::Decoding, IngestAction::DecodeMetadata),
                    Err(err) => (
                        IngestPhase::Done { outcome: IngestOutcome::Abandoned { error: err } },
                        IngestAction::Halt,
                    ),
                }
            },
            (IngestPhase::Decoding, IngestEvent::Decoded { meta }) => (
                IngestPhase::Hashing { meta, attempt: 1 },
                IngestAction::ReadBinary,
            ),
            (IngestPhase::Decoding, IngestEvent::DecodeFailed) => (
                IngestPhase::Done {
                    outcome: IngestOutcome::Abandoned { error: IngestError::DecodeFailed },
                },
                IngestAction::Halt,
            ),
            (IngestPhase::Hashing { meta, attempt }, IngestEvent::BinaryRead { data }) => {
                let fp = compute_fingerprint(&data);
                let query = fp.clone();
                (
                    IngestPhase::CheckingCatalog { meta, fingerprint: fp },
                    IngestAction::QueryCatalog { fingerprint: query },
                )
            },
            (IngestPhase::Hashing { meta, attempt }, IngestEvent::ReadFailed) => {
                if attempt < RETRY_MAX_ATTEMPTS {
                    let ms = backoff_delay_ms(attempt);
                    proof {
                        crate::retry::lemma_pow2_small();
                    }
                    (
                        IngestPhase::HashBackoff { meta, attempt },
                        IngestAction::Sleep { ms },
                    )
                } else {
                    (
                        IngestPhase::Done {
                            outcome: IngestOutcome::Abandoned { error: IngestError::HashFailed },
                        },
                        IngestAction::Halt,
                    )
                }
            },
            (IngestPhase::HashBackoff { meta, attempt }, IngestEvent::Slept) => (
                IngestPhase::Hashing { meta, attempt: attempt + 1 },
                IngestAction::ReadBinary,
            ),
            (
                IngestPhase::CheckingCatalog { meta, fingerprint },
                IngestEvent::CatalogHas { exists },
            ) => {
                if exists {
                    (IngestPhase::CleaningDuplicate, IngestAction::DeleteBothFiles)
                } else {
                    let target = meta.get_library_path(library_dir.as_str());
                    let mut record = SampleRecord::from_metadata(&meta);
                    record.file_path = target.clone();
                    record.file_hash = fingerprint;
                    let parent = parent_dir(target.as_str());
                    (
                        IngestPhase::PreparingDir { record, target },
                        IngestAction::EnsureDir { path: parent },
                    )
                }
            },
            (IngestPhase::CleaningDuplicate, IngestEvent::Deleted) => (
                IngestPhase::Done { outcome: IngestOutcome::Duplicate },
                IngestAction::Halt,
            ),
            (IngestPhase::PreparingDir { record, target }, IngestEvent::DirEnsured { ok }) => {
                if ok {
                    let copy_to = target.clone();
                    (
                        IngestPhase::Copying { record, target },
                        IngestAction::CopyBinary { target: copy_to },
                    )
                } else {
                    (
                        IngestPhase::Done {
                            outcome: IngestOutcome::Abandoned {
                                error: IngestError::DirCreateFailed,
                            },
                        },
                        IngestAction::Halt,
                    )
                }
            },
            (IngestPhase::Copying { record, target }, IngestEvent::Copied { ok }) => {
                if ok {
                    let stat_at = target.clone();
                    (
                        IngestPhase::Verifying { record, target },
                        IngestAction::StatSizes { target: stat_at },
                    )
                } else {
                    (
                        IngestPhase::Done {
                            outcome: IngestOutcome::Abandoned { error: IngestError::CopyFailed },
                        },
                        IngestAction::Halt,
                    )
                }
            },
            (
                IngestPhase::Verifying { record, target },
                IngestEvent::SizesRead { source, target: copied },
            ) => {
                if source == copied {
                    (
                        IngestPhase::RemovingSource { record, target },
                        IngestAction::RemoveSourceBinary,
                    )
                } else {
                    let remove_at = target.clone();
                    (
                        IngestPhase::RemovingBadCopy { target },
                        IngestAction::RemoveBadCopy { target: remove_at },
                    )
                }
            },
            (IngestPhase::Verifying { record, target }, IngestEvent::SizesFailed) => (
                IngestPhase::Done {
                    outcome: IngestOutcome::Abandoned { error: IngestError::StatFailed },
                },
                IngestAction::Halt,
            ),
            (IngestPhase::RemovingBadCopy { target }, IngestEvent::BadCopyRemoved) => (
                IngestPhase::Done {
                    outcome: IngestOutcome::Abandoned {
                        error: IngestError::CopyVerificationFailed,
                    },
                },
                IngestAction::Halt,
            ),
            (
                IngestPhase::RemovingSource { record, target },
                IngestEvent::SourceRemoved { ok },
            ) => {
                if ok {
                    let to_insert = record.clone();
                    (
                        IngestPhase::Inserting { record, attempt: 1 },
                        IngestAction::InsertRecord { record: to_insert },
                    )
                } else {
                    (
                        IngestPhase::Done {
                            outcome: IngestOutcome::Abandoned {
                                error: IngestError::SourceRemovalFailed,
                            },
                        },
                        IngestAction::Halt,
                    )
                }
            },
            (IngestPhase::Inserting { record, attempt }, IngestEvent::Inserted { ok }) => {
                if ok {
                    (IngestPhase::RemovingMetadata, IngestAction::RemoveMetadataFile)
                } else if attempt < RETRY_MAX_ATTEMPTS {
                    let ms = backoff_delay_ms(attempt);
                    proof {
                        crate::retry::lemma_pow2_small();
                    }
                    (
                        IngestPhase::InsertBackoff { record, attempt },
                        IngestAction::Sleep { ms },
                    )
                } else {
                    (
                        IngestPhase::Done {
                            outcome: IngestOutcome::Abandoned { error: IngestError::InsertFailed },
                        },
                        IngestAction::Halt,
                    )
                }
            },
            (IngestPhase::InsertBackoff { record, attempt }, IngestEvent::Slept) => {
                let to_insert = record.clone();
                (
                    IngestPhase::Inserting { record, attempt: attempt + 1 },
                    IngestAction::InsertRecord { record: to_insert },
                )
            },
            (IngestPhase::RemovingMetadata, IngestEvent::MetadataRemoved) => (
                IngestPhase::Done { outcome: IngestOutcome::Committed },
                IngestAction::Halt,
            ),
            (IngestPhase::Done { outcome }, _) => (
                IngestPhase::Done { outcome },
                IngestAction::Halt,
            ),
            (_, _) => (
                IngestPhase::Done {
                    outcome: IngestOutcome::Abandoned { error: IngestError::UnexpectedEvent },
                },
                IngestAction::Halt,
            ),
        };
        (IngestJob { binary_path, metadata_path, library_dir, phase: next }, action)
    }
}

} // verus!
