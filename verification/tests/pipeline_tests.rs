use splice_alt::errors::IngestError;
use splice_alt::ingest::{IngestAction, IngestEvent, IngestJob, IngestOutcome, IngestPhase};
use splice_alt::metadata::{Encoding, Pack, Sample, SampleMetaData, SampleMetadata};
use splice_alt::record::SampleRecord;

const AAAA_SHA256: &str = "63c1dd951ffedf6f7fd968ad4efa39b8ed584f162f46e715114ee184f8de9201";

fn meta_fixture() -> SampleMetadata {
    SampleMetadata {
        sample: Sample {
            url: "https://example.com/s/kick_01.wav".to_string(),
            path: "samples/kick_01.wav".to_string(),
            sas_id: "sas-1".to_string(),
            file_hash: "upstream-hash".to_string(),
            file_size: 4,
            encoding: Encoding {
                name: "wav".to_string(),
                decoded_format: "pcm".to_string(),
                decoded_hash: "dh".to_string(),
                decoded_size: 4,
            },
            sample_type: 1,
        },
        sample_meta_data: SampleMetaData {
            audio_key: Some("C".to_string()),
            bpm: Some(120),
            chord_type: None,
            dir: "drums".to_string(),
            duration: 1,
            file_hash: "upstream-hash".to_string(),
            filename: "kick_01.wav".to_string(),
            pack: Pack {
                uuid: "pack-uuid".to_string(),
                name: "My Pack/2024".to_string(),
                description: String::new(),
                provider_name: "Prov".to_string(),
                provider_description: String::new(),
                cover_url: String::new(),
                banner_url: String::new(),
                main_genre: "techno".to_string(),
                sample_count: 10,
                preset_count: 0,
                permalink: "my-pack".to_string(),
                is_archived: false,
            },
            preview_url: "https://example.com/p.mp3".to_string(),
            price: 100,
            provider_name: "Prov".to_string(),
            provider_uuid: "prov-uuid".to_string(),
            provider_permalink: "prov".to_string(),
            sample_type: "oneshot".to_string(),
            tags: vec!["kick".to_string()],
            waveform_url: String::new(),
            published: true,
            popularity: 5,
            trending: 0,
            published_at: "2024-01-01".to_string(),
            purchased_at: "2024-02-02".to_string(),
            sas_id: "sas-1".to_string(),
            liked: false,
            licensed: true,
            asset_uuid: "asset-uuid".to_string(),
        },
        remaining_credits: Some(3),
        purchase_etag: None,
    }
}

fn valid_status(size: u64) -> IngestEvent {
    IngestEvent::FileStatus { exists: true, is_regular: true, size }
}

/// Drive a fresh job up to the catalog query; returns the job and the
/// queried fingerprint.
fn drive_to_catalog_query() -> (IngestJob, String) {
    let (job, action) = IngestJob::start(
        "W/kick_01.wav".to_string(),
        "W/kick_01.json".to_string(),
        "L".to_string(),
    );
    assert!(matches!(action, IngestAction::StatBinary));
    let (job, action) = job.step(valid_status(4));
    assert!(matches!(action, IngestAction::StatMetadata));
    let (job, action) = job.step(valid_status(120));
    assert!(matches!(action, IngestAction::DecodeMetadata));
    let (job, action) = job.step(IngestEvent::Decoded { meta: meta_fixture() });
    assert!(matches!(action, IngestAction::ReadBinary));
    let (job, action) = job.step(IngestEvent::BinaryRead { data: b"AAAA".to_vec() });
    match action {
        IngestAction::QueryCatalog { fingerprint } => (job, fingerprint),
        _ => panic!("expected a catalog query"),
    }
}

#[test]
fn happy_path_commits_with_expected_target_and_record() {
    let (job, fingerprint) = drive_to_catalog_query();
    assert_eq!(fingerprint, AAAA_SHA256);

    let (job, action) = job.step(IngestEvent::CatalogHas { exists: false });
    match &action {
        IngestAction::EnsureDir { path } => assert_eq!(path, "L/Kick/My Pack-2024"),
        _ => panic!("expected directory preparation"),
    }
    let (job, action) = job.step(IngestEvent::DirEnsured { ok: true });
    match &action {
        IngestAction::CopyBinary { target } => {
            assert_eq!(target, "L/Kick/My Pack-2024/kick_01.wav")
        }
        _ => panic!("expected the copy"),
    }
    let (job, action) = job.step(IngestEvent::Copied { ok: true });
    assert!(matches!(action, IngestAction::StatSizes { .. }));
    let (job, action) = job.step(IngestEvent::SizesRead { source: 4, target: 4 });
    assert!(matches!(action, IngestAction::RemoveSourceBinary));
    let (job, action) = job.step(IngestEvent::SourceRemoved { ok: true });
    match &action {
        IngestAction::InsertRecord { record } => {
            assert_eq!(record.file_path, "L/Kick/My Pack-2024/kick_01.wav");
            assert_eq!(record.file_hash, AAAA_SHA256);
            assert_eq!(record.mapped_category, "Kick");
            assert_eq!(record.pack_name, "My Pack/2024");
            assert_eq!(record.filename, "kick_01.wav");
            assert_eq!(record.tags, "[\"kick\"]");
            assert_eq!(record.file_size, 4);
            assert_eq!(record.date_downloaded, "2024-02-02");
        }
        _ => panic!("expected the catalog insert"),
    }
    let (job, action) = job.step(IngestEvent::Inserted { ok: true });
    assert!(matches!(action, IngestAction::RemoveMetadataFile));
    let (job, action) = job.step(IngestEvent::MetadataRemoved);
    assert!(matches!(action, IngestAction::Halt));
    assert!(matches!(
        job.phase,
        IngestPhase::Done { outcome: IngestOutcome::Committed }
    ));
}

#[test]
fn duplicate_deletes_both_files_and_inserts_nothing() {
    // the same content re-dropped: the catalog already has the
    // fingerprint, so both files go and nothing else happens
    let (job, fingerprint) = drive_to_catalog_query();
    assert_eq!(fingerprint, AAAA_SHA256);
    let (job, action) = job.step(IngestEvent::CatalogHas { exists: true });
    assert!(matches!(action, IngestAction::DeleteBothFiles));
    let (job, action) = job.step(IngestEvent::Deleted);
    assert!(matches!(action, IngestAction::Halt));
    assert!(matches!(
        job.phase,
        IngestPhase::Done { outcome: IngestOutcome::Duplicate }
    ));
}

#[test]
fn size_mismatch_removes_the_copy_and_keeps_the_source() {
    let (job, _) = drive_to_catalog_query();
    let (job, _) = job.step(IngestEvent::CatalogHas { exists: false });
    let (job, _) = job.step(IngestEvent::DirEnsured { ok: true });
    let (job, _) = job.step(IngestEvent::Copied { ok: true });
    let (job, action) = job.step(IngestEvent::SizesRead { source: 4, target: 3 });
    match &action {
        IngestAction::RemoveBadCopy { target } => {
            assert_eq!(target, "L/Kick/My Pack-2024/kick_01.wav")
        }
        _ => panic!("a mismatching copy must be removed"),
    }
    let (job, action) = job.step(IngestEvent::BadCopyRemoved);
    assert!(matches!(action, IngestAction::Halt));
    assert!(matches!(
        job.phase,
        IngestPhase::Done {
            outcome: IngestOutcome::Abandoned { error: IngestError::CopyVerificationFailed }
        }
    ));
}

#[test]
fn insert_failures_back_off_then_give_up() {
    let (job, _) = drive_to_catalog_query();
    let (job, _) = job.step(IngestEvent::CatalogHas { exists: false });
    let (job, _) = job.step(IngestEvent::DirEnsured { ok: true });
    let (job, _) = job.step(IngestEvent::Copied { ok: true });
    let (job, _) = job.step(IngestEvent::SizesRead { source: 4, target: 4 });
    let (job, action) = job.step(IngestEvent::SourceRemoved { ok: true });
    assert!(matches!(action, IngestAction::InsertRecord { .. }));
    let (job, action) = job.step(IngestEvent::Inserted { ok: false });
    assert!(matches!(action, IngestAction::Sleep { ms: 1000 }));
    let (job, action) = job.step(IngestEvent::Slept);
    assert!(matches!(action, IngestAction::InsertRecord { .. }));
    let (job, action) = job.step(IngestEvent::Inserted { ok: false });
    assert!(matches!(action, IngestAction::Sleep { ms: 2000 }));
    let (job, action) = job.step(IngestEvent::Slept);
    assert!(matches!(action, IngestAction::InsertRecord { .. }));
    let (job, action) = job.step(IngestEvent::Inserted { ok: false });
    assert!(matches!(action, IngestAction::Halt));
    assert!(matches!(
        job.phase,
        IngestPhase::Done { outcome: IngestOutcome::Abandoned { error: IngestError::InsertFailed } }
    ));
}

#[test]
fn hash_read_failures_back_off_then_give_up() {
    let (job, _) = IngestJob::start("b.wav".to_string(), "b.json".to_string(), "L".to_string());
    let (job, _) = job.step(valid_status(4));
    let (job, _) = job.step(valid_status(120));
    let (job, _) = job.step(IngestEvent::Decoded { meta: meta_fixture() });
    let (job, action) = job.step(IngestEvent::ReadFailed);
    assert!(matches!(action, IngestAction::Sleep { ms: 1000 }));
    let (job, action) = job.step(IngestEvent::Slept);
    assert!(matches!(action, IngestAction::ReadBinary));
    let (job, action) = job.step(IngestEvent::ReadFailed);
    assert!(matches!(action, IngestAction::Sleep { ms: 2000 }));
    let (job, action) = job.step(IngestEvent::Slept);
    assert!(matches!(action, IngestAction::ReadBinary));
    let (job, action) = job.step(IngestEvent::ReadFailed);
    assert!(matches!(action, IngestAction::Halt));
    assert!(matches!(
        job.phase,
        IngestPhase::Done { outcome: IngestOutcome::Abandoned { error: IngestError::HashFailed } }
    ));
}

#[test]
fn invalid_files_abandon_the_unit() {
    let (job, _) = IngestJob::start("b.wav".to_string(), "b.json".to_string(), "L".to_string());
    let (job, action) = job.step(IngestEvent::FileStatus {
        exists: false,
        is_regular: false,
        size: 0,
    });
    assert!(matches!(action, IngestAction::Halt));
    assert!(matches!(
        job.phase,
        IngestPhase::Done { outcome: IngestOutcome::Abandoned { error: IngestError::MissingFile } }
    ));

    let (job, _) = IngestJob::start("b.wav".to_string(), "b.json".to_string(), "L".to_string());
    let (job, _) = job.step(valid_status(4));
    let (job, action) = job.step(IngestEvent::FileStatus {
        exists: true,
        is_regular: true,
        size: 0,
    });
    assert!(matches!(action, IngestAction::Halt));
    assert!(matches!(
        job.phase,
        IngestPhase::Done { outcome: IngestOutcome::Abandoned { error: IngestError::EmptyFile } }
    ));

    let (job, _) = IngestJob::start("b.wav".to_string(), "b.json".to_string(), "L".to_string());
    let (job, action) = job.step(IngestEvent::FileStatus {
        exists: true,
        is_regular: false,
        size: 4,
    });
    assert!(matches!(action, IngestAction::Halt));
    assert!(matches!(
        job.phase,
        IngestPhase::Done { outcome: IngestOutcome::Abandoned { error: IngestError::NotAFile } }
    ));
}

#[test]
fn remaining_failures_map_to_their_errors() {
    // decode failure
    let (job, _) = IngestJob::start("b.wav".to_string(), "b.json".to_string(), "L".to_string());
    let (job, _) = job.step(valid_status(4));
    let (job, _) = job.step(valid_status(120));
    let (job, action) = job.step(IngestEvent::DecodeFailed);
    assert!(matches!(action, IngestAction::Halt));
    assert!(matches!(
        job.phase,
        IngestPhase::Done { outcome: IngestOutcome::Abandoned { error: IngestError::DecodeFailed } }
    ));

    // directory creation failure
    let (job, _) = drive_to_catalog_query();
    let (job, _) = job.step(IngestEvent::CatalogHas { exists: false });
    let (job, action) = job.step(IngestEvent::DirEnsured { ok: false });
    assert!(matches!(action, IngestAction::Halt));
    assert!(matches!(
        job.phase,
        IngestPhase::Done {
            outcome: IngestOutcome::Abandoned { error: IngestError::DirCreateFailed }
        }
    ));

    // copy failure
    let (job, _) = drive_to_catalog_query();
    let (job, _) = job.step(IngestEvent::CatalogHas { exists: false });
    let (job, _) = job.step(IngestEvent::DirEnsured { ok: true });
    let (job, action) = job.step(IngestEvent::Copied { ok: false });
    assert!(matches!(action, IngestAction::Halt));
    assert!(matches!(
        job.phase,
        IngestPhase::Done { outcome: IngestOutcome::Abandoned { error: IngestError::CopyFailed } }
    ));

    // size read-back failure
    let (job, _) = drive_to_catalog_query();
    let (job, _) = job.step(IngestEvent::CatalogHas { exists: false });
    let (job, _) = job.step(IngestEvent::DirEnsured { ok: true });
    let (job, _) = job.step(IngestEvent::Copied { ok: true });
    let (job, action) = job.step(IngestEvent::SizesFailed);
    assert!(matches!(action, IngestAction::Halt));
    assert!(matches!(
        job.phase,
        IngestPhase::Done { outcome: IngestOutcome::Abandoned { error: IngestError::StatFailed } }
    ));

    // source removal failure
    let (job, _) = drive_to_catalog_query();
    let (job, _) = job.step(IngestEvent::CatalogHas { exists: false });
    let (job, _) = job.step(IngestEvent::DirEnsured { ok: true });
    let (job, _) = job.step(IngestEvent::Copied { ok: true });
    let (job, _) = job.step(IngestEvent::SizesRead { source: 4, target: 4 });
    let (job, action) = job.step(IngestEvent::SourceRemoved { ok: false });
    assert!(matches!(action, IngestAction::Halt));
    assert!(matches!(
        job.phase,
        IngestPhase::Done {
            outcome: IngestOutcome::Abandoned { error: IngestError::SourceRemovalFailed }
        }
    ));

    // an answer the phase cannot take
    let (job, _) = IngestJob::start("b.wav".to_string(), "b.json".to_string(), "L".to_string());
    let (job, action) = job.step(IngestEvent::Slept);
    assert!(matches!(action, IngestAction::Halt));
    assert!(matches!(
        job.phase,
        IngestPhase::Done {
            outcome: IngestOutcome::Abandoned { error: IngestError::UnexpectedEvent }
        }
    ));
}

#[test]
fn library_path_for_the_fixture() {
    let meta = meta_fixture();
    assert_eq!(meta.get_library_path("L"), "L/Kick/My Pack-2024/kick_01.wav");
}

#[test]
fn record_is_derived_field_for_field() {
    let meta = meta_fixture();
    let r = SampleRecord::from_metadata(&meta);
    assert_eq!(r.id, None);
    assert_eq!(r.file_path, "");
    assert_eq!(r.pack_name, "My Pack/2024");
    assert_eq!(r.pack_uuid, "pack-uuid");
    assert_eq!(r.filename, "kick_01.wav");
    assert_eq!(r.file_hash, "upstream-hash");
    assert_eq!(r.bpm, Some(120));
    assert_eq!(r.audio_key, Some("C".to_string()));
    assert_eq!(r.chord_type, None);
    assert_eq!(r.tags, "[\"kick\"]");
    assert_eq!(r.mapped_category, "Kick");
    assert_eq!(r.sample_type, "oneshot");
    assert_eq!(r.duration, 1);
    assert_eq!(r.file_size, 4);
    assert_eq!(r.provider_name, "Prov");
    assert_eq!(r.date_downloaded, "2024-02-02");
    assert_eq!(r.splice_url, Some("https://example.com/s/kick_01.wav".to_string()));
    assert_eq!(r.preview_url, "https://example.com/p.mp3");
    assert_eq!(r.asset_uuid, "asset-uuid");
}

#[test]
fn record_clone_is_field_for_field() {
    let meta = meta_fixture();
    let r = SampleRecord::from_metadata(&meta);
    let c = r.clone();
    assert_eq!(c.pack_name, r.pack_name);
    assert_eq!(c.file_hash, r.file_hash);
    assert_eq!(c.tags, r.tags);
    assert_eq!(c.bpm, r.bpm);
    assert_eq!(c.audio_key, r.audio_key);
    assert_eq!(c.splice_url, r.splice_url);
    assert_eq!(c.file_size, r.file_size);
}
