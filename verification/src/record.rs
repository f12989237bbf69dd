//! The durable catalog record and its derivation from a metadata document.

use vstd::prelude::*;

use crate::category::{category_name, classify_tags};
use crate::metadata::SampleMetadata;

verus! {

pub struct SampleRecord {
    pub id: Option<i64>,
    pub file_path: String,
    pub pack_name: String,
    pub pack_uuid: String,
    pub filename: String,
    pub file_hash: String,
    pub bpm: Option<u32>,
    pub audio_key: Option<String>,
    pub chord_type: Option<String>,
    pub tags: String,
    pub mapped_category: String,
    pub sample_type: String,
    pub duration: u32,
    pub file_size: u64,
    pub provider_name: String,
    pub date_downloaded: String,
    pub splice_url: Option<String>,
    pub preview_url: String,
    pub asset_uuid: String,
}

/// The record's mathematical content: every text field as its character
/// sequence.
pub ghost struct SampleRecordV {
    pub id: Option<i64>,
    pub file_path: Seq<char>,
    pub pack_name: Seq<char>,
    pub pack_uuid: Seq<char>,
    pub filename: Seq<char>,
    pub file_hash: Seq<char>,
    pub bpm: Option<u32>,
    pub audio_key: Option<Seq<char>>,
    pub chord_type: Option<Seq<char>>,
    pub tags: Seq<char>,
    pub mapped_category: Seq<char>,
    pub sample_type: Seq<char>,
    pub duration: u32,
    pub file_size: u64,
    pub provider_name: Seq<char>,
    pub date_downloaded: Seq<char>,
    pub splice_url: Option<Seq<char>>,
    pub preview_url: Seq<char>,
    pub asset_uuid: Seq<char>,
}

impl View for SampleRecord {
    type V = SampleRecordV;

    open spec fn view(&self) -> SampleRecordV {
        SampleRecordV {
            id: self.id,
            file_path: self.file_path@,
            pack_name: self.pack_name@,
            pack_uuid: self.pack_uuid@,
            filename: self.filename@,
            file_hash: self.file_hash@,
            bpm: self.bpm,
            audio_key: self.audio_key.deep_view(),
            chord_type: self.chord_type.deep_view(),
            tags: self.tags@,
            mapped_category: self.mapped_category@,
            sample_type: self.sample_type@,
            duration: self.duration,
            file_size: self.file_size,
            provider_name: self.provider_name@,
            date_downloaded: self.date_downloaded@,
            splice_url: self.splice_url.deep_view(),
            preview_url: self.preview_url@,
            asset_uuid: self.asset_uuid@,
        }
    }
}

/// The JSON array text that encodes a list of tags.
pub uninterp spec fn json_tags_of(tags: Seq<Seq<char>>) -> Seq<char>;

/// The catalog record derived from a metadata document, with the given
/// library file path and content fingerprint.
pub open spec fn record_of(
    meta: SampleMetadata,
    file_path: Seq<char>,
    file_hash: Seq<char>,
) -> SampleRecordV {
    SampleRecordV {
        id: None,
        file_path: file_path,
        pack_name: meta.sample_meta_data.pack.name@,
        pack_uuid: meta.sample_meta_data.pack.uuid@,
        filename: meta.sample_meta_data.filename@,
        file_hash: file_hash,
        bpm: meta.sample_meta_data.bpm,
        audio_key: meta.sample_meta_data.audio_key.deep_view(),
        chord_type: meta.sample_meta_data.chord_type.deep_view(),
        tags: json_tags_of(meta.sample_meta_data.tags.deep_view()),
        mapped_category: category_name(classify_tags(meta.sample_meta_data.tags.deep_view())),
        sample_type: meta.sample_meta_data.sample_type@,
        duration: meta.sample_meta_data.duration,
        file_size: meta.sample.file_size,
        provider_name: meta.sample_meta_data.provider_name@,
        date_downloaded: meta.sample_meta_data.purchased_at@,
        splice_url: Some(meta.sample.url@),
        preview_url: meta.sample_meta_data.preview_url@,
        asset_uuid: meta.sample_meta_data.asset_uuid@,
    }
}

/// Relies on serde_json::to_string on a `Vec<String>`: the JSON array text
/// is a function of the strings alone, and serializing a vector of strings
/// cannot fail.
#[verifier::external_body]
fn json_encode_tags(tags: &Vec<String>) -> (r: String)
    ensures
        r@ == json_tags_of(tags.deep_view()),
{
    serde_json::to_string(tags).unwrap_or_default()
}

fn clone_opt_string(o: &Option<String>) -> (r: Option<String>)
    ensures
        r == *o,
{
    match o {
        Some(s) => Some(s.clone()),
        None => None,
    }
}

impl Clone for SampleRecord {
    /// A field-for-field copy, so a failed catalog insert can be retried
    /// with the identical record.
    fn clone(&self) -> (r: Self)
        ensures
            r == *self,
    {
        SampleRecord {
            id: self.id,
            file_path: self.file_path.clone(),
            pack_name: self.pack_name.clone(),
            pack_uuid: self.pack_uuid.clone(),
            filename: self.filename.clone(),
            file_hash: self.file_hash.clone(),
            bpm: self.bpm,
            audio_key: clone_opt_string(&self.audio_key),
            chord_type: clone_opt_string(&self.chord_type),
            tags: self.tags.clone(),
            mapped_category: self.mapped_category.clone(),
            sample_type: self.sample_type.clone(),
            duration: self.duration,
            file_size: self.file_size,
            provider_name: self.provider_name.clone(),
            date_downloaded: self.date_downloaded.clone(),
            splice_url: clone_opt_string(&self.splice_url),
            preview_url: self.preview_url.clone(),
            asset_uuid: self.asset_uuid.clone(),
        }
    }
}

impl SampleRecord {
    /// Build the catalog record for a decoded metadata document. The
    /// library file path and the content fingerprint are not known yet;
    /// they are filled in once the target path is derived and the binary
    /// is hashed.
    pub fn from_metadata(metadata: &SampleMetadata) -> (r: SampleRecord)
        ensures
            r@ == record_of(
                *metadata,
                Seq::<char>::empty(),
                metadata.sample_meta_data.file_hash@,
            ),
    {
        let category = metadata.get_category();
        SampleRecord {
            id: None,
            file_path: String::new(),
            pack_name: metadata.sample_meta_data.pack.name.clone(),
            pack_uuid: metadata.sample_meta_data.pack.uuid.clone(),
            filename: metadata.sample_meta_data.filename.clone(),
            file_hash: metadata.sample_meta_data.file_hash.clone(),
            bpm: metadata.sample_meta_data.bpm,
            audio_key: clone_opt_string(&metadata.sample_meta_data.audio_key),
            chord_type: clone_opt_string(&metadata.sample_meta_data.chord_type),
            tags: json_encode_tags(&metadata.sample_meta_data.tags),
            mapped_category: category.as_str().to_owned(),
            sample_type: metadata.sample_meta_data.sample_type.clone(),
            duration: metadata.sample_meta_data.duration,
            file_size: metadata.sample.file_size,
            provider_name: metadata.sample_meta_data.provider_name.clone(),
            date_downloaded: metadata.sample_meta_data.purchased_at.clone(),
            splice_url: Some(metadata.sample.url.clone()),
            preview_url: metadata.sample_meta_data.preview_url.clone(),
            asset_uuid: metadata.sample_meta_data.asset_uuid.clone(),
        }
    }
}

} // verus!
