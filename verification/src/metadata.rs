//! The metadata document that accompanies a binary sample, as plain data.
//!
//! Decoding the JSON text into these types is the decoder collaborator's
//! job outside this crate; the logic here works on the decoded values:
//! classification and derivation of the target library path.

use vstd::prelude::*;

use crate::category::{category_name, classify_tags, BitwigCategory};
use crate::sanitize::{sanitize_filename, sanitize_spec};

verus! {

pub struct Sample {
    pub url: String,
    pub path: String,
    pub sas_id: String,
    pub file_hash: String,
    pub file_size: u64,
    pub encoding: Encoding,
    pub sample_type: u32,
}

pub struct Encoding {
    pub name: String,
    pub decoded_format: String,
    pub decoded_hash: String,
    pub decoded_size: u64,
}

pub struct SampleMetaData {
    pub audio_key: Option<String>,
    pub bpm: Option<u32>,
    pub chord_type: Option<String>,
    pub dir: String,
    pub duration: u32,
    pub file_hash: String,
    pub filename: String,
    pub pack: Pack,
    pub preview_url: String,
    pub price: u32,
    pub provider_name: String,
    pub provider_uuid: String,
    pub provider_permalink: String,
    pub sample_type: String,
    pub tags: Vec<String>,
    pub waveform_url: String,
    pub published: bool,
    pub popularity: u32,
    pub trending: u32,
    pub published_at: String,
    pub purchased_at: String,
    pub sas_id: String,
    pub liked: bool,
    pub licensed: bool,
    pub asset_uuid: String,
}

pub struct Pack {
    pub uuid: String,
    pub name: String,
    pub description: String,
    pub provider_name: String,
    pub provider_description: String,
    pub cover_url: String,
    pub banner_url: String,
    pub main_genre: String,
    pub sample_count: u32,
    pub preset_count: u32,
    pub permalink: String,
    pub is_archived: bool,
}

pub struct SampleMetadata {
    pub sample: Sample,
    pub sample_meta_data: SampleMetaData,
    pub remaining_credits: Option<u32>,
    pub purchase_etag: Option<String>,
}

/// The separator the library tree uses between path components.
pub open spec fn sep() -> Seq<char> {
    "/"@
}

/// The target library path of a sample: `base/category/pack/filename`,
/// with the pack name sanitized.
pub open spec fn target_path_spec(
    base: Seq<char>,
    tags: Seq<Seq<char>>,
    pack_name: Seq<char>,
    filename: Seq<char>,
) -> Seq<char> {
    base + sep() + category_name(classify_tags(tags)) + sep() + sanitize_spec(pack_name) + sep()
        + filename
}

/// The target library path of a whole metadata document under the given
/// base directory.
pub open spec fn target_of(base: Seq<char>, meta: SampleMetadata) -> Seq<char> {
    target_path_spec(
        base,
        meta.sample_meta_data.tags.deep_view(),
        meta.sample_meta_data.pack.name@,
        meta.sample_meta_data.filename@,
    )
}

impl SampleMetadata {
    /// The category the sample's tags map to.
    pub fn get_category(&self) -> (r: BitwigCategory)
        ensures
            r == classify_tags(self.sample_meta_data.tags.deep_view()),
    {
        crate::category::map_tags_to_category(&self.sample_meta_data.tags)
    }

    /// Derive the target library path for this sample under the given
    /// library base directory.
    pub fn get_library_path(&self, library_base: &str) -> (r: String)
        ensures
            r@ == target_path_spec(
                library_base@,
                self.sample_meta_data.tags.deep_view(),
                self.sample_meta_data.pack.name@,
                self.sample_meta_data.filename@,
            ),
    {
        let category = self.get_category();
        let safe_pack_name = sanitize_filename(self.sample_meta_data.pack.name.as_str());
        let mut p = library_base.to_owned();
        p.append("/");
        p.append(category.as_str());
        p.append("/");
        p.append(safe_pack_name.as_str());
        p.append("/");
        p.append(self.sample_meta_data.filename.as_str());
        p
    }
}

} // verus!
