//! The fixed category taxonomy and the tag-to-category classification.
//!
//! A sample is classified by the first of its tags (case-folded) that a
//! rule recognizes; when no rule matches, the category is `Unknown`. The
//! category label decides the sample's subdirectory in the library tree.

use vstd::prelude::*;

use crate::chars::{char_lower, lower_seq};

verus! {

#[derive(Debug, Clone, Copy, PartialEq, Eq, Structural)]
pub enum BitwigCategory {
    Bass,
    Bell,
    Brass,
    Chip,
    Cymbal,
    Drone,
    DrumLoop,
    Guitar,
    HiHat,
    Keyboards,
    Kick,
    Lead,
    Mallet,
    Orchestral,
    Organ,
    OtherDrums,
    Pad,
    Percussion,
    Piano,
    Snare,
    SoundFX,
    Strings,
    Synth,
    Tom,
    Unknown,
    Vocal,
    Winds,
}

/// The display name of each category, which is also its directory name in
/// the library tree.
pub open spec fn category_name(c: BitwigCategory) -> Seq<char> {
    match c {
        BitwigCategory::Bass => "Bass"@,
        BitwigCategory::Bell => "Bell"@,
        BitwigCategory::Brass => "Brass"@,
        BitwigCategory::Chip => "Chip"@,
        BitwigCategory::Cymbal => "Cymbal"@,
        BitwigCategory::Drone => "Drone"@,
        BitwigCategory::DrumLoop => "Drum Loop"@,
        BitwigCategory::Guitar => "Guitar"@,
        BitwigCategory::HiHat => "Hi-hat"@,
        BitwigCategory::Keyboards => "Keyboards"@,
        BitwigCategory::Kick => "Kick"@,
        BitwigCategory::Lead => "Lead"@,
        BitwigCategory::Mallet => "Mallet"@,
        BitwigCategory::Orchestral => "Orchestral"@,
        BitwigCategory::Organ => "Organ"@,
        BitwigCategory::OtherDrums => "Other Drums"@,
        BitwigCategory::Pad => "Pad"@,
        BitwigCategory::Percussion => "Percussion"@,
        BitwigCategory::Piano => "Piano"@,
        BitwigCategory::Snare => "Snare"@,
        BitwigCategory::SoundFX => "Sound FX"@,
        BitwigCategory::Strings => "Strings"@,
        BitwigCategory::Synth => "Synth"@,
        BitwigCategory::Tom => "Tom"@,
        BitwigCategory::Unknown => "Unknown"@,
        BitwigCategory::Vocal => "Vocal"@,
        BitwigCategory::Winds => "Winds"@,
    }
}

/// The rule table over one case-folded tag: the category it selects, if
/// any.
pub open spec fn tag_rule(t: Seq<char>) -> Option<BitwigCategory> {
    if t == "kick"@ || t == "kicks"@ {
        Some(BitwigCategory::Kick)
    } else if t == "snare"@ || t == "snares"@ {
        Some(BitwigCategory::Snare)
    } else if t == "hihat"@ || t == "hi-hat"@ || t == "hihats"@ || t == "hi-hats"@ {
        Some(BitwigCategory::HiHat)
    } else if t == "cymbal"@ || t == "cymbals"@ {
        Some(BitwigCategory::Cymbal)
    } else if t == "tom"@ || t == "toms"@ {
        Some(BitwigCategory::Tom)
    } else if t == "percussion"@ || t == "perc"@ {
        Some(BitwigCategory::Percussion)
    } else if t == "drum loop"@ || t == "drum loops"@ || t == "drums"@ {
        Some(BitwigCategory::DrumLoop)
    } else if t == "bass"@ || t == "bassline"@ || t == "sub bass"@ {
        Some(BitwigCategory::Bass)
    } else if t == "lead"@ || t == "leads"@ || t == "lead synth"@ {
        Some(BitwigCategory::Lead)
    } else if t == "pad"@ || t == "pads"@ || t == "ambient"@ {
        Some(BitwigCategory::Pad)
    } else if t == "synth"@ || t == "synthesizer"@ {
        Some(BitwigCategory::Synth)
    } else if t == "piano"@ {
        Some(BitwigCategory::Piano)
    } else if t == "guitar"@ {
        Some(BitwigCategory::Guitar)
    } else if t == "organ"@ {
        Some(BitwigCategory::Organ)
    } else if t == "bell"@ || t == "bells"@ {
        Some(BitwigCategory::Bell)
    } else if t == "brass"@ {
        Some(BitwigCategory::Brass)
    } else if t == "strings"@ || t == "string"@ {
        Some(BitwigCategory::Strings)
    } else if t == "vocal"@ || t == "vocals"@ || t == "voice"@ {
        Some(BitwigCategory::Vocal)
    } else if t == "fx"@ || t == "sfx"@ || t == "sound fx"@ || t == "effects"@ {
        Some(BitwigCategory::SoundFX)
    } else if t == "drone"@ || t == "texture"@ {
        Some(BitwigCategory::Drone)
    } else {
        None
    }
}

/// First-match classification over a list of raw (unfolded) tags.
pub open spec fn classify_tags(tags: Seq<Seq<char>>) -> BitwigCategory
    decreases tags.len(),
{
    if tags.len() == 0 {
        BitwigCategory::Unknown
    } else {
        match tag_rule(lower_seq(tags[0])) {
            Some(c) => c,
            None => classify_tags(tags.drop_first()),
        }
    }
}

/// The name that parsing accepts for each category, over a case-folded
/// input, including the spelling variants.
pub open spec fn parse_category(t: Seq<char>) -> Option<BitwigCategory> {
    if t == "bass"@ {
        Some(BitwigCategory::Bass)
    } else if t == "bell"@ {
        Some(BitwigCategory::Bell)
    } else if t == "brass"@ {
        Some(BitwigCategory::Brass)
    } else if t == "chip"@ {
        Some(BitwigCategory::Chip)
    } else if t == "cymbal"@ {
        Some(BitwigCategory::Cymbal)
    } else if t == "drone"@ {
        Some(BitwigCategory::Drone)
    } else if t == "drum loop"@ || t == "drumloop"@ {
        Some(BitwigCategory::DrumLoop)
    } else if t == "guitar"@ {
        Some(BitwigCategory::Guitar)
    } else if t == "hi-hat"@ || t == "hihat"@ {
        Some(BitwigCategory::HiHat)
    } else if t == "keyboards"@ {
        Some(BitwigCategory::Keyboards)
    } else if t == "kick"@ {
        Some(BitwigCategory::Kick)
    } else if t == "lead"@ {
        Some(BitwigCategory::Lead)
    } else if t == "mallet"@ {
        Some(BitwigCategory::Mallet)
    } else if t == "orchestral"@ {
        Some(BitwigCategory::Orchestral)
    } else if t == "organ"@ {
        Some(BitwigCategory::Organ)
    } else if t == "other drums"@ || t == "otherdrums"@ {
        Some(BitwigCategory::OtherDrums)
    } else if t == "pad"@ {
        Some(BitwigCategory::Pad)
    } else if t == "percussion"@ {
        Some(BitwigCategory::Percussion)
    } else if t == "piano"@ {
        Some(BitwigCategory::Piano)
    } else if t == "snare"@ {
        Some(BitwigCategory::Snare)
    } else if t == "sound fx"@ || t == "soundfx"@ || t == "fx"@ {
        Some(BitwigCategory::SoundFX)
    } else if t == "strings"@ {
        Some(BitwigCategory::Strings)
    } else if t == "synth"@ {
        Some(BitwigCategory::Synth)
    } else if t == "tom"@ {
        Some(BitwigCategory::Tom)
    } else if t == "unknown"@ {
        Some(BitwigCategory::Unknown)
    } else if t == "vocal"@ {
        Some(BitwigCategory::Vocal)
    } else if t == "winds"@ {
        Some(BitwigCategory::Winds)
    } else {
        None
    }
}

/// Compare a string against a literal name.
fn eq_lit(s: &String, lit: &str) -> (r: bool)
    ensures
        r == (s@ == lit@),
{
    s.eq(&lit.to_owned())
}

/// Case-fold a string: ASCII letters to lower case, the rest kept.
pub fn lower_string(s: &str) -> (r: String)
    ensures
        r@ == lower_seq(s@),
{
    let n = s.unicode_len();
    let mut out = String::new();
    let mut i: usize = 0;
    while i < n
        invariant
            n == s@.len(),
            i <= n,
            out@ == lower_seq(s@.take(i as int)),
        decreases n - i,
    {
        let c = s.get_char(i);
        crate::chars::push_char(&mut out, char_lower(c));
        proof {
            assert(lower_seq(s@.take(i + 1)) =~= lower_seq(s@.take(i as int)).push(
                crate::chars::lower_char(s@[i as int]),
            ));
        }
        i += 1;
    }
    proof {
        assert(s@.take(n as int) =~= s@);
    }
    out
}

impl BitwigCategory {
    /// The category's display name, also used as its directory component.
    pub fn as_str(&self) -> (r: &'static str)
        ensures
            r@ == category_name(*self),
    {
        match self {
            BitwigCategory::Bass => "Bass",
            BitwigCategory::Bell => "Bell",
            BitwigCategory::Brass => "Brass",
            BitwigCategory::Chip => "Chip",
            BitwigCategory::Cymbal => "Cymbal",
            BitwigCategory::Drone => "Drone",
            BitwigCategory::DrumLoop => "Drum Loop",
            BitwigCategory::Guitar => "Guitar",
            BitwigCategory::HiHat => "Hi-hat",
            BitwigCategory::Keyboards => "Keyboards",
            BitwigCategory::Kick => "Kick",
            BitwigCategory::Lead => "Lead",
            BitwigCategory::Mallet => "Mallet",
            BitwigCategory::Orchestral => "Orchestral",
            BitwigCategory::Organ => "Organ",
            BitwigCategory::OtherDrums => "Other Drums",
            BitwigCategory::Pad => "Pad",
            BitwigCategory::Percussion => "Percussion",
            BitwigCategory::Piano => "Piano",
            BitwigCategory::Snare => "Snare",
            BitwigCategory::SoundFX => "Sound FX",
            BitwigCategory::Strings => "Strings",
            BitwigCategory::Synth => "Synth",
            BitwigCategory::Tom => "Tom",
            BitwigCategory::Unknown => "Unknown",
            BitwigCategory::Vocal => "Vocal",
            BitwigCategory::Winds => "Winds",
        }
    }

    /// Parse a category from its name, after case-folding, accepting the
    /// documented spelling variants.
    pub fn from_name(s: &str) -> (r: Option<BitwigCategory>)
        ensures
            r == parse_category(lower_seq(s@)),
    {
        let t = lower_string(s);
        if eq_lit(&t, "bass") {
            Some(BitwigCategory::Bass)
        } else if eq_lit(&t, "bell") {
            Some(BitwigCategory::Bell)
        } else if eq_lit(&t, "brass") {
            Some(BitwigCategory::Brass)
        } else if eq_lit(&t, "chip") {
            Some(BitwigCategory::Chip)
        } else if eq_lit(&t, "cymbal") {
            Some(BitwigCategory::Cymbal)
        } else if eq_lit(&t, "drone") {
            Some(BitwigCategory::Drone)
        } else if eq_lit(&t, "drum loop") || eq_lit(&t, "drumloop") {
            Some(BitwigCategory::DrumLoop)
        } else if eq_lit(&t, "guitar") {
            Some(BitwigCategory::Guitar)
        } else if eq_lit(&t, "hi-hat") || eq_lit(&t, "hihat") {
            Some(BitwigCategory::HiHat)
        } else if eq_lit(&t, "keyboards") {
            Some(BitwigCategory::Keyboards)
        } else if eq_lit(&t, "kick") {
            Some(BitwigCategory::Kick)
        } else if eq_lit(&t, "lead") {
            Some(BitwigCategory::Lead)
        } else if eq_lit(&t, "mallet") {
            Some(BitwigCategory::Mallet)
        } else if eq_lit(&t, "orchestral") {
            Some(BitwigCategory::Orchestral)
        } else if eq_lit(&t, "organ") {
            Some(BitwigCategory::Organ)
        } else if eq_lit(&t, "other drums") || eq_lit(&t, "otherdrums") {
            Some(BitwigCategory::OtherDrums)
        } else if eq_lit(&t, "pad") {
            Some(BitwigCategory::Pad)
        } else if eq_lit(&t, "percussion") {
            Some(BitwigCategory::Percussion)
        } else if eq_lit(&t, "piano") {
            Some(BitwigCategory::Piano)
        } else if eq_lit(&t, "snare") {
            Some(BitwigCategory::Snare)
        } else if eq_lit(&t, "sound fx") || eq_lit(&t, "soundfx") || eq_lit(&t, "fx") {
            Some(BitwigCategory::SoundFX)
        } else if eq_lit(&t, "strings") {
            Some(BitwigCategory::Strings)
        } else if eq_lit(&t, "synth") {
            Some(BitwigCategory::Synth)
        } else if eq_lit(&t, "tom") {
            Some(BitwigCategory::Tom)
        } else if eq_lit(&t, "unknown") {
            Some(BitwigCategory::Unknown)
        } else if eq_lit(&t, "vocal") {
            Some(BitwigCategory::Vocal)
        } else if eq_lit(&t, "winds") {
            Some(BitwigCategory::Winds)
        } else {
            None
        }
    }
}

/// One exec step of the rule table: the category selected by one
/// case-folded tag, if any.
fn tag_rule_exec(t: &String) -> (r: Option<BitwigCategory>)
    ensures
        r == tag_rule(t@),
{
    if eq_lit(t, "kick") || eq_lit(t, "kicks") {
        Some(BitwigCategory::Kick)
    } else if eq_lit(t, "snare") || eq_lit(t, "snares") {
        Some(BitwigCategory::Snare)
    } else if eq_lit(t, "hihat") || eq_lit(t, "hi-hat") || eq_lit(t, "hihats") || eq_lit(
        t,
        "hi-hats",
    ) {
        Some(BitwigCategory::HiHat)
    } else if eq_lit(t, "cymbal") || eq_lit(t, "cymbals") {
        Some(BitwigCategory::Cymbal)
    } else if eq_lit(t, "tom") || eq_lit(t, "toms") {
        Some(BitwigCategory::Tom)
    } else if eq_lit(t, "percussion") || eq_lit(t, "perc") {
        Some(BitwigCategory::Percussion)
    } else if eq_lit(t, "drum loop") || eq_lit(t, "drum loops") || eq_lit(t, "drums") {
        Some(BitwigCategory::DrumLoop)
    } else if eq_lit(t, "bass") || eq_lit(t, "bassline") || eq_lit(t, "sub bass") {
        Some(BitwigCategory::Bass)
    } else if eq_lit(t, "lead") || eq_lit(t, "leads") || eq_lit(t, "lead synth") {
        Some(BitwigCategory::Lead)
    } else if eq_lit(t, "pad") || eq_lit(t, "pads") || eq_lit(t, "ambient") {
        Some(BitwigCategory::Pad)
    } else if eq_lit(t, "synth") || eq_lit(t, "synthesizer") {
        Some(BitwigCategory::Synth)
    } else if eq_lit(t, "piano") {
        Some(BitwigCategory::Piano)
    } else if eq_lit(t, "guitar") {
        Some(BitwigCategory::Guitar)
    } else if eq_lit(t, "organ") {
        Some(BitwigCategory::Organ)
    } else if eq_lit(t, "bell") || eq_lit(t, "bells") {
        Some(BitwigCategory::Bell)
    } else if eq_lit(t, "brass") {
        Some(BitwigCategory::Brass)
    } else if eq_lit(t, "strings") || eq_lit(t, "string") {
        Some(BitwigCategory::Strings)
    } else if eq_lit(t, "vocal") || eq_lit(t, "vocals") || eq_lit(t, "voice") {
        Some(BitwigCategory::Vocal)
    } else if eq_lit(t, "fx") || eq_lit(t, "sfx") || eq_lit(t, "sound fx") || eq_lit(
        t,
        "effects",
    ) {
        Some(BitwigCategory::SoundFX)
    } else if eq_lit(t, "drone") || eq_lit(t, "texture") {
        Some(BitwigCategory::Drone)
    } else {
        None
    }
}

/// Classify a sample by its tags: the first tag (in order, case-folded)
/// that a rule recognizes decides; otherwise `Unknown`.
pub fn map_tags_to_category(tags: &Vec<String>) -> (r: BitwigCategory)
    ensures
        r == classify_tags(tags.deep_view()),
{
    let ghost all: Seq<Seq<char>> = tags.deep_view();
    proof {
        assert(all.skip(0) =~= all);
    }
    let mut i: usize = 0;
    while i < tags.len()
        invariant
            all == tags.deep_view(),
            all.len() == tags@.len(),
            i <= tags@.len(),
            forall|j: int| 0 <= j < i ==> tag_rule(lower_seq(#[trigger] all[j])) is None,
            classify_tags(all) == classify_tags(all.skip(i as int)),
        decreases tags@.len() - i,
    {
        proof {
            assert(all[i as int] == tags@[i as int].deep_view());
        }
        let folded = lower_string(tags[i].as_str());
        let rule = tag_rule_exec(&folded);
        proof {
            assert(all.skip(i as int)[0] == all[i as int]);
        }
        if let Some(c) = rule {
            return c;
        }
        proof {
            assert(all.skip(i as int).drop_first() =~= all.skip(i + 1));
        }
        i += 1;
    }
    proof {
        assert(all.skip(i as int).len() == 0);
    }
    BitwigCategory::Unknown
}

} // verus!
