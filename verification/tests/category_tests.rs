use splice_alt::category::{map_tags_to_category, BitwigCategory};

#[test]
fn first_matching_tag_decides() {
    let tags = vec!["unrelated".to_string(), "snare".to_string(), "kick".to_string()];
    assert_eq!(map_tags_to_category(&tags), BitwigCategory::Snare);
    let tags = vec!["pad".to_string(), "kick".to_string()];
    assert_eq!(map_tags_to_category(&tags), BitwigCategory::Pad);
}

#[test]
fn tags_are_case_folded() {
    let tags = vec!["KICK".to_string()];
    assert_eq!(map_tags_to_category(&tags), BitwigCategory::Kick);
    let tags = vec!["Drum Loops".to_string()];
    assert_eq!(map_tags_to_category(&tags), BitwigCategory::DrumLoop);
}

#[test]
fn no_match_defaults_to_unknown() {
    assert_eq!(map_tags_to_category(&vec![]), BitwigCategory::Unknown);
    let tags = vec!["zzz".to_string(), "yyy".to_string()];
    assert_eq!(map_tags_to_category(&tags), BitwigCategory::Unknown);
}

#[test]
fn tag_variants_map_to_the_same_category() {
    for t in ["hihat", "hi-hat", "hihats", "hi-hats"] {
        assert_eq!(map_tags_to_category(&vec![t.to_string()]), BitwigCategory::HiHat);
    }
    for t in ["fx", "sfx", "sound fx", "effects"] {
        assert_eq!(map_tags_to_category(&vec![t.to_string()]), BitwigCategory::SoundFX);
    }
    for t in ["bass", "bassline", "sub bass"] {
        assert_eq!(map_tags_to_category(&vec![t.to_string()]), BitwigCategory::Bass);
    }
}

#[test]
fn as_str_gives_display_names() {
    assert_eq!(BitwigCategory::Kick.as_str(), "Kick");
    assert_eq!(BitwigCategory::DrumLoop.as_str(), "Drum Loop");
    assert_eq!(BitwigCategory::HiHat.as_str(), "Hi-hat");
    assert_eq!(BitwigCategory::OtherDrums.as_str(), "Other Drums");
    assert_eq!(BitwigCategory::SoundFX.as_str(), "Sound FX");
    assert_eq!(BitwigCategory::Unknown.as_str(), "Unknown");
}

#[test]
fn from_name_round_trips_every_category() {
    let all = [
        BitwigCategory::Bass,
        BitwigCategory::Bell,
        BitwigCategory::Brass,
        BitwigCategory::Chip,
        BitwigCategory::Cymbal,
        BitwigCategory::Drone,
        BitwigCategory::DrumLoop,
        BitwigCategory::Guitar,
        BitwigCategory::HiHat,
        BitwigCategory::Keyboards,
        BitwigCategory::Kick,
        BitwigCategory::Lead,
        BitwigCategory::Mallet,
        BitwigCategory::Orchestral,
        BitwigCategory::Organ,
        BitwigCategory::OtherDrums,
        BitwigCategory::Pad,
        BitwigCategory::Percussion,
        BitwigCategory::Piano,
        BitwigCategory::Snare,
        BitwigCategory::SoundFX,
        BitwigCategory::Strings,
        BitwigCategory::Synth,
        BitwigCategory::Tom,
        BitwigCategory::Unknown,
        BitwigCategory::Vocal,
        BitwigCategory::Winds,
    ];
    for c in all {
        assert_eq!(BitwigCategory::from_name(c.as_str()), Some(c));
    }
}

#[test]
fn from_name_accepts_variants_and_folds_case() {
    assert_eq!(BitwigCategory::from_name("drumloop"), Some(BitwigCategory::DrumLoop));
    assert_eq!(BitwigCategory::from_name("HIHAT"), Some(BitwigCategory::HiHat));
    assert_eq!(BitwigCategory::from_name("otherdrums"), Some(BitwigCategory::OtherDrums));
    assert_eq!(BitwigCategory::from_name("fx"), Some(BitwigCategory::SoundFX));
    assert_eq!(BitwigCategory::from_name("soundfx"), Some(BitwigCategory::SoundFX));
    assert_eq!(BitwigCategory::from_name("not a category"), None);
    assert_eq!(BitwigCategory::from_name(""), None);
}
