use animalese::{
    bundled_assets_path, letter_to_sprite_time, parse_voice_type, sfx_to_sprite_time,
    special_to_sprite_time, Millis, VoiceProfile, VoiceType,
};

#[test]
fn test_letter_to_sprite_time() {
    assert_eq!(letter_to_sprite_time('a'), Some(Millis::from_millis(0)));
    assert_eq!(letter_to_sprite_time('b'), Some(Millis::from_millis(200)));
    assert_eq!(letter_to_sprite_time('z'), Some(Millis::from_millis(5000)));
    assert_eq!(letter_to_sprite_time('A'), Some(Millis::from_millis(0)));
    assert_eq!(letter_to_sprite_time('1'), None);
}

#[test]
fn test_special_sounds() {
    assert_eq!(special_to_sprite_time("ok"), Some(Millis::from_millis(5200)));
    assert_eq!(special_to_sprite_time("gwah"), Some(Millis::from_millis(5800)));
    assert_eq!(special_to_sprite_time("deska"), Some(Millis::from_millis(6400)));
    assert_eq!(special_to_sprite_time("unknown"), None);
}

#[test]
fn test_voice_profile_default() {
    let profile = VoiceProfile::default();
    assert_eq!(profile.voice_type, VoiceType::F1);
    assert_eq!(profile.pitch_shift, 0);
    assert_eq!(profile.pitch_variation, 200);
    assert_eq!(profile.volume, 650);
    assert_eq!(profile.intonation, 0);
}

#[test]
fn test_intonation_values() {
    let mut profile = VoiceProfile::default();

    profile.intonation = 500;
    assert_eq!(profile.intonation, 500);

    profile.intonation = -500;
    assert_eq!(profile.intonation, -500);

    profile.intonation = 1000;
    assert_eq!(profile.intonation, 1000);

    profile.intonation = -1000;
    assert_eq!(profile.intonation, -1000);
}

#[test]
fn every_letter_has_its_slot_in_either_case() {
    for (i, c) in ('a'..='z').enumerate() {
        let expected = Some(Millis::from_millis(i as u64 * 200));
        assert_eq!(letter_to_sprite_time(c), expected);
        assert_eq!(letter_to_sprite_time(c.to_ascii_uppercase()), expected);
    }
}

#[test]
fn non_letters_have_no_slot() {
    for c in ['0', '9', '?', '!', ' ', '\n', '@', '[', '`', '{', 'é', 'ß'] {
        assert_eq!(letter_to_sprite_time(c), None);
    }
}

#[test]
fn effects_are_spaced_by_six_hundred_ms() {
    assert_eq!(sfx_to_sprite_time("backspace"), Some(Millis::from_millis(0)));
    assert_eq!(sfx_to_sprite_time("enter"), Some(Millis::from_millis(600)));
    assert_eq!(sfx_to_sprite_time("tab"), Some(Millis::from_millis(1200)));
    assert_eq!(sfx_to_sprite_time("default"), Some(Millis::from_millis(10800)));
    assert_eq!(sfx_to_sprite_time("percent"), Some(Millis::from_millis(15000)));
    assert_eq!(sfx_to_sprite_time("ok"), None);
    assert_eq!(sfx_to_sprite_time("Enter"), None);
    assert_eq!(sfx_to_sprite_time(""), None);
}

#[test]
fn special_names_are_case_sensitive() {
    assert_eq!(special_to_sprite_time("OK"), None);
    assert_eq!(special_to_sprite_time(""), None);
}

#[test]
fn voice_names_parse_in_any_case() {
    assert_eq!(parse_voice_type("f1"), Ok(VoiceType::F1));
    assert_eq!(parse_voice_type("F4"), Ok(VoiceType::F4));
    assert_eq!(parse_voice_type("M3"), Ok(VoiceType::M3));
    assert_eq!(parse_voice_type("m2"), Ok(VoiceType::M2));
}

#[test]
fn unknown_voice_name_is_reported() {
    assert_eq!(parse_voice_type("x9"), Err("Invalid voice type: x9".to_string()));
    assert_eq!(parse_voice_type("F5"), Err("Invalid voice type: F5".to_string()));
}

#[test]
fn each_voice_has_its_own_sheet() {
    assert_eq!(VoiceType::F1.filename(), "f1.ogg");
    assert_eq!(VoiceType::F4.filename(), "f4.ogg");
    assert_eq!(VoiceType::M1.filename(), "m1.ogg");
    assert_eq!(VoiceType::M4.filename(), "m4.ogg");
}

#[test]
fn bundled_voices_live_under_assets_audio_voice() {
    assert_eq!(bundled_assets_path("/pkg"), "/pkg/assets/audio/voice");
    assert_eq!(bundled_assets_path("/pkg/"), "/pkg/assets/audio/voice");
}
