use animalese::{
    compute_intonation_offset, compute_pitch, pause_after, plan_clip, worker_step, Key, KeyAction,
    Millis, PlayRequest, SoundCommand, TypingState, VoiceProfile, WorkerAction,
};

fn request(apply_pitch: bool, max_duration: Option<Millis>, intonation_shift: i64) -> PlayRequest {
    PlayRequest {
        path: "/v/f1.ogg".to_string(),
        start: Millis::from_millis(400),
        duration: Millis::from_millis(200),
        max_duration,
        apply_pitch,
        intonation_shift,
    }
}

#[test]
fn glide_offsets_round_toward_zero() {
    assert_eq!(compute_intonation_offset(500, 0, 2), 0);
    assert_eq!(compute_intonation_offset(500, 1, 2), 750);
    assert_eq!(compute_intonation_offset(1000, 2, 3), 2000);
    assert_eq!(compute_intonation_offset(-1000, 1, 3), -1000);
    assert_eq!(compute_intonation_offset(333, 1, 2), 499);
    assert_eq!(compute_intonation_offset(-333, 1, 2), -499);
    assert_eq!(compute_intonation_offset(i32::MIN, 1, 1), -3 * 2147483648);
}

#[test]
fn pitch_adds_shift_jitter_and_glide() {
    let mut profile = VoiceProfile::default();
    profile.pitch_shift = 2000;
    assert_eq!(compute_pitch(&profile, 1000, 750), 2950);
    assert_eq!(compute_pitch(&profile, -1000, 750), 2550);
    assert_eq!(compute_pitch(&profile, 0, 0), 2000);
    profile.pitch_variation = 333;
    assert_eq!(compute_pitch(&profile, -1000, 0), 1667);
    assert_eq!(compute_pitch(&profile, 1, 0), 2000);
    assert_eq!(compute_pitch(&profile, 0, i64::MAX), i64::MAX);
}

#[test]
fn plan_takes_the_shorter_length() {
    let profile = VoiceProfile::default();
    let cut = plan_clip(request(true, Some(Millis::from_millis(50)), 0), &profile, 0);
    assert_eq!(cut.length, Millis::from_millis(50));
    let long = plan_clip(request(true, Some(Millis::from_millis(500)), 0), &profile, 0);
    assert_eq!(long.length, Millis::from_millis(200));
    let full = plan_clip(request(true, None, 0), &profile, 0);
    assert_eq!(full.length, Millis::from_millis(200));
    assert_eq!(full.start, Millis::from_millis(400));
    assert_eq!(full.path, "/v/f1.ogg");
    assert_eq!(full.volume, 650);
    assert_eq!(full.fade_in, Millis::from_millis(5));
    assert_eq!(full.pitch, Some(0));
}

#[test]
fn effects_keep_their_recorded_pitch() {
    let mut profile = VoiceProfile::default();
    profile.pitch_shift = -4000;
    profile.volume = 1200;
    let plan = plan_clip(request(false, None, 300), &profile, 1000);
    assert_eq!(plan.pitch, None);
    assert_eq!(plan.volume, 1200);
}

#[test]
fn worker_silences_on_stop() {
    assert_eq!(worker_step(SoundCommand::Stop, &VoiceProfile::default()), WorkerAction::Silence);
}

#[test]
fn worker_jitter_stays_within_the_variation() {
    let mut profile = VoiceProfile::default();
    profile.pitch_shift = 1000;
    profile.pitch_variation = 400;
    for _ in 0..200 {
        match worker_step(SoundCommand::Play(request(true, None, 100)), &profile) {
            WorkerAction::Play(plan) => {
                let p = plan.pitch.unwrap();
                assert!((700..=1500).contains(&p));
                assert_eq!(plan.length, Millis::from_millis(200));
            }
            WorkerAction::Silence => panic!("a play command must play"),
        }
    }
}

#[test]
fn reading_pauses_by_character() {
    assert_eq!(pause_after('a'), 50);
    assert_eq!(pause_after('Q'), 50);
    assert_eq!(pause_after(' '), 100);
    assert_eq!(pause_after('\n'), 200);
    assert_eq!(pause_after('.'), 0);
    assert_eq!(pause_after('7'), 0);
}

#[test]
fn fast_typing_cuts_letters_short() {
    let mut state = TypingState::new();
    assert_eq!(
        state.handle_key(Key::Char { c: 'h', control: false }, 500),
        KeyAction::Letter { c: 'h', max_duration: None }
    );
    assert_eq!(
        state.handle_key(Key::Char { c: 'i', control: false }, 560),
        KeyAction::Letter { c: 'i', max_duration: Some(Millis::from_millis(50)) }
    );
    assert_eq!(state.handle_key(Key::Char { c: ' ', control: false }, 580), KeyAction::Silent);
    assert_eq!(
        state.handle_key(Key::Char { c: 'x', control: false }, 660),
        KeyAction::Letter { c: 'x', max_duration: None }
    );
    assert_eq!(state.last_letter_ms, 660);
}

#[test]
fn keys_map_to_effects_and_quit() {
    let mut state = TypingState::new();
    assert_eq!(state.handle_key(Key::Enter, 10), KeyAction::Effect("enter"));
    assert_eq!(state.handle_key(Key::Backspace, 20), KeyAction::Effect("backspace"));
    assert_eq!(state.handle_key(Key::Tab, 30), KeyAction::Effect("tab"));
    assert_eq!(state.handle_key(Key::Other, 40), KeyAction::Silent);
    assert_eq!(state.handle_key(Key::Esc, 50), KeyAction::Quit);
    assert_eq!(state.handle_key(Key::Char { c: 'c', control: true }, 60), KeyAction::Quit);
    assert_eq!(state.last_letter_ms, 0);
}

#[test]
fn negative_volume_and_variation_pass_through() {
    let mut profile = VoiceProfile::default();
    profile.volume = -500;
    profile.pitch_variation = -400;
    let plan = plan_clip(request(true, None, 0), &profile, 1000);
    assert_eq!(plan.volume, -500);
    assert_eq!(plan.pitch, Some(-400));
}
