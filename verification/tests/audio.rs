use bengine::audio::{current_music_track, get_tempo_and_num_samples, SfxPlayback};
use bengine::game::GameState;

#[test]
fn tempo_and_samples_of_patterns() {
    assert_eq!(get_tempo_and_num_samples(0), (30, 4));
    assert_eq!(get_tempo_and_num_samples(4), (54, 4));
    assert_eq!(get_tempo_and_num_samples(5), (60, 8));
    assert_eq!(get_tempo_and_num_samples(16), (288, 16));
    // Patterns above 16 skip a step.
    assert_eq!(get_tempo_and_num_samples(17), (384, 16));
    assert_eq!(get_tempo_and_num_samples(19), (480, 32));
}

#[test]
fn music_track_follows_scene() {
    assert_eq!(current_music_track(GameState::Menu, true), 0);
    assert_eq!(current_music_track(GameState::Playing, false), 1);
    assert_eq!(current_music_track(GameState::Playing, true), 2);
}

#[test]
fn sound_effect_plays_once_through() {
    let mut sfx = SfxPlayback::new();
    assert_eq!(sfx.step(3), None);
    sfx.trigger(1);
    assert_eq!(sfx.step(3), Some(0));
    assert_eq!(sfx.step(3), Some(1));
    assert_eq!(sfx.step(3), Some(2));
    assert_eq!(sfx.step(3), None);
    assert_eq!(sfx, SfxPlayback::new());
    sfx.trigger(0);
    assert_eq!(sfx.step(2), Some(0));
    sfx.trigger(2);
    assert_eq!(sfx.step(2), Some(0));
}
