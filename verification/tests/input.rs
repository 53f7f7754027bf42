use bengine::event_loop::{
    process_event, Event, GameStateTracker, InputBitfield, Key, KeyboardLayout,
};
use bengine::game::GameState;

#[test]
fn flags_start_cleared() {
    let input = InputBitfield::new();
    assert_eq!(input.into_bits(), 0);
    assert!(!input.forward() && !input.quit() && !input.action());
    assert_eq!(InputBitfield::default(), input);
}

#[test]
fn flags_occupy_bits_in_order() {
    let input = InputBitfield::new()
        .with_forward(true)
        .with_backward(true)
        .with_left(true)
        .with_right(true)
        .with_up(true)
        .with_down(true)
        .with_quit(true)
        .with_action(true);
    assert_eq!(input.into_bits(), 0xff);
    assert_eq!(InputBitfield::new().with_backward(true).into_bits(), 0b10);
    assert_eq!(InputBitfield::new().with_quit(true).into_bits(), 0b100_0000);
    assert_eq!(InputBitfield::new().with_action(true).into_bits(), 0b1000_0000);
}

#[test]
fn set_changes_only_its_flag() {
    let mut input = InputBitfield::from_bits(0b1010_1010);
    input.set_left(true);
    assert_eq!(input.into_bits(), 0b1010_1110);
    input.set_backward(false);
    assert_eq!(input.into_bits(), 0b1010_1100);
    assert!(input.left());
    assert!(!input.backward());
    assert!(input.right());
    assert!(input.action());
    assert!(!input.quit());
}

#[test]
fn keys_drive_their_flags() {
    let mut input = InputBitfield::new();
    input.set_input(Key::W, true);
    assert!(input.forward());
    input.set_input(Key::S, true);
    assert!(input.backward());
    input.set_input(Key::A, true);
    input.set_input(Key::D, true);
    input.set_input(Key::Space, true);
    input.set_input(Key::C, true);
    input.set_input(Key::Escape, true);
    input.set_input(Key::E, true);
    assert_eq!(input.into_bits(), 0xff);
    input.set_input(Key::W, false);
    assert!(!input.forward());
    input.set_input(Key::Other, false);
    assert_eq!(input.into_bits(), 0xfe);
}

#[test]
fn game_state_names() {
    assert_eq!(<&str>::from(GameState::Menu), "menu");
    assert_eq!(<&str>::from(GameState::Playing), "playing");
}

#[test]
fn game_state_change_is_reported_once() {
    let mut state = GameStateTracker::new();
    assert_eq!(state.game_state(), GameState::Menu);
    assert_eq!(state.update(), None);
    assert_eq!(state.set_game_state(GameState::Playing), "playing");
    assert_eq!(state.game_state(), GameState::Playing);
    assert_eq!(state.previous_game_state, GameState::Menu);
    assert_eq!(state.update(), Some(GameState::Playing));
    assert_eq!(state.update(), None);
    assert_eq!(state.set_game_state(GameState::Menu), "menu");
    assert_eq!(state.previous_game_state, GameState::Playing);
    assert_eq!(state.update(), Some(GameState::Menu));
}

#[test]
fn events_drive_flags_and_resizes() {
    let mut input = InputBitfield::new();
    let mut resized = None;
    process_event(&mut input, &mut resized, Event::KeyDown { key: Key::D, repeat: false });
    assert!(input.right());
    process_event(&mut input, &mut resized, Event::KeyUp { key: Key::D, repeat: true });
    assert!(input.right());
    process_event(&mut input, &mut resized, Event::KeyUp { key: Key::D, repeat: false });
    assert!(!input.right());
    process_event(&mut input, &mut resized, Event::Other);
    assert_eq!(input.into_bits(), 0);
    assert_eq!(resized, None);
    process_event(&mut input, &mut resized, Event::PixelSizeChanged(1280, 720));
    assert_eq!(resized, Some((1280, 720)));
    process_event(&mut input, &mut resized, Event::Quit);
    assert!(input.quit());
    assert_eq!(resized, Some((1280, 720)));
}

#[test]
fn colemak_keys_drive_their_flags() {
    let mut input = InputBitfield::new();
    input.set_input_in_layout(KeyboardLayout::Colemak, Key::R, true);
    assert_eq!(input.into_bits(), 0b10);
    input.set_input_in_layout(KeyboardLayout::Colemak, Key::S, true);
    assert!(input.right());
    input.set_input_in_layout(KeyboardLayout::Colemak, Key::F, true);
    assert!(input.action());
    input.set_input_in_layout(KeyboardLayout::Colemak, Key::D, true);
    input.set_input_in_layout(KeyboardLayout::Colemak, Key::E, true);
    assert_eq!(input.into_bits(), 0b1000_1010);
    input.set_input_in_layout(KeyboardLayout::Qwerty, Key::R, true);
    assert_eq!(input.into_bits(), 0b1000_1010);
    input.set_input_in_layout(KeyboardLayout::Qwerty, Key::S, false);
    assert_eq!(input.into_bits(), 0b1000_1000);
}
