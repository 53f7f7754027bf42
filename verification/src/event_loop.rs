use vstd::prelude::*;

use crate::game::{scene_name, GameState};

verus! {

/// Whether bit `k` of `bits` is set.
pub open spec fn flag(bits: u8, k: u8) -> bool {
    (bits >> k) & 1u8 == 1u8
}

/// `bits` with bit `k` set to `value`.
pub open spec fn with_flag(bits: u8, k: u8, value: bool) -> u8 {
    if value {
        bits | (1u8 << k)
    } else {
        bits & !(1u8 << k)
    }
}

/// Writing a bit changes that bit to the value written and leaves the others as they were.
pub proof fn lemma_with_flag(bits: u8, k: u8, value: bool)
    requires
        k < 8,
    ensures
        forall|j: u8| j < 8 ==> #[trigger] flag(with_flag(bits, k, value), j) == if j == k {
            value
        } else {
            flag(bits, j)
        },
{
    assert forall|j: u8| j < 8 implies #[trigger] flag(with_flag(bits, k, value), j) == if j == k {
        value
    } else {
        flag(bits, j)
    } by {
        let set = bits | (1u8 << k);
        let cleared = bits & !(1u8 << k);
        assert(((set >> j) & 1u8 == 1u8) == (j == k || (bits >> j) & 1u8 == 1u8)
            && ((cleared >> j) & 1u8 == 1u8) == (j != k && (bits >> j) & 1u8 == 1u8))
            by (bit_vector)
            requires
                j < 8,
                k < 8,
                set == bits | (1u8 << k),
                cleared == bits & !(1u8 << k),
        ;
    }
}

/// The bits are exactly the flags: two bytes with the same eight flags are equal.
pub proof fn lemma_flags_determine_bits(a: u8, b: u8)
    requires
        forall|j: u8| j < 8 ==> #[trigger] flag(a, j) == flag(b, j),
    ensures
        a == b,
{
    assert(flag(a, 0) == flag(b, 0));
    assert(flag(a, 1) == flag(b, 1));
    assert(flag(a, 2) == flag(b, 2));
    assert(flag(a, 3) == flag(b, 3));
    assert(flag(a, 4) == flag(b, 4));
    assert(flag(a, 5) == flag(b, 5));
    assert(flag(a, 6) == flag(b, 6));
    assert(flag(a, 7) == flag(b, 7));
    assert(a == b) by (bit_vector)
        requires
            ((a >> 0u8) & 1u8 == 1u8) == ((b >> 0u8) & 1u8 == 1u8),
            ((a >> 1u8) & 1u8 == 1u8) == ((b >> 1u8) & 1u8 == 1u8),
            ((a >> 2u8) & 1u8 == 1u8) == ((b >> 2u8) & 1u8 == 1u8),
            ((a >> 3u8) & 1u8 == 1u8) == ((b >> 3u8) & 1u8 == 1u8),
            ((a >> 4u8) & 1u8 == 1u8) == ((b >> 4u8) & 1u8 == 1u8),
            ((a >> 5u8) & 1u8 == 1u8) == ((b >> 5u8) & 1u8 == 1u8),
            ((a >> 6u8) & 1u8 == 1u8) == ((b >> 6u8) & 1u8 == 1u8),
            ((a >> 7u8) & 1u8 == 1u8) == ((b >> 7u8) & 1u8 == 1u8),
    ;
}

fn get_flag(bits: u8, k: u8) -> (r: bool)
    requires
        k < 8,
    ensures
        r == flag(bits, k),
{
    (bits >> k) & 1 == 1
}

fn put_flag(bits: u8, k: u8, value: bool) -> (r: u8)
    requires
        k < 8,
    ensures
        r == with_flag(bits, k, value),
{
    if value {
        bits | (1u8 << k)
    } else {
        bits & !(1u8 << k)
    }
}

/// The player's eight input flags packed in one byte, bit 0 first: forward,
/// backward, left, right, up, down, quit, action.
#[derive(Copy, Clone, Debug, PartialEq, Eq)]
pub struct InputBitfield(u8);

impl InputBitfield {
    /// The byte that holds the flags.
    pub closed spec fn bits(self) -> u8 {
        self.0
    }

    /// All flags cleared.
    pub fn new() -> (r: Self)
        ensures
            r.bits() == 0,
    {
        InputBitfield(0)
    }

    /// The flags packed in `bits`.
    pub fn from_bits(bits: u8) -> (r: Self)
        ensures
            r.bits() == bits,
    {
        InputBitfield(bits)
    }

    /// The byte that holds the flags.
    pub fn into_bits(self) -> (r: u8)
        ensures
            r == self.bits(),
    {
        self.0
    }

    /// Whether the forward flag is set.
    pub fn forward(&self) -> (r: bool)
        ensures
            r == flag(self.bits(), 0),
    {
        get_flag(self.0, 0)
    }

    /// Sets the forward flag to `value`.
    pub fn set_forward(&mut self, value: bool)
        ensures
            final(self).bits() == with_flag(old(self).bits(), 0, value),
    {
        self.0 = put_flag(self.0, 0, value);
    }

    /// These flags with the forward flag set to `value`.
    pub fn with_forward(self, value: bool) -> (r: Self)
        ensures
            r.bits() == with_flag(self.bits(), 0, value),
    {
        InputBitfield(put_flag(self.0, 0, value))
    }

    /// Whether the backward flag is set.
    pub fn backward(&self) -> (r: bool)
        ensures
            r == flag(self.bits(), 1),
    {
        get_flag(self.0, 1)
    }

    /// Sets the backward flag to `value`.
    pub fn set_backward(&mut self, value: bool)
        ensures
            final(self).bits() == with_flag(old(self).bits(), 1, value),
    {
        self.0 = put_flag(self.0, 1, value);
    }

    /// These flags with the backward flag set to `value`.
    pub fn with_backward(self, value: bool) -> (r: Self)
        ensures
            r.bits() == with_flag(self.bits(), 1, value),
    {
        InputBitfield(put_flag(self.0, 1, value))
    }

    /// Whether the left flag is set.
    pub fn left(&self) -> (r: bool)
        ensures
            r == flag(self.bits(), 2),
    {
        get_flag(self.0, 2)
    }

    /// Sets the left flag to `value`.
    pub fn set_left(&mut self, value: bool)
        ensures
            final(self).bits() == with_flag(old(self).bits(), 2, value),
    {
        self.0 = put_flag(self.0, 2, value);
    }

    /// These flags with the left flag set to `value`.
    pub fn with_left(self, value: bool) -> (r: Self)
        ensures
            r.bits() == with_flag(self.bits(), 2, value),
    {
        InputBitfield(put_flag(self.0, 2, value))
    }

    /// Whether the right flag is set.
    pub fn right(&self) -> (r: bool)
        ensures
            r == flag(self.bits(), 3),
    {
        get_flag(self.0, 3)
    }

    /// Sets the right flag to `value`.
    pub fn set_right(&mut self, value: bool)
        ensures
            final(self).bits() == with_flag(old(self).bits(), 3, value),
    {
        self.0 = put_flag(self.0, 3, value);
    }

    /// These flags with the right flag set to `value`.
    pub fn with_right(self, value: bool) -> (r: Self)
        ensures
            r.bits() == with_flag(self.bits(), 3, value),
    {
        InputBitfield(put_flag(self.0, 3, value))
    }

    /// Whether the up flag is set.
    pub fn up(&self) -> (r: bool)
        ensures
            r == flag(self.bits(), 4),
    {
        get_flag(self.0, 4)
    }

    /// Sets the up flag to `value`.
    pub fn set_up(&mut self, value: bool)
        ensures
            final(self).bits() == with_flag(old(self).bits(), 4, value),
    {
        self.0 = put_flag(self.0, 4, value);
    }

    /// These flags with the up flag set to `value`.
    pub fn with_up(self, value: bool) -> (r: Self)
        ensures
            r.bits() == with_flag(self.bits(), 4, value),
    {
        InputBitfield(put_flag(self.0, 4, value))
    }

    /// Whether the down flag is set.
    pub fn down(&self) -> (r: bool)
        ensures
            r == flag(self.bits(), 5),
    {
        get_flag(self.0, 5)
    }

    /// Sets the down flag to `value`.
    pub fn set_down(&mut self, value: bool)
        ensures
            final(self).bits() == with_flag(old(self).bits(), 5, value),
    {
        self.0 = put_flag(self.0, 5, value);
    }

    /// These flags with the down flag set to `value`.
    pub fn with_down(self, value: bool) -> (r: Self)
        ensures
            r.bits() == with_flag(self.bits(), 5, value),
    {
        InputBitfield(put_flag(self.0, 5, value))
    }

    /// Whether the quit flag is set.
    pub fn quit(&self) -> (r: bool)
        ensures
            r == flag(self.bits(), 6),
    {
        get_flag(self.0, 6)
    }

    /// Sets the quit flag to `value`.
    pub fn set_quit(&mut self, value: bool)
        ensures
            final(self).bits() == with_flag(old(self).bits(), 6, value),
    {
        self.0 = put_flag(self.0, 6, value);
    }

    /// These flags with the quit flag set to `value`.
    pub fn with_quit(self, value: bool) -> (r: Self)
        ensures
            r.bits() == with_flag(self.bits(), 6, value),
    {
        InputBitfield(put_flag(self.0, 6, value))
    }

    /// Whether the action flag is set.
    pub fn action(&self) -> (r: bool)
        ensures
            r == flag(self.bits(), 7),
    {
        get_flag(self.0, 7)
    }

    /// Sets the action flag to `value`.
    pub fn set_action(&mut self, value: bool)
        ensures
            final(self).bits() == with_flag(old(self).bits(), 7, value),
    {
        self.0 = put_flag(self.0, 7, value);
    }

    /// These flags with the action flag set to `value`.
    pub fn with_action(self, value: bool) -> (r: Self)
        ensures
            r.bits() == with_flag(self.bits(), 7, value),
    {
        InputBitfield(put_flag(self.0, 7, value))
    }
}

impl core::default::Default for InputBitfield {
    /// All flags cleared.
    fn default() -> (r: Self)
        ensures
            r.bits() == 0,
    {
        Self::new()
    }
}

/// The keys that the game reads, by their position on a QWERTY keyboard.
#[derive(Copy, Clone, Debug, PartialEq, Eq)]
pub enum Key {
    W,
    A,
    S,
    D,
    E,
    C,
    R,
    F,
    Space,
    Escape,
    /// Any other key, which the game ignores.
    Other,
}

/// Which keys drive the game: the QWERTY positions (W, A, S, D, E), or the
/// same places on a Colemak keyboard (W, A, R, S, F).
#[derive(Copy, Clone, Debug, PartialEq, Eq)]
pub enum KeyboardLayout {
    Qwerty,
    Colemak,
}

/// The input flag that `key` drives under `layout`, if any.
pub open spec fn key_flag_in(layout: KeyboardLayout, key: Key) -> Option<u8> {
    match layout {
        KeyboardLayout::Qwerty => key_flag(key),
        KeyboardLayout::Colemak => match key {
            Key::W => Some(0u8),
            Key::R => Some(1u8),
            Key::A => Some(2u8),
            Key::S => Some(3u8),
            Key::Space => Some(4u8),
            Key::C => Some(5u8),
            Key::Escape => Some(6u8),
            Key::F => Some(7u8),
            _ => None,
        },
    }
}

/// The input flag that `key` drives, if any.
pub open spec fn key_flag(key: Key) -> Option<u8> {
    match key {
        Key::W => Some(0u8),
        Key::S => Some(1u8),
        Key::A => Some(2u8),
        Key::D => Some(3u8),
        Key::Space => Some(4u8),
        Key::C => Some(5u8),
        Key::Escape => Some(6u8),
        Key::E => Some(7u8),
        _ => None,
    }
}

impl InputBitfield {
    /// Records that `key` was pressed or released: W, S, A and D drive
    /// forward, backward, left and right, Space up, C down, Escape quit and
    /// E action. Other keys change nothing.
    pub fn set_input(&mut self, key: Key, pressed: bool)
        ensures
            final(self).bits() == match key_flag(key) {
                Some(k) => with_flag(old(self).bits(), k, pressed),
                None => old(self).bits(),
            },
            final(self).bits() == after_key(KeyboardLayout::Qwerty, old(self).bits(), key, pressed),
    {
        match key {
            Key::W => self.set_forward(pressed),
            Key::S => self.set_backward(pressed),
            Key::A => self.set_left(pressed),
            Key::D => self.set_right(pressed),
            Key::Space => self.set_up(pressed),
            Key::C => self.set_down(pressed),
            Key::Escape => self.set_quit(pressed),
            Key::E => self.set_action(pressed),
            _ => (),
        }
    }

    /// Records that `key` was pressed or released under `layout`: with
    /// Colemak, W, R, A and S drive forward, backward, left and right, Space
    /// up, C down, Escape quit and F action; with QWERTY as `set_input`
    /// does. Other keys change nothing.
    pub fn set_input_in_layout(&mut self, layout: KeyboardLayout, key: Key, pressed: bool)
        ensures
            final(self).bits() == match key_flag_in(layout, key) {
                Some(k) => with_flag(old(self).bits(), k, pressed),
                None => old(self).bits(),
            },
            final(self).bits() == after_key(layout, old(self).bits(), key, pressed),
    {
        match layout {
            KeyboardLayout::Qwerty => self.set_input(key, pressed),
            KeyboardLayout::Colemak => match key {
                Key::W => self.set_forward(pressed),
                Key::R => self.set_backward(pressed),
                Key::A => self.set_left(pressed),
                Key::S => self.set_right(pressed),
                Key::Space => self.set_up(pressed),
                Key::C => self.set_down(pressed),
                Key::Escape => self.set_quit(pressed),
                Key::F => self.set_action(pressed),
                _ => (),
            },
        }
    }
}

/// The input flags after `key` is pressed or released under `layout`.
pub open spec fn after_key(layout: KeyboardLayout, bits: u8, key: Key, pressed: bool) -> u8 {
    match key_flag_in(layout, key) {
        Some(k) => with_flag(bits, k, pressed),
        None => bits,
    }
}

/// Flag `k` of `after` is `pressed` and every other flag is as in `before`.
pub open spec fn drives_only(before: u8, after: u8, k: u8, pressed: bool) -> bool {
    forall|j: u8| j < 8 ==> #[trigger] flag(after, j) == if j == k {
        pressed
    } else {
        flag(before, j)
    }
}

/// Each key drives exactly its own flag, numbered as the accessors read them
/// (forward 0, backward 1, left 2, right 3, up 4, down 5, quit 6, action 7):
/// with QWERTY, W, S, A, D, Space, C, Escape and E; with Colemak, W, R, A, S,
/// Space, C, Escape and F. Any other key changes no flag.
pub proof fn lemma_keys_drive_their_flags(bits: u8, pressed: bool)
    ensures
        drives_only(bits, after_key(KeyboardLayout::Qwerty, bits, Key::W, pressed), 0, pressed),
        drives_only(bits, after_key(KeyboardLayout::Qwerty, bits, Key::S, pressed), 1, pressed),
        drives_only(bits, after_key(KeyboardLayout::Qwerty, bits, Key::A, pressed), 2, pressed),
        drives_only(bits, after_key(KeyboardLayout::Qwerty, bits, Key::D, pressed), 3, pressed),
        drives_only(bits, after_key(KeyboardLayout::Qwerty, bits, Key::Space, pressed), 4, pressed),
        drives_only(bits, after_key(KeyboardLayout::Qwerty, bits, Key::C, pressed), 5, pressed),
        drives_only(bits, after_key(KeyboardLayout::Qwerty, bits, Key::Escape, pressed), 6, pressed),
        drives_only(bits, after_key(KeyboardLayout::Qwerty, bits, Key::E, pressed), 7, pressed),
        after_key(KeyboardLayout::Qwerty, bits, Key::R, pressed) == bits,
        after_key(KeyboardLayout::Qwerty, bits, Key::F, pressed) == bits,
        after_key(KeyboardLayout::Qwerty, bits, Key::Other, pressed) == bits,
        drives_only(bits, after_key(KeyboardLayout::Colemak, bits, Key::W, pressed), 0, pressed),
        drives_only(bits, after_key(KeyboardLayout::Colemak, bits, Key::R, pressed), 1, pressed),
        drives_only(bits, after_key(KeyboardLayout::Colemak, bits, Key::A, pressed), 2, pressed),
        drives_only(bits, after_key(KeyboardLayout::Colemak, bits, Key::S, pressed), 3, pressed),
        drives_only(bits, after_key(KeyboardLayout::Colemak, bits, Key::Space, pressed), 4, pressed),
        drives_only(bits, after_key(KeyboardLayout::Colemak, bits, Key::C, pressed), 5, pressed),
        drives_only(bits, after_key(KeyboardLayout::Colemak, bits, Key::Escape, pressed), 6, pressed),
        drives_only(bits, after_key(KeyboardLayout::Colemak, bits, Key::F, pressed), 7, pressed),
        after_key(KeyboardLayout::Colemak, bits, Key::D, pressed) == bits,
        after_key(KeyboardLayout::Colemak, bits, Key::E, pressed) == bits,
        after_key(KeyboardLayout::Colemak, bits, Key::Other, pressed) == bits,
{
    lemma_with_flag(bits, 0, pressed);
    lemma_with_flag(bits, 1, pressed);
    lemma_with_flag(bits, 2, pressed);
    lemma_with_flag(bits, 3, pressed);
    lemma_with_flag(bits, 4, pressed);
    lemma_with_flag(bits, 5, pressed);
    lemma_with_flag(bits, 6, pressed);
    lemma_with_flag(bits, 7, pressed);
}

/// The window events the event loop acts on for the game's input.
#[derive(Copy, Clone, Debug, PartialEq, Eq)]
pub enum Event {
    /// A key went down; `repeat` when it is the keyboard's auto-repeat.
    KeyDown { key: Key, repeat: bool },
    /// A key went up.
    KeyUp { key: Key, repeat: bool },
    /// The window was asked to close.
    Quit,
    /// The window's framebuffer changed size, in pixels.
    PixelSizeChanged(i32, i32),
    /// Anything else.
    Other,
}

/// The input flags after `event`.
pub open spec fn flags_after_event(bits: u8, event: Event) -> u8 {
    match event {
        Event::KeyDown { key, repeat } => if repeat {
            bits
        } else {
            match key_flag(key) {
                Some(k) => with_flag(bits, k, true),
                None => bits,
            }
        },
        Event::KeyUp { key, repeat } => if repeat {
            bits
        } else {
            match key_flag(key) {
                Some(k) => with_flag(bits, k, false),
                None => bits,
            }
        },
        Event::Quit => with_flag(bits, 6, true),
        _ => bits,
    }
}

/// Applies a window event to the input flags and the pending framebuffer
/// size: fresh key presses and releases drive their flags (auto-repeats are
/// ignored), closing the window sets the quit flag, and a new framebuffer
/// size is kept for the renderer.
pub fn process_event(
    input: &mut InputBitfield,
    framebuffer_resized: &mut Option<(u32, u32)>,
    event: Event,
)
    requires
        event matches Event::PixelSizeChanged(x, y) ==> x >= 0 && y >= 0,
    ensures
        final(input).bits() == flags_after_event(old(input).bits(), event),
        *final(framebuffer_resized) == match event {
            Event::PixelSizeChanged(x, y) => Some((x as u32, y as u32)),
            _ => *old(framebuffer_resized),
        },
{
    match event {
        Event::KeyDown { key, repeat: false } => input.set_input(key, true),
        Event::KeyUp { key, repeat: false } => input.set_input(key, false),
        Event::Quit => input.set_quit(true),
        Event::PixelSizeChanged(x, y) => {
            *framebuffer_resized = Some((x as u32, y as u32));
        },
        _ => (),
    }
}

/// The game state shared between the event loop and the game, with what is
/// needed to react once to each change of state.
#[derive(Copy, Clone, Debug, PartialEq, Eq)]
pub struct GameStateTracker {
    pub game_state: GameState,
    pub previous_game_state: GameState,
    pub game_state_just_changed: bool,
}

/// The tracker after moving to `new_state`.
pub open spec fn after_set(t: GameStateTracker, new_state: GameState) -> GameStateTracker {
    GameStateTracker {
        game_state: new_state,
        previous_game_state: t.game_state,
        game_state_just_changed: true,
    }
}

/// The change `update` reports: the current state, if it changed since the last update.
pub open spec fn pending_change(t: GameStateTracker) -> Option<GameState> {
    if t.game_state_just_changed {
        Some(t.game_state)
    } else {
        None
    }
}

/// The tracker after `update` took the pending change.
pub open spec fn after_update(t: GameStateTracker) -> GameStateTracker {
    GameStateTracker { game_state_just_changed: false, ..t }
}

/// Each change of state is reported by exactly one `update`: the first
/// after the change reports the new state, the next reports nothing, and the
/// state left is remembered as the previous one.
pub proof fn lemma_change_reported_once(t: GameStateTracker, new_state: GameState)
    ensures
        pending_change(after_set(t, new_state)) == Some(new_state),
        pending_change(after_update(after_set(t, new_state))) == None::<GameState>,
        after_update(after_set(t, new_state)).game_state == new_state,
        after_update(after_set(t, new_state)).previous_game_state == t.game_state,
{
}

impl GameStateTracker {
    /// Starts in the menu, with no change pending.
    pub fn new() -> (r: Self)
        ensures
            r == (GameStateTracker {
                game_state: GameState::Menu,
                previous_game_state: GameState::Menu,
                game_state_just_changed: false,
            }),
    {
        GameStateTracker {
            game_state: GameState::Menu,
            previous_game_state: GameState::Menu,
            game_state_just_changed: false,
        }
    }

    pub fn game_state(&self) -> (r: GameState)
        ensures
            r == self.game_state,
    {
        self.game_state
    }

    /// Moves to `new_state`, remembering the state left, and marks the change
    /// as pending. Returns the scene name to send to the audio patch.
    pub fn set_game_state(&mut self, new_state: GameState) -> (scene: &'static str)
        ensures
            *final(self) == after_set(*old(self), new_state),
            scene == scene_name(new_state),
    {
        self.previous_game_state = self.game_state;
        self.game_state = new_state;
        self.game_state_just_changed = true;
        <&'static str>::from(new_state)
    }

    /// Takes the pending change, if any: the state whose mouse handling the
    /// event loop now applies (released in the menu, captured while playing).
    pub fn update(&mut self) -> (r: Option<GameState>)
        ensures
            r == pending_change(*old(self)),
            *final(self) == after_update(*old(self)),
    {
        if self.game_state_just_changed {
            self.game_state_just_changed = false;
            Some(self.game_state)
        } else {
            None
        }
    }
}

} // verus!
