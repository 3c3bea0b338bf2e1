//! What the player asks for in one frame, and how the keyboard says it.
use bevy::input::keyboard::KeyCode;
use bevy::input::Input;
use std::hash::Hash;
use vstd::prelude::*;

verus! {

/// The state of a set of buttons in bevy_input: those that are down, those
/// that went down in this frame and those that went up in it. Nothing of
/// its inside is known here.
#[verifier::external_type_specification]
#[verifier::external_body]
#[verifier::reject_recursive_types(T)]
pub struct ExInput<T: Copy + Eq + Hash + Send + Sync + 'static>(bevy::input::Input<T>);

/// The code of a key in bevy_input. Nothing of its inside is known here.
#[verifier::external_type_specification]
#[verifier::external_body]
pub struct ExKeyCode(bevy::input::keyboard::KeyCode);

/// The keys that the game listens to.
#[derive(Clone, Copy, Debug, PartialEq, Eq, Structural)]
pub enum Key {
    A,
    D,
    W,
    Left,
    Right,
    Up,
    Space,
}

/// Those keys of the game that the keyboard holds as down.
pub uninterp spec fn keys_pressed(keyboard: Input<KeyCode>) -> Set<Key>;

/// Those keys of the game that the keyboard holds as gone down in this frame.
pub uninterp spec fn keys_just_pressed(keyboard: Input<KeyCode>) -> Set<Key>;

/// Those keys of the game that the keyboard holds as gone up in this frame.
pub uninterp spec fn keys_just_released(keyboard: Input<KeyCode>) -> Set<Key>;

/// Asks `Input::pressed` of bevy_input about the key code of the same name
/// as `key`. It looks the code up in the set of buttons that are down; the
/// contract gives that set, as far as it holds keys of the game, the name
/// [`keys_pressed`], and says that the answer is whether `key` is in it.
#[verifier::external_body]
fn pressed(keyboard: &Input<KeyCode>, key: Key) -> (down: bool)
    ensures
        down == keys_pressed(*keyboard).contains(key),
{
    keyboard.pressed(
        match key {
            Key::A => KeyCode::A,
            Key::D => KeyCode::D,
            Key::W => KeyCode::W,
            Key::Left => KeyCode::Left,
            Key::Right => KeyCode::Right,
            Key::Up => KeyCode::Up,
            Key::Space => KeyCode::Space,
        },
    )
}

/// Asks `Input::just_pressed` of bevy_input about the key code of the same
/// name as `key`. It looks the code up in the set of buttons that went down
/// in this frame; the contract gives that set, as far as it holds keys of
/// the game, the name [`keys_just_pressed`], and says that the answer is
/// whether `key` is in it.
#[verifier::external_body]
fn just_pressed(keyboard: &Input<KeyCode>, key: Key) -> (went_down: bool)
    ensures
        went_down == keys_just_pressed(*keyboard).contains(key),
{
    keyboard.just_pressed(
        match key {
            Key::A => KeyCode::A,
            Key::D => KeyCode::D,
            Key::W => KeyCode::W,
            Key::Left => KeyCode::Left,
            Key::Right => KeyCode::Right,
            Key::Up => KeyCode::Up,
            Key::Space => KeyCode::Space,
        },
    )
}

/// Asks `Input::just_released` of bevy_input about the key code of the same
/// name as `key`. It looks the code up in the set of buttons that went up in
/// this frame; the contract gives that set, as far as it holds keys of the
/// game, the name [`keys_just_released`], and says that the answer is
/// whether `key` is in it.
#[verifier::external_body]
fn just_released(keyboard: &Input<KeyCode>, key: Key) -> (went_up: bool)
    ensures
        went_up == keys_just_released(*keyboard).contains(key),
{
    keyboard.just_released(
        match key {
            Key::A => KeyCode::A,
            Key::D => KeyCode::D,
            Key::W => KeyCode::W,
            Key::Left => KeyCode::Left,
            Key::Right => KeyCode::Right,
            Key::Up => KeyCode::Up,
            Key::Space => KeyCode::Space,
        },
    )
}

/// The player's intent for one frame, read once before the frame runs.
#[derive(Clone, Copy, Debug, PartialEq, Eq, Structural)]
pub struct Intents {
    /// A key that moves left is down.
    pub left_held: bool,
    /// A key that moves right is down.
    pub right_held: bool,
    /// A key that jumps went down in this frame.
    pub jump_pressed: bool,
    /// A key that moves left went up in this frame.
    pub left_released: bool,
    /// A key that moves right went up in this frame.
    pub right_released: bool,
}

/// The intent that three sets of keys stand for: `A` and `Left` move left,
/// `D` and `Right` move right, and `W`, `Up` and `Space` jump.
pub open spec fn intents_of_keys(down: Set<Key>, went_down: Set<Key>, went_up: Set<Key>) -> Intents {
    Intents {
        left_held: down.contains(Key::A) || down.contains(Key::Left),
        right_held: down.contains(Key::D) || down.contains(Key::Right),
        jump_pressed: went_down.contains(Key::W) || went_down.contains(Key::Up)
            || went_down.contains(Key::Space),
        left_released: went_up.contains(Key::A) || went_up.contains(Key::Left),
        right_released: went_up.contains(Key::D) || went_up.contains(Key::Right),
    }
}

/// The intent that the keyboard stands for.
pub open spec fn intents_of(keyboard: Input<KeyCode>) -> Intents {
    intents_of_keys(
        keys_pressed(keyboard),
        keys_just_pressed(keyboard),
        keys_just_released(keyboard),
    )
}

impl Intents {
    /// Reads the player's intent off the keyboard.
    pub fn read(keyboard: &Input<KeyCode>) -> (keys: Intents)
        ensures
            keys == intents_of(*keyboard),
    {
        Intents {
            left_held: pressed(keyboard, Key::A) || pressed(keyboard, Key::Left),
            right_held: pressed(keyboard, Key::D) || pressed(keyboard, Key::Right),
            jump_pressed: just_pressed(keyboard, Key::W) || just_pressed(keyboard, Key::Up)
                || just_pressed(keyboard, Key::Space),
            left_released: just_released(keyboard, Key::A) || just_released(keyboard, Key::Left),
            right_released: just_released(keyboard, Key::D) || just_released(
                keyboard,
                Key::Right,
            ),
        }
    }
}

} // verus!
