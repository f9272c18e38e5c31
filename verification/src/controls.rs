//! What the keyboard asks of the game: starting a round from the menu, and
//! making the bird jump.

use vstd::prelude::*;
use bevy::input::keyboard::{KeyCode, KeyboardInput};
use bevy::input::{ButtonState, Input};
use std::hash::Hash;
use crate::round::GameOver;

verus! {

/// The keys of a keyboard, as `bevy::input::keyboard::KeyCode` lists them.
#[verifier::external_type_specification]
pub struct ExKeyCode(KeyCode);

/// `bevy::input::ButtonState`: pressed or released.
#[verifier::external_type_specification]
pub struct ExButtonState(ButtonState);

/// `bevy::input::keyboard::KeyboardInput`, one keyboard event with its public
/// fields.
#[verifier::external_type_specification]
pub struct ExKeyboardInput(KeyboardInput);

/// `bevy::input::Input`, read through its methods alone.
#[verifier::external_type_specification]
#[verifier::external_body]
#[verifier::reject_recursive_types(T)]
pub struct ExInput<T: Eq + Hash>(Input<T>);

/// The keys that went down since the last frame, as `input` holds them.
pub uninterp spec fn just_pressed_keys(input: Input<KeyCode>) -> Set<KeyCode>;

/// `bevy::input::Input::just_pressed`: whether `key` is among the keys that
/// went down since the last frame.
#[verifier::external_body]
fn just_pressed(input: &Input<KeyCode>, key: KeyCode) -> (down: bool)
    ensures
        down == just_pressed_keys(*input).contains(key),
{
    input.just_pressed(key)
}

/// The key that the player picked in the menu.
pub struct ActionKey(pub KeyCode);

/// What a frame does to the bird.
#[derive(Clone, Copy, Debug, PartialEq, Eq, Structural)]
pub enum Impulse {
    /// A push upwards of `IMPULSE`.
    Jump,
    /// No push at all.
    Rest,
}

/// Upward strength of a jump.
pub const IMPULSE: u32 = 25000;

impl Impulse {
    /// The upward strength of this impulse.
    pub open spec fn strength(self) -> nat {
        match self {
            Impulse::Jump => IMPULSE as nat,
            Impulse::Rest => 0,
        }
    }

    /// The upward strength of this impulse.
    pub fn vertical(self) -> (v: u32)
        ensures
            v == self.strength(),
    {
        match self {
            Impulse::Jump => IMPULSE,
            Impulse::Rest => 0,
        }
    }
}

/// The keys that the events of one frame let go of, in the order of the events:
/// an event counts when its key was released and the key is a known one.
pub open spec fn released_keys(events: Seq<KeyboardInput>) -> Seq<KeyCode>
    decreases events.len(),
{
    if events.len() == 0 {
        Seq::empty()
    } else {
        let ev = events.last();
        let before = released_keys(events.drop_last());
        match (ev.state, ev.key_code) {
            (ButtonState::Released, Some(key)) => before.push(key),
            _ => before,
        }
    }
}

/// Reads the keyboard events of one frame in the menu. Each key in the result
/// asks for the round to start, with that key as the action key.
pub fn start_menu(events: &Vec<KeyboardInput>) -> (keys: Vec<KeyCode>)
    ensures
        keys@ == released_keys(events@),
{
    let mut keys: Vec<KeyCode> = Vec::new();
    let mut i: usize = 0;
    while i < events.len()
        invariant
            i <= events.len(),
            keys@ == released_keys(events@.take(i as int)),
        decreases events.len() - i,
    {
        let ev = &events[i];
        assert(events@.take(i + 1).drop_last() == events@.take(i as int));
        match ev.state {
            ButtonState::Pressed => {},
            ButtonState::Released => {
                if let Some(key) = ev.key_code {
                    keys.push(key);
                }
            },
        }
        i += 1;
    }
    assert(events@.take(events.len() as int) == events@);
    keys
}

/// Whether one of the jump keys is in `keys`: `W`, the up arrow, the space bar,
/// or the action key if there is one.
pub open spec fn wants_jump(keys: Set<KeyCode>, action_key: Option<KeyCode>) -> bool {
    ||| keys.contains(KeyCode::W)
    ||| keys.contains(KeyCode::Up)
    ||| keys.contains(KeyCode::Space)
    ||| (action_key matches Some(key) && keys.contains(key))
}

/// Whether the player asked for a jump in this frame.
pub fn jump_pressed(keyboard_input: &Input<KeyCode>, action_key: Option<KeyCode>) -> (up: bool)
    ensures
        up == wants_jump(just_pressed_keys(*keyboard_input), action_key),
{
    if just_pressed(keyboard_input, KeyCode::W) || just_pressed(keyboard_input, KeyCode::Up)
        || just_pressed(keyboard_input, KeyCode::Space) {
        return true;
    }
    match action_key {
        Some(key) => just_pressed(keyboard_input, key),
        None => false,
    }
}

/// The impulse to give the bird in this frame. Once the round is over the bird
/// is left alone, which `None` says.
pub fn player_movement(
    keyboard_input: &Input<KeyCode>,
    action_key: &ActionKey,
    game_over: &GameOver,
) -> (impulse: Option<Impulse>)
    ensures
        impulse == (if game_over.0 {
            None
        } else if wants_jump(just_pressed_keys(*keyboard_input), Some(action_key.0)) {
            Some(Impulse::Jump)
        } else {
            Some(Impulse::Rest)
        }),
{
    if game_over.0 {
        return None;
    }
    if jump_pressed(keyboard_input, Some(action_key.0)) {
        Some(Impulse::Jump)
    } else {
        Some(Impulse::Rest)
    }
}

} // verus!
