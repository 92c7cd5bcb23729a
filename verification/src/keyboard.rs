//! The keyboard as the rules see it: the set of keys held down in a frame.

use bevy::input::keyboard::KeyCode;
use bevy::input::Input;
use std::hash::Hash;
use vstd::prelude::*;

verus! {

/// bevy's `KeyCode`: the identity of one key. The rules only hand it on and
/// compare it, so nothing of its variants is declared.
#[verifier::external_type_specification]
#[verifier::external_body]
pub struct ExKeyCode(KeyCode);

/// bevy's `Input<T>`: the press state of a set of buttons.
#[verifier::external_type_specification]
#[verifier::external_body]
#[verifier::reject_recursive_types(T)]
pub struct ExInput<T: Copy + Eq + Hash + Send + Sync + 'static>(Input<T>);

/// The keys that `input` reports as held down: the contents of its `pressed`
/// set.
pub uninterp spec fn held_keys(input: Input<KeyCode>) -> Set<KeyCode>;

/// Whether `key` is held down. Calls bevy's `Input::pressed`, which looks the
/// key up in the set of pressed keys and changes nothing.
#[verifier::external_body]
pub(crate) fn key_held(input: &Input<KeyCode>, key: KeyCode) -> (held: bool)
    ensures
        held == held_keys(*input).contains(key),
{
    input.pressed(key)
}

} // verus!
