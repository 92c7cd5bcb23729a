//! Weapons: each has a trigger key and a cooldown of its own, and a ship
//! carries an ordered list of them.

use crate::cooldown::{Cooldown, CooldownView};
use crate::keyboard::{held_keys, key_held};
use bevy::input::keyboard::KeyCode;
use bevy::input::Input;
use bevy::math::Vec3;
use vstd::prelude::*;

verus! {

/// bevy's `Vec3`, a vector in space. A weapon carries one as the place its
/// shots start from; the rules never look inside.
#[verifier::external_type_specification]
#[verifier::external_body]
pub struct ExVec3(Vec3);

/// One weapon of a ship.
#[derive(Clone, Copy, Debug)]
pub struct Weapon {
    /// The key that fires it.
    pub trigger: KeyCode,
    /// Where its shots start, relative to the ship and its heading.
    pub offset: Vec3,
    /// The time that must pass between two shots.
    pub cooldown: Cooldown,
}

/// The weapons of one ship, in firing order.
#[derive(Clone, Debug)]
pub struct Weapons(pub Vec<Weapon>);

/// A weapon with its cooldown seen as a state.
pub struct WeaponView {
    pub trigger: KeyCode,
    pub offset: Vec3,
    pub cooldown: CooldownView,
}

impl WeaponView {
    /// Whether the weapon is fired by the keys in `held`.
    pub open spec fn fires(self, held: Set<KeyCode>) -> bool {
        self.cooldown.fires(held.contains(self.trigger))
    }

    /// The weapon after its trigger was tried with `held` saying whether its
    /// key is down.
    pub open spec fn pull(self, held: bool) -> WeaponView {
        WeaponView { cooldown: self.cooldown.pull(held), ..self }
    }

    /// The weapon after `delta` more nanoseconds.
    pub open spec fn tick(self, delta: nat) -> WeaponView {
        WeaponView { cooldown: self.cooldown.tick(delta), ..self }
    }
}

impl View for Weapon {
    type V = WeaponView;

    open spec fn view(&self) -> WeaponView {
        WeaponView { trigger: self.trigger, offset: self.offset, cooldown: self.cooldown@ }
    }
}

impl View for Weapons {
    type V = Seq<WeaponView>;

    open spec fn view(&self) -> Seq<WeaponView> {
        self.0@.map_values(|w: Weapon| w@)
    }
}

impl Weapon {
    /// Tries the trigger: the weapon fires when its key is `held` and its
    /// cooldown has finished, and firing starts the cooldown over.
    pub fn pull_trigger(&mut self, held: bool) -> (fired: bool)
        ensures
            fired == old(self)@.cooldown.fires(held),
            final(self)@ == old(self)@.pull(held),
    {
        if held && self.cooldown.finished() {
            self.cooldown.reset();
            true
        } else {
            false
        }
    }
}

/// Lets `delta` nanoseconds pass on every weapon whose cooldown is still
/// running.
pub fn tick_timers(weapons: &mut Weapons, delta: u64)
    ensures
        final(weapons)@.len() == old(weapons)@.len(),
        forall|i: int|
            0 <= i < old(weapons)@.len() ==> #[trigger] final(weapons)@[i] == old(weapons)@[i].tick(
                delta as nat,
            ),
{
    let n = weapons.0.len();
    let mut i: usize = 0;
    while i < n
        invariant
            0 <= i <= n,
            n == weapons.0@.len(),
            n == old(weapons).0@.len(),
            forall|k: int| 0 <= k < i ==> (#[trigger] weapons.0@[k])@ == old(weapons).0@[k]@.tick(delta as nat),
            forall|k: int| i <= k < n ==> #[trigger] weapons.0@[k] == old(weapons).0@[k],
        decreases n - i,
    {
        if !weapons.0[i].cooldown.finished() {
            weapons.0[i].cooldown.tick(delta);
        }
        i = i + 1;
    }
}

/// Tries the trigger of every weapon against the keyboard, in order, and
/// returns the positions in the list of the weapons that fired, ascending.
///
/// A weapon fires when its key is held and its cooldown has finished; firing
/// starts its cooldown over. Each weapon is judged by its own cooldown alone.
pub fn fire_weapons(weapons: &mut Weapons, input: &Input<KeyCode>) -> (fired: Vec<usize>)
    ensures
        final(weapons)@.len() == old(weapons)@.len(),
        forall|i: int|
            0 <= i < old(weapons)@.len() ==> #[trigger] final(weapons)@[i] == old(weapons)@[i].pull(
                held_keys(*input).contains(old(weapons)@[i].trigger),
            ),
        forall|j: int, k: int| 0 <= j < k < fired@.len() ==> fired@[j] < fired@[k],
        forall|j: int| 0 <= j < fired@.len() ==> (#[trigger] fired@[j]) < old(weapons)@.len(),
        forall|i: int|
            0 <= i < old(weapons)@.len() ==> (fired@.contains(i as usize) <==> (
            #[trigger] old(weapons)@[i]).fires(held_keys(*input))),
{
    let n = weapons.0.len();
    let mut fired: Vec<usize> = Vec::new();
    let mut i: usize = 0;
    while i < n
        invariant
            0 <= i <= n,
            n == weapons.0@.len(),
            n == old(weapons).0@.len(),
            forall|k: int|
                0 <= k < i ==> (#[trigger] weapons.0@[k])@ == old(weapons).0@[k]@.pull(
                    held_keys(*input).contains(old(weapons).0@[k].trigger),
                ),
            forall|k: int| i <= k < n ==> #[trigger] weapons.0@[k] == old(weapons).0@[k],
            forall|j: int, k: int| 0 <= j < k < fired@.len() ==> fired@[j] < fired@[k],
            forall|j: int| 0 <= j < fired@.len() ==> (#[trigger] fired@[j]) < i,
            forall|k: int|
                0 <= k < i ==> (fired@.contains(k as usize) <==> (#[trigger] old(weapons).0@[k])@.fires(
                    held_keys(*input),
                )),
        decreases n - i,
    {
        let held = key_held(input, weapons.0[i].trigger);
        let ghost before = fired@;
        if weapons.0[i].pull_trigger(held) {
            fired.push(i);
            proof {
                assert(fired@[before.len() as int] == i);
                assert forall|k: int| 0 <= k < i + 1 implies (fired@.contains(k as usize) <==> (
                #[trigger] old(weapons).0@[k])@.fires(held_keys(*input))) by {
                    if k < i {
                        if before.contains(k as usize) {
                            let j = choose|j: int| 0 <= j < before.len() && before[j] == k as usize;
                            assert(fired@[j] == k as usize);
                        }
                        if fired@.contains(k as usize) {
                            let j = choose|j: int| 0 <= j < fired@.len() && fired@[j] == k as usize;
                            assert(j < before.len());
                            assert(before[j] == k as usize);
                        }
                    }
                }
            }
        } else {
            proof {
                assert forall|k: int| 0 <= k < i + 1 implies (fired@.contains(k as usize) <==> (
                #[trigger] old(weapons).0@[k])@.fires(held_keys(*input))) by {
                    if k == i && fired@.contains(k as usize) {
                        let j = choose|j: int| 0 <= j < fired@.len() && fired@[j] == k as usize;
                        assert(fired@[j] < i);
                    }
                }
            }
        }
        i = i + 1;
    }
    fired
}

} // verus!
