//! Steering: what the held movement keys ask of a ship in one fixed step.

use crate::keyboard::{held_keys, key_held};
use bevy::input::keyboard::KeyCode;
use bevy::input::Input;
use vstd::prelude::*;

verus! {

/// What the held keys ask of a ship in one step, as two signs.
///
/// `thrust` is `1` for forward, `-1` for backward; `turn` is `1` for a turn to
/// the left (counter-clockwise), `-1` for one to the right. Opposed keys held
/// together cancel to `0`.
#[derive(Clone, Copy, Debug, PartialEq, Eq, Structural)]
pub struct Steering {
    pub thrust: i8,
    pub turn: i8,
}

/// The sign that two opposed keys give: `1` when only `toward` is held, `-1`
/// when only `away` is, `0` when both or neither are.
pub open spec fn axis(toward: bool, away: bool) -> int {
    (if toward { 1int } else { 0int }) - (if away { 1int } else { 0int })
}

/// Combines the four key states of one ship into its steering for this step.
pub fn steer(up: bool, down: bool, left: bool, right: bool) -> (s: Steering)
    ensures
        s.thrust == axis(up, down),
        s.turn == axis(left, right),
{
    let mut thrust: i8 = 0;
    let mut turn: i8 = 0;
    if up {
        thrust = thrust + 1;
    }
    if down {
        thrust = thrust - 1;
    }
    if right {
        turn = turn - 1;
    }
    if left {
        turn = turn + 1;
    }
    Steering { thrust, turn }
}

/// The four keys that steer one ship.
#[derive(Clone, Copy, Debug)]
pub struct MoveControls {
    pub up: KeyCode,
    pub down: KeyCode,
    pub left: KeyCode,
    pub right: KeyCode,
}

/// Reads the keys of `controls` from the keyboard and combines them into the
/// ship's steering for this step.
pub fn apply_input(input: &Input<KeyCode>, controls: &MoveControls) -> (s: Steering)
    ensures
        s.thrust == axis(
            held_keys(*input).contains(controls.up),
            held_keys(*input).contains(controls.down),
        ),
        s.turn == axis(
            held_keys(*input).contains(controls.left),
            held_keys(*input).contains(controls.right),
        ),
{
    let up = key_held(input, controls.up);
    let down = key_held(input, controls.down);
    let left = key_held(input, controls.left);
    let right = key_held(input, controls.right);
    steer(up, down, left, right)
}

/// The passes that move a ship in one fixed step.
#[derive(Clone, Copy, Debug, PartialEq, Eq, Hash, Structural)]
pub enum MovementSystem {
    /// Turns the held keys into thrust and a change of turn speed.
    ApplyInput,
    /// Lets the turn speed decay.
    DragTurning,
    /// Lets the velocity decay.
    DragVelocity,
    /// Turns the ship by its turn speed.
    UpdateRotation,
    /// Adds the thrust to the velocity, along the ship's heading.
    CalculateVelocity,
    /// Turns the velocity back at the edges of the arena.
    KeepInBounds,
    /// Moves the ship by its velocity.
    UpdateTranslation,
}

impl MovementSystem {
    /// The place of a pass in the step. The two drags share a place: neither
    /// has to wait for the other.
    pub open spec fn rank(self) -> nat {
        match self {
            MovementSystem::ApplyInput => 0,
            MovementSystem::DragTurning => 1,
            MovementSystem::DragVelocity => 1,
            MovementSystem::UpdateRotation => 2,
            MovementSystem::CalculateVelocity => 3,
            MovementSystem::KeepInBounds => 4,
            MovementSystem::UpdateTranslation => 5,
        }
    }

    /// Whether `self` has to be done before `later` can start.
    pub open spec fn precedes(self, later: MovementSystem) -> bool {
        self.rank() < later.rank()
    }

    /// The passes that this one waits for directly.
    pub open spec fn waits_for(self) -> Seq<MovementSystem> {
        match self {
            MovementSystem::ApplyInput => seq![],
            MovementSystem::DragTurning => seq![MovementSystem::ApplyInput],
            MovementSystem::DragVelocity => seq![MovementSystem::ApplyInput],
            MovementSystem::UpdateRotation => seq![
                MovementSystem::DragTurning,
                MovementSystem::DragVelocity,
            ],
            MovementSystem::CalculateVelocity => seq![MovementSystem::UpdateRotation],
            MovementSystem::KeepInBounds => seq![MovementSystem::CalculateVelocity],
            MovementSystem::UpdateTranslation => seq![MovementSystem::KeepInBounds],
        }
    }

    /// The passes that have to be done right before this one: a scheduler
    /// that starts each pass after these runs the whole step in order.
    pub fn after(self) -> (earlier: Vec<MovementSystem>)
        ensures
            earlier@ == self.waits_for(),
    {
        let earlier = match self {
            MovementSystem::ApplyInput => Vec::new(),
            MovementSystem::DragTurning => vec![MovementSystem::ApplyInput],
            MovementSystem::DragVelocity => vec![MovementSystem::ApplyInput],
            MovementSystem::UpdateRotation => vec![
                MovementSystem::DragTurning,
                MovementSystem::DragVelocity,
            ],
            MovementSystem::CalculateVelocity => vec![MovementSystem::UpdateRotation],
            MovementSystem::KeepInBounds => vec![MovementSystem::CalculateVelocity],
            MovementSystem::UpdateTranslation => vec![MovementSystem::KeepInBounds],
        };
        assert(earlier@ =~= self.waits_for());
        earlier
    }
}

/// A pass waits directly for exactly the passes one place before it.
pub proof fn lemma_waits_for_the_place_before(later: MovementSystem, earlier: MovementSystem)
    ensures
        later.waits_for().contains(earlier) <==> earlier.rank() + 1 == later.rank(),
{
    let w = later.waits_for();
    if earlier.rank() + 1 == later.rank() {
        if later == MovementSystem::UpdateRotation && earlier == MovementSystem::DragVelocity {
            assert(w[1] == earlier);
        } else {
            assert(w[0] == earlier);
        }
    }
}

/// Waiting for the passes right before is enough to keep the whole order:
/// whenever `earlier` precedes `later`, some pass that `later` waits for is
/// `earlier` itself or comes after it.
pub proof fn lemma_waiting_keeps_the_order(earlier: MovementSystem, later: MovementSystem)
    requires
        earlier.precedes(later),
    ensures
        exists|between: MovementSystem| #[trigger]
            later.waits_for().contains(between) && (between == earlier || earlier.precedes(
                between,
            )),
{
    let between = if earlier.rank() + 1 == later.rank() {
        earlier
    } else {
        later.waits_for()[0]
    };
    assert(between.rank() + 1 == later.rank());
    lemma_waits_for_the_place_before(later, between);
    assert(later.waits_for().contains(between) && (between == earlier || earlier.precedes(
        between,
    )));
}

} // verus!
