//! Hostiles: they descend at their own cadence and fire at another.

use crate::cadence::{cadence_elapsed, is_due};
use crate::constant::{
    CHAR_SHOT_ENEMY, ENEMY_MOVE_INTERVAL, ENEMY_SHOT_CHANCE, ENEMY_SHOT_CHANCE_OUT_OF,
};
use crate::position::Position;
use crate::random::random_chance;
use crate::shot::Shot;
use vstd::prelude::*;

verus! {

/// The step of a hostile's projectile: straight down.
pub open spec fn straight_down() -> Position {
    Position { x: 0, y: 1 }
}

/// A hostile. The projectiles it fires belong to the game, not to it.
#[derive(Clone, Copy, Debug, PartialEq, Eq, Structural)]
pub struct Enemy {
    pub pos: Position,
    pub movement: Position,
    pub last_movement: usize,
    pub move_interval: usize,
    pub last_shot_frame: usize,
    pub shot_interval: usize,
}

impl Enemy {
    /// Does the firing cadence allow a shot at `frame`?
    pub open spec fn can_shoot(self, frame: usize) -> bool {
        cadence_elapsed(self.last_shot_frame, self.shot_interval, frame)
    }

    /// Does the movement cadence allow a step at `frame`?
    pub open spec fn can_move(self, frame: usize) -> bool {
        cadence_elapsed(self.last_movement, self.move_interval, frame)
    }

    /// Does the hostile fire at `frame`, where `chance` tells whether chance
    /// is on its side?
    pub open spec fn fires(self, frame: usize, chance: bool) -> bool {
        self.can_shoot(frame) && chance
    }

    /// The projectile that the hostile fires from where it stands.
    pub open spec fn shot(self) -> Shot {
        Shot { pos: self.pos, movement: straight_down(), character: CHAR_SHOT_ENEMY }
    }

    /// The hostile after its turn to fire at `frame`: a turn that the cadence
    /// allows is used up whether or not a projectile leaves.
    pub open spec fn after_shoot(self, frame: usize) -> Enemy {
        if self.can_shoot(frame) {
            Enemy { last_shot_frame: frame, ..self }
        } else {
            self
        }
    }

    /// The hostile after its turn to move at `frame`.
    pub open spec fn after_move(self, frame: usize) -> Enemy {
        if self.can_move(frame) {
            Enemy { pos: self.pos.plus(self.movement), last_movement: frame, ..self }
        } else {
            self
        }
    }

    /// The hostile after frame `frame`: it fires first and moves second.
    pub open spec fn after_update(self, frame: usize) -> Enemy {
        self.after_shoot(frame).after_move(frame)
    }

    /// The projectiles in flight after the hostile's turn at `frame`.
    pub open spec fn shots_after(self, frame: usize, chance: bool, shots: Seq<Shot>) -> Seq<Shot> {
        if self.fires(frame, chance) {
            shots.push(self.shot())
        } else {
            shots
        }
    }

    pub fn new(initial_position: Position, movement: Position, shot_interval: usize) -> (r: Enemy)
        ensures
            r == (Enemy {
                pos: initial_position,
                movement,
                last_movement: 0,
                move_interval: ENEMY_MOVE_INTERVAL,
                last_shot_frame: 0,
                shot_interval,
            }),
    {
        Enemy {
            pos: initial_position,
            movement,
            move_interval: ENEMY_MOVE_INTERVAL,
            last_movement: 0,
            shot_interval,
            last_shot_frame: 0,
        }
    }

    /// The hostile's turn to fire, with the outcome of chance given: where the
    /// cadence allows a shot and `chance` holds, a projectile joins `shots`.
    pub fn shoot_with(&mut self, shot_frame: usize, chance: bool, shots: &mut Vec<Shot>)
        ensures
            *final(self) == old(self).after_shoot(shot_frame),
            final(shots)@ == old(self).shots_after(shot_frame, chance, old(shots)@),
    {
        if is_due(self.last_shot_frame, self.shot_interval, shot_frame) {
            if chance {
                shots.push(Shot::new(self.pos, Position::new(0, 1), CHAR_SHOT_ENEMY));
            }
            self.last_shot_frame = shot_frame;
        }
    }

    /// The hostile's turn to fire. Where the cadence allows a shot, chance
    /// decides whether a projectile joins `shots`: either outcome is possible,
    /// and nothing else is.
    pub fn shoot(&mut self, shot_frame: usize, shots: &mut Vec<Shot>)
        ensures
            *final(self) == old(self).after_shoot(shot_frame),
            final(shots)@ == old(self).shots_after(shot_frame, true, old(shots)@) || final(shots)@
                == old(self).shots_after(shot_frame, false, old(shots)@),
    {
        let chance: bool = draw_chance(self, shot_frame);
        self.shoot_with(shot_frame, chance, shots);
    }

    /// The hostile's turn to move: one step, where the cadence allows it.
    pub fn move_self(&mut self, move_frame: usize)
        ensures
            *final(self) == old(self).after_move(move_frame),
    {
        if is_due(self.last_movement, self.move_interval, move_frame) {
            self.pos = self.pos.moved_by(self.movement);
            self.last_movement = move_frame;
        }
    }

    /// One frame of the hostile, with the outcome of chance given.
    pub fn update_with(&mut self, frame: usize, chance: bool, shots: &mut Vec<Shot>)
        ensures
            *final(self) == old(self).after_update(frame),
            final(shots)@ == old(self).shots_after(frame, chance, old(shots)@),
    {
        self.shoot_with(frame, chance, shots);
        self.move_self(frame);
    }

    /// One frame of the hostile: it fires, as chance decides, then moves.
    pub fn update(&mut self, frame: usize, shots: &mut Vec<Shot>)
        ensures
            *final(self) == old(self).after_update(frame),
            final(shots)@ == old(self).shots_after(frame, true, old(shots)@) || final(shots)@
                == old(self).shots_after(frame, false, old(shots)@),
    {
        self.shoot(frame, shots);
        self.move_self(frame);
    }
}

/// Asks chance whether `enemy` fires at `frame`. Chance is asked only where
/// the cadence allows a shot.
pub fn draw_chance(enemy: &Enemy, frame: usize) -> (chance: bool)
    ensures
        chance ==> enemy.can_shoot(frame),
{
    if is_due(enemy.last_shot_frame, enemy.shot_interval, frame) {
        random_chance(ENEMY_SHOT_CHANCE, ENEMY_SHOT_CHANCE_OUT_OF)
    } else {
        false
    }
}

} // verus!
