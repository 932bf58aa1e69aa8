//! Projectiles.

use crate::constant::CHAR_SHOT_SHIP_STRONG;
use crate::position::Position;
use vstd::prelude::*;

verus! {

/// A projectile: a cell, the step it takes each frame, and the character it
/// is drawn with, which tells what fired it.
#[derive(Clone, Copy, Debug, PartialEq, Eq, Structural)]
pub struct Shot {
    pub pos: Position,
    pub movement: Position,
    pub character: char,
}

impl Shot {
    pub fn new(pos: Position, movement: Position, character: char) -> (r: Shot)
        ensures
            r == (Shot { pos, movement, character }),
    {
        Shot { pos, movement, character }
    }

    /// The projectile one step further.
    pub open spec fn moved(self) -> Shot {
        Shot { pos: self.pos.plus(self.movement), movement: self.movement, character: self.character }
    }

    /// A reinforced projectile outlives the hostile it destroys.
    pub open spec fn pierces(self) -> bool {
        self.character == CHAR_SHOT_SHIP_STRONG
    }

    pub fn update(&mut self)
        ensures
            *final(self) == old(self).moved(),
    {
        self.pos = self.pos.moved_by(self.movement);
    }

    pub fn is_piercing(&self) -> (r: bool)
        ensures
            r == self.pierces(),
    {
        self.character == CHAR_SHOT_SHIP_STRONG
    }
}

/// Every projectile of `shots` one step further, in the same order.
pub open spec fn all_moved(shots: Seq<Shot>) -> Seq<Shot> {
    Seq::new(shots.len(), |i: int| shots[i].moved())
}

/// Moves every projectile of `shots` by its own step.
pub fn update_all(shots: &mut Vec<Shot>)
    ensures
        final(shots)@ == all_moved(old(shots)@),
{
    let n: usize = shots.len();
    let mut i: usize = 0;
    while i < n
        invariant
            shots@.len() == n,
            n == old(shots)@.len(),
            i <= n,
            forall|j: int| 0 <= j < i ==> shots@[j] == old(shots)@[j].moved(),
            forall|j: int| i <= j < n ==> shots@[j] == old(shots)@[j],
        decreases n - i,
    {
        let mut shot: Shot = shots[i];
        shot.update();
        shots.set(i, shot);
        i += 1;
    }
    assert(shots@ =~= all_moved(old(shots)@));
}

} // verus!
