//! The player's craft.

use crate::cadence::{cadence_elapsed, is_due};
use crate::constant::{
    CHAR_SHOT_SHIP_BASIC, CHAR_SHOT_SHIP_DIAGONAL_L, CHAR_SHOT_SHIP_DIAGONAL_R,
    CHAR_SHOT_SHIP_STRONG, SHIP_SHOT_INTERVAL, SHIP_WIDTH,
};
use crate::position::Position;
use crate::random::random_in_range;
use crate::shot::{all_moved, update_all, Shot};
use vstd::prelude::*;

verus! {

/// The craft's variant decides the volley it fires.
#[derive(Clone, Copy, Debug, PartialEq, Eq, Structural)]
pub enum ShipType {
    Basic,
    DiagonalShot,
    StrongShot,
}

impl ShipType {
    /// The variant that a draw from `0..3` stands for.
    pub open spec fn of_roll(roll: int) -> ShipType {
        if roll == 0 {
            ShipType::Basic
        } else if roll == 1 {
            ShipType::DiagonalShot
        } else {
            ShipType::StrongShot
        }
    }

    pub fn from_roll(roll: i32) -> (r: ShipType)
        ensures
            r == ShipType::of_roll(roll as int),
    {
        if roll == 0 {
            ShipType::Basic
        } else if roll == 1 {
            ShipType::DiagonalShot
        } else {
            ShipType::StrongShot
        }
    }

    /// A variant drawn at random, each with the same chance.
    pub fn random() -> (r: ShipType)
        ensures
            exists|roll: int| 0 <= roll < 3 && r == #[trigger] ShipType::of_roll(roll),
    {
        let roll: i32 = random_in_range(0, 3);
        ShipType::from_roll(roll)
    }
}

/// The step of a projectile that flies straight up.
pub open spec fn straight_up() -> Position {
    Position { x: 0, y: -1i32 }
}

/// The step of a projectile that flies up and to the left.
pub open spec fn up_left() -> Position {
    Position { x: -1i32, y: -1i32 }
}

/// The step of a projectile that flies up and to the right.
pub open spec fn up_right() -> Position {
    Position { x: 1, y: -1i32 }
}

/// The cell `columns` to the right of `pos`.
pub open spec fn right_of(pos: Position, columns: int) -> Position {
    pos.plus(Position { x: columns as i32, y: 0 })
}

/// The projectiles that a craft of variant `ship_type` at `pos` fires at once,
/// in the order in which they join the craft's list.
pub open spec fn volley(pos: Position, ship_type: ShipType) -> Seq<Shot> {
    match ship_type {
        ShipType::Basic => seq![
            Shot { pos: right_of(pos, 0), movement: straight_up(), character: CHAR_SHOT_SHIP_BASIC },
            Shot { pos: right_of(pos, 1), movement: straight_up(), character: CHAR_SHOT_SHIP_BASIC },
            Shot { pos: right_of(pos, 2), movement: straight_up(), character: CHAR_SHOT_SHIP_BASIC },
        ],
        ShipType::StrongShot => seq![
            Shot { pos: right_of(pos, 0), movement: straight_up(), character: CHAR_SHOT_SHIP_STRONG },
            Shot { pos: right_of(pos, 1), movement: straight_up(), character: CHAR_SHOT_SHIP_STRONG },
            Shot { pos: right_of(pos, 2), movement: straight_up(), character: CHAR_SHOT_SHIP_STRONG },
        ],
        ShipType::DiagonalShot => seq![
            Shot { pos: pos, movement: up_left(), character: CHAR_SHOT_SHIP_DIAGONAL_L },
            Shot { pos: pos, movement: up_right(), character: CHAR_SHOT_SHIP_DIAGONAL_R },
            Shot { pos: right_of(pos, 1), movement: straight_up(), character: CHAR_SHOT_SHIP_BASIC },
            Shot { pos: right_of(pos, 2), movement: up_left(), character: CHAR_SHOT_SHIP_DIAGONAL_L },
            Shot { pos: right_of(pos, 2), movement: up_right(), character: CHAR_SHOT_SHIP_DIAGONAL_R },
        ],
    }
}

/// The craft after a step of `delta` along one axis from `at`: the step is
/// taken only if it ends strictly between `low` and `high`, and on a
/// coordinate.
pub open spec fn stepped(at: i32, delta: i32, low: int, high: int) -> i32 {
    if low < at + delta < high && i32::MIN <= at + delta <= i32::MAX {
        (at + delta) as i32
    } else {
        at
    }
}

/// The craft: where it is, what it fires, and the projectiles it has in flight.
pub struct Ship {
    pub pos: Position,
    pub ship_type: ShipType,
    pub shots: Vec<Shot>,
    pub auto_shoot: bool,
    pub shot_interval: usize,
    pub last_shot_frame: usize,
}

/// The craft as a mathematical value.
pub struct ShipView {
    pub pos: Position,
    pub ship_type: ShipType,
    pub shots: Seq<Shot>,
    pub auto_shoot: bool,
    pub shot_interval: usize,
    pub last_shot_frame: usize,
}

impl ShipView {
    /// May the craft fire at `frame`?
    pub open spec fn can_shoot(self, frame: usize) -> bool {
        cadence_elapsed(self.last_shot_frame, self.shot_interval, frame)
    }

    /// The craft after an attempt to fire at `frame`.
    pub open spec fn shoot(self, frame: usize) -> ShipView {
        if self.can_shoot(frame) {
            ShipView {
                shots: self.shots + volley(self.pos, self.ship_type),
                last_shot_frame: frame,
                ..self
            }
        } else {
            self
        }
    }

    /// The craft after frame `frame`: it fires if it fires by itself, then all
    /// its projectiles, the new ones too, take one step.
    pub open spec fn update(self, frame: usize) -> ShipView {
        let fired = if self.auto_shoot {
            self.shoot(frame)
        } else {
            self
        };
        ShipView { shots: all_moved(fired.shots), ..fired }
    }

    /// Does the craft cover the cell `object`?
    pub open spec fn is_hit_by(self, object: Position) -> bool {
        object.y == self.pos.y && self.pos.x <= object.x < self.pos.x + SHIP_WIDTH
    }

    /// The craft after a step of `dx` columns, which it takes only if that
    /// leaves it right of column 0 and left of column `max_x`.
    pub open spec fn move_x(self, dx: i32, max_x: int) -> ShipView {
        ShipView { pos: Position { x: stepped(self.pos.x, dx, 0, max_x), y: self.pos.y }, ..self }
    }

    /// The craft after a step of `dy` rows, which it takes only if that
    /// leaves it below row 1 and above row `max_y`.
    pub open spec fn move_y(self, dy: i32, max_y: int) -> ShipView {
        ShipView { pos: Position { x: self.pos.x, y: stepped(self.pos.y, dy, 1, max_y) }, ..self }
    }

    pub open spec fn change_ship_type(self, new_ship_type: ShipType) -> ShipView {
        ShipView { ship_type: new_ship_type, ..self }
    }
}

impl View for Ship {
    type V = ShipView;

    open spec fn view(&self) -> ShipView {
        ShipView {
            pos: self.pos,
            ship_type: self.ship_type,
            shots: self.shots@,
            auto_shoot: self.auto_shoot,
            shot_interval: self.shot_interval,
            last_shot_frame: self.last_shot_frame,
        }
    }
}

/// One step along an axis, taken only if it ends strictly between `low` and
/// `high`.
pub fn step_within(at: i32, delta: i32, low: i32, high: i32) -> (r: i32)
    ensures
        r == stepped(at, delta, low as int, high as int),
{
    let target: i64 = at as i64 + delta as i64;
    if target <= low as i64 || target >= high as i64 {
        at
    } else {
        target as i32
    }
}

impl Ship {
    /// A new craft at `initial_position`: of the basic variant, with no
    /// projectile in flight, and not firing by itself.
    pub open spec fn new_view(initial_position: Position) -> ShipView {
        ShipView {
            pos: initial_position,
            ship_type: ShipType::Basic,
            shots: Seq::empty(),
            auto_shoot: false,
            shot_interval: SHIP_SHOT_INTERVAL,
            last_shot_frame: 0,
        }
    }

    pub fn new(initial_position: Position) -> (r: Ship)
        ensures
            r@ == Ship::new_view(initial_position),
    {
        Ship {
            pos: initial_position,
            ship_type: ShipType::Basic,
            shots: Vec::new(),
            last_shot_frame: 0,
            auto_shoot: false,
            shot_interval: SHIP_SHOT_INTERVAL,
        }
    }

    /// Replaces the craft's variant. Projectiles in flight stay as they are.
    pub fn change_ship_type(&mut self, new_ship_type: &ShipType)
        ensures
            final(self)@ == old(self)@.change_ship_type(*new_ship_type),
    {
        self.ship_type = *new_ship_type;
    }

    /// Moves the craft by `dx` columns, unless that would take it to column 0
    /// or below, or to `max_x` or beyond.
    pub fn move_x(&mut self, dx: i32, max_x: i32)
        ensures
            final(self)@ == old(self)@.move_x(dx, max_x as int),
    {
        self.pos.x = step_within(self.pos.x, dx, 0, max_x);
    }

    /// Moves the craft by `dy` rows, unless that would take it to row 1 or
    /// above, or to `max_y` or below.
    pub fn move_y(&mut self, dy: i32, max_y: i32)
        ensures
            final(self)@ == old(self)@.move_y(dy, max_y as int),
    {
        self.pos.y = step_within(self.pos.y, dy, 1, max_y);
    }

    /// Fires the variant's volley if the cadence allows it at `shot_frame`.
    pub fn shoot(&mut self, shot_frame: usize)
        ensures
            final(self)@ == old(self)@.shoot(shot_frame),
    {
        if is_due(self.last_shot_frame, self.shot_interval, shot_frame) {
            let up: Position = Position::new(0, -1);
            let one: Position = self.pos.moved_by(Position::new(1, 0));
            let two: Position = self.pos.moved_by(Position::new(2, 0));
            match self.ship_type {
                ShipType::Basic => {
                    let zero: Position = self.pos.moved_by(Position::new(0, 0));
                    self.shots.push(Shot::new(zero, up, CHAR_SHOT_SHIP_BASIC));
                    self.shots.push(Shot::new(one, up, CHAR_SHOT_SHIP_BASIC));
                    self.shots.push(Shot::new(two, up, CHAR_SHOT_SHIP_BASIC));
                },
                ShipType::StrongShot => {
                    let zero: Position = self.pos.moved_by(Position::new(0, 0));
                    self.shots.push(Shot::new(zero, up, CHAR_SHOT_SHIP_STRONG));
                    self.shots.push(Shot::new(one, up, CHAR_SHOT_SHIP_STRONG));
                    self.shots.push(Shot::new(two, up, CHAR_SHOT_SHIP_STRONG));
                },
                ShipType::DiagonalShot => {
                    let left: Position = Position::new(-1, -1);
                    let right: Position = Position::new(1, -1);
                    self.shots.push(Shot::new(self.pos, left, CHAR_SHOT_SHIP_DIAGONAL_L));
                    self.shots.push(Shot::new(self.pos, right, CHAR_SHOT_SHIP_DIAGONAL_R));
                    self.shots.push(Shot::new(one, up, CHAR_SHOT_SHIP_BASIC));
                    self.shots.push(Shot::new(two, left, CHAR_SHOT_SHIP_DIAGONAL_L));
                    self.shots.push(Shot::new(two, right, CHAR_SHOT_SHIP_DIAGONAL_R));
                },
            }
            self.last_shot_frame = shot_frame;
            assert(self.shots@ =~= old(self).shots@ + volley(old(self).pos, old(self).ship_type));
        }
    }

    /// Advances the craft by one frame.
    pub fn update(&mut self, frame: usize)
        ensures
            final(self)@ == old(self)@.update(frame),
    {
        if self.auto_shoot {
            self.shoot(frame);
        }
        update_all(&mut self.shots);
    }

    /// Does the craft cover the cell `object`?
    pub fn is_hit_by(&self, object: &Position) -> (r: bool)
        ensures
            r == self@.is_hit_by(*object),
    {
        object.y == self.pos.y && self.pos.x <= object.x && (object.x as i64) < self.pos.x as i64
            + SHIP_WIDTH as i64
    }
}

} // verus!
