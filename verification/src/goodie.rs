//! Pickups: what a destroyed hostile leaves behind.

use crate::constant::{
    CHAR_HEALTH, CHAR_SHIELD, CHAR_UPGRADE_SHIP_BASIC, CHAR_UPGRADE_SHIP_DIAGONAL,
    CHAR_UPGRADE_SHIP_STRONG, REPAIR_KIT_HEALTH, SHIELD_BOOST_AMOUNT,
};
use crate::position::Position;
use crate::random::random_in_range;
use crate::ship::ShipType;
use vstd::prelude::*;

verus! {

/// What a pickup gives to the craft that collects it.
#[derive(Clone, Copy, Debug, PartialEq, Eq, Structural)]
pub enum GoodieType {
    RepairKit(usize),
    ShieldBoost(usize),
    ShipUpgrade(ShipType),
}

impl GoodieType {
    /// The kind that two draws stand for, the first from `0..6` and the
    /// second from `0..3`: three of six are repair kits, two are shield
    /// boosts and one is an upgrade to the variant of the second draw.
    pub open spec fn of_rolls(kind_roll: int, ship_roll: int) -> GoodieType {
        if kind_roll <= 2 {
            GoodieType::RepairKit(REPAIR_KIT_HEALTH)
        } else if kind_roll <= 4 {
            GoodieType::ShieldBoost(SHIELD_BOOST_AMOUNT)
        } else {
            GoodieType::ShipUpgrade(ShipType::of_roll(ship_roll))
        }
    }

    /// Can this kind come out of a draw?
    pub open spec fn can_be_drawn(self) -> bool {
        exists|kind_roll: int, ship_roll: int|
            0 <= kind_roll < 6 && 0 <= ship_roll < 3 && self == #[trigger] GoodieType::of_rolls(
                kind_roll,
                ship_roll,
            )
    }

    pub fn from_rolls(kind_roll: i32, ship_roll: i32) -> (r: GoodieType)
        ensures
            r == GoodieType::of_rolls(kind_roll as int, ship_roll as int),
    {
        if kind_roll <= 2 {
            GoodieType::RepairKit(REPAIR_KIT_HEALTH)
        } else if kind_roll <= 4 {
            GoodieType::ShieldBoost(SHIELD_BOOST_AMOUNT)
        } else {
            GoodieType::ShipUpgrade(ShipType::from_roll(ship_roll))
        }
    }

    /// A kind drawn at random. The variant of an upgrade is drawn only where
    /// the first draw gives an upgrade.
    pub fn random() -> (r: GoodieType)
        ensures
            r.can_be_drawn(),
    {
        let kind_roll: i32 = random_in_range(0, 6);
        let ship_roll: i32 = if kind_roll > 4 {
            random_in_range(0, 3)
        } else {
            0
        };
        GoodieType::from_rolls(kind_roll, ship_roll)
    }
}

/// The step of a falling pickup: one row down.
pub open spec fn one_down() -> Position {
    Position { x: 0, y: 1 }
}

/// A pickup on the field.
#[derive(Clone, Copy, Debug, PartialEq, Eq, Structural)]
pub struct Goodie {
    pub pos: Position,
    pub goodie_type: GoodieType,
}

impl Goodie {
    /// The pickup one row further down.
    pub open spec fn fallen(self) -> Goodie {
        Goodie { pos: self.pos.plus(one_down()), goodie_type: self.goodie_type }
    }

    /// The character that stands for the pickup on the field.
    pub open spec fn glyph_of(self) -> char {
        match self.goodie_type {
            GoodieType::RepairKit(_) => CHAR_HEALTH,
            GoodieType::ShieldBoost(_) => CHAR_SHIELD,
            GoodieType::ShipUpgrade(ShipType::Basic) => CHAR_UPGRADE_SHIP_BASIC,
            GoodieType::ShipUpgrade(ShipType::DiagonalShot) => CHAR_UPGRADE_SHIP_DIAGONAL,
            GoodieType::ShipUpgrade(ShipType::StrongShot) => CHAR_UPGRADE_SHIP_STRONG,
        }
    }

    pub fn new(pos: Position, goodie_type: GoodieType) -> (r: Goodie)
        ensures
            r == (Goodie { pos, goodie_type }),
    {
        Goodie { pos, goodie_type }
    }

    /// Lets the pickup fall by one row.
    pub fn update(&mut self)
        ensures
            *final(self) == old(self).fallen(),
    {
        self.pos = self.pos.moved_by(Position::new(0, 1));
    }

    pub fn glyph(&self) -> (r: char)
        ensures
            r == self.glyph_of(),
    {
        match self.goodie_type {
            GoodieType::RepairKit(_) => CHAR_HEALTH,
            GoodieType::ShieldBoost(_) => CHAR_SHIELD,
            GoodieType::ShipUpgrade(ship_type) => match ship_type {
                ShipType::Basic => CHAR_UPGRADE_SHIP_BASIC,
                ShipType::DiagonalShot => CHAR_UPGRADE_SHIP_DIAGONAL,
                ShipType::StrongShot => CHAR_UPGRADE_SHIP_STRONG,
            },
        }
    }
}

} // verus!
