//! Design constants of the simulation.

use vstd::prelude::*;

verus! {

pub const FPS_LIMIT: u32 = 20;

pub const MOVE_SPEED_X: i32 = 2;

pub const MOVE_SPEED_Y: i32 = 1;

pub const GAME_WIDTH: i32 = 60;

pub const GAME_HEIGHT: i32 = 32;

pub const BORDER_SIZE: i32 = 1;

/// Narrowest field on which a hostile can be spawned and the craft placed.
pub const MIN_FIELD_WIDTH: i32 = 11;

/// Lowest field on which the craft can be placed.
pub const MIN_FIELD_HEIGHT: i32 = 3;

/// Columns kept free on either side when a hostile is spawned.
pub const SPAWN_MARGIN: i32 = 5;

/// A hostile whose cadence allows a shot fires with probability
/// `ENEMY_SHOT_CHANCE` in `ENEMY_SHOT_CHANCE_OUT_OF`.
pub const ENEMY_SHOT_CHANCE: u32 = 1;

pub const ENEMY_SHOT_CHANCE_OUT_OF: u32 = 5;

pub const ENEMY_MOVE_INTERVAL: usize = 10;

pub const ENEMY_SHOT_INTERVAL: usize = 20;

pub const SHIP_SHOT_INTERVAL: usize = 15;

/// Columns that the craft covers, starting at its position.
pub const SHIP_WIDTH: i32 = 3;

pub const INITIAL_HEALTH: usize = 100;

pub const INITIAL_SHIELD: usize = 0;

pub const MAX_HEALTH: usize = 100;

pub const MAX_SHIELD: usize = 100;

pub const DMG_ENEMY_REACHED_GROUND: usize = 15;

pub const DMG_COLLISION: usize = 50;

pub const DMG_SHOT_HIT: usize = 5;

pub const SCORE_PER_KILL: usize = 5;

pub const REPAIR_KIT_HEALTH: usize = 5;

pub const SHIELD_BOOST_AMOUNT: usize = 10;

pub const INITIAL_SPAWN_INTERVAL: usize = 40;

pub const SPEEDUP_AFTER_X_FRAMES: usize = 200;

pub const SPAWN_INTERVAL_DECREASE: usize = 10;

pub const MIN_SPAWN_INTERVAL: usize = 10;

pub const HUD_HEALTH_GRANULARITY: usize = 5;

pub const HUD_SHIELD_GRANULARITY: usize = 5;

pub const CHAR_ENEMY: char = 'W';

pub const CHAR_SHOT_ENEMY: char = '!';

pub const CHAR_SHOT_SHIP_BASIC: char = '|';

pub const CHAR_SHOT_SHIP_STRONG: char = '#';

pub const CHAR_SHOT_SHIP_DIAGONAL_L: char = '\\';

pub const CHAR_SHOT_SHIP_DIAGONAL_R: char = '/';

pub const CHAR_HEALTH: char = '+';

pub const CHAR_SHIELD: char = 'O';

pub const CHAR_HEALTH_BAR: char = '=';

pub const CHAR_SHIELD_BAR: char = '=';

pub const CHAR_UPGRADE_SHIP_BASIC: char = 'B';

pub const CHAR_UPGRADE_SHIP_DIAGONAL: char = 'D';

pub const CHAR_UPGRADE_SHIP_STRONG: char = 'S';

} // verus!
