//! The game as a mathematical value, and each stage of a frame as a function
//! on it. The executable game is held to these functions.

use crate::cadence::cadence_elapsed;
use crate::constant::{
    BORDER_SIZE, DMG_COLLISION, DMG_ENEMY_REACHED_GROUND, DMG_SHOT_HIT, ENEMY_MOVE_INTERVAL,
    ENEMY_SHOT_INTERVAL, HUD_HEALTH_GRANULARITY, HUD_SHIELD_GRANULARITY, INITIAL_HEALTH, INITIAL_SHIELD, INITIAL_SPAWN_INTERVAL, MAX_HEALTH, MAX_SHIELD, MIN_FIELD_HEIGHT, MIN_FIELD_WIDTH,
    MIN_SPAWN_INTERVAL, SCORE_PER_KILL, SHIP_WIDTH, SPAWN_INTERVAL_DECREASE, SPAWN_MARGIN,
    SPEEDUP_AFTER_X_FRAMES,
};
use crate::enemy::{straight_down, Enemy};
use crate::goodie::{Goodie, GoodieType};
use crate::position::Position;
use crate::sequence::without;
use crate::ship::{Ship, ShipType, ShipView};
use crate::shot::{all_moved, Shot};
use vstd::prelude::*;

verus! {

/// What is left of `amount` after `loss` is taken from it, never below zero.
pub open spec fn reduced(amount: usize, loss: nat) -> usize {
    if amount <= loss {
        0
    } else {
        (amount - loss) as usize
    }
}

/// `amount` raised by `gain`, never above `cap`.
pub open spec fn restored(amount: usize, gain: usize, cap: usize) -> usize {
    if amount + gain >= cap {
        cap
    } else {
        (amount + gain) as usize
    }
}

/// `total` as far as a `usize` holds it.
pub open spec fn capped(total: nat) -> usize {
    if total > usize::MAX {
        usize::MAX
    } else {
        total as usize
    }
}

/// `score` raised by `gain`, never beyond what a `usize` holds.
pub open spec fn score_raised(score: usize, gain: nat) -> usize {
    if score + gain > usize::MAX {
        usize::MAX
    } else {
        (score + gain) as usize
    }
}

/// Every hostile of `enemies` after its own frame `frame`, in the same order.
pub open spec fn all_updated(enemies: Seq<Enemy>, frame: usize) -> Seq<Enemy> {
    Seq::new(enemies.len(), |i: int| enemies[i].after_update(frame))
}

/// The projectiles that the hostiles `enemies` fire at `frame`, in the order of
/// the hostiles, where `chances[i]` tells whether chance is on the side of
/// hostile `i`.
pub open spec fn shots_fired(enemies: Seq<Enemy>, frame: usize, chances: Seq<bool>) -> Seq<Shot>
    recommends
        chances.len() == enemies.len(),
    decreases enemies.len(),
{
    if enemies.len() == 0 {
        Seq::empty()
    } else {
        enemies.last().shots_after(
            frame,
            chances[enemies.len() - 1],
            shots_fired(enemies.drop_last(), frame, chances),
        )
    }
}

/// Every pickup of `goodies` one row further down, in the same order.
pub open spec fn all_fallen(goodies: Seq<Goodie>) -> Seq<Goodie> {
    Seq::new(goodies.len(), |i: int| goodies[i].fallen())
}

/// What the craft has to show for the pickups it collected: its health, its
/// shield and its variant.
pub struct Benefit {
    pub health: usize,
    pub shield: usize,
    pub ship_type: ShipType,
}

impl Benefit {
    /// The craft's state after one pickup.
    pub open spec fn with(self, goodie_type: GoodieType) -> Benefit {
        match goodie_type {
            GoodieType::RepairKit(gain) => Benefit {
                health: restored(self.health, gain, MAX_HEALTH),
                ..self
            },
            GoodieType::ShieldBoost(gain) => Benefit {
                shield: restored(self.shield, gain, MAX_SHIELD),
                ..self
            },
            GoodieType::ShipUpgrade(ship_type) => Benefit { ship_type, ..self },
        }
    }

    /// The craft's state after the pickups `goodies`, collected in their order.
    pub open spec fn with_all(self, goodies: Seq<Goodie>) -> Benefit
        decreases goodies.len(),
    {
        if goodies.len() == 0 {
            self
        } else {
            self.with_all(goodies.drop_last()).with(goodies.last().goodie_type)
        }
    }
}

/// The pickups that `count` hostiles destroyed at `pos` leave there, of the
/// kinds `drops[first]`, `drops[first + 1]` and so on.
pub open spec fn dropped(pos: Position, drops: Seq<GoodieType>, first: int, count: nat) -> Seq<
    Goodie,
> {
    Seq::new(count, |k: int| Goodie { pos, goodie_type: drops[first + k] })
}

/// The state of the pass in which the craft's projectiles meet the hostiles.
pub struct Sweep {
    /// The hostiles still alive.
    pub enemies: Seq<Enemy>,
    /// The pickups on the field, those just dropped last.
    pub goodies: Seq<Goodie>,
    /// The projectiles that stay in flight.
    pub kept: Seq<Shot>,
    /// How many hostiles were destroyed.
    pub kills: nat,
}

/// Is the hostile in the cell `pos`?
pub open spec fn stands_at(pos: Position) -> spec_fn(Enemy) -> bool {
    |enemy: Enemy| enemy.pos == pos
}

/// Is the projectile lost: has it reached the top row, or the column at the
/// left edge or the one at the right edge of a field `width` wide?
pub open spec fn is_spent(shot: Shot, width: i32) -> bool {
    shot.pos.y == 0 || shot.pos.x == 0 || shot.pos.x == width
}

impl Sweep {
    /// The pass after the craft's projectile `shot` had its turn. A spent
    /// projectile leaves. Any other destroys every hostile in its cell, each of
    /// which drops a pickup there, and stays in flight unless it destroyed one
    /// and does not pierce.
    pub open spec fn resolve(self, shot: Shot, width: i32, drops: Seq<GoodieType>) -> Sweep {
        if is_spent(shot, width) {
            self
        } else {
            let victims = self.enemies.filter(stands_at(shot.pos)).len();
            Sweep {
                enemies: self.enemies.filter(without(stands_at(shot.pos))),
                goodies: self.goodies + dropped(shot.pos, drops, self.kills as int, victims),
                kept: if victims == 0 || shot.pierces() {
                    self.kept.push(shot)
                } else {
                    self.kept
                },
                kills: self.kills + victims,
            }
        }
    }

    /// The pass after the projectiles `shots` had their turns, one after
    /// another.
    pub open spec fn resolve_all(self, shots: Seq<Shot>, width: i32, drops: Seq<GoodieType>) -> Sweep
        decreases shots.len(),
    {
        if shots.len() == 0 {
            self
        } else {
            self.resolve_all(shots.drop_last(), width, drops).resolve(shots.last(), width, drops)
        }
    }
}

/// What chance decides in one frame.
pub struct Chances {
    /// For each hostile, in order, whether chance lets it fire.
    pub enemy_fire: Seq<bool>,
    /// The column in which a hostile appears, if one appears.
    pub spawn_column: i32,
    /// The kinds of the pickups that destroyed hostiles drop, in the order in
    /// which the hostiles are destroyed.
    pub drops: Seq<GoodieType>,
}

/// The game as a mathematical value.
pub struct GameView {
    pub dimension: Position,
    pub ship: ShipView,
    pub enemies: Seq<Enemy>,
    pub enemy_shots: Seq<Shot>,
    pub goodies: Seq<Goodie>,
    pub health: usize,
    pub shield: usize,
    pub score: usize,
    pub last_spawn: usize,
    pub spawn_interval: usize,
    pub last_spawn_speedup: usize,
}

impl GameView {
    /// What holds of every game in play: the field has room for the craft and
    /// for a hostile to appear, the craft is inside the field, health and
    /// shield are within their limits, and hostiles do not appear faster than
    /// the fastest pace.
    pub open spec fn wf(self) -> bool {
        &&& self.dimension.x >= MIN_FIELD_WIDTH
        &&& self.dimension.y >= MIN_FIELD_HEIGHT
        &&& 1 <= self.ship.pos.x <= self.dimension.x - SHIP_WIDTH
        &&& 1 <= self.ship.pos.y <= self.dimension.y - 1
        &&& self.health <= MAX_HEALTH
        &&& self.shield <= MAX_SHIELD
        &&& self.spawn_interval >= MIN_SPAWN_INTERVAL
    }

    /// The game before its first frame, on a field of the size `dimension`:
    /// the craft stands in the middle of the second row from the bottom, and
    /// nothing else is on the field.
    pub open spec fn initial(dimension: Position) -> GameView {
        GameView {
            dimension,
            ship: Ship::new_view(
                Position { x: (dimension.x / 2) as i32, y: (dimension.y - 2) as i32 },
            ),
            enemies: Seq::empty(),
            enemy_shots: Seq::empty(),
            goodies: Seq::empty(),
            health: INITIAL_HEALTH,
            shield: INITIAL_SHIELD,
            score: 0,
            last_spawn: 0,
            spawn_interval: INITIAL_SPAWN_INTERVAL,
            last_spawn_speedup: 0,
        }
    }

    /// Is the game lost?
    pub open spec fn is_over(self) -> bool {
        self.health == 0
    }

    /// How many cells the health bar shows: one for every full
    /// `HUD_HEALTH_GRANULARITY` of health.
    pub open spec fn health_bar_cells(self) -> int {
        self.health as int / HUD_HEALTH_GRANULARITY as int
    }

    /// How many cells the shield bar shows: one for every full
    /// `HUD_SHIELD_GRANULARITY` of shield.
    pub open spec fn shield_bar_cells(self) -> int {
        self.shield as int / HUD_SHIELD_GRANULARITY as int
    }

    /// The first row that lies below the play area.
    pub open spec fn ground(self) -> int {
        self.dimension.y - BORDER_SIZE
    }

    pub open spec fn move_ship_x(self, dx: i32) -> GameView {
        GameView { ship: self.ship.move_x(dx, self.dimension.x - 2), ..self }
    }

    pub open spec fn move_ship_y(self, dy: i32) -> GameView {
        GameView { ship: self.ship.move_y(dy, self.dimension.y as int), ..self }
    }

    pub open spec fn toggle_auto_shoot(self) -> GameView {
        GameView { ship: ShipView { auto_shoot: !self.ship.auto_shoot, ..self.ship }, ..self }
    }

    /// The game after the craft took `direct` damage that no shield stops and
    /// `damage` that a shield stops: the first is taken from health; the
    /// second from the shield while there is one, which then absorbs all of
    /// it, and from health otherwise.
    pub open spec fn damage_ship(self, damage: nat, direct: nat) -> GameView {
        let health = reduced(self.health, direct);
        if self.shield > 0 {
            GameView { health, shield: reduced(self.shield, damage), ..self }
        } else {
            GameView { health: reduced(health, damage), ..self }
        }
    }

    /// Does the hostile run into the craft?
    pub open spec fn collides(self) -> spec_fn(Enemy) -> bool {
        |enemy: Enemy| self.ship.is_hit_by(enemy.pos)
    }

    /// Does the hostile get past the craft and below the play area?
    pub open spec fn breaches(self) -> spec_fn(Enemy) -> bool {
        |enemy: Enemy| !self.ship.is_hit_by(enemy.pos) && enemy.pos.y > self.ground()
    }

    /// Does the hostile stay on the field?
    pub open spec fn enemy_stays(self) -> spec_fn(Enemy) -> bool {
        |enemy: Enemy| !self.ship.is_hit_by(enemy.pos) && enemy.pos.y <= self.ground()
    }

    /// The hostiles' stage: each fires and moves; then each that runs into the
    /// craft or gets below the play area leaves the field, and the damage of
    /// them all is taken at once.
    pub open spec fn update_enemies(self, frame: usize, enemy_fire: Seq<bool>) -> GameView
        recommends
            enemy_fire.len() == self.enemies.len(),
    {
        let arrived = all_updated(self.enemies, frame);
        GameView {
            enemies: arrived.filter(self.enemy_stays()),
            enemy_shots: self.enemy_shots + shots_fired(self.enemies, frame, enemy_fire),
            ..self
        }.damage_ship(
            DMG_COLLISION as nat * arrived.filter(self.collides()).len(),
            DMG_ENEMY_REACHED_GROUND as nat * arrived.filter(self.breaches()).len(),
        )
    }

    /// Does the projectile strike the craft?
    pub open spec fn shot_strikes(self) -> spec_fn(Shot) -> bool {
        |shot: Shot| self.ship.is_hit_by(shot.pos)
    }

    /// Does the projectile stay on the field?
    pub open spec fn shot_stays(self) -> spec_fn(Shot) -> bool {
        |shot: Shot| !self.ship.is_hit_by(shot.pos) && shot.pos.y < self.ground()
    }

    /// The stage of the hostiles' projectiles: each takes one step; then each
    /// that strikes the craft or reaches the ground leaves the field, and the
    /// damage of all that struck is taken at once.
    pub open spec fn update_enemy_shots(self) -> GameView {
        let arrived = all_moved(self.enemy_shots);
        GameView { enemy_shots: arrived.filter(self.shot_stays()), ..self }.damage_ship(
            DMG_SHOT_HIT as nat * arrived.filter(self.shot_strikes()).len(),
            0,
        )
    }

    /// Does the craft collect the pickup?
    pub open spec fn goodie_collected(self) -> spec_fn(Goodie) -> bool {
        |goodie: Goodie| self.ship.is_hit_by(goodie.pos)
    }

    /// Does the pickup stay on the field?
    pub open spec fn goodie_stays(self) -> spec_fn(Goodie) -> bool {
        |goodie: Goodie| !self.ship.is_hit_by(goodie.pos) && goodie.pos.y < self.ground()
    }

    /// The craft's health, shield and variant.
    pub open spec fn benefit(self) -> Benefit {
        Benefit { health: self.health, shield: self.shield, ship_type: self.ship.ship_type }
    }

    /// The pickups' stage: each falls by one row; then the craft collects, in
    /// order, those that reach it, and those that reach the ground leave the
    /// field.
    pub open spec fn update_goodies(self) -> GameView {
        let arrived = all_fallen(self.goodies);
        let benefit = self.benefit().with_all(arrived.filter(self.goodie_collected()));
        GameView {
            goodies: arrived.filter(self.goodie_stays()),
            health: benefit.health,
            shield: benefit.shield,
            ship: self.ship.change_ship_type(benefit.ship_type),
            ..self
        }
    }

    /// May a hostile appear at `frame`?
    pub open spec fn spawn_due(self, frame: usize) -> bool {
        cadence_elapsed(self.last_spawn, self.spawn_interval, frame)
    }

    /// The hostile that appears in column `column`: in the top row of the play
    /// area, bound straight down.
    pub open spec fn newcomer(column: i32) -> Enemy {
        Enemy {
            pos: Position { x: column, y: BORDER_SIZE },
            movement: straight_down(),
            last_movement: 0,
            move_interval: ENEMY_MOVE_INTERVAL,
            last_shot_frame: 0,
            shot_interval: ENEMY_SHOT_INTERVAL,
        }
    }

    /// The spawning stage: where the pace allows it, one hostile appears in
    /// column `column`.
    pub open spec fn spawn_enemy(self, frame: usize, column: i32) -> GameView {
        if self.spawn_due(frame) {
            GameView {
                last_spawn: frame,
                enemies: self.enemies.push(GameView::newcomer(column)),
                ..self
            }
        } else {
            self
        }
    }

    /// The pass of the craft's projectiles before the first had its turn.
    pub open spec fn sweep_start(self) -> Sweep {
        Sweep { enemies: self.enemies, goodies: self.goodies, kept: Seq::empty(), kills: 0 }
    }

    /// The stage of the craft's projectiles: each has its turn against the
    /// hostiles, and every hostile destroyed raises the score.
    pub open spec fn update_ship_shots(self, drops: Seq<GoodieType>) -> GameView
        recommends
            drops.len() >= self.enemies.len(),
    {
        let sweep = self.sweep_start().resolve_all(self.ship.shots, self.dimension.x, drops);
        GameView {
            ship: ShipView { shots: sweep.kept, ..self.ship },
            enemies: sweep.enemies,
            goodies: sweep.goodies,
            score: score_raised(self.score, SCORE_PER_KILL as nat * sweep.kills),
            ..self
        }
    }

    /// Is the pace of spawning due to rise at `frame`?
    pub open spec fn speedup_due(self, frame: usize) -> bool {
        cadence_elapsed(self.last_spawn_speedup, SPEEDUP_AFTER_X_FRAMES, frame)
    }

    /// The escalation stage: where it is due, the time between two hostiles
    /// shrinks by a fixed step, but not below the fastest pace.
    pub open spec fn update_game_speed(self, frame: usize) -> GameView {
        if self.speedup_due(frame) {
            GameView {
                spawn_interval: if self.spawn_interval - SPAWN_INTERVAL_DECREASE
                    <= MIN_SPAWN_INTERVAL {
                    MIN_SPAWN_INTERVAL
                } else {
                    (self.spawn_interval - SPAWN_INTERVAL_DECREASE) as usize
                },
                last_spawn_speedup: frame,
                ..self
            }
        } else {
            self
        }
    }

    /// The ship's stage: it fires if it fires by itself, and its projectiles
    /// take one step.
    pub open spec fn update_ship(self, frame: usize) -> GameView {
        GameView { ship: self.ship.update(frame), ..self }
    }

    /// One frame: the stages in their order.
    pub open spec fn update(self, frame: usize, chances: Chances) -> GameView {
        self.update_ship(frame).update_enemies(frame, chances.enemy_fire).update_enemy_shots()
            .update_goodies().spawn_enemy(frame, chances.spawn_column).update_ship_shots(
            chances.drops,
        ).update_game_speed(frame)
    }

    /// Can chance decide `chances` in a frame of this game? It decides for
    /// each hostile, and only lets one fire whose cadence allows it; a new
    /// hostile keeps a margin to either edge; and there is a kind, one that
    /// can be drawn, for the pickup of every hostile that could be destroyed.
    pub open spec fn admits(self, frame: usize, chances: Chances) -> bool {
        &&& chances.enemy_fire.len() == self.enemies.len()
        &&& forall|i: int|
            0 <= i < self.enemies.len() && #[trigger] chances.enemy_fire[i]
                ==> self.enemies[i].can_shoot(frame)
        &&& SPAWN_MARGIN <= chances.spawn_column < self.dimension.x - SPAWN_MARGIN
        &&& chances.drops.len() > self.enemies.len()
        &&& forall|k: int|
            0 <= k < chances.drops.len() ==> (#[trigger] chances.drops[k]).can_be_drawn()
    }
}

} // verus!
