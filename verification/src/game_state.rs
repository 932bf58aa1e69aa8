//! The game in play: the craft, the hostiles, their projectiles, the pickups
//! and the score, advanced one frame at a time.

use crate::cadence::is_due;
use crate::constant::{
    BORDER_SIZE, DMG_COLLISION, DMG_ENEMY_REACHED_GROUND, DMG_SHOT_HIT, ENEMY_SHOT_INTERVAL,
    HUD_HEALTH_GRANULARITY, HUD_SHIELD_GRANULARITY,
    INITIAL_HEALTH, INITIAL_SHIELD, INITIAL_SPAWN_INTERVAL, MAX_HEALTH, MAX_SHIELD,
    MIN_FIELD_HEIGHT, MIN_FIELD_WIDTH, MIN_SPAWN_INTERVAL, SCORE_PER_KILL,
    SPAWN_INTERVAL_DECREASE, SPAWN_MARGIN, SPEEDUP_AFTER_X_FRAMES,
};
use crate::enemy::{draw_chance, Enemy};
use crate::game_model::{
    all_fallen, all_updated, capped, dropped, reduced, restored, shots_fired, stands_at, Chances,
    GameView, Sweep,
};
use crate::goodie::{Goodie, GoodieType};
use crate::position::Position;
use crate::random::random_in_range;
use crate::ship::Ship;
use crate::sequence::{lemma_filter_splits, lemma_filter_take_next, without};
use crate::shot::{update_all, Shot};
use vstd::prelude::*;

verus! {

/// The game in play.
pub struct GameState {
    pub dimension: Position,
    pub ship: Ship,
    pub enemies: Vec<Enemy>,
    pub enemy_shots: Vec<Shot>,
    pub goodies: Vec<Goodie>,
    pub health: usize,
    pub shield: usize,
    pub score: usize,
    pub last_spawn: usize,
    pub spawn_interval: usize,
    pub last_spawn_speedup: usize,
}

impl View for GameState {
    type V = GameView;

    open spec fn view(&self) -> GameView {
        GameView {
            dimension: self.dimension,
            ship: self.ship@,
            enemies: self.enemies@,
            enemy_shots: self.enemy_shots@,
            goodies: self.goodies@,
            health: self.health,
            shield: self.shield,
            score: self.score,
            last_spawn: self.last_spawn,
            spawn_interval: self.spawn_interval,
            last_spawn_speedup: self.last_spawn_speedup,
        }
    }
}

/// What chance decides in one frame.
pub struct FrameRolls {
    /// For each hostile, in order, whether chance lets it fire.
    pub enemy_fire: Vec<bool>,
    /// The column in which a hostile appears, if one appears.
    pub spawn_column: i32,
    /// The kinds of the pickups that destroyed hostiles drop, in the order in
    /// which the hostiles are destroyed.
    pub drops: Vec<GoodieType>,
}

impl View for FrameRolls {
    type V = Chances;

    open spec fn view(&self) -> Chances {
        Chances {
            enemy_fire: self.enemy_fire@,
            spawn_column: self.spawn_column,
            drops: self.drops@,
        }
    }
}

/// Takes `loss` from `amount`, stopping at zero.
fn reduce(amount: usize, loss: usize) -> (r: usize)
    ensures
        r == reduced(amount, loss as nat),
{
    if amount <= loss {
        0
    } else {
        amount - loss
    }
}

/// Raises `amount` by `gain`, stopping at `cap`.
fn restore(amount: usize, gain: usize, cap: usize) -> (r: usize)
    ensures
        r == restored(amount, gain, cap),
{
    let raised: usize = amount.saturating_add(gain);
    if raised >= cap {
        cap
    } else {
        raised
    }
}

/// The score that `kills` destroyed hostiles are worth, as far as a `usize`
/// holds it.
fn kill_bonus(kills: usize) -> (r: usize)
    ensures
        r == capped(SCORE_PER_KILL as nat * kills as nat),
{
    if kills > usize::MAX / SCORE_PER_KILL {
        usize::MAX
    } else {
        SCORE_PER_KILL * kills
    }
}

/// Lets every pickup of `goodies` fall by one row.
fn drop_all(goodies: &mut Vec<Goodie>)
    ensures
        final(goodies)@ == all_fallen(old(goodies)@),
{
    let n: usize = goodies.len();
    let mut i: usize = 0;
    while i < n
        invariant
            goodies@.len() == n,
            n == old(goodies)@.len(),
            i <= n,
            forall|j: int| 0 <= j < i ==> goodies@[j] == old(goodies)@[j].fallen(),
            forall|j: int| i <= j < n ==> goodies@[j] == old(goodies)@[j],
        decreases n - i,
    {
        let mut goodie: Goodie = goodies[i];
        goodie.update();
        goodies.set(i, goodie);
        i += 1;
    }
    assert(goodies@ =~= all_fallen(old(goodies)@));
}

/// Lets every hostile of `enemies` fire and move at `frame`, where
/// `enemy_fire[i]` tells whether chance is on the side of hostile `i`. What
/// they fire joins `shots`.
fn advance_all(enemies: &mut Vec<Enemy>, frame: usize, enemy_fire: &Vec<bool>, shots: &mut Vec<Shot>)
    requires
        enemy_fire@.len() == old(enemies)@.len(),
    ensures
        final(enemies)@ == all_updated(old(enemies)@, frame),
        final(shots)@ == old(shots)@ + shots_fired(old(enemies)@, frame, enemy_fire@),
{
    let n: usize = enemies.len();
    let mut i: usize = 0;
    assert(shots@ =~= old(shots)@ + shots_fired(old(enemies)@.take(0), frame, enemy_fire@));
    while i < n
        invariant
            enemies@.len() == n,
            enemy_fire@.len() == n,
            n == old(enemies)@.len(),
            i <= n,
            forall|j: int| 0 <= j < i ==> enemies@[j] == old(enemies)@[j].after_update(frame),
            forall|j: int| i <= j < n ==> enemies@[j] == old(enemies)@[j],
            shots@ == old(shots)@ + shots_fired(old(enemies)@.take(i as int), frame, enemy_fire@),
        decreases n - i,
    {
        let mut enemy: Enemy = enemies[i];
        enemy.update_with(frame, enemy_fire[i], shots);
        enemies.set(i, enemy);
        proof {
            let next = old(enemies)@.take(i + 1);
            assert(next.drop_last() =~= old(enemies)@.take(i as int));
            assert(next.last() == old(enemies)@[i as int]);
            assert(shots@ =~= old(shots)@ + shots_fired(next, frame, enemy_fire@));
        }
        i += 1;
    }
    assert(old(enemies)@.take(n as int) =~= old(enemies)@);
    assert(enemies@ =~= all_updated(old(enemies)@, frame));
}

/// Destroys every hostile of `enemies` that stands at `pos`. Each leaves a
/// pickup there, of the kinds `drops[first]`, `drops[first + 1]` and so on.
/// Returns how many were destroyed.
fn destroy_at(
    enemies: &mut Vec<Enemy>,
    goodies: &mut Vec<Goodie>,
    pos: Position,
    drops: &Vec<GoodieType>,
    first: usize,
) -> (count: usize)
    requires
        first + old(enemies)@.len() <= drops@.len(),
    ensures
        final(enemies)@ == old(enemies)@.filter(without(stands_at(pos))),
        count == old(enemies)@.filter(stands_at(pos)).len(),
        final(goodies)@ == old(goodies)@ + dropped(pos, drops@, first as int, count as nat),
        final(enemies)@.len() + count == old(enemies)@.len(),
{
    let n: usize = enemies.len();
    let mut survivors: Vec<Enemy> = Vec::new();
    let mut count: usize = 0;
    let mut j: usize = 0;
    let available: usize = drops.len();
    assert(goodies@ =~= old(goodies)@ + dropped(pos, drops@, first as int, 0));
    while j < n
        invariant
            available == drops@.len(),
            enemies@ == old(enemies)@,
            n == enemies@.len(),
            j <= n,
            first + n <= drops@.len(),
            survivors@ == enemies@.take(j as int).filter(without(stands_at(pos))),
            count == enemies@.take(j as int).filter(stands_at(pos)).len(),
            survivors@.len() + count == j,
            goodies@ == old(goodies)@ + dropped(pos, drops@, first as int, count as nat),
        decreases n - j,
    {
        let enemy: Enemy = enemies[j];
        proof {
            lemma_filter_take_next(enemies@, stands_at(pos), j as int);
            lemma_filter_take_next(enemies@, without(stands_at(pos)), j as int);
        }
        if enemy.pos == pos {
            goodies.push(Goodie::new(enemy.pos, drops[first + count]));
            count += 1;
            assert(goodies@ =~= old(goodies)@ + dropped(pos, drops@, first as int, count as nat));
        } else {
            survivors.push(enemy);
        }
        j += 1;
    }
    assert(enemies@.take(n as int) =~= enemies@);
    *enemies = survivors;
    count
}

impl GameState {
    /// A new game on a field of the size `dimension`: the craft stands in the
    /// middle of the second row from the bottom, and the field is empty.
    pub fn new(dimension: Position) -> (r: GameState)
        requires
            dimension.x >= MIN_FIELD_WIDTH,
            dimension.y >= MIN_FIELD_HEIGHT,
        ensures
            r@ == GameView::initial(dimension),
            r@.wf(),
    {
        let ship = Ship::new(Position::new(dimension.x / 2, dimension.y - 2));
        GameState {
            dimension,
            ship,
            enemies: Vec::new(),
            enemy_shots: Vec::new(),
            goodies: Vec::new(),
            health: INITIAL_HEALTH,
            shield: INITIAL_SHIELD,
            score: 0,
            last_spawn: 0,
            spawn_interval: INITIAL_SPAWN_INTERVAL,
            last_spawn_speedup: 0,
        }
    }

    /// Is the game lost?
    pub fn is_game_over(&self) -> (r: bool)
        ensures
            r == self@.is_over(),
    {
        self.health == 0
    }

    /// How many cells the health bar shows.
    pub fn health_bar_cells(&self) -> (r: usize)
        ensures
            r == self@.health_bar_cells(),
    {
        self.health / HUD_HEALTH_GRANULARITY
    }

    /// How many cells the shield bar shows.
    pub fn shield_bar_cells(&self) -> (r: usize)
        ensures
            r == self@.shield_bar_cells(),
    {
        self.shield / HUD_SHIELD_GRANULARITY
    }

    /// Moves the craft by `dx` columns, unless that would take it out of the
    /// play area.
    pub fn move_ship_x(&mut self, dx: i32)
        ensures
            final(self)@ == old(self)@.move_ship_x(dx),
            old(self)@.wf() ==> final(self)@.wf(),
    {
        let max_x: i32 = if self.dimension.x < i32::MIN + 2 {
            i32::MIN
        } else {
            self.dimension.x - 2
        };
        self.ship.move_x(dx, max_x);
    }

    /// Moves the craft by `dy` rows, unless that would take it out of the
    /// play area.
    pub fn move_ship_y(&mut self, dy: i32)
        ensures
            final(self)@ == old(self)@.move_ship_y(dy),
            old(self)@.wf() ==> final(self)@.wf(),
    {
        self.ship.move_y(dy, self.dimension.y);
    }

    /// Turns the craft's firing by itself on or off.
    pub fn toggle_auto_shoot(&mut self)
        ensures
            final(self)@ == old(self)@.toggle_auto_shoot(),
            old(self)@.wf() ==> final(self)@.wf(),
    {
        self.ship.auto_shoot = !self.ship.auto_shoot;
    }

    /// Takes `direct_damage` from health, then `damage` from the shield if
    /// there is one and from health otherwise. Neither falls below zero.
    pub fn damage_ship(&mut self, damage: usize, direct_damage: usize)
        ensures
            final(self)@ == old(self)@.damage_ship(damage as nat, direct_damage as nat),
            old(self)@.wf() ==> final(self)@.wf(),
    {
        self.health = reduce(self.health, direct_damage);
        if self.shield > 0 {
            self.shield = reduce(self.shield, damage);
        } else {
            self.health = reduce(self.health, damage);
        }
    }

    /// Lets a hostile appear in column `column` if the pace allows one at
    /// `frame`.
    pub fn spawn_enemy(&mut self, frame: usize, column: i32)
        ensures
            final(self)@ == old(self)@.spawn_enemy(frame, column),
            old(self)@.wf() ==> final(self)@.wf(),
    {
        if is_due(self.last_spawn, self.spawn_interval, frame) {
            self.last_spawn = frame;
            self.enemies.push(
                Enemy::new(Position::new(column, BORDER_SIZE), Position::new(0, 1), ENEMY_SHOT_INTERVAL),
            );
        }
    }

    /// Shortens the time between two hostiles if that is due at `frame`.
    pub fn update_game_speed(&mut self, frame: usize)
        ensures
            final(self)@ == old(self)@.update_game_speed(frame),
            old(self)@.wf() ==> final(self)@.wf(),
            old(self)@.wf() ==> final(self).spawn_interval <= old(self).spawn_interval,
    {
        if is_due(self.last_spawn_speedup, SPEEDUP_AFTER_X_FRAMES, frame) {
            let shorter: usize = reduce(self.spawn_interval, SPAWN_INTERVAL_DECREASE);
            self.spawn_interval = if shorter <= MIN_SPAWN_INTERVAL {
                MIN_SPAWN_INTERVAL
            } else {
                shorter
            };
            self.last_spawn_speedup = frame;
        }
    }

    /// The hostiles' stage of a frame, with the outcomes of chance given:
    /// `enemy_fire[i]` tells whether chance lets hostile `i` fire.
    pub fn update_enemies(&mut self, frame: usize, enemy_fire: &Vec<bool>)
        requires
            enemy_fire@.len() == old(self).enemies@.len(),
        ensures
            final(self)@ == old(self)@.update_enemies(frame, enemy_fire@),
            old(self)@.wf() ==> final(self)@.wf(),
    {
        let ghost before = self@;
        advance_all(&mut self.enemies, frame, enemy_fire, &mut self.enemy_shots);
        let ghost arrived = self.enemies@;
        let n: usize = self.enemies.len();
        let ground: i64 = self.dimension.y as i64 - BORDER_SIZE as i64;
        let mut kept: Vec<Enemy> = Vec::new();
        let mut standard_damage: usize = 0;
        let mut direct_damage: usize = 0;
        let mut i: usize = 0;
        while i < n
            invariant
                self.enemies@ == arrived,
                self.ship@ == before.ship,
                self.dimension == before.dimension,
                ground == before.ground(),
                n == arrived.len(),
                i <= n,
                kept@ == arrived.take(i as int).filter(before.enemy_stays()),
                standard_damage == capped(
                    DMG_COLLISION as nat * arrived.take(i as int).filter(before.collides()).len(),
                ),
                direct_damage == capped(
                    DMG_ENEMY_REACHED_GROUND as nat * arrived.take(i as int).filter(before.breaches()).len(),
                ),
            decreases n - i,
        {
            let enemy: Enemy = self.enemies[i];
            proof {
                lemma_filter_take_next(arrived, before.enemy_stays(), i as int);
                lemma_filter_take_next(arrived, before.collides(), i as int);
                lemma_filter_take_next(arrived, before.breaches(), i as int);
            }
            if self.ship.is_hit_by(&enemy.pos) {
                standard_damage = standard_damage.saturating_add(DMG_COLLISION);
            } else if enemy.pos.y as i64 > ground {
                direct_damage = direct_damage.saturating_add(DMG_ENEMY_REACHED_GROUND);
            } else {
                kept.push(enemy);
            }
            i += 1;
        }
        assert(arrived.take(n as int) =~= arrived);
        self.enemies = kept;
        self.damage_ship(standard_damage, direct_damage);
    }

    /// The stage of the hostiles' projectiles.
    pub fn update_enemy_shots(&mut self)
        ensures
            final(self)@ == old(self)@.update_enemy_shots(),
            old(self)@.wf() ==> final(self)@.wf(),
    {
        let ghost before = self@;
        update_all(&mut self.enemy_shots);
        let ghost arrived = self.enemy_shots@;
        let n: usize = self.enemy_shots.len();
        let ground: i64 = self.dimension.y as i64 - BORDER_SIZE as i64;
        let mut kept: Vec<Shot> = Vec::new();
        let mut standard_damage: usize = 0;
        let mut i: usize = 0;
        while i < n
            invariant
                self.enemy_shots@ == arrived,
                self.ship@ == before.ship,
                ground == before.ground(),
                n == arrived.len(),
                i <= n,
                kept@ == arrived.take(i as int).filter(before.shot_stays()),
                standard_damage == capped(
                    DMG_SHOT_HIT as nat * arrived.take(i as int).filter(before.shot_strikes()).len(),
                ),
            decreases n - i,
        {
            let shot: Shot = self.enemy_shots[i];
            proof {
                lemma_filter_take_next(arrived, before.shot_stays(), i as int);
                lemma_filter_take_next(arrived, before.shot_strikes(), i as int);
            }
            if self.ship.is_hit_by(&shot.pos) {
                standard_damage = standard_damage.saturating_add(DMG_SHOT_HIT);
            } else if (shot.pos.y as i64) < ground {
                kept.push(shot);
            }
            i += 1;
        }
        assert(arrived.take(n as int) =~= arrived);
        self.enemy_shots = kept;
        self.damage_ship(standard_damage, 0);
    }

    /// Gives the craft what a pickup of the kind `goodie_type` holds.
    pub fn collect(&mut self, goodie_type: &GoodieType)
        ensures
            final(self)@.benefit() == old(self)@.benefit().with(*goodie_type),
            final(self)@ == (GameView {
                health: final(self).health,
                shield: final(self).shield,
                ship: old(self)@.ship.change_ship_type(final(self).ship.ship_type),
                ..old(self)@
            }),
    {
        match goodie_type {
            GoodieType::RepairKit(additional_health) => {
                self.health = restore(self.health, *additional_health, MAX_HEALTH);
            },
            GoodieType::ShieldBoost(additional_shield) => {
                self.shield = restore(self.shield, *additional_shield, MAX_SHIELD);
            },
            GoodieType::ShipUpgrade(new_ship_type) => {
                self.ship.change_ship_type(new_ship_type);
            },
        }
    }

    /// The pickups' stage.
    pub fn update_goodies(&mut self)
        ensures
            final(self)@ == old(self)@.update_goodies(),
            old(self)@.wf() ==> final(self)@.wf(),
    {
        let ghost before = self@;
        drop_all(&mut self.goodies);
        let ghost arrived = self.goodies@;
        let n: usize = self.goodies.len();
        let ground: i64 = self.dimension.y as i64 - BORDER_SIZE as i64;
        let mut kept: Vec<Goodie> = Vec::new();
        let mut i: usize = 0;
        while i < n
            invariant
                self.goodies@ == arrived,
                ground == before.ground(),
                n == arrived.len(),
                i <= n,
                kept@ == arrived.take(i as int).filter(before.goodie_stays()),
                self@.benefit() == before.benefit().with_all(
                    arrived.take(i as int).filter(before.goodie_collected()),
                ),
                self@ == (GameView {
                    goodies: arrived,
                    health: self.health,
                    shield: self.shield,
                    ship: before.ship.change_ship_type(self.ship.ship_type),
                    ..before
                }),
                before.wf() ==> self.health <= MAX_HEALTH && self.shield <= MAX_SHIELD,
            decreases n - i,
        {
            let goodie: Goodie = self.goodies[i];
            proof {
                lemma_filter_take_next(arrived, before.goodie_stays(), i as int);
                lemma_filter_take_next(arrived, before.goodie_collected(), i as int);
            }
            if self.ship.is_hit_by(&goodie.pos) {
                proof {
                    let so_far = arrived.take(i as int).filter(before.goodie_collected());
                    assert(so_far.push(goodie).drop_last() =~= so_far);
                }
                self.collect(&goodie.goodie_type);
            } else if (goodie.pos.y as i64) < ground {
                kept.push(goodie);
            }
            i += 1;
        }
        assert(arrived.take(n as int) =~= arrived);
        self.goodies = kept;
    }

    /// The stage of the craft's projectiles, with the outcomes of chance
    /// given: `drops` holds the kinds of the pickups that destroyed hostiles
    /// leave, in the order in which the hostiles are destroyed.
    pub fn update_ship_shots(&mut self, drops: &Vec<GoodieType>)
        requires
            drops@.len() >= old(self).enemies@.len(),
        ensures
            final(self)@ == old(self)@.update_ship_shots(drops@),
            old(self)@.wf() ==> final(self)@.wf(),
    {
        let ghost before = self@;
        let n: usize = self.ship.shots.len();
        let mut kept: Vec<Shot> = Vec::new();
        let mut kills: usize = 0;
        let mut partial_score: usize = 0;
        let mut i: usize = 0;
        let available: usize = drops.len();
        while i < n
            invariant
                available == drops@.len(),
                n == before.ship.shots.len(),
                i <= n,
                self@ == (GameView { enemies: self.enemies@, goodies: self.goodies@, ..before }),
                (Sweep {
                    enemies: self.enemies@,
                    goodies: self.goodies@,
                    kept: kept@,
                    kills: kills as nat,
                }) == before.sweep_start().resolve_all(
                    before.ship.shots.take(i as int),
                    before.dimension.x,
                    drops@,
                ),
                self.enemies@.len() + kills == before.enemies.len(),
                before.enemies.len() <= drops@.len(),
                partial_score == capped(SCORE_PER_KILL as nat * kills as nat),
            decreases n - i,
        {
            let shot: Shot = self.ship.shots[i];
            proof {
                let next = before.ship.shots.take(i + 1);
                assert(next.drop_last() =~= before.ship.shots.take(i as int));
                assert(next.last() == shot);
            }
            if !(shot.pos.y == 0 || shot.pos.x == 0 || shot.pos.x == self.dimension.x) {
                let destroyed: usize = destroy_at(
                    &mut self.enemies,
                    &mut self.goodies,
                    shot.pos,
                    drops,
                    kills,
                );
                kills += destroyed;
                partial_score = partial_score.saturating_add(kill_bonus(destroyed));
                if destroyed == 0 || shot.is_piercing() {
                    kept.push(shot);
                }
            }
            i += 1;
        }
        assert(before.ship.shots.take(n as int) =~= before.ship.shots);
        self.ship.shots = kept;
        self.score = self.score.saturating_add(partial_score);
    }

    /// One frame, with the outcomes of chance given: the stages in their
    /// order, each taking from `rolls` what it leaves to chance.
    pub fn update_with(&mut self, frame: usize, rolls: &FrameRolls)
        requires
            rolls.enemy_fire@.len() == old(self).enemies@.len(),
            rolls.drops@.len() > old(self).enemies@.len(),
        ensures
            final(self)@ == old(self)@.update(frame, rolls@),
            old(self)@.wf() ==> final(self)@.wf(),
    {
        self.ship.update(frame);
        proof {
            let shipped = self@;
            lemma_filter_splits(all_updated(shipped.enemies, frame), shipped.enemy_stays());
        }
        self.update_enemies(frame, &rolls.enemy_fire);
        self.update_enemy_shots();
        self.update_goodies();
        self.spawn_enemy(frame, rolls.spawn_column);
        self.update_ship_shots(&rolls.drops);
        self.update_game_speed(frame);
    }

    /// Lets chance decide what a frame leaves to it. Chance is asked for a
    /// hostile's fire only where its cadence allows a shot, and for a column
    /// only where a hostile is due to appear.
    pub fn draw_rolls(&self, frame: usize) -> (rolls: FrameRolls)
        requires
            self.dimension.x >= MIN_FIELD_WIDTH,
        ensures
            self@.admits(frame, rolls@),
    {
        let n: usize = self.enemies.len();
        let mut enemy_fire: Vec<bool> = Vec::new();
        let mut i: usize = 0;
        while i < n
            invariant
                n == self.enemies@.len(),
                i <= n,
                enemy_fire@.len() == i,
                forall|j: int|
                    0 <= j < i && #[trigger] enemy_fire@[j] ==> self.enemies@[j].can_shoot(frame),
            decreases n - i,
        {
            enemy_fire.push(draw_chance(&self.enemies[i], frame));
            i += 1;
        }
        let spawn_column: i32 = if is_due(self.last_spawn, self.spawn_interval, frame) {
            random_in_range(SPAWN_MARGIN, self.dimension.x - SPAWN_MARGIN)
        } else {
            SPAWN_MARGIN
        };
        let mut drops: Vec<GoodieType> = Vec::new();
        while drops.len() <= n
            invariant
                forall|k: int| 0 <= k < drops@.len() ==> (#[trigger] drops@[k]).can_be_drawn(),
            decreases n + 1 - drops@.len(),
        {
            drops.push(GoodieType::random());
        }
        FrameRolls { enemy_fire, spawn_column, drops }
    }

    /// One frame. Chance decides which hostiles fire, where a new one
    /// appears and what the destroyed ones drop; whatever it decides, the
    /// frame is the one that the stages make of it.
    pub fn update(&mut self, frame: usize)
        requires
            old(self).dimension.x >= MIN_FIELD_WIDTH,
        ensures
            exists|chances: Chances|
                old(self)@.admits(frame, chances) && final(self)@ == #[trigger] old(self)@.update(
                    frame,
                    chances,
                ),
            old(self)@.wf() ==> final(self)@.wf(),
    {
        let rolls: FrameRolls = self.draw_rolls(frame);
        self.update_with(frame, &rolls);
    }
}

} // verus!
