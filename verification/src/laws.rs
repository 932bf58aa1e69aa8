//! What holds of every game, whatever the player does and whatever chance
//! decides.

use crate::constant::{MAX_HEALTH, MAX_SHIELD, MIN_SPAWN_INTERVAL, SCORE_PER_KILL};
use crate::enemy::Enemy;
use crate::game_model::{
    all_fallen, all_updated, is_spent, stands_at, Benefit, Chances, GameView, Sweep,
};
use crate::goodie::{Goodie, GoodieType};
use crate::input::{after_holds, after_presses, commanded, Command, Key};
use crate::sequence::{
    lemma_filter_members, lemma_filter_push, lemma_filter_splits, lemma_none_pass, without,
};
use crate::ship::{volley, ShipView};
use crate::shot::{all_moved, Shot};
use vstd::prelude::*;

verus! {

/// What the player and chance do in one frame.
pub struct Turn {
    /// The keys pressed since the frame before.
    pub pressed: Seq<Key>,
    /// The keys held down.
    pub down: Seq<Key>,
    /// The number of the frame.
    pub frame: usize,
    /// What chance decides.
    pub chances: Chances,
}

/// The game after one turn: the keys are handled first, then the frame runs.
pub open spec fn after_turn(game: GameView, turn: Turn) -> GameView {
    after_holds(after_presses(game, turn.pressed), turn.down).update(turn.frame, turn.chances)
}

/// The game after the turns `turns`, one after another.
pub open spec fn after_turns(game: GameView, turns: Seq<Turn>) -> GameView
    decreases turns.len(),
{
    if turns.len() == 0 {
        game
    } else {
        after_turn(after_turns(game, turns.drop_last()), turns.last())
    }
}

/// The craft of a game in play stands inside the border: no further left
/// than column 1, with its last column no further right than the last column
/// inside the border, and between row 1 and the last row inside the border.
pub proof fn lemma_craft_inside_field(game: GameView)
    requires
        game.wf(),
    ensures
        1 <= game.ship.pos.x <= game.dimension.x - 2,
        1 <= game.ship.pos.y <= game.dimension.y - 1,
{
}

/// Health and shield of a game in play lie between zero and their limits.
pub proof fn lemma_vitals_within_limits(game: GameView)
    requires
        game.wf(),
    ensures
        0 <= game.health <= MAX_HEALTH,
        0 <= game.shield <= MAX_SHIELD,
{
}

/// No command takes the game out of play.
pub proof fn lemma_command_keeps_wf(game: GameView, command: Option<Command>)
    requires
        game.wf(),
    ensures
        commanded(game, command).wf(),
        commanded(game, command).spawn_interval == game.spawn_interval,
        commanded(game, command).score == game.score,
        commanded(game, command).health == game.health,
        commanded(game, command).shield == game.shield,
{
}

/// No sequence of pressed keys takes the game out of play, nor changes what
/// only a frame changes.
pub proof fn lemma_presses_keep_wf(game: GameView, keys: Seq<Key>)
    requires
        game.wf(),
    ensures
        after_presses(game, keys).wf(),
        after_presses(game, keys).spawn_interval == game.spawn_interval,
        after_presses(game, keys).score == game.score,
        after_presses(game, keys).health == game.health,
        after_presses(game, keys).shield == game.shield,
    decreases keys.len(),
{
    if keys.len() > 0 {
        lemma_presses_keep_wf(game, keys.drop_last());
        lemma_command_keeps_wf(
            after_presses(game, keys.drop_last()),
            Command::on_press(keys.last()),
        );
    }
}

/// No sequence of keys held down takes the game out of play, nor changes
/// what only a frame changes.
pub proof fn lemma_holds_keep_wf(game: GameView, keys: Seq<Key>)
    requires
        game.wf(),
    ensures
        after_holds(game, keys).wf(),
        after_holds(game, keys).spawn_interval == game.spawn_interval,
        after_holds(game, keys).score == game.score,
        after_holds(game, keys).health == game.health,
        after_holds(game, keys).shield == game.shield,
    decreases keys.len(),
{
    if keys.len() > 0 {
        lemma_holds_keep_wf(game, keys.drop_last());
        lemma_command_keeps_wf(
            after_holds(game, keys.drop_last()),
            Command::while_down(keys.last()),
        );
    }
}

/// Pickups never raise health or shield above their limits.
pub proof fn lemma_benefit_within_limits(benefit: Benefit, goodies: Seq<Goodie>)
    requires
        benefit.health <= MAX_HEALTH,
        benefit.shield <= MAX_SHIELD,
    ensures
        benefit.with_all(goodies).health <= MAX_HEALTH,
        benefit.with_all(goodies).shield <= MAX_SHIELD,
    decreases goodies.len(),
{
    if goodies.len() > 0 {
        lemma_benefit_within_limits(benefit, goodies.drop_last());
    }
}

/// Damage never raises health or shield, and never takes either below zero.
pub proof fn lemma_damage_only_lowers(game: GameView, damage: nat, direct: nat)
    ensures
        0 <= game.damage_ship(damage, direct).health <= game.health,
        0 <= game.damage_ship(damage, direct).shield <= game.shield,
{
}

/// Damage that no shield stops is taken from health alone; the other damage
/// is taken from the shield alone while there is a shield, however small.
pub proof fn lemma_damage_order(game: GameView, damage: nat, direct: nat)
    requires
        game.shield > 0,
    ensures
        game.damage_ship(damage, direct).health == if game.health <= direct {
            0
        } else {
            game.health - direct
        },
        game.damage_ship(damage, direct).shield == if game.shield <= damage {
            0
        } else {
            game.shield - damage
        },
{
}

/// The pass of the craft's projectiles leaves the rest of the game alone and
/// never destroys more hostiles than there were.
pub proof fn lemma_sweep_counts(sweep: Sweep, shots: Seq<Shot>, width: i32, drops: Seq<GoodieType>)
    ensures
        sweep.resolve_all(shots, width, drops).kills >= sweep.kills,
        sweep.resolve_all(shots, width, drops).enemies.len() + sweep.resolve_all(
            shots,
            width,
            drops,
        ).kills == sweep.enemies.len() + sweep.kills,
    decreases shots.len(),
{
    if shots.len() > 0 {
        lemma_sweep_counts(sweep, shots.drop_last(), width, drops);
        let before = sweep.resolve_all(shots.drop_last(), width, drops);
        lemma_filter_splits(before.enemies, stands_at(shots.last().pos));
    }
}

/// A frame keeps a game in play in play: the craft stays inside the field,
/// health and shield within their limits, and the time between two hostiles
/// at or above the fastest pace.
pub proof fn lemma_frame_keeps_wf(game: GameView, frame: usize, chances: Chances)
    requires
        game.wf(),
    ensures
        game.update(frame, chances).wf(),
{
    let shipped = game.update_ship(frame);
    let fought = shipped.update_enemies(frame, chances.enemy_fire);
    let shelled = fought.update_enemy_shots();
    let gathered = shelled.update_goodies();
    assert(shipped.wf());
    assert(fought.wf());
    assert(shelled.wf());
    lemma_benefit_within_limits(
        shelled.benefit(),
        all_fallen(shelled.goodies).filter(shelled.goodie_collected()),
    );
    assert(gathered.wf());
    let spawned = gathered.spawn_enemy(frame, chances.spawn_column);
    assert(spawned.wf());
    let swept = spawned.update_ship_shots(chances.drops);
    assert(swept.wf());
}

/// A frame never lengthens the time between two hostiles, and never takes it
/// below the fastest pace.
pub proof fn lemma_spawn_interval_never_grows(game: GameView, frame: usize, chances: Chances)
    requires
        game.wf(),
    ensures
        MIN_SPAWN_INTERVAL <= game.update(frame, chances).spawn_interval <= game.spawn_interval,
{
    lemma_frame_keeps_wf(game, frame, chances);
}

/// A frame never lowers the score.
pub proof fn lemma_score_never_falls(game: GameView, frame: usize, chances: Chances)
    ensures
        game.update(frame, chances).score >= game.score,
{
}

/// A frame never raises health but by pickups: without pickups on the field,
/// health and shield do not rise.
pub proof fn lemma_vitals_fall_without_pickups(game: GameView, frame: usize, chances: Chances)
    requires
        game.goodies.len() == 0,
    ensures
        game.update(frame, chances).health <= game.health,
        game.update(frame, chances).shield <= game.shield,
{
    let shelled = game.update_ship(frame).update_enemies(frame, chances.enemy_fire)
        .update_enemy_shots();
    let arrived = all_fallen(shelled.goodies);
    assert(arrived.len() == 0);
    assert(arrived.filter(shelled.goodie_collected()).len() == 0) by {
        reveal(Seq::filter);
    }
}

/// Whatever the player does and whatever chance decides, for any number of
/// turns: the game stays in play, so the craft stays inside the field and
/// health and shield within their limits; the time between two hostiles never
/// grows and never falls below the fastest pace; and the score never falls.
pub proof fn lemma_play_keeps_wf(game: GameView, turns: Seq<Turn>)
    requires
        game.wf(),
    ensures
        after_turns(game, turns).wf(),
        MIN_SPAWN_INTERVAL <= after_turns(game, turns).spawn_interval <= game.spawn_interval,
        after_turns(game, turns).score >= game.score,
    decreases turns.len(),
{
    if turns.len() > 0 {
        lemma_play_keeps_wf(game, turns.drop_last());
        let before = after_turns(game, turns.drop_last());
        let turn = turns.last();
        lemma_presses_keep_wf(before, turn.pressed);
        let pressed = after_presses(before, turn.pressed);
        lemma_holds_keep_wf(pressed, turn.down);
        let handled = after_holds(pressed, turn.down);
        lemma_frame_keeps_wf(handled, turn.frame, turn.chances);
        lemma_spawn_interval_never_grows(handled, turn.frame, turn.chances);
        lemma_score_never_falls(handled, turn.frame, turn.chances);
    }
}

/// The time between two hostiles only shrinks as the game goes on: after
/// more turns it is no longer than after fewer.
pub proof fn lemma_spawn_interval_monotone(game: GameView, turns: Seq<Turn>, earlier: int)
    requires
        game.wf(),
        0 <= earlier <= turns.len(),
    ensures
        after_turns(game, turns).spawn_interval <= after_turns(game, turns.take(earlier))
            .spawn_interval,
    decreases turns.len() - earlier,
{
    if earlier == turns.len() {
        assert(turns.take(earlier) =~= turns);
    } else {
        lemma_spawn_interval_monotone(game, turns.drop_last(), earlier);
        assert(turns.drop_last().take(earlier) =~= turns.take(earlier));
        lemma_play_keeps_wf(game, turns.drop_last());
        let before = after_turns(game, turns.drop_last());
        let turn = turns.last();
        lemma_presses_keep_wf(before, turn.pressed);
        let pressed = after_presses(before, turn.pressed);
        lemma_holds_keep_wf(pressed, turn.down);
        lemma_spawn_interval_never_grows(after_holds(pressed, turn.down), turn.frame, turn.chances);
    }
}

/// A craft that has just fired does not fire again while its cadence lasts:
/// a second attempt within that time changes nothing, so one volley is all
/// there is.
pub proof fn lemma_one_volley_within_cadence(ship: ShipView, first: usize, second: usize)
    requires
        ship.can_shoot(first),
        first <= second <= first + ship.shot_interval,
    ensures
        ship.shoot(first).shoot(second) == ship.shoot(first),
        ship.shoot(first).shots == ship.shots + volley(ship.pos, ship.ship_type),
{
}

/// A craft that has just fired fires again at the first frame after its
/// cadence has passed, and at any later one: then a second volley follows the
/// first.
pub proof fn lemma_second_volley_after_cadence(ship: ShipView, first: usize, second: usize)
    requires
        ship.can_shoot(first),
        second > first + ship.shot_interval,
    ensures
        ship.shoot(first).can_shoot(second),
        ship.shoot(first).shoot(second).shots == ship.shots + volley(ship.pos, ship.ship_type)
            + volley(ship.pos, ship.ship_type),
        ship.shoot(first).shoot(second).last_shot_frame == second,
{
}

/// A projectile of the craft that meets exactly one hostile in its cell
/// destroys that hostile and no other, and the hostile leaves one pickup
/// where it stood.
pub proof fn lemma_one_hit_one_kill(sweep: Sweep, shot: Shot, width: i32, drops: Seq<GoodieType>)
    requires
        !is_spent(shot, width),
        sweep.enemies.filter(stands_at(shot.pos)).len() == 1,
    ensures
        sweep.resolve(shot, width, drops).kills == sweep.kills + 1,
        sweep.resolve(shot, width, drops).enemies.len() == sweep.enemies.len() - 1,
        sweep.resolve(shot, width, drops).enemies == sweep.enemies.filter(
            without(stands_at(shot.pos)),
        ),
        sweep.resolve(shot, width, drops).goodies == sweep.goodies.push(
            Goodie { pos: shot.pos, goodie_type: drops[sweep.kills as int] },
        ),
{
    lemma_filter_splits(sweep.enemies, stands_at(shot.pos));
    assert(sweep.resolve(shot, width, drops).goodies =~= sweep.goodies.push(
        Goodie { pos: shot.pos, goodie_type: drops[sweep.kills as int] },
    ));
}

/// With one projectile of the craft in flight that meets exactly one hostile
/// in its cell, however many hostiles stand in other cells: the stage of the
/// craft's projectiles raises the score by exactly the bonus for one kill and
/// removes exactly one hostile.
pub proof fn lemma_kill_scores_once(game: GameView, drops: Seq<GoodieType>)
    requires
        game.ship.shots.len() == 1,
        !is_spent(game.ship.shots[0], game.dimension.x),
        game.enemies.filter(stands_at(game.ship.shots[0].pos)).len() == 1,
        game.score + SCORE_PER_KILL <= usize::MAX,
    ensures
        game.update_ship_shots(drops).score == game.score + SCORE_PER_KILL,
        game.update_ship_shots(drops).enemies.len() == game.enemies.len() - 1,
        game.update_ship_shots(drops).enemies == game.enemies.filter(
            without(stands_at(game.ship.shots[0].pos)),
        ),
{
    let shots = game.ship.shots;
    let start = game.sweep_start();
    assert(shots.drop_last().len() == 0);
    assert(start.resolve_all(shots.drop_last(), game.dimension.x, drops) == start);
    assert(shots.last() == shots[0]);
    assert(start.resolve_all(shots, game.dimension.x, drops) == start.resolve(
        shots[0],
        game.dimension.x,
        drops,
    ));
    lemma_one_hit_one_kill(start, shots[0], game.dimension.x, drops);
}

/// Every hostile that has moved is judged once: it runs into the craft, or
/// it gets below the play area, or it stays on the field, and never two of
/// these.
pub proof fn lemma_each_hostile_judged_once(game: GameView, enemies: Seq<Enemy>)
    ensures
        enemies.filter(game.collides()).len() + enemies.filter(game.breaches()).len()
            + enemies.filter(game.enemy_stays()).len() == enemies.len(),
    decreases enemies.len(),
{
    if enemies.len() == 0 {
        reveal(Seq::filter);
    } else {
        lemma_each_hostile_judged_once(game, enemies.drop_last());
        assert(enemies.drop_last().push(enemies.last()) =~= enemies);
        lemma_filter_push(enemies.drop_last(), game.collides(), enemies.last());
        lemma_filter_push(enemies.drop_last(), game.breaches(), enemies.last());
        lemma_filter_push(enemies.drop_last(), game.enemy_stays(), enemies.last());
    }
}

/// After the hostiles' stage no hostile that is left on the field touches
/// the craft or lies below the play area: one that did has left the field in
/// the stage that took its damage, so its damage is never taken again.
pub proof fn lemma_no_hostile_judged_twice(game: GameView, frame: usize, enemy_fire: Seq<bool>)
    ensures
        forall|k: int|
            0 <= k < game.update_enemies(frame, enemy_fire).enemies.len() ==> {
                let enemy = #[trigger] game.update_enemies(frame, enemy_fire).enemies[k];
                !game.collides()(enemy) && !game.breaches()(enemy)
            },
        game.update_enemies(frame, enemy_fire).enemies.filter(game.collides()).len() == 0,
        game.update_enemies(frame, enemy_fire).enemies.filter(game.breaches()).len() == 0,
{
    let arrived = all_updated(game.enemies, frame);
    let left = game.update_enemies(frame, enemy_fire).enemies;
    assert(left == arrived.filter(game.enemy_stays()));
    lemma_filter_members(arrived, game.enemy_stays());
    lemma_none_pass(left, game.collides());
    lemma_none_pass(left, game.breaches());
}

/// After the stage of the hostiles' projectiles none that is left on the
/// field strikes the craft or has reached the ground: one that did has left
/// in the stage that took its damage.
pub proof fn lemma_no_shot_outstays(game: GameView)
    ensures
        forall|k: int|
            0 <= k < game.update_enemy_shots().enemy_shots.len() ==> {
                let shot = #[trigger] game.update_enemy_shots().enemy_shots[k];
                !game.ship.is_hit_by(shot.pos) && shot.pos.y < game.ground()
            },
{
    lemma_filter_members(all_moved(game.enemy_shots), game.shot_stays());
}

/// After the pickups' stage none that is left on the field touches the craft
/// or has reached the ground: the craft has collected every one that reached
/// it, and collects none twice.
pub proof fn lemma_no_pickup_outstays(game: GameView)
    ensures
        forall|k: int|
            0 <= k < game.update_goodies().goodies.len() ==> {
                let goodie = #[trigger] game.update_goodies().goodies[k];
                !game.ship.is_hit_by(goodie.pos) && goodie.pos.y < game.ground()
            },
{
    lemma_filter_members(all_fallen(game.goodies), game.goodie_stays());
}

} // verus!
