use space_shooter::constant::{
    CHAR_SHOT_ENEMY, CHAR_SHOT_SHIP_BASIC, CHAR_SHOT_SHIP_STRONG, GAME_HEIGHT, GAME_WIDTH,
    MAX_HEALTH, MAX_SHIELD, MIN_SPAWN_INTERVAL,
};
use space_shooter::enemy::Enemy;
use space_shooter::game_state::{FrameRolls, GameState};
use space_shooter::goodie::{Goodie, GoodieType};
use space_shooter::input::{apply_command, handle_user_input, Command, Key};
use space_shooter::position::Position;
use space_shooter::ship::ShipType;
use space_shooter::shot::Shot;

fn at(x: i32, y: i32) -> Position {
    Position::new(x, y)
}

fn new_game() -> GameState {
    GameState::new(at(GAME_WIDTH, GAME_HEIGHT))
}

fn hostile(x: i32, y: i32) -> Enemy {
    Enemy::new(at(x, y), at(0, 1), 20)
}

fn up_shot(x: i32, y: i32, character: char) -> Shot {
    Shot::new(at(x, y), at(0, -1), character)
}

fn quiet_rolls(game: &GameState) -> FrameRolls {
    FrameRolls {
        enemy_fire: vec![false; game.enemies.len()],
        spawn_column: 10,
        drops: vec![GoodieType::RepairKit(5); game.enemies.len() + 1],
    }
}

#[test]
fn new_game_starts_full_and_empty() {
    let game = new_game();
    assert_eq!(game.dimension, at(60, 32));
    assert_eq!(game.ship.pos, at(30, 30));
    assert_eq!(game.ship.ship_type, ShipType::Basic);
    assert!(game.enemies.is_empty());
    assert!(game.enemy_shots.is_empty());
    assert!(game.goodies.is_empty());
    assert_eq!(game.health, 100);
    assert_eq!(game.shield, 0);
    assert_eq!(game.score, 0);
    assert_eq!(game.last_spawn, 0);
    assert_eq!(game.spawn_interval, 40);
    assert_eq!(game.last_spawn_speedup, 0);
    assert!(!game.is_game_over());
}

#[test]
fn smallest_field_places_the_craft_inside() {
    let game = GameState::new(at(11, 3));
    assert_eq!(game.ship.pos, at(5, 1));
}

#[test]
fn damage_ordering_shield_absorbs_standard_damage() {
    let mut game = new_game();
    game.shield = 20;
    game.health = 100;
    game.damage_ship(30, 15);
    assert_eq!(game.health, 85);
    assert_eq!(game.shield, 0);
}

#[test]
fn damage_ordering_small_shield_still_absorbs_all() {
    let mut game = new_game();
    game.shield = 10;
    game.health = 100;
    game.damage_ship(30, 15);
    assert_eq!(game.health, 85);
    assert_eq!(game.shield, 0);
}

#[test]
fn damage_without_shield_goes_to_health() {
    let mut game = new_game();
    game.shield = 0;
    game.damage_ship(30, 15);
    assert_eq!(game.health, 55);
    assert_eq!(game.shield, 0);
}

#[test]
fn damage_leaves_part_of_a_large_shield() {
    let mut game = new_game();
    game.shield = 50;
    game.damage_ship(30, 0);
    assert_eq!(game.health, 100);
    assert_eq!(game.shield, 20);
}

#[test]
fn damage_floors_at_zero() {
    let mut game = new_game();
    game.damage_ship(0, 250);
    assert_eq!(game.health, 0);
    assert!(game.is_game_over());
    let mut game = new_game();
    game.damage_ship(usize::MAX, usize::MAX);
    assert_eq!(game.health, 0);
    assert_eq!(game.shield, 0);
    let mut game = new_game();
    game.shield = 1;
    game.damage_ship(usize::MAX, 0);
    assert_eq!(game.health, 100);
    assert_eq!(game.shield, 0);
}

#[test]
fn craft_stays_inside_the_field_whatever_the_moves() {
    let mut game = new_game();
    for _ in 0..100 {
        game.move_ship_x(-2);
        assert!(game.ship.pos.x >= 1 && game.ship.pos.x <= 58);
    }
    assert_eq!(game.ship.pos, at(2, 30));
    for _ in 0..100 {
        game.move_ship_x(2);
        assert!(game.ship.pos.x >= 1 && game.ship.pos.x <= 58);
    }
    assert_eq!(game.ship.pos, at(56, 30));
    game.move_ship_x(1);
    assert_eq!(game.ship.pos, at(57, 30));
    game.move_ship_x(1);
    assert_eq!(game.ship.pos, at(57, 30));
    for _ in 0..100 {
        game.move_ship_y(-1);
        assert!(game.ship.pos.y >= 1 && game.ship.pos.y <= 31);
    }
    assert_eq!(game.ship.pos, at(57, 2));
    for _ in 0..100 {
        game.move_ship_y(1);
        assert!(game.ship.pos.y >= 1 && game.ship.pos.y <= 31);
    }
    assert_eq!(game.ship.pos, at(57, 31));
}

#[test]
fn craft_stays_inside_the_field_after_every_frame() {
    let mut game = new_game();
    let keys = [Key::A, Key::W, Key::D, Key::S, Key::D, Key::D, Key::S, Key::A];
    for frame in 1..=400usize {
        let down = vec![keys[frame % keys.len()], keys[(frame / 3) % keys.len()]];
        handle_user_input(&mut game, &Vec::new(), &down);
        let rolls = quiet_rolls(&game);
        game.update_with(frame, &rolls);
        assert!(game.ship.pos.x >= 1 && game.ship.pos.x <= 60 - 2);
        assert!(game.ship.pos.y >= 1 && game.ship.pos.y <= 32 - 1);
    }
}

#[test]
fn hostiles_stage_removes_colliding_and_breaching_hostiles() {
    let mut game = new_game();
    game.enemies = vec![hostile(30, 29), hostile(10, 31), hostile(20, 5)];
    game.update_enemies(11, &vec![false, false, false]);
    assert_eq!(game.enemies.len(), 1);
    assert_eq!(game.enemies[0].pos, at(20, 6));
    assert_eq!(game.health, 35);
    assert_eq!(game.shield, 0);
    assert!(game.enemy_shots.is_empty());
}

#[test]
fn hostiles_stage_collision_is_absorbed_by_the_shield() {
    let mut game = new_game();
    game.shield = 20;
    game.enemies = vec![hostile(32, 29), hostile(10, 31)];
    game.update_enemies(11, &vec![false, false]);
    assert!(game.enemies.is_empty());
    assert_eq!(game.health, 85);
    assert_eq!(game.shield, 0);
}

#[test]
fn hostiles_stage_before_the_cadence_moves_nothing() {
    let mut game = new_game();
    game.enemies = vec![hostile(30, 29), hostile(10, 31)];
    game.update_enemies(10, &vec![true, true]);
    assert_eq!(game.enemies.len(), 2);
    assert_eq!(game.enemies[0].pos, at(30, 29));
    assert_eq!(game.enemies[1].pos, at(10, 31));
    assert_eq!(game.health, 100);
    assert!(game.enemy_shots.is_empty());
}

#[test]
fn hostiles_stage_collects_what_the_hostiles_fire() {
    let mut game = new_game();
    game.enemies = vec![hostile(5, 3), hostile(9, 4), hostile(14, 5)];
    game.enemy_shots = vec![Shot::new(at(1, 1), at(0, 1), CHAR_SHOT_ENEMY)];
    game.update_enemies(21, &vec![true, false, true]);
    assert_eq!(
        game.enemy_shots,
        vec![
            Shot::new(at(1, 1), at(0, 1), CHAR_SHOT_ENEMY),
            Shot::new(at(5, 3), at(0, 1), CHAR_SHOT_ENEMY),
            Shot::new(at(14, 5), at(0, 1), CHAR_SHOT_ENEMY),
        ]
    );
    assert_eq!(game.enemies[0].pos, at(5, 4));
    assert_eq!(game.enemies[1].pos, at(9, 5));
    assert_eq!(game.enemies[1].last_shot_frame, 21);
    assert_eq!(game.enemies[2].pos, at(14, 6));
}

#[test]
fn hostile_shots_stage_sums_the_hits() {
    let mut game = new_game();
    game.enemy_shots = vec![
        Shot::new(at(30, 29), at(0, 1), CHAR_SHOT_ENEMY),
        Shot::new(at(5, 10), at(0, 1), CHAR_SHOT_ENEMY),
        Shot::new(at(32, 29), at(0, 1), CHAR_SHOT_ENEMY),
        Shot::new(at(5, 30), at(0, 1), CHAR_SHOT_ENEMY),
        Shot::new(at(33, 29), at(0, 1), CHAR_SHOT_ENEMY),
    ];
    game.update_enemy_shots();
    assert_eq!(
        game.enemy_shots,
        vec![
            Shot::new(at(5, 11), at(0, 1), CHAR_SHOT_ENEMY),
            Shot::new(at(33, 30), at(0, 1), CHAR_SHOT_ENEMY),
        ]
    );
    assert_eq!(game.health, 90);
}

#[test]
fn hostile_shots_hit_the_shield_first() {
    let mut game = new_game();
    game.shield = 3;
    game.enemy_shots = vec![
        Shot::new(at(30, 29), at(0, 1), CHAR_SHOT_ENEMY),
        Shot::new(at(31, 29), at(0, 1), CHAR_SHOT_ENEMY),
    ];
    game.update_enemy_shots();
    assert!(game.enemy_shots.is_empty());
    assert_eq!(game.shield, 0);
    assert_eq!(game.health, 100);
}

#[test]
fn collect_restores_up_to_the_limits() {
    let mut game = new_game();
    game.health = 50;
    game.collect(&GoodieType::RepairKit(5));
    assert_eq!(game.health, 55);
    game.health = 98;
    game.collect(&GoodieType::RepairKit(5));
    assert_eq!(game.health, MAX_HEALTH);
    game.collect(&GoodieType::ShieldBoost(10));
    assert_eq!(game.shield, 10);
    game.shield = 95;
    game.collect(&GoodieType::ShieldBoost(10));
    assert_eq!(game.shield, MAX_SHIELD);
    game.collect(&GoodieType::RepairKit(usize::MAX));
    assert_eq!(game.health, 100);
    game.collect(&GoodieType::ShipUpgrade(ShipType::DiagonalShot));
    assert_eq!(game.ship.ship_type, ShipType::DiagonalShot);
    assert_eq!(game.health, 100);
    assert_eq!(game.shield, 100);
}

#[test]
fn pickups_stage_collects_and_drops_out() {
    let mut game = new_game();
    game.health = 50;
    game.goodies = vec![
        Goodie::new(at(30, 29), GoodieType::RepairKit(5)),
        Goodie::new(at(4, 30), GoodieType::ShieldBoost(10)),
        Goodie::new(at(31, 29), GoodieType::ShieldBoost(10)),
        Goodie::new(at(8, 12), GoodieType::RepairKit(5)),
        Goodie::new(at(32, 29), GoodieType::ShipUpgrade(ShipType::StrongShot)),
    ];
    game.update_goodies();
    assert_eq!(game.goodies, vec![Goodie::new(at(8, 13), GoodieType::RepairKit(5))]);
    assert_eq!(game.health, 55);
    assert_eq!(game.shield, 10);
    assert_eq!(game.ship.ship_type, ShipType::StrongShot);
}

#[test]
fn spawn_is_gated_by_the_pace() {
    let mut game = new_game();
    game.spawn_enemy(40, 17);
    assert!(game.enemies.is_empty());
    assert_eq!(game.last_spawn, 0);
    game.spawn_enemy(41, 17);
    assert_eq!(game.enemies, vec![hostile(17, 1)]);
    assert_eq!(game.enemies[0].shot_interval, 20);
    assert_eq!(game.enemies[0].move_interval, 10);
    assert_eq!(game.last_spawn, 41);
    game.spawn_enemy(81, 9);
    assert_eq!(game.enemies.len(), 1);
    game.spawn_enemy(82, 9);
    assert_eq!(game.enemies.len(), 2);
    assert_eq!(game.enemies[1].pos, at(9, 1));
}

#[test]
fn kill_scores_the_bonus_and_removes_one_hostile() {
    let mut game = new_game();
    game.enemies = vec![hostile(10, 5), hostile(11, 5), hostile(12, 5)];
    game.ship.shots = vec![up_shot(11, 5, CHAR_SHOT_SHIP_BASIC)];
    game.update_ship_shots(&vec![
        GoodieType::ShieldBoost(10),
        GoodieType::RepairKit(5),
        GoodieType::RepairKit(5),
    ]);
    assert_eq!(game.score, 5);
    assert_eq!(game.enemies, vec![hostile(10, 5), hostile(12, 5)]);
    assert_eq!(game.goodies, vec![Goodie::new(at(11, 5), GoodieType::ShieldBoost(10))]);
    assert!(game.ship.shots.is_empty());
}

#[test]
fn reinforced_shot_pierces() {
    let mut game = new_game();
    game.enemies = vec![hostile(10, 5)];
    game.ship.shots = vec![up_shot(10, 5, CHAR_SHOT_SHIP_STRONG)];
    game.update_ship_shots(&vec![GoodieType::RepairKit(5)]);
    assert_eq!(game.score, 5);
    assert!(game.enemies.is_empty());
    assert_eq!(game.ship.shots, vec![up_shot(10, 5, CHAR_SHOT_SHIP_STRONG)]);
}

#[test]
fn shot_that_misses_stays_in_flight() {
    let mut game = new_game();
    game.enemies = vec![hostile(10, 5)];
    game.ship.shots = vec![up_shot(10, 6, CHAR_SHOT_SHIP_BASIC)];
    game.update_ship_shots(&vec![GoodieType::RepairKit(5)]);
    assert_eq!(game.score, 0);
    assert_eq!(game.enemies.len(), 1);
    assert!(game.goodies.is_empty());
    assert_eq!(game.ship.shots.len(), 1);
}

#[test]
fn spent_shots_leave_without_a_hit() {
    let mut game = new_game();
    game.enemies = vec![hostile(10, 0), hostile(0, 7), hostile(60, 9)];
    game.ship.shots = vec![
        up_shot(10, 0, CHAR_SHOT_SHIP_BASIC),
        up_shot(0, 7, CHAR_SHOT_SHIP_BASIC),
        up_shot(60, 9, CHAR_SHOT_SHIP_STRONG),
        up_shot(59, 9, CHAR_SHOT_SHIP_BASIC),
    ];
    game.update_ship_shots(&vec![GoodieType::RepairKit(5); 3]);
    assert_eq!(game.enemies.len(), 3);
    assert_eq!(game.score, 0);
    assert_eq!(game.ship.shots, vec![up_shot(59, 9, CHAR_SHOT_SHIP_BASIC)]);
}

#[test]
fn hostiles_sharing_a_cell_fall_together() {
    let mut game = new_game();
    game.score = 7;
    game.goodies = vec![Goodie::new(at(1, 1), GoodieType::RepairKit(5))];
    game.enemies = vec![hostile(10, 5), hostile(3, 3), hostile(10, 5)];
    game.ship.shots =
        vec![up_shot(3, 3, CHAR_SHOT_SHIP_BASIC), up_shot(10, 5, CHAR_SHOT_SHIP_BASIC)];
    game.update_ship_shots(&vec![
        GoodieType::ShipUpgrade(ShipType::Basic),
        GoodieType::ShieldBoost(10),
        GoodieType::RepairKit(5),
    ]);
    assert_eq!(game.score, 22);
    assert!(game.enemies.is_empty());
    assert!(game.ship.shots.is_empty());
    assert_eq!(
        game.goodies,
        vec![
            Goodie::new(at(1, 1), GoodieType::RepairKit(5)),
            Goodie::new(at(3, 3), GoodieType::ShipUpgrade(ShipType::Basic)),
            Goodie::new(at(10, 5), GoodieType::ShieldBoost(10)),
            Goodie::new(at(10, 5), GoodieType::RepairKit(5)),
        ]
    );
}

#[test]
fn second_shot_finds_nothing_where_the_first_hit() {
    let mut game = new_game();
    game.enemies = vec![hostile(10, 5)];
    game.ship.shots =
        vec![up_shot(10, 5, CHAR_SHOT_SHIP_BASIC), up_shot(10, 5, CHAR_SHOT_SHIP_BASIC)];
    game.update_ship_shots(&vec![GoodieType::RepairKit(5)]);
    assert_eq!(game.score, 5);
    assert_eq!(game.ship.shots.len(), 1);
    assert_eq!(game.goodies.len(), 1);
}

#[test]
fn score_stops_at_the_end_of_its_range() {
    let mut game = new_game();
    game.score = usize::MAX - 2;
    game.enemies = vec![hostile(10, 5)];
    game.ship.shots = vec![up_shot(10, 5, CHAR_SHOT_SHIP_BASIC)];
    game.update_ship_shots(&vec![GoodieType::RepairKit(5)]);
    assert_eq!(game.score, usize::MAX);
}

#[test]
fn escalation_shortens_the_spawn_interval_down_to_the_floor() {
    let mut game = new_game();
    game.update_game_speed(200);
    assert_eq!(game.spawn_interval, 40);
    assert_eq!(game.last_spawn_speedup, 0);
    game.update_game_speed(201);
    assert_eq!(game.spawn_interval, 30);
    assert_eq!(game.last_spawn_speedup, 201);
    game.update_game_speed(401);
    assert_eq!(game.spawn_interval, 30);
    game.update_game_speed(402);
    assert_eq!(game.spawn_interval, 20);
    game.update_game_speed(603);
    assert_eq!(game.spawn_interval, 10);
    game.update_game_speed(804);
    assert_eq!(game.spawn_interval, 10);
    assert_eq!(game.last_spawn_speedup, 804);
}

#[test]
fn escalation_floor_holds_from_a_short_interval() {
    let mut game = new_game();
    game.spawn_interval = 15;
    game.update_game_speed(201);
    assert_eq!(game.spawn_interval, MIN_SPAWN_INTERVAL);
    game.spawn_interval = 3;
    game.update_game_speed(500);
    assert_eq!(game.spawn_interval, 10);
}

#[test]
fn spawn_interval_never_grows_over_a_long_run() {
    let mut game = new_game();
    let mut last = game.spawn_interval;
    for frame in 1..=3000usize {
        let rolls = quiet_rolls(&game);
        game.update_with(frame, &rolls);
        assert!(game.spawn_interval <= last);
        assert!(game.spawn_interval >= MIN_SPAWN_INTERVAL);
        last = game.spawn_interval;
    }
    assert_eq!(game.spawn_interval, 10);
}

#[test]
fn frame_runs_the_stages_in_order() {
    let mut game = new_game();
    game.ship.auto_shoot = true;
    game.shield = 5;
    game.last_spawn = 10;
    game.spawn_interval = 10;
    game.enemies = vec![hostile(30, 28), hostile(44, 31), hostile(31, 29)];
    game.enemy_shots = vec![Shot::new(at(31, 29), at(0, 1), CHAR_SHOT_ENEMY)];
    game.goodies = vec![Goodie::new(at(32, 29), GoodieType::RepairKit(5))];
    let rolls = FrameRolls {
        enemy_fire: vec![true, true, true],
        spawn_column: 30,
        drops: vec![
            GoodieType::ShieldBoost(10),
            GoodieType::RepairKit(5),
            GoodieType::RepairKit(5),
            GoodieType::RepairKit(5),
        ],
    };
    game.update_with(21, &rolls);
    // The craft fired from (30, 30) and its shots moved up one row. The three
    // hostiles fired and moved: one ran into the craft, one got past it. The
    // hostile at (30, 29) met the craft's first shot.
    assert_eq!(game.last_spawn, 21);
    assert_eq!(game.enemies, vec![hostile(30, 1)]);
    assert_eq!(game.score, 5);
    assert_eq!(
        game.ship.shots,
        vec![up_shot(31, 29, CHAR_SHOT_SHIP_BASIC), up_shot(32, 29, CHAR_SHOT_SHIP_BASIC)]
    );
    assert_eq!(game.goodies, vec![Goodie::new(at(30, 29), GoodieType::ShieldBoost(10))]);
    // Direct damage 15; the collision's 50 met a shield of 5 and was absorbed;
    // the shield gone, two hits of 5 went to health; the repair kit gave 5.
    assert_eq!(game.shield, 0);
    assert_eq!(game.health, 80);
    assert_eq!(
        game.enemy_shots,
        vec![
            Shot::new(at(30, 29), at(0, 1), CHAR_SHOT_ENEMY),
        ]
    );
    assert_eq!(game.spawn_interval, 10);
}

#[test]
fn single_hostile_breaches_once_and_only_once() {
    let mut game = new_game();
    game.spawn_interval = 1_000_000;
    game.enemies = vec![hostile(10, 1)];
    for frame in 1..=600usize {
        let rolls = quiet_rolls(&game);
        game.update_with(frame, &rolls);
        if frame == 300 {
            assert_eq!(game.enemies.len(), 1);
            assert_eq!(game.enemies[0].pos, at(10, 28));
            assert_eq!(game.health, 100);
        }
        if frame == 340 {
            assert_eq!(game.enemies.len(), 1);
            assert_eq!(game.enemies[0].pos, at(10, 31));
            assert_eq!(game.health, 100);
        }
        if frame >= 341 {
            assert!(game.enemies.is_empty());
            assert_eq!(game.health, 85);
            assert_eq!(game.shield, 0);
        }
    }
    assert_eq!(game.score, 0);
}

#[test]
fn draw_rolls_covers_every_hostile() {
    let mut game = new_game();
    game.enemies = vec![hostile(10, 1), hostile(20, 1), hostile(30, 1)];
    for frame in [5usize, 21, 41, 100] {
        let rolls = game.draw_rolls(frame);
        assert_eq!(rolls.enemy_fire.len(), 3);
        assert_eq!(rolls.drops.len(), 4);
        assert!(rolls.spawn_column >= 5 && rolls.spawn_column < 55);
        if frame <= 20 {
            assert_eq!(rolls.enemy_fire, vec![false, false, false]);
        }
        for drop in &rolls.drops {
            assert!(matches!(
                drop,
                GoodieType::RepairKit(5) | GoodieType::ShieldBoost(10) | GoodieType::ShipUpgrade(_)
            ));
        }
    }
}

#[test]
fn spawn_column_keeps_its_margins() {
    let game = GameState::new(at(11, 3));
    for _ in 0..50 {
        assert_eq!(game.draw_rolls(1000).spawn_column, 5);
    }
    let game = GameState::new(at(13, 3));
    let mut seen = [false, false, false];
    for _ in 0..600 {
        let column = game.draw_rolls(1000).spawn_column;
        assert!((5..8).contains(&column));
        seen[(column - 5) as usize] = true;
    }
    assert_eq!(seen, [true, true, true]);
}

#[test]
fn update_spawns_the_first_hostile_when_the_pace_allows() {
    let mut game = new_game();
    for frame in 1..=40usize {
        game.update(frame);
        assert!(game.enemies.is_empty());
    }
    game.update(41);
    assert_eq!(game.enemies.len(), 1);
    assert_eq!(game.enemies[0].pos.y, 1);
    assert!(game.enemies[0].pos.x >= 5 && game.enemies[0].pos.x < 55);
    assert_eq!(game.last_spawn, 41);
}

#[test]
fn update_keeps_the_game_in_play() {
    let mut game = new_game();
    game.ship.auto_shoot = true;
    let mut score = 0;
    let mut interval = game.spawn_interval;
    for frame in 1..=2000usize {
        if frame % 7 == 0 {
            game.move_ship_x(if frame % 2 == 0 { 2 } else { -2 });
        }
        game.update(frame);
        assert!(game.health <= MAX_HEALTH);
        assert!(game.shield <= MAX_SHIELD);
        assert!(game.score >= score);
        assert!(game.spawn_interval <= interval && game.spawn_interval >= MIN_SPAWN_INTERVAL);
        assert!(game.ship.pos.x >= 1 && game.ship.pos.x <= 58);
        assert!(game.ship.pos.y >= 1 && game.ship.pos.y <= 31);
        for enemy in &game.enemies {
            assert!(enemy.pos.y <= 31);
            assert!(enemy.pos.x >= 5 && enemy.pos.x < 55);
        }
        score = game.score;
        interval = game.spawn_interval;
    }
}

#[test]
fn commands_for_keys() {
    assert_eq!(Command::for_pressed(Key::Esc), Some(Command::Quit));
    assert_eq!(Command::for_pressed(Key::Q), Some(Command::Quit));
    assert_eq!(Command::for_pressed(Key::Space), Some(Command::ToggleAutoFire));
    assert_eq!(Command::for_pressed(Key::W), None);
    assert_eq!(Command::for_pressed(Key::Other), None);
    assert_eq!(Command::for_held(Key::W), Some(Command::MoveVertical(-1)));
    assert_eq!(Command::for_held(Key::S), Some(Command::MoveVertical(1)));
    assert_eq!(Command::for_held(Key::A), Some(Command::MoveHorizontal(-2)));
    assert_eq!(Command::for_held(Key::D), Some(Command::MoveHorizontal(2)));
    assert_eq!(Command::for_held(Key::Space), None);
    assert_eq!(Command::for_held(Key::Esc), None);
}

#[test]
fn apply_command_moves_toggles_and_reports_quit() {
    let mut game = new_game();
    assert!(!apply_command(&mut game, Some(Command::MoveHorizontal(2))));
    assert_eq!(game.ship.pos, at(32, 30));
    assert!(!apply_command(&mut game, Some(Command::MoveVertical(-1))));
    assert_eq!(game.ship.pos, at(32, 29));
    assert!(!apply_command(&mut game, Some(Command::ToggleAutoFire)));
    assert!(game.ship.auto_shoot);
    assert!(apply_command(&mut game, Some(Command::Quit)));
    assert!(!apply_command(&mut game, None));
    assert_eq!(game.ship.pos, at(32, 29));
}

#[test]
fn user_input_handles_presses_then_holds() {
    let mut game = new_game();
    let quit = handle_user_input(
        &mut game,
        &vec![Key::Space, Key::W, Key::Other],
        &vec![Key::D, Key::W, Key::D, Key::Space],
    );
    assert!(!quit);
    assert!(game.ship.auto_shoot);
    assert_eq!(game.ship.pos, at(34, 29));
    let quit = handle_user_input(&mut game, &vec![Key::Space, Key::Q, Key::Space], &vec![Key::A]);
    assert!(quit);
    assert!(game.ship.auto_shoot);
    assert_eq!(game.ship.pos, at(32, 29));
    assert!(handle_user_input(&mut game, &vec![Key::Esc], &Vec::new()));
    assert!(!handle_user_input(&mut game, &Vec::new(), &vec![Key::Q, Key::Esc]));
}

#[test]
fn hud_bars_show_one_cell_per_five_points() {
    let mut game = new_game();
    assert_eq!(game.health_bar_cells(), 20);
    assert_eq!(game.shield_bar_cells(), 0);
    game.health = 49;
    game.shield = 5;
    assert_eq!(game.health_bar_cells(), 9);
    assert_eq!(game.shield_bar_cells(), 1);
    game.health = 4;
    assert_eq!(game.health_bar_cells(), 0);
}
