use space_shooter::cadence::is_due;
use space_shooter::constant::{
    CHAR_HEALTH, CHAR_SHIELD, CHAR_SHOT_ENEMY, CHAR_UPGRADE_SHIP_BASIC,
    CHAR_UPGRADE_SHIP_DIAGONAL, CHAR_UPGRADE_SHIP_STRONG,
};
use space_shooter::enemy::{draw_chance, Enemy};
use space_shooter::goodie::{Goodie, GoodieType};
use space_shooter::position::Position;
use space_shooter::ship::ShipType;
use space_shooter::shot::Shot;

fn at(x: i32, y: i32) -> Position {
    Position::new(x, y)
}

#[test]
fn cadence_is_due_strictly_after_the_interval() {
    assert!(!is_due(0, 10, 10));
    assert!(is_due(0, 10, 11));
    assert!(!is_due(5, 10, 15));
    assert!(is_due(5, 10, 16));
    assert!(!is_due(7, 0, 7));
    assert!(is_due(7, 0, 8));
    assert!(!is_due(usize::MAX, 1, usize::MAX));
    assert!(!is_due(10, 3, 2));
}

#[test]
fn new_enemy_has_the_given_cadences() {
    let enemy = Enemy::new(at(7, 1), at(0, 1), 20);
    assert_eq!(enemy.pos, at(7, 1));
    assert_eq!(enemy.movement, at(0, 1));
    assert_eq!(enemy.move_interval, 10);
    assert_eq!(enemy.last_movement, 0);
    assert_eq!(enemy.shot_interval, 20);
    assert_eq!(enemy.last_shot_frame, 0);
}

#[test]
fn enemy_moves_only_when_its_cadence_allows() {
    let mut enemy = Enemy::new(at(7, 1), at(0, 1), 20);
    enemy.move_self(10);
    assert_eq!(enemy.pos, at(7, 1));
    assert_eq!(enemy.last_movement, 0);
    enemy.move_self(11);
    assert_eq!(enemy.pos, at(7, 2));
    assert_eq!(enemy.last_movement, 11);
    enemy.move_self(21);
    assert_eq!(enemy.pos, at(7, 2));
    enemy.move_self(22);
    assert_eq!(enemy.pos, at(7, 3));
}

#[test]
fn enemy_fires_when_cadence_and_chance_agree() {
    let mut enemy = Enemy::new(at(7, 4), at(0, 1), 20);
    let mut shots: Vec<Shot> = Vec::new();
    enemy.shoot_with(20, true, &mut shots);
    assert!(shots.is_empty());
    assert_eq!(enemy.last_shot_frame, 0);
    enemy.shoot_with(21, true, &mut shots);
    assert_eq!(shots, vec![Shot::new(at(7, 4), at(0, 1), CHAR_SHOT_ENEMY)]);
    assert_eq!(enemy.last_shot_frame, 21);
}

#[test]
fn enemy_turn_is_used_up_when_chance_says_no() {
    let mut enemy = Enemy::new(at(7, 4), at(0, 1), 20);
    let mut shots: Vec<Shot> = Vec::new();
    enemy.shoot_with(21, false, &mut shots);
    assert!(shots.is_empty());
    assert_eq!(enemy.last_shot_frame, 21);
    enemy.shoot_with(22, true, &mut shots);
    assert!(shots.is_empty());
}

#[test]
fn enemy_update_fires_from_where_it_stood_then_moves() {
    let mut enemy = Enemy::new(at(7, 4), at(0, 1), 20);
    let mut shots: Vec<Shot> = Vec::new();
    enemy.update_with(21, true, &mut shots);
    assert_eq!(shots, vec![Shot::new(at(7, 4), at(0, 1), CHAR_SHOT_ENEMY)]);
    assert_eq!(enemy.pos, at(7, 5));
    assert_eq!(enemy.last_movement, 21);
    assert_eq!(enemy.last_shot_frame, 21);
}

#[test]
fn chance_is_not_asked_before_the_cadence_allows() {
    let enemy = Enemy::new(at(7, 4), at(0, 1), 20);
    for _ in 0..200 {
        assert!(!draw_chance(&enemy, 20));
    }
}

#[test]
fn chance_lets_some_hostiles_fire_and_not_all() {
    let enemy = Enemy::new(at(7, 4), at(0, 1), 20);
    let mut fired: usize = 0;
    for _ in 0..2000 {
        if draw_chance(&enemy, 21) {
            fired += 1;
        }
    }
    assert!(fired > 0);
    assert!(fired < 2000);
}

#[test]
fn enemy_shoot_adds_at_most_one_shot_and_uses_the_turn() {
    for _ in 0..50 {
        let mut enemy = Enemy::new(at(7, 4), at(0, 1), 20);
        let mut shots: Vec<Shot> = Vec::new();
        enemy.shoot(21, &mut shots);
        assert_eq!(enemy.last_shot_frame, 21);
        assert!(shots.len() <= 1);
        if shots.len() == 1 {
            assert_eq!(shots[0], Shot::new(at(7, 4), at(0, 1), CHAR_SHOT_ENEMY));
        }
        enemy.shoot(22, &mut shots);
        assert!(shots.len() <= 1);
    }
}

#[test]
fn enemy_update_moves_whatever_chance_decides() {
    let mut enemy = Enemy::new(at(7, 4), at(0, 1), 20);
    let mut shots: Vec<Shot> = Vec::new();
    enemy.update(11, &mut shots);
    assert!(shots.is_empty());
    assert_eq!(enemy.pos, at(7, 5));
    enemy.update(22, &mut shots);
    assert_eq!(enemy.pos, at(7, 6));
    assert!(shots.len() <= 1);
}

#[test]
fn goodie_kinds_from_rolls() {
    assert_eq!(GoodieType::from_rolls(0, 0), GoodieType::RepairKit(5));
    assert_eq!(GoodieType::from_rolls(1, 2), GoodieType::RepairKit(5));
    assert_eq!(GoodieType::from_rolls(2, 1), GoodieType::RepairKit(5));
    assert_eq!(GoodieType::from_rolls(3, 0), GoodieType::ShieldBoost(10));
    assert_eq!(GoodieType::from_rolls(4, 0), GoodieType::ShieldBoost(10));
    assert_eq!(GoodieType::from_rolls(5, 0), GoodieType::ShipUpgrade(ShipType::Basic));
    assert_eq!(GoodieType::from_rolls(5, 1), GoodieType::ShipUpgrade(ShipType::DiagonalShot));
    assert_eq!(GoodieType::from_rolls(5, 2), GoodieType::ShipUpgrade(ShipType::StrongShot));
}

#[test]
fn random_goodie_is_one_that_rolls_give() {
    let mut repair: usize = 0;
    let mut boost: usize = 0;
    let mut upgrade: usize = 0;
    for _ in 0..3000 {
        match GoodieType::random() {
            GoodieType::RepairKit(amount) => {
                assert_eq!(amount, 5);
                repair += 1;
            }
            GoodieType::ShieldBoost(amount) => {
                assert_eq!(amount, 10);
                boost += 1;
            }
            GoodieType::ShipUpgrade(_) => upgrade += 1,
        }
    }
    assert!(repair > 0 && boost > 0 && upgrade > 0);
    assert!(repair > upgrade);
}

#[test]
fn goodie_falls_one_row_per_update() {
    let mut goodie = Goodie::new(at(12, 7), GoodieType::ShieldBoost(10));
    goodie.update();
    assert_eq!(goodie.pos, at(12, 8));
    assert_eq!(goodie.goodie_type, GoodieType::ShieldBoost(10));
    goodie.update();
    assert_eq!(goodie.pos, at(12, 9));
}

#[test]
fn goodie_glyph_tells_its_kind() {
    assert_eq!(Goodie::new(at(1, 1), GoodieType::RepairKit(5)).glyph(), CHAR_HEALTH);
    assert_eq!(Goodie::new(at(1, 1), GoodieType::ShieldBoost(10)).glyph(), CHAR_SHIELD);
    assert_eq!(
        Goodie::new(at(1, 1), GoodieType::ShipUpgrade(ShipType::Basic)).glyph(),
        CHAR_UPGRADE_SHIP_BASIC
    );
    assert_eq!(
        Goodie::new(at(1, 1), GoodieType::ShipUpgrade(ShipType::DiagonalShot)).glyph(),
        CHAR_UPGRADE_SHIP_DIAGONAL
    );
    assert_eq!(
        Goodie::new(at(1, 1), GoodieType::ShipUpgrade(ShipType::StrongShot)).glyph(),
        CHAR_UPGRADE_SHIP_STRONG
    );
}
