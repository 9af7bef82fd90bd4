use space_invaders::entity::GameObj;
use space_invaders::entity::GameObjType;
use space_invaders::entity::BARRIER_HP;
use space_invaders::entity::BARRIER_SIZE;
use space_invaders::entity::ENEMY_BASE_SPEED;
use space_invaders::entity::ENEMY_HP;
use space_invaders::entity::ENEMY_SIZE;
use space_invaders::entity::PLAYER_HP;
use space_invaders::entity::PLAYER_SIZE;
use space_invaders::entity::PLAYER_SPEED;
use space_invaders::entity::PLAYER_STARTING_POS_Y;
use space_invaders::entity::SCALE;
use space_invaders::entity::SHOT_HP;
use space_invaders::entity::SHOT_SIZE;
use space_invaders::entity::SHOT_SPEED;

#[test]
fn scale_constants() {
    assert_eq!(SCALE, 1320);
    assert_eq!(PLAYER_SIZE, 12 * SCALE);
    assert_eq!(ENEMY_SIZE, 6 * SCALE);
    assert_eq!(BARRIER_SIZE, 12 * SCALE);
    assert_eq!(SHOT_SIZE, 6 * SCALE);
    // 300 px/s and 600 px/s at 30 ticks per second.
    assert_eq!(PLAYER_SPEED, 10 * SCALE);
    assert_eq!(SHOT_SPEED, 10 * SCALE);
    assert_eq!(ENEMY_BASE_SPEED, 20 * SCALE);
    assert_eq!(PLAYER_STARTING_POS_Y, -290 * SCALE);
}

#[test]
fn player_spawn_fields() {
    let p = GameObj::new_player();
    assert_eq!(p.tag, GameObjType::Player);
    assert_eq!((p.x, p.y), (0, PLAYER_STARTING_POS_Y));
    assert_eq!(p.hit_points, PLAYER_HP);
    assert_eq!(p.size, PLAYER_SIZE);
    assert_eq!(p.speed, PLAYER_SPEED);
    assert_eq!((p.dir_x, p.dir_y), (0, 0));
    assert_eq!(p.curr_sprite, 0);
}

#[test]
fn enemy_spawn_fields() {
    let e = GameObj::new_enemy(100, 200);
    assert_eq!(e.tag, GameObjType::Enemy);
    assert_eq!((e.x, e.y), (100, 200));
    assert_eq!(e.hit_points, ENEMY_HP);
    assert_eq!(e.size, ENEMY_SIZE);
    assert_eq!(e.speed, ENEMY_BASE_SPEED);
    assert_eq!((e.dir_x, e.dir_y), (1, 0));
}

#[test]
fn barrier_spawn_fields() {
    let b = GameObj::new_barrier(-5, 7);
    assert_eq!(b.tag, GameObjType::Barrier);
    assert_eq!(b.hit_points, BARRIER_HP);
    assert_eq!(b.speed, 0);
    assert_eq!((b.dir_x, b.dir_y), (0, 0));
    assert_eq!(b.curr_sprite, 0);
}

#[test]
fn shot_spawn_fields() {
    let s = GameObj::new_shot(10, -20, 0, 1);
    assert_eq!(s.tag, GameObjType::Shot);
    assert_eq!((s.x, s.y), (10, -20));
    assert_eq!(s.hit_points, SHOT_HP);
    assert_eq!(s.size, SHOT_SIZE);
    assert_eq!(s.speed, SHOT_SPEED);
    assert_eq!((s.dir_x, s.dir_y), (0, 1));
}

#[test]
fn update_position_moves_by_velocity() {
    let mut e = GameObj::new(GameObjType::Enemy, 1000, -500, 30, -1, 1, ENEMY_SIZE, 1);
    e.update_position();
    assert_eq!((e.x, e.y), (970, -470));
    e.set_direction(0, -1);
    e.update_position();
    assert_eq!((e.x, e.y), (970, -500));
}

#[test]
fn set_hit_points_clamps_below_zero_only() {
    let mut p = GameObj::new_player();
    p.set_hit_points(-4);
    assert_eq!(p.hit_points, 0);
    p.set_hit_points(9);
    assert_eq!(p.hit_points, 9);
    let mut b = GameObj::new_barrier(0, 0);
    b.set_hit_points(BARRIER_HP);
    assert_eq!(b.hit_points, BARRIER_HP);
}

#[test]
fn sub_hit_points_never_goes_negative() {
    let mut s = GameObj::new_shot(0, 0, 0, 1);
    s.sub_hit_points();
    assert_eq!(s.hit_points, 0);
    s.sub_hit_points();
    assert_eq!(s.hit_points, 0);
}

#[test]
fn set_curr_sprite_clamps_to_variant_range() {
    let mut b = GameObj::new_barrier(0, 0);
    b.set_curr_sprite(9);
    assert_eq!(b.curr_sprite, 3);
    b.set_curr_sprite(-9);
    assert_eq!(b.curr_sprite, -2);
    b.set_curr_sprite(1);
    assert_eq!(b.curr_sprite, 1);
}

#[test]
fn getters_match_fields() {
    let mut e = GameObj::new_enemy(11, 22);
    assert_eq!(e.get_pos(), (11, 22));
    assert_eq!(e.get_pos_x(), 11);
    assert_eq!(e.get_pos_y(), 22);
    assert_eq!(e.get_direction(), (1, 0));
    assert_eq!(e.get_direction_x(), 1);
    assert_eq!(e.get_direction_y(), 0);
    assert_eq!(e.get_speed(), ENEMY_BASE_SPEED);
    assert_eq!(e.get_size(), ENEMY_SIZE);
    assert_eq!(e.get_hit_points(), ENEMY_HP);
    assert_eq!(e.get_tag(), GameObjType::Enemy);
    e.set_pos(1, 2);
    assert_eq!(e.get_pos(), (1, 2));
    e.set_pos_x(5);
    e.set_pos_y(6);
    assert_eq!(e.get_pos(), (5, 6));
    e.set_speed(42);
    assert_eq!(e.get_speed(), 42);
    e.set_direction_x(-1);
    e.set_direction_y(0);
    assert_eq!(e.get_direction(), (-1, 0));
}
