use space_invaders::entity::GameObjType;
use space_invaders::entity::BARRIER_HP;
use space_invaders::entity::ENEMY_HP;
use space_invaders::formation::create_barriers;
use space_invaders::formation::create_enemies;
use space_invaders::formation::BARRIER_POS_Y;

#[test]
fn formation_deterministic() {
    // Identical inputs give identical entity sets, position and variant
    // included.
    let a = create_enemies(480, 0);
    let b = create_enemies(480, 0);
    assert_eq!(a, b);
    let c = create_enemies(1024, 7);
    let d = create_enemies(1024, 7);
    assert_eq!(c, d);
    let e = create_barriers(480);
    let f = create_barriers(480);
    assert_eq!(e, f);
}

#[test]
fn formation_grid_positions() {
    // 480 px screen: column spacing (480 - 80) * 1320 / 11 == 48000
    // subunits, leftmost column at 40 px + half a spacing from the left
    // edge.
    let enemies = create_enemies(480, 0);
    assert_eq!(enemies.len(), 55);
    assert_eq!((enemies[0].x, enemies[0].y), (-240000, 330000));
    assert_eq!((enemies[1].x, enemies[1].y), (-192000, 330000));
    assert_eq!((enemies[10].x, enemies[10].y), (240000, 330000));
    // Row pitch equals the column spacing.
    assert_eq!((enemies[11].x, enemies[11].y), (-240000, 282000));
    assert_eq!((enemies[54].x, enemies[54].y), (240000, 138000));
    for e in &enemies {
        assert_eq!(e.tag, GameObjType::Enemy);
        assert_eq!(e.hit_points, ENEMY_HP);
        assert_eq!((e.dir_x, e.dir_y), (1, 0));
    }
}

#[test]
fn formation_difficulty_lowers_rows() {
    // Each difficulty level moves the grid down by 35 pixels.
    let easy = create_enemies(480, 0);
    let hard = create_enemies(480, 7);
    assert_eq!(easy[0].y - hard[0].y, 245 * 1320);
    assert_eq!(easy[0].x, hard[0].x);
}

#[test]
fn formation_variants_alternate_by_column() {
    let enemies = create_enemies(480, 0);
    for row in 0..5 {
        for col in 0..11 {
            let expected = if col % 2 == 0 { 1 } else { 2 };
            assert_eq!(enemies[row * 11 + col].curr_sprite, expected);
        }
    }
}

#[test]
fn barrier_row_layout() {
    let barriers = create_barriers(480);
    assert_eq!(barriers.len(), 4);
    let xs: Vec<i64> = barriers.iter().map(|b| b.x).collect();
    assert_eq!(xs, vec![-178200, -59400, 59400, 178200]);
    for b in &barriers {
        assert_eq!(b.tag, GameObjType::Barrier);
        assert_eq!(b.y, BARRIER_POS_Y);
        assert_eq!(b.hit_points, BARRIER_HP);
        assert_eq!(b.curr_sprite, 0);
        assert_eq!(b.speed, 0);
    }
}
