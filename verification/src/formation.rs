//! Formation generator: the initial layout of the enemy grid and of the
//! barrier row for a given screen width and difficulty level.
//!
//! Both layouts are pure functions of their inputs: the postconditions pin
//! every entity of the result, so two calls with the same arguments yield
//! identical formations.

use vstd::prelude::*;

use crate::entity::GameObj;
use crate::entity::GameObjType;
use crate::entity::ENEMY_BASE_SPEED;
use crate::entity::ENEMY_HP;
use crate::entity::ENEMY_SIZE;
use crate::entity::GAME_BOUNDS;
use crate::entity::MAX_SCREEN_DIM;
use crate::entity::MIN_SCREEN_DIM;
use crate::entity::SCALE;

verus! {

/// Rows of the enemy grid.
pub const ENEMY_NLINE: usize = 5;

/// Columns of the enemy grid.
pub const ENEMY_NCOLUMN: usize = 11;

/// Entities in a full enemy formation.
pub const ENEMY_FORMATION_COUNT: usize = 55;

/// Difficulty is clamped here: beyond this wave the formation spawns no
/// lower.
pub const MAX_DIFF_LEVEL: i64 = 7;

/// Barriers in a fresh barrier row.
pub const BARRIER_COUNT: usize = 4;

/// The fixed height of the barrier row: 200 pixels below the screen center.
pub const BARRIER_POS_Y: i64 = -200 * SCALE;

/// Horizontal distance between enemy columns, in subunits: the screen width
/// minus a 40 pixel margin on each side, spread over the 11 columns.  Since
/// `SCALE == 11 * 120`, the division by 11 is exact and is written as a
/// multiplication: `(w - 80) * 120 == (w - 80) * SCALE / 11`.
pub open spec fn enemy_spacing(w: int) -> int {
    (w - 80) * 120
}

/// The x coordinate of the leftmost enemy column: 40 pixels in from the left
/// screen edge (at `-w * SCALE / 2 == -w * 660`), plus half a column
/// spacing.
pub open spec fn enemy_x0(w: int) -> int {
    40 * SCALE - w * 660 + (w - 80) * 60
}

pub open spec fn enemy_pos_x(w: int, col: int) -> int {
    enemy_x0(w) + col * enemy_spacing(w)
}

/// The y coordinate of row `row`: the top row sits at 250 pixels above the
/// center, lowered by 35 pixels per difficulty level, and the rows are
/// spaced one column spacing apart.
pub open spec fn enemy_row_y(w: int, diff: int, row: int) -> int {
    (250 - 35 * diff) * SCALE - row * enemy_spacing(w)
}

/// The enemy at flat grid index `i` (row-major over 5 rows of 11 columns).
/// Its sprite variant alternates with column parity, giving the two-variant
/// checkerboard look.
pub open spec fn enemy_at(w: int, diff: int, i: int) -> GameObj {
    let row = i / 11;
    let col = i % 11;
    GameObj {
        curr_sprite: if col % 2 == 0 {
            1
        } else {
            2
        },
        ..GameObj::enemy_spawn(enemy_pos_x(w, col) as i64, enemy_row_y(w, diff, row) as i64)
    }
}

/// `s` is exactly the fresh enemy formation for screen width `w` and
/// difficulty `diff`.
pub open spec fn is_enemy_formation(s: Seq<GameObj>, w: int, diff: int) -> bool {
    &&& s.len() == 55
    &&& forall|i: int| 0 <= i < 55 ==> s[i] == enemy_at(w, diff, i)
}

/// Horizontal distance between barriers, in subunits: the screen width
/// minus a 60 pixel margin on each side, spread over 4 slots.  Since
/// `SCALE == 4 * 330`, the division by 4 is exact:
/// `(w - 120) * 330 == (w - 120) * SCALE / 4`.
pub open spec fn barrier_spacing(w: int) -> int {
    (w - 120) * 330
}

/// The x coordinate of the leftmost barrier: 60 pixels in from the left
/// screen edge plus half a barrier spacing (165 == 330 / 2).
pub open spec fn barrier_x0(w: int) -> int {
    60 * SCALE - w * 660 + (w - 120) * 165
}

/// The barrier at slot `i`, at full hit points and undamaged sprite.
pub open spec fn barrier_at(w: int, i: int) -> GameObj {
    GameObj::barrier_spawn((barrier_x0(w) + i * barrier_spacing(w)) as i64, BARRIER_POS_Y)
}

/// `s` is exactly the fresh barrier row for screen width `w`.
pub open spec fn is_barrier_formation(s: Seq<GameObj>, w: int) -> bool {
    &&& s.len() == 4
    &&& forall|i: int| 0 <= i < 4 ==> s[i] == barrier_at(w, i)
}

/// The facts the game state needs of every enemy of a fresh formation:
/// the fields of an enemy spawn, a sprite variant from the two enemy
/// pools, and a position strictly inside the horizontal reversal bounds
/// and no lower than the bottom row of the hardest wave (`45000 - 480 *
/// w` subunits: the top row at 5 pixels over center, minus four row
/// pitches of `(w - 80) * 120`).
pub open spec fn formation_enemy_ok(e: GameObj, w: int) -> bool {
    &&& e.tag == GameObjType::Enemy
    &&& e.size == ENEMY_SIZE
    &&& e.hit_points == ENEMY_HP
    &&& e.speed == ENEMY_BASE_SPEED
    &&& e.dir_x == 1
    &&& e.dir_y == 0
    &&& (e.curr_sprite == 1 || e.curr_sprite == 2)
    &&& -(w * 660 - GAME_BOUNDS) < e.x < w * 660 - GAME_BOUNDS
    &&& 45000 - 480 * w <= e.y <= 250 * SCALE
}

pub proof fn lemma_enemy_formation_ok(w: int, diff: int)
    requires
        MIN_SCREEN_DIM <= w <= MAX_SCREEN_DIM,
        0 <= diff <= MAX_DIFF_LEVEL,
    ensures
        forall|i: int| 0 <= i < 55 ==> formation_enemy_ok(#[trigger] enemy_at(w, diff, i), w),
{
    assert forall|i: int| 0 <= i < 55 implies formation_enemy_ok(
        #[trigger] enemy_at(w, diff, i),
        w,
    ) by {
        let row = i / 11;
        let col = i % 11;
        assert(0 <= row <= 4 && 0 <= col <= 10) by (nonlinear_arith)
            requires
                0 <= i < 55,
                row == i / 11,
                col == i % 11,
        ;
        let sp = enemy_spacing(w);
        assert(0 <= col * sp <= 10 * sp && 0 <= row * sp <= 4 * sp) by (nonlinear_arith)
            requires
                0 <= col <= 10,
                0 <= row <= 4,
                0 <= sp,
        ;
    }
}

/// The facts the game state needs of every barrier of a fresh row: the
/// fields of a barrier spawn and a position within the screen half-width.
pub open spec fn formation_barrier_ok(b: GameObj, w: int) -> bool {
    &&& b == GameObj::barrier_spawn(b.x, BARRIER_POS_Y)
    &&& -(w * 660) <= b.x <= w * 660
}

pub proof fn lemma_barrier_formation_ok(w: int)
    requires
        MIN_SCREEN_DIM <= w <= MAX_SCREEN_DIM,
    ensures
        forall|i: int| 0 <= i < 4 ==> formation_barrier_ok(#[trigger] barrier_at(w, i), w),
{
    assert forall|i: int| 0 <= i < 4 implies formation_barrier_ok(
        #[trigger] barrier_at(w, i),
        w,
    ) by {
        let sp = barrier_spacing(w);
        assert(0 <= i * sp <= 3 * sp) by (nonlinear_arith)
            requires
                0 <= i <= 3,
                0 <= sp,
        ;
    }
}

/// Lays out the enemy grid for the given screen width and difficulty.  The
/// result is fully determined by the arguments: it is the formation that
/// `is_enemy_formation` describes.
#[verifier::loop_isolation(false)]
pub fn create_enemies(screen_width: i64, diff_level: i64) -> (enemies: Vec<GameObj>)
    requires
        MIN_SCREEN_DIM <= screen_width <= MAX_SCREEN_DIM,
        0 <= diff_level <= MAX_DIFF_LEVEL,
    ensures
        is_enemy_formation(enemies@, screen_width as int, diff_level as int),
{
    let spacing: i64 = (screen_width - 80) * 120;
    let initial_x: i64 = 40 * SCALE - screen_width * 660 + (screen_width - 80) * 60;
    let mut y_pos: i64 = (250 - 35 * diff_level) * SCALE;
    let mut enemies: Vec<GameObj> = Vec::new();
    for row in 0..ENEMY_NLINE
        invariant
            enemies@.len() == 11 * row,
            y_pos == enemy_row_y(screen_width as int, diff_level as int, row as int),
            forall|i: int|
                0 <= i < enemies@.len() ==> enemies@[i] == enemy_at(
                    screen_width as int,
                    diff_level as int,
                    i,
                ),
    {
        for col in 0..ENEMY_NCOLUMN
            invariant
                enemies@.len() == 11 * row + col,
                forall|i: int|
                    0 <= i < enemies@.len() ==> enemies@[i] == enemy_at(
                        screen_width as int,
                        diff_level as int,
                        i,
                    ),
        {
            proof {
                assert(0 <= (col as int) * enemy_spacing(screen_width as int) <= 10
                    * enemy_spacing(screen_width as int)) by (nonlinear_arith)
                    requires
                        0 <= col <= 10,
                        enemy_spacing(screen_width as int) >= 0,
                ;
            }
            let x_pos: i64 = initial_x + (col as i64) * spacing;
            let mut enemy = GameObj::new_enemy(x_pos, y_pos);
            if col % 2 == 0 {
                enemy.set_curr_sprite(1);
            } else {
                enemy.set_curr_sprite(2);
            }
            proof {
                vstd::arithmetic::div_mod::lemma_fundamental_div_mod_converse(
                    11 * (row as int) + (col as int),
                    11,
                    row as int,
                    col as int,
                );
            }
            enemies.push(enemy);
        }
        proof {
            assert((row + 1) * 11 == 11 * row + 11) by (nonlinear_arith);
            let w = screen_width as int;
            let d = diff_level as int;
            assert(0 <= (row as int) * enemy_spacing(w) <= 4 * enemy_spacing(w)
                && ((row as int) + 1) * enemy_spacing(w) == (row as int) * enemy_spacing(w)
                + enemy_spacing(w)) by (nonlinear_arith)
                requires
                    0 <= row <= 4,
                    0 <= enemy_spacing(w),
            ;
        }
        y_pos = y_pos - spacing;
    }
    enemies
}

/// Lays out the barrier row for the given screen width: exactly 4 barriers,
/// evenly spaced, all at full hit points.  The result is fully determined by
/// the argument: it is the row that `is_barrier_formation` describes.
#[verifier::loop_isolation(false)]
pub fn create_barriers(screen_width: i64) -> (barriers: Vec<GameObj>)
    requires
        MIN_SCREEN_DIM <= screen_width <= MAX_SCREEN_DIM,
    ensures
        is_barrier_formation(barriers@, screen_width as int),
{
    let spacing: i64 = (screen_width - 120) * 330;
    let mut x_pos: i64 = 60 * SCALE - screen_width * 660 + (screen_width - 120) * 165;
    let mut barriers: Vec<GameObj> = Vec::new();
    for slot in 0..BARRIER_COUNT
        invariant
            barriers@.len() == slot,
            x_pos == barrier_x0(screen_width as int) + (slot as int) * barrier_spacing(
                screen_width as int,
            ),
            forall|i: int|
                0 <= i < barriers@.len() ==> barriers@[i] == barrier_at(screen_width as int, i),
    {
        let barrier = GameObj::new_barrier(x_pos, BARRIER_POS_Y);
        barriers.push(barrier);
        proof {
            let w = screen_width as int;
            assert(0 <= (slot as int) * barrier_spacing(w) <= 3 * barrier_spacing(w)
                && ((slot as int) + 1) * barrier_spacing(w) == (slot as int) * barrier_spacing(w)
                + barrier_spacing(w)) by (nonlinear_arith)
                requires
                    0 <= slot <= 3,
                    0 <= barrier_spacing(w),
            ;
        }
        x_pos = x_pos + spacing;
    }
    barriers
}

} // verus!
