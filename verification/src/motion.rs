//! Motion integration boundary rules: the player is clamped to the screen,
//! shots despawn silently beyond the vertical extents, and an enemy that
//! strays past an edge raises the formation-wide reversal flag; one that
//! leaks out of the bottom ends the game on the spot.

use vstd::prelude::*;

use crate::collision::all_in_world;
use crate::entity::clamp_sprite;
use crate::entity::GameObj;
use crate::entity::ENEMY_BASE_SPEED;
use crate::entity::GAME_BOUNDS;
use crate::entity::MAX_SCREEN_DIM;
use crate::entity::MIN_SCREEN_DIM;
use crate::state::formation_speed;
use crate::state::MainState;
use crate::state::ENEMY_STEP_DOWN;

verus! {

/// Where the player may stand: half the screen width short of the margin,
/// in subunits.
pub open spec fn player_bound_x(w: int) -> int {
    w * 660 - GAME_BOUNDS
}

/// Half the screen height in subunits: a shot whose `y` leaves this band
/// despawns.
pub open spec fn shot_bound_y(h: int) -> int {
    h * 660
}

/// What `check_player_bounds` leaves behind: the x position clamped into
/// the playfield.
pub open spec fn player_clamped(p: GameObj, w: int) -> GameObj {
    if p.x > player_bound_x(w) {
        GameObj { x: player_bound_x(w) as i64, ..p }
    } else if p.x < -player_bound_x(w) {
        GameObj { x: -player_bound_x(w) as i64, ..p }
    } else {
        p
    }
}

/// What `check_shot_bounds` leaves behind: the shot, despawned (hit points
/// zeroed, silently) if it left the vertical extents.
pub open spec fn shot_culled(s: GameObj, h: int) -> GameObj {
    if s.y > shot_bound_y(h) || s.y < -shot_bound_y(h) {
        GameObj { hit_points: 0, ..s }
    } else {
        s
    }
}

/// An entity displaced by one tick of its own motion.
pub open spec fn moved(e: GameObj) -> GameObj {
    GameObj {
        x: (e.x + e.dir_x * e.speed) as i64,
        y: (e.y + e.dir_y * e.speed) as i64,
        ..e
    }
}

/// Clamps the player's horizontal position into the playfield.
pub fn check_player_bounds(player: &mut GameObj, screen_width: i64)
    requires
        MIN_SCREEN_DIM <= screen_width <= MAX_SCREEN_DIM,
    ensures
        *final(player) == player_clamped(*old(player), screen_width as int),
{
    let screen_bounds: i64 = screen_width * 660 - GAME_BOUNDS;
    if player.get_pos_x() > screen_bounds {
        player.set_pos_x(screen_bounds);
    } else if player.get_pos_x() < -screen_bounds {
        player.set_pos_x(-screen_bounds);
    }
}

/// Despawns a shot that left the screen vertically: its hit points drop to
/// zero with no damage side effect, and the purge removes it.
pub fn check_shot_bounds(shot: &mut GameObj, screen_height: i64)
    requires
        MIN_SCREEN_DIM <= screen_height <= MAX_SCREEN_DIM,
    ensures
        *final(shot) == shot_culled(*old(shot), screen_height as int),
{
    let screen_bounds: i64 = screen_height * 660;
    if shot.get_pos_y() > screen_bounds {
        shot.set_hit_points(0);
    } else if shot.get_pos_y() < -screen_bounds {
        shot.set_hit_points(0);
    }
}

/// Edge and leak check for one enemy: raises the carried formation flag if
/// the enemy is past either horizontal bound, and zeroes the player's hit
/// points if the enemy fell below the bottom bound (a leaked enemy ends the
/// game immediately).
pub fn enemy_pos_calculator(
    enemy: &GameObj,
    player: &mut GameObj,
    reached_corner: bool,
    screen_bounds_x: i64,
    screen_bounds_y: i64,
) -> (reached: bool)
    requires
        screen_bounds_x > i64::MIN,
        screen_bounds_y > i64::MIN,
    ensures
        reached == (reached_corner || enemy.x > screen_bounds_x || enemy.x < -screen_bounds_x),
        (*final(player) == if enemy.y < -screen_bounds_y {
            GameObj { hit_points: 0, ..*old(player) }
        } else {
            *old(player)
        }),
{
    let mut reached_corner_1 = reached_corner;
    if enemy.get_pos_x() > screen_bounds_x {
        reached_corner_1 = true;
    } else if enemy.get_pos_x() < -screen_bounds_x {
        reached_corner_1 = true;
    }
    if enemy.get_pos_y() < -screen_bounds_y {
        player.set_hit_points(0);
    }
    reached_corner_1
}

/// Advances every shot of one ownership group by one tick of motion and
/// despawns those that left the screen vertically.
#[verifier::loop_isolation(false)]
pub fn move_and_cull_shots(shots: &mut Vec<GameObj>, screen_height: i64)
    requires
        MIN_SCREEN_DIM <= screen_height <= MAX_SCREEN_DIM,
        crate::collision::all_in_world(old(shots)@),
    ensures
        final(shots)@.len() == old(shots)@.len(),
        forall|i: int|
            0 <= i < old(shots)@.len() ==> final(shots)@[i] == shot_culled(
                moved(#[trigger] old(shots)@[i]),
                screen_height as int,
            ),
{
    let n = shots.len();
    for i in 0..n
        invariant
            shots@.len() == n,
            forall|k: int|
                0 <= k < i ==> shots@[k] == shot_culled(
                    moved(#[trigger] old(shots)@[k]),
                    screen_height as int,
                ),
            forall|k: int| i <= k < n ==> shots@[k] == (#[trigger] old(shots)@[k]),
    {
        let mut s = shots[i];
        proof {
            assert(s == old(shots)@[i as int]);
            assert(s.in_world());
        }
        s.update_position();
        check_shot_bounds(&mut s, screen_height);
        shots.set(i, s);
    }
}

/// An enemy with its animation sprite flipped, when the sprite timer
/// elapsed this tick.
pub open spec fn enemy_flipped(e: GameObj, flip: bool) -> GameObj {
    if flip {
        GameObj { curr_sprite: clamp_sprite(-e.curr_sprite) as i32, ..e }
    } else {
        e
    }
}

/// An enemy with this tick's shared formation speed.
pub open spec fn enemy_with_speed(e: GameObj, spd: int) -> GameObj {
    GameObj { speed: spd as i64, ..e }
}

/// An enemy after the formation-wide reversal: one descent step down and
/// the horizontal direction negated, when the edge flag was raised.
pub open spec fn enemy_reversed(e: GameObj, flag: bool) -> GameObj {
    if flag {
        GameObj {
            dir_x: (-e.dir_x) as i64,
            dir_y: 0,
            y: (e.y - ENEMY_STEP_DOWN) as i64,
            ..e
        }
    } else {
        e
    }
}

/// One full tick of formation motion for one enemy: sprite animation,
/// shared speed, the reversal (uniform across the formation), then one
/// step of integration.
pub open spec fn enemy_stepped(e: GameObj, flip: bool, flag: bool, spd: int) -> GameObj {
    moved(enemy_reversed(enemy_with_speed(enemy_flipped(e, flip), spd), flag))
}

/// Some enemy stands past a horizontal bound: the whole formation reverses
/// this tick.
pub open spec fn formation_edge(s: Seq<GameObj>, bx: int) -> bool {
    exists|i: int| 0 <= i < s.len() && ((#[trigger] s[i]).x > bx || s[i].x < -bx)
}

/// Some enemy fell below the bottom bound: the game is lost on the spot.
pub open spec fn formation_leak(s: Seq<GameObj>, by: int) -> bool {
    exists|i: int| 0 <= i < s.len() && (#[trigger] s[i]).y < -by
}

impl MainState {
    /// One tick of formation motion: recomputes the shared speed from the
    /// current enemy count, advances the sprite animation timer, checks
    /// every enemy against the screen bounds (raising the formation-wide
    /// edge flag, and zeroing the player's hit points if an enemy leaked
    /// out of the bottom), applies the descend-and-reverse sweep uniformly
    /// if the flag was raised, and integrates every enemy's position.
    #[verifier::loop_isolation(false)]
    #[verifier::rlimit(60)]
    pub fn advance_formation(&mut self)
        requires
            old(self).wf_config(),
            1 <= old(self).enemies@.len() <= 55,
            all_in_world(old(self).enemies@),
            -1 <= old(self).enemy_sprite_timer,
            forall|i: int|
                0 <= i < old(self).enemies@.len() ==> -50000000 <= (#[trigger] old(
                    self,
                ).enemies@[i]).x <= 50000000,
            forall|i: int|
                0 <= i < old(self).enemies@.len() ==> -50000000 <= (#[trigger] old(
                    self,
                ).enemies@[i]).y <= 50000000,
            forall|i: int|
                0 <= i < old(self).enemies@.len() ==> -3 <= (#[trigger] old(
                    self,
                ).enemies@[i]).curr_sprite <= 3,
        ensures
            final(self).enemies@.len() == old(self).enemies@.len(),
            forall|i: int|
                0 <= i < old(self).enemies@.len() ==> final(self).enemies@[i] == enemy_stepped(
                    #[trigger] old(self).enemies@[i],
                    old(self).enemy_sprite_timer <= 0,
                    formation_edge(old(self).enemies@, old(self).bound_x()),
                    formation_speed(old(self).enemies@.len() as int),
                ),
            final(self).player == if formation_leak(old(self).enemies@, old(self).bound_y()) {
                (GameObj { hit_points: 0, ..old(self).player })
            } else {
                old(self).player
            },
            final(self).enemy_sprite_timer == if old(self).enemy_sprite_timer <= 0 {
                (old(self).enemies@.len() as int) / 2
            } else {
                old(self).enemy_sprite_timer - 1
            },
            all_in_world(final(self).enemies@),
            (*final(self) == MainState {
                enemies: final(self).enemies,
                player: final(self).player,
                enemy_sprite_timer: final(self).enemy_sprite_timer,
                ..*old(self)
            }),
    {
        let ghost en0 = self.enemies@;
        let ghost p0 = self.player;
        let bx: i64 = self.screen_width * 660 - GAME_BOUNDS;
        let by: i64 = self.screen_height * 660 - GAME_BOUNDS;

        let t = self.enemy_sprite_timer;
        self.enemy_sprite_timer = if t >= 0 {
            t - 1
        } else {
            -1
        };
        let flip = self.enemy_sprite_timer < 0;
        let ghost timer_dec = self.enemy_sprite_timer;

        let count = self.enemies.len();
        let spd_u: u64 = (ENEMY_BASE_SPEED as u64) / (count as u64);
        let spd: i64 = spd_u as i64;
        proof {
            assert(spd == formation_speed(count as int));
            vstd::arithmetic::div_mod::lemma_div_pos_is_pos(ENEMY_BASE_SPEED as int, count as int);
            vstd::arithmetic::div_mod::lemma_div_nonincreasing(
                ENEMY_BASE_SPEED as int,
                count as int,
            );
        }

        let mut reached_corner = false;
        for i in 0..count
            invariant
                self.enemies@.len() == count,
                forall|k: int|
                    0 <= k < i ==> self.enemies@[k] == enemy_with_speed(
                        enemy_flipped(#[trigger] en0[k], flip),
                        spd as int,
                    ),
                forall|k: int| i <= k < count ==> self.enemies@[k] == (#[trigger] en0[k]),
                reached_corner == exists|j: int|
                    0 <= j < i && ((#[trigger] en0[j]).x > bx || en0[j].x < -bx),
                self.player == if exists|j: int| 0 <= j < i && (#[trigger] en0[j]).y < -by {
                    (GameObj { hit_points: 0, ..p0 })
                } else {
                    p0
                },
                self.enemy_sprite_timer == timer_dec,
                (*self == MainState {
                    enemies: self.enemies,
                    player: self.player,
                    enemy_sprite_timer: self.enemy_sprite_timer,
                    ..*old(self)
                }),
        {
            let mut e = self.enemies[i];
            proof {
                assert(e == en0[i as int]);
            }
            if flip {
                let cs = e.get_curr_sprite();
                e.set_curr_sprite(-cs);
            }
            e.set_speed(spd);
            let ghost reached_before = reached_corner;
            let ghost player_before = self.player;
            reached_corner = enemy_pos_calculator(&e, &mut self.player, reached_corner, bx, by);
            self.enemies.set(i, e);
            proof {
                if reached_corner {
                    if reached_before {
                    } else {
                        assert((en0[i as int].x > bx || en0[i as int].x < -bx));
                    }
                }
            }
        }

        if self.enemy_sprite_timer < 0 {
            // The animation flips after 10 pixels of formation travel, so
            // it speeds up as the formation does: at the shared speed of
            // 600 / count pixels per second that is count / 2 ticks.
            self.enemy_sprite_timer = (count / 2) as i32;
        }
        let ghost timer_after = self.enemy_sprite_timer;
        let ghost player_after = self.player;

        let ghost flag = reached_corner;
        if reached_corner {
            let ghost mid = self.enemies@;
            for i in 0..count
                invariant
                    self.enemies@.len() == count,
                    forall|k: int|
                        0 <= k < i ==> self.enemies@[k] == enemy_reversed(
                            #[trigger] mid[k],
                            true,
                        ),
                    forall|k: int| i <= k < count ==> self.enemies@[k] == (#[trigger] mid[k]),
                    forall|k: int|
                        0 <= k < count ==> mid[k] == enemy_with_speed(
                            enemy_flipped(#[trigger] en0[k], flip),
                            spd as int,
                        ),
                    self.player == player_after,
                    self.enemy_sprite_timer == timer_after,
                    (*self == MainState {
                        enemies: self.enemies,
                        player: self.player,
                        enemy_sprite_timer: self.enemy_sprite_timer,
                        ..*old(self)
                    }),
            {
                let mut e = self.enemies[i];
                proof {
                    assert(e == mid[i as int]);
                    assert(e.y == en0[i as int].y);
                }
                let e_pos_y = e.get_pos_y();
                e.set_pos_y(e_pos_y - ENEMY_STEP_DOWN);
                let e_direction_x = e.get_direction_x();
                e.set_direction(-e_direction_x, 0);
                self.enemies.set(i, e);
            }
        }

        let ghost pre_move = self.enemies@;
        for i in 0..count
            invariant
                self.enemies@.len() == count,
                forall|k: int| 0 <= k < i ==> self.enemies@[k] == moved(#[trigger] pre_move[k]),
                forall|k: int| i <= k < count ==> self.enemies@[k] == (#[trigger] pre_move[k]),
                forall|k: int|
                    0 <= k < count ==> pre_move[k] == enemy_reversed(
                        enemy_with_speed(enemy_flipped(#[trigger] en0[k], flip), spd as int),
                        flag,
                    ),
                self.player == player_after,
                self.enemy_sprite_timer == timer_after,
                (*self == MainState {
                    enemies: self.enemies,
                    player: self.player,
                    enemy_sprite_timer: self.enemy_sprite_timer,
                    ..*old(self)
                }),
        {
            let mut e = self.enemies[i];
            proof {
                assert(e == pre_move[i as int]);
                let base = en0[i as int];
                assert(base.in_world());
                assert(e.speed == spd);
                assert(e.x == base.x);
                assert(e.y == base.y || e.y == base.y - ENEMY_STEP_DOWN);
                assert(e.size == base.size);
                assert(-1 <= e.dir_x <= 1 && -1 <= e.dir_y <= 1);
                assert(e.in_world());
            }
            e.update_position();
            self.enemies.set(i, e);
        }
        proof {
            assert forall|k: int| 0 <= k < count implies (#[trigger] self.enemies@[k]).in_world()
                by {
                let base = en0[k];
                assert(base.in_world());
                assert(self.enemies@[k] == moved(pre_move[k]));
            }
        }
    }
}

/// Maps a world position (origin at the screen center, y up) to screen
/// coordinates (origin at the top left, y down), both in subunits.
pub fn world_to_screen_coords(screen_width: i64, screen_height: i64, x: i64, y: i64) -> (s: (
    i64,
    i64,
))
    requires
        MIN_SCREEN_DIM <= screen_width <= MAX_SCREEN_DIM,
        MIN_SCREEN_DIM <= screen_height <= MAX_SCREEN_DIM,
        -100000000 <= x <= 100000000,
        -100000000 <= y <= 100000000,
    ensures
        s.0 == x + screen_width * 660,
        s.1 == screen_height * 660 - y,
{
    (x + screen_width * 660, screen_height * 660 - y)
}

} // verus!
