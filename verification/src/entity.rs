//! Game entities: the one data type shared by the player, the enemies, the
//! barriers and both kinds of shot, together with its self-contained mutators.
//!
//! All world coordinates, sizes and speeds are held in integer subunits of a
//! pixel, `SCALE` subunits per pixel, so that every motion and layout step is
//! exact integer arithmetic.  `SCALE` is chosen so that the quantities the
//! game divides come out even: it is divisible by 11 (the enemy grid spreads
//! over 11 columns), by 8 (half of a quarter of the barrier span), and by 30
//! (speeds are stated in pixels per second and applied per tick at 30 ticks
//! per second); `20 * SCALE` is divisible by 55 (the full formation count).

use vstd::prelude::*;

verus! {

/// Subunits of world space per pixel.
pub const SCALE: i64 = 1320;

/// Simulation ticks per second of simulated time.
pub const TICKS_PER_SECOND: i64 = 30;

pub const PLAYER_HP: i32 = 3;

pub const ENEMY_HP: i32 = 1;

pub const BARRIER_HP: i32 = 4;

pub const SHOT_HP: i32 = 1;

pub const PLAYER_SIZE: i64 = 12 * SCALE;

pub const ENEMY_SIZE: i64 = 6 * SCALE;

pub const BARRIER_SIZE: i64 = 12 * SCALE;

pub const SHOT_SIZE: i64 = 6 * SCALE;

/// Player speed per tick: 300 pixels per second at 30 ticks per second.
pub const PLAYER_SPEED: i64 = 10 * SCALE;

/// Formation base speed per tick: 600 pixels per second at 30 ticks per
/// second.  The speed of each enemy is this divided by the number of
/// surviving enemies.
pub const ENEMY_BASE_SPEED: i64 = 20 * SCALE;

/// Shot speed per tick: 300 pixels per second at 30 ticks per second.
pub const SHOT_SPEED: i64 = 10 * SCALE;

pub const PLAYER_STARTING_POS_Y: i64 = -290 * SCALE;

/// Margin, in subunits, between the playfield bounds and the screen edges:
/// the player is clamped and the formation reverses 30 pixels short of the
/// edge.
pub const GAME_BOUNDS: i64 = 30 * SCALE;

/// Smallest screen dimension, in pixels, the simulation accepts.
pub const MIN_SCREEN_DIM: i64 = 200;

/// Largest screen dimension, in pixels, the simulation accepts; keeps all
/// world coordinates far from overflow.
pub const MAX_SCREEN_DIM: i64 = 16384;

/// The kind of a game object.  It determines the object's size, speed and
/// hit points, and which collision rules apply to it.
#[derive(Clone, Copy, PartialEq, Eq, Structural, Debug)]
pub enum GameObjType {
    Player,
    Enemy,
    Barrier,
    Shot,
}

/// A single game object: position, velocity direction, scalar speed, hit
/// points and the sprite variant the rendering layer should show.
///
/// `x` and `y` are world coordinates in subunits, origin at the screen
/// center, `y` growing upward.  `dir_x` and `dir_y` are each -1, 0 or 1;
/// the object moves by `dir * speed` subunits per tick.
#[derive(Clone, Copy, PartialEq, Eq, Structural, Debug)]
pub struct GameObj {
    pub tag: GameObjType,
    pub curr_sprite: i32,
    pub x: i64,
    pub y: i64,
    pub speed: i64,
    pub dir_x: i64,
    pub dir_y: i64,
    pub size: i64,
    pub hit_points: i32,
}

/// Coordinates may never leave this box, so that squared distances stay far
/// from `i64` overflow.
pub const MAX_COORD: i64 = 100000000;

/// What `set_curr_sprite` stores: the requested variant clamped to the range
/// of sprite variants that exist, -2 through 3.
pub open spec fn clamp_sprite(s: int) -> int {
    if s < -2 {
        -2
    } else if s > 3 {
        3
    } else {
        s
    }
}

/// What `set_hit_points` stores: the requested value, clamped below zero
/// only — hit points can never be written negative, and a kind's full
/// health (a barrier's 4) is stored as given.
pub open spec fn clamp_hp(hp: int) -> int {
    if hp < 0 {
        0
    } else {
        hp
    }
}

impl GameObj {
    /// A direction component is -1, 0 or 1.
    pub open spec fn dirs_valid(self) -> bool {
        -1 <= self.dir_x <= 1 && -1 <= self.dir_y <= 1
    }

    /// Bounds under which one motion step cannot overflow and squared
    /// distances stay within `i64`.
    pub open spec fn in_world(self) -> bool {
        &&& -MAX_COORD <= self.x <= MAX_COORD
        &&& -MAX_COORD <= self.y <= MAX_COORD
        &&& 0 <= self.speed <= ENEMY_BASE_SPEED
        &&& 0 < self.size <= BARRIER_SIZE
        &&& self.dirs_valid()
    }

    pub fn new(
        tag: GameObjType,
        x: i64,
        y: i64,
        speed: i64,
        dir_x: i64,
        dir_y: i64,
        size: i64,
        hit_points: i32,
    ) -> (obj: GameObj)
        ensures
            (obj == GameObj {
                tag,
                curr_sprite: 0,
                x,
                y,
                speed,
                dir_x,
                dir_y,
                size,
                hit_points,
            }),
    {
        GameObj { tag, curr_sprite: 0, x, y, speed, dir_x, dir_y, size, hit_points }
    }

    /// The spec of a freshly spawned player: centered horizontally, at the
    /// fixed starting height, standing still.
    pub open spec fn player_spawn() -> GameObj {
        GameObj {
            tag: GameObjType::Player,
            curr_sprite: 0,
            x: 0,
            y: PLAYER_STARTING_POS_Y,
            speed: PLAYER_SPEED,
            dir_x: 0,
            dir_y: 0,
            size: PLAYER_SIZE,
            hit_points: PLAYER_HP,
        }
    }

    pub fn new_player() -> (obj: GameObj)
        ensures
            obj == GameObj::player_spawn(),
    {
        GameObj::new(
            GameObjType::Player,
            0,
            PLAYER_STARTING_POS_Y,
            PLAYER_SPEED,
            0,
            0,
            PLAYER_SIZE,
            PLAYER_HP,
        )
    }

    /// The spec of a shot spawned at `(x, y)` heading in `(dir_x, dir_y)`.
    pub open spec fn shot_spawn(x: i64, y: i64, dir_x: i64, dir_y: i64) -> GameObj {
        GameObj {
            tag: GameObjType::Shot,
            curr_sprite: 0,
            x,
            y,
            speed: SHOT_SPEED,
            dir_x,
            dir_y,
            size: SHOT_SIZE,
            hit_points: SHOT_HP,
        }
    }

    pub fn new_shot(x: i64, y: i64, dir_x: i64, dir_y: i64) -> (obj: GameObj)
        ensures
            obj == GameObj::shot_spawn(x, y, dir_x, dir_y),
    {
        GameObj::new(GameObjType::Shot, x, y, SHOT_SPEED, dir_x, dir_y, SHOT_SIZE, SHOT_HP)
    }

    /// The spec of a freshly spawned enemy at `(x, y)`: full base speed,
    /// marching to the right.
    pub open spec fn enemy_spawn(x: i64, y: i64) -> GameObj {
        GameObj {
            tag: GameObjType::Enemy,
            curr_sprite: 0,
            x,
            y,
            speed: ENEMY_BASE_SPEED,
            dir_x: 1,
            dir_y: 0,
            size: ENEMY_SIZE,
            hit_points: ENEMY_HP,
        }
    }

    pub fn new_enemy(x: i64, y: i64) -> (obj: GameObj)
        ensures
            obj == GameObj::enemy_spawn(x, y),
    {
        GameObj::new(GameObjType::Enemy, x, y, ENEMY_BASE_SPEED, 1, 0, ENEMY_SIZE, ENEMY_HP)
    }

    /// The spec of a freshly spawned barrier at `(x, y)`: stationary, at
    /// full hit points, showing the undamaged sprite.
    pub open spec fn barrier_spawn(x: i64, y: i64) -> GameObj {
        GameObj {
            tag: GameObjType::Barrier,
            curr_sprite: 0,
            x,
            y,
            speed: 0,
            dir_x: 0,
            dir_y: 0,
            size: BARRIER_SIZE,
            hit_points: BARRIER_HP,
        }
    }

    pub fn new_barrier(x: i64, y: i64) -> (obj: GameObj)
        ensures
            obj == GameObj::barrier_spawn(x, y),
    {
        GameObj::new(GameObjType::Barrier, x, y, 0, 0, 0, BARRIER_SIZE, BARRIER_HP)
    }

    /// Advances the position by one tick of motion: `dir * speed` on each
    /// axis.
    pub fn update_position(&mut self)
        requires
            old(self).in_world(),
        ensures
            (*final(self) == GameObj {
                x: (old(self).x + old(self).dir_x * old(self).speed) as i64,
                y: (old(self).y + old(self).dir_y * old(self).speed) as i64,
                ..*old(self)
            }),
            final(self).x == old(self).x + old(self).dir_x * old(self).speed,
            final(self).y == old(self).y + old(self).dir_y * old(self).speed,
    {
        proof {
            assert(-ENEMY_BASE_SPEED <= self.dir_x * self.speed <= ENEMY_BASE_SPEED) by (nonlinear_arith)
                requires
                    -1 <= self.dir_x <= 1,
                    0 <= self.speed <= ENEMY_BASE_SPEED,
            ;
            assert(-ENEMY_BASE_SPEED <= self.dir_y * self.speed <= ENEMY_BASE_SPEED) by (nonlinear_arith)
                requires
                    -1 <= self.dir_y <= 1,
                    0 <= self.speed <= ENEMY_BASE_SPEED,
            ;
        }
        self.x = self.x + self.dir_x * self.speed;
        self.y = self.y + self.dir_y * self.speed;
    }

    pub fn get_pos(&self) -> (pos: (i64, i64))
        ensures
            pos == (self.x, self.y),
    {
        (self.x, self.y)
    }

    pub fn get_pos_x(&self) -> (x: i64)
        ensures
            x == self.x,
    {
        self.x
    }

    pub fn get_pos_y(&self) -> (y: i64)
        ensures
            y == self.y,
    {
        self.y
    }

    pub fn set_pos(&mut self, x: i64, y: i64)
        ensures
            (*final(self) == GameObj { x, y, ..*old(self) }),
    {
        self.x = x;
        self.y = y;
    }

    pub fn set_pos_x(&mut self, x: i64)
        ensures
            (*final(self) == GameObj { x, ..*old(self) }),
    {
        self.x = x;
    }

    pub fn set_pos_y(&mut self, y: i64)
        ensures
            (*final(self) == GameObj { y, ..*old(self) }),
    {
        self.y = y;
    }

    pub fn get_speed(&self) -> (speed: i64)
        ensures
            speed == self.speed,
    {
        self.speed
    }

    pub fn set_speed(&mut self, speed: i64)
        ensures
            (*final(self) == GameObj { speed, ..*old(self) }),
    {
        self.speed = speed;
    }

    pub fn get_direction(&self) -> (dir: (i64, i64))
        ensures
            dir == (self.dir_x, self.dir_y),
    {
        (self.dir_x, self.dir_y)
    }

    pub fn get_direction_x(&self) -> (dir: i64)
        ensures
            dir == self.dir_x,
    {
        self.dir_x
    }

    pub fn get_direction_y(&self) -> (dir: i64)
        ensures
            dir == self.dir_y,
    {
        self.dir_y
    }

    pub fn set_direction(&mut self, dir_x: i64, dir_y: i64)
        ensures
            (*final(self) == GameObj { dir_x, dir_y, ..*old(self) }),
    {
        self.dir_x = dir_x;
        self.dir_y = dir_y;
    }

    pub fn set_direction_x(&mut self, dir_x: i64)
        ensures
            (*final(self) == GameObj { dir_x, ..*old(self) }),
    {
        self.dir_x = dir_x;
    }

    pub fn set_direction_y(&mut self, dir_y: i64)
        ensures
            (*final(self) == GameObj { dir_y, ..*old(self) }),
    {
        self.dir_y = dir_y;
    }

    pub fn get_tag(&self) -> (tag: GameObjType)
        ensures
            tag == self.tag,
    {
        self.tag
    }

    pub fn get_curr_sprite(&self) -> (sprite: i32)
        ensures
            sprite == self.curr_sprite,
    {
        self.curr_sprite
    }

    /// Stores the requested sprite variant, clamped to the variants that
    /// exist (-2 through 3).
    pub fn set_curr_sprite(&mut self, curr_sprite: i32)
        ensures
            (*final(self) == GameObj {
                curr_sprite: clamp_sprite(curr_sprite as int) as i32,
                ..*old(self)
            }),
    {
        if curr_sprite < -2 {
            self.curr_sprite = -2;
        } else if curr_sprite > 3 {
            self.curr_sprite = 3;
        } else {
            self.curr_sprite = curr_sprite;
        }
    }

    pub fn get_size(&self) -> (size: i64)
        ensures
            size == self.size,
    {
        self.size
    }

    pub fn get_hit_points(&self) -> (hp: i32)
        ensures
            hp == self.hit_points,
    {
        self.hit_points
    }

    /// Stores the requested hit points, clamped below zero only: hit
    /// points can never be written negative.
    pub fn set_hit_points(&mut self, hp: i32)
        ensures
            (*final(self) == GameObj { hit_points: clamp_hp(hp as int) as i32, ..*old(self) }),
            final(self).hit_points >= 0,
    {
        if hp < 0 {
            self.hit_points = 0;
        } else {
            self.hit_points = hp;
        }
    }

    /// Takes one point of damage, never dropping below zero.
    pub fn sub_hit_points(&mut self)
        ensures
            (*final(self) == GameObj {
                hit_points: if old(self).hit_points > 0 {
                    (old(self).hit_points - 1) as i32
                } else {
                    0
                },
                ..*old(self)
            }),
    {
        if self.hit_points > 0 {
            self.hit_points = self.hit_points - 1;
        } else {
            self.hit_points = 0;
        }
    }
}

} // verus!
