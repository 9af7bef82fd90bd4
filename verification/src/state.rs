//! Game state: the aggregate owner of every entity collection, the score,
//! the wave index and the cooldown timers, together with the two-state
//! machine (`Running`, then terminally `Over`) and the per-tick
//! orchestration.

use vstd::prelude::*;

use crate::collision::all_in_world;
use crate::collision::barrier_after;
use crate::collision::count_hitting;
use crate::collision::enemy_after;
use crate::collision::eshot_after;
use crate::collision::lemma_count_hitting_bounds;
use crate::collision::lemma_pair_hits_nonneg;
use crate::collision::pair_hits;
use crate::collision::player_after;
use crate::collision::pshot_after;
use crate::collision::sat_add_u64;
use crate::entity::GameObj;
use crate::entity::GameObjType;
use crate::entity::BARRIER_HP;
use crate::entity::BARRIER_SIZE;
use crate::entity::ENEMY_BASE_SPEED;
use crate::entity::ENEMY_HP;
use crate::entity::ENEMY_SIZE;
use crate::entity::GAME_BOUNDS;
use crate::entity::MAX_SCREEN_DIM;
use crate::entity::MIN_SCREEN_DIM;
use crate::entity::PLAYER_HP;
use crate::entity::PLAYER_SIZE;
use crate::entity::PLAYER_SPEED;
use crate::entity::PLAYER_STARTING_POS_Y;
use crate::entity::SCALE;
use crate::entity::SHOT_HP;
use crate::entity::SHOT_SIZE;
use crate::entity::SHOT_SPEED;
use crate::formation::create_barriers;
use crate::formation::BARRIER_POS_Y;
use crate::formation::create_enemies;
use crate::formation::barrier_at;
use crate::formation::enemy_at;
use crate::formation::is_barrier_formation;
use crate::formation::is_enemy_formation;
use crate::formation::lemma_barrier_formation_ok;
use crate::formation::lemma_enemy_formation_ok;
use crate::formation::MAX_DIFF_LEVEL;
use crate::lifecycle::lemma_live_only_live;
use crate::lifecycle::lemma_live_only_members;
use crate::lifecycle::live_only;
use crate::motion::check_player_bounds;
use crate::motion::enemy_stepped;
use crate::motion::move_and_cull_shots;
use crate::motion::player_clamped;
use crate::motion::formation_edge;
use crate::motion::formation_leak;
use crate::motion::moved;
use crate::motion::player_bound_x;
use crate::motion::shot_bound_y;
use crate::motion::shot_culled;

verus! {

/// Ticks of cooldown between two player shots: 0.5 s at 30 ticks/s.
pub const PLAYER_SHOT_TICKS: i32 = 15;

/// Ticks of cooldown between two enemy shots: 1.0 s at 30 ticks/s.
pub const ENEMY_SHOT_TICKS: i32 = 30;

/// How far the formation descends when it reverses: 15 pixels.
pub const ENEMY_STEP_DOWN: i64 = 15 * SCALE;

/// Vertical offset between a shooter and its freshly spawned shot: 20
/// pixels.
pub const SHOT_SPAWN_OFFSET: i64 = 20 * SCALE;

/// The two states of the simulation: it runs until the player's hit points
/// reach zero, and the `Over` state is terminal.
#[derive(Clone, Copy, PartialEq, Eq, Structural, Debug)]
pub enum GameStatus {
    Running,
    Over,
}

/// The input snapshot the simulation consumes once per tick.
#[derive(Clone, Copy, PartialEq, Eq, Structural, Debug)]
pub struct InputState {
    /// Horizontal axis: -1, 0 or 1.
    pub xaxis: i64,
    /// Whether the fire key is held.
    pub is_firing: bool,
}

impl Default for InputState {
    /// Neutral input: no horizontal motion, not firing.
    fn default() -> (input: InputState)
        ensures
            input.xaxis == 0,
            !input.is_firing,
    {
        InputState { xaxis: 0, is_firing: false }
    }
}

/// The interface snapshot handed out when the refresh flag was set.
#[derive(Clone, Copy, PartialEq, Eq, Structural, Debug)]
pub struct HudInfo {
    pub score: u64,
    pub level: i64,
    pub player_hit_points: i32,
}

/// What one simulation tick emits for the presentation layer: audio cues
/// (each at most once per tick), the interface snapshot when it needs a
/// refresh, and the end-of-game signal with the final score.
#[derive(Clone, Copy, PartialEq, Eq, Debug)]
pub struct TickOutput {
    /// The player fired this tick.
    pub shot_fired: bool,
    /// At least one enemy was hit by a player shot this tick.
    pub enemy_hit: bool,
    /// The player was hit by at least one enemy shot this tick.
    pub player_hit: bool,
    /// The interface snapshot, when the refresh flag was consumed.
    pub hud: Option<HudInfo>,
    /// The final score, on the one tick the state machine moves to `Over`.
    pub game_over: Option<u64>,
}

/// A homogeneous rendering descriptor: everything the rendering layer needs
/// to draw one entity.
#[derive(Clone, Copy, PartialEq, Eq, Structural, Debug)]
pub struct RenderRequest {
    pub tag: GameObjType,
    pub visual_variant: i32,
    pub x: i64,
    pub y: i64,
    /// Horizontal facing: the sign of the entity's horizontal direction.
    pub facing: i64,
}

/// The speed of each enemy this tick: the formation base speed divided by
/// the number of survivors, so fewer survivors march faster.
pub open spec fn formation_speed(count: int) -> int {
    ENEMY_BASE_SPEED as int / count
}

/// The rendering descriptor of one entity.
pub open spec fn render_of(e: GameObj) -> RenderRequest {
    RenderRequest { tag: e.tag, visual_variant: e.curr_sprite, x: e.x, y: e.y, facing: e.dir_x }
}

/// Builds the rendering descriptor of one entity.
pub fn render_request_for(e: &GameObj) -> (req: RenderRequest)
    ensures
        req == render_of(*e),
{
    RenderRequest {
        tag: e.get_tag(),
        visual_variant: e.get_curr_sprite(),
        x: e.get_pos_x(),
        y: e.get_pos_y(),
        facing: e.get_direction_x(),
    }
}

pub struct MainState {
    pub player: GameObj,
    pub enemies: Vec<GameObj>,
    pub barriers: Vec<GameObj>,
    pub shots_player: Vec<GameObj>,
    pub shots_enemy: Vec<GameObj>,
    /// Wave index; drives the formation difficulty, clamped at
    /// `MAX_DIFF_LEVEL`.
    pub level: i64,
    pub score: u64,
    pub screen_width: i64,
    pub screen_height: i64,
    pub player_shot_timeout: i32,
    pub enemy_shot_timeout: i32,
    pub enemy_sprite_timer: i32,
    /// Whether the interface snapshot must be handed out at the end of the
    /// tick.
    pub gui_dirty: bool,
    pub status: GameStatus,
}

/// The player keeps its spawn geometry: fixed size, speed and vertical
/// position, a valid horizontal direction, and a position inside the
/// playfield clamp bounds.
pub open spec fn player_ok(p: GameObj, w: int) -> bool {
    &&& p.tag == GameObjType::Player
    &&& p.size == PLAYER_SIZE
    &&& p.speed == PLAYER_SPEED
    &&& 0 <= p.hit_points <= PLAYER_HP
    &&& p.y == PLAYER_STARTING_POS_Y
    &&& -1 <= p.dir_x <= 1
    &&& p.dir_y == 0
    &&& -player_bound_x(w) <= p.x <= player_bound_x(w)
    &&& p.curr_sprite == 0
}

pub open spec fn enemy_entity_ok(e: GameObj) -> bool {
    &&& e.tag == GameObjType::Enemy
    &&& e.size == ENEMY_SIZE
    &&& 0 < e.hit_points <= ENEMY_HP
    &&& e.dir_y == 0
    &&& (e.dir_x == 1 || e.dir_x == -1)
    &&& 0 < e.speed <= ENEMY_BASE_SPEED
    &&& (e.curr_sprite == 1 || e.curr_sprite == 2 || e.curr_sprite == -1 || e.curr_sprite == -2)
}

/// The formation invariant.  Every enemy is a well-formed enemy; the whole
/// formation marches in one shared horizontal direction; and no enemy is
/// further past the reversal bound than one tick of the current formation
/// speed can carry it, on the side it is marching toward.
pub open spec fn enemies_ok(s: Seq<GameObj>, w: int, h: int) -> bool {
    let bx = player_bound_x(w);
    let spd = formation_speed(s.len() as int);
    &&& 1 <= s.len() <= 55
    &&& forall|i: int| 0 <= i < s.len() ==> enemy_entity_ok(#[trigger] s[i])
    &&& forall|i: int| 0 <= i < s.len() ==> (#[trigger] s[i]).dir_x == s[0].dir_x
    &&& (s[0].dir_x == 1 ==> forall|i: int|
        0 <= i < s.len() ==> -bx <= (#[trigger] s[i]).x <= bx + spd)
    &&& (s[0].dir_x == -1 ==> forall|i: int|
        0 <= i < s.len() ==> -bx - spd <= (#[trigger] s[i]).x <= bx)
    &&& forall|i: int| 0 <= i < s.len() ==> -660 * h <= (#[trigger] s[i]).y <= 250 * SCALE
}

/// While the game runs, no enemy is more than one descent step below the
/// loss line: one that falls past it ends the game within a tick.
pub open spec fn enemies_above_loss(s: Seq<GameObj>, by: int) -> bool {
    forall|i: int| 0 <= i < s.len() ==> (#[trigger] s[i]).y >= -by - ENEMY_STEP_DOWN
}

pub open spec fn barrier_entity_ok(b: GameObj) -> bool {
    &&& b.tag == GameObjType::Barrier
    &&& b.size == BARRIER_SIZE
    &&& 0 < b.hit_points <= BARRIER_HP
    &&& b.speed == 0
    &&& b.dir_x == 0
    &&& b.dir_y == 0
    &&& 0 <= b.curr_sprite <= 3
    &&& b.y == BARRIER_POS_Y
}

pub open spec fn barriers_ok(s: Seq<GameObj>, w: int) -> bool {
    &&& s.len() <= 4
    &&& forall|i: int| 0 <= i < s.len() ==> barrier_entity_ok(#[trigger] s[i])
    &&& forall|i: int| 0 <= i < s.len() ==> -660 * w <= (#[trigger] s[i]).x <= 660 * w
}

/// A live shot of one ownership group: `dir_y` is 1 for player shots and
/// -1 for enemy shots; the two groups never damage their own owner's side.
pub open spec fn shot_entity_ok(s: GameObj, dir_y: int) -> bool {
    &&& s.tag == GameObjType::Shot
    &&& s.size == SHOT_SIZE
    &&& s.hit_points == SHOT_HP
    &&& s.speed == SHOT_SPEED
    &&& s.dir_x == 0
    &&& s.dir_y == dir_y
    &&& s.curr_sprite == 0
}

pub open spec fn shots_ok(s: Seq<GameObj>, dir_y: int, w: int, h: int) -> bool {
    forall|i: int|
        0 <= i < s.len() ==> {
            &&& shot_entity_ok(#[trigger] s[i], dir_y)
            &&& -660 * w <= s[i].x <= 660 * w
            &&& -shot_bound_y(h) <= s[i].y <= shot_bound_y(h)
        }
}

/// Carries a shot group's well-formedness through one tick: spawning left
/// every member a well-formed shot of the group, motion displaced it by its
/// own velocity and culled it beyond the vertical extents, collision
/// resolution at most zeroed it, and the purge kept exactly the live ones,
/// which are therefore well-formed shots inside the screen.
pub proof fn lemma_shots_pipeline(
    w: int,
    h: int,
    dir: int,
    s_spawn: Seq<GameObj>,
    s_stepped: Seq<GameObj>,
    s_coll: Seq<GameObj>,
)
    requires
        MIN_SCREEN_DIM <= w <= MAX_SCREEN_DIM,
        MIN_SCREEN_DIM <= h <= MAX_SCREEN_DIM,
        dir == 1 || dir == -1,
        forall|i: int|
            0 <= i < s_spawn.len() ==> shot_entity_ok(#[trigger] s_spawn[i], dir) && -660 * w
                <= s_spawn[i].x <= 660 * w,
        s_stepped.len() == s_spawn.len(),
        forall|i: int|
            0 <= i < s_stepped.len() ==> s_stepped[i] == shot_culled(
                moved(#[trigger] s_spawn[i]),
                h,
            ),
        s_coll.len() == s_stepped.len(),
        forall|i: int|
            0 <= i < s_coll.len() ==> s_coll[i] == (#[trigger] s_stepped[i]) || s_coll[i]
                == (GameObj { hit_points: 0, ..s_stepped[i] }),
    ensures
        shots_ok(live_only(s_coll), dir, w, h),
{
    lemma_live_only_live(s_coll);
    lemma_live_only_members(s_coll);
    let survivors = live_only(s_coll);
    assert forall|i: int| 0 <= i < survivors.len() implies {
        &&& shot_entity_ok(#[trigger] survivors[i], dir)
        &&& -660 * w <= survivors[i].x <= 660 * w
        &&& -shot_bound_y(h) <= survivors[i].y <= shot_bound_y(h)
    } by {
        let j = choose|j: int| 0 <= j < s_coll.len() && survivors[i] == s_coll[j];
        assert(s_coll[j].hit_points != 0);
        assert(s_coll[j] == s_stepped[j]);
        assert(s_stepped[j] == shot_culled(moved(s_spawn[j]), h));
        assert(moved(s_spawn[j]).x == s_spawn[j].x);
    }
}

/// Carries the formation invariant through one tick: the descend-and-
/// reverse sweep keeps the formation uniform and within one step of the
/// reversal bounds, collision resolution at most zeroes enemies, and the
/// purge keeps a (possibly empty) sub-formation of survivors.
#[verifier::rlimit(60)]
pub proof fn lemma_enemies_pipeline(
    w: int,
    h: int,
    en0: Seq<GameObj>,
    flip: bool,
    spd: int,
    en_stepped: Seq<GameObj>,
    en_coll: Seq<GameObj>,
)
    requires
        MIN_SCREEN_DIM <= w <= MAX_SCREEN_DIM,
        MIN_SCREEN_DIM <= h <= MAX_SCREEN_DIM,
        enemies_ok(en0, w, h),
        enemies_above_loss(en0, h * 660 - GAME_BOUNDS),
        spd == formation_speed(en0.len() as int),
        en_stepped.len() == en0.len(),
        forall|i: int|
            0 <= i < en_stepped.len() ==> en_stepped[i] == enemy_stepped(
                #[trigger] en0[i],
                flip,
                formation_edge(en0, player_bound_x(w)),
                spd,
            ),
        en_coll.len() == en_stepped.len(),
        forall|i: int|
            0 <= i < en_coll.len() ==> en_coll[i] == (#[trigger] en_stepped[i]) || en_coll[i]
                == (GameObj { hit_points: 0, ..en_stepped[i] }),
    ensures
        live_only(en_coll).len() <= en0.len(),
        live_only(en_coll).len() >= 1 ==> enemies_ok(live_only(en_coll), w, h),
        !formation_leak(en0, h * 660 - GAME_BOUNDS) ==> enemies_above_loss(
            live_only(en_coll),
            h * 660 - GAME_BOUNDS,
        ),
{
    let bx = player_bound_x(w);
    let by = h * 660 - GAME_BOUNDS;
    let flag = formation_edge(en0, bx);
    let d = en0[0].dir_x as int;
    let d2 = if flag {
        -d
    } else {
        d
    };
    let count = en0.len() as int;
    vstd::arithmetic::div_mod::lemma_div_non_zero(ENEMY_BASE_SPEED as int, count);
    vstd::arithmetic::div_mod::lemma_div_nonincreasing(ENEMY_BASE_SPEED as int, count);

    // Pointwise characterization of the stepped formation.
    assert forall|i: int| 0 <= i < en_stepped.len() implies {
        let e = #[trigger] en_stepped[i];
        let b = en0[i];
        &&& e.tag == b.tag
        &&& e.size == b.size
        &&& e.hit_points == b.hit_points
        &&& e.speed == spd
        &&& e.dir_y == 0
        &&& e.dir_x == d2
        &&& (e.curr_sprite == 1 || e.curr_sprite == 2 || e.curr_sprite == -1 || e.curr_sprite
            == -2)
        &&& (d2 == 1 ==> -bx <= e.x <= bx + spd)
        &&& (d2 == -1 ==> -bx - spd <= e.x <= bx)
        &&& e.y >= b.y - ENEMY_STEP_DOWN
        &&& e.y <= b.y
        &&& (!flag ==> e.y == b.y)
    } by {
        let b = en0[i];
        assert(enemy_entity_ok(b));
        let e1 = crate::motion::enemy_flipped(b, flip);
        let e2 = crate::motion::enemy_with_speed(e1, spd);
        let e3 = crate::motion::enemy_reversed(e2, flag);
        assert(en_stepped[i] == moved(e3));
        assert(e1.curr_sprite == 1 || e1.curr_sprite == 2 || e1.curr_sprite == -1
            || e1.curr_sprite == -2);
        assert(e1.x == b.x && e1.y == b.y && e1.dir_x == b.dir_x && e1.dir_y == 0);
        assert(e2 == (GameObj { speed: spd as i64, ..e1 }));
        assert(-660 * h - ENEMY_STEP_DOWN <= b.y - ENEMY_STEP_DOWN <= 250 * SCALE);
        if flag {
            assert(e3.dir_x == -b.dir_x && e3.dir_y == 0 && e3.y == b.y - ENEMY_STEP_DOWN
                && e3.x == b.x);
        } else {
            assert(!(b.x > bx || b.x < -bx));
            assert(e3 == e2);
        }
        assert(e3.dir_y as int * e3.speed as int == 0) by (nonlinear_arith)
            requires
                e3.dir_y == 0,
        ;
        if e3.dir_x == 1 {
            assert(e3.dir_x as int * e3.speed as int == spd) by (nonlinear_arith)
                requires
                    e3.dir_x == 1,
                    e3.speed == spd,
            ;
        }
        if e3.dir_x == -1 {
            assert(e3.dir_x as int * e3.speed as int == -spd) by (nonlinear_arith)
                requires
                    e3.dir_x == -1,
                    e3.speed == spd,
            ;
        }
    }

    let survivors = live_only(en_coll);
    lemma_live_only_live(en_coll);
    lemma_live_only_members(en_coll);
    if survivors.len() >= 1 {
        let spd2 = formation_speed(survivors.len() as int);
        vstd::arithmetic::div_mod::lemma_div_is_ordered_by_denominator(
            ENEMY_BASE_SPEED as int,
            survivors.len() as int,
            count,
        );
        assert forall|i: int| 0 <= i < survivors.len() implies {
            let e = #[trigger] survivors[i];
            &&& enemy_entity_ok(e)
            &&& e.dir_x == d2
            &&& (d2 == 1 ==> -bx <= e.x <= bx + spd2)
            &&& (d2 == -1 ==> -bx - spd2 <= e.x <= bx)
            &&& -660 * h <= e.y <= 250 * SCALE
        } by {
            let j = choose|j: int| 0 <= j < en_coll.len() && survivors[i] == en_coll[j];
            assert(en_coll[j].hit_points != 0);
            assert(en_coll[j] == en_stepped[j]);
            assert(enemy_entity_ok(en0[j]));
        }
        assert(survivors[0].dir_x == d2);
    }
    if !formation_leak(en0, by) {
        assert forall|i: int| 0 <= i < survivors.len() implies (#[trigger] survivors[i]).y >= -by
            - ENEMY_STEP_DOWN by {
            let j = choose|j: int| 0 <= j < en_coll.len() && survivors[i] == en_coll[j];
            assert(en_coll[j] == en_stepped[j] || en_coll[j] == (GameObj {
                hit_points: 0,
                ..en_stepped[j]
            }));
            assert(!(en0[j].y < -by));
        }
    }
}

/// Carries the barrier invariant through one tick: collision resolution
/// only lowers hit points (never below zero) and advances the damage
/// sprite (never past the last stage), and the purge keeps the live ones.
pub proof fn lemma_barriers_pipeline(w: int, ba0: Seq<GameObj>, ba_coll: Seq<GameObj>)
    requires
        barriers_ok(ba0, w),
        ba_coll.len() == ba0.len(),
        forall|i: int|
            0 <= i < ba_coll.len() ==> {
                let b2 = #[trigger] ba_coll[i];
                let b = ba0[i];
                &&& b2.tag == b.tag
                &&& b2.size == b.size
                &&& b2.speed == b.speed
                &&& b2.dir_x == b.dir_x
                &&& b2.dir_y == b.dir_y
                &&& b2.x == b.x
                &&& b2.y == b.y
                &&& 0 <= b2.hit_points <= b.hit_points
                &&& 0 <= b2.curr_sprite <= 3
            },
    ensures
        barriers_ok(live_only(ba_coll), w),
{
    lemma_live_only_live(ba_coll);
    lemma_live_only_members(ba_coll);
    let survivors = live_only(ba_coll);
    assert forall|i: int| 0 <= i < survivors.len() implies barrier_entity_ok(
        #[trigger] survivors[i],
    ) && -660 * w <= survivors[i].x <= 660 * w by {
        let j = choose|j: int| 0 <= j < ba_coll.len() && survivors[i] == ba_coll[j];
        assert(barrier_entity_ok(ba0[j]));
    }
}

/// Whenever the survivor count divides the base speed evenly, the count
/// and the per-enemy speed multiply back to the base speed exactly: the
/// `base / count` law loses nothing to rounding on such counts.
pub proof fn lemma_formation_speed_scaling(count: int)
    requires
        1 <= count,
        ENEMY_BASE_SPEED as int % count == 0,
    ensures
        count * formation_speed(count) == ENEMY_BASE_SPEED,
{
    vstd::arithmetic::div_mod::lemma_fundamental_div_mod(ENEMY_BASE_SPEED as int, count);
}

/// Reducing the enemy collection from the full 55 to a single survivor
/// raises the formation speed by exactly a factor of 55.
pub proof fn lemma_formation_speed_full_wave()
    ensures
        formation_speed(1) == 55 * formation_speed(55),
{
    assert(ENEMY_BASE_SPEED as int / 1 == 26400);
    assert(ENEMY_BASE_SPEED as int / 55 == 480);
}

/// The player cooldown before the next tick, while the fire key is held:
/// the tick fires (and resets the cooldown) exactly when the decremented
/// cooldown has reached zero, that is, when the stored value is at most 1.
/// This mirrors the cooldown clause of `update`'s postcondition for a tick
/// with `is_firing` set.
pub open spec fn player_cooldown_next(t: int) -> int {
    if t <= 1 {
        PLAYER_SHOT_TICKS as int
    } else {
        t - 1
    }
}

pub open spec fn player_cooldown_after(t0: int, n: nat) -> int
    decreases n,
{
    if n == 0 {
        t0
    } else {
        player_cooldown_next(player_cooldown_after(t0, (n - 1) as nat))
    }
}

/// Holding fire every tick produces exactly one shot per cooldown period:
/// starting from a tick that just fired (cooldown reset to
/// `PLAYER_SHOT_TICKS`), the cooldown before the `n`-th following tick is
/// `PLAYER_SHOT_TICKS - n + 1`, so the fire condition holds again exactly
/// at the `PLAYER_SHOT_TICKS`-th tick — one shot per 0.5 s of simulated
/// time (15 ticks at 30 ticks/s), and never more than one per tick.
pub proof fn lemma_player_fire_cadence(n: nat)
    requires
        1 <= n <= PLAYER_SHOT_TICKS,
    ensures
        player_cooldown_after(PLAYER_SHOT_TICKS as int, (n - 1) as nat) == PLAYER_SHOT_TICKS - n
            + 1,
        (player_cooldown_after(PLAYER_SHOT_TICKS as int, (n - 1) as nat) <= 1) <==> (n
            == PLAYER_SHOT_TICKS),
    decreases n,
{
    if n > 1 {
        lemma_player_fire_cadence((n - 1) as nat);
    }
}

/// The staged values of one tick of a running game, in the per-tick
/// order, with `j` the index of the enemy that fires this tick (any index
/// serves when the enemy cooldown does not elapse): the shot groups after
/// spawning, everything after motion with the boundary rules, the
/// formation after the sweep, every group after collision resolution, and
/// the purge and wave-progression outcomes.
pub struct TickStages {
    pub fired: bool,
    pub efired: bool,
    pub sp_spawn: Seq<GameObj>,
    pub se_spawn: Seq<GameObj>,
    pub p_moved: GameObj,
    pub sp_moved: Seq<GameObj>,
    pub se_moved: Seq<GameObj>,
    pub en_stepped: Seq<GameObj>,
    pub p_leaked: GameObj,
    pub sp_coll: Seq<GameObj>,
    pub se_coll: Seq<GameObj>,
    pub en_coll: Seq<GameObj>,
    pub ba_coll: Seq<GameObj>,
    pub p_coll: GameObj,
    pub pairs: int,
    pub phits: int,
    pub en_purged: Seq<GameObj>,
    pub wave_cleared: bool,
    pub lvl: int,
    pub dirty: bool,
}

/// Computes the staged values of one tick from the pre-state, the input
/// snapshot and the shooter index.
pub open spec fn tick_stages(pre: MainState, input: InputState, j: int) -> TickStages {
    let w = pre.screen_width as int;
    let h = pre.screen_height as int;
    let fired = input.is_firing && pre.player_shot_timeout <= 1;
    let efired = pre.enemy_shot_timeout <= 1;
    // Firing phase: aim the player, spawn the shots that are due.
    let p_aimed = (GameObj { dir_x: input.xaxis, dir_y: 0, ..pre.player });
    let sp_spawn = if fired {
        pre.shots_player@.push(
            GameObj::shot_spawn(pre.player.x, (pre.player.y + SHOT_SPAWN_OFFSET) as i64, 0, 1),
        )
    } else {
        pre.shots_player@
    };
    let se_spawn = if efired {
        pre.shots_enemy@.push(
            GameObj::shot_spawn(
                pre.enemies@[j].x,
                (pre.enemies@[j].y - SHOT_SPAWN_OFFSET) as i64,
                0,
                -1i64,
            ),
        )
    } else {
        pre.shots_enemy@
    };
    // Motion phase with the boundary rules.
    let p_moved = player_clamped(moved(p_aimed), w);
    let sp_moved = Seq::new(sp_spawn.len(), |i: int| shot_culled(moved(sp_spawn[i]), h));
    let se_moved = Seq::new(se_spawn.len(), |i: int| shot_culled(moved(se_spawn[i]), h));
    // Formation phase: the uniform descend-and-reverse sweep, and the
    // instant loss on a leaked enemy.
    let flip = pre.enemy_sprite_timer <= 0;
    let flag = formation_edge(pre.enemies@, player_bound_x(w));
    let spd = formation_speed(pre.enemies@.len() as int);
    let en_stepped = Seq::new(
        pre.enemies@.len(),
        |i: int| enemy_stepped(pre.enemies@[i], flip, flag, spd),
    );
    let p_leaked = if formation_leak(pre.enemies@, h * 660 - GAME_BOUNDS) {
        (GameObj { hit_points: 0, ..p_moved })
    } else {
        p_moved
    };
    // Collision resolution against the integrated positions.
    let sp_coll = Seq::new(
        sp_moved.len(),
        |i: int| pshot_after(sp_moved[i], en_stepped, pre.barriers@, se_moved),
    );
    let se_coll = Seq::new(
        se_moved.len(),
        |i: int| eshot_after(se_moved[i], sp_moved, p_leaked, pre.barriers@),
    );
    let en_coll = Seq::new(en_stepped.len(), |i: int| enemy_after(en_stepped[i], sp_moved));
    let ba_coll = Seq::new(
        pre.barriers@.len(),
        |i: int| barrier_after(pre.barriers@[i], sp_moved, se_moved, en_stepped),
    );
    let p_coll = player_after(p_leaked, se_moved, en_stepped);
    let pairs = pair_hits(sp_moved, en_stepped);
    let phits = count_hitting(p_leaked, se_moved);
    // Purge, then wave progression.
    let en_purged = live_only(en_coll);
    let wave_cleared = en_purged.len() == 0;
    let lvl = if wave_cleared {
        if pre.level < i64::MAX {
            pre.level + 1
        } else {
            pre.level as int
        }
    } else {
        pre.level as int
    };
    let dirty = pre.gui_dirty || pairs > 0 || phits > 0 || wave_cleared;
    TickStages {
        fired,
        efired,
        sp_spawn,
        se_spawn,
        p_moved,
        sp_moved,
        se_moved,
        en_stepped,
        p_leaked,
        sp_coll,
        se_coll,
        en_coll,
        ba_coll,
        p_coll,
        pairs,
        phits,
        en_purged,
        wave_cleared,
        lvl,
        dirty,
    }
}

/// The full transition of one tick of a running game, with `j` the index
/// of the enemy that fired (any index serves when the enemy cooldown did
/// not elapse): every collection, the player, the score and wave index,
/// the timers, the state machine and the whole tick output are pinned as
/// functions of the pre-state, the input and the shooter choice.
pub open spec fn tick_rel_with_shooter(
    pre: MainState,
    input: InputState,
    post: MainState,
    out: TickOutput,
    j: int,
) -> bool {
    let w = pre.screen_width as int;
    let st = tick_stages(pre, input, j);
    &&& post.shots_player@ == live_only(st.sp_coll)
    &&& post.shots_enemy@ == live_only(st.se_coll)
    &&& (!st.wave_cleared ==> post.enemies@ == st.en_purged && post.barriers@ == live_only(
        st.ba_coll,
    ))
    &&& (st.wave_cleared ==> is_enemy_formation(
        post.enemies@,
        w,
        if st.lvl > MAX_DIFF_LEVEL {
            MAX_DIFF_LEVEL as int
        } else {
            st.lvl
        },
    ) && is_barrier_formation(post.barriers@, w))
    &&& post.player == st.p_coll
    &&& post.level == st.lvl
    &&& post.score as int == sat_add_u64(pre.score as int, st.pairs)
    &&& post.status == (if st.p_coll.hit_points <= 0 {
        GameStatus::Over
    } else {
        GameStatus::Running
    })
    &&& post.player_shot_timeout == (if st.fired {
        PLAYER_SHOT_TICKS as int
    } else if pre.player_shot_timeout >= 0 {
        pre.player_shot_timeout - 1
    } else {
        -1int
    })
    &&& post.enemy_shot_timeout == (if st.efired {
        ENEMY_SHOT_TICKS as int
    } else {
        pre.enemy_shot_timeout - 1
    })
    &&& post.enemy_sprite_timer == (if pre.enemy_sprite_timer <= 0 {
        pre.enemies@.len() as int / 2
    } else {
        pre.enemy_sprite_timer - 1
    })
    &&& post.gui_dirty == false
    &&& post.screen_width == pre.screen_width
    &&& post.screen_height == pre.screen_height
    &&& out.shot_fired == st.fired
    &&& out.enemy_hit == (st.pairs > 0)
    &&& out.player_hit == (st.phits > 0)
    &&& out.hud == (if st.dirty {
        Option::Some(
            HudInfo {
                score: post.score,
                level: post.level,
                player_hit_points: post.player.hit_points,
            },
        )
    } else {
        Option::<HudInfo>::None
    })
    &&& out.game_over == (if post.status is Over {
        Option::Some(post.score)
    } else {
        Option::<u64>::None
    })
}

/// The full transition of one tick of a running game: some surviving
/// enemy is the shooter of the tick's enemy shot (when one was due), and
/// everything else is pinned by `tick_rel_with_shooter`.
pub open spec fn tick_rel(
    pre: MainState,
    input: InputState,
    post: MainState,
    out: TickOutput,
) -> bool {
    exists|j: int|
        0 <= j < pre.enemies@.len() && #[trigger] tick_rel_with_shooter(pre, input, post, out, j)
}

/// Assembles the full tick transition from the facts the tick's phases
/// establish: the snapshots after spawning (`st_spawn`), motion
/// (`st_moved`), the formation sweep (`st_form`), collision resolution
/// (`st_coll`) and the purge (`st_purge`), and the final bookkeeping.
#[verifier::rlimit(100)]
pub proof fn lemma_tick_rel_assembly(
    pre: MainState,
    input: InputState,
    st_spawn: MainState,
    st_moved: MainState,
    st_form: MainState,
    st_coll: MainState,
    st_purge: MainState,
    post: MainState,
    out: TickOutput,
    j: int,
    flip: bool,
    flag: bool,
    leak: bool,
    spd: int,
)
    requires
        0 <= j < pre.enemies@.len(),
        out.shot_fired == (input.is_firing && pre.player_shot_timeout <= 1),
        st_spawn.player == (GameObj { dir_x: input.xaxis, dir_y: 0, ..pre.player }),
        st_spawn.shots_player@ == (if out.shot_fired {
            pre.shots_player@.push(
                GameObj::shot_spawn(
                    pre.player.x,
                    (pre.player.y + SHOT_SPAWN_OFFSET) as i64,
                    0,
                    1,
                ),
            )
        } else {
            pre.shots_player@
        }),
        pre.enemy_shot_timeout <= 1 ==> st_spawn.shots_enemy@ == pre.shots_enemy@.push(
            GameObj::shot_spawn(
                pre.enemies@[j].x,
                (pre.enemies@[j].y - SHOT_SPAWN_OFFSET) as i64,
                0,
                -1i64,
            ),
        ),
        pre.enemy_shot_timeout > 1 ==> st_spawn.shots_enemy@ == pre.shots_enemy@,
        st_moved.player == player_clamped(moved(st_spawn.player), pre.screen_width as int),
        st_moved.shots_player@.len() == st_spawn.shots_player@.len(),
        forall|i: int|
            0 <= i < st_moved.shots_player@.len() ==> st_moved.shots_player@[i] == shot_culled(
                moved(#[trigger] st_spawn.shots_player@[i]),
                pre.screen_height as int,
            ),
        st_moved.shots_enemy@.len() == st_spawn.shots_enemy@.len(),
        forall|i: int|
            0 <= i < st_moved.shots_enemy@.len() ==> st_moved.shots_enemy@[i] == shot_culled(
                moved(#[trigger] st_spawn.shots_enemy@[i]),
                pre.screen_height as int,
            ),
        flip == (pre.enemy_sprite_timer <= 0),
        flag == formation_edge(pre.enemies@, player_bound_x(pre.screen_width as int)),
        spd == formation_speed(pre.enemies@.len() as int),
        leak == formation_leak(pre.enemies@, pre.screen_height * 660 - GAME_BOUNDS),
        st_form.enemies@.len() == pre.enemies@.len(),
        forall|i: int|
            0 <= i < st_form.enemies@.len() ==> st_form.enemies@[i] == enemy_stepped(
                #[trigger] pre.enemies@[i],
                flip,
                flag,
                spd,
            ),
        st_form.player == (if leak {
            GameObj { hit_points: 0, ..st_moved.player }
        } else {
            st_moved.player
        }),
        st_form.shots_player@ == st_moved.shots_player@,
        st_form.shots_enemy@ == st_moved.shots_enemy@,
        st_form.barriers@ == pre.barriers@,
        st_coll.shots_player@.len() == st_form.shots_player@.len(),
        forall|i: int|
            0 <= i < st_coll.shots_player@.len() ==> st_coll.shots_player@[i] == pshot_after(
                #[trigger] st_form.shots_player@[i],
                st_form.enemies@,
                st_form.barriers@,
                st_form.shots_enemy@,
            ),
        st_coll.shots_enemy@.len() == st_form.shots_enemy@.len(),
        forall|i: int|
            0 <= i < st_coll.shots_enemy@.len() ==> st_coll.shots_enemy@[i] == eshot_after(
                #[trigger] st_form.shots_enemy@[i],
                st_form.shots_player@,
                st_form.player,
                st_form.barriers@,
            ),
        st_coll.enemies@.len() == st_form.enemies@.len(),
        forall|i: int|
            0 <= i < st_coll.enemies@.len() ==> st_coll.enemies@[i] == enemy_after(
                #[trigger] st_form.enemies@[i],
                st_form.shots_player@,
            ),
        st_coll.barriers@.len() == st_form.barriers@.len(),
        forall|i: int|
            0 <= i < st_coll.barriers@.len() ==> st_coll.barriers@[i] == barrier_after(
                #[trigger] st_form.barriers@[i],
                st_form.shots_player@,
                st_form.shots_enemy@,
                st_form.enemies@,
            ),
        st_coll.player == player_after(st_form.player, st_form.shots_enemy@, st_form.enemies@),
        st_coll.score as int == sat_add_u64(
            pre.score as int,
            pair_hits(st_form.shots_player@, st_form.enemies@),
        ),
        out.enemy_hit == (pair_hits(st_form.shots_player@, st_form.enemies@) > 0),
        out.player_hit == (count_hitting(st_form.player, st_form.shots_enemy@) > 0),
        st_purge.shots_player@ == live_only(st_coll.shots_player@),
        st_purge.shots_enemy@ == live_only(st_coll.shots_enemy@),
        st_purge.enemies@ == live_only(st_coll.enemies@),
        st_purge.barriers@ == live_only(st_coll.barriers@),
        post.shots_player@ == st_purge.shots_player@,
        post.shots_enemy@ == st_purge.shots_enemy@,
        post.player == st_coll.player,
        post.score == st_coll.score,
        st_purge.enemies@.len() > 0 ==> post.enemies@ == st_purge.enemies@ && post.barriers@
            == st_purge.barriers@ && post.level == pre.level,
        st_purge.enemies@.len() == 0 ==> post.level == (if pre.level < i64::MAX {
            pre.level + 1
        } else {
            pre.level as int
        }) && is_enemy_formation(
            post.enemies@,
            pre.screen_width as int,
            if post.level > MAX_DIFF_LEVEL {
                MAX_DIFF_LEVEL as int
            } else {
                post.level as int
            },
        ) && is_barrier_formation(post.barriers@, pre.screen_width as int),
        post.player_shot_timeout == (if out.shot_fired {
            PLAYER_SHOT_TICKS as int
        } else if pre.player_shot_timeout >= 0 {
            pre.player_shot_timeout - 1
        } else {
            -1int
        }),
        post.enemy_shot_timeout == (if pre.enemy_shot_timeout <= 1 {
            ENEMY_SHOT_TICKS as int
        } else {
            pre.enemy_shot_timeout - 1
        }),
        post.enemy_sprite_timer == (if flip {
            pre.enemies@.len() as int / 2
        } else {
            pre.enemy_sprite_timer - 1
        }),
        post.gui_dirty == false,
        post.screen_width == pre.screen_width,
        post.screen_height == pre.screen_height,
        post.status == (if post.player.hit_points <= 0 {
            GameStatus::Over
        } else {
            GameStatus::Running
        }),
        out.hud == (if pre.gui_dirty || out.enemy_hit || out.player_hit
            || st_purge.enemies@.len() == 0 {
            Option::Some(
                HudInfo {
                    score: post.score,
                    level: post.level,
                    player_hit_points: post.player.hit_points,
                },
            )
        } else {
            Option::<HudInfo>::None
        }),
        out.game_over == (if post.status is Over {
            Option::Some(post.score)
        } else {
            Option::<u64>::None
        }),
    ensures
        tick_rel_with_shooter(pre, input, post, out, j),
{
    let stg = tick_stages(pre, input, j);
    assert(stg.sp_spawn == st_spawn.shots_player@);
    assert(stg.se_spawn == st_spawn.shots_enemy@);
    assert(stg.sp_moved =~= st_moved.shots_player@);
    assert(stg.se_moved =~= st_moved.shots_enemy@);
    assert(stg.p_moved == st_moved.player);
    assert(stg.en_stepped =~= st_form.enemies@);
    assert(stg.p_leaked == st_form.player);
    assert(stg.sp_coll =~= st_coll.shots_player@);
    assert(stg.se_coll =~= st_coll.shots_enemy@);
    assert(stg.en_coll =~= st_coll.enemies@);
    assert(stg.ba_coll =~= st_coll.barriers@);
    assert(stg.p_coll == st_coll.player);
    assert(stg.pairs == pair_hits(st_form.shots_player@, st_form.enemies@));
    assert(stg.phits == count_hitting(st_form.player, st_form.shots_enemy@));
    assert(stg.en_purged == st_purge.enemies@);
}

/// A freshly generated wave satisfies the formation and barrier
/// invariants, and stands above the loss line of any screen satisfying
/// the configuration bound (the bottom row spawns at `45000 - 480 * w`
/// subunits, which the bound keeps at or above `19800 - 660 * h`, one
/// descent step over the loss line).
pub proof fn lemma_fresh_formation_ok(w: int, h: int, diff: int, s: Seq<GameObj>, b: Seq<GameObj>)
    requires
        MIN_SCREEN_DIM <= w <= MAX_SCREEN_DIM,
        MIN_SCREEN_DIM <= h <= MAX_SCREEN_DIM,
        480 * w <= 660 * h + 25200,
        0 <= diff <= crate::formation::MAX_DIFF_LEVEL,
        is_enemy_formation(s, w, diff),
        is_barrier_formation(b, w),
    ensures
        enemies_ok(s, w, h),
        enemies_above_loss(s, h * 660 - GAME_BOUNDS),
        barriers_ok(b, w),
{
    lemma_enemy_formation_ok(w, diff);
    lemma_barrier_formation_ok(w);
    vstd::arithmetic::div_mod::lemma_div_pos_is_pos(ENEMY_BASE_SPEED as int, s.len() as int);
    assert forall|i: int| 0 <= i < s.len() implies enemy_entity_ok(#[trigger] s[i]) && s[i].dir_x
        == 1 by {
        assert(crate::formation::formation_enemy_ok(enemy_at(w, diff, i), w));
    }
    assert forall|i: int| 0 <= i < b.len() implies barrier_entity_ok(#[trigger] b[i]) && -660 * w
        <= b[i].x <= 660 * w by {
        assert(crate::formation::formation_barrier_ok(barrier_at(w, i), w));
    }
}

impl MainState {
    /// The horizontal bound of the playfield, for the player clamp and the
    /// formation reversal.
    pub open spec fn bound_x(self) -> int {
        player_bound_x(self.screen_width as int)
    }

    /// The vertical bound below which a leaked enemy ends the game.
    pub open spec fn bound_y(self) -> int {
        self.screen_height * 660 - GAME_BOUNDS
    }

    /// The screen configurations the simulation accepts: both dimensions
    /// within range, and the width small enough relative to the height
    /// that a fresh enemy formation spawns above the bottom loss line
    /// (the bottom row sits at `45000 - 480 * width` subunits, the line
    /// one descent step over the loss bound at `19800 - 660 * height`).
    /// Callers validate their configuration against this before
    /// constructing the state.
    pub open spec fn wf_config(self) -> bool {
        &&& MIN_SCREEN_DIM <= self.screen_width
        &&& self.screen_width <= MAX_SCREEN_DIM
        &&& MIN_SCREEN_DIM <= self.screen_height
        &&& self.screen_height <= MAX_SCREEN_DIM
        &&& 480 * self.screen_width <= 660 * self.screen_height + 25200
    }

    pub open spec fn wf_timers(self) -> bool {
        &&& -1 <= self.player_shot_timeout <= PLAYER_SHOT_TICKS
        &&& -1 <= self.enemy_shot_timeout <= ENEMY_SHOT_TICKS
        &&& -1 <= self.enemy_sprite_timer <= 27
    }

    /// Well-formedness of the whole game state, established by `new` and
    /// preserved by every tick.
    pub open spec fn wf(self) -> bool {
        let w = self.screen_width as int;
        let h = self.screen_height as int;
        &&& self.wf_config()
        &&& player_ok(self.player, w)
        &&& enemies_ok(self.enemies@, w, h)
        &&& barriers_ok(self.barriers@, w)
        &&& shots_ok(self.shots_player@, 1, w, h)
        &&& shots_ok(self.shots_enemy@, -1, w, h)
        &&& self.wf_timers()
        &&& 0 <= self.level
        &&& (self.status is Running <==> self.player.hit_points > 0)
        &&& (self.status is Running ==> enemies_above_loss(self.enemies@, self.bound_y()))
    }

    /// Hit points never go negative and radii never leave the positive
    /// range, for every entity the state owns.
    pub open spec fn all_entities_ok(self) -> bool {
        &&& self.player.hit_points >= 0 && self.player.size > 0
        &&& forall|i: int|
            0 <= i < self.enemies@.len() ==> (#[trigger] self.enemies@[i]).hit_points >= 0
                && self.enemies@[i].size > 0
        &&& forall|i: int|
            0 <= i < self.barriers@.len() ==> (#[trigger] self.barriers@[i]).hit_points >= 0
                && self.barriers@[i].size > 0
        &&& forall|i: int|
            0 <= i < self.shots_player@.len() ==> (#[trigger] self.shots_player@[i]).hit_points
                >= 0 && self.shots_player@[i].size > 0
        &&& forall|i: int|
            0 <= i < self.shots_enemy@.len() ==> (#[trigger] self.shots_enemy@[i]).hit_points >= 0
                && self.shots_enemy@[i].size > 0
    }

    /// A well-formed state keeps every entity inside the arithmetic-safe
    /// world box.
    pub proof fn lemma_wf_in_world(self)
        requires
            self.wf(),
        ensures
            self.player.in_world(),
            all_in_world(self.enemies@),
            all_in_world(self.barriers@),
            all_in_world(self.shots_player@),
            all_in_world(self.shots_enemy@),
            self.all_entities_ok(),
            forall|i: int|
                0 <= i < self.enemies@.len() ==> -12000000 <= (#[trigger] self.enemies@[i]).x
                    <= 12000000 && -12000000 <= self.enemies@[i].y <= 12000000 && -3
                    <= self.enemies@[i].curr_sprite <= 3,
    {
        let count = self.enemies@.len() as int;
        vstd::arithmetic::div_mod::lemma_div_pos_is_pos(ENEMY_BASE_SPEED as int, count);
        vstd::arithmetic::div_mod::lemma_div_nonincreasing(ENEMY_BASE_SPEED as int, count);
    }

    pub fn new(screen_width: i64, screen_height: i64) -> (state: MainState)
        requires
            MIN_SCREEN_DIM <= screen_width <= MAX_SCREEN_DIM,
            MIN_SCREEN_DIM <= screen_height <= MAX_SCREEN_DIM,
            480 * screen_width <= 660 * screen_height + 25200,
        ensures
            state.wf(),
            state.player == GameObj::player_spawn(),
            is_enemy_formation(state.enemies@, screen_width as int, 0),
            is_barrier_formation(state.barriers@, screen_width as int),
            state.shots_player@.len() == 0,
            state.shots_enemy@.len() == 0,
            state.level == 0,
            state.score == 0,
            state.status is Running,
            state.gui_dirty,
            state.player_shot_timeout == 0,
            state.enemy_shot_timeout == 0,
            state.enemy_sprite_timer == 0,
            state.screen_width == screen_width,
            state.screen_height == screen_height,
    {
        let player = GameObj::new_player();
        let enemies = create_enemies(screen_width, 0);
        let barriers = create_barriers(screen_width);
        let state = MainState {
            player,
            enemies,
            barriers,
            shots_player: Vec::new(),
            shots_enemy: Vec::new(),
            level: 0,
            score: 0,
            screen_width,
            screen_height,
            player_shot_timeout: 0,
            enemy_shot_timeout: 0,
            enemy_sprite_timer: 0,
            gui_dirty: true,
            status: GameStatus::Running,
        };
        proof {
            lemma_enemy_formation_ok(screen_width as int, 0);
            lemma_barrier_formation_ok(screen_width as int);
            vstd::arithmetic::div_mod::lemma_div_pos_is_pos(ENEMY_BASE_SPEED as int, 55);
        }
        state
    }

    /// Fires a player shot: spawns it 20 pixels above the player, heading
    /// straight up, and resets the player's fire cooldown.  The shot cue
    /// is owed for this tick.
    pub fn activate_player_shot(&mut self)
        requires
            old(self).player.in_world(),
        ensures
            final(self).shots_player@ == old(self).shots_player@.push(
                GameObj::shot_spawn(
                    old(self).player.x,
                    (old(self).player.y + SHOT_SPAWN_OFFSET) as i64,
                    0,
                    1,
                ),
            ),
            final(self).player_shot_timeout == PLAYER_SHOT_TICKS,
            (*final(self) == MainState {
                shots_player: final(self).shots_player,
                player_shot_timeout: PLAYER_SHOT_TICKS,
                ..*old(self)
            }),
    {
        self.player_shot_timeout = PLAYER_SHOT_TICKS;
        let shot = GameObj::new_shot(
            self.player.get_pos_x(),
            self.player.get_pos_y() + SHOT_SPAWN_OFFSET,
            0,
            1,
        );
        self.shots_player.push(shot);
    }

    /// Fires one enemy shot from a uniformly random surviving enemy: the
    /// shot spawns 20 pixels below the chosen enemy, heading straight
    /// down, and the enemy fire cooldown resets.  Every choice of shooter
    /// satisfies this contract; which one fires is up to the randomness
    /// source.
    pub fn activate_enemy_shot(&mut self)
        requires
            old(self).enemies@.len() >= 1,
            all_in_world(old(self).enemies@),
        ensures
            final(self).enemy_shot_timeout == ENEMY_SHOT_TICKS,
            exists|i: int|
                0 <= i < old(self).enemies@.len() && final(self).shots_enemy@ == old(
                    self,
                ).shots_enemy@.push(
                    GameObj::shot_spawn(
                        (#[trigger] old(self).enemies@[i]).x,
                        (old(self).enemies@[i].y - SHOT_SPAWN_OFFSET) as i64,
                        0,
                        -1i64,
                    ),
                ),
            final(self).shots_enemy@.len() == old(self).shots_enemy@.len() + 1,
            (*final(self) == MainState {
                shots_enemy: final(self).shots_enemy,
                enemy_shot_timeout: ENEMY_SHOT_TICKS,
                ..*old(self)
            }),
    {
        self.enemy_shot_timeout = ENEMY_SHOT_TICKS;
        let shooter = crate::rng::random_below(self.enemies.len());
        let e = self.enemies[shooter];
        let shot = GameObj::new_shot(e.get_pos_x(), e.get_pos_y() - SHOT_SPAWN_OFFSET, 0, -1);
        self.shots_enemy.push(shot);
    }

    /// The input-and-firing phase of a tick: aims the player along the
    /// input axis, decrements both fire cooldowns, spawns a player shot if
    /// the fire key is held and the cooldown elapsed, and unconditionally
    /// spawns one enemy shot from a random survivor when the enemy
    /// cooldown elapsed.
    fn tick_fire(&mut self, input: InputState) -> (shot_fired: bool)
        requires
            old(self).wf(),
            -1 <= input.xaxis <= 1,
        ensures
            final(self).player == (GameObj {
                dir_x: input.xaxis,
                dir_y: 0,
                ..old(self).player
            }),
            shot_fired == (input.is_firing && old(self).player_shot_timeout <= 1),
            final(self).player_shot_timeout == if shot_fired {
                PLAYER_SHOT_TICKS as int
            } else if old(self).player_shot_timeout >= 0 {
                old(self).player_shot_timeout - 1
            } else {
                -1int
            },
            final(self).enemy_shot_timeout == if old(self).enemy_shot_timeout <= 1 {
                ENEMY_SHOT_TICKS as int
            } else {
                old(self).enemy_shot_timeout - 1
            },
            final(self).shots_player@ == if shot_fired {
                old(self).shots_player@.push(
                    GameObj::shot_spawn(
                        old(self).player.x,
                        (old(self).player.y + SHOT_SPAWN_OFFSET) as i64,
                        0,
                        1,
                    ),
                )
            } else {
                old(self).shots_player@
            },
            old(self).enemy_shot_timeout <= 1 ==> exists|j: int|
                0 <= j < old(self).enemies@.len() && final(self).shots_enemy@ == old(
                    self,
                ).shots_enemy@.push(
                    GameObj::shot_spawn(
                        (#[trigger] old(self).enemies@[j]).x,
                        (old(self).enemies@[j].y - SHOT_SPAWN_OFFSET) as i64,
                        0,
                        -1i64,
                    ),
                ),
            old(self).enemy_shot_timeout > 1 ==> final(self).shots_enemy@ == old(
                self,
            ).shots_enemy@,
            forall|i: int|
                0 <= i < final(self).shots_player@.len() ==> {
                    &&& shot_entity_ok(#[trigger] final(self).shots_player@[i], 1)
                    &&& -660 * old(self).screen_width <= final(self).shots_player@[i].x <= 660
                        * old(self).screen_width
                    &&& -11000000 <= final(self).shots_player@[i].y <= 11000000
                    &&& final(self).shots_player@[i].in_world()
                },
            forall|i: int|
                0 <= i < final(self).shots_enemy@.len() ==> {
                    &&& shot_entity_ok(#[trigger] final(self).shots_enemy@[i], -1)
                    &&& -660 * old(self).screen_width <= final(self).shots_enemy@[i].x <= 660
                        * old(self).screen_width
                    &&& -11000000 <= final(self).shots_enemy@[i].y <= 11000000
                    &&& final(self).shots_enemy@[i].in_world()
                },
            (*final(self) == MainState {
                player: final(self).player,
                shots_player: final(self).shots_player,
                shots_enemy: final(self).shots_enemy,
                player_shot_timeout: final(self).player_shot_timeout,
                enemy_shot_timeout: final(self).enemy_shot_timeout,
                ..*old(self)
            }),
    {
        proof {
            self.lemma_wf_in_world();
            vstd::arithmetic::div_mod::lemma_div_nonincreasing(
                ENEMY_BASE_SPEED as int,
                self.enemies@.len() as int,
            );
        }
        let ghost st0 = *self;
        self.player.set_direction(input.xaxis, 0);
        let t = self.player_shot_timeout;
        self.player_shot_timeout = if t >= 0 {
            t - 1
        } else {
            -1
        };
        let mut shot_fired = false;
        if input.is_firing && self.player_shot_timeout <= 0 {
            proof {
                assert(self.player.in_world());
            }
            self.activate_player_shot();
            shot_fired = true;
        }
        let t2 = self.enemy_shot_timeout;
        self.enemy_shot_timeout = if t2 >= 0 {
            t2 - 1
        } else {
            -1
        };
        if self.enemy_shot_timeout <= 0 {
            self.activate_enemy_shot();
        }
        proof {
            assert forall|i: int| 0 <= i < self.shots_player@.len() implies {
                &&& shot_entity_ok(#[trigger] self.shots_player@[i], 1)
                &&& -660 * st0.screen_width <= self.shots_player@[i].x <= 660 * st0.screen_width
                &&& -11000000 <= self.shots_player@[i].y <= 11000000
                &&& self.shots_player@[i].in_world()
            } by {
                if i < st0.shots_player@.len() {
                    assert(self.shots_player@[i] == st0.shots_player@[i]);
                }
            }
            assert forall|i: int| 0 <= i < self.shots_enemy@.len() implies {
                &&& shot_entity_ok(#[trigger] self.shots_enemy@[i], -1)
                &&& -660 * st0.screen_width <= self.shots_enemy@[i].x <= 660 * st0.screen_width
                &&& -11000000 <= self.shots_enemy@[i].y <= 11000000
                &&& self.shots_enemy@[i].in_world()
            } by {
                if i < st0.shots_enemy@.len() {
                    assert(self.shots_enemy@[i] == st0.shots_enemy@[i]);
                } else {
                    let j = choose|j: int|
                        0 <= j < st0.enemies@.len() && self.shots_enemy@
                            == st0.shots_enemy@.push(
                            GameObj::shot_spawn(
                                (st0.enemies@[j]).x,
                                (st0.enemies@[j].y - SHOT_SPAWN_OFFSET) as i64,
                                0,
                                -1i64,
                            ),
                        );
                    assert(enemy_entity_ok(st0.enemies@[j]));
                    assert(st0.enemies@[j].dir_x == st0.enemies@[0].dir_x);
                    assert(-660 * st0.screen_width <= st0.enemies@[j].x <= 660
                        * st0.screen_width);
                }
            }
        }
        shot_fired
    }

    /// The motion phase of a tick: integrates the player and clamps it to
    /// the playfield, then integrates both shot groups and despawns what
    /// left the screen vertically.
    fn tick_motion(&mut self)
        requires
            old(self).wf_config(),
            player_ok(old(self).player, old(self).screen_width as int),
            forall|i: int|
                0 <= i < old(self).shots_player@.len() ==> {
                    &&& (#[trigger] old(self).shots_player@[i]).in_world()
                    &&& -11000000 <= old(self).shots_player@[i].x <= 11000000
                    &&& -11000000 <= old(self).shots_player@[i].y <= 11000000
                },
            forall|i: int|
                0 <= i < old(self).shots_enemy@.len() ==> {
                    &&& (#[trigger] old(self).shots_enemy@[i]).in_world()
                    &&& -11000000 <= old(self).shots_enemy@[i].x <= 11000000
                    &&& -11000000 <= old(self).shots_enemy@[i].y <= 11000000
                },
        ensures
            final(self).player == player_clamped(
                moved(old(self).player),
                old(self).screen_width as int,
            ),
            final(self).player.hit_points == old(self).player.hit_points,
            player_ok(final(self).player, old(self).screen_width as int),
            final(self).player.in_world(),
            final(self).shots_player@.len() == old(self).shots_player@.len(),
            forall|i: int|
                0 <= i < old(self).shots_player@.len() ==> final(self).shots_player@[i]
                    == shot_culled(
                    moved(#[trigger] old(self).shots_player@[i]),
                    old(self).screen_height as int,
                ),
            final(self).shots_enemy@.len() == old(self).shots_enemy@.len(),
            forall|i: int|
                0 <= i < old(self).shots_enemy@.len() ==> final(self).shots_enemy@[i]
                    == shot_culled(
                    moved(#[trigger] old(self).shots_enemy@[i]),
                    old(self).screen_height as int,
                ),
            all_in_world(final(self).shots_player@),
            all_in_world(final(self).shots_enemy@),
            (*final(self) == MainState {
                player: final(self).player,
                shots_player: final(self).shots_player,
                shots_enemy: final(self).shots_enemy,
                ..*old(self)
            }),
    {
        let ghost st0 = *self;
        let w = self.screen_width;
        let h = self.screen_height;
        proof {
            assert(self.player.in_world());
            assert(self.player.dir_y as int * self.player.speed as int == 0) by (nonlinear_arith)
                requires
                    self.player.dir_y == 0,
            ;
            assert(-PLAYER_SPEED <= self.player.dir_x as int * self.player.speed as int
                <= PLAYER_SPEED) by (nonlinear_arith)
                requires
                    -1 <= self.player.dir_x <= 1,
                    self.player.speed == PLAYER_SPEED,
            ;
        }
        self.player.update_position();
        check_player_bounds(&mut self.player, w);
        move_and_cull_shots(&mut self.shots_player, h);
        move_and_cull_shots(&mut self.shots_enemy, h);
        proof {
            assert(self.player.y == PLAYER_STARTING_POS_Y);
            assert(-player_bound_x(w as int) <= self.player.x <= player_bound_x(w as int));
            assert forall|i: int|
                0 <= i < self.shots_player@.len() implies (#[trigger] self.shots_player@[i]).in_world() by {
                let s0 = st0.shots_player@[i];
                assert(self.shots_player@[i] == shot_culled(moved(s0), h as int));
                assert(s0.in_world());
                assert(-ENEMY_BASE_SPEED <= s0.dir_x as int * s0.speed as int
                    <= ENEMY_BASE_SPEED && -ENEMY_BASE_SPEED <= s0.dir_y as int * s0.speed as int
                    <= ENEMY_BASE_SPEED) by (nonlinear_arith)
                    requires
                        -1 <= s0.dir_x <= 1,
                        -1 <= s0.dir_y <= 1,
                        0 <= s0.speed <= ENEMY_BASE_SPEED,
                ;
            }
            assert forall|i: int|
                0 <= i < self.shots_enemy@.len() implies (#[trigger] self.shots_enemy@[i]).in_world() by {
                let s0 = st0.shots_enemy@[i];
                assert(self.shots_enemy@[i] == shot_culled(moved(s0), h as int));
                assert(s0.in_world());
                assert(-ENEMY_BASE_SPEED <= s0.dir_x as int * s0.speed as int
                    <= ENEMY_BASE_SPEED && -ENEMY_BASE_SPEED <= s0.dir_y as int * s0.speed as int
                    <= ENEMY_BASE_SPEED) by (nonlinear_arith)
                    requires
                        -1 <= s0.dir_x <= 1,
                        -1 <= s0.dir_y <= 1,
                        0 <= s0.speed <= ENEMY_BASE_SPEED,
                ;
            }
        }
    }

    /// One simulation tick on the fixed timestep.  In the `Over` state the
    /// tick is a no-op with an empty output.  While running it consumes
    /// the input snapshot, advances the fire cooldowns and spawns the due
    /// shots (the player's when the fire key is held and its cooldown
    /// elapsed; one enemy shot from a random survivor, unconditionally, on
    /// the enemy cooldown), integrates all motion with the boundary rules,
    /// resolves collisions, purges dead entities, handles wave
    /// progression, hands out the interface snapshot when it was flagged,
    /// and moves to `Over` exactly when the player's hit points reached
    /// zero.
    ///
    /// The whole transition is pinned at this boundary: `tick_rel` fixes
    /// every collection, the player, the score and wave index, the timers,
    /// the state machine and the full output as functions of the
    /// pre-state, the input snapshot and the choice of enemy shooter; the
    /// clauses after it restate its most-used consequences.
    #[verifier::rlimit(100)]
    pub fn update(&mut self, input: InputState) -> (out: TickOutput)
        requires
            old(self).wf(),
            -1 <= input.xaxis <= 1,
        ensures
            final(self).wf(),
            final(self).all_entities_ok(),
            final(self).screen_width == old(self).screen_width,
            final(self).screen_height == old(self).screen_height,
            final(self).score >= old(self).score,
            final(self).level >= old(self).level,
            old(self).status is Over ==> *final(self) == *old(self) && out == (TickOutput {
                shot_fired: false,
                enemy_hit: false,
                player_hit: false,
                hud: None,
                game_over: None,
            }),
            old(self).status is Running ==> {
                &&& tick_rel(*old(self), input, *final(self), out)
                &&& out.shot_fired == (input.is_firing && old(self).player_shot_timeout <= 1)
                &&& final(self).player_shot_timeout == if out.shot_fired {
                    PLAYER_SHOT_TICKS as int
                } else if old(self).player_shot_timeout >= 0 {
                    old(self).player_shot_timeout - 1
                } else {
                    -1int
                }
                &&& final(self).enemy_shot_timeout == if old(self).enemy_shot_timeout <= 1 {
                    ENEMY_SHOT_TICKS as int
                } else {
                    old(self).enemy_shot_timeout - 1
                }
                &&& final(self).enemies@.len() >= 1
                &&& (final(self).status is Over <==> final(self).player.hit_points == 0)
                &&& out.game_over == if final(self).status is Over {
                    Option::Some(final(self).score)
                } else {
                    Option::<u64>::None
                }
                &&& (!out.enemy_hit ==> final(self).score == old(self).score)
                &&& final(self).gui_dirty == false
                &&& ((old(self).gui_dirty || out.enemy_hit || out.player_hit) ==> out.hud is Some)
                &&& (out.hud matches Some(hud) ==> hud.score == final(self).score && hud.level
                    == final(self).level && hud.player_hit_points
                    == final(self).player.hit_points)
            },
    {
        if self.status == GameStatus::Over {
            return TickOutput {
                shot_fired: false,
                enemy_hit: false,
                player_hit: false,
                hud: None,
                game_over: None,
            };
        }
        proof {
            self.lemma_wf_in_world();
            vstd::arithmetic::div_mod::lemma_div_pos_is_pos(
                ENEMY_BASE_SPEED as int,
                self.enemies@.len() as int,
            );
            vstd::arithmetic::div_mod::lemma_div_nonincreasing(
                ENEMY_BASE_SPEED as int,
                self.enemies@.len() as int,
            );
        }
        let ghost st0 = *self;
        let w = self.screen_width;
        let h = self.screen_height;

        let shot_fired = self.tick_fire(input);
        let ghost st_spawn = *self;
        proof {
            assert(player_ok(self.player, w as int));
        }
        self.tick_motion();
        let ghost st_moved = *self;

        // The formation sweep.
        proof {
            assert(st_moved.enemies@ == st0.enemies@);
        }
        self.advance_formation();
        let ghost st_form = *self;
        let ghost flip = st0.enemy_sprite_timer <= 0;
        let ghost flag = formation_edge(st0.enemies@, player_bound_x(st0.screen_width as int));
        let ghost leak = formation_leak(st0.enemies@, st0.bound_y());
        let ghost spd = formation_speed(st0.enemies@.len() as int);

        // Collisions.
        proof {
            assert(all_in_world(st_form.barriers@));
            assert(st_form.player.hit_points >= 0);
            assert forall|i: int|
                0 <= i < st_form.barriers@.len() implies (#[trigger] st_form.barriers@[i]).hit_points >= 0 && -2
                    <= st_form.barriers@[i].curr_sprite <= 3 by {
                assert(barrier_entity_ok(st0.barriers@[i]));
            }
        }
        let cues = self.collisions();
        let enemy_hit = cues.0;
        let player_hit = cues.1;
        let ghost st_coll = *self;
        proof {
            lemma_pair_hits_nonneg(st_form.shots_player@, st_form.enemies@);
            lemma_count_hitting_bounds(st_form.player, st_form.shots_enemy@);
        }

        // Purge the dead.
        self.remove_objects();
        let ghost st_purge = *self;
        proof {
            lemma_shots_pipeline(
                st0.screen_width as int,
                st0.screen_height as int,
                1,
                st_spawn.shots_player@,
                st_moved.shots_player@,
                st_coll.shots_player@,
            );
            lemma_shots_pipeline(
                st0.screen_width as int,
                st0.screen_height as int,
                -1,
                st_spawn.shots_enemy@,
                st_moved.shots_enemy@,
                st_coll.shots_enemy@,
            );
            lemma_enemies_pipeline(
                st0.screen_width as int,
                st0.screen_height as int,
                st0.enemies@,
                flip,
                spd,
                st_form.enemies@,
                st_coll.enemies@,
            );
            assert forall|i: int|
                0 <= i < st_coll.barriers@.len() implies {
                let b2 = #[trigger] st_coll.barriers@[i];
                let b = st0.barriers@[i];
                &&& b2.tag == b.tag
                &&& b2.size == b.size
                &&& b2.speed == b.speed
                &&& b2.dir_x == b.dir_x
                &&& b2.dir_y == b.dir_y
                &&& b2.x == b.x
                &&& b2.y == b.y
                &&& 0 <= b2.hit_points <= b.hit_points
                &&& 0 <= b2.curr_sprite <= 3
            } by {
                assert(st_form.barriers@[i] == st0.barriers@[i]);
                assert(barrier_entity_ok(st0.barriers@[i]));
            }
            lemma_barriers_pipeline(st0.screen_width as int, st0.barriers@, st_coll.barriers@);
            if leak {
                assert(st_form.player.hit_points == 0);
                assert(st_coll.player.hit_points == 0);
            }
        }

        // Wave progression.
        self.check_for_level_respawn();
        proof {
            if st_purge.enemies@.len() == 0 {
                let diff = if self.level > MAX_DIFF_LEVEL {
                    MAX_DIFF_LEVEL as int
                } else {
                    self.level as int
                };
                lemma_fresh_formation_ok(
                    st0.screen_width as int,
                    st0.screen_height as int,
                    diff,
                    self.enemies@,
                    self.barriers@,
                );
            }
        }

        // Interface refresh, consumed at most once per tick.
        let mut hud: Option<HudInfo> = None;
        if self.gui_dirty {
            hud = Some(self.hud_info());
            self.gui_dirty = false;
        }

        // The state machine: `Running` to `Over` when the player's hit
        // points reached zero; terminal.
        let mut game_over: Option<u64> = None;
        if self.player.get_hit_points() <= 0 {
            self.status = GameStatus::Over;
            game_over = Some(self.score);
        }
        let out = TickOutput { shot_fired, enemy_hit, player_hit, hud, game_over };
        proof {
            if self.status is Running {
                assert(!leak);
            }
            assert(self.wf());
            self.lemma_wf_in_world();

            // Assemble the full tick transition from the staged snapshots.
            let jj: int = if st0.enemy_shot_timeout <= 1 {
                choose|j: int|
                    0 <= j < st0.enemies@.len() && st_spawn.shots_enemy@
                        == st0.shots_enemy@.push(
                        GameObj::shot_spawn(
                            (st0.enemies@[j]).x,
                            (st0.enemies@[j].y - SHOT_SPAWN_OFFSET) as i64,
                            0,
                            -1i64,
                        ),
                    )
            } else {
                0
            };
            lemma_tick_rel_assembly(
                st0,
                input,
                st_spawn,
                st_moved,
                st_form,
                st_coll,
                st_purge,
                *self,
                out,
                jj,
                flip,
                flag,
                leak,
                spd,
            );
            assert(tick_rel(st0, input, *self, out));
        }
        out
    }

    /// The rendering descriptors for every entity the state owns, one per
    /// entity, in draw order: the player, then player shots, enemy shots,
    /// barriers, and the enemy formation.  The rendering layer maps each
    /// `(kind, visual_variant)` pair to a sprite and performs the
    /// world-to-screen transform.
    #[verifier::loop_isolation(false)]
    pub fn render_requests(&self) -> (reqs: Vec<RenderRequest>)
        ensures
            reqs@.len() == 1 + self.shots_player@.len() + self.shots_enemy@.len()
                + self.barriers@.len() + self.enemies@.len(),
            reqs@[0] == render_of(self.player),
            forall|i: int|
                0 <= i < self.shots_player@.len() ==> reqs@[1 + i] == render_of(
                    #[trigger] self.shots_player@[i],
                ),
            forall|i: int|
                0 <= i < self.shots_enemy@.len() ==> reqs@[1 + self.shots_player@.len() + i]
                    == render_of(#[trigger] self.shots_enemy@[i]),
            forall|i: int|
                0 <= i < self.barriers@.len() ==> reqs@[1 + self.shots_player@.len()
                    + self.shots_enemy@.len() + i] == render_of(#[trigger] self.barriers@[i]),
            forall|i: int|
                0 <= i < self.enemies@.len() ==> reqs@[1 + self.shots_player@.len()
                    + self.shots_enemy@.len() + self.barriers@.len() + i] == render_of(
                    #[trigger] self.enemies@[i],
                ),
    {
        let mut reqs: Vec<RenderRequest> = Vec::new();
        reqs.push(render_request_for(&self.player));
        let np = self.shots_player.len();
        let ns = self.shots_enemy.len();
        let nb = self.barriers.len();
        for i in 0..np
            invariant
                reqs@.len() == 1 + i,
                reqs@[0] == render_of(self.player),
                forall|k: int|
                    0 <= k < i ==> reqs@[1 + k] == render_of(#[trigger] self.shots_player@[k]),
        {
            reqs.push(render_request_for(&self.shots_player[i]));
        }
        for i in 0..ns
            invariant
                reqs@.len() == 1 + np + i,
                reqs@[0] == render_of(self.player),
                forall|k: int|
                    0 <= k < np ==> reqs@[1 + k] == render_of(#[trigger] self.shots_player@[k]),
                forall|k: int|
                    0 <= k < i ==> reqs@[1 + np + k] == render_of(
                        #[trigger] self.shots_enemy@[k],
                    ),
        {
            reqs.push(render_request_for(&self.shots_enemy[i]));
        }
        for i in 0..nb
            invariant
                reqs@.len() == 1 + np + ns + i,
                reqs@[0] == render_of(self.player),
                forall|k: int|
                    0 <= k < np ==> reqs@[1 + k] == render_of(#[trigger] self.shots_player@[k]),
                forall|k: int|
                    0 <= k < ns ==> reqs@[1 + np + k] == render_of(
                        #[trigger] self.shots_enemy@[k],
                    ),
                forall|k: int|
                    0 <= k < i ==> reqs@[1 + np + ns + k] == render_of(
                        #[trigger] self.barriers@[k],
                    ),
        {
            reqs.push(render_request_for(&self.barriers[i]));
        }
        let ne = self.enemies.len();
        for i in 0..ne
            invariant
                reqs@.len() == 1 + np + ns + nb + i,
                reqs@[0] == render_of(self.player),
                forall|k: int|
                    0 <= k < np ==> reqs@[1 + k] == render_of(#[trigger] self.shots_player@[k]),
                forall|k: int|
                    0 <= k < ns ==> reqs@[1 + np + k] == render_of(
                        #[trigger] self.shots_enemy@[k],
                    ),
                forall|k: int|
                    0 <= k < nb ==> reqs@[1 + np + ns + k] == render_of(
                        #[trigger] self.barriers@[k],
                    ),
                forall|k: int|
                    0 <= k < i ==> reqs@[1 + np + ns + nb + k] == render_of(
                        #[trigger] self.enemies@[k],
                    ),
        {
            reqs.push(render_request_for(&self.enemies[i]));
        }
        reqs
    }

    /// The interface snapshot for the current state.
    pub fn hud_info(&self) -> (hud: HudInfo)
        ensures
            hud.score == self.score,
            hud.level == self.level,
            hud.player_hit_points == self.player.hit_points,
    {
        HudInfo {
            score: self.score,
            level: self.level,
            player_hit_points: self.player.hit_points,
        }
    }
}

} // verus!
