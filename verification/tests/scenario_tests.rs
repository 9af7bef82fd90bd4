use space_invaders::clock::SimClock;
use space_invaders::entity::GameObj;
use space_invaders::entity::ENEMY_BASE_SPEED;
use space_invaders::entity::PLAYER_STARTING_POS_Y;
use space_invaders::formation::BARRIER_POS_Y;
use space_invaders::motion::world_to_screen_coords;
use space_invaders::state::GameStatus;
use space_invaders::state::InputState;
use space_invaders::state::MainState;

fn wf_enemy(x: i64, y: i64) -> GameObj {
    let mut e = GameObj::new_enemy(x, y);
    e.set_curr_sprite(1);
    e
}

fn idle() -> InputState {
    InputState::default()
}

fn firing() -> InputState {
    InputState { xaxis: 0, is_firing: true }
}

/// Body contact with an enemy zeroes the player's hit points in one tick
/// and moves the state machine to `Over`.
#[test]
fn enemy_contact_is_instant_loss() {
    let mut state = MainState::new(480, 640);
    // One enemy that, after its own motion this tick (26400 subunits to
    // the right at full formation speed), stands directly over the player:
    // vertical gap one subunit under the radius sum of 23760.
    let radius_sum: i64 = 23760;
    state.enemies = vec![wf_enemy(-26400, PLAYER_STARTING_POS_Y + radius_sum - 1)];
    state.enemy_shot_timeout = 30;
    let out = state.update(idle());
    assert_eq!(state.player.hit_points, 0);
    assert_eq!(state.status, GameStatus::Over);
    assert_eq!(out.game_over, Some(0));

    // `Over` is terminal: a further tick changes nothing and emits nothing.
    let before_enemies = state.enemies.clone();
    let out2 = state.update(firing());
    assert_eq!(out2.game_over, None);
    assert_eq!(out2.hud, None);
    assert!(!out2.shot_fired);
    assert_eq!(state.status, GameStatus::Over);
    assert_eq!(state.enemies, before_enemies);
}

/// Body contact resolved directly: an enemy standing over the player
/// forces the hit points to zero in one resolution pass, bypassing
/// gradual damage.
#[test]
fn enemy_contact_zeroes_player_in_resolution() {
    let mut state = MainState::new(480, 640);
    state.enemies = vec![wf_enemy(0, PLAYER_STARTING_POS_Y + 23759)];
    state.collisions();
    assert_eq!(state.player.hit_points, 0);
}

/// Opposing shots cancel each other.
#[test]
fn shots_cancel() {
    let mut state = MainState::new(480, 640);
    state.shots_player = vec![GameObj::new_shot(0, 0, 0, 1)];
    state.shots_enemy = vec![GameObj::new_shot(0, 10000, 0, -1)];
    state.collisions();
    assert_eq!(state.shots_player[0].hit_points, 0);
    assert_eq!(state.shots_enemy[0].hit_points, 0);
    assert_eq!(state.score, 0);
    state.remove_objects();
    assert!(state.shots_player.is_empty());
    assert!(state.shots_enemy.is_empty());
}

/// An enemy shot costs the player one hit point (gradual damage) and is
/// consumed; the cue reports the hit.
#[test]
fn enemy_shot_damages_player() {
    let mut state = MainState::new(480, 640);
    state.shots_enemy = vec![GameObj::new_shot(0, PLAYER_STARTING_POS_Y + 20000, 0, -1)];
    let (enemy_hit, player_hit) = state.collisions();
    assert!(!enemy_hit);
    assert!(player_hit);
    assert_eq!(state.player.hit_points, 2);
    assert_eq!(state.shots_enemy[0].hit_points, 0);
}

/// An enemy shot damages a barrier one point at a time and advances its
/// damage sprite, exactly like a player shot.
#[test]
fn enemy_shot_damages_barrier() {
    let mut state = MainState::new(480, 640);
    let barrier_x = state.barriers[0].x;
    state.shots_enemy = vec![GameObj::new_shot(barrier_x, BARRIER_POS_Y + 20000, 0, -1)];
    state.collisions();
    assert_eq!(state.barriers[0].hit_points, 3);
    assert_eq!(state.barriers[0].curr_sprite, 1);
    assert_eq!(state.shots_enemy[0].hit_points, 0);
    assert_eq!(state.barriers[1].hit_points, 4);
}

/// Enemy body contact destroys a barrier outright, not gradually.
#[test]
fn enemy_contact_destroys_barrier() {
    let mut state = MainState::new(480, 640);
    let barrier_x = state.barriers[2].x;
    state.enemies = vec![wf_enemy(barrier_x, BARRIER_POS_Y + 20000)];
    state.collisions();
    assert_eq!(state.barriers[2].hit_points, 0);
    assert_eq!(state.barriers[1].hit_points, 4);
    state.remove_objects();
    assert_eq!(state.barriers.len(), 3);
}

/// A distance of exactly the radius sum is not a collision; one subunit
/// less destroys both shot and enemy and scores a point.
#[test]
fn collision_boundary_is_strict() {
    // Boundary case: after this tick's motion the shot stands exactly
    // 15840 subunits (the radius sum) below the enemy.
    let mut state = MainState::new(480, 640);
    state.enemies = vec![wf_enemy(-26400, 0)];
    state.shots_player = vec![GameObj::new_shot(0, -15840 - 13200, 0, 1)];
    state.enemy_shot_timeout = 30;
    state.player_shot_timeout = 15;
    let out = state.update(idle());
    assert_eq!(state.score, 0);
    assert!(!out.enemy_hit);
    assert_eq!(state.enemies.len(), 1);
    assert_eq!(state.shots_player.len(), 1);

    // One subunit closer: the strict test fires, both are zeroed and
    // purged, the score advances by one, and clearing the single enemy
    // triggers the wave respawn.
    let mut state = MainState::new(480, 640);
    state.enemies = vec![wf_enemy(-26400, 0)];
    state.shots_player = vec![GameObj::new_shot(0, -15839 - 13200, 0, 1)];
    state.enemy_shot_timeout = 30;
    state.player_shot_timeout = 15;
    let out = state.update(idle());
    assert_eq!(state.score, 1);
    assert!(out.enemy_hit);
    assert!(state.shots_player.is_empty());
    assert_eq!(state.level, 1);
    assert_eq!(state.enemies.len(), 55);
}

/// A barrier at one hit point struck by a player shot drops to zero and
/// advances its damage sprite in the same pass; the purge then removes it.
#[test]
fn barrier_destroyed_and_purged() {
    let mut state = MainState::new(480, 640);
    let mut barrier = GameObj::new_barrier(0, BARRIER_POS_Y);
    barrier.set_hit_points(1);
    state.barriers = vec![barrier];
    // Overlapping the barrier: radius sum 23760, vertical gap 20000.
    state.shots_player = vec![GameObj::new_shot(0, BARRIER_POS_Y - 20000, 0, 1)];
    state.collisions();
    assert_eq!(state.barriers[0].hit_points, 0);
    assert_eq!(state.barriers[0].curr_sprite, 1);
    assert_eq!(state.shots_player[0].hit_points, 0);
    state.remove_objects();
    assert!(state.barriers.is_empty());
    assert!(state.shots_player.is_empty());
}

/// Holding fire produces exactly one shot per 0.5 s of simulated time (15
/// ticks at 30 ticks per second), never more than one per tick.
#[test]
fn fire_cadence_one_shot_per_half_second() {
    let mut state = MainState::new(480, 640);
    let mut fired: Vec<u32> = Vec::new();
    for tick in 1..=90u32 {
        let out = state.update(firing());
        if out.shot_fired {
            fired.push(tick);
        }
    }
    assert_eq!(state.status, GameStatus::Running);
    assert_eq!(fired, vec![1, 16, 31, 46, 61, 76]);
}

/// Formation speed follows the `base / count` law: one survivor moves
/// exactly 55 times as fast as a member of the full 55-strong formation.
#[test]
fn formation_speed_scales_inversely() {
    let mut full = MainState::new(480, 640);
    full.update(idle());
    let full_speed = full.enemies[0].speed;
    assert_eq!(full_speed, ENEMY_BASE_SPEED / 55);
    for e in &full.enemies {
        assert_eq!(e.speed, full_speed);
    }

    let mut lone = MainState::new(480, 640);
    lone.enemies = vec![wf_enemy(0, 300000)];
    lone.update(idle());
    let lone_speed = lone.enemies[0].speed;
    assert_eq!(lone_speed, ENEMY_BASE_SPEED);
    assert_eq!(lone_speed, 55 * full_speed);
}

/// Across many ticks no entity's hit points ever go negative and no
/// radius ever leaves the positive range.
#[test]
fn invariants_hold_over_many_ticks() {
    let mut state = MainState::new(480, 640);
    for _ in 0..600 {
        state.update(firing());
        assert!(state.player.hit_points >= 0 && state.player.size > 0);
        for e in state
            .enemies
            .iter()
            .chain(state.barriers.iter())
            .chain(state.shots_player.iter())
            .chain(state.shots_enemy.iter())
        {
            assert!(e.hit_points >= 0);
            assert!(e.size > 0);
        }
        assert!(!state.enemies.is_empty());
        assert!(state.barriers.len() <= 4);
    }
}

/// The enemy shot spawns 20 pixels below some surviving enemy; with a
/// single survivor the shooter is determined, pinning down what the
/// randomness source handed back.
#[test]
fn enemy_shot_spawns_below_shooter() {
    let mut state = MainState::new(480, 640);
    state.enemies = vec![wf_enemy(-26400, 300000)];
    let out = state.update(idle());
    assert!(!out.shot_fired);
    assert_eq!(state.shots_enemy.len(), 1);
    // Spawned at the shooter's pre-motion position minus the 26400-subunit
    // offset, then integrated one tick downward (13200 subunits).
    assert_eq!(state.shots_enemy[0].x, -26400);
    assert_eq!(state.shots_enemy[0].y, 300000 - 26400 - 13200);
    assert_eq!((state.shots_enemy[0].dir_x, state.shots_enemy[0].dir_y), (0, -1));
}

/// Shots that leave the vertical extents despawn silently.
#[test]
fn shots_cull_off_screen() {
    let mut state = MainState::new(480, 640);
    // 640 px screen: half-extent 422400 subunits.  This shot crosses it
    // during the tick.
    state.shots_player = vec![GameObj::new_shot(0, 422000, 0, 1)];
    state.enemy_shot_timeout = 30;
    state.player_shot_timeout = 15;
    state.update(idle());
    assert!(state.shots_player.is_empty());
    assert_eq!(state.score, 0);
    assert_eq!(state.player.hit_points, 3);
}

/// The player is clamped to the playfield bounds.
#[test]
fn player_clamped_at_screen_edge() {
    let mut state = MainState::new(480, 640);
    // 480 px screen: bound 480 * 660 - 39600 == 277200 subunits.
    state.player.x = 270000;
    let input = InputState { xaxis: 1, is_firing: false };
    state.update(input);
    assert_eq!(state.player.x, 277200);
    state.update(input);
    assert_eq!(state.player.x, 277200);
    let left = InputState { xaxis: -1, is_firing: false };
    state.update(left);
    assert_eq!(state.player.x, 277200 - 13200);
}

/// The interface snapshot is handed out once when flagged, then the flag
/// clears.
#[test]
fn hud_consumed_once() {
    let mut state = MainState::new(480, 640);
    let out1 = state.update(idle());
    let hud = out1.hud.expect("fresh state owes the first refresh");
    assert_eq!(hud.score, 0);
    assert_eq!(hud.level, 0);
    assert_eq!(hud.player_hit_points, 3);
    let out2 = state.update(idle());
    assert_eq!(out2.hud, None);
}

/// The render descriptors list every entity in draw order.
#[test]
fn render_requests_cover_all_entities() {
    let mut state = MainState::new(480, 640);
    state.update(firing());
    let reqs = state.render_requests();
    assert_eq!(
        reqs.len(),
        1 + state.shots_player.len() + state.shots_enemy.len() + state.barriers.len()
            + state.enemies.len()
    );
    assert_eq!(reqs[0].tag, space_invaders::entity::GameObjType::Player);
    assert_eq!((reqs[0].x, reqs[0].y), (state.player.x, state.player.y));
    let last = reqs[reqs.len() - 1];
    let last_enemy = state.enemies[state.enemies.len() - 1];
    assert_eq!((last.x, last.y), (last_enemy.x, last_enemy.y));
    assert_eq!(last.visual_variant, last_enemy.curr_sprite);
}

/// The world-to-screen transform: origin at the top left, y growing down.
#[test]
fn world_to_screen_transform() {
    // 480 x 640 px: the world origin maps to the screen center.
    assert_eq!(world_to_screen_coords(480, 640, 0, 0), (316800, 422400));
    assert_eq!(world_to_screen_coords(480, 640, -316800, 422400), (0, 0));
    assert_eq!(world_to_screen_coords(480, 640, 316800, -422400), (633600, 844800));
}

/// A landscape screen is accepted as long as the fresh formation spawns
/// above the loss line (width within the configuration bound).
#[test]
fn landscape_screen_accepted() {
    let mut state = MainState::new(640, 480);
    for _ in 0..30 {
        state.update(firing());
        assert!(state.player.hit_points >= 0);
        assert!(!state.enemies.is_empty());
    }
    assert_eq!(state.status, GameStatus::Running);
}

/// The simulation accepts its extreme screen configurations.
#[test]
fn extreme_screen_dimensions() {
    let mut small = MainState::new(200, 200);
    for _ in 0..30 {
        small.update(firing());
        assert!(small.player.hit_points >= 0);
        assert!(!small.enemies.is_empty());
    }
    let mut large = MainState::new(16384, 16384);
    assert_eq!(large.enemies.len(), 55);
    for _ in 0..30 {
        large.update(firing());
        assert!(!large.enemies.is_empty());
    }
}

/// The simulation clock hands out whole 1/30 s steps and carries the
/// remainder exactly.
#[test]
fn clock_accumulates_fixed_steps() {
    let mut clock = SimClock::new();
    // 33333 us is just under one step (999990 of 1000000 tick-millionths).
    assert_eq!(clock.advance(33333), 0);
    assert_eq!(clock.advance(1), 1);
    assert_eq!(clock.accum, 20);
    // A long frame runs several catch-up steps at once.
    assert_eq!(clock.advance(100000), 3);
    // One simulated second is exactly 30 steps, regardless of frame
    // boundaries.
    let mut clock = SimClock::new();
    let mut steps = 0u64;
    for _ in 0..40 {
        steps += clock.advance(25000);
    }
    assert_eq!(steps, 30);
    assert_eq!(clock.accum, 0);
}
