use space_invaders::entity::GameObj;
use space_invaders::entity::BARRIER_HP;
use space_invaders::state::MainState;

fn wf_enemy(x: i64, y: i64) -> GameObj {
    let mut e = GameObj::new_enemy(x, y);
    e.set_curr_sprite(1);
    e
}

#[test]
fn purge_removes_exactly_the_dead() {
    let mut state = MainState::new(480, 640);
    let live = wf_enemy(0, 100000);
    let mut dead = wf_enemy(50000, 100000);
    dead.set_hit_points(0);
    state.enemies = vec![live, dead, live];
    let mut dead_shot = GameObj::new_shot(0, 0, 0, 1);
    dead_shot.set_hit_points(0);
    state.shots_player = vec![GameObj::new_shot(7, 8, 0, 1), dead_shot];
    state.shots_enemy = vec![dead_shot];
    state.remove_objects();
    assert_eq!(state.enemies, vec![live, live]);
    assert_eq!(state.shots_player, vec![GameObj::new_shot(7, 8, 0, 1)]);
    assert!(state.shots_enemy.is_empty());
    assert_eq!(state.barriers.len(), 4);
}

#[test]
fn purge_idempotent() {
    // A second purge with no intervening change is a no-op.
    let mut state = MainState::new(480, 640);
    let mut dead = wf_enemy(0, 100000);
    dead.set_hit_points(0);
    state.enemies = vec![wf_enemy(-100, 5000), dead, wf_enemy(200, 5000)];
    let mut dead_barrier = state.barriers[1];
    dead_barrier.set_hit_points(0);
    state.barriers = vec![state.barriers[0], dead_barrier];
    state.remove_objects();
    let enemies_once = state.enemies.clone();
    let barriers_once = state.barriers.clone();
    let shots_player_once = state.shots_player.clone();
    let shots_enemy_once = state.shots_enemy.clone();
    state.remove_objects();
    assert_eq!(state.enemies, enemies_once);
    assert_eq!(state.barriers, barriers_once);
    assert_eq!(state.shots_player, shots_player_once);
    assert_eq!(state.shots_enemy, shots_enemy_once);
}

#[test]
fn wave_clear_respawns_full_wave() {
    // With the enemy collection empty, the wave index advances, the
    // formation respawns and the barrier row is replaced at full health.
    let mut state = MainState::new(480, 640);
    state.enemies = Vec::new();
    let mut damaged = state.barriers[0];
    damaged.set_hit_points(1);
    damaged.set_curr_sprite(3);
    state.barriers = vec![damaged];
    state.gui_dirty = false;
    state.check_for_level_respawn();
    assert_eq!(state.level, 1);
    assert!(!state.enemies.is_empty());
    assert_eq!(state.enemies.len(), 55);
    assert_eq!(state.barriers.len(), 4);
    for b in &state.barriers {
        assert_eq!(b.hit_points, BARRIER_HP);
        assert_eq!(b.curr_sprite, 0);
    }
    assert!(state.gui_dirty);
}

#[test]
fn no_respawn_while_enemies_remain() {
    let mut state = MainState::new(480, 640);
    state.enemies = vec![wf_enemy(0, 100000)];
    state.check_for_level_respawn();
    assert_eq!(state.level, 0);
    assert_eq!(state.enemies.len(), 1);
}

#[test]
fn wave_difficulty_clamped() {
    // Beyond the maximum difficulty the formation spawns no lower.
    let mut state = MainState::new(480, 640);
    state.level = 9;
    state.enemies = Vec::new();
    state.check_for_level_respawn();
    assert_eq!(state.level, 10);
    let capped = space_invaders::formation::create_enemies(480, 7);
    assert_eq!(state.enemies, capped);
}
