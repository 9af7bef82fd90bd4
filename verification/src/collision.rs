//! Circular overlap testing and the counting machinery behind the collision
//! resolver.
//!
//! Two entities collide exactly when the distance between their centers is
//! strictly smaller than the sum of their radii.  The test is stated and
//! executed on squared distances, so it is exact integer arithmetic: a
//! distance equal to the radius sum is not a collision.

use vstd::prelude::*;

use crate::entity::GameObj;
use crate::state::MainState;

verus! {

pub open spec fn sq(x: int) -> int {
    x * x
}

/// The collision predicate: circle `a` and circle `b` overlap strictly.
pub open spec fn overlaps(a: GameObj, b: GameObj) -> bool {
    sq(b.x - a.x) + sq(b.y - a.y) < sq(a.size + b.size)
}

/// The overlap test does not depend on the order of its arguments: the
/// resolution rules are directional, but the geometric predicate is
/// symmetric.
pub proof fn lemma_overlap_symmetric(a: GameObj, b: GameObj)
    ensures
        overlaps(a, b) == overlaps(b, a),
{
    assert(sq(b.x - a.x) == sq(a.x - b.x) && sq(b.y - a.y) == sq(a.y - b.y) && sq(
        a.size + b.size,
    ) == sq(b.size + a.size)) by (nonlinear_arith);
}

/// Executable overlap test, exactly the `overlaps` predicate.
pub fn circles_overlap(a: &GameObj, b: &GameObj) -> (r: bool)
    requires
        a.in_world(),
        b.in_world(),
    ensures
        r == overlaps(*a, *b),
{
    let dx: i64 = b.x - a.x;
    let dy: i64 = b.y - a.y;
    let rs: i64 = a.size + b.size;
    proof {
        assert(0 <= dx * dx <= 200000000 * 200000000 && 0 <= dy * dy <= 200000000 * 200000000)
            by (nonlinear_arith)
            requires
                -200000000 <= dx <= 200000000,
                -200000000 <= dy <= 200000000,
        ;
        assert(0 <= rs * rs <= 40000 * 40000) by (nonlinear_arith)
            requires
                0 <= rs <= 40000,
        ;
    }
    dx * dx + dy * dy < rs * rs
}

/// `o` overlaps some member of `s` (`o` taken as the acting entity).
pub open spec fn hits_any(o: GameObj, s: Seq<GameObj>) -> bool {
    exists|i: int| 0 <= i < s.len() && overlaps(o, s[i])
}

/// Some member of `s` overlaps `t` (the members taken as acting entities).
pub open spec fn hit_by_any(t: GameObj, s: Seq<GameObj>) -> bool {
    exists|i: int| 0 <= i < s.len() && overlaps(s[i], t)
}

/// How many members of `s` the acting entity `o` overlaps.
pub open spec fn count_targets(o: GameObj, s: Seq<GameObj>) -> int
    decreases s.len(),
{
    if s.len() == 0 {
        0
    } else {
        count_targets(o, s.drop_last()) + if overlaps(o, s.last()) {
            1int
        } else {
            0int
        }
    }
}

/// How many members of `s`, taken as acting entities, overlap `t`.
pub open spec fn count_hitting(t: GameObj, s: Seq<GameObj>) -> int
    decreases s.len(),
{
    if s.len() == 0 {
        0
    } else {
        count_hitting(t, s.drop_last()) + if overlaps(s.last(), t) {
            1int
        } else {
            0int
        }
    }
}

/// How many ordered pairs of a shot from `shots` and a member of `targets`
/// overlap; the score advances by exactly this many points in a resolution
/// pass.
pub open spec fn pair_hits(shots: Seq<GameObj>, targets: Seq<GameObj>) -> int
    decreases shots.len(),
{
    if shots.len() == 0 {
        0
    } else {
        pair_hits(shots.drop_last(), targets) + count_targets(shots.last(), targets)
    }
}

pub proof fn lemma_count_targets_bounds(o: GameObj, s: Seq<GameObj>)
    ensures
        0 <= count_targets(o, s) <= s.len(),
    decreases s.len(),
{
    if s.len() > 0 {
        lemma_count_targets_bounds(o, s.drop_last());
    }
}

pub proof fn lemma_count_hitting_bounds(t: GameObj, s: Seq<GameObj>)
    ensures
        0 <= count_hitting(t, s) <= s.len(),
    decreases s.len(),
{
    if s.len() > 0 {
        lemma_count_hitting_bounds(t, s.drop_last());
    }
}

pub proof fn lemma_pair_hits_nonneg(shots: Seq<GameObj>, targets: Seq<GameObj>)
    ensures
        0 <= pair_hits(shots, targets),
    decreases shots.len(),
{
    if shots.len() > 0 {
        lemma_pair_hits_nonneg(shots.drop_last(), targets);
        lemma_count_targets_bounds(shots.last(), targets);
    }
}

/// The two collections agree on every position and radius; they may differ
/// in hit points or sprite variant, which the overlap test never reads.
pub open spec fn same_geometry(s1: Seq<GameObj>, s2: Seq<GameObj>) -> bool {
    &&& s1.len() == s2.len()
    &&& forall|i: int|
        0 <= i < s1.len() ==> (#[trigger] s1[i]).x == s2[i].x && s1[i].y == s2[i].y && s1[i].size
            == s2[i].size
}

pub proof fn lemma_hit_by_any_geom(t: GameObj, s1: Seq<GameObj>, s2: Seq<GameObj>)
    requires
        same_geometry(s1, s2),
    ensures
        hit_by_any(t, s1) == hit_by_any(t, s2),
{
    if hit_by_any(t, s1) {
        let i = choose|i: int| 0 <= i < s1.len() && overlaps(s1[i], t);
        assert(overlaps(s2[i], t));
    }
    if hit_by_any(t, s2) {
        let i = choose|i: int| 0 <= i < s2.len() && overlaps(s2[i], t);
        assert(overlaps(s1[i], t));
    }
}

pub proof fn lemma_count_hitting_geom(t: GameObj, s1: Seq<GameObj>, s2: Seq<GameObj>)
    requires
        same_geometry(s1, s2),
    ensures
        count_hitting(t, s1) == count_hitting(t, s2),
    decreases s1.len(),
{
    if s1.len() > 0 {
        assert(same_geometry(s1.drop_last(), s2.drop_last()));
        lemma_count_hitting_geom(t, s1.drop_last(), s2.drop_last());
        assert(s1[s1.len() - 1].x == s2[s1.len() - 1].x);
    }
}

/// The count of members the acting entity `o` overlaps is positive exactly
/// when it overlaps some member.
pub proof fn lemma_count_targets_pos(o: GameObj, s: Seq<GameObj>)
    ensures
        (count_targets(o, s) > 0) == hits_any(o, s),
    decreases s.len(),
{
    if s.len() > 0 {
        lemma_count_targets_pos(o, s.drop_last());
        lemma_count_targets_bounds(o, s.drop_last());
        if hits_any(o, s) && !overlaps(o, s.last()) {
            let i = choose|i: int| 0 <= i < s.len() && overlaps(o, s[i]);
            assert(s.drop_last()[i] == s[i]);
            assert(hits_any(o, s.drop_last()));
        }
        if hits_any(o, s.drop_last()) {
            let i = choose|i: int| 0 <= i < s.drop_last().len() && overlaps(o, s.drop_last()[i]);
            assert(overlaps(o, s[i]));
        }
    }
}

/// All members of `s` satisfying `in_world` lets the overlap helpers run on
/// the whole group.
pub open spec fn all_in_world(s: Seq<GameObj>) -> bool {
    forall|i: int| 0 <= i < s.len() ==> s[i].in_world()
}

/// Whether acting entity `o` overlaps any member of `s`.
#[verifier::loop_isolation(false)]
pub fn any_overlap_targets(o: &GameObj, s: &Vec<GameObj>) -> (r: bool)
    requires
        o.in_world(),
        all_in_world(s@),
    ensures
        r == hits_any(*o, s@),
{
    let mut r = false;
    for j in 0..s.len()
        invariant
            r == hits_any(*o, s@.subrange(0, j as int)),
    {
        proof {
            assert(s@.subrange(0, j + 1).drop_last() =~= s@.subrange(0, j as int));
            assert(s@.subrange(0, j + 1).last() == s@[j as int]);
        }
        if circles_overlap(o, &s[j]) {
            r = true;
        }
        proof {
            if r && !hits_any(*o, s@.subrange(0, j + 1)) {
                assert(overlaps(*o, s@.subrange(0, j + 1)[j as int]) || hits_any(
                    *o,
                    s@.subrange(0, j as int),
                ));
            }
        }
    }
    proof {
        assert(s@.subrange(0, s@.len() as int) =~= s@);
    }
    r
}

/// Whether any member of `s`, taken as the acting entity, overlaps `t`.
#[verifier::loop_isolation(false)]
pub fn any_overlap_shooters(t: &GameObj, s: &Vec<GameObj>) -> (r: bool)
    requires
        t.in_world(),
        all_in_world(s@),
    ensures
        r == hit_by_any(*t, s@),
{
    let mut r = false;
    for j in 0..s.len()
        invariant
            r == hit_by_any(*t, s@.subrange(0, j as int)),
    {
        proof {
            assert(s@.subrange(0, j + 1).drop_last() =~= s@.subrange(0, j as int));
            assert(s@.subrange(0, j + 1).last() == s@[j as int]);
        }
        if circles_overlap(&s[j], t) {
            r = true;
        }
        proof {
            if r && !hit_by_any(*t, s@.subrange(0, j + 1)) {
                assert(overlaps(s@.subrange(0, j + 1)[j as int], *t) || hit_by_any(
                    *t,
                    s@.subrange(0, j as int),
                ));
            }
        }
    }
    proof {
        assert(s@.subrange(0, s@.len() as int) =~= s@);
    }
    r
}

/// How many members of `s` the acting entity `o` overlaps.
#[verifier::loop_isolation(false)]
pub fn count_overlap_targets(o: &GameObj, s: &Vec<GameObj>) -> (n: u64)
    requires
        o.in_world(),
        all_in_world(s@),
    ensures
        n == count_targets(*o, s@),
{
    let mut n: u64 = 0;
    for j in 0..s.len()
        invariant
            n == count_targets(*o, s@.subrange(0, j as int)),
            n <= j,
    {
        proof {
            assert(s@.subrange(0, j + 1).drop_last() =~= s@.subrange(0, j as int));
            assert(s@.subrange(0, j + 1).last() == s@[j as int]);
        }
        if circles_overlap(o, &s[j]) {
            n = n + 1;
        }
    }
    proof {
        assert(s@.subrange(0, s@.len() as int) =~= s@);
    }
    n
}

/// How many members of `s`, taken as acting entities, overlap `t`.
#[verifier::loop_isolation(false)]
pub fn count_overlap_shooters(t: &GameObj, s: &Vec<GameObj>) -> (n: u64)
    requires
        t.in_world(),
        all_in_world(s@),
    ensures
        n == count_hitting(*t, s@),
{
    let mut n: u64 = 0;
    for j in 0..s.len()
        invariant
            n == count_hitting(*t, s@.subrange(0, j as int)),
            n <= j,
    {
        proof {
            assert(s@.subrange(0, j + 1).drop_last() =~= s@.subrange(0, j as int));
            assert(s@.subrange(0, j + 1).last() == s@[j as int]);
        }
        if circles_overlap(&s[j], t) {
            n = n + 1;
        }
    }
    proof {
        assert(s@.subrange(0, s@.len() as int) =~= s@);
    }
    n
}

/// Saturating addition on the score counter.
pub open spec fn sat_add_u64(a: int, b: int) -> int {
    if a + b <= u64::MAX {
        a + b
    } else {
        u64::MAX as int
    }
}

/// A player shot after one resolution pass: zeroed if it overlapped any
/// enemy, barrier or enemy shot (every matching rule fires; none
/// short-circuits), untouched otherwise.
pub open spec fn pshot_after(
    s: GameObj,
    enemies: Seq<GameObj>,
    barriers: Seq<GameObj>,
    eshots: Seq<GameObj>,
) -> GameObj {
    if hits_any(s, enemies) || hits_any(s, barriers) || hits_any(s, eshots) {
        GameObj { hit_points: 0, ..s }
    } else {
        s
    }
}

/// An enemy after one resolution pass: zeroed if any player shot overlapped
/// it.
pub open spec fn enemy_after(e: GameObj, pshots: Seq<GameObj>) -> GameObj {
    if hit_by_any(e, pshots) {
        GameObj { hit_points: 0, ..e }
    } else {
        e
    }
}

/// A barrier after one resolution pass: each overlapping shot of either
/// side costs one hit point (never below zero) and advances the damage
/// sprite by one (capped at the last stage); enemy body contact destroys
/// the barrier outright.
pub open spec fn barrier_after(
    b: GameObj,
    pshots: Seq<GameObj>,
    eshots: Seq<GameObj>,
    enemies: Seq<GameObj>,
) -> GameObj {
    let n = count_hitting(b, pshots) + count_hitting(b, eshots);
    let hp = if hit_by_any(b, enemies) {
        0int
    } else if n >= b.hit_points {
        0int
    } else {
        b.hit_points - n
    };
    let sprite = if b.curr_sprite + n > 3 {
        3int
    } else {
        b.curr_sprite + n
    };
    GameObj { hit_points: hp as i32, curr_sprite: sprite as i32, ..b }
}

/// The player after one resolution pass: each overlapping enemy shot costs
/// one hit point (never below zero), and enemy body contact is an instant
/// loss, forcing the hit points to zero.
pub open spec fn player_after(p: GameObj, eshots: Seq<GameObj>, enemies: Seq<GameObj>) -> GameObj {
    let hits = count_hitting(p, eshots);
    let hp = if hit_by_any(p, enemies) {
        0int
    } else if hits >= p.hit_points {
        0int
    } else {
        p.hit_points - hits
    };
    GameObj { hit_points: hp as i32, ..p }
}

/// An enemy shot after one resolution pass: zeroed if it overlapped any
/// player shot (shots cancel), the player, or any barrier.
pub open spec fn eshot_after(
    s: GameObj,
    pshots: Seq<GameObj>,
    player: GameObj,
    barriers: Seq<GameObj>,
) -> GameObj {
    if hit_by_any(s, pshots) || overlaps(s, player) || hits_any(s, barriers) {
        GameObj { hit_points: 0, ..s }
    } else {
        s
    }
}


/// The resolution outcome of an enemy shot depends only on the geometry of
/// the player-shot group, not on its hit points.
pub proof fn lemma_eshot_after_geom(
    s: GameObj,
    sp1: Seq<GameObj>,
    sp2: Seq<GameObj>,
    player: GameObj,
    barriers: Seq<GameObj>,
)
    requires
        same_geometry(sp1, sp2),
    ensures
        eshot_after(s, sp1, player, barriers) == eshot_after(s, sp2, player, barriers),
{
    lemma_hit_by_any_geom(s, sp1, sp2);
}

/// The resolution outcome of an enemy depends only on the geometry of the
/// player-shot group.
pub proof fn lemma_enemy_after_geom(e: GameObj, sp1: Seq<GameObj>, sp2: Seq<GameObj>)
    requires
        same_geometry(sp1, sp2),
    ensures
        enemy_after(e, sp1) == enemy_after(e, sp2),
{
    lemma_hit_by_any_geom(e, sp1, sp2);
}

/// The resolution outcome of a barrier depends only on the geometry of the
/// shot groups and of the enemies.
pub proof fn lemma_barrier_after_geom(
    b: GameObj,
    sp1: Seq<GameObj>,
    sp2: Seq<GameObj>,
    se1: Seq<GameObj>,
    se2: Seq<GameObj>,
    en1: Seq<GameObj>,
    en2: Seq<GameObj>,
)
    requires
        same_geometry(sp1, sp2),
        same_geometry(se1, se2),
        same_geometry(en1, en2),
    ensures
        barrier_after(b, sp1, se1, en1) == barrier_after(b, sp2, se2, en2),
{
    lemma_count_hitting_geom(b, sp1, sp2);
    lemma_count_hitting_geom(b, se1, se2);
    lemma_hit_by_any_geom(b, en1, en2);
}

/// The resolution outcome of the player depends only on the geometry of
/// the enemy shots and of the enemies.
pub proof fn lemma_player_after_geom(
    p: GameObj,
    se1: Seq<GameObj>,
    se2: Seq<GameObj>,
    en1: Seq<GameObj>,
    en2: Seq<GameObj>,
)
    requires
        same_geometry(se1, se2),
        same_geometry(en1, en2),
    ensures
        player_after(p, se1, en1) == player_after(p, se2, en2),
{
    lemma_count_hitting_geom(p, se1, se2);
    lemma_hit_by_any_geom(p, en1, en2);
}

impl MainState {
    /// Resolution pass of the player shots: each that overlaps an enemy, a
    /// barrier or an enemy shot is zeroed; the score advances by one per
    /// overlapping (shot, enemy) pair, saturating.  Returns whether any
    /// enemy was hit.
    #[verifier::loop_isolation(false)]
    fn pass_player_shots(&mut self) -> (enemy_hit: bool)
        requires
            all_in_world(old(self).enemies@),
            all_in_world(old(self).barriers@),
            all_in_world(old(self).shots_player@),
            all_in_world(old(self).shots_enemy@),
        ensures
            final(self).shots_player@.len() == old(self).shots_player@.len(),
            forall|i: int|
                0 <= i < old(self).shots_player@.len() ==> final(self).shots_player@[i]
                    == pshot_after(
                    #[trigger] old(self).shots_player@[i],
                    old(self).enemies@,
                    old(self).barriers@,
                    old(self).shots_enemy@,
                ),
            final(self).score as int == sat_add_u64(
                old(self).score as int,
                pair_hits(old(self).shots_player@, old(self).enemies@),
            ),
            enemy_hit == (pair_hits(old(self).shots_player@, old(self).enemies@) > 0),
            (*final(self) == MainState {
                shots_player: final(self).shots_player,
                score: final(self).score,
                ..*old(self)
            }),
    {
        let ghost sp0 = self.shots_player@;
        let ghost en0 = self.enemies@;
        let mut enemy_hit = false;
        let np = self.shots_player.len();
        for i in 0..np
            invariant
                self.shots_player@.len() == np,
                forall|k: int|
                    0 <= k < i ==> self.shots_player@[k] == pshot_after(
                        #[trigger] sp0[k],
                        en0,
                        old(self).barriers@,
                        old(self).shots_enemy@,
                    ),
                forall|k: int| i <= k < np ==> self.shots_player@[k] == (#[trigger] sp0[k]),
                self.score as int == sat_add_u64(
                    old(self).score as int,
                    pair_hits(sp0.subrange(0, i as int), en0),
                ),
                enemy_hit == (pair_hits(sp0.subrange(0, i as int), en0) > 0),
                (*self == MainState {
                    shots_player: self.shots_player,
                    score: self.score,
                    ..*old(self)
                }),
        {
            let s = self.shots_player[i];
            proof {
                assert(s == sp0[i as int]);
                assert(sp0.subrange(0, i + 1).drop_last() =~= sp0.subrange(0, i as int));
                assert(sp0.subrange(0, i + 1).last() == sp0[i as int]);
                lemma_pair_hits_nonneg(sp0.subrange(0, i as int), en0);
                lemma_count_targets_bounds(s, en0);
                lemma_count_targets_pos(s, en0);
            }
            let n = count_overlap_targets(&s, &self.enemies);
            let hit_b = any_overlap_targets(&s, &self.barriers);
            let hit_es = any_overlap_targets(&s, &self.shots_enemy);
            if n > 0 || hit_b || hit_es {
                let mut s2 = s;
                s2.set_hit_points(0);
                self.shots_player.set(i, s2);
            }
            if self.score > u64::MAX - n {
                self.score = u64::MAX;
            } else {
                self.score = self.score + n;
            }
            if n > 0 {
                enemy_hit = true;
            }
        }
        proof {
            assert(sp0.subrange(0, np as int) =~= sp0);
        }
        enemy_hit
    }

    /// Resolution pass of the enemy shots: each that overlaps a player
    /// shot, the player or a barrier is zeroed.
    #[verifier::loop_isolation(false)]
    fn pass_enemy_shots(&mut self)
        requires
            old(self).player.in_world(),
            all_in_world(old(self).barriers@),
            all_in_world(old(self).shots_player@),
            all_in_world(old(self).shots_enemy@),
        ensures
            final(self).shots_enemy@.len() == old(self).shots_enemy@.len(),
            forall|i: int|
                0 <= i < old(self).shots_enemy@.len() ==> final(self).shots_enemy@[i]
                    == eshot_after(
                    #[trigger] old(self).shots_enemy@[i],
                    old(self).shots_player@,
                    old(self).player,
                    old(self).barriers@,
                ),
            (*final(self) == MainState { shots_enemy: final(self).shots_enemy, ..*old(self) }),
    {
        let ghost se0 = self.shots_enemy@;
        let ns = self.shots_enemy.len();
        for i in 0..ns
            invariant
                self.shots_enemy@.len() == ns,
                forall|k: int|
                    0 <= k < i ==> self.shots_enemy@[k] == eshot_after(
                        #[trigger] se0[k],
                        old(self).shots_player@,
                        old(self).player,
                        old(self).barriers@,
                    ),
                forall|k: int| i <= k < ns ==> self.shots_enemy@[k] == (#[trigger] se0[k]),
                (*self == MainState { shots_enemy: self.shots_enemy, ..*old(self) }),
        {
            let s = self.shots_enemy[i];
            proof {
                assert(s == se0[i as int]);
            }
            let hit_ps = any_overlap_shooters(&s, &self.shots_player);
            let hit_p = circles_overlap(&s, &self.player);
            let hit_b = any_overlap_targets(&s, &self.barriers);
            if hit_ps || hit_p || hit_b {
                let mut s2 = s;
                s2.set_hit_points(0);
                self.shots_enemy.set(i, s2);
            }
        }
    }

    /// Resolution pass of the enemies: each that a player shot overlaps is
    /// zeroed.
    #[verifier::loop_isolation(false)]
    fn pass_enemies(&mut self)
        requires
            all_in_world(old(self).enemies@),
            all_in_world(old(self).shots_player@),
        ensures
            final(self).enemies@.len() == old(self).enemies@.len(),
            forall|i: int|
                0 <= i < old(self).enemies@.len() ==> final(self).enemies@[i] == enemy_after(
                    #[trigger] old(self).enemies@[i],
                    old(self).shots_player@,
                ),
            (*final(self) == MainState { enemies: final(self).enemies, ..*old(self) }),
    {
        let ghost en0 = self.enemies@;
        let ne = self.enemies.len();
        for i in 0..ne
            invariant
                self.enemies@.len() == ne,
                forall|k: int|
                    0 <= k < i ==> self.enemies@[k] == enemy_after(
                        #[trigger] en0[k],
                        old(self).shots_player@,
                    ),
                forall|k: int| i <= k < ne ==> self.enemies@[k] == (#[trigger] en0[k]),
                (*self == MainState { enemies: self.enemies, ..*old(self) }),
        {
            let e = self.enemies[i];
            proof {
                assert(e == en0[i as int]);
            }
            let hit = any_overlap_shooters(&e, &self.shots_player);
            if hit {
                let mut e2 = e;
                e2.hit_points = 0;
                self.enemies.set(i, e2);
            }
        }
    }

    /// Resolution pass of the barriers: shot damage from both sides and
    /// outright destruction on enemy body contact.
    #[verifier::loop_isolation(false)]
    fn pass_barriers(&mut self)
        requires
            all_in_world(old(self).enemies@),
            all_in_world(old(self).barriers@),
            all_in_world(old(self).shots_player@),
            all_in_world(old(self).shots_enemy@),
            forall|i: int|
                0 <= i < old(self).barriers@.len() ==> (#[trigger] old(
                    self,
                ).barriers@[i]).hit_points >= 0 && -2 <= old(self).barriers@[i].curr_sprite <= 3,
        ensures
            final(self).barriers@.len() == old(self).barriers@.len(),
            forall|i: int|
                0 <= i < old(self).barriers@.len() ==> final(self).barriers@[i] == barrier_after(
                    #[trigger] old(self).barriers@[i],
                    old(self).shots_player@,
                    old(self).shots_enemy@,
                    old(self).enemies@,
                ),
            (*final(self) == MainState { barriers: final(self).barriers, ..*old(self) }),
    {
        let ghost ba0 = self.barriers@;
        let nb = self.barriers.len();
        for i in 0..nb
            invariant
                self.barriers@.len() == nb,
                forall|k: int|
                    0 <= k < i ==> self.barriers@[k] == barrier_after(
                        #[trigger] ba0[k],
                        old(self).shots_player@,
                        old(self).shots_enemy@,
                        old(self).enemies@,
                    ),
                forall|k: int| i <= k < nb ==> self.barriers@[k] == (#[trigger] ba0[k]),
                (*self == MainState { barriers: self.barriers, ..*old(self) }),
        {
            let b = self.barriers[i];
            proof {
                assert(b == ba0[i as int]);
                lemma_count_hitting_bounds(b, old(self).shots_player@);
                lemma_count_hitting_bounds(b, old(self).shots_enemy@);
            }
            let n1 = count_overlap_shooters(&b, &self.shots_player);
            let n2 = count_overlap_shooters(&b, &self.shots_enemy);
            let contact = any_overlap_shooters(&b, &self.enemies);
            let total: u64 = if n1 > u64::MAX - n2 {
                u64::MAX
            } else {
                n1 + n2
            };
            let mut b2 = b;
            if contact {
                b2.hit_points = 0;
            } else if total >= b.get_hit_points() as u64 {
                b2.hit_points = 0;
            } else {
                b2.hit_points = b.get_hit_points() - total as i32;
            }
            let sprite = b.get_curr_sprite();
            if total >= (3 - sprite) as u64 {
                b2.curr_sprite = 3;
            } else {
                b2.curr_sprite = sprite + total as i32;
            }
            self.barriers.set(i, b2);
            proof {
                assert(self.barriers@[i as int] == barrier_after(
                    ba0[i as int],
                    old(self).shots_player@,
                    old(self).shots_enemy@,
                    old(self).enemies@,
                ));
            }
        }
    }

    /// Resolution pass of the player: gradual damage from enemy shots and
    /// instant loss on enemy body contact.  Returns whether the player was
    /// hit by a shot.
    fn pass_player(&mut self) -> (player_hit: bool)
        requires
            old(self).player.in_world(),
            old(self).player.hit_points >= 0,
            all_in_world(old(self).enemies@),
            all_in_world(old(self).shots_enemy@),
        ensures
            final(self).player == player_after(
                old(self).player,
                old(self).shots_enemy@,
                old(self).enemies@,
            ),
            player_hit == (count_hitting(old(self).player, old(self).shots_enemy@) > 0),
            (*final(self) == MainState { player: final(self).player, ..*old(self) }),
    {
        proof {
            lemma_count_hitting_bounds(self.player, self.shots_enemy@);
        }
        let hits = count_overlap_shooters(&self.player, &self.shots_enemy);
        let contact = any_overlap_shooters(&self.player, &self.enemies);
        let player_hit = hits > 0;
        if contact {
            self.player.hit_points = 0;
        } else if hits >= self.player.get_hit_points() as u64 {
            self.player.hit_points = 0;
        } else {
            let hp = self.player.get_hit_points();
            self.player.hit_points = hp - hits as i32;
        }
        player_hit
    }

    /// One collision-resolution pass over all entity groups: pure mutation
    /// of hit points, score and sprite variants against the positions as
    /// they stand; no entity is removed here.  All matching rules fire
    /// independently in the same pass; no rule short-circuits another.
    /// Returns the two audio cues of the pass: (an enemy was hit, the
    /// player was hit).
    pub fn collisions(&mut self) -> (cues: (bool, bool))
        requires
            old(self).player.in_world(),
            all_in_world(old(self).enemies@),
            all_in_world(old(self).barriers@),
            all_in_world(old(self).shots_player@),
            all_in_world(old(self).shots_enemy@),
            old(self).player.hit_points >= 0,
            forall|i: int|
                0 <= i < old(self).barriers@.len() ==> (#[trigger] old(
                    self,
                ).barriers@[i]).hit_points >= 0 && -2 <= old(self).barriers@[i].curr_sprite <= 3,
        ensures
            final(self).shots_player@.len() == old(self).shots_player@.len(),
            forall|i: int|
                0 <= i < old(self).shots_player@.len() ==> final(self).shots_player@[i]
                    == pshot_after(
                    #[trigger] old(self).shots_player@[i],
                    old(self).enemies@,
                    old(self).barriers@,
                    old(self).shots_enemy@,
                ),
            final(self).shots_enemy@.len() == old(self).shots_enemy@.len(),
            forall|i: int|
                0 <= i < old(self).shots_enemy@.len() ==> final(self).shots_enemy@[i]
                    == eshot_after(
                    #[trigger] old(self).shots_enemy@[i],
                    old(self).shots_player@,
                    old(self).player,
                    old(self).barriers@,
                ),
            final(self).enemies@.len() == old(self).enemies@.len(),
            forall|i: int|
                0 <= i < old(self).enemies@.len() ==> final(self).enemies@[i] == enemy_after(
                    #[trigger] old(self).enemies@[i],
                    old(self).shots_player@,
                ),
            final(self).barriers@.len() == old(self).barriers@.len(),
            forall|i: int|
                0 <= i < old(self).barriers@.len() ==> final(self).barriers@[i] == barrier_after(
                    #[trigger] old(self).barriers@[i],
                    old(self).shots_player@,
                    old(self).shots_enemy@,
                    old(self).enemies@,
                ),
            final(self).player == player_after(
                old(self).player,
                old(self).shots_enemy@,
                old(self).enemies@,
            ),
            final(self).score as int == sat_add_u64(
                old(self).score as int,
                pair_hits(old(self).shots_player@, old(self).enemies@),
            ),
            cues.0 == (pair_hits(old(self).shots_player@, old(self).enemies@) > 0),
            cues.1 == (count_hitting(old(self).player, old(self).shots_enemy@) > 0),
            final(self).gui_dirty == (old(self).gui_dirty || cues.0 || cues.1),
            forall|i: int|
                0 <= i < old(self).shots_player@.len() ==> final(self).shots_player@[i] == (
                #[trigger] old(self).shots_player@[i]) || final(self).shots_player@[i]
                    == (GameObj { hit_points: 0, ..old(self).shots_player@[i] }),
            forall|i: int|
                0 <= i < old(self).shots_enemy@.len() ==> final(self).shots_enemy@[i] == (
                #[trigger] old(self).shots_enemy@[i]) || final(self).shots_enemy@[i]
                    == (GameObj { hit_points: 0, ..old(self).shots_enemy@[i] }),
            forall|i: int|
                0 <= i < old(self).enemies@.len() ==> final(self).enemies@[i] == (#[trigger] old(
                    self,
                ).enemies@[i]) || final(self).enemies@[i] == (GameObj {
                    hit_points: 0,
                    ..old(self).enemies@[i]
                }),
            forall|i: int|
                0 <= i < old(self).barriers@.len() ==> {
                    let b2 = final(self).barriers@[i];
                    let b = #[trigger] old(self).barriers@[i];
                    &&& b2.tag == b.tag
                    &&& b2.size == b.size
                    &&& b2.speed == b.speed
                    &&& b2.dir_x == b.dir_x
                    &&& b2.dir_y == b.dir_y
                    &&& b2.x == b.x
                    &&& b2.y == b.y
                    &&& 0 <= b2.hit_points <= b.hit_points
                    &&& b.curr_sprite <= b2.curr_sprite <= 3
                },
            final(self).player.hit_points <= old(self).player.hit_points,
            final(self).player.hit_points >= 0,
            (GameObj { hit_points: final(self).player.hit_points, ..old(self).player })
                == final(self).player,
            (*final(self) == MainState {
                player: final(self).player,
                enemies: final(self).enemies,
                barriers: final(self).barriers,
                shots_player: final(self).shots_player,
                shots_enemy: final(self).shots_enemy,
                score: final(self).score,
                gui_dirty: final(self).gui_dirty,
                ..*old(self)
            }),
    {
        let ghost sp0 = self.shots_player@;
        let ghost se0 = self.shots_enemy@;
        let ghost en0 = self.enemies@;
        let ghost ba0 = self.barriers@;
        let ghost p0 = self.player;

        let enemy_hit = self.pass_player_shots();
        proof {
            assert(same_geometry(self.shots_player@, sp0));
        }
        self.pass_enemy_shots();
        proof {
            assert forall|i: int| 0 <= i < se0.len() implies self.shots_enemy@[i] == eshot_after(
                #[trigger] se0[i],
                sp0,
                p0,
                ba0,
            ) by {
                lemma_eshot_after_geom(se0[i], self.shots_player@, sp0, p0, ba0);
            }
            assert(same_geometry(self.shots_enemy@, se0));
        }
        self.pass_enemies();
        proof {
            assert forall|i: int| 0 <= i < en0.len() implies self.enemies@[i] == enemy_after(
                #[trigger] en0[i],
                sp0,
            ) by {
                lemma_enemy_after_geom(en0[i], self.shots_player@, sp0);
            }
            assert(same_geometry(self.enemies@, en0));
        }
        self.pass_barriers();
        proof {
            assert forall|i: int| 0 <= i < ba0.len() implies self.barriers@[i] == barrier_after(
                #[trigger] ba0[i],
                sp0,
                se0,
                en0,
            ) by {
                lemma_barrier_after_geom(
                    ba0[i],
                    self.shots_player@,
                    sp0,
                    self.shots_enemy@,
                    se0,
                    self.enemies@,
                    en0,
                );
            }
        }
        let player_hit = self.pass_player();
        proof {
            lemma_player_after_geom(p0, self.shots_enemy@, se0, self.enemies@, en0);
            lemma_count_hitting_geom(p0, self.shots_enemy@, se0);
            lemma_count_hitting_bounds(p0, se0);
            assert forall|i: int|
                0 <= i < ba0.len() implies {
                let b2 = self.barriers@[i];
                let b = #[trigger] ba0[i];
                &&& b2.tag == b.tag
                &&& b2.size == b.size
                &&& b2.speed == b.speed
                &&& b2.dir_x == b.dir_x
                &&& b2.dir_y == b.dir_y
                &&& b2.x == b.x
                &&& b2.y == b.y
                &&& 0 <= b2.hit_points <= b.hit_points
                &&& b.curr_sprite <= b2.curr_sprite <= 3
            } by {
                assert(self.barriers@[i] == barrier_after(ba0[i], sp0, se0, en0));
                lemma_count_hitting_bounds(ba0[i], sp0);
                lemma_count_hitting_bounds(ba0[i], se0);
            }
        }
        self.gui_dirty = self.gui_dirty || enemy_hit || player_hit;
        (enemy_hit, player_hit)
    }
}

} // verus!
