//! Lifecycle management: entities whose hit points reached zero are removed
//! from their owning collection, survivors keeping their relative order.

use vstd::prelude::*;

use crate::entity::GameObj;
use crate::entity::BARRIER_HP;
use crate::formation::create_barriers;
use crate::formation::create_enemies;
use crate::formation::is_barrier_formation;
use crate::formation::is_enemy_formation;
use crate::formation::MAX_DIFF_LEVEL;
use crate::state::MainState;

verus! {

/// The subsequence of `s` whose members still have hit points: what one
/// purge pass leaves of a collection.
pub open spec fn live_only(s: Seq<GameObj>) -> Seq<GameObj>
    decreases s.len(),
{
    if s.len() == 0 {
        Seq::empty()
    } else if s.last().hit_points != 0 {
        live_only(s.drop_last()).push(s.last())
    } else {
        live_only(s.drop_last())
    }
}

/// Every survivor of a purge has nonzero hit points, and there are no more
/// survivors than there were members.
pub proof fn lemma_live_only_live(s: Seq<GameObj>)
    ensures
        live_only(s).len() <= s.len(),
        forall|i: int| 0 <= i < live_only(s).len() ==> live_only(s)[i].hit_points != 0,
    decreases s.len(),
{
    if s.len() > 0 {
        lemma_live_only_live(s.drop_last());
    }
}

/// Every survivor of a purge was a member of the collection purged.
pub proof fn lemma_live_only_members(s: Seq<GameObj>)
    ensures
        forall|i: int|
            0 <= i < live_only(s).len() ==> exists|j: int|
                0 <= j < s.len() && #[trigger] live_only(s)[i] == #[trigger] s[j],
    decreases s.len(),
{
    if s.len() > 0 {
        lemma_live_only_members(s.drop_last());
        assert forall|i: int| 0 <= i < live_only(s).len() implies exists|j: int|
            0 <= j < s.len() && #[trigger] live_only(s)[i] == #[trigger] s[j] by {
            let prefix = live_only(s.drop_last());
            if i < prefix.len() {
                let j = choose|j: int| 0 <= j < s.drop_last().len() && prefix[i] == s.drop_last()[j];
                assert(live_only(s)[i] == s[j]);
            } else {
                assert(live_only(s)[i] == s[s.len() - 1]);
            }
        }
    }
}

/// A collection with no dead members is left exactly as it is by a purge.
pub proof fn lemma_live_only_noop(s: Seq<GameObj>)
    requires
        forall|i: int| 0 <= i < s.len() ==> s[i].hit_points != 0,
    ensures
        live_only(s) == s,
    decreases s.len(),
{
    if s.len() > 0 {
        lemma_live_only_noop(s.drop_last());
        assert(live_only(s) =~= s);
    }
}

/// Purging is idempotent: a second purge with no intervening change is a
/// no-op, for every collection.
pub proof fn lemma_purge_idempotent(s: Seq<GameObj>)
    ensures
        live_only(live_only(s)) == live_only(s),
{
    lemma_live_only_live(s);
    lemma_live_only_noop(live_only(s));
}

/// Removes every member with zero hit points, in one order-preserving pass.
#[verifier::loop_isolation(false)]
pub fn retain_live(v: &mut Vec<GameObj>)
    ensures
        final(v)@ == live_only(old(v)@),
{
    let n = v.len();
    let mut kept: Vec<GameObj> = Vec::new();
    let mut i: usize = 0;
    while i < n
        invariant
            n == v@.len(),
            *v == *old(v),
            0 <= i <= n,
            kept@ == live_only(v@.subrange(0, i as int)),
        decreases n - i,
    {
        proof {
            assert(v@.subrange(0, i + 1).drop_last() =~= v@.subrange(0, i as int));
            assert(v@.subrange(0, i + 1).last() == v@[i as int]);
        }
        if v[i].get_hit_points() != 0 {
            let obj = v[i];
            kept.push(obj);
        }
        i = i + 1;
    }
    proof {
        assert(v@.subrange(0, n as int) =~= v@);
    }
    *v = kept;
}

impl MainState {
    /// Removes every entity whose hit points reached zero from its owning
    /// collection, for all four removable collections; survivors keep
    /// their order.  Runs exactly once per tick, after collision
    /// resolution and boundary checks.
    pub fn remove_objects(&mut self)
        ensures
            final(self).shots_player@ == live_only(old(self).shots_player@),
            final(self).shots_enemy@ == live_only(old(self).shots_enemy@),
            final(self).enemies@ == live_only(old(self).enemies@),
            final(self).barriers@ == live_only(old(self).barriers@),
            (*final(self) == MainState {
                shots_player: final(self).shots_player,
                shots_enemy: final(self).shots_enemy,
                enemies: final(self).enemies,
                barriers: final(self).barriers,
                ..*old(self)
            }),
    {
        retain_live(&mut self.shots_player);
        retain_live(&mut self.shots_enemy);
        retain_live(&mut self.enemies);
        retain_live(&mut self.barriers);
    }

    /// Wave progression: if the enemy collection is empty, advances the
    /// wave index, respawns the enemy formation at the clamped difficulty,
    /// and replaces the barrier row with a fresh one at full health (so the
    /// barrier collection is exactly 4 entities again, all at full hit
    /// points); the interface is flagged for refresh.  With enemies left,
    /// nothing changes.
    pub fn check_for_level_respawn(&mut self)
        requires
            old(self).wf_config(),
            0 <= old(self).level,
        ensures
            old(self).enemies@.len() > 0 ==> *final(self) == *old(self),
            old(self).enemies@.len() == 0 ==> {
                let diff = if final(self).level > MAX_DIFF_LEVEL {
                    MAX_DIFF_LEVEL as int
                } else {
                    final(self).level as int
                };
                &&& final(self).level == if old(self).level < i64::MAX {
                    old(self).level + 1
                } else {
                    old(self).level as int
                }
                &&& is_enemy_formation(final(self).enemies@, old(self).screen_width as int, diff)
                &&& is_barrier_formation(final(self).barriers@, old(self).screen_width as int)
                &&& final(self).enemies@.len() == 55
                &&& final(self).barriers@.len() == 4
                &&& forall|i: int|
                    0 <= i < 4 ==> (#[trigger] final(self).barriers@[i]).hit_points == BARRIER_HP
                &&& final(self).gui_dirty
                &&& (*final(self) == MainState {
                    level: final(self).level,
                    enemies: final(self).enemies,
                    barriers: final(self).barriers,
                    gui_dirty: true,
                    ..*old(self)
                })
            },
    {
        if self.enemies.len() == 0 {
            if self.level < i64::MAX {
                self.level = self.level + 1;
            }
            let mut diff_level = self.level;
            self.gui_dirty = true;
            if diff_level > MAX_DIFF_LEVEL {
                diff_level = MAX_DIFF_LEVEL;
            }
            let new_enemies = create_enemies(self.screen_width, diff_level);
            let new_barriers = create_barriers(self.screen_width);
            self.enemies = new_enemies;
            self.barriers = new_barriers;
        }
    }
}

} // verus!
