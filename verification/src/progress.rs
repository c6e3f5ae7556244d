//! Player progression: experience, levels, achievements.
//!
//! The level curve is a total-experience threshold: passing level `n` takes
//! `1000 * 4^(n-1)` lifetime experience points (saturating far beyond any
//! reachable value). Experience is only ever added; levels only ever rise.
//! Achievements are one-shot bonuses checked when a player levels up or
//! takes a qualifying action.

use vstd::prelude::*;
use crate::table::{spec_find, Table};
use crate::types::{
    sat_add, sat_add64, spec_sat_add, spec_sat_add64, Achievement, AchievementId,
    AchievementRequirement, Amount, Market, Player,
};

verus! {

pub open spec fn spec_sat_mul64(a: u64, b: u64) -> u64 {
    if a * b > u64::MAX {
        u64::MAX
    } else {
        (a * b) as u64
    }
}

/// Total experience needed to pass `level`: `1000 * 4^(level-1)`,
/// saturating.
pub open spec fn spec_threshold(level: u32) -> u64
    decreases level,
{
    if level <= 1 {
        1000
    } else {
        spec_sat_mul64(spec_threshold((level - 1) as u32), 4)
    }
}

pub proof fn lemma_threshold_at_least(level: u32)
    ensures
        spec_threshold(level) >= 1000,
    decreases level,
{
    if level > 1 {
        lemma_threshold_at_least((level - 1) as u32);
    }
}

/// Thresholds never shrink as levels rise.
pub proof fn lemma_threshold_monotonic(a: u32, b: u32)
    requires
        a <= b,
    ensures
        spec_threshold(a) <= spec_threshold(b),
    decreases b,
{
    if a < b {
        lemma_threshold_monotonic(a, (b - 1) as u32);
        lemma_threshold_at_least((b - 1) as u32);
    }
}

/// Total experience needed to pass `level`.
#[verifier::loop_isolation(false)]
pub fn xp_threshold(level: u32) -> (t: u64)
    ensures
        t == spec_threshold(level),
{
    let mut t: u64 = 1000;
    let mut l: u32 = 1;
    while l < level
        invariant
            1 <= l,
            level > 1 ==> l <= level,
            level <= 1 ==> l == 1,
            t == spec_threshold(l),
        decreases level - l,
    {
        t = if t > u64::MAX / 4 {
            u64::MAX
        } else {
            t * 4
        };
        l = l + 1;
    }
    t
}

impl Player {
    /// Grant `xp` experience and raise the level while the total passes
    /// each successive threshold. Returns whether any level was gained.
    /// Nothing but `experience_points` and `level` changes.
    #[verifier::loop_isolation(false)]
    pub fn add_experience(&mut self, xp: u64) -> (leveled_up: bool)
        ensures
            final(self).experience_points == spec_sat_add64(old(self).experience_points, xp),
            final(self).level >= old(self).level,
            leveled_up == (final(self).level > old(self).level),
            *final(self) == (Player {
                experience_points: final(self).experience_points,
                level: final(self).level,
                ..*old(self)
            }),
            spec_sat_add64(old(self).experience_points, xp) < spec_threshold(old(self).level)
                ==> final(self).level == old(self).level,
            final(self).level < u32::MAX ==> final(self).experience_points < spec_threshold(
                final(self).level,
            ),
            final(self).level > old(self).level ==> final(self).experience_points
                >= spec_threshold((final(self).level - 1) as u32),
    {
        let start_level = self.level;
        self.experience_points = sat_add64(self.experience_points, xp);
        loop
            invariant
                self.level >= old(self).level,
                self.experience_points == spec_sat_add64(old(self).experience_points, xp),
                *self == (Player {
                    experience_points: self.experience_points,
                    level: self.level,
                    ..*old(self)
                }),
                self.level > old(self).level ==> self.experience_points >= spec_threshold(
                    (self.level - 1) as u32,
                ),
            decreases u32::MAX - self.level,
        {
            let needed = xp_threshold(self.level);
            if self.experience_points >= needed && self.level < u32::MAX {
                self.level = self.level + 1;
            } else {
                break ;
            }
        }
        proof {
            if self.level > old(self).level {
                lemma_threshold_monotonic(old(self).level, (self.level - 1) as u32);
            }
        }
        self.level > start_level
    }
}

/// How many of the listed markets exist and were created by `pid`.
pub open spec fn spec_created_count(
    markets: Seq<(u64, Market)>,
    active: Seq<u64>,
    pid: u64,
) -> int
    decreases active.len(),
{
    if active.len() == 0 {
        0int
    } else {
        spec_created_count(markets, active.drop_last(), pid) + (match spec_find(
            markets,
            active.last(),
        ) {
            Some(m) => if m.creator == pid {
                1int
            } else {
                0int
            },
            None => 0int,
        })
    }
}

#[verifier::loop_isolation(false)]
fn created_count(markets: &Table<Market>, active: &Vec<u64>, pid: u64) -> (count: u64)
    ensures
        count == spec_created_count(markets@, active@, pid),
{
    let n: usize = active.len();
    let mut count: u64 = 0;
    let mut j: usize = 0;
    proof {
        assert(active@.take(0) =~= Seq::<u64>::empty());
        assert(active@.len() <= usize::MAX);
    }
    while j < n
        invariant
            j <= n,
            count == spec_created_count(markets@, active@.take(j as int), pid),
            count <= j,
        decreases n - j,
    {
        let hit: u64 = match markets.get(active[j]) {
            Some(m) => if m.creator == pid {
                1
            } else {
                0
            },
            None => 0,
        };
        count = count + hit;
        j = j + 1;
        proof {
            assert(active@.take(j as int).drop_last() =~= active@.take(j as int - 1));
            assert(active@.take(j as int).last() == active@[j as int - 1]);
        }
    }
    proof {
        assert(active@.take(n as int) =~= active@);
    }
    count
}

/// Does `player` meet `requirement`?
pub open spec fn spec_meets_requirement(
    player: Player,
    requirement: AchievementRequirement,
    markets: Seq<(u64, Market)>,
) -> bool {
    match requirement {
        AchievementRequirement::CreateMarket => spec_created_count(
            markets,
            player.active_markets@,
            player.id,
        ) >= 1,
        AchievementRequirement::FirstBuy => player.markets_participated > 0,
        AchievementRequirement::FirstSell => player.total_spent > 0,
        AchievementRequirement::JoinGuild => player.guild_id is Some,
        AchievementRequirement::ReachLevel(level) => player.level >= level,
        AchievementRequirement::WinMarkets(count) => player.markets_won >= count,
        AchievementRequirement::WinStreak(streak) => player.win_streak >= streak,
        AchievementRequirement::TotalProfit(profit) => player.total_profit >= profit,
        AchievementRequirement::ParticipateInMarkets(count) => player.markets_participated
            >= count,
        AchievementRequirement::CreateMarkets(count) => spec_created_count(
            markets,
            player.active_markets@,
            player.id,
        ) >= count,
    }
}

pub fn check_achievement_requirement(
    player: &Player,
    requirement: &AchievementRequirement,
    markets: &Table<Market>,
) -> (met: bool)
    ensures
        met == spec_meets_requirement(*player, *requirement, markets@),
{
    match requirement {
        AchievementRequirement::CreateMarket => created_count(
            markets,
            &player.active_markets,
            player.id,
        ) >= 1,
        AchievementRequirement::FirstBuy => player.markets_participated > 0,
        AchievementRequirement::FirstSell => player.total_spent > 0,
        AchievementRequirement::JoinGuild => player.guild_id.is_some(),
        AchievementRequirement::ReachLevel(level) => player.level >= *level,
        AchievementRequirement::WinMarkets(count) => player.markets_won >= *count,
        AchievementRequirement::WinStreak(streak) => player.win_streak >= *streak,
        AchievementRequirement::TotalProfit(profit) => player.total_profit >= *profit,
        AchievementRequirement::ParticipateInMarkets(count) => player.markets_participated
            >= *count,
        AchievementRequirement::CreateMarkets(count) => {
            let c = created_count(markets, &player.active_markets, player.id);
            proof {
                lemma_created_count_bound(markets@, player.active_markets@, player.id);
            }
            c >= *count
        },
    }
}

proof fn lemma_created_count_bound(markets: Seq<(u64, Market)>, active: Seq<u64>, pid: u64)
    ensures
        0 <= spec_created_count(markets, active, pid) <= active.len(),
    decreases active.len(),
{
    if active.len() > 0 {
        lemma_created_count_bound(markets, active.drop_last(), pid);
    }
}

fn contains_id(v: &Vec<AchievementId>, id: AchievementId) -> (b: bool)
    ensures
        b == v@.contains(id),
{
    let n: usize = v.len();
    let mut j: usize = 0;
    while j < n
        invariant
            j <= n,
            n == v@.len(),
            forall|i: int| 0 <= i < j ==> v@[i] != id,
        decreases n - j,
    {
        if v[j] == id {
            return true;
        }
        j = j + 1;
    }
    false
}

/// Would the grant pass award achievement `id` to a player who entered the
/// pass as `p0`? The id must be seeded, not yet earned, and its requirement
/// met — and since no requirement reads a field the pass itself changes,
/// the entering player decides every grant.
pub open spec fn spec_grants(
    p0: Player,
    achievements: Seq<(u64, Achievement)>,
    markets: Seq<(u64, Market)>,
    id: int,
) -> bool {
    match spec_find(achievements, id as u64) {
        Some(a) => !p0.achievements_earned@.contains(id as u32) && spec_meets_requirement(
            p0,
            a.requirement,
            markets,
        ),
        None => false,
    }
}

/// The ids the pass has granted after walking every id below `id`.
pub open spec fn spec_granted_upto(
    p0: Player,
    achievements: Seq<(u64, Achievement)>,
    markets: Seq<(u64, Market)>,
    id: int,
) -> Seq<u32>
    decreases id,
{
    if id <= 1 {
        Seq::empty()
    } else {
        spec_granted_upto(p0, achievements, markets, id - 1) + (if spec_grants(
            p0,
            achievements,
            markets,
            id - 1,
        ) {
            seq![(id - 1) as u32]
        } else {
            Seq::empty()
        })
    }
}

/// The token bonus the pass has added after walking every id below `id`,
/// starting from `start` and saturating.
pub open spec fn spec_granted_tokens_upto(
    p0: Player,
    achievements: Seq<(u64, Achievement)>,
    markets: Seq<(u64, Market)>,
    start: Amount,
    id: int,
) -> Amount
    decreases id,
{
    if id <= 1 {
        start
    } else {
        let before = spec_granted_tokens_upto(p0, achievements, markets, start, id - 1);
        if spec_grants(p0, achievements, markets, id - 1) {
            crate::types::spec_sat_add(
                before,
                spec_find(achievements, (id - 1) as u64).unwrap().reward_tokens,
            )
        } else {
            before
        }
    }
}

/// The experience bonus the pass has added after walking every id below
/// `id`, starting from `start` and saturating.
pub open spec fn spec_granted_xp_upto(
    p0: Player,
    achievements: Seq<(u64, Achievement)>,
    markets: Seq<(u64, Market)>,
    start: u64,
    id: int,
) -> u64
    decreases id,
{
    if id <= 1 {
        start
    } else {
        let before = spec_granted_xp_upto(p0, achievements, markets, start, id - 1);
        if spec_grants(p0, achievements, markets, id - 1) {
            spec_sat_add64(before, spec_find(achievements, (id - 1) as u64).unwrap().reward_xp)
        } else {
            before
        }
    }
}

proof fn lemma_granted_upto_bounds(
    p0: Player,
    achievements: Seq<(u64, Achievement)>,
    markets: Seq<(u64, Market)>,
    id: int,
)
    requires
        1 <= id <= 8,
    ensures
        forall|x: u32|
            #![trigger spec_granted_upto(p0, achievements, markets, id).contains(x)]
            spec_granted_upto(p0, achievements, markets, id).contains(x) ==> 1 <= x && (
            x as int) < id && !p0.achievements_earned@.contains(x),
    decreases id,
{
    if id > 1 {
        lemma_granted_upto_bounds(p0, achievements, markets, id - 1);
        let g = spec_granted_upto(p0, achievements, markets, id);
        let gp = spec_granted_upto(p0, achievements, markets, id - 1);
        assert forall|x: u32| g.contains(x) implies 1 <= x && (x as int) < id
            && !p0.achievements_earned@.contains(x) by {
            let w = choose|w: int| 0 <= w < g.len() && g[w] == x;
            if spec_grants(p0, achievements, markets, id - 1) {
                if w < gp.len() {
                    assert(g[w] == gp[w]);
                    assert(gp.contains(x));
                } else {
                    assert(x == (id - 1) as u32);
                }
            } else {
                assert(g =~= gp);
                assert(gp[w] == x);
                assert(gp.contains(x));
            }
        }
    }
}

/// Walk the standard achievement set and grant every one the player newly
/// qualifies for: the id is recorded, the token bonus is credited to
/// balance and lifetime earnings, and the experience bonus is added. The
/// pass is a function of the entering player: exactly the grantable ids
/// are granted, in ascending order, each at most once and never one
/// already earned, and nothing else about the player changes.
#[verifier::loop_isolation(false)]
pub fn check_achievements(
    player: &mut Player,
    achievements: &Table<Achievement>,
    markets: &Table<Market>,
) -> (granted: Vec<AchievementId>)
    ensures
        granted@ =~= spec_granted_upto(*old(player), achievements@, markets@, 8),
        final(player).achievements_earned@ =~= old(player).achievements_earned@ + granted@,
        final(player).token_balance == spec_granted_tokens_upto(
            *old(player),
            achievements@,
            markets@,
            old(player).token_balance,
            8,
        ),
        final(player).total_earned == spec_granted_tokens_upto(
            *old(player),
            achievements@,
            markets@,
            old(player).total_earned,
            8,
        ),
        final(player).experience_points == spec_granted_xp_upto(
            *old(player),
            achievements@,
            markets@,
            old(player).experience_points,
            8,
        ),
        final(player).token_balance >= old(player).token_balance,
        final(player).total_earned >= old(player).total_earned,
        final(player).experience_points >= old(player).experience_points,
        *final(player) == (Player {
            token_balance: final(player).token_balance,
            total_earned: final(player).total_earned,
            experience_points: final(player).experience_points,
            achievements_earned: final(player).achievements_earned,
            ..*old(player)
        }),
        granted@.len() == 0 ==> *final(player) == *old(player),
        forall|x: u32|
            granted@.contains(x) ==> 1 <= x <= 7 && !old(player).achievements_earned@.contains(
                x,
            ),
{
    let mut granted: Vec<AchievementId> = Vec::new();
    let mut id: u32 = 1;
    while id <= 7
        invariant
            1 <= id <= 8,
            granted@ =~= spec_granted_upto(*old(player), achievements@, markets@, id as int),
            player.achievements_earned@ =~= old(player).achievements_earned@ + granted@,
            player.token_balance == spec_granted_tokens_upto(
                *old(player),
                achievements@,
                markets@,
                old(player).token_balance,
                id as int,
            ),
            player.total_earned == spec_granted_tokens_upto(
                *old(player),
                achievements@,
                markets@,
                old(player).total_earned,
                id as int,
            ),
            player.experience_points == spec_granted_xp_upto(
                *old(player),
                achievements@,
                markets@,
                old(player).experience_points,
                id as int,
            ),
            player.token_balance >= old(player).token_balance,
            player.total_earned >= old(player).total_earned,
            player.experience_points >= old(player).experience_points,
            *player == (Player {
                token_balance: player.token_balance,
                total_earned: player.total_earned,
                experience_points: player.experience_points,
                achievements_earned: player.achievements_earned,
                ..*old(player)
            }),
            granted@.len() == 0 ==> *player == *old(player),
        decreases 8 - id,
    {
        proof {
            lemma_granted_upto_bounds(*old(player), achievements@, markets@, id as int);
        }
        match achievements.get(id as u64) {
            Some(a) => {
                let already = contains_id(&player.achievements_earned, id);
                proof {
                    assert(already == old(player).achievements_earned@.contains(id)) by {
                        if old(player).achievements_earned@.contains(id) {
                            let w = choose|w: int|
                                0 <= w < old(player).achievements_earned@.len() && old(
                                    player,
                                ).achievements_earned@[w] == id;
                            assert(player.achievements_earned@[w] == id);
                        }
                        if already {
                            let w = choose|w: int|
                                0 <= w < player.achievements_earned@.len()
                                    && player.achievements_earned@[w] == id;
                            if w < old(player).achievements_earned@.len() {
                                assert(old(player).achievements_earned@[w] == id);
                            } else {
                                let x = granted@[w - old(
                                    player,
                                ).achievements_earned@.len() as int];
                                assert(granted@.contains(x));
                            }
                        }
                    }
                }
                if !already {
                    let met = check_achievement_requirement(player, &a.requirement, markets);
                    proof {
                        assert(met == spec_meets_requirement(
                            *old(player),
                            a.requirement,
                            markets@,
                        ));
                    }
                    if met {
                        player.achievements_earned.push(id);
                        player.token_balance = sat_add(player.token_balance, a.reward_tokens);
                        player.total_earned = sat_add(player.total_earned, a.reward_tokens);
                        player.experience_points = sat_add64(
                            player.experience_points,
                            a.reward_xp,
                        );
                        granted.push(id);
                    }
                }
            },
            None => {},
        }
        id = id + 1;
    }
    proof {
        lemma_granted_upto_bounds(*old(player), achievements@, markets@, 8);
    }
    granted
}

} // verus!
