//! Leaderboard rebuilds.
//!
//! Both boards are full rebuilds over a projection store, never incremental:
//! players rank by total points earned, guilds by the summed points of their
//! members, and the cross-shard board ranks the global player projections by
//! total profit and then level. Each rebuild's contract is exact: the new
//! rows equal the `spec_rank` of the rows scanned from the store.

use vstd::prelude::*;
use crate::rank::{spec_top, top_rows, Ranked};
use crate::state::PredictionMarketState;
use crate::table::spec_find;
use crate::types::{
    spec_sat_add, Amount, GlobalPlayerInfo, Guild, GuildLeaderboardEntry, LeaderboardEntry,
    Player, Timestamp,
};

verus! {

/// How many rows the player board keeps.
pub const TOP_TRADERS: usize = 50;

/// How many rows the guild board keeps.
pub const TOP_GUILDS: usize = 20;

/// One board row per player, scored by total points earned; ties keep the
/// store's insertion order.
pub open spec fn spec_trader_rows(players: Seq<(u64, Player)>) -> Seq<Ranked<LeaderboardEntry>> {
    players.map_values(
        |pr: (u64, Player)|
            Ranked {
                score: pr.1.total_earned,
                tiebreak: 0u64,
                row: LeaderboardEntry {
                    player_id: pr.0,
                    display_name: pr.1.display_name,
                    total_profit: pr.1.total_earned,
                    level: pr.1.level,
                },
            },
    )
}

/// The player board: the fifty highest-earning players.
pub open spec fn spec_local_board(players: Seq<(u64, Player)>) -> Seq<LeaderboardEntry> {
    spec_top(spec_trader_rows(players), TOP_TRADERS as int)
}

/// Points earned by the player `pid`, zero when unknown.
pub open spec fn spec_points_of(players: Seq<(u64, Player)>, pid: u64) -> Amount {
    match spec_find(players, pid) {
        Some(p) => p.total_earned,
        None => 0,
    }
}

/// Summed points earned by the listed members, saturating.
pub open spec fn spec_guild_points(players: Seq<(u64, Player)>, members: Seq<u64>) -> Amount
    decreases members.len(),
{
    if members.len() == 0 {
        0
    } else {
        spec_sat_add(
            spec_guild_points(players, members.drop_last()),
            spec_points_of(players, members.last()),
        )
    }
}

/// Member count as stored on a board row.
pub open spec fn spec_member_count(members: Seq<u64>) -> u32 {
    if members.len() > u32::MAX {
        u32::MAX
    } else {
        members.len() as u32
    }
}

/// One board row per guild, scored by the summed points of its members.
pub open spec fn spec_guild_rows(
    players: Seq<(u64, Player)>,
    guilds: Seq<(u64, Guild)>,
) -> Seq<Ranked<GuildLeaderboardEntry>> {
    guilds.map_values(
        |gr: (u64, Guild)|
            Ranked {
                score: spec_guild_points(players, gr.1.members@),
                tiebreak: 0u64,
                row: GuildLeaderboardEntry {
                    guild_id: gr.0,
                    name: gr.1.name,
                    total_profit: spec_guild_points(players, gr.1.members@),
                    member_count: spec_member_count(gr.1.members@),
                },
            },
    )
}

/// The guild board: the twenty guilds whose members earned the most.
pub open spec fn spec_guild_board(
    players: Seq<(u64, Player)>,
    guilds: Seq<(u64, Guild)>,
) -> Seq<GuildLeaderboardEntry> {
    spec_top(spec_guild_rows(players, guilds), TOP_GUILDS as int)
}

/// One board row per global player projection, scored by total profit and
/// then level.
pub open spec fn spec_global_rows(
    gps: Seq<(u64, GlobalPlayerInfo)>,
) -> Seq<Ranked<LeaderboardEntry>> {
    gps.map_values(
        |pr: (u64, GlobalPlayerInfo)|
            Ranked {
                score: pr.1.total_profit,
                tiebreak: pr.1.level as u64,
                row: LeaderboardEntry {
                    player_id: pr.0,
                    display_name: pr.1.display_name,
                    total_profit: pr.1.total_profit,
                    level: pr.1.level,
                },
            },
    )
}

/// The cross-shard player board: the fifty most profitable projections.
pub open spec fn spec_global_board(gps: Seq<(u64, GlobalPlayerInfo)>) -> Seq<LeaderboardEntry> {
    spec_top(spec_global_rows(gps), TOP_TRADERS as int)
}

/// Summed points earned by `members`, read from the player store.
#[verifier::loop_isolation(false)]
pub fn guild_points(players: &crate::table::Table<Player>, members: &Vec<u64>) -> (total: Amount)
    ensures
        total == spec_guild_points(players@, members@),
{
    let n: usize = members.len();
    let mut total: Amount = 0;
    let mut j: usize = 0;
    proof {
        assert(members@.take(0) =~= Seq::<u64>::empty());
    }
    while j < n
        invariant
            j <= n,
            total == spec_guild_points(players@, members@.take(j as int)),
        decreases n - j,
    {
        let pts: Amount = match players.get(members[j]) {
            Some(p) => p.total_earned,
            None => 0,
        };
        total = crate::types::sat_add(total, pts);
        j = j + 1;
        proof {
            assert(members@.take(j as int).drop_last() =~= members@.take(j as int - 1));
            assert(members@.take(j as int).last() == members@[j as int - 1]);
        }
    }
    proof {
        assert(members@.take(n as int) =~= members@);
    }
    total
}

impl PredictionMarketState {
    /// Rebuild the shard-local leaderboard in full from the player and guild
    /// stores; nothing else changes.
    #[verifier::loop_isolation(false)]
    pub fn update_enhanced_leaderboard(&mut self, now: Timestamp)
        requires
            old(self).wf(),
        ensures
            final(self).wf(),
            final(self).leaderboard.top_traders@ =~= spec_local_board(old(self).players@),
            final(self).leaderboard.top_guilds@ =~= spec_guild_board(
                old(self).players@,
                old(self).guilds@,
            ),
            final(self).leaderboard.last_updated == now,
            *final(self) == (PredictionMarketState {
                leaderboard: final(self).leaderboard,
                ..*old(self)
            }),
    {
        let n: usize = self.players.len();
        let mut rows: Vec<Ranked<LeaderboardEntry>> = Vec::new();
        let mut i: usize = 0;
        proof {
            assert(self.players@.take(0) =~= Seq::<(u64, Player)>::empty());
            assert(spec_trader_rows(self.players@.take(0)) =~= Seq::<
                Ranked<LeaderboardEntry>,
            >::empty());
        }
        while i < n
            invariant
                i <= n,
                rows@ =~= spec_trader_rows(self.players@.take(i as int)),
            decreases n - i,
        {
            let e = self.players.at(i);
            let row = Ranked {
                score: e.1.total_earned,
                tiebreak: 0u64,
                row: LeaderboardEntry {
                    player_id: e.0,
                    display_name: e.1.display_name.clone(),
                    total_profit: e.1.total_earned,
                    level: e.1.level,
                },
            };
            rows.push(row);
            i = i + 1;
            proof {
                assert(self.players@.take(i as int).drop_last() =~= self.players@.take(
                    i as int - 1,
                ));
                assert(spec_trader_rows(self.players@.take(i as int)) =~= spec_trader_rows(
                    self.players@.take(i as int - 1),
                ).push(spec_trader_rows(self.players@)[i as int - 1]));
            }
        }
        proof {
            assert(self.players@.take(n as int) =~= self.players@);
        }
        let top_traders = top_rows(rows, TOP_TRADERS);

        let gn: usize = self.guilds.len();
        let mut guild_rows_v: Vec<Ranked<GuildLeaderboardEntry>> = Vec::new();
        let mut g: usize = 0;
        proof {
            assert(self.guilds@.take(0) =~= Seq::<(u64, Guild)>::empty());
            assert(spec_guild_rows(self.players@, self.guilds@.take(0)) =~= Seq::<
                Ranked<GuildLeaderboardEntry>,
            >::empty());
        }
        while g < gn
            invariant
                g <= gn,
                guild_rows_v@ =~= spec_guild_rows(self.players@, self.guilds@.take(g as int)),
            decreases gn - g,
        {
            let e = self.guilds.at(g);
            let pts = guild_points(&self.players, &e.1.members);
            let count: u32 = if e.1.members.len() > (u32::MAX as usize) {
                u32::MAX
            } else {
                e.1.members.len() as u32
            };
            let row = Ranked {
                score: pts,
                tiebreak: 0u64,
                row: GuildLeaderboardEntry {
                    guild_id: e.0,
                    name: e.1.name.clone(),
                    total_profit: pts,
                    member_count: count,
                },
            };
            guild_rows_v.push(row);
            g = g + 1;
            proof {
                assert(self.guilds@.take(g as int).drop_last() =~= self.guilds@.take(g as int - 1));
                assert(spec_guild_rows(self.players@, self.guilds@.take(g as int))
                    =~= spec_guild_rows(self.players@, self.guilds@.take(g as int - 1)).push(
                    spec_guild_rows(self.players@, self.guilds@)[g as int - 1],
                ));
            }
        }
        proof {
            assert(self.guilds@.take(gn as int) =~= self.guilds@);
        }
        let top_guilds = top_rows(guild_rows_v, TOP_GUILDS);

        self.leaderboard.top_traders = top_traders;
        self.leaderboard.top_guilds = top_guilds;
        self.leaderboard.last_updated = now;
    }

    /// Rebuild the cross-shard leaderboard in full from the global player
    /// projections; the guild rows of that board are kept as they are.
    #[verifier::loop_isolation(false)]
    pub fn update_global_leaderboard(&mut self, now: Timestamp)
        requires
            old(self).wf(),
        ensures
            final(self).wf(),
            final(self).global_leaderboard.top_traders@ =~= spec_global_board(
                old(self).global_players@,
            ),
            final(self).global_leaderboard.top_guilds@ =~= old(
                self,
            ).global_leaderboard.top_guilds@,
            final(self).global_leaderboard.last_updated == now,
            *final(self) == (PredictionMarketState {
                global_leaderboard: final(self).global_leaderboard,
                ..*old(self)
            }),
    {
        let n: usize = self.global_players.len();
        let mut rows: Vec<Ranked<LeaderboardEntry>> = Vec::new();
        let mut i: usize = 0;
        proof {
            assert(self.global_players@.take(0) =~= Seq::<(u64, GlobalPlayerInfo)>::empty());
            assert(spec_global_rows(self.global_players@.take(0)) =~= Seq::<
                Ranked<LeaderboardEntry>,
            >::empty());
        }
        while i < n
            invariant
                i <= n,
                rows@ =~= spec_global_rows(self.global_players@.take(i as int)),
            decreases n - i,
        {
            let e = self.global_players.at(i);
            let row = Ranked {
                score: e.1.total_profit,
                tiebreak: e.1.level as u64,
                row: LeaderboardEntry {
                    player_id: e.0,
                    display_name: e.1.display_name.clone(),
                    total_profit: e.1.total_profit,
                    level: e.1.level,
                },
            };
            rows.push(row);
            i = i + 1;
            proof {
                assert(self.global_players@.take(i as int).drop_last() =~= self.global_players@
                    .take(i as int - 1));
                assert(spec_global_rows(self.global_players@.take(i as int)) =~= spec_global_rows(
                    self.global_players@.take(i as int - 1),
                ).push(spec_global_rows(self.global_players@)[i as int - 1]));
            }
        }
        proof {
            assert(self.global_players@.take(n as int) =~= self.global_players@);
        }
        let top_traders = top_rows(rows, TOP_TRADERS);
        self.global_leaderboard.top_traders = top_traders;
        self.global_leaderboard.last_updated = now;
    }
}

} // verus!
