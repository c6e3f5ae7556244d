//! The read surface: pass-through queries over the shard's stores.
//!
//! These return the latest locally reconciled values and never mutate
//! anything; aggregate queries restate the same sums the leaderboard uses.

use vstd::prelude::*;
use crate::board::{guild_points, spec_guild_points};
use crate::state::PredictionMarketState;
use crate::table::spec_find;
use crate::types::{Amount, ContractError, Guild, GuildId, Player, PlayerId};

verus! {

impl PredictionMarketState {
    /// The shard's total point supply.
    pub fn get_total_supply(&self) -> (s: Amount)
        ensures
            s == self.total_supply,
    {
        self.total_supply
    }

    /// Lifetime points earned by one player.
    pub fn player_total_points(&self, player_id: PlayerId) -> (r: Result<Amount, ContractError>)
        ensures
            match r {
                Ok(a) => self.spec_player(player_id) is Some && a == self.spec_player(
                    player_id,
                ).unwrap().total_earned,
                Err(e) => self.spec_player(player_id) is None && e
                    == ContractError::PlayerNotFound,
            },
    {
        match self.players.get(player_id) {
            Some(p) => Ok(p.total_earned),
            None => Err(ContractError::PlayerNotFound),
        }
    }

    /// Summed lifetime points earned by a guild's members.
    pub fn guild_total_points(&self, guild_id: GuildId) -> (r: Result<Amount, ContractError>)
        ensures
            match r {
                Ok(a) => self.spec_guild(guild_id) is Some && a == spec_guild_points(
                    self.players@,
                    self.spec_guild(guild_id).unwrap().members@,
                ),
                Err(e) => self.spec_guild(guild_id) is None && e == ContractError::GuildNotFound,
            },
    {
        match self.guilds.get(guild_id) {
            Some(g) => Ok(guild_points(&self.players, &g.members)),
            None => Err(ContractError::GuildNotFound),
        }
    }

    /// Every guild on this shard, in creation order.
    #[verifier::loop_isolation(false)]
    pub fn all_guilds(&self) -> (out: Vec<&Guild>)
        ensures
            out@.len() == self.guilds@.len(),
            forall|i: int| 0 <= i < out@.len() ==> *out@[i] == (#[trigger] self.guilds@[i]).1,
    {
        let n: usize = self.guilds.len();
        let mut out: Vec<&Guild> = Vec::new();
        let mut i: usize = 0;
        while i < n
            invariant
                i <= n,
                out@.len() == i,
                forall|j: int| 0 <= j < i ==> *out@[j] == (#[trigger] self.guilds@[j]).1,
            decreases n - i,
        {
            let e = self.guilds.at(i);
            out.push(&e.1);
            i = i + 1;
        }
        out
    }

    /// The member accounts of one guild, skipping members with no account
    /// on this shard.
    #[verifier::loop_isolation(false)]
    pub fn guild_members(&self, guild_id: GuildId) -> (r: Result<Vec<&Player>, ContractError>)
        ensures
            match r {
                Ok(out) => {
                    &&& self.spec_guild(guild_id) is Some
                    &&& forall|i: int|
                        0 <= i < out@.len() ==> self.spec_player(
                            (#[trigger] out@[i]).id,
                        ) == Some(*out@[i])
                },
                Err(e) => self.spec_guild(guild_id) is None && e == ContractError::GuildNotFound,
            },
    {
        let g = match self.guilds.get(guild_id) {
            Some(g) => g,
            None => {
                return Err(ContractError::GuildNotFound);
            },
        };
        let n: usize = g.members.len();
        let mut out: Vec<&Player> = Vec::new();
        let mut i: usize = 0;
        while i < n
            invariant
                i <= n,
                n == g.members@.len(),
                forall|j: int|
                    0 <= j < out@.len() ==> self.spec_player((#[trigger] out@[j]).id) == Some(
                        *out@[j],
                    ),
            decreases n - i,
        {
            match self.players.get(g.members[i]) {
                Some(p) => {
                    if p.id == g.members[i] {
                        out.push(p);
                    }
                },
                None => {},
            }
            i = i + 1;
        }
        Ok(out)
    }
}

} // verus!
