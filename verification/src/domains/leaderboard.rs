//! Leaderboards: created by an administrator, who owns them from then on.

use vstd::prelude::*;
use crate::domains::admin::AdminAccount;

verus! {

/// What an administrator sends to create a leaderboard.
pub struct LeaderboardInput {
    pub name: String,
}

/// A leaderboard as it is returned, once, to the administrator who created
/// it. `id` is public; `key` is the secret that game clients sign with and is
/// never shown again.
pub struct Leaderboard {
    pub id: u128,
    pub key: u128,
    pub name: String,
}

/// A leaderboard with the account that owns it, as the store records it.
pub struct OwnedLeaderboard {
    pub leaderboard: Leaderboard,
    pub owner: u128,
}

/// Makes the leaderboard that `account` asked for. `id` and `key` are fresh
/// random identifiers supplied by the caller. The owner is the account that
/// created it.
pub fn new_leaderboard(account: &AdminAccount, input: LeaderboardInput, id: u128, key: u128) -> (created:
    OwnedLeaderboard)
    ensures
        created.owner == account.id,
        created.leaderboard.id == id,
        created.leaderboard.key == key,
        created.leaderboard.name == input.name,
{
    OwnedLeaderboard { leaderboard: Leaderboard { id, key, name: input.name }, owner: account.id }
}

} // verus!
