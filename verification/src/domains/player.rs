//! Players: anonymous identities that game clients create for themselves.

use vstd::prelude::*;
use crate::random_name::generated_name;
use crate::random_name::random_name;

verus! {

/// A player as the server stores it and as it is returned, once, to the
/// client that created it. `key` is the player's long-term signing secret.
pub struct Player {
    pub id: u128,
    pub name: String,
    pub key: u128,
}

/// What a client sends to create a player.
pub struct PlayerInput {
    pub name: Option<String>,
}

impl Player {
    /// The name a new player gets: the one that was asked for, kept exactly,
    /// or else the one generated from `entropy`.
    pub open spec fn name_for(requested: Option<String>, entropy: u64) -> Seq<char> {
        match requested {
            Some(name) => name@,
            None => generated_name(entropy),
        }
    }

    /// Makes the player for a creation request. `id` and `key` are fresh
    /// random identifiers and `entropy` a random number, all supplied by the
    /// caller.
    pub fn create(input: PlayerInput, id: u128, key: u128, entropy: u64) -> (player: Player)
        ensures
            player.id == id,
            player.key == key,
            player.name@ == Self::name_for(input.name, entropy),
            input.name is None ==> player.name@.len() > 0,
    {
        let name = match input.name {
            Some(name) => name,
            None => random_name(entropy),
        };
        Player { id, name, key }
    }
}

} // verus!
