//! The game's side of the service: the state a game keeps for one
//! leaderboard, the requests it sends and the signatures it writes.
//!
//! Sending is the caller's work. Every function here either makes what is to
//! be sent or takes in what came back.

use vstd::prelude::*;
use vstd::string::*;
use crate::domains::player::Player;
use crate::domains::player::PlayerInput;
use crate::domains::score::ScoreInput;
use crate::encoding::text_of;
use crate::ids::id_text;
use crate::ids::id_to_text;
use crate::ids::parse_id;
use crate::ids::parsed_id;

verus! {

/// What a finished call to the service is reported as.
#[derive(Clone, Copy, Debug, PartialEq, Eq, Structural)]
pub enum JornetEvent {
    /// A call to `send_score` succeeded.
    SendScoreSuccess,
    /// A call to `send_score` failed.
    SendScoreFailure,
    /// A call to `create_player` succeeded.
    CreatePlayerSuccess,
    /// A call to `create_player` failed.
    CreatePlayerFailure,
    /// A call to `refresh_leaderboard` succeeded.
    RefreshLeaderboardSuccess,
    /// A call to `refresh_leaderboard` failed.
    RefreshLeaderboardFailure,
}

/// The calls a game makes.
#[derive(Clone, Copy, Debug, PartialEq, Eq, Structural)]
pub enum Call {
    SendScore,
    CreatePlayer,
    RefreshLeaderboard,
}

/// The event that reports how `call` ended.
pub open spec fn event_for(call: Call, succeeded: bool) -> JornetEvent {
    match call {
        Call::SendScore => if succeeded {
            JornetEvent::SendScoreSuccess
        } else {
            JornetEvent::SendScoreFailure
        },
        Call::CreatePlayer => if succeeded {
            JornetEvent::CreatePlayerSuccess
        } else {
            JornetEvent::CreatePlayerFailure
        },
        Call::RefreshLeaderboard => if succeeded {
            JornetEvent::RefreshLeaderboardSuccess
        } else {
            JornetEvent::RefreshLeaderboardFailure
        },
    }
}

/// The event that reports how `call` ended.
pub fn report(call: Call, succeeded: bool) -> (event: JornetEvent)
    ensures
        event == event_for(call, succeeded),
{
    match call {
        Call::SendScore => if succeeded {
            JornetEvent::SendScoreSuccess
        } else {
            JornetEvent::SendScoreFailure
        },
        Call::CreatePlayer => if succeeded {
            JornetEvent::CreatePlayerSuccess
        } else {
            JornetEvent::CreatePlayerFailure
        },
        Call::RefreshLeaderboard => if succeeded {
            JornetEvent::RefreshLeaderboardSuccess
        } else {
            JornetEvent::RefreshLeaderboardFailure
        },
    }
}

/// A score from a leaderboard, as the server shows it.
pub struct Score {
    /// The bits of the score, a 32-bit floating-point value.
    pub score: u32,
    /// The player name.
    pub player: String,
    /// Optional metadata.
    pub meta: Option<String>,
    /// Timestamp of the score.
    pub timestamp: String,
}

/// The state a game keeps for one leaderboard.
pub struct Leaderboard {
    id: u128,
    key: u128,
    leaderboard: Vec<Score>,
    host: String,
    player: Option<Player>,
}

/// The host that serves leaderboards unless another is named.
pub open spec fn default_host() -> Seq<char> {
    "https://jornet.vleue.com"@
}

impl Leaderboard {
    pub closed spec fn id(self) -> u128 {
        self.id
    }

    pub closed spec fn key(self) -> u128 {
        self.key
    }

    pub closed spec fn host(self) -> Seq<char> {
        self.host@
    }

    pub closed spec fn player(self) -> Option<Player> {
        self.player
    }

    pub closed spec fn scores(self) -> Seq<Score> {
        self.leaderboard@
    }

    /// The state for the leaderboard `id` with the secret `key`, served by
    /// `host` or else by the default host. It starts without player and
    /// without scores.
    pub fn with_host_and_leaderboard(host: Option<String>, id: u128, key: u128) -> (state: Self)
        ensures
            state.id() == id,
            state.key() == key,
            state.host() == match host {
                Some(named) => named@,
                None => default_host(),
            },
            state.player() is None,
            state.scores().len() == 0,
    {
        let host = match host {
            Some(named) => named,
            None => String::from_str("https://jornet.vleue.com"),
        };
        Leaderboard { id, key, leaderboard: Vec::new(), host, player: None }
    }

    /// The current player, if there is one: the one that was connected with
    /// `as_player`, or the one that the server created.
    pub fn get_player(&self) -> (player: Option<&Player>)
        ensures
            match player {
                Some(current) => self.player() == Some(*current),
                None => self.player() is None,
            },
    {
        self.player.as_ref()
    }

    /// What to send to create a player with the given name, or with a name
    /// of the server's choosing.
    pub fn create_player(&self, name: Option<&str>) -> (input: PlayerInput)
        ensures
            match name {
                Some(wanted) => text_of(input.name) == Some(wanted@),
                None => input.name is None,
            },
    {
        match name {
            Some(wanted) => PlayerInput { name: Some(String::from_str(wanted)) },
            None => PlayerInput { name: None },
        }
    }

    /// Connects as a returning player.
    pub fn as_player(&mut self, player: Player)
        ensures
            final(self).player() == Some(player),
            final(self).id() == old(self).id(),
            final(self).key() == old(self).key(),
            final(self).host() == old(self).host(),
            final(self).scores() == old(self).scores(),
    {
        self.player = Some(player);
    }

    /// Signs `score` for the current player at the time `now`, in seconds
    /// since the Unix epoch. Nothing is signed while there is no player.
    pub fn send_score(&self, score: u32, now: u64) -> (payload: Option<ScoreInput>)
        ensures
            self.player() is None ==> payload is None,
            self.player() matches Some(player) ==> payload matches Some(input) && input.score
                == score && input.player == player.id && input.meta is None && input.timestamp
                == now && input.signed_by(player.key, self.key()),
    {
        self.inner_send_score_with_meta(score, None, now)
    }

    /// Signs `score` with metadata: information about the game, victory
    /// conditions and the like.
    pub fn send_score_with_meta(&self, score: u32, meta: &str, now: u64) -> (payload: Option<
        ScoreInput,
    >)
        ensures
            self.player() is None ==> payload is None,
            self.player() matches Some(player) ==> payload matches Some(input) && input.score
                == score && input.player == player.id && text_of(input.meta) == Some(meta@)
                && input.timestamp == now && input.signed_by(player.key, self.key()),
    {
        self.inner_send_score_with_meta(score, Some(String::from_str(meta)), now)
    }

    fn inner_send_score_with_meta(&self, score: u32, meta: Option<String>, now: u64) -> (payload:
        Option<ScoreInput>)
        ensures
            self.player() is None ==> payload is None,
            self.player() matches Some(player) ==> payload matches Some(input) && input.score
                == score && input.player == player.id && input.meta == meta && input.timestamp
                == now && input.signed_by(player.key, self.key()),
    {
        match &self.player {
            Some(player) => Some(ScoreInput::new(score, player, meta, self.key, now)),
            None => None,
        }
    }

    /// The address that scores of this leaderboard are sent to and read
    /// from.
    pub fn scores_url(&self) -> (url: String)
        ensures
            url@ == self.host() + "/api/v1/scores/"@ + id_text(self.id()),
    {
        let mut url = self.host.clone();
        url.append("/api/v1/scores/");
        let id = id_to_text(self.id);
        url.append(id.as_str());
        url
    }

    /// The address that requests to create a player are sent to.
    pub fn players_url(&self) -> (url: String)
        ensures
            url@ == self.host() + "/api/v1/players"@,
    {
        let mut url = self.host.clone();
        url.append("/api/v1/players");
        url
    }

    /// The scores as they were when the leaderboard was last refreshed.
    pub fn get_leaderboard(&self) -> (scores: &Vec<Score>)
        ensures
            scores@ == self.scores(),
    {
        &self.leaderboard
    }

}

/// Takes in what the finished calls brought: `updated` replaces the scores
/// unless it is empty, and `new_player` becomes the current player if there
/// is one.
pub fn done_refreshing_leaderboard(
    leaderboard: &mut Leaderboard,
    updated: Vec<Score>,
    new_player: Option<Player>,
)
    ensures
        final(leaderboard).scores() == if updated@.len() > 0 {
            updated@
        } else {
            old(leaderboard).scores()
        },
        final(leaderboard).player() == if new_player is Some {
            new_player
        } else {
            old(leaderboard).player()
        },
        final(leaderboard).id() == old(leaderboard).id(),
        final(leaderboard).key() == old(leaderboard).key(),
        final(leaderboard).host() == old(leaderboard).host(),
{
    if updated.len() > 0 {
        leaderboard.leaderboard = updated;
    }
    if new_player.is_some() {
        leaderboard.player = new_player;
    }
}

/// The settings of a game's connection to one leaderboard.
pub struct JornetPlugin {
    leaderboard: u128,
    key: u128,
    host: Option<String>,
}

impl JornetPlugin {
    pub closed spec fn leaderboard(self) -> u128 {
        self.leaderboard
    }

    pub closed spec fn key(self) -> u128 {
        self.key
    }

    pub closed spec fn host(self) -> Option<Seq<char>> {
        text_of(self.host)
    }

    /// Sets the connection up with the identifier and the key of an existing
    /// leaderboard, both as text. Nothing is made where either is not an
    /// identifier.
    pub fn with_leaderboard(id: &str, key: &str) -> (plugin: Option<Self>)
        ensures
            match plugin {
                Some(made) => parsed_id(id@) == Some(made.leaderboard()) && parsed_id(key@)
                    == Some(made.key()) && made.host() is None,
                None => parsed_id(id@) is None || parsed_id(key@) is None,
            },
    {
        let leaderboard = match parse_id(id) {
            Some(leaderboard) => leaderboard,
            None => return None,
        };
        match parse_id(key) {
            Some(key) => Some(JornetPlugin { leaderboard, key, host: None }),
            None => None,
        }
    }

    /// Uses another host than the default one.
    pub fn with_host(self, host: &str) -> (plugin: Self)
        ensures
            plugin.leaderboard() == self.leaderboard(),
            plugin.key() == self.key(),
            plugin.host() == Some(host@),
    {
        JornetPlugin { leaderboard: self.leaderboard, key: self.key, host: Some(String::from_str(host)) }
    }

    /// The state that the game starts with.
    pub fn build(&self) -> (state: Leaderboard)
        ensures
            state.id() == self.leaderboard(),
            state.key() == self.key(),
            state.host() == match self.host() {
                Some(named) => named,
                None => default_host(),
            },
            state.player() is None,
            state.scores().len() == 0,
    {
        let host = match &self.host {
            Some(named) => Some(named.clone()),
            None => None,
        };
        Leaderboard::with_host_and_leaderboard(host, self.leaderboard, self.key)
    }
}

} // verus!
