//! Accepting a score from an untrusted client.
//!
//! The server resolves the player, resolves the leaderboard's secret key,
//! checks the signature against these stored secrets, looks for an identical
//! score and only then inserts. Every lookup is the store's work; every
//! decision is made here, one step at a time: the caller performs the request
//! it is handed and comes back with the store's answer.

use vstd::prelude::*;
use crate::domains::score::ScoreInput;
use crate::domains::score::lemma_altered_submission_needs_collision;
use crate::encoding::text_of;
use crate::error::ServiceError;

verus! {

/// What identifies a stored score. The store holds no two scores with the
/// same key.
#[derive(Clone, Copy, Debug, PartialEq, Eq, Structural)]
pub struct ScoreKey {
    pub leaderboard: u128,
    pub player: u128,
    pub score: u32,
    pub timestamp: u64,
}

/// A score as it is written to the store: its key, and the metadata that
/// came with it.
pub struct ScoreRow {
    pub key: ScoreKey,
    pub meta: Option<String>,
}

/// How far the handling of one submission has come.
#[derive(Clone, Copy, Debug, PartialEq, Eq)]
pub enum Stage {
    ResolvingPlayer,
    ResolvingLeaderboard { player_key: u128 },
    CheckingDuplicate,
    Inserting,
    Finished,
}

/// What the server asks of the store.
#[derive(Clone, Copy, Debug, PartialEq, Eq)]
pub enum Request {
    FindPlayerKey { player: u128 },
    FindLeaderboardKey { leaderboard: u128 },
    FindScore { score: ScoreKey },
    InsertScore { score: ScoreKey },
}

/// What the store answers.
#[derive(Clone, Copy, Debug, PartialEq, Eq)]
pub enum Answer {
    /// The stored key of the player, if there is such a player.
    PlayerKey(Option<u128>),
    /// The stored key of the leaderboard, if there is such a leaderboard.
    LeaderboardKey(Option<u128>),
    /// Whether a score with the given key is stored.
    ScoreFound(bool),
    /// The score was written.
    Inserted,
    /// The write was refused because a score with the same key is stored.
    Conflict,
    /// The store could not do what it was asked.
    Failed,
}

/// What happens next.
#[derive(Clone, Copy, Debug, PartialEq, Eq)]
pub enum Step {
    Ask(Request),
    Accept,
    Reject(ServiceError),
}

impl ScoreInput {
    /// The key under which this submission is stored on `leaderboard`.
    pub open spec fn key_on(self, leaderboard: u128) -> ScoreKey {
        ScoreKey {
            leaderboard,
            player: self.player,
            score: self.score,
            timestamp: self.timestamp,
        }
    }

    /// The key under which this submission is stored on `leaderboard`.
    pub fn score_key(&self, leaderboard: u128) -> (key: ScoreKey)
        ensures
            key == self.key_on(leaderboard),
    {
        ScoreKey {
            leaderboard,
            player: self.player,
            score: self.score,
            timestamp: self.timestamp,
        }
    }
}

/// The request that opens the handling of `input`.
pub open spec fn first_request(input: ScoreInput) -> Request {
    Request::FindPlayerKey { player: input.player }
}

/// The stage and the step that follow `answer`, received at `stage` for
/// `input` submitted to `leaderboard`.
///
/// A missing player or leaderboard is an unknown entity; a signature that
/// does not match the stored secrets is invalid; a score that is found, or
/// whose insertion conflicts, is a duplicate. An answer that does not belong
/// to the stage, and any failure of the store, is a persistence failure.
pub open spec fn next(stage: Stage, input: ScoreInput, leaderboard: u128, answer: Answer) -> (
    Stage,
    Step,
) {
    match (stage, answer) {
        (Stage::ResolvingPlayer, Answer::PlayerKey(Some(player_key))) => (
            Stage::ResolvingLeaderboard { player_key },
            Step::Ask(Request::FindLeaderboardKey { leaderboard }),
        ),
        (Stage::ResolvingPlayer, Answer::PlayerKey(None)) => (
            Stage::Finished,
            Step::Reject(ServiceError::UnknownEntity),
        ),
        (Stage::ResolvingLeaderboard { player_key }, Answer::LeaderboardKey(Some(key))) => {
            if input.mac_valid(player_key, key) {
                (
                    Stage::CheckingDuplicate,
                    Step::Ask(Request::FindScore { score: input.key_on(leaderboard) }),
                )
            } else {
                (Stage::Finished, Step::Reject(ServiceError::SignatureInvalid))
            }
        },
        (Stage::ResolvingLeaderboard { .. }, Answer::LeaderboardKey(None)) => (
            Stage::Finished,
            Step::Reject(ServiceError::UnknownEntity),
        ),
        (Stage::CheckingDuplicate, Answer::ScoreFound(false)) => (
            Stage::Inserting,
            Step::Ask(Request::InsertScore { score: input.key_on(leaderboard) }),
        ),
        (Stage::CheckingDuplicate, Answer::ScoreFound(true)) => (
            Stage::Finished,
            Step::Reject(ServiceError::DuplicateSubmission),
        ),
        (Stage::Inserting, Answer::Inserted) => (Stage::Finished, Step::Accept),
        (Stage::Inserting, Answer::Conflict) => (
            Stage::Finished,
            Step::Reject(ServiceError::DuplicateSubmission),
        ),
        _ => (Stage::Finished, Step::Reject(ServiceError::PersistenceFailure)),
    }
}

/// One submission on its way through the protocol. It holds the submitted
/// score and the leaderboard it was sent to from the first request to the
/// verdict, so that what is checked is what is stored, and it can only be
/// moved forward by an answer of the store.
pub struct Submission {
    input: ScoreInput,
    leaderboard: u128,
    stage: Stage,
}

impl Submission {
    pub closed spec fn input(self) -> ScoreInput {
        self.input
    }

    pub closed spec fn leaderboard(self) -> u128 {
        self.leaderboard
    }

    pub closed spec fn stage(self) -> Stage {
        self.stage
    }

    /// Opens the handling of `input`, submitted to `leaderboard`, and hands
    /// out the first request to the store.
    pub fn begin(input: ScoreInput, leaderboard: u128) -> (start: (Submission, Request))
        ensures
            start.0.input() == input,
            start.0.leaderboard() == leaderboard,
            start.0.stage() == Stage::ResolvingPlayer,
            start.1 == first_request(input),
    {
        let request = Request::FindPlayerKey { player: input.player };
        (Submission { input, leaderboard, stage: Stage::ResolvingPlayer }, request)
    }

    /// The score that was submitted.
    pub fn submitted(&self) -> (input: &ScoreInput)
        ensures
            *input == self.input(),
    {
        &self.input
    }

    /// How far the handling has come.
    pub fn progress(&self) -> (stage: Stage)
        ensures
            stage == self.stage(),
    {
        self.stage
    }

    /// The row to write, once the protocol has asked for the insertion and
    /// not before: the key of the submitted score and its metadata, both as
    /// they were submitted and checked.
    pub fn row_to_insert(&self) -> (row: Option<ScoreRow>)
        ensures
            match row {
                Some(written) => {
                    &&& self.stage() == Stage::Inserting
                    &&& written.key == self.input().key_on(self.leaderboard())
                    &&& text_of(written.meta) == text_of(self.input().meta)
                },
                None => self.stage() != Stage::Inserting,
            },
    {
        match self.stage {
            Stage::Inserting => {
                let meta = match &self.input.meta {
                    Some(text) => Some(text.clone()),
                    None => None,
                };
                Some(ScoreRow { key: self.input.score_key(self.leaderboard), meta })
            },
            _ => None,
        }
    }

    /// Takes the store's answer and decides what happens next.
    pub fn advance(self, answer: Answer) -> (outcome: (Submission, Step))
        ensures
            outcome.0.input() == self.input(),
            outcome.0.leaderboard() == self.leaderboard(),
            (outcome.0.stage(), outcome.1) == next(
                self.stage(),
                self.input(),
                self.leaderboard(),
                answer,
            ),
    {
        let (stage, step) = match (self.stage, answer) {
            (Stage::ResolvingPlayer, Answer::PlayerKey(Some(player_key))) => (
                Stage::ResolvingLeaderboard { player_key },
                Step::Ask(Request::FindLeaderboardKey { leaderboard: self.leaderboard }),
            ),
            (Stage::ResolvingPlayer, Answer::PlayerKey(None)) => (
                Stage::Finished,
                Step::Reject(ServiceError::UnknownEntity),
            ),
            (Stage::ResolvingLeaderboard { player_key }, Answer::LeaderboardKey(Some(key))) => {
                if self.input.verify_mac(player_key, key) {
                    (
                        Stage::CheckingDuplicate,
                        Step::Ask(
                            Request::FindScore { score: self.input.score_key(self.leaderboard) },
                        ),
                    )
                } else {
                    (Stage::Finished, Step::Reject(ServiceError::SignatureInvalid))
                }
            },
            (Stage::ResolvingLeaderboard { .. }, Answer::LeaderboardKey(None)) => (
                Stage::Finished,
                Step::Reject(ServiceError::UnknownEntity),
            ),
            (Stage::CheckingDuplicate, Answer::ScoreFound(false)) => (
                Stage::Inserting,
                Step::Ask(Request::InsertScore { score: self.input.score_key(self.leaderboard) }),
            ),
            (Stage::CheckingDuplicate, Answer::ScoreFound(true)) => (
                Stage::Finished,
                Step::Reject(ServiceError::DuplicateSubmission),
            ),
            (Stage::Inserting, Answer::Inserted) => (Stage::Finished, Step::Accept),
            (Stage::Inserting, Answer::Conflict) => (
                Stage::Finished,
                Step::Reject(ServiceError::DuplicateSubmission),
            ),
            _ => (Stage::Finished, Step::Reject(ServiceError::PersistenceFailure)),
        };
        (Submission { input: self.input, leaderboard: self.leaderboard, stage }, step)
    }
}

/// A store as the protocol sees it: the key of each player, the key of each
/// leaderboard, and the stored scores, each with its metadata under its key.
pub struct Store {
    pub players: Map<u128, u128>,
    pub leaderboards: Map<u128, u128>,
    pub scores: Map<ScoreKey, Option<Seq<char>>>,
}

/// How the handling of one submission went: the store it left, the verdict,
/// and every request that was made, in order.
pub struct Run {
    pub store: Store,
    pub step: Step,
    pub asked: Seq<Request>,
}

impl Store {
    /// The answer of a store that works.
    pub open spec fn answer(self, request: Request) -> Answer {
        match request {
            Request::FindPlayerKey { player } => Answer::PlayerKey(
                if self.players.dom().contains(player) {
                    Some(self.players[player])
                } else {
                    None
                },
            ),
            Request::FindLeaderboardKey { leaderboard } => Answer::LeaderboardKey(
                if self.leaderboards.dom().contains(leaderboard) {
                    Some(self.leaderboards[leaderboard])
                } else {
                    None
                },
            ),
            Request::FindScore { score } => Answer::ScoreFound(self.scores.dom().contains(score)),
            Request::InsertScore { score } => if self.scores.dom().contains(score) {
                Answer::Conflict
            } else {
                Answer::Inserted
            },
        }
    }

    /// The store after it has served `request`, where `meta` is the metadata
    /// of the row that an insertion writes. A score is written only under a
    /// key that is not yet stored.
    pub open spec fn after(self, request: Request, meta: Option<Seq<char>>) -> Store {
        match request {
            Request::InsertScore { score } => if self.scores.dom().contains(score) {
                self
            } else {
                Store {
                    players: self.players,
                    leaderboards: self.leaderboards,
                    scores: self.scores.insert(score, meta),
                }
            },
            _ => self,
        }
    }

    /// Serves `request` at `stage` and goes on until the protocol accepts or
    /// rejects, for at most `budget` further requests.
    pub open spec fn run(
        self,
        stage: Stage,
        request: Request,
        input: ScoreInput,
        leaderboard: u128,
        budget: nat,
    ) -> Run
        decreases budget,
    {
        let (stage, step) = next(stage, input, leaderboard, self.answer(request));
        let store = self.after(request, text_of(input.meta));
        match step {
            Step::Ask(asked) if budget > 0 => {
                let rest = store.run(stage, asked, input, leaderboard, (budget - 1) as nat);
                Run { store: rest.store, step: rest.step, asked: seq![request] + rest.asked }
            },
            _ => Run { store, step, asked: seq![request] },
        }
    }

    /// How the handling goes when `input` is submitted to `leaderboard`.
    pub open spec fn submit(self, input: ScoreInput, leaderboard: u128) -> Run {
        self.run(Stage::ResolvingPlayer, first_request(input), input, leaderboard, 3)
    }

    /// The verdict that a submission is owed: the first check that fails
    /// decides, in the order player, leaderboard, signature, duplicate.
    pub open spec fn verdict(self, input: ScoreInput, leaderboard: u128) -> Step {
        if !self.players.dom().contains(input.player) {
            Step::Reject(ServiceError::UnknownEntity)
        } else if !self.leaderboards.dom().contains(leaderboard) {
            Step::Reject(ServiceError::UnknownEntity)
        } else if !input.mac_valid(self.players[input.player], self.leaderboards[leaderboard]) {
            Step::Reject(ServiceError::SignatureInvalid)
        } else if self.scores.dom().contains(input.key_on(leaderboard)) {
            Step::Reject(ServiceError::DuplicateSubmission)
        } else {
            Step::Accept
        }
    }

    /// The requests that a submission is owed: each lookup is made only
    /// after every check before it has passed, and the insertion last.
    pub open spec fn requests(self, input: ScoreInput, leaderboard: u128) -> Seq<Request> {
        let player = Request::FindPlayerKey { player: input.player };
        let key = Request::FindLeaderboardKey { leaderboard };
        let duplicate = Request::FindScore { score: input.key_on(leaderboard) };
        let insert = Request::InsertScore { score: input.key_on(leaderboard) };
        if !self.players.dom().contains(input.player) {
            seq![player]
        } else if !self.leaderboards.dom().contains(leaderboard) {
            seq![player, key]
        } else if !input.mac_valid(self.players[input.player], self.leaderboards[leaderboard]) {
            seq![player, key]
        } else if self.scores.dom().contains(input.key_on(leaderboard)) {
            seq![player, key, duplicate]
        } else {
            seq![player, key, duplicate, insert]
        }
    }
}

/// Against a store that works, the protocol reaches the verdict that the
/// submission is owed and makes the requests that it is owed, no others. An
/// accepted submission adds exactly its own row, key and metadata, to the
/// stored scores; a rejected one changes nothing.
pub proof fn lemma_submission_reaches_verdict(store: Store, input: ScoreInput, leaderboard: u128)
    ensures
        store.submit(input, leaderboard).step == store.verdict(input, leaderboard),
        store.submit(input, leaderboard).asked == store.requests(input, leaderboard),
        store.submit(input, leaderboard).store.players == store.players,
        store.submit(input, leaderboard).store.leaderboards == store.leaderboards,
        store.submit(input, leaderboard).store.scores == if store.verdict(input, leaderboard)
            is Accept {
            store.scores.insert(input.key_on(leaderboard), text_of(input.meta))
        } else {
            store.scores
        },
{
    reveal_with_fuel(Store::run, 5);
    let run = store.submit(input, leaderboard);
    assert(run.asked =~= store.requests(input, leaderboard));
}

/// Submitting the same score twice: where the first submission is accepted,
/// the second is rejected as a duplicate without an insertion being asked
/// for, and leaves the store as the first left it, with one row under that
/// key.
pub proof fn lemma_replay_is_rejected(store: Store, input: ScoreInput, leaderboard: u128)
    requires
        store.submit(input, leaderboard).step is Accept,
    ensures
        store.submit(input, leaderboard).store.submit(input, leaderboard).step == Step::Reject(
            ServiceError::DuplicateSubmission,
        ),
        store.submit(input, leaderboard).store.submit(input, leaderboard).store
            == store.submit(input, leaderboard).store,
        store.submit(input, leaderboard).store.submit(input, leaderboard).asked.len() == 3,
        store.submit(input, leaderboard).store.scores.dom().contains(input.key_on(leaderboard)),
        store.submit(input, leaderboard).store.scores[input.key_on(leaderboard)] == text_of(
            input.meta,
        ),
{
    let first = store.submit(input, leaderboard).store;
    lemma_submission_reaches_verdict(store, input, leaderboard);
    lemma_submission_reaches_verdict(first, input, leaderboard);
    reveal_with_fuel(Store::run, 5);
}

/// A submission signed for another leaderboard key than the stored one.
/// Let the store hold the player and the leaderboard, and let the submission
/// be signed with the player's stored key for the key `signed_for`, which is
/// not the leaderboard's stored key. Unless the two keys give the submission
/// the same tag, it is rejected for its signature, which is reported as a
/// server error; the store is asked for the two keys and for nothing more,
/// and it is left as it was.
pub proof fn lemma_stale_leaderboard_key_is_rejected(
    store: Store,
    input: ScoreInput,
    leaderboard: u128,
    signed_for: u128,
)
    requires
        store.players.dom().contains(input.player),
        store.leaderboards.dom().contains(leaderboard),
        input.signed_by(store.players[input.player], signed_for),
        signed_for != store.leaderboards[leaderboard],
        input.tag(store.players[input.player], store.leaderboards[leaderboard]) != input.tag(
            store.players[input.player],
            signed_for,
        ),
    ensures
        store.submit(input, leaderboard).step == Step::Reject(ServiceError::SignatureInvalid),
        ServiceError::SignatureInvalid.spec_status() == 500,
        store.submit(input, leaderboard).store == store,
        store.submit(input, leaderboard).asked == seq![
            Request::FindPlayerKey { player: input.player },
            Request::FindLeaderboardKey { leaderboard },
        ],
{
    lemma_altered_submission_needs_collision(
        input,
        input,
        store.players[input.player],
        signed_for,
        store.leaderboards[leaderboard],
    );
    lemma_submission_reaches_verdict(store, input, leaderboard);
    reveal_with_fuel(Store::run, 5);
}

} // verus!
