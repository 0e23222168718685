//! Administrators and the capability tokens that authenticate them.
//!
//! A token states one fact, `user(<account id>)`, and carries one check: the
//! time of verification must lie before the token's expiry. Turning an
//! account into that claim and reading it back are two plain functions; the
//! token library only signs and evaluates.

use vstd::prelude::*;
use vstd::string::*;
use crate::clock::format_rfc3339;
use crate::clock::rfc3339_utc;
use crate::domains::oauth::TOKEN_TTL;
use crate::ids::id_text;
use crate::ids::id_to_text;
use crate::ids::parse_id;
use crate::ids::parsed_id;
use crate::keys::RootKey;
use crate::token::authorizer_query;
use crate::token::build_token;
use crate::token::token_to_base64;
use crate::token::url_safe;

verus! {

/// The reply to a successful login.
pub struct TokenReply {
    pub token: String,
}

/// An administrator: the developer who owns leaderboards.
#[derive(Clone, Copy, Debug, PartialEq, Eq, Structural)]
pub struct AdminAccount {
    pub id: u128,
}

/// A GitHub identity, as the provider reports it.
pub struct GithubUser {
    pub login: String,
    pub id: u32,
}

/// One fact of a token: a predicate applied to one string.
pub struct Claim {
    pub predicate: String,
    pub value: String,
}

/// What a token states: one claim, and the check that ends its life.
pub struct Statement {
    pub claim: Claim,
    pub check: String,
}

/// The texts of a list of strings.
pub open spec fn texts(values: Seq<String>) -> Seq<Seq<char>> {
    values.map_values(|value: String| value@)
}

/// The account that a token's `user` claims name: there must be at least one
/// claim, all claims must name the same text, and the text must be an
/// identifier.
pub open spec fn subject_of(values: Seq<Seq<char>>) -> Option<u128> {
    if values.len() > 0 && (forall|i: int| 0 <= i < values.len() ==> #[trigger] values[i] == values[0]) {
        parsed_id(values[0])
    } else {
        None
    }
}

/// The moment a token issued at `now` expires, in seconds since the Unix
/// epoch, unless that moment cannot be represented.
pub open spec fn expiry_of(now: i64) -> Option<i64> {
    if now + TOKEN_TTL > i64::MAX {
        None
    } else {
        Some((now + TOKEN_TTL) as i64)
    }
}

/// The check that limits a token's life, as Datalog source, for an expiry
/// given as text.
pub open spec fn expiry_check_text(moment: Seq<char>) -> Seq<char> {
    "check if time($time), $time < "@ + moment
}

/// The check of a token issued at `now`, unless its expiry cannot be
/// represented or written as a date.
pub open spec fn statement_check(now: i64) -> Option<Seq<char>> {
    match expiry_of(now) {
        Some(expiry) => match rfc3339_utc(expiry) {
            Some(moment) => Some(expiry_check_text(moment)),
            None => None,
        },
        None => None,
    }
}

/// The moment a token issued at `now` expires.
pub fn token_expiry(now: i64) -> (expiry: Option<i64>)
    ensures
        expiry == expiry_of(now),
{
    now.checked_add(TOKEN_TTL)
}

/// The check that limits a token's life to the time before `moment`.
pub fn expiry_check(moment: &str) -> (check: String)
    ensures
        check@ == expiry_check_text(moment@),
{
    let mut check = String::from_str("check if time($time), $time < ");
    check.append(moment);
    check
}

/// Interface of the entities that a token can state: written as a claim,
/// and read back from the claims that an authorizer derived.
pub trait BiscuitFact: Sized {
    fn as_biscuit_fact(&self) -> Claim;

    fn from_authorizer(authorizer: &mut biscuit_auth::Authorizer<'_>) -> Option<Self>;
}

impl AdminAccount {
    /// Reads the account back from the values of a token's `user` claims.
    pub fn from_claims(values: &Vec<String>) -> (account: Option<AdminAccount>)
        ensures
            match account {
                Some(found) => subject_of(texts(values@)) == Some(found.id),
                None => subject_of(texts(values@)) is None,
            },
    {
        if values.len() == 0 {
            return None;
        }
        let mut i: usize = 1;
        while i < values.len()
            invariant
                1 <= i <= values.len(),
                forall|j: int| 0 <= j < i ==> #[trigger] texts(values@)[j] == texts(values@)[0],
            decreases values.len() - i,
        {
            if values[i] != values[0] {
                assert(texts(values@)[i as int] != texts(values@)[0]);
                return None;
            }
            i = i + 1;
        }
        match parse_id(values[0].as_str()) {
            Some(id) => Some(AdminAccount { id }),
            None => None,
        }
    }

    /// What the token for this account, issued at `now`, states: the claim
    /// `user(<id>)` and the check that the time lies before `now` plus
    /// `TOKEN_TTL` seconds.
    pub fn statement(&self, now: i64) -> (stated: Option<Statement>)
        ensures
            match stated {
                Some(statement) => {
                    &&& statement_check(now) == Some(statement.check@)
                    &&& statement.claim.predicate@ == "user"@
                    &&& statement.claim.value@ == id_text(self.id)
                    &&& subject_of(seq![statement.claim.value@]) == Some(self.id)
                },
                None => statement_check(now) is None,
            },
    {
        let expiry = match token_expiry(now) {
            Some(expiry) => expiry,
            None => return None,
        };
        match format_rfc3339(expiry) {
            Some(moment) => Some(
                Statement { claim: self.as_biscuit_fact(), check: expiry_check(moment.as_str()) },
            ),
            None => None,
        }
    }

    /// Builds the token that authenticates this account until `TOKEN_TTL`
    /// seconds after `now`, signed with `root`. No token is made where the
    /// expiry cannot be represented or written as a date.
    pub fn create_biscuit(&self, root: &RootKey, now: i64) -> (token: Option<
        biscuit_auth::Biscuit,
    >)
        ensures
            statement_check(now) is None ==> token is None,
    {
        let statement = match self.statement(now) {
            Some(statement) => statement,
            None => return None,
        };
        build_token(
            root.pair(),
            statement.claim.predicate.as_str(),
            statement.claim.value.as_str(),
            statement.check.as_str(),
        )
    }

    /// Issues the reply to a login at `now`: the signed token in its text
    /// form, which is safe to put in a URL, a header or a cookie.
    pub fn issue_token(&self, root: &RootKey, now: i64) -> (reply: Option<
        TokenReply,
    >)
        ensures
            statement_check(now) is None ==> reply is None,
            reply matches Some(issued) ==> url_safe(issued.token@),
    {
        let token = match self.create_biscuit(root, now) {
            Some(token) => token,
            None => return None,
        };
        match token_to_base64(&token) {
            Some(text) => Some(TokenReply { token: text }),
            None => None,
        }
    }
}

impl BiscuitFact for AdminAccount {
    /// The claim `user(<id>)`. Read back alone, it names this account.
    fn as_biscuit_fact(&self) -> (claim: Claim)
        ensures
            claim.predicate@ == "user"@,
            claim.value@ == id_text(self.id),
            subject_of(seq![claim.value@]) == Some(self.id),
    {
        Claim { predicate: String::from_str("user"), value: id_to_text(self.id) }
    }

    /// Asks the authorizer for the values of the `user` claims and reads the
    /// account from them.
    fn from_authorizer(authorizer: &mut biscuit_auth::Authorizer<'_>) -> (account: Option<Self>)
        ensures
            account matches Some(found) ==> exists|values: Seq<Seq<char>>|
                subject_of(values) == Some(found.id),
    {
        match authorizer_query(authorizer, "data($id) <- user($id)") {
            Some(values) => AdminAccount::from_claims(&values),
            None => None,
        }
    }
}

} // verus!
