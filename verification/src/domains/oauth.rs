//! Logging in: by a bare account identifier, or through an identity that an
//! OAuth provider vouched for.

use vstd::prelude::*;
use crate::domains::admin::AdminAccount;

verus! {

/// How long a token lives, in seconds.
pub const TOKEN_TTL: i64 = 600;

/// The code that the OAuth provider hands back to the callback.
pub struct OauthCode {
    pub code: String,
}

/// The provider's answer to the exchange of a code.
pub struct GithubOauthResponse {
    pub access_token: String,
}

/// What to do with a login by account identifier.
#[derive(Clone, Copy, Debug, PartialEq, Eq, Structural)]
pub enum UuidLogin {
    /// The account is linked to an outside identity and must log in through
    /// it.
    Refuse,
    /// The account is new: create it, then issue a token.
    CreateThenIssue,
    /// The account exists: issue a token.
    Issue,
}

impl UuidLogin {
    /// The decision on a login by account identifier: an account that is
    /// linked to an outside identity is refused, a known account gets its
    /// token, and an unknown one is created first.
    pub open spec fn decision(exists: bool, linked: bool) -> UuidLogin {
        if linked {
            UuidLogin::Refuse
        } else if exists {
            UuidLogin::Issue
        } else {
            UuidLogin::CreateThenIssue
        }
    }

    /// Decides a login by account identifier from what the store knows:
    /// whether the account exists, and whether it is linked to an outside
    /// identity.
    pub fn decide(exists: bool, linked: bool) -> (decision: UuidLogin)
        ensures
            decision == Self::decision(exists, linked),
    {
        if linked {
            UuidLogin::Refuse
        } else if exists {
            UuidLogin::Issue
        } else {
            UuidLogin::CreateThenIssue
        }
    }
}

/// The account for a verified outside identity.
#[derive(Clone, Copy, Debug, PartialEq, Eq, Structural)]
pub enum OauthLogin {
    /// The identity is linked to this account.
    Known(AdminAccount),
    /// The identity is new: create this account and link the identity to it.
    CreateAndLink(AdminAccount),
}

impl OauthLogin {
    /// The account that gets the token.
    pub open spec fn spec_account(self) -> AdminAccount {
        match self {
            OauthLogin::Known(account) => account,
            OauthLogin::CreateAndLink(account) => account,
        }
    }

    #[verifier::when_used_as_spec(spec_account)]
    pub fn account(self) -> (account: AdminAccount)
        ensures
            account == self.spec_account(),
    {
        match self {
            OauthLogin::Known(account) => account,
            OauthLogin::CreateAndLink(account) => account,
        }
    }
}

impl OauthLogin {
    /// The account for a verified outside identity: the one it is linked to
    /// where there is one, else a new account with the identifier `fresh`.
    pub open spec fn resolution(linked: Option<AdminAccount>, fresh: u128) -> OauthLogin {
        match linked {
            Some(account) => OauthLogin::Known(account),
            None => OauthLogin::CreateAndLink(AdminAccount { id: fresh }),
        }
    }

    /// Finds or creates the account for a verified outside identity. `fresh`
    /// is a new random identifier, used only where an account must be
    /// created.
    pub fn resolve(linked: Option<AdminAccount>, fresh: u128) -> (login: OauthLogin)
        ensures
            login == Self::resolution(linked, fresh),
    {
        match linked {
            Some(account) => OauthLogin::Known(account),
            None => OauthLogin::CreateAndLink(AdminAccount { id: fresh }),
        }
    }
}

} // verus!
