//! Verifying a capability token.
//!
//! Verification fails closed: a token that is malformed, wrongly signed or
//! expired, or that names no single account, yields nothing, and the caller
//! cannot tell which of these it was.

use vstd::prelude::*;
use crate::domains::admin::subject_of;
use crate::domains::admin::AdminAccount;
use crate::domains::admin::BiscuitFact;
use crate::keys::RootKey;
use crate::token::authorizer_allow;
use crate::token::authorizer_authorize;
use crate::token::authorizer_set_time;
use crate::token::token_authorizer;
use crate::token::token_from_base64;
use crate::token::url_safe;

verus! {

/// Runs the checks of a token whose signature was verified, against the
/// current time, and reads the account it names. The policy allows
/// unconditionally: what a token grants is decided by its own checks alone.
pub fn authorize(token: &biscuit_auth::Biscuit) -> (account: Option<AdminAccount>)
    ensures
        account matches Some(found) ==> exists|values: Seq<Seq<char>>|
            subject_of(values) == Some(found.id),
{
    let mut authorizer = match token_authorizer(token) {
        Some(authorizer) => authorizer,
        None => return None,
    };
    authorizer_set_time(&mut authorizer);
    if !authorizer_allow(&mut authorizer) {
        return None;
    }
    if !authorizer_authorize(&mut authorizer) {
        return None;
    }
    AdminAccount::from_authorizer(&mut authorizer)
}

/// Verifies the text form of a token against the public key of `root` and
/// the current time. A text that is not URL-safe base64 is no token.
pub fn validator(token: &str, root: &RootKey) -> (account: Option<AdminAccount>)
    ensures
        !url_safe(token@) ==> account is None,
        account matches Some(found) ==> exists|values: Seq<Seq<char>>|
            subject_of(values) == Some(found.id),
{
    match token_from_base64(token, root.pair()) {
        Some(token) => authorize(&token),
        None => None,
    }
}

} // verus!
