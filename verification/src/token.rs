//! The boundary to `biscuit_auth`, the capability token library.
//!
//! A token, a key pair and an authorizer are values of that crate: nothing in
//! them is visible here. What a token contains depends on its signing key and
//! on random bytes drawn while signing, and whether it passes depends on the
//! clock, so none of these calls promises an outcome.

use vstd::prelude::*;
use crate::clock::rfc3339_utc;
use crate::domains::admin::expiry_check_text;

verus! {

#[verifier::external_type_specification]
#[verifier::external_body]
pub struct ExKeyPair(biscuit_auth::KeyPair);

#[verifier::external_type_specification]
#[verifier::external_body]
pub struct ExBiscuit(biscuit_auth::Biscuit);

#[verifier::external_type_specification]
#[verifier::external_body]
pub struct ExAuthorizer<'t>(biscuit_auth::Authorizer<'t>);

/// The bytes of the private key that a key pair holds.
pub uninterp spec fn private_bytes(pair: biscuit_auth::KeyPair) -> Seq<u8>;

/// Calls `PrivateKey::from_bytes`, which accepts exactly 32 bytes, and
/// `KeyPair::from` on the key it made. The pair keeps these bytes as its
/// secret and derives the public key from them.
#[verifier::external_body]
pub(crate) fn keypair_from_private_bytes(bytes: &[u8]) -> (pair: biscuit_auth::KeyPair)
    requires
        bytes@.len() == 32,
    ensures
        private_bytes(pair) == bytes@,
{
    biscuit_auth::KeyPair::from(biscuit_auth::PrivateKey::from_bytes(bytes).unwrap())
}

/// Calls `KeyPair::new`, which draws a key from the system's random source,
/// then `KeyPair::private` and `PrivateKey::to_bytes`, which returns an array
/// of 32 bytes.
#[verifier::external_body]
pub(crate) fn generate_private_key() -> (bytes: Vec<u8>)
    ensures
        bytes@.len() == 32,
{
    biscuit_auth::KeyPair::new().private().to_bytes().to_vec()
}

/// Builds and signs a token with `Biscuit::builder`: one authority fact with
/// one string term, one authority check given as Datalog source, then
/// `build`. Nothing comes back where the builder refuses the fact or the
/// check, or where signing fails. The builder's parser gives up on some
/// texts instead of refusing them, so the check must be the one that limits
/// a token's life, for a moment written as a date.
#[verifier::external_body]
pub(crate) fn build_token(
    root: &biscuit_auth::KeyPair,
    predicate: &str,
    value: &str,
    check: &str,
) -> Option<biscuit_auth::Biscuit>
    requires
        exists|seconds: i64|
            (#[trigger] rfc3339_utc(seconds)) matches Some(moment) && check@ == expiry_check_text(
                moment,
            ),
{
    let mut builder = biscuit_auth::Biscuit::builder(root);
    let term = biscuit_auth::builder::Term::Str(value.to_string());
    let fact = biscuit_auth::builder::Fact::new(predicate.to_string(), vec![term]);
    if builder.add_authority_fact(fact).is_err() {
        return None;
    }
    if builder.add_authority_check(check).is_err() {
        return None;
    }
    builder.build().ok()
}

/// Whether `c` belongs to the URL-safe base64 alphabet or is its padding.
pub open spec fn url_safe_char(c: char) -> bool {
    ||| 'A' <= c <= 'Z'
    ||| 'a' <= c <= 'z'
    ||| '0' <= c <= '9'
    ||| c == '-'
    ||| c == '_'
    ||| c == '='
}

/// Whether `text` holds nothing but URL-safe base64 characters and padding.
pub open spec fn url_safe(text: Seq<char>) -> bool {
    forall|i: int| 0 <= i < text.len() ==> url_safe_char(#[trigger] text[i])
}

/// Calls `Biscuit::to_base64`, which encodes the serialized token with
/// base64's `URL_SAFE` configuration: the letters, the digits, `-` and `_`,
/// padded with `=`.
#[verifier::external_body]
pub(crate) fn token_to_base64(token: &biscuit_auth::Biscuit) -> (text: Option<String>)
    ensures
        text matches Some(encoded) ==> url_safe(encoded@),
{
    token.to_base64().ok()
}

/// Calls `Biscuit::from_base64` with the public key of `root`: decodes the
/// text with base64's `URL_SAFE` configuration, whose decoder refuses every
/// byte outside its alphabet and padding, then checks the signatures against
/// that key.
#[verifier::external_body]
pub(crate) fn token_from_base64(text: &str, root: &biscuit_auth::KeyPair) -> (token: Option<
    biscuit_auth::Biscuit,
>)
    ensures
        !url_safe(text@) ==> token is None,
{
    let public = root.public();
    biscuit_auth::Biscuit::from_base64(text, |_| public).ok()
}

/// Calls `Biscuit::authorizer`.
#[verifier::external_body]
pub(crate) fn token_authorizer<'t>(token: &'t biscuit_auth::Biscuit) -> Option<
    biscuit_auth::Authorizer<'t>,
> {
    token.authorizer().ok()
}

/// Calls `Authorizer::set_time`, which adds the fact `time` with the system
/// clock's reading.
#[verifier::external_body]
pub(crate) fn authorizer_set_time(authorizer: &mut biscuit_auth::Authorizer<'_>) {
    authorizer.set_time()
}

/// Calls `Authorizer::allow`, which adds the policy `allow if true`.
#[verifier::external_body]
pub(crate) fn authorizer_allow(authorizer: &mut biscuit_auth::Authorizer<'_>) -> bool {
    authorizer.allow().is_ok()
}

/// Calls `Authorizer::authorize`, which evaluates every check of the token
/// and the policies.
#[verifier::external_body]
pub(crate) fn authorizer_authorize(authorizer: &mut biscuit_auth::Authorizer<'_>) -> bool {
    authorizer.authorize().is_ok()
}

/// The rule that reads the subject of a token: every `user` claim.
pub open spec fn subject_query() -> Seq<char> {
    "data($id) <- user($id)"@
}

/// Calls `Authorizer::query` with the rule that reads the subject, whose
/// head has one string term, and hands out that term of every fact it
/// derived. The rule is parsed by the parser that gives up on some texts, so
/// no other rule is taken.
#[verifier::external_body]
pub(crate) fn authorizer_query(authorizer: &mut biscuit_auth::Authorizer<'_>, rule: &str) -> Option<
    Vec<String>,
>
    requires
        rule@ == subject_query(),
{
    let rows: Result<Vec<(String,)>, biscuit_auth::error::Token> = authorizer.query(rule);
    match rows {
        Ok(rows) => Some(rows.into_iter().map(|row| row.0).collect()),
        Err(_) => None,
    }
}

} // verus!
