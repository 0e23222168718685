//! Scores and the signature that protects a submission.
//!
//! A client signs each score with HMAC-SHA256 under the player's secret key,
//! over the timestamp, the leaderboard's secret key, the player's identifier,
//! the score and the optional metadata. The server recomputes the signature
//! from the secrets it stored and compares.

use vstd::prelude::*;
use vstd::bytes::lemma_auto_spec_u32_to_from_le_bytes;
use vstd::bytes::lemma_auto_spec_u64_to_from_le_bytes;
use vstd::bytes::spec_u32_to_le_bytes;
use vstd::bytes::spec_u64_to_le_bytes;
use vstd::bytes::u32_to_le_bytes;
use vstd::bytes::u64_to_le_bytes;
use vstd::string::*;
use vstd::utf8::encode_utf8;
use vstd::utf8::encode_utf8_decode_utf8;
use crate::clock::format_rfc3339;
use crate::clock::rfc3339_utc;
use crate::domains::player::Player;
use crate::encoding::hex_decode;
use crate::encoding::hex_decoded;
use crate::encoding::hex_encode;
use crate::encoding::hex_text;
use crate::encoding::lemma_hex_round_trip;
use crate::encoding::text_of;
use crate::ids::id_bytes;
use crate::ids::id_to_bytes;
use crate::ids::lemma_id_bytes_injective;
use crate::ids::lemma_id_bytes_len;

verus! {

/// The HMAC-SHA256 tag of `message` under `key`.
pub uninterp spec fn hmac_sha256(key: Seq<u8>, message: Seq<u8>) -> Seq<u8>;

/// Computes a tag with `Hmac<Sha256>`: `new_from_slice`, which takes a key of
/// any length, then `update` and `finalize`. The tag of SHA-256 has 32 bytes.
#[verifier::external_body]
pub(crate) fn hmac_sha256_tag(key: &[u8], message: &[u8]) -> (tag: Vec<u8>)
    ensures
        tag@ == hmac_sha256(key@, message@),
        tag@.len() == 32,
{
    let mut mac = <hmac::Hmac<sha2::Sha256> as hmac::Mac>::new_from_slice(key).unwrap();
    hmac::Mac::update(&mut mac, message);
    hmac::Mac::finalize(mac).into_bytes().to_vec()
}

/// Checks a tag with `Hmac<Sha256>`: `new_from_slice`, `update`, then
/// `verify_slice`, which accepts a tag only if it has the length of the
/// computed one, 32 bytes, and equals it, compared in constant time.
#[verifier::external_body]
pub(crate) fn hmac_sha256_verify(key: &[u8], message: &[u8], tag: &[u8]) -> (ok: bool)
    ensures
        ok == (tag@ == hmac_sha256(key@, message@)),
        ok ==> tag@.len() == 32,
{
    let mut mac = <hmac::Hmac<sha2::Sha256> as hmac::Mac>::new_from_slice(key).unwrap();
    hmac::Mac::update(&mut mac, message);
    hmac::Mac::verify_slice(mac, tag).is_ok()
}

/// The bytes that metadata adds to the signed message: its UTF-8 bytes, or
/// nothing where there is none.
pub open spec fn meta_bytes(meta: Option<Seq<char>>) -> Seq<u8> {
    match meta {
        Some(text) => encode_utf8(text),
        None => Seq::empty(),
    }
}

/// The message that a signature covers: the timestamp in little-endian
/// order, the leaderboard's key, the player's identifier, the score's bits in
/// little-endian order, and the metadata where there is any.
pub open spec fn signed_message(
    timestamp: u64,
    leaderboard_key: u128,
    player: u128,
    score: u32,
    meta: Option<Seq<char>>,
) -> Seq<u8> {
    spec_u64_to_le_bytes(timestamp) + id_bytes(leaderboard_key) + id_bytes(player)
        + spec_u32_to_le_bytes(score) + meta_bytes(meta)
}

/// A score as a client submits it. `score` holds the bits of the 32-bit
/// floating-point value, `k` the signature in hexadecimal.
pub struct ScoreInput {
    pub score: u32,
    pub player: u128,
    pub meta: Option<String>,
    pub timestamp: u64,
    pub k: String,
}

/// A stored score as it is shown: the player's name in place of the
/// identifier, the time as RFC 3339 text.
pub struct Score {
    pub score: u32,
    pub meta: Option<String>,
    pub timestamp: String,
    pub player: String,
}

/// The text of the time of a score stored with `timestamp`, where it has one.
pub open spec fn shown_time(timestamp: u64) -> Option<Seq<char>> {
    if timestamp > i64::MAX {
        None
    } else {
        rfc3339_utc(timestamp as i64)
    }
}

impl Score {
    /// Makes the shown form of a stored score. `player` is the name that the
    /// score's player identifier resolved to. Nothing is made where the time
    /// cannot be written as a date.
    pub fn from_stored(score: u32, meta: Option<String>, timestamp: u64, player: String) -> (row:
        Option<Score>)
        ensures
            match row {
                Some(shown) => shown.score == score && shown.meta == meta && shown.player
                    == player && shown_time(timestamp) == Some(shown.timestamp@),
                None => shown_time(timestamp) is None,
            },
    {
        if timestamp > 9223372036854775807u64 {
            return None;
        }
        match format_rfc3339(timestamp as i64) {
            Some(text) => Some(Score { score, meta, timestamp: text, player }),
            None => None,
        }
    }
}

/// Assembles the signed message.
fn message_bytes(
    timestamp: u64,
    leaderboard_key: u128,
    player: u128,
    score: u32,
    meta: &Option<String>,
) -> (message: Vec<u8>)
    ensures
        message@ == signed_message(timestamp, leaderboard_key, player, score, text_of(*meta)),
{
    let mut message = u64_to_le_bytes(timestamp);
    let leaderboard_part = id_to_bytes(leaderboard_key);
    let player_part = id_to_bytes(player);
    let score_part = u32_to_le_bytes(score);
    message.extend_from_slice(leaderboard_part.as_slice());
    message.extend_from_slice(player_part.as_slice());
    message.extend_from_slice(score_part.as_slice());
    match meta {
        Some(text) => {
            message.extend_from_slice(text.as_str().as_bytes());
        },
        None => {},
    }
    assert(message@ =~= signed_message(
        timestamp,
        leaderboard_key,
        player,
        score,
        text_of(*meta),
    ));
    message
}

impl ScoreInput {
    /// The tag that the holder of `key` computes for this submission on the
    /// leaderboard with the secret `leaderboard_key`.
    pub open spec fn tag(self, key: u128, leaderboard_key: u128) -> Seq<u8> {
        hmac_sha256(
            id_bytes(key),
            signed_message(
                self.timestamp,
                leaderboard_key,
                self.player,
                self.score,
                text_of(self.meta),
            ),
        )
    }

    /// Whether `k` is the signature that the holder of `key` writes.
    pub open spec fn signed_by(self, key: u128, leaderboard_key: u128) -> bool {
        self.k@ == hex_text(self.tag(key, leaderboard_key))
    }

    /// Whether `k` decodes to the tag recomputed from `key` and
    /// `leaderboard_key`.
    pub open spec fn mac_valid(self, key: u128, leaderboard_key: u128) -> bool {
        hex_decoded(encode_utf8(self.k@)) == Some(self.tag(key, leaderboard_key))
    }

    /// Recomputes the signature from the stored secrets and compares it with
    /// the submitted one. A signature that is not hexadecimal does not match,
    /// nor does one that is not 64 digits long.
    pub fn verify_mac(&self, key: u128, leaderboard_key: u128) -> (ok: bool)
        ensures
            ok == self.mac_valid(key, leaderboard_key),
            ok ==> encode_utf8(self.k@).len() == 64,
    {
        let message = message_bytes(
            self.timestamp,
            leaderboard_key,
            self.player,
            self.score,
            &self.meta,
        );
        let key_bytes = id_to_bytes(key);
        match hex_decode(self.k.as_str().as_bytes()) {
            Some(submitted) => hmac_sha256_verify(
                key_bytes.as_slice(),
                message.as_slice(),
                submitted.as_slice(),
            ),
            None => false,
        }
    }

    /// Signs a score for `player` at `timestamp`, in seconds since the Unix
    /// epoch.
    pub fn new(
        score: u32,
        player: &Player,
        meta: Option<String>,
        leaderboard_key: u128,
        timestamp: u64,
    ) -> (input: Self)
        ensures
            input.score == score,
            input.player == player.id,
            input.meta == meta,
            input.timestamp == timestamp,
            input.signed_by(player.key, leaderboard_key),
            input.k@.len() == 64,
    {
        let message = message_bytes(timestamp, leaderboard_key, player.id, score, &meta);
        let key_bytes = id_to_bytes(player.key);
        let tag = hmac_sha256_tag(key_bytes.as_slice(), message.as_slice());
        let k = hex_encode(tag.as_slice());
        ScoreInput { score, player: player.id, meta, timestamp, k }
    }
}

/// A correctly computed signature verifies: a submission signed under a
/// player key and a leaderboard key is valid under the same two keys.
pub proof fn lemma_signed_submission_verifies(input: ScoreInput, key: u128, leaderboard_key: u128)
    requires
        input.signed_by(key, leaderboard_key),
    ensures
        input.mac_valid(key, leaderboard_key),
{
    lemma_hex_round_trip(input.tag(key, leaderboard_key));
}

/// The signature is a function of the signed fields and the two keys: two
/// parties that sign the same content under the same keys write the same
/// text.
pub proof fn lemma_signature_is_reproducible(
    client: ScoreInput,
    server: ScoreInput,
    key: u128,
    leaderboard_key: u128,
)
    requires
        client.signed_by(key, leaderboard_key),
        server.signed_by(key, leaderboard_key),
        client.timestamp == server.timestamp,
        client.player == server.player,
        client.score == server.score,
        text_of(client.meta) == text_of(server.meta),
    ensures
        client.k@ == server.k@,
{
}

/// The signed message determines every field it covers: two messages are
/// equal only if timestamp, leaderboard key, player and score are equal and
/// the metadata contribute the same bytes. Absent metadata and empty metadata
/// contribute the same bytes; two present metadata are then equal as text.
pub proof fn lemma_signed_message_determines_fields(
    timestamp1: u64,
    leaderboard_key1: u128,
    player1: u128,
    score1: u32,
    meta1: Option<Seq<char>>,
    timestamp2: u64,
    leaderboard_key2: u128,
    player2: u128,
    score2: u32,
    meta2: Option<Seq<char>>,
)
    requires
        signed_message(timestamp1, leaderboard_key1, player1, score1, meta1) == signed_message(
            timestamp2,
            leaderboard_key2,
            player2,
            score2,
            meta2,
        ),
    ensures
        timestamp1 == timestamp2,
        leaderboard_key1 == leaderboard_key2,
        player1 == player2,
        score1 == score2,
        meta_bytes(meta1) == meta_bytes(meta2),
        meta1 is Some && meta2 is Some ==> meta1 == meta2,
{
    lemma_auto_spec_u64_to_from_le_bytes();
    lemma_auto_spec_u32_to_from_le_bytes();
    lemma_id_bytes_len(leaderboard_key1);
    lemma_id_bytes_len(leaderboard_key2);
    lemma_id_bytes_len(player1);
    lemma_id_bytes_len(player2);
    let a = signed_message(timestamp1, leaderboard_key1, player1, score1, meta1);
    let b = signed_message(timestamp2, leaderboard_key2, player2, score2, meta2);
    assert(a.subrange(0, 8) =~= spec_u64_to_le_bytes(timestamp1));
    assert(b.subrange(0, 8) =~= spec_u64_to_le_bytes(timestamp2));
    assert(a.subrange(8, 24) =~= id_bytes(leaderboard_key1));
    assert(b.subrange(8, 24) =~= id_bytes(leaderboard_key2));
    assert(a.subrange(24, 40) =~= id_bytes(player1));
    assert(b.subrange(24, 40) =~= id_bytes(player2));
    assert(a.subrange(40, 44) =~= spec_u32_to_le_bytes(score1));
    assert(b.subrange(40, 44) =~= spec_u32_to_le_bytes(score2));
    assert(a.subrange(44, a.len() as int) =~= meta_bytes(meta1));
    assert(b.subrange(44, b.len() as int) =~= meta_bytes(meta2));
    lemma_id_bytes_injective(leaderboard_key1, leaderboard_key2);
    lemma_id_bytes_injective(player1, player2);
    if meta1 is Some && meta2 is Some {
        encode_utf8_decode_utf8(meta1->0);
        encode_utf8_decode_utf8(meta2->0);
    }
}

/// What it takes for an altered submission to pass. Let `genuine` be signed
/// under `key` for the leaderboard key `signed_for`, and let `altered` carry
/// the same signature. Then `altered` verifies under `key` and the stored
/// leaderboard key `stored` exactly if the tag of its own message equals the
/// tag of the genuine message; and where the timestamp, the player, the
/// score, the bytes of the metadata or the leaderboard key differ, these are
/// tags of two different messages.
pub proof fn lemma_altered_submission_needs_collision(
    genuine: ScoreInput,
    altered: ScoreInput,
    key: u128,
    signed_for: u128,
    stored: u128,
)
    requires
        genuine.signed_by(key, signed_for),
        altered.k@ == genuine.k@,
    ensures
        altered.mac_valid(key, stored) <==> altered.tag(key, stored) == genuine.tag(
            key,
            signed_for,
        ),
        (altered.timestamp != genuine.timestamp || altered.player != genuine.player
            || altered.score != genuine.score || stored != signed_for || meta_bytes(
            text_of(altered.meta),
        ) != meta_bytes(text_of(genuine.meta))) ==> signed_message(
            altered.timestamp,
            stored,
            altered.player,
            altered.score,
            text_of(altered.meta),
        ) != signed_message(
            genuine.timestamp,
            signed_for,
            genuine.player,
            genuine.score,
            text_of(genuine.meta),
        ),
{
    lemma_hex_round_trip(genuine.tag(key, signed_for));
    let a = signed_message(
        altered.timestamp,
        stored,
        altered.player,
        altered.score,
        text_of(altered.meta),
    );
    let b = signed_message(
        genuine.timestamp,
        signed_for,
        genuine.player,
        genuine.score,
        text_of(genuine.meta),
    );
    if a == b {
        lemma_signed_message_determines_fields(
            altered.timestamp,
            stored,
            altered.player,
            altered.score,
            text_of(altered.meta),
            genuine.timestamp,
            signed_for,
            genuine.player,
            genuine.score,
            text_of(genuine.meta),
        );
    }
}

} // verus!
