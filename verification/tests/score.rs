use hmac::Mac;
use jornet::domains::player::Player;
use jornet::domains::score::Score;
use jornet::domains::score::ScoreInput;

const PLAYER_KEY: u128 = 0xa1a2a3a4b1b2c1c2d1d2d3d4d5d6d7d8;
const LEADERBOARD_KEY: u128 = 0x00112233445566778899aabbccddeeff;
const PLAYER_ID: u128 = 0x0f0e0d0c0b0a09080706050403020100;
const T: u64 = 1_700_000_000;

fn ada() -> Player {
    Player { id: PLAYER_ID, name: "Ada".to_string(), key: PLAYER_KEY }
}

fn signed(meta: Option<&str>) -> ScoreInput {
    ScoreInput::new(543.21f32.to_bits(), &ada(), meta.map(|m| m.to_string()), LEADERBOARD_KEY, T)
}

#[test]
fn signature_has_the_expected_value() {
    let input = signed(None);
    assert_eq!(input.score, 0x4407cd71);
    assert_eq!(input.player, PLAYER_ID);
    assert_eq!(input.timestamp, T);
    assert_eq!(input.meta, None);
    assert_eq!(input.k, "edcef6f657a82014b48dfa0d002db80027c5c2adccff49d081bffb9b4c60bd0f");
}

#[test]
fn signature_with_meta_has_the_expected_value() {
    let input = signed(Some("level 3"));
    assert_eq!(input.meta, Some("level 3".to_string()));
    assert_eq!(input.k, "5a7d743254243754e083a05f5ccea461b4f797a4743632acb219a3d54bde8ed8");
}

#[test]
fn signature_equals_an_independent_computation() {
    let input = signed(Some("level 3"));
    let player = uuid::Uuid::from_u128(PLAYER_ID);
    let mut mac =
        hmac::Hmac::<sha2::Sha256>::new_from_slice(uuid::Uuid::from_u128(PLAYER_KEY).as_bytes())
            .unwrap();
    mac.update(&T.to_le_bytes());
    mac.update(uuid::Uuid::from_u128(LEADERBOARD_KEY).as_bytes());
    mac.update(player.as_bytes());
    mac.update(&543.21f32.to_le_bytes());
    mac.update("level 3".as_bytes());
    assert_eq!(input.k, hex::encode(&mac.finalize().into_bytes()[..]));
}

#[test]
fn signed_score_verifies() {
    assert!(signed(None).verify_mac(PLAYER_KEY, LEADERBOARD_KEY));
    assert!(signed(Some("level 3")).verify_mac(PLAYER_KEY, LEADERBOARD_KEY));
    assert!(signed(Some("")).verify_mac(PLAYER_KEY, LEADERBOARD_KEY));
}

#[test]
fn signature_in_upper_case_verifies() {
    let mut input = signed(None);
    input.k = input.k.to_uppercase();
    assert!(input.verify_mac(PLAYER_KEY, LEADERBOARD_KEY));
}

#[test]
fn signature_that_is_not_hex_is_rejected() {
    let mut input = signed(None);
    input.k = "not hexadecimal".to_string();
    assert!(!input.verify_mac(PLAYER_KEY, LEADERBOARD_KEY));
    input.k = "abc".to_string();
    assert!(!input.verify_mac(PLAYER_KEY, LEADERBOARD_KEY));
    input.k = String::new();
    assert!(!input.verify_mac(PLAYER_KEY, LEADERBOARD_KEY));
    input.k = "\u{e9}\u{e9}".to_string();
    assert!(!input.verify_mac(PLAYER_KEY, LEADERBOARD_KEY));
}

#[test]
fn truncated_signature_is_rejected() {
    let mut input = signed(None);
    assert_eq!(input.k.len(), 64);
    input.k.truncate(62);
    assert!(!input.verify_mac(PLAYER_KEY, LEADERBOARD_KEY));
    for length in [0usize, 2, 32, 60] {
        let mut input = signed(None);
        input.k.truncate(length);
        assert!(!input.verify_mac(PLAYER_KEY, LEADERBOARD_KEY));
    }
    let mut input = signed(None);
    input.k.push_str("00");
    assert!(!input.verify_mac(PLAYER_KEY, LEADERBOARD_KEY));
}

#[test]
fn flipping_a_bit_of_the_score_fails() {
    for bit in 0..32 {
        let mut input = signed(None);
        input.score ^= 1 << bit;
        assert!(!input.verify_mac(PLAYER_KEY, LEADERBOARD_KEY));
    }
}

#[test]
fn flipping_a_bit_of_the_timestamp_fails() {
    for bit in 0..64 {
        let mut input = signed(None);
        input.timestamp ^= 1 << bit;
        assert!(!input.verify_mac(PLAYER_KEY, LEADERBOARD_KEY));
    }
}

#[test]
fn flipping_a_bit_of_the_player_fails() {
    for bit in 0..128 {
        let mut input = signed(None);
        input.player ^= 1 << bit;
        assert!(!input.verify_mac(PLAYER_KEY, LEADERBOARD_KEY));
    }
}

#[test]
fn flipping_a_bit_of_the_meta_fails() {
    for bit in 0..7 {
        let mut input = signed(Some("level 3"));
        let mut bytes = "level 3".as_bytes().to_vec();
        bytes[2] ^= 1 << bit;
        input.meta = Some(String::from_utf8(bytes).unwrap());
        assert!(!input.verify_mac(PLAYER_KEY, LEADERBOARD_KEY));
    }
    let mut input = signed(Some("level 3"));
    input.meta = None;
    assert!(!input.verify_mac(PLAYER_KEY, LEADERBOARD_KEY));
    let mut input = signed(None);
    input.meta = Some("level 3".to_string());
    assert!(!input.verify_mac(PLAYER_KEY, LEADERBOARD_KEY));
}

#[test]
fn absent_and_empty_meta_sign_alike() {
    assert_eq!(signed(None).k, signed(Some("")).k);
}

#[test]
fn other_keys_do_not_verify() {
    let input = signed(None);
    assert!(!input.verify_mac(PLAYER_KEY ^ 1, LEADERBOARD_KEY));
    assert!(!input.verify_mac(PLAYER_KEY, LEADERBOARD_KEY ^ 1));
    assert!(!input.verify_mac(LEADERBOARD_KEY, PLAYER_KEY));
}

#[test]
fn stored_score_is_shown_with_its_date() {
    let shown =
        Score::from_stored(543.21f32.to_bits(), None, T, "Ada".to_string()).unwrap();
    assert_eq!(f32::from_bits(shown.score), 543.21f32);
    assert_eq!(shown.player, "Ada");
    assert_eq!(shown.meta, None);
    assert_eq!(shown.timestamp, "2023-11-14T22:13:20Z");
    assert!(shown.timestamp.starts_with("2023-11-14T"));
}

#[test]
fn stored_score_keeps_its_meta() {
    let shown = Score::from_stored(1, Some("m".to_string()), 0, "Bob".to_string()).unwrap();
    assert_eq!(shown.meta, Some("m".to_string()));
    assert_eq!(shown.timestamp, "1970-01-01T00:00:00Z");
}

#[test]
fn stored_score_beyond_the_calendar_is_not_shown() {
    assert!(Score::from_stored(1, None, u64::MAX, "Bob".to_string()).is_none());
    assert!(Score::from_stored(1, None, i64::MAX as u64, "Bob".to_string()).is_none());
    assert!(Score::from_stored(1, None, 253_402_300_800, "Bob".to_string()).is_none());
    assert_eq!(
        Score::from_stored(1, None, 253_402_300_799, "Bob".to_string()).unwrap().timestamp,
        "9999-12-31T23:59:59Z"
    );
}
