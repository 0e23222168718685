use jornet::client::done_refreshing_leaderboard;
use jornet::client::report;
use jornet::client::Call;
use jornet::client::JornetEvent;
use jornet::client::JornetPlugin;
use jornet::client::Leaderboard;
use jornet::client::Score;
use jornet::domains::player::Player;
use jornet::domains::player::PlayerInput;
use jornet::encoding::push_decimal;
use jornet::random_name::random_name;

#[test]
fn create_player() {
    let player = Player::create(PlayerInput { name: Some("hello".to_string()) }, 1, 2, 3);
    assert_eq!(player.name, "hello");
    assert_eq!(player.id, 1);
    assert_eq!(player.key, 2);
}

#[test]
fn create_player_with_random_name() {
    let player = Player::create(PlayerInput { name: None }, 1, 2, 3);
    assert!(!player.name.is_empty());
    assert_eq!(player.name, "player-3");
}

#[test]
fn create_player_keeps_any_name() {
    for name in ["", " ", "Ada", "\u{e9}t\u{e9}", "player-3"] {
        let player = Player::create(PlayerInput { name: Some(name.to_string()) }, 1, 2, 3);
        assert_eq!(player.name, name);
    }
}

#[test]
fn random_names() {
    assert_eq!(random_name(0), "player-0");
    assert_eq!(random_name(9), "player-9");
    assert_eq!(random_name(10), "player-10");
    assert_eq!(random_name(1_700_000_000), "player-1700000000");
    assert_eq!(random_name(u64::MAX), "player-18446744073709551615");
}

#[test]
fn decimal_is_appended() {
    let mut text = "n=".to_string();
    push_decimal(&mut text, 1203);
    assert_eq!(text, "n=1203");
    push_decimal(&mut text, 0);
    assert_eq!(text, "n=12030");
}

fn plugin() -> JornetPlugin {
    JornetPlugin::with_leaderboard(
        "a1a2a3a4-b1b2-c1c2-d1d2-d3d4d5d6d7d8",
        "00112233-4455-6677-8899-aabbccddeeff",
    )
    .unwrap()
}

#[test]
fn plugin_wants_identifiers() {
    assert!(JornetPlugin::with_leaderboard("invalid", "00112233-4455-6677-8899-aabbccddeeff")
        .is_none());
    assert!(JornetPlugin::with_leaderboard("a1a2a3a4-b1b2-c1c2-d1d2-d3d4d5d6d7d8", "").is_none());
    assert!(JornetPlugin::with_leaderboard(
        "A1A2A3A4B1B2C1C2D1D2D3D4D5D6D7D8",
        "{00112233-4455-6677-8899-aabbccddeeff}"
    )
    .is_some());
}

#[test]
fn game_talks_to_the_default_host() {
    let state = plugin().build();
    assert_eq!(
        state.scores_url(),
        "https://jornet.vleue.com/api/v1/scores/a1a2a3a4-b1b2-c1c2-d1d2-d3d4d5d6d7d8"
    );
    assert_eq!(state.players_url(), "https://jornet.vleue.com/api/v1/players");
    assert!(state.get_player().is_none());
    assert!(state.get_leaderboard().is_empty());
}

#[test]
fn game_talks_to_the_named_host() {
    let state = plugin().with_host("http://localhost:8080").build();
    assert_eq!(
        state.scores_url(),
        "http://localhost:8080/api/v1/scores/a1a2a3a4-b1b2-c1c2-d1d2-d3d4d5d6d7d8"
    );
    let direct = Leaderboard::with_host_and_leaderboard(Some("h".to_string()), 1, 2);
    assert_eq!(direct.scores_url(), "h/api/v1/scores/00000000-0000-0000-0000-000000000001");
}

#[test]
fn game_signs_only_with_a_player() {
    let mut state = plugin().build();
    assert!(state.send_score(543.21f32.to_bits(), 1_700_000_000).is_none());
    assert!(state.send_score_with_meta(543.21f32.to_bits(), "level 3", 1_700_000_000).is_none());
    state.as_player(Player {
        id: 0x0f0e0d0c0b0a09080706050403020100,
        name: "Ada".to_string(),
        key: 0xa1a2a3a4b1b2c1c2d1d2d3d4d5d6d7d8,
    });
    assert_eq!(state.get_player().unwrap().name, "Ada");
    let plain = state.send_score(543.21f32.to_bits(), 1_700_000_000).unwrap();
    assert_eq!(plain.k, "edcef6f657a82014b48dfa0d002db80027c5c2adccff49d081bffb9b4c60bd0f");
    assert!(plain.verify_mac(
        0xa1a2a3a4b1b2c1c2d1d2d3d4d5d6d7d8,
        0x00112233445566778899aabbccddeeff
    ));
    let with_meta =
        state.send_score_with_meta(543.21f32.to_bits(), "level 3", 1_700_000_000).unwrap();
    assert_eq!(with_meta.meta, Some("level 3".to_string()));
    assert_eq!(with_meta.k, "5a7d743254243754e083a05f5ccea461b4f797a4743632acb219a3d54bde8ed8");
}

#[test]
fn game_asks_for_a_player() {
    let state = plugin().build();
    assert_eq!(state.create_player(None).name, None);
    assert_eq!(state.create_player(Some("Ada")).name, Some("Ada".to_string()));
}

fn shown(player: &str) -> Score {
    Score {
        score: 1.5f32.to_bits(),
        player: player.to_string(),
        meta: None,
        timestamp: "2023-11-14T22:13:20Z".to_string(),
    }
}

#[test]
fn game_takes_in_what_came_back() {
    let mut state = plugin().build();
    done_refreshing_leaderboard(&mut state, vec![shown("Ada"), shown("Bob")], None);
    assert_eq!(state.get_leaderboard().len(), 2);
    assert_eq!(state.get_leaderboard()[1].player, "Bob");
    assert!(state.get_player().is_none());
    done_refreshing_leaderboard(&mut state, vec![], Some(Player { id: 1, name: "Cy".to_string(), key: 2 }));
    assert_eq!(state.get_leaderboard().len(), 2);
    assert_eq!(state.get_player().unwrap().name, "Cy");
    done_refreshing_leaderboard(&mut state, vec![shown("Dee")], None);
    assert_eq!(state.get_leaderboard().len(), 1);
    assert_eq!(state.get_leaderboard()[0].player, "Dee");
    assert_eq!(state.get_player().unwrap().name, "Cy");
}

#[test]
fn calls_are_reported() {
    assert_eq!(report(Call::SendScore, true), JornetEvent::SendScoreSuccess);
    assert_eq!(report(Call::SendScore, false), JornetEvent::SendScoreFailure);
    assert_eq!(report(Call::CreatePlayer, true), JornetEvent::CreatePlayerSuccess);
    assert_eq!(report(Call::CreatePlayer, false), JornetEvent::CreatePlayerFailure);
    assert_eq!(report(Call::RefreshLeaderboard, true), JornetEvent::RefreshLeaderboardSuccess);
    assert_eq!(report(Call::RefreshLeaderboard, false), JornetEvent::RefreshLeaderboardFailure);
}
