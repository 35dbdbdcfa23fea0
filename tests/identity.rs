use matchmaker::connection::announcement;
use matchmaker::identity::Player;
use matchmaker::session::{identify, redirect_target, session_redirect, CREATE_SESSION_ENDPOINT, SESSION_COOKIE};

const ID: u128 = 0xa1a2a3a4b1b2c1c2d1d2d3d4d5d6d7d8;

#[test]
fn id_text_is_hyphenated_lowercase() {
    assert_eq!(Player::from_id(ID).id_text(), "a1a2a3a4-b1b2-c1c2-d1d2-d3d4d5d6d7d8");
    assert_eq!(Player::from_id(0).id_text(), "00000000-0000-0000-0000-000000000000");
}

#[test]
fn describe_names_the_player() {
    assert_eq!(Player::from_id(ID).describe(), "player a1a2a3a4-b1b2-c1c2-d1d2-d3d4d5d6d7d8");
}

#[test]
fn announcement_names_the_partner() {
    assert_eq!(
        announcement(&Player::from_id(ID)),
        "connected with player a1a2a3a4-b1b2-c1c2-d1d2-d3d4d5d6d7d8"
    );
}

#[test]
fn cookie_value_format() {
    assert_eq!(
        Player::from_id(ID).to_cookie_value(),
        "{\"id\":\"a1a2a3a4-b1b2-c1c2-d1d2-d3d4d5d6d7d8\"}"
    );
}

#[test]
fn cookie_round_trip() {
    for id in [0u128, 1, ID, u128::MAX] {
        let p = Player::from_id(id);
        assert_eq!(Player::from_cookie_value(&p.to_cookie_value()), Some(p));
    }
    let fresh = Player::new();
    assert_eq!(Player::from_cookie_value(&fresh.to_cookie_value()), Some(fresh));
}

#[test]
fn fresh_players_differ() {
    assert_ne!(Player::new(), Player::new());
}

#[test]
fn cookie_decode_rejects_bad_values() {
    assert_eq!(Player::from_cookie_value(""), None);
    assert_eq!(Player::from_cookie_value("{\"id\":\"\"}"), None);
    assert_eq!(Player::from_cookie_value("{\"id\":\"not-a-uuid\"}"), None);
    assert_eq!(Player::from_cookie_value("a1a2a3a4-b1b2-c1c2-d1d2-d3d4d5d6d7d8"), None);
    assert_eq!(Player::from_cookie_value("[\"id\":\"a1a2a3a4-b1b2-c1c2-d1d2-d3d4d5d6d7d8\"}"), None);
}

#[test]
fn cookie_decode_accepts_uppercase() {
    assert_eq!(
        Player::from_cookie_value("{\"id\":\"A1A2A3A4-B1B2-C1C2-D1D2-D3D4D5D6D7D8\"}"),
        Some(Player::from_id(ID))
    );
}

#[test]
fn session_redirect_carries_path() {
    assert_eq!(session_redirect("/connect"), "/create-session?redirect=/connect");
    assert!(session_redirect("/x").starts_with(CREATE_SESSION_ENDPOINT));
    assert_eq!(SESSION_COOKIE, "SESSION");
}

#[test]
fn redirect_target_defaults_to_root() {
    assert_eq!(redirect_target(None), "/");
    assert_eq!(redirect_target(Some("/connect")), "/connect");
}

#[test]
fn identify_with_valid_cookie() {
    let v = Player::from_id(ID).to_cookie_value();
    assert_eq!(identify(Some(&v), "/connect"), Ok(Player::from_id(ID)));
}

#[test]
fn identify_without_cookie_redirects() {
    assert_eq!(identify(None, "/connect"), Err("/create-session?redirect=/connect".to_string()));
    assert_eq!(identify(Some("garbage"), "/connect"), Err("/create-session?redirect=/connect".to_string()));
}

#[test]
fn fresh_player_is_version_four() {
    for _ in 0..8 {
        let id = Player::new().id;
        assert_eq!((id >> 76) & 15, 4);
        assert_eq!((id >> 62) & 3, 2);
        assert_eq!(Player::new().id_text().as_bytes()[14], b'4');
    }
}
