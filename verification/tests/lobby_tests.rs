use mo_de_backend::api::handlers::{health, room_state};
use mo_de_backend::error::AppError;
use mo_de_backend::game::engine::GameEngine;
use mo_de_backend::game::lobby::generate_room_id;
use mo_de_backend::game::random::new_uuid;
use mo_de_backend::game::state::{GameConfig, GamePhase};
use mo_de_backend::game::text::{push_int, push_nat};

fn bad_request(e: AppError) -> String {
    match e {
        AppError::BadRequest(m) => m,
        other => panic!("unexpected error {:?}", other),
    }
}

#[test]
fn room_codes_are_six_lowercase_alphanumerics() {
    let mut seen = std::collections::HashSet::new();
    for _ in 0..50 {
        let id = generate_room_id();
        assert_eq!(id.len(), 6);
        assert!(id.chars().all(|c| c.is_ascii_lowercase() || c.is_ascii_digit()));
        seen.insert(id);
    }
    assert!(seen.len() > 1);
}

#[test]
fn player_ids_are_version_four_uuids() {
    let a = new_uuid();
    let b = new_uuid();
    assert_ne!(a, b);
    assert_eq!(uuid::Uuid::from_u128(a).get_version_num(), 4);
}

#[test]
fn create_room_makes_host() {
    let (g, room_id, host) = GameEngine::create_room("Ana", GameConfig::default());
    assert_eq!(g.id, room_id);
    assert_eq!(g.players.len(), 1);
    let p = &g.players[0];
    assert_eq!(p.id, host);
    assert_eq!(p.name, "Ana");
    assert_eq!(p.color, "#FF5733");
    assert!(p.is_host && !p.is_bot);
    assert_eq!(p.balance, 1500);
    assert_eq!(g.phase, GamePhase::Lobby);
    assert_eq!(g.logs, vec!["Ana created the room".to_string()]);
}

#[test]
fn join_until_full() {
    let (mut g, _, _) = GameEngine::create_room("Ana", GameConfig::default());
    let b = GameEngine::join_room(&mut g, "Ben").unwrap();
    assert_eq!(g.players[1].id, b);
    assert_eq!(g.players[1].color, "#33FF57");
    assert_eq!(g.logs.last().unwrap(), "Ben joined the game");
    let bot = GameEngine::add_bot(&mut g).unwrap();
    assert_eq!(g.players[2].id, bot);
    assert_eq!(g.players[2].name, "Bot Alpha");
    assert!(g.players[2].is_bot);
    GameEngine::add_bot(&mut g).unwrap();
    assert_eq!(g.players[3].name, "Bot Beta");
    assert_eq!(g.players[3].color, "#FF33F5");
    let e = GameEngine::join_room(&mut g, "Cy").unwrap_err();
    assert_eq!(bad_request(e), "Room is full");
    assert_eq!(bad_request(GameEngine::add_bot(&mut g).unwrap_err()), "Room is full");
    assert_eq!(g.players.len(), 4);
}

#[test]
fn start_needs_two_players_and_lobby() {
    let (mut g, _, host) = GameEngine::create_room("Ana", GameConfig::default());
    assert_eq!(bad_request(GameEngine::start_game(&mut g).unwrap_err()), "Need at least 2 players");
    let b = GameEngine::join_room(&mut g, "Ben").unwrap();
    let out = GameEngine::start_game(&mut g).unwrap();
    assert!(out.broadcast_state);
    let mut order = g.turn_order.clone();
    order.sort();
    let mut expected = vec![host, b];
    expected.sort();
    assert_eq!(order, expected);
    assert_eq!(g.turn.unwrap().player_id, g.turn_order[0]);
    assert_eq!(bad_request(GameEngine::start_game(&mut g).unwrap_err()), "Game already started");
    assert_eq!(bad_request(GameEngine::join_room(&mut g, "Cy").unwrap_err()), "Game already started");
}

#[test]
fn shuffle_is_a_permutation() {
    let (mut g, _, _) = GameEngine::create_room("Ana", GameConfig::default());
    for name in ["B", "C", "D"] {
        GameEngine::join_room(&mut g, name).unwrap();
    }
    let mut ids: Vec<u128> = g.players.iter().map(|p| p.id).collect();
    let mut shuffled = GameEngine::shuffled_player_ids(&g);
    ids.sort();
    shuffled.sort();
    assert_eq!(ids, shuffled);
}

#[test]
fn starting_cash_follows_config() {
    let mut config = GameConfig::default();
    config.starting_cash = 2000;
    let mut g = GameEngine::new_room("r".to_string(), 1, "Ana", config);
    GameEngine::join_room_with_id(&mut g, "Ben", 2).unwrap();
    GameEngine::start_game_with_order(&mut g, vec![2, 1]).unwrap();
    assert!(g.players.iter().all(|p| p.balance == 2000));
    assert_eq!(g.turn.unwrap().player_id, 2);
}

#[test]
fn room_summary() {
    let mut g = GameEngine::new_room("abc123".to_string(), 1, "Ana", GameConfig::default());
    GameEngine::add_bot_with_id(&mut g, 2).unwrap();
    let r = room_state(&g, "abc123".to_string());
    assert_eq!(r.room_id, "abc123");
    assert_eq!(r.phase, "Lobby");
    assert_eq!(r.players.len(), 2);
    assert_eq!(r.players[1].name, "Bot Alpha");
    assert!(r.players[1].is_bot && r.players[0].is_host);
    assert_eq!(r.config.max_players, 4);
    assert_eq!(health(), "OK");
}

#[test]
fn logs_keep_the_last_hundred() {
    let mut g = GameEngine::new_room("r".to_string(), 1, "Ana", GameConfig::default());
    for i in 0..150 {
        g.log(format!("entry {}", i));
    }
    assert_eq!(g.logs.len(), 100);
    assert_eq!(g.logs[0], "entry 50");
    assert_eq!(g.logs[99], "entry 149");
}

#[test]
fn decimal_text() {
    let mut s = String::from("$");
    push_nat(&mut s, 1050);
    assert_eq!(s, "$1050");
    let mut s = String::new();
    push_int(&mut s, -2147483648);
    assert_eq!(s, "-2147483648");
    let mut s = String::new();
    push_int(&mut s, 0);
    assert_eq!(s, "0");
}
