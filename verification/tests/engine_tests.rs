use mo_de_backend::error::AppError;
use mo_de_backend::game::engine::{BotStep, GameEngine};
use mo_de_backend::game::events::{ClientEvent, ServerEvent};
use mo_de_backend::game::state::{GameConfig, GamePhase, GameState, PropertyState, TurnPhase, TurnState};

const A: u128 = 1;
const B: u128 = 2;

fn two_player_game() -> GameState {
    let mut g = GameEngine::new_room("room01".to_string(), A, "Ana", GameConfig::default());
    GameEngine::join_room_with_id(&mut g, "Ben", B).unwrap();
    GameEngine::start_game_with_order(&mut g, vec![A, B]).unwrap();
    g
}

fn owned(g: &mut GameState, idx: u8, owner: u128) {
    let p = g.properties.get(&idx).copied().unwrap();
    g.properties.insert(idx, PropertyState { owner: Some(owner), ..p });
}

fn turn_complete(g: &mut GameState) {
    let t = g.turn.unwrap();
    g.turn = Some(TurnState { phase: TurnPhase::TurnEnd, ..t });
}

fn game_error(e: AppError) -> String {
    match e {
        AppError::GameError(m) => m,
        other => panic!("unexpected error {:?}", other),
    }
}

#[test]
fn start_gives_cash_and_first_turn() {
    let g = two_player_game();
    assert_eq!(g.phase, GamePhase::Playing);
    assert_eq!(g.turn_order, vec![A, B]);
    let t = g.turn.unwrap();
    assert_eq!(t.player_id, A);
    assert_eq!(t.phase, TurnPhase::WaitingForRoll);
    assert!(g.players.iter().all(|p| p.balance == 1500));
    assert_eq!(g.logs.last().unwrap(), "Game started!");
    assert_eq!(g.properties.len(), 28);
}

#[test]
fn roll_moves_and_offers_purchase() {
    let mut g = two_player_game();
    let out = GameEngine::apply_roll(&mut g, 2, 1).unwrap();
    assert!(out.broadcast_state);
    assert_eq!(g.players[0].position, 3);
    assert_eq!(g.turn.unwrap().phase, TurnPhase::BuyDecision);
    assert!(matches!(out.events[0], ServerEvent::DiceResult { player_id: A, dice: (2, 1), is_doubles: false }));
    assert!(matches!(out.events[1], ServerEvent::PlayerMoved { player_id: A, from: 0, to: 3, passed_go: false }));
}

#[test]
fn roll_twice_is_refused() {
    let mut g = two_player_game();
    GameEngine::apply_roll(&mut g, 2, 1).unwrap();
    let e = GameEngine::apply_roll(&mut g, 2, 1).unwrap_err();
    assert!(e.events.is_empty());
    assert_eq!(game_error(e.error), "Cannot roll now");
}

#[test]
fn passing_go_pays_200() {
    let mut g = two_player_game();
    g.players[0].position = 38;
    GameEngine::apply_roll(&mut g, 2, 1).unwrap();
    assert_eq!(g.players[0].position, 1);
    assert_eq!(g.players[0].balance, 1700);
    assert!(g.logs.iter().any(|l| l == "Ana passed GO and collected $200"));
}

#[test]
fn third_doubles_sends_to_jail() {
    let mut g = two_player_game();
    g.turn = Some(TurnState { doubles_count: 2, ..g.turn.unwrap() });
    let out = GameEngine::apply_roll(&mut g, 3, 3).unwrap();
    assert!(g.players[0].in_jail);
    assert_eq!(g.players[0].position, 10);
    let t = g.turn.unwrap();
    assert_eq!(t.phase, TurnPhase::TurnEnd);
    assert_eq!(t.doubles_count, 0);
    assert!(!t.can_roll_again);
    assert!(matches!(out.events[1], ServerEvent::PlayerJailed { player_id: A }));
    assert!(!out.broadcast_state);
}

#[test]
fn doubles_give_another_roll() {
    let mut g = two_player_game();
    GameEngine::apply_roll(&mut g, 3, 3).unwrap();
    assert_eq!(g.players[0].position, 6);
    assert!(g.turn.unwrap().can_roll_again);
    GameEngine::buy_property(&mut g).unwrap();
    let out = GameEngine::end_turn(&mut g).unwrap();
    assert!(out.events.is_empty());
    let t = g.turn.unwrap();
    assert_eq!(t.player_id, A);
    assert_eq!(t.phase, TurnPhase::WaitingForRoll);
}

#[test]
fn jail_escape_by_doubles() {
    let mut g = two_player_game();
    g.players[0].in_jail = true;
    g.players[0].position = 10;
    let out = GameEngine::apply_roll(&mut g, 1, 1).unwrap();
    assert!(!g.players[0].in_jail);
    assert_eq!(g.players[0].position, 12);
    match &out.events[1] {
        ServerEvent::PlayerFreed { player_id, method } => {
            assert_eq!(*player_id, A);
            assert_eq!(method, "dice");
        }
        other => panic!("unexpected {:?}", other),
    }
}

#[test]
fn jail_failed_roll_ends_turn() {
    let mut g = two_player_game();
    g.players[0].in_jail = true;
    g.players[0].position = 10;
    let out = GameEngine::apply_roll(&mut g, 1, 2).unwrap();
    assert!(g.players[0].in_jail);
    assert_eq!(g.players[0].jail_turns, 1);
    assert_eq!(g.players[0].position, 10);
    assert_eq!(g.turn.unwrap().phase, TurnPhase::TurnEnd);
    assert_eq!(out.events.len(), 1);
    assert_eq!(g.logs.last().unwrap(), "Ana failed to roll doubles in jail");
}

#[test]
fn third_jail_failure_forces_bail() {
    let mut g = two_player_game();
    g.players[0].in_jail = true;
    g.players[0].position = 10;
    g.players[0].jail_turns = 2;
    GameEngine::apply_roll(&mut g, 1, 2).unwrap();
    assert!(!g.players[0].in_jail);
    assert_eq!(g.players[0].jail_turns, 0);
    assert_eq!(g.players[0].position, 13);
    assert_eq!(g.players[0].balance, 1450);
}

#[test]
fn pay_jail_frees_for_fifty() {
    let mut g = two_player_game();
    assert_eq!(game_error(GameEngine::pay_jail(&mut g).unwrap_err()), "Not in jail");
    g.players[0].in_jail = true;
    let out = GameEngine::pay_jail(&mut g).unwrap();
    assert!(!g.players[0].in_jail);
    assert_eq!(g.players[0].balance, 1450);
    assert_eq!(g.turn.unwrap().phase, TurnPhase::WaitingForRoll);
    assert!(matches!(&out.events[0], ServerEvent::PlayerFreed { method, .. } if method == "paid"));
    g.players[0].in_jail = true;
    g.players[0].balance = 49;
    assert_eq!(game_error(GameEngine::pay_jail(&mut g).unwrap_err()), "Not enough money");
}

#[test]
fn buy_property_transfers_ownership() {
    let mut g = two_player_game();
    GameEngine::apply_roll(&mut g, 2, 1).unwrap();
    let out = GameEngine::buy_property(&mut g).unwrap();
    assert_eq!(g.players[0].balance, 1440);
    assert_eq!(g.properties[&3].owner, Some(A));
    assert_eq!(g.turn.unwrap().phase, TurnPhase::TurnEnd);
    assert!(matches!(out.events[0], ServerEvent::PropertyBought { tile_idx: 3, player_id: A, price: 60 }));
    assert_eq!(g.logs.last().unwrap(), "Ana bought Rio for $60");
}

#[test]
fn buy_without_money_is_refused() {
    let mut g = two_player_game();
    GameEngine::apply_roll(&mut g, 2, 1).unwrap();
    g.players[0].balance = 59;
    let e = GameEngine::buy_property(&mut g).unwrap_err();
    assert_eq!(game_error(e), "Not enough money");
    assert_eq!(g.properties[&3].owner, None);
}

#[test]
fn rent_is_paid_to_owner() {
    let mut g = two_player_game();
    owned(&mut g, 3, B);
    GameEngine::apply_roll(&mut g, 2, 1).unwrap();
    assert_eq!(g.players[0].balance, 1496);
    assert_eq!(g.players[1].balance, 1504);
    assert_eq!(g.turn.unwrap().phase, TurnPhase::TurnEnd);
    assert_eq!(g.logs.last().unwrap(), "Ana paid $4 to Ben for rent on Rio");
}

#[test]
fn rent_doubles_with_full_set_and_follows_houses() {
    let mut g = two_player_game();
    owned(&mut g, 1, B);
    owned(&mut g, 3, B);
    assert_eq!(GameEngine::calculate_rent(&g, 3), 8);
    g.properties.get_mut(&3).unwrap().houses = 2;
    assert_eq!(GameEngine::calculate_rent(&g, 3), 60);
    g.properties.get_mut(&3).unwrap().houses = 5;
    assert_eq!(GameEngine::calculate_rent(&g, 3), 450);
    g.properties.get_mut(&3).unwrap().is_mortgaged = true;
    assert_eq!(GameEngine::calculate_rent(&g, 3), 0);
    assert_eq!(GameEngine::calculate_rent(&g, 6), 0);
    assert_eq!(GameEngine::calculate_rent(&g, 45), 0);
}

#[test]
fn railroad_and_utility_rent() {
    let mut g = two_player_game();
    owned(&mut g, 5, B);
    assert_eq!(GameEngine::calculate_rent(&g, 5), 25);
    owned(&mut g, 15, B);
    owned(&mut g, 25, B);
    assert_eq!(GameEngine::calculate_rent(&g, 5), 100);
    owned(&mut g, 12, B);
    g.turn = Some(TurnState { dice: Some((3, 4)), ..g.turn.unwrap() });
    assert_eq!(GameEngine::calculate_rent(&g, 12), 28);
    owned(&mut g, 28, B);
    assert_eq!(GameEngine::calculate_rent(&g, 12), 70);
    g.turn = None;
    assert_eq!(GameEngine::calculate_rent(&g, 12), 70);
}

#[test]
fn no_rent_from_owner_in_jail() {
    let mut g = two_player_game();
    owned(&mut g, 3, B);
    g.players[1].in_jail = true;
    GameEngine::apply_roll(&mut g, 2, 1).unwrap();
    assert_eq!(g.players[0].balance, 1500);
}

#[test]
fn tax_and_jackpot() {
    let mut config = GameConfig::default();
    config.free_parking_jackpot = true;
    let mut g = GameEngine::new_room("room02".to_string(), A, "Ana", config);
    GameEngine::join_room_with_id(&mut g, "Ben", B).unwrap();
    GameEngine::start_game_with_order(&mut g, vec![A, B]).unwrap();
    GameEngine::apply_roll(&mut g, 3, 1).unwrap();
    assert_eq!(g.players[0].balance, 1300);
    assert_eq!(g.pot_money, 200);
    assert_eq!(g.logs.last().unwrap(), "Ana paid $200 tax");
    g.turn = Some(TurnState::new(A));
    g.players[0].position = 16;
    GameEngine::apply_roll(&mut g, 3, 1).unwrap();
    assert_eq!(g.players[0].position, 20);
    assert_eq!(g.players[0].balance, 1500);
    assert_eq!(g.pot_money, 0);
    assert_eq!(g.logs.last().unwrap(), "Ana collected $200 from Free Parking!");
}

#[test]
fn go_to_jail_tile() {
    let mut g = two_player_game();
    g.players[0].position = 27;
    GameEngine::apply_roll(&mut g, 1, 2).unwrap();
    assert!(g.players[0].in_jail);
    assert_eq!(g.players[0].position, 10);
    assert_eq!(g.logs.last().unwrap(), "Ana was sent to jail!");
}

#[test]
fn auction_flow() {
    let mut g = two_player_game();
    GameEngine::apply_roll(&mut g, 2, 1).unwrap();
    let out = GameEngine::start_auction(&mut g).unwrap();
    assert!(matches!(out.events[0], ServerEvent::AuctionStart { tile_idx: 3, starting_price: 0 }));
    assert_eq!(g.turn.unwrap().phase, TurnPhase::Auction);
    GameEngine::place_bid(&mut g, B, 30).unwrap();
    let e = GameEngine::place_bid(&mut g, A, 30).unwrap_err();
    assert_eq!(game_error(e), "Bid must be higher");
    let e = GameEngine::place_bid(&mut g, A, 5000).unwrap_err();
    assert_eq!(game_error(e), "Not enough money");
    let out = GameEngine::pass_bid(&mut g, A).unwrap();
    assert!(g.auction.is_none());
    assert_eq!(g.properties[&3].owner, Some(B));
    assert_eq!(g.players[1].balance, 1470);
    assert!(matches!(out.events[1], ServerEvent::AuctionEnd { tile_idx: 3, winner: Some(B), amount: 30 }));
    assert_eq!(g.turn.unwrap().phase, TurnPhase::TurnEnd);
    assert_eq!(g.logs.last().unwrap(), "Ben won Rio at auction for $30");
}

#[test]
fn auction_without_bids() {
    let mut g = two_player_game();
    GameEngine::apply_roll(&mut g, 2, 1).unwrap();
    GameEngine::start_auction(&mut g).unwrap();
    GameEngine::pass_bid(&mut g, A).unwrap();
    assert_eq!(g.properties[&3].owner, None);
    assert_eq!(g.logs.last().unwrap(), "Auction for Rio ended with no bids");
}

#[test]
fn declining_without_auctions_ends_turn() {
    let mut config = GameConfig::default();
    config.auction_on_decline = false;
    let mut g = GameEngine::new_room("room03".to_string(), A, "Ana", config);
    GameEngine::join_room_with_id(&mut g, "Ben", B).unwrap();
    GameEngine::start_game_with_order(&mut g, vec![A, B]).unwrap();
    GameEngine::apply_roll(&mut g, 2, 1).unwrap();
    let out = GameEngine::start_auction(&mut g).unwrap();
    assert!(out.events.is_empty());
    assert!(g.auction.is_none());
    assert_eq!(g.turn.unwrap().phase, TurnPhase::TurnEnd);
}

#[test]
fn end_turn_passes_to_next_player() {
    let mut g = two_player_game();
    GameEngine::apply_roll(&mut g, 2, 1).unwrap();
    GameEngine::start_auction(&mut g).unwrap();
    GameEngine::pass_bid(&mut g, A).unwrap();
    let out = GameEngine::end_turn(&mut g).unwrap();
    assert!(matches!(out.events[0], ServerEvent::TurnChanged { player_id: B }));
    assert_eq!(g.turn.unwrap().player_id, B);
    assert_eq!(g.logs.last().unwrap(), "Ben's turn");
    assert_eq!(g.next_player_id(), Some(A));
}

#[test]
fn last_player_standing_wins() {
    let mut g = two_player_game();
    g.players[1].is_bankrupt = true;
    assert_eq!(g.active_player_count(), 1);
    turn_complete(&mut g);
    let out = GameEngine::end_turn(&mut g).unwrap();
    assert_eq!(g.phase, GamePhase::GameOver);
    assert!(matches!(out.events[0], ServerEvent::GameOver { winner: A }));
    assert_eq!(g.logs.last().unwrap(), "Ana wins the game!");
}

#[test]
fn no_next_player() {
    let mut g = two_player_game();
    g.players[0].is_bankrupt = true;
    g.players[1].is_bankrupt = true;
    turn_complete(&mut g);
    let e = GameEngine::end_turn(&mut g).unwrap_err();
    assert_eq!(game_error(e), "No next player");
}

#[test]
fn building_rules() {
    let mut g = two_player_game();
    assert_eq!(game_error(GameEngine::build_house(&mut g, A, 3).unwrap_err()), "Must own full color set");
    assert_eq!(game_error(GameEngine::build_house(&mut g, A, 5).unwrap_err()), "Cannot build on this tile");
    assert_eq!(game_error(GameEngine::build_house(&mut g, A, 41).unwrap_err()), "Invalid tile");
    owned(&mut g, 1, A);
    owned(&mut g, 3, A);
    let out = GameEngine::build_house(&mut g, A, 3).unwrap();
    assert!(matches!(out.events[0], ServerEvent::BuildingBuilt { tile_idx: 3, player_id: A, houses: 1 }));
    assert_eq!(g.players[0].balance, 1450);
    assert_eq!(g.logs.last().unwrap(), "Ana built a house on Rio");
    // even building: Salvador must catch up first
    let e = GameEngine::build_house(&mut g, A, 3).unwrap_err();
    assert_eq!(game_error(e), "Must build evenly across the color set");
    GameEngine::build_house(&mut g, A, 1).unwrap();
    for _ in 0..4 {
        GameEngine::build_house(&mut g, A, 3).unwrap();
        GameEngine::build_house(&mut g, A, 1).unwrap();
    }
    assert_eq!(g.properties[&3].houses, 5);
    assert!(g.logs.iter().any(|l| l == "Ana built a hotel on Rio"));
    assert_eq!(game_error(GameEngine::build_house(&mut g, A, 3).unwrap_err()), "Already at max buildings");
}

#[test]
fn mortgage_round_trip() {
    let mut g = two_player_game();
    owned(&mut g, 39, A);
    let e = GameEngine::mortgage_property(&mut g, B, 39).unwrap_err();
    assert_eq!(game_error(e), "You don't own this property");
    GameEngine::mortgage_property(&mut g, A, 39).unwrap();
    assert!(g.properties[&39].is_mortgaged);
    assert_eq!(g.players[0].balance, 1700);
    assert_eq!(g.logs.last().unwrap(), "Ana mortgaged Tokyo for $200");
    assert_eq!(game_error(GameEngine::mortgage_property(&mut g, A, 39).unwrap_err()), "Already mortgaged");
    GameEngine::unmortgage_property(&mut g, A, 39).unwrap();
    assert!(!g.properties[&39].is_mortgaged);
    assert_eq!(g.players[0].balance, 1480);
    assert_eq!(g.logs.last().unwrap(), "Ana unmortgaged Tokyo for $220");
    assert_eq!(game_error(GameEngine::unmortgage_property(&mut g, A, 39).unwrap_err()), "Not mortgaged");
    assert_eq!(game_error(GameEngine::mortgage_property(&mut g, A, 0).unwrap_err()), "Not a property");
}

#[test]
fn unmortgage_rounds_down() {
    let mut g = two_player_game();
    owned(&mut g, 12, A);
    GameEngine::mortgage_property(&mut g, A, 12).unwrap();
    GameEngine::unmortgage_property(&mut g, A, 12).unwrap();
    // 75 + 10% = 82.5, rounded down
    assert_eq!(g.players[0].balance, 1500 + 75 - 82);
}

#[test]
fn mortgage_refused_with_buildings() {
    let mut g = two_player_game();
    owned(&mut g, 1, A);
    g.properties.get_mut(&1).unwrap().houses = 1;
    let e = GameEngine::mortgage_property(&mut g, A, 1).unwrap_err();
    assert_eq!(game_error(e), "Must sell buildings first");
}

#[test]
fn events_check_turn() {
    let mut g = two_player_game();
    let e = GameEngine::handle_event(&mut g, B, ClientEvent::RollDice).unwrap_err();
    assert!(e.events.is_empty());
    assert!(matches!(e.error, AppError::Forbidden(ref m) if m == "Not your turn"));
    let out = GameEngine::handle_event(&mut g, A, ClientEvent::RollDice).unwrap();
    match out.events[0] {
        ServerEvent::DiceResult { dice: (d1, d2), .. } => {
            assert!((1..=6).contains(&d1) && (1..=6).contains(&d2));
        }
        _ => panic!("no dice"),
    }
    let out = GameEngine::handle_event(&mut g, B, ClientEvent::Chat { message: "hi".to_string() }).unwrap();
    match &out.events[0] {
        ServerEvent::Chat { from, from_name, message } => {
            assert_eq!(*from, B);
            assert_eq!(from_name, "Ben");
            assert_eq!(message, "hi");
        }
        _ => panic!("no chat"),
    }
    let out = GameEngine::handle_event(&mut g, 99, ClientEvent::Chat { message: "x".to_string() }).unwrap();
    assert!(matches!(&out.events[0], ServerEvent::Chat { from_name, .. } if from_name == "Unknown"));
    let out = GameEngine::handle_event(&mut g, A, ClientEvent::UseCard).unwrap();
    assert!(out.events.is_empty());
}

#[test]
fn dice_are_fair_range() {
    for _ in 0..200 {
        let d = mo_de_backend::game::random::roll_die();
        assert!((1..=6).contains(&d));
    }
}

#[test]
fn bot_steps() {
    let mut g = GameEngine::new_room("room04".to_string(), A, "Ana", GameConfig::default());
    GameEngine::add_bot_with_id(&mut g, B).unwrap();
    GameEngine::start_game_with_order(&mut g, vec![B, A]).unwrap();
    assert_eq!(GameEngine::bot_step(&g), BotStep::Roll);
    GameEngine::apply_roll(&mut g, 2, 1).unwrap();
    assert_eq!(GameEngine::bot_step(&g), BotStep::Buy);
    g.players[1].balance = 80;
    assert_eq!(GameEngine::bot_step(&g), BotStep::StartAuction);
    GameEngine::start_auction(&mut g).unwrap();
    assert_eq!(GameEngine::bot_step(&g), BotStep::PassBid(B));
    assert!(!BotStep::PassBid(B).continues());
    assert!(BotStep::Roll.continues());
    g.turn = Some(TurnState::new(A));
    assert_eq!(GameEngine::bot_step(&g), BotStep::Stop);
}

#[test]
fn events_checked_against_the_safe_range() {
    let mut g = two_player_game();
    assert!(GameEngine::event_in_range(&g, A, &ClientEvent::RollDice));
    assert!(GameEngine::event_in_range(&g, B, &ClientEvent::PassBid));
    g.players[1].balance = 1_000_000_000;
    assert!(GameEngine::event_in_range(&g, A, &ClientEvent::Mortgage { tile_idx: 1 }));
    g.players[1].balance = 1_000_000_001;
    assert!(!GameEngine::event_in_range(&g, A, &ClientEvent::RollDice));
    g.players[1].balance = 1500;
    g.pot_money = -1_000_000_001;
    assert!(!GameEngine::event_in_range(&g, A, &ClientEvent::EndTurn));
    g.pot_money = 0;
    for p in g.players.iter_mut() {
        p.is_bankrupt = true;
    }
    assert!(!GameEngine::event_in_range(&g, A, &ClientEvent::PassBid));
    assert!(GameEngine::event_in_range(&g, A, &ClientEvent::RollDice));
}

#[test]
fn end_turn_only_once_the_turn_is_complete() {
    let mut g = two_player_game();
    let before = g.turn.unwrap();
    let e = GameEngine::end_turn(&mut g).unwrap_err();
    assert_eq!(game_error(e), "Cannot end turn now");
    assert_eq!(g.turn.unwrap().player_id, before.player_id);
    assert_eq!(g.turn.unwrap().phase, TurnPhase::WaitingForRoll);
    GameEngine::apply_roll(&mut g, 2, 1).unwrap();
    assert_eq!(g.turn.unwrap().phase, TurnPhase::BuyDecision);
    assert_eq!(game_error(GameEngine::end_turn(&mut g).unwrap_err()), "Cannot end turn now");
    GameEngine::start_auction(&mut g).unwrap();
    assert_eq!(g.turn.unwrap().phase, TurnPhase::Auction);
    assert_eq!(game_error(GameEngine::end_turn(&mut g).unwrap_err()), "Cannot end turn now");
    g.turn = None;
    assert_eq!(game_error(GameEngine::end_turn(&mut g).unwrap_err()), "No active turn");
}

#[test]
fn next_player_follows_the_current_place() {
    const C: u128 = 3;
    let mut g = GameEngine::new_room("room02".to_string(), A, "Ana", GameConfig::default());
    GameEngine::join_room_with_id(&mut g, "Ben", B).unwrap();
    GameEngine::join_room_with_id(&mut g, "Cai", C).unwrap();
    GameEngine::start_game_with_order(&mut g, vec![A, B, C]).unwrap();
    assert_eq!(g.next_player_id(), Some(B));
    g.players[0].is_bankrupt = true;
    assert_eq!(g.next_player_id(), Some(B));
    g.players[1].is_bankrupt = true;
    assert_eq!(g.next_player_id(), Some(C));
    g.turn = Some(TurnState::new(C));
    assert_eq!(g.next_player_id(), Some(C));
    g.players[0].is_bankrupt = false;
    assert_eq!(g.next_player_id(), Some(A));
    // A turn whose player is not in the order goes after the first active player
    g.turn = Some(TurnState::new(99));
    assert_eq!(g.next_player_id(), Some(C));
    g.players[1].is_bankrupt = false;
    assert_eq!(g.next_player_id(), Some(B));
    g.turn = None;
    assert_eq!(g.next_player_id(), Some(B));
    g.players[0].is_bankrupt = true;
    g.players[1].is_bankrupt = true;
    assert_eq!(g.next_player_id(), Some(C));
}

#[test]
fn roll_by_a_missing_player_still_shows_the_dice() {
    let mut g = two_player_game();
    g.turn = Some(TurnState::new(99));
    let before = g.clone();
    let e = GameEngine::apply_roll(&mut g, 4, 2).unwrap_err();
    assert_eq!(game_error(e.error), "Player not found");
    assert_eq!(e.events.len(), 1);
    assert!(matches!(e.events[0], ServerEvent::DiceResult { player_id: 99, dice: (4, 2), is_doubles: false }));
    assert_eq!(g.turn.unwrap().phase, before.turn.unwrap().phase);
    assert!(g.turn.unwrap().dice.is_none());
}
