use mo_de_backend::bot::decision::{BotAI, TradeDecision};
use mo_de_backend::bot::strategies::BotPersonality;
use mo_de_backend::game::bankruptcy::BankruptcyHandler;
use mo_de_backend::game::engine::GameEngine;
use mo_de_backend::game::state::{GameConfig, GameState, PropertyState, TradeAssets, TradeStatus};
use mo_de_backend::game::trade::TradeHandler;

const A: u128 = 1;
const B: u128 = 2;

fn game() -> GameState {
    let mut g = GameEngine::new_room("r".to_string(), A, "Ana", GameConfig::default());
    GameEngine::join_room_with_id(&mut g, "Ben", B).unwrap();
    GameEngine::start_game_with_order(&mut g, vec![A, B]).unwrap();
    g
}

fn own(g: &mut GameState, idx: u8, owner: u128) {
    let p = g.properties.get(&idx).copied().unwrap();
    g.properties.insert(idx, PropertyState { owner: Some(owner), ..p });
}

fn assets(money: u32, properties: Vec<u8>, cards: u8) -> TradeAssets {
    TradeAssets { money, properties, get_out_cards: cards }
}

#[test]
fn bankruptcy_to_creditor() {
    let mut g = game();
    own(&mut g, 1, A);
    own(&mut g, 39, A);
    g.properties.get_mut(&39).unwrap().is_mortgaged = true;
    g.players[0].balance = -20;
    g.players[0].get_out_cards = 1;
    assert!(BankruptcyHandler::is_bankrupt(&g, A));
    assert!(!BankruptcyHandler::is_bankrupt(&g, B));
    assert!(!BankruptcyHandler::is_bankrupt(&g, 77));
    BankruptcyHandler::handle_bankruptcy(&mut g, A, Some(B));
    assert!(g.players[0].is_bankrupt);
    assert_eq!(g.players[0].balance, 0);
    assert_eq!(g.players[0].get_out_cards, 0);
    assert_eq!(g.players[1].get_out_cards, 1);
    assert_eq!(g.properties[&1].owner, Some(B));
    assert_eq!(g.properties[&39].owner, Some(B));
    assert!(g.properties[&39].is_mortgaged);
    let n = g.logs.len();
    assert_eq!(g.logs[n - 2], "Player Ana has gone BANKRUPT!");
    assert_eq!(g.logs[n - 1], "All assets transferred to Ben.");
}

#[test]
fn bankruptcy_to_bank() {
    let mut g = game();
    own(&mut g, 1, A);
    g.properties.get_mut(&1).unwrap().houses = 3;
    BankruptcyHandler::handle_bankruptcy(&mut g, A, None);
    assert_eq!(g.properties[&1].owner, None);
    assert_eq!(g.properties[&1].houses, 0);
    assert_eq!(g.logs.last().unwrap(), "Assets returned to the Bank.");
    BankruptcyHandler::handle_bankruptcy(&mut g, 77, None);
    assert!(g.logs.iter().any(|l| l == "Player Unknown has gone BANKRUPT!"));
}

#[test]
fn trade_round() {
    let mut g = game();
    own(&mut g, 1, A);
    own(&mut g, 3, B);
    g.players[1].get_out_cards = 1;
    let offer = TradeHandler::create_offer(&mut g, A, B, assets(100, vec![1], 0), assets(0, vec![3], 1)).unwrap();
    assert_eq!(offer.status, TradeStatus::Pending);
    assert_eq!(g.active_trade.as_ref().unwrap().id, offer.id);
    let e = TradeHandler::create_offer(&mut g, A, B, assets(0, vec![], 0), assets(0, vec![], 0)).unwrap_err();
    assert_eq!(e, "There is already a pending trade in this room.");
    assert_eq!(TradeHandler::accept_trade(&mut g, offer.id + 1).unwrap_err(), "Trade offer not found or expired.");
    TradeHandler::accept_trade(&mut g, offer.id).unwrap();
    assert_eq!(g.properties[&1].owner, Some(B));
    assert_eq!(g.properties[&3].owner, Some(A));
    assert_eq!(g.players[0].balance, 1400);
    assert_eq!(g.players[1].balance, 1600);
    assert_eq!(g.players.iter().map(|p| p.balance).sum::<i32>(), 3000);
    assert_eq!(g.players[0].get_out_cards, 1);
    assert_eq!(g.players[1].get_out_cards, 0);
    assert!(g.active_trade.is_none());
    assert_eq!(g.logs.last().unwrap(), "Trade completed successfully.");
}

#[test]
fn trade_refusals() {
    let mut g = game();
    own(&mut g, 1, A);
    let e = TradeHandler::create_offer(&mut g, A, B, assets(0, vec![3], 0), assets(0, vec![], 0)).unwrap_err();
    assert_eq!(e, "You do not own all the offered assets.");
    let e = TradeHandler::create_offer(&mut g, A, B, assets(0, vec![1], 0), assets(5000, vec![], 0)).unwrap_err();
    assert_eq!(e, "Target player does not own all the requested assets.");
    g.properties.get_mut(&1).unwrap().houses = 1;
    let e = TradeHandler::create_offer(&mut g, A, B, assets(0, vec![1], 0), assets(0, vec![], 0)).unwrap_err();
    assert_eq!(e, "You do not own all the offered assets.");
    g.properties.get_mut(&1).unwrap().houses = 0;
    let offer = TradeHandler::create_offer(&mut g, A, B, assets(0, vec![1], 0), assets(0, vec![], 0)).unwrap();
    // the offered property changes hands before the answer
    own(&mut g, 1, B);
    let e = TradeHandler::accept_trade(&mut g, offer.id).unwrap_err();
    assert_eq!(e, "Offer side assets no longer available.");
    assert!(g.active_trade.is_none());
    assert_eq!(TradeHandler::reject_trade(&mut g, offer.id).unwrap_err(), "Trade not found.");
}

#[test]
fn trade_rejected() {
    let mut g = game();
    let offer = TradeHandler::create_offer(&mut g, A, B, assets(10, vec![], 0), assets(0, vec![], 0)).unwrap();
    TradeHandler::reject_trade(&mut g, offer.id).unwrap();
    assert!(g.active_trade.is_none());
    assert_eq!(g.logs.last().unwrap(), "Trade offer rejected.");
}

#[test]
fn bot_buying() {
    let mut g = game();
    // Orange (priority 5), none owned: 60% of 1500 = 900
    assert!(BotAI::should_buy(&g, B, 19));
    g.players[1].balance = 300;
    // 60% of 300 = 180 < 200
    assert!(!BotAI::should_buy(&g, B, 19));
    own(&mut g, 16, B);
    own(&mut g, 18, B);
    // completing the set: 80% of 300 = 240 >= 200
    assert!(BotAI::should_buy(&g, B, 19));
    assert!(!BotAI::should_buy(&g, B, 0));
    assert!(!BotAI::should_buy(&g, 77, 19));
    assert_eq!(BotAI::get_priorities().len(), 10);
}

#[test]
fn bot_auction_factors() {
    let mut g = game();
    own(&mut g, 1, A);
    let f = BotAI::max_bid_factors(&g, B, 3).unwrap();
    assert_eq!(f.price, 60);
    assert!(!f.would_complete_set); // none of the two owned
    assert!(f.blocks_opponent);
    assert_eq!(f.priority, 2);
    assert_eq!(f.balance, 1500);
    assert!(BotAI::max_bid_factors(&g, B, 0).is_none());
}

#[test]
fn bot_building() {
    let mut g = game();
    assert!(BotAI::get_build_targets(&g, B).is_empty());
    own(&mut g, 1, B);
    own(&mut g, 3, B);
    own(&mut g, 16, B);
    own(&mut g, 18, B);
    own(&mut g, 19, B);
    g.properties.get_mut(&16).unwrap().houses = 1;
    assert_eq!(BotAI::get_build_targets(&g, B), vec![18, 1]);
    g.properties.get_mut(&1).unwrap().is_mortgaged = true;
    assert_eq!(BotAI::get_build_targets(&g, B), vec![18]);
    assert!(BotAI::get_build_targets(&g, 77).is_empty());
}

#[test]
fn bot_jail_and_values() {
    let mut g = game();
    assert!(BotAI::should_pay_jail(&g, B));
    for idx in [1u8, 3, 5, 6, 8, 9, 11, 12, 13, 14, 15, 16, 18, 19, 21] {
        own(&mut g, idx, A);
    }
    // 15 of 28 owned: no longer early
    assert!(BotAI::should_pay_jail(&g, B));
    g.players[1].get_out_cards = 1;
    assert!(!BotAI::should_pay_jail(&g, B));
    g.players[1].balance = 150;
    assert!(!BotAI::should_pay_jail(&g, B));
    assert!(!BotAI::should_pay_jail(&g, 77));
    // Property values
    assert_eq!(BotAI::calculate_property_value(&g, B, 39), 600);
    own(&mut g, 37, B);
    assert_eq!(BotAI::calculate_property_value(&g, B, 39), 1000);
    assert_eq!(BotAI::calculate_property_value(&g, A, 1), 30);
    assert_eq!(BotAI::calculate_property_value(&g, B, 0), 0);
    assert_eq!(BotAI::calculate_property_value(&g, B, 45), 0);
    assert_eq!(BotPersonality::default().build_threshold(), 250);
    assert_eq!(BotPersonality::Aggressive.build_threshold(), 100);
    assert_ne!(TradeDecision::Accept, TradeDecision::Reject);
}
