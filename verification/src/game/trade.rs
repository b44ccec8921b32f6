//! Trades between players: money, properties and Get Out of Jail cards.

use vstd::prelude::*;
use vstd::string::*;

use super::random::new_uuid;
use super::rules::{lemma_player_index, set_player, with_balance};
use super::state::{
    log_game, player_index, AssetsView, GameState, GameView, OfferView, Player, PlayerId,
    PropertyState, TradeAssets, TradeOffer, TradeStatus,
};

verus! {

broadcast use vstd::std_specs::hash::group_hash_axioms;

pub struct TradeHandler;

/// A player holds the assets: the money, every listed property (unbuilt), and the cards.
pub open spec fn assets_valid(g: GameView, player_id: PlayerId, a: AssetsView) -> bool {
    match player_index(g.players, player_id) {
        None => false,
        Some(i) => {
            let p = g.players[i];
            &&& p.balance >= a.money as i32
            &&& forall|k: int|
                0 <= k < a.properties.len() ==> {
                    let idx = #[trigger] a.properties[k];
                    &&& g.properties.contains_key(idx)
                    &&& g.properties[idx].owner == Some(player_id)
                    &&& g.properties[idx].houses == 0
                }
            &&& p.get_out_cards >= a.get_out_cards
        },
    }
}

/// Proposing a trade: each side must hold what it gives, and only one trade
/// may be pending in a room.
pub open spec fn create_offer(
    g: GameView,
    from: PlayerId,
    to: PlayerId,
    offering: AssetsView,
    requesting: AssetsView,
    id: u128,
) -> Result<(GameView, OfferView), Seq<char>> {
    if !assets_valid(g, from, offering) {
        Err("You do not own all the offered assets."@)
    } else if !assets_valid(g, to, requesting) {
        Err("Target player does not own all the requested assets."@)
    } else if g.active_trade is Some {
        Err("There is already a pending trade in this room."@)
    } else {
        let o = OfferView {
            id,
            from_player: from,
            to_player: to,
            offering,
            requesting,
            status: TradeStatus::Pending,
        };
        Ok((GameView { active_trade: Some(o), ..g }, o))
    }
}

/// The game once the money of a trade side has moved between players `fi` and `ti`.
pub open spec fn move_money(g: GameView, fi: Option<int>, ti: Option<int>, money: u32) -> GameView {
    if money > 0 {
        let g1 = match fi {
            Some(i) => set_player(g, i, with_balance(g.players[i], g.players[i].balance - (money as i32))),
            None => g,
        };
        match ti {
            Some(j) => set_player(
                g1,
                j,
                with_balance(g1.players[j], g1.players[j].balance + (money as i32)),
            ),
            None => g1,
        }
    } else {
        g
    }
}

/// The property table once the listed properties belong to `to`.
pub open spec fn move_properties(props: Map<u8, PropertyState>, to: PlayerId, list: Seq<u8>) -> Map<
    u8,
    PropertyState,
> {
    Map::new(
        |k: u8| props.contains_key(k),
        |k: u8|
            if list.contains(k) {
                PropertyState { owner: Some(to), ..props[k] }
            } else {
                props[k]
            },
    )
}

/// The game once the cards of a trade side have moved between players `fi` and `ti`.
pub open spec fn move_cards(g: GameView, fi: Option<int>, ti: Option<int>, cards: u8) -> GameView {
    if cards > 0 {
        let g1 = match fi {
            Some(i) => set_player(
                g,
                i,
                Player { get_out_cards: (g.players[i].get_out_cards - cards) as u8, ..g.players[i] },
            ),
            None => g,
        };
        match ti {
            Some(j) => set_player(
                g1,
                j,
                Player { get_out_cards: (g1.players[j].get_out_cards + cards) as u8, ..g1.players[j] },
            ),
            None => g1,
        }
    } else {
        g
    }
}

/// One side of a trade: `from` hands its assets to `to`.
pub open spec fn transfer_assets(g: GameView, from: PlayerId, to: PlayerId, a: AssetsView) -> GameView {
    let fi = player_index(g.players, from);
    let ti = player_index(g.players, to);
    let g1 = move_money(g, fi, ti, a.money);
    let g2 = GameView { properties: move_properties(g1.properties, to, a.properties), ..g1 };
    move_cards(g2, fi, ti, a.get_out_cards)
}

/// One side of a trade keeps balances and card counts within their types.
pub open spec fn transfer_fits(g: GameView, from: PlayerId, to: PlayerId, a: AssetsView) -> bool {
    let fi = player_index(g.players, from);
    let ti = player_index(g.players, to);
    let money = a.money as i32;
    let g1 = match fi {
        Some(i) => set_player(g, i, with_balance(g.players[i], g.players[i].balance - money)),
        None => g,
    };
    let g2 = match fi {
        Some(i) => set_player(
            g,
            i,
            Player { get_out_cards: (g.players[i].get_out_cards - a.get_out_cards) as u8, ..g.players[i] },
        ),
        None => g,
    };
    &&& a.money > 0 ==> match fi {
        Some(i) => i32::MIN <= g.players[i].balance - money <= i32::MAX,
        None => true,
    }
    &&& a.money > 0 ==> match ti {
        Some(j) => i32::MIN <= g1.players[j].balance + money <= i32::MAX,
        None => true,
    }
    &&& a.get_out_cards > 0 ==> match fi {
        Some(i) => g.players[i].get_out_cards >= a.get_out_cards,
        None => true,
    }
    &&& a.get_out_cards > 0 ==> match ti {
        Some(j) => g2.players[j].get_out_cards + a.get_out_cards <= u8::MAX,
        None => true,
    }
}

/// Accepting the pending trade: both sides must still hold their assets
/// (otherwise the trade is dropped); then the assets change hands.
pub open spec fn accept_trade(g: GameView, trade_id: u128) -> (GameView, Result<(), Seq<char>>) {
    match g.active_trade {
        Some(t) if t.id == trade_id => if t.status != TradeStatus::Pending {
            (g, Err("Trade is no longer pending."@))
        } else if !assets_valid(g, t.from_player, t.offering) {
            (GameView { active_trade: None, ..g }, Err("Offer side assets no longer available."@))
        } else if !assets_valid(g, t.to_player, t.requesting) {
            (GameView { active_trade: None, ..g }, Err("Request side assets no longer available."@))
        } else {
            let g1 = transfer_assets(g, t.from_player, t.to_player, t.offering);
            let g2 = transfer_assets(g1, t.to_player, t.from_player, t.requesting);
            (
                log_game(GameView { active_trade: None, ..g2 }, "Trade completed successfully."@),
                Ok(()),
            )
        },
        _ => (g, Err("Trade offer not found or expired."@)),
    }
}

/// Whether accepting hands assets over: the pending trade has this id and
/// both sides still hold what they give.
pub open spec fn accept_transfers(g: GameView, trade_id: u128) -> bool {
    &&& g.active_trade matches Some(t)
    &&& t.id == trade_id
    &&& t.status == TradeStatus::Pending
    &&& assets_valid(g, t.from_player, t.offering)
    &&& assets_valid(g, t.to_player, t.requesting)
}

/// Accepting the pending trade keeps balances and card counts within their types.
pub open spec fn accept_fits(g: GameView) -> bool {
    match g.active_trade {
        Some(t) => {
            &&& transfer_fits(g, t.from_player, t.to_player, t.offering)
            &&& transfer_fits(
                transfer_assets(g, t.from_player, t.to_player, t.offering),
                t.to_player,
                t.from_player,
                t.requesting,
            )
        },
        None => true,
    }
}

/// Rejecting the pending trade.
pub open spec fn reject_trade(g: GameView, trade_id: u128) -> (GameView, Result<(), Seq<char>>) {
    match g.active_trade {
        Some(t) if t.id == trade_id => (
            log_game(GameView { active_trade: None, ..g }, "Trade offer rejected."@),
            Ok(()),
        ),
        _ => (g, Err("Trade not found."@)),
    }
}

/// Index of the player with that id, as a spec value.
pub open spec fn from_idx_spec(g: GameView, id: PlayerId) -> Option<int> {
    player_index(g.players, id)
}

/// The text of an error message.
pub open spec fn message_is(r: Result<(), String>, m: Result<(), Seq<char>>) -> bool {
    match m {
        Ok(()) => r is Ok,
        Err(e) => r matches Err(x) && x@ == e,
    }
}

impl TradeHandler {
    /// Creates a trade offer with a given id
    pub fn create_offer_with_id(
        game: &mut GameState,
        from: PlayerId,
        to: PlayerId,
        offering: TradeAssets,
        requesting: TradeAssets,
        id: u128,
    ) -> (r: Result<TradeOffer, String>)
        ensures
            match create_offer(old(game)@, from, to, offering@, requesting@, id) {
                Ok((g, o)) => r matches Ok(x) && x@ == o && final(game)@ == g,
                Err(e) => r matches Err(x) && x@ == e && final(game)@ == old(game)@,
            },
    {
        // 1. Check if 'from' player owns offered assets
        if !Self::validate_assets(game, from, &offering) {
            return Err(String::from_str("You do not own all the offered assets."));
        }
        // 2. Check if 'to' player owns requested assets
        if !Self::validate_assets(game, to, &requesting) {
            return Err(String::from_str("Target player does not own all the requested assets."));
        }
        // 3. Only one pending trade per room
        if game.active_trade.is_some() {
            return Err(String::from_str("There is already a pending trade in this room."));
        }
        let offer = TradeOffer {
            id,
            from_player: from,
            to_player: to,
            offering,
            requesting,
            status: TradeStatus::Pending,
        };
        game.active_trade = Some(offer.clone());
        Ok(offer)
    }

    /// Create a new trade offer; it gets a fresh id
    pub fn create_offer(
        game: &mut GameState,
        from: PlayerId,
        to: PlayerId,
        offering: TradeAssets,
        requesting: TradeAssets,
    ) -> (r: Result<TradeOffer, String>)
        ensures
            match r {
                Ok(x) => create_offer(old(game)@, from, to, offering@, requesting@, x.id) == Ok::<
                    (GameView, OfferView),
                    Seq<char>,
                >((final(game)@, x@)),
                Err(x) => create_offer(old(game)@, from, to, offering@, requesting@, 0) == Err::<
                    (GameView, OfferView),
                    Seq<char>,
                >(x@) && final(game)@ == old(game)@,
            },
    {
        let id = new_uuid();
        let r = Self::create_offer_with_id(game, from, to, offering, requesting, id);
        r
    }

    /// Validate that a player owns the specified assets
    fn validate_assets(game: &GameState, player_id: PlayerId, assets: &TradeAssets) -> (r: bool)
        ensures
            r == assets_valid(game@, player_id, assets@),
    {
        let player = match game.get_player(player_id) {
            Some(p) => p,
            None => return false,
        };
        // Check Money
        if player.balance < assets.money as i32 {
            return false;
        }
        // Check Properties
        let mut k: usize = 0;
        while k < assets.properties.len()
            invariant
                k <= assets.properties@.len(),
                forall|m: int|
                    0 <= m < k ==> {
                        let idx = #[trigger] assets.properties@[m];
                        &&& game.properties@.contains_key(idx)
                        &&& game.properties@[idx].owner == Some(player_id)
                        &&& game.properties@[idx].houses == 0
                    },
            decreases assets.properties@.len() - k,
        {
            let idx = assets.properties[k];
            match game.properties.get(&idx) {
                Some(prop) => {
                    if prop.owner != Some(player_id) {
                        return false;
                    }
                    // Cannot trade improved properties
                    if prop.houses > 0 {
                        return false;
                    }
                },
                None => return false,
            }
            k = k + 1;
        }
        // Check Cards
        if player.get_out_cards < assets.get_out_cards {
            return false;
        }
        true
    }

    /// One side of a trade: `from` hands the assets to `to`
    fn transfer_assets(game: &mut GameState, from: PlayerId, to: PlayerId, assets: &TradeAssets)
        requires
            transfer_fits(old(game)@, from, to, assets@),
        ensures
            final(game)@ == transfer_assets(old(game)@, from, to, assets@),
    {
        let ghost g0 = game@;
        proof {
            lemma_player_index(g0.players, from);
            lemma_player_index(g0.players, to);
        }
        let from_idx = game.player_position(from);
        let to_idx = game.player_position(to);
        // Money
        if assets.money > 0 {
            if let Some(i) = from_idx {
                game.players[i].balance = game.players[i].balance - assets.money as i32;
            }
            if let Some(j) = to_idx {
                game.players[j].balance = game.players[j].balance + assets.money as i32;
            }
        }
        assert(game@ =~= move_money(g0, from_idx_spec(g0, from), from_idx_spec(g0, to), assets.money));
        let ghost g1 = game@;
        // Properties
        let mut k: usize = 0;
        while k < assets.properties.len()
            invariant
                k <= assets.properties@.len(),
                game@ == (GameView {
                    properties: move_properties(
                        g1.properties,
                        to,
                        assets.properties@.take(k as int),
                    ),
                    ..g1
                }),
            decreases assets.properties@.len() - k,
        {
            let idx = assets.properties[k];
            if let Some(prop) = game.properties.get(&idx) {
                let prop = *prop;
                game.properties.insert(idx, PropertyState { owner: Some(to), ..prop });
            }
            proof {
                let before = assets.properties@.take(k as int);
                let after = assets.properties@.take(k + 1);
                assert(after =~= before.push(idx));
                assert forall|x: u8| #[trigger] after.contains(x) <==> before.contains(x) || x == idx by {
                    if after.contains(x) {
                        let m = choose|m: int| 0 <= m < after.len() && after[m] == x;
                        if m < k {
                            assert(before[m] == x);
                        }
                    }
                    if before.contains(x) {
                        let m = choose|m: int| 0 <= m < before.len() && before[m] == x;
                        assert(after[m] == x);
                    }
                    if x == idx {
                        assert(after[k as int] == x);
                    }
                }
            }
            assert(game@.properties =~= move_properties(
                g1.properties,
                to,
                assets.properties@.take(k + 1),
            ));
            k = k + 1;
        }
        assert(assets.properties@.take(assets.properties@.len() as int) =~= assets.properties@);
        let ghost g2 = game@;
        // Cards
        if assets.get_out_cards > 0 {
            if let Some(i) = from_idx {
                game.players[i].get_out_cards = game.players[i].get_out_cards
                    - assets.get_out_cards;
            }
            if let Some(j) = to_idx {
                game.players[j].get_out_cards = game.players[j].get_out_cards
                    + assets.get_out_cards;
            }
        }
        assert(game@ =~= move_cards(g2, from_idx_spec(g0, from), from_idx_spec(g0, to), assets.get_out_cards));
    }

    /// Accept the current active trade
    pub fn accept_trade(game: &mut GameState, trade_id: u128) -> (r: Result<(), String>)
        requires
            accept_transfers(old(game)@, trade_id) ==> accept_fits(old(game)@),
        ensures
            final(game)@ == accept_trade(old(game)@, trade_id).0,
            message_is(r, accept_trade(old(game)@, trade_id).1),
    {
        let ghost g0 = game@;
        let trade = match &game.active_trade {
            Some(t) => {
                if t.id == trade_id {
                    t.clone()
                } else {
                    return Err(String::from_str("Trade offer not found or expired."));
                }
            },
            None => {
                return Err(String::from_str("Trade offer not found or expired."));
            },
        };
        if trade.status != TradeStatus::Pending {
            return Err(String::from_str("Trade is no longer pending."));
        }
        // Re-validate ownership in case the state changed
        if !Self::validate_assets(game, trade.from_player, &trade.offering) {
            game.active_trade = None;
            return Err(String::from_str("Offer side assets no longer available."));
        }
        if !Self::validate_assets(game, trade.to_player, &trade.requesting) {
            game.active_trade = None;
            return Err(String::from_str("Request side assets no longer available."));
        }
        // Execute Transfer
        Self::transfer_assets(game, trade.from_player, trade.to_player, &trade.offering);
        Self::transfer_assets(game, trade.to_player, trade.from_player, &trade.requesting);
        game.active_trade = None;
        game.log(String::from_str("Trade completed successfully."));
        Ok(())
    }

    /// Reject active trade
    pub fn reject_trade(game: &mut GameState, trade_id: u128) -> (r: Result<(), String>)
        ensures
            final(game)@ == reject_trade(old(game)@, trade_id).0,
            message_is(r, reject_trade(old(game)@, trade_id).1),
    {
        let valid = match &game.active_trade {
            Some(t) => t.id == trade_id,
            None => false,
        };
        if valid {
            game.active_trade = None;
            game.log(String::from_str("Trade offer rejected."));
            Ok(())
        } else {
            Err(String::from_str("Trade not found."))
        }
    }
}

} // verus!
