//! Games whose amounts stay far from the limits of `i32`, where every event
//! is known to stay within the machine's integers.

use vstd::prelude::*;

use super::board::{board_tile, lemma_board_facts, TileType};
use super::engine::GameEngine;
use super::events::ClientEvent;
use super::rules::{
    advance, end_auction_fits, escape_jail, event_fits, forced_bail, land_fits, lemma_player_index,
    mortgage_fits, move_fits, moved_to, record_pass, rent, roll_fits, rolled_turn, transfer_fits,
};
use super::state::{player_index, spec_active_count, spec_dice_sum, GameState, GameView, PlayerId};

verus! {

/// A billion: the bound on balances, the pot and bids that keeps every step in range.
pub open spec fn safe_amount() -> int {
    1_000_000_000
}

/// Amounts far from the limits of `i32`: balances, the pot and the auction's
/// bid within a billion of zero, every piece on the board, and jail and
/// doubles counts below 200.
pub open spec fn in_safe_range(g: GameView) -> bool {
    &&& forall|i: int|
        0 <= i < g.players.len() ==> {
            let p = #[trigger] g.players[i];
            &&& -safe_amount() <= p.balance <= safe_amount()
            &&& p.position < 40
            &&& p.jail_turns < 200
        }
    &&& -safe_amount() <= g.pot_money <= safe_amount()
    &&& g.turn matches Some(t) ==> t.doubles_count < 200
    &&& g.auction matches Some(a) ==> a.current_bid <= safe_amount()
}

/// Balances within `m` of zero, the pot within a billion, and the dice of a
/// real roll, if any.
pub open spec fn amounts_within(g: GameView, m: int) -> bool {
    &&& forall|i: int| 0 <= i < g.players.len() ==> -m <= (#[trigger] g.players[i]).balance <= m
    &&& -safe_amount() <= g.pot_money <= safe_amount()
    &&& g.turn matches Some(t) ==> spec_dice_sum(t) <= 12
}

/// With the dice of a real roll, no rent is above $2000.
pub proof fn lemma_rent_bound(g: GameView, idx: u8)
    requires
        g.turn matches Some(t) ==> spec_dice_sum(t) <= 12,
    ensures
        rent(g, idx) <= 2000,
{
    lemma_board_facts(idx);
    let t = board_tile(idx);
    if idx < 40 && g.properties.contains_key(idx) {
        let ps = g.properties[idx];
        if t.tile_type == TileType::Property && ps.houses > 0 && ps.houses - 1 < t.rent_schedule.len() {
            assert(t.rent_schedule[ps.houses - 1] <= 2000);
        }
    }
}

/// Landing on any tile stays in range while balances are within 1.1 billion.
pub proof fn lemma_land_fits_within(g: GameView, player_id: PlayerId, idx: u8)
    requires
        amounts_within(g, 1_100_000_000),
    ensures
        land_fits(g, player_id, idx),
{
    lemma_board_facts(idx);
    lemma_rent_bound(g, idx);
    lemma_player_index(g.players, player_id);
    let t = board_tile(idx);
    if (t.tile_type == TileType::Property || t.tile_type == TileType::Railroad || t.tile_type
        == TileType::Utility) && g.properties.contains_key(idx) {
        if let Some(o) = g.properties[idx].owner {
            lemma_player_index(g.players, o);
            let r = rent(g, idx) as i32;
            if let (Some(fi), Some(ti)) = (player_index(g.players, player_id), player_index(g.players, o)) {
                assert(-1_100_000_000 <= g.players[fi].balance <= 1_100_000_000);
                assert(-1_100_000_000 <= g.players[ti].balance <= 1_100_000_000);
            }
            assert(transfer_fits(g, player_id, o, r));
        }
    }
    if let Some(i) = player_index(g.players, player_id) {
        assert(-1_100_000_000 <= g.players[i].balance <= 1_100_000_000);
    }
}

/// A move from a game with balances within 1.1 billion less $200 stays in range.
pub proof fn lemma_move_fits_within(g: GameView, player_id: PlayerId, i: int, d1: u8, d2: u8)
    requires
        amounts_within(g, 1_099_999_000),
        0 <= i < g.players.len(),
        g.players[i].position < 40,
        1 <= d1 <= 6,
        1 <= d2 <= 6,
    ensures
        move_fits(g, player_id, i, d1, d2),
{
    let g2 = advance(g, i, d1, d2);
    assert(-1_099_999_000 <= g.players[i].balance <= 1_099_999_000);
    assert forall|j: int| 0 <= j < g2.players.len() implies -1_100_000_000 <= (
    #[trigger] g2.players[j]).balance <= 1_100_000_000 by {
        assert(-1_099_999_000 <= g.players[j].balance <= 1_099_999_000);
    }
    lemma_land_fits_within(g2, player_id, moved_to(g.players[i].position, d1 + d2));
}

/// In a game in the safe range every roll of two dice stays in range.
pub proof fn lemma_safe_roll_fits(g: GameView, d1: u8, d2: u8)
    requires
        in_safe_range(g),
        1 <= d1 <= 6,
        1 <= d2 <= 6,
    ensures
        roll_fits(g, d1, d2),
{
    if let Some(t) = g.turn {
        let t1 = rolled_turn(t, d1, d2);
        let g1 = super::state::GameView { turn: Some(t1), ..g };
        lemma_player_index(g1.players, t.player_id);
        if let Some(i) = player_index(g1.players, t.player_id) {
            let p = g1.players[i];
            assert(-safe_amount() <= g.players[i].balance <= safe_amount() && g.players[i].position < 40
                && g.players[i].jail_turns < 200);
            assert(amounts_within(g1, 1_000_000_000)) by {
                assert forall|j: int| 0 <= j < g1.players.len() implies -1_000_000_000 <= (
                #[trigger] g1.players[j]).balance <= 1_000_000_000 by {
                    assert(-safe_amount() <= g.players[j].balance <= safe_amount());
                }
            }
            if !p.in_jail {
                lemma_move_fits_within(g1, t.player_id, i, d1, d2);
            } else if d1 == d2 {
                let g2 = escape_jail(g1, i);
                assert forall|j: int| 0 <= j < g2.players.len() implies -1_099_999_000 <= (
                #[trigger] g2.players[j]).balance <= 1_099_999_000 by {
                    assert(-1_000_000_000 <= g1.players[j].balance <= 1_000_000_000);
                }
                lemma_move_fits_within(g2, t.player_id, i, d1, d2);
            } else {
                let g2 = forced_bail(g1, i);
                assert forall|j: int| 0 <= j < g2.players.len() implies -1_099_999_000 <= (
                #[trigger] g2.players[j]).balance <= 1_099_999_000 by {
                    assert(-1_000_000_000 <= g1.players[j].balance <= 1_000_000_000);
                }
                lemma_move_fits_within(g2, t.player_id, i, d1, d2);
            }
        }
    }
}

/// In a game in the safe range every event stays in range, but for a pass in
/// an auction when no active player is left.
pub proof fn lemma_safe_event_fits(g: GameView, player_id: PlayerId, event: ClientEvent)
    requires
        in_safe_range(g),
        event is PassBid ==> spec_active_count(g.players) >= 1,
    ensures
        event_fits(g, player_id, event),
{
    match event {
        ClientEvent::RollDice => {
            assert forall|d1: u8, d2: u8| 1 <= d1 <= 6 && 1 <= d2 <= 6 implies #[trigger] roll_fits(g, d1, d2) by {
                lemma_safe_roll_fits(g, d1, d2);
            }
        },
        ClientEvent::PassBid => {
            let g1 = record_pass(g, player_id);
            if let Some(a) = g1.auction {
                if let Some(w) = a.highest_bidder {
                    lemma_player_index(g1.players, w);
                    if let Some(i) = player_index(g1.players, w) {
                        assert(-safe_amount() <= g.players[i].balance <= safe_amount());
                    }
                }
            }
            assert(end_auction_fits(g1));
        },
        ClientEvent::Mortgage { tile_idx } => {
            lemma_board_facts(tile_idx);
            lemma_player_index(g.players, player_id);
            if let Some(i) = player_index(g.players, player_id) {
                assert(-safe_amount() <= g.players[i].balance <= safe_amount());
            }
            assert(mortgage_fits(g, player_id, tile_idx));
        },
        _ => {},
    }
}

impl GameEngine {
    /// Whether the game's amounts are in the safe range, and, for a pass in an
    /// auction, an active player is left: then the event can be handled.
    pub fn event_in_range(game: &GameState, player_id: PlayerId, event: &ClientEvent) -> (r: bool)
        ensures
            r == (in_safe_range(game@) && (*event is PassBid ==> spec_active_count(game@.players) >= 1)),
            r ==> event_fits(game@, player_id, *event),
    {
        let mut i: usize = 0;
        while i < game.players.len()
            invariant
                i <= game.players@.len(),
                forall|k: int|
                    0 <= k < i ==> {
                        let p = #[trigger] game@.players[k];
                        &&& -safe_amount() <= p.balance <= safe_amount()
                        &&& p.position < 40
                        &&& p.jail_turns < 200
                    },
            decreases game.players@.len() - i,
        {
            let p = &game.players[i];
            if p.balance < -1_000_000_000 || p.balance > 1_000_000_000 || p.position >= 40 || p.jail_turns
                >= 200 {
                assert(!in_safe_range(game@)) by {
                    let q = game@.players[i as int];
                    assert(!(-safe_amount() <= q.balance <= safe_amount() && q.position < 40 && q.jail_turns
                        < 200));
                }
                return false;
            }
            i = i + 1;
        }
        if game.pot_money < -1_000_000_000 || game.pot_money > 1_000_000_000 {
            return false;
        }
        if let Some(t) = &game.turn {
            if t.doubles_count >= 200 {
                return false;
            }
        }
        if let Some(a) = &game.auction {
            if a.current_bid > 1_000_000_000 {
                return false;
            }
        }
        assert(in_safe_range(game@));
        let r = match event {
            ClientEvent::PassBid => game.active_player_count() >= 1,
            _ => true,
        };
        proof {
            if r {
                lemma_safe_event_fits(game@, player_id, *event);
            }
        }
        r
    }
}

} // verus!
