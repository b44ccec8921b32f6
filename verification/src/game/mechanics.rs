//! What each mechanic of the game does, stated over what the players see:
//! positions, balances, jail, ownership, buildings and the auction.

use vstd::prelude::*;

use super::board::{board_tile, lemma_board_facts, TileType};
use super::rules::{build_house, count_owned, lemma_player_index, owns, pass_bid, rent, roll};
use super::state::{player_index, spec_active_count, spec_dice_sum, AssetsView, GameView, PlayerId, TurnPhase};
use super::trade::create_offer;

verus! {

/// A jailed player who fails to roll doubles before the third failed turn
/// stays in jail on the same tile, with one more failed turn, the same
/// balance, and the turn over.
pub proof fn law_jail_failure_stays(g: GameView, d1: u8, d2: u8)
    requires
        d1 != d2,
        g.turn matches Some(t) && t.phase == TurnPhase::WaitingForRoll && t.doubles_count < 3,
        player_index(g.players, g.turn.unwrap().player_id) matches Some(i) && g.players[i].in_jail
            && g.players[i].jail_turns + 1 < 3,
    ensures
        roll(g, d1, d2) is Ok,
        ({
            let i = player_index(g.players, g.turn.unwrap().player_id).unwrap();
            let g2 = roll(g, d1, d2)->Ok_0.0;
            &&& g2.players.len() == g.players.len()
            &&& g2.players[i].in_jail
            &&& g2.players[i].position == g.players[i].position
            &&& g2.players[i].jail_turns == g.players[i].jail_turns + 1
            &&& g2.players[i].balance == g.players[i].balance
            &&& g2.turn matches Some(t2) && t2.phase == TurnPhase::TurnEnd && !t2.can_roll_again
        }),
{
    lemma_player_index(g.players, g.turn.unwrap().player_id);
}

/// How many utilities an owner holds: one for each of tiles 12 and 28.
pub proof fn lemma_utilities_owned(g: GameView, o: PlayerId)
    ensures
        count_owned(g.properties, o, TileType::Utility, 40) == (if owns(g.properties, o, 12) {
            1int
        } else {
            0int
        }) + (if owns(g.properties, o, 28) {
            1int
        } else {
            0int
        }),
{
    reveal_with_fuel(count_owned, 41);
}

/// Rent on an owned, unmortgaged utility is the dice total of the turn times 4,
/// or times 10 when its owner holds both utilities (tiles 12 and 28).
pub proof fn law_utility_rent(g: GameView, idx: u8)
    requires
        idx < 40,
        board_tile(idx).tile_type == TileType::Utility,
        g.properties.contains_key(idx),
        g.properties[idx].owner is Some,
        !g.properties[idx].is_mortgaged,
        g.turn is Some,
    ensures
        ({
            let o = g.properties[idx].owner.unwrap();
            let dice = spec_dice_sum(g.turn.unwrap());
            rent(g, idx) == if owns(g.properties, o, 12) && owns(g.properties, o, 28) {
                dice * 10
            } else {
                dice * 4
            }
        }),
{
    let o = g.properties[idx].owner.unwrap();
    lemma_utilities_owned(g, o);
    lemma_board_facts(idx);
    assert(idx == 12 || idx == 28);
    assert(owns(g.properties, o, idx));
}

/// A pass closes the auction exactly when, counting it, all active players but
/// at most one have passed; otherwise only the pass is recorded and the game
/// is otherwise as it was.
pub proof fn law_pass_closes_auction(g: GameView, player_id: PlayerId)
    requires
        g.auction is Some,
    ensures
        pass_bid(g, player_id) is Ok,
        ({
            let a = g.auction.unwrap();
            let passed = if a.passed_players.contains(player_id) {
                a.passed_players.len()
            } else {
                a.passed_players.len() + 1
            };
            let active = spec_active_count(g.players);
            let g2 = pass_bid(g, player_id)->Ok_0.0;
            &&& passed + 1 >= active ==> g2.auction is None
            &&& passed + 1 < active ==> {
                &&& g2.auction matches Some(a2) && a2.tile_idx == a.tile_idx && a2.current_bid
                    == a.current_bid && a2.highest_bidder == a.highest_bidder
                    && a2.passed_players.len() == passed && a2.passed_players.contains(player_id)
                &&& g2.players == g.players
                &&& g2.properties == g.properties
                &&& g2.turn == g.turn
            }
        }),
{
    let a = g.auction.unwrap();
    if !a.passed_players.contains(player_id) {
        assert(a.passed_players.push(player_id)[a.passed_players.len() as int] == player_id);
    }
}

/// A building goes up only for a player who can pay its build cost: the
/// builder's balance drops by exactly that cost and stays non-negative, and
/// the tile has one more building.
pub proof fn law_build_pays(g: GameView, player_id: PlayerId, idx: u8)
    ensures
        build_house(g, player_id, idx) matches Ok((g2, _)) ==> ({
            let cost = board_tile(idx).build_cost;
            let i = player_index(g.players, player_id).unwrap();
            &&& player_index(g.players, player_id) is Some
            &&& g.players[i].balance >= cost
            &&& g2.players[i].balance == g.players[i].balance - cost
            &&& g2.players[i].balance >= 0
            &&& g.properties.contains_key(idx) && g2.properties[idx].houses == g.properties[idx].houses + 1
        }),
{
    lemma_board_facts(idx);
    lemma_player_index(g.players, player_id);
    if build_house(g, player_id, idx) is Ok {
        let group = board_tile(idx).group.unwrap();
        assert(board_tile(idx).group == Some(group));
        assert(owns(g.properties, player_id, idx));
    }
}

/// An offer is made only when each side holds what it gives: the money, each
/// listed property (owned, without buildings) and the Get Out of Jail cards.
pub proof fn law_offer_needs_assets(
    g: GameView,
    from: PlayerId,
    to: PlayerId,
    offering: AssetsView,
    requesting: AssetsView,
    id: u128,
)
    ensures
        create_offer(g, from, to, offering, requesting, id) is Ok ==> {
            &&& player_index(g.players, from) matches Some(i) && g.players[i].get_out_cards
                >= offering.get_out_cards && g.players[i].balance >= offering.money as i32
            &&& player_index(g.players, to) matches Some(j) && g.players[j].get_out_cards
                >= requesting.get_out_cards && g.players[j].balance >= requesting.money as i32
            &&& forall|k: int|
                0 <= k < offering.properties.len() ==> g.properties.contains_key(
                    #[trigger] offering.properties[k],
                ) && g.properties[offering.properties[k]].owner == Some(from)
                    && g.properties[offering.properties[k]].houses == 0
            &&& forall|k: int|
                0 <= k < requesting.properties.len() ==> g.properties.contains_key(
                    #[trigger] requesting.properties[k],
                ) && g.properties[requesting.properties[k]].owner == Some(to)
                    && g.properties[requesting.properties[k]].houses == 0
        },
{
}

} // verus!
