//! Properties that hold of the rules as a whole, proved over the functions of `rules`.

use vstd::prelude::*;

use super::board::{board_tile, lemma_board_facts, TileType};
use super::bankruptcy::bankrupt;
use super::events::{ClientEvent, EventView};
use super::lobby::{adds_player, join_refusal, started};
use super::trade::{accept_trade, accept_fits, accept_transfers, assets_valid, reject_trade, move_cards, move_money, move_properties, transfer_assets as trade_transfer, transfer_fits as trade_transfer_fits};
use super::rules::{
    first_solvent, is_first_solvent, end_auction, end_turn, handle_event, pass_bid, pay_jail, place_bid, record_pass, start_auction, advance, escape_jail, forced_bail, land, move_and_land, moved_to, passes_go, roll, rolled_turn, send_to_jail, set_property, buy, position_of, set_owner, set_phase, build_house, lemma_player_index, mortgage, rent, set_player, transfer_money, unmortgage,
    unmortgage_cost, with_balance,
};
use super::state::{is_next_step, turn_place, player_ids, TradeStatus, first_index, is_active_id, lemma_first_index_spec, spec_active_count, spec_next_player, GamePhase, TurnState, AssetsView, new_game, GameConfig, PropertyState, initial_properties, log_game, player_index, push_log, GameView, Player, PlayerId, TurnPhase};

verus! {

/// The sum of the players' balances.
pub open spec fn total_balance(ps: Seq<Player>) -> int
    decreases ps.len(),
{
    if ps.len() == 0 {
        0
    } else {
        total_balance(ps.drop_last()) + ps.last().balance
    }
}

/// Replacing one player changes the total by the change of that balance.
pub proof fn lemma_total_balance_update(ps: Seq<Player>, i: int, p: Player)
    requires
        0 <= i < ps.len(),
    ensures
        total_balance(ps.update(i, p)) == total_balance(ps) - ps[i].balance + p.balance,
    decreases ps.len(),
{
    let qs = ps.update(i, p);
    if i == ps.len() - 1 {
        assert(qs.drop_last() =~= ps.drop_last());
    } else {
        lemma_total_balance_update(ps.drop_last(), i, p);
        assert(qs.drop_last() =~= ps.drop_last().update(i, p));
    }
}

/// Paying money from one player to another (rent) leaves the total of all
/// balances unchanged.
pub proof fn law_transfer_conserves_money(
    g: GameView,
    from: PlayerId,
    to: PlayerId,
    amount: i32,
    reason: Seq<char>,
)
    requires
        super::rules::transfer_fits(g, from, to, amount),
    ensures
        total_balance(transfer_money(g, from, to, amount, reason).players) == total_balance(g.players),
{
    lemma_player_index(g.players, from);
    lemma_player_index(g.players, to);
    match (super::state::player_index(g.players, from), super::state::player_index(g.players, to)) {
        (Some(fi), Some(ti)) => {
            let ps1 = g.players.update(fi, with_balance(g.players[fi], g.players[fi].balance - amount));
            lemma_total_balance_update(g.players, fi, with_balance(g.players[fi], g.players[fi].balance - amount));
            lemma_total_balance_update(ps1, ti, with_balance(ps1[ti], ps1[ti].balance + amount));
        },
        _ => {},
    }
}

/// A mortgaged or unowned property earns no rent.
pub proof fn law_no_rent_when_mortgaged_or_unowned(g: GameView, idx: u8)
    requires
        g.properties.contains_key(idx),
        g.properties[idx].is_mortgaged || g.properties[idx].owner is None,
    ensures
        rent(g, idx) == 0,
{
}

/// The log keeps the newest message last and never more than 100 entries.
pub proof fn law_log_bounded(logs: Seq<Seq<char>>, message: Seq<char>)
    requires
        logs.len() <= 100,
    ensures
        push_log(logs, message).len() <= 100,
        push_log(logs, message).last() == message,
{
}

/// Every property has at most 5 buildings (a hotel).
pub open spec fn buildings_within_limit(g: GameView) -> bool {
    forall|k: u8| #[trigger] g.properties.contains_key(k) ==> g.properties[k].houses <= 5
}

/// Building never goes past a hotel: 5 buildings at most on any property.
pub proof fn law_build_within_limit(g: GameView, player_id: PlayerId, idx: u8)
    requires
        buildings_within_limit(g),
    ensures
        build_house(g, player_id, idx) matches Ok((g2, _)) ==> buildings_within_limit(g2),
{
}

/// Mortgaging a property and then lifting the mortgage succeeds for an owner
/// with at least 10% of the mortgage value (rounded down) to spare, gives the
/// property back as it was, and costs the owner that 10%.
pub proof fn law_mortgage_round_trip(g: GameView, player_id: PlayerId, idx: u8)
    requires
        mortgage(g, player_id, idx) is Ok,
        super::rules::mortgage_fits(g, player_id, idx),
        g.players[super::state::player_index(g.players, player_id).unwrap()].balance
            >= board_tile(idx).mortgage_value / 10,
    ensures
        unmortgage(mortgage(g, player_id, idx)->Ok_0.0, player_id, idx) is Ok,
        ({
            let g2 = unmortgage(mortgage(g, player_id, idx)->Ok_0.0, player_id, idx)->Ok_0.0;
            let i = super::state::player_index(g.players, player_id).unwrap();
            let mv = board_tile(idx).mortgage_value;
            &&& g2.properties == g.properties
            &&& g2.players[i] == (Player { balance: (g.players[i].balance - mv / 10) as i32, ..g.players[i] })
            &&& g2.players.len() == g.players.len()
            &&& forall|j: int| 0 <= j < g.players.len() && j != i ==> #[trigger] g2.players[j] == g.players[j]
            &&& unmortgage_cost(mv) - mv == mv / 10
        }),
{
    lemma_board_facts(idx);
    lemma_player_index(g.players, player_id);
    let g1 = mortgage(g, player_id, idx)->Ok_0.0;
    let i = super::state::player_index(g.players, player_id).unwrap();
    assert(super::state::player_ids(g1.players) =~= super::state::player_ids(g.players));
    let g2 = unmortgage(g1, player_id, idx)->Ok_0.0;
    assert(g2.properties =~= g.properties);
}

/// What every game keeps: pieces on the board, the property table listing
/// exactly the ownable tiles, at most a hotel on each, and at most 100 log entries.
pub open spec fn well_formed(g: GameView) -> bool {
    &&& forall|i: int| 0 <= i < g.players.len() ==> (#[trigger] g.players[i]).position < 40
    &&& g.properties.dom() == initial_properties().dom()
    &&& buildings_within_limit(g)
    &&& g.logs.len() <= 100
}

/// Changing the phase keeps a game well formed.
pub proof fn lemma_phase_wf(g: GameView, ph: TurnPhase)
    requires
        well_formed(g),
    ensures
        well_formed(set_phase(g, ph)),
{
}

/// Replacing a player by one on the board keeps a game well formed.
pub proof fn lemma_set_player_wf(g: GameView, i: int, p: Player)
    requires
        well_formed(g),
        0 <= i < g.players.len(),
        p.position < 40,
    ensures
        well_formed(set_player(g, i, p)),
{
    let g2 = set_player(g, i, p);
    assert forall|j: int| 0 <= j < g2.players.len() implies (#[trigger] g2.players[j]).position < 40 by {
        if j != i {
            assert(g2.players[j] == g.players[j]);
        }
    }
}

/// Buying keeps a game well formed.
pub proof fn law_buy_wf(g: GameView)
    requires
        well_formed(g),
    ensures
        buy(g) matches Ok((g2, _)) ==> well_formed(g2),
{
    if let Some(t) = g.turn {
        lemma_player_index(g.players, t.player_id);
        if let Ok((g2, _)) = buy(g) {
            let i = player_index(g.players, t.player_id).unwrap();
            let p = g.players[i];
            let g1 = set_player(g, i, with_balance(p, p.balance - board_tile(position_of(g, t.player_id)).price));
            lemma_set_player_wf(g, i, with_balance(p, p.balance - board_tile(position_of(g, t.player_id)).price));
            let pos = position_of(g, t.player_id);
            let g3 = set_owner(g1, pos, Some(t.player_id));
            assert(g3.properties.dom() =~= g1.properties.dom());
            assert(well_formed(g3));
        }
    }
}

/// Replacing a property's state by one within the building limit keeps a game well formed.
pub proof fn lemma_set_property_wf(g: GameView, idx: u8, ps: PropertyState)
    requires
        well_formed(g),
        ps.houses <= 5,
    ensures
        well_formed(set_property(g, idx, ps)),
{
    let g2 = set_property(g, idx, ps);
    assert(g2.properties.dom() =~= g.properties.dom());
}

/// Changing a balance keeps a game well formed.
pub proof fn lemma_balance_wf(g: GameView, i: int, b: int)
    requires
        well_formed(g),
        0 <= i < g.players.len(),
    ensures
        well_formed(set_player(g, i, with_balance(g.players[i], b))),
{
    lemma_set_player_wf(g, i, with_balance(g.players[i], b));
}

/// Paying rent keeps a game well formed.
pub proof fn lemma_transfer_wf(g: GameView, from: PlayerId, to: PlayerId, amount: i32, reason: Seq<char>)
    requires
        well_formed(g),
    ensures
        well_formed(transfer_money(g, from, to, amount, reason)),
{
    lemma_player_index(g.players, from);
    lemma_player_index(g.players, to);
    let g2 = transfer_money(g, from, to, amount, reason);
    assert forall|j: int| 0 <= j < g2.players.len() implies (#[trigger] g2.players[j]).position < 40 by {
        assert(g2.players[j].position == g.players[j].position);
    }
}

/// Going to jail keeps a game well formed.
pub proof fn lemma_send_to_jail_wf(g: GameView, player_id: PlayerId)
    requires
        well_formed(g),
    ensures
        well_formed(send_to_jail(g, player_id)),
{
    lemma_player_index(g.players, player_id);
    if let Some(i) = player_index(g.players, player_id) {
        let p = Player { position: 10, in_jail: true, jail_turns: 0, ..g.players[i] };
        lemma_set_player_wf(g, i, p);
    }
}

/// Landing on a tile keeps a game well formed.
pub proof fn lemma_land_wf(g: GameView, player_id: PlayerId, idx: u8)
    requires
        well_formed(g),
    ensures
        well_formed(land(g, player_id, idx)),
{
    lemma_player_index(g.players, player_id);
    let t = board_tile(idx);
    match t.tile_type {
        TileType::Property | TileType::Railroad | TileType::Utility => {
            if g.properties.contains_key(idx) {
                if let Some(o) = g.properties[idx].owner {
                    lemma_transfer_wf(g, player_id, o, rent(g, idx) as i32, "rent on "@ + t.name);
                    lemma_phase_wf(transfer_money(g, player_id, o, rent(g, idx) as i32, "rent on "@ + t.name), TurnPhase::TurnEnd);
                }
            }
        },
        TileType::Tax => {
            if let Some(i) = player_index(g.players, player_id) {
                lemma_balance_wf(g, i, g.players[i].balance - (t.rent_base as i32));
            }
        },
        TileType::FreeParking => {
            if let Some(i) = player_index(g.players, player_id) {
                lemma_balance_wf(g, i, g.players[i].balance + g.pot_money);
            }
        },
        TileType::GoToJail => {
            lemma_send_to_jail_wf(g, player_id);
        },
        _ => {},
    }
}

/// A move by the dice keeps a game well formed: the piece stays on the board.
pub proof fn lemma_move_wf(g: GameView, player_id: PlayerId, i: int, d1: u8, d2: u8, events: Seq<EventView>)
    requires
        well_formed(g),
        0 <= i < g.players.len(),
    ensures
        well_formed(move_and_land(g, player_id, i, d1, d2, events).0),
{
    let p = g.players[i];
    let to = moved_to(p.position, d1 + d2);
    let g1 = set_player(g, i, Player { position: to, ..p });
    lemma_set_player_wf(g, i, Player { position: to, ..p });
    if passes_go(p.position, to) {
        lemma_balance_wf(g1, i, g1.players[i].balance + 200);
    }
    let g2 = advance(g, i, d1, d2);
    lemma_land_wf(g2, player_id, to);
}

/// A roll keeps a game well formed.
pub proof fn law_roll_wf(g: GameView, d1: u8, d2: u8)
    requires
        well_formed(g),
    ensures
        roll(g, d1, d2) matches Ok((g2, _)) ==> well_formed(g2),
{
    if let Some(t) = g.turn {
        if t.phase == TurnPhase::WaitingForRoll {
            let t1 = rolled_turn(t, d1, d2);
            let g1 = GameView { turn: Some(t1), ..g };
            assert(well_formed(g1));
            lemma_player_index(g1.players, t.player_id);
            if t1.doubles_count >= 3 {
                lemma_send_to_jail_wf(g1, t.player_id);
            } else if let Some(i) = player_index(g1.players, t.player_id) {
                let p = g1.players[i];
                if !p.in_jail {
                    lemma_move_wf(g1, t.player_id, i, d1, d2, seq![]);
                    assert(roll(g, d1, d2)->Ok_0.0 == move_and_land(g1, t.player_id, i, d1, d2, seq![]).0);
                } else if d1 == d2 {
                    lemma_set_player_wf(g1, i, Player { in_jail: false, jail_turns: 0, ..p });
                    let g2 = escape_jail(g1, i);
                    lemma_move_wf(g2, t.player_id, i, d1, d2, seq![]);
                    assert(roll(g, d1, d2)->Ok_0.0 == move_and_land(g2, t.player_id, i, d1, d2, seq![]).0);
                } else if p.jail_turns + 1 >= 3 {
                    lemma_set_player_wf(g1, i, Player { balance: (p.balance - 50) as i32, in_jail: false, jail_turns: 0, ..p });
                    let g2 = forced_bail(g1, i);
                    lemma_move_wf(g2, t.player_id, i, d1, d2, seq![]);
                    assert(roll(g, d1, d2)->Ok_0.0 == move_and_land(g2, t.player_id, i, d1, d2, seq![]).0);
                } else {
                    lemma_set_player_wf(g1, i, Player { jail_turns: (p.jail_turns + 1) as u8, ..p });
                }
            }
        }
    }
}

/// Closing an auction keeps a game well formed.
pub proof fn lemma_end_auction_wf(g: GameView)
    requires
        well_formed(g),
    ensures
        well_formed(end_auction(g).0),
{
    if let Some(a) = g.auction {
        let g1 = GameView { auction: None, ..g };
        if let Some(w) = a.highest_bidder {
            lemma_player_index(g1.players, w);
            if let Some(i) = player_index(g1.players, w) {
                let p = g1.players[i];
                lemma_balance_wf(g1, i, p.balance - (a.current_bid as i32));
                let g3 = set_player(g1, i, with_balance(p, p.balance - (a.current_bid as i32)));
                if g3.properties.contains_key(a.tile_idx) {
                    lemma_set_property_wf(g3, a.tile_idx, PropertyState { owner: Some(w), ..g3.properties[a.tile_idx] });
                }
            }
        }
    }
}

/// Every action other than a roll keeps a game well formed.
pub proof fn law_actions_wf(g: GameView, player_id: PlayerId, idx: u8, amount: u32)
    requires
        well_formed(g),
    ensures
        end_turn(g) matches Ok((g2, _)) ==> well_formed(g2),
        start_auction(g) matches Ok((g2, _)) ==> well_formed(g2),
        place_bid(g, player_id, amount) matches Ok((g2, _)) ==> well_formed(g2),
        pass_bid(g, player_id) matches Ok((g2, _)) ==> well_formed(g2),
        pay_jail(g) matches Ok((g2, _)) ==> well_formed(g2),
        build_house(g, player_id, idx) matches Ok((g2, _)) ==> well_formed(g2),
        mortgage(g, player_id, idx) matches Ok((g2, _)) ==> well_formed(g2),
        unmortgage(g, player_id, idx) matches Ok((g2, _)) ==> well_formed(g2),
{
    lemma_player_index(g.players, player_id);
    lemma_end_auction_wf(record_pass(g, player_id));
    if let Some(t) = g.turn {
        lemma_player_index(g.players, t.player_id);
        if let Some(i) = player_index(g.players, t.player_id) {
            let p = g.players[i];
            lemma_set_player_wf(g, i, Player { balance: (p.balance - 50) as i32, in_jail: false, jail_turns: 0, ..p });
        }
    }
    if let Some(i) = player_index(g.players, player_id) {
        let p = g.players[i];
        let t = board_tile(idx);
        lemma_balance_wf(g, i, p.balance - t.build_cost);
        lemma_balance_wf(g, i, p.balance + t.mortgage_value);
        lemma_balance_wf(g, i, p.balance - unmortgage_cost(t.mortgage_value));
        if g.properties.contains_key(idx) {
            let ps = g.properties[idx];
            let h = super::rules::houses_on(g, idx);
            if h < 5 {
                lemma_set_property_wf(
                    set_player(g, i, with_balance(p, p.balance - t.build_cost)),
                    idx,
                    PropertyState { houses: (h + 1) as u8, ..ps },
                );
            }
            lemma_set_property_wf(
                set_player(g, i, with_balance(p, p.balance + t.mortgage_value)),
                idx,
                PropertyState { is_mortgaged: true, ..ps },
            );
            lemma_set_property_wf(
                set_player(g, i, with_balance(p, p.balance - unmortgage_cost(t.mortgage_value))),
                idx,
                PropertyState { is_mortgaged: false, ..ps },
            );
        }
    }
}

/// Every event from a player keeps a game well formed, whatever the dice.
pub proof fn law_handle_event_wf(g: GameView, player_id: PlayerId, event: ClientEvent, d1: u8, d2: u8)
    requires
        well_formed(g),
    ensures
        handle_event(g, player_id, event, d1, d2) matches Ok((g2, _)) ==> well_formed(g2),
{
    law_roll_wf(g, d1, d2);
    law_buy_wf(g);
    match event {
        ClientEvent::Bid { amount } => law_actions_wf(g, player_id, 0, amount),
        ClientEvent::Build { tile_idx } => law_actions_wf(g, player_id, tile_idx, 0),
        ClientEvent::Mortgage { tile_idx } => law_actions_wf(g, player_id, tile_idx, 0),
        ClientEvent::Unmortgage { tile_idx } => law_actions_wf(g, player_id, tile_idx, 0),
        _ => law_actions_wf(g, player_id, 0, 0),
    }
}

/// A new game is well formed.
pub proof fn law_new_game_wf(id: Seq<char>, config: GameConfig)
    ensures
        well_formed(new_game(id, config)),
{
}

/// A player joining (on GO) keeps a game well formed.
pub proof fn law_join_wf(
    g: GameView,
    g2: GameView,
    id: PlayerId,
    name: Seq<char>,
    color: Seq<char>,
    is_host: bool,
    is_bot: bool,
    message: Seq<char>,
)
    requires
        well_formed(g),
        adds_player(g, g2, id, name, color, is_host, is_bot, message),
    ensures
        well_formed(g2),
{
    assert forall|j: int| 0 <= j < g2.players.len() implies (#[trigger] g2.players[j]).position < 40 by {
        if j < g.players.len() {
            assert(g2.players[j] == g.players[j]);
        }
    }
}

/// Starting the game keeps it well formed.
pub proof fn law_start_wf(g: GameView, order: Seq<PlayerId>)
    requires
        well_formed(g),
    ensures
        well_formed(started(g, order)),
{
}

/// A bankruptcy keeps a game well formed.
pub proof fn law_bankrupt_wf(g: GameView, debtor: PlayerId, creditor: Option<PlayerId>)
    requires
        well_formed(g),
    ensures
        well_formed(bankrupt(g, debtor, creditor)),
{
    lemma_player_index(g.players, debtor);
    if let Some(c) = creditor {
        lemma_player_index(g.players, c);
    }
    let g2 = bankrupt(g, debtor, creditor);
    assert(g2.properties.dom() =~= g.properties.dom());
    assert forall|j: int| 0 <= j < g2.players.len() implies (#[trigger] g2.players[j]).position < 40 by {
        assert(g2.players[j].position == g.players[j].position);
    }
}

/// After a bankruptcy the debtor is out of the game with nothing: bankrupt, a
/// zero balance, no property and no card; where a creditor (another player)
/// is named, every property the debtor held is the creditor's.
pub proof fn law_bankrupt_leaves_nothing(g: GameView, debtor: PlayerId, creditor: Option<PlayerId>)
    requires
        creditor != Some(debtor),
        player_index(g.players, debtor) is Some,
    ensures
        ({
            let g2 = bankrupt(g, debtor, creditor);
            let i = player_index(g.players, debtor).unwrap();
            &&& g2.players[i].is_bankrupt
            &&& g2.players[i].balance == 0
            &&& g2.players[i].get_out_cards == 0
            &&& forall|k: u8| #[trigger] g2.properties.contains_key(k) ==> g2.properties[k].owner
                != Some(debtor)
            &&& forall|k: u8|
                g.properties.contains_key(k) && g.properties[k].owner == Some(debtor) ==> (
                #[trigger] g2.properties[k]).owner == creditor
        }),
{
    lemma_player_index(g.players, debtor);
    if let Some(c) = creditor {
        lemma_player_index(g.players, c);
    }
}

/// Moving cards leaves every balance as it is.
pub proof fn lemma_cards_keep_balances(g: GameView, fi: Option<int>, ti: Option<int>, cards: u8)
    requires
        fi matches Some(i) ==> 0 <= i < g.players.len(),
        ti matches Some(j) ==> 0 <= j < g.players.len(),
    ensures
        total_balance(move_cards(g, fi, ti, cards).players) == total_balance(g.players),
{
    if cards > 0 {
        let g1 = match fi {
            Some(i) => {
                let p = Player { get_out_cards: (g.players[i].get_out_cards - cards) as u8, ..g.players[i] };
                lemma_total_balance_update(g.players, i, p);
                set_player(g, i, p)
            },
            None => g,
        };
        if let Some(j) = ti {
            let q = Player { get_out_cards: (g1.players[j].get_out_cards + cards) as u8, ..g1.players[j] };
            lemma_total_balance_update(g1.players, j, q);
        }
    }
}

/// A side of a trade taking effect between two players keeps the total of
/// the balances: money only changes hands.
pub proof fn law_trade_conserves_money(g: GameView, from: PlayerId, to: PlayerId, a: AssetsView)
    requires
        player_index(g.players, from) is Some,
        player_index(g.players, to) is Some,
        trade_transfer_fits(g, from, to, a),
    ensures
        total_balance(trade_transfer(g, from, to, a).players) == total_balance(g.players),
{
    lemma_player_index(g.players, from);
    lemma_player_index(g.players, to);
    let fi = player_index(g.players, from);
    let ti = player_index(g.players, to);
    let g1 = move_money(g, fi, ti, a.money);
    if a.money > 0 {
        let m = a.money as i32;
        let i = fi.unwrap();
        let j = ti.unwrap();
        lemma_total_balance_update(g.players, i, with_balance(g.players[i], g.players[i].balance - m));
        let g1a = set_player(g, i, with_balance(g.players[i], g.players[i].balance - m));
        lemma_total_balance_update(g1a.players, j, with_balance(g1a.players[j], g1a.players[j].balance + m));
    }
    let g2 = GameView { properties: move_properties(g1.properties, to, a.properties), ..g1 };
    lemma_cards_keep_balances(g2, fi, ti, a.get_out_cards);
}

/// Three doubles in a row send the roller to jail (tile 10) and end the turn:
/// no further roll, and the doubles count starts again.
pub proof fn law_third_doubles_jail(g: GameView, d: u8)
    requires
        g.turn matches Some(t) && t.phase == TurnPhase::WaitingForRoll && t.doubles_count == 2,
        player_index(g.players, g.turn.unwrap().player_id) is Some,
    ensures
        ({
            let t = g.turn.unwrap();
            let i = player_index(g.players, t.player_id).unwrap();
            &&& roll(g, d, d) is Ok
            &&& roll(g, d, d)->Ok_0.0.players[i].in_jail
            &&& roll(g, d, d)->Ok_0.0.players[i].position == 10
            &&& roll(g, d, d)->Ok_0.0.turn == Some(
                TurnState {
                    phase: TurnPhase::TurnEnd,
                    can_roll_again: false,
                    doubles_count: 0,
                    ..rolled_turn(t, d, d)
                },
            )
        }),
{
    let t = g.turn.unwrap();
    let g1 = GameView { turn: Some(rolled_turn(t, d, d)), ..g };
    lemma_player_index(g1.players, t.player_id);
}

/// Moving by the dice puts the piece `d1 + d2` tiles further round the board,
/// and pays $200 exactly when it passes or lands on GO.
pub proof fn law_move_passes_go(g: GameView, i: int, d1: u8, d2: u8)
    requires
        0 <= i < g.players.len(),
        g.players[i].position < 40,
        d1 + d2 < 40,
        g.players[i].balance + 200 <= i32::MAX,
    ensures
        ({
            let p = g.players[i];
            let g2 = advance(g, i, d1, d2);
            &&& g2.players[i].position == (p.position + d1 + d2) % 40
            &&& g2.players[i].balance == if p.position + d1 + d2 >= 40 {
                p.balance + 200
            } else {
                p.balance as int
            }
        }),
{
}

/// The player whose turn comes next is still in the game.
pub proof fn law_next_player_active(g: GameView)
    ensures
        spec_next_player(g) matches Some(n) ==> is_active_id(g.players, n),
{
    let s = turn_place(g);
    if exists|k: int| is_next_step(g, s, k) {
        let k = choose|k: int| is_next_step(g, s, k);
        assert(is_next_step(g, s, k));
    }
}

/// The game ends only when at most one player is left, and the winner named is
/// a player still in the game.
pub proof fn law_game_over_has_winner(g: GameView)
    ensures
        end_turn(g) matches Ok((g2, out)) ==> (g2.phase == GamePhase::GameOver && g.phase
            != GamePhase::GameOver ==> {
            &&& spec_active_count(g.players) <= 1
            &&& out.events.len() == 1
            &&& out.events[0] matches EventView::GameOver { winner } && (exists|i: int|
                0 <= i < g.players.len() && g.players[i].id == winner && !g.players[i].is_bankrupt)
        }),
{
    if let Ok((g2, out)) = end_turn(g) {
        if g2.phase == GamePhase::GameOver && g.phase != GamePhase::GameOver {
            law_next_player_active(g);
            let n = spec_next_player(g).unwrap();
            lemma_player_index(g.players, n);
            let j = player_index(g.players, n).unwrap();
            assert(!g.players[j].is_bankrupt);
            assert(exists|i: int| is_first_solvent(g.players, i)) by {
                lemma_first_solvent_exists(g.players, j);
            }
            let w = first_solvent(g.players);
            assert(is_first_solvent(g.players, w));
        }
    }
}

/// Where some player is not bankrupt, there is a first such player.
pub proof fn lemma_first_solvent_exists(ps: Seq<Player>, k: int)
    requires
        0 <= k < ps.len(),
        !ps[k].is_bankrupt,
    ensures
        exists|i: int| is_first_solvent(ps, i),
    decreases k,
{
    if exists|j: int| 0 <= j < k && !ps[j].is_bankrupt {
        let j = choose|j: int| 0 <= j < k && !ps[j].is_bankrupt;
        lemma_first_solvent_exists(ps, j);
    } else {
        assert(is_first_solvent(ps, k));
    }
}

/// An accepted bid is above the previous one, and its bidder leads.
pub proof fn law_bid_raises(g: GameView, player_id: PlayerId, amount: u32)
    requires
        g.auction is Some,
    ensures
        place_bid(g, player_id, amount) matches Ok((g2, _)) ==> (g2.auction matches Some(a) && (
        a.current_bid == amount && amount > g.auction.unwrap().current_bid && a.highest_bidder == Some(
            player_id,
        ))),
{
}

/// When an auction closes, the highest bidder pays the bid and owns the tile.
pub proof fn law_auction_winner_pays(g: GameView)
    requires
        g.auction is Some,
        g.auction.unwrap().highest_bidder is Some,
        player_index(g.players, g.auction.unwrap().highest_bidder.unwrap()) is Some,
        g.properties.contains_key(g.auction.unwrap().tile_idx),
    ensures
        ({
            let a = g.auction.unwrap();
            let w = a.highest_bidder.unwrap();
            let i = player_index(g.players, w).unwrap();
            let g2 = end_auction(g).0;
            &&& g2.auction is None
            &&& g2.properties[a.tile_idx].owner == Some(w)
            &&& g2.players[i].balance == (g.players[i].balance - (a.current_bid as i32)) as i32
        }),
{
    let w = g.auction.unwrap().highest_bidder.unwrap();
    lemma_player_index(g.players, w);
}

/// A bought tile belongs to the buyer, who paid its price out of a balance
/// that covered it.
pub proof fn law_buy_owns(g: GameView)
    ensures
        buy(g) matches Ok((g2, _)) ==> ({
            let pid = g.turn.unwrap().player_id;
            let pos = position_of(g, pid);
            let i = player_index(g.players, pid).unwrap();
            &&& g.properties.contains_key(pos) ==> g2.properties[pos].owner == Some(pid)
            &&& g2.players[i].balance == g.players[i].balance - board_tile(pos).price
            &&& g2.players[i].balance >= 0
        }),
{
    if let Some(t) = g.turn {
        lemma_player_index(g.players, t.player_id);
        lemma_board_facts(position_of(g, t.player_id));
    }
}

/// Paying bail frees the player, costs $50, and lets the player roll.
pub proof fn law_pay_jail_frees(g: GameView)
    ensures
        pay_jail(g) matches Ok((g2, _)) ==> ({
            let pid = g.turn.unwrap().player_id;
            let i = player_index(g.players, pid).unwrap();
            &&& !g2.players[i].in_jail
            &&& g2.players[i].balance == g.players[i].balance - 50
            &&& g2.turn.unwrap().phase == TurnPhase::WaitingForRoll
        }),
{
    if let Some(t) = g.turn {
        lemma_player_index(g.players, t.player_id);
    }
}

/// A room never holds more players than its configuration allows.
pub proof fn law_room_capacity(
    g: GameView,
    g2: GameView,
    id: PlayerId,
    name: Seq<char>,
    color: Seq<char>,
    is_bot: bool,
    message: Seq<char>,
)
    requires
        join_refusal(g) is None,
        adds_player(g, g2, id, name, color, false, is_bot, message),
    ensures
        g2.players.len() <= g.config.max_players,
        g2.config == g.config,
{
}

/// An accepted trade between two players hands every offered property to the
/// receiver and every requested property to the proposer.
pub proof fn law_trade_moves_properties(g: GameView, trade_id: u128)
    requires
        g.active_trade is Some,
    ensures
        accept_trade(g, trade_id).1 is Ok ==> ({
            let t = g.active_trade.unwrap();
            let g2 = accept_trade(g, trade_id).0;
            &&& forall|k: int|
                0 <= k < t.offering.properties.len() ==> (#[trigger] g2.properties[t.offering.properties[k]]).owner
                    == Some(t.to_player)
            &&& forall|k: int|
                0 <= k < t.requesting.properties.len() ==> (#[trigger] g2.properties[t.requesting.properties[k]]).owner
                    == Some(t.from_player)
        }),
{
    let t = g.active_trade.unwrap();
    if accept_trade(g, trade_id).1 is Ok {
        let g1 = trade_transfer(g, t.from_player, t.to_player, t.offering);
        let g2 = accept_trade(g, trade_id).0;
        assert forall|k: int| 0 <= k < t.offering.properties.len() implies (#[trigger] g2.properties[t.offering.properties[k]]).owner
            == Some(t.to_player) by {
            let idx = t.offering.properties[k];
            assert(t.offering.properties.contains(idx));
            if t.requesting.properties.contains(idx) {
                let m = choose|m: int| 0 <= m < t.requesting.properties.len() && t.requesting.properties[m] == idx;
                assert(g.properties[t.requesting.properties[m]].owner == Some(t.to_player));
            }
        }
        assert forall|k: int| 0 <= k < t.requesting.properties.len() implies (#[trigger] g2.properties[t.requesting.properties[k]]).owner
            == Some(t.from_player) by {
            let idx = t.requesting.properties[k];
            assert(t.requesting.properties.contains(idx));
        }
    }
}

/// A player in jail who fails to roll doubles for the third time pays $50 bail,
/// leaves jail, and then moves by the dice.
pub proof fn law_third_jail_failure_pays_bail(g: GameView, d1: u8, d2: u8)
    requires
        d1 != d2,
        g.turn matches Some(t) && t.phase == TurnPhase::WaitingForRoll && t.doubles_count < 3,
        player_index(g.players, g.turn.unwrap().player_id) matches Some(i) && g.players[i].in_jail
            && g.players[i].jail_turns == 2,
    ensures
        ({
            let t = g.turn.unwrap();
            let i = player_index(g.players, t.player_id).unwrap();
            let g1 = GameView { turn: Some(rolled_turn(t, d1, d2)), ..g };
            let freed = forced_bail(g1, i);
            &&& !freed.players[i].in_jail
            &&& freed.players[i].balance == (g.players[i].balance - 50) as i32
            &&& roll(g, d1, d2) is Ok
            &&& roll(g, d1, d2)->Ok_0.0 == move_and_land(freed, t.player_id, i, d1, d2, seq![]).0
        }),
{
    let t = g.turn.unwrap();
    let g1 = GameView { turn: Some(rolled_turn(t, d1, d2)), ..g };
    lemma_player_index(g.players, t.player_id);
}

/// One side of a trade leaves every player's id and position, the tiles of the
/// property table, every building count, the log and the pending offer as they were.
pub proof fn lemma_trade_transfer_keeps(g: GameView, from: PlayerId, to: PlayerId, a: AssetsView)
    ensures
        ({
            let g2 = trade_transfer(g, from, to, a);
            &&& g2.players.len() == g.players.len()
            &&& forall|i: int|
                0 <= i < g.players.len() ==> (#[trigger] g2.players[i]).id == g.players[i].id
                    && g2.players[i].position == g.players[i].position
            &&& player_ids(g2.players) == player_ids(g.players)
            &&& g2.properties.dom() == g.properties.dom()
            &&& forall|k: u8|
                #[trigger] g2.properties.contains_key(k) ==> g2.properties[k].houses
                    == g.properties[k].houses
            &&& g2.logs == g.logs
            &&& g2.active_trade == g.active_trade
        }),
{
    lemma_player_index(g.players, from);
    lemma_player_index(g.players, to);
    let fi = player_index(g.players, from);
    let ti = player_index(g.players, to);
    let g1 = move_money(g, fi, ti, a.money);
    assert(move_properties(g1.properties, to, a.properties).dom() =~= g1.properties.dom());
    let g2 = trade_transfer(g, from, to, a);
    assert(player_ids(g2.players) =~= player_ids(g.players));
}

/// Accepting a pending trade keeps the total of the balances: money only
/// changes hands between the two players.
pub proof fn law_accept_trade_conserves_money(g: GameView, trade_id: u128)
    requires
        accept_transfers(g, trade_id) ==> accept_fits(g),
    ensures
        total_balance(accept_trade(g, trade_id).0.players) == total_balance(g.players),
{
    if let Some(t) = g.active_trade {
        if t.id == trade_id && t.status == TradeStatus::Pending && assets_valid(g, t.from_player, t.offering)
            && assets_valid(g, t.to_player, t.requesting) {
            law_trade_conserves_money(g, t.from_player, t.to_player, t.offering);
            let g1 = trade_transfer(g, t.from_player, t.to_player, t.offering);
            lemma_trade_transfer_keeps(g, t.from_player, t.to_player, t.offering);
            law_trade_conserves_money(g1, t.to_player, t.from_player, t.requesting);
        }
    }
}

/// Answering a trade, by accepting or by rejecting it, keeps a game well formed.
pub proof fn law_trade_answer_wf(g: GameView, trade_id: u128)
    requires
        well_formed(g),
    ensures
        well_formed(accept_trade(g, trade_id).0),
        well_formed(reject_trade(g, trade_id).0),
{
    if let Some(t) = g.active_trade {
        let g1 = trade_transfer(g, t.from_player, t.to_player, t.offering);
        lemma_trade_transfer_keeps(g, t.from_player, t.to_player, t.offering);
        let g2 = trade_transfer(g1, t.to_player, t.from_player, t.requesting);
        lemma_trade_transfer_keeps(g1, t.to_player, t.from_player, t.requesting);
        assert forall|i: int| 0 <= i < g2.players.len() implies (#[trigger] g2.players[i]).position < 40 by {
            assert(g1.players[i].position == g.players[i].position);
        }
        assert forall|k: u8| #[trigger] g2.properties.contains_key(k) implies g2.properties[k].houses <= 5 by {
            assert(g1.properties.contains_key(k));
        }
    }
}

} // verus!
