//! Game Engine - Core game logic and state machine

use vstd::prelude::*;
use vstd::string::*;

use super::board::{board_tile, get_tile, lemma_board_facts, ColorGroup, TileType};
use super::rules::{balance_of, event_fits, event_refusal_events, handle_event, refused_step_ok, roll_refusal_events, builds_ahead, build_house, mortgage, mortgage_fits, unmortgage, roll_found, roll_found_fits, end_auction, end_auction_fits, pass_bid, pay_jail, record_pass, buy, start_auction, place_bid, position_of, send, tile_name, end_turn, first_solvent, is_first_solvent, lemma_player_index, set_property, lemma_land_keeps_players, advance, escape_jail, forced_bail, move_and_land, move_fits, roll, roll_fits, rolled_turn, stay_in_jail, step_ok, land, land_fits, count_owned, has_full_set, owns, rent, rent_fits, send_to_jail, set_phase, transfer_fits, transfer_money};
use super::state::{index_of, spec_active_count, AuctionState, turn_place, is_next_step, first_index, lemma_first_index_spec, GamePhase, 
    log_game, player_index, spec_dice_sum, GameState, GameView, PlayerId, PropertyState,
    TurnPhase, TurnState,
};
use super::text::{push_int, push_nat};
use super::events::{ClientEvent, events_view, EventView, Outcome, Refusal, ServerEvent};
use super::random::roll_die;
use crate::error::{AppError, ErrorView};

verus! {

broadcast use vstd::std_specs::hash::group_hash_axioms;

pub struct GameEngine;

impl GameEngine {
    /// Sets the phase of the current turn, where there is one
    pub fn set_turn_phase(game: &mut GameState, phase: TurnPhase)
        ensures
            final(game)@ == set_phase(old(game)@, phase),
    {
        if let Some(t) = game.turn {
            game.turn = Some(TurnState { phase, ..t });
        }
    }

    /// Send a player to jail
    pub fn send_to_jail(game: &mut GameState, player_id: PlayerId)
        ensures
            final(game)@ == send_to_jail(old(game)@, player_id),
    {
        if let Some(idx) = game.player_position(player_id) {
            game.players[idx].position = 10;
            game.players[idx].in_jail = true;
            game.players[idx].jail_turns = 0;
            let mut msg = game.players[idx].name.clone();
            msg.append(" was sent to jail!");
            game.log(msg);
        }
        if let Some(t) = game.turn {
            game.turn = Some(
                TurnState { phase: TurnPhase::TurnEnd, can_roll_again: false, doubles_count: 0, ..t },
            );
        }
        assert(final(game)@ =~= send_to_jail(old(game)@, player_id));
    }

    /// Transfer money between players
    pub fn transfer_money(
        game: &mut GameState,
        from: PlayerId,
        to: PlayerId,
        amount: i32,
        reason: &str,
    )
        requires
            transfer_fits(old(game)@, from, to, amount),
        ensures
            final(game)@ == transfer_money(old(game)@, from, to, amount, reason@),
    {
        let from_idx = game.player_position(from);
        let to_idx = game.player_position(to);
        if let (Some(fi), Some(ti)) = (from_idx, to_idx) {
            let mut msg = game.players[fi].name.clone();
            msg.append(" paid $");
            push_int(&mut msg, amount);
            msg.append(" to ");
            msg.append(game.players[ti].name.as_str());
            msg.append(" for ");
            msg.append(reason);
            game.players[fi].balance = game.players[fi].balance - amount;
            game.players[ti].balance = game.players[ti].balance + amount;
            game.log(msg);
        }
        assert(final(game)@ =~= transfer_money(old(game)@, from, to, amount, reason@));
    }

    /// Number of tiles of a type that a player owns
    pub fn count_owned_tiles(game: &GameState, owner: PlayerId, tile_type: TileType) -> (r: usize)
        ensures
            r == count_owned(game.properties@, owner, tile_type, 40),
    {
        let mut count: usize = 0;
        let mut idx: u8 = 0;
        while idx < 40
            invariant
                idx <= 40,
                count == count_owned(game.properties@, owner, tile_type, idx as nat),
                count <= idx,
            decreases 40 - idx,
        {
            let owned = match game.properties.get(&idx) {
                Some(p) => p.owner == Some(owner),
                None => false,
            };
            if owned {
                if let Some(t) = get_tile(idx) {
                    if t.tile_type == tile_type {
                        count = count + 1;
                    }
                }
            }
            idx = idx + 1;
        }
        count
    }

    /// Check if player owns all properties in a color group
    pub fn player_has_full_set(game: &GameState, player_id: PlayerId, group: ColorGroup) -> (r: bool)
        ensures
            r == has_full_set(game.properties@, player_id, group),
    {
        let mut idx: u8 = 0;
        while idx < 40
            invariant
                idx <= 40,
                forall|i: u8|
                    i < idx && #[trigger] board_tile(i).group == Some(group) ==> owns(
                        game.properties@,
                        player_id,
                        i,
                    ),
            decreases 40 - idx,
        {
            if let Some(t) = get_tile(idx) {
                let in_group = match t.group {
                    Some(g) => g == group,
                    None => false,
                };
                if in_group {
                    let owned = match game.properties.get(&idx) {
                        Some(p) => p.owner == Some(player_id),
                        None => false,
                    };
                    if !owned {
                        assert(board_tile(idx).group == Some(group));
                        return false;
                    }
                }
            }
            idx = idx + 1;
        }
        true
    }

    /// Calculate rent for a property
    pub fn calculate_rent(game: &GameState, tile_idx: u8) -> (r: u32)
        requires
            rent_fits(game@),
        ensures
            r == rent(game@, tile_idx),
    {
        let tile = match get_tile(tile_idx) {
            Some(t) => t,
            None => return 0,
        };
        proof {
            lemma_board_facts(tile_idx);
        }
        let prop_state = match game.properties.get(&tile_idx) {
            Some(p) => *p,
            None => return 0,
        };
        let owner_id = match prop_state.owner {
            Some(id) => id,
            None => return 0,
        };
        if prop_state.is_mortgaged {
            return 0;
        }
        match tile.tile_type {
            TileType::Property => {
                let houses = prop_state.houses;
                if houses > 0 {
                    let k = (houses - 1) as usize;
                    if k < tile.rent_schedule.len() {
                        tile.rent_schedule[k]
                    } else {
                        tile.rent_base
                    }
                } else {
                    let group = tile.group.unwrap();
                    let has_full_set = Self::player_has_full_set(game, owner_id, group);
                    if has_full_set && game.config.double_rent_on_full_set {
                        tile.rent_base * 2
                    } else {
                        tile.rent_base
                    }
                }
            },
            TileType::Railroad => {
                let rr_count = Self::count_owned_tiles(game, owner_id, TileType::Railroad);
                let k = if rr_count == 0 {
                    0
                } else {
                    rr_count - 1
                };
                if k < tile.rent_schedule.len() {
                    tile.rent_schedule[k]
                } else {
                    25
                }
            },
            TileType::Utility => {
                let util_count = Self::count_owned_tiles(game, owner_id, TileType::Utility);
                let multiplier: u32 = if util_count >= 2 {
                    10
                } else {
                    4
                };
                let dice_sum: u32 = match &game.turn {
                    Some(t) => t.dice_sum() as u32,
                    None => 7,
                };
                dice_sum * multiplier
            },
            _ => 0,
        }
    }

    /// Handle what happens when landing on a tile
    pub fn handle_tile_landing(game: &mut GameState, player_id: PlayerId, tile_idx: u8) -> (r: Result<
        (),
        AppError,
    >)
        requires
            land_fits(old(game)@, player_id, tile_idx),
        ensures
            match r {
                Ok(_) => tile_idx < 40 && final(game)@ == land(old(game)@, player_id, tile_idx),
                Err(e) => tile_idx >= 40 && e@ == ErrorView::GameError("Invalid tile"@)
                    && final(game)@ == old(game)@,
            },
    {
        let tile = match get_tile(tile_idx) {
            Some(t) => t,
            None => {
                return Err(AppError::game("Invalid tile"));
            },
        };
        proof {
            lemma_board_facts(tile_idx);
        }
        let ghost g0 = game@;
        match tile.tile_type {
            TileType::Go => {
                Self::set_turn_phase(game, TurnPhase::TurnEnd);
            },
            TileType::Property | TileType::Railroad | TileType::Utility => {
                let owner = match game.properties.get(&tile_idx) {
                    Some(p) => p.owner,
                    None => None,
                };
                match owner {
                    None => {
                        Self::set_turn_phase(game, TurnPhase::BuyDecision);
                    },
                    Some(owner_id) => {
                        if owner_id == player_id {
                            Self::set_turn_phase(game, TurnPhase::TurnEnd);
                        } else {
                            let is_mortgaged = match game.properties.get(&tile_idx) {
                                Some(p) => p.is_mortgaged,
                                None => false,
                            };
                            if !is_mortgaged {
                                let owner_in_jail = match game.get_player(owner_id) {
                                    Some(p) => p.in_jail,
                                    None => false,
                                };
                                let collect_in_jail = game.config.collect_rent_in_jail;
                                if !owner_in_jail || collect_in_jail {
                                    let rent = Self::calculate_rent(game, tile_idx);
                                    let mut reason = String::from_str("rent on ");
                                    reason.append(tile.name.as_str());
                                    Self::transfer_money(
                                        game,
                                        player_id,
                                        owner_id,
                                        rent as i32,
                                        reason.as_str(),
                                    );
                                }
                            }
                            Self::set_turn_phase(game, TurnPhase::TurnEnd);
                        }
                    },
                }
            },
            TileType::Tax => {
                if let Some(idx) = game.player_position(player_id) {
                    let tax = tile.rent_base as i32;
                    game.players[idx].balance = game.players[idx].balance - tax;
                    if game.config.free_parking_jackpot {
                        game.pot_money = game.pot_money + tax;
                    }
                    let mut msg = game.players[idx].name.clone();
                    msg.append(" paid $");
                    push_int(&mut msg, tax);
                    msg.append(" tax");
                    game.log(msg);
                }
                Self::set_turn_phase(game, TurnPhase::TurnEnd);
            },
            TileType::Chance => {
                if let Some(idx) = game.player_position(player_id) {
                    let mut msg = game.players[idx].name.clone();
                    msg.append(" drew a Surprise card");
                    game.log(msg);
                }
                Self::set_turn_phase(game, TurnPhase::TurnEnd);
            },
            TileType::CommunityChest => {
                if let Some(idx) = game.player_position(player_id) {
                    let mut msg = game.players[idx].name.clone();
                    msg.append(" drew a Treasure card");
                    game.log(msg);
                }
                Self::set_turn_phase(game, TurnPhase::TurnEnd);
            },
            TileType::FreeParking => {
                if game.config.free_parking_jackpot && game.pot_money > 0 {
                    let pot = game.pot_money;
                    if let Some(idx) = game.player_position(player_id) {
                        game.players[idx].balance = game.players[idx].balance + pot;
                        let mut msg = game.players[idx].name.clone();
                        msg.append(" collected $");
                        push_int(&mut msg, pot);
                        msg.append(" from Free Parking!");
                        game.log(msg);
                    }
                    game.pot_money = 0;
                }
                Self::set_turn_phase(game, TurnPhase::TurnEnd);
            },
            TileType::Jail => {
                Self::set_turn_phase(game, TurnPhase::TurnEnd);
            },
            TileType::GoToJail => {
                Self::send_to_jail(game, player_id);
            },
        }
        assert(final(game)@ =~= land(g0, player_id, tile_idx));
        Ok(())
    }

    /// Moves player `idx` by the dice, pays $200 on passing GO, and lands
    fn move_and_land(
        game: &mut GameState,
        player_id: PlayerId,
        idx: usize,
        d1: u8,
        d2: u8,
        events: Vec<ServerEvent>,
    ) -> (r: Outcome)
        requires
            idx < old(game)@.players.len(),
            move_fits(old(game)@, player_id, idx as int, d1, d2),
        ensures
            move_and_land(old(game)@, player_id, idx as int, d1, d2, events_view(events@)) == (
            final(game)@, r@),
    {
        let ghost g0 = game@;
        let mut events = events;
        let old_pos = game.players[idx].position;
        let new_pos = (old_pos + d1 + d2) % 40;
        let passed_go = new_pos < old_pos && old_pos != 0;
        game.players[idx].position = new_pos;
        if passed_go {
            game.players[idx].balance = game.players[idx].balance + 200;
            let mut msg = game.players[idx].name.clone();
            msg.append(" passed GO and collected $200");
            game.log(msg);
        }
        assert(game@ =~= advance(g0, idx as int, d1, d2));
        let ghost ev0 = events@;
        events.push(ServerEvent::PlayerMoved { player_id, from: old_pos, to: new_pos, passed_go });
        assert(events_view(events@) =~= events_view(ev0).push(
            EventView::PlayerMoved { player_id, from: old_pos, to: new_pos, passed_go },
        ));
        proof {
            lemma_land_keeps_players(game@, player_id, new_pos);
        }
        let _ = Self::handle_tile_landing(game, player_id, new_pos);
        if d1 == d2 && !game.players[idx].in_jail {
            if let Some(t) = game.turn {
                game.turn = Some(TurnState { can_roll_again: true, ..t });
            }
        }
        let r = Outcome { events, broadcast_state: true };
        assert(move_and_land(g0, player_id, idx as int, d1, d2, events_view(ev0)).0 =~= game@);
        r
    }

    /// Applies a roll of `d1` and `d2` for the current player; where the
    /// player is not found, the refusal still tells the room the dice
    #[verifier::rlimit(40)]
    pub fn apply_roll(game: &mut GameState, d1: u8, d2: u8) -> (r: Result<Outcome, Refusal>)
        requires
            roll_fits(old(game)@, d1, d2),
        ensures
            refused_step_ok(r, final(game)@, old(game)@, roll(old(game)@, d1, d2), roll_refusal_events(old(game)@, d1, d2)),
    {
        let ghost g0 = game@;
        let t = match game.turn {
            Some(t) => t,
            None => {
                return Err(Refusal::quiet(AppError::game("No active turn")));
            },
        };
        if t.phase != TurnPhase::WaitingForRoll {
            return Err(Refusal::quiet(AppError::game("Cannot roll now")));
        }
        let is_doubles = d1 == d2;
        let _dice_sum = d1 + d2;
        let mut t1 = t;
        t1.dice = Some((d1, d2));
        t1.phase = TurnPhase::Moving;
        if is_doubles {
            t1.doubles_count = t1.doubles_count + 1;
        }
        let player_id = t1.player_id;
        let mut events: Vec<ServerEvent> = Vec::new();
        events.push(ServerEvent::DiceResult { player_id, dice: (d1, d2), is_doubles });
        let dice_ev = EventView::DiceResult { player_id, dice: (d1, d2), is_doubles };
        assert(events_view(events@) =~= seq![dice_ev]);
        // Three doubles in a row: jail
        if t1.doubles_count >= 3 {
            game.turn = Some(t1);
            Self::send_to_jail(game, player_id);
            events.push(ServerEvent::PlayerJailed { player_id });
            assert(events_view(events@) =~= seq![dice_ev, EventView::PlayerJailed { player_id }]);
            return Ok(Outcome { events, broadcast_state: false });
        }
        let player_idx = match game.player_position(player_id) {
            Some(i) => i,
            None => {
                // The dice were cast: the room hears of them all the same
                return Err(Refusal { error: AppError::game("Player not found"), events });
            },
        };
        game.turn = Some(t1);
        assert(game@ =~= GameView { turn: Some(rolled_turn(t, d1, d2)), ..g0 });
        Ok(Self::roll_found(game, player_id, player_idx, d1, d2, events))
    }

    /// A roll by a player who was found: leaving jail, staying there, or moving
    fn roll_found(
        game: &mut GameState,
        player_id: PlayerId,
        player_idx: usize,
        d1: u8,
        d2: u8,
        events: Vec<ServerEvent>,
    ) -> (r: Outcome)
        requires
            player_idx < old(game)@.players.len(),
            events@.len() == 1,
            roll_found_fits(old(game)@, player_id, player_idx as int, d1, d2),
        ensures
            roll_found(old(game)@, player_id, player_idx as int, d1, d2, events@[0]@) == (
            final(game)@, r@),
    {
        let ghost g1 = game@;
        let ghost dice_ev = events@[0]@;
        assert(events_view(events@) =~= seq![dice_ev]);
        let mut events = events;
        let is_doubles = d1 == d2;
        if game.players[player_idx].in_jail {
            if is_doubles {
                // Freed by doubles
                game.players[player_idx].in_jail = false;
                game.players[player_idx].jail_turns = 0;
                let mut msg = game.players[player_idx].name.clone();
                msg.append(" rolled doubles and escaped jail!");
                game.log(msg);
                assert(game@ =~= escape_jail(g1, player_idx as int));
                events.push(
                    ServerEvent::PlayerFreed { player_id, method: String::from_str("dice") },
                );
                assert(events_view(events@) =~= seq![
                    dice_ev,
                    EventView::PlayerFreed { player_id, method: "dice"@ },
                ]);
            } else {
                game.players[player_idx].jail_turns = game.players[player_idx].jail_turns + 1;
                if game.players[player_idx].jail_turns >= 3 {
                    // Forced to pay
                    game.players[player_idx].balance = game.players[player_idx].balance - 50;
                    game.players[player_idx].in_jail = false;
                    game.players[player_idx].jail_turns = 0;
                    let mut msg = game.players[player_idx].name.clone();
                    msg.append(" was forced to pay $50 bail");
                    game.log(msg);
                    assert(game@ =~= forced_bail(g1, player_idx as int));
                } else {
                    let mut msg = game.players[player_idx].name.clone();
                    msg.append(" failed to roll doubles in jail");
                    game.log(msg);
                    if let Some(t2) = game.turn {
                        game.turn = Some(
                            TurnState { phase: TurnPhase::TurnEnd, can_roll_again: false, ..t2 },
                        );
                    }
                    assert(game@ =~= stay_in_jail(g1, player_idx as int));
                    return Outcome { events, broadcast_state: false };
                }
            }
        }
        Self::move_and_land(game, player_id, player_idx, d1, d2, events)
    }

    /// Roll dice and move player
    pub fn roll_dice(game: &mut GameState) -> (r: Result<Outcome, Refusal>)
        requires
            forall|d1: u8, d2: u8| 1 <= d1 <= 6 && 1 <= d2 <= 6 ==> roll_fits(old(game)@, d1, d2),
        ensures
            exists|d1: u8, d2: u8|
                1 <= d1 <= 6 && 1 <= d2 <= 6 && refused_step_ok(
                    r,
                    final(game)@,
                    old(game)@,
                    roll(old(game)@, d1, d2),
                    roll_refusal_events(old(game)@, d1, d2),
                ),
    {
        let d1 = roll_die();
        let d2 = roll_die();
        Self::apply_roll(game, d1, d2)
    }

    /// A refusal of an action that has nothing more to tell the room
    fn refused_quietly(r: Result<Outcome, AppError>) -> (q: Result<Outcome, Refusal>)
        ensures
            match r {
                Ok(out) => q == Ok::<Outcome, Refusal>(out),
                Err(e) => q matches Err(x) && x.error == e && x.events@.len() == 0,
            },
    {
        match r {
            Ok(out) => Ok(out),
            Err(e) => Err(Refusal::quiet(e)),
        }
    }

    /// Replaces a property's state, where the tile is in the table
    fn set_property_state(game: &mut GameState, idx: u8, ps: PropertyState)
        ensures
            final(game)@ == set_property(old(game)@, idx, ps),
    {
        if game.properties.contains_key(&idx) {
            game.properties.insert(idx, ps);
        }
        assert(final(game)@ =~= set_property(old(game)@, idx, ps));
    }

    /// Index of the first player who is not bankrupt
    fn first_solvent_index(game: &GameState) -> (r: Option<usize>)
        ensures
            match r {
                Some(i) => is_first_solvent(game.players@, i as int) && first_solvent(game.players@)
                    == i,
                None => forall|j: int| 0 <= j < game.players@.len() ==> game.players@[j].is_bankrupt,
            },
    {
        let mut i: usize = 0;
        while i < game.players.len()
            invariant
                i <= game.players@.len(),
                forall|j: int| 0 <= j < i ==> game.players@[j].is_bankrupt,
            decreases game.players@.len() - i,
        {
            if !game.players[i].is_bankrupt {
                proof {
                    let c = first_solvent(game.players@);
                    assert(is_first_solvent(game.players@, i as int));
                    assert(is_first_solvent(game.players@, c));
                    if c < i {
                        assert(game.players@[c].is_bankrupt);
                    } else if c > i {
                        assert(game.players@[i as int].is_bankrupt);
                    }
                }
                return Some(i);
            }
            i = i + 1;
        }
        None
    }

    /// End the current turn
    pub fn end_turn(game: &mut GameState) -> (r: Result<Outcome, AppError>)
        ensures
            step_ok(r, final(game)@, old(game)@, end_turn(old(game)@)),
    {
        let ghost g0 = game@;
        let t = match game.turn {
            Some(t) => t,
            None => {
                return Err(AppError::game("No active turn"));
            },
        };
        if t.phase != TurnPhase::TurnEnd {
            return Err(AppError::game("Cannot end turn now"));
        }
        if t.can_roll_again {
            game.turn = Some(TurnState { phase: TurnPhase::WaitingForRoll, can_roll_again: false, ..t });
            let r = Outcome { events: Vec::new(), broadcast_state: false };
            assert(r@.events =~= seq![]);
            assert(game@ =~= end_turn(g0)->Ok_0.0);
            return Ok(r);
        }
        // Move to next player
        let next_player_id = match game.next_player_id() {
            Some(n) => n,
            None => {
                return Err(AppError::game("No next player"));
            },
        };
        proof {
            let s = turn_place(g0);
            let k = choose|k: int| is_next_step(g0, s, k);
            assert(is_next_step(g0, s, k));
            lemma_player_index(g0.players, next_player_id);
        }
        game.turn = Some(TurnState::new(next_player_id));
        // Check for game over
        if game.active_player_count() <= 1 {
            game.phase = GamePhase::GameOver;
            let winner_idx = match Self::first_solvent_index(game) {
                Some(i) => i,
                None => {
                    proof {
                        let i = player_index(g0.players, next_player_id).unwrap();
                        assert(!game.players@[i].is_bankrupt);
                    }
                    return Err(AppError::game("No next player"));
                },
            };
            let winner_id = game.players[winner_idx].id;
            proof {
                lemma_player_index(g0.players, winner_id);
            }
            let mut msg = match game.get_player(winner_id) {
                Some(p) => p.name.clone(),
                None => String::new(),
            };
            msg.append(" wins the game!");
            game.log(msg);
            let mut events: Vec<ServerEvent> = Vec::new();
            events.push(ServerEvent::GameOver { winner: winner_id });
            assert(events_view(events@) =~= seq![EventView::GameOver { winner: winner_id }]);
            assert(game@ =~= end_turn(g0)->Ok_0.0);
            return Ok(Outcome { events, broadcast_state: false });
        }
        proof {
            lemma_player_index(g0.players, next_player_id);
        }
        let mut msg = match game.get_player(next_player_id) {
            Some(p) => p.name.clone(),
            None => String::new(),
        };
        msg.append("'s turn");
        game.log(msg);
        let mut events: Vec<ServerEvent> = Vec::new();
        events.push(ServerEvent::TurnChanged { player_id: next_player_id });
        assert(events_view(events@) =~= seq![EventView::TurnChanged { player_id: next_player_id }]);
        assert(game@ =~= end_turn(g0)->Ok_0.0);
        Ok(Outcome { events, broadcast_state: false })
    }

    /// One event to send
    fn one_event(e: ServerEvent) -> (r: Outcome)
        ensures
            r@ == send(seq![e@]),
    {
        let mut events: Vec<ServerEvent> = Vec::new();
        events.push(e);
        assert(events_view(events@) =~= seq![e@]);
        Outcome { events, broadcast_state: false }
    }

    /// Position of a player, 0 if there is no such player
    fn position_of(game: &GameState, player_id: PlayerId) -> (r: u8)
        ensures
            r == position_of(game@, player_id),
    {
        match game.get_player(player_id) {
            Some(p) => p.position,
            None => 0,
        }
    }

    /// Buy the property the current player is on
    pub fn buy_property(game: &mut GameState) -> (r: Result<Outcome, AppError>)
        ensures
            step_ok(r, final(game)@, old(game)@, buy(old(game)@)),
    {
        let ghost g0 = game@;
        let (player_id, position) = match game.turn {
            Some(turn) => {
                if turn.phase != TurnPhase::BuyDecision {
                    return Err(AppError::game("Cannot buy now"));
                }
                (turn.player_id, Self::position_of(game, turn.player_id))
            },
            None => {
                return Err(AppError::game("No active turn"));
            },
        };
        let tile = match get_tile(position) {
            Some(t) => t,
            None => {
                return Err(AppError::game("Invalid tile"));
            },
        };
        proof {
            lemma_board_facts(position);
        }
        let player_idx = match game.player_position(player_id) {
            Some(i) => i,
            None => {
                return Err(AppError::game("Player not found"));
            },
        };
        if game.players[player_idx].balance < tile.price as i32 {
            return Err(AppError::game("Not enough money"));
        }
        // Deduct and assign
        game.players[player_idx].balance = game.players[player_idx].balance - tile.price as i32;
        if let Some(prop) = game.properties.get(&position) {
            let prop = *prop;
            Self::set_property_state(game, position, PropertyState { owner: Some(player_id), ..prop });
        }
        let mut msg = game.players[player_idx].name.clone();
        msg.append(" bought ");
        msg.append(tile.name.as_str());
        msg.append(" for $");
        push_nat(&mut msg, tile.price as u64);
        game.log(msg);
        Self::set_turn_phase(game, TurnPhase::TurnEnd);
        assert(game@ =~= buy(g0)->Ok_0.0);
        Ok(
            Self::one_event(
                ServerEvent::PropertyBought { tile_idx: position, player_id, price: tile.price },
            ),
        )
    }

    /// Start an auction for the current property
    pub fn start_auction(game: &mut GameState) -> (r: Result<Outcome, AppError>)
        ensures
            step_ok(r, final(game)@, old(game)@, start_auction(old(game)@)),
    {
        let ghost g0 = game@;
        let position = match game.turn {
            Some(turn) => {
                if turn.phase != TurnPhase::BuyDecision {
                    return Err(AppError::game("Cannot start auction now"));
                }
                Self::position_of(game, turn.player_id)
            },
            None => {
                return Err(AppError::game("No active turn"));
            },
        };
        if !game.config.auction_on_decline {
            Self::set_turn_phase(game, TurnPhase::TurnEnd);
            let r = Outcome { events: Vec::new(), broadcast_state: false };
            assert(r@.events =~= seq![]);
            return Ok(r);
        }
        game.auction = Some(AuctionState::new(position));
        Self::set_turn_phase(game, TurnPhase::Auction);
        let mut msg = String::from_str("Auction started for ");
        if let Some(t) = get_tile(position) {
            msg.append(t.name.as_str());
        }
        assert(msg@ =~= "Auction started for "@ + tile_name(position));
        game.log(msg);
        assert(game@ =~= start_auction(g0)->Ok_0.0);
        Ok(Self::one_event(ServerEvent::AuctionStart { tile_idx: position, starting_price: 0 }))
    }

    /// Place a bid in the current auction
    pub fn place_bid(game: &mut GameState, player_id: PlayerId, amount: u32) -> (r: Result<
        Outcome,
        AppError,
    >)
        ensures
            step_ok(r, final(game)@, old(game)@, place_bid(old(game)@, player_id, amount)),
    {
        let ghost g0 = game@;
        let player_balance = match game.get_player(player_id) {
            Some(p) => p.balance,
            None => 0,
        };
        if player_balance < amount as i32 {
            return Err(AppError::game("Not enough money"));
        }
        let current_bid = match &game.auction {
            Some(a) => a.current_bid,
            None => 0,
        };
        if amount <= current_bid {
            return Err(AppError::game("Bid must be higher"));
        }
        if let Some(auction) = game.auction.as_mut() {
            auction.current_bid = amount;
            auction.highest_bidder = Some(player_id);
        }
        assert(game@ =~= place_bid(g0, player_id, amount)->Ok_0.0);
        Ok(Self::one_event(ServerEvent::BidPlaced { player_id, amount }))
    }

    /// End the current auction: the highest bidder pays and takes the tile
    pub fn end_auction(game: &mut GameState) -> (r: Vec<ServerEvent>)
        requires
            end_auction_fits(old(game)@),
        ensures
            end_auction(old(game)@) == (final(game)@, events_view(r@)),
    {
        let ghost g0 = game@;
        let auction = match game.auction.take() {
            Some(a) => a,
            None => {
                let r: Vec<ServerEvent> = Vec::new();
                assert(events_view(r@) =~= seq![]);
                return r;
            },
        };
        let ghost g1 = game@;
        assert(g1 =~= GameView { auction: None, ..g0 });
        let tile_idx = auction.tile_idx;
        let name = match get_tile(tile_idx) {
            Some(t) => t.name,
            None => String::new(),
        };
        assert(name@ =~= tile_name(tile_idx));
        let mut events: Vec<ServerEvent> = Vec::new();
        if let Some(winner_id) = auction.highest_bidder {
            let amount = auction.current_bid;
            if let Some(idx) = game.player_position(winner_id) {
                game.players[idx].balance = game.players[idx].balance - amount as i32;
                if let Some(prop) = game.properties.get(&tile_idx) {
                    let prop = *prop;
                    Self::set_property_state(
                        game,
                        tile_idx,
                        PropertyState { owner: Some(winner_id), ..prop },
                    );
                }
                let mut msg = game.players[idx].name.clone();
                msg.append(" won ");
                msg.append(name.as_str());
                msg.append(" at auction for $");
                push_nat(&mut msg, amount as u64);
                game.log(msg);
            }
            events.push(ServerEvent::AuctionEnd { tile_idx, winner: Some(winner_id), amount });
        } else {
            let mut msg = String::from_str("Auction for ");
            msg.append(name.as_str());
            msg.append(" ended with no bids");
            game.log(msg);
            events.push(ServerEvent::AuctionEnd { tile_idx, winner: None, amount: 0 });
        }
        Self::set_turn_phase(game, TurnPhase::TurnEnd);
        assert(game@ =~= end_auction(g0).0);
        assert(events_view(events@) =~= end_auction(g0).1);
        events
    }

    /// Pass on the current auction
    pub fn pass_bid(game: &mut GameState, player_id: PlayerId) -> (r: Result<Outcome, AppError>)
        requires
            spec_active_count(old(game)@.players) >= 1,
            end_auction_fits(record_pass(old(game)@, player_id)),
        ensures
            step_ok(r, final(game)@, old(game)@, pass_bid(old(game)@, player_id)),
    {
        let ghost g0 = game@;
        if let Some(auction) = game.auction.as_mut() {
            let seen = index_of(&auction.passed_players, player_id);
            proof {
                lemma_first_index_spec(auction.passed_players@, player_id);
            }
            if seen.is_none() {
                auction.passed_players.push(player_id);
            }
        }
        assert(game@ =~= record_pass(g0, player_id));
        let mut events: Vec<ServerEvent> = Vec::new();
        events.push(ServerEvent::BidPassed { player_id });
        let ghost ev = EventView::BidPassed { player_id };
        assert(events_view(events@) =~= seq![ev]);
        // Check if auction should end
        let active_count = game.active_player_count();
        let passed_count = match &game.auction {
            Some(a) => a.passed_players.len(),
            None => 0,
        };
        if passed_count >= active_count - 1 || passed_count >= active_count {
            let mut ended = Self::end_auction(game);
            events.append(&mut ended);
            assert(events_view(events@) =~= seq![ev] + end_auction(record_pass(g0, player_id)).1);
        }
        Ok(Outcome { events, broadcast_state: false })
    }

    /// Pay to get out of jail
    pub fn pay_jail(game: &mut GameState) -> (r: Result<Outcome, AppError>)
        ensures
            step_ok(r, final(game)@, old(game)@, pay_jail(old(game)@)),
    {
        let ghost g0 = game@;
        let player_id = match game.turn {
            Some(t) => t.player_id,
            None => {
                return Err(AppError::game("No active turn"));
            },
        };
        let player_idx = match game.player_position(player_id) {
            Some(i) => i,
            None => {
                return Err(AppError::game("Player not found"));
            },
        };
        if !game.players[player_idx].in_jail {
            return Err(AppError::game("Not in jail"));
        }
        if game.players[player_idx].balance < 50 {
            return Err(AppError::game("Not enough money"));
        }
        game.players[player_idx].balance = game.players[player_idx].balance - 50;
        game.players[player_idx].in_jail = false;
        game.players[player_idx].jail_turns = 0;
        let mut msg = game.players[player_idx].name.clone();
        msg.append(" paid $50 to get out of jail");
        game.log(msg);
        Self::set_turn_phase(game, TurnPhase::WaitingForRoll);
        assert(game@ =~= pay_jail(g0)->Ok_0.0);
        Ok(
            Self::one_event(
                ServerEvent::PlayerFreed { player_id, method: String::from_str("paid") },
            ),
        )
    }

    /// Whether some tile of the group has fewer than `houses` buildings
    fn group_has_fewer_houses(game: &GameState, group: ColorGroup, houses: u8) -> (r: bool)
        ensures
            r == builds_ahead(game.properties@, group, houses),
    {
        let mut idx: u8 = 0;
        while idx < 40
            invariant
                idx <= 40,
                forall|j: u8|
                    j < idx && #[trigger] board_tile(j).group == Some(group) ==> !(
                    game.properties@.contains_key(j) && game.properties@[j].houses < houses),
            decreases 40 - idx,
        {
            if let Some(t) = get_tile(idx) {
                let in_group = match t.group {
                    Some(g) => g == group,
                    None => false,
                };
                if in_group {
                    if let Some(p) = game.properties.get(&idx) {
                        if p.houses < houses {
                            assert(board_tile(idx).group == Some(group));
                            return true;
                        }
                    }
                }
            }
            idx = idx + 1;
        }
        false
    }

    /// Build a house on a property
    pub fn build_house(game: &mut GameState, player_id: PlayerId, tile_idx: u8) -> (r: Result<
        Outcome,
        AppError,
    >)
        ensures
            step_ok(r, final(game)@, old(game)@, build_house(old(game)@, player_id, tile_idx)),
    {
        let ghost g0 = game@;
        let tile = match get_tile(tile_idx) {
            Some(t) => t,
            None => {
                return Err(AppError::game("Invalid tile"));
            },
        };
        proof {
            lemma_board_facts(tile_idx);
        }
        if tile.tile_type != TileType::Property {
            return Err(AppError::game("Cannot build on this tile"));
        }
        let group = match tile.group {
            Some(g) => g,
            None => {
                return Err(AppError::game("No color group"));
            },
        };
        if !Self::player_has_full_set(game, player_id, group) {
            return Err(AppError::game("Must own full color set"));
        }
        let player_idx = match game.player_position(player_id) {
            Some(i) => i,
            None => {
                return Err(AppError::game("Player not found"));
            },
        };
        if game.players[player_idx].balance < tile.build_cost as i32 {
            return Err(AppError::game("Not enough money"));
        }
        let current_houses = match game.properties.get(&tile_idx) {
            Some(p) => p.houses,
            None => 0,
        };
        if current_houses >= 5 {
            return Err(AppError::game("Already at max buildings"));
        }
        if game.config.even_build_rule && Self::group_has_fewer_houses(
            game,
            group,
            current_houses,
        ) {
            return Err(AppError::game("Must build evenly across the color set"));
        }
        // Build
        game.players[player_idx].balance = game.players[player_idx].balance - tile.build_cost as i32;
        let houses = current_houses + 1;
        if let Some(prop) = game.properties.get(&tile_idx) {
            let prop = *prop;
            Self::set_property_state(game, tile_idx, PropertyState { houses, ..prop });
        }
        let mut msg = game.players[player_idx].name.clone();
        msg.append(" built a ");
        if houses == 5 {
            msg.append("hotel");
        } else {
            msg.append("house");
        }
        msg.append(" on ");
        msg.append(tile.name.as_str());
        game.log(msg);
        assert(game@ =~= build_house(g0, player_id, tile_idx)->Ok_0.0);
        Ok(Self::one_event(ServerEvent::BuildingBuilt { tile_idx, player_id, houses }))
    }

    /// Mortgage a property
    pub fn mortgage_property(game: &mut GameState, player_id: PlayerId, tile_idx: u8) -> (r: Result<
        Outcome,
        AppError,
    >)
        requires
            mortgage_fits(old(game)@, player_id, tile_idx),
        ensures
            step_ok(r, final(game)@, old(game)@, mortgage(old(game)@, player_id, tile_idx)),
    {
        let ghost g0 = game@;
        let tile = match get_tile(tile_idx) {
            Some(t) => t,
            None => {
                return Err(AppError::game("Invalid tile"));
            },
        };
        proof {
            lemma_board_facts(tile_idx);
        }
        let prop_state = match game.properties.get(&tile_idx) {
            Some(p) => *p,
            None => {
                return Err(AppError::game("Not a property"));
            },
        };
        if prop_state.owner != Some(player_id) {
            return Err(AppError::game("You don't own this property"));
        }
        if prop_state.is_mortgaged {
            return Err(AppError::game("Already mortgaged"));
        }
        if prop_state.houses > 0 {
            return Err(AppError::game("Must sell buildings first"));
        }
        let player_idx = match game.player_position(player_id) {
            Some(i) => i,
            None => {
                return Err(AppError::game("Player not found"));
            },
        };
        game.players[player_idx].balance = game.players[player_idx].balance
            + tile.mortgage_value as i32;
        Self::set_property_state(game, tile_idx, PropertyState { is_mortgaged: true, ..prop_state });
        let mut msg = game.players[player_idx].name.clone();
        msg.append(" mortgaged ");
        msg.append(tile.name.as_str());
        msg.append(" for $");
        push_nat(&mut msg, tile.mortgage_value as u64);
        game.log(msg);
        assert(game@ =~= mortgage(g0, player_id, tile_idx)->Ok_0.0);
        Ok(Self::one_event(ServerEvent::PropertyMortgaged { tile_idx, player_id }))
    }

    /// Unmortgage a property: the mortgage value plus 10%, rounded down
    pub fn unmortgage_property(game: &mut GameState, player_id: PlayerId, tile_idx: u8) -> (r: Result<
        Outcome,
        AppError,
    >)
        ensures
            step_ok(r, final(game)@, old(game)@, unmortgage(old(game)@, player_id, tile_idx)),
    {
        let ghost g0 = game@;
        let tile = match get_tile(tile_idx) {
            Some(t) => t,
            None => {
                return Err(AppError::game("Invalid tile"));
            },
        };
        proof {
            lemma_board_facts(tile_idx);
        }
        let prop_state = match game.properties.get(&tile_idx) {
            Some(p) => *p,
            None => {
                return Err(AppError::game("Not a property"));
            },
        };
        if prop_state.owner != Some(player_id) {
            return Err(AppError::game("You don't own this property"));
        }
        if !prop_state.is_mortgaged {
            return Err(AppError::game("Not mortgaged"));
        }
        let unmortgage_cost = (tile.mortgage_value * 11 / 10) as i32;
        let player_idx = match game.player_position(player_id) {
            Some(i) => i,
            None => {
                return Err(AppError::game("Player not found"));
            },
        };
        if game.players[player_idx].balance < unmortgage_cost {
            return Err(AppError::game("Not enough money"));
        }
        game.players[player_idx].balance = game.players[player_idx].balance - unmortgage_cost;
        Self::set_property_state(game, tile_idx, PropertyState { is_mortgaged: false, ..prop_state });
        let mut msg = game.players[player_idx].name.clone();
        msg.append(" unmortgaged ");
        msg.append(tile.name.as_str());
        msg.append(" for $");
        push_int(&mut msg, unmortgage_cost);
        game.log(msg);
        assert(game@ =~= unmortgage(g0, player_id, tile_idx)->Ok_0.0);
        Ok(Self::one_event(ServerEvent::PropertyUnmortgaged { tile_idx, player_id }))
    }

    /// Handle a game event from a player
    pub fn handle_event(game: &mut GameState, player_id: PlayerId, event: ClientEvent) -> (r: Result<
        Outcome,
        Refusal,
    >)
        requires
            event_fits(old(game)@, player_id, event),
        ensures
            exists|d1: u8, d2: u8|
                1 <= d1 <= 6 && 1 <= d2 <= 6 && refused_step_ok(
                    r,
                    final(game)@,
                    old(game)@,
                    handle_event(old(game)@, player_id, event, d1, d2),
                    event_refusal_events(old(game)@, player_id, event, d1, d2),
                ),
    {
        let ghost g0 = game@;
        let ghost ev0 = event;
        // Verify it's this player's turn (for most actions)
        let is_current_player = match game.turn {
            Some(t) => t.player_id == player_id,
            None => false,
        };
        let r = match event {
            ClientEvent::RollDice => if !is_current_player {
                Err(AppError::forbidden("Not your turn"))
            } else {
                let d1 = roll_die();
                let d2 = roll_die();
                let r = Self::apply_roll(game, d1, d2);
                assert(refused_step_ok(
                    r,
                    game@,
                    g0,
                    handle_event(g0, player_id, ev0, d1, d2),
                    event_refusal_events(g0, player_id, ev0, d1, d2),
                ));
                return r;
            },
            ClientEvent::BuyProperty => if !is_current_player {
                Err(AppError::forbidden("Not your turn"))
            } else {
                Self::buy_property(game)
            },
            ClientEvent::PassProperty => if !is_current_player {
                Err(AppError::forbidden("Not your turn"))
            } else {
                Self::start_auction(game)
            },
            ClientEvent::EndTurn => if !is_current_player {
                Err(AppError::forbidden("Not your turn"))
            } else {
                Self::end_turn(game)
            },
            ClientEvent::Bid { amount } => Self::place_bid(game, player_id, amount),
            ClientEvent::PassBid => Self::pass_bid(game, player_id),
            ClientEvent::PayJail => if !is_current_player {
                Err(AppError::forbidden("Not your turn"))
            } else {
                Self::pay_jail(game)
            },
            ClientEvent::Build { tile_idx } => Self::build_house(game, player_id, tile_idx),
            ClientEvent::Mortgage { tile_idx } => Self::mortgage_property(game, player_id, tile_idx),
            ClientEvent::Unmortgage { tile_idx } => Self::unmortgage_property(
                game,
                player_id,
                tile_idx,
            ),
            ClientEvent::Chat { message } => {
                let player_name = match game.get_player(player_id) {
                    Some(p) => p.name.clone(),
                    None => String::from_str("Unknown"),
                };
                Ok(Self::one_event(ServerEvent::Chat { from: player_id, from_name: player_name, message }))
            },
            _ => {
                let r = Outcome { events: Vec::new(), broadcast_state: false };
                assert(r@.events =~= seq![]);
                Ok(r)
            },
        };
        assert(step_ok(r, game@, g0, handle_event(g0, player_id, ev0, 1, 1)));
        let q = Self::refused_quietly(r);
        proof {
            if q is Err {
                assert(events_view(q->Err_0.events@) =~= event_refusal_events(g0, player_id, ev0, 1, 1));
            }
        }
        q
    }
}

/// What a bot does next on its turn
#[derive(Debug, Clone, Copy, PartialEq, Eq, Structural)]
pub enum BotStep {
    /// Nothing to do: not a bot's turn, or a phase that waits for others
    Stop,
    /// Roll the dice
    Roll,
    /// Buy the tile it stands on
    Buy,
    /// Decline the tile and open an auction
    StartAuction,
    /// A decision with no tile to decide on: look again
    Wait,
    /// End the turn
    EndTurn,
    /// Pass in the auction
    PassBid(PlayerId),
}

/// The bot's next step: roll when waiting; buy when it has more than 40%
/// above the price (by its balance read as unsigned), else auction; end the
/// turn at its end; pass in an auction it has not passed in.
pub open spec fn bot_step(g: GameView) -> BotStep {
    match g.turn {
        None => BotStep::Stop,
        Some(t) => {
            let pid = t.player_id;
            let is_bot = match player_index(g.players, pid) {
                Some(i) => g.players[i].is_bot,
                None => false,
            };
            if !is_bot {
                BotStep::Stop
            } else {
                match t.phase {
                    TurnPhase::WaitingForRoll => BotStep::Roll,
                    TurnPhase::BuyDecision => {
                        let pos = position_of(g, pid);
                        if pos >= 40 {
                            BotStep::Wait
                        } else {
                            let balance = match balance_of(g, pid) {
                                Some(b) => b,
                                None => 0,
                            };
                            let price = board_tile(pos).price;
                            if (balance as u32) > price + price * 4 / 10 {
                                BotStep::Buy
                            } else {
                                BotStep::StartAuction
                            }
                        }
                    },
                    TurnPhase::TurnEnd => BotStep::EndTurn,
                    TurnPhase::Auction => match g.auction {
                        Some(a) => if !a.passed_players.contains(pid) {
                            BotStep::PassBid(pid)
                        } else {
                            BotStep::Stop
                        },
                        None => BotStep::Stop,
                    },
                    _ => BotStep::Stop,
                }
            }
        },
    }
}

/// Whether the bot keeps going after a step.
pub open spec fn spec_continues(s: BotStep) -> bool {
    match s {
        BotStep::Roll | BotStep::Buy | BotStep::StartAuction | BotStep::Wait => true,
        _ => false,
    }
}

impl BotStep {
    /// Whether the bot looks at the game again after this step
    pub fn continues(&self) -> (r: bool)
        ensures
            r == spec_continues(*self),
    {
        match self {
            BotStep::Roll | BotStep::Buy | BotStep::StartAuction | BotStep::Wait => true,
            _ => false,
        }
    }
}

impl GameEngine {
    /// The next step of a bot's turn, if it is a bot's turn
    pub fn bot_step(game: &GameState) -> (r: BotStep)
        ensures
            r == bot_step(game@),
    {
        let turn = match game.turn {
            Some(t) => t,
            None => return BotStep::Stop,
        };
        // Check if current player is still a bot
        let is_bot = match game.get_player(turn.player_id) {
            Some(p) => p.is_bot,
            None => false,
        };
        if !is_bot {
            return BotStep::Stop;
        }
        match turn.phase {
            TurnPhase::WaitingForRoll => BotStep::Roll,
            TurnPhase::BuyDecision => {
                let player_id = turn.player_id;
                let position = Self::position_of(game, player_id);
                let balance = match game.get_player(player_id) {
                    Some(p) => p.balance,
                    None => 0,
                };
                match get_tile(position) {
                    Some(tile) => {
                        proof {
                            lemma_board_facts(position);
                        }
                        // Buy with more than 40% to spare
                        if balance as u32 > tile.price + (tile.price * 4 / 10) {
                            BotStep::Buy
                        } else {
                            BotStep::StartAuction
                        }
                    },
                    None => BotStep::Wait,
                }
            },
            TurnPhase::TurnEnd => BotStep::EndTurn,
            TurnPhase::Auction => {
                let player_id = turn.player_id;
                match &game.auction {
                    Some(auction) => {
                        let seen = index_of(&auction.passed_players, player_id);
                        proof {
                            lemma_first_index_spec(auction.passed_players@, player_id);
                        }
                        if seen.is_none() {
                            BotStep::PassBid(player_id)
                        } else {
                            BotStep::Stop
                        }
                    },
                    None => BotStep::Stop,
                }
            },
            _ => BotStep::Stop,
        }
    }
}

} // verus!
