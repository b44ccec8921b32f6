//! The rules of the game as functions on mathematical values: what each
//! action does to a game, and what it reports.

use vstd::prelude::*;

use super::board::{board_tile, ColorGroup, TileType};
use super::events::{events_view, ClientEvent, EventView, Outcome, OutcomeView, Refusal};
use super::state::{new_auction, new_turn, spec_active_count, spec_next_player, AuctionView, GamePhase, lemma_first_index_spec, player_ids, log_game, player_index, spec_dice_sum, GameView, Player, PlayerId, PropertyState, TurnPhase, TurnState};
use super::text::{int_text, nat_text};
use crate::error::{AppError, ErrorView};

verus! {

/// What an action gives: the new game and what to send, or an error (the game unchanged).
pub type StepView = Result<(GameView, OutcomeView), ErrorView>;

/// Nothing to send.
pub open spec fn quiet() -> OutcomeView {
    OutcomeView { events: seq![], broadcast_state: false }
}

/// Only these events to send.
pub open spec fn send(events: Seq<EventView>) -> OutcomeView {
    OutcomeView { events, broadcast_state: false }
}

/// The game with the current turn's phase set, where there is a turn.
pub open spec fn set_phase(g: GameView, phase: TurnPhase) -> GameView {
    match g.turn {
        Some(t) => GameView { turn: Some(TurnState { phase, ..t }), ..g },
        None => g,
    }
}

/// The game with player `i` replaced.
pub open spec fn set_player(g: GameView, i: int, p: Player) -> GameView {
    GameView { players: g.players.update(i, p), ..g }
}

/// The player with another balance.
pub open spec fn with_balance(p: Player, balance: int) -> Player {
    Player { balance: balance as i32, ..p }
}

/// The game with a property's state replaced, where the tile is in the table.
pub open spec fn set_property(g: GameView, idx: u8, ps: PropertyState) -> GameView {
    if g.properties.contains_key(idx) {
        GameView { properties: g.properties.insert(idx, ps), ..g }
    } else {
        g
    }
}

/// The game with a property's owner set, where the tile is in the table.
pub open spec fn set_owner(g: GameView, idx: u8, owner: Option<PlayerId>) -> GameView {
    set_property(g, idx, PropertyState { owner, ..g.properties[idx] })
}

/// Sends a player to jail: to tile 10, in jail, and the turn ends with its doubles reset.
pub open spec fn send_to_jail(g: GameView, player_id: PlayerId) -> GameView {
    let g1 = match player_index(g.players, player_id) {
        Some(i) => log_game(
            set_player(
                g,
                i,
                Player { position: 10, in_jail: true, jail_turns: 0, ..g.players[i] },
            ),
            g.players[i].name@ + " was sent to jail!"@,
        ),
        None => g,
    };
    match g1.turn {
        Some(t) => GameView {
            turn: Some(
                TurnState { phase: TurnPhase::TurnEnd, can_roll_again: false, doubles_count: 0, ..t },
            ),
            ..g1
        },
        None => g1,
    }
}

/// Moves `amount` from one player's balance to another's, and logs it,
/// where both players are in the game.
pub open spec fn transfer_money(
    g: GameView,
    from: PlayerId,
    to: PlayerId,
    amount: i32,
    reason: Seq<char>,
) -> GameView {
    match (player_index(g.players, from), player_index(g.players, to)) {
        (Some(fi), Some(ti)) => {
            let from_name = g.players[fi].name@;
            let to_name = g.players[ti].name@;
            let ps1 = g.players.update(fi, with_balance(g.players[fi], g.players[fi].balance - amount));
            let ps2 = ps1.update(ti, with_balance(ps1[ti], ps1[ti].balance + amount));
            log_game(
                GameView { players: ps2, ..g },
                from_name + " paid $"@ + int_text(amount as int) + " to "@ + to_name + " for "@ + reason,
            )
        },
        _ => g,
    }
}

/// The balances of a transfer stay within `i32`.
pub open spec fn transfer_fits(g: GameView, from: PlayerId, to: PlayerId, amount: i32) -> bool {
    match (player_index(g.players, from), player_index(g.players, to)) {
        (Some(fi), Some(ti)) => {
            let b = g.players[fi].balance - amount;
            let ps1 = g.players.update(fi, with_balance(g.players[fi], b));
            &&& i32::MIN <= b <= i32::MAX
            &&& i32::MIN <= ps1[ti].balance + amount <= i32::MAX
        },
        _ => true,
    }
}

/// Whether `owner` holds the property on tile `i`.
pub open spec fn owns(props: Map<u8, PropertyState>, owner: PlayerId, i: u8) -> bool {
    props.contains_key(i) && props[i].owner == Some(owner)
}

/// How many tiles of a type, among the first `n`, `owner` holds.
pub open spec fn count_owned(props: Map<u8, PropertyState>, owner: PlayerId, ty: TileType, n: nat) -> nat
    decreases n,
{
    if n == 0 {
        0
    } else {
        let i = (n - 1) as u8;
        count_owned(props, owner, ty, (n - 1) as nat) + if owns(props, owner, i) && board_tile(
            i,
        ).tile_type == ty {
            1nat
        } else {
            0nat
        }
    }
}

/// Whether `owner` holds every tile of the group.
pub open spec fn has_full_set(props: Map<u8, PropertyState>, owner: PlayerId, group: ColorGroup) -> bool {
    forall|i: u8| i < 40 && #[trigger] board_tile(i).group == Some(group) ==> owns(props, owner, i)
}

/// The rent due for landing on a tile.
pub open spec fn rent(g: GameView, idx: u8) -> u32 {
    if idx >= 40 || !g.properties.contains_key(idx) {
        0
    } else {
        let ps = g.properties[idx];
        let t = board_tile(idx);
        match ps.owner {
            None => 0,
            Some(owner) => if ps.is_mortgaged {
                0
            } else {
                match t.tile_type {
                    TileType::Property => if ps.houses > 0 {
                        if ps.houses - 1 < t.rent_schedule.len() {
                            t.rent_schedule[ps.houses - 1]
                        } else {
                            t.rent_base
                        }
                    } else if has_full_set(g.properties, owner, t.group.unwrap())
                        && g.config.double_rent_on_full_set {
                        (t.rent_base * 2) as u32
                    } else {
                        t.rent_base
                    },
                    TileType::Railroad => {
                        let c = count_owned(g.properties, owner, TileType::Railroad, 40);
                        let k = if c == 0 { 0 } else { c - 1 };
                        if k < t.rent_schedule.len() {
                            t.rent_schedule[k]
                        } else {
                            25
                        }
                    },
                    TileType::Utility => {
                        let c = count_owned(g.properties, owner, TileType::Utility, 40);
                        let multiplier = if c >= 2 { 10int } else { 4int };
                        let dice = match g.turn {
                            Some(t) => spec_dice_sum(t),
                            None => 7,
                        };
                        (dice * multiplier) as u32
                    },
                    _ => 0,
                }
            },
        }
    }
}

/// Rent can be worked out: the dice of the turn add up within a byte.
pub open spec fn rent_fits(g: GameView) -> bool {
    g.turn matches Some(t) ==> spec_dice_sum(t) <= u8::MAX
}

/// The balance of the player with that id, where there is one.
pub open spec fn balance_of(g: GameView, id: PlayerId) -> Option<i32> {
    match player_index(g.players, id) {
        Some(i) => Some(g.players[i].balance),
        None => None,
    }
}

/// What landing on a tile does to the game.
pub open spec fn land(g: GameView, player_id: PlayerId, idx: u8) -> GameView {
    let t = board_tile(idx);
    let end = |x: GameView| set_phase(x, TurnPhase::TurnEnd);
    match t.tile_type {
        TileType::Go => end(g),
        TileType::Property | TileType::Railroad | TileType::Utility => {
            let owner = if g.properties.contains_key(idx) {
                g.properties[idx].owner
            } else {
                None
            };
            match owner {
                None => set_phase(g, TurnPhase::BuyDecision),
                Some(o) => if o == player_id {
                    end(g)
                } else {
                    let owner_in_jail = match player_index(g.players, o) {
                        Some(j) => g.players[j].in_jail,
                        None => false,
                    };
                    if !g.properties[idx].is_mortgaged && (!owner_in_jail
                        || g.config.collect_rent_in_jail) {
                        end(
                            transfer_money(
                                g,
                                player_id,
                                o,
                                rent(g, idx) as i32,
                                "rent on "@ + t.name,
                            ),
                        )
                    } else {
                        end(g)
                    }
                },
            }
        },
        TileType::Tax => {
            let g1 = match player_index(g.players, player_id) {
                Some(i) => {
                    let tax = t.rent_base as i32;
                    let p = g.players[i];
                    let g2 = set_player(g, i, with_balance(p, p.balance - tax));
                    let g3 = if g.config.free_parking_jackpot {
                        GameView { pot_money: (g.pot_money + tax) as i32, ..g2 }
                    } else {
                        g2
                    };
                    log_game(g3, p.name@ + " paid $"@ + int_text(tax as int) + " tax"@)
                },
                None => g,
            };
            end(g1)
        },
        TileType::Chance => {
            let g1 = match player_index(g.players, player_id) {
                Some(i) => log_game(g, g.players[i].name@ + " drew a Surprise card"@),
                None => g,
            };
            end(g1)
        },
        TileType::CommunityChest => {
            let g1 = match player_index(g.players, player_id) {
                Some(i) => log_game(g, g.players[i].name@ + " drew a Treasure card"@),
                None => g,
            };
            end(g1)
        },
        TileType::FreeParking => {
            let g1 = if g.config.free_parking_jackpot && g.pot_money > 0 {
                let pot = g.pot_money;
                let g2 = match player_index(g.players, player_id) {
                    Some(i) => {
                        let p = g.players[i];
                        log_game(
                            set_player(g, i, with_balance(p, p.balance + pot)),
                            p.name@ + " collected $"@ + int_text(pot as int) + " from Free Parking!"@,
                        )
                    },
                    None => g,
                };
                GameView { pot_money: 0, ..g2 }
            } else {
                g
            };
            end(g1)
        },
        TileType::Jail => end(g),
        TileType::GoToJail => send_to_jail(g, player_id),
    }
}

/// Whether landing on tile `idx` makes the player pay rent: another player
/// owns it, it is not mortgaged, and its owner is out of jail or rent is
/// collected in jail.
pub open spec fn rent_due(g: GameView, player_id: PlayerId, idx: u8) -> bool {
    &&& g.properties.contains_key(idx)
    &&& g.properties[idx].owner matches Some(o) && o != player_id && !g.properties[idx].is_mortgaged && ({
        let owner_in_jail = match player_index(g.players, o) {
            Some(j) => g.players[j].in_jail,
            None => false,
        };
        !owner_in_jail || g.config.collect_rent_in_jail
    })
}

/// Landing on a tile keeps every balance and the jackpot within `i32`; rent
/// counts only where it is paid.
pub open spec fn land_fits(g: GameView, player_id: PlayerId, idx: u8) -> bool {
    let t = board_tile(idx);
    match t.tile_type {
        TileType::Property | TileType::Railroad | TileType::Utility => rent_due(g, player_id, idx) ==> {
            let o = g.properties[idx].owner.unwrap();
            rent_fits(g) && transfer_fits(g, player_id, o, rent(g, idx) as i32)
        },
        TileType::Tax => match player_index(g.players, player_id) {
            Some(i) => {
                &&& i32::MIN <= g.players[i].balance - t.rent_base
                &&& g.config.free_parking_jackpot ==> g.pot_money + t.rent_base <= i32::MAX
            },
            None => true,
        },
        TileType::FreeParking => match player_index(g.players, player_id) {
            Some(i) => g.config.free_parking_jackpot && g.pot_money > 0 ==> g.players[i].balance
                + g.pot_money <= i32::MAX,
            None => true,
        },
        _ => true,
    }
}

/// The result of an action matches what the rules say: on success the game and
/// what is sent are those given; on an error the game is left as it was.
pub open spec fn step_ok(r: Result<Outcome, AppError>, post: GameView, pre: GameView, s: StepView) -> bool {
    match s {
        Ok((g, o)) => r matches Ok(out) && out@ == o && post == g,
        Err(e) => r matches Err(err) && err@ == e && post == pre,
    }
}

/// The result of an action whose refusal may still tell the room something:
/// on success as for `step_ok`; on an error the game is left as it was and
/// the events told are `told`.
pub open spec fn refused_step_ok(
    r: Result<Outcome, Refusal>,
    post: GameView,
    pre: GameView,
    s: StepView,
    told: Seq<EventView>,
) -> bool {
    match s {
        Ok((g, o)) => r matches Ok(out) && out@ == o && post == g,
        Err(e) => r matches Err(x) && x.error@ == e && events_view(x.events@) == told && post == pre,
    }
}

/// A refused action.
pub open spec fn game_error(message: Seq<char>) -> StepView {
    Err(ErrorView::GameError(message))
}

/// The turn once the dice show `d1` and `d2`.
pub open spec fn rolled_turn(t: TurnState, d1: u8, d2: u8) -> TurnState {
    TurnState {
        dice: Some((d1, d2)),
        phase: TurnPhase::Moving,
        doubles_count: if d1 == d2 {
            (t.doubles_count + 1) as u8
        } else {
            t.doubles_count
        },
        ..t
    }
}

/// Where a piece ends after moving `steps` tiles from `from`.
pub open spec fn moved_to(from: u8, steps: int) -> u8 {
    ((from + steps) % 40) as u8
}

/// Whether a move from `from` to `to` passes (or lands on) GO.
pub open spec fn passes_go(from: u8, to: u8) -> bool {
    to < from && from != 0
}

/// The game after player `i` moves by the dice, before landing.
pub open spec fn advance(g: GameView, i: int, d1: u8, d2: u8) -> GameView {
    let p = g.players[i];
    let to = moved_to(p.position, d1 + d2);
    let g1 = set_player(g, i, Player { position: to, ..p });
    if passes_go(p.position, to) {
        log_game(
            set_player(g1, i, with_balance(g1.players[i], g1.players[i].balance + 200)),
            p.name@ + " passed GO and collected $200"@,
        )
    } else {
        g1
    }
}

/// Player `i` moves by the dice and lands; doubles (out of jail) earn another roll.
pub open spec fn move_and_land(
    g: GameView,
    player_id: PlayerId,
    i: int,
    d1: u8,
    d2: u8,
    events: Seq<EventView>,
) -> (GameView, OutcomeView) {
    let from = g.players[i].position;
    let to = moved_to(from, d1 + d2);
    let g3 = land(advance(g, i, d1, d2), player_id, to);
    let g4 = if d1 == d2 && !g3.players[i].in_jail {
        match g3.turn {
            Some(t) => GameView { turn: Some(TurnState { can_roll_again: true, ..t }), ..g3 },
            None => g3,
        }
    } else {
        g3
    };
    (
        g4,
        OutcomeView {
            events: events.push(
                EventView::PlayerMoved {
                    player_id,
                    from,
                    to,
                    passed_go: passes_go(from, to),
                },
            ),
            broadcast_state: true,
        },
    )
}

/// The move stays within the machine's integers.
pub open spec fn move_fits(g: GameView, player_id: PlayerId, i: int, d1: u8, d2: u8) -> bool {
    let p = g.players[i];
    let to = moved_to(p.position, d1 + d2);
    &&& p.position + d1 + d2 <= u8::MAX
    &&& passes_go(p.position, to) ==> p.balance + 200 <= i32::MAX
    &&& land_fits(advance(g, i, d1, d2), player_id, to)
}

/// Player `i` leaves jail by rolling doubles.
pub open spec fn escape_jail(g: GameView, i: int) -> GameView {
    let p = g.players[i];
    log_game(
        set_player(g, i, Player { in_jail: false, jail_turns: 0, ..p }),
        p.name@ + " rolled doubles and escaped jail!"@,
    )
}

/// Player `i`, on a third failed turn in jail, pays $50 and leaves.
pub open spec fn forced_bail(g: GameView, i: int) -> GameView {
    let p = g.players[i];
    log_game(
        set_player(g, i, Player { balance: (p.balance - 50) as i32, in_jail: false, jail_turns: 0, ..p }),
        p.name@ + " was forced to pay $50 bail"@,
    )
}

/// Player `i` stays in jail one more turn, and the turn ends.
pub open spec fn stay_in_jail(g: GameView, i: int) -> GameView {
    let p = g.players[i];
    let g1 = log_game(
        set_player(g, i, Player { jail_turns: (p.jail_turns + 1) as u8, ..p }),
        p.name@ + " failed to roll doubles in jail"@,
    );
    match g1.turn {
        Some(t) => GameView {
            turn: Some(TurnState { phase: TurnPhase::TurnEnd, can_roll_again: false, ..t }),
            ..g1
        },
        None => g1,
    }
}

/// What the room is told of a refused roll: the dice, where they were cast
/// and then the player who rolled was not found.
pub open spec fn roll_refusal_events(g: GameView, d1: u8, d2: u8) -> Seq<EventView> {
    match g.turn {
        Some(t) => if t.phase == TurnPhase::WaitingForRoll && rolled_turn(t, d1, d2).doubles_count < 3
            && player_index(g.players, t.player_id) is None {
            seq![EventView::DiceResult { player_id: t.player_id, dice: (d1, d2), is_doubles: d1 == d2 }]
        } else {
            seq![]
        },
        None => seq![],
    }
}

/// Rolling `d1` and `d2`: the third doubles in a row send the player to jail;
/// in jail, doubles free the player, and the third failure costs $50 bail;
/// otherwise the player moves, collects $200 on passing GO, and lands.
pub open spec fn roll(g: GameView, d1: u8, d2: u8) -> StepView {
    match g.turn {
        None => game_error("No active turn"@),
        Some(t) => if t.phase != TurnPhase::WaitingForRoll {
            game_error("Cannot roll now"@)
        } else {
            let t1 = rolled_turn(t, d1, d2);
            let g1 = GameView { turn: Some(t1), ..g };
            let pid = t.player_id;
            let dice = EventView::DiceResult { player_id: pid, dice: (d1, d2), is_doubles: d1 == d2 };
            if t1.doubles_count >= 3 {
                Ok((
                    send_to_jail(g1, pid),
                    send(seq![dice, EventView::PlayerJailed { player_id: pid }]),
                ))
            } else {
                match player_index(g1.players, pid) {
                    None => game_error("Player not found"@),
                    Some(i) => Ok(roll_found(g1, pid, i, d1, d2, dice)),
                }
            }
        },
    }
}

/// A roll by player `i`, who was found: out of jail the player moves; in jail,
/// doubles free the player, and the third failure costs $50 bail.
pub open spec fn roll_found(
    g1: GameView,
    pid: PlayerId,
    i: int,
    d1: u8,
    d2: u8,
    dice: EventView,
) -> (GameView, OutcomeView) {
    let p = g1.players[i];
    if !p.in_jail {
        move_and_land(g1, pid, i, d1, d2, seq![dice])
    } else if d1 == d2 {
        move_and_land(
            escape_jail(g1, i),
            pid,
            i,
            d1,
            d2,
            seq![dice, EventView::PlayerFreed { player_id: pid, method: "dice"@ }],
        )
    } else if p.jail_turns + 1 >= 3 {
        move_and_land(forced_bail(g1, i), pid, i, d1, d2, seq![dice])
    } else {
        (stay_in_jail(g1, i), send(seq![dice]))
    }
}

/// A roll by player `i` stays within the machine's integers.
pub open spec fn roll_found_fits(g1: GameView, pid: PlayerId, i: int, d1: u8, d2: u8) -> bool {
    let p = g1.players[i];
    if !p.in_jail {
        move_fits(g1, pid, i, d1, d2)
    } else if d1 == d2 {
        move_fits(escape_jail(g1, i), pid, i, d1, d2)
    } else {
        &&& p.jail_turns < u8::MAX
        &&& p.jail_turns + 1 >= 3 ==> p.balance - 50 >= i32::MIN && move_fits(
            forced_bail(g1, i),
            pid,
            i,
            d1,
            d2,
        )
    }
}

/// A roll stays within the machine's integers.
pub open spec fn roll_fits(g: GameView, d1: u8, d2: u8) -> bool {
    match g.turn {
        None => true,
        Some(t) => t.phase != TurnPhase::WaitingForRoll || {
            let t1 = rolled_turn(t, d1, d2);
            let g1 = GameView { turn: Some(t1), ..g };
            &&& d1 + d2 <= u8::MAX
            &&& d1 == d2 ==> t.doubles_count < u8::MAX
            &&& t1.doubles_count < 3 ==> match player_index(g1.players, t.player_id) {
                None => true,
                Some(i) => roll_found_fits(g1, t.player_id, i, d1, d2),
            }
        },
    }
}

/// Landing on a tile keeps the players in place.
pub proof fn lemma_land_keeps_players(g: GameView, player_id: PlayerId, idx: u8)
    ensures
        land(g, player_id, idx).players.len() == g.players.len(),
        forall|j: int|
            0 <= j < g.players.len() ==> (#[trigger] land(g, player_id, idx).players[j]).id
                == g.players[j].id,
{
    lemma_player_index(g.players, player_id);
    if g.properties.contains_key(idx) {
        if let Some(o) = g.properties[idx].owner {
            lemma_player_index(g.players, o);
        }
    }
}

/// `player_index` names the first player with the id, or there is none.
pub proof fn lemma_player_index(ps: Seq<Player>, id: PlayerId)
    ensures
        match player_index(ps, id) {
            Some(i) => 0 <= i < ps.len() && ps[i].id == id && forall|j: int|
                0 <= j < i ==> ps[j].id != id,
            None => forall|j: int| 0 <= j < ps.len() ==> ps[j].id != id,
        },
{
    lemma_first_index_spec(player_ids(ps), id);
    assert(player_ids(ps).len() == ps.len());
    if let Some(i) = player_index(ps, id) {
        assert(player_ids(ps)[i] == ps[i].id);
        assert forall|j: int| 0 <= j < i implies ps[j].id != id by {
            assert(player_ids(ps)[j] == ps[j].id);
        }
    } else {
        assert forall|j: int| 0 <= j < ps.len() implies ps[j].id != id by {
            assert(player_ids(ps)[j] == ps[j].id);
        }
    }
}

/// The name of the player with that id, empty where there is none.
pub open spec fn name_of(g: GameView, id: PlayerId) -> Seq<char> {
    match player_index(g.players, id) {
        Some(i) => g.players[i].name@,
        None => seq![],
    }
}

/// The position of the player with that id, 0 where there is none.
pub open spec fn position_of(g: GameView, id: PlayerId) -> u8 {
    match player_index(g.players, id) {
        Some(i) => g.players[i].position,
        None => 0,
    }
}

/// The name of a tile, empty off the board.
pub open spec fn tile_name(idx: u8) -> Seq<char> {
    if idx < 40 {
        board_tile(idx).name
    } else {
        seq![]
    }
}

/// `i` is the first player who is not bankrupt.
pub open spec fn is_first_solvent(ps: Seq<Player>, i: int) -> bool {
    &&& 0 <= i < ps.len()
    &&& !ps[i].is_bankrupt
    &&& forall|j: int| 0 <= j < i ==> ps[j].is_bankrupt
}

/// The first player who is not bankrupt.
pub open spec fn first_solvent(ps: Seq<Player>) -> int {
    choose|i: int| is_first_solvent(ps, i)
}

/// Ending the turn, once the turn is complete: a player who rolled doubles
/// rolls again; otherwise the turn passes to the next active player, and the
/// game is over once at most one player is left.
pub open spec fn end_turn(g: GameView) -> StepView {
    match g.turn {
        None => game_error("No active turn"@),
        Some(t) => if t.phase != TurnPhase::TurnEnd {
            game_error("Cannot end turn now"@)
        } else if t.can_roll_again {
            Ok((
                GameView {
                    turn: Some(TurnState { phase: TurnPhase::WaitingForRoll, can_roll_again: false, ..t }),
                    ..g
                },
                quiet(),
            ))
        } else {
            match spec_next_player(g) {
                None => game_error("No next player"@),
                Some(n) => {
                    let g1 = GameView { turn: Some(new_turn(n)), ..g };
                    if spec_active_count(g.players) <= 1 {
                        let w = g.players[first_solvent(g.players)].id;
                        Ok((
                            log_game(
                                GameView { phase: GamePhase::GameOver, ..g1 },
                                name_of(g, w) + " wins the game!"@,
                            ),
                            send(seq![EventView::GameOver { winner: w }]),
                        ))
                    } else {
                        Ok((
                            log_game(g1, name_of(g, n) + "'s turn"@),
                            send(seq![EventView::TurnChanged { player_id: n }]),
                        ))
                    }
                },
            }
        },
    }
}

/// Buying the tile the current player stands on, at its list price.
pub open spec fn buy(g: GameView) -> StepView {
    match g.turn {
        None => game_error("No active turn"@),
        Some(t) => if t.phase != TurnPhase::BuyDecision {
            game_error("Cannot buy now"@)
        } else {
            let pid = t.player_id;
            let pos = position_of(g, pid);
            if pos >= 40 {
                game_error("Invalid tile"@)
            } else {
                match player_index(g.players, pid) {
                    None => game_error("Player not found"@),
                    Some(i) => {
                        let tile = board_tile(pos);
                        let p = g.players[i];
                        if p.balance < tile.price as i32 {
                            game_error("Not enough money"@)
                        } else {
                            let g1 = set_player(g, i, with_balance(p, p.balance - tile.price));
                            let g2 = set_owner(g1, pos, Some(pid));
                            let g3 = log_game(
                                g2,
                                p.name@ + " bought "@ + tile.name + " for $"@ + nat_text(
                                    tile.price as nat,
                                ),
                            );
                            Ok((
                                set_phase(g3, TurnPhase::TurnEnd),
                                send(
                                    seq![
                                        EventView::PropertyBought {
                                            tile_idx: pos,
                                            player_id: pid,
                                            price: tile.price,
                                        },
                                    ],
                                ),
                            ))
                        }
                    },
                }
            }
        },
    }
}

/// Declining to buy: the tile goes to auction, or, where auctions are off, the turn ends.
pub open spec fn start_auction(g: GameView) -> StepView {
    match g.turn {
        None => game_error("No active turn"@),
        Some(t) => if t.phase != TurnPhase::BuyDecision {
            game_error("Cannot start auction now"@)
        } else {
            let pos = position_of(g, t.player_id);
            if !g.config.auction_on_decline {
                Ok((set_phase(g, TurnPhase::TurnEnd), quiet()))
            } else {
                let g1 = set_phase(
                    GameView { auction: Some(new_auction(pos)), ..g },
                    TurnPhase::Auction,
                );
                Ok((
                    log_game(g1, "Auction started for "@ + tile_name(pos)),
                    send(seq![EventView::AuctionStart { tile_idx: pos, starting_price: 0 }]),
                ))
            }
        },
    }
}

/// A bid: it must be covered by the bidder's balance and beat the current bid.
pub open spec fn place_bid(g: GameView, player_id: PlayerId, amount: u32) -> StepView {
    let balance = match balance_of(g, player_id) {
        Some(b) => b,
        None => 0,
    };
    let current = match g.auction {
        Some(a) => a.current_bid,
        None => 0,
    };
    if balance < amount as i32 {
        game_error("Not enough money"@)
    } else if amount <= current {
        game_error("Bid must be higher"@)
    } else {
        let g1 = match g.auction {
            Some(a) => GameView {
                auction: Some(
                    AuctionView { current_bid: amount, highest_bidder: Some(player_id), ..a },
                ),
                ..g
            },
            None => g,
        };
        Ok((g1, send(seq![EventView::BidPlaced { player_id, amount }])))
    }
}

/// Closing the auction: the highest bidder pays and gets the tile; the turn ends.
pub open spec fn end_auction(g: GameView) -> (GameView, Seq<EventView>) {
    match g.auction {
        None => (g, seq![]),
        Some(a) => {
            let g1 = GameView { auction: None, ..g };
            let name = tile_name(a.tile_idx);
            match a.highest_bidder {
                Some(w) => {
                    let amount = a.current_bid;
                    let g2 = match player_index(g1.players, w) {
                        Some(i) => {
                            let p = g1.players[i];
                            let g3 = set_player(g1, i, with_balance(p, p.balance - (amount as i32)));
                            log_game(
                                set_owner(g3, a.tile_idx, Some(w)),
                                p.name@ + " won "@ + name + " at auction for $"@ + nat_text(
                                    amount as nat,
                                ),
                            )
                        },
                        None => g1,
                    };
                    (
                        set_phase(g2, TurnPhase::TurnEnd),
                        seq![
                            EventView::AuctionEnd { tile_idx: a.tile_idx, winner: Some(w), amount },
                        ],
                    )
                },
                None => (
                    set_phase(
                        log_game(g1, "Auction for "@ + name + " ended with no bids"@),
                        TurnPhase::TurnEnd,
                    ),
                    seq![EventView::AuctionEnd { tile_idx: a.tile_idx, winner: None, amount: 0 }],
                ),
            }
        },
    }
}

/// Closing the auction keeps the winner's balance within `i32`.
pub open spec fn end_auction_fits(g: GameView) -> bool {
    match g.auction {
        Some(a) => match a.highest_bidder {
            Some(w) => match player_index(g.players, w) {
                Some(i) => i32::MIN <= g.players[i].balance - (a.current_bid as i32) <= i32::MAX,
                None => true,
            },
            None => true,
        },
        None => true,
    }
}

/// The game once a player has passed in the auction.
pub open spec fn record_pass(g: GameView, player_id: PlayerId) -> GameView {
    match g.auction {
        Some(a) => if a.passed_players.contains(player_id) {
            g
        } else {
            GameView {
                auction: Some(AuctionView { passed_players: a.passed_players.push(player_id), ..a }),
                ..g
            }
        },
        None => g,
    }
}

/// Passing in the auction; once all but one active player passed, the auction closes.
pub open spec fn pass_bid(g: GameView, player_id: PlayerId) -> StepView {
    let g1 = record_pass(g, player_id);
    let active = spec_active_count(g.players);
    let passed = match g1.auction {
        Some(a) => a.passed_players.len(),
        None => 0,
    };
    let ev = EventView::BidPassed { player_id };
    if passed >= active - 1 || passed >= active {
        let (g2, evs) = end_auction(g1);
        Ok((g2, send(seq![ev] + evs)))
    } else {
        Ok((g1, send(seq![ev])))
    }
}

/// Paying $50 to leave jail; the player may then roll.
pub open spec fn pay_jail(g: GameView) -> StepView {
    match g.turn {
        None => game_error("No active turn"@),
        Some(t) => match player_index(g.players, t.player_id) {
            None => game_error("Player not found"@),
            Some(i) => {
                let p = g.players[i];
                if !p.in_jail {
                    game_error("Not in jail"@)
                } else if p.balance < 50 {
                    game_error("Not enough money"@)
                } else {
                    let g1 = log_game(
                        set_player(
                            g,
                            i,
                            Player { balance: (p.balance - 50) as i32, in_jail: false, jail_turns: 0, ..p },
                        ),
                        p.name@ + " paid $50 to get out of jail"@,
                    );
                    Ok((
                        set_phase(g1, TurnPhase::WaitingForRoll),
                        send(
                            seq![EventView::PlayerFreed { player_id: t.player_id, method: "paid"@ }],
                        ),
                    ))
                }
            },
        },
    }
}

/// Some tile of the group has fewer buildings than `houses`.
pub open spec fn builds_ahead(props: Map<u8, PropertyState>, group: ColorGroup, houses: u8) -> bool {
    exists|j: u8|
        j < 40 && #[trigger] board_tile(j).group == Some(group) && props.contains_key(j)
            && props[j].houses < houses
}

/// The houses on a tile, 0 where it is not in the table.
pub open spec fn houses_on(g: GameView, idx: u8) -> u8 {
    if g.properties.contains_key(idx) {
        g.properties[idx].houses
    } else {
        0
    }
}

/// Building a house (the fifth is a hotel) on a tile of a full color set,
/// evenly across the set where the rule is on.
pub open spec fn build_house(g: GameView, player_id: PlayerId, idx: u8) -> StepView {
    if idx >= 40 {
        game_error("Invalid tile"@)
    } else {
        let tile = board_tile(idx);
        if tile.tile_type != TileType::Property {
            game_error("Cannot build on this tile"@)
        } else if tile.group is None {
            game_error("No color group"@)
        } else if !has_full_set(g.properties, player_id, tile.group.unwrap()) {
            game_error("Must own full color set"@)
        } else {
            match player_index(g.players, player_id) {
                None => game_error("Player not found"@),
                Some(i) => {
                    let p = g.players[i];
                    let current = houses_on(g, idx);
                    if p.balance < tile.build_cost as i32 {
                        game_error("Not enough money"@)
                    } else if current >= 5 {
                        game_error("Already at max buildings"@)
                    } else if g.config.even_build_rule && builds_ahead(
                        g.properties,
                        tile.group.unwrap(),
                        current,
                    ) {
                        game_error("Must build evenly across the color set"@)
                    } else {
                        let houses = (current + 1) as u8;
                        let g1 = set_player(g, i, with_balance(p, p.balance - tile.build_cost));
                        let g2 = set_property(
                            g1,
                            idx,
                            PropertyState { houses, ..g.properties[idx] },
                        );
                        let kind = if houses == 5 {
                            "hotel"@
                        } else {
                            "house"@
                        };
                        Ok((
                            log_game(g2, p.name@ + " built a "@ + kind + " on "@ + tile.name),
                            send(
                                seq![
                                    EventView::BuildingBuilt { tile_idx: idx, player_id, houses },
                                ],
                            ),
                        ))
                    }
                },
            }
        }
    }
}

/// Mortgaging an unbuilt property of one's own for its mortgage value.
pub open spec fn mortgage(g: GameView, player_id: PlayerId, idx: u8) -> StepView {
    if idx >= 40 {
        game_error("Invalid tile"@)
    } else if !g.properties.contains_key(idx) {
        game_error("Not a property"@)
    } else {
        let ps = g.properties[idx];
        let tile = board_tile(idx);
        if ps.owner != Some(player_id) {
            game_error("You don't own this property"@)
        } else if ps.is_mortgaged {
            game_error("Already mortgaged"@)
        } else if ps.houses > 0 {
            game_error("Must sell buildings first"@)
        } else {
            match player_index(g.players, player_id) {
                None => game_error("Player not found"@),
                Some(i) => {
                    let p = g.players[i];
                    let g1 = set_player(g, i, with_balance(p, p.balance + tile.mortgage_value));
                    let g2 = set_property(g1, idx, PropertyState { is_mortgaged: true, ..ps });
                    Ok((
                        log_game(
                            g2,
                            p.name@ + " mortgaged "@ + tile.name + " for $"@ + nat_text(
                                tile.mortgage_value as nat,
                            ),
                        ),
                        send(seq![EventView::PropertyMortgaged { tile_idx: idx, player_id }]),
                    ))
                },
            }
        }
    }
}

/// What lifting a mortgage costs: the mortgage value plus 10%, rounded down.
pub open spec fn unmortgage_cost(mortgage_value: u32) -> i32 {
    (mortgage_value * 11 / 10) as i32
}

/// Lifting the mortgage on a property of one's own.
pub open spec fn unmortgage(g: GameView, player_id: PlayerId, idx: u8) -> StepView {
    if idx >= 40 {
        game_error("Invalid tile"@)
    } else if !g.properties.contains_key(idx) {
        game_error("Not a property"@)
    } else {
        let ps = g.properties[idx];
        let tile = board_tile(idx);
        let cost = unmortgage_cost(tile.mortgage_value);
        if ps.owner != Some(player_id) {
            game_error("You don't own this property"@)
        } else if !ps.is_mortgaged {
            game_error("Not mortgaged"@)
        } else {
            match player_index(g.players, player_id) {
                None => game_error("Player not found"@),
                Some(i) => {
                    let p = g.players[i];
                    if p.balance < cost {
                        game_error("Not enough money"@)
                    } else {
                        let g1 = set_player(g, i, with_balance(p, p.balance - cost));
                        let g2 = set_property(g1, idx, PropertyState { is_mortgaged: false, ..ps });
                        Ok((
                            log_game(
                                g2,
                                p.name@ + " unmortgaged "@ + tile.name + " for $"@ + int_text(
                                    cost as int,
                                ),
                            ),
                            send(seq![EventView::PropertyUnmortgaged { tile_idx: idx, player_id }]),
                        ))
                    }
                },
            }
        }
    }
}

/// Mortgaging keeps the owner's balance within `i32`.
pub open spec fn mortgage_fits(g: GameView, player_id: PlayerId, idx: u8) -> bool {
    match balance_of(g, player_id) {
        Some(b) => b + board_tile(idx).mortgage_value <= i32::MAX,
        None => true,
    }
}

/// Whether it is this player's turn.
pub open spec fn is_current(g: GameView, player_id: PlayerId) -> bool {
    match g.turn {
        Some(t) => t.player_id == player_id,
        None => false,
    }
}

/// An event from a player; `d1` and `d2` are the dice, where the event is a roll.
/// Rolling, buying, declining, ending the turn and paying bail are for the
/// current player only.
pub open spec fn handle_event(
    g: GameView,
    player_id: PlayerId,
    event: ClientEvent,
    d1: u8,
    d2: u8,
) -> StepView {
    let not_yours = Err(ErrorView::Forbidden("Not your turn"@));
    let current = is_current(g, player_id);
    match event {
        ClientEvent::RollDice => if !current {
            not_yours
        } else {
            roll(g, d1, d2)
        },
        ClientEvent::BuyProperty => if !current {
            not_yours
        } else {
            buy(g)
        },
        ClientEvent::PassProperty => if !current {
            not_yours
        } else {
            start_auction(g)
        },
        ClientEvent::EndTurn => if !current {
            not_yours
        } else {
            end_turn(g)
        },
        ClientEvent::Bid { amount } => place_bid(g, player_id, amount),
        ClientEvent::PassBid => pass_bid(g, player_id),
        ClientEvent::PayJail => if !current {
            not_yours
        } else {
            pay_jail(g)
        },
        ClientEvent::Build { tile_idx } => build_house(g, player_id, tile_idx),
        ClientEvent::Mortgage { tile_idx } => mortgage(g, player_id, tile_idx),
        ClientEvent::Unmortgage { tile_idx } => unmortgage(g, player_id, tile_idx),
        ClientEvent::Chat { message } => {
            let from_name = match player_index(g.players, player_id) {
                Some(i) => g.players[i].name@,
                None => "Unknown"@,
            };
            Ok((g, send(seq![EventView::Chat { from: player_id, from_name, message: message@ }])))
        },
        _ => Ok((g, quiet())),
    }
}

/// What the room is told when an event from a player is refused: for a roll
/// by the current player, the dice where they were cast; otherwise nothing.
pub open spec fn event_refusal_events(
    g: GameView,
    player_id: PlayerId,
    event: ClientEvent,
    d1: u8,
    d2: u8,
) -> Seq<EventView> {
    match event {
        ClientEvent::RollDice => if is_current(g, player_id) {
            roll_refusal_events(g, d1, d2)
        } else {
            seq![]
        },
        _ => seq![],
    }
}

/// An event stays within the machine's integers (for a roll, whatever the dice).
pub open spec fn event_fits(g: GameView, player_id: PlayerId, event: ClientEvent) -> bool {
    match event {
        ClientEvent::RollDice => is_current(g, player_id) ==> forall|d1: u8, d2: u8|
            1 <= d1 <= 6 && 1 <= d2 <= 6 ==> #[trigger] roll_fits(g, d1, d2),
        ClientEvent::PassBid => spec_active_count(g.players) >= 1 && end_auction_fits(
            record_pass(g, player_id),
        ),
        ClientEvent::Mortgage { tile_idx } => mortgage_fits(g, player_id, tile_idx),
        _ => true,
    }
}

} // verus!
