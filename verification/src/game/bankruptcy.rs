//! Bankruptcy: a player out of money leaves the game, and their assets go
//! to the creditor or back to the bank.

use vstd::prelude::*;
use vstd::string::*;

use super::rules::{balance_of, lemma_player_index, set_player};
use super::state::{
    empty_property, log_game, player_ids, player_index, GameState, GameView, Player, PlayerId, PropertyState,
};

verus! {

broadcast use vstd::std_specs::hash::group_hash_axioms;

pub struct BankruptcyHandler;

/// The property table once the debtor's holdings go to the creditor, or,
/// where there is none, back to the bank (unowned, unbuilt, unmortgaged).
pub open spec fn seized_properties(
    props: Map<u8, PropertyState>,
    debtor: PlayerId,
    creditor: Option<PlayerId>,
) -> Map<u8, PropertyState> {
    Map::new(
        |k: u8| props.contains_key(k),
        |k: u8|
            if props[k].owner == Some(debtor) {
                match creditor {
                    Some(c) => PropertyState { owner: Some(c), ..props[k] },
                    None => empty_property(),
                }
            } else {
                props[k]
            },
    )
}

/// The game with the Get Out of Jail cards of player `i` set.
pub open spec fn set_cards(g: GameView, i: int, cards: int) -> GameView {
    set_player(g, i, Player { get_out_cards: cards as u8, ..g.players[i] })
}

/// Bankruptcy of `debtor`: marked bankrupt with balance 0; its properties and
/// Get Out of Jail cards go to the creditor, or, owing the bank, the
/// properties return to the bank and the cards are discarded.
pub open spec fn bankrupt(g: GameView, debtor: PlayerId, creditor: Option<PlayerId>) -> GameView {
    let di = player_index(g.players, debtor);
    let (g1, name) = match di {
        Some(i) => (
            set_player(g, i, Player { is_bankrupt: true, balance: 0, ..g.players[i] }),
            g.players[i].name@,
        ),
        None => (g, "Unknown"@),
    };
    let g2 = log_game(g1, "Player "@ + name + " has gone BANKRUPT!"@);
    match creditor {
        Some(c) => {
            let ci = player_index(g.players, c);
            let g3 = match ci {
                Some(j) => log_game(g2, "All assets transferred to "@ + g2.players[j].name@ + "."@),
                None => g2,
            };
            let g4 = GameView { properties: seized_properties(g3.properties, debtor, creditor), ..g3 };
            match di {
                Some(i) => {
                    let cards = g4.players[i].get_out_cards;
                    if cards > 0 {
                        let g5 = set_cards(g4, i, 0);
                        match ci {
                            Some(j) => set_cards(g5, j, g5.players[j].get_out_cards + cards),
                            None => g5,
                        }
                    } else {
                        g4
                    }
                },
                None => g4,
            }
        },
        None => {
            let g3 = log_game(g2, "Assets returned to the Bank."@);
            let g4 = GameView { properties: seized_properties(g3.properties, debtor, None), ..g3 };
            match di {
                Some(i) => set_cards(g4, i, 0),
                None => g4,
            }
        },
    }
}

/// Handing over the debtor's cards keeps the creditor's count within a byte.
pub open spec fn bankrupt_fits(g: GameView, debtor: PlayerId, creditor: Option<PlayerId>) -> bool {
    match (creditor, player_index(g.players, debtor), player_index(g.players, creditor.unwrap_or(0))) {
        (Some(c), Some(i), Some(j)) => i != j ==> g.players[j].get_out_cards + g.players[i].get_out_cards
            <= u8::MAX,
        _ => true,
    }
}

impl BankruptcyHandler {
    /// Check if a player is bankrupt (balance < 0)
    pub fn is_bankrupt(game: &GameState, player_id: PlayerId) -> (r: bool)
        ensures
            r == match balance_of(game@, player_id) {
                Some(b) => b < 0,
                None => false,
            },
    {
        if let Some(player) = game.get_player(player_id) {
            return player.balance < 0;
        }
        false
    }

    /// Hands the debtor's properties over (to the creditor, or back to the bank)
    fn seize_properties(game: &mut GameState, debtor_id: PlayerId, creditor_id: Option<PlayerId>)
        ensures
            final(game)@ == (GameView {
                properties: seized_properties(old(game)@.properties, debtor_id, creditor_id),
                ..old(game)@
            }),
    {
        let ghost g0 = game@;
        let mut k: u16 = 0;
        while k < 256
            invariant
                k <= 256,
                game@ == (GameView {
                    properties: Map::new(
                        |x: u8| g0.properties.contains_key(x),
                        |x: u8|
                            if x < k {
                                seized_properties(g0.properties, debtor_id, creditor_id)[x]
                            } else {
                                g0.properties[x]
                            },
                    ),
                    ..g0
                }),
            decreases 256 - k,
        {
            let idx = k as u8;
            if let Some(prop) = game.properties.get(&idx) {
                let prop = *prop;
                if prop.owner == Some(debtor_id) {
                    let new_state = match creditor_id {
                        Some(c) => PropertyState { owner: Some(c), ..prop },
                        None => PropertyState::default(),
                    };
                    game.properties.insert(idx, new_state);
                }
            }
            assert(game@.properties =~= Map::new(
                |x: u8| g0.properties.contains_key(x),
                |x: u8|
                    if x < k + 1 {
                        seized_properties(g0.properties, debtor_id, creditor_id)[x]
                    } else {
                        g0.properties[x]
                    },
            ));
            k = k + 1;
        }
        assert(game@.properties =~= seized_properties(g0.properties, debtor_id, creditor_id));
    }

    /// Handle bankruptcy processing
    /// creditor_id: None if debt is to Bank, Some(id) if debt is to another player
    pub fn handle_bankruptcy(game: &mut GameState, debtor_id: PlayerId, creditor_id: Option<PlayerId>)
        requires
            bankrupt_fits(old(game)@, debtor_id, creditor_id),
        ensures
            final(game)@ == bankrupt(old(game)@, debtor_id, creditor_id),
    {
        let ghost g0 = game@;
        proof {
            lemma_player_index(g0.players, debtor_id);
            if let Some(c) = creditor_id {
                lemma_player_index(g0.players, c);
            }
        }
        let debtor_idx = game.player_position(debtor_id);
        let creditor_idx = match creditor_id {
            Some(c) => game.player_position(c),
            None => None,
        };
        // 1. Mark player as bankrupt and reset balance
        let player_name = if let Some(i) = debtor_idx {
            game.players[i].is_bankrupt = true;
            game.players[i].balance = 0;
            game.players[i].name.clone()
        } else {
            String::from_str("Unknown")
        };
        let mut msg = String::from_str("Player ");
        msg.append(player_name.as_str());
        msg.append(" has gone BANKRUPT!");
        game.log(msg);
        // 2-3. Transfer assets
        if creditor_id.is_some() {
            if let Some(j) = creditor_idx {
                let mut msg = String::from_str("All assets transferred to ");
                msg.append(game.players[j].name.as_str());
                msg.append(".");
                game.log(msg);
            }
            Self::seize_properties(game, debtor_id, creditor_id);
            // Transfer Get Out of Jail cards
            let cards = match debtor_idx {
                Some(i) => game.players[i].get_out_cards,
                None => 0,
            };
            if cards > 0 {
                if let Some(i) = debtor_idx {
                    game.players[i].get_out_cards = 0;
                }
                if let Some(j) = creditor_idx {
                    game.players[j].get_out_cards = game.players[j].get_out_cards + cards;
                }
            }
        } else {
            // Debt to Bank: the properties are reset
            game.log(String::from_str("Assets returned to the Bank."));
            Self::seize_properties(game, debtor_id, None);
            if let Some(i) = debtor_idx {
                game.players[i].get_out_cards = 0;
            }
        }
        assert(game@ =~= bankrupt(g0, debtor_id, creditor_id));
    }
}

} // verus!
