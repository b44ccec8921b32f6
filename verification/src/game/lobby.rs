//! Rooms before play: creating, joining, adding bots, and starting.

use vstd::prelude::*;
use vstd::string::*;

use super::events::{Outcome, OutcomeView};
use super::random::{new_uuid, random_in_range};
use super::rules::set_player;
use super::state::{
    is_new_player, new_game, new_turn, player_ids, push_log, GameConfig, GamePhase, GameState,
    GameView, Player, PlayerId, TurnState,
};
use crate::error::{AppError, ErrorView};

verus! {

/// The color given to the `n`-th player to join.
pub open spec fn spec_player_color(n: int) -> Seq<char> {
    let k = n % 8;
    if k == 0 {
        "#FF5733"@
    } else if k == 1 {
        "#33FF57"@
    } else if k == 2 {
        "#3357FF"@
    } else if k == 3 {
        "#FF33F5"@
    } else if k == 4 {
        "#F5FF33"@
    } else if k == 5 {
        "#33FFF5"@
    } else if k == 6 {
        "#FF8C33"@
    } else {
        "#8C33FF"@
    }
}

/// The name given to the `n`-th bot.
pub open spec fn spec_bot_name(n: int) -> Seq<char> {
    let k = n % 8;
    if k == 0 {
        "Bot Alpha"@
    } else if k == 1 {
        "Bot Beta"@
    } else if k == 2 {
        "Bot Gamma"@
    } else if k == 3 {
        "Bot Delta"@
    } else if k == 4 {
        "Bot Epsilon"@
    } else if k == 5 {
        "Bot Zeta"@
    } else if k == 6 {
        "Bot Eta"@
    } else {
        "Bot Theta"@
    }
}

/// Player colors for assignment
pub fn player_color(n: usize) -> (r: &'static str)
    ensures
        r@ == spec_player_color(n as int),
{
    let k = n % 8;
    if k == 0 {
        "#FF5733"
    } else if k == 1 {
        "#33FF57"
    } else if k == 2 {
        "#3357FF"
    } else if k == 3 {
        "#FF33F5"
    } else if k == 4 {
        "#F5FF33"
    } else if k == 5 {
        "#33FFF5"
    } else if k == 6 {
        "#FF8C33"
    } else {
        "#8C33FF"
    }
}

/// Bot names
pub fn bot_name(n: usize) -> (r: &'static str)
    ensures
        r@ == spec_bot_name(n as int),
{
    let k = n % 8;
    if k == 0 {
        "Bot Alpha"
    } else if k == 1 {
        "Bot Beta"
    } else if k == 2 {
        "Bot Gamma"
    } else if k == 3 {
        "Bot Delta"
    } else if k == 4 {
        "Bot Epsilon"
    } else if k == 5 {
        "Bot Zeta"
    } else if k == 6 {
        "Bot Eta"
    } else {
        "Bot Theta"
    }
}

/// `g2` is `g` with one more player, new in the sense of `is_new_player`,
/// and a log entry.
pub open spec fn adds_player(
    g: GameView,
    g2: GameView,
    id: PlayerId,
    name: Seq<char>,
    color: Seq<char>,
    is_host: bool,
    is_bot: bool,
    message: Seq<char>,
) -> bool {
    &&& g2.players.len() == g.players.len() + 1
    &&& is_new_player(g2.players.last(), id, name, color, is_host, is_bot)
    &&& g2 == GameView {
        players: g.players.push(g2.players.last()),
        logs: push_log(g.logs, message),
        ..g
    }
}

/// Why a player may not join: the game started, or the room is full.
pub open spec fn join_refusal(g: GameView) -> Option<ErrorView> {
    if g.phase != GamePhase::Lobby {
        Some(ErrorView::BadRequest("Game already started"@))
    } else if g.players.len() >= g.config.max_players {
        Some(ErrorView::BadRequest("Room is full"@))
    } else {
        None
    }
}

/// Why a game may not start: it started already, or fewer than two players joined.
pub open spec fn start_refusal(g: GameView) -> Option<ErrorView> {
    if g.phase != GamePhase::Lobby {
        Some(ErrorView::BadRequest("Game already started"@))
    } else if g.players.len() < 2 {
        Some(ErrorView::BadRequest("Need at least 2 players"@))
    } else {
        None
    }
}

/// Whether a player is a bot, as a predicate.
pub open spec fn is_bot_pred() -> spec_fn(Player) -> bool {
    |p: Player| p.is_bot
}

/// How many bots joined.
pub open spec fn bot_count(ps: Seq<Player>) -> nat {
    ps.filter(is_bot_pred()).len()
}

/// The game once started with the given turn order: every player gets the
/// starting cash, and the first in the order takes the first turn.
pub open spec fn started(g: GameView, order: Seq<PlayerId>) -> GameView {
    GameView {
        players: Seq::new(
            g.players.len(),
            |i: int| Player { balance: g.config.starting_cash, ..g.players[i] },
        ),
        turn_order: order,
        turn: Some(new_turn(order[0])),
        phase: GamePhase::Playing,
        logs: push_log(g.logs, "Game started!"@),
        ..g
    }
}

/// The letters a room code is made of.
pub open spec fn room_code_chars() -> Seq<char> {
    "abcdefghijklmnopqrstuvwxyz0123456789"@
}

/// A room code: six lower-case letters or digits.
pub open spec fn is_room_code(s: Seq<char>) -> bool {
    &&& s.len() == 6
    &&& forall|i: int| 0 <= i < 6 ==> room_code_chars().contains(#[trigger] s[i])
}

/// Generate a short room ID (6 chars)
pub fn generate_room_id() -> (r: String)
    ensures
        is_room_code(r@),
{
    let charset = "abcdefghijklmnopqrstuvwxyz0123456789";
    proof {
        reveal_strlit("abcdefghijklmnopqrstuvwxyz0123456789");
    }
    assert(charset.is_ascii());
    let mut r = String::new();
    let mut n: usize = 0;
    while n < 6
        invariant
            n <= 6,
            charset@ == room_code_chars(),
            room_code_chars().len() == 36,
            charset.is_ascii(),
            r@.len() == n,
            forall|i: int| 0 <= i < n ==> room_code_chars().contains(#[trigger] r@[i]),
        decreases 6 - n,
    {
        let idx = random_in_range(0, 35);
        let c = charset.substring_ascii(idx, idx + 1);
        let ghost before = r@;
        r.append(c);
        assert(r@[n as int] == room_code_chars()[idx as int]);
        assert forall|i: int| 0 <= i < n + 1 implies room_code_chars().contains(#[trigger] r@[i]) by {
            if i < n {
                assert(r@[i] == before[i]);
            }
        }
        n = n + 1;
    }
    r
}

impl super::engine::GameEngine {
    /// The new room's state: its host joined and the room created
    pub fn new_room(room_id: String, player_id: PlayerId, host_name: &str, config: GameConfig) -> (r:
        GameState)
        ensures
            adds_player(
                new_game(room_id@, config),
                r@,
                player_id,
                host_name@,
                "#FF5733"@,
                true,
                false,
                host_name@ + " created the room"@,
            ),
    {
        let mut game = GameState::new(room_id, config);
        let ghost g0 = game@;
        let color = String::from_str(player_color(0));
        let player = Player::new(player_id, String::from_str(host_name), color, true, false);
        game.players.push(player);
        let mut msg = String::from_str(host_name);
        msg.append(" created the room");
        game.log(msg);
        assert(game@ =~= GameView {
            players: g0.players.push(game@.players.last()),
            logs: push_log(g0.logs, host_name@ + " created the room"@),
            ..g0
        });
        game
    }

    /// Create a new game room: a fresh room code, a fresh id for the host
    pub fn create_room(host_name: &str, config: GameConfig) -> (r: (GameState, String, PlayerId))
        ensures
            is_room_code(r.1@),
            adds_player(
                new_game(r.1@, config),
                r.0@,
                r.2,
                host_name@,
                "#FF5733"@,
                true,
                false,
                host_name@ + " created the room"@,
            ),
    {
        let room_id = generate_room_id();
        let player_id = new_uuid();
        let game = Self::new_room(room_id.clone(), player_id, host_name, config);
        (game, room_id, player_id)
    }

    /// Adds a player with a given id to a room in the lobby
    pub fn join_room_with_id(game: &mut GameState, player_name: &str, player_id: PlayerId) -> (r:
        Result<(), AppError>)
        ensures
            match join_refusal(old(game)@) {
                Some(e) => r matches Err(x) && x@ == e && final(game)@ == old(game)@,
                None => r is Ok && adds_player(
                    old(game)@,
                    final(game)@,
                    player_id,
                    player_name@,
                    spec_player_color(old(game)@.players.len() as int),
                    false,
                    false,
                    player_name@ + " joined the game"@,
                ),
            },
    {
        let ghost g0 = game@;
        if game.phase != GamePhase::Lobby {
            return Err(AppError::bad_request("Game already started"));
        }
        if game.players.len() >= game.config.max_players as usize {
            return Err(AppError::bad_request("Room is full"));
        }
        let color = String::from_str(player_color(game.players.len()));
        let player = Player::new(player_id, String::from_str(player_name), color, false, false);
        let mut msg = String::from_str(player_name);
        msg.append(" joined the game");
        game.log(msg);
        game.players.push(player);
        assert(game@ =~= GameView {
            players: g0.players.push(game@.players.last()),
            logs: push_log(g0.logs, player_name@ + " joined the game"@),
            ..g0
        });
        Ok(())
    }

    /// Join an existing room: the new player gets a fresh id
    pub fn join_room(game: &mut GameState, player_name: &str) -> (r: Result<PlayerId, AppError>)
        ensures
            match join_refusal(old(game)@) {
                Some(e) => r matches Err(x) && x@ == e && final(game)@ == old(game)@,
                None => r matches Ok(id) && adds_player(
                    old(game)@,
                    final(game)@,
                    id,
                    player_name@,
                    spec_player_color(old(game)@.players.len() as int),
                    false,
                    false,
                    player_name@ + " joined the game"@,
                ),
            },
    {
        let player_id = new_uuid();
        match Self::join_room_with_id(game, player_name, player_id) {
            Ok(()) => Ok(player_id),
            Err(e) => Err(e),
        }
    }

    /// Number of bots among the players
    fn count_bots(game: &GameState) -> (r: usize)
        ensures
            r == bot_count(game@.players),
    {
        let mut count: usize = 0;
        let mut i: usize = 0;
        while i < game.players.len()
            invariant
                i <= game.players@.len(),
                count == game.players@.take(i as int).filter(is_bot_pred()).len(),
                count <= i,
            decreases game.players@.len() - i,
        {
            proof {
                let s = game.players@.take(i + 1);
                assert(s.drop_last() =~= game.players@.take(i as int));
                reveal_with_fuel(Seq::<_>::filter, 1);
            }
            if game.players[i].is_bot {
                count = count + 1;
            }
            i = i + 1;
        }
        assert(game.players@.take(game.players@.len() as int) =~= game.players@);
        count
    }

    /// Adds a bot with a given id to a room in the lobby
    pub fn add_bot_with_id(game: &mut GameState, player_id: PlayerId) -> (r: Result<(), AppError>)
        ensures
            match join_refusal(old(game)@) {
                Some(e) => r matches Err(x) && x@ == e && final(game)@ == old(game)@,
                None => r is Ok && adds_player(
                    old(game)@,
                    final(game)@,
                    player_id,
                    spec_bot_name(bot_count(old(game)@.players) as int),
                    spec_player_color(old(game)@.players.len() as int),
                    false,
                    true,
                    spec_bot_name(bot_count(old(game)@.players) as int) + " joined the game"@,
                ),
            },
    {
        let ghost g0 = game@;
        if game.phase != GamePhase::Lobby {
            return Err(AppError::bad_request("Game already started"));
        }
        if game.players.len() >= game.config.max_players as usize {
            return Err(AppError::bad_request("Room is full"));
        }
        let bot_idx = Self::count_bots(game);
        let color = String::from_str(player_color(game.players.len()));
        let name = bot_name(bot_idx);
        let player = Player::new(player_id, String::from_str(name), color, false, true);
        let mut msg = String::from_str(name);
        msg.append(" joined the game");
        game.log(msg);
        game.players.push(player);
        assert(game@ =~= GameView {
            players: g0.players.push(game@.players.last()),
            logs: push_log(g0.logs, spec_bot_name(bot_count(g0.players) as int) + " joined the game"@),
            ..g0
        });
        Ok(())
    }

    /// Add a bot to the room: it gets a fresh id
    pub fn add_bot(game: &mut GameState) -> (r: Result<PlayerId, AppError>)
        ensures
            match join_refusal(old(game)@) {
                Some(e) => r matches Err(x) && x@ == e && final(game)@ == old(game)@,
                None => r matches Ok(id) && adds_player(
                    old(game)@,
                    final(game)@,
                    id,
                    spec_bot_name(bot_count(old(game)@.players) as int),
                    spec_player_color(old(game)@.players.len() as int),
                    false,
                    true,
                    spec_bot_name(bot_count(old(game)@.players) as int) + " joined the game"@,
                ),
            },
    {
        let player_id = new_uuid();
        match Self::add_bot_with_id(game, player_id) {
            Ok(()) => Ok(player_id),
            Err(e) => Err(e),
        }
    }

    /// The player ids in a random order (Fisher-Yates)
    pub fn shuffled_player_ids(game: &GameState) -> (r: Vec<PlayerId>)
        ensures
            r@.to_multiset() == player_ids(game@.players).to_multiset(),
            r@.len() == game@.players.len(),
    {
        let mut order: Vec<PlayerId> = Vec::new();
        let mut k: usize = 0;
        while k < game.players.len()
            invariant
                k <= game.players@.len(),
                order@ == player_ids(game@.players).take(k as int),
            decreases game.players@.len() - k,
        {
            order.push(game.players[k].id);
            assert(order@ =~= player_ids(game@.players).take(k + 1));
            k = k + 1;
        }
        assert(order@ =~= player_ids(game@.players));
        let ghost ids = order@;
        let mut i: usize = order.len();
        while i > 1
            invariant
                i <= order@.len(),
                order@.len() == ids.len(),
                order@.to_multiset() == ids.to_multiset(),
            decreases i,
        {
            i = i - 1;
            let j = random_in_range(0, i);
            let a = order[i];
            let b = order[j];
            let ghost s0 = order@;
            order[i] = b;
            order[j] = a;
            proof {
                broadcast use vstd::multiset::group_multiset_axioms;
                let s1 = s0.update(i as int, b);
                vstd::seq_lib::to_multiset_update(s0, i as int, b);
                assert(s1[j as int] == b);
                vstd::seq_lib::to_multiset_update(s1, j as int, a);
                vstd::seq_lib::to_multiset_contains(s0, a);
                assert(s0.contains(a)) by {
                    assert(s0[i as int] == a);
                }
                assert(s1.update(j as int, a).to_multiset() =~= s0.to_multiset());
                assert(order@ == s1.update(j as int, a));
            }
        }
        order
    }

    /// Starts the game with a given turn order
    pub fn start_game_with_order(game: &mut GameState, order: Vec<PlayerId>) -> (r: Result<
        Outcome,
        AppError,
    >)
        requires
            order@.len() > 0,
        ensures
            match start_refusal(old(game)@) {
                Some(e) => r matches Err(x) && x@ == e && final(game)@ == old(game)@,
                None => r matches Ok(out) && out@ == (OutcomeView {
                    events: seq![],
                    broadcast_state: true,
                }) && final(game)@ == started(old(game)@, order@),
            },
    {
        let ghost g0 = game@;
        if game.phase != GamePhase::Lobby {
            return Err(AppError::bad_request("Game already started"));
        }
        if game.players.len() < 2 {
            return Err(AppError::bad_request("Need at least 2 players"));
        }
        // Set starting cash
        let starting_cash = game.config.starting_cash;
        let mut i: usize = 0;
        while i < game.players.len()
            invariant
                i <= game.players@.len(),
                game@.players.len() == g0.players.len(),
                starting_cash == g0.config.starting_cash,
                game@ == (GameView {
                    players: Seq::new(
                        g0.players.len(),
                        |k: int| if k < i {
                            Player { balance: starting_cash, ..g0.players[k] }
                        } else {
                            g0.players[k]
                        },
                    ),
                    ..g0
                }),
            decreases game.players@.len() - i,
        {
            game.players[i].balance = starting_cash;
            assert(game@ =~= GameView {
                players: Seq::new(
                    g0.players.len(),
                    |k: int| if k < i + 1 {
                        Player { balance: starting_cash, ..g0.players[k] }
                    } else {
                        g0.players[k]
                    },
                ),
                ..g0
            });
            i = i + 1;
        }
        let first_player = order[0];
        game.turn_order = order;
        game.turn = Some(TurnState::new(first_player));
        game.phase = GamePhase::Playing;
        game.log(String::from_str("Game started!"));
        assert(game@ =~= started(g0, game@.turn_order));
        let r = Outcome { events: Vec::new(), broadcast_state: true };
        assert(r@.events =~= seq![]);
        Ok(r)
    }

    /// Start the game: every player gets the starting cash, and the turn order is random
    pub fn start_game(game: &mut GameState) -> (r: Result<Outcome, AppError>)
        ensures
            match start_refusal(old(game)@) {
                Some(e) => r matches Err(x) && x@ == e && final(game)@ == old(game)@,
                None => r matches Ok(out) && out@ == (OutcomeView {
                    events: seq![],
                    broadcast_state: true,
                }) && final(game)@.turn_order.to_multiset() == player_ids(
                    old(game)@.players,
                ).to_multiset() && final(game)@ == started(old(game)@, final(game)@.turn_order),
            },
    {
        if game.phase != GamePhase::Lobby {
            return Err(AppError::bad_request("Game already started"));
        }
        if game.players.len() < 2 {
            return Err(AppError::bad_request("Need at least 2 players"));
        }
        let order = Self::shuffled_player_ids(game);
        Self::start_game_with_order(game, order)
    }
}

} // verus!
