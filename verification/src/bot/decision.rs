//! Bot AI decision making (deterministic, no LLM)

use vstd::prelude::*;

use crate::game::board::{
    board_tile, get_tile, lemma_board_facts, spec_property_count, ColorGroup, TileType,
};
use crate::game::rules::{lemma_player_index, owns};
use crate::game::state::{player_ids, player_index, GameState, GameView, Player, PlayerId, PropertyState};

verus! {

broadcast use vstd::std_specs::hash::group_hash_axioms;

/// Bot AI decision engine
pub struct BotAI;

/// Property priority based on Monopoly statistics
#[derive(Debug, Clone, Copy)]
pub struct PropertyPriority {
    pub group: ColorGroup,
    pub priority: u8,
}

/// The groups from most to least wanted, with their priorities.
pub open spec fn priorities() -> Seq<PropertyPriority> {
    seq![
        PropertyPriority { group: ColorGroup::Orange, priority: 5 },
        PropertyPriority { group: ColorGroup::Red, priority: 5 },
        PropertyPriority { group: ColorGroup::Yellow, priority: 4 },
        PropertyPriority { group: ColorGroup::Railroad, priority: 4 },
        PropertyPriority { group: ColorGroup::Green, priority: 3 },
        PropertyPriority { group: ColorGroup::Pink, priority: 3 },
        PropertyPriority { group: ColorGroup::LightBlue, priority: 2 },
        PropertyPriority { group: ColorGroup::DarkBlue, priority: 2 },
        PropertyPriority { group: ColorGroup::Brown, priority: 2 },
        PropertyPriority { group: ColorGroup::Utility, priority: 1 },
    ]
}

/// How much a bot wants a group.
pub open spec fn priority_of(group: ColorGroup) -> u8 {
    match group {
        ColorGroup::Orange | ColorGroup::Red => 5,
        ColorGroup::Yellow | ColorGroup::Railroad => 4,
        ColorGroup::Green | ColorGroup::Pink => 3,
        ColorGroup::LightBlue | ColorGroup::DarkBlue | ColorGroup::Brown => 2,
        ColorGroup::Utility => 1,
    }
}

/// How many tiles of a group, among the first `n`, `owner` holds.
pub open spec fn count_in_group(
    props: Map<u8, PropertyState>,
    owner: PlayerId,
    group: ColorGroup,
    n: nat,
) -> nat
    decreases n,
{
    if n == 0 {
        0
    } else {
        let i = (n - 1) as u8;
        count_in_group(props, owner, group, (n - 1) as nat) + if owns(props, owner, i)
            && board_tile(i).group == Some(group) {
            1nat
        } else {
            0nat
        }
    }
}

/// The share of its balance, in percent, a bot spends on a tile.
pub open spec fn max_percent(priority: u8, completes: bool) -> u32 {
    if priority == 5 {
        if completes {
            80
        } else {
            60
        }
    } else if priority == 4 {
        if completes {
            70
        } else {
            50
        }
    } else if priority == 3 {
        if completes {
            60
        } else {
            40
        }
    } else if completes {
        50
    } else {
        30
    }
}

/// The share of its balance, in percent, a bot spends on a tile of a group.
pub open spec fn buy_percent(g: GameView, bot_id: PlayerId, group: ColorGroup) -> u32 {
    max_percent(
        priority_of(group),
        count_in_group(g.properties, bot_id, group, 40) >= spec_property_count(group) - 1,
    )
}

/// A bot buys a tile whose price is within its spending share of its balance
/// (the balance read as unsigned); the share grows with the group's priority
/// and when the tile would leave at most one tile of the group missing.
pub open spec fn should_buy(g: GameView, bot_id: PlayerId, tile_idx: u8) -> bool {
    match player_index(g.players, bot_id) {
        None => false,
        Some(i) => if tile_idx >= 40 {
            false
        } else {
            let t = board_tile(tile_idx);
            match t.group {
                None => false,
                Some(group) => t.price <= ((g.players[i].balance as u32) * buy_percent(
                    g,
                    bot_id,
                    group,
                )) / 100,
            }
        },
    }
}

/// The game with a player's balance replaced.
pub open spec fn with_player_balance(g: GameView, i: int, balance: i32) -> GameView {
    GameView { players: g.players.update(i, Player { balance, ..g.players[i] }), ..g }
}

/// A bot that would buy a tile would still buy it with more money, all else
/// the same (balances that are not negative).
pub proof fn law_should_buy_grows_with_balance(g: GameView, bot_id: PlayerId, tile_idx: u8, balance: i32)
    requires
        player_index(g.players, bot_id) matches Some(i) && 0 <= g.players[i].balance <= balance,
    ensures
        should_buy(g, bot_id, tile_idx) ==> should_buy(
            with_player_balance(g, player_index(g.players, bot_id).unwrap(), balance),
            bot_id,
            tile_idx,
        ),
{
    lemma_player_index(g.players, bot_id);
    let i = player_index(g.players, bot_id).unwrap();
    let g2 = with_player_balance(g, i, balance);
    assert(player_ids(g2.players) =~= player_ids(g.players));
    if tile_idx < 40 && board_tile(tile_idx).group is Some {
        let p = buy_percent(g, bot_id, board_tile(tile_idx).group.unwrap()) as int;
        let b1 = (g.players[i].balance as u32) as int;
        let b2 = (balance as u32) as int;
        assert(b1 == g.players[i].balance && b2 == balance);
        assert(b1 * p / 100 <= b2 * p / 100) by (nonlinear_arith)
            requires
                0 <= b1 <= b2,
                0 <= p,
        {
            vstd::arithmetic::div_mod::lemma_div_is_ordered(b1 * p, b2 * p, 100);
        }
    }
}

/// Working out `should_buy` stays within `u32`.
pub open spec fn should_buy_fits(g: GameView, bot_id: PlayerId, tile_idx: u8) -> bool {
    match player_index(g.players, bot_id) {
        Some(i) => tile_idx < 40 && board_tile(tile_idx).group is Some ==> (
        g.players[i].balance as u32) * buy_percent(g, bot_id, board_tile(tile_idx).group.unwrap())
            <= u32::MAX,
        None => true,
    }
}

/// What a bot's auction limit is worked out from.
#[derive(Debug, Clone, Copy)]
pub struct MaxBidFactors {
    /// The tile's list price
    pub price: u32,
    /// The tile would leave at most one tile of the group missing
    pub would_complete_set: bool,
    /// Another active player holds all but one tile of the group
    pub blocks_opponent: bool,
    /// The group's priority
    pub priority: u8,
    /// The bot's balance
    pub balance: i32,
}

/// Whether another active player holds all but one tile of the group.
pub open spec fn blocks_opponent(g: GameView, bot_id: PlayerId, group: ColorGroup) -> bool {
    exists|j: int|
        0 <= j < g.players.len() && g.players[j].id != bot_id && !g.players[j].is_bankrupt
            && count_in_group(g.properties, #[trigger] g.players[j].id, group, 40)
            >= spec_property_count(group) - 1
}

/// The factors of a bot's auction limit for a tile, where the bot is in the
/// game and the tile is in a group.
pub open spec fn max_bid_factors(g: GameView, bot_id: PlayerId, tile_idx: u8) -> Option<MaxBidFactors> {
    match player_index(g.players, bot_id) {
        None => None,
        Some(i) => if tile_idx >= 40 {
            None
        } else {
            let t = board_tile(tile_idx);
            match t.group {
                None => None,
                Some(group) => Some(
                    MaxBidFactors {
                        price: t.price,
                        would_complete_set: count_in_group(g.properties, bot_id, group, 40)
                            >= spec_property_count(group) - 1,
                        blocks_opponent: blocks_opponent(g, bot_id, group),
                        priority: priority_of(group),
                        balance: g.players[i].balance,
                    },
                ),
            }
        },
    }
}

/// Whether a tile is a buildable city of a group.
pub open spec fn group_city(group: ColorGroup) -> spec_fn(u8) -> bool {
    |i: u8| i < 40 && board_tile(i).group == Some(group) && board_tile(i).tile_type == TileType::Property
}

/// The tile indices of the board.
pub open spec fn board_indices() -> Seq<u8> {
    Seq::new(40, |i: int| i as u8)
}

/// The cities of a group, in board order.
pub open spec fn group_cities(group: ColorGroup) -> Seq<u8> {
    board_indices().filter(group_city(group))
}

/// The bot holds every listed tile, none of them mortgaged.
pub open spec fn owns_all_unmortgaged(props: Map<u8, PropertyState>, bot_id: PlayerId, tiles: Seq<u8>) -> bool {
    forall|k: int|
        0 <= k < tiles.len() ==> props.contains_key(#[trigger] tiles[k]) && props[tiles[k]].owner
            == Some(bot_id) && !props[tiles[k]].is_mortgaged
}

/// The fewest buildings on the listed tiles (all in the table), 0 for none.
pub open spec fn min_houses(props: Map<u8, PropertyState>, tiles: Seq<u8>) -> u8
    decreases tiles.len(),
{
    if tiles.len() == 0 {
        0
    } else if tiles.len() == 1 {
        props[tiles[0]].houses
    } else {
        let m = min_houses(props, tiles.drop_last());
        let h = props[tiles.last()].houses;
        if h < m {
            h
        } else {
            m
        }
    }
}

/// The first listed tile with exactly `houses` buildings.
pub open spec fn first_with_houses(props: Map<u8, PropertyState>, tiles: Seq<u8>, houses: u8) -> int {
    choose|k: int|
        0 <= k < tiles.len() && props[tiles[k]].houses == houses && forall|m: int|
            0 <= m < k ==> props[tiles[m]].houses != houses
}

/// Where, in a group, a bot builds next: the first of its least built cities,
/// when it holds the whole group unmortgaged, can pay the building cost, and
/// the group is not fully built.
pub open spec fn build_target(g: GameView, bot_id: PlayerId, balance: i32, group: ColorGroup) -> Option<u8> {
    let tiles = group_cities(group);
    if tiles.len() == 0 || !owns_all_unmortgaged(g.properties, bot_id, tiles) {
        None
    } else if balance < board_tile(tiles[0]).build_cost as i32 {
        None
    } else {
        let m = min_houses(g.properties, tiles);
        if m >= 5 {
            None
        } else {
            Some(tiles[first_with_houses(g.properties, tiles, m)])
        }
    }
}

/// The build targets over a list of groups, in order.
pub open spec fn build_targets_over(
    g: GameView,
    bot_id: PlayerId,
    balance: i32,
    ps: Seq<PropertyPriority>,
) -> Seq<u8>
    decreases ps.len(),
{
    if ps.len() == 0 {
        seq![]
    } else {
        let rest = build_targets_over(g, bot_id, balance, ps.drop_last());
        match build_target(g, bot_id, balance, ps.last().group) {
            Some(t) => rest.push(t),
            None => rest,
        }
    }
}

/// The tiles a bot should build on, one per group, by group priority.
pub open spec fn build_targets(g: GameView, bot_id: PlayerId) -> Seq<u8> {
    match player_index(g.players, bot_id) {
        None => seq![],
        Some(i) => build_targets_over(g, bot_id, g.players[i].balance, priorities()),
    }
}

/// How many keys below `n` the property table has, and how many of them are unowned.
pub open spec fn count_keys(props: Map<u8, PropertyState>, n: nat, unowned_only: bool) -> nat
    decreases n,
{
    if n == 0 {
        0
    } else {
        let k = (n - 1) as u8;
        count_keys(props, (n - 1) as nat, unowned_only) + if props.contains_key(k) && (
        !unowned_only || props[k].owner is None) {
            1nat
        } else {
            0nat
        }
    }
}

/// A bot pays to leave jail early in the game (fewer than half the
/// properties owned) when it can; later, only when rich ($200 or more) and
/// holding no card.
pub open spec fn should_pay_jail(g: GameView, bot_id: PlayerId) -> bool {
    match player_index(g.players, bot_id) {
        None => false,
        Some(i) => {
            let bot = g.players[i];
            let unowned = count_keys(g.properties, 256, true);
            let total = count_keys(g.properties, 256, false);
            if 2 * unowned > total && bot.balance >= 50 {
                true
            } else if bot.balance < 200 {
                false
            } else if bot.get_out_cards > 0 {
                false
            } else {
                bot.balance >= 100
            }
        },
    }
}

/// The value of a tile to a player in a trade: its price, times 2.5 when it
/// would complete the group, 1.5 when two are missing, 0.5 when the group is
/// already complete, rounded down.
pub open spec fn property_value(g: GameView, player_id: PlayerId, tile_idx: u8) -> i32 {
    if tile_idx >= 40 {
        0
    } else {
        let t = board_tile(tile_idx);
        let base = t.price as int;
        match t.group {
            None => t.price as i32,
            Some(group) => {
                let owned = count_in_group(g.properties, player_id, group, 40);
                let size = spec_property_count(group) as int;
                let missing = if size > owned {
                    size - owned
                } else {
                    0
                };
                (if missing == 0 {
                    base / 2
                } else if missing == 1 {
                    base * 5 / 2
                } else if missing == 2 {
                    base * 3 / 2
                } else {
                    base
                }) as i32
            },
        }
    }
}

#[derive(Debug, Clone, Copy, PartialEq, Eq, Structural)]
pub enum TradeDecision {
    Accept,
    Reject,
    Counter,
}

impl BotAI {
    /// Get property priorities (based on landing statistics)
    pub fn get_priorities() -> (r: Vec<PropertyPriority>)
        ensures
            r@ == priorities(),
    {
        let mut r: Vec<PropertyPriority> = Vec::new();
        r.push(PropertyPriority { group: ColorGroup::Orange, priority: 5 });
        r.push(PropertyPriority { group: ColorGroup::Red, priority: 5 });
        r.push(PropertyPriority { group: ColorGroup::Yellow, priority: 4 });
        r.push(PropertyPriority { group: ColorGroup::Railroad, priority: 4 });
        r.push(PropertyPriority { group: ColorGroup::Green, priority: 3 });
        r.push(PropertyPriority { group: ColorGroup::Pink, priority: 3 });
        r.push(PropertyPriority { group: ColorGroup::LightBlue, priority: 2 });
        r.push(PropertyPriority { group: ColorGroup::DarkBlue, priority: 2 });
        r.push(PropertyPriority { group: ColorGroup::Brown, priority: 2 });
        r.push(PropertyPriority { group: ColorGroup::Utility, priority: 1 });
        assert(r@ =~= priorities());
        r
    }

    /// The priority of a group: the first entry for it in the priority list, else 1
    fn group_priority(group: ColorGroup) -> (r: u8)
        ensures
            r == priority_of(group),
    {
        let list = Self::get_priorities();
        let mut i: usize = 0;
        while i < list.len()
            invariant
                i <= list@.len(),
                list@ == priorities(),
                forall|j: int| 0 <= j < i ==> list@[j].group != group,
            decreases list@.len() - i,
        {
            if list[i].group == group {
                return list[i].priority;
            }
            i = i + 1;
        }
        1
    }

    /// Number of tiles of a group that a player owns
    fn owned_in_group(game: &GameState, owner: PlayerId, group: ColorGroup) -> (r: usize)
        ensures
            r == count_in_group(game.properties@, owner, group, 40),
    {
        let mut count: usize = 0;
        let mut idx: u8 = 0;
        while idx < 40
            invariant
                idx <= 40,
                count == count_in_group(game.properties@, owner, group, idx as nat),
                count <= idx,
            decreases 40 - idx,
        {
            let owned = match game.properties.get(&idx) {
                Some(p) => p.owner == Some(owner),
                None => false,
            };
            if owned {
                if let Some(t) = get_tile(idx) {
                    let in_group = match t.group {
                        Some(g) => g == group,
                        None => false,
                    };
                    if in_group {
                        count = count + 1;
                    }
                }
            }
            idx = idx + 1;
        }
        count
    }

    /// Decide whether to buy a property
    pub fn should_buy(game: &GameState, bot_id: PlayerId, tile_idx: u8) -> (r: bool)
        requires
            should_buy_fits(game@, bot_id, tile_idx),
        ensures
            r == should_buy(game@, bot_id, tile_idx),
    {
        let bot = match game.get_player(bot_id) {
            Some(p) => p,
            None => return false,
        };
        let tile = match get_tile(tile_idx) {
            Some(t) => t,
            None => return false,
        };
        let group = match tile.group {
            Some(g) => g,
            None => return false,
        };
        let priority = Self::group_priority(group);
        let owned_in_group = Self::owned_in_group(game, bot_id, group);
        let group_size = group.property_count() as usize;
        let completes = owned_in_group >= group_size - 1;
        let max_percent: u32 = if priority == 5 {
            if completes {
                80
            } else {
                60
            }
        } else if priority == 4 {
            if completes {
                70
            } else {
                50
            }
        } else if priority == 3 {
            if completes {
                60
            } else {
                40
            }
        } else if completes {
            50
        } else {
            30
        };
        let max_spend = (bot.balance as u32 * max_percent) / 100;
        tile.price <= max_spend
    }

    /// What the bot's auction limit is worked out from (see `calculate_max_bid` in the server)
    pub fn max_bid_factors(game: &GameState, bot_id: PlayerId, tile_idx: u8) -> (r: Option<
        MaxBidFactors,
    >)
        ensures
            r == max_bid_factors(game@, bot_id, tile_idx),
    {
        let bot = match game.get_player(bot_id) {
            Some(p) => p,
            None => return None,
        };
        let tile = match get_tile(tile_idx) {
            Some(t) => t,
            None => return None,
        };
        let group = match tile.group {
            Some(g) => g,
            None => return None,
        };
        let priority = Self::group_priority(group);
        let owned_in_group = Self::owned_in_group(game, bot_id, group);
        let group_size = group.property_count() as usize;
        let would_complete_set = owned_in_group >= group_size - 1;
        let mut blocks = false;
        let mut j: usize = 0;
        while j < game.players.len() && !blocks
            invariant
                j <= game.players@.len(),
                group_size == spec_property_count(group),
                blocks ==> blocks_opponent(game@, bot_id, group),
                !blocks ==> forall|k: int|
                    0 <= k < j ==> !(game.players@[k].id != bot_id && !game.players@[k].is_bankrupt
                        && count_in_group(game.properties@, #[trigger] game.players@[k].id, group, 40)
                        >= spec_property_count(group) - 1),
            decreases game.players@.len() - j,
        {
            let p = &game.players[j];
            if p.id != bot_id && !p.is_bankrupt {
                let their_count = Self::owned_in_group(game, p.id, group);
                if their_count >= group_size - 1 {
                    blocks = true;
                    let ghost jj = j as int;
                    assert(0 <= jj < game@.players.len() && game@.players[jj].id != bot_id
                        && !game@.players[jj].is_bankrupt && count_in_group(
                        game@.properties,
                        game@.players[jj].id,
                        group,
                        40,
                    ) >= spec_property_count(group) - 1);
                }
            }
            j = j + 1;
        }
        Some(
            MaxBidFactors {
                price: tile.price,
                would_complete_set,
                blocks_opponent: blocks,
                priority,
                balance: bot.balance,
            },
        )
    }

    /// The cities of a group, in board order
    fn group_city_tiles(group: ColorGroup) -> (r: Vec<u8>)
        ensures
            r@ == group_cities(group),
    {
        let mut r: Vec<u8> = Vec::new();
        let mut i: u8 = 0;
        while i < 40
            invariant
                i <= 40,
                r@ == board_indices().take(i as int).filter(group_city(group)),
            decreases 40 - i,
        {
            proof {
                let s = board_indices().take(i + 1);
                assert(s.drop_last() =~= board_indices().take(i as int));
                assert(s.last() == i);
                reveal_with_fuel(Seq::<_>::filter, 1);
            }
            if let Some(t) = get_tile(i) {
                let in_group = match t.group {
                    Some(g) => g == group,
                    None => false,
                };
                if in_group && t.tile_type == TileType::Property {
                    r.push(i);
                }
            }
            i = i + 1;
        }
        assert(board_indices().take(40) =~= board_indices());
        r
    }

    /// Where in a group the bot builds next, if anywhere
    fn build_target(game: &GameState, bot_id: PlayerId, balance: i32, group: ColorGroup) -> (r:
        Option<u8>)
        ensures
            r == build_target(game@, bot_id, balance, group),
    {
        let group_tiles = Self::group_city_tiles(group);
        proof {
            group_cities(group).filter_lemma(group_city(group));
            board_indices().filter_lemma(group_city(group));
        }
        // Railroads and utilities have no cities to build on
        if group_tiles.len() == 0 {
            return None;
        }
        let mut k: usize = 0;
        while k < group_tiles.len()
            invariant
                group_tiles@ == group_cities(group),
                k <= group_tiles@.len(),
                forall|m: int|
                    0 <= m < k ==> game.properties@.contains_key(#[trigger] group_tiles@[m])
                        && game.properties@[group_tiles@[m]].owner == Some(bot_id)
                        && !game.properties@[group_tiles@[m]].is_mortgaged,
            decreases group_tiles@.len() - k,
        {
            let owned = match game.properties.get(&group_tiles[k]) {
                Some(p) => p.owner == Some(bot_id) && !p.is_mortgaged,
                None => false,
            };
            if !owned {
                assert(!(game.properties@.contains_key(group_tiles@[k as int])
                    && game.properties@[group_tiles@[k as int]].owner == Some(bot_id)
                    && !game.properties@[group_tiles@[k as int]].is_mortgaged));
                return None;
            }
            k = k + 1;
        }
        let build_cost = match get_tile(group_tiles[0]) {
            Some(t) => t.build_cost,
            None => 0,
        };
        proof {
            assert(group_city(group)(group_tiles@[0]));
        }
        if balance < build_cost as i32 {
            return None;
        }
        let mut min: u8 = 0;
        let mut k: usize = 0;
        while k < group_tiles.len()
            invariant
                group_tiles@ == group_cities(group),
                1 <= group_tiles@.len(),
                k <= group_tiles@.len(),
                owns_all_unmortgaged(game.properties@, bot_id, group_tiles@),
                k >= 1 ==> min == min_houses(game.properties@, group_tiles@.take(k as int)),
            decreases group_tiles@.len() - k,
        {
            let h = match game.properties.get(&group_tiles[k]) {
                Some(p) => p.houses,
                None => 0,
            };
            proof {
                let s = group_tiles@.take(k + 1);
                assert(s.drop_last() =~= group_tiles@.take(k as int));
                assert(s.last() == group_tiles@[k as int]);
                assert(s.len() == 1 ==> s[0] == group_tiles@[k as int]);
            }
            if k == 0 || h < min {
                min = h;
            }
            k = k + 1;
        }
        assert(group_tiles@.take(group_tiles@.len() as int) =~= group_tiles@);
        if min >= 5 {
            return None;
        }
        proof {
            lemma_min_attained(game.properties@, group_tiles@);
        }
        let mut k: usize = 0;
        while k < group_tiles.len()
            invariant
                group_tiles@ == group_cities(group),
                k <= group_tiles@.len(),
                owns_all_unmortgaged(game.properties@, bot_id, group_tiles@),
                min == min_houses(game.properties@, group_tiles@),
                min < 5,
                group_tiles@.len() >= 1,
                balance >= board_tile(group_tiles@[0]).build_cost as i32,
                forall|m: int|
                    0 <= m < k ==> game.properties@[#[trigger] group_tiles@[m]].houses != min,
            decreases group_tiles@.len() - k,
        {
            if let Some(p) = game.properties.get(&group_tiles[k]) {
                if p.houses == min {
                    proof {
                        let kk = k as int;
                        assert(0 <= kk < group_tiles@.len() && game.properties@[group_tiles@[kk]].houses
                            == min && forall|m: int|
                            0 <= m < kk ==> game.properties@[group_tiles@[m]].houses != min);
                        let c = first_with_houses(game.properties@, group_tiles@, min);
                        assert(game.properties@[group_tiles@[k as int]].houses == min);
                        if c != k {
                            if c < k {
                                assert(game.properties@[group_tiles@[c]].houses != min);
                            } else {
                                assert(game.properties@[group_tiles@[k as int]].houses != min);
                            }
                        }
                    }
                    return Some(group_tiles[k]);
                }
            }
            k = k + 1;
        }
        None
    }

    /// Get properties the bot should build on
    pub fn get_build_targets(game: &GameState, bot_id: PlayerId) -> (r: Vec<u8>)
        ensures
            r@ == build_targets(game@, bot_id),
    {
        let mut targets: Vec<u8> = Vec::new();
        let bot = match game.get_player(bot_id) {
            Some(p) => p,
            None => {
                assert(targets@ =~= seq![]);
                return targets;
            },
        };
        let balance = bot.balance;
        let list = Self::get_priorities();
        let mut i: usize = 0;
        assert(targets@ =~= build_targets_over(game@, bot_id, balance, list@.take(0)));
        while i < list.len()
            invariant
                i <= list@.len(),
                list@ == priorities(),
                targets@ == build_targets_over(game@, bot_id, balance, list@.take(i as int)),
            decreases list@.len() - i,
        {
            let group = list[i].group;
            proof {
                let s = list@.take(i + 1);
                assert(s.drop_last() =~= list@.take(i as int));
                assert(s.last() == list@[i as int]);
            }
            if let Some(t) = Self::build_target(game, bot_id, balance, group) {
                targets.push(t);
            }
            i = i + 1;
        }
        assert(list@.take(list@.len() as int) =~= list@);
        targets
    }

    /// Decide whether to pay to leave jail
    pub fn should_pay_jail(game: &GameState, bot_id: PlayerId) -> (r: bool)
        ensures
            r == should_pay_jail(game@, bot_id),
    {
        let bot = match game.get_player(bot_id) {
            Some(p) => p,
            None => return false,
        };
        let mut unowned_properties: usize = 0;
        let mut total_properties: usize = 0;
        let mut k: u16 = 0;
        while k < 256
            invariant
                k <= 256,
                unowned_properties == count_keys(game.properties@, k as nat, true),
                total_properties == count_keys(game.properties@, k as nat, false),
                unowned_properties <= k,
                total_properties <= k,
            decreases 256 - k,
        {
            if let Some(p) = game.properties.get(&(k as u8)) {
                total_properties = total_properties + 1;
                if p.owner.is_none() {
                    unowned_properties = unowned_properties + 1;
                }
            }
            k = k + 1;
        }
        // Less than half of the properties owned
        let early = 2 * unowned_properties > total_properties;
        if early && bot.balance >= 50 {
            return true;
        }
        if bot.balance < 200 {
            return false;
        }
        if bot.get_out_cards > 0 {
            return false;
        }
        bot.balance >= 100
    }

    /// Calculate value of a property for trade evaluation
    pub fn calculate_property_value(game: &GameState, player_id: PlayerId, tile_idx: u8) -> (r: i32)
        ensures
            r == property_value(game@, player_id, tile_idx),
    {
        let tile = match get_tile(tile_idx) {
            Some(t) => t,
            None => return 0,
        };
        proof {
            lemma_board_facts(tile_idx);
        }
        let group = match tile.group {
            Some(g) => g,
            None => return tile.price as i32,
        };
        let base = tile.price as i32;
        let owned_in_group = Self::owned_in_group(game, player_id, group);
        let group_size = group.property_count() as usize;
        let missing = if group_size > owned_in_group {
            group_size - owned_in_group
        } else {
            0
        };
        if missing == 0 {
            base / 2
        } else if missing == 1 {
            base * 5 / 2
        } else if missing == 2 {
            base * 3 / 2
        } else {
            base
        }
    }
}

/// The fewest buildings is found on some listed tile.
pub proof fn lemma_min_attained(props: Map<u8, PropertyState>, tiles: Seq<u8>)
    requires
        tiles.len() >= 1,
    ensures
        exists|k: int| 0 <= k < tiles.len() && props[#[trigger] tiles[k]].houses == min_houses(props, tiles),
    decreases tiles.len(),
{
    if tiles.len() == 1 {
        assert(props[tiles[0]].houses == min_houses(props, tiles));
    } else {
        let rest = tiles.drop_last();
        lemma_min_attained(props, rest);
        let k = choose|k: int| 0 <= k < rest.len() && props[#[trigger] rest[k]].houses == min_houses(props, rest);
        assert(tiles[k] == rest[k]);
        let last = tiles.len() - 1;
        assert(tiles[last] == tiles.last());
    }
}

} // verus!
