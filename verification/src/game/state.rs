//! Game state types and structures

use std::collections::HashMap;
use vstd::prelude::*;

use super::board::{board_tile, TileType, ColorGroup};

verus! {

broadcast use vstd::std_specs::hash::group_hash_axioms;

/// A player's identity: the 128-bit value of its UUID.
pub type PlayerId = u128;

/// Game configuration options
#[derive(Debug, Clone, Copy)]
pub struct GameConfig {
    pub max_players: u8,
    pub starting_cash: i32,
    pub free_parking_jackpot: bool,
    pub auction_on_decline: bool,
    pub collect_rent_in_jail: bool,
    pub even_build_rule: bool,
    pub double_rent_on_full_set: bool,
}

/// The configuration a room gets when none is given.
pub open spec fn default_config() -> GameConfig {
    GameConfig {
        max_players: 4,
        starting_cash: 1500,
        free_parking_jackpot: false,
        auction_on_decline: true,
        collect_rent_in_jail: false,
        even_build_rule: true,
        double_rent_on_full_set: true,
    }
}

impl Default for GameConfig {
    fn default() -> (r: Self)
        ensures
            r == default_config(),
    {
        GameConfig {
            max_players: 4,
            starting_cash: 1500,
            free_parking_jackpot: false,
            auction_on_decline: true,
            collect_rent_in_jail: false,
            even_build_rule: true,
            double_rent_on_full_set: true,
        }
    }
}

/// Overall game phase
#[derive(Debug, Clone, Copy, PartialEq, Eq, Structural)]
pub enum GamePhase {
    /// Players in lobby, waiting to start
    Lobby,
    /// Rolling to determine play order
    RollingOrder,
    /// Main game in progress
    Playing,
    /// Game has ended
    GameOver,
}

/// Current turn phase
#[derive(Debug, Clone, Copy, PartialEq, Eq, Structural)]
pub enum TurnPhase {
    /// Waiting for player to roll
    WaitingForRoll,
    /// Dice are rolling (animation)
    Rolling,
    /// Player is moving on board
    Moving,
    /// Player must make a decision (buy/auction)
    BuyDecision,
    /// Auction in progress
    Auction,
    /// Player paying rent
    PayingRent,
    /// Player managing bankruptcy
    Bankruptcy,
    /// Turn complete, waiting for end turn
    TurnEnd,
}

/// Turn state
#[derive(Debug, Clone, Copy)]
pub struct TurnState {
    pub player_id: PlayerId,
    pub dice: Option<(u8, u8)>,
    pub doubles_count: u8,
    pub phase: TurnPhase,
    pub can_roll_again: bool,
}

/// A fresh turn for a player: nothing rolled yet.
pub open spec fn new_turn(player_id: PlayerId) -> TurnState {
    TurnState {
        player_id,
        dice: None,
        doubles_count: 0,
        phase: TurnPhase::WaitingForRoll,
        can_roll_again: false,
    }
}

/// The sum of the dice rolled this turn, 0 before a roll.
pub open spec fn spec_dice_sum(t: TurnState) -> int {
    match t.dice {
        Some((a, b)) => a + b,
        None => 0,
    }
}

/// Whether the dice rolled this turn show the same value.
pub open spec fn spec_is_doubles(t: TurnState) -> bool {
    match t.dice {
        Some((a, b)) => a == b,
        None => false,
    }
}

impl TurnState {
    pub fn new(player_id: PlayerId) -> (r: Self)
        ensures
            r == new_turn(player_id),
    {
        TurnState {
            player_id,
            dice: None,
            doubles_count: 0,
            phase: TurnPhase::WaitingForRoll,
            can_roll_again: false,
        }
    }

    pub fn dice_sum(&self) -> (r: u8)
        requires
            spec_dice_sum(*self) <= u8::MAX,
        ensures
            r == spec_dice_sum(*self),
    {
        match self.dice {
            Some((a, b)) => a + b,
            None => 0,
        }
    }

    pub fn is_doubles(&self) -> (r: bool)
        ensures
            r == spec_is_doubles(*self),
    {
        match self.dice {
            Some((a, b)) => a == b,
            None => false,
        }
    }
}

/// Player in the game
#[derive(Debug, Clone)]
pub struct Player {
    pub id: PlayerId,
    pub name: String,
    pub color: String,
    pub position: u8,
    pub balance: i32,
    pub in_jail: bool,
    pub jail_turns: u8,
    pub get_out_cards: u8,
    pub is_bot: bool,
    pub is_bankrupt: bool,
    pub is_host: bool,
}

/// A player who has just joined: on GO with $1500, out of jail.
pub open spec fn is_new_player(
    p: Player,
    id: PlayerId,
    name: Seq<char>,
    color: Seq<char>,
    is_host: bool,
    is_bot: bool,
) -> bool {
    &&& p.id == id
    &&& p.name@ == name
    &&& p.color@ == color
    &&& p.position == 0
    &&& p.balance == 1500
    &&& !p.in_jail
    &&& p.jail_turns == 0
    &&& p.get_out_cards == 0
    &&& p.is_bot == is_bot
    &&& !p.is_bankrupt
    &&& p.is_host == is_host
}

impl Player {
    pub fn new(id: PlayerId, name: String, color: String, is_host: bool, is_bot: bool) -> (r: Self)
        ensures
            is_new_player(r, id, name@, color@, is_host, is_bot),
            r.name == name,
            r.color == color,
    {
        Player {
            id,
            name,
            color,
            position: 0,
            balance: 1500,
            in_jail: false,
            jail_turns: 0,
            get_out_cards: 0,
            is_bot,
            is_bankrupt: false,
            is_host,
        }
    }
}

/// State of a property on the board
#[derive(Debug, Clone, Copy)]
pub struct PropertyState {
    pub owner: Option<PlayerId>,
    /// 0-4 = houses, 5 = hotel
    pub houses: u8,
    pub is_mortgaged: bool,
}

/// An unowned, unbuilt, unmortgaged property.
pub open spec fn empty_property() -> PropertyState {
    PropertyState { owner: None, houses: 0, is_mortgaged: false }
}

impl Default for PropertyState {
    fn default() -> (r: Self)
        ensures
            r == empty_property(),
    {
        PropertyState { owner: None, houses: 0, is_mortgaged: false }
    }
}

/// Auction state
#[derive(Debug, Clone)]
pub struct AuctionState {
    pub tile_idx: u8,
    pub current_bid: u32,
    pub highest_bidder: Option<PlayerId>,
    pub passed_players: Vec<PlayerId>,
}

pub struct AuctionView {
    pub tile_idx: u8,
    pub current_bid: u32,
    pub highest_bidder: Option<PlayerId>,
    pub passed_players: Seq<PlayerId>,
}

impl View for AuctionState {
    type V = AuctionView;

    open spec fn view(&self) -> AuctionView {
        AuctionView {
            tile_idx: self.tile_idx,
            current_bid: self.current_bid,
            highest_bidder: self.highest_bidder,
            passed_players: self.passed_players@,
        }
    }
}

/// An auction that has just opened on a tile.
pub open spec fn new_auction(tile_idx: u8) -> AuctionView {
    AuctionView { tile_idx, current_bid: 0, highest_bidder: None, passed_players: seq![] }
}

impl AuctionState {
    pub fn new(tile_idx: u8) -> (r: Self)
        ensures
            r@ == new_auction(tile_idx),
    {
        AuctionState {
            tile_idx,
            current_bid: 0,
            highest_bidder: None,
            passed_players: Vec::new(),
        }
    }
}

/// Trade offer between players
#[derive(Debug)]
pub struct TradeOffer {
    pub id: u128,
    pub from_player: PlayerId,
    pub to_player: PlayerId,
    pub offering: TradeAssets,
    pub requesting: TradeAssets,
    pub status: TradeStatus,
}

#[derive(Debug)]
pub struct TradeAssets {
    pub money: u32,
    pub properties: Vec<u8>,
    pub get_out_cards: u8,
}

pub struct AssetsView {
    pub money: u32,
    pub properties: Seq<u8>,
    pub get_out_cards: u8,
}

impl View for TradeAssets {
    type V = AssetsView;

    open spec fn view(&self) -> AssetsView {
        AssetsView {
            money: self.money,
            properties: self.properties@,
            get_out_cards: self.get_out_cards,
        }
    }
}

impl Clone for TradeAssets {
    fn clone(&self) -> (r: Self)
        ensures
            r@ == self@,
    {
        let properties = self.properties.clone();
        assert(properties@ =~= self.properties@);
        TradeAssets { money: self.money, properties, get_out_cards: self.get_out_cards }
    }
}

impl Clone for TradeOffer {
    fn clone(&self) -> (r: Self)
        ensures
            r@ == self@,
    {
        TradeOffer {
            id: self.id,
            from_player: self.from_player,
            to_player: self.to_player,
            offering: self.offering.clone(),
            requesting: self.requesting.clone(),
            status: self.status,
        }
    }
}

impl Default for TradeAssets {
    fn default() -> (r: Self)
        ensures
            r@ == (AssetsView { money: 0, properties: seq![], get_out_cards: 0 }),
    {
        TradeAssets { money: 0, properties: Vec::new(), get_out_cards: 0 }
    }
}

#[derive(Debug, Clone, Copy, PartialEq, Eq, Structural)]
pub enum TradeStatus {
    Pending,
    Accepted,
    Rejected,
    Countered,
}

pub struct OfferView {
    pub id: u128,
    pub from_player: PlayerId,
    pub to_player: PlayerId,
    pub offering: AssetsView,
    pub requesting: AssetsView,
    pub status: TradeStatus,
}

impl View for TradeOffer {
    type V = OfferView;

    open spec fn view(&self) -> OfferView {
        OfferView {
            id: self.id,
            from_player: self.from_player,
            to_player: self.to_player,
            offering: self.offering@,
            requesting: self.requesting@,
            status: self.status,
        }
    }
}

/// Complete game state
#[derive(Debug, Clone)]
pub struct GameState {
    pub id: String,
    pub phase: GamePhase,
    pub turn: Option<TurnState>,
    pub turn_order: Vec<PlayerId>,
    pub current_turn_idx: usize,
    pub players: Vec<Player>,
    pub properties: HashMap<u8, PropertyState>,
    pub auction: Option<AuctionState>,
    pub active_trade: Option<TradeOffer>,
    /// Free parking jackpot
    pub pot_money: i32,
    pub config: GameConfig,
    pub logs: Vec<String>,
}

/// The whole game as mathematical values.
#[verifier::ext_equal]
pub struct GameView {
    pub id: Seq<char>,
    pub phase: GamePhase,
    pub turn: Option<TurnState>,
    pub turn_order: Seq<PlayerId>,
    pub current_turn_idx: usize,
    pub players: Seq<Player>,
    pub properties: Map<u8, PropertyState>,
    pub auction: Option<AuctionView>,
    pub active_trade: Option<OfferView>,
    pub pot_money: i32,
    pub config: GameConfig,
    pub logs: Seq<Seq<char>>,
}

/// The text of each string.
pub open spec fn strings_view(s: Seq<String>) -> Seq<Seq<char>> {
    s.map_values(|x: String| x@)
}

pub open spec fn auction_view(a: Option<AuctionState>) -> Option<AuctionView> {
    match a {
        Some(x) => Some(x@),
        None => None,
    }
}

pub open spec fn offer_view(o: Option<TradeOffer>) -> Option<OfferView> {
    match o {
        Some(x) => Some(x@),
        None => None,
    }
}

impl View for GameState {
    type V = GameView;

    open spec fn view(&self) -> GameView {
        GameView {
            id: self.id@,
            phase: self.phase,
            turn: self.turn,
            turn_order: self.turn_order@,
            current_turn_idx: self.current_turn_idx,
            players: self.players@,
            properties: self.properties@,
            auction: auction_view(self.auction),
            active_trade: offer_view(self.active_trade),
            pot_money: self.pot_money,
            config: self.config,
            logs: strings_view(self.logs@),
        }
    }
}

/// Whether a tile can be owned: not a corner, tax, Surprise or Treasure tile.
pub open spec fn spec_is_ownable(idx: u8) -> bool {
    !(idx == 0 || idx == 2 || idx == 4 || idx == 7 || idx == 10 || idx == 17 || idx == 20 || idx
        == 22 || idx == 30 || idx == 33 || idx == 36 || idx == 38)
}

/// The property table of a new game: every ownable tile, unowned.
pub open spec fn initial_properties() -> Map<u8, PropertyState> {
    Map::new(|k: u8| k < 40 && spec_is_ownable(k), |k: u8| empty_property())
}

/// A new game in the lobby.
pub open spec fn new_game(id: Seq<char>, config: GameConfig) -> GameView {
    GameView {
        id,
        phase: GamePhase::Lobby,
        turn: None,
        turn_order: seq![],
        current_turn_idx: 0,
        players: seq![],
        properties: initial_properties(),
        auction: None,
        active_trade: None,
        pot_money: 0,
        config,
        logs: seq![],
    }
}

/// Most log entries a game keeps.
pub const MAX_LOGS: usize = 100;

/// The log after appending a message: the last 100 entries are kept.
pub open spec fn push_log(logs: Seq<Seq<char>>, message: Seq<char>) -> Seq<Seq<char>> {
    if logs.len() + 1 > 100 {
        logs.push(message).drop_first()
    } else {
        logs.push(message)
    }
}

/// The game after logging a message.
pub open spec fn log_game(g: GameView, message: Seq<char>) -> GameView {
    GameView { logs: push_log(g.logs, message), ..g }
}

/// Index of the first occurrence of `x` in `s`.
pub open spec fn first_index(s: Seq<PlayerId>, x: PlayerId) -> Option<int> {
    if exists|i: int| 0 <= i < s.len() && s[i] == x {
        Some(choose|i: int| is_first_index(s, x, i))
    } else {
        None
    }
}

/// `i` is where `x` first occurs in `s`.
pub open spec fn is_first_index(s: Seq<PlayerId>, x: PlayerId, i: int) -> bool {
    &&& 0 <= i < s.len()
    &&& s[i] == x
    &&& forall|j: int| 0 <= j < i ==> s[j] != x
}

/// The ids of a sequence of players.
pub open spec fn player_ids(ps: Seq<Player>) -> Seq<PlayerId> {
    ps.map_values(|p: Player| p.id)
}

/// Index of the first player with that id.
pub open spec fn player_index(ps: Seq<Player>, id: PlayerId) -> Option<int> {
    first_index(player_ids(ps), id)
}

/// The first occurrence is unique.
pub proof fn lemma_first_index_unique(s: Seq<PlayerId>, x: PlayerId, i: int, j: int)
    requires
        is_first_index(s, x, i),
        is_first_index(s, x, j),
    ensures
        i == j,
{
}

/// What `first_index` gives, once a first occurrence is known.
pub proof fn lemma_first_index_is(s: Seq<PlayerId>, x: PlayerId, i: int)
    requires
        is_first_index(s, x, i),
    ensures
        first_index(s, x) == Some(i),
{
    let c = choose|k: int| is_first_index(s, x, k);
    lemma_first_index_unique(s, x, c, i);
}

/// Any occurrence implies a first occurrence.
pub proof fn lemma_first_index_exists(s: Seq<PlayerId>, x: PlayerId, k: int)
    requires
        0 <= k < s.len(),
        s[k] == x,
    ensures
        exists|i: int| is_first_index(s, x, i),
    decreases k,
{
    if exists|j: int| 0 <= j < k && s[j] == x {
        let j = choose|j: int| 0 <= j < k && s[j] == x;
        lemma_first_index_exists(s, x, j);
    } else {
        assert(is_first_index(s, x, k));
    }
}

/// `first_index` is a first occurrence, or there is none.
pub proof fn lemma_first_index_spec(s: Seq<PlayerId>, x: PlayerId)
    ensures
        match first_index(s, x) {
            Some(i) => is_first_index(s, x, i),
            None => forall|j: int| 0 <= j < s.len() ==> s[j] != x,
        },
{
    if exists|i: int| 0 <= i < s.len() && s[i] == x {
        let k = choose|i: int| 0 <= i < s.len() && s[i] == x;
        lemma_first_index_exists(s, x, k);
    }
}

/// Whether an id names a player who is still in the game.
pub open spec fn is_active_id(ps: Seq<Player>, id: PlayerId) -> bool {
    match player_index(ps, id) {
        Some(i) => !ps[i].is_bankrupt,
        None => false,
    }
}

/// Where the search for the next player starts: the current player's first
/// place in the turn order; where there is no turn, or its player is not in
/// the turn order, the place of the first active player (so the turn goes to
/// the second active one), and just before the start where there is none.
pub open spec fn turn_place(g: GameView) -> int {
    let current = match g.turn {
        Some(t) => first_index(g.turn_order, t.player_id),
        None => None,
    };
    match current {
        Some(i) => i,
        None => if exists|k: int| #[trigger] is_next_step(g, -1, k) {
            (choose|k: int| #[trigger] is_next_step(g, -1, k)) - 1
        } else {
            -1
        },
    }
}

/// The player `k` places after place `s` in the turn order, going round.
pub open spec fn order_after(g: GameView, s: int, k: int) -> PlayerId {
    g.turn_order[(s + k) % (g.turn_order.len() as int)]
}

/// `k` (from 1 to the length of the turn order) is the first step after place
/// `s` that reaches a player still in the game.
pub open spec fn is_next_step(g: GameView, s: int, k: int) -> bool {
    &&& 1 <= k <= g.turn_order.len()
    &&& is_active_id(g.players, order_after(g, s, k))
    &&& forall|j: int| 1 <= j < k ==> !is_active_id(g.players, #[trigger] order_after(g, s, j))
}

/// The player whose turn follows the current one: the first player still in
/// the game after the current player's place in the turn order, going round
/// (the current player itself when no one else is left).
pub open spec fn spec_next_player(g: GameView) -> Option<PlayerId> {
    let s = turn_place(g);
    if exists|k: int| is_next_step(g, s, k) {
        Some(order_after(g, s, choose|k: int| is_next_step(g, s, k)))
    } else {
        None
    }
}

/// The first step reaching a player still in the game is unique.
pub proof fn lemma_next_step_unique(g: GameView, s: int, k: int, m: int)
    requires
        is_next_step(g, s, k),
        is_next_step(g, s, m),
    ensures
        k == m,
{
    if k < m {
        assert(!is_active_id(g.players, order_after(g, s, k)));
    } else if m < k {
        assert(!is_active_id(g.players, order_after(g, s, m)));
    }
}

/// Whether a player is not bankrupt.
pub open spec fn not_bankrupt() -> spec_fn(Player) -> bool {
    |p: Player| !p.is_bankrupt
}

/// Number of players who are not bankrupt.
pub open spec fn spec_active_count(ps: Seq<Player>) -> nat {
    ps.filter(not_bankrupt()).len()
}


/// Check if a tile can be owned
pub fn is_ownable_tile(idx: u8) -> (r: bool)
    ensures
        r == spec_is_ownable(idx),
{
    // Corners: 0 (GO), 10 (Jail), 20 (Free Parking), 30 (Go to Jail)
    // Tax: 4 (Income Tax), 38 (Luxury Tax)
    // Chance: 7, 22, 36
    // Community Chest: 2, 17, 33
    !(idx == 0 || idx == 2 || idx == 4 || idx == 7 || idx == 10 || idx == 17 || idx == 20 || idx
        == 22 || idx == 30 || idx == 33 || idx == 36 || idx == 38)
}

/// Index of the first occurrence of `x` in `v`
pub fn index_of(v: &Vec<PlayerId>, x: PlayerId) -> (r: Option<usize>)
    ensures
        match r {
            Some(i) => first_index(v@, x) == Some(i as int) && i < v@.len() && is_first_index(
                v@,
                x,
                i as int,
            ),
            None => first_index(v@, x) is None,
        },
{
    let mut i: usize = 0;
    while i < v.len()
        invariant
            i <= v@.len(),
            forall|j: int| 0 <= j < i ==> v@[j] != x,
        decreases v@.len() - i,
    {
        if v[i] == x {
            proof {
                lemma_first_index_is(v@, x, i as int);
            }
            return Some(i);
        }
        i = i + 1;
    }
    proof {
        lemma_first_index_spec(v@, x);
    }
    None
}

impl GameState {
    pub fn new(id: String, config: GameConfig) -> (r: Self)
        ensures
            r@ == new_game(id@, config),
    {
        // Initialize property states for ownable tiles
        let mut properties: HashMap<u8, PropertyState> = HashMap::new();
        let mut idx: u8 = 0;
        while idx < 40
            invariant
                idx <= 40,
                properties@ == Map::new(
                    |k: u8| k < idx && spec_is_ownable(k),
                    |k: u8| empty_property(),
                ),
            decreases 40 - idx,
        {
            if is_ownable_tile(idx) {
                properties.insert(idx, PropertyState::default());
            }
            assert(properties@ =~= Map::new(
                |k: u8| k < idx + 1 && spec_is_ownable(k),
                |k: u8| empty_property(),
            ));
            idx = idx + 1;
        }
        assert(properties@ =~= initial_properties());
        let r = GameState {
            id,
            phase: GamePhase::Lobby,
            turn: None,
            turn_order: Vec::new(),
            current_turn_idx: 0,
            players: Vec::new(),
            properties,
            auction: None,
            active_trade: None,
            pot_money: 0,
            config,
            logs: Vec::new(),
        };
        assert(r@.logs =~= seq![]);
        r
    }

    /// Index of the first player with this id
    pub fn player_position(&self, id: PlayerId) -> (r: Option<usize>)
        ensures
            match r {
                Some(i) => player_index(self.players@, id) == Some(i as int) && i
                    < self.players@.len() && is_first_index(player_ids(self.players@), id, i as int),
                None => player_index(self.players@, id) is None,
            },
    {
        let mut i: usize = 0;
        while i < self.players.len()
            invariant
                i <= self.players@.len(),
                forall|j: int| 0 <= j < i ==> self.players@[j].id != id,
            decreases self.players@.len() - i,
        {
            if self.players[i].id == id {
                proof {
                    assert(is_first_index(player_ids(self.players@), id, i as int));
                    lemma_first_index_is(player_ids(self.players@), id, i as int);
                }
                return Some(i);
            }
            i = i + 1;
        }
        proof {
            lemma_first_index_spec(player_ids(self.players@), id);
            if let Some(k) = player_index(self.players@, id) {
                assert(player_ids(self.players@)[k] == self.players@[k].id);
            }
        }
        None
    }

    /// Get player by ID
    pub fn get_player(&self, id: PlayerId) -> (r: Option<&Player>)
        ensures
            match player_index(self.players@, id) {
                Some(i) => r matches Some(p) && *p == self.players@[i],
                None => r is None,
            },
    {
        match self.player_position(id) {
            Some(i) => Some(&self.players[i]),
            None => None,
        }
    }

    /// Get mutable player by ID
    pub fn get_player_mut(&mut self, id: PlayerId) -> (r: Option<&mut Player>)
        ensures
            match player_index(old(self).players@, id) {
                Some(i) => r matches Some(p) && *p == old(self).players@[i] && final(self)@ == (
                GameView { players: old(self)@.players.update(i, *final(p)), ..old(self)@ }),
                None => r is None && final(self)@ == old(self)@,
            },
    {
        match self.player_position(id) {
            Some(i) => Some(&mut self.players[i]),
            None => None,
        }
    }

    /// Get current player
    pub fn current_player(&self) -> (r: Option<&Player>)
        ensures
            match self.turn {
                Some(t) => match player_index(self.players@, t.player_id) {
                    Some(i) => r matches Some(p) && *p == self.players@[i],
                    None => r is None,
                },
                None => r is None,
            },
    {
        match &self.turn {
            Some(t) => self.get_player(t.player_id),
            None => None,
        }
    }

    /// Whether the player with this id is in the game and not bankrupt
    fn is_active(&self, id: PlayerId) -> (r: bool)
        ensures
            r == is_active_id(self.players@, id),
    {
        match self.get_player(id) {
            Some(p) => !p.is_bankrupt,
            None => false,
        }
    }

    /// Place of the first active player in the turn order
    fn first_active_place(&self) -> (r: Option<usize>)
        ensures
            match r {
                Some(f) => f < self.turn_order@.len() && is_next_step(self@, -1, f + 1),
                None => !exists|k: int| #[trigger] is_next_step(self@, -1, k),
            },
    {
        let n = self.turn_order.len();
        let mut i: usize = 0;
        while i < n
            invariant
                n == self.turn_order@.len(),
                i <= n,
                forall|j: int| 1 <= j <= i ==> !is_active_id(self@.players, #[trigger] order_after(self@, -1, j)),
            decreases n - i,
        {
            proof {
                vstd::arithmetic::div_mod::lemma_small_mod(i as nat, n as nat);
            }
            assert(self.turn_order@[i as int] == order_after(self@, -1, i + 1));
            if self.is_active(self.turn_order[i]) {
                return Some(i);
            }
            i = i + 1;
        }
        proof {
            if exists|k: int| #[trigger] is_next_step(self@, -1, k) {
                let c = choose|c: int| #[trigger] is_next_step(self@, -1, c);
                assert(!is_active_id(self@.players, order_after(self@, -1, c)));
            }
        }
        None
    }

    /// Get next active player ID: the first player still in the game after
    /// the current player's place in the turn order, going round (after the
    /// first active player, where there is no current place)
    pub fn next_player_id(&self) -> (r: Option<PlayerId>)
        ensures
            r == spec_next_player(self@),
    {
        let n = self.turn_order.len();
        let current: Option<usize> = match &self.turn {
            Some(t) => index_of(&self.turn_order, t.player_id),
            None => None,
        };
        let place: usize = match current {
            Some(p) => p,
            None => match self.first_active_place() {
                Some(f) => {
                    proof {
                        let c = choose|c: int| #[trigger] is_next_step(self@, -1, c);
                        lemma_next_step_unique(self@, -1, f + 1, c);
                    }
                    f
                },
                None => {
                    proof {
                        assert(turn_place(self@) == -1);
                    }
                    return None;
                },
            },
        };
        let ghost s = turn_place(self@);
        assert(s == place && place < n);
        let mut i: usize = 0;
        while i < n
            invariant
                n == self.turn_order@.len(),
                i <= n,
                s == turn_place(self@),
                s == place && place < n,
                forall|j: int| 1 <= j <= i ==> !is_active_id(self@.players, #[trigger] order_after(self@, s, j)),
            decreases n - i,
        {
            let k: usize = i + 1;
            let pos: usize = if k < n - place {
                place + k
            } else {
                k - (n - place)
            };
            proof {
                let ni = n as int;
                let x = s + k;
                if 0 <= x < ni {
                    vstd::arithmetic::div_mod::lemma_small_mod(x as nat, ni as nat);
                } else {
                    vstd::arithmetic::div_mod::lemma_small_mod((x - ni) as nat, ni as nat);
                    vstd::arithmetic::div_mod::lemma_mod_add_multiples_vanish(x - ni, ni);
                }
                assert(pos as int == x % ni);
            }
            let id = self.turn_order[pos];
            assert(id == order_after(self@, s, k as int));
            if self.is_active(id) {
                proof {
                    assert(is_next_step(self@, s, k as int));
                    let c = choose|c: int| is_next_step(self@, s, c);
                    lemma_next_step_unique(self@, s, k as int, c);
                }
                return Some(id);
            }
            i = i + 1;
        }
        proof {
            if exists|k: int| is_next_step(self@, s, k) {
                let c = choose|c: int| is_next_step(self@, s, c);
                assert(!is_active_id(self@.players, order_after(self@, s, c)));
            }
        }
        None
    }

    /// Count active (non-bankrupt) players
    pub fn active_player_count(&self) -> (r: usize)
        ensures
            r == spec_active_count(self.players@),
    {
        let mut count: usize = 0;
        let mut i: usize = 0;
        while i < self.players.len()
            invariant
                i <= self.players@.len(),
                count == self.players@.take(i as int).filter(not_bankrupt()).len(),
                count <= i,
            decreases self.players@.len() - i,
        {
            proof {
                let s = self.players@.take(i + 1);
                assert(s.drop_last() =~= self.players@.take(i as int));
                reveal_with_fuel(Seq::<_>::filter, 1);
            }
            if !self.players[i].is_bankrupt {
                count = count + 1;
            }
            i = i + 1;
        }
        assert(self.players@.take(self.players@.len() as int) =~= self.players@);
        count
    }

    /// Add log entry
    pub fn log(&mut self, message: String)
        ensures
            final(self)@ == log_game(old(self)@, message@),
    {
        self.logs.push(message);
        assert(strings_view(self.logs@) =~= strings_view(old(self).logs@).push(message@));
        // Keep last 100 logs
        if self.logs.len() > MAX_LOGS {
            self.logs.remove(0);
            assert(strings_view(self.logs@) =~= strings_view(old(self).logs@).push(
                message@,
            ).drop_first());
        }
    }
}

} // verus!
