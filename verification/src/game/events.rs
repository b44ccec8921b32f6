//! Client and Server events for WebSocket communication

use vstd::prelude::*;

use super::state::{GameState, GameView, OfferView, PlayerId, TradeOffer};
use crate::error::AppError;

verus! {

/// Events sent from client to server
#[derive(Debug, Clone)]
pub enum ClientEvent {
    /// Roll the dice
    RollDice,
    /// Buy the property we landed on
    BuyProperty,
    /// Pass on buying, trigger auction
    PassProperty,
    /// End current turn
    EndTurn,
    /// Place a bid in auction
    Bid { amount: u32 },
    /// Pass on bidding
    PassBid,
    /// Pay to get out of jail
    PayJail,
    /// Use get out of jail free card
    UseCard,
    /// Build a house/hotel on property
    Build { tile_idx: u8 },
    /// Sell a house/hotel from property
    SellBuilding { tile_idx: u8 },
    /// Mortgage a property
    Mortgage { tile_idx: u8 },
    /// Unmortgage a property
    Unmortgage { tile_idx: u8 },
    /// Create a trade offer
    TradeOffer { offer: TradeOffer },
    /// Accept a trade
    TradeAccept { trade_id: u128 },
    /// Reject a trade
    TradeReject { trade_id: u128 },
    /// Counter a trade with new terms
    TradeCounter { trade_id: u128, offer: TradeOffer },
    /// Send chat message
    Chat { message: String },
}

/// Events sent from server to clients
#[derive(Debug)]
pub enum ServerEvent {
    /// Full game state update
    GameState(GameState),
    /// Dice roll result
    DiceResult { player_id: PlayerId, dice: (u8, u8), is_doubles: bool },
    /// Player moved on board
    PlayerMoved { player_id: PlayerId, from: u8, to: u8, passed_go: bool },
    /// Property was purchased
    PropertyBought { tile_idx: u8, player_id: PlayerId, price: u32 },
    /// Rent was paid
    RentPaid { from: PlayerId, to: PlayerId, amount: u32, tile_idx: u8 },
    /// Auction started
    AuctionStart { tile_idx: u8, starting_price: u32 },
    /// New bid in auction
    BidPlaced { player_id: PlayerId, amount: u32 },
    /// Player passed on auction
    BidPassed { player_id: PlayerId },
    /// Auction ended
    AuctionEnd { tile_idx: u8, winner: Option<PlayerId>, amount: u32 },
    /// Card drawn
    CardDrawn { player_id: PlayerId, card_type: String, description: String },
    /// Player sent to jail
    PlayerJailed { player_id: PlayerId },
    /// Player freed from jail ("dice", "paid", "card")
    PlayerFreed { player_id: PlayerId, method: String },
    /// Player went bankrupt
    Bankruptcy { player_id: PlayerId, creditor: Option<PlayerId> },
    /// Game ended
    GameOver { winner: PlayerId },
    /// Trade proposed
    TradeProposed { trade: TradeOffer },
    /// Trade resolved
    TradeResolved { trade_id: u128, accepted: bool },
    /// Building constructed
    BuildingBuilt { tile_idx: u8, player_id: PlayerId, houses: u8 },
    /// Building sold
    BuildingSold { tile_idx: u8, player_id: PlayerId, houses: u8 },
    /// Property mortgaged
    PropertyMortgaged { tile_idx: u8, player_id: PlayerId },
    /// Property unmortgaged
    PropertyUnmortgaged { tile_idx: u8, player_id: PlayerId },
    /// Chat message
    Chat { from: PlayerId, from_name: String, message: String },
    /// Log message
    Log { message: String },
    /// Error message (sent to specific player)
    Error { message: String },
    /// Turn changed
    TurnChanged { player_id: PlayerId },
}

/// A server event as mathematical values.
pub enum EventView {
    GameState(GameView),
    DiceResult { player_id: PlayerId, dice: (u8, u8), is_doubles: bool },
    PlayerMoved { player_id: PlayerId, from: u8, to: u8, passed_go: bool },
    PropertyBought { tile_idx: u8, player_id: PlayerId, price: u32 },
    RentPaid { from: PlayerId, to: PlayerId, amount: u32, tile_idx: u8 },
    AuctionStart { tile_idx: u8, starting_price: u32 },
    BidPlaced { player_id: PlayerId, amount: u32 },
    BidPassed { player_id: PlayerId },
    AuctionEnd { tile_idx: u8, winner: Option<PlayerId>, amount: u32 },
    CardDrawn { player_id: PlayerId, card_type: Seq<char>, description: Seq<char> },
    PlayerJailed { player_id: PlayerId },
    PlayerFreed { player_id: PlayerId, method: Seq<char> },
    Bankruptcy { player_id: PlayerId, creditor: Option<PlayerId> },
    GameOver { winner: PlayerId },
    TradeProposed { trade: OfferView },
    TradeResolved { trade_id: u128, accepted: bool },
    BuildingBuilt { tile_idx: u8, player_id: PlayerId, houses: u8 },
    BuildingSold { tile_idx: u8, player_id: PlayerId, houses: u8 },
    PropertyMortgaged { tile_idx: u8, player_id: PlayerId },
    PropertyUnmortgaged { tile_idx: u8, player_id: PlayerId },
    Chat { from: PlayerId, from_name: Seq<char>, message: Seq<char> },
    Log { message: Seq<char> },
    Error { message: Seq<char> },
    TurnChanged { player_id: PlayerId },
}

impl View for ServerEvent {
    type V = EventView;

    open spec fn view(&self) -> EventView {
        match self {
            ServerEvent::GameState(g) => EventView::GameState(g@),
            ServerEvent::DiceResult { player_id, dice, is_doubles } => EventView::DiceResult {
                player_id: *player_id,
                dice: *dice,
                is_doubles: *is_doubles,
            },
            ServerEvent::PlayerMoved { player_id, from, to, passed_go } => EventView::PlayerMoved {
                player_id: *player_id,
                from: *from,
                to: *to,
                passed_go: *passed_go,
            },
            ServerEvent::PropertyBought { tile_idx, player_id, price } => EventView::PropertyBought {
                tile_idx: *tile_idx,
                player_id: *player_id,
                price: *price,
            },
            ServerEvent::RentPaid { from, to, amount, tile_idx } => EventView::RentPaid {
                from: *from,
                to: *to,
                amount: *amount,
                tile_idx: *tile_idx,
            },
            ServerEvent::AuctionStart { tile_idx, starting_price } => EventView::AuctionStart {
                tile_idx: *tile_idx,
                starting_price: *starting_price,
            },
            ServerEvent::BidPlaced { player_id, amount } => EventView::BidPlaced {
                player_id: *player_id,
                amount: *amount,
            },
            ServerEvent::BidPassed { player_id } => EventView::BidPassed { player_id: *player_id },
            ServerEvent::AuctionEnd { tile_idx, winner, amount } => EventView::AuctionEnd {
                tile_idx: *tile_idx,
                winner: *winner,
                amount: *amount,
            },
            ServerEvent::CardDrawn { player_id, card_type, description } => EventView::CardDrawn {
                player_id: *player_id,
                card_type: card_type@,
                description: description@,
            },
            ServerEvent::PlayerJailed { player_id } => EventView::PlayerJailed {
                player_id: *player_id,
            },
            ServerEvent::PlayerFreed { player_id, method } => EventView::PlayerFreed {
                player_id: *player_id,
                method: method@,
            },
            ServerEvent::Bankruptcy { player_id, creditor } => EventView::Bankruptcy {
                player_id: *player_id,
                creditor: *creditor,
            },
            ServerEvent::GameOver { winner } => EventView::GameOver { winner: *winner },
            ServerEvent::TradeProposed { trade } => EventView::TradeProposed { trade: trade@ },
            ServerEvent::TradeResolved { trade_id, accepted } => EventView::TradeResolved {
                trade_id: *trade_id,
                accepted: *accepted,
            },
            ServerEvent::BuildingBuilt { tile_idx, player_id, houses } => EventView::BuildingBuilt {
                tile_idx: *tile_idx,
                player_id: *player_id,
                houses: *houses,
            },
            ServerEvent::BuildingSold { tile_idx, player_id, houses } => EventView::BuildingSold {
                tile_idx: *tile_idx,
                player_id: *player_id,
                houses: *houses,
            },
            ServerEvent::PropertyMortgaged { tile_idx, player_id } =>
                EventView::PropertyMortgaged { tile_idx: *tile_idx, player_id: *player_id },
            ServerEvent::PropertyUnmortgaged { tile_idx, player_id } =>
                EventView::PropertyUnmortgaged { tile_idx: *tile_idx, player_id: *player_id },
            ServerEvent::Chat { from, from_name, message } => EventView::Chat {
                from: *from,
                from_name: from_name@,
                message: message@,
            },
            ServerEvent::Log { message } => EventView::Log { message: message@ },
            ServerEvent::Error { message } => EventView::Error { message: message@ },
            ServerEvent::TurnChanged { player_id } => EventView::TurnChanged {
                player_id: *player_id,
            },
        }
    }
}

/// What an operation asks to be sent to the room: events in order, then,
/// where `broadcast_state` is set, the whole game state.
#[derive(Debug)]
pub struct Outcome {
    pub events: Vec<ServerEvent>,
    pub broadcast_state: bool,
}

pub struct OutcomeView {
    pub events: Seq<EventView>,
    pub broadcast_state: bool,
}

/// The views of a sequence of events.
pub open spec fn events_view(s: Seq<ServerEvent>) -> Seq<EventView> {
    s.map_values(|e: ServerEvent| e@)
}

impl View for Outcome {
    type V = OutcomeView;

    open spec fn view(&self) -> OutcomeView {
        OutcomeView { events: events_view(self.events@), broadcast_state: self.broadcast_state }
    }
}

/// A refused action, and the events due to the room all the same (the dice of
/// a roll that was cast before the roll was refused).
#[derive(Debug)]
pub struct Refusal {
    pub error: AppError,
    pub events: Vec<ServerEvent>,
}

impl Refusal {
    /// A refusal with nothing to tell the room
    pub fn quiet(error: AppError) -> (r: Refusal)
        ensures
            r.error == error,
            r.events@.len() == 0,
            events_view(r.events@) == Seq::<EventView>::empty(),
    {
        let r = Refusal { error, events: Vec::new() };
        assert(events_view(r.events@) =~= Seq::<EventView>::empty());
        r
    }
}

impl Clone for ServerEvent {
    /// A copy of the event; the game state and trade offers it carries are cloned field by field.
    fn clone(&self) -> (r: Self)
        ensures
            !(self is GameState) && !(self is TradeProposed) ==> r@ == self@,
    {
        match self {
            ServerEvent::GameState(g) => ServerEvent::GameState(g.clone()),
            ServerEvent::DiceResult { player_id, dice, is_doubles } => ServerEvent::DiceResult {
                player_id: *player_id,
                dice: *dice,
                is_doubles: *is_doubles,
            },
            ServerEvent::PlayerMoved { player_id, from, to, passed_go } =>
                ServerEvent::PlayerMoved {
                    player_id: *player_id,
                    from: *from,
                    to: *to,
                    passed_go: *passed_go,
                },
            ServerEvent::PropertyBought { tile_idx, player_id, price } =>
                ServerEvent::PropertyBought {
                    tile_idx: *tile_idx,
                    player_id: *player_id,
                    price: *price,
                },
            ServerEvent::RentPaid { from, to, amount, tile_idx } => ServerEvent::RentPaid {
                from: *from,
                to: *to,
                amount: *amount,
                tile_idx: *tile_idx,
            },
            ServerEvent::AuctionStart { tile_idx, starting_price } => ServerEvent::AuctionStart {
                tile_idx: *tile_idx,
                starting_price: *starting_price,
            },
            ServerEvent::BidPlaced { player_id, amount } => ServerEvent::BidPlaced {
                player_id: *player_id,
                amount: *amount,
            },
            ServerEvent::BidPassed { player_id } => ServerEvent::BidPassed {
                player_id: *player_id,
            },
            ServerEvent::AuctionEnd { tile_idx, winner, amount } => ServerEvent::AuctionEnd {
                tile_idx: *tile_idx,
                winner: *winner,
                amount: *amount,
            },
            ServerEvent::CardDrawn { player_id, card_type, description } =>
                ServerEvent::CardDrawn {
                    player_id: *player_id,
                    card_type: card_type.clone(),
                    description: description.clone(),
                },
            ServerEvent::PlayerJailed { player_id } => ServerEvent::PlayerJailed {
                player_id: *player_id,
            },
            ServerEvent::PlayerFreed { player_id, method } => ServerEvent::PlayerFreed {
                player_id: *player_id,
                method: method.clone(),
            },
            ServerEvent::Bankruptcy { player_id, creditor } => ServerEvent::Bankruptcy {
                player_id: *player_id,
                creditor: *creditor,
            },
            ServerEvent::GameOver { winner } => ServerEvent::GameOver { winner: *winner },
            ServerEvent::TradeProposed { trade } => ServerEvent::TradeProposed {
                trade: trade.clone(),
            },
            ServerEvent::TradeResolved { trade_id, accepted } => ServerEvent::TradeResolved {
                trade_id: *trade_id,
                accepted: *accepted,
            },
            ServerEvent::BuildingBuilt { tile_idx, player_id, houses } =>
                ServerEvent::BuildingBuilt {
                    tile_idx: *tile_idx,
                    player_id: *player_id,
                    houses: *houses,
                },
            ServerEvent::BuildingSold { tile_idx, player_id, houses } =>
                ServerEvent::BuildingSold {
                    tile_idx: *tile_idx,
                    player_id: *player_id,
                    houses: *houses,
                },
            ServerEvent::PropertyMortgaged { tile_idx, player_id } =>
                ServerEvent::PropertyMortgaged { tile_idx: *tile_idx, player_id: *player_id },
            ServerEvent::PropertyUnmortgaged { tile_idx, player_id } =>
                ServerEvent::PropertyUnmortgaged { tile_idx: *tile_idx, player_id: *player_id },
            ServerEvent::Chat { from, from_name, message } => ServerEvent::Chat {
                from: *from,
                from_name: from_name.clone(),
                message: message.clone(),
            },
            ServerEvent::Log { message } => ServerEvent::Log { message: message.clone() },
            ServerEvent::Error { message } => ServerEvent::Error { message: message.clone() },
            ServerEvent::TurnChanged { player_id } => ServerEvent::TurnChanged {
                player_id: *player_id,
            },
        }
    }
}

} // verus!
