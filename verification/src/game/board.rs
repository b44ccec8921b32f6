//! The forty tiles of the board, themed on world cities.

use vstd::prelude::*;
use vstd::string::*;

verus! {

/// Type of tile on the board
#[derive(Debug, Clone, Copy, PartialEq, Eq, Structural)]
pub enum TileType {
    Go,
    Property,
    Railroad,
    Utility,
    Chance,
    CommunityChest,
    Tax,
    FreeParking,
    Jail,
    GoToJail,
}

/// Color group for properties
#[derive(Debug, Clone, Copy, PartialEq, Eq, Structural, Hash)]
pub enum ColorGroup {
    Brown,
    LightBlue,
    Pink,
    Orange,
    Red,
    Yellow,
    Green,
    DarkBlue,
    Railroad,
    Utility,
}

/// The hex color code shown for a group.
pub open spec fn spec_color_hex(g: ColorGroup) -> Seq<char> {
    match g {
        ColorGroup::Brown => "#8B4513"@,
        ColorGroup::LightBlue => "#87CEEB"@,
        ColorGroup::Pink => "#FF69B4"@,
        ColorGroup::Orange => "#FFA500"@,
        ColorGroup::Red => "#FF0000"@,
        ColorGroup::Yellow => "#FFD700"@,
        ColorGroup::Green => "#228B22"@,
        ColorGroup::DarkBlue => "#00008B"@,
        ColorGroup::Railroad => "#333333"@,
        ColorGroup::Utility => "#CCCCCC"@,
    }
}

/// The number of tiles of a group.
pub open spec fn spec_property_count(g: ColorGroup) -> u8 {
    match g {
        ColorGroup::Brown | ColorGroup::DarkBlue => 2,
        ColorGroup::Railroad => 4,
        ColorGroup::Utility => 2,
        _ => 3,
    }
}

impl ColorGroup {
    pub fn color_hex(&self) -> (r: &'static str)
        ensures
            r@ == spec_color_hex(*self),
    {
        match self {
            ColorGroup::Brown => "#8B4513",
            ColorGroup::LightBlue => "#87CEEB",
            ColorGroup::Pink => "#FF69B4",
            ColorGroup::Orange => "#FFA500",
            ColorGroup::Red => "#FF0000",
            ColorGroup::Yellow => "#FFD700",
            ColorGroup::Green => "#228B22",
            ColorGroup::DarkBlue => "#00008B",
            ColorGroup::Railroad => "#333333",
            ColorGroup::Utility => "#CCCCCC",
        }
    }

    pub fn property_count(&self) -> (r: u8)
        ensures
            r == spec_property_count(*self),
    {
        match self {
            ColorGroup::Brown | ColorGroup::DarkBlue => 2,
            ColorGroup::Railroad => 4,
            ColorGroup::Utility => 2,
            _ => 3,
        }
    }
}

/// A tile on the board
#[derive(Debug, Clone)]
pub struct Tile {
    pub index: u8,
    pub name: String,
    pub tile_type: TileType,
    pub group: Option<ColorGroup>,
    pub price: u32,
    pub rent_base: u32,
    /// Rent with 1, 2, 3, 4 houses and a hotel (railroads: by count owned; utilities: multipliers)
    pub rent_schedule: Vec<u32>,
    pub mortgage_value: u32,
    pub build_cost: u32,
    /// ISO country code for the flag
    pub country_code: Option<String>,
}

/// What a tile holds, as mathematical values.
pub struct TileView {
    pub index: u8,
    pub name: Seq<char>,
    pub tile_type: TileType,
    pub group: Option<ColorGroup>,
    pub price: u32,
    pub rent_base: u32,
    pub rent_schedule: Seq<u32>,
    pub mortgage_value: u32,
    pub build_cost: u32,
    pub country_code: Option<Seq<char>>,
}

impl View for Tile {
    type V = TileView;

    open spec fn view(&self) -> TileView {
        TileView {
            index: self.index,
            name: self.name@,
            tile_type: self.tile_type,
            group: self.group,
            price: self.price,
            rent_base: self.rent_base,
            rent_schedule: self.rent_schedule@,
            mortgage_value: self.mortgage_value,
            build_cost: self.build_cost,
            country_code: match self.country_code {
                Some(c) => Some(c@),
                None => None,
            },
        }
    }
}

/// A tile without price, rent or group (corners, cards, ...).
pub open spec fn plain_tile(index: u8, name: Seq<char>, tile_type: TileType) -> TileView {
    TileView {
        index,
        name,
        tile_type,
        group: None,
        price: 0,
        rent_base: 0,
        rent_schedule: seq![],
        mortgage_value: 0,
        build_cost: 0,
        country_code: None,
    }
}

/// A city that can be built on; it mortgages for half its price.
pub open spec fn property_tile(
    index: u8,
    name: Seq<char>,
    group: ColorGroup,
    price: u32,
    rent_base: u32,
    rent_schedule: Seq<u32>,
    build_cost: u32,
    country_code: Seq<char>,
) -> TileView {
    TileView {
        index,
        name,
        tile_type: TileType::Property,
        group: Some(group),
        price,
        rent_base,
        rent_schedule,
        mortgage_value: (price / 2) as u32,
        build_cost,
        country_code: Some(country_code),
    }
}

/// An airport: price 200, rent 25/50/100/200 by the number owned.
pub open spec fn railroad_tile(index: u8, name: Seq<char>, country_code: Seq<char>) -> TileView {
    TileView {
        index,
        name,
        tile_type: TileType::Railroad,
        group: Some(ColorGroup::Railroad),
        price: 200,
        rent_base: 25,
        rent_schedule: seq![25, 50, 100, 200],
        mortgage_value: 100,
        build_cost: 0,
        country_code: Some(country_code),
    }
}

/// A utility: price 150, rent 4x or 10x the dice.
pub open spec fn utility_tile(index: u8, name: Seq<char>) -> TileView {
    TileView {
        index,
        name,
        tile_type: TileType::Utility,
        group: Some(ColorGroup::Utility),
        price: 150,
        rent_base: 4,
        rent_schedule: seq![4, 10],
        mortgage_value: 75,
        build_cost: 0,
        country_code: None,
    }
}

/// A tax tile; the amount is its base rent.
pub open spec fn tax_tile(index: u8, name: Seq<char>, amount: u32) -> TileView {
    TileView { rent_base: amount, ..plain_tile(index, name, TileType::Tax) }
}

/// The board, tile by tile.
pub open spec fn board_tile(i: u8) -> TileView {
    match i {
        0 => plain_tile(0, "START"@, TileType::Go),
        1 => property_tile(1, "Salvador"@, ColorGroup::Brown, 60, 2, seq![10, 30, 90, 160, 250], 50, "BR"@),
        2 => plain_tile(2, "Treasure"@, TileType::CommunityChest),
        3 => property_tile(3, "Rio"@, ColorGroup::Brown, 60, 4, seq![20, 60, 180, 320, 450], 50, "BR"@),
        4 => tax_tile(4, "Income Tax 10%"@, 200),
        5 => railroad_tile(5, "TLV Airport"@, "IL"@),
        6 => property_tile(6, "Tel Aviv"@, ColorGroup::LightBlue, 100, 6, seq![30, 90, 270, 400, 550], 50, "IL"@),
        7 => plain_tile(7, "Surprise"@, TileType::Chance),
        8 => property_tile(8, "Haifa"@, ColorGroup::LightBlue, 100, 6, seq![30, 90, 270, 400, 550], 50, "IL"@),
        9 => property_tile(9, "Jerusalem"@, ColorGroup::LightBlue, 120, 8, seq![40, 100, 300, 450, 600], 50, "IL"@),
        10 => plain_tile(10, "In Prison"@, TileType::Jail),
        11 => property_tile(11, "Venice"@, ColorGroup::Pink, 140, 10, seq![50, 150, 450, 625, 750], 100, "IT"@),
        12 => utility_tile(12, "Electric Company"@),
        13 => property_tile(13, "Milan"@, ColorGroup::Pink, 140, 10, seq![50, 150, 450, 625, 750], 100, "IT"@),
        14 => property_tile(14, "Rome"@, ColorGroup::Pink, 160, 12, seq![60, 180, 500, 700, 900], 100, "IT"@),
        15 => railroad_tile(15, "MUC Airport"@, "DE"@),
        16 => property_tile(16, "Frankfurt"@, ColorGroup::Orange, 180, 14, seq![70, 200, 550, 750, 950], 100, "DE"@),
        17 => plain_tile(17, "Treasure"@, TileType::CommunityChest),
        18 => property_tile(18, "Treasure"@, ColorGroup::Orange, 180, 14, seq![70, 200, 550, 750, 950], 100, "DE"@),
        19 => property_tile(19, "Munich"@, ColorGroup::Orange, 200, 16, seq![80, 220, 600, 800, 1000], 100, "DE"@),
        20 => plain_tile(20, "Vacation"@, TileType::FreeParking),
        21 => property_tile(21, "Berlin"@, ColorGroup::Red, 220, 18, seq![90, 250, 700, 875, 1050], 150, "DE"@),
        22 => plain_tile(22, "Surprise"@, TileType::Chance),
        23 => property_tile(23, "Manchester"@, ColorGroup::Red, 220, 18, seq![90, 250, 700, 875, 1050], 150, "GB"@),
        24 => property_tile(24, "Liverpool"@, ColorGroup::Red, 240, 20, seq![100, 300, 750, 925, 1100], 150, "GB"@),
        25 => railroad_tile(25, "JFK Airport"@, "US"@),
        26 => property_tile(26, "Paris"@, ColorGroup::Yellow, 260, 22, seq![110, 330, 800, 975, 1150], 150, "FR"@),
        27 => property_tile(27, "Toulouse"@, ColorGroup::Yellow, 260, 22, seq![110, 330, 800, 975, 1150], 150, "FR"@),
        28 => utility_tile(28, "Water Company"@),
        29 => property_tile(29, "Lyon"@, ColorGroup::Yellow, 280, 24, seq![120, 360, 850, 1025, 1200], 150, "FR"@),
        30 => plain_tile(30, "Go to prison"@, TileType::GoToJail),
        31 => property_tile(31, "CDG Airport"@, ColorGroup::Green, 300, 26, seq![130, 390, 900, 1100, 1275], 200, "FR"@),
        32 => property_tile(32, "Shanghai"@, ColorGroup::Green, 300, 26, seq![130, 390, 900, 1100, 1275], 200, "CN"@),
        33 => plain_tile(33, "Treasure"@, TileType::CommunityChest),
        34 => property_tile(34, "Beijing"@, ColorGroup::Green, 320, 28, seq![150, 450, 1000, 1200, 1400], 200, "CN"@),
        35 => railroad_tile(35, "Shenzhen"@, "CN"@),
        36 => plain_tile(36, "Surprise"@, TileType::Chance),
        37 => property_tile(37, "New York"@, ColorGroup::DarkBlue, 350, 35, seq![175, 500, 1100, 1300, 1500], 200, "US"@),
        38 => tax_tile(38, "Luxury Tax"@, 100),
        _ => property_tile(39, "Tokyo"@, ColorGroup::DarkBlue, 400, 50, seq![200, 600, 1400, 1700, 2000], 200, "JP"@),
    }
}

/// Number of tiles on the board.
pub const BOARD_SIZE: u8 = 40;

impl Tile {
    fn go() -> (t: Tile)
        ensures
            t@ == plain_tile(0, "START"@, TileType::Go),
    {
        Tile::plain(0, "START", TileType::Go)
    }

    fn plain(index: u8, name: &str, tile_type: TileType) -> (t: Tile)
        ensures
            t@ == plain_tile(index, name@, tile_type),
    {
        let t = Tile {
            index,
            name: String::from_str(name),
            tile_type,
            group: None,
            price: 0,
            rent_base: 0,
            rent_schedule: Vec::new(),
            mortgage_value: 0,
            build_cost: 0,
            country_code: None,
        };
        assert(t@.rent_schedule =~= seq![]);
        t
    }

    fn property(
        index: u8,
        name: &str,
        group: ColorGroup,
        price: u32,
        rent_base: u32,
        rent_schedule: Vec<u32>,
        build_cost: u32,
        country_code: &str,
    ) -> (t: Tile)
        ensures
            t@ == property_tile(
                index,
                name@,
                group,
                price,
                rent_base,
                rent_schedule@,
                build_cost,
                country_code@,
            ),
    {
        Tile {
            index,
            name: String::from_str(name),
            tile_type: TileType::Property,
            group: Some(group),
            price,
            rent_base,
            rent_schedule,
            mortgage_value: price / 2,
            build_cost,
            country_code: Some(String::from_str(country_code)),
        }
    }

    fn railroad(index: u8, name: &str, country_code: &str) -> (t: Tile)
        ensures
            t@ == railroad_tile(index, name@, country_code@),
    {
        let t = Tile {
            index,
            name: String::from_str(name),
            tile_type: TileType::Railroad,
            group: Some(ColorGroup::Railroad),
            price: 200,
            rent_base: 25,
            rent_schedule: vec![25, 50, 100, 200],
            mortgage_value: 100,
            build_cost: 0,
            country_code: Some(String::from_str(country_code)),
        };
        assert(t@.rent_schedule =~= seq![25u32, 50, 100, 200]);
        t
    }

    fn utility(index: u8, name: &str) -> (t: Tile)
        ensures
            t@ == utility_tile(index, name@),
    {
        let t = Tile {
            index,
            name: String::from_str(name),
            tile_type: TileType::Utility,
            group: Some(ColorGroup::Utility),
            price: 150,
            rent_base: 4,
            rent_schedule: vec![4, 10],
            mortgage_value: 75,
            build_cost: 0,
            country_code: None,
        };
        assert(t@.rent_schedule =~= seq![4u32, 10]);
        t
    }

    fn chance(index: u8) -> (t: Tile)
        ensures
            t@ == plain_tile(index, "Surprise"@, TileType::Chance),
    {
        Tile::plain(index, "Surprise", TileType::Chance)
    }

    fn community_chest(index: u8) -> (t: Tile)
        ensures
            t@ == plain_tile(index, "Treasure"@, TileType::CommunityChest),
    {
        Tile::plain(index, "Treasure", TileType::CommunityChest)
    }

    fn tax(index: u8, name: &str, amount: u32) -> (t: Tile)
        ensures
            t@ == tax_tile(index, name@, amount),
    {
        let mut t = Tile::plain(index, name, TileType::Tax);
        t.rent_base = amount;
        t
    }

    fn jail() -> (t: Tile)
        ensures
            t@ == plain_tile(10, "In Prison"@, TileType::Jail),
    {
        Tile::plain(10, "In Prison", TileType::Jail)
    }

    fn free_parking() -> (t: Tile)
        ensures
            t@ == plain_tile(20, "Vacation"@, TileType::FreeParking),
    {
        Tile::plain(20, "Vacation", TileType::FreeParking)
    }

    fn go_to_jail() -> (t: Tile)
        ensures
            t@ == plain_tile(30, "Go to prison"@, TileType::GoToJail),
    {
        Tile::plain(30, "Go to prison", TileType::GoToJail)
    }
}

} // verus!

verus! {

/// The rent for 1, 2, 3, 4 houses and a hotel.
fn schedule(a: u32, b: u32, c: u32, d: u32, e: u32) -> (v: Vec<u32>)
    ensures
        v@ == seq![a, b, c, d, e],
{
    let mut v: Vec<u32> = Vec::new();
    v.push(a);
    v.push(b);
    v.push(c);
    v.push(d);
    v.push(e);
    assert(v@ =~= seq![a, b, c, d, e]);
    v
}

/// Get a tile by index
#[verifier::rlimit(50)]
pub fn get_tile(idx: u8) -> (r: Option<Tile>)
    ensures
        match r {
            Some(t) => idx < 40 && t@ == board_tile(idx),
            None => idx >= 40,
        },
{
    let t = match idx {
        0 => Tile::go(),
        1 => Tile::property(1, "Salvador", ColorGroup::Brown, 60, 2, schedule(10, 30, 90, 160, 250), 50, "BR"),
        2 => Tile::community_chest(2),
        3 => Tile::property(3, "Rio", ColorGroup::Brown, 60, 4, schedule(20, 60, 180, 320, 450), 50, "BR"),
        4 => Tile::tax(4, "Income Tax 10%", 200),
        5 => Tile::railroad(5, "TLV Airport", "IL"),
        6 => Tile::property(6, "Tel Aviv", ColorGroup::LightBlue, 100, 6, schedule(30, 90, 270, 400, 550), 50, "IL"),
        7 => Tile::chance(7),
        8 => Tile::property(8, "Haifa", ColorGroup::LightBlue, 100, 6, schedule(30, 90, 270, 400, 550), 50, "IL"),
        9 => Tile::property(9, "Jerusalem", ColorGroup::LightBlue, 120, 8, schedule(40, 100, 300, 450, 600), 50, "IL"),
        10 => Tile::jail(),
        11 => Tile::property(11, "Venice", ColorGroup::Pink, 140, 10, schedule(50, 150, 450, 625, 750), 100, "IT"),
        12 => Tile::utility(12, "Electric Company"),
        13 => Tile::property(13, "Milan", ColorGroup::Pink, 140, 10, schedule(50, 150, 450, 625, 750), 100, "IT"),
        14 => Tile::property(14, "Rome", ColorGroup::Pink, 160, 12, schedule(60, 180, 500, 700, 900), 100, "IT"),
        15 => Tile::railroad(15, "MUC Airport", "DE"),
        16 => Tile::property(16, "Frankfurt", ColorGroup::Orange, 180, 14, schedule(70, 200, 550, 750, 950), 100, "DE"),
        17 => Tile::community_chest(17),
        18 => Tile::property(18, "Treasure", ColorGroup::Orange, 180, 14, schedule(70, 200, 550, 750, 950), 100, "DE"),
        19 => Tile::property(19, "Munich", ColorGroup::Orange, 200, 16, schedule(80, 220, 600, 800, 1000), 100, "DE"),
        20 => Tile::free_parking(),
        21 => Tile::property(21, "Berlin", ColorGroup::Red, 220, 18, schedule(90, 250, 700, 875, 1050), 150, "DE"),
        22 => Tile::chance(22),
        23 => Tile::property(23, "Manchester", ColorGroup::Red, 220, 18, schedule(90, 250, 700, 875, 1050), 150, "GB"),
        24 => Tile::property(24, "Liverpool", ColorGroup::Red, 240, 20, schedule(100, 300, 750, 925, 1100), 150, "GB"),
        25 => Tile::railroad(25, "JFK Airport", "US"),
        26 => Tile::property(26, "Paris", ColorGroup::Yellow, 260, 22, schedule(110, 330, 800, 975, 1150), 150, "FR"),
        27 => Tile::property(27, "Toulouse", ColorGroup::Yellow, 260, 22, schedule(110, 330, 800, 975, 1150), 150, "FR"),
        28 => Tile::utility(28, "Water Company"),
        29 => Tile::property(29, "Lyon", ColorGroup::Yellow, 280, 24, schedule(120, 360, 850, 1025, 1200), 150, "FR"),
        30 => Tile::go_to_jail(),
        31 => Tile::property(31, "CDG Airport", ColorGroup::Green, 300, 26, schedule(130, 390, 900, 1100, 1275), 200, "FR"),
        32 => Tile::property(32, "Shanghai", ColorGroup::Green, 300, 26, schedule(130, 390, 900, 1100, 1275), 200, "CN"),
        33 => Tile::community_chest(33),
        34 => Tile::property(34, "Beijing", ColorGroup::Green, 320, 28, schedule(150, 450, 1000, 1200, 1400), 200, "CN"),
        35 => Tile::railroad(35, "Shenzhen", "CN"),
        36 => Tile::chance(36),
        37 => Tile::property(37, "New York", ColorGroup::DarkBlue, 350, 35, schedule(175, 500, 1100, 1300, 1500), 200, "US"),
        38 => Tile::tax(38, "Luxury Tax", 100),
        39 => Tile::property(39, "Tokyo", ColorGroup::DarkBlue, 400, 50, schedule(200, 600, 1400, 1700, 2000), 200, "JP"),
        _ => {
            return None;
        },
    };
    Some(t)
}

} // verus!

verus! {

/// The whole board as a sequence of tile views.
pub open spec fn board_views() -> Seq<TileView> {
    Seq::new(40, |i: int| board_tile(i as u8))
}

/// The views of a sequence of tiles.
pub open spec fn tile_views(s: Seq<Tile>) -> Seq<TileView> {
    s.map_values(|t: Tile| t@)
}

/// The tiles of a group, in board order.
pub open spec fn group_views(group: ColorGroup) -> Seq<TileView> {
    board_views().filter(in_group(group))
}

/// Whether a tile belongs to a group.
pub open spec fn in_group(group: ColorGroup) -> spec_fn(TileView) -> bool {
    |t: TileView| t.group == Some(group)
}

/// The complete game board: 40 tiles in order.
pub fn board() -> (r: Vec<Tile>)
    ensures
        r@.len() == 40,
        forall|i: int| 0 <= i < 40 ==> (#[trigger] r@[i])@ == board_tile(i as u8),
{
    let mut r: Vec<Tile> = Vec::new();
    let mut i: u8 = 0;
    while i < 40
        invariant
            i <= 40,
            r@.len() == i,
            forall|j: int| 0 <= j < i ==> (#[trigger] r@[j])@ == board_tile(j as u8),
        decreases 40 - i,
    {
        match get_tile(i) {
            Some(t) => r.push(t),
            None => {},
        }
        i = i + 1;
    }
    r
}

/// How many of the first `n` tiles belong to a group.
pub open spec fn group_count(group: ColorGroup, n: nat) -> nat
    decreases n,
{
    if n == 0 {
        0
    } else {
        group_count(group, (n - 1) as nat) + if board_tile((n - 1) as u8).group == Some(group) {
            1nat
        } else {
            0nat
        }
    }
}

/// The tiles of a group among the first `n` are as many as `group_count` says.
pub proof fn lemma_group_prefix_len(group: ColorGroup, n: nat)
    requires
        n <= 40,
    ensures
        board_views().take(n as int).filter(in_group(group)).len() == group_count(group, n),
    decreases n,
{
    if n > 0 {
        lemma_group_prefix_len(group, (n - 1) as nat);
        let s = board_views().take(n as int);
        assert(s.drop_last() =~= board_views().take(n - 1));
        assert(s.last() == board_tile((n - 1) as u8));
        reveal_with_fuel(Seq::<_>::filter, 1);
    }
}

/// Every group has as many tiles on the board as its property count.
pub proof fn lemma_group_size(group: ColorGroup)
    ensures
        group_views(group).len() == spec_property_count(group),
{
    lemma_group_prefix_len(group, 40);
    assert(board_views().take(40) =~= board_views());
    reveal_with_fuel(group_count, 41);
}

/// Get all tiles in a color group
pub fn get_group_tiles(group: ColorGroup) -> (r: Vec<Tile>)
    ensures
        tile_views(r@) == group_views(group),
        r@.len() == spec_property_count(group),
{
    let mut r: Vec<Tile> = Vec::new();
    let mut i: u8 = 0;
    while i < 40
        invariant
            i <= 40,
            tile_views(r@) == board_views().take(i as int).filter(in_group(group)),
        decreases 40 - i,
    {
        let ghost before = r@;
        proof {
            let s = board_views().take(i + 1);
            assert(s.drop_last() =~= board_views().take(i as int));
            assert(s.last() == board_tile(i));
            reveal_with_fuel(Seq::<_>::filter, 1);
            assert(s.filter(in_group(group)) == if in_group(group)(board_tile(i)) {
                board_views().take(i as int).filter(in_group(group)).push(board_tile(i))
            } else {
                board_views().take(i as int).filter(in_group(group))
            });
        }
        match get_tile(i) {
            Some(t) => {
                let same = match t.group {
                    Some(g) => g == group,
                    None => false,
                };
                if same {
                    r.push(t);
                    assert(tile_views(r@) =~= tile_views(before).push(
                        board_tile(i),
                    ));
                    assert(tile_views(r@) == board_views().take(i as int).filter(in_group(group)).push(board_tile(i)));
                } else {
                    assert(tile_views(r@) == board_views().take(i as int).filter(in_group(group)));
                }
            },
            None => {},
        }
        assert(tile_views(r@) == board_views().take(i + 1).filter(in_group(group)));
        i = i + 1;
    }
    assert(board_views().take(40) =~= board_views());
    proof {
        lemma_group_size(group);
    }
    r
}

} // verus!

verus! {

/// Bounds that hold of every tile of the board.
pub proof fn lemma_board_facts(i: u8)
    ensures
        board_tile(i).price <= 400,
        board_tile(i).rent_base <= 200,
        board_tile(i).mortgage_value <= 200,
        board_tile(i).build_cost <= 200,
        board_tile(i).rent_schedule.len() <= 5,
        forall|k: int|
            0 <= k < board_tile(i).rent_schedule.len() ==> board_tile(i).rent_schedule[k] <= 2000,
        i < 40 ==> board_tile(i).index == i,
        (board_tile(i).tile_type == TileType::Property || board_tile(i).tile_type
            == TileType::Railroad || board_tile(i).tile_type == TileType::Utility)
            <==> board_tile(i).group is Some,
        board_tile(i).tile_type == TileType::Property ==> board_tile(i).rent_schedule.len() == 5,
{
}

} // verus!
