use mo_de_backend::game::board::{board, get_group_tiles, get_tile, ColorGroup, TileType};

#[test]
fn board_has_forty_tiles_in_order() {
    let b = board();
    assert_eq!(b.len(), 40);
    for (i, t) in b.iter().enumerate() {
        assert_eq!(t.index as usize, i);
    }
}

#[test]
fn tile_data() {
    let t = get_tile(39).unwrap();
    assert_eq!(t.name, "Tokyo");
    assert_eq!(t.price, 400);
    assert_eq!(t.rent_schedule, vec![200, 600, 1400, 1700, 2000]);
    assert_eq!(t.mortgage_value, 200);
    assert_eq!(t.country_code.as_deref(), Some("JP"));
    assert!(get_tile(40).is_none());
    assert_eq!(get_tile(4).unwrap().tile_type, TileType::Tax);
    assert_eq!(get_tile(4).unwrap().rent_base, 200);
}

#[test]
fn group_tiles() {
    let brown: Vec<u8> = get_group_tiles(ColorGroup::Brown).iter().map(|t| t.index).collect();
    assert_eq!(brown, vec![1, 3]);
    let rr: Vec<u8> = get_group_tiles(ColorGroup::Railroad).iter().map(|t| t.index).collect();
    assert_eq!(rr, vec![5, 15, 25, 35]);
    assert_eq!(ColorGroup::Railroad.property_count(), 4);
    assert_eq!(ColorGroup::Brown.color_hex(), "#8B4513");
}

#[test]
fn group_tiles_by_position() {
    let idx = |g: ColorGroup| get_group_tiles(g).iter().map(|t| t.index).collect::<Vec<u8>>();
    assert_eq!(idx(ColorGroup::DarkBlue), vec![37, 39]);
    assert_eq!(idx(ColorGroup::Railroad), vec![5, 15, 25, 35]);
    assert_eq!(idx(ColorGroup::Utility), vec![12, 28]);
    assert_eq!(idx(ColorGroup::Orange), vec![16, 18, 19]);
    for g in [
        ColorGroup::Brown,
        ColorGroup::LightBlue,
        ColorGroup::Pink,
        ColorGroup::Orange,
        ColorGroup::Red,
        ColorGroup::Yellow,
        ColorGroup::Green,
        ColorGroup::DarkBlue,
        ColorGroup::Railroad,
        ColorGroup::Utility,
    ] {
        assert_eq!(get_group_tiles(g).len(), g.property_count() as usize);
    }
}
