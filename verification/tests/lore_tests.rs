use map_flipper::lore::parse_item_info;
use map_flipper::slots::ItemSlot;
use map_flipper::slots::extract_lore;
use map_flipper::slots::is_map_item;

#[test]
fn test_parse_item_info() {
    let lore = vec![
        "\u{a7}7Price: \u{a7}6$1500".to_string(),
        "\u{a7}7Seller: \u{a7}aTestPlayer".to_string(),
    ];

    let result = parse_item_info(&lore);
    assert!(result.is_some());

    let (price, seller) = result.unwrap();
    assert_eq!(price, 1500);
    assert_eq!(seller, "TestPlayer");
}

#[test]
fn parse_item_info_with_multiplier_and_seller() {
    let lore = vec![
        "some text Price: $9.9K more".to_string(),
        "Seller: Foo".to_string(),
    ];
    let result = parse_item_info(&lore);
    assert_eq!(result, Some((9900, "Foo".to_string())));
}

#[test]
fn parse_item_info_without_price_line_is_none() {
    let lore = vec![
        "Seller: Somebody".to_string(),
        "A fine map".to_string(),
        "$500 written without the label".to_string(),
    ];
    assert_eq!(parse_item_info(&lore), None);
    assert_eq!(parse_item_info(&Vec::new()), None);
}

#[test]
fn parse_item_info_seller_defaults_to_unknown() {
    let lore = vec!["Price: $500".to_string()];
    assert_eq!(parse_item_info(&lore), Some((500, "unknown".to_string())));

    // the seller line cannot be split on the label: default stays
    let lore = vec![
        "Price: $500".to_string(),
        "sold by Seller: Bar".to_string(),
    ];
    assert_eq!(parse_item_info(&lore), Some((500, "unknown".to_string())));
}

#[test]
fn parse_item_info_last_labels_win() {
    let lore = vec![
        "Price: $100".to_string(),
        "Seller: First".to_string(),
        "Price: $200".to_string(),
        "Seller: Second".to_string(),
    ];
    assert_eq!(parse_item_info(&lore), Some((200, "Second".to_string())));
}

#[test]
fn parse_item_info_order_independent() {
    let lore = vec![
        "Seller: Foo".to_string(),
        "Price: $42".to_string(),
    ];
    assert_eq!(parse_item_info(&lore), Some((42, "Foo".to_string())));
}

#[test]
fn extract_lore_of_present_and_empty_slots() {
    let lines = vec!["Price: $5".to_string(), "Seller: X".to_string()];
    let slot = ItemSlot::stack("filled_map".to_string(), 1, lines.clone());
    assert_eq!(extract_lore(&slot), lines);

    let empty = ItemSlot::empty();
    assert_eq!(extract_lore(&empty), Vec::<String>::new());
}

#[test]
fn is_map_item_matches_kind_text_case_insensitively() {
    let slot = ItemSlot::stack("FilledMap".to_string(), 1, Vec::new());
    assert!(is_map_item(&slot));

    let other = ItemSlot::stack("Diamond".to_string(), 1, Vec::new());
    assert!(!is_map_item(&other));

    let empty = ItemSlot::empty();
    assert!(!is_map_item(&empty));
}
