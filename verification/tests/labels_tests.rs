use voxworld_web::input::{quad_indices, offset_indices, u32_bytes, InputState};
use voxworld_web::interaction::{
    interaction_attempt_for, nearer_of, nearest_targets_summary, trade_panel_title,
    EntityCandidate, Nearer,
    TerrainCandidate, TradePanelPreview, TradePanelWare,
};
use voxworld_web::labels::{
    entity_action_verb, entity_body_label, entity_marker_shape, entity_role_label,
    marker_buffer_label, site_marker_shape, sprite_interaction_label, BodyKind, EntityAlignment,
    EntityRoleInfo, OriginalEntityMarkerShape, SpecialEntityKind, SpriteCategory, SpriteTraits,
};
use voxworld_web::sites::OriginalSiteMarkerKind;
use voxworld_web::trade::{
    join_strings, short_item_name, site_stock_summary, trade_good_allowed, trade_sample_items,
    trade_summary, TradeGood,
};

#[test]
fn sample_items() {
    assert_eq!(trade_sample_items("farmer"), &["common.items.food.apple", "common.items.food.cheese", "common.items.food.lettuce"]);
    assert_eq!(trade_sample_items("tavern"), trade_sample_items("chef"));
    assert_eq!(trade_sample_items("workshop")[0], "common.items.weapons.sword.starter");
    assert_eq!(trade_sample_items("merchant"), &["common.items.utility.coins", "common.items.consumable.potion_minor", "common.items.food.cheese"]);
    assert_eq!(trade_sample_items("guard"), &["common.items.utility.coins", "common.items.food.cheese", "common.items.consumable.potion_minor"]);
}

#[test]
fn short_names() {
    assert_eq!(short_item_name("common.items.food.apple_mushroom_curry"), "apple mushroom curry");
    assert_eq!(short_item_name("coins"), "coins");
    assert_eq!(short_item_name("a.b."), "");
    assert_eq!(short_item_name("x_y"), "x y");
}

#[test]
fn goods_allowed() {
    assert!(trade_good_allowed("farmer", TradeGood::Food));
    assert!(!trade_good_allowed("farmer", TradeGood::Tools));
    assert!(trade_good_allowed("board", TradeGood::Recipe));
    assert!(!trade_good_allowed("merchant", TradeGood::Territory));
    assert!(trade_good_allowed("merchant", TradeGood::Other));
    assert!(trade_good_allowed("alchemist", TradeGood::Stone));
}

#[test]
fn stock_summary_sorted_and_capped() {
    let b = |v: f32| v.to_bits();
    let stock = vec![
        (b(5.0), TradeGood::Food),
        (b(0.0), TradeGood::Coin),
        (b(50.0), TradeGood::Coin),
        (b(5.0), TradeGood::Other),
        (b(-3.0), TradeGood::Food),
        (b(9.0), TradeGood::Tools),
        (b(5.0), TradeGood::Coin),
    ];
    let out = site_stock_summary(stock, "farmer");
    assert_eq!(out, vec![(b(50.0), TradeGood::Coin), (b(5.0), TradeGood::Food), (b(5.0), TradeGood::Coin)]);
    assert_eq!(site_stock_summary(vec![(b(f32::NAN), TradeGood::Food)], "farmer"), vec![]);
}

#[test]
fn summaries_and_joins() {
    assert_eq!(join_strings(&[], ", "), "");
    assert_eq!(join_strings(&["a".to_string(), "b".to_string(), "c".to_string()], ", "), "a, b, c");
    assert_eq!(trade_summary(&[], &[]), "stock unavailable; no priced wares");
    assert_eq!(
        trade_summary(&["Food 12".to_string(), "Coin 3".to_string()], &["apple Low buy 1.00c sell 0.50c".to_string()]),
        "stock Food 12, Coin 3; wares apple Low buy 1.00c sell 0.50c"
    );
}

#[test]
fn entity_labels() {
    let info = |trades, special, has_agency, alignment| EntityRoleInfo { trades, special, has_agency, alignment };
    assert_eq!(entity_role_label(&info(true, Some(SpecialEntityKind::Waypoint), true, EntityAlignment::Enemy)), "trader");
    assert_eq!(entity_role_label(&info(false, Some(SpecialEntityKind::ArenaTotem), true, EntityAlignment::Enemy)), "arena totem");
    assert_eq!(entity_role_label(&info(false, None, true, EntityAlignment::Owned)), "ally");
    assert_eq!(entity_role_label(&info(false, None, false, EntityAlignment::Enemy)), "static");
    assert_eq!(entity_action_verb("trader"), "open trade preview");
    assert_eq!(entity_action_verb("wild"), "inspect creature");
    assert_eq!(entity_action_verb("arena totem"), "inspect entity");
    assert_eq!(entity_action_verb("static"), "inspect entity");
    assert_eq!(entity_body_label(BodyKind::QuadrupedMedium), "quadruped");
    assert_eq!(entity_body_label(BodyKind::FishSmall), "small fish");
    assert_eq!(entity_marker_shape(BodyKind::Dragon), OriginalEntityMarkerShape::Flyer);
    assert_eq!(entity_marker_shape(BodyKind::Ship), OriginalEntityMarkerShape::Large);
    assert_eq!(entity_marker_shape(BodyKind::Arthropod), OriginalEntityMarkerShape::Quadruped);
    assert_eq!(site_marker_shape(OriginalSiteMarkerKind::Market), OriginalEntityMarkerShape::Object);
    assert_eq!(site_marker_shape(OriginalSiteMarkerKind::Guard), OriginalEntityMarkerShape::Humanoid);
}

#[test]
fn sprite_labels() {
    let t = |is_container, is_unlock, mineable, collectible, category| SpriteTraits { is_container, is_unlock, mineable, collectible, category };
    assert_eq!(sprite_interaction_label(&t(true, true, true, true, SpriteCategory::Plant)), "container");
    assert_eq!(sprite_interaction_label(&t(false, true, true, false, SpriteCategory::Plant)), "unlock");
    assert_eq!(sprite_interaction_label(&t(false, false, true, true, SpriteCategory::Plant)), "mine");
    assert_eq!(sprite_interaction_label(&t(false, false, false, true, SpriteCategory::Resource)), "collect");
    assert_eq!(sprite_interaction_label(&t(false, false, false, true, SpriteCategory::Decor)), "interact");
    assert_eq!(sprite_interaction_label(&t(false, false, false, false, SpriteCategory::Lamp)), "light");
    assert_eq!(sprite_interaction_label(&t(false, false, false, false, SpriteCategory::Modular)), "inspect");
    assert_eq!(sprite_interaction_label(&t(false, false, false, false, SpriteCategory::Void)), "prop");
}

#[test]
fn buffer_labels() {
    assert_eq!(marker_buffer_label("Player", "Vertex"), "Voxygen Web Player Marker Vertex Buffer");
    assert_eq!(marker_buffer_label("Entity", "Index"), "Voxygen Web Entity Marker Index Buffer");
    assert_eq!(marker_buffer_label("Other", "Index"), "Voxygen Web Marker Buffer");
}

fn panel() -> TradePanelPreview {
    TradePanelPreview {
        title: "trader farmer - Oakvale".to_string(),
        stock: vec!["Food 12".to_string()],
        wares: vec![TradePanelWare { name: "apple".to_string(), quality: "Low".to_string(), buy: "1.00c".to_string(), sell: "0.50c".to_string() }],
    }
}

#[test]
fn interaction_choices() {
    let b = |v: f32| v.to_bits();
    assert_eq!(nearer_of(Some(b(1.0)), Some(b(1.0))), Nearer::First);
    assert_eq!(nearer_of(Some(b(2.0)), Some(b(1.0))), Nearer::Second);
    assert_eq!(nearer_of(None, None), Nearer::Neither);
    let terrain = || Some(TerrainCandidate { distance_bits: b(3.0), action: "collect Plant Apple at 3.0m".to_string() });
    let entity = |d: f32| Some(EntityCandidate { distance_bits: b(d), action: "open trade preview trader farmer".to_string(), trade_panel: Some(panel()) });
    let a = interaction_attempt_for(terrain(), entity(4.0));
    assert_eq!(a.summary, "Last interaction: collect Plant Apple at 3.0m.");
    assert!(a.trade_panel.is_none());
    let a = interaction_attempt_for(terrain(), entity(2.0));
    assert_eq!(a.summary, "Last interaction: open trade preview trader farmer.");
    assert_eq!(a.trade_panel.unwrap().title, "trader farmer - Oakvale");
    let a = interaction_attempt_for(None, None);
    assert_eq!(a.summary, "Last interaction: no target in reach (terrain 5.0m, entity 14.0m).");
    assert_eq!(trade_panel_title(OriginalSiteMarkerKind::Market, "board", "Oakvale"), "market board - Oakvale");
}

#[test]
fn input_keys() {
    let mut s = InputState::new();
    assert!(s.set_key_state("w", true));
    assert!(s.set_key_state("ArrowRight", true));
    assert!(!s.set_key_state("q", true));
    assert_eq!(s.axes(), Some((1, -1)));
    assert!(s.set_key_state("S", true));
    assert!(s.set_key_state("a", true));
    assert_eq!(s.axes(), None);
    assert!(s.set_key_state("W", false));
    assert_eq!(s.axes(), Some((0, 1)));
}

#[test]
fn index_data() {
    assert_eq!(quad_indices(8), [8, 9, 10, 8, 10, 11]);
    assert_eq!(offset_indices(&[0, 1, 2], 40), vec![40, 41, 42]);
    assert_eq!(u32_bytes(&[1, 0x0403_0201]), vec![1, 0, 0, 0, 1, 2, 3, 4]);
    let values = [7u32, 65536, u32::MAX];
    let expected: Vec<u8> = values.iter().flat_map(|v| v.to_le_bytes()).collect();
    assert_eq!(u32_bytes(&values), expected);
}

#[test]
fn nearest_targets_report() {
    assert_eq!(
        nearest_targets_summary(Some("mine MineableResource Iron at 2.5m".to_string()), None),
        " Nearest terrain target: mine MineableResource Iron at 2.5m. Nearest entity target: none."
    );
    assert_eq!(
        nearest_targets_summary(None, Some("enemy humanoid Enemy at 9.0m".to_string())),
        " Nearest terrain target: none. Nearest entity target: enemy humanoid Enemy at 9.0m."
    );
}
