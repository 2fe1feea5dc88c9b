use voxworld_web::sites::{
    marker_from_rtsim_profession, marker_from_service_plot, marker_offers_trade,
    roster_spawn_tile, rtsim_site_roster, site_marker_plan, site_marker_action_verb, site_marker_role_label,
    site_marker_tally, site_npc_spawn_tiles, site_roster_counts, site_start_tile,
    OriginalSiteMarkerKind, PlotInfo, PlotMeta, Profession, RtsimPreviewStats, ServicePlotKind,
    TrackedPopulation,
};

fn plot(kind: ServicePlotKind, meta: Option<PlotMeta>, root: (i32, i32)) -> PlotInfo {
    PlotInfo { kind, meta, root_tile: root }
}

#[test]
fn role_labels() {
    assert_eq!(site_marker_role_label(OriginalSiteMarkerKind::Trader), "trader");
    assert_eq!(site_marker_role_label(OriginalSiteMarkerKind::Market), "market");
    assert_eq!(site_marker_role_label(OriginalSiteMarkerKind::Captain), "captain");
    assert_eq!(site_marker_role_label(OriginalSiteMarkerKind::Guard), "guard");
    assert_eq!(site_marker_role_label(OriginalSiteMarkerKind::Adventurer), "adventurer");
}

#[test]
fn action_verbs_and_trade() {
    assert_eq!(site_marker_action_verb(OriginalSiteMarkerKind::Market), "open trade preview");
    assert_eq!(site_marker_action_verb(OriginalSiteMarkerKind::Captain), "talk preview");
    assert_eq!(site_marker_action_verb(OriginalSiteMarkerKind::Guard), "talk guard");
    assert!(marker_offers_trade(OriginalSiteMarkerKind::Trader));
    assert!(marker_offers_trade(OriginalSiteMarkerKind::Market));
    assert!(!marker_offers_trade(OriginalSiteMarkerKind::Guard));
}

#[test]
fn profession_markers() {
    assert_eq!(marker_from_rtsim_profession(Profession::Merchant), (OriginalSiteMarkerKind::Trader, "merchant"));
    assert_eq!(marker_from_rtsim_profession(Profession::Guard), (OriginalSiteMarkerKind::Guard, "rtsim guard"));
    assert_eq!(marker_from_rtsim_profession(Profession::Captain), (OriginalSiteMarkerKind::Captain, "rtsim captain"));
    assert_eq!(marker_from_rtsim_profession(Profession::Adventurer(3)), (OriginalSiteMarkerKind::Adventurer, "adventurer"));
    assert_eq!(marker_from_rtsim_profession(Profession::Pirate(false)), (OriginalSiteMarkerKind::Guard, "pirate"));
    assert_eq!(marker_from_rtsim_profession(Profession::Pirate(true)), (OriginalSiteMarkerKind::Guard, "pirate captain"));
    assert_eq!(marker_from_rtsim_profession(Profession::Cultist), (OriginalSiteMarkerKind::Guard, "cultist"));
    assert_eq!(marker_from_rtsim_profession(Profession::Hunter), (OriginalSiteMarkerKind::Trader, "hunter"));
}

#[test]
fn roster_of_a_town() {
    assert_eq!(site_roster_counts(30), (7, 6, 6, 17));
    assert_eq!(site_roster_counts(0), (0, 0, 1, 0));
    assert_eq!(site_roster_counts(3), (0, 0, 1, 3));
    let roster = rtsim_site_roster(2, 5, 1, 7);
    assert_eq!(roster.len(), 15);
    assert_eq!(&roster[0..2], &[Profession::Guard, Profession::Guard]);
    assert_eq!(
        &roster[2..7],
        &[Profession::Adventurer(0), Profession::Adventurer(1), Profession::Adventurer(2), Profession::Adventurer(3), Profession::Adventurer(0)]
    );
    assert_eq!(roster[7], Profession::Merchant);
    assert_eq!(
        &roster[8..15],
        &[Profession::Farmer, Profession::Herbalist, Profession::Blacksmith, Profession::Chef, Profession::Alchemist, Profession::Hunter, Profession::Farmer]
    );
}

#[test]
fn spawn_tiles_prefer_doors_then_plazas() {
    let plots = vec![
        plot(ServicePlotKind::Other, Some(PlotMeta::House { door_tile: (1, 2) }), (0, 0)),
        plot(ServicePlotKind::Other, Some(PlotMeta::Dungeon), (9, 9)),
        plot(ServicePlotKind::Workshop, Some(PlotMeta::Workshop { maybe_door_tile: None }), (4, 4)),
        plot(ServicePlotKind::Other, None, (7, 7)),
        plot(ServicePlotKind::AirshipDock, Some(PlotMeta::AirshipDock { door_tile: (5, 6) }), (0, 1)),
    ];
    assert_eq!(site_npc_spawn_tiles(&plots, &[(8, 8)]), vec![(1, 2), (4, 4), (5, 6)]);
    let none = vec![plot(ServicePlotKind::Other, None, (7, 7))];
    assert_eq!(site_npc_spawn_tiles(&none, &[(8, 8), (9, 9)]), vec![(8, 8), (9, 9)]);
    assert_eq!(site_npc_spawn_tiles(&none, &[]), vec![(0, 0)]);
    assert_eq!(roster_spawn_tile(&[(1, 1), (2, 2), (3, 3)], 7), (2, 2));
}

#[test]
fn service_plot_markers() {
    let dock = plot(ServicePlotKind::CliffTownAirshipDock, Some(PlotMeta::AirshipDock { door_tile: (3, 4) }), (0, 0));
    assert_eq!(marker_from_service_plot(&dock), Some((OriginalSiteMarkerKind::Captain, "airship dock", (3, 4))));
    let shop = plot(ServicePlotKind::DesertCityMultiPlot, Some(PlotMeta::Workshop { maybe_door_tile: None }), (6, 7));
    assert_eq!(marker_from_service_plot(&shop), Some((OriginalSiteMarkerKind::Trader, "workshop", (6, 7))));
    let tavern = plot(ServicePlotKind::Tavern, Some(PlotMeta::Dungeon), (1, 1));
    assert_eq!(marker_from_service_plot(&tavern), Some((OriginalSiteMarkerKind::Trader, "tavern", (1, 1))));
    let plaza = plot(ServicePlotKind::Plaza, None, (2, 2));
    assert_eq!(marker_from_service_plot(&plaza), Some((OriginalSiteMarkerKind::Market, "board", (2, 2))));
    let house = plot(ServicePlotKind::Other, Some(PlotMeta::House { door_tile: (1, 1) }), (0, 0));
    assert_eq!(marker_from_service_plot(&house), None);
}

#[test]
fn start_tile_choice() {
    let plots = vec![
        plot(ServicePlotKind::Other, Some(PlotMeta::Dungeon), (9, 9)),
        plot(ServicePlotKind::Workshop, Some(PlotMeta::Workshop { maybe_door_tile: None }), (4, 4)),
        plot(ServicePlotKind::Other, Some(PlotMeta::Other { door_tile: (5, 5) }), (0, 0)),
    ];
    assert_eq!(site_start_tile(Some((1, 1)), &plots), Some((1, 1)));
    assert_eq!(site_start_tile(None, &plots), Some((5, 5)));
    assert_eq!(site_start_tile(None, &plots[..2]), None);
}

#[test]
fn marker_tally() {
    let k = |i: usize| [
        OriginalSiteMarkerKind::Trader,
        OriginalSiteMarkerKind::Captain,
        OriginalSiteMarkerKind::Market,
        OriginalSiteMarkerKind::Guard,
        OriginalSiteMarkerKind::Adventurer,
    ][i];
    assert_eq!(site_marker_tally(&[k(0), k(1), k(2), k(3), k(4), k(3)]), (3, 2, 1));
    assert_eq!(site_marker_tally(&[]), (0, 0, 0));
}

#[test]
fn rtsim_stats() {
    let stats = RtsimPreviewStats::from_counts(
        4,
        120,
        300,
        &[
            (TrackedPopulation::Merchants, 5),
            (TrackedPopulation::Guards, 7),
            (TrackedPopulation::OtherTownNpcs, 11),
            (TrackedPopulation::Other, 100),
        ],
    );
    assert_eq!(stats.sites, 4);
    assert_eq!(stats.existing_npcs, 120);
    assert_eq!(stats.wanted_population, 300);
    assert_eq!(stats.wanted_merchants, 16);
    assert_eq!(stats.wanted_guards, 7);
}

#[test]
fn site_marker_plan_lists_services_then_roster() {
    let plots = vec![
        plot(ServicePlotKind::Tavern, Some(PlotMeta::House { door_tile: (3, 3) }), (1, 1)),
        plot(ServicePlotKind::Other, Some(PlotMeta::House { door_tile: (8, 2) }), (0, 0)),
        plot(ServicePlotKind::Plaza, None, (5, 5)),
    ];
    let plan = site_marker_plan(&plots, false, &[(5, 5)]);
    let view: Vec<_> = plan.iter().map(|p| (p.kind, p.label, p.tile, p.roster_index)).collect();
    assert_eq!(
        view,
        vec![
            (OriginalSiteMarkerKind::Trader, "tavern", (3, 3), None),
            (OriginalSiteMarkerKind::Market, "board", (5, 5), None),
        ]
    );
    // A settlement of three plots: no guards or adventurers, one merchant and
    // three townsfolk, on the two door tiles in turn.
    let plan = site_marker_plan(&plots, true, &[(5, 5)]);
    let view: Vec<_> = plan.iter().map(|p| (p.kind, p.label, p.tile, p.roster_index)).collect();
    assert_eq!(
        view,
        vec![
            (OriginalSiteMarkerKind::Trader, "tavern", (3, 3), None),
            (OriginalSiteMarkerKind::Market, "board", (5, 5), None),
            (OriginalSiteMarkerKind::Trader, "merchant", (3, 3), Some(0)),
            (OriginalSiteMarkerKind::Trader, "farmer", (8, 2), Some(1)),
            (OriginalSiteMarkerKind::Trader, "herbalist", (3, 3), Some(2)),
            (OriginalSiteMarkerKind::Trader, "blacksmith", (8, 2), Some(3)),
        ]
    );
    let empty = site_marker_plan(&[], true, &[]);
    assert_eq!(empty.len(), 1);
    assert_eq!((empty[0].label, empty[0].tile, empty[0].roster_index), ("merchant", (0, 0), Some(0)));
}
