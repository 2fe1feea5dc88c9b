//! Settlement markers of the world preview: the simulated population of a town,
//! the marker that each profession and each service plot gets, the tiles where
//! the population appears, and the tally of markers near the player.
use vstd::prelude::*;

verus! {

/// What a site marker stands for.
#[derive(Clone, Copy, PartialEq, Eq, Debug)]
pub enum OriginalSiteMarkerKind {
    Trader,
    Guard,
    Captain,
    Adventurer,
    Market,
}

/// The professions of the simulated population of a settlement.
#[derive(Clone, Copy, PartialEq, Eq, Debug)]
pub enum Profession {
    Farmer,
    Hunter,
    Merchant,
    Guard,
    Adventurer(u32),
    Blacksmith,
    Chef,
    Alchemist,
    /// A pirate; `true` for a pirate captain.
    Pirate(bool),
    Cultist,
    Herbalist,
    Captain,
}

/// The word for the role of a site marker.
pub open spec fn role_label_of(kind: OriginalSiteMarkerKind) -> Seq<char> {
    match kind {
        OriginalSiteMarkerKind::Trader => "trader"@,
        OriginalSiteMarkerKind::Market => "market"@,
        OriginalSiteMarkerKind::Captain => "captain"@,
        OriginalSiteMarkerKind::Guard => "guard"@,
        OriginalSiteMarkerKind::Adventurer => "adventurer"@,
    }
}

pub fn site_marker_role_label(kind: OriginalSiteMarkerKind) -> (r: &'static str)
    ensures
        r@ == role_label_of(kind),
{
    match kind {
        OriginalSiteMarkerKind::Trader => "trader",
        OriginalSiteMarkerKind::Market => "market",
        OriginalSiteMarkerKind::Captain => "captain",
        OriginalSiteMarkerKind::Guard => "guard",
        OriginalSiteMarkerKind::Adventurer => "adventurer",
    }
}

/// The verb of the interaction that a site marker offers.
pub open spec fn action_verb_of(kind: OriginalSiteMarkerKind) -> Seq<char> {
    match kind {
        OriginalSiteMarkerKind::Trader | OriginalSiteMarkerKind::Market => "open trade preview"@,
        OriginalSiteMarkerKind::Captain | OriginalSiteMarkerKind::Adventurer => "talk preview"@,
        OriginalSiteMarkerKind::Guard => "talk guard"@,
    }
}

pub fn site_marker_action_verb(kind: OriginalSiteMarkerKind) -> (r: &'static str)
    ensures
        r@ == action_verb_of(kind),
{
    match kind {
        OriginalSiteMarkerKind::Trader | OriginalSiteMarkerKind::Market => "open trade preview",
        OriginalSiteMarkerKind::Captain | OriginalSiteMarkerKind::Adventurer => "talk preview",
        OriginalSiteMarkerKind::Guard => "talk guard",
    }
}

/// Only traders and market boards carry trade data.
pub fn marker_offers_trade(kind: OriginalSiteMarkerKind) -> (r: bool)
    ensures
        r == (kind == OriginalSiteMarkerKind::Trader || kind == OriginalSiteMarkerKind::Market),
{
    matches!(kind, OriginalSiteMarkerKind::Trader | OriginalSiteMarkerKind::Market)
}

/// The marker kind and label of a member of the simulated population.
pub open spec fn profession_marker_of(p: Profession) -> (OriginalSiteMarkerKind, Seq<char>) {
    match p {
        Profession::Merchant => (OriginalSiteMarkerKind::Trader, "merchant"@),
        Profession::Farmer => (OriginalSiteMarkerKind::Trader, "farmer"@),
        Profession::Herbalist => (OriginalSiteMarkerKind::Trader, "herbalist"@),
        Profession::Blacksmith => (OriginalSiteMarkerKind::Trader, "blacksmith"@),
        Profession::Chef => (OriginalSiteMarkerKind::Trader, "chef"@),
        Profession::Alchemist => (OriginalSiteMarkerKind::Trader, "alchemist"@),
        Profession::Hunter => (OriginalSiteMarkerKind::Trader, "hunter"@),
        Profession::Guard => (OriginalSiteMarkerKind::Guard, "rtsim guard"@),
        Profession::Captain => (OriginalSiteMarkerKind::Captain, "rtsim captain"@),
        Profession::Adventurer(_) => (OriginalSiteMarkerKind::Adventurer, "adventurer"@),
        Profession::Pirate(captain) => (
            OriginalSiteMarkerKind::Guard,
            if captain {
                "pirate captain"@
            } else {
                "pirate"@
            },
        ),
        Profession::Cultist => (OriginalSiteMarkerKind::Guard, "cultist"@),
    }
}

pub fn marker_from_rtsim_profession(profession: Profession) -> (r: (
    OriginalSiteMarkerKind,
    &'static str,
))
    ensures
        r.0 == profession_marker_of(profession).0,
        r.1@ == profession_marker_of(profession).1,
{
    match profession {
        Profession::Merchant => (OriginalSiteMarkerKind::Trader, "merchant"),
        Profession::Farmer => (OriginalSiteMarkerKind::Trader, "farmer"),
        Profession::Herbalist => (OriginalSiteMarkerKind::Trader, "herbalist"),
        Profession::Blacksmith => (OriginalSiteMarkerKind::Trader, "blacksmith"),
        Profession::Chef => (OriginalSiteMarkerKind::Trader, "chef"),
        Profession::Alchemist => (OriginalSiteMarkerKind::Trader, "alchemist"),
        Profession::Hunter => (OriginalSiteMarkerKind::Trader, "hunter"),
        Profession::Guard => (OriginalSiteMarkerKind::Guard, "rtsim guard"),
        Profession::Captain => (OriginalSiteMarkerKind::Captain, "rtsim captain"),
        Profession::Adventurer(_) => (OriginalSiteMarkerKind::Adventurer, "adventurer"),
        Profession::Pirate(false) => (OriginalSiteMarkerKind::Guard, "pirate"),
        Profession::Pirate(true) => (OriginalSiteMarkerKind::Guard, "pirate captain"),
        Profession::Cultist => (OriginalSiteMarkerKind::Guard, "cultist"),
    }
}

/// How many of each group a town of `town_plots` plots gets: a guard per four
/// plots, an adventurer per five, a merchant per six plus one, and a townsperson
/// for each plot left after guards and adventurers.
pub open spec fn roster_counts_of(town_plots: nat) -> (nat, nat, nat, nat) {
    let guards = town_plots / 4;
    let adventurers = town_plots / 5;
    let merchants = town_plots / 6 + 1;
    let town = if town_plots >= guards + adventurers {
        (town_plots - guards - adventurers) as nat
    } else {
        0
    };
    (guards, adventurers, merchants, town)
}

pub fn site_roster_counts(town_plots: usize) -> (r: (usize, usize, usize, usize))
    ensures
        (r.0 as nat, r.1 as nat, r.2 as nat, r.3 as nat) == roster_counts_of(town_plots as nat),
{
    let guards = town_plots / 4;
    let adventurers = town_plots / 5;
    let merchants = town_plots / 6 + 1;
    let town = town_plots.saturating_sub(guards + adventurers);
    (guards, adventurers, merchants, town)
}

/// The townsperson professions, repeated in this order.
pub open spec fn town_cycle() -> Seq<Profession> {
    seq![
        Profession::Farmer,
        Profession::Herbalist,
        Profession::Blacksmith,
        Profession::Chef,
        Profession::Alchemist,
        Profession::Hunter,
    ]
}

/// The roster of a town: the guards, then the adventurers (ranks 0 to 3 in turn),
/// then the merchants, then the townspeople cycling through `town_cycle`.
pub open spec fn roster_of(guards: nat, adventurers: nat, merchants: nat, town: nat) -> Seq<
    Profession,
> {
    Seq::new(guards, |i: int| Profession::Guard) + Seq::new(
        adventurers,
        |i: int| Profession::Adventurer((i % 4) as u32),
    ) + Seq::new(merchants, |i: int| Profession::Merchant) + Seq::new(
        town,
        |i: int| town_cycle()[i % 6],
    )
}

fn town_profession(index: usize) -> (r: Profession)
    ensures
        r == town_cycle()[index as int % 6],
{
    match index % 6 {
        0 => Profession::Farmer,
        1 => Profession::Herbalist,
        2 => Profession::Blacksmith,
        3 => Profession::Chef,
        4 => Profession::Alchemist,
        _ => Profession::Hunter,
    }
}

/// The simulated population of a town, in roster order.
pub fn rtsim_site_roster(guards: usize, adventurers: usize, merchants: usize, town_professions: usize) -> (r:
    Vec<Profession>)
    requires
        guards + adventurers + merchants + town_professions <= usize::MAX,
    ensures
        r@ == roster_of(
            guards as nat,
            adventurers as nat,
            merchants as nat,
            town_professions as nat,
        ),
{
    let mut roster: Vec<Profession> = Vec::with_capacity(
        guards + adventurers + merchants + town_professions,
    );
    let ghost g = Seq::new(guards as nat, |i: int| Profession::Guard);
    let ghost a = Seq::new(adventurers as nat, |i: int| Profession::Adventurer((i % 4) as u32));
    let ghost m = Seq::new(merchants as nat, |i: int| Profession::Merchant);
    let ghost t = Seq::new(town_professions as nat, |i: int| town_cycle()[i % 6]);
    let mut i: usize = 0;
    while i < guards
        invariant
            i <= guards,
            g == Seq::new(guards as nat, |i: int| Profession::Guard),
            roster@ == g.take(i as int),
        decreases guards - i,
    {
        roster.push(Profession::Guard);
        assert(g.take(i + 1) =~= g.take(i as int).push(Profession::Guard));
        i = i + 1;
    }
    assert(g.take(guards as int) =~= g);
    let mut i: usize = 0;
    while i < adventurers
        invariant
            i <= adventurers,
            a == Seq::new(adventurers as nat, |i: int| Profession::Adventurer((i % 4) as u32)),
            roster@ == g + a.take(i as int),
        decreases adventurers - i,
    {
        let rank = (i % 4) as u32;
        roster.push(Profession::Adventurer(rank));
        assert(a.take(i + 1) =~= a.take(i as int).push(Profession::Adventurer(rank)));
        assert(g + a.take(i + 1) =~= (g + a.take(i as int)).push(Profession::Adventurer(rank)));
        i = i + 1;
    }
    assert(a.take(adventurers as int) =~= a);
    let mut i: usize = 0;
    while i < merchants
        invariant
            i <= merchants,
            m == Seq::new(merchants as nat, |i: int| Profession::Merchant),
            roster@ == g + a + m.take(i as int),
        decreases merchants - i,
    {
        roster.push(Profession::Merchant);
        assert(m.take(i + 1) =~= m.take(i as int).push(Profession::Merchant));
        assert(g + a + m.take(i + 1) =~= (g + a + m.take(i as int)).push(Profession::Merchant));
        i = i + 1;
    }
    assert(m.take(merchants as int) =~= m);
    let mut i: usize = 0;
    while i < town_professions
        invariant
            i <= town_professions,
            t == Seq::new(town_professions as nat, |i: int| town_cycle()[i % 6]),
            roster@ == g + a + m + t.take(i as int),
        decreases town_professions - i,
    {
        let p = town_profession(i);
        roster.push(p);
        assert(t.take(i + 1) =~= t.take(i as int).push(p));
        assert(g + a + m + t.take(i + 1) =~= (g + a + m + t.take(i as int)).push(p));
        i = i + 1;
    }
    assert(t.take(town_professions as int) =~= t);
    roster
}

/// The roster of a town has one member per guard, adventurer, merchant and
/// townsperson counted for it, and its merchants are never fewer than one.
pub proof fn law_roster_size(town_plots: nat)
    ensures
        ({
            let (g, a, m, t) = roster_counts_of(town_plots);
            &&& roster_of(g, a, m, t).len() == g + a + m + t
            &&& m >= 1
            &&& g + a + t == town_plots
        }),
{
}

/// The kinds of plot that the preview recognises as services.
#[derive(Clone, Copy, PartialEq, Eq, Debug)]
pub enum ServicePlotKind {
    AirshipDock,
    CoastalAirshipDock,
    CliffTownAirshipDock,
    DesertCityAirshipDock,
    SavannahAirshipDock,
    Workshop,
    CoastalWorkshop,
    SavannahWorkshop,
    DesertCityMultiPlot,
    Tavern,
    Plaza,
    /// Any other plot.
    Other,
}

/// What a plot tells about its door.
#[derive(Clone, Copy, PartialEq, Eq, Debug)]
pub enum PlotMeta {
    House { door_tile: (i32, i32) },
    Other { door_tile: (i32, i32) },
    AirshipDock { door_tile: (i32, i32) },
    Workshop { maybe_door_tile: Option<(i32, i32)> },
    Dungeon,
}

/// A plot of a site, as far as its markers need it.
#[derive(Clone, Copy, PartialEq, Eq, Debug)]
pub struct PlotInfo {
    pub kind: ServicePlotKind,
    pub meta: Option<PlotMeta>,
    pub root_tile: (i32, i32),
}

/// The door tile that a plot's description names, if any.
pub open spec fn door_tile_of(meta: PlotMeta) -> Option<(i32, i32)> {
    match meta {
        PlotMeta::House { door_tile } => Some(door_tile),
        PlotMeta::Other { door_tile } => Some(door_tile),
        PlotMeta::AirshipDock { door_tile } => Some(door_tile),
        PlotMeta::Workshop { maybe_door_tile } => maybe_door_tile,
        PlotMeta::Dungeon => None,
    }
}

pub fn door_tile(meta: PlotMeta) -> (r: Option<(i32, i32)>)
    ensures
        r == door_tile_of(meta),
{
    match meta {
        PlotMeta::House { door_tile } => Some(door_tile),
        PlotMeta::Other { door_tile } => Some(door_tile),
        PlotMeta::AirshipDock { door_tile } => Some(door_tile),
        PlotMeta::Workshop { maybe_door_tile } => maybe_door_tile,
        PlotMeta::Dungeon => None,
    }
}

/// The tile where the population of a plot appears: its door, a workshop's root
/// tile when it has no door; none for dungeons and plots without a description.
pub open spec fn spawn_tile_of(plot: PlotInfo) -> Option<(i32, i32)> {
    match plot.meta {
        Some(PlotMeta::Workshop { maybe_door_tile }) => Some(
            match maybe_door_tile {
                Some(t) => t,
                None => plot.root_tile,
            },
        ),
        Some(m) => door_tile_of(m),
        None => None,
    }
}

/// The spawn tiles of the plots, in plot order.
pub open spec fn plot_spawn_tiles(plots: Seq<PlotInfo>) -> Seq<(i32, i32)>
    decreases plots.len(),
{
    if plots.len() == 0 {
        Seq::empty()
    } else {
        let rest = plot_spawn_tiles(plots.drop_last());
        match spawn_tile_of(plots.last()) {
            Some(t) => rest.push(t),
            None => rest,
        }
    }
}

/// The tiles where a town's population appears: the plots' spawn tiles; the
/// plazas' root tiles when there are none; the origin tile when there are no
/// plazas either.
pub open spec fn npc_spawn_tiles_of(plots: Seq<PlotInfo>, plaza_roots: Seq<(i32, i32)>) -> Seq<
    (i32, i32),
> {
    if plot_spawn_tiles(plots).len() > 0 {
        plot_spawn_tiles(plots)
    } else if plaza_roots.len() > 0 {
        plaza_roots
    } else {
        seq![(0i32, 0i32)]
    }
}

fn spawn_tile(plot: &PlotInfo) -> (r: Option<(i32, i32)>)
    ensures
        r == spawn_tile_of(*plot),
{
    match plot.meta {
        Some(PlotMeta::Workshop { maybe_door_tile }) => Some(
            match maybe_door_tile {
                Some(t) => t,
                None => plot.root_tile,
            },
        ),
        Some(m) => door_tile(m),
        None => None,
    }
}

pub fn site_npc_spawn_tiles(plots: &[PlotInfo], plaza_roots: &[(i32, i32)]) -> (r: Vec<(i32, i32)>)
    ensures
        r@ == npc_spawn_tiles_of(plots@, plaza_roots@),
        r@.len() > 0,
{
    let mut tiles: Vec<(i32, i32)> = Vec::new();
    let mut i: usize = 0;
    while i < plots.len()
        invariant
            i <= plots.len(),
            tiles@ == plot_spawn_tiles(plots@.take(i as int)),
        decreases plots.len() - i,
    {
        assert(plots@.take(i + 1).drop_last() =~= plots@.take(i as int));
        assert(plots@.take(i + 1).last() == plots@[i as int]);
        match spawn_tile(&plots[i]) {
            Some(t) => tiles.push(t),
            None => {},
        }
        i = i + 1;
    }
    assert(plots@.take(plots.len() as int) =~= plots@);
    if tiles.len() == 0 {
        let mut j: usize = 0;
        while j < plaza_roots.len()
            invariant
                j <= plaza_roots.len(),
                tiles@ == plaza_roots@.take(j as int),
            decreases plaza_roots.len() - j,
        {
            tiles.push(plaza_roots[j]);
            assert(plaza_roots@.take(j + 1) =~= plaza_roots@.take(j as int).push(plaza_roots@[j as int]));
            j = j + 1;
        }
        assert(plaza_roots@.take(plaza_roots.len() as int) =~= plaza_roots@);
    }
    if tiles.len() == 0 {
        tiles.push((0, 0));
        assert(tiles@ =~= seq![(0i32, 0i32)]);
    }
    tiles
}

/// The spawn tile of the `index`-th member of a roster: the tiles are used in turn.
pub fn roster_spawn_tile(tiles: &[(i32, i32)], index: usize) -> (r: (i32, i32))
    requires
        tiles@.len() > 0,
    ensures
        r == tiles@[index as int % tiles@.len() as int],
{
    tiles[index % tiles.len()]
}

/// The marker of a service plot, with the tile where it stands: airship docks get
/// a captain, workshops and taverns a trader, plazas the market board.
pub open spec fn service_marker_of(plot: PlotInfo) -> Option<(OriginalSiteMarkerKind, Seq<char>, (i32, i32))> {
    let tile = match plot.meta {
        Some(PlotMeta::Workshop { maybe_door_tile }) => match maybe_door_tile {
            Some(t) => t,
            None => plot.root_tile,
        },
        Some(m) => match door_tile_of(m) {
            Some(t) => t,
            None => plot.root_tile,
        },
        None => plot.root_tile,
    };
    match plot.kind {
        ServicePlotKind::AirshipDock | ServicePlotKind::CoastalAirshipDock
        | ServicePlotKind::CliffTownAirshipDock | ServicePlotKind::DesertCityAirshipDock
        | ServicePlotKind::SavannahAirshipDock => Some(
            (OriginalSiteMarkerKind::Captain, "airship dock"@, tile),
        ),
        ServicePlotKind::Workshop | ServicePlotKind::CoastalWorkshop
        | ServicePlotKind::SavannahWorkshop | ServicePlotKind::DesertCityMultiPlot => Some(
            (OriginalSiteMarkerKind::Trader, "workshop"@, tile),
        ),
        ServicePlotKind::Tavern => Some((OriginalSiteMarkerKind::Trader, "tavern"@, tile)),
        ServicePlotKind::Plaza => Some((OriginalSiteMarkerKind::Market, "board"@, tile)),
        ServicePlotKind::Other => None,
    }
}

pub fn marker_from_service_plot(plot: &PlotInfo) -> (r: Option<
    (OriginalSiteMarkerKind, &'static str, (i32, i32)),
>)
    ensures
        match r {
            None => service_marker_of(*plot) is None,
            Some((kind, label, tile)) => service_marker_of(*plot) == Some((kind, label@, tile)),
        },
{
    let fallback_tile = plot.root_tile;
    let (kind, label): (OriginalSiteMarkerKind, &'static str) = match plot.kind {
        ServicePlotKind::AirshipDock | ServicePlotKind::CoastalAirshipDock
        | ServicePlotKind::CliffTownAirshipDock | ServicePlotKind::DesertCityAirshipDock
        | ServicePlotKind::SavannahAirshipDock => (OriginalSiteMarkerKind::Captain, "airship dock"),
        ServicePlotKind::Workshop | ServicePlotKind::CoastalWorkshop
        | ServicePlotKind::SavannahWorkshop | ServicePlotKind::DesertCityMultiPlot => (
            OriginalSiteMarkerKind::Trader,
            "workshop",
        ),
        ServicePlotKind::Tavern => (OriginalSiteMarkerKind::Trader, "tavern"),
        ServicePlotKind::Plaza => (OriginalSiteMarkerKind::Market, "board"),
        ServicePlotKind::Other => {
            return None;
        },
    };
    let tile = match plot.meta {
        Some(PlotMeta::AirshipDock { door_tile })
        | Some(PlotMeta::House { door_tile })
        | Some(PlotMeta::Other { door_tile }) => door_tile,
        Some(PlotMeta::Workshop { maybe_door_tile }) => match maybe_door_tile {
            Some(t) => t,
            None => fallback_tile,
        },
        Some(PlotMeta::Dungeon) | None => fallback_tile,
    };
    Some((kind, label, tile))
}

/// The tile where the preview player starts in a site: the root tile of its first
/// plaza, else the first door tile that a plot names.
pub open spec fn start_tile_of(first_plaza_root: Option<(i32, i32)>, plots: Seq<PlotInfo>) -> Option<
    (i32, i32),
>
    decreases plots.len(),
{
    if first_plaza_root is Some {
        first_plaza_root
    } else if plots.len() == 0 {
        None
    } else {
        let first = match plots[0].meta {
            Some(m) => door_tile_of(m),
            None => None,
        };
        if first is Some {
            first
        } else {
            start_tile_of(None, plots.drop_first())
        }
    }
}

pub fn site_start_tile(first_plaza_root: Option<(i32, i32)>, plots: &[PlotInfo]) -> (r: Option<
    (i32, i32),
>)
    ensures
        r == start_tile_of(first_plaza_root, plots@),
{
    if first_plaza_root.is_some() {
        return first_plaza_root;
    }
    let mut i: usize = 0;
    assert(plots@.skip(0) =~= plots@);
    while i < plots.len()
        invariant
            i <= plots.len(),
            first_plaza_root is None,
            start_tile_of(first_plaza_root, plots@) == start_tile_of(None, plots@.skip(i as int)),
        decreases plots.len() - i,
    {
        assert(plots@.skip(i as int)[0] == plots@[i as int]);
        assert(plots@.skip(i as int).drop_first() =~= plots@.skip(i + 1));
        let door = match plots[i].meta {
            Some(m) => door_tile(m),
            None => None,
        };
        if door.is_some() {
            return door;
        }
        i = i + 1;
    }
    None
}

/// How many markers near the player are townsfolk (guards, adventurers), traders
/// (traders, captains) and market boards.
pub open spec fn tally_of(kinds: Seq<OriginalSiteMarkerKind>) -> (nat, nat, nat)
    decreases kinds.len(),
{
    if kinds.len() == 0 {
        (0, 0, 0)
    } else {
        let (n, t, m) = tally_of(kinds.drop_last());
        match kinds.last() {
            OriginalSiteMarkerKind::Trader | OriginalSiteMarkerKind::Captain => (n, t + 1, m),
            OriginalSiteMarkerKind::Market => (n, t, m + 1),
            OriginalSiteMarkerKind::Guard | OriginalSiteMarkerKind::Adventurer => (n + 1, t, m),
        }
    }
}

proof fn lemma_tally_bound(kinds: Seq<OriginalSiteMarkerKind>)
    ensures
        tally_of(kinds).0 + tally_of(kinds).1 + tally_of(kinds).2 == kinds.len(),
    decreases kinds.len(),
{
    if kinds.len() > 0 {
        lemma_tally_bound(kinds.drop_last());
    }
}

pub fn site_marker_tally(kinds: &[OriginalSiteMarkerKind]) -> (r: (usize, usize, usize))
    ensures
        (r.0 as nat, r.1 as nat, r.2 as nat) == tally_of(kinds@),
{
    let mut npc: usize = 0;
    let mut trader: usize = 0;
    let mut market: usize = 0;
    let mut i: usize = 0;
    while i < kinds.len()
        invariant
            i <= kinds.len(),
            (npc as nat, trader as nat, market as nat) == tally_of(kinds@.take(i as int)),
        decreases kinds.len() - i,
    {
        assert(kinds@.take(i + 1).drop_last() =~= kinds@.take(i as int));
        assert(kinds@.take(i + 1).last() == kinds@[i as int]);
        proof {
            lemma_tally_bound(kinds@.take(i as int));
        }
        match kinds[i] {
            OriginalSiteMarkerKind::Trader | OriginalSiteMarkerKind::Captain => trader = trader + 1,
            OriginalSiteMarkerKind::Market => market = market + 1,
            OriginalSiteMarkerKind::Guard | OriginalSiteMarkerKind::Adventurer => npc = npc + 1,
        }
        i = i + 1;
    }
    assert(kinds@.take(kinds.len() as int) =~= kinds@);
    (npc, trader, market)
}

/// Every marker near the player is counted exactly once.
pub proof fn law_tally_counts_every_marker(kinds: Seq<OriginalSiteMarkerKind>)
    ensures
        tally_of(kinds).0 + tally_of(kinds).1 + tally_of(kinds).2 == kinds.len(),
{
    lemma_tally_bound(kinds);
}

/// A marker that a site gets, before it is placed in the world.
#[derive(Clone, Copy, Debug)]
pub struct MarkerPlan {
    pub kind: OriginalSiteMarkerKind,
    pub label: &'static str,
    pub tile: (i32, i32),
    /// The member's place in the settlement roster (which spreads markers that
    /// share a tile); `None` for the marker of a service plot.
    pub roster_index: Option<usize>,
}

pub open spec fn plan_view(p: MarkerPlan) -> (OriginalSiteMarkerKind, Seq<char>, (i32, i32), Option<
    usize,
>) {
    (p.kind, p.label@, p.tile, p.roster_index)
}

/// The markers of the service plots, in plot order.
pub open spec fn service_plans_of(plots: Seq<PlotInfo>) -> Seq<
    (OriginalSiteMarkerKind, Seq<char>, (i32, i32), Option<usize>),
>
    decreases plots.len(),
{
    if plots.len() == 0 {
        Seq::empty()
    } else {
        let rest = service_plans_of(plots.drop_last());
        match service_marker_of(plots.last()) {
            Some((kind, label, tile)) => rest.push((kind, label, tile, None)),
            None => rest,
        }
    }
}

/// The markers of a settlement's roster: each member's marker on the spawn tiles
/// in turn, with its roster index.
pub open spec fn roster_plans_of(roster: Seq<Profession>, tiles: Seq<(i32, i32)>) -> Seq<
    (OriginalSiteMarkerKind, Seq<char>, (i32, i32), Option<usize>),
> {
    Seq::new(
        roster.len(),
        |i: int|
            (
                profession_marker_of(roster[i]).0,
                profession_marker_of(roster[i]).1,
                tiles[i % tiles.len() as int],
                Some(i as usize),
            ),
    )
}

/// The markers of a site: those of its service plots, then, for a settlement,
/// those of its simulated population.
pub open spec fn site_plan_of(plots: Seq<PlotInfo>, settlement: bool, plaza_roots: Seq<(i32, i32)>) -> Seq<
    (OriginalSiteMarkerKind, Seq<char>, (i32, i32), Option<usize>),
> {
    let services = service_plans_of(plots);
    if !settlement {
        services
    } else {
        let (g, a, m, t) = roster_counts_of(plots.len());
        services + roster_plans_of(roster_of(g, a, m, t), npc_spawn_tiles_of(plots, plaza_roots))
    }
}

/// The markers of a site in the order they are placed.
pub fn site_marker_plan(plots: &[PlotInfo], settlement: bool, plaza_roots: &[(i32, i32)]) -> (r:
    Vec<MarkerPlan>)
    requires
        plots@.len() + plots@.len() / 6 + 1 <= usize::MAX,
    ensures
        r@.map_values(|p: MarkerPlan| plan_view(p)) == site_plan_of(
            plots@,
            settlement,
            plaza_roots@,
        ),
{
    let mut out: Vec<MarkerPlan> = Vec::new();
    let mut i: usize = 0;
    while i < plots.len()
        invariant
            i <= plots.len(),
            out@.map_values(|p: MarkerPlan| plan_view(p)) == service_plans_of(plots@.take(i as int)),
        decreases plots.len() - i,
    {
        assert(plots@.take(i + 1).drop_last() =~= plots@.take(i as int));
        assert(plots@.take(i + 1).last() == plots@[i as int]);
        let ghost before = out@;
        match marker_from_service_plot(&plots[i]) {
            Some((kind, label, tile)) => {
                let plan = MarkerPlan { kind, label, tile, roster_index: None };
                out.push(plan);
                assert(out@.map_values(|p: MarkerPlan| plan_view(p)) =~= before.map_values(
                    |p: MarkerPlan| plan_view(p),
                ).push(plan_view(plan)));
            },
            None => {},
        }
        i = i + 1;
    }
    assert(plots@.take(plots.len() as int) =~= plots@);
    if !settlement {
        return out;
    }
    let ghost services = out@.map_values(|p: MarkerPlan| plan_view(p));
    let (guards, adventurers, merchants, town) = site_roster_counts(plots.len());
    proof {
        law_roster_size(plots@.len());
    }
    let roster = rtsim_site_roster(guards, adventurers, merchants, town);
    let tiles = site_npc_spawn_tiles(plots, plaza_roots);
    let ghost plans = roster_plans_of(roster@, tiles@);
    let mut j: usize = 0;
    while j < roster.len()
        invariant
            j <= roster.len(),
            tiles@.len() > 0,
            plans == roster_plans_of(roster@, tiles@),
            out@.map_values(|p: MarkerPlan| plan_view(p)) == services + plans.take(j as int),
        decreases roster.len() - j,
    {
        let (kind, label) = marker_from_rtsim_profession(roster[j]);
        let tile = roster_spawn_tile(tiles.as_slice(), j);
        let plan = MarkerPlan { kind, label, tile, roster_index: Some(j) };
        let ghost before = out@;
        out.push(plan);
        assert(out@.map_values(|p: MarkerPlan| plan_view(p)) =~= before.map_values(
            |p: MarkerPlan| plan_view(p),
        ).push(plan_view(plan)));
        assert(plans.take(j + 1) =~= plans.take(j as int).push(plans[j as int]));
        assert(services + plans.take(j + 1) =~= (services + plans.take(j as int)).push(
            plans[j as int],
        ));
        j = j + 1;
    }
    assert(plans.take(roster.len() as int) =~= plans);
    out
}

/// The population groups that the simulation wants, as far as the preview counts
/// them.
#[derive(Clone, Copy, PartialEq, Eq, Debug)]
pub enum TrackedPopulation {
    Merchants,
    OtherTownNpcs,
    Guards,
    /// Any other group.
    Other,
}

/// Counts of the simulated world shown by the preview.
#[derive(Clone, Copy, PartialEq, Eq, Debug)]
pub struct RtsimPreviewStats {
    pub sites: usize,
    pub existing_npcs: usize,
    pub wanted_population: usize,
    pub wanted_merchants: usize,
    pub wanted_guards: usize,
}

/// The wanted merchants (merchants and other town people) and guards among the
/// wanted groups.
pub open spec fn wanted_counts(wanted: Seq<(TrackedPopulation, u32)>) -> (nat, nat)
    decreases wanted.len(),
{
    if wanted.len() == 0 {
        (0, 0)
    } else {
        let (m, g) = wanted_counts(wanted.drop_last());
        let (group, count) = wanted.last();
        match group {
            TrackedPopulation::Merchants | TrackedPopulation::OtherTownNpcs => (m + count as nat, g),
            TrackedPopulation::Guards => (m, g + count as nat),
            TrackedPopulation::Other => (m, g),
        }
    }
}

proof fn lemma_wanted_counts_prefix(w: Seq<(TrackedPopulation, u32)>, k: int)
    requires
        0 <= k <= w.len(),
    ensures
        wanted_counts(w.take(k)).0 <= wanted_counts(w).0,
        wanted_counts(w.take(k)).1 <= wanted_counts(w).1,
    decreases w.len() - k,
{
    if k == w.len() {
        assert(w.take(k) =~= w);
    } else {
        lemma_wanted_counts_prefix(w, k + 1);
        assert(w.take(k + 1).drop_last() =~= w.take(k));
    }
}

impl RtsimPreviewStats {
    /// The preview counts from the simulation's sites, its existing NPCs, the total
    /// population it wants, and the wanted count of each group.
    pub fn from_counts(
        sites: usize,
        existing_npcs: usize,
        wanted_total: usize,
        wanted: &[(TrackedPopulation, u32)],
    ) -> (r: Self)
        requires
            wanted_counts(wanted@).0 <= usize::MAX,
            wanted_counts(wanted@).1 <= usize::MAX,
        ensures
            r.sites == sites,
            r.existing_npcs == existing_npcs,
            r.wanted_population == wanted_total,
            (r.wanted_merchants as nat, r.wanted_guards as nat) == wanted_counts(wanted@),
    {
        let mut merchants: usize = 0;
        let mut guards: usize = 0;
        let mut i: usize = 0;
        while i < wanted.len()
            invariant
                i <= wanted.len(),
                (merchants as nat, guards as nat) == wanted_counts(wanted@.take(i as int)),
                wanted_counts(wanted@).0 <= usize::MAX,
                wanted_counts(wanted@).1 <= usize::MAX,
            decreases wanted.len() - i,
        {
            proof {
                assert(wanted@.take(i + 1).drop_last() =~= wanted@.take(i as int));
                assert(wanted@.take(i + 1).last() == wanted@[i as int]);
                lemma_wanted_counts_prefix(wanted@, i + 1);
            }
            let (group, count) = wanted[i];
            match group {
                TrackedPopulation::Merchants | TrackedPopulation::OtherTownNpcs => {
                    merchants = merchants + count as usize;
                },
                TrackedPopulation::Guards => {
                    guards = guards + count as usize;
                },
                TrackedPopulation::Other => {},
            }
            i = i + 1;
        }
        assert(wanted@.take(wanted.len() as int) =~= wanted@);
        RtsimPreviewStats {
            sites,
            existing_npcs,
            wanted_population: wanted_total,
            wanted_merchants: merchants,
            wanted_guards: guards,
        }
    }
}

/// Which service plots get a marker: every airship dock a captain at the
/// "airship dock", every workshop a trader at the "workshop", a tavern a trader at
/// the "tavern", a plaza the market "board"; only other plots get none. The marker
/// stands on the plot's door tile when its description names one, else on its
/// root tile.
pub proof fn law_service_plot_markers(plot: PlotInfo)
    ensures
        (service_marker_of(plot) is None) <==> plot.kind == ServicePlotKind::Other,
        (plot.kind == ServicePlotKind::AirshipDock || plot.kind == ServicePlotKind::CoastalAirshipDock
            || plot.kind == ServicePlotKind::CliffTownAirshipDock || plot.kind
            == ServicePlotKind::DesertCityAirshipDock || plot.kind
            == ServicePlotKind::SavannahAirshipDock) ==> (service_marker_of(plot) matches Some(
            (k, l, _),
        ) && k == OriginalSiteMarkerKind::Captain && l == "airship dock"@),
        (plot.kind == ServicePlotKind::Workshop || plot.kind == ServicePlotKind::CoastalWorkshop
            || plot.kind == ServicePlotKind::SavannahWorkshop || plot.kind
            == ServicePlotKind::DesertCityMultiPlot) ==> (service_marker_of(plot) matches Some(
            (k, l, _),
        ) && k == OriginalSiteMarkerKind::Trader && l == "workshop"@),
        plot.kind == ServicePlotKind::Tavern ==> (service_marker_of(plot) matches Some((k, l, _))
            && k == OriginalSiteMarkerKind::Trader && l == "tavern"@),
        plot.kind == ServicePlotKind::Plaza ==> (service_marker_of(plot) matches Some((k, l, _))
            && k == OriginalSiteMarkerKind::Market && l == "board"@),
        service_marker_of(plot) matches Some((_, _, t)) ==> t == match plot.meta {
            Some(PlotMeta::House { door_tile }) => door_tile,
            Some(PlotMeta::Other { door_tile }) => door_tile,
            Some(PlotMeta::AirshipDock { door_tile }) => door_tile,
            Some(PlotMeta::Workshop { maybe_door_tile: Some(d) }) => d,
            _ => plot.root_tile,
        },
{
}

/// The marker of each simulated profession: the seven trading professions
/// (merchant, farmer, herbalist, blacksmith, chef, alchemist, hunter) are traders
/// labelled with their profession; guards, pirates and cultists are guards;
/// captains are captains and adventurers adventurers.
pub proof fn law_profession_markers(p: Profession)
    ensures
        (profession_marker_of(p).0 == OriginalSiteMarkerKind::Trader) <==> (p is Merchant
            || p is Farmer || p is Herbalist || p is Blacksmith || p is Chef || p is Alchemist
            || p is Hunter),
        (profession_marker_of(p).0 == OriginalSiteMarkerKind::Guard) <==> (p is Guard || p is Pirate
            || p is Cultist),
        (profession_marker_of(p).0 == OriginalSiteMarkerKind::Captain) <==> p is Captain,
        (profession_marker_of(p).0 == OriginalSiteMarkerKind::Adventurer) <==> p is Adventurer,
        p is Merchant ==> profession_marker_of(p).1 == "merchant"@,
        p is Farmer ==> profession_marker_of(p).1 == "farmer"@,
        p is Herbalist ==> profession_marker_of(p).1 == "herbalist"@,
        p is Blacksmith ==> profession_marker_of(p).1 == "blacksmith"@,
        p is Chef ==> profession_marker_of(p).1 == "chef"@,
        p is Alchemist ==> profession_marker_of(p).1 == "alchemist"@,
        p is Hunter ==> profession_marker_of(p).1 == "hunter"@,
        p is Guard ==> profession_marker_of(p).1 == "rtsim guard"@,
        p is Captain ==> profession_marker_of(p).1 == "rtsim captain"@,
        p is Adventurer ==> profession_marker_of(p).1 == "adventurer"@,
        p == Profession::Pirate(false) ==> profession_marker_of(p).1 == "pirate"@,
        p == Profession::Pirate(true) ==> profession_marker_of(p).1 == "pirate captain"@,
        p is Cultist ==> profession_marker_of(p).1 == "cultist"@,
{
}

/// The words for site markers: each kind is named after itself, traders and
/// market boards offer a trade preview, captains and adventurers talk, guards
/// talk as guards.
pub proof fn law_site_marker_words(kind: OriginalSiteMarkerKind)
    ensures
        kind == OriginalSiteMarkerKind::Trader ==> role_label_of(kind) == "trader"@,
        kind == OriginalSiteMarkerKind::Market ==> role_label_of(kind) == "market"@,
        kind == OriginalSiteMarkerKind::Captain ==> role_label_of(kind) == "captain"@,
        kind == OriginalSiteMarkerKind::Guard ==> role_label_of(kind) == "guard"@,
        kind == OriginalSiteMarkerKind::Adventurer ==> role_label_of(kind) == "adventurer"@,
        (kind == OriginalSiteMarkerKind::Trader || kind == OriginalSiteMarkerKind::Market)
            ==> action_verb_of(kind) == "open trade preview"@,
        (kind == OriginalSiteMarkerKind::Captain || kind == OriginalSiteMarkerKind::Adventurer)
            ==> action_verb_of(kind) == "talk preview"@,
        kind == OriginalSiteMarkerKind::Guard ==> action_verb_of(kind) == "talk guard"@,
{
}

/// The population of a town of `n` plots: one guard for every full four plots,
/// one adventurer for every full five, one merchant for every full six plus one,
/// and a townsperson for every plot left after the guards and adventurers.
pub proof fn law_roster_counts(n: nat)
    ensures
        ({
            let (g, a, m, t) = roster_counts_of(n);
            &&& 4 * g <= n < 4 * (g + 1)
            &&& 5 * a <= n < 5 * (a + 1)
            &&& 6 * (m - 1) <= n < 6 * m
            &&& g + a + t == n
        }),
{
}

} // verus!
