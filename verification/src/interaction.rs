//! The outcome of an interaction attempt in the world preview: which target in
//! reach wins, the text that reports it, and the trade panel it may open.
use crate::sites::{role_label_of, site_marker_role_label, OriginalSiteMarkerKind};
use vstd::prelude::*;
use vstd::string::StringExecFns;

verus! {

broadcast use vstd::string::group_string_axioms;

/// One ware of a trade panel, with its texts ready to show.
pub struct TradePanelWare {
    pub name: String,
    pub quality: String,
    pub buy: String,
    pub sell: String,
}

/// The trade panel that a trader or market board opens.
pub struct TradePanelPreview {
    pub title: String,
    pub stock: Vec<String>,
    pub wares: Vec<TradePanelWare>,
}

/// The outcome of an interaction attempt.
pub struct InteractionAttempt {
    pub summary: String,
    pub trade_panel: Option<TradePanelPreview>,
}

/// Which of two candidate targets is nearer.
#[derive(Clone, Copy, PartialEq, Eq, Debug)]
pub enum Nearer {
    First,
    Second,
    Neither,
}

/// The nearer of two optional targets, given their distances as bits of
/// non-negative `f32` values; on a tie the first wins.
pub open spec fn nearer_of_spec(first: Option<u32>, second: Option<u32>) -> Nearer {
    match (first, second) {
        (Some(a), Some(b)) => if a <= b {
            Nearer::First
        } else {
            Nearer::Second
        },
        (Some(_), None) => Nearer::First,
        (None, Some(_)) => Nearer::Second,
        (None, None) => Nearer::Neither,
    }
}

pub fn nearer_of(first: Option<u32>, second: Option<u32>) -> (r: Nearer)
    ensures
        r == nearer_of_spec(first, second),
{
    match (first, second) {
        (Some(a), Some(b)) => if a <= b {
            Nearer::First
        } else {
            Nearer::Second
        },
        (Some(_), None) => Nearer::First,
        (None, Some(_)) => Nearer::Second,
        (None, None) => Nearer::Neither,
    }
}

/// What is reported when nothing is in reach.
pub open spec fn no_target_text() -> Seq<char> {
    "no target in reach (terrain 5.0m, entity 14.0m)"@
}

/// A terrain prop in reach: its distance bits and the text of its action.
pub struct TerrainCandidate {
    pub distance_bits: u32,
    pub action: String,
}

/// An entity or site marker in reach: its distance bits, the text of its action,
/// and the trade panel it opens, if any.
pub struct EntityCandidate {
    pub distance_bits: u32,
    pub action: String,
    pub trade_panel: Option<TradePanelPreview>,
}

pub open spec fn terrain_key(t: Option<TerrainCandidate>) -> Option<u32> {
    match t {
        Some(c) => Some(c.distance_bits),
        None => None,
    }
}

pub open spec fn entity_key(e: Option<EntityCandidate>) -> Option<u32> {
    match e {
        Some(c) => Some(c.distance_bits),
        None => None,
    }
}

/// The interaction attempt: the nearer of the terrain prop and the entity acts
/// (the prop on a tie), and only an entity opens a trade panel; the summary is
/// `"Last interaction: <action>."`.
pub open spec fn attempt_matches(
    r: InteractionAttempt,
    terrain: Option<TerrainCandidate>,
    entity: Option<EntityCandidate>,
) -> bool {
    match nearer_of_spec(terrain_key(terrain), entity_key(entity)) {
        Nearer::First => r.summary@ == "Last interaction: "@ + terrain->0.action@ + "."@
            && r.trade_panel is None,
        Nearer::Second => r.summary@ == "Last interaction: "@ + entity->0.action@ + "."@
            && r.trade_panel == entity->0.trade_panel,
        Nearer::Neither => r.summary@ == "Last interaction: "@ + no_target_text() + "."@
            && r.trade_panel is None,
    }
}

pub fn interaction_attempt_for(
    terrain: Option<TerrainCandidate>,
    entity: Option<EntityCandidate>,
) -> (r: InteractionAttempt)
    ensures
        attempt_matches(r, terrain, entity),
{
    let choice = nearer_of(
        match &terrain {
            Some(c) => Some(c.distance_bits),
            None => None,
        },
        match &entity {
            Some(c) => Some(c.distance_bits),
            None => None,
        },
    );
    let mut summary = String::from_str("Last interaction: ");
    let mut trade_panel: Option<TradePanelPreview> = None;
    match choice {
        Nearer::First => {
            match terrain {
                Some(c) => summary.append(c.action.as_str()),
                None => {},
            }
        },
        Nearer::Second => {
            match entity {
                Some(c) => {
                    summary.append(c.action.as_str());
                    trade_panel = c.trade_panel;
                },
                None => {},
            }
        },
        Nearer::Neither => {
            summary.append("no target in reach (terrain 5.0m, entity 14.0m)");
        },
    }
    summary.append(".");
    InteractionAttempt { summary, trade_panel }
}

/// The title of a site marker's trade panel: `"<role> <label> - <site name>"`.
pub open spec fn panel_title_of(kind: OriginalSiteMarkerKind, label: Seq<char>, site_name: Seq<
    char,
>) -> Seq<char> {
    role_label_of(kind) + " "@ + label + " - "@ + site_name
}

pub fn trade_panel_title(kind: OriginalSiteMarkerKind, label: &str, site_name: &str) -> (r: String)
    ensures
        r@ == panel_title_of(kind, label@, site_name@),
{
    let mut title = String::from_str(site_marker_role_label(kind));
    title.append(" ");
    title.append(label);
    title.append(" - ");
    title.append(site_name);
    title
}

/// The text for an optional target: its summary, or `"none"`.
pub open spec fn target_text(t: Option<Seq<char>>) -> Seq<char> {
    match t {
        Some(text) => text,
        None => "none"@,
    }
}

/// The report of the nearest targets around the player:
/// `" Nearest terrain target: <terrain>. Nearest entity target: <entity>."`, with
/// `none` for a missing target.
pub open spec fn nearest_targets_text_of(terrain: Option<Seq<char>>, entity: Option<Seq<char>>) -> Seq<
    char,
> {
    " Nearest terrain target: "@ + target_text(terrain) + ". Nearest entity target: "@
        + target_text(entity) + "."@
}

pub fn nearest_targets_summary(terrain: Option<String>, entity: Option<String>) -> (r: String)
    ensures
        r@ == nearest_targets_text_of(
            match terrain {
                Some(t) => Some(t@),
                None => None,
            },
            match entity {
                Some(t) => Some(t@),
                None => None,
            },
        ),
{
    let mut out = String::from_str(" Nearest terrain target: ");
    match &terrain {
        Some(t) => out.append(t.as_str()),
        None => out.append("none"),
    }
    out.append(". Nearest entity target: ");
    match &entity {
        Some(t) => out.append(t.as_str()),
        None => out.append("none"),
    }
    out.append(".");
    out
}

/// Choosing the nearer of two candidates: the result is "neither" exactly when
/// both are missing; a present candidate wins over a missing one; of two present
/// candidates the one with the smaller distance wins, the first on a tie.
pub proof fn law_nearer_candidate(first: Option<u32>, second: Option<u32>)
    ensures
        (nearer_of_spec(first, second) == Nearer::Neither) <==> (first is None && second is None),
        first is Some && second is None ==> nearer_of_spec(first, second) == Nearer::First,
        first is None && second is Some ==> nearer_of_spec(first, second) == Nearer::Second,
        first is Some && second is Some ==> (nearer_of_spec(first, second) == Nearer::First
            <==> first->0 <= second->0),
        first is Some && second is Some ==> (nearer_of_spec(first, second) == Nearer::Second
            <==> second->0 < first->0),
{
}

/// An interaction attempt acts on what is in reach: a lone terrain prop or a lone
/// entity acts, of both the nearer acts (the prop on a tie), and the attempt
/// reports that nothing is in reach only when neither is; only an entity opens a
/// trade panel.
pub proof fn law_attempt_acts_on_target(
    r: InteractionAttempt,
    terrain: Option<TerrainCandidate>,
    entity: Option<EntityCandidate>,
)
    requires
        attempt_matches(r, terrain, entity),
    ensures
        terrain is Some && entity is None ==> r.summary@ == "Last interaction: "@
            + terrain->0.action@ + "."@ && r.trade_panel is None,
        terrain is None && entity is Some ==> r.summary@ == "Last interaction: "@
            + entity->0.action@ + "."@ && r.trade_panel == entity->0.trade_panel,
        terrain is Some && entity is Some && terrain->0.distance_bits <= entity->0.distance_bits
            ==> r.summary@ == "Last interaction: "@ + terrain->0.action@ + "."@
            && r.trade_panel is None,
        terrain is Some && entity is Some && entity->0.distance_bits < terrain->0.distance_bits
            ==> r.summary@ == "Last interaction: "@ + entity->0.action@ + "."@ && r.trade_panel
            == entity->0.trade_panel,
        terrain is None && entity is None ==> r.summary@ == "Last interaction: "@
            + "no target in reach (terrain 5.0m, entity 14.0m)"@ + "."@ && r.trade_panel is None,
{
}

} // verus!
