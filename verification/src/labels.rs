//! Labels and marker shapes of generated entities and terrain props.
use crate::sites::OriginalSiteMarkerKind;
use crate::text::same_text;
use vstd::prelude::*;

verus! {

broadcast use vstd::string::group_string_axioms;

/// The silhouettes that entity markers are drawn with.
#[derive(Clone, Copy, PartialEq, Eq, Debug)]
pub enum OriginalEntityMarkerShape {
    Humanoid,
    Quadruped,
    Flyer,
    Fish,
    Large,
    Object,
}

/// The body categories of generated entities.
#[derive(Clone, Copy, PartialEq, Eq, Debug)]
pub enum BodyKind {
    Humanoid,
    BipedSmall,
    BipedLarge,
    QuadrupedSmall,
    QuadrupedMedium,
    QuadrupedLow,
    Theropod,
    BirdMedium,
    BirdLarge,
    Dragon,
    FishSmall,
    FishMedium,
    Golem,
    Object,
    Item,
    Ship,
    Crustacean,
    Arthropod,
    Plugin,
}

pub open spec fn body_label_of(body: BodyKind) -> Seq<char> {
    match body {
        BodyKind::Humanoid => "humanoid"@,
        BodyKind::BipedSmall => "small biped"@,
        BodyKind::BipedLarge => "large biped"@,
        BodyKind::QuadrupedSmall => "small quadruped"@,
        BodyKind::QuadrupedMedium => "quadruped"@,
        BodyKind::QuadrupedLow => "low quadruped"@,
        BodyKind::Theropod => "theropod"@,
        BodyKind::BirdMedium => "bird"@,
        BodyKind::BirdLarge => "large bird"@,
        BodyKind::Dragon => "dragon"@,
        BodyKind::FishSmall => "small fish"@,
        BodyKind::FishMedium => "fish"@,
        BodyKind::Golem => "golem"@,
        BodyKind::Object => "object"@,
        BodyKind::Item => "item"@,
        BodyKind::Ship => "ship"@,
        BodyKind::Crustacean => "crustacean"@,
        BodyKind::Arthropod => "arthropod"@,
        BodyKind::Plugin => "plugin"@,
    }
}

/// The word for an entity's body.
pub fn entity_body_label(body: BodyKind) -> (r: &'static str)
    ensures
        r@ == body_label_of(body),
{
    match body {
        BodyKind::Humanoid => "humanoid",
        BodyKind::BipedSmall => "small biped",
        BodyKind::BipedLarge => "large biped",
        BodyKind::QuadrupedSmall => "small quadruped",
        BodyKind::QuadrupedMedium => "quadruped",
        BodyKind::QuadrupedLow => "low quadruped",
        BodyKind::Theropod => "theropod",
        BodyKind::BirdMedium => "bird",
        BodyKind::BirdLarge => "large bird",
        BodyKind::Dragon => "dragon",
        BodyKind::FishSmall => "small fish",
        BodyKind::FishMedium => "fish",
        BodyKind::Golem => "golem",
        BodyKind::Object => "object",
        BodyKind::Item => "item",
        BodyKind::Ship => "ship",
        BodyKind::Crustacean => "crustacean",
        BodyKind::Arthropod => "arthropod",
        BodyKind::Plugin => "plugin",
    }
}

/// The marker silhouette for a body.
pub open spec fn body_shape_of(body: BodyKind) -> OriginalEntityMarkerShape {
    match body {
        BodyKind::Humanoid | BodyKind::BipedSmall | BodyKind::BipedLarge => {
            OriginalEntityMarkerShape::Humanoid
        },
        BodyKind::QuadrupedSmall | BodyKind::QuadrupedMedium | BodyKind::QuadrupedLow
        | BodyKind::Theropod | BodyKind::Crustacean | BodyKind::Arthropod => {
            OriginalEntityMarkerShape::Quadruped
        },
        BodyKind::BirdMedium | BodyKind::BirdLarge | BodyKind::Dragon => {
            OriginalEntityMarkerShape::Flyer
        },
        BodyKind::FishSmall | BodyKind::FishMedium => OriginalEntityMarkerShape::Fish,
        BodyKind::Golem | BodyKind::Ship => OriginalEntityMarkerShape::Large,
        BodyKind::Object | BodyKind::Item | BodyKind::Plugin => OriginalEntityMarkerShape::Object,
    }
}

pub fn entity_marker_shape(body: BodyKind) -> (r: OriginalEntityMarkerShape)
    ensures
        r == body_shape_of(body),
{
    match body {
        BodyKind::Humanoid | BodyKind::BipedSmall | BodyKind::BipedLarge => {
            OriginalEntityMarkerShape::Humanoid
        },
        BodyKind::QuadrupedSmall | BodyKind::QuadrupedMedium | BodyKind::QuadrupedLow
        | BodyKind::Theropod | BodyKind::Crustacean | BodyKind::Arthropod => {
            OriginalEntityMarkerShape::Quadruped
        },
        BodyKind::BirdMedium | BodyKind::BirdLarge | BodyKind::Dragon => {
            OriginalEntityMarkerShape::Flyer
        },
        BodyKind::FishSmall | BodyKind::FishMedium => OriginalEntityMarkerShape::Fish,
        BodyKind::Golem | BodyKind::Ship => OriginalEntityMarkerShape::Large,
        BodyKind::Object | BodyKind::Item | BodyKind::Plugin => OriginalEntityMarkerShape::Object,
    }
}

/// Site markers are drawn as people, except market boards, drawn as objects.
pub fn site_marker_shape(kind: OriginalSiteMarkerKind) -> (r: OriginalEntityMarkerShape)
    ensures
        r == if kind == OriginalSiteMarkerKind::Market {
            OriginalEntityMarkerShape::Object
        } else {
            OriginalEntityMarkerShape::Humanoid
        },
{
    match kind {
        OriginalSiteMarkerKind::Market => OriginalEntityMarkerShape::Object,
        _ => OriginalEntityMarkerShape::Humanoid,
    }
}

/// How a generated entity stands towards the player.
#[derive(Clone, Copy, PartialEq, Eq, Debug)]
pub enum EntityAlignment {
    Enemy,
    Npc,
    Tame,
    Owned,
    Passive,
    Wild,
}

/// The special entities of the world.
#[derive(Clone, Copy, PartialEq, Eq, Debug)]
pub enum SpecialEntityKind {
    Waypoint,
    Teleporter,
    ArenaTotem,
}

/// What the role of a generated entity depends on.
#[derive(Clone, Copy, PartialEq, Eq, Debug)]
pub struct EntityRoleInfo {
    /// The entity carries trading information.
    pub trades: bool,
    pub special: Option<SpecialEntityKind>,
    pub has_agency: bool,
    pub alignment: EntityAlignment,
}

/// The role of an entity: traders first, then special entities, then by
/// alignment when the entity acts on its own, else a static entity.
pub open spec fn role_label_of(info: EntityRoleInfo) -> Seq<char> {
    if info.trades {
        "trader"@
    } else if info.special is Some {
        match info.special->0 {
            SpecialEntityKind::Waypoint => "waypoint"@,
            SpecialEntityKind::Teleporter => "teleporter"@,
            SpecialEntityKind::ArenaTotem => "arena totem"@,
        }
    } else if info.has_agency {
        match info.alignment {
            EntityAlignment::Enemy => "enemy"@,
            EntityAlignment::Npc => "npc"@,
            EntityAlignment::Tame | EntityAlignment::Owned => "ally"@,
            EntityAlignment::Passive => "passive"@,
            EntityAlignment::Wild => "wild"@,
        }
    } else {
        "static"@
    }
}

pub fn entity_role_label(info: &EntityRoleInfo) -> (r: &'static str)
    ensures
        r@ == role_label_of(*info),
{
    if info.trades {
        "trader"
    } else if let Some(special) = info.special {
        match special {
            SpecialEntityKind::Waypoint => "waypoint",
            SpecialEntityKind::Teleporter => "teleporter",
            SpecialEntityKind::ArenaTotem => "arena totem",
        }
    } else if info.has_agency {
        match info.alignment {
            EntityAlignment::Enemy => "enemy",
            EntityAlignment::Npc => "npc",
            EntityAlignment::Tame | EntityAlignment::Owned => "ally",
            EntityAlignment::Passive => "passive",
            EntityAlignment::Wild => "wild",
        }
    } else {
        "static"
    }
}

/// The verb of the interaction with an entity of a given role.
pub open spec fn entity_verb_of(role: Seq<char>) -> Seq<char> {
    if role == "trader"@ {
        "open trade preview"@
    } else if role == "waypoint"@ {
        "focus waypoint"@
    } else if role == "teleporter"@ {
        "focus teleporter"@
    } else if role == "enemy"@ {
        "target enemy"@
    } else if role == "npc"@ {
        "talk preview"@
    } else if role == "ally"@ || role == "passive"@ || role == "wild"@ {
        "inspect creature"@
    } else {
        "inspect entity"@
    }
}

pub fn entity_action_verb(role: &str) -> (r: &'static str)
    ensures
        r@ == entity_verb_of(role@),
{
    if same_text(role, "trader") {
        "open trade preview"
    } else if same_text(role, "waypoint") {
        "focus waypoint"
    } else if same_text(role, "teleporter") {
        "focus teleporter"
    } else if same_text(role, "enemy") {
        "target enemy"
    } else if same_text(role, "npc") {
        "talk preview"
    } else if same_text(role, "ally") || same_text(role, "passive") || same_text(role, "wild") {
        "inspect creature"
    } else {
        "inspect entity"
    }
}

/// The categories of terrain sprites.
#[derive(Clone, Copy, PartialEq, Eq, Debug)]
pub enum SpriteCategory {
    Void,
    Plant,
    Resource,
    MineableResource,
    Furniture,
    StructuralPart,
    Decor,
    Lamp,
    Container,
    Modular,
    Misc,
}

/// What the interaction label of a terrain sprite depends on.
#[derive(Clone, Copy, PartialEq, Eq, Debug)]
pub struct SpriteTraits {
    pub is_container: bool,
    /// The sprite is one of the keyholes.
    pub is_unlock: bool,
    /// The sprite needs a tool to mine.
    pub mineable: bool,
    pub collectible: bool,
    pub category: SpriteCategory,
}

/// The interaction that a terrain sprite offers.
pub open spec fn sprite_label_of(t: SpriteTraits) -> Seq<char> {
    if t.is_container {
        "container"@
    } else if t.is_unlock {
        "unlock"@
    } else if t.mineable {
        "mine"@
    } else if t.collectible {
        if t.category == SpriteCategory::Plant || t.category == SpriteCategory::Resource {
            "collect"@
        } else {
            "interact"@
        }
    } else if t.category == SpriteCategory::Lamp {
        "light"@
    } else if t.category == SpriteCategory::Furniture || t.category == SpriteCategory::StructuralPart
        || t.category == SpriteCategory::Modular {
        "inspect"@
    } else {
        "prop"@
    }
}

pub fn sprite_interaction_label(traits: &SpriteTraits) -> (r: &'static str)
    ensures
        r@ == sprite_label_of(*traits),
{
    if traits.is_container {
        "container"
    } else if traits.is_unlock {
        "unlock"
    } else if traits.mineable {
        "mine"
    } else if traits.collectible {
        match traits.category {
            SpriteCategory::Plant | SpriteCategory::Resource => "collect",
            _ => "interact",
        }
    } else {
        match traits.category {
            SpriteCategory::Lamp => "light",
            SpriteCategory::Furniture | SpriteCategory::StructuralPart | SpriteCategory::Modular => {
                "inspect"
            },
            _ => "prop",
        }
    }
}

/// The debug label of a GPU buffer for markers.
pub open spec fn buffer_label_of(prefix: Seq<char>, kind: Seq<char>) -> Seq<char> {
    if prefix == "Player"@ && kind == "Vertex"@ {
        "Voxygen Web Player Marker Vertex Buffer"@
    } else if prefix == "Player"@ && kind == "Index"@ {
        "Voxygen Web Player Marker Index Buffer"@
    } else if prefix == "Entity"@ && kind == "Vertex"@ {
        "Voxygen Web Entity Marker Vertex Buffer"@
    } else if prefix == "Entity"@ && kind == "Index"@ {
        "Voxygen Web Entity Marker Index Buffer"@
    } else {
        "Voxygen Web Marker Buffer"@
    }
}

pub fn marker_buffer_label(prefix: &str, kind: &str) -> (r: &'static str)
    ensures
        r@ == buffer_label_of(prefix@, kind@),
{
    let player = same_text(prefix, "Player");
    let entity = same_text(prefix, "Entity");
    let vertex = same_text(kind, "Vertex");
    let index = same_text(kind, "Index");
    if player && vertex {
        "Voxygen Web Player Marker Vertex Buffer"
    } else if player && index {
        "Voxygen Web Player Marker Index Buffer"
    } else if entity && vertex {
        "Voxygen Web Entity Marker Vertex Buffer"
    } else if entity && index {
        "Voxygen Web Entity Marker Index Buffer"
    } else {
        "Voxygen Web Marker Buffer"
    }
}

/// The silhouette of each body: humanoids and bipeds stand upright; small,
/// medium and low quadrupeds, theropods, crustaceans and arthropods walk on all
/// fours; birds and dragons fly; fish swim; golems and ships are large; objects,
/// items and plugins are objects.
pub proof fn law_body_silhouettes(body: BodyKind)
    ensures
        (body_shape_of(body) == OriginalEntityMarkerShape::Humanoid) <==> (body
            == BodyKind::Humanoid || body == BodyKind::BipedSmall || body == BodyKind::BipedLarge),
        (body_shape_of(body) == OriginalEntityMarkerShape::Quadruped) <==> (body
            == BodyKind::QuadrupedSmall || body == BodyKind::QuadrupedMedium || body
            == BodyKind::QuadrupedLow || body == BodyKind::Theropod || body == BodyKind::Crustacean
            || body == BodyKind::Arthropod),
        (body_shape_of(body) == OriginalEntityMarkerShape::Flyer) <==> (body == BodyKind::BirdMedium
            || body == BodyKind::BirdLarge || body == BodyKind::Dragon),
        (body_shape_of(body) == OriginalEntityMarkerShape::Fish) <==> (body == BodyKind::FishSmall
            || body == BodyKind::FishMedium),
        (body_shape_of(body) == OriginalEntityMarkerShape::Large) <==> (body == BodyKind::Golem
            || body == BodyKind::Ship),
        (body_shape_of(body) == OriginalEntityMarkerShape::Object) <==> (body == BodyKind::Object
            || body == BodyKind::Item || body == BodyKind::Plugin),
{
}

/// The role of an entity: anything that trades is a trader; otherwise a special
/// entity is named by its kind; otherwise an entity that acts on its own is named
/// by its alignment (tame and owned ones are allies); anything else is static.
pub proof fn law_entity_roles(info: EntityRoleInfo)
    ensures
        info.trades ==> role_label_of(info) == "trader"@,
        !info.trades && info.special == Some(SpecialEntityKind::Waypoint) ==> role_label_of(info)
            == "waypoint"@,
        !info.trades && info.special == Some(SpecialEntityKind::Teleporter) ==> role_label_of(info)
            == "teleporter"@,
        !info.trades && info.special == Some(SpecialEntityKind::ArenaTotem) ==> role_label_of(info)
            == "arena totem"@,
        !info.trades && info.special is None && info.has_agency ==> role_label_of(info) == match info.alignment {
            EntityAlignment::Enemy => "enemy"@,
            EntityAlignment::Npc => "npc"@,
            EntityAlignment::Tame => "ally"@,
            EntityAlignment::Owned => "ally"@,
            EntityAlignment::Passive => "passive"@,
            EntityAlignment::Wild => "wild"@,
        },
        !info.trades && info.special is None && !info.has_agency ==> role_label_of(info)
            == "static"@,
{
}

/// What a terrain sprite offers, by priority: containers open, keyholes unlock,
/// what needs a tool is mined, collectible plants and resources are collected and
/// other collectibles interacted with, lamps are lit, furniture, structural parts
/// and modular pieces are inspected, and the rest are props.
pub proof fn law_sprite_interactions(t: SpriteTraits)
    ensures
        t.is_container ==> sprite_label_of(t) == "container"@,
        !t.is_container && t.is_unlock ==> sprite_label_of(t) == "unlock"@,
        !t.is_container && !t.is_unlock && t.mineable ==> sprite_label_of(t) == "mine"@,
        !t.is_container && !t.is_unlock && !t.mineable && t.collectible ==> sprite_label_of(t) == (
        if t.category == SpriteCategory::Plant || t.category == SpriteCategory::Resource {
            "collect"@
        } else {
            "interact"@
        }),
        !t.is_container && !t.is_unlock && !t.mineable && !t.collectible ==> sprite_label_of(t) == (
        if t.category == SpriteCategory::Lamp {
            "light"@
        } else if t.category == SpriteCategory::Furniture || t.category
            == SpriteCategory::StructuralPart || t.category == SpriteCategory::Modular {
            "inspect"@
        } else {
            "prop"@
        }),
{
}

/// What the player does to an entity of each role: open a trade preview with a
/// trader, focus a waypoint or teleporter, target an enemy, talk to an NPC,
/// inspect an ally, passive or wild creature, and inspect any other entity.
pub proof fn law_entity_verbs(role: Seq<char>)
    ensures
        role == "trader"@ ==> entity_verb_of(role) == "open trade preview"@,
        role == "waypoint"@ ==> entity_verb_of(role) == "focus waypoint"@,
        role == "teleporter"@ ==> entity_verb_of(role) == "focus teleporter"@,
        role == "enemy"@ ==> entity_verb_of(role) == "target enemy"@,
        role == "npc"@ ==> entity_verb_of(role) == "talk preview"@,
        role == "ally"@ || role == "passive"@ || role == "wild"@ ==> entity_verb_of(role)
            == "inspect creature"@,
        !(role == "trader"@ || role == "waypoint"@ || role == "teleporter"@ || role == "enemy"@
            || role == "npc"@ || role == "ally"@ || role == "passive"@ || role == "wild"@)
            ==> entity_verb_of(role) == "inspect entity"@,
{
    reveal_strlit("trader");
    assert("trader"@.len() == 6 && "trader"@[0] == 't');
    reveal_strlit("waypoint");
    assert("waypoint"@.len() == 8 && "waypoint"@[0] == 'w');
    reveal_strlit("teleporter");
    assert("teleporter"@.len() == 10 && "teleporter"@[0] == 't');
    reveal_strlit("enemy");
    assert("enemy"@.len() == 5 && "enemy"@[0] == 'e');
    reveal_strlit("npc");
    assert("npc"@.len() == 3 && "npc"@[0] == 'n');
    reveal_strlit("ally");
    assert("ally"@.len() == 4 && "ally"@[0] == 'a');
    reveal_strlit("passive");
    assert("passive"@.len() == 7 && "passive"@[0] == 'p');
    reveal_strlit("wild");
    assert("wild"@.len() == 4 && "wild"@[0] == 'w');
}

/// The debug labels of the marker buffers name the marker (player or entity) and
/// the buffer (vertex or index); any other pair gets the generic label.
pub proof fn law_marker_buffer_labels(prefix: Seq<char>, kind: Seq<char>)
    ensures
        prefix == "Player"@ && kind == "Vertex"@ ==> buffer_label_of(prefix, kind)
            == "Voxygen Web Player Marker Vertex Buffer"@,
        prefix == "Player"@ && kind == "Index"@ ==> buffer_label_of(prefix, kind)
            == "Voxygen Web Player Marker Index Buffer"@,
        prefix == "Entity"@ && kind == "Vertex"@ ==> buffer_label_of(prefix, kind)
            == "Voxygen Web Entity Marker Vertex Buffer"@,
        prefix == "Entity"@ && kind == "Index"@ ==> buffer_label_of(prefix, kind)
            == "Voxygen Web Entity Marker Index Buffer"@,
        !((prefix == "Player"@ || prefix == "Entity"@) && (kind == "Vertex"@ || kind == "Index"@))
            ==> buffer_label_of(prefix, kind) == "Voxygen Web Marker Buffer"@,
{
    reveal_strlit("Player");
    assert("Player"@.len() == 6 && "Player"@[0] == 'P');
    reveal_strlit("Entity");
    assert("Entity"@.len() == 6 && "Entity"@[0] == 'E');
    reveal_strlit("Vertex");
    assert("Vertex"@.len() == 6 && "Vertex"@[0] == 'V');
    reveal_strlit("Index");
    assert("Index"@.len() == 5 && "Index"@[0] == 'I');
}

} // verus!
