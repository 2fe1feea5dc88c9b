//! What the world preview shows of a settlement's trade: which sample wares a
//! trader of a given kind offers, which goods it stocks, the short names of
//! items, and the text of a trade summary.
use crate::sorting::{
    is_stable_sort, key_before, law_stable_sort_is_sorted_permutation, law_stable_sort_is_unique,
    stable_sort_by_key,
};
use crate::text::{
    chars_of, find_last, last_index_of, lemma_last_index_of, same_text, string_from_chars,
};
use vstd::prelude::*;
use vstd::string::StringExecFns;

verus! {

broadcast use vstd::string::group_string_axioms;

/// The sample wares for a trader label.
pub open spec fn sample_items_for(label: Seq<char>) -> Seq<Seq<char>> {
    if label == "farmer"@ {
        seq![
            "common.items.food.apple"@,
            "common.items.food.cheese"@,
            "common.items.food.lettuce"@,
        ]
    } else if label == "chef"@ || label == "tavern"@ {
        seq![
            "common.items.food.cheese"@,
            "common.items.food.meat.fish_cooked"@,
            "common.items.food.apple_mushroom_curry"@,
        ]
    } else if label == "herbalist"@ || label == "alchemist"@ {
        seq![
            "common.items.consumable.potion_minor"@,
            "common.items.crafting_ing.empty_vial"@,
            "common.items.crafting_ing.honey"@,
        ]
    } else if label == "blacksmith"@ || label == "workshop"@ {
        seq![
            "common.items.weapons.sword.starter"@,
            "common.items.mineral.ore.iron"@,
            "common.items.crafting_ing.stones"@,
        ]
    } else if label == "hunter"@ {
        seq![
            "common.items.weapons.bow.starter"@,
            "common.items.food.meat.beast_small_raw"@,
            "common.items.log.wood"@,
        ]
    } else if label == "board"@ || label == "merchant"@ {
        seq![
            "common.items.utility.coins"@,
            "common.items.consumable.potion_minor"@,
            "common.items.food.cheese"@,
        ]
    } else {
        seq![
            "common.items.utility.coins"@,
            "common.items.food.cheese"@,
            "common.items.consumable.potion_minor"@,
        ]
    }
}

/// The item ids that a trader with this label offers as samples.
pub fn trade_sample_items(label: &str) -> (r: &'static [&'static str])
    ensures
        r@.map_values(|s: &str| s@) == sample_items_for(label@),
{
    let r: &'static [&'static str] = if same_text(label, "farmer") {
        &["common.items.food.apple", "common.items.food.cheese", "common.items.food.lettuce"]
    } else if same_text(label, "chef") || same_text(label, "tavern") {
        &[
            "common.items.food.cheese",
            "common.items.food.meat.fish_cooked",
            "common.items.food.apple_mushroom_curry",
        ]
    } else if same_text(label, "herbalist") || same_text(label, "alchemist") {
        &[
            "common.items.consumable.potion_minor",
            "common.items.crafting_ing.empty_vial",
            "common.items.crafting_ing.honey",
        ]
    } else if same_text(label, "blacksmith") || same_text(label, "workshop") {
        &[
            "common.items.weapons.sword.starter",
            "common.items.mineral.ore.iron",
            "common.items.crafting_ing.stones",
        ]
    } else if same_text(label, "hunter") {
        &[
            "common.items.weapons.bow.starter",
            "common.items.food.meat.beast_small_raw",
            "common.items.log.wood",
        ]
    } else if same_text(label, "board") || same_text(label, "merchant") {
        &[
            "common.items.utility.coins",
            "common.items.consumable.potion_minor",
            "common.items.food.cheese",
        ]
    } else {
        &[
            "common.items.utility.coins",
            "common.items.food.cheese",
            "common.items.consumable.potion_minor",
        ]
    };
    assert(r@.map_values(|s: &str| s@) =~= sample_items_for(label@));
    r
}

/// The goods that a settlement trades in, as far as the preview tells them apart.
#[derive(Clone, Copy, PartialEq, Eq, Debug)]
pub enum TradeGood {
    Food,
    Potions,
    Stone,
    Wood,
    Ingredients,
    Tools,
    Armor,
    Coin,
    Recipe,
    Territory,
    Terrain,
    Transportation,
    RoadSecurity,
    /// Any other good (such as flour or meat).
    Other,
}

/// Which goods a trader with this label shows in its stock.
pub open spec fn good_allowed(label: Seq<char>, good: TradeGood) -> bool {
    if label == "farmer"@ || label == "chef"@ || label == "tavern"@ {
        good == TradeGood::Food || good == TradeGood::Coin
    } else if label == "herbalist"@ || label == "alchemist"@ {
        good == TradeGood::Potions || good == TradeGood::Stone || good == TradeGood::Wood || good
            == TradeGood::Ingredients || good == TradeGood::Coin
    } else if label == "blacksmith"@ || label == "workshop"@ {
        good == TradeGood::Armor || good == TradeGood::Tools || good == TradeGood::Coin
    } else if label == "hunter"@ {
        good == TradeGood::Tools || good == TradeGood::Food || good == TradeGood::Coin
    } else if label == "board"@ {
        good == TradeGood::Food || good == TradeGood::Potions || good == TradeGood::Stone || good
            == TradeGood::Wood || good == TradeGood::Ingredients || good == TradeGood::Tools
            || good == TradeGood::Armor || good == TradeGood::Coin || good == TradeGood::Recipe
    } else {
        !(good == TradeGood::Territory || good == TradeGood::Terrain || good
            == TradeGood::Transportation || good == TradeGood::RoadSecurity)
    }
}

pub fn trade_good_allowed(label: &str, good: TradeGood) -> (r: bool)
    ensures
        r == good_allowed(label@, good),
{
    if same_text(label, "farmer") || same_text(label, "chef") || same_text(label, "tavern") {
        matches!(good, TradeGood::Food | TradeGood::Coin)
    } else if same_text(label, "herbalist") || same_text(label, "alchemist") {
        matches!(
            good,
            TradeGood::Potions | TradeGood::Stone | TradeGood::Wood | TradeGood::Ingredients
                | TradeGood::Coin
        )
    } else if same_text(label, "blacksmith") || same_text(label, "workshop") {
        matches!(good, TradeGood::Armor | TradeGood::Tools | TradeGood::Coin)
    } else if same_text(label, "hunter") {
        matches!(good, TradeGood::Tools | TradeGood::Food | TradeGood::Coin)
    } else if same_text(label, "board") {
        matches!(
            good,
            TradeGood::Food | TradeGood::Potions | TradeGood::Stone | TradeGood::Wood
                | TradeGood::Ingredients | TradeGood::Tools | TradeGood::Armor | TradeGood::Coin
                | TradeGood::Recipe
        )
    } else {
        !matches!(
            good,
            TradeGood::Territory | TradeGood::Terrain | TradeGood::Transportation
                | TradeGood::RoadSecurity
        )
    }
}

/// Whether an amount, given as `f32` bits, is greater than zero: a positive
/// finite value or positive infinity.
pub open spec fn positive_amount(bits: u32) -> bool {
    0 < bits <= 0x7f80_0000
}

/// The stock entries that a trader shows: positive amounts of allowed goods.
pub open spec fn shown_stock(stock: Seq<(u32, TradeGood)>, label: Seq<char>) -> Seq<(u32, TradeGood)> {
    stock.filter(|e: (u32, TradeGood)| positive_amount(e.0) && good_allowed(label, e.1))
}

/// A stock summary: the shown entries, largest amount first (equal amounts in
/// their given order), at most three.
pub open spec fn stock_summary_of(
    out: Seq<(u32, TradeGood)>,
    stock: Seq<(u32, TradeGood)>,
    label: Seq<char>,
) -> bool {
    exists|sorted: Seq<(u32, TradeGood)>|
        is_stable_sort(sorted, shown_stock(stock, label), true) && out == sorted.take(
            if sorted.len() < 3 {
                sorted.len() as int
            } else {
                3
            },
        )
}

/// The stock that a trader shows, from the settlement's unconsumed stock given as
/// (amount bits, good) entries.
pub fn site_stock_summary(stock: Vec<(u32, TradeGood)>, label: &str) -> (r: Vec<(u32, TradeGood)>)
    ensures
        stock_summary_of(r@, stock@, label@),
{
    let ghost input = stock@;
    let ghost pred = |e: (u32, TradeGood)| positive_amount(e.0) && good_allowed(label@, e.1);
    let mut kept: Vec<(u32, TradeGood)> = Vec::new();
    let mut i: usize = 0;
    while i < stock.len()
        invariant
            i <= stock.len(),
            input == stock@,
            pred == (|e: (u32, TradeGood)| positive_amount(e.0) && good_allowed(label@, e.1)),
            kept@ == input.take(i as int).filter(pred),
        decreases stock.len() - i,
    {
        let entry = stock[i];
        proof {
            assert(input.take(i + 1) =~= input.take(i as int).push(entry));
            input.take(i as int).lemma_filter_push(entry, pred);
        }
        if 0 < entry.0 && entry.0 <= 0x7f80_0000 && trade_good_allowed(label, entry.1) {
            kept.push(entry);
        }
        i = i + 1;
    }
    assert(input.take(i as int) =~= input);
    assert(pred =~= (|e: (u32, TradeGood)| positive_amount(e.0) && good_allowed(label@, e.1)));
    assert(kept@ == shown_stock(input, label@));
    let mut sorted = stable_sort_by_key(kept, true);
    let ghost full = sorted@;
    sorted.truncate(3);
    assert(sorted@ =~= full.take(
        if full.len() < 3 {
            full.len() as int
        } else {
            3
        },
    ));
    sorted
}

/// The short name of an item id: its last dot-separated part, with underscores
/// turned into spaces.
pub open spec fn short_name_of(item_id: Seq<char>) -> Seq<char> {
    item_id.subrange(last_index_of(item_id, '.') + 1, item_id.len() as int).map_values(
        |c: char|
            if c == '_' {
                ' '
            } else {
                c
            },
    )
}

pub fn short_item_name(item_id: &str) -> (r: String)
    ensures
        r@ == short_name_of(item_id@),
{
    let cs = chars_of(item_id);
    assert(cs@.take(cs.len() as int) =~= cs@);
    let start = match find_last(&cs, cs.len(), '.') {
        None => 0,
        Some(k) => k + 1,
    };
    proof {
        lemma_last_index_of(cs@, '.');
    }
    let mut out: Vec<char> = Vec::new();
    let mut i = start;
    while i < cs.len()
        invariant
            start <= i <= cs.len(),
            start as int == last_index_of(cs@, '.') + 1,
            cs@ == item_id@,
            out@ == cs@.subrange(start as int, i as int).map_values(
                |c: char|
                    if c == '_' {
                        ' '
                    } else {
                        c
                    },
            ),
        decreases cs.len() - i,
    {
        let c = cs[i];
        out.push(if c == '_' { ' ' } else { c });
        assert(cs@.subrange(start as int, i + 1) =~= cs@.subrange(start as int, i as int).push(c));
        i = i + 1;
    }
    string_from_chars(out.as_slice())
}

/// `parts` joined with `sep` between them.
pub open spec fn joined(parts: Seq<Seq<char>>, sep: Seq<char>) -> Seq<char>
    decreases parts.len(),
{
    if parts.len() == 0 {
        Seq::empty()
    } else if parts.len() == 1 {
        parts[0]
    } else {
        joined(parts.drop_last(), sep) + sep + parts.last()
    }
}

/// Joins strings with a separator.
pub fn join_strings(parts: &[String], sep: &str) -> (r: String)
    ensures
        r@ == joined(parts@.map_values(|p: String| p@), sep@),
{
    let ghost views = parts@.map_values(|p: String| p@);
    let mut out = String::new();
    let mut i: usize = 0;
    while i < parts.len()
        invariant
            i <= parts.len(),
            views == parts@.map_values(|p: String| p@),
            out@ == joined(views.take(i as int), sep@),
        decreases parts.len() - i,
    {
        assert(views.take(i + 1).drop_last() =~= views.take(i as int));
        assert(views.take(i + 1).last() == parts@[i as int]@);
        if i > 0 {
            out.append(sep);
        } else {
            assert(views.take(0) =~= Seq::<Seq<char>>::empty());
            assert(views.take(1)[0] == parts@[0]@);
        }
        out.append(parts[i].as_str());
        i = i + 1;
    }
    assert(views.take(parts.len() as int) =~= views);
    out
}

/// The one-line summary of a trade preview from its formatted stock and ware
/// entries: `"stock <entries>; wares <entries>"`, with `"stock unavailable"` or
/// `"no priced wares"` for an empty side.
pub open spec fn trade_summary_of(stock: Seq<Seq<char>>, wares: Seq<Seq<char>>) -> Seq<char> {
    let stock_part = if stock.len() == 0 {
        "stock unavailable"@
    } else {
        "stock "@ + joined(stock, ", "@)
    };
    let wares_part = if wares.len() == 0 {
        "no priced wares"@
    } else {
        "wares "@ + joined(wares, ", "@)
    };
    stock_part + "; "@ + wares_part
}

pub fn trade_summary(stock: &[String], wares: &[String]) -> (r: String)
    ensures
        r@ == trade_summary_of(
            stock@.map_values(|p: String| p@),
            wares@.map_values(|p: String| p@),
        ),
{
    let mut out = if stock.len() == 0 {
        String::from_str("stock unavailable")
    } else {
        let mut s = String::from_str("stock ");
        let joined = join_strings(stock, ", ");
        s.append(joined.as_str());
        s
    };
    out.append("; ");
    if wares.len() == 0 {
        out.append("no priced wares");
    } else {
        out.append("wares ");
        let joined = join_strings(wares, ", ");
        out.append(joined.as_str());
    }
    out
}

/// A stock summary shows at most three entries, largest amount first, each a
/// positive amount of a good that the trader deals in, taken from the stock.
pub proof fn law_stock_summary(out: Seq<(u32, TradeGood)>, stock: Seq<(u32, TradeGood)>, label: Seq<char>)
    requires
        stock_summary_of(out, stock, label),
    ensures
        out.len() <= 3,
        forall|i: int, j: int| 0 <= i < j < out.len() ==> #[trigger] out[i].0 >= #[trigger] out[j].0,
        forall|i: int|
            0 <= i < out.len() ==> positive_amount((#[trigger] out[i]).0) && good_allowed(
                label,
                out[i].1,
            ) && stock.contains(out[i]),
{
    let sorted = choose|sorted: Seq<(u32, TradeGood)>|
        is_stable_sort(sorted, shown_stock(stock, label), true) && out == sorted.take(
            if sorted.len() < 3 {
                sorted.len() as int
            } else {
                3
            },
        );
    let pred = |e: (u32, TradeGood)| positive_amount(e.0) && good_allowed(label, e.1);
    let shown = shown_stock(stock, label);
    law_stable_sort_is_sorted_permutation(sorted, shown, true);
    assert forall|i: int, j: int| 0 <= i < j < out.len() implies #[trigger] out[i].0
        >= #[trigger] out[j].0 by {
        assert(key_before(sorted[i].0, sorted[j].0, true));
    }
    assert forall|i: int| 0 <= i < out.len() implies positive_amount((#[trigger] out[i]).0)
        && good_allowed(label, out[i].1) && stock.contains(out[i]) by {
        assert(out[i] == sorted[i]);
        assert(shown.contains(sorted[i]));
        let k = choose|k: int| 0 <= k < shown.len() && shown[k] == sorted[i];
        stock.lemma_filter_pred(pred, k);
        stock.lemma_filter_contains_rev(pred, sorted[i]);
    }
}

/// A short item name holds neither underscores nor dots.
pub proof fn law_short_name_plain(item_id: Seq<char>)
    ensures
        !short_name_of(item_id).contains('_'),
        !short_name_of(item_id).contains('.'),
{
    lemma_last_index_of(item_id, '.');
    let start = last_index_of(item_id, '.') + 1;
    let name = short_name_of(item_id);
    assert forall|i: int| 0 <= i < name.len() implies name[i] != '_' && name[i] != '.' by {
        assert(item_id[start + i] != '.');
    }
}

/// The stock summary is determined by the stock and the trader's label.
pub proof fn law_stock_summary_is_unique(
    out1: Seq<(u32, TradeGood)>,
    out2: Seq<(u32, TradeGood)>,
    stock: Seq<(u32, TradeGood)>,
    label: Seq<char>,
)
    requires
        stock_summary_of(out1, stock, label),
        stock_summary_of(out2, stock, label),
    ensures
        out1 == out2,
{
    let shown = shown_stock(stock, label);
    let s1 = choose|sorted: Seq<(u32, TradeGood)>|
        is_stable_sort(sorted, shown, true) && out1 == sorted.take(
            if sorted.len() < 3 {
                sorted.len() as int
            } else {
                3
            },
        );
    let s2 = choose|sorted: Seq<(u32, TradeGood)>|
        is_stable_sort(sorted, shown, true) && out2 == sorted.take(
            if sorted.len() < 3 {
                sorted.len() as int
            } else {
                3
            },
        );
    law_stable_sort_is_unique(s1, s2, shown, true);
}

/// What each kind of trader stocks: farmers, chefs and taverns food and coin;
/// herbalists and alchemists potions, stone, wood, ingredients and coin;
/// blacksmiths and workshops armor, tools and coin; hunters tools, food and coin;
/// the market board everything a town sells (food, potions, stone, wood,
/// ingredients, tools, armor, coin, recipes); any other trader every good but
/// territory, terrain, transportation and road security.
pub proof fn law_goods_by_trader(label: Seq<char>, good: TradeGood)
    ensures
        label == "farmer"@ || label == "chef"@ || label == "tavern"@ ==> (good_allowed(label, good)
            <==> (good == TradeGood::Food || good == TradeGood::Coin)),
        label == "herbalist"@ || label == "alchemist"@ ==> (good_allowed(label, good) <==> (good
            == TradeGood::Potions || good == TradeGood::Stone || good == TradeGood::Wood || good
            == TradeGood::Ingredients || good == TradeGood::Coin)),
        label == "blacksmith"@ || label == "workshop"@ ==> (good_allowed(label, good) <==> (good
            == TradeGood::Armor || good == TradeGood::Tools || good == TradeGood::Coin)),
        label == "hunter"@ ==> (good_allowed(label, good) <==> (good == TradeGood::Tools || good
            == TradeGood::Food || good == TradeGood::Coin)),
        label == "board"@ ==> (good_allowed(label, good) <==> !(good == TradeGood::Territory
            || good == TradeGood::Terrain || good == TradeGood::Transportation || good
            == TradeGood::RoadSecurity || good == TradeGood::Other)),
        !(label == "farmer"@ || label == "chef"@ || label == "tavern"@ || label == "herbalist"@
            || label == "alchemist"@ || label == "blacksmith"@ || label == "workshop"@ || label
            == "hunter"@ || label == "board"@) ==> (good_allowed(label, good) <==> !(good
            == TradeGood::Territory || good == TradeGood::Terrain || good
            == TradeGood::Transportation || good == TradeGood::RoadSecurity)),
{
    reveal_strlit("farmer");
    reveal_strlit("chef");
    reveal_strlit("tavern");
    reveal_strlit("herbalist");
    reveal_strlit("alchemist");
    reveal_strlit("blacksmith");
    reveal_strlit("workshop");
    reveal_strlit("hunter");
    reveal_strlit("board");
    assert("farmer"@.len() == 6 && "farmer"@[0] == 'f');
    assert("chef"@.len() == 4 && "chef"@[0] == 'c');
    assert("tavern"@.len() == 6 && "tavern"@[0] == 't');
    assert("herbalist"@.len() == 9 && "herbalist"@[0] == 'h');
    assert("alchemist"@.len() == 9 && "alchemist"@[0] == 'a');
    assert("blacksmith"@.len() == 10 && "blacksmith"@[0] == 'b');
    assert("workshop"@.len() == 8 && "workshop"@[0] == 'w');
    assert("hunter"@.len() == 6 && "hunter"@[0] == 'h');
    assert("board"@.len() == 5 && "board"@[0] == 'b');
}

/// The sample wares of each kind of trader: farmers apples, cheese and lettuce;
/// chefs and taverns cheese, cooked fish and apple-mushroom curry; herbalists and
/// alchemists minor potions, empty vials and honey; blacksmiths and workshops the
/// starter sword, iron ore and stones; hunters the starter bow, small raw meat and
/// wood; market boards and merchants coins, minor potions and cheese; any other
/// trader coins, cheese and minor potions. Every trader shows three wares.
pub proof fn law_sample_wares(label: Seq<char>)
    ensures
        sample_items_for(label).len() == 3,
        label == "farmer"@ ==> sample_items_for(label) == seq![
            "common.items.food.apple"@,
            "common.items.food.cheese"@,
            "common.items.food.lettuce"@,
        ],
        label == "chef"@ || label == "tavern"@ ==> sample_items_for(label) == seq![
            "common.items.food.cheese"@,
            "common.items.food.meat.fish_cooked"@,
            "common.items.food.apple_mushroom_curry"@,
        ],
        label == "herbalist"@ || label == "alchemist"@ ==> sample_items_for(label) == seq![
            "common.items.consumable.potion_minor"@,
            "common.items.crafting_ing.empty_vial"@,
            "common.items.crafting_ing.honey"@,
        ],
        label == "blacksmith"@ || label == "workshop"@ ==> sample_items_for(label) == seq![
            "common.items.weapons.sword.starter"@,
            "common.items.mineral.ore.iron"@,
            "common.items.crafting_ing.stones"@,
        ],
        label == "hunter"@ ==> sample_items_for(label) == seq![
            "common.items.weapons.bow.starter"@,
            "common.items.food.meat.beast_small_raw"@,
            "common.items.log.wood"@,
        ],
        label == "board"@ || label == "merchant"@ ==> sample_items_for(label) == seq![
            "common.items.utility.coins"@,
            "common.items.consumable.potion_minor"@,
            "common.items.food.cheese"@,
        ],
        !(label == "farmer"@ || label == "chef"@ || label == "tavern"@ || label == "herbalist"@
            || label == "alchemist"@ || label == "blacksmith"@ || label == "workshop"@ || label
            == "hunter"@ || label == "board"@ || label == "merchant"@) ==> sample_items_for(label)
            == seq![
            "common.items.utility.coins"@,
            "common.items.food.cheese"@,
            "common.items.consumable.potion_minor"@,
        ],
{
    reveal_strlit("farmer");
    assert("farmer"@.len() == 6 && "farmer"@[0] == 'f');
    reveal_strlit("chef");
    assert("chef"@.len() == 4 && "chef"@[0] == 'c');
    reveal_strlit("tavern");
    assert("tavern"@.len() == 6 && "tavern"@[0] == 't');
    reveal_strlit("herbalist");
    assert("herbalist"@.len() == 9 && "herbalist"@[0] == 'h');
    reveal_strlit("alchemist");
    assert("alchemist"@.len() == 9 && "alchemist"@[0] == 'a');
    reveal_strlit("blacksmith");
    assert("blacksmith"@.len() == 10 && "blacksmith"@[0] == 'b');
    reveal_strlit("workshop");
    assert("workshop"@.len() == 8 && "workshop"@[0] == 'w');
    reveal_strlit("hunter");
    assert("hunter"@.len() == 6 && "hunter"@[0] == 'h');
    reveal_strlit("board");
    assert("board"@.len() == 5 && "board"@[0] == 'b');
    reveal_strlit("merchant");
    assert("merchant"@.len() == 8 && "merchant"@[0] == 'm');
}

} // verus!
