//! Replaying vanilla 26.1.2 chest loot tables from a `LootTableSeed`.
//!
//! A table is a list of pools; each pool draws a number of rolls, and each roll
//! picks an entry by weight, which yields an item stack, nothing, or the rolls
//! of a nested table. Item functions then set counts, damage and enchantments.
//! All randomness comes from one `java.util.Random` seeded with the loot seed,
//! so the replay must consume the generator exactly as vanilla does.
//!
//! `nextFloat()` is `next(24) / 2^24`. The library keeps the 24-bit draw as an
//! integer: a random chance is held as the threshold below which a draw keeps
//! the pool or entry, and the one computation that vanilla does in `f32` (the
//! level variance of `enchant_with_levels`) is carried out on integer
//! numerators with binary32 rounding.

use vstd::prelude::*;

use crate::binary32::{round_binary32, round_to_binary32};
use crate::legacy_random::{lcg_step, next_int_spec, scramble, top_bits, LegacyRandom48};
use crate::strings::str_eq;

verus! {

/// One generated item stack.
#[derive(Clone, Debug, PartialEq, Eq)]
pub struct LootStack {
    pub item: String,
    pub count: i32,
}

/// A number provider: a constant, or a uniform range.
///
/// `min` and `max` are the bounds as integer rolls read them (truncated toward
/// zero); `varies` tells whether the bounds differ as floats, which is when a
/// float draw is spent on them.
#[derive(Clone, Copy, Debug, PartialEq, Eq, Structural)]
pub struct NumberSpec {
    pub min: i32,
    pub max: i32,
    pub varies: bool,
}

/// An item function of a pool or an entry.
#[derive(Clone, Debug)]
pub struct Function {
    /// The function id, such as `minecraft:set_count`.
    pub kind: String,
    pub number: Option<NumberSpec>,
    pub options: Option<Vec<String>>,
    pub only_compatible: bool,
    /// The effect durations of `set_stew_effect`.
    pub alternatives: Vec<NumberSpec>,
}

/// One weighted entry of a pool.
#[derive(Clone, Debug)]
pub struct Entry {
    pub item: Option<String>,
    pub nested_table: Option<String>,
    pub weight: i32,
    pub functions: Vec<Function>,
    /// Random chance condition: a 24-bit float draw keeps the entry when it is
    /// below this threshold (`ceil(chance * 2^24)`).
    pub random_chance: Option<u32>,
}

/// One pool of a table.
#[derive(Clone, Debug)]
pub struct Pool {
    pub rolls: NumberSpec,
    pub entries: Vec<Entry>,
    pub functions: Vec<Function>,
    /// Random chance condition, as for entries.
    pub random_chance: Option<u32>,
}

/// A loot table and its id.
#[derive(Clone, Debug)]
pub struct Table {
    pub id: String,
    pub pools: Vec<Pool>,
}

/// What the loot functions need to know of an enchantment.
#[derive(Clone, Debug)]
pub struct EnchantmentSpec {
    pub id: String,
    pub weight: i32,
    pub max_level: i32,
    pub min_cost_base: i32,
    pub min_cost_per_level: i32,
    pub max_cost_base: i32,
    pub max_cost_per_level: i32,
    pub primary_items: Vec<String>,
    pub compatible_items: Vec<String>,
    pub exclusive: Vec<String>,
}

/// What the loot functions need to know of an item.
#[derive(Clone, Debug)]
pub struct ItemSpec {
    pub id: String,
    pub enchantability: i32,
    pub damageable: bool,
}

/// The enchantment and item data of the game version.
#[derive(Clone, Debug)]
pub struct LootData {
    pub enchantments: Vec<EnchantmentSpec>,
    pub on_random_loot: Vec<String>,
    pub items: Vec<ItemSpec>,
    pub goat_horns: i32,
}

// ---------------------------------------------------------------------------
// Lookups

/// The index of the first element of `s` that satisfies `p`.
pub open spec fn first_where<T>(s: Seq<T>, p: spec_fn(T) -> bool) -> Option<int>
    decreases s.len(),
{
    if s.len() == 0 {
        None
    } else {
        match first_where(s.drop_last(), p) {
            Some(i) => Some(i),
            None => if p(s.last()) {
                Some(s.len() - 1)
            } else {
                None
            },
        }
    }
}

/// An element that satisfies `p`, with none before it, is the first.
pub proof fn lemma_first_where_at<T>(s: Seq<T>, p: spec_fn(T) -> bool, i: int)
    requires
        0 <= i < s.len(),
        p(s[i]),
        forall|k: int| 0 <= k < i ==> !p(#[trigger] s[k]),
    ensures
        first_where(s, p) == Some(i),
    decreases s.len(),
{
    if i < s.len() - 1 {
        lemma_first_where_at(s.drop_last(), p, i);
    } else {
        lemma_first_where_none(s.drop_last(), p);
    }
}

/// No element satisfies `p`: there is no first.
pub proof fn lemma_first_where_none<T>(s: Seq<T>, p: spec_fn(T) -> bool)
    requires
        forall|k: int| 0 <= k < s.len() ==> !p(#[trigger] s[k]),
    ensures
        first_where(s, p) is None,
    decreases s.len(),
{
    if s.len() > 0 {
        lemma_first_where_none(s.drop_last(), p);
    }
}

/// An item with id `id`.
pub open spec fn item_named(id: Seq<char>) -> spec_fn(ItemSpec) -> bool {
    |x: ItemSpec| x.id@ == id
}

/// An enchantment with id `id`.
pub open spec fn enchantment_named(id: Seq<char>) -> spec_fn(EnchantmentSpec) -> bool {
    |x: EnchantmentSpec| x.id@ == id
}

/// A table with id `id`.
pub open spec fn table_named(id: Seq<char>) -> spec_fn(Table) -> bool {
    |x: Table| x.id@ == id
}

/// The index of the item `id` in the data.
pub open spec fn item_index(data: LootData, id: Seq<char>) -> Option<int> {
    first_where(data.items@, item_named(id))
}

/// The index of the enchantment `id` in the data.
pub open spec fn enchantment_index(data: LootData, id: Seq<char>) -> Option<int> {
    first_where(data.enchantments@, enchantment_named(id))
}

/// The index of the table `id`.
pub open spec fn table_index(tables: Seq<Table>, id: Seq<char>) -> Option<int> {
    first_where(tables, table_named(id))
}

/// An index as a spec integer.
pub open spec fn index_of(found: Option<usize>) -> Option<int> {
    match found {
        Some(i) => Some(i as int),
        None => None,
    }
}

/// Whether one of `names` is `name`.
pub open spec fn names_contain(names: Seq<String>, name: Seq<char>) -> bool {
    exists|k: int| 0 <= k < names.len() && #[trigger] names[k]@ == name
}

/// Finds the item `id`.
fn find_item(data: &LootData, id: &str) -> (found: Option<usize>)
    ensures
        index_of(found) == item_index(*data, id@),
        found matches Some(i) ==> i < data.items@.len(),
{
    let mut i: usize = 0;
    while i < data.items.len()
        invariant
            i <= data.items@.len(),
            forall|k: int| 0 <= k < i ==> !item_named(id@)(#[trigger] data.items@[k]),
        decreases data.items.len() - i,
    {
        if str_eq(data.items[i].id.as_str(), id) {
            proof {
                lemma_first_where_at(data.items@, item_named(id@), i as int);
            }
            return Some(i);
        }
        i = i + 1;
    }
    proof {
        lemma_first_where_none(data.items@, item_named(id@));
    }
    None
}

/// Finds the enchantment `id`.
fn find_enchantment(data: &LootData, id: &str) -> (found: Option<usize>)
    ensures
        index_of(found) == enchantment_index(*data, id@),
        found matches Some(i) ==> i < data.enchantments@.len(),
{
    let mut i: usize = 0;
    while i < data.enchantments.len()
        invariant
            i <= data.enchantments@.len(),
            forall|k: int|
                0 <= k < i ==> !enchantment_named(id@)(#[trigger] data.enchantments@[k]),
        decreases data.enchantments.len() - i,
    {
        if str_eq(data.enchantments[i].id.as_str(), id) {
            proof {
                lemma_first_where_at(data.enchantments@, enchantment_named(id@), i as int);
            }
            return Some(i);
        }
        i = i + 1;
    }
    proof {
        lemma_first_where_none(data.enchantments@, enchantment_named(id@));
    }
    None
}

/// Finds the table `id`.
fn find_table(tables: &Vec<Table>, id: &str) -> (found: Option<usize>)
    ensures
        index_of(found) == table_index(tables@, id@),
        found matches Some(i) ==> i < tables@.len(),
{
    let mut i: usize = 0;
    while i < tables.len()
        invariant
            i <= tables@.len(),
            forall|k: int| 0 <= k < i ==> !table_named(id@)(#[trigger] tables@[k]),
        decreases tables.len() - i,
    {
        if str_eq(tables[i].id.as_str(), id) {
            proof {
                lemma_first_where_at(tables@, table_named(id@), i as int);
            }
            return Some(i);
        }
        i = i + 1;
    }
    proof {
        lemma_first_where_none(tables@, table_named(id@));
    }
    None
}

/// Whether one of `names` is `name`.
fn contains_name(names: &Vec<String>, name: &str) -> (found: bool)
    ensures
        found == names_contain(names@, name@),
{
    let mut i: usize = 0;
    while i < names.len()
        invariant
            i <= names@.len(),
            forall|k: int| 0 <= k < i ==> #[trigger] names@[k]@ != name@,
        decreases names.len() - i,
    {
        if str_eq(names[i].as_str(), name) {
            return true;
        }
        i = i + 1;
    }
    false
}

// ---------------------------------------------------------------------------
// Draws

/// `next(24)`, the numerator of `nextFloat()`: the state after it and the draw.
pub open spec fn draw24(s: u64) -> (u64, int) {
    (lcg_step(s), top_bits(lcg_step(s), 24) as int)
}

/// A random chance condition: the state after it, and whether it keeps.
pub open spec fn chance_spec(s: u64, threshold: Option<u32>) -> (u64, bool) {
    match threshold {
        None => (s, true),
        Some(t) => {
            let (next, u) = draw24(s);
            (next, u < t)
        },
    }
}

/// An integer uniform in `[min, max]`, or `min` without a draw when the range
/// has at most one value.
pub open spec fn next_inclusive_spec(s: u64, min: i32, max: i32) -> (u64, i32) {
    if min >= max {
        (s, min)
    } else {
        let (next, v) = next_int_spec(s, (max - min + 1) as i32);
        (next, (v + min) as i32)
    }
}

/// The float that a varying number provider spends when only its draw matters.
pub open spec fn consume_float_spec(s: u64, n: NumberSpec) -> u64 {
    if n.varies {
        lcg_step(s)
    } else {
        s
    }
}

/// The numerator of `nextFloat()`.
fn next_float_bits(random: &mut LegacyRandom48) -> (u: i32)
    requires
        old(random).state() < 0x1_0000_0000_0000,
    ensures
        (final(random).state(), u as int) == draw24(old(random).state()),
        0 <= u < 0x100_0000,
        final(random).state() < 0x1_0000_0000_0000,
{
    let u = random.next(24);
    proof {
        let n = final(random).state();
        assert(n < 0x1_0000_0000_0000 ==> (n >> 24u64) < 0x100_0000) by (bit_vector);
    }
    u
}

/// Whether a random chance condition keeps its pool or entry.
fn passes_chance(random: &mut LegacyRandom48, threshold: Option<u32>) -> (kept: bool)
    requires
        old(random).state() < 0x1_0000_0000_0000,
    ensures
        (final(random).state(), kept) == chance_spec(old(random).state(), threshold),
        final(random).state() < 0x1_0000_0000_0000,
{
    match threshold {
        None => true,
        Some(t) => {
            let u = next_float_bits(random);
            (u as u32) < t
        },
    }
}

/// An integer uniform in `[min, max]`.
pub fn next_inclusive(random: &mut LegacyRandom48, min: i32, max: i32) -> (value: i32)
    requires
        old(random).state() < 0x1_0000_0000_0000,
        min >= max || max - min + 1 <= i32::MAX,
    ensures
        (final(random).state(), value) == next_inclusive_spec(old(random).state(), min, max),
        final(random).state() < 0x1_0000_0000_0000,
        min < max ==> min <= value <= max,
{
    if min >= max {
        min
    } else {
        let v = random.next_int(max - min + 1);
        v + min
    }
}

impl NumberSpec {
    /// A whole number from the provider.
    pub fn next_int(self, random: &mut LegacyRandom48) -> (value: i32)
        requires
            old(random).state() < 0x1_0000_0000_0000,
            number_ok(self),
        ensures
            (final(random).state(), value) == next_inclusive_spec(
                old(random).state(),
                self.min,
                self.max,
            ),
            final(random).state() < 0x1_0000_0000_0000,
            -0x2000_0000 <= value <= 0x2000_0000,
    {
        next_inclusive(random, self.min, self.max)
    }

    /// Spends the float that the provider draws when its value is not used.
    pub fn consume_float(self, random: &mut LegacyRandom48)
        requires
            old(random).state() < 0x1_0000_0000_0000,
        ensures
            final(random).state() == consume_float_spec(old(random).state(), self),
            final(random).state() < 0x1_0000_0000_0000,
    {
        if self.varies {
            random.next(24);
        }
    }
}


// ---------------------------------------------------------------------------
// Enchantments

/// The id of a plain book.
pub open spec fn book_id() -> Seq<char> {
    "minecraft:book"@
}

/// The id that an enchanted plain book takes.
pub open spec fn enchanted_book_id() -> Seq<char> {
    "minecraft:enchanted_book"@
}

/// The tag that stands for the enchantments of random loot.
pub open spec fn on_random_loot_tag() -> Seq<char> {
    "#minecraft:on_random_loot"@
}

/// The enchantment ids that options name: the on-random-loot list for the tag
/// alone, the options themselves otherwise.
pub open spec fn option_ids(data: LootData, options: Seq<String>) -> Seq<String> {
    if options.len() == 1 && options[0]@ == on_random_loot_tag() {
        data.on_random_loot@
    } else {
        options
    }
}

/// The error for an unknown enchantment id.
pub open spec fn unknown_enchantment_text(id: Seq<char>) -> Seq<char> {
    "unknown 26.1.2 enchantment: "@ + id
}

/// The error for an unknown item id.
pub open spec fn unknown_item_text(id: Seq<char>) -> Seq<char> {
    "unknown 26.1.2 item: "@ + id
}

/// The enchantments that `ids` name, in order, or the error for the first
/// unknown id.
pub open spec fn enchantments_spec(data: LootData, ids: Seq<String>) -> Result<Seq<int>, Seq<char>>
    decreases ids.len(),
{
    if ids.len() == 0 {
        Ok(Seq::empty())
    } else {
        match enchantments_spec(data, ids.drop_last()) {
            Err(e) => Err(e),
            Ok(found) => match enchantment_index(data, ids.last()@) {
                None => Err(unknown_enchantment_text(ids.last()@)),
                Some(i) => Ok(found.push(i)),
            },
        }
    }
}

/// Every index of `found` is an enchantment of `data`.
pub open spec fn all_enchantments(data: LootData, found: Seq<int>) -> bool {
    forall|k: int| 0 <= k < found.len() ==> 0 <= #[trigger] found[k] < data.enchantments@.len()
}

/// Looks up the enchantments that `options` name.
fn enchantments(data: &LootData, options: &Vec<String>) -> (result: Result<Vec<usize>, String>)
    ensures
        match enchantments_spec(*data, option_ids(*data, options@)) {
            Ok(found) => result matches Ok(v) && v@.map_values(|i: usize| i as int) == found
                && all_enchantments(*data, found) && v@.len() == option_ids(*data, options@).len(),
            Err(e) => result matches Err(m) && m@ == e,
        },
{
    proof {
        reveal_strlit("#minecraft:on_random_loot");
    }
    let ids: &Vec<String> = if options.len() == 1 && str_eq(
        options[0].as_str(),
        "#minecraft:on_random_loot",
    ) {
        &data.on_random_loot
    } else {
        options
    };
    let ghost all = option_ids(*data, options@);
    assert(ids@ == all);
    let mut found: Vec<usize> = Vec::new();
    let mut k: usize = 0;
    proof {
        assert(all.take(0) =~= Seq::<String>::empty());
        assert(found@.map_values(|i: usize| i as int) =~= Seq::<int>::empty());
    }
    while k < ids.len()
        invariant
            ids@ == all,
            all == option_ids(*data, options@),
            k <= ids@.len(),
            enchantments_spec(*data, all.take(k as int)) == Ok::<Seq<int>, Seq<char>>(
                found@.map_values(|i: usize| i as int),
            ),
            all_enchantments(*data, found@.map_values(|i: usize| i as int)),
            found@.len() == k,
        decreases ids.len() - k,
    {
        proof {
            assert(all.take(k + 1).drop_last() =~= all.take(k as int));
            assert(all.take(k + 1).last() == ids@[k as int]);
        }
        match find_enchantment(data, ids[k].as_str()) {
            None => {
                let mut message = "unknown 26.1.2 enchantment: ".to_owned();
                message.append(ids[k].as_str());
                proof {
                    assert(message@ =~= unknown_enchantment_text(ids@[k as int]@));
                    assert(enchantments_spec(*data, all.take(k + 1)) == Err::<Seq<int>, Seq<char>>(
                        unknown_enchantment_text(ids@[k as int]@),
                    ));
                    lemma_enchantments_error_persists(*data, all, (k + 1) as int);
                }
                return Err(message);
            },
            Some(i) => {
                let ghost before = found@.map_values(|i: usize| i as int);
                found.push(i);
                proof {
                    assert(found@.map_values(|i: usize| i as int) =~= before.push(i as int));
                }
            },
        }
        k = k + 1;
    }
    proof {
        assert(all.take(k as int) =~= all);
    }
    Ok(found)
}

/// Once a prefix of the ids fails, the whole list fails with the same error.
proof fn lemma_enchantments_error_persists(data: LootData, ids: Seq<String>, k: int)
    requires
        0 <= k <= ids.len(),
        enchantments_spec(data, ids.take(k)) is Err,
    ensures
        enchantments_spec(data, ids) == enchantments_spec(data, ids.take(k)),
    decreases ids.len() - k,
{
    if k < ids.len() {
        assert(ids.take(k + 1).drop_last() =~= ids.take(k));
        lemma_enchantments_error_persists(data, ids, k + 1);
    } else {
        assert(ids.take(k) =~= ids);
    }
}

/// Whether two enchantments may stand on one item: they differ, both are
/// known, and neither excludes the other.
pub open spec fn compatible_spec(data: LootData, first: Seq<char>, second: Seq<char>) -> bool {
    first != second && match enchantment_index(data, first) {
        None => false,
        Some(i) => match enchantment_index(data, second) {
            None => false,
            Some(j) => !names_contain(data.enchantments@[i].exclusive@, second)
                && !names_contain(data.enchantments@[j].exclusive@, data.enchantments@[i].id@),
        },
    }
}

/// Whether two enchantments may stand on one item.
pub fn compatible(data: &LootData, first: &str, second: &str) -> (yes: bool)
    ensures
        yes == compatible_spec(*data, first@, second@),
{
    if str_eq(first, second) {
        return false;
    }
    let i = match find_enchantment(data, first) {
        Some(i) => i,
        None => {
            return false;
        },
    };
    let j = match find_enchantment(data, second) {
        Some(j) => j,
        None => {
            return false;
        },
    };
    !contains_name(&data.enchantments[i].exclusive, second) && !contains_name(
        &data.enchantments[j].exclusive,
        data.enchantments[i].id.as_str(),
    )
}

/// The lowest enchanting power for `level` of `e`.
pub open spec fn min_cost_spec(e: EnchantmentSpec, level: int) -> int {
    e.min_cost_base + e.min_cost_per_level * (level - 1)
}

/// The highest enchanting power for `level` of `e`.
pub open spec fn max_cost_spec(e: EnchantmentSpec, level: int) -> int {
    e.max_cost_base + e.max_cost_per_level * (level - 1)
}

/// Bounds of the enchantment data that keep the cost arithmetic in range.
pub open spec fn enchantment_ok(e: EnchantmentSpec) -> bool {
    &&& 1 <= e.weight <= 0x10_0000
    &&& -0x400 <= e.max_level <= 0x400
    &&& -0x400 <= e.min_cost_base <= 0x400
    &&& -0x400 <= e.min_cost_per_level <= 0x400
    &&& -0x400 <= e.max_cost_base <= 0x400
    &&& -0x400 <= e.max_cost_per_level <= 0x400
}

impl EnchantmentSpec {
    /// The lowest enchanting power for `level`.
    pub fn min_cost(&self, level: i32) -> (cost: i32)
        requires
            enchantment_ok(*self),
            -0x400 <= level <= 0x400,
        ensures
            cost == min_cost_spec(*self, level as int),
    {
        proof {
            assert(-0x400 * 0x401 <= self.min_cost_per_level * (level - 1) <= 0x400 * 0x401)
                by (nonlinear_arith)
                requires
                    -0x400 <= self.min_cost_per_level <= 0x400,
                    -0x401 <= level - 1 <= 0x3FF,
            ;
        }
        self.min_cost_base + self.min_cost_per_level * (level - 1)
    }

    /// The highest enchanting power for `level`.
    pub fn max_cost(&self, level: i32) -> (cost: i32)
        requires
            enchantment_ok(*self),
            -0x400 <= level <= 0x400,
        ensures
            cost == max_cost_spec(*self, level as int),
    {
        proof {
            assert(-0x400 * 0x401 <= self.max_cost_per_level * (level - 1) <= 0x400 * 0x401)
                by (nonlinear_arith)
                requires
                    -0x400 <= self.max_cost_per_level <= 0x400,
                    -0x401 <= level - 1 <= 0x3FF,
            ;
        }
        self.max_cost_base + self.max_cost_per_level * (level - 1)
    }
}

/// The highest level of `e`, from `level` down to 1, whose cost range holds `power`.
pub open spec fn best_level(e: EnchantmentSpec, power: int, level: int) -> Option<int>
    decreases level,
{
    if level < 1 {
        None
    } else if min_cost_spec(e, level) <= power && power <= max_cost_spec(e, level) {
        Some(level)
    } else {
        best_level(e, power, level - 1)
    }
}

/// Whether enchantment `e` of the data applies to `item` at an enchanting table.
pub open spec fn primary_for(data: LootData, e: int, item: Seq<char>) -> bool {
    item == book_id() || names_contain(data.enchantments@[e].primary_items@, item)
}

/// The enchantments of `found` that `item` can get with enchanting power
/// `power`, each with the highest level that the power reaches.
pub open spec fn available_spec(data: LootData, item: Seq<char>, power: int, found: Seq<int>) -> Seq<(int, int)>
    decreases found.len(),
{
    if found.len() == 0 {
        Seq::empty()
    } else {
        let rest = available_spec(data, item, power, found.drop_last());
        let e = found.last();
        if !primary_for(data, e, item) {
            rest
        } else {
            match best_level(data.enchantments@[e], power, data.enchantments@[e].max_level as int) {
                None => rest,
                Some(level) => rest.push((e, level)),
            }
        }
    }
}

/// An enchantment that can be chosen, with its level.
#[derive(Clone, Copy, Debug)]
pub struct AvailableEnchantment {
    pub enchantment: usize,
    pub level: i32,
}

/// The views of available enchantments.
pub open spec fn available_views(v: Seq<AvailableEnchantment>) -> Seq<(int, int)> {
    v.map_values(|a: AvailableEnchantment| (a.enchantment as int, a.level as int))
}

/// Every enchantment of the data is within the bounds.
pub open spec fn enchantments_ok(data: LootData) -> bool {
    forall|k: int| 0 <= k < data.enchantments@.len() ==> enchantment_ok(#[trigger] data.enchantments@[k])
}

/// The enchantments of `found` that `item` can get with power `power`.
fn available_enchantments(
    item: &str,
    power: i32,
    data: &LootData,
    found: &Vec<usize>,
) -> (available: Vec<AvailableEnchantment>)
    requires
        enchantments_ok(*data),
        all_enchantments(*data, found@.map_values(|i: usize| i as int)),
    ensures
        available_views(available@) == available_spec(
            *data,
            item@,
            power as int,
            found@.map_values(|i: usize| i as int),
        ),
        available@.len() <= found@.len(),
        forall|k: int|
            0 <= k < available@.len() ==> (#[trigger] available@[k]).enchantment
                < data.enchantments@.len(),
{
    proof {
        reveal_strlit("minecraft:book");
    }
    let book = str_eq(item, "minecraft:book");
    let ghost ids = found@.map_values(|i: usize| i as int);
    let mut available: Vec<AvailableEnchantment> = Vec::new();
    let mut k: usize = 0;
    while k < found.len()
        invariant
            ids == found@.map_values(|i: usize| i as int),
            all_enchantments(*data, ids),
            enchantments_ok(*data),
            book == (item@ == book_id()),
            k <= found@.len(),
            available_views(available@) == available_spec(*data, item@, power as int, ids.take(k as int)),
            available@.len() <= k,
            forall|j: int|
                0 <= j < available@.len() ==> (#[trigger] available@[j]).enchantment
                    < data.enchantments@.len(),
        decreases found.len() - k,
    {
        proof {
            assert(ids.take(k + 1).drop_last() =~= ids.take(k as int));
            assert(ids.take(k + 1).last() == found@[k as int] as int);
            assert(ids[k as int] == found@[k as int] as int);
        }
        let e = found[k];
        let spec_e = &data.enchantments[e];
        proof {
            assert(enchantment_ok(data.enchantments@[e as int]));
        }
        if book || contains_name(&spec_e.primary_items, item) {
            let mut level = spec_e.max_level;
            let mut chosen: Option<i32> = None;
            while level >= 1 && chosen.is_none()
                invariant
                    enchantment_ok(*spec_e),
                    -0x400 <= level <= 0x400,
                    chosen is None ==> best_level(*spec_e, power as int, spec_e.max_level as int)
                        == best_level(*spec_e, power as int, level as int),
                    chosen matches Some(l) ==> best_level(
                        *spec_e,
                        power as int,
                        spec_e.max_level as int,
                    ) == Some(l as int),
                decreases level, if chosen is None { 1int } else { 0int },
            {
                if power >= spec_e.min_cost(level) && power <= spec_e.max_cost(level) {
                    chosen = Some(level);
                } else {
                    level = level - 1;
                }
            }
            let ghost before = available_views(available@);
            match chosen {
                Some(l) => {
                    available.push(AvailableEnchantment { enchantment: e, level: l });
                    proof {
                        assert(available_views(available@) =~= before.push((e as int, l as int)));
                    }
                },
                None => {},
            }
        }
        k = k + 1;
    }
    proof {
        assert(ids.take(k as int) =~= ids);
    }
    available
}

/// The weight of the first `k` available enchantments.
pub open spec fn weight_prefix(data: LootData, available: Seq<(int, int)>, k: int) -> int
    decreases k,
{
    if k <= 0 {
        0
    } else {
        weight_prefix(data, available, k - 1) + data.enchantments@[available[k - 1].0].weight
    }
}

/// The first position, from `k` on, where the running weight passes `choice`.
pub open spec fn first_past(data: LootData, available: Seq<(int, int)>, choice: int, k: int) -> Option<int>
    decreases available.len() - k,
{
    if k < 0 || k >= available.len() {
        None
    } else if choice - weight_prefix(data, available, k + 1) < 0 {
        Some(k)
    } else {
        first_past(data, available, choice, k + 1)
    }
}

/// The error when weights do not cover a draw.
pub open spec fn enchantment_weights_text() -> Seq<char> {
    "enchantment weights are inconsistent"@
}

/// A weighted pick among the available enchantments: the state after it and
/// the position picked.
pub open spec fn choose_weighted_spec(data: LootData, available: Seq<(int, int)>, s: u64) -> Result<(u64, int), Seq<char>> {
    let total = weight_prefix(data, available, available.len() as int);
    let (next, choice) = next_int_spec(s, total as i32);
    match first_past(data, available, choice as int, 0) {
        Some(p) => Ok((next, p)),
        None => Err(enchantment_weights_text()),
    }
}

/// The available enchantments are enchantments of the data.
pub open spec fn available_in(data: LootData, available: Seq<(int, int)>) -> bool {
    forall|k: int|
        0 <= k < available.len() ==> 0 <= #[trigger] available[k].0 < data.enchantments@.len()
}

/// Each weight is between 1 and 2^20, so `k` weights sum to between `k` and `k * 2^20`.
proof fn lemma_weight_prefix_bounds(data: LootData, available: Seq<(int, int)>, k: int)
    requires
        enchantments_ok(data),
        available_in(data, available),
        0 <= k <= available.len(),
    ensures
        k <= weight_prefix(data, available, k) <= k * 0x10_0000,
    decreases k,
{
    if k > 0 {
        lemma_weight_prefix_bounds(data, available, k - 1);
        assert(enchantment_ok(data.enchantments@[available[k - 1].0]));
    }
}

/// Picks one available enchantment by weight and appends it to `selected`.
fn choose_weighted(
    available: &Vec<AvailableEnchantment>,
    random: &mut LegacyRandom48,
    data: &LootData,
    selected: &mut Vec<AvailableEnchantment>,
) -> (result: Result<(), String>)
    requires
        old(random).state() < 0x1_0000_0000_0000,
        enchantments_ok(*data),
        available_in(*data, available_views(available@)),
        1 <= available@.len() <= 0x400,
    ensures
        final(random).state() < 0x1_0000_0000_0000,
        match choose_weighted_spec(*data, available_views(available@), old(random).state()) {
            Ok((next, p)) => result is Ok && final(random).state() == next && 0 <= p
                < available@.len() && final(selected)@ == old(selected)@.push(available@[p]),
            Err(e) => result matches Err(m) && m@ == e,
        },
{
    let ghost views = available_views(available@);
    proof {
        lemma_weight_prefix_bounds(*data, views, views.len() as int);
        assert(views.len() * 0x10_0000 <= 0x400 * 0x10_0000) by (nonlinear_arith)
            requires
                views.len() <= 0x400,
        ;
    }
    let mut total: i32 = 0;
    let mut k: usize = 0;
    while k < available.len()
        invariant
            views == available_views(available@),
            enchantments_ok(*data),
            available_in(*data, views),
            available@.len() <= 0x400,
            k <= available@.len(),
            total == weight_prefix(*data, views, k as int),
            random.state() == old(random).state(),
            random.state() < 0x1_0000_0000_0000,
        decreases available.len() - k,
    {
        proof {
            lemma_weight_prefix_bounds(*data, views, (k + 1) as int);
            assert((k + 1) * 0x10_0000 <= 0x400 * 0x10_0000) by (nonlinear_arith)
                requires
                    k + 1 <= 0x400,
            ;
            assert(views[k as int].0 == available@[k as int].enchantment as int);
        }
        total = total + data.enchantments[available[k].enchantment].weight;
        k = k + 1;
    }
    let choice0 = random.next_int(total);
    let mut choice = choice0;
    let mut k: usize = 0;
    while k < available.len()
        invariant
            views == available_views(available@),
            enchantments_ok(*data),
            available_in(*data, views),
            available@.len() <= 0x400,
            total == weight_prefix(*data, views, views.len() as int),
            0 <= choice0 < total,
            k <= available@.len(),
            choice == choice0 - weight_prefix(*data, views, k as int),
            first_past(*data, views, choice0 as int, 0) == first_past(
                *data,
                views,
                choice0 as int,
                k as int,
            ),
            random.state() < 0x1_0000_0000_0000,
            (random.state(), choice0) == next_int_spec(old(random).state(), total),
            selected@ == old(selected)@,
        decreases available.len() - k,
    {
        proof {
            lemma_weight_prefix_bounds(*data, views, (k + 1) as int);
            assert(views[k as int].0 == available@[k as int].enchantment as int);
        }
        choice = choice - data.enchantments[available[k].enchantment].weight;
        proof {
            assert(weight_prefix(*data, views, k + 1) == weight_prefix(*data, views, k as int)
                + data.enchantments@[views[k as int].0].weight);
            assert(choice == choice0 - weight_prefix(*data, views, k + 1));
        }
        if choice < 0 {
            proof {
                assert(first_past(*data, views, choice0 as int, k as int) == Some(k as int));
            }
            selected.push(available[k]);
            return Ok(());
        }
        k = k + 1;
    }
    Err("enchantment weights are inconsistent".to_owned())
}

/// The candidates that stay compatible with the enchantment `last`.
pub open spec fn compatible_with(data: LootData, available: Seq<(int, int)>, last: int) -> Seq<(int, int)>
    decreases available.len(),
{
    if available.len() == 0 {
        Seq::empty()
    } else {
        let rest = compatible_with(data, available.drop_last(), last);
        if compatible_spec(
            data,
            data.enchantments@[available.last().0].id@,
            data.enchantments@[last].id@,
        ) {
            rest.push(available.last())
        } else {
            rest
        }
    }
}

/// Further picks of `enchant_with_levels`: while `nextInt(50)` does not exceed
/// the level, drop the candidates incompatible with the last pick, pick again,
/// and halve the level. The result is the state after the last draw.
pub open spec fn more_picks(data: LootData, available: Seq<(int, int)>, last: int, level: int, s: u64) -> Result<u64, Seq<char>>
    decreases available.len(),
{
    let (s1, r) = next_int_spec(s, 50);
    if r > level {
        Ok(s1)
    } else {
        let kept = compatible_with(data, available, last);
        // The last pick is among the candidates and is never compatible with
        // itself, so `kept` is always shorter than `available`.
        if kept.len() == 0 || kept.len() >= available.len() {
            Ok(s1)
        } else {
            match choose_weighted_spec(data, kept, s1) {
                Err(e) => Err(e),
                Ok((s2, p)) => more_picks(data, kept, kept[p].0, level / 2, s2),
            }
        }
    }
}

/// Dropping candidates keeps the others in order and shortens the list when one
/// of them shares the id of `last`.
proof fn lemma_compatible_with(data: LootData, available: Seq<(int, int)>, last: int)
    requires
        available_in(data, available),
    ensures
        compatible_with(data, available, last).len() <= available.len(),
        available_in(data, compatible_with(data, available, last)),
        (exists|k: int|
            0 <= k < available.len() && data.enchantments@[#[trigger] available[k].0].id@
                == data.enchantments@[last].id@) ==> compatible_with(data, available, last).len()
            < available.len(),
    decreases available.len(),
{
    if available.len() > 0 {
        let rest = available.drop_last();
        assert(available_in(data, rest)) by {
            assert forall|k: int| 0 <= k < rest.len() implies 0 <= #[trigger] rest[k].0
                < data.enchantments@.len() by {
                assert(rest[k] == available[k]);
            }
        }
        lemma_compatible_with(data, rest, last);
        if exists|k: int|
            0 <= k < available.len() && data.enchantments@[#[trigger] available[k].0].id@
                == data.enchantments@[last].id@ {
            let k = choose|k: int|
                0 <= k < available.len() && data.enchantments@[#[trigger] available[k].0].id@
                    == data.enchantments@[last].id@;
            if k < available.len() - 1 {
                assert(rest[k] == available[k]);
            }
        }
    }
}

/// The candidates that stay compatible with the enchantment `last`.
fn keep_compatible(
    available: &Vec<AvailableEnchantment>,
    last: usize,
    data: &LootData,
) -> (kept: Vec<AvailableEnchantment>)
    requires
        available_in(*data, available_views(available@)),
        last < data.enchantments@.len(),
    ensures
        available_views(kept@) == compatible_with(*data, available_views(available@), last as int),
{
    let ghost views = available_views(available@);
    let mut kept: Vec<AvailableEnchantment> = Vec::new();
    let mut k: usize = 0;
    while k < available.len()
        invariant
            views == available_views(available@),
            available_in(*data, views),
            last < data.enchantments@.len(),
            k <= available@.len(),
            available_views(kept@) == compatible_with(*data, views.take(k as int), last as int),
        decreases available.len() - k,
    {
        proof {
            assert(views.take(k + 1).drop_last() =~= views.take(k as int));
            assert(views.take(k + 1).last() == views[k as int]);
            assert(views[k as int].0 == available@[k as int].enchantment as int);
        }
        let candidate = available[k];
        let ghost before = available_views(kept@);
        if compatible(
            data,
            data.enchantments[candidate.enchantment].id.as_str(),
            data.enchantments[last].id.as_str(),
        ) {
            kept.push(candidate);
            proof {
                assert(available_views(kept@) =~= before.push(views[k as int]));
            }
        }
        k = k + 1;
    }
    proof {
        assert(views.take(k as int) =~= views);
    }
    kept
}

/// The extra picks of `enchant_with_levels`.
fn pick_more(
    available: Vec<AvailableEnchantment>,
    last: usize,
    level: i32,
    random: &mut LegacyRandom48,
    data: &LootData,
    selected: &mut Vec<AvailableEnchantment>,
) -> (result: Result<(), String>)
    requires
        old(random).state() < 0x1_0000_0000_0000,
        enchantments_ok(*data),
        available_in(*data, available_views(available@)),
        available@.len() <= 0x400,
        last < data.enchantments@.len(),
        exists|k: int|
            0 <= k < available@.len() && data.enchantments@[#[trigger] available@[k].enchantment
                as int].id@ == data.enchantments@[last as int].id@,
        level >= 0,
    ensures
        final(random).state() < 0x1_0000_0000_0000,
        match more_picks(
            *data,
            available_views(available@),
            last as int,
            level as int,
            old(random).state(),
        ) {
            Ok(next) => result is Ok && final(random).state() == next,
            Err(e) => result matches Err(m) && m@ == e,
        },
    decreases available@.len(),
{
    let ghost views = available_views(available@);
    let r = random.next_int(50);
    if r > level {
        return Ok(());
    }
    let kept = keep_compatible(&available, last, data);
    proof {
        lemma_compatible_with(*data, views, last as int);
        let k = choose|k: int|
            0 <= k < available@.len() && data.enchantments@[#[trigger] available@[k].enchantment
                as int].id@ == data.enchantments@[last as int].id@;
        assert(views[k].0 == available@[k].enchantment as int);
    }
    if kept.len() == 0 || kept.len() >= available.len() {
        return Ok(());
    }
    let count = selected.len();
    match choose_weighted(&kept, random, data, selected) {
        Err(e) => Err(e),
        Ok(()) => {
            let ghost kviews = available_views(kept@);
            let ghost p = choose|p: int|
                0 <= p < kept@.len() && selected@ == old(selected)@.push(kept@[p]);
            proof {
                assert(selected@.len() == count + 1);
                assert(selected@[count as int] == kept@[p]);
            }
            let pick = selected[count];
            proof {
                assert(kviews[p].0 == pick.enchantment as int);
                assert(kviews[p].0 < data.enchantments@.len());
            }
            pick_more(kept, pick.enchantment, level / 2, random, data, selected)
        },
    }
}

/// 2^50, the denominator of the finest numerators in the level variance.
pub open spec fn unit50() -> int {
    0x4_0000_0000_0000
}

/// `0.15f32` is `10066330 / 2^26`.
pub open spec fn fifteen_hundredths_numerator() -> int {
    10066330
}

/// The enchanting power after vanilla's variance, from the raised `level` and
/// the two 24-bit float draws `u1`, `u2`, all in `f32`:
/// `variance = (f1 + f2 - 1) * 0.15`, then
/// `max(1, floor(level + level * variance + 0.5))`, each operation rounded to
/// binary32 and the final conversion to `i32` saturating.
pub open spec fn adjusted_level_spec(level: int, u1: int, u2: int) -> int {
    // f1 + f2 and the subtraction of 1, in units of 2^-24.
    let sum = round_binary32(u1 + u2);
    let centered = round_binary32(sum - 0x100_0000);
    // times 0.15f32, in units of 2^-50.
    let variance = round_binary32(centered * fifteen_hundredths_numerator());
    // level as f32, in units of 1.
    let level32 = round_binary32(level);
    // level * variance, level + that, and + 0.5, in units of 2^-50.
    let product = round_binary32(level32 * variance);
    let raised = round_binary32(level32 * unit50() + product);
    let rounded = round_binary32(raised + unit50() / 2);
    let floor = rounded / unit50();
    let converted = if floor > i32::MAX {
        i32::MAX as int
    } else if floor < i32::MIN {
        i32::MIN as int
    } else {
        floor
    };
    if converted < 1 {
        1
    } else {
        converted
    }
}

/// The floor of `n / 2^50`.
fn floor_units(n: i128) -> (q: i128)
    requires
        -0x10_0000_0000_0000_0000_0000_0000 < n < 0x10_0000_0000_0000_0000_0000_0000,
    ensures
        q == n as int / unit50(),
{
    let d: i128 = 0x4_0000_0000_0000;
    if n >= 0 {
        n / d
    } else {
        let m = -n;
        let q = (m + d - 1) / d;
        proof {
            let mm: int = m + d - 1;
            let dd: int = d as int;
            let qq: int = q as int;
            vstd::arithmetic::div_mod::lemma_fundamental_div_mod(mm, dd);
            let r: int = mm % dd;
            assert(0 <= r < dd);
            assert(dd * qq + r == mm);
            let rr: int = n + dd * qq;
            assert(0 <= rr < dd);
            assert(n == dd * (-qq) + rr);
            vstd::arithmetic::div_mod::lemma_fundamental_div_mod_converse(n as int, dd, -qq, rr);
        }
        -q
    }
}

/// The enchanting power after vanilla's `f32` variance; see `adjusted_level_spec`.
pub fn adjusted_level(level: i32, u1: i32, u2: i32) -> (power: i32)
    requires
        0 <= u1 < 0x100_0000,
        0 <= u2 < 0x100_0000,
    ensures
        power == adjusted_level_spec(level as int, u1 as int, u2 as int),
        power >= 1,
{
    let sum = round_to_binary32((u1 as i128) + (u2 as i128));
    let centered = round_to_binary32(sum - 0x100_0000);
    proof {
        assert(-0x1000_0000 <= centered <= 0x1000_0000);
        assert(-0x1000_0000 * 10066330 <= centered * 10066330 <= 0x1000_0000 * 10066330)
            by (nonlinear_arith)
            requires
                -0x1000_0000 <= centered <= 0x1000_0000,
        ;
    }
    let variance = round_to_binary32(centered * 10066330);
    let level32 = round_to_binary32(level as i128);
    proof {
        assert(-0x20_0000_0000_0000 <= variance <= 0x20_0000_0000_0000);
        assert(-0x1_0000_0000 <= level32 <= 0x1_0000_0000);
        assert(-0x1_0000_0000 * 0x20_0000_0000_0000 <= level32 * variance <= 0x1_0000_0000
            * 0x20_0000_0000_0000) by (nonlinear_arith)
            requires
                -0x20_0000_0000_0000 <= variance <= 0x20_0000_0000_0000,
                -0x1_0000_0000 <= level32 <= 0x1_0000_0000,
        ;
        assert(-0x1_0000_0000 * 0x4_0000_0000_0000 <= level32 * 0x4_0000_0000_0000
            <= 0x1_0000_0000 * 0x4_0000_0000_0000) by (nonlinear_arith)
            requires
                -0x1_0000_0000 <= level32 <= 0x1_0000_0000,
        ;
    }
    let product = round_to_binary32(level32 * variance);
    let raised = round_to_binary32(level32 * 0x4_0000_0000_0000 + product);
    let rounded = round_to_binary32(raised + 0x2_0000_0000_0000);
    let floor = floor_units(rounded);
    let converted: i32 = if floor > 0x7FFF_FFFF {
        i32::MAX
    } else if floor < -0x8000_0000 {
        i32::MIN
    } else {
        floor as i32
    };
    if converted < 1 {
        1
    } else {
        converted
    }
}

/// `item`, or the enchanted book for a plain book.
pub open spec fn enchanted(item: Seq<char>) -> Seq<char> {
    if item == book_id() {
        enchanted_book_id()
    } else {
        item
    }
}

/// Bounds of the item data.
pub open spec fn items_ok(data: LootData) -> bool {
    forall|k: int| 0 <= k < data.items@.len() ==> 0 <= #[trigger] data.items@[k].enchantability <= 0x10_0000
}

/// Bounds of the enchantment lists that options can name.
pub open spec fn options_ok(options: Option<Vec<String>>) -> bool {
    options matches Some(v) ==> v@.len() <= 0x400
}

/// `enchant_with_levels`: raise the level by two draws below `enchantability / 4 + 1`,
/// apply the `f32` variance, list the enchantments the item can get at that
/// power, pick one by weight and then more while `nextInt(50)` allows. The
/// result is the state after the last draw and the item's new id.
#[verifier::opaque]
pub open spec fn enchant_with_levels_spec(
    data: LootData,
    item: Seq<char>,
    level: int,
    options: Seq<String>,
    s: u64,
) -> Result<(u64, Seq<char>), Seq<char>> {
    match item_index(data, item) {
        None => Err(unknown_item_text(item)),
        Some(i) => {
            let enchantability = data.items@[i].enchantability;
            if enchantability == 0 {
                Ok((s, item))
            } else {
                let spread = (enchantability / 4 + 1) as i32;
                let (s1, r1) = next_int_spec(s, spread);
                let (s2, r2) = next_int_spec(s1, spread);
                let (s3, u1) = draw24(s2);
                let (s4, u2) = draw24(s3);
                let power = adjusted_level_spec(level + 1 + r1 + r2, u1, u2);
                match enchantments_spec(data, option_ids(data, options)) {
                    Err(e) => Err(e),
                    Ok(found) => {
                        let available = available_spec(data, item, power, found);
                        if available.len() == 0 {
                            Ok((s4, item))
                        } else {
                            match choose_weighted_spec(data, available, s4) {
                                Err(e) => Err(e),
                                Ok((s5, p)) => match more_picks(
                                    data,
                                    available,
                                    available[p].0,
                                    power,
                                    s5,
                                ) {
                                    Err(e) => Err(e),
                                    Ok(s6) => Ok((s6, enchanted(item))),
                                },
                            }
                        }
                    },
                }
            }
        },
    }
}

/// The data that the enchanting functions read is within bounds.
pub open spec fn data_ok(data: LootData) -> bool {
    &&& enchantments_ok(data)
    &&& items_ok(data)
    &&& data.on_random_loot@.len() <= 0x400
    &&& data.goat_horns >= 0
}

/// Applies `enchant_with_levels` to `stack`.
fn enchant_with_levels(
    stack: &mut LootStack,
    random: &mut LegacyRandom48,
    data: &LootData,
    level: i32,
    options: &Vec<String>,
) -> (result: Result<(), String>)
    requires
        old(random).state() < 0x1_0000_0000_0000,
        data_ok(*data),
        options@.len() <= 0x400,
        -0x2000_0000 <= level <= 0x2000_0000,
    ensures
        final(random).state() < 0x1_0000_0000_0000,
        final(stack).count == old(stack).count,
        match enchant_with_levels_spec(*data, old(stack).item@, level as int, options@, old(random).state()) {
            Ok((next, item)) => result is Ok && final(random).state() == next && final(stack).item@ == item,
            Err(e) => result matches Err(m) && m@ == e,
        },
{
    proof {
        reveal_strlit("minecraft:book");
        reveal_strlit("minecraft:enchanted_book");
        reveal(enchant_with_levels_spec);
    }
    let i = match find_item(data, stack.item.as_str()) {
        Some(i) => i,
        None => {
            let mut message = "unknown 26.1.2 item: ".to_owned();
            message.append(stack.item.as_str());
            return Err(message);
        },
    };
    let enchantability = data.items[i].enchantability;
    if enchantability == 0 {
        return Ok(());
    }
    proof {
        assert(0 <= data.items@[i as int].enchantability <= 0x10_0000);
    }
    let spread = enchantability / 4 + 1;
    let r1 = random.next_int(spread);
    let r2 = random.next_int(spread);
    let raised = level + 1 + r1 + r2;
    let u1 = next_float_bits(random);
    let u2 = next_float_bits(random);
    let power = adjusted_level(raised, u1, u2);
    let found = match enchantments(data, options) {
        Ok(found) => found,
        Err(e) => {
            return Err(e);
        },
    };
    let available = available_enchantments(stack.item.as_str(), power, data, &found);
    if available.len() == 0 {
        return Ok(());
    }
    proof {
        assert(available_in(*data, available_views(available@))) by {
            assert forall|k: int| 0 <= k < available_views(available@).len() implies 0
                <= #[trigger] available_views(available@)[k].0 < data.enchantments@.len() by {
                assert(available_views(available@)[k].0 == available@[k].enchantment as int);
            }
        }
    }
    let mut selected: Vec<AvailableEnchantment> = Vec::new();
    match choose_weighted(&available, random, data, &mut selected) {
        Err(e) => {
            return Err(e);
        },
        Ok(()) => {},
    }
    let first = selected[0];
    proof {
        let p = choose|p: int| 0 <= p < available@.len() && selected@ == Seq::<AvailableEnchantment>::empty().push(available@[p]);
        assert(first == available@[p]);
        assert(available_views(available@)[p].0 == first.enchantment as int);
    }
    match pick_more(available, first.enchantment, power, random, data, &mut selected) {
        Err(e) => {
            return Err(e);
        },
        Ok(()) => {},
    }
    if str_eq(stack.item.as_str(), "minecraft:book") {
        stack.item = "minecraft:enchanted_book".to_owned();
    }
    Ok(())
}

/// The enchantments of `found` that `item` may get from `enchant_randomly`.
pub open spec fn eligible(data: LootData, found: Seq<int>, item: Seq<char>, only_compatible: bool) -> Seq<int>
    decreases found.len(),
{
    if found.len() == 0 {
        Seq::empty()
    } else {
        let rest = eligible(data, found.drop_last(), item, only_compatible);
        let e = found.last();
        if item == book_id() || !only_compatible || names_contain(
            data.enchantments@[e].compatible_items@,
            item,
        ) {
            rest.push(e)
        } else {
            rest
        }
    }
}

/// `enchant_randomly`: pick one of the eligible enchantments uniformly and a
/// level for it. The result is the state after and the item's new id.
#[verifier::opaque]
pub open spec fn enchant_randomly_spec(
    data: LootData,
    item: Seq<char>,
    options: Seq<String>,
    only_compatible: bool,
    s: u64,
) -> Result<(u64, Seq<char>), Seq<char>> {
    match enchantments_spec(data, option_ids(data, options)) {
        Err(e) => Err(e),
        Ok(found) => {
            let choices = eligible(data, found, item, only_compatible);
            if choices.len() == 0 {
                Ok((s, item))
            } else {
                let (s1, c) = next_int_spec(s, choices.len() as i32);
                let (s2, _) = next_inclusive_spec(s1, 1, data.enchantments@[choices[c as int]].max_level);
                Ok((s2, enchanted(item)))
            }
        },
    }
}

/// Applies `enchant_randomly` to `stack`.
fn enchant_randomly(
    stack: &mut LootStack,
    random: &mut LegacyRandom48,
    data: &LootData,
    options: &Vec<String>,
    only_compatible: bool,
) -> (result: Result<(), String>)
    requires
        old(random).state() < 0x1_0000_0000_0000,
        data_ok(*data),
        options@.len() <= 0x400,
    ensures
        final(random).state() < 0x1_0000_0000_0000,
        final(stack).count == old(stack).count,
        match enchant_randomly_spec(*data, old(stack).item@, options@, only_compatible, old(random).state()) {
            Ok((next, item)) => result is Ok && final(random).state() == next && final(stack).item@ == item,
            Err(e) => result matches Err(m) && m@ == e,
        },
{
    proof {
        reveal_strlit("minecraft:book");
        reveal_strlit("minecraft:enchanted_book");
        reveal(enchant_randomly_spec);
    }
    let found = match enchantments(data, options) {
        Ok(found) => found,
        Err(e) => {
            return Err(e);
        },
    };
    let ghost ids = found@.map_values(|i: usize| i as int);
    let book = str_eq(stack.item.as_str(), "minecraft:book");
    let mut choices: Vec<usize> = Vec::new();
    let mut k: usize = 0;
    while k < found.len()
        invariant
            ids == found@.map_values(|i: usize| i as int),
            all_enchantments(*data, ids),
            book == (stack.item@ == book_id()),
            k <= found@.len(),
            choices@.map_values(|i: usize| i as int) == eligible(*data, ids.take(k as int), stack.item@, only_compatible),
            choices@.len() <= k,
            forall|j: int| 0 <= j < choices@.len() ==> (#[trigger] choices@[j]) < data.enchantments@.len(),
        decreases found.len() - k,
    {
        proof {
            assert(ids.take(k + 1).drop_last() =~= ids.take(k as int));
            assert(ids.take(k + 1).last() == found@[k as int] as int);
            assert(ids[k as int] == found@[k as int] as int);
        }
        let e = found[k];
        let ghost before = choices@.map_values(|i: usize| i as int);
        if book || !only_compatible || contains_name(&data.enchantments[e].compatible_items, stack.item.as_str()) {
            choices.push(e);
            proof {
                assert(choices@.map_values(|i: usize| i as int) =~= before.push(e as int));
            }
        }
        k = k + 1;
    }
    proof {
        assert(ids.take(k as int) =~= ids);
    }
    if choices.len() == 0 {
        return Ok(());
    }
    let c = random.next_int(choices.len() as i32);
    let selected = choices[c as usize];
    proof {
        assert(choices@.map_values(|i: usize| i as int)[c as int] == selected as int);
        assert(enchantment_ok(data.enchantments@[selected as int]));
    }
    next_inclusive(random, 1, data.enchantments[selected].max_level);
    if book {
        stack.item = "minecraft:enchanted_book".to_owned();
    }
    Ok(())
}

// ---------------------------------------------------------------------------
// Item functions

/// The error for a function that needs a number and has none.
pub open spec fn requires_number_text(kind: Seq<char>) -> Seq<char> {
    kind + " requires a number"@
}

/// The error for a function that the replay does not know.
pub open spec fn unsupported_function_text(kind: Seq<char>) -> Seq<char> {
    "unsupported 26.1.2 loot function: "@ + kind
}

/// The enchantment options of a function, none when it has none.
pub open spec fn options_of(f: Function) -> Seq<String> {
    match f.options {
        Some(v) => v@,
        None => Seq::empty(),
    }
}

/// The item functions that the replay knows, grouped by what they draw.
#[derive(Clone, Copy, Debug, PartialEq, Eq, Structural)]
pub enum FunctionKind {
    SetCount,
    SetDamage,
    EnchantRandomly,
    EnchantWithLevels,
    /// `set_potion`, `exploration_map` and `set_name`, which draw nothing.
    NoDraw,
    SetOminousBottleAmplifier,
    SetInstrument,
    SetStewEffect,
    Unsupported,
}

/// The kind of the function with id `kind`.
pub open spec fn kind_of(kind: Seq<char>) -> FunctionKind {
    if kind == "minecraft:set_count"@ {
        FunctionKind::SetCount
    } else if kind == "minecraft:set_damage"@ {
        FunctionKind::SetDamage
    } else if kind == "minecraft:enchant_randomly"@ {
        FunctionKind::EnchantRandomly
    } else if kind == "minecraft:enchant_with_levels"@ {
        FunctionKind::EnchantWithLevels
    } else if kind == "minecraft:set_potion"@ || kind == "minecraft:exploration_map"@ || kind
        == "minecraft:set_name"@ {
        FunctionKind::NoDraw
    } else if kind == "minecraft:set_ominous_bottle_amplifier"@ {
        FunctionKind::SetOminousBottleAmplifier
    } else if kind == "minecraft:set_instrument"@ {
        FunctionKind::SetInstrument
    } else if kind == "minecraft:set_stew_effect"@ {
        FunctionKind::SetStewEffect
    } else {
        FunctionKind::Unsupported
    }
}

/// Classifies a function id.
fn classify(kind: &str) -> (k: FunctionKind)
    ensures
        k == kind_of(kind@),
{
    if str_eq(kind, "minecraft:set_count") {
        FunctionKind::SetCount
    } else if str_eq(kind, "minecraft:set_damage") {
        FunctionKind::SetDamage
    } else if str_eq(kind, "minecraft:enchant_randomly") {
        FunctionKind::EnchantRandomly
    } else if str_eq(kind, "minecraft:enchant_with_levels") {
        FunctionKind::EnchantWithLevels
    } else if str_eq(kind, "minecraft:set_potion") || str_eq(kind, "minecraft:exploration_map")
        || str_eq(kind, "minecraft:set_name") {
        FunctionKind::NoDraw
    } else if str_eq(kind, "minecraft:set_ominous_bottle_amplifier") {
        FunctionKind::SetOminousBottleAmplifier
    } else if str_eq(kind, "minecraft:set_instrument") {
        FunctionKind::SetInstrument
    } else if str_eq(kind, "minecraft:set_stew_effect") {
        FunctionKind::SetStewEffect
    } else {
        FunctionKind::Unsupported
    }
}

/// Applying one item function to a stack of `count` of `item`: the state
/// after, and the stack's new item and count.
pub open spec fn apply_spec(f: Function, data: LootData, item: Seq<char>, count: i32, s: u64) -> Result<(u64, Seq<char>, i32), Seq<char>> {
    let kind = f.kind@;
    match kind_of(kind) {
        FunctionKind::SetCount => match f.number {
            None => Err(requires_number_text(kind)),
            Some(n) => {
                let (s1, c) = next_inclusive_spec(s, n.min, n.max);
                Ok((s1, item, c))
            },
        },
        FunctionKind::SetDamage => match item_index(data, item) {
            None => Err(unknown_item_text(item)),
            Some(i) => if !data.items@[i].damageable {
                Ok((s, item, count))
            } else {
                match f.number {
                    None => Err(requires_number_text(kind)),
                    Some(n) => Ok((consume_float_spec(s, n), item, count)),
                }
            },
        },
        FunctionKind::EnchantRandomly => match enchant_randomly_spec(
            data,
            item,
            options_of(f),
            f.only_compatible,
            s,
        ) {
            Err(e) => Err(e),
            Ok((s1, new_item)) => Ok((s1, new_item, count)),
        },
        FunctionKind::EnchantWithLevels => match f.number {
            None => Err(requires_number_text(kind)),
            Some(n) => {
                let (s1, level) = next_inclusive_spec(s, n.min, n.max);
                match enchant_with_levels_spec(data, item, level as int, options_of(f), s1) {
                    Err(e) => Err(e),
                    Ok((s2, new_item)) => Ok((s2, new_item, count)),
                }
            },
        },
        FunctionKind::NoDraw => Ok((s, item, count)),
        FunctionKind::SetOminousBottleAmplifier => match f.number {
            None => Err(requires_number_text(kind)),
            Some(n) => Ok((next_inclusive_spec(s, n.min, n.max).0, item, count)),
        },
        FunctionKind::SetInstrument => if data.goat_horns != 0 {
            Ok((next_int_spec(s, data.goat_horns).0, item, count))
        } else {
            Ok((s, item, count))
        },
        FunctionKind::SetStewEffect => {
            let (s1, selected) = next_int_spec(s, f.alternatives@.len() as i32);
            Ok((consume_float_spec(s1, f.alternatives@[selected as int]), item, count))
        },
        FunctionKind::Unsupported => Err(unsupported_function_text(kind)),
    }
}

/// Bounds of a function's numbers and lists.
pub open spec fn function_ok(f: Function) -> bool {
    &&& (f.number matches Some(n) ==> number_ok(n))
    &&& options_ok(f.options)
    &&& (kind_of(f.kind@) == FunctionKind::SetStewEffect ==> 1 <= f.alternatives@.len() <= 0x7FFF_FFFF)
}

impl Function {
    /// The function's number provider.
    pub fn number(&self) -> (result: Result<NumberSpec, String>)
        ensures
            match self.number {
                Some(n) => result == Ok::<NumberSpec, String>(n),
                None => result matches Err(m) && m@ == requires_number_text(self.kind@),
            },
    {
        match self.number {
            Some(n) => Ok(n),
            None => {
                let mut message = self.kind.clone();
                message.append(" requires a number");
                Err(message)
            },
        }
    }
}

/// Applies one item function to `stack`.
fn apply(
    function: &Function,
    stack: &mut LootStack,
    data: &LootData,
    random: &mut LegacyRandom48,
) -> (result: Result<(), String>)
    requires
        old(random).state() < 0x1_0000_0000_0000,
        data_ok(*data),
        function_ok(*function),
    ensures
        final(random).state() < 0x1_0000_0000_0000,
        match apply_spec(*function, *data, old(stack).item@, old(stack).count, old(random).state()) {
            Ok((next, item, count)) => result is Ok && final(random).state() == next
                && final(stack).item@ == item && final(stack).count == count,
            Err(e) => result matches Err(m) && m@ == e,
        },
{
    let none: Vec<String> = Vec::new();
    let options: &Vec<String> = match &function.options {
        Some(v) => v,
        None => &none,
    };
    assert(options@ == options_of(*function));
    match classify(function.kind.as_str()) {
        FunctionKind::SetCount => {
            let n = function.number()?;
            stack.count = n.next_int(random);
        },
        FunctionKind::SetDamage => {
            let i = match find_item(data, stack.item.as_str()) {
                Some(i) => i,
                None => {
                    let mut message = "unknown 26.1.2 item: ".to_owned();
                    message.append(stack.item.as_str());
                    return Err(message);
                },
            };
            if data.items[i].damageable {
                let n = function.number()?;
                n.consume_float(random);
            }
        },
        FunctionKind::EnchantRandomly => {
            enchant_randomly(stack, random, data, options, function.only_compatible)?;
        },
        FunctionKind::EnchantWithLevels => {
            let n = function.number()?;
            let level = n.next_int(random);
            enchant_with_levels(stack, random, data, level, options)?;
        },
        FunctionKind::NoDraw => {},
        FunctionKind::SetOminousBottleAmplifier => {
            let n = function.number()?;
            n.next_int(random);
        },
        FunctionKind::SetInstrument => {
            if data.goat_horns != 0 {
                random.next_int(data.goat_horns);
            }
        },
        FunctionKind::SetStewEffect => {
            let selected = random.next_int(function.alternatives.len() as i32);
            function.alternatives[selected as usize].consume_float(random);
        },
        FunctionKind::Unsupported => {
            let mut message = "unsupported 26.1.2 loot function: ".to_owned();
            message.append(function.kind.as_str());
            return Err(message);
        },
    }
    Ok(())
}

/// Applying `functions[k..]` in order.
pub open spec fn apply_from(
    functions: Seq<Function>,
    k: int,
    data: LootData,
    item: Seq<char>,
    count: i32,
    s: u64,
) -> Result<(u64, Seq<char>, i32), Seq<char>>
    decreases functions.len() - k,
{
    if k < 0 || k >= functions.len() {
        Ok((s, item, count))
    } else {
        match apply_spec(functions[k], data, item, count, s) {
            Err(e) => Err(e),
            Ok((s1, item1, count1)) => apply_from(functions, k + 1, data, item1, count1, s1),
        }
    }
}

/// Every function of the list is within bounds.
pub open spec fn functions_ok(functions: Seq<Function>) -> bool {
    forall|k: int| 0 <= k < functions.len() ==> function_ok(#[trigger] functions[k])
}

/// Applies all `functions` to `stack`, in order.
fn apply_all(
    functions: &Vec<Function>,
    stack: &mut LootStack,
    data: &LootData,
    random: &mut LegacyRandom48,
) -> (result: Result<(), String>)
    requires
        old(random).state() < 0x1_0000_0000_0000,
        data_ok(*data),
        functions_ok(functions@),
    ensures
        final(random).state() < 0x1_0000_0000_0000,
        match apply_from(functions@, 0, *data, old(stack).item@, old(stack).count, old(random).state()) {
            Ok((next, item, count)) => result is Ok && final(random).state() == next
                && final(stack).item@ == item && final(stack).count == count,
            Err(e) => result matches Err(m) && m@ == e,
        },
{
    let mut k: usize = 0;
    while k < functions.len()
        invariant
            data_ok(*data),
            functions_ok(functions@),
            k <= functions@.len(),
            random.state() < 0x1_0000_0000_0000,
            apply_from(functions@, 0, *data, old(stack).item@, old(stack).count, old(random).state())
                == apply_from(functions@, k as int, *data, stack.item@, stack.count, random.state()),
        decreases functions.len() - k,
    {
        apply(&functions[k], stack, data, random)?;
        k = k + 1;
    }
    Ok(())
}

// ---------------------------------------------------------------------------
// Entries and pools

/// The weight of the first `k` entries.
pub open spec fn entry_prefix(entries: Seq<Entry>, k: int) -> int
    decreases k,
{
    if k <= 0 {
        0
    } else {
        entry_prefix(entries, k - 1) + entries[k - 1].weight
    }
}

/// The first entry, from `k` on, where the running weight passes `choice`.
pub open spec fn first_entry_past(entries: Seq<Entry>, choice: int, k: int) -> Option<int>
    decreases entries.len() - k,
{
    if k < 0 || k >= entries.len() {
        None
    } else if choice - entry_prefix(entries, k + 1) < 0 {
        Some(k)
    } else {
        first_entry_past(entries, choice, k + 1)
    }
}

/// The error when entry weights do not cover a draw.
pub open spec fn entry_weights_text() -> Seq<char> {
    "loot entry weights are inconsistent"@
}

/// Picking an entry: the only one without a draw, otherwise by weight. The
/// result is the state after and the position of the entry.
#[verifier::opaque]
pub open spec fn select_spec(entries: Seq<Entry>, s: u64) -> Result<(u64, int), Seq<char>> {
    if entries.len() == 1 {
        Ok((s, 0))
    } else {
        let total = entry_prefix(entries, entries.len() as int);
        let (next, choice) = next_int_spec(s, total as i32);
        match first_entry_past(entries, choice as int, 0) {
            Some(k) => Ok((next, k)),
            None => Err(entry_weights_text()),
        }
    }
}

/// Entry weights that a draw can use: one entry, or non-negative weights with
/// a total between 1 and `i32::MAX`.
pub open spec fn weights_ok(entries: Seq<Entry>) -> bool {
    entries.len() == 1 || (entries.len() >= 2 && (forall|k: int|
        0 <= k < entries.len() ==> 0 <= #[trigger] entries[k].weight) && 1 <= entry_prefix(
        entries,
        entries.len() as int,
    ) <= i32::MAX)
}

/// With non-negative weights, the running weight only grows.
proof fn lemma_entry_prefix_monotone(entries: Seq<Entry>, j: int, k: int)
    requires
        0 <= j <= k <= entries.len(),
        forall|i: int| 0 <= i < entries.len() ==> 0 <= #[trigger] entries[i].weight,
    ensures
        0 <= entry_prefix(entries, j) <= entry_prefix(entries, k),
    decreases k,
{
    if k > 0 {
        if j < k {
            lemma_entry_prefix_monotone(entries, j, k - 1);
        } else {
            lemma_entry_prefix_monotone(entries, k - 1, k - 1);
        }
    }
}

/// Picks an entry of a pool.
fn select(entries: &Vec<Entry>, random: &mut LegacyRandom48) -> (result: Result<usize, String>)
    requires
        old(random).state() < 0x1_0000_0000_0000,
        weights_ok(entries@),
    ensures
        final(random).state() < 0x1_0000_0000_0000,
        match select_spec(entries@, old(random).state()) {
            Ok((next, k)) => (result matches Ok(j) && j as int == k) && final(random).state()
                == next && 0 <= k < entries@.len(),
            Err(e) => result matches Err(m) && m@ == e,
        },
{
    reveal(select_spec);
    if entries.len() == 1 {
        return Ok(0);
    }
    let ghost len = entries@.len() as int;
    let mut total: i32 = 0;
    let mut k: usize = 0;
    while k < entries.len()
        invariant
            weights_ok(entries@),
            entries@.len() >= 2,
            len == entries@.len(),
            k <= entries@.len(),
            total == entry_prefix(entries@, k as int),
            random.state() == old(random).state(),
        decreases entries.len() - k,
    {
        proof {
            lemma_entry_prefix_monotone(entries@, k + 1, len);
        }
        total = total + entries[k].weight;
        k = k + 1;
    }
    let choice0 = random.next_int(total);
    let mut choice = choice0;
    let mut k: usize = 0;
    while k < entries.len()
        invariant
            weights_ok(entries@),
            entries@.len() >= 2,
            len == entries@.len(),
            total == entry_prefix(entries@, len),
            0 <= choice0 < total,
            k <= entries@.len(),
            choice == choice0 - entry_prefix(entries@, k as int),
            first_entry_past(entries@, choice0 as int, 0) == first_entry_past(
                entries@,
                choice0 as int,
                k as int,
            ),
            random.state() < 0x1_0000_0000_0000,
            (random.state(), choice0) == next_int_spec(old(random).state(), total),
        decreases entries.len() - k,
    {
        proof {
            lemma_entry_prefix_monotone(entries@, k + 1, len);
            lemma_entry_prefix_monotone(entries@, k as int, len);
        }
        choice = choice - entries[k].weight;
        if choice < 0 {
            proof {
                assert(first_entry_past(entries@, choice0 as int, k as int) == Some(k as int));
            }
            proof {
                reveal(select_spec);
            }
            return Ok(k);
        }
        k = k + 1;
    }
    proof {
        reveal(select_spec);
    }
    Err("loot entry weights are inconsistent".to_owned())
}

/// The views of generated stacks.
pub open spec fn stack_views(stacks: Seq<LootStack>) -> Seq<(Seq<char>, i32)> {
    stacks.map_values(|st: LootStack| (st.item@, st.count))
}

/// The error when nested tables lead back to a table without end.
pub open spec fn nesting_text(id: Seq<char>) -> Seq<char> {
    "loot table nesting does not end: "@ + id
}

/// The error for an unknown table.
pub open spec fn table_not_found_text(id: Seq<char>) -> Seq<char> {
    "vanilla loot table not found: "@ + id
}

/// The stack of an item entry: one of its item, with the entry's functions
/// and then the pool's applied; an entry without item adds nothing.
#[verifier::opaque]
pub open spec fn item_stack_spec(
    data: LootData,
    pool: Pool,
    entry: Entry,
    s: u64,
    out: Seq<(Seq<char>, i32)>,
) -> Result<(u64, Seq<(Seq<char>, i32)>), Seq<char>> {
    match entry.item {
        None => Ok((s, out)),
        Some(item) => match apply_from(entry.functions@, 0, data, item@, 1, s) {
            Err(e) => Err(e),
            Ok((s1, item1, count1)) => match apply_from(pool.functions@, 0, data, item1, count1, s1) {
                Err(e) => Err(e),
                Ok((s2, item2, count2)) => Ok((s2, out.push((item2, count2)))),
            },
        },
    }
}

/// What rolling a nested table gives: the state after and all stacks so far.
pub type Rolled = Result<(u64, Seq<(Seq<char>, i32)>), Seq<char>>;

/// Rolling the table `id` from state `s` after the stacks `out`; nested tables
/// may go `fuel` levels deep. The result is the state after and all stacks.
pub open spec fn roll_table_spec(
    tables: Seq<Table>,
    data: LootData,
    id: Seq<char>,
    s: u64,
    out: Seq<(Seq<char>, i32)>,
    fuel: nat,
) -> Rolled
    decreases fuel, 1int,
{
    match table_index(tables, id) {
        None => Err(table_not_found_text(id)),
        Some(t) => roll_pools_spec(data, tables[t].pools@, 0, s, out, nested_roller(tables, data, fuel)),
    }
}

/// How the entries of a table at nesting depth `fuel` roll their nested tables.
pub open spec fn nested_roller(tables: Seq<Table>, data: LootData, fuel: nat) -> spec_fn(Seq<char>, u64, Seq<(Seq<char>, i32)>) -> Rolled
    decreases fuel, 0int,
{
    |id: Seq<char>, s: u64, out: Seq<(Seq<char>, i32)>|
        if fuel == 0 {
            Err(nesting_text(id))
        } else {
            roll_table_spec(tables, data, id, s, out, (fuel - 1) as nat)
        }
}

/// Rolling `pools[k..]` in order: each pool passes its chance, draws its number
/// of rolls, and rolls that many times; `nested` rolls nested tables.
pub open spec fn roll_pools_spec(
    data: LootData,
    pools: Seq<Pool>,
    k: int,
    s: u64,
    out: Seq<(Seq<char>, i32)>,
    nested: spec_fn(Seq<char>, u64, Seq<(Seq<char>, i32)>) -> Rolled,
) -> Rolled
    decreases pools.len() - k,
{
    if k < 0 || k >= pools.len() {
        Ok((s, out))
    } else {
        let pool = pools[k];
        let (s1, kept) = chance_spec(s, pool.random_chance);
        if !kept {
            roll_pools_spec(data, pools, k + 1, s1, out, nested)
        } else {
            let (s2, rolls) = next_inclusive_spec(s1, pool.rolls.min, pool.rolls.max);
            match roll_times_spec(data, pool, rolls as int, s2, out, nested) {
                Err(e) => Err(e),
                Ok((s3, out3)) => roll_pools_spec(data, pools, k + 1, s3, out3, nested),
            }
        }
    }
}

/// Rolling `pool` `remaining` more times.
pub open spec fn roll_times_spec(
    data: LootData,
    pool: Pool,
    remaining: int,
    s: u64,
    out: Seq<(Seq<char>, i32)>,
    nested: spec_fn(Seq<char>, u64, Seq<(Seq<char>, i32)>) -> Rolled,
) -> Rolled
    decreases remaining,
{
    if remaining <= 0 {
        Ok((s, out))
    } else {
        match roll_entry_spec(data, pool, s, out, nested) {
            Err(e) => Err(e),
            Ok((s1, out1)) => roll_times_spec(data, pool, remaining - 1, s1, out1, nested),
        }
    }
}

/// One roll of `pool`: pick an entry and test its chance.
#[verifier::opaque]
pub open spec fn roll_entry_spec(
    data: LootData,
    pool: Pool,
    s: u64,
    out: Seq<(Seq<char>, i32)>,
    nested: spec_fn(Seq<char>, u64, Seq<(Seq<char>, i32)>) -> Rolled,
) -> Rolled {
    match select_spec(pool.entries@, s) {
        Err(e) => Err(e),
        Ok((s1, i)) => {
            let entry = pool.entries@[i];
            let (s2, kept) = chance_spec(s1, entry.random_chance);
            if !kept {
                Ok((s2, out))
            } else {
                entry_result_spec(data, pool, entry, s2, out, nested)
            }
        },
    }
}

/// What a kept entry gives: the rolls of its nested table, or its item stack.
#[verifier::opaque]
pub open spec fn entry_result_spec(
    data: LootData,
    pool: Pool,
    entry: Entry,
    s: u64,
    out: Seq<(Seq<char>, i32)>,
    nested: spec_fn(Seq<char>, u64, Seq<(Seq<char>, i32)>) -> Rolled,
) -> Rolled {
    match entry.nested_table {
        Some(id) => nested(id@, s, out),
        None => item_stack_spec(data, pool, entry, s, out),
    }
}

/// A pool whose numbers, weights and functions are within bounds.
pub open spec fn pool_ok(pool: Pool) -> bool {
    &&& number_ok(pool.rolls)
    &&& weights_ok(pool.entries@)
    &&& functions_ok(pool.functions@)
    &&& forall|e: int| 0 <= e < pool.entries@.len() ==> functions_ok(#[trigger] pool.entries@[e].functions@)
}

/// A table whose pools are within bounds.
pub open spec fn table_ok(table: Table) -> bool {
    forall|p: int| 0 <= p < table.pools@.len() ==> pool_ok(#[trigger] table.pools@[p])
}

/// Loot data and tables that the replay can use: every draw has a positive
/// bound and the arithmetic stays in range.
#[verifier::opaque]
pub open spec fn valid_loot(tables: Seq<Table>, data: LootData) -> bool {
    &&& data_ok(data)
    &&& forall|t: int| 0 <= t < tables.len() ==> table_ok(#[trigger] tables[t])
}

/// What valid loot gives: valid data, and valid pools in every table.
proof fn lemma_valid_loot(tables: Seq<Table>, data: LootData, t: int)
    requires
        valid_loot(tables, data),
    ensures
        data_ok(data),
        0 <= t < tables.len() ==> table_ok(tables[t]),
{
    reveal(valid_loot);
}

/// Rolls the table `table_id` and appends its stacks to `result`.
fn roll_into(
    table_id: &str,
    tables: &Vec<Table>,
    data: &LootData,
    random: &mut LegacyRandom48,
    result: &mut Vec<LootStack>,
    fuel: usize,
) -> (outcome: Result<(), String>)
    requires
        old(random).state() < 0x1_0000_0000_0000,
        valid_loot(tables@, *data),
    ensures
        final(random).state() < 0x1_0000_0000_0000,
        match roll_table_spec(
            tables@,
            *data,
            table_id@,
            old(random).state(),
            stack_views(old(result)@),
            fuel as nat,
        ) {
            Ok((next, out)) => outcome is Ok && final(random).state() == next && stack_views(
                final(result)@,
            ) == out,
            Err(e) => outcome matches Err(m) && m@ == e,
        },
    decreases fuel, 2int,
{
    let t = match find_table(tables, table_id) {
        Some(t) => t,
        None => {
            let mut message = "vanilla loot table not found: ".to_owned();
            message.append(table_id);
            return Err(message);
        },
    };
    let table = &tables[t];
    proof {
        lemma_valid_loot(tables@, *data, t as int);
    }
    let mut k: usize = 0;
    while k < table.pools.len()
        invariant
            valid_loot(tables@, *data),
            table_ok(*table),
            k <= table.pools@.len(),
            random.state() < 0x1_0000_0000_0000,
            roll_table_spec(
                tables@,
                *data,
                table_id@,
                old(random).state(),
                stack_views(old(result)@),
                fuel as nat,
            ) == roll_pools_spec(
                *data,
                table.pools@,
                k as int,
                random.state(),
                stack_views(result@),
                nested_roller(tables@, *data, fuel as nat),
            ),
        decreases table.pools.len() - k,
    {
        let pool = &table.pools[k];
        proof {
            assert(pool_ok(table.pools@[k as int]));
        }
        if passes_chance(random, pool.random_chance) {
            let rolls = pool.rolls.next_int(random);
            let mut remaining: i32 = rolls;
            let mut done: i32 = 0;
            while done < rolls
                invariant
                    valid_loot(tables@, *data),
                    table_ok(*table),
                    pool_ok(*pool),
                    *pool == table.pools@[k as int],
                    k < table.pools@.len(),
                    0 <= done <= rolls || (rolls <= 0 && done == 0),
                    remaining == rolls - done,
                    random.state() < 0x1_0000_0000_0000,
                    roll_table_spec(
                        tables@,
                        *data,
                        table_id@,
                        old(random).state(),
                        stack_views(old(result)@),
                        fuel as nat,
                    ) == match roll_times_spec(
                        *data,
                        *pool,
                        remaining as int,
                        random.state(),
                        stack_views(result@),
                        nested_roller(tables@, *data, fuel as nat),
                    ) {
                        Err(e) => Err(e),
                        Ok((s3, out3)) => roll_pools_spec(
                            *data,
                            table.pools@,
                            k + 1,
                            s3,
                            out3,
                            nested_roller(tables@, *data, fuel as nat),
                        ),
                    },
                decreases rolls - done,
            {
                let ghost s_before = random.state();
                let ghost out_before = stack_views(result@);

                match roll_entry(pool, tables, data, random, result, fuel) {
                    Err(e) => {
                        return Err(e);
                    },
                    Ok(()) => {},
                }
                done = done + 1;
                remaining = remaining - 1;
            }
        }
        k = k + 1;
    }
    Ok(())
}

/// One roll of `pool`, appending its stack to `result` or rolling its nested table.
fn roll_entry(
    pool: &Pool,
    tables: &Vec<Table>,
    data: &LootData,
    random: &mut LegacyRandom48,
    result: &mut Vec<LootStack>,
    fuel: usize,
) -> (outcome: Result<(), String>)
    requires
        old(random).state() < 0x1_0000_0000_0000,
        valid_loot(tables@, *data),
        pool_ok(*pool),
    ensures
        final(random).state() < 0x1_0000_0000_0000,
        match roll_entry_spec(
            *data,
            *pool,
            old(random).state(),
            stack_views(old(result)@),
            nested_roller(tables@, *data, fuel as nat),
        ) {
            Ok((next, out)) => outcome is Ok && final(random).state() == next && stack_views(
                final(result)@,
            ) == out,
            Err(e) => outcome matches Err(m) && m@ == e,
        },
    decreases fuel, 1int,
{
    proof {
        reveal(roll_entry_spec);
    }
    let i = match select(&pool.entries, random) {
        Ok(i) => i,
        Err(e) => {
            return Err(e);
        },
    };
    let entry = &pool.entries[i];
    if !passes_chance(random, entry.random_chance) {
        return Ok(());
    }
    proof {
        assert(functions_ok(pool.entries@[i as int].functions@));
    }
    roll_entry_result(pool, entry, tables, data, random, result, fuel)
}

/// Rolls the nested table of a kept entry, or appends its item stack.
fn roll_entry_result(
    pool: &Pool,
    entry: &Entry,
    tables: &Vec<Table>,
    data: &LootData,
    random: &mut LegacyRandom48,
    result: &mut Vec<LootStack>,
    fuel: usize,
) -> (outcome: Result<(), String>)
    requires
        old(random).state() < 0x1_0000_0000_0000,
        valid_loot(tables@, *data),
        pool_ok(*pool),
        functions_ok(entry.functions@),
    ensures
        final(random).state() < 0x1_0000_0000_0000,
        match entry_result_spec(
            *data,
            *pool,
            *entry,
            old(random).state(),
            stack_views(old(result)@),
            nested_roller(tables@, *data, fuel as nat),
        ) {
            Ok((next, out)) => outcome is Ok && final(random).state() == next && stack_views(
                final(result)@,
            ) == out,
            Err(e) => outcome matches Err(m) && m@ == e,
        },
    decreases fuel, 0int,
{
    proof {
        reveal(entry_result_spec);
    }
    match &entry.nested_table {
        Some(nested) => {
            if fuel == 0 {
                let mut message = "loot table nesting does not end: ".to_owned();
                message.append(nested.as_str());
                return Err(message);
            }
            roll_into(nested.as_str(), tables, data, random, result, fuel - 1)
        },
        None => {
            proof {
                lemma_valid_loot(tables@, *data, 0);
            }
            push_item_stack(pool, entry, data, random, result)
        },
    }
}

/// Makes the stack of an item entry and appends it to `result`.
fn push_item_stack(
    pool: &Pool,
    entry: &Entry,
    data: &LootData,
    random: &mut LegacyRandom48,
    result: &mut Vec<LootStack>,
) -> (outcome: Result<(), String>)
    requires
        old(random).state() < 0x1_0000_0000_0000,
        data_ok(*data),
        functions_ok(pool.functions@),
        functions_ok(entry.functions@),
    ensures
        final(random).state() < 0x1_0000_0000_0000,
        match item_stack_spec(*data, *pool, *entry, old(random).state(), stack_views(old(result)@)) {
            Ok((next, out)) => outcome is Ok && final(random).state() == next && stack_views(
                final(result)@,
            ) == out,
            Err(e) => outcome matches Err(m) && m@ == e,
        },
{
    reveal(item_stack_spec);
    match &entry.item {
        None => Ok(()),
        Some(item) => {
            let mut stack = LootStack { item: item.clone(), count: 1 };
            match apply_all(&entry.functions, &mut stack, data, random) {
                Err(e) => {
                    return Err(e);
                },
                Ok(()) => {},
            }
            match apply_all(&pool.functions, &mut stack, data, random) {
                Err(e) => {
                    return Err(e);
                },
                Ok(()) => {},
            }
            let ghost before = stack_views(result@);
            result.push(stack);
            proof {
                assert(stack_views(result@) =~= before.push((stack.item@, stack.count)));
            }
            Ok(())
        },
    }
}

/// The error for the seed that marks an unseeded container.
pub open spec fn zero_seed_text() -> Seq<char> {
    "LootTableSeed 0 is vanilla's unseeded sentinel"@
}

/// Replays the loot table `loot_table` with the loot seed `seed`. A seed of 0
/// marks a container whose loot the game rolls from an unseeded random, so it
/// is refused.
pub fn roll(loot_table: &str, seed: i64, tables: &Vec<Table>, data: &LootData) -> (result: Result<Vec<LootStack>, String>)
    requires
        valid_loot(tables@, *data),
    ensures
        seed == 0 ==> (result matches Err(m) && m@ == zero_seed_text()),
        seed != 0 ==> match roll_table_spec(
            tables@,
            *data,
            loot_table@,
            scramble(seed),
            Seq::empty(),
            tables@.len(),
        ) {
            Ok((_, out)) => result matches Ok(v) && stack_views(v@) == out,
            Err(e) => result matches Err(m) && m@ == e,
        },
{
    if seed == 0 {
        return Err("LootTableSeed 0 is vanilla's unseeded sentinel".to_owned());
    }
    let mut random = LegacyRandom48::new(seed);
    proof {
        let s = random.state();
        assert(s == ((seed as u64) ^ 0x5_DEEC_E66Du64) & 0xFFFF_FFFF_FFFFu64);
        assert(((seed as u64) ^ 0x5_DEEC_E66Du64) & 0xFFFF_FFFF_FFFFu64 < 0x1_0000_0000_0000u64)
            by (bit_vector);
    }
    let mut result: Vec<LootStack> = Vec::new();
    proof {
        assert(stack_views(result@) =~= Seq::<(Seq<char>, i32)>::empty());
    }
    roll_into(loot_table, tables, data, &mut random, &mut result, tables.len())?;
    Ok(result)
}

// ---------------------------------------------------------------------------
// Checking the data

/// Whether a number provider is within bounds.
fn check_number(n: NumberSpec) -> (ok: bool)
    ensures
        ok == number_ok(n),
{
    -0x2000_0000 <= n.min && n.min <= 0x2000_0000 && -0x2000_0000 <= n.max && n.max <= 0x2000_0000
}

/// Whether a function is within bounds.
fn check_function(f: &Function) -> (ok: bool)
    ensures
        ok == function_ok(*f),
{
    let number_ok = match f.number {
        Some(n) => check_number(n),
        None => true,
    };
    let options_ok = match &f.options {
        Some(v) => v.len() <= 0x400,
        None => true,
    };
    let stew_ok = match classify(f.kind.as_str()) {
        FunctionKind::SetStewEffect => 1 <= f.alternatives.len() && f.alternatives.len() <= 0x7FFF_FFFF,
        _ => true,
    };
    number_ok && options_ok && stew_ok
}

/// Whether every function of a list is within bounds.
fn check_functions(functions: &Vec<Function>) -> (ok: bool)
    ensures
        ok == functions_ok(functions@),
{
    let mut k: usize = 0;
    while k < functions.len()
        invariant
            k <= functions@.len(),
            forall|j: int| 0 <= j < k ==> function_ok(#[trigger] functions@[j]),
        decreases functions.len() - k,
    {
        if !check_function(&functions[k]) {
            return false;
        }
        k = k + 1;
    }
    true
}

/// Whether the entry weights of a pool can be drawn from.
fn check_weights(entries: &Vec<Entry>) -> (ok: bool)
    ensures
        ok == weights_ok(entries@),
{
    if entries.len() == 1 {
        return true;
    }
    if entries.len() < 2 {
        return false;
    }
    let mut total: i64 = 0;
    let mut k: usize = 0;
    while k < entries.len()
        invariant
            k <= entries@.len(),
            entries@.len() >= 2,
            forall|j: int| 0 <= j < k ==> 0 <= #[trigger] entries@[j].weight,
            total == entry_prefix(entries@, k as int),
            0 <= total <= i32::MAX,
        decreases entries.len() - k,
    {
        let w = entries[k].weight;
        if w < 0 {
            return false;
        }
        if total + w as i64 > 0x7FFF_FFFF {
            proof {
                assert forall|j: int| 0 <= j < entries@.len() implies 0 <= #[trigger] entries@[j].weight
                    || !weights_ok(entries@) by {}
                if weights_ok(entries@) {
                    lemma_entry_prefix_monotone(entries@, k + 1, entries@.len() as int);
                }
            }
            return false;
        }
        total = total + w as i64;
        k = k + 1;
    }
    total >= 1
}

/// Whether a pool is within bounds.
fn check_pool(pool: &Pool) -> (ok: bool)
    ensures
        ok == pool_ok(*pool),
{
    if !check_number(pool.rolls) || !check_weights(&pool.entries) || !check_functions(&pool.functions) {
        return false;
    }
    let mut k: usize = 0;
    while k < pool.entries.len()
        invariant
            k <= pool.entries@.len(),
            forall|j: int| 0 <= j < k ==> functions_ok(#[trigger] pool.entries@[j].functions@),
        decreases pool.entries.len() - k,
    {
        if !check_functions(&pool.entries[k].functions) {
            return false;
        }
        k = k + 1;
    }
    true
}

/// Whether the enchantment and item data are within bounds.
fn check_data(data: &LootData) -> (ok: bool)
    ensures
        ok == data_ok(*data),
{
    if data.on_random_loot.len() > 0x400 || data.goat_horns < 0 {
        return false;
    }
    let mut k: usize = 0;
    while k < data.enchantments.len()
        invariant
            k <= data.enchantments@.len(),
            forall|j: int| 0 <= j < k ==> enchantment_ok(#[trigger] data.enchantments@[j]),
        decreases data.enchantments.len() - k,
    {
        let e = &data.enchantments[k];
        if !(1 <= e.weight && e.weight <= 0x10_0000 && -0x400 <= e.max_level && e.max_level <= 0x400
            && -0x400 <= e.min_cost_base && e.min_cost_base <= 0x400 && -0x400 <= e.min_cost_per_level
            && e.min_cost_per_level <= 0x400 && -0x400 <= e.max_cost_base && e.max_cost_base <= 0x400
            && -0x400 <= e.max_cost_per_level && e.max_cost_per_level <= 0x400) {
            return false;
        }
        k = k + 1;
    }
    let mut k: usize = 0;
    while k < data.items.len()
        invariant
            k <= data.items@.len(),
            forall|j: int| 0 <= j < k ==> 0 <= #[trigger] data.items@[j].enchantability <= 0x10_0000,
        decreases data.items.len() - k,
    {
        let e = data.items[k].enchantability;
        if !(0 <= e && e <= 0x10_0000) {
            return false;
        }
        k = k + 1;
    }
    true
}

/// Whether the tables and data can be replayed: every draw has a positive
/// bound and the arithmetic stays in range. `roll` asks for this.
pub fn check_loot(tables: &Vec<Table>, data: &LootData) -> (ok: bool)
    ensures
        ok == valid_loot(tables@, *data),
{
    reveal(valid_loot);
    if !check_data(data) {
        return false;
    }
    let mut t: usize = 0;
    while t < tables.len()
        invariant
            t <= tables@.len(),
            forall|j: int| 0 <= j < t ==> table_ok(#[trigger] tables@[j]),
        decreases tables.len() - t,
    {
        let table = &tables[t];
        let mut p: usize = 0;
        while p < table.pools.len()
            invariant
                t < tables@.len(),
                *table == tables@[t as int],
                p <= table.pools@.len(),
                forall|j: int| 0 <= j < p ==> pool_ok(#[trigger] table.pools@[j]),
            decreases table.pools.len() - p,
        {
            if !check_pool(&table.pools[p]) {
                proof {
                    reveal(valid_loot);
                    assert(!table_ok(tables@[t as int]));
                }
                return false;
            }
            p = p + 1;
        }
        t = t + 1;
    }
    true
}

// ---------------------------------------------------------------------------
// Validity of the data

/// Bounds of a number provider.
pub open spec fn number_ok(n: NumberSpec) -> bool {
    -0x2000_0000 <= n.min <= 0x2000_0000 && -0x2000_0000 <= n.max <= 0x2000_0000
}

/// A plain book accepts every enchantment, whatever `only_compatible` says.
proof fn lemma_book_takes_every_enchantment(data: LootData, found: Seq<int>, only_compatible: bool)
    ensures
        eligible(data, found, book_id(), only_compatible) == found,
    decreases found.len(),
{
    if found.len() > 0 {
        lemma_book_takes_every_enchantment(data, found.drop_last(), only_compatible);
        assert(found.drop_last().push(found.last()) =~= found);
    }
}

/// `enchant_randomly` turns a plain `minecraft:book` into a
/// `minecraft:enchanted_book` whenever the options name at least one known
/// enchantment (a book accepts them all), and never renames any other item;
/// as an item function it keeps the stack's count.
pub proof fn law_enchanting_a_book(
    data: LootData,
    options: Seq<String>,
    only_compatible: bool,
    s: u64,
    item: Seq<char>,
    f: Function,
    count: i32,
)
    ensures
        (enchantments_spec(data, option_ids(data, options)) matches Ok(found) && found.len() > 0)
            ==> (enchant_randomly_spec(data, "minecraft:book"@, options, only_compatible, s) matches Ok(
            (_, result),
        ) && result == "minecraft:enchanted_book"@),
        item != "minecraft:book"@ ==> (enchant_randomly_spec(data, item, options, only_compatible, s) matches Ok(
            (_, result),
        ) ==> result == item),
        f.kind@ == "minecraft:enchant_randomly"@ ==> (apply_spec(f, data, item, count, s) matches Ok(
            (_, result, n),
        ) ==> n == count && (item != "minecraft:book"@ ==> result == item)),
        (f.kind@ == "minecraft:enchant_randomly"@ && (enchantments_spec(
            data,
            option_ids(data, options_of(f)),
        ) matches Ok(found) && found.len() > 0)) ==> (apply_spec(f, data, "minecraft:book"@, count, s) matches Ok(
            (_, result, n),
        ) && result == "minecraft:enchanted_book"@ && n == count),
{
    lemma_enchant_randomly_item(data, options, only_compatible, s, item);
    lemma_enchant_randomly_item(data, options_of(f), f.only_compatible, s, item);
    lemma_enchant_randomly_item(data, options_of(f), f.only_compatible, s, "minecraft:book"@);
    if f.kind@ == "minecraft:enchant_randomly"@ {
        reveal_strlit("minecraft:set_count");
        reveal_strlit("minecraft:set_damage");
        reveal_strlit("minecraft:enchant_randomly");
        assert(kind_of(f.kind@) == FunctionKind::EnchantRandomly);
    }
}

/// What `enchant_randomly` makes of an item's id.
proof fn lemma_enchant_randomly_item(
    data: LootData,
    options: Seq<String>,
    only_compatible: bool,
    s: u64,
    item: Seq<char>,
)
    ensures
        (enchantments_spec(data, option_ids(data, options)) matches Ok(found) && found.len() > 0)
            ==> (enchant_randomly_spec(data, "minecraft:book"@, options, only_compatible, s) matches Ok(
            (_, result),
        ) && result == "minecraft:enchanted_book"@),
        item != "minecraft:book"@ ==> (enchant_randomly_spec(data, item, options, only_compatible, s) matches Ok(
            (_, result),
        ) ==> result == item),
{
    reveal(enchant_randomly_spec);
    if let Ok(found) = enchantments_spec(data, option_ids(data, options)) {
        lemma_book_takes_every_enchantment(data, found, only_compatible);
    }
}

/// `enchant_with_levels` renames no item but a plain book, and a plain
/// book only to `minecraft:enchanted_book`.
pub proof fn law_enchanting_renames_only_books(data: LootData, item: Seq<char>, level: int, options: Seq<String>, s: u64)
    ensures
        enchant_with_levels_spec(data, item, level, options, s) matches Ok((_, result)) ==> (result
            == item || (item == "minecraft:book"@ && result == "minecraft:enchanted_book"@)),
{
    reveal(enchant_with_levels_spec);
}

} // verus!
