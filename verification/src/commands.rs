//! What the commands compute from the scans and loot rolls before they print:
//! which containers `chests` lists, what `find` counts and matches, which
//! tables `loot` accepts, and the structures that `explain` lists as fully
//! scanned.

use vstd::prelude::*;

use crate::catalog::{candidate_structures, catalog, CandidateStructure, DecorationSeedSpec};
use crate::error::{is_usage_error, Error};
use crate::legacy_random::scramble;
use crate::loot::{roll, roll_table_spec, stack_views, valid_loot, LootData, LootStack, Table};
use crate::strings::{join, str_eq};
use crate::worldgen::{Chest, Scan};

verus! {

/// How many of `total` results a report shows: at most `limit`, or at most
/// `default_limit` when no limit is given.
pub open spec fn shown_count_spec(total: int, limit: Option<i32>, default_limit: i32) -> int {
    let cap = match limit {
        Some(l) => l as int,
        None => default_limit as int,
    };
    if total <= cap {
        total
    } else {
        cap
    }
}

/// How many of `total` results a report shows: at most `limit`, or at most
/// `default_limit` when no limit is given.
pub fn shown_count(total: usize, limit: Option<i32>, default_limit: i32) -> (shown: usize)
    requires
        default_limit >= 0,
        limit matches Some(l) ==> l >= 0,
    ensures
        shown == shown_count_spec(total as int, limit, default_limit),
{
    let cap = match limit {
        Some(l) => l,
        None => default_limit,
    };
    if total <= cap as usize {
        total
    } else {
        cap as usize
    }
}

/// Whether some catalog entry lists the loot table `table`.
pub open spec fn is_listed_table(table: Seq<char>) -> bool {
    exists|i: int, j: int|
        0 <= i < catalog().len() && 0 <= j < catalog()[i].loot_tables@.len() && (
        #[trigger] catalog()[i].loot_tables@[j])@ == table
}

/// Whether the loot table `table` belongs to a catalog structure, which is
/// what `loot` accepts.
pub fn is_supported_loot_table(table: &str) -> (supported: bool)
    ensures
        supported == is_listed_table(table@),
{
    let structures = candidate_structures();
    let mut i: usize = 0;
    while i < structures.len()
        invariant
            structures@ == catalog(),
            i <= structures@.len(),
            forall|a: int, b: int|
                0 <= a < i && 0 <= b < catalog()[a].loot_tables@.len() ==> (
                #[trigger] catalog()[a].loot_tables@[b])@ != table@,
        decreases structures.len() - i,
    {
        let tables = structures[i].loot_tables;
        let mut j: usize = 0;
        while j < tables.len()
            invariant
                structures@ == catalog(),
                i < structures@.len(),
                tables@ == catalog()[i as int].loot_tables@,
                j <= tables@.len(),
                forall|a: int, b: int|
                    0 <= a < i && 0 <= b < catalog()[a].loot_tables@.len() ==> (
                    #[trigger] catalog()[a].loot_tables@[b])@ != table@,
                forall|b: int| 0 <= b < j ==> (#[trigger] tables@[b])@ != table@,
            decreases tables.len() - j,
        {
            if str_eq(tables[j], table) {
                proof {
                    assert(catalog()[i as int].loot_tables@[j as int]@ == table@);
                }
                return true;
            }
            j = j + 1;
        }
        i = i + 1;
    }
    false
}

/// The names of the entries of `structures` that have a full scanner, in order.
pub open spec fn full_scan_names_of(structures: Seq<CandidateStructure>) -> Seq<Seq<char>>
    decreases structures.len(),
{
    if structures.len() == 0 {
        Seq::empty()
    } else {
        let rest = full_scan_names_of(structures.drop_last());
        if structures.last().support is Full {
            rest.push(structures.last().name@)
        } else {
            rest
        }
    }
}

/// The names of the fully scanned structures, joined with `", "`, as
/// `explain` lists them.
pub fn full_scan_names() -> (text: String)
    ensures
        text@ == join(full_scan_names_of(catalog()), ", "@),
{
    let structures = candidate_structures();
    let mut text = String::new();
    let ghost mut names: Seq<Seq<char>> = Seq::empty();
    let mut any = false;
    let mut i: usize = 0;
    while i < structures.len()
        invariant
            structures@ == catalog(),
            i <= structures@.len(),
            names == full_scan_names_of(structures@.take(i as int)),
            text@ == join(names, ", "@),
            any == (names.len() != 0),
        decreases structures.len() - i,
    {
        proof {
            assert(structures@.take(i + 1).drop_last() =~= structures@.take(i as int));
            assert(structures@.take(i + 1).last() == structures@[i as int]);
        }
        let structure = structures[i];
        if structure.supports_full_scan() {
            if any {
                text.append(", ");
            }
            text.append(structure.name);
            any = true;
            proof {
                let pushed = names.push(structure.name@);
                if names.len() == 0 {
                    assert(join(pushed, ", "@) == pushed[0]);
                    assert(text@ =~= join(pushed, ", "@));
                } else {
                    assert(pushed.drop_last() =~= names);
                    assert(text@ =~= join(pushed, ", "@));
                }
                names = pushed;
            }
        }
        i = i + 1;
    }
    proof {
        assert(structures@.take(i as int) =~= structures@);
    }
    text
}

/// The containers of the valid scans, in order.
pub open spec fn valid_chests(scans: Seq<Scan>) -> Seq<Chest>
    decreases scans.len(),
{
    if scans.len() == 0 {
        Seq::empty()
    } else {
        let rest = valid_chests(scans.drop_last());
        if scans.last().valid_structure {
            rest + scans.last().chests@
        } else {
            rest
        }
    }
}

/// The number of valid scans.
pub open spec fn valid_count(scans: Seq<Scan>) -> int
    decreases scans.len(),
{
    if scans.len() == 0 {
        0
    } else {
        valid_count(scans.drop_last()) + if scans.last().valid_structure {
            1int
        } else {
            0int
        }
    }
}

/// The containers that have a loot table.
pub open spec fn with_loot_table(chests: Seq<Chest>) -> Seq<Chest>
    decreases chests.len(),
{
    if chests.len() == 0 {
        Seq::empty()
    } else {
        let rest = with_loot_table(chests.drop_last());
        if chests.last().loot_table@.len() > 0 {
            rest.push(chests.last())
        } else {
            rest
        }
    }
}

/// A copy of a container.
fn copy_chest(chest: &Chest) -> (copy: Chest)
    ensures
        copy == *chest,
{
    Chest {
        structure_chunk_x: chest.structure_chunk_x,
        structure_chunk_z: chest.structure_chunk_z,
        x: chest.x,
        y: chest.y,
        z: chest.z,
        loot_table: chest.loot_table.clone(),
        ordinal: chest.ordinal,
        loot_seed: chest.loot_seed,
    }
}

/// What `chests` lists: the number of valid structures, and the containers of
/// the valid structures that have a loot table.
pub fn valid_containers(scans: Vec<Scan>) -> (result: (usize, Vec<Chest>))
    ensures
        result.0 == valid_count(scans@),
        result.1@ == with_loot_table(valid_chests(scans@)),
{
    let mut valid_structures: usize = 0;
    let mut containers: Vec<Chest> = Vec::new();
    let mut i: usize = 0;
    while i < scans.len()
        invariant
            i <= scans@.len(),
            valid_structures == valid_count(scans@.take(i as int)),
            valid_structures <= i,
            containers@ == with_loot_table(valid_chests(scans@.take(i as int))),
        decreases scans.len() - i,
    {
        proof {
            assert(scans@.take(i + 1).drop_last() =~= scans@.take(i as int));
            assert(scans@.take(i + 1).last() == scans@[i as int]);
        }
        let scan = &scans[i];
        if scan.valid_structure {
            valid_structures = valid_structures + 1;
            let ghost before = valid_chests(scans@.take(i as int));
            let mut k: usize = 0;
            while k < scan.chests.len()
                invariant
                    k <= scan.chests@.len(),
                    containers@ == with_loot_table(before + scan.chests@.take(k as int)),
                decreases scan.chests.len() - k,
            {
                proof {
                    assert((before + scan.chests@.take(k + 1)).drop_last() =~= before + scan.chests@.take(k as int));
                    assert((before + scan.chests@.take(k + 1)).last() == scan.chests@[k as int]);
                }
                let chest = &scan.chests[k];
                if chest.loot_table.as_str().unicode_len() > 0 {
                    containers.push(copy_chest(chest));
                }
                k = k + 1;
            }
            proof {
                assert(scan.chests@.take(scan.chests@.len() as int) =~= scan.chests@);
            }
        }
        i = i + 1;
    }
    proof {
        assert(scans@.take(i as int) =~= scans@);
    }
    (valid_structures, containers)
}

/// The total count of the stacks of `item`.
pub open spec fn item_total(stacks: Seq<LootStack>, item: Seq<char>) -> int
    decreases stacks.len(),
{
    if stacks.len() == 0 {
        0
    } else {
        item_total(stacks.drop_last(), item) + if stacks.last().item@ == item {
            stacks.last().count as int
        } else {
            0int
        }
    }
}

/// How many of `item` the stacks hold together, as `find` counts a container.
pub fn item_count(stacks: &Vec<LootStack>, item: &str) -> (total: i64)
    requires
        stacks@.len() < 0x1_0000_0000,
    ensures
        total == item_total(stacks@, item@),
{
    let mut total: i64 = 0;
    let mut k: usize = 0;
    while k < stacks.len()
        invariant
            stacks@.len() < 0x1_0000_0000,
            k <= stacks@.len(),
            total == item_total(stacks@.take(k as int), item@),
            -0x8000_0000 * k <= total <= 0x8000_0000 * k,
        decreases stacks.len() - k,
    {
        proof {
            assert(stacks@.take(k + 1).drop_last() =~= stacks@.take(k as int));
            assert(stacks@.take(k + 1).last() == stacks@[k as int]);
            assert(0x8000_0000 * k <= 0x8000_0000 * 0x1_0000_0000) by (nonlinear_arith)
                requires
                    k < 0x1_0000_0000,
            ;
        }
        if str_eq(stacks[k].item.as_str(), item) {
            total = total + stacks[k].count as i64;
        }
        k = k + 1;
    }
    proof {
        assert(stacks@.take(k as int) =~= stacks@);
    }
    total
}


/// The count of `item` in rolled stacks, given as item and count.
pub open spec fn rolled_total(stacks: Seq<(Seq<char>, i32)>, item: Seq<char>) -> int
    decreases stacks.len(),
{
    if stacks.len() == 0 {
        0
    } else {
        rolled_total(stacks.drop_last(), item) + if stacks.last().0 == item {
            stacks.last().1 as int
        } else {
            0int
        }
    }
}

/// Whether every running total of `item` over the stacks fits an `i32`.
pub open spec fn running_totals_fit(stacks: Seq<(Seq<char>, i32)>, item: Seq<char>) -> bool {
    forall|k: int|
        0 <= k <= stacks.len() ==> i32::MIN <= #[trigger] rolled_total(stacks.take(k), item)
            <= i32::MAX
}

/// The message for an item count that leaves the `i32` range.
pub open spec fn count_overflow_text() -> Seq<char> {
    "item count overflowed"@
}

/// The names of loot tables.
pub open spec fn table_names(tables: Seq<&'static str>) -> Seq<Seq<char>> {
    tables.map_values(|t: &'static str| t@)
}

/// The matches of `find` as containers and counts.
pub open spec fn found_view(matches: Seq<(Chest, i32)>) -> Seq<(Chest, int)> {
    matches.map_values(|m: (Chest, i32)| (m.0, m.1 as int))
}

/// `find`'s tally after one more container `c`: a container without one of
/// the `listed` loot tables is passed over; one with the unseeded seed 0 is
/// counted but not rolled; any other is rolled and kept when it holds `item`.
/// A roll that fails, or a count that leaves the `i32` range, ends the search
/// with its error.
pub open spec fn find_step_spec(
    state: (int, int, Seq<(Chest, int)>),
    c: Chest,
    listed: Seq<Seq<char>>,
    item: Seq<char>,
    tables: Seq<Table>,
    data: LootData,
) -> Result<(int, int, Seq<(Chest, int)>), Seq<char>> {
    let (checked, zeros, found) = state;
    if !listed.contains(c.loot_table@) {
        Ok((checked, zeros, found))
    } else if c.loot_seed == 0 {
        Ok((checked + 1, zeros + 1, found))
    } else {
        match roll_table_spec(
            tables,
            data,
            c.loot_table@,
            scramble(c.loot_seed),
            Seq::empty(),
            tables.len(),
        ) {
            Err(e) => Err(e),
            Ok((_, out)) => if !running_totals_fit(out, item) {
                Err(count_overflow_text())
            } else if rolled_total(out, item) > 0 {
                Ok((checked + 1, zeros, found.push((c, rolled_total(out, item)))))
            } else {
                Ok((checked + 1, zeros, found))
            },
        }
    }
}

/// What `find` has tallied after the containers `chests`, in order: the
/// containers checked, those of them with seed 0, and the matches.
pub open spec fn find_fold(
    chests: Seq<Chest>,
    listed: Seq<Seq<char>>,
    item: Seq<char>,
    tables: Seq<Table>,
    data: LootData,
) -> Result<(int, int, Seq<(Chest, int)>), Seq<char>>
    decreases chests.len(),
{
    if chests.len() == 0 {
        Ok((0, 0, Seq::empty()))
    } else {
        match find_fold(chests.drop_last(), listed, item, tables, data) {
            Err(e) => Err(e),
            Ok(state) => find_step_spec(state, chests.last(), listed, item, tables, data),
        }
    }
}

/// Every container that `find` reports has one of the structure's loot
/// tables, a seed other than 0, and at least one of the item, counted over
/// the stacks that its roll gives.
pub proof fn law_find_reports_only_holders(
    chests: Seq<Chest>,
    listed: Seq<Seq<char>>,
    item: Seq<char>,
    tables: Seq<Table>,
    data: LootData,
)
    ensures
        find_fold(chests, listed, item, tables, data) matches Ok((_, _, found)) ==> forall|k: int|
            0 <= k < found.len() ==> {
                let (c, count) = #[trigger] found[k];
                &&& listed.contains(c.loot_table@)
                &&& c.loot_seed != 0
                &&& count > 0
                &&& roll_table_spec(
                    tables,
                    data,
                    c.loot_table@,
                    scramble(c.loot_seed),
                    Seq::empty(),
                    tables.len(),
                ) matches Ok((_, out)) && rolled_total(out, item) == count
            },
    decreases chests.len(),
{
    if chests.len() > 0 {
        law_find_reports_only_holders(chests.drop_last(), listed, item, tables, data);
        if let Ok(state) = find_fold(chests.drop_last(), listed, item, tables, data) {
            if let Ok((_, _, found)) = find_fold(chests, listed, item, tables, data) {
                assert forall|k: int| 0 <= k < found.len() implies {
                    let (c, count) = #[trigger] found[k];
                    &&& listed.contains(c.loot_table@)
                    &&& c.loot_seed != 0
                    &&& count > 0
                    &&& roll_table_spec(
                        tables,
                        data,
                        c.loot_table@,
                        scramble(c.loot_seed),
                        Seq::empty(),
                        tables.len(),
                    ) matches Ok((_, out)) && rolled_total(out, item) == count
                } by {
                    if k < state.2.len() {
                        assert(found[k] == state.2[k]);
                    }
                }
            }
        }
    }
}

/// A failed tally stays failed, with the same error, whatever follows.
proof fn lemma_find_fold_error(
    prefix: Seq<Chest>,
    rest: Seq<Chest>,
    listed: Seq<Seq<char>>,
    item: Seq<char>,
    tables: Seq<Table>,
    data: LootData,
)
    requires
        find_fold(prefix, listed, item, tables, data) is Err,
    ensures
        find_fold(prefix + rest, listed, item, tables, data) == find_fold(
            prefix,
            listed,
            item,
            tables,
            data,
        ),
    decreases rest.len(),
{
    if rest.len() == 0 {
        assert(prefix + rest =~= prefix);
    } else {
        lemma_find_fold_error(prefix, rest.drop_last(), listed, item, tables, data);
        assert((prefix + rest).drop_last() =~= prefix + rest.drop_last());
    }
}

/// A tally counts no more containers than it has seen.
proof fn lemma_find_fold_counts(
    chests: Seq<Chest>,
    listed: Seq<Seq<char>>,
    item: Seq<char>,
    tables: Seq<Table>,
    data: LootData,
)
    ensures
        find_fold(chests, listed, item, tables, data) matches Ok((checked, zeros, found)) ==> 0
            <= zeros <= checked <= chests.len() && found.len() <= checked,
    decreases chests.len(),
{
    if chests.len() > 0 {
        lemma_find_fold_counts(chests.drop_last(), listed, item, tables, data);
    }
}

/// The containers of the valid scans before scan `i` come first among all of
/// them.
proof fn lemma_valid_chests_prefix(scans: Seq<Scan>, i: int, n: int)
    requires
        0 <= i <= n <= scans.len(),
    ensures
        valid_chests(scans.take(i)).len() <= valid_chests(scans.take(n)).len(),
    decreases n - i,
{
    if i < n {
        lemma_valid_chests_prefix(scans, i, n - 1);
        assert(scans.take(n).drop_last() =~= scans.take(n - 1));
    }
}

/// What `find` reports once the scans are checked.
#[derive(Debug)]
pub struct FindOutcome {
    pub valid_structures: usize,
    pub checked_chests: usize,
    pub unpredictable_zero_seeds: usize,
    pub matches: Vec<(Chest, i32)>,
}

/// Whether `table` is one of `tables`.
fn listed_table(tables: &[&'static str], table: &str) -> (yes: bool)
    ensures
        yes == table_names(tables@).contains(table@),
{
    let mut k: usize = 0;
    while k < tables.len()
        invariant
            k <= tables@.len(),
            forall|j: int| 0 <= j < k ==> (#[trigger] tables@[j])@ != table@,
        decreases tables.len() - k,
    {
        if str_eq(tables[k], table) {
            proof {
                assert(table_names(tables@)[k as int] == table@);
            }
            return true;
        }
        k = k + 1;
    }
    proof {
        if table_names(tables@).contains(table@) {
            let j = choose|j: int| 0 <= j < table_names(tables@).len() && table_names(tables@)[j] == table@;
            assert(tables@[j]@ == table@);
        }
    }
    false
}

/// The count of `item` in rolled stacks, or `None` when a running total
/// leaves the `i32` range.
fn count_item(stacks: &Vec<LootStack>, item: &str) -> (count: Option<i32>)
    ensures
        running_totals_fit(stack_views(stacks@), item@) ==> count == Some(
            rolled_total(stack_views(stacks@), item@) as i32,
        ),
        !running_totals_fit(stack_views(stacks@), item@) ==> count is None,
{
    let ghost views = stack_views(stacks@);
    let mut total: i32 = 0;
    let mut k: usize = 0;
    proof {
        assert(views.take(0) =~= Seq::<(Seq<char>, i32)>::empty());
    }
    while k < stacks.len()
        invariant
            views == stack_views(stacks@),
            k <= stacks@.len(),
            total == rolled_total(views.take(k as int), item@),
            forall|j: int| 0 <= j <= k ==> i32::MIN <= #[trigger] rolled_total(views.take(j), item@)
                <= i32::MAX,
        decreases stacks.len() - k,
    {
        proof {
            assert(views.take(k + 1).drop_last() =~= views.take(k as int));
            assert(views.take(k + 1).last() == (stacks@[k as int].item@, stacks@[k as int].count));
        }
        if str_eq(stacks[k].item.as_str(), item) {
            match total.checked_add(stacks[k].count) {
                Some(t) => {
                    total = t;
                },
                None => {
                    proof {
                        assert(!(i32::MIN <= rolled_total(views.take(k + 1), item@) <= i32::MAX));
                    }
                    return None;
                },
            }
        }
        k = k + 1;
    }
    proof {
        assert(views.take(k as int) =~= views);
    }
    Some(total)
}

/// Checks one more container for `find`.
fn find_step(
    chest: &Chest,
    loot_tables: &[&'static str],
    item: &str,
    tables: &Vec<Table>,
    data: &LootData,
    checked: &mut usize,
    zeros: &mut usize,
    matches: &mut Vec<(Chest, i32)>,
) -> (outcome: Result<(), String>)
    requires
        valid_loot(tables@, *data),
        *old(checked) < usize::MAX,
        *old(zeros) < usize::MAX,
    ensures
        match find_step_spec(
            (*old(checked) as int, *old(zeros) as int, found_view(old(matches)@)),
            *chest,
            table_names(loot_tables@),
            item@,
            tables@,
            *data,
        ) {
            Ok((c, z, f)) => outcome is Ok && *final(checked) == c && *final(zeros) == z
                && found_view(final(matches)@) == f,
            Err(e) => outcome matches Err(m) && m@ == e,
        },
{
    if !listed_table(loot_tables, chest.loot_table.as_str()) {
        return Ok(());
    }
    if chest.loot_seed == 0 {
        *checked = *checked + 1;
        *zeros = *zeros + 1;
        return Ok(());
    }
    let stacks = match roll(chest.loot_table.as_str(), chest.loot_seed, tables, data) {
        Ok(stacks) => stacks,
        Err(e) => {
            return Err(e);
        },
    };
    match count_item(&stacks, item) {
        None => {
            proof {
                reveal_strlit("item count overflowed");
            }
            Err("item count overflowed".to_owned())
        },
        Some(count) => {
            proof {
                let v = stack_views(stacks@);
                assert(v.take(v.len() as int) =~= v);
                assert(i32::MIN <= rolled_total(v.take(v.len() as int), item@) <= i32::MAX);
            }
            *checked = *checked + 1;
            if count > 0 {
                let ghost before = matches@;
                matches.push((copy_chest(chest), count));
                proof {
                    assert(found_view(matches@) =~= found_view(before).push((*chest, count as int)));
                }
            }
            Ok(())
        },
    }
}

/// What `find` reports for the scans of a structure whose loot tables are
/// `loot_tables`: it rolls every container of a valid structure that has one
/// of those tables, except those with the unseeded seed 0, and keeps those
/// that hold `item`.
pub fn find_matches(
    scans: &Vec<Scan>,
    loot_tables: &[&'static str],
    item: &str,
    tables: &Vec<Table>,
    data: &LootData,
) -> (result: Result<FindOutcome, String>)
    requires
        valid_loot(tables@, *data),
        valid_chests(scans@).len() < usize::MAX,
    ensures
        match find_fold(valid_chests(scans@), table_names(loot_tables@), item@, tables@, *data) {
            Ok((checked, zeros, found)) => result matches Ok(outcome) && outcome.valid_structures
                == valid_count(scans@) && outcome.checked_chests == checked
                && outcome.unpredictable_zero_seeds == zeros && found_view(outcome.matches@)
                == found,
            Err(e) => result matches Err(m) && m@ == e,
        },
{
    let ghost listed = table_names(loot_tables@);
    let ghost all = valid_chests(scans@);
    let mut valid_structures: usize = 0;
    let mut checked: usize = 0;
    let mut zeros: usize = 0;
    let mut matches: Vec<(Chest, i32)> = Vec::new();
    let mut i: usize = 0;
    proof {
        assert(found_view(matches@) =~= Seq::<(Chest, int)>::empty());
    }
    while i < scans.len()
        invariant
            valid_loot(tables@, *data),
            listed == table_names(loot_tables@),
            all == valid_chests(scans@),
            all.len() < usize::MAX,
            i <= scans@.len(),
            valid_structures == valid_count(scans@.take(i as int)),
            valid_structures <= i,
            find_fold(valid_chests(scans@.take(i as int)), listed, item@, tables@, *data) == Ok::<
                (int, int, Seq<(Chest, int)>),
                Seq<char>,
            >((checked as int, zeros as int, found_view(matches@))),
        decreases scans.len() - i,
    {
        proof {
            assert(scans@.take(i + 1).drop_last() =~= scans@.take(i as int));
            assert(scans@.take(i + 1).last() == scans@[i as int]);
        }
        let scan = &scans[i];
        if scan.valid_structure {
            valid_structures = valid_structures + 1;
            let ghost before = valid_chests(scans@.take(i as int));
            proof {
                lemma_valid_chests_split(scans@, i as int);
            }
            let mut k: usize = 0;
            while k < scan.chests.len()
                invariant
                    valid_loot(tables@, *data),
                    listed == table_names(loot_tables@),
                    *scan == scans@[i as int],
                    before == valid_chests(scans@.take(i as int)),
                    all == valid_chests(scans@),
                    all =~= before + scan.chests@ + all.skip(
                        (before.len() + scan.chests@.len()) as int,
                    ),
                    all.len() < usize::MAX,
                    k <= scan.chests@.len(),
                    find_fold(before + scan.chests@.take(k as int), listed, item@, tables@, *data)
                        == Ok::<(int, int, Seq<(Chest, int)>), Seq<char>>(
                        (checked as int, zeros as int, found_view(matches@)),
                    ),
                decreases scan.chests.len() - k,
            {
                let ghost prefix = before + scan.chests@.take(k as int);
                let ghost next = before + scan.chests@.take(k + 1);
                proof {
                    assert(next.drop_last() =~= prefix);
                    assert(next.last() == scan.chests@[k as int]);
                    lemma_find_fold_counts(prefix, listed, item@, tables@, *data);
                }
                match find_step(
                    &scan.chests[k],
                    loot_tables,
                    item,
                    tables,
                    data,
                    &mut checked,
                    &mut zeros,
                    &mut matches,
                ) {
                    Err(e) => {
                        proof {
                            let rest = all.skip(next.len() as int);
                            lemma_find_fold_error(next, rest, listed, item@, tables@, *data);
                            assert(next + rest =~= all);
                        }
                        return Err(e);
                    },
                    Ok(()) => {},
                }
                k = k + 1;
            }
            proof {
                assert(scan.chests@.take(scan.chests@.len() as int) =~= scan.chests@);
                assert(scans@.take(i + 1).drop_last() =~= scans@.take(i as int));
                assert(valid_chests(scans@.take(i + 1)) =~= before + scan.chests@);
            }
        } else {
            proof {
                assert(valid_chests(scans@.take(i + 1)) =~= valid_chests(scans@.take(i as int)));
            }
        }
        i = i + 1;
    }
    proof {
        assert(scans@.take(i as int) =~= scans@);
    }
    Ok(FindOutcome { valid_structures, checked_chests: checked, unpredictable_zero_seeds: zeros, matches })
}

/// The containers of the valid scans are those before scan `i`, then those
/// of scan `i` if it is valid, then those after it.
proof fn lemma_valid_chests_split(scans: Seq<Scan>, i: int)
    requires
        0 <= i < scans.len(),
        scans[i].valid_structure,
    ensures
        valid_chests(scans) =~= valid_chests(scans.take(i)) + scans[i].chests@ + valid_chests(
            scans,
        ).skip((valid_chests(scans.take(i)).len() + scans[i].chests@.len()) as int),
{
    lemma_valid_chests_take_prefix(scans, i + 1, scans.len() as int);
    assert(scans.take(i + 1).drop_last() =~= scans.take(i));
    assert(scans.take(i + 1).last() == scans[i]);
    assert(scans.take(scans.len() as int) =~= scans);
}

/// The containers of the valid scans before scan `i` are a prefix of those
/// before scan `n`.
proof fn lemma_valid_chests_take_prefix(scans: Seq<Scan>, i: int, n: int)
    requires
        0 <= i <= n <= scans.len(),
    ensures
        valid_chests(scans.take(n)).take(valid_chests(scans.take(i)).len() as int) =~= valid_chests(
            scans.take(i),
        ),
        valid_chests(scans.take(i)).len() <= valid_chests(scans.take(n)).len(),
    decreases n - i,
{
    if i < n {
        lemma_valid_chests_take_prefix(scans, i, n - 1);
        assert(scans.take(n).drop_last() =~= scans.take(n - 1));
    }
}

/// The message for a structure whose container seeds depend on the exact
/// placement.
pub open spec fn no_container_seed_text(name: Seq<char>) -> Seq<char> {
    "container-seed is not available for "@ + name + "; use 'chests' to execute vanilla placement"@
}

/// The decoration seed parameters that `container-seed` uses: the catalog's,
/// with the structure index and the step replaced where they are given; a
/// structure without catalog parameters is refused.
pub fn container_seed_decoration(
    structure: &CandidateStructure,
    structure_index: Option<i32>,
    step: Option<i32>,
) -> (result: Result<DecorationSeedSpec, Error>)
    ensures
        match structure.decoration {
            None => is_usage_error(result, no_container_seed_text(structure.name@)),
            Some(d) => result == Ok::<DecorationSeedSpec, Error>(
                DecorationSeedSpec {
                    structure_index: match structure_index {
                        Some(i) => i,
                        None => d.structure_index,
                    },
                    step: match step {
                        Some(s) => s,
                        None => d.step,
                    },
                    ..d
                },
            ),
        },
{
    match structure.decoration {
        None => {
            let mut message = "container-seed is not available for ".to_owned();
            message.append(structure.name);
            message.append("; use 'chests' to execute vanilla placement");
            proof {
                assert(message@ =~= no_container_seed_text(structure.name@));
            }
            Err(Error::Usage(message))
        },
        Some(d) => Ok(
            DecorationSeedSpec {
                structure_index: match structure_index {
                    Some(i) => i,
                    None => d.structure_index,
                },
                step: match step {
                    Some(s) => s,
                    None => d.step,
                },
                ..d
            },
        ),
    }
}

/// The message for a loot table that no catalog structure lists.
pub open spec fn unsupported_table_text(table: Seq<char>) -> Seq<char> {
    "unsupported loot table: "@ + table + "; use one listed by 'explain'"@
}

/// Accepts a loot table that a catalog structure lists, as `loot` does.
pub fn require_loot_table(table: &str) -> (result: Result<(), Error>)
    ensures
        is_listed_table(table@) ==> result is Ok,
        !is_listed_table(table@) ==> is_usage_error(result, unsupported_table_text(table@)),
{
    if is_supported_loot_table(table) {
        Ok(())
    } else {
        let mut message = "unsupported loot table: ".to_owned();
        message.append(table);
        message.append("; use one listed by 'explain'");
        proof {
            assert(message@ =~= unsupported_table_text(table@));
        }
        Err(Error::Usage(message))
    }
}

} // verus!
