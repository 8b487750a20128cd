//! The first, smaller structure catalog: names, registry paths and
//! random-spread placements, without scan or loot information.

use vstd::prelude::*;

use crate::strings::{join, str_eq, strip_minecraft, without_prefix};

verus! {

/// How a random-spread placement draws the offset inside a region.
#[derive(Clone, Copy, Debug, PartialEq, Eq, Structural)]
pub enum SpreadType {
    Linear,
    Triangular,
}

/// Random-spread placement parameters.
#[derive(Clone, Copy, Debug, PartialEq, Eq, Structural)]
pub struct Placement {
    pub spacing: i32,
    pub separation: i32,
    pub salt: i64,
    pub spread: SpreadType,
}

/// One entry of the catalog.
#[derive(Clone, Copy, Debug)]
pub struct CandidateStructure {
    pub name: &'static str,
    pub structure_path: &'static str,
    pub placement: Placement,
}

/// A linear random spread.
pub open spec fn linear_spec(spacing: i32, separation: i32, salt: i64) -> Placement {
    Placement { spacing, separation, salt, spread: SpreadType::Linear }
}

/// A triangular random spread.
pub open spec fn triangular_spec(spacing: i32, separation: i32, salt: i64) -> Placement {
    Placement { spacing, separation, salt, spread: SpreadType::Triangular }
}

/// A linear random spread.
pub fn linear(spacing: i32, separation: i32, salt: i64) -> (placement: Placement)
    ensures
        placement == linear_spec(spacing, separation, salt),
{
    Placement { spacing, separation, salt, spread: SpreadType::Linear }
}

/// A triangular random spread.
pub fn triangular(spacing: i32, separation: i32, salt: i64) -> (placement: Placement)
    ensures
        placement == triangular_spec(spacing, separation, salt),
{
    Placement { spacing, separation, salt, spread: SpreadType::Triangular }
}

/// The catalog, in order.
#[verifier::opaque]
pub open spec fn core_catalog() -> Seq<CandidateStructure> {
    seq![
        CandidateStructure {
            name: "ancient_city",
            structure_path: "ancient_city",
            placement: linear_spec(24, 8, 20_083_232),
        },
        CandidateStructure {
            name: "bastion_remnant",
            structure_path: "bastion_remnant",
            placement: linear_spec(27, 4, 30_084_232),
        },
        CandidateStructure {
            name: "desert_pyramid",
            structure_path: "desert_pyramid",
            placement: linear_spec(32, 8, 14_357_617),
        },
        CandidateStructure {
            name: "jungle_pyramid",
            structure_path: "jungle_pyramid",
            placement: linear_spec(32, 8, 14_357_619),
        },
        CandidateStructure {
            name: "igloo",
            structure_path: "igloo",
            placement: linear_spec(32, 8, 14_357_618),
        },
        CandidateStructure {
            name: "end_city",
            structure_path: "end_city",
            placement: triangular_spec(20, 11, 10_387_313),
        },
        CandidateStructure {
            name: "ruined_portal",
            structure_path: "ruined_portal",
            placement: linear_spec(40, 15, 34_222_645),
        },
        CandidateStructure {
            name: "ruined_portal_nether",
            structure_path: "ruined_portal_nether",
            placement: linear_spec(40, 15, 34_222_645),
        },
        CandidateStructure {
            name: "trial_chambers",
            structure_path: "trial_chambers",
            placement: linear_spec(34, 12, 94_251_327),
        },
        CandidateStructure {
            name: "shipwreck",
            structure_path: "shipwreck",
            placement: linear_spec(24, 4, 165_745_295),
        },
        CandidateStructure {
            name: "ocean_ruin",
            structure_path: "ocean_ruin_cold",
            placement: linear_spec(20, 8, 14_357_621),
        },
        CandidateStructure {
            name: "nether_fortress",
            structure_path: "fortress",
            placement: linear_spec(27, 4, 30_084_232),
        },
        CandidateStructure {
            name: "village",
            structure_path: "village_plains",
            placement: linear_spec(34, 8, 10_387_312),
        },
        CandidateStructure {
            name: "buried_treasure",
            structure_path: "buried_treasure",
            placement: linear_spec(1, 0, 0),
        },
        CandidateStructure {
            name: "pillager_outpost",
            structure_path: "pillager_outpost",
            placement: linear_spec(32, 8, 165_745_296),
        },
        CandidateStructure {
            name: "woodland_mansion",
            structure_path: "mansion",
            placement: triangular_spec(80, 20, 10_387_319),
        },
    ]
}

/// The catalog, in order.
pub fn candidate_structures() -> (structures: Vec<CandidateStructure>)
    ensures
        structures@ == core_catalog(),
{
    let mut v: Vec<CandidateStructure> = Vec::new();
    v.push(CandidateStructure {
            name: "ancient_city",
            structure_path: "ancient_city",
            placement: linear(24, 8, 20_083_232),
        });
    v.push(CandidateStructure {
            name: "bastion_remnant",
            structure_path: "bastion_remnant",
            placement: linear(27, 4, 30_084_232),
        });
    v.push(CandidateStructure {
            name: "desert_pyramid",
            structure_path: "desert_pyramid",
            placement: linear(32, 8, 14_357_617),
        });
    v.push(CandidateStructure {
            name: "jungle_pyramid",
            structure_path: "jungle_pyramid",
            placement: linear(32, 8, 14_357_619),
        });
    v.push(CandidateStructure {
            name: "igloo",
            structure_path: "igloo",
            placement: linear(32, 8, 14_357_618),
        });
    v.push(CandidateStructure {
            name: "end_city",
            structure_path: "end_city",
            placement: triangular(20, 11, 10_387_313),
        });
    v.push(CandidateStructure {
            name: "ruined_portal",
            structure_path: "ruined_portal",
            placement: linear(40, 15, 34_222_645),
        });
    v.push(CandidateStructure {
            name: "ruined_portal_nether",
            structure_path: "ruined_portal_nether",
            placement: linear(40, 15, 34_222_645),
        });
    v.push(CandidateStructure {
            name: "trial_chambers",
            structure_path: "trial_chambers",
            placement: linear(34, 12, 94_251_327),
        });
    v.push(CandidateStructure {
            name: "shipwreck",
            structure_path: "shipwreck",
            placement: linear(24, 4, 165_745_295),
        });
    v.push(CandidateStructure {
            name: "ocean_ruin",
            structure_path: "ocean_ruin_cold",
            placement: linear(20, 8, 14_357_621),
        });
    v.push(CandidateStructure {
            name: "nether_fortress",
            structure_path: "fortress",
            placement: linear(27, 4, 30_084_232),
        });
    v.push(CandidateStructure {
            name: "village",
            structure_path: "village_plains",
            placement: linear(34, 8, 10_387_312),
        });
    v.push(CandidateStructure {
            name: "buried_treasure",
            structure_path: "buried_treasure",
            placement: linear(1, 0, 0),
        });
    v.push(CandidateStructure {
            name: "pillager_outpost",
            structure_path: "pillager_outpost",
            placement: linear(32, 8, 165_745_296),
        });
    v.push(CandidateStructure {
            name: "woodland_mansion",
            structure_path: "mansion",
            placement: triangular(80, 20, 10_387_319),
        });
    proof {
        reveal(core_catalog);
        assert(v@ =~= core_catalog());
    }
    v
}

/// Whether an entry answers to `name` (its name or its registry path).
pub open spec fn answers_to(structure: CandidateStructure, name: Seq<char>) -> bool {
    structure.name@ == name || structure.structure_path@ == name
}

/// The index of the first entry of `structures` that answers to `name`.
pub open spec fn first_match(structures: Seq<CandidateStructure>, name: Seq<char>) -> Option<int>
    decreases structures.len(),
{
    if structures.len() == 0 {
        None
    } else {
        match first_match(structures.drop_last(), name) {
            Some(i) => Some(i),
            None => if answers_to(structures.last(), name) {
                Some(structures.len() - 1)
            } else {
                None
            },
        }
    }
}

/// The names of the entries, in order.
pub open spec fn structure_names(structures: Seq<CandidateStructure>) -> Seq<Seq<char>> {
    structures.map_values(|s: CandidateStructure| s.name@)
}

/// The error text for a name that the catalog does not know.
pub open spec fn unsupported_structure_text(name: Seq<char>) -> Seq<char> {
    "unsupported structure: "@ + name + "; supported: "@ + join(
        structure_names(core_catalog()),
        ", "@,
    )
}

/// Looks up an entry by name or registry path; a `minecraft:` prefix is ignored.
pub fn candidate_structure(name: &str) -> (result: Result<CandidateStructure, String>)
    ensures
        ({
            let normalized = without_prefix(name@, "minecraft:"@);
            match first_match(core_catalog(), normalized) {
                Some(i) => result == Ok::<CandidateStructure, String>(core_catalog()[i]),
                None => result matches Err(m) && m@ == unsupported_structure_text(name@),
            }
        }),
{
    let normalized = strip_minecraft(name);
    let structures = candidate_structures();
    let mut index: usize = 0;
    while index < structures.len()
        invariant
            structures@ == core_catalog(),
            index <= structures.len(),
            first_match(structures@.take(index as int), normalized@) is None,
            normalized@ == without_prefix(name@, "minecraft:"@),
        decreases structures.len() - index,
    {
        proof {
            assert(structures@.take(index + 1).drop_last() =~= structures@.take(index as int));
        }
        let structure = structures[index];
        if str_eq(structure.name, normalized) || str_eq(structure.structure_path, normalized) {
            proof {
                assert(answers_to(structures@[index as int], normalized@));
                lemma_first_match_prefix(structures@, index as int, normalized@);
            }
            return Ok(structure);
        }
        index = index + 1;
    }
    proof {
        assert(structures@.take(structures.len() as int) =~= structures@);
    }
    let mut message = "unsupported structure: ".to_owned();
    message.append(name);
    message.append("; supported: ");
    let ghost names = structure_names(structures@);
    let mut k: usize = 0;
    while k < structures.len()
        invariant
            structures@ == core_catalog(),
            names == structure_names(structures@),
            k <= structures.len(),
            message@ == "unsupported structure: "@ + name@ + "; supported: "@ + join(
                names.take(k as int),
                ", "@,
            ),
        decreases structures.len() - k,
    {
        if k != 0 {
            message.append(", ");
        }
        message.append(structures[k].name);
        proof {
            assert(names.take(k + 1).drop_last() =~= names.take(k as int));
            assert(names.take(k + 1).last() == structures@[k as int].name@);
            if k == 0 {
                assert(join(names.take(1), ", "@) == names.take(1)[0]);
            }
        }
        k = k + 1;
    }
    proof {
        assert(names.take(structures.len() as int) =~= names);
    }
    Err(message)
}

/// An entry that answers to `name`, with none before it, is the first match.
proof fn lemma_first_match_prefix(structures: Seq<CandidateStructure>, index: int, name: Seq<char>)
    requires
        0 <= index < structures.len(),
        first_match(structures.take(index), name) is None,
        answers_to(structures[index], name),
    ensures
        first_match(structures, name) == Some(index),
    decreases structures.len(),
{
    if index == structures.len() - 1 {
        assert(structures.drop_last() =~= structures.take(index));
    } else {
        assert(structures.drop_last().take(index) =~= structures.take(index));
        lemma_first_match_prefix(structures.drop_last(), index, name);
    }
}

} // verus!
