//! The catalog of structures: placement parameters, scan support, decoration
//! seed parameters and loot tables.

use vstd::prelude::*;

use crate::error::{is_structure_error, Error};
use crate::strings::{has_prefix, join, str_eq, strip_minecraft, without_prefix};

verus! {

/// How a random-spread placement draws the offset inside a region.
#[derive(Clone, Copy, Debug, PartialEq, Eq, Structural)]
pub enum SpreadType {
    Linear,
    Triangular,
}

/// Random-spread placement parameters.
#[derive(Clone, Copy, Debug, PartialEq, Eq, Structural)]
pub struct Placement {
    pub spacing: i32,
    pub separation: i32,
    pub salt: i64,
    pub spread: SpreadType,
}

/// The structures that have an exact world-generation scanner.
#[derive(Clone, Copy, Debug, PartialEq, Eq, Structural)]
pub enum ScanKind {
    AncientCity,
    BastionRemnant,
    DesertPyramid,
    Igloo,
    Village,
    PillagerOutpost,
    BuriedTreasure,
    Shipwreck,
}

/// How the seed of a container can be computed without replaying the placement.
#[derive(Clone, Copy, Debug, PartialEq, Eq, Structural)]
pub enum ContainerSeedShortcut {
    /// The n-th container of the chunk takes the n-th decoration long.
    Direct,
    /// The desert pyramid consumes one `nextInt(3)` before its chests.
    DesertPyramid,
    /// The seed depends on the exact placement; no shortcut exists.
    Unavailable,
}

impl ContainerSeedShortcut {
    /// The shortcut's name in reports.
    pub fn as_str(self) -> (name: &'static str)
        ensures
            name@ == shortcut_name(self),
    {
        proof {
            reveal_strlit("DIRECT");
            reveal_strlit("DESERT_PYRAMID");
            reveal_strlit("UNAVAILABLE");
        }
        match self {
            ContainerSeedShortcut::Direct => "DIRECT",
            ContainerSeedShortcut::DesertPyramid => "DESERT_PYRAMID",
            ContainerSeedShortcut::Unavailable => "UNAVAILABLE",
        }
    }
}

/// The name of a seed shortcut.
pub open spec fn shortcut_name(shortcut: ContainerSeedShortcut) -> Seq<char> {
    match shortcut {
        ContainerSeedShortcut::Direct => seq!['D', 'I', 'R', 'E', 'C', 'T'],
        ContainerSeedShortcut::DesertPyramid => seq![
            'D', 'E', 'S', 'E', 'R', 'T', '_', 'P', 'Y', 'R', 'A', 'M', 'I', 'D',
        ],
        ContainerSeedShortcut::Unavailable => seq![
            'U', 'N', 'A', 'V', 'A', 'I', 'L', 'A', 'B', 'L', 'E',
        ],
    }
}

/// Where the loot seeds of a structure's containers come from in the
/// decoration random stream.
#[derive(Clone, Copy, Debug, PartialEq, Eq, Structural)]
pub struct DecorationSeedSpec {
    pub structure_index: i32,
    pub step: i32,
    pub ordinal_offset: i32,
    pub shortcut: ContainerSeedShortcut,
}

/// Whether a structure can be scanned exactly or only located as a candidate.
#[derive(Clone, Copy, Debug, PartialEq, Eq, Structural)]
pub enum ScanSupport {
    CandidatesOnly,
    Full(ScanKind),
}

/// The backend whose results a structure's scan is held to.
#[derive(Clone, Copy, Debug, PartialEq, Eq, Structural)]
pub enum ScannerBackend {
    JigsawFast,
    VanillaPlacement,
}

impl ScannerBackend {
    /// The backend's name in reports.
    pub fn as_str(self) -> (name: &'static str)
        ensures
            name@ == backend_name(self),
    {
        proof {
            reveal_strlit("JIGSAW_FAST");
            reveal_strlit("VANILLA_PLACEMENT");
        }
        match self {
            ScannerBackend::JigsawFast => "JIGSAW_FAST",
            ScannerBackend::VanillaPlacement => "VANILLA_PLACEMENT",
        }
    }
}

/// The name of a scanner backend.
pub open spec fn backend_name(backend: ScannerBackend) -> Seq<char> {
    match backend {
        ScannerBackend::JigsawFast => seq!['J', 'I', 'G', 'S', 'A', 'W', '_', 'F', 'A', 'S', 'T'],
        ScannerBackend::VanillaPlacement => seq![
            'V', 'A', 'N', 'I', 'L', 'L', 'A', '_', 'P', 'L', 'A', 'C', 'E', 'M', 'E', 'N', 'T',
        ],
    }
}

/// One entry of the structure catalog.
#[derive(Clone, Copy, Debug)]
pub struct CandidateStructure {
    pub name: &'static str,
    pub structure_id: &'static str,
    pub structure_path: &'static str,
    pub dimension: &'static str,
    pub placement: Placement,
    pub support: ScanSupport,
    pub decoration: Option<DecorationSeedSpec>,
    pub reference_scanner: ScannerBackend,
    pub loot_tables: &'static [&'static str],
    pub default_item: &'static str,
}

impl CandidateStructure {
    /// Whether `chests` and `find` have an exact world-generation scanner.
    pub fn supports_full_scan(&self) -> (full: bool)
        ensures
            full == (self.support is Full),
    {
        match self.support {
            ScanSupport::Full(_) => true,
            ScanSupport::CandidatesOnly => false,
        }
    }
}

/// A linear random spread.
pub open spec fn linear_spec(spacing: i32, separation: i32, salt: i64) -> Placement {
    Placement { spacing, separation, salt, spread: SpreadType::Linear }
}

/// A triangular random spread.
pub open spec fn triangular_spec(spacing: i32, separation: i32, salt: i64) -> Placement {
    Placement { spacing, separation, salt, spread: SpreadType::Triangular }
}

/// A linear random spread.
pub fn linear(spacing: i32, separation: i32, salt: i64) -> (placement: Placement)
    ensures
        placement == linear_spec(spacing, separation, salt),
{
    Placement { spacing, separation, salt, spread: SpreadType::Linear }
}

/// A triangular random spread.
pub fn triangular(spacing: i32, separation: i32, salt: i64) -> (placement: Placement)
    ensures
        placement == triangular_spec(spacing, separation, salt),
{
    Placement { spacing, separation, salt, spread: SpreadType::Triangular }
}

/// The placement of villages, which also keeps pillager outposts away.
pub fn village_placement() -> (placement: Placement)
    ensures
        placement == linear_spec(34, 8, 10_387_312),
{
    linear(34, 8, 10_387_312)
}

/// The decoration seed parameters of a shipwreck: a beached wreck has index
/// 18 and an ocean wreck index 17 among the structures of the surface step;
/// their container seeds depend on the exact template placement.
pub open spec fn shipwreck_decoration_spec(is_beached: bool) -> DecorationSeedSpec {
    DecorationSeedSpec {
        structure_index: if is_beached {
            18
        } else {
            17
        },
        step: 4,
        ordinal_offset: 0,
        shortcut: ContainerSeedShortcut::Unavailable,
    }
}

/// The decoration seed parameters of a beached or an ocean shipwreck.
pub fn shipwreck_decoration(is_beached: bool) -> (spec: DecorationSeedSpec)
    ensures
        spec == shipwreck_decoration_spec(is_beached),
{
    DecorationSeedSpec {
        structure_index: if is_beached {
            18
        } else {
            17
        },
        step: 4,
        ordinal_offset: 0,
        shortcut: ContainerSeedShortcut::Unavailable,
    }
}

/// The structure catalog, in the order that reports list it.
#[verifier::opaque]
pub open spec fn catalog() -> Seq<CandidateStructure> {
    seq![
        CandidateStructure {
            name: "ancient_city",
            support: ScanSupport::Full(ScanKind::AncientCity),
            structure_id: "minecraft:ancient_city",
            structure_path: "ancient_city",
            dimension: "minecraft:overworld",
            placement: linear_spec(24, 8, 20_083_232),
            decoration: Some(DecorationSeedSpec {
            structure_index: 0,
            step: 7,
            ordinal_offset: 0,
            shortcut: ContainerSeedShortcut::Direct,
            }),
            reference_scanner: ScannerBackend::JigsawFast,
            loot_tables: &["minecraft:chests/ancient_city"],
            default_item: "minecraft:silence_armor_trim_smithing_template",
        },
        CandidateStructure {
            name: "bastion_remnant",
            support: ScanSupport::Full(ScanKind::BastionRemnant),
            structure_id: "minecraft:bastion_remnant",
            structure_path: "bastion_remnant",
            dimension: "minecraft:the_nether",
            placement: linear_spec(27, 4, 30_084_232),
            decoration: Some(DecorationSeedSpec {
            structure_index: 0,
            step: 4,
            ordinal_offset: 0,
            shortcut: ContainerSeedShortcut::Direct,
            }),
            reference_scanner: ScannerBackend::JigsawFast,
            loot_tables: &[
            "minecraft:chests/bastion_bridge",
            "minecraft:chests/bastion_hoglin_stable",
            "minecraft:chests/bastion_other",
            "minecraft:chests/bastion_treasure",
            ],
            default_item: "minecraft:netherite_upgrade_smithing_template",
        },
        CandidateStructure {
            name: "desert_pyramid",
            support: ScanSupport::Full(ScanKind::DesertPyramid),
            structure_id: "minecraft:desert_pyramid",
            structure_path: "desert_pyramid",
            dimension: "minecraft:overworld",
            placement: linear_spec(32, 8, 14_357_617),
            decoration: Some(DecorationSeedSpec {
            structure_index: 1,
            step: 4,
            ordinal_offset: 0,
            shortcut: ContainerSeedShortcut::DesertPyramid,
            }),
            reference_scanner: ScannerBackend::VanillaPlacement,
            loot_tables: &["minecraft:chests/desert_pyramid"],
            default_item: "minecraft:dune_armor_trim_smithing_template",
        },
        CandidateStructure {
            name: "jungle_pyramid",
            support: ScanSupport::CandidatesOnly,
            structure_id: "minecraft:jungle_pyramid",
            structure_path: "jungle_pyramid",
            dimension: "minecraft:overworld",
            placement: linear_spec(32, 8, 14_357_619),
            decoration: None,
            reference_scanner: ScannerBackend::VanillaPlacement,
            loot_tables: &[
            "minecraft:chests/jungle_temple",
            "minecraft:chests/jungle_temple_dispenser",
            ],
            default_item: "minecraft:wild_armor_trim_smithing_template",
        },
        CandidateStructure {
            name: "igloo",
            support: ScanSupport::Full(ScanKind::Igloo),
            structure_id: "minecraft:igloo",
            structure_path: "igloo",
            dimension: "minecraft:overworld",
            placement: linear_spec(32, 8, 14_357_618),
            decoration: Some(DecorationSeedSpec {
            structure_index: 3,
            step: 4,
            ordinal_offset: 1,
            shortcut: ContainerSeedShortcut::Direct,
            }),
            reference_scanner: ScannerBackend::VanillaPlacement,
            loot_tables: &["minecraft:chests/igloo_chest"],
            default_item: "minecraft:golden_apple",
        },
        CandidateStructure {
            name: "end_city",
            support: ScanSupport::CandidatesOnly,
            structure_id: "minecraft:end_city",
            structure_path: "end_city",
            dimension: "minecraft:the_end",
            placement: triangular_spec(20, 11, 10_387_313),
            decoration: None,
            reference_scanner: ScannerBackend::VanillaPlacement,
            loot_tables: &["minecraft:chests/end_city_treasure"],
            default_item: "minecraft:spire_armor_trim_smithing_template",
        },
        CandidateStructure {
            name: "ruined_portal",
            support: ScanSupport::CandidatesOnly,
            structure_id: "minecraft:ruined_portal",
            structure_path: "ruined_portal",
            dimension: "minecraft:overworld",
            placement: linear_spec(40, 15, 34_222_645),
            decoration: None,
            reference_scanner: ScannerBackend::VanillaPlacement,
            loot_tables: &["minecraft:chests/ruined_portal"],
            default_item: "minecraft:enchanted_golden_apple",
        },
        CandidateStructure {
            name: "ruined_portal_nether",
            support: ScanSupport::CandidatesOnly,
            structure_id: "minecraft:ruined_portal_nether",
            structure_path: "ruined_portal_nether",
            dimension: "minecraft:the_nether",
            placement: linear_spec(40, 15, 34_222_645),
            decoration: None,
            reference_scanner: ScannerBackend::VanillaPlacement,
            loot_tables: &["minecraft:chests/ruined_portal"],
            default_item: "minecraft:enchanted_golden_apple",
        },
        CandidateStructure {
            name: "trial_chambers",
            support: ScanSupport::CandidatesOnly,
            structure_id: "minecraft:trial_chambers",
            structure_path: "trial_chambers",
            dimension: "minecraft:overworld",
            placement: linear_spec(34, 12, 94_251_327),
            decoration: None,
            reference_scanner: ScannerBackend::VanillaPlacement,
            loot_tables: &[
            "minecraft:chests/trial_chambers/corridor",
            "minecraft:chests/trial_chambers/entrance",
            "minecraft:chests/trial_chambers/intersection",
            "minecraft:chests/trial_chambers/intersection_barrel",
            "minecraft:chests/trial_chambers/supply",
            "minecraft:chests/trial_chambers/reward",
            "minecraft:dispensers/trial_chambers/chamber",
            "minecraft:dispensers/trial_chambers/corridor",
            "minecraft:dispensers/trial_chambers/water",
            "minecraft:pots/trial_chambers/corridor",
            ],
            default_item: "minecraft:trial_key",
        },
        CandidateStructure {
            name: "shipwreck",
            support: ScanSupport::Full(ScanKind::Shipwreck),
            structure_id: "minecraft:shipwreck",
            structure_path: "shipwreck",
            dimension: "minecraft:overworld",
            placement: linear_spec(24, 4, 165_745_295),
            decoration: None,
            reference_scanner: ScannerBackend::VanillaPlacement,
            loot_tables: &[
            "minecraft:chests/shipwreck_map",
            "minecraft:chests/shipwreck_supply",
            "minecraft:chests/shipwreck_treasure",
            ],
            default_item: "minecraft:coast_armor_trim_smithing_template",
        },
        CandidateStructure {
            name: "ocean_ruin",
            support: ScanSupport::CandidatesOnly,
            structure_id: "minecraft:ocean_ruin_cold",
            structure_path: "ocean_ruin_cold",
            dimension: "minecraft:overworld",
            placement: linear_spec(20, 8, 14_357_621),
            decoration: None,
            reference_scanner: ScannerBackend::VanillaPlacement,
            loot_tables: &[
            "minecraft:chests/underwater_ruin_big",
            "minecraft:chests/underwater_ruin_small",
            ],
            default_item: "minecraft:golden_apple",
        },
        CandidateStructure {
            name: "nether_fortress",
            support: ScanSupport::CandidatesOnly,
            structure_id: "minecraft:fortress",
            structure_path: "fortress",
            dimension: "minecraft:the_nether",
            placement: linear_spec(27, 4, 30_084_232),
            decoration: None,
            reference_scanner: ScannerBackend::VanillaPlacement,
            loot_tables: &["minecraft:chests/nether_bridge"],
            default_item: "minecraft:diamond",
        },
        CandidateStructure {
            name: "village",
            support: ScanSupport::Full(ScanKind::Village),
            structure_id: "minecraft:village_plains",
            structure_path: "village_plains",
            dimension: "minecraft:overworld",
            placement: linear_spec(34, 8, 10_387_312),
            decoration: None,
            reference_scanner: ScannerBackend::JigsawFast,
            loot_tables: &[
            "minecraft:chests/village/village_armorer",
            "minecraft:chests/village/village_butcher",
            "minecraft:chests/village/village_cartographer",
            "minecraft:chests/village/village_desert_house",
            "minecraft:chests/village/village_fisher",
            "minecraft:chests/village/village_fletcher",
            "minecraft:chests/village/village_mason",
            "minecraft:chests/village/village_plains_house",
            "minecraft:chests/village/village_savanna_house",
            "minecraft:chests/village/village_shepherd",
            "minecraft:chests/village/village_snowy_house",
            "minecraft:chests/village/village_taiga_house",
            "minecraft:chests/village/village_tannery",
            "minecraft:chests/village/village_temple",
            "minecraft:chests/village/village_toolsmith",
            "minecraft:chests/village/village_weaponsmith",
            ],
            default_item: "minecraft:diamond",
        },
        CandidateStructure {
            name: "buried_treasure",
            support: ScanSupport::Full(ScanKind::BuriedTreasure),
            structure_id: "minecraft:buried_treasure",
            structure_path: "buried_treasure",
            dimension: "minecraft:overworld",
            placement: linear_spec(1, 0, 0),
            decoration: Some(DecorationSeedSpec {
                structure_index: 0,
                step: 3,
                ordinal_offset: 0,
                shortcut: ContainerSeedShortcut::Direct,
            }),
            reference_scanner: ScannerBackend::VanillaPlacement,
            loot_tables: &["minecraft:chests/buried_treasure"],
            default_item: "minecraft:heart_of_the_sea",
        },
        CandidateStructure {
            name: "pillager_outpost",
            support: ScanSupport::Full(ScanKind::PillagerOutpost),
            structure_id: "minecraft:pillager_outpost",
            structure_path: "pillager_outpost",
            dimension: "minecraft:overworld",
            placement: linear_spec(32, 8, 165_745_296),
            decoration: Some(DecorationSeedSpec {
            structure_index: 4,
            step: 9,
            ordinal_offset: 0,
            shortcut: ContainerSeedShortcut::Direct,
            }),
            reference_scanner: ScannerBackend::JigsawFast,
            loot_tables: &["minecraft:chests/pillager_outpost"],
            default_item: "minecraft:sentry_armor_trim_smithing_template",
        },
        CandidateStructure {
            name: "woodland_mansion",
            support: ScanSupport::CandidatesOnly,
            structure_id: "minecraft:mansion",
            structure_path: "mansion",
            dimension: "minecraft:overworld",
            placement: triangular_spec(80, 20, 10_387_319),
            decoration: None,
            reference_scanner: ScannerBackend::VanillaPlacement,
            loot_tables: &["minecraft:chests/woodland_mansion"],
            default_item: "minecraft:vex_armor_trim_smithing_template",
        },
    ]
}

/// The structure catalog, in the order that reports list it.
pub fn candidate_structures() -> (structures: Vec<CandidateStructure>)
    ensures
        structures@ == catalog(),
{
    let mut v: Vec<CandidateStructure> = Vec::new();
    v.push(CandidateStructure {
            name: "ancient_city",
            support: ScanSupport::Full(ScanKind::AncientCity),
            structure_id: "minecraft:ancient_city",
            structure_path: "ancient_city",
            dimension: "minecraft:overworld",
            placement: linear(24, 8, 20_083_232),
            decoration: Some(DecorationSeedSpec {
            structure_index: 0,
            step: 7,
            ordinal_offset: 0,
            shortcut: ContainerSeedShortcut::Direct,
            }),
            reference_scanner: ScannerBackend::JigsawFast,
            loot_tables: &["minecraft:chests/ancient_city"],
            default_item: "minecraft:silence_armor_trim_smithing_template",
        });
    v.push(CandidateStructure {
            name: "bastion_remnant",
            support: ScanSupport::Full(ScanKind::BastionRemnant),
            structure_id: "minecraft:bastion_remnant",
            structure_path: "bastion_remnant",
            dimension: "minecraft:the_nether",
            placement: linear(27, 4, 30_084_232),
            decoration: Some(DecorationSeedSpec {
            structure_index: 0,
            step: 4,
            ordinal_offset: 0,
            shortcut: ContainerSeedShortcut::Direct,
            }),
            reference_scanner: ScannerBackend::JigsawFast,
            loot_tables: &[
            "minecraft:chests/bastion_bridge",
            "minecraft:chests/bastion_hoglin_stable",
            "minecraft:chests/bastion_other",
            "minecraft:chests/bastion_treasure",
            ],
            default_item: "minecraft:netherite_upgrade_smithing_template",
        });
    v.push(CandidateStructure {
            name: "desert_pyramid",
            support: ScanSupport::Full(ScanKind::DesertPyramid),
            structure_id: "minecraft:desert_pyramid",
            structure_path: "desert_pyramid",
            dimension: "minecraft:overworld",
            placement: linear(32, 8, 14_357_617),
            decoration: Some(DecorationSeedSpec {
            structure_index: 1,
            step: 4,
            ordinal_offset: 0,
            shortcut: ContainerSeedShortcut::DesertPyramid,
            }),
            reference_scanner: ScannerBackend::VanillaPlacement,
            loot_tables: &["minecraft:chests/desert_pyramid"],
            default_item: "minecraft:dune_armor_trim_smithing_template",
        });
    v.push(CandidateStructure {
            name: "jungle_pyramid",
            support: ScanSupport::CandidatesOnly,
            structure_id: "minecraft:jungle_pyramid",
            structure_path: "jungle_pyramid",
            dimension: "minecraft:overworld",
            placement: linear(32, 8, 14_357_619),
            decoration: None,
            reference_scanner: ScannerBackend::VanillaPlacement,
            loot_tables: &[
            "minecraft:chests/jungle_temple",
            "minecraft:chests/jungle_temple_dispenser",
            ],
            default_item: "minecraft:wild_armor_trim_smithing_template",
        });
    v.push(CandidateStructure {
            name: "igloo",
            support: ScanSupport::Full(ScanKind::Igloo),
            structure_id: "minecraft:igloo",
            structure_path: "igloo",
            dimension: "minecraft:overworld",
            placement: linear(32, 8, 14_357_618),
            decoration: Some(DecorationSeedSpec {
            structure_index: 3,
            step: 4,
            ordinal_offset: 1,
            shortcut: ContainerSeedShortcut::Direct,
            }),
            reference_scanner: ScannerBackend::VanillaPlacement,
            loot_tables: &["minecraft:chests/igloo_chest"],
            default_item: "minecraft:golden_apple",
        });
    v.push(CandidateStructure {
            name: "end_city",
            support: ScanSupport::CandidatesOnly,
            structure_id: "minecraft:end_city",
            structure_path: "end_city",
            dimension: "minecraft:the_end",
            placement: triangular(20, 11, 10_387_313),
            decoration: None,
            reference_scanner: ScannerBackend::VanillaPlacement,
            loot_tables: &["minecraft:chests/end_city_treasure"],
            default_item: "minecraft:spire_armor_trim_smithing_template",
        });
    v.push(CandidateStructure {
            name: "ruined_portal",
            support: ScanSupport::CandidatesOnly,
            structure_id: "minecraft:ruined_portal",
            structure_path: "ruined_portal",
            dimension: "minecraft:overworld",
            placement: linear(40, 15, 34_222_645),
            decoration: None,
            reference_scanner: ScannerBackend::VanillaPlacement,
            loot_tables: &["minecraft:chests/ruined_portal"],
            default_item: "minecraft:enchanted_golden_apple",
        });
    v.push(CandidateStructure {
            name: "ruined_portal_nether",
            support: ScanSupport::CandidatesOnly,
            structure_id: "minecraft:ruined_portal_nether",
            structure_path: "ruined_portal_nether",
            dimension: "minecraft:the_nether",
            placement: linear(40, 15, 34_222_645),
            decoration: None,
            reference_scanner: ScannerBackend::VanillaPlacement,
            loot_tables: &["minecraft:chests/ruined_portal"],
            default_item: "minecraft:enchanted_golden_apple",
        });
    v.push(CandidateStructure {
            name: "trial_chambers",
            support: ScanSupport::CandidatesOnly,
            structure_id: "minecraft:trial_chambers",
            structure_path: "trial_chambers",
            dimension: "minecraft:overworld",
            placement: linear(34, 12, 94_251_327),
            decoration: None,
            reference_scanner: ScannerBackend::VanillaPlacement,
            loot_tables: &[
            "minecraft:chests/trial_chambers/corridor",
            "minecraft:chests/trial_chambers/entrance",
            "minecraft:chests/trial_chambers/intersection",
            "minecraft:chests/trial_chambers/intersection_barrel",
            "minecraft:chests/trial_chambers/supply",
            "minecraft:chests/trial_chambers/reward",
            "minecraft:dispensers/trial_chambers/chamber",
            "minecraft:dispensers/trial_chambers/corridor",
            "minecraft:dispensers/trial_chambers/water",
            "minecraft:pots/trial_chambers/corridor",
            ],
            default_item: "minecraft:trial_key",
        });
    v.push(CandidateStructure {
            name: "shipwreck",
            support: ScanSupport::Full(ScanKind::Shipwreck),
            structure_id: "minecraft:shipwreck",
            structure_path: "shipwreck",
            dimension: "minecraft:overworld",
            placement: linear(24, 4, 165_745_295),
            decoration: None,
            reference_scanner: ScannerBackend::VanillaPlacement,
            loot_tables: &[
            "minecraft:chests/shipwreck_map",
            "minecraft:chests/shipwreck_supply",
            "minecraft:chests/shipwreck_treasure",
            ],
            default_item: "minecraft:coast_armor_trim_smithing_template",
        });
    v.push(CandidateStructure {
            name: "ocean_ruin",
            support: ScanSupport::CandidatesOnly,
            structure_id: "minecraft:ocean_ruin_cold",
            structure_path: "ocean_ruin_cold",
            dimension: "minecraft:overworld",
            placement: linear(20, 8, 14_357_621),
            decoration: None,
            reference_scanner: ScannerBackend::VanillaPlacement,
            loot_tables: &[
            "minecraft:chests/underwater_ruin_big",
            "minecraft:chests/underwater_ruin_small",
            ],
            default_item: "minecraft:golden_apple",
        });
    v.push(CandidateStructure {
            name: "nether_fortress",
            support: ScanSupport::CandidatesOnly,
            structure_id: "minecraft:fortress",
            structure_path: "fortress",
            dimension: "minecraft:the_nether",
            placement: linear(27, 4, 30_084_232),
            decoration: None,
            reference_scanner: ScannerBackend::VanillaPlacement,
            loot_tables: &["minecraft:chests/nether_bridge"],
            default_item: "minecraft:diamond",
        });
    v.push(CandidateStructure {
            name: "village",
            support: ScanSupport::Full(ScanKind::Village),
            structure_id: "minecraft:village_plains",
            structure_path: "village_plains",
            dimension: "minecraft:overworld",
            placement: linear(34, 8, 10_387_312),
            decoration: None,
            reference_scanner: ScannerBackend::JigsawFast,
            loot_tables: &[
            "minecraft:chests/village/village_armorer",
            "minecraft:chests/village/village_butcher",
            "minecraft:chests/village/village_cartographer",
            "minecraft:chests/village/village_desert_house",
            "minecraft:chests/village/village_fisher",
            "minecraft:chests/village/village_fletcher",
            "minecraft:chests/village/village_mason",
            "minecraft:chests/village/village_plains_house",
            "minecraft:chests/village/village_savanna_house",
            "minecraft:chests/village/village_shepherd",
            "minecraft:chests/village/village_snowy_house",
            "minecraft:chests/village/village_taiga_house",
            "minecraft:chests/village/village_tannery",
            "minecraft:chests/village/village_temple",
            "minecraft:chests/village/village_toolsmith",
            "minecraft:chests/village/village_weaponsmith",
            ],
            default_item: "minecraft:diamond",
        });
    v.push(CandidateStructure {
            name: "buried_treasure",
            support: ScanSupport::Full(ScanKind::BuriedTreasure),
            structure_id: "minecraft:buried_treasure",
            structure_path: "buried_treasure",
            dimension: "minecraft:overworld",
            placement: linear(1, 0, 0),
            decoration: Some(DecorationSeedSpec {
                structure_index: 0,
                step: 3,
                ordinal_offset: 0,
                shortcut: ContainerSeedShortcut::Direct,
            }),
            reference_scanner: ScannerBackend::VanillaPlacement,
            loot_tables: &["minecraft:chests/buried_treasure"],
            default_item: "minecraft:heart_of_the_sea",
        });
    v.push(CandidateStructure {
            name: "pillager_outpost",
            support: ScanSupport::Full(ScanKind::PillagerOutpost),
            structure_id: "minecraft:pillager_outpost",
            structure_path: "pillager_outpost",
            dimension: "minecraft:overworld",
            placement: linear(32, 8, 165_745_296),
            decoration: Some(DecorationSeedSpec {
            structure_index: 4,
            step: 9,
            ordinal_offset: 0,
            shortcut: ContainerSeedShortcut::Direct,
            }),
            reference_scanner: ScannerBackend::JigsawFast,
            loot_tables: &["minecraft:chests/pillager_outpost"],
            default_item: "minecraft:sentry_armor_trim_smithing_template",
        });
    v.push(CandidateStructure {
            name: "woodland_mansion",
            support: ScanSupport::CandidatesOnly,
            structure_id: "minecraft:mansion",
            structure_path: "mansion",
            dimension: "minecraft:overworld",
            placement: triangular(80, 20, 10_387_319),
            decoration: None,
            reference_scanner: ScannerBackend::VanillaPlacement,
            loot_tables: &["minecraft:chests/woodland_mansion"],
            default_item: "minecraft:vex_armor_trim_smithing_template",
        });
    proof {
        reveal(catalog);
        assert(v@ =~= catalog());
    }
    v
}

/// Whether a catalog entry answers to `name` (its name or its registry path).
pub open spec fn answers_to(structure: CandidateStructure, name: Seq<char>) -> bool {
    structure.name@ == name || structure.structure_path@ == name
}

/// The index of the first entry of `structures` that answers to `name`.
pub open spec fn first_match(structures: Seq<CandidateStructure>, name: Seq<char>) -> Option<int>
    decreases structures.len(),
{
    if structures.len() == 0 {
        None
    } else {
        match first_match(structures.drop_last(), name) {
            Some(i) => Some(i),
            None => if answers_to(structures.last(), name) {
                Some(structures.len() - 1)
            } else {
                None
            },
        }
    }
}

/// The names of the catalog entries, in order.
pub open spec fn structure_names(structures: Seq<CandidateStructure>) -> Seq<Seq<char>> {
    structures.map_values(|s: CandidateStructure| s.name@)
}

/// The error text for a structure name that the catalog does not know.
pub open spec fn unsupported_structure_text(name: Seq<char>) -> Seq<char> {
    "unsupported structure: "@ + name + "; supported: "@ + join(
        structure_names(catalog()),
        ", "@,
    )
}

/// Looks up a catalog entry by name or registry path; a `minecraft:` prefix is ignored.
pub fn candidate_structure(name: &str) -> (result: Result<CandidateStructure, Error>)
    ensures
        ({
            let normalized = without_prefix(name@, "minecraft:"@);
            match first_match(catalog(), normalized) {
                Some(i) => result == Ok::<CandidateStructure, Error>(catalog()[i]),
                None => is_structure_error(result, unsupported_structure_text(name@)),
            }
        }),
{
    let normalized = strip_minecraft(name);
    let structures = candidate_structures();
    let mut index: usize = 0;
    while index < structures.len()
        invariant
            structures@ == catalog(),
            index <= structures.len(),
            first_match(structures@.take(index as int), normalized@) is None,
            normalized@ == without_prefix(name@, "minecraft:"@),
        decreases structures.len() - index,
    {
        proof {
            assert(structures@.take(index + 1).drop_last() =~= structures@.take(index as int));
        }
        let structure = structures[index];
        if str_eq(structure.name, normalized) || str_eq(structure.structure_path, normalized) {
            proof {
                assert(answers_to(structures@[index as int], normalized@));
                lemma_first_match_prefix(structures@, index as int, normalized@);
                assert(first_match(catalog(), normalized@) == Some(index as int));
                assert(structure == catalog()[index as int]);
            }
            return Ok(structure);
        }
        index = index + 1;
    }
    proof {
        assert(structures@.take(structures.len() as int) =~= structures@);
    }
    let mut message = "unsupported structure: ".to_owned();
    message.append(name);
    message.append("; supported: ");
    let ghost names = structure_names(structures@);
    let mut k: usize = 0;
    while k < structures.len()
        invariant
            structures@ == catalog(),
            names == structure_names(structures@),
            k <= structures.len(),
            message@ == "unsupported structure: "@ + name@ + "; supported: "@ + join(
                names.take(k as int),
                ", "@,
            ),
        decreases structures.len() - k,
    {
        let ghost before = message@;
        if k != 0 {
            message.append(", ");
        }
        message.append(structures[k].name);
        proof {
            assert(names.take(k + 1).drop_last() =~= names.take(k as int));
            assert(names.take(k + 1).last() == structures@[k as int].name@);
            if k == 0 {
                assert(join(names.take(1), ", "@) == names.take(1)[0]);
            }
        }
        k = k + 1;
    }
    proof {
        assert(names.take(structures.len() as int) =~= names);
    }
    Err(Error::Structure(message))
}

/// An entry that answers to `name`, with none before it, is the first match.
proof fn lemma_first_match_prefix(structures: Seq<CandidateStructure>, index: int, name: Seq<char>)
    requires
        0 <= index < structures.len(),
        first_match(structures.take(index), name) is None,
        answers_to(structures[index], name),
    ensures
        first_match(structures, name) == Some(index),
    decreases structures.len(),
{
    if index == structures.len() - 1 {
        assert(structures.drop_last() =~= structures.take(index));
    } else {
        assert(structures.drop_last().take(index) =~= structures.take(index));
        lemma_first_match_prefix(structures.drop_last(), index, name);
    }
}

/// The `minecraft:` namespace in front of a structure name changes nothing:
/// both spellings are looked up as the same name.
pub proof fn law_namespace_is_optional(name: Seq<char>)
    requires
        !has_prefix(name, "minecraft:"@),
    ensures
        without_prefix("minecraft:"@ + name, "minecraft:"@) == without_prefix(name, "minecraft:"@),
{
    let full = "minecraft:"@ + name;
    assert(full.subrange(0, "minecraft:"@.len() as int) =~= "minecraft:"@);
    assert(full.subrange("minecraft:"@.len() as int, full.len() as int) =~= name);
}

/// Every structure of the catalog that supports a full scan carries static
/// decoration seed parameters, except villages and shipwrecks, whose seeds
/// depend on the variant that they place.
pub proof fn law_full_scans_carry_decoration(i: int)
    requires
        0 <= i < catalog().len(),
    ensures
        catalog()[i].support matches ScanSupport::Full(kind) && kind != ScanKind::Village && kind
            != ScanKind::Shipwreck ==> catalog()[i].decoration is Some,
{
    reveal(catalog);
    assert(0 <= i < 16);
}

} // verus!
