//! The containers of vanilla 26.1.2 structure templates: for each template
//! that holds any, its size, its loot chests, its data markers and the
//! positions of its randomizable containers, in the order that placing the
//! template loads them.

use vstd::prelude::*;

use crate::strings::{has_prefix, str_eq, strip_minecraft, without_prefix};

verus! {

/// A chest of a template, with its loot table.
#[derive(Clone, Copy, Debug)]
pub struct TemplateChest {
    pub x: i32,
    pub y: i32,
    pub z: i32,
    pub loot_table: &'static str,
}

/// A data marker of a template, with its metadata.
#[derive(Clone, Copy, Debug)]
pub struct TemplateMarker {
    pub x: i32,
    pub y: i32,
    pub z: i32,
    pub metadata: &'static str,
}

/// A block position inside a template.
#[derive(Clone, Copy, Debug)]
pub struct TemplateBlockPos {
    pub x: i32,
    pub y: i32,
    pub z: i32,
}

/// The containers of one template.
#[derive(Clone, Copy, Debug)]
pub struct TemplateContainerData {
    pub size: [i32; 3],
    pub chests: &'static [TemplateChest],
    pub markers: &'static [TemplateMarker],
    pub randomizable_containers: &'static [TemplateBlockPos],
}

/// Whether a template-local position lies inside a template of `size`.
pub open spec fn within_size(size: [i32; 3], x: i32, y: i32, z: i32) -> bool {
    &&& 0 <= x < size[0]
    &&& 0 <= y < size[1]
    &&& 0 <= z < size[2]
}

/// Whether a template's positions agree with it: every chest, data marker
/// and randomizable container lies inside its size, and every chest is one
/// of its randomizable containers.
pub open spec fn template_well_formed(d: TemplateContainerData) -> bool {
    &&& forall|k: int|
        0 <= k < d.chests@.len() ==> {
            let c = #[trigger] d.chests@[k];
            &&& within_size(d.size, c.x, c.y, c.z)
            &&& exists|j: int|
                0 <= j < d.randomizable_containers@.len() && #[trigger] d.randomizable_containers@[j]
                    == (TemplateBlockPos { x: c.x, y: c.y, z: c.z })
        }
    &&& forall|k: int|
        0 <= k < d.markers@.len() ==> {
            let m = #[trigger] d.markers@[k];
            within_size(d.size, m.x, m.y, m.z)
        }
    &&& forall|k: int|
        0 <= k < d.randomizable_containers@.len() ==> {
            let r = #[trigger] d.randomizable_containers@[k];
            within_size(d.size, r.x, r.y, r.z)
        }
}

/// Chest `k` of a template is its randomizable container `j`.
proof fn lemma_chest_listed(d: TemplateContainerData, k: int, j: int)
    requires
        0 <= k < d.chests@.len(),
        0 <= j < d.randomizable_containers@.len(),
        d.randomizable_containers@[j] == (TemplateBlockPos {
            x: d.chests@[k].x,
            y: d.chests@[k].y,
            z: d.chests@[k].z,
        }),
    ensures
        exists|i: int|
            0 <= i < d.randomizable_containers@.len() && #[trigger] d.randomizable_containers@[i]
                == (TemplateBlockPos { x: d.chests@[k].x, y: d.chests@[k].y, z: d.chests@[k].z }),
{
}

/// Every template of part 1 of the table is well formed.
proof fn lemma_part_1_well_formed(name: Seq<char>)
    ensures
        templates_part_1(name) matches Some(d) ==> template_well_formed(d),
{
    if name == "ancient_city/city_center/city_center_2"@ {
        assert(template_well_formed(templates_part_1(name)->Some_0));
    } else if name == "ancient_city/structures/barracks"@ {
        let d = templates_part_1(name)->Some_0;
        lemma_chest_listed(d, 0, 0);
        lemma_chest_listed(d, 1, 1);
        assert(template_well_formed(templates_part_1(name)->Some_0));
    } else if name == "ancient_city/structures/chamber_1"@ {
        let d = templates_part_1(name)->Some_0;
        lemma_chest_listed(d, 0, 0);
        assert(template_well_formed(templates_part_1(name)->Some_0));
    } else if name == "ancient_city/structures/chamber_2"@ {
        let d = templates_part_1(name)->Some_0;
        lemma_chest_listed(d, 0, 0);
        assert(template_well_formed(templates_part_1(name)->Some_0));
    } else if name == "ancient_city/structures/chamber_3"@ {
        let d = templates_part_1(name)->Some_0;
        lemma_chest_listed(d, 0, 0);
        assert(template_well_formed(templates_part_1(name)->Some_0));
    } else if name == "ancient_city/structures/ice_box_1"@ {
        let d = templates_part_1(name)->Some_0;
        lemma_chest_listed(d, 0, 0);
        assert(template_well_formed(templates_part_1(name)->Some_0));
    } else if name == "ancient_city/structures/sauna_1"@ {
        let d = templates_part_1(name)->Some_0;
        lemma_chest_listed(d, 0, 0);
        lemma_chest_listed(d, 1, 1);
        lemma_chest_listed(d, 2, 2);
        assert(template_well_formed(templates_part_1(name)->Some_0));
    } else if name == "ancient_city/structures/tall_ruin_1"@ {
        let d = templates_part_1(name)->Some_0;
        lemma_chest_listed(d, 0, 0);
        assert(template_well_formed(templates_part_1(name)->Some_0));
    } else if name == "ancient_city/structures/tall_ruin_2"@ {
        let d = templates_part_1(name)->Some_0;
        lemma_chest_listed(d, 0, 0);
        lemma_chest_listed(d, 1, 1);
        assert(template_well_formed(templates_part_1(name)->Some_0));
    } else if name == "ancient_city/structures/tall_ruin_3"@ {
        let d = templates_part_1(name)->Some_0;
        lemma_chest_listed(d, 0, 0);
        assert(template_well_formed(templates_part_1(name)->Some_0));
    } else if name == "ancient_city/structures/tall_ruin_4"@ {
        let d = templates_part_1(name)->Some_0;
        lemma_chest_listed(d, 0, 0);
        assert(template_well_formed(templates_part_1(name)->Some_0));
    } else if name == "bastion/bridge/ramparts/rampart_0"@ {
        let d = templates_part_1(name)->Some_0;
        lemma_chest_listed(d, 0, 0);
        assert(template_well_formed(templates_part_1(name)->Some_0));
    } else if name == "bastion/bridge/ramparts/rampart_1"@ {
        let d = templates_part_1(name)->Some_0;
        lemma_chest_listed(d, 0, 0);
        lemma_chest_listed(d, 1, 1);
        lemma_chest_listed(d, 2, 2);
        assert(template_well_formed(templates_part_1(name)->Some_0));
    } else if name == "bastion/bridge/starting_pieces/entrance"@ {
        let d = templates_part_1(name)->Some_0;
        lemma_chest_listed(d, 0, 0);
        assert(template_well_formed(templates_part_1(name)->Some_0));
    } else if name == "bastion/hoglin_stable/large_stables/inner_3"@ {
        let d = templates_part_1(name)->Some_0;
        lemma_chest_listed(d, 0, 0);
        assert(template_well_formed(templates_part_1(name)->Some_0));
    } else if name == "bastion/hoglin_stable/ramparts/ramparts_1"@ {
        let d = templates_part_1(name)->Some_0;
        lemma_chest_listed(d, 0, 0);
        lemma_chest_listed(d, 1, 1);
        lemma_chest_listed(d, 2, 2);
        assert(template_well_formed(templates_part_1(name)->Some_0));
    } else if name == "bastion/hoglin_stable/ramparts/ramparts_2"@ {
        let d = templates_part_1(name)->Some_0;
        lemma_chest_listed(d, 0, 0);
        lemma_chest_listed(d, 1, 1);
        assert(template_well_formed(templates_part_1(name)->Some_0));
    } else if name == "bastion/hoglin_stable/ramparts/ramparts_3"@ {
        let d = templates_part_1(name)->Some_0;
        lemma_chest_listed(d, 0, 0);
        assert(template_well_formed(templates_part_1(name)->Some_0));
    } else if name == "bastion/hoglin_stable/small_stables/inner_2"@ {
        let d = templates_part_1(name)->Some_0;
        lemma_chest_listed(d, 0, 0);
        assert(template_well_formed(templates_part_1(name)->Some_0));
    } else if name == "bastion/hoglin_stable/walls/side_wall_0"@ {
        let d = templates_part_1(name)->Some_0;
        lemma_chest_listed(d, 0, 0);
        assert(template_well_formed(templates_part_1(name)->Some_0));
    } else if name == "bastion/hoglin_stable/walls/wall_base"@ {
        let d = templates_part_1(name)->Some_0;
        lemma_chest_listed(d, 0, 0);
        assert(template_well_formed(templates_part_1(name)->Some_0));
    } else if name == "bastion/treasure/bases/centers/center_0"@ {
        let d = templates_part_1(name)->Some_0;
        lemma_chest_listed(d, 0, 0);
        assert(template_well_formed(templates_part_1(name)->Some_0));
    } else if name == "bastion/treasure/bases/centers/center_1"@ {
        let d = templates_part_1(name)->Some_0;
        lemma_chest_listed(d, 0, 0);
        lemma_chest_listed(d, 1, 1);
        assert(template_well_formed(templates_part_1(name)->Some_0));
    } else if name == "bastion/treasure/bases/centers/center_2"@ {
        let d = templates_part_1(name)->Some_0;
        lemma_chest_listed(d, 0, 0);
        assert(template_well_formed(templates_part_1(name)->Some_0));
    } else if name == "bastion/treasure/bases/centers/center_3"@ {
        let d = templates_part_1(name)->Some_0;
        lemma_chest_listed(d, 0, 0);
        assert(template_well_formed(templates_part_1(name)->Some_0));
    } else if name == "bastion/treasure/ramparts/mid_wall_main"@ {
        let d = templates_part_1(name)->Some_0;
        lemma_chest_listed(d, 0, 0);
        lemma_chest_listed(d, 1, 1);
        assert(template_well_formed(templates_part_1(name)->Some_0));
    } else if name == "bastion/treasure/ramparts/mid_wall_side"@ {
        let d = templates_part_1(name)->Some_0;
        lemma_chest_listed(d, 0, 0);
        lemma_chest_listed(d, 1, 1);
        assert(template_well_formed(templates_part_1(name)->Some_0));
    } else if name == "bastion/treasure/walls/bottom/wall_0"@ {
        let d = templates_part_1(name)->Some_0;
        lemma_chest_listed(d, 0, 0);
        assert(template_well_formed(templates_part_1(name)->Some_0));
    } else if name == "bastion/treasure/walls/mid/wall_0"@ {
        let d = templates_part_1(name)->Some_0;
        lemma_chest_listed(d, 0, 0);
        assert(template_well_formed(templates_part_1(name)->Some_0));
    } else if name == "bastion/units/center_pieces/center_0"@ {
        let d = templates_part_1(name)->Some_0;
        lemma_chest_listed(d, 0, 0);
        assert(template_well_formed(templates_part_1(name)->Some_0));
    }
}

/// Every template of part 2 of the table is well formed.
proof fn lemma_part_2_well_formed(name: Seq<char>)
    ensures
        templates_part_2(name) matches Some(d) ==> template_well_formed(d),
{
    if name == "bastion/units/center_pieces/center_1"@ {
        let d = templates_part_2(name)->Some_0;
        lemma_chest_listed(d, 0, 0);
        assert(template_well_formed(templates_part_2(name)->Some_0));
    } else if name == "bastion/units/center_pieces/center_2"@ {
        let d = templates_part_2(name)->Some_0;
        lemma_chest_listed(d, 0, 0);
        assert(template_well_formed(templates_part_2(name)->Some_0));
    } else if name == "bastion/units/ramparts/ramparts_0"@ {
        let d = templates_part_2(name)->Some_0;
        lemma_chest_listed(d, 0, 0);
        lemma_chest_listed(d, 1, 1);
        lemma_chest_listed(d, 2, 2);
        assert(template_well_formed(templates_part_2(name)->Some_0));
    } else if name == "bastion/units/ramparts/ramparts_1"@ {
        let d = templates_part_2(name)->Some_0;
        lemma_chest_listed(d, 0, 0);
        assert(template_well_formed(templates_part_2(name)->Some_0));
    } else if name == "bastion/units/stages/stage_0_2"@ {
        let d = templates_part_2(name)->Some_0;
        lemma_chest_listed(d, 0, 0);
        assert(template_well_formed(templates_part_2(name)->Some_0));
    } else if name == "bastion/units/stages/stage_1_2"@ {
        let d = templates_part_2(name)->Some_0;
        lemma_chest_listed(d, 0, 0);
        assert(template_well_formed(templates_part_2(name)->Some_0));
    } else if name == "bastion/units/walls/wall_base"@ {
        let d = templates_part_2(name)->Some_0;
        lemma_chest_listed(d, 0, 0);
        lemma_chest_listed(d, 1, 1);
        assert(template_well_formed(templates_part_2(name)->Some_0));
    } else if name == "end_city/base_floor"@ {
        assert(template_well_formed(templates_part_2(name)->Some_0));
    } else if name == "end_city/fat_tower_middle"@ {
        assert(template_well_formed(templates_part_2(name)->Some_0));
    } else if name == "end_city/fat_tower_top"@ {
        assert(template_well_formed(templates_part_2(name)->Some_0));
    } else if name == "end_city/second_floor_2"@ {
        assert(template_well_formed(templates_part_2(name)->Some_0));
    } else if name == "end_city/ship"@ {
        assert(template_well_formed(templates_part_2(name)->Some_0));
    } else if name == "end_city/third_floor_2"@ {
        assert(template_well_formed(templates_part_2(name)->Some_0));
    } else if name == "end_city/tower_top"@ {
        assert(template_well_formed(templates_part_2(name)->Some_0));
    } else if name == "igloo/bottom"@ {
        assert(template_well_formed(templates_part_2(name)->Some_0));
    } else if name == "pillager_outpost/watchtower"@ {
        let d = templates_part_2(name)->Some_0;
        lemma_chest_listed(d, 0, 0);
        assert(template_well_formed(templates_part_2(name)->Some_0));
    } else if name == "pillager_outpost/watchtower_overgrown"@ {
        let d = templates_part_2(name)->Some_0;
        lemma_chest_listed(d, 0, 0);
        assert(template_well_formed(templates_part_2(name)->Some_0));
    } else if name == "ruined_portal/giant_portal_1"@ {
        let d = templates_part_2(name)->Some_0;
        lemma_chest_listed(d, 0, 0);
        assert(template_well_formed(templates_part_2(name)->Some_0));
    } else if name == "ruined_portal/giant_portal_2"@ {
        let d = templates_part_2(name)->Some_0;
        lemma_chest_listed(d, 0, 0);
        assert(template_well_formed(templates_part_2(name)->Some_0));
    } else if name == "ruined_portal/giant_portal_3"@ {
        let d = templates_part_2(name)->Some_0;
        lemma_chest_listed(d, 0, 0);
        assert(template_well_formed(templates_part_2(name)->Some_0));
    } else if name == "ruined_portal/portal_1"@ {
        let d = templates_part_2(name)->Some_0;
        lemma_chest_listed(d, 0, 0);
        assert(template_well_formed(templates_part_2(name)->Some_0));
    } else if name == "ruined_portal/portal_10"@ {
        let d = templates_part_2(name)->Some_0;
        lemma_chest_listed(d, 0, 0);
        assert(template_well_formed(templates_part_2(name)->Some_0));
    } else if name == "ruined_portal/portal_2"@ {
        let d = templates_part_2(name)->Some_0;
        lemma_chest_listed(d, 0, 0);
        assert(template_well_formed(templates_part_2(name)->Some_0));
    } else if name == "ruined_portal/portal_3"@ {
        let d = templates_part_2(name)->Some_0;
        lemma_chest_listed(d, 0, 0);
        assert(template_well_formed(templates_part_2(name)->Some_0));
    } else if name == "ruined_portal/portal_4"@ {
        let d = templates_part_2(name)->Some_0;
        lemma_chest_listed(d, 0, 0);
        assert(template_well_formed(templates_part_2(name)->Some_0));
    } else if name == "ruined_portal/portal_5"@ {
        let d = templates_part_2(name)->Some_0;
        lemma_chest_listed(d, 0, 0);
        assert(template_well_formed(templates_part_2(name)->Some_0));
    } else if name == "ruined_portal/portal_6"@ {
        let d = templates_part_2(name)->Some_0;
        lemma_chest_listed(d, 0, 0);
        assert(template_well_formed(templates_part_2(name)->Some_0));
    } else if name == "ruined_portal/portal_7"@ {
        let d = templates_part_2(name)->Some_0;
        lemma_chest_listed(d, 0, 0);
        assert(template_well_formed(templates_part_2(name)->Some_0));
    } else if name == "ruined_portal/portal_8"@ {
        let d = templates_part_2(name)->Some_0;
        lemma_chest_listed(d, 0, 0);
        assert(template_well_formed(templates_part_2(name)->Some_0));
    } else if name == "ruined_portal/portal_9"@ {
        let d = templates_part_2(name)->Some_0;
        lemma_chest_listed(d, 0, 0);
        assert(template_well_formed(templates_part_2(name)->Some_0));
    }
}

/// Every template of part 3 of the table is well formed.
proof fn lemma_part_3_well_formed(name: Seq<char>)
    ensures
        templates_part_3(name) matches Some(d) ==> template_well_formed(d),
{
    if name == "shipwreck/rightsideup_backhalf"@ {
        assert(template_well_formed(templates_part_3(name)->Some_0));
    } else if name == "shipwreck/rightsideup_backhalf_degraded"@ {
        assert(template_well_formed(templates_part_3(name)->Some_0));
    } else if name == "shipwreck/rightsideup_fronthalf"@ {
        assert(template_well_formed(templates_part_3(name)->Some_0));
    } else if name == "shipwreck/rightsideup_fronthalf_degraded"@ {
        assert(template_well_formed(templates_part_3(name)->Some_0));
    } else if name == "shipwreck/rightsideup_full"@ {
        assert(template_well_formed(templates_part_3(name)->Some_0));
    } else if name == "shipwreck/rightsideup_full_degraded"@ {
        assert(template_well_formed(templates_part_3(name)->Some_0));
    } else if name == "shipwreck/sideways_backhalf"@ {
        assert(template_well_formed(templates_part_3(name)->Some_0));
    } else if name == "shipwreck/sideways_backhalf_degraded"@ {
        assert(template_well_formed(templates_part_3(name)->Some_0));
    } else if name == "shipwreck/sideways_fronthalf"@ {
        assert(template_well_formed(templates_part_3(name)->Some_0));
    } else if name == "shipwreck/sideways_fronthalf_degraded"@ {
        assert(template_well_formed(templates_part_3(name)->Some_0));
    } else if name == "shipwreck/sideways_full"@ {
        assert(template_well_formed(templates_part_3(name)->Some_0));
    } else if name == "shipwreck/sideways_full_degraded"@ {
        assert(template_well_formed(templates_part_3(name)->Some_0));
    } else if name == "shipwreck/upsidedown_backhalf"@ {
        assert(template_well_formed(templates_part_3(name)->Some_0));
    } else if name == "shipwreck/upsidedown_backhalf_degraded"@ {
        assert(template_well_formed(templates_part_3(name)->Some_0));
    } else if name == "shipwreck/upsidedown_fronthalf"@ {
        assert(template_well_formed(templates_part_3(name)->Some_0));
    } else if name == "shipwreck/upsidedown_fronthalf_degraded"@ {
        assert(template_well_formed(templates_part_3(name)->Some_0));
    } else if name == "shipwreck/upsidedown_full"@ {
        assert(template_well_formed(templates_part_3(name)->Some_0));
    } else if name == "shipwreck/upsidedown_full_degraded"@ {
        assert(template_well_formed(templates_part_3(name)->Some_0));
    } else if name == "shipwreck/with_mast"@ {
        assert(template_well_formed(templates_part_3(name)->Some_0));
    } else if name == "shipwreck/with_mast_degraded"@ {
        assert(template_well_formed(templates_part_3(name)->Some_0));
    } else if name == "trial_chambers/chamber/eruption/center_1"@ {
        assert(template_well_formed(templates_part_3(name)->Some_0));
    } else if name == "trial_chambers/chests/supply"@ {
        let d = templates_part_3(name)->Some_0;
        lemma_chest_listed(d, 0, 0);
        assert(template_well_formed(templates_part_3(name)->Some_0));
    } else if name == "trial_chambers/corridor/addon/arrow_dispenser"@ {
        assert(template_well_formed(templates_part_3(name)->Some_0));
    } else if name == "trial_chambers/corridor/end_2"@ {
        let d = templates_part_3(name)->Some_0;
        lemma_chest_listed(d, 0, 0);
        assert(template_well_formed(templates_part_3(name)->Some_0));
    } else if name == "trial_chambers/corridor/entrance_1"@ {
        let d = templates_part_3(name)->Some_0;
        lemma_chest_listed(d, 0, 0);
        lemma_chest_listed(d, 1, 1);
        lemma_chest_listed(d, 2, 2);
        assert(template_well_formed(templates_part_3(name)->Some_0));
    } else if name == "trial_chambers/corridor/entrance_2"@ {
        let d = templates_part_3(name)->Some_0;
        lemma_chest_listed(d, 0, 0);
        lemma_chest_listed(d, 1, 1);
        assert(template_well_formed(templates_part_3(name)->Some_0));
    } else if name == "trial_chambers/corridor/entrance_3"@ {
        let d = templates_part_3(name)->Some_0;
        lemma_chest_listed(d, 0, 0);
        lemma_chest_listed(d, 1, 1);
        lemma_chest_listed(d, 2, 2);
        assert(template_well_formed(templates_part_3(name)->Some_0));
    } else if name == "trial_chambers/decor/barrel"@ {
        let d = templates_part_3(name)->Some_0;
        lemma_chest_listed(d, 0, 0);
        assert(template_well_formed(templates_part_3(name)->Some_0));
    } else if name == "trial_chambers/decor/disposal"@ {
        assert(template_well_formed(templates_part_3(name)->Some_0));
    } else if name == "trial_chambers/dispensers/chamber"@ {
        assert(template_well_formed(templates_part_3(name)->Some_0));
    }
}

/// Every template of part 4 of the table is well formed.
proof fn lemma_part_4_well_formed(name: Seq<char>)
    ensures
        templates_part_4(name) matches Some(d) ==> template_well_formed(d),
{
    if name == "trial_chambers/dispensers/floor_dispenser"@ {
        assert(template_well_formed(templates_part_4(name)->Some_0));
    } else if name == "trial_chambers/dispensers/wall_dispenser"@ {
        assert(template_well_formed(templates_part_4(name)->Some_0));
    } else if name == "trial_chambers/hallway/encounter_4"@ {
        assert(template_well_formed(templates_part_4(name)->Some_0));
    } else if name == "trial_chambers/hallway/rubble"@ {
        let d = templates_part_4(name)->Some_0;
        lemma_chest_listed(d, 0, 0);
        assert(template_well_formed(templates_part_4(name)->Some_0));
    } else if name == "trial_chambers/hallway/rubble_chamber"@ {
        let d = templates_part_4(name)->Some_0;
        lemma_chest_listed(d, 0, 0);
        assert(template_well_formed(templates_part_4(name)->Some_0));
    } else if name == "trial_chambers/intersection/intersection_2"@ {
        let d = templates_part_4(name)->Some_0;
        lemma_chest_listed(d, 0, 0);
        assert(template_well_formed(templates_part_4(name)->Some_0));
    } else if name == "trial_chambers/intersection/intersection_3"@ {
        let d = templates_part_4(name)->Some_0;
        lemma_chest_listed(d, 0, 0);
        assert(template_well_formed(templates_part_4(name)->Some_0));
    } else if name == "underwater_ruin/big_brick_1"@ {
        assert(template_well_formed(templates_part_4(name)->Some_0));
    } else if name == "underwater_ruin/big_brick_2"@ {
        assert(template_well_formed(templates_part_4(name)->Some_0));
    } else if name == "underwater_ruin/big_brick_3"@ {
        assert(template_well_formed(templates_part_4(name)->Some_0));
    } else if name == "underwater_ruin/big_brick_8"@ {
        assert(template_well_formed(templates_part_4(name)->Some_0));
    } else if name == "underwater_ruin/big_cracked_1"@ {
        assert(template_well_formed(templates_part_4(name)->Some_0));
    } else if name == "underwater_ruin/big_cracked_2"@ {
        assert(template_well_formed(templates_part_4(name)->Some_0));
    } else if name == "underwater_ruin/big_cracked_3"@ {
        assert(template_well_formed(templates_part_4(name)->Some_0));
    } else if name == "underwater_ruin/big_cracked_8"@ {
        assert(template_well_formed(templates_part_4(name)->Some_0));
    } else if name == "underwater_ruin/big_mossy_1"@ {
        assert(template_well_formed(templates_part_4(name)->Some_0));
    } else if name == "underwater_ruin/big_mossy_2"@ {
        assert(template_well_formed(templates_part_4(name)->Some_0));
    } else if name == "underwater_ruin/big_mossy_3"@ {
        assert(template_well_formed(templates_part_4(name)->Some_0));
    } else if name == "underwater_ruin/big_mossy_8"@ {
        assert(template_well_formed(templates_part_4(name)->Some_0));
    } else if name == "underwater_ruin/big_warm_4"@ {
        assert(template_well_formed(templates_part_4(name)->Some_0));
    } else if name == "underwater_ruin/big_warm_5"@ {
        assert(template_well_formed(templates_part_4(name)->Some_0));
    } else if name == "underwater_ruin/big_warm_6"@ {
        assert(template_well_formed(templates_part_4(name)->Some_0));
    } else if name == "underwater_ruin/big_warm_7"@ {
        assert(template_well_formed(templates_part_4(name)->Some_0));
    } else if name == "underwater_ruin/brick_1"@ {
        assert(template_well_formed(templates_part_4(name)->Some_0));
    } else if name == "underwater_ruin/brick_2"@ {
        assert(template_well_formed(templates_part_4(name)->Some_0));
    } else if name == "underwater_ruin/brick_3"@ {
        assert(template_well_formed(templates_part_4(name)->Some_0));
    } else if name == "underwater_ruin/brick_4"@ {
        assert(template_well_formed(templates_part_4(name)->Some_0));
    } else if name == "underwater_ruin/brick_5"@ {
        assert(template_well_formed(templates_part_4(name)->Some_0));
    } else if name == "underwater_ruin/brick_6"@ {
        assert(template_well_formed(templates_part_4(name)->Some_0));
    } else if name == "underwater_ruin/brick_7"@ {
        assert(template_well_formed(templates_part_4(name)->Some_0));
    }
}

/// Every template of part 5 of the table is well formed.
proof fn lemma_part_5_well_formed(name: Seq<char>)
    ensures
        templates_part_5(name) matches Some(d) ==> template_well_formed(d),
{
    if name == "underwater_ruin/brick_8"@ {
        assert(template_well_formed(templates_part_5(name)->Some_0));
    } else if name == "underwater_ruin/cracked_1"@ {
        assert(template_well_formed(templates_part_5(name)->Some_0));
    } else if name == "underwater_ruin/cracked_2"@ {
        assert(template_well_formed(templates_part_5(name)->Some_0));
    } else if name == "underwater_ruin/cracked_3"@ {
        assert(template_well_formed(templates_part_5(name)->Some_0));
    } else if name == "underwater_ruin/cracked_4"@ {
        assert(template_well_formed(templates_part_5(name)->Some_0));
    } else if name == "underwater_ruin/cracked_5"@ {
        assert(template_well_formed(templates_part_5(name)->Some_0));
    } else if name == "underwater_ruin/cracked_6"@ {
        assert(template_well_formed(templates_part_5(name)->Some_0));
    } else if name == "underwater_ruin/cracked_7"@ {
        assert(template_well_formed(templates_part_5(name)->Some_0));
    } else if name == "underwater_ruin/cracked_8"@ {
        assert(template_well_formed(templates_part_5(name)->Some_0));
    } else if name == "underwater_ruin/mossy_1"@ {
        assert(template_well_formed(templates_part_5(name)->Some_0));
    } else if name == "underwater_ruin/mossy_2"@ {
        assert(template_well_formed(templates_part_5(name)->Some_0));
    } else if name == "underwater_ruin/mossy_3"@ {
        assert(template_well_formed(templates_part_5(name)->Some_0));
    } else if name == "underwater_ruin/mossy_4"@ {
        assert(template_well_formed(templates_part_5(name)->Some_0));
    } else if name == "underwater_ruin/mossy_5"@ {
        assert(template_well_formed(templates_part_5(name)->Some_0));
    } else if name == "underwater_ruin/mossy_6"@ {
        assert(template_well_formed(templates_part_5(name)->Some_0));
    } else if name == "underwater_ruin/mossy_7"@ {
        assert(template_well_formed(templates_part_5(name)->Some_0));
    } else if name == "underwater_ruin/mossy_8"@ {
        assert(template_well_formed(templates_part_5(name)->Some_0));
    } else if name == "underwater_ruin/warm_1"@ {
        assert(template_well_formed(templates_part_5(name)->Some_0));
    } else if name == "underwater_ruin/warm_2"@ {
        assert(template_well_formed(templates_part_5(name)->Some_0));
    } else if name == "underwater_ruin/warm_3"@ {
        assert(template_well_formed(templates_part_5(name)->Some_0));
    } else if name == "underwater_ruin/warm_4"@ {
        assert(template_well_formed(templates_part_5(name)->Some_0));
    } else if name == "underwater_ruin/warm_5"@ {
        assert(template_well_formed(templates_part_5(name)->Some_0));
    } else if name == "underwater_ruin/warm_6"@ {
        assert(template_well_formed(templates_part_5(name)->Some_0));
    } else if name == "underwater_ruin/warm_7"@ {
        assert(template_well_formed(templates_part_5(name)->Some_0));
    } else if name == "underwater_ruin/warm_8"@ {
        assert(template_well_formed(templates_part_5(name)->Some_0));
    } else if name == "village/desert/houses/desert_fisher_1"@ {
        assert(template_well_formed(templates_part_5(name)->Some_0));
    } else if name == "village/desert/houses/desert_medium_house_1"@ {
        let d = templates_part_5(name)->Some_0;
        lemma_chest_listed(d, 0, 0);
        assert(template_well_formed(templates_part_5(name)->Some_0));
    } else if name == "village/desert/houses/desert_medium_house_2"@ {
        let d = templates_part_5(name)->Some_0;
        lemma_chest_listed(d, 0, 0);
        assert(template_well_formed(templates_part_5(name)->Some_0));
    } else if name == "village/desert/houses/desert_small_house_4"@ {
        let d = templates_part_5(name)->Some_0;
        lemma_chest_listed(d, 0, 0);
        assert(template_well_formed(templates_part_5(name)->Some_0));
    } else if name == "village/desert/houses/desert_small_house_6"@ {
        let d = templates_part_5(name)->Some_0;
        lemma_chest_listed(d, 0, 0);
        assert(template_well_formed(templates_part_5(name)->Some_0));
    }
}

/// Every template of part 6 of the table is well formed.
proof fn lemma_part_6_well_formed(name: Seq<char>)
    ensures
        templates_part_6(name) matches Some(d) ==> template_well_formed(d),
{
    if name == "village/desert/houses/desert_temple_1"@ {
        let d = templates_part_6(name)->Some_0;
        lemma_chest_listed(d, 0, 0);
        assert(template_well_formed(templates_part_6(name)->Some_0));
    } else if name == "village/desert/houses/desert_tool_smith_1"@ {
        let d = templates_part_6(name)->Some_0;
        lemma_chest_listed(d, 0, 0);
        assert(template_well_formed(templates_part_6(name)->Some_0));
    } else if name == "village/desert/houses/desert_weaponsmith_1"@ {
        let d = templates_part_6(name)->Some_0;
        lemma_chest_listed(d, 0, 0);
        assert(template_well_formed(templates_part_6(name)->Some_0));
    } else if name == "village/desert/zombie/houses/desert_medium_house_1"@ {
        let d = templates_part_6(name)->Some_0;
        lemma_chest_listed(d, 0, 0);
        assert(template_well_formed(templates_part_6(name)->Some_0));
    } else if name == "village/desert/zombie/houses/desert_medium_house_2"@ {
        let d = templates_part_6(name)->Some_0;
        lemma_chest_listed(d, 0, 0);
        assert(template_well_formed(templates_part_6(name)->Some_0));
    } else if name == "village/desert/zombie/houses/desert_small_house_4"@ {
        let d = templates_part_6(name)->Some_0;
        lemma_chest_listed(d, 0, 0);
        assert(template_well_formed(templates_part_6(name)->Some_0));
    } else if name == "village/desert/zombie/houses/desert_small_house_6"@ {
        let d = templates_part_6(name)->Some_0;
        lemma_chest_listed(d, 0, 0);
        assert(template_well_formed(templates_part_6(name)->Some_0));
    } else if name == "village/plains/houses/plains_big_house_1"@ {
        let d = templates_part_6(name)->Some_0;
        lemma_chest_listed(d, 0, 0);
        assert(template_well_formed(templates_part_6(name)->Some_0));
    } else if name == "village/plains/houses/plains_cartographer_1"@ {
        let d = templates_part_6(name)->Some_0;
        lemma_chest_listed(d, 0, 0);
        assert(template_well_formed(templates_part_6(name)->Some_0));
    } else if name == "village/plains/houses/plains_fisher_cottage_1"@ {
        let d = templates_part_6(name)->Some_0;
        lemma_chest_listed(d, 0, 2);
        assert(template_well_formed(templates_part_6(name)->Some_0));
    } else if name == "village/plains/houses/plains_medium_house_2"@ {
        let d = templates_part_6(name)->Some_0;
        lemma_chest_listed(d, 0, 0);
        assert(template_well_formed(templates_part_6(name)->Some_0));
    } else if name == "village/plains/houses/plains_small_house_7"@ {
        let d = templates_part_6(name)->Some_0;
        lemma_chest_listed(d, 0, 0);
        assert(template_well_formed(templates_part_6(name)->Some_0));
    } else if name == "village/plains/houses/plains_tannery_1"@ {
        let d = templates_part_6(name)->Some_0;
        lemma_chest_listed(d, 0, 0);
        assert(template_well_formed(templates_part_6(name)->Some_0));
    } else if name == "village/plains/houses/plains_weaponsmith_1"@ {
        let d = templates_part_6(name)->Some_0;
        lemma_chest_listed(d, 0, 0);
        assert(template_well_formed(templates_part_6(name)->Some_0));
    } else if name == "village/plains/zombie/houses/plains_big_house_1"@ {
        let d = templates_part_6(name)->Some_0;
        lemma_chest_listed(d, 0, 0);
        assert(template_well_formed(templates_part_6(name)->Some_0));
    } else if name == "village/plains/zombie/houses/plains_medium_house_2"@ {
        let d = templates_part_6(name)->Some_0;
        lemma_chest_listed(d, 0, 0);
        assert(template_well_formed(templates_part_6(name)->Some_0));
    } else if name == "village/plains/zombie/houses/plains_small_house_7"@ {
        let d = templates_part_6(name)->Some_0;
        lemma_chest_listed(d, 0, 0);
        assert(template_well_formed(templates_part_6(name)->Some_0));
    } else if name == "village/savanna/houses/savanna_butchers_shop_2"@ {
        let d = templates_part_6(name)->Some_0;
        lemma_chest_listed(d, 0, 0);
        assert(template_well_formed(templates_part_6(name)->Some_0));
    } else if name == "village/savanna/houses/savanna_cartographer_1"@ {
        let d = templates_part_6(name)->Some_0;
        lemma_chest_listed(d, 0, 0);
        assert(template_well_formed(templates_part_6(name)->Some_0));
    } else if name == "village/savanna/houses/savanna_fisher_cottage_1"@ {
        assert(template_well_formed(templates_part_6(name)->Some_0));
    } else if name == "village/savanna/houses/savanna_mason_1"@ {
        let d = templates_part_6(name)->Some_0;
        lemma_chest_listed(d, 0, 0);
        assert(template_well_formed(templates_part_6(name)->Some_0));
    } else if name == "village/savanna/houses/savanna_medium_house_1"@ {
        let d = templates_part_6(name)->Some_0;
        lemma_chest_listed(d, 0, 0);
        assert(template_well_formed(templates_part_6(name)->Some_0));
    } else if name == "village/savanna/houses/savanna_medium_house_2"@ {
        let d = templates_part_6(name)->Some_0;
        lemma_chest_listed(d, 0, 0);
        assert(template_well_formed(templates_part_6(name)->Some_0));
    } else if name == "village/savanna/houses/savanna_small_house_2"@ {
        let d = templates_part_6(name)->Some_0;
        lemma_chest_listed(d, 0, 0);
        assert(template_well_formed(templates_part_6(name)->Some_0));
    } else if name == "village/savanna/houses/savanna_small_house_4"@ {
        let d = templates_part_6(name)->Some_0;
        lemma_chest_listed(d, 0, 0);
        assert(template_well_formed(templates_part_6(name)->Some_0));
    } else if name == "village/savanna/houses/savanna_small_house_7"@ {
        let d = templates_part_6(name)->Some_0;
        lemma_chest_listed(d, 0, 0);
        assert(template_well_formed(templates_part_6(name)->Some_0));
    } else if name == "village/savanna/houses/savanna_tannery_1"@ {
        let d = templates_part_6(name)->Some_0;
        lemma_chest_listed(d, 0, 0);
        assert(template_well_formed(templates_part_6(name)->Some_0));
    } else if name == "village/savanna/houses/savanna_weaponsmith_2"@ {
        let d = templates_part_6(name)->Some_0;
        lemma_chest_listed(d, 0, 0);
        assert(template_well_formed(templates_part_6(name)->Some_0));
    } else if name == "village/savanna/zombie/houses/savanna_medium_house_1"@ {
        let d = templates_part_6(name)->Some_0;
        lemma_chest_listed(d, 0, 0);
        assert(template_well_formed(templates_part_6(name)->Some_0));
    } else if name == "village/savanna/zombie/houses/savanna_medium_house_2"@ {
        let d = templates_part_6(name)->Some_0;
        lemma_chest_listed(d, 0, 0);
        assert(template_well_formed(templates_part_6(name)->Some_0));
    }
}

/// Every template of part 7 of the table is well formed.
proof fn lemma_part_7_well_formed(name: Seq<char>)
    ensures
        templates_part_7(name) matches Some(d) ==> template_well_formed(d),
{
    if name == "village/savanna/zombie/houses/savanna_small_house_2"@ {
        let d = templates_part_7(name)->Some_0;
        lemma_chest_listed(d, 0, 0);
        assert(template_well_formed(templates_part_7(name)->Some_0));
    } else if name == "village/savanna/zombie/houses/savanna_small_house_4"@ {
        let d = templates_part_7(name)->Some_0;
        lemma_chest_listed(d, 0, 0);
        assert(template_well_formed(templates_part_7(name)->Some_0));
    } else if name == "village/savanna/zombie/houses/savanna_small_house_7"@ {
        let d = templates_part_7(name)->Some_0;
        lemma_chest_listed(d, 0, 0);
        assert(template_well_formed(templates_part_7(name)->Some_0));
    } else if name == "village/snowy/houses/snowy_armorer_house_1"@ {
        let d = templates_part_7(name)->Some_0;
        lemma_chest_listed(d, 0, 0);
        assert(template_well_formed(templates_part_7(name)->Some_0));
    } else if name == "village/snowy/houses/snowy_cartographer_house_1"@ {
        let d = templates_part_7(name)->Some_0;
        lemma_chest_listed(d, 0, 0);
        assert(template_well_formed(templates_part_7(name)->Some_0));
    } else if name == "village/snowy/houses/snowy_fisher_cottage"@ {
        assert(template_well_formed(templates_part_7(name)->Some_0));
    } else if name == "village/snowy/houses/snowy_shepherds_house_1"@ {
        let d = templates_part_7(name)->Some_0;
        lemma_chest_listed(d, 0, 0);
        assert(template_well_formed(templates_part_7(name)->Some_0));
    } else if name == "village/snowy/houses/snowy_small_house_5"@ {
        let d = templates_part_7(name)->Some_0;
        lemma_chest_listed(d, 0, 0);
        assert(template_well_formed(templates_part_7(name)->Some_0));
    } else if name == "village/snowy/houses/snowy_small_house_6"@ {
        let d = templates_part_7(name)->Some_0;
        lemma_chest_listed(d, 0, 0);
        assert(template_well_formed(templates_part_7(name)->Some_0));
    } else if name == "village/snowy/houses/snowy_tannery_1"@ {
        let d = templates_part_7(name)->Some_0;
        lemma_chest_listed(d, 0, 0);
        assert(template_well_formed(templates_part_7(name)->Some_0));
    } else if name == "village/snowy/houses/snowy_weapon_smith_1"@ {
        let d = templates_part_7(name)->Some_0;
        lemma_chest_listed(d, 0, 0);
        assert(template_well_formed(templates_part_7(name)->Some_0));
    } else if name == "village/snowy/zombie/houses/snowy_small_house_5"@ {
        let d = templates_part_7(name)->Some_0;
        lemma_chest_listed(d, 0, 0);
        assert(template_well_formed(templates_part_7(name)->Some_0));
    } else if name == "village/snowy/zombie/houses/snowy_small_house_6"@ {
        let d = templates_part_7(name)->Some_0;
        lemma_chest_listed(d, 0, 0);
        assert(template_well_formed(templates_part_7(name)->Some_0));
    } else if name == "village/taiga/houses/taiga_cartographer_house_1"@ {
        let d = templates_part_7(name)->Some_0;
        lemma_chest_listed(d, 0, 0);
        assert(template_well_formed(templates_part_7(name)->Some_0));
    } else if name == "village/taiga/houses/taiga_fisher_cottage_1"@ {
        assert(template_well_formed(templates_part_7(name)->Some_0));
    } else if name == "village/taiga/houses/taiga_fletcher_house_1"@ {
        let d = templates_part_7(name)->Some_0;
        lemma_chest_listed(d, 0, 0);
        assert(template_well_formed(templates_part_7(name)->Some_0));
    } else if name == "village/taiga/houses/taiga_medium_house_1"@ {
        let d = templates_part_7(name)->Some_0;
        lemma_chest_listed(d, 0, 0);
        assert(template_well_formed(templates_part_7(name)->Some_0));
    } else if name == "village/taiga/houses/taiga_medium_house_2"@ {
        let d = templates_part_7(name)->Some_0;
        lemma_chest_listed(d, 0, 0);
        assert(template_well_formed(templates_part_7(name)->Some_0));
    } else if name == "village/taiga/houses/taiga_medium_house_3"@ {
        let d = templates_part_7(name)->Some_0;
        lemma_chest_listed(d, 0, 0);
        assert(template_well_formed(templates_part_7(name)->Some_0));
    } else if name == "village/taiga/houses/taiga_small_house_3"@ {
        let d = templates_part_7(name)->Some_0;
        lemma_chest_listed(d, 0, 0);
        assert(template_well_formed(templates_part_7(name)->Some_0));
    } else if name == "village/taiga/houses/taiga_small_house_5"@ {
        let d = templates_part_7(name)->Some_0;
        lemma_chest_listed(d, 0, 0);
        assert(template_well_formed(templates_part_7(name)->Some_0));
    } else if name == "village/taiga/houses/taiga_tannery_1"@ {
        let d = templates_part_7(name)->Some_0;
        lemma_chest_listed(d, 0, 0);
        assert(template_well_formed(templates_part_7(name)->Some_0));
    } else if name == "village/taiga/houses/taiga_tool_smith_1"@ {
        let d = templates_part_7(name)->Some_0;
        lemma_chest_listed(d, 0, 0);
        assert(template_well_formed(templates_part_7(name)->Some_0));
    } else if name == "village/taiga/houses/taiga_weaponsmith_1"@ {
        let d = templates_part_7(name)->Some_0;
        lemma_chest_listed(d, 0, 0);
        assert(template_well_formed(templates_part_7(name)->Some_0));
    } else if name == "village/taiga/zombie/houses/taiga_cartographer_house_1"@ {
        let d = templates_part_7(name)->Some_0;
        lemma_chest_listed(d, 0, 0);
        assert(template_well_formed(templates_part_7(name)->Some_0));
    } else if name == "village/taiga/zombie/houses/taiga_fisher_cottage_1"@ {
        assert(template_well_formed(templates_part_7(name)->Some_0));
    } else if name == "village/taiga/zombie/houses/taiga_medium_house_1"@ {
        let d = templates_part_7(name)->Some_0;
        lemma_chest_listed(d, 0, 0);
        assert(template_well_formed(templates_part_7(name)->Some_0));
    } else if name == "village/taiga/zombie/houses/taiga_medium_house_2"@ {
        let d = templates_part_7(name)->Some_0;
        lemma_chest_listed(d, 0, 0);
        assert(template_well_formed(templates_part_7(name)->Some_0));
    } else if name == "village/taiga/zombie/houses/taiga_medium_house_3"@ {
        let d = templates_part_7(name)->Some_0;
        lemma_chest_listed(d, 0, 0);
        assert(template_well_formed(templates_part_7(name)->Some_0));
    } else if name == "village/taiga/zombie/houses/taiga_small_house_3"@ {
        let d = templates_part_7(name)->Some_0;
        lemma_chest_listed(d, 0, 0);
        assert(template_well_formed(templates_part_7(name)->Some_0));
    }
}

/// Every template of part 8 of the table is well formed.
proof fn lemma_part_8_well_formed(name: Seq<char>)
    ensures
        templates_part_8(name) matches Some(d) ==> template_well_formed(d),
{
    if name == "village/taiga/zombie/houses/taiga_small_house_5"@ {
        let d = templates_part_8(name)->Some_0;
        lemma_chest_listed(d, 0, 0);
        assert(template_well_formed(templates_part_8(name)->Some_0));
    } else if name == "village/taiga/zombie/houses/taiga_tool_smith_1"@ {
        let d = templates_part_8(name)->Some_0;
        lemma_chest_listed(d, 0, 0);
        assert(template_well_formed(templates_part_8(name)->Some_0));
    } else if name == "woodland_mansion/1x1_a4"@ {
        assert(template_well_formed(templates_part_8(name)->Some_0));
    } else if name == "woodland_mansion/1x1_as1"@ {
        assert(template_well_formed(templates_part_8(name)->Some_0));
    } else if name == "woodland_mansion/1x1_b5"@ {
        assert(template_well_formed(templates_part_8(name)->Some_0));
    } else if name == "woodland_mansion/1x2_a1"@ {
        assert(template_well_formed(templates_part_8(name)->Some_0));
    } else if name == "woodland_mansion/1x2_a3"@ {
        assert(template_well_formed(templates_part_8(name)->Some_0));
    } else if name == "woodland_mansion/1x2_a4"@ {
        assert(template_well_formed(templates_part_8(name)->Some_0));
    } else if name == "woodland_mansion/1x2_a6"@ {
        assert(template_well_formed(templates_part_8(name)->Some_0));
    } else if name == "woodland_mansion/1x2_a7"@ {
        assert(template_well_formed(templates_part_8(name)->Some_0));
    } else if name == "woodland_mansion/1x2_a8"@ {
        assert(template_well_formed(templates_part_8(name)->Some_0));
    } else if name == "woodland_mansion/1x2_a9"@ {
        assert(template_well_formed(templates_part_8(name)->Some_0));
    } else if name == "woodland_mansion/1x2_b1"@ {
        assert(template_well_formed(templates_part_8(name)->Some_0));
    } else if name == "woodland_mansion/1x2_b2"@ {
        assert(template_well_formed(templates_part_8(name)->Some_0));
    } else if name == "woodland_mansion/1x2_b3"@ {
        assert(template_well_formed(templates_part_8(name)->Some_0));
    } else if name == "woodland_mansion/1x2_b4"@ {
        assert(template_well_formed(templates_part_8(name)->Some_0));
    } else if name == "woodland_mansion/1x2_c3"@ {
        assert(template_well_formed(templates_part_8(name)->Some_0));
    } else if name == "woodland_mansion/1x2_d2"@ {
        assert(template_well_formed(templates_part_8(name)->Some_0));
    } else if name == "woodland_mansion/1x2_d3"@ {
        assert(template_well_formed(templates_part_8(name)->Some_0));
    } else if name == "woodland_mansion/1x2_s1"@ {
        assert(template_well_formed(templates_part_8(name)->Some_0));
    } else if name == "woodland_mansion/1x2_s2"@ {
        assert(template_well_formed(templates_part_8(name)->Some_0));
    } else if name == "woodland_mansion/1x2_se1"@ {
        assert(template_well_formed(templates_part_8(name)->Some_0));
    } else if name == "woodland_mansion/2x2_a1"@ {
        assert(template_well_formed(templates_part_8(name)->Some_0));
    } else if name == "woodland_mansion/2x2_a2"@ {
        assert(template_well_formed(templates_part_8(name)->Some_0));
    } else if name == "woodland_mansion/2x2_b1"@ {
        assert(template_well_formed(templates_part_8(name)->Some_0));
    } else if name == "woodland_mansion/2x2_b2"@ {
        assert(template_well_formed(templates_part_8(name)->Some_0));
    } else if name == "woodland_mansion/2x2_b4"@ {
        assert(template_well_formed(templates_part_8(name)->Some_0));
    } else if name == "woodland_mansion/2x2_b5"@ {
        assert(template_well_formed(templates_part_8(name)->Some_0));
    }
}

/// Templates of part 1 of the table.
pub open spec fn templates_part_1(name: Seq<char>) -> Option<TemplateContainerData> {
    if name == "ancient_city/city_center/city_center_2"@ {
        Some(TemplateContainerData { size: [18, 31, 41], chests: &[], markers: &[], randomizable_containers: &[TemplateBlockPos { x: 9, y: 8, z: 20 }] })
    } else if name == "ancient_city/structures/barracks"@ {
        Some(TemplateContainerData { size: [21, 12, 17], chests: &[TemplateChest { x: 4, y: 4, z: 15, loot_table: "minecraft:chests/ancient_city" }, TemplateChest { x: 12, y: 4, z: 15, loot_table: "minecraft:chests/ancient_city" }], markers: &[], randomizable_containers: &[TemplateBlockPos { x: 4, y: 4, z: 15 }, TemplateBlockPos { x: 12, y: 4, z: 15 }] })
    } else if name == "ancient_city/structures/chamber_1"@ {
        Some(TemplateContainerData { size: [19, 10, 15], chests: &[TemplateChest { x: 14, y: 3, z: 11, loot_table: "minecraft:chests/ancient_city" }], markers: &[], randomizable_containers: &[TemplateBlockPos { x: 14, y: 3, z: 11 }] })
    } else if name == "ancient_city/structures/chamber_2"@ {
        Some(TemplateContainerData { size: [12, 6, 11], chests: &[TemplateChest { x: 10, y: 2, z: 5, loot_table: "minecraft:chests/ancient_city" }], markers: &[], randomizable_containers: &[TemplateBlockPos { x: 10, y: 2, z: 5 }] })
    } else if name == "ancient_city/structures/chamber_3"@ {
        Some(TemplateContainerData { size: [10, 6, 11], chests: &[TemplateChest { x: 7, y: 1, z: 5, loot_table: "minecraft:chests/ancient_city" }], markers: &[], randomizable_containers: &[TemplateBlockPos { x: 7, y: 1, z: 5 }] })
    } else if name == "ancient_city/structures/ice_box_1"@ {
        Some(TemplateContainerData { size: [19, 10, 15], chests: &[TemplateChest { x: 12, y: 1, z: 7, loot_table: "minecraft:chests/ancient_city_ice_box" }], markers: &[], randomizable_containers: &[TemplateBlockPos { x: 12, y: 1, z: 7 }] })
    } else if name == "ancient_city/structures/sauna_1"@ {
        Some(TemplateContainerData { size: [29, 10, 37], chests: &[TemplateChest { x: 12, y: 1, z: 19, loot_table: "minecraft:chests/ancient_city" }, TemplateChest { x: 21, y: 1, z: 18, loot_table: "minecraft:chests/ancient_city" }, TemplateChest { x: 25, y: 1, z: 10, loot_table: "minecraft:chests/ancient_city" }], markers: &[], randomizable_containers: &[TemplateBlockPos { x: 12, y: 1, z: 19 }, TemplateBlockPos { x: 21, y: 1, z: 18 }, TemplateBlockPos { x: 25, y: 1, z: 10 }] })
    } else if name == "ancient_city/structures/tall_ruin_1"@ {
        Some(TemplateContainerData { size: [17, 23, 17], chests: &[TemplateChest { x: 8, y: 16, z: 8, loot_table: "minecraft:chests/ancient_city" }], markers: &[], randomizable_containers: &[TemplateBlockPos { x: 8, y: 16, z: 8 }] })
    } else if name == "ancient_city/structures/tall_ruin_2"@ {
        Some(TemplateContainerData { size: [17, 23, 17], chests: &[TemplateChest { x: 7, y: 1, z: 5, loot_table: "minecraft:chests/ancient_city" }, TemplateChest { x: 13, y: 7, z: 9, loot_table: "minecraft:chests/ancient_city" }], markers: &[], randomizable_containers: &[TemplateBlockPos { x: 7, y: 1, z: 5 }, TemplateBlockPos { x: 13, y: 7, z: 9 }] })
    } else if name == "ancient_city/structures/tall_ruin_3"@ {
        Some(TemplateContainerData { size: [17, 23, 17], chests: &[TemplateChest { x: 10, y: 14, z: 7, loot_table: "minecraft:chests/ancient_city" }], markers: &[], randomizable_containers: &[TemplateBlockPos { x: 10, y: 14, z: 7 }] })
    } else if name == "ancient_city/structures/tall_ruin_4"@ {
        Some(TemplateContainerData { size: [17, 23, 17], chests: &[TemplateChest { x: 8, y: 7, z: 13, loot_table: "minecraft:chests/ancient_city" }], markers: &[], randomizable_containers: &[TemplateBlockPos { x: 8, y: 7, z: 13 }] })
    } else if name == "bastion/bridge/ramparts/rampart_0"@ {
        Some(TemplateContainerData { size: [16, 22, 16], chests: &[TemplateChest { x: 3, y: 13, z: 7, loot_table: "minecraft:chests/bastion_other" }], markers: &[], randomizable_containers: &[TemplateBlockPos { x: 3, y: 13, z: 7 }] })
    } else if name == "bastion/bridge/ramparts/rampart_1"@ {
        Some(TemplateContainerData { size: [16, 32, 16], chests: &[TemplateChest { x: 7, y: 17, z: 7, loot_table: "minecraft:chests/bastion_other" }, TemplateChest { x: 7, y: 17, z: 8, loot_table: "minecraft:chests/bastion_other" }, TemplateChest { x: 7, y: 17, z: 12, loot_table: "minecraft:chests/bastion_other" }], markers: &[], randomizable_containers: &[TemplateBlockPos { x: 7, y: 17, z: 7 }, TemplateBlockPos { x: 7, y: 17, z: 8 }, TemplateBlockPos { x: 7, y: 17, z: 12 }] })
    } else if name == "bastion/bridge/starting_pieces/entrance"@ {
        Some(TemplateContainerData { size: [17, 32, 32], chests: &[TemplateChest { x: 9, y: 16, z: 4, loot_table: "minecraft:chests/bastion_bridge" }], markers: &[], randomizable_containers: &[TemplateBlockPos { x: 9, y: 16, z: 4 }] })
    } else if name == "bastion/hoglin_stable/large_stables/inner_3"@ {
        Some(TemplateContainerData { size: [14, 6, 8], chests: &[TemplateChest { x: 1, y: 1, z: 5, loot_table: "minecraft:chests/bastion_hoglin_stable" }], markers: &[], randomizable_containers: &[TemplateBlockPos { x: 1, y: 1, z: 5 }] })
    } else if name == "bastion/hoglin_stable/ramparts/ramparts_1"@ {
        Some(TemplateContainerData { size: [16, 32, 16], chests: &[TemplateChest { x: 7, y: 17, z: 7, loot_table: "minecraft:chests/bastion_other" }, TemplateChest { x: 7, y: 17, z: 8, loot_table: "minecraft:chests/bastion_other" }, TemplateChest { x: 7, y: 17, z: 11, loot_table: "minecraft:chests/bastion_other" }], markers: &[], randomizable_containers: &[TemplateBlockPos { x: 7, y: 17, z: 7 }, TemplateBlockPos { x: 7, y: 17, z: 8 }, TemplateBlockPos { x: 7, y: 17, z: 11 }] })
    } else if name == "bastion/hoglin_stable/ramparts/ramparts_2"@ {
        Some(TemplateContainerData { size: [16, 21, 16], chests: &[TemplateChest { x: 12, y: 3, z: 13, loot_table: "minecraft:chests/bastion_other" }, TemplateChest { x: 3, y: 13, z: 9, loot_table: "minecraft:chests/bastion_other" }], markers: &[], randomizable_containers: &[TemplateBlockPos { x: 12, y: 3, z: 13 }, TemplateBlockPos { x: 3, y: 13, z: 9 }] })
    } else if name == "bastion/hoglin_stable/ramparts/ramparts_3"@ {
        Some(TemplateContainerData { size: [16, 12, 16], chests: &[TemplateChest { x: 6, y: 3, z: 4, loot_table: "minecraft:chests/bastion_other" }], markers: &[], randomizable_containers: &[TemplateBlockPos { x: 6, y: 3, z: 4 }] })
    } else if name == "bastion/hoglin_stable/small_stables/inner_2"@ {
        Some(TemplateContainerData { size: [12, 6, 8], chests: &[TemplateChest { x: 3, y: 1, z: 6, loot_table: "minecraft:chests/bastion_hoglin_stable" }], markers: &[], randomizable_containers: &[TemplateBlockPos { x: 3, y: 1, z: 6 }] })
    } else if name == "bastion/hoglin_stable/walls/side_wall_0"@ {
        Some(TemplateContainerData { size: [16, 24, 16], chests: &[TemplateChest { x: 9, y: 7, z: 9, loot_table: "minecraft:chests/bastion_other" }], markers: &[], randomizable_containers: &[TemplateBlockPos { x: 9, y: 7, z: 9 }] })
    } else if name == "bastion/hoglin_stable/walls/wall_base"@ {
        Some(TemplateContainerData { size: [16, 24, 16], chests: &[TemplateChest { x: 12, y: 4, z: 13, loot_table: "minecraft:chests/bastion_other" }], markers: &[], randomizable_containers: &[TemplateBlockPos { x: 12, y: 4, z: 13 }] })
    } else if name == "bastion/treasure/bases/centers/center_0"@ {
        Some(TemplateContainerData { size: [7, 6, 8], chests: &[TemplateChest { x: 4, y: 3, z: 6, loot_table: "minecraft:chests/bastion_treasure" }], markers: &[], randomizable_containers: &[TemplateBlockPos { x: 4, y: 3, z: 6 }] })
    } else if name == "bastion/treasure/bases/centers/center_1"@ {
        Some(TemplateContainerData { size: [7, 6, 8], chests: &[TemplateChest { x: 2, y: 3, z: 6, loot_table: "minecraft:chests/bastion_treasure" }, TemplateChest { x: 4, y: 3, z: 6, loot_table: "minecraft:chests/bastion_treasure" }], markers: &[], randomizable_containers: &[TemplateBlockPos { x: 2, y: 3, z: 6 }, TemplateBlockPos { x: 4, y: 3, z: 6 }] })
    } else if name == "bastion/treasure/bases/centers/center_2"@ {
        Some(TemplateContainerData { size: [7, 6, 8], chests: &[TemplateChest { x: 1, y: 2, z: 4, loot_table: "minecraft:chests/bastion_treasure" }], markers: &[], randomizable_containers: &[TemplateBlockPos { x: 1, y: 2, z: 4 }] })
    } else if name == "bastion/treasure/bases/centers/center_3"@ {
        Some(TemplateContainerData { size: [7, 6, 8], chests: &[TemplateChest { x: 3, y: 3, z: 5, loot_table: "minecraft:chests/bastion_treasure" }], markers: &[], randomizable_containers: &[TemplateBlockPos { x: 3, y: 3, z: 5 }] })
    } else if name == "bastion/treasure/ramparts/mid_wall_main"@ {
        Some(TemplateContainerData { size: [17, 32, 14], chests: &[TemplateChest { x: 11, y: 29, z: 6, loot_table: "minecraft:chests/bastion_other" }, TemplateChest { x: 13, y: 29, z: 8, loot_table: "minecraft:chests/bastion_other" }], markers: &[], randomizable_containers: &[TemplateBlockPos { x: 11, y: 29, z: 6 }, TemplateBlockPos { x: 13, y: 29, z: 8 }] })
    } else if name == "bastion/treasure/ramparts/mid_wall_side"@ {
        Some(TemplateContainerData { size: [17, 31, 14], chests: &[TemplateChest { x: 11, y: 29, z: 6, loot_table: "minecraft:chests/bastion_other" }, TemplateChest { x: 11, y: 29, z: 7, loot_table: "minecraft:chests/bastion_other" }], markers: &[], randomizable_containers: &[TemplateBlockPos { x: 11, y: 29, z: 6 }, TemplateBlockPos { x: 11, y: 29, z: 7 }] })
    } else if name == "bastion/treasure/walls/bottom/wall_0"@ {
        Some(TemplateContainerData { size: [5, 16, 24], chests: &[TemplateChest { x: 3, y: 6, z: 2, loot_table: "minecraft:chests/bastion_other" }], markers: &[], randomizable_containers: &[TemplateBlockPos { x: 3, y: 6, z: 2 }] })
    } else if name == "bastion/treasure/walls/mid/wall_0"@ {
        Some(TemplateContainerData { size: [5, 15, 24], chests: &[TemplateChest { x: 3, y: 11, z: 22, loot_table: "minecraft:chests/bastion_other" }], markers: &[], randomizable_containers: &[TemplateBlockPos { x: 3, y: 11, z: 22 }] })
    } else if name == "bastion/units/center_pieces/center_0"@ {
        Some(TemplateContainerData { size: [11, 7, 11], chests: &[TemplateChest { x: 8, y: 1, z: 3, loot_table: "minecraft:chests/bastion_other" }], markers: &[], randomizable_containers: &[TemplateBlockPos { x: 8, y: 1, z: 3 }] })
    } else {
        None
    }
}

/// Templates of part 2 of the table.
pub open spec fn templates_part_2(name: Seq<char>) -> Option<TemplateContainerData> {
    if name == "bastion/units/center_pieces/center_1"@ {
        Some(TemplateContainerData { size: [11, 8, 11], chests: &[TemplateChest { x: 6, y: 1, z: 9, loot_table: "minecraft:chests/bastion_other" }], markers: &[], randomizable_containers: &[TemplateBlockPos { x: 6, y: 1, z: 9 }] })
    } else if name == "bastion/units/center_pieces/center_2"@ {
        Some(TemplateContainerData { size: [11, 8, 11], chests: &[TemplateChest { x: 1, y: 1, z: 7, loot_table: "minecraft:chests/bastion_other" }], markers: &[], randomizable_containers: &[TemplateBlockPos { x: 1, y: 1, z: 7 }] })
    } else if name == "bastion/units/ramparts/ramparts_0"@ {
        Some(TemplateContainerData { size: [16, 32, 16], chests: &[TemplateChest { x: 7, y: 17, z: 7, loot_table: "minecraft:chests/bastion_other" }, TemplateChest { x: 7, y: 17, z: 8, loot_table: "minecraft:chests/bastion_other" }, TemplateChest { x: 7, y: 17, z: 12, loot_table: "minecraft:chests/bastion_other" }], markers: &[], randomizable_containers: &[TemplateBlockPos { x: 7, y: 17, z: 7 }, TemplateBlockPos { x: 7, y: 17, z: 8 }, TemplateBlockPos { x: 7, y: 17, z: 12 }] })
    } else if name == "bastion/units/ramparts/ramparts_1"@ {
        Some(TemplateContainerData { size: [16, 22, 16], chests: &[TemplateChest { x: 3, y: 13, z: 6, loot_table: "minecraft:chests/bastion_other" }], markers: &[], randomizable_containers: &[TemplateBlockPos { x: 3, y: 13, z: 6 }] })
    } else if name == "bastion/units/stages/stage_0_2"@ {
        Some(TemplateContainerData { size: [12, 7, 8], chests: &[TemplateChest { x: 1, y: 4, z: 6, loot_table: "minecraft:chests/bastion_other" }], markers: &[], randomizable_containers: &[TemplateBlockPos { x: 1, y: 4, z: 6 }] })
    } else if name == "bastion/units/stages/stage_1_2"@ {
        Some(TemplateContainerData { size: [12, 7, 8], chests: &[TemplateChest { x: 7, y: 1, z: 6, loot_table: "minecraft:chests/bastion_other" }], markers: &[], randomizable_containers: &[TemplateBlockPos { x: 7, y: 1, z: 6 }] })
    } else if name == "bastion/units/walls/wall_base"@ {
        Some(TemplateContainerData { size: [16, 24, 16], chests: &[TemplateChest { x: 2, y: 4, z: 5, loot_table: "minecraft:chests/bastion_other" }, TemplateChest { x: 3, y: 4, z: 5, loot_table: "minecraft:chests/bastion_other" }], markers: &[], randomizable_containers: &[TemplateBlockPos { x: 2, y: 4, z: 5 }, TemplateBlockPos { x: 3, y: 4, z: 5 }] })
    } else if name == "end_city/base_floor"@ {
        Some(TemplateContainerData { size: [10, 4, 10], chests: &[], markers: &[TemplateMarker { x: 3, y: 2, z: 9, metadata: "Sentry" }, TemplateMarker { x: 6, y: 2, z: 9, metadata: "Sentry" }], randomizable_containers: &[] })
    } else if name == "end_city/fat_tower_middle"@ {
        Some(TemplateContainerData { size: [13, 8, 13], chests: &[], markers: &[TemplateMarker { x: 2, y: 2, z: 6, metadata: "Sentry" }, TemplateMarker { x: 10, y: 2, z: 6, metadata: "Sentry" }, TemplateMarker { x: 6, y: 6, z: 2, metadata: "Sentry" }, TemplateMarker { x: 6, y: 6, z: 10, metadata: "Sentry" }], randomizable_containers: &[] })
    } else if name == "end_city/fat_tower_top"@ {
        Some(TemplateContainerData { size: [17, 6, 17], chests: &[], markers: &[TemplateMarker { x: 3, y: 2, z: 11, metadata: "Chest" }, TemplateMarker { x: 5, y: 2, z: 13, metadata: "Chest" }], randomizable_containers: &[TemplateBlockPos { x: 3, y: 1, z: 11 }, TemplateBlockPos { x: 5, y: 1, z: 13 }] })
    } else if name == "end_city/second_floor_2"@ {
        Some(TemplateContainerData { size: [12, 8, 12], chests: &[], markers: &[TemplateMarker { x: 8, y: 5, z: 6, metadata: "Sentry" }], randomizable_containers: &[] })
    } else if name == "end_city/ship"@ {
        Some(TemplateContainerData { size: [13, 24, 29], chests: &[], markers: &[TemplateMarker { x: 6, y: 4, z: 8, metadata: "Sentry" }, TemplateMarker { x: 5, y: 5, z: 7, metadata: "Chest" }, TemplateMarker { x: 6, y: 5, z: 7, metadata: "Elytra" }, TemplateMarker { x: 7, y: 5, z: 7, metadata: "Chest" }, TemplateMarker { x: 8, y: 6, z: 27, metadata: "Sentry" }, TemplateMarker { x: 4, y: 11, z: 27, metadata: "Sentry" }], randomizable_containers: &[TemplateBlockPos { x: 5, y: 4, z: 7 }, TemplateBlockPos { x: 7, y: 4, z: 7 }] })
    } else if name == "end_city/third_floor_2"@ {
        Some(TemplateContainerData { size: [14, 8, 14], chests: &[], markers: &[TemplateMarker { x: 2, y: 5, z: 2, metadata: "Sentry" }, TemplateMarker { x: 11, y: 5, z: 2, metadata: "Sentry" }, TemplateMarker { x: 6, y: 6, z: 2, metadata: "Chest" }], randomizable_containers: &[TemplateBlockPos { x: 6, y: 5, z: 2 }] })
    } else if name == "end_city/tower_top"@ {
        Some(TemplateContainerData { size: [9, 5, 9], chests: &[], markers: &[TemplateMarker { x: 4, y: 3, z: 4, metadata: "Sentry" }], randomizable_containers: &[] })
    } else if name == "igloo/bottom"@ {
        Some(TemplateContainerData { size: [7, 6, 9], chests: &[], markers: &[TemplateMarker { x: 1, y: 2, z: 6, metadata: "chest" }], randomizable_containers: &[TemplateBlockPos { x: 1, y: 1, z: 6 }] })
    } else if name == "pillager_outpost/watchtower"@ {
        Some(TemplateContainerData { size: [15, 21, 15], chests: &[TemplateChest { x: 9, y: 14, z: 10, loot_table: "minecraft:chests/pillager_outpost" }], markers: &[], randomizable_containers: &[TemplateBlockPos { x: 9, y: 14, z: 10 }] })
    } else if name == "pillager_outpost/watchtower_overgrown"@ {
        Some(TemplateContainerData { size: [15, 23, 15], chests: &[TemplateChest { x: 9, y: 14, z: 10, loot_table: "minecraft:chests/pillager_outpost" }], markers: &[], randomizable_containers: &[TemplateBlockPos { x: 9, y: 14, z: 10 }] })
    } else if name == "ruined_portal/giant_portal_1"@ {
        Some(TemplateContainerData { size: [11, 17, 16], chests: &[TemplateChest { x: 4, y: 3, z: 3, loot_table: "minecraft:chests/ruined_portal" }], markers: &[], randomizable_containers: &[TemplateBlockPos { x: 4, y: 3, z: 3 }] })
    } else if name == "ruined_portal/giant_portal_2"@ {
        Some(TemplateContainerData { size: [11, 16, 16], chests: &[TemplateChest { x: 9, y: 1, z: 9, loot_table: "minecraft:chests/ruined_portal" }], markers: &[], randomizable_containers: &[TemplateBlockPos { x: 9, y: 1, z: 9 }] })
    } else if name == "ruined_portal/giant_portal_3"@ {
        Some(TemplateContainerData { size: [16, 16, 16], chests: &[TemplateChest { x: 9, y: 2, z: 3, loot_table: "minecraft:chests/ruined_portal" }], markers: &[], randomizable_containers: &[TemplateBlockPos { x: 9, y: 2, z: 3 }] })
    } else if name == "ruined_portal/portal_1"@ {
        Some(TemplateContainerData { size: [6, 10, 6], chests: &[TemplateChest { x: 2, y: 2, z: 0, loot_table: "minecraft:chests/ruined_portal" }], markers: &[], randomizable_containers: &[TemplateBlockPos { x: 2, y: 2, z: 0 }] })
    } else if name == "ruined_portal/portal_10"@ {
        Some(TemplateContainerData { size: [12, 8, 10], chests: &[TemplateChest { x: 2, y: 1, z: 7, loot_table: "minecraft:chests/ruined_portal" }], markers: &[], randomizable_containers: &[TemplateBlockPos { x: 2, y: 1, z: 7 }] })
    } else if name == "ruined_portal/portal_2"@ {
        Some(TemplateContainerData { size: [9, 12, 9], chests: &[TemplateChest { x: 8, y: 2, z: 6, loot_table: "minecraft:chests/ruined_portal" }], markers: &[], randomizable_containers: &[TemplateBlockPos { x: 8, y: 2, z: 6 }] })
    } else if name == "ruined_portal/portal_3"@ {
        Some(TemplateContainerData { size: [8, 9, 9], chests: &[TemplateChest { x: 3, y: 3, z: 6, loot_table: "minecraft:chests/ruined_portal" }], markers: &[], randomizable_containers: &[TemplateBlockPos { x: 3, y: 3, z: 6 }] })
    } else if name == "ruined_portal/portal_4"@ {
        Some(TemplateContainerData { size: [8, 9, 9], chests: &[TemplateChest { x: 3, y: 3, z: 2, loot_table: "minecraft:chests/ruined_portal" }], markers: &[], randomizable_containers: &[TemplateBlockPos { x: 3, y: 3, z: 2 }] })
    } else if name == "ruined_portal/portal_5"@ {
        Some(TemplateContainerData { size: [10, 10, 7], chests: &[TemplateChest { x: 4, y: 3, z: 2, loot_table: "minecraft:chests/ruined_portal" }], markers: &[], randomizable_containers: &[TemplateBlockPos { x: 4, y: 3, z: 2 }] })
    } else if name == "ruined_portal/portal_6"@ {
        Some(TemplateContainerData { size: [5, 7, 7], chests: &[TemplateChest { x: 1, y: 1, z: 4, loot_table: "minecraft:chests/ruined_portal" }], markers: &[], randomizable_containers: &[TemplateBlockPos { x: 1, y: 1, z: 4 }] })
    } else if name == "ruined_portal/portal_7"@ {
        Some(TemplateContainerData { size: [9, 7, 9], chests: &[TemplateChest { x: 0, y: 1, z: 2, loot_table: "minecraft:chests/ruined_portal" }], markers: &[], randomizable_containers: &[TemplateBlockPos { x: 0, y: 1, z: 2 }] })
    } else if name == "ruined_portal/portal_8"@ {
        Some(TemplateContainerData { size: [14, 9, 9], chests: &[TemplateChest { x: 4, y: 4, z: 2, loot_table: "minecraft:chests/ruined_portal" }], markers: &[], randomizable_containers: &[TemplateBlockPos { x: 4, y: 4, z: 2 }] })
    } else if name == "ruined_portal/portal_9"@ {
        Some(TemplateContainerData { size: [10, 8, 9], chests: &[TemplateChest { x: 4, y: 1, z: 0, loot_table: "minecraft:chests/ruined_portal" }], markers: &[], randomizable_containers: &[TemplateBlockPos { x: 4, y: 1, z: 0 }] })
    } else {
        None
    }
}

/// Templates of part 3 of the table.
pub open spec fn templates_part_3(name: Seq<char>) -> Option<TemplateContainerData> {
    if name == "shipwreck/rightsideup_backhalf"@ {
        Some(TemplateContainerData { size: [9, 9, 16], chests: &[], markers: &[TemplateMarker { x: 5, y: 3, z: 6, metadata: "map_chest" }, TemplateMarker { x: 6, y: 5, z: 12, metadata: "treasure_chest" }], randomizable_containers: &[TemplateBlockPos { x: 5, y: 2, z: 6 }, TemplateBlockPos { x: 6, y: 4, z: 12 }] })
    } else if name == "shipwreck/rightsideup_backhalf_degraded"@ {
        Some(TemplateContainerData { size: [9, 9, 16], chests: &[], markers: &[TemplateMarker { x: 5, y: 3, z: 6, metadata: "map_chest" }, TemplateMarker { x: 6, y: 5, z: 12, metadata: "treasure_chest" }], randomizable_containers: &[TemplateBlockPos { x: 5, y: 2, z: 6 }, TemplateBlockPos { x: 6, y: 4, z: 12 }] })
    } else if name == "shipwreck/rightsideup_fronthalf"@ {
        Some(TemplateContainerData { size: [9, 9, 24], chests: &[], markers: &[TemplateMarker { x: 4, y: 3, z: 8, metadata: "supply_chest" }], randomizable_containers: &[TemplateBlockPos { x: 4, y: 2, z: 8 }] })
    } else if name == "shipwreck/rightsideup_fronthalf_degraded"@ {
        Some(TemplateContainerData { size: [9, 9, 24], chests: &[], markers: &[TemplateMarker { x: 4, y: 3, z: 8, metadata: "supply_chest" }], randomizable_containers: &[TemplateBlockPos { x: 4, y: 2, z: 8 }] })
    } else if name == "shipwreck/rightsideup_full"@ {
        Some(TemplateContainerData { size: [9, 9, 28], chests: &[], markers: &[TemplateMarker { x: 4, y: 3, z: 8, metadata: "supply_chest" }, TemplateMarker { x: 5, y: 3, z: 18, metadata: "map_chest" }, TemplateMarker { x: 6, y: 5, z: 24, metadata: "treasure_chest" }], randomizable_containers: &[TemplateBlockPos { x: 4, y: 2, z: 8 }, TemplateBlockPos { x: 5, y: 2, z: 18 }, TemplateBlockPos { x: 6, y: 4, z: 24 }] })
    } else if name == "shipwreck/rightsideup_full_degraded"@ {
        Some(TemplateContainerData { size: [9, 9, 28], chests: &[], markers: &[TemplateMarker { x: 4, y: 3, z: 8, metadata: "supply_chest" }, TemplateMarker { x: 5, y: 3, z: 18, metadata: "map_chest" }, TemplateMarker { x: 6, y: 5, z: 24, metadata: "treasure_chest" }], randomizable_containers: &[TemplateBlockPos { x: 4, y: 2, z: 8 }, TemplateBlockPos { x: 5, y: 2, z: 18 }, TemplateBlockPos { x: 6, y: 4, z: 24 }] })
    } else if name == "shipwreck/sideways_backhalf"@ {
        Some(TemplateContainerData { size: [9, 9, 17], chests: &[], markers: &[TemplateMarker { x: 3, y: 3, z: 13, metadata: "treasure_chest" }, TemplateMarker { x: 6, y: 4, z: 8, metadata: "map_chest" }], randomizable_containers: &[TemplateBlockPos { x: 3, y: 2, z: 13 }, TemplateBlockPos { x: 6, y: 3, z: 8 }] })
    } else if name == "shipwreck/sideways_backhalf_degraded"@ {
        Some(TemplateContainerData { size: [9, 9, 17], chests: &[], markers: &[TemplateMarker { x: 3, y: 3, z: 13, metadata: "treasure_chest" }, TemplateMarker { x: 6, y: 4, z: 8, metadata: "map_chest" }], randomizable_containers: &[TemplateBlockPos { x: 3, y: 2, z: 13 }, TemplateBlockPos { x: 6, y: 3, z: 8 }] })
    } else if name == "shipwreck/sideways_fronthalf"@ {
        Some(TemplateContainerData { size: [9, 9, 24], chests: &[], markers: &[TemplateMarker { x: 5, y: 4, z: 8, metadata: "supply_chest" }], randomizable_containers: &[TemplateBlockPos { x: 5, y: 3, z: 8 }] })
    } else if name == "shipwreck/sideways_fronthalf_degraded"@ {
        Some(TemplateContainerData { size: [9, 9, 24], chests: &[], markers: &[TemplateMarker { x: 5, y: 4, z: 8, metadata: "supply_chest" }], randomizable_containers: &[TemplateBlockPos { x: 5, y: 3, z: 8 }] })
    } else if name == "shipwreck/sideways_full"@ {
        Some(TemplateContainerData { size: [9, 9, 28], chests: &[], markers: &[TemplateMarker { x: 3, y: 3, z: 24, metadata: "treasure_chest" }, TemplateMarker { x: 5, y: 4, z: 8, metadata: "supply_chest" }, TemplateMarker { x: 6, y: 4, z: 19, metadata: "map_chest" }], randomizable_containers: &[TemplateBlockPos { x: 3, y: 2, z: 24 }, TemplateBlockPos { x: 5, y: 3, z: 8 }, TemplateBlockPos { x: 6, y: 3, z: 19 }] })
    } else if name == "shipwreck/sideways_full_degraded"@ {
        Some(TemplateContainerData { size: [9, 9, 28], chests: &[], markers: &[TemplateMarker { x: 3, y: 3, z: 24, metadata: "treasure_chest" }, TemplateMarker { x: 5, y: 4, z: 8, metadata: "supply_chest" }, TemplateMarker { x: 6, y: 4, z: 19, metadata: "map_chest" }], randomizable_containers: &[TemplateBlockPos { x: 3, y: 2, z: 24 }, TemplateBlockPos { x: 5, y: 3, z: 8 }, TemplateBlockPos { x: 6, y: 3, z: 19 }] })
    } else if name == "shipwreck/upsidedown_backhalf"@ {
        Some(TemplateContainerData { size: [9, 9, 16], chests: &[], markers: &[TemplateMarker { x: 2, y: 3, z: 12, metadata: "treasure_chest" }, TemplateMarker { x: 3, y: 6, z: 5, metadata: "map_chest" }], randomizable_containers: &[TemplateBlockPos { x: 2, y: 2, z: 12 }, TemplateBlockPos { x: 3, y: 5, z: 5 }] })
    } else if name == "shipwreck/upsidedown_backhalf_degraded"@ {
        Some(TemplateContainerData { size: [9, 9, 16], chests: &[], markers: &[TemplateMarker { x: 2, y: 3, z: 12, metadata: "treasure_chest" }, TemplateMarker { x: 3, y: 6, z: 5, metadata: "map_chest" }], randomizable_containers: &[TemplateBlockPos { x: 2, y: 2, z: 12 }, TemplateBlockPos { x: 3, y: 5, z: 5 }] })
    } else if name == "shipwreck/upsidedown_fronthalf"@ {
        Some(TemplateContainerData { size: [9, 9, 22], chests: &[], markers: &[TemplateMarker { x: 3, y: 6, z: 17, metadata: "map_chest" }, TemplateMarker { x: 4, y: 6, z: 8, metadata: "supply_chest" }], randomizable_containers: &[TemplateBlockPos { x: 3, y: 5, z: 17 }, TemplateBlockPos { x: 4, y: 5, z: 8 }] })
    } else if name == "shipwreck/upsidedown_fronthalf_degraded"@ {
        Some(TemplateContainerData { size: [9, 9, 22], chests: &[], markers: &[TemplateMarker { x: 3, y: 6, z: 17, metadata: "map_chest" }, TemplateMarker { x: 4, y: 6, z: 8, metadata: "supply_chest" }], randomizable_containers: &[TemplateBlockPos { x: 3, y: 5, z: 17 }, TemplateBlockPos { x: 4, y: 5, z: 8 }] })
    } else if name == "shipwreck/upsidedown_full"@ {
        Some(TemplateContainerData { size: [9, 9, 28], chests: &[], markers: &[TemplateMarker { x: 2, y: 3, z: 24, metadata: "treasure_chest" }, TemplateMarker { x: 3, y: 6, z: 17, metadata: "map_chest" }, TemplateMarker { x: 4, y: 6, z: 8, metadata: "supply_chest" }], randomizable_containers: &[TemplateBlockPos { x: 2, y: 2, z: 24 }, TemplateBlockPos { x: 3, y: 5, z: 17 }, TemplateBlockPos { x: 4, y: 5, z: 8 }] })
    } else if name == "shipwreck/upsidedown_full_degraded"@ {
        Some(TemplateContainerData { size: [9, 9, 28], chests: &[], markers: &[TemplateMarker { x: 2, y: 3, z: 24, metadata: "treasure_chest" }, TemplateMarker { x: 3, y: 6, z: 17, metadata: "map_chest" }, TemplateMarker { x: 4, y: 6, z: 8, metadata: "supply_chest" }], randomizable_containers: &[TemplateBlockPos { x: 2, y: 2, z: 24 }, TemplateBlockPos { x: 3, y: 5, z: 17 }, TemplateBlockPos { x: 4, y: 5, z: 8 }] })
    } else if name == "shipwreck/with_mast"@ {
        Some(TemplateContainerData { size: [9, 21, 28], chests: &[], markers: &[TemplateMarker { x: 4, y: 3, z: 9, metadata: "supply_chest" }, TemplateMarker { x: 5, y: 3, z: 18, metadata: "map_chest" }, TemplateMarker { x: 6, y: 5, z: 24, metadata: "treasure_chest" }], randomizable_containers: &[TemplateBlockPos { x: 4, y: 2, z: 9 }, TemplateBlockPos { x: 5, y: 2, z: 18 }, TemplateBlockPos { x: 6, y: 4, z: 24 }] })
    } else if name == "shipwreck/with_mast_degraded"@ {
        Some(TemplateContainerData { size: [9, 21, 28], chests: &[], markers: &[TemplateMarker { x: 4, y: 3, z: 9, metadata: "supply_chest" }, TemplateMarker { x: 5, y: 3, z: 18, metadata: "map_chest" }, TemplateMarker { x: 6, y: 5, z: 24, metadata: "treasure_chest" }], randomizable_containers: &[TemplateBlockPos { x: 4, y: 2, z: 9 }, TemplateBlockPos { x: 5, y: 2, z: 18 }, TemplateBlockPos { x: 6, y: 4, z: 24 }] })
    } else if name == "trial_chambers/chamber/eruption/center_1"@ {
        Some(TemplateContainerData { size: [5, 12, 5], chests: &[], markers: &[], randomizable_containers: &[TemplateBlockPos { x: 2, y: 6, z: 2 }] })
    } else if name == "trial_chambers/chests/supply"@ {
        Some(TemplateContainerData { size: [3, 2, 3], chests: &[TemplateChest { x: 1, y: 1, z: 1, loot_table: "minecraft:chests/trial_chambers/supply" }], markers: &[], randomizable_containers: &[TemplateBlockPos { x: 1, y: 1, z: 1 }] })
    } else if name == "trial_chambers/corridor/addon/arrow_dispenser"@ {
        Some(TemplateContainerData { size: [9, 2, 5], chests: &[], markers: &[], randomizable_containers: &[TemplateBlockPos { x: 1, y: 0, z: 2 }] })
    } else if name == "trial_chambers/corridor/end_2"@ {
        Some(TemplateContainerData { size: [19, 20, 19], chests: &[TemplateChest { x: 9, y: 3, z: 6, loot_table: "minecraft:chests/trial_chambers/intersection" }], markers: &[], randomizable_containers: &[TemplateBlockPos { x: 9, y: 3, z: 6 }] })
    } else if name == "trial_chambers/corridor/entrance_1"@ {
        Some(TemplateContainerData { size: [19, 20, 19], chests: &[TemplateChest { x: 6, y: 3, z: 7, loot_table: "minecraft:chests/trial_chambers/reward" }, TemplateChest { x: 4, y: 9, z: 14, loot_table: "minecraft:chests/trial_chambers/entrance" }, TemplateChest { x: 9, y: 9, z: 14, loot_table: "minecraft:chests/trial_chambers/entrance" }], markers: &[], randomizable_containers: &[TemplateBlockPos { x: 6, y: 3, z: 7 }, TemplateBlockPos { x: 4, y: 9, z: 14 }, TemplateBlockPos { x: 9, y: 9, z: 14 }] })
    } else if name == "trial_chambers/corridor/entrance_2"@ {
        Some(TemplateContainerData { size: [19, 20, 19], chests: &[TemplateChest { x: 4, y: 9, z: 14, loot_table: "minecraft:chests/trial_chambers/entrance" }, TemplateChest { x: 9, y: 9, z: 14, loot_table: "minecraft:chests/trial_chambers/entrance" }], markers: &[], randomizable_containers: &[TemplateBlockPos { x: 4, y: 9, z: 14 }, TemplateBlockPos { x: 9, y: 9, z: 14 }] })
    } else if name == "trial_chambers/corridor/entrance_3"@ {
        Some(TemplateContainerData { size: [19, 22, 19], chests: &[TemplateChest { x: 4, y: 2, z: 4, loot_table: "minecraft:chests/trial_chambers/entrance" }, TemplateChest { x: 4, y: 2, z: 14, loot_table: "minecraft:chests/trial_chambers/entrance" }, TemplateChest { x: 4, y: 7, z: 14, loot_table: "minecraft:chests/trial_chambers/entrance" }], markers: &[], randomizable_containers: &[TemplateBlockPos { x: 4, y: 2, z: 4 }, TemplateBlockPos { x: 4, y: 2, z: 14 }, TemplateBlockPos { x: 4, y: 7, z: 14 }] })
    } else if name == "trial_chambers/decor/barrel"@ {
        Some(TemplateContainerData { size: [1, 2, 1], chests: &[TemplateChest { x: 0, y: 1, z: 0, loot_table: "minecraft:chests/trial_chambers/corridor" }], markers: &[], randomizable_containers: &[TemplateBlockPos { x: 0, y: 1, z: 0 }] })
    } else if name == "trial_chambers/decor/disposal"@ {
        Some(TemplateContainerData { size: [1, 4, 3], chests: &[], markers: &[], randomizable_containers: &[TemplateBlockPos { x: 0, y: 0, z: 1 }, TemplateBlockPos { x: 0, y: 1, z: 1 }] })
    } else if name == "trial_chambers/dispensers/chamber"@ {
        Some(TemplateContainerData { size: [2, 1, 3], chests: &[], markers: &[], randomizable_containers: &[TemplateBlockPos { x: 1, y: 0, z: 1 }] })
    } else {
        None
    }
}

/// Templates of part 4 of the table.
pub open spec fn templates_part_4(name: Seq<char>) -> Option<TemplateContainerData> {
    if name == "trial_chambers/dispensers/floor_dispenser"@ {
        Some(TemplateContainerData { size: [2, 2, 1], chests: &[], markers: &[], randomizable_containers: &[TemplateBlockPos { x: 1, y: 0, z: 0 }] })
    } else if name == "trial_chambers/dispensers/wall_dispenser"@ {
        Some(TemplateContainerData { size: [2, 2, 3], chests: &[], markers: &[], randomizable_containers: &[TemplateBlockPos { x: 0, y: 0, z: 1 }] })
    } else if name == "trial_chambers/hallway/encounter_4"@ {
        Some(TemplateContainerData { size: [14, 22, 19], chests: &[], markers: &[], randomizable_containers: &[TemplateBlockPos { x: 1, y: 15, z: 13 }, TemplateBlockPos { x: 1, y: 15, z: 14 }] })
    } else if name == "trial_chambers/hallway/rubble"@ {
        Some(TemplateContainerData { size: [5, 7, 4], chests: &[TemplateChest { x: 2, y: 2, z: 0, loot_table: "minecraft:chests/trial_chambers/reward" }], markers: &[], randomizable_containers: &[TemplateBlockPos { x: 2, y: 2, z: 0 }] })
    } else if name == "trial_chambers/hallway/rubble_chamber"@ {
        Some(TemplateContainerData { size: [5, 7, 4], chests: &[TemplateChest { x: 2, y: 2, z: 0, loot_table: "minecraft:chests/trial_chambers/reward" }], markers: &[], randomizable_containers: &[TemplateBlockPos { x: 2, y: 2, z: 0 }] })
    } else if name == "trial_chambers/intersection/intersection_2"@ {
        Some(TemplateContainerData { size: [23, 20, 22], chests: &[TemplateChest { x: 13, y: 8, z: 3, loot_table: "minecraft:chests/trial_chambers/intersection_barrel" }], markers: &[], randomizable_containers: &[TemplateBlockPos { x: 13, y: 8, z: 3 }] })
    } else if name == "trial_chambers/intersection/intersection_3"@ {
        Some(TemplateContainerData { size: [21, 37, 22], chests: &[TemplateChest { x: 13, y: 15, z: 10, loot_table: "minecraft:chests/trial_chambers/intersection_barrel" }], markers: &[], randomizable_containers: &[TemplateBlockPos { x: 13, y: 15, z: 10 }] })
    } else if name == "underwater_ruin/big_brick_1"@ {
        Some(TemplateContainerData { size: [16, 16, 16], chests: &[], markers: &[TemplateMarker { x: 5, y: 0, z: 4, metadata: "chest" }, TemplateMarker { x: 6, y: 1, z: 4, metadata: "drowned" }, TemplateMarker { x: 8, y: 1, z: 11, metadata: "drowned" }], randomizable_containers: &[] })
    } else if name == "underwater_ruin/big_brick_2"@ {
        Some(TemplateContainerData { size: [16, 16, 16], chests: &[], markers: &[TemplateMarker { x: 9, y: 1, z: 10, metadata: "chest" }, TemplateMarker { x: 10, y: 1, z: 8, metadata: "drowned" }], randomizable_containers: &[] })
    } else if name == "underwater_ruin/big_brick_3"@ {
        Some(TemplateContainerData { size: [16, 16, 16], chests: &[], markers: &[TemplateMarker { x: 2, y: 1, z: 7, metadata: "drowned" }, TemplateMarker { x: 6, y: 1, z: 9, metadata: "drowned" }, TemplateMarker { x: 12, y: 2, z: 2, metadata: "chest" }], randomizable_containers: &[] })
    } else if name == "underwater_ruin/big_brick_8"@ {
        Some(TemplateContainerData { size: [16, 16, 16], chests: &[], markers: &[TemplateMarker { x: 5, y: 0, z: 4, metadata: "chest" }, TemplateMarker { x: 3, y: 1, z: 8, metadata: "drowned" }, TemplateMarker { x: 10, y: 1, z: 9, metadata: "drowned" }], randomizable_containers: &[] })
    } else if name == "underwater_ruin/big_cracked_1"@ {
        Some(TemplateContainerData { size: [16, 16, 16], chests: &[], markers: &[TemplateMarker { x: 5, y: 0, z: 4, metadata: "chest" }, TemplateMarker { x: 12, y: 1, z: 11, metadata: "drowned" }], randomizable_containers: &[] })
    } else if name == "underwater_ruin/big_cracked_2"@ {
        Some(TemplateContainerData { size: [16, 16, 16], chests: &[], markers: &[TemplateMarker { x: 9, y: 1, z: 7, metadata: "drowned" }, TemplateMarker { x: 9, y: 1, z: 10, metadata: "chest" }, TemplateMarker { x: 12, y: 1, z: 9, metadata: "drowned" }], randomizable_containers: &[] })
    } else if name == "underwater_ruin/big_cracked_3"@ {
        Some(TemplateContainerData { size: [16, 16, 16], chests: &[], markers: &[TemplateMarker { x: 9, y: 2, z: 2, metadata: "drowned" }, TemplateMarker { x: 9, y: 2, z: 7, metadata: "drowned" }, TemplateMarker { x: 12, y: 2, z: 2, metadata: "chest" }, TemplateMarker { x: 13, y: 2, z: 6, metadata: "drowned" }], randomizable_containers: &[] })
    } else if name == "underwater_ruin/big_cracked_8"@ {
        Some(TemplateContainerData { size: [16, 16, 16], chests: &[], markers: &[TemplateMarker { x: 5, y: 0, z: 4, metadata: "chest" }, TemplateMarker { x: 2, y: 1, z: 4, metadata: "drowned" }], randomizable_containers: &[] })
    } else if name == "underwater_ruin/big_mossy_1"@ {
        Some(TemplateContainerData { size: [16, 16, 16], chests: &[], markers: &[TemplateMarker { x: 5, y: 0, z: 4, metadata: "chest" }, TemplateMarker { x: 6, y: 1, z: 8, metadata: "drowned" }], randomizable_containers: &[] })
    } else if name == "underwater_ruin/big_mossy_2"@ {
        Some(TemplateContainerData { size: [16, 16, 16], chests: &[], markers: &[TemplateMarker { x: 4, y: 1, z: 5, metadata: "drowned" }, TemplateMarker { x: 9, y: 1, z: 6, metadata: "drowned" }, TemplateMarker { x: 9, y: 1, z: 10, metadata: "chest" }], randomizable_containers: &[] })
    } else if name == "underwater_ruin/big_mossy_3"@ {
        Some(TemplateContainerData { size: [16, 16, 16], chests: &[], markers: &[TemplateMarker { x: 5, y: 1, z: 9, metadata: "drowned" }, TemplateMarker { x: 12, y: 2, z: 2, metadata: "chest" }], randomizable_containers: &[] })
    } else if name == "underwater_ruin/big_mossy_8"@ {
        Some(TemplateContainerData { size: [16, 16, 16], chests: &[], markers: &[TemplateMarker { x: 5, y: 0, z: 4, metadata: "chest" }, TemplateMarker { x: 7, y: 1, z: 8, metadata: "drowned" }, TemplateMarker { x: 11, y: 1, z: 10, metadata: "drowned" }], randomizable_containers: &[] })
    } else if name == "underwater_ruin/big_warm_4"@ {
        Some(TemplateContainerData { size: [16, 16, 16], chests: &[], markers: &[TemplateMarker { x: 11, y: 0, z: 8, metadata: "chest" }, TemplateMarker { x: 3, y: 1, z: 5, metadata: "drowned" }, TemplateMarker { x: 4, y: 2, z: 6, metadata: "drowned" }], randomizable_containers: &[] })
    } else if name == "underwater_ruin/big_warm_5"@ {
        Some(TemplateContainerData { size: [16, 16, 16], chests: &[], markers: &[TemplateMarker { x: 7, y: 0, z: 7, metadata: "chest" }, TemplateMarker { x: 5, y: 1, z: 5, metadata: "drowned" }, TemplateMarker { x: 7, y: 1, z: 9, metadata: "drowned" }, TemplateMarker { x: 10, y: 1, z: 12, metadata: "drowned" }, TemplateMarker { x: 11, y: 1, z: 4, metadata: "drowned" }], randomizable_containers: &[] })
    } else if name == "underwater_ruin/big_warm_6"@ {
        Some(TemplateContainerData { size: [16, 16, 16], chests: &[], markers: &[TemplateMarker { x: 10, y: 0, z: 9, metadata: "chest" }, TemplateMarker { x: 5, y: 1, z: 4, metadata: "drowned" }, TemplateMarker { x: 9, y: 1, z: 9, metadata: "drowned" }], randomizable_containers: &[] })
    } else if name == "underwater_ruin/big_warm_7"@ {
        Some(TemplateContainerData { size: [16, 16, 16], chests: &[], markers: &[TemplateMarker { x: 11, y: 0, z: 7, metadata: "chest" }, TemplateMarker { x: 4, y: 1, z: 5, metadata: "drowned" }, TemplateMarker { x: 10, y: 1, z: 8, metadata: "drowned" }], randomizable_containers: &[] })
    } else if name == "underwater_ruin/brick_1"@ {
        Some(TemplateContainerData { size: [6, 7, 7], chests: &[], markers: &[TemplateMarker { x: 3, y: 1, z: 5, metadata: "chest" }], randomizable_containers: &[] })
    } else if name == "underwater_ruin/brick_2"@ {
        Some(TemplateContainerData { size: [6, 7, 7], chests: &[], markers: &[TemplateMarker { x: 2, y: 0, z: 1, metadata: "chest" }, TemplateMarker { x: 2, y: 1, z: 5, metadata: "drowned" }, TemplateMarker { x: 3, y: 1, z: 2, metadata: "drowned" }], randomizable_containers: &[] })
    } else if name == "underwater_ruin/brick_3"@ {
        Some(TemplateContainerData { size: [6, 7, 7], chests: &[], markers: &[TemplateMarker { x: 1, y: 0, z: 5, metadata: "chest" }], randomizable_containers: &[] })
    } else if name == "underwater_ruin/brick_4"@ {
        Some(TemplateContainerData { size: [6, 7, 7], chests: &[], markers: &[TemplateMarker { x: 1, y: 1, z: 4, metadata: "chest" }, TemplateMarker { x: 2, y: 1, z: 5, metadata: "drowned" }, TemplateMarker { x: 4, y: 1, z: 5, metadata: "drowned" }], randomizable_containers: &[] })
    } else if name == "underwater_ruin/brick_5"@ {
        Some(TemplateContainerData { size: [6, 7, 7], chests: &[], markers: &[TemplateMarker { x: 4, y: 0, z: 4, metadata: "chest" }], randomizable_containers: &[] })
    } else if name == "underwater_ruin/brick_6"@ {
        Some(TemplateContainerData { size: [6, 7, 7], chests: &[], markers: &[TemplateMarker { x: 2, y: 0, z: 2, metadata: "chest" }, TemplateMarker { x: 2, y: 1, z: 3, metadata: "drowned" }, TemplateMarker { x: 1, y: 6, z: 4, metadata: "drowned" }, TemplateMarker { x: 3, y: 6, z: 1, metadata: "drowned" }, TemplateMarker { x: 3, y: 6, z: 4, metadata: "drowned" }], randomizable_containers: &[] })
    } else if name == "underwater_ruin/brick_7"@ {
        Some(TemplateContainerData { size: [6, 7, 7], chests: &[], markers: &[TemplateMarker { x: 1, y: 0, z: 3, metadata: "chest" }], randomizable_containers: &[] })
    } else {
        None
    }
}

/// Templates of part 5 of the table.
pub open spec fn templates_part_5(name: Seq<char>) -> Option<TemplateContainerData> {
    if name == "underwater_ruin/brick_8"@ {
        Some(TemplateContainerData { size: [6, 7, 7], chests: &[], markers: &[TemplateMarker { x: 2, y: 1, z: 4, metadata: "drowned" }, TemplateMarker { x: 3, y: 1, z: 4, metadata: "chest" }], randomizable_containers: &[] })
    } else if name == "underwater_ruin/cracked_1"@ {
        Some(TemplateContainerData { size: [6, 7, 7], chests: &[], markers: &[TemplateMarker { x: 3, y: 1, z: 5, metadata: "chest" }], randomizable_containers: &[] })
    } else if name == "underwater_ruin/cracked_2"@ {
        Some(TemplateContainerData { size: [6, 7, 7], chests: &[], markers: &[TemplateMarker { x: 2, y: 0, z: 1, metadata: "chest" }], randomizable_containers: &[] })
    } else if name == "underwater_ruin/cracked_3"@ {
        Some(TemplateContainerData { size: [6, 7, 7], chests: &[], markers: &[TemplateMarker { x: 1, y: 0, z: 5, metadata: "chest" }], randomizable_containers: &[] })
    } else if name == "underwater_ruin/cracked_4"@ {
        Some(TemplateContainerData { size: [6, 7, 7], chests: &[], markers: &[TemplateMarker { x: 1, y: 1, z: 4, metadata: "chest" }], randomizable_containers: &[] })
    } else if name == "underwater_ruin/cracked_5"@ {
        Some(TemplateContainerData { size: [6, 7, 7], chests: &[], markers: &[TemplateMarker { x: 4, y: 0, z: 4, metadata: "chest" }], randomizable_containers: &[] })
    } else if name == "underwater_ruin/cracked_6"@ {
        Some(TemplateContainerData { size: [6, 7, 7], chests: &[], markers: &[TemplateMarker { x: 2, y: 0, z: 2, metadata: "chest" }], randomizable_containers: &[] })
    } else if name == "underwater_ruin/cracked_7"@ {
        Some(TemplateContainerData { size: [6, 7, 7], chests: &[], markers: &[TemplateMarker { x: 1, y: 0, z: 3, metadata: "chest" }, TemplateMarker { x: 2, y: 1, z: 3, metadata: "drowned" }], randomizable_containers: &[] })
    } else if name == "underwater_ruin/cracked_8"@ {
        Some(TemplateContainerData { size: [6, 7, 7], chests: &[], markers: &[TemplateMarker { x: 3, y: 1, z: 4, metadata: "chest" }], randomizable_containers: &[] })
    } else if name == "underwater_ruin/mossy_1"@ {
        Some(TemplateContainerData { size: [6, 7, 7], chests: &[], markers: &[TemplateMarker { x: 1, y: 1, z: 2, metadata: "drowned" }], randomizable_containers: &[] })
    } else if name == "underwater_ruin/mossy_2"@ {
        Some(TemplateContainerData { size: [6, 7, 7], chests: &[], markers: &[TemplateMarker { x: 2, y: 0, z: 1, metadata: "chest" }], randomizable_containers: &[] })
    } else if name == "underwater_ruin/mossy_3"@ {
        Some(TemplateContainerData { size: [6, 7, 7], chests: &[], markers: &[TemplateMarker { x: 1, y: 0, z: 5, metadata: "chest" }], randomizable_containers: &[] })
    } else if name == "underwater_ruin/mossy_4"@ {
        Some(TemplateContainerData { size: [6, 7, 7], chests: &[], markers: &[TemplateMarker { x: 1, y: 1, z: 4, metadata: "chest" }], randomizable_containers: &[] })
    } else if name == "underwater_ruin/mossy_5"@ {
        Some(TemplateContainerData { size: [6, 7, 7], chests: &[], markers: &[TemplateMarker { x: 4, y: 0, z: 4, metadata: "chest" }, TemplateMarker { x: 3, y: 1, z: 3, metadata: "drowned" }], randomizable_containers: &[] })
    } else if name == "underwater_ruin/mossy_6"@ {
        Some(TemplateContainerData { size: [6, 7, 7], chests: &[], markers: &[TemplateMarker { x: 2, y: 0, z: 2, metadata: "chest" }, TemplateMarker { x: 2, y: 6, z: 2, metadata: "drowned" }], randomizable_containers: &[] })
    } else if name == "underwater_ruin/mossy_7"@ {
        Some(TemplateContainerData { size: [6, 7, 7], chests: &[], markers: &[TemplateMarker { x: 1, y: 0, z: 3, metadata: "chest" }, TemplateMarker { x: 2, y: 1, z: 2, metadata: "drowned" }], randomizable_containers: &[] })
    } else if name == "underwater_ruin/mossy_8"@ {
        Some(TemplateContainerData { size: [6, 7, 7], chests: &[], markers: &[TemplateMarker { x: 3, y: 1, z: 4, metadata: "chest" }, TemplateMarker { x: 4, y: 1, z: 4, metadata: "drowned" }], randomizable_containers: &[] })
    } else if name == "underwater_ruin/warm_1"@ {
        Some(TemplateContainerData { size: [6, 7, 7], chests: &[], markers: &[TemplateMarker { x: 3, y: 1, z: 1, metadata: "chest" }], randomizable_containers: &[] })
    } else if name == "underwater_ruin/warm_2"@ {
        Some(TemplateContainerData { size: [6, 7, 7], chests: &[], markers: &[TemplateMarker { x: 3, y: 1, z: 4, metadata: "chest" }, TemplateMarker { x: 2, y: 2, z: 2, metadata: "drowned" }, TemplateMarker { x: 3, y: 2, z: 2, metadata: "drowned" }], randomizable_containers: &[] })
    } else if name == "underwater_ruin/warm_3"@ {
        Some(TemplateContainerData { size: [6, 7, 7], chests: &[], markers: &[TemplateMarker { x: 3, y: 0, z: 4, metadata: "chest" }, TemplateMarker { x: 3, y: 1, z: 2, metadata: "drowned" }], randomizable_containers: &[] })
    } else if name == "underwater_ruin/warm_4"@ {
        Some(TemplateContainerData { size: [6, 7, 7], chests: &[], markers: &[TemplateMarker { x: 1, y: 0, z: 2, metadata: "chest" }, TemplateMarker { x: 2, y: 1, z: 2, metadata: "drowned" }], randomizable_containers: &[] })
    } else if name == "underwater_ruin/warm_5"@ {
        Some(TemplateContainerData { size: [6, 7, 7], chests: &[], markers: &[TemplateMarker { x: 3, y: 0, z: 4, metadata: "chest" }, TemplateMarker { x: 2, y: 1, z: 2, metadata: "drowned" }], randomizable_containers: &[] })
    } else if name == "underwater_ruin/warm_6"@ {
        Some(TemplateContainerData { size: [6, 7, 7], chests: &[], markers: &[TemplateMarker { x: 4, y: 1, z: 4, metadata: "chest" }], randomizable_containers: &[] })
    } else if name == "underwater_ruin/warm_7"@ {
        Some(TemplateContainerData { size: [6, 7, 7], chests: &[], markers: &[TemplateMarker { x: 3, y: 0, z: 3, metadata: "chest" }], randomizable_containers: &[] })
    } else if name == "underwater_ruin/warm_8"@ {
        Some(TemplateContainerData { size: [6, 7, 7], chests: &[], markers: &[TemplateMarker { x: 3, y: 0, z: 3, metadata: "chest" }, TemplateMarker { x: 1, y: 2, z: 3, metadata: "drowned" }], randomizable_containers: &[] })
    } else if name == "village/desert/houses/desert_fisher_1"@ {
        Some(TemplateContainerData { size: [8, 6, 11], chests: &[], markers: &[], randomizable_containers: &[TemplateBlockPos { x: 2, y: 1, z: 5 }, TemplateBlockPos { x: 5, y: 1, z: 8 }, TemplateBlockPos { x: 6, y: 1, z: 4 }, TemplateBlockPos { x: 6, y: 1, z: 8 }, TemplateBlockPos { x: 2, y: 2, z: 5 }, TemplateBlockPos { x: 6, y: 2, z: 8 }] })
    } else if name == "village/desert/houses/desert_medium_house_1"@ {
        Some(TemplateContainerData { size: [6, 6, 7], chests: &[TemplateChest { x: 2, y: 1, z: 1, loot_table: "minecraft:chests/village/village_desert_house" }], markers: &[], randomizable_containers: &[TemplateBlockPos { x: 2, y: 1, z: 1 }] })
    } else if name == "village/desert/houses/desert_medium_house_2"@ {
        Some(TemplateContainerData { size: [11, 9, 7], chests: &[TemplateChest { x: 8, y: 3, z: 3, loot_table: "minecraft:chests/village/village_desert_house" }], markers: &[], randomizable_containers: &[TemplateBlockPos { x: 8, y: 3, z: 3 }] })
    } else if name == "village/desert/houses/desert_small_house_4"@ {
        Some(TemplateContainerData { size: [5, 5, 5], chests: &[TemplateChest { x: 3, y: 1, z: 1, loot_table: "minecraft:chests/village/village_desert_house" }], markers: &[], randomizable_containers: &[TemplateBlockPos { x: 3, y: 1, z: 1 }] })
    } else if name == "village/desert/houses/desert_small_house_6"@ {
        Some(TemplateContainerData { size: [6, 18, 5], chests: &[TemplateChest { x: 3, y: 13, z: 2, loot_table: "minecraft:chests/village/village_desert_house" }], markers: &[], randomizable_containers: &[TemplateBlockPos { x: 3, y: 13, z: 2 }] })
    } else {
        None
    }
}

/// Templates of part 6 of the table.
pub open spec fn templates_part_6(name: Seq<char>) -> Option<TemplateContainerData> {
    if name == "village/desert/houses/desert_temple_1"@ {
        Some(TemplateContainerData { size: [11, 7, 10], chests: &[TemplateChest { x: 1, y: 1, z: 8, loot_table: "minecraft:chests/village/village_temple" }], markers: &[], randomizable_containers: &[TemplateBlockPos { x: 1, y: 1, z: 8 }] })
    } else if name == "village/desert/houses/desert_tool_smith_1"@ {
        Some(TemplateContainerData { size: [9, 9, 9], chests: &[TemplateChest { x: 7, y: 5, z: 1, loot_table: "minecraft:chests/village/village_toolsmith" }], markers: &[], randomizable_containers: &[TemplateBlockPos { x: 7, y: 5, z: 1 }] })
    } else if name == "village/desert/houses/desert_weaponsmith_1"@ {
        Some(TemplateContainerData { size: [10, 6, 7], chests: &[TemplateChest { x: 1, y: 1, z: 2, loot_table: "minecraft:chests/village/village_weaponsmith" }], markers: &[], randomizable_containers: &[TemplateBlockPos { x: 1, y: 1, z: 2 }] })
    } else if name == "village/desert/zombie/houses/desert_medium_house_1"@ {
        Some(TemplateContainerData { size: [6, 6, 7], chests: &[TemplateChest { x: 2, y: 1, z: 1, loot_table: "minecraft:chests/village/village_desert_house" }], markers: &[], randomizable_containers: &[TemplateBlockPos { x: 2, y: 1, z: 1 }] })
    } else if name == "village/desert/zombie/houses/desert_medium_house_2"@ {
        Some(TemplateContainerData { size: [11, 9, 7], chests: &[TemplateChest { x: 8, y: 3, z: 3, loot_table: "minecraft:chests/village/village_desert_house" }], markers: &[], randomizable_containers: &[TemplateBlockPos { x: 8, y: 3, z: 3 }] })
    } else if name == "village/desert/zombie/houses/desert_small_house_4"@ {
        Some(TemplateContainerData { size: [5, 5, 5], chests: &[TemplateChest { x: 3, y: 1, z: 1, loot_table: "minecraft:chests/village/village_desert_house" }], markers: &[], randomizable_containers: &[TemplateBlockPos { x: 3, y: 1, z: 1 }] })
    } else if name == "village/desert/zombie/houses/desert_small_house_6"@ {
        Some(TemplateContainerData { size: [5, 17, 5], chests: &[TemplateChest { x: 2, y: 13, z: 2, loot_table: "minecraft:chests/village/village_desert_house" }], markers: &[], randomizable_containers: &[TemplateBlockPos { x: 2, y: 13, z: 2 }] })
    } else if name == "village/plains/houses/plains_big_house_1"@ {
        Some(TemplateContainerData { size: [7, 11, 11], chests: &[TemplateChest { x: 4, y: 5, z: 8, loot_table: "minecraft:chests/village/village_plains_house" }], markers: &[], randomizable_containers: &[TemplateBlockPos { x: 4, y: 5, z: 8 }] })
    } else if name == "village/plains/houses/plains_cartographer_1"@ {
        Some(TemplateContainerData { size: [10, 8, 7], chests: &[TemplateChest { x: 3, y: 1, z: 4, loot_table: "minecraft:chests/village/village_cartographer" }], markers: &[], randomizable_containers: &[TemplateBlockPos { x: 3, y: 1, z: 4 }] })
    } else if name == "village/plains/houses/plains_fisher_cottage_1"@ {
        Some(TemplateContainerData { size: [11, 9, 10], chests: &[TemplateChest { x: 4, y: 3, z: 6, loot_table: "minecraft:chests/village/village_fisher" }], markers: &[], randomizable_containers: &[TemplateBlockPos { x: 2, y: 2, z: 2 }, TemplateBlockPos { x: 9, y: 2, z: 7 }, TemplateBlockPos { x: 4, y: 3, z: 6 }] })
    } else if name == "village/plains/houses/plains_medium_house_2"@ {
        Some(TemplateContainerData { size: [7, 6, 13], chests: &[TemplateChest { x: 2, y: 1, z: 10, loot_table: "minecraft:chests/village/village_plains_house" }], markers: &[], randomizable_containers: &[TemplateBlockPos { x: 2, y: 1, z: 10 }] })
    } else if name == "village/plains/houses/plains_small_house_7"@ {
        Some(TemplateContainerData { size: [7, 7, 8], chests: &[TemplateChest { x: 4, y: 1, z: 5, loot_table: "minecraft:chests/village/village_plains_house" }], markers: &[], randomizable_containers: &[TemplateBlockPos { x: 4, y: 1, z: 5 }] })
    } else if name == "village/plains/houses/plains_tannery_1"@ {
        Some(TemplateContainerData { size: [8, 7, 10], chests: &[TemplateChest { x: 5, y: 1, z: 7, loot_table: "minecraft:chests/village/village_tannery" }], markers: &[], randomizable_containers: &[TemplateBlockPos { x: 5, y: 1, z: 7 }] })
    } else if name == "village/plains/houses/plains_weaponsmith_1"@ {
        Some(TemplateContainerData { size: [9, 8, 11], chests: &[TemplateChest { x: 6, y: 1, z: 4, loot_table: "minecraft:chests/village/village_weaponsmith" }], markers: &[], randomizable_containers: &[TemplateBlockPos { x: 6, y: 1, z: 4 }] })
    } else if name == "village/plains/zombie/houses/plains_big_house_1"@ {
        Some(TemplateContainerData { size: [7, 11, 11], chests: &[TemplateChest { x: 4, y: 5, z: 8, loot_table: "minecraft:chests/village/village_plains_house" }], markers: &[], randomizable_containers: &[TemplateBlockPos { x: 4, y: 5, z: 8 }] })
    } else if name == "village/plains/zombie/houses/plains_medium_house_2"@ {
        Some(TemplateContainerData { size: [7, 6, 13], chests: &[TemplateChest { x: 2, y: 1, z: 10, loot_table: "minecraft:chests/village/village_plains_house" }], markers: &[], randomizable_containers: &[TemplateBlockPos { x: 2, y: 1, z: 10 }] })
    } else if name == "village/plains/zombie/houses/plains_small_house_7"@ {
        Some(TemplateContainerData { size: [7, 7, 8], chests: &[TemplateChest { x: 4, y: 1, z: 5, loot_table: "minecraft:chests/village/village_plains_house" }], markers: &[], randomizable_containers: &[TemplateBlockPos { x: 4, y: 1, z: 5 }] })
    } else if name == "village/savanna/houses/savanna_butchers_shop_2"@ {
        Some(TemplateContainerData { size: [13, 10, 9], chests: &[TemplateChest { x: 6, y: 4, z: 5, loot_table: "minecraft:chests/village/village_butcher" }], markers: &[], randomizable_containers: &[TemplateBlockPos { x: 6, y: 4, z: 5 }] })
    } else if name == "village/savanna/houses/savanna_cartographer_1"@ {
        Some(TemplateContainerData { size: [8, 8, 9], chests: &[TemplateChest { x: 4, y: 3, z: 6, loot_table: "minecraft:chests/village/village_cartographer" }], markers: &[], randomizable_containers: &[TemplateBlockPos { x: 4, y: 3, z: 6 }] })
    } else if name == "village/savanna/houses/savanna_fisher_cottage_1"@ {
        Some(TemplateContainerData { size: [8, 11, 9], chests: &[], markers: &[], randomizable_containers: &[TemplateBlockPos { x: 2, y: 2, z: 4 }, TemplateBlockPos { x: 6, y: 2, z: 2 }, TemplateBlockPos { x: 2, y: 3, z: 4 }] })
    } else if name == "village/savanna/houses/savanna_mason_1"@ {
        Some(TemplateContainerData { size: [8, 7, 10], chests: &[TemplateChest { x: 5, y: 1, z: 5, loot_table: "minecraft:chests/village/village_mason" }], markers: &[], randomizable_containers: &[TemplateBlockPos { x: 5, y: 1, z: 5 }] })
    } else if name == "village/savanna/houses/savanna_medium_house_1"@ {
        Some(TemplateContainerData { size: [8, 7, 15], chests: &[TemplateChest { x: 2, y: 1, z: 2, loot_table: "minecraft:chests/village/village_savanna_house" }], markers: &[], randomizable_containers: &[TemplateBlockPos { x: 2, y: 1, z: 2 }] })
    } else if name == "village/savanna/houses/savanna_medium_house_2"@ {
        Some(TemplateContainerData { size: [10, 8, 11], chests: &[TemplateChest { x: 7, y: 1, z: 6, loot_table: "minecraft:chests/village/village_savanna_house" }], markers: &[], randomizable_containers: &[TemplateBlockPos { x: 7, y: 1, z: 6 }] })
    } else if name == "village/savanna/houses/savanna_small_house_2"@ {
        Some(TemplateContainerData { size: [7, 7, 7], chests: &[TemplateChest { x: 2, y: 1, z: 2, loot_table: "minecraft:chests/village/village_savanna_house" }], markers: &[], randomizable_containers: &[TemplateBlockPos { x: 2, y: 1, z: 2 }] })
    } else if name == "village/savanna/houses/savanna_small_house_4"@ {
        Some(TemplateContainerData { size: [10, 8, 7], chests: &[TemplateChest { x: 7, y: 1, z: 4, loot_table: "minecraft:chests/village/village_savanna_house" }], markers: &[], randomizable_containers: &[TemplateBlockPos { x: 7, y: 1, z: 4 }] })
    } else if name == "village/savanna/houses/savanna_small_house_7"@ {
        Some(TemplateContainerData { size: [7, 7, 7], chests: &[TemplateChest { x: 2, y: 1, z: 4, loot_table: "minecraft:chests/village/village_savanna_house" }], markers: &[], randomizable_containers: &[TemplateBlockPos { x: 2, y: 1, z: 4 }] })
    } else if name == "village/savanna/houses/savanna_tannery_1"@ {
        Some(TemplateContainerData { size: [8, 6, 9], chests: &[TemplateChest { x: 2, y: 1, z: 6, loot_table: "minecraft:chests/village/village_tannery" }], markers: &[], randomizable_containers: &[TemplateBlockPos { x: 2, y: 1, z: 6 }] })
    } else if name == "village/savanna/houses/savanna_weaponsmith_2"@ {
        Some(TemplateContainerData { size: [9, 7, 13], chests: &[TemplateChest { x: 2, y: 2, z: 9, loot_table: "minecraft:chests/village/village_weaponsmith" }], markers: &[], randomizable_containers: &[TemplateBlockPos { x: 2, y: 2, z: 9 }] })
    } else if name == "village/savanna/zombie/houses/savanna_medium_house_1"@ {
        Some(TemplateContainerData { size: [8, 7, 15], chests: &[TemplateChest { x: 2, y: 1, z: 2, loot_table: "minecraft:chests/village/village_savanna_house" }], markers: &[], randomizable_containers: &[TemplateBlockPos { x: 2, y: 1, z: 2 }] })
    } else if name == "village/savanna/zombie/houses/savanna_medium_house_2"@ {
        Some(TemplateContainerData { size: [10, 8, 11], chests: &[TemplateChest { x: 7, y: 1, z: 6, loot_table: "minecraft:chests/village/village_savanna_house" }], markers: &[], randomizable_containers: &[TemplateBlockPos { x: 7, y: 1, z: 6 }] })
    } else {
        None
    }
}

/// Templates of part 7 of the table.
pub open spec fn templates_part_7(name: Seq<char>) -> Option<TemplateContainerData> {
    if name == "village/savanna/zombie/houses/savanna_small_house_2"@ {
        Some(TemplateContainerData { size: [7, 7, 7], chests: &[TemplateChest { x: 2, y: 1, z: 2, loot_table: "minecraft:chests/village/village_savanna_house" }], markers: &[], randomizable_containers: &[TemplateBlockPos { x: 2, y: 1, z: 2 }] })
    } else if name == "village/savanna/zombie/houses/savanna_small_house_4"@ {
        Some(TemplateContainerData { size: [10, 8, 7], chests: &[TemplateChest { x: 7, y: 1, z: 4, loot_table: "minecraft:chests/village/village_savanna_house" }], markers: &[], randomizable_containers: &[TemplateBlockPos { x: 7, y: 1, z: 4 }] })
    } else if name == "village/savanna/zombie/houses/savanna_small_house_7"@ {
        Some(TemplateContainerData { size: [7, 7, 7], chests: &[TemplateChest { x: 2, y: 1, z: 4, loot_table: "minecraft:chests/village/village_savanna_house" }], markers: &[], randomizable_containers: &[TemplateBlockPos { x: 2, y: 1, z: 4 }] })
    } else if name == "village/snowy/houses/snowy_armorer_house_1"@ {
        Some(TemplateContainerData { size: [8, 8, 7], chests: &[TemplateChest { x: 2, y: 1, z: 5, loot_table: "minecraft:chests/village/village_armorer" }], markers: &[], randomizable_containers: &[TemplateBlockPos { x: 2, y: 1, z: 5 }] })
    } else if name == "village/snowy/houses/snowy_cartographer_house_1"@ {
        Some(TemplateContainerData { size: [7, 7, 11], chests: &[TemplateChest { x: 2, y: 1, z: 3, loot_table: "minecraft:chests/village/village_cartographer" }], markers: &[], randomizable_containers: &[TemplateBlockPos { x: 2, y: 1, z: 3 }] })
    } else if name == "village/snowy/houses/snowy_fisher_cottage"@ {
        Some(TemplateContainerData { size: [9, 8, 7], chests: &[], markers: &[], randomizable_containers: &[TemplateBlockPos { x: 5, y: 2, z: 2 }, TemplateBlockPos { x: 6, y: 2, z: 2 }, TemplateBlockPos { x: 6, y: 3, z: 2 }] })
    } else if name == "village/snowy/houses/snowy_shepherds_house_1"@ {
        Some(TemplateContainerData { size: [9, 5, 10], chests: &[TemplateChest { x: 6, y: 1, z: 7, loot_table: "minecraft:chests/village/village_shepherd" }], markers: &[], randomizable_containers: &[TemplateBlockPos { x: 6, y: 1, z: 7 }] })
    } else if name == "village/snowy/houses/snowy_small_house_5"@ {
        Some(TemplateContainerData { size: [7, 5, 5], chests: &[TemplateChest { x: 4, y: 1, z: 3, loot_table: "minecraft:chests/village/village_snowy_house" }], markers: &[], randomizable_containers: &[TemplateBlockPos { x: 4, y: 1, z: 3 }] })
    } else if name == "village/snowy/houses/snowy_small_house_6"@ {
        Some(TemplateContainerData { size: [7, 9, 7], chests: &[TemplateChest { x: 4, y: 1, z: 2, loot_table: "minecraft:chests/village/village_snowy_house" }], markers: &[], randomizable_containers: &[TemplateBlockPos { x: 4, y: 1, z: 2 }] })
    } else if name == "village/snowy/houses/snowy_tannery_1"@ {
        Some(TemplateContainerData { size: [8, 9, 9], chests: &[TemplateChest { x: 5, y: 1, z: 6, loot_table: "minecraft:chests/village/village_tannery" }], markers: &[], randomizable_containers: &[TemplateBlockPos { x: 5, y: 1, z: 6 }] })
    } else if name == "village/snowy/houses/snowy_weapon_smith_1"@ {
        Some(TemplateContainerData { size: [9, 7, 10], chests: &[TemplateChest { x: 2, y: 1, z: 2, loot_table: "minecraft:chests/village/village_weaponsmith" }], markers: &[], randomizable_containers: &[TemplateBlockPos { x: 2, y: 1, z: 2 }] })
    } else if name == "village/snowy/zombie/houses/snowy_small_house_5"@ {
        Some(TemplateContainerData { size: [7, 5, 5], chests: &[TemplateChest { x: 4, y: 1, z: 3, loot_table: "minecraft:chests/village/village_snowy_house" }], markers: &[], randomizable_containers: &[TemplateBlockPos { x: 4, y: 1, z: 3 }] })
    } else if name == "village/snowy/zombie/houses/snowy_small_house_6"@ {
        Some(TemplateContainerData { size: [7, 9, 7], chests: &[TemplateChest { x: 4, y: 1, z: 2, loot_table: "minecraft:chests/village/village_snowy_house" }], markers: &[], randomizable_containers: &[TemplateBlockPos { x: 4, y: 1, z: 2 }] })
    } else if name == "village/taiga/houses/taiga_cartographer_house_1"@ {
        Some(TemplateContainerData { size: [7, 10, 8], chests: &[TemplateChest { x: 2, y: 4, z: 3, loot_table: "minecraft:chests/village/village_cartographer" }], markers: &[], randomizable_containers: &[TemplateBlockPos { x: 2, y: 4, z: 3 }] })
    } else if name == "village/taiga/houses/taiga_fisher_cottage_1"@ {
        Some(TemplateContainerData { size: [10, 8, 12], chests: &[], markers: &[], randomizable_containers: &[TemplateBlockPos { x: 8, y: 2, z: 1 }, TemplateBlockPos { x: 9, y: 2, z: 4 }] })
    } else if name == "village/taiga/houses/taiga_fletcher_house_1"@ {
        Some(TemplateContainerData { size: [10, 6, 11], chests: &[TemplateChest { x: 5, y: 1, z: 4, loot_table: "minecraft:chests/village/village_fletcher" }], markers: &[], randomizable_containers: &[TemplateBlockPos { x: 5, y: 1, z: 4 }] })
    } else if name == "village/taiga/houses/taiga_medium_house_1"@ {
        Some(TemplateContainerData { size: [8, 11, 7], chests: &[TemplateChest { x: 2, y: 0, z: 2, loot_table: "minecraft:chests/village/village_taiga_house" }], markers: &[], randomizable_containers: &[TemplateBlockPos { x: 2, y: 0, z: 2 }] })
    } else if name == "village/taiga/houses/taiga_medium_house_2"@ {
        Some(TemplateContainerData { size: [7, 11, 8], chests: &[TemplateChest { x: 4, y: 5, z: 4, loot_table: "minecraft:chests/village/village_taiga_house" }], markers: &[], randomizable_containers: &[TemplateBlockPos { x: 4, y: 5, z: 4 }] })
    } else if name == "village/taiga/houses/taiga_medium_house_3"@ {
        Some(TemplateContainerData { size: [8, 7, 13], chests: &[TemplateChest { x: 3, y: 1, z: 2, loot_table: "minecraft:chests/village/village_taiga_house" }], markers: &[], randomizable_containers: &[TemplateBlockPos { x: 3, y: 1, z: 2 }] })
    } else if name == "village/taiga/houses/taiga_small_house_3"@ {
        Some(TemplateContainerData { size: [7, 7, 7], chests: &[TemplateChest { x: 2, y: 1, z: 2, loot_table: "minecraft:chests/village/village_taiga_house" }], markers: &[], randomizable_containers: &[TemplateBlockPos { x: 2, y: 1, z: 2 }] })
    } else if name == "village/taiga/houses/taiga_small_house_5"@ {
        Some(TemplateContainerData { size: [9, 7, 7], chests: &[TemplateChest { x: 3, y: 1, z: 2, loot_table: "minecraft:chests/village/village_taiga_house" }], markers: &[], randomizable_containers: &[TemplateBlockPos { x: 3, y: 1, z: 2 }] })
    } else if name == "village/taiga/houses/taiga_tannery_1"@ {
        Some(TemplateContainerData { size: [9, 6, 9], chests: &[TemplateChest { x: 6, y: 1, z: 2, loot_table: "minecraft:chests/village/village_tannery" }], markers: &[], randomizable_containers: &[TemplateBlockPos { x: 6, y: 1, z: 2 }] })
    } else if name == "village/taiga/houses/taiga_tool_smith_1"@ {
        Some(TemplateContainerData { size: [11, 6, 8], chests: &[TemplateChest { x: 6, y: 1, z: 3, loot_table: "minecraft:chests/village/village_toolsmith" }], markers: &[], randomizable_containers: &[TemplateBlockPos { x: 6, y: 1, z: 3 }] })
    } else if name == "village/taiga/houses/taiga_weaponsmith_1"@ {
        Some(TemplateContainerData { size: [7, 9, 7], chests: &[TemplateChest { x: 2, y: 1, z: 3, loot_table: "minecraft:chests/village/village_weaponsmith" }], markers: &[], randomizable_containers: &[TemplateBlockPos { x: 2, y: 1, z: 3 }] })
    } else if name == "village/taiga/zombie/houses/taiga_cartographer_house_1"@ {
        Some(TemplateContainerData { size: [7, 10, 8], chests: &[TemplateChest { x: 2, y: 4, z: 3, loot_table: "minecraft:chests/village/village_cartographer" }], markers: &[], randomizable_containers: &[TemplateBlockPos { x: 2, y: 4, z: 3 }] })
    } else if name == "village/taiga/zombie/houses/taiga_fisher_cottage_1"@ {
        Some(TemplateContainerData { size: [10, 8, 12], chests: &[], markers: &[], randomizable_containers: &[TemplateBlockPos { x: 8, y: 2, z: 1 }, TemplateBlockPos { x: 9, y: 2, z: 4 }] })
    } else if name == "village/taiga/zombie/houses/taiga_medium_house_1"@ {
        Some(TemplateContainerData { size: [8, 11, 7], chests: &[TemplateChest { x: 2, y: 0, z: 2, loot_table: "minecraft:chests/village/village_taiga_house" }], markers: &[], randomizable_containers: &[TemplateBlockPos { x: 2, y: 0, z: 2 }] })
    } else if name == "village/taiga/zombie/houses/taiga_medium_house_2"@ {
        Some(TemplateContainerData { size: [7, 11, 8], chests: &[TemplateChest { x: 4, y: 5, z: 4, loot_table: "minecraft:chests/village/village_taiga_house" }], markers: &[], randomizable_containers: &[TemplateBlockPos { x: 4, y: 5, z: 4 }] })
    } else if name == "village/taiga/zombie/houses/taiga_medium_house_3"@ {
        Some(TemplateContainerData { size: [8, 7, 13], chests: &[TemplateChest { x: 3, y: 1, z: 2, loot_table: "minecraft:chests/village/village_taiga_house" }], markers: &[], randomizable_containers: &[TemplateBlockPos { x: 3, y: 1, z: 2 }] })
    } else if name == "village/taiga/zombie/houses/taiga_small_house_3"@ {
        Some(TemplateContainerData { size: [7, 7, 7], chests: &[TemplateChest { x: 2, y: 1, z: 2, loot_table: "minecraft:chests/village/village_taiga_house" }], markers: &[], randomizable_containers: &[TemplateBlockPos { x: 2, y: 1, z: 2 }] })
    } else {
        None
    }
}

/// Templates of part 8 of the table.
pub open spec fn templates_part_8(name: Seq<char>) -> Option<TemplateContainerData> {
    if name == "village/taiga/zombie/houses/taiga_small_house_5"@ {
        Some(TemplateContainerData { size: [9, 7, 7], chests: &[TemplateChest { x: 3, y: 1, z: 2, loot_table: "minecraft:chests/village/village_taiga_house" }], markers: &[], randomizable_containers: &[TemplateBlockPos { x: 3, y: 1, z: 2 }] })
    } else if name == "village/taiga/zombie/houses/taiga_tool_smith_1"@ {
        Some(TemplateContainerData { size: [11, 6, 8], chests: &[TemplateChest { x: 6, y: 1, z: 3, loot_table: "minecraft:chests/village/village_toolsmith" }], markers: &[], randomizable_containers: &[TemplateBlockPos { x: 6, y: 1, z: 3 }] })
    } else if name == "woodland_mansion/1x1_a4"@ {
        Some(TemplateContainerData { size: [7, 8, 7], chests: &[], markers: &[TemplateMarker { x: 6, y: 6, z: 3, metadata: "ChestWest" }], randomizable_containers: &[] })
    } else if name == "woodland_mansion/1x1_as1"@ {
        Some(TemplateContainerData { size: [7, 8, 7], chests: &[], markers: &[TemplateMarker { x: 5, y: 1, z: 1, metadata: "ChestWest" }], randomizable_containers: &[] })
    } else if name == "woodland_mansion/1x1_b5"@ {
        Some(TemplateContainerData { size: [7, 11, 7], chests: &[], markers: &[], randomizable_containers: &[TemplateBlockPos { x: 6, y: 1, z: 6 }] })
    } else if name == "woodland_mansion/1x2_a1"@ {
        Some(TemplateContainerData { size: [7, 8, 15], chests: &[], markers: &[TemplateMarker { x: 3, y: 1, z: 3, metadata: "Warrior" }, TemplateMarker { x: 3, y: 1, z: 12, metadata: "ChestSouth" }], randomizable_containers: &[] })
    } else if name == "woodland_mansion/1x2_a3"@ {
        Some(TemplateContainerData { size: [7, 8, 15], chests: &[], markers: &[TemplateMarker { x: 3, y: 2, z: 8, metadata: "Warrior" }], randomizable_containers: &[] })
    } else if name == "woodland_mansion/1x2_a4"@ {
        Some(TemplateContainerData { size: [7, 8, 15], chests: &[], markers: &[], randomizable_containers: &[TemplateBlockPos { x: 6, y: 1, z: 5 }] })
    } else if name == "woodland_mansion/1x2_a6"@ {
        Some(TemplateContainerData { size: [7, 8, 15], chests: &[], markers: &[], randomizable_containers: &[TemplateBlockPos { x: 2, y: 1, z: 8 }] })
    } else if name == "woodland_mansion/1x2_a7"@ {
        Some(TemplateContainerData { size: [7, 8, 15], chests: &[], markers: &[], randomizable_containers: &[TemplateBlockPos { x: 3, y: 1, z: 0 }] })
    } else if name == "woodland_mansion/1x2_a8"@ {
        Some(TemplateContainerData { size: [7, 8, 15], chests: &[], markers: &[TemplateMarker { x: 2, y: 1, z: 2, metadata: "Warrior" }], randomizable_containers: &[] })
    } else if name == "woodland_mansion/1x2_a9"@ {
        Some(TemplateContainerData { size: [7, 8, 15], chests: &[], markers: &[TemplateMarker { x: 5, y: 1, z: 1, metadata: "Warrior" }], randomizable_containers: &[TemplateBlockPos { x: 0, y: 2, z: 3 }, TemplateBlockPos { x: 0, y: 2, z: 5 }, TemplateBlockPos { x: 0, y: 2, z: 7 }, TemplateBlockPos { x: 0, y: 2, z: 9 }, TemplateBlockPos { x: 0, y: 2, z: 11 }, TemplateBlockPos { x: 3, y: 2, z: 3 }, TemplateBlockPos { x: 3, y: 2, z: 5 }, TemplateBlockPos { x: 3, y: 2, z: 7 }, TemplateBlockPos { x: 3, y: 2, z: 9 }, TemplateBlockPos { x: 3, y: 2, z: 11 }, TemplateBlockPos { x: 5, y: 2, z: 6 }, TemplateBlockPos { x: 5, y: 2, z: 8 }, TemplateBlockPos { x: 5, y: 2, z: 10 }, TemplateBlockPos { x: 5, y: 2, z: 11 }, TemplateBlockPos { x: 0, y: 4, z: 3 }, TemplateBlockPos { x: 0, y: 4, z: 5 }, TemplateBlockPos { x: 0, y: 4, z: 7 }, TemplateBlockPos { x: 0, y: 4, z: 9 }, TemplateBlockPos { x: 0, y: 4, z: 11 }, TemplateBlockPos { x: 3, y: 4, z: 3 }, TemplateBlockPos { x: 3, y: 4, z: 5 }, TemplateBlockPos { x: 3, y: 4, z: 7 }, TemplateBlockPos { x: 3, y: 4, z: 9 }, TemplateBlockPos { x: 3, y: 4, z: 11 }, TemplateBlockPos { x: 5, y: 4, z: 6 }, TemplateBlockPos { x: 5, y: 4, z: 7 }, TemplateBlockPos { x: 5, y: 4, z: 9 }, TemplateBlockPos { x: 5, y: 4, z: 11 }, TemplateBlockPos { x: 0, y: 6, z: 3 }, TemplateBlockPos { x: 0, y: 6, z: 5 }, TemplateBlockPos { x: 0, y: 6, z: 7 }, TemplateBlockPos { x: 0, y: 6, z: 9 }, TemplateBlockPos { x: 0, y: 6, z: 11 }, TemplateBlockPos { x: 3, y: 6, z: 3 }, TemplateBlockPos { x: 3, y: 6, z: 5 }, TemplateBlockPos { x: 3, y: 6, z: 7 }, TemplateBlockPos { x: 3, y: 6, z: 9 }, TemplateBlockPos { x: 3, y: 6, z: 11 }, TemplateBlockPos { x: 5, y: 6, z: 6 }, TemplateBlockPos { x: 5, y: 6, z: 8 }, TemplateBlockPos { x: 5, y: 6, z: 10 }, TemplateBlockPos { x: 5, y: 6, z: 11 }] })
    } else if name == "woodland_mansion/1x2_b1"@ {
        Some(TemplateContainerData { size: [7, 8, 15], chests: &[], markers: &[TemplateMarker { x: 3, y: 1, z: 13, metadata: "Warrior" }], randomizable_containers: &[] })
    } else if name == "woodland_mansion/1x2_b2"@ {
        Some(TemplateContainerData { size: [7, 8, 15], chests: &[], markers: &[TemplateMarker { x: 5, y: 1, z: 11, metadata: "Warrior" }], randomizable_containers: &[] })
    } else if name == "woodland_mansion/1x2_b3"@ {
        Some(TemplateContainerData { size: [7, 8, 15], chests: &[], markers: &[TemplateMarker { x: 3, y: 1, z: 0, metadata: "ChestSouth" }, TemplateMarker { x: 3, y: 1, z: 4, metadata: "Warrior" }], randomizable_containers: &[] })
    } else if name == "woodland_mansion/1x2_b4"@ {
        Some(TemplateContainerData { size: [7, 8, 15], chests: &[], markers: &[TemplateMarker { x: 4, y: 3, z: 9, metadata: "ChestNorth" }], randomizable_containers: &[] })
    } else if name == "woodland_mansion/1x2_c3"@ {
        Some(TemplateContainerData { size: [7, 11, 15], chests: &[], markers: &[TemplateMarker { x: 4, y: 1, z: 6, metadata: "Warrior" }, TemplateMarker { x: 4, y: 1, z: 9, metadata: "Warrior" }, TemplateMarker { x: 4, y: 1, z: 12, metadata: "Warrior" }], randomizable_containers: &[] })
    } else if name == "woodland_mansion/1x2_d2"@ {
        Some(TemplateContainerData { size: [7, 11, 15], chests: &[], markers: &[TemplateMarker { x: 6, y: 7, z: 12, metadata: "ChestWest" }], randomizable_containers: &[] })
    } else if name == "woodland_mansion/1x2_d3"@ {
        Some(TemplateContainerData { size: [7, 11, 15], chests: &[], markers: &[TemplateMarker { x: 2, y: 2, z: 10, metadata: "Warrior" }, TemplateMarker { x: 4, y: 2, z: 10, metadata: "Warrior" }, TemplateMarker { x: 3, y: 3, z: 3, metadata: "Mage" }], randomizable_containers: &[] })
    } else if name == "woodland_mansion/1x2_s1"@ {
        Some(TemplateContainerData { size: [7, 8, 15], chests: &[], markers: &[TemplateMarker { x: 3, y: 1, z: 4, metadata: "ChestSouth" }], randomizable_containers: &[] })
    } else if name == "woodland_mansion/1x2_s2"@ {
        Some(TemplateContainerData { size: [7, 8, 15], chests: &[], markers: &[], randomizable_containers: &[TemplateBlockPos { x: 3, y: 4, z: 5 }] })
    } else if name == "woodland_mansion/1x2_se1"@ {
        Some(TemplateContainerData { size: [7, 11, 15], chests: &[], markers: &[TemplateMarker { x: 3, y: 9, z: 1, metadata: "ChestSouth" }, TemplateMarker { x: 3, y: 9, z: 13, metadata: "ChestNorth" }], randomizable_containers: &[] })
    } else if name == "woodland_mansion/2x2_a1"@ {
        Some(TemplateContainerData { size: [15, 8, 15], chests: &[], markers: &[TemplateMarker { x: 12, y: 1, z: 3, metadata: "Warrior" }, TemplateMarker { x: 2, y: 2, z: 8, metadata: "Group of Allays" }, TemplateMarker { x: 4, y: 2, z: 2, metadata: "Group of Allays" }, TemplateMarker { x: 5, y: 2, z: 12, metadata: "Group of Allays" }, TemplateMarker { x: 12, y: 2, z: 12, metadata: "Group of Allays" }], randomizable_containers: &[] })
    } else if name == "woodland_mansion/2x2_a2"@ {
        Some(TemplateContainerData { size: [15, 8, 15], chests: &[], markers: &[TemplateMarker { x: 9, y: 1, z: 2, metadata: "Warrior" }], randomizable_containers: &[TemplateBlockPos { x: 0, y: 2, z: 1 }, TemplateBlockPos { x: 0, y: 2, z: 2 }, TemplateBlockPos { x: 0, y: 2, z: 4 }, TemplateBlockPos { x: 0, y: 2, z: 5 }, TemplateBlockPos { x: 0, y: 2, z: 7 }, TemplateBlockPos { x: 0, y: 2, z: 8 }, TemplateBlockPos { x: 0, y: 2, z: 10 }, TemplateBlockPos { x: 0, y: 2, z: 11 }, TemplateBlockPos { x: 6, y: 2, z: 4 }, TemplateBlockPos { x: 6, y: 2, z: 5 }, TemplateBlockPos { x: 6, y: 2, z: 7 }, TemplateBlockPos { x: 6, y: 2, z: 8 }, TemplateBlockPos { x: 6, y: 2, z: 10 }, TemplateBlockPos { x: 6, y: 2, z: 11 }, TemplateBlockPos { x: 8, y: 2, z: 6 }, TemplateBlockPos { x: 8, y: 2, z: 7 }, TemplateBlockPos { x: 8, y: 2, z: 9 }, TemplateBlockPos { x: 8, y: 2, z: 10 }, TemplateBlockPos { x: 8, y: 2, z: 12 }, TemplateBlockPos { x: 8, y: 2, z: 13 }, TemplateBlockPos { x: 14, y: 2, z: 6 }, TemplateBlockPos { x: 14, y: 2, z: 7 }, TemplateBlockPos { x: 14, y: 2, z: 9 }, TemplateBlockPos { x: 14, y: 2, z: 10 }, TemplateBlockPos { x: 14, y: 2, z: 12 }, TemplateBlockPos { x: 14, y: 2, z: 13 }] })
    } else if name == "woodland_mansion/2x2_b1"@ {
        Some(TemplateContainerData { size: [15, 11, 15], chests: &[], markers: &[TemplateMarker { x: 2, y: 1, z: 8, metadata: "Mage" }, TemplateMarker { x: 4, y: 1, z: 4, metadata: "Warrior" }, TemplateMarker { x: 8, y: 1, z: 9, metadata: "Warrior" }], randomizable_containers: &[] })
    } else if name == "woodland_mansion/2x2_b2"@ {
        Some(TemplateContainerData { size: [15, 11, 15], chests: &[], markers: &[TemplateMarker { x: 2, y: 1, z: 7, metadata: "Mage" }, TemplateMarker { x: 9, y: 1, z: 8, metadata: "Warrior" }, TemplateMarker { x: 13, y: 1, z: 2, metadata: "Warrior" }], randomizable_containers: &[] })
    } else if name == "woodland_mansion/2x2_b4"@ {
        Some(TemplateContainerData { size: [15, 11, 15], chests: &[], markers: &[TemplateMarker { x: 3, y: 1, z: 3, metadata: "Warrior" }, TemplateMarker { x: 3, y: 1, z: 8, metadata: "Mage" }, TemplateMarker { x: 4, y: 1, z: 11, metadata: "Warrior" }], randomizable_containers: &[] })
    } else if name == "woodland_mansion/2x2_b5"@ {
        Some(TemplateContainerData { size: [15, 11, 15], chests: &[], markers: &[TemplateMarker { x: 7, y: 7, z: 0, metadata: "ChestSouth" }], randomizable_containers: &[] })
    } else {
        None
    }
}

/// The container data of the template `name` (a path without namespace), if
/// the table holds it.
pub open spec fn template_data_spec(name: Seq<char>) -> Option<TemplateContainerData> {
    match templates_part_1(name) { Some(d) => Some(d), None => match templates_part_2(name) { Some(d) => Some(d), None => match templates_part_3(name) { Some(d) => Some(d), None => match templates_part_4(name) { Some(d) => Some(d), None => match templates_part_5(name) { Some(d) => Some(d), None => match templates_part_6(name) { Some(d) => Some(d), None => match templates_part_7(name) { Some(d) => Some(d), None => templates_part_8(name) } } } } } } }
}

/// The table's data agrees with its templates: every chest, data marker and
/// randomizable container that a template lists lies inside its size, and
/// every chest is one of its randomizable containers. A template name finds
/// the same data with the `minecraft:` namespace in front as without it.
pub proof fn law_template_data_well_formed(name: Seq<char>)
    requires
        !has_prefix(name, "minecraft:"@),
    ensures
        template_data_spec(name) matches Some(d) ==> template_well_formed(d),
        template_data_spec(without_prefix("minecraft:"@ + name, "minecraft:"@)) == template_data_spec(
            without_prefix(name, "minecraft:"@),
        ),
        without_prefix(name, "minecraft:"@) == name,
{
    lemma_part_1_well_formed(name);
    lemma_part_2_well_formed(name);
    lemma_part_3_well_formed(name);
    lemma_part_4_well_formed(name);
    lemma_part_5_well_formed(name);
    lemma_part_6_well_formed(name);
    lemma_part_7_well_formed(name);
    lemma_part_8_well_formed(name);
    crate::catalog::law_namespace_is_optional(name);
}

/// Looks a template up in part 1 of the table.
fn lookup_part_1(name: &str) -> (data: Option<TemplateContainerData>)
    ensures
        data == templates_part_1(name@),
{
    if str_eq(name, "ancient_city/city_center/city_center_2") {
        return Some(TemplateContainerData { size: [18, 31, 41], chests: &[], markers: &[], randomizable_containers: &[TemplateBlockPos { x: 9, y: 8, z: 20 }] });
    }
    if str_eq(name, "ancient_city/structures/barracks") {
        return Some(TemplateContainerData { size: [21, 12, 17], chests: &[TemplateChest { x: 4, y: 4, z: 15, loot_table: "minecraft:chests/ancient_city" }, TemplateChest { x: 12, y: 4, z: 15, loot_table: "minecraft:chests/ancient_city" }], markers: &[], randomizable_containers: &[TemplateBlockPos { x: 4, y: 4, z: 15 }, TemplateBlockPos { x: 12, y: 4, z: 15 }] });
    }
    if str_eq(name, "ancient_city/structures/chamber_1") {
        return Some(TemplateContainerData { size: [19, 10, 15], chests: &[TemplateChest { x: 14, y: 3, z: 11, loot_table: "minecraft:chests/ancient_city" }], markers: &[], randomizable_containers: &[TemplateBlockPos { x: 14, y: 3, z: 11 }] });
    }
    if str_eq(name, "ancient_city/structures/chamber_2") {
        return Some(TemplateContainerData { size: [12, 6, 11], chests: &[TemplateChest { x: 10, y: 2, z: 5, loot_table: "minecraft:chests/ancient_city" }], markers: &[], randomizable_containers: &[TemplateBlockPos { x: 10, y: 2, z: 5 }] });
    }
    if str_eq(name, "ancient_city/structures/chamber_3") {
        return Some(TemplateContainerData { size: [10, 6, 11], chests: &[TemplateChest { x: 7, y: 1, z: 5, loot_table: "minecraft:chests/ancient_city" }], markers: &[], randomizable_containers: &[TemplateBlockPos { x: 7, y: 1, z: 5 }] });
    }
    if str_eq(name, "ancient_city/structures/ice_box_1") {
        return Some(TemplateContainerData { size: [19, 10, 15], chests: &[TemplateChest { x: 12, y: 1, z: 7, loot_table: "minecraft:chests/ancient_city_ice_box" }], markers: &[], randomizable_containers: &[TemplateBlockPos { x: 12, y: 1, z: 7 }] });
    }
    if str_eq(name, "ancient_city/structures/sauna_1") {
        return Some(TemplateContainerData { size: [29, 10, 37], chests: &[TemplateChest { x: 12, y: 1, z: 19, loot_table: "minecraft:chests/ancient_city" }, TemplateChest { x: 21, y: 1, z: 18, loot_table: "minecraft:chests/ancient_city" }, TemplateChest { x: 25, y: 1, z: 10, loot_table: "minecraft:chests/ancient_city" }], markers: &[], randomizable_containers: &[TemplateBlockPos { x: 12, y: 1, z: 19 }, TemplateBlockPos { x: 21, y: 1, z: 18 }, TemplateBlockPos { x: 25, y: 1, z: 10 }] });
    }
    if str_eq(name, "ancient_city/structures/tall_ruin_1") {
        return Some(TemplateContainerData { size: [17, 23, 17], chests: &[TemplateChest { x: 8, y: 16, z: 8, loot_table: "minecraft:chests/ancient_city" }], markers: &[], randomizable_containers: &[TemplateBlockPos { x: 8, y: 16, z: 8 }] });
    }
    if str_eq(name, "ancient_city/structures/tall_ruin_2") {
        return Some(TemplateContainerData { size: [17, 23, 17], chests: &[TemplateChest { x: 7, y: 1, z: 5, loot_table: "minecraft:chests/ancient_city" }, TemplateChest { x: 13, y: 7, z: 9, loot_table: "minecraft:chests/ancient_city" }], markers: &[], randomizable_containers: &[TemplateBlockPos { x: 7, y: 1, z: 5 }, TemplateBlockPos { x: 13, y: 7, z: 9 }] });
    }
    if str_eq(name, "ancient_city/structures/tall_ruin_3") {
        return Some(TemplateContainerData { size: [17, 23, 17], chests: &[TemplateChest { x: 10, y: 14, z: 7, loot_table: "minecraft:chests/ancient_city" }], markers: &[], randomizable_containers: &[TemplateBlockPos { x: 10, y: 14, z: 7 }] });
    }
    if str_eq(name, "ancient_city/structures/tall_ruin_4") {
        return Some(TemplateContainerData { size: [17, 23, 17], chests: &[TemplateChest { x: 8, y: 7, z: 13, loot_table: "minecraft:chests/ancient_city" }], markers: &[], randomizable_containers: &[TemplateBlockPos { x: 8, y: 7, z: 13 }] });
    }
    if str_eq(name, "bastion/bridge/ramparts/rampart_0") {
        return Some(TemplateContainerData { size: [16, 22, 16], chests: &[TemplateChest { x: 3, y: 13, z: 7, loot_table: "minecraft:chests/bastion_other" }], markers: &[], randomizable_containers: &[TemplateBlockPos { x: 3, y: 13, z: 7 }] });
    }
    if str_eq(name, "bastion/bridge/ramparts/rampart_1") {
        return Some(TemplateContainerData { size: [16, 32, 16], chests: &[TemplateChest { x: 7, y: 17, z: 7, loot_table: "minecraft:chests/bastion_other" }, TemplateChest { x: 7, y: 17, z: 8, loot_table: "minecraft:chests/bastion_other" }, TemplateChest { x: 7, y: 17, z: 12, loot_table: "minecraft:chests/bastion_other" }], markers: &[], randomizable_containers: &[TemplateBlockPos { x: 7, y: 17, z: 7 }, TemplateBlockPos { x: 7, y: 17, z: 8 }, TemplateBlockPos { x: 7, y: 17, z: 12 }] });
    }
    if str_eq(name, "bastion/bridge/starting_pieces/entrance") {
        return Some(TemplateContainerData { size: [17, 32, 32], chests: &[TemplateChest { x: 9, y: 16, z: 4, loot_table: "minecraft:chests/bastion_bridge" }], markers: &[], randomizable_containers: &[TemplateBlockPos { x: 9, y: 16, z: 4 }] });
    }
    if str_eq(name, "bastion/hoglin_stable/large_stables/inner_3") {
        return Some(TemplateContainerData { size: [14, 6, 8], chests: &[TemplateChest { x: 1, y: 1, z: 5, loot_table: "minecraft:chests/bastion_hoglin_stable" }], markers: &[], randomizable_containers: &[TemplateBlockPos { x: 1, y: 1, z: 5 }] });
    }
    if str_eq(name, "bastion/hoglin_stable/ramparts/ramparts_1") {
        return Some(TemplateContainerData { size: [16, 32, 16], chests: &[TemplateChest { x: 7, y: 17, z: 7, loot_table: "minecraft:chests/bastion_other" }, TemplateChest { x: 7, y: 17, z: 8, loot_table: "minecraft:chests/bastion_other" }, TemplateChest { x: 7, y: 17, z: 11, loot_table: "minecraft:chests/bastion_other" }], markers: &[], randomizable_containers: &[TemplateBlockPos { x: 7, y: 17, z: 7 }, TemplateBlockPos { x: 7, y: 17, z: 8 }, TemplateBlockPos { x: 7, y: 17, z: 11 }] });
    }
    if str_eq(name, "bastion/hoglin_stable/ramparts/ramparts_2") {
        return Some(TemplateContainerData { size: [16, 21, 16], chests: &[TemplateChest { x: 12, y: 3, z: 13, loot_table: "minecraft:chests/bastion_other" }, TemplateChest { x: 3, y: 13, z: 9, loot_table: "minecraft:chests/bastion_other" }], markers: &[], randomizable_containers: &[TemplateBlockPos { x: 12, y: 3, z: 13 }, TemplateBlockPos { x: 3, y: 13, z: 9 }] });
    }
    if str_eq(name, "bastion/hoglin_stable/ramparts/ramparts_3") {
        return Some(TemplateContainerData { size: [16, 12, 16], chests: &[TemplateChest { x: 6, y: 3, z: 4, loot_table: "minecraft:chests/bastion_other" }], markers: &[], randomizable_containers: &[TemplateBlockPos { x: 6, y: 3, z: 4 }] });
    }
    if str_eq(name, "bastion/hoglin_stable/small_stables/inner_2") {
        return Some(TemplateContainerData { size: [12, 6, 8], chests: &[TemplateChest { x: 3, y: 1, z: 6, loot_table: "minecraft:chests/bastion_hoglin_stable" }], markers: &[], randomizable_containers: &[TemplateBlockPos { x: 3, y: 1, z: 6 }] });
    }
    if str_eq(name, "bastion/hoglin_stable/walls/side_wall_0") {
        return Some(TemplateContainerData { size: [16, 24, 16], chests: &[TemplateChest { x: 9, y: 7, z: 9, loot_table: "minecraft:chests/bastion_other" }], markers: &[], randomizable_containers: &[TemplateBlockPos { x: 9, y: 7, z: 9 }] });
    }
    if str_eq(name, "bastion/hoglin_stable/walls/wall_base") {
        return Some(TemplateContainerData { size: [16, 24, 16], chests: &[TemplateChest { x: 12, y: 4, z: 13, loot_table: "minecraft:chests/bastion_other" }], markers: &[], randomizable_containers: &[TemplateBlockPos { x: 12, y: 4, z: 13 }] });
    }
    if str_eq(name, "bastion/treasure/bases/centers/center_0") {
        return Some(TemplateContainerData { size: [7, 6, 8], chests: &[TemplateChest { x: 4, y: 3, z: 6, loot_table: "minecraft:chests/bastion_treasure" }], markers: &[], randomizable_containers: &[TemplateBlockPos { x: 4, y: 3, z: 6 }] });
    }
    if str_eq(name, "bastion/treasure/bases/centers/center_1") {
        return Some(TemplateContainerData { size: [7, 6, 8], chests: &[TemplateChest { x: 2, y: 3, z: 6, loot_table: "minecraft:chests/bastion_treasure" }, TemplateChest { x: 4, y: 3, z: 6, loot_table: "minecraft:chests/bastion_treasure" }], markers: &[], randomizable_containers: &[TemplateBlockPos { x: 2, y: 3, z: 6 }, TemplateBlockPos { x: 4, y: 3, z: 6 }] });
    }
    if str_eq(name, "bastion/treasure/bases/centers/center_2") {
        return Some(TemplateContainerData { size: [7, 6, 8], chests: &[TemplateChest { x: 1, y: 2, z: 4, loot_table: "minecraft:chests/bastion_treasure" }], markers: &[], randomizable_containers: &[TemplateBlockPos { x: 1, y: 2, z: 4 }] });
    }
    if str_eq(name, "bastion/treasure/bases/centers/center_3") {
        return Some(TemplateContainerData { size: [7, 6, 8], chests: &[TemplateChest { x: 3, y: 3, z: 5, loot_table: "minecraft:chests/bastion_treasure" }], markers: &[], randomizable_containers: &[TemplateBlockPos { x: 3, y: 3, z: 5 }] });
    }
    if str_eq(name, "bastion/treasure/ramparts/mid_wall_main") {
        return Some(TemplateContainerData { size: [17, 32, 14], chests: &[TemplateChest { x: 11, y: 29, z: 6, loot_table: "minecraft:chests/bastion_other" }, TemplateChest { x: 13, y: 29, z: 8, loot_table: "minecraft:chests/bastion_other" }], markers: &[], randomizable_containers: &[TemplateBlockPos { x: 11, y: 29, z: 6 }, TemplateBlockPos { x: 13, y: 29, z: 8 }] });
    }
    if str_eq(name, "bastion/treasure/ramparts/mid_wall_side") {
        return Some(TemplateContainerData { size: [17, 31, 14], chests: &[TemplateChest { x: 11, y: 29, z: 6, loot_table: "minecraft:chests/bastion_other" }, TemplateChest { x: 11, y: 29, z: 7, loot_table: "minecraft:chests/bastion_other" }], markers: &[], randomizable_containers: &[TemplateBlockPos { x: 11, y: 29, z: 6 }, TemplateBlockPos { x: 11, y: 29, z: 7 }] });
    }
    if str_eq(name, "bastion/treasure/walls/bottom/wall_0") {
        return Some(TemplateContainerData { size: [5, 16, 24], chests: &[TemplateChest { x: 3, y: 6, z: 2, loot_table: "minecraft:chests/bastion_other" }], markers: &[], randomizable_containers: &[TemplateBlockPos { x: 3, y: 6, z: 2 }] });
    }
    if str_eq(name, "bastion/treasure/walls/mid/wall_0") {
        return Some(TemplateContainerData { size: [5, 15, 24], chests: &[TemplateChest { x: 3, y: 11, z: 22, loot_table: "minecraft:chests/bastion_other" }], markers: &[], randomizable_containers: &[TemplateBlockPos { x: 3, y: 11, z: 22 }] });
    }
    if str_eq(name, "bastion/units/center_pieces/center_0") {
        return Some(TemplateContainerData { size: [11, 7, 11], chests: &[TemplateChest { x: 8, y: 1, z: 3, loot_table: "minecraft:chests/bastion_other" }], markers: &[], randomizable_containers: &[TemplateBlockPos { x: 8, y: 1, z: 3 }] });
    }
    None
}

/// Looks a template up in part 2 of the table.
fn lookup_part_2(name: &str) -> (data: Option<TemplateContainerData>)
    ensures
        data == templates_part_2(name@),
{
    if str_eq(name, "bastion/units/center_pieces/center_1") {
        return Some(TemplateContainerData { size: [11, 8, 11], chests: &[TemplateChest { x: 6, y: 1, z: 9, loot_table: "minecraft:chests/bastion_other" }], markers: &[], randomizable_containers: &[TemplateBlockPos { x: 6, y: 1, z: 9 }] });
    }
    if str_eq(name, "bastion/units/center_pieces/center_2") {
        return Some(TemplateContainerData { size: [11, 8, 11], chests: &[TemplateChest { x: 1, y: 1, z: 7, loot_table: "minecraft:chests/bastion_other" }], markers: &[], randomizable_containers: &[TemplateBlockPos { x: 1, y: 1, z: 7 }] });
    }
    if str_eq(name, "bastion/units/ramparts/ramparts_0") {
        return Some(TemplateContainerData { size: [16, 32, 16], chests: &[TemplateChest { x: 7, y: 17, z: 7, loot_table: "minecraft:chests/bastion_other" }, TemplateChest { x: 7, y: 17, z: 8, loot_table: "minecraft:chests/bastion_other" }, TemplateChest { x: 7, y: 17, z: 12, loot_table: "minecraft:chests/bastion_other" }], markers: &[], randomizable_containers: &[TemplateBlockPos { x: 7, y: 17, z: 7 }, TemplateBlockPos { x: 7, y: 17, z: 8 }, TemplateBlockPos { x: 7, y: 17, z: 12 }] });
    }
    if str_eq(name, "bastion/units/ramparts/ramparts_1") {
        return Some(TemplateContainerData { size: [16, 22, 16], chests: &[TemplateChest { x: 3, y: 13, z: 6, loot_table: "minecraft:chests/bastion_other" }], markers: &[], randomizable_containers: &[TemplateBlockPos { x: 3, y: 13, z: 6 }] });
    }
    if str_eq(name, "bastion/units/stages/stage_0_2") {
        return Some(TemplateContainerData { size: [12, 7, 8], chests: &[TemplateChest { x: 1, y: 4, z: 6, loot_table: "minecraft:chests/bastion_other" }], markers: &[], randomizable_containers: &[TemplateBlockPos { x: 1, y: 4, z: 6 }] });
    }
    if str_eq(name, "bastion/units/stages/stage_1_2") {
        return Some(TemplateContainerData { size: [12, 7, 8], chests: &[TemplateChest { x: 7, y: 1, z: 6, loot_table: "minecraft:chests/bastion_other" }], markers: &[], randomizable_containers: &[TemplateBlockPos { x: 7, y: 1, z: 6 }] });
    }
    if str_eq(name, "bastion/units/walls/wall_base") {
        return Some(TemplateContainerData { size: [16, 24, 16], chests: &[TemplateChest { x: 2, y: 4, z: 5, loot_table: "minecraft:chests/bastion_other" }, TemplateChest { x: 3, y: 4, z: 5, loot_table: "minecraft:chests/bastion_other" }], markers: &[], randomizable_containers: &[TemplateBlockPos { x: 2, y: 4, z: 5 }, TemplateBlockPos { x: 3, y: 4, z: 5 }] });
    }
    if str_eq(name, "end_city/base_floor") {
        return Some(TemplateContainerData { size: [10, 4, 10], chests: &[], markers: &[TemplateMarker { x: 3, y: 2, z: 9, metadata: "Sentry" }, TemplateMarker { x: 6, y: 2, z: 9, metadata: "Sentry" }], randomizable_containers: &[] });
    }
    if str_eq(name, "end_city/fat_tower_middle") {
        return Some(TemplateContainerData { size: [13, 8, 13], chests: &[], markers: &[TemplateMarker { x: 2, y: 2, z: 6, metadata: "Sentry" }, TemplateMarker { x: 10, y: 2, z: 6, metadata: "Sentry" }, TemplateMarker { x: 6, y: 6, z: 2, metadata: "Sentry" }, TemplateMarker { x: 6, y: 6, z: 10, metadata: "Sentry" }], randomizable_containers: &[] });
    }
    if str_eq(name, "end_city/fat_tower_top") {
        return Some(TemplateContainerData { size: [17, 6, 17], chests: &[], markers: &[TemplateMarker { x: 3, y: 2, z: 11, metadata: "Chest" }, TemplateMarker { x: 5, y: 2, z: 13, metadata: "Chest" }], randomizable_containers: &[TemplateBlockPos { x: 3, y: 1, z: 11 }, TemplateBlockPos { x: 5, y: 1, z: 13 }] });
    }
    if str_eq(name, "end_city/second_floor_2") {
        return Some(TemplateContainerData { size: [12, 8, 12], chests: &[], markers: &[TemplateMarker { x: 8, y: 5, z: 6, metadata: "Sentry" }], randomizable_containers: &[] });
    }
    if str_eq(name, "end_city/ship") {
        return Some(TemplateContainerData { size: [13, 24, 29], chests: &[], markers: &[TemplateMarker { x: 6, y: 4, z: 8, metadata: "Sentry" }, TemplateMarker { x: 5, y: 5, z: 7, metadata: "Chest" }, TemplateMarker { x: 6, y: 5, z: 7, metadata: "Elytra" }, TemplateMarker { x: 7, y: 5, z: 7, metadata: "Chest" }, TemplateMarker { x: 8, y: 6, z: 27, metadata: "Sentry" }, TemplateMarker { x: 4, y: 11, z: 27, metadata: "Sentry" }], randomizable_containers: &[TemplateBlockPos { x: 5, y: 4, z: 7 }, TemplateBlockPos { x: 7, y: 4, z: 7 }] });
    }
    if str_eq(name, "end_city/third_floor_2") {
        return Some(TemplateContainerData { size: [14, 8, 14], chests: &[], markers: &[TemplateMarker { x: 2, y: 5, z: 2, metadata: "Sentry" }, TemplateMarker { x: 11, y: 5, z: 2, metadata: "Sentry" }, TemplateMarker { x: 6, y: 6, z: 2, metadata: "Chest" }], randomizable_containers: &[TemplateBlockPos { x: 6, y: 5, z: 2 }] });
    }
    if str_eq(name, "end_city/tower_top") {
        return Some(TemplateContainerData { size: [9, 5, 9], chests: &[], markers: &[TemplateMarker { x: 4, y: 3, z: 4, metadata: "Sentry" }], randomizable_containers: &[] });
    }
    if str_eq(name, "igloo/bottom") {
        return Some(TemplateContainerData { size: [7, 6, 9], chests: &[], markers: &[TemplateMarker { x: 1, y: 2, z: 6, metadata: "chest" }], randomizable_containers: &[TemplateBlockPos { x: 1, y: 1, z: 6 }] });
    }
    if str_eq(name, "pillager_outpost/watchtower") {
        return Some(TemplateContainerData { size: [15, 21, 15], chests: &[TemplateChest { x: 9, y: 14, z: 10, loot_table: "minecraft:chests/pillager_outpost" }], markers: &[], randomizable_containers: &[TemplateBlockPos { x: 9, y: 14, z: 10 }] });
    }
    if str_eq(name, "pillager_outpost/watchtower_overgrown") {
        return Some(TemplateContainerData { size: [15, 23, 15], chests: &[TemplateChest { x: 9, y: 14, z: 10, loot_table: "minecraft:chests/pillager_outpost" }], markers: &[], randomizable_containers: &[TemplateBlockPos { x: 9, y: 14, z: 10 }] });
    }
    if str_eq(name, "ruined_portal/giant_portal_1") {
        return Some(TemplateContainerData { size: [11, 17, 16], chests: &[TemplateChest { x: 4, y: 3, z: 3, loot_table: "minecraft:chests/ruined_portal" }], markers: &[], randomizable_containers: &[TemplateBlockPos { x: 4, y: 3, z: 3 }] });
    }
    if str_eq(name, "ruined_portal/giant_portal_2") {
        return Some(TemplateContainerData { size: [11, 16, 16], chests: &[TemplateChest { x: 9, y: 1, z: 9, loot_table: "minecraft:chests/ruined_portal" }], markers: &[], randomizable_containers: &[TemplateBlockPos { x: 9, y: 1, z: 9 }] });
    }
    if str_eq(name, "ruined_portal/giant_portal_3") {
        return Some(TemplateContainerData { size: [16, 16, 16], chests: &[TemplateChest { x: 9, y: 2, z: 3, loot_table: "minecraft:chests/ruined_portal" }], markers: &[], randomizable_containers: &[TemplateBlockPos { x: 9, y: 2, z: 3 }] });
    }
    if str_eq(name, "ruined_portal/portal_1") {
        return Some(TemplateContainerData { size: [6, 10, 6], chests: &[TemplateChest { x: 2, y: 2, z: 0, loot_table: "minecraft:chests/ruined_portal" }], markers: &[], randomizable_containers: &[TemplateBlockPos { x: 2, y: 2, z: 0 }] });
    }
    if str_eq(name, "ruined_portal/portal_10") {
        return Some(TemplateContainerData { size: [12, 8, 10], chests: &[TemplateChest { x: 2, y: 1, z: 7, loot_table: "minecraft:chests/ruined_portal" }], markers: &[], randomizable_containers: &[TemplateBlockPos { x: 2, y: 1, z: 7 }] });
    }
    if str_eq(name, "ruined_portal/portal_2") {
        return Some(TemplateContainerData { size: [9, 12, 9], chests: &[TemplateChest { x: 8, y: 2, z: 6, loot_table: "minecraft:chests/ruined_portal" }], markers: &[], randomizable_containers: &[TemplateBlockPos { x: 8, y: 2, z: 6 }] });
    }
    if str_eq(name, "ruined_portal/portal_3") {
        return Some(TemplateContainerData { size: [8, 9, 9], chests: &[TemplateChest { x: 3, y: 3, z: 6, loot_table: "minecraft:chests/ruined_portal" }], markers: &[], randomizable_containers: &[TemplateBlockPos { x: 3, y: 3, z: 6 }] });
    }
    if str_eq(name, "ruined_portal/portal_4") {
        return Some(TemplateContainerData { size: [8, 9, 9], chests: &[TemplateChest { x: 3, y: 3, z: 2, loot_table: "minecraft:chests/ruined_portal" }], markers: &[], randomizable_containers: &[TemplateBlockPos { x: 3, y: 3, z: 2 }] });
    }
    if str_eq(name, "ruined_portal/portal_5") {
        return Some(TemplateContainerData { size: [10, 10, 7], chests: &[TemplateChest { x: 4, y: 3, z: 2, loot_table: "minecraft:chests/ruined_portal" }], markers: &[], randomizable_containers: &[TemplateBlockPos { x: 4, y: 3, z: 2 }] });
    }
    if str_eq(name, "ruined_portal/portal_6") {
        return Some(TemplateContainerData { size: [5, 7, 7], chests: &[TemplateChest { x: 1, y: 1, z: 4, loot_table: "minecraft:chests/ruined_portal" }], markers: &[], randomizable_containers: &[TemplateBlockPos { x: 1, y: 1, z: 4 }] });
    }
    if str_eq(name, "ruined_portal/portal_7") {
        return Some(TemplateContainerData { size: [9, 7, 9], chests: &[TemplateChest { x: 0, y: 1, z: 2, loot_table: "minecraft:chests/ruined_portal" }], markers: &[], randomizable_containers: &[TemplateBlockPos { x: 0, y: 1, z: 2 }] });
    }
    if str_eq(name, "ruined_portal/portal_8") {
        return Some(TemplateContainerData { size: [14, 9, 9], chests: &[TemplateChest { x: 4, y: 4, z: 2, loot_table: "minecraft:chests/ruined_portal" }], markers: &[], randomizable_containers: &[TemplateBlockPos { x: 4, y: 4, z: 2 }] });
    }
    if str_eq(name, "ruined_portal/portal_9") {
        return Some(TemplateContainerData { size: [10, 8, 9], chests: &[TemplateChest { x: 4, y: 1, z: 0, loot_table: "minecraft:chests/ruined_portal" }], markers: &[], randomizable_containers: &[TemplateBlockPos { x: 4, y: 1, z: 0 }] });
    }
    None
}

/// Looks a template up in part 3 of the table.
fn lookup_part_3(name: &str) -> (data: Option<TemplateContainerData>)
    ensures
        data == templates_part_3(name@),
{
    if str_eq(name, "shipwreck/rightsideup_backhalf") {
        return Some(TemplateContainerData { size: [9, 9, 16], chests: &[], markers: &[TemplateMarker { x: 5, y: 3, z: 6, metadata: "map_chest" }, TemplateMarker { x: 6, y: 5, z: 12, metadata: "treasure_chest" }], randomizable_containers: &[TemplateBlockPos { x: 5, y: 2, z: 6 }, TemplateBlockPos { x: 6, y: 4, z: 12 }] });
    }
    if str_eq(name, "shipwreck/rightsideup_backhalf_degraded") {
        return Some(TemplateContainerData { size: [9, 9, 16], chests: &[], markers: &[TemplateMarker { x: 5, y: 3, z: 6, metadata: "map_chest" }, TemplateMarker { x: 6, y: 5, z: 12, metadata: "treasure_chest" }], randomizable_containers: &[TemplateBlockPos { x: 5, y: 2, z: 6 }, TemplateBlockPos { x: 6, y: 4, z: 12 }] });
    }
    if str_eq(name, "shipwreck/rightsideup_fronthalf") {
        return Some(TemplateContainerData { size: [9, 9, 24], chests: &[], markers: &[TemplateMarker { x: 4, y: 3, z: 8, metadata: "supply_chest" }], randomizable_containers: &[TemplateBlockPos { x: 4, y: 2, z: 8 }] });
    }
    if str_eq(name, "shipwreck/rightsideup_fronthalf_degraded") {
        return Some(TemplateContainerData { size: [9, 9, 24], chests: &[], markers: &[TemplateMarker { x: 4, y: 3, z: 8, metadata: "supply_chest" }], randomizable_containers: &[TemplateBlockPos { x: 4, y: 2, z: 8 }] });
    }
    if str_eq(name, "shipwreck/rightsideup_full") {
        return Some(TemplateContainerData { size: [9, 9, 28], chests: &[], markers: &[TemplateMarker { x: 4, y: 3, z: 8, metadata: "supply_chest" }, TemplateMarker { x: 5, y: 3, z: 18, metadata: "map_chest" }, TemplateMarker { x: 6, y: 5, z: 24, metadata: "treasure_chest" }], randomizable_containers: &[TemplateBlockPos { x: 4, y: 2, z: 8 }, TemplateBlockPos { x: 5, y: 2, z: 18 }, TemplateBlockPos { x: 6, y: 4, z: 24 }] });
    }
    if str_eq(name, "shipwreck/rightsideup_full_degraded") {
        return Some(TemplateContainerData { size: [9, 9, 28], chests: &[], markers: &[TemplateMarker { x: 4, y: 3, z: 8, metadata: "supply_chest" }, TemplateMarker { x: 5, y: 3, z: 18, metadata: "map_chest" }, TemplateMarker { x: 6, y: 5, z: 24, metadata: "treasure_chest" }], randomizable_containers: &[TemplateBlockPos { x: 4, y: 2, z: 8 }, TemplateBlockPos { x: 5, y: 2, z: 18 }, TemplateBlockPos { x: 6, y: 4, z: 24 }] });
    }
    if str_eq(name, "shipwreck/sideways_backhalf") {
        return Some(TemplateContainerData { size: [9, 9, 17], chests: &[], markers: &[TemplateMarker { x: 3, y: 3, z: 13, metadata: "treasure_chest" }, TemplateMarker { x: 6, y: 4, z: 8, metadata: "map_chest" }], randomizable_containers: &[TemplateBlockPos { x: 3, y: 2, z: 13 }, TemplateBlockPos { x: 6, y: 3, z: 8 }] });
    }
    if str_eq(name, "shipwreck/sideways_backhalf_degraded") {
        return Some(TemplateContainerData { size: [9, 9, 17], chests: &[], markers: &[TemplateMarker { x: 3, y: 3, z: 13, metadata: "treasure_chest" }, TemplateMarker { x: 6, y: 4, z: 8, metadata: "map_chest" }], randomizable_containers: &[TemplateBlockPos { x: 3, y: 2, z: 13 }, TemplateBlockPos { x: 6, y: 3, z: 8 }] });
    }
    if str_eq(name, "shipwreck/sideways_fronthalf") {
        return Some(TemplateContainerData { size: [9, 9, 24], chests: &[], markers: &[TemplateMarker { x: 5, y: 4, z: 8, metadata: "supply_chest" }], randomizable_containers: &[TemplateBlockPos { x: 5, y: 3, z: 8 }] });
    }
    if str_eq(name, "shipwreck/sideways_fronthalf_degraded") {
        return Some(TemplateContainerData { size: [9, 9, 24], chests: &[], markers: &[TemplateMarker { x: 5, y: 4, z: 8, metadata: "supply_chest" }], randomizable_containers: &[TemplateBlockPos { x: 5, y: 3, z: 8 }] });
    }
    if str_eq(name, "shipwreck/sideways_full") {
        return Some(TemplateContainerData { size: [9, 9, 28], chests: &[], markers: &[TemplateMarker { x: 3, y: 3, z: 24, metadata: "treasure_chest" }, TemplateMarker { x: 5, y: 4, z: 8, metadata: "supply_chest" }, TemplateMarker { x: 6, y: 4, z: 19, metadata: "map_chest" }], randomizable_containers: &[TemplateBlockPos { x: 3, y: 2, z: 24 }, TemplateBlockPos { x: 5, y: 3, z: 8 }, TemplateBlockPos { x: 6, y: 3, z: 19 }] });
    }
    if str_eq(name, "shipwreck/sideways_full_degraded") {
        return Some(TemplateContainerData { size: [9, 9, 28], chests: &[], markers: &[TemplateMarker { x: 3, y: 3, z: 24, metadata: "treasure_chest" }, TemplateMarker { x: 5, y: 4, z: 8, metadata: "supply_chest" }, TemplateMarker { x: 6, y: 4, z: 19, metadata: "map_chest" }], randomizable_containers: &[TemplateBlockPos { x: 3, y: 2, z: 24 }, TemplateBlockPos { x: 5, y: 3, z: 8 }, TemplateBlockPos { x: 6, y: 3, z: 19 }] });
    }
    if str_eq(name, "shipwreck/upsidedown_backhalf") {
        return Some(TemplateContainerData { size: [9, 9, 16], chests: &[], markers: &[TemplateMarker { x: 2, y: 3, z: 12, metadata: "treasure_chest" }, TemplateMarker { x: 3, y: 6, z: 5, metadata: "map_chest" }], randomizable_containers: &[TemplateBlockPos { x: 2, y: 2, z: 12 }, TemplateBlockPos { x: 3, y: 5, z: 5 }] });
    }
    if str_eq(name, "shipwreck/upsidedown_backhalf_degraded") {
        return Some(TemplateContainerData { size: [9, 9, 16], chests: &[], markers: &[TemplateMarker { x: 2, y: 3, z: 12, metadata: "treasure_chest" }, TemplateMarker { x: 3, y: 6, z: 5, metadata: "map_chest" }], randomizable_containers: &[TemplateBlockPos { x: 2, y: 2, z: 12 }, TemplateBlockPos { x: 3, y: 5, z: 5 }] });
    }
    if str_eq(name, "shipwreck/upsidedown_fronthalf") {
        return Some(TemplateContainerData { size: [9, 9, 22], chests: &[], markers: &[TemplateMarker { x: 3, y: 6, z: 17, metadata: "map_chest" }, TemplateMarker { x: 4, y: 6, z: 8, metadata: "supply_chest" }], randomizable_containers: &[TemplateBlockPos { x: 3, y: 5, z: 17 }, TemplateBlockPos { x: 4, y: 5, z: 8 }] });
    }
    if str_eq(name, "shipwreck/upsidedown_fronthalf_degraded") {
        return Some(TemplateContainerData { size: [9, 9, 22], chests: &[], markers: &[TemplateMarker { x: 3, y: 6, z: 17, metadata: "map_chest" }, TemplateMarker { x: 4, y: 6, z: 8, metadata: "supply_chest" }], randomizable_containers: &[TemplateBlockPos { x: 3, y: 5, z: 17 }, TemplateBlockPos { x: 4, y: 5, z: 8 }] });
    }
    if str_eq(name, "shipwreck/upsidedown_full") {
        return Some(TemplateContainerData { size: [9, 9, 28], chests: &[], markers: &[TemplateMarker { x: 2, y: 3, z: 24, metadata: "treasure_chest" }, TemplateMarker { x: 3, y: 6, z: 17, metadata: "map_chest" }, TemplateMarker { x: 4, y: 6, z: 8, metadata: "supply_chest" }], randomizable_containers: &[TemplateBlockPos { x: 2, y: 2, z: 24 }, TemplateBlockPos { x: 3, y: 5, z: 17 }, TemplateBlockPos { x: 4, y: 5, z: 8 }] });
    }
    if str_eq(name, "shipwreck/upsidedown_full_degraded") {
        return Some(TemplateContainerData { size: [9, 9, 28], chests: &[], markers: &[TemplateMarker { x: 2, y: 3, z: 24, metadata: "treasure_chest" }, TemplateMarker { x: 3, y: 6, z: 17, metadata: "map_chest" }, TemplateMarker { x: 4, y: 6, z: 8, metadata: "supply_chest" }], randomizable_containers: &[TemplateBlockPos { x: 2, y: 2, z: 24 }, TemplateBlockPos { x: 3, y: 5, z: 17 }, TemplateBlockPos { x: 4, y: 5, z: 8 }] });
    }
    if str_eq(name, "shipwreck/with_mast") {
        return Some(TemplateContainerData { size: [9, 21, 28], chests: &[], markers: &[TemplateMarker { x: 4, y: 3, z: 9, metadata: "supply_chest" }, TemplateMarker { x: 5, y: 3, z: 18, metadata: "map_chest" }, TemplateMarker { x: 6, y: 5, z: 24, metadata: "treasure_chest" }], randomizable_containers: &[TemplateBlockPos { x: 4, y: 2, z: 9 }, TemplateBlockPos { x: 5, y: 2, z: 18 }, TemplateBlockPos { x: 6, y: 4, z: 24 }] });
    }
    if str_eq(name, "shipwreck/with_mast_degraded") {
        return Some(TemplateContainerData { size: [9, 21, 28], chests: &[], markers: &[TemplateMarker { x: 4, y: 3, z: 9, metadata: "supply_chest" }, TemplateMarker { x: 5, y: 3, z: 18, metadata: "map_chest" }, TemplateMarker { x: 6, y: 5, z: 24, metadata: "treasure_chest" }], randomizable_containers: &[TemplateBlockPos { x: 4, y: 2, z: 9 }, TemplateBlockPos { x: 5, y: 2, z: 18 }, TemplateBlockPos { x: 6, y: 4, z: 24 }] });
    }
    if str_eq(name, "trial_chambers/chamber/eruption/center_1") {
        return Some(TemplateContainerData { size: [5, 12, 5], chests: &[], markers: &[], randomizable_containers: &[TemplateBlockPos { x: 2, y: 6, z: 2 }] });
    }
    if str_eq(name, "trial_chambers/chests/supply") {
        return Some(TemplateContainerData { size: [3, 2, 3], chests: &[TemplateChest { x: 1, y: 1, z: 1, loot_table: "minecraft:chests/trial_chambers/supply" }], markers: &[], randomizable_containers: &[TemplateBlockPos { x: 1, y: 1, z: 1 }] });
    }
    if str_eq(name, "trial_chambers/corridor/addon/arrow_dispenser") {
        return Some(TemplateContainerData { size: [9, 2, 5], chests: &[], markers: &[], randomizable_containers: &[TemplateBlockPos { x: 1, y: 0, z: 2 }] });
    }
    if str_eq(name, "trial_chambers/corridor/end_2") {
        return Some(TemplateContainerData { size: [19, 20, 19], chests: &[TemplateChest { x: 9, y: 3, z: 6, loot_table: "minecraft:chests/trial_chambers/intersection" }], markers: &[], randomizable_containers: &[TemplateBlockPos { x: 9, y: 3, z: 6 }] });
    }
    if str_eq(name, "trial_chambers/corridor/entrance_1") {
        return Some(TemplateContainerData { size: [19, 20, 19], chests: &[TemplateChest { x: 6, y: 3, z: 7, loot_table: "minecraft:chests/trial_chambers/reward" }, TemplateChest { x: 4, y: 9, z: 14, loot_table: "minecraft:chests/trial_chambers/entrance" }, TemplateChest { x: 9, y: 9, z: 14, loot_table: "minecraft:chests/trial_chambers/entrance" }], markers: &[], randomizable_containers: &[TemplateBlockPos { x: 6, y: 3, z: 7 }, TemplateBlockPos { x: 4, y: 9, z: 14 }, TemplateBlockPos { x: 9, y: 9, z: 14 }] });
    }
    if str_eq(name, "trial_chambers/corridor/entrance_2") {
        return Some(TemplateContainerData { size: [19, 20, 19], chests: &[TemplateChest { x: 4, y: 9, z: 14, loot_table: "minecraft:chests/trial_chambers/entrance" }, TemplateChest { x: 9, y: 9, z: 14, loot_table: "minecraft:chests/trial_chambers/entrance" }], markers: &[], randomizable_containers: &[TemplateBlockPos { x: 4, y: 9, z: 14 }, TemplateBlockPos { x: 9, y: 9, z: 14 }] });
    }
    if str_eq(name, "trial_chambers/corridor/entrance_3") {
        return Some(TemplateContainerData { size: [19, 22, 19], chests: &[TemplateChest { x: 4, y: 2, z: 4, loot_table: "minecraft:chests/trial_chambers/entrance" }, TemplateChest { x: 4, y: 2, z: 14, loot_table: "minecraft:chests/trial_chambers/entrance" }, TemplateChest { x: 4, y: 7, z: 14, loot_table: "minecraft:chests/trial_chambers/entrance" }], markers: &[], randomizable_containers: &[TemplateBlockPos { x: 4, y: 2, z: 4 }, TemplateBlockPos { x: 4, y: 2, z: 14 }, TemplateBlockPos { x: 4, y: 7, z: 14 }] });
    }
    if str_eq(name, "trial_chambers/decor/barrel") {
        return Some(TemplateContainerData { size: [1, 2, 1], chests: &[TemplateChest { x: 0, y: 1, z: 0, loot_table: "minecraft:chests/trial_chambers/corridor" }], markers: &[], randomizable_containers: &[TemplateBlockPos { x: 0, y: 1, z: 0 }] });
    }
    if str_eq(name, "trial_chambers/decor/disposal") {
        return Some(TemplateContainerData { size: [1, 4, 3], chests: &[], markers: &[], randomizable_containers: &[TemplateBlockPos { x: 0, y: 0, z: 1 }, TemplateBlockPos { x: 0, y: 1, z: 1 }] });
    }
    if str_eq(name, "trial_chambers/dispensers/chamber") {
        return Some(TemplateContainerData { size: [2, 1, 3], chests: &[], markers: &[], randomizable_containers: &[TemplateBlockPos { x: 1, y: 0, z: 1 }] });
    }
    None
}

/// Looks a template up in part 4 of the table.
fn lookup_part_4(name: &str) -> (data: Option<TemplateContainerData>)
    ensures
        data == templates_part_4(name@),
{
    if str_eq(name, "trial_chambers/dispensers/floor_dispenser") {
        return Some(TemplateContainerData { size: [2, 2, 1], chests: &[], markers: &[], randomizable_containers: &[TemplateBlockPos { x: 1, y: 0, z: 0 }] });
    }
    if str_eq(name, "trial_chambers/dispensers/wall_dispenser") {
        return Some(TemplateContainerData { size: [2, 2, 3], chests: &[], markers: &[], randomizable_containers: &[TemplateBlockPos { x: 0, y: 0, z: 1 }] });
    }
    if str_eq(name, "trial_chambers/hallway/encounter_4") {
        return Some(TemplateContainerData { size: [14, 22, 19], chests: &[], markers: &[], randomizable_containers: &[TemplateBlockPos { x: 1, y: 15, z: 13 }, TemplateBlockPos { x: 1, y: 15, z: 14 }] });
    }
    if str_eq(name, "trial_chambers/hallway/rubble") {
        return Some(TemplateContainerData { size: [5, 7, 4], chests: &[TemplateChest { x: 2, y: 2, z: 0, loot_table: "minecraft:chests/trial_chambers/reward" }], markers: &[], randomizable_containers: &[TemplateBlockPos { x: 2, y: 2, z: 0 }] });
    }
    if str_eq(name, "trial_chambers/hallway/rubble_chamber") {
        return Some(TemplateContainerData { size: [5, 7, 4], chests: &[TemplateChest { x: 2, y: 2, z: 0, loot_table: "minecraft:chests/trial_chambers/reward" }], markers: &[], randomizable_containers: &[TemplateBlockPos { x: 2, y: 2, z: 0 }] });
    }
    if str_eq(name, "trial_chambers/intersection/intersection_2") {
        return Some(TemplateContainerData { size: [23, 20, 22], chests: &[TemplateChest { x: 13, y: 8, z: 3, loot_table: "minecraft:chests/trial_chambers/intersection_barrel" }], markers: &[], randomizable_containers: &[TemplateBlockPos { x: 13, y: 8, z: 3 }] });
    }
    if str_eq(name, "trial_chambers/intersection/intersection_3") {
        return Some(TemplateContainerData { size: [21, 37, 22], chests: &[TemplateChest { x: 13, y: 15, z: 10, loot_table: "minecraft:chests/trial_chambers/intersection_barrel" }], markers: &[], randomizable_containers: &[TemplateBlockPos { x: 13, y: 15, z: 10 }] });
    }
    if str_eq(name, "underwater_ruin/big_brick_1") {
        return Some(TemplateContainerData { size: [16, 16, 16], chests: &[], markers: &[TemplateMarker { x: 5, y: 0, z: 4, metadata: "chest" }, TemplateMarker { x: 6, y: 1, z: 4, metadata: "drowned" }, TemplateMarker { x: 8, y: 1, z: 11, metadata: "drowned" }], randomizable_containers: &[] });
    }
    if str_eq(name, "underwater_ruin/big_brick_2") {
        return Some(TemplateContainerData { size: [16, 16, 16], chests: &[], markers: &[TemplateMarker { x: 9, y: 1, z: 10, metadata: "chest" }, TemplateMarker { x: 10, y: 1, z: 8, metadata: "drowned" }], randomizable_containers: &[] });
    }
    if str_eq(name, "underwater_ruin/big_brick_3") {
        return Some(TemplateContainerData { size: [16, 16, 16], chests: &[], markers: &[TemplateMarker { x: 2, y: 1, z: 7, metadata: "drowned" }, TemplateMarker { x: 6, y: 1, z: 9, metadata: "drowned" }, TemplateMarker { x: 12, y: 2, z: 2, metadata: "chest" }], randomizable_containers: &[] });
    }
    if str_eq(name, "underwater_ruin/big_brick_8") {
        return Some(TemplateContainerData { size: [16, 16, 16], chests: &[], markers: &[TemplateMarker { x: 5, y: 0, z: 4, metadata: "chest" }, TemplateMarker { x: 3, y: 1, z: 8, metadata: "drowned" }, TemplateMarker { x: 10, y: 1, z: 9, metadata: "drowned" }], randomizable_containers: &[] });
    }
    if str_eq(name, "underwater_ruin/big_cracked_1") {
        return Some(TemplateContainerData { size: [16, 16, 16], chests: &[], markers: &[TemplateMarker { x: 5, y: 0, z: 4, metadata: "chest" }, TemplateMarker { x: 12, y: 1, z: 11, metadata: "drowned" }], randomizable_containers: &[] });
    }
    if str_eq(name, "underwater_ruin/big_cracked_2") {
        return Some(TemplateContainerData { size: [16, 16, 16], chests: &[], markers: &[TemplateMarker { x: 9, y: 1, z: 7, metadata: "drowned" }, TemplateMarker { x: 9, y: 1, z: 10, metadata: "chest" }, TemplateMarker { x: 12, y: 1, z: 9, metadata: "drowned" }], randomizable_containers: &[] });
    }
    if str_eq(name, "underwater_ruin/big_cracked_3") {
        return Some(TemplateContainerData { size: [16, 16, 16], chests: &[], markers: &[TemplateMarker { x: 9, y: 2, z: 2, metadata: "drowned" }, TemplateMarker { x: 9, y: 2, z: 7, metadata: "drowned" }, TemplateMarker { x: 12, y: 2, z: 2, metadata: "chest" }, TemplateMarker { x: 13, y: 2, z: 6, metadata: "drowned" }], randomizable_containers: &[] });
    }
    if str_eq(name, "underwater_ruin/big_cracked_8") {
        return Some(TemplateContainerData { size: [16, 16, 16], chests: &[], markers: &[TemplateMarker { x: 5, y: 0, z: 4, metadata: "chest" }, TemplateMarker { x: 2, y: 1, z: 4, metadata: "drowned" }], randomizable_containers: &[] });
    }
    if str_eq(name, "underwater_ruin/big_mossy_1") {
        return Some(TemplateContainerData { size: [16, 16, 16], chests: &[], markers: &[TemplateMarker { x: 5, y: 0, z: 4, metadata: "chest" }, TemplateMarker { x: 6, y: 1, z: 8, metadata: "drowned" }], randomizable_containers: &[] });
    }
    if str_eq(name, "underwater_ruin/big_mossy_2") {
        return Some(TemplateContainerData { size: [16, 16, 16], chests: &[], markers: &[TemplateMarker { x: 4, y: 1, z: 5, metadata: "drowned" }, TemplateMarker { x: 9, y: 1, z: 6, metadata: "drowned" }, TemplateMarker { x: 9, y: 1, z: 10, metadata: "chest" }], randomizable_containers: &[] });
    }
    if str_eq(name, "underwater_ruin/big_mossy_3") {
        return Some(TemplateContainerData { size: [16, 16, 16], chests: &[], markers: &[TemplateMarker { x: 5, y: 1, z: 9, metadata: "drowned" }, TemplateMarker { x: 12, y: 2, z: 2, metadata: "chest" }], randomizable_containers: &[] });
    }
    if str_eq(name, "underwater_ruin/big_mossy_8") {
        return Some(TemplateContainerData { size: [16, 16, 16], chests: &[], markers: &[TemplateMarker { x: 5, y: 0, z: 4, metadata: "chest" }, TemplateMarker { x: 7, y: 1, z: 8, metadata: "drowned" }, TemplateMarker { x: 11, y: 1, z: 10, metadata: "drowned" }], randomizable_containers: &[] });
    }
    if str_eq(name, "underwater_ruin/big_warm_4") {
        return Some(TemplateContainerData { size: [16, 16, 16], chests: &[], markers: &[TemplateMarker { x: 11, y: 0, z: 8, metadata: "chest" }, TemplateMarker { x: 3, y: 1, z: 5, metadata: "drowned" }, TemplateMarker { x: 4, y: 2, z: 6, metadata: "drowned" }], randomizable_containers: &[] });
    }
    if str_eq(name, "underwater_ruin/big_warm_5") {
        return Some(TemplateContainerData { size: [16, 16, 16], chests: &[], markers: &[TemplateMarker { x: 7, y: 0, z: 7, metadata: "chest" }, TemplateMarker { x: 5, y: 1, z: 5, metadata: "drowned" }, TemplateMarker { x: 7, y: 1, z: 9, metadata: "drowned" }, TemplateMarker { x: 10, y: 1, z: 12, metadata: "drowned" }, TemplateMarker { x: 11, y: 1, z: 4, metadata: "drowned" }], randomizable_containers: &[] });
    }
    if str_eq(name, "underwater_ruin/big_warm_6") {
        return Some(TemplateContainerData { size: [16, 16, 16], chests: &[], markers: &[TemplateMarker { x: 10, y: 0, z: 9, metadata: "chest" }, TemplateMarker { x: 5, y: 1, z: 4, metadata: "drowned" }, TemplateMarker { x: 9, y: 1, z: 9, metadata: "drowned" }], randomizable_containers: &[] });
    }
    if str_eq(name, "underwater_ruin/big_warm_7") {
        return Some(TemplateContainerData { size: [16, 16, 16], chests: &[], markers: &[TemplateMarker { x: 11, y: 0, z: 7, metadata: "chest" }, TemplateMarker { x: 4, y: 1, z: 5, metadata: "drowned" }, TemplateMarker { x: 10, y: 1, z: 8, metadata: "drowned" }], randomizable_containers: &[] });
    }
    if str_eq(name, "underwater_ruin/brick_1") {
        return Some(TemplateContainerData { size: [6, 7, 7], chests: &[], markers: &[TemplateMarker { x: 3, y: 1, z: 5, metadata: "chest" }], randomizable_containers: &[] });
    }
    if str_eq(name, "underwater_ruin/brick_2") {
        return Some(TemplateContainerData { size: [6, 7, 7], chests: &[], markers: &[TemplateMarker { x: 2, y: 0, z: 1, metadata: "chest" }, TemplateMarker { x: 2, y: 1, z: 5, metadata: "drowned" }, TemplateMarker { x: 3, y: 1, z: 2, metadata: "drowned" }], randomizable_containers: &[] });
    }
    if str_eq(name, "underwater_ruin/brick_3") {
        return Some(TemplateContainerData { size: [6, 7, 7], chests: &[], markers: &[TemplateMarker { x: 1, y: 0, z: 5, metadata: "chest" }], randomizable_containers: &[] });
    }
    if str_eq(name, "underwater_ruin/brick_4") {
        return Some(TemplateContainerData { size: [6, 7, 7], chests: &[], markers: &[TemplateMarker { x: 1, y: 1, z: 4, metadata: "chest" }, TemplateMarker { x: 2, y: 1, z: 5, metadata: "drowned" }, TemplateMarker { x: 4, y: 1, z: 5, metadata: "drowned" }], randomizable_containers: &[] });
    }
    if str_eq(name, "underwater_ruin/brick_5") {
        return Some(TemplateContainerData { size: [6, 7, 7], chests: &[], markers: &[TemplateMarker { x: 4, y: 0, z: 4, metadata: "chest" }], randomizable_containers: &[] });
    }
    if str_eq(name, "underwater_ruin/brick_6") {
        return Some(TemplateContainerData { size: [6, 7, 7], chests: &[], markers: &[TemplateMarker { x: 2, y: 0, z: 2, metadata: "chest" }, TemplateMarker { x: 2, y: 1, z: 3, metadata: "drowned" }, TemplateMarker { x: 1, y: 6, z: 4, metadata: "drowned" }, TemplateMarker { x: 3, y: 6, z: 1, metadata: "drowned" }, TemplateMarker { x: 3, y: 6, z: 4, metadata: "drowned" }], randomizable_containers: &[] });
    }
    if str_eq(name, "underwater_ruin/brick_7") {
        return Some(TemplateContainerData { size: [6, 7, 7], chests: &[], markers: &[TemplateMarker { x: 1, y: 0, z: 3, metadata: "chest" }], randomizable_containers: &[] });
    }
    None
}

/// Looks a template up in part 5 of the table.
fn lookup_part_5(name: &str) -> (data: Option<TemplateContainerData>)
    ensures
        data == templates_part_5(name@),
{
    if str_eq(name, "underwater_ruin/brick_8") {
        return Some(TemplateContainerData { size: [6, 7, 7], chests: &[], markers: &[TemplateMarker { x: 2, y: 1, z: 4, metadata: "drowned" }, TemplateMarker { x: 3, y: 1, z: 4, metadata: "chest" }], randomizable_containers: &[] });
    }
    if str_eq(name, "underwater_ruin/cracked_1") {
        return Some(TemplateContainerData { size: [6, 7, 7], chests: &[], markers: &[TemplateMarker { x: 3, y: 1, z: 5, metadata: "chest" }], randomizable_containers: &[] });
    }
    if str_eq(name, "underwater_ruin/cracked_2") {
        return Some(TemplateContainerData { size: [6, 7, 7], chests: &[], markers: &[TemplateMarker { x: 2, y: 0, z: 1, metadata: "chest" }], randomizable_containers: &[] });
    }
    if str_eq(name, "underwater_ruin/cracked_3") {
        return Some(TemplateContainerData { size: [6, 7, 7], chests: &[], markers: &[TemplateMarker { x: 1, y: 0, z: 5, metadata: "chest" }], randomizable_containers: &[] });
    }
    if str_eq(name, "underwater_ruin/cracked_4") {
        return Some(TemplateContainerData { size: [6, 7, 7], chests: &[], markers: &[TemplateMarker { x: 1, y: 1, z: 4, metadata: "chest" }], randomizable_containers: &[] });
    }
    if str_eq(name, "underwater_ruin/cracked_5") {
        return Some(TemplateContainerData { size: [6, 7, 7], chests: &[], markers: &[TemplateMarker { x: 4, y: 0, z: 4, metadata: "chest" }], randomizable_containers: &[] });
    }
    if str_eq(name, "underwater_ruin/cracked_6") {
        return Some(TemplateContainerData { size: [6, 7, 7], chests: &[], markers: &[TemplateMarker { x: 2, y: 0, z: 2, metadata: "chest" }], randomizable_containers: &[] });
    }
    if str_eq(name, "underwater_ruin/cracked_7") {
        return Some(TemplateContainerData { size: [6, 7, 7], chests: &[], markers: &[TemplateMarker { x: 1, y: 0, z: 3, metadata: "chest" }, TemplateMarker { x: 2, y: 1, z: 3, metadata: "drowned" }], randomizable_containers: &[] });
    }
    if str_eq(name, "underwater_ruin/cracked_8") {
        return Some(TemplateContainerData { size: [6, 7, 7], chests: &[], markers: &[TemplateMarker { x: 3, y: 1, z: 4, metadata: "chest" }], randomizable_containers: &[] });
    }
    if str_eq(name, "underwater_ruin/mossy_1") {
        return Some(TemplateContainerData { size: [6, 7, 7], chests: &[], markers: &[TemplateMarker { x: 1, y: 1, z: 2, metadata: "drowned" }], randomizable_containers: &[] });
    }
    if str_eq(name, "underwater_ruin/mossy_2") {
        return Some(TemplateContainerData { size: [6, 7, 7], chests: &[], markers: &[TemplateMarker { x: 2, y: 0, z: 1, metadata: "chest" }], randomizable_containers: &[] });
    }
    if str_eq(name, "underwater_ruin/mossy_3") {
        return Some(TemplateContainerData { size: [6, 7, 7], chests: &[], markers: &[TemplateMarker { x: 1, y: 0, z: 5, metadata: "chest" }], randomizable_containers: &[] });
    }
    if str_eq(name, "underwater_ruin/mossy_4") {
        return Some(TemplateContainerData { size: [6, 7, 7], chests: &[], markers: &[TemplateMarker { x: 1, y: 1, z: 4, metadata: "chest" }], randomizable_containers: &[] });
    }
    if str_eq(name, "underwater_ruin/mossy_5") {
        return Some(TemplateContainerData { size: [6, 7, 7], chests: &[], markers: &[TemplateMarker { x: 4, y: 0, z: 4, metadata: "chest" }, TemplateMarker { x: 3, y: 1, z: 3, metadata: "drowned" }], randomizable_containers: &[] });
    }
    if str_eq(name, "underwater_ruin/mossy_6") {
        return Some(TemplateContainerData { size: [6, 7, 7], chests: &[], markers: &[TemplateMarker { x: 2, y: 0, z: 2, metadata: "chest" }, TemplateMarker { x: 2, y: 6, z: 2, metadata: "drowned" }], randomizable_containers: &[] });
    }
    if str_eq(name, "underwater_ruin/mossy_7") {
        return Some(TemplateContainerData { size: [6, 7, 7], chests: &[], markers: &[TemplateMarker { x: 1, y: 0, z: 3, metadata: "chest" }, TemplateMarker { x: 2, y: 1, z: 2, metadata: "drowned" }], randomizable_containers: &[] });
    }
    if str_eq(name, "underwater_ruin/mossy_8") {
        return Some(TemplateContainerData { size: [6, 7, 7], chests: &[], markers: &[TemplateMarker { x: 3, y: 1, z: 4, metadata: "chest" }, TemplateMarker { x: 4, y: 1, z: 4, metadata: "drowned" }], randomizable_containers: &[] });
    }
    if str_eq(name, "underwater_ruin/warm_1") {
        return Some(TemplateContainerData { size: [6, 7, 7], chests: &[], markers: &[TemplateMarker { x: 3, y: 1, z: 1, metadata: "chest" }], randomizable_containers: &[] });
    }
    if str_eq(name, "underwater_ruin/warm_2") {
        return Some(TemplateContainerData { size: [6, 7, 7], chests: &[], markers: &[TemplateMarker { x: 3, y: 1, z: 4, metadata: "chest" }, TemplateMarker { x: 2, y: 2, z: 2, metadata: "drowned" }, TemplateMarker { x: 3, y: 2, z: 2, metadata: "drowned" }], randomizable_containers: &[] });
    }
    if str_eq(name, "underwater_ruin/warm_3") {
        return Some(TemplateContainerData { size: [6, 7, 7], chests: &[], markers: &[TemplateMarker { x: 3, y: 0, z: 4, metadata: "chest" }, TemplateMarker { x: 3, y: 1, z: 2, metadata: "drowned" }], randomizable_containers: &[] });
    }
    if str_eq(name, "underwater_ruin/warm_4") {
        return Some(TemplateContainerData { size: [6, 7, 7], chests: &[], markers: &[TemplateMarker { x: 1, y: 0, z: 2, metadata: "chest" }, TemplateMarker { x: 2, y: 1, z: 2, metadata: "drowned" }], randomizable_containers: &[] });
    }
    if str_eq(name, "underwater_ruin/warm_5") {
        return Some(TemplateContainerData { size: [6, 7, 7], chests: &[], markers: &[TemplateMarker { x: 3, y: 0, z: 4, metadata: "chest" }, TemplateMarker { x: 2, y: 1, z: 2, metadata: "drowned" }], randomizable_containers: &[] });
    }
    if str_eq(name, "underwater_ruin/warm_6") {
        return Some(TemplateContainerData { size: [6, 7, 7], chests: &[], markers: &[TemplateMarker { x: 4, y: 1, z: 4, metadata: "chest" }], randomizable_containers: &[] });
    }
    if str_eq(name, "underwater_ruin/warm_7") {
        return Some(TemplateContainerData { size: [6, 7, 7], chests: &[], markers: &[TemplateMarker { x: 3, y: 0, z: 3, metadata: "chest" }], randomizable_containers: &[] });
    }
    if str_eq(name, "underwater_ruin/warm_8") {
        return Some(TemplateContainerData { size: [6, 7, 7], chests: &[], markers: &[TemplateMarker { x: 3, y: 0, z: 3, metadata: "chest" }, TemplateMarker { x: 1, y: 2, z: 3, metadata: "drowned" }], randomizable_containers: &[] });
    }
    if str_eq(name, "village/desert/houses/desert_fisher_1") {
        return Some(TemplateContainerData { size: [8, 6, 11], chests: &[], markers: &[], randomizable_containers: &[TemplateBlockPos { x: 2, y: 1, z: 5 }, TemplateBlockPos { x: 5, y: 1, z: 8 }, TemplateBlockPos { x: 6, y: 1, z: 4 }, TemplateBlockPos { x: 6, y: 1, z: 8 }, TemplateBlockPos { x: 2, y: 2, z: 5 }, TemplateBlockPos { x: 6, y: 2, z: 8 }] });
    }
    if str_eq(name, "village/desert/houses/desert_medium_house_1") {
        return Some(TemplateContainerData { size: [6, 6, 7], chests: &[TemplateChest { x: 2, y: 1, z: 1, loot_table: "minecraft:chests/village/village_desert_house" }], markers: &[], randomizable_containers: &[TemplateBlockPos { x: 2, y: 1, z: 1 }] });
    }
    if str_eq(name, "village/desert/houses/desert_medium_house_2") {
        return Some(TemplateContainerData { size: [11, 9, 7], chests: &[TemplateChest { x: 8, y: 3, z: 3, loot_table: "minecraft:chests/village/village_desert_house" }], markers: &[], randomizable_containers: &[TemplateBlockPos { x: 8, y: 3, z: 3 }] });
    }
    if str_eq(name, "village/desert/houses/desert_small_house_4") {
        return Some(TemplateContainerData { size: [5, 5, 5], chests: &[TemplateChest { x: 3, y: 1, z: 1, loot_table: "minecraft:chests/village/village_desert_house" }], markers: &[], randomizable_containers: &[TemplateBlockPos { x: 3, y: 1, z: 1 }] });
    }
    if str_eq(name, "village/desert/houses/desert_small_house_6") {
        return Some(TemplateContainerData { size: [6, 18, 5], chests: &[TemplateChest { x: 3, y: 13, z: 2, loot_table: "minecraft:chests/village/village_desert_house" }], markers: &[], randomizable_containers: &[TemplateBlockPos { x: 3, y: 13, z: 2 }] });
    }
    None
}

/// Looks a template up in part 6 of the table.
fn lookup_part_6(name: &str) -> (data: Option<TemplateContainerData>)
    ensures
        data == templates_part_6(name@),
{
    if str_eq(name, "village/desert/houses/desert_temple_1") {
        return Some(TemplateContainerData { size: [11, 7, 10], chests: &[TemplateChest { x: 1, y: 1, z: 8, loot_table: "minecraft:chests/village/village_temple" }], markers: &[], randomizable_containers: &[TemplateBlockPos { x: 1, y: 1, z: 8 }] });
    }
    if str_eq(name, "village/desert/houses/desert_tool_smith_1") {
        return Some(TemplateContainerData { size: [9, 9, 9], chests: &[TemplateChest { x: 7, y: 5, z: 1, loot_table: "minecraft:chests/village/village_toolsmith" }], markers: &[], randomizable_containers: &[TemplateBlockPos { x: 7, y: 5, z: 1 }] });
    }
    if str_eq(name, "village/desert/houses/desert_weaponsmith_1") {
        return Some(TemplateContainerData { size: [10, 6, 7], chests: &[TemplateChest { x: 1, y: 1, z: 2, loot_table: "minecraft:chests/village/village_weaponsmith" }], markers: &[], randomizable_containers: &[TemplateBlockPos { x: 1, y: 1, z: 2 }] });
    }
    if str_eq(name, "village/desert/zombie/houses/desert_medium_house_1") {
        return Some(TemplateContainerData { size: [6, 6, 7], chests: &[TemplateChest { x: 2, y: 1, z: 1, loot_table: "minecraft:chests/village/village_desert_house" }], markers: &[], randomizable_containers: &[TemplateBlockPos { x: 2, y: 1, z: 1 }] });
    }
    if str_eq(name, "village/desert/zombie/houses/desert_medium_house_2") {
        return Some(TemplateContainerData { size: [11, 9, 7], chests: &[TemplateChest { x: 8, y: 3, z: 3, loot_table: "minecraft:chests/village/village_desert_house" }], markers: &[], randomizable_containers: &[TemplateBlockPos { x: 8, y: 3, z: 3 }] });
    }
    if str_eq(name, "village/desert/zombie/houses/desert_small_house_4") {
        return Some(TemplateContainerData { size: [5, 5, 5], chests: &[TemplateChest { x: 3, y: 1, z: 1, loot_table: "minecraft:chests/village/village_desert_house" }], markers: &[], randomizable_containers: &[TemplateBlockPos { x: 3, y: 1, z: 1 }] });
    }
    if str_eq(name, "village/desert/zombie/houses/desert_small_house_6") {
        return Some(TemplateContainerData { size: [5, 17, 5], chests: &[TemplateChest { x: 2, y: 13, z: 2, loot_table: "minecraft:chests/village/village_desert_house" }], markers: &[], randomizable_containers: &[TemplateBlockPos { x: 2, y: 13, z: 2 }] });
    }
    if str_eq(name, "village/plains/houses/plains_big_house_1") {
        return Some(TemplateContainerData { size: [7, 11, 11], chests: &[TemplateChest { x: 4, y: 5, z: 8, loot_table: "minecraft:chests/village/village_plains_house" }], markers: &[], randomizable_containers: &[TemplateBlockPos { x: 4, y: 5, z: 8 }] });
    }
    if str_eq(name, "village/plains/houses/plains_cartographer_1") {
        return Some(TemplateContainerData { size: [10, 8, 7], chests: &[TemplateChest { x: 3, y: 1, z: 4, loot_table: "minecraft:chests/village/village_cartographer" }], markers: &[], randomizable_containers: &[TemplateBlockPos { x: 3, y: 1, z: 4 }] });
    }
    if str_eq(name, "village/plains/houses/plains_fisher_cottage_1") {
        return Some(TemplateContainerData { size: [11, 9, 10], chests: &[TemplateChest { x: 4, y: 3, z: 6, loot_table: "minecraft:chests/village/village_fisher" }], markers: &[], randomizable_containers: &[TemplateBlockPos { x: 2, y: 2, z: 2 }, TemplateBlockPos { x: 9, y: 2, z: 7 }, TemplateBlockPos { x: 4, y: 3, z: 6 }] });
    }
    if str_eq(name, "village/plains/houses/plains_medium_house_2") {
        return Some(TemplateContainerData { size: [7, 6, 13], chests: &[TemplateChest { x: 2, y: 1, z: 10, loot_table: "minecraft:chests/village/village_plains_house" }], markers: &[], randomizable_containers: &[TemplateBlockPos { x: 2, y: 1, z: 10 }] });
    }
    if str_eq(name, "village/plains/houses/plains_small_house_7") {
        return Some(TemplateContainerData { size: [7, 7, 8], chests: &[TemplateChest { x: 4, y: 1, z: 5, loot_table: "minecraft:chests/village/village_plains_house" }], markers: &[], randomizable_containers: &[TemplateBlockPos { x: 4, y: 1, z: 5 }] });
    }
    if str_eq(name, "village/plains/houses/plains_tannery_1") {
        return Some(TemplateContainerData { size: [8, 7, 10], chests: &[TemplateChest { x: 5, y: 1, z: 7, loot_table: "minecraft:chests/village/village_tannery" }], markers: &[], randomizable_containers: &[TemplateBlockPos { x: 5, y: 1, z: 7 }] });
    }
    if str_eq(name, "village/plains/houses/plains_weaponsmith_1") {
        return Some(TemplateContainerData { size: [9, 8, 11], chests: &[TemplateChest { x: 6, y: 1, z: 4, loot_table: "minecraft:chests/village/village_weaponsmith" }], markers: &[], randomizable_containers: &[TemplateBlockPos { x: 6, y: 1, z: 4 }] });
    }
    if str_eq(name, "village/plains/zombie/houses/plains_big_house_1") {
        return Some(TemplateContainerData { size: [7, 11, 11], chests: &[TemplateChest { x: 4, y: 5, z: 8, loot_table: "minecraft:chests/village/village_plains_house" }], markers: &[], randomizable_containers: &[TemplateBlockPos { x: 4, y: 5, z: 8 }] });
    }
    if str_eq(name, "village/plains/zombie/houses/plains_medium_house_2") {
        return Some(TemplateContainerData { size: [7, 6, 13], chests: &[TemplateChest { x: 2, y: 1, z: 10, loot_table: "minecraft:chests/village/village_plains_house" }], markers: &[], randomizable_containers: &[TemplateBlockPos { x: 2, y: 1, z: 10 }] });
    }
    if str_eq(name, "village/plains/zombie/houses/plains_small_house_7") {
        return Some(TemplateContainerData { size: [7, 7, 8], chests: &[TemplateChest { x: 4, y: 1, z: 5, loot_table: "minecraft:chests/village/village_plains_house" }], markers: &[], randomizable_containers: &[TemplateBlockPos { x: 4, y: 1, z: 5 }] });
    }
    if str_eq(name, "village/savanna/houses/savanna_butchers_shop_2") {
        return Some(TemplateContainerData { size: [13, 10, 9], chests: &[TemplateChest { x: 6, y: 4, z: 5, loot_table: "minecraft:chests/village/village_butcher" }], markers: &[], randomizable_containers: &[TemplateBlockPos { x: 6, y: 4, z: 5 }] });
    }
    if str_eq(name, "village/savanna/houses/savanna_cartographer_1") {
        return Some(TemplateContainerData { size: [8, 8, 9], chests: &[TemplateChest { x: 4, y: 3, z: 6, loot_table: "minecraft:chests/village/village_cartographer" }], markers: &[], randomizable_containers: &[TemplateBlockPos { x: 4, y: 3, z: 6 }] });
    }
    if str_eq(name, "village/savanna/houses/savanna_fisher_cottage_1") {
        return Some(TemplateContainerData { size: [8, 11, 9], chests: &[], markers: &[], randomizable_containers: &[TemplateBlockPos { x: 2, y: 2, z: 4 }, TemplateBlockPos { x: 6, y: 2, z: 2 }, TemplateBlockPos { x: 2, y: 3, z: 4 }] });
    }
    if str_eq(name, "village/savanna/houses/savanna_mason_1") {
        return Some(TemplateContainerData { size: [8, 7, 10], chests: &[TemplateChest { x: 5, y: 1, z: 5, loot_table: "minecraft:chests/village/village_mason" }], markers: &[], randomizable_containers: &[TemplateBlockPos { x: 5, y: 1, z: 5 }] });
    }
    if str_eq(name, "village/savanna/houses/savanna_medium_house_1") {
        return Some(TemplateContainerData { size: [8, 7, 15], chests: &[TemplateChest { x: 2, y: 1, z: 2, loot_table: "minecraft:chests/village/village_savanna_house" }], markers: &[], randomizable_containers: &[TemplateBlockPos { x: 2, y: 1, z: 2 }] });
    }
    if str_eq(name, "village/savanna/houses/savanna_medium_house_2") {
        return Some(TemplateContainerData { size: [10, 8, 11], chests: &[TemplateChest { x: 7, y: 1, z: 6, loot_table: "minecraft:chests/village/village_savanna_house" }], markers: &[], randomizable_containers: &[TemplateBlockPos { x: 7, y: 1, z: 6 }] });
    }
    if str_eq(name, "village/savanna/houses/savanna_small_house_2") {
        return Some(TemplateContainerData { size: [7, 7, 7], chests: &[TemplateChest { x: 2, y: 1, z: 2, loot_table: "minecraft:chests/village/village_savanna_house" }], markers: &[], randomizable_containers: &[TemplateBlockPos { x: 2, y: 1, z: 2 }] });
    }
    if str_eq(name, "village/savanna/houses/savanna_small_house_4") {
        return Some(TemplateContainerData { size: [10, 8, 7], chests: &[TemplateChest { x: 7, y: 1, z: 4, loot_table: "minecraft:chests/village/village_savanna_house" }], markers: &[], randomizable_containers: &[TemplateBlockPos { x: 7, y: 1, z: 4 }] });
    }
    if str_eq(name, "village/savanna/houses/savanna_small_house_7") {
        return Some(TemplateContainerData { size: [7, 7, 7], chests: &[TemplateChest { x: 2, y: 1, z: 4, loot_table: "minecraft:chests/village/village_savanna_house" }], markers: &[], randomizable_containers: &[TemplateBlockPos { x: 2, y: 1, z: 4 }] });
    }
    if str_eq(name, "village/savanna/houses/savanna_tannery_1") {
        return Some(TemplateContainerData { size: [8, 6, 9], chests: &[TemplateChest { x: 2, y: 1, z: 6, loot_table: "minecraft:chests/village/village_tannery" }], markers: &[], randomizable_containers: &[TemplateBlockPos { x: 2, y: 1, z: 6 }] });
    }
    if str_eq(name, "village/savanna/houses/savanna_weaponsmith_2") {
        return Some(TemplateContainerData { size: [9, 7, 13], chests: &[TemplateChest { x: 2, y: 2, z: 9, loot_table: "minecraft:chests/village/village_weaponsmith" }], markers: &[], randomizable_containers: &[TemplateBlockPos { x: 2, y: 2, z: 9 }] });
    }
    if str_eq(name, "village/savanna/zombie/houses/savanna_medium_house_1") {
        return Some(TemplateContainerData { size: [8, 7, 15], chests: &[TemplateChest { x: 2, y: 1, z: 2, loot_table: "minecraft:chests/village/village_savanna_house" }], markers: &[], randomizable_containers: &[TemplateBlockPos { x: 2, y: 1, z: 2 }] });
    }
    if str_eq(name, "village/savanna/zombie/houses/savanna_medium_house_2") {
        return Some(TemplateContainerData { size: [10, 8, 11], chests: &[TemplateChest { x: 7, y: 1, z: 6, loot_table: "minecraft:chests/village/village_savanna_house" }], markers: &[], randomizable_containers: &[TemplateBlockPos { x: 7, y: 1, z: 6 }] });
    }
    None
}

/// Looks a template up in part 7 of the table.
fn lookup_part_7(name: &str) -> (data: Option<TemplateContainerData>)
    ensures
        data == templates_part_7(name@),
{
    if str_eq(name, "village/savanna/zombie/houses/savanna_small_house_2") {
        return Some(TemplateContainerData { size: [7, 7, 7], chests: &[TemplateChest { x: 2, y: 1, z: 2, loot_table: "minecraft:chests/village/village_savanna_house" }], markers: &[], randomizable_containers: &[TemplateBlockPos { x: 2, y: 1, z: 2 }] });
    }
    if str_eq(name, "village/savanna/zombie/houses/savanna_small_house_4") {
        return Some(TemplateContainerData { size: [10, 8, 7], chests: &[TemplateChest { x: 7, y: 1, z: 4, loot_table: "minecraft:chests/village/village_savanna_house" }], markers: &[], randomizable_containers: &[TemplateBlockPos { x: 7, y: 1, z: 4 }] });
    }
    if str_eq(name, "village/savanna/zombie/houses/savanna_small_house_7") {
        return Some(TemplateContainerData { size: [7, 7, 7], chests: &[TemplateChest { x: 2, y: 1, z: 4, loot_table: "minecraft:chests/village/village_savanna_house" }], markers: &[], randomizable_containers: &[TemplateBlockPos { x: 2, y: 1, z: 4 }] });
    }
    if str_eq(name, "village/snowy/houses/snowy_armorer_house_1") {
        return Some(TemplateContainerData { size: [8, 8, 7], chests: &[TemplateChest { x: 2, y: 1, z: 5, loot_table: "minecraft:chests/village/village_armorer" }], markers: &[], randomizable_containers: &[TemplateBlockPos { x: 2, y: 1, z: 5 }] });
    }
    if str_eq(name, "village/snowy/houses/snowy_cartographer_house_1") {
        return Some(TemplateContainerData { size: [7, 7, 11], chests: &[TemplateChest { x: 2, y: 1, z: 3, loot_table: "minecraft:chests/village/village_cartographer" }], markers: &[], randomizable_containers: &[TemplateBlockPos { x: 2, y: 1, z: 3 }] });
    }
    if str_eq(name, "village/snowy/houses/snowy_fisher_cottage") {
        return Some(TemplateContainerData { size: [9, 8, 7], chests: &[], markers: &[], randomizable_containers: &[TemplateBlockPos { x: 5, y: 2, z: 2 }, TemplateBlockPos { x: 6, y: 2, z: 2 }, TemplateBlockPos { x: 6, y: 3, z: 2 }] });
    }
    if str_eq(name, "village/snowy/houses/snowy_shepherds_house_1") {
        return Some(TemplateContainerData { size: [9, 5, 10], chests: &[TemplateChest { x: 6, y: 1, z: 7, loot_table: "minecraft:chests/village/village_shepherd" }], markers: &[], randomizable_containers: &[TemplateBlockPos { x: 6, y: 1, z: 7 }] });
    }
    if str_eq(name, "village/snowy/houses/snowy_small_house_5") {
        return Some(TemplateContainerData { size: [7, 5, 5], chests: &[TemplateChest { x: 4, y: 1, z: 3, loot_table: "minecraft:chests/village/village_snowy_house" }], markers: &[], randomizable_containers: &[TemplateBlockPos { x: 4, y: 1, z: 3 }] });
    }
    if str_eq(name, "village/snowy/houses/snowy_small_house_6") {
        return Some(TemplateContainerData { size: [7, 9, 7], chests: &[TemplateChest { x: 4, y: 1, z: 2, loot_table: "minecraft:chests/village/village_snowy_house" }], markers: &[], randomizable_containers: &[TemplateBlockPos { x: 4, y: 1, z: 2 }] });
    }
    if str_eq(name, "village/snowy/houses/snowy_tannery_1") {
        return Some(TemplateContainerData { size: [8, 9, 9], chests: &[TemplateChest { x: 5, y: 1, z: 6, loot_table: "minecraft:chests/village/village_tannery" }], markers: &[], randomizable_containers: &[TemplateBlockPos { x: 5, y: 1, z: 6 }] });
    }
    if str_eq(name, "village/snowy/houses/snowy_weapon_smith_1") {
        return Some(TemplateContainerData { size: [9, 7, 10], chests: &[TemplateChest { x: 2, y: 1, z: 2, loot_table: "minecraft:chests/village/village_weaponsmith" }], markers: &[], randomizable_containers: &[TemplateBlockPos { x: 2, y: 1, z: 2 }] });
    }
    if str_eq(name, "village/snowy/zombie/houses/snowy_small_house_5") {
        return Some(TemplateContainerData { size: [7, 5, 5], chests: &[TemplateChest { x: 4, y: 1, z: 3, loot_table: "minecraft:chests/village/village_snowy_house" }], markers: &[], randomizable_containers: &[TemplateBlockPos { x: 4, y: 1, z: 3 }] });
    }
    if str_eq(name, "village/snowy/zombie/houses/snowy_small_house_6") {
        return Some(TemplateContainerData { size: [7, 9, 7], chests: &[TemplateChest { x: 4, y: 1, z: 2, loot_table: "minecraft:chests/village/village_snowy_house" }], markers: &[], randomizable_containers: &[TemplateBlockPos { x: 4, y: 1, z: 2 }] });
    }
    if str_eq(name, "village/taiga/houses/taiga_cartographer_house_1") {
        return Some(TemplateContainerData { size: [7, 10, 8], chests: &[TemplateChest { x: 2, y: 4, z: 3, loot_table: "minecraft:chests/village/village_cartographer" }], markers: &[], randomizable_containers: &[TemplateBlockPos { x: 2, y: 4, z: 3 }] });
    }
    if str_eq(name, "village/taiga/houses/taiga_fisher_cottage_1") {
        return Some(TemplateContainerData { size: [10, 8, 12], chests: &[], markers: &[], randomizable_containers: &[TemplateBlockPos { x: 8, y: 2, z: 1 }, TemplateBlockPos { x: 9, y: 2, z: 4 }] });
    }
    if str_eq(name, "village/taiga/houses/taiga_fletcher_house_1") {
        return Some(TemplateContainerData { size: [10, 6, 11], chests: &[TemplateChest { x: 5, y: 1, z: 4, loot_table: "minecraft:chests/village/village_fletcher" }], markers: &[], randomizable_containers: &[TemplateBlockPos { x: 5, y: 1, z: 4 }] });
    }
    if str_eq(name, "village/taiga/houses/taiga_medium_house_1") {
        return Some(TemplateContainerData { size: [8, 11, 7], chests: &[TemplateChest { x: 2, y: 0, z: 2, loot_table: "minecraft:chests/village/village_taiga_house" }], markers: &[], randomizable_containers: &[TemplateBlockPos { x: 2, y: 0, z: 2 }] });
    }
    if str_eq(name, "village/taiga/houses/taiga_medium_house_2") {
        return Some(TemplateContainerData { size: [7, 11, 8], chests: &[TemplateChest { x: 4, y: 5, z: 4, loot_table: "minecraft:chests/village/village_taiga_house" }], markers: &[], randomizable_containers: &[TemplateBlockPos { x: 4, y: 5, z: 4 }] });
    }
    if str_eq(name, "village/taiga/houses/taiga_medium_house_3") {
        return Some(TemplateContainerData { size: [8, 7, 13], chests: &[TemplateChest { x: 3, y: 1, z: 2, loot_table: "minecraft:chests/village/village_taiga_house" }], markers: &[], randomizable_containers: &[TemplateBlockPos { x: 3, y: 1, z: 2 }] });
    }
    if str_eq(name, "village/taiga/houses/taiga_small_house_3") {
        return Some(TemplateContainerData { size: [7, 7, 7], chests: &[TemplateChest { x: 2, y: 1, z: 2, loot_table: "minecraft:chests/village/village_taiga_house" }], markers: &[], randomizable_containers: &[TemplateBlockPos { x: 2, y: 1, z: 2 }] });
    }
    if str_eq(name, "village/taiga/houses/taiga_small_house_5") {
        return Some(TemplateContainerData { size: [9, 7, 7], chests: &[TemplateChest { x: 3, y: 1, z: 2, loot_table: "minecraft:chests/village/village_taiga_house" }], markers: &[], randomizable_containers: &[TemplateBlockPos { x: 3, y: 1, z: 2 }] });
    }
    if str_eq(name, "village/taiga/houses/taiga_tannery_1") {
        return Some(TemplateContainerData { size: [9, 6, 9], chests: &[TemplateChest { x: 6, y: 1, z: 2, loot_table: "minecraft:chests/village/village_tannery" }], markers: &[], randomizable_containers: &[TemplateBlockPos { x: 6, y: 1, z: 2 }] });
    }
    if str_eq(name, "village/taiga/houses/taiga_tool_smith_1") {
        return Some(TemplateContainerData { size: [11, 6, 8], chests: &[TemplateChest { x: 6, y: 1, z: 3, loot_table: "minecraft:chests/village/village_toolsmith" }], markers: &[], randomizable_containers: &[TemplateBlockPos { x: 6, y: 1, z: 3 }] });
    }
    if str_eq(name, "village/taiga/houses/taiga_weaponsmith_1") {
        return Some(TemplateContainerData { size: [7, 9, 7], chests: &[TemplateChest { x: 2, y: 1, z: 3, loot_table: "minecraft:chests/village/village_weaponsmith" }], markers: &[], randomizable_containers: &[TemplateBlockPos { x: 2, y: 1, z: 3 }] });
    }
    if str_eq(name, "village/taiga/zombie/houses/taiga_cartographer_house_1") {
        return Some(TemplateContainerData { size: [7, 10, 8], chests: &[TemplateChest { x: 2, y: 4, z: 3, loot_table: "minecraft:chests/village/village_cartographer" }], markers: &[], randomizable_containers: &[TemplateBlockPos { x: 2, y: 4, z: 3 }] });
    }
    if str_eq(name, "village/taiga/zombie/houses/taiga_fisher_cottage_1") {
        return Some(TemplateContainerData { size: [10, 8, 12], chests: &[], markers: &[], randomizable_containers: &[TemplateBlockPos { x: 8, y: 2, z: 1 }, TemplateBlockPos { x: 9, y: 2, z: 4 }] });
    }
    if str_eq(name, "village/taiga/zombie/houses/taiga_medium_house_1") {
        return Some(TemplateContainerData { size: [8, 11, 7], chests: &[TemplateChest { x: 2, y: 0, z: 2, loot_table: "minecraft:chests/village/village_taiga_house" }], markers: &[], randomizable_containers: &[TemplateBlockPos { x: 2, y: 0, z: 2 }] });
    }
    if str_eq(name, "village/taiga/zombie/houses/taiga_medium_house_2") {
        return Some(TemplateContainerData { size: [7, 11, 8], chests: &[TemplateChest { x: 4, y: 5, z: 4, loot_table: "minecraft:chests/village/village_taiga_house" }], markers: &[], randomizable_containers: &[TemplateBlockPos { x: 4, y: 5, z: 4 }] });
    }
    if str_eq(name, "village/taiga/zombie/houses/taiga_medium_house_3") {
        return Some(TemplateContainerData { size: [8, 7, 13], chests: &[TemplateChest { x: 3, y: 1, z: 2, loot_table: "minecraft:chests/village/village_taiga_house" }], markers: &[], randomizable_containers: &[TemplateBlockPos { x: 3, y: 1, z: 2 }] });
    }
    if str_eq(name, "village/taiga/zombie/houses/taiga_small_house_3") {
        return Some(TemplateContainerData { size: [7, 7, 7], chests: &[TemplateChest { x: 2, y: 1, z: 2, loot_table: "minecraft:chests/village/village_taiga_house" }], markers: &[], randomizable_containers: &[TemplateBlockPos { x: 2, y: 1, z: 2 }] });
    }
    None
}

/// Looks a template up in part 8 of the table.
fn lookup_part_8(name: &str) -> (data: Option<TemplateContainerData>)
    ensures
        data == templates_part_8(name@),
{
    if str_eq(name, "village/taiga/zombie/houses/taiga_small_house_5") {
        return Some(TemplateContainerData { size: [9, 7, 7], chests: &[TemplateChest { x: 3, y: 1, z: 2, loot_table: "minecraft:chests/village/village_taiga_house" }], markers: &[], randomizable_containers: &[TemplateBlockPos { x: 3, y: 1, z: 2 }] });
    }
    if str_eq(name, "village/taiga/zombie/houses/taiga_tool_smith_1") {
        return Some(TemplateContainerData { size: [11, 6, 8], chests: &[TemplateChest { x: 6, y: 1, z: 3, loot_table: "minecraft:chests/village/village_toolsmith" }], markers: &[], randomizable_containers: &[TemplateBlockPos { x: 6, y: 1, z: 3 }] });
    }
    if str_eq(name, "woodland_mansion/1x1_a4") {
        return Some(TemplateContainerData { size: [7, 8, 7], chests: &[], markers: &[TemplateMarker { x: 6, y: 6, z: 3, metadata: "ChestWest" }], randomizable_containers: &[] });
    }
    if str_eq(name, "woodland_mansion/1x1_as1") {
        return Some(TemplateContainerData { size: [7, 8, 7], chests: &[], markers: &[TemplateMarker { x: 5, y: 1, z: 1, metadata: "ChestWest" }], randomizable_containers: &[] });
    }
    if str_eq(name, "woodland_mansion/1x1_b5") {
        return Some(TemplateContainerData { size: [7, 11, 7], chests: &[], markers: &[], randomizable_containers: &[TemplateBlockPos { x: 6, y: 1, z: 6 }] });
    }
    if str_eq(name, "woodland_mansion/1x2_a1") {
        return Some(TemplateContainerData { size: [7, 8, 15], chests: &[], markers: &[TemplateMarker { x: 3, y: 1, z: 3, metadata: "Warrior" }, TemplateMarker { x: 3, y: 1, z: 12, metadata: "ChestSouth" }], randomizable_containers: &[] });
    }
    if str_eq(name, "woodland_mansion/1x2_a3") {
        return Some(TemplateContainerData { size: [7, 8, 15], chests: &[], markers: &[TemplateMarker { x: 3, y: 2, z: 8, metadata: "Warrior" }], randomizable_containers: &[] });
    }
    if str_eq(name, "woodland_mansion/1x2_a4") {
        return Some(TemplateContainerData { size: [7, 8, 15], chests: &[], markers: &[], randomizable_containers: &[TemplateBlockPos { x: 6, y: 1, z: 5 }] });
    }
    if str_eq(name, "woodland_mansion/1x2_a6") {
        return Some(TemplateContainerData { size: [7, 8, 15], chests: &[], markers: &[], randomizable_containers: &[TemplateBlockPos { x: 2, y: 1, z: 8 }] });
    }
    if str_eq(name, "woodland_mansion/1x2_a7") {
        return Some(TemplateContainerData { size: [7, 8, 15], chests: &[], markers: &[], randomizable_containers: &[TemplateBlockPos { x: 3, y: 1, z: 0 }] });
    }
    if str_eq(name, "woodland_mansion/1x2_a8") {
        return Some(TemplateContainerData { size: [7, 8, 15], chests: &[], markers: &[TemplateMarker { x: 2, y: 1, z: 2, metadata: "Warrior" }], randomizable_containers: &[] });
    }
    if str_eq(name, "woodland_mansion/1x2_a9") {
        return Some(TemplateContainerData { size: [7, 8, 15], chests: &[], markers: &[TemplateMarker { x: 5, y: 1, z: 1, metadata: "Warrior" }], randomizable_containers: &[TemplateBlockPos { x: 0, y: 2, z: 3 }, TemplateBlockPos { x: 0, y: 2, z: 5 }, TemplateBlockPos { x: 0, y: 2, z: 7 }, TemplateBlockPos { x: 0, y: 2, z: 9 }, TemplateBlockPos { x: 0, y: 2, z: 11 }, TemplateBlockPos { x: 3, y: 2, z: 3 }, TemplateBlockPos { x: 3, y: 2, z: 5 }, TemplateBlockPos { x: 3, y: 2, z: 7 }, TemplateBlockPos { x: 3, y: 2, z: 9 }, TemplateBlockPos { x: 3, y: 2, z: 11 }, TemplateBlockPos { x: 5, y: 2, z: 6 }, TemplateBlockPos { x: 5, y: 2, z: 8 }, TemplateBlockPos { x: 5, y: 2, z: 10 }, TemplateBlockPos { x: 5, y: 2, z: 11 }, TemplateBlockPos { x: 0, y: 4, z: 3 }, TemplateBlockPos { x: 0, y: 4, z: 5 }, TemplateBlockPos { x: 0, y: 4, z: 7 }, TemplateBlockPos { x: 0, y: 4, z: 9 }, TemplateBlockPos { x: 0, y: 4, z: 11 }, TemplateBlockPos { x: 3, y: 4, z: 3 }, TemplateBlockPos { x: 3, y: 4, z: 5 }, TemplateBlockPos { x: 3, y: 4, z: 7 }, TemplateBlockPos { x: 3, y: 4, z: 9 }, TemplateBlockPos { x: 3, y: 4, z: 11 }, TemplateBlockPos { x: 5, y: 4, z: 6 }, TemplateBlockPos { x: 5, y: 4, z: 7 }, TemplateBlockPos { x: 5, y: 4, z: 9 }, TemplateBlockPos { x: 5, y: 4, z: 11 }, TemplateBlockPos { x: 0, y: 6, z: 3 }, TemplateBlockPos { x: 0, y: 6, z: 5 }, TemplateBlockPos { x: 0, y: 6, z: 7 }, TemplateBlockPos { x: 0, y: 6, z: 9 }, TemplateBlockPos { x: 0, y: 6, z: 11 }, TemplateBlockPos { x: 3, y: 6, z: 3 }, TemplateBlockPos { x: 3, y: 6, z: 5 }, TemplateBlockPos { x: 3, y: 6, z: 7 }, TemplateBlockPos { x: 3, y: 6, z: 9 }, TemplateBlockPos { x: 3, y: 6, z: 11 }, TemplateBlockPos { x: 5, y: 6, z: 6 }, TemplateBlockPos { x: 5, y: 6, z: 8 }, TemplateBlockPos { x: 5, y: 6, z: 10 }, TemplateBlockPos { x: 5, y: 6, z: 11 }] });
    }
    if str_eq(name, "woodland_mansion/1x2_b1") {
        return Some(TemplateContainerData { size: [7, 8, 15], chests: &[], markers: &[TemplateMarker { x: 3, y: 1, z: 13, metadata: "Warrior" }], randomizable_containers: &[] });
    }
    if str_eq(name, "woodland_mansion/1x2_b2") {
        return Some(TemplateContainerData { size: [7, 8, 15], chests: &[], markers: &[TemplateMarker { x: 5, y: 1, z: 11, metadata: "Warrior" }], randomizable_containers: &[] });
    }
    if str_eq(name, "woodland_mansion/1x2_b3") {
        return Some(TemplateContainerData { size: [7, 8, 15], chests: &[], markers: &[TemplateMarker { x: 3, y: 1, z: 0, metadata: "ChestSouth" }, TemplateMarker { x: 3, y: 1, z: 4, metadata: "Warrior" }], randomizable_containers: &[] });
    }
    if str_eq(name, "woodland_mansion/1x2_b4") {
        return Some(TemplateContainerData { size: [7, 8, 15], chests: &[], markers: &[TemplateMarker { x: 4, y: 3, z: 9, metadata: "ChestNorth" }], randomizable_containers: &[] });
    }
    if str_eq(name, "woodland_mansion/1x2_c3") {
        return Some(TemplateContainerData { size: [7, 11, 15], chests: &[], markers: &[TemplateMarker { x: 4, y: 1, z: 6, metadata: "Warrior" }, TemplateMarker { x: 4, y: 1, z: 9, metadata: "Warrior" }, TemplateMarker { x: 4, y: 1, z: 12, metadata: "Warrior" }], randomizable_containers: &[] });
    }
    if str_eq(name, "woodland_mansion/1x2_d2") {
        return Some(TemplateContainerData { size: [7, 11, 15], chests: &[], markers: &[TemplateMarker { x: 6, y: 7, z: 12, metadata: "ChestWest" }], randomizable_containers: &[] });
    }
    if str_eq(name, "woodland_mansion/1x2_d3") {
        return Some(TemplateContainerData { size: [7, 11, 15], chests: &[], markers: &[TemplateMarker { x: 2, y: 2, z: 10, metadata: "Warrior" }, TemplateMarker { x: 4, y: 2, z: 10, metadata: "Warrior" }, TemplateMarker { x: 3, y: 3, z: 3, metadata: "Mage" }], randomizable_containers: &[] });
    }
    if str_eq(name, "woodland_mansion/1x2_s1") {
        return Some(TemplateContainerData { size: [7, 8, 15], chests: &[], markers: &[TemplateMarker { x: 3, y: 1, z: 4, metadata: "ChestSouth" }], randomizable_containers: &[] });
    }
    if str_eq(name, "woodland_mansion/1x2_s2") {
        return Some(TemplateContainerData { size: [7, 8, 15], chests: &[], markers: &[], randomizable_containers: &[TemplateBlockPos { x: 3, y: 4, z: 5 }] });
    }
    if str_eq(name, "woodland_mansion/1x2_se1") {
        return Some(TemplateContainerData { size: [7, 11, 15], chests: &[], markers: &[TemplateMarker { x: 3, y: 9, z: 1, metadata: "ChestSouth" }, TemplateMarker { x: 3, y: 9, z: 13, metadata: "ChestNorth" }], randomizable_containers: &[] });
    }
    if str_eq(name, "woodland_mansion/2x2_a1") {
        return Some(TemplateContainerData { size: [15, 8, 15], chests: &[], markers: &[TemplateMarker { x: 12, y: 1, z: 3, metadata: "Warrior" }, TemplateMarker { x: 2, y: 2, z: 8, metadata: "Group of Allays" }, TemplateMarker { x: 4, y: 2, z: 2, metadata: "Group of Allays" }, TemplateMarker { x: 5, y: 2, z: 12, metadata: "Group of Allays" }, TemplateMarker { x: 12, y: 2, z: 12, metadata: "Group of Allays" }], randomizable_containers: &[] });
    }
    if str_eq(name, "woodland_mansion/2x2_a2") {
        return Some(TemplateContainerData { size: [15, 8, 15], chests: &[], markers: &[TemplateMarker { x: 9, y: 1, z: 2, metadata: "Warrior" }], randomizable_containers: &[TemplateBlockPos { x: 0, y: 2, z: 1 }, TemplateBlockPos { x: 0, y: 2, z: 2 }, TemplateBlockPos { x: 0, y: 2, z: 4 }, TemplateBlockPos { x: 0, y: 2, z: 5 }, TemplateBlockPos { x: 0, y: 2, z: 7 }, TemplateBlockPos { x: 0, y: 2, z: 8 }, TemplateBlockPos { x: 0, y: 2, z: 10 }, TemplateBlockPos { x: 0, y: 2, z: 11 }, TemplateBlockPos { x: 6, y: 2, z: 4 }, TemplateBlockPos { x: 6, y: 2, z: 5 }, TemplateBlockPos { x: 6, y: 2, z: 7 }, TemplateBlockPos { x: 6, y: 2, z: 8 }, TemplateBlockPos { x: 6, y: 2, z: 10 }, TemplateBlockPos { x: 6, y: 2, z: 11 }, TemplateBlockPos { x: 8, y: 2, z: 6 }, TemplateBlockPos { x: 8, y: 2, z: 7 }, TemplateBlockPos { x: 8, y: 2, z: 9 }, TemplateBlockPos { x: 8, y: 2, z: 10 }, TemplateBlockPos { x: 8, y: 2, z: 12 }, TemplateBlockPos { x: 8, y: 2, z: 13 }, TemplateBlockPos { x: 14, y: 2, z: 6 }, TemplateBlockPos { x: 14, y: 2, z: 7 }, TemplateBlockPos { x: 14, y: 2, z: 9 }, TemplateBlockPos { x: 14, y: 2, z: 10 }, TemplateBlockPos { x: 14, y: 2, z: 12 }, TemplateBlockPos { x: 14, y: 2, z: 13 }] });
    }
    if str_eq(name, "woodland_mansion/2x2_b1") {
        return Some(TemplateContainerData { size: [15, 11, 15], chests: &[], markers: &[TemplateMarker { x: 2, y: 1, z: 8, metadata: "Mage" }, TemplateMarker { x: 4, y: 1, z: 4, metadata: "Warrior" }, TemplateMarker { x: 8, y: 1, z: 9, metadata: "Warrior" }], randomizable_containers: &[] });
    }
    if str_eq(name, "woodland_mansion/2x2_b2") {
        return Some(TemplateContainerData { size: [15, 11, 15], chests: &[], markers: &[TemplateMarker { x: 2, y: 1, z: 7, metadata: "Mage" }, TemplateMarker { x: 9, y: 1, z: 8, metadata: "Warrior" }, TemplateMarker { x: 13, y: 1, z: 2, metadata: "Warrior" }], randomizable_containers: &[] });
    }
    if str_eq(name, "woodland_mansion/2x2_b4") {
        return Some(TemplateContainerData { size: [15, 11, 15], chests: &[], markers: &[TemplateMarker { x: 3, y: 1, z: 3, metadata: "Warrior" }, TemplateMarker { x: 3, y: 1, z: 8, metadata: "Mage" }, TemplateMarker { x: 4, y: 1, z: 11, metadata: "Warrior" }], randomizable_containers: &[] });
    }
    if str_eq(name, "woodland_mansion/2x2_b5") {
        return Some(TemplateContainerData { size: [15, 11, 15], chests: &[], markers: &[TemplateMarker { x: 7, y: 7, z: 0, metadata: "ChestSouth" }], randomizable_containers: &[] });
    }
    None
}

/// The container data of a template, looked up by its path; a `minecraft:`
/// namespace in front is ignored.
pub fn get_template_container_data(template_name: &str) -> (data: Option<TemplateContainerData>)
    ensures
        data == template_data_spec(without_prefix(template_name@, "minecraft:"@)),
{
    let name = strip_minecraft(template_name);
    let found = lookup_part_1(name);
    if found.is_some() {
        return found;
    }
    let found = lookup_part_2(name);
    if found.is_some() {
        return found;
    }
    let found = lookup_part_3(name);
    if found.is_some() {
        return found;
    }
    let found = lookup_part_4(name);
    if found.is_some() {
        return found;
    }
    let found = lookup_part_5(name);
    if found.is_some() {
        return found;
    }
    let found = lookup_part_6(name);
    if found.is_some() {
        return found;
    }
    let found = lookup_part_7(name);
    if found.is_some() {
        return found;
    }
    let found = lookup_part_8(name);
    if found.is_some() {
        return found;
    }
    None
}

} // verus!
