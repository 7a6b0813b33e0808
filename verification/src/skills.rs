//! Learned-skill and innate-skill definitions.

use vstd::prelude::*;
use crate::{MAX_ITEM_TYPES, MAX_PCT_BP, MAX_STAT_CENTI};

verus! {

/// The static definition of a learned skill: flat bonuses in centi-units,
/// percent bonuses in basis points, plus conditional bonuses gated on having
/// an item of a listed type equipped, and an "all equipment" percent applied
/// to every equipped item's contribution.
#[derive(Clone, Debug, PartialEq)]
pub struct HeroSkill {
    pub attack_percent: u64,
    pub attack_value: u64,
    pub hp_percent: u64,
    pub hp_value: u64,
    pub defense_percent: u64,
    pub evasion_percent: u64,
    pub crit_chance_percent: u64,
    pub crit_damage_percent: u64,
    pub rest_time_percent: u64,
    pub xp_percent: u64,
    pub survive_fatal_blow_chance_percent: u64,
    pub item_types: Vec<String>,
    pub attack_with_item_percent: u64,
    pub defense_with_item_percent: u64,
    pub bonus_stats_from_all_equipment_percent: u64,
}

impl HeroSkill {
    /// Well-formed game data: every bonus within the representable range.
    pub open spec fn wf(&self) -> bool {
        &&& self.attack_percent <= MAX_PCT_BP
        &&& self.attack_value <= MAX_STAT_CENTI
        &&& self.hp_percent <= MAX_PCT_BP
        &&& self.hp_value <= MAX_STAT_CENTI
        &&& self.defense_percent <= MAX_PCT_BP
        &&& self.evasion_percent <= MAX_PCT_BP
        &&& self.crit_chance_percent <= MAX_PCT_BP
        &&& self.crit_damage_percent <= MAX_PCT_BP
        &&& self.rest_time_percent <= MAX_PCT_BP
        &&& self.xp_percent <= MAX_PCT_BP
        &&& self.survive_fatal_blow_chance_percent <= MAX_PCT_BP
        &&& self.item_types@.len() <= MAX_ITEM_TYPES
        &&& self.attack_with_item_percent <= MAX_PCT_BP
        &&& self.defense_with_item_percent <= MAX_PCT_BP
        &&& self.bonus_stats_from_all_equipment_percent <= MAX_PCT_BP
    }
}

/// The static definition of a class's elemental specialization. Definitions
/// sharing a tier-1 family name form an ordered ladder: a hero unlocks the
/// highest tier whose investment requirement lies strictly below the hero's
/// elemental investment.
#[derive(Clone, Debug, PartialEq)]
pub struct InnateSkill {
    pub name: String,
    pub tier_1_name: String,
    pub element_qty_req: u16,
    pub skill_tier: u8,
}

} // verus!
