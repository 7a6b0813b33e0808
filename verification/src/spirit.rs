//! Socketed spirit bonuses.
//!
//! A socketed spirit descriptor reads `"<name> <tier>"`. The tier code maps
//! to a flat Attack/Defense/HP bonus; independently, each recognized spirit
//! name grants a special effect (a percent or flat bonus to one or more
//! stats), at a higher magnitude when the item's spirit affinity matches the
//! name and a lower one otherwise. Unrecognized names grant no special
//! effect; an unrecognized tier code is a fatal data error.

use vstd::prelude::*;
use crate::{StatTriple, lemma_affinity_boost_exact, spec_affinity_boost};
use crate::strutil::str_eq;

verus! {

/// The flat Attack/Defense/HP bonus (centi-units) of a spirit tier code, or
/// `None` for an unrecognized code.
pub open spec fn spec_spirit_tier_flat(tier: Seq<char>) -> Option<StatTriple> {
    if tier == "T4"@ {
        Some(StatTriple { atk: 1600, def: 1100, hp: 300 })
    } else if tier == "T5"@ {
        Some(StatTriple { atk: 2600, def: 1800, hp: 500 })
    } else if tier == "T7"@ {
        Some(StatTriple { atk: 4100, def: 2700, hp: 800 })
    } else if tier == "T9"@ {
        Some(StatTriple { atk: 4800, def: 3200, hp: 1000 })
    } else if tier == "TM"@ {
        Some(StatTriple { atk: 5000, def: 3300, hp: 1000 })
    } else if tier == "T11"@ {
        Some(StatTriple { atk: 6300, def: 4200, hp: 1300 })
    } else if tier == "T12"@ {
        Some(StatTriple { atk: 8900, def: 5900, hp: 1800 })
    } else {
        None
    }
}

/// Looks the flat bonus of a spirit tier code up.
pub fn spirit_tier_flat(tier: &str) -> (r: Option<StatTriple>)
    ensures
        r == spec_spirit_tier_flat(tier@),
{
    if str_eq(tier, "T4") {
        Some(StatTriple { atk: 1600, def: 1100, hp: 300 })
    } else if str_eq(tier, "T5") {
        Some(StatTriple { atk: 2600, def: 1800, hp: 500 })
    } else if str_eq(tier, "T7") {
        Some(StatTriple { atk: 4100, def: 2700, hp: 800 })
    } else if str_eq(tier, "T9") {
        Some(StatTriple { atk: 4800, def: 3200, hp: 1000 })
    } else if str_eq(tier, "TM") {
        Some(StatTriple { atk: 5000, def: 3300, hp: 1000 })
    } else if str_eq(tier, "T11") {
        Some(StatTriple { atk: 6300, def: 4200, hp: 1300 })
    } else if str_eq(tier, "T12") {
        Some(StatTriple { atk: 8900, def: 5900, hp: 1800 })
    } else {
        None
    }
}

/// Every spirit tier-bonus entry is positive, even (so the affinity
/// amplification is exact), and small.
pub proof fn lemma_spirit_tier_entries(tier: Seq<char>)
    ensures
        match spec_spirit_tier_flat(tier) {
            Some(t) => {
                &&& 0 < t.atk <= 8900 && t.atk % 2 == 0
                &&& 0 < t.def <= 5900 && t.def % 2 == 0
                &&& 0 < t.hp <= 1800 && t.hp % 2 == 0
            },
            None => true,
        },
{
}

/// Matching an item's spirit affinity amplifies the socketed spirit's flat
/// tier bonus by exactly three halves, strictly increasing every field
/// relative to the non-matching case, all else equal.
pub proof fn lemma_spirit_affinity_amplifies(tier: Seq<char>)
    ensures
        match spec_spirit_tier_flat(tier) {
            Some(t) => {
                let b = spec_affinity_boost(t);
                &&& 2 * b.atk == 3 * t.atk && b.atk > t.atk
                &&& 2 * b.def == 3 * t.def && b.def > t.def
                &&& 2 * b.hp == 3 * t.hp && b.hp > t.hp
            },
            None => true,
        },
{
    lemma_spirit_tier_entries(tier);
    match spec_spirit_tier_flat(tier) {
        Some(t) => {
            lemma_affinity_boost_exact(t);
        },
        None => {},
    }
}

/// The hero-wide special effect granted by named spirits. Percent fields are
/// in basis points, value fields in centi-units. Each slot's named spirit
/// sets its own fields, replacing whatever an earlier slot set; fields no
/// spirit names stay zero.
#[derive(Clone, Copy, Debug, PartialEq, Eq, Structural)]
pub struct SpiritSpecial {
    pub atk_value: u64,
    pub atk_percent: u64,
    pub def_value: u64,
    pub def_percent: u64,
    pub hp_value: u64,
    pub hp_percent: u64,
    pub eva_percent: u64,
    pub crit_dmg_percent: u64,
    pub crit_chance_percent: u64,
}

/// The all-zero special effect.
pub open spec fn spec_no_special() -> SpiritSpecial {
    SpiritSpecial {
        atk_value: 0,
        atk_percent: 0,
        def_value: 0,
        def_percent: 0,
        hp_value: 0,
        hp_percent: 0,
        eva_percent: 0,
        crit_dmg_percent: 0,
        crit_chance_percent: 0,
    }
}

/// Returns the all-zero special effect.
pub fn no_special() -> (r: SpiritSpecial)
    ensures
        r == spec_no_special(),
{
    SpiritSpecial {
        atk_value: 0,
        atk_percent: 0,
        def_value: 0,
        def_percent: 0,
        hp_value: 0,
        hp_percent: 0,
        eva_percent: 0,
        crit_dmg_percent: 0,
        crit_chance_percent: 0,
    }
}

/// Applies the special effect of one socketed spirit on top of `cur`:
/// a recognized name sets its fields (at the higher magnitude when
/// `matched`, the item's spirit affinity equals the name), an unrecognized
/// name leaves `cur` unchanged.
pub open spec fn spec_apply_spirit_special(
    cur: SpiritSpecial,
    name: Seq<char>,
    matched: bool,
) -> SpiritSpecial {
    if name == "Wolf"@ {
        SpiritSpecial { atk_percent: if matched { 1000 } else { 500 }, ..cur }
    } else if name == "Ram"@ {
        SpiritSpecial { def_percent: if matched { 1000 } else { 500 }, ..cur }
    } else if name == "Eagle"@ {
        SpiritSpecial { crit_chance_percent: if matched { 300 } else { 200 }, ..cur }
    } else if name == "Ox"@ {
        SpiritSpecial { hp_percent: if matched { 500 } else { 300 }, ..cur }
    } else if name == "Viper"@ {
        SpiritSpecial { crit_dmg_percent: if matched { 2000 } else { 1500 }, ..cur }
    } else if name == "Cat"@ {
        SpiritSpecial { eva_percent: if matched { 300 } else { 200 }, ..cur }
    } else if name == "Bear"@ {
        SpiritSpecial {
            atk_percent: if matched { 700 } else { 500 },
            hp_value: if matched { 2000 } else { 1500 },
            ..cur
        }
    } else if name == "Walrus"@ {
        SpiritSpecial { hp_percent: if matched { 800 } else { 500 }, ..cur }
    } else if name == "Mammoth"@ {
        SpiritSpecial { def_percent: if matched { 1300 } else { 1000 }, ..cur }
    } else if name == "Lion"@ {
        SpiritSpecial {
            atk_percent: if matched { 700 } else { 500 },
            eva_percent: if matched { 200 } else { 100 },
            ..cur
        }
    } else if name == "Tiger"@ {
        SpiritSpecial {
            def_percent: if matched { 700 } else { 500 },
            eva_percent: if matched { 200 } else { 100 },
            ..cur
        }
    } else if name == "Phoenix"@ {
        SpiritSpecial { hp_percent: if matched { 500 } else { 400 }, ..cur }
    } else if name == "Hydra"@ {
        SpiritSpecial {
            def_value: if matched { 12500 } else { 10000 },
            hp_value: if matched { 3500 } else { 2500 },
            ..cur
        }
    } else if name == "Tarrasque"@ {
        SpiritSpecial { def_percent: if matched { 2500 } else { 2000 }, ..cur }
    } else if name == "Carbuncle"@ {
        SpiritSpecial {
            crit_chance_percent: if matched { 300 } else { 200 },
            eva_percent: if matched { 300 } else { 200 },
            ..cur
        }
    } else if name == "Chimera"@ {
        SpiritSpecial {
            atk_percent: if matched { 1500 } else { 1000 },
            crit_dmg_percent: if matched { 1500 } else { 1000 },
            ..cur
        }
    } else if name == "Kraken"@ {
        SpiritSpecial {
            atk_value: if matched { 12500 } else { 10000 },
            atk_percent: if matched { 1500 } else { 1000 },
            ..cur
        }
    } else {
        cur
    }
}

/// Applies the special effect of one socketed spirit.
pub fn apply_spirit_special(cur: SpiritSpecial, name: &str, matched: bool) -> (r: SpiritSpecial)
    ensures
        r == spec_apply_spirit_special(cur, name@, matched),
{
    if str_eq(name, "Wolf") {
        SpiritSpecial { atk_percent: if matched { 1000 } else { 500 }, ..cur }
    } else if str_eq(name, "Ram") {
        SpiritSpecial { def_percent: if matched { 1000 } else { 500 }, ..cur }
    } else if str_eq(name, "Eagle") {
        SpiritSpecial { crit_chance_percent: if matched { 300 } else { 200 }, ..cur }
    } else if str_eq(name, "Ox") {
        SpiritSpecial { hp_percent: if matched { 500 } else { 300 }, ..cur }
    } else if str_eq(name, "Viper") {
        SpiritSpecial { crit_dmg_percent: if matched { 2000 } else { 1500 }, ..cur }
    } else if str_eq(name, "Cat") {
        SpiritSpecial { eva_percent: if matched { 300 } else { 200 }, ..cur }
    } else if str_eq(name, "Bear") {
        SpiritSpecial {
            atk_percent: if matched { 700 } else { 500 },
            hp_value: if matched { 2000 } else { 1500 },
            ..cur
        }
    } else if str_eq(name, "Walrus") {
        SpiritSpecial { hp_percent: if matched { 800 } else { 500 }, ..cur }
    } else if str_eq(name, "Mammoth") {
        SpiritSpecial { def_percent: if matched { 1300 } else { 1000 }, ..cur }
    } else if str_eq(name, "Lion") {
        SpiritSpecial {
            atk_percent: if matched { 700 } else { 500 },
            eva_percent: if matched { 200 } else { 100 },
            ..cur
        }
    } else if str_eq(name, "Tiger") {
        SpiritSpecial {
            def_percent: if matched { 700 } else { 500 },
            eva_percent: if matched { 200 } else { 100 },
            ..cur
        }
    } else if str_eq(name, "Phoenix") {
        SpiritSpecial { hp_percent: if matched { 500 } else { 400 }, ..cur }
    } else if str_eq(name, "Hydra") {
        SpiritSpecial {
            def_value: if matched { 12500 } else { 10000 },
            hp_value: if matched { 3500 } else { 2500 },
            ..cur
        }
    } else if str_eq(name, "Tarrasque") {
        SpiritSpecial { def_percent: if matched { 2500 } else { 2000 }, ..cur }
    } else if str_eq(name, "Carbuncle") {
        SpiritSpecial {
            crit_chance_percent: if matched { 300 } else { 200 },
            eva_percent: if matched { 300 } else { 200 },
            ..cur
        }
    } else if str_eq(name, "Chimera") {
        SpiritSpecial {
            atk_percent: if matched { 1500 } else { 1000 },
            crit_dmg_percent: if matched { 1500 } else { 1000 },
            ..cur
        }
    } else if str_eq(name, "Kraken") {
        SpiritSpecial {
            atk_value: if matched { 12500 } else { 10000 },
            atk_percent: if matched { 1500 } else { 1000 },
            ..cur
        }
    } else {
        cur
    }
}

/// Every field a spirit special effect can set stays within the table's own
/// bounds, provided the incoming state already does.
pub proof fn lemma_spirit_special_bounds(cur: SpiritSpecial, name: Seq<char>, matched: bool)
    requires
        cur.atk_value <= 12500,
        cur.atk_percent <= 2500,
        cur.def_value <= 12500,
        cur.def_percent <= 2500,
        cur.hp_value <= 3500,
        cur.hp_percent <= 2500,
        cur.eva_percent <= 2500,
        cur.crit_dmg_percent <= 2500,
        cur.crit_chance_percent <= 2500,
    ensures
        ({
            let r = spec_apply_spirit_special(cur, name, matched);
            &&& r.atk_value <= 12500
            &&& r.atk_percent <= 2500
            &&& r.def_value <= 12500
            &&& r.def_percent <= 2500
            &&& r.hp_value <= 3500
            &&& r.hp_percent <= 2500
            &&& r.eva_percent <= 2500
            &&& r.crit_dmg_percent <= 2500
            &&& r.crit_chance_percent <= 2500
        }),
{
}

} // verus!
