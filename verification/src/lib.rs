//! Hero attribute resolution and study runoff engine.
//!
//! Turns a hero's raw configuration (class, level, investment seeds, equipped
//! gear with quality and socketed element/spirit descriptors, learned skills)
//! plus static game-data tables into final combat statistics, and drives the
//! progressive-elimination ("runoff") protocol that ranks configuration
//! variations across encounter tiers.
//!
//! All stat values are fixed-point integers: stat amounts in hundredths of a
//! point ("centi"), percentage factors in basis points (10000 = 100%).

use vstd::prelude::*;

pub mod element;
pub mod equipment;
pub mod errors;
pub mod hero_builder;
pub mod heroes;
pub mod inputs;
pub mod skills;
pub mod quality;
pub mod resolve;
pub mod spirit;
pub mod strutil;
pub mod studies;
pub mod table;

verus! {

/// One basis point scale unit: 10000 basis points = a factor of 1.0 (100%).
pub const SCALE_BP: u64 = 10000;

/// Largest stat value (in centi-units) that well-formed game data may hold:
/// a million stat points. Keeps every product in the resolution pipeline
/// within `u64`.
pub const MAX_STAT_CENTI: u64 = 100_000_000;

/// Largest percent bonus (in basis points) that well-formed game data may
/// hold: a factor of ten.
pub const MAX_PCT_BP: u64 = 100_000;

/// Largest number of item-type entries a single skill may list.
pub const MAX_ITEM_TYPES: usize = 8;

/// A flat Attack/Defense/HP bonus, in centi-units.
#[derive(Clone, Copy, Debug, PartialEq, Eq, Structural)]
pub struct StatTriple {
    pub atk: u64,
    pub def: u64,
    pub hp: u64,
}

/// An affinity match amplifies a flat bonus by exactly one and a half.
/// Table entries are even, so the halving below is exact.
pub open spec fn spec_affinity_boost(t: StatTriple) -> StatTriple {
    StatTriple { atk: (t.atk * 3 / 2) as u64, def: (t.def * 3 / 2) as u64, hp: (t.hp * 3 / 2) as u64 }
}

/// Amplifies a flat bonus triple by one and a half, flooring each field.
pub fn affinity_boost(t: StatTriple) -> (r: StatTriple)
    requires
        t.atk * 3 <= u64::MAX,
        t.def * 3 <= u64::MAX,
        t.hp * 3 <= u64::MAX,
    ensures
        r == spec_affinity_boost(t),
{
    StatTriple { atk: t.atk * 3 / 2, def: t.def * 3 / 2, hp: t.hp * 3 / 2 }
}

/// On even fields the amplification is exactly a three-halves ratio, and it
/// strictly increases every positive field.
pub proof fn lemma_affinity_boost_exact(t: StatTriple)
    requires
        t.atk % 2 == 0,
        t.def % 2 == 0,
        t.hp % 2 == 0,
        t.atk * 3 <= u64::MAX,
        t.def * 3 <= u64::MAX,
        t.hp * 3 <= u64::MAX,
    ensures
        2 * spec_affinity_boost(t).atk == 3 * t.atk,
        2 * spec_affinity_boost(t).def == 3 * t.def,
        2 * spec_affinity_boost(t).hp == 3 * t.hp,
        t.atk > 0 ==> spec_affinity_boost(t).atk > t.atk,
        t.def > 0 ==> spec_affinity_boost(t).def > t.def,
        t.hp > 0 ==> spec_affinity_boost(t).hp > t.hp,
{
}

/// Caps a flat socket bonus at the item's own base value in each dimension:
/// a socket can never grant more than the item's base stat.
pub open spec fn spec_cap_at_base(bonus: StatTriple, base: StatTriple) -> StatTriple {
    StatTriple {
        atk: if bonus.atk <= base.atk {
            bonus.atk
        } else {
            base.atk
        },
        def: if bonus.def <= base.def {
            bonus.def
        } else {
            base.def
        },
        hp: if bonus.hp <= base.hp {
            bonus.hp
        } else {
            base.hp
        },
    }
}

/// Caps each field of a flat socket bonus at the item's base value.
pub fn cap_at_base(bonus: StatTriple, base: StatTriple) -> (r: StatTriple)
    ensures
        r == spec_cap_at_base(bonus, base),
{
    StatTriple {
        atk: if bonus.atk <= base.atk {
            bonus.atk
        } else {
            base.atk
        },
        def: if bonus.def <= base.def {
            bonus.def
        } else {
            base.def
        },
        hp: if bonus.hp <= base.hp {
            bonus.hp
        } else {
            base.hp
        },
    }
}

/// A capped socket bonus never exceeds the item's own base stat in any
/// dimension.
pub proof fn lemma_cap_at_base_bounded(bonus: StatTriple, base: StatTriple)
    ensures
        spec_cap_at_base(bonus, base).atk <= base.atk,
        spec_cap_at_base(bonus, base).def <= base.def,
        spec_cap_at_base(bonus, base).hp <= base.hp,
        spec_cap_at_base(bonus, base).atk <= bonus.atk,
        spec_cap_at_base(bonus, base).def <= bonus.def,
        spec_cap_at_base(bonus, base).hp <= bonus.hp,
{
}

} // verus!
