//! Equipment blueprints: static item definitions.

use vstd::prelude::*;
use crate::MAX_STAT_CENTI;
use crate::StatTriple;

verus! {

/// The static definition of an item: its category, base stat contributions
/// (centi-units), and its elemental and spirit affinities.
#[derive(Clone, Debug, PartialEq)]
pub struct Blueprint {
    pub item_type: String,
    pub atk: u64,
    pub def: u64,
    pub hp: u64,
    pub eva: u64,
    pub crit: u64,
    pub elemental_affinity: String,
    pub spirit_affinity: String,
}

impl Blueprint {
    /// Well-formed game data: every base stat within the representable range.
    pub open spec fn wf(&self) -> bool {
        &&& self.atk <= MAX_STAT_CENTI
        &&& self.def <= MAX_STAT_CENTI
        &&& self.hp <= MAX_STAT_CENTI
        &&& self.eva <= MAX_STAT_CENTI
        &&& self.crit <= MAX_STAT_CENTI
    }

    /// The item's base Attack/Defense/HP as a triple, for socket-bonus caps.
    pub open spec fn spec_base_triple(&self) -> StatTriple {
        StatTriple { atk: self.atk, def: self.def, hp: self.hp }
    }

    /// Returns the item's base Attack/Defense/HP triple.
    pub fn base_triple(&self) -> (r: StatTriple)
        ensures
            r == self.spec_base_triple(),
    {
        StatTriple { atk: self.atk, def: self.def, hp: self.hp }
    }
}

/// Builds a blueprint from its parts.
pub fn create_blueprint(
    item_type: String,
    atk: u64,
    def: u64,
    hp: u64,
    eva: u64,
    crit: u64,
    elemental_affinity: String,
    spirit_affinity: String,
) -> (r: Blueprint)
    requires
        atk <= MAX_STAT_CENTI,
        def <= MAX_STAT_CENTI,
        hp <= MAX_STAT_CENTI,
        eva <= MAX_STAT_CENTI,
        crit <= MAX_STAT_CENTI,
    ensures
        r.wf(),
        r.item_type == item_type,
        r.atk == atk,
        r.def == def,
        r.hp == hp,
        r.eva == eva,
        r.crit == crit,
        r.elemental_affinity == elemental_affinity,
        r.spirit_affinity == spirit_affinity,
{
    Blueprint { item_type, atk, def, hp, eva, crit, elemental_affinity, spirit_affinity }
}

} // verus!
