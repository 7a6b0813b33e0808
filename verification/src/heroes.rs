//! The resolved-hero summary handed to the external trial executor.

use vstd::prelude::*;
use crate::errors::BuildError;
use crate::hero_builder::{Hero, spec_count_eq, spec_element_qty};

verus! {

/// A fully resolved hero as the trial executor consumes it: final stats,
/// elemental investment, and the counts of the five spirits the simulation
/// cares about.
#[derive(Clone, Debug, PartialEq)]
pub struct SimHero {
    pub identifier: String,
    pub class: String,
    pub level: u8,
    pub rank: u8,
    pub innate_tier: u8,
    pub hp: u64,
    pub atk: u64,
    pub def: u64,
    pub threat_rating: u16,
    pub crit_chance: u64,
    pub crit_mult: u64,
    pub eva: u64,
    pub element_qty: u16,
    pub element_type: String,
    pub armadillo_qty: u8,
    pub lizard_qty: u8,
    pub shark_qty: u8,
    pub dinosaur_qty: u8,
    pub mundra_qty: u8,
    pub atk_modifier: u64,
    pub def_modifier: u64,
}

/// Builds a trial-executor hero from its parts.
pub fn create_sim_hero(
    identifier: String,
    class: String,
    level: u8,
    rank: u8,
    innate_tier: u8,
    hp: u64,
    atk: u64,
    def: u64,
    threat_rating: u16,
    crit_chance: u64,
    crit_mult: u64,
    eva: u64,
    element_qty: u16,
    element_type: String,
    armadillo_qty: u8,
    lizard_qty: u8,
    shark_qty: u8,
    dinosaur_qty: u8,
    mundra_qty: u8,
    atk_modifier: u64,
    def_modifier: u64,
) -> (r: SimHero)
    ensures
        r == (SimHero {
            identifier,
            class,
            level,
            rank,
            innate_tier,
            hp,
            atk,
            def,
            threat_rating,
            crit_chance,
            crit_mult,
            eva,
            element_qty,
            element_type,
            armadillo_qty,
            lizard_qty,
            shark_qty,
            dinosaur_qty,
            mundra_qty,
            atk_modifier,
            def_modifier,
        }),
{
    SimHero {
        identifier,
        class,
        level,
        rank,
        innate_tier,
        hp,
        atk,
        def,
        threat_rating,
        crit_chance,
        crit_mult,
        eva,
        element_qty,
        element_type,
        armadillo_qty,
        lizard_qty,
        shark_qty,
        dinosaur_qty,
        mundra_qty,
        atk_modifier,
        def_modifier,
    }
}

impl Hero {
    /// Summarizes this hero for the trial executor: copies the resolved
    /// stats and derives the elemental investment and the counts of the
    /// five simulation-relevant spirits. Fails on a bad element descriptor.
    pub fn to_sim_hero(&self) -> (r: Result<SimHero, BuildError>)
        ensures
            match r {
                Ok(s) => {
                    &&& spec_element_qty(*self) == Ok::<int, BuildError>(s.element_qty as int)
                    &&& s.identifier == self.identifier
                    &&& s.class == self.class
                    &&& s.level == self.level
                    &&& s.rank == self.rank
                    &&& s.innate_tier == self.innate_tier
                    &&& s.hp == self.hp
                    &&& s.atk == self.atk
                    &&& s.def == self.def
                    &&& s.threat_rating == self.threat_rating
                    &&& s.crit_chance == self.crit_chance
                    &&& s.crit_mult == self.crit_mult
                    &&& s.eva == self.eva
                    &&& s.element_type == self.element_type
                    &&& s.armadillo_qty as int == spec_count_eq(
                        self.spirits_socketed@,
                        "Armadillo T7"@,
                    )
                    &&& s.lizard_qty as int == spec_count_eq(self.spirits_socketed@, "Lizard T7"@)
                    &&& s.shark_qty as int == spec_count_eq(self.spirits_socketed@, "Shark T9"@)
                    &&& s.dinosaur_qty as int == spec_count_eq(
                        self.spirits_socketed@,
                        "Dinosaur T9"@,
                    )
                    &&& s.mundra_qty as int == spec_count_eq(self.spirits_socketed@, "Mundra T10"@)
                    &&& s.atk_modifier == self.atk_modifier
                    &&& s.def_modifier == self.def_modifier
                },
                Err(e) => spec_element_qty(*self) == Err::<int, BuildError>(e),
            },
    {
        let element_qty = match self.calculate_element_qty() {
            Ok(q) => q,
            Err(e) => {
                return Err(e);
            },
        };
        let armadillo_qty = self.calculate_spirit_qty(String::from_str("Armadillo T7"));
        let lizard_qty = self.calculate_spirit_qty(String::from_str("Lizard T7"));
        let shark_qty = self.calculate_spirit_qty(String::from_str("Shark T9"));
        let dinosaur_qty = self.calculate_spirit_qty(String::from_str("Dinosaur T9"));
        let mundra_qty = self.calculate_spirit_qty(String::from_str("Mundra T10"));
        Ok(create_sim_hero(
            self.identifier.clone(),
            self.class.clone(),
            self.level,
            self.rank,
            self.innate_tier,
            self.hp,
            self.atk,
            self.def,
            self.threat_rating,
            self.crit_chance,
            self.crit_mult,
            self.eva,
            element_qty,
            self.element_type.clone(),
            armadillo_qty,
            lizard_qty,
            shark_qty,
            dinosaur_qty,
            mundra_qty,
            self.atk_modifier,
            self.def_modifier,
        ))
    }
}

} // verus!
