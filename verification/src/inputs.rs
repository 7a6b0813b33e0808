//! The raw-configuration form of a hero, as read back out of a resolved or
//! unresolved `Hero` for persistence by the caller.

use vstd::prelude::*;
use crate::hero_builder::Hero;

verus! {

/// A hero's raw configuration: everything a hero is built from, without the
/// derived modifier and innate-tier fields.
#[derive(Clone, Debug, PartialEq)]
pub struct HeroInput {
    pub identifier: String,
    pub class: String,
    pub level: u8,
    pub rank: u8,
    pub hp: u64,
    pub atk: u64,
    pub def: u64,
    pub eva: u64,
    pub crit_chance: u64,
    pub crit_mult: u64,
    pub threat_rating: u16,
    pub element_type: String,
    pub hp_seeds: u8,
    pub atk_seeds: u8,
    pub def_seeds: u8,
    pub skills: [String; 4],
    pub equipment_equipped: [String; 6],
    pub equipment_quality: [String; 6],
    pub elements_socketed: [String; 6],
    pub spirits_socketed: [String; 6],
}

/// Builds a hero input from its parts.
pub fn create_hero_input(
    identifier: String,
    class: String,
    level: u8,
    rank: u8,
    hp: u64,
    atk: u64,
    def: u64,
    eva: u64,
    crit_chance: u64,
    crit_mult: u64,
    threat_rating: u16,
    element_type: String,
    hp_seeds: u8,
    atk_seeds: u8,
    def_seeds: u8,
    skills: [String; 4],
    equipment_equipped: [String; 6],
    equipment_quality: [String; 6],
    elements_socketed: [String; 6],
    spirits_socketed: [String; 6],
) -> (r: HeroInput)
    ensures
        r == (HeroInput {
            identifier,
            class,
            level,
            rank,
            hp,
            atk,
            def,
            eva,
            crit_chance,
            crit_mult,
            threat_rating,
            element_type,
            hp_seeds,
            atk_seeds,
            def_seeds,
            skills,
            equipment_equipped,
            equipment_quality,
            elements_socketed,
            spirits_socketed,
        }),
{
    HeroInput {
        identifier,
        class,
        level,
        rank,
        hp,
        atk,
        def,
        eva,
        crit_chance,
        crit_mult,
        threat_rating,
        element_type,
        hp_seeds,
        atk_seeds,
        def_seeds,
        skills,
        equipment_equipped,
        equipment_quality,
        elements_socketed,
        spirits_socketed,
    }
}

impl Hero {
    /// Turns this hero back into its raw-configuration form, dropping the
    /// derived innate-tier and modifier fields.
    pub fn to_hero_input(self) -> (r: HeroInput)
        ensures
            r == (HeroInput {
                identifier: self.identifier,
                class: self.class,
                level: self.level,
                rank: self.rank,
                hp: self.hp,
                atk: self.atk,
                def: self.def,
                eva: self.eva,
                crit_chance: self.crit_chance,
                crit_mult: self.crit_mult,
                threat_rating: self.threat_rating,
                element_type: self.element_type,
                hp_seeds: self.hp_seeds,
                atk_seeds: self.atk_seeds,
                def_seeds: self.def_seeds,
                skills: self.skills,
                equipment_equipped: self.equipment_equipped,
                equipment_quality: self.equipment_quality,
                elements_socketed: self.elements_socketed,
                spirits_socketed: self.spirits_socketed,
            }),
    {
        create_hero_input(
            self.identifier,
            self.class,
            self.level,
            self.rank,
            self.hp,
            self.atk,
            self.def,
            self.eva,
            self.crit_chance,
            self.crit_mult,
            self.threat_rating,
            self.element_type,
            self.hp_seeds,
            self.atk_seeds,
            self.def_seeds,
            self.skills,
            self.equipment_equipped,
            self.equipment_quality,
            self.elements_socketed,
            self.spirits_socketed,
        )
    }
}

} // verus!
