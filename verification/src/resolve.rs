//! The gear-and-skill stage of attribute resolution: per-slot bonus
//! calculation, hero-wide skill aggregation, the class conditional bonus,
//! and the final Attack and Defense composition.

use vstd::prelude::*;
use crate::MAX_PCT_BP;
use crate::MAX_STAT_CENTI;
use crate::{StatTriple, affinity_boost, cap_at_base, spec_affinity_boost, spec_cap_at_base};
use crate::element::{element_flat, spec_element_flat, spec_grade_points};
use crate::equipment::Blueprint;
use crate::errors::BuildError;
use crate::hero_builder::{Hero, spec_count_eq, spec_element_qty, spec_element_qty_from};
use crate::quality::{parse_quality, quality_multiplier_bp, spec_parse_quality,
    spec_quality_multiplier_bp};
use crate::skills::HeroSkill;
use crate::spirit::{SpiritSpecial, apply_spirit_special, lemma_spirit_special_bounds, no_special,
    spec_apply_spirit_special, spec_no_special, spec_spirit_tier_flat, spirit_tier_flat};
use crate::strutil::{descriptor_grade, descriptor_name, descriptor_wf, split_descriptor, str_eq};
use crate::table::{Table, spec_lookup};

verus! {

/// Largest per-slot bonus value (centi-units) the pipeline can produce from
/// well-formed data.
pub const SLOT_BONUS_MAX: u64 = 180_500_000_000;

/// Every skill a well-formed skill table holds is itself well formed.
pub open spec fn skill_table_wf(t: &Table<HeroSkill>) -> bool {
    forall|i: int| 0 <= i < t.entries@.len() ==> (#[trigger] t.entries@[i].1).wf()
}

/// A lookup in a well-formed skill table yields a well-formed skill.
pub proof fn lemma_skill_lookup_wf(entries: Seq<(String, HeroSkill)>, key: Seq<char>)
    requires
        forall|i: int| 0 <= i < entries.len() ==> (#[trigger] entries[i].1).wf(),
    ensures
        match spec_lookup(entries, key) {
            Some(sk) => sk.wf(),
            None => true,
        },
    decreases entries.len(),
{
    if entries.len() > 0 && entries[0].0@ != key {
        lemma_skill_lookup_wf(entries.drop_first(), key);
    }
}

/// Checks the learned-skill names from index `k` on against the skill table,
/// reporting the earliest missing one.
pub open spec fn spec_check_skills(
    entries: Seq<(String, HeroSkill)>,
    names: Seq<String>,
    k: int,
) -> Result<(), BuildError>
    decreases names.len() - k,
{
    if k < 0 || k >= names.len() {
        Ok(())
    } else if spec_lookup(entries, names[k]@) is None {
        Err(BuildError::UnknownSkill { index: k as usize })
    } else {
        spec_check_skills(entries, names, k + 1)
    }
}

/// The skills the table holds for `names`, position by position. Meaningful
/// once `spec_check_skills` passed.
pub open spec fn spec_skills_of(
    entries: Seq<(String, HeroSkill)>,
    names: Seq<String>,
) -> Seq<HeroSkill> {
    Seq::new(names.len(), |i: int| spec_lookup(entries, names[i]@)->Some_0)
}

/// Hero-wide totals over the four learned skills: flat bonuses in
/// centi-units, percent bonuses in basis points, plus the "all equipment"
/// percent every equipped item's contribution is scaled by.
#[derive(Clone, Copy, Debug, PartialEq, Eq, Structural)]
pub struct SkillTotals {
    pub atk_pct: u64,
    pub atk_val: u64,
    pub hp_pct: u64,
    pub hp_val: u64,
    pub def_pct: u64,
    pub eva_pct: u64,
    pub crit_chance_pct: u64,
    pub crit_dmg_pct: u64,
    pub rest_pct: u64,
    pub xp_pct: u64,
    pub survive_pct: u64,
    pub all_equip_pct: u64,
}

/// The all-zero skill totals.
pub open spec fn spec_zero_totals() -> SkillTotals {
    SkillTotals {
        atk_pct: 0,
        atk_val: 0,
        hp_pct: 0,
        hp_val: 0,
        def_pct: 0,
        eva_pct: 0,
        crit_chance_pct: 0,
        crit_dmg_pct: 0,
        rest_pct: 0,
        xp_pct: 0,
        survive_pct: 0,
        all_equip_pct: 0,
    }
}

/// Adds one skill's hero-wide bonuses onto running totals.
pub open spec fn spec_add_skill(t: SkillTotals, sk: HeroSkill) -> SkillTotals {
    SkillTotals {
        atk_pct: (t.atk_pct + sk.attack_percent) as u64,
        atk_val: (t.atk_val + sk.attack_value) as u64,
        hp_pct: (t.hp_pct + sk.hp_percent) as u64,
        hp_val: (t.hp_val + sk.hp_value) as u64,
        def_pct: (t.def_pct + sk.defense_percent) as u64,
        eva_pct: (t.eva_pct + sk.evasion_percent) as u64,
        crit_chance_pct: (t.crit_chance_pct + sk.crit_chance_percent) as u64,
        crit_dmg_pct: (t.crit_dmg_pct + sk.crit_damage_percent) as u64,
        rest_pct: (t.rest_pct + sk.rest_time_percent) as u64,
        xp_pct: (t.xp_pct + sk.xp_percent) as u64,
        survive_pct: (t.survive_pct + sk.survive_fatal_blow_chance_percent) as u64,
        all_equip_pct: (t.all_equip_pct + sk.bonus_stats_from_all_equipment_percent) as u64,
    }
}

/// The totals a sequence of skills sums to: flat and percent contributions
/// to every stat, summed across the skills.
pub open spec fn spec_skill_totals(s: Seq<HeroSkill>) -> SkillTotals
    decreases s.len(),
{
    if s.len() == 0 {
        spec_zero_totals()
    } else {
        spec_add_skill(spec_skill_totals(s.drop_last()), s.last())
    }
}

/// True when every field of `t` is at most `n` well-formed skills' worth.
pub open spec fn spec_totals_bounded(t: SkillTotals, n: int) -> bool {
    &&& t.atk_pct <= n * MAX_PCT_BP
    &&& t.atk_val <= n * MAX_STAT_CENTI
    &&& t.hp_pct <= n * MAX_PCT_BP
    &&& t.hp_val <= n * MAX_STAT_CENTI
    &&& t.def_pct <= n * MAX_PCT_BP
    &&& t.eva_pct <= n * MAX_PCT_BP
    &&& t.crit_chance_pct <= n * MAX_PCT_BP
    &&& t.crit_dmg_pct <= n * MAX_PCT_BP
    &&& t.rest_pct <= n * MAX_PCT_BP
    &&& t.xp_pct <= n * MAX_PCT_BP
    &&& t.survive_pct <= n * MAX_PCT_BP
    &&& t.all_equip_pct <= n * MAX_PCT_BP
}

/// Sums the hero-wide bonuses of the named skills, reporting the earliest
/// missing skill.
pub fn skill_totals(skill_map: &Table<HeroSkill>, names: &[String; 4]) -> (r: Result<
    SkillTotals,
    BuildError,
>)
    requires
        skill_table_wf(skill_map),
    ensures
        match spec_check_skills(skill_map.entries@, names@, 0) {
            Err(e) => r == Err::<SkillTotals, BuildError>(e),
            Ok(u) => {
                let t = spec_skill_totals(spec_skills_of(skill_map.entries@, names@));
                &&& r == Ok::<SkillTotals, BuildError>(t)
                &&& spec_totals_bounded(t, 4)
            },
        },
{
    let ghost sks = spec_skills_of(skill_map.entries@, names@);
    let mut acc = SkillTotals {
        atk_pct: 0,
        atk_val: 0,
        hp_pct: 0,
        hp_val: 0,
        def_pct: 0,
        eva_pct: 0,
        crit_chance_pct: 0,
        crit_dmg_pct: 0,
        rest_pct: 0,
        xp_pct: 0,
        survive_pct: 0,
        all_equip_pct: 0,
    };
    let mut k: usize = 0;
    proof {
        assert(sks.take(0) =~= Seq::<HeroSkill>::empty());
    }
    while k < 4
        invariant
            k <= 4,
            skill_table_wf(skill_map),
            sks == spec_skills_of(skill_map.entries@, names@),
            spec_check_skills(skill_map.entries@, names@, k as int) is Ok ==> spec_check_skills(
                skill_map.entries@,
                names@,
                0,
            ) is Ok,
            forall|e: BuildError|
                spec_check_skills(skill_map.entries@, names@, k as int) == Err::<(), BuildError>(e)
                    ==> spec_check_skills(skill_map.entries@, names@, 0) == Err::<(), BuildError>(
                    e,
                ),
            acc == spec_skill_totals(sks.take(k as int)),
            spec_totals_bounded(acc, k as int),
        decreases 4 - k,
    {
        let sk = match skill_map.get(names[k].as_str()) {
            Some(sk) => sk,
            None => {
                return Err(BuildError::UnknownSkill { index: k });
            },
        };
        proof {
            lemma_skill_lookup_wf(skill_map.entries@, names@[k as int]@);
            assert(sks[k as int] == *sk);
            assert(sks.take(k as int + 1).drop_last() =~= sks.take(k as int));
            assert(sks.take(k as int + 1).last() == sks[k as int]);
        }
        acc = SkillTotals {
            atk_pct: acc.atk_pct + sk.attack_percent,
            atk_val: acc.atk_val + sk.attack_value,
            hp_pct: acc.hp_pct + sk.hp_percent,
            hp_val: acc.hp_val + sk.hp_value,
            def_pct: acc.def_pct + sk.defense_percent,
            eva_pct: acc.eva_pct + sk.evasion_percent,
            crit_chance_pct: acc.crit_chance_pct + sk.crit_chance_percent,
            crit_dmg_pct: acc.crit_dmg_pct + sk.crit_damage_percent,
            rest_pct: acc.rest_pct + sk.rest_time_percent,
            xp_pct: acc.xp_pct + sk.xp_percent,
            survive_pct: acc.survive_pct + sk.survive_fatal_blow_chance_percent,
            all_equip_pct: acc.all_equip_pct + sk.bonus_stats_from_all_equipment_percent,
        };
        k += 1;
    }
    proof {
        assert(sks.take(4) =~= sks);
    }
    Ok(acc)
}

/// Item-type-conditional skill percents for one equipped item: each skill
/// adds its with-item Attack and Defense percent once per listing of the
/// item's type.
#[derive(Clone, Copy, Debug, PartialEq, Eq, Structural)]
pub struct ItemPcts {
    pub atk: u64,
    pub def: u64,
}

/// The with-item percents a sequence of skills grants for item type `t`.
pub open spec fn spec_item_pcts(s: Seq<HeroSkill>, t: Seq<char>) -> ItemPcts
    decreases s.len(),
{
    if s.len() == 0 {
        ItemPcts { atk: 0, def: 0 }
    } else {
        let p = spec_item_pcts(s.drop_last(), t);
        let sk = s.last();
        let cnt = spec_count_eq(sk.item_types@, t);
        ItemPcts {
            atk: (p.atk + sk.attack_with_item_percent * cnt) as u64,
            def: (p.def + sk.defense_with_item_percent * cnt) as u64,
        }
    }
}

/// Sums the with-item percents of the named skills for item type `t`,
/// reporting the earliest missing skill.
pub fn item_pcts(skill_map: &Table<HeroSkill>, names: &[String; 4], t: &str) -> (r: Result<
    ItemPcts,
    BuildError,
>)
    requires
        skill_table_wf(skill_map),
    ensures
        match spec_check_skills(skill_map.entries@, names@, 0) {
            Err(e) => r == Err::<ItemPcts, BuildError>(e),
            Ok(u) => {
                let p = spec_item_pcts(spec_skills_of(skill_map.entries@, names@), t@);
                &&& r == Ok::<ItemPcts, BuildError>(p)
                &&& p.atk <= 4 * 8 * MAX_PCT_BP
                &&& p.def <= 4 * 8 * MAX_PCT_BP
            },
        },
{
    let ghost sks = spec_skills_of(skill_map.entries@, names@);
    let mut acc = ItemPcts { atk: 0, def: 0 };
    let mut k: usize = 0;
    proof {
        assert(sks.take(0) =~= Seq::<HeroSkill>::empty());
    }
    while k < 4
        invariant
            k <= 4,
            skill_table_wf(skill_map),
            sks == spec_skills_of(skill_map.entries@, names@),
            spec_check_skills(skill_map.entries@, names@, k as int) is Ok ==> spec_check_skills(
                skill_map.entries@,
                names@,
                0,
            ) is Ok,
            forall|e: BuildError|
                spec_check_skills(skill_map.entries@, names@, k as int) == Err::<(), BuildError>(e)
                    ==> spec_check_skills(skill_map.entries@, names@, 0) == Err::<(), BuildError>(
                    e,
                ),
            acc == spec_item_pcts(sks.take(k as int), t@),
            acc.atk <= k * (8 * MAX_PCT_BP),
            acc.def <= k * (8 * MAX_PCT_BP),
        decreases 4 - k,
    {
        let sk = match skill_map.get(names[k].as_str()) {
            Some(sk) => sk,
            None => {
                return Err(BuildError::UnknownSkill { index: k });
            },
        };
        proof {
            lemma_skill_lookup_wf(skill_map.entries@, names@[k as int]@);
            assert(sks[k as int] == *sk);
            assert(sks.take(k as int + 1).drop_last() =~= sks.take(k as int));
            assert(sks.take(k as int + 1).last() == sks[k as int]);
        }
        let n_types = sk.item_types.len();
        let mut cnt: u64 = 0;
        let mut j: usize = 0;
        proof {
            assert(sk.item_types@.skip(0) =~= sk.item_types@);
            crate::hero_builder::lemma_count_eq_bound(sk.item_types@, t@);
        }
        while j < n_types
            invariant
                j <= n_types,
                n_types == sk.item_types@.len(),
                n_types <= 8,
                cnt <= j,
                sk.wf(),
                spec_count_eq(sk.item_types@, t@) == cnt + spec_count_eq(
                    sk.item_types@.skip(j as int),
                    t@,
                ),
            decreases n_types - j,
        {
            proof {
                assert(sk.item_types@.skip(j as int)[0] == sk.item_types@[j as int]);
                assert(sk.item_types@.skip(j as int).drop_first() =~= sk.item_types@.skip(
                    j as int + 1,
                ));
                crate::hero_builder::lemma_count_eq_bound(
                    sk.item_types@.skip(j as int + 1),
                    t@,
                );
            }
            if str_eq(sk.item_types[j].as_str(), t) {
                cnt = cnt + 1;
            }
            j += 1;
        }
        proof {
            assert(sk.item_types@.skip(n_types as int) =~= Seq::<String>::empty());
            assert(cnt == spec_count_eq(sk.item_types@, t@));
            assert(cnt <= 8);
            assert(sk.attack_with_item_percent <= MAX_PCT_BP);
            assert(sk.defense_with_item_percent <= MAX_PCT_BP);
            assert(acc.atk <= 24 * MAX_PCT_BP) by (nonlinear_arith)
                requires
                    acc.atk <= k * (8 * MAX_PCT_BP),
                    k < 4,
            ;
            assert(acc.def <= 24 * MAX_PCT_BP) by (nonlinear_arith)
                requires
                    acc.def <= k * (8 * MAX_PCT_BP),
                    k < 4,
            ;
            assert((k + 1) * (8 * MAX_PCT_BP) == k * (8 * MAX_PCT_BP) + 8 * MAX_PCT_BP)
                by (nonlinear_arith);
            assert(sk.attack_with_item_percent * cnt <= 8 * MAX_PCT_BP) by (nonlinear_arith)
                requires
                    cnt <= 8,
                    sk.attack_with_item_percent <= MAX_PCT_BP,
            ;
            assert(sk.defense_with_item_percent * cnt <= 8 * MAX_PCT_BP) by (nonlinear_arith)
                requires
                    cnt <= 8,
                    sk.defense_with_item_percent <= MAX_PCT_BP,
            ;
        }
        acc = ItemPcts {
            atk: acc.atk + sk.attack_with_item_percent * cnt,
            def: acc.def + sk.defense_with_item_percent * cnt,
        };
        k += 1;
    }
    proof {
        assert(sks.take(4) =~= sks);
    }
    Ok(acc)
}

/// Every blueprint a well-formed blueprint table holds is itself well
/// formed.
pub open spec fn bp_table_wf(t: &Table<Blueprint>) -> bool {
    forall|i: int| 0 <= i < t.entries@.len() ==> (#[trigger] t.entries@[i].1).wf()
}

/// A lookup in a well-formed blueprint table yields a well-formed blueprint.
pub proof fn lemma_bp_lookup_wf(entries: Seq<(String, Blueprint)>, key: Seq<char>)
    requires
        forall|i: int| 0 <= i < entries.len() ==> (#[trigger] entries[i].1).wf(),
    ensures
        match spec_lookup(entries, key) {
            Some(bp) => bp.wf(),
            None => true,
        },
    decreases entries.len(),
{
    if entries.len() > 0 && entries[0].0@ != key {
        lemma_bp_lookup_wf(entries.drop_first(), key);
    }
}

/// Checks the equipped-item names from slot `i` on against the blueprint
/// table, reporting the earliest missing one.
pub open spec fn spec_check_items(
    entries: Seq<(String, Blueprint)>,
    equips: Seq<String>,
    i: int,
) -> Result<(), BuildError>
    decreases equips.len() - i,
{
    if i < 0 || i >= equips.len() {
        Ok(())
    } else if spec_lookup(entries, equips[i]@) is None {
        Err(BuildError::UnknownItem { slot: i as usize })
    } else {
        spec_check_items(entries, equips, i + 1)
    }
}

/// The blueprints the table holds for `equips`, slot by slot. Meaningful
/// once `spec_check_items` passed.
pub open spec fn spec_bps_of(
    entries: Seq<(String, Blueprint)>,
    equips: Seq<String>,
) -> Seq<Blueprint> {
    Seq::new(equips.len(), |i: int| spec_lookup(entries, equips[i]@)->Some_0)
}

/// The fully resolved bonus one equipment slot contributes, in centi-units,
/// together with the spirit special effect after this slot.
#[derive(Clone, Copy, Debug, PartialEq, Eq, Structural)]
pub struct SlotBonus {
    pub atk: u64,
    pub def: u64,
    pub hp: u64,
    pub eva: u64,
    pub crit: u64,
    pub special: SpiritSpecial,
}

/// Resolves one equipment slot: quality multiplier on the item's base
/// stats, capped element and spirit socket bonuses (amplified by one and a
/// half on an affinity match), the slot's skill percents, and the spirit
/// special effect applied on top of `special_in`. Fails on an unknown
/// quality code, a malformed or out-of-range element descriptor, or a
/// malformed or unknown-tier spirit descriptor.
pub open spec fn spec_slot_bonus(
    h: Hero,
    bp: Blueprint,
    all_pct: u64,
    atk_pct: u64,
    def_pct: u64,
    slot: int,
    special_in: SpiritSpecial,
) -> Result<SlotBonus, BuildError> {
    match spec_parse_quality(h.equipment_quality@[slot]@) {
        None => Err(BuildError::UnknownQuality { slot: slot as usize }),
        Some(q) => {
            let qmult = spec_quality_multiplier_bp(q);
            let ed = h.elements_socketed@[slot]@;
            if !descriptor_wf(ed) {
                Err(BuildError::MalformedElement { slot: slot as usize })
            } else {
                match spec_element_flat(descriptor_name(ed), descriptor_grade(ed)) {
                    None => Err(BuildError::UnknownElementGrade { slot: slot as usize }),
                    Some(eflat) => {
                        let eboost = if descriptor_name(ed) == bp.elemental_affinity@ {
                            spec_affinity_boost(eflat)
                        } else {
                            eflat
                        };
                        let ecap = spec_cap_at_base(eboost, bp.spec_base_triple());
                        let sd = h.spirits_socketed@[slot]@;
                        if !descriptor_wf(sd) {
                            Err(BuildError::MalformedSpirit { slot: slot as usize })
                        } else {
                            match spec_spirit_tier_flat(descriptor_grade(sd)) {
                                None => Err(BuildError::UnknownSpiritTier { slot: slot as usize }),
                                Some(sflat) => {
                                    let sname = descriptor_name(sd);
                                    let matched = bp.spirit_affinity@ == sname;
                                    let sboost = if matched {
                                        spec_affinity_boost(sflat)
                                    } else {
                                        sflat
                                    };
                                    let scap = spec_cap_at_base(sboost, bp.spec_base_triple());
                                    let am = 10000 + atk_pct + all_pct;
                                    let dm = 10000 + def_pct + all_pct;
                                    let hm = 10000 + all_pct;
                                    Ok(SlotBonus {
                                        atk: ((bp.atk * qmult / 10000 + ecap.atk + scap.atk) * am
                                            / 10000) as u64,
                                        def: ((bp.def * qmult / 10000 + ecap.def + scap.def) * dm
                                            / 10000) as u64,
                                        hp: ((bp.hp * qmult / 10000 + ecap.hp + scap.hp) * hm
                                            / 10000) as u64,
                                        eva: (bp.eva * hm / 10000) as u64,
                                        crit: (bp.crit * hm / 10000) as u64,
                                        special: spec_apply_spirit_special(
                                            special_in,
                                            sname,
                                            matched,
                                        ),
                                    })
                                },
                            }
                        }
                    },
                }
            }
        },
    }
}

/// True when a spirit special effect's fields are within the tables' own
/// bounds.
pub open spec fn spec_special_bounded(s: SpiritSpecial) -> bool {
    &&& s.atk_value <= 12500
    &&& s.atk_percent <= 2500
    &&& s.def_value <= 12500
    &&& s.def_percent <= 2500
    &&& s.hp_value <= 3500
    &&& s.hp_percent <= 2500
    &&& s.eva_percent <= 2500
    &&& s.crit_dmg_percent <= 2500
    &&& s.crit_chance_percent <= 2500
}

/// Resolves one equipment slot.
pub fn resolve_slot(
    h: &Hero,
    bp: &Blueprint,
    all_pct: u64,
    atk_pct: u64,
    def_pct: u64,
    slot: usize,
    special_in: SpiritSpecial,
) -> (r: Result<SlotBonus, BuildError>)
    requires
        bp.wf(),
        all_pct <= 4 * MAX_PCT_BP,
        atk_pct <= 32 * MAX_PCT_BP,
        def_pct <= 32 * MAX_PCT_BP,
        slot < 6,
        spec_special_bounded(special_in),
    ensures
        r == spec_slot_bonus(*h, *bp, all_pct, atk_pct, def_pct, slot as int, special_in),
        match r {
            Ok(sb) => {
                &&& sb.atk <= SLOT_BONUS_MAX
                &&& sb.def <= SLOT_BONUS_MAX
                &&& sb.hp <= SLOT_BONUS_MAX
                &&& sb.eva <= SLOT_BONUS_MAX
                &&& sb.crit <= SLOT_BONUS_MAX
                &&& spec_special_bounded(sb.special)
            },
            Err(_) => true,
        },
{
    let q = match parse_quality(h.equipment_quality[slot].as_str()) {
        Some(q) => q,
        None => {
            return Err(BuildError::UnknownQuality { slot });
        },
    };
    let qmult = quality_multiplier_bp(q);
    let (ename, egrade) = match split_descriptor(h.elements_socketed[slot].as_str()) {
        Some(parts) => parts,
        None => {
            return Err(BuildError::MalformedElement { slot });
        },
    };
    let eflat = match element_flat(ename.as_str(), egrade.as_str()) {
        Some(t) => t,
        None => {
            return Err(BuildError::UnknownElementGrade { slot });
        },
    };
    proof {
        crate::element::lemma_element_flat_entries(ename@, egrade@);
    }
    let eboost = if str_eq(ename.as_str(), bp.elemental_affinity.as_str()) {
        affinity_boost(eflat)
    } else {
        eflat
    };
    let ecap = cap_at_base(eboost, bp.base_triple());
    let (sname, stier) = match split_descriptor(h.spirits_socketed[slot].as_str()) {
        Some(parts) => parts,
        None => {
            return Err(BuildError::MalformedSpirit { slot });
        },
    };
    let sflat = match spirit_tier_flat(stier.as_str()) {
        Some(t) => t,
        None => {
            return Err(BuildError::UnknownSpiritTier { slot });
        },
    };
    proof {
        crate::spirit::lemma_spirit_tier_entries(stier@);
    }
    let matched = str_eq(bp.spirit_affinity.as_str(), sname.as_str());
    let sboost = if matched {
        affinity_boost(sflat)
    } else {
        sflat
    };
    let scap = cap_at_base(sboost, bp.base_triple());
    let am: u64 = 10000 + atk_pct + all_pct;
    let dm: u64 = 10000 + def_pct + all_pct;
    let hm: u64 = 10000 + all_pct;
    proof {
        assert(qmult <= 30000);
        assert(bp.atk * qmult <= MAX_STAT_CENTI * 30000) by (nonlinear_arith)
            requires
                bp.atk <= MAX_STAT_CENTI,
                qmult <= 30000,
        ;
        assert(bp.def * qmult <= MAX_STAT_CENTI * 30000) by (nonlinear_arith)
            requires
                bp.def <= MAX_STAT_CENTI,
                qmult <= 30000,
        ;
        assert(bp.hp * qmult <= MAX_STAT_CENTI * 30000) by (nonlinear_arith)
            requires
                bp.hp <= MAX_STAT_CENTI,
                qmult <= 30000,
        ;
    }
    let atk_base: u64 = bp.atk * qmult / 10000 + ecap.atk + scap.atk;
    let def_base: u64 = bp.def * qmult / 10000 + ecap.def + scap.def;
    let hp_base: u64 = bp.hp * qmult / 10000 + ecap.hp + scap.hp;
    proof {
        assert(atk_base <= 5 * MAX_STAT_CENTI);
        assert(def_base <= 5 * MAX_STAT_CENTI);
        assert(hp_base <= 5 * MAX_STAT_CENTI);
        assert(am <= 10000 + 36 * MAX_PCT_BP);
        assert(atk_base * am <= (5 * MAX_STAT_CENTI) * (10000 + 36 * MAX_PCT_BP))
            by (nonlinear_arith)
            requires
                atk_base <= 5 * MAX_STAT_CENTI,
                am <= 10000 + 36 * MAX_PCT_BP,
        ;
        assert(def_base * dm <= (5 * MAX_STAT_CENTI) * (10000 + 36 * MAX_PCT_BP))
            by (nonlinear_arith)
            requires
                def_base <= 5 * MAX_STAT_CENTI,
                dm <= 10000 + 36 * MAX_PCT_BP,
        ;
        assert(hp_base * hm <= (5 * MAX_STAT_CENTI) * (10000 + 36 * MAX_PCT_BP))
            by (nonlinear_arith)
            requires
                hp_base <= 5 * MAX_STAT_CENTI,
                hm <= 10000 + 36 * MAX_PCT_BP,
        ;
        assert(bp.eva * hm <= MAX_STAT_CENTI * (10000 + 36 * MAX_PCT_BP)) by (nonlinear_arith)
            requires
                bp.eva <= MAX_STAT_CENTI,
                hm <= 10000 + 36 * MAX_PCT_BP,
        ;
        assert(bp.crit * hm <= MAX_STAT_CENTI * (10000 + 36 * MAX_PCT_BP)) by (nonlinear_arith)
            requires
                bp.crit <= MAX_STAT_CENTI,
                hm <= 10000 + 36 * MAX_PCT_BP,
        ;
        lemma_spirit_special_bounds(special_in, sname@, matched);
    }
    let sb = SlotBonus {
        atk: atk_base * am / 10000,
        def: def_base * dm / 10000,
        hp: hp_base * hm / 10000,
        eva: bp.eva * hm / 10000,
        crit: bp.crit * hm / 10000,
        special: apply_spirit_special(special_in, sname.as_str(), matched),
    };
    proof {
        assert(sb.atk <= SLOT_BONUS_MAX);
        assert(sb.def <= SLOT_BONUS_MAX);
        assert(sb.hp <= SLOT_BONUS_MAX);
        assert(sb.eva <= SLOT_BONUS_MAX);
        assert(sb.crit <= SLOT_BONUS_MAX);
    }
    Ok(sb)
}

/// Running totals over the six equipment slots: the summed per-item Attack,
/// Defense, HP, evasion and crit contributions, and the spirit special
/// effect as threaded through the slots in order.
#[derive(Clone, Copy, Debug, PartialEq, Eq, Structural)]
pub struct GearTotals {
    pub atk: u64,
    pub def: u64,
    pub hp: u64,
    pub eva: u64,
    pub crit: u64,
    pub special: SpiritSpecial,
}

/// The all-zero gear totals.
pub open spec fn spec_zero_gear() -> GearTotals {
    GearTotals { atk: 0, def: 0, hp: 0, eva: 0, crit: 0, special: spec_no_special() }
}

/// Resolves the slots from `slot` on, accumulating onto `acc` and threading
/// the spirit special effect left to right.
pub open spec fn spec_gear_from(
    h: Hero,
    bps: Seq<Blueprint>,
    sks: Seq<HeroSkill>,
    slot: int,
    acc: GearTotals,
) -> Result<GearTotals, BuildError>
    decreases 6 - slot,
{
    if slot < 0 || slot >= 6 {
        Ok(acc)
    } else {
        let bp = bps[slot];
        let st = spec_skill_totals(sks);
        let ip = spec_item_pcts(sks, bp.item_type@);
        match spec_slot_bonus(h, bp, st.all_equip_pct, ip.atk, ip.def, slot, acc.special) {
            Err(e) => Err(e),
            Ok(sb) => spec_gear_from(
                h,
                bps,
                sks,
                slot + 1,
                GearTotals {
                    atk: (acc.atk + sb.atk) as u64,
                    def: (acc.def + sb.def) as u64,
                    hp: (acc.hp + sb.hp) as u64,
                    eva: (acc.eva + sb.eva) as u64,
                    crit: (acc.crit + sb.crit) as u64,
                    special: sb.special,
                },
            ),
        }
    }
}

/// True when slot `slot` of the hero parses cleanly against blueprint `bp`:
/// a recognized quality code, a well-formed element descriptor with a grade
/// in 1..=4, and a well-formed spirit descriptor with a recognized tier.
pub open spec fn spec_slot_parses(h: Hero, bp: Blueprint, slot: int) -> bool {
    &&& spec_parse_quality(h.equipment_quality@[slot]@) is Some
    &&& descriptor_wf(h.elements_socketed@[slot]@)
    &&& spec_element_flat(
        descriptor_name(h.elements_socketed@[slot]@),
        descriptor_grade(h.elements_socketed@[slot]@),
    ) is Some
    &&& descriptor_wf(h.spirits_socketed@[slot]@)
    &&& spec_spirit_tier_flat(descriptor_grade(h.spirits_socketed@[slot]@)) is Some
}

/// The gear stage succeeds exactly when every remaining slot parses: the
/// bonus arithmetic itself never fails.
pub proof fn lemma_gear_ok_iff(
    h: Hero,
    bps: Seq<Blueprint>,
    sks: Seq<HeroSkill>,
    slot: int,
    acc: GearTotals,
)
    requires
        0 <= slot,
    ensures
        spec_gear_from(h, bps, sks, slot, acc) is Ok <==> forall|j: int|
            slot <= j < 6 ==> spec_slot_parses(h, bps[j], j),
    decreases 6 - slot,
{
    if slot < 6 {
        let bp = bps[slot];
        let st = spec_skill_totals(sks);
        let ip = spec_item_pcts(sks, bp.item_type@);
        match spec_slot_bonus(h, bp, st.all_equip_pct, ip.atk, ip.def, slot, acc.special) {
            Err(e) => {
                assert(!spec_slot_parses(h, bps[slot], slot));
            },
            Ok(sb) => {
                lemma_gear_ok_iff(
                    h,
                    bps,
                    sks,
                    slot + 1,
                    GearTotals {
                        atk: (acc.atk + sb.atk) as u64,
                        def: (acc.def + sb.def) as u64,
                        hp: (acc.hp + sb.hp) as u64,
                        eva: (acc.eva + sb.eva) as u64,
                        crit: (acc.crit + sb.crit) as u64,
                        special: sb.special,
                    },
                );
                assert(spec_slot_parses(h, bps[slot], slot));
            },
        }
    }
}

/// Resolution succeeds exactly when every equipped item and learned skill is
/// known and every slot's quality code and socket descriptors parse.
pub proof fn lemma_resolution_success_iff(
    h: Hero,
    bp_entries: Seq<(String, Blueprint)>,
    skill_entries: Seq<(String, HeroSkill)>,
)
    ensures
        spec_resolve_improvements(h, bp_entries, skill_entries) is Ok <==> {
            &&& spec_check_items(bp_entries, h.equipment_equipped@, 0) is Ok
            &&& spec_check_skills(skill_entries, h.skills@, 0) is Ok
            &&& forall|j: int|
                0 <= j < 6 ==> spec_slot_parses(
                    h,
                    spec_bps_of(bp_entries, h.equipment_equipped@)[j],
                    j,
                )
        },
{
    if spec_check_items(bp_entries, h.equipment_equipped@, 0) is Ok && spec_check_skills(
        skill_entries,
        h.skills@,
        0,
    ) is Ok {
        let bps = spec_bps_of(bp_entries, h.equipment_equipped@);
        let sks = spec_skills_of(skill_entries, h.skills@);
        lemma_gear_ok_iff(h, bps, sks, 0, spec_zero_gear());
    }
}

/// A successful gear stage means every element descriptor was well formed
/// with a recognized grade.
pub proof fn lemma_gear_ok_elements(
    h: Hero,
    bps: Seq<Blueprint>,
    sks: Seq<HeroSkill>,
    slot: int,
    acc: GearTotals,
)
    requires
        0 <= slot,
        spec_gear_from(h, bps, sks, slot, acc) is Ok,
    ensures
        forall|j: int|
            slot <= j < 6 ==> descriptor_wf((#[trigger] h.elements_socketed@[j])@)
                && spec_grade_points(descriptor_grade(h.elements_socketed@[j]@)) is Some,
    decreases 6 - slot,
{
    if 0 <= slot < 6 {
        let bp = bps[slot];
        let st = spec_skill_totals(sks);
        let ip = spec_item_pcts(sks, bp.item_type@);
        match spec_slot_bonus(h, bp, st.all_equip_pct, ip.atk, ip.def, slot, acc.special) {
            Err(e) => {
                assert(false);
            },
            Ok(sb) => {
                let ed = h.elements_socketed@[slot]@;
                assert(descriptor_wf(ed));
                assert(spec_element_flat(descriptor_name(ed), descriptor_grade(ed)) is Some);
                crate::element::lemma_element_flat_entries(
                    descriptor_name(ed),
                    descriptor_grade(ed),
                );
                assert(spec_grade_points(descriptor_grade(ed)) is Some);
                lemma_gear_ok_elements(
                    h,
                    bps,
                    sks,
                    slot + 1,
                    GearTotals {
                        atk: (acc.atk + sb.atk) as u64,
                        def: (acc.def + sb.def) as u64,
                        hp: (acc.hp + sb.hp) as u64,
                        eva: (acc.eva + sb.eva) as u64,
                        crit: (acc.crit + sb.crit) as u64,
                        special: sb.special,
                    },
                );
                assert forall|j: int| slot <= j < 6 implies descriptor_wf(
                    (#[trigger] h.elements_socketed@[j])@,
                ) && spec_grade_points(descriptor_grade(h.elements_socketed@[j]@)) is Some by {
                    if j == slot {
                        assert(descriptor_wf(ed));
                    }
                }
            },
        }
    }
}

/// When every element descriptor from slot `i` on is well formed with a
/// recognized grade, the investment sum succeeds.
pub proof fn lemma_element_qty_ok(descs: Seq<String>, align: Seq<char>, i: int)
    requires
        forall|j: int|
            i <= j < descs.len() ==> descriptor_wf((#[trigger] descs[j])@) && spec_grade_points(
                descriptor_grade(descs[j]@),
            ) is Some,
    ensures
        spec_element_qty_from(descs, align, i) is Ok,
    decreases descs.len() - i,
{
    if 0 <= i < descs.len() {
        lemma_element_qty_ok(descs, align, i + 1);
    }
}

/// The class-conditional Attack percent, in basis points: the two
/// investment-driven classes turn each elemental investment point into one
/// percent; the threat-driven class contributes forty percent of its threat
/// rating as a percent; all other classes contribute zero.
pub open spec fn spec_class_conditional_bp(h: Hero) -> int {
    if h.class@ == "Geomancer"@ || h.class@ == "Astramancer"@ {
        100 * (match spec_element_qty(h) {
            Ok(q) => q,
            Err(_) => 0,
        })
    } else if h.class@ == "Chieftain"@ {
        40 * (h.threat_rating as int)
    } else {
        0
    }
}

/// The whole gear-and-skill improvement stage: with every equipped item and
/// learned skill known, resolve the six slots and the skill totals, add the
/// class conditional, and compose the final Attack and Defense. The seeded
/// base adds four points per HP seed (the HP-seed counter, deliberately);
/// the stored modifier fields keep the percent pool without its leading
/// one. Defense mirrors the Attack composition with the defense pools and
/// no class conditional.
pub open spec fn spec_resolve_improvements(
    h: Hero,
    bp_entries: Seq<(String, Blueprint)>,
    skill_entries: Seq<(String, HeroSkill)>,
) -> Result<Hero, BuildError> {
    match spec_check_items(bp_entries, h.equipment_equipped@, 0) {
        Err(e) => Err(e),
        Ok(unit0) => match spec_check_skills(skill_entries, h.skills@, 0) {
            Err(e) => Err(e),
            Ok(unit1) => {
                let bps = spec_bps_of(bp_entries, h.equipment_equipped@);
                let sks = spec_skills_of(skill_entries, h.skills@);
                match spec_gear_from(h, bps, sks, 0, spec_zero_gear()) {
                    Err(e) => Err(e),
                    Ok(g) => {
                        let st = spec_skill_totals(sks);
                        let cond = spec_class_conditional_bp(h);
                        let atk_mult = 10000 + st.atk_pct + cond + g.special.atk_percent;
                        let core_atk = h.atk + 400 * h.hp_seeds + g.special.atk_value + st.atk_val;
                        let new_atk = core_atk * atk_mult / 10000 + g.atk * atk_mult / 10000;
                        let def_mult = 10000 + st.def_pct + g.special.def_percent;
                        let core_def = h.def + 400 * h.hp_seeds + g.special.def_value;
                        let new_def = core_def * def_mult / 10000 + g.def * def_mult / 10000;
                        Ok(Hero {
                            atk: new_atk as u64,
                            def: new_def as u64,
                            atk_modifier: (atk_mult - 10000) as u64,
                            def_modifier: (def_mult - 10000) as u64,
                            ..h
                        })
                    },
                }
            },
        },
    }
}

impl Hero {
    /// Resolves the bonuses this hero's gear and skills grant and composes
    /// the final Attack and Defense in place, recording the percent pools in
    /// the modifier fields. Fails, leaving the hero untouched, on any
    /// unknown item, skill, quality code, or malformed socket descriptor.
    /// The innate-skill tables are part of the resolution interface but the
    /// improvement formulas do not read them.
    #[allow(unused_variables)]
    pub fn calculate_stat_improvements_from_gear_and_skills(
        &mut self,
        bp_map: &Table<Blueprint>,
        hero_skill_map: &Table<HeroSkill>,
        class_innate_skill_names_map: &Table<String>,
        innate_skill_map: &Table<crate::skills::InnateSkill>,
    ) -> (r: Result<(), BuildError>)
        requires
            bp_table_wf(bp_map),
            skill_table_wf(hero_skill_map),
            old(self).atk <= MAX_STAT_CENTI,
            old(self).def <= MAX_STAT_CENTI,
        ensures
            match r {
                Ok(unit) => spec_resolve_improvements(
                    *old(self),
                    bp_map.entries@,
                    hero_skill_map.entries@,
                ) == Ok::<Hero, BuildError>(*final(self)),
                Err(e) => spec_resolve_improvements(
                    *old(self),
                    bp_map.entries@,
                    hero_skill_map.entries@,
                ) == Err::<Hero, BuildError>(e) && *final(self) == *old(self),
            },
    {
        let ghost bps = spec_bps_of(bp_map.entries@, self.equipment_equipped@);
        let ghost sks = spec_skills_of(hero_skill_map.entries@, self.skills@);

        // Every equipped item must be a known blueprint.
        let mut i: usize = 0;
        while i < 6
            invariant
                i <= 6,
                *self == *old(self),
                bp_table_wf(bp_map),
                skill_table_wf(hero_skill_map),
                spec_check_items(bp_map.entries@, self.equipment_equipped@, i as int) is Ok
                    ==> spec_check_items(bp_map.entries@, self.equipment_equipped@, 0) is Ok,
                forall|e: BuildError|
                    spec_check_items(bp_map.entries@, self.equipment_equipped@, i as int) == Err::<
                        (),
                        BuildError,
                    >(e) ==> spec_check_items(bp_map.entries@, self.equipment_equipped@, 0)
                        == Err::<(), BuildError>(e),
            decreases 6 - i,
        {
            match bp_map.get(self.equipment_equipped[i].as_str()) {
                Some(bp) => {},
                None => {
                    return Err(BuildError::UnknownItem { slot: i });
                },
            }
            i += 1;
        }

        // Hero-wide skill totals; also proves every skill is known.
        let st = match skill_totals(hero_skill_map, &self.skills) {
            Ok(st) => st,
            Err(e) => {
                return Err(e);
            },
        };

        // Resolve the six slots, threading the spirit special effect.
        let mut totals = GearTotals {
            atk: 0,
            def: 0,
            hp: 0,
            eva: 0,
            crit: 0,
            special: no_special(),
        };
        let mut slot: usize = 0;
        while slot < 6
            invariant
                slot <= 6,
                *self == *old(self),
                bp_table_wf(bp_map),
                skill_table_wf(hero_skill_map),
                bps == spec_bps_of(bp_map.entries@, self.equipment_equipped@),
                sks == spec_skills_of(hero_skill_map.entries@, self.skills@),
                spec_check_items(bp_map.entries@, self.equipment_equipped@, 0) is Ok,
                spec_check_skills(hero_skill_map.entries@, self.skills@, 0) is Ok,
                st == spec_skill_totals(sks),
                spec_totals_bounded(st, 4),
                totals.atk <= slot * SLOT_BONUS_MAX,
                totals.def <= slot * SLOT_BONUS_MAX,
                totals.hp <= slot * SLOT_BONUS_MAX,
                totals.eva <= slot * SLOT_BONUS_MAX,
                totals.crit <= slot * SLOT_BONUS_MAX,
                spec_special_bounded(totals.special),
                spec_gear_from(*self, bps, sks, 0, spec_zero_gear()) == spec_gear_from(
                    *self,
                    bps,
                    sks,
                    slot as int,
                    totals,
                ),
            decreases 6 - slot,
        {
            let bp = match bp_map.get(self.equipment_equipped[slot].as_str()) {
                Some(bp) => bp,
                None => {
                    proof {
                        lemma_check_items_found(
                            bp_map.entries@,
                            self.equipment_equipped@,
                            slot as int,
                        );
                    }
                    return Err(BuildError::UnknownItem { slot });
                },
            };
            proof {
                lemma_check_items_found(bp_map.entries@, self.equipment_equipped@, slot as int);
                lemma_bp_lookup_wf(bp_map.entries@, self.equipment_equipped@[slot as int]@);
                assert(bps[slot as int] == *bp);
            }
            let ip = match item_pcts(hero_skill_map, &self.skills, bp.item_type.as_str()) {
                Ok(ip) => ip,
                Err(e) => {
                    return Err(e);
                },
            };
            let sb = match resolve_slot(
                self,
                bp,
                st.all_equip_pct,
                ip.atk,
                ip.def,
                slot,
                totals.special,
            ) {
                Ok(sb) => sb,
                Err(e) => {
                    return Err(e);
                },
            };
            totals = GearTotals {
                atk: totals.atk + sb.atk,
                def: totals.def + sb.def,
                hp: totals.hp + sb.hp,
                eva: totals.eva + sb.eva,
                crit: totals.crit + sb.crit,
                special: sb.special,
            };
            slot += 1;
        }

        // Class-conditional Attack percent.
        let cond: u64 = if str_eq(self.class.as_str(), "Geomancer") || str_eq(
            self.class.as_str(),
            "Astramancer",
        ) {
            proof {
                lemma_gear_ok_elements(*self, bps, sks, 0, spec_zero_gear());
                lemma_element_qty_ok(self.elements_socketed@, self.element_type@, 0);
            }
            match self.calculate_element_qty() {
                Ok(q) => 100 * (q as u64),
                Err(e) => {
                    proof {
                        assert(false);
                    }
                    return Err(e);
                },
            }
        } else if str_eq(self.class.as_str(), "Chieftain") {
            40 * (self.threat_rating as u64)
        } else {
            0
        };

        // Final Attack and Defense composition.
        let atk_mult: u64 = 10000 + st.atk_pct + cond + totals.special.atk_percent;
        let core_atk: u64 = self.atk + 400 * (self.hp_seeds as u64) + totals.special.atk_value
            + st.atk_val;
        let def_mult: u64 = 10000 + st.def_pct + totals.special.def_percent;
        let core_def: u64 = self.def + 400 * (self.hp_seeds as u64) + totals.special.def_value;
        proof {
            assert(cond <= 2_700_000);
            assert(atk_mult <= 10000 + 4 * MAX_PCT_BP + 2_700_000 + 2500);
            assert(core_atk <= 5 * MAX_STAT_CENTI + 120_000);
            assert(core_atk * atk_mult <= (5 * MAX_STAT_CENTI + 120_000) * (10000 + 4 * MAX_PCT_BP
                + 2_700_000 + 2500)) by (nonlinear_arith)
                requires
                    core_atk <= 5 * MAX_STAT_CENTI + 120_000,
                    atk_mult <= 10000 + 4 * MAX_PCT_BP + 2_700_000 + 2500,
            ;
            assert(totals.atk <= 6 * SLOT_BONUS_MAX);
            assert(totals.atk * atk_mult <= (6 * SLOT_BONUS_MAX) * (10000 + 4 * MAX_PCT_BP
                + 2_700_000 + 2500)) by (nonlinear_arith)
                requires
                    totals.atk <= 6 * SLOT_BONUS_MAX,
                    atk_mult <= 10000 + 4 * MAX_PCT_BP + 2_700_000 + 2500,
            ;
            assert(core_def * def_mult <= (5 * MAX_STAT_CENTI + 120_000) * (10000 + 4 * MAX_PCT_BP
                + 2500)) by (nonlinear_arith)
                requires
                    core_def <= 5 * MAX_STAT_CENTI + 120_000,
                    def_mult <= 10000 + 4 * MAX_PCT_BP + 2500,
            ;
            assert(totals.def * def_mult <= (6 * SLOT_BONUS_MAX) * (10000 + 4 * MAX_PCT_BP + 2500))
                by (nonlinear_arith)
                requires
                    totals.def <= 6 * SLOT_BONUS_MAX,
                    def_mult <= 10000 + 4 * MAX_PCT_BP + 2500,
            ;
        }
        let new_atk: u64 = core_atk * atk_mult / 10000 + totals.atk * atk_mult / 10000;
        let new_def: u64 = core_def * def_mult / 10000 + totals.def * def_mult / 10000;
        self.atk = new_atk;
        self.def = new_def;
        self.atk_modifier = atk_mult - 10000;
        self.def_modifier = def_mult - 10000;
        Ok(())
    }
}

/// Inside the range a passed item check covers, every lookup succeeds.
pub proof fn lemma_check_items_found(
    entries: Seq<(String, Blueprint)>,
    equips: Seq<String>,
    j: int,
)
    requires
        spec_check_items(entries, equips, 0) is Ok,
        0 <= j < equips.len(),
    ensures
        spec_lookup(entries, equips[j]@) is Some,
{
    lemma_check_items_found_from(entries, equips, 0, j);
}

/// Helper for `lemma_check_items_found`: the check from `i` covers `j`.
pub proof fn lemma_check_items_found_from(
    entries: Seq<(String, Blueprint)>,
    equips: Seq<String>,
    i: int,
    j: int,
)
    requires
        spec_check_items(entries, equips, i) is Ok,
        0 <= i <= j < equips.len(),
    ensures
        spec_lookup(entries, equips[j]@) is Some,
    decreases j - i,
{
    if i < j {
        lemma_check_items_found_from(entries, equips, i + 1, j);
    }
}

} // verus!
