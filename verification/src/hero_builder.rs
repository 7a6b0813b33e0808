//! Hero configurations, class definitions, and the attribute resolution
//! pipeline that turns a raw configuration plus static data tables into
//! final combat statistics.

use vstd::prelude::*;
use crate::MAX_STAT_CENTI;
use crate::errors::BuildError;
use crate::strutil::{descriptor_grade, descriptor_name, descriptor_wf, split_descriptor, str_eq};
use crate::element::{grade_points, spec_grade_points};
use crate::skills::InnateSkill;
use crate::table::Table;

verus! {

/// A hero archetype: hire costs, per-level base stat curves (one entry per
/// level, centi-units), fixed secondary stats, elemental alignment, the
/// equipment categories allowed in each of the six slots, and the four
/// innate-ability family names.
#[derive(Clone, Debug, PartialEq)]
pub struct HeroClass {
    pub class: String,
    pub prerequisite: String,
    pub gold_hire_cost: u32,
    pub gem_hire_cost: u32,
    pub base_hp: Vec<u64>,
    pub base_atk: Vec<u64>,
    pub base_def: Vec<u64>,
    pub base_eva: u64,
    pub base_crit_chance: u64,
    pub base_crit_mult: u64,
    pub base_threat_rating: u16,
    pub element_type: String,
    pub equipment_allowed: [Vec<String>; 6],
    pub innate_skills: [String; 4],
}

impl HeroClass {
    /// Well-formed game data: the three base-stat curves cover the same
    /// levels and every stat is within the representable range.
    pub open spec fn wf(&self) -> bool {
        &&& self.base_hp@.len() == self.base_atk@.len()
        &&& self.base_hp@.len() == self.base_def@.len()
        &&& forall|i: int|
            0 <= i < self.base_hp@.len() ==> #[trigger] self.base_hp@[i] <= MAX_STAT_CENTI
        &&& forall|i: int|
            0 <= i < self.base_atk@.len() ==> #[trigger] self.base_atk@[i] <= MAX_STAT_CENTI
        &&& forall|i: int|
            0 <= i < self.base_def@.len() ==> #[trigger] self.base_def@[i] <= MAX_STAT_CENTI
        &&& self.base_eva <= MAX_STAT_CENTI
        &&& self.base_crit_chance <= MAX_STAT_CENTI
        &&& self.base_crit_mult <= MAX_STAT_CENTI
    }
}

/// Builds a hero class from its parts.
pub fn _create_hero_class(
    class: String,
    prerequisite: String,
    gold_hire_cost: u32,
    gem_hire_cost: u32,
    base_hp: Vec<u64>,
    base_atk: Vec<u64>,
    base_def: Vec<u64>,
    base_eva: u64,
    base_crit_chance: u64,
    base_crit_mult: u64,
    base_threat_rating: u16,
    element_type: String,
    equipment_allowed: [Vec<String>; 6],
    innate_skills: [String; 4],
) -> (r: HeroClass)
    requires
        base_hp@.len() == base_atk@.len(),
        base_hp@.len() == base_def@.len(),
        forall|i: int| 0 <= i < base_hp@.len() ==> #[trigger] base_hp@[i] <= MAX_STAT_CENTI,
        forall|i: int| 0 <= i < base_atk@.len() ==> #[trigger] base_atk@[i] <= MAX_STAT_CENTI,
        forall|i: int| 0 <= i < base_def@.len() ==> #[trigger] base_def@[i] <= MAX_STAT_CENTI,
        base_eva <= MAX_STAT_CENTI,
        base_crit_chance <= MAX_STAT_CENTI,
        base_crit_mult <= MAX_STAT_CENTI,
    ensures
        r.wf(),
        r == (HeroClass {
            class,
            prerequisite,
            gold_hire_cost,
            gem_hire_cost,
            base_hp,
            base_atk,
            base_def,
            base_eva,
            base_crit_chance,
            base_crit_mult,
            base_threat_rating,
            element_type,
            equipment_allowed,
            innate_skills,
        }),
{
    HeroClass {
        class,
        prerequisite,
        gold_hire_cost,
        gem_hire_cost,
        base_hp,
        base_atk,
        base_def,
        base_eva,
        base_crit_chance,
        base_crit_mult,
        base_threat_rating,
        element_type,
        equipment_allowed,
        innate_skills,
    }
}

/// A hero's raw, unresolved configuration plus its resolved stat fields.
/// Stat fields hold centi-units; the modifier fields hold basis points.
/// The four six-entry arrays are slot-aligned: index `i` in each refers to
/// the same equipment slot.
#[derive(Clone, Debug, PartialEq)]
pub struct Hero {
    pub identifier: String,
    pub class: String,
    pub level: u8,
    pub rank: u8,
    pub innate_tier: u8,
    pub hp: u64,
    pub atk: u64,
    pub def: u64,
    pub eva: u64,
    pub crit_chance: u64,
    pub crit_mult: u64,
    pub threat_rating: u16,
    pub element_type: String,
    pub atk_modifier: u64,
    pub def_modifier: u64,
    pub hp_seeds: u8,
    pub atk_seeds: u8,
    pub def_seeds: u8,
    pub skills: [String; 4],
    pub equipment_equipped: [String; 6],
    pub equipment_quality: [String; 6],
    pub elements_socketed: [String; 6],
    pub spirits_socketed: [String; 6],
}

/// Builds a hero from its parts.
pub fn create_hero(
    identifier: String,
    class: String,
    level: u8,
    rank: u8,
    innate_tier: u8,
    hp: u64,
    atk: u64,
    def: u64,
    eva: u64,
    crit_chance: u64,
    crit_mult: u64,
    threat_rating: u16,
    element_type: String,
    atk_modifier: u64,
    def_modifier: u64,
    hp_seeds: u8,
    atk_seeds: u8,
    def_seeds: u8,
    skills: [String; 4],
    equipment_equipped: [String; 6],
    equipment_quality: [String; 6],
    elements_socketed: [String; 6],
    spirits_socketed: [String; 6],
) -> (r: Hero)
    ensures
        r == (Hero {
            identifier,
            class,
            level,
            rank,
            innate_tier,
            hp,
            atk,
            def,
            eva,
            crit_chance,
            crit_mult,
            threat_rating,
            element_type,
            atk_modifier,
            def_modifier,
            hp_seeds,
            atk_seeds,
            def_seeds,
            skills,
            equipment_equipped,
            equipment_quality,
            elements_socketed,
            spirits_socketed,
        }),
{
    Hero {
        identifier,
        class,
        level,
        rank,
        innate_tier,
        hp,
        atk,
        def,
        eva,
        crit_chance,
        crit_mult,
        threat_rating,
        element_type,
        atk_modifier,
        def_modifier,
        hp_seeds,
        atk_seeds,
        def_seeds,
        skills,
        equipment_equipped,
        equipment_quality,
        elements_socketed,
        spirits_socketed,
    }
}

/// Every class a well-formed class table holds is itself well formed.
pub open spec fn class_table_wf(t: &Table<HeroClass>) -> bool {
    forall|i: int| 0 <= i < t.entries@.len() ==> (#[trigger] t.entries@[i].1).wf()
}

/// A lookup in a well-formed class table yields a well-formed class.
pub proof fn lemma_class_lookup_wf(entries: Seq<(String, HeroClass)>, key: Seq<char>)
    requires
        forall|i: int| 0 <= i < entries.len() ==> (#[trigger] entries[i].1).wf(),
    ensures
        match crate::table::spec_lookup(entries, key) {
            Some(c) => c.wf(),
            None => true,
        },
    decreases entries.len(),
{
    if entries.len() > 0 && entries[0].0@ != key {
        lemma_class_lookup_wf(entries.drop_first(), key);
    }
}

/// The number of entries of `v` equal to `name`.
pub open spec fn spec_count_eq(v: Seq<String>, name: Seq<char>) -> int
    decreases v.len(),
{
    if v.len() == 0 {
        0
    } else {
        (if v[0]@ == name {
            1int
        } else {
            0int
        }) + spec_count_eq(v.drop_first(), name)
    }
}

/// A count is between zero and the sequence's length.
pub proof fn lemma_count_eq_bound(v: Seq<String>, name: Seq<char>)
    ensures
        0 <= spec_count_eq(v, name) <= v.len(),
    decreases v.len(),
{
    if v.len() > 0 {
        lemma_count_eq_bound(v.drop_first(), name);
    }
}

/// Elemental investment points of the socketed-element descriptors from slot
/// `i` on: each well-formed descriptor whose element matches `align`
/// contributes its grade's points, others contribute zero; a malformed
/// descriptor or a grade outside 1..=4 is a fatal format error, the earliest
/// slot's error first.
pub open spec fn spec_element_qty_from(descs: Seq<String>, align: Seq<char>, i: int) -> Result<
    int,
    BuildError,
>
    decreases descs.len() - i,
{
    if i < 0 || i >= descs.len() {
        Ok(0int)
    } else {
        let d = descs[i]@;
        if !descriptor_wf(d) {
            Err(BuildError::MalformedElement { slot: i as usize })
        } else {
            match spec_grade_points(descriptor_grade(d)) {
                None => Err(BuildError::UnknownElementGrade { slot: i as usize }),
                Some(pts) => match spec_element_qty_from(descs, align, i + 1) {
                    Ok(rest) => Ok(
                        (if descriptor_name(d) == align {
                            pts as int
                        } else {
                            0int
                        }) + rest,
                    ),
                    Err(e) => Err(e),
                },
            }
        }
    }
}

/// Elemental investment points of a hero's six socketed elements.
pub open spec fn spec_element_qty(h: Hero) -> Result<int, BuildError> {
    spec_element_qty_from(h.elements_socketed@, h.element_type@, 0)
}

/// An investment total is bounded by 25 points per remaining slot.
pub proof fn lemma_element_qty_bound(descs: Seq<String>, align: Seq<char>, i: int)
    ensures
        match spec_element_qty_from(descs, align, i) {
            Ok(q) => 0 <= q <= 25 * (if descs.len() - i >= 0 {
                descs.len() - i
            } else {
                0
            }),
            Err(_) => true,
        },
    decreases descs.len() - i,
{
    if 0 <= i < descs.len() {
        lemma_element_qty_bound(descs, align, i + 1);
    }
}

/// True when an innate-skill definition belongs to `family` and its
/// investment requirement lies strictly below `qty`.
pub open spec fn spec_innate_qualifies(is: InnateSkill, family: Seq<char>, qty: int) -> bool {
    is.tier_1_name@ == family && (is.element_qty_req as int) < qty
}

/// The larger of two optional tiers, treating `None` as absent.
pub open spec fn spec_opt_max_tier(a: Option<u8>, b: Option<u8>) -> Option<u8> {
    match (a, b) {
        (None, None) => None,
        (Some(x), None) => Some(x),
        (None, Some(y)) => Some(y),
        (Some(x), Some(y)) => Some(
            if x >= y {
                x
            } else {
                y
            },
        ),
    }
}

/// The highest tier rank among the definitions in `entries` that belong to
/// `family` and whose investment requirement lies strictly below `qty`, or
/// `None` when no definition qualifies.
pub open spec fn spec_best_tier(
    entries: Seq<(String, InnateSkill)>,
    family: Seq<char>,
    qty: int,
) -> Option<u8>
    decreases entries.len(),
{
    if entries.len() == 0 {
        None
    } else {
        let head = if spec_innate_qualifies(entries[0].1, family, qty) {
            Some(entries[0].1.skill_tier)
        } else {
            None
        };
        spec_opt_max_tier(head, spec_best_tier(entries.drop_first(), family, qty))
    }
}

/// The selected tier is the tier of some qualifying definition and at least
/// the tier of every qualifying definition; no tier is selected exactly when
/// nothing qualifies.
pub proof fn lemma_best_tier_characterization(
    entries: Seq<(String, InnateSkill)>,
    family: Seq<char>,
    qty: int,
)
    ensures
        match spec_best_tier(entries, family, qty) {
            Some(t) => {
                &&& exists|i: int|
                    0 <= i < entries.len() && spec_innate_qualifies(
                        #[trigger] entries[i].1,
                        family,
                        qty,
                    ) && entries[i].1.skill_tier == t
                &&& forall|i: int|
                    0 <= i < entries.len() && spec_innate_qualifies(
                        #[trigger] entries[i].1,
                        family,
                        qty,
                    ) ==> entries[i].1.skill_tier <= t
            },
            None => forall|i: int|
                0 <= i < entries.len() ==> !spec_innate_qualifies(
                    #[trigger] entries[i].1,
                    family,
                    qty,
                ),
        },
    decreases entries.len(),
{
    if entries.len() > 0 {
        let rest = entries.drop_first();
        lemma_best_tier_characterization(rest, family, qty);
        assert(forall|i: int| 0 <= i < rest.len() ==> #[trigger] rest[i] == entries[i + 1]);
        match spec_best_tier(entries, family, qty) {
            Some(t) => {
                if spec_innate_qualifies(entries[0].1, family, qty) && entries[0].1.skill_tier
                    == t {
                    assert(spec_innate_qualifies(entries[0].1, family, qty) && entries[0].1.skill_tier
                        == t);
                } else {
                    assert(spec_best_tier(rest, family, qty) == Some(t));
                    let j = choose|j: int|
                        0 <= j < rest.len() && spec_innate_qualifies(
                            #[trigger] rest[j].1,
                            family,
                            qty,
                        ) && rest[j].1.skill_tier == t;
                    assert(rest[j] == entries[j + 1]);
                    assert(spec_innate_qualifies(entries[j + 1].1, family, qty) && entries[j
                        + 1].1.skill_tier == t);
                }
                assert forall|i: int|
                    0 <= i < entries.len() && spec_innate_qualifies(
                        #[trigger] entries[i].1,
                        family,
                        qty,
                    ) implies entries[i].1.skill_tier <= t by {
                    if i > 0 {
                        assert(rest[i - 1] == entries[i]);
                        assert(spec_innate_qualifies(rest[i - 1].1, family, qty));
                    }
                }
            },
            None => {
                assert forall|i: int| 0 <= i < entries.len() implies !spec_innate_qualifies(
                    #[trigger] entries[i].1,
                    family,
                    qty,
                ) by {
                    if i > 0 {
                        assert(rest[i - 1] == entries[i]);
                    }
                }
            },
        }
    }
}

/// Innate-tier selection is monotonic in elemental investment: more
/// investment never selects a lower tier, and never loses the selection.
pub proof fn lemma_best_tier_monotone(
    entries: Seq<(String, InnateSkill)>,
    family: Seq<char>,
    q1: int,
    q2: int,
)
    requires
        q1 <= q2,
    ensures
        match spec_best_tier(entries, family, q1) {
            Some(t1) => match spec_best_tier(entries, family, q2) {
                Some(t2) => t1 <= t2,
                None => false,
            },
            None => true,
        },
    decreases entries.len(),
{
    if entries.len() > 0 {
        lemma_best_tier_monotone(entries.drop_first(), family, q1, q2);
    }
}

/// True when `t` occurs in the allowed-type list `allowed`.
pub open spec fn spec_type_allowed(allowed: Seq<String>, t: Seq<char>) -> bool {
    exists|j: int| 0 <= j < allowed.len() && allowed[j]@ == t
}

/// Tests whether `t` occurs in the allowed-type list.
pub fn type_allowed(allowed: &Vec<String>, t: &str) -> (r: bool)
    ensures
        r == spec_type_allowed(allowed@, t@),
{
    let mut i: usize = 0;
    while i < allowed.len()
        invariant
            i <= allowed@.len(),
            forall|j: int| 0 <= j < i ==> allowed@[j]@ != t@,
        decreases allowed@.len() - i,
    {
        if str_eq(allowed[i].as_str(), t) {
            return true;
        }
        i += 1;
    }
    false
}

/// Validates the equipped items from slot `i` on: each must exist in the
/// blueprint table and carry a type the class allows in that slot. The
/// earliest slot's violation is reported.
pub open spec fn spec_validate_slots(
    h: Hero,
    bp_entries: Seq<(String, crate::equipment::Blueprint)>,
    class: HeroClass,
    i: int,
) -> Result<(), BuildError>
    decreases 6 - i,
{
    if i < 0 || i >= 6 {
        Ok(())
    } else {
        match crate::table::spec_lookup(bp_entries, h.equipment_equipped@[i]@) {
            None => Err(BuildError::UnknownItem { slot: i as usize }),
            Some(bp) => {
                if !spec_type_allowed(class.equipment_allowed@[i]@, bp.item_type@) {
                    Err(BuildError::DisallowedItemType { slot: i as usize })
                } else {
                    spec_validate_slots(h, bp_entries, class, i + 1)
                }
            },
        }
    }
}

/// Full equipment validation: the hero's class must exist, and every slot
/// must pass `spec_validate_slots`.
pub open spec fn spec_validate_equipment(
    h: Hero,
    bp_map: &Table<crate::equipment::Blueprint>,
    hero_classes: &Table<HeroClass>,
) -> Result<(), BuildError> {
    match hero_classes.spec_get(h.class@) {
        None => Err(BuildError::UnknownClass),
        Some(c) => spec_validate_slots(h, bp_map.entries@, c, 0),
    }
}

impl Hero {
    /// Sums this hero's elemental investment: each socketed element matching
    /// the hero's alignment contributes points by grade (1 gives 5, 2 gives
    /// 10, 3 gives 15, 4 gives 25); others contribute nothing. Fails on the
    /// first malformed descriptor or out-of-range grade.
    pub fn calculate_element_qty(&self) -> (r: Result<u16, BuildError>)
        ensures
            match r {
                Ok(q) => spec_element_qty(*self) == Ok::<int, BuildError>(q as int) && q <= 150,
                Err(e) => spec_element_qty(*self) == Err::<int, BuildError>(e),
            },
    {
        let descs: &[String; 6] = &self.elements_socketed;
        let mut qty: u16 = 0;
        let mut i: usize = 0;
        while i < 6
            invariant
                i <= 6,
                descs == self.elements_socketed,
                qty <= 25 * i,
                spec_element_qty(*self) == match spec_element_qty_from(
                    descs@,
                    self.element_type@,
                    i as int,
                ) {
                    Ok(rest) => Ok(qty + rest),
                    Err(e) => Err::<int, BuildError>(e),
                },
            decreases 6 - i,
        {
            proof {
                lemma_element_qty_bound(descs@, self.element_type@, i + 1);
            }
            match split_descriptor(descs[i].as_str()) {
                None => {
                    return Err(BuildError::MalformedElement { slot: i });
                },
                Some((name, grade)) => {
                    match grade_points(grade.as_str()) {
                        None => {
                            return Err(BuildError::UnknownElementGrade { slot: i });
                        },
                        Some(pts) => {
                            if str_eq(name.as_str(), self.element_type.as_str()) {
                                qty = qty + pts;
                            }
                        },
                    }
                },
            }
            i = i + 1;
        }
        Ok(qty)
    }

    /// Counts how many socketed spirits equal `spirit_name` exactly.
    pub fn calculate_spirit_qty(&self, spirit_name: String) -> (r: u8)
        ensures
            r as int == spec_count_eq(self.spirits_socketed@, spirit_name@),
            r <= 6,
    {
        let mut count: u8 = 0;
        let mut i: usize = 0;
        proof {
            assert(self.spirits_socketed@.skip(0) =~= self.spirits_socketed@);
        }
        while i < 6
            invariant
                i <= 6,
                count <= i,
                spec_count_eq(self.spirits_socketed@, spirit_name@) == count + spec_count_eq(
                    self.spirits_socketed@.skip(i as int),
                    spirit_name@,
                ),
            decreases 6 - i,
        {
            proof {
                assert(self.spirits_socketed@.skip(i as int)[0] == self.spirits_socketed@[
                    i as int]);
                assert(self.spirits_socketed@.skip(i as int).drop_first()
                    =~= self.spirits_socketed@.skip(i as int + 1));
                lemma_count_eq_bound(self.spirits_socketed@.skip(i as int + 1), spirit_name@);
            }
            if str_eq(self.spirits_socketed[i].as_str(), spirit_name.as_str()) {
                count = count + 1;
            }
            i = i + 1;
        }
        proof {
            assert(self.spirits_socketed@.skip(6) =~= Seq::<String>::empty());
        }
        count
    }

    /// Looks this hero's class-specific innate family name up.
    pub fn calculate_innate_skill_name(&self, class_innate_skill_names_map: &Table<String>) -> (r:
        Result<String, BuildError>)
        ensures
            match r {
                Ok(name) => class_innate_skill_names_map.spec_get(self.class@) == Some(name),
                Err(e) => {
                    &&& e == BuildError::UnknownInnateFamily
                    &&& class_innate_skill_names_map.spec_get(self.class@) is None
                },
            },
    {
        match class_innate_skill_names_map.get(self.class.as_str()) {
            Some(name) => Ok(name.clone()),
            None => Err(BuildError::UnknownInnateFamily),
        }
    }

    /// Selects this hero's innate tier: among the innate-skill definitions
    /// of the hero's class family whose investment requirement lies strictly
    /// below the hero's elemental investment, the highest tier rank wins.
    /// Fails when the investment descriptors are bad, the class has no
    /// family entry, or nothing qualifies.
    pub fn calculate_innate_tier(
        &mut self,
        class_innate_skill_names_map: &Table<String>,
        innate_skill_map: &Table<InnateSkill>,
    ) -> (r: Result<(), BuildError>)
        ensures
            match spec_element_qty(*old(self)) {
                Err(e) => r == Err::<(), BuildError>(e) && *final(self) == *old(self),
                Ok(qty) => match class_innate_skill_names_map.spec_get(old(self).class@) {
                    None => r == Err::<(), BuildError>(BuildError::UnknownInnateFamily)
                        && *final(self) == *old(self),
                    Some(family) => match spec_best_tier(innate_skill_map.entries@, family@, qty) {
                        None => r == Err::<(), BuildError>(BuildError::NoQualifyingInnateTier)
                            && *final(self) == *old(self),
                        Some(t) => r == Ok::<(), BuildError>(()) && *final(self) == (Hero {
                            innate_tier: t,
                            ..*old(self)
                        }),
                    },
                },
            },
    {
        let qty = match self.calculate_element_qty() {
            Ok(q) => q,
            Err(e) => {
                return Err(e);
            },
        };
        let family = match self.calculate_innate_skill_name(class_innate_skill_names_map) {
            Ok(f) => f,
            Err(e) => {
                return Err(e);
            },
        };
        let n = innate_skill_map.entries.len();
        let mut best: Option<u8> = None;
        let mut i: usize = 0;
        proof {
            assert(innate_skill_map.entries@.skip(0) =~= innate_skill_map.entries@);
        }
        while i < n
            invariant
                n == innate_skill_map.entries@.len(),
                i <= n,
                spec_best_tier(innate_skill_map.entries@, family@, qty as int) == spec_opt_max_tier(
                    best,
                    spec_best_tier(innate_skill_map.entries@.skip(i as int), family@, qty as int),
                ),
            decreases n - i,
        {
            proof {
                assert(innate_skill_map.entries@.skip(i as int)[0] == innate_skill_map.entries@[
                    i as int]);
                assert(innate_skill_map.entries@.skip(i as int).drop_first()
                    =~= innate_skill_map.entries@.skip(i as int + 1));
            }
            let is = &innate_skill_map.entries[i].1;
            if str_eq(is.tier_1_name.as_str(), family.as_str()) && is.element_qty_req < qty {
                best = match best {
                    None => Some(is.skill_tier),
                    Some(b) => Some(
                        if is.skill_tier >= b {
                            is.skill_tier
                        } else {
                            b
                        },
                    ),
                };
            }
            i += 1;
        }
        proof {
            assert(innate_skill_map.entries@.skip(n as int) =~= Seq::<(String, InnateSkill)>::empty());
        }
        match best {
            None => Err(BuildError::NoQualifyingInnateTier),
            Some(t) => {
                self.innate_tier = t;
                Ok(())
            },
        }
    }

    /// Confirms that the hero's class exists and that every equipped item is
    /// a known blueprint whose type the class allows in that slot.
    pub fn validate_equipment(
        &self,
        bp_map: &Table<crate::equipment::Blueprint>,
        hero_classes: &Table<HeroClass>,
    ) -> (r: Result<(), BuildError>)
        ensures
            r == spec_validate_equipment(*self, bp_map, hero_classes),
            r is Ok <==> match hero_classes.spec_get(self.class@) {
                None => false,
                Some(c) => forall|i: int|
                    0 <= i < 6 ==> match crate::table::spec_lookup(
                        bp_map.entries@,
                        (#[trigger] self.equipment_equipped@[i])@,
                    ) {
                        None => false,
                        Some(bp) => spec_type_allowed(c.equipment_allowed@[i]@, bp.item_type@),
                    },
            },
    {
        let class = match hero_classes.get(self.class.as_str()) {
            Some(c) => c,
            None => {
                return Err(BuildError::UnknownClass);
            },
        };
        let mut i: usize = 0;
        while i < 6
            invariant
                i <= 6,
                hero_classes.spec_get(self.class@) == Some(*class),
                spec_validate_slots(*self, bp_map.entries@, *class, 0) == spec_validate_slots(
                    *self,
                    bp_map.entries@,
                    *class,
                    i as int,
                ),
                forall|j: int|
                    0 <= j < i ==> match crate::table::spec_lookup(
                        bp_map.entries@,
                        (#[trigger] self.equipment_equipped@[j])@,
                    ) {
                        None => false,
                        Some(bp) => spec_type_allowed(
                            class.equipment_allowed@[j]@,
                            bp.item_type@,
                        ),
                    },
            decreases 6 - i,
        {
            let blueprint = match bp_map.get(self.equipment_equipped[i].as_str()) {
                Some(bp) => bp,
                None => {
                    return Err(BuildError::UnknownItem { slot: i });
                },
            };
            if !type_allowed(&class.equipment_allowed[i], blueprint.item_type.as_str()) {
                return Err(BuildError::DisallowedItemType { slot: i });
            }
            i += 1;
        }
        Ok(())
    }

    /// Copies the class's base stats onto this hero: HP, Attack and Defense
    /// from the per-level curves at `level - 1`, the secondary stats and the
    /// elemental alignment verbatim.
    pub fn scale_by_class(&mut self, hero_classes: &Table<HeroClass>) -> (r: Result<
        (),
        BuildError,
    >)
        requires
            class_table_wf(hero_classes),
        ensures
            match hero_classes.spec_get(old(self).class@) {
                None => r == Err::<(), BuildError>(BuildError::UnknownClass) && *final(self)
                    == *old(self),
                Some(c) => {
                    if 1 <= old(self).level && old(self).level as int <= c.base_hp@.len() {
                        &&& r == Ok::<(), BuildError>(())
                        &&& *final(self) == (Hero {
                            hp: c.base_hp@[old(self).level - 1],
                            atk: c.base_atk@[old(self).level - 1],
                            def: c.base_def@[old(self).level - 1],
                            eva: c.base_eva,
                            crit_chance: c.base_crit_chance,
                            crit_mult: c.base_crit_mult,
                            element_type: c.element_type,
                            ..*old(self)
                        })
                    } else {
                        &&& r == Err::<(), BuildError>(BuildError::LevelOutOfRange)
                        &&& *final(self) == *old(self)
                    }
                },
            },
    {
        let class = match hero_classes.get(self.class.as_str()) {
            Some(c) => c,
            None => {
                return Err(BuildError::UnknownClass);
            },
        };
        proof {
            lemma_class_lookup_wf(hero_classes.entries@, self.class@);
        }
        if self.level < 1 || (self.level as usize) > class.base_hp.len() {
            return Err(BuildError::LevelOutOfRange);
        }
        let level_index = (self.level - 1) as usize;
        self.hp = class.base_hp[level_index];
        self.atk = class.base_atk[level_index];
        self.def = class.base_def[level_index];
        self.eva = class.base_eva;
        self.crit_chance = class.base_crit_chance;
        self.crit_mult = class.base_crit_mult;
        self.element_type = class.element_type.clone();
        Ok(())
    }
}

} // verus!
