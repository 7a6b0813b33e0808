use hero_core::element::{element_flat, grade_points};
use hero_core::equipment::{Blueprint, create_blueprint};
use hero_core::errors::BuildError;
use hero_core::hero_builder::{Hero, HeroClass, _create_hero_class, create_hero};
use hero_core::quality::{Quality, parse_quality, quality_multiplier_bp};
use hero_core::skills::{HeroSkill, InnateSkill};
use hero_core::spirit::spirit_tier_flat;
use hero_core::strutil::{split_descriptor, str_eq};
use hero_core::table::Table;

fn s(x: &str) -> String {
    String::from(x)
}

fn s6(x: &str) -> [String; 6] {
    [s(x), s(x), s(x), s(x), s(x), s(x)]
}

fn s4(x: &str) -> [String; 4] {
    [s(x), s(x), s(x), s(x)]
}

/// A blueprint contributing nothing, allowed anywhere under type "Any".
fn zero_blueprint() -> Blueprint {
    create_blueprint(s("Any"), 0, 0, 0, 0, 0, s("NoAffinity"), s("NoSpirit"))
}

/// A skill granting nothing.
fn zero_skill() -> HeroSkill {
    HeroSkill {
        attack_percent: 0,
        attack_value: 0,
        hp_percent: 0,
        hp_value: 0,
        defense_percent: 0,
        evasion_percent: 0,
        crit_chance_percent: 0,
        crit_damage_percent: 0,
        rest_time_percent: 0,
        xp_percent: 0,
        survive_fatal_blow_chance_percent: 0,
        item_types: Vec::new(),
        attack_with_item_percent: 0,
        defense_with_item_percent: 0,
        bonus_stats_from_all_equipment_percent: 0,
    }
}

/// A class whose level-1 base Attack is 50.00 (5000 centi-units).
fn basic_class(name: &str, element: &str) -> HeroClass {
    _create_hero_class(
        s(name),
        s(""),
        0,
        0,
        vec![10000],
        vec![5000],
        vec![2000],
        100,
        500,
        15000,
        10,
        s(element),
        [
            vec![s("Any")],
            vec![s("Any")],
            vec![s("Any")],
            vec![s("Any")],
            vec![s("Any")],
            vec![s("Any")],
        ],
        [s("Flame"), s("Flame"), s("Flame"), s("Flame")],
    )
}

/// A raw level-1 hero of `class` with harmless sockets and no-op skills.
fn basic_hero(class: &str) -> Hero {
    create_hero(
        s("hero-1"),
        s(class),
        1,
        0,
        0,
        0,
        0,
        0,
        0,
        0,
        0,
        10,
        s(""),
        0,
        0,
        0,
        0,
        0,
        s4("Nothing"),
        s6("Bare Fists"),
        s6("Normal"),
        s6("Plain 1"),
        s6("Sprite T4"),
    )
}

struct Tables {
    bp_map: Table<Blueprint>,
    classes: Table<HeroClass>,
    skills: Table<HeroSkill>,
    families: Table<String>,
    innates: Table<InnateSkill>,
}

fn basic_tables(class: &HeroClass) -> Tables {
    let mut bp_map = Table::new();
    bp_map.insert(s("Bare Fists"), zero_blueprint());
    let mut classes = Table::new();
    classes.insert(class.class.clone(), class.clone());
    let mut skills = Table::new();
    skills.insert(s("Nothing"), zero_skill());
    let mut families = Table::new();
    families.insert(class.class.clone(), s("Flame"));
    let mut innates = Table::new();
    innates.insert(
        s("Flame I"),
        InnateSkill { name: s("Flame I"), tier_1_name: s("Flame"), element_qty_req: 0, skill_tier: 1 },
    );
    innates.insert(
        s("Flame II"),
        InnateSkill {
            name: s("Flame II"),
            tier_1_name: s("Flame"),
            element_qty_req: 10,
            skill_tier: 2,
        },
    );
    Tables { bp_map, classes, skills, families, innates }
}

#[test]
fn quality_codes_all_listed() {
    assert_eq!(parse_quality("Normal"), Some(Quality::Normal));
    assert_eq!(parse_quality("Superior"), Some(Quality::Superior));
    assert_eq!(parse_quality("Flawless"), Some(Quality::Flawless));
    assert_eq!(parse_quality("Epic"), Some(Quality::Epic));
    assert_eq!(parse_quality("Legendary"), Some(Quality::Legendary));
    assert_eq!(quality_multiplier_bp(Quality::Normal), 10000);
    assert_eq!(quality_multiplier_bp(Quality::Superior), 12500);
    assert_eq!(quality_multiplier_bp(Quality::Flawless), 15000);
    assert_eq!(quality_multiplier_bp(Quality::Epic), 20000);
    assert_eq!(quality_multiplier_bp(Quality::Legendary), 30000);
}

#[test]
fn quality_unlisted_code_fails() {
    assert_eq!(parse_quality("Shiny"), None);
    assert_eq!(parse_quality("normal"), None);
    assert_eq!(parse_quality(""), None);
}

#[test]
fn unknown_quality_is_a_resolution_error() {
    let class = basic_class("Knight", "Fire");
    let t = basic_tables(&class);
    let mut hero = basic_hero("Knight");
    hero.equipment_quality = s6("Shiny");
    assert!(hero.scale_by_class(&t.classes).is_ok());
    let r = hero.calculate_stat_improvements_from_gear_and_skills(
        &t.bp_map,
        &t.skills,
        &t.families,
        &t.innates,
    );
    assert_eq!(r, Err(BuildError::UnknownQuality { slot: 0 }));
}

#[test]
fn descriptor_splitting() {
    let (name, grade) = split_descriptor("Fire 2").unwrap();
    assert_eq!(name, "Fire");
    assert_eq!(grade, "2");
    assert!(split_descriptor("Fire").is_none());
    assert!(split_descriptor("Fire 2 x").is_none());
    assert!(split_descriptor(" 2").is_none());
    assert!(split_descriptor("Fire ").is_none());
    assert!(str_eq("abc", "abc"));
    assert!(!str_eq("abc", "abd"));
}

#[test]
fn element_grade_points_table() {
    assert_eq!(grade_points("1"), Some(5));
    assert_eq!(grade_points("2"), Some(10));
    assert_eq!(grade_points("3"), Some(15));
    assert_eq!(grade_points("4"), Some(25));
    assert_eq!(grade_points("5"), None);
    assert_eq!(grade_points("0"), None);
}

#[test]
fn element_flat_exceptional_variants() {
    let lux = element_flat("Luxurious", "1").unwrap();
    assert_eq!((lux.atk, lux.def, lux.hp), (2600, 1800, 500));
    let plain1 = element_flat("Fire", "1").unwrap();
    assert_eq!((plain1.atk, plain1.def, plain1.hp), (1400, 1000, 300));
    let opulent = element_flat("Opulent", "3").unwrap();
    assert_eq!((opulent.atk, opulent.def, opulent.hp), (6300, 4200, 1300));
    let plain3 = element_flat("Fire", "3").unwrap();
    assert_eq!((plain3.atk, plain3.def, plain3.hp), (4800, 3200, 1000));
    assert!(element_flat("Fire", "9").is_none());
}

#[test]
fn spirit_tier_table() {
    let t4 = spirit_tier_flat("T4").unwrap();
    assert_eq!((t4.atk, t4.def, t4.hp), (1600, 1100, 300));
    let t12 = spirit_tier_flat("T12").unwrap();
    assert_eq!((t12.atk, t12.def, t12.hp), (8900, 5900, 1800));
    assert!(spirit_tier_flat("T3").is_none());
}

// A level-1 hero with no investment, zero-stat items and no-op skills
// resolves to exactly the class's level-1 base Attack.
#[test]
fn no_bonus_hero_keeps_base_attack() {
    let class = basic_class("Knight", "Fire");
    let t = basic_tables(&class);
    let mut hero = basic_hero("Knight");
    assert!(hero.validate_equipment(&t.bp_map, &t.classes).is_ok());
    assert!(hero.scale_by_class(&t.classes).is_ok());
    assert_eq!(hero.atk, 5000);
    let r = hero.calculate_stat_improvements_from_gear_and_skills(
        &t.bp_map,
        &t.skills,
        &t.families,
        &t.innates,
    );
    assert!(r.is_ok());
    assert_eq!(hero.atk, 5000);
    assert_eq!(hero.atk_modifier, 0);
    assert_eq!(hero.def, 2000);
    assert_eq!(hero.def_modifier, 0);
}

// Five HP seeds add exactly 5 x 4 = 20 points to the seeded base before any
// percent multiplier.
#[test]
fn hp_seeds_add_four_points_each() {
    let class = basic_class("Knight", "Fire");
    let t = basic_tables(&class);
    let mut hero = basic_hero("Knight");
    hero.hp_seeds = 5;
    assert!(hero.scale_by_class(&t.classes).is_ok());
    let r = hero.calculate_stat_improvements_from_gear_and_skills(
        &t.bp_map,
        &t.skills,
        &t.families,
        &t.innates,
    );
    assert!(r.is_ok());
    assert_eq!(hero.atk, 5000 + 5 * 400);
}

// "Fire 2" contributes 10 points on a Fire-aligned hero and 0 on a
// Water-aligned one.
#[test]
fn element_descriptor_matches_alignment_only() {
    let mut hero = basic_hero("Knight");
    hero.element_type = s("Fire");
    hero.elements_socketed = [s("Fire 2"), s("Ice 4"), s("Plain 1"), s("Plain 1"), s("Plain 1"), s("Plain 1")];
    assert_eq!(hero.calculate_element_qty(), Ok(10));
    hero.element_type = s("Water");
    assert_eq!(hero.calculate_element_qty(), Ok(0));
}

#[test]
fn element_descriptor_errors() {
    let mut hero = basic_hero("Knight");
    hero.elements_socketed[2] = s("Fire");
    assert_eq!(
        hero.calculate_element_qty(),
        Err(BuildError::MalformedElement { slot: 2 })
    );
    hero.elements_socketed[2] = s("Fire 7");
    assert_eq!(
        hero.calculate_element_qty(),
        Err(BuildError::UnknownElementGrade { slot: 2 })
    );
}

#[test]
fn spirit_qty_counts_exact_matches() {
    let mut hero = basic_hero("Knight");
    hero.spirits_socketed = [
        s("Shark T9"),
        s("Shark T9"),
        s("Lizard T7"),
        s("Shark T9"),
        s("Sprite T4"),
        s("Sprite T4"),
    ];
    assert_eq!(hero.calculate_spirit_qty(s("Shark T9")), 3);
    assert_eq!(hero.calculate_spirit_qty(s("Lizard T7")), 1);
    assert_eq!(hero.calculate_spirit_qty(s("Mundra T10")), 0);
}

// Socket bonuses are capped at the item's own base stat in each dimension.
#[test]
fn socket_bonuses_capped_at_item_base() {
    let class = basic_class("Knight", "Fire");
    let mut t = basic_tables(&class);
    // Base Attack 10.00: the Luxurious element flat (26.00) and T4 spirit
    // flat (16.00) both cap at 10.00 each.
    t.bp_map = Table::new();
    t.bp_map.insert(
        s("Bare Fists"),
        create_blueprint(s("Any"), 1000, 0, 0, 0, 0, s("NoAffinity"), s("NoSpirit")),
    );
    let mut hero = basic_hero("Knight");
    hero.elements_socketed = [s("Luxurious 1"), s("Plain 1"), s("Plain 1"), s("Plain 1"), s("Plain 1"), s("Plain 1")];
    assert!(hero.scale_by_class(&t.classes).is_ok());
    let r = hero.calculate_stat_improvements_from_gear_and_skills(
        &t.bp_map,
        &t.skills,
        &t.families,
        &t.innates,
    );
    assert!(r.is_ok());
    // Slot 0: 1000 + min(2600, 1000) + min(1600, 1000) = 3000.
    // Slots 1-5: 1000 + min(1400, 1000) + min(1600, 1000) = 3000.
    assert_eq!(hero.atk, 5000 + 6 * 3000);
}

// An elemental affinity match amplifies the flat bonus by exactly x1.5.
#[test]
fn element_affinity_amplifies_by_half() {
    let class = basic_class("Knight", "Fire");
    let mut t = basic_tables(&class);
    // Big base so no cap interferes: base Attack 100.00.
    t.bp_map = Table::new();
    t.bp_map.insert(
        s("Bare Fists"),
        create_blueprint(s("Any"), 10000, 10000, 10000, 0, 0, s("Ember"), s("NoSpirit")),
    );
    let mut hero = basic_hero("Knight");
    hero.elements_socketed = [s("Ember 1"), s("Plain 1"), s("Plain 1"), s("Plain 1"), s("Plain 1"), s("Plain 1")];
    assert!(hero.scale_by_class(&t.classes).is_ok());
    let r = hero.calculate_stat_improvements_from_gear_and_skills(
        &t.bp_map,
        &t.skills,
        &t.families,
        &t.innates,
    );
    assert!(r.is_ok());
    // Matching slot 0: 10000 + 1400 * 3 / 2 + 1600 = 13700.
    // Slots 1-5: 10000 + 1400 + 1600 = 13000.
    assert_eq!(hero.atk, 5000 + 13700 + 5 * 13000);
}

// A spirit affinity match amplifies the flat tier bonus by exactly x1.5 and
// raises the named special effect to its matched magnitude.
#[test]
fn spirit_affinity_amplifies_and_special_applies() {
    let class = basic_class("Knight", "Fire");
    let mut t = basic_tables(&class);
    t.bp_map = Table::new();
    t.bp_map.insert(
        s("Bare Fists"),
        create_blueprint(s("Any"), 10000, 10000, 10000, 0, 0, s("NoAffinity"), s("Kraken")),
    );
    let mut hero = basic_hero("Knight");
    hero.spirits_socketed = [s("Kraken T4"), s("Sprite T4"), s("Sprite T4"), s("Sprite T4"), s("Sprite T4"), s("Sprite T4")];
    assert!(hero.scale_by_class(&t.classes).is_ok());
    let r = hero.calculate_stat_improvements_from_gear_and_skills(
        &t.bp_map,
        &t.skills,
        &t.families,
        &t.innates,
    );
    assert!(r.is_ok());
    // Gear: slot 0 matched Kraken: 10000 + 1400 + 1600 * 3 / 2 = 13800;
    // slots 1-5: 10000 + 1400 + 1600 = 13000. Gear total 78800.
    // Kraken matched special: +125.00 flat Attack, +15% Attack.
    // (5000 + 12500) * 1.15 + 78800 * 1.15 = 20125 + 90620.
    assert_eq!(hero.atk_modifier, 1500);
    assert_eq!(hero.atk, 20125 + 90620);
}

// Increasing elemental investment never lowers the selected innate tier.
#[test]
fn innate_tier_rises_with_investment() {
    let class = basic_class("Knight", "Fire");
    let t = basic_tables(&class);
    let mut hero = basic_hero("Knight");
    hero.element_type = s("Fire");
    // 5 points: only the zero-threshold tier qualifies.
    hero.elements_socketed = [s("Fire 1"), s("Plain 1"), s("Plain 1"), s("Plain 1"), s("Plain 1"), s("Plain 1")];
    assert!(hero.calculate_innate_tier(&t.families, &t.innates).is_ok());
    assert_eq!(hero.innate_tier, 1);
    // 15 points: the tier-2 threshold (10) is now strictly below.
    hero.elements_socketed = [s("Fire 3"), s("Plain 1"), s("Plain 1"), s("Plain 1"), s("Plain 1"), s("Plain 1")];
    assert!(hero.calculate_innate_tier(&t.families, &t.innates).is_ok());
    assert_eq!(hero.innate_tier, 2);
}

#[test]
fn innate_tier_requires_strictly_exceeding_threshold() {
    let class = basic_class("Knight", "Fire");
    let t = basic_tables(&class);
    let mut hero = basic_hero("Knight");
    hero.element_type = s("Fire");
    // Exactly 10 points: the tier-2 threshold of 10 is not strictly below.
    hero.elements_socketed = [s("Fire 2"), s("Plain 1"), s("Plain 1"), s("Plain 1"), s("Plain 1"), s("Plain 1")];
    assert!(hero.calculate_innate_tier(&t.families, &t.innates).is_ok());
    assert_eq!(hero.innate_tier, 1);
}

#[test]
fn innate_tier_errors() {
    let class = basic_class("Knight", "Fire");
    let t = basic_tables(&class);
    let mut hero = basic_hero("Knight");
    hero.class = s("Stranger");
    assert_eq!(
        hero.calculate_innate_tier(&t.families, &t.innates),
        Err(BuildError::UnknownInnateFamily)
    );
    let mut empty_innates: Table<InnateSkill> = Table::new();
    empty_innates.insert(
        s("Flame V"),
        InnateSkill {
            name: s("Flame V"),
            tier_1_name: s("Flame"),
            element_qty_req: 500,
            skill_tier: 5,
        },
    );
    let mut hero2 = basic_hero("Knight");
    assert_eq!(
        hero2.calculate_innate_tier(&t.families, &empty_innates),
        Err(BuildError::NoQualifyingInnateTier)
    );
}

#[test]
fn geomancer_turns_investment_into_attack_percent() {
    let class = basic_class("Geomancer", "Fire");
    let t = basic_tables(&class);
    let mut hero = basic_hero("Geomancer");
    hero.element_type = s("Fire");
    hero.elements_socketed = [s("Fire 4"), s("Plain 1"), s("Plain 1"), s("Plain 1"), s("Plain 1"), s("Plain 1")];
    assert!(hero.scale_by_class(&t.classes).is_ok());
    // scale_by_class overwrote the alignment with the class's "Fire".
    let r = hero.calculate_stat_improvements_from_gear_and_skills(
        &t.bp_map,
        &t.skills,
        &t.families,
        &t.innates,
    );
    assert!(r.is_ok());
    // 25 points -> +25%: 5000 * 1.25 = 6250.
    assert_eq!(hero.atk_modifier, 2500);
    assert_eq!(hero.atk, 6250);
}

#[test]
fn chieftain_turns_threat_into_attack_percent() {
    let class = basic_class("Chieftain", "Fire");
    let t = basic_tables(&class);
    let mut hero = basic_hero("Chieftain");
    hero.threat_rating = 10;
    assert!(hero.scale_by_class(&t.classes).is_ok());
    let r = hero.calculate_stat_improvements_from_gear_and_skills(
        &t.bp_map,
        &t.skills,
        &t.families,
        &t.innates,
    );
    assert!(r.is_ok());
    // 40% of threat 10 -> +4%: 5000 * 1.04 = 5200.
    assert_eq!(hero.atk_modifier, 400);
    assert_eq!(hero.atk, 5200);
}

#[test]
fn skill_bonuses_aggregate() {
    let class = basic_class("Knight", "Fire");
    let mut t = basic_tables(&class);
    let mut skill = zero_skill();
    skill.attack_percent = 1000;
    skill.attack_value = 500;
    skill.defense_percent = 500;
    t.skills = Table::new();
    t.skills.insert(s("Nothing"), zero_skill());
    t.skills.insert(s("Rage"), skill);
    let mut hero = basic_hero("Knight");
    hero.skills = [s("Rage"), s("Nothing"), s("Nothing"), s("Nothing")];
    assert!(hero.scale_by_class(&t.classes).is_ok());
    let r = hero.calculate_stat_improvements_from_gear_and_skills(
        &t.bp_map,
        &t.skills,
        &t.families,
        &t.innates,
    );
    assert!(r.is_ok());
    // Attack: (5000 + 500) * 1.10 = 6050.
    assert_eq!(hero.atk_modifier, 1000);
    assert_eq!(hero.atk, 6050);
    // Defense mirrors the composition: 2000 * 1.05 = 2100.
    assert_eq!(hero.def_modifier, 500);
    assert_eq!(hero.def, 2100);
}

#[test]
fn quality_multiplier_scales_item_base() {
    let class = basic_class("Knight", "Fire");
    let mut t = basic_tables(&class);
    t.bp_map = Table::new();
    t.bp_map.insert(
        s("Bare Fists"),
        create_blueprint(s("Any"), 1000, 0, 0, 0, 0, s("NoAffinity"), s("NoSpirit")),
    );
    let mut hero = basic_hero("Knight");
    hero.equipment_quality =
        [s("Legendary"), s("Normal"), s("Normal"), s("Normal"), s("Normal"), s("Normal")];
    assert!(hero.scale_by_class(&t.classes).is_ok());
    let r = hero.calculate_stat_improvements_from_gear_and_skills(
        &t.bp_map,
        &t.skills,
        &t.families,
        &t.innates,
    );
    assert!(r.is_ok());
    // Slot 0: 1000 * 3.0 + 1000 + 1000 = 5000; slots 1-5: 3000 each.
    assert_eq!(hero.atk, 5000 + 5000 + 5 * 3000);
}

#[test]
fn with_item_percent_applies_to_matching_slots() {
    let class = basic_class("Knight", "Fire");
    let mut t = basic_tables(&class);
    t.bp_map = Table::new();
    t.bp_map.insert(
        s("Bare Fists"),
        create_blueprint(s("Any"), 1000, 0, 0, 0, 0, s("NoAffinity"), s("NoSpirit")),
    );
    let mut skill = zero_skill();
    skill.item_types = vec![s("Any")];
    skill.attack_with_item_percent = 1000;
    t.skills = Table::new();
    t.skills.insert(s("Nothing"), zero_skill());
    t.skills.insert(s("Weapon Drill"), skill);
    let mut hero = basic_hero("Knight");
    hero.skills = [s("Weapon Drill"), s("Nothing"), s("Nothing"), s("Nothing")];
    assert!(hero.scale_by_class(&t.classes).is_ok());
    let r = hero.calculate_stat_improvements_from_gear_and_skills(
        &t.bp_map,
        &t.skills,
        &t.families,
        &t.innates,
    );
    assert!(r.is_ok());
    // Every slot's item is of the listed type: 3000 * 1.10 = 3300 each.
    assert_eq!(hero.atk, 5000 + 6 * 3300);
    assert_eq!(hero.atk_modifier, 0);
}

#[test]
fn all_equipment_percent_scales_every_item() {
    let class = basic_class("Knight", "Fire");
    let mut t = basic_tables(&class);
    t.bp_map = Table::new();
    t.bp_map.insert(
        s("Bare Fists"),
        create_blueprint(s("Any"), 1000, 0, 0, 0, 0, s("NoAffinity"), s("NoSpirit")),
    );
    let mut skill = zero_skill();
    skill.bonus_stats_from_all_equipment_percent = 500;
    t.skills = Table::new();
    t.skills.insert(s("Nothing"), zero_skill());
    t.skills.insert(s("Quartermaster"), skill);
    let mut hero = basic_hero("Knight");
    hero.skills = [s("Quartermaster"), s("Nothing"), s("Nothing"), s("Nothing")];
    assert!(hero.scale_by_class(&t.classes).is_ok());
    let r = hero.calculate_stat_improvements_from_gear_and_skills(
        &t.bp_map,
        &t.skills,
        &t.families,
        &t.innates,
    );
    assert!(r.is_ok());
    // Every slot: 3000 * 1.05 = 3150.
    assert_eq!(hero.atk, 5000 + 6 * 3150);
}

#[test]
fn validate_equipment_errors() {
    let class = basic_class("Knight", "Fire");
    let t = basic_tables(&class);
    let mut hero = basic_hero("Knight");
    hero.class = s("Stranger");
    assert_eq!(
        hero.validate_equipment(&t.bp_map, &t.classes),
        Err(BuildError::UnknownClass)
    );
    let mut hero2 = basic_hero("Knight");
    hero2.equipment_equipped[3] = s("Ghost Blade");
    assert_eq!(
        hero2.validate_equipment(&t.bp_map, &t.classes),
        Err(BuildError::UnknownItem { slot: 3 })
    );
    let mut narrow = basic_class("Monk", "Fire");
    narrow.equipment_allowed[1] = vec![s("Staff")];
    let mut t2 = basic_tables(&narrow);
    t2.classes = Table::new();
    t2.classes.insert(s("Monk"), narrow);
    let hero3 = basic_hero("Monk");
    assert_eq!(
        hero3.validate_equipment(&t2.bp_map, &t2.classes),
        Err(BuildError::DisallowedItemType { slot: 1 })
    );
}

#[test]
fn resolution_lookup_errors() {
    let class = basic_class("Knight", "Fire");
    let t = basic_tables(&class);
    let mut hero = basic_hero("Knight");
    hero.equipment_equipped[0] = s("Ghost Blade");
    let r = hero.calculate_stat_improvements_from_gear_and_skills(
        &t.bp_map,
        &t.skills,
        &t.families,
        &t.innates,
    );
    assert_eq!(r, Err(BuildError::UnknownItem { slot: 0 }));
    let mut hero2 = basic_hero("Knight");
    hero2.skills[2] = s("Forgotten Art");
    let r2 = hero2.calculate_stat_improvements_from_gear_and_skills(
        &t.bp_map,
        &t.skills,
        &t.families,
        &t.innates,
    );
    assert_eq!(r2, Err(BuildError::UnknownSkill { index: 2 }));
    let mut hero3 = basic_hero("Knight");
    hero3.spirits_socketed[4] = s("Wolf");
    let r3 = hero3.calculate_stat_improvements_from_gear_and_skills(
        &t.bp_map,
        &t.skills,
        &t.families,
        &t.innates,
    );
    assert_eq!(r3, Err(BuildError::MalformedSpirit { slot: 4 }));
    let mut hero4 = basic_hero("Knight");
    hero4.spirits_socketed[4] = s("Wolf T3");
    let r4 = hero4.calculate_stat_improvements_from_gear_and_skills(
        &t.bp_map,
        &t.skills,
        &t.families,
        &t.innates,
    );
    assert_eq!(r4, Err(BuildError::UnknownSpiritTier { slot: 4 }));
}

#[test]
fn scale_by_class_errors() {
    let class = basic_class("Knight", "Fire");
    let t = basic_tables(&class);
    let mut hero = basic_hero("Knight");
    hero.class = s("Stranger");
    assert_eq!(hero.scale_by_class(&t.classes), Err(BuildError::UnknownClass));
    let mut hero2 = basic_hero("Knight");
    hero2.level = 2;
    assert_eq!(hero2.scale_by_class(&t.classes), Err(BuildError::LevelOutOfRange));
    let mut hero3 = basic_hero("Knight");
    hero3.level = 0;
    assert_eq!(hero3.scale_by_class(&t.classes), Err(BuildError::LevelOutOfRange));
}

#[test]
fn innate_skill_name_lookup() {
    let class = basic_class("Knight", "Fire");
    let t = basic_tables(&class);
    let hero = basic_hero("Knight");
    assert_eq!(hero.calculate_innate_skill_name(&t.families), Ok(s("Flame")));
}

#[test]
fn sim_hero_summary() {
    let mut hero = basic_hero("Knight");
    hero.element_type = s("Fire");
    hero.elements_socketed = [s("Fire 2"), s("Fire 1"), s("Plain 1"), s("Plain 1"), s("Plain 1"), s("Plain 1")];
    hero.spirits_socketed = [
        s("Shark T9"),
        s("Armadillo T7"),
        s("Armadillo T7"),
        s("Mundra T10"),
        s("Sprite T4"),
        s("Sprite T4"),
    ];
    hero.atk = 1234;
    let sim = hero.to_sim_hero().unwrap();
    assert_eq!(sim.element_qty, 15);
    assert_eq!(sim.armadillo_qty, 2);
    assert_eq!(sim.shark_qty, 1);
    assert_eq!(sim.mundra_qty, 1);
    assert_eq!(sim.lizard_qty, 0);
    assert_eq!(sim.dinosaur_qty, 0);
    assert_eq!(sim.atk, 1234);
    assert_eq!(sim.identifier, s("hero-1"));
}

#[test]
fn hero_input_round_trip_fields() {
    let mut hero = basic_hero("Knight");
    hero.hp_seeds = 3;
    let input = hero.clone().to_hero_input();
    assert_eq!(input.identifier, hero.identifier);
    assert_eq!(input.class, hero.class);
    assert_eq!(input.hp_seeds, 3);
    assert_eq!(input.skills, hero.skills);
    assert_eq!(input.equipment_equipped, hero.equipment_equipped);
}

#[test]
fn table_lookup_first_binding_wins() {
    let mut t: Table<u64> = Table::new();
    t.insert(s("a"), 1);
    t.insert(s("b"), 2);
    t.insert(s("a"), 3);
    assert_eq!(t.get("a"), Some(&1));
    assert_eq!(t.get("b"), Some(&2));
    assert_eq!(t.get("c"), None);
}
