//! Socketed element bonuses.
//!
//! A socketed element descriptor reads `"<element> <grade>"` with a grade of
//! 1 to 4. A matching element contributes investment points on a fixed
//! grade-to-points ladder, and every socketed element grants a flat
//! Attack/Defense/HP bonus by grade, with two named exceptional variants
//! ("Luxurious" at grade 1, "Opulent" at grade 3) that grant materially
//! higher flat bonuses than their peers.

use vstd::prelude::*;
use crate::{StatTriple, lemma_affinity_boost_exact, spec_affinity_boost};
use crate::strutil::str_eq;

verus! {

/// Elemental investment points granted by a grade token, or `None` for a
/// grade outside 1..=4.
pub open spec fn spec_grade_points(grade: Seq<char>) -> Option<u16> {
    if grade == "1"@ {
        Some(5u16)
    } else if grade == "2"@ {
        Some(10u16)
    } else if grade == "3"@ {
        Some(15u16)
    } else if grade == "4"@ {
        Some(25u16)
    } else {
        None
    }
}

/// Looks the investment points of a grade token up.
pub fn grade_points(grade: &str) -> (r: Option<u16>)
    ensures
        r == spec_grade_points(grade@),
{
    if str_eq(grade, "1") {
        Some(5)
    } else if str_eq(grade, "2") {
        Some(10)
    } else if str_eq(grade, "3") {
        Some(15)
    } else if str_eq(grade, "4") {
        Some(25)
    } else {
        None
    }
}

/// The flat Attack/Defense/HP bonus (centi-units) of a socketed element, by
/// grade, with the two named exceptional variants. `None` for a grade
/// outside 1..=4.
pub open spec fn spec_element_flat(name: Seq<char>, grade: Seq<char>) -> Option<StatTriple> {
    if grade == "1"@ {
        if name == "Luxurious"@ {
            Some(StatTriple { atk: 2600, def: 1800, hp: 500 })
        } else {
            Some(StatTriple { atk: 1400, def: 1000, hp: 300 })
        }
    } else if grade == "2"@ {
        Some(StatTriple { atk: 3800, def: 2500, hp: 800 })
    } else if grade == "3"@ {
        if name == "Opulent"@ {
            Some(StatTriple { atk: 6300, def: 4200, hp: 1300 })
        } else {
            Some(StatTriple { atk: 4800, def: 3200, hp: 1000 })
        }
    } else if grade == "4"@ {
        Some(StatTriple { atk: 8900, def: 5900, hp: 1800 })
    } else {
        None
    }
}

/// Looks the flat bonus of a socketed element up.
pub fn element_flat(name: &str, grade: &str) -> (r: Option<StatTriple>)
    ensures
        r == spec_element_flat(name@, grade@),
{
    if str_eq(grade, "1") {
        if str_eq(name, "Luxurious") {
            Some(StatTriple { atk: 2600, def: 1800, hp: 500 })
        } else {
            Some(StatTriple { atk: 1400, def: 1000, hp: 300 })
        }
    } else if str_eq(grade, "2") {
        Some(StatTriple { atk: 3800, def: 2500, hp: 800 })
    } else if str_eq(grade, "3") {
        if str_eq(name, "Opulent") {
            Some(StatTriple { atk: 6300, def: 4200, hp: 1300 })
        } else {
            Some(StatTriple { atk: 4800, def: 3200, hp: 1000 })
        }
    } else if str_eq(grade, "4") {
        Some(StatTriple { atk: 8900, def: 5900, hp: 1800 })
    } else {
        None
    }
}

/// Every element flat-bonus entry is positive, even (so the affinity
/// amplification is exact), and small.
pub proof fn lemma_element_flat_entries(name: Seq<char>, grade: Seq<char>)
    ensures
        match spec_element_flat(name, grade) {
            Some(t) => {
                &&& 0 < t.atk <= 8900 && t.atk % 2 == 0
                &&& 0 < t.def <= 5900 && t.def % 2 == 0
                &&& 0 < t.hp <= 1800 && t.hp % 2 == 0
            },
            None => spec_grade_points(grade) is None,
        },
        spec_element_flat(name, grade) is Some <==> spec_grade_points(grade) is Some,
{
}

/// Matching an item's elemental affinity amplifies the socketed element's
/// flat bonus by exactly three halves, strictly increasing every field
/// relative to the non-matching case, all else equal.
pub proof fn lemma_element_affinity_amplifies(name: Seq<char>, grade: Seq<char>)
    ensures
        match spec_element_flat(name, grade) {
            Some(t) => {
                let b = spec_affinity_boost(t);
                &&& 2 * b.atk == 3 * t.atk && b.atk > t.atk
                &&& 2 * b.def == 3 * t.def && b.def > t.def
                &&& 2 * b.hp == 3 * t.hp && b.hp > t.hp
            },
            None => true,
        },
{
    lemma_element_flat_entries(name, grade);
    match spec_element_flat(name, grade) {
        Some(t) => {
            lemma_affinity_boost_exact(t);
        },
        None => {},
    }
}

} // verus!
