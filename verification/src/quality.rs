//! Equipment quality codes and their stat multipliers.
//!
//! The five quality codes form a closed set. An unlisted code never resolves
//! to a multiplier: parsing fails instead of defaulting, so a typo in game
//! data is a fatal error, not a silent "Normal".

use vstd::prelude::*;
use crate::SCALE_BP;
use crate::strutil::str_eq;

verus! {

/// A recognized equipment quality tier.
#[derive(Clone, Copy, Debug, PartialEq, Eq, Structural)]
pub enum Quality {
    Normal,
    Superior,
    Flawless,
    Epic,
    Legendary,
}

/// The stat multiplier of a quality tier, in basis points.
/// Total over `Quality`: every tier has exactly one multiplier.
pub open spec fn spec_quality_multiplier_bp(q: Quality) -> u64 {
    match q {
        Quality::Normal => 10000,
        Quality::Superior => 12500,
        Quality::Flawless => 15000,
        Quality::Epic => 20000,
        Quality::Legendary => 30000,
    }
}

/// True when `s` is one of the five recognized quality codes.
pub open spec fn is_quality_code(s: Seq<char>) -> bool {
    ||| s == "Normal"@
    ||| s == "Superior"@
    ||| s == "Flawless"@
    ||| s == "Epic"@
    ||| s == "Legendary"@
}

/// The quality tier a code names, or `None` for an unlisted code.
pub open spec fn spec_parse_quality(s: Seq<char>) -> Option<Quality> {
    if s == "Normal"@ {
        Some(Quality::Normal)
    } else if s == "Superior"@ {
        Some(Quality::Superior)
    } else if s == "Flawless"@ {
        Some(Quality::Flawless)
    } else if s == "Epic"@ {
        Some(Quality::Epic)
    } else if s == "Legendary"@ {
        Some(Quality::Legendary)
    } else {
        None
    }
}

/// The quality multiplier table is total and exhaustive: a code resolves to
/// a multiplier exactly when it is one of the five listed codes, and every
/// listed tier's multiplier is at least the neutral factor, so an unlisted
/// code can never be mistaken for a silent "multiply by one".
pub proof fn lemma_quality_table_total()
    ensures
        forall|s: Seq<char>| #[trigger] spec_parse_quality(s) is Some <==> is_quality_code(s),
        forall|q: Quality| #[trigger] spec_quality_multiplier_bp(q) >= SCALE_BP,
{
}

/// Parses a quality code.
pub fn parse_quality(s: &str) -> (r: Option<Quality>)
    ensures
        r == spec_parse_quality(s@),
        r is Some <==> is_quality_code(s@),
{
    if str_eq(s, "Normal") {
        Some(Quality::Normal)
    } else if str_eq(s, "Superior") {
        Some(Quality::Superior)
    } else if str_eq(s, "Flawless") {
        Some(Quality::Flawless)
    } else if str_eq(s, "Epic") {
        Some(Quality::Epic)
    } else if str_eq(s, "Legendary") {
        Some(Quality::Legendary)
    } else {
        None
    }
}

/// Looks the multiplier of a quality tier up.
pub fn quality_multiplier_bp(q: Quality) -> (r: u64)
    ensures
        r == spec_quality_multiplier_bp(q),
{
    match q {
        Quality::Normal => 10000,
        Quality::Superior => 12500,
        Quality::Flawless => 15000,
        Quality::Epic => 20000,
        Quality::Legendary => 30000,
    }
}

} // verus!
