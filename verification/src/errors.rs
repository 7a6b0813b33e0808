//! Error kinds for hero resolution.
//!
//! Every lookup or format failure during resolution is a data-authoring
//! defect: it aborts resolution of the affected hero and is reported as an
//! explicit error value rather than a process abort. Slot-carrying variants
//! name the equipment slot (0..6) whose descriptor or item was at fault.

use vstd::prelude::*;

verus! {

/// A fatal configuration or data-integrity error found while resolving a hero.
#[derive(Clone, Copy, Debug, PartialEq, Eq, Structural)]
pub enum BuildError {
    /// The hero's class name is not in the class table.
    UnknownClass,
    /// The hero's level is zero or beyond the class's base-stat curves.
    LevelOutOfRange,
    /// The equipped item in this slot is not in the blueprint table.
    UnknownItem { slot: usize },
    /// The item in this slot has a type the class does not allow there.
    DisallowedItemType { slot: usize },
    /// A learned skill name is not in the skill table.
    UnknownSkill { index: usize },
    /// The class has no entry in the class-to-innate-family map.
    UnknownInnateFamily,
    /// No innate-skill definition qualifies at the hero's investment level.
    NoQualifyingInnateTier,
    /// A socketed element descriptor does not parse as `"<name> <grade>"`.
    MalformedElement { slot: usize },
    /// A socketed element descriptor has a grade outside 1..=4.
    UnknownElementGrade { slot: usize },
    /// A socketed spirit descriptor does not parse as `"<name> <tier>"`.
    MalformedSpirit { slot: usize },
    /// A socketed spirit descriptor has an unrecognized tier code.
    UnknownSpiritTier { slot: usize },
    /// An equipment quality code is not one of the five recognized codes.
    UnknownQuality { slot: usize },
}

} // verus!
