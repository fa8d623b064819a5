//! Character-sheet values handed to the mobile sheet UI, and what it is
//! shown when a payload cannot be read: a zeroed block, never a crash.

use vstd::prelude::*;

verus! {

/// A named derived value (an ability, save, or skill) and its bonus.
pub struct NamedBonus {
    pub name: String,
    pub bonus: i32,
}

/// Everything the sheet UI derives from the raw scores, computed in one
/// call per edit.
pub struct DerivedStats {
    /// Character level: sum of per-class levels.
    pub level: i32,
    pub proficiency_bonus: i32,
    pub ability_modifiers: Vec<NamedBonus>,
    pub saving_throw_bonuses: Vec<NamedBonus>,
    pub skill_bonuses: Vec<NamedBonus>,
    pub initiative: i32,
    pub passive_perception: i32,
}

/// Every number zero and every list empty.
pub open spec fn is_zeroed(d: DerivedStats) -> bool {
    &&& d.level == 0
    &&& d.proficiency_bonus == 0
    &&& d.ability_modifiers@.len() == 0
    &&& d.saving_throw_bonuses@.len() == 0
    &&& d.skill_bonuses@.len() == 0
    &&& d.initiative == 0
    &&& d.passive_perception == 0
}

impl DerivedStats {
    /// The block shown for a payload that cannot be read.
    pub fn zeroed() -> (r: DerivedStats)
        ensures
            is_zeroed(r),
    {
        DerivedStats {
            level: 0,
            proficiency_bonus: 0,
            ability_modifiers: Vec::new(),
            saving_throw_bonuses: Vec::new(),
            skill_bonuses: Vec::new(),
            initiative: 0,
            passive_perception: 0,
        }
    }
}

/// The derived stats of a sheet that was read, or the zeroed block for
/// one that was not.
pub fn stats_or_zeroed(derived: Option<DerivedStats>) -> (r: DerivedStats)
    ensures
        derived matches Some(d) ==> r == d,
        derived is None ==> is_zeroed(r),
{
    match derived {
        Some(d) => d,
        None => DerivedStats::zeroed(),
    }
}

/// The JSON answer of a multiclass check, or an empty JSON array when
/// the input could not be read or the answer not written.
pub fn multiclass_or_empty(answer: Option<String>) -> (r: String)
    ensures
        answer matches Some(a) ==> r == a,
        answer is None ==> r@ == "[]"@,
{
    match answer {
        Some(a) => a,
        None => String::from_str("[]"),
    }
}

} // verus!
