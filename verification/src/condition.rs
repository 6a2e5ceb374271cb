//! The per-turn condition: a multiplier category that scales quality gains,
//! progress gains, durability losses and craft-point costs for one turn.

use vstd::prelude::*;
use crate::strcmp::str_eq;

verus! {

/// The condition of the current turn. Exactly one is active per turn.
#[derive(Copy, Clone, Debug, PartialEq, Eq, Structural)]
pub enum Condition {
    /// The baseline category, always reachable.
    Normal,
    /// Touch efficiency x1.5.
    Good,
    /// Touch efficiency x4.
    Excellent,
    /// Touch efficiency x0.5.
    Poor,
    /// Success rate +25%.
    Centered,
    /// Durability loss halved; stacks with the frugal buff.
    Sturdy,
    /// Craft-point costs halved.
    Pliant,
    /// Synthesis efficiency x1.5.
    Malleable,
    /// Buffs cast this turn last two extra turns.
    Primed,
    /// The next turn is guaranteed to be `Good`.
    GoodOmen,
}

impl Condition {
    /// The position of this condition's bit inside a recipe's condition mask.
    pub open spec fn bit_index(self) -> int {
        match self {
            Condition::Normal => 0,
            Condition::Good => 1,
            Condition::Excellent => 2,
            Condition::Poor => 3,
            Condition::Centered => 4,
            Condition::Sturdy => 5,
            Condition::Pliant => 6,
            Condition::Malleable => 7,
            Condition::Primed => 8,
            Condition::GoodOmen => 9,
        }
    }

    /// This condition's bit inside a recipe's condition mask, as a one-hot
    /// value: `1` shifted left by `bit_index`.
    pub open spec fn spec_mask(self) -> i32 {
        match self {
            Condition::Normal => 1,
            Condition::Good => 2,
            Condition::Excellent => 4,
            Condition::Poor => 8,
            Condition::Centered => 16,
            Condition::Sturdy => 32,
            Condition::Pliant => 64,
            Condition::Malleable => 128,
            Condition::Primed => 256,
            Condition::GoodOmen => 512,
        }
    }

    /// This condition's bit inside a recipe's condition mask.
    pub fn mask(self) -> (r: i32)
        ensures
            r == self.spec_mask(),
    {
        match self {
            Condition::Normal => 1,
            Condition::Good => 2,
            Condition::Excellent => 4,
            Condition::Poor => 8,
            Condition::Centered => 16,
            Condition::Sturdy => 32,
            Condition::Pliant => 64,
            Condition::Malleable => 128,
            Condition::Primed => 256,
            Condition::GoodOmen => 512,
        }
    }

    /// Touch (quality) multiplier of this condition, in hundredths.
    pub open spec fn spec_touch_ratio_pct(self) -> int {
        match self {
            Condition::Good => 150,
            Condition::Excellent => 400,
            Condition::Poor => 50,
            _ => 100,
        }
    }

    /// Synthesis (progress) multiplier of this condition, in hundredths.
    pub open spec fn spec_synth_ratio_pct(self) -> int {
        match self {
            Condition::Malleable => 150,
            _ => 100,
        }
    }

    /// Touch multiplier in hundredths: x1.5 on `Good`, x4 on `Excellent`,
    /// x0.5 on `Poor`, x1 otherwise.
    pub fn touch_ratio_pct(self) -> (r: u32)
        ensures
            r == self.spec_touch_ratio_pct(),
    {
        match self {
            Condition::Good => 150,
            Condition::Excellent => 400,
            Condition::Poor => 50,
            _ => 100,
        }
    }

    /// Synthesis multiplier in hundredths: x1.5 on `Malleable`, x1 otherwise.
    pub fn synth_ratio_pct(self) -> (r: u32)
        ensures
            r == self.spec_synth_ratio_pct(),
    {
        match self {
            Condition::Malleable => 150,
            _ => 100,
        }
    }

    /// The canonical name of a condition, in spec form.
    pub open spec fn spec_name(self) -> Seq<char> {
        match self {
            Condition::Normal => "normal"@,
            Condition::Good => "good"@,
            Condition::Excellent => "excellent"@,
            Condition::Poor => "poor"@,
            Condition::Centered => "centered"@,
            Condition::Sturdy => "sturdy"@,
            Condition::Pliant => "pliant"@,
            Condition::Malleable => "malleable"@,
            Condition::Primed => "primed"@,
            Condition::GoodOmen => "good_omen"@,
        }
    }

    /// The canonical lowercase snake_case name of this condition.
    pub fn name(self) -> (r: &'static str)
        ensures
            r@ == self.spec_name(),
    {
        match self {
            Condition::Normal => "normal",
            Condition::Good => "good",
            Condition::Excellent => "excellent",
            Condition::Poor => "poor",
            Condition::Centered => "centered",
            Condition::Sturdy => "sturdy",
            Condition::Pliant => "pliant",
            Condition::Malleable => "malleable",
            Condition::Primed => "primed",
            Condition::GoodOmen => "good_omen",
        }
    }

    /// What parsing a condition name yields, in spec form.
    pub open spec fn spec_from_name(s: Seq<char>) -> Option<Condition> {
        if s == "normal"@ {
            Some(Condition::Normal)
        } else if s == "good"@ {
            Some(Condition::Good)
        } else if s == "excellent"@ {
            Some(Condition::Excellent)
        } else if s == "poor"@ {
            Some(Condition::Poor)
        } else if s == "centered"@ {
            Some(Condition::Centered)
        } else if s == "sturdy"@ {
            Some(Condition::Sturdy)
        } else if s == "pliant"@ {
            Some(Condition::Pliant)
        } else if s == "malleable"@ {
            Some(Condition::Malleable)
        } else if s == "primed"@ {
            Some(Condition::Primed)
        } else if s == "good_omen"@ {
            Some(Condition::GoodOmen)
        } else {
            None
        }
    }

    /// Parses a canonical condition name; an unknown name gives `None`.
    pub fn from_name(name: &str) -> (r: Option<Condition>)
        ensures
            r == Condition::spec_from_name(name@),
    {
        if str_eq(name, "normal") {
            Some(Condition::Normal)
        } else if str_eq(name, "good") {
            Some(Condition::Good)
        } else if str_eq(name, "excellent") {
            Some(Condition::Excellent)
        } else if str_eq(name, "poor") {
            Some(Condition::Poor)
        } else if str_eq(name, "centered") {
            Some(Condition::Centered)
        } else if str_eq(name, "sturdy") {
            Some(Condition::Sturdy)
        } else if str_eq(name, "pliant") {
            Some(Condition::Pliant)
        } else if str_eq(name, "malleable") {
            Some(Condition::Malleable)
        } else if str_eq(name, "primed") {
            Some(Condition::Primed)
        } else if str_eq(name, "good_omen") {
            Some(Condition::GoodOmen)
        } else {
            None
        }
    }
}

} // verus!
