//! The immutable inputs of one simulated craft: the player's attributes, the
//! recipe-level constants supplied by the caller's data tables, the recipe
//! derived from them, and the two cached per-craft base units.

use vstd::prelude::*;

verus! {

/// The player's equipment attributes, immutable for one simulation.
#[derive(Copy, Clone, Debug, Hash, Eq, PartialEq, Structural)]
pub struct Attributes {
    /// Player level.
    pub level: u8,
    /// Craftsmanship: the proficiency score driving progress.
    pub craftsmanship: i32,
    /// Control: the proficiency score driving quality.
    pub control: i32,
    /// Craft-point capacity: the resource pool the player starts with.
    pub craft_points: i32,
}

impl Attributes {
    /// Attributes are stats: none of them is negative.
    pub open spec fn wf(self) -> bool {
        &&& self.craftsmanship >= 0
        &&& self.control >= 0
        &&& self.craft_points >= 0
    }

    /// Bundles the player's stats.
    pub fn new(level: u8, craftsmanship: i32, control: i32, craft_points: i32) -> (r: Self)
        ensures
            r == (Attributes { level, craftsmanship, control, craft_points }),
    {
        Self { level, craftsmanship, control, craft_points }
    }
}

/// The constants of one recipe level, as the caller's data tables supply
/// them: base difficulty, quality and durability, the level-correction
/// divisors and modifiers, and the mask of reachable conditions.
#[derive(Copy, Clone, Debug, Hash, Eq, PartialEq, Structural)]
pub struct RecipeLevel {
    /// The player level the recipe is intended for.
    pub class_job_level: u8,
    /// Star count of the recipe, informational only.
    pub stars: u8,
    /// Suggested craftsmanship, informational only.
    pub suggested_craftsmanship: u16,
    /// Suggested control, informational only.
    pub suggested_control: u16,
    /// Base difficulty (progress cap before scaling).
    pub difficulty: u16,
    /// Base quality cap before scaling.
    pub quality: u32,
    /// Divisor of the progress base unit.
    pub progress_divider: u8,
    /// Divisor of the quality base unit.
    pub quality_divider: u8,
    /// Percentage modifier of the progress base unit, applied when the
    /// player's level does not exceed the recipe's.
    pub progress_modifier: u8,
    /// Percentage modifier of the quality base unit, applied when the
    /// player's level does not exceed the recipe's.
    pub quality_modifier: u8,
    /// Base durability before scaling.
    pub durability: u16,
    /// Bitmask of the conditions this recipe can roll, indexed by
    /// `Condition::bit_index`; the `Normal` bit is always set.
    pub conditions_flag: u16,
}

/// One recipe: the per-craft constants, derived once from a
/// [`RecipeLevel`] and three percentage scaling factors.
#[derive(Copy, Clone, Debug, Hash, Eq, PartialEq, Structural)]
pub struct Recipe {
    /// Identifier of the recipe level the recipe was derived from.
    pub rlv: i32,
    /// The player level the recipe asks for.
    pub job_level: u8,
    /// Difficulty: the progress cap.
    pub difficulty: u16,
    /// The quality cap.
    pub quality: u32,
    /// The durability budget.
    pub durability: u16,
    /// Bitmask of the conditions this craft can roll; the `Normal` bit is
    /// always set.
    pub conditions_flag: u16,
}

impl Recipe {
    /// The `Normal` condition is always reachable.
    pub open spec fn wf(self) -> bool {
        self.conditions_flag & 1 == 1
    }

    /// Derives the per-craft constants from a recipe level and three
    /// percentage factors. Difficulty keeps the low sixteen bits of the
    /// scaled value; quality and durability must fit their fields.
    pub fn new(
        rlv: i32,
        rt: RecipeLevel,
        difficulty_factor: u16,
        quality_factor: u16,
        durability_factor: u16,
    ) -> (r: Self)
        requires
            rt.quality * quality_factor <= u32::MAX,
            rt.durability * durability_factor <= u16::MAX,
        ensures
            r.rlv == rlv,
            r.job_level == rt.class_job_level,
            r.difficulty == (rt.difficulty * difficulty_factor / 100) % 0x10000,
            r.quality == rt.quality * quality_factor / 100,
            r.durability == rt.durability * durability_factor / 100,
            r.conditions_flag == rt.conditions_flag,
    {
        proof {
            vstd::arithmetic::mul::lemma_mul_upper_bound(
                rt.difficulty as int,
                0xFFFF,
                difficulty_factor as int,
                0xFFFF,
            );
        }
        let scaled_difficulty: u32 = rt.difficulty as u32 * difficulty_factor as u32 / 100;
        Self {
            rlv,
            job_level: rt.class_job_level,
            difficulty: (scaled_difficulty % 0x10000) as u16,
            quality: rt.quality * quality_factor as u32 / 100,
            durability: rt.durability * durability_factor / 100,
            conditions_flag: rt.conditions_flag,
        }
    }
}

/// The base progress unit: what a 100%-efficiency synthesis action advances
/// with no buff and a normal condition. The division and the percentage
/// modifier are applied as one exact rational, rounded down once.
pub open spec fn spec_base_synth(attributes: Attributes, recipe: Recipe, rlv: RecipeLevel) -> int {
    let numerator = attributes.craftsmanship * 10 + 2 * rlv.progress_divider;
    if attributes.level <= recipe.job_level {
        numerator * rlv.progress_modifier / (rlv.progress_divider * 100)
    } else {
        numerator / rlv.progress_divider as int
    }
}

/// The base quality unit: what a 100%-efficiency touch action advances with
/// no buff, no stack and a normal condition.
pub open spec fn spec_base_touch(attributes: Attributes, recipe: Recipe, rlv: RecipeLevel) -> int {
    let numerator = attributes.control * 10 + 35 * rlv.quality_divider;
    if attributes.level <= recipe.job_level {
        numerator * rlv.quality_modifier / (rlv.quality_divider * 100)
    } else {
        numerator / rlv.quality_divider as int
    }
}

/// The two per-craft constants precomputed at state creation and never
/// mutated afterwards.
#[derive(Copy, Clone, Debug, PartialEq, Eq, Structural)]
pub struct Caches {
    /// Progress advanced by a plain 100%-efficiency synthesis action.
    pub base_synth: u64,
    /// Quality advanced by a plain 100%-efficiency touch action.
    pub base_touch: u64,
}

impl Caches {
    /// Computes both base units once, from attributes and recipe constants.
    pub fn new(attributes: &Attributes, recipe: &Recipe, rlv: &RecipeLevel) -> (r: Self)
        requires
            attributes.wf(),
            rlv.progress_divider >= 1,
            rlv.quality_divider >= 1,
        ensures
            r.base_synth == spec_base_synth(*attributes, *recipe, *rlv),
            r.base_touch == spec_base_touch(*attributes, *recipe, *rlv),
    {
        let synth_numerator: u64 = attributes.craftsmanship as u64 * 10 + 2 * rlv.progress_divider
            as u64;
        let touch_numerator: u64 = attributes.control as u64 * 10 + 35 * rlv.quality_divider
            as u64;
        proof {
            vstd::arithmetic::mul::lemma_mul_upper_bound(
                synth_numerator as int,
                0x5_0000_0400,
                rlv.progress_modifier as int,
                255,
            );
            vstd::arithmetic::mul::lemma_mul_upper_bound(
                touch_numerator as int,
                0x5_0000_4000,
                rlv.quality_modifier as int,
                255,
            );
        }
        Self {
            base_synth: if attributes.level <= recipe.job_level {
                synth_numerator * rlv.progress_modifier as u64 / (rlv.progress_divider as u64
                    * 100)
            } else {
                synth_numerator / rlv.progress_divider as u64
            },
            base_touch: if attributes.level <= recipe.job_level {
                touch_numerator * rlv.quality_modifier as u64 / (rlv.quality_divider as u64 * 100)
            } else {
                touch_numerator / rlv.quality_divider as u64
            },
        }
    }
}

} // verus!
