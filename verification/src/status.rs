//! The crafting state: the mutable aggregate one simulated craft runs on,
//! with its mathematical view and the state invariants every action
//! preserves.

use vstd::prelude::*;
use crate::buffs::Buffs;
use crate::condition::Condition;
use crate::recipe::Attributes;
use crate::recipe::Caches;
use crate::recipe::Recipe;
use crate::recipe::RecipeLevel;
use crate::recipe::spec_base_synth;
use crate::recipe::spec_base_touch;
use crate::rng::rng_from_entropy;
use crate::rng::rng_from_seed;

verus! {

/// All state of one simulated craft.
///
/// The aggregate is created from attributes and a recipe, mutated only by
/// the action-resolution engine, and discarded once `is_finished` holds or
/// the caller stops. The embedded generator feeds `simulate_one_step` only;
/// the deterministic engine never reads it.
#[derive(Clone, Debug)]
pub struct Status {
    /// The buffs currently active.
    pub buffs: Buffs,
    /// The player's attributes.
    pub attributes: Attributes,
    /// The recipe being crafted.
    pub recipe: Recipe,
    /// Precomputed base units.
    pub caches: Caches,
    pub(crate) rng: rand::rngs::SmallRng,
    /// Remaining durability.
    pub durability: u16,
    /// Remaining craft points.
    pub craft_points: i32,
    /// Progress toward the recipe's difficulty.
    pub progress: u16,
    /// Quality reached so far.
    pub quality: u32,
    /// Number of turns already taken.
    pub step: i32,
    /// The condition of the current turn.
    pub condition: Condition,
}

/// The mathematical view of a [`Status`]: every field the engine reads or
/// writes, without the embedded generator.
pub struct StatusV {
    /// The buffs currently active.
    pub buffs: Buffs,
    /// The player's attributes.
    pub attributes: Attributes,
    /// The recipe being crafted.
    pub recipe: Recipe,
    /// Precomputed base units.
    pub caches: Caches,
    /// Remaining durability.
    pub durability: u16,
    /// Remaining craft points.
    pub craft_points: i32,
    /// Progress toward the recipe's difficulty.
    pub progress: u16,
    /// Quality reached so far.
    pub quality: u32,
    /// Number of turns already taken.
    pub step: i32,
    /// The condition of the current turn.
    pub condition: Condition,
}

impl View for Status {
    type V = StatusV;

    open(crate) spec fn view(&self) -> StatusV {
        StatusV {
            buffs: self.buffs,
            attributes: self.attributes,
            recipe: self.recipe,
            caches: self.caches,
            durability: self.durability,
            craft_points: self.craft_points,
            progress: self.progress,
            quality: self.quality,
            step: self.step,
            condition: self.condition,
        }
    }
}

impl StatusV {
    /// The state invariants: durability, craft points, progress and quality
    /// sit inside their caps, the buff counters inside their ranges, and the
    /// step count is non-negative.
    pub open spec fn wf(self) -> bool {
        &&& self.attributes.wf()
        &&& self.recipe.wf()
        &&& self.buffs.wf()
        &&& self.durability <= self.recipe.durability
        &&& 0 <= self.craft_points <= self.attributes.craft_points
        &&& self.progress <= self.recipe.difficulty
        &&& self.quality <= self.recipe.quality
        &&& 0 <= self.step
    }

    /// A craft ends when progress reaches the difficulty or durability runs
    /// out.
    pub open spec fn spec_is_finished(self) -> bool {
        self.progress >= self.recipe.difficulty || self.durability <= 0
    }
}

/// One durability or cost halving step, `cost - cost / 2`.
pub open spec fn spec_halved(cost: int) -> int {
    cost - cost / 2
}

/// One halving step on a `u16` cost, as the resolution engine applies it.
pub fn halved(cost: u16) -> (r: u16)
    ensures
        r == spec_halved(cost as int),
{
    cost - cost / 2
}

/// The durability actually lost for a base cost: halved once under a
/// `Sturdy` condition and once more under the frugal buff, each halving
/// rounded in the crafter's favour.
pub open spec fn spec_calc_durability(s: StatusV, base_cost: int) -> int {
    let after_condition = if s.condition == Condition::Sturdy {
        spec_halved(base_cost)
    } else {
        base_cost
    };
    if s.buffs.wast_not > 0 {
        spec_halved(after_condition)
    } else {
        after_condition
    }
}

/// The craft points actually spent for a base cost: halved under a `Pliant`
/// condition, rounded in the crafter's favour.
pub open spec fn spec_condition_craft_point(s: StatusV, base_cost: int) -> int {
    if s.condition == Condition::Pliant {
        base_cost - base_cost / 2
    } else {
        base_cost
    }
}

/// Progress gained by a synthesis step of the given efficiency (in
/// hundredths): the cached base unit times the condition multiplier times
/// the buffed efficiency, rounded down once, saturated at `u16::MAX`.
pub open spec fn spec_calc_synthesis(s: StatusV, efficiency_pct: int) -> int {
    let raw = s.caches.base_synth * s.condition.spec_synth_ratio_pct() * (efficiency_pct
        * s.buffs.spec_synth_buff_pct()) / 1000000;
    if raw > 0xFFFF {
        0xFFFF
    } else {
        raw
    }
}

/// Quality gained by a touch step of the given efficiency (in hundredths):
/// the cached base unit times the condition multiplier times the buffed
/// efficiency times the inner-quiet multiplier, rounded down once, saturated
/// at `u32::MAX`.
pub open spec fn spec_calc_touch(s: StatusV, efficiency_pct: int) -> int {
    let raw = s.caches.base_touch * s.condition.spec_touch_ratio_pct() * (efficiency_pct
        * s.buffs.spec_touch_buff_pct() * s.buffs.spec_iq_tenths()) / 10000000;
    if raw > 0xFFFF_FFFF {
        0xFFFF_FFFF
    } else {
        raw
    }
}

/// The duration a buff cast now starts with: its base duration plus one (it
/// decays at the end of this very turn), plus two more under a `Primed`
/// condition.
pub open spec fn spec_new_duration_buff(s: StatusV, base_duration: int) -> int {
    if s.condition == Condition::Primed {
        base_duration + 2 + 1
    } else {
        base_duration + 1
    }
}

impl Status {
    /// Creates the state of a fresh craft: full durability and craft points,
    /// no progress, no quality, no buffs, a `Normal` condition, and a
    /// generator from the given seed (or from entropy when none is given).
    pub fn new(attributes: Attributes, recipe: Recipe, rlv: RecipeLevel, seed: Option<u64>) -> (
        r: Status)
        requires
            attributes.wf(),
            recipe.wf(),
            rlv.progress_divider >= 1,
            rlv.quality_divider >= 1,
        ensures
            r@.buffs == Buffs::spec_default(),
            r@.attributes == attributes,
            r@.recipe == recipe,
            r@.caches.base_synth == spec_base_synth(attributes, recipe, rlv),
            r@.caches.base_touch == spec_base_touch(attributes, recipe, rlv),
            r@.durability == recipe.durability,
            r@.craft_points == attributes.craft_points,
            r@.progress == 0,
            r@.quality == 0,
            r@.step == 0,
            r@.condition == Condition::Normal,
            r@.wf(),
    {
        Status {
            buffs: Buffs::default(),
            caches: Caches::new(&attributes, &recipe, &rlv),
            attributes,
            recipe,
            rng: match seed {
                Some(seed) => rng_from_seed(seed),
                None => rng_from_entropy(),
            },
            durability: recipe.durability,
            craft_points: attributes.craft_points,
            condition: Condition::Normal,
            progress: 0,
            quality: 0,
            step: 0,
        }
    }

    /// Draws one uniform value below `bound` from the embedded generator;
    /// the view of the state is untouched.
    pub(crate) fn draw_below(&mut self, bound: u32) -> (r: u32)
        requires
            bound >= 1,
        ensures
            final(self)@ == old(self)@,
            r < bound,
    {
        crate::rng::rng_below(&mut self.rng, bound)
    }

    /// The buff counters as one vector, in declaration order; the free-pass
    /// flag is folded with its used marker into a single entry.
    pub fn buffs(&self) -> (r: Vec<u8>)
        requires
            self@.buffs.wf(),
        ensures
            r@ == seq![
                self@.buffs.muscle_memory,
                self@.buffs.great_strides,
                self@.buffs.veneration,
                self@.buffs.innovation,
                self@.buffs.inner_quiet,
                self@.buffs.final_appraisal,
                self@.buffs.manipulation,
                self@.buffs.wast_not,
                (if self@.buffs.heart_and_soul_used > 0 {
                    (self@.buffs.heart_and_soul + 1) as u8
                } else {
                    0u8
                }),
                self@.buffs.touch_combo_stage,
                self@.buffs.observed,
            ],
    {
        let heart_and_soul_state: u8 = if self.buffs.heart_and_soul_used > 0 {
            self.buffs.heart_and_soul + 1
        } else {
            0
        };
        let mut r: Vec<u8> = Vec::new();
        r.push(self.buffs.muscle_memory);
        r.push(self.buffs.great_strides);
        r.push(self.buffs.veneration);
        r.push(self.buffs.innovation);
        r.push(self.buffs.inner_quiet);
        r.push(self.buffs.final_appraisal);
        r.push(self.buffs.manipulation);
        r.push(self.buffs.wast_not);
        r.push(heart_and_soul_state);
        r.push(self.buffs.touch_combo_stage);
        r.push(self.buffs.observed);
        proof {
            assert(r@ =~= seq![
                self.buffs.muscle_memory,
                self.buffs.great_strides,
                self.buffs.veneration,
                self.buffs.innovation,
                self.buffs.inner_quiet,
                self.buffs.final_appraisal,
                self.buffs.manipulation,
                self.buffs.wast_not,
                (if self.buffs.heart_and_soul_used > 0 {
                    (self.buffs.heart_and_soul + 1) as u8
                } else {
                    0u8
                }),
                self.buffs.touch_combo_stage,
                self.buffs.observed,
            ]);
        }
        r
    }

    /// The durability lost for a base cost in the current state.
    pub fn calc_durability(&self, durability: u16) -> (r: u16)
        ensures
            r == spec_calc_durability(self@, durability as int),
    {
        let mut reduce = durability;
        if matches!(self.condition, Condition::Sturdy) {
            reduce = halved(reduce);
        }
        if self.buffs.wast_not > 0 {
            reduce = halved(reduce);
        }
        reduce
    }

    /// Subtracts the (condition- and buff-adjusted) durability loss,
    /// saturating at zero.
    pub(crate) fn consume_durability(&mut self, durability: u16)
        ensures
            final(self)@ == (StatusV {
                durability: spec_sat_sub_u16(
                    old(self).durability,
                    spec_calc_durability(old(self)@, durability as int),
                ),
                ..old(self)@
            }),
    {
        let loss = self.calc_durability(durability);
        self.durability = if self.durability >= loss {
            self.durability - loss
        } else {
            0
        };
    }

    /// Progress a synthesis step of the given efficiency (hundredths) gains
    /// in the current state.
    pub fn calc_synthesis(&self, efficiency_pct: u32) -> (r: u16)
        ensures
            r == spec_calc_synthesis(self@, efficiency_pct as int),
    {
        let scaled: u64 = self.buffs.synthesis(efficiency_pct);
        let ratio: u32 = self.condition.synth_ratio_pct();
        proof {
            vstd::arithmetic::mul::lemma_mul_upper_bound(
                self.caches.base_synth as int,
                u64::MAX as int,
                ratio as int,
                150,
            );
            vstd::arithmetic::mul::lemma_mul_upper_bound(
                self.caches.base_synth as int * ratio as int,
                u64::MAX as int * 150,
                scaled as int,
                u32::MAX as int * 250,
            );
        }
        let raw: u128 = self.caches.base_synth as u128 * ratio as u128 * scaled as u128
            / 1000000;
        if raw > 0xFFFF {
            0xFFFF
        } else {
            raw as u16
        }
    }

    /// Quality a touch step of the given efficiency (hundredths) gains in
    /// the current state.
    pub fn calc_touch(&self, efficiency_pct: u32) -> (r: u32)
        requires
            self@.buffs.wf(),
        ensures
            r == spec_calc_touch(self@, efficiency_pct as int),
    {
        let scaled: u64 = self.buffs.touch(efficiency_pct);
        let ratio: u32 = self.condition.touch_ratio_pct();
        proof {
            vstd::arithmetic::mul::lemma_mul_upper_bound(
                self.caches.base_touch as int,
                u64::MAX as int,
                ratio as int,
                400,
            );
            vstd::arithmetic::mul::lemma_mul_upper_bound(
                self.caches.base_touch as int * ratio as int,
                u64::MAX as int * 400,
                scaled as int,
                u32::MAX as int * 250 * 20,
            );
        }
        let raw: u128 = self.caches.base_touch as u128 * ratio as u128 * scaled as u128
            / 10000000;
        if raw > 0xFFFF_FFFF {
            0xFFFF_FFFF
        } else {
            raw as u32
        }
    }

    /// The starting duration of a buff cast now.
    pub fn new_duration_buff(&self, base_duration: u8) -> (r: u8)
        requires
            base_duration <= 252,
        ensures
            r == spec_new_duration_buff(self@, base_duration as int),
    {
        if matches!(self.condition, Condition::Primed) {
            base_duration + 2 + 1
        } else {
            base_duration + 1
        }
    }

    /// The quality reached so far, as a percentage of the recipe's quality
    /// cap, rounded down. This is the value a caller hands to its external
    /// high-quality-probability table, which maps a percentage in
    /// `0..=100` to a bonus-outcome chance.
    pub fn quality_percent(&self) -> (r: u32)
        requires
            self@.recipe.quality >= 1,
            self@.quality <= self@.recipe.quality,
        ensures
            r == self@.quality * 100 / (self@.recipe.quality as int),
            r <= 100,
    {
        proof {
            vstd::arithmetic::mul::lemma_mul_inequality(
                self@.quality as int,
                self@.recipe.quality as int,
                100,
            );
            vstd::arithmetic::div_mod::lemma_div_is_ordered(
                self@.quality as int * 100,
                self@.recipe.quality as int * 100,
                self@.recipe.quality as int,
            );
            vstd::arithmetic::div_mod::lemma_div_by_multiple(100, self@.recipe.quality as int);
            assert(self@.recipe.quality as int * 100 == 100 * (self@.recipe.quality as int))
                by (nonlinear_arith);
        }
        let scaled: u64 = self.quality as u64 * 100;
        (scaled / self.recipe.quality as u64) as u32
    }

    /// Whether the craft has ended: progress reached the difficulty, or
    /// durability ran out.
    pub fn is_finished(&self) -> (r: bool)
        ensures
            r == self@.spec_is_finished(),
    {
        self.progress >= self.recipe.difficulty || self.durability == 0
    }
}

/// Saturating subtraction on a `u16`, in spec form.
pub open spec fn spec_sat_sub_u16(value: u16, loss: int) -> u16 {
    if value >= loss {
        (value - loss) as u16
    } else {
        0
    }
}

} // verus!
