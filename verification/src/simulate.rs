//! The simulated-outcome model: per-action success rates, the substitution
//! of fail variants for missed actions, and the per-turn condition
//! transition, with the entropy source behind the trusted boundary.

use vstd::prelude::*;
use crate::actions::Actions;
use crate::cond_iter::condition_rates;
use crate::cond_iter::lemma_rates_from_elements;
use crate::cond_iter::lemma_rates_from_len;
use crate::cond_iter::spec_cond_in_flag;
use crate::cond_iter::spec_cond_rate;
use crate::cond_iter::spec_condition_rates;
use crate::condition::Condition;
use crate::engine::CastActionError;
use crate::engine::spec_cast_state;
use crate::engine::spec_legality;
use crate::status::Status;
use crate::status::StatusV;

verus! {

/// The success chance of an action, as a percentage in `[0, 100]`. Most
/// actions always succeed; the reduced-success ones have a fixed base rate,
/// raised by 25 under a `Centered` condition, and the focused pair is
/// guaranteed right after an observation. The sum never leaves the
/// percentage range: it is capped at 100.
pub open spec fn spec_success_rate(s: StatusV, action: Actions) -> int {
    let addon = if s.condition == Condition::Centered {
        25int
    } else {
        0int
    };
    let raw = match action {
        Actions::HastyTouch => 60 + addon,
        Actions::RapidSynthesis => 50 + addon,
        Actions::FocusedSynthesis | Actions::FocusedTouch => (if s.buffs.observed > 0 {
            100int
        } else {
            50int
        }) + addon,
        _ => 100,
    };
    if raw > 100 {
        100
    } else {
        raw
    }
}

/// The deterministic part of the turn-to-turn condition transition:
/// `Some(c)` when the next condition is fixed, `None` when it is drawn from
/// the weighted distribution.
pub open spec fn spec_next_condition_fixed(current: Condition, random_condition: bool) -> Option<
    Condition,
> {
    if !random_condition && current == Condition::Good {
        Some(Condition::Normal)
    } else if !random_condition && current == Condition::Poor {
        Some(Condition::Excellent)
    } else if current == Condition::GoodOmen {
        Some(Condition::Good)
    } else if random_condition {
        None
    } else {
        Some(Condition::Normal)
    }
}

/// What one simulated step guarantees, for the success/miss outcome
/// `success` that the roll produced: the state moves exactly as the engine
/// moves it for the attempted action (the action itself on success, its
/// fail variant on a miss), the attempt is forced to succeed when the
/// caller demands it or the rate leaves no room to miss, and the turn's
/// condition then advances — deterministically where the rules fix it,
/// otherwise to a condition the recipe's mask admits, and one the draw can
/// actually produce: a positively rated category or the baseline.
pub open spec fn spec_simulate_outcome(
    pre: StatusV,
    post: StatusV,
    r: Result<(), CastActionError>,
    action: Actions,
    success: bool,
    force_success: bool,
    random_condition: bool,
) -> bool {
    &&& (force_success ==> success)
    &&& (spec_success_rate(pre, action) >= 100 ==> success)
    &&& {
        let attempted = if success {
            action
        } else {
            action.spec_fail_variant()
        };
        match spec_legality(pre, attempted) {
            Some(e) => r == Result::<(), CastActionError>::Err(e) && post == pre,
            None => {
                let mid = spec_cast_state(pre, attempted);
                &&& r == Result::<(), CastActionError>::Ok(())
                &&& if action == Actions::FinalAppraisal || action == Actions::HeartAndSoul {
                    post == mid
                } else {
                    &&& post == (StatusV { condition: post.condition, ..mid })
                    &&& match spec_next_condition_fixed(mid.condition, random_condition) {
                        Some(c) => post.condition == c,
                        None => spec_cond_in_flag(
                            pre.recipe.conditions_flag as i32,
                            post.condition,
                        ) && (spec_cond_rate(
                            pre.recipe.conditions_flag as i32,
                            pre.attributes.level as i32,
                            post.condition,
                        ) > 0 || post.condition == Condition::Normal),
                    }
                }
            },
        }
    }
}

impl Status {
    /// The success chance of `action` in the current state, as a
    /// percentage in `[0, 100]`.
    pub fn success_rate(&self, action: Actions) -> (r: u8)
        ensures
            r == spec_success_rate(self@, action),
            r <= 100,
    {
        let addon: u8 = if matches!(self.condition, Condition::Centered) {
            25
        } else {
            0
        };
        let raw: u8 = match action {
            Actions::HastyTouch => 60 + addon,
            Actions::RapidSynthesis => 50 + addon,
            Actions::FocusedSynthesis | Actions::FocusedTouch => if self.buffs.observed > 0 {
                100 + addon
            } else {
                50 + addon
            },
            _ => 100,
        };
        if raw > 100 {
            100
        } else {
            raw
        }
    }

    /// Runs one step of a simulated craft: rolls the success of the action
    /// (unless forced), casts it or its fail variant, and advances the
    /// turn's condition — by the deterministic rules, or by a weighted draw
    /// over the recipe's admitted conditions when `random_condition` holds.
    #[verifier::rlimit(100)]
    pub fn simulate_one_step(
        &mut self,
        action: Actions,
        force_success: bool,
        random_condition: bool,
    ) -> (r: Result<(), CastActionError>)
        requires
            old(self)@.wf(),
            old(self)@.step < i32::MAX,
        ensures
            exists|success: bool|
                spec_simulate_outcome(
                    old(self)@,
                    final(self)@,
                    r,
                    action,
                    success,
                    force_success,
                    random_condition,
                ),
            final(self)@.wf(),
            final(self)@.attributes == old(self)@.attributes,
            final(self)@.recipe == old(self)@.recipe,
            final(self)@.caches == old(self)@.caches,
    {
        let ghost pre = self@;
        let success: bool = if force_success {
            true
        } else {
            let rate = self.success_rate(action) as u32;
            let roll = self.draw_below(100);
            rate > roll
        };
        let attempted = if success {
            action
        } else {
            match action {
                Actions::RapidSynthesis => Actions::RapidSynthesisFail,
                Actions::HastyTouch => Actions::HastyTouchFail,
                Actions::FocusedSynthesis => Actions::FocusedSynthesisFail,
                Actions::FocusedTouch => Actions::FocusedTouchFail,
                _ => vstd::pervasive::unreached(),
            }
        };
        let cast_result = self.cast_action(attempted);
        if let Err(e) = cast_result {
            proof {
                assert(spec_simulate_outcome(
                    pre,
                    self@,
                    Result::<(), CastActionError>::Err(e),
                    action,
                    success,
                    force_success,
                    random_condition,
                ));
            }
            return Err(e);
        }
        if !matches!(action, Actions::FinalAppraisal | Actions::HeartAndSoul) {
            self.condition = if !random_condition && matches!(self.condition, Condition::Good) {
                Condition::Normal
            } else if !random_condition && matches!(self.condition, Condition::Poor) {
                Condition::Excellent
            } else if matches!(self.condition, Condition::GoodOmen) {
                Condition::Good
            } else if random_condition {
                self.roll_random_condition()
            } else {
                Condition::Normal
            };
        }
        proof {
            assert(spec_simulate_outcome(
                pre,
                self@,
                Result::<(), CastActionError>::Ok(()),
                action,
                success,
                force_success,
                random_condition,
            ));
        }
        Ok(())
    }

    /// Draws the next condition from the weighted per-mille distribution of
    /// the recipe's admitted conditions; with no weight to draw from, the
    /// guaranteed baseline is chosen.
    fn roll_random_condition(&mut self) -> (r: Condition)
        requires
            old(self)@.wf(),
        ensures
            final(self)@ == old(self)@,
            spec_cond_in_flag(old(self)@.recipe.conditions_flag as i32, r),
            spec_cond_rate(
                old(self)@.recipe.conditions_flag as i32,
                old(self)@.attributes.level as i32,
                r,
            ) > 0 || r == Condition::Normal,
    {
        let flag: i32 = self.recipe.conditions_flag as i32;
        let level: i32 = self.attributes.level as i32;
        let rates = condition_rates(flag, level);
        proof {
            lemma_rates_from_elements(flag, level, 0);
            lemma_rates_from_len(flag, level, 0);
            let cf = old(self)@.recipe.conditions_flag;
            assert(((cf as i32) & 1i32) != 0) by (bit_vector)
                requires
                    cf & 1u16 == 1u16,
            ;
        }
        let mut total: u32 = 0;
        let mut i: usize = 0;
        while i < rates.len()
            invariant
                total <= 2000 * i,
                i <= rates@.len() <= 10,
                rates@ =~= spec_condition_rates(flag, level),
                forall|j: int|
                    0 <= j < rates@.len() ==> {
                        let item = #[trigger] rates@[j];
                        spec_cond_in_flag(flag, item.0) && item.1 == spec_cond_rate(
                            flag,
                            level,
                            item.0,
                        )
                    },
            decreases rates@.len() - i,
        {
            proof {
                assert(rates@[i as int].1 <= 2000) by {
                    assert(spec_cond_in_flag(flag, rates@[i as int].0));
                };
            }
            total = total + rates[i].1 as u32;
            i = i + 1;
        }
        if total == 0 {
            return Condition::Normal;
        }
        let mut roll = self.draw_below(total);
        let mut k: usize = 0;
        while k < rates.len()
            invariant
                k <= rates@.len(),
                self@ == old(self)@,
                flag == old(self)@.recipe.conditions_flag as i32,
                level == old(self)@.attributes.level as i32,
                rates@ =~= spec_condition_rates(flag, level),
                forall|j: int|
                    0 <= j < rates@.len() ==> {
                        let item = #[trigger] rates@[j];
                        spec_cond_in_flag(flag, item.0) && item.1 == spec_cond_rate(
                            flag,
                            level,
                            item.0,
                        )
                    },
            decreases rates@.len() - k,
        {
            let rate = rates[k].1 as u32;
            if roll < rate {
                return rates[k].0;
            }
            roll = roll - rate;
            k = k + 1;
        }
        Condition::Normal
    }
}

} // verus!
