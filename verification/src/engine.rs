//! The action-resolution engine: the legality checker and the deterministic
//! state-transition function, each pinned down by a spec-level model.

use vstd::prelude::*;
use crate::actions::Actions;
use crate::buffs::Buffs;
use crate::condition::Condition;
use crate::status::Status;
use crate::status::StatusV;
use crate::status::spec_calc_durability;
use crate::status::spec_calc_synthesis;
use crate::status::spec_calc_touch;
use crate::status::spec_condition_craft_point;
use crate::status::spec_new_duration_buff;
use crate::status::spec_sat_sub_u16;

verus! {

/// Why an action may not be cast in the current state. The legality checker
/// reports the first rule an action breaks, in a fixed priority order.
#[derive(Copy, Clone, Debug, PartialEq, Eq, Structural)]
pub enum CastActionError {
    /// Durability has run out.
    DurabilityNotEnough,
    /// The action costs more craft points than remain.
    CraftPointNotEnough,
    /// Progress has already reached the difficulty.
    CraftingAlreadyFinished,
    /// The player's level is below the action's unlock level.
    PlayerLevelTooLow,
    /// The action demands a `Good` or `Excellent` condition.
    RequireGoodOrExcellent,
    /// The action cannot be used while the frugal buff is active.
    NotAllowedInWastNotBuff,
    /// The action is restricted to the first turn.
    OnlyAllowedInFirstStep,
    /// The action demands a recipe at least ten levels below the player.
    LevelGapMustGreaterThanTen,
    /// The action demands at least one inner-quiet stack.
    RequireInnerQuiet1,
    /// The action demands a full inner-quiet stack of ten.
    RequireInnerQuiet10,
    /// The limited observation action has already been used three times.
    CarefulObservationUsed3,
    /// The free-pass buff has already been used this craft.
    HeartAndSoulUsed,
    /// A focused action cannot miss right after an observation.
    FocusNeverFailsAfterObserved,
}

impl CastActionError {
    /// A human-readable description of the refusal.
    pub fn text(&self) -> (r: &'static str)
        ensures
            r@ == self.spec_text(),
    {
        match self {
            CastActionError::DurabilityNotEnough => "durability not enough",
            CastActionError::CraftPointNotEnough => "craft point not enough",
            CastActionError::CraftingAlreadyFinished => "crafting already finished",
            CastActionError::PlayerLevelTooLow => "player level too low",
            CastActionError::RequireGoodOrExcellent => "require good or excellent",
            CastActionError::NotAllowedInWastNotBuff => "not allowed in wast not buff",
            CastActionError::OnlyAllowedInFirstStep => "only allowed in first step",
            CastActionError::LevelGapMustGreaterThanTen => "level gap must greater than 10",
            CastActionError::RequireInnerQuiet1 => "require at least 1 stack of inner quiet",
            CastActionError::RequireInnerQuiet10 => "require 10 stack of inner quiet",
            CastActionError::CarefulObservationUsed3 => "careful observation can only use 3 times",
            CastActionError::HeartAndSoulUsed => "heart and soul can be only used once",
            CastActionError::FocusNeverFailsAfterObserved => "focus never fails after observed",
        }
    }

    /// The description text, in spec form.
    pub open spec fn spec_text(self) -> Seq<char> {
        match self {
            CastActionError::DurabilityNotEnough => "durability not enough"@,
            CastActionError::CraftPointNotEnough => "craft point not enough"@,
            CastActionError::CraftingAlreadyFinished => "crafting already finished"@,
            CastActionError::PlayerLevelTooLow => "player level too low"@,
            CastActionError::RequireGoodOrExcellent => "require good or excellent"@,
            CastActionError::NotAllowedInWastNotBuff => "not allowed in wast not buff"@,
            CastActionError::OnlyAllowedInFirstStep => "only allowed in first step"@,
            CastActionError::LevelGapMustGreaterThanTen => "level gap must greater than 10"@,
            CastActionError::RequireInnerQuiet1 => "require at least 1 stack of inner quiet"@,
            CastActionError::RequireInnerQuiet10 => "require 10 stack of inner quiet"@,
            CastActionError::CarefulObservationUsed3 => "careful observation can only use 3 times"@,
            CastActionError::HeartAndSoulUsed => "heart and soul can be only used once"@,
            CastActionError::FocusNeverFailsAfterObserved => "focus never fails after observed"@,
        }
    }
}

/// The craft-point cost of an action in the given state: the base cost of
/// the action (cheaper for the two combo follow-ups when their combo marker
/// is armed), halved under a `Pliant` condition.
pub open spec fn spec_craft_point(s: StatusV, action: Actions) -> int {
    let base = match action {
        Actions::BasicSynthesis => 0,
        Actions::BasicTouch => 18,
        Actions::MastersMend => 88,
        Actions::HastyTouch => 0,
        Actions::RapidSynthesis => 0,
        Actions::Observe => 7,
        Actions::TricksOfTheTrade => 0,
        Actions::WasteNot => 56,
        Actions::Veneration => 18,
        Actions::StandardTouch => if s.buffs.touch_combo_stage == 1 {
            18int
        } else {
            32int
        },
        Actions::GreatStrides => 32,
        Actions::Innovation => 18,
        Actions::FinalAppraisal => 1,
        Actions::WasteNotII => 98,
        Actions::ByregotsBlessing => 24,
        Actions::PreciseTouch => 18,
        Actions::MuscleMemory => 6,
        Actions::CarefulSynthesis => 7,
        Actions::Manipulation => 96,
        Actions::PrudentTouch => 25,
        Actions::FocusedSynthesis => 5,
        Actions::FocusedTouch => 18,
        Actions::Reflect => 6,
        Actions::PreparatoryTouch => 40,
        Actions::Groundwork => 18,
        Actions::DelicateSynthesis => 32,
        Actions::IntensiveSynthesis => 6,
        Actions::TrainedEye => 250,
        Actions::AdvancedTouch => if s.buffs.touch_combo_stage == 2 {
            18int
        } else {
            46int
        },
        Actions::PrudentSynthesis => 18,
        Actions::TrainedFinesse => 32,
        Actions::CarefulObservation => 0,
        Actions::HeartAndSoul => 0,
        Actions::RapidSynthesisFail => 0,
        Actions::HastyTouchFail => 0,
        Actions::FocusedSynthesisFail => 5,
        Actions::FocusedTouchFail => 18,
    };
    spec_condition_craft_point(s, base)
}

/// The first rule `action` breaks in state `s`, or `None` when the action is
/// allowed. The checks run in a fixed priority order so refusal reasons are
/// deterministic.
pub open spec fn spec_legality(s: StatusV, action: Actions) -> Option<CastActionError> {
    if action.spec_unlock_level() > s.attributes.level {
        Some(CastActionError::PlayerLevelTooLow)
    } else if (action == Actions::TricksOfTheTrade || action == Actions::IntensiveSynthesis
        || action == Actions::PreciseTouch) && !(s.condition == Condition::Good || s.condition
        == Condition::Excellent) && s.buffs.heart_and_soul == 0 {
        Some(CastActionError::RequireGoodOrExcellent)
    } else if (action == Actions::PrudentTouch || action == Actions::PrudentSynthesis)
        && s.buffs.wast_not > 0 {
        Some(CastActionError::NotAllowedInWastNotBuff)
    } else if (action == Actions::MuscleMemory || action == Actions::Reflect || action
        == Actions::TrainedEye) && s.step != 0 {
        Some(CastActionError::OnlyAllowedInFirstStep)
    } else if action == Actions::TrainedEye && s.attributes.level < 10 + s.recipe.job_level {
        Some(CastActionError::LevelGapMustGreaterThanTen)
    } else if action == Actions::ByregotsBlessing && s.buffs.inner_quiet < 1 {
        Some(CastActionError::RequireInnerQuiet1)
    } else if action == Actions::TrainedFinesse && s.buffs.inner_quiet != 10 {
        Some(CastActionError::RequireInnerQuiet10)
    } else if action == Actions::CarefulObservation && s.buffs.careful_observation_used >= 3 {
        Some(CastActionError::CarefulObservationUsed3)
    } else if action == Actions::HeartAndSoul && s.buffs.heart_and_soul_used >= 1 {
        Some(CastActionError::HeartAndSoulUsed)
    } else if (action == Actions::FocusedSynthesisFail || action == Actions::FocusedTouchFail)
        && s.buffs.observed > 0 {
        Some(CastActionError::FocusNeverFailsAfterObserved)
    } else if s.durability <= 0 {
        Some(CastActionError::DurabilityNotEnough)
    } else if spec_craft_point(s, action) > s.craft_points {
        Some(CastActionError::CraftPointNotEnough)
    } else if s.progress >= s.recipe.difficulty {
        Some(CastActionError::CraftingAlreadyFinished)
    } else {
        None
    }
}

/// The legality checker's verdict as the caller sees it.
pub open spec fn spec_is_action_allowed(s: StatusV, action: Actions) -> Result<
    (),
    CastActionError,
> {
    match spec_legality(s, action) {
        Some(e) => Err(e),
        None => Ok(()),
    }
}

/// The inner-quiet stack after a touch step: the signed delta is added with
/// saturation at the `u8` bounds, then the stack is clamped to ten.
pub open spec fn spec_iq_after(stack: int, delta: int) -> u8 {
    let raw = stack + delta;
    let saturated = if raw < 0 {
        0int
    } else if raw > 255 {
        255int
    } else {
        raw
    };
    if saturated > 10 {
        10
    } else {
        saturated as u8
    }
}

/// The state after a synthesis step: progress grows by the computed gain and
/// is clamped at the difficulty (one point below it when the final-step buff
/// is active, which is then consumed), durability drops by the adjusted
/// cost, and the first-turn power buff is consumed.
pub open spec fn spec_cast_synthesis(s: StatusV, base_durability: int, efficiency_pct: int)
    -> StatusV {
    let gained = s.progress + spec_calc_synthesis(s, efficiency_pct);
    let new_durability = spec_sat_sub_u16(s.durability, spec_calc_durability(s, base_durability));
    if gained >= s.recipe.difficulty {
        if s.buffs.final_appraisal > 0 {
            StatusV {
                progress: (s.recipe.difficulty - 1) as u16,
                durability: new_durability,
                buffs: Buffs { muscle_memory: 0, final_appraisal: 0, ..s.buffs },
                ..s
            }
        } else {
            StatusV {
                progress: s.recipe.difficulty,
                durability: new_durability,
                buffs: Buffs { muscle_memory: 0, ..s.buffs },
                ..s
            }
        }
    } else {
        StatusV {
            progress: gained as u16,
            durability: new_durability,
            buffs: Buffs { muscle_memory: 0, ..s.buffs },
            ..s
        }
    }
}

/// The state after a touch step: quality grows by the computed gain, clamped
/// at the recipe's quality cap, durability drops by the adjusted cost, the
/// double-effect buff is consumed and the inner-quiet stack moves by the
/// action's delta.
pub open spec fn spec_cast_touch(
    s: StatusV,
    base_durability: int,
    efficiency_pct: int,
    iq_delta: int,
) -> StatusV {
    let gained = s.quality + spec_calc_touch(s, efficiency_pct);
    let new_quality = if gained >= s.recipe.quality {
        s.recipe.quality
    } else {
        gained as u32
    };
    let new_durability = spec_sat_sub_u16(s.durability, spec_calc_durability(s, base_durability));
    StatusV {
        quality: new_quality,
        durability: new_durability,
        buffs: Buffs {
            great_strides: 0,
            inner_quiet: spec_iq_after(s.buffs.inner_quiet as int, iq_delta),
            ..s.buffs
        },
        ..s
    }
}

/// The synthesis efficiency of the heavy synthesis action: halved when the
/// remaining durability cannot pay the full adjusted cost.
pub open spec fn spec_groundwork_efficiency(s: StatusV) -> int {
    let base = if s.attributes.level < 86 {
        300int
    } else {
        360int
    };
    if s.durability < spec_calc_durability(s, 20) {
        base / 2
    } else {
        base
    }
}

/// The touch efficiency of the blessing action: one plus a fifth of the
/// inner-quiet stack, capped at three.
pub open spec fn spec_byregot_efficiency(s: StatusV) -> int {
    let raw = 100 + 20 * s.buffs.inner_quiet;
    if raw > 300 {
        300int
    } else {
        raw as int
    }
}

/// The action's own effect on the state, before the shared turn
/// finalization. `s` already has the action's craft points deducted.
#[verifier::opaque]
pub open spec fn spec_apply_effect(s: StatusV, action: Actions) -> StatusV {
    match action {
        Actions::BasicSynthesis => spec_cast_synthesis(
            s,
            10,
            if s.attributes.level < 31 {
                100int
            } else {
                120int
            },
        ),
        Actions::RapidSynthesis => spec_cast_synthesis(
            s,
            10,
            if s.attributes.level < 63 {
                250int
            } else {
                500int
            },
        ),
        Actions::CarefulSynthesis => spec_cast_synthesis(
            s,
            10,
            if s.attributes.level < 82 {
                150int
            } else {
                180int
            },
        ),
        Actions::FocusedSynthesis => spec_cast_synthesis(s, 10, 200),
        Actions::Groundwork => spec_cast_synthesis(s, 20, spec_groundwork_efficiency(s)),
        Actions::IntensiveSynthesis => {
            let t = spec_cast_synthesis(s, 10, 400);
            if !(s.condition == Condition::Good || s.condition == Condition::Excellent) {
                StatusV { buffs: Buffs { heart_and_soul: 0, ..t.buffs }, ..t }
            } else {
                t
            }
        },
        Actions::PrudentSynthesis => spec_cast_synthesis(s, 5, 180),
        Actions::DelicateSynthesis => spec_cast_touch(spec_cast_synthesis(s, 0, 100), 10, 100, 1),
        Actions::BasicTouch => {
            let t = spec_cast_touch(s, 10, 100, 1);
            StatusV { buffs: Buffs { touch_combo_stage: 3, ..t.buffs }, ..t }
        },
        Actions::HastyTouch => spec_cast_touch(s, 10, 100, 1),
        Actions::StandardTouch => {
            let armed = if s.buffs.touch_combo_stage == 1 {
                StatusV { buffs: Buffs { touch_combo_stage: 4, ..s.buffs }, ..s }
            } else {
                s
            };
            spec_cast_touch(armed, 10, 125, 1)
        },
        Actions::AdvancedTouch => spec_cast_touch(s, 10, 150, 1),
        Actions::ByregotsBlessing => spec_cast_touch(
            s,
            10,
            spec_byregot_efficiency(s),
            -(s.buffs.inner_quiet as int),
        ),
        Actions::PreciseTouch => {
            let t = spec_cast_touch(s, 10, 150, 2);
            if !(s.condition == Condition::Good || s.condition == Condition::Excellent) {
                StatusV { buffs: Buffs { heart_and_soul: 0, ..t.buffs }, ..t }
            } else {
                t
            }
        },
        Actions::PrudentTouch => spec_cast_touch(s, 5, 100, 1),
        Actions::FocusedTouch => spec_cast_touch(s, 10, 150, 1),
        Actions::PreparatoryTouch => spec_cast_touch(s, 20, 200, 2),
        Actions::TrainedFinesse => spec_cast_touch(s, 0, 100, 0),
        Actions::TricksOfTheTrade => {
            let refunded = if s.craft_points + 20 >= s.attributes.craft_points {
                s.attributes.craft_points
            } else {
                (s.craft_points + 20) as i32
            };
            let t = StatusV { craft_points: refunded, ..s };
            if !(s.condition == Condition::Good || s.condition == Condition::Excellent) {
                StatusV { buffs: Buffs { heart_and_soul: 0, ..t.buffs }, ..t }
            } else {
                t
            }
        },
        Actions::MastersMend => StatusV {
            durability: if s.durability + 30 >= s.recipe.durability {
                s.recipe.durability
            } else {
                (s.durability + 30) as u16
            },
            ..s
        },
        Actions::WasteNot => StatusV {
            buffs: Buffs { wast_not: spec_new_duration_buff(s, 4) as u8, ..s.buffs },
            ..s
        },
        Actions::WasteNotII => StatusV {
            buffs: Buffs { wast_not: spec_new_duration_buff(s, 8) as u8, ..s.buffs },
            ..s
        },
        Actions::Manipulation => StatusV {
            buffs: Buffs { manipulation: spec_new_duration_buff(s, 8) as u8, ..s.buffs },
            ..s
        },
        Actions::MuscleMemory => {
            let t = spec_cast_synthesis(s, 10, 300);
            StatusV {
                buffs: Buffs { muscle_memory: spec_new_duration_buff(s, 5) as u8, ..t.buffs },
                ..t
            }
        },
        Actions::Reflect => spec_cast_touch(s, 10, 100, 2),
        Actions::TrainedEye => StatusV { quality: s.recipe.quality, ..s },
        Actions::Veneration => StatusV {
            buffs: Buffs { veneration: spec_new_duration_buff(s, 4) as u8, ..s.buffs },
            ..s
        },
        Actions::GreatStrides => StatusV {
            buffs: Buffs { great_strides: spec_new_duration_buff(s, 3) as u8, ..s.buffs },
            ..s
        },
        Actions::Innovation => StatusV {
            buffs: Buffs { innovation: spec_new_duration_buff(s, 4) as u8, ..s.buffs },
            ..s
        },
        Actions::Observe => StatusV { buffs: Buffs { observed: 2, ..s.buffs }, ..s },
        Actions::FinalAppraisal => StatusV {
            buffs: Buffs { final_appraisal: 5, ..s.buffs },
            ..s
        },
        Actions::CarefulObservation => StatusV {
            buffs: Buffs {
                careful_observation_used: (s.buffs.careful_observation_used + 1) as u8,
                ..s.buffs
            },
            ..s
        },
        Actions::HeartAndSoul => StatusV {
            buffs: Buffs {
                heart_and_soul: 1,
                heart_and_soul_used: (s.buffs.heart_and_soul_used + 1) as u8,
                ..s.buffs
            },
            ..s
        },
        Actions::RapidSynthesisFail => StatusV {
            durability: spec_sat_sub_u16(s.durability, spec_calc_durability(s, 10)),
            ..s
        },
        Actions::HastyTouchFail => StatusV {
            durability: spec_sat_sub_u16(s.durability, spec_calc_durability(s, 10)),
            ..s
        },
        Actions::FocusedSynthesisFail => StatusV {
            durability: spec_sat_sub_u16(s.durability, spec_calc_durability(s, 10)),
            ..s
        },
        Actions::FocusedTouchFail => StatusV {
            durability: spec_sat_sub_u16(s.durability, spec_calc_durability(s, 10)),
            ..s
        },
    }
}

/// Whether an action skips the whole turn finalization: it neither decays
/// buffs nor advances the step counter.
pub open spec fn spec_skips_turn(action: Actions) -> bool {
    action == Actions::FinalAppraisal || action == Actions::CarefulObservation || action
        == Actions::HeartAndSoul
}

/// The shared end of a turn: passive durability regeneration under the
/// manipulation buff, one decay step for every duration buff, and the step
/// counter moving on.
pub open spec fn spec_finalize(s: StatusV) -> StatusV {
    let regenerated = if s.buffs.manipulation > 0 && s.durability > 0 {
        StatusV {
            durability: if s.durability + 5 >= s.recipe.durability {
                s.recipe.durability
            } else {
                (s.durability + 5) as u16
            },
            ..s
        }
    } else {
        s
    };
    StatusV {
        buffs: regenerated.buffs.spec_next(),
        step: (regenerated.step + 1) as i32,
        ..regenerated
    }
}

/// The full state transition of one legally cast action: pay the craft
/// points, apply the action's effect, then finalize the turn — except for
/// the three bookkeeping actions that take no turn, and for the
/// manipulation action, whose own regeneration never applies to the turn it
/// is cast on.
pub open spec fn spec_cast_state(s: StatusV, action: Actions) -> StatusV {
    let paid = StatusV { craft_points: (s.craft_points - spec_craft_point(s, action)) as i32, ..s };
    let applied = spec_apply_effect(paid, action);
    if spec_skips_turn(action) {
        applied
    } else if action == Actions::Manipulation {
        StatusV { buffs: applied.buffs.spec_next(), step: (applied.step + 1) as i32, ..applied }
    } else {
        spec_finalize(applied)
    }
}

impl Status {
    /// The craft points `action` would cost right now, considering the
    /// touch-combo discounts and the current condition.
    pub fn craft_point(&self, action: Actions) -> (r: i32)
        ensures
            r == spec_craft_point(self@, action),
            0 <= r <= 250,
    {
        let base: i32 = match action {
            Actions::BasicSynthesis => 0,
            Actions::BasicTouch => 18,
            Actions::MastersMend => 88,
            Actions::HastyTouch => 0,
            Actions::RapidSynthesis => 0,
            Actions::Observe => 7,
            Actions::TricksOfTheTrade => 0,
            Actions::WasteNot => 56,
            Actions::Veneration => 18,
            Actions::StandardTouch => if self.buffs.touch_combo_stage == 1 {
                18
            } else {
                32
            },
            Actions::GreatStrides => 32,
            Actions::Innovation => 18,
            Actions::FinalAppraisal => 1,
            Actions::WasteNotII => 98,
            Actions::ByregotsBlessing => 24,
            Actions::PreciseTouch => 18,
            Actions::MuscleMemory => 6,
            Actions::CarefulSynthesis => 7,
            Actions::Manipulation => 96,
            Actions::PrudentTouch => 25,
            Actions::FocusedSynthesis => 5,
            Actions::FocusedTouch => 18,
            Actions::Reflect => 6,
            Actions::PreparatoryTouch => 40,
            Actions::Groundwork => 18,
            Actions::DelicateSynthesis => 32,
            Actions::IntensiveSynthesis => 6,
            Actions::TrainedEye => 250,
            Actions::AdvancedTouch => if self.buffs.touch_combo_stage == 2 {
                18
            } else {
                46
            },
            Actions::PrudentSynthesis => 18,
            Actions::TrainedFinesse => 32,
            Actions::CarefulObservation => 0,
            Actions::HeartAndSoul => 0,
            Actions::RapidSynthesisFail => 0,
            Actions::HastyTouchFail => 0,
            Actions::FocusedSynthesisFail => 5,
            Actions::FocusedTouchFail => 18,
        };
        if matches!(self.condition, Condition::Pliant) {
            base - base / 2
        } else {
            base
        }
    }

    /// The legality checker: whether `action` may be cast in the current
    /// state, and if not, the first rule it breaks.
    pub fn is_action_allowed(&self, action: Actions) -> (r: Result<(), CastActionError>)
        ensures
            r == spec_is_action_allowed(self@, action),
    {
        if action.unlock_level() > self.attributes.level {
            Err(CastActionError::PlayerLevelTooLow)
        } else if matches!(
            action,
            Actions::TricksOfTheTrade | Actions::IntensiveSynthesis | Actions::PreciseTouch,
        ) && !matches!(self.condition, Condition::Good | Condition::Excellent)
            && self.buffs.heart_and_soul == 0 {
            Err(CastActionError::RequireGoodOrExcellent)
        } else if matches!(action, Actions::PrudentTouch | Actions::PrudentSynthesis)
            && self.buffs.wast_not > 0 {
            Err(CastActionError::NotAllowedInWastNotBuff)
        } else if matches!(action, Actions::MuscleMemory | Actions::Reflect | Actions::TrainedEye)
            && self.step != 0 {
            Err(CastActionError::OnlyAllowedInFirstStep)
        } else if matches!(action, Actions::TrainedEye) && (self.attributes.level as u16) < 10
            + self.recipe.job_level as u16 {
            Err(CastActionError::LevelGapMustGreaterThanTen)
        } else if matches!(action, Actions::ByregotsBlessing) && self.buffs.inner_quiet < 1 {
            Err(CastActionError::RequireInnerQuiet1)
        } else if matches!(action, Actions::TrainedFinesse) && self.buffs.inner_quiet != 10 {
            Err(CastActionError::RequireInnerQuiet10)
        } else if matches!(action, Actions::CarefulObservation)
            && self.buffs.careful_observation_used >= 3 {
            Err(CastActionError::CarefulObservationUsed3)
        } else if matches!(action, Actions::HeartAndSoul) && self.buffs.heart_and_soul_used >= 1 {
            Err(CastActionError::HeartAndSoulUsed)
        } else if matches!(action, Actions::FocusedSynthesisFail | Actions::FocusedTouchFail)
            && self.buffs.observed > 0 {
            Err(CastActionError::FocusNeverFailsAfterObserved)
        } else if self.durability == 0 {
            Err(CastActionError::DurabilityNotEnough)
        } else if self.craft_point(action) > self.craft_points {
            Err(CastActionError::CraftPointNotEnough)
        } else if self.progress >= self.recipe.difficulty {
            Err(CastActionError::CraftingAlreadyFinished)
        } else {
            Ok(())
        }
    }

    /// One synthesis step of the resolution engine.
    fn cast_synthesis(&mut self, base_durability: u16, efficiency_pct: u32)
        requires
            old(self)@.recipe.difficulty >= 1,
        ensures
            final(self)@ == spec_cast_synthesis(
                old(self)@,
                base_durability as int,
                efficiency_pct as int,
            ),
    {
        let gain: u16 = self.calc_synthesis(efficiency_pct);
        let gained: u32 = self.progress as u32 + gain as u32;
        self.consume_durability(base_durability);
        self.buffs.apply_synthesis();
        if gained >= self.recipe.difficulty as u32 {
            self.progress = self.recipe.difficulty;
            if self.buffs.final_appraisal > 0 {
                self.progress = self.progress - 1;
                self.buffs.final_appraisal = 0;
            }
        } else {
            self.progress = gained as u16;
        }
    }

    /// One touch step of the resolution engine.
    fn cast_touch(&mut self, base_durability: u16, efficiency_pct: u32, iq_delta: i8)
        requires
            old(self)@.buffs.wf(),
        ensures
            final(self)@ == spec_cast_touch(
                old(self)@,
                base_durability as int,
                efficiency_pct as int,
                iq_delta as int,
            ),
    {
        let gain: u32 = self.calc_touch(efficiency_pct);
        let gained: u64 = self.quality as u64 + gain as u64;
        self.quality = if gained >= self.recipe.quality as u64 {
            self.recipe.quality
        } else {
            gained as u32
        };
        self.consume_durability(base_durability);
        self.buffs.apply_touch();
        let stack: i32 = self.buffs.inner_quiet as i32 + iq_delta as i32;
        let saturated: i32 = if stack < 0 {
            0
        } else if stack > 255 {
            255
        } else {
            stack
        };
        self.buffs.inner_quiet = if saturated > 10 {
            10
        } else {
            saturated as u8
        };
    }

    /// Casts one action: checks legality first and leaves the state
    /// untouched on refusal; otherwise performs exactly the transition of
    /// the spec-level model and preserves every state invariant.
    #[verifier::rlimit(100)]
    pub fn cast_action(&mut self, action: Actions) -> (r: Result<(), CastActionError>)
        requires
            old(self)@.wf(),
            old(self)@.step < i32::MAX,
        ensures
            match spec_legality(old(self)@, action) {
                Some(e) => r == Result::<(), CastActionError>::Err(e) && final(self)@ == old(
                    self,
                )@,
                None => r == Result::<(), CastActionError>::Ok(()) && final(self)@
                    == spec_cast_state(old(self)@, action),
            },
            final(self)@.wf(),
            final(self)@.attributes == old(self)@.attributes,
            final(self)@.recipe == old(self)@.recipe,
            final(self)@.caches == old(self)@.caches,
            final(self)@.condition == old(self)@.condition,
    {
        proof {
            reveal(spec_apply_effect);
        }
        if let Err(e) = self.is_action_allowed(action) {
            return Err(e);
        }
        self.craft_points = self.craft_points - self.craft_point(action);
        match action {
            Actions::BasicSynthesis => {
                let efficiency: u32 = if self.attributes.level < 31 {
                    100
                } else {
                    120
                };
                self.cast_synthesis(10, efficiency);
            },
            Actions::RapidSynthesis => {
                let efficiency: u32 = if self.attributes.level < 63 {
                    250
                } else {
                    500
                };
                self.cast_synthesis(10, efficiency);
            },
            Actions::CarefulSynthesis => {
                let efficiency: u32 = if self.attributes.level < 82 {
                    150
                } else {
                    180
                };
                self.cast_synthesis(10, efficiency);
            },
            Actions::FocusedSynthesis => {
                self.cast_synthesis(10, 200);
            },
            Actions::Groundwork => {
                let mut efficiency: u32 = if self.attributes.level < 86 {
                    300
                } else {
                    360
                };
                let adjusted_cost = self.calc_durability(20);
                if self.durability < adjusted_cost {
                    efficiency = efficiency / 2;
                }
                self.cast_synthesis(20, efficiency);
            },
            Actions::IntensiveSynthesis => {
                self.cast_synthesis(10, 400);
                if !matches!(self.condition, Condition::Good | Condition::Excellent) {
                    self.buffs.heart_and_soul = 0;
                }
            },
            Actions::PrudentSynthesis => {
                self.cast_synthesis(5, 180);
            },
            Actions::DelicateSynthesis => {
                self.cast_synthesis(0, 100);
                self.cast_touch(10, 100, 1);
            },
            Actions::BasicTouch => {
                self.cast_touch(10, 100, 1);
                self.buffs.touch_combo_stage = 1 + 2;
            },
            Actions::HastyTouch => {
                self.cast_touch(10, 100, 1);
            },
            Actions::StandardTouch => {
                if self.buffs.touch_combo_stage == 1 {
                    self.buffs.touch_combo_stage = 2 + 2;
                }
                self.cast_touch(10, 125, 1);
            },
            Actions::AdvancedTouch => {
                self.cast_touch(10, 150, 1);
            },
            Actions::ByregotsBlessing => {
                let stack: u32 = self.buffs.inner_quiet as u32;
                let mut efficiency: u32 = 100 + 20 * stack;
                if efficiency > 300 {
                    efficiency = 300;
                }
                self.cast_touch(10, efficiency, -(self.buffs.inner_quiet as i8));
            },
            Actions::PreciseTouch => {
                self.cast_touch(10, 150, 2);
                if !matches!(self.condition, Condition::Good | Condition::Excellent) {
                    self.buffs.heart_and_soul = 0;
                }
            },
            Actions::PrudentTouch => {
                self.cast_touch(5, 100, 1);
            },
            Actions::FocusedTouch => {
                self.cast_touch(10, 150, 1);
            },
            Actions::PreparatoryTouch => {
                self.cast_touch(20, 200, 2);
            },
            Actions::TrainedFinesse => {
                self.cast_touch(0, 100, 0);
            },
            Actions::TricksOfTheTrade => {
                let refunded: i64 = self.craft_points as i64 + 20;
                self.craft_points = if refunded >= self.attributes.craft_points as i64 {
                    self.attributes.craft_points
                } else {
                    refunded as i32
                };
                if !matches!(self.condition, Condition::Good | Condition::Excellent) {
                    self.buffs.heart_and_soul = 0;
                }
            },
            Actions::MastersMend => {
                let mended: u32 = self.durability as u32 + 30;
                self.durability = if mended >= self.recipe.durability as u32 {
                    self.recipe.durability
                } else {
                    mended as u16
                };
            },
            Actions::WasteNot => {
                self.buffs.wast_not = self.new_duration_buff(4);
            },
            Actions::WasteNotII => {
                self.buffs.wast_not = self.new_duration_buff(8);
            },
            Actions::Manipulation => {
                self.buffs.manipulation = self.new_duration_buff(8);
                self.buffs.next();
                self.step = self.step + 1;
                return Ok(());
            },
            Actions::MuscleMemory => {
                self.cast_synthesis(10, 300);
                self.buffs.muscle_memory = self.new_duration_buff(5);
            },
            Actions::Reflect => {
                self.cast_touch(10, 100, 2);
            },
            Actions::TrainedEye => {
                self.quality = self.recipe.quality;
            },
            Actions::Veneration => {
                self.buffs.veneration = self.new_duration_buff(4);
            },
            Actions::GreatStrides => {
                self.buffs.great_strides = self.new_duration_buff(3);
            },
            Actions::Innovation => {
                self.buffs.innovation = self.new_duration_buff(4);
            },
            Actions::Observe => {
                self.buffs.observed = 2;
            },
            Actions::FinalAppraisal => {
                self.buffs.final_appraisal = 5;
                return Ok(());
            },
            Actions::CarefulObservation => {
                self.buffs.careful_observation_used = self.buffs.careful_observation_used + 1;
                return Ok(());
            },
            Actions::HeartAndSoul => {
                self.buffs.heart_and_soul = 1;
                self.buffs.heart_and_soul_used = self.buffs.heart_and_soul_used + 1;
                return Ok(());
            },
            Actions::RapidSynthesisFail => {
                self.consume_durability(10);
            },
            Actions::HastyTouchFail => {
                self.consume_durability(10);
            },
            Actions::FocusedSynthesisFail => {
                self.consume_durability(10);
            },
            Actions::FocusedTouchFail => {
                self.consume_durability(10);
            },
        }
        if self.buffs.manipulation > 0 && self.durability > 0 {
            let regenerated: u32 = self.durability as u32 + 5;
            self.durability = if regenerated >= self.recipe.durability as u32 {
                self.recipe.durability
            } else {
                regenerated as u16
            };
        }
        self.buffs.next();
        self.step = self.step + 1;
        Ok(())
    }
}

} // verus!
