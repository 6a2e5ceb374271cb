//! The closed set of actions a crafter can cast, with their unlock levels,
//! canonical names and fail variants.

use vstd::prelude::*;

verus! {

/// Every action of the mini-game. The four `...Fail` variants are the
/// outcomes substituted for a reduced-success action that missed: they still
/// consume durability and craft points but grant no progress or quality.
#[derive(Copy, Clone, Debug, PartialEq, Eq, Structural)]
pub enum Actions {
    BasicSynthesis,
    BasicTouch,
    MastersMend,
    HastyTouch,
    RapidSynthesis,
    Observe,
    TricksOfTheTrade,
    WasteNot,
    Veneration,
    StandardTouch,
    GreatStrides,
    Innovation,
    FinalAppraisal,
    WasteNotII,
    ByregotsBlessing,
    PreciseTouch,
    MuscleMemory,
    CarefulSynthesis,
    Manipulation,
    PrudentTouch,
    FocusedSynthesis,
    FocusedTouch,
    Reflect,
    PreparatoryTouch,
    Groundwork,
    DelicateSynthesis,
    IntensiveSynthesis,
    TrainedEye,
    AdvancedTouch,
    PrudentSynthesis,
    TrainedFinesse,
    CarefulObservation,
    HeartAndSoul,
    RapidSynthesisFail,
    HastyTouchFail,
    FocusedSynthesisFail,
    FocusedTouchFail,
}

impl Actions {
    /// The player level at which this action unlocks, in spec form.
    pub open spec fn spec_unlock_level(self) -> int {
        match self {
            Actions::BasicSynthesis => 1,
            Actions::BasicTouch => 5,
            Actions::MastersMend => 7,
            Actions::HastyTouch => 9,
            Actions::RapidSynthesis => 9,
            Actions::Observe => 13,
            Actions::TricksOfTheTrade => 13,
            Actions::WasteNot => 15,
            Actions::Veneration => 15,
            Actions::StandardTouch => 18,
            Actions::GreatStrides => 21,
            Actions::Innovation => 26,
            Actions::FinalAppraisal => 42,
            Actions::WasteNotII => 47,
            Actions::ByregotsBlessing => 50,
            Actions::PreciseTouch => 53,
            Actions::MuscleMemory => 54,
            Actions::CarefulSynthesis => 62,
            Actions::Manipulation => 65,
            Actions::PrudentTouch => 66,
            Actions::FocusedSynthesis => 67,
            Actions::FocusedTouch => 68,
            Actions::Reflect => 69,
            Actions::PreparatoryTouch => 71,
            Actions::Groundwork => 72,
            Actions::DelicateSynthesis => 76,
            Actions::IntensiveSynthesis => 78,
            Actions::TrainedEye => 80,
            Actions::AdvancedTouch => 84,
            Actions::PrudentSynthesis => 88,
            Actions::TrainedFinesse => 90,
            Actions::CarefulObservation => 55,
            Actions::HeartAndSoul => 86,
            Actions::RapidSynthesisFail => 9,
            Actions::HastyTouchFail => 9,
            Actions::FocusedSynthesisFail => 67,
            Actions::FocusedTouchFail => 68,
        }
    }

    /// The player level at which this action unlocks.
    pub fn unlock_level(&self) -> (r: u8)
        ensures
            r == self.spec_unlock_level(),
    {
        match self {
            Actions::BasicSynthesis => 1,
            Actions::BasicTouch => 5,
            Actions::MastersMend => 7,
            Actions::HastyTouch => 9,
            Actions::RapidSynthesis => 9,
            Actions::Observe => 13,
            Actions::TricksOfTheTrade => 13,
            Actions::WasteNot => 15,
            Actions::Veneration => 15,
            Actions::StandardTouch => 18,
            Actions::GreatStrides => 21,
            Actions::Innovation => 26,
            Actions::FinalAppraisal => 42,
            Actions::WasteNotII => 47,
            Actions::ByregotsBlessing => 50,
            Actions::PreciseTouch => 53,
            Actions::MuscleMemory => 54,
            Actions::CarefulSynthesis => 62,
            Actions::Manipulation => 65,
            Actions::PrudentTouch => 66,
            Actions::FocusedSynthesis => 67,
            Actions::FocusedTouch => 68,
            Actions::Reflect => 69,
            Actions::PreparatoryTouch => 71,
            Actions::Groundwork => 72,
            Actions::DelicateSynthesis => 76,
            Actions::IntensiveSynthesis => 78,
            Actions::TrainedEye => 80,
            Actions::AdvancedTouch => 84,
            Actions::PrudentSynthesis => 88,
            Actions::TrainedFinesse => 90,
            Actions::CarefulObservation => 55,
            Actions::HeartAndSoul => 86,
            Actions::RapidSynthesisFail => 9,
            Actions::HastyTouchFail => 9,
            Actions::FocusedSynthesisFail => 67,
            Actions::FocusedTouchFail => 68,
        }
    }

    /// The fail variant substituted for a reduced-success action that
    /// missed; actions that cannot miss map to themselves.
    pub open spec fn spec_fail_variant(self) -> Actions {
        match self {
            Actions::RapidSynthesis => Actions::RapidSynthesisFail,
            Actions::HastyTouch => Actions::HastyTouchFail,
            Actions::FocusedSynthesis => Actions::FocusedSynthesisFail,
            Actions::FocusedTouch => Actions::FocusedTouchFail,
            _ => self,
        }
    }

    /// The fail variant of a reduced-success action.
    pub fn fail_variant(self) -> (r: Actions)
        ensures
            r == self.spec_fail_variant(),
    {
        match self {
            Actions::RapidSynthesis => Actions::RapidSynthesisFail,
            Actions::HastyTouch => Actions::HastyTouchFail,
            Actions::FocusedSynthesis => Actions::FocusedSynthesisFail,
            Actions::FocusedTouch => Actions::FocusedTouchFail,
            _ => self,
        }
    }
}

/// Returned when an action name is not recognised.
#[derive(Copy, Clone, Debug, PartialEq, Eq, Structural)]
pub struct UnknownSkillErr;

} // verus!
