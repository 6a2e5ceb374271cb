//! The identity of every action: its canonical lowercase snake_case name,
//! a localized display alias, and the total name-to-action parsing with its
//! rejection of unknown names. Parsing the canonical name of any action
//! gives that action back; the round trip is proved in the laws module.

use vstd::prelude::*;
use crate::actions::Actions;
use crate::actions::UnknownSkillErr;
use crate::strcmp::str_eq;

verus! {

impl Actions {
    /// The canonical name, in spec form.
    pub open spec fn spec_name(self) -> Seq<char> {
        match self {
            Actions::BasicSynthesis => "basic_synthesis"@,
            Actions::BasicTouch => "basic_touch"@,
            Actions::MastersMend => "masters_mend"@,
            Actions::HastyTouch => "hasty_touch"@,
            Actions::RapidSynthesis => "rapid_synthesis"@,
            Actions::Observe => "observe"@,
            Actions::TricksOfTheTrade => "tricks_of_the_trade"@,
            Actions::WasteNot => "waste_not"@,
            Actions::Veneration => "veneration"@,
            Actions::StandardTouch => "standard_touch"@,
            Actions::GreatStrides => "great_strides"@,
            Actions::Innovation => "innovation"@,
            Actions::FinalAppraisal => "final_appraisal"@,
            Actions::WasteNotII => "waste_not_ii"@,
            Actions::ByregotsBlessing => "byregot_s_blessing"@,
            Actions::PreciseTouch => "precise_touch"@,
            Actions::MuscleMemory => "muscle_memory"@,
            Actions::CarefulSynthesis => "careful_synthesis"@,
            Actions::Manipulation => "manipulation"@,
            Actions::PrudentTouch => "prudent_touch"@,
            Actions::FocusedSynthesis => "focused_synthesis"@,
            Actions::FocusedTouch => "focused_touch"@,
            Actions::Reflect => "reflect"@,
            Actions::PreparatoryTouch => "preparatory_touch"@,
            Actions::Groundwork => "groundwork"@,
            Actions::DelicateSynthesis => "delicate_synthesis"@,
            Actions::IntensiveSynthesis => "intensive_synthesis"@,
            Actions::TrainedEye => "trained_eye"@,
            Actions::AdvancedTouch => "advanced_touch"@,
            Actions::PrudentSynthesis => "prudent_synthesis"@,
            Actions::TrainedFinesse => "trained_finesse"@,
            Actions::CarefulObservation => "careful_observation"@,
            Actions::HeartAndSoul => "heart_and_soul"@,
            Actions::RapidSynthesisFail => "rapid_synthesis_fail"@,
            Actions::HastyTouchFail => "hasty_touch_fail"@,
            Actions::FocusedSynthesisFail => "focused_synthesis_fail"@,
            Actions::FocusedTouchFail => "focused_touch_fail"@,
        }
    }

    /// The canonical lowercase snake_case name of this action.
    pub fn name(self) -> (r: &'static str)
        ensures
            r@ == self.spec_name(),
    {
        match self {
            Actions::BasicSynthesis => "basic_synthesis",
            Actions::BasicTouch => "basic_touch",
            Actions::MastersMend => "masters_mend",
            Actions::HastyTouch => "hasty_touch",
            Actions::RapidSynthesis => "rapid_synthesis",
            Actions::Observe => "observe",
            Actions::TricksOfTheTrade => "tricks_of_the_trade",
            Actions::WasteNot => "waste_not",
            Actions::Veneration => "veneration",
            Actions::StandardTouch => "standard_touch",
            Actions::GreatStrides => "great_strides",
            Actions::Innovation => "innovation",
            Actions::FinalAppraisal => "final_appraisal",
            Actions::WasteNotII => "waste_not_ii",
            Actions::ByregotsBlessing => "byregot_s_blessing",
            Actions::PreciseTouch => "precise_touch",
            Actions::MuscleMemory => "muscle_memory",
            Actions::CarefulSynthesis => "careful_synthesis",
            Actions::Manipulation => "manipulation",
            Actions::PrudentTouch => "prudent_touch",
            Actions::FocusedSynthesis => "focused_synthesis",
            Actions::FocusedTouch => "focused_touch",
            Actions::Reflect => "reflect",
            Actions::PreparatoryTouch => "preparatory_touch",
            Actions::Groundwork => "groundwork",
            Actions::DelicateSynthesis => "delicate_synthesis",
            Actions::IntensiveSynthesis => "intensive_synthesis",
            Actions::TrainedEye => "trained_eye",
            Actions::AdvancedTouch => "advanced_touch",
            Actions::PrudentSynthesis => "prudent_synthesis",
            Actions::TrainedFinesse => "trained_finesse",
            Actions::CarefulObservation => "careful_observation",
            Actions::HeartAndSoul => "heart_and_soul",
            Actions::RapidSynthesisFail => "rapid_synthesis_fail",
            Actions::HastyTouchFail => "hasty_touch_fail",
            Actions::FocusedSynthesisFail => "focused_synthesis_fail",
            Actions::FocusedTouchFail => "focused_touch_fail",
        }
    }

    /// The localized display name of this action; the fail variants reuse
    /// their canonical names.
    pub fn display_name(self) -> (r: &'static str)
        ensures
            r@ == self.spec_display_name(),
    {
        match self {
            Actions::BasicSynthesis => "制作",
            Actions::BasicTouch => "加工",
            Actions::MastersMend => "精修",
            Actions::HastyTouch => "仓促",
            Actions::RapidSynthesis => "高速制作",
            Actions::Observe => "观察",
            Actions::TricksOfTheTrade => "秘诀",
            Actions::WasteNot => "俭约",
            Actions::Veneration => "崇敬",
            Actions::StandardTouch => "中级加工",
            Actions::GreatStrides => "阔步",
            Actions::Innovation => "改革",
            Actions::FinalAppraisal => "最终确认",
            Actions::WasteNotII => "长期俭约",
            Actions::ByregotsBlessing => "比尔格的祝福",
            Actions::PreciseTouch => "集中加工",
            Actions::MuscleMemory => "坚信",
            Actions::CarefulSynthesis => "模范制作",
            Actions::Manipulation => "掌握",
            Actions::PrudentTouch => "俭约加工",
            Actions::FocusedSynthesis => "注视制作",
            Actions::FocusedTouch => "注视加工",
            Actions::Reflect => "闲静",
            Actions::PreparatoryTouch => "坯料加工",
            Actions::Groundwork => "坯料制作",
            Actions::DelicateSynthesis => "精密制作",
            Actions::IntensiveSynthesis => "集中制作",
            Actions::TrainedEye => "工匠的神速技巧",
            Actions::AdvancedTouch => "上级加工",
            Actions::PrudentSynthesis => "俭约制作",
            Actions::TrainedFinesse => "工匠的神技",
            Actions::CarefulObservation => "设计变动",
            Actions::HeartAndSoul => "专心致志",
            Actions::RapidSynthesisFail => "rapid_synthesis_fail",
            Actions::HastyTouchFail => "hasty_touch_fail",
            Actions::FocusedSynthesisFail => "focused_synthesis_fail",
            Actions::FocusedTouchFail => "focused_touch_fail",
        }
    }

    /// The localized display name, in spec form.
    pub open spec fn spec_display_name(self) -> Seq<char> {
        match self {
            Actions::BasicSynthesis => "制作"@,
            Actions::BasicTouch => "加工"@,
            Actions::MastersMend => "精修"@,
            Actions::HastyTouch => "仓促"@,
            Actions::RapidSynthesis => "高速制作"@,
            Actions::Observe => "观察"@,
            Actions::TricksOfTheTrade => "秘诀"@,
            Actions::WasteNot => "俭约"@,
            Actions::Veneration => "崇敬"@,
            Actions::StandardTouch => "中级加工"@,
            Actions::GreatStrides => "阔步"@,
            Actions::Innovation => "改革"@,
            Actions::FinalAppraisal => "最终确认"@,
            Actions::WasteNotII => "长期俭约"@,
            Actions::ByregotsBlessing => "比尔格的祝福"@,
            Actions::PreciseTouch => "集中加工"@,
            Actions::MuscleMemory => "坚信"@,
            Actions::CarefulSynthesis => "模范制作"@,
            Actions::Manipulation => "掌握"@,
            Actions::PrudentTouch => "俭约加工"@,
            Actions::FocusedSynthesis => "注视制作"@,
            Actions::FocusedTouch => "注视加工"@,
            Actions::Reflect => "闲静"@,
            Actions::PreparatoryTouch => "坯料加工"@,
            Actions::Groundwork => "坯料制作"@,
            Actions::DelicateSynthesis => "精密制作"@,
            Actions::IntensiveSynthesis => "集中制作"@,
            Actions::TrainedEye => "工匠的神速技巧"@,
            Actions::AdvancedTouch => "上级加工"@,
            Actions::PrudentSynthesis => "俭约制作"@,
            Actions::TrainedFinesse => "工匠的神技"@,
            Actions::CarefulObservation => "设计变动"@,
            Actions::HeartAndSoul => "专心致志"@,
            Actions::RapidSynthesisFail => "rapid_synthesis_fail"@,
            Actions::HastyTouchFail => "hasty_touch_fail"@,
            Actions::FocusedSynthesisFail => "focused_synthesis_fail"@,
            Actions::FocusedTouchFail => "focused_touch_fail"@,
        }
    }

    /// What parsing a name yields: the action whose canonical or localized
    /// name it is, or a rejection for an unrecognised name.
    pub open spec fn spec_parse(s: Seq<char>) -> Result<Actions, UnknownSkillErr> {
        if s == "basic_synthesis"@ || s == "制作"@ {
            Ok(Actions::BasicSynthesis)
        } else if s == "basic_touch"@ || s == "加工"@ {
            Ok(Actions::BasicTouch)
        } else if s == "masters_mend"@ || s == "精修"@ {
            Ok(Actions::MastersMend)
        } else if s == "hasty_touch"@ || s == "仓促"@ {
            Ok(Actions::HastyTouch)
        } else if s == "rapid_synthesis"@ || s == "高速制作"@ {
            Ok(Actions::RapidSynthesis)
        } else if s == "observe"@ || s == "观察"@ {
            Ok(Actions::Observe)
        } else if s == "tricks_of_the_trade"@ || s == "秘诀"@ {
            Ok(Actions::TricksOfTheTrade)
        } else if s == "waste_not"@ || s == "俭约"@ {
            Ok(Actions::WasteNot)
        } else if s == "veneration"@ || s == "崇敬"@ {
            Ok(Actions::Veneration)
        } else if s == "standard_touch"@ || s == "中级加工"@ {
            Ok(Actions::StandardTouch)
        } else if s == "great_strides"@ || s == "阔步"@ {
            Ok(Actions::GreatStrides)
        } else if s == "innovation"@ || s == "改革"@ {
            Ok(Actions::Innovation)
        } else if s == "final_appraisal"@ || s == "最终确认"@ {
            Ok(Actions::FinalAppraisal)
        } else if s == "waste_not_ii"@ || s == "长期俭约"@ {
            Ok(Actions::WasteNotII)
        } else if s == "byregot_s_blessing"@ || s == "比尔格的祝福"@ {
            Ok(Actions::ByregotsBlessing)
        } else if s == "precise_touch"@ || s == "集中加工"@ {
            Ok(Actions::PreciseTouch)
        } else if s == "muscle_memory"@ || s == "坚信"@ {
            Ok(Actions::MuscleMemory)
        } else if s == "careful_synthesis"@ || s == "模范制作"@ {
            Ok(Actions::CarefulSynthesis)
        } else if s == "manipulation"@ || s == "掌握"@ {
            Ok(Actions::Manipulation)
        } else if s == "prudent_touch"@ || s == "俭约加工"@ {
            Ok(Actions::PrudentTouch)
        } else if s == "focused_synthesis"@ || s == "注视制作"@ {
            Ok(Actions::FocusedSynthesis)
        } else if s == "focused_touch"@ || s == "注视加工"@ {
            Ok(Actions::FocusedTouch)
        } else if s == "reflect"@ || s == "闲静"@ {
            Ok(Actions::Reflect)
        } else if s == "preparatory_touch"@ || s == "坯料加工"@ {
            Ok(Actions::PreparatoryTouch)
        } else if s == "groundwork"@ || s == "坯料制作"@ {
            Ok(Actions::Groundwork)
        } else if s == "delicate_synthesis"@ || s == "精密制作"@ {
            Ok(Actions::DelicateSynthesis)
        } else if s == "intensive_synthesis"@ || s == "集中制作"@ {
            Ok(Actions::IntensiveSynthesis)
        } else if s == "trained_eye"@ || s == "工匠的神速技巧"@ {
            Ok(Actions::TrainedEye)
        } else if s == "advanced_touch"@ || s == "上级加工"@ {
            Ok(Actions::AdvancedTouch)
        } else if s == "prudent_synthesis"@ || s == "俭约制作"@ {
            Ok(Actions::PrudentSynthesis)
        } else if s == "trained_finesse"@ || s == "工匠的神技"@ {
            Ok(Actions::TrainedFinesse)
        } else if s == "careful_observation"@ || s == "设计变动"@ {
            Ok(Actions::CarefulObservation)
        } else if s == "heart_and_soul"@ || s == "专心致志"@ {
            Ok(Actions::HeartAndSoul)
        } else if s == "rapid_synthesis_fail"@ {
            Ok(Actions::RapidSynthesisFail)
        } else if s == "hasty_touch_fail"@ {
            Ok(Actions::HastyTouchFail)
        } else if s == "focused_synthesis_fail"@ {
            Ok(Actions::FocusedSynthesisFail)
        } else if s == "focused_touch_fail"@ {
            Ok(Actions::FocusedTouchFail)
        } else {
            Err(UnknownSkillErr)
        }
    }

    /// Parses a canonical or localized action name.
    pub fn parse(name: &str) -> (r: Result<Actions, UnknownSkillErr>)
        ensures
            r == Actions::spec_parse(name@),
    {
        if str_eq(name, "basic_synthesis") || str_eq(name, "制作") {
            Ok(Actions::BasicSynthesis)
        } else if str_eq(name, "basic_touch") || str_eq(name, "加工") {
            Ok(Actions::BasicTouch)
        } else if str_eq(name, "masters_mend") || str_eq(name, "精修") {
            Ok(Actions::MastersMend)
        } else if str_eq(name, "hasty_touch") || str_eq(name, "仓促") {
            Ok(Actions::HastyTouch)
        } else if str_eq(name, "rapid_synthesis") || str_eq(name, "高速制作") {
            Ok(Actions::RapidSynthesis)
        } else if str_eq(name, "observe") || str_eq(name, "观察") {
            Ok(Actions::Observe)
        } else if str_eq(name, "tricks_of_the_trade") || str_eq(name, "秘诀") {
            Ok(Actions::TricksOfTheTrade)
        } else if str_eq(name, "waste_not") || str_eq(name, "俭约") {
            Ok(Actions::WasteNot)
        } else if str_eq(name, "veneration") || str_eq(name, "崇敬") {
            Ok(Actions::Veneration)
        } else if str_eq(name, "standard_touch") || str_eq(name, "中级加工") {
            Ok(Actions::StandardTouch)
        } else if str_eq(name, "great_strides") || str_eq(name, "阔步") {
            Ok(Actions::GreatStrides)
        } else if str_eq(name, "innovation") || str_eq(name, "改革") {
            Ok(Actions::Innovation)
        } else if str_eq(name, "final_appraisal") || str_eq(name, "最终确认") {
            Ok(Actions::FinalAppraisal)
        } else if str_eq(name, "waste_not_ii") || str_eq(name, "长期俭约") {
            Ok(Actions::WasteNotII)
        } else if str_eq(name, "byregot_s_blessing") || str_eq(name, "比尔格的祝福") {
            Ok(Actions::ByregotsBlessing)
        } else if str_eq(name, "precise_touch") || str_eq(name, "集中加工") {
            Ok(Actions::PreciseTouch)
        } else if str_eq(name, "muscle_memory") || str_eq(name, "坚信") {
            Ok(Actions::MuscleMemory)
        } else if str_eq(name, "careful_synthesis") || str_eq(name, "模范制作") {
            Ok(Actions::CarefulSynthesis)
        } else if str_eq(name, "manipulation") || str_eq(name, "掌握") {
            Ok(Actions::Manipulation)
        } else if str_eq(name, "prudent_touch") || str_eq(name, "俭约加工") {
            Ok(Actions::PrudentTouch)
        } else if str_eq(name, "focused_synthesis") || str_eq(name, "注视制作") {
            Ok(Actions::FocusedSynthesis)
        } else if str_eq(name, "focused_touch") || str_eq(name, "注视加工") {
            Ok(Actions::FocusedTouch)
        } else if str_eq(name, "reflect") || str_eq(name, "闲静") {
            Ok(Actions::Reflect)
        } else if str_eq(name, "preparatory_touch") || str_eq(name, "坯料加工") {
            Ok(Actions::PreparatoryTouch)
        } else if str_eq(name, "groundwork") || str_eq(name, "坯料制作") {
            Ok(Actions::Groundwork)
        } else if str_eq(name, "delicate_synthesis") || str_eq(name, "精密制作") {
            Ok(Actions::DelicateSynthesis)
        } else if str_eq(name, "intensive_synthesis") || str_eq(name, "集中制作") {
            Ok(Actions::IntensiveSynthesis)
        } else if str_eq(name, "trained_eye") || str_eq(name, "工匠的神速技巧") {
            Ok(Actions::TrainedEye)
        } else if str_eq(name, "advanced_touch") || str_eq(name, "上级加工") {
            Ok(Actions::AdvancedTouch)
        } else if str_eq(name, "prudent_synthesis") || str_eq(name, "俭约制作") {
            Ok(Actions::PrudentSynthesis)
        } else if str_eq(name, "trained_finesse") || str_eq(name, "工匠的神技") {
            Ok(Actions::TrainedFinesse)
        } else if str_eq(name, "careful_observation") || str_eq(name, "设计变动") {
            Ok(Actions::CarefulObservation)
        } else if str_eq(name, "heart_and_soul") || str_eq(name, "专心致志") {
            Ok(Actions::HeartAndSoul)
        } else if str_eq(name, "rapid_synthesis_fail") {
            Ok(Actions::RapidSynthesisFail)
        } else if str_eq(name, "hasty_touch_fail") {
            Ok(Actions::HastyTouchFail)
        } else if str_eq(name, "focused_synthesis_fail") {
            Ok(Actions::FocusedSynthesisFail)
        } else if str_eq(name, "focused_touch_fail") {
            Ok(Actions::FocusedTouchFail)
        } else {
            Err(UnknownSkillErr)
        }
    }
}

} // verus!
