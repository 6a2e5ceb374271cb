//! The laws of the library, proved once and for all over the spec-level
//! model: the state invariants survive every action, the inner-quiet stack
//! never leaves its range, action names round-trip through the parser, the
//! engine is deterministic, and the first-turn power buff is consumed by
//! exactly one progress-gaining action.

use vstd::prelude::*;
use crate::actions::Actions;
use crate::actions::UnknownSkillErr;
use crate::engine::spec_apply_effect;
use crate::engine::spec_cast_state;
use crate::engine::spec_cast_synthesis;
use crate::engine::spec_legality;
use crate::status::StatusV;

verus! {

/// Every action preserves the state invariants: after a legally cast
/// action, durability stays within the recipe's budget, craft points within
/// the player's capacity, progress within the difficulty, quality within
/// the quality cap, and every buff counter within its range — in
/// particular, the inner-quiet stack stays in `[0, 10]`.
#[verifier::rlimit(100)]
pub proof fn lemma_cast_preserves_invariants(s: StatusV, action: Actions)
    requires
        s.wf(),
        spec_legality(s, action) is None,
        s.step < i32::MAX,
    ensures
        spec_cast_state(s, action).wf(),
        spec_cast_state(s, action).buffs.inner_quiet <= 10,
{
    reveal(spec_apply_effect);
    match action {
        Actions::BasicSynthesis => {
            assert(spec_cast_state(s, action).wf());
        },
        Actions::BasicTouch => {
            assert(spec_cast_state(s, action).wf());
        },
        Actions::MastersMend => {
            assert(spec_cast_state(s, action).wf());
        },
        Actions::HastyTouch => {
            assert(spec_cast_state(s, action).wf());
        },
        Actions::RapidSynthesis => {
            assert(spec_cast_state(s, action).wf());
        },
        Actions::Observe => {
            assert(spec_cast_state(s, action).wf());
        },
        Actions::TricksOfTheTrade => {
            assert(spec_cast_state(s, action).wf());
        },
        Actions::WasteNot => {
            assert(spec_cast_state(s, action).wf());
        },
        Actions::Veneration => {
            assert(spec_cast_state(s, action).wf());
        },
        Actions::StandardTouch => {
            assert(spec_cast_state(s, action).wf());
        },
        Actions::GreatStrides => {
            assert(spec_cast_state(s, action).wf());
        },
        Actions::Innovation => {
            assert(spec_cast_state(s, action).wf());
        },
        Actions::FinalAppraisal => {
            assert(spec_cast_state(s, action).wf());
        },
        Actions::WasteNotII => {
            assert(spec_cast_state(s, action).wf());
        },
        Actions::ByregotsBlessing => {
            assert(spec_cast_state(s, action).wf());
        },
        Actions::PreciseTouch => {
            assert(spec_cast_state(s, action).wf());
        },
        Actions::MuscleMemory => {
            assert(spec_cast_state(s, action).wf());
        },
        Actions::CarefulSynthesis => {
            assert(spec_cast_state(s, action).wf());
        },
        Actions::Manipulation => {
            assert(spec_cast_state(s, action).wf());
        },
        Actions::PrudentTouch => {
            assert(spec_cast_state(s, action).wf());
        },
        Actions::FocusedSynthesis => {
            assert(spec_cast_state(s, action).wf());
        },
        Actions::FocusedTouch => {
            assert(spec_cast_state(s, action).wf());
        },
        Actions::Reflect => {
            assert(spec_cast_state(s, action).wf());
        },
        Actions::PreparatoryTouch => {
            assert(spec_cast_state(s, action).wf());
        },
        Actions::Groundwork => {
            assert(spec_cast_state(s, action).wf());
        },
        Actions::DelicateSynthesis => {
            assert(spec_cast_state(s, action).wf());
        },
        Actions::IntensiveSynthesis => {
            assert(spec_cast_state(s, action).wf());
        },
        Actions::TrainedEye => {
            assert(spec_cast_state(s, action).wf());
        },
        Actions::AdvancedTouch => {
            assert(spec_cast_state(s, action).wf());
        },
        Actions::PrudentSynthesis => {
            assert(spec_cast_state(s, action).wf());
        },
        Actions::TrainedFinesse => {
            assert(spec_cast_state(s, action).wf());
        },
        Actions::CarefulObservation => {
            assert(spec_cast_state(s, action).wf());
        },
        Actions::HeartAndSoul => {
            assert(spec_cast_state(s, action).wf());
        },
        Actions::RapidSynthesisFail => {
            assert(spec_cast_state(s, action).wf());
        },
        Actions::HastyTouchFail => {
            assert(spec_cast_state(s, action).wf());
        },
        Actions::FocusedSynthesisFail => {
            assert(spec_cast_state(s, action).wf());
        },
        Actions::FocusedTouchFail => {
            assert(spec_cast_state(s, action).wf());
        },
    }
}

/// One engine step as a state-to-state function: a refused action leaves
/// the state exactly as it was, an allowed one moves it by the engine's
/// transition.
pub open spec fn spec_step(s: StatusV, action: Actions) -> StatusV {
    match spec_legality(s, action) {
        Some(_) => s,
        None => spec_cast_state(s, action),
    }
}

/// An ordered action sequence, run step by step.
pub open spec fn spec_run(s: StatusV, actions: Seq<Actions>) -> StatusV
    decreases actions.len(),
{
    if actions.len() == 0 {
        s
    } else {
        spec_run(spec_step(s, actions[0]), actions.skip(1))
    }
}

/// Determinism: the engine consults nothing but the state and the action,
/// so two runs of the same ordered action sequence from identical states
/// end in identical states. Together with `cast_action`'s postcondition —
/// which pins each executed step to `spec_step` of its view — two
/// independent executions of one sequence produce bit-identical results.
pub proof fn lemma_run_deterministic(s1: StatusV, s2: StatusV, actions: Seq<Actions>)
    requires
        s1 == s2,
    ensures
        spec_run(s1, actions) == spec_run(s2, actions),
{
}

/// Lengths and leading characters of every action-name literal; enough
/// to tell any two distinct names apart.
proof fn lemma_name_text_facts()
    ensures
        ("basic_synthesis"@).len() == 15,
        ("basic_synthesis"@)[0] == 'b',
        ("basic_synthesis"@)[1] == 'a',
        ("basic_synthesis"@)[2] == 's',
        ("制作"@).len() == 2,
        ("制作"@)[0] == '制',
        ("制作"@)[1] == '作',
        ("basic_touch"@).len() == 11,
        ("basic_touch"@)[0] == 'b',
        ("basic_touch"@)[1] == 'a',
        ("basic_touch"@)[2] == 's',
        ("加工"@).len() == 2,
        ("加工"@)[0] == '加',
        ("加工"@)[1] == '工',
        ("masters_mend"@).len() == 12,
        ("masters_mend"@)[0] == 'm',
        ("masters_mend"@)[1] == 'a',
        ("masters_mend"@)[2] == 's',
        ("精修"@).len() == 2,
        ("精修"@)[0] == '精',
        ("精修"@)[1] == '修',
        ("hasty_touch"@).len() == 11,
        ("hasty_touch"@)[0] == 'h',
        ("hasty_touch"@)[1] == 'a',
        ("hasty_touch"@)[2] == 's',
        ("仓促"@).len() == 2,
        ("仓促"@)[0] == '仓',
        ("仓促"@)[1] == '促',
        ("rapid_synthesis"@).len() == 15,
        ("rapid_synthesis"@)[0] == 'r',
        ("rapid_synthesis"@)[1] == 'a',
        ("rapid_synthesis"@)[2] == 'p',
        ("高速制作"@).len() == 4,
        ("高速制作"@)[0] == '高',
        ("高速制作"@)[1] == '速',
        ("高速制作"@)[2] == '制',
        ("observe"@).len() == 7,
        ("observe"@)[0] == 'o',
        ("observe"@)[1] == 'b',
        ("observe"@)[2] == 's',
        ("观察"@).len() == 2,
        ("观察"@)[0] == '观',
        ("观察"@)[1] == '察',
        ("tricks_of_the_trade"@).len() == 19,
        ("tricks_of_the_trade"@)[0] == 't',
        ("tricks_of_the_trade"@)[1] == 'r',
        ("tricks_of_the_trade"@)[2] == 'i',
        ("秘诀"@).len() == 2,
        ("秘诀"@)[0] == '秘',
        ("秘诀"@)[1] == '诀',
        ("waste_not"@).len() == 9,
        ("waste_not"@)[0] == 'w',
        ("waste_not"@)[1] == 'a',
        ("waste_not"@)[2] == 's',
        ("俭约"@).len() == 2,
        ("俭约"@)[0] == '俭',
        ("俭约"@)[1] == '约',
        ("veneration"@).len() == 10,
        ("veneration"@)[0] == 'v',
        ("veneration"@)[1] == 'e',
        ("veneration"@)[2] == 'n',
        ("崇敬"@).len() == 2,
        ("崇敬"@)[0] == '崇',
        ("崇敬"@)[1] == '敬',
        ("standard_touch"@).len() == 14,
        ("standard_touch"@)[0] == 's',
        ("standard_touch"@)[1] == 't',
        ("standard_touch"@)[2] == 'a',
        ("中级加工"@).len() == 4,
        ("中级加工"@)[0] == '中',
        ("中级加工"@)[1] == '级',
        ("中级加工"@)[2] == '加',
        ("great_strides"@).len() == 13,
        ("great_strides"@)[0] == 'g',
        ("great_strides"@)[1] == 'r',
        ("great_strides"@)[2] == 'e',
        ("阔步"@).len() == 2,
        ("阔步"@)[0] == '阔',
        ("阔步"@)[1] == '步',
        ("innovation"@).len() == 10,
        ("innovation"@)[0] == 'i',
        ("innovation"@)[1] == 'n',
        ("innovation"@)[2] == 'n',
        ("改革"@).len() == 2,
        ("改革"@)[0] == '改',
        ("改革"@)[1] == '革',
        ("final_appraisal"@).len() == 15,
        ("final_appraisal"@)[0] == 'f',
        ("final_appraisal"@)[1] == 'i',
        ("final_appraisal"@)[2] == 'n',
        ("最终确认"@).len() == 4,
        ("最终确认"@)[0] == '最',
        ("最终确认"@)[1] == '终',
        ("最终确认"@)[2] == '确',
        ("waste_not_ii"@).len() == 12,
        ("waste_not_ii"@)[0] == 'w',
        ("waste_not_ii"@)[1] == 'a',
        ("waste_not_ii"@)[2] == 's',
        ("长期俭约"@).len() == 4,
        ("长期俭约"@)[0] == '长',
        ("长期俭约"@)[1] == '期',
        ("长期俭约"@)[2] == '俭',
        ("byregot_s_blessing"@).len() == 18,
        ("byregot_s_blessing"@)[0] == 'b',
        ("byregot_s_blessing"@)[1] == 'y',
        ("byregot_s_blessing"@)[2] == 'r',
        ("比尔格的祝福"@).len() == 6,
        ("比尔格的祝福"@)[0] == '比',
        ("比尔格的祝福"@)[1] == '尔',
        ("比尔格的祝福"@)[2] == '格',
        ("precise_touch"@).len() == 13,
        ("precise_touch"@)[0] == 'p',
        ("precise_touch"@)[1] == 'r',
        ("precise_touch"@)[2] == 'e',
        ("集中加工"@).len() == 4,
        ("集中加工"@)[0] == '集',
        ("集中加工"@)[1] == '中',
        ("集中加工"@)[2] == '加',
        ("muscle_memory"@).len() == 13,
        ("muscle_memory"@)[0] == 'm',
        ("muscle_memory"@)[1] == 'u',
        ("muscle_memory"@)[2] == 's',
        ("坚信"@).len() == 2,
        ("坚信"@)[0] == '坚',
        ("坚信"@)[1] == '信',
        ("careful_synthesis"@).len() == 17,
        ("careful_synthesis"@)[0] == 'c',
        ("careful_synthesis"@)[1] == 'a',
        ("careful_synthesis"@)[2] == 'r',
        ("模范制作"@).len() == 4,
        ("模范制作"@)[0] == '模',
        ("模范制作"@)[1] == '范',
        ("模范制作"@)[2] == '制',
        ("manipulation"@).len() == 12,
        ("manipulation"@)[0] == 'm',
        ("manipulation"@)[1] == 'a',
        ("manipulation"@)[2] == 'n',
        ("掌握"@).len() == 2,
        ("掌握"@)[0] == '掌',
        ("掌握"@)[1] == '握',
        ("prudent_touch"@).len() == 13,
        ("prudent_touch"@)[0] == 'p',
        ("prudent_touch"@)[1] == 'r',
        ("prudent_touch"@)[2] == 'u',
        ("俭约加工"@).len() == 4,
        ("俭约加工"@)[0] == '俭',
        ("俭约加工"@)[1] == '约',
        ("俭约加工"@)[2] == '加',
        ("focused_synthesis"@).len() == 17,
        ("focused_synthesis"@)[0] == 'f',
        ("focused_synthesis"@)[1] == 'o',
        ("focused_synthesis"@)[2] == 'c',
        ("注视制作"@).len() == 4,
        ("注视制作"@)[0] == '注',
        ("注视制作"@)[1] == '视',
        ("注视制作"@)[2] == '制',
        ("focused_touch"@).len() == 13,
        ("focused_touch"@)[0] == 'f',
        ("focused_touch"@)[1] == 'o',
        ("focused_touch"@)[2] == 'c',
        ("注视加工"@).len() == 4,
        ("注视加工"@)[0] == '注',
        ("注视加工"@)[1] == '视',
        ("注视加工"@)[2] == '加',
        ("reflect"@).len() == 7,
        ("reflect"@)[0] == 'r',
        ("reflect"@)[1] == 'e',
        ("reflect"@)[2] == 'f',
        ("闲静"@).len() == 2,
        ("闲静"@)[0] == '闲',
        ("闲静"@)[1] == '静',
        ("preparatory_touch"@).len() == 17,
        ("preparatory_touch"@)[0] == 'p',
        ("preparatory_touch"@)[1] == 'r',
        ("preparatory_touch"@)[2] == 'e',
        ("坯料加工"@).len() == 4,
        ("坯料加工"@)[0] == '坯',
        ("坯料加工"@)[1] == '料',
        ("坯料加工"@)[2] == '加',
        ("groundwork"@).len() == 10,
        ("groundwork"@)[0] == 'g',
        ("groundwork"@)[1] == 'r',
        ("groundwork"@)[2] == 'o',
        ("坯料制作"@).len() == 4,
        ("坯料制作"@)[0] == '坯',
        ("坯料制作"@)[1] == '料',
        ("坯料制作"@)[2] == '制',
        ("delicate_synthesis"@).len() == 18,
        ("delicate_synthesis"@)[0] == 'd',
        ("delicate_synthesis"@)[1] == 'e',
        ("delicate_synthesis"@)[2] == 'l',
        ("精密制作"@).len() == 4,
        ("精密制作"@)[0] == '精',
        ("精密制作"@)[1] == '密',
        ("精密制作"@)[2] == '制',
        ("intensive_synthesis"@).len() == 19,
        ("intensive_synthesis"@)[0] == 'i',
        ("intensive_synthesis"@)[1] == 'n',
        ("intensive_synthesis"@)[2] == 't',
        ("集中制作"@).len() == 4,
        ("集中制作"@)[0] == '集',
        ("集中制作"@)[1] == '中',
        ("集中制作"@)[2] == '制',
        ("trained_eye"@).len() == 11,
        ("trained_eye"@)[0] == 't',
        ("trained_eye"@)[1] == 'r',
        ("trained_eye"@)[2] == 'a',
        ("工匠的神速技巧"@).len() == 7,
        ("工匠的神速技巧"@)[0] == '工',
        ("工匠的神速技巧"@)[1] == '匠',
        ("工匠的神速技巧"@)[2] == '的',
        ("advanced_touch"@).len() == 14,
        ("advanced_touch"@)[0] == 'a',
        ("advanced_touch"@)[1] == 'd',
        ("advanced_touch"@)[2] == 'v',
        ("上级加工"@).len() == 4,
        ("上级加工"@)[0] == '上',
        ("上级加工"@)[1] == '级',
        ("上级加工"@)[2] == '加',
        ("prudent_synthesis"@).len() == 17,
        ("prudent_synthesis"@)[0] == 'p',
        ("prudent_synthesis"@)[1] == 'r',
        ("prudent_synthesis"@)[2] == 'u',
        ("俭约制作"@).len() == 4,
        ("俭约制作"@)[0] == '俭',
        ("俭约制作"@)[1] == '约',
        ("俭约制作"@)[2] == '制',
        ("trained_finesse"@).len() == 15,
        ("trained_finesse"@)[0] == 't',
        ("trained_finesse"@)[1] == 'r',
        ("trained_finesse"@)[2] == 'a',
        ("工匠的神技"@).len() == 5,
        ("工匠的神技"@)[0] == '工',
        ("工匠的神技"@)[1] == '匠',
        ("工匠的神技"@)[2] == '的',
        ("careful_observation"@).len() == 19,
        ("careful_observation"@)[0] == 'c',
        ("careful_observation"@)[1] == 'a',
        ("careful_observation"@)[2] == 'r',
        ("设计变动"@).len() == 4,
        ("设计变动"@)[0] == '设',
        ("设计变动"@)[1] == '计',
        ("设计变动"@)[2] == '变',
        ("heart_and_soul"@).len() == 14,
        ("heart_and_soul"@)[0] == 'h',
        ("heart_and_soul"@)[1] == 'e',
        ("heart_and_soul"@)[2] == 'a',
        ("专心致志"@).len() == 4,
        ("专心致志"@)[0] == '专',
        ("专心致志"@)[1] == '心',
        ("专心致志"@)[2] == '致',
        ("rapid_synthesis_fail"@).len() == 20,
        ("rapid_synthesis_fail"@)[0] == 'r',
        ("rapid_synthesis_fail"@)[1] == 'a',
        ("rapid_synthesis_fail"@)[2] == 'p',
        ("hasty_touch_fail"@).len() == 16,
        ("hasty_touch_fail"@)[0] == 'h',
        ("hasty_touch_fail"@)[1] == 'a',
        ("hasty_touch_fail"@)[2] == 's',
        ("focused_synthesis_fail"@).len() == 22,
        ("focused_synthesis_fail"@)[0] == 'f',
        ("focused_synthesis_fail"@)[1] == 'o',
        ("focused_synthesis_fail"@)[2] == 'c',
        ("focused_touch_fail"@).len() == 18,
        ("focused_touch_fail"@)[0] == 'f',
        ("focused_touch_fail"@)[1] == 'o',
        ("focused_touch_fail"@)[2] == 'c',
{
    reveal_strlit("basic_synthesis");
    reveal_strlit("制作");
    reveal_strlit("basic_touch");
    reveal_strlit("加工");
    reveal_strlit("masters_mend");
    reveal_strlit("精修");
    reveal_strlit("hasty_touch");
    reveal_strlit("仓促");
    reveal_strlit("rapid_synthesis");
    reveal_strlit("高速制作");
    reveal_strlit("observe");
    reveal_strlit("观察");
    reveal_strlit("tricks_of_the_trade");
    reveal_strlit("秘诀");
    reveal_strlit("waste_not");
    reveal_strlit("俭约");
    reveal_strlit("veneration");
    reveal_strlit("崇敬");
    reveal_strlit("standard_touch");
    reveal_strlit("中级加工");
    reveal_strlit("great_strides");
    reveal_strlit("阔步");
    reveal_strlit("innovation");
    reveal_strlit("改革");
    reveal_strlit("final_appraisal");
    reveal_strlit("最终确认");
    reveal_strlit("waste_not_ii");
    reveal_strlit("长期俭约");
    reveal_strlit("byregot_s_blessing");
    reveal_strlit("比尔格的祝福");
    reveal_strlit("precise_touch");
    reveal_strlit("集中加工");
    reveal_strlit("muscle_memory");
    reveal_strlit("坚信");
    reveal_strlit("careful_synthesis");
    reveal_strlit("模范制作");
    reveal_strlit("manipulation");
    reveal_strlit("掌握");
    reveal_strlit("prudent_touch");
    reveal_strlit("俭约加工");
    reveal_strlit("focused_synthesis");
    reveal_strlit("注视制作");
    reveal_strlit("focused_touch");
    reveal_strlit("注视加工");
    reveal_strlit("reflect");
    reveal_strlit("闲静");
    reveal_strlit("preparatory_touch");
    reveal_strlit("坯料加工");
    reveal_strlit("groundwork");
    reveal_strlit("坯料制作");
    reveal_strlit("delicate_synthesis");
    reveal_strlit("精密制作");
    reveal_strlit("intensive_synthesis");
    reveal_strlit("集中制作");
    reveal_strlit("trained_eye");
    reveal_strlit("工匠的神速技巧");
    reveal_strlit("advanced_touch");
    reveal_strlit("上级加工");
    reveal_strlit("prudent_synthesis");
    reveal_strlit("俭约制作");
    reveal_strlit("trained_finesse");
    reveal_strlit("工匠的神技");
    reveal_strlit("careful_observation");
    reveal_strlit("设计变动");
    reveal_strlit("heart_and_soul");
    reveal_strlit("专心致志");
    reveal_strlit("rapid_synthesis_fail");
    reveal_strlit("hasty_touch_fail");
    reveal_strlit("focused_synthesis_fail");
    reveal_strlit("focused_touch_fail");
}

/// The name round trip for one group of actions.
#[verifier::rlimit(100)]
proof fn lemma_name_round_trip_part_0(action: Actions)
    requires
        matches!(action, Actions::BasicSynthesis
            | Actions::BasicTouch
            | Actions::MastersMend
            | Actions::HastyTouch
            | Actions::RapidSynthesis
            | Actions::Observe
            | Actions::TricksOfTheTrade
            | Actions::WasteNot
            | Actions::Veneration
            | Actions::StandardTouch),
    ensures
        Actions::spec_parse(action.spec_name()) == Ok::<Actions, UnknownSkillErr>(action),
{
    lemma_name_text_facts();
    match action {
        Actions::BasicSynthesis => {
            assert(Actions::spec_parse(action.spec_name()) == Ok::<Actions, UnknownSkillErr>(action));
        },
        Actions::BasicTouch => {
            assert(Actions::spec_parse(action.spec_name()) == Ok::<Actions, UnknownSkillErr>(action));
        },
        Actions::MastersMend => {
            assert(Actions::spec_parse(action.spec_name()) == Ok::<Actions, UnknownSkillErr>(action));
        },
        Actions::HastyTouch => {
            assert(Actions::spec_parse(action.spec_name()) == Ok::<Actions, UnknownSkillErr>(action));
        },
        Actions::RapidSynthesis => {
            assert(Actions::spec_parse(action.spec_name()) == Ok::<Actions, UnknownSkillErr>(action));
        },
        Actions::Observe => {
            assert(Actions::spec_parse(action.spec_name()) == Ok::<Actions, UnknownSkillErr>(action));
        },
        Actions::TricksOfTheTrade => {
            assert(Actions::spec_parse(action.spec_name()) == Ok::<Actions, UnknownSkillErr>(action));
        },
        Actions::WasteNot => {
            assert(Actions::spec_parse(action.spec_name()) == Ok::<Actions, UnknownSkillErr>(action));
        },
        Actions::Veneration => {
            assert(Actions::spec_parse(action.spec_name()) == Ok::<Actions, UnknownSkillErr>(action));
        },
        Actions::StandardTouch => {
            assert(Actions::spec_parse(action.spec_name()) == Ok::<Actions, UnknownSkillErr>(action));
        },
        _ => {},
    }
}

/// The name round trip for one group of actions.
#[verifier::rlimit(100)]
proof fn lemma_name_round_trip_part_1(action: Actions)
    requires
        matches!(action, Actions::GreatStrides
            | Actions::Innovation
            | Actions::FinalAppraisal
            | Actions::WasteNotII
            | Actions::ByregotsBlessing
            | Actions::PreciseTouch
            | Actions::MuscleMemory
            | Actions::CarefulSynthesis
            | Actions::Manipulation
            | Actions::PrudentTouch),
    ensures
        Actions::spec_parse(action.spec_name()) == Ok::<Actions, UnknownSkillErr>(action),
{
    lemma_name_text_facts();
    match action {
        Actions::GreatStrides => {
            assert(Actions::spec_parse(action.spec_name()) == Ok::<Actions, UnknownSkillErr>(action));
        },
        Actions::Innovation => {
            assert(Actions::spec_parse(action.spec_name()) == Ok::<Actions, UnknownSkillErr>(action));
        },
        Actions::FinalAppraisal => {
            assert(Actions::spec_parse(action.spec_name()) == Ok::<Actions, UnknownSkillErr>(action));
        },
        Actions::WasteNotII => {
            assert(Actions::spec_parse(action.spec_name()) == Ok::<Actions, UnknownSkillErr>(action));
        },
        Actions::ByregotsBlessing => {
            assert(Actions::spec_parse(action.spec_name()) == Ok::<Actions, UnknownSkillErr>(action));
        },
        Actions::PreciseTouch => {
            assert(Actions::spec_parse(action.spec_name()) == Ok::<Actions, UnknownSkillErr>(action));
        },
        Actions::MuscleMemory => {
            assert(Actions::spec_parse(action.spec_name()) == Ok::<Actions, UnknownSkillErr>(action));
        },
        Actions::CarefulSynthesis => {
            assert(Actions::spec_parse(action.spec_name()) == Ok::<Actions, UnknownSkillErr>(action));
        },
        Actions::Manipulation => {
            assert(Actions::spec_parse(action.spec_name()) == Ok::<Actions, UnknownSkillErr>(action));
        },
        Actions::PrudentTouch => {
            assert(Actions::spec_parse(action.spec_name()) == Ok::<Actions, UnknownSkillErr>(action));
        },
        _ => {},
    }
}

/// The name round trip for one group of actions.
#[verifier::rlimit(100)]
proof fn lemma_name_round_trip_part_2(action: Actions)
    requires
        matches!(action, Actions::FocusedSynthesis
            | Actions::FocusedTouch
            | Actions::Reflect
            | Actions::PreparatoryTouch
            | Actions::Groundwork
            | Actions::DelicateSynthesis
            | Actions::IntensiveSynthesis
            | Actions::TrainedEye
            | Actions::AdvancedTouch
            | Actions::PrudentSynthesis),
    ensures
        Actions::spec_parse(action.spec_name()) == Ok::<Actions, UnknownSkillErr>(action),
{
    lemma_name_text_facts();
    match action {
        Actions::FocusedSynthesis => {
            assert(Actions::spec_parse(action.spec_name()) == Ok::<Actions, UnknownSkillErr>(action));
        },
        Actions::FocusedTouch => {
            assert(Actions::spec_parse(action.spec_name()) == Ok::<Actions, UnknownSkillErr>(action));
        },
        Actions::Reflect => {
            assert(Actions::spec_parse(action.spec_name()) == Ok::<Actions, UnknownSkillErr>(action));
        },
        Actions::PreparatoryTouch => {
            assert(Actions::spec_parse(action.spec_name()) == Ok::<Actions, UnknownSkillErr>(action));
        },
        Actions::Groundwork => {
            assert(Actions::spec_parse(action.spec_name()) == Ok::<Actions, UnknownSkillErr>(action));
        },
        Actions::DelicateSynthesis => {
            assert(Actions::spec_parse(action.spec_name()) == Ok::<Actions, UnknownSkillErr>(action));
        },
        Actions::IntensiveSynthesis => {
            assert(Actions::spec_parse(action.spec_name()) == Ok::<Actions, UnknownSkillErr>(action));
        },
        Actions::TrainedEye => {
            assert(Actions::spec_parse(action.spec_name()) == Ok::<Actions, UnknownSkillErr>(action));
        },
        Actions::AdvancedTouch => {
            assert(Actions::spec_parse(action.spec_name()) == Ok::<Actions, UnknownSkillErr>(action));
        },
        Actions::PrudentSynthesis => {
            assert(Actions::spec_parse(action.spec_name()) == Ok::<Actions, UnknownSkillErr>(action));
        },
        _ => {},
    }
}

/// The name round trip for one group of actions.
#[verifier::rlimit(100)]
proof fn lemma_name_round_trip_part_3(action: Actions)
    requires
        matches!(action, Actions::TrainedFinesse
            | Actions::CarefulObservation
            | Actions::HeartAndSoul
            | Actions::RapidSynthesisFail
            | Actions::HastyTouchFail
            | Actions::FocusedSynthesisFail
            | Actions::FocusedTouchFail),
    ensures
        Actions::spec_parse(action.spec_name()) == Ok::<Actions, UnknownSkillErr>(action),
{
    lemma_name_text_facts();
    match action {
        Actions::TrainedFinesse => {
            assert(Actions::spec_parse(action.spec_name()) == Ok::<Actions, UnknownSkillErr>(action));
        },
        Actions::CarefulObservation => {
            assert(Actions::spec_parse(action.spec_name()) == Ok::<Actions, UnknownSkillErr>(action));
        },
        Actions::HeartAndSoul => {
            assert(Actions::spec_parse(action.spec_name()) == Ok::<Actions, UnknownSkillErr>(action));
        },
        Actions::RapidSynthesisFail => {
            assert(Actions::spec_parse(action.spec_name()) == Ok::<Actions, UnknownSkillErr>(action));
        },
        Actions::HastyTouchFail => {
            assert(Actions::spec_parse(action.spec_name()) == Ok::<Actions, UnknownSkillErr>(action));
        },
        Actions::FocusedSynthesisFail => {
            assert(Actions::spec_parse(action.spec_name()) == Ok::<Actions, UnknownSkillErr>(action));
        },
        Actions::FocusedTouchFail => {
            assert(Actions::spec_parse(action.spec_name()) == Ok::<Actions, UnknownSkillErr>(action));
        },
        _ => {},
    }
}

/// The name round trip: parsing the canonical name of any action yields
/// that action back.
pub proof fn lemma_name_round_trip(action: Actions)
    ensures
        Actions::spec_parse(action.spec_name()) == Ok::<Actions, UnknownSkillErr>(action),
{
    match action {
        Actions::BasicSynthesis => lemma_name_round_trip_part_0(action),
        Actions::BasicTouch => lemma_name_round_trip_part_0(action),
        Actions::MastersMend => lemma_name_round_trip_part_0(action),
        Actions::HastyTouch => lemma_name_round_trip_part_0(action),
        Actions::RapidSynthesis => lemma_name_round_trip_part_0(action),
        Actions::Observe => lemma_name_round_trip_part_0(action),
        Actions::TricksOfTheTrade => lemma_name_round_trip_part_0(action),
        Actions::WasteNot => lemma_name_round_trip_part_0(action),
        Actions::Veneration => lemma_name_round_trip_part_0(action),
        Actions::StandardTouch => lemma_name_round_trip_part_0(action),
        Actions::GreatStrides => lemma_name_round_trip_part_1(action),
        Actions::Innovation => lemma_name_round_trip_part_1(action),
        Actions::FinalAppraisal => lemma_name_round_trip_part_1(action),
        Actions::WasteNotII => lemma_name_round_trip_part_1(action),
        Actions::ByregotsBlessing => lemma_name_round_trip_part_1(action),
        Actions::PreciseTouch => lemma_name_round_trip_part_1(action),
        Actions::MuscleMemory => lemma_name_round_trip_part_1(action),
        Actions::CarefulSynthesis => lemma_name_round_trip_part_1(action),
        Actions::Manipulation => lemma_name_round_trip_part_1(action),
        Actions::PrudentTouch => lemma_name_round_trip_part_1(action),
        Actions::FocusedSynthesis => lemma_name_round_trip_part_2(action),
        Actions::FocusedTouch => lemma_name_round_trip_part_2(action),
        Actions::Reflect => lemma_name_round_trip_part_2(action),
        Actions::PreparatoryTouch => lemma_name_round_trip_part_2(action),
        Actions::Groundwork => lemma_name_round_trip_part_2(action),
        Actions::DelicateSynthesis => lemma_name_round_trip_part_2(action),
        Actions::IntensiveSynthesis => lemma_name_round_trip_part_2(action),
        Actions::TrainedEye => lemma_name_round_trip_part_2(action),
        Actions::AdvancedTouch => lemma_name_round_trip_part_2(action),
        Actions::PrudentSynthesis => lemma_name_round_trip_part_2(action),
        Actions::TrainedFinesse => lemma_name_round_trip_part_3(action),
        Actions::CarefulObservation => lemma_name_round_trip_part_3(action),
        Actions::HeartAndSoul => lemma_name_round_trip_part_3(action),
        Actions::RapidSynthesisFail => lemma_name_round_trip_part_3(action),
        Actions::HastyTouchFail => lemma_name_round_trip_part_3(action),
        Actions::FocusedSynthesisFail => lemma_name_round_trip_part_3(action),
        Actions::FocusedTouchFail => lemma_name_round_trip_part_3(action),
    }
}

/// The display-name round trip for one group of actions.
#[verifier::rlimit(100)]
proof fn lemma_display_round_trip_part_0(action: Actions)
    requires
        matches!(action, Actions::BasicSynthesis
            | Actions::BasicTouch
            | Actions::MastersMend
            | Actions::HastyTouch
            | Actions::RapidSynthesis
            | Actions::Observe
            | Actions::TricksOfTheTrade
            | Actions::WasteNot
            | Actions::Veneration
            | Actions::StandardTouch),
    ensures
        Actions::spec_parse(action.spec_display_name()) == Ok::<Actions, UnknownSkillErr>(action),
{
    lemma_name_text_facts();
    match action {
        Actions::BasicSynthesis => {
            assert(Actions::spec_parse(action.spec_display_name()) == Ok::<Actions, UnknownSkillErr>(action));
        },
        Actions::BasicTouch => {
            assert(Actions::spec_parse(action.spec_display_name()) == Ok::<Actions, UnknownSkillErr>(action));
        },
        Actions::MastersMend => {
            assert(Actions::spec_parse(action.spec_display_name()) == Ok::<Actions, UnknownSkillErr>(action));
        },
        Actions::HastyTouch => {
            assert(Actions::spec_parse(action.spec_display_name()) == Ok::<Actions, UnknownSkillErr>(action));
        },
        Actions::RapidSynthesis => {
            assert(Actions::spec_parse(action.spec_display_name()) == Ok::<Actions, UnknownSkillErr>(action));
        },
        Actions::Observe => {
            assert(Actions::spec_parse(action.spec_display_name()) == Ok::<Actions, UnknownSkillErr>(action));
        },
        Actions::TricksOfTheTrade => {
            assert(Actions::spec_parse(action.spec_display_name()) == Ok::<Actions, UnknownSkillErr>(action));
        },
        Actions::WasteNot => {
            assert(Actions::spec_parse(action.spec_display_name()) == Ok::<Actions, UnknownSkillErr>(action));
        },
        Actions::Veneration => {
            assert(Actions::spec_parse(action.spec_display_name()) == Ok::<Actions, UnknownSkillErr>(action));
        },
        Actions::StandardTouch => {
            assert(Actions::spec_parse(action.spec_display_name()) == Ok::<Actions, UnknownSkillErr>(action));
        },
        _ => {},
    }
}

/// The display-name round trip for one group of actions.
#[verifier::rlimit(100)]
proof fn lemma_display_round_trip_part_1(action: Actions)
    requires
        matches!(action, Actions::GreatStrides
            | Actions::Innovation
            | Actions::FinalAppraisal
            | Actions::WasteNotII
            | Actions::ByregotsBlessing
            | Actions::PreciseTouch
            | Actions::MuscleMemory
            | Actions::CarefulSynthesis
            | Actions::Manipulation
            | Actions::PrudentTouch),
    ensures
        Actions::spec_parse(action.spec_display_name()) == Ok::<Actions, UnknownSkillErr>(action),
{
    lemma_name_text_facts();
    match action {
        Actions::GreatStrides => {
            assert(Actions::spec_parse(action.spec_display_name()) == Ok::<Actions, UnknownSkillErr>(action));
        },
        Actions::Innovation => {
            assert(Actions::spec_parse(action.spec_display_name()) == Ok::<Actions, UnknownSkillErr>(action));
        },
        Actions::FinalAppraisal => {
            assert(Actions::spec_parse(action.spec_display_name()) == Ok::<Actions, UnknownSkillErr>(action));
        },
        Actions::WasteNotII => {
            assert(Actions::spec_parse(action.spec_display_name()) == Ok::<Actions, UnknownSkillErr>(action));
        },
        Actions::ByregotsBlessing => {
            assert(Actions::spec_parse(action.spec_display_name()) == Ok::<Actions, UnknownSkillErr>(action));
        },
        Actions::PreciseTouch => {
            assert(Actions::spec_parse(action.spec_display_name()) == Ok::<Actions, UnknownSkillErr>(action));
        },
        Actions::MuscleMemory => {
            assert(Actions::spec_parse(action.spec_display_name()) == Ok::<Actions, UnknownSkillErr>(action));
        },
        Actions::CarefulSynthesis => {
            assert(Actions::spec_parse(action.spec_display_name()) == Ok::<Actions, UnknownSkillErr>(action));
        },
        Actions::Manipulation => {
            assert(Actions::spec_parse(action.spec_display_name()) == Ok::<Actions, UnknownSkillErr>(action));
        },
        Actions::PrudentTouch => {
            assert(Actions::spec_parse(action.spec_display_name()) == Ok::<Actions, UnknownSkillErr>(action));
        },
        _ => {},
    }
}

/// The display-name round trip for one group of actions.
#[verifier::rlimit(100)]
proof fn lemma_display_round_trip_part_2(action: Actions)
    requires
        matches!(action, Actions::FocusedSynthesis
            | Actions::FocusedTouch
            | Actions::Reflect
            | Actions::PreparatoryTouch
            | Actions::Groundwork
            | Actions::DelicateSynthesis
            | Actions::IntensiveSynthesis
            | Actions::TrainedEye
            | Actions::AdvancedTouch
            | Actions::PrudentSynthesis),
    ensures
        Actions::spec_parse(action.spec_display_name()) == Ok::<Actions, UnknownSkillErr>(action),
{
    lemma_name_text_facts();
    match action {
        Actions::FocusedSynthesis => {
            assert(Actions::spec_parse(action.spec_display_name()) == Ok::<Actions, UnknownSkillErr>(action));
        },
        Actions::FocusedTouch => {
            assert(Actions::spec_parse(action.spec_display_name()) == Ok::<Actions, UnknownSkillErr>(action));
        },
        Actions::Reflect => {
            assert(Actions::spec_parse(action.spec_display_name()) == Ok::<Actions, UnknownSkillErr>(action));
        },
        Actions::PreparatoryTouch => {
            assert(Actions::spec_parse(action.spec_display_name()) == Ok::<Actions, UnknownSkillErr>(action));
        },
        Actions::Groundwork => {
            assert(Actions::spec_parse(action.spec_display_name()) == Ok::<Actions, UnknownSkillErr>(action));
        },
        Actions::DelicateSynthesis => {
            assert(Actions::spec_parse(action.spec_display_name()) == Ok::<Actions, UnknownSkillErr>(action));
        },
        Actions::IntensiveSynthesis => {
            assert(Actions::spec_parse(action.spec_display_name()) == Ok::<Actions, UnknownSkillErr>(action));
        },
        Actions::TrainedEye => {
            assert(Actions::spec_parse(action.spec_display_name()) == Ok::<Actions, UnknownSkillErr>(action));
        },
        Actions::AdvancedTouch => {
            assert(Actions::spec_parse(action.spec_display_name()) == Ok::<Actions, UnknownSkillErr>(action));
        },
        Actions::PrudentSynthesis => {
            assert(Actions::spec_parse(action.spec_display_name()) == Ok::<Actions, UnknownSkillErr>(action));
        },
        _ => {},
    }
}

/// The display-name round trip for one group of actions.
#[verifier::rlimit(100)]
proof fn lemma_display_round_trip_part_3(action: Actions)
    requires
        matches!(action, Actions::TrainedFinesse
            | Actions::CarefulObservation
            | Actions::HeartAndSoul
            | Actions::RapidSynthesisFail
            | Actions::HastyTouchFail
            | Actions::FocusedSynthesisFail
            | Actions::FocusedTouchFail),
    ensures
        Actions::spec_parse(action.spec_display_name()) == Ok::<Actions, UnknownSkillErr>(action),
{
    lemma_name_text_facts();
    match action {
        Actions::TrainedFinesse => {
            assert(Actions::spec_parse(action.spec_display_name()) == Ok::<Actions, UnknownSkillErr>(action));
        },
        Actions::CarefulObservation => {
            assert(Actions::spec_parse(action.spec_display_name()) == Ok::<Actions, UnknownSkillErr>(action));
        },
        Actions::HeartAndSoul => {
            assert(Actions::spec_parse(action.spec_display_name()) == Ok::<Actions, UnknownSkillErr>(action));
        },
        Actions::RapidSynthesisFail => {
            assert(Actions::spec_parse(action.spec_display_name()) == Ok::<Actions, UnknownSkillErr>(action));
        },
        Actions::HastyTouchFail => {
            assert(Actions::spec_parse(action.spec_display_name()) == Ok::<Actions, UnknownSkillErr>(action));
        },
        Actions::FocusedSynthesisFail => {
            assert(Actions::spec_parse(action.spec_display_name()) == Ok::<Actions, UnknownSkillErr>(action));
        },
        Actions::FocusedTouchFail => {
            assert(Actions::spec_parse(action.spec_display_name()) == Ok::<Actions, UnknownSkillErr>(action));
        },
        _ => {},
    }
}

/// The display-name round trip: parsing the localized display name of any
/// action also yields that action back, so the name-to-action mapping is
/// total over both vocabularies.
pub proof fn lemma_display_name_round_trip(action: Actions)
    ensures
        Actions::spec_parse(action.spec_display_name()) == Ok::<Actions, UnknownSkillErr>(action),
{
    match action {
        Actions::BasicSynthesis => lemma_display_round_trip_part_0(action),
        Actions::BasicTouch => lemma_display_round_trip_part_0(action),
        Actions::MastersMend => lemma_display_round_trip_part_0(action),
        Actions::HastyTouch => lemma_display_round_trip_part_0(action),
        Actions::RapidSynthesis => lemma_display_round_trip_part_0(action),
        Actions::Observe => lemma_display_round_trip_part_0(action),
        Actions::TricksOfTheTrade => lemma_display_round_trip_part_0(action),
        Actions::WasteNot => lemma_display_round_trip_part_0(action),
        Actions::Veneration => lemma_display_round_trip_part_0(action),
        Actions::StandardTouch => lemma_display_round_trip_part_0(action),
        Actions::GreatStrides => lemma_display_round_trip_part_1(action),
        Actions::Innovation => lemma_display_round_trip_part_1(action),
        Actions::FinalAppraisal => lemma_display_round_trip_part_1(action),
        Actions::WasteNotII => lemma_display_round_trip_part_1(action),
        Actions::ByregotsBlessing => lemma_display_round_trip_part_1(action),
        Actions::PreciseTouch => lemma_display_round_trip_part_1(action),
        Actions::MuscleMemory => lemma_display_round_trip_part_1(action),
        Actions::CarefulSynthesis => lemma_display_round_trip_part_1(action),
        Actions::Manipulation => lemma_display_round_trip_part_1(action),
        Actions::PrudentTouch => lemma_display_round_trip_part_1(action),
        Actions::FocusedSynthesis => lemma_display_round_trip_part_2(action),
        Actions::FocusedTouch => lemma_display_round_trip_part_2(action),
        Actions::Reflect => lemma_display_round_trip_part_2(action),
        Actions::PreparatoryTouch => lemma_display_round_trip_part_2(action),
        Actions::Groundwork => lemma_display_round_trip_part_2(action),
        Actions::DelicateSynthesis => lemma_display_round_trip_part_2(action),
        Actions::IntensiveSynthesis => lemma_display_round_trip_part_2(action),
        Actions::TrainedEye => lemma_display_round_trip_part_2(action),
        Actions::AdvancedTouch => lemma_display_round_trip_part_2(action),
        Actions::PrudentSynthesis => lemma_display_round_trip_part_2(action),
        Actions::TrainedFinesse => lemma_display_round_trip_part_3(action),
        Actions::CarefulObservation => lemma_display_round_trip_part_3(action),
        Actions::HeartAndSoul => lemma_display_round_trip_part_3(action),
        Actions::RapidSynthesisFail => lemma_display_round_trip_part_3(action),
        Actions::HastyTouchFail => lemma_display_round_trip_part_3(action),
        Actions::FocusedSynthesisFail => lemma_display_round_trip_part_3(action),
        Actions::FocusedTouchFail => lemma_display_round_trip_part_3(action),
    }
}

/// The first-turn power buff is consumed by a single progress gain: while
/// it is active it contributes its full +100% to the synthesis multiplier,
/// and after any synthesis step the buff is zero, however many turns its
/// duration had left.
pub proof fn lemma_muscle_memory_consumed(s: StatusV, base_durability: int, efficiency_pct: int)
    ensures
        spec_cast_synthesis(s, base_durability, efficiency_pct).buffs.muscle_memory == 0,
        s.buffs.muscle_memory > 0 ==> s.buffs.spec_synth_buff_pct() == 200 + (
        if s.buffs.veneration > 0 {
            50int
        } else {
            0int
        }),
{
}

/// At the level of whole actions: every progress-gaining action leaves the
/// first-turn power buff at zero, whatever its remaining duration was.
#[verifier::rlimit(100)]
pub proof fn lemma_muscle_memory_consumed_by_action(s: StatusV, action: Actions)
    requires
        matches!(action,
            Actions::BasicSynthesis | Actions::RapidSynthesis | Actions::CarefulSynthesis
            | Actions::FocusedSynthesis | Actions::Groundwork | Actions::IntensiveSynthesis
            | Actions::PrudentSynthesis | Actions::DelicateSynthesis),
    ensures
        spec_cast_state(s, action).buffs.muscle_memory == 0,
{
    reveal(spec_apply_effect);
}

} // verus!
