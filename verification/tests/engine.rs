//! Simulation scenarios over whole crafts: fixed action sequences with the
//! exact progress, quality and durability expected after every step.

use ffxiv_crafting::Actions;
use ffxiv_crafting::Attributes;
use ffxiv_crafting::Condition;
use ffxiv_crafting::Recipe;
use ffxiv_crafting::RecipeLevel;
use ffxiv_crafting::Status;

/// Recipe-level constants of the level-517 table row.
fn rlv_517() -> RecipeLevel {
    RecipeLevel {
        class_job_level: 81,
        stars: 2,
        suggested_craftsmanship: 2440,
        suggested_control: 2540,
        difficulty: 2000,
        quality: 5200,
        progress_divider: 121,
        quality_divider: 105,
        progress_modifier: 100,
        quality_modifier: 100,
        durability: 80,
        conditions_flag: 15,
    }
}

/// Recipe-level constants of the level-535 table row.
fn rlv_535() -> RecipeLevel {
    RecipeLevel {
        class_job_level: 83,
        stars: 0,
        suggested_craftsmanship: 2620,
        suggested_control: 2540,
        difficulty: 3000,
        quality: 6700,
        progress_divider: 125,
        quality_divider: 109,
        progress_modifier: 100,
        quality_modifier: 100,
        durability: 80,
        conditions_flag: 15,
    }
}

/// Recipe-level constants of the level-516 expert table row.
fn rlv_516() -> RecipeLevel {
    RecipeLevel {
        class_job_level: 80,
        stars: 4,
        suggested_craftsmanship: 2480,
        suggested_control: 2195,
        difficulty: 5470,
        quality: 16700,
        progress_divider: 140,
        quality_divider: 130,
        progress_modifier: 100,
        quality_modifier: 100,
        durability: 70,
        conditions_flag: 499,
    }
}

/// Recipe-level constants of the level-590 table row.
fn rlv_590() -> RecipeLevel {
    RecipeLevel {
        class_job_level: 90,
        stars: 2,
        suggested_craftsmanship: 3200,
        suggested_control: 3200,
        difficulty: 3400,
        quality: 7100,
        progress_divider: 130,
        quality_divider: 115,
        progress_modifier: 80,
        quality_modifier: 70,
        durability: 70,
        conditions_flag: 15,
    }
}

/// The in-game action identifiers the longer scenarios are written in.
fn action_of(id: i32) -> Actions {
    match id {
        263 => Actions::GreatStrides,
        4577 => Actions::Manipulation,
        19007 => Actions::Innovation,
        19300 => Actions::Veneration,
        100075 => Actions::BasicSynthesis,
        100077 => Actions::MastersMend,
        100082 => Actions::Observe,
        100131 => Actions::PreciseTouch,
        100230 => Actions::PrudentTouch,
        100238 => Actions::FocusedSynthesis,
        100246 => Actions::FocusedTouch,
        100302 => Actions::PreparatoryTouch,
        100318 => Actions::IntensiveSynthesis,
        100342 => Actions::ByregotsBlessing,
        100358 => Actions::HastyTouch,
        100366 => Actions::RapidSynthesis,
        100374 => Actions::TricksOfTheTrade,
        100390 => Actions::Reflect,
        _ => unreachable!(),
    }
}

fn map_cond(c: u8) -> Condition {
    match c {
        1 => Condition::Normal,
        2 => Condition::Good,
        3 => Condition::Excellent,
        4 => Condition::Poor,
        5 => Condition::Centered,
        6 => Condition::Sturdy,
        7 => Condition::Pliant,
        8 => Condition::Malleable,
        9 => Condition::Primed,
        _ => unreachable!(),
    }
}

#[test]
fn basic_synth() {
    let attr = Attributes {
        level: 80,
        craftsmanship: 2806,
        control: 2784,
        craft_points: 548,
    };
    let recipe = Recipe::new(517, rlv_517(), 50, 100, 50);
    let mut s = Status::new(attr, recipe, rlv_517(), None);

    let result = [279, 558, 837, 1000];
    for &pg in &result {
        s.cast_action(Actions::BasicSynthesis).unwrap();
        assert_eq!(s.progress, pg);
    }
}

#[test]
fn delicate_synth() {
    let attr = Attributes {
        level: 80,
        craftsmanship: 2762,
        control: 2794,
        craft_points: 539,
    };
    let recipe = Recipe::new(517, rlv_517(), 100, 100, 100);
    let mut s = Status::new(attr, recipe, rlv_517(), None);

    struct Step {
        a: Actions,
        pg: u16,
        qu: u32,
        du: u16,
        co: u8,
    }
    for (i, step) in [
        Step { a: Actions::DelicateSynthesis, pg: 230, qu: 301, du: 70, co: 1 },
        Step { a: Actions::DelicateSynthesis, pg: 460, qu: 632, du: 60, co: 1 },
        Step { a: Actions::DelicateSynthesis, pg: 690, qu: 993, du: 50, co: 1 },
        Step { a: Actions::DelicateSynthesis, pg: 920, qu: 1384, du: 40, co: 1 },
        Step { a: Actions::DelicateSynthesis, pg: 1150, qu: 1805, du: 30, co: 1 },
        Step { a: Actions::DelicateSynthesis, pg: 1380, qu: 2256, du: 20, co: 1 },
        Step { a: Actions::DelicateSynthesis, pg: 1610, qu: 2737, du: 10, co: 1 },
        Step { a: Actions::DelicateSynthesis, pg: 1840, qu: 3248, du: 0, co: 1 },
    ]
    .iter()
    .enumerate()
    {
        s.cast_action(step.a).unwrap();
        assert_eq!(
            s.progress, step.pg,
            "step [{}] progress simulation fail: want {}, get {}",
            i, step.pg, s.progress
        );
        assert_eq!(
            s.quality, step.qu,
            "step [{}] quality simulation fail: want {}, get {}",
            i, step.qu, s.quality
        );
        assert_eq!(
            s.durability, step.du,
            "step [{}] durability simulation fail: want {}, get {}",
            i, step.du, s.durability
        );
        s.condition = map_cond(step.co);
    }
}

#[test]
fn phrygian_ear_cuffs_of_healing() {
    let attr = Attributes {
        level: 82,
        craftsmanship: 2786,
        control: 2764,
        craft_points: 533,
    };
    let recipe = Recipe::new(535, rlv_535(), 100, 100, 100);
    let mut s = Status::new(attr, recipe, rlv_535(), None);

    struct Step {
        a: i32,
        pg: u16,
        qu: u32,
        du: u16,
        co: u8,
    }
    for step in [
        Step { a: 100390, pg: 0, qu: 288, du: 70, co: 2 },
        Step { a: 100131, pg: 0, qu: 1065, du: 60, co: 1 },
        Step { a: 4577, pg: 0, qu: 1065, du: 60, co: 1 },
        Step { a: 100230, pg: 0, qu: 1468, du: 60, co: 3 },
        Step { a: 100302, pg: 0, qu: 4924, du: 45, co: 4 },
        Step { a: 100082, pg: 0, qu: 4924, du: 50, co: 1 },
        Step { a: 100246, pg: 0, qu: 5658, du: 45, co: 1 },
        Step { a: 100342, pg: 0, qu: 6700, du: 40, co: 1 },
        Step { a: 19300, pg: 0, qu: 6700, du: 45, co: 1 },
        Step { a: 100075, pg: 403, qu: 6700, du: 40, co: 1 },
        Step { a: 100075, pg: 806, qu: 6700, du: 35, co: 1 },
        Step { a: 100075, pg: 1209, qu: 6700, du: 25, co: 1 },
        Step { a: 100075, pg: 1612, qu: 6700, du: 15, co: 1 },
        Step { a: 100077, pg: 1612, qu: 6700, du: 45, co: 1 },
        Step { a: 19300, pg: 1612, qu: 6700, du: 45, co: 1 },
        Step { a: 100082, pg: 1612, qu: 6700, du: 45, co: 1 },
        Step { a: 100246, pg: 1612, qu: 6700, du: 35, co: 1 },
        Step { a: 100082, pg: 1612, qu: 6700, du: 35, co: 1 },
        Step { a: 100238, pg: 2284, qu: 6700, du: 25, co: 1 },
        Step { a: 100082, pg: 2284, qu: 6700, du: 25, co: 1 },
        Step { a: 100238, pg: 2732, qu: 6700, du: 15, co: 1 },
        Step { a: 100082, pg: 2732, qu: 6700, du: 15, co: 1 },
        Step { a: 100238, pg: 3000, qu: 6700, du: 5, co: 1 },
    ] {
        let skill = action_of(step.a);
        s.cast_action(skill).unwrap();
        assert_eq!(
            s.progress, step.pg,
            "step [{:?}] progress simulation fail: want {}, get {}",
            skill, step.pg, s.progress
        );
        assert_eq!(
            s.quality, step.qu,
            "step [{:?}] quality simulation fail: want {}, get {}",
            skill, step.qu, s.quality
        );
        assert_eq!(
            s.durability, step.du,
            "step [{:?}] durability simulation fail: want {}, get {}",
            skill, step.du, s.durability
        );
        s.condition = map_cond(step.co);
    }
}

#[test]
fn resplendent() {
    let attr = Attributes {
        level: 82,
        craftsmanship: 2786,
        control: 2764,
        craft_points: 533,
    };
    let recipe = Recipe::new(516, rlv_516(), 100, 100, 86);
    let mut s = Status::new(attr, recipe, rlv_516(), None);

    struct Step {
        a: i32,
        pg: u16,
        qu: u32,
        du: u16,
        co: u8,
        su: bool,
    }
    for step in [
        Step { a: 100390, pg: 0, qu: 247, du: 50, co: 9, su: true },
        Step { a: 19300, pg: 0, qu: 247, du: 50, co: 1, su: true },
        Step { a: 100366, pg: 0, qu: 247, du: 40, co: 2, su: false },
        Step { a: 100318, pg: 1206, qu: 247, du: 30, co: 6, su: true },
        Step { a: 100366, pg: 1206, qu: 247, du: 25, co: 7, su: false },
        Step { a: 4577, pg: 1206, qu: 247, du: 25, co: 5, su: true },
        Step { a: 100366, pg: 2713, qu: 247, du: 20, co: 6, su: true },
        Step { a: 100366, pg: 2713, qu: 247, du: 20, co: 2, su: false },
        Step { a: 100131, pg: 2713, qu: 913, du: 15, co: 5, su: true },
        Step { a: 100358, pg: 2713, qu: 913, du: 10, co: 6, su: false },
        Step { a: 100358, pg: 2713, qu: 1258, du: 10, co: 6, su: true },
        Step { a: 100358, pg: 2713, qu: 1628, du: 10, co: 1, su: true },
        Step { a: 100082, pg: 2713, qu: 1628, du: 15, co: 1, su: true },
        Step { a: 100246, pg: 2713, qu: 2220, du: 10, co: 2, su: true },
        Step { a: 100374, pg: 2713, qu: 2220, du: 10, co: 8, su: true },
        Step { a: 100077, pg: 2713, qu: 2220, du: 40, co: 6, su: true },
        Step { a: 100366, pg: 3718, qu: 2220, du: 35, co: 2, su: true },
        Step { a: 100131, pg: 3718, qu: 3164, du: 25, co: 2, su: true },
        Step { a: 100131, pg: 3718, qu: 4219, du: 15, co: 7, su: true },
        Step { a: 100077, pg: 3718, qu: 4219, du: 45, co: 1, su: true },
        Step { a: 100366, pg: 3718, qu: 4219, du: 35, co: 1, su: false },
        Step { a: 100366, pg: 4723, qu: 4219, du: 25, co: 2, su: true },
        Step { a: 100374, pg: 4723, qu: 4219, du: 25, co: 6, su: true },
        Step { a: 100358, pg: 4723, qu: 4219, du: 20, co: 1, su: false },
        Step { a: 19007, pg: 4723, qu: 4219, du: 20, co: 6, su: true },
        Step { a: 100082, pg: 4723, qu: 4219, du: 20, co: 7, su: true },
        Step { a: 100246, pg: 4723, qu: 5330, du: 10, co: 9, su: true },
        Step { a: 100077, pg: 4723, qu: 5330, du: 40, co: 5, su: true },
        Step { a: 100082, pg: 4723, qu: 5330, du: 40, co: 6, su: true },
        Step { a: 100246, pg: 4723, qu: 6071, du: 35, co: 8, su: true },
        Step { a: 100075, pg: 5084, qu: 6071, du: 25, co: 8, su: true },
        Step { a: 100075, pg: 5445, qu: 6071, du: 15, co: 2, su: true },
        Step { a: 100374, pg: 5445, qu: 6071, du: 15, co: 2, su: true },
        Step { a: 100374, pg: 5445, qu: 6071, du: 15, co: 9, su: true },
        Step { a: 263, pg: 5445, qu: 6071, du: 15, co: 9, su: true },
        Step { a: 19007, pg: 5445, qu: 6071, du: 15, co: 5, su: true },
        Step { a: 100082, pg: 5445, qu: 6071, du: 15, co: 1, su: true },
        Step { a: 100246, pg: 5445, qu: 7923, du: 5, co: 8, su: true },
        Step { a: 100077, pg: 5445, qu: 7923, du: 35, co: 1, su: true },
        Step { a: 100082, pg: 5445, qu: 7923, du: 35, co: 1, su: true },
        Step { a: 100082, pg: 5445, qu: 7923, du: 35, co: 1, su: true },
        Step { a: 100075, pg: 5470, qu: 7923, du: 25, co: 1, su: true },
    ] {
        let skill = action_of(step.a);
        if step.su {
            s.cast_action(skill).unwrap();
        } else {
            s.cast_action(match skill {
                Actions::RapidSynthesis => Actions::RapidSynthesisFail,
                Actions::HastyTouch => Actions::HastyTouchFail,
                Actions::FocusedSynthesis => Actions::FocusedSynthesisFail,
                Actions::FocusedTouch => Actions::FocusedTouchFail,
                _ => unreachable!(),
            })
            .unwrap()
        }
        assert_eq!(
            s.progress, step.pg,
            "step [{:?}] progress simulation fail: want {}, get {}",
            skill, step.pg, s.progress
        );
        assert_eq!(
            s.quality, step.qu,
            "step [{:?}] quality simulation fail: want {}, get {}",
            skill, step.qu, s.quality
        );
        assert_eq!(
            s.durability, step.du,
            "step [{:?}] durability simulation fail: want {}, get {}",
            skill, step.du, s.durability
        );
        s.condition = map_cond(step.co);
    }
}

#[test]
fn test1() {
    let recipe = Recipe {
        rlv: 590,
        job_level: 90,
        difficulty: 4300,
        quality: 12800,
        durability: 70,
        conditions_flag: 15,
    };
    let player = Attributes {
        level: 90,
        craftsmanship: 3258,
        control: 3340,
        craft_points: 654,
    };
    let mut s = Status::new(player, recipe, rlv_590(), None);
    let actions = vec![
        Actions::MuscleMemory,
        Actions::Manipulation,
        Actions::Veneration,
        Actions::WasteNot,
        Actions::Groundwork,
        Actions::Groundwork,
        Actions::CarefulSynthesis,
        Actions::BasicTouch,
        Actions::StandardTouch,
        Actions::AdvancedTouch,
        Actions::Innovation,
        Actions::PrudentTouch,
        Actions::PrudentTouch,
    ];
    for &sk in &actions {
        s.cast_action(sk).unwrap();
    }
    assert_eq!(s.quality, 1865);
}
