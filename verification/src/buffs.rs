//! The buff set: independent small counters for every temporary effect a
//! crafter can hold — duration buffs that count down every turn, the
//! inner-quiet stack, one-shot flags and combo-stage markers.

use vstd::prelude::*;

verus! {

/// All buff counters of one crafting state.
///
/// Duration buffs (`muscle_memory`, `great_strides`, `veneration`,
/// `innovation`, `final_appraisal`, `manipulation`, `wast_not`) count down by
/// one every turn and are inactive at zero. `inner_quiet` is a stack that only
/// explicit actions change, clamped to `[0, 10]`. `heart_and_soul` is a
/// one-shot flag; together with `heart_and_soul_used` and
/// `careful_observation_used` it distinguishes unused, active and consumed.
/// `touch_combo_stage` and `observed` are combo markers that enable a
/// follow-up action on the immediately subsequent turn only.
#[derive(Copy, Clone, Debug, PartialEq, Eq, Structural)]
pub struct Buffs {
    /// First-turn power buff: +100% synthesis efficiency, consumed by the
    /// first progress-gaining action.
    pub muscle_memory: u8,
    /// +100% touch efficiency, consumed by the first quality-gaining action.
    pub great_strides: u8,
    /// Sustained power buff: +50% synthesis efficiency.
    pub veneration: u8,
    /// Sustained quality buff: +50% touch efficiency.
    pub innovation: u8,
    /// Quality-multiplier stack, in `[0, 10]`.
    pub inner_quiet: u8,
    /// Final-step buff: progress is held one point below completion once.
    pub final_appraisal: u8,
    /// Passive durability regeneration, +5 per turn.
    pub manipulation: u8,
    /// Frugal buff: durability losses halved; either of two actions sets it.
    pub wast_not: u8,
    /// Free pass for actions that demand a `Good` or `Excellent` condition.
    pub heart_and_soul: u8,
    /// How often the limited observation action has been used (cap 3).
    pub careful_observation_used: u8,
    /// Set once the free-pass buff has been activated (cap 1).
    pub heart_and_soul_used: u8,
    /// Touch combo: 0 none, 1 standard follow-up armed, 2 advanced follow-up
    /// armed (stored one decay step higher while fresh).
    pub touch_combo_stage: u8,
    /// Set by the observation action; arms the focused follow-ups.
    pub observed: u8,
}

impl Buffs {
    /// The all-zero buff set of a freshly created crafting state.
    pub open spec fn spec_default() -> Buffs {
        Buffs {
            muscle_memory: 0,
            great_strides: 0,
            veneration: 0,
            innovation: 0,
            inner_quiet: 0,
            final_appraisal: 0,
            manipulation: 0,
            wast_not: 0,
            heart_and_soul: 0,
            careful_observation_used: 0,
            heart_and_soul_used: 0,
            touch_combo_stage: 0,
            observed: 0,
        }
    }

    /// Bounds that hold of every reachable buff set: the inner-quiet stack
    /// stays in `[0, 10]` and the one-shot flags never leave their ranges.
    pub open spec fn wf(self) -> bool {
        &&& self.inner_quiet <= 10
        &&& self.heart_and_soul <= 1
        &&& self.heart_and_soul_used <= 1
        &&& self.careful_observation_used <= 3
        &&& self.touch_combo_stage <= 4
        &&& self.observed <= 2
    }

    /// Synthesis buff multiplier in hundredths: +100% under the first-turn
    /// power buff, +50% under the sustained power buff.
    pub open spec fn spec_synth_buff_pct(self) -> int {
        100 + (if self.muscle_memory > 0 {
            100int
        } else {
            0int
        }) + (if self.veneration > 0 {
            50int
        } else {
            0int
        })
    }

    /// Touch buff multiplier in hundredths: +100% under the double-effect
    /// buff, +50% under the sustained quality buff.
    pub open spec fn spec_touch_buff_pct(self) -> int {
        100 + (if self.great_strides > 0 {
            100int
        } else {
            0int
        }) + (if self.innovation > 0 {
            50int
        } else {
            0int
        })
    }

    /// Inner-quiet multiplier in tenths: `10 + stack`.
    pub open spec fn spec_iq_tenths(self) -> int {
        10 + self.inner_quiet as int
    }

    /// The scaled synthesis efficiency: the action's own efficiency (in
    /// hundredths) times the synthesis buff multiplier (in hundredths).
    pub fn synthesis(&self, efficiency_pct: u32) -> (r: u64)
        ensures
            r == efficiency_pct * self.spec_synth_buff_pct(),
            r <= u32::MAX * 250,
    {
        let base_pct: u64 = if self.muscle_memory > 0 {
            200
        } else {
            100
        };
        let ven_pct: u64 = if self.veneration > 0 {
            50
        } else {
            0
        };
        proof {
            vstd::arithmetic::mul::lemma_mul_upper_bound(
                efficiency_pct as int,
                u32::MAX as int,
                (base_pct + ven_pct) as int,
                250,
            );
        }
        efficiency_pct as u64 * (base_pct + ven_pct)
    }

    /// Consumes the first-turn power buff after a progress-gaining action.
    pub fn apply_synthesis(&mut self)
        ensures
            *final(self) == (Buffs { muscle_memory: 0, ..*old(self) }),
    {
        if self.muscle_memory > 0 {
            self.muscle_memory = 0;
        }
    }

    /// The scaled touch efficiency: the action's own efficiency (in
    /// hundredths) times the touch buff multiplier (in hundredths) times the
    /// inner-quiet multiplier (in tenths).
    pub fn touch(&self, efficiency_pct: u32) -> (r: u64)
        requires
            self.wf(),
        ensures
            r == efficiency_pct * self.spec_touch_buff_pct() * self.spec_iq_tenths(),
            r <= u32::MAX * 250 * 20,
    {
        let base_pct: u64 = if self.great_strides > 0 {
            200
        } else {
            100
        };
        let innov_pct: u64 = if self.innovation > 0 {
            50
        } else {
            0
        };
        let iq_tenths: u64 = 10 + self.inner_quiet as u64;
        proof {
            vstd::arithmetic::mul::lemma_mul_upper_bound(
                efficiency_pct as int,
                u32::MAX as int,
                (base_pct + innov_pct) as int,
                250,
            );
            vstd::arithmetic::mul::lemma_mul_upper_bound(
                efficiency_pct as int * (base_pct + innov_pct) as int,
                u32::MAX as int * 250,
                iq_tenths as int,
                20,
            );
        }
        efficiency_pct as u64 * (base_pct + innov_pct) * iq_tenths
    }

    /// Consumes the double-effect buff after a quality-gaining action.
    pub fn apply_touch(&mut self)
        ensures
            *final(self) == (Buffs { great_strides: 0, ..*old(self) }),
    {
        if self.great_strides > 0 {
            self.great_strides = 0;
        }
    }

    /// The buff set after one turn of decay.
    pub open spec fn spec_next(self) -> Buffs {
        Buffs {
            muscle_memory: dec(self.muscle_memory, 1),
            great_strides: dec(self.great_strides, 1),
            veneration: dec(self.veneration, 1),
            innovation: dec(self.innovation, 1),
            final_appraisal: dec(self.final_appraisal, 1),
            manipulation: dec(self.manipulation, 1),
            wast_not: dec(self.wast_not, 1),
            touch_combo_stage: dec(self.touch_combo_stage, 2),
            observed: dec(self.observed, 1),
            ..self
        }
    }

    /// Decays every duration buff by one turn, saturating at zero; the touch
    /// combo marker decays by two, the stack and one-shot flags do not decay.
    pub fn next(&mut self)
        ensures
            *final(self) == old(self).spec_next(),
    {
        self.muscle_memory = sat_dec(self.muscle_memory, 1);
        self.great_strides = sat_dec(self.great_strides, 1);
        self.veneration = sat_dec(self.veneration, 1);
        self.innovation = sat_dec(self.innovation, 1);
        self.final_appraisal = sat_dec(self.final_appraisal, 1);
        self.manipulation = sat_dec(self.manipulation, 1);
        self.wast_not = sat_dec(self.wast_not, 1);
        self.touch_combo_stage = sat_dec(self.touch_combo_stage, 2);
        self.observed = sat_dec(self.observed, 1);
    }
}

impl Default for Buffs {
    /// The all-zero buff set.
    fn default() -> (r: Self)
        ensures
            r == Buffs::spec_default(),
    {
        Buffs {
            muscle_memory: 0,
            great_strides: 0,
            veneration: 0,
            innovation: 0,
            inner_quiet: 0,
            final_appraisal: 0,
            manipulation: 0,
            wast_not: 0,
            heart_and_soul: 0,
            careful_observation_used: 0,
            heart_and_soul_used: 0,
            touch_combo_stage: 0,
            observed: 0,
        }
    }
}

/// Saturating decrement, in spec form.
pub open spec fn dec(v: u8, by: int) -> u8 {
    if v >= by {
        (v - by) as u8
    } else {
        0
    }
}

/// Saturating decrement: `v - by`, stopping at zero.
pub fn sat_dec(v: u8, by: u8) -> (r: u8)
    ensures
        r == dec(v, by as int),
{
    if v >= by {
        v - by
    } else {
        0
    }
}

} // verus!
