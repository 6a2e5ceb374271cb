//! The condition model: the discrete probability distribution over the
//! condition categories a recipe can roll, in per-mille. The baseline
//! `Normal` category absorbs the probability mass the other categories
//! leave, so the rates of a well-formed mask add up to one thousand.

use vstd::prelude::*;
use crate::condition::Condition;

verus! {

/// Whether the mask admits this condition.
pub open spec fn spec_cond_in_flag(flag: i32, c: Condition) -> bool {
    flag & c.spec_mask() != 0
}

/// Whether the mask admits this condition.
pub fn cond_in_flag(flag: i32, c: Condition) -> (r: bool)
    ensures
        r == spec_cond_in_flag(flag, c),
{
    flag & c.mask() != 0
}

/// The per-mille rate of `Good`: a flat 12% for expert recipes (those whose
/// mask never rolls `Excellent`), otherwise 20% below level 63 and 25% from
/// level 63 on.
pub open spec fn spec_good_rate(flag: i32, level: i32) -> int {
    if flag & 4 == 0 {
        120
    } else if level >= 63 {
        250
    } else {
        200
    }
}

/// The per-mille rate of every category but the baseline: fixed per-category
/// rates, with `Good` level- and mask-dependent and `Poor` only ever reached
/// by the deterministic step after `Excellent`.
pub open spec fn spec_situational_rate(flag: i32, level: i32, c: Condition) -> int {
    match c {
        Condition::Normal => 0,
        Condition::Good => spec_good_rate(flag, level),
        Condition::Excellent => 40,
        Condition::Poor => 0,
        Condition::Centered => 150,
        Condition::Sturdy => 150,
        Condition::Pliant => 120,
        Condition::Malleable => 120,
        Condition::Primed => 120,
        Condition::GoodOmen => 120,
    }
}

/// The total per-mille rate of every non-baseline category the mask admits.
pub open spec fn spec_other_rates_sum(flag: i32, level: i32) -> int {
    (if flag & 2 != 0 {
        spec_good_rate(flag, level)
    } else {
        0int
    }) + (if flag & 4 != 0 {
        40int
    } else {
        0int
    }) + (if flag & 16 != 0 {
        150int
    } else {
        0int
    }) + (if flag & 32 != 0 {
        150int
    } else {
        0int
    }) + (if flag & 64 != 0 {
        120int
    } else {
        0int
    }) + (if flag & 128 != 0 {
        120int
    } else {
        0int
    }) + (if flag & 256 != 0 {
        120int
    } else {
        0int
    }) + (if flag & 512 != 0 {
        120int
    } else {
        0int
    })
}

/// The per-mille rate of a condition in this craft's distribution: the
/// baseline absorbs whatever mass the admitted non-baseline categories
/// leave (and is zero if they already claim everything).
pub open spec fn spec_cond_rate(flag: i32, level: i32, c: Condition) -> int {
    if c == Condition::Normal {
        let others = spec_other_rates_sum(flag, level);
        if others <= 1000 {
            1000 - others
        } else {
            0
        }
    } else {
        spec_situational_rate(flag, level, c)
    }
}

/// The distribution from iteration position `i` on: every admitted
/// condition from that position to the end of the fixed order, with its
/// rate.
pub open spec fn spec_rates_from(flag: i32, level: i32, i: int) -> Seq<(Condition, u16)>
    decreases 10 - i,
{
    if 0 <= i < 10 {
        let c = spec_cond_at(i);
        let rest = spec_rates_from(flag, level, i + 1);
        if spec_cond_in_flag(flag, c) {
            seq![(c, spec_cond_rate(flag, level, c) as u16)] + rest
        } else {
            rest
        }
    } else {
        Seq::empty()
    }
}

/// The condition at a position of the fixed iteration order.
pub open spec fn spec_cond_at(i: int) -> Condition {
    if i == 0 {
        Condition::Normal
    } else if i == 1 {
        Condition::Good
    } else if i == 2 {
        Condition::Excellent
    } else if i == 3 {
        Condition::Poor
    } else if i == 4 {
        Condition::Centered
    } else if i == 5 {
        Condition::Sturdy
    } else if i == 6 {
        Condition::Pliant
    } else if i == 7 {
        Condition::Malleable
    } else if i == 8 {
        Condition::Primed
    } else {
        Condition::GoodOmen
    }
}

/// The whole distribution of a craft: every admitted condition with its
/// per-mille rate, in the fixed order, the baseline first.
pub open spec fn spec_condition_rates(flag: i32, level: i32) -> Seq<(Condition, u16)> {
    spec_rates_from(flag, level, 0)
}

/// Every entry of the distribution is an admitted condition carrying its
/// own rate.
pub proof fn lemma_rates_from_elements(flag: i32, level: i32, i: int)
    ensures
        forall|j: int|
            0 <= j < spec_rates_from(flag, level, i).len() ==> {
                let item = #[trigger] spec_rates_from(flag, level, i)[j];
                spec_cond_in_flag(flag, item.0) && item.1 == spec_cond_rate(flag, level, item.0)
            },
    decreases 10 - i,
{
    if 0 <= i < 10 {
        lemma_rates_from_elements(flag, level, i + 1);
        let c = spec_cond_at(i);
        let rest = spec_rates_from(flag, level, i + 1);
        let whole = spec_rates_from(flag, level, i);
        if spec_cond_in_flag(flag, c) {
            assert forall|j: int| 0 <= j < whole.len() implies {
                let item = #[trigger] whole[j];
                spec_cond_in_flag(flag, item.0) && item.1 == spec_cond_rate(flag, level, item.0)
            } by {
                if j > 0 {
                    assert(whole[j] == rest[j - 1]);
                }
            }
        }
    }
}

/// The per-mille total of a rated condition list.
pub open spec fn spec_rate_total(s: Seq<(Condition, u16)>) -> int
    decreases s.len(),
{
    if s.len() == 0 {
        0
    } else {
        s[0].1 + spec_rate_total(s.skip(1))
    }
}

/// The total situational rate of the admitted categories from position `i`
/// of the fixed order on.
pub open spec fn spec_sum_from(flag: i32, level: i32, i: int) -> int
    decreases 10 - i,
{
    if 1 <= i < 10 {
        (if spec_cond_in_flag(flag, spec_cond_at(i)) {
            spec_situational_rate(flag, level, spec_cond_at(i))
        } else {
            0int
        }) + spec_sum_from(flag, level, i + 1)
    } else {
        0
    }
}

/// The tail of the distribution totals exactly the situational rates of the
/// admitted categories it covers.
proof fn lemma_rate_total_from(flag: i32, level: i32, i: int)
    requires
        1 <= i <= 10,
    ensures
        spec_rate_total(spec_rates_from(flag, level, i)) == spec_sum_from(flag, level, i),
    decreases 10 - i,
{
    if i < 10 {
        lemma_rate_total_from(flag, level, i + 1);
        let c = spec_cond_at(i);
        let rest = spec_rates_from(flag, level, i + 1);
        if spec_cond_in_flag(flag, c) {
            let whole = spec_rates_from(flag, level, i);
            assert(whole.skip(1) =~= rest);
        }
    }
}

/// The flat sum of situational rates equals the recursive one.
proof fn lemma_sum_from_matches(flag: i32, level: i32)
    ensures
        spec_sum_from(flag, level, 1) == spec_other_rates_sum(flag, level),
{
    reveal_with_fuel(spec_sum_from, 11);
}

/// The distribution of a craft whose admitted categories leave room for the
/// baseline is a probability distribution: its per-mille rates add up to
/// exactly one thousand, the baseline absorbing what the others leave.
pub proof fn lemma_distribution_total(flag: i32, level: i32)
    requires
        flag & 1 != 0,
        spec_other_rates_sum(flag, level) <= 1000,
    ensures
        spec_rate_total(spec_condition_rates(flag, level)) == 1000,
{
    lemma_rate_total_from(flag, level, 1);
    lemma_sum_from_matches(flag, level);
    let whole = spec_condition_rates(flag, level);
    let rest = spec_rates_from(flag, level, 1);
    assert(whole.skip(1) =~= rest);
}

/// The distribution holds at most one entry per position of the fixed
/// order.
pub proof fn lemma_rates_from_len(flag: i32, level: i32, i: int)
    requires
        0 <= i <= 10,
    ensures
        spec_rates_from(flag, level, i).len() + i <= 10,
    decreases 10 - i,
{
    if 0 <= i < 10 {
        lemma_rates_from_len(flag, level, i + 1);
    }
}

/// The lazy per-mille distribution over the conditions a recipe admits,
/// walked in a fixed order starting at the baseline. Restartable: build a
/// new one from the same inputs to walk the same rates again.
pub struct ConditionIterator {
    /// The recipe's condition mask.
    pub flag: i32,
    /// The player's level.
    pub level: i32,
    /// The next candidate of the fixed order, `None` once past the end.
    pub step: Option<Condition>,
}

impl ConditionIterator {
    /// The position of the next candidate in the fixed order.
    pub open spec fn spec_pos(self) -> int {
        match self.step {
            None => 10,
            Some(c) => c.bit_index(),
        }
    }

    /// What this iterator has yet to yield.
    pub open spec fn spec_remaining(self) -> Seq<(Condition, u16)> {
        spec_rates_from(self.flag, self.level, self.spec_pos())
    }

    /// A fresh iterator over the distribution of the given condition mask
    /// and player level.
    pub fn new(flag: i32, level: i32) -> (r: Self)
        ensures
            r.flag == flag,
            r.level == level,
            r.spec_remaining() =~= spec_condition_rates(flag, level),
    {
        Self { flag, level, step: Some(Condition::Normal) }
    }

    /// The condition following `cond` in the fixed iteration order.
    pub open spec fn spec_next_cond(cond: Condition) -> Option<Condition> {
        match cond {
            Condition::Normal => Some(Condition::Good),
            Condition::Good => Some(Condition::Excellent),
            Condition::Excellent => Some(Condition::Poor),
            Condition::Poor => Some(Condition::Centered),
            Condition::Centered => Some(Condition::Sturdy),
            Condition::Sturdy => Some(Condition::Pliant),
            Condition::Pliant => Some(Condition::Malleable),
            Condition::Malleable => Some(Condition::Primed),
            Condition::Primed => Some(Condition::GoodOmen),
            Condition::GoodOmen => None,
        }
    }

    /// The condition following `cond` in the fixed iteration order.
    fn next_cond(cond: Condition) -> (r: Option<Condition>)
        ensures
            r == Self::spec_next_cond(cond),
    {
        match cond {
            Condition::Normal => Some(Condition::Good),
            Condition::Good => Some(Condition::Excellent),
            Condition::Excellent => Some(Condition::Poor),
            Condition::Poor => Some(Condition::Centered),
            Condition::Centered => Some(Condition::Sturdy),
            Condition::Sturdy => Some(Condition::Pliant),
            Condition::Pliant => Some(Condition::Malleable),
            Condition::Malleable => Some(Condition::Primed),
            Condition::Primed => Some(Condition::GoodOmen),
            Condition::GoodOmen => None,
        }
    }

    /// The total per-mille rate of every non-baseline category the mask
    /// admits.
    fn other_rates_sum(flag: i32, level: i32) -> (r: u16)
        ensures
            r == spec_other_rates_sum(flag, level),
    {
        let good: u16 = if flag & 4 == 0 {
            120
        } else if level >= 63 {
            250
        } else {
            200
        };
        let mut total: u16 = 0;
        if flag & 2 != 0 {
            total = total + good;
        }
        if flag & 4 != 0 {
            total = total + 40;
        }
        if flag & 16 != 0 {
            total = total + 150;
        }
        if flag & 32 != 0 {
            total = total + 150;
        }
        if flag & 64 != 0 {
            total = total + 120;
        }
        if flag & 128 != 0 {
            total = total + 120;
        }
        if flag & 256 != 0 {
            total = total + 120;
        }
        if flag & 512 != 0 {
            total = total + 120;
        }
        total
    }

    /// The per-mille rate of one condition under this mask and level.
    pub fn cond_rate(flag: i32, level: i32, cond: Condition) -> (r: u16)
        ensures
            r == spec_cond_rate(flag, level, cond),
    {
        match cond {
            Condition::Normal => {
                let others = Self::other_rates_sum(flag, level);
                if others <= 1000 {
                    1000 - others
                } else {
                    0
                }
            },
            Condition::Good => if flag & 4 == 0 {
                120
            } else if level >= 63 {
                250
            } else {
                200
            },
            Condition::Excellent => 40,
            Condition::Poor => 0,
            Condition::Centered => 150,
            Condition::Sturdy => 150,
            Condition::Pliant => 120,
            Condition::Malleable => 120,
            Condition::Primed => 120,
            Condition::GoodOmen => 120,
        }
    }

    /// The next admitted condition with its per-mille rate, or `None` once
    /// the order is exhausted.
    pub fn next(&mut self) -> (r: Option<(Condition, u16)>)
        ensures
            final(self).flag == old(self).flag,
            final(self).level == old(self).level,
            match r {
                None => old(self).spec_remaining().len() == 0 && *final(self) == *old(self),
                Some(item) => old(self).spec_remaining().len() > 0 && item == old(
                    self,
                ).spec_remaining()[0] && final(self).spec_remaining() =~= old(
                    self,
                ).spec_remaining().skip(1),
            },
    {
        let mut cond = match self.step {
            Some(c) => c,
            None => {
                return None;
            },
        };
        while !cond_in_flag(self.flag, cond)
            invariant
                spec_rates_from(self.flag, self.level, cond.bit_index()) =~= old(
                    self,
                ).spec_remaining(),
                *self == *old(self),
                0 <= cond.bit_index() < 10,
            decreases 10 - cond.bit_index(),
        {
            match Self::next_cond(cond) {
                Some(c2) => {
                    cond = c2;
                },
                None => {
                    proof {
                        assert(spec_rates_from(self.flag, self.level, 10)
                            =~= Seq::<(Condition, u16)>::empty());
                    }
                    return None;
                },
            }
        }
        let rate = Self::cond_rate(self.flag, self.level, cond);
        self.step = Self::next_cond(cond);
        proof {
            assert(old(self).spec_remaining() =~= seq![(cond, rate)] + spec_rates_from(
                self.flag,
                self.level,
                cond.bit_index() + 1,
            ));
        }
        Some((cond, rate))
    }
}

/// The whole distribution of a craft as one vector: every admitted
/// condition with its per-mille rate, in the fixed order.
pub fn condition_rates(flag: i32, level: i32) -> (v: Vec<(Condition, u16)>)
    ensures
        v@ =~= spec_condition_rates(flag, level),
{
    let mut it = ConditionIterator::new(flag, level);
    let mut v: Vec<(Condition, u16)> = Vec::new();
    loop
        invariant
            it.flag == flag,
            it.level == level,
            v@ + it.spec_remaining() =~= spec_condition_rates(flag, level),
        ensures
            v@ =~= spec_condition_rates(flag, level),
        decreases it.spec_remaining().len(),
    {
        let ghost previous_rates = v@;
        let ghost previous_remaining = it.spec_remaining();
        match it.next() {
            Some(item) => {
                v.push(item);
                proof {
                    assert((previous_rates + seq![item]) + previous_remaining.skip(1)
                        =~= previous_rates + previous_remaining);
                }
            },
            None => {
                proof {
                    assert(v@ + it.spec_remaining() =~= v@);
                }
                break;
            },
        }
    }
    v
}

} // verus!
