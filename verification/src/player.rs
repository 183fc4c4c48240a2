//! The player's standing in the city.
use vstd::prelude::*;
use crate::girls::clamp;

verus! {

/// Player information.
#[derive(Debug)]
pub struct Player {
    pub name: String,
    pub house_perc: i32,
    pub suspicion: i32,
    pub disposition: i32,
    pub influence: i32,
    pub customer_fear: i32,
    pub bribe_rate: i32,
    pub businesses_extort: i32,
}

impl Default for Player {
    fn default() -> (p: Player)
        ensures
            p.name@ == "Nameless"@,
            p.house_perc == 60,
            p.suspicion == 0,
            p.disposition == 0,
            p.influence == 0,
            p.customer_fear == 0,
            p.bribe_rate == 0,
            p.businesses_extort == 0,
    {
        Player {
            name: String::from_str("Nameless"),
            house_perc: 60,
            suspicion: 0,
            disposition: 0,
            influence: 0,
            customer_fear: 0,
            bribe_rate: 0,
            businesses_extort: 0,
        }
    }
}

/// `x / 200` rounded up.
pub open spec fn ceil_div200(x: int) -> int {
    (x + 199) / 200
}

/// A stat adjustment scaled by how far the stat (from -100 to 100) already is
/// toward its top: the stat is shifted to 0..=200 (and kept there), and the
/// amount is multiplied by `(200 - shifted) / 200`, rounded away from zero;
/// a non-zero amount always moves by at least 1 in its own direction. The
/// product is taken exactly, as a fraction, before it is rounded: an exact
/// whole result stays as it is (100 at stat 86 gives 7).
pub open spec fn scale200_spec(value: int, stat: int) -> int {
    let shifted = clamp(stat + 100, 0, 200);
    let x = value * (200 - shifted);
    if x > 0 {
        ceil_div200(x)
    } else if x < 0 {
        x / 200
    } else if value > 0 {
        1
    } else if value < 0 {
        -1
    } else {
        0
    }
}

/// A standing value limited to -100..=100.
pub open spec fn limit100_spec(v: int) -> int {
    clamp(v, -100, 100)
}

/// Whether a scaled adjustment of `amount` can be added to `stat` within `i32`.
pub open spec fn adjustment_fits(stat: i32, amount: i32) -> bool {
    i32::MIN <= stat + scale200_spec(amount as int, stat as int) <= i32::MAX
}

impl Player {
    /// Scale stat adjustments so changes have less effect near extremes
    /// (see `scale200_spec`).
    pub fn scale200(value: i32, stat: i32) -> (r: i32)
        ensures
            r == scale200_spec(value as int, stat as int),
    {
        let shifted: i64 = if (stat as i64) + 100 < 0 {
            0
        } else if (stat as i64) + 100 > 200 {
            200
        } else {
            stat as i64 + 100
        };
        let k: i64 = 200 - shifted;
        assert(-2147483648 * 200 <= value * k <= 2147483647 * 200) by (nonlinear_arith)
            requires
                0 <= k <= 200,
                -2147483648 <= value <= 2147483647,
        ;
        let x: i64 = value as i64 * k;
        if x > 0 {
            assert(ceil_div200(x as int) <= value) by (nonlinear_arith)
                requires
                    x == value * k,
                    0 <= k <= 200,
                    x > 0,
            ;
            ((x + 199) / 200) as i32
        } else if x < 0 {
            assert(x as int / 200 >= value) by (nonlinear_arith)
                requires
                    x == value * k,
                    0 <= k <= 200,
                    x < 0,
            ;
            assert(-((-x + 199) / 200) == x as int / 200);
            (-((-x + 199) / 200)) as i32
        } else if value > 0 {
            1
        } else if value < 0 {
            -1
        } else {
            0
        }
    }

    /// A standing value limited to -100..=100.
    pub fn limit100(val: i32) -> (r: i32)
        ensures
            r == limit100_spec(val as int),
    {
        if val < -100 {
            -100
        } else if val > 100 {
            100
        } else {
            val
        }
    }

    /// Adjust disposition by a scaled amount; it stays within -100..=100.
    pub fn adjust_disposition(&mut self, amount: i32)
        requires
            adjustment_fits(old(self).disposition, amount),
        ensures
            *final(self) == (Player {
                disposition: limit100_spec(
                    old(self).disposition + scale200_spec(amount as int, old(self).disposition as int),
                ) as i32,
                ..*old(self)
            }),
    {
        let delta = Self::scale200(amount, self.disposition);
        self.disposition = Self::limit100(self.disposition + delta);
    }

    /// Adjust suspicion by a scaled amount; it stays within -100..=100.
    pub fn adjust_suspicion(&mut self, amount: i32)
        requires
            adjustment_fits(old(self).suspicion, amount),
        ensures
            *final(self) == (Player {
                suspicion: limit100_spec(
                    old(self).suspicion + scale200_spec(amount as int, old(self).suspicion as int),
                ) as i32,
                ..*old(self)
            }),
    {
        let delta = Self::scale200(amount, self.suspicion);
        self.suspicion = Self::limit100(self.suspicion + delta);
    }

    /// Adjust customer fear by a scaled amount; it stays within -100..=100.
    pub fn adjust_customer_fear(&mut self, amount: i32)
        requires
            adjustment_fits(old(self).customer_fear, amount),
        ensures
            *final(self) == (Player {
                customer_fear: limit100_spec(
                    old(self).customer_fear + scale200_spec(amount as int, old(self).customer_fear as int),
                ) as i32,
                ..*old(self)
            }),
    {
        let delta = Self::scale200(amount, self.customer_fear);
        self.customer_fear = Self::limit100(self.customer_fear + delta);
    }
}

/// A scaled adjustment never moves a stat further than the amount asked for,
/// keeps its direction, and moves it by at least one whenever the amount is
/// not zero.
pub proof fn law_scaled_change_shrinks(value: int, stat: int)
    ensures
        value > 0 ==> 1 <= scale200_spec(value, stat) <= value,
        value < 0 ==> value <= scale200_spec(value, stat) <= -1,
        value == 0 ==> scale200_spec(value, stat) == 0,
{
    let shifted = clamp(stat + 100, 0, 200);
    let k = 200 - shifted;
    if value > 0 && k > 0 {
        assert(value * k > 0 && value * k <= value * 200) by (nonlinear_arith)
            requires
                value > 0,
                0 < k <= 200,
        ;
    } else if value < 0 && k > 0 {
        assert(value * k < 0 && value * k >= value * 200) by (nonlinear_arith)
            requires
                value < 0,
                0 < k <= 200,
        ;
    } else {
        assert(value * k == 0) by (nonlinear_arith)
            requires
                value == 0 || k == 0,
        ;
    }
}

/// The nearer a stat is to its top, the smaller the effect of a rise: for a
/// positive amount the scaled change never grows as the stat grows.
pub proof fn law_rise_shrinks_near_top(value: int, s1: int, s2: int)
    requires
        value > 0,
        s1 <= s2,
    ensures
        scale200_spec(value, s2) <= scale200_spec(value, s1),
{
    let k1 = 200 - clamp(s1 + 100, 0, 200);
    let k2 = 200 - clamp(s2 + 100, 0, 200);
    assert(value * k2 <= value * k1) by (nonlinear_arith)
        requires
            value > 0,
            k2 <= k1,
    ;
    assert(value * k1 >= 0 && value * k2 >= 0) by (nonlinear_arith)
        requires
            value > 0,
            k1 >= 0,
            k2 >= 0,
    ;
}

/// After any adjustment the standing lies within -100..=100.
pub proof fn law_adjusted_standing_in_range(stat: int, amount: int)
    ensures
        -100 <= limit100_spec(stat + scale200_spec(amount, stat)) <= 100,
{
}

} // verus!
