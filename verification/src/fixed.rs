//! Fixed-point quantities. Measurements that devices report with a
//! fractional part (percentages, kilowatt-hours, volts, amperes) are held as
//! a whole number of thousandths.

use vstd::prelude::*;

verus! {

/// A quantity in thousandths of its unit: `Milli { thousandths: 10_800 }`
/// stands for 10.8.
#[derive(Clone, Copy, Debug, PartialEq, Eq, Structural)]
pub struct Milli {
    pub thousandths: i64,
}

impl View for Milli {
    type V = int;

    /// The number of thousandths.
    open spec fn view(&self) -> int {
        self.thousandths as int
    }
}

/// `t` thousandths cut to whole units, rounding toward zero.
pub open spec fn whole_units(t: int) -> int {
    if t >= 0 {
        t / 1000
    } else {
        -((-t) / 1000)
    }
}

/// `t` thousandths as the nearest whole number of units, a half rounding
/// away from zero.
pub open spec fn nearest_units(t: int) -> int {
    if t >= 0 {
        (t + 500) / 1000
    } else {
        -((500 - t) / 1000)
    }
}

/// `v` held to the range of `i32`.
pub open spec fn clamp_i32(v: int) -> int {
    if v < i32::MIN {
        i32::MIN as int
    } else if v > i32::MAX {
        i32::MAX as int
    } else {
        v
    }
}

impl Milli {
    /// The quantity of `thousandths` thousandths.
    pub fn from_thousandths(thousandths: i64) -> (m: Milli)
        ensures
            m@ == thousandths,
    {
        Milli { thousandths }
    }

    /// The whole quantity `units`.
    pub fn from_units(units: i32) -> (m: Milli)
        ensures
            m@ == units * 1000,
    {
        Milli { thousandths: (units as i64) * 1000 }
    }

    /// The whole units of the quantity, rounded toward zero.
    pub fn whole(self) -> (w: i64)
        ensures
            w == whole_units(self@),
    {
        if self.thousandths >= 0 {
            self.thousandths / 1000
        } else if self.thousandths == i64::MIN {
            -9_223_372_036_854_775i64
        } else {
            -((-self.thousandths) / 1000)
        }
    }

    /// The whole number of units nearest to the quantity, a half rounding
    /// away from zero.
    pub fn nearest(self) -> (w: i64)
        ensures
            w == nearest_units(self@),
    {
        let wide: i128 = self.thousandths as i128;
        if wide >= 0 {
            ((wide + 500) / 1000) as i64
        } else {
            (-((500 - wide) / 1000)) as i64
        }
    }

    /// The whole units of the quantity, rounded toward zero and held to the
    /// range of `i32`.
    pub fn truncated_i32(self) -> (w: i32)
        ensures
            w == clamp_i32(whole_units(self@)),
    {
        let q: i64 = self.whole();
        if q < -2_147_483_648i64 {
            i32::MIN
        } else if q > 2_147_483_647i64 {
            i32::MAX
        } else {
            q as i32
        }
    }
}

impl Default for Milli {
    /// Zero.
    fn default() -> (m: Milli)
        ensures
            m@ == 0,
    {
        Milli { thousandths: 0 }
    }
}

} // verus!
