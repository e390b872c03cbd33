//! Fixed-point quantities.

use vstd::prelude::*;

verus! {

/// A utilisation in thousandths of a percent:
/// `Percent::from_thousandths(12_500)` is 12.5 %.
#[derive(Clone, Copy, Debug, PartialEq, Eq, Structural)]
pub struct Percent {
    thousandths: u32,
}

impl View for Percent {
    type V = int;

    /// The number of thousandths of a percent.
    closed spec fn view(&self) -> int {
        self.thousandths as int
    }
}

impl DeepView for Percent {
    type V = int;

    open spec fn deep_view(&self) -> int {
        self@
    }
}

impl Percent {
    /// The utilisation of `thousandths` thousandths of a percent.
    pub fn from_thousandths(thousandths: u32) -> (p: Percent)
        ensures
            p@ == thousandths,
    {
        Percent { thousandths }
    }

    /// The utilisation as a number of thousandths of a percent.
    pub fn thousandths(&self) -> (t: u32)
        ensures
            t == self@,
    {
        self.thousandths
    }
}

/// A temperature in thousandths of a degree Celsius:
/// `Celsius::from_thousandths(45_200)` is 45.2 °C.
#[derive(Clone, Copy, Debug, PartialEq, Eq, Structural)]
pub struct Celsius {
    thousandths: i32,
}

impl View for Celsius {
    type V = int;

    /// The number of thousandths of a degree.
    closed spec fn view(&self) -> int {
        self.thousandths as int
    }
}

impl DeepView for Celsius {
    type V = int;

    open spec fn deep_view(&self) -> int {
        self@
    }
}

impl Celsius {
    /// The temperature of `thousandths` thousandths of a degree.
    pub fn from_thousandths(thousandths: i32) -> (t: Celsius)
        ensures
            t@ == thousandths,
    {
        Celsius { thousandths }
    }

    /// The temperature as a number of thousandths of a degree.
    pub fn thousandths(&self) -> (t: i32)
        ensures
            t == self@,
    {
        self.thousandths
    }

    /// Whether the temperature is strictly above zero.
    pub fn is_positive(&self) -> (b: bool)
        ensures
            b == (self@ > 0),
    {
        self.thousandths > 0
    }
}

} // verus!
