//! Step sizes of Prometheus range queries.

use crate::text::{decimal, decimal_text};
use vstd::prelude::*;
use vstd::string::StringExecFns;

verus! {

pub const ONE_MINUTE: u32 = 60;

pub const ONE_HOUR: u32 = 3600;

/// The unit of a step size.
#[derive(Clone, Copy, Debug, PartialEq, Eq, Structural)]
pub enum StepUnit {
    Hours,
    Minutes,
    Seconds,
}

impl StepUnit {
    /// The letter that Prometheus writes for the unit.
    pub open spec fn letter(self) -> Seq<char> {
        match self {
            StepUnit::Hours => "h"@,
            StepUnit::Minutes => "m"@,
            StepUnit::Seconds => "s"@,
        }
    }

    /// The number of seconds in one unit.
    pub open spec fn seconds(self) -> nat {
        match self {
            StepUnit::Hours => 3600,
            StepUnit::Minutes => 60,
            StepUnit::Seconds => 1,
        }
    }

    pub fn to_str(self) -> (letter: &'static str)
        ensures
            letter@ == self.letter(),
    {
        match self {
            StepUnit::Hours => "h",
            StepUnit::Minutes => "m",
            StepUnit::Seconds => "s",
        }
    }
}

/// The distance between two points of a series.
#[derive(Clone, Copy, Debug, PartialEq, Eq, Structural)]
pub struct StepSize {
    pub amount: u32,
    pub unit: StepUnit,
}

impl StepSize {
    /// The step as Prometheus writes it: the amount, then the unit's letter.
    pub fn to_string(&self) -> (text: String)
        ensures
            text@ == decimal_text(self.amount as nat) + self.unit.letter(),
    {
        decimal(self.amount as u64).concat(self.unit.to_str())
    }
}

/// The number of seconds in a step, if it fits in 32 bits.
pub fn step_to_seconds(step: StepSize) -> (seconds: Option<u32>)
    ensures
        match seconds {
            Some(s) => s == step.amount * step.unit.seconds(),
            None => step.amount * step.unit.seconds() > u32::MAX,
        },
{
    let unit: u64 = match step.unit {
        StepUnit::Hours => ONE_HOUR as u64,
        StepUnit::Minutes => ONE_MINUTE as u64,
        StepUnit::Seconds => 1,
    };
    assert(step.amount * unit <= u32::MAX * 3600) by (nonlinear_arith)
        requires
            step.amount <= u32::MAX,
            0 <= unit <= 3600,
    ;
    let seconds: u64 = step.amount as u64 * unit;
    if seconds <= u32::MAX as u64 {
        Some(seconds as u32)
    } else {
        None
    }
}

} // verus!
