//! The one measurement this crate deals in.
use vstd::prelude::*;

verus! {

/// Outcome of one battery query. `Percent` holds the byte exactly as the
/// device sent it: nominally 0 to 100, but larger values are kept as they are.
#[derive(Clone, Copy, Debug, PartialEq, Eq, Structural)]
pub enum BatteryReading {
    Unknown,
    Percent(u8),
}

impl BatteryReading {
    /// The reading as an optional byte.
    pub open spec fn level(self) -> Option<u8> {
        match self {
            BatteryReading::Unknown => None,
            BatteryReading::Percent(n) => Some(n),
        }
    }

    /// The reading as an optional byte: `None` for `Unknown`.
    pub fn as_option(&self) -> (r: Option<u8>)
        ensures
            r == self.level(),
    {
        match self {
            BatteryReading::Unknown => None,
            BatteryReading::Percent(n) => Some(*n),
        }
    }

    /// The reading that an optional byte stands for.
    pub fn from_option(level: Option<u8>) -> (r: BatteryReading)
        ensures
            r.level() == level,
    {
        match level {
            None => BatteryReading::Unknown,
            Some(n) => BatteryReading::Percent(n),
        }
    }
}

} // verus!
