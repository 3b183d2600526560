//! Which of the two alternating curriculum weeks is meant.

use vstd::prelude::*;
use crate::text::is_single;

verus! {

/// One of the two alternating weeks.
#[derive(Clone, Copy, Debug, PartialEq, Eq, Structural, Hash)]
pub enum WeekType {
    First,
    Second,
}

/// A week argument other than "1" or "2".
#[derive(Clone, Copy, Debug, PartialEq, Eq, Structural)]
pub enum WeekError {
    InvalidWeekArgument,
}

/// The week that the text `s` names, if any.
pub open spec fn week_of(s: Seq<char>) -> Option<WeekType> {
    if s == seq!['1'] {
        Some(WeekType::First)
    } else if s == seq!['2'] {
        Some(WeekType::Second)
    } else {
        None
    }
}

impl WeekType {
    /// The localized ordinal under which the week is shown.
    pub open spec fn spec_name(self) -> Seq<char> {
        match self {
            WeekType::First => "первая"@,
            WeekType::Second => "вторая"@,
        }
    }

    /// Reads "1" or "2".
    pub fn from_str(s: &str) -> (r: Result<WeekType, WeekError>)
        ensures
            r == (match week_of(s@) {
                Some(w) => Ok(w),
                None => Err(WeekError::InvalidWeekArgument),
            }),
    {
        if is_single(s, '1') {
            Ok(WeekType::First)
        } else if is_single(s, '2') {
            Ok(WeekType::Second)
        } else {
            Err(WeekError::InvalidWeekArgument)
        }
    }

    /// The localized ordinal of this week.
    pub fn name(&self) -> (r: String)
        ensures
            r@ == self.spec_name(),
    {
        match self {
            WeekType::First => String::from_str("первая"),
            WeekType::Second => String::from_str("вторая"),
        }
    }
}

} // verus!
