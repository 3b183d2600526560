//! Days of the week: calendar order, the two-letter tokens users type, and
//! the full names shown in schedules.

use vstd::prelude::*;
use crate::text::is_pair;

verus! {

/// A day of the week; the derived order is calendar order, Monday first.
#[derive(Clone, Copy, Debug, PartialEq, Eq, Structural, PartialOrd, Ord, Hash)]
pub enum Day {
    Monday,
    Tuesday,
    Wednesday,
    Thursday,
    Friday,
    Saturday,
    Sunday,
}

/// A token that names no day.
#[derive(Clone, Copy, Debug, PartialEq, Eq, Structural)]
pub enum DayError {
    UnknownDay,
}

/// Every day, in calendar order.
pub open spec fn all_days() -> Seq<Day> {
    seq![Day::Monday, Day::Tuesday, Day::Wednesday, Day::Thursday, Day::Friday, Day::Saturday, Day::Sunday]
}

/// The day whose token is `s`, if any.
pub open spec fn day_of_token(s: Seq<char>) -> Option<Day> {
    if s == Day::Monday.token() {
        Some(Day::Monday)
    } else if s == Day::Tuesday.token() {
        Some(Day::Tuesday)
    } else if s == Day::Wednesday.token() {
        Some(Day::Wednesday)
    } else if s == Day::Thursday.token() {
        Some(Day::Thursday)
    } else if s == Day::Friday.token() {
        Some(Day::Friday)
    } else if s == Day::Saturday.token() {
        Some(Day::Saturday)
    } else if s == Day::Sunday.token() {
        Some(Day::Sunday)
    } else {
        None
    }
}

/// What parsing `s` as a day gives.
pub open spec fn parse_day(s: Seq<char>) -> Result<Day, DayError> {
    match day_of_token(s) {
        Some(d) => Ok(d),
        None => Err(DayError::UnknownDay),
    }
}

impl Day {
    /// Position in the week, Monday being 0.
    pub open spec fn index(self) -> nat {
        match self {
            Day::Monday => 0,
            Day::Tuesday => 1,
            Day::Wednesday => 2,
            Day::Thursday => 3,
            Day::Friday => 4,
            Day::Saturday => 5,
            Day::Sunday => 6,
        }
    }

    /// The two-letter token that selects this day.
    pub open spec fn token(self) -> Seq<char> {
        match self {
            Day::Monday => seq!['П', 'н'],
            Day::Tuesday => seq!['В', 'т'],
            Day::Wednesday => seq!['С', 'р'],
            Day::Thursday => seq!['Ч', 'т'],
            Day::Friday => seq!['П', 'т'],
            Day::Saturday => seq!['С', 'б'],
            Day::Sunday => seq!['В', 'с'],
        }
    }

    /// The full name under which this day is shown.
    pub open spec fn spec_name(self) -> Seq<char> {
        match self {
            Day::Monday => "Понедельник"@,
            Day::Tuesday => "Вторник"@,
            Day::Wednesday => "Среда"@,
            Day::Thursday => "Четверг"@,
            Day::Friday => "Пятница"@,
            Day::Saturday => "Суббота"@,
            Day::Sunday => "Воскресенье"@,
        }
    }

    /// Position in the week, Monday being 0.
    pub fn position(&self) -> (r: usize)
        ensures
            r == self.index(),
    {
        match self {
            Day::Monday => 0,
            Day::Tuesday => 1,
            Day::Wednesday => 2,
            Day::Thursday => 3,
            Day::Friday => 4,
            Day::Saturday => 5,
            Day::Sunday => 6,
        }
    }

    /// Reads a two-letter day token ("Пн" .. "Вс").
    pub fn from_str(s: &str) -> (r: Result<Day, DayError>)
        ensures
            r == parse_day(s@),
    {
        if is_pair(s, 'П', 'н') {
            Ok(Day::Monday)
        } else if is_pair(s, 'В', 'т') {
            Ok(Day::Tuesday)
        } else if is_pair(s, 'С', 'р') {
            Ok(Day::Wednesday)
        } else if is_pair(s, 'Ч', 'т') {
            Ok(Day::Thursday)
        } else if is_pair(s, 'П', 'т') {
            Ok(Day::Friday)
        } else if is_pair(s, 'С', 'б') {
            Ok(Day::Saturday)
        } else if is_pair(s, 'В', 'с') {
            Ok(Day::Sunday)
        } else {
            Err(DayError::UnknownDay)
        }
    }

    /// The token that selects this day.
    pub fn token_text(&self) -> (r: String)
        ensures
            r@ == self.token(),
    {
        let t = match self {
            Day::Monday => "Пн",
            Day::Tuesday => "Вт",
            Day::Wednesday => "Ср",
            Day::Thursday => "Чт",
            Day::Friday => "Пт",
            Day::Saturday => "Сб",
            Day::Sunday => "Вс",
        };
        proof {
            reveal_strlit("Пн");
            reveal_strlit("Вт");
            reveal_strlit("Ср");
            reveal_strlit("Чт");
            reveal_strlit("Пт");
            reveal_strlit("Сб");
            reveal_strlit("Вс");
        }
        let r = String::from_str(t);
        assert(r@ =~= self.token());
        r
    }

    /// The full name of this day.
    pub fn name(&self) -> (r: String)
        ensures
            r@ == self.spec_name(),
    {
        let t = match self {
            Day::Monday => "Понедельник",
            Day::Tuesday => "Вторник",
            Day::Wednesday => "Среда",
            Day::Thursday => "Четверг",
            Day::Friday => "Пятница",
            Day::Saturday => "Суббота",
            Day::Sunday => "Воскресенье",
        };
        String::from_str(t)
    }
}

/// Each of the seven tokens reads back as its own day, so the seven days
/// are told apart; no other text names a day.
pub proof fn lemma_day_tokens(s: Seq<char>)
    ensures
        forall|d: Day| #[trigger] parse_day(d.token()) == Ok::<Day, DayError>(d),
        (forall|d: Day| s != #[trigger] d.token()) ==> parse_day(s) == Err::<Day, DayError>(DayError::UnknownDay),
        forall|d: Day, e: Day| d.token() == e.token() ==> d == e,
{
    assert forall|d: Day, e: Day| d.token() == e.token() implies d == e by {
        if d != e {
            assert(d.token()[0] != e.token()[0] || d.token()[1] != e.token()[1]);
        }
    }
    assert forall|d: Day| #[trigger] parse_day(d.token()) == Ok::<Day, DayError>(d) by {
        assert(Day::Monday.token()[1] != Day::Friday.token()[1]);
        assert(Day::Tuesday.token()[1] != Day::Sunday.token()[1]);
        assert(Day::Wednesday.token()[1] != Day::Saturday.token()[1]);
        assert(Day::Tuesday.token()[0] != Day::Thursday.token()[0]);
    }
}

} // verus!
