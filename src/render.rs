//! The text sent back to the user: fixed replies and rendered lookups.

use vstd::prelude::*;
use crate::day::Day;
use crate::dialogue::Reply;
use crate::lesson::{all_wf, day_text, Lessons};
use crate::schedule::{group_by_day, group_rows, lessons_on, week_text, LessonDay, LessonDayView};
use crate::week::WeekType;

verus! {

/// The list of commands.
pub open spec fn help_text() -> Seq<char> {
    "Список поддерживаемых комманд:\n/help - показать это сообщение.\n/today - показать расписание на сегодня.\n/day - показать расписание на выбранный день.\n/current - показать текущую и последующую пары.\n/week - показать расписание на выбранную неделю. (Введите 1 или 2 после команды).\n/deadline - показать список дедлайнов.[WIP]\n/current_week - показать какая неделя по счету.\n"@
}

impl Reply {
    /// The text of this reply.
    pub open spec fn spec_text(self) -> Seq<char> {
        match self {
            Reply::Help => help_text(),
            Reply::DayPrompt => "Выберите день недели"@,
            Reply::UnknownCommand => "Неизвестная комманда, введите /help"@,
            Reply::WrongDay => "Неверно введен день недели"@,
            Reply::NeedText => "Отправьте текстовое сообщение"@,
            Reply::WeekArgument => "Введите 1 или 2 после команды"@,
        }
    }

    /// The text of this reply.
    pub fn text(&self) -> (r: String)
        ensures
            r@ == self.spec_text(),
    {
        match self {
            Reply::Help => String::from_str(
                "Список поддерживаемых комманд:\n/help - показать это сообщение.\n/today - показать расписание на сегодня.\n/day - показать расписание на выбранный день.\n/current - показать текущую и последующую пары.\n/week - показать расписание на выбранную неделю. (Введите 1 или 2 после команды).\n/deadline - показать список дедлайнов.[WIP]\n/current_week - показать какая неделя по счету.\n",
            ),
            Reply::DayPrompt => String::from_str("Выберите день недели"),
            Reply::UnknownCommand => String::from_str("Неизвестная комманда, введите /help"),
            Reply::WrongDay => String::from_str("Неверно введен день недели"),
            Reply::NeedText => String::from_str("Отправьте текстовое сообщение"),
            Reply::WeekArgument => String::from_str("Введите 1 или 2 после команды"),
        }
    }
}

/// The tokens offered as buttons with the day prompt, Monday first.
pub fn day_buttons() -> (r: Vec<String>)
    ensures
        r@.len() == 7,
        forall|i: int| 0 <= i < 7 ==> (#[trigger] r@[i])@ == crate::day::all_days()[i].token(),
{
    let mut r: Vec<String> = Vec::new();
    r.push(Day::Monday.token_text());
    r.push(Day::Tuesday.token_text());
    r.push(Day::Wednesday.token_text());
    r.push(Day::Thursday.token_text());
    r.push(Day::Friday.token_text());
    r.push(Day::Saturday.token_text());
    r.push(Day::Sunday.token_text());
    r
}

/// What a repository lookup gave.
#[derive(Debug)]
pub enum Fetched {
    /// The lessons of one day (a given day, today, or the current ones).
    Lessons(Lessons),
    /// The flat rows of a week.
    Week(Vec<LessonDay>),
    /// The running week.
    ActiveWeek(WeekType),
}

/// A lookup in the schedule repository failed.
#[derive(Clone, Copy, Debug, PartialEq, Eq, Structural)]
pub enum RepositoryError {
    Unavailable,
}

/// The apology sent when a lookup failed.
pub open spec fn failure_text() -> Seq<char> {
    "Не удалось получить расписание, попробуйте позже"@
}

/// How the running week is announced.
pub open spec fn active_week_text(w: WeekType) -> Seq<char> {
    "Сейчас "@ + w.spec_name() + " неделя"@
}

/// Every lesson time in the rows is a real time of day.
pub open spec fn rows_wf(rows: Seq<LessonDayView>) -> bool {
    forall|i: int| 0 <= i < rows.len() ==> (#[trigger] rows[i]).lesson.time.wf()
}

/// Every lesson time that a lookup gave is a real time of day.
pub open spec fn fetched_wf(f: &Fetched) -> bool {
    match f {
        Fetched::Lessons(ls) => all_wf(ls@),
        Fetched::Week(rows) => rows_wf(rows@.map_values(|x: LessonDay| x@)),
        Fetched::ActiveWeek(_) => true,
    }
}

/// The text sent for the outcome of a lookup.
pub open spec fn fetched_text(result: &Result<Fetched, RepositoryError>) -> Seq<char> {
    match result {
        Ok(Fetched::Lessons(ls)) => day_text(ls@),
        Ok(Fetched::Week(rows)) => week_text(group_rows(rows@.map_values(|x: LessonDay| x@))),
        Ok(Fetched::ActiveWeek(w)) => active_week_text(*w),
        Err(_) => failure_text(),
    }
}

/// Lessons grouped from rows with real times have real times.
pub proof fn lemma_lessons_on_wf(rows: Seq<LessonDayView>, d: Day)
    requires
        rows_wf(rows),
    ensures
        all_wf(lessons_on(rows, d)),
    decreases rows.len(),
{
    if rows.len() > 0 {
        let before = rows.drop_last();
        assert forall|i: int| 0 <= i < before.len() implies (#[trigger] before[i]).lesson.time.wf() by {
            assert(before[i] == rows[i]);
        }
        lemma_lessons_on_wf(before, d);
        assert(rows.last() == rows[rows.len() - 1]);
    }
}

/// Renders the outcome of a lookup: a day's lessons, a week grouped by day,
/// the running week, or an apology when the lookup failed.
pub fn render(result: Result<Fetched, RepositoryError>) -> (r: String)
    requires
        match result {
            Ok(f) => fetched_wf(&f),
            Err(_) => true,
        },
    ensures
        r@ == fetched_text(&result),
{
    match result {
        Ok(Fetched::Lessons(ls)) => ls.text(),
        Ok(Fetched::Week(rows)) => {
            let ghost rv = rows@.map_values(|x: LessonDay| x@);
            let week = group_by_day(rows);
            proof {
                assert forall|d: Day| all_wf(#[trigger] week@.index(d)) || !week@.contains_key(d) by {
                    lemma_lessons_on_wf(rv, d);
                }
            }
            week.text()
        },
        Ok(Fetched::ActiveWeek(w)) => {
            let mut r = String::from_str("Сейчас ");
            r.append(w.name().as_str());
            r.append(" неделя");
            r
        },
        Err(_) => String::from_str("Не удалось получить расписание, попробуйте позже"),
    }
}

} // verus!
