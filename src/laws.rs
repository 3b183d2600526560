//! Properties that relate several operations of the library.

use vstd::prelude::*;
use crate::command::{parse_command, Command};
use crate::day::{parse_day, Day, DayError};
use crate::dialogue::{answer_spec, step, Action, DayState, Dialogue, Query, Reply, Turn};
use crate::lesson::{day_off_text, day_text, lesson_text, lessons_body, LessonView};
use crate::schedule::{group_rows, lessons_on, week_day_text, LessonDayView};
use crate::text::{trim, trim_end, trim_start};

verus! {

/// A day token is free text, not a command.
pub proof fn lemma_token_is_free_text(d: Day)
    ensures
        parse_command(d.token()) == Ok::<Option<Command>, crate::command::ParseError>(None),
{
    let t = d.token();
    assert(trim_start(t) == t);
    assert(trim_end(t) == t);
    assert(trim(t) == t);
    assert(t[0] != '/');
}

/// In any state `/day` starts awaiting a day, with a prompt that is not
/// empty.
pub proof fn lemma_day_prompt(d: Dialogue)
    ensures
        answer_spec(Command::Day, d) == (Turn { next: Dialogue::Day(DayState), action: Action::Send(Reply::DayPrompt) }),
        Reply::DayPrompt.spec_text().len() > 0,
{
    reveal_strlit("Выберите день недели");
}

/// While a day is awaited, a message that names a day leads to exactly one
/// lookup, of that day, and the day is still awaited afterwards.
pub proof fn lemma_day_answer(t: Seq<char>, day: Day)
    requires
        parse_day(t) == Ok::<Day, DayError>(day),
    ensures
        step(Dialogue::Day(DayState), Some(t)) == (Turn {
            next: Dialogue::Day(DayState),
            action: Action::Fetch(Query::ByDay(day)),
        }),
{
    crate::day::lemma_day_tokens(t);
    assert(t == day.token());
    lemma_token_is_free_text(day);
}

/// Answering the same day twice makes a lookup each time: the state
/// machine keeps nothing from one message to the next.
pub proof fn lemma_day_answer_repeats(t: Seq<char>, day: Day)
    requires
        parse_day(t) == Ok::<Day, DayError>(day),
    ensures
        step(step(Dialogue::Day(DayState), Some(t)).next, Some(t)) == step(Dialogue::Day(DayState), Some(t)),
        step(Dialogue::Day(DayState), Some(t)).action == Action::Fetch(Query::ByDay(day)),
{
    lemma_day_answer(t, day);
}

/// While a day is awaited, free text that names no day gets a correction and
/// the day is still awaited, however often it comes.
pub proof fn lemma_wrong_day(t: Seq<char>)
    requires
        parse_command(t) == Ok::<Option<Command>, crate::command::ParseError>(None),
        parse_day(t) is Err,
    ensures
        step(Dialogue::Day(DayState), Some(t)) == (Turn {
            next: Dialogue::Day(DayState),
            action: Action::Send(Reply::WrongDay),
        }),
        step(step(Dialogue::Day(DayState), Some(t)).next, Some(t)) == step(Dialogue::Day(DayState), Some(t)),
{
}

/// A day without lessons shows exactly the day-off text; a day with one
/// lesson shows that lesson's subject, kind, time, teacher and information,
/// in that order, between blank lines.
pub proof fn lemma_single_day_text(l: LessonView)
    ensures
        day_text(Seq::empty()) == day_off_text(),
        day_text(seq![l]) == "\n"@ + (l.subject_name + " ("@ + l.lesson_type.spec_name() + "): ["@
            + l.time.spec_text() + "] \n"@ + "Викладач: "@ + l.teacher_name + " \n"@ + l.info) + "\n"@,
{
    let s = seq![l];
    assert(s.drop_last() =~= Seq::<LessonView>::empty());
    assert(lessons_body(Seq::<LessonView>::empty()) == Seq::<char>::empty());
    assert(Seq::<char>::empty() + "\n"@ =~= "\n"@);
    assert(lesson_text(l) == l.subject_name + " ("@ + l.lesson_type.spec_name() + "): ["@
            + l.time.spec_text() + "] \n"@ + "Викладач: "@ + l.teacher_name + " \n"@ + l.info);
}

/// Rows that all fall on one day group under that day alone, with the
/// lessons in row order; every other day of the week is then shown as a
/// day off.
pub proof fn lemma_one_day_rows(rows: Seq<LessonDayView>, d: Day)
    requires
        rows.len() > 0,
        forall|i: int| 0 <= i < rows.len() ==> (#[trigger] rows[i]).day == d,
    ensures
        group_rows(rows).dom() == set![d],
        group_rows(rows)[d] == rows.map_values(|r: LessonDayView| r.lesson),
        forall|e: Day| e != d ==> #[trigger] week_day_text(group_rows(rows), e) == e.spec_name() + "\n"@
            + day_off_text() + "\n"@,
{
    lemma_lessons_on_one_day(rows, d);
    assert(group_rows(rows).dom() =~= set![d]);
}

proof fn lemma_lessons_on_one_day(rows: Seq<LessonDayView>, d: Day)
    requires
        forall|i: int| 0 <= i < rows.len() ==> (#[trigger] rows[i]).day == d,
    ensures
        lessons_on(rows, d) == rows.map_values(|r: LessonDayView| r.lesson),
        forall|e: Day| e != d ==> (#[trigger] lessons_on(rows, e)).len() == 0,
    decreases rows.len(),
{
    if rows.len() > 0 {
        let before = rows.drop_last();
        assert forall|i: int| 0 <= i < before.len() implies (#[trigger] before[i]).day == d by {
            assert(before[i] == rows[i]);
        }
        lemma_lessons_on_one_day(before, d);
        assert(rows.last() == rows[rows.len() - 1]);
        assert(rows.map_values(|r: LessonDayView| r.lesson) =~= before.map_values(|r: LessonDayView| r.lesson).push(
            rows.last().lesson,
        ));
        assert forall|e: Day| e != d implies (#[trigger] lessons_on(rows, e)).len() == 0 by {
            assert(lessons_on(rows, e) == lessons_on(before, e));
        }
    } else {
        assert forall|e: Day| e != d implies (#[trigger] lessons_on(rows, e)).len() == 0 by {
            assert(lessons_on(rows, e) == Seq::<LessonView>::empty());
        }
    }
}

} // verus!
