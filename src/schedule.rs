//! Grouping of a week's flat lesson rows by day, and the week's rendering.

use vstd::prelude::*;
use crate::day::{all_days, Day};
use crate::lesson::{all_wf, day_text, Lesson, LessonType, LessonTime, LessonView, Lessons};

verus! {

/// A lesson row of a week query: the lesson and the day it falls on.
#[derive(Debug)]
pub struct LessonDay {
    pub day: Day,
    pub subject_name: String,
    pub lesson_type: LessonType,
    pub time: LessonTime,
    pub teacher_name: String,
    pub info: String,
}

/// What a row holds, as plain values.
pub struct LessonDayView {
    pub day: Day,
    pub lesson: LessonView,
}

impl View for LessonDay {
    type V = LessonDayView;

    open spec fn view(&self) -> LessonDayView {
        LessonDayView {
            day: self.day,
            lesson: LessonView {
                subject_name: self.subject_name@,
                lesson_type: self.lesson_type,
                time: self.time,
                teacher_name: self.teacher_name@,
                info: self.info@,
            },
        }
    }
}

impl LessonDay {
    /// The lesson of this row, without its day.
    pub fn lesson(&self) -> (r: Lesson)
        ensures
            r@ == self@.lesson,
    {
        Lesson {
            subject_name: self.subject_name.clone(),
            lesson_type: self.lesson_type,
            time: self.time,
            teacher_name: self.teacher_name.clone(),
            info: self.info.clone(),
        }
    }
}

/// The lessons of the rows that fall on `d`, in row order.
pub open spec fn lessons_on(rows: Seq<LessonDayView>, d: Day) -> Seq<LessonView>
    decreases rows.len(),
{
    if rows.len() == 0 {
        Seq::empty()
    } else {
        let before = lessons_on(rows.drop_last(), d);
        if rows.last().day == d {
            before.push(rows.last().lesson)
        } else {
            before
        }
    }
}

/// The rows grouped by day: a day is a key exactly when some row falls on
/// it, and its lessons keep the order of the rows.
pub open spec fn group_rows(rows: Seq<LessonDayView>) -> Map<Day, Seq<LessonView>> {
    Map::new(|d: Day| lessons_on(rows, d).len() > 0, |d: Day| lessons_on(rows, d))
}

/// The lessons a week schedule holds for `d`; none when `d` is no key.
pub open spec fn lessons_of(m: Map<Day, Seq<LessonView>>, d: Day) -> Seq<LessonView> {
    if m.contains_key(d) {
        m[d]
    } else {
        Seq::empty()
    }
}

/// How one day of a week is shown: its name, then its lessons.
pub open spec fn week_day_text(m: Map<Day, Seq<LessonView>>, d: Day) -> Seq<char> {
    d.spec_name() + "\n"@ + day_text(lessons_of(m, d)) + "\n"@
}

/// The days `ds` of a week, shown one after another.
pub open spec fn days_text(m: Map<Day, Seq<LessonView>>, ds: Seq<Day>) -> Seq<char>
    decreases ds.len(),
{
    if ds.len() == 0 {
        Seq::empty()
    } else {
        days_text(m, ds.drop_last()) + week_day_text(m, ds.last())
    }
}

/// How a week is shown: all seven days in calendar order.
pub open spec fn week_text(m: Map<Day, Seq<LessonView>>) -> Seq<char> {
    days_text(m, all_days())
}

/// The lessons of a week, by day.
#[derive(Debug)]
pub struct LessonsWeek {
    days: Vec<Lessons>,
}

/// The day at position `k` of the week.
fn day_at(k: usize) -> (r: Day)
    requires
        k < 7,
    ensures
        r == all_days()[k as int],
        r.index() == k,
{
    if k == 0 {
        Day::Monday
    } else if k == 1 {
        Day::Tuesday
    } else if k == 2 {
        Day::Wednesday
    } else if k == 3 {
        Day::Thursday
    } else if k == 4 {
        Day::Friday
    } else if k == 5 {
        Day::Saturday
    } else {
        Day::Sunday
    }
}

impl LessonsWeek {
    /// One slot for each day of the week.
    pub closed spec fn wf(&self) -> bool {
        self.days@.len() == 7
    }

    /// The lessons held for `d`.
    pub closed spec fn slot(&self, d: Day) -> Seq<LessonView> {
        self.days@[d.index() as int]@
    }

    /// Every lesson of the week has a real time of day.
    pub open spec fn all_times_wf(&self) -> bool {
        forall|d: Day| all_wf(#[trigger] self@.index(d)) || !self@.contains_key(d)
    }

    /// The lessons held for day `d`, empty where the day has none.
    pub fn lessons(&self, d: Day) -> (r: &Lessons)
        requires
            self.wf(),
        ensures
            r@ == lessons_of(self@, d),
    {
        &self.days[d.position()]
    }

    /// The week as text: every day in calendar order, its name and then its
    /// lessons, or the day-off text where it has none.
    pub fn text(&self) -> (r: String)
        requires
            self.wf(),
            self.all_times_wf(),
        ensures
            r@ == week_text(self@),
    {
        let mut r = String::new();
        let mut k: usize = 0;
        while k < 7
            invariant
                self.wf(),
                self.all_times_wf(),
                k <= 7,
                r@ == days_text(self@, all_days().subrange(0, k as int)),
            decreases 7 - k,
        {
            let d = day_at(k);
            let ls = self.lessons(d);
            assert(all_wf(ls@)) by {
                if !self@.contains_key(d) {
                    assert(ls@.len() == 0);
                }
            }
            r.append(d.name().as_str());
            r.append("\n");
            r.append(ls.text().as_str());
            r.append("\n");
            proof {
                let s = all_days().subrange(0, k as int + 1);
                assert(s.drop_last() =~= all_days().subrange(0, k as int));
                assert(s.last() == d);
            }
            k = k + 1;
        }
        assert(all_days().subrange(0, 7) =~= all_days());
        r
    }
}

impl View for LessonsWeek {
    type V = Map<Day, Seq<LessonView>>;

    closed spec fn view(&self) -> Map<Day, Seq<LessonView>> {
        Map::new(|d: Day| self.slot(d).len() > 0, |d: Day| self.slot(d))
    }
}

/// Groups a week's rows by day in one pass: each row's lesson is appended
/// to its day's lessons, so rows keep their order within a day.
pub fn group_by_day(rows: Vec<LessonDay>) -> (r: LessonsWeek)
    ensures
        r.wf(),
        r@ == group_rows(rows@.map_values(|x: LessonDay| x@)),
{
    let ghost rv = rows@.map_values(|x: LessonDay| x@);
    let mut days: Vec<Lessons> = Vec::new();
    let mut k: usize = 0;
    while k < 7
        invariant
            k <= 7,
            days@.len() == k,
            forall|j: int| 0 <= j < k ==> (#[trigger] days@[j])@.len() == 0,
        decreases 7 - k,
    {
        days.push(Lessons(Vec::new()));
        k = k + 1;
    }
    let n = rows.len();
    let mut i: usize = 0;
    while i < n
        invariant
            n == rows@.len(),
            rv == rows@.map_values(|x: LessonDay| x@),
            i <= n,
            days@.len() == 7,
            forall|d: Day| (#[trigger] days@[d.index() as int])@ == lessons_on(rv.subrange(0, i as int), d),
        decreases n - i,
    {
        let row = &rows[i];
        let l = row.lesson();
        let p = row.day.position();
        let ghost before = days@;
        let mut slot = days.remove(p);
        slot.0.push(l);
        days.insert(p, slot);
        proof {
            let s = rv.subrange(0, i as int + 1);
            assert(s.drop_last() =~= rv.subrange(0, i as int));
            assert(s.last() == row@);
            assert forall|d: Day| (#[trigger] days@[d.index() as int])@ == lessons_on(s, d) by {
                if d == row.day {
                    assert(days@[d.index() as int].0@ =~= before[d.index() as int].0@.push(l));
                    assert(days@[d.index() as int]@ =~= before[d.index() as int]@.push(l@));
                } else {
                    assert(d.index() != row.day.index());
                    assert(days@[d.index() as int] == before[d.index() as int]);
                }
            }
        }
        i = i + 1;
    }
    assert(rv.subrange(0, n as int) =~= rv);
    let r = LessonsWeek { days };
    assert(r@ =~= group_rows(rv));
    r
}

} // verus!
