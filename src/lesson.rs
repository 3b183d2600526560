//! Lessons as the repository returns them, and their rendering as text.

use vstd::prelude::*;

verus! {

/// The kind of a lesson.
#[derive(Clone, Copy, Debug, PartialEq, Eq, Structural, Hash)]
pub enum LessonType {
    Lecture,
    Practice,
    LaboratoryWork,
}

impl LessonType {
    /// The localized name under which the kind is shown.
    pub open spec fn spec_name(self) -> Seq<char> {
        match self {
            LessonType::Lecture => "лекція"@,
            LessonType::Practice => "практика"@,
            LessonType::LaboratoryWork => "лабораторна робота"@,
        }
    }

    /// The localized name of this kind of lesson.
    pub fn name(&self) -> (r: String)
        ensures
            r@ == self.spec_name(),
    {
        match self {
            LessonType::Lecture => String::from_str("лекція"),
            LessonType::Practice => String::from_str("практика"),
            LessonType::LaboratoryWork => String::from_str("лабораторна робота"),
        }
    }
}

/// A time of day, to the minute.
#[derive(Clone, Copy, Debug, PartialEq, Eq, Structural, Hash)]
pub struct LessonTime {
    pub hour: u8,
    pub minute: u8,
}

/// The decimal digit `d` (taken modulo ten) as text.
pub open spec fn digit_text(d: nat) -> Seq<char> {
    seq!['0', '1', '2', '3', '4', '5', '6', '7', '8', '9'].subrange((d % 10) as int, (d % 10) as int + 1)
}

/// `n` (below one hundred) as two decimal digits.
pub open spec fn two_digits(n: nat) -> Seq<char> {
    digit_text(n / 10) + digit_text(n % 10)
}

impl LessonTime {
    /// A real time of day: hour below 24, minute below 60.
    pub open spec fn wf(self) -> bool {
        self.hour < 24 && self.minute < 60
    }

    /// The time as "HH:MM".
    pub open spec fn spec_text(self) -> Seq<char> {
        two_digits(self.hour as nat) + seq![':'] + two_digits(self.minute as nat)
    }

    /// The time `hour:minute`, if it is a real time of day.
    pub fn new(hour: u8, minute: u8) -> (r: Option<LessonTime>)
        ensures
            r == (if hour < 24 && minute < 60 {
                Some(LessonTime { hour, minute })
            } else {
                None
            }),
    {
        if hour < 24 && minute < 60 {
            Some(LessonTime { hour, minute })
        } else {
            None
        }
    }

    /// The time as "HH:MM", hours and minutes padded with a zero.
    pub fn text(&self) -> (r: String)
        requires
            self.wf(),
        ensures
            r@ == self.spec_text(),
    {
        let mut r = digit(self.hour / 10);
        r.append(digit(self.hour % 10).as_str());
        r.append(":");
        r.append(digit(self.minute / 10).as_str());
        r.append(digit(self.minute % 10).as_str());
        proof {
            reveal_strlit(":");
        }
        assert(r@ =~= self.spec_text());
        r
    }
}

/// The decimal digit `d` as text.
fn digit(d: u8) -> (r: String)
    requires
        d < 10,
    ensures
        r@ == digit_text(d as nat),
{
    let t = if d == 0 {
        "0"
    } else if d == 1 {
        "1"
    } else if d == 2 {
        "2"
    } else if d == 3 {
        "3"
    } else if d == 4 {
        "4"
    } else if d == 5 {
        "5"
    } else if d == 6 {
        "6"
    } else if d == 7 {
        "7"
    } else if d == 8 {
        "8"
    } else {
        "9"
    };
    proof {
        reveal_strlit("0");
        reveal_strlit("1");
        reveal_strlit("2");
        reveal_strlit("3");
        reveal_strlit("4");
        reveal_strlit("5");
        reveal_strlit("6");
        reveal_strlit("7");
        reveal_strlit("8");
        reveal_strlit("9");
    }
    let r = String::from_str(t);
    assert(r@ =~= digit_text(d as nat));
    r
}

/// One lesson of a schedule.
#[derive(Debug)]
pub struct Lesson {
    pub subject_name: String,
    pub lesson_type: LessonType,
    pub time: LessonTime,
    pub teacher_name: String,
    pub info: String,
}

/// What a lesson holds, as plain values.
pub struct LessonView {
    pub subject_name: Seq<char>,
    pub lesson_type: LessonType,
    pub time: LessonTime,
    pub teacher_name: Seq<char>,
    pub info: Seq<char>,
}

impl View for Lesson {
    type V = LessonView;

    open spec fn view(&self) -> LessonView {
        LessonView {
            subject_name: self.subject_name@,
            lesson_type: self.lesson_type,
            time: self.time,
            teacher_name: self.teacher_name@,
            info: self.info@,
        }
    }
}

/// The label that introduces the teacher's name.
pub open spec fn teacher_label() -> Seq<char> {
    "Викладач: "@
}

/// How one lesson is shown:
/// `<subject> (<type>): [<HH:MM>] \n<label><teacher> \n<info>`.
pub open spec fn lesson_text(l: LessonView) -> Seq<char> {
    l.subject_name + " ("@ + l.lesson_type.spec_name() + "): ["@ + l.time.spec_text() + "] \n"@
        + teacher_label() + l.teacher_name + " \n"@ + l.info
}

/// The lessons of `s`, each on its own line between blank lines.
pub open spec fn lessons_body(s: Seq<LessonView>) -> Seq<char>
    decreases s.len(),
{
    if s.len() == 0 {
        Seq::empty()
    } else {
        lessons_body(s.drop_last()) + "\n"@ + lesson_text(s.last()) + "\n"@
    }
}

/// The text shown for a day that has no lessons.
pub open spec fn day_off_text() -> Seq<char> {
    "Выходной день"@
}

/// How a day's lessons are shown: the day-off text when there are none.
pub open spec fn day_text(s: Seq<LessonView>) -> Seq<char> {
    if s.len() == 0 {
        day_off_text()
    } else {
        lessons_body(s)
    }
}

/// Every lesson of `s` has a real time of day.
pub open spec fn all_wf(s: Seq<LessonView>) -> bool {
    forall|i: int| 0 <= i < s.len() ==> (#[trigger] s[i]).time.wf()
}

impl Lesson {
    /// This lesson with every field copied.
    pub fn copy(&self) -> (r: Lesson)
        ensures
            r@ == self@,
    {
        Lesson {
            subject_name: self.subject_name.clone(),
            lesson_type: self.lesson_type,
            time: self.time,
            teacher_name: self.teacher_name.clone(),
            info: self.info.clone(),
        }
    }

    /// This lesson as shown in a schedule.
    pub fn text(&self) -> (r: String)
        requires
            self.time.wf(),
        ensures
            r@ == lesson_text(self@),
    {
        let mut r = self.subject_name.clone();
        r.append(" (");
        r.append(self.lesson_type.name().as_str());
        r.append("): [");
        r.append(self.time.text().as_str());
        r.append("] \n");
        r.append("Викладач: ");
        r.append(self.teacher_name.as_str());
        r.append(" \n");
        r.append(self.info.as_str());
        r
    }
}

/// The lessons of one day, in the order the repository returned them.
#[derive(Debug)]
pub struct Lessons(pub Vec<Lesson>);

impl View for Lessons {
    type V = Seq<LessonView>;

    open spec fn view(&self) -> Seq<LessonView> {
        self.0@.map_values(|l: Lesson| l@)
    }
}

impl Lessons {
    /// The day's schedule as text: the day-off text when it is empty, else
    /// each lesson in order, between blank lines.
    pub fn text(&self) -> (r: String)
        requires
            all_wf(self@),
        ensures
            r@ == day_text(self@),
    {
        let n = self.0.len();
        if n == 0 {
            return String::from_str("Выходной день");
        }
        let mut r = String::new();
        let mut i: usize = 0;
        while i < n
            invariant
                n == self.0@.len(),
                0 <= i <= n,
                all_wf(self@),
                r@ == lessons_body(self@.subrange(0, i as int)),
            decreases n - i,
        {
            let l = &self.0[i];
            assert(self@[i as int] == l@);
            let t = l.text();
            r.append("\n");
            r.append(t.as_str());
            r.append("\n");
            proof {
                let s = self@.subrange(0, i as int + 1);
                assert(s.drop_last() =~= self@.subrange(0, i as int));
                assert(s.last() == l@);
            }
            i = i + 1;
        }
        assert(self@.subrange(0, n as int) =~= self@);
        r
    }
}

} // verus!
