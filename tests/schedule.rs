use schedule_bot::day::Day;
use schedule_bot::lesson::{Lesson, LessonTime, LessonType, Lessons};
use schedule_bot::render::{render, Fetched, RepositoryError};
use schedule_bot::schedule::{group_by_day, LessonDay};
use schedule_bot::week::WeekType;

fn lesson(subject: &str, kind: LessonType, hour: u8, minute: u8, teacher: &str, info: &str) -> Lesson {
    Lesson {
        subject_name: subject.to_string(),
        lesson_type: kind,
        time: LessonTime::new(hour, minute).unwrap(),
        teacher_name: teacher.to_string(),
        info: info.to_string(),
    }
}

fn row(day: Day, subject: &str, hour: u8) -> LessonDay {
    LessonDay {
        day,
        subject_name: subject.to_string(),
        lesson_type: LessonType::Practice,
        time: LessonTime::new(hour, 0).unwrap(),
        teacher_name: "T".to_string(),
        info: "".to_string(),
    }
}

#[test]
fn empty_day_is_day_off() {
    assert_eq!(Lessons(vec![]).text(), "Выходной день");
}

#[test]
fn single_lesson_shows_each_field_in_order() {
    let l = lesson("Math", LessonType::Lecture, 8, 30, "Ivanov", "Room 1");
    assert_eq!(l.text(), "Math (лекція): [08:30] \nВикладач: Ivanov \nRoom 1");
    let text = Lessons(vec![l]).text();
    assert_eq!(text, "\nMath (лекція): [08:30] \nВикладач: Ivanov \nRoom 1\n");
    let positions: Vec<usize> = ["Math", "лекція", "08:30", "Ivanov", "Room 1"]
        .iter()
        .map(|p| {
            assert_eq!(text.matches(p).count(), 1);
            text.find(p).unwrap()
        })
        .collect();
    assert!(positions.windows(2).all(|w| w[0] < w[1]));
}

#[test]
fn lessons_are_separated_by_blank_lines() {
    let a = lesson("A", LessonType::Practice, 9, 5, "X", "i");
    let b = lesson("B", LessonType::LaboratoryWork, 13, 45, "Y", "j");
    assert_eq!(
        Lessons(vec![a, b]).text(),
        "\nA (практика): [09:05] \nВикладач: X \ni\n\nB (лабораторна робота): [13:45] \nВикладач: Y \nj\n"
    );
}

#[test]
fn lesson_time_is_checked_and_padded() {
    assert!(LessonTime::new(24, 0).is_none());
    assert!(LessonTime::new(0, 60).is_none());
    assert_eq!(LessonTime::new(0, 0).unwrap().text(), "00:00");
    assert_eq!(LessonTime::new(23, 59).unwrap().text(), "23:59");
    assert_eq!(LessonType::LaboratoryWork.name(), "лабораторна робота");
}

#[test]
fn monday_rows_group_in_order() {
    let week = group_by_day(vec![row(Day::Monday, "L1", 8), row(Day::Monday, "L2", 10)]);
    let monday = week.lessons(Day::Monday);
    assert_eq!(monday.0.len(), 2);
    assert_eq!(monday.0[0].subject_name, "L1");
    assert_eq!(monday.0[1].subject_name, "L2");
    for d in [Day::Tuesday, Day::Wednesday, Day::Thursday, Day::Friday, Day::Saturday, Day::Sunday] {
        assert!(week.lessons(d).0.is_empty());
    }
    let text = week.text();
    let expected = "Понедельник\n\nL1 (практика): [08:00] \nВикладач: T \n\n\nL2 (практика): [10:00] \nВикладач: T \n\n\n\
Вторник\nВыходной день\nСреда\nВыходной день\nЧетверг\nВыходной день\nПятница\nВыходной день\n\
Суббота\nВыходной день\nВоскресенье\nВыходной день\n";
    assert_eq!(text, expected);
}

#[test]
fn grouping_keeps_row_order_across_days() {
    let week = group_by_day(vec![
        row(Day::Friday, "F1", 8),
        row(Day::Monday, "M1", 9),
        row(Day::Friday, "F2", 7),
    ]);
    let friday = week.lessons(Day::Friday);
    assert_eq!(friday.0[0].subject_name, "F1");
    assert_eq!(friday.0[1].subject_name, "F2");
    assert_eq!(week.lessons(Day::Monday).0[0].subject_name, "M1");
    assert!(week.text().starts_with("Понедельник\n\nM1"));
}

#[test]
fn render_each_outcome() {
    assert_eq!(render(Ok(Fetched::Lessons(Lessons(vec![])))), "Выходной день");
    assert_eq!(render(Ok(Fetched::ActiveWeek(WeekType::First))), "Сейчас первая неделя");
    assert_eq!(render(Err(RepositoryError::Unavailable)), "Не удалось получить расписание, попробуйте позже");
    let week = render(Ok(Fetched::Week(vec![row(Day::Sunday, "S", 12)])));
    assert!(week.ends_with("Воскресенье\n\nS (практика): [12:00] \nВикладач: T \n\n\n"));
}
