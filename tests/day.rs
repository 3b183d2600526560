use schedule_bot::day::{Day, DayError};

#[test]
fn seven_tokens_parse_to_distinct_days() {
    let tokens = ["Пн", "Вт", "Ср", "Чт", "Пт", "Сб", "Вс"];
    let days = [
        Day::Monday,
        Day::Tuesday,
        Day::Wednesday,
        Day::Thursday,
        Day::Friday,
        Day::Saturday,
        Day::Sunday,
    ];
    for i in 0..7 {
        assert_eq!(Day::from_str(tokens[i]), Ok(days[i]));
        assert_eq!(days[i].token_text(), tokens[i]);
        for j in 0..7 {
            if i != j {
                assert_ne!(Day::from_str(tokens[i]), Day::from_str(tokens[j]));
            }
        }
    }
}

#[test]
fn days_show_full_names() {
    assert_eq!(Day::Monday.name(), "Понедельник");
    assert_eq!(Day::Tuesday.name(), "Вторник");
    assert_eq!(Day::Wednesday.name(), "Среда");
    assert_eq!(Day::Thursday.name(), "Четверг");
    assert_eq!(Day::Friday.name(), "Пятница");
    assert_eq!(Day::Saturday.name(), "Суббота");
    assert_eq!(Day::Sunday.name(), "Воскресенье");
}

#[test]
fn other_token_is_unknown_day() {
    assert_eq!(Day::from_str("Xx"), Err(DayError::UnknownDay));
    assert_eq!(Day::from_str("пн"), Err(DayError::UnknownDay));
    assert_eq!(Day::from_str("Пн "), Err(DayError::UnknownDay));
    assert_eq!(Day::from_str(""), Err(DayError::UnknownDay));
}

#[test]
fn days_follow_calendar_order() {
    assert!(Day::Monday < Day::Tuesday);
    assert!(Day::Saturday < Day::Sunday);
    assert_eq!(Day::Monday.position(), 0);
    assert_eq!(Day::Sunday.position(), 6);
}
