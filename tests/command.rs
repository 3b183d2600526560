use schedule_bot::command::{Command, ParseError};
use schedule_bot::week::{WeekType, WeekError};

#[test]
fn week_one_parses() {
    assert_eq!(Command::parse("/week 1"), Ok(Some(Command::Week(WeekType::First))));
    assert_eq!(Command::parse("/week 2"), Ok(Some(Command::Week(WeekType::Second))));
}

#[test]
fn week_three_is_invalid_argument() {
    assert_eq!(Command::parse("/week 3"), Err(ParseError::InvalidWeekArgument));
    assert_eq!(Command::parse("/week"), Err(ParseError::InvalidWeekArgument));
    assert_eq!(Command::parse("/week 1 2"), Err(ParseError::InvalidWeekArgument));
}

#[test]
fn bogus_is_unrecognized() {
    assert_eq!(Command::parse("/bogus"), Err(ParseError::UnrecognizedCommand));
    assert_eq!(Command::parse("/help me"), Err(ParseError::UnrecognizedCommand));
    assert_eq!(Command::parse("/"), Err(ParseError::UnrecognizedCommand));
}

#[test]
fn plain_text_is_not_a_command() {
    assert_eq!(Command::parse("hello"), Ok(None));
    assert_eq!(Command::parse(""), Ok(None));
    assert_eq!(Command::parse("   "), Ok(None));
    assert_eq!(Command::parse("Пн"), Ok(None));
}

#[test]
fn every_command_name_parses() {
    assert_eq!(Command::parse("/help"), Ok(Some(Command::Help)));
    assert_eq!(Command::parse("/today"), Ok(Some(Command::Today)));
    assert_eq!(Command::parse("/day"), Ok(Some(Command::Day)));
    assert_eq!(Command::parse("/current"), Ok(Some(Command::Current)));
    assert_eq!(Command::parse("/deadline"), Ok(Some(Command::Deadline)));
    assert_eq!(Command::parse("/current_week"), Ok(Some(Command::CurrentWeek)));
    assert_eq!(Command::parse("/start"), Ok(Some(Command::Start)));
}

#[test]
fn commands_ignore_case_and_surrounding_space() {
    assert_eq!(Command::parse("  /HeLp \n"), Ok(Some(Command::Help)));
    assert_eq!(Command::parse("/CURRENT_WEEK"), Ok(Some(Command::CurrentWeek)));
    assert_eq!(Command::parse("\t/Week   2  "), Ok(Some(Command::Week(WeekType::Second))));
}

#[test]
fn parsing_is_deterministic() {
    assert_eq!(Command::parse("/week 1"), Command::parse("/week 1"));
    assert_eq!(Command::parse("/bogus"), Command::parse("/bogus"));
}

#[test]
fn week_type_reads_and_names() {
    assert_eq!(WeekType::from_str("1"), Ok(WeekType::First));
    assert_eq!(WeekType::from_str("2"), Ok(WeekType::Second));
    assert_eq!(WeekType::from_str("3"), Err(WeekError::InvalidWeekArgument));
    assert_eq!(WeekType::First.name(), "первая");
    assert_eq!(WeekType::Second.name(), "вторая");
}
