use schedule_bot::command::Command;
use schedule_bot::day::Day;
use schedule_bot::dialogue::{handle_message, Action, DayState, Dialogue, Query, Reply, StartState, Turn};
use schedule_bot::render::day_buttons;
use schedule_bot::week::WeekType;

fn start() -> Dialogue {
    Dialogue::Start(StartState)
}

fn awaiting() -> Dialogue {
    Dialogue::Day(DayState)
}

#[test]
fn day_command_prompts_for_a_day() {
    let t = handle_message(start(), Some("/day"));
    assert_eq!(t, Turn { next: awaiting(), action: Action::Send(Reply::DayPrompt) });
    assert!(!Reply::DayPrompt.text().is_empty());
    let buttons = day_buttons();
    assert_eq!(buttons, vec!["Пн", "Вт", "Ср", "Чт", "Пт", "Сб", "Вс"]);
}

#[test]
fn monday_answer_fetches_monday() {
    let t = handle_message(awaiting(), Some("Пн"));
    assert_eq!(t, Turn { next: awaiting(), action: Action::Fetch(Query::ByDay(Day::Monday)) });
}

#[test]
fn wrong_day_is_corrected_and_state_kept() {
    let t = handle_message(awaiting(), Some("xyz"));
    assert_eq!(t, Turn { next: awaiting(), action: Action::Send(Reply::WrongDay) });
    let again = handle_message(t.next, Some("xyz"));
    assert_eq!(again, t);
    assert_eq!(Reply::WrongDay.text(), "Неверно введен день недели");
}

#[test]
fn same_day_twice_fetches_twice() {
    let first = handle_message(awaiting(), Some("Ср"));
    let second = handle_message(first.next, Some("Ср"));
    assert_eq!(first.action, Action::Fetch(Query::ByDay(Day::Wednesday)));
    assert_eq!(second.action, Action::Fetch(Query::ByDay(Day::Wednesday)));
    assert_eq!(second.next, awaiting());
}

#[test]
fn start_resets_or_lists_commands() {
    assert_eq!(handle_message(awaiting(), Some("/start")), Turn { next: start(), action: Action::Nothing });
    assert_eq!(handle_message(start(), Some("/start")), Turn { next: start(), action: Action::Send(Reply::Help) });
    assert!(awaiting().is_start() == false);
    assert!(start().is_start());
    assert_eq!(Dialogue::default(), start());
}

#[test]
fn other_commands_keep_the_state() {
    assert_eq!(handle_message(awaiting(), Some("/today")), Turn { next: awaiting(), action: Action::Fetch(Query::Today) });
    assert_eq!(handle_message(awaiting(), Some("/current")), Turn { next: awaiting(), action: Action::Fetch(Query::Current) });
    assert_eq!(
        handle_message(start(), Some("/week 2")),
        Turn { next: start(), action: Action::Fetch(Query::Week(WeekType::Second)) }
    );
    assert_eq!(handle_message(start(), Some("/current_week")), Turn { next: start(), action: Action::Fetch(Query::ActiveWeek) });
    assert_eq!(handle_message(awaiting(), Some("/help")), Turn { next: awaiting(), action: Action::Send(Reply::Help) });
    assert_eq!(handle_message(start(), Some("/deadline")), Turn { next: start(), action: Action::Send(Reply::Help) });
}

#[test]
fn bad_week_argument_gets_a_correction() {
    assert_eq!(handle_message(awaiting(), Some("/week 3")), Turn { next: awaiting(), action: Action::Send(Reply::WeekArgument) });
    assert_eq!(Reply::WeekArgument.text(), "Введите 1 или 2 после команды");
}

#[test]
fn free_text_in_start_state_hints_help() {
    assert_eq!(handle_message(start(), Some("hello")), Turn { next: start(), action: Action::Send(Reply::UnknownCommand) });
    assert_eq!(handle_message(start(), Some("/bogus")), Turn { next: start(), action: Action::Send(Reply::UnknownCommand) });
    assert_eq!(handle_message(awaiting(), Some("/bogus")), Turn { next: awaiting(), action: Action::Send(Reply::WrongDay) });
}

#[test]
fn message_without_text_asks_for_text() {
    assert_eq!(handle_message(awaiting(), None), Turn { next: awaiting(), action: Action::Send(Reply::NeedText) });
    assert_eq!(Reply::NeedText.text(), "Отправьте текстовое сообщение");
}

#[test]
fn answer_and_react_directly() {
    assert_eq!(Command::Day.answer(start()), Turn { next: awaiting(), action: Action::Send(Reply::DayPrompt) });
    assert_eq!(awaiting().react("Вс"), Turn { next: awaiting(), action: Action::Fetch(Query::ByDay(Day::Sunday)) });
    assert_eq!(start().react("Вс"), Turn { next: start(), action: Action::Send(Reply::UnknownCommand) });
}

#[test]
fn help_lists_every_command() {
    let help = Reply::Help.text();
    assert!(help.starts_with("Список поддерживаемых комманд:\n"));
    for name in ["/help", "/today", "/day", "/current", "/week", "/deadline", "/current_week"] {
        assert!(help.contains(name));
    }
}
