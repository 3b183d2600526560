//! The per-conversation dialogue: its states, and the decision taken on
//! each incoming message.

use vstd::prelude::*;
use crate::command::{parse_command, Command, ParseError};
use crate::day::{parse_day, Day};
use crate::week::WeekType;

verus! {

/// The state in which any text that is no command gets a hint to use /help.
#[derive(Clone, Copy, Debug, PartialEq, Eq, Structural)]
pub struct StartState;

/// The state that awaits a day token after `/day`.
#[derive(Clone, Copy, Debug, PartialEq, Eq, Structural)]
pub struct DayState;

/// What a conversation currently expects from its user.
#[derive(Clone, Copy, Debug, PartialEq, Eq, Structural)]
pub enum Dialogue {
    Start(StartState),
    Day(DayState),
}

impl Dialogue {
    /// The dialogue is in its initial state.
    pub fn is_start(&self) -> (r: bool)
        ensures
            r == (*self is Start),
    {
        match self {
            Dialogue::Start(_) => true,
            _ => false,
        }
    }
}

impl Default for Dialogue {
    fn default() -> (r: Dialogue)
        ensures
            r == Dialogue::Start(StartState),
    {
        Dialogue::Start(StartState)
    }
}

/// A reply whose text is fixed.
#[derive(Clone, Copy, Debug, PartialEq, Eq, Structural)]
pub enum Reply {
    /// The list of commands.
    Help,
    /// The request to pick a day, shown with a button for each day token.
    DayPrompt,
    /// Free text where no answer is awaited.
    UnknownCommand,
    /// Text that names no day where a day is awaited.
    WrongDay,
    /// A message that holds no text.
    NeedText,
    /// `/week` with an argument other than "1" or "2".
    WeekArgument,
}

/// A lookup in the schedule repository.
#[derive(Clone, Copy, Debug, PartialEq, Eq, Structural)]
pub enum Query {
    /// The lessons of a day.
    ByDay(Day),
    /// Today's lessons.
    Today,
    /// The current and the next lesson.
    Current,
    /// The lessons of a week.
    Week(WeekType),
    /// Which week is running.
    ActiveWeek,
}

/// What is to be done in answer to a message.
#[derive(Clone, Copy, Debug, PartialEq, Eq, Structural)]
pub enum Action {
    /// Send a fixed reply.
    Send(Reply),
    /// Make one repository lookup and send what it gives.
    Fetch(Query),
    /// Send nothing.
    Nothing,
}

/// The outcome of one message: the conversation's next state and the action.
#[derive(Clone, Copy, Debug, PartialEq, Eq, Structural)]
pub struct Turn {
    pub next: Dialogue,
    pub action: Action,
}

/// The answer to free text in state `d`.
pub open spec fn react_spec(d: Dialogue, text: Seq<char>) -> Turn {
    match d {
        Dialogue::Start(_) => Turn { next: Dialogue::Start(StartState), action: Action::Send(Reply::UnknownCommand) },
        Dialogue::Day(_) => match parse_day(text) {
            Ok(day) => Turn { next: Dialogue::Day(DayState), action: Action::Fetch(Query::ByDay(day)) },
            Err(_) => Turn { next: Dialogue::Day(DayState), action: Action::Send(Reply::WrongDay) },
        },
    }
}

/// The answer to command `c` in state `d`.
pub open spec fn answer_spec(c: Command, d: Dialogue) -> Turn {
    match c {
        Command::Help => Turn { next: d, action: Action::Send(Reply::Help) },
        Command::Deadline => Turn { next: d, action: Action::Send(Reply::Help) },
        Command::Day => Turn { next: Dialogue::Day(DayState), action: Action::Send(Reply::DayPrompt) },
        Command::Today => Turn { next: d, action: Action::Fetch(Query::Today) },
        Command::Current => Turn { next: d, action: Action::Fetch(Query::Current) },
        Command::Week(w) => Turn { next: d, action: Action::Fetch(Query::Week(w)) },
        Command::CurrentWeek => Turn { next: d, action: Action::Fetch(Query::ActiveWeek) },
        Command::Start => if d is Start {
            Turn { next: d, action: Action::Send(Reply::Help) }
        } else {
            Turn { next: Dialogue::Start(StartState), action: Action::Nothing }
        },
    }
}

/// The answer to a message in state `d`; `None` is a message without text.
pub open spec fn step(d: Dialogue, text: Option<Seq<char>>) -> Turn {
    match text {
        None => Turn { next: d, action: Action::Send(Reply::NeedText) },
        Some(t) => match parse_command(t) {
            Ok(Some(c)) => answer_spec(c, d),
            Ok(None) => react_spec(d, t),
            Err(ParseError::UnrecognizedCommand) => react_spec(d, t),
            Err(ParseError::InvalidWeekArgument) => Turn { next: d, action: Action::Send(Reply::WeekArgument) },
        },
    }
}

impl Dialogue {
    /// Answers free text: in the start state with a hint to use /help; while
    /// a day is awaited, with a lookup of that day, or a correction when the
    /// text names no day. The day is still awaited afterwards.
    pub fn react(self, text: &str) -> (r: Turn)
        ensures
            r == react_spec(self, text@),
    {
        match self {
            Dialogue::Start(_) => Turn { next: Dialogue::Start(StartState), action: Action::Send(Reply::UnknownCommand) },
            Dialogue::Day(_) => match Day::from_str(text) {
                Ok(day) => Turn { next: Dialogue::Day(DayState), action: Action::Fetch(Query::ByDay(day)) },
                Err(_) => Turn { next: Dialogue::Day(DayState), action: Action::Send(Reply::WrongDay) },
            },
        }
    }
}

impl Command {
    /// Answers a command. Only `/day` (which starts awaiting a day) and
    /// `/start` outside the start state (which goes back to it, silently)
    /// change the state; `/start` in the start state lists the commands.
    pub fn answer(&self, dialogue: Dialogue) -> (r: Turn)
        ensures
            r == answer_spec(*self, dialogue),
    {
        match self {
            Command::Help => Turn { next: dialogue, action: Action::Send(Reply::Help) },
            Command::Deadline => Turn { next: dialogue, action: Action::Send(Reply::Help) },
            Command::Day => Turn { next: Dialogue::Day(DayState), action: Action::Send(Reply::DayPrompt) },
            Command::Today => Turn { next: dialogue, action: Action::Fetch(Query::Today) },
            Command::Current => Turn { next: dialogue, action: Action::Fetch(Query::Current) },
            Command::Week(w) => Turn { next: dialogue, action: Action::Fetch(Query::Week(*w)) },
            Command::CurrentWeek => Turn { next: dialogue, action: Action::Fetch(Query::ActiveWeek) },
            Command::Start => if dialogue.is_start() {
                Turn { next: dialogue, action: Action::Send(Reply::Help) }
            } else {
                Turn { next: Dialogue::Start(StartState), action: Action::Nothing }
            },
        }
    }
}

/// Decides the answer to one message in state `dialogue`: a command is
/// answered as such, `/week` with a bad argument gets a correction, and any
/// other text is free text for the current state.
pub fn handle_message(dialogue: Dialogue, text: Option<&str>) -> (r: Turn)
    ensures
        r == step(dialogue, match text {
            Some(t) => Some(t@),
            None => None,
        }),
{
    match text {
        None => Turn { next: dialogue, action: Action::Send(Reply::NeedText) },
        Some(t) => match Command::parse(t) {
            Ok(Some(c)) => c.answer(dialogue),
            Ok(None) => dialogue.react(t),
            Err(ParseError::UnrecognizedCommand) => dialogue.react(t),
            Err(ParseError::InvalidWeekArgument) => Turn { next: dialogue, action: Action::Send(Reply::WeekArgument) },
        },
    }
}

} // verus!
