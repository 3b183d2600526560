//! The slash-command grammar: `/name` in any letter case, then
//! whitespace-separated arguments.

use vstd::prelude::*;
use crate::text::{first_word, is_space, trim, trim_end, trim_start};
use crate::week::{week_of, WeekType};

verus! {

/// A recognized command.
#[derive(Clone, Copy, Debug, PartialEq, Eq, Structural)]
pub enum Command {
    Help,
    Today,
    Day,
    Current,
    Week(WeekType),
    Deadline,
    CurrentWeek,
    Start,
}

/// Why a text that starts with "/" is not a usable command.
#[derive(Clone, Copy, Debug, PartialEq, Eq, Structural)]
pub enum ParseError {
    UnrecognizedCommand,
    InvalidWeekArgument,
}

/// `c` is the letter `lo`, in either case.
pub open spec fn same_letter(c: char, lo: char) -> bool {
    c == lo || (97 <= lo as u32 <= 122 && c as u32 + 32 == lo as u32)
}

/// `word` spells `name` (given in lower case), ignoring letter case.
pub open spec fn names_match(word: Seq<char>, name: Seq<char>) -> bool {
    word.len() == name.len() && forall|i: int| 0 <= i < word.len() ==> same_letter(#[trigger] word[i], name[i])
}

/// The command without arguments that `name` spells, if any.
pub open spec fn plain_command(name: Seq<char>) -> Option<Command> {
    if names_match(name, "help"@) {
        Some(Command::Help)
    } else if names_match(name, "today"@) {
        Some(Command::Today)
    } else if names_match(name, "day"@) {
        Some(Command::Day)
    } else if names_match(name, "current"@) {
        Some(Command::Current)
    } else if names_match(name, "deadline"@) {
        Some(Command::Deadline)
    } else if names_match(name, "current_week"@) {
        Some(Command::CurrentWeek)
    } else if names_match(name, "start"@) {
        Some(Command::Start)
    } else {
        None
    }
}

/// What parsing `text` gives: `Ok(None)` for free text (no leading "/"
/// once trimmed), the command, or why the command is not usable.
pub open spec fn parse_command(text: Seq<char>) -> Result<Option<Command>, ParseError> {
    let t = trim(text);
    if t.len() == 0 || t[0] != '/' {
        Ok(None)
    } else {
        let body = t.drop_first();
        let name = first_word(body);
        let args = trim(body.subrange(name.len() as int, body.len() as int));
        if names_match(name, "week"@) {
            match week_of(args) {
                Some(w) => Ok(Some(Command::Week(w))),
                None => Err(ParseError::InvalidWeekArgument),
            }
        } else {
            match plain_command(name) {
                Some(c) => if args.len() == 0 {
                    Ok(Some(c))
                } else {
                    Err(ParseError::UnrecognizedCommand)
                },
                None => Err(ParseError::UnrecognizedCommand),
            }
        }
    }
}

/// The characters `from .. to` of `s` spell `name`, ignoring letter case.
fn word_is(s: &str, from: usize, to: usize, name: &str) -> (r: bool)
    requires
        from <= to <= s@.len(),
    ensures
        r == names_match(s@.subrange(from as int, to as int), name@),
{
    let ghost w = s@.subrange(from as int, to as int);
    let n = name.unicode_len();
    if to - from != n {
        return false;
    }
    let mut i: usize = 0;
    while i < n
        invariant
            n == name@.len(),
            to - from == n,
            from <= to <= s@.len(),
            w == s@.subrange(from as int, to as int),
            i <= n,
            forall|j: int| 0 <= j < i ==> same_letter(#[trigger] w[j], name@[j]),
        decreases n - i,
    {
        let c = s.get_char(from + i);
        let lo = name.get_char(i);
        let lo_code = lo as u32;
        let same = c == lo || (97 <= lo_code && lo_code <= 122 && (c as u32) + 32 == lo_code);
        if !same {
            assert(!same_letter(w[i as int], name@[i as int]));
            return false;
        }
        i = i + 1;
    }
    true
}

/// Index of the first character at or after `from` that is not whitespace,
/// or `to` when there is none.
fn skip_spaces(s: &str, from: usize, to: usize) -> (r: usize)
    requires
        from <= to <= s@.len(),
    ensures
        from <= r <= to,
        trim_start(s@.subrange(from as int, to as int)) == s@.subrange(r as int, to as int),
        r < to ==> !is_space(s@[r as int]),
{
    let mut i = from;
    while i < to
        invariant
            from <= i <= to <= s@.len(),
            trim_start(s@.subrange(from as int, to as int)) == trim_start(s@.subrange(i as int, to as int)),
        decreases to - i,
    {
        let c = s.get_char(i);
        if !(c == ' ' || c == '\t' || c == '\n' || c == '\r') {
            return i;
        }
        assert(s@.subrange(i as int, to as int).drop_first() =~= s@.subrange(i as int + 1, to as int));
        i = i + 1;
    }
    i
}

/// Index just past the last character before `to` that is not whitespace,
/// or `from` when there is none.
fn skip_spaces_back(s: &str, from: usize, to: usize) -> (r: usize)
    requires
        from <= to <= s@.len(),
    ensures
        from <= r <= to,
        trim_end(s@.subrange(from as int, to as int)) == s@.subrange(from as int, r as int),
        r > from ==> !is_space(s@[r - 1]),
{
    let mut e = to;
    while e > from
        invariant
            from <= e <= to <= s@.len(),
            trim_end(s@.subrange(from as int, to as int)) == trim_end(s@.subrange(from as int, e as int)),
        decreases e - from,
    {
        let c = s.get_char(e - 1);
        if !(c == ' ' || c == '\t' || c == '\n' || c == '\r') {
            return e;
        }
        assert(s@.subrange(from as int, e as int).drop_last() =~= s@.subrange(from as int, e - 1));
        e = e - 1;
    }
    e
}

/// Index of the first whitespace character at or after `from`, or `to`.
fn word_end(s: &str, from: usize, to: usize) -> (r: usize)
    requires
        from <= to <= s@.len(),
    ensures
        from <= r <= to,
        first_word(s@.subrange(from as int, to as int)) == s@.subrange(from as int, r as int),
{
    let mut i = from;
    while i < to
        invariant
            from <= i <= to <= s@.len(),
            first_word(s@.subrange(from as int, to as int)) == s@.subrange(from as int, i as int)
                + first_word(s@.subrange(i as int, to as int)),
        decreases to - i,
    {
        let c = s.get_char(i);
        if c == ' ' || c == '\t' || c == '\n' || c == '\r' {
            assert(s@.subrange(from as int, i as int) + Seq::<char>::empty() =~= s@.subrange(from as int, i as int));
            return i;
        }
        assert(s@.subrange(i as int, to as int).drop_first() =~= s@.subrange(i as int + 1, to as int));
        assert(s@.subrange(from as int, i as int) + seq![c] =~= s@.subrange(from as int, i as int + 1));
        i = i + 1;
    }
    assert(s@.subrange(from as int, i as int) + Seq::<char>::empty() =~= s@.subrange(from as int, i as int));
    i
}

impl Command {
    /// Parses a chat message. Free text gives `Ok(None)`; a "/" word that
    /// names no command, or a command given arguments it does not take,
    /// gives `UnrecognizedCommand`; `/week` takes exactly "1" or "2".
    pub fn parse(text: &str) -> (r: Result<Option<Command>, ParseError>)
        ensures
            r == parse_command(text@),
    {
        let n = text.unicode_len();
        let s = skip_spaces(text, 0, n);
        let e = skip_spaces_back(text, s, n);
        assert(text@.subrange(0, n as int) =~= text@);
        let ghost t = trim(text@);
        assert(t == text@.subrange(s as int, e as int));
        if e == s {
            return Ok(None);
        }
        if text.get_char(s) != '/' {
            return Ok(None);
        }
        let ghost body = t.drop_first();
        assert(body =~= text@.subrange(s + 1, e as int));
        let w = word_end(text, s + 1, e);
        let a = skip_spaces(text, w, e);
        proof {
            assert(body.subrange(w - s - 1, body.len() as int) =~= text@.subrange(w as int, e as int));
            let rest = text@.subrange(a as int, e as int);
            if rest.len() > 0 {
                assert(rest.last() == text@[e - 1]);
                assert(rest.drop_last() =~= text@.subrange(a as int, e - 1));
            }
            assert(trim(body.subrange(w - s - 1, body.len() as int)) == rest);
        }
        if word_is(text, s + 1, w, "week") {
            let arg = text.substring_char(a, e);
            match WeekType::from_str(arg) {
                Ok(week) => Ok(Some(Command::Week(week))),
                Err(_) => Err(ParseError::InvalidWeekArgument),
            }
        } else {
            let c = if word_is(text, s + 1, w, "help") {
                Command::Help
            } else if word_is(text, s + 1, w, "today") {
                Command::Today
            } else if word_is(text, s + 1, w, "day") {
                Command::Day
            } else if word_is(text, s + 1, w, "current") {
                Command::Current
            } else if word_is(text, s + 1, w, "deadline") {
                Command::Deadline
            } else if word_is(text, s + 1, w, "current_week") {
                Command::CurrentWeek
            } else if word_is(text, s + 1, w, "start") {
                Command::Start
            } else {
                return Err(ParseError::UnrecognizedCommand);
            };
            if a < e {
                Err(ParseError::UnrecognizedCommand)
            } else {
                Ok(Some(c))
            }
        }
    }
}

} // verus!
