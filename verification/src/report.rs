//! Progress lines.
//!
//! A line of progress output has a level and a message. The level decides
//! the coloured label in front of the message and the stream the line goes
//! to; whether the line ends in a line break is said with each line, so that
//! an outcome can be printed behind the announcement it belongs to.

use vstd::prelude::*;
use crate::text::{append_chars, chars_of, string_of};

verus! {

/// How much weight a line of output carries.
#[derive(Clone, Copy, Debug, PartialEq, Eq, Structural)]
pub enum Level {
    Info,
    Task,
    Done,
    Warn,
    Error,
}

/// One line of progress output, not yet formatted.
#[derive(Debug)]
pub struct Notice {
    pub level: Level,
    pub message: String,
    /// Whether the line ends here, or the next notice goes on behind it.
    pub newline: bool,
}

/// A line of progress output as plain values.
pub struct NoticeModel {
    pub level: Level,
    pub message: Seq<char>,
    pub newline: bool,
}

impl View for Notice {
    type V = NoticeModel;

    open spec fn view(&self) -> NoticeModel {
        NoticeModel { level: self.level, message: self.message@, newline: self.newline }
    }
}

/// The lines of a list, each as plain values.
pub open spec fn notices_of(notices: Seq<Notice>) -> Seq<NoticeModel> {
    notices.map_values(|notice: Notice| notice@)
}

impl Notice {
    /// The line as it is printed.
    pub fn render(&self) -> (line: String)
        ensures
            line@ == formatted(self.level, self.message@, self.newline),
    {
        format(self.level, self.message.as_str(), self.newline)
    }
}

/// The word that names a level in a line of output.
pub open spec fn level_label(level: Level) -> Seq<char> {
    match level {
        Level::Info => seq!['I', 'N', 'F', 'O'],
        Level::Task => seq!['T', 'A', 'S', 'K'],
        Level::Done => seq!['D', 'O', 'N', 'E'],
        Level::Warn => seq!['W', 'A', 'R', 'N'],
        Level::Error => seq!['E', 'R', 'R', 'O', 'R'],
    }
}

/// The digit that selects a level's colour on a terminal: blue for plain
/// progress, green for success, yellow for warnings, red for errors.
pub open spec fn level_color_digit(level: Level) -> char {
    match level {
        Level::Info => '4',
        Level::Task => '4',
        Level::Done => '2',
        Level::Warn => '3',
        Level::Error => '1',
    }
}

/// The escape sequence that switches a terminal to a level's colour.
pub open spec fn color_on(level: Level) -> Seq<char> {
    seq!['\u{1b}', '[', '3', level_color_digit(level), 'm']
}

/// The escape sequence that switches a terminal back to its own colour.
pub open spec fn color_off() -> Seq<char> {
    seq!['\u{1b}', '[', '0', 'm']
}

/// The end of a line.
pub open spec fn line_end(newline: bool) -> Seq<char> {
    if newline {
        seq!['\n']
    } else {
        Seq::<char>::empty()
    }
}

/// A line of output: the level's label in brackets and in the level's
/// colour, a space, the message, and a line break if one is asked for.
pub open spec fn formatted(level: Level, message: Seq<char>, newline: bool) -> Seq<char> {
    color_on(level) + seq!['['] + level_label(level) + seq![']'] + color_off() + seq![' ']
        + message + line_end(newline)
}

/// Whether lines of a level go to the error stream.
pub open spec fn is_error_level(level: Level) -> bool {
    level == Level::Error
}

/// Whether lines of `level` go to the error stream rather than to the
/// standard output.
pub fn to_error_stream(level: Level) -> (yes: bool)
    ensures
        yes == is_error_level(level),
{
    match level {
        Level::Error => true,
        _ => false,
    }
}

/// Pushes the characters of a level's label.
fn push_label(out: &mut Vec<char>, level: Level)
    ensures
        final(out)@ == old(out)@ + level_label(level),
{
    match level {
        Level::Info => {
            out.push('I');
            out.push('N');
            out.push('F');
            out.push('O');
        },
        Level::Task => {
            out.push('T');
            out.push('A');
            out.push('S');
            out.push('K');
        },
        Level::Done => {
            out.push('D');
            out.push('O');
            out.push('N');
            out.push('E');
        },
        Level::Warn => {
            out.push('W');
            out.push('A');
            out.push('R');
            out.push('N');
        },
        Level::Error => {
            out.push('E');
            out.push('R');
            out.push('R');
            out.push('O');
            out.push('R');
        },
    }
    assert(out@ =~= old(out)@ + level_label(level));
}

/// Formats one line of output.
pub fn format(level: Level, message: &str, newline: bool) -> (line: String)
    ensures
        line@ == formatted(level, message@, newline),
{
    let digit = match level {
        Level::Info => '4',
        Level::Task => '4',
        Level::Done => '2',
        Level::Warn => '3',
        Level::Error => '1',
    };
    let body = chars_of(message);
    let mut out: Vec<char> = Vec::new();
    out.push('\u{1b}');
    out.push('[');
    out.push('3');
    out.push(digit);
    out.push('m');
    out.push('[');
    assert(out@ =~= color_on(level) + seq!['[']);
    push_label(&mut out, level);
    out.push(']');
    out.push('\u{1b}');
    out.push('[');
    out.push('0');
    out.push('m');
    out.push(' ');
    assert(out@ =~= color_on(level) + seq!['['] + level_label(level) + seq![']'] + color_off()
        + seq![' ']);
    append_chars(&mut out, &body);
    if newline {
        out.push('\n');
    }
    assert(out@ =~= formatted(level, message@, newline));
    string_of(&out)
}

} // verus!
