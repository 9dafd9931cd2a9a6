//! The console: a bounded buffer of log lines, with filtering by level and
//! formatting for display.

use vstd::prelude::*;
use crate::text::{
    contains, occurs_at, index_of, trim_start, lines, join, views, chars_of, string_of,
    split_lines, joined, find, has, extend, extend_str, slice, trimmed_start,
};

verus! {

/// Greatest number of lines kept in the console buffer.
pub const MAX_CONSOLE_LINES: usize = 1000;

/// The console buffer: log lines, oldest first.
pub type ConsoleBuffer = Vec<String>;

/// The buffer after one more message: a buffer that grows beyond its
/// capacity drops its oldest line.
pub open spec fn appended(buffer: Seq<String>, message: String) -> Seq<String> {
    if buffer.len() + 1 > MAX_CONSOLE_LINES {
        buffer.push(message).subrange(1, buffer.len() as int + 1)
    } else {
        buffer.push(message)
    }
}

/// A line without its ANSI escape sequences, scanned from `i` on: an escape
/// character opens a sequence and the next `m` closes it.
pub open spec fn strip_ansi_from(s: Seq<char>, i: int, in_escape: bool) -> Seq<char>
    decreases s.len() - i,
{
    if i < 0 || i >= s.len() {
        Seq::empty()
    } else if s[i] == '\x1b' {
        strip_ansi_from(s, i + 1, true)
    } else if in_escape {
        strip_ansi_from(s, i + 1, s[i] != 'm')
    } else {
        seq![s[i]] + strip_ansi_from(s, i + 1, false)
    }
}

/// A line without its ANSI escape sequences.
pub open spec fn strip_ansi(s: Seq<char>) -> Seq<char> {
    strip_ansi_from(s, 0, false)
}

/// Whether a line is marked with a level, between blanks or in brackets.
pub open spec fn has_level(line: Seq<char>, spaced: Seq<char>, bracketed: Seq<char>) -> bool {
    contains(line, spaced) || contains(line, bracketed)
}

/// The level that a log line is marked with: the first of `INFO`, `DEBUG`,
/// `WARN`, `ERROR` and `TRACE` that stands in it between blanks or in
/// brackets.
pub open spec fn level_of(line: Seq<char>) -> Option<Seq<char>> {
    if has_level(line, " INFO "@, "[INFO]"@) {
        Some("INFO"@)
    } else if has_level(line, " DEBUG "@, "[DEBUG]"@) {
        Some("DEBUG"@)
    } else if has_level(line, " WARN "@, "[WARN]"@) {
        Some("WARN"@)
    } else if has_level(line, " ERROR "@, "[ERROR]"@) {
        Some("ERROR"@)
    } else if has_level(line, " TRACE "@, "[TRACE]"@) {
        Some("TRACE"@)
    } else {
        None
    }
}

/// The mark behind which the message of a log line begins: the first that
/// stands in the line, marks between blanks before marks in brackets.
pub open spec fn level_mark(line: Seq<char>) -> Seq<char> {
    if contains(line, " INFO "@) {
        " INFO "@
    } else if contains(line, " DEBUG "@) {
        " DEBUG "@
    } else if contains(line, " WARN "@) {
        " WARN "@
    } else if contains(line, " ERROR "@) {
        " ERROR "@
    } else if contains(line, " TRACE "@) {
        " TRACE "@
    } else if contains(line, "[INFO]"@) {
        "[INFO]"@
    } else if contains(line, "[DEBUG]"@) {
        "[DEBUG]"@
    } else if contains(line, "[WARN]"@) {
        "[WARN]"@
    } else if contains(line, "[ERROR]"@) {
        "[ERROR]"@
    } else {
        "[TRACE]"@
    }
}

/// A log line for display: its level, a colon, and what follows the level
/// mark without leading white space. A line without a level stays as it is.
pub open spec fn formatted_line(line: Seq<char>) -> Seq<char> {
    match level_of(line) {
        Some(level) => {
            let mark = level_mark(line);
            if contains(line, mark) {
                let from = index_of(line, mark, 0) + mark.len();
                level + ": "@ + trim_start(line.subrange(from, line.len() as int))
            } else {
                line
            }
        },
        None => line,
    }
}

/// Whether a line is shown when the levels are filtered.
pub open spec fn is_shown(
    line: Seq<char>,
    show_info: bool,
    show_debug: bool,
    show_warn: bool,
    show_error: bool,
    show_trace: bool,
    show_other: bool,
) -> bool {
    if has_level(line, " INFO "@, "[INFO]"@) {
        show_info
    } else if has_level(line, " DEBUG "@, "[DEBUG]"@) {
        show_debug
    } else if has_level(line, " WARN "@, "[WARN]"@) {
        show_warn
    } else if has_level(line, " ERROR "@, "[ERROR]"@) {
        show_error
    } else if has_level(line, " TRACE "@, "[TRACE]"@) {
        show_trace
    } else {
        show_other
    }
}

/// The lines shown among the first `k`, without their escape sequences.
pub open spec fn shown_upto(
    buffer: Seq<String>,
    k: int,
    show_info: bool,
    show_debug: bool,
    show_warn: bool,
    show_error: bool,
    show_trace: bool,
    show_other: bool,
) -> Seq<Seq<char>>
    decreases k,
{
    if k <= 0 || k > buffer.len() {
        Seq::empty()
    } else {
        let before = shown_upto(
            buffer,
            k - 1,
            show_info,
            show_debug,
            show_warn,
            show_error,
            show_trace,
            show_other,
        );
        let line = strip_ansi(buffer[k - 1]@);
        if is_shown(line, show_info, show_debug, show_warn, show_error, show_trace, show_other) {
            before.push(line)
        } else {
            before
        }
    }
}

/// The first `k` lines without their escape sequences.
pub open spec fn stripped_upto(buffer: Seq<String>, k: int) -> Seq<Seq<char>>
    decreases k,
{
    if k <= 0 || k > buffer.len() {
        Seq::empty()
    } else {
        stripped_upto(buffer, k - 1).push(strip_ansi(buffer[k - 1]@))
    }
}

/// The views of a sequence of strings.
pub open spec fn texts(v: Seq<String>) -> Seq<Seq<char>> {
    Seq::new(v.len(), |i: int| v[i]@)
}

/// The buffer after a text was written to it: each of its lines that holds
/// anything, in order.
pub open spec fn written_upto(buffer: Seq<String>, ls: Seq<Seq<char>>, k: int) -> Seq<Seq<char>>
    decreases k,
{
    if k <= 0 || k > ls.len() {
        texts(buffer)
    } else if ls[k - 1].len() == 0 {
        written_upto(buffer, ls, k - 1)
    } else {
        let before = written_upto(buffer, ls, k - 1);
        if before.len() + 1 > MAX_CONSOLE_LINES {
            before.push(ls[k - 1]).subrange(1, before.len() as int + 1)
        } else {
            before.push(ls[k - 1])
        }
    }
}

/// The lines in the buffer.
pub fn get_console_logs(buffer: &ConsoleBuffer) -> (r: Vec<String>)
    ensures
        r@ == buffer@,
{
    let mut r: Vec<String> = Vec::new();
    let mut i: usize = 0;
    while i < buffer.len()
        invariant
            i <= buffer@.len(),
            r@ == buffer@.take(i as int),
        decreases buffer@.len() - i,
    {
        r.push(buffer[i].clone());
        i += 1;
    }
    assert(buffer@.take(buffer@.len() as int) == buffer@);
    r
}

/// Empties the buffer.
pub fn clear_console_logs(buffer: &mut ConsoleBuffer)
    ensures
        final(buffer)@ == Seq::<String>::empty(),
{
    buffer.clear();
}

/// Adds a message to the buffer.
pub fn add_console_message(buffer: &mut ConsoleBuffer, message: String)
    ensures
        final(buffer)@ == appended(old(buffer)@, message),
{
    buffer.push(message);
    if buffer.len() > MAX_CONSOLE_LINES {
        buffer.remove(0);
        assert(buffer@ =~= appended(old(buffer)@, message));
    }
}

/// Writes a text to the buffer: each of its lines that holds anything
/// becomes a line of the buffer.
pub fn write_console_text(buffer: &mut ConsoleBuffer, text: &str)
    ensures
        texts(final(buffer)@) == written_upto(old(buffer)@, lines(text@), lines(text@).len() as int),
{
    let chars = chars_of(text);
    let all = split_lines(&chars);
    assert(views(all@).len() == all@.len());
    let ghost ls = lines(text@);
    let mut i: usize = 0;
    while i < all.len()
        invariant
            i <= all@.len(),
            views(all@) == ls,
            texts(buffer@) == written_upto(old(buffer)@, ls, i as int),
        decreases all@.len() - i,
    {
        assert(ls[i as int] == all@[i as int]@);
        if all[i].len() > 0 {
            let ghost before = texts(buffer@);
            let line = string_of(&all[i]);
            buffer.push(line);
            assert(texts(buffer@) =~= before.push(ls[i as int]));
            if buffer.len() > MAX_CONSOLE_LINES {
                buffer.remove(0);
                assert(texts(buffer@) =~= before.push(ls[i as int]).subrange(1, before.len() as int + 1));
            }
        }
        i += 1;
    }
}

/// A line without its ANSI escape sequences.
pub fn strip_ansi_codes(s: &str) -> (r: String)
    ensures
        r@ == strip_ansi(s@),
{
    let r = strip_ansi_chars(&chars_of(s));
    string_of(&r)
}

fn strip_ansi_chars(v: &Vec<char>) -> (r: Vec<char>)
    ensures
        r@ == strip_ansi(v@),
{
    let mut r: Vec<char> = Vec::new();
    let mut in_escape = false;
    let mut i: usize = 0;
    while i < v.len()
        invariant
            i <= v.len(),
            strip_ansi(v@) == r@ + strip_ansi_from(v@, i as int, in_escape),
        decreases v.len() - i,
    {
        let c = v[i];
        if c == '\x1b' {
            in_escape = true;
        } else if in_escape {
            if c == 'm' {
                in_escape = false;
            }
        } else {
            r.push(c);
        }
        i += 1;
    }
    r
}

fn marked(line: &Vec<char>, spaced: &str, bracketed: &str) -> (r: bool)
    ensures
        r == has_level(line@, spaced@, bracketed@),
{
    has(line, spaced) || has(line, bracketed)
}

fn shown(
    line: &Vec<char>,
    show_info: bool,
    show_debug: bool,
    show_warn: bool,
    show_error: bool,
    show_trace: bool,
    show_other: bool,
) -> (r: bool)
    ensures
        r == is_shown(line@, show_info, show_debug, show_warn, show_error, show_trace, show_other),
{
    if marked(line, " INFO ", "[INFO]") {
        show_info
    } else if marked(line, " DEBUG ", "[DEBUG]") {
        show_debug
    } else if marked(line, " WARN ", "[WARN]") {
        show_warn
    } else if marked(line, " ERROR ", "[ERROR]") {
        show_error
    } else if marked(line, " TRACE ", "[TRACE]") {
        show_trace
    } else {
        show_other
    }
}

/// The lines of the buffer, without their escape sequences, whose level is
/// to be shown; lines without a level count as other.
pub fn filter_console_logs(
    buffer: &ConsoleBuffer,
    show_info: bool,
    show_debug: bool,
    show_warn: bool,
    show_error: bool,
    show_trace: bool,
    show_other: bool,
) -> (r: Vec<String>)
    ensures
        texts(r@) == shown_upto(
            buffer@,
            buffer@.len() as int,
            show_info,
            show_debug,
            show_warn,
            show_error,
            show_trace,
            show_other,
        ),
{
    let mut r: Vec<String> = Vec::new();
    let mut i: usize = 0;
    assert(texts(r@) =~= shown_upto(
        buffer@,
        0,
        show_info,
        show_debug,
        show_warn,
        show_error,
        show_trace,
        show_other,
    ));
    while i < buffer.len()
        invariant
            i <= buffer@.len(),
            texts(r@) == shown_upto(
                buffer@,
                i as int,
                show_info,
                show_debug,
                show_warn,
                show_error,
                show_trace,
                show_other,
            ),
        decreases buffer@.len() - i,
    {
        let line = strip_ansi_chars(&chars_of(buffer[i].as_str()));
        if shown(&line, show_info, show_debug, show_warn, show_error, show_trace, show_other) {
            let ghost before = texts(r@);
            let kept = string_of(&line);
            r.push(kept);
            assert(texts(r@) =~= before.push(line@));
        }
        i += 1;
    }
    r
}

/// The lines of the buffer, without their escape sequences, joined by line
/// feeds.
pub fn get_console_as_string(buffer: &ConsoleBuffer) -> (r: String)
    ensures
        r@ == join(stripped_upto(buffer@, buffer@.len() as int), seq!['\n']),
{
    let mut all: Vec<Vec<char>> = Vec::new();
    let mut i: usize = 0;
    assert(views(all@) =~= stripped_upto(buffer@, 0));
    while i < buffer.len()
        invariant
            i <= buffer@.len(),
            views(all@) == stripped_upto(buffer@, i as int),
        decreases buffer@.len() - i,
    {
        let ghost before = views(all@);
        let line = strip_ansi_chars(&chars_of(buffer[i].as_str()));
        let ghost held = line@;
        all.push(line);
        assert(views(all@) =~= before.push(held));
        i += 1;
    }
    let mut feed: Vec<char> = Vec::new();
    feed.push('\n');
    assert(feed@ == seq!['\n']);
    let text = joined(&all, &feed);
    string_of(&text)
}

/// The level that a log line is marked with.
pub fn extract_level(line: &str) -> (r: Option<&'static str>)
    ensures
        match r {
            Some(level) => level_of(line@) == Some(level@),
            None => level_of(line@) is None,
        },
{
    let v = chars_of(line);
    if marked(&v, " INFO ", "[INFO]") {
        Some("INFO")
    } else if marked(&v, " DEBUG ", "[DEBUG]") {
        Some("DEBUG")
    } else if marked(&v, " WARN ", "[WARN]") {
        Some("WARN")
    } else if marked(&v, " ERROR ", "[ERROR]") {
        Some("ERROR")
    } else if marked(&v, " TRACE ", "[TRACE]") {
        Some("TRACE")
    } else {
        None
    }
}

/// A log line for display, with its level in front.
pub fn format_log_line(line: &str) -> (r: String)
    ensures
        r@ == formatted_line(line@),
{
    let v = chars_of(line);
    match extract_level(line) {
        Some(level) => {
            let mark: &'static str = if has(&v, " INFO ") {
                " INFO "
            } else if has(&v, " DEBUG ") {
                " DEBUG "
            } else if has(&v, " WARN ") {
                " WARN "
            } else if has(&v, " ERROR ") {
                " ERROR "
            } else if has(&v, " TRACE ") {
                " TRACE "
            } else if has(&v, "[INFO]") {
                "[INFO]"
            } else if has(&v, "[DEBUG]") {
                "[DEBUG]"
            } else if has(&v, "[WARN]") {
                "[WARN]"
            } else if has(&v, "[ERROR]") {
                "[ERROR]"
            } else {
                "[TRACE]"
            };
            assert(mark@ == level_mark(line@));
            let m = chars_of(mark);
            match find(&v, &m) {
                Some(pos) => {
                    assert(occurs_at(v@, m@, pos as int));
                    assert(pos + m@.len() <= v@.len());
                    let end = v.len();
                    let width = m.len();
                    let rest = slice(&v, pos + width, end);
                    let message = trimmed_start(&rest);
                    let mut out = chars_of(level);
                    extend_str(&mut out, ": ");
                    extend(&mut out, &message);
                    string_of(&out)
                },
                None => line.to_owned(),
            }
        },
        None => line.to_owned(),
    }
}

} // verus!
