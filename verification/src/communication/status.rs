//! Parsing of GRBL status reports such as
//! `<Idle|MPos:0.000,0.000,0.000|FS:0,0>`.

use vstd::prelude::*;
use crate::text::{trim, starts_with, chars_of, trimmed, slice, begins_with};
use crate::decimal::{Decimal, is_number, split_token, digits_value, all_digits, VALUE_CAP};
use super::grbl::{u32_of, read_u32};
use super::{MachineState, Position, state_of};

verus! {

/// What a status report says. A field that the report lacks, or that could
/// not be read, is `None`.
#[derive(Debug, Clone, Copy, PartialEq, Eq, Structural)]
pub struct StatusReport {
    pub state: MachineState,
    pub mpos: Option<Position>,
    pub wpos: Option<Position>,
    pub feed_rate: Option<u32>,
    pub spindle_speed: Option<u32>,
}

/// Index of the first `c` at or after `i` (or the length).
pub open spec fn char_at(s: Seq<char>, c: char, i: int) -> int
    decreases s.len() - i,
{
    if 0 <= i < s.len() && s[i] != c {
        char_at(s, c, i + 1)
    } else {
        i
    }
}

/// The pieces of a text between occurrences of `c`, when the current piece
/// began at `start` and the scan stands at `i`.
pub open spec fn pieces_scan(s: Seq<char>, c: char, start: int, i: int) -> Seq<Seq<char>>
    decreases s.len() - i,
{
    if i < 0 || i >= s.len() {
        seq![s.subrange(start, s.len() as int)]
    } else if s[i] == c {
        seq![s.subrange(start, i)] + pieces_scan(s, c, i + 1, i + 1)
    } else {
        pieces_scan(s, c, start, i + 1)
    }
}

/// The pieces of a text between occurrences of `c`; a text without `c` is
/// one piece.
pub open spec fn pieces(s: Seq<char>, c: char) -> Seq<Seq<char>> {
    pieces_scan(s, c, 0, 0)
}

/// The digit at index `i` of a run of digits, 0 beyond its end.
pub open spec fn digit_or_zero(f: Seq<char>, i: int) -> nat {
    if 0 <= i < f.len() {
        ((f[i] as u32) - 48) as nat
    } else {
        0
    }
}

/// A coordinate in thousandths: the number cut off after three decimal
/// places. Nothing for a text that is no number, and for a number of
/// 1,000,000,000,000 or beyond.
pub open spec fn thousandths_of(s: Seq<char>) -> Option<i64> {
    let n = split_token(s);
    if is_number(s) && digits_value(n.whole) < VALUE_CAP {
        let magnitude = digits_value(n.whole) * 1000 + digit_or_zero(n.fraction, 0) * 100
            + digit_or_zero(n.fraction, 1) * 10 + digit_or_zero(n.fraction, 2);
        Some(
            if n.negative {
                (-magnitude) as i64
            } else {
                magnitude as i64
            },
        )
    } else {
        None
    }
}

/// The position that a text such as `1.000,-2.500,0.000` spells: its first
/// three pieces between commas, each a coordinate.
pub open spec fn position_of(s: Seq<char>) -> Option<Position> {
    let parts = pieces(s, ',');
    if parts.len() >= 3 {
        match (thousandths_of(parts[0]), thousandths_of(parts[1]), thousandths_of(parts[2])) {
            (Some(x), Some(y), Some(z)) => Some(Position { x, y, z }),
            _ => None,
        }
    } else {
        None
    }
}

/// The report after one more field: `MPos:` and `WPos:` give a position,
/// `FS:` the feed rate and the spindle speed, `F:` the feed rate. A field
/// that cannot be read, and any other field, changes nothing.
pub open spec fn with_field(r: StatusReport, f: Seq<char>) -> StatusReport {
    if starts_with(f, "MPos:"@) {
        match position_of(f.subrange(5, f.len() as int)) {
            Some(p) => StatusReport { mpos: Some(p), ..r },
            None => r,
        }
    } else if starts_with(f, "WPos:"@) {
        match position_of(f.subrange(5, f.len() as int)) {
            Some(p) => StatusReport { wpos: Some(p), ..r },
            None => r,
        }
    } else if starts_with(f, "FS:"@) {
        let parts = pieces(f.subrange(3, f.len() as int), ',');
        if parts.len() >= 2 {
            match (u32_of(parts[0]), u32_of(parts[1])) {
                (Some(feed), Some(speed)) => StatusReport {
                    feed_rate: Some(feed),
                    spindle_speed: Some(speed),
                    ..r
                },
                _ => r,
            }
        } else {
            r
        }
    } else if starts_with(f, "F:"@) {
        match u32_of(f.subrange(2, f.len() as int)) {
            Some(feed) => StatusReport { feed_rate: Some(feed), ..r },
            None => r,
        }
    } else {
        r
    }
}

/// The report after the fields from index 1 up to, not including, `k`.
pub open spec fn with_fields(state: MachineState, fields: Seq<Seq<char>>, k: int) -> StatusReport
    decreases k,
{
    if k <= 1 || k > fields.len() {
        StatusReport { state, mpos: None, wpos: None, feed_rate: None, spindle_speed: None }
    } else {
        with_field(with_fields(state, fields, k - 1), fields[k - 1])
    }
}

/// What a line says as a status report: nothing unless, trimmed, it stands
/// between `<` and `>`. The fields are the pieces between `|`. The first is
/// the state, up to a `:` if it holds one; the others are read in order, a
/// later field of a kind replacing an earlier one.
pub open spec fn report_of(line: Seq<char>) -> Option<StatusReport> {
    let t = trim(line);
    if t.len() >= 2 && t[0] == '<' && t.last() == '>' {
        let fields = pieces(t.subrange(1, t.len() - 1), '|');
        let name = fields[0].subrange(0, char_at(fields[0], ':', 0));
        Some(with_fields(state_of(name), fields, fields.len() as int))
    } else {
        None
    }
}

/// The views of a vector of character vectors.
pub open spec fn piece_views(v: Seq<Vec<char>>) -> Seq<Seq<char>> {
    Seq::new(v.len(), |i: int| v[i]@)
}

/// Splits a text at every occurrence of `c`.
pub fn split_at_char(v: &Vec<char>, c: char) -> (r: Vec<Vec<char>>)
    ensures
        piece_views(r@) == pieces(v@, c),
        r@.len() >= 1,
{
    let mut r: Vec<Vec<char>> = Vec::new();
    let mut start: usize = 0;
    let mut i: usize = 0;
    assert(piece_views(r@) =~= Seq::<Seq<char>>::empty());
    while i < v.len()
        invariant
            start <= i <= v.len(),
            pieces(v@, c) == piece_views(r@) + pieces_scan(v@, c, start as int, i as int),
        decreases v.len() - i,
    {
        if v[i] == c {
            let ghost before = piece_views(r@);
            let piece = slice(v, start, i);
            let ghost held = piece@;
            r.push(piece);
            assert(piece_views(r@) =~= before.push(held));
            start = i + 1;
        }
        i += 1;
    }
    let ghost before = piece_views(r@);
    let piece = slice(v, start, v.len());
    let ghost held = piece@;
    r.push(piece);
    assert(piece_views(r@) =~= before.push(held));
    r
}

fn digit_at(f: &Vec<char>, i: usize) -> (r: u64)
    requires
        all_digits(f@),
    ensures
        r == digit_or_zero(f@, i as int),
        r <= 9,
{
    if i < f.len() {
        let c = f[i];
        assert(crate::text::is_digit(f@[i as int]));
        (c as u32 - 48) as u64
    } else {
        0
    }
}

/// Reads a coordinate in thousandths.
pub fn read_thousandths(text: &Vec<char>) -> (r: Option<i64>)
    ensures
        r == thousandths_of(text@),
{
    match Decimal::parse(text) {
        Some(d) => {
            let whole = d.whole_value();
            if whole >= VALUE_CAP {
                return None;
            }
            let magnitude: u64 = whole * 1000 + digit_at(&d.fraction, 0) * 100 + digit_at(
                &d.fraction,
                1,
            ) * 10 + digit_at(&d.fraction, 2);
            if d.negative {
                Some(-(magnitude as i64))
            } else {
                Some(magnitude as i64)
            }
        },
        None => None,
    }
}

/// Reads a position out of three coordinates between commas.
pub fn read_position(text: &Vec<char>) -> (r: Option<Position>)
    ensures
        r == position_of(text@),
{
    let parts = split_at_char(text, ',');
    if parts.len() < 3 {
        return None;
    }
    assert(piece_views(parts@)[0] == parts@[0]@);
    assert(piece_views(parts@)[1] == parts@[1]@);
    assert(piece_views(parts@)[2] == parts@[2]@);
    let x = read_thousandths(&parts[0]);
    let y = read_thousandths(&parts[1]);
    let z = read_thousandths(&parts[2]);
    if x.is_some() && y.is_some() && z.is_some() {
        Some(Position { x: x.unwrap(), y: y.unwrap(), z: z.unwrap() })
    } else {
        None
    }
}

fn apply_field(r: StatusReport, f: &Vec<char>) -> (out: StatusReport)
    ensures
        out == with_field(r, f@),
{
    proof {
        reveal_strlit("MPos:");
        reveal_strlit("WPos:");
        reveal_strlit("FS:");
        reveal_strlit("F:");
    }
    if begins_with(f, "MPos:") {
        let rest = slice(f, 5, f.len());
        match read_position(&rest) {
            Some(p) => StatusReport { mpos: Some(p), ..r },
            None => r,
        }
    } else if begins_with(f, "WPos:") {
        let rest = slice(f, 5, f.len());
        match read_position(&rest) {
            Some(p) => StatusReport { wpos: Some(p), ..r },
            None => r,
        }
    } else if begins_with(f, "FS:") {
        let rest = slice(f, 3, f.len());
        let parts = split_at_char(&rest, ',');
        if parts.len() >= 2 {
            assert(piece_views(parts@)[0] == parts@[0]@);
            assert(piece_views(parts@)[1] == parts@[1]@);
            let feed = read_u32(&parts[0]);
            let speed = read_u32(&parts[1]);
            if feed.is_some() && speed.is_some() {
                StatusReport { feed_rate: Some(feed.unwrap()), spindle_speed: Some(speed.unwrap()), ..r }
            } else {
                r
            }
        } else {
            r
        }
    } else if begins_with(f, "F:") {
        let rest = slice(f, 2, f.len());
        match read_u32(&rest) {
            Some(feed) => StatusReport { feed_rate: Some(feed), ..r },
            None => r,
        }
    } else {
        r
    }
}

impl StatusReport {
    /// Parses a status report.
    pub fn parse(line: &str) -> (r: Option<StatusReport>)
        ensures
            r == report_of(line@),
    {
        let t = trimmed(&chars_of(line));
        if !(t.len() >= 2 && t[0] == '<' && t[t.len() - 1] == '>') {
            return None;
        }
        let body = slice(&t, 1, t.len() - 1);
        let fields = split_at_char(&body, '|');
        assert(piece_views(fields@).len() == fields@.len());
        let ghost fs = pieces(body@, '|');
        assert(fs[0] == fields@[0]@);
        let first = &fields[0];
        let mut k: usize = 0;
        while k < first.len() && first[k] != ':'
            invariant
                k <= first.len(),
                char_at(first@, ':', k as int) == char_at(first@, ':', 0),
            decreases first.len() - k,
        {
            k += 1;
        }
        let name = slice(first, 0, k);
        let state = MachineState::from_chars(&name);
        let mut report = StatusReport {
            state,
            mpos: None,
            wpos: None,
            feed_rate: None,
            spindle_speed: None,
        };
        let mut i: usize = 1;
        while i < fields.len()
            invariant
                1 <= i <= fields@.len(),
                piece_views(fields@) == fs,
                report == with_fields(state, fs, i as int),
            decreases fields@.len() - i,
        {
            assert(fs[i as int] == fields@[i as int]@);
            report = apply_field(report, &fields[i]);
            i += 1;
        }
        Some(report)
    }
}

} // verus!
