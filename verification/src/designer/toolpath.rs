//! Rewriting of the G-code of a toolpath.

use vstd::prelude::*;
use crate::text::{trim, lines, views, chars_of, string_of, trimmed, split_lines, extend};

verus! {

/// The first `k` lines without blank lines and comment lines, each trimmed
/// and with a line feed behind it.
pub open spec fn stripped_upto(ls: Seq<Seq<char>>, k: int) -> Seq<char>
    decreases k,
{
    if k <= 0 || k > ls.len() {
        Seq::empty()
    } else {
        let t = trim(ls[k - 1]);
        if t.len() > 0 && t[0] != ';' {
            stripped_upto(ls, k - 1) + t.push('\n')
        } else {
            stripped_upto(ls, k - 1)
        }
    }
}

/// A program without blank lines, comment lines and white space around its
/// lines.
pub open spec fn stripped(gcode: Seq<char>) -> Seq<char> {
    stripped_upto(lines(gcode), lines(gcode).len() as int)
}

/// A line with every arc command, `G2` or `G3`, turned into the line
/// command `G1`.
pub open spec fn arcs_as_lines(line: Seq<char>) -> Seq<char> {
    Seq::new(
        line.len(),
        |i: int|
            if i > 0 && line[i - 1] == 'G' && (line[i] == '2' || line[i] == '3') {
                '1'
            } else {
                line[i]
            },
    )
}

/// The first `k` lines with arc commands turned into line commands, each
/// with a line feed behind it.
pub open spec fn straightened_upto(ls: Seq<Seq<char>>, k: int) -> Seq<char>
    decreases k,
{
    if k <= 0 || k > ls.len() {
        Seq::empty()
    } else {
        straightened_upto(ls, k - 1) + arcs_as_lines(ls[k - 1]).push('\n')
    }
}

/// A program with arc commands turned into line commands.
pub open spec fn straightened(gcode: Seq<char>) -> Seq<char> {
    straightened_upto(lines(gcode), lines(gcode).len() as int)
}

/// Removes blank lines, comment lines and the white space around lines.
pub fn optimize_gcode(gcode: &str) -> (r: String)
    ensures
        r@ == stripped(gcode@),
{
    let all = split_lines(&chars_of(gcode));
    assert(views(all@).len() == all@.len());
    let ghost ls = lines(gcode@);
    let mut out: Vec<char> = Vec::new();
    let mut i: usize = 0;
    while i < all.len()
        invariant
            i <= all@.len(),
            views(all@) == ls,
            out@ == stripped_upto(ls, i as int),
        decreases all@.len() - i,
    {
        assert(ls[i as int] == all@[i as int]@);
        let t = trimmed(&all[i]);
        if t.len() > 0 && t[0] != ';' {
            extend(&mut out, &t);
            out.push('\n');
        }
        i += 1;
    }
    string_of(&out)
}

/// Turns every arc command, `G2` or `G3`, into the line command `G1`.
pub fn convert_arcs_to_lines(gcode: &str) -> (r: String)
    ensures
        r@ == straightened(gcode@),
{
    let all = split_lines(&chars_of(gcode));
    assert(views(all@).len() == all@.len());
    let ghost ls = lines(gcode@);
    let mut out: Vec<char> = Vec::new();
    let mut i: usize = 0;
    while i < all.len()
        invariant
            i <= all@.len(),
            views(all@) == ls,
            out@ == straightened_upto(ls, i as int),
        decreases all@.len() - i,
    {
        assert(ls[i as int] == all@[i as int]@);
        let line = &all[i];
        let ghost before = out@;
        let mut k: usize = 0;
        while k < line.len()
            invariant
                k <= line.len(),
                out@ == before + arcs_as_lines(line@).take(k as int),
            decreases line.len() - k,
        {
            let c = line[k];
            if k > 0 && line[k - 1] == 'G' && (c == '2' || c == '3') {
                out.push('1');
            } else {
                out.push(c);
            }
            assert(out@ =~= before + arcs_as_lines(line@).take(k + 1));
            k += 1;
        }
        assert(arcs_as_lines(line@).take(line.len() as int) =~= arcs_as_lines(line@));
        out.push('\n');
        i += 1;
    }
    string_of(&out)
}

} // verus!
