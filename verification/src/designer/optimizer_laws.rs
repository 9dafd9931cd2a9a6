//! Laws of the optimizer.

use vstd::prelude::*;
use crate::text::{is_space, trim, trim_end, lines, words, join};
use crate::text_laws::{
    is_blank, is_word, all_words, has_no_feed, lemma_trim_blank, lemma_words_are_words,
    lemma_words_of_blank, lemma_words_of_join, lemma_one_line, lemma_lines_concat,
    lemma_trim_end_of_line, lemma_lines_hold_no_feed, lemma_trim_end_of_tail,
    lemma_trim_end_of_full,
};
use super::optimizer::{
    OptimizerOptions, clean_line, cleaned_upto, clean_text, truncate_text, optimized,
};

verus! {

/// Whether a text can stand as a line of its own: it holds something, ends
/// in a character that is no white space, and holds no line feed.
pub open spec fn is_solid(t: Seq<char>) -> bool {
    &&& t.len() > 0
    &&& !is_space(t.last())
    &&& forall|k: int| 0 <= k < t.len() ==> #[trigger] t[k] != '\n'
}

/// Whether a line is left as it is by the cleanup: it is solid, not blank,
/// and its words are a blank apart.
pub open spec fn is_clean(t: Seq<char>) -> bool {
    is_solid(t) && !is_blank(t) && clean_line(t, true) == t
}

/// Whether a line is empty or clean.
pub open spec fn is_tidy(t: Seq<char>) -> bool {
    t.len() == 0 || is_clean(t)
}

/// The first `n` texts, each with a line feed behind it.
pub open spec fn fed(ts: Seq<Seq<char>>, n: int) -> Seq<char>
    decreases n,
{
    if n <= 0 || n > ts.len() {
        Seq::empty()
    } else {
        fed(ts, n - 1) + ts[n - 1].push('\n')
    }
}

/// The lines among the first `k` that the cleanup keeps, with their white
/// space collapsed.
pub open spec fn kept(ls: Seq<Seq<char>>, k: int, remove_empty: bool) -> Seq<Seq<char>>
    decreases k,
{
    if k <= 0 || k > ls.len() {
        Seq::empty()
    } else if remove_empty && trim(ls[k - 1]).len() == 0 {
        kept(ls, k - 1, remove_empty)
    } else {
        kept(ls, k - 1, remove_empty).push(clean_line(ls[k - 1], true))
    }
}

/// The number of texts up to the last among the first `n` that holds
/// anything.
pub open spec fn up_to_last_full(ts: Seq<Seq<char>>, n: int) -> int
    decreases n,
{
    if n <= 0 || n > ts.len() {
        0
    } else if ts[n - 1].len() > 0 {
        n
    } else {
        up_to_last_full(ts, n - 1)
    }
}

/// Words joined by blanks are solid.
proof fn lemma_join_solid(ws: Seq<Seq<char>>)
    requires
        all_words(ws),
        ws.len() > 0,
    ensures
        is_solid(join(ws, seq![' '])),
    decreases ws.len(),
{
    assert(is_space('\n'));
    if ws.len() == 1 {
        assert(is_word(ws[0]));
    } else {
        let head = ws.drop_last();
        let w = ws.last();
        assert(is_word(w));
        assert(all_words(head)) by {
            assert forall|i: int| 0 <= i < head.len() implies is_word(#[trigger] head[i]) by {
                assert(head[i] == ws[i]);
            }
        }
        lemma_join_solid(head);
        let a = join(head, seq![' ']);
        let t = a + seq![' '] + w;
        assert(t.last() == w.last());
        assert forall|k: int| 0 <= k < t.len() implies #[trigger] t[k] != '\n' by {
            if k < a.len() {
                assert(t[k] == a[k]);
            } else if k > a.len() {
                assert(t[k] == w[k - a.len() - 1]);
            }
        }
    }
}

/// A line is tidy once its white space is collapsed, and clean if it was not
/// blank.
proof fn lemma_collapsed_line_is_tidy(l: Seq<char>)
    ensures
        is_tidy(clean_line(l, true)),
        trim(l).len() > 0 ==> is_clean(clean_line(l, true)),
{
    let ws = words(l);
    let t = join(ws, seq![' ']);
    lemma_trim_blank(l);
    lemma_words_of_blank(l);
    lemma_words_are_words(l);
    if ws.len() > 0 {
        lemma_join_solid(ws);
        lemma_words_of_join(ws);
        lemma_words_of_blank(t);
    }
}

/// An empty line stays empty when its white space is collapsed.
proof fn lemma_collapsed_empty()
    ensures
        clean_line(Seq::<char>::empty(), true) == Seq::<char>::empty(),
{
    let e = Seq::<char>::empty();
    assert(is_blank(e));
    lemma_words_of_blank(e);
    assert(words(e) =~= Seq::<Seq<char>>::empty());
}

/// What is fed depends on the texts that are fed alone.
proof fn lemma_fed_of_prefix(a: Seq<Seq<char>>, b: Seq<Seq<char>>, n: int)
    requires
        0 <= n <= a.len(),
        n <= b.len(),
        forall|i: int| 0 <= i < n ==> a[i] == b[i],
    ensures
        fed(a, n) == fed(b, n),
    decreases n,
{
    if n > 0 {
        lemma_fed_of_prefix(a, b, n - 1);
    }
}

/// The lines that the cleanup keeps are tidy, and clean where empty lines
/// are removed; what the cleanup writes is these lines, each with a line
/// feed behind it.
proof fn lemma_cleaned_is_fed(ls: Seq<Seq<char>>, k: int, remove_empty: bool)
    requires
        0 <= k <= ls.len(),
    ensures
        forall|i: int|
            0 <= i < kept(ls, k, remove_empty).len() ==> is_tidy(
                #[trigger] kept(ls, k, remove_empty)[i],
            ),
        remove_empty ==> forall|i: int|
            0 <= i < kept(ls, k, remove_empty).len() ==> is_clean(
                #[trigger] kept(ls, k, remove_empty)[i],
            ),
        cleaned_upto(ls, k, remove_empty, true) == fed(
            kept(ls, k, remove_empty),
            kept(ls, k, remove_empty).len() as int,
        ),
    decreases k,
{
    if k > 0 {
        lemma_cleaned_is_fed(ls, k - 1, remove_empty);
        let before = kept(ls, k - 1, remove_empty);
        if !(remove_empty && trim(ls[k - 1]).len() == 0) {
            let t = clean_line(ls[k - 1], true);
            lemma_collapsed_line_is_tidy(ls[k - 1]);
            let now = before.push(t);
            lemma_fed_of_prefix(now, before, before.len() as int);
            assert forall|i: int| 0 <= i < now.len() implies is_tidy(#[trigger] now[i]) by {
                if i < before.len() {
                    assert(now[i] == before[i]);
                }
            }
            if remove_empty {
                assert forall|i: int| 0 <= i < now.len() implies is_clean(#[trigger] now[i]) by {
                    if i < before.len() {
                        assert(now[i] == before[i]);
                    }
                }
            }
        }
    }
}

/// Whether a text is read back as one line when a line feed stands behind
/// it: it holds no line feed and does not end in a carriage return.
pub open spec fn is_plain(t: Seq<char>) -> bool {
    has_no_feed(t) && (t.len() == 0 || t.last() != '\r')
}

/// Plain lines, each with a line feed behind it, are read as these lines.
proof fn lemma_lines_of_fed(ts: Seq<Seq<char>>, n: int)
    requires
        0 <= n <= ts.len(),
        forall|i: int| 0 <= i < n ==> is_plain(#[trigger] ts[i]),
    ensures
        lines(fed(ts, n)) == ts.take(n),
    decreases n,
{
    if n == 0 {
        assert(lines(Seq::<char>::empty()) == Seq::<Seq<char>>::empty());
        assert(ts.take(0) =~= Seq::<Seq<char>>::empty());
    } else {
        lemma_lines_of_fed(ts, n - 1);
        let t = ts[n - 1];
        assert(is_plain(t));
        lemma_one_line(t);
        if n == 1 {
            assert(fed(ts, 0) == Seq::<char>::empty());
            assert(fed(ts, 1) =~= t.push('\n'));
            assert(ts.take(1) =~= seq![t]);
        } else {
            let p = ts[n - 2];
            let a = fed(ts, n - 2) + p;
            assert(fed(ts, n - 1) =~= a.push('\n'));
            lemma_lines_concat(a, t.push('\n'));
            assert(ts.take(n) =~= ts.take(n - 1) + seq![t]);
        }
    }
}

/// A tidy line is plain.
proof fn lemma_tidy_is_plain(t: Seq<char>)
    requires
        is_tidy(t),
    ensures
        is_plain(t),
{
    assert(is_space('\r'));
}

/// The cleanup writes tidy lines as they are, each with a line feed behind
/// it, as long as it meets no empty line that it would remove.
proof fn lemma_cleaned_of_tidy(ts: Seq<Seq<char>>, n: int, remove_empty: bool)
    requires
        0 <= n <= ts.len(),
        forall|i: int| 0 <= i < ts.len() ==> is_tidy(#[trigger] ts[i]),
        remove_empty ==> forall|i: int| 0 <= i < ts.len() ==> is_clean(#[trigger] ts[i]),
    ensures
        cleaned_upto(ts, n, remove_empty, true) == fed(ts, n),
    decreases n,
{
    if n > 0 {
        lemma_cleaned_of_tidy(ts, n - 1, remove_empty);
        let t = ts[n - 1];
        assert(is_tidy(t));
        lemma_trim_blank(t);
        if t.len() == 0 {
            lemma_collapsed_empty();
            assert(t =~= Seq::<char>::empty());
        } else {
            assert(is_clean(t));
        }
    }
}

/// What is left of fed tidy lines once trailing white space is dropped and
/// one line feed added: the lines up to the last that holds anything, each
/// with a line feed behind it, and a lone line feed when none holds
/// anything.
proof fn lemma_trim_end_of_fed(ts: Seq<Seq<char>>, n: int)
    requires
        0 <= n <= ts.len(),
        forall|i: int| 0 <= i < n ==> is_tidy(#[trigger] ts[i]),
    ensures
        0 <= up_to_last_full(ts, n) <= n,
        up_to_last_full(ts, n) > 0 ==> ts[up_to_last_full(ts, n) - 1].len() > 0,
        trim_end(fed(ts, n)) == trim_end(fed(ts, up_to_last_full(ts, n))),
        trim_end(fed(ts, n)).push('\n') == if up_to_last_full(ts, n) == 0 {
            seq!['\n']
        } else {
            fed(ts, up_to_last_full(ts, n))
        },
    decreases n,
{
    if n == 0 {
        assert(fed(ts, 0) == Seq::<char>::empty());
        assert(trim_end(Seq::<char>::empty()) =~= Seq::<char>::empty());
        assert(Seq::<char>::empty().push('\n') =~= seq!['\n']);
    } else {
        let t = ts[n - 1];
        assert(is_tidy(t));
        let before = fed(ts, n - 1);
        if t.len() == 0 {
            lemma_trim_end_of_fed(ts, n - 1);
            assert(fed(ts, n) =~= before.push('\n'));
            lemma_trim_end_after_space(before, '\n');
        } else {
            let body = before + t;
            assert(fed(ts, n) =~= body.push('\n'));
            assert(body.last() == t.last());
            lemma_trim_end_of_line(body);
        }
    }
}

/// A white space at the end of a text is dropped with the white space
/// before it.
proof fn lemma_trim_end_after_space(s: Seq<char>, sp: char)
    requires
        is_space(sp),
    ensures
        trim_end(s.push(sp)) == trim_end(s),
{
    let t = s.push(sp);
    let n = s.len() as int;
    assert(t[n] == sp);
    lemma_drop_spaces_prefix(s, t, n);
    crate::text::lemma_drop_spaces_bounds(s, n);
    assert(t.subrange(0, crate::text::drop_spaces(s, n)) =~= s.subrange(
        0,
        crate::text::drop_spaces(s, n),
    ));
}

/// Dropping trailing white space before an index depends on the text before
/// that index alone.
proof fn lemma_drop_spaces_prefix(s: Seq<char>, t: Seq<char>, j: int)
    requires
        0 <= j <= s.len(),
        j <= t.len(),
        forall|k: int| 0 <= k < j ==> s[k] == t[k],
    ensures
        crate::text::drop_spaces(t, j) == crate::text::drop_spaces(s, j),
    decreases j,
{
    if j > 0 && is_space(s[j - 1]) {
        lemma_drop_spaces_prefix(s, t, j - 1);
    }
}

/// Cleaning up with white space collapsed changes nothing in a text that was
/// cleaned up so, whether or not empty lines are removed.
pub proof fn lemma_cleanup_is_idempotent(s: Seq<char>, remove_empty: bool)
    ensures
        clean_text(clean_text(s, remove_empty, true), remove_empty, true) == clean_text(
            s,
            remove_empty,
            true,
        ),
{
    let ls = lines(s);
    let ts = kept(ls, ls.len() as int, remove_empty);
    let n = ts.len() as int;
    lemma_cleaned_is_fed(ls, ls.len() as int, remove_empty);
    lemma_trim_end_of_fed(ts, n);
    let m = up_to_last_full(ts, n);
    let once = clean_text(s, remove_empty, true);
    if m == 0 {
        let e = Seq::<char>::empty();
        assert(once == seq!['\n']);
        assert(once =~= e.push('\n'));
        lemma_one_line(e);
        let again = lines(once);
        assert(again[0] == e);
        lemma_trim_blank(e);
        assert(is_blank(e));
        lemma_collapsed_empty();
        assert(cleaned_upto(again, 0, remove_empty, true) == e);
        if remove_empty {
            assert(cleaned_upto(again, 1, remove_empty, true) == e);
            assert(trim_end(e) =~= e);
        } else {
            assert(cleaned_upto(again, 1, remove_empty, true) =~= e.push('\n'));
            assert(is_space('\n'));
            lemma_trim_end_after_space(e, '\n');
            assert(trim_end(e) =~= e);
        }
    } else {
        let us = ts.take(m);
        assert(once == fed(ts, m));
        lemma_fed_of_prefix(ts, us, m);
        assert forall|i: int| 0 <= i < us.len() implies is_tidy(#[trigger] us[i]) by {
            assert(us[i] == ts[i]);
        }
        if remove_empty {
            assert forall|i: int| 0 <= i < us.len() implies is_clean(#[trigger] us[i]) by {
                assert(us[i] == ts[i]);
            }
        }
        assert forall|i: int| 0 <= i < m implies is_plain(#[trigger] us[i]) by {
            lemma_tidy_is_plain(us[i]);
        }
        lemma_lines_of_fed(us, m);
        assert(us.take(m) =~= us);
        lemma_cleaned_of_tidy(us, m, remove_empty);
        lemma_trim_end_of_fed(us, m);
        assert(us[m - 1] == ts[m - 1]);
        assert(up_to_last_full(us, m) == m);
    }
}

/// The lines among the first `k` that are not blank.
pub open spec fn full_lines(ls: Seq<Seq<char>>, k: int) -> Seq<Seq<char>>
    decreases k,
{
    if k <= 0 || k > ls.len() {
        Seq::empty()
    } else if trim(ls[k - 1]).len() == 0 {
        full_lines(ls, k - 1)
    } else {
        full_lines(ls, k - 1).push(ls[k - 1])
    }
}

/// Whether no line of a text that is not blank ends in a carriage return,
/// but for the last such line.
pub open spec fn returns_only_at_end(s: Seq<char>) -> bool {
    let full = full_lines(lines(s), lines(s).len() as int);
    forall|i: int| 0 <= i < full.len() - 1 ==> (#[trigger] full[i]).last() != '\r'
}

/// With empty lines removed and white space left as it is, the cleanup
/// writes the lines that are not blank, each with a line feed behind it.
proof fn lemma_cleaned_is_full_lines(ls: Seq<Seq<char>>, k: int)
    requires
        0 <= k <= ls.len(),
        forall|i: int| 0 <= i < ls.len() ==> has_no_feed(#[trigger] ls[i]),
    ensures
        forall|i: int|
            0 <= i < full_lines(ls, k).len() ==> has_no_feed(#[trigger] full_lines(ls, k)[i])
                && !is_blank(full_lines(ls, k)[i]),
        cleaned_upto(ls, k, true, false) == fed(full_lines(ls, k), full_lines(ls, k).len() as int),
    decreases k,
{
    if k > 0 {
        lemma_cleaned_is_full_lines(ls, k - 1);
        let before = full_lines(ls, k - 1);
        let l = ls[k - 1];
        lemma_trim_blank(l);
        if trim(l).len() > 0 {
            let now = before.push(l);
            lemma_fed_of_prefix(now, before, before.len() as int);
            assert(has_no_feed(l));
            assert forall|i: int| 0 <= i < now.len() implies has_no_feed(#[trigger] now[i])
                && !is_blank(now[i]) by {
                if i < before.len() {
                    assert(now[i] == before[i]);
                }
            }
        }
    }
}

/// With empty lines removed and white space left as it is, the cleanup
/// writes lines that are not blank as they are, each with a line feed behind
/// it.
proof fn lemma_cleaned_of_full(ts: Seq<Seq<char>>, n: int)
    requires
        0 <= n <= ts.len(),
        forall|i: int| 0 <= i < n ==> !is_blank(#[trigger] ts[i]),
    ensures
        cleaned_upto(ts, n, true, false) == fed(ts, n),
    decreases n,
{
    if n > 0 {
        lemma_cleaned_of_full(ts, n - 1);
        assert(!is_blank(ts[n - 1]));
        lemma_trim_blank(ts[n - 1]);
    }
}

/// Trailing white space behind the last of some fed lines, which is not
/// blank, is dropped from that line alone.
proof fn lemma_trim_end_of_fed_full(ts: Seq<Seq<char>>, n: int)
    requires
        0 < n <= ts.len(),
        !is_blank(ts[n - 1]),
    ensures
        trim_end(fed(ts, n)) == fed(ts, n - 1) + trim_end(ts[n - 1]),
{
    let l = ts[n - 1];
    let p = fed(ts, n - 1);
    let k = choose|k: int| 0 <= k < l.len() && !is_space(#[trigger] l[k]);
    let tail = l.push('\n');
    assert(tail[k] == l[k]);
    assert(!is_blank(tail));
    lemma_trim_end_of_tail(p, tail);
    assert(is_space('\n'));
    lemma_trim_end_after_space(l, '\n');
}

/// Removing empty lines with white space left as it is changes nothing in a
/// text that was cleaned up so, as long as no line that was kept ended in a
/// carriage return, but for the last.
pub proof fn lemma_removal_is_idempotent(s: Seq<char>)
    requires
        returns_only_at_end(s),
    ensures
        clean_text(clean_text(s, true, false), true, false) == clean_text(s, true, false),
{
    let ls = lines(s);
    let full = full_lines(ls, ls.len() as int);
    let m = full.len() as int;
    let once = clean_text(s, true, false);
    let e = Seq::<char>::empty();
    lemma_lines_hold_no_feed(s);
    lemma_cleaned_is_full_lines(ls, ls.len() as int);
    if m == 0 {
        assert(fed(full, 0) == e);
        assert(trim_end(e) =~= e);
        assert(once =~= e.push('\n'));
        lemma_one_line(e);
        let again = lines(once);
        assert(again[0] == e);
        assert(is_blank(e));
        lemma_trim_blank(e);
        assert(cleaned_upto(again, 0, true, false) == e);
        assert(cleaned_upto(again, 1, true, false) == e);
    } else {
        let last = full[m - 1];
        let end = trim_end(last);
        let p = fed(full, m - 1);
        assert(!is_blank(last));
        assert(has_no_feed(last));
        lemma_trim_end_of_fed_full(full, m);
        lemma_trim_end_of_full(last);
        let us = full.take(m - 1).push(end);
        lemma_fed_of_prefix(us, full, m - 1);
        assert(us[m - 1] == end);
        assert(fed(us, m) =~= p + end.push('\n'));
        assert(once =~= fed(us, m));
        assert(is_space('\r'));
        assert forall|i: int| 0 <= i < m implies is_plain(#[trigger] us[i]) && !is_blank(us[i]) by {
            if i < m - 1 {
                assert(us[i] == full[i]);
                assert(!is_blank(full[i]));
            }
        }
        lemma_lines_of_fed(us, m);
        assert(us.take(m) =~= us);
        lemma_cleaned_of_full(us, m);
        lemma_trim_end_of_fed_full(us, m);
    }
}

/// Optimizing a second time changes nothing, once truncation has nothing
/// left to drop: a program that came out of the optimizer, and that
/// truncation (where it is enabled) leaves as it is, comes out of the
/// optimizer unchanged. Where empty lines are removed and white space is
/// left as it is, this holds as long as no line that the cleanup keeps ends
/// in a carriage return, but for the last: such a line would lose it the
/// second time.
pub proof fn lemma_optimize_is_idempotent(o: OptimizerOptions, x: Seq<char>)
    requires
        o.truncate_decimals ==> truncate_text(optimized(o, x), o.decimal_places as nat)
            == optimized(o, x),
        o.remove_empty_lines && !o.collapse_whitespace ==> returns_only_at_end(
            if o.truncate_decimals {
                truncate_text(x, o.decimal_places as nat)
            } else {
                x
            },
        ),
    ensures
        optimized(o, optimized(o, x)) == optimized(o, x),
{
    let a = if o.truncate_decimals {
        truncate_text(x, o.decimal_places as nat)
    } else {
        x
    };
    if o.collapse_whitespace {
        lemma_cleanup_is_idempotent(a, o.remove_empty_lines);
    } else if o.remove_empty_lines {
        lemma_removal_is_idempotent(a);
    }
}

} // verus!
