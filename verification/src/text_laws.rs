//! Laws of lines, words and joining.

use vstd::prelude::*;
use crate::text::{
    is_space, skip_spaces, drop_spaces, trim, trim_end, strip_cr, lines, lines_scan, words,
    words_scan, word_if_any, join, lemma_skip_spaces_bounds, lemma_drop_spaces_bounds,
    lemma_words_scan_run,
};

verus! {

/// Whether a text holds nothing but white space.
pub open spec fn is_blank(s: Seq<char>) -> bool {
    forall|k: int| 0 <= k < s.len() ==> is_space(#[trigger] s[k])
}

/// Whether a text is a word: it holds something, and no white space.
pub open spec fn is_word(w: Seq<char>) -> bool {
    w.len() > 0 && forall|k: int| 0 <= k < w.len() ==> !is_space(#[trigger] w[k])
}

/// Whether every text of a sequence is a word.
pub open spec fn all_words(ws: Seq<Seq<char>>) -> bool {
    forall|i: int| 0 <= i < ws.len() ==> is_word(#[trigger] ws[i])
}

/// Trimming leaves nothing exactly of a blank text.
pub proof fn lemma_trim_blank(s: Seq<char>)
    ensures
        trim(s).len() == 0 <==> is_blank(s),
{
    lemma_skip_spaces_bounds(s, 0);
    lemma_drop_spaces_bounds(s, s.len() as int);
    let a = skip_spaces(s, 0);
    let b = drop_spaces(s, s.len() as int);
    if is_blank(s) {
        if a < s.len() {
            assert(is_space(s[a]));
        }
        if b > 0 {
            assert(is_space(s[b - 1]));
        }
    } else {
        let k = choose|k: int| 0 <= k < s.len() && !is_space(#[trigger] s[k]);
        if k < a {
            assert(is_space(s[k]));
        }
        if k >= b {
            assert(is_space(s[k]));
        }
    }
}

/// What is scanned in a text that follows another is what is scanned in the
/// text alone.
pub proof fn lemma_words_scan_shift(x: Seq<char>, b: Seq<char>, start: int, i: int)
    requires
        0 <= start <= i <= b.len(),
    ensures
        words_scan(x + b, x.len() as int + start, x.len() as int + i) == words_scan(b, start, i),
    decreases b.len() - i,
{
    let s = x + b;
    let n = x.len() as int;
    assert forall|p: int, q: int| 0 <= p <= q <= b.len() implies #[trigger] s.subrange(n + p, n + q)
        == b.subrange(p, q) by {
        assert(s.subrange(n + p, n + q) =~= b.subrange(p, q));
    }
    if i < b.len() {
        assert(s[n + i] == b[i]);
        if is_space(b[i]) {
            lemma_words_scan_shift(x, b, i + 1, i + 1);
            assert(word_if_any(s, n + start, n + i) == word_if_any(b, start, i));
        } else {
            lemma_words_scan_shift(x, b, start, i + 1);
        }
    } else {
        assert(word_if_any(s, n + start, s.len() as int) == word_if_any(b, start, b.len() as int));
    }
}

/// Up to a white space, a text is scanned as if it ended there.
pub proof fn lemma_words_scan_prefix(a: Seq<char>, sp: char, b: Seq<char>, start: int, i: int)
    requires
        is_space(sp),
        0 <= start <= i <= a.len(),
    ensures
        words_scan(a + seq![sp] + b, start, i) == words_scan(a, start, i) + words_scan(
            a + seq![sp] + b,
            a.len() as int + 1,
            a.len() as int + 1,
        ),
    decreases a.len() - i,
{
    let s = a + seq![sp] + b;
    let n = a.len() as int;
    assert forall|p: int, q: int| 0 <= p <= q <= n implies #[trigger] s.subrange(p, q)
        == a.subrange(p, q) by {
        assert(s.subrange(p, q) =~= a.subrange(p, q));
    }
    if i < n {
        assert(s[i] == a[i]);
        if is_space(a[i]) {
            lemma_words_scan_prefix(a, sp, b, i + 1, i + 1);
            assert(word_if_any(s, start, i) == word_if_any(a, start, i));
            assert(words_scan(s, start, i) =~= words_scan(a, start, i) + words_scan(s, n + 1, n + 1));
        } else {
            lemma_words_scan_prefix(a, sp, b, start, i + 1);
        }
    } else {
        assert(s[n] == sp);
        assert(word_if_any(s, start, n) == word_if_any(a, start, n));
    }
}

/// The words of two texts with a white space between them are the words of
/// the first and then the words of the second.
pub proof fn lemma_words_concat(a: Seq<char>, sp: char, b: Seq<char>)
    requires
        is_space(sp),
    ensures
        words(a + seq![sp] + b) == words(a) + words(b),
{
    lemma_words_scan_prefix(a, sp, b, 0, 0);
    lemma_words_scan_shift(a + seq![sp], b, 0, 0);
}

/// A word is its own only word.
pub proof fn lemma_word_alone(w: Seq<char>)
    requires
        is_word(w),
    ensures
        words(w) == seq![w],
{
    lemma_words_scan_run(w, 0, 0, w.len() as int);
    assert(w.subrange(0, w.len() as int) == w);
}

/// Everything that a scan finds is a word.
pub proof fn lemma_scan_finds_words(s: Seq<char>, start: int, i: int)
    requires
        0 <= start <= i <= s.len(),
        forall|k: int| start <= k < i ==> !is_space(#[trigger] s[k]),
    ensures
        all_words(words_scan(s, start, i)),
    decreases s.len() - i,
{
    if i < s.len() {
        if is_space(s[i]) {
            lemma_scan_finds_words(s, i + 1, i + 1);
            let head = word_if_any(s, start, i);
            let tail = words_scan(s, i + 1, i + 1);
            assert forall|j: int| 0 <= j < (head + tail).len() implies is_word(
                #[trigger] (head + tail)[j],
            ) by {
                if j < head.len() {
                    assert((head + tail)[j] == s.subrange(start, i));
                    assert forall|k: int| 0 <= k < s.subrange(start, i).len() implies !is_space(
                        #[trigger] s.subrange(start, i)[k],
                    ) by {
                        assert(s.subrange(start, i)[k] == s[start + k]);
                    }
                } else {
                    assert((head + tail)[j] == tail[j - head.len()]);
                }
            }
        } else {
            lemma_scan_finds_words(s, start, i + 1);
        }
    } else {
        let head = word_if_any(s, start, s.len() as int);
        assert forall|j: int| 0 <= j < head.len() implies is_word(#[trigger] head[j]) by {
            let w = s.subrange(start, s.len() as int);
            assert forall|k: int| 0 <= k < w.len() implies !is_space(#[trigger] w[k]) by {
                assert(w[k] == s[start + k]);
            }
        }
    }
}

/// The words of a text are words.
pub proof fn lemma_words_are_words(s: Seq<char>)
    ensures
        all_words(words(s)),
{
    lemma_scan_finds_words(s, 0, 0);
}

/// A run that has begun ends as a word.
pub proof fn lemma_open_word_counts(s: Seq<char>, start: int, i: int)
    requires
        0 <= start < i <= s.len(),
    ensures
        words_scan(s, start, i).len() > 0,
    decreases s.len() - i,
{
    if i < s.len() && !is_space(s[i]) {
        lemma_open_word_counts(s, start, i + 1);
    }
}

/// A text with a character that is no white space has a word.
pub proof fn lemma_scan_has_word(s: Seq<char>, start: int, i: int, k: int)
    requires
        0 <= start <= i <= k < s.len(),
        !is_space(s[k]),
    ensures
        words_scan(s, start, i).len() > 0,
    decreases s.len() - i,
{
    if is_space(s[i]) {
        lemma_scan_has_word(s, i + 1, i + 1, k);
    } else if i == k {
        lemma_open_word_counts(s, start, i + 1);
    } else {
        lemma_scan_has_word(s, start, i + 1, k);
    }
}

/// A blank text has no word.
pub proof fn lemma_blank_scan(s: Seq<char>, i: int)
    requires
        is_blank(s),
        0 <= i <= s.len(),
    ensures
        words_scan(s, i, i) == Seq::<Seq<char>>::empty(),
    decreases s.len() - i,
{
    if i < s.len() {
        lemma_blank_scan(s, i + 1);
    }
}

/// A text has no word exactly when it is blank.
pub proof fn lemma_words_of_blank(s: Seq<char>)
    ensures
        words(s).len() == 0 <==> is_blank(s),
{
    if is_blank(s) {
        lemma_blank_scan(s, 0);
    } else {
        let k = choose|k: int| 0 <= k < s.len() && !is_space(#[trigger] s[k]);
        lemma_scan_has_word(s, 0, 0, k);
    }
}

/// Words joined by blanks are found again as they were.
pub proof fn lemma_words_of_join(ws: Seq<Seq<char>>)
    requires
        all_words(ws),
    ensures
        words(join(ws, seq![' '])) == ws,
    decreases ws.len(),
{
    if ws.len() == 0 {
        assert(words(Seq::<char>::empty()) == Seq::<Seq<char>>::empty());
        assert(ws =~= Seq::<Seq<char>>::empty());
    } else if ws.len() == 1 {
        lemma_word_alone(ws[0]);
        assert(ws =~= seq![ws[0]]);
    } else {
        let head = ws.drop_last();
        let w = ws.last();
        assert(all_words(head)) by {
            assert forall|i: int| 0 <= i < head.len() implies is_word(#[trigger] head[i]) by {
                assert(head[i] == ws[i]);
            }
        }
        assert(is_word(w));
        lemma_words_of_join(head);
        lemma_words_concat(join(head, seq![' ']), ' ', w);
        lemma_word_alone(w);
        assert(head + seq![w] =~= ws);
    }
}

/// A scan that crosses no line feed leaves the lines to come as they are.
pub proof fn lemma_lines_scan_run(s: Seq<char>, start: int, i: int, j: int)
    requires
        0 <= i <= j <= s.len(),
        forall|k: int| i <= k < j ==> #[trigger] s[k] != '\n',
    ensures
        lines_scan(s, start, i) == lines_scan(s, start, j),
    decreases j - i,
{
    if i < j {
        lemma_lines_scan_run(s, start, i + 1, j);
    }
}

/// A text without a line feed that does not end in a carriage return, with a
/// line feed behind it, is one line.
pub proof fn lemma_one_line(t: Seq<char>)
    requires
        forall|k: int| 0 <= k < t.len() ==> #[trigger] t[k] != '\n',
        t.len() == 0 || t.last() != '\r',
    ensures
        lines(t.push('\n')) == seq![t],
{
    let s = t.push('\n');
    let n = t.len() as int;
    assert forall|k: int| 0 <= k < n implies #[trigger] s[k] != '\n' by {
        assert(s[k] == t[k]);
    }
    lemma_lines_scan_run(s, 0, 0, n);
    assert(s[n] == '\n');
    assert(s.subrange(0, n) =~= t);
    assert(strip_cr(t) == t);
    assert(lines_scan(s, n + 1, n + 1) == Seq::<Seq<char>>::empty());
    assert(lines_scan(s, 0, n) =~= seq![t]);
}

/// What is scanned in a text that follows another is what is scanned in the
/// text alone.
pub proof fn lemma_lines_scan_shift(x: Seq<char>, b: Seq<char>, start: int, i: int)
    requires
        0 <= start <= i <= b.len(),
    ensures
        lines_scan(x + b, x.len() as int + start, x.len() as int + i) == lines_scan(b, start, i),
    decreases b.len() - i,
{
    let s = x + b;
    let n = x.len() as int;
    assert forall|p: int, q: int| 0 <= p <= q <= b.len() implies #[trigger] s.subrange(n + p, n + q)
        == b.subrange(p, q) by {
        assert(s.subrange(n + p, n + q) =~= b.subrange(p, q));
    }
    if i < b.len() {
        assert(s[n + i] == b[i]);
        if b[i] == '\n' {
            lemma_lines_scan_shift(x, b, i + 1, i + 1);
        } else {
            lemma_lines_scan_shift(x, b, start, i + 1);
        }
    } else {
        assert(s.subrange(n + start, s.len() as int) == b.subrange(start, b.len() as int));
    }
}

/// Up to a line feed, a text is scanned as if it ended behind it.
pub proof fn lemma_lines_scan_prefix(a: Seq<char>, b: Seq<char>, start: int, i: int)
    requires
        0 <= start <= i <= a.len(),
    ensures
        lines_scan(a.push('\n') + b, start, i) == lines_scan(a.push('\n'), start, i) + lines_scan(
            a.push('\n') + b,
            a.len() as int + 1,
            a.len() as int + 1,
        ),
    decreases a.len() - i,
{
    let f = a.push('\n');
    let s = f + b;
    let n = a.len() as int;
    assert forall|p: int, q: int| 0 <= p <= q <= n implies #[trigger] s.subrange(p, q)
        == f.subrange(p, q) by {
        assert(s.subrange(p, q) =~= f.subrange(p, q));
    }
    assert(s[i] == f[i]);
    if i < n {
        if f[i] == '\n' {
            lemma_lines_scan_prefix(a, b, i + 1, i + 1);
            assert(lines_scan(s, start, i) =~= lines_scan(f, start, i) + lines_scan(s, n + 1, n + 1));
        } else {
            lemma_lines_scan_prefix(a, b, start, i + 1);
        }
    } else {
        assert(f[n] == '\n');
        assert(lines_scan(f, n + 1, n + 1) == Seq::<Seq<char>>::empty());
        assert(lines_scan(f, start, n) =~= seq![strip_cr(f.subrange(start, n))]);
    }
}

/// The lines of a text behind a text that ends in a line feed are the lines
/// of the first and then the lines of the second.
pub proof fn lemma_lines_concat(a: Seq<char>, b: Seq<char>)
    ensures
        lines(a.push('\n') + b) == lines(a.push('\n')) + lines(b),
{
    lemma_lines_scan_prefix(a, b, 0, 0);
    lemma_lines_scan_shift(a.push('\n'), b, 0, 0);
}

/// Dropping trailing white space from a text that ends in a line feed behind
/// a character that is no white space drops the line feed and nothing more.
pub proof fn lemma_trim_end_of_line(t: Seq<char>)
    requires
        t.len() > 0,
        !is_space(t.last()),
    ensures
        trim_end(t.push('\n')) == t,
{
    let s = t.push('\n');
    let n = s.len() as int;
    assert(is_space('\n'));
    assert(s[n - 1] == '\n');
    assert(s[n - 2] == t.last());
    assert(drop_spaces(s, n - 1) == n - 1);
    assert(drop_spaces(s, n) == n - 1);
    assert(s.subrange(0, n - 1) =~= t);
}

/// Whether a text holds no line feed.
pub open spec fn has_no_feed(t: Seq<char>) -> bool {
    forall|k: int| 0 <= k < t.len() ==> #[trigger] t[k] != '\n'
}

/// The lines that a scan finds hold no line feed.
pub proof fn lemma_scanned_lines_hold_no_feed(s: Seq<char>, start: int, i: int)
    requires
        0 <= start <= i <= s.len(),
        forall|k: int| start <= k < i ==> #[trigger] s[k] != '\n',
    ensures
        forall|j: int|
            0 <= j < lines_scan(s, start, i).len() ==> has_no_feed(
                #[trigger] lines_scan(s, start, i)[j],
            ),
    decreases s.len() - i,
{
    let found = lines_scan(s, start, i);
    if i >= s.len() {
        if start < s.len() {
            let t = s.subrange(start, s.len() as int);
            assert forall|k: int| 0 <= k < t.len() implies #[trigger] t[k] != '\n' by {
                assert(t[k] == s[start + k]);
            }
            assert(has_no_feed(t));
            assert(found =~= seq![t]);
        } else {
            assert(found =~= Seq::<Seq<char>>::empty());
        }
    } else if s[i] == '\n' {
        let t = s.subrange(start, i);
        assert forall|k: int| 0 <= k < t.len() implies #[trigger] t[k] != '\n' by {
            assert(t[k] == s[start + k]);
        }
        let head = strip_cr(t);
        assert(has_no_feed(t));
        assert(has_no_feed(head)) by {
            assert forall|k: int| 0 <= k < head.len() implies #[trigger] head[k] != '\n' by {
                assert(head[k] == t[k]);
            }
        }
        lemma_scanned_lines_hold_no_feed(s, i + 1, i + 1);
        let rest = lines_scan(s, i + 1, i + 1);
        assert forall|j: int| 0 <= j < found.len() implies has_no_feed(#[trigger] found[j]) by {
            if j == 0 {
                assert(found[0] == head);
            } else {
                assert(found[j] == rest[j - 1]);
            }
        }
    } else {
        lemma_scanned_lines_hold_no_feed(s, start, i + 1);
        assert(found == lines_scan(s, start, i + 1));
    }
}

/// The lines of a text hold no line feed.
pub proof fn lemma_lines_hold_no_feed(s: Seq<char>)
    ensures
        forall|j: int| 0 <= j < lines(s).len() ==> has_no_feed(#[trigger] lines(s)[j]),
{
    lemma_scanned_lines_hold_no_feed(s, 0, 0);
}

/// Behind another text, trailing white space is dropped down to the same
/// character, as long as one that is no white space stands before the end.
pub proof fn lemma_drop_spaces_shift(x: Seq<char>, y: Seq<char>, j: int, k: int)
    requires
        0 <= k < j <= y.len(),
        !is_space(y[k]),
    ensures
        drop_spaces(x + y, x.len() as int + j) == x.len() as int + drop_spaces(y, j),
    decreases j,
{
    let s = x + y;
    assert(s[x.len() as int + j - 1] == y[j - 1]);
    if is_space(y[j - 1]) {
        lemma_drop_spaces_shift(x, y, j - 1, k);
    }
}

/// Trailing white space of a text that is not blank is dropped alike when the
/// text stands behind another.
pub proof fn lemma_trim_end_of_tail(x: Seq<char>, y: Seq<char>)
    requires
        !is_blank(y),
    ensures
        trim_end(x + y) == x + trim_end(y),
{
    let k = choose|k: int| 0 <= k < y.len() && !is_space(#[trigger] y[k]);
    lemma_drop_spaces_shift(x, y, y.len() as int, k);
    lemma_drop_spaces_bounds(y, y.len() as int);
    assert(trim_end(x + y) =~= x + trim_end(y));
}

/// What is left of a text that is not blank once its trailing white space is
/// dropped: a text that is not blank, ends in a character that is no white
/// space, and has no trailing white space left to drop.
pub proof fn lemma_trim_end_of_full(l: Seq<char>)
    requires
        !is_blank(l),
    ensures
        trim_end(l).len() > 0,
        !is_space(trim_end(l).last()),
        !is_blank(trim_end(l)),
        trim_end(trim_end(l)) == trim_end(l),
        has_no_feed(l) ==> has_no_feed(trim_end(l)),
{
    let n = l.len() as int;
    let d = drop_spaces(l, n);
    lemma_drop_spaces_bounds(l, n);
    if d == 0 {
        assert(is_blank(l));
    }
    let t = trim_end(l);
    assert(t.last() == l[d - 1]);
    assert(drop_spaces(t, d) == d);
    assert(trim_end(t) =~= t);
    if has_no_feed(l) {
        assert forall|k: int| 0 <= k < t.len() implies #[trigger] t[k] != '\n' by {
            assert(t[k] == l[k]);
        }
    }
}

} // verus!
