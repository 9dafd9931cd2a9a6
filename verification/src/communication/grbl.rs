//! GRBL version banner parsing.

use vstd::prelude::*;
use crate::text::{
    is_digit, is_space, words, views, chars_of, split_words, spells, slice, decimal, digit_char,
    lemma_two_words, lemma_decimal_digits,
};
use crate::decimal::{all_digits, digits_value, point_at};

verus! {

/// GRBL version information.
#[derive(Debug, Clone, Copy, PartialEq, Eq, Structural)]
pub struct VersionInfo {
    pub major: u32,
    pub minor: u32,
    pub patch: char,
}

/// The first index at or after `i` that holds no `v` (or the length).
pub open spec fn skip_v(s: Seq<char>, i: int) -> int
    decreases s.len() - i,
{
    if 0 <= i < s.len() && s[i] == 'v' {
        skip_v(s, i + 1)
    } else {
        i
    }
}

/// What an unsigned 32-bit numeral denotes: an optional `+`, then at least
/// one digit, and a value that fits.
pub open spec fn u32_of(s: Seq<char>) -> Option<u32> {
    let body = if s.len() > 0 && s[0] == '+' {
        s.subrange(1, s.len() as int)
    } else {
        s
    };
    if body.len() > 0 && all_digits(body) && digits_value(body) <= u32::MAX {
        Some(digits_value(body) as u32)
    } else {
        None
    }
}

/// The version that a word such as `v1.1h` spells: leading `v`s are skipped,
/// the major number runs to the first point, the minor number is the one
/// digit behind it and the patch letter the character after that (`0` when
/// none follows before the next point).
pub open spec fn version_of_word(w: Seq<char>) -> Option<VersionInfo> {
    let v = w.subrange(skip_v(w, 0), w.len() as int);
    let p = point_at(v, 0);
    if p < v.len() {
        let rest = v.subrange(p + 1, v.len() as int);
        let minor = rest.subrange(0, point_at(rest, 0));
        match u32_of(v.subrange(0, p)) {
            Some(major) => if minor.len() > 0 && is_digit(minor[0]) {
                Some(
                    VersionInfo {
                        major,
                        minor: ((minor[0] as u32) - 48) as u32,
                        patch: if minor.len() > 1 {
                            minor[1]
                        } else {
                            '0'
                        },
                    },
                )
            } else {
                None
            },
            None => None,
        }
    } else {
        None
    }
}

/// The version that a banner such as `GRBL v1.1h` announces.
pub open spec fn version_of(s: Seq<char>) -> Option<VersionInfo> {
    let parts = words(s);
    if parts.len() >= 2 && parts[0] == "GRBL"@ {
        version_of_word(parts[1])
    } else {
        None
    }
}

/// Reads an unsigned 32-bit numeral.
pub fn read_u32(v: &Vec<char>) -> (r: Option<u32>)
    ensures
        r == u32_of(v@),
{
    let from: usize = if v.len() > 0 && v[0] == '+' {
        1
    } else {
        0
    };
    let ghost body = v@.subrange(from as int, v.len() as int);
    assert(from == 0 ==> body == v@);
    if from >= v.len() {
        return None;
    }
    let mut acc: u64 = 0;
    let mut i: usize = from;
    while i < v.len()
        invariant
            from <= i <= v.len(),
            from < v.len(),
            body == v@.subrange(from as int, v.len() as int),
            from == 0 ==> body == v@,
            from == (if v@.len() > 0 && v@[0] == '+' {
                1int
            } else {
                0int
            }),
            all_digits(body.take(i - from)),
            acc == digits_value(body.take(i - from)),
            acc <= u32::MAX,
        decreases v.len() - i,
    {
        let c = v[i];
        assert(body[i - from] == c);
        if !('0' <= c && c <= '9') {
            assert(!all_digits(body));
            return None;
        }
        let d: u64 = (c as u32 - 48) as u64;
        let ghost next = body.take(i - from + 1);
        assert(next.drop_last() == body.take(i - from));
        assert(next.last() == c);
        acc = acc * 10 + d;
        if acc > u32::MAX as u64 {
            proof {
                lemma_digits_value_grows(body, i - from + 1);
            }
            return None;
        }
        assert forall|k: int| 0 <= k < next.len() implies is_digit(#[trigger] next[k]) by {
            if k < i - from {
                assert(next[k] == body.take(i - from)[k]);
            }
        }
        i += 1;
    }
    assert(body.take(body.len() as int) == body);
    Some(acc as u32)
}

/// A run of digits is worth at least as much as each of its prefixes.
pub proof fn lemma_digits_value_grows(s: Seq<char>, n: int)
    requires
        0 <= n <= s.len(),
    ensures
        digits_value(s.take(n)) <= digits_value(s),
    decreases s.len() - n,
{
    if n < s.len() {
        lemma_digits_value_grows(s, n + 1);
        assert(s.take(n + 1).drop_last() == s.take(n));
    } else {
        assert(s.take(n) == s);
    }
}

/// The value of the decimal numeral of a number is the number.
pub proof fn lemma_decimal_value(n: nat)
    ensures
        all_digits(decimal(n)),
        digits_value(decimal(n)) == n,
    decreases n,
{
    lemma_decimal_digits(n);
    let d = (n % 10) as int;
    assert((digit_char(d) as u32) - 48 == d);
    assert(decimal(n).last() == digit_char(d));
    if n >= 10 {
        lemma_decimal_value(n / 10);
        assert(decimal(n).drop_last() == decimal(n / 10));
    } else {
        assert(decimal(n).drop_last() == Seq::<char>::empty());
        assert(digits_value(decimal(n).drop_last()) == 0);
    }
}

/// A prefix without a point is passed over when the first point is sought.
pub proof fn lemma_point_after_run(s: Seq<char>, i: int, j: int)
    requires
        0 <= i <= j <= s.len(),
        forall|k: int| i <= k < j ==> #[trigger] s[k] != '.',
    ensures
        point_at(s, i) == point_at(s, j),
    decreases j - i,
{
    if i < j {
        lemma_point_after_run(s, i + 1, j);
    }
}

/// The banner `GRBL vX.Yz` of a major number `X`, a one-digit minor number
/// `Y` and a patch letter `z`.
pub open spec fn banner(major: u32, minor: u32, patch: char) -> Seq<char> {
    "GRBL"@ + seq![' '] + (seq!['v'] + decimal(major as nat) + seq![
        '.',
        digit_char(minor as int),
        patch,
    ])
}

/// Parsing recovers the version that a banner was written from, whatever the
/// major number, the minor digit and the patch letter are, as long as the
/// letter is neither white space nor a point.
pub proof fn lemma_parse_recovers_version(major: u32, minor: u32, patch: char)
    requires
        minor <= 9,
        !is_space(patch),
        patch != '.',
    ensures
        version_of(banner(major, minor, patch)) == Some(VersionInfo { major, minor, patch }),
{
    reveal_strlit("GRBL");
    let name = "GRBL"@;
    let digits = decimal(major as nat);
    let tail = seq!['.', digit_char(minor as int), patch];
    let word = seq!['v'] + digits + tail;
    lemma_decimal_value(major as nat);
    lemma_decimal_digits(major as nat);
    let n = digits.len() as int;
    assert forall|k: int| 0 <= k < word.len() implies !is_space(#[trigger] word[k]) by {
        if 1 <= k <= n {
            assert(word[k] == digits[k - 1]);
            assert(is_digit(digits[k - 1]));
        }
    }
    assert forall|k: int| 0 <= k < name.len() implies !is_space(#[trigger] name[k]) by {}
    lemma_two_words(name, word);
    assert(words(banner(major, minor, patch)) == seq![name, word]);
    // the word
    assert(word[0] == 'v');
    assert(word[1] == digits[0]);
    assert(is_digit(digits[0]));
    assert(skip_v(word, 1) == 1);
    assert(skip_v(word, 0) == 1);
    let v = word.subrange(1, word.len() as int);
    assert(v == digits + tail);
    assert forall|k: int| 0 <= k < n implies #[trigger] v[k] != '.' by {
        assert(v[k] == digits[k]);
        assert(is_digit(digits[k]));
    }
    lemma_point_after_run(v, 0, n);
    assert(v[n] == '.');
    assert(point_at(v, n) == n);
    assert(v.subrange(0, n) == digits);
    assert(u32_of(digits) == Some(major));
    let rest = v.subrange(n + 1, v.len() as int);
    assert(rest == seq![digit_char(minor as int), patch]);
    assert(rest[0] != '.');
    assert(rest[1] != '.');
    assert(point_at(rest, 2) == 2);
    assert(point_at(rest, 1) == 2);
    assert(point_at(rest, 0) == 2);
    assert(rest.subrange(0, 2) == rest);
}

impl VersionInfo {
    /// Parses the version out of a banner such as `GRBL v1.1h`.
    pub fn parse(response: &str) -> (r: Option<VersionInfo>)
        ensures
            r == version_of(response@),
    {
        let text = chars_of(response);
        let parts = split_words(&text);
        assert(views(parts@).len() == parts@.len());
        if parts.len() < 2 || !spells(&parts[0], "GRBL") {
            assert(parts.len() >= 2 ==> views(parts@)[0] == parts@[0]@);
            return None;
        }
        assert(views(parts@)[0] == parts@[0]@);
        assert(views(parts@)[1] == parts@[1]@);
        Self::parse_word(&parts[1])
    }

    /// Parses the version out of a word such as `v1.1h`.
    pub fn parse_word(w: &Vec<char>) -> (r: Option<VersionInfo>)
        ensures
            r == version_of_word(w@),
    {
        let mut a: usize = 0;
        while a < w.len() && w[a] == 'v'
            invariant
                a <= w.len(),
                skip_v(w@, a as int) == skip_v(w@, 0),
            decreases w.len() - a,
        {
            a += 1;
        }
        let v = slice(w, a, w.len());
        let p = first_point(&v);
        if p >= v.len() {
            return None;
        }
        let rest = slice(&v, p + 1, v.len());
        let q = first_point(&rest);
        let minor = slice(&rest, 0, q);
        let major_text = slice(&v, 0, p);
        match read_u32(&major_text) {
            Some(major) => {
                if minor.len() > 0 && '0' <= minor[0] && minor[0] <= '9' {
                    let patch = if minor.len() > 1 {
                        minor[1]
                    } else {
                        '0'
                    };
                    Some(VersionInfo { major, minor: minor[0] as u32 - 48, patch })
                } else {
                    None
                }
            },
            None => None,
        }
    }
}

/// Index of the first `.` (or the length).
pub fn first_point(v: &Vec<char>) -> (r: usize)
    ensures
        r == point_at(v@, 0),
        r <= v.len(),
{
    let mut k: usize = 0;
    while k < v.len() && v[k] != '.'
        invariant
            k <= v.len(),
            point_at(v@, k as int) == point_at(v@, 0),
        decreases v.len() - k,
    {
        k += 1;
    }
    k
}

} // verus!
