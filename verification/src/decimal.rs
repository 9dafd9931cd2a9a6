//! Decimal numerals as they occur behind a G-code letter.
//!
//! A numeric token is a run of digits, `.` and `-`. It denotes a number when
//! it is an optional leading `-`, digits, an optional `.` and more digits,
//! with at least one digit in all. All arithmetic on such tokens is exact: it
//! is done on the digits, never on a binary approximation.

use vstd::prelude::*;
use crate::text::{is_digit, char_is_digit, slice, extend};

verus! {

/// What a numeric token denotes: a sign, the digits before the point and the
/// digits after it.
pub ghost struct Number {
    pub negative: bool,
    pub whole: Seq<char>,
    pub fraction: Seq<char>,
}

/// Whether every character is a digit.
pub open spec fn all_digits(s: Seq<char>) -> bool {
    forall|i: int| 0 <= i < s.len() ==> is_digit(#[trigger] s[i])
}

/// Whether every character is `0`.
pub open spec fn all_zeros(s: Seq<char>) -> bool {
    forall|i: int| 0 <= i < s.len() ==> #[trigger] s[i] == '0'
}

/// Index of the first `.` at or after `i` (or the length).
pub open spec fn point_at(s: Seq<char>, i: int) -> int
    decreases s.len() - i,
{
    if 0 <= i < s.len() && s[i] != '.' {
        point_at(s, i + 1)
    } else {
        i
    }
}

/// The token without its leading `-`, if it has one.
pub open spec fn unsigned_part(s: Seq<char>) -> Seq<char> {
    if s.len() > 0 && s[0] == '-' {
        s.subrange(1, s.len() as int)
    } else {
        s
    }
}

/// The token split at its sign and its first point, whether or not the pieces
/// are digits.
pub open spec fn split_token(s: Seq<char>) -> Number {
    let body = unsigned_part(s);
    let p = point_at(body, 0);
    Number {
        negative: s.len() > 0 && s[0] == '-',
        whole: body.subrange(0, p),
        fraction: if p < body.len() {
            body.subrange(p + 1, body.len() as int)
        } else {
            Seq::empty()
        },
    }
}

/// Whether the pieces of a token are digits, with at least one digit in all.
pub open spec fn well_formed(n: Number) -> bool {
    all_digits(n.whole) && all_digits(n.fraction) && n.whole.len() + n.fraction.len() > 0
}

/// Whether the token denotes a number.
pub open spec fn is_number(s: Seq<char>) -> bool {
    well_formed(split_token(s))
}

/// The value of a run of digits.
pub open spec fn digits_value(s: Seq<char>) -> nat
    decreases s.len(),
{
    if s.len() == 0 {
        0
    } else {
        digits_value(s.drop_last()) * 10 + ((s.last() as u32) - 48) as nat
    }
}

/// The number is zero: every digit is `0`.
pub open spec fn is_zero(n: Number) -> bool {
    all_zeros(n.whole) && all_zeros(n.fraction)
}

/// The number is greater than the integer `limit`.
pub open spec fn exceeds(n: Number, limit: nat) -> bool {
    !n.negative && (digits_value(n.whole) > limit || (digits_value(n.whole) == limit && !all_zeros(
        n.fraction,
    )))
}

/// The number is less than zero.
pub open spec fn below_zero(n: Number) -> bool {
    n.negative && !is_zero(n)
}

/// The number is greater than zero.
pub open spec fn above_zero(n: Number) -> bool {
    !n.negative && !is_zero(n)
}

/// The first index at or after `i` that holds no `0` (or the length).
pub open spec fn skip_zeros(s: Seq<char>, i: int) -> int
    decreases s.len() - i,
{
    if 0 <= i < s.len() && s[i] == '0' {
        skip_zeros(s, i + 1)
    } else {
        i
    }
}

/// The end of the digits before `j` once trailing zeros are dropped.
pub open spec fn drop_zeros(s: Seq<char>, j: int) -> int
    decreases j,
{
    if 0 < j <= s.len() && s[j - 1] == '0' {
        drop_zeros(s, j - 1)
    } else {
        j
    }
}

/// The digits before the point without leading zeros; `0` if nothing is left.
pub open spec fn shown_whole(w: Seq<char>) -> Seq<char> {
    let a = skip_zeros(w, 0);
    if a >= w.len() {
        seq!['0']
    } else {
        w.subrange(a, w.len() as int)
    }
}

/// The digits after the point without trailing zeros.
pub open spec fn shown_fraction(f: Seq<char>) -> Seq<char> {
    f.subrange(0, drop_zeros(f, f.len() as int))
}

/// The sign as it is written: `-` or nothing.
pub open spec fn sign_text(negative: bool) -> Seq<char> {
    if negative {
        seq!['-']
    } else {
        Seq::empty()
    }
}

/// The shortest numeral of the number: no leading zeros, no trailing zeros
/// after the point, and no point without a digit behind it. The sign of the
/// token is kept, also on zero.
pub open spec fn render(n: Number) -> Seq<char> {
    let f = shown_fraction(n.fraction);
    if f.len() == 0 {
        sign_text(n.negative) + shown_whole(n.whole)
    } else {
        sign_text(n.negative) + shown_whole(n.whole) + seq!['.'] + f
    }
}

/// The number cut off after `places` digits behind the point: truncation
/// toward zero, never rounding.
pub open spec fn cut(n: Number, places: nat) -> Number {
    Number {
        negative: n.negative,
        whole: n.whole,
        fraction: if places < n.fraction.len() {
            n.fraction.subrange(0, places as int)
        } else {
            n.fraction
        },
    }
}

/// A numeric token truncated to `places` decimal places and written in its
/// shortest form; a token that denotes no number is left as it is.
pub open spec fn truncate_token(s: Seq<char>, places: nat) -> Seq<char> {
    if is_number(s) {
        render(cut(split_token(s), places))
    } else {
        s
    }
}

// ---------------------------------------------------------------------------
// Executable side
// ---------------------------------------------------------------------------

/// A number read from a numeric token.
pub struct Decimal {
    pub negative: bool,
    pub whole: Vec<char>,
    pub fraction: Vec<char>,
}

impl View for Decimal {
    type V = Number;

    open spec fn view(&self) -> Number {
        Number { negative: self.negative, whole: self.whole@, fraction: self.fraction@ }
    }
}

/// Values of whole parts are computed up to this cap; every limit they are
/// compared with lies below it.
pub const VALUE_CAP: u64 = 1_000_000_000_000;

/// A value, or the cap if the value lies beyond it.
pub open spec fn capped(v: nat) -> nat {
    if v < VALUE_CAP as nat {
        v
    } else {
        VALUE_CAP as nat
    }
}

fn only_digits(v: &Vec<char>) -> (r: bool)
    ensures
        r == all_digits(v@),
{
    let mut i: usize = 0;
    while i < v.len()
        invariant
            i <= v.len(),
            forall|k: int| 0 <= k < i ==> is_digit(#[trigger] v@[k]),
        decreases v.len() - i,
    {
        if !char_is_digit(v[i]) {
            return false;
        }
        i += 1;
    }
    true
}

fn only_zeros(v: &Vec<char>) -> (r: bool)
    ensures
        r == all_zeros(v@),
{
    let mut i: usize = 0;
    while i < v.len()
        invariant
            i <= v.len(),
            forall|k: int| 0 <= k < i ==> #[trigger] v@[k] == '0',
        decreases v.len() - i,
    {
        if v[i] != '0' {
            return false;
        }
        i += 1;
    }
    true
}

fn find_point(v: &Vec<char>, from: usize) -> (r: usize)
    requires
        from <= v.len(),
    ensures
        from <= r <= v.len(),
        r - from == point_at(v@.subrange(from as int, v.len() as int), 0),
{
    let ghost body = v@.subrange(from as int, v.len() as int);
    let mut k: usize = from;
    while k < v.len() && v[k] != '.'
        invariant
            from <= k <= v.len(),
            body == v@.subrange(from as int, v.len() as int),
            point_at(body, k - from) == point_at(body, 0),
        decreases v.len() - k,
    {
        assert(body[k - from] == v@[k as int]);
        k += 1;
    }
    assert(k < v.len() ==> body[k - from] == v@[k as int]);
    k
}

impl Decimal {
    /// Reads a numeric token; `None` when it denotes no number.
    pub fn parse(token: &Vec<char>) -> (r: Option<Decimal>)
        ensures
            r is Some <==> is_number(token@),
            r matches Some(d) ==> d@ == split_token(token@),
    {
        let negative = token.len() > 0 && token[0] == '-';
        let from: usize = if negative {
            1
        } else {
            0
        };
        let ghost body = unsigned_part(token@);
        assert(body == token@.subrange(from as int, token.len() as int));
        let p = find_point(token, from);
        let whole = slice(token, from, p);
        assert(whole@ == body.subrange(0, p - from));
        let fraction = if p < token.len() {
            let f = slice(token, p + 1, token.len());
            assert(f@ == body.subrange(p - from + 1, body.len() as int));
            f
        } else {
            Vec::new()
        };
        if only_digits(&whole) && only_digits(&fraction) && (whole.len() > 0 || fraction.len()
            > 0) {
            Some(Decimal { negative, whole, fraction })
        } else {
            None
        }
    }

    /// Whether every digit is `0`.
    pub fn is_zero(&self) -> (r: bool)
        ensures
            r == is_zero(self@),
    {
        only_zeros(&self.whole) && only_zeros(&self.fraction)
    }

    /// The value of the digits before the point, up to [`VALUE_CAP`].
    pub fn whole_value(&self) -> (r: u64)
        requires
            all_digits(self.whole@),
        ensures
            r == capped(digits_value(self.whole@)),
    {
        let mut acc: u64 = 0;
        let mut i: usize = 0;
        while i < self.whole.len()
            invariant
                i <= self.whole.len(),
                all_digits(self.whole@),
                acc == capped(digits_value(self.whole@.take(i as int))),
            decreases self.whole.len() - i,
        {
            let c = self.whole[i];
            assert(is_digit(self.whole@[i as int]));
            let d: u64 = (c as u32 - 48) as u64;
            assert(self.whole@.take(i + 1).drop_last() == self.whole@.take(i as int));
            assert(self.whole@.take(i + 1).last() == c);
            if acc >= VALUE_CAP {
                acc = VALUE_CAP;
            } else {
                let next: u64 = acc * 10 + d;
                acc = if next >= VALUE_CAP {
                    VALUE_CAP
                } else {
                    next
                };
            }
            i += 1;
        }
        assert(self.whole@.take(self.whole.len() as int) == self.whole@);
        acc
    }

    /// Whether the number is greater than `limit`.
    pub fn exceeds(&self, limit: u32) -> (r: bool)
        requires
            all_digits(self.whole@),
        ensures
            r == exceeds(self@, limit as nat),
    {
        if self.negative {
            return false;
        }
        let v = self.whole_value();
        v > limit as u64 || (v == limit as u64 && !only_zeros(&self.fraction))
    }

    /// Whether the number is less than zero.
    pub fn below_zero(&self) -> (r: bool)
        ensures
            r == below_zero(self@),
    {
        self.negative && !self.is_zero()
    }

    /// Whether the number is greater than zero.
    pub fn above_zero(&self) -> (r: bool)
        ensures
            r == above_zero(self@),
    {
        !self.negative && !self.is_zero()
    }

    /// The number cut off after `places` digits behind the point.
    pub fn cut(&self, places: usize) -> (r: Decimal)
        ensures
            r@ == cut(self@, places as nat),
    {
        let fraction = if places < self.fraction.len() {
            slice(&self.fraction, 0, places)
        } else {
            self.fraction.clone()
        };
        Decimal { negative: self.negative, whole: self.whole.clone(), fraction }
    }

    /// The shortest numeral of the number.
    pub fn render(&self) -> (r: Vec<char>)
        ensures
            r@ == render(self@),
    {
        let mut r: Vec<char> = Vec::new();
        if self.negative {
            r.push('-');
        }
        assert(r@ == sign_text(self.negative));
        let mut a: usize = 0;
        while a < self.whole.len() && self.whole[a] == '0'
            invariant
                a <= self.whole.len(),
                skip_zeros(self.whole@, a as int) == skip_zeros(self.whole@, 0),
            decreases self.whole.len() - a,
        {
            a += 1;
        }
        if a >= self.whole.len() {
            r.push('0');
            assert(r@ == sign_text(self.negative) + seq!['0']);
        } else {
            let w = slice(&self.whole, a, self.whole.len());
            extend(&mut r, &w);
        }
        assert(r@ == sign_text(self.negative) + shown_whole(self.whole@));
        let mut b: usize = self.fraction.len();
        while b > 0 && self.fraction[b - 1] == '0'
            invariant
                b <= self.fraction.len(),
                drop_zeros(self.fraction@, b as int) == drop_zeros(
                    self.fraction@,
                    self.fraction.len() as int,
                ),
            decreases b,
        {
            b -= 1;
        }
        if b > 0 {
            r.push('.');
            let f = slice(&self.fraction, 0, b);
            extend(&mut r, &f);
        }
        r
    }
}

/// Truncates a numeric token to `places` decimal places.
pub fn truncate(token: &Vec<char>, places: usize) -> (r: Vec<char>)
    ensures
        r@ == truncate_token(token@, places as nat),
{
    match Decimal::parse(token) {
        Some(d) => d.cut(places).render(),
        None => token.clone(),
    }
}

// ---------------------------------------------------------------------------
// Laws
// ---------------------------------------------------------------------------

/// Ten to the power of `k`.
pub open spec fn pow10(k: nat) -> nat
    decreases k,
{
    if k == 0 {
        1
    } else {
        10 * pow10((k - 1) as nat)
    }
}

/// A run of `k` digits is worth less than ten to the power of `k`.
pub proof fn lemma_digits_bound(t: Seq<char>)
    requires
        all_digits(t),
    ensures
        digits_value(t) < pow10(t.len()),
    decreases t.len(),
{
    if t.len() > 0 {
        let head = t.drop_last();
        assert(all_digits(head)) by {
            assert forall|i: int| 0 <= i < head.len() implies is_digit(#[trigger] head[i]) by {
                assert(head[i] == t[i]);
            }
        }
        lemma_digits_bound(head);
        assert(is_digit(t.last()));
    }
}

/// A run of zeros is worth nothing.
pub proof fn lemma_zeros_value(t: Seq<char>)
    requires
        all_zeros(t),
    ensures
        digits_value(t) == 0,
    decreases t.len(),
{
    if t.len() > 0 {
        let head = t.drop_last();
        assert(all_zeros(head)) by {
            assert forall|i: int| 0 <= i < head.len() implies #[trigger] head[i] == '0' by {
                assert(head[i] == t[i]);
            }
        }
        lemma_zeros_value(head);
        assert(t.last() == '0');
    }
}

/// The value of a run of digits is that of its first `p` digits, shifted,
/// plus that of the rest.
pub proof fn lemma_digits_split(s: Seq<char>, p: int)
    requires
        0 <= p <= s.len(),
    ensures
        digits_value(s) == digits_value(s.subrange(0, p)) * pow10((s.len() - p) as nat)
            + digits_value(s.subrange(p, s.len() as int)),
    decreases s.len(),
{
    let n = s.len() as int;
    if p == n {
        assert(s.subrange(0, p) == s);
        assert(s.subrange(p, n) == Seq::<char>::empty());
        assert(pow10(0) == 1);
        assert(digits_value(Seq::<char>::empty()) == 0);
        assert(digits_value(s) * 1 == digits_value(s));
    } else {
        let head = s.drop_last();
        let d = ((s.last() as u32) - 48) as nat;
        lemma_digits_split(head, p);
        assert(head.subrange(0, p) == s.subrange(0, p));
        let rest = s.subrange(p, n);
        assert(rest.drop_last() == head.subrange(p, n - 1));
        assert(rest.last() == s.last());
        let a = digits_value(s.subrange(0, p));
        let b = digits_value(head.subrange(p, n - 1));
        let q = pow10((n - 1 - p) as nat);
        assert(pow10((n - p) as nat) == 10 * q);
        assert(digits_value(head) == a * q + b);
        assert(digits_value(s) == (a * q + b) * 10 + d);
        assert(digits_value(rest) == b * 10 + d);
        assert((a * q + b) * 10 + d == a * (10 * q) + (b * 10 + d)) by (nonlinear_arith);
        assert(digits_value(s) == a * pow10((n - p) as nat) + digits_value(rest));
    }
}

/// Truncation never rounds up: the sign and the digits before the point
/// stay, and behind the point the number loses less than one unit of the
/// last place that is kept, and gains nothing.
pub proof fn lemma_cut_never_rounds_up(n: Number, places: nat)
    requires
        all_digits(n.fraction),
    ensures
        cut(n, places).negative == n.negative,
        cut(n, places).whole == n.whole,
        cut(n, places).fraction.len() == if places < n.fraction.len() {
            places
        } else {
            n.fraction.len()
        },
        digits_value(cut(n, places).fraction) * pow10(
            (n.fraction.len() - cut(n, places).fraction.len()) as nat,
        ) <= digits_value(n.fraction),
        digits_value(n.fraction) < (digits_value(cut(n, places).fraction) + 1) * pow10(
            (n.fraction.len() - cut(n, places).fraction.len()) as nat,
        ),
{
    let f = n.fraction;
    let k = f.len() as int;
    if places < k {
        let p = places as int;
        lemma_digits_split(f, p);
        let rest = f.subrange(p, k);
        assert(all_digits(rest)) by {
            assert forall|i: int| 0 <= i < rest.len() implies is_digit(#[trigger] rest[i]) by {
                assert(rest[i] == f[p + i]);
            }
        }
        lemma_digits_bound(rest);
        let a = digits_value(f.subrange(0, p));
        let q = pow10((k - p) as nat);
        let c = cut(n, places);
        assert(c.fraction == f.subrange(0, p));
        assert(c.fraction.len() == p);
        assert((f.len() - c.fraction.len()) as nat == (k - p) as nat);
        assert(digits_value(f) == a * q + digits_value(rest));
        assert((a + 1) * q == a * q + q) by (nonlinear_arith);
    } else {
        let c = cut(n, places);
        assert(c.fraction == f);
        assert(pow10(0) == 1);
        assert(digits_value(f) * 1 == digits_value(f));
        assert((digits_value(f) + 1) * 1 == digits_value(f) + 1);
    }
}

/// Skipping zeros ends within the text, behind zeros only, and before a character that is no `0`.
pub proof fn lemma_skip_zeros_bounds(s: Seq<char>, i: int)
    requires
        0 <= i <= s.len(),
    ensures
        i <= skip_zeros(s, i) <= s.len(),
        forall|k: int| i <= k < skip_zeros(s, i) ==> #[trigger] s[k] == '0',
        skip_zeros(s, i) < s.len() ==> s[skip_zeros(s, i)] != '0',
    decreases s.len() - i,
{
    if i < s.len() && s[i] == '0' {
        lemma_skip_zeros_bounds(s, i + 1);
    }
}

/// Dropping zeros ends within the text, before zeros only, and behind a character that is no `0`.
pub proof fn lemma_drop_zeros_bounds(s: Seq<char>, j: int)
    requires
        0 <= j <= s.len(),
    ensures
        0 <= drop_zeros(s, j) <= j,
        forall|k: int| drop_zeros(s, j) <= k < j ==> #[trigger] s[k] == '0',
        drop_zeros(s, j) > 0 ==> s[drop_zeros(s, j) - 1] != '0',
    decreases j,
{
    if 0 < j && s[j - 1] == '0' {
        lemma_drop_zeros_bounds(s, j - 1);
    }
}

/// Writing a number in its shortest form keeps its value: the digits shown
/// before the point are worth what all digits before the point are worth,
/// and the digits shown behind the point, shifted by the zeros that were
/// dropped, what all digits behind the point are worth.
pub proof fn lemma_render_keeps_value(n: Number)
    requires
        all_digits(n.whole),
        all_digits(n.fraction),
    ensures
        all_digits(shown_whole(n.whole)),
        all_digits(shown_fraction(n.fraction)),
        digits_value(shown_whole(n.whole)) == digits_value(n.whole),
        digits_value(shown_fraction(n.fraction)) * pow10(
            (n.fraction.len() - shown_fraction(n.fraction).len()) as nat,
        ) == digits_value(n.fraction),
{
    let w = n.whole;
    let a = skip_zeros(w, 0);
    lemma_skip_zeros_bounds(w, 0);
    lemma_digits_split(w, a);
    let zeros = w.subrange(0, a);
    assert(all_zeros(zeros)) by {
        assert forall|i: int| 0 <= i < zeros.len() implies #[trigger] zeros[i] == '0' by {
            assert(zeros[i] == w[i]);
        }
    }
    lemma_zeros_value(zeros);
    assert(0 * pow10((w.len() - a) as nat) == 0);
    let shown = shown_whole(w);
    if a >= w.len() {
        assert(w.subrange(a, w.len() as int) == Seq::<char>::empty());
        assert(shown == seq!['0']);
        assert(shown.drop_last() == Seq::<char>::empty());
        assert(digits_value(shown) == 0);
    } else {
        assert forall|i: int| 0 <= i < shown.len() implies is_digit(#[trigger] shown[i]) by {
            assert(shown[i] == w[a + i]);
        }
    }
    let f = n.fraction;
    let b = drop_zeros(f, f.len() as int);
    lemma_drop_zeros_bounds(f, f.len() as int);
    lemma_digits_split(f, b);
    let tail = f.subrange(b, f.len() as int);
    assert(all_zeros(tail)) by {
        assert forall|i: int| 0 <= i < tail.len() implies #[trigger] tail[i] == '0' by {
            assert(tail[i] == f[b + i]);
        }
    }
    lemma_zeros_value(tail);
    let kept = shown_fraction(f);
    assert forall|i: int| 0 <= i < kept.len() implies is_digit(#[trigger] kept[i]) by {
        assert(kept[i] == f[i]);
    }
}

} // verus!
