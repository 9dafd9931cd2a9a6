//! G-code optimization: truncation of decimals and cleanup of white space.
//!
//! Both stages rewrite a program line by line and end their output with
//! exactly one line feed. Numbers are truncated on their digits, so a value is
//! never rounded and never changed by a binary approximation.

use vstd::prelude::*;
use crate::text::{
    is_space, is_digit, is_letter, trim, trim_end, lines, words, join, views, chars_of, string_of,
    trimmed, trimmed_end, split_lines, split_words, joined, char_is_space, char_is_digit,
    char_is_letter, extend, slice, decimal, decimal_of, contains, has,
};
use crate::decimal::{truncate_token, truncate, is_number, Decimal};

verus! {

/// Greatest number of decimal places that truncation accepts.
pub const MAX_DECIMAL_PLACES: usize = 6;

/// Configuration of the optimizer.
#[derive(Clone, Copy, Debug, PartialEq, Eq, Structural)]
pub struct OptimizerOptions {
    /// Decimal places to truncate to (0 to 6).
    pub decimal_places: usize,
    /// Whether to remove empty lines.
    pub remove_empty_lines: bool,
    /// Whether to collapse runs of white space.
    pub collapse_whitespace: bool,
    /// Whether to truncate decimals.
    pub truncate_decimals: bool,
}

impl Default for OptimizerOptions {
    fn default() -> (r: OptimizerOptions)
        ensures
            r == (OptimizerOptions {
                decimal_places: 2,
                remove_empty_lines: true,
                collapse_whitespace: true,
                truncate_decimals: true,
            }),
    {
        OptimizerOptions {
            decimal_places: 2,
            remove_empty_lines: true,
            collapse_whitespace: true,
            truncate_decimals: true,
        }
    }
}

/// Why the optimizer refused to work.
#[derive(Clone, Copy, Debug, PartialEq, Eq, Structural)]
pub enum OptimizerError {
    /// More decimal places were asked for than truncation accepts.
    Config { decimal_places: usize },
}

impl OptimizerError {
    /// A description of the error.
    pub fn message(&self) -> (r: String)
        ensures
            r@ == match *self {
                OptimizerError::Config { decimal_places } => "Decimal places must be 0-6, got "@
                    + decimal(decimal_places as nat),
            },
    {
        match self {
            OptimizerError::Config { decimal_places } => {
                let mut v = chars_of("Decimal places must be 0-6, got ");
                let n = decimal_of(*decimal_places as u128);
                extend(&mut v, &n);
                string_of(&v)
            },
        }
    }
}

/// How much an optimization saved.
#[derive(Clone, Copy, Debug, PartialEq, Eq, Structural)]
pub struct OptimizationStats {
    pub original_size: usize,
    pub optimized_size: usize,
    /// Bytes saved; negative when the program grew.
    pub size_reduction_bytes: i128,
    /// Bytes saved in hundredths of a percent of the original size, cut off
    /// toward zero; 0 for an empty original.
    pub size_reduction_basis_points: i128,
}

/// The output with the number that ran from `start` to `i` added, truncated.
pub open spec fn flushed(s: Seq<char>, out: Seq<char>, start: int, i: int, places: nat) -> Seq<
    char,
> {
    if 0 <= start < i <= s.len() {
        out + truncate_token(s.subrange(start, i), places)
    } else {
        out
    }
}

/// The output with one blank added unless it ends in one.
pub open spec fn spaced(out: Seq<char>) -> Seq<char> {
    if out.len() > 0 && out.last() == ' ' {
        out
    } else {
        out.push(' ')
    }
}

/// The rewritten rest of a line when the scan stands at `i`, `out` has been
/// written, and a number began at `start` (none when `start` is negative)
/// that holds a point already when `dot` is set.
///
/// A letter is copied and opens a number: digits, one point, and a `-` in
/// first place. The number is written truncated. White space becomes one
/// blank, a `;` copies the rest of the line as it is, and every other
/// character is copied.
pub open spec fn rewrite(
    s: Seq<char>,
    i: int,
    out: Seq<char>,
    start: int,
    dot: bool,
    places: nat,
) -> Seq<char>
    decreases s.len() - i,
{
    if i < 0 || i >= s.len() {
        flushed(s, out, start, s.len() as int, places)
    } else {
        let c = s[i];
        if start >= 0 && (is_digit(c) || (c == '.' && !dot) || (c == '-' && i == start)) {
            rewrite(s, i + 1, out, start, dot || c == '.', places)
        } else {
            let o = flushed(s, out, start, i, places);
            if c == ';' {
                o + s.subrange(i, s.len() as int)
            } else if is_letter(c) {
                rewrite(s, i + 1, o.push(c), i + 1, false, places)
            } else if !is_space(c) {
                rewrite(s, i + 1, o.push(c), -1, false, places)
            } else {
                rewrite(s, i + 1, spaced(o), -1, false, places)
            }
        }
    }
}

/// Whether the line is a comment from its first character that is no white
/// space.
pub open spec fn is_comment(line: Seq<char>) -> bool {
    trim(line).len() > 0 && trim(line)[0] == ';'
}

/// A line with its numbers truncated; a comment line stays as it is.
pub open spec fn truncate_line(line: Seq<char>, places: nat) -> Seq<char> {
    if is_comment(line) {
        line
    } else {
        trim_end(rewrite(line, 0, Seq::empty(), -1, false, places))
    }
}

/// The first `k` lines, truncated, each with a line feed behind it.
pub open spec fn truncated_upto(ls: Seq<Seq<char>>, k: int, places: nat) -> Seq<char>
    decreases k,
{
    if k <= 0 || k > ls.len() {
        Seq::empty()
    } else {
        truncated_upto(ls, k - 1, places) + truncate_line(ls[k - 1], places).push('\n')
    }
}

/// A program with its numbers truncated to `places` decimal places.
pub open spec fn truncate_text(s: Seq<char>, places: nat) -> Seq<char> {
    trim_end(truncated_upto(lines(s), lines(s).len() as int, places)).push('\n')
}

/// A line with its runs of white space collapsed, if that is asked for.
pub open spec fn clean_line(line: Seq<char>, collapse: bool) -> Seq<char> {
    if collapse {
        join(words(line), seq![' '])
    } else {
        line
    }
}

/// The first `k` lines, cleaned, each with a line feed behind it.
pub open spec fn cleaned_upto(ls: Seq<Seq<char>>, k: int, remove_empty: bool, collapse: bool)
    -> Seq<char>
    decreases k,
{
    if k <= 0 || k > ls.len() {
        Seq::empty()
    } else if remove_empty && trim(ls[k - 1]).len() == 0 {
        cleaned_upto(ls, k - 1, remove_empty, collapse)
    } else {
        cleaned_upto(ls, k - 1, remove_empty, collapse) + clean_line(ls[k - 1], collapse).push(
            '\n',
        )
    }
}

/// A program without empty lines and with white space collapsed, as far as
/// each is asked for.
pub open spec fn clean_text(s: Seq<char>, remove_empty: bool, collapse: bool) -> Seq<char> {
    trim_end(cleaned_upto(lines(s), lines(s).len() as int, remove_empty, collapse)).push('\n')
}

/// What the enabled stages make of a program: truncation first, then cleanup.
pub open spec fn optimized(o: OptimizerOptions, s: Seq<char>) -> Seq<char> {
    let a = if o.truncate_decimals {
        truncate_text(s, o.decimal_places as nat)
    } else {
        s
    };
    if o.remove_empty_lines || o.collapse_whitespace {
        clean_text(a, o.remove_empty_lines, o.collapse_whitespace)
    } else {
        a
    }
}

/// Whether a line holds an arc command, `G2` or `G3`.
pub open spec fn is_arc(line: Seq<char>) -> bool {
    contains(trim(line), "G2"@) || contains(trim(line), "G3"@)
}

/// A parameter of a command: its letter and the number behind it.
pub ghost struct ParameterModel {
    pub letter: char,
    pub value: Seq<char>,
}

/// A parameter of a command: its letter and the number behind it.
#[derive(Debug)]
pub struct Parameter {
    pub letter: char,
    pub value: String,
}

impl View for Parameter {
    type V = ParameterModel;

    open spec fn view(&self) -> ParameterModel {
        ParameterModel { letter: self.letter, value: self.value@ }
    }
}

/// The models of a sequence of parameters.
pub open spec fn parameter_models(s: Seq<Parameter>) -> Seq<ParameterModel> {
    Seq::new(s.len(), |i: int| s[i]@)
}

/// The parameter that is complete when the text from `start` to `i` behind
/// the letter is a number.
pub open spec fn closed_parameter(s: Seq<char>, letter: char, start: int, i: int) -> Seq<
    ParameterModel,
> {
    if 0 <= start < i <= s.len() && is_number(s.subrange(start, i)) {
        seq![ParameterModel { letter, value: s.subrange(start, i) }]
    } else {
        Seq::empty()
    }
}

/// The parameters still to come when the scan of a line stands at `i` and
/// the text behind `letter` began at `start` (none when `start` is negative)
/// and holds a point already when `dot` is set. The text behind a letter is
/// a `-` in first place, digits, and one point; letters keep their case.
pub open spec fn parameters_scan(s: Seq<char>, i: int, letter: char, start: int, dot: bool) -> Seq<
    ParameterModel,
>
    decreases s.len() - i,
{
    if i < 0 || i >= s.len() {
        closed_parameter(s, letter, start, s.len() as int)
    } else {
        let c = s[i];
        if start >= 0 && (is_digit(c) || (c == '.' && !dot) || (c == '-' && i == start)) {
            parameters_scan(s, i + 1, letter, start, dot || c == '.')
        } else if is_letter(c) {
            closed_parameter(s, letter, start, i) + parameters_scan(s, i + 1, c, i + 1, false)
        } else {
            closed_parameter(s, letter, start, i) + parameters_scan(s, i + 1, letter, -1, false)
        }
    }
}

/// The parameters of a line, in order.
pub open spec fn parameters_of(s: Seq<char>) -> Seq<ParameterModel> {
    parameters_scan(s, 0, ' ', -1, false)
}

/// Bytes saved in hundredths of a percent of the original size.
pub open spec fn basis_points(original: int, optimized: int) -> int {
    if original <= 0 {
        0
    } else if original >= optimized {
        (original - optimized) * 10000 / original
    } else {
        -((optimized - original) * 10000 / original)
    }
}

/// G-code optimizer.
#[derive(Clone, Copy, Debug)]
pub struct GcodeOptimizer {
    pub options: OptimizerOptions,
}

/// Rewrites one line that is no comment line.
fn rewrite_line(line: &Vec<char>, places: usize) -> (r: Vec<char>)
    ensures
        r@ == rewrite(line@, 0, Seq::empty(), -1, false, places as nat),
{
    let mut out: Vec<char> = Vec::new();
    let mut in_number = false;
    let mut start: usize = 0;
    let mut dot = false;
    let mut i: usize = 0;
    while i < line.len()
        invariant
            i <= line.len(),
            in_number ==> start <= i,
            rewrite(line@, 0, Seq::empty(), -1, false, places as nat) == rewrite(
                line@,
                i as int,
                out@,
                if in_number {
                    start as int
                } else {
                    -1
                },
                dot,
                places as nat,
            ),
        decreases line.len() - i,
    {
        let c = line[i];
        if in_number && (char_is_digit(c) || (c == '.' && !dot) || (c == '-' && i == start)) {
            if c == '.' {
                dot = true;
            }
        } else {
            if in_number && start < i {
                let token = slice(line, start, i);
                let t = truncate(&token, places);
                extend(&mut out, &t);
            }
            if c == ';' {
                let rest = slice(line, i, line.len());
                extend(&mut out, &rest);
                return out;
            } else if char_is_letter(c) {
                out.push(c);
                in_number = true;
                start = i + 1;
                dot = false;
            } else if !char_is_space(c) {
                out.push(c);
                in_number = false;
                dot = false;
            } else {
                if !(out.len() > 0 && out[out.len() - 1] == ' ') {
                    out.push(' ');
                }
                in_number = false;
                dot = false;
            }
        }
        i += 1;
    }
    if in_number && start < i {
        let token = slice(line, start, i);
        let t = truncate(&token, places);
        extend(&mut out, &t);
    }
    out
}

/// Adds the parameter that is complete, if one is, to those found so far.
fn close_parameter(
    found: &mut Vec<Parameter>,
    v: &Vec<char>,
    letter: char,
    in_number: bool,
    start: usize,
    i: usize,
)
    requires
        i <= v.len(),
        in_number ==> start <= i,
    ensures
        parameter_models(final(found)@) == parameter_models(old(found)@) + closed_parameter(
            v@,
            letter,
            if in_number {
                start as int
            } else {
                -1
            },
            i as int,
        ),
{
    if in_number && start < i {
        let token = slice(v, start, i);
        if Decimal::parse(&token).is_some() {
            let p = Parameter { letter, value: string_of(&token) };
            found.push(p);
            assert(found@.last()@ == (ParameterModel { letter, value: token@ }));
        }
    }
    assert(parameter_models(found@) =~= parameter_models(old(found)@) + closed_parameter(
        v@,
        letter,
        if in_number {
            start as int
        } else {
            -1
        },
        i as int,
    ));
}

impl GcodeOptimizer {
    /// An optimizer with the default options.
    pub fn new() -> (r: GcodeOptimizer)
        ensures
            r.options == (OptimizerOptions {
                decimal_places: 2,
                remove_empty_lines: true,
                collapse_whitespace: true,
                truncate_decimals: true,
            }),
    {
        GcodeOptimizer { options: OptimizerOptions::default() }
    }

    /// An optimizer with the given options.
    pub fn with_options(options: OptimizerOptions) -> (r: GcodeOptimizer)
        ensures
            r.options == options,
    {
        GcodeOptimizer { options }
    }

    /// The options of the optimizer.
    pub fn options(&self) -> (r: &OptimizerOptions)
        ensures
            *r == self.options,
    {
        &self.options
    }

    /// Applies the enabled stages: truncation of decimals, then cleanup of
    /// white space. Fails, before any text is touched, exactly when
    /// truncation is enabled and more than six decimal places are asked for.
    pub fn optimize(&self, gcode: &str) -> (r: Result<String, OptimizerError>)
        ensures
            self.options.truncate_decimals && self.options.decimal_places > MAX_DECIMAL_PLACES
                ==> r == Err::<String, OptimizerError>(
                OptimizerError::Config { decimal_places: self.options.decimal_places },
            ),
            !(self.options.truncate_decimals && self.options.decimal_places > MAX_DECIMAL_PLACES)
                ==> r is Ok && r->Ok_0@ == optimized(self.options, gcode@),
    {
        let mut result = gcode.to_owned();
        if self.options.truncate_decimals {
            match self.truncate_decimal_precision(result.as_str()) {
                Ok(t) => {
                    result = t;
                },
                Err(e) => {
                    return Err(e);
                },
            }
        }
        if self.options.remove_empty_lines || self.options.collapse_whitespace {
            result = self.remove_redundant_whitespace(result.as_str());
        }
        Ok(result)
    }

    /// Truncates every number behind a letter to the configured decimal
    /// places. Comments stay as they are. Fails exactly when more than six
    /// decimal places are asked for.
    pub fn truncate_decimal_precision(&self, gcode: &str) -> (r: Result<String, OptimizerError>)
        ensures
            self.options.decimal_places > MAX_DECIMAL_PLACES ==> r == Err::<
                String,
                OptimizerError,
            >(OptimizerError::Config { decimal_places: self.options.decimal_places }),
            self.options.decimal_places <= MAX_DECIMAL_PLACES ==> r is Ok && r->Ok_0@
                == truncate_text(gcode@, self.options.decimal_places as nat),
    {
        let places = self.options.decimal_places;
        if places > MAX_DECIMAL_PLACES {
            return Err(OptimizerError::Config { decimal_places: places });
        }
        let text = chars_of(gcode);
        let all = split_lines(&text);
        assert(views(all@).len() == all@.len());
        let ghost ls = lines(gcode@);
        let mut result: Vec<char> = Vec::new();
        let mut i: usize = 0;
        while i < all.len()
            invariant
                i <= all@.len(),
                views(all@) == ls,
                result@ == truncated_upto(ls, i as int, places as nat),
            decreases all@.len() - i,
        {
            assert(ls[i as int] == all@[i as int]@);
            let t = trimmed(&all[i]);
            if t.len() > 0 && t[0] == ';' {
                extend(&mut result, &all[i]);
            } else {
                let rewritten = rewrite_line(&all[i], places);
                let cut = trimmed_end(&rewritten);
                extend(&mut result, &cut);
            }
            result.push('\n');
            i += 1;
        }
        let mut done = trimmed_end(&result);
        done.push('\n');
        Ok(string_of(&done))
    }

    /// Drops empty lines and collapses runs of white space to one blank, as
    /// far as each is enabled. The output ends with exactly one line feed.
    pub fn remove_redundant_whitespace(&self, gcode: &str) -> (r: String)
        ensures
            r@ == clean_text(
                gcode@,
                self.options.remove_empty_lines,
                self.options.collapse_whitespace,
            ),
    {
        let remove_empty = self.options.remove_empty_lines;
        let collapse = self.options.collapse_whitespace;
        let text = chars_of(gcode);
        let all = split_lines(&text);
        assert(views(all@).len() == all@.len());
        let ghost ls = lines(gcode@);
        let mut blank: Vec<char> = Vec::new();
        blank.push(' ');
        assert(blank@ == seq![' ']);
        let mut result: Vec<char> = Vec::new();
        let mut i: usize = 0;
        while i < all.len()
            invariant
                i <= all@.len(),
                views(all@) == ls,
                blank@ == seq![' '],
                result@ == cleaned_upto(ls, i as int, remove_empty, collapse),
            decreases all@.len() - i,
        {
            assert(ls[i as int] == all@[i as int]@);
            let skip = remove_empty && trimmed(&all[i]).len() == 0;
            if !skip {
                if collapse {
                    let parts = split_words(&all[i]);
                    let collapsed = joined(&parts, &blank);
                    extend(&mut result, &collapsed);
                } else {
                    extend(&mut result, &all[i]);
                }
                result.push('\n');
            }
            i += 1;
        }
        let mut done = trimmed_end(&result);
        done.push('\n');
        string_of(&done)
    }

    /// Whether a line holds an arc command, `G2` or `G3`.
    pub fn is_arc_line(line: &str) -> (r: bool)
        ensures
            r == is_arc(line@),
    {
        let t = trimmed(&chars_of(line));
        has(&t, "G2") || has(&t, "G3")
    }

    /// The parameters of a line: each letter with the number that stands
    /// directly behind it, in order. A letter without a number behind it has
    /// no parameter.
    pub fn extract_parameters(line: &str) -> (r: Vec<Parameter>)
        ensures
            parameter_models(r@) == parameters_of(line@),
    {
        let v = chars_of(line);
        let mut r: Vec<Parameter> = Vec::new();
        let mut letter: char = ' ';
        let mut in_number = false;
        let mut start: usize = 0;
        let mut dot = false;
        let mut i: usize = 0;
        assert(parameter_models(r@) =~= Seq::<ParameterModel>::empty());
        while i < v.len()
            invariant
                i <= v.len(),
                in_number ==> start <= i,
                parameters_of(v@) == parameter_models(r@) + parameters_scan(
                    v@,
                    i as int,
                    letter,
                    if in_number {
                        start as int
                    } else {
                        -1
                    },
                    dot,
                ),
            decreases v.len() - i,
        {
            let c = v[i];
            if in_number && (char_is_digit(c) || (c == '.' && !dot) || (c == '-' && i == start)) {
                if c == '.' {
                    dot = true;
                }
            } else {
                close_parameter(&mut r, &v, letter, in_number, start, i);
                if char_is_letter(c) {
                    letter = c;
                    in_number = true;
                    start = i + 1;
                } else {
                    in_number = false;
                }
                dot = false;
            }
            i += 1;
        }
        close_parameter(&mut r, &v, letter, in_number, start, i);
        r
    }

    /// The sizes in bytes of a program before and after optimization, and
    /// what was saved.
    pub fn get_stats(original: &str, optimized: &str) -> (r: OptimizationStats)
        ensures
            r.original_size == original.len(),
            r.optimized_size == optimized.len(),
            r.size_reduction_bytes == original.len() - optimized.len(),
            r.size_reduction_basis_points == basis_points(
                original.len() as int,
                optimized.len() as int,
            ),
    {
        let a: usize = original.len();
        let b: usize = optimized.len();
        let points: i128 = if a == 0 {
            0
        } else if a >= b {
            (((a - b) as u128) * 10000 / (a as u128)) as i128
        } else {
            -((((b - a) as u128) * 10000 / (a as u128)) as i128)
        };
        OptimizationStats {
            original_size: a,
            optimized_size: b,
            size_reduction_bytes: a as i128 - b as i128,
            size_reduction_basis_points: points,
        }
    }
}

impl Default for GcodeOptimizer {
    fn default() -> (r: GcodeOptimizer)
        ensures
            r.options == (OptimizerOptions {
                decimal_places: 2,
                remove_empty_lines: true,
                collapse_whitespace: true,
                truncate_decimals: true,
            }),
    {
        GcodeOptimizer::new()
    }
}

} // verus!
