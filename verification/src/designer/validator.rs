//! G-code validation: syntax of each line, commands that the target firmware
//! lacks, and parameters out of range.

use vstd::prelude::*;
use crate::text::{
    is_space, is_digit, is_letter, upper, trim, lines, views, chars_of, string_of, trimmed,
    split_lines, char_is_space, char_is_digit, char_is_letter, char_upper, extend, extend_str,
    slice, same,
};
use crate::decimal::{Decimal, is_number, split_token, render, above_zero, below_zero, exceeds};

verus! {

/// GRBL firmware versions, oldest first.
#[derive(Clone, Debug, Copy, PartialEq, Eq, Structural, Hash, PartialOrd, Ord)]
pub enum GrblVersion {
    V1_0,
    V1_1,
    V1_2,
}

impl Default for GrblVersion {
    fn default() -> (r: GrblVersion)
        ensures
            r == GrblVersion::V1_2,
    {
        GrblVersion::V1_2
    }
}

impl GrblVersion {
    /// Position of the version in the order of releases.
    pub open spec fn rank_spec(self) -> u8 {
        match self {
            GrblVersion::V1_0 => 0,
            GrblVersion::V1_1 => 1,
            GrblVersion::V1_2 => 2,
        }
    }

    /// Position of the version in the order of releases.
    #[verifier::when_used_as_spec(rank_spec)]
    pub fn rank(self) -> (r: u8)
        ensures
            r == self.rank_spec(),
    {
        match self {
            GrblVersion::V1_0 => 0,
            GrblVersion::V1_1 => 1,
            GrblVersion::V1_2 => 2,
        }
    }

    /// The name of the version as it appears in messages.
    pub open spec fn name_spec(self) -> Seq<char> {
        match self {
            GrblVersion::V1_0 => "V1_0"@,
            GrblVersion::V1_1 => "V1_1"@,
            GrblVersion::V1_2 => "V1_2"@,
        }
    }

    /// The name of the version as it appears in messages.
    pub fn name(self) -> (r: &'static str)
        ensures
            r@ == self.name_spec(),
    {
        match self {
            GrblVersion::V1_0 => "V1_0",
            GrblVersion::V1_1 => "V1_1",
            GrblVersion::V1_2 => "V1_2",
        }
    }
}

/// How grave a validation issue is, mildest first.
#[derive(Clone, Debug, Copy, PartialEq, Eq, Structural, PartialOrd, Ord, Hash)]
pub enum Severity {
    /// Informational message.
    Info,
    /// May cause unexpected behaviour.
    Warning,
    /// The command is likely to fail.
    Error,
    /// The command will fail or damage equipment.
    Critical,
}

impl Severity {
    /// The name of the severity.
    pub fn to_string(&self) -> (r: String)
        ensures
            r@ == match *self {
                Severity::Info => "Info"@,
                Severity::Warning => "Warning"@,
                Severity::Error => "Error"@,
                Severity::Critical => "Critical"@,
            },
    {
        match self {
            Severity::Info => "Info".to_owned(),
            Severity::Warning => "Warning".to_owned(),
            Severity::Error => "Error".to_owned(),
            Severity::Critical => "Critical".to_owned(),
        }
    }
}

/// What a validation issue says.
pub ghost struct IssueModel {
    pub line_number: usize,
    pub severity: Severity,
    pub issue_type: Seq<char>,
    pub message: Seq<char>,
    pub suggestion: Option<Seq<char>>,
}

/// An issue found in a G-code program.
#[derive(Debug)]
pub struct ValidationIssue {
    /// Line number, counted from 1.
    pub line_number: usize,
    pub severity: Severity,
    pub issue_type: String,
    pub message: String,
    /// A suggested fix, if there is one.
    pub suggestion: Option<String>,
}

impl View for ValidationIssue {
    type V = IssueModel;

    open spec fn view(&self) -> IssueModel {
        IssueModel {
            line_number: self.line_number,
            severity: self.severity,
            issue_type: self.issue_type@,
            message: self.message@,
            suggestion: match self.suggestion {
                Some(s) => Some(s@),
                None => None,
            },
        }
    }
}

impl Clone for ValidationIssue {
    fn clone(&self) -> (r: ValidationIssue)
        ensures
            r@ == self@,
    {
        ValidationIssue {
            line_number: self.line_number,
            severity: self.severity,
            issue_type: self.issue_type.clone(),
            message: self.message.clone(),
            suggestion: match &self.suggestion {
                Some(s) => Some(s.clone()),
                None => None,
            },
        }
    }
}

/// The models of a sequence of issues.
pub open spec fn issue_models(s: Seq<ValidationIssue>) -> Seq<IssueModel> {
    Seq::new(s.len(), |i: int| s[i]@)
}

/// What a validation rule says.
pub ghost struct RuleModel {
    pub name: Seq<char>,
    pub min_version: GrblVersion,
    pub severity: Severity,
    pub enabled: bool,
}

/// A rule on one command: the oldest firmware that has the command, and how
/// grave its use on older firmware is. The name begins with the command that
/// the rule is about, up to the first underscore.
#[derive(Debug)]
pub struct ValidationRule {
    pub name: String,
    pub min_version: GrblVersion,
    pub severity: Severity,
    pub enabled: bool,
}

impl View for ValidationRule {
    type V = RuleModel;

    open spec fn view(&self) -> RuleModel {
        RuleModel {
            name: self.name@,
            min_version: self.min_version,
            severity: self.severity,
            enabled: self.enabled,
        }
    }
}

impl Clone for ValidationRule {
    fn clone(&self) -> (r: ValidationRule)
        ensures
            r@ == self@,
    {
        ValidationRule {
            name: self.name.clone(),
            min_version: self.min_version,
            severity: self.severity,
            enabled: self.enabled,
        }
    }
}

/// The models of a sequence of rules.
pub open spec fn rule_models(s: Seq<ValidationRule>) -> Seq<RuleModel> {
    Seq::new(s.len(), |i: int| s[i]@)
}

/// Index of the first underscore at or after `i` (or the length).
pub open spec fn underscore_at(s: Seq<char>, i: int) -> int
    decreases s.len() - i,
{
    if 0 <= i < s.len() && s[i] != '_' {
        underscore_at(s, i + 1)
    } else {
        i
    }
}

/// The command that a rule of the given name is about.
pub open spec fn rule_command(name: Seq<char>) -> Seq<char> {
    name.subrange(0, underscore_at(name, 0))
}

/// Index of the first rule at or after `i` that is about `command`.
pub open spec fn rule_at(rules: Seq<RuleModel>, command: Seq<char>, i: int) -> Option<int>
    decreases rules.len() - i,
{
    if i < 0 || i >= rules.len() {
        None
    } else if rule_command(rules[i].name) == command {
        Some(i)
    } else {
        rule_at(rules, command, i + 1)
    }
}

/// A command word and the numeric token behind it.
pub ghost struct TokenModel {
    pub letter: char,
    pub value: Seq<char>,
}

/// A command word and the numeric token behind it.
#[derive(Debug)]
pub struct Token {
    pub letter: char,
    pub value: Vec<char>,
}

impl View for Token {
    type V = TokenModel;

    open spec fn view(&self) -> TokenModel {
        TokenModel { letter: self.letter, value: self.value@ }
    }
}

/// The models of a sequence of tokens.
pub open spec fn token_models(s: Seq<Token>) -> Seq<TokenModel> {
    Seq::new(s.len(), |i: int| s[i]@)
}

/// The token that is complete when a letter has been seen and its value
/// holds anything.
pub open spec fn closed_token(letter: Option<char>, value: Seq<char>) -> Seq<TokenModel> {
    match letter {
        Some(l) => if value.len() > 0 {
            seq![TokenModel { letter: l, value }]
        } else {
            Seq::empty()
        },
        None => Seq::empty(),
    }
}

/// The tokens still to come when the scan of `s` stands at `i` with the
/// letter and the value seen so far. A letter starts a new token; digits, `.`
/// and `-` go to the value; white space closes a token that has both; any
/// other character is passed over.
pub open spec fn scan_tokens(s: Seq<char>, i: int, letter: Option<char>, value: Seq<char>) -> Seq<
    TokenModel,
>
    decreases s.len() - i,
{
    if i < 0 || i >= s.len() {
        closed_token(letter, value)
    } else {
        let c = s[i];
        if is_letter(c) {
            closed_token(letter, value) + scan_tokens(s, i + 1, Some(upper(c)), Seq::empty())
        } else if is_digit(c) || c == '.' || c == '-' {
            scan_tokens(s, i + 1, letter, value.push(c))
        } else if is_space(c) && value.len() > 0 && letter is Some {
            closed_token(letter, value) + scan_tokens(s, i + 1, None, Seq::empty())
        } else {
            scan_tokens(s, i + 1, letter, value)
        }
    }
}

/// The tokens of a line of G-code.
pub open spec fn tokens_of(s: Seq<char>) -> Seq<TokenModel> {
    scan_tokens(s, 0, None, Seq::empty())
}

/// The issue raised by a command that the target firmware lacks.
pub open spec fn unsupported_issue(line_number: usize, rule: RuleModel) -> IssueModel {
    IssueModel {
        line_number,
        severity: rule.severity,
        issue_type: "Unsupported command: "@ + rule.name,
        message: "Command "@ + rule.name + " requires GRBL "@ + rule.min_version.name_spec()
            + " or later"@,
        suggestion: Some("Remove "@ + rule.name + " or upgrade GRBL firmware"@),
    }
}

/// The issue raised by a feed rate that is not above zero.
pub open spec fn feed_not_positive_issue(line_number: usize, shown: Seq<char>) -> IssueModel {
    IssueModel {
        line_number,
        severity: Severity::Error,
        issue_type: "Invalid feed rate"@,
        message: "Feed rate must be positive, got "@ + shown,
        suggestion: Some("Use a positive feed rate value"@),
    }
}

/// The issue raised by a feed rate above the limit.
pub open spec fn feed_high_issue(line_number: usize, shown: Seq<char>) -> IssueModel {
    IssueModel {
        line_number,
        severity: Severity::Warning,
        issue_type: "High feed rate"@,
        message: "Feed rate "@ + shown + " is unusually high"@,
        suggestion: Some("Verify feed rate is appropriate for your machine"@),
    }
}

/// The issue raised by a spindle speed below zero.
pub open spec fn spindle_negative_issue(line_number: usize, shown: Seq<char>) -> IssueModel {
    IssueModel {
        line_number,
        severity: Severity::Error,
        issue_type: "Invalid spindle speed"@,
        message: "Spindle speed cannot be negative, got "@ + shown,
        suggestion: Some("Use a non-negative spindle speed value"@),
    }
}

/// The issue raised by a spindle speed above the limit.
pub open spec fn spindle_high_issue(line_number: usize, shown: Seq<char>) -> IssueModel {
    IssueModel {
        line_number,
        severity: Severity::Warning,
        issue_type: "High spindle speed"@,
        message: "Spindle speed "@ + shown + " is unusually high"@,
        suggestion: Some("Verify spindle speed is appropriate for your machine"@),
    }
}

/// The issue raised by a coordinate that is no number.
pub open spec fn coordinate_issue(line_number: usize, axis: char, value: Seq<char>) -> IssueModel {
    IssueModel {
        line_number,
        severity: Severity::Error,
        issue_type: "Invalid "@ + seq![axis] + " coordinate"@,
        message: "Could not parse "@ + seq![axis] + " coordinate: "@ + value,
        suggestion: Some("Use a numeric value for "@ + seq![axis] + " coordinate"@),
    }
}

/// Greatest feed rate that raises no warning.
pub const FEED_RATE_LIMIT: u32 = 20000;

/// Greatest spindle speed that raises no warning.
pub const SPINDLE_SPEED_LIMIT: u32 = 30000;

/// The issues that the parameter of one token raises: a feed rate (`F`) must
/// be above zero and warns above 20000; a spindle speed (`S`) must not be
/// below zero and warns above 30000; a coordinate (`X`, `Y`, `Z`) must be a
/// number.
pub open spec fn range_issues(line_number: usize, t: TokenModel) -> Seq<IssueModel> {
    let n = split_token(t.value);
    if t.letter == 'F' {
        if !is_number(t.value) {
            Seq::empty()
        } else if !above_zero(n) {
            seq![feed_not_positive_issue(line_number, render(n))]
        } else if exceeds(n, FEED_RATE_LIMIT as nat) {
            seq![feed_high_issue(line_number, render(n))]
        } else {
            Seq::empty()
        }
    } else if t.letter == 'S' {
        if !is_number(t.value) {
            Seq::empty()
        } else if below_zero(n) {
            seq![spindle_negative_issue(line_number, render(n))]
        } else if exceeds(n, SPINDLE_SPEED_LIMIT as nat) {
            seq![spindle_high_issue(line_number, render(n))]
        } else {
            Seq::empty()
        }
    } else if t.letter == 'X' || t.letter == 'Y' || t.letter == 'Z' {
        if is_number(t.value) {
            Seq::empty()
        } else {
            seq![coordinate_issue(line_number, t.letter, t.value)]
        }
    } else {
        Seq::empty()
    }
}

/// The rule that governs a token: for `G` and `M` the rule on the very
/// command (`G2`), and failing that, as for every other letter, the rule on
/// the bare letter.
pub open spec fn rule_for(rules: Seq<RuleModel>, t: TokenModel) -> Option<int> {
    let bare = rule_at(rules, seq![t.letter], 0);
    if t.letter == 'G' || t.letter == 'M' {
        match rule_at(rules, seq![t.letter] + t.value, 0) {
            Some(i) => Some(i),
            None => bare,
        }
    } else {
        bare
    }
}

/// The issue that the command of one token raises: its rule is enabled and
/// asks for a firmware newer than the target.
pub open spec fn version_issues(
    rules: Seq<RuleModel>,
    target: GrblVersion,
    line_number: usize,
    t: TokenModel,
) -> Seq<IssueModel> {
    match rule_for(rules, t) {
        Some(i) => if rules[i].enabled && rules[i].min_version.rank_spec() > target.rank_spec() {
            seq![unsupported_issue(line_number, rules[i])]
        } else {
            Seq::empty()
        },
        None => Seq::empty(),
    }
}

/// The issues of the first `k` tokens, in order.
pub open spec fn tokens_issues(
    rules: Seq<RuleModel>,
    target: GrblVersion,
    line_number: usize,
    tokens: Seq<TokenModel>,
    k: int,
) -> Seq<IssueModel>
    decreases k,
{
    if k <= 0 || k > tokens.len() {
        Seq::empty()
    } else {
        tokens_issues(rules, target, line_number, tokens, k - 1) + version_issues(
            rules,
            target,
            line_number,
            tokens[k - 1],
        ) + range_issues(line_number, tokens[k - 1])
    }
}

/// Index of the first `;` at or after `i` (or the length).
pub open spec fn comment_at(s: Seq<char>, i: int) -> int
    decreases s.len() - i,
{
    if 0 <= i < s.len() && s[i] != ';' {
        comment_at(s, i + 1)
    } else {
        i
    }
}

/// The code of a line: what stands before the first `;`, trimmed.
pub open spec fn code_of(line: Seq<char>) -> Seq<char> {
    trim(line.subrange(0, comment_at(line, 0)))
}

/// The rules that a new validator starts with.
pub open spec fn default_rules() -> Seq<RuleModel> {
    seq![
        default_rule("G0_rapid_move"@, GrblVersion::V1_0, Severity::Warning),
        default_rule("G1_linear_move"@, GrblVersion::V1_0, Severity::Warning),
        default_rule("G2_arc_cw"@, GrblVersion::V1_1, Severity::Error),
        default_rule("G3_arc_ccw"@, GrblVersion::V1_1, Severity::Error),
        default_rule("G4_dwell"@, GrblVersion::V1_0, Severity::Warning),
        default_rule("G10_set_position"@, GrblVersion::V1_1, Severity::Error),
        default_rule("G28_go_home"@, GrblVersion::V1_0, Severity::Warning),
        default_rule("G30_go_predefined"@, GrblVersion::V1_1, Severity::Error),
        default_rule("G38_probe"@, GrblVersion::V1_1, Severity::Error),
        default_rule("M3_spindle_cw"@, GrblVersion::V1_0, Severity::Warning),
        default_rule("M4_spindle_ccw"@, GrblVersion::V1_1, Severity::Error),
        default_rule("M5_spindle_stop"@, GrblVersion::V1_0, Severity::Warning),
        default_rule("F_feed_without_motion"@, GrblVersion::V1_0, Severity::Warning),
        default_rule("axis_limit_check"@, GrblVersion::V1_0, Severity::Critical),
        default_rule("G43_tool_offset"@, GrblVersion::V1_1, Severity::Error),
        default_rule("G49_tool_cancel"@, GrblVersion::V1_1, Severity::Error),
    ]
}

/// A rule as a new validator has it: enabled.
pub open spec fn default_rule(name: Seq<char>, min_version: GrblVersion, severity: Severity)
    -> RuleModel {
    RuleModel { name, min_version, severity, enabled: true }
}

/// How many issues of each severity a run found.
#[derive(Debug, Clone, Copy, PartialEq, Eq, Structural)]
pub struct SeverityCounts {
    pub info: usize,
    pub warning: usize,
    pub error: usize,
    pub critical: usize,
}

/// The number of issues of the given severity among the first `k`.
pub open spec fn count_of(issues: Seq<ValidationIssue>, severity: Severity, k: int) -> nat
    decreases k,
{
    if k <= 0 || k > issues.len() {
        0
    } else {
        count_of(issues, severity, k - 1) + if issues[k - 1].severity == severity {
            1nat
        } else {
            0nat
        }
    }
}

proof fn lemma_count_bounded(issues: Seq<ValidationIssue>, severity: Severity, k: int)
    requires
        0 <= k <= issues.len(),
    ensures
        count_of(issues, severity, k) <= k,
    decreases k,
{
    if k > 0 {
        lemma_count_bounded(issues, severity, k - 1);
    }
}

impl SeverityCounts {
    /// The number of issues of the given severity.
    pub open spec fn count_spec(&self, severity: &Severity) -> usize {
        match *severity {
            Severity::Info => self.info,
            Severity::Warning => self.warning,
            Severity::Error => self.error,
            Severity::Critical => self.critical,
        }
    }

    /// The number of issues of the given severity.
    pub fn count(&self, severity: &Severity) -> (r: usize)
        ensures
            r == self.count_spec(severity),
    {
        match severity {
            Severity::Info => self.info,
            Severity::Warning => self.warning,
            Severity::Error => self.error,
            Severity::Critical => self.critical,
        }
    }

    /// Whether any issue of the given severity was found.
    pub fn contains_key(&self, severity: &Severity) -> (r: bool)
        ensures
            r == (self.count_spec(severity) > 0),
    {
        self.count(severity) > 0
    }

    /// The number of issues of the given severity, if there is any.
    pub fn get(&self, severity: &Severity) -> (r: Option<usize>)
        ensures
            r == if self.count_spec(severity) > 0 {
                Some(self.count_spec(severity))
            } else {
                None
            },
    {
        let n = self.count(severity);
        if n > 0 {
            Some(n)
        } else {
            None
        }
    }
}

/// G-code validator.
#[derive(Debug)]
pub struct GcodeValidator {
    /// GRBL version to validate against.
    pub grbl_version: GrblVersion,
    /// Validation rules; where two are about one command the first counts.
    pub rules: Vec<ValidationRule>,
    /// Whether to validate syntax.
    pub validate_syntax: bool,
    /// Whether to validate semantics.
    pub validate_semantics: bool,
}

fn text2(a: &str, b: &Vec<char>) -> (r: String)
    ensures
        r@ == a@ + b@,
{
    let mut v = chars_of(a);
    extend(&mut v, b);
    string_of(&v)
}

fn text3(a: &str, b: &Vec<char>, c: &str) -> (r: String)
    ensures
        r@ == a@ + b@ + c@,
{
    let mut v = chars_of(a);
    extend(&mut v, b);
    extend_str(&mut v, c);
    string_of(&v)
}

fn text5(a: &str, b: &Vec<char>, c: &str, d: &Vec<char>, e: &str) -> (r: String)
    ensures
        r@ == a@ + b@ + c@ + d@ + e@,
{
    let mut v = chars_of(a);
    extend(&mut v, b);
    extend_str(&mut v, c);
    extend(&mut v, d);
    extend_str(&mut v, e);
    string_of(&v)
}

fn issue(
    line_number: usize,
    severity: Severity,
    issue_type: String,
    message: String,
    suggestion: String,
) -> (r: ValidationIssue)
    ensures
        r@ == (IssueModel {
            line_number,
            severity,
            issue_type: issue_type@,
            message: message@,
            suggestion: Some(suggestion@),
        }),
{
    ValidationIssue { line_number, severity, issue_type, message, suggestion: Some(suggestion) }
}

fn push_issue(issues: &mut Vec<ValidationIssue>, i: ValidationIssue)
    ensures
        issue_models(final(issues)@) == issue_models(old(issues)@).push(i@),
        final(issues)@ == old(issues)@.push(i),
{
    issues.push(i);
    assert(issue_models(issues@) =~= issue_models(old(issues)@).push(i@));
}

fn append_issues(issues: &mut Vec<ValidationIssue>, more: Vec<ValidationIssue>)
    ensures
        issue_models(final(issues)@) == issue_models(old(issues)@) + issue_models(more@),
{
    let mut more = more;
    let ghost all = more@;
    issues.append(&mut more);
    assert(issue_models(issues@) =~= issue_models(old(issues)@) + issue_models(all));
}

/// The command that the rule name is about, as characters.
fn command_of(name: &Vec<char>) -> (r: Vec<char>)
    ensures
        r@ == rule_command(name@),
{
    let mut k: usize = 0;
    while k < name.len() && name[k] != '_'
        invariant
            k <= name.len(),
            underscore_at(name@, k as int) == underscore_at(name@, 0),
        decreases name.len() - k,
    {
        k += 1;
    }
    slice(name, 0, k)
}

impl GcodeValidator {
    /// A validator for the given firmware version, with the default rules.
    pub fn new(grbl_version: GrblVersion) -> (r: GcodeValidator)
        ensures
            r.grbl_version == grbl_version,
            r.validate_syntax,
            r.validate_semantics,
            rule_models(r.rules@) == default_rules(),
    {
        let mut validator = GcodeValidator {
            grbl_version,
            rules: Vec::new(),
            validate_syntax: true,
            validate_semantics: true,
        };
        validator.init_default_rules();
        validator
    }

    fn init_default_rules(&mut self)
        requires
            old(self).rules@.len() == 0,
        ensures
            rule_models(final(self).rules@) == default_rules(),
            final(self).grbl_version == old(self).grbl_version,
            final(self).validate_syntax == old(self).validate_syntax,
            final(self).validate_semantics == old(self).validate_semantics,
    {
        self.add_rule("G0_rapid_move", GrblVersion::V1_0, Severity::Warning, true);
        self.add_rule("G1_linear_move", GrblVersion::V1_0, Severity::Warning, true);
        self.add_rule("G2_arc_cw", GrblVersion::V1_1, Severity::Error, true);
        self.add_rule("G3_arc_ccw", GrblVersion::V1_1, Severity::Error, true);
        self.add_rule("G4_dwell", GrblVersion::V1_0, Severity::Warning, true);
        self.add_rule("G10_set_position", GrblVersion::V1_1, Severity::Error, true);
        self.add_rule("G28_go_home", GrblVersion::V1_0, Severity::Warning, true);
        self.add_rule("G30_go_predefined", GrblVersion::V1_1, Severity::Error, true);
        self.add_rule("G38_probe", GrblVersion::V1_1, Severity::Error, true);
        self.add_rule("M3_spindle_cw", GrblVersion::V1_0, Severity::Warning, true);
        self.add_rule("M4_spindle_ccw", GrblVersion::V1_1, Severity::Error, true);
        self.add_rule("M5_spindle_stop", GrblVersion::V1_0, Severity::Warning, true);
        self.add_rule("F_feed_without_motion", GrblVersion::V1_0, Severity::Warning, true);
        self.add_rule("axis_limit_check", GrblVersion::V1_0, Severity::Critical, true);
        self.add_rule("G43_tool_offset", GrblVersion::V1_1, Severity::Error, true);
        self.add_rule("G49_tool_cancel", GrblVersion::V1_1, Severity::Error, true);
        assert(rule_models(self.rules@) =~= default_rules());
    }

    /// Adds a rule behind the ones that are there.
    fn add_rule(&mut self, name: &str, min_version: GrblVersion, severity: Severity, enabled: bool)
        ensures
            rule_models(final(self).rules@) == rule_models(old(self).rules@).push(
                RuleModel { name: name@, min_version, severity, enabled },
            ),
            final(self).rules@.len() == old(self).rules@.len() + 1,
            final(self).grbl_version == old(self).grbl_version,
            final(self).validate_syntax == old(self).validate_syntax,
            final(self).validate_semantics == old(self).validate_semantics,
    {
        self.rules.push(ValidationRule { name: name.to_owned(), min_version, severity, enabled });
        assert(rule_models(self.rules@) =~= rule_models(old(self).rules@).push(
            RuleModel { name: name@, min_version, severity, enabled },
        ));
    }

    /// Turns syntax validation on or off.
    pub fn set_validate_syntax(&mut self, validate: bool)
        ensures
            final(self).validate_syntax == validate,
            final(self).grbl_version == old(self).grbl_version,
            final(self).rules == old(self).rules,
            final(self).validate_semantics == old(self).validate_semantics,
    {
        self.validate_syntax = validate;
    }

    /// Turns semantic validation on or off.
    pub fn set_validate_semantics(&mut self, validate: bool)
        ensures
            final(self).validate_semantics == validate,
            final(self).grbl_version == old(self).grbl_version,
            final(self).rules == old(self).rules,
            final(self).validate_syntax == old(self).validate_syntax,
    {
        self.validate_semantics = validate;
    }

    /// Enables or disables the rule of the given name; other rules, and a
    /// name that no rule has, change nothing.
    pub fn set_rule_enabled(&mut self, rule_name: &str, enabled: bool)
        ensures
            final(self).grbl_version == old(self).grbl_version,
            final(self).validate_syntax == old(self).validate_syntax,
            final(self).validate_semantics == old(self).validate_semantics,
            final(self).rules@.len() == old(self).rules@.len(),
            forall|i: int|
                0 <= i < old(self).rules@.len() ==> #[trigger] final(self).rules@[i]@ == (RuleModel {
                    enabled: if old(self).rules@[i].name@ == rule_name@ {
                        enabled
                    } else {
                        old(self).rules@[i].enabled
                    },
                    ..old(self).rules@[i]@
                }),
    {
        let wanted = chars_of(rule_name);
        let mut i: usize = 0;
        while i < self.rules.len()
            invariant
                i <= self.rules@.len(),
                wanted@ == rule_name@,
                self.grbl_version == old(self).grbl_version,
                self.validate_syntax == old(self).validate_syntax,
                self.validate_semantics == old(self).validate_semantics,
                self.rules@.len() == old(self).rules@.len(),
                forall|k: int|
                    0 <= k < i ==> #[trigger] self.rules@[k]@ == (RuleModel {
                        enabled: if old(self).rules@[k].name@ == rule_name@ {
                            enabled
                        } else {
                            old(self).rules@[k].enabled
                        },
                        ..old(self).rules@[k]@
                    }),
                forall|k: int| i <= k < self.rules@.len() ==> self.rules@[k] == old(self).rules@[k],
            decreases self.rules@.len() - i,
        {
            let name = chars_of(self.rules[i].name.as_str());
            if same(&name, &wanted) {
                let rule = ValidationRule {
                    name: self.rules[i].name.clone(),
                    min_version: self.rules[i].min_version,
                    severity: self.rules[i].severity,
                    enabled,
                };
                self.rules.set(i, rule);
            }
            i += 1;
        }
    }

    /// The issues of a whole program. Lines are numbered from 1; blank lines
    /// and lines that are a comment raise nothing. No state is carried from
    /// one line to the next.
    pub fn validate_program(&self, gcode: &str) -> (issues: Vec<ValidationIssue>)
        ensures
            issue_models(issues@) == self.program_issues(lines(gcode@), lines(gcode@).len() as int),
    {
        let text = chars_of(gcode);
        let all = split_lines(&text);
        assert(views(all@).len() == all@.len());
        let ghost ls = lines(gcode@);
        let mut issues: Vec<ValidationIssue> = Vec::new();
        let mut i: usize = 0;
        assert(issue_models(issues@) =~= self.program_issues(ls, 0));
        while i < all.len()
            invariant
                i <= all@.len(),
                views(all@) == ls,
                ls.len() == all@.len(),
                issue_models(issues@) == self.program_issues(ls, i as int),
            decreases all@.len() - i,
        {
            assert(ls[i as int] == all@[i as int]@);
            let t = trimmed(&all[i]);
            if !(t.len() == 0 || t[0] == ';') {
                let found = self.validate_chars(&t, i + 1);
                append_issues(&mut issues, found);
            }
            i += 1;
        }
        issues
    }

    /// The issues of the first `k` lines of a program.
    pub open spec fn program_issues(&self, ls: Seq<Seq<char>>, k: int) -> Seq<IssueModel>
        decreases k,
    {
        if k <= 0 || k > ls.len() {
            Seq::empty()
        } else {
            let t = trim(ls[k - 1]);
            self.program_issues(ls, k - 1) + if t.len() == 0 || t[0] == ';' {
                Seq::empty()
            } else {
                self.line_issues(t, k as usize)
            }
        }
    }

    /// The issues of one line: none when syntax validation is off or the
    /// line holds no code, else those of its tokens, in order.
    pub open spec fn line_issues(&self, line: Seq<char>, line_number: usize) -> Seq<IssueModel> {
        let code = code_of(line);
        if code.len() == 0 || !self.validate_syntax {
            Seq::empty()
        } else {
            tokens_issues(
                rule_models(self.rules@),
                self.grbl_version,
                line_number,
                tokens_of(code),
                tokens_of(code).len() as int,
            )
        }
    }

    /// The issues of one line of G-code, reported under `line_number`.
    pub fn validate_line(&self, line: &str, line_number: usize) -> (issues: Vec<ValidationIssue>)
        ensures
            issue_models(issues@) == self.line_issues(line@, line_number),
    {
        let text = chars_of(line);
        self.validate_chars(&text, line_number)
    }

    fn validate_chars(&self, line: &Vec<char>, line_number: usize) -> (issues: Vec<
        ValidationIssue,
    >)
        ensures
            issue_models(issues@) == self.line_issues(line@, line_number),
    {
        let mut k: usize = 0;
        while k < line.len() && line[k] != ';'
            invariant
                k <= line.len(),
                comment_at(line@, k as int) == comment_at(line@, 0),
            decreases line.len() - k,
        {
            k += 1;
        }
        let before = slice(line, 0, k);
        let code = trimmed(&before);
        if code.len() == 0 || !self.validate_syntax {
            let issues: Vec<ValidationIssue> = Vec::new();
            assert(issue_models(issues@) =~= Seq::<IssueModel>::empty());
            return issues;
        }
        self.validate_line_syntax(&code, line_number)
    }

    /// The issues of the tokens of a line of code.
    fn validate_line_syntax(&self, code: &Vec<char>, line_number: usize) -> (issues: Vec<
        ValidationIssue,
    >)
        ensures
            issue_models(issues@) == tokens_issues(
                rule_models(self.rules@),
                self.grbl_version,
                line_number,
                tokens_of(code@),
                tokens_of(code@).len() as int,
            ),
    {
        let tokens = scan_line(code);
        let ghost ts = tokens_of(code@);
        let ghost rules = rule_models(self.rules@);
        let mut issues: Vec<ValidationIssue> = Vec::new();
        let mut i: usize = 0;
        assert(issue_models(issues@) =~= tokens_issues(rules, self.grbl_version, line_number, ts, 0));
        while i < tokens.len()
            invariant
                i <= tokens@.len(),
                token_models(tokens@) == ts,
                rules == rule_models(self.rules@),
                issue_models(issues@) == tokens_issues(
                    rules,
                    self.grbl_version,
                    line_number,
                    ts,
                    i as int,
                ),
            decreases tokens@.len() - i,
        {
            assert(ts[i as int] == tokens@[i as int]@);
            let v = self.check_version(&tokens[i], line_number);
            append_issues(&mut issues, v);
            let r = check_range(&tokens[i], line_number);
            append_issues(&mut issues, r);
            i += 1;
        }
        issues
    }

    /// Index of the first rule that is about `command`.
    fn find_rule(&self, command: &Vec<char>) -> (r: Option<usize>)
        ensures
            match r {
                Some(i) => rule_at(rule_models(self.rules@), command@, 0) == Some(i as int) && i
                    < self.rules@.len(),
                None => rule_at(rule_models(self.rules@), command@, 0) is None,
            },
    {
        let ghost rules = rule_models(self.rules@);
        let mut i: usize = 0;
        while i < self.rules.len()
            invariant
                i <= self.rules@.len(),
                rules == rule_models(self.rules@),
                rule_at(rules, command@, i as int) == rule_at(rules, command@, 0),
            decreases self.rules@.len() - i,
        {
            let name = chars_of(self.rules[i].name.as_str());
            let c = command_of(&name);
            assert(rules[i as int].name == self.rules@[i as int].name@);
            if same(&c, command) {
                return Some(i);
            }
            i += 1;
        }
        None
    }

    /// The issue that the command of one token raises, if it raises one.
    fn check_version(&self, t: &Token, line_number: usize) -> (issues: Vec<ValidationIssue>)
        ensures
            issue_models(issues@) == version_issues(
                rule_models(self.rules@),
                self.grbl_version,
                line_number,
                t@,
            ),
    {
        let ghost rules = rule_models(self.rules@);
        let mut bare_key: Vec<char> = Vec::new();
        bare_key.push(t.letter);
        assert(bare_key@ == seq![t.letter]);
        let bare = self.find_rule(&bare_key);
        let found = if t.letter == 'G' || t.letter == 'M' {
            let mut full_key: Vec<char> = Vec::new();
            full_key.push(t.letter);
            extend(&mut full_key, &t.value);
            assert(full_key@ == seq![t.letter] + t.value@);
            match self.find_rule(&full_key) {
                Some(i) => Some(i),
                None => bare,
            }
        } else {
            bare
        };
        let mut issues: Vec<ValidationIssue> = Vec::new();
        match found {
            Some(i) => {
                let rule = &self.rules[i];
                assert(rules[i as int] == rule@);
                if rule.enabled && rule.min_version.rank() > self.grbl_version.rank() {
                    let name = chars_of(rule.name.as_str());
                    let version = chars_of(rule.min_version.name());
                    let made = issue(
                        line_number,
                        rule.severity,
                        text2("Unsupported command: ", &name),
                        text5("Command ", &name, " requires GRBL ", &version, " or later"),
                        text3("Remove ", &name, " or upgrade GRBL firmware"),
                    );
                    push_issue(&mut issues, made);
                }
            },
            None => {},
        }
        assert(issue_models(issues@) =~= version_issues(
            rules,
            self.grbl_version,
            line_number,
            t@,
        ));
        issues
    }

    /// The tokens of a line of G-code: each command letter, upper-cased, with
    /// the numeric token behind it.
    pub fn parse_line(&self, line: &str) -> (r: Vec<(String, String)>)
        ensures
            r@.len() == tokens_of(line@).len(),
            forall|i: int|
                0 <= i < r@.len() ==> (#[trigger] r@[i]).0@ == seq![tokens_of(line@)[i].letter]
                    && r@[i].1@ == tokens_of(line@)[i].value,
    {
        let text = chars_of(line);
        let tokens = scan_line(&text);
        let ghost ts = tokens_of(line@);
        let mut r: Vec<(String, String)> = Vec::new();
        let mut i: usize = 0;
        while i < tokens.len()
            invariant
                i <= tokens@.len(),
                token_models(tokens@) == ts,
                r@.len() == i,
                forall|k: int|
                    0 <= k < i ==> (#[trigger] r@[k]).0@ == seq![ts[k].letter] && r@[k].1@
                        == ts[k].value,
            decreases tokens@.len() - i,
        {
            assert(ts[i as int] == tokens@[i as int]@);
            let mut l: Vec<char> = Vec::new();
            l.push(tokens[i].letter);
            r.push((string_of(&l), string_of(&tokens[i].value)));
            i += 1;
        }
        r
    }

    /// Whether any of the issues is critical.
    pub fn has_critical_errors(issues: &[ValidationIssue]) -> (r: bool)
        ensures
            r == exists|i: int|
                0 <= i < issues@.len() && (#[trigger] issues@[i]).severity == Severity::Critical,
    {
        let mut i: usize = 0;
        while i < issues.len()
            invariant
                i <= issues@.len(),
                forall|k: int| 0 <= k < i ==> (#[trigger] issues@[k]).severity != Severity::Critical,
            decreases issues@.len() - i,
        {
            if issues[i].severity == Severity::Critical {
                return true;
            }
            i += 1;
        }
        false
    }

    /// The number of issues of each severity.
    pub fn get_summary(issues: &[ValidationIssue]) -> (r: SeverityCounts)
        ensures
            r.info == count_of(issues@, Severity::Info, issues@.len() as int),
            r.warning == count_of(issues@, Severity::Warning, issues@.len() as int),
            r.error == count_of(issues@, Severity::Error, issues@.len() as int),
            r.critical == count_of(issues@, Severity::Critical, issues@.len() as int),
    {
        let mut r = SeverityCounts { info: 0, warning: 0, error: 0, critical: 0 };
        let mut i: usize = 0;
        while i < issues.len()
            invariant
                i <= issues@.len(),
                r.info == count_of(issues@, Severity::Info, i as int),
                r.warning == count_of(issues@, Severity::Warning, i as int),
                r.error == count_of(issues@, Severity::Error, i as int),
                r.critical == count_of(issues@, Severity::Critical, i as int),
            decreases issues@.len() - i,
        {
            proof {
                lemma_count_bounded(issues@, Severity::Info, i as int);
                lemma_count_bounded(issues@, Severity::Warning, i as int);
                lemma_count_bounded(issues@, Severity::Error, i as int);
                lemma_count_bounded(issues@, Severity::Critical, i as int);
            }
            match issues[i].severity {
                Severity::Info => {
                    r.info = r.info + 1;
                },
                Severity::Warning => {
                    r.warning = r.warning + 1;
                },
                Severity::Error => {
                    r.error = r.error + 1;
                },
                Severity::Critical => {
                    r.critical = r.critical + 1;
                },
            }
            i += 1;
        }
        r
    }
}

/// The letter seen so far, if one was.
pub open spec fn letter_seen(has_letter: bool, letter: char) -> Option<char> {
    if has_letter {
        Some(letter)
    } else {
        None
    }
}

/// Scans a line of code into its tokens.
pub fn scan_line(code: &Vec<char>) -> (r: Vec<Token>)
    ensures
        token_models(r@) == tokens_of(code@),
{
    let mut found: Vec<Token> = Vec::new();
    let mut has_letter = false;
    let mut letter: char = ' ';
    let mut value: Vec<char> = Vec::new();
    let mut i: usize = 0;
    assert(token_models(found@) =~= Seq::<TokenModel>::empty());
    while i < code.len()
        invariant
            i <= code.len(),
            tokens_of(code@) == token_models(found@) + scan_tokens(
                code@,
                i as int,
                letter_seen(has_letter, letter),
                value@,
            ),
        decreases code.len() - i,
    {
        let c = code[i];
        if char_is_letter(c) {
            close_token(&mut found, has_letter, letter, &value);
            has_letter = true;
            letter = char_upper(c);
            value = Vec::new();
        } else if char_is_digit(c) || c == '.' || c == '-' {
            value.push(c);
        } else if char_is_space(c) && value.len() > 0 && has_letter {
            close_token(&mut found, has_letter, letter, &value);
            has_letter = false;
            value = Vec::new();
        }
        i += 1;
    }
    close_token(&mut found, has_letter, letter, &value);
    found
}

/// Adds the token that is complete, if one is, to the tokens found so far.
fn close_token(found: &mut Vec<Token>, has_letter: bool, letter: char, value: &Vec<char>)
    ensures
        token_models(final(found)@) == token_models(old(found)@) + closed_token(
            letter_seen(has_letter, letter),
            value@,
        ),
{
    if value.len() > 0 && has_letter {
        let copy = slice(value, 0, value.len());
        assert(copy@ == value@);
        let t = Token { letter, value: copy };
        found.push(t);
        assert(found@.last()@ == (TokenModel { letter, value: value@ }));
    }
    assert(token_models(found@) =~= token_models(old(found)@) + closed_token(
        letter_seen(has_letter, letter),
        value@,
    ));
}

/// The issues that the parameter of one token raises.
fn check_range(t: &Token, line_number: usize) -> (issues: Vec<ValidationIssue>)
    ensures
        issue_models(issues@) == range_issues(line_number, t@),
{
    let mut issues: Vec<ValidationIssue> = Vec::new();
    if t.letter == 'F' {
        match Decimal::parse(&t.value) {
            Some(n) => {
                if !n.above_zero() {
                    let shown = n.render();
                    let made = issue(
                        line_number,
                        Severity::Error,
                        "Invalid feed rate".to_owned(),
                        text2("Feed rate must be positive, got ", &shown),
                        "Use a positive feed rate value".to_owned(),
                    );
                    push_issue(&mut issues, made);
                } else if n.exceeds(FEED_RATE_LIMIT) {
                    let shown = n.render();
                    let made = issue(
                        line_number,
                        Severity::Warning,
                        "High feed rate".to_owned(),
                        text3("Feed rate ", &shown, " is unusually high"),
                        "Verify feed rate is appropriate for your machine".to_owned(),
                    );
                    push_issue(&mut issues, made);
                }
            },
            None => {},
        }
    } else if t.letter == 'S' {
        match Decimal::parse(&t.value) {
            Some(n) => {
                if n.below_zero() {
                    let shown = n.render();
                    let made = issue(
                        line_number,
                        Severity::Error,
                        "Invalid spindle speed".to_owned(),
                        text2("Spindle speed cannot be negative, got ", &shown),
                        "Use a non-negative spindle speed value".to_owned(),
                    );
                    push_issue(&mut issues, made);
                } else if n.exceeds(SPINDLE_SPEED_LIMIT) {
                    let shown = n.render();
                    let made = issue(
                        line_number,
                        Severity::Warning,
                        "High spindle speed".to_owned(),
                        text3("Spindle speed ", &shown, " is unusually high"),
                        "Verify spindle speed is appropriate for your machine".to_owned(),
                    );
                    push_issue(&mut issues, made);
                }
            },
            None => {},
        }
    } else if t.letter == 'X' || t.letter == 'Y' || t.letter == 'Z' {
        match Decimal::parse(&t.value) {
            Some(_) => {},
            None => {
                let mut axis: Vec<char> = Vec::new();
                axis.push(t.letter);
                assert(axis@ == seq![t.letter]);
                let made = issue(
                    line_number,
                    Severity::Error,
                    text3("Invalid ", &axis, " coordinate"),
                    text5("Could not parse ", &axis, " coordinate: ", &t.value, ""),
                    text3("Use a numeric value for ", &axis, " coordinate"),
                );
                proof {
                    reveal_strlit("");
                    assert(""@ == Seq::<char>::empty());
                    assert(made@.message == "Could not parse "@ + seq![t.letter]
                        + " coordinate: "@ + t.value@);
                }
                push_issue(&mut issues, made);
            },
        }
    }
    assert(issue_models(issues@) =~= range_issues(line_number, t@));
    issues
}

} // verus!


