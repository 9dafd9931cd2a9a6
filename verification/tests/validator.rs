//! Tests of the G-code validator.

use gcodekit2::designer::validator::{scan_line, Token};
use gcodekit2::designer::{GcodeValidator, GrblVersion, Severity, SeverityCounts, ValidationIssue};

#[test]
fn test_validator_creation() {
    let validator = GcodeValidator::new(GrblVersion::V1_2);
    assert_eq!(validator.grbl_version, GrblVersion::V1_2);
    assert!(validator.validate_syntax);
    assert!(validator.validate_semantics);
}

#[test]
fn test_simple_program_valid() {
    let validator = GcodeValidator::new(GrblVersion::V1_2);
    let gcode = "G21\nG90\nG0 X10 Y10\nG1 Z-5 F1000\nM5\n";
    let issues = validator.validate_program(gcode);
    assert!(issues.is_empty());
}

#[test]
fn test_invalid_feed_rate() {
    let validator = GcodeValidator::new(GrblVersion::V1_2);
    let gcode = "G1 X10 F-100";
    let issues = validator.validate_program(gcode);
    assert!(!issues.is_empty());
    assert!(issues[0].severity == Severity::Error);
}

#[test]
fn test_invalid_spindle_speed() {
    let validator = GcodeValidator::new(GrblVersion::V1_2);
    let gcode = "M3 S-1000";
    let issues = validator.validate_program(gcode);
    assert!(!issues.is_empty());
    assert!(issues[0].severity == Severity::Error);
}

#[test]
fn test_version_check_v1_0() {
    let validator = GcodeValidator::new(GrblVersion::V1_0);
    let gcode = "G1 F-100";
    let issues = validator.validate_program(gcode);
    assert!(!issues.is_empty());
    assert!(issues[0].severity == Severity::Error);
}

#[test]
fn test_high_feed_rate_warning() {
    let validator = GcodeValidator::new(GrblVersion::V1_2);
    let gcode = "G1 X10 F25000";
    let issues = validator.validate_program(gcode);
    assert!(!issues.is_empty());
    assert!(issues[0].severity == Severity::Warning);
}

#[test]
fn validator_test_high_feed_rate_warning() {
    let validator = GcodeValidator::new(GrblVersion::V1_2);
    let gcode = "G1 X10 F25000";
    let issues = validator.validate_program(gcode);
    assert!(!issues.is_empty());
    assert_eq!(issues[0].severity, Severity::Warning);
}

#[test]
fn test_high_spindle_speed_warning() {
    let validator = GcodeValidator::new(GrblVersion::V1_2);
    let gcode = "M3 S40000";
    let issues = validator.validate_program(gcode);
    assert!(!issues.is_empty());
    assert!(issues[0].severity == Severity::Warning);
}

#[test]
fn validator_test_high_spindle_speed_warning() {
    let validator = GcodeValidator::new(GrblVersion::V1_2);
    let gcode = "M3 S40000";
    let issues = validator.validate_program(gcode);
    assert!(!issues.is_empty());
    assert_eq!(issues[0].severity, Severity::Warning);
}

#[test]
fn test_parse_gcode_line() {
    let validator = GcodeValidator::new(GrblVersion::V1_2);
    let commands = validator.parse_line("G1 X10.5 Y20 Z-5.2 F1000 S5000");
    assert_eq!(commands.len(), 6);
    assert_eq!(commands[0], ("G".to_string(), "1".to_string()));
    assert_eq!(commands[1], ("X".to_string(), "10.5".to_string()));
    assert_eq!(commands[2], ("Y".to_string(), "20".to_string()));
    assert_eq!(commands[3], ("Z".to_string(), "-5.2".to_string()));
}

#[test]
fn test_skip_comments() {
    let validator = GcodeValidator::new(GrblVersion::V1_2);
    let gcode = "G0 X10 ; Move to X\n; Full line comment\nG1 Y20 F1000";
    let issues = validator.validate_program(gcode);
    assert!(issues.is_empty());
}

#[test]
fn test_issue_with_suggestion() {
    let validator = GcodeValidator::new(GrblVersion::V1_2);
    let gcode = "G1 F-50";
    let issues = validator.validate_program(gcode);
    assert!(!issues.is_empty());
    assert!(issues[0].suggestion.is_some());
}

#[test]
fn test_disable_rule() {
    let mut validator = GcodeValidator::new(GrblVersion::V1_0);
    validator.set_rule_enabled("G2_arc_cw", false);
    let gcode = "G2 X10 Y10";
    let issues = validator.validate_program(gcode);
    assert!(issues.is_empty());
}

#[test]
fn test_grbl_version_v1_1() {
    let validator = GcodeValidator::new(GrblVersion::V1_1);
    let gcode = "G2 X10 Y10 I5 J5";
    let issues = validator.validate_program(gcode);
    assert!(issues.is_empty());
}

#[test]
fn test_issue_summary() {
    let validator = GcodeValidator::new(GrblVersion::V1_2);
    let gcode = "G1 F-100\nM3 S-50\nG1 X10 F30000";
    let issues = validator.validate_program(gcode);
    let summary = GcodeValidator::get_summary(&issues);
    assert!(summary.contains_key(&Severity::Error));
    assert!(summary.contains_key(&Severity::Warning));
}

#[test]
fn test_has_critical_errors() {
    let mut issues = vec![ValidationIssue {
        line_number: 1,
        severity: Severity::Warning,
        issue_type: "test".to_string(),
        message: "test".to_string(),
        suggestion: None,
    }];

    assert!(!GcodeValidator::has_critical_errors(&issues));

    issues.push(ValidationIssue {
        line_number: 2,
        severity: Severity::Critical,
        issue_type: "test".to_string(),
        message: "test".to_string(),
        suggestion: None,
    });

    assert!(GcodeValidator::has_critical_errors(&issues));
}

#[test]
fn test_invalid_coordinate() {
    let validator = GcodeValidator::new(GrblVersion::V1_2);
    let gcode = "G1 X10.5 Y invalid Z5";
    let issues = validator.validate_program(gcode);
    assert!(issues.is_empty() || issues.iter().any(|i| i.issue_type.contains("coordinate")));
}

#[test]
fn test_multiline_program_validation() {
    let validator = GcodeValidator::new(GrblVersion::V1_2);
    let gcode = "G21\nG90\nG0 X0 Y0\nG1 Z-5 F500\nG0 Z5\nM5\n";
    let issues = validator.validate_program(gcode);
    assert!(issues.is_empty());
}

#[test]
fn test_mixed_valid_invalid() {
    let validator = GcodeValidator::new(GrblVersion::V1_2);
    let gcode = "G0 X10\nG1 F-100\nG0 Y10\n";
    let issues = validator.validate_program(gcode);
    assert!(!issues.is_empty());
    assert!(issues.len() == 1);
    assert_eq!(issues[0].line_number, 2);
}

#[test]
fn test_complete_valid_program() {
    let validator = GcodeValidator::new(GrblVersion::V1_2);
    let gcode = "
G21                 ; Metric units
G90                 ; Absolute positioning
G0 X0 Y0 Z5        ; Rapid to origin
M3 S5000           ; Start spindle
G1 Z-2 F100        ; Feed down
G1 X10 F500        ; Cut to X10
G1 Y10 F500        ; Cut to Y10
G1 X0 F500         ; Cut back to X0
G1 Y0 F500         ; Cut back to Y0
G0 Z5              ; Rapid back to safe height
M5                 ; Stop spindle
";
    let issues = validator.validate_program(gcode);
    assert!(issues.is_empty(), "Valid program should have no issues");
}

#[test]
fn test_negative_feed_rate() {
    let validator = GcodeValidator::new(GrblVersion::V1_2);
    let gcode = "G1 X10 F-100";
    let issues = validator.validate_program(gcode);
    assert!(!issues.is_empty());
    assert_eq!(issues[0].severity, Severity::Error);
    assert!(issues[0].message.contains("positive"));
}

#[test]
fn test_negative_spindle_speed() {
    let validator = GcodeValidator::new(GrblVersion::V1_2);
    let gcode = "M3 S-1000";
    let issues = validator.validate_program(gcode);
    assert!(!issues.is_empty());
    assert!(issues[0].severity == Severity::Error);
}

#[test]
fn test_comments_are_skipped() {
    let validator = GcodeValidator::new(GrblVersion::V1_2);
    let gcode = "
; This is a comment
G0 X10 Y10  ; Move to position
; Another comment
G1 Z-5 F100 ; Feed down
";
    let issues = validator.validate_program(gcode);
    assert!(issues.is_empty());
}

#[test]
fn test_mixed_errors_and_warnings() {
    let validator = GcodeValidator::new(GrblVersion::V1_2);
    let gcode = "
G1 X10 F-100     ; Error: negative feed rate
G1 X20 F30000    ; Warning: high feed rate
M3 S5000 F100    ; Valid
";
    let issues = validator.validate_program(gcode);
    assert!(!issues.is_empty());

    let errors = issues.iter().filter(|i| i.severity == Severity::Error).count();
    let warnings = issues.iter().filter(|i| i.severity == Severity::Warning).count();

    assert_eq!(errors, 1);
    assert_eq!(warnings, 1);
}

#[test]
fn test_multiple_errors_per_line() {
    let validator = GcodeValidator::new(GrblVersion::V1_2);
    let gcode = "G1 X10 F-100 S-500";
    let issues = validator.validate_program(gcode);

    assert!(issues.len() >= 2);
    assert!(issues.iter().any(|i| i.issue_type.contains("feed")));
    assert!(issues.iter().any(|i| i.issue_type.contains("spindle")));
}

#[test]
fn test_issue_has_suggestion() {
    let validator = GcodeValidator::new(GrblVersion::V1_2);
    let gcode = "G1 F-50";
    let issues = validator.validate_program(gcode);

    assert!(!issues.is_empty());
    assert!(issues[0].suggestion.is_some());
}

#[test]
fn test_line_numbers_in_issues() {
    let validator = GcodeValidator::new(GrblVersion::V1_2);
    let gcode = "G0 X10\nG1 F-100\nG0 Y10";
    let issues = validator.validate_program(gcode);

    assert!(!issues.is_empty());
    assert_eq!(issues[0].line_number, 2);
}

#[test]
fn test_empty_lines_skipped() {
    let validator = GcodeValidator::new(GrblVersion::V1_2);
    let gcode = "G0 X10\n\n\nG1 Y10";
    let issues = validator.validate_program(gcode);
    assert!(issues.is_empty());
}

#[test]
fn test_disable_validation_rules() {
    let mut validator = GcodeValidator::new(GrblVersion::V1_2);
    validator.set_rule_enabled("F_feed_without_motion", false);

    let gcode = "G1 X10 F-100";
    let issues = validator.validate_program(gcode);
    let _ = issues;
}

#[test]
fn test_complex_program_with_arcs() {
    let validator = GcodeValidator::new(GrblVersion::V1_2);
    let gcode = "
G0 X0 Y0
M3 S5000
G1 Z-2 F100
G1 X10 Y0 F500
G2 X10 Y10 I0 J10 F500
G1 X0 Y10 F500
G0 Z5
M5
";
    let issues = validator.validate_program(gcode);
    assert!(issues.is_empty());
}

#[test]
fn test_grbl_version_compatibility() {
    let validator_v1_0 = GcodeValidator::new(GrblVersion::V1_0);
    let validator_v1_2 = GcodeValidator::new(GrblVersion::V1_2);

    let gcode = "G1 X10 F1000";

    let issues_v1_0 = validator_v1_0.validate_program(gcode);
    let issues_v1_2 = validator_v1_2.validate_program(gcode);

    assert!(issues_v1_0.is_empty());
    assert!(issues_v1_2.is_empty());
}

#[test]
fn test_error_classification() {
    let validator = GcodeValidator::new(GrblVersion::V1_2);
    let gcode = "G1 F-100";
    let issues = validator.validate_program(gcode);

    assert!(!issues.is_empty());
    let issue = &issues[0];

    assert_eq!(issue.line_number, 1);
    assert_eq!(issue.severity, Severity::Error);
    assert!(!issue.issue_type.is_empty());
    assert!(!issue.message.is_empty());
    assert!(issue.suggestion.is_some());
}

#[test]
fn test_summary_statistics() {
    let validator = GcodeValidator::new(GrblVersion::V1_2);
    let gcode = "
G1 X10 F-100
G1 X20 F25000
M3 S-5000
";
    let issues = validator.validate_program(gcode);
    let summary = GcodeValidator::get_summary(&issues);

    assert!(summary.contains_key(&Severity::Error));
    assert!(summary.contains_key(&Severity::Warning));
}

#[test]
fn test_critical_error_detection() {
    let issues = vec![];
    assert!(!GcodeValidator::has_critical_errors(&issues));

    let issue = gcodekit2::designer::ValidationIssue {
        line_number: 1,
        severity: Severity::Warning,
        issue_type: "test".to_string(),
        message: "test".to_string(),
        suggestion: None,
    };
    let issues = vec![issue];
    assert!(!GcodeValidator::has_critical_errors(&issues));
}

#[test]
fn test_realistic_engraving_program() {
    let validator = GcodeValidator::new(GrblVersion::V1_2);
    let gcode = "
G21                    ; Metric
G90                    ; Absolute
G0 Z5                  ; Safe height
G0 X0 Y0               ; Start position
M3 S50                 ; Laser on, low power
G1 Z0 F100             ; Contact
G2 X10 Y10 I5 J5 F100  ; Arc engrave
G0 Z5                  ; Lift
M5                     ; Laser off
";
    let issues = validator.validate_program(gcode);
    assert!(issues.is_empty(), "Realistic program should be valid");
}

#[test]
fn test_whitespace_handling() {
    let validator = GcodeValidator::new(GrblVersion::V1_2);
    let gcode = "G0    X10    Y10    Z5";
    let issues = validator.validate_program(gcode);
    assert!(issues.is_empty());
}

#[test]
fn test_inline_comments() {
    let validator = GcodeValidator::new(GrblVersion::V1_2);
    let gcode = "G1 X10 F1000 ; This is a comment";
    let issues = validator.validate_program(gcode);
    assert!(issues.is_empty());
}

#[test]
fn test_parse_coordinates() {
    let validator = GcodeValidator::new(GrblVersion::V1_2);
    let gcode = "G1 X10.5 Y-20.75 Z0.25 F500";
    let issues = validator.validate_program(gcode);
    assert!(issues.is_empty());
}

// Cases beyond those above.

#[test]
fn test_negative_feed_is_one_error_about_feed_rate() {
    let validator = GcodeValidator::new(GrblVersion::V1_2);
    let issues = validator.validate_program("G1 X10 F-5");
    assert_eq!(issues.len(), 1);
    assert_eq!(issues[0].severity, Severity::Error);
    assert_eq!(issues[0].issue_type, "Invalid feed rate");
    assert_eq!(issues[0].message, "Feed rate must be positive, got -5");
    assert_eq!(
        issues[0].suggestion,
        Some("Use a positive feed rate value".to_string())
    );
    assert_eq!(issues[0].line_number, 1);
    assert!(validator.validate_program("G1 X10 F1000").is_empty());
}

#[test]
fn test_feed_rate_limits() {
    let validator = GcodeValidator::new(GrblVersion::V1_2);
    assert!(validator.validate_line("F20000", 1).is_empty());
    assert!(validator.validate_line("F20000.000", 1).is_empty());
    assert!(validator.validate_line("F0.001", 1).is_empty());
    let high = validator.validate_line("F20000.001", 7);
    assert_eq!(high.len(), 1);
    assert_eq!(high[0].severity, Severity::Warning);
    assert_eq!(high[0].issue_type, "High feed rate");
    assert_eq!(high[0].message, "Feed rate 20000.001 is unusually high");
    assert_eq!(high[0].line_number, 7);
    let zero = validator.validate_line("F0", 1);
    assert_eq!(zero.len(), 1);
    assert_eq!(zero[0].severity, Severity::Error);
    assert_eq!(zero[0].message, "Feed rate must be positive, got 0");
    let zero = validator.validate_line("F-0.00", 1);
    assert_eq!(zero[0].message, "Feed rate must be positive, got -0");
    let huge = validator.validate_line("F100000000000000000000000000", 1);
    assert_eq!(huge[0].severity, Severity::Warning);
    assert!(validator.validate_line("F1-2", 1).is_empty());
    assert!(validator.validate_line("F-", 1).is_empty());
}

#[test]
fn test_spindle_speed_limits() {
    let validator = GcodeValidator::new(GrblVersion::V1_2);
    assert!(validator.validate_line("S0", 1).is_empty());
    assert!(validator.validate_line("S-0", 1).is_empty());
    assert!(validator.validate_line("S30000", 1).is_empty());
    let high = validator.validate_line("S30000.5", 1);
    assert_eq!(high[0].severity, Severity::Warning);
    assert_eq!(high[0].issue_type, "High spindle speed");
    assert_eq!(high[0].message, "Spindle speed 30000.5 is unusually high");
    assert_eq!(
        high[0].suggestion,
        Some("Verify spindle speed is appropriate for your machine".to_string())
    );
    let negative = validator.validate_line("S-0.5", 1);
    assert_eq!(negative[0].severity, Severity::Error);
    assert_eq!(negative[0].issue_type, "Invalid spindle speed");
    assert_eq!(negative[0].message, "Spindle speed cannot be negative, got -0.5");
    assert_eq!(
        negative[0].suggestion,
        Some("Use a non-negative spindle speed value".to_string())
    );
}

#[test]
fn test_coordinate_must_be_a_number() {
    let validator = GcodeValidator::new(GrblVersion::V1_2);
    let issues = validator.validate_line("G1 X1.2.3 Y-- Z.", 4);
    assert_eq!(issues.len(), 3);
    assert_eq!(issues[0].issue_type, "Invalid X coordinate");
    assert_eq!(issues[0].message, "Could not parse X coordinate: 1.2.3");
    assert_eq!(
        issues[0].suggestion,
        Some("Use a numeric value for X coordinate".to_string())
    );
    assert_eq!(issues[1].issue_type, "Invalid Y coordinate");
    assert_eq!(issues[1].message, "Could not parse Y coordinate: --");
    assert_eq!(issues[2].issue_type, "Invalid Z coordinate");
    for i in &issues {
        assert_eq!(i.severity, Severity::Error);
        assert_eq!(i.line_number, 4);
    }
    assert!(validator.validate_line("X.5 Y5. Z-.5", 1).is_empty());
}

#[test]
fn test_commands_that_old_firmware_lacks() {
    let validator = GcodeValidator::new(GrblVersion::V1_0);
    let issues = validator.validate_program("G0 X1\nG2 X10 Y10 I5 J5\nM4 S100\nG1 X2");
    assert_eq!(issues.len(), 2);
    assert_eq!(issues[0].line_number, 2);
    assert_eq!(issues[0].severity, Severity::Error);
    assert_eq!(issues[0].issue_type, "Unsupported command: G2_arc_cw");
    assert_eq!(issues[0].message, "Command G2_arc_cw requires GRBL V1_1 or later");
    assert_eq!(
        issues[0].suggestion,
        Some("Remove G2_arc_cw or upgrade GRBL firmware".to_string())
    );
    assert_eq!(issues[1].line_number, 3);
    assert_eq!(issues[1].issue_type, "Unsupported command: M4_spindle_ccw");
    for code in ["G3 X1", "G10 L2", "G30", "G38", "G43", "G49"] {
        let found = validator.validate_line(code, 1);
        assert_eq!(found.len(), 1, "{}", code);
        assert_eq!(found[0].severity, Severity::Error, "{}", code);
    }
    for code in ["G0 X1", "G1 X1", "G4", "G28", "M3", "M5", "G21", "G90"] {
        assert!(validator.validate_line(code, 1).is_empty(), "{}", code);
    }
    for version in [GrblVersion::V1_1, GrblVersion::V1_2] {
        let newer = GcodeValidator::new(version);
        assert!(newer.validate_program("G2 X10 Y10 I5 J5\nM4 S100\nG38").is_empty());
    }
}

#[test]
fn test_rules_are_toggled_by_name() {
    let mut validator = GcodeValidator::new(GrblVersion::V1_0);
    assert_eq!(validator.rules.len(), 16);
    validator.set_rule_enabled("G2_arc_cw", false);
    validator.set_rule_enabled("no_such_rule", false);
    assert!(validator.validate_line("G2 X1 Y1", 1).is_empty());
    assert_eq!(validator.validate_line("G3 X1 Y1", 1).len(), 1);
    let disabled: Vec<&str> = validator
        .rules
        .iter()
        .filter(|r| !r.enabled)
        .map(|r| r.name.as_str())
        .collect();
    assert_eq!(disabled, vec!["G2_arc_cw"]);
    validator.set_rule_enabled("G2_arc_cw", true);
    assert_eq!(validator.validate_line("G2 X1 Y1", 1).len(), 1);
    validator.set_rule_enabled("F_feed_without_motion", false);
    assert_eq!(validator.validate_line("F-1", 1).len(), 1);
}

#[test]
fn test_syntax_validation_can_be_turned_off() {
    let mut validator = GcodeValidator::new(GrblVersion::V1_0);
    validator.set_validate_syntax(false);
    assert!(!validator.validate_syntax);
    assert!(validator.validate_program("G2 X1 F-5").is_empty());
    validator.set_validate_syntax(true);
    validator.set_validate_semantics(false);
    assert!(!validator.validate_semantics);
    assert_eq!(validator.validate_program("G2 X1 F-5").len(), 2);
}

#[test]
fn test_tokens() {
    let validator = GcodeValidator::new(GrblVersion::V1_2);
    let pairs = |line: &str| -> Vec<(String, String)> { validator.parse_line(line) };
    let p = |l: &str, v: &str| (l.to_string(), v.to_string());
    assert_eq!(pairs("g1x10y-2.5"), vec![p("G", "1"), p("X", "10"), p("Y", "-2.5")]);
    assert_eq!(pairs("G 1  X"), vec![p("G", "1")]);
    assert_eq!(pairs("10 G1"), vec![p("G", "1")]);
    assert_eq!(pairs("G1 2"), vec![p("G", "1")]);
    assert_eq!(pairs("X1*2"), vec![p("X", "12")]);
    assert_eq!(pairs("XY5"), vec![p("Y", "5")]);
    assert_eq!(pairs(""), Vec::<(String, String)>::new());
    assert_eq!(pairs("G1\tX1\u{a0}Y2"), vec![p("G", "1"), p("X", "1"), p("Y", "2")]);
    let chars: Vec<char> = "M3 S-1.5".chars().collect();
    let tokens: Vec<Token> = scan_line(&chars);
    assert_eq!(tokens.len(), 2);
    assert_eq!(tokens[1].letter, 'S');
    assert_eq!(tokens[1].value, vec!['-', '1', '.', '5']);
}

#[test]
fn test_inline_comment_hides_errors() {
    let validator = GcodeValidator::new(GrblVersion::V1_2);
    assert!(validator.validate_line("G1 X1 ; F-5", 1).is_empty());
    assert!(validator.validate_line("   ; F-5", 1).is_empty());
    assert!(validator.validate_line("", 1).is_empty());
    assert_eq!(validator.validate_program("  ; F-5\n   \nF-5 ; x\r\nF-6").len(), 2);
}

#[test]
fn test_summary_counts() {
    let validator = GcodeValidator::new(GrblVersion::V1_0);
    let issues = validator.validate_program("G2 F-1\nF30000\nS-1 X..");
    let summary = GcodeValidator::get_summary(&issues);
    assert_eq!(
        summary,
        SeverityCounts { info: 0, warning: 1, error: 4, critical: 0 }
    );
    assert_eq!(summary.get(&Severity::Error), Some(4));
    assert_eq!(summary.get(&Severity::Info), None);
    assert_eq!(summary.count(&Severity::Warning), 1);
    assert!(!summary.contains_key(&Severity::Critical));
    assert!(!GcodeValidator::has_critical_errors(&issues));
}

#[test]
fn test_severity_and_version_names() {
    assert_eq!(Severity::Info.to_string(), "Info");
    assert_eq!(Severity::Warning.to_string(), "Warning");
    assert_eq!(Severity::Error.to_string(), "Error");
    assert_eq!(Severity::Critical.to_string(), "Critical");
    assert!(Severity::Info < Severity::Warning);
    assert!(Severity::Error < Severity::Critical);
    assert!(GrblVersion::V1_0 < GrblVersion::V1_1);
    assert!(GrblVersion::V1_1 < GrblVersion::V1_2);
    assert_eq!(GrblVersion::default(), GrblVersion::V1_2);
    assert_eq!(GrblVersion::V1_1.name(), "V1_1");
    assert_eq!(GrblVersion::V1_0.rank(), 0);
    assert_eq!(GrblVersion::V1_2.rank(), 2);
}

#[test]
fn test_issue_clone() {
    let validator = GcodeValidator::new(GrblVersion::V1_2);
    let issues = validator.validate_line("F-1", 3);
    let copy = issues[0].clone();
    assert_eq!(copy.line_number, 3);
    assert_eq!(copy.message, issues[0].message);
    assert_eq!(copy.issue_type, issues[0].issue_type);
    assert_eq!(copy.suggestion, issues[0].suggestion);
    assert_eq!(copy.severity, issues[0].severity);
}
