//! Tests of the controller, the machine state and the version banner.

use gcodekit2::communication::{
    ConnectStep, ControllerError, GrblController, MachineState, Position, ReadOutcome,
    RecoveryConfig, SerialConfig, VersionInfo, DataBits, StopBits, Parity, FlowControl,
    EMERGENCY_STOP_BYTE, RESPONSE_LOG_CAPACITY,
};

#[test]
fn test_grbl_controller_creation() {
    let controller = GrblController::new();
    assert!(!controller.is_connected());
}

#[test]
fn test_machine_state_parsing() {
    assert_eq!(MachineState::from_str("IDLE"), MachineState::Idle);
    assert_eq!(MachineState::from_str("run"), MachineState::Run);
    assert_eq!(MachineState::from_str("ALARM"), MachineState::Alarm);
    assert_eq!(MachineState::from_str("Hold"), MachineState::Hold);
}

#[test]
fn mod_test_machine_state_parsing() {
    assert_eq!(MachineState::from_str("IDLE"), MachineState::Idle);
    assert_eq!(MachineState::from_str("run"), MachineState::Run);
    assert_eq!(MachineState::from_str("ALARM"), MachineState::Alarm);
    assert_eq!(MachineState::from_str("Hold"), MachineState::Hold);
}

#[test]
fn test_position_creation() {
    let pos = Position { x: 10500, y: 20300, z: 5100 };
    assert_eq!(pos.x, 10500);
    assert_eq!(pos.y, 20300);
    assert_eq!(pos.z, 5100);
}

#[test]
fn test_version_detection() {
    let mut controller = GrblController::new();
    assert_eq!(GrblController::version_query(), "$I");
    let version = controller
        .detect_version(ReadOutcome::Data("GRBL v1.1h".to_string()))
        .unwrap();
    assert_eq!(version, "GRBL v1.1h");
    assert_eq!(controller.get_status().version, "GRBL v1.1h");
}

#[test]
fn test_version_detection_without_reply() {
    let mut controller = GrblController::new();
    let r = controller.detect_version(ReadOutcome::TimedOut);
    assert_eq!(r, Err(ControllerError::VersionUnavailable));
    assert_eq!(controller.get_status().version, "");
    assert!(!controller.is_connected());
    let r = controller.detect_version(ReadOutcome::Failed);
    assert_eq!(r, Err(ControllerError::VersionUnavailable));
}

#[test]
fn test_status_update() {
    let mut controller = GrblController::new();
    let mpos = Position { x: 1000, y: 2000, z: 3000 };
    let wpos = Position { x: 0, y: 0, z: 0 };
    controller.update_status(MachineState::Idle, mpos, wpos, 1000, 0);
    let status = controller.get_status();
    assert_eq!(status.state, MachineState::Idle);
    assert_eq!(status.mpos.x, 1000);
    assert_eq!(status.feed_rate, 1000);
    assert_eq!(status.spindle_speed, 0);
    assert!(!status.connected);
}

#[test]
fn test_command_queue() {
    let mut controller = GrblController::new();
    assert_eq!(controller.send_command("G0 X10 Y10"), "G0 X10 Y10\n");
    assert_eq!(controller.send_command("G1 Z-5 F100"), "G1 Z-5 F100\n");

    let cmd1 = controller.get_next_command();
    assert_eq!(cmd1, Some("G0 X10 Y10".to_string()));

    let cmd2 = controller.get_next_command();
    assert_eq!(cmd2, Some("G1 Z-5 F100".to_string()));

    assert_eq!(controller.get_next_command(), None);
}

#[test]
fn test_response_logging() {
    let mut controller = GrblController::new();
    controller.log_response("ok".to_string());
    controller.log_response("error: Unknown command".to_string());

    let log = controller.get_response_log();
    assert_eq!(log.len(), 2);
    assert_eq!(log[0], "ok");

    controller.clear_response_log();
    assert!(controller.get_response_log().is_empty());
}

#[test]
fn test_recovery_config() {
    let mut controller = GrblController::new();
    let config = RecoveryConfig {
        max_retries: 5,
        retry_delay_ms: 1000,
        auto_reconnect: true,
        reconnect_delay_ms: 3000,
    };
    controller.set_recovery_config(config.clone());
    let retrieved = controller.get_recovery_config();
    assert_eq!(retrieved.max_retries, 5);
}

#[test]
fn test_recovery_config_default() {
    let config = RecoveryConfig::default();
    assert_eq!(config.max_retries, 3);
    assert_eq!(config.retry_delay_ms, 500);
    assert!(config.auto_reconnect);
    assert_eq!(config.reconnect_delay_ms, 2000);
}

#[test]
fn test_emergency_stop() {
    let mut controller = GrblController::new();
    assert_eq!(controller.emergency_stop(), EMERGENCY_STOP_BYTE);
    assert_eq!(EMERGENCY_STOP_BYTE, 0x85);
    let status = controller.get_status();
    assert_eq!(status.state, MachineState::Alarm);
}

#[test]
fn test_machine_state_colors() {
    assert_eq!(MachineState::Idle.color(), "#00AA00");
    assert_eq!(MachineState::Run.color(), "#0000FF");
    assert_eq!(MachineState::Alarm.color(), "#FF0000");
}

#[test]
fn mod_test_machine_state_colors() {
    assert_eq!(MachineState::Idle.color(), "#00AA00");
    assert_eq!(MachineState::Run.color(), "#0000FF");
    assert_eq!(MachineState::Alarm.color(), "#FF0000");
}

#[test]
fn test_machine_state_all_colors() {
    assert_eq!(MachineState::Jog.color(), "#0000FF");
    assert_eq!(MachineState::Hold.color(), "#FFFF00");
    assert_eq!(MachineState::Door.color(), "#FFFF00");
    assert_eq!(MachineState::Check.color(), "#FF0000");
    assert_eq!(MachineState::Unknown.color(), "#CCCCCC");
    assert_eq!(MachineState::Home.color(), "#CCCCCC");
    assert_eq!(MachineState::Sleep.color(), "#CCCCCC");
}

#[test]
fn test_serial_config_defaults() {
    let config = SerialConfig::default();
    assert_eq!(config.baud_rate, 115200);
    assert_eq!(config.timeout_ms, 500);
    assert_eq!(config.data_bits, DataBits::Eight);
    assert_eq!(config.stop_bits, StopBits::One);
    assert_eq!(config.parity, Parity::Disabled);
    assert_eq!(config.flow_control, FlowControl::Disabled);
}

#[test]
fn test_machine_state_is_case_insensitive_and_total() {
    let names = [
        ("idle", MachineState::Idle),
        ("run", MachineState::Run),
        ("hold", MachineState::Hold),
        ("jog", MachineState::Jog),
        ("alarm", MachineState::Alarm),
        ("door", MachineState::Door),
        ("check", MachineState::Check),
        ("home", MachineState::Home),
        ("sleep", MachineState::Sleep),
    ];
    for (name, state) in names {
        assert_eq!(MachineState::from_str(name), state);
        assert_eq!(MachineState::from_str(&name.to_uppercase()), state);
        let mut mixed = String::new();
        for (i, c) in name.chars().enumerate() {
            if i % 2 == 0 {
                mixed.push(c.to_ascii_uppercase());
            } else {
                mixed.push(c);
            }
        }
        assert_eq!(MachineState::from_str(&mixed), state);
        assert_eq!(MachineState::from_str(&format!("  {}\t\n", name)), state);
    }
    assert_eq!(MachineState::from_str(""), MachineState::Unknown);
    assert_eq!(MachineState::from_str("   "), MachineState::Unknown);
    assert_eq!(MachineState::from_str("Idle|MPos"), MachineState::Unknown);
    assert_eq!(MachineState::from_str("id le"), MachineState::Unknown);
    assert_eq!(MachineState::from_str("\u{1F600}"), MachineState::Unknown);
    assert_eq!(MachineState::from_str("unknown"), MachineState::Unknown);
    assert_eq!(MachineState::default(), MachineState::Unknown);
}

#[test]
fn test_machine_state_ignores_case_beyond_ascii() {
    // The long s and the dotless i have S and I as their upper case.
    assert_eq!(MachineState::from_str("\u{17f}leep"), MachineState::Sleep);
    assert_eq!(MachineState::from_str("\u{131}dle"), MachineState::Idle);
    assert_eq!(MachineState::from_str("\u{131}DLE"), MachineState::Idle);
    assert_eq!(MachineState::from_str(" \u{a0}\u{17f}LEEP\u{2003}"), MachineState::Sleep);
    // The sharp s becomes two letters, which name no state.
    assert_eq!(MachineState::from_str("\u{df}leep"), MachineState::Unknown);
    // A letter with a dot above is no I.
    assert_eq!(MachineState::from_str("\u{130}dle"), MachineState::Unknown);
    let text: Vec<char> = "\u{17f}leep".chars().collect();
    assert_eq!(MachineState::from_chars(&text), MachineState::Sleep);
}

#[test]
fn test_machine_state_from_upper_case() {
    let names = [
        ("IDLE", MachineState::Idle),
        ("RUN", MachineState::Run),
        ("HOLD", MachineState::Hold),
        ("JOG", MachineState::Jog),
        ("ALARM", MachineState::Alarm),
        ("DOOR", MachineState::Door),
        ("CHECK", MachineState::Check),
        ("HOME", MachineState::Home),
        ("SLEEP", MachineState::Sleep),
    ];
    for (name, state) in names {
        assert_eq!(MachineState::from_upper_case(name), state);
        assert_eq!(MachineState::from_upper_case(&name.to_lowercase()), MachineState::Unknown);
        assert_eq!(MachineState::from_upper_case(&format!(" {}", name)), MachineState::Unknown);
    }
    assert_eq!(MachineState::from_upper_case(""), MachineState::Unknown);
    assert_eq!(MachineState::from_upper_case("Idle"), MachineState::Unknown);
    assert_eq!(MachineState::from_upper_case("IDLES"), MachineState::Unknown);
}

#[test]
fn test_version_parse() {
    let v = VersionInfo::parse("GRBL v1.1h").unwrap();
    assert_eq!((v.major, v.minor, v.patch), (1, 1, 'h'));
    let v = VersionInfo::parse("  GRBL   v0.9j  extra").unwrap();
    assert_eq!((v.major, v.minor, v.patch), (0, 9, 'j'));
    let v = VersionInfo::parse("GRBL 12.3").unwrap();
    assert_eq!((v.major, v.minor, v.patch), (12, 3, '0'));
    let v = VersionInfo::parse("GRBL vv4294967295.7z.9").unwrap();
    assert_eq!((v.major, v.minor, v.patch), (4294967295, 7, 'z'));
    let v = VersionInfo::parse("GRBL v+2.15").unwrap();
    assert_eq!((v.major, v.minor, v.patch), (2, 1, '5'));
}

#[test]
fn test_version_parse_rejects() {
    assert_eq!(VersionInfo::parse(""), None);
    assert_eq!(VersionInfo::parse("GRBL"), None);
    assert_eq!(VersionInfo::parse("grbl v1.1h"), None);
    assert_eq!(VersionInfo::parse("Grbl 1.1h"), None);
    assert_eq!(VersionInfo::parse("GRBL v11h"), None);
    assert_eq!(VersionInfo::parse("GRBL v1."), None);
    assert_eq!(VersionInfo::parse("GRBL v.1h"), None);
    assert_eq!(VersionInfo::parse("GRBL v1.x"), None);
    assert_eq!(VersionInfo::parse("GRBL vx.1"), None);
    assert_eq!(VersionInfo::parse("GRBL v4294967296.1"), None);
    assert_eq!(VersionInfo::parse("GRBL v-1.1"), None);
    assert_eq!(VersionInfo::parse("GRBL v1..1"), None);
}

#[test]
fn test_version_round_trip() {
    for major in [0u32, 1, 9, 10, 99, 100, 65535, 4294967295] {
        for minor in 0u32..10 {
            for patch in ['a', 'h', 'Z', '0', '-', 'v'] {
                let banner = format!("GRBL v{}.{}{}", major, minor, patch);
                let v = VersionInfo::parse(&banner).unwrap();
                assert_eq!((v.major, v.minor, v.patch), (major, minor, patch));
            }
        }
    }
}

#[test]
fn test_connect_succeeds_at_first_attempt() {
    let mut controller = GrblController::new();
    assert_eq!(controller.connect("/dev/ttyUSB0"), ConnectStep::Open);
    assert!(!controller.is_connected());
    assert_eq!(controller.connect_result(true), ConnectStep::Connected);
    assert!(controller.is_connected());
    assert_eq!(controller.get_status().state, MachineState::Idle);
}

#[test]
fn test_connect_retries_exactly_max_retries() {
    let mut controller = GrblController::new();
    let mut opens = 0;
    let mut step = controller.connect("/dev/ttyUSB0");
    loop {
        match step {
            ConnectStep::Open => {
                opens += 1;
                step = controller.connect_result(false);
            }
            ConnectStep::RetryAfter(ms) => {
                assert_eq!(ms, 500);
                opens += 1;
                step = controller.connect_result(false);
            }
            ConnectStep::Connected => panic!("the port never opens"),
            ConnectStep::Failed(e) => {
                assert_eq!(e, ControllerError::Connection);
                break;
            }
        }
    }
    assert_eq!(opens, 3);
    assert!(!controller.is_connected());
    assert_eq!(
        controller.connect_result(false),
        ConnectStep::Failed(ControllerError::NotConnecting)
    );
}

#[test]
fn test_connect_succeeds_after_retry() {
    let mut controller = GrblController::new();
    controller.set_recovery_config(RecoveryConfig {
        max_retries: 2,
        retry_delay_ms: 10,
        auto_reconnect: false,
        reconnect_delay_ms: 0,
    });
    assert_eq!(controller.connect("COM3"), ConnectStep::Open);
    assert_eq!(controller.connect_result(false), ConnectStep::RetryAfter(10));
    assert_eq!(controller.connect_result(true), ConnectStep::Connected);
    assert!(controller.is_connected());
}

#[test]
fn test_connect_with_no_attempt_allowed() {
    let mut controller = GrblController::new();
    controller.set_recovery_config(RecoveryConfig {
        max_retries: 0,
        retry_delay_ms: 10,
        auto_reconnect: false,
        reconnect_delay_ms: 0,
    });
    assert_eq!(
        controller.connect("COM3"),
        ConnectStep::Failed(ControllerError::Connection)
    );
    assert!(!controller.is_connected());
}

#[test]
fn test_disconnect_is_idempotent() {
    let mut controller = GrblController::new();
    controller.connect("COM1");
    controller.connect_result(true);
    assert!(controller.is_connected());
    controller.disconnect();
    assert!(!controller.is_connected());
    assert_eq!(controller.get_status().state, MachineState::Idle);
    controller.disconnect();
    assert!(!controller.is_connected());
}

#[test]
fn test_response_log_eviction() {
    let mut controller = GrblController::new();
    for i in 0..1001 {
        controller.log_response(format!("r{}", i));
    }
    let log = controller.get_response_log();
    assert_eq!(log.len(), 1000);
    assert_eq!(RESPONSE_LOG_CAPACITY, 1000);
    assert_eq!(log[0], "r1");
    assert_eq!(log[999], "r1000");
}

#[test]
fn test_command_reply() {
    let mut controller = GrblController::new();
    controller.send_command("G0 X1");
    controller.command_reply(ReadOutcome::TimedOut);
    assert!(controller.get_response_log().is_empty());
    controller.command_reply(ReadOutcome::Failed);
    assert!(controller.get_response_log().is_empty());
    controller.command_reply(ReadOutcome::Data("ok".to_string()));
    assert_eq!(controller.get_response_log(), vec!["ok".to_string()]);
    assert_eq!(controller.get_next_command(), Some("G0 X1".to_string()));
}

#[test]
fn test_commands_are_sent_in_any_state() {
    let mut controller = GrblController::new();
    controller.emergency_stop();
    assert_eq!(controller.send_command("G1 X5"), "G1 X5\n");
    assert_eq!(controller.get_status().state, MachineState::Alarm);
}

#[test]
fn test_reset_alarm_and_unlock() {
    let mut controller = GrblController::new();
    assert_eq!(controller.reset_alarm(), "$X\n");
    assert_eq!(controller.unlock(), "$X\n");
    assert_eq!(controller.get_next_command(), Some("$X".to_string()));
    assert_eq!(controller.get_next_command(), Some("$X".to_string()));
    assert_eq!(controller.get_next_command(), None);
}

#[test]
fn test_controller_error_messages() {
    assert_eq!(ControllerError::Connection.message(), "Failed to open serial port");
    assert_eq!(
        ControllerError::NotConnecting.message(),
        "No connection attempt in progress"
    );
    assert_eq!(
        ControllerError::VersionUnavailable.message(),
        "No response to version query"
    );
}

use gcodekit2::communication::status::{read_position, read_thousandths, split_at_char};
use gcodekit2::communication::StatusReport;

#[test]
fn test_status_report() {
    let report = StatusReport::parse("<Idle|MPos:0.000,0.000,0.000|FS:0,0>").unwrap();
    assert_eq!(report.state, MachineState::Idle);
    assert_eq!(report.mpos, Some(Position { x: 0, y: 0, z: 0 }));
    assert_eq!(report.wpos, None);
    assert_eq!(report.feed_rate, Some(0));
    assert_eq!(report.spindle_speed, Some(0));

    let report =
        StatusReport::parse("  <Run|WPos:10.500,-2.25,0.0019|FS:1500,8000|Ov:100,100,100>\r\n")
            .unwrap();
    assert_eq!(report.state, MachineState::Run);
    assert_eq!(report.mpos, None);
    assert_eq!(report.wpos, Some(Position { x: 10500, y: -2250, z: 1 }));
    assert_eq!(report.feed_rate, Some(1500));
    assert_eq!(report.spindle_speed, Some(8000));

    let report = StatusReport::parse("<Hold:0|MPos:1,2,3,4|F:250>").unwrap();
    assert_eq!(report.state, MachineState::Hold);
    assert_eq!(report.mpos, Some(Position { x: 1000, y: 2000, z: 3000 }));
    assert_eq!(report.feed_rate, Some(250));
    assert_eq!(report.spindle_speed, None);

    let report = StatusReport::parse("<alarm>").unwrap();
    assert_eq!(report.state, MachineState::Alarm);
    assert_eq!(report.mpos, None);
    let report = StatusReport::parse("<>").unwrap();
    assert_eq!(report.state, MachineState::Unknown);
    let report = StatusReport::parse("<Jog|MPos:1,2|FS:1|F:x|MPos:1,2,z|F:7|F:8>").unwrap();
    assert_eq!(report.state, MachineState::Jog);
    assert_eq!(report.mpos, None);
    assert_eq!(report.feed_rate, Some(8));
    assert_eq!(report.spindle_speed, None);
}

#[test]
fn test_what_is_no_status_report() {
    for line in ["", "ok", "<", ">", "<Idle", "Idle>", "x<Idle>", "<Idle>x", "error:9", "[MSG:x]"] {
        assert_eq!(StatusReport::parse(line), None, "{:?}", line);
    }
}

#[test]
fn test_coordinates() {
    let read = |s: &str| read_thousandths(&s.chars().collect());
    assert_eq!(read("0"), Some(0));
    assert_eq!(read("1"), Some(1000));
    assert_eq!(read("-1.5"), Some(-1500));
    assert_eq!(read("0.001"), Some(1));
    assert_eq!(read("0.0019"), Some(1));
    assert_eq!(read("-0.0019"), Some(-1));
    assert_eq!(read(".25"), Some(250));
    assert_eq!(read("12."), Some(12000));
    assert_eq!(read("007.070"), Some(7070));
    assert_eq!(read("-0"), Some(0));
    assert_eq!(read("999999999999.999"), Some(999_999_999_999_999));
    assert_eq!(read("-999999999999.999"), Some(-999_999_999_999_999));
    assert_eq!(read("1000000000000"), None);
    assert_eq!(read(""), None);
    assert_eq!(read("1,5"), None);
    assert_eq!(read("1e3"), None);
    assert_eq!(read("+1"), None);
    assert_eq!(
        read_position(&"1,2.5,-3".chars().collect()),
        Some(Position { x: 1000, y: 2500, z: -3000 })
    );
    assert_eq!(read_position(&"1,2".chars().collect()), None);
    assert_eq!(read_position(&"1,,3".chars().collect()), None);
    let pieces: Vec<String> = split_at_char(&"a||b|".chars().collect(), '|')
        .iter()
        .map(|p| p.iter().collect())
        .collect();
    assert_eq!(pieces, vec!["a", "", "b", ""]);
    assert_eq!(split_at_char(&Vec::new(), '|'), vec![Vec::<char>::new()]);
}

#[test]
fn test_apply_report() {
    let mut controller = GrblController::new();
    let first = StatusReport::parse("<Run|MPos:1.000,2.000,3.000|FS:500,1000>").unwrap();
    controller.apply_report(&first);
    let status = controller.get_status();
    assert_eq!(status.state, MachineState::Run);
    assert_eq!(status.mpos, Position { x: 1000, y: 2000, z: 3000 });
    assert_eq!(status.wpos, Position { x: 0, y: 0, z: 0 });
    assert_eq!(status.feed_rate, 500);
    assert_eq!(status.spindle_speed, 1000);
    let second = StatusReport::parse("<Idle|WPos:0.500,0.000,0.000>").unwrap();
    controller.apply_report(&second);
    let status = controller.get_status();
    assert_eq!(status.state, MachineState::Idle);
    assert_eq!(status.mpos, Position { x: 1000, y: 2000, z: 3000 });
    assert_eq!(status.wpos, Position { x: 500, y: 0, z: 0 });
    assert_eq!(status.feed_rate, 500);
    assert!(!status.connected);
}
