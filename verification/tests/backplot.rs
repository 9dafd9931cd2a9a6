//! Tests of the back plot.

use gcodekit2::communication::Position;
use gcodekit2::designer::{BackPlotError, BackPlotState, BackPlotStep, BackPlotter, MoveType};

fn pos(p: [f32; 3]) -> Position {
    Position {
        x: (p[0] * 1000.0).round() as i64,
        y: (p[1] * 1000.0).round() as i64,
        z: (p[2] * 1000.0).round() as i64,
    }
}

fn rate(r: f32) -> u32 {
    r.round() as u32
}

fn progress(bp: &BackPlotter) -> f32 {
    let p = bp.get_progress();
    (p.completed as f32 / p.total as f32) * 100.0
}

fn create_test_steps() -> Vec<BackPlotStep> {
    vec![
        BackPlotStep {
            line_number: 1,
            start_pos: pos([0.0, 0.0, 0.0]),
            end_pos: pos([10.0, 0.0, 0.0]),
            gcode_command: "G0 X10".to_string(),
            feed_rate: rate(0.0),
            spindle_speed: rate(0.0),
            move_type: MoveType::Rapid,
        },
        BackPlotStep {
            line_number: 2,
            start_pos: pos([10.0, 0.0, 0.0]),
            end_pos: pos([10.0, 10.0, 0.0]),
            gcode_command: "G1 Y10 F1000".to_string(),
            feed_rate: rate(1000.0),
            spindle_speed: rate(5000.0),
            move_type: MoveType::Linear,
        },
        BackPlotStep {
            line_number: 3,
            start_pos: pos([10.0, 10.0, 0.0]),
            end_pos: pos([0.0, 0.0, 0.0]),
            gcode_command: "G1 X0 Y0".to_string(),
            feed_rate: rate(1000.0),
            spindle_speed: rate(5000.0),
            move_type: MoveType::Linear,
        },
    ]
}

#[test]
fn test_backplotter_creation() {
    let steps = create_test_steps();
    let bp = BackPlotter::new(steps).unwrap();
    assert_eq!(bp.get_current_step(), 0);
    assert_eq!(bp.get_state(), BackPlotState::Idle);
    assert_eq!(bp.get_total_steps(), 3);
}

#[test]
fn test_step_forward() {
    let steps = create_test_steps();
    let mut bp = BackPlotter::new(steps).unwrap();

    let step = bp.step_forward().unwrap();
    assert_eq!(step.line_number, 1);
    assert_eq!(bp.get_current_step(), 1);
    assert_eq!(bp.get_state(), BackPlotState::Running);
    assert_eq!(bp.get_position(), pos([10.0, 0.0, 0.0]));
}

#[test]
fn test_step_backward() {
    let steps = create_test_steps();
    let mut bp = BackPlotter::new(steps).unwrap();

    bp.step_forward().unwrap();
    bp.step_forward().unwrap();
    let prev = bp.step_backward();
    assert!(prev.is_some());
    assert_eq!(bp.get_current_step(), 1);
}

#[test]
fn test_multiple_steps() {
    let steps = create_test_steps();
    let mut bp = BackPlotter::new(steps).unwrap();

    bp.step_forward().unwrap();
    bp.step_forward().unwrap();
    bp.step_forward().unwrap();
    assert_eq!(bp.get_current_step(), 3);
    assert_eq!(bp.get_state(), BackPlotState::Completed);
}

#[test]
fn test_jump_to_step() {
    let steps = create_test_steps();
    let mut bp = BackPlotter::new(steps).unwrap();

    let step = bp.jump_to_step(2).unwrap();
    assert_eq!(step.line_number, 3);
    assert_eq!(bp.get_current_step(), 2);
}

#[test]
fn test_jump_invalid_step() {
    let steps = create_test_steps();
    let mut bp = BackPlotter::new(steps).unwrap();

    let result = bp.jump_to_step(10);
    assert!(result.is_err());
}

#[test]
fn test_pause_resume() {
    let steps = create_test_steps();
    let mut bp = BackPlotter::new(steps).unwrap();

    bp.step_forward().unwrap();
    assert_eq!(bp.get_state(), BackPlotState::Running);
    bp.pause();
    assert_eq!(bp.get_state(), BackPlotState::Paused);
    bp.resume();
    assert_eq!(bp.get_state(), BackPlotState::Running);
}

#[test]
fn test_progress_tracking() {
    let steps = create_test_steps();
    let mut bp = BackPlotter::new(steps).unwrap();

    assert_eq!(progress(&bp), 0.0);
    bp.step_forward().unwrap();
    let expected = (1.0 / 3.0) * 100.0;
    assert!((progress(&bp) - expected).abs() < 0.1);
}

#[test]
fn test_stop_and_reset() {
    let steps = create_test_steps();
    let mut bp = BackPlotter::new(steps).unwrap();

    bp.step_forward().unwrap();
    bp.step_forward().unwrap();
    bp.stop();
    assert_eq!(bp.get_current_step(), 0);
    assert_eq!(bp.get_state(), BackPlotState::Idle);
}

#[test]
fn test_get_current_step_ref() {
    let steps = create_test_steps();
    let mut bp = BackPlotter::new(steps).unwrap();

    bp.step_forward().unwrap();
    let current = bp.get_current_step_ref().unwrap();
    assert_eq!(current.line_number, 1);
}

#[test]
fn test_backward_at_start() {
    let steps = create_test_steps();
    let mut bp = BackPlotter::new(steps).unwrap();

    let result = bp.step_backward();
    assert!(result.is_none());
    assert_eq!(bp.get_state(), BackPlotState::Idle);
}

#[test]
fn test_forward_at_end() {
    let steps = create_test_steps();
    let mut bp = BackPlotter::new(steps).unwrap();

    bp.step_forward().unwrap();
    bp.step_forward().unwrap();
    bp.step_forward().unwrap();
    let result = bp.step_forward();
    assert!(result.is_none());
}

#[test]
fn test_position_tracking() {
    let steps = create_test_steps();
    let mut bp = BackPlotter::new(steps).unwrap();

    assert_eq!(bp.get_position(), pos([0.0, 0.0, 0.0]));
    bp.step_forward().unwrap();
    assert_eq!(bp.get_position(), pos([10.0, 0.0, 0.0]));
    bp.step_forward().unwrap();
    assert_eq!(bp.get_position(), pos([10.0, 10.0, 0.0]));
}

#[test]
fn test_get_steps() {
    let steps = create_test_steps();
    let bp = BackPlotter::new(steps.clone()).unwrap();

    let all_steps = bp.get_steps();
    assert_eq!(all_steps.len(), 3);
    assert_eq!(all_steps[0].line_number, 1);
}

#[test]
fn test_get_specific_step() {
    let steps = create_test_steps();
    let bp = BackPlotter::new(steps).unwrap();

    let step = bp.get_step(1).unwrap();
    assert_eq!(step.line_number, 2);

    let invalid = bp.get_step(10);
    assert!(invalid.is_none());
}

#[test]
fn test_reset() {
    let steps = create_test_steps();
    let mut bp = BackPlotter::new(steps).unwrap();

    bp.step_forward().unwrap();
    bp.step_forward().unwrap();
    bp.reset();
    assert_eq!(bp.get_current_step(), 0);
    assert_eq!(bp.get_position(), pos([0.0, 0.0, 0.0]));
    assert_eq!(bp.get_state(), BackPlotState::Idle);
}

#[test]
fn test_empty_steps_error() {
    let result = BackPlotter::new(vec![]);
    assert!(result.is_err());
}

#[test]
fn test_move_types() {
    let steps = vec![
        BackPlotStep {
            line_number: 1,
            start_pos: pos([0.0, 0.0, 0.0]),
            end_pos: pos([10.0, 0.0, 0.0]),
            gcode_command: "G0 X10".to_string(),
            feed_rate: rate(0.0),
            spindle_speed: rate(0.0),
            move_type: MoveType::Rapid,
        },
        BackPlotStep {
            line_number: 2,
            start_pos: pos([10.0, 0.0, 0.0]),
            end_pos: pos([10.0, 10.0, 0.0]),
            gcode_command: "G1 Y10".to_string(),
            feed_rate: rate(1000.0),
            spindle_speed: rate(5000.0),
            move_type: MoveType::Linear,
        },
        BackPlotStep {
            line_number: 3,
            start_pos: pos([10.0, 10.0, 0.0]),
            end_pos: pos([15.0, 15.0, 0.0]),
            gcode_command: "G2 X15 Y15".to_string(),
            feed_rate: rate(1000.0),
            spindle_speed: rate(5000.0),
            move_type: MoveType::ArcCW,
        },
    ];

    let mut bp = BackPlotter::new(steps).unwrap();
    bp.step_forward().unwrap();
    bp.step_forward().unwrap();
    bp.step_forward().unwrap();
    let arc_step = bp.get_current_step_ref().unwrap();
    assert_eq!(arc_step.move_type, MoveType::ArcCW);
}

// Create test steps for integration testing
fn create_complex_program() -> Vec<BackPlotStep> {
    vec![
        // Rapid move to origin
        BackPlotStep {
            line_number: 1,
            start_pos: pos([0.0, 0.0, 5.0]),
            end_pos: pos([0.0, 0.0, 0.0]),
            gcode_command: "G0 Z0".to_string(),
            feed_rate: rate(0.0),
            spindle_speed: rate(0.0),
            move_type: MoveType::Rapid,
        },
        // Rapid move to start position
        BackPlotStep {
            line_number: 2,
            start_pos: pos([0.0, 0.0, 0.0]),
            end_pos: pos([10.0, 10.0, 0.0]),
            gcode_command: "G0 X10 Y10".to_string(),
            feed_rate: rate(0.0),
            spindle_speed: rate(0.0),
            move_type: MoveType::Rapid,
        },
        // Linear feed move
        BackPlotStep {
            line_number: 3,
            start_pos: pos([10.0, 10.0, 0.0]),
            end_pos: pos([20.0, 10.0, 0.0]),
            gcode_command: "G1 X20 F1000 S5000".to_string(),
            feed_rate: rate(1000.0),
            spindle_speed: rate(5000.0),
            move_type: MoveType::Linear,
        },
        // Clockwise arc
        BackPlotStep {
            line_number: 4,
            start_pos: pos([20.0, 10.0, 0.0]),
            end_pos: pos([30.0, 20.0, 0.0]),
            gcode_command: "G2 X30 Y20 I5 J5".to_string(),
            feed_rate: rate(1000.0),
            spindle_speed: rate(5000.0),
            move_type: MoveType::ArcCW,
        },
        // Counter-clockwise arc
        BackPlotStep {
            line_number: 5,
            start_pos: pos([30.0, 20.0, 0.0]),
            end_pos: pos([20.0, 30.0, 0.0]),
            gcode_command: "G3 X20 Y30 I-5 J5".to_string(),
            feed_rate: rate(1000.0),
            spindle_speed: rate(5000.0),
            move_type: MoveType::ArcCCW,
        },
        // Linear move back to start
        BackPlotStep {
            line_number: 6,
            start_pos: pos([20.0, 30.0, 0.0]),
            end_pos: pos([10.0, 10.0, 0.0]),
            gcode_command: "G1 X10 Y10 F1000".to_string(),
            feed_rate: rate(1000.0),
            spindle_speed: rate(5000.0),
            move_type: MoveType::Linear,
        },
        // Rapid to safe height
        BackPlotStep {
            line_number: 7,
            start_pos: pos([10.0, 10.0, 0.0]),
            end_pos: pos([10.0, 10.0, 5.0]),
            gcode_command: "G0 Z5".to_string(),
            feed_rate: rate(0.0),
            spindle_speed: rate(0.0),
            move_type: MoveType::Rapid,
        },
    ]
}

#[test]
fn test_backplotter_full_simulation() {
    let steps = create_complex_program();
    let bp = BackPlotter::new(steps).unwrap();

    assert_eq!(bp.get_total_steps(), 7);
    assert_eq!(bp.get_current_step(), 0);
    assert_eq!(bp.get_state(), BackPlotState::Idle);
    assert_eq!(bp.get_position(), pos([0.0, 0.0, 5.0]));
}

#[test]
fn test_step_through_entire_program() {
    let steps = create_complex_program();
    let mut bp = BackPlotter::new(steps).unwrap();

    // Step through each command
    for i in 1..=7 {
        let step = bp.step_forward().unwrap();
        assert_eq!(step.line_number, i);
        if i < 7 {
            assert_eq!(bp.get_state(), BackPlotState::Running);
        }
    }

    // Should be completed after stepping through all
    assert_eq!(bp.get_state(), BackPlotState::Completed);
    assert!(bp.step_forward().is_none());
}

#[test]
fn test_backward_navigation() {
    let steps = create_complex_program();
    let mut bp = BackPlotter::new(steps).unwrap();

    // Step forward 3 times
    bp.step_forward().unwrap();
    bp.step_forward().unwrap();
    bp.step_forward().unwrap();
    assert_eq!(bp.get_current_step(), 3);

    // Step backward twice
    let prev = bp.step_backward();
    assert!(prev.is_some());
    assert_eq!(bp.get_current_step(), 2);

    let prev2 = bp.step_backward();
    assert!(prev2.is_some());
    assert_eq!(bp.get_current_step(), 1);
}

#[test]
fn test_position_tracking_through_program() {
    let steps = create_complex_program();
    let mut bp = BackPlotter::new(steps).unwrap();

    assert_eq!(bp.get_position(), pos([0.0, 0.0, 5.0]));

    bp.step_forward().unwrap();
    assert_eq!(bp.get_position(), pos([0.0, 0.0, 0.0]));

    bp.step_forward().unwrap();
    assert_eq!(bp.get_position(), pos([10.0, 10.0, 0.0]));

    bp.step_forward().unwrap();
    assert_eq!(bp.get_position(), pos([20.0, 10.0, 0.0]));

    bp.step_forward().unwrap();
    assert_eq!(bp.get_position(), pos([30.0, 20.0, 0.0]));
}

#[test]
fn test_jump_to_middle() {
    let steps = create_complex_program();
    let mut bp = BackPlotter::new(steps).unwrap();

    let step = bp.jump_to_step(3).unwrap();
    assert_eq!(step.line_number, 4);
    assert_eq!(bp.get_current_step(), 3);
    // Position should be at the end of step 3
    assert_eq!(bp.get_position(), pos([20.0, 10.0, 0.0]));
}

#[test]
fn test_pause_and_resume_workflow() {
    let steps = create_complex_program();
    let mut bp = BackPlotter::new(steps).unwrap();

    bp.step_forward().unwrap();
    assert_eq!(bp.get_state(), BackPlotState::Running);

    bp.pause();
    assert_eq!(bp.get_state(), BackPlotState::Paused);

    // Can still step forward while paused
    bp.step_forward().unwrap();

    bp.resume();
    assert_eq!(bp.get_state(), BackPlotState::Running);
}

#[test]
fn test_progress_calculation() {
    let steps = create_complex_program();
    let mut bp = BackPlotter::new(steps).unwrap();

    assert_eq!(progress(&bp), 0.0);

    for _ in 0..3 {
        bp.step_forward().unwrap();
    }
    let progress = progress(&bp);
    assert!(progress > 0.0 && progress < 100.0);

    for _ in 0..4 {
        bp.step_forward().unwrap();
    }
    assert_eq!(bp.get_state(), BackPlotState::Completed);
}

#[test]
fn test_move_type_classification() {
    let steps = create_complex_program();
    let mut bp = BackPlotter::new(steps).unwrap();

    // Test rapid move (G0)
    let step1 = bp.step_forward().unwrap();
    assert_eq!(step1.move_type, MoveType::Rapid);

    // Test linear move (G1)
    bp.step_forward().unwrap();
    bp.step_forward().unwrap();
    let step3 = bp.get_current_step_ref().unwrap();
    assert_eq!(step3.move_type, MoveType::Linear);

    // Test arc CW (G2)
    bp.step_forward().unwrap();
    let step4 = bp.get_current_step_ref().unwrap();
    assert_eq!(step4.move_type, MoveType::ArcCW);

    // Test arc CCW (G3)
    bp.step_forward().unwrap();
    let step5 = bp.get_current_step_ref().unwrap();
    assert_eq!(step5.move_type, MoveType::ArcCCW);
}

#[test]
fn test_speed_and_spindle_tracking() {
    let steps = create_complex_program();
    let mut bp = BackPlotter::new(steps).unwrap();

    // Rapid moves have 0 feed rate
    let step = bp.step_forward().unwrap();
    assert_eq!(step.feed_rate, rate(0.0));

    // Linear move has feed rate
    bp.step_forward().unwrap();
    bp.step_forward().unwrap();
    let linear = bp.get_current_step_ref().unwrap();
    assert_eq!(linear.feed_rate, rate(1000.0));
    assert_eq!(linear.spindle_speed, rate(5000.0));
}

#[test]
fn test_reset_functionality() {
    let steps = create_complex_program();
    let mut bp = BackPlotter::new(steps).unwrap();

    // Advance simulation
    bp.step_forward().unwrap();
    bp.step_forward().unwrap();
    bp.step_forward().unwrap();

    assert_eq!(bp.get_current_step(), 3);
    assert_ne!(bp.get_position(), pos([0.0, 0.0, 5.0]));

    // Reset
    bp.reset();

    assert_eq!(bp.get_current_step(), 0);
    assert_eq!(bp.get_position(), pos([0.0, 0.0, 5.0]));
    assert_eq!(bp.get_state(), BackPlotState::Idle);
}

#[test]
fn test_stop_functionality() {
    let steps = create_complex_program();
    let mut bp = BackPlotter::new(steps).unwrap();

    bp.step_forward().unwrap();
    bp.step_forward().unwrap();

    bp.stop();

    assert_eq!(bp.get_current_step(), 0);
    assert_eq!(bp.get_state(), BackPlotState::Idle);
    assert_eq!(bp.get_position(), pos([0.0, 0.0, 5.0]));
}

#[test]
fn test_all_steps_accessible() {
    let steps = create_complex_program();
    let bp = BackPlotter::new(steps).unwrap();

    let all_steps = bp.get_steps();
    assert_eq!(all_steps.len(), 7);

    for i in 0..7 {
        let step = bp.get_step(i);
        assert!(step.is_some());
        assert_eq!(step.unwrap().line_number, (i + 1) as usize);
    }

    // Out of bounds access
    assert!(bp.get_step(7).is_none());
    assert!(bp.get_step(100).is_none());
}

#[test]
fn test_complex_navigation_pattern() {
    let steps = create_complex_program();
    let mut bp = BackPlotter::new(steps).unwrap();

    // Step forward to middle
    bp.step_forward().unwrap();
    bp.step_forward().unwrap();
    bp.step_forward().unwrap();
    assert_eq!(bp.get_current_step(), 3);

    // Jump forward
    bp.jump_to_step(5).unwrap();
    assert_eq!(bp.get_current_step(), 5);

    // Step backward
    bp.step_backward().unwrap();
    assert_eq!(bp.get_current_step(), 4);

    // Jump to start
    bp.jump_to_step(0).unwrap();
    assert_eq!(bp.get_current_step(), 0);
}

#[test]
fn test_gcode_command_preservation() {
    let steps = create_complex_program();
    let mut bp = BackPlotter::new(steps).unwrap();

    bp.step_forward().unwrap();
    let step1 = bp.get_current_step_ref().unwrap();
    assert_eq!(step1.gcode_command, "G0 Z0");

    bp.step_forward().unwrap();
    let step2 = bp.get_current_step_ref().unwrap();
    assert_eq!(step2.gcode_command, "G0 X10 Y10");

    bp.step_forward().unwrap();
    let step3 = bp.get_current_step_ref().unwrap();
    assert_eq!(step3.gcode_command, "G1 X20 F1000 S5000");
}

#[test]
fn test_backplot_errors() {
    assert_eq!(BackPlotter::new(vec![]).err(), Some(BackPlotError::EmptySteps));
    assert_eq!(
        BackPlotError::EmptySteps.message(),
        "Cannot create BackPlotter with empty steps"
    );
    let mut bp = BackPlotter::new(create_test_steps()).unwrap();
    bp.step_forward();
    let before = (bp.get_current_step(), bp.get_position(), bp.get_state());
    let e = bp.jump_to_step(3).err().unwrap();
    assert_eq!(e, BackPlotError::StepOutOfRange { step: 3, max: 2 });
    assert_eq!(e.message(), "Step 3 out of range (max 2)");
    assert_eq!((bp.get_current_step(), bp.get_position(), bp.get_state()), before);
    assert!(bp.is_well_formed());
}

#[test]
fn test_backplot_positions_when_stepping_back() {
    let mut bp = BackPlotter::new(create_complex_program()).unwrap();
    bp.jump_to_step(0).unwrap();
    assert_eq!(bp.get_position(), pos([0.0, 0.0, 5.0]));
    assert_eq!(bp.get_state(), BackPlotState::Running);
    bp.jump_to_step(6).unwrap();
    assert_eq!(bp.get_position(), pos([10.0, 10.0, 0.0]));
    let step = bp.step_backward().unwrap();
    assert_eq!(step.line_number, 6);
    assert_eq!(bp.get_position(), pos([20.0, 30.0, 0.0]));
    assert_eq!(bp.get_state(), BackPlotState::Running);
    bp.pause();
    bp.step_backward();
    assert_eq!(bp.get_state(), BackPlotState::Paused);
    assert!(bp.get_current_step_ref().is_some());
    bp.stop();
    assert!(bp.get_current_step_ref().is_none());
    bp.pause();
    assert_eq!(bp.get_state(), BackPlotState::Idle);
    bp.resume();
    assert_eq!(bp.get_state(), BackPlotState::Idle);
    assert_eq!(progress(&bp), 0.0);
    for _ in 0..7 {
        bp.step_forward();
    }
    assert_eq!(progress(&bp), 100.0);
    assert!(bp.step_forward().is_none());
    assert_eq!(bp.get_current_step(), 7);
    assert!(bp.is_well_formed());
}
