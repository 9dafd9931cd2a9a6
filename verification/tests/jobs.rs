//! Tests of jobs and the job manager.

use gcodekit2::jobs::{Job, JobManager, JobState, Priority, Progress};

fn ratio(p: Progress) -> f64 {
    p.completed as f64 / p.total as f64
}

#[test]
fn test_priority_creation() {
    assert_eq!(Priority::new(5).0, 5);
    assert_eq!(Priority::new(15).0, 10);
    assert_eq!(Priority::new(0).0, 1);
}

#[test]
fn mod_test_priority_creation() {
    assert_eq!(Priority::new(5).0, 5);
    assert_eq!(Priority::new(15).0, 10);
    assert_eq!(Priority::new(0).0, 1);
}

#[test]
fn test_priority_levels() {
    assert_eq!(Priority::normal().0, 5);
    assert_eq!(Priority::high().0, 8);
    assert_eq!(Priority::low().0, 2);
    assert_eq!(Priority::new(1).0, 1);
    assert_eq!(Priority::new(10).0, 10);
    assert_eq!(Priority::new(11).0, 10);
    assert_eq!(Priority::new(u32::MAX).0, 10);
}

#[test]
fn test_job_creation() {
    let gcode = "G0 X10\nG1 Y20\nG0 Z5".to_string();
    let job = Job::new("Test Job".to_string(), gcode, Priority::normal());
    assert_eq!(job.name, "Test Job");
    assert_eq!(job.state, JobState::Pending);
    assert_eq!(job.total_lines, 3);
}

#[test]
fn mod_test_job_creation() {
    let gcode = "G0 X10\nG1 Y20\nG0 Z5".to_string();
    let job = Job::new("Test Job".to_string(), gcode, Priority::normal());
    assert_eq!(job.name, "Test Job");
    assert_eq!(job.state, JobState::Pending);
    assert_eq!(job.total_lines, 3);
    assert_eq!(job.current_line, 0);
    assert_eq!(ratio(job.progress), 0.0);
    assert!(job.started_at.is_none());
    assert!(job.completed_at.is_none());
    assert!(job.error_message.is_none());
}

#[test]
fn test_job_ids_and_times() {
    let a = Job::new("A".to_string(), "G0 X1".to_string(), Priority::normal());
    let b = Job::new("B".to_string(), "G0 X1".to_string(), Priority::normal());
    assert_eq!(a.id.len(), 36);
    assert_ne!(a.id, b.id);
    assert!(a.created_at.contains('T'));
    assert_ne!(a.created_at, a.name);
}

#[test]
fn test_job_progress() {
    let gcode = "G0 X10\nG1 Y20\nG0 Z5".to_string();
    let mut job = Job::new("Test".to_string(), gcode, Priority::normal());
    job.update_progress(1);
    assert!((ratio(job.progress) - (1.0 / 3.0)).abs() < 0.01);
}

#[test]
fn mod_test_job_progress() {
    let gcode = "G0 X10\nG1 Y20\nG0 Z5".to_string();
    let mut job = Job::new("Test".to_string(), gcode, Priority::normal());
    job.update_progress(1);
    assert_eq!(job.progress, Progress { completed: 1, total: 3 });
    assert_eq!(job.current_line, 1);
}

#[test]
fn test_job_state_transitions() {
    let gcode = "G0 X10".to_string();
    let mut job = Job::new("Test".to_string(), gcode, Priority::normal());
    assert_eq!(job.state, JobState::Pending);

    job.start();
    assert_eq!(job.state, JobState::Running);

    job.pause();
    assert_eq!(job.state, JobState::Paused);

    job.resume();
    assert_eq!(job.state, JobState::Running);

    job.complete();
    assert_eq!(job.state, JobState::Completed);
    assert_eq!(ratio(job.progress), 1.0);
}

#[test]
fn mod_test_job_state_transitions() {
    let mut job = Job::new("Test".to_string(), "G0 X10".to_string(), Priority::normal());
    job.pause();
    assert_eq!(job.state, JobState::Pending);
    job.resume();
    assert_eq!(job.state, JobState::Pending);
    job.start();
    assert!(job.started_at.is_some());
    job.resume();
    assert_eq!(job.state, JobState::Running);
    job.complete();
    assert!(job.completed_at.is_some());
    job.pause();
    assert_eq!(job.state, JobState::Completed);
}

#[test]
fn test_job_failure() {
    let gcode = "G0 X10".to_string();
    let mut job = Job::new("Test".to_string(), gcode, Priority::normal());
    job.fail("Connection lost".to_string());
    assert_eq!(job.state, JobState::Failed);
    assert_eq!(job.error_message, Some("Connection lost".to_string()));
}

#[test]
fn mod_test_job_failure() {
    let mut job = Job::new("Test".to_string(), "G0 X10".to_string(), Priority::normal());
    job.update_progress(1);
    job.fail_at("Connection lost".to_string(), "2025-01-01T00:00:00+00:00".to_string());
    assert_eq!(job.state, JobState::Failed);
    assert_eq!(job.error_message, Some("Connection lost".to_string()));
    assert_eq!(job.completed_at, Some("2025-01-01T00:00:00+00:00".to_string()));
    assert_eq!(job.current_line, 1);
}

#[test]
fn test_job_manager_queue() {
    let mut manager = JobManager::new();
    let job1 = Job::new("Job1".to_string(), "G0 X10".to_string(), Priority::low());
    let job2 = Job::new("Job2".to_string(), "G0 Y20".to_string(), Priority::high());

    manager.queue_job(job1);
    manager.queue_job(job2);

    assert_eq!(manager.queue_length(), 2);

    // The job of the higher priority is dequeued first.
    let next = manager.get_next_job();
    assert_eq!(next.unwrap().name, "Job2");
}

#[test]
fn mod_test_job_manager_queue() {
    let mut manager = JobManager::new();
    let job1 = Job::new("Job1".to_string(), "G0 X10".to_string(), Priority::low());
    let job2 = Job::new("Job2".to_string(), "G0 Y20".to_string(), Priority::high());

    manager.queue_job(job1);
    manager.queue_job(job2);

    assert_eq!(manager.queue_length(), 2);

    // The job of the higher priority is dequeued first.
    let next = manager.get_next_job();
    assert_eq!(next.unwrap().name, "Job2");
}

#[test]
fn test_job_manager_serves_priorities_in_order() {
    let mut manager = JobManager::new();
    assert!(manager.get_next_job().is_none());
    for p in [2, 8, 5] {
        manager.queue_job(Job::new(format!("P{}", p), "G0 X1".to_string(), Priority::new(p)));
    }
    assert_eq!(manager.queue_length(), 3);
    let order: Vec<u32> = (0..3).map(|_| manager.get_next_job().unwrap().priority.0).collect();
    assert_eq!(order, vec![8, 5, 2]);
    assert_eq!(manager.queue_length(), 0);
    assert!(manager.get_next_job().is_none());
}

#[test]
fn test_job_manager_queue_is_stable() {
    let mut manager = JobManager::new();
    let order = [("a", 5), ("b", 5), ("c", 10), ("d", 5), ("e", 1), ("f", 10), ("g", 1)];
    for (name, p) in order {
        manager.queue_job(Job::new(name.to_string(), "G0 X1".to_string(), Priority::new(p)));
    }
    let mut names = Vec::new();
    while let Some(job) = manager.get_next_job() {
        names.push(job.name);
    }
    assert_eq!(names, vec!["c", "f", "a", "b", "d", "e", "g"]);
}

#[test]
fn test_job_manager_active() {
    let mut manager = JobManager::new();
    let job = Job::new("Test".to_string(), "G0 X10".to_string(), Priority::normal());
    manager.set_active_job(job);

    assert!(manager.get_active_job().is_some());
    manager.complete_active_job();
    assert_eq!(manager.completed_count(), 1);
}

#[test]
fn mod_test_job_manager_active() {
    let mut manager = JobManager::new();
    assert!(manager.get_active_job().is_none());
    assert!(!manager.resume_active_job());
    manager.complete_active_job();
    manager.fail_active_job("nothing".to_string());
    assert_eq!(manager.completed_count(), 0);

    let mut job = Job::new("Test".to_string(), "G0 X10\nG0 X20".to_string(), Priority::normal());
    job.start();
    job.pause();
    manager.set_active_job(job);
    manager.get_active_job().unwrap().update_progress(1);
    assert!(manager.resume_active_job());
    assert_eq!(manager.get_active_job().unwrap().state, JobState::Running);
    assert_eq!(manager.get_active_job().unwrap().current_line, 1);
    manager.fail_active_job("Connection lost".to_string());
    assert!(manager.get_active_job().is_none());
    assert_eq!(manager.completed_count(), 1);
    let done = &manager.get_completed_jobs()[0];
    assert_eq!(done.state, JobState::Failed);
    assert_eq!(done.error_message, Some("Connection lost".to_string()));
    assert!(done.completed_at.is_some());
    assert_eq!(done.current_line, 1);

    manager.set_active_job(Job::new("Next".to_string(), "G0".to_string(), Priority::low()));
    manager.complete_active_job();
    assert_eq!(manager.completed_count(), 2);
    assert_eq!(manager.get_completed_jobs()[1].state, JobState::Completed);
    assert_eq!(manager.get_completed_jobs()[1].progress, Progress { completed: 1, total: 1 });
    manager.clear_completed();
    assert_eq!(manager.completed_count(), 0);
}

#[test]
fn test_remaining_gcode() {
    let gcode = "G0 X10\nG1 Y20\nG0 Z5".to_string();
    let mut job = Job::new("Test".to_string(), gcode, Priority::normal());
    job.update_progress(1);
    let remaining = job.get_remaining_gcode();
    assert!(remaining.contains("Y20"));
    assert!(!remaining.contains("X10"));
}

#[test]
fn mod_test_remaining_gcode() {
    let gcode = "G0 X10\nG1 Y20\nG0 Z5".to_string();
    let mut job = Job::new("Test".to_string(), gcode, Priority::normal());
    job.update_progress(1);
    let remaining = job.get_remaining_gcode();
    assert!(remaining.contains("Y20"));
    assert!(!remaining.contains("X10"));
}

#[test]
fn test_remaining_gcode_skips_comments_and_blank_lines() {
    let gcode = "; header\nG0 X10\n\n  ; note\nG1 Y20 ; cut\n   \nG0 Z5\n".to_string();
    let mut job = Job::new("Test".to_string(), gcode, Priority::normal());
    assert_eq!(job.total_lines, 3);
    assert_eq!(job.get_remaining_gcode(), "G0 X10\nG1 Y20 ; cut\nG0 Z5");
    assert_eq!(job.get_current_line(), Some("G0 X10".to_string()));
    job.update_progress(2);
    assert_eq!(job.get_remaining_gcode(), "G0 Z5");
    assert_eq!(job.get_current_line(), Some("G0 Z5".to_string()));
    job.update_progress(3);
    assert_eq!(job.get_remaining_gcode(), "");
    assert_eq!(job.get_current_line(), None);
    job.update_progress(7);
    assert_eq!(job.get_remaining_gcode(), "");
    assert_eq!(job.progress, Progress { completed: 7, total: 3 });
}

#[test]
fn test_progress_without_lines() {
    let mut job = Job::new("Empty".to_string(), "; only a comment\n\n".to_string(), Priority::low());
    assert_eq!(job.total_lines, 0);
    for n in [0usize, 1, 5, usize::MAX] {
        job.update_progress(n);
        assert_eq!(job.progress, Progress { completed: 1, total: 1 });
        assert_eq!(ratio(job.progress), 1.0);
    }
}

#[test]
fn test_end_to_end_job() {
    let mut job = Job::new(
        "Part".to_string(),
        "G0 X10\nG1 Y20\nG0 Z5".to_string(),
        Priority::normal(),
    );
    assert_eq!(job.total_lines, 3);
    job.update_progress(1);
    assert!((ratio(job.progress) - 0.333).abs() < 0.001);
    let remaining = job.get_remaining_gcode();
    assert!(remaining.contains("Y20"));
    assert!(remaining.contains("Z5"));
    assert!(!remaining.contains("X10"));
}

#[test]
fn test_job_clone() {
    let mut job = Job::new("Test".to_string(), "G0 X10".to_string(), Priority::high());
    job.start_at("t0".to_string());
    let copy = job.clone();
    assert_eq!(copy.id, job.id);
    assert_eq!(copy.name, job.name);
    assert_eq!(copy.gcode, job.gcode);
    assert_eq!(copy.started_at, Some("t0".to_string()));
    assert_eq!(copy.priority, Priority::high());
    job.complete_at("t1".to_string());
    assert_eq!(job.completed_at, Some("t1".to_string()));
    assert_eq!(copy.completed_at, None);
}

#[test]
fn test_job_with_identity() {
    let job = Job::with_identity(
        "id-1".to_string(),
        "2025-01-01T00:00:00+00:00".to_string(),
        "Named".to_string(),
        "G0 X1\r\nG0 X2\r\n".to_string(),
        Priority::new(7),
    );
    assert_eq!(job.id, "id-1");
    assert_eq!(job.created_at, "2025-01-01T00:00:00+00:00");
    assert_eq!(job.total_lines, 2);
    assert_eq!(job.get_remaining_gcode(), "G0 X1\nG0 X2");
}

#[test]
fn test_can_queue() {
    let mut manager = JobManager::new();
    assert!(manager.can_queue());
    manager.queue_job(Job::new("a".to_string(), "G0".to_string(), Priority::normal()));
    assert!(manager.can_queue());
}
