use zefiro::job::{JobMonitor, JobStatus};
use zefiro::k8s::DeleteOutcome;

fn registered(names: &[&str]) -> JobMonitor {
    let mut monitor = JobMonitor::new();
    for name in names {
        assert!(monitor.add(name.to_string()));
    }
    monitor
}

#[test]
fn new_registry_is_empty() {
    let monitor = JobMonitor::new();
    assert_eq!(monitor.len(), 0);
    assert!(monitor.names().is_empty());
    assert!(!monitor.contains("a"));
}

#[test]
fn add_add_remove_leaves_the_other() {
    let mut monitor = JobMonitor::new();
    assert!(monitor.add("a".to_string()));
    assert!(monitor.add("b".to_string()));
    assert!(monitor.remove("a"));
    assert_eq!(monitor.names(), vec!["b".to_string()]);
    assert!(!monitor.contains("a"));
    assert!(monitor.contains("b"));
}

#[test]
fn removing_twice_changes_nothing_the_second_time() {
    let mut monitor = registered(&["a", "b"]);
    assert!(monitor.remove("a"));
    assert!(!monitor.remove("a"));
    assert_eq!(monitor.names(), vec!["b".to_string()]);
    assert_eq!(monitor.len(), 1);
}

#[test]
fn removing_what_was_never_added_changes_nothing() {
    let mut monitor = registered(&["a"]);
    assert!(!monitor.remove("x"));
    assert_eq!(monitor.names(), vec!["a".to_string()]);
}

#[test]
fn a_name_is_registered_once() {
    let mut monitor = registered(&["a", "b"]);
    assert!(!monitor.add("a".to_string()));
    assert_eq!(monitor.names(), vec!["a".to_string(), "b".to_string()]);
    assert_eq!(monitor.len(), 2);
}

#[test]
fn names_keep_the_order_in_which_they_came() {
    let mut monitor = registered(&["c", "a", "b"]);
    assert_eq!(monitor.names(), vec!["c".to_string(), "a".to_string(), "b".to_string()]);
    assert!(monitor.remove("a"));
    assert!(monitor.add("a".to_string()));
    assert_eq!(monitor.names(), vec!["c".to_string(), "b".to_string(), "a".to_string()]);
}

#[test]
fn cleanup_tries_every_job_and_empties_the_registry() {
    let mut monitor = registered(&["a", "b"]);
    let mut sweep = monitor.start_cleanup();
    let mut attempted = Vec::new();

    let first = sweep.next_target().expect("first target");
    attempted.push(first);
    sweep.record(DeleteOutcome::Failed { message: "connection refused".to_string() });
    assert!(!sweep.is_complete());

    let second = sweep.next_target().expect("second target");
    attempted.push(second);
    sweep.record(DeleteOutcome::Deleted);
    assert!(sweep.is_complete());
    assert_eq!(sweep.next_target(), None);

    assert_eq!(attempted, vec!["a".to_string(), "b".to_string()]);
    assert_eq!(monitor.len(), 2);
    let failed = monitor.cleanup(sweep);
    assert_eq!(failed, vec!["a".to_string()]);
    assert_eq!(monitor.len(), 0);
    assert!(monitor.names().is_empty());
}

#[test]
fn cleanup_counts_a_missing_pod_as_deleted() {
    let mut monitor = registered(&["a", "b", "c"]);
    let mut sweep = monitor.start_cleanup();
    sweep.record(DeleteOutcome::ApiError { code: 404, message: "not found".to_string() });
    sweep.record(DeleteOutcome::ApiError { code: 500, message: "internal error".to_string() });
    sweep.record(DeleteOutcome::Deleted);
    let failed = monitor.cleanup(sweep);
    assert_eq!(failed, vec!["b".to_string()]);
    assert_eq!(monitor.len(), 0);
}

#[test]
fn cleanup_of_an_empty_registry_has_nothing_to_do() {
    let mut monitor = JobMonitor::new();
    let mut sweep = monitor.start_cleanup();
    assert!(sweep.is_complete());
    assert_eq!(sweep.next_target(), None);
    sweep.record(DeleteOutcome::Deleted);
    assert!(monitor.cleanup(sweep).is_empty());
    assert_eq!(monitor.len(), 0);
}

#[test]
fn cleanup_leaves_what_it_has_not_tried() {
    let mut monitor = registered(&["a", "b", "c"]);
    let mut sweep = monitor.start_cleanup();
    sweep.record(DeleteOutcome::Deleted);
    assert_eq!(sweep.next_target(), Some("b".to_string()));
    let failed = monitor.cleanup(sweep);
    assert!(failed.is_empty());
    assert_eq!(monitor.names(), vec!["b".to_string(), "c".to_string()]);
}

#[test]
fn a_sweep_takes_no_more_answers_than_it_has_targets() {
    let mut monitor = registered(&["a"]);
    let mut sweep = monitor.start_cleanup();
    sweep.record(DeleteOutcome::Deleted);
    sweep.record(DeleteOutcome::Failed { message: "late".to_string() });
    assert!(sweep.is_complete());
    assert!(monitor.cleanup(sweep).is_empty());
    assert_eq!(monitor.len(), 0);
}

#[test]
fn done_failed_and_stopped_are_the_ends() {
    assert!(JobStatus::Done.is_terminal());
    assert!(JobStatus::Failed.is_terminal());
    assert!(JobStatus::Stopped.is_terminal());
    assert!(!JobStatus::Queued.is_terminal());
    assert!(!JobStatus::Running.is_terminal());
    assert!(!JobStatus::Stopping.is_terminal());
}
