use zefiro::job::{JobMonitor, JobStatus};
use zefiro::k8s::{
    wait_until_running, CompletionResult, ContainerState, ContainerTerminated, DeleteOutcome,
    FollowStep, KubernetesClient, KubernetesClientError, LogChunk, LogEntry, PodPhase, PodStatus,
    ReadyStep, SubmitOutcome, WatchStep, POLL_INTERVAL_SECONDS,
};

fn submitted(name: &str, timeout: u64) -> (KubernetesClient, JobMonitor) {
    let mut monitor = JobMonitor::new();
    let mut client = KubernetesClient::new("default".to_string(), timeout);
    let result = client.submit_pod(&mut monitor, SubmitOutcome::Created { name: name.to_string() });
    assert_eq!(result, Ok(()));
    (client, monitor)
}

fn phase(phase: PodPhase) -> Option<PodStatus> {
    Some(PodStatus { phase: Some(phase), container_state: None })
}

fn ended(phase: PodPhase, exit_code: i32) -> Option<PodStatus> {
    Some(PodStatus {
        phase: Some(phase),
        container_state: Some(ContainerState {
            terminated: Some(ContainerTerminated {
                exit_code: Some(exit_code),
                started_at: Some("2024-05-01T10:00:00Z".to_string()),
                finished_at: Some("2024-05-01T10:05:00Z".to_string()),
            }),
        }),
    })
}

fn line(text: &str, seconds: i64) -> LogChunk {
    LogChunk::Line { bytes: text.as_bytes().to_vec(), seconds, nanos: 0 }
}

#[test]
fn submission_registers_the_pod_and_queues_it() {
    let (client, monitor) = submitted("job-1", 60);
    assert_eq!(client.status(), JobStatus::Queued);
    assert_eq!(client.pod_name(), Some("job-1".to_string()));
    assert_eq!(monitor.names(), vec!["job-1".to_string()]);
    assert!(client.tool_log().is_empty());
}

#[test]
fn refused_submission_changes_nothing() {
    let mut monitor = JobMonitor::new();
    let mut client = KubernetesClient::new("default".to_string(), 60);
    let result =
        client.submit_pod(&mut monitor, SubmitOutcome::Rejected { message: "quota exceeded".to_string() });
    assert_eq!(result, Err(KubernetesClientError::KubeError("quota exceeded".to_string())));
    assert_eq!(client.pod_name(), None);
    assert_eq!(monitor.len(), 0);
    assert_eq!(client.result(), Err(KubernetesClientError::PodNotSet));
}

#[test]
fn watch_without_a_pod_reports_that_none_is_set() {
    let mut monitor = JobMonitor::new();
    let mut client = KubernetesClient::new("default".to_string(), 60);
    let step = client.wait_for_completion(&mut monitor, phase(PodPhase::Succeeded), true);
    assert_eq!(step, WatchStep::Finished(Err(KubernetesClientError::PodNotSet)));
    assert_eq!(client.follow_logs(line("x", 0)), Err(KubernetesClientError::PodNotSet));
    assert_eq!(client.cancel(), WatchStep::Finished(Err(KubernetesClientError::PodNotSet)));
}

#[test]
fn watch_goes_from_queued_over_running_to_done() {
    let (mut client, mut monitor) = submitted("job-1", 3600);
    let wait = WatchStep::Wait { seconds: POLL_INTERVAL_SECONDS };

    assert_eq!(client.wait_for_completion(&mut monitor, None, false), wait);
    assert_eq!(client.status(), JobStatus::Queued);
    assert_eq!(
        client.wait_for_completion(
            &mut monitor,
            Some(PodStatus { phase: None, container_state: None }),
            false
        ),
        wait
    );
    assert_eq!(client.status(), JobStatus::Queued);
    assert_eq!(client.wait_for_completion(&mut monitor, phase(PodPhase::Running), false), wait);
    assert_eq!(client.status(), JobStatus::Running);
    assert_eq!(client.wait_for_completion(&mut monitor, phase(PodPhase::Running), false), wait);
    assert_eq!(client.status(), JobStatus::Running);
    assert!(monitor.contains("job-1"));

    let step = client.wait_for_completion(&mut monitor, ended(PodPhase::Succeeded, 0), false);
    assert_eq!(client.status(), JobStatus::Done);
    let expected = CompletionResult {
        exit_code: 0,
        cpu: None,
        memory: None,
        start_time: Some("2024-05-01T10:00:00Z".to_string()),
        finish_time: Some("2024-05-01T10:05:00Z".to_string()),
        log: vec![],
    };
    assert_eq!(step, WatchStep::Finished(Ok(expected.clone())));
    assert_eq!(client.result(), Ok(expected));
    assert!(!monitor.contains("job-1"));
}

#[test]
fn failed_phase_ends_in_failed_with_the_exit_code() {
    let (mut client, mut monitor) = submitted("job-2", 3600);
    let step = client.wait_for_completion(&mut monitor, ended(PodPhase::Failed, 137), false);
    assert_eq!(client.status(), JobStatus::Failed);
    match step {
        WatchStep::Finished(Ok(result)) => assert_eq!(result.exit_code, 137),
        other => panic!("unexpected step {other:?}"),
    }
    assert_eq!(monitor.len(), 0);
}

#[test]
fn pending_pod_stays_queued() {
    let (mut client, mut monitor) = submitted("job-3", 3600);
    let step = client.wait_for_completion(&mut monitor, phase(PodPhase::Pending), true);
    assert_eq!(step, WatchStep::Wait { seconds: 5 });
    assert_eq!(client.status(), JobStatus::Queued);
}

#[test]
fn watch_gives_up_when_its_time_is_spent() {
    let (mut client, mut monitor) = submitted("job-4", 12);
    assert_eq!(client.wait_for_completion(&mut monitor, None, true), WatchStep::Wait { seconds: 5 });
    assert_eq!(client.wait_for_completion(&mut monitor, None, true), WatchStep::Wait { seconds: 5 });
    let step = client.wait_for_completion(&mut monitor, None, true);
    assert_eq!(step, WatchStep::Finished(Err(KubernetesClientError::WatchTimeout)));
    let step = client.wait_for_completion(&mut monitor, None, true);
    assert_eq!(step, WatchStep::Finished(Err(KubernetesClientError::WatchTimeout)));
    assert_eq!(client.status(), JobStatus::Queued);
    assert!(monitor.contains("job-4"));
}

#[test]
fn watch_with_no_time_gives_up_at_once() {
    let (mut client, mut monitor) = submitted("job-5", 0);
    let step = client.wait_for_completion(&mut monitor, phase(PodPhase::Running), false);
    assert_eq!(step, WatchStep::Finished(Err(KubernetesClientError::WatchTimeout)));
    assert_eq!(client.status(), JobStatus::Running);
}

#[test]
fn a_job_that_ends_late_is_still_seen_to_end() {
    let (mut client, mut monitor) = submitted("job-6", 0);
    let step = client.wait_for_completion(&mut monitor, None, false);
    assert_eq!(step, WatchStep::Finished(Err(KubernetesClientError::WatchTimeout)));
    let step = client.wait_for_completion(&mut monitor, ended(PodPhase::Succeeded, 0), false);
    assert!(matches!(step, WatchStep::Finished(Ok(_))));
    assert_eq!(client.status(), JobStatus::Done);
}

#[test]
fn waits_never_exceed_the_time_of_the_watch() {
    for timeout in [0u64, 4, 5, 9, 10, 61, 600] {
        let (mut client, mut monitor) = submitted("job", timeout);
        let mut waited = 0u64;
        loop {
            match client.wait_for_completion(&mut monitor, None, false) {
                WatchStep::Wait { seconds } => waited += seconds,
                WatchStep::Finished(Err(KubernetesClientError::WatchTimeout)) => break,
                other => panic!("unexpected step {other:?}"),
            }
            assert!(waited <= timeout);
        }
        assert_eq!(waited, timeout / 5 * 5);
    }
}

#[test]
fn ended_job_without_container_state_is_incomplete() {
    let (mut client, mut monitor) = submitted("job-7", 60);
    let step = client.wait_for_completion(&mut monitor, phase(PodPhase::Succeeded), false);
    assert_eq!(step, WatchStep::Finished(Err(KubernetesClientError::IncompleteStatus)));
    assert_eq!(client.status(), JobStatus::Done);
    assert_eq!(monitor.len(), 0);
    let running_only =
        Some(PodStatus { phase: Some(PodPhase::Failed), container_state: Some(ContainerState { terminated: None }) });
    let (mut client, mut monitor) = submitted("job-8", 60);
    let step = client.wait_for_completion(&mut monitor, running_only, false);
    assert_eq!(step, WatchStep::Finished(Err(KubernetesClientError::IncompleteStatus)));
}

#[test]
fn missing_exit_code_counts_as_minus_one() {
    let (mut client, mut monitor) = submitted("job-9", 60);
    let status = Some(PodStatus {
        phase: Some(PodPhase::Failed),
        container_state: Some(ContainerState {
            terminated: Some(ContainerTerminated { exit_code: None, started_at: None, finished_at: None }),
        }),
    });
    match client.wait_for_completion(&mut monitor, status, false) {
        WatchStep::Finished(Ok(result)) => {
            assert_eq!(result.exit_code, -1);
            assert_eq!(result.start_time, None);
            assert_eq!(result.finish_time, None);
        }
        other => panic!("unexpected step {other:?}"),
    }
}

#[test]
fn finished_pod_is_deleted_where_deletion_is_on() {
    let (mut client, mut monitor) = submitted("job-10", 60);
    let step = client.wait_for_completion(&mut monitor, ended(PodPhase::Succeeded, 0), true);
    assert_eq!(step, WatchStep::Delete { pod_name: "job-10".to_string() });
    assert_eq!(client.status(), JobStatus::Done);
    assert!(!monitor.contains("job-10"));
    assert_eq!(client.finish_delete(&mut monitor, DeleteOutcome::Deleted), Ok(()));
    assert_eq!(client.status(), JobStatus::Done);
    assert_eq!(client.result().map(|r| r.exit_code), Ok(0));
}

#[test]
fn job_leaves_the_registry_even_where_its_pod_cannot_be_deleted() {
    let (mut client, mut monitor) = submitted("job-11", 60);
    let _ = client.wait_for_completion(&mut monitor, ended(PodPhase::Failed, 1), true);
    let result = client.finish_delete(&mut monitor, DeleteOutcome::Failed { message: "timeout".to_string() });
    assert_eq!(result, Err(KubernetesClientError::KubeError("timeout".to_string())));
    assert_eq!(monitor.len(), 0);
    assert_eq!(client.result().map(|r| r.exit_code), Ok(1));
}

#[test]
fn once_ended_nothing_moves_the_job() {
    let (mut client, mut monitor) = submitted("job-12", 60);
    let first = client.wait_for_completion(&mut monitor, ended(PodPhase::Succeeded, 0), false);
    let again = client.wait_for_completion(&mut monitor, ended(PodPhase::Failed, 9), false);
    assert_eq!(first, again);
    assert_eq!(client.status(), JobStatus::Done);
    assert_eq!(client.cancel(), first);
    assert_eq!(client.status(), JobStatus::Done);
    assert_eq!(client.wait_for_completion(&mut monitor, None, true), first);
}

#[test]
fn deleting_a_missing_pod_is_a_success() {
    let outcome = DeleteOutcome::ApiError { code: 404, message: "pods \"missing-id\" not found".to_string() };
    assert_eq!(KubernetesClient::delete_pod_name(outcome), Ok(()));
    assert_eq!(KubernetesClient::delete_pod_name(DeleteOutcome::Deleted), Ok(()));
}

#[test]
fn other_answers_to_a_deletion_are_errors() {
    let outcome = DeleteOutcome::ApiError { code: 403, message: "forbidden".to_string() };
    assert_eq!(
        KubernetesClient::delete_pod_name(outcome),
        Err(KubernetesClientError::KubeError("forbidden".to_string()))
    );
    let outcome = DeleteOutcome::ApiError { code: 500, message: "boom".to_string() };
    assert_eq!(
        KubernetesClient::delete_pod_name(outcome),
        Err(KubernetesClientError::KubeError("boom".to_string()))
    );
    let outcome = DeleteOutcome::Failed { message: "connection reset".to_string() };
    assert_eq!(
        KubernetesClient::delete_pod_name(outcome),
        Err(KubernetesClientError::KubeError("connection reset".to_string()))
    );
}

#[test]
fn cancel_stops_a_running_job() {
    let (mut client, mut monitor) = submitted("job-13", 60);
    let _ = client.wait_for_completion(&mut monitor, phase(PodPhase::Running), true);
    assert_eq!(client.cancel(), WatchStep::Delete { pod_name: "job-13".to_string() });
    assert_eq!(client.status(), JobStatus::Stopping);
    assert!(monitor.contains("job-13"));
    let step = client.wait_for_completion(&mut monitor, ended(PodPhase::Succeeded, 0), true);
    assert_eq!(step, WatchStep::Delete { pod_name: "job-13".to_string() });
    assert_eq!(client.status(), JobStatus::Stopping);
    assert_eq!(client.finish_delete(&mut monitor, DeleteOutcome::Deleted), Ok(()));
    assert_eq!(client.status(), JobStatus::Stopped);
    assert!(!monitor.contains("job-13"));
    assert_eq!(client.result(), Err(KubernetesClientError::IncompleteStatus));
}

#[test]
fn cancel_stops_a_queued_job_whose_pod_is_gone_already() {
    let (mut client, mut monitor) = submitted("job-14", 60);
    assert_eq!(client.cancel(), WatchStep::Delete { pod_name: "job-14".to_string() });
    let outcome = DeleteOutcome::ApiError { code: 404, message: "not found".to_string() };
    assert_eq!(client.finish_delete(&mut monitor, outcome), Ok(()));
    assert_eq!(client.status(), JobStatus::Stopped);
    assert_eq!(monitor.len(), 0);
}

#[test]
fn job_keeps_stopping_while_its_deletion_fails() {
    let (mut client, mut monitor) = submitted("job-15", 60);
    let _ = client.cancel();
    let outcome = DeleteOutcome::ApiError { code: 500, message: "busy".to_string() };
    assert_eq!(
        client.finish_delete(&mut monitor, outcome),
        Err(KubernetesClientError::KubeError("busy".to_string()))
    );
    assert_eq!(client.status(), JobStatus::Stopping);
    assert!(monitor.contains("job-15"));
    assert_eq!(client.cancel(), WatchStep::Delete { pod_name: "job-15".to_string() });
}

#[test]
fn two_chunks_then_an_error_give_two_entries() {
    let (mut client, mut monitor) = submitted("job-16", 60);
    assert_eq!(client.follow_logs(line("first line\n", 0)), Ok(true));
    assert_eq!(client.follow_logs(line("  second line  ", 1_714_557_600)), Ok(true));
    assert_eq!(client.follow_logs(LogChunk::Broken), Ok(false));
    assert_eq!(client.follow_logs(line("late", 2)), Ok(false));
    assert_eq!(
        client.tool_log(),
        vec![
            LogEntry {
                timestamp: "1970-01-01T00:00:00+00:00".to_string(),
                pod_name: "job-16".to_string(),
                entry: "first line".to_string(),
            },
            LogEntry {
                timestamp: "2024-05-01T10:00:00+00:00".to_string(),
                pod_name: "job-16".to_string(),
                entry: "second line".to_string(),
            },
        ]
    );
    assert_eq!(client.status(), JobStatus::Queued);
    let step = client.wait_for_completion(&mut monitor, ended(PodPhase::Succeeded, 0), false);
    match step {
        WatchStep::Finished(Ok(result)) => {
            assert_eq!(result.exit_code, 0);
            assert_eq!(result.log, client.tool_log());
            assert_eq!(result.log.len(), 2);
        }
        other => panic!("unexpected step {other:?}"),
    }
}

#[test]
fn end_of_stream_ends_the_following() {
    let (mut client, _monitor) = submitted("job-17", 60);
    assert_eq!(client.follow_logs(line("only", 0)), Ok(true));
    assert_eq!(client.follow_logs(LogChunk::End), Ok(false));
    assert_eq!(client.follow_logs(line("more", 0)), Ok(false));
    assert_eq!(client.tool_log().len(), 1);
}

#[test]
fn result_holds_the_log_as_it_was_when_the_job_ended() {
    let (mut client, mut monitor) = submitted("job-18", 60);
    assert_eq!(client.follow_logs(line("before", 0)), Ok(true));
    let _ = client.wait_for_completion(&mut monitor, ended(PodPhase::Succeeded, 0), false);
    assert_eq!(client.follow_logs(line("after", 0)), Ok(true));
    assert_eq!(client.tool_log().len(), 2);
    assert_eq!(client.result().map(|r| r.log.len()), Ok(1));
}

#[test]
fn bytes_that_are_no_text_are_replaced() {
    let (mut client, _monitor) = submitted("job-19", 60);
    let chunk = LogChunk::Line { bytes: vec![b'o', b'k', 0xff, b'!', b'\n'], seconds: 0, nanos: 0 };
    assert_eq!(client.follow_logs(chunk), Ok(true));
    assert_eq!(client.tool_log()[0].entry, "ok\u{fffd}!");
}

#[test]
fn time_of_arrival_out_of_range_leaves_the_timestamp_empty() {
    let (mut client, _monitor) = submitted("job-20", 60);
    let chunk = LogChunk::Line { bytes: b"x".to_vec(), seconds: i64::MAX, nanos: 0 };
    assert_eq!(client.follow_logs(chunk), Ok(true));
    assert_eq!(client.tool_log()[0].timestamp, "");
    assert_eq!(client.tool_log()[0].entry, "x");
}

#[test]
fn nanoseconds_show_in_the_timestamp() {
    let (mut client, _monitor) = submitted("job-21", 60);
    let chunk = LogChunk::Line { bytes: b"x".to_vec(), seconds: 1, nanos: 500_000_000 };
    assert_eq!(client.follow_logs(chunk), Ok(true));
    assert_eq!(client.tool_log()[0].timestamp, "1970-01-01T00:00:01.500+00:00");
}

#[test]
fn recorded_line_is_kept_as_given() {
    let (mut client, _monitor) = submitted("job-22", 60);
    assert!(client.record_line("2024-01-01T00:00:00+00:00".to_string(), "  as is  ".to_string()));
    assert_eq!(
        client.tool_log(),
        vec![LogEntry {
            timestamp: "2024-01-01T00:00:00+00:00".to_string(),
            pod_name: "job-22".to_string(),
            entry: "  as is  ".to_string(),
        }]
    );
    let mut idle = KubernetesClient::new("default".to_string(), 60);
    assert!(!idle.record_line("t".to_string(), "x".to_string()));
    assert!(idle.tool_log().is_empty());
}

#[test]
fn new_submission_starts_afresh() {
    let (mut client, mut monitor) = submitted("job-23", 60);
    assert_eq!(client.follow_logs(line("old", 0)), Ok(true));
    let _ = client.wait_for_completion(&mut monitor, ended(PodPhase::Failed, 2), false);
    let result = client.submit_pod(&mut monitor, SubmitOutcome::Created { name: "job-24".to_string() });
    assert_eq!(result, Ok(()));
    assert_eq!(client.status(), JobStatus::Queued);
    assert_eq!(client.pod_name(), Some("job-24".to_string()));
    assert!(client.tool_log().is_empty());
    assert_eq!(client.result(), Err(KubernetesClientError::IncompleteStatus));
    assert_eq!(monitor.names(), vec!["job-24".to_string()]);
}

#[test]
fn deletion_is_on_unless_switched_off() {
    assert!(KubernetesClient::should_delete_pod(None));
    assert!(KubernetesClient::should_delete_pod(Some("")));
    assert!(KubernetesClient::should_delete_pod(Some("true")));
    assert!(KubernetesClient::should_delete_pod(Some("yes")));
    assert!(KubernetesClient::should_delete_pod(Some("1")));
    assert!(KubernetesClient::should_delete_pod(Some("off")));
    assert!(KubernetesClient::should_delete_pod(Some(" false")));
    assert!(KubernetesClient::should_delete_pod(Some("00")));
    assert!(KubernetesClient::should_delete_pod(Some("nö")));
    assert!(!KubernetesClient::should_delete_pod(Some("false")));
    assert!(!KubernetesClient::should_delete_pod(Some("False")));
    assert!(!KubernetesClient::should_delete_pod(Some("FALSE")));
    assert!(!KubernetesClient::should_delete_pod(Some("no")));
    assert!(!KubernetesClient::should_delete_pod(Some("No")));
    assert!(!KubernetesClient::should_delete_pod(Some("NO")));
    assert!(!KubernetesClient::should_delete_pod(Some("0")));
}

#[test]
fn setting_is_read_as_its_small_letters() {
    for value in ["false", "FaLsE", "no", "nO", "0", "true", "", "N0", "FALSE ", "ﬀalse", "Kelvin", "ｎｏ"] {
        let lowered = value.to_lowercase();
        let off = lowered == "false" || lowered == "no" || lowered == "0";
        assert_eq!(KubernetesClient::should_delete_pod(Some(value)), !off, "{value:?}");
    }
}

#[test]
fn phases_are_read_as_the_cluster_writes_them() {
    assert_eq!(PodPhase::from_name("Pending"), Some(PodPhase::Pending));
    assert_eq!(PodPhase::from_name("Running"), Some(PodPhase::Running));
    assert_eq!(PodPhase::from_name("Succeeded"), Some(PodPhase::Succeeded));
    assert_eq!(PodPhase::from_name("Failed"), Some(PodPhase::Failed));
    assert_eq!(PodPhase::from_name("Unknown"), None);
    assert_eq!(PodPhase::from_name("succeeded"), None);
    assert_eq!(PodPhase::from_name(""), None);
}

#[test]
fn errors_say_what_went_wrong() {
    assert_eq!(
        KubernetesClientError::KubeError("forbidden".to_string()).to_string(),
        "Kubernetes client error: forbidden"
    );
    assert_eq!(KubernetesClientError::PodNotSet.to_string(), "Pod not set");
    assert_eq!(KubernetesClientError::IncompleteStatus.to_string(), "Incomplete pod status");
    assert_eq!(KubernetesClientError::WatchTimeout.to_string(), "Timed out waiting for the pod to end");
}

#[test]
fn a_pod_is_awaited_until_it_runs_or_time_is_up() {
    assert_eq!(wait_until_running(Some(PodPhase::Running), 0, 60), ReadyStep::Ready);
    assert_eq!(wait_until_running(Some(PodPhase::Running), 61, 60), ReadyStep::Ready);
    assert_eq!(wait_until_running(None, 0, 60), ReadyStep::Wait { seconds: 1 });
    assert_eq!(wait_until_running(Some(PodPhase::Pending), 60, 60), ReadyStep::Wait { seconds: 1 });
    assert_eq!(wait_until_running(Some(PodPhase::Pending), 61, 60), ReadyStep::TimedOut);
    assert_eq!(wait_until_running(None, 61, 60), ReadyStep::TimedOut);
    assert_eq!(wait_until_running(Some(PodPhase::Succeeded), 5, 60), ReadyStep::Wait { seconds: 1 });
}

fn in_the_list_of_whitespace(c: char) -> bool {
    matches!(
        c,
        '\u{9}'..='\u{d}'
            | ' '
            | '\u{85}'
            | '\u{a0}'
            | '\u{1680}'
            | '\u{2000}'..='\u{200a}'
            | '\u{2028}'
            | '\u{2029}'
            | '\u{202f}'
            | '\u{205f}'
            | '\u{3000}'
    )
}

#[test]
fn whitespace_is_what_the_standard_library_takes_for_it() {
    let mut count = 0;
    for code in 0..=0x10ffffu32 {
        if let Some(c) = char::from_u32(code) {
            assert_eq!(c.is_whitespace(), in_the_list_of_whitespace(c), "U+{code:04X}");
            if c.is_whitespace() {
                count += 1;
            }
        }
    }
    assert_eq!(count, 25);
}

#[test]
fn a_line_is_recorded_without_the_whitespace_at_its_ends() {
    let (mut client, _monitor) = submitted("job-30", 60);
    for text in [
        "one",
        "  two words \t\r\n",
        "\u{a0}\u{3000}three\u{2028}\u{85}",
        "\u{200b}four\u{180e}",
        " \u{b}\u{c} ",
        "",
        "five\u{2003}six",
    ] {
        assert_eq!(client.follow_logs(line(text, 0)), Ok(true));
    }
    let entries: Vec<String> = client.tool_log().into_iter().map(|entry| entry.entry).collect();
    assert_eq!(
        entries,
        vec![
            "one".to_string(),
            "two words".to_string(),
            "three".to_string(),
            "\u{200b}four\u{180e}".to_string(),
            "".to_string(),
            "".to_string(),
            "five\u{2003}six".to_string(),
        ]
    );
}

#[test]
fn every_character_is_trimmed_exactly_where_it_is_whitespace() {
    for code in (0..0x3100u32).chain([0xfeff, 0x1_0000, 0xe_0020]) {
        if let Some(c) = char::from_u32(code) {
            let (mut client, _monitor) = submitted("job-31", 60);
            let text = format!("{c}x{c}");
            assert_eq!(client.follow_logs(line(&text, 0)), Ok(true));
            let entry = client.tool_log().pop().expect("entry").entry;
            let expected = if in_the_list_of_whitespace(c) { "x".to_string() } else { text };
            assert_eq!(entry, expected, "U+{code:04X}");
        }
    }
}

#[test]
fn the_log_is_waited_for_until_the_pod_is_there_or_time_is_up() {
    let (mut client, mut monitor) = submitted("job-32", 60);
    assert_eq!(
        client.await_pod(Some("job-32-abcde".to_string()), 0),
        FollowStep::Read { pod_name: "job-32-abcde".to_string() }
    );
    assert_eq!(
        client.await_pod(Some("job-32-abcde".to_string()), 600),
        FollowStep::Read { pod_name: "job-32-abcde".to_string() }
    );
    assert_eq!(client.await_pod(None, 0), FollowStep::Wait { seconds: 1 });
    assert_eq!(client.await_pod(None, 60), FollowStep::Wait { seconds: 1 });
    assert_eq!(client.await_pod(None, 61), FollowStep::GiveUp);
    let _ = client.wait_for_completion(&mut monitor, ended(PodPhase::Succeeded, 0), false);
    assert_eq!(client.await_pod(None, 0), FollowStep::GiveUp);
    assert_eq!(
        client.await_pod(Some("job-32-abcde".to_string()), 0),
        FollowStep::Read { pod_name: "job-32-abcde".to_string() }
    );
    assert_eq!(client.follow_logs(LogChunk::End), Ok(false));
    assert_eq!(client.await_pod(Some("job-32-abcde".to_string()), 0), FollowStep::GiveUp);
    let idle = KubernetesClient::new("default".to_string(), 60);
    assert_eq!(idle.await_pod(Some("pod".to_string()), 0), FollowStep::GiveUp);
    assert_eq!(idle.await_pod(None, 0), FollowStep::GiveUp);
}
