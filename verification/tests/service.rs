use zefiro::job::{JobMonitor, JobStatus};
use zefiro::k8s::{
    ContainerState, ContainerTerminated, PodPhase, PodStatus, SubmitOutcome, WatchStep,
};
use zefiro::message::{InputMessage, Message};
use zefiro::priority::JobPriority;
use zefiro::resources::JobResources;
use zefiro::service::{DispatchStep, KubeService, SERVICE_NAME, SERVICE_VERSION};

fn request(id: &str, priority: &str) -> InputMessage {
    InputMessage {
        id: id.to_string(),
        image: "tool:latest".to_string(),
        min_resources: JobResources::new(1000, 512, 512),
        max_resources: None,
        time_limit: 60,
        args: vec!["--x=1".to_string()],
        priority: priority.to_string(),
    }
}

#[test]
fn request_runs_from_submission_to_its_end() {
    let service = KubeService::new("default", 3600);
    let mut monitor = JobMonitor::new();

    let job = match service.run(Ok(request("job-1", "low"))) {
        DispatchStep::Submit(job) => job,
        other => panic!("unexpected step {other:?}"),
    };
    assert_eq!(job.name, "job-1");
    assert_eq!(job.backoff_limit, 0);
    assert_eq!(job.active_deadline_seconds, 60);
    assert_eq!(job.ttl_seconds_after_finished, 300);
    assert_eq!(job.template.priority_class_name, Some("low".to_string()));
    assert_eq!(job.template.restart_policy, Some("Never".to_string()));
    let container = &job.template.containers[0];
    assert_eq!(container.name, "job-1");
    assert_eq!(container.image, "tool:latest");
    assert_eq!(container.args, vec!["--x=1".to_string()]);
    assert_eq!(container.resources.limits, None);
    assert_eq!(
        container.resources.requests,
        vec![
            ("cpu".to_string(), "1".to_string()),
            ("ephemeral-storage".to_string(), "512M".to_string()),
            ("memory".to_string(), "512M".to_string()),
        ]
    );

    let answer = SubmitOutcome::Created { name: job.name.clone() };
    let mut client = match service.job_submitted(&mut monitor, answer) {
        DispatchStep::Watch(client) => client,
        other => panic!("unexpected step {other:?}"),
    };
    assert_eq!(client.status(), JobStatus::Queued);
    assert!(monitor.contains("job-1"));

    let succeeded = Some(PodStatus {
        phase: Some(PodPhase::Succeeded),
        container_state: Some(ContainerState {
            terminated: Some(ContainerTerminated {
                exit_code: Some(0),
                started_at: None,
                finished_at: None,
            }),
        }),
    });
    match client.wait_for_completion(&mut monitor, succeeded, false) {
        WatchStep::Finished(Ok(result)) => assert_eq!(result.exit_code, 0),
        other => panic!("unexpected step {other:?}"),
    }
    assert!(!monitor.contains("job-1"));
    assert_eq!(monitor.len(), 0);
}

#[test]
fn a_bad_request_is_skipped_and_the_next_is_taken() {
    let service = KubeService::new("default", 60);
    match service.run(Ok(request("job-1", "urgent"))) {
        DispatchStep::Skip { reason } => assert_eq!(reason, "Unknown priority: urgent"),
        other => panic!("unexpected step {other:?}"),
    }
    match service.run(Ok(request("", "low"))) {
        DispatchStep::Skip { reason } => assert_eq!(reason, "The request names no job"),
        other => panic!("unexpected step {other:?}"),
    }
    match service.run(Err("expected value at line 1 column 1".to_string())) {
        DispatchStep::Skip { reason } => {
            assert_eq!(reason, "Failed to parse InputMessage from string: expected value at line 1 column 1")
        }
        other => panic!("unexpected step {other:?}"),
    }
    assert!(matches!(service.run(Ok(request("job-2", "high"))), DispatchStep::Submit(_)));
}

#[test]
fn a_refused_job_is_skipped_and_not_registered() {
    let service = KubeService::new("default", 60);
    let mut monitor = JobMonitor::new();
    let answer = SubmitOutcome::Rejected { message: "jobs.batch \"job-1\" already exists".to_string() };
    match service.job_submitted(&mut monitor, answer) {
        DispatchStep::Skip { reason } => {
            assert_eq!(reason, "Kubernetes client error: jobs.batch \"job-1\" already exists")
        }
        other => panic!("unexpected step {other:?}"),
    }
    assert_eq!(monitor.len(), 0);
    let answer = SubmitOutcome::Created { name: "job-2".to_string() };
    assert!(matches!(service.job_submitted(&mut monitor, answer), DispatchStep::Watch(_)));
    assert_eq!(monitor.names(), vec!["job-2".to_string()]);
}

#[test]
fn launched_job_mounts_the_fixed_directories() {
    let service = KubeService::new("default", 60);
    let message = Message {
        job_id: "step-7".to_string(),
        image: "aligner:2".to_string(),
        min_resources: JobResources::new(2000, 1024, 1024),
        max_resources: Some(JobResources::new(8000, 10_000, 1024)),
        time_limit: 7200,
        args: vec![],
        priority: JobPriority::Highest,
    };
    let job = service.launch_job(message.clone());
    assert_eq!(job, service.launch_job(message));
    assert_eq!(job.template.volumes[0].host_path, "/inputs");
    assert_eq!(job.template.volumes[1].host_path, "/outputs");
    assert_eq!(job.template.containers[0].volume_mounts[0].mount_path, "/inputs");
    assert_eq!(job.template.containers[0].volume_mounts[1].mount_path, "/outputs");
    assert_eq!(job.active_deadline_seconds, 7200);
    assert_eq!(job.ttl_seconds_after_finished, 7200);
    assert_eq!(job.template.priority_class_name, Some("highest".to_string()));
    assert_eq!(
        job.template.containers[0].resources.limits,
        Some(vec![
            ("cpu".to_string(), "8".to_string()),
            ("ephemeral-storage".to_string(), "1024M".to_string()),
            ("memory".to_string(), "10000M".to_string()),
        ])
    );
}

#[test]
fn service_answers_under_its_name() {
    assert_eq!(SERVICE_NAME, "zefiro-job");
    assert_eq!(SERVICE_VERSION, "1.0.0");
}
