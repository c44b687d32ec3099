//! The dispatch loop, one turn at a time: what to do with a request that
//! came in, and what to do once the cluster has answered the submission.
//!
//! Receiving requests, submitting jobs and starting the watch of a job are
//! the caller's part. Each turn ends in a step that is followed by the next
//! request: no request and no answer of the cluster ends the loop.

use vstd::prelude::*;
use crate::builder::{
    job_container, job_manifest, lemma_job_policy, lemma_limits_follow_maximum, retention_seconds,
    JobBuilder, JobBuilderView,
};
use crate::job::{JobMonitor, JobStatus};
use crate::k8s::{
    error_message, KubernetesClient, KubernetesClientErrorView, KubernetesClientView,
    SubmitOutcome, SubmitOutcomeView,
};
use crate::manifest::{JobManifest, JobManifestView};
use crate::priority::priority_class_name;
use crate::message::{
    checked, message_error_text, InputMessage, InputMessageView, Message, MessageView,
};

verus! {

/// Name under which the service answers.
pub const SERVICE_NAME: &'static str = "zefiro-job";

/// Version of the service.
pub const SERVICE_VERSION: &'static str = "1.0.0";

/// The builder that the service makes of a request: job and container are
/// named after the request, and the host directories `/inputs` and
/// `/outputs` are mounted.
pub open spec fn launch_builder(msg: MessageView) -> JobBuilderView {
    JobBuilderView {
        job_name: msg.job_id,
        container: job_container(
            msg.job_id,
            msg.image,
            msg.args,
            msg.min_resources,
            msg.max_resources,
            "/inputs"@,
            "/outputs"@,
        ),
        priority: msg.priority,
        time_limit: msg.time_limit,
        inputs_dir: "/inputs"@,
        outputs_dir: "/outputs"@,
        ttl_seconds: retention_seconds(msg.time_limit),
    }
}

/// The job that the service submits for a request.
pub open spec fn launched_job(msg: MessageView) -> JobManifestView {
    job_manifest(launch_builder(msg))
}

/// What the dispatch loop does next.
#[derive(Debug)]
pub enum DispatchStep {
    /// Submit this job, then hand the cluster's answer to `job_submitted`.
    Submit(JobManifest),
    /// The job runs: watch it and follow its log through this client,
    /// apart from the loop, and take the next request.
    Watch(KubernetesClient),
    /// The request is given up: report `reason` and take the next request.
    Skip { reason: String },
}

/// What a `DispatchStep` holds, as the contracts speak of it.
pub enum DispatchStepView {
    Submit(JobManifestView),
    Watch(KubernetesClientView),
    Skip { reason: Seq<char> },
}

impl DeepView for DispatchStep {
    type V = DispatchStepView;

    open spec fn deep_view(&self) -> DispatchStepView {
        match self {
            DispatchStep::Submit(job) => DispatchStepView::Submit(job.deep_view()),
            DispatchStep::Watch(client) => DispatchStepView::Watch(client.deep_view()),
            DispatchStep::Skip { reason } => DispatchStepView::Skip { reason: reason@ },
        }
    }
}

/// The step that follows what was received: a request, or the reason why
/// what came in could not be read as one.
pub open spec fn dispatch(received: Result<InputMessageView, Seq<char>>) -> DispatchStepView {
    match received {
        Ok(input) => match checked(input) {
            Ok(msg) => DispatchStepView::Submit(launched_job(msg)),
            Err(error) => DispatchStepView::Skip { reason: message_error_text(error) },
        },
        Err(why) => DispatchStepView::Skip {
            reason: "Failed to parse InputMessage from string: "@ + why,
        },
    }
}

/// View of what was received.
pub open spec fn received_view(received: Result<InputMessage, String>) -> Result<
    InputMessageView,
    Seq<char>,
> {
    match received {
        Ok(input) => Ok(input.deep_view()),
        Err(why) => Err(why@),
    }
}

/// The client of a job that has just been created under `name`.
pub open spec fn fresh_client(namespace: Seq<char>, timeout: nat, name: Seq<char>)
    -> KubernetesClientView {
    KubernetesClientView {
        namespace,
        pod: Some(name),
        status: JobStatus::Queued,
        completion_result: None,
        tool_log: Seq::empty(),
        following: true,
        waited: 0,
        timeout,
    }
}

/// The service that runs requests as jobs in one namespace.
#[derive(Debug)]
pub struct KubeService {
    namespace: String,
    watch_timeout: u64,
}

/// What a `KubeService` holds, as the contracts speak of it.
pub struct KubeServiceView {
    pub namespace: Seq<char>,
    pub watch_timeout: nat,
}

impl DeepView for KubeService {
    type V = KubeServiceView;

    closed spec fn deep_view(&self) -> KubeServiceView {
        KubeServiceView { namespace: self.namespace@, watch_timeout: self.watch_timeout as nat }
    }
}

impl KubeService {
    /// A service for `namespace`. The watch of each job gives up after
    /// `watch_timeout` seconds of waiting.
    pub fn new(namespace: &str, watch_timeout: u64) -> (service: Self)
        ensures
            service.deep_view() == (KubeServiceView {
                namespace: namespace@,
                watch_timeout: watch_timeout as nat,
            }),
    {
        KubeService { namespace: namespace.to_string(), watch_timeout }
    }

    /// The job for a request.
    pub fn launch_job(&self, msg: Message) -> (job: JobManifest)
        ensures
            job.deep_view() == launched_job(msg.deep_view()),
    {
        let builder = JobBuilder::new(
            msg.job_id.as_str(),
            msg.job_id.as_str(),
            msg.image.as_str(),
            msg.args,
            msg.min_resources,
            msg.max_resources,
            msg.priority,
            msg.time_limit,
            "/inputs",
            "/outputs",
        );
        builder.build()
    }

    /// One turn of the loop: takes what was received, checks it, and says
    /// what to submit. What could not be read as a request, and a request
    /// that does not pass the check, is skipped.
    pub fn run(&self, received: Result<InputMessage, String>) -> (step: DispatchStep)
        ensures
            step.deep_view() == dispatch(received_view(received)),
    {
        match received {
            Ok(input) => match Message::from_input(input) {
                Ok(msg) => DispatchStep::Submit(self.launch_job(msg)),
                Err(error) => DispatchStep::Skip { reason: error.to_string() },
            },
            Err(why) => {
                let mut reason = "Failed to parse InputMessage from string: ".to_string();
                reason.append(why.as_str());
                DispatchStep::Skip { reason }
            },
        }
    }

    /// Takes the cluster's answer to a submission. A job that was created is
    /// registered with `monitor` and handed out to be watched; a refusal is
    /// skipped with the cluster's message, and leaves `monitor` as it is.
    pub fn job_submitted(&self, monitor: &mut JobMonitor, outcome: SubmitOutcome) -> (step:
        DispatchStep)
        ensures
            step.deep_view() == match outcome.deep_view() {
                SubmitOutcomeView::Created { name } => DispatchStepView::Watch(
                    fresh_client(self.deep_view().namespace, self.deep_view().watch_timeout, name),
                ),
                SubmitOutcomeView::Rejected { message } => DispatchStepView::Skip {
                    reason: error_message(KubernetesClientErrorView::KubeError(message)),
                },
            },
            final(monitor).deep_view() == match outcome.deep_view() {
                SubmitOutcomeView::Created { name } => if old(monitor).deep_view().contains(name) {
                    old(monitor).deep_view()
                } else {
                    old(monitor).deep_view().push(name)
                },
                SubmitOutcomeView::Rejected { message } => old(monitor).deep_view(),
            },
    {
        let mut client = KubernetesClient::new(self.namespace.clone(), self.watch_timeout);
        match client.submit_pod(monitor, outcome) {
            Ok(()) => DispatchStep::Watch(client),
            Err(error) => DispatchStep::Skip { reason: error.to_string() },
        }
    }
}

/// What the job of a request is submitted with: the name of the request,
/// one attempt, the time limit as its deadline, the priority class of its
/// rank, and limits exactly where the request has a maximum.
pub proof fn lemma_launched_job(msg: MessageView)
    ensures
        launched_job(msg).name == msg.job_id,
        launched_job(msg).backoff_limit == 0,
        launched_job(msg).template.restart_policy == Some("Never"@),
        launched_job(msg).template.priority_class_name == Some(priority_class_name(msg.priority)),
        msg.time_limit <= i64::MAX ==> launched_job(msg).active_deadline_seconds == msg.time_limit,
        launched_job(msg).template.containers.len() == 1,
        launched_job(msg).template.containers[0].image == msg.image,
        launched_job(msg).template.containers[0].args == msg.args,
        launched_job(msg).template.containers[0].resources.limits is None
            <==> msg.max_resources is None,
{
    lemma_job_policy(launch_builder(msg));
    lemma_limits_follow_maximum(msg.min_resources, msg.max_resources);
}

/// No turn of the loop ends the loop: what was received leads to a
/// submission or is skipped, and either way the next request is taken.
pub proof fn lemma_turn_goes_on(received: Result<InputMessageView, Seq<char>>)
    ensures
        dispatch(received) is Submit || dispatch(received) is Skip,
        dispatch(received) is Submit <==> (received matches Ok(input) && checked(input) is Ok),
{
}

} // verus!
