//! One job on the cluster, from submission to its end: what the cluster is
//! asked, what it answers, and what follows from each answer.
//!
//! The cluster is never called from here. Whoever drives a
//! [`KubernetesClient`] makes the calls (create, get, delete, the log
//! stream) and hands each answer in; the client decides what it means, keeps
//! the state of the job, and says what to do next.

use vstd::prelude::*;
use crate::job::{without, JobMonitor, JobStatus};
use crate::text::{lowered, reads_as, trimmed_text};

verus! {

/// Seconds between two looks at the status of a job.
pub const POLL_INTERVAL_SECONDS: u64 = 5;

/// HTTP status with which the cluster says that an object does not exist.
pub const NOT_FOUND: u16 = 404;

/// One line of a job's output.
#[derive(Debug, PartialEq, Eq)]
pub struct LogEntry {
    /// When the line arrived, in RFC 3339.
    pub timestamp: String,
    pub pod_name: String,
    pub entry: String,
}

/// What a `LogEntry` holds, as the contracts speak of it.
pub struct LogEntryView {
    pub timestamp: Seq<char>,
    pub pod_name: Seq<char>,
    pub entry: Seq<char>,
}

impl DeepView for LogEntry {
    type V = LogEntryView;

    open spec fn deep_view(&self) -> LogEntryView {
        LogEntryView { timestamp: self.timestamp@, pod_name: self.pod_name@, entry: self.entry@ }
    }
}

impl Clone for LogEntry {
    fn clone(&self) -> (copy: Self)
        ensures
            copy.deep_view() == self.deep_view(),
    {
        LogEntry {
            timestamp: self.timestamp.clone(),
            pod_name: self.pod_name.clone(),
            entry: self.entry.clone(),
        }
    }
}

/// How a job ended.
#[derive(Debug, PartialEq, Eq)]
pub struct CompletionResult {
    pub exit_code: i32,
    pub cpu: Option<String>,
    pub memory: Option<String>,
    /// When the container started, as the cluster wrote it.
    pub start_time: Option<String>,
    /// When the container ended, as the cluster wrote it.
    pub finish_time: Option<String>,
    /// The output that had arrived when the end was seen.
    pub log: Vec<LogEntry>,
}

/// What a `CompletionResult` holds, as the contracts speak of it.
pub struct CompletionResultView {
    pub exit_code: i32,
    pub cpu: Option<Seq<char>>,
    pub memory: Option<Seq<char>>,
    pub start_time: Option<Seq<char>>,
    pub finish_time: Option<Seq<char>>,
    pub log: Seq<LogEntryView>,
}

impl DeepView for CompletionResult {
    type V = CompletionResultView;

    open spec fn deep_view(&self) -> CompletionResultView {
        CompletionResultView {
            exit_code: self.exit_code,
            cpu: self.cpu.deep_view(),
            memory: self.memory.deep_view(),
            start_time: self.start_time.deep_view(),
            finish_time: self.finish_time.deep_view(),
            log: self.log.deep_view(),
        }
    }
}

impl Clone for CompletionResult {
    fn clone(&self) -> (copy: Self)
        ensures
            copy.deep_view() == self.deep_view(),
    {
        CompletionResult {
            exit_code: self.exit_code,
            cpu: crate::manifest::clone_text_option(&self.cpu),
            memory: crate::manifest::clone_text_option(&self.memory),
            start_time: crate::manifest::clone_text_option(&self.start_time),
            finish_time: crate::manifest::clone_text_option(&self.finish_time),
            log: clone_log(&self.log),
        }
    }
}

/// A copy of a list of log entries.
pub fn clone_log(log: &Vec<LogEntry>) -> (copy: Vec<LogEntry>)
    ensures
        copy.deep_view() == log.deep_view(),
{
    let mut copy: Vec<LogEntry> = Vec::new();
    let mut i: usize = 0;
    while i < log.len()
        invariant
            i <= log.len(),
            copy.len() == i,
            forall|j: int| 0 <= j < i ==> copy[j].deep_view() == log[j].deep_view(),
        decreases log.len() - i,
    {
        copy.push(log[i].clone());
        i += 1;
    }
    assert(copy.deep_view() =~= log.deep_view());
    copy
}

/// Why an operation on a job failed.
#[derive(Debug, PartialEq, Eq)]
pub enum KubernetesClientError {
    /// The cluster refused or could not be reached; the text says why.
    KubeError(String),
    /// No pod has been submitted through this client.
    PodNotSet,
    /// The job ended, but the cluster reported no terminal state of its
    /// container.
    IncompleteStatus,
    /// The job did not end within the time that the watch was given.
    WatchTimeout,
}

/// What a `KubernetesClientError` holds, as the contracts speak of it.
pub enum KubernetesClientErrorView {
    KubeError(Seq<char>),
    PodNotSet,
    IncompleteStatus,
    WatchTimeout,
}

impl DeepView for KubernetesClientError {
    type V = KubernetesClientErrorView;

    open spec fn deep_view(&self) -> KubernetesClientErrorView {
        match self {
            KubernetesClientError::KubeError(text) => KubernetesClientErrorView::KubeError(text@),
            KubernetesClientError::PodNotSet => KubernetesClientErrorView::PodNotSet,
            KubernetesClientError::IncompleteStatus => KubernetesClientErrorView::IncompleteStatus,
            KubernetesClientError::WatchTimeout => KubernetesClientErrorView::WatchTimeout,
        }
    }
}

/// The message of an error.
pub open spec fn error_message(error: KubernetesClientErrorView) -> Seq<char> {
    match error {
        KubernetesClientErrorView::KubeError(text) => "Kubernetes client error: "@ + text,
        KubernetesClientErrorView::PodNotSet => "Pod not set"@,
        KubernetesClientErrorView::IncompleteStatus => "Incomplete pod status"@,
        KubernetesClientErrorView::WatchTimeout => "Timed out waiting for the pod to end"@,
    }
}

impl KubernetesClientError {
    /// The message of this error.
    pub fn to_string(&self) -> (message: String)
        ensures
            message@ == error_message(self.deep_view()),
    {
        match self {
            KubernetesClientError::KubeError(text) => {
                let mut message = "Kubernetes client error: ".to_string();
                message.append(text.as_str());
                message
            },
            KubernetesClientError::PodNotSet => "Pod not set".to_string(),
            KubernetesClientError::IncompleteStatus => "Incomplete pod status".to_string(),
            KubernetesClientError::WatchTimeout => "Timed out waiting for the pod to end".to_string(),
        }
    }
}

/// What the cluster answered when it was asked to delete a pod.
#[derive(Clone, Debug, PartialEq, Eq)]
pub enum DeleteOutcome {
    /// The pod is being deleted.
    Deleted,
    /// The cluster answered with an error status.
    ApiError { code: u16, message: String },
    /// The request failed before the cluster answered.
    Failed { message: String },
}

/// What a `DeleteOutcome` holds, as the contracts speak of it.
pub enum DeleteOutcomeView {
    Deleted,
    ApiError { code: u16, message: Seq<char> },
    Failed { message: Seq<char> },
}

impl DeepView for DeleteOutcome {
    type V = DeleteOutcomeView;

    open spec fn deep_view(&self) -> DeleteOutcomeView {
        match self {
            DeleteOutcome::Deleted => DeleteOutcomeView::Deleted,
            DeleteOutcome::ApiError { code, message } => DeleteOutcomeView::ApiError {
                code: *code,
                message: message@,
            },
            DeleteOutcome::Failed { message } => DeleteOutcomeView::Failed { message: message@ },
        }
    }
}

/// Whether the pod is gone after this answer: it was deleted, or it did not
/// exist any more.
pub open spec fn pod_is_gone(outcome: DeleteOutcomeView) -> bool {
    match outcome {
        DeleteOutcomeView::Deleted => true,
        DeleteOutcomeView::ApiError { code, message } => code == 404,
        DeleteOutcomeView::Failed { message } => false,
    }
}

/// What a deletion comes to: nothing to report where the pod is gone, the
/// cluster's message otherwise.
pub open spec fn deletion_result(outcome: DeleteOutcomeView) -> Result<
    (),
    KubernetesClientErrorView,
> {
    match outcome {
        DeleteOutcomeView::Deleted => Ok(()),
        DeleteOutcomeView::ApiError { code, message } => if code == 404 {
            Ok(())
        } else {
            Err(KubernetesClientErrorView::KubeError(message))
        },
        DeleteOutcomeView::Failed { message } => Err(KubernetesClientErrorView::KubeError(message)),
    }
}

/// Whether the setting `value` switches the deletion of finished pods off:
/// `false`, `no` or `0`, in small or capital letters.
pub open spec fn disables_deletion(value: Seq<char>) -> bool {
    lowered(value) == "false"@ || lowered(value) == "no"@ || lowered(value) == "0"@
}

/// View of a deletion's result.
pub open spec fn unit_result_view(result: Result<(), KubernetesClientError>) -> Result<
    (),
    KubernetesClientErrorView,
> {
    match result {
        Ok(()) => Ok(()),
        Err(e) => Err(e.deep_view()),
    }
}

/// Phase of a pod as the cluster reports it.
#[derive(Clone, Copy, Debug, PartialEq, Eq, Structural)]
pub enum PodPhase {
    Pending,
    Running,
    Succeeded,
    Failed,
}

impl PodPhase {
    /// Whether a pod in this phase has ended.
    pub open spec fn terminal(self) -> bool {
        self == PodPhase::Succeeded || self == PodPhase::Failed
    }
}

/// The phase that the cluster calls `name`, if it is one of the four that a
/// watch goes by.
pub open spec fn phase_of_name(name: Seq<char>) -> Option<PodPhase> {
    if name == "Pending"@ {
        Some(PodPhase::Pending)
    } else if name == "Running"@ {
        Some(PodPhase::Running)
    } else if name == "Succeeded"@ {
        Some(PodPhase::Succeeded)
    } else if name == "Failed"@ {
        Some(PodPhase::Failed)
    } else {
        None
    }
}

impl PodPhase {
    /// Reads a phase as the cluster writes it. Any other text, such as
    /// `Unknown`, is no phase: the pod then counts as having no status yet.
    pub fn from_name(name: &str) -> (phase: Option<PodPhase>)
        ensures
            phase == phase_of_name(name@),
    {
        if crate::text::str_eq(name, "Pending") {
            Some(PodPhase::Pending)
        } else if crate::text::str_eq(name, "Running") {
            Some(PodPhase::Running)
        } else if crate::text::str_eq(name, "Succeeded") {
            Some(PodPhase::Succeeded)
        } else if crate::text::str_eq(name, "Failed") {
            Some(PodPhase::Failed)
        } else {
            None
        }
    }
}

/// Seconds between two looks at a pod that is awaited to run.
pub const READY_POLL_SECONDS: u64 = 1;

/// What to do next for a pod that is awaited to run.
#[derive(Clone, Copy, Debug, PartialEq, Eq, Structural)]
pub enum ReadyStep {
    /// The pod runs.
    Ready,
    /// The pod does not run yet: look again after `seconds`.
    Wait { seconds: u64 },
    /// The pod did not come to run in time.
    TimedOut,
}

/// The step for a pod in `phase` that has been awaited for `elapsed`
/// seconds and may be awaited for `timeout` seconds: ready once it runs,
/// timed out once it has been awaited for longer than it may, and waiting
/// another second otherwise.
pub open spec fn ready_step(phase: Option<PodPhase>, elapsed: u64, timeout: u64) -> ReadyStep {
    if phase == Some(PodPhase::Running) {
        ReadyStep::Ready
    } else if elapsed > timeout {
        ReadyStep::TimedOut
    } else {
        ReadyStep::Wait { seconds: READY_POLL_SECONDS }
    }
}

/// Says what to do next for a pod that is awaited to run.
pub fn wait_until_running(phase: Option<PodPhase>, elapsed: u64, timeout: u64) -> (step: ReadyStep)
    ensures
        step == ready_step(phase, elapsed, timeout),
{
    match phase {
        Some(PodPhase::Running) => ReadyStep::Ready,
        _ => if elapsed > timeout {
            ReadyStep::TimedOut
        } else {
            ReadyStep::Wait { seconds: READY_POLL_SECONDS }
        },
    }
}

/// The terminal state of a container.
#[derive(Debug, PartialEq, Eq)]
pub struct ContainerTerminated {
    pub exit_code: Option<i32>,
    pub started_at: Option<String>,
    pub finished_at: Option<String>,
}

/// What a `ContainerTerminated` holds, as the contracts speak of it.
pub struct ContainerTerminatedView {
    pub exit_code: Option<i32>,
    pub started_at: Option<Seq<char>>,
    pub finished_at: Option<Seq<char>>,
}

impl DeepView for ContainerTerminated {
    type V = ContainerTerminatedView;

    open spec fn deep_view(&self) -> ContainerTerminatedView {
        ContainerTerminatedView {
            exit_code: self.exit_code,
            started_at: self.started_at.deep_view(),
            finished_at: self.finished_at.deep_view(),
        }
    }
}

/// The state of a container, as far as a watch reads it.
#[derive(Debug, PartialEq, Eq)]
pub struct ContainerState {
    pub terminated: Option<ContainerTerminated>,
}

/// What a `ContainerState` holds, as the contracts speak of it.
pub struct ContainerStateView {
    pub terminated: Option<ContainerTerminatedView>,
}

impl DeepView for ContainerState {
    type V = ContainerStateView;

    open spec fn deep_view(&self) -> ContainerStateView {
        ContainerStateView { terminated: self.terminated.deep_view() }
    }
}

/// The status of a pod: its phase, if the cluster has published one, and the
/// state of its first container, if it has one.
#[derive(Debug, PartialEq, Eq)]
pub struct PodStatus {
    pub phase: Option<PodPhase>,
    pub container_state: Option<ContainerState>,
}

/// What a `PodStatus` holds, as the contracts speak of it.
pub struct PodStatusView {
    pub phase: Option<PodPhase>,
    pub container_state: Option<ContainerStateView>,
}

impl DeepView for PodStatus {
    type V = PodStatusView;

    open spec fn deep_view(&self) -> PodStatusView {
        PodStatusView { phase: self.phase, container_state: self.container_state.deep_view() }
    }
}

/// What the cluster answered to the submission of a pod.
#[derive(Debug, PartialEq, Eq)]
pub enum SubmitOutcome {
    /// The pod exists under this name.
    Created { name: String },
    /// The cluster refused the pod or could not be reached.
    Rejected { message: String },
}

/// What a `SubmitOutcome` holds, as the contracts speak of it.
pub enum SubmitOutcomeView {
    Created { name: Seq<char> },
    Rejected { message: Seq<char> },
}

impl DeepView for SubmitOutcome {
    type V = SubmitOutcomeView;

    open spec fn deep_view(&self) -> SubmitOutcomeView {
        match self {
            SubmitOutcome::Created { name } => SubmitOutcomeView::Created { name: name@ },
            SubmitOutcome::Rejected { message } => SubmitOutcomeView::Rejected {
                message: message@,
            },
        }
    }
}

/// What came out of the log stream of a pod.
#[derive(Debug, PartialEq, Eq)]
pub enum LogChunk {
    /// The next piece of output, and when it arrived: seconds and
    /// nanoseconds since the start of 1970, UTC.
    Line { bytes: Vec<u8>, seconds: i64, nanos: u32 },
    /// Reading failed.
    Broken,
    /// The stream is exhausted.
    End,
}

/// What a `LogChunk` holds, as the contracts speak of it.
pub enum LogChunkView {
    Line { bytes: Seq<u8>, seconds: i64, nanos: u32 },
    Broken,
    End,
}

impl DeepView for LogChunk {
    type V = LogChunkView;

    open spec fn deep_view(&self) -> LogChunkView {
        match self {
            LogChunk::Line { bytes, seconds, nanos } => LogChunkView::Line {
                bytes: bytes@,
                seconds: *seconds,
                nanos: *nanos,
            },
            LogChunk::Broken => LogChunkView::Broken,
            LogChunk::End => LogChunkView::End,
        }
    }
}

/// What to do next for a job that is being watched.
#[derive(Debug, PartialEq, Eq)]
pub enum WatchStep {
    /// The job has not ended: look at its status again after `seconds`.
    Wait { seconds: u64 },
    /// Delete the pod `pod_name`, then hand the answer to `finish_delete`.
    Delete { pod_name: String },
    /// The watch is over.
    Finished(Result<CompletionResult, KubernetesClientError>),
}

/// What a `WatchStep` holds, as the contracts speak of it.
pub enum WatchStepView {
    Wait { seconds: u64 },
    Delete { pod_name: Seq<char> },
    Finished(Result<CompletionResultView, KubernetesClientErrorView>),
}

impl DeepView for WatchStep {
    type V = WatchStepView;

    open spec fn deep_view(&self) -> WatchStepView {
        match self {
            WatchStep::Wait { seconds } => WatchStepView::Wait { seconds: *seconds },
            WatchStep::Delete { pod_name } => WatchStepView::Delete { pod_name: pod_name@ },
            WatchStep::Finished(result) => WatchStepView::Finished(
                match result {
                    Ok(r) => Ok(r.deep_view()),
                    Err(e) => Err(e.deep_view()),
                },
            ),
        }
    }
}

/// What a client holds.
pub struct KubernetesClientView {
    pub namespace: Seq<char>,
    /// Name of the pod that was submitted, if one was.
    pub pod: Option<Seq<char>>,
    pub status: JobStatus,
    pub completion_result: Option<CompletionResultView>,
    /// The output that has arrived, oldest first.
    pub tool_log: Seq<LogEntryView>,
    /// Whether the log stream is still read.
    pub following: bool,
    /// Seconds that the watch has waited so far.
    pub waited: nat,
    /// Seconds that the watch may wait in all.
    pub timeout: nat,
}

/// The result assembled from the terminal state of a container, with the
/// output that has arrived so far. There is none where the container has no
/// terminal state. A container that reports no exit code counts as -1.
pub open spec fn completion_of(
    state: Option<ContainerStateView>,
    log: Seq<LogEntryView>,
) -> Option<CompletionResultView> {
    match state {
        Some(ContainerStateView { terminated: Some(t) }) => Some(
            CompletionResultView {
                exit_code: match t.exit_code {
                    Some(code) => code,
                    None => -1i32,
                },
                cpu: None,
                memory: None,
                start_time: t.started_at,
                finish_time: t.finished_at,
                log,
            },
        ),
        _ => None,
    }
}

/// The phase that an observation shows, if it shows one.
pub open spec fn observed_phase(observed: Option<PodStatusView>) -> Option<PodPhase> {
    match observed {
        Some(status) => status.phase,
        None => None,
    }
}

/// The container state that an observation shows, if it shows one.
pub open spec fn observed_state(observed: Option<PodStatusView>) -> Option<ContainerStateView> {
    match observed {
        Some(status) => status.container_state,
        None => None,
    }
}

/// Whether an observation ends the watch of `c`: a pod is being watched, it
/// has not ended or been stopped before, and the observation shows a
/// terminal phase.
pub open spec fn ends_watch(c: KubernetesClientView, observed: Option<PodStatusView>) -> bool {
    &&& c.pod is Some
    &&& (c.status == JobStatus::Queued || c.status == JobStatus::Running)
    &&& observed_phase(observed) matches Some(phase)
    &&& phase.terminal()
}

/// Whether the watch of `c` has no time left for another wait.
pub open spec fn out_of_time(c: KubernetesClientView) -> bool {
    c.waited + POLL_INTERVAL_SECONDS > c.timeout
}

/// What a finished watch hands back: the result if one was assembled.
pub open spec fn watch_result(c: KubernetesClientView) -> Result<
    CompletionResultView,
    KubernetesClientErrorView,
> {
    match c.pod {
        None => Err(KubernetesClientErrorView::PodNotSet),
        Some(_) => match c.completion_result {
            Some(r) => Ok(r),
            None => Err(KubernetesClientErrorView::IncompleteStatus),
        },
    }
}

/// The client after it has been shown an observation of its pod.
pub open spec fn after_observation(
    c: KubernetesClientView,
    observed: Option<PodStatusView>,
) -> KubernetesClientView {
    if c.pod is None || c.status.terminal() || c.status == JobStatus::Stopping {
        c
    } else if ends_watch(c, observed) {
        KubernetesClientView {
            status: if observed_phase(observed) == Some(PodPhase::Succeeded) {
                JobStatus::Done
            } else {
                JobStatus::Failed
            },
            completion_result: completion_of(observed_state(observed), c.tool_log),
            ..c
        }
    } else {
        KubernetesClientView {
            status: if observed_phase(observed) == Some(PodPhase::Running) {
                JobStatus::Running
            } else {
                c.status
            },
            waited: if out_of_time(c) {
                c.waited
            } else {
                (c.waited + POLL_INTERVAL_SECONDS) as nat
            },
            ..c
        }
    }
}

/// What the client asks for after it has been shown an observation.
pub open spec fn watch_step(
    c: KubernetesClientView,
    observed: Option<PodStatusView>,
    delete_pods: bool,
) -> WatchStepView {
    if c.pod is None || c.status.terminal() {
        WatchStepView::Finished(watch_result(c))
    } else if c.status == JobStatus::Stopping {
        WatchStepView::Delete { pod_name: c.pod->0 }
    } else if ends_watch(c, observed) {
        if delete_pods {
            WatchStepView::Delete { pod_name: c.pod->0 }
        } else {
            WatchStepView::Finished(watch_result(after_observation(c, observed)))
        }
    } else if out_of_time(c) {
        WatchStepView::Finished(Err(KubernetesClientErrorView::WatchTimeout))
    } else {
        WatchStepView::Wait { seconds: POLL_INTERVAL_SECONDS }
    }
}

/// The text that `String::from_utf8_lossy` makes of `bytes`.
pub uninterp spec fn lossy_text(bytes: Seq<u8>) -> Seq<char>;

/// The RFC 3339 text that chrono writes for the UTC time `seconds` and
/// `nanos` after the start of 1970, if chrono can hold that time.
pub uninterp spec fn rfc3339(seconds: int, nanos: int) -> Option<Seq<char>>;

/// The time of arrival as a log entry holds it: RFC 3339, or nothing where
/// the time is out of range.
pub open spec fn arrival_text(seconds: int, nanos: int) -> Seq<char> {
    match rfc3339(seconds, nanos) {
        Some(text) => text,
        None => Seq::empty(),
    }
}

/// The text that a piece of output holds: bytes that are UTF-8 read as
/// UTF-8, and other bytes as `String::from_utf8_lossy` makes text of them.
pub open spec fn decoded_text(bytes: Seq<u8>) -> Seq<char> {
    if vstd::utf8::valid_utf8(bytes) {
        vstd::utf8::decode_utf8(bytes)
    } else {
        lossy_text(bytes)
    }
}

/// The line that a piece of output stands for: its text, without the
/// whitespace that it begins and ends with.
pub open spec fn line_text(bytes: Seq<u8>) -> Seq<char> {
    trimmed_text(decoded_text(bytes))
}

/// Calls `String::from_utf8_lossy`. The contract names the text that comes
/// back and claims of it what the documentation of std says: valid UTF-8 is
/// decoded as it stands.
#[verifier::external_body]
fn decode_lossy(bytes: &[u8]) -> (text: String)
    ensures
        text@ == lossy_text(bytes@),
        vstd::utf8::valid_utf8(bytes@) ==> text@ == vstd::utf8::decode_utf8(bytes@),
{
    String::from_utf8_lossy(bytes).into_owned()
}

/// Calls `str::trim`, which takes away the whitespace that a text begins
/// and ends with, whitespace being the characters with Unicode's property
/// White_Space. The contract states that of the text that comes back.
#[verifier::external_body]
fn trim_text(text: &str) -> (trimmed: String)
    ensures
        trimmed@ == trimmed_text(text@),
{
    text.trim().to_string()
}

/// Calls chrono's `DateTime::to_rfc3339` on the UTC time that
/// `DateTime::from_timestamp` makes of the arguments. The contract names the
/// text that comes back; there is none where `from_timestamp` has none.
#[verifier::external_body]
fn timestamp_text(seconds: i64, nanos: u32) -> (text: Option<String>)
    ensures
        text.deep_view() == rfc3339(seconds as int, nanos as int),
{
    let time = chrono::DateTime::from_timestamp(seconds, nanos)?;
    Some(time.to_rfc3339())
}

/// What to do next for the log of a job, while the pod that writes it is
/// looked for.
#[derive(Debug, PartialEq, Eq)]
pub enum FollowStep {
    /// The pod is there: read its log.
    Read { pod_name: String },
    /// The cluster has made no pod yet: look again after `seconds`.
    Wait { seconds: u64 },
    /// There is no log to wait for.
    GiveUp,
}

/// What a `FollowStep` holds, as the contracts speak of it.
pub enum FollowStepView {
    Read { pod_name: Seq<char> },
    Wait { seconds: u64 },
    GiveUp,
}

impl DeepView for FollowStep {
    type V = FollowStepView;

    open spec fn deep_view(&self) -> FollowStepView {
        match self {
            FollowStep::Read { pod_name } => FollowStepView::Read { pod_name: pod_name@ },
            FollowStep::Wait { seconds } => FollowStepView::Wait { seconds: *seconds },
            FollowStep::GiveUp => FollowStepView::GiveUp,
        }
    }
}

/// The step for the log of the job of `c`, given the pod that was found for
/// it, if one was, and the seconds for which it has been looked for. A pod
/// that is there is read. Without one the log is waited for, but not
/// without a job, not once the job has ended or the log is no longer read,
/// and not for longer than the watch of the job may wait.
pub open spec fn follow_step(c: KubernetesClientView, found: Option<Seq<char>>, elapsed: u64)
    -> FollowStepView {
    if c.pod is None || !c.following {
        FollowStepView::GiveUp
    } else {
        match found {
            Some(pod_name) => FollowStepView::Read { pod_name },
            None => if c.status.terminal() || elapsed > c.timeout {
                FollowStepView::GiveUp
            } else {
                FollowStepView::Wait { seconds: READY_POLL_SECONDS }
            },
        }
    }
}

/// The client after a line of output has been recorded. Nothing is recorded
/// without a pod, or once the log stream is no longer read.
pub open spec fn after_line(c: KubernetesClientView, timestamp: Seq<char>, entry: Seq<char>)
    -> KubernetesClientView {
    if c.pod is None || !c.following {
        c
    } else {
        KubernetesClientView {
            tool_log: c.tool_log.push(LogEntryView { timestamp, pod_name: c.pod->0, entry }),
            ..c
        }
    }
}

/// The client after it has been handed what came out of the log stream.
pub open spec fn after_chunk(c: KubernetesClientView, chunk: LogChunkView) -> KubernetesClientView {
    match chunk {
        LogChunkView::Line { bytes, seconds, nanos } => after_line(
            c,
            arrival_text(seconds as int, nanos as int),
            line_text(bytes),
        ),
        _ => if c.pod is None {
            c
        } else {
            KubernetesClientView { following: false, ..c }
        },
    }
}

/// The client after the cluster has answered a submission: it follows the
/// new pod from the start.
pub open spec fn after_submission(c: KubernetesClientView, outcome: SubmitOutcomeView)
    -> KubernetesClientView {
    match outcome {
        SubmitOutcomeView::Created { name } => KubernetesClientView {
            pod: Some(name),
            status: JobStatus::Queued,
            completion_result: None,
            tool_log: Seq::empty(),
            following: true,
            waited: 0,
            ..c
        },
        SubmitOutcomeView::Rejected { message } => c,
    }
}

/// The client after a request to stop its job.
pub open spec fn after_cancel(c: KubernetesClientView) -> KubernetesClientView {
    if c.pod is None || c.status.terminal() {
        c
    } else {
        KubernetesClientView { status: JobStatus::Stopping, ..c }
    }
}

/// Whether the answer to a deletion ends the stopping of `c`.
pub open spec fn stops(c: KubernetesClientView, outcome: DeleteOutcomeView) -> bool {
    c.pod is Some && c.status == JobStatus::Stopping && pod_is_gone(outcome)
}

/// The client after the cluster has answered a deletion.
pub open spec fn after_deletion(c: KubernetesClientView, outcome: DeleteOutcomeView)
    -> KubernetesClientView {
    if stops(c, outcome) {
        KubernetesClientView { status: JobStatus::Stopped, ..c }
    } else {
        c
    }
}

/// View of a watch's result.
pub open spec fn result_view(result: Result<CompletionResult, KubernetesClientError>) -> Result<
    CompletionResultView,
    KubernetesClientErrorView,
> {
    match result {
        Ok(r) => Ok(r.deep_view()),
        Err(e) => Err(e.deep_view()),
    }
}

/// The client of one job.
#[derive(Debug)]
pub struct KubernetesClient {
    namespace: String,
    pod: Option<String>,
    status: JobStatus,
    completion_result: Option<CompletionResult>,
    tool_log: Vec<LogEntry>,
    following: bool,
    waited: u64,
    timeout: u64,
}

impl DeepView for KubernetesClient {
    type V = KubernetesClientView;

    closed spec fn deep_view(&self) -> KubernetesClientView {
        KubernetesClientView {
            namespace: self.namespace@,
            pod: self.pod.deep_view(),
            status: self.status,
            completion_result: self.completion_result.deep_view(),
            tool_log: self.tool_log.deep_view(),
            following: self.following,
            waited: self.waited as nat,
            timeout: self.timeout as nat,
        }
    }
}

impl KubernetesClient {
    /// A client for a job in `namespace`, whose watch gives up after
    /// `timeout` seconds of waiting. No pod is submitted yet.
    pub fn new(namespace: String, timeout: u64) -> (client: Self)
        ensures
            client.deep_view() == (KubernetesClientView {
                namespace: namespace@,
                pod: None,
                status: JobStatus::Queued,
                completion_result: None,
                tool_log: Seq::empty(),
                following: true,
                waited: 0,
                timeout: timeout as nat,
            }),
    {
        let client = KubernetesClient {
            namespace,
            pod: None,
            status: JobStatus::Queued,
            completion_result: None,
            tool_log: Vec::new(),
            following: true,
            waited: 0,
            timeout,
        };
        assert(client.tool_log.deep_view() =~= Seq::<LogEntryView>::empty());
        client
    }

    /// Where the job stands.
    pub fn status(&self) -> (status: JobStatus)
        ensures
            status == self.deep_view().status,
    {
        self.status
    }

    /// Name of the pod that was submitted, if one was.
    pub fn pod_name(&self) -> (name: Option<String>)
        ensures
            name.deep_view() == self.deep_view().pod,
    {
        crate::manifest::clone_text_option(&self.pod)
    }

    /// The output that has arrived, oldest first.
    pub fn tool_log(&self) -> (log: Vec<LogEntry>)
        ensures
            log.deep_view() == self.deep_view().tool_log,
    {
        clone_log(&self.tool_log)
    }

    /// What the watch of this job has come to: the result, if the job ended
    /// and the cluster reported the terminal state of its container.
    pub fn result(&self) -> (result: Result<CompletionResult, KubernetesClientError>)
        ensures
            result_view(result) == watch_result(self.deep_view()),
    {
        match &self.pod {
            None => Err(KubernetesClientError::PodNotSet),
            Some(_) => match &self.completion_result {
                Some(r) => Ok(r.clone()),
                None => Err(KubernetesClientError::IncompleteStatus),
            },
        }
    }

    /// Takes note of the cluster's answer to the submission of a pod. A pod
    /// that was created is registered with `monitor` and followed from now
    /// on; a refusal is handed back and changes nothing.
    pub fn submit_pod(&mut self, monitor: &mut JobMonitor, outcome: SubmitOutcome) -> (result:
        Result<(), KubernetesClientError>)
        ensures
            final(self).deep_view() == after_submission(old(self).deep_view(), outcome.deep_view()),
            unit_result_view(result) == match outcome.deep_view() {
                SubmitOutcomeView::Created { name } => Ok(()),
                SubmitOutcomeView::Rejected { message } => Err(
                    KubernetesClientErrorView::KubeError(message),
                ),
            },
            final(monitor).deep_view() == match outcome.deep_view() {
                SubmitOutcomeView::Created { name } => if old(monitor).deep_view().contains(name) {
                    old(monitor).deep_view()
                } else {
                    old(monitor).deep_view().push(name)
                },
                SubmitOutcomeView::Rejected { message } => old(monitor).deep_view(),
            },
    {
        match outcome {
            SubmitOutcome::Created { name } => {
                let _ = monitor.add(name.clone());
                self.pod = Some(name);
                self.status = JobStatus::Queued;
                self.completion_result = None;
                self.tool_log = Vec::new();
                self.following = true;
                self.waited = 0;
                assert(self.tool_log.deep_view() =~= Seq::<LogEntryView>::empty());
                Ok(())
            },
            SubmitOutcome::Rejected { message } => Err(KubernetesClientError::KubeError(message)),
        }
    }

    /// Says what to do next for the log of the job, given the pod that was
    /// found for it, if one was, and the seconds for which it has been
    /// looked for.
    pub fn await_pod(&self, found: Option<String>, elapsed: u64) -> (step: FollowStep)
        ensures
            step.deep_view() == follow_step(self.deep_view(), found.deep_view(), elapsed),
    {
        if self.pod.is_none() || !self.following {
            return FollowStep::GiveUp;
        }
        match found {
            Some(pod_name) => FollowStep::Read { pod_name },
            None => if self.status.is_terminal() || elapsed > self.timeout {
                FollowStep::GiveUp
            } else {
                FollowStep::Wait { seconds: READY_POLL_SECONDS }
            },
        }
    }

    /// Appends a line of output that arrived at `timestamp`. The result says
    /// whether the line was recorded.
    pub fn record_line(&mut self, timestamp: String, entry: String) -> (recorded: bool)
        ensures
            final(self).deep_view() == after_line(old(self).deep_view(), timestamp@, entry@),
            recorded == (old(self).deep_view().pod is Some && old(self).deep_view().following),
    {
        if !self.following {
            return false;
        }
        match &self.pod {
            None => false,
            Some(name) => {
                let ghost before = self.tool_log.deep_view();
                let line = LogEntry { timestamp, pod_name: name.clone(), entry };
                self.tool_log.push(line);
                assert(self.tool_log.deep_view() =~= before.push(line.deep_view()));
                true
            },
        }
    }

    /// Takes what came out of the log stream of the pod. A piece of output
    /// is decoded, trimmed and recorded with its time of arrival. A failed
    /// read or the end of the stream ends the following and touches nothing
    /// else: the watch of the job goes on. The result says whether to read on.
    pub fn follow_logs(&mut self, chunk: LogChunk) -> (result: Result<bool, KubernetesClientError>)
        ensures
            final(self).deep_view() == after_chunk(old(self).deep_view(), chunk.deep_view()),
            match result {
                Ok(read_on) => old(self).deep_view().pod is Some && read_on == (old(
                    self,
                ).deep_view().following && chunk.deep_view() is Line),
                Err(e) => old(self).deep_view().pod is None && e.deep_view()
                    == KubernetesClientErrorView::PodNotSet,
            },
    {
        if self.pod.is_none() {
            return Err(KubernetesClientError::PodNotSet);
        }
        match chunk {
            LogChunk::Line { bytes, seconds, nanos } => {
                let text = decode_lossy(bytes.as_slice());
                let entry = trim_text(text.as_str());
                let timestamp = match timestamp_text(seconds, nanos) {
                    Some(t) => t,
                    None => String::new(),
                };
                Ok(self.record_line(timestamp, entry))
            },
            _ => {
                self.following = false;
                Ok(false)
            },
        }
    }

    /// Assembles the result of the job from the terminal state of its
    /// container and the output that has arrived so far.
    fn handle_completion(&mut self, state: Option<ContainerState>)
        ensures
            final(self).deep_view() == (KubernetesClientView {
                completion_result: completion_of(state.deep_view(), old(self).deep_view().tool_log),
                ..old(self).deep_view()
            }),
    {
        self.completion_result = match state {
            Some(ContainerState { terminated: Some(terminated) }) => Some(
                CompletionResult {
                    exit_code: match terminated.exit_code {
                        Some(code) => code,
                        None => -1,
                    },
                    cpu: None,
                    memory: None,
                    start_time: terminated.started_at,
                    finish_time: terminated.finished_at,
                    log: clone_log(&self.tool_log),
                },
            ),
            _ => None,
        };
    }

    /// Takes one observation of the pod and says what the watch does next.
    ///
    /// `observed` is the status that the cluster reported, if it reported
    /// one. A terminal phase ends the watch: the result is assembled, the
    /// job leaves `monitor` whether or not its pod is deleted, and the pod is
    /// deleted where `delete_pods` says so. Anything else is waited out, for
    /// as long as the time of the watch allows.
    pub fn wait_for_completion(
        &mut self,
        monitor: &mut JobMonitor,
        observed: Option<PodStatus>,
        delete_pods: bool,
    ) -> (step: WatchStep)
        ensures
            final(self).deep_view() == after_observation(
                old(self).deep_view(),
                observed.deep_view(),
            ),
            step.deep_view() == watch_step(
                old(self).deep_view(),
                observed.deep_view(),
                delete_pods,
            ),
            final(monitor).deep_view() == if ends_watch(
                old(self).deep_view(),
                observed.deep_view(),
            ) {
                without(old(monitor).deep_view(), old(self).deep_view().pod->0)
            } else {
                old(monitor).deep_view()
            },
    {
        let pod_name = match &self.pod {
            Some(name) => name.clone(),
            None => {
                return WatchStep::Finished(Err(KubernetesClientError::PodNotSet));
            },
        };
        if self.status.is_terminal() {
            return WatchStep::Finished(self.result());
        }
        if self.status == JobStatus::Stopping {
            return WatchStep::Delete { pod_name };
        }
        let (phase, state) = match observed {
            Some(status) => (status.phase, status.container_state),
            None => (None, None),
        };
        match phase {
            Some(PodPhase::Succeeded) | Some(PodPhase::Failed) => {
                self.handle_completion(state);
                self.status = if phase == Some(PodPhase::Succeeded) {
                    JobStatus::Done
                } else {
                    JobStatus::Failed
                };
                let _ = monitor.remove(pod_name.as_str());
                if delete_pods {
                    WatchStep::Delete { pod_name }
                } else {
                    WatchStep::Finished(self.result())
                }
            },
            _ => {
                if phase == Some(PodPhase::Running) {
                    self.status = JobStatus::Running;
                }
                if self.waited > self.timeout || self.timeout - self.waited
                    < POLL_INTERVAL_SECONDS {
                    WatchStep::Finished(Err(KubernetesClientError::WatchTimeout))
                } else {
                    self.waited = self.waited + POLL_INTERVAL_SECONDS;
                    WatchStep::Wait { seconds: POLL_INTERVAL_SECONDS }
                }
            },
        }
    }

    /// Asks for the job to be stopped. Unless the job has ended already, it
    /// is `Stopping` from now on, whatever phase was last seen, and its pod
    /// is to be deleted.
    pub fn cancel(&mut self) -> (step: WatchStep)
        ensures
            final(self).deep_view() == after_cancel(old(self).deep_view()),
            step.deep_view() == if old(self).deep_view().pod is None || old(
                self,
            ).deep_view().status.terminal() {
                WatchStepView::Finished(watch_result(old(self).deep_view()))
            } else {
                WatchStepView::Delete { pod_name: old(self).deep_view().pod->0 }
            },
    {
        let pod_name = match &self.pod {
            Some(name) => name.clone(),
            None => {
                return WatchStep::Finished(Err(KubernetesClientError::PodNotSet));
            },
        };
        if self.status.is_terminal() {
            return WatchStep::Finished(self.result());
        }
        self.status = JobStatus::Stopping;
        WatchStep::Delete { pod_name }
    }

    /// Takes the cluster's answer to the deletion of the pod. A job that
    /// was being stopped is `Stopped` once its pod is gone, and leaves
    /// `monitor`; while the deletion fails it stays `Stopping` and
    /// registered. The result is that of the deletion.
    pub fn finish_delete(&mut self, monitor: &mut JobMonitor, outcome: DeleteOutcome) -> (result:
        Result<(), KubernetesClientError>)
        ensures
            final(self).deep_view() == after_deletion(old(self).deep_view(), outcome.deep_view()),
            unit_result_view(result) == deletion_result(outcome.deep_view()),
            final(monitor).deep_view() == if stops(old(self).deep_view(), outcome.deep_view()) {
                without(old(monitor).deep_view(), old(self).deep_view().pod->0)
            } else {
                old(monitor).deep_view()
            },
    {
        let result = Self::delete_pod_name(outcome);
        if result.is_ok() && self.status == JobStatus::Stopping {
            match &self.pod {
                Some(name) => {
                    let _ = monitor.remove(name.as_str());
                    self.status = JobStatus::Stopped;
                },
                None => {},
            }
        }
        result
    }

    /// Whether finished pods are deleted from the cluster, given the value of
    /// the setting that governs it. Deletion is on unless the setting reads
    /// `false`, `no` or `0`; a setting that is not there leaves it on.
    pub fn should_delete_pod(setting: Option<&str>) -> (delete: bool)
        ensures
            delete == match setting {
                Some(value) => !disables_deletion(value@),
                None => true,
            },
    {
        match setting {
            Some(value) => {
                proof {
                    reveal_strlit("false");
                    reveal_strlit("no");
                    reveal_strlit("0");
                    assert(lowered("false"@) =~= "false"@);
                    assert(lowered("no"@) =~= "no"@);
                    assert(lowered("0"@) =~= "0"@);
                }
                !(reads_as(value, "false") || reads_as(value, "no") || reads_as(value, "0"))
            },
            None => true,
        }
    }

    /// What the answer to a deletion means. A pod that does not exist any
    /// more counts as deleted: deleting twice is no error.
    pub fn delete_pod_name(outcome: DeleteOutcome) -> (result: Result<(), KubernetesClientError>)
        ensures
            unit_result_view(result) == deletion_result(outcome.deep_view()),
            result is Ok == pod_is_gone(outcome.deep_view()),
    {
        match outcome {
            DeleteOutcome::Deleted => Ok(()),
            DeleteOutcome::ApiError { code, message } => {
                if code == NOT_FOUND {
                    Ok(())
                } else {
                    Err(KubernetesClientError::KubeError(message))
                }
            },
            DeleteOutcome::Failed { message } => Err(KubernetesClientError::KubeError(message)),
        }
    }
}

/// The step that ends the watch of `c` when it is shown `observations` one
/// after the other, if one of them ends it.
pub open spec fn watch_outcome(
    c: KubernetesClientView,
    observations: Seq<Option<PodStatusView>>,
    delete_pods: bool,
) -> Option<WatchStepView>
    decreases observations.len(),
{
    if observations.len() == 0 {
        None
    } else {
        let step = watch_step(c, observations[0], delete_pods);
        if step is Wait {
            watch_outcome(
                after_observation(c, observations[0]),
                observations.drop_first(),
                delete_pods,
            )
        } else {
            Some(step)
        }
    }
}

/// A watch does not wait forever. Shown observations without a terminal
/// phase, more of them than its time allows waits, the watch of a live job
/// ends in `WatchTimeout`.
pub proof fn lemma_watch_times_out(
    c: KubernetesClientView,
    observations: Seq<Option<PodStatusView>>,
    delete_pods: bool,
)
    requires
        c.pod is Some,
        c.status == JobStatus::Queued || c.status == JobStatus::Running,
        observations.len() > 0,
        forall|i: int|
            0 <= i < observations.len() ==> !(observed_phase(#[trigger] observations[i]) matches Some(
                phase,
            ) && phase.terminal()),
        c.waited + POLL_INTERVAL_SECONDS * observations.len() > c.timeout,
    ensures
        watch_outcome(c, observations, delete_pods) == Some(
            WatchStepView::Finished(Err(KubernetesClientErrorView::WatchTimeout)),
        ),
    decreases observations.len(),
{
    assert(!ends_watch(c, observations[0]));
    if !out_of_time(c) {
        let next = after_observation(c, observations[0]);
        let rest = observations.drop_first();
        assert(observations.len() > 1) by (nonlinear_arith)
            requires
                observations.len() > 0,
                c.waited + POLL_INTERVAL_SECONDS * observations.len() > c.timeout,
                c.waited + POLL_INTERVAL_SECONDS <= c.timeout,
        ;
        assert(next.waited + POLL_INTERVAL_SECONDS * rest.len() > next.timeout)
            by (nonlinear_arith)
            requires
                rest.len() == observations.len() - 1,
                next.waited == c.waited + POLL_INTERVAL_SECONDS,
                next.timeout == c.timeout,
                c.waited + POLL_INTERVAL_SECONDS * observations.len() > c.timeout,
        ;
        assert forall|i: int| 0 <= i < rest.len() implies !(observed_phase(
            #[trigger] rest[i],
        ) matches Some(phase) && phase.terminal()) by {
            assert(rest[i] == observations[i + 1]);
        }
        lemma_watch_times_out(next, rest, delete_pods);
    }
}

/// Once a job is `Done`, `Failed` or `Stopped`, nothing moves it: no
/// observation, no request to stop it, no answer to a deletion.
pub proof fn lemma_terminal_status_stays(
    c: KubernetesClientView,
    observed: Option<PodStatusView>,
    outcome: DeleteOutcomeView,
)
    requires
        c.status.terminal(),
    ensures
        after_observation(c, observed) == c,
        after_cancel(c) == c,
        after_deletion(c, outcome) == c,
{
}

/// The result of a job is assembled in one step only, the one in which a
/// terminal phase ends the watch; every other observation leaves it as it is.
/// That step takes the job to `Done` on `Succeeded` and to `Failed` on
/// `Failed`, and uses the output that has arrived until then.
pub proof fn lemma_result_assembled_once(c: KubernetesClientView, observed: Option<PodStatusView>)
    ensures
        !ends_watch(c, observed) ==> after_observation(c, observed).completion_result
            == c.completion_result,
        ends_watch(c, observed) ==> after_observation(c, observed).status.terminal()
            && after_observation(c, observed).completion_result == completion_of(
            observed_state(observed),
            c.tool_log,
        ),
        ends_watch(c, observed) ==> (after_observation(c, observed).status == JobStatus::Done
            <==> observed_phase(observed) == Some(PodPhase::Succeeded)),
{
}

/// Following the log touches the log and nothing else: whatever comes out
/// of the stream, the status of the job, its result and the time it has
/// waited stay as they are, and what was recorded before stays in front.
pub proof fn lemma_following_leaves_the_watch_alone(c: KubernetesClientView, chunk: LogChunkView)
    ensures
        after_chunk(c, chunk).pod == c.pod,
        after_chunk(c, chunk).status == c.status,
        after_chunk(c, chunk).completion_result == c.completion_result,
        after_chunk(c, chunk).waited == c.waited,
        after_chunk(c, chunk).timeout == c.timeout,
        c.tool_log.is_prefix_of(after_chunk(c, chunk).tool_log),
        after_chunk(c, chunk).tool_log.len() <= c.tool_log.len() + 1,
        !c.following ==> after_chunk(c, chunk) == c,
{
    let next = after_chunk(c, chunk);
    if next.tool_log != c.tool_log {
        assert(next.tool_log.subrange(0, c.tool_log.len() as int) =~= c.tool_log);
    } else {
        assert(next.tool_log.subrange(0, c.tool_log.len() as int) =~= c.tool_log);
    }
}

/// Deleting is idempotent: the answer that a pod does not exist is a
/// success, whatever the cluster says with it.
pub proof fn lemma_missing_pod_counts_as_deleted(message: Seq<char>)
    ensures
        deletion_result(DeleteOutcomeView::ApiError { code: NOT_FOUND, message }) == Ok::<
            (),
            KubernetesClientErrorView,
        >(()),
        pod_is_gone(DeleteOutcomeView::ApiError { code: NOT_FOUND, message }),
{
}

} // verus!
