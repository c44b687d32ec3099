//! Builds the job that runs one workflow step: a pure function from what
//! the step asks for to the manifest that is submitted.
//!
//! Fixed by the builder: two host directories mounted as `inputs` and
//! `outputs`, restart policy `Never`, no retries (a retry is a new job), the
//! time limit as the job's deadline, and a retention time after the job has
//! finished of at least [`TTL_SECONDS`].

use vstd::prelude::*;
use crate::manifest::{
    Container, ContainerView, JobManifest, JobManifestView, PodTemplate, PodTemplateView,
    ResourceRequirements, ResourceRequirementsView, Volume, VolumeMount, VolumeMountView,
    VolumeView,
};
use crate::priority::{priority_class_name, JobPriority};
use crate::resources::{
    lemma_quantities_map, quantities, quantity_map, JobResources, JobResourcesView,
};

verus! {

/// Least time in seconds for which a finished job is kept before the cluster
/// removes it: five minutes, so that a failed job can still be looked at and
/// is removed in the end even where nothing else deletes it.
pub const TTL_SECONDS: usize = 300;

/// Retention time of a finished job with the given time limit: the time
/// limit, but no less than [`TTL_SECONDS`].
pub open spec fn retention_seconds(time_limit: nat) -> nat {
    if time_limit > 300 {
        time_limit
    } else {
        300
    }
}

/// The mount of the volume `name` at `dir`.
pub open spec fn volume_mount(dir: Seq<char>, name: Seq<char>) -> VolumeMountView {
    VolumeMountView { name, mount_path: dir }
}

/// The volume `name`, backed by the host directory `dir`.
pub open spec fn host_volume(name: Seq<char>, dir: Seq<char>) -> VolumeView {
    VolumeView { name, host_path: dir, host_path_type: Some("Directory"@) }
}

/// Requests and limits of a container. Without a maximum there are no
/// limits at all.
pub open spec fn resource_requirements(
    requests: JobResourcesView,
    limits: Option<JobResourcesView>,
) -> ResourceRequirementsView {
    ResourceRequirementsView {
        limits: match limits {
            Some(max) => Some(quantities(max)),
            None => None,
        },
        requests: quantities(requests),
    }
}

/// The container of a job.
pub open spec fn job_container(
    name: Seq<char>,
    image: Seq<char>,
    args: Seq<Seq<char>>,
    requests: JobResourcesView,
    limits: Option<JobResourcesView>,
    inputs_dir: Seq<char>,
    outputs_dir: Seq<char>,
) -> ContainerView {
    ContainerView {
        name,
        image,
        image_pull_policy: "Never"@,
        args,
        ports: Seq::empty(),
        resources: resource_requirements(requests, limits),
        volume_mounts: seq![
            volume_mount(inputs_dir, "inputs"@),
            volume_mount(outputs_dir, "outputs"@),
        ],
    }
}

/// What a builder holds.
pub struct JobBuilderView {
    pub job_name: Seq<char>,
    pub container: ContainerView,
    pub priority: JobPriority,
    pub time_limit: nat,
    pub inputs_dir: Seq<char>,
    pub outputs_dir: Seq<char>,
    pub ttl_seconds: nat,
}

/// The pod of the job that `b` builds.
pub open spec fn job_template(b: JobBuilderView) -> PodTemplateView {
    PodTemplateView {
        containers: seq![b.container],
        volumes: seq![host_volume("inputs"@, b.inputs_dir), host_volume("outputs"@, b.outputs_dir)],
        priority_class_name: Some(priority_class_name(b.priority)),
        restart_policy: Some("Never"@),
    }
}

/// `seconds` as the cluster's 64-bit field holds it.
pub open spec fn deadline_field(seconds: nat) -> int {
    if seconds > i64::MAX {
        i64::MAX as int
    } else {
        seconds as int
    }
}

/// `seconds` as the cluster's 32-bit field holds it.
pub open spec fn retention_field(seconds: nat) -> int {
    if seconds > i32::MAX {
        i32::MAX as int
    } else {
        seconds as int
    }
}

/// The job that `b` builds.
pub open spec fn job_manifest(b: JobBuilderView) -> JobManifestView {
    JobManifestView {
        name: b.job_name,
        template: job_template(b),
        active_deadline_seconds: deadline_field(b.time_limit),
        backoff_limit: 0,
        ttl_seconds_after_finished: retention_field(b.ttl_seconds),
    }
}

/// Builder of one job.
#[derive(Debug)]
pub struct JobBuilder {
    job_name: String,
    container: Container,
    priority: JobPriority,
    time_limit: usize,
    inputs_dir: String,
    outputs_dir: String,
    ttl_seconds: usize,
}

impl DeepView for JobBuilder {
    type V = JobBuilderView;

    closed spec fn deep_view(&self) -> JobBuilderView {
        JobBuilderView {
            job_name: self.job_name@,
            container: self.container.deep_view(),
            priority: self.priority,
            time_limit: self.time_limit as nat,
            inputs_dir: self.inputs_dir@,
            outputs_dir: self.outputs_dir@,
            ttl_seconds: self.ttl_seconds as nat,
        }
    }
}

impl JobBuilder {
    /// A builder for the job `job_name`, which runs `image_uri` with
    /// `container_args` in a container called `container_name`. The job asks
    /// for `min_resources`, may use `max_resources` at most where they are
    /// given, and mounts the host directories `inputs_dir` and `outputs_dir`.
    pub fn new(
        job_name: &str,
        container_name: &str,
        image_uri: &str,
        container_args: Vec<String>,
        min_resources: JobResources,
        max_resources: Option<JobResources>,
        priority: JobPriority,
        time_limit: usize,
        inputs_dir: &str,
        outputs_dir: &str,
    ) -> (builder: Self)
        ensures
            builder.deep_view() == (JobBuilderView {
                job_name: job_name@,
                container: job_container(
                    container_name@,
                    image_uri@,
                    container_args.deep_view(),
                    min_resources.deep_view(),
                    max_resources.deep_view(),
                    inputs_dir@,
                    outputs_dir@,
                ),
                priority,
                time_limit: time_limit as nat,
                inputs_dir: inputs_dir@,
                outputs_dir: outputs_dir@,
                ttl_seconds: retention_seconds(time_limit as nat),
            }),
    {
        JobBuilder {
            job_name: job_name.to_string(),
            container: Self::create_container(
                container_name,
                image_uri,
                container_args,
                min_resources,
                max_resources,
                inputs_dir,
                outputs_dir,
            ),
            priority,
            time_limit,
            inputs_dir: inputs_dir.to_string(),
            outputs_dir: outputs_dir.to_string(),
            ttl_seconds: if time_limit > TTL_SECONDS {
                time_limit
            } else {
                TTL_SECONDS
            },
        }
    }

    fn create_volume_mount(dir: &str, name: &str) -> (mount: VolumeMount)
        ensures
            mount.deep_view() == volume_mount(dir@, name@),
    {
        VolumeMount { name: name.to_string(), mount_path: dir.to_string() }
    }

    /// The container of a job. It asks for `requests`. Without `limits` it
    /// has no limits at all, not an empty list; with them, its limits are
    /// the quantities of `limits`: `cpu`, `ephemeral-storage` and `memory`.
    pub fn create_container(
        name: &str,
        image: &str,
        args: Vec<String>,
        requests: JobResources,
        limits: Option<JobResources>,
        inputs_dir: &str,
        outputs_dir: &str,
    ) -> (container: Container)
        ensures
            container.deep_view() == job_container(
                name@,
                image@,
                args.deep_view(),
                requests.deep_view(),
                limits.deep_view(),
                inputs_dir@,
                outputs_dir@,
            ),
            container.resources.requests.deep_view() == quantities(requests.deep_view()),
            limits is None ==> container.resources.limits is None,
            limits matches Some(max) ==> container.resources.limits matches Some(list)
                && list.deep_view() == quantities(max.deep_view()) && list.len() == 3
                && quantity_map(list.deep_view()).dom() == set![
                "cpu"@,
                "ephemeral-storage"@,
                "memory"@,
            ],
    {
        let limit_list = match limits {
            Some(max) => Some(max.to_dict()),
            None => None,
        };
        let mut volume_mounts: Vec<VolumeMount> = Vec::new();
        volume_mounts.push(Self::create_volume_mount(inputs_dir, "inputs"));
        volume_mounts.push(Self::create_volume_mount(outputs_dir, "outputs"));
        let container = Container {
            name: name.to_string(),
            image: image.to_string(),
            image_pull_policy: "Never".to_string(),
            args,
            ports: Vec::new(),
            resources: ResourceRequirements { limits: limit_list, requests: requests.to_dict() },
            volume_mounts,
        };
        proof {
            let expected = job_container(
                name@,
                image@,
                args.deep_view(),
                requests.deep_view(),
                limits.deep_view(),
                inputs_dir@,
                outputs_dir@,
            );
            assert(container.deep_view().volume_mounts =~= expected.volume_mounts);
            assert(container.deep_view().ports =~= expected.ports);
            assert(container.deep_view().resources == expected.resources);
            if let Some(max) = limits {
                lemma_quantities_map(max.deep_view());
            }
        }
        container
    }

    fn create_volume(name: &str, dir: &str) -> (volume: Volume)
        ensures
            volume.deep_view() == host_volume(name@, dir@),
    {
        Volume {
            name: name.to_string(),
            host_path: dir.to_string(),
            host_path_type: Some("Directory".to_string()),
        }
    }

    fn create_pod_template(&self) -> (template: PodTemplate)
        ensures
            template.deep_view() == job_template(self.deep_view()),
    {
        let mut containers: Vec<Container> = Vec::new();
        containers.push(self.container.clone());
        let mut volumes: Vec<Volume> = Vec::new();
        volumes.push(Self::create_volume("inputs", self.inputs_dir.as_str()));
        volumes.push(Self::create_volume("outputs", self.outputs_dir.as_str()));
        let template = PodTemplate {
            containers,
            volumes,
            priority_class_name: Some(self.priority.to_string()),
            restart_policy: Some("Never".to_string()),
        };
        proof {
            let expected = job_template(self.deep_view());
            assert(template.deep_view().containers =~= expected.containers);
            assert(template.deep_view().volumes =~= expected.volumes);
        }
        template
    }

    /// The job as it is submitted. Nothing but the builder decides it: the
    /// same builder gives the same job each time.
    pub fn build(&self) -> (job: JobManifest)
        ensures
            job.deep_view() == job_manifest(self.deep_view()),
    {
        let deadline: u64 = self.time_limit as u64;
        let retention: u64 = self.ttl_seconds as u64;
        JobManifest {
            name: self.job_name.clone(),
            template: self.create_pod_template(),
            active_deadline_seconds: if deadline > i64::MAX as u64 {
                i64::MAX
            } else {
                deadline as i64
            },
            backoff_limit: 0,
            ttl_seconds_after_finished: if retention > i32::MAX as u64 {
                i32::MAX
            } else {
                retention as i32
            },
        }
    }
}

/// Building is a function of the builder: builders that hold the same
/// values build the same job, field for field.
pub proof fn lemma_same_builder_same_job(
    a: JobBuilderView,
    b: JobBuilderView,
    first: JobManifestView,
    second: JobManifestView,
)
    requires
        a == b,
        first == job_manifest(a),
        second == job_manifest(b),
    ensures
        first == second,
{
}

/// Limits follow the maximum: without a maximum a container has no limits
/// at all, not an empty list; with one, its limits name `cpu`,
/// `ephemeral-storage` and `memory`, each once, and nothing else.
pub proof fn lemma_limits_follow_maximum(
    requests: JobResourcesView,
    limits: Option<JobResourcesView>,
)
    ensures
        resource_requirements(requests, limits).limits is None <==> limits is None,
        limits is Some ==> resource_requirements(requests, limits).limits->0.len() == 3
            && quantity_map(resource_requirements(requests, limits).limits->0).dom() == set![
            "cpu"@,
            "ephemeral-storage"@,
            "memory"@,
        ],
        resource_requirements(requests, limits).requests.len() == 3,
        quantity_map(resource_requirements(requests, limits).requests).dom() == set![
            "cpu"@,
            "ephemeral-storage"@,
            "memory"@,
        ],
{
    lemma_quantities_map(requests);
    if let Some(max) = limits {
        lemma_quantities_map(max);
    }
}

/// What every job is built with, whatever was asked for: one container, one
/// attempt and no restart, the volumes `inputs` and `outputs`, the time
/// limit as the deadline, and a retention of the time limit or of
/// `TTL_SECONDS`, whichever is longer.
pub proof fn lemma_job_policy(b: JobBuilderView)
    requires
        b.ttl_seconds == retention_seconds(b.time_limit),
    ensures
        job_manifest(b).backoff_limit == 0,
        job_manifest(b).template.restart_policy == Some("Never"@),
        job_manifest(b).template.priority_class_name == Some(priority_class_name(b.priority)),
        job_manifest(b).template.containers == seq![b.container],
        job_manifest(b).template.volumes.len() == 2,
        job_manifest(b).template.volumes[0].name == "inputs"@,
        job_manifest(b).template.volumes[1].name == "outputs"@,
        b.time_limit <= i64::MAX ==> job_manifest(b).active_deadline_seconds == b.time_limit,
        job_manifest(b).ttl_seconds_after_finished >= TTL_SECONDS,
        b.time_limit <= i32::MAX ==> job_manifest(b).ttl_seconds_after_finished
            >= job_manifest(b).active_deadline_seconds,
{
}

} // verus!
