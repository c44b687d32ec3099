//! What the library submits to the cluster: a job or a bare pod, written down
//! as plain values. Each type has a view over sequences of characters, and
//! the contracts of the builders speak of those views.

use vstd::prelude::*;

verus! {

/// A list of named quantities, such as `("memory", "1024M")`.
pub type QuantityList = Vec<(String, String)>;

/// A volume mounted into a container.
#[derive(Debug, PartialEq, Eq)]
pub struct VolumeMount {
    pub name: String,
    pub mount_path: String,
}

/// What a `VolumeMount` holds, as the contracts speak of it.
pub struct VolumeMountView {
    pub name: Seq<char>,
    pub mount_path: Seq<char>,
}

impl DeepView for VolumeMount {
    type V = VolumeMountView;

    open spec fn deep_view(&self) -> VolumeMountView {
        VolumeMountView { name: self.name@, mount_path: self.mount_path@ }
    }
}

impl Clone for VolumeMount {
    fn clone(&self) -> (copy: Self)
        ensures
            copy.deep_view() == self.deep_view(),
    {
        VolumeMount { name: self.name.clone(), mount_path: self.mount_path.clone() }
    }
}

/// A directory of the host that a pod can mount.
#[derive(Debug, PartialEq, Eq)]
pub struct Volume {
    pub name: String,
    pub host_path: String,
    pub host_path_type: Option<String>,
}

/// What a `Volume` holds, as the contracts speak of it.
pub struct VolumeView {
    pub name: Seq<char>,
    pub host_path: Seq<char>,
    pub host_path_type: Option<Seq<char>>,
}

impl DeepView for Volume {
    type V = VolumeView;

    open spec fn deep_view(&self) -> VolumeView {
        VolumeView {
            name: self.name@,
            host_path: self.host_path@,
            host_path_type: self.host_path_type.deep_view(),
        }
    }
}

impl Clone for Volume {
    fn clone(&self) -> (copy: Self)
        ensures
            copy.deep_view() == self.deep_view(),
    {
        Volume {
            name: self.name.clone(),
            host_path: self.host_path.clone(),
            host_path_type: clone_text_option(&self.host_path_type),
        }
    }
}

/// What a container asks for and what it may use at most. No `limits` means
/// that the container is unbounded; an empty list is never written.
#[derive(Debug, PartialEq, Eq)]
pub struct ResourceRequirements {
    pub limits: Option<QuantityList>,
    pub requests: QuantityList,
}

/// What a `ResourceRequirements` holds, as the contracts speak of it.
pub struct ResourceRequirementsView {
    pub limits: Option<Seq<(Seq<char>, Seq<char>)>>,
    pub requests: Seq<(Seq<char>, Seq<char>)>,
}

impl DeepView for ResourceRequirements {
    type V = ResourceRequirementsView;

    open spec fn deep_view(&self) -> ResourceRequirementsView {
        ResourceRequirementsView {
            limits: self.limits.deep_view(),
            requests: self.requests.deep_view(),
        }
    }
}

impl Clone for ResourceRequirements {
    fn clone(&self) -> (copy: Self)
        ensures
            copy.deep_view() == self.deep_view(),
    {
        let limits = match &self.limits {
            Some(list) => Some(clone_quantities(list)),
            None => None,
        };
        ResourceRequirements { limits, requests: clone_quantities(&self.requests) }
    }
}

/// The one container of a job or pod.
#[derive(Debug, PartialEq, Eq)]
pub struct Container {
    pub name: String,
    pub image: String,
    pub image_pull_policy: String,
    pub args: Vec<String>,
    pub ports: Vec<i32>,
    pub resources: ResourceRequirements,
    pub volume_mounts: Vec<VolumeMount>,
}

/// What a `Container` holds, as the contracts speak of it.
pub struct ContainerView {
    pub name: Seq<char>,
    pub image: Seq<char>,
    pub image_pull_policy: Seq<char>,
    pub args: Seq<Seq<char>>,
    pub ports: Seq<i32>,
    pub resources: ResourceRequirementsView,
    pub volume_mounts: Seq<VolumeMountView>,
}

impl DeepView for Container {
    type V = ContainerView;

    open spec fn deep_view(&self) -> ContainerView {
        ContainerView {
            name: self.name@,
            image: self.image@,
            image_pull_policy: self.image_pull_policy@,
            args: self.args.deep_view(),
            ports: self.ports@,
            resources: self.resources.deep_view(),
            volume_mounts: self.volume_mounts.deep_view(),
        }
    }
}

impl Clone for Container {
    fn clone(&self) -> (copy: Self)
        ensures
            copy.deep_view() == self.deep_view(),
    {
        Container {
            name: self.name.clone(),
            image: self.image.clone(),
            image_pull_policy: self.image_pull_policy.clone(),
            args: clone_texts(&self.args),
            ports: clone_ports(&self.ports),
            resources: self.resources.clone(),
            volume_mounts: clone_mounts(&self.volume_mounts),
        }
    }
}

/// The pod that runs the container.
#[derive(Debug, PartialEq, Eq)]
pub struct PodTemplate {
    pub containers: Vec<Container>,
    pub volumes: Vec<Volume>,
    pub priority_class_name: Option<String>,
    pub restart_policy: Option<String>,
}

/// What a `PodTemplate` holds, as the contracts speak of it.
pub struct PodTemplateView {
    pub containers: Seq<ContainerView>,
    pub volumes: Seq<VolumeView>,
    pub priority_class_name: Option<Seq<char>>,
    pub restart_policy: Option<Seq<char>>,
}

impl DeepView for PodTemplate {
    type V = PodTemplateView;

    open spec fn deep_view(&self) -> PodTemplateView {
        PodTemplateView {
            containers: self.containers.deep_view(),
            volumes: self.volumes.deep_view(),
            priority_class_name: self.priority_class_name.deep_view(),
            restart_policy: self.restart_policy.deep_view(),
        }
    }
}

/// A job as the cluster takes it: one pod, one attempt, a deadline and the
/// time for which the finished job is kept.
#[derive(Debug, PartialEq, Eq)]
pub struct JobManifest {
    pub name: String,
    pub template: PodTemplate,
    pub active_deadline_seconds: i64,
    pub backoff_limit: i32,
    pub ttl_seconds_after_finished: i32,
}

/// What a `JobManifest` holds, as the contracts speak of it.
pub struct JobManifestView {
    pub name: Seq<char>,
    pub template: PodTemplateView,
    pub active_deadline_seconds: int,
    pub backoff_limit: int,
    pub ttl_seconds_after_finished: int,
}

impl DeepView for JobManifest {
    type V = JobManifestView;

    open spec fn deep_view(&self) -> JobManifestView {
        JobManifestView {
            name: self.name@,
            template: self.template.deep_view(),
            active_deadline_seconds: self.active_deadline_seconds as int,
            backoff_limit: self.backoff_limit as int,
            ttl_seconds_after_finished: self.ttl_seconds_after_finished as int,
        }
    }
}

/// A bare pod as the cluster takes it.
#[derive(Debug, PartialEq, Eq)]
pub struct PodManifest {
    pub name: Option<String>,
    pub spec: PodTemplate,
}

/// What a `PodManifest` holds, as the contracts speak of it.
pub struct PodManifestView {
    pub name: Option<Seq<char>>,
    pub spec: PodTemplateView,
}

impl DeepView for PodManifest {
    type V = PodManifestView;

    open spec fn deep_view(&self) -> PodManifestView {
        PodManifestView { name: self.name.deep_view(), spec: self.spec.deep_view() }
    }
}

/// A copy of an optional text.
pub fn clone_text_option(text: &Option<String>) -> (copy: Option<String>)
    ensures
        copy.deep_view() == text.deep_view(),
{
    match text {
        Some(t) => Some(t.clone()),
        None => None,
    }
}

/// A copy of a list of texts.
pub fn clone_texts(texts: &Vec<String>) -> (copy: Vec<String>)
    ensures
        copy.deep_view() == texts.deep_view(),
{
    let mut copy: Vec<String> = Vec::new();
    let mut i: usize = 0;
    while i < texts.len()
        invariant
            i <= texts.len(),
            copy.len() == i,
            forall|j: int| 0 <= j < i ==> copy[j]@ == texts[j]@,
        decreases texts.len() - i,
    {
        copy.push(texts[i].clone());
        i += 1;
    }
    assert(copy.deep_view() =~= texts.deep_view());
    copy
}

/// A copy of a list of named quantities.
pub fn clone_quantities(list: &QuantityList) -> (copy: QuantityList)
    ensures
        copy.deep_view() == list.deep_view(),
{
    let mut copy: QuantityList = Vec::new();
    let mut i: usize = 0;
    while i < list.len()
        invariant
            i <= list.len(),
            copy.len() == i,
            forall|j: int| 0 <= j < i ==> copy[j].deep_view() == list[j].deep_view(),
        decreases list.len() - i,
    {
        copy.push((list[i].0.clone(), list[i].1.clone()));
        i += 1;
    }
    assert(copy.deep_view() =~= list.deep_view());
    copy
}

/// A copy of a list of volumes.
pub fn clone_volumes(volumes: &Vec<Volume>) -> (copy: Vec<Volume>)
    ensures
        copy.deep_view() == volumes.deep_view(),
{
    let mut copy: Vec<Volume> = Vec::new();
    let mut i: usize = 0;
    while i < volumes.len()
        invariant
            i <= volumes.len(),
            copy.len() == i,
            forall|j: int| 0 <= j < i ==> copy[j].deep_view() == volumes[j].deep_view(),
        decreases volumes.len() - i,
    {
        copy.push(volumes[i].clone());
        i += 1;
    }
    assert(copy.deep_view() =~= volumes.deep_view());
    copy
}

fn clone_ports(ports: &Vec<i32>) -> (copy: Vec<i32>)
    ensures
        copy@ == ports@,
{
    let mut copy: Vec<i32> = Vec::new();
    let mut i: usize = 0;
    while i < ports.len()
        invariant
            i <= ports.len(),
            copy.len() == i,
            forall|j: int| 0 <= j < i ==> copy[j] == ports[j],
        decreases ports.len() - i,
    {
        copy.push(ports[i]);
        i += 1;
    }
    assert(copy@ =~= ports@);
    copy
}

fn clone_mounts(mounts: &Vec<VolumeMount>) -> (copy: Vec<VolumeMount>)
    ensures
        copy.deep_view() == mounts.deep_view(),
{
    let mut copy: Vec<VolumeMount> = Vec::new();
    let mut i: usize = 0;
    while i < mounts.len()
        invariant
            i <= mounts.len(),
            copy.len() == i,
            forall|j: int| 0 <= j < i ==> copy[j].deep_view() == mounts[j].deep_view(),
        decreases mounts.len() - i,
    {
        copy.push(mounts[i].clone());
        i += 1;
    }
    assert(copy.deep_view() =~= mounts.deep_view());
    copy
}

} // verus!
