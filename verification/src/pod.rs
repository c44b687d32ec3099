//! Builds a bare pod: one container with a port, one host directory mounted
//! as `inputs`, and whole cores for CPU.

use vstd::prelude::*;
use crate::manifest::{
    clone_text_option, clone_volumes, Container, ContainerView, PodManifest, PodManifestView,
    PodTemplate, PodTemplateView, QuantityList, ResourceRequirements, ResourceRequirementsView,
    Volume, VolumeMount, VolumeMountView, VolumeView,
};
use crate::resources::{megabytes, megabytes_text};
use crate::text::{decimal, to_decimal};

verus! {

/// The entry for a maximum of CPU, in whole cores, if one is given.
pub open spec fn cpu_limit(max_cpu: Option<u32>) -> Seq<(Seq<char>, Seq<char>)> {
    match max_cpu {
        Some(cpu) => seq![("cpu"@, decimal(cpu as nat))],
        None => Seq::empty(),
    }
}

/// The entry for a maximum of disk, in megabytes, if one is given.
pub open spec fn disk_limit(max_disk: Option<u32>) -> Seq<(Seq<char>, Seq<char>)> {
    match max_disk {
        Some(disk) => seq![("ephemeral-storage"@, megabytes(disk as nat))],
        None => Seq::empty(),
    }
}

/// The entry for a maximum of memory, in megabytes, if one is given.
pub open spec fn ram_limit(max_ram: Option<u32>) -> Seq<(Seq<char>, Seq<char>)> {
    match max_ram {
        Some(ram) => seq![("memory"@, megabytes(ram as nat))],
        None => Seq::empty(),
    }
}

/// The limits of a pod: one entry for each maximum that is given, ordered by
/// name, and no list at all where none is given.
pub open spec fn pod_limits(max_cpu: Option<u32>, max_ram: Option<u32>, max_disk: Option<u32>)
    -> Option<Seq<(Seq<char>, Seq<char>)>> {
    if max_cpu is None && max_ram is None && max_disk is None {
        None
    } else {
        Some(cpu_limit(max_cpu) + disk_limit(max_disk) + ram_limit(max_ram))
    }
}

/// The requests of a pod, ordered by name.
pub open spec fn pod_requests(min_cpu: u32, min_ram: u32, min_disk: u32) -> Seq<
    (Seq<char>, Seq<char>),
> {
    seq![
        ("cpu"@, decimal(min_cpu as nat)),
        ("ephemeral-storage"@, megabytes(min_disk as nat)),
        ("memory"@, megabytes(min_ram as nat)),
    ]
}

/// The container of a pod.
pub open spec fn pod_container(
    name: Seq<char>,
    image: Seq<char>,
    port: i32,
    args: Seq<Seq<char>>,
    limits: Option<Seq<(Seq<char>, Seq<char>)>>,
    requests: Seq<(Seq<char>, Seq<char>)>,
    mount_path: Seq<char>,
    mount_name: Seq<char>,
) -> ContainerView {
    ContainerView {
        name,
        image,
        image_pull_policy: "Never"@,
        args,
        ports: seq![port],
        resources: ResourceRequirementsView { limits, requests },
        volume_mounts: seq![VolumeMountView { name: mount_name, mount_path }],
    }
}

/// The volume `name` on the host path `path`.
pub open spec fn host_path_volume(name: Seq<char>, path: Seq<char>, volume_type: Option<Seq<char>>)
    -> VolumeView {
    VolumeView { name, host_path: path, host_path_type: volume_type }
}

/// What a pod builder holds.
pub struct PodBuilderView {
    pub pod_name: Option<Seq<char>>,
    pub container: ContainerView,
    pub volumes: Seq<VolumeView>,
}

/// The pod that `b` creates.
pub open spec fn pod_manifest(b: PodBuilderView) -> PodManifestView {
    PodManifestView {
        name: b.pod_name,
        spec: PodTemplateView {
            containers: seq![b.container],
            volumes: b.volumes,
            priority_class_name: None,
            restart_policy: None,
        },
    }
}

/// Builder of one pod.
#[derive(Debug)]
pub struct PodBuilder {
    pub pod_name: Option<String>,
    container: Container,
    volumes: Vec<Volume>,
}

impl DeepView for PodBuilder {
    type V = PodBuilderView;

    closed spec fn deep_view(&self) -> PodBuilderView {
        PodBuilderView {
            pod_name: self.pod_name.deep_view(),
            container: self.container.deep_view(),
            volumes: self.volumes.deep_view(),
        }
    }
}

impl PodBuilder {
    /// A builder for the pod `pod_name`, which runs `image_uri` with
    /// `container_args` in a container called `container_name` that listens
    /// on `container_port`. CPU is given in whole cores, memory and disk in
    /// megabytes.
    pub fn new(
        pod_name: &str,
        container_name: &str,
        image_uri: &str,
        container_port: i32,
        container_args: Vec<String>,
        min_cpu: u32,
        min_ram: u32,
        min_disk: u32,
        max_cpu: Option<u32>,
        max_ram: Option<u32>,
        max_disk: Option<u32>,
    ) -> (builder: Self)
        ensures
            builder.deep_view() == (PodBuilderView {
                pod_name: Some(pod_name@),
                container: pod_container(
                    container_name@,
                    image_uri@,
                    container_port,
                    container_args.deep_view(),
                    pod_limits(max_cpu, max_ram, max_disk),
                    pod_requests(min_cpu, min_ram, min_disk),
                    "/inputs"@,
                    "inputs"@,
                ),
                volumes: seq![host_path_volume("inputs"@, "/inputs"@, Some("Directory"@))],
            }),
    {
        let resources_limits = Self::build_resource_limits(max_cpu, max_ram, max_disk);
        let resources_requests = Self::build_resource_requests(min_cpu, min_ram, min_disk);
        let container = Self::create_container(
            container_name,
            image_uri,
            container_port,
            container_args,
            resources_limits,
            resources_requests,
            "/inputs",
            "inputs",
        );
        let mut volumes: Vec<Volume> = Vec::new();
        volumes.push(Self::create_host_path_volume("inputs", "/inputs", Some("Directory")));
        let builder = PodBuilder { pod_name: Some(pod_name.to_string()), container, volumes };
        assert(builder.deep_view().volumes =~= seq![
            host_path_volume("inputs"@, "/inputs"@, Some("Directory"@)),
        ]);
        builder
    }

    fn build_resource_limits(max_cpu: Option<u32>, max_ram: Option<u32>, max_disk: Option<u32>) -> (limits:
        Option<QuantityList>)
        ensures
            limits.deep_view() == pod_limits(max_cpu, max_ram, max_disk),
    {
        let mut resource_limits: QuantityList = Vec::new();
        if let Some(cpu) = max_cpu {
            resource_limits.push(("cpu".to_string(), to_decimal(cpu as u64)));
        }
        assert(resource_limits.deep_view() =~= cpu_limit(max_cpu));
        if let Some(disk) = max_disk {
            resource_limits.push(("ephemeral-storage".to_string(), megabytes_text(disk)));
        }
        assert(resource_limits.deep_view() =~= cpu_limit(max_cpu) + disk_limit(max_disk));
        if let Some(ram) = max_ram {
            resource_limits.push(("memory".to_string(), megabytes_text(ram)));
        }
        assert(resource_limits.deep_view() =~= cpu_limit(max_cpu) + disk_limit(max_disk)
            + ram_limit(max_ram));
        if resource_limits.len() == 0 {
            None
        } else {
            Some(resource_limits)
        }
    }

    fn build_resource_requests(min_cpu: u32, min_ram: u32, min_disk: u32) -> (requests:
        QuantityList)
        ensures
            requests.deep_view() == pod_requests(min_cpu, min_ram, min_disk),
    {
        let mut requests: QuantityList = Vec::new();
        requests.push(("cpu".to_string(), to_decimal(min_cpu as u64)));
        requests.push(("ephemeral-storage".to_string(), megabytes_text(min_disk)));
        requests.push(("memory".to_string(), megabytes_text(min_ram)));
        assert(requests.deep_view() =~= pod_requests(min_cpu, min_ram, min_disk));
        requests
    }

    fn create_container(
        name: &str,
        image: &str,
        port: i32,
        args: Vec<String>,
        limits: Option<QuantityList>,
        requests: QuantityList,
        mount_path: &str,
        mount_name: &str,
    ) -> (container: Container)
        ensures
            container.deep_view() == pod_container(
                name@,
                image@,
                port,
                args.deep_view(),
                limits.deep_view(),
                requests.deep_view(),
                mount_path@,
                mount_name@,
            ),
    {
        let mut ports: Vec<i32> = Vec::new();
        ports.push(port);
        let mut volume_mounts: Vec<VolumeMount> = Vec::new();
        volume_mounts.push(
            VolumeMount { name: mount_name.to_string(), mount_path: mount_path.to_string() },
        );
        let container = Container {
            name: name.to_string(),
            image: image.to_string(),
            image_pull_policy: "Never".to_string(),
            args,
            ports,
            resources: ResourceRequirements { limits, requests },
            volume_mounts,
        };
        proof {
            let expected = pod_container(
                name@,
                image@,
                port,
                args.deep_view(),
                limits.deep_view(),
                requests.deep_view(),
                mount_path@,
                mount_name@,
            );
            assert(container.deep_view().ports =~= expected.ports);
            assert(container.deep_view().volume_mounts =~= expected.volume_mounts);
        }
        container
    }

    fn create_host_path_volume(name: &str, path: &str, volume_type: Option<&str>) -> (volume:
        Volume)
        ensures
            volume.deep_view() == host_path_volume(name@, path@, volume_type.deep_view()),
    {
        Volume {
            name: name.to_string(),
            host_path: path.to_string(),
            host_path_type: match volume_type {
                Some(t) => Some(t.to_string()),
                None => None,
            },
        }
    }

    /// The pod as it is submitted.
    pub fn create(&self) -> (pod: PodManifest)
        ensures
            pod.deep_view() == pod_manifest(self.deep_view()),
    {
        let mut containers: Vec<Container> = Vec::new();
        containers.push(self.container.clone());
        let pod = PodManifest {
            name: clone_text_option(&self.pod_name),
            spec: PodTemplate {
                containers,
                volumes: clone_volumes(&self.volumes),
                priority_class_name: None,
                restart_policy: None,
            },
        };
        assert(pod.deep_view().spec.containers =~= pod_manifest(self.deep_view()).spec.containers);
        pod
    }
}

} // verus!
