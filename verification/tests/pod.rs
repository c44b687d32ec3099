use zefiro::manifest::{Volume, VolumeMount};
use zefiro::pod::PodBuilder;

fn pod(max_cpu: Option<u32>, max_ram: Option<u32>, max_disk: Option<u32>) -> PodBuilder {
    PodBuilder::new(
        "vidjil",
        "vidjil",
        "vidjil:latest",
        80,
        vec!["--in-fastq=/inputs/in_R12.fastq.gz".to_string()],
        1,
        4000,
        4000,
        max_cpu,
        max_ram,
        max_disk,
    )
}

#[test]
fn pod_carries_its_container_and_volume() {
    let builder = pod(None, None, None);
    assert_eq!(builder.pod_name, Some("vidjil".to_string()));
    let manifest = builder.create();
    assert_eq!(manifest.name, Some("vidjil".to_string()));
    assert_eq!(manifest.spec.containers.len(), 1);
    let container = &manifest.spec.containers[0];
    assert_eq!(container.name, "vidjil");
    assert_eq!(container.image, "vidjil:latest");
    assert_eq!(container.image_pull_policy, "Never");
    assert_eq!(container.ports, vec![80]);
    assert_eq!(container.args, vec!["--in-fastq=/inputs/in_R12.fastq.gz".to_string()]);
    assert_eq!(
        container.volume_mounts,
        vec![VolumeMount { name: "inputs".to_string(), mount_path: "/inputs".to_string() }]
    );
    assert_eq!(
        manifest.spec.volumes,
        vec![Volume {
            name: "inputs".to_string(),
            host_path: "/inputs".to_string(),
            host_path_type: Some("Directory".to_string()),
        }]
    );
    assert_eq!(manifest.spec.priority_class_name, None);
    assert_eq!(manifest.spec.restart_policy, None);
}

#[test]
fn pod_requests_are_whole_cores_and_megabytes() {
    let manifest = pod(None, None, None).create();
    assert_eq!(
        manifest.spec.containers[0].resources.requests,
        vec![
            ("cpu".to_string(), "1".to_string()),
            ("ephemeral-storage".to_string(), "4000M".to_string()),
            ("memory".to_string(), "4000M".to_string()),
        ]
    );
}

#[test]
fn pod_without_maxima_has_no_limits() {
    let manifest = pod(None, None, None).create();
    assert_eq!(manifest.spec.containers[0].resources.limits, None);
}

#[test]
fn pod_limits_hold_the_maxima_that_are_given() {
    let manifest = pod(Some(8), Some(10_000), Some(2048)).create();
    assert_eq!(
        manifest.spec.containers[0].resources.limits,
        Some(vec![
            ("cpu".to_string(), "8".to_string()),
            ("ephemeral-storage".to_string(), "2048M".to_string()),
            ("memory".to_string(), "10000M".to_string()),
        ])
    );
    let manifest = pod(None, Some(512), None).create();
    assert_eq!(
        manifest.spec.containers[0].resources.limits,
        Some(vec![("memory".to_string(), "512M".to_string())])
    );
    let manifest = pod(Some(2), None, Some(1)).create();
    assert_eq!(
        manifest.spec.containers[0].resources.limits,
        Some(vec![
            ("cpu".to_string(), "2".to_string()),
            ("ephemeral-storage".to_string(), "1M".to_string()),
        ])
    );
}

#[test]
fn creating_a_pod_twice_gives_the_same_pod() {
    let builder = pod(Some(2), Some(3), Some(4));
    assert_eq!(builder.create(), builder.create());
}
