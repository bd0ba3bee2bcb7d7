use rkl::errors::ParseError;
use rkl::manifest::{
    ContainerSpec, ObjectMeta, PodSpec, PodTask, Port, RawContainerSpec, RawObjectMeta, RawPodSpec,
    RawPodTask, RawPort,
};

fn sample_task() -> PodTask {
    PodTask {
        api_version: String::from("v1"),
        kind: String::from("Pod"),
        metadata: ObjectMeta {
            name: String::from("web"),
            namespace: String::from("default"),
            labels: vec![(String::from("app"), String::from("web"))],
            annotations: vec![(String::from("note"), String::from("demo"))],
        },
        spec: PodSpec {
            containers: vec![
                ContainerSpec {
                    name: String::from("nginx"),
                    image: String::from("nginx:latest"),
                    ports: vec![Port { container_port: 80 }],
                },
            ],
            init_containers: vec![],
        },
    }
}

#[test]
fn round_trip_recovers_task() {
    let task = sample_task();
    let raw = task.to_raw();
    let parsed = PodTask::from_raw(raw).expect("canonical raw form must parse");
    assert_eq!(parsed, task);
}

#[test]
fn round_trip_keeps_init_containers() {
    let mut task = sample_task();
    task.spec.init_containers.push(ContainerSpec {
        name: String::from("setup"),
        image: String::from("busybox:latest"),
        ports: vec![],
    });
    let parsed = PodTask::from_raw(task.to_raw()).expect("canonical raw form must parse");
    assert_eq!(parsed, task);
}

fn sample_raw() -> RawPodTask {
    RawPodTask {
        api_version: Some(String::from("v1")),
        kind: Some(String::from("Pod")),
        metadata: Some(RawObjectMeta {
            name: Some(String::from("web")),
            namespace: Some(String::from("default")),
            labels: None,
            annotations: None,
        }),
        spec: Some(RawPodSpec {
            containers: Some(vec![RawContainerSpec {
                name: Some(String::from("nginx")),
                image: Some(String::from("nginx:latest")),
                ports: Some(vec![RawPort { container_port: Some(80) }]),
            }]),
            init_containers: None,
        }),
    }
}

#[test]
fn absent_optional_fields_default_to_empty() {
    let task = PodTask::from_raw(sample_raw()).expect("well-formed raw form must parse");
    assert!(task.metadata.labels.is_empty());
    assert!(task.metadata.annotations.is_empty());
    assert!(task.spec.init_containers.is_empty());
    assert_eq!(task.spec.containers.len(), 1);
    assert_eq!(task.spec.containers[0].name, "nginx");
    assert_eq!(task.spec.containers[0].image, "nginx:latest");
    assert_eq!(task.spec.containers[0].ports, vec![Port { container_port: 80 }]);
}

#[test]
fn empty_container_list_is_legal() {
    let mut raw = sample_raw();
    raw.spec.as_mut().unwrap().containers = Some(vec![]);
    let task = PodTask::from_raw(raw).expect("a pod with zero containers is legal");
    assert!(task.spec.containers.is_empty());
}

#[test]
fn missing_metadata_is_rejected() {
    let mut raw = sample_raw();
    raw.metadata = None;
    assert_eq!(PodTask::from_raw(raw), Err(ParseError::MissingField));
}

#[test]
fn missing_api_version_is_rejected() {
    let mut raw = sample_raw();
    raw.api_version = None;
    assert_eq!(PodTask::from_raw(raw), Err(ParseError::MissingField));
}

#[test]
fn missing_pod_name_is_rejected() {
    let mut raw = sample_raw();
    raw.metadata.as_mut().unwrap().name = None;
    assert_eq!(PodTask::from_raw(raw), Err(ParseError::MissingField));
}

#[test]
fn missing_container_image_is_rejected() {
    let mut raw = sample_raw();
    raw.spec.as_mut().unwrap().containers.as_mut().unwrap()[0].image = None;
    assert_eq!(PodTask::from_raw(raw), Err(ParseError::MissingField));
}

#[test]
fn missing_container_port_value_is_rejected() {
    let mut raw = sample_raw();
    raw.spec.as_mut().unwrap().containers.as_mut().unwrap()[0].ports =
        Some(vec![RawPort { container_port: None }]);
    assert_eq!(PodTask::from_raw(raw), Err(ParseError::MissingField));
}
