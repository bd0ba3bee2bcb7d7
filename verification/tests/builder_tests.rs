use rkl::builder::TaskRunner;
use rkl::cri::{NamespaceMode, Protocol};
use rkl::manifest::{ContainerSpec, ObjectMeta, PodSpec, PodTask, Port};

fn runner_with_containers(containers: Vec<ContainerSpec>) -> TaskRunner {
    TaskRunner {
        task: PodTask {
            api_version: String::from("v1"),
            kind: String::from("Pod"),
            metadata: ObjectMeta {
                name: String::from("web"),
                namespace: String::from("default"),
                labels: vec![(String::from("app"), String::from("web"))],
                annotations: vec![(String::from("note"), String::from("demo"))],
            },
            spec: PodSpec { containers, init_containers: vec![] },
        },
    }
}

fn nginx_runner() -> TaskRunner {
    runner_with_containers(vec![ContainerSpec {
        name: String::from("nginx"),
        image: String::from("nginx:latest"),
        ports: vec![Port { container_port: 80 }],
    }])
}

#[test]
fn sandbox_request_fields() {
    let req = nginx_runner().build_run_pod_sandbox_request();
    assert_eq!(req.runtime_handler, "");
    let config = &req.config;
    assert_eq!(config.metadata.name, "web");
    assert_eq!(config.metadata.namespace, "default");
    assert_eq!(config.metadata.uid, "12345");
    assert_eq!(config.metadata.attempt, 0);
    assert_eq!(config.hostname, "web");
    assert_eq!(config.log_directory, "/var/log/pods/default_web/");
    assert_eq!(config.labels, vec![(String::from("app"), String::from("web"))]);
    assert_eq!(config.annotations, vec![(String::from("note"), String::from("demo"))]);
    assert_eq!(config.port_mappings.len(), 1);
    assert_eq!(config.port_mappings[0].protocol, Protocol::Tcp);
    assert_eq!(config.port_mappings[0].container_port, 80);
    assert_eq!(config.port_mappings[0].host_port, 0);
    assert_eq!(config.port_mappings[0].host_ip, "");
}

#[test]
fn sandbox_namespaces_are_the_four_pod_scoped_ones() {
    let config = nginx_runner().create_pod_sandbox_config();
    let types: Vec<&str> = config.namespaces.iter().map(|n| n.ns_type.as_str()).collect();
    assert_eq!(types, vec!["network", "pid", "ipc", "mount"]);
    for entry in &config.namespaces {
        assert_eq!(entry.mode, NamespaceMode::Pod);
        assert_eq!(entry.path, "");
    }
    for i in 0..config.namespaces.len() {
        for j in 0..i {
            assert_ne!(config.namespaces[i].ns_type, config.namespaces[j].ns_type);
        }
    }
}

#[test]
fn container_request_fields() {
    let runner = nginx_runner();
    let container = runner.task.spec.containers[0].clone();
    let req = runner.build_create_container_request("sandbox-7", &container);
    assert_eq!(req.pod_sandbox_id, "sandbox-7");
    let config = &req.config;
    assert_eq!(config.metadata.name, "nginx");
    assert_eq!(config.metadata.attempt, 0);
    assert_eq!(config.image.image, "nginx:latest");
    assert_eq!(config.image.user_specified_image, "nginx:latest");
    assert!(config.image.annotations.is_empty());
    assert_eq!(config.image.runtime_handler, "");
    assert!(config.command.is_empty());
    assert!(config.args.is_empty());
    assert_eq!(config.working_dir, "");
    assert!(config.envs.is_empty());
    assert_eq!(config.labels, vec![(String::from("app"), String::from("web"))]);
    assert_eq!(config.annotations, vec![(String::from("note"), String::from("demo"))]);
    assert_eq!(config.log_path, "nginx/0.log");
    assert_eq!(req.sandbox_config, runner.create_pod_sandbox_config());
}

#[test]
fn container_namespaces_join_the_sandbox() {
    let runner = nginx_runner();
    let container = runner.task.spec.containers[0].clone();
    let config = runner.create_container_config("sandbox-7", &container);
    let types: Vec<&str> = config.namespaces.iter().map(|n| n.ns_type.as_str()).collect();
    assert_eq!(types, vec!["network", "pid", "ipc", "mount"]);
    for entry in &config.namespaces {
        assert_eq!(entry.mode, NamespaceMode::Container);
        assert_eq!(entry.path, "sandbox-7");
    }
}

#[test]
fn start_request_carries_the_container_id() {
    let req = nginx_runner().build_start_container_request("container-3");
    assert_eq!(req.container_id, "container-3");
}

#[test]
fn port_flattening_keeps_manifest_order() {
    let runner = runner_with_containers(vec![
        ContainerSpec {
            name: String::from("a"),
            image: String::from("a:1"),
            ports: vec![Port { container_port: 80 }],
        },
        ContainerSpec {
            name: String::from("b"),
            image: String::from("b:1"),
            ports: vec![],
        },
        ContainerSpec {
            name: String::from("c"),
            image: String::from("c:1"),
            ports: vec![Port { container_port: 443 }, Port { container_port: 8443 }],
        },
    ]);
    let config = runner.create_pod_sandbox_config();
    let ports: Vec<i32> = config.port_mappings.iter().map(|m| m.container_port).collect();
    assert_eq!(ports, vec![80, 443, 8443]);
    for mapping in &config.port_mappings {
        assert_eq!(mapping.protocol, Protocol::Tcp);
        assert_eq!(mapping.host_port, 0);
        assert_eq!(mapping.host_ip, "");
    }
}

#[test]
fn builder_is_deterministic() {
    let first = nginx_runner();
    let second = nginx_runner();
    assert_eq!(
        first.build_run_pod_sandbox_request(),
        second.build_run_pod_sandbox_request(),
    );
    let container = first.task.spec.containers[0].clone();
    assert_eq!(
        first.build_create_container_request("sb", &container),
        second.build_create_container_request("sb", &container),
    );
    assert_eq!(
        first.build_start_container_request("c"),
        second.build_start_container_request("c"),
    );
}
