use rkl::builder::TaskRunner;
use rkl::driver::{RpcResponse, RunAction, RunDriver, RunPhase};
use rkl::errors::RpcError;
use rkl::manifest::{ContainerSpec, ObjectMeta, PodSpec, PodTask, Port};

fn driver_with_containers(containers: Vec<ContainerSpec>) -> RunDriver {
    RunDriver::new(TaskRunner {
        task: PodTask {
            api_version: String::from("v1"),
            kind: String::from("Pod"),
            metadata: ObjectMeta {
                name: String::from("web"),
                namespace: String::from("default"),
                labels: vec![],
                annotations: vec![],
            },
            spec: PodSpec { containers, init_containers: vec![] },
        },
    })
}

fn simple_container(name: &str) -> ContainerSpec {
    ContainerSpec {
        name: String::from(name),
        image: format!("{}:latest", name),
        ports: vec![],
    }
}

fn some_failure() -> RpcError {
    RpcError { kind: String::from("Internal"), message: String::from("runtime failure") }
}

#[test]
fn run_with_one_container_collects_both_ids() {
    let mut driver = driver_with_containers(vec![ContainerSpec {
        name: String::from("nginx"),
        image: String::from("nginx:latest"),
        ports: vec![Port { container_port: 80 }],
    }]);
    let sandbox_req = driver.begin();
    assert_eq!(sandbox_req.config.log_directory, "/var/log/pods/default_web/");

    let action = driver.step(RpcResponse::SandboxOk(String::from("sb-1")));
    let create_req = match action {
        RunAction::CreateContainer(req) => req,
        _ => panic!("expected a create-container action after the sandbox response"),
    };
    assert_eq!(create_req.pod_sandbox_id, "sb-1");
    assert_eq!(create_req.config.log_path, "nginx/0.log");

    let action = driver.step(RpcResponse::ContainerOk(String::from("c-1")));
    let start_req = match action {
        RunAction::StartContainer(req) => req,
        _ => panic!("expected a start-container action after the create response"),
    };
    assert_eq!(start_req.container_id, "c-1");

    let action = driver.step(RpcResponse::StartOk);
    assert!(matches!(action, RunAction::Finished));
    assert_eq!(driver.phase, RunPhase::AllStarted);
    assert_eq!(driver.sandbox_id.as_deref(), Some("sb-1"));
    assert_eq!(driver.started, vec![String::from("c-1")]);
}

#[test]
fn zero_containers_finish_after_the_sandbox_alone() {
    let mut driver = driver_with_containers(vec![]);
    let _ = driver.begin();
    let action = driver.step(RpcResponse::SandboxOk(String::from("sb-2")));
    assert!(matches!(action, RunAction::Finished));
    assert_eq!(driver.phase, RunPhase::AllStarted);
    assert_eq!(driver.sandbox_id.as_deref(), Some("sb-2"));
    assert!(driver.started.is_empty());
}

#[test]
fn no_container_request_before_the_sandbox_response() {
    let mut driver = driver_with_containers(vec![simple_container("a")]);
    assert_eq!(driver.phase, RunPhase::Idle);
    assert!(driver.sandbox_id.is_none());
    let _ = driver.begin();
    // While the sandbox request is outstanding, no identifier exists and
    // nothing container-related has happened.
    assert_eq!(driver.phase, RunPhase::SandboxRequested);
    assert!(driver.sandbox_id.is_none());
    assert!(driver.started.is_empty());
}

#[test]
fn sandbox_failure_ends_the_run_with_no_containers() {
    let mut driver = driver_with_containers(vec![simple_container("a")]);
    let _ = driver.begin();
    let action = driver.step(RpcResponse::Failed(some_failure()));
    assert!(matches!(action, RunAction::Aborted));
    assert_eq!(driver.phase, RunPhase::Failed);
    assert!(driver.sandbox_id.is_none());
    assert!(driver.started.is_empty());
    assert_eq!(driver.failure, Some(some_failure()));
}

#[test]
fn create_failure_on_second_container_abandons_the_third() {
    let mut driver = driver_with_containers(vec![
        simple_container("a"),
        simple_container("b"),
        simple_container("c"),
    ]);
    let _ = driver.begin();

    let action = driver.step(RpcResponse::SandboxOk(String::from("sb-3")));
    let first_create = match action {
        RunAction::CreateContainer(req) => req,
        _ => panic!("expected the first create-container action"),
    };
    assert_eq!(first_create.config.metadata.name, "a");

    let action = driver.step(RpcResponse::ContainerOk(String::from("c-a")));
    assert!(matches!(action, RunAction::StartContainer(_)));
    let action = driver.step(RpcResponse::StartOk);
    let second_create = match action {
        RunAction::CreateContainer(req) => req,
        _ => panic!("expected the second create-container action"),
    };
    assert_eq!(second_create.config.metadata.name, "b");

    // The second create fails: the run stops, keeping the sandbox id and
    // the one started container; the third container is never attempted.
    let action = driver.step(RpcResponse::Failed(some_failure()));
    assert!(matches!(action, RunAction::Aborted));
    assert_eq!(driver.phase, RunPhase::Failed);
    assert_eq!(driver.sandbox_id.as_deref(), Some("sb-3"));
    assert_eq!(driver.started, vec![String::from("c-a")]);
    assert_eq!(driver.failure, Some(some_failure()));
}

#[test]
fn one_create_and_start_pair_per_container() {
    let mut driver = driver_with_containers(vec![
        simple_container("a"),
        simple_container("b"),
    ]);
    let _ = driver.begin();
    let mut creates = 0;
    let mut starts = 0;
    let mut action = driver.step(RpcResponse::SandboxOk(String::from("sb-4")));
    loop {
        match action {
            RunAction::CreateContainer(_) => {
                creates += 1;
                action = driver.step(RpcResponse::ContainerOk(format!("c-{}", creates)));
            }
            RunAction::StartContainer(_) => {
                starts += 1;
                action = driver.step(RpcResponse::StartOk);
            }
            RunAction::Finished => break,
            RunAction::Aborted => panic!("the run must not fail"),
        }
    }
    assert_eq!(creates, 2);
    assert_eq!(starts, 2);
    assert_eq!(driver.started, vec![String::from("c-1"), String::from("c-2")]);
    assert_eq!(driver.phase, RunPhase::AllStarted);
}
