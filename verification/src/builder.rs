//! The request builder: pure, deterministic mappings from manifest
//! entities to the three CRI request shapes.
//!
//! Each executable builder is pinned to a spec-level construction of the
//! same request, so the same task (and, where applicable, sandbox
//! identifier) always yields the same request value.

use vstd::prelude::*;
use vstd::string::StringExecFns;

use crate::cri::{
    ContainerConfig, ContainerConfigView, ContainerMetadata, ContainerMetadataView,
    CreateContainerRequest, CreateContainerRequestView, ImageSpec, ImageSpecView, NamespaceEntry,
    NamespaceEntryView, NamespaceMode, PodSandboxConfig, PodSandboxConfigView, PodSandboxMetadata,
    PodSandboxMetadataView, PortMapping, PortMappingView, Protocol, RunPodSandboxRequest,
    RunPodSandboxRequestView, StartContainerRequest, StartContainerRequestView,
};
use crate::manifest::{clone_pairs, ContainerSpec, ContainerSpecView, PodTask, PodTaskView};

verus! {

/// The placeholder sandbox uid: a constant stand-in for a real
/// unique-identifier generator, so the builder stays referentially
/// transparent.
pub open spec fn placeholder_uid() -> Seq<char> {
    "12345"@
}

/// The sandbox log directory, `/var/log/pods/{namespace}_{name}/`.
pub open spec fn log_directory_of(namespace: Seq<char>, name: Seq<char>) -> Seq<char> {
    "/var/log/pods/"@ + namespace + "_"@ + name + "/"@
}

/// The container log path, `{container_name}/0.log`.
pub open spec fn log_path_of(container_name: Seq<char>) -> Seq<char> {
    container_name + "/0.log"@
}

/// A port mapping with protocol fixed to TCP, the host port left for the
/// runtime to choose, and no host IP restriction.
pub open spec fn tcp_mapping(port: i32) -> PortMappingView {
    PortMappingView {
        protocol: Protocol::Tcp,
        container_port: port,
        host_port: 0,
        host_ip: Seq::<char>::empty(),
    }
}

/// The port mappings one container contributes, in declaration order.
pub open spec fn container_port_mappings(c: ContainerSpecView) -> Seq<PortMappingView> {
    c.ports.map_values(|p: i32| tcp_mapping(p))
}

/// The flattened concatenation, over all containers in manifest order, of
/// each container's declared ports.
pub open spec fn port_mappings_of(cs: Seq<ContainerSpecView>) -> Seq<PortMappingView>
    decreases cs.len(),
{
    if cs.len() == 0 {
        Seq::empty()
    } else {
        port_mappings_of(cs.drop_last()) + container_port_mappings(cs.last())
    }
}

/// The four isolation-namespace types, in the order the builder emits
/// them.
pub open spec fn namespace_types() -> Seq<Seq<char>> {
    seq!["network"@, "pid"@, "ipc"@, "mount"@]
}

/// The sandbox's isolation namespaces: each of the four types, shared
/// within the pod, with no external namespace path.
pub open spec fn pod_namespaces() -> Seq<NamespaceEntryView> {
    namespace_types().map_values(
        |t: Seq<char>| NamespaceEntryView {
            ns_type: t,
            mode: NamespaceMode::Pod,
            path: Seq::<char>::empty(),
        },
    )
}

/// A container's isolation namespaces: each of the four types, joining
/// the sandbox's namespace named by `sandbox_id`.
pub open spec fn container_namespaces(sandbox_id: Seq<char>) -> Seq<NamespaceEntryView> {
    namespace_types().map_values(
        |t: Seq<char>| NamespaceEntryView {
            ns_type: t,
            mode: NamespaceMode::Container,
            path: sandbox_id,
        },
    )
}

/// The sandbox configuration a task maps to.
pub open spec fn sandbox_config_view(t: PodTaskView) -> PodSandboxConfigView {
    PodSandboxConfigView {
        metadata: PodSandboxMetadataView {
            name: t.metadata.name,
            namespace: t.metadata.namespace,
            uid: placeholder_uid(),
            attempt: 0,
        },
        hostname: t.metadata.name,
        log_directory: log_directory_of(t.metadata.namespace, t.metadata.name),
        port_mappings: port_mappings_of(t.spec.containers),
        labels: t.metadata.labels,
        annotations: t.metadata.annotations,
        namespaces: pod_namespaces(),
    }
}

/// The container configuration a task, a sandbox identifier and one
/// container spec map to.
pub open spec fn container_config_view(
    t: PodTaskView,
    sandbox_id: Seq<char>,
    c: ContainerSpecView,
) -> ContainerConfigView {
    ContainerConfigView {
        metadata: ContainerMetadataView { name: c.name, attempt: 0 },
        image: ImageSpecView {
            image: c.image,
            user_specified_image: c.image,
            annotations: Seq::empty(),
            runtime_handler: Seq::<char>::empty(),
        },
        command: Seq::empty(),
        args: Seq::empty(),
        working_dir: Seq::<char>::empty(),
        envs: Seq::empty(),
        labels: t.metadata.labels,
        annotations: t.metadata.annotations,
        log_path: log_path_of(c.name),
        namespaces: container_namespaces(sandbox_id),
    }
}

/// The sandbox request a task maps to.
pub open spec fn run_pod_sandbox_request_view(t: PodTaskView) -> RunPodSandboxRequestView {
    RunPodSandboxRequestView {
        config: sandbox_config_view(t),
        runtime_handler: Seq::<char>::empty(),
    }
}

/// The create-container request a task, a sandbox identifier and one
/// container spec map to.
pub open spec fn create_container_request_view(
    t: PodTaskView,
    sandbox_id: Seq<char>,
    c: ContainerSpecView,
) -> CreateContainerRequestView {
    CreateContainerRequestView {
        pod_sandbox_id: sandbox_id,
        config: container_config_view(t, sandbox_id, c),
        sandbox_config: sandbox_config_view(t),
    }
}

/// The start-container request a container identifier maps to.
pub open spec fn start_container_request_view(container_id: Seq<char>) -> StartContainerRequestView {
    StartContainerRequestView { container_id: container_id }
}

/// Builds the flattened port-mapping list of all containers in manifest
/// order.
fn build_port_mappings(containers: &Vec<ContainerSpec>) -> (r: Vec<PortMapping>)
    ensures
        r.deep_view() == port_mappings_of(containers.deep_view()),
{
    let mut r: Vec<PortMapping> = Vec::new();
    let mut i: usize = 0;
    while i < containers.len()
        invariant
            i <= containers.len(),
            r.deep_view() =~= port_mappings_of(containers.deep_view().take(i as int)),
        decreases containers.len() - i,
    {
        let c = &containers[i];
        let ghost done = r.deep_view();
        let mut j: usize = 0;
        while j < c.ports.len()
            invariant
                j <= c.ports.len(),
                r.deep_view() =~= done + c.deep_view().ports.take(j as int).map_values(
                    |p: i32| tcp_mapping(p),
                ),
            decreases c.ports.len() - j,
        {
            let ghost prev = r.deep_view();
            r.push(
                PortMapping {
                    protocol: Protocol::Tcp,
                    container_port: c.ports[j].container_port,
                    host_port: 0,
                    host_ip: String::new(),
                },
            );
            proof {
                assert(c.deep_view().ports[j as int] == c.ports@[j as int].container_port);
                assert(r@.last().deep_view() == tcp_mapping(c.deep_view().ports[j as int]));
                assert(r.deep_view() =~= prev.push(tcp_mapping(c.deep_view().ports[j as int])));
                assert(c.deep_view().ports.take(j + 1) =~= c.deep_view().ports.take(
                    j as int,
                ).push(c.deep_view().ports[j as int]));
                assert(c.deep_view().ports.take(j + 1).map_values(|p: i32| tcp_mapping(p)) =~= c
                    .deep_view().ports.take(j as int).map_values(|p: i32| tcp_mapping(p)).push(
                    tcp_mapping(c.deep_view().ports[j as int]),
                ));
                assert(r.deep_view() =~= done + c.deep_view().ports.take(j + 1).map_values(
                    |p: i32| tcp_mapping(p),
                ));
            }
            j += 1;
        }
        proof {
            assert(c.deep_view().ports.take(c.ports.len() as int) =~= c.deep_view().ports);
            assert(containers.deep_view().take(i + 1).drop_last() =~= containers.deep_view().take(
                i as int,
            ));
            assert(containers.deep_view().take(i + 1).last() == c.deep_view());
            assert(r.deep_view() =~= port_mappings_of(containers.deep_view().take(i + 1)));
        }
        i += 1;
    }
    proof {
        assert(containers.deep_view().take(containers.len() as int) =~= containers.deep_view());
    }
    r
}

/// Builds the four pod-scoped isolation-namespace entries.
fn build_pod_namespaces() -> (r: Vec<NamespaceEntry>)
    ensures
        r.deep_view() == pod_namespaces(),
{
    let mut r: Vec<NamespaceEntry> = Vec::new();
    r.push(
        NamespaceEntry {
            ns_type: String::from_str("network"),
            mode: NamespaceMode::Pod,
            path: String::new(),
        },
    );
    r.push(
        NamespaceEntry {
            ns_type: String::from_str("pid"),
            mode: NamespaceMode::Pod,
            path: String::new(),
        },
    );
    r.push(
        NamespaceEntry {
            ns_type: String::from_str("ipc"),
            mode: NamespaceMode::Pod,
            path: String::new(),
        },
    );
    r.push(
        NamespaceEntry {
            ns_type: String::from_str("mount"),
            mode: NamespaceMode::Pod,
            path: String::new(),
        },
    );
    proof {
        assert(r.deep_view() =~= pod_namespaces());
    }
    r
}

/// Builds the four isolation-namespace entries that join the sandbox
/// `sandbox_id`.
fn build_container_namespaces(sandbox_id: &str) -> (r: Vec<NamespaceEntry>)
    ensures
        r.deep_view() == container_namespaces(sandbox_id@),
{
    let mut r: Vec<NamespaceEntry> = Vec::new();
    r.push(
        NamespaceEntry {
            ns_type: String::from_str("network"),
            mode: NamespaceMode::Container,
            path: String::from_str(sandbox_id),
        },
    );
    r.push(
        NamespaceEntry {
            ns_type: String::from_str("pid"),
            mode: NamespaceMode::Container,
            path: String::from_str(sandbox_id),
        },
    );
    r.push(
        NamespaceEntry {
            ns_type: String::from_str("ipc"),
            mode: NamespaceMode::Container,
            path: String::from_str(sandbox_id),
        },
    );
    r.push(
        NamespaceEntry {
            ns_type: String::from_str("mount"),
            mode: NamespaceMode::Container,
            path: String::from_str(sandbox_id),
        },
    );
    proof {
        assert(r.deep_view() =~= container_namespaces(sandbox_id@));
    }
    r
}

/// The task runner: owns one parsed task and maps it to CRI requests.
pub struct TaskRunner {
    pub task: PodTask,
}

impl TaskRunner {
    /// Creates the sandbox configuration of the task.
    pub fn create_pod_sandbox_config(&self) -> (c: PodSandboxConfig)
        ensures
            c@ == sandbox_config_view(self.task@),
    {
        let metadata = PodSandboxMetadata {
            name: self.task.metadata.name.clone(),
            namespace: self.task.metadata.namespace.clone(),
            uid: String::from_str("12345"),
            attempt: 0,
        };
        let log_directory = String::from_str("/var/log/pods/").concat(
            self.task.metadata.namespace.as_str(),
        ).concat("_").concat(self.task.metadata.name.as_str()).concat("/");
        let c = PodSandboxConfig {
            metadata,
            hostname: self.task.metadata.name.clone(),
            log_directory,
            port_mappings: build_port_mappings(&self.task.spec.containers),
            labels: clone_pairs(&self.task.metadata.labels),
            annotations: clone_pairs(&self.task.metadata.annotations),
            namespaces: build_pod_namespaces(),
        };
        proof {
            assert(c@ =~= sandbox_config_view(self.task@));
        }
        c
    }

    /// Creates the configuration of one container, joining the sandbox
    /// `pod_sandbox_id`.
    pub fn create_container_config(&self, pod_sandbox_id: &str, container: &ContainerSpec) -> (c:
        ContainerConfig)
        ensures
            c@ == container_config_view(self.task@, pod_sandbox_id@, container@),
    {
        let c = ContainerConfig {
            metadata: ContainerMetadata { name: container.name.clone(), attempt: 0 },
            image: ImageSpec {
                image: container.image.clone(),
                user_specified_image: container.image.clone(),
                annotations: Vec::new(),
                runtime_handler: String::new(),
            },
            command: Vec::new(),
            args: Vec::new(),
            working_dir: String::new(),
            envs: Vec::new(),
            labels: clone_pairs(&self.task.metadata.labels),
            annotations: clone_pairs(&self.task.metadata.annotations),
            log_path: container.name.clone().concat("/0.log"),
            namespaces: build_container_namespaces(pod_sandbox_id),
        };
        proof {
            assert(c@ =~= container_config_view(self.task@, pod_sandbox_id@, container@));
        }
        c
    }

    /// Builds the request that runs the task's pod sandbox.
    pub fn build_run_pod_sandbox_request(&self) -> (r: RunPodSandboxRequest)
        ensures
            r@ == run_pod_sandbox_request_view(self.task@),
    {
        RunPodSandboxRequest {
            config: self.create_pod_sandbox_config(),
            runtime_handler: String::new(),
        }
    }

    /// Builds the request that creates `container` inside the sandbox
    /// `pod_sandbox_id`.
    pub fn build_create_container_request(
        &self,
        pod_sandbox_id: &str,
        container: &ContainerSpec,
    ) -> (r: CreateContainerRequest)
        ensures
            r@ == create_container_request_view(self.task@, pod_sandbox_id@, container@),
    {
        CreateContainerRequest {
            pod_sandbox_id: String::from_str(pod_sandbox_id),
            config: self.create_container_config(pod_sandbox_id, container),
            sandbox_config: self.create_pod_sandbox_config(),
        }
    }

    /// Builds the request that starts the container `container_id`.
    pub fn build_start_container_request(&self, container_id: &str) -> (r: StartContainerRequest)
        ensures
            r@ == start_container_request_view(container_id@),
    {
        StartContainerRequest { container_id: String::from_str(container_id) }
    }
}

/// Determinism of the request builder: two runners whose tasks have the
/// same abstract value map to identical requests, for every sandbox and
/// container identifier.  Together with the builders' contracts, any two
/// calls on such runners return requests with equal abstract values.
pub proof fn lemma_builder_deterministic(
    a: TaskRunner,
    b: TaskRunner,
    sandbox_id: Seq<char>,
    c: ContainerSpecView,
)
    requires
        a.task@ == b.task@,
    ensures
        run_pod_sandbox_request_view(a.task@) == run_pod_sandbox_request_view(b.task@),
        create_container_request_view(a.task@, sandbox_id, c) == create_container_request_view(
            b.task@,
            sandbox_id,
            c,
        ),
{
}

/// Namespace invariant: every sandbox or container configuration the
/// builder produces carries exactly four isolation-namespace entries,
/// covering network, pid, ipc and mount, with no duplicate type; sandbox
/// entries are pod-scoped with no path, container entries join the
/// sandbox's namespace.
pub proof fn lemma_namespace_invariant(t: PodTaskView, sandbox_id: Seq<char>, c: ContainerSpecView)
    ensures
        sandbox_config_view(t).namespaces.len() == 4,
        container_config_view(t, sandbox_id, c).namespaces.len() == 4,
        forall|k: int|
            0 <= k < 4 ==> #[trigger] sandbox_config_view(t).namespaces[k] == (NamespaceEntryView {
                ns_type: namespace_types()[k],
                mode: NamespaceMode::Pod,
                path: Seq::<char>::empty(),
            }),
        forall|k: int|
            0 <= k < 4 ==> #[trigger] container_config_view(t, sandbox_id, c).namespaces[k] == (
            NamespaceEntryView {
                ns_type: namespace_types()[k],
                mode: NamespaceMode::Container,
                path: sandbox_id,
            }),
        forall|k1: int, k2: int|
            0 <= k1 < k2 < 4 ==> #[trigger] namespace_types()[k1] != #[trigger] namespace_types()[k2],
{
    reveal_strlit("network");
    reveal_strlit("pid");
    reveal_strlit("ipc");
    reveal_strlit("mount");
    assert("network"@.len() == 7);
    assert("pid"@.len() == 3);
    assert("ipc"@.len() == 3);
    assert("mount"@.len() == 5);
    assert("pid"@[0] == 'p');
    assert("ipc"@[0] == 'i');
    assert(namespace_types()[0] == "network"@);
    assert(namespace_types()[1] == "pid"@);
    assert(namespace_types()[2] == "ipc"@);
    assert(namespace_types()[3] == "mount"@);
    assert(namespace_types()[0] != namespace_types()[1]);
    assert(namespace_types()[0] != namespace_types()[2]);
    assert(namespace_types()[0] != namespace_types()[3]);
    assert(namespace_types()[1] != namespace_types()[2]);
    assert(namespace_types()[1] != namespace_types()[3]);
    assert(namespace_types()[2] != namespace_types()[3]);
}

} // verus!
