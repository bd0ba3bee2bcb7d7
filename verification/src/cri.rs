//! The three Container-Runtime-Interface request shapes that the runner
//! issues, modeled as plain values.
//!
//! The wire protocol itself is an external collaborator: a transport layer
//! outside this library turns these values into the protocol's messages.
//! Only the fields that the runner actually populates are modeled here;
//! everything the runner leaves unset (DNS configuration, mounts, devices,
//! platform-specific configuration) is filled in with its empty default by
//! the transport layer.

use vstd::prelude::*;

verus! {

/// The transport protocol of a port mapping.  The runner only ever asks
/// for TCP.
#[derive(Debug, Clone, Copy, PartialEq, Eq, Structural)]
pub enum Protocol {
    Tcp,
    Udp,
    Sctp,
}

impl DeepView for Protocol {
    type V = Protocol;

    open spec fn deep_view(&self) -> Protocol {
        *self
    }
}

/// How one isolation namespace of a sandbox or container is scoped.
#[derive(Debug, Clone, Copy, PartialEq, Eq, Structural)]
pub enum NamespaceMode {
    /// Shared within the pod: the sandbox owns the namespace.
    Pod,
    /// Join an existing namespace, named by the entry's path.
    Container,
}

impl DeepView for NamespaceMode {
    type V = NamespaceMode;

    open spec fn deep_view(&self) -> NamespaceMode {
        *self
    }
}

/// One isolation-namespace entry of a sandbox or container configuration.
#[derive(Debug, Clone, PartialEq, Eq)]
pub struct NamespaceEntry {
    /// Which namespace: "network", "pid", "ipc" or "mount".
    pub ns_type: String,
    pub mode: NamespaceMode,
    /// For [`NamespaceMode::Container`], the namespace to join; empty for
    /// [`NamespaceMode::Pod`].
    pub path: String,
}

/// The abstract value of a [`NamespaceEntry`].
#[verifier::ext_equal]
pub struct NamespaceEntryView {
    pub ns_type: Seq<char>,
    pub mode: NamespaceMode,
    pub path: Seq<char>,
}

impl View for NamespaceEntry {
    type V = NamespaceEntryView;

    open spec fn view(&self) -> NamespaceEntryView {
        NamespaceEntryView { ns_type: self.ns_type@, mode: self.mode, path: self.path@ }
    }
}

impl DeepView for NamespaceEntry {
    type V = NamespaceEntryView;

    open spec fn deep_view(&self) -> NamespaceEntryView {
        self.view()
    }
}

/// One entry of the sandbox's port-mapping list.
#[derive(Debug, Clone, PartialEq, Eq)]
pub struct PortMapping {
    pub protocol: Protocol,
    pub container_port: i32,
    /// 0 means "let the runtime choose".
    pub host_port: i32,
    /// Empty means no host IP restriction.
    pub host_ip: String,
}

/// The abstract value of a [`PortMapping`].
#[verifier::ext_equal]
pub struct PortMappingView {
    pub protocol: Protocol,
    pub container_port: i32,
    pub host_port: i32,
    pub host_ip: Seq<char>,
}

impl View for PortMapping {
    type V = PortMappingView;

    open spec fn view(&self) -> PortMappingView {
        PortMappingView {
            protocol: self.protocol,
            container_port: self.container_port,
            host_port: self.host_port,
            host_ip: self.host_ip@,
        }
    }
}

impl DeepView for PortMapping {
    type V = PortMappingView;

    open spec fn deep_view(&self) -> PortMappingView {
        self.view()
    }
}

/// Identifying metadata of a sandbox request.
#[derive(Debug, Clone, PartialEq, Eq)]
pub struct PodSandboxMetadata {
    pub name: String,
    pub namespace: String,
    pub uid: String,
    pub attempt: u32,
}

/// The abstract value of a [`PodSandboxMetadata`].
#[verifier::ext_equal]
pub struct PodSandboxMetadataView {
    pub name: Seq<char>,
    pub namespace: Seq<char>,
    pub uid: Seq<char>,
    pub attempt: u32,
}

impl View for PodSandboxMetadata {
    type V = PodSandboxMetadataView;

    open spec fn view(&self) -> PodSandboxMetadataView {
        PodSandboxMetadataView {
            name: self.name@,
            namespace: self.namespace@,
            uid: self.uid@,
            attempt: self.attempt,
        }
    }
}

impl DeepView for PodSandboxMetadata {
    type V = PodSandboxMetadataView;

    open spec fn deep_view(&self) -> PodSandboxMetadataView {
        self.view()
    }
}

/// The configuration of one pod sandbox.
#[derive(Debug, Clone, PartialEq, Eq)]
pub struct PodSandboxConfig {
    pub metadata: PodSandboxMetadata,
    pub hostname: String,
    pub log_directory: String,
    pub port_mappings: Vec<PortMapping>,
    pub labels: Vec<(String, String)>,
    pub annotations: Vec<(String, String)>,
    /// The sandbox's isolation namespaces, always exactly four entries.
    pub namespaces: Vec<NamespaceEntry>,
}

/// The abstract value of a [`PodSandboxConfig`].
#[verifier::ext_equal]
pub struct PodSandboxConfigView {
    pub metadata: PodSandboxMetadataView,
    pub hostname: Seq<char>,
    pub log_directory: Seq<char>,
    pub port_mappings: Seq<PortMappingView>,
    pub labels: Seq<(Seq<char>, Seq<char>)>,
    pub annotations: Seq<(Seq<char>, Seq<char>)>,
    pub namespaces: Seq<NamespaceEntryView>,
}

impl View for PodSandboxConfig {
    type V = PodSandboxConfigView;

    open spec fn view(&self) -> PodSandboxConfigView {
        PodSandboxConfigView {
            metadata: self.metadata@,
            hostname: self.hostname@,
            log_directory: self.log_directory@,
            port_mappings: self.port_mappings.deep_view(),
            labels: self.labels.deep_view(),
            annotations: self.annotations.deep_view(),
            namespaces: self.namespaces.deep_view(),
        }
    }
}

impl DeepView for PodSandboxConfig {
    type V = PodSandboxConfigView;

    open spec fn deep_view(&self) -> PodSandboxConfigView {
        self.view()
    }
}

/// Identifying metadata of a container request.
#[derive(Debug, Clone, PartialEq, Eq)]
pub struct ContainerMetadata {
    pub name: String,
    pub attempt: u32,
}

/// The abstract value of a [`ContainerMetadata`].
#[verifier::ext_equal]
pub struct ContainerMetadataView {
    pub name: Seq<char>,
    pub attempt: u32,
}

impl View for ContainerMetadata {
    type V = ContainerMetadataView;

    open spec fn view(&self) -> ContainerMetadataView {
        ContainerMetadataView { name: self.name@, attempt: self.attempt }
    }
}

impl DeepView for ContainerMetadata {
    type V = ContainerMetadataView;

    open spec fn deep_view(&self) -> ContainerMetadataView {
        self.view()
    }
}

/// The image a container is created from.
#[derive(Debug, Clone, PartialEq, Eq)]
pub struct ImageSpec {
    pub image: String,
    pub user_specified_image: String,
    /// Always empty: no per-image annotations are in scope.
    pub annotations: Vec<(String, String)>,
    /// Always empty: no runtime handler is selected.
    pub runtime_handler: String,
}

/// The abstract value of an [`ImageSpec`].
#[verifier::ext_equal]
pub struct ImageSpecView {
    pub image: Seq<char>,
    pub user_specified_image: Seq<char>,
    pub annotations: Seq<(Seq<char>, Seq<char>)>,
    pub runtime_handler: Seq<char>,
}

impl View for ImageSpec {
    type V = ImageSpecView;

    open spec fn view(&self) -> ImageSpecView {
        ImageSpecView {
            image: self.image@,
            user_specified_image: self.user_specified_image@,
            annotations: self.annotations.deep_view(),
            runtime_handler: self.runtime_handler@,
        }
    }
}

impl DeepView for ImageSpec {
    type V = ImageSpecView;

    open spec fn deep_view(&self) -> ImageSpecView {
        self.view()
    }
}

/// The configuration of one container.
///
/// Command, arguments, working directory and environment are always left
/// empty: the manifest format in scope does not express them.
#[derive(Debug, Clone, PartialEq, Eq)]
pub struct ContainerConfig {
    pub metadata: ContainerMetadata,
    pub image: ImageSpec,
    pub command: Vec<String>,
    pub args: Vec<String>,
    pub working_dir: String,
    pub envs: Vec<(String, String)>,
    pub labels: Vec<(String, String)>,
    pub annotations: Vec<(String, String)>,
    pub log_path: String,
    /// The container's isolation namespaces, always exactly four entries,
    /// each joining the pod sandbox's namespace.
    pub namespaces: Vec<NamespaceEntry>,
}

/// The abstract value of a [`ContainerConfig`].
#[verifier::ext_equal]
pub struct ContainerConfigView {
    pub metadata: ContainerMetadataView,
    pub image: ImageSpecView,
    pub command: Seq<Seq<char>>,
    pub args: Seq<Seq<char>>,
    pub working_dir: Seq<char>,
    pub envs: Seq<(Seq<char>, Seq<char>)>,
    pub labels: Seq<(Seq<char>, Seq<char>)>,
    pub annotations: Seq<(Seq<char>, Seq<char>)>,
    pub log_path: Seq<char>,
    pub namespaces: Seq<NamespaceEntryView>,
}

impl View for ContainerConfig {
    type V = ContainerConfigView;

    open spec fn view(&self) -> ContainerConfigView {
        ContainerConfigView {
            metadata: self.metadata@,
            image: self.image@,
            command: self.command.deep_view(),
            args: self.args.deep_view(),
            working_dir: self.working_dir@,
            envs: self.envs.deep_view(),
            labels: self.labels.deep_view(),
            annotations: self.annotations.deep_view(),
            log_path: self.log_path@,
            namespaces: self.namespaces.deep_view(),
        }
    }
}

impl DeepView for ContainerConfig {
    type V = ContainerConfigView;

    open spec fn deep_view(&self) -> ContainerConfigView {
        self.view()
    }
}

/// The request that asks the runtime service to run one pod sandbox.
#[derive(Debug, Clone, PartialEq, Eq)]
pub struct RunPodSandboxRequest {
    pub config: PodSandboxConfig,
    /// Always empty: no runtime handler is selected.
    pub runtime_handler: String,
}

/// The abstract value of a [`RunPodSandboxRequest`].
#[verifier::ext_equal]
pub struct RunPodSandboxRequestView {
    pub config: PodSandboxConfigView,
    pub runtime_handler: Seq<char>,
}

impl View for RunPodSandboxRequest {
    type V = RunPodSandboxRequestView;

    open spec fn view(&self) -> RunPodSandboxRequestView {
        RunPodSandboxRequestView { config: self.config@, runtime_handler: self.runtime_handler@ }
    }
}

impl DeepView for RunPodSandboxRequest {
    type V = RunPodSandboxRequestView;

    open spec fn deep_view(&self) -> RunPodSandboxRequestView {
        self.view()
    }
}

/// The request that asks the runtime service to create one container
/// inside an already-running sandbox.
#[derive(Debug, Clone, PartialEq, Eq)]
pub struct CreateContainerRequest {
    pub pod_sandbox_id: String,
    pub config: ContainerConfig,
    pub sandbox_config: PodSandboxConfig,
}

/// The abstract value of a [`CreateContainerRequest`].
#[verifier::ext_equal]
pub struct CreateContainerRequestView {
    pub pod_sandbox_id: Seq<char>,
    pub config: ContainerConfigView,
    pub sandbox_config: PodSandboxConfigView,
}

impl View for CreateContainerRequest {
    type V = CreateContainerRequestView;

    open spec fn view(&self) -> CreateContainerRequestView {
        CreateContainerRequestView {
            pod_sandbox_id: self.pod_sandbox_id@,
            config: self.config@,
            sandbox_config: self.sandbox_config@,
        }
    }
}

impl DeepView for CreateContainerRequest {
    type V = CreateContainerRequestView;

    open spec fn deep_view(&self) -> CreateContainerRequestView {
        self.view()
    }
}

/// The request that asks the runtime service to start one created
/// container.
#[derive(Debug, Clone, PartialEq, Eq)]
pub struct StartContainerRequest {
    pub container_id: String,
}

/// The abstract value of a [`StartContainerRequest`].
#[verifier::ext_equal]
pub struct StartContainerRequestView {
    pub container_id: Seq<char>,
}

impl View for StartContainerRequest {
    type V = StartContainerRequestView;

    open spec fn view(&self) -> StartContainerRequestView {
        StartContainerRequestView { container_id: self.container_id@ }
    }
}

impl DeepView for StartContainerRequest {
    type V = StartContainerRequestView;

    open spec fn deep_view(&self) -> StartContainerRequestView {
        self.view()
    }
}

} // verus!
