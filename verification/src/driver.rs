//! The orchestration driver: a state machine that sequences one run of a
//! task, from nonexistent pod to all containers running.
//!
//! The driver itself performs no RPC.  A caller asks it what to issue
//! next, performs the call over whatever transport it has, and hands the
//! response back; the driver decides the next step.  Exactly one request
//! is outstanding at a time, and the contracts pin the order: the sandbox
//! request first, then, per container in manifest order, a create
//! followed by the matching start.  Any failure is terminal for the run;
//! identifiers already obtained stay available to the caller, which may
//! decide on cleanup.  Init containers are parsed but never scheduled:
//! that is a deliberate scope limit, not an oversight.

use vstd::prelude::*;
use vstd::pervasive::unreached;

use crate::builder::{
    create_container_request_view, run_pod_sandbox_request_view, start_container_request_view,
    TaskRunner,
};
use crate::cri::{CreateContainerRequest, RunPodSandboxRequest, StartContainerRequest};
use crate::errors::RpcError;

verus! {

/// Where one run stands.
#[derive(Debug, Clone, Copy, PartialEq, Eq, Structural)]
pub enum RunPhase {
    /// Nothing has been issued yet.
    Idle,
    /// The sandbox request is outstanding.
    SandboxRequested,
    /// A create-container request is outstanding.
    ContainerRequested,
    /// The latest create succeeded; the matching start request is
    /// outstanding.
    ContainerCreated,
    /// Terminal success: every container of the manifest is started.
    AllStarted,
    /// Terminal failure: an RPC was rejected or failed.
    Failed,
}

/// The runtime service's response to the outstanding request.
#[derive(Debug, Clone, PartialEq, Eq)]
pub enum RpcResponse {
    /// RunPodSandbox succeeded, returning the sandbox identifier.
    SandboxOk(String),
    /// CreateContainer succeeded, returning the container identifier.
    ContainerOk(String),
    /// StartContainer succeeded.
    StartOk,
    /// The outstanding request failed.
    Failed(RpcError),
}

/// What the driver asks its caller to do next.
#[derive(Debug)]
pub enum RunAction {
    /// Issue this create-container request.
    CreateContainer(CreateContainerRequest),
    /// Issue this start-container request.
    StartContainer(StartContainerRequest),
    /// Terminal success: stop issuing requests.
    Finished,
    /// Terminal failure: stop issuing requests.
    Aborted,
}

/// One run's driver: the task, the phase, and the identifiers the
/// runtime service has assigned so far.
pub struct RunDriver {
    pub runner: TaskRunner,
    pub phase: RunPhase,
    /// The sandbox identifier, once RunPodSandbox has succeeded.
    pub sandbox_id: Option<String>,
    /// The identifiers of the containers started so far, in manifest
    /// order.
    pub started: Vec<String>,
    /// The identifier returned by the latest create, until its start
    /// succeeds.
    pub pending: Option<String>,
    /// The failure that ended the run, if one did.
    pub failure: Option<RpcError>,
}

impl RunDriver {
    /// How many containers the manifest declares.
    pub open spec fn container_count(self) -> nat {
        self.runner.task@.spec.containers.len()
    }

    /// The driver's invariant: the bookkeeping always matches the phase.
    ///
    /// In particular a sandbox identifier is held in every phase that may
    /// issue a container request, and a terminal success has started
    /// exactly the declared containers.
    pub open spec fn wf(self) -> bool {
        &&& self.started@.len() <= self.container_count()
        &&& (self.phase == RunPhase::Idle || self.phase == RunPhase::SandboxRequested) ==> {
            &&& self.sandbox_id is None
            &&& self.started@.len() == 0
            &&& self.pending is None
        }
        &&& (self.phase == RunPhase::ContainerRequested || self.phase == RunPhase::ContainerCreated
            || self.phase == RunPhase::AllStarted) ==> self.sandbox_id is Some
        &&& self.phase == RunPhase::ContainerRequested ==> {
            &&& self.pending is None
            &&& self.started@.len() < self.container_count()
        }
        &&& self.phase == RunPhase::ContainerCreated ==> {
            &&& self.pending is Some
            &&& self.started@.len() < self.container_count()
        }
        &&& self.phase == RunPhase::AllStarted ==> {
            &&& self.started@.len() == self.container_count()
            &&& self.pending is None
        }
        &&& self.phase == RunPhase::Failed ==> self.failure is Some
        &&& self.phase != RunPhase::Failed ==> self.failure is None
    }

    /// Makes the driver of one run, not yet begun.
    pub fn new(runner: TaskRunner) -> (d: RunDriver)
        ensures
            d.runner == runner,
            d.phase == RunPhase::Idle,
            d.sandbox_id is None,
            d.started@.len() == 0,
            d.pending is None,
            d.failure is None,
            d.wf(),
    {
        RunDriver {
            runner,
            phase: RunPhase::Idle,
            sandbox_id: None,
            started: Vec::new(),
            pending: None,
            failure: None,
        }
    }

    /// Begins the run: issues the sandbox request.  No container request
    /// can be produced before this request's successful response.
    pub fn begin(&mut self) -> (req: RunPodSandboxRequest)
        requires
            old(self).wf(),
            old(self).phase == RunPhase::Idle,
        ensures
            final(self).wf(),
            final(self).phase == RunPhase::SandboxRequested,
            final(self).runner == old(self).runner,
            final(self).sandbox_id is None,
            final(self).started@.len() == 0,
            final(self).pending is None,
            final(self).failure is None,
            req@ == run_pod_sandbox_request_view(final(self).runner.task@),
    {
        let req = self.runner.build_run_pod_sandbox_request();
        self.phase = RunPhase::SandboxRequested;
        req
    }

    /// Advances the run by one response and says what to issue next.
    ///
    /// A failure response is terminal from any phase: the run moves to
    /// `Failed`, keeps every identifier already obtained, and abandons
    /// the remaining containers.  A create-container request only ever
    /// comes out of a successful sandbox response or a successful start
    /// response, scoped to the sandbox identifier; a start request only
    /// out of the matching create's response.
    pub fn step(&mut self, resp: RpcResponse) -> (action: RunAction)
        requires
            old(self).wf(),
            old(self).phase == RunPhase::SandboxRequested || old(self).phase
                == RunPhase::ContainerRequested || old(self).phase == RunPhase::ContainerCreated,
            old(self).phase == RunPhase::SandboxRequested ==> (resp matches RpcResponse::SandboxOk(
                _,
            ) || resp matches RpcResponse::Failed(_)),
            old(self).phase == RunPhase::ContainerRequested ==> (resp
                matches RpcResponse::ContainerOk(_) || resp matches RpcResponse::Failed(_)),
            old(self).phase == RunPhase::ContainerCreated ==> (resp matches RpcResponse::StartOk
                || resp matches RpcResponse::Failed(_)),
        ensures
            final(self).wf(),
            final(self).runner == old(self).runner,
            resp matches RpcResponse::Failed(e) ==> {
                &&& final(self).phase == RunPhase::Failed
                &&& final(self).failure == Some(e)
                &&& final(self).sandbox_id == old(self).sandbox_id
                &&& final(self).started == old(self).started
                &&& action matches RunAction::Aborted
            },
            old(self).phase == RunPhase::SandboxRequested ==> (resp matches RpcResponse::SandboxOk(
                sid,
            ) ==> {
                &&& final(self).sandbox_id == Some(sid)
                &&& final(self).started@.len() == 0
                &&& final(self).failure is None
                &&& if old(self).container_count() == 0 {
                    final(self).phase == RunPhase::AllStarted && action matches RunAction::Finished
                } else {
                    &&& final(self).phase == RunPhase::ContainerRequested
                    &&& action matches RunAction::CreateContainer(req) && req@
                        == create_container_request_view(
                        final(self).runner.task@,
                        sid@,
                        final(self).runner.task@.spec.containers[0],
                    )
                }
            }),
            old(self).phase == RunPhase::ContainerRequested ==> (resp
                matches RpcResponse::ContainerOk(cid) ==> {
                &&& final(self).phase == RunPhase::ContainerCreated
                &&& final(self).pending == Some(cid)
                &&& final(self).sandbox_id == old(self).sandbox_id
                &&& final(self).started == old(self).started
                &&& final(self).failure is None
                &&& action matches RunAction::StartContainer(req) && req@
                    == start_container_request_view(cid@)
            }),
            (old(self).phase == RunPhase::ContainerCreated && resp matches RpcResponse::StartOk)
                ==> {
                &&& old(self).pending matches Some(cid) && {
                    &&& final(self).started@ == old(self).started@.push(cid)
                    &&& final(self).sandbox_id == old(self).sandbox_id
                    &&& final(self).pending is None
                    &&& final(self).failure is None
                    &&& if final(self).started@.len() == old(self).container_count() {
                        final(self).phase == RunPhase::AllStarted && action
                            matches RunAction::Finished
                    } else {
                        &&& final(self).phase == RunPhase::ContainerRequested
                        &&& old(self).sandbox_id matches Some(sid)
                        &&& action matches RunAction::CreateContainer(req) && req@
                            == create_container_request_view(
                            final(self).runner.task@,
                            sid@,
                            final(self).runner.task@.spec.containers[old(self).started@.len() + 1int],
                        )
                    }
                }
            },
    {
        match resp {
            RpcResponse::Failed(e) => {
                self.phase = RunPhase::Failed;
                self.failure = Some(e);
                RunAction::Aborted
            },
            RpcResponse::SandboxOk(sid) => {
                if self.runner.task.spec.containers.len() == 0 {
                    self.sandbox_id = Some(sid);
                    self.phase = RunPhase::AllStarted;
                    RunAction::Finished
                } else {
                    let req = self.runner.build_create_container_request(
                        sid.as_str(),
                        &self.runner.task.spec.containers[0],
                    );
                    self.sandbox_id = Some(sid);
                    self.phase = RunPhase::ContainerRequested;
                    RunAction::CreateContainer(req)
                }
            },
            RpcResponse::ContainerOk(cid) => {
                let req = self.runner.build_start_container_request(cid.as_str());
                self.pending = Some(cid);
                self.phase = RunPhase::ContainerCreated;
                RunAction::StartContainer(req)
            },
            RpcResponse::StartOk => {
                let cid = match self.pending.take() {
                    Some(c) => c,
                    None => unreached(),
                };
                self.started.push(cid);
                if self.started.len() == self.runner.task.spec.containers.len() {
                    self.phase = RunPhase::AllStarted;
                    RunAction::Finished
                } else {
                    let k = self.started.len();
                    let req = match &self.sandbox_id {
                        Some(s) => self.runner.build_create_container_request(
                            s.as_str(),
                            &self.runner.task.spec.containers[k],
                        ),
                        None => unreached(),
                    };
                    self.phase = RunPhase::ContainerRequested;
                    RunAction::CreateContainer(req)
                }
            },
        }
    }
}

/// Ordering invariant: in every reachable driver state, any phase that
/// may issue a container request already holds the sandbox identifier
/// that only a successful RunPodSandbox response provides, and a start
/// request is only pending while the identifier of the container just
/// created is held.  Before that response, no container has been
/// started and no sandbox identifier exists.
pub proof fn lemma_ordering_invariant(d: RunDriver)
    requires
        d.wf(),
    ensures
        (d.phase == RunPhase::ContainerRequested || d.phase == RunPhase::ContainerCreated
            || d.phase == RunPhase::AllStarted) ==> d.sandbox_id is Some,
        d.phase == RunPhase::ContainerCreated ==> d.pending is Some,
        (d.phase == RunPhase::Idle || d.phase == RunPhase::SandboxRequested) ==> (d.sandbox_id
            is None && d.started@.len() == 0),
{
}

/// Cardinality invariant: a run that reaches `AllStarted` has started
/// exactly one container per container spec of the manifest, and a run
/// that has not failed never starts more than the manifest declares.
pub proof fn lemma_cardinality_invariant(d: RunDriver)
    requires
        d.wf(),
    ensures
        d.phase == RunPhase::AllStarted ==> d.started@.len() == d.container_count(),
        d.started@.len() <= d.container_count(),
{
}

} // verus!
