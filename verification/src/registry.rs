//! Registry lifecycle: the fixed identity of the ephemeral registry
//! container and the decisions taken on the engine's reports.
//!
//! The engine itself (create/start/stop/remove of containers) is an outside
//! capability driven by the unverified shell; this module pins the exact
//! request the pipeline makes and how each engine report is interpreted.

use vstd::prelude::*;
use vstd::string::StringExecFns;
use crate::errors::{PipelineError, RegistryFault};

verus! {

/// The ephemeral registry's address as seen from the host: a fixed host
/// and a fixed port.  This is both the push destination and the entry the
/// trust-configuration mutator adds and later removes.
pub open spec fn registry_addr_spec() -> Seq<char> {
    "localhost:6000"@
}

/// Executable form of [`registry_addr_spec`].
pub fn registry_addr() -> (r: String)
    ensures
        r@ == registry_addr_spec(),
{
    String::from_str("localhost:6000")
}

/// The fixed, well-known name of the registry container.
pub open spec fn registry_name_spec() -> Seq<char> {
    "registry"@
}

/// Executable form of [`registry_name_spec`].
pub fn registry_name() -> (r: String)
    ensures
        r@ == registry_name_spec(),
{
    String::from_str("registry")
}

/// How often the engine may retry a crashing registry container before
/// giving up; bounded so a persistently failing registry does not spin
/// forever.
pub const REGISTRY_MAX_RETRIES: u64 = 3;

/// The create-container request for the ephemeral registry, as plain
/// values.  The unverified shell translates it one-for-one into the
/// engine's request type.
pub struct RegistryRequest {
    /// Container name; fixed, so a second run is a detected conflict.
    pub name: String,
    /// Image the container runs.
    pub image: String,
    /// Container-side port being exposed.
    pub container_port: String,
    /// Host interface the port is bound to.
    pub host_ip: String,
    /// Host-side port of the registry.
    pub host_port: String,
    /// The restart policy kind: retry on failure only, never
    /// indefinitely.
    pub restart_kind: String,
    /// Bound on the engine's restart retries.
    pub max_retries: u64,
    /// Platform the container is created for.
    pub platform: String,
}

/// The one request this pipeline ever makes: every field fixed.
pub open spec fn registry_request_wf(r: RegistryRequest) -> bool {
    &&& r.name@ == registry_name_spec()
    &&& r.image@ == "registry:2"@
    &&& r.container_port@ == "5000/tcp"@
    &&& r.host_ip@ == "localhost"@
    &&& r.host_port@ == "6000"@
    &&& r.restart_kind@ == "on-failure"@
    &&& r.max_retries == REGISTRY_MAX_RETRIES
    &&& r.platform@ == "linux/arm64"@
}

/// Builds the fixed create-container request.
pub fn registry_request() -> (r: RegistryRequest)
    ensures
        registry_request_wf(r),
{
    RegistryRequest {
        name: registry_name(),
        image: String::from_str("registry:2"),
        container_port: String::from_str("5000/tcp"),
        host_ip: String::from_str("localhost"),
        host_port: String::from_str("6000"),
        restart_kind: String::from_str("on-failure"),
        max_retries: REGISTRY_MAX_RETRIES,
        platform: String::from_str("linux/arm64"),
    }
}

/// What the engine reported for one container-lifecycle request.
pub enum EngineReport {
    /// The request succeeded.
    Done,
    /// The create was refused because the container name is already in use.
    NameInUse,
    /// Any other engine-side failure, with the engine's message verbatim.
    Failed(String),
}

/// Identity of the one running ephemeral registry container.
pub struct RegistryHandle {
    /// The container's name, always the fixed well-known one.
    pub name: String,
}

/// A handle always names the fixed container.
pub open spec fn handle_wf(h: RegistryHandle) -> bool {
    h.name@ == registry_name_spec()
}

/// Decides the outcome of the start step from the engine's report on the
/// create request.  A name conflict is reported, never silently resolved:
/// the existing container is neither adopted nor destroyed.
pub fn interpret_create(report: EngineReport) -> (r: Result<RegistryHandle, PipelineError>)
    ensures
        match report {
            EngineReport::Done => r matches Ok(h) && handle_wf(h),
            EngineReport::NameInUse => r == Err::<RegistryHandle, PipelineError>(
                PipelineError::RegistryLifecycle(RegistryFault::NameConflict),
            ),
            EngineReport::Failed(m) => r matches Err(e)
                && (e matches PipelineError::RegistryLifecycle(f)
                    && (f matches RegistryFault::Engine(m2) && m2@ == m@)),
        },
{
    match report {
        EngineReport::Done => Ok(RegistryHandle { name: registry_name() }),
        EngineReport::NameInUse => Err(PipelineError::RegistryLifecycle(RegistryFault::NameConflict)),
        EngineReport::Failed(m) => Err(PipelineError::RegistryLifecycle(RegistryFault::Engine(m))),
    }
}

/// Decides the outcome of a start, stop or remove request from the
/// engine's report.  These requests address an existing container, so a
/// name conflict cannot arise; an engine failure is surfaced verbatim.
pub fn interpret_lifecycle(report: EngineReport) -> (r: Result<(), PipelineError>)
    ensures
        match report {
            EngineReport::Done => r is Ok,
            EngineReport::NameInUse => r == Err::<(), PipelineError>(
                PipelineError::RegistryLifecycle(RegistryFault::NameConflict),
            ),
            EngineReport::Failed(m) => r matches Err(e)
                && (e matches PipelineError::RegistryLifecycle(f)
                    && (f matches RegistryFault::Engine(m2) && m2@ == m@)),
        },
{
    match report {
        EngineReport::Done => Ok(()),
        EngineReport::NameInUse => Err(PipelineError::RegistryLifecycle(RegistryFault::NameConflict)),
        EngineReport::Failed(m) => Err(PipelineError::RegistryLifecycle(RegistryFault::Engine(m))),
    }
}

} // verus!
