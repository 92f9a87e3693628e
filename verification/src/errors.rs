//! The pipeline's error taxonomy.
//!
//! Every stage failure is reported through [`PipelineError`], carrying the
//! stage identity and, where one exists, the underlying message, so a run
//! can be diagnosed without re-running it.

use vstd::prelude::*;

verus! {

/// What went wrong while managing the ephemeral registry container.
#[derive(Debug, Clone)]
pub enum RegistryFault {
    /// The fixed container name is already in use by an existing container.
    /// The existing container is neither adopted nor destroyed.
    NameConflict,
    /// The engine reported a failure while creating, starting, stopping or
    /// removing the container; the engine's message is kept verbatim.
    Engine(String),
}

/// One error kind per pipeline stage that can fail.
#[derive(Debug, Clone)]
pub enum PipelineError {
    /// The trust-configuration document could not be read or written.
    ConfigIo(String),
    /// The container engine could not be reached, or the requested access
    /// mode is not one of the recognized ones.
    EngineConnection(String),
    /// The image build failed; the engine's message is kept verbatim.
    Build(String),
    /// A push event carried an error field; its message is kept verbatim.
    Push(String),
    /// The ephemeral registry container could not be managed.
    RegistryLifecycle(RegistryFault),
    /// The remote shell rejected the supplied credentials.  Distinct from
    /// a transport-level failure.
    Authentication,
    /// The remote-shell connection or handshake failed.
    Transport(String),
    /// The execution channel closed without ever reporting an exit status.
    RemoteExecution,
}

impl PipelineError {
    /// True of the errors of the remote-session stages (connect,
    /// execute, close), which run only after the host cleanup stages are
    /// already done.
    pub fn is_remote_stage(&self) -> (r: bool)
        ensures
            r == (self is Authentication || self is Transport || self is RemoteExecution),
    {
        match self {
            PipelineError::Authentication => true,
            PipelineError::Transport(_) => true,
            PipelineError::RemoteExecution => true,
            _ => false,
        }
    }
}

} // verus!
