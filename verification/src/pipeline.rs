//! Pipeline orchestrator: the state machine sequencing the run.
//!
//! Each stage is issued and awaited to completion before the next begins;
//! the unverified shell performs the stage's outside work and reports its
//! outcome to [`Pipeline::step`].  The machine owns the rollback
//! contract: the registry teardown and the trust-configuration revert are
//! owed by every exit route, success or failure, so the host is never
//! left half-configured; the first failure is kept verbatim, with its
//! stage identity in the error itself, and later cleanup failures do not
//! displace it.

use vstd::prelude::*;
use crate::errors::PipelineError;
use crate::errors::RegistryFault;

verus! {

/// The stages of one run, in issue order, plus the two terminal states.
#[derive(Debug, Clone, Copy, PartialEq, Eq, Structural)]
pub enum Stage {
    /// Merge the trust entry into the host configuration.
    ApplyConfig,
    /// Restart the engine and wait for readiness, so it picks the
    /// mutation up; strictly before any push attempt.
    RestartEngineOn,
    /// Create and start the ephemeral registry container.
    StartRegistry,
    /// Pack the context, build, tag and push the image.
    BuildPush,
    /// Stop and remove the registry container (owed even on failure).
    StopRegistry,
    /// Remove the trust entry again (owed even on failure).
    RevertConfig,
    /// Restart the engine so it drops the reverted trust entry.
    RestartEngineOff,
    /// Open the authenticated remote-shell session.
    Connect,
    /// Execute the one remote command, streaming its output.
    Exec,
    /// Close the session gracefully.
    Close,
    /// The run completed.
    Done,
    /// The run failed; cleanup owed by completed stages was attempted.
    Failed,
}

/// The orchestrator's state.
pub struct Pipeline {
    /// The stage being run next, or a terminal state.
    pub stage: Stage,
    /// The trust-configuration mutation was applied and its revert is
    /// still owed.
    pub config_owed: bool,
    /// The registry container's start was attempted (other than hitting
    /// a name conflict) and its teardown is still owed.
    pub registry_owed: bool,
    /// The first stage failure, kept verbatim.
    pub failure: Option<PipelineError>,
}

/// What holds of every reachable pipeline state: the owed-cleanup flags
/// match the stage; the publish stage runs only with the trust mutation
/// applied and the registry started; nothing is owed past the cleanup
/// stages — in particular not in a terminal state; and a terminal state
/// carries a failure exactly when the run failed.
pub open spec fn wf(p: Pipeline) -> bool {
    &&& (p.stage is ApplyConfig ==> !p.config_owed && !p.registry_owed && p.failure is None)
    &&& (p.stage is RestartEngineOn ==> p.config_owed && !p.registry_owed && p.failure is None)
    &&& (p.stage is StartRegistry ==> p.config_owed && !p.registry_owed && p.failure is None)
    &&& (p.stage is BuildPush ==> p.config_owed && p.registry_owed && p.failure is None)
    &&& (p.stage is StopRegistry ==> p.config_owed && p.registry_owed)
    &&& (p.stage is RevertConfig ==> p.config_owed && !p.registry_owed)
    &&& (p.stage is RestartEngineOff ==> !p.config_owed && !p.registry_owed)
    &&& (p.stage is Connect ==> !p.config_owed && !p.registry_owed && p.failure is None)
    &&& (p.stage is Exec ==> !p.config_owed && !p.registry_owed && p.failure is None)
    &&& (p.stage is Close ==> !p.config_owed && !p.registry_owed && p.failure is None)
    &&& (p.stage is Done ==> !p.config_owed && !p.registry_owed && p.failure is None)
    &&& (p.stage is Failed ==> !p.config_owed && !p.registry_owed && p.failure is Some)
}

/// The start attempt hit the name conflict: the existing container is
/// someone else's and is neither adopted nor destroyed.
pub open spec fn is_name_conflict(outcome: Result<(), PipelineError>) -> bool {
    outcome matches Err(PipelineError::RegistryLifecycle(RegistryFault::NameConflict))
}

/// The failure kept after a stage outcome: the first one wins.
pub open spec fn kept_failure(p: Pipeline, outcome: Result<(), PipelineError>) -> Option<
    PipelineError,
> {
    match outcome {
        Ok(_) => p.failure,
        Err(e) => if p.failure is Some {
            p.failure
        } else {
            Some(e)
        },
    }
}

/// The transition relation: where one stage outcome takes the pipeline.
/// On a failure before the cleanup stages the machine does not stop; it
/// turns onto the cleanup route owed by the stages already completed.
pub open spec fn spec_step(p: Pipeline, outcome: Result<(), PipelineError>) -> Pipeline {
    let ok = outcome is Ok;
    let failure = kept_failure(p, outcome);
    match p.stage {
        Stage::ApplyConfig => if ok {
            Pipeline { stage: Stage::RestartEngineOn, config_owed: true, ..p }
        } else {
            // nothing applied, nothing started: fail outright
            Pipeline { stage: Stage::Failed, failure, ..p }
        },
        Stage::RestartEngineOn => if ok {
            Pipeline { stage: Stage::StartRegistry, ..p }
        } else {
            Pipeline { stage: Stage::RevertConfig, failure, ..p }
        },
        // teardown is owed from the moment the start is attempted: a
        // create may have succeeded even when the start then failed, and
        // a left-over container would conflict with the next run's name.
        // A name conflict is the one exception: nothing of this run's was
        // created, and the existing container must not be destroyed.
        Stage::StartRegistry => if ok {
            Pipeline { stage: Stage::BuildPush, registry_owed: true, ..p }
        } else if is_name_conflict(outcome) {
            Pipeline { stage: Stage::RevertConfig, failure, ..p }
        } else {
            Pipeline { stage: Stage::StopRegistry, registry_owed: true, failure, ..p }
        },
        Stage::BuildPush => Pipeline { stage: Stage::StopRegistry, failure, ..p },
        Stage::StopRegistry => Pipeline {
            stage: Stage::RevertConfig,
            registry_owed: false,
            failure,
            ..p
        },
        Stage::RevertConfig => Pipeline {
            stage: Stage::RestartEngineOff,
            config_owed: false,
            failure,
            ..p
        },
        Stage::RestartEngineOff => if failure is Some {
            Pipeline { stage: Stage::Failed, failure, ..p }
        } else {
            Pipeline { stage: Stage::Connect, ..p }
        },
        Stage::Connect => if ok {
            Pipeline { stage: Stage::Exec, ..p }
        } else {
            Pipeline { stage: Stage::Failed, failure, ..p }
        },
        Stage::Exec => if ok {
            Pipeline { stage: Stage::Close, ..p }
        } else {
            Pipeline { stage: Stage::Failed, failure, ..p }
        },
        Stage::Close => if ok {
            Pipeline { stage: Stage::Done, ..p }
        } else {
            Pipeline { stage: Stage::Failed, failure, ..p }
        },
        Stage::Done => p,
        Stage::Failed => p,
    }
}

impl Pipeline {
    /// A fresh run: at the first stage, nothing owed, nothing failed.
    pub fn new() -> (p: Pipeline)
        ensures
            p.stage is ApplyConfig,
            !p.config_owed,
            !p.registry_owed,
            p.failure is None,
            wf(p),
    {
        Pipeline {
            stage: Stage::ApplyConfig,
            config_owed: false,
            registry_owed: false,
            failure: None,
        }
    }

    /// Feeds the outcome of the current stage and moves to the next one,
    /// exactly as [`spec_step`] says.
    pub fn step(&mut self, outcome: Result<(), PipelineError>)
        requires
            wf(*old(self)),
        ensures
            *final(self) == spec_step(*old(self), outcome),
            wf(*final(self)),
    {
        match self.stage {
            Stage::Done => {
                return ;
            },
            Stage::Failed => {
                return ;
            },
            _ => {},
        }
        let ok = outcome.is_ok();
        let name_conflict = match &outcome {
            Err(PipelineError::RegistryLifecycle(RegistryFault::NameConflict)) => true,
            _ => false,
        };
        let failure_is_some = self.failure.is_some();
        let err: Option<PipelineError> = match outcome {
            Ok(_) => None,
            Err(e) => Some(e),
        };
        if !ok && !failure_is_some {
            self.failure = err;
        }
        match self.stage {
            Stage::ApplyConfig => {
                if ok {
                    self.config_owed = true;
                    self.stage = Stage::RestartEngineOn;
                } else {
                    self.stage = Stage::Failed;
                }
            },
            Stage::RestartEngineOn => {
                if ok {
                    self.stage = Stage::StartRegistry;
                } else {
                    self.stage = Stage::RevertConfig;
                }
            },
            Stage::StartRegistry => {
                if ok {
                    self.registry_owed = true;
                    self.stage = Stage::BuildPush;
                } else if name_conflict {
                    self.stage = Stage::RevertConfig;
                } else {
                    self.registry_owed = true;
                    self.stage = Stage::StopRegistry;
                }
            },
            Stage::BuildPush => {
                self.stage = Stage::StopRegistry;
            },
            Stage::StopRegistry => {
                self.registry_owed = false;
                self.stage = Stage::RevertConfig;
            },
            Stage::RevertConfig => {
                self.config_owed = false;
                self.stage = Stage::RestartEngineOff;
            },
            Stage::RestartEngineOff => {
                if self.failure.is_some() {
                    self.stage = Stage::Failed;
                } else {
                    self.stage = Stage::Connect;
                }
            },
            Stage::Connect => {
                if ok {
                    self.stage = Stage::Exec;
                } else {
                    self.stage = Stage::Failed;
                }
            },
            Stage::Exec => {
                if ok {
                    self.stage = Stage::Close;
                } else {
                    self.stage = Stage::Failed;
                }
            },
            Stage::Close => {
                if ok {
                    self.stage = Stage::Done;
                } else {
                    self.stage = Stage::Failed;
                }
            },
            Stage::Done => {},
            Stage::Failed => {},
        }
    }

    /// True in the two terminal states.
    pub fn is_terminal(&self) -> (r: bool)
        ensures
            r == (self.stage is Done || self.stage is Failed),
    {
        match self.stage {
            Stage::Done => true,
            Stage::Failed => true,
            _ => false,
        }
    }
}

/// Law: the transition relation preserves well-formedness — so, by
/// induction from [`Pipeline::new`], every reachable state satisfies it:
/// the publish stage runs only after the trust mutation is applied and
/// the registry started, no terminal state owes any cleanup, and a run
/// ends failed exactly when some stage failure was recorded.
pub proof fn lemma_step_preserves_wf(p: Pipeline, outcome: Result<(), PipelineError>)
    requires
        wf(p),
    ensures
        wf(spec_step(p, outcome)),
{
}

/// Law: the first failure is never displaced — once a failure is
/// recorded, every later step carries it through unchanged.
pub proof fn lemma_first_failure_kept(p: Pipeline, outcome: Result<(), PipelineError>)
    requires
        p.failure is Some,
    ensures
        spec_step(p, outcome).failure == p.failure,
{
}

} // verus!
