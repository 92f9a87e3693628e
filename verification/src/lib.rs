//! A single-shot deployment pipeline library.
//!
//! The pipeline builds a container image from a local build context,
//! publishes it through an ephemeral local registry, and then executes a
//! remote command over an authenticated shell session.  This crate holds
//! the verified core: the build-context archiver, the trust-configuration
//! mutator, the registry lifecycle decisions, the push-event handling, the
//! remote-session state machine, the pipeline orchestrator's state machine,
//! and the argument parser.  The unverified shell around it (engine and
//! network I/O) drives these functions and performs the actions they
//! decide on.

pub mod archive;
pub mod args;
pub mod engine;
pub mod errors;
pub mod pipeline;
pub mod publish;
pub mod registry;
pub mod session;
pub mod trustcfg;
