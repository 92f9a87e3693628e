//! Image publisher: the fixed build/tag/push parameters and the handling
//! of the engine's push-event stream.
//!
//! The engine performs the transfer; this module pins what is asked of it
//! (build stage, export mode, registry-qualified name, tag) and decides,
//! for each streamed event, whether the push goes on or aborts with the
//! event's error message verbatim.

use vstd::prelude::*;
use vstd::seq_lib::*;
use vstd::string::StringExecFns;
use crate::errors::PipelineError;
use crate::registry::registry_addr;
use crate::registry::registry_addr_spec;

verus! {

/// The build request handed to the engine, as plain values.  The build
/// asks for a named stage and a local filesystem export of the build
/// artifacts — deliberately not a load into the engine's image store.
pub struct BuildParams {
    /// Path of the build instructions inside the context.
    pub dockerfile: String,
    /// The named build stage whose output is exported.
    pub target: String,
    /// The image's logical name.
    pub image_name: String,
    /// The build session identity; the pipeline reuses the image name.
    pub session: String,
    /// Whether base images are pulled afresh.
    pub pull: bool,
    /// Where on the local filesystem the artifacts are exported.
    pub output_local_path: String,
}

/// The one build request this pipeline makes for a given project name.
pub open spec fn build_params_wf(p: BuildParams, project: Seq<char>) -> bool {
    &&& p.dockerfile@ == "Dockerfile"@
    &&& p.target@ == "export-stage"@
    &&& p.image_name@ == project
    &&& p.session@ == project
    &&& p.pull == true
    &&& p.output_local_path@ == "."@
}

/// Builds the fixed build request for the project.
pub fn build_params(project: &String) -> (r: BuildParams)
    ensures
        build_params_wf(r, project@),
{
    BuildParams {
        dockerfile: String::from_str("Dockerfile"),
        target: String::from_str("export-stage"),
        image_name: project.clone(),
        session: project.clone(),
        pull: true,
        output_local_path: String::from_str("."),
    }
}

/// The push destination: the image name qualified by the ephemeral
/// registry's address.
pub open spec fn pushed_image_spec(project: Seq<char>) -> Seq<char> {
    registry_addr_spec() + "/"@ + project
}

/// Executable form of [`pushed_image_spec`].
pub fn pushed_image_name(project: &String) -> (r: String)
    ensures
        r@ == pushed_image_spec(project@),
{
    registry_addr().concat("/").concat(project.as_str())
}

/// The tag used against the local registry, always the same.
pub open spec fn push_tag_spec() -> Seq<char> {
    "latest"@
}

/// Executable form of [`push_tag_spec`].
pub fn push_tag() -> (r: String)
    ensures
        r@ == push_tag_spec(),
{
    String::from_str("latest")
}

/// One event of the engine's push stream, reduced to the fields the
/// pipeline reads.
pub struct PushEvent {
    /// An error message; its presence aborts the push.
    pub error: Option<String>,
    /// A status message.
    pub status: Option<String>,
    /// A progress message.
    pub progress: Option<String>,
}

/// How many events of the stream carry a status message.
pub open spec fn count_status(evs: Seq<PushEvent>) -> nat {
    evs.filter(|e: PushEvent| e.status is Some).len()
}

/// How many events of the stream carry a progress message.
pub open spec fn count_progress(evs: Seq<PushEvent>) -> nat {
    evs.filter(|e: PushEvent| e.progress is Some).len()
}

/// What a completed push reports.
pub struct PushReport {
    /// Number of events that carried a status message.
    pub status_events: usize,
    /// Number of events that carried a progress message.
    pub progress_events: usize,
}

/// Decides one streamed push event: an event carrying an error field
/// aborts the push with that message verbatim; any other event lets the
/// transfer go on.
pub fn check_push_event(ev: &PushEvent) -> (r: Result<(), PipelineError>)
    ensures
        match ev.error {
            Some(m) => r matches Err(e) && (e matches PipelineError::Push(m2) && m2@ == m@),
            None => r is Ok,
        },
{
    match &ev.error {
        Some(m) => Err(PipelineError::Push(m.clone())),
        None => Ok(()),
    }
}

/// Folds a whole push stream: the first event carrying an error field
/// terminates the push with that message verbatim — even if progress or
/// status events came first — and otherwise the stream's status and
/// progress events are counted.
pub fn push_outcome(events: &Vec<PushEvent>) -> (r: Result<PushReport, PipelineError>)
    ensures
        match r {
            Ok(rep) => (forall|i: int|
                0 <= i < events@.len() ==> (#[trigger] events@[i].error) is None)
                && rep.status_events == count_status(events@) && rep.progress_events
                == count_progress(events@),
            Err(e) => e matches PipelineError::Push(m) && exists|j: int|
                0 <= j < events@.len() && ((#[trigger] events@[j].error) matches Some(m0) && m@
                    == m0@) && (forall|k: int|
                    0 <= k < j ==> (#[trigger] events@[k].error) is None),
        },
{
    let mut status: usize = 0;
    let mut progress: usize = 0;
    let mut i: usize = 0;
    proof {
        reveal(Seq::filter);
        assert(events@.take(0) =~= Seq::<PushEvent>::empty());
    }
    while i < events.len()
        invariant
            i <= events@.len(),
            forall|k: int| 0 <= k < i ==> (#[trigger] events@[k].error) is None,
            status == count_status(events@.take(i as int)),
            progress == count_progress(events@.take(i as int)),
            status <= i,
            progress <= i,
        decreases events.len() - i,
    {
        let ghost evs = events@;
        proof {
            assert(evs.take(i + 1) =~= evs.take(i as int) + seq![evs[i as int]]);
            Seq::<PushEvent>::filter_distributes_over_add(
                evs.take(i as int),
                seq![evs[i as int]],
                |e: PushEvent| e.status is Some,
            );
            Seq::<PushEvent>::filter_distributes_over_add(
                evs.take(i as int),
                seq![evs[i as int]],
                |e: PushEvent| e.progress is Some,
            );
            reveal_with_fuel(Seq::filter, 2);
            assert(seq![evs[i as int]].drop_last() =~= Seq::<PushEvent>::empty());
        }
        match &events[i].error {
            Some(m) => {
                return Err(PipelineError::Push(m.clone()));
            },
            None => {},
        }
        if events[i].status.is_some() {
            status = status + 1;
        }
        if events[i].progress.is_some() {
            progress = progress + 1;
        }
        i = i + 1;
    }
    proof {
        assert(events@.take(events@.len() as int) =~= events@);
    }
    Ok(PushReport { status_events: status, progress_events: progress })
}

} // verus!
