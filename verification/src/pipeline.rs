//! The execution pipeline for one request: resolve the runtime, fetch the
//! module, install its dependencies, run the script, and translate every
//! outcome into the orchestrator's reply shape.
//!
//! The outside steps — VCS work and process invocation — are performed by
//! the embedding program, which feeds each outcome back as an event. The
//! pipeline never recovers from a failure: any failed stage ends the
//! request with an `Error` reply carrying the fixed exit-code sentinel
//! `"1"`, and a completed script run — whatever its exit code — ends it
//! with a `Succeeded` reply carrying the literal exit code and the
//! captured stdout.

use crate::argo::{
    error_response, is_error_reply, ok_response, ExecuteTemplateArgs, ExecuteTemplateReply,
};
use crate::python::ExecutionOutcome;
use crate::runner::{extract_runtime, Error, RuntimeExecutor};
use crate::text::{dec_str_int, i32_to_string};
use crate::{git, python};
use vstd::prelude::*;
use vstd::string::StringExecFns;

verus! {

/// Where the handling of one request stands: which outside step the
/// embedding program is expected to perform next.
pub enum PipelinePhase {
    /// Awaiting the materialization of the module on disk.
    Fetching { runtime: RuntimeExecutor },
    /// Awaiting the dependency install inside the fetched module.
    Installing { runtime: RuntimeExecutor },
    /// Awaiting the script run inside the prepared environment.
    Running { runtime: RuntimeExecutor },
    /// The reply has been issued; nothing more happens for this request.
    Done,
}

/// The outcome of one outside step, reported by the embedding program. A
/// step that could not even be started (a failed spawn, for instance)
/// carries the underlying cause as text.
pub enum PipelineEvent {
    Fetched(Result<(), git::Error>),
    Installed(Result<ExecutionOutcome, String>),
    Ran(Result<ExecutionOutcome, String>),
}

/// What the embedding program must do next.
pub enum PipelineAction {
    /// Fetch the module at its target revision.
    Fetch,
    /// Install the module's declared dependencies into an isolated
    /// environment.
    Install,
    /// Run the script with the request's arguments in that environment.
    Run,
    /// Send this reply; the request is over.
    Respond(ExecuteTemplateReply),
}

/// Which event a pipeline in phase `p` is waiting for.
pub open spec fn awaiting(p: PipelinePhase, e: PipelineEvent) -> bool {
    match (p, e) {
        (PipelinePhase::Fetching { .. }, PipelineEvent::Fetched(_)) => true,
        (PipelinePhase::Installing { .. }, PipelineEvent::Installed(_)) => true,
        (PipelinePhase::Running { .. }, PipelineEvent::Ran(_)) => true,
        _ => false,
    }
}

/// The message of the reply sent when no executor could be resolved.
pub open spec fn no_runtime_msg(s: Seq<char>, cause: Seq<char>) -> Seq<char> {
    "No runtime found for: "@ + s + ", error: "@ + cause
}

/// The cause named in that reply, by runtime family: the version gate for
/// `python`, the missing implementation for `node`, an unknown family for
/// the rest.
pub open spec fn resolve_failure_cause(s: Seq<char>) -> Seq<char> {
    if crate::runner::family_of(s) == crate::runner::python_family() {
        "Python operations failed"@
    } else if crate::runner::family_of(s) == crate::runner::node_family() {
        "Runtime not yet supported "@ + crate::runner::family_of(s)
    } else {
        "Runtime not found "@ + crate::runner::family_of(s)
    }
}

/// The message of the reply sent when the module fetch failed.
pub open spec fn git_stage_msg() -> Seq<char> {
    "Cannot run script: "@ + "Git operation failed"@
}

/// The message of the reply sent when install or run failed.
pub open spec fn python_stage_msg() -> Seq<char> {
    "Cannot run script: "@ + "Python operations failed"@
}

/// The reply issued for a completed script run: phase `Succeeded`, the
/// process's literal exit code as a string, and its captured stdout —
/// a non-zero exit code is deliberately still `Succeeded`; interpreting
/// it is the orchestrator's business.
pub open spec fn is_run_reply(r: ExecuteTemplateReply, outcome: ExecutionOutcome) -> bool {
    &&& r.node.phase@ == "Succeeded"@
    &&& r.node.message@ == "Success"@
    &&& r.node.outputs matches Some(o) && ({
        &&& match outcome.exit_code {
            Some(c) => o.exit_code matches Some(t) && t@ == dec_str_int(c as int),
            None => o.exit_code is None,
        }
        &&& o.result == outcome.stdout
    })
}

/// Drives one request through resolve, fetch, install, run and reply,
/// one outside step at a time.
pub struct ExecutionPipeline {
    pub phase: PipelinePhase,
}

impl ExecutionPipeline {
    /// Resolves the request's runtime and opens the pipeline: with an
    /// executor in hand the module fetch is asked for; failing resolution
    /// — and so before anything is fetched — the `Error` reply is issued
    /// directly.
    pub fn start(req: &ExecuteTemplateArgs) -> (r: (ExecutionPipeline, PipelineAction))
        ensures
            ({
                let s = req.template.plugin.containerless.runtime@;
                if crate::runner::family_of(s) == crate::runner::python_family()
                    && crate::python::version_accepted(crate::runner::version_of(s)) {
                    &&& r.0.phase matches PipelinePhase::Fetching {
                        runtime: RuntimeExecutor::Python(p),
                    } && p.version@ == crate::runner::version_of(s)
                    &&& r.1 is Fetch
                } else {
                    &&& r.0.phase is Done
                    &&& r.1 matches PipelineAction::Respond(reply) && is_error_reply(
                        reply,
                        no_runtime_msg(s, resolve_failure_cause(s)),
                    )
                }
            }),
    {
        match extract_runtime(req) {
            Ok(exec) => (
                ExecutionPipeline { phase: PipelinePhase::Fetching { runtime: exec } },
                PipelineAction::Fetch,
            ),
            Err(e) => {
                let cause = e.message();
                let msg = String::from_str("No runtime found for: ").concat(
                    req.template.plugin.containerless.runtime.as_str(),
                ).concat(", error: ").concat(cause.as_str());
                proof {
                    assert(msg@ =~= no_runtime_msg(
                        req.template.plugin.containerless.runtime@,
                        cause@,
                    ));
                }
                let reply = error_response(msg.as_str());
                (ExecutionPipeline { phase: PipelinePhase::Done }, PipelineAction::Respond(reply))
            },
        }
    }

    /// Takes the outcome of the step the pipeline was waiting for and
    /// says what to do next: a fetched module has its dependencies
    /// installed; a clean install leads to the script run; a completed
    /// run is reported `Succeeded` whatever its exit code; any failure —
    /// fetch, non-zero install exit, failed spawn — ends the request at
    /// once with the `Error` reply for its stage.
    pub fn on_event(&mut self, e: PipelineEvent) -> (a: PipelineAction)
        requires
            awaiting(old(self).phase, e),
        ensures
            match (old(self).phase, e) {
                (PipelinePhase::Fetching { runtime }, PipelineEvent::Fetched(res)) => match res {
                    Ok(_) => final(self).phase == (PipelinePhase::Installing { runtime }) && a
                        is Install,
                    Err(_) => final(self).phase is Done && (a matches PipelineAction::Respond(
                        reply,
                    ) && is_error_reply(reply, git_stage_msg())),
                },
                (PipelinePhase::Installing { runtime }, PipelineEvent::Installed(res)) => match res {
                    Ok(outcome) => if outcome.exit_code == Some(0i32) {
                        final(self).phase == (PipelinePhase::Running { runtime }) && a is Run
                    } else {
                        final(self).phase is Done && (a matches PipelineAction::Respond(reply)
                            && is_error_reply(reply, python_stage_msg()))
                    },
                    Err(_) => final(self).phase is Done && (a matches PipelineAction::Respond(
                        reply,
                    ) && is_error_reply(reply, python_stage_msg())),
                },
                (PipelinePhase::Running { .. }, PipelineEvent::Ran(res)) => match res {
                    Ok(outcome) => final(self).phase is Done && (a
                        matches PipelineAction::Respond(reply) && is_run_reply(reply, outcome)),
                    Err(_) => final(self).phase is Done && (a matches PipelineAction::Respond(
                        reply,
                    ) && is_error_reply(reply, python_stage_msg())),
                },
                _ => false,
            },
    {
        let mut p = PipelinePhase::Done;
        core::mem::swap(&mut p, &mut self.phase);
        match (p, e) {
            (PipelinePhase::Fetching { runtime }, PipelineEvent::Fetched(Ok(_))) => {
                self.phase = PipelinePhase::Installing { runtime };
                PipelineAction::Install
            },
            (PipelinePhase::Fetching { .. }, PipelineEvent::Fetched(Err(g))) => {
                self.phase = PipelinePhase::Done;
                PipelineAction::Respond(stage_error_reply(Error::GitFailed { source: g }))
            },
            (PipelinePhase::Installing { runtime }, PipelineEvent::Installed(Ok(outcome))) => {
                match crate::python::check_install(outcome) {
                    Ok(_) => {
                        self.phase = PipelinePhase::Running { runtime };
                        PipelineAction::Run
                    },
                    Err(pe) => {
                        self.phase = PipelinePhase::Done;
                        PipelineAction::Respond(
                            stage_error_reply(Error::PythonOperationFailed { source: pe }),
                        )
                    },
                }
            },
            (PipelinePhase::Installing { .. }, PipelineEvent::Installed(Err(m))) => {
                self.phase = PipelinePhase::Done;
                PipelineAction::Respond(
                    stage_error_reply(
                        Error::PythonOperationFailed {
                            source: python::Error::InvalidCommand { message: m },
                        },
                    ),
                )
            },
            (PipelinePhase::Running { .. }, PipelineEvent::Ran(Ok(outcome))) => {
                self.phase = PipelinePhase::Done;
                let exit_code = match outcome.exit_code {
                    Some(c) => Some(i32_to_string(c)),
                    None => None,
                };
                PipelineAction::Respond(ok_response("Success", exit_code, outcome.stdout))
            },
            (PipelinePhase::Running { .. }, PipelineEvent::Ran(Err(m))) => {
                self.phase = PipelinePhase::Done;
                PipelineAction::Respond(
                    stage_error_reply(
                        Error::PythonOperationFailed {
                            source: python::Error::InvalidCommand { message: m },
                        },
                    ),
                )
            },
            _ => vstd::pervasive::unreached(),
        }
    }
}

/// The `Error` reply for a failed stage, its message naming the stage's
/// cause.
fn stage_error_reply(e: Error) -> (r: ExecuteTemplateReply)
    ensures
        is_error_reply(r, "Cannot run script: "@ + e.message_spec()),
{
    let cause = e.message();
    let msg = String::from_str("Cannot run script: ").concat(cause.as_str());
    error_response(msg.as_str())
}

/// A finished request waits for nothing: once the reply has been issued
/// — in particular after a failed dependency install, which `on_event`
/// answers with an `Error` reply and the `Done` phase rather than with a
/// `Run` action — no further step is ever asked for.
pub proof fn lemma_done_pipeline_waits_for_nothing(e: PipelineEvent)
    ensures
        !awaiting(PipelinePhase::Done, e),
{
}

} // verus!
