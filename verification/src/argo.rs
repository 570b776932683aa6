//! Orchestrator-facing data model: the plugin parameters carried by an
//! incoming request and the node-result reply returned for it.

use vstd::prelude::*;
use vstd::string::StringExecFns;

verus! {

/// What to fetch and run for one workflow step.
pub struct PluginParameters {
    /// The git repository URL; only HTTPS URLs are supported.
    pub repo_url: String,
    /// The runtime identifier, `"python-3.10"` for example.
    pub runtime: String,
    /// The target revision: a branch, a tag, or a commit hash.
    pub target_revision: String,
    /// The arguments passed to the program.
    pub args: Vec<String>,
}

pub struct Plugin {
    pub containerless: PluginParameters,
}

pub struct Metadata {
    pub name: String,
}

pub struct Template {
    pub name: String,
    pub plugin: Plugin,
}

pub struct Workflow {
    pub metadata: Metadata,
}

pub struct Outputs {
    pub exit_code: Option<String>,
    pub result: Option<String>,
}

pub struct NodeResult {
    pub phase: String,
    pub message: String,
    pub outputs: Option<Outputs>,
}

/// The body of one `template.execute` request.
pub struct ExecuteTemplateArgs {
    pub template: Template,
    pub workflow: Workflow,
}

/// The body of one `template.execute` reply.
pub struct ExecuteTemplateReply {
    pub node: NodeResult,
}

/// An error reply: phase `Error`, the given message, and the fixed
/// `exitCode` sentinel `"1"` with no result value.
pub open spec fn is_error_reply(r: ExecuteTemplateReply, msg: Seq<char>) -> bool {
    &&& r.node.phase@ == "Error"@
    &&& r.node.message@ == msg
    &&& r.node.outputs matches Some(o)
        && (o.exit_code matches Some(c) && c@ == "1"@)
        && o.result is None
}

/// A success reply: phase `Succeeded`, the given message, and the given
/// outputs taken over verbatim.
pub open spec fn is_ok_reply(
    r: ExecuteTemplateReply,
    msg: Seq<char>,
    exit_code: Option<String>,
    result: Option<String>,
) -> bool {
    &&& r.node.phase@ == "Succeeded"@
    &&& r.node.message@ == msg
    &&& r.node.outputs matches Some(o) && o.exit_code == exit_code && o.result == result
}

/// Builds the reply reported for a failed request: every failure is
/// surfaced with phase `Error` and the fixed exit-code sentinel `"1"`.
pub fn error_response(msg: &str) -> (r: ExecuteTemplateReply)
    ensures
        is_error_reply(r, msg@),
{
    ExecuteTemplateReply {
        node: NodeResult {
            phase: String::from_str("Error"),
            message: String::from_str(msg),
            outputs: Some(Outputs { exit_code: Some(String::from_str("1")), result: None }),
        },
    }
}

/// Builds the reply reported for a completed process execution: phase
/// `Succeeded`, whatever the process's own exit code was.
pub fn ok_response(msg: &str, exit_code: Option<String>, stdout: Option<String>) -> (r:
    ExecuteTemplateReply)
    ensures
        is_ok_reply(r, msg@, exit_code, stdout),
{
    ExecuteTemplateReply {
        node: NodeResult {
            phase: String::from_str("Succeeded"),
            message: String::from_str(msg),
            outputs: Some(Outputs { exit_code, result: stdout }),
        },
    }
}

} // verus!
