use containerless::argo::{
    error_response, ok_response, ExecuteTemplateArgs, Metadata, Plugin, PluginParameters,
    Template, Workflow,
};
use containerless::git::{FetchAction, FetchEvent, FetchPhase, ModuleFetcher};
use containerless::pipeline::{ExecutionPipeline, PipelineAction, PipelineEvent};
use containerless::python::ExecutionOutcome;
use containerless::text::i32_to_string;

fn request(runtime: &str) -> ExecuteTemplateArgs {
    ExecuteTemplateArgs {
        template: Template {
            name: String::from("test-module"),
            plugin: Plugin {
                containerless: PluginParameters {
                    repo_url: "https://github.com/org/proj.git".to_string(),
                    runtime: runtime.to_string(),
                    target_revision: "main".to_string(),
                    args: vec!["script.py".into(), "--flag".into()],
                },
            },
        },
        workflow: Workflow {
            metadata: Metadata {
                name: String::from("wf".to_string()),
            },
        },
    }
}

fn outcome(exit_code: Option<i32>, stdout: &str, stderr: &str) -> ExecutionOutcome {
    ExecutionOutcome {
        exit_code,
        stdout: Some(stdout.to_string()),
        stderr: Some(stderr.to_string()),
    }
}

#[test]
fn test_successful_run_reports_succeeded_with_exit_code_and_stdout() {
    let req = request("python-3.9");
    let (mut pipeline, action) = ExecutionPipeline::start(&req);
    assert!(matches!(action, PipelineAction::Fetch));

    let action = pipeline.on_event(PipelineEvent::Fetched(Ok(())));
    assert!(matches!(action, PipelineAction::Install));

    let action = pipeline.on_event(PipelineEvent::Installed(Ok(outcome(Some(0), "", ""))));
    assert!(matches!(action, PipelineAction::Run));

    let action = pipeline.on_event(PipelineEvent::Ran(Ok(outcome(Some(0), "42", ""))));
    match action {
        PipelineAction::Respond(reply) => {
            assert_eq!(reply.node.phase, "Succeeded");
            let outputs = reply.node.outputs.unwrap();
            assert_eq!(outputs.exit_code, Some("0".to_string()));
            assert_eq!(outputs.result, Some("42".to_string()));
        }
        _ => panic!("a completed run must end in a reply"),
    }
}

#[test]
fn test_nonzero_script_exit_is_still_succeeded() {
    let req = request("python-3.9");
    let (mut pipeline, _) = ExecutionPipeline::start(&req);
    pipeline.on_event(PipelineEvent::Fetched(Ok(())));
    pipeline.on_event(PipelineEvent::Installed(Ok(outcome(Some(0), "", ""))));
    let action = pipeline.on_event(PipelineEvent::Ran(Ok(outcome(Some(3), "partial", ""))));
    match action {
        PipelineAction::Respond(reply) => {
            assert_eq!(reply.node.phase, "Succeeded");
            let outputs = reply.node.outputs.unwrap();
            assert_eq!(outputs.exit_code, Some("3".to_string()));
            assert_eq!(outputs.result, Some("partial".to_string()));
        }
        _ => panic!("a completed run must end in a reply"),
    }
}

#[test]
fn test_low_version_is_refused_before_any_fetch() {
    let req = request("python-3.5");
    let (_, action) = ExecutionPipeline::start(&req);
    match action {
        PipelineAction::Respond(reply) => {
            assert_eq!(reply.node.phase, "Error");
            assert!(reply.node.message.contains("3.5"));
            let outputs = reply.node.outputs.unwrap();
            assert_eq!(outputs.exit_code, Some("1".to_string()));
            assert_eq!(outputs.result, None);
        }
        _ => panic!("the version gate runs before the module fetch"),
    }
}

#[test]
fn test_fetch_failure_ends_the_request() {
    let req = request("python-3.9");
    let (mut pipeline, _) = ExecutionPipeline::start(&req);
    let action = pipeline.on_event(PipelineEvent::Fetched(Err(
        containerless::git::Error::GitFailed {
            message: "remote hung up".to_string(),
        },
    )));
    match action {
        PipelineAction::Respond(reply) => {
            assert_eq!(reply.node.phase, "Error");
            assert_eq!(reply.node.message, "Cannot run script: Git operation failed");
            let outputs = reply.node.outputs.unwrap();
            assert_eq!(outputs.exit_code, Some("1".to_string()));
            assert_eq!(outputs.result, None);
        }
        _ => panic!("a fetch failure must end in an error reply"),
    }
}

#[test]
fn test_install_failure_never_reaches_the_script_run() {
    let req = request("python-3.9");
    let (mut pipeline, _) = ExecutionPipeline::start(&req);
    pipeline.on_event(PipelineEvent::Fetched(Ok(())));
    let action = pipeline.on_event(PipelineEvent::Installed(Ok(outcome(
        Some(1),
        "collecting",
        "resolution failed",
    ))));
    assert!(!matches!(action, PipelineAction::Run));
    match action {
        PipelineAction::Respond(reply) => {
            assert_eq!(reply.node.phase, "Error");
            assert_eq!(
                reply.node.message,
                "Cannot run script: Python operations failed"
            );
        }
        _ => panic!("a failed install must end the request at once"),
    }
}

#[test]
fn test_spawn_failure_is_an_error_reply() {
    let req = request("python-3.9");
    let (mut pipeline, _) = ExecutionPipeline::start(&req);
    pipeline.on_event(PipelineEvent::Fetched(Ok(())));
    let action = pipeline.on_event(PipelineEvent::Installed(Err(
        "No such file or directory".to_string(),
    )));
    match action {
        PipelineAction::Respond(reply) => {
            assert_eq!(reply.node.phase, "Error");
            assert_eq!(
                reply.node.message,
                "Cannot run script: Python operations failed"
            );
        }
        _ => panic!("a failed spawn must end the request at once"),
    }
}

#[test]
fn test_unknown_runtime_reply_names_runtime_and_cause() {
    let req = request("brainfuck-3.10");
    let (_, action) = ExecutionPipeline::start(&req);
    match action {
        PipelineAction::Respond(reply) => {
            assert_eq!(reply.node.phase, "Error");
            assert_eq!(
                reply.node.message,
                "No runtime found for: brainfuck-3.10, error: Runtime not found brainfuck"
            );
        }
        _ => panic!("an unknown runtime must end in an error reply"),
    }
}

#[test]
fn test_fetch_machine_tracks_branch_references() {
    let params = PluginParameters {
        repo_url: "https://github.com/org/proj.git".to_string(),
        runtime: "python-3.9".to_string(),
        target_revision: "main".to_string(),
        args: vec![],
    };
    let mut fetcher = ModuleFetcher::new(&params).unwrap();
    assert_eq!(fetcher.phase, FetchPhase::Cloning);
    assert_eq!(fetcher.info.host, "github.com");
    assert_eq!(fetcher.info.repo, "org");
    assert_eq!(fetcher.info.module, "proj");

    let action = fetcher.on_event(FetchEvent::Cloned(Ok(())));
    assert!(matches!(action, FetchAction::ResolveRevision));
    let action = fetcher.on_event(FetchEvent::Resolved(Ok(true)));
    assert!(matches!(action, FetchAction::CheckoutTree));
    let action = fetcher.on_event(FetchEvent::CheckedOut(Ok(())));
    assert!(matches!(action, FetchAction::SetHeadSymbolic));
    let action = fetcher.on_event(FetchEvent::HeadSet(Ok(())));
    assert!(matches!(action, FetchAction::Finish(Ok(()))));
    assert_eq!(fetcher.phase, FetchPhase::Complete);
}

#[test]
fn test_fetch_machine_detaches_on_raw_commits() {
    let params = PluginParameters {
        repo_url: "https://github.com/org/proj.git".to_string(),
        runtime: "python-3.9".to_string(),
        target_revision: "0123abc".to_string(),
        args: vec![],
    };
    let mut fetcher = ModuleFetcher::new(&params).unwrap();
    fetcher.on_event(FetchEvent::Cloned(Ok(())));
    let action = fetcher.on_event(FetchEvent::Resolved(Ok(false)));
    assert!(matches!(action, FetchAction::CheckoutTree));
    let action = fetcher.on_event(FetchEvent::CheckedOut(Ok(())));
    assert!(matches!(action, FetchAction::SetHeadDetached));
}

#[test]
fn test_fetch_machine_wraps_every_failure_as_git_failed() {
    let params = PluginParameters {
        repo_url: "https://github.com/org/proj.git".to_string(),
        runtime: "python-3.9".to_string(),
        target_revision: "main".to_string(),
        args: vec![],
    };
    let mut fetcher = ModuleFetcher::new(&params).unwrap();
    fetcher.on_event(FetchEvent::Cloned(Ok(())));
    let action = fetcher.on_event(FetchEvent::Resolved(Err("unknown revision".to_string())));
    match action {
        FetchAction::Finish(Err(containerless::git::Error::GitFailed { message })) => {
            assert_eq!(message, "unknown revision");
        }
        _ => panic!("a VCS failure must finish the fetch as GitFailed"),
    }
    assert_eq!(fetcher.phase, FetchPhase::Failed);
}

#[test]
fn test_error_response_shape() {
    let reply = error_response("boom");
    assert_eq!(reply.node.phase, "Error");
    assert_eq!(reply.node.message, "boom");
    let outputs = reply.node.outputs.unwrap();
    assert_eq!(outputs.exit_code, Some("1".to_string()));
    assert_eq!(outputs.result, None);
}

#[test]
fn test_ok_response_shape() {
    let reply = ok_response("done", Some("0".to_string()), Some("42".to_string()));
    assert_eq!(reply.node.phase, "Succeeded");
    assert_eq!(reply.node.message, "done");
    let outputs = reply.node.outputs.unwrap();
    assert_eq!(outputs.exit_code, Some("0".to_string()));
    assert_eq!(outputs.result, Some("42".to_string()));
}

#[test]
fn test_exit_codes_render_in_decimal() {
    assert_eq!(i32_to_string(0), "0");
    assert_eq!(i32_to_string(42), "42");
    assert_eq!(i32_to_string(-7), "-7");
    assert_eq!(i32_to_string(i32::MAX), "2147483647");
    assert_eq!(i32_to_string(i32::MIN), "-2147483648");
}
