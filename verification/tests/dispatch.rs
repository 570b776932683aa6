use containerless::argo::{
    ExecuteTemplateArgs, Metadata, Plugin, PluginParameters, Template, Workflow,
};
use containerless::python;
use containerless::runner::{extract_runtime, Error, RuntimeExecutor};

fn request(runtime: &str) -> ExecuteTemplateArgs {
    ExecuteTemplateArgs {
        template: Template {
            name: String::from("test-module"),
            plugin: Plugin {
                containerless: PluginParameters {
                    repo_url: "https://github.com/some/repo.git".to_string(),
                    runtime: runtime.to_string(),
                    target_revision: "master".to_string(),
                    args: vec!["src/example.py".into()],
                },
            },
        },
        workflow: Workflow {
            metadata: Metadata {
                name: String::from("test-module"),
            },
        },
    }
}

#[test]
fn test_extract_python() {
    let req = ExecuteTemplateArgs {
        template: Template {
            name: String::from("test-module"),
            plugin: Plugin {
                containerless: PluginParameters {
                    repo_url: "https://github.com/some/repo.git".to_string(),
                    runtime: "python-3.10".to_string(),
                    target_revision: "master".to_string(),
                    args: vec!["src/example.py".into()],
                },
            },
        },
        workflow: Workflow {
            metadata: Metadata {
                name: String::from("test-module"),
            },
        },
    };
    extract_runtime(&req).unwrap();
}

#[test]
fn test_unsupported() {
    let req = ExecuteTemplateArgs {
        template: Template {
            name: String::from("test-module"),
            plugin: Plugin {
                containerless: PluginParameters {
                    repo_url: "https://github.com/some/repo.git".to_string(),
                    runtime: "brainfuck-3.10".to_string(),
                    target_revision: "master".to_string(),
                    args: vec!["src/example.py".into()],
                },
            },
        },
        workflow: Workflow {
            metadata: Metadata {
                name: String::from("test-module"),
            },
        },
    };
    let runtime = extract_runtime(&req);
    assert_eq!(runtime.is_err(), true);
}

#[test]
fn test_python_dispatch_keeps_version() {
    match extract_runtime(&request("python-3.10")) {
        Ok(RuntimeExecutor::Python(p)) => assert_eq!(p.version, "3.10"),
        Err(_) => panic!("python-3.10 must dispatch to the Python executor"),
    }
}

#[test]
fn test_unknown_family_is_not_found() {
    match extract_runtime(&request("brainfuck-3.10")) {
        Err(Error::RuntimeNotFound { runtime }) => assert_eq!(runtime, "brainfuck"),
        _ => panic!("an unrecognized family must fail as RuntimeNotFound"),
    }
}

#[test]
fn test_node_family_is_recognized_but_unsupported() {
    match extract_runtime(&request("node-16.13")) {
        Err(Error::RuntimeNotSupported { runtime }) => assert_eq!(runtime, "node"),
        _ => panic!("node must fail cleanly as not yet supported"),
    }
}

#[test]
fn test_family_is_trimmed_and_case_insensitive() {
    match extract_runtime(&request(" Python -3.9")) {
        Ok(RuntimeExecutor::Python(p)) => assert_eq!(p.version, "3.9"),
        _ => panic!("the family is matched trimmed and lower-cased"),
    }
}

#[test]
fn test_identifier_without_dash_is_an_error_not_a_crash() {
    match extract_runtime(&request("python")) {
        Err(Error::PythonOperationFailed {
            source: python::Error::InvalidPythonVersion { version },
        }) => assert_eq!(version, ""),
        _ => panic!("an identifier without a dash is handled as an empty version"),
    }
}

#[test]
fn test_low_python_version_fails_the_gate() {
    match extract_runtime(&request("python-3.5")) {
        Err(Error::PythonOperationFailed {
            source: python::Error::InvalidPythonVersion { version },
        }) => assert_eq!(version, "3.5"),
        _ => panic!("python-3.5 must fail the version gate"),
    }
}

#[test]
fn test_not_found_message_names_the_family() {
    let e = extract_runtime(&request("brainfuck-3.10")).unwrap_err();
    assert_eq!(e.message(), "Runtime not found brainfuck");
}

#[test]
fn test_identifier_splits_at_the_first_dash() {
    match extract_runtime(&request("python-3-10")) {
        Err(Error::PythonOperationFailed {
            source: python::Error::InvalidPythonVersion { version },
        }) => assert_eq!(version, "3-10"),
        _ => panic!("the identifier splits at its first dash"),
    }
}
