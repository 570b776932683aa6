use containerless::python::{check_install, Error, ExecutionOutcome, PythonRuntime};

#[test]
fn test_create_runtime() {
    PythonRuntime::new("3.9").unwrap();
}

#[test]
fn test_create_unsupported_runtime_s() {
    let runtime = PythonRuntime::new("3.6");
    assert_eq!(runtime.is_err(), true);
    if let Err(e) = runtime {
        assert_eq!(e.message(), "Invalid Python version: 3.6, must be >= 3.7!");
    }
}

#[test]
fn test_version_floor_accepts_newer_minors() {
    assert!(PythonRuntime::new("3.7").is_ok());
    assert!(PythonRuntime::new("3.10").is_ok());
    assert!(PythonRuntime::new("3.12").is_ok());
}

#[test]
fn test_version_floor_rejects_older_minors() {
    assert!(PythonRuntime::new("3.0").is_err());
    assert!(PythonRuntime::new("3.6").is_err());
    assert!(PythonRuntime::new("2.7").is_err());
    assert!(PythonRuntime::new("4.0").is_err());
}

#[test]
fn test_version_rejects_unparsable() {
    assert!(PythonRuntime::new("").is_err());
    assert!(PythonRuntime::new("three.nine").is_err());
    assert!(PythonRuntime::new("3").is_err());
    assert!(PythonRuntime::new("3.").is_err());
    assert!(PythonRuntime::new(".7").is_err());
}

#[test]
fn test_version_reads_first_major_minor_pair() {
    // The pair may stand anywhere in the string; the first one decides.
    assert!(PythonRuntime::new("3.10.1").is_ok());
    assert!(PythonRuntime::new("v3.9rc1").is_ok());
    assert!(PythonRuntime::new("03.7").is_ok());
    assert!(PythonRuntime::new("2.7 or 3.9").is_err());
}

#[test]
fn test_version_rejects_minor_too_large_for_i32() {
    assert!(PythonRuntime::new("3.2147483647").is_ok());
    assert!(PythonRuntime::new("3.2147483648").is_err());
}

#[test]
fn test_accepted_runtime_keeps_version_string() {
    let rt = PythonRuntime::new("3.11").unwrap();
    assert_eq!(rt.version, "3.11");
}

#[test]
fn test_invalid_version_message_names_version_and_floor() {
    let e = PythonRuntime::new("2.7").unwrap_err();
    assert_eq!(e.message(), "Invalid Python version: 2.7, must be >= 3.7!");
}

#[test]
fn test_command_failed_message_carries_streams() {
    let e = Error::CommandFailed {
        stdout: "out".to_string(),
        stderr: "err".to_string(),
    };
    assert_eq!(e.message(), "Command failed with: out, err");
}

#[test]
fn test_invalid_command_message() {
    let e = Error::InvalidCommand {
        message: "no such file".to_string(),
    };
    assert_eq!(e.message(), "Invalid command");
}

#[test]
fn test_check_install_accepts_zero_exit() {
    let outcome = ExecutionOutcome {
        exit_code: Some(0),
        stdout: Some("installed".to_string()),
        stderr: None,
    };
    assert!(check_install(outcome).is_ok());
}

#[test]
fn test_check_install_rejects_nonzero_exit() {
    let outcome = ExecutionOutcome {
        exit_code: Some(2),
        stdout: Some("log".to_string()),
        stderr: Some("bad".to_string()),
    };
    match check_install(outcome) {
        Err(Error::CommandFailed { stdout, stderr }) => {
            assert_eq!(stdout, "log");
            assert_eq!(stderr, "bad");
        }
        _ => panic!("a non-zero install exit must fail as CommandFailed"),
    }
}

#[test]
fn test_check_install_rejects_missing_exit_code() {
    let outcome = ExecutionOutcome {
        exit_code: None,
        stdout: None,
        stderr: None,
    };
    match check_install(outcome) {
        Err(Error::CommandFailed { stdout, stderr }) => {
            assert_eq!(stdout, "");
            assert_eq!(stderr, "");
        }
        _ => panic!("an install without an exit code must fail as CommandFailed"),
    }
}
