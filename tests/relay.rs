use rustfmt_shim::relay::{
    active_query_args, child_exit_code, child_input, exit_status, formatter_args, relay_outcome,
    ProcessOutcome, RelayError, RelayMode, RELAY_FAILURE,
};
use rustfmt_shim::rewrite::rewrite_source;

#[test]
fn echoing_formatter_gets_rewritten_input_back() {
    let input = "use bumpalo::core_alloc::Bump;\nfn main() {}\n";
    let fed = child_input(RelayMode::Piped, input).unwrap();
    assert_eq!(fed, rewrite_source(input));
    let outcome = ProcessOutcome { stdout: fed.clone().into_bytes(), stderr: Vec::new(), code: Some(0) };
    let relayed = relay_outcome(outcome).ok().unwrap();
    assert_eq!(relayed.stdout, b"use std::Bump;\nfn main() {}\n".to_vec());
    assert!(relayed.stderr.is_empty());
    assert_eq!(exit_status(&Ok(relayed.exit_code)), 0);
}

#[test]
fn failing_formatter_code_and_stderr_are_passed_on() {
    let outcome = ProcessOutcome {
        stdout: Vec::new(),
        stderr: b"error: expected item\n".to_vec(),
        code: Some(2),
    };
    let relayed = relay_outcome(outcome).ok().unwrap();
    assert_eq!(relayed.stderr, b"error: expected item\n".to_vec());
    assert_eq!(exit_status(&Ok(relayed.exit_code)), 2);
}

#[test]
fn killed_formatter_is_a_relay_failure() {
    let outcome = ProcessOutcome { stdout: b"partial".to_vec(), stderr: Vec::new(), code: None };
    let r = relay_outcome(outcome);
    assert!(matches!(r, Err(RelayError::NoExitCode)));
    assert_eq!(child_exit_code(None), Err(RelayError::NoExitCode));
    assert_eq!(child_exit_code(Some(3)), Ok(3));
    assert_eq!(exit_status(&Err(RelayError::NoExitCode)), 1);
}

#[test]
fn every_relay_error_exits_with_one() {
    for e in [
        RelayError::ReadInput,
        RelayError::Spawn,
        RelayError::WriteInput,
        RelayError::ReadOutput,
        RelayError::NoExitCode,
        RelayError::WriteStdout,
        RelayError::WriteStderr,
    ] {
        assert_eq!(exit_status(&Err(e)), RELAY_FAILURE);
    }
    assert_eq!(RELAY_FAILURE, 1);
}

#[test]
fn direct_mode_feeds_nothing() {
    assert!(child_input(RelayMode::Direct, "use bumpalo::core_alloc::Bump;").is_none());
}

#[test]
fn formatter_command_line() {
    let forwarded = vec!["--emit".to_string(), "stdout".to_string()];
    assert_eq!(
        formatter_args("1.70.0", &forwarded),
        vec!["run", "--install", "1.70.0", "rustfmt", "--emit", "stdout"]
    );
    assert_eq!(formatter_args("stable", &Vec::new()), vec!["run", "--install", "stable", "rustfmt"]);
}

#[test]
fn active_query_command_line() {
    assert_eq!(active_query_args(), vec!["show", "active-toolchain"]);
}

#[test]
fn stable_pin_with_bumpalo_source() {
    let config = "hooks:\n  - entry: rustup run --install stable rustfmt\n";
    assert_eq!(rustfmt_shim::toolchain::choose_toolchain(Some(config), None), "stable");
    let fed = child_input(RelayMode::Piped, "use bumpalo::core_alloc::Bump;\n").unwrap();
    assert!(fed.contains("use std::Bump;"));
}
