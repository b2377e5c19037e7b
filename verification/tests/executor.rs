use shell_exec::{
    execute_boxed_trait_object, execute_generics, execute_trait_object, exit_code, Executor,
    ProcessStatus, Shell,
};

#[test]
fn shell_should_work() {
    let cmd = Shell::new("ls", &[]);
    let result = cmd.run().unwrap();
    assert_eq!(result, Some(0));
}

#[test]
fn execute_should_work() {
    let cmd = Shell::new("ls", &[]);
    let result = execute_generics(&cmd).unwrap();
    assert_eq!(result, Some(0));

    let result = execute_trait_object(&cmd).unwrap();
    assert_eq!(result, Some(0));

    let boxed = Box::new(cmd);
    let result = execute_boxed_trait_object(boxed).unwrap();
    assert_eq!(result, Some(0));
}

#[test]
fn missing_executable_is_an_error() {
    let cmd = Shell::new("no_such_executable_anywhere_on_this_machine", &[]);
    let result = cmd.run();
    assert!(result.is_err());
    let err = result.err().unwrap();
    assert_eq!(err.cause().kind(), std::io::ErrorKind::NotFound);
}

#[test]
fn run_twice_on_the_same_value() {
    let cmd = Shell::new("ls", &[]);
    let first = cmd.run().unwrap();
    let second = cmd.run().unwrap();
    assert_eq!(first, Some(0));
    assert_eq!(second, Some(0));
}

#[test]
fn nonzero_exit_code_is_reported() {
    let args = ["-c", "exit 7"];
    let cmd = Shell::new("sh", &args);
    let result = cmd.run().unwrap();
    assert_eq!(result, Some(7));
}

#[test]
fn argument_with_spaces_and_globs_is_one_token() {
    let script = r#"[ $# -eq 1 ] && [ "$1" = "a b *" ]"#;
    let args = ["-c", script, "sh", "a b *"];
    let cmd = Shell::new("sh", &args);
    let result = cmd.run().unwrap();
    assert_eq!(result, Some(0));
}

#[test]
fn death_by_signal_has_no_exit_code() {
    let args = ["-c", "kill -9 $$"];
    let cmd = Shell::new("sh", &args);
    let result = cmd.run().unwrap();
    assert_eq!(result, None);
}

#[test]
fn exit_code_of_reported_statuses() {
    assert_eq!(exit_code(&ProcessStatus::Exited(0)), Some(0));
    assert_eq!(exit_code(&ProcessStatus::Exited(42)), Some(42));
    assert_eq!(exit_code(&ProcessStatus::NoExitCode), None);
}
