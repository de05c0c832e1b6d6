use kmon::exec::{command_result, ProcessOutcome};

fn exited(success: bool, stdout: &str, stderr: &str) -> ProcessOutcome {
    ProcessOutcome::Exited {
        success,
        stdout: stdout.to_string(),
        stderr: stderr.to_string(),
    }
}

#[test]
fn test_exec_cmd() {
    // what `printf test` leaves
    assert_eq!("test", command_result(exited(true, "test", "")).unwrap());
    // what `sh -c "test 10 -eq 10 && echo 'true'"` leaves
    assert_eq!("true", command_result(exited(true, "true\n", "")).unwrap());
    // what `cat -x` leaves
    assert_eq!(
        "err",
        command_result(exited(
            false,
            "",
            "cat: invalid option -- 'x'\nTry 'cat --help' for more information.\n"
        ))
        .unwrap_or(String::from("err"))
    );
}

#[test]
fn failure_carries_trimmed_standard_error() {
    let r = command_result(exited(false, "ignored\n", "  modprobe: FATAL: not found \n\n"));
    assert_eq!(r, Err("  modprobe: FATAL: not found".to_string()));
}

#[test]
fn success_keeps_leading_and_inner_white_space() {
    let r = command_result(exited(true, "\t a  b\n c \r\n\t ", "warning\n"));
    assert_eq!(r, Ok("\t a  b\n c".to_string()));
}

#[test]
fn success_with_only_white_space_is_empty() {
    assert_eq!(command_result(exited(true, "\n \n", "")), Ok(String::new()));
}

#[test]
fn launch_failure_keeps_the_reason() {
    let r = command_result(ProcessOutcome::NotStarted {
        reason: "No such file or directory (os error 2)\n".to_string(),
    });
    assert_eq!(r, Err("No such file or directory (os error 2)\n".to_string()));
}

#[test]
fn same_outcome_gives_same_result() {
    let first = command_result(exited(true, "test", ""));
    let second = command_result(exited(true, "test", ""));
    assert_eq!(first, second);
}
