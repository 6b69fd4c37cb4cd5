use codeguard::tools::base::{conclude, Invocation, Launch, ProcessOutput, RunError, ToolRunner};
use codeguard::tools::Tool;

fn sample_tool() -> Tool {
    Tool {
        name: "cargo-fmt".to_string(),
        command: "cargo".to_string(),
        args: vec!["fmt".to_string(), "--check".to_string()],
        category: "formatting".to_string(),
        description: "Check Rust code formatting".to_string(),
    }
}

fn exited(success: bool, stdout: &[u8], stderr: &[u8]) -> Launch {
    Launch::Exited(ProcessOutput { success, stdout: stdout.to_vec(), stderr: stderr.to_vec() })
}

#[test]
fn invocation_is_command_arguments_and_directory() {
    assert_eq!(
        sample_tool().invocation("/work/project"),
        Invocation {
            program: "cargo".to_string(),
            args: vec!["fmt".to_string(), "--check".to_string()],
            directory: "/work/project".to_string(),
        }
    );
}

#[test]
fn run_of_a_process_that_could_not_start_is_a_spawn_error() {
    let result = sample_tool().run(Launch::Failed("No such file or directory".to_string()));
    assert_eq!(result, Err(RunError::SpawnError("No such file or directory".to_string())));
}

#[test]
fn run_with_exit_status_zero_is_the_standard_output() {
    let result = sample_tool().run(exited(true, b"all good\n", b"warning: ignored\n"));
    assert_eq!(result, Ok("all good\n".to_string()));
}

#[test]
fn run_with_other_exit_status_carries_the_standard_error() {
    let result = sample_tool().run(exited(false, b"partial output", b"3 files need formatting\n"));
    assert_eq!(result, Err(RunError::ToolFailed("3 files need formatting\n".to_string())));
}

#[test]
fn run_with_empty_streams() {
    assert_eq!(sample_tool().run(exited(true, b"", b"")), Ok(String::new()));
    assert_eq!(
        sample_tool().run(exited(false, b"", b"")),
        Err(RunError::ToolFailed(String::new()))
    );
}

#[test]
fn output_is_decoded_as_utf8() {
    let result = sample_tool().run(exited(true, &[0x6f, 0x6b, 0x20, 0xc3, 0xa9, 0xe2, 0x9c, 0x93], b""));
    assert_eq!(result, Ok("ok \u{e9}\u{2713}".to_string()));
}

#[test]
fn invalid_bytes_are_replaced_never_fatal() {
    let result = sample_tool().run(exited(true, b"ab\xffcd", b""));
    assert_eq!(result, Ok("ab\u{fffd}cd".to_string()));
    let result = sample_tool().run(exited(false, b"", b"\xc3(\xe2\x82"));
    assert_eq!(result, Err(RunError::ToolFailed("\u{fffd}(\u{fffd}".to_string())));
}

#[test]
fn conclude_decides_by_the_exit_status_alone() {
    assert_eq!(conclude(true, "out".to_string(), "err".to_string()), Ok("out".to_string()));
    assert_eq!(
        conclude(false, "out".to_string(), "err".to_string()),
        Err(RunError::ToolFailed("err".to_string()))
    );
}

#[test]
fn error_messages() {
    assert_eq!(
        RunError::ToolFailed("lint errors".to_string()).message(),
        "Command failed: lint errors"
    );
    assert_eq!(RunError::ToolFailed(String::new()).message(), "Command failed: ");
    assert_eq!(
        RunError::SpawnError("permission denied".to_string()).message(),
        "permission denied"
    );
}

#[test]
fn tool_clone_is_equal() {
    let tool = sample_tool();
    assert_eq!(tool.clone(), tool);
}
