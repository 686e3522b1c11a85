//! The stand-in for a session.
use ssh_mcp_rs::error::ToolError;
use ssh_mcp_rs::ssh::{ExecOutput, MockSshSession};

#[test]
fn mock_exec_returns_configured_output() {
    let mut mock = MockSshSession::new();
    mock.set_exec(
        "ls",
        ExecOutput { stdout: "file.txt\n".into(), stderr: String::new(), exit_code: 0 },
    );
    let out = mock.exec("ls").unwrap();
    assert_eq!(out.stdout, "file.txt\n");
    assert_eq!(out.exit_code, 0);
}

#[test]
fn mock_exec_unknown_command_returns_empty_ok() {
    let mut mock = MockSshSession::new();
    let out = mock.exec("unknown").unwrap();
    assert_eq!(out.exit_code, 0);
    assert!(out.stdout.is_empty());
}

#[test]
fn mock_exec_records_calls() {
    let mut mock = MockSshSession::new();
    mock.exec("cmd1").unwrap();
    mock.exec("cmd2").unwrap();
    assert_eq!(mock.exec_calls, vec!["cmd1", "cmd2"]);
}

#[test]
fn mock_put_and_get_file_roundtrip() {
    let mut mock = MockSshSession::new();
    let content = b"hello world";
    mock.put_file("/tmp/test.txt", content, 0o644).unwrap();
    let retrieved = mock.get_file("/tmp/test.txt").unwrap();
    assert_eq!(retrieved, content);
}

#[test]
fn mock_get_file_missing_returns_error() {
    let mock = MockSshSession::new();
    assert!(mock.get_file("/nonexistent").is_err());
}

#[test]
fn mock_put_records_mode() {
    let mut mock = MockSshSession::new();
    mock.put_file("/tmp/a.txt", b"data", 0o600).unwrap();
    assert_eq!(mock.put_calls[0], ("/tmp/a.txt".to_string(), 0o600));
}

#[test]
fn mock_exec_fails_as_set() {
    let mut mock = MockSshSession::new();
    mock.set_exec_error("boom", "no such thing");
    assert!(matches!(mock.exec("boom"), Err(ToolError::InvalidParam(m)) if m == "no such thing"));
    assert_eq!(mock.exec_calls, vec!["boom"]);
}

#[test]
fn mock_files_do_not_mix() {
    let mut mock = MockSshSession::new();
    mock.set_file("/a", vec![1]);
    mock.put_file("/b", &[2], 0o644).unwrap();
    mock.put_file("/b", &[3], 0o644).unwrap();
    assert_eq!(mock.get_file("/a").unwrap(), vec![1]);
    assert_eq!(mock.get_file("/b").unwrap(), vec![3]);
    assert!(matches!(
        mock.get_file("/c"),
        Err(ToolError::Sftp { host, message }) if host == "mock" && message == "file not found: /c"
    ));
}

#[test]
fn a_default_mock_is_a_new_one() {
    let mut mock = MockSshSession::default();
    assert!(mock.exec_responses.is_empty());
    assert!(mock.files.is_empty());
    assert!(mock.exec_calls.is_empty());
    assert!(mock.put_calls.is_empty());
    assert_eq!(mock.exec("ls").unwrap().exit_code, 0);
}
