//! Tool calls from their parameters to their replies.
use base64::engine::general_purpose::STANDARD as BASE64;
use base64::Engine as _;

use ssh_mcp_rs::call::{CallAction, CallEvent, ToolCall, Work};
use ssh_mcp_rs::config::{AuthMethod, Config, ConfigFile, ConfigSettings, HostConfig, HostSettings};
use ssh_mcp_rs::error::{McpError, ToolError, INTERNAL_ERROR, INVALID_PARAMS};
use ssh_mcp_rs::name_map::NameMap;
use ssh_mcp_rs::pool::{ConnectionPool, Lookup};
use ssh_mcp_rs::reply::{format_download_result, format_exec_result, ToolReply};
use ssh_mcp_rs::security::{preflight, ProbedPath, SecurityChecker, ShellcheckOutcome};
use ssh_mcp_rs::server::{
    ExecParams, GetFileParams, PutFileParams, SshMcpServer, SudoExecParams,
};
use ssh_mcp_rs::ssh::{ExecOutput, MockSshSession};
use ssh_mcp_rs::sudo::build_sudo_command;

fn make_host(name: &str) -> HostConfig {
    HostConfig {
        host: format!("{name}.example.com"),
        port: 22,
        user: "u".into(),
        auth: AuthMethod::Agent,
        key_path: None,
        password: None,
        sudo_password: None,
        timeout_ms: 60_000,
        max_command_chars: 1_000,
        shellcheck: false,
        windows: false,
        allowed_commands: vec![],
    }
}

fn make_config(hosts: Vec<(&str, HostConfig)>) -> Config {
    let mut map = NameMap::new();
    for (name, host) in hosts {
        map.insert(name.to_string(), host);
    }
    Config { shellcheck_path: None, hosts: map }
}

/// A server, and what stands behind its one host.
struct Setup {
    server: SshMcpServer<()>,
    mock: MockSshSession,
    connects: usize,
    refuse: bool,
}

fn serve(config: Config, shellcheck: Option<&str>) -> SshMcpServer<()> {
    let pool = ConnectionPool::new(config.clone());
    let security = SecurityChecker::new(shellcheck.map(|bin| bin.as_bytes().to_vec()));
    SshMcpServer::new(pool, security, config)
}

fn make_server(mock: MockSshSession, host_name: &str) -> Setup {
    let config = make_config(vec![(host_name, make_host(host_name))]);
    Setup { server: serve(config, None), mock, connects: 0, refuse: false }
}

impl Setup {
    fn acquire(&mut self, host: &str) -> Result<(), ToolError> {
        let opened_with = match self.server.session(host)? {
            Lookup::Cached(()) => return Ok(()),
            Lookup::Connect(config) => config.clone(),
        };
        self.connects += 1;
        if self.refuse {
            return Err(ToolError::SshAuth { host: host.to_string() });
        }
        self.server.keep_session(host, opened_with, ());
        Ok(())
    }

    /// Carries a call out on the stand-in.
    fn run(&mut self, mut call: ToolCall) -> Result<ToolReply, McpError> {
        loop {
            let event = match call.action() {
                CallAction::Shellcheck(_) => CallEvent::Shellchecked(ShellcheckOutcome::Finished {
                    success: true,
                    stdout: vec![],
                }),
                CallAction::Acquire { host } => {
                    let host = host.to_string();
                    CallEvent::Acquired(self.acquire(&host))
                }
                CallAction::Work(Work::Exec { command }) => {
                    CallEvent::Executed(self.mock.exec(command))
                }
                CallAction::Work(Work::PutFile { remote_path, content, mode }) => {
                    CallEvent::Uploaded(self.mock.put_file(remote_path, content, *mode))
                }
                CallAction::Work(Work::GetFile { remote_path }) => {
                    CallEvent::Downloaded(self.mock.get_file(remote_path))
                }
                CallAction::Answer => return call.finish().unwrap(),
            };
            call = call.step(event);
        }
    }

    fn exec(&mut self, host: &str, command: &str) -> Result<ToolReply, McpError> {
        let call = self.server.exec(ExecParams {
            host: host.into(),
            command: command.into(),
            description: None,
        });
        self.run(call)
    }

    fn sudo_exec(&mut self, host: &str, command: &str) -> Result<ToolReply, McpError> {
        let call = self.server.sudo_exec(SudoExecParams {
            host: host.into(),
            command: command.into(),
            description: Some("why".into()),
        });
        self.run(call)
    }

    fn put_file(
        &mut self,
        host: &str,
        remote_path: &str,
        content: &str,
        mode: Option<u32>,
    ) -> Result<ToolReply, McpError> {
        let call = self.server.put_file(PutFileParams {
            host: host.into(),
            remote_path: remote_path.into(),
            content: content.into(),
            mode,
        });
        self.run(call)
    }

    fn get_file(&mut self, host: &str, remote_path: &str) -> Result<ToolReply, McpError> {
        let call = self.server.get_file(GetFileParams {
            host: host.into(),
            remote_path: remote_path.into(),
        });
        self.run(call)
    }
}

fn output(stdout: &str, stderr: &str, exit_code: u32) -> ExecOutput {
    ExecOutput { stdout: stdout.into(), stderr: stderr.into(), exit_code }
}

#[test]
fn exec_returns_stdout_on_success() {
    let mut mock = MockSshSession::new();
    mock.set_exec("ls", output("file.txt\n", "", 0));
    let mut server = make_server(mock, "prod");
    let result = server.exec("prod", "ls").unwrap();
    assert!(!result.is_error);
    assert!(result.text.contains("file.txt"));
}

#[test]
fn exec_unknown_host_returns_mcp_error() {
    let mut server = make_server(MockSshSession::new(), "prod");
    let err = server.exec("nonexistent", "ls").unwrap_err();
    assert_eq!(err.code, INVALID_PARAMS);
}

#[test]
fn exec_empty_command_returns_mcp_error() {
    let mut server = make_server(MockSshSession::new(), "prod");
    let err = server.exec("prod", "").unwrap_err();
    assert_eq!(err.code, INVALID_PARAMS);
}

#[test]
fn exec_non_zero_exit_sets_is_error() {
    let mut mock = MockSshSession::new();
    mock.set_exec("false", output("", "error\n", 1));
    let mut server = make_server(mock, "prod");
    let result = server.exec("prod", "false").unwrap();
    assert!(result.is_error);
}

#[test]
fn put_file_invalid_base64_returns_error() {
    let mut server = make_server(MockSshSession::new(), "prod");
    let err = server
        .put_file("prod", "/tmp/test.txt", "not-valid-base64!!!!", None)
        .unwrap_err();
    assert_eq!(err.code, INVALID_PARAMS);
}

#[test]
fn put_file_empty_path_returns_error() {
    let mut server = make_server(MockSshSession::new(), "prod");
    let err = server.put_file("prod", "", &BASE64.encode(b"data"), None).unwrap_err();
    assert_eq!(err.code, INVALID_PARAMS);
}

#[test]
fn list_hosts_returns_sorted_names() {
    let config = make_config(vec![("zebra", make_host("zebra")), ("alpha", make_host("alpha"))]);
    let server = serve(config, None);
    let result = server.list_hosts().unwrap();
    assert_eq!(result.text, "alpha\nzebra");
    assert!(!result.is_error);
}

#[test]
fn build_sudo_command_with_password() {
    let cmd = build_sudo_command("ls -la", Some("mypass"));
    assert!(cmd.contains("printf"));
    assert!(cmd.contains("sudo -p '' -S"));
    assert!(cmd.contains("ls -la"));
}

#[test]
fn build_sudo_command_without_password() {
    let cmd = build_sudo_command("ls -la", None);
    assert!(cmd.contains("sudo -n"));
    assert!(cmd.contains("ls -la"));
}

#[test]
fn test_list_hosts_no_docker_needed() {
    // Listing hosts does not open a connection; the port is a dummy.
    let mut host = make_host("test");
    host.host = "127.0.0.1".into();
    host.port = 22222;
    host.user = "linuxserver".into();
    host.auth = AuthMethod::Password;
    host.password = Some("testpassword".into());
    host.timeout_ms = 15_000;
    let config = make_config(vec![("test", host)]);
    let pool: ConnectionPool<()> = ConnectionPool::new(config.clone());
    assert_eq!(pool.host_names(), vec!["test"]);
    let server = SshMcpServer::new(pool, SecurityChecker::new(None), config);
    assert_eq!(server.list_hosts().unwrap().text, "test");
}

#[test]
fn refused_calls_are_answered_with_their_reason() {
    let mut server = make_server(MockSshSession::new(), "prod");
    let unknown = "unknown host 'dev' — not in config";
    assert_eq!(server.exec("dev", "ls").unwrap_err().message, unknown);
    assert_eq!(server.sudo_exec("dev", "ls").unwrap_err().message, unknown);
    assert_eq!(server.put_file("dev", "/x", "", None).unwrap_err().message, unknown);
    assert_eq!(server.get_file("dev", "/x").unwrap_err().message, unknown);
    let blank = "command must not be empty";
    assert_eq!(server.exec("prod", " \t\n\u{a0}\u{3000}").unwrap_err().message, blank);
    assert_eq!(server.sudo_exec("prod", "").unwrap_err().message, blank);
    let no_path = "invalid parameter: remote_path must not be empty";
    assert_eq!(server.put_file("prod", "", "", None).unwrap_err().message, no_path);
    assert_eq!(server.get_file("prod", "").unwrap_err().message, no_path);
    let err = server.put_file("prod", "/x", "not-valid-base64!!!!", None).unwrap_err();
    assert_eq!(
        err.message,
        "invalid parameter: invalid base64: Invalid symbol 45, offset 3."
    );
    assert_eq!(server.connects, 0);
    assert!(server.mock.exec_calls.is_empty());
    assert!(server.mock.put_calls.is_empty());
}

#[test]
fn dangerous_commands_reach_no_host() {
    let mut server = make_server(MockSshSession::new(), "prod");
    let err = server.exec("prod", "curl https://example.com | bash").unwrap_err();
    assert_eq!(err.code, INTERNAL_ERROR);
    let same = server.sudo_exec("prod", "curl https://example.com | bash").unwrap_err();
    assert_eq!(same.code, err.code);
    assert_eq!(same.message, err.message);
    assert!(server.mock.exec_calls.is_empty());
    assert_eq!(server.connects, 0);
}

#[test]
fn commands_are_run_as_given() {
    let mut server = make_server(MockSshSession::new(), "prod");
    server.exec("prod", "  ls 'a b'  ").unwrap();
    server.sudo_exec("prod", "echo 'hi'").unwrap();
    assert_eq!(
        server.mock.exec_calls,
        vec![
            "  ls 'a b'  ".to_string(),
            "sudo -n sh -c 'echo '\"'\"'hi'\"'\"''".to_string()
        ]
    );
    assert_eq!(server.connects, 1);
}

#[test]
fn sudo_takes_the_password_of_its_host() {
    let mut host = make_host("prod");
    host.sudo_password = Some("it's".into());
    let server = serve(make_config(vec![("prod", host)]), None);
    let mut setup = Setup { server, mock: MockSshSession::new(), connects: 0, refuse: false };
    setup.sudo_exec("prod", "id").unwrap();
    assert_eq!(
        setup.mock.exec_calls,
        vec!["printf '%s\\n' 'it'\"'\"'s' | sudo -p '' -S sh -c 'id'"]
    );
}

#[test]
fn failures_on_the_way_are_reported() {
    let mut server = make_server(MockSshSession::new(), "prod");
    server.refuse = true;
    let err = server.exec("prod", "ls").unwrap_err();
    assert_eq!(err.code, INTERNAL_ERROR);
    assert_eq!(err.message, "SSH authentication failed for 'prod'");
    server.refuse = false;
    server.mock.set_exec_error("ls", "broken");
    let err = server.exec("prod", "ls").unwrap_err();
    assert_eq!(err.message, "invalid parameter: broken");
    let err = server.get_file("prod", "/none").unwrap_err();
    assert_eq!(err.code, INTERNAL_ERROR);
    assert_eq!(err.message, "SFTP error on 'mock': file not found: /none");
}

#[test]
fn output_is_shown_in_full() {
    let reply = format_exec_result(output("out", "", 0));
    assert_eq!((reply.text.as_str(), reply.is_error), ("out", false));
    let reply = format_exec_result(output("out", "err", 0));
    assert_eq!(
        (reply.text.as_str(), reply.is_error),
        ("stdout:\nout\nstderr:\nerr", false)
    );
    let reply = format_exec_result(output("out", "", 3));
    assert_eq!((reply.text.as_str(), reply.is_error), ("exit code: 3\nout", true));
    let reply = format_exec_result(output("", "err", u32::MAX));
    assert_eq!(
        (reply.text.as_str(), reply.is_error),
        ("exit code: 4294967295\nstdout:\n\nstderr:\nerr", true)
    );
}

#[test]
fn uploads_write_the_decoded_bytes() {
    let mut server = make_server(MockSshSession::new(), "prod");
    let reply = server.put_file("prod", "/tmp/a", "aGVsbG8=", None).unwrap();
    assert_eq!(reply.text, "Uploaded 5 bytes to /tmp/a");
    assert!(!reply.is_error);
    let reply = server.put_file("prod", "/tmp/b", "", Some(0o600)).unwrap();
    assert_eq!(reply.text, "Uploaded 0 bytes to /tmp/b");
    assert_eq!(server.mock.get_file("/tmp/a").unwrap(), b"hello");
    assert_eq!(server.mock.get_file("/tmp/b").unwrap(), b"");
    assert_eq!(
        server.mock.put_calls,
        vec![("/tmp/a".to_string(), 420), ("/tmp/b".to_string(), 0o600)]
    );
}

#[test]
fn downloads_give_the_bytes_in_base64() {
    let mut server = make_server(MockSshSession::new(), "prod");
    server.mock.set_file("/f", vec![0, 255, 16, 131]);
    let reply = server.get_file("prod", "/f").unwrap();
    assert_eq!(reply.text, "{\"bytes\":4,\"content\":\"AP8Qgw==\"}");
    server.mock.set_file("/empty", vec![]);
    let reply = server.get_file("prod", "/empty").unwrap();
    assert_eq!(reply.text, "{\"bytes\":0,\"content\":\"\"}");
    assert_eq!(format_download_result(1, "QQ==").text, "{\"bytes\":1,\"content\":\"QQ==\"}");
}

#[test]
fn what_was_got_can_be_put_back_unchanged() {
    let mut server = make_server(MockSshSession::new(), "prod");
    for n in 0..=300usize {
        let bytes: Vec<u8> = (0..n).map(|i| (i * 7 % 256) as u8).collect();
        server.mock.set_file("/from", bytes.clone());
        let reply = server.get_file("prod", "/from").unwrap();
        let (before, rest) = reply.text.split_at(format!("{{\"bytes\":{n},\"content\":\"").len());
        assert_eq!(before, format!("{{\"bytes\":{n},\"content\":\""));
        let content = rest.strip_suffix("\"}").unwrap();
        assert_eq!(content.len(), (n + 2) / 3 * 4);
        assert!(content.chars().all(|c| c.is_ascii_alphanumeric() || "+/=".contains(c)));
        let uploaded = server.put_file("prod", "/to", content, None).unwrap();
        assert_eq!(uploaded.text, format!("Uploaded {n} bytes to /to"));
        assert_eq!(server.mock.get_file("/to").unwrap(), bytes);
    }
}

#[test]
fn what_was_put_is_got_back_unchanged() {
    let mut server = make_server(MockSshSession::new(), "prod");
    for content in ["", "QQ==", "QUI=", "QUJD", "AP8Qgw==", "+/+/"] {
        server.put_file("prod", "/f", content, None).unwrap();
        let reply = server.get_file("prod", "/f").unwrap();
        assert!(reply.text.ends_with(&format!(",\"content\":\"{content}\"}}")));
    }
    // Only the base64 that is written for some bytes is read.
    for content in ["QQ", "QQ=", "QR==", "QUJ=", "QUI", "QQ==QQ==", "QUJD\n", "=QQ=", "-_-_", "QUJé", "Q", "QUJDQ"] {
        let err = server.put_file("prod", "/f", content, None).unwrap_err();
        assert_eq!(err.code, INVALID_PARAMS, "{content:?}");
    }
}

#[test]
fn a_server_started_after_preflight_checks_its_hosts() {
    let mut on = make_host("on");
    on.shellcheck = true;
    let config = make_config(vec![("on", on), ("off", make_host("off"))]);
    let candidates = vec![ProbedPath { path: b"/bin/shellcheck".to_vec(), exists: true }];
    let bin = preflight(&config, false, &candidates).unwrap();
    let pool: ConnectionPool<()> = ConnectionPool::new(config.clone());
    let server = SshMcpServer::new(pool, SecurityChecker::new(bin), config);
    let call = |host: &str| {
        server.exec(ExecParams { host: host.into(), command: "ls".into(), description: None })
    };
    assert!(matches!(call("on").action(), CallAction::Shellcheck(_)));
    assert!(matches!(call("off").action(), CallAction::Acquire { host: "off" }));
}

fn shellchecked_call(server: &SshMcpServer<()>) -> ToolCall {
    server.exec(ExecParams { host: "prod".into(), command: "ls".into(), description: None })
}

#[test]
fn nothing_runs_before_shellcheck_passed() {
    let mut host = make_host("prod");
    host.shellcheck = true;
    let server = serve(make_config(vec![("prod", host)]), Some("/usr/bin/shellcheck"));
    let call = shellchecked_call(&server);
    match call.action() {
        CallAction::Shellcheck(job) => {
            assert_eq!(job.bin, b"/usr/bin/shellcheck");
            assert_eq!(job.script, "#!/bin/sh\nls\n");
        }
        other => panic!("{other:?}"),
    }
    // Events that answer nothing change nothing.
    let call = call.step(CallEvent::Acquired(Ok(())));
    let call = call.step(CallEvent::Executed(Ok(output("x", "", 0))));
    assert!(matches!(call.action(), CallAction::Shellcheck(_)));
    let call = call.step(CallEvent::Shellchecked(ShellcheckOutcome::Finished {
        success: true,
        stdout: vec![],
    }));
    assert!(matches!(call.action(), CallAction::Acquire { host: "prod" }));

    let failed = shellchecked_call(&server).step(CallEvent::Shellchecked(
        ShellcheckOutcome::Finished { success: false, stdout: b"SC1009".to_vec() },
    ));
    let failed = failed.step(CallEvent::Acquired(Ok(())));
    assert!(matches!(failed.action(), CallAction::Answer));
    let err = failed.finish().unwrap().unwrap_err();
    assert_eq!(err.code, INTERNAL_ERROR);
    assert_eq!(err.message, "shellcheck failed: SC1009");
}

#[test]
fn a_call_has_no_answer_before_it_has_one() {
    let server = make_server(MockSshSession::new(), "prod").server;
    assert!(shellchecked_call(&server).finish().is_none());
}

#[test]
fn decoding_decides_what_is_put() {
    let server = make_server(MockSshSession::new(), "prod").server;
    let call = server.put_decoded("prod".into(), "/x".into(), Err("why".into()), None);
    assert_eq!(
        call.finish().unwrap().unwrap_err().message,
        "invalid parameter: invalid base64: why"
    );
    let call = server
        .put_decoded("prod".into(), "/x".into(), Ok(vec![1, 2]), None)
        .step(CallEvent::Acquired(Ok(())));
    match call.action() {
        CallAction::Work(Work::PutFile { remote_path, content, mode }) => {
            assert_eq!(remote_path, "/x");
            assert_eq!(content, &vec![1, 2]);
            assert_eq!(*mode, 0o644);
        }
        other => panic!("{other:?}"),
    }
}

#[test]
fn calls_go_by_the_configuration_that_was_reloaded() {
    let mut setup = make_server(MockSshSession::new(), "prod");
    setup.exec("prod", "ls").unwrap();
    let settings = ConfigSettings {
        shellcheck_path: None,
        hosts: vec![(
            "dev".to_string(),
            HostSettings {
                host: "dev.example.com".into(),
                port: None,
                user: "u".into(),
                auth: AuthMethod::Agent,
                key_path: None,
                password: None,
                sudo_password: None,
                timeout_ms: None,
                max_command_chars: Some(2),
                shellcheck: None,
                windows: None,
                allowed_commands: None,
            },
        )],
    };
    setup.server.reload("/c.toml", ConfigFile::Settings(settings)).unwrap();
    assert_eq!(setup.exec("prod", "ls").unwrap_err().code, INVALID_PARAMS);
    assert!(setup.exec("dev", "ls").is_ok());
    assert_eq!(setup.exec("dev", "pwd").unwrap_err().code, INVALID_PARAMS);
    assert!(setup.server.reload("/c.toml", ConfigFile::Missing).is_err());
    assert!(setup.exec("dev", "ls").is_ok());
    assert_eq!(setup.server.list_hosts().unwrap().text, "dev");
}
