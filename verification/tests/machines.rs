//! Opening sessions, running commands and moving files, step by step.
use ssh_mcp_rs::channel::{ChannelMessage, ExecAction, ExecEvent, RemoteExec};
use ssh_mcp_rs::config::{AuthMethod, HostConfig};
use ssh_mcp_rs::connect::{key_not_loaded, ConnectAction, ConnectEvent, Connecting};
use ssh_mcp_rs::error::ToolError;
use ssh_mcp_rs::sftp::{Download, DownloadEvent, SftpAction, Upload};

fn host(auth: AuthMethod) -> HostConfig {
    HostConfig {
        host: "prod.example.com".into(),
        port: 2222,
        user: "deploy".into(),
        auth,
        key_path: Some("/keys/my \"key\"".into()),
        password: Some("secret".into()),
        sudo_password: None,
        timeout_ms: 30_000,
        max_command_chars: 0,
        shellcheck: false,
        windows: false,
        allowed_commands: vec![],
    }
}

fn connecting(auth: AuthMethod) -> Connecting<u8> {
    Connecting::new("prod", host(auth))
}

fn dialed(auth: AuthMethod) -> Connecting<u8> {
    connecting(auth).step(ConnectEvent::Dialed(Ok(())))
}

#[test]
fn connecting_dials_first() {
    let c = connecting(AuthMethod::Password);
    assert!(matches!(
        c.action(),
        ConnectAction::Dial { host: "prod.example.com", port: 2222, timeout_ms: 30_000 }
    ));
    let failed = c.step(ConnectEvent::Dialed(Err("refused".into())));
    assert!(matches!(failed.action(), ConnectAction::Finish));
    assert!(matches!(
        failed.finish(),
        Some(Err(ToolError::SshConnect { host, source })) if host == "prod" && source == "refused"
    ));
    assert!(connecting(AuthMethod::Password).finish().is_none());
}

#[test]
fn a_password_is_shown_and_judged() {
    let c = dialed(AuthMethod::Password);
    assert!(matches!(
        c.action(),
        ConnectAction::Password { user: "deploy", password: "secret" }
    ));
    assert!(matches!(
        c.step(ConnectEvent::Authenticated(Ok(true))).finish(),
        Some(Ok(()))
    ));
    let refused = dialed(AuthMethod::Password).step(ConnectEvent::Authenticated(Ok(false)));
    assert!(matches!(
        refused.finish(),
        Some(Err(ToolError::SshAuth { host })) if host == "prod"
    ));
    let broken = dialed(AuthMethod::Password).step(ConnectEvent::Authenticated(Err("eof".into())));
    assert!(matches!(
        broken.finish(),
        Some(Err(ToolError::SshConnect { source, .. })) if source == "eof"
    ));
}

#[test]
fn a_missing_password_is_shown_as_none() {
    let mut config = host(AuthMethod::Password);
    config.password = None;
    let c: Connecting<u8> = Connecting::new("prod", config).step(ConnectEvent::Dialed(Ok(())));
    assert!(matches!(c.action(), ConnectAction::Password { password: "", .. }));
}

#[test]
fn a_key_is_loaded_and_shown_with_the_servers_hash() {
    let c = dialed(AuthMethod::Key);
    assert!(matches!(c.action(), ConnectAction::LoadKey { path: "/keys/my \"key\"" }));
    let c = c.step(ConnectEvent::KeyLoaded(Ok(())));
    assert!(matches!(c.action(), ConnectAction::RsaHash));
    let c = c.step(ConnectEvent::RsaHash(Ok(Some(Some(7)))));
    assert!(matches!(c.action(), ConnectAction::Key { user: "deploy", hash: Some(7) }));
    assert!(matches!(c.step(ConnectEvent::Authenticated(Ok(true))).finish(), Some(Ok(()))));
    for answer in [None, Some(None)] {
        let c = dialed(AuthMethod::Key)
            .step(ConnectEvent::KeyLoaded(Ok(())))
            .step(ConnectEvent::RsaHash(Ok(answer)));
        assert!(matches!(c.action(), ConnectAction::Key { hash: None, .. }));
    }
}

#[test]
fn a_key_that_cannot_be_loaded_is_shown_by_its_path() {
    let c = dialed(AuthMethod::Key).step(ConnectEvent::KeyLoaded(Err("no such file".into())));
    let expected = format!(
        "failed to load key {:?}: no such file",
        std::path::Path::new("/keys/my \"key\"")
    );
    assert!(matches!(
        c.finish(),
        Some(Err(ToolError::InvalidParam(m))) if m == expected
    ));
    assert!(matches!(
        key_not_loaded("\"k\"", "why"),
        ToolError::InvalidParam(m) if m == "failed to load key \"k\": why"
    ));
}

#[test]
fn identities_of_the_agent_are_tried_in_order() {
    let c = dialed(AuthMethod::Agent);
    assert!(matches!(c.action(), ConnectAction::ReachAgent));
    let c = c.step(ConnectEvent::AgentReached(true));
    assert!(matches!(c.action(), ConnectAction::ListIdentities));
    let mut c = c.step(ConnectEvent::Identities(Ok(3)));
    for (at, answer) in [Ok(false), Err("eof".to_string())].into_iter().enumerate() {
        assert!(matches!(c.action(), ConnectAction::RsaHash));
        c = c.step(ConnectEvent::RsaHash(Ok(None)));
        assert!(matches!(
            c.action(),
            ConnectAction::Identity { index, user: "deploy", hash: None } if index == at
        ));
        c = c.step(ConnectEvent::Authenticated(answer));
    }
    c = c.step(ConnectEvent::RsaHash(Ok(Some(Some(1)))));
    assert!(matches!(
        c.action(),
        ConnectAction::Identity { index: 2, hash: Some(1), .. }
    ));
    assert!(matches!(c.step(ConnectEvent::Authenticated(Ok(true))).finish(), Some(Ok(()))));
}

#[test]
fn an_agent_without_an_accepted_identity_fails() {
    let listed = |count: usize| {
        dialed(AuthMethod::Agent)
            .step(ConnectEvent::AgentReached(true))
            .step(ConnectEvent::Identities(Ok(count)))
    };
    assert!(matches!(listed(0).finish(), Some(Err(ToolError::SshAuth { .. }))));
    let c = listed(1)
        .step(ConnectEvent::RsaHash(Ok(None)))
        .step(ConnectEvent::Authenticated(Ok(false)));
    assert!(matches!(c.finish(), Some(Err(ToolError::SshAuth { .. }))));
    let c = listed(1).step(ConnectEvent::RsaHash(Err("eof".into())));
    assert!(matches!(c.finish(), Some(Err(ToolError::SshConnect { .. }))));
    let c = dialed(AuthMethod::Agent).step(ConnectEvent::AgentReached(false));
    assert!(matches!(
        c.finish(),
        Some(Err(ToolError::InvalidParam(m))) if m == "SSH_AUTH_SOCK not set or agent unavailable"
    ));
    let c = dialed(AuthMethod::Agent)
        .step(ConnectEvent::AgentReached(true))
        .step(ConnectEvent::Identities(Err("locked".into())));
    assert!(matches!(
        c.finish(),
        Some(Err(ToolError::InvalidParam(m))) if m == "agent request_identities failed: locked"
    ));
}

#[test]
fn events_out_of_turn_open_nothing() {
    let c = connecting(AuthMethod::Password).step(ConnectEvent::Authenticated(Ok(true)));
    assert!(matches!(c.action(), ConnectAction::Dial { .. }));
    let c = dialed(AuthMethod::Key).step(ConnectEvent::Authenticated(Ok(true)));
    assert!(matches!(c.action(), ConnectAction::LoadKey { .. }));
    let failed = dialed(AuthMethod::Password).step(ConnectEvent::Authenticated(Ok(false)));
    let failed = failed.step(ConnectEvent::Authenticated(Ok(true)));
    assert!(matches!(failed.finish(), Some(Err(ToolError::SshAuth { .. }))));
}

#[test]
fn a_command_gives_what_its_channel_says() {
    let exec = RemoteExec::new("prod", "make");
    assert!(matches!(exec.action(), ExecAction::OpenChannel));
    let exec = exec.step(ExecEvent::ChannelOpened(Ok(())));
    assert!(matches!(exec.action(), ExecAction::RequestExec { command: "make" }));
    let mut exec = exec.step(ExecEvent::Requested(Ok(())));
    for message in [
        ChannelMessage::Data(b"one ".to_vec()),
        ChannelMessage::ExtendedData { data: b"warn".to_vec(), ext: 1 },
        ChannelMessage::ExtendedData { data: b"lost".to_vec(), ext: 2 },
        ChannelMessage::Other,
        ChannelMessage::ExitStatus(1),
        ChannelMessage::ExitStatus(42),
        ChannelMessage::Data(b"t\xffwo \xc3".to_vec()),
        ChannelMessage::Data("\u{e4}".as_bytes().to_vec()),
    ] {
        assert!(matches!(exec.action(), ExecAction::Wait));
        exec = exec.step(ExecEvent::Received(Some(message)));
    }
    let exec = exec.step(ExecEvent::Received(None));
    assert!(matches!(exec.action(), ExecAction::Finish));
    let out = exec.finish().unwrap().unwrap();
    assert_eq!(out.stdout, "one t\u{fffd}wo \u{fffd}\u{e4}");
    assert_eq!(out.stderr, "warn");
    assert_eq!(out.exit_code, 42);
}

#[test]
fn a_command_without_an_exit_status_counts_as_successful() {
    let out = RemoteExec::new("prod", "x")
        .step(ExecEvent::ChannelOpened(Ok(())))
        .step(ExecEvent::Requested(Ok(())))
        .step(ExecEvent::Received(None))
        .finish()
        .unwrap()
        .unwrap();
    assert_eq!((out.stdout.as_str(), out.stderr.as_str(), out.exit_code), ("", "", 0));
}

#[test]
fn a_command_that_cannot_be_sent_fails() {
    let failed = RemoteExec::new("prod", "x").step(ExecEvent::ChannelOpened(Err("a".into())));
    assert!(matches!(
        failed.finish(),
        Some(Err(ToolError::SshConnect { host, source })) if host == "prod" && source == "a"
    ));
    let failed = RemoteExec::new("prod", "x")
        .step(ExecEvent::ChannelOpened(Ok(())))
        .step(ExecEvent::Requested(Err("b".into())));
    assert!(matches!(
        failed.finish(),
        Some(Err(ToolError::SshConnect { source, .. })) if source == "b"
    ));
    assert!(RemoteExec::new("prod", "x").finish().is_none());
}

#[test]
fn a_file_is_put_step_by_step() {
    let mut upload = Upload::new("prod", "/tmp/f", vec![1, 2, 3], 0o600);
    assert!(matches!(upload.action(), SftpAction::OpenChannel));
    upload = upload.step(Ok(()));
    assert!(matches!(upload.action(), SftpAction::RequestSubsystem { name: "sftp" }));
    upload = upload.step(Ok(()));
    assert!(matches!(upload.action(), SftpAction::StartSftp));
    upload = upload.step(Ok(()));
    assert!(matches!(upload.action(), SftpAction::CreateFile { path: "/tmp/f" }));
    upload = upload.step(Ok(()));
    assert!(matches!(upload.action(), SftpAction::SetPermissions { mode: 0o600 }));
    upload = upload.step(Ok(()));
    assert!(matches!(upload.action(), SftpAction::Write { content: [1, 2, 3] }));
    upload = upload.step(Ok(()));
    assert!(matches!(upload.action(), SftpAction::Flush));
    upload = upload.step(Ok(()));
    assert!(matches!(upload.action(), SftpAction::Finish));
    assert!(matches!(upload.finish(), Some(Ok(()))));
}

#[test]
fn a_step_that_fails_ends_an_upload() {
    for place in 0..7 {
        let mut upload = Upload::new("prod", "/f", vec![], 0o644);
        for _ in 0..place {
            upload = upload.step(Ok(()));
        }
        upload = upload.step(Err("why".into())).step(Ok(()));
        assert!(matches!(upload.action(), SftpAction::Finish));
        match upload.finish().unwrap().unwrap_err() {
            ToolError::SshConnect { host, source } => {
                assert!(place < 2);
                assert_eq!((host.as_str(), source.as_str()), ("prod", "why"));
            }
            ToolError::Sftp { host, message } => {
                assert!(place >= 2);
                assert_eq!((host.as_str(), message.as_str()), ("prod", "why"));
            }
            other => panic!("{other:?}"),
        }
    }
    assert!(Upload::new("prod", "/f", vec![], 0o644).finish().is_none());
}

#[test]
fn a_file_is_got_step_by_step() {
    let mut download = Download::new("prod", "/tmp/f");
    for expected in ["OpenChannel", "RequestSubsystem { name: \"sftp\" }", "StartSftp",
        "OpenFile { path: \"/tmp/f\" }"]
    {
        assert_eq!(format!("{:?}", download.action()), expected);
        // Content answers none of these.
        download = download.step(DownloadEvent::Content(Ok(vec![9])));
        download = download.step(DownloadEvent::Done(Ok(())));
    }
    assert!(matches!(download.action(), SftpAction::ReadToEnd));
    download = download.step(DownloadEvent::Done(Ok(())));
    assert!(matches!(download.action(), SftpAction::ReadToEnd));
    download = download.step(DownloadEvent::Content(Ok(vec![1, 2])));
    assert!(matches!(download.action(), SftpAction::Finish));
    assert_eq!(download.finish().unwrap().unwrap(), vec![1, 2]);
}

#[test]
fn a_step_that_fails_ends_a_download() {
    for place in 0..5 {
        let mut download = Download::new("prod", "/f");
        for _ in 0..place {
            download = download.step(DownloadEvent::Done(Ok(())));
        }
        download = if place == 4 {
            download.step(DownloadEvent::Content(Err("why".into())))
        } else {
            download.step(DownloadEvent::Done(Err("why".into())))
        };
        match download.finish().unwrap().unwrap_err() {
            ToolError::SshConnect { source, .. } => {
                assert!(place < 2);
                assert_eq!(source, "why");
            }
            ToolError::Sftp { message, .. } => {
                assert!(place >= 2);
                assert_eq!(message, "why");
            }
            other => panic!("{other:?}"),
        }
    }
    assert!(Download::new("prod", "/f").finish().is_none());
}
