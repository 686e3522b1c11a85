//! Errors as MCP clients see them.
use ssh_mcp_rs::error::{ToolError, INTERNAL_ERROR, INVALID_PARAMS};

#[test]
fn unknown_host_maps_to_invalid_params() {
    let e = ToolError::UnknownHost("prod".into());
    assert_eq!(e.into_mcp_error().code, INVALID_PARAMS);
}

#[test]
fn timeout_maps_to_internal_error() {
    let e = ToolError::Timeout { host: "prod".into(), after_ms: 60_000 };
    assert_eq!(e.into_mcp_error().code, INTERNAL_ERROR);
}

#[test]
fn empty_command_maps_to_invalid_params() {
    assert_eq!(ToolError::EmptyCommand.into_mcp_error().code, INVALID_PARAMS);
}

#[test]
fn command_too_long_maps_to_invalid_params() {
    assert_eq!(
        ToolError::CommandTooLong { len: 1001, max: 1000 }.into_mcp_error().code,
        INVALID_PARAMS
    );
}

#[test]
fn codes_are_those_of_the_protocol() {
    assert_eq!(INVALID_PARAMS, rmcp::model::ErrorCode::INVALID_PARAMS.0);
    assert_eq!(INTERNAL_ERROR, rmcp::model::ErrorCode::INTERNAL_ERROR.0);
}

#[test]
fn every_error_has_its_message_and_code() {
    let cases = vec![
        (
            ToolError::UnknownHost("prod".into()),
            "unknown host 'prod' — not in config",
            INVALID_PARAMS,
        ),
        (
            ToolError::SshConnect { host: "prod".into(), source: "refused".into() },
            "SSH connection failed for 'prod': refused",
            INTERNAL_ERROR,
        ),
        (
            ToolError::SshAuth { host: "prod".into() },
            "SSH authentication failed for 'prod'",
            INTERNAL_ERROR,
        ),
        (
            ToolError::Timeout { host: "prod".into(), after_ms: 60_000 },
            "command timed out on 'prod' after 60000ms",
            INTERNAL_ERROR,
        ),
        (
            ToolError::ShellCheckFailed("line 2".into()),
            "shellcheck failed: line 2",
            INTERNAL_ERROR,
        ),
        (
            ToolError::DangerousCommand("matched".into()),
            "dangerous command blocked: matched",
            INTERNAL_ERROR,
        ),
        (
            ToolError::CommandTooLong { len: 1001, max: 1000 },
            "command too long: 1001 chars (max 1000)",
            INVALID_PARAMS,
        ),
        (
            ToolError::CommandDenied("rm".into()),
            "command denied by allowlist: rm",
            INVALID_PARAMS,
        ),
        (ToolError::EmptyCommand, "command must not be empty", INVALID_PARAMS),
        (
            ToolError::Sftp { host: "prod".into(), message: "no space".into() },
            "SFTP error on 'prod': no space",
            INTERNAL_ERROR,
        ),
        (
            ToolError::SshExec {
                host: "prod".into(),
                exit_code: 2,
                stdout: "out".into(),
                stderr: "err".into(),
            },
            "SSH exec on 'prod' exited 2",
            INTERNAL_ERROR,
        ),
        (
            ToolError::ShellCheckNotFound("/bin/shellcheck".into()),
            "shellcheck binary not found: /bin/shellcheck",
            INTERNAL_ERROR,
        ),
        (
            ToolError::InvalidParam("bad".into()),
            "invalid parameter: bad",
            INVALID_PARAMS,
        ),
    ];
    for (error, message, code) in cases {
        assert_eq!(error.message(), message);
        let reported = error.into_mcp_error();
        assert_eq!(reported.message, message);
        assert_eq!(reported.code, code);
    }
}
