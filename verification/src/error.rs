//! The errors that a tool call can end in, and how they are reported over MCP.
use vstd::prelude::*;
use vstd::string::*;

use crate::text;

verus! {

/// The MCP error code of a request whose parameters are not acceptable.
pub const INVALID_PARAMS: i32 = -32602;

/// The MCP error code of a request that failed for any other reason.
pub const INTERNAL_ERROR: i32 = -32603;

/// All errors that tool handlers can produce.
#[derive(Debug)]
pub enum ToolError {
    UnknownHost(String),
    SshConnect { host: String, source: String },
    SshAuth { host: String },
    Timeout { host: String, after_ms: u64 },
    ShellCheckFailed(String),
    DangerousCommand(String),
    CommandTooLong { len: usize, max: usize },
    CommandDenied(String),
    EmptyCommand,
    Sftp { host: String, message: String },
    SshExec { host: String, exit_code: u32, stdout: String, stderr: String },
    ShellCheckNotFound(String),
    InvalidParam(String),
}

/// What a `ToolError` says, as mathematical values.
pub enum ToolErrorView {
    UnknownHost(Seq<char>),
    SshConnect { host: Seq<char>, source: Seq<char> },
    SshAuth { host: Seq<char> },
    Timeout { host: Seq<char>, after_ms: u64 },
    ShellCheckFailed(Seq<char>),
    DangerousCommand(Seq<char>),
    CommandTooLong { len: usize, max: usize },
    CommandDenied(Seq<char>),
    EmptyCommand,
    Sftp { host: Seq<char>, message: Seq<char> },
    SshExec { host: Seq<char>, exit_code: u32, stdout: Seq<char>, stderr: Seq<char> },
    ShellCheckNotFound(Seq<char>),
    InvalidParam(Seq<char>),
}

impl View for ToolError {
    type V = ToolErrorView;

    open spec fn view(&self) -> ToolErrorView {
        match self {
            ToolError::UnknownHost(host) => ToolErrorView::UnknownHost(host@),
            ToolError::SshConnect { host, source } => ToolErrorView::SshConnect {
                host: host@,
                source: source@,
            },
            ToolError::SshAuth { host } => ToolErrorView::SshAuth { host: host@ },
            ToolError::Timeout { host, after_ms } => ToolErrorView::Timeout {
                host: host@,
                after_ms: *after_ms,
            },
            ToolError::ShellCheckFailed(message) => ToolErrorView::ShellCheckFailed(message@),
            ToolError::DangerousCommand(message) => ToolErrorView::DangerousCommand(message@),
            ToolError::CommandTooLong { len, max } => ToolErrorView::CommandTooLong {
                len: *len,
                max: *max,
            },
            ToolError::CommandDenied(command) => ToolErrorView::CommandDenied(command@),
            ToolError::EmptyCommand => ToolErrorView::EmptyCommand,
            ToolError::Sftp { host, message } => ToolErrorView::Sftp {
                host: host@,
                message: message@,
            },
            ToolError::SshExec { host, exit_code, stdout, stderr } => ToolErrorView::SshExec {
                host: host@,
                exit_code: *exit_code,
                stdout: stdout@,
                stderr: stderr@,
            },
            ToolError::ShellCheckNotFound(what) => ToolErrorView::ShellCheckNotFound(what@),
            ToolError::InvalidParam(message) => ToolErrorView::InvalidParam(message@),
        }
    }
}

/// A result, as mathematical values.
pub open spec fn outcome_of<T: View>(result: Result<T, ToolError>) -> Result<
    T::V,
    ToolErrorView,
> {
    match result {
        Ok(value) => Ok(value@),
        Err(error) => Err(error@),
    }
}

impl ToolErrorView {
    /// The text in which the error is shown.
    pub open spec fn message(self) -> Seq<char> {
        match self {
            ToolErrorView::UnknownHost(host) => "unknown host '"@ + host + "' — not in config"@,
            ToolErrorView::SshConnect { host, source } => "SSH connection failed for '"@ + host
                + "': "@ + source,
            ToolErrorView::SshAuth { host } => "SSH authentication failed for '"@ + host + "'"@,
            ToolErrorView::Timeout { host, after_ms } => "command timed out on '"@ + host
                + "' after "@ + text::decimal(after_ms as nat) + "ms"@,
            ToolErrorView::ShellCheckFailed(message) => "shellcheck failed: "@ + message,
            ToolErrorView::DangerousCommand(message) => "dangerous command blocked: "@ + message,
            ToolErrorView::CommandTooLong { len, max } => "command too long: "@ + text::decimal(
                len as nat,
            ) + " chars (max "@ + text::decimal(max as nat) + ")"@,
            ToolErrorView::CommandDenied(command) => "command denied by allowlist: "@ + command,
            ToolErrorView::EmptyCommand => "command must not be empty"@,
            ToolErrorView::Sftp { host, message } => "SFTP error on '"@ + host + "': "@ + message,
            ToolErrorView::SshExec { host, exit_code, .. } => "SSH exec on '"@ + host
                + "' exited "@ + text::decimal(exit_code as nat),
            ToolErrorView::ShellCheckNotFound(what) => "shellcheck binary not found: "@ + what,
            ToolErrorView::InvalidParam(message) => "invalid parameter: "@ + message,
        }
    }

    /// Whether the error says that the request itself was not acceptable.
    pub open spec fn is_validation_failure(self) -> bool {
        self is UnknownHost || self is EmptyCommand || self is CommandTooLong || self is CommandDenied
            || self is InvalidParam
    }

    /// The error as an MCP client sees it.
    pub open spec fn reported(self) -> McpErrorView {
        McpErrorView {
            code: if self.is_validation_failure() {
                INVALID_PARAMS
            } else {
                INTERNAL_ERROR
            },
            message: self.message(),
        }
    }
}

/// An error of the MCP protocol.
#[derive(Debug)]
pub struct McpError {
    pub code: i32,
    pub message: String,
}

/// What an `McpError` says, as mathematical values.
pub struct McpErrorView {
    pub code: i32,
    pub message: Seq<char>,
}

impl View for McpError {
    type V = McpErrorView;

    open spec fn view(&self) -> McpErrorView {
        McpErrorView { code: self.code, message: self.message@ }
    }
}

impl ToolError {
    /// The text in which the error is shown.
    pub fn message(&self) -> (message: String)
        ensures
            message@ == self@.message(),
    {
        match self {
            ToolError::UnknownHost(host) => "unknown host '".to_owned().concat(host.as_str()).concat(
                "' — not in config",
            ),
            ToolError::SshConnect { host, source } => "SSH connection failed for '".to_owned().concat(
                host.as_str(),
            ).concat("': ").concat(source.as_str()),
            ToolError::SshAuth { host } => "SSH authentication failed for '".to_owned().concat(
                host.as_str(),
            ).concat("'"),
            ToolError::Timeout { host, after_ms } => "command timed out on '".to_owned().concat(
                host.as_str(),
            ).concat("' after ").concat(text::decimal_text(*after_ms).as_str()).concat("ms"),
            ToolError::ShellCheckFailed(message) => "shellcheck failed: ".to_owned().concat(
                message.as_str(),
            ),
            ToolError::DangerousCommand(message) => "dangerous command blocked: ".to_owned().concat(
                message.as_str(),
            ),
            ToolError::CommandTooLong { len, max } => "command too long: ".to_owned().concat(
                text::decimal_text(*len as u64).as_str(),
            ).concat(" chars (max ").concat(text::decimal_text(*max as u64).as_str()).concat(")"),
            ToolError::CommandDenied(command) => "command denied by allowlist: ".to_owned().concat(
                command.as_str(),
            ),
            ToolError::EmptyCommand => "command must not be empty".to_owned(),
            ToolError::Sftp { host, message } => "SFTP error on '".to_owned().concat(
                host.as_str(),
            ).concat("': ").concat(message.as_str()),
            ToolError::SshExec { host, exit_code, .. } => "SSH exec on '".to_owned().concat(
                host.as_str(),
            ).concat("' exited ").concat(text::decimal_text(*exit_code as u64).as_str()),
            ToolError::ShellCheckNotFound(what) => "shellcheck binary not found: ".to_owned().concat(
                what.as_str(),
            ),
            ToolError::InvalidParam(message) => "invalid parameter: ".to_owned().concat(
                message.as_str(),
            ),
        }
    }

    /// Convert to an MCP protocol error.
    /// Validation failures → InvalidParams (-32602); everything else → InternalError (-32603).
    pub fn into_mcp_error(self) -> (error: McpError)
        ensures
            error@ == self@.reported(),
    {
        let message = self.message();
        let code: i32 = match self {
            ToolError::UnknownHost(_)
            | ToolError::EmptyCommand
            | ToolError::CommandTooLong { .. }
            | ToolError::CommandDenied(_)
            | ToolError::InvalidParam(_) => INVALID_PARAMS,
            _ => INTERNAL_ERROR,
        };
        McpError { code, message }
    }
}

/// A request that is not acceptable is reported as invalid parameters: an unknown host, an empty
/// command, one that is too long or not on the allowlist, and any other bad parameter. Everything
/// else is reported as an internal error.
pub proof fn codes_tell_whose_fault_it_is(error: ToolErrorView)
    ensures
        error.reported().code == match error {
            ToolErrorView::UnknownHost(_) => -32602,
            ToolErrorView::EmptyCommand => -32602,
            ToolErrorView::CommandTooLong { .. } => -32602,
            ToolErrorView::CommandDenied(_) => -32602,
            ToolErrorView::InvalidParam(_) => -32602,
            _ => -32603,
        },
{
}

/// What is reported says what the error is about, in full: the host, and the reason or the number
/// that came with it, stand in the text as they are.
pub proof fn errors_say_all_they_know(error: ToolErrorView)
    ensures
        error.reported().message == match error {
            ToolErrorView::UnknownHost(host) => "unknown host '"@ + host + "' — not in config"@,
            ToolErrorView::SshConnect { host, source } => "SSH connection failed for '"@ + host
                + "': "@ + source,
            ToolErrorView::SshAuth { host } => "SSH authentication failed for '"@ + host + "'"@,
            ToolErrorView::Timeout { host, after_ms } => "command timed out on '"@ + host
                + "' after "@ + text::decimal(after_ms as nat) + "ms"@,
            ToolErrorView::ShellCheckFailed(message) => "shellcheck failed: "@ + message,
            ToolErrorView::DangerousCommand(message) => "dangerous command blocked: "@ + message,
            ToolErrorView::CommandTooLong { len, max } => "command too long: "@ + text::decimal(
                len as nat,
            ) + " chars (max "@ + text::decimal(max as nat) + ")"@,
            ToolErrorView::CommandDenied(command) => "command denied by allowlist: "@ + command,
            ToolErrorView::EmptyCommand => "command must not be empty"@,
            ToolErrorView::Sftp { host, message } => "SFTP error on '"@ + host + "': "@ + message,
            ToolErrorView::SshExec { host, exit_code, .. } => "SSH exec on '"@ + host
                + "' exited "@ + text::decimal(exit_code as nat),
            ToolErrorView::ShellCheckNotFound(what) => "shellcheck binary not found: "@ + what,
            ToolErrorView::InvalidParam(message) => "invalid parameter: "@ + message,
        },
{
}

/// Two errors of a kind that are shown alike are about the same thing: nothing of a single name,
/// message or command is lost in the text.
pub proof fn same_message_same_matter(a: Seq<char>, b: Seq<char>)
    ensures
        ToolErrorView::UnknownHost(a).message() == ToolErrorView::UnknownHost(b).message() ==> a == b,
        (ToolErrorView::SshAuth { host: a }).message() == (ToolErrorView::SshAuth {
            host: b,
        }).message() ==> a == b,
        ToolErrorView::ShellCheckFailed(a).message() == ToolErrorView::ShellCheckFailed(b).message()
            ==> a == b,
        ToolErrorView::DangerousCommand(a).message() == ToolErrorView::DangerousCommand(b).message()
            ==> a == b,
        ToolErrorView::CommandDenied(a).message() == ToolErrorView::CommandDenied(b).message() ==> a
            == b,
        ToolErrorView::ShellCheckNotFound(a).message() == ToolErrorView::ShellCheckNotFound(
            b,
        ).message() ==> a == b,
        ToolErrorView::InvalidParam(a).message() == ToolErrorView::InvalidParam(b).message() ==> a
            == b,
{
    lemma_between("unknown host '"@, a, b, "' — not in config"@);
    lemma_between("SSH authentication failed for '"@, a, b, "'"@);
    lemma_after("shellcheck failed: "@, a, b);
    lemma_after("dangerous command blocked: "@, a, b);
    lemma_after("command denied by allowlist: "@, a, b);
    lemma_after("shellcheck binary not found: "@, a, b);
    lemma_after("invalid parameter: "@, a, b);
}

proof fn lemma_after(before: Seq<char>, a: Seq<char>, b: Seq<char>)
    ensures
        before + a == before + b ==> a == b,
{
    if before + a == before + b {
        assert((before + a).skip(before.len() as int) =~= a);
        assert((before + b).skip(before.len() as int) =~= b);
    }
}

proof fn lemma_between(before: Seq<char>, a: Seq<char>, b: Seq<char>, after: Seq<char>)
    ensures
        before + a + after == before + b + after ==> a == b,
{
    if before + a + after == before + b + after {
        let whole = before + a + after;
        assert(whole.len() == before.len() + a.len() + after.len());
        assert(whole.len() == before.len() + b.len() + after.len());
        assert(whole.subrange(before.len() as int, (before.len() + a.len()) as int) =~= a);
        assert((before + b + after).subrange(
            before.len() as int,
            (before.len() + b.len()) as int,
        ) =~= b);
    }
}

/// An error holds what it was made of, in full, and nothing of it is lost on the way to a client.
pub proof fn an_error_holds_what_it_was_made_of(error: ToolError, reported: McpError)
    ensures
        error@ == match error {
            ToolError::UnknownHost(host) => ToolErrorView::UnknownHost(host@),
            ToolError::SshConnect { host, source } => ToolErrorView::SshConnect {
                host: host@,
                source: source@,
            },
            ToolError::SshAuth { host } => ToolErrorView::SshAuth { host: host@ },
            ToolError::Timeout { host, after_ms } => ToolErrorView::Timeout {
                host: host@,
                after_ms,
            },
            ToolError::ShellCheckFailed(message) => ToolErrorView::ShellCheckFailed(message@),
            ToolError::DangerousCommand(message) => ToolErrorView::DangerousCommand(message@),
            ToolError::CommandTooLong { len, max } => ToolErrorView::CommandTooLong { len, max },
            ToolError::CommandDenied(command) => ToolErrorView::CommandDenied(command@),
            ToolError::EmptyCommand => ToolErrorView::EmptyCommand,
            ToolError::Sftp { host, message } => ToolErrorView::Sftp {
                host: host@,
                message: message@,
            },
            ToolError::SshExec { host, exit_code, stdout, stderr } => ToolErrorView::SshExec {
                host: host@,
                exit_code,
                stdout: stdout@,
                stderr: stderr@,
            },
            ToolError::ShellCheckNotFound(what) => ToolErrorView::ShellCheckNotFound(what@),
            ToolError::InvalidParam(message) => ToolErrorView::InvalidParam(message@),
        },
        reported@.code == reported.code,
        reported@.message == reported.message@,
{
}

/// A result is its value, or its error.
pub proof fn a_result_is_its_value_or_error<T: View>(value: T, error: ToolError)
    ensures
        outcome_of(Ok::<T, ToolError>(value)) == Ok::<T::V, ToolErrorView>(value@),
        outcome_of(Err::<T, ToolError>(error)) == Err::<T::V, ToolErrorView>(error@),
{
}

} // verus!
