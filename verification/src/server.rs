//! The tools that the server offers: which calls are accepted, and what they are for.
use vstd::prelude::*;
use vstd::string::*;

use crate::call;
use crate::call::{CallStage, ToolCall, Work};
use crate::config;
use crate::config::{Config, ConfigError, ConfigFile, HostConfig};
use crate::encoding;
use crate::error;
use crate::error::{McpError, ToolError};
use crate::name_map;
use crate::pool;
use crate::pool::{ConnectionPool, Lookup};
use crate::reload;
use crate::reply;
use crate::reply::ToolReply;
use crate::security;
use crate::security::{Clearance, SecurityChecker};
use crate::sudo;
use crate::text;

verus! {

/// Parameters for the `exec` tool.
#[derive(Debug)]
pub struct ExecParams {
    /// Name of the configured SSH host.
    pub host: String,
    /// Shell command to execute.
    pub command: String,
    /// Optional description for the audit log.
    pub description: Option<String>,
}

/// Parameters for the `sudo_exec` tool.
#[derive(Debug)]
pub struct SudoExecParams {
    /// Name of the configured SSH host.
    pub host: String,
    /// Shell command to execute via sudo.
    pub command: String,
    /// Optional description for the audit log.
    pub description: Option<String>,
}

/// Parameters for the `put_file` tool.
#[derive(Debug)]
pub struct PutFileParams {
    /// Name of the configured SSH host.
    pub host: String,
    /// Absolute destination path on the remote host.
    pub remote_path: String,
    /// Base64-encoded file content.
    pub content: String,
    /// Unix permission bits (default: 0o644).
    pub mode: Option<u32>,
}

/// Parameters for the `get_file` tool.
#[derive(Debug)]
pub struct GetFileParams {
    /// Name of the configured SSH host.
    pub host: String,
    /// Absolute path of the file to retrieve.
    pub remote_path: String,
}

/// The permission bits of an uploaded file for which the call gives none: 0o644.
pub const DEFAULT_MODE: u32 = 0o644;

/// The MCP server: holds the pool, the security checker and the configuration.
#[derive(Debug)]
pub struct SshMcpServer<S> {
    pool: ConnectionPool<S>,
    security: SecurityChecker,
    config: Config,
}

/// What a `SshMcpServer` holds, as mathematical values.
#[verifier::ext_equal]
pub struct ServerView<S> {
    pub pool: pool::PoolView<S>,
    /// The path of the shellcheck binary, if there is one to run.
    pub shellcheck: Option<Seq<u8>>,
    pub config: config::ConfigView,
}

impl<S> View for SshMcpServer<S> {
    type V = ServerView<S>;

    closed spec fn view(&self) -> ServerView<S> {
        ServerView {
            pool: self.pool@,
            shellcheck: self.security.shellcheck(),
            config: self.config@,
        }
    }
}

/// Whether `names` are the names of all hosts, in ascending order.
pub open spec fn sorted_names(
    hosts: Map<Seq<char>, config::HostView>,
    names: Seq<Seq<char>>,
) -> bool {
    name_map::ascending(names) && forall|name: Seq<char>| #[trigger]
        names.contains(name) <==> hosts.contains_key(name)
}

impl<S> ServerView<S> {
    /// A call to run `line` on a host, which is for `command`: the host has to be known, the
    /// command not blank, and it has to pass the security checks.
    pub open spec fn run(
        self,
        host: Seq<char>,
        command: Seq<char>,
        line: Seq<char>,
    ) -> call::CallStageView {
        if !self.config.hosts.contains_key(host) {
            call::refused(error::ToolErrorView::UnknownHost(host))
        } else if text::blank(command) {
            call::refused(error::ToolErrorView::EmptyCommand)
        } else {
            let work = call::WorkView::Exec { command: line };
            match security::verdict(command, self.config.hosts[host], self.shellcheck) {
                Err(error) => call::refused(error),
                Ok(security::ClearanceView::Cleared) => call::CallStageView::Session { work },
                Ok(security::ClearanceView::Shellcheck(job)) => call::CallStageView::Shellcheck {
                    job,
                    work,
                },
            }
        }
    }

    /// A call of `exec`: the command is run as it is.
    pub open spec fn exec(self, host: Seq<char>, command: Seq<char>) -> call::CallView {
        call::CallView { host, stage: self.run(host, command, command) }
    }

    /// A call of `sudo_exec`: the command is run through sudo, with the password that the host
    /// is configured with, if any.
    pub open spec fn sudo_exec(self, host: Seq<char>, command: Seq<char>) -> call::CallView {
        call::CallView {
            host,
            stage: self.run(
                host,
                command,
                sudo::sudo_line(command, self.config.hosts[host].sudo_password),
            ),
        }
    }

    /// A call of `put_file`, given what came of decoding the content.
    pub open spec fn put_file(
        self,
        host: Seq<char>,
        remote_path: Seq<char>,
        decoded: Result<Seq<u8>, Seq<char>>,
        mode: Option<u32>,
    ) -> call::CallView {
        call::CallView {
            host,
            stage: if !self.config.hosts.contains_key(host) {
                call::refused(error::ToolErrorView::UnknownHost(host))
            } else if remote_path.len() == 0 {
                call::refused(error::ToolErrorView::InvalidParam("remote_path must not be empty"@))
            } else {
                match decoded {
                    Err(why) => call::refused(
                        error::ToolErrorView::InvalidParam("invalid base64: "@ + why),
                    ),
                    Ok(content) => call::CallStageView::Session {
                        work: call::WorkView::PutFile {
                            remote_path,
                            content,
                            mode: match mode {
                                Some(m) => m,
                                None => DEFAULT_MODE,
                            },
                        },
                    },
                }
            },
        }
    }

    /// A call of `get_file`.
    pub open spec fn get_file(self, host: Seq<char>, remote_path: Seq<char>) -> call::CallView {
        call::CallView {
            host,
            stage: if !self.config.hosts.contains_key(host) {
                call::refused(error::ToolErrorView::UnknownHost(host))
            } else if remote_path.len() == 0 {
                call::refused(error::ToolErrorView::InvalidParam("remote_path must not be empty"@))
            } else {
                call::CallStageView::Session { work: call::WorkView::GetFile { remote_path } }
            },
        }
    }
}

impl<S> SshMcpServer<S> {
    /// Create a new server instance.
    pub fn new(pool: ConnectionPool<S>, security: SecurityChecker, config: Config) -> (server: Self)
        ensures
            server@ == (ServerView {
                pool: pool@,
                shellcheck: security.shellcheck(),
                config: config@,
            }),
    {
        SshMcpServer { pool, security, config }
    }

    /// The configuration of a host.
    pub fn host_config(&self, host: &str) -> (result: Result<&HostConfig, ToolError>)
        ensures
            match result {
                Ok(found) => self@.config.hosts.contains_key(host@) && found@ == self@.config.hosts[host@],
                Err(error) => !self@.config.hosts.contains_key(host@) && error@
                    == error::ToolErrorView::UnknownHost(host@),
            },
    {
        match self.config.hosts.get(host) {
            Some(found) => Ok(found),
            None => Err(ToolError::UnknownHost(host.to_owned())),
        }
    }

    /// Refuses a command in which nothing is left once the white space round it is trimmed.
    pub fn validate_command(command: &str) -> (result: Result<(), ToolError>)
        ensures
            error::outcome_of(result) == if text::blank(command@) {
                Err::<(), error::ToolErrorView>(error::ToolErrorView::EmptyCommand)
            } else {
                Ok(())
            },
    {
        if text::is_blank(command) {
            return Err(ToolError::EmptyCommand);
        }
        Ok(())
    }

    /// Refuses an empty path.
    fn validate_path(remote_path: &str) -> (result: Result<(), ToolError>)
        ensures
            error::outcome_of(result) == if remote_path@.len() == 0 {
                Err::<(), error::ToolErrorView>(
                    error::ToolErrorView::InvalidParam("remote_path must not be empty"@),
                )
            } else {
                Ok(())
            },
    {
        if remote_path.is_empty() {
            return Err(ToolError::InvalidParam("remote_path must not be empty".to_owned()));
        }
        Ok(())
    }

    /// What is left to do before a command may run on a host, if it may, and the host's
    /// configuration.
    fn clear(&self, host: &str, command: &str) -> (result: Result<
        (Clearance, &HostConfig),
        ToolError,
    >)
        ensures
            match result {
                Ok((clearance, found)) => self@.config.hosts.contains_key(host@) && found@
                    == self@.config.hosts[host@] && !text::blank(command@) && security::verdict(
                    command@,
                    found@,
                    self@.shellcheck,
                ) == Ok::<security::ClearanceView, error::ToolErrorView>(clearance@),
                Err(error) => if !self@.config.hosts.contains_key(host@) {
                    error@ == error::ToolErrorView::UnknownHost(host@)
                } else if text::blank(command@) {
                    error@ == error::ToolErrorView::EmptyCommand
                } else {
                    security::verdict(command@, self@.config.hosts[host@], self@.shellcheck) == Err::<
                        security::ClearanceView,
                        error::ToolErrorView,
                    >(error@)
                },
            },
    {
        let found = match self.host_config(host) {
            Ok(found) => found,
            Err(error) => return Err(error),
        };
        if let Err(error) = Self::validate_command(command) {
            return Err(error);
        }
        match self.security.check(command, found) {
            Ok(clearance) => Ok((clearance, found)),
            Err(error) => Err(error),
        }
    }

    /// Execute a shell command on a named SSH host.
    pub fn exec(&self, p: ExecParams) -> (call: ToolCall)
        ensures
            call@ == self@.exec(p.host@, p.command@),
    {
        let ExecParams { host, command, .. } = p;
        let stage = match self.clear(host.as_str(), command.as_str()) {
            Ok((clearance, _)) => begin(clearance, command),
            Err(error) => call::refuse(error),
        };
        ToolCall::at(host, stage)
    }

    /// Execute a shell command via sudo on a named SSH host.
    pub fn sudo_exec(&self, p: SudoExecParams) -> (call: ToolCall)
        ensures
            call@ == self@.sudo_exec(p.host@, p.command@),
    {
        let SudoExecParams { host, command, .. } = p;
        let stage = match self.clear(host.as_str(), command.as_str()) {
            Ok((clearance, found)) => {
                let password: Option<&str> = match &found.sudo_password {
                    Some(password) => Some(password.as_str()),
                    None => None,
                };
                begin(clearance, sudo::build_sudo_command(command.as_str(), password))
            },
            Err(error) => call::refuse(error),
        };
        ToolCall::at(host, stage)
    }

    /// Upload a base64-encoded file to a named SSH host via SFTP. A content that is accepted is
    /// the base64 of the bytes that are put.
    pub fn put_file(&self, p: PutFileParams) -> (call: ToolCall)
        ensures
            call@ == self@.put_file(
                p.host@,
                p.remote_path@,
                encoding::base64_decoded(p.content@),
                p.mode,
            ),
            encoding::is_canonical(p.content@, encoding::base64_decoded(p.content@)),
    {
        let decoded = encoding::decode_base64(p.content.as_str());
        self.put_decoded(p.host, p.remote_path, decoded, p.mode)
    }

    /// Upload a file to a named SSH host via SFTP, given what came of decoding its content.
    pub fn put_decoded(
        &self,
        host: String,
        remote_path: String,
        decoded: Result<Vec<u8>, String>,
        mode: Option<u32>,
    ) -> (call: ToolCall)
        ensures
            call@ == self@.put_file(host@, remote_path@, encoding::decoding_of(decoded), mode),
    {
        if let Err(error) = self.host_config(host.as_str()) {
            return ToolCall::at(host, call::refuse(error));
        }
        if let Err(error) = Self::validate_path(remote_path.as_str()) {
            return ToolCall::at(host, call::refuse(error));
        }
        let stage = match decoded {
            Err(why) => call::refuse(
                ToolError::InvalidParam("invalid base64: ".to_owned().concat(why.as_str())),
            ),
            Ok(content) => {
                let mode: u32 = match mode {
                    Some(m) => m,
                    None => DEFAULT_MODE,
                };
                CallStage::Session { work: Work::PutFile { remote_path, content, mode } }
            },
        };
        ToolCall::at(host, stage)
    }

    /// Download a file from a named SSH host via SFTP.
    pub fn get_file(&self, p: GetFileParams) -> (call: ToolCall)
        ensures
            call@ == self@.get_file(p.host@, p.remote_path@),
    {
        let GetFileParams { host, remote_path } = p;
        if let Err(error) = self.host_config(host.as_str()) {
            return ToolCall::at(host, call::refuse(error));
        }
        if let Err(error) = Self::validate_path(remote_path.as_str()) {
            return ToolCall::at(host, call::refuse(error));
        }
        ToolCall::at(host, CallStage::Session { work: Work::GetFile { remote_path } })
    }

    /// List all configured SSH host names, one a line.
    pub fn list_hosts(&self) -> (result: Result<ToolReply, McpError>)
        ensures
            result matches Ok(reply) && !reply.is_error && exists|names: Seq<Seq<char>>| #[trigger]
                sorted_names(self@.pool.configs, names) && reply.text@ == text::joined(
                    names,
                    "\n"@,
                ),
    {
        let names = self.pool.host_names();
        assert(sorted_names(self@.pool.configs, text::texts_of(names@)));
        Ok(ToolReply { text: text::join(&names, "\n"), is_error: false })
    }

    /// The pool's session with a host, or the configuration to open it with.
    pub fn session(&self, host_name: &str) -> (result: Result<Lookup<'_, S>, ToolError>)
        ensures
            error::outcome_of(result) == self@.pool.lookup(host_name@),
            self@.pool.current(),
    {
        self.pool.get(host_name)
    }

    /// Has the pool keep a session that was opened. If the host has a session by now, that one
    /// is to be used, and comes back.
    pub fn keep_session(&mut self, host_name: &str, opened_with: HostConfig, session: S) -> (other:
        Option<&S>)
        ensures
            final(self)@ == (ServerView {
                pool: old(self)@.pool.with_session(host_name@, opened_with@, session),
                ..old(self)@
            }),
            other is Some <==> old(self)@.pool.sessions.contains_key(host_name@),
            other matches Some(s) ==> *s == old(self)@.pool.sessions[host_name@],
    {
        self.pool.store(host_name, opened_with, session)
    }

    /// Takes over the config file at `path`, given what came of reading it. A file that is not
    /// accepted changes nothing. The shellcheck binary stays what it was: where the server was
    /// started without one, and the new configuration has a host that needs one, the commands on
    /// that host go unchecked by shellcheck.
    pub fn reload(&mut self, path: &str, file: ConfigFile) -> (result: Result<(), ConfigError>)
        ensures
            match result {
                Ok(()) => file.accepted() matches Some(accepted) && final(self)@ == (ServerView {
                    pool: old(self)@.pool.reconciled(accepted.hosts),
                    config: accepted,
                    ..old(self)@
                }),
                Err(error) => file.accepted() is None && file.refusal(path@, error@) && final(
                    self
                )@ == old(self)@,
            },
    {
        reload::reload_config(path, file, &mut self.config, &mut self.pool)
    }
}

/// The stage at which the running of a line begins.
fn begin(clearance: Clearance, line: String) -> (stage: CallStage)
    ensures
        stage@ == match clearance@ {
            security::ClearanceView::Cleared => call::CallStageView::Session {
                work: call::WorkView::Exec { command: line@ },
            },
            security::ClearanceView::Shellcheck(job) => call::CallStageView::Shellcheck {
                job,
                work: call::WorkView::Exec { command: line@ },
            },
        },
{
    let work = Work::Exec { command: line };
    match clearance {
        Clearance::Cleared => CallStage::Session { work },
        Clearance::Shellcheck(job) => CallStage::Shellcheck { job, work },
    }
}

/// Every tool that takes a host answers a call for one that is not configured with invalid
/// parameters, and does nothing for it.
pub proof fn unknown_hosts_are_refused<S>(
    server: ServerView<S>,
    host: Seq<char>,
    command: Seq<char>,
    remote_path: Seq<char>,
    decoded: Result<Seq<u8>, Seq<char>>,
    mode: Option<u32>,
)
    requires
        !server.config.hosts.contains_key(host),
    ensures
        ({
            let answer = Some(
                Err::<reply::ReplyView, error::McpErrorView>(
                    error::McpErrorView {
                        code: error::INVALID_PARAMS,
                        message: error::ToolErrorView::UnknownHost(host).message(),
                    },
                ),
            );
            &&& server.exec(host, command).answer() == answer
            &&& server.sudo_exec(host, command).answer() == answer
            &&& server.put_file(host, remote_path, decoded, mode).answer() == answer
            &&& server.get_file(host, remote_path).answer() == answer
        }),
{
}

/// A blank command is answered with invalid parameters, with sudo or without.
pub proof fn blank_commands_are_refused<S>(
    server: ServerView<S>,
    host: Seq<char>,
    command: Seq<char>,
)
    requires
        server.config.hosts.contains_key(host),
        text::blank(command),
    ensures
        ({
            let answer = Some(
                Err::<reply::ReplyView, error::McpErrorView>(
                    error::McpErrorView {
                        code: error::INVALID_PARAMS,
                        message: "command must not be empty"@,
                    },
                ),
            );
            &&& server.exec(host, command).answer() == answer
            &&& server.sudo_exec(host, command).answer() == answer
        }),
{
}

/// Uploads and downloads with an empty path, and uploads of what is not base64, are answered
/// with invalid parameters.
pub proof fn bad_transfers_are_refused<S>(
    server: ServerView<S>,
    host: Seq<char>,
    remote_path: Seq<char>,
    decoded: Result<Seq<u8>, Seq<char>>,
    mode: Option<u32>,
)
    requires
        server.config.hosts.contains_key(host),
    ensures
        remote_path.len() == 0 ==> (server.put_file(host, remote_path, decoded, mode).answer()
            matches Some(Err(error)) && error.code == error::INVALID_PARAMS),
        remote_path.len() == 0 ==> (server.get_file(host, remote_path).answer() matches Some(
            Err(error),
        ) && error.code == error::INVALID_PARAMS),
        decoded is Err ==> (server.put_file(host, remote_path, decoded, mode).answer() matches Some(
            Err(error),
        ) && error.code == error::INVALID_PARAMS),
{
}

/// A command is run only on a configured host, only if it is not blank, and only if it passes
/// the checks; and what is run is the command as it was given.
pub proof fn only_checked_commands_run<S>(
    server: ServerView<S>,
    host: Seq<char>,
    command: Seq<char>,
    events: Seq<call::CallEvent>,
)
    requires
        server.exec(host, command).after_all(events).action() is Work,
    ensures
        server.config.hosts.contains_key(host),
        !text::blank(command),
        security::verdict(command, server.config.hosts[host], server.shellcheck) is Ok,
        server.exec(host, command).after_all(events).host == host,
        server.exec(host, command).after_all(events).action() == call::CallActionView::Work(
            call::WorkView::Exec { command },
        ),
{
    let call = server.exec(host, command);
    if call.answer() is Some {
        call::an_answer_is_final(call, events);
    }
    call::the_work_stays(call, events);
}

/// With sudo, too, a command is run only if it passes the checks, those on the command as it was
/// given; and what is run is a line that a shell reads as running that very command through
/// sudo, with the password that the host is configured with, if any.
pub proof fn only_checked_commands_run_with_sudo<S>(
    server: ServerView<S>,
    host: Seq<char>,
    command: Seq<char>,
    events: Seq<call::CallEvent>,
)
    requires
        server.sudo_exec(host, command).after_all(events).action() is Work,
    ensures
        server.config.hosts.contains_key(host),
        !text::blank(command),
        security::verdict(command, server.config.hosts[host], server.shellcheck) is Ok,
        ({
            let line = sudo::sudo_line(command, server.config.hosts[host].sudo_password);
            &&& server.sudo_exec(host, command).after_all(events).action()
                == call::CallActionView::Work(call::WorkView::Exec { command: line })
            &&& sudo::pipeline(line) == match server.config.hosts[host].sudo_password {
                None => Some(seq![seq!["sudo"@, "-n"@, "sh"@, "-c"@, command]]),
                Some(password) => Some(
                    seq![
                        seq!["printf"@, "%s\\n"@, password],
                        seq!["sudo"@, "-p"@, ""@, "-S"@, "sh"@, "-c"@, command],
                    ],
                ),
            }
        }),
{
    let call = server.sudo_exec(host, command);
    if call.answer() is Some {
        call::an_answer_is_final(call, events);
    }
    call::the_work_stays(call, events);
    match server.config.hosts[host].sudo_password {
        None => sudo::sudo_runs_the_command(command),
        Some(password) => sudo::sudo_passes_the_password(command, password),
    }
}

/// On a host that has shellcheck on, and is not a Windows host, no command is run that
/// shellcheck has not passed, with sudo or without.
pub proof fn no_command_runs_past_shellcheck<S>(
    server: ServerView<S>,
    host: Seq<char>,
    command: Seq<char>,
    events: Seq<call::CallEvent>,
)
    requires
        server.config.hosts.contains_key(host),
        server.config.hosts[host].shellcheck,
        !server.config.hosts[host].windows,
        server.shellcheck is Some,
        forall|i: int| 0 <= i < events.len() ==> !call::passes_shellcheck(#[trigger] events[i]),
    ensures
        !(server.exec(host, command).after_all(events).action() is Work),
        !(server.sudo_exec(host, command).after_all(events).action() is Work),
{
    let plain = server.exec(host, command);
    let sudo = server.sudo_exec(host, command);
    if plain.answer() is Some {
        call::an_answer_is_final(plain, events);
        call::an_answer_is_final(sudo, events);
    } else {
        call::shellcheck_comes_first(plain, events);
        call::shellcheck_comes_first(sudo, events);
    }
}

/// The same commands are refused with sudo as without, with the same answers.
pub proof fn sudo_is_checked_alike<S>(server: ServerView<S>, host: Seq<char>, command: Seq<char>)
    ensures
        server.exec(host, command).answer() == server.sudo_exec(host, command).answer(),
{
}

/// The content that a download gives of a file can be put back: an upload of it writes the very
/// bytes of the file, with the mode asked for, or the default if none is.
pub proof fn what_was_got_can_be_put_back<S>(
    server: ServerView<S>,
    host: Seq<char>,
    remote_path: Seq<char>,
    content: Seq<char>,
    bytes: Seq<u8>,
    mode: Option<u32>,
)
    requires
        encoding::reads_as(content, bytes),
        server.config.hosts.contains_key(host),
        remote_path.len() > 0,
    ensures
        server.put_file(host, remote_path, encoding::base64_decoded(content), mode).stage == (
        call::CallStageView::Session {
            work: call::WorkView::PutFile {
                remote_path,
                content: bytes,
                mode: match mode {
                    Some(m) => m,
                    None => DEFAULT_MODE,
                },
            },
        }),
{
}

/// There is one listing of the hosts.
pub proof fn the_listing_is_fixed(
    hosts: Map<Seq<char>, config::HostView>,
    names: Seq<Seq<char>>,
    others: Seq<Seq<char>>,
)
    requires
        sorted_names(hosts, names),
        sorted_names(hosts, others),
    ensures
        names == others,
{
    name_map::one_ascending_order(names, others);
}

/// After a reload, calls go by the new configuration alone: the tools refuse the hosts that are
/// not in it, and a request for the session of one that is in it never ends with an unknown
/// host.
pub proof fn calls_go_by_the_new_configuration<S>(
    server: ServerView<S>,
    accepted: config::ConfigView,
    host: Seq<char>,
    remote_path: Seq<char>,
)
    requires
        server.pool.current(),
        remote_path.len() > 0,
    ensures
        ({
            let reloaded = ServerView {
                pool: server.pool.reconciled(accepted.hosts),
                config: accepted,
                ..server
            };
            &&& reloaded.get_file(host, remote_path).answer() is None
                <==> accepted.hosts.contains_key(host)
            &&& reloaded.pool.lookup(host) is Ok <==> accepted.hosts.contains_key(host)
        }),
{
    pool::reconciled_requests(server.pool, accepted.hosts, host);
}

/// A server that was started with the shellcheck binary that `preflight` gave for its
/// configuration runs no command past shellcheck, on any host that has shellcheck on and is not
/// a Windows host. After a reload this need not hold: the binary stays what it was, and the new
/// configuration may need one where there is none.
pub proof fn a_started_server_runs_nothing_past_shellcheck<S>(
    server: ServerView<S>,
    host: Seq<char>,
    command: Seq<char>,
    events: Seq<call::CallEvent>,
)
    requires
        security::equipped(server.config, server.shellcheck),
        server.config.hosts.contains_key(host),
        server.config.hosts[host].shellcheck,
        !server.config.hosts[host].windows,
        forall|i: int| 0 <= i < events.len() ==> !call::passes_shellcheck(#[trigger] events[i]),
    ensures
        server.shellcheck is Some,
        !(server.exec(host, command).after_all(events).action() is Work),
        !(server.sudo_exec(host, command).after_all(events).action() is Work),
{
    config::hosts_decide_on_shellcheck(server.config, host);
    no_command_runs_past_shellcheck(server, host, command, events);
}

/// Reloading a configuration leaves a server with the shellcheck binary it needs exactly if it
/// has one, or no host of the new configuration needs one.
pub proof fn a_reload_may_need_a_shellcheck<S>(
    server: ServerView<S>,
    accepted: config::ConfigView,
)
    ensures
        ({
            let reloaded = ServerView {
                pool: server.pool.reconciled(accepted.hosts),
                config: accepted,
                ..server
            };
            security::equipped(reloaded.config, reloaded.shellcheck) <==> server.shellcheck is Some
                || !config::wants_shellcheck(accepted)
        }),
{
}

/// What was uploaded is got back as the text it was uploaded as: where an upload of `content`
/// put `bytes`, a download that reads those bytes shows `content`.
pub proof fn what_was_put_is_got_back(call: call::CallView, content: Seq<char>, bytes: Vec<u8>)
    requires
        encoding::reads_as(content, bytes@),
        encoding::is_canonical(content, encoding::base64_decoded(content)),
        call.awaits_a_file(),
    ensures
        call.after(call::CallEvent::Downloaded(Ok(bytes))).stage == call::replied(
            reply::download_reply(bytes@.len(), content),
        ),
{
}

/// An upload of a text that holds a character that base64 is not written in, or whose length is
/// not a multiple of four, is answered with invalid parameters.
pub proof fn what_is_not_base64_is_refused<S>(
    server: ServerView<S>,
    host: Seq<char>,
    remote_path: Seq<char>,
    content: Seq<char>,
    mode: Option<u32>,
)
    requires
        encoding::is_canonical(content, encoding::base64_decoded(content)),
        !encoding::is_base64_text(content) || content.len() % 4 != 0,
    ensures
        server.put_file(host, remote_path, encoding::base64_decoded(content), mode).answer()
            matches Some(Err(error)) && error.code == error::INVALID_PARAMS,
{
    let decoded = encoding::base64_decoded(content);
    if let Ok(bytes) = decoded {
        assert(content.len() == (bytes.len() + 2) / 3 * 4);
    }
}

/// A command on a known host that is not blank is judged by the checks, and by them alone: refused,
/// it is answered with their error; passed, it goes on to run on that host as it was given.
pub proof fn good_commands_are_run<S>(server: ServerView<S>, host: Seq<char>, command: Seq<char>)
    requires
        server.config.hosts.contains_key(host),
        !text::blank(command),
    ensures
        ({
            let call = server.exec(host, command);
            let work = call::WorkView::Exec { command };
            &&& call.host == host
            &&& match security::verdict(command, server.config.hosts[host], server.shellcheck) {
                Err(error) => call.answer() == Some(
                    Err::<reply::ReplyView, error::McpErrorView>(error.reported()),
                ),
                Ok(security::ClearanceView::Cleared) => call.stage == (
                call::CallStageView::Session { work }),
                Ok(security::ClearanceView::Shellcheck(job)) => call.stage == (
                call::CallStageView::Shellcheck { job, work }),
            }
        }),
{
}

/// The same with sudo: what goes on to run is a line that a shell reads as running that command
/// through sudo, with the password of the host, if it has one.
pub proof fn good_commands_are_run_with_sudo<S>(
    server: ServerView<S>,
    host: Seq<char>,
    command: Seq<char>,
)
    requires
        server.config.hosts.contains_key(host),
        !text::blank(command),
    ensures
        ({
            let call = server.sudo_exec(host, command);
            &&& call.host == host
            &&& match security::verdict(command, server.config.hosts[host], server.shellcheck) {
                Err(error) => call.answer() == Some(
                    Err::<reply::ReplyView, error::McpErrorView>(error.reported()),
                ),
                Ok(security::ClearanceView::Cleared) => call.stage is Session,
                Ok(security::ClearanceView::Shellcheck(_)) => call.stage is Shellcheck,
            }
            &&& call.answer() is None ==> (call.work() matches Some(
                call::WorkView::Exec { command: line },
            ) && sudo::pipeline(line) == match server.config.hosts[host].sudo_password {
                None => Some(seq![seq!["sudo"@, "-n"@, "sh"@, "-c"@, command]]),
                Some(password) => Some(
                    seq![
                        seq!["printf"@, "%s\\n"@, password],
                        seq!["sudo"@, "-p"@, ""@, "-S"@, "sh"@, "-c"@, command],
                    ],
                ),
            })
        }),
{
    match server.config.hosts[host].sudo_password {
        None => sudo::sudo_runs_the_command(command),
        Some(password) => sudo::sudo_passes_the_password(command, password),
    }
}

/// An upload with a path, of what is base64, to a known host goes on to put all of the bytes at that
/// path, with the mode asked for, or read and write for the owner and read for all others if none
/// is; a download with a path goes on to get the file at that path.
pub proof fn good_transfers_are_made<S>(
    server: ServerView<S>,
    host: Seq<char>,
    remote_path: Seq<char>,
    content: Seq<u8>,
    mode: Option<u32>,
)
    requires
        server.config.hosts.contains_key(host),
        remote_path.len() > 0,
    ensures
        ({
            let upload = server.put_file(host, remote_path, Ok(content), mode);
            &&& upload.host == host
            &&& upload.stage is Session
            &&& upload.work() matches Some(
                call::WorkView::PutFile { remote_path: p, content: c, mode: m },
            ) && p == remote_path && c == content && m == match mode {
                Some(asked) => asked,
                None => 0o644,
            }
        }),
        ({
            let download = server.get_file(host, remote_path);
            &&& download.host == host
            &&& download.stage is Session
            &&& download.work() == Some(call::WorkView::GetFile { remote_path })
        }),
{
}

/// What is wrong with the base64 of an upload is said in the answer, in full.
pub proof fn bad_base64_says_why<S>(
    server: ServerView<S>,
    host: Seq<char>,
    remote_path: Seq<char>,
    why: Seq<char>,
    mode: Option<u32>,
)
    requires
        server.config.hosts.contains_key(host),
        remote_path.len() > 0,
    ensures
        server.put_file(host, remote_path, Err(why), mode).answer() matches Some(Err(error))
            && error.message == "invalid parameter: "@ + ("invalid base64: "@ + why),
        server.put_file(host, Seq::empty(), Err(why), mode).answer() matches Some(Err(error))
            && error.message == "invalid parameter: "@ + "remote_path must not be empty"@,
        server.get_file(host, Seq::empty()).answer() matches Some(Err(error)) && error.message
            == "invalid parameter: "@ + "remote_path must not be empty"@,
{
}

/// The listing names every host once, in the order of texts: of two names, the one that comes first
/// is listed first.
pub proof fn the_listing_is_in_order(
    hosts: Map<Seq<char>, config::HostView>,
    names: Seq<Seq<char>>,
    i: int,
    j: int,
    name: Seq<char>,
)
    requires
        sorted_names(hosts, names),
        0 <= i < names.len(),
        0 <= j < names.len(),
    ensures
        i < j ==> text::text_before(names[i], names[j]),
        names[i] == names[j] ==> i == j,
        hosts.contains_key(names[i]),
        hosts.contains_key(name) ==> names.contains(name),
{
    assert(names.contains(names[i]));
    text::lemma_text_before_irreflexive(names[i]);
}

} // verus!
