//! The checks that a command has to pass before it reaches a host.
use vstd::prelude::*;
use vstd::string::*;
use vstd::utf8::*;

use crate::config;
use crate::config::{Config, HostConfig};
use crate::error;
use crate::error::ToolError;
use crate::path;
use crate::pattern;
use crate::pattern::Pattern;
use crate::text;

verus! {

/// The patterns of commands that are never let through: fork bombs, writes to block devices,
/// overwriting critical files, and piping a download into a shell.
pub open spec fn heuristic_patterns() -> Seq<Seq<char>> {
    seq![
        r":\(\)\s*\{.*\|.*&.*\}"@,
        r">\s*/dev/(sd|nvme|vd|hd)[a-z0-9]"@,
        r">\s*/etc/(passwd|shadow|sudoers)"@,
        r"(curl|wget|fetch)\s+.*\|\s*(ba)?sh"@,
    ]
}

/// Whether the regex crate accepts all of the heuristic patterns.
pub open spec fn heuristics_compile() -> bool {
    forall|i: int|
        0 <= i < heuristic_patterns().len() ==> pattern::regex_error(
            #[trigger] heuristic_patterns()[i],
        ) is None
}

/// The patterns that compiled regexes were compiled from.
pub open spec fn sources(patterns: Seq<Pattern>) -> Seq<Seq<char>> {
    patterns.map_values(|p: Pattern| p@)
}

/// Compiled security rules applied before every SSH command.
#[derive(Debug)]
pub struct SecurityChecker {
    heuristics: Vec<Pattern>,
    /// Resolved path to the shellcheck binary, or None if disabled globally.
    shellcheck_bin: Option<Vec<u8>>,
}

impl SecurityChecker {
    #[verifier::type_invariant]
    pub closed spec fn holds_the_heuristics(self) -> bool {
        sources(self.heuristics@) == heuristic_patterns()
    }

    /// The path of the shellcheck binary, if there is one to run.
    pub closed spec fn shellcheck(self) -> Option<Seq<u8>> {
        path::bytes_in(self.shellcheck_bin)
    }
}

/// A file to run shellcheck on: `bin flag file`, where the file holds `script`.
#[derive(Debug)]
pub struct ShellcheckJob {
    pub bin: Vec<u8>,
    pub flag: String,
    pub script: String,
}

/// What a `ShellcheckJob` holds, as mathematical values.
pub struct JobView {
    pub bin: Seq<u8>,
    pub flag: Seq<char>,
    pub script: Seq<char>,
}

impl View for ShellcheckJob {
    type V = JobView;

    open spec fn view(&self) -> JobView {
        JobView { bin: self.bin@, flag: self.flag@, script: self.script@ }
    }
}

/// What is left to do before a command that passed the checks may run.
#[derive(Debug)]
pub enum Clearance {
    /// Nothing.
    Cleared,
    /// The script has to pass shellcheck.
    Shellcheck(ShellcheckJob),
}

/// What a `Clearance` holds, as mathematical values.
pub enum ClearanceView {
    Cleared,
    Shellcheck(JobView),
}

impl View for Clearance {
    type V = ClearanceView;

    open spec fn view(&self) -> ClearanceView {
        match self {
            Clearance::Cleared => ClearanceView::Cleared,
            Clearance::Shellcheck(job) => ClearanceView::Shellcheck(job@),
        }
    }
}

/// Whether a command has more characters than its host allows; a limit of zero is none.
pub open spec fn too_long(command: Seq<char>, host: config::HostView) -> bool {
    host.max_command_chars > 0 && command.len() > host.max_command_chars
}

/// The first pattern that matches a command.
pub open spec fn first_match(patterns: Seq<Seq<char>>, command: Seq<char>) -> Option<Seq<char>>
    decreases patterns.len(),
{
    if patterns.len() == 0 {
        None
    } else if pattern::regex_is_match(patterns[0], command) {
        Some(patterns[0])
    } else {
        first_match(patterns.drop_first(), command)
    }
}

/// What an allowlist says of a command: it is let through by the first pattern that matches, and
/// refused when none does. A pattern that is not a regular expression is an error where it is
/// reached first.
pub open spec fn listed(patterns: Seq<Seq<char>>, command: Seq<char>) -> Result<
    (),
    error::ToolErrorView,
>
    decreases patterns.len(),
{
    if patterns.len() == 0 {
        Err(error::ToolErrorView::CommandDenied(command))
    } else {
        match pattern::regex_error(patterns[0]) {
            Some(why) => Err(
                error::ToolErrorView::InvalidParam(
                    "invalid allowlist pattern '"@ + patterns[0] + "': "@ + why,
                ),
            ),
            None => if pattern::regex_is_match(patterns[0], command) {
                Ok(())
            } else {
                listed(patterns.drop_first(), command)
            },
        }
    }
}

/// What an allowlist says of a command; an empty one lets every command through.
pub open spec fn allowed(patterns: Seq<Seq<char>>, command: Seq<char>) -> Result<
    (),
    error::ToolErrorView,
> {
    if patterns.len() == 0 {
        Ok(())
    } else {
        listed(patterns, command)
    }
}

/// The shellcheck run that a command calls for.
pub open spec fn shellcheck_job(bin: Seq<u8>, command: Seq<char>) -> JobView {
    JobView { bin, flag: "--severity=error"@, script: "#!/bin/sh\n"@ + command + "\n"@ }
}

/// What the checks say of a command on a host: length, heuristics, allowlist, then shellcheck,
/// which only hosts that are not Windows hosts and have it on ask for.
pub open spec fn verdict(
    command: Seq<char>,
    host: config::HostView,
    shellcheck: Option<Seq<u8>>,
) -> Result<ClearanceView, error::ToolErrorView> {
    if too_long(command, host) {
        Err(
            error::ToolErrorView::CommandTooLong {
                len: command.len() as usize,
                max: host.max_command_chars,
            },
        )
    } else {
        match first_match(heuristic_patterns(), command) {
            Some(p) => Err(
                error::ToolErrorView::DangerousCommand("matched dangerous pattern: "@ + p),
            ),
            None => match allowed(host.allowed_commands, command) {
                Err(error) => Err(error),
                Ok(()) => match shellcheck {
                    Some(bin) if host.shellcheck && !host.windows => Ok(
                        ClearanceView::Shellcheck(shellcheck_job(bin, command)),
                    ),
                    _ => Ok(ClearanceView::Cleared),
                },
            },
        }
    }
}

/// What a heuristic pattern says of a command, given whether it matches.
pub fn judge_heuristic(pattern: &str, matched: bool) -> (result: Result<(), ToolError>)
    ensures
        error::outcome_of(result) == if matched {
            Err::<(), error::ToolErrorView>(
                error::ToolErrorView::DangerousCommand("matched dangerous pattern: "@ + pattern@),
            )
        } else {
            Ok(())
        },
{
    if matched {
        return Err(
            ToolError::DangerousCommand("matched dangerous pattern: ".to_owned().concat(pattern)),
        );
    }
    Ok(())
}

/// What a pattern of an allowlist says of a command, given whether it matches, or why it is not
/// a regular expression. `None` leaves the command to the patterns after it.
pub fn judge_allowed(pattern: &str, matched: Result<bool, String>) -> (result: Option<
    Result<(), ToolError>,
>)
    ensures
        match matched {
            Ok(yes) => result == if yes {
                Some(Ok::<(), ToolError>(()))
            } else {
                None
            },
            Err(why) => result matches Some(Err(error)) && error@
                == error::ToolErrorView::InvalidParam(
                "invalid allowlist pattern '"@ + pattern@ + "': "@ + why@,
            ),
        },
{
    match matched {
        Ok(true) => Some(Ok(())),
        Ok(false) => None,
        Err(why) => Some(
            Err(
                ToolError::InvalidParam(
                    "invalid allowlist pattern '".to_owned().concat(pattern).concat("': ").concat(
                        why.as_str(),
                    ),
                ),
            ),
        ),
    }
}

/// The patterns of commands that are never let through.
fn heuristic_list() -> (patterns: [&'static str; 4])
    ensures
        forall|i: int| 0 <= i < 4 ==> (#[trigger] patterns@[i])@ == heuristic_patterns()[i],
{
    [
        // Fork bombs
        r":\(\)\s*\{.*\|.*&.*\}",
        // Block device writes
        r">\s*/dev/(sd|nvme|vd|hd)[a-z0-9]",
        // Critical file overwrites
        r">\s*/etc/(passwd|shadow|sudoers)",
        // Pipe-to-shell
        r"(curl|wget|fetch)\s+.*\|\s*(ba)?sh",
    ]
}

/// Compiles the heuristic patterns, if the regex crate accepts all of them.
fn compile_heuristics() -> (heuristics: Option<Vec<Pattern>>)
    ensures
        heuristics is Some <==> heuristics_compile(),
        heuristics matches Some(list) ==> sources(list@) == heuristic_patterns(),
{
    let patterns = heuristic_list();
    let mut heuristics: Vec<Pattern> = Vec::new();
    let mut i: usize = 0;
    while i < 4
        invariant
            i <= 4,
            forall|j: int| 0 <= j < 4 ==> (#[trigger] patterns@[j])@ == heuristic_patterns()[j],
            forall|j: int|
                0 <= j < i ==> pattern::regex_error(#[trigger] heuristic_patterns()[j]) is None,
            sources(heuristics@) =~= heuristic_patterns().take(i as int),
        decreases 4 - i,
    {
        match Pattern::compile(patterns[i]) {
            Ok(compiled) => {
                let ghost some = sources(heuristics@);
                heuristics.push(compiled);
                assert(sources(heuristics@) =~= some.push(compiled@));
            },
            Err(_) => {
                assert(pattern::regex_error(heuristic_patterns()[i as int]) is Some);
                return None;
            },
        }
        i = i + 1;
    }
    assert(heuristic_patterns().take(4) =~= heuristic_patterns());
    Some(heuristics)
}

impl SecurityChecker {
    /// Build a checker. `shellcheck_bin` is the resolved path to shellcheck or None.
    pub fn new(shellcheck_bin: Option<Vec<u8>>) -> (checker: Self)
        requires
            heuristics_compile(),
        ensures
            checker.shellcheck() == path::bytes_in(shellcheck_bin),
    {
        let heuristics = compile_heuristics().unwrap();
        SecurityChecker { heuristics, shellcheck_bin }
    }

    /// Build a checker, if the regex crate accepts all of the heuristic patterns.
    pub fn try_new(shellcheck_bin: Option<Vec<u8>>) -> (checker: Option<Self>)
        ensures
            checker is Some <==> heuristics_compile(),
            checker matches Some(c) ==> c.shellcheck() == path::bytes_in(shellcheck_bin),
    {
        if compile_heuristics().is_some() {
            Some(SecurityChecker::new(shellcheck_bin))
        } else {
            None
        }
    }

    /// Run all security checks for a command given the host config. What comes back, if they
    /// pass, is whether shellcheck is left to run.
    pub fn check(&self, command: &str, host: &HostConfig) -> (result: Result<Clearance, ToolError>)
        ensures
            error::outcome_of(result) == verdict(command@, host@, self.shellcheck()),
    {
        if let Err(error) = self.check_length(command, host) {
            return Err(error);
        }
        if let Err(error) = self.check_heuristics(command) {
            return Err(error);
        }
        if let Err(error) = self.check_allowlist(command, host) {
            return Err(error);
        }
        if host.shellcheck && !host.windows {
            Ok(self.check_shellcheck(command))
        } else {
            Ok(Clearance::Cleared)
        }
    }

    fn check_length(&self, command: &str, host: &HostConfig) -> (result: Result<(), ToolError>)
        ensures
            error::outcome_of(result) == if too_long(command@, host@) {
                Err::<(), error::ToolErrorView>(
                    error::ToolErrorView::CommandTooLong {
                        len: command@.len() as usize,
                        max: host.max_command_chars,
                    },
                )
            } else {
                Ok(())
            },
    {
        let len: usize = command.unicode_len();
        if host.max_command_chars > 0 && len > host.max_command_chars {
            return Err(ToolError::CommandTooLong { len, max: host.max_command_chars });
        }
        Ok(())
    }

    fn check_heuristics(&self, command: &str) -> (result: Result<(), ToolError>)
        ensures
            error::outcome_of(result) == match first_match(heuristic_patterns(), command@) {
                Some(p) => Err::<(), error::ToolErrorView>(
                    error::ToolErrorView::DangerousCommand("matched dangerous pattern: "@ + p),
                ),
                None => Ok(()),
            },
    {
        proof {
            use_type_invariant(self);
        }
        let ghost patterns = heuristic_patterns();
        let mut i: usize = 0;
        assert(patterns.skip(0) =~= patterns);
        while i < self.heuristics.len()
            invariant
                i <= self.heuristics@.len(),
                patterns == sources(self.heuristics@),
                patterns == heuristic_patterns(),
                first_match(patterns, command@) == first_match(patterns.skip(i as int), command@),
            decreases self.heuristics@.len() - i,
        {
            let re = &self.heuristics[i];
            assert(patterns.skip(i as int)[0] == re@);
            assert(patterns.skip(i as int).drop_first() =~= patterns.skip(i + 1));
            if let Err(error) = judge_heuristic(re.as_str(), re.is_match(command)) {
                return Err(error);
            }
            i = i + 1;
        }
        Ok(())
    }

    fn check_allowlist(&self, command: &str, host: &HostConfig) -> (result: Result<(), ToolError>)
        ensures
            error::outcome_of(result) == allowed(host@.allowed_commands, command@),
    {
        if host.allowed_commands.is_empty() {
            return Ok(());
        }
        let ghost patterns = host@.allowed_commands;
        let mut i: usize = 0;
        assert(patterns.skip(0) =~= patterns);
        while i < host.allowed_commands.len()
            invariant
                i <= host.allowed_commands@.len(),
                host.allowed_commands@.len() > 0,
                patterns == text::texts_of(host.allowed_commands@),
                listed(patterns, command@) == listed(patterns.skip(i as int), command@),
            decreases host.allowed_commands@.len() - i,
        {
            let pattern = host.allowed_commands[i].as_str();
            assert(patterns.skip(i as int)[0] == pattern@);
            assert(patterns.skip(i as int).drop_first() =~= patterns.skip(i + 1));
            let matched: Result<bool, String> = match Pattern::compile(pattern) {
                Ok(re) => Ok(re.is_match(command)),
                Err(why) => Err(why),
            };
            if let Some(result) = judge_allowed(pattern, matched) {
                return result;
            }
            i = i + 1;
        }
        Err(ToolError::CommandDenied(command.to_owned()))
    }

    fn check_shellcheck(&self, command: &str) -> (clearance: Clearance)
        ensures
            clearance@ == match self.shellcheck() {
                Some(bin) => ClearanceView::Shellcheck(shellcheck_job(bin, command@)),
                None => ClearanceView::Cleared,
            },
    {
        match &self.shellcheck_bin {
            Some(bin) => Clearance::Shellcheck(
                ShellcheckJob {
                    bin: path::copy_bytes(bin.as_slice()),
                    flag: "--severity=error".to_owned(),
                    script: "#!/bin/sh\n".to_owned().concat(command).concat("\n"),
                },
            ),
            None => Clearance::Cleared,
        }
    }
}

/// What came of running shellcheck.
#[derive(Debug)]
pub enum ShellcheckOutcome {
    /// The file for the script could not be made, and why.
    NoFile(String),
    /// The script could not be written to its file, and why.
    NotWritten(String),
    /// Shellcheck could not be run, and why.
    NotRun(String),
    /// Shellcheck ran to its end: whether it found no error, and what it printed.
    Finished { success: bool, stdout: Vec<u8> },
}

impl ShellcheckOutcome {
    /// What is wrong with a command whose shellcheck run came to this.
    pub open spec fn complaint(self) -> Option<Seq<char>> {
        match self {
            ShellcheckOutcome::NoFile(why) => Some("failed to create temp file: "@ + why@),
            ShellcheckOutcome::NotWritten(why) => Some("failed to write temp file: "@ + why@),
            ShellcheckOutcome::NotRun(why) => Some("shellcheck exec failed: "@ + why@),
            ShellcheckOutcome::Finished { success, stdout } => if success {
                None
            } else {
                Some(text::utf8_lossy(stdout@))
            },
        }
    }

    /// Passes the command if shellcheck ran and found no error in it.
    pub fn accept(self) -> (result: Result<(), ToolError>)
        ensures
            error::outcome_of(result) == match self.complaint() {
                Some(message) => Err::<(), error::ToolErrorView>(
                    error::ToolErrorView::ShellCheckFailed(message),
                ),
                None => Ok(()),
            },
    {
        match self {
            ShellcheckOutcome::NoFile(why) => Err(
                ToolError::ShellCheckFailed(
                    "failed to create temp file: ".to_owned().concat(why.as_str()),
                ),
            ),
            ShellcheckOutcome::NotWritten(why) => Err(
                ToolError::ShellCheckFailed(
                    "failed to write temp file: ".to_owned().concat(why.as_str()),
                ),
            ),
            ShellcheckOutcome::NotRun(why) => Err(
                ToolError::ShellCheckFailed(
                    "shellcheck exec failed: ".to_owned().concat(why.as_str()),
                ),
            ),
            ShellcheckOutcome::Finished { success, stdout } => {
                if success {
                    Ok(())
                } else {
                    Err(ToolError::ShellCheckFailed(text::lossy_text(stdout.as_slice())))
                }
            },
        }
    }
}

/// A path, and whether something was found there.
#[derive(Debug)]
pub struct ProbedPath {
    pub path: Vec<u8>,
    pub exists: bool,
}

/// The path at which shellcheck is looked for in a directory.
pub fn shellcheck_candidate(dir: &[u8]) -> (path: Vec<u8>)
    ensures
        path@ == path::raw_path_in(dir@, "shellcheck"@),
{
    path::join_raw_path(dir, "shellcheck")
}

/// Whether `path` is the first of the probed paths at which something was found.
pub open spec fn first_found(probed: Seq<ProbedPath>, path: Seq<u8>) -> bool {
    exists|i: int| #[trigger] found_at(probed, i) && path == probed[i].path@
}

/// Whether something was found at place `i` and nowhere before it.
pub open spec fn found_at(probed: Seq<ProbedPath>, i: int) -> bool {
    0 <= i < probed.len() && probed[i].exists && forall|j: int|
        0 <= j < i ==> !(#[trigger] probed[j]).exists
}

/// Whether nothing was found at any of the probed paths.
pub open spec fn none_found(probed: Seq<ProbedPath>) -> bool {
    forall|i: int| 0 <= i < probed.len() ==> !(#[trigger] probed[i]).exists
}

/// Verify shellcheck binary is available; returns its resolved path or an error. Given a path to
/// use and whether it exists, only that path counts; otherwise the first of `candidates`, the
/// places where `PATH` has it looked for, that exists.
pub fn resolve_shellcheck(
    override_path: Option<&str>,
    override_exists: bool,
    candidates: &Vec<ProbedPath>,
) -> (result: Result<Vec<u8>, ToolError>)
    ensures
        match override_path {
            Some(p) => error::outcome_of(result) == if override_exists {
                Ok::<Seq<u8>, error::ToolErrorView>(encode_utf8(p@))
            } else {
                Err(error::ToolErrorView::ShellCheckNotFound(p@))
            },
            None => match result {
                Ok(path) => first_found(candidates@, path@),
                Err(error) => none_found(candidates@) && error@
                    == error::ToolErrorView::ShellCheckNotFound(not_in_path()),
            },
        },
{
    if let Some(p) = override_path {
        if override_exists {
            return Ok(path::raw_path(p));
        }
        return Err(ToolError::ShellCheckNotFound(p.to_owned()));
    }
    match which_shellcheck(candidates) {
        Some(path) => Ok(path),
        None => Err(
            ToolError::ShellCheckNotFound(
                "shellcheck not found in PATH — install it (https://github.com/koalaman/shellcheck#installing) or set shellcheck = false per host in config".to_owned(),
            ),
        ),
    }
}

/// The complaint that shellcheck is in no directory of `PATH`.
pub open spec fn not_in_path() -> Seq<char> {
    "shellcheck not found in PATH — install it (https://github.com/koalaman/shellcheck#installing) or set shellcheck = false per host in config"@
}

fn which_shellcheck(candidates: &Vec<ProbedPath>) -> (path: Option<Vec<u8>>)
    ensures
        match path {
            Some(p) => first_found(candidates@, p@),
            None => none_found(candidates@),
        },
{
    let mut i: usize = 0;
    while i < candidates.len()
        invariant
            i <= candidates@.len(),
            forall|j: int| 0 <= j < i ==> !(#[trigger] candidates@[j]).exists,
        decreases candidates@.len() - i,
    {
        if candidates[i].exists {
            assert(found_at(candidates@, i as int));
            return Some(path::copy_bytes(candidates[i].path.as_slice()));
        }
        i = i + 1;
    }
    None
}

/// Whether there is a shellcheck binary, if a configuration has a host that needs one.
pub open spec fn equipped(config: config::ConfigView, shellcheck: Option<Seq<u8>>) -> bool {
    config::wants_shellcheck(config) ==> shellcheck is Some
}

/// The shellcheck binary to run, if any host needs one; an error if one is needed and there is
/// none, in which case the server must not start.
pub fn preflight(config: &Config, override_exists: bool, candidates: &Vec<ProbedPath>) -> (result:
    Result<Option<Vec<u8>>, ToolError>)
    ensures
        result matches Ok(bin) ==> equipped(config@, path::bytes_in(bin)),
        !config::wants_shellcheck(config@) ==> result == Ok::<Option<Vec<u8>>, ToolError>(None),
        config::wants_shellcheck(config@) ==> match config@.shellcheck_path {
            Some(p) => match result {
                Ok(bin) => override_exists && path::bytes_in(bin) == Some(encode_utf8(p)),
                Err(error) => !override_exists && error@
                    == error::ToolErrorView::ShellCheckNotFound(p),
            },
            None => match result {
                Ok(bin) => bin matches Some(path) && first_found(candidates@, path@),
                Err(error) => none_found(candidates@) && error@
                    == error::ToolErrorView::ShellCheckNotFound(not_in_path()),
            },
        },
{
    if !config.needs_shellcheck() {
        return Ok(None);
    }
    let override_path: Option<&str> = match &config.shellcheck_path {
        Some(p) => Some(p.as_str()),
        None => None,
    };
    match resolve_shellcheck(override_path, override_exists, candidates) {
        Ok(bin) => Ok(Some(bin)),
        Err(error) => Err(error),
    }
}

/// The first pattern that matches is one of the patterns, matches, and comes before all others
/// that do; there is none exactly if no pattern matches.
pub proof fn the_first_match_decides(patterns: Seq<Seq<char>>, command: Seq<char>)
    ensures
        match first_match(patterns, command) {
            Some(p) => exists|i: int|
                0 <= i < patterns.len() && #[trigger] patterns[i] == p && pattern::regex_is_match(
                    p,
                    command,
                ) && forall|j: int|
                    0 <= j < i ==> !pattern::regex_is_match(#[trigger] patterns[j], command),
            None => forall|i: int|
                0 <= i < patterns.len() ==> !pattern::regex_is_match(
                    #[trigger] patterns[i],
                    command,
                ),
        },
    decreases patterns.len(),
{
    if patterns.len() > 0 && !pattern::regex_is_match(patterns[0], command) {
        let rest = patterns.drop_first();
        the_first_match_decides(rest, command);
        match first_match(patterns, command) {
            Some(p) => {
                let i = choose|i: int|
                    0 <= i < rest.len() && #[trigger] rest[i] == p && pattern::regex_is_match(
                        p,
                        command,
                    ) && forall|j: int|
                        0 <= j < i ==> !pattern::regex_is_match(#[trigger] rest[j], command);
                assert(patterns[i + 1] == p);
                assert forall|j: int| 0 <= j < i + 1 implies !pattern::regex_is_match(
                    #[trigger] patterns[j],
                    command,
                ) by {
                    if j > 0 {
                        assert(rest[j - 1] == patterns[j]);
                    }
                }
            },
            None => {
                assert forall|j: int| 0 <= j < patterns.len() implies !pattern::regex_is_match(
                    #[trigger] patterns[j],
                    command,
                ) by {
                    if j > 0 {
                        assert(rest[j - 1] == patterns[j]);
                    }
                }
            },
        }
    } else if patterns.len() > 0 {
        assert(patterns[0] == first_match(patterns, command)->0);
    }
}

/// Whether a pattern is a regular expression and matches a command.
pub open spec fn lets_through(pattern: Seq<char>, command: Seq<char>) -> bool {
    pattern::regex_error(pattern) is None && pattern::regex_is_match(pattern, command)
}

/// A command that an allowlist lets through is matched by one of its patterns; if all of them
/// are regular expressions, it lets through exactly those commands, and denies all others.
pub proof fn the_allowlist_decides(patterns: Seq<Seq<char>>, command: Seq<char>)
    ensures
        listed(patterns, command) is Ok ==> exists|i: int|
            0 <= i < patterns.len() && lets_through(#[trigger] patterns[i], command),
        (forall|i: int|
            0 <= i < patterns.len() ==> pattern::regex_error(#[trigger] patterns[i]) is None)
            ==> listed(patterns, command) == if exists|i: int|
            0 <= i < patterns.len() && lets_through(#[trigger] patterns[i], command) {
            Ok::<(), error::ToolErrorView>(())
        } else {
            Err(error::ToolErrorView::CommandDenied(command))
        },
    decreases patterns.len(),
{
    if patterns.len() > 0 {
        let rest = patterns.drop_first();
        the_allowlist_decides(rest, command);
        if listed(rest, command) is Ok {
            let i = choose|i: int|
                0 <= i < rest.len() && lets_through(#[trigger] rest[i], command);
            assert(patterns[i + 1] == rest[i]);
        }
        if forall|i: int|
            0 <= i < patterns.len() ==> pattern::regex_error(#[trigger] patterns[i]) is None {
            assert forall|i: int| 0 <= i < rest.len() implies pattern::regex_error(
                #[trigger] rest[i],
            ) is None by {
                assert(rest[i] == patterns[i + 1]);
            }
            assert(pattern::regex_error(patterns[0]) is None);
            if exists|i: int|
                0 <= i < patterns.len() && lets_through(#[trigger] patterns[i], command) {
                let i = choose|i: int|
                    0 <= i < patterns.len() && lets_through(#[trigger] patterns[i], command);
                if i > 0 {
                    assert(rest[i - 1] == patterns[i]);
                }
            }
        }
    }
}

/// A command that an allowlist lets through is still let through when patterns are added at its
/// end.
pub proof fn a_longer_allowlist_lets_more_through(
    patterns: Seq<Seq<char>>,
    more: Seq<Seq<char>>,
    command: Seq<char>,
)
    requires
        listed(patterns, command) is Ok,
    ensures
        listed(patterns + more, command) is Ok,
    decreases patterns.len(),
{
    assert((patterns + more)[0] == patterns[0]);
    if !pattern::regex_is_match(patterns[0], command) {
        a_longer_allowlist_lets_more_through(patterns.drop_first(), more, command);
        assert((patterns + more).drop_first() =~= patterns.drop_first() + more);
    }
}

/// A command that passes the checks is within its host's limit, matches none of the heuristic
/// patterns, and, if its host has an allowlist, matches one of its patterns.
pub proof fn passed_commands_are_safe(
    command: Seq<char>,
    host: config::HostView,
    shellcheck: Option<Seq<u8>>,
)
    requires
        verdict(command, host, shellcheck) is Ok,
    ensures
        !too_long(command, host),
        forall|i: int|
            0 <= i < heuristic_patterns().len() ==> !pattern::regex_is_match(
                #[trigger] heuristic_patterns()[i],
                command,
            ),
        host.allowed_commands.len() > 0 ==> exists|i: int|
            0 <= i < host.allowed_commands.len() && lets_through(
                #[trigger] host.allowed_commands[i],
                command,
            ),
{
    the_first_match_decides(heuristic_patterns(), command);
    the_allowlist_decides(host.allowed_commands, command);
}

/// No allowlist, and no kind of host, lets a command through that matches a heuristic pattern.
pub proof fn dangerous_commands_never_pass(
    command: Seq<char>,
    host: config::HostView,
    shellcheck: Option<Seq<u8>>,
    i: int,
)
    requires
        0 <= i < heuristic_patterns().len(),
        pattern::regex_is_match(heuristic_patterns()[i], command),
    ensures
        verdict(command, host, shellcheck) is Err,
        !too_long(command, host) ==> verdict(command, host, shellcheck)->Err_0 is DangerousCommand,
{
    the_first_match_decides(heuristic_patterns(), command);
}

/// A limit of zero is none: no command is too long for it.
pub proof fn no_limit_no_length(
    command: Seq<char>,
    host: config::HostView,
    shellcheck: Option<Seq<u8>>,
)
    requires
        host.max_command_chars == 0,
    ensures
        !too_long(command, host),
        verdict(command, host, shellcheck) matches Err(error) ==> !(error is CommandTooLong),
{
    if allowed(host.allowed_commands, command) is Err {
        lemma_listed_errors(host.allowed_commands, command);
    }
}

/// A host without an allowlist denies no command by it.
pub proof fn no_allowlist_no_denial(
    command: Seq<char>,
    host: config::HostView,
    shellcheck: Option<Seq<u8>>,
)
    requires
        host.allowed_commands.len() == 0,
    ensures
        verdict(command, host, shellcheck) matches Err(error) ==> !(error is CommandDenied),
{
}

proof fn lemma_listed_errors(patterns: Seq<Seq<char>>, command: Seq<char>)
    ensures
        listed(patterns, command) matches Err(error) ==> error is CommandDenied
            || error is InvalidParam,
    decreases patterns.len(),
{
    if patterns.len() > 0 {
        lemma_listed_errors(patterns.drop_first(), command);
    }
}

/// Shellcheck is left to run on a command exactly if the command passes the other checks, its
/// host is not a Windows host and has shellcheck on, and there is a shellcheck binary. It never
/// makes a difference to the other checks.
pub proof fn shellcheck_is_asked_for(
    command: Seq<char>,
    host: config::HostView,
    shellcheck: Option<Seq<u8>>,
)
    ensures
        verdict(command, host, shellcheck) is Ok <==> verdict(command, host, None) is Ok,
        verdict(command, host, shellcheck) is Err ==> verdict(command, host, shellcheck)
            == verdict(command, host, None),
        verdict(command, host, shellcheck) matches Ok(clearance) ==> (clearance is Shellcheck
            <==> host.shellcheck && !host.windows && shellcheck is Some),
{
}

/// The checks let a command through exactly as they should: one that is not too long and matches no
/// heuristic pattern passes on a host without an allowlist, and passes on a host whose allowlist
/// holds regular expressions if any of them matches, whichever that is; otherwise it is denied.
pub proof fn the_checks_let_through_what_they_should(
    command: Seq<char>,
    host: config::HostView,
    shellcheck: Option<Seq<u8>>,
)
    requires
        host.max_command_chars == 0 || command.len() <= host.max_command_chars,
        forall|i: int|
            0 <= i < heuristic_patterns().len() ==> !pattern::regex_is_match(
                #[trigger] heuristic_patterns()[i],
                command,
            ),
        forall|i: int|
            0 <= i < host.allowed_commands.len() ==> pattern::regex_error(
                #[trigger] host.allowed_commands[i],
            ) is None,
    ensures
        host.allowed_commands.len() == 0 ==> verdict(command, host, shellcheck) is Ok,
        forall|i: int|
            0 <= i < host.allowed_commands.len() && pattern::regex_is_match(
                #[trigger] host.allowed_commands[i],
                command,
            ) ==> verdict(command, host, shellcheck) is Ok,
        host.allowed_commands.len() > 0 && (forall|i: int|
            0 <= i < host.allowed_commands.len() ==> !pattern::regex_is_match(
                #[trigger] host.allowed_commands[i],
                command,
            )) ==> verdict(command, host, shellcheck) == Err::<
            ClearanceView,
            error::ToolErrorView,
        >(error::ToolErrorView::CommandDenied(command)),
{
    let patterns = host.allowed_commands;
    the_first_match_decides(heuristic_patterns(), command);
    if let Some(p) = first_match(heuristic_patterns(), command) {
        let i = choose|i: int|
            0 <= i < heuristic_patterns().len() && #[trigger] heuristic_patterns()[i] == p;
        assert(!pattern::regex_is_match(heuristic_patterns()[i], command));
    }
    the_allowlist_decides(patterns, command);
    assert forall|i: int|
        0 <= i < patterns.len() && pattern::regex_is_match(
            #[trigger] patterns[i],
            command,
        ) implies verdict(command, host, shellcheck) is Ok by {
        assert(lets_through(patterns[i], command));
    }
}

/// A command is refused as too long exactly if its host has a limit and the command has more
/// characters, and is told both numbers.
pub proof fn long_commands_are_refused(
    command: Seq<char>,
    host: config::HostView,
    shellcheck: Option<Seq<u8>>,
)
    requires
        command.len() <= usize::MAX,
    ensures
        verdict(command, host, shellcheck) matches Err(error::ToolErrorView::CommandTooLong { .. })
            <==> 0 < host.max_command_chars < command.len(),
        verdict(command, host, shellcheck) matches Err(
            error::ToolErrorView::CommandTooLong { len, max },
        ) ==> len == command.len() && max == host.max_command_chars,
{
    lemma_listed_errors(host.allowed_commands, command);
}

/// Fork bombs, writes to block devices, overwriting critical files and piping a download into a
/// shell are refused on every host, whatever its settings; and no other command is refused as
/// dangerous. The refusal names the pattern.
pub proof fn each_danger_is_refused(
    command: Seq<char>,
    host: config::HostView,
    shellcheck: Option<Seq<u8>>,
)
    ensures
        ({
            let bomb = r":\(\)\s*\{.*\|.*&.*\}"@;
            let device = r">\s*/dev/(sd|nvme|vd|hd)[a-z0-9]"@;
            let critical = r">\s*/etc/(passwd|shadow|sudoers)"@;
            let piped = r"(curl|wget|fetch)\s+.*\|\s*(ba)?sh"@;
            let said = "matched dangerous pattern: "@;
            &&& pattern::regex_is_match(bomb, command) ==> verdict(command, host, shellcheck) is Err
            &&& pattern::regex_is_match(device, command) ==> verdict(
                command,
                host,
                shellcheck,
            ) is Err
            &&& pattern::regex_is_match(critical, command) ==> verdict(
                command,
                host,
                shellcheck,
            ) is Err
            &&& pattern::regex_is_match(piped, command) ==> verdict(
                command,
                host,
                shellcheck,
            ) is Err
            &&& verdict(command, host, shellcheck) matches Err(
                error::ToolErrorView::DangerousCommand(message),
            ) ==> {
                ||| message == said + bomb && pattern::regex_is_match(bomb, command)
                ||| message == said + device && pattern::regex_is_match(device, command)
                ||| message == said + critical && pattern::regex_is_match(critical, command)
                ||| message == said + piped && pattern::regex_is_match(piped, command)
            }
        }),
{
    let all = heuristic_patterns();
    the_first_match_decides(all, command);
    lemma_listed_errors(host.allowed_commands, command);
    assert(all[0] == r":\(\)\s*\{.*\|.*&.*\}"@);
    assert(all[1] == r">\s*/dev/(sd|nvme|vd|hd)[a-z0-9]"@);
    assert(all[2] == r">\s*/etc/(passwd|shadow|sudoers)"@);
    assert(all[3] == r"(curl|wget|fetch)\s+.*\|\s*(ba)?sh"@);
}

/// A pattern of an allowlist that is not a regular expression is reported, with what is wrong with
/// it, where no pattern before it lets the command through.
pub proof fn a_bad_pattern_is_reported(
    command: Seq<char>,
    host: config::HostView,
    shellcheck: Option<Seq<u8>>,
    at: int,
    why: Seq<char>,
)
    requires
        host.max_command_chars == 0 || command.len() <= host.max_command_chars,
        forall|i: int|
            0 <= i < heuristic_patterns().len() ==> !pattern::regex_is_match(
                #[trigger] heuristic_patterns()[i],
                command,
            ),
        0 <= at < host.allowed_commands.len(),
        pattern::regex_error(host.allowed_commands[at]) == Some(why),
        forall|i: int|
            0 <= i < at ==> pattern::regex_error(#[trigger] host.allowed_commands[i]) is None
                && !pattern::regex_is_match(host.allowed_commands[i], command),
    ensures
        verdict(command, host, shellcheck) == Err::<ClearanceView, error::ToolErrorView>(
            error::ToolErrorView::InvalidParam(
                "invalid allowlist pattern '"@ + host.allowed_commands[at] + "': "@ + why,
            ),
        ),
{
    the_first_match_decides(heuristic_patterns(), command);
    if let Some(p) = first_match(heuristic_patterns(), command) {
        let i = choose|i: int|
            0 <= i < heuristic_patterns().len() && #[trigger] heuristic_patterns()[i] == p;
        assert(!pattern::regex_is_match(heuristic_patterns()[i], command));
    }
    lemma_bad_pattern(host.allowed_commands, command, at, why);
}

proof fn lemma_bad_pattern(
    patterns: Seq<Seq<char>>,
    command: Seq<char>,
    at: int,
    why: Seq<char>,
)
    requires
        0 <= at < patterns.len(),
        pattern::regex_error(patterns[at]) == Some(why),
        forall|i: int|
            0 <= i < at ==> pattern::regex_error(#[trigger] patterns[i]) is None
                && !pattern::regex_is_match(patterns[i], command),
    ensures
        listed(patterns, command) == Err::<(), error::ToolErrorView>(
            error::ToolErrorView::InvalidParam(
                "invalid allowlist pattern '"@ + patterns[at] + "': "@ + why,
            ),
        ),
    decreases patterns.len(),
{
    if at > 0 {
        let rest = patterns.drop_first();
        assert(rest[at - 1] == patterns[at]);
        assert forall|i: int| 0 <= i < at - 1 implies pattern::regex_error(
            #[trigger] rest[i],
        ) is None && !pattern::regex_is_match(rest[i], command) by {
            assert(rest[i] == patterns[i + 1]);
        }
        assert(pattern::regex_error(patterns[0]) is None);
        lemma_bad_pattern(rest, command, at - 1, why);
    }
}

/// Where a command is left for shellcheck to judge, shellcheck gets the whole command, as a shell
/// script of its own, and is the binary that the server was given.
pub proof fn shellcheck_reads_the_command(
    command: Seq<char>,
    host: config::HostView,
    shellcheck: Option<Seq<u8>>,
)
    ensures
        verdict(command, host, shellcheck) matches Ok(ClearanceView::Shellcheck(job)) ==> {
            let first = "#!/bin/sh\n"@;
            &&& shellcheck == Some(job.bin)
            &&& job.flag == "--severity=error"@
            &&& job.script.len() == first.len() + command.len() + 1
            &&& job.script.take(first.len() as int) == first
            &&& job.script.subrange(first.len() as int, job.script.len() - 1) == command
            &&& job.script.last() == '\n'
        },
{
    if let Ok(ClearanceView::Shellcheck(job)) = verdict(command, host, shellcheck) {
        let first = "#!/bin/sh\n"@;
        reveal_strlit("\n");
        assert(job.script =~= first + command + "\n"@);
        assert(job.script.take(first.len() as int) =~= first);
        assert(job.script.subrange(first.len() as int, job.script.len() - 1) =~= command);
    }
}

/// A command passes shellcheck exactly if shellcheck ran to its end and found no error; what is
/// said otherwise holds all of the reason, or is what shellcheck printed.
pub proof fn only_a_clean_run_passes(outcome: ShellcheckOutcome)
    ensures
        outcome.complaint() is None <==> outcome matches ShellcheckOutcome::Finished {
            success: true,
            ..
        },
        outcome matches ShellcheckOutcome::Finished { success: false, stdout }
            ==> outcome.complaint() == Some(text::utf8_lossy(stdout@)),
        outcome matches ShellcheckOutcome::NoFile(why) ==> outcome.complaint() == Some(
            "failed to create temp file: "@ + why@,
        ),
        outcome matches ShellcheckOutcome::NotWritten(why) ==> outcome.complaint() == Some(
            "failed to write temp file: "@ + why@,
        ),
        outcome matches ShellcheckOutcome::NotRun(why) ==> outcome.complaint() == Some(
            "shellcheck exec failed: "@ + why@,
        ),
{
}

/// Of the places where shellcheck was looked for, the first where it was found is taken, and
/// nothing is taken where it was found nowhere.
pub proof fn the_first_find_is_taken(probed: Seq<ProbedPath>, at: int, path: Seq<u8>)
    requires
        0 <= at < probed.len(),
        probed[at].exists,
        forall|i: int| 0 <= i < at ==> !(#[trigger] probed[i]).exists,
    ensures
        first_found(probed, path) <==> path == probed[at].path@,
        !none_found(probed),
{
    assert(found_at(probed, at));
    if first_found(probed, path) {
        let i = choose|i: int| #[trigger] found_at(probed, i) && path == probed[i].path@;
        assert(found_at(probed, i));
        if i < at {
            assert(!probed[i].exists);
        } else if i > at {
            assert(!probed[at].exists);
        }
    }
}

/// Where shellcheck was found nowhere, nothing counts as found, and whoever needs it is told how to
/// get it, or how to do without.
pub proof fn no_find_is_no_find(probed: Seq<ProbedPath>, path: Seq<u8>)
    requires
        forall|i: int| 0 <= i < probed.len() ==> !(#[trigger] probed[i]).exists,
    ensures
        none_found(probed),
        !first_found(probed, path),
        not_in_path()
            == "shellcheck not found in PATH — install it (https://github.com/koalaman/shellcheck#installing) or set shellcheck = false per host in config"@,
{
    if first_found(probed, path) {
        let i = choose|i: int| #[trigger] found_at(probed, i) && path == probed[i].path@;
        assert(!probed[i].exists);
    }
}

/// A job for shellcheck holds the binary, the flag and the script, and a clearance what is left to
/// do.
pub proof fn jobs_are_what_they_say(job: ShellcheckJob, clearance: Clearance)
    ensures
        job@.bin == job.bin@,
        job@.flag == job.flag@,
        job@.script == job.script@,
        clearance is Cleared <==> clearance@ is Cleared,
        clearance matches Clearance::Shellcheck(j) ==> clearance@ == ClearanceView::Shellcheck(j@),
{
}

} // verus!
