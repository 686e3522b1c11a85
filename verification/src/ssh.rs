//! What an SSH session gives back, and a stand-in for one.
use vstd::prelude::*;
use vstd::string::*;

use crate::error;
use crate::error::ToolError;
use crate::name_map::NameMap;
use crate::path;
use crate::text;

verus! {

/// Output from a remote command execution.
#[derive(Debug)]
pub struct ExecOutput {
    pub stdout: String,
    pub stderr: String,
    pub exit_code: u32,
}

/// What an `ExecOutput` holds, as mathematical values.
pub struct OutputView {
    pub stdout: Seq<char>,
    pub stderr: Seq<char>,
    pub exit_code: u32,
}

impl View for ExecOutput {
    type V = OutputView;

    open spec fn view(&self) -> OutputView {
        OutputView { stdout: self.stdout@, stderr: self.stderr@, exit_code: self.exit_code }
    }
}

impl Clone for ExecOutput {
    fn clone(&self) -> (copy: Self)
        ensures
            copy == *self,
    {
        ExecOutput {
            stdout: self.stdout.clone(),
            stderr: self.stderr.clone(),
            exit_code: self.exit_code,
        }
    }
}

/// Configurable mock for unit tests — no network required.
#[derive(Debug)]
pub struct MockSshSession {
    /// Maps command string → result. Returns Ok with empty output if not found.
    pub exec_responses: NameMap<Result<ExecOutput, String>>,
    /// Maps remote_path → content for get_file.
    pub files: NameMap<Vec<u8>>,
    /// Records all exec calls made.
    pub exec_calls: Vec<String>,
    /// Records all put_file calls (path, mode).
    pub put_calls: Vec<(String, u32)>,
}

impl MockSshSession {
    /// The responses set, by command.
    pub open spec fn responses(self) -> Map<Seq<char>, Result<OutputView, Seq<char>>> {
        self.exec_responses@.map_values(
            |response: Result<ExecOutput, String>|
                match response {
                    Ok(output) => Ok::<OutputView, Seq<char>>(output@),
                    Err(message) => Err(message@),
                },
        )
    }

    /// The contents of the files, by path.
    pub open spec fn contents(self) -> Map<Seq<char>, Seq<u8>> {
        self.files@.map_values(|bytes: Vec<u8>| bytes@)
    }

    /// The commands that were to be run, in turn.
    pub open spec fn commands(self) -> Seq<Seq<char>> {
        text::texts_of(self.exec_calls@)
    }

    /// The paths that files were put at, each with its mode, in turn.
    pub open spec fn puts(self) -> Seq<(Seq<char>, u32)> {
        self.put_calls@.map_values(|call: (String, u32)| (call.0@, call.1))
    }
}

/// What a session with these responses answers to a command: the response set for it, and
/// empty output where none is.
pub open spec fn answer(
    responses: Map<Seq<char>, Result<OutputView, Seq<char>>>,
    command: Seq<char>,
) -> Result<OutputView, error::ToolErrorView> {
    if responses.contains_key(command) {
        match responses[command] {
            Ok(output) => Ok(output),
            Err(message) => Err(error::ToolErrorView::InvalidParam(message)),
        }
    } else {
        Ok(OutputView { stdout: Seq::empty(), stderr: Seq::empty(), exit_code: 0 })
    }
}

/// What a session with these files answers to a request for one.
pub open spec fn file_content(contents: Map<Seq<char>, Seq<u8>>, path: Seq<char>) -> Result<
    Seq<u8>,
    error::ToolErrorView,
> {
    if contents.contains_key(path) {
        Ok(contents[path])
    } else {
        Err(error::ToolErrorView::Sftp { host: "mock"@, message: "file not found: "@ + path })
    }
}

impl MockSshSession {
    /// A session with no responses set, no files and no calls made.
    pub fn new() -> (session: Self)
        ensures
            session.responses() == Map::<Seq<char>, Result<OutputView, Seq<char>>>::empty(),
            session.contents() == Map::<Seq<char>, Seq<u8>>::empty(),
            session.commands() == Seq::<Seq<char>>::empty(),
            session.puts() == Seq::<(Seq<char>, u32)>::empty(),
    {
        let session = MockSshSession {
            exec_responses: NameMap::new(),
            files: NameMap::new(),
            exec_calls: Vec::new(),
            put_calls: Vec::new(),
        };
        assert(session.responses() =~= Map::<Seq<char>, Result<OutputView, Seq<char>>>::empty());
        assert(session.contents() =~= Map::<Seq<char>, Seq<u8>>::empty());
        assert(session.commands() =~= Seq::<Seq<char>>::empty());
        assert(session.puts() =~= Seq::<(Seq<char>, u32)>::empty());
        session
    }

    /// Sets the output of a command.
    pub fn set_exec(&mut self, command: &str, output: ExecOutput)
        ensures
            final(self).responses() == old(self).responses().insert(command@, Ok(output@)),
            final(self).contents() == old(self).contents(),
            final(self).commands() == old(self).commands(),
            final(self).puts() == old(self).puts(),
    {
        self.exec_responses.insert(command.to_owned(), Ok(output));
        assert(self.responses() =~= old(self).responses().insert(command@, Ok(output@)));
    }

    /// Sets a command to fail.
    pub fn set_exec_error(&mut self, command: &str, message: &str)
        ensures
            final(self).responses() == old(self).responses().insert(command@, Err(message@)),
            final(self).contents() == old(self).contents(),
            final(self).commands() == old(self).commands(),
            final(self).puts() == old(self).puts(),
    {
        self.exec_responses.insert(command.to_owned(), Err(message.to_owned()));
        assert(self.responses() =~= old(self).responses().insert(command@, Err(message@)));
    }

    /// Puts a file in place.
    pub fn set_file(&mut self, path: &str, content: Vec<u8>)
        ensures
            final(self).contents() == old(self).contents().insert(path@, content@),
            final(self).responses() == old(self).responses(),
            final(self).commands() == old(self).commands(),
            final(self).puts() == old(self).puts(),
    {
        self.files.insert(path.to_owned(), content);
        assert(self.contents() =~= old(self).contents().insert(path@, content@));
    }

    /// Records the call and answers as set up.
    pub fn exec(&mut self, command: &str) -> (result: Result<ExecOutput, ToolError>)
        ensures
            error::outcome_of(result) == answer(old(self).responses(), command@),
            final(self).commands() == old(self).commands().push(command@),
            final(self).responses() == old(self).responses(),
            final(self).contents() == old(self).contents(),
            final(self).puts() == old(self).puts(),
    {
        self.exec_calls.push(command.to_owned());
        assert(self.commands() =~= old(self).commands().push(command@));
        match self.exec_responses.get(command) {
            Some(Ok(output)) => Ok(output.clone()),
            Some(Err(message)) => Err(ToolError::InvalidParam(message.clone())),
            None => Ok(ExecOutput { stdout: String::new(), stderr: String::new(), exit_code: 0 }),
        }
    }

    /// Records the call and keeps the content.
    pub fn put_file(&mut self, remote_path: &str, content: &[u8], mode: u32) -> (result: Result<
        (),
        ToolError,
    >)
        ensures
            result is Ok,
            final(self).contents() == old(self).contents().insert(remote_path@, content@),
            final(self).puts() == old(self).puts().push((remote_path@, mode)),
            final(self).responses() == old(self).responses(),
            final(self).commands() == old(self).commands(),
    {
        self.put_calls.push((remote_path.to_owned(), mode));
        assert(self.puts() =~= old(self).puts().push((remote_path@, mode)));
        self.files.insert(remote_path.to_owned(), path::copy_bytes(content));
        assert(self.contents() =~= old(self).contents().insert(remote_path@, content@));
        Ok(())
    }

    /// The content kept under a path.
    pub fn get_file(&self, remote_path: &str) -> (result: Result<Vec<u8>, ToolError>)
        ensures
            error::outcome_of(result) == file_content(self.contents(), remote_path@),
    {
        match self.files.get(remote_path) {
            Some(bytes) => Ok(path::copy_bytes(bytes.as_slice())),
            None => Err(
                ToolError::Sftp {
                    host: "mock".to_owned(),
                    message: "file not found: ".to_owned().concat(remote_path),
                },
            ),
        }
    }
}

impl Default for MockSshSession {
    fn default() -> (session: Self)
        ensures
            session.responses() == Map::<Seq<char>, Result<OutputView, Seq<char>>>::empty(),
            session.contents() == Map::<Seq<char>, Seq<u8>>::empty(),
            session.commands() == Seq::<Seq<char>>::empty(),
            session.puts() == Seq::<(Seq<char>, u32)>::empty(),
    {
        MockSshSession::new()
    }
}

/// A file that was put is got back as it was put, and no other file changes.
pub proof fn a_file_reads_as_it_was_put(
    contents: Map<Seq<char>, Seq<u8>>,
    path: Seq<char>,
    content: Seq<u8>,
    other: Seq<char>,
)
    ensures
        file_content(contents.insert(path, content), path) == Ok::<Seq<u8>, error::ToolErrorView>(
            content,
        ),
        other != path ==> file_content(contents.insert(path, content), other) == file_content(
            contents,
            other,
        ),
{
}

/// A command is answered with what was set for it, last of all, and with empty output and success
/// where nothing was; setting one command's answer changes no other's.
pub proof fn commands_are_answered_as_set(
    responses: Map<Seq<char>, Result<OutputView, Seq<char>>>,
    command: Seq<char>,
    output: OutputView,
    message: Seq<char>,
    other: Seq<char>,
)
    ensures
        answer(responses.insert(command, Ok(output)), command) == Ok::<
            OutputView,
            error::ToolErrorView,
        >(output),
        answer(responses.insert(command, Err(message)), command) == Err::<
            OutputView,
            error::ToolErrorView,
        >(error::ToolErrorView::InvalidParam(message)),
        other != command ==> answer(responses.insert(command, Ok(output)), other) == answer(
            responses,
            other,
        ),
        !responses.contains_key(command) ==> (answer(responses, command) matches Ok(out)
            && out.stdout.len() == 0 && out.stderr.len() == 0 && out.exit_code == 0),
{
}

/// A file that was never put is not found, and the answer names its path in full.
pub proof fn a_missing_file_is_not_found(contents: Map<Seq<char>, Seq<u8>>, path: Seq<char>)
    requires
        !contents.contains_key(path),
    ensures
        file_content(contents, path) == Err::<Seq<u8>, error::ToolErrorView>(
            error::ToolErrorView::Sftp { host: "mock"@, message: "file not found: "@ + path },
        ),
{
}

/// An output is its standard output, its standard error and its exit code.
pub proof fn an_output_holds_what_was_put_out(out: ExecOutput)
    ensures
        out@.stdout == out.stdout@,
        out@.stderr == out.stderr@,
        out@.exit_code == out.exit_code,
{
}

} // verus!
