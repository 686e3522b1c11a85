//! Running a command over an open session, step by step.
use vstd::prelude::*;
use vstd::string::*;

use crate::error;
use crate::error::ToolError;
use crate::ssh::{ExecOutput, OutputView};
use crate::text;

verus! {

/// A message on the channel that a command runs on.
#[derive(Debug)]
pub enum ChannelMessage {
    /// Part of what the command wrote to its standard output.
    Data(Vec<u8>),
    /// Part of what the command wrote elsewhere; 1 is its standard error.
    ExtendedData { data: Vec<u8>, ext: u32 },
    /// The command exited.
    ExitStatus(u32),
    /// Anything else.
    Other,
}

/// What the messages say that a command wrote to its standard output.
pub open spec fn stdout_of(messages: Seq<ChannelMessage>) -> Seq<char>
    decreases messages.len(),
{
    if messages.len() == 0 {
        Seq::empty()
    } else {
        match messages.last() {
            ChannelMessage::Data(data) => stdout_of(messages.drop_last()) + text::utf8_lossy(data@),
            _ => stdout_of(messages.drop_last()),
        }
    }
}

/// What the messages say that a command wrote to its standard error.
pub open spec fn stderr_of(messages: Seq<ChannelMessage>) -> Seq<char>
    decreases messages.len(),
{
    if messages.len() == 0 {
        Seq::empty()
    } else {
        match messages.last() {
            ChannelMessage::ExtendedData { data, ext } if ext == 1 => stderr_of(
                messages.drop_last(),
            ) + text::utf8_lossy(data@),
            _ => stderr_of(messages.drop_last()),
        }
    }
}

/// The exit status that the messages report last; zero if they report none.
pub open spec fn exit_code_of(messages: Seq<ChannelMessage>) -> u32
    decreases messages.len(),
{
    if messages.len() == 0 {
        0
    } else {
        match messages.last() {
            ChannelMessage::ExitStatus(status) => status,
            _ => exit_code_of(messages.drop_last()),
        }
    }
}

/// What the messages on its channel say of a command.
pub open spec fn output_of(messages: Seq<ChannelMessage>) -> OutputView {
    OutputView {
        stdout: stdout_of(messages),
        stderr: stderr_of(messages),
        exit_code: exit_code_of(messages),
    }
}

/// How far a command has run.
#[derive(Debug)]
pub enum ExecStage {
    OpeningChannel,
    Requesting,
    Reading,
    Closed,
    Failed(ToolError),
}

/// What an `ExecStage` holds, as mathematical values.
pub enum ExecStageView {
    OpeningChannel,
    Requesting,
    Reading,
    Closed,
    Failed(error::ToolErrorView),
}

impl View for ExecStage {
    type V = ExecStageView;

    open spec fn view(&self) -> ExecStageView {
        match self {
            ExecStage::OpeningChannel => ExecStageView::OpeningChannel,
            ExecStage::Requesting => ExecStageView::Requesting,
            ExecStage::Reading => ExecStageView::Reading,
            ExecStage::Closed => ExecStageView::Closed,
            ExecStage::Failed(error) => ExecStageView::Failed(error@),
        }
    }
}

/// What has to be done next to run a command.
#[derive(Debug)]
pub enum ExecAction<'a> {
    /// Open a channel.
    OpenChannel,
    /// Ask for the command to be run on the channel.
    RequestExec { command: &'a str },
    /// Wait for the next message on the channel.
    Wait,
    /// Nothing: the command has run, or could not.
    Finish,
}

/// What an `ExecAction` holds, as mathematical values.
pub enum ExecActionView {
    OpenChannel,
    RequestExec { command: Seq<char> },
    Wait,
    Finish,
}

impl<'a> View for ExecAction<'a> {
    type V = ExecActionView;

    open spec fn view(&self) -> ExecActionView {
        match self {
            ExecAction::OpenChannel => ExecActionView::OpenChannel,
            ExecAction::RequestExec { command } => ExecActionView::RequestExec { command: command@ },
            ExecAction::Wait => ExecActionView::Wait,
            ExecAction::Finish => ExecActionView::Finish,
        }
    }
}

/// What came of an action. An error is given in words.
#[derive(Debug)]
pub enum ExecEvent {
    ChannelOpened(Result<(), String>),
    Requested(Result<(), String>),
    /// The next message; none once the channel is closed.
    Received(Option<ChannelMessage>),
}

/// The running of a command.
#[verifier::ext_equal]
pub struct ExecView {
    pub host_name: Seq<char>,
    pub command: Seq<char>,
    pub stage: ExecStageView,
    /// The messages received so far.
    pub messages: Seq<ChannelMessage>,
}

impl ExecView {
    /// What has to be done next.
    pub open spec fn action(self) -> ExecActionView {
        match self.stage {
            ExecStageView::OpeningChannel => ExecActionView::OpenChannel,
            ExecStageView::Requesting => ExecActionView::RequestExec { command: self.command },
            ExecStageView::Reading => ExecActionView::Wait,
            ExecStageView::Closed => ExecActionView::Finish,
            ExecStageView::Failed(_) => ExecActionView::Finish,
        }
    }

    /// The end on a connection error.
    pub open spec fn broken(self, source: String) -> ExecView {
        ExecView {
            stage: ExecStageView::Failed(
                error::ToolErrorView::SshConnect { host: self.host_name, source: source@ },
            ),
            ..self
        }
    }

    /// The running after an event. An event that does not answer what was to be done changes
    /// nothing.
    pub open spec fn after(self, event: ExecEvent) -> ExecView {
        match (self.stage, event) {
            (ExecStageView::OpeningChannel, ExecEvent::ChannelOpened(result)) => match result {
                Ok(()) => ExecView { stage: ExecStageView::Requesting, ..self },
                Err(source) => self.broken(source),
            },
            (ExecStageView::Requesting, ExecEvent::Requested(result)) => match result {
                Ok(()) => ExecView { stage: ExecStageView::Reading, ..self },
                Err(source) => self.broken(source),
            },
            (ExecStageView::Reading, ExecEvent::Received(message)) => match message {
                Some(m) => ExecView { messages: self.messages.push(m), ..self },
                None => ExecView { stage: ExecStageView::Closed, ..self },
            },
            _ => self,
        }
    }

    /// The running after events, one by one.
    pub open spec fn after_all(self, events: Seq<ExecEvent>) -> ExecView
        decreases events.len(),
    {
        if events.len() == 0 {
            self
        } else {
            self.after_all(events.drop_last()).after(events.last())
        }
    }

    /// How the running ended, once it has.
    pub open spec fn result(self) -> Option<Result<OutputView, error::ToolErrorView>> {
        match self.stage {
            ExecStageView::Closed => Some(Ok(output_of(self.messages))),
            ExecStageView::Failed(error) => Some(Err(error)),
            _ => None,
        }
    }
}

/// The running of a command: its output is collected as the messages come in.
pub struct RemoteExec {
    host_name: String,
    command: String,
    stage: ExecStage,
    output: ExecOutput,
    messages: Ghost<Seq<ChannelMessage>>,
}

impl View for RemoteExec {
    type V = ExecView;

    closed spec fn view(&self) -> ExecView {
        ExecView {
            host_name: self.host_name@,
            command: self.command@,
            stage: self.stage@,
            messages: self.messages@,
        }
    }
}

impl RemoteExec {
    #[verifier::type_invariant]
    pub closed spec fn collected(self) -> bool {
        self.output@ == output_of(self.messages@)
    }

    /// Begins to run a command over a session with a host.
    pub fn new(host_name: &str, command: &str) -> (exec: Self)
        ensures
            exec@ == (ExecView {
                host_name: host_name@,
                command: command@,
                stage: ExecStageView::OpeningChannel,
                messages: Seq::empty(),
            }),
    {
        RemoteExec {
            host_name: host_name.to_owned(),
            command: command.to_owned(),
            stage: ExecStage::OpeningChannel,
            output: ExecOutput { stdout: String::new(), stderr: String::new(), exit_code: 0 },
            messages: Ghost(Seq::empty()),
        }
    }

    /// What has to be done next.
    pub fn action(&self) -> (action: ExecAction<'_>)
        ensures
            action@ == self@.action(),
    {
        match &self.stage {
            ExecStage::OpeningChannel => ExecAction::OpenChannel,
            ExecStage::Requesting => ExecAction::RequestExec { command: self.command.as_str() },
            ExecStage::Reading => ExecAction::Wait,
            ExecStage::Closed => ExecAction::Finish,
            ExecStage::Failed(_) => ExecAction::Finish,
        }
    }

    /// The running after an event. One that does not answer what was to be done changes nothing.
    pub fn step(self, event: ExecEvent) -> (next: Self)
        ensures
            next@ == self@.after(event),
    {
        proof {
            use_type_invariant(&self);
        }
        let RemoteExec { host_name, command, stage, output, messages } = self;
        match (stage, event) {
            (ExecStage::OpeningChannel, ExecEvent::ChannelOpened(result)) => {
                let stage = match result {
                    Ok(()) => ExecStage::Requesting,
                    Err(source) => ExecStage::Failed(
                        ToolError::SshConnect { host: host_name.clone(), source },
                    ),
                };
                RemoteExec { host_name, command, stage, output, messages }
            },
            (ExecStage::Requesting, ExecEvent::Requested(result)) => {
                let stage = match result {
                    Ok(()) => ExecStage::Reading,
                    Err(source) => ExecStage::Failed(
                        ToolError::SshConnect { host: host_name.clone(), source },
                    ),
                };
                RemoteExec { host_name, command, stage, output, messages }
            },
            (ExecStage::Reading, ExecEvent::Received(received)) => match received {
                None => RemoteExec {
                    host_name,
                    command,
                    stage: ExecStage::Closed,
                    output,
                    messages,
                },
                Some(message) => {
                    let ghost more = messages@.push(message);
                    assert(more.drop_last() =~= messages@);
                    let output = absorb(output, message);
                    RemoteExec {
                        host_name,
                        command,
                        stage: ExecStage::Reading,
                        output,
                        messages: Ghost(more),
                    }
                },
            },
            (stage, _) => RemoteExec { host_name, command, stage, output, messages },
        }
    }

    /// How the running ended, once it has: the command's output, or why it could not be run.
    pub fn finish(self) -> (result: Option<Result<ExecOutput, ToolError>>)
        ensures
            match result {
                Some(r) => self@.result() == Some(error::outcome_of(r)),
                None => self@.result() is None,
            },
    {
        proof {
            use_type_invariant(&self);
        }
        match self.stage {
            ExecStage::Closed => Some(Ok(self.output)),
            ExecStage::Failed(error) => Some(Err(error)),
            _ => None,
        }
    }
}

/// Adds what one more message says to what a command put out.
fn absorb(output: ExecOutput, message: ChannelMessage) -> (more: ExecOutput)
    ensures
        more@ == match message {
            ChannelMessage::Data(data) => OutputView {
                stdout: output.stdout@ + text::utf8_lossy(data@),
                ..output@
            },
            ChannelMessage::ExtendedData { data, ext } => if ext == 1 {
                OutputView { stderr: output.stderr@ + text::utf8_lossy(data@), ..output@ }
            } else {
                output@
            },
            ChannelMessage::ExitStatus(status) => OutputView { exit_code: status, ..output@ },
            ChannelMessage::Other => output@,
        },
{
    let ExecOutput { stdout, stderr, exit_code } = output;
    match message {
        ChannelMessage::Data(data) => ExecOutput {
            stdout: stdout.concat(text::lossy_text(data.as_slice()).as_str()),
            stderr,
            exit_code,
        },
        ChannelMessage::ExtendedData { data, ext } => {
            if ext == 1 {
                ExecOutput {
                    stdout,
                    stderr: stderr.concat(text::lossy_text(data.as_slice()).as_str()),
                    exit_code,
                }
            } else {
                ExecOutput { stdout, stderr, exit_code }
            }
        },
        ChannelMessage::ExitStatus(status) => ExecOutput { stdout, stderr, exit_code: status },
        ChannelMessage::Other => ExecOutput { stdout, stderr, exit_code },
    }
}

/// The events of a command that runs to its end.
pub open spec fn run_to_the_end(messages: Seq<ChannelMessage>) -> Seq<ExecEvent> {
    seq![ExecEvent::ChannelOpened(Ok(())), ExecEvent::Requested(Ok(()))] + messages.map_values(
        |m: ChannelMessage| ExecEvent::Received(Some(m)),
    ) + seq![ExecEvent::Received(None)]
}

/// A command that runs to its end succeeds, with what the messages in between say that it put
/// out, whatever its exit status.
pub proof fn a_run_gives_its_output(exec: ExecView, messages: Seq<ChannelMessage>)
    requires
        exec.stage is OpeningChannel,
        exec.messages == Seq::<ChannelMessage>::empty(),
    ensures
        exec.after_all(run_to_the_end(messages)).result() == Some(
            Ok::<OutputView, error::ToolErrorView>(output_of(messages)),
        ),
{
    lemma_reading(exec, messages);
    let events = run_to_the_end(messages);
    let before = seq![ExecEvent::ChannelOpened(Ok(())), ExecEvent::Requested(Ok(()))]
        + messages.map_values(|m: ChannelMessage| ExecEvent::Received(Some(m)));
    assert(events.drop_last() =~= before);
}

proof fn lemma_reading(exec: ExecView, messages: Seq<ChannelMessage>)
    requires
        exec.stage is OpeningChannel,
        exec.messages == Seq::<ChannelMessage>::empty(),
    ensures
        exec.after_all(
            seq![ExecEvent::ChannelOpened(Ok(())), ExecEvent::Requested(Ok(()))]
                + messages.map_values(|m: ChannelMessage| ExecEvent::Received(Some(m))),
        ) == (ExecView { stage: ExecStageView::Reading, messages, ..exec }),
    decreases messages.len(),
{
    let opening = seq![ExecEvent::ChannelOpened(Ok(())), ExecEvent::Requested(Ok(()))];
    let received = |m: ChannelMessage| ExecEvent::Received(Some(m));
    let events = opening + messages.map_values(received);
    if messages.len() == 0 {
        assert(events =~= opening);
        assert(messages =~= Seq::<ChannelMessage>::empty());
        reveal_with_fuel(ExecView::after_all, 3);
        assert(opening.drop_last() =~= seq![ExecEvent::ChannelOpened(Ok(()))]);
        assert(opening.drop_last().drop_last() =~= Seq::<ExecEvent>::empty());
    } else {
        lemma_reading(exec, messages.drop_last());
        assert(events.drop_last() =~= opening + messages.drop_last().map_values(received));
        assert(events.last() == ExecEvent::Received(Some(messages.last())));
        assert(messages.drop_last().push(messages.last()) =~= messages);
    }
}

/// A command is sent to the host exactly as it was given, and only once a channel is open.
pub proof fn the_command_is_sent_as_given(exec: ExecView, events: Seq<ExecEvent>)
    requires
        exec.stage is OpeningChannel,
    ensures
        exec.after_all(events).action() matches ExecActionView::RequestExec { command } ==> command
            == exec.command && events.contains(ExecEvent::ChannelOpened(Ok(()))),
    decreases events.len(),
{
    lemma_requesting(exec, events);
}

proof fn lemma_requesting(exec: ExecView, events: Seq<ExecEvent>)
    requires
        exec.stage is OpeningChannel,
    ensures
        exec.after_all(events).command == exec.command,
        exec.after_all(events).stage is OpeningChannel || exec.after_all(events).stage is Failed
            || events.contains(ExecEvent::ChannelOpened(Ok(()))),
    decreases events.len(),
{
    if events.len() > 0 {
        lemma_requesting(exec, events.drop_last());
        let opened = ExecEvent::ChannelOpened(Ok(()));
        if events.drop_last().contains(opened) {
            let i = events.drop_last().index_of(opened);
            assert(events[i] == opened);
        } else if let ExecEvent::ChannelOpened(Ok(done)) = events.last() {
            assert(done == ());
            assert(events[events.len() - 1] == opened);
        }
    }
}

/// What a command put out is all that it put out, piece by piece: what messages say of it is what
/// the first of them say, and after that what the others say. The exit code is the one that the
/// others report, if they report any.
pub proof fn output_adds_up(first: Seq<ChannelMessage>, others: Seq<ChannelMessage>)
    ensures
        output_of(first + others).stdout == output_of(first).stdout + output_of(others).stdout,
        output_of(first + others).stderr == output_of(first).stderr + output_of(others).stderr,
        (exists|i: int| 0 <= i < others.len() && #[trigger] others[i] is ExitStatus) ==> output_of(
            first + others,
        ).exit_code == output_of(others).exit_code,
        (forall|i: int| 0 <= i < others.len() ==> !(#[trigger] others[i] is ExitStatus))
            ==> output_of(first + others).exit_code == output_of(first).exit_code,
    decreases others.len(),
{
    let all = first + others;
    if others.len() == 0 {
        assert(all =~= first);
        assert(output_of(first).stdout + output_of(others).stdout =~= output_of(first).stdout);
        assert(output_of(first).stderr + output_of(others).stderr =~= output_of(first).stderr);
    } else {
        let fewer = others.drop_last();
        assert(all.drop_last() =~= first + fewer);
        assert(all.last() == others.last());
        output_adds_up(first, fewer);
        assert(output_of(all).stdout =~= output_of(first).stdout + output_of(others).stdout);
        assert(output_of(all).stderr =~= output_of(first).stderr + output_of(others).stderr);
        if exists|i: int| 0 <= i < others.len() && #[trigger] others[i] is ExitStatus {
            let i = choose|i: int| 0 <= i < others.len() && #[trigger] others[i] is ExitStatus;
            if i < fewer.len() {
                assert(fewer[i] is ExitStatus);
            }
        } else {
            assert forall|i: int| 0 <= i < fewer.len() implies !(#[trigger] fewer[i] is ExitStatus) by {
                assert(fewer[i] == others[i]);
            }
            assert(!(others[others.len() - 1] is ExitStatus));
        }
    }
}

/// What one message says: data is standard output, extended data of the first kind is standard
/// error, an exit status is the exit code, and nothing else says anything. No message says
/// nothing, and leaves the exit code at zero.
pub proof fn each_message_says_one_thing(message: ChannelMessage)
    ensures
        ({
            let said = output_of(seq![message]);
            let nothing = Seq::<char>::empty();
            match message {
                ChannelMessage::Data(data) => {
                    said.stdout == text::utf8_lossy(data@) && said.stderr == nothing
                        && said.exit_code == 0
                },
                ChannelMessage::ExtendedData { data, ext } => {
                    said.stdout == nothing && said.exit_code == 0 && said.stderr == if ext == 1 {
                        text::utf8_lossy(data@)
                    } else {
                        nothing
                    }
                },
                ChannelMessage::ExitStatus(status) => {
                    said.stdout == nothing && said.stderr == nothing && said.exit_code == status
                },
                ChannelMessage::Other => {
                    said.stdout == nothing && said.stderr == nothing && said.exit_code == 0
                },
            }
        }),
        output_of(Seq::empty()).stdout == Seq::<char>::empty(),
        output_of(Seq::empty()).stderr == Seq::<char>::empty(),
        output_of(Seq::empty()).exit_code == 0,
{
    reveal_with_fuel(stdout_of, 2);
    reveal_with_fuel(stderr_of, 2);
    reveal_with_fuel(exit_code_of, 2);
    let one = seq![message];
    assert(one.drop_last() =~= Seq::<ChannelMessage>::empty());
    assert(one.last() == message);
    match message {
        ChannelMessage::Data(data) => {
            assert(Seq::<char>::empty() + text::utf8_lossy(data@) =~= text::utf8_lossy(data@));
        },
        ChannelMessage::ExtendedData { data, .. } => {
            assert(Seq::<char>::empty() + text::utf8_lossy(data@) =~= text::utf8_lossy(data@));
        },
        _ => {},
    }
}

/// A command is run by opening a channel, asking for the command on it, and waiting for messages
/// until the channel closes.
pub proof fn a_command_is_run_in_order(exec: ExecView, messages: Seq<ChannelMessage>)
    requires
        exec.stage is OpeningChannel,
        exec.messages == Seq::<ChannelMessage>::empty(),
    ensures
        ({
            let opened = exec.after(ExecEvent::ChannelOpened(Ok(())));
            let asked = opened.after(ExecEvent::Requested(Ok(())));
            &&& exec.action() is OpenChannel
            &&& opened.action() == (ExecActionView::RequestExec { command: exec.command })
            &&& asked.action() is Wait
            &&& asked.messages == Seq::<ChannelMessage>::empty()
        }),
        exec.after_all(run_to_the_end(messages).drop_last()).action() is Wait,
        exec.after_all(run_to_the_end(messages)).action() is Finish,
{
    lemma_reading(exec, messages);
    a_run_gives_its_output(exec, messages);
    assert(run_to_the_end(messages).drop_last() =~= seq![
        ExecEvent::ChannelOpened(Ok(())),
        ExecEvent::Requested(Ok(())),
    ] + messages.map_values(|m: ChannelMessage| ExecEvent::Received(Some(m))));
}

/// A command for which no channel opens, or that cannot be asked for, ends with a connection
/// error that names the host and the reason, and stays ended.
pub proof fn a_command_that_cannot_run_says_why(
    exec: ExecView,
    source: String,
    later: Seq<ExecEvent>,
)
    requires
        exec.stage is OpeningChannel,
    ensures
        ({
            let why = Some(
                Err::<OutputView, error::ToolErrorView>(
                    error::ToolErrorView::SshConnect { host: exec.host_name, source: source@ },
                ),
            );
            let opened = exec.after(ExecEvent::ChannelOpened(Ok(())));
            &&& exec.after(ExecEvent::ChannelOpened(Err(source))).after_all(later).result() == why
            &&& opened.after(ExecEvent::Requested(Err(source))).after_all(later).result() == why
        }),
{
    lemma_failed_stays(exec.after(ExecEvent::ChannelOpened(Err(source))), later);
    lemma_failed_stays(
        exec.after(ExecEvent::ChannelOpened(Ok(()))).after(ExecEvent::Requested(Err(source))),
        later,
    );
}

proof fn lemma_failed_stays(exec: ExecView, later: Seq<ExecEvent>)
    requires
        exec.stage is Failed,
    ensures
        exec.after_all(later) == exec,
    decreases later.len(),
{
    if later.len() > 0 {
        lemma_failed_stays(exec, later.drop_last());
    }
}

/// An action says what it says.
pub proof fn exec_actions_are_what_they_say(action: ExecAction<'_>)
    ensures
        action is OpenChannel <==> action@ is OpenChannel,
        action matches ExecAction::RequestExec { command } ==> action@ == (
        ExecActionView::RequestExec { command: command@ }),
        action is Wait <==> action@ is Wait,
        action is Finish <==> action@ is Finish,
{
}

} // verus!
