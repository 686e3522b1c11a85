//! A call of a tool, once its parameters are accepted: shellcheck, a session, the work on the
//! host, and the reply.
use vstd::prelude::*;
use vstd::string::*;

use crate::encoding;
use crate::error;
use crate::error::{McpError, ToolError};
use crate::reply;
use crate::reply::ToolReply;
use crate::security;
use crate::security::{ShellcheckJob, ShellcheckOutcome};
use crate::ssh::ExecOutput;

verus! {

/// What a call has to be done on a host.
#[derive(Debug)]
pub enum Work {
    /// Run a command.
    Exec { command: String },
    /// Put a file there.
    PutFile { remote_path: String, content: Vec<u8>, mode: u32 },
    /// Get a file from there.
    GetFile { remote_path: String },
}

/// What a `Work` holds, as mathematical values.
pub enum WorkView {
    Exec { command: Seq<char> },
    PutFile { remote_path: Seq<char>, content: Seq<u8>, mode: u32 },
    GetFile { remote_path: Seq<char> },
}

impl View for Work {
    type V = WorkView;

    open spec fn view(&self) -> WorkView {
        match self {
            Work::Exec { command } => WorkView::Exec { command: command@ },
            Work::PutFile { remote_path, content, mode } => WorkView::PutFile {
                remote_path: remote_path@,
                content: content@,
                mode: *mode,
            },
            Work::GetFile { remote_path } => WorkView::GetFile { remote_path: remote_path@ },
        }
    }
}

/// How far a call has come.
#[derive(Debug)]
pub enum CallStage {
    /// Its command has to pass shellcheck.
    Shellcheck { job: ShellcheckJob, work: Work },
    /// It needs a session with its host.
    Session { work: Work },
    /// Its work is to be done over the session.
    Working { work: Work },
    /// It is answered.
    Answered(Result<ToolReply, McpError>),
}

/// What a `CallStage` holds, as mathematical values.
pub enum CallStageView {
    Shellcheck { job: security::JobView, work: WorkView },
    Session { work: WorkView },
    Working { work: WorkView },
    Answered(Result<reply::ReplyView, error::McpErrorView>),
}

impl View for CallStage {
    type V = CallStageView;

    open spec fn view(&self) -> CallStageView {
        match self {
            CallStage::Shellcheck { job, work } => CallStageView::Shellcheck {
                job: job@,
                work: work@,
            },
            CallStage::Session { work } => CallStageView::Session { work: work@ },
            CallStage::Working { work } => CallStageView::Working { work: work@ },
            CallStage::Answered(answer) => CallStageView::Answered(reply::answer_of(*answer)),
        }
    }
}

/// What has to be done next for a call.
#[derive(Debug)]
pub enum CallAction<'a> {
    /// Run shellcheck.
    Shellcheck(&'a ShellcheckJob),
    /// Have the pool give the session with the host, opening it if need be.
    Acquire { host: &'a str },
    /// Do this over the session.
    Work(&'a Work),
    /// Nothing: the call is answered.
    Answer,
}

/// What a `CallAction` holds, as mathematical values.
pub enum CallActionView {
    Shellcheck(security::JobView),
    Acquire { host: Seq<char> },
    Work(WorkView),
    Answer,
}

impl<'a> View for CallAction<'a> {
    type V = CallActionView;

    open spec fn view(&self) -> CallActionView {
        match self {
            CallAction::Shellcheck(job) => CallActionView::Shellcheck(job@),
            CallAction::Acquire { host } => CallActionView::Acquire { host: host@ },
            CallAction::Work(work) => CallActionView::Work(work@),
            CallAction::Answer => CallActionView::Answer,
        }
    }
}

/// What came of an action.
#[derive(Debug)]
pub enum CallEvent {
    Shellchecked(ShellcheckOutcome),
    Acquired(Result<(), ToolError>),
    Executed(Result<ExecOutput, ToolError>),
    Uploaded(Result<(), ToolError>),
    Downloaded(Result<Vec<u8>, ToolError>),
}

impl CallEvent {
    /// Whether base64 can be written for what was downloaded, if anything was: a text of that
    /// length fits in memory.
    pub open spec fn can_be_shown(self) -> bool {
        self matches CallEvent::Downloaded(Ok(bytes)) ==> encoding::base64_len(bytes@.len())
            <= isize::MAX
    }
}

/// A call that is answered with an error.
pub open spec fn refused(error: error::ToolErrorView) -> CallStageView {
    CallStageView::Answered(Err(error.reported()))
}

/// A call that is answered with a reply.
pub open spec fn replied(reply: reply::ReplyView) -> CallStageView {
    CallStageView::Answered(Ok(reply))
}

/// A call of a tool.
#[verifier::ext_equal]
pub struct CallView {
    pub host: Seq<char>,
    pub stage: CallStageView,
}

impl CallView {
    /// What has to be done next.
    pub open spec fn action(self) -> CallActionView {
        match self.stage {
            CallStageView::Shellcheck { job, .. } => CallActionView::Shellcheck(job),
            CallStageView::Session { .. } => CallActionView::Acquire { host: self.host },
            CallStageView::Working { work } => CallActionView::Work(work),
            CallStageView::Answered(_) => CallActionView::Answer,
        }
    }

    /// The stage after an event. An event that does not answer what was to be done changes
    /// nothing.
    pub open spec fn stage_after(self, event: CallEvent) -> CallStageView {
        match (self.stage, event) {
            (CallStageView::Shellcheck { work, .. }, CallEvent::Shellchecked(outcome)) => {
                match outcome.complaint() {
                    None => CallStageView::Session { work },
                    Some(message) => refused(error::ToolErrorView::ShellCheckFailed(message)),
                }
            },
            (CallStageView::Session { work }, CallEvent::Acquired(result)) => match result {
                Ok(()) => CallStageView::Working { work },
                Err(error) => refused(error@),
            },
            (
                CallStageView::Working { work: WorkView::Exec { .. } },
                CallEvent::Executed(result),
            ) => match result {
                Ok(out) => replied(reply::exec_reply(out@)),
                Err(error) => refused(error@),
            },
            (
                CallStageView::Working { work: WorkView::PutFile { remote_path, content, .. } },
                CallEvent::Uploaded(result),
            ) => match result {
                Ok(()) => replied(reply::upload_reply(content.len(), remote_path)),
                Err(error) => refused(error@),
            },
            (
                CallStageView::Working { work: WorkView::GetFile { .. } },
                CallEvent::Downloaded(result),
            ) => match result {
                Ok(bytes) => replied(
                    reply::download_reply(bytes@.len(), encoding::base64_encoded(bytes@)),
                ),
                Err(error) => refused(error@),
            },
            _ => self.stage,
        }
    }

    /// The call after an event.
    pub open spec fn after(self, event: CallEvent) -> CallView {
        CallView { stage: self.stage_after(event), ..self }
    }

    /// The call after events, one by one.
    pub open spec fn after_all(self, events: Seq<CallEvent>) -> CallView
        decreases events.len(),
    {
        if events.len() == 0 {
            self
        } else {
            self.after_all(events.drop_last()).after(events.last())
        }
    }

    /// The work that the call is for, until it is answered.
    pub open spec fn work(self) -> Option<WorkView> {
        match self.stage {
            CallStageView::Shellcheck { work, .. } => Some(work),
            CallStageView::Session { work } => Some(work),
            CallStageView::Working { work } => Some(work),
            CallStageView::Answered(_) => None,
        }
    }

    /// Whether a file is to be got from the host now.
    pub open spec fn awaits_a_file(self) -> bool {
        self.action() matches CallActionView::Work(WorkView::GetFile { .. })
    }

    /// The answer, once there is one.
    pub open spec fn answer(self) -> Option<Result<reply::ReplyView, error::McpErrorView>> {
        match self.stage {
            CallStageView::Answered(answer) => Some(answer),
            _ => None,
        }
    }
}

/// A call of a tool.
#[derive(Debug)]
pub struct ToolCall {
    host: String,
    stage: CallStage,
}

impl View for ToolCall {
    type V = CallView;

    closed spec fn view(&self) -> CallView {
        CallView { host: self.host@, stage: self.stage@ }
    }
}

impl ToolCall {
    /// A call that has come to a stage.
    pub(crate) fn at(host: String, stage: CallStage) -> (call: Self)
        ensures
            call@ == (CallView { host: host@, stage: stage@ }),
    {
        ToolCall { host, stage }
    }

    /// What has to be done next.
    pub fn action(&self) -> (action: CallAction<'_>)
        ensures
            action@ == self@.action(),
    {
        match &self.stage {
            CallStage::Shellcheck { job, .. } => CallAction::Shellcheck(job),
            CallStage::Session { .. } => CallAction::Acquire { host: self.host.as_str() },
            CallStage::Working { work } => CallAction::Work(work),
            CallStage::Answered(_) => CallAction::Answer,
        }
    }

    /// The call after an event. One that does not answer what was to be done changes nothing.
    /// The content that the reply to a download shows is base64 that gives the file back, and
    /// needs no escaping where it stands.
    pub fn step(self, event: CallEvent) -> (next: Self)
        requires
            event.can_be_shown(),
        ensures
            next@ == self@.after(event),
            event matches CallEvent::Downloaded(Ok(bytes)) ==> self@.awaits_a_file()
                ==> encoding::reads_as(encoding::base64_encoded(bytes@), bytes@)
                && encoding::is_base64_text(encoding::base64_encoded(bytes@)),
    {
        let ToolCall { host, stage } = self;
        let stage: CallStage = match (stage, event) {
            (CallStage::Shellcheck { work, .. }, CallEvent::Shellchecked(outcome)) => {
                match outcome.accept() {
                    Ok(()) => CallStage::Session { work },
                    Err(error) => refuse(error),
                }
            },
            (CallStage::Session { work }, CallEvent::Acquired(result)) => match result {
                Ok(()) => CallStage::Working { work },
                Err(error) => refuse(error),
            },
            (CallStage::Working { work: Work::Exec { .. } }, CallEvent::Executed(result)) => {
                match result {
                    Ok(out) => CallStage::Answered(Ok(reply::format_exec_result(out))),
                    Err(error) => refuse(error),
                }
            },
            (
                CallStage::Working { work: Work::PutFile { remote_path, content, .. } },
                CallEvent::Uploaded(result),
            ) => match result {
                Ok(()) => CallStage::Answered(
                    Ok(reply::format_upload_result(content.len(), remote_path.as_str())),
                ),
                Err(error) => refuse(error),
            },
            (CallStage::Working { work: Work::GetFile { .. } }, CallEvent::Downloaded(result)) => {
                match result {
                    Ok(bytes) => {
                        let encoded = encoding::encode_base64(bytes.as_slice());
                        CallStage::Answered(
                            Ok(reply::format_download_result(bytes.len(), encoded.as_str())),
                        )
                    },
                    Err(error) => refuse(error),
                }
            },
            (stage, _) => stage,
        };
        ToolCall { host, stage }
    }

    /// The answer, once there is one.
    pub fn finish(self) -> (answer: Option<Result<ToolReply, McpError>>)
        ensures
            match answer {
                Some(a) => self@.answer() == Some(reply::answer_of(a)),
                None => self@.answer() is None,
            },
    {
        match self.stage {
            CallStage::Answered(answer) => Some(answer),
            _ => None,
        }
    }
}

/// Answers a call with an error.
pub(crate) fn refuse(error: ToolError) -> (stage: CallStage)
    ensures
        stage@ == refused(error@),
{
    CallStage::Answered(Err(error.into_mcp_error()))
}

/// A call that is answered stays answered as it is, whatever happens.
pub proof fn an_answer_is_final(call: CallView, events: Seq<CallEvent>)
    requires
        call.answer() is Some,
    ensures
        call.after_all(events) == call,
    decreases events.len(),
{
    if events.len() > 0 {
        an_answer_is_final(call, events.drop_last());
    }
}

/// Until it is answered, a call is for the same work on the same host: nothing else is ever to
/// be done there for it.
pub proof fn the_work_stays(call: CallView, events: Seq<CallEvent>)
    ensures
        call.after_all(events).host == call.host,
        call.after_all(events).work() is Some ==> call.after_all(events).work() == call.work(),
        call.after_all(events).action() matches CallActionView::Work(work) ==> call.work() == Some(
            work,
        ),
    decreases events.len(),
{
    if events.len() > 0 {
        the_work_stays(call, events.drop_last());
    }
}

/// Whether an event says that shellcheck passed a command.
pub open spec fn passes_shellcheck(event: CallEvent) -> bool {
    event matches CallEvent::Shellchecked(outcome) && outcome.complaint() is None
}

/// Whether an event says that there is a session.
pub open spec fn gives_session(event: CallEvent) -> bool {
    event matches CallEvent::Acquired(result) && result is Ok
}

/// A command that has to pass shellcheck gets no session, runs nowhere and is not replied to
/// before it has passed.
pub proof fn shellcheck_comes_first(call: CallView, events: Seq<CallEvent>)
    requires
        call.stage is Shellcheck,
        forall|i: int| 0 <= i < events.len() ==> !passes_shellcheck(#[trigger] events[i]),
    ensures
        call.after_all(events) == call || call.after_all(events).answer() matches Some(Err(_)),
    decreases events.len(),
{
    if events.len() > 0 {
        let before = events.drop_last();
        assert forall|i: int| 0 <= i < before.len() implies !passes_shellcheck(
            #[trigger] before[i],
        ) by {
            assert(before[i] == events[i]);
        }
        shellcheck_comes_first(call, before);
        assert(!passes_shellcheck(events[events.len() - 1]));
    }
}

/// Nothing is done on a host, and nothing is replied, before there is a session with it.
pub proof fn a_session_comes_first(call: CallView, events: Seq<CallEvent>)
    requires
        call.stage is Shellcheck || call.stage is Session,
        forall|i: int| 0 <= i < events.len() ==> !gives_session(#[trigger] events[i]),
    ensures
        !(call.after_all(events).stage is Working),
        call.after_all(events).answer() matches Some(answer) ==> answer is Err,
    decreases events.len(),
{
    if events.len() > 0 {
        let before = events.drop_last();
        assert forall|i: int| 0 <= i < before.len() implies !gives_session(#[trigger] before[i]) by {
            assert(before[i] == events[i]);
        }
        a_session_comes_first(call, before);
        assert(!gives_session(events[events.len() - 1]));
    }
}

/// Whatever goes wrong, in shellcheck, in getting a session or in the work, is what the call is
/// answered with.
pub proof fn errors_are_reported(call: CallView, error: ToolError, outcome: ShellcheckOutcome)
    ensures
        call.stage is Shellcheck ==> (outcome.complaint() matches Some(message) ==> call.after(
            CallEvent::Shellchecked(outcome),
        ).stage == refused(error::ToolErrorView::ShellCheckFailed(message))),
        call.stage is Session ==> call.after(CallEvent::Acquired(Err(error))).stage == refused(
            error@,
        ),
        call.stage matches CallStageView::Working { work } ==> call.after(
            match work {
                WorkView::Exec { .. } => CallEvent::Executed(Err(error)),
                WorkView::PutFile { .. } => CallEvent::Uploaded(Err(error)),
                WorkView::GetFile { .. } => CallEvent::Downloaded(Err(error)),
            },
        ).stage == refused(error@),
{
}

/// A call for which everything goes well is answered with what the host gave: a command with its
/// output, an upload with the number of bytes, a download with the content.
pub proof fn work_is_replied_to(call: CallView, out: ExecOutput, bytes: Vec<u8>)
    requires
        call.stage is Session,
    ensures
        call.work() matches Some(WorkView::Exec { .. }) ==> call.after(
            CallEvent::Acquired(Ok(())),
        ).after(CallEvent::Executed(Ok(out))).stage == replied(reply::exec_reply(out@)),
        call.work() matches Some(WorkView::PutFile { remote_path, content, .. }) ==> call.after(
            CallEvent::Acquired(Ok(())),
        ).after(CallEvent::Uploaded(Ok(()))).stage == replied(
            reply::upload_reply(content.len(), remote_path),
        ),
        call.work() matches Some(WorkView::GetFile { .. }) ==> call.after(
            CallEvent::Acquired(Ok(())),
        ).after(CallEvent::Downloaded(Ok(bytes))).stage == replied(
            reply::download_reply(bytes@.len(), encoding::base64_encoded(bytes@)),
        ),
{
}

/// What is to be done next is what the call has come to: shellcheck on its script, the session of
/// its own host, its work, and nothing once it is answered.
pub proof fn the_next_step_is_the_calls_own(call: CallView)
    ensures
        call.stage matches CallStageView::Shellcheck { job, .. } ==> call.action()
            == CallActionView::Shellcheck(job),
        call.stage is Session ==> call.action() == (CallActionView::Acquire { host: call.host }),
        call.stage matches CallStageView::Working { work } ==> call.action()
            == CallActionView::Work(work),
        call.stage is Answered <==> call.action() is Answer,
        call.stage matches CallStageView::Answered(answer) ==> call.answer() == Some(answer),
        !(call.stage is Answered) ==> call.answer() is None,
{
}

/// A call goes on as it should: from shellcheck to a session if shellcheck ran and found no error,
/// and from there to its work once there is a session.
pub proof fn a_call_goes_on(call: CallView, outcome: ShellcheckOutcome)
    ensures
        call.stage matches CallStageView::Shellcheck { work, .. } ==> {
            let next = call.after(CallEvent::Shellchecked(outcome));
            if outcome matches ShellcheckOutcome::Finished { success: true, .. } {
                next.stage == (CallStageView::Session { work })
            } else {
                next.answer() matches Some(Err(_))
            }
        },
        call.stage matches CallStageView::Session { work } ==> call.after(
            CallEvent::Acquired(Ok(())),
        ).stage == (CallStageView::Working { work }),
{
    security::only_a_clean_run_passes(outcome);
}

/// A call that is refused is answered with the error, as an MCP client sees it; a call that is
/// replied to, with the reply.
pub proof fn answers_are_what_was_decided(
    host: Seq<char>,
    error: error::ToolErrorView,
    reply: reply::ReplyView,
)
    ensures
        (CallView { host, stage: refused(error) }).answer() == Some(
            Err::<reply::ReplyView, error::McpErrorView>(error.reported()),
        ),
        (CallView { host, stage: replied(reply) }).answer() == Some(
            Ok::<reply::ReplyView, error::McpErrorView>(reply),
        ),
{
}

/// An event that does not answer what was to be done changes nothing.
pub proof fn events_out_of_turn_change_nothing(call: CallView, event: CallEvent)
    requires
        match call.action() {
            CallActionView::Shellcheck(_) => !(event is Shellchecked),
            CallActionView::Acquire { .. } => !(event is Acquired),
            CallActionView::Work(WorkView::Exec { .. }) => !(event is Executed),
            CallActionView::Work(WorkView::PutFile { .. }) => !(event is Uploaded),
            CallActionView::Work(WorkView::GetFile { .. }) => !(event is Downloaded),
            CallActionView::Answer => true,
        },
    ensures
        call.after(event) == call,
{
}

/// Work, and an action of a call, say what they say.
pub proof fn call_actions_are_what_they_say(work: Work, action: CallAction<'_>)
    ensures
        work@ == match work {
            Work::Exec { command } => WorkView::Exec { command: command@ },
            Work::PutFile { remote_path, content, mode } => WorkView::PutFile {
                remote_path: remote_path@,
                content: content@,
                mode,
            },
            Work::GetFile { remote_path } => WorkView::GetFile { remote_path: remote_path@ },
        },
        action@ == match action {
            CallAction::Shellcheck(job) => CallActionView::Shellcheck(job@),
            CallAction::Acquire { host } => CallActionView::Acquire { host: host@ },
            CallAction::Work(w) => CallActionView::Work(w@),
            CallAction::Answer => CallActionView::Answer,
        },
{
}

} // verus!
