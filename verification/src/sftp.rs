//! Moving a file over an open session by SFTP, step by step.
use vstd::prelude::*;
use vstd::string::*;

use crate::error;
use crate::error::ToolError;

verus! {

/// What has to be done next to move a file.
#[derive(Debug)]
pub enum SftpAction<'a> {
    /// Open a channel.
    OpenChannel,
    /// Ask for a subsystem on the channel.
    RequestSubsystem { name: &'a str },
    /// Start an SFTP session on the channel.
    StartSftp,
    /// Open the remote file to be written, as a new or emptied file.
    CreateFile { path: &'a str },
    /// Open the remote file to be read.
    OpenFile { path: &'a str },
    /// Set the permission bits of the open file.
    SetPermissions { mode: u32 },
    /// Write all of the content to the open file.
    Write { content: &'a [u8] },
    /// Flush the open file.
    Flush,
    /// Read the open file to its end.
    ReadToEnd,
    /// Nothing: the file was moved, or could not be.
    Finish,
}

/// What an `SftpAction` holds, as mathematical values.
pub enum SftpActionView {
    OpenChannel,
    RequestSubsystem { name: Seq<char> },
    StartSftp,
    CreateFile { path: Seq<char> },
    OpenFile { path: Seq<char> },
    SetPermissions { mode: u32 },
    Write { content: Seq<u8> },
    Flush,
    ReadToEnd,
    Finish,
}

impl<'a> View for SftpAction<'a> {
    type V = SftpActionView;

    open spec fn view(&self) -> SftpActionView {
        match self {
            SftpAction::OpenChannel => SftpActionView::OpenChannel,
            SftpAction::RequestSubsystem { name } => SftpActionView::RequestSubsystem {
                name: name@,
            },
            SftpAction::StartSftp => SftpActionView::StartSftp,
            SftpAction::CreateFile { path } => SftpActionView::CreateFile { path: path@ },
            SftpAction::OpenFile { path } => SftpActionView::OpenFile { path: path@ },
            SftpAction::SetPermissions { mode } => SftpActionView::SetPermissions { mode: *mode },
            SftpAction::Write { content } => SftpActionView::Write { content: content@ },
            SftpAction::Flush => SftpActionView::Flush,
            SftpAction::ReadToEnd => SftpActionView::ReadToEnd,
            SftpAction::Finish => SftpActionView::Finish,
        }
    }
}

/// What putting a file on a host takes, in order.
pub open spec fn upload_plan(path: Seq<char>, content: Seq<u8>, mode: u32) -> Seq<SftpActionView> {
    seq![
        SftpActionView::OpenChannel,
        SftpActionView::RequestSubsystem { name: "sftp"@ },
        SftpActionView::StartSftp,
        SftpActionView::CreateFile { path },
        SftpActionView::SetPermissions { mode },
        SftpActionView::Write { content },
        SftpActionView::Flush,
    ]
}

/// What getting a file from a host takes, in order.
pub open spec fn download_plan(path: Seq<char>) -> Seq<SftpActionView> {
    seq![
        SftpActionView::OpenChannel,
        SftpActionView::RequestSubsystem { name: "sftp"@ },
        SftpActionView::StartSftp,
        SftpActionView::OpenFile { path },
        SftpActionView::ReadToEnd,
    ]
}

/// The error for the action at a place in a plan: until SFTP is started, the connection is at
/// fault.
pub open spec fn step_error(host: Seq<char>, place: nat, why: Seq<char>) -> error::ToolErrorView {
    if place < 2 {
        error::ToolErrorView::SshConnect { host, source: why }
    } else {
        error::ToolErrorView::Sftp { host, message: why }
    }
}

/// The error for the action at a place in a plan.
fn failure_at(host_name: &str, place: usize, why: String) -> (error: ToolError)
    ensures
        error@ == step_error(host_name@, place as nat, why@),
{
    if place < 2 {
        ToolError::SshConnect { host: host_name.to_owned(), source: why }
    } else {
        ToolError::Sftp { host: host_name.to_owned(), message: why }
    }
}

/// A plan, and how much of it is done.
#[verifier::ext_equal]
pub struct TransferView {
    pub host_name: Seq<char>,
    pub plan: Seq<SftpActionView>,
    pub done: nat,
    pub failure: Option<error::ToolErrorView>,
}

impl TransferView {
    /// What has to be done next.
    pub open spec fn action(self) -> SftpActionView {
        if self.failure is None && self.done < self.plan.len() {
            self.plan[self.done as int]
        } else {
            SftpActionView::Finish
        }
    }

    /// The transfer after its action came to a result.
    pub open spec fn after(self, result: Result<(), Seq<char>>) -> TransferView {
        if self.failure is None && self.done < self.plan.len() {
            match result {
                Ok(()) => TransferView { done: self.done + 1, ..self },
                Err(why) => TransferView {
                    failure: Some(step_error(self.host_name, self.done, why)),
                    ..self
                },
            }
        } else {
            self
        }
    }

    /// The transfer after its actions came to results, one by one.
    pub open spec fn after_all(self, results: Seq<Result<(), Seq<char>>>) -> TransferView
        decreases results.len(),
    {
        if results.len() == 0 {
            self
        } else {
            self.after_all(results.drop_last()).after(results.last())
        }
    }

    /// How the transfer ended, once it has.
    pub open spec fn result(self) -> Option<Result<(), error::ToolErrorView>> {
        match self.failure {
            Some(error) => Some(Err(error)),
            None => if self.done < self.plan.len() {
                None
            } else {
                Some(Ok(()))
            },
        }
    }
}

/// What came of an action, with its error as a text.
pub open spec fn told<T>(result: Result<T, String>) -> Result<(), Seq<char>> {
    match result {
        Ok(_) => Ok(()),
        Err(why) => Err(why@),
    }
}

/// The putting of a file on a host.
#[derive(Debug)]
pub struct Upload {
    host_name: String,
    remote_path: String,
    content: Vec<u8>,
    mode: u32,
    done: usize,
    failure: Option<ToolError>,
}

/// The error that a transfer ended in, if any.
pub open spec fn failure_of(failure: Option<ToolError>) -> Option<error::ToolErrorView> {
    match failure {
        Some(error) => Some(error@),
        None => None,
    }
}

impl View for Upload {
    type V = TransferView;

    closed spec fn view(&self) -> TransferView {
        TransferView {
            host_name: self.host_name@,
            plan: upload_plan(self.remote_path@, self.content@, self.mode),
            done: self.done as nat,
            failure: failure_of(self.failure),
        }
    }
}

impl Upload {
    /// Begins to put a file on a host.
    pub fn new(host_name: &str, remote_path: &str, content: Vec<u8>, mode: u32) -> (upload: Self)
        ensures
            upload@ == (TransferView {
                host_name: host_name@,
                plan: upload_plan(remote_path@, content@, mode),
                done: 0,
                failure: None,
            }),
    {
        Upload {
            host_name: host_name.to_owned(),
            remote_path: remote_path.to_owned(),
            content,
            mode,
            done: 0,
            failure: None,
        }
    }

    /// What has to be done next.
    pub fn action(&self) -> (action: SftpAction<'_>)
        ensures
            action@ == self@.action(),
    {
        if self.failure.is_some() {
            return SftpAction::Finish;
        }
        match self.done {
            0 => SftpAction::OpenChannel,
            1 => SftpAction::RequestSubsystem { name: "sftp" },
            2 => SftpAction::StartSftp,
            3 => SftpAction::CreateFile { path: self.remote_path.as_str() },
            4 => SftpAction::SetPermissions { mode: self.mode },
            5 => SftpAction::Write { content: self.content.as_slice() },
            6 => SftpAction::Flush,
            _ => SftpAction::Finish,
        }
    }

    /// The putting after its action came to a result.
    pub fn step(self, result: Result<(), String>) -> (next: Self)
        ensures
            next@ == self@.after(told(result)),
    {
        if self.failure.is_some() || self.done >= 7 {
            return self;
        }
        match result {
            Ok(()) => {
                let done: usize = self.done + 1;
                Upload { done, ..self }
            },
            Err(why) => {
                let failure = Some(failure_at(self.host_name.as_str(), self.done, why));
                Upload { failure, ..self }
            },
        }
    }

    /// How the putting ended, once it has.
    pub fn finish(self) -> (result: Option<Result<(), ToolError>>)
        ensures
            match result {
                Some(r) => self@.result() == Some(error::outcome_of(r)),
                None => self@.result() is None,
            },
    {
        match self.failure {
            Some(error) => Some(Err(error)),
            None => {
                if self.done < 7 {
                    None
                } else {
                    Some(Ok(()))
                }
            },
        }
    }
}

/// What came of an action of a download. An error is given in words.
#[derive(Debug)]
pub enum DownloadEvent {
    Done(Result<(), String>),
    Content(Result<Vec<u8>, String>),
}

/// The getting of a file from a host.
#[verifier::ext_equal]
pub struct DownloadView {
    pub transfer: TransferView,
    /// What was read.
    pub content: Seq<u8>,
}

impl DownloadView {
    /// The getting after an event. Content answers only the request to read, which nothing else
    /// answers; an event that does not fit changes nothing.
    pub open spec fn after(self, event: DownloadEvent) -> DownloadView {
        match event {
            DownloadEvent::Done(result) => if self.transfer.action() is ReadToEnd {
                self
            } else {
                DownloadView { transfer: self.transfer.after(told(result)), ..self }
            },
            DownloadEvent::Content(result) => if self.transfer.action() is ReadToEnd {
                DownloadView {
                    transfer: self.transfer.after(told(result)),
                    content: match result {
                        Ok(bytes) => bytes@,
                        Err(_) => self.content,
                    },
                }
            } else {
                self
            },
        }
    }

    /// How the getting ended, once it has.
    pub open spec fn result(self) -> Option<Result<Seq<u8>, error::ToolErrorView>> {
        match self.transfer.result() {
            Some(Ok(())) => Some(Ok(self.content)),
            Some(Err(error)) => Some(Err(error)),
            None => None,
        }
    }
}

/// The getting of a file from a host.
#[derive(Debug)]
pub struct Download {
    host_name: String,
    remote_path: String,
    content: Vec<u8>,
    done: usize,
    failure: Option<ToolError>,
}

impl View for Download {
    type V = DownloadView;

    closed spec fn view(&self) -> DownloadView {
        DownloadView {
            transfer: TransferView {
                host_name: self.host_name@,
                plan: download_plan(self.remote_path@),
                done: self.done as nat,
                failure: failure_of(self.failure),
            },
            content: self.content@,
        }
    }
}

impl Download {
    /// Begins to get a file from a host.
    pub fn new(host_name: &str, remote_path: &str) -> (download: Self)
        ensures
            download@ == (DownloadView {
                transfer: TransferView {
                    host_name: host_name@,
                    plan: download_plan(remote_path@),
                    done: 0,
                    failure: None,
                },
                content: Seq::empty(),
            }),
    {
        Download {
            host_name: host_name.to_owned(),
            remote_path: remote_path.to_owned(),
            content: Vec::new(),
            done: 0,
            failure: None,
        }
    }

    /// What has to be done next.
    pub fn action(&self) -> (action: SftpAction<'_>)
        ensures
            action@ == self@.transfer.action(),
    {
        if self.failure.is_some() {
            return SftpAction::Finish;
        }
        match self.done {
            0 => SftpAction::OpenChannel,
            1 => SftpAction::RequestSubsystem { name: "sftp" },
            2 => SftpAction::StartSftp,
            3 => SftpAction::OpenFile { path: self.remote_path.as_str() },
            4 => SftpAction::ReadToEnd,
            _ => SftpAction::Finish,
        }
    }

    /// The getting after an event. One that does not fit changes nothing.
    pub fn step(self, event: DownloadEvent) -> (next: Self)
        ensures
            next@ == self@.after(event),
    {
        if self.failure.is_some() || self.done >= 5 {
            return self;
        }
        match event {
            DownloadEvent::Done(result) => {
                if self.done == 4 {
                    return self;
                }
                match result {
                    Ok(()) => {
                        let done: usize = self.done + 1;
                        Download { done, ..self }
                    },
                    Err(why) => {
                        let failure = Some(failure_at(self.host_name.as_str(), self.done, why));
                        Download { failure, ..self }
                    },
                }
            },
            DownloadEvent::Content(result) => {
                if self.done != 4 {
                    return self;
                }
                match result {
                    Ok(content) => Download { content, done: 5, ..self },
                    Err(why) => {
                        let failure = Some(failure_at(self.host_name.as_str(), 4, why));
                        Download { failure, ..self }
                    },
                }
            },
        }
    }

    /// How the getting ended, once it has: what the file holds, or why it could not be got.
    pub fn finish(self) -> (result: Option<Result<Vec<u8>, ToolError>>)
        ensures
            match result {
                Some(r) => self@.result() == Some(error::outcome_of(r)),
                None => self@.result() is None,
            },
    {
        match self.failure {
            Some(error) => Some(Err(error)),
            None => {
                if self.done < 5 {
                    None
                } else {
                    Some(Ok(self.content))
                }
            },
        }
    }
}

/// A transfer whose actions all succeed does them in the order of its plan, and succeeds when
/// they are done.
pub proof fn a_plan_is_followed(transfer: TransferView, results: Seq<Result<(), Seq<char>>>)
    requires
        transfer.done == 0,
        transfer.failure is None,
        results.len() <= transfer.plan.len(),
        forall|i: int| 0 <= i < results.len() ==> #[trigger] results[i] is Ok,
    ensures
        transfer.after_all(results) == (TransferView { done: results.len(), ..transfer }),
        results.len() < transfer.plan.len() ==> transfer.after_all(results).action()
            == transfer.plan[results.len() as int],
        results.len() == transfer.plan.len() ==> transfer.after_all(results).result() == Some(
            Ok::<(), error::ToolErrorView>(()),
        ),
    decreases results.len(),
{
    if results.len() > 0 {
        let fewer = results.drop_last();
        assert forall|i: int| 0 <= i < fewer.len() implies #[trigger] fewer[i] is Ok by {
            assert(fewer[i] == results[i]);
        }
        a_plan_is_followed(transfer, fewer);
        assert(results[results.len() - 1] is Ok);
    }
}

/// The first action that fails ends the transfer with its error; nothing is done after it.
pub proof fn a_failure_ends_a_transfer(
    transfer: TransferView,
    before: Seq<Result<(), Seq<char>>>,
    why: Seq<char>,
    later: Seq<Result<(), Seq<char>>>,
)
    requires
        transfer.done == 0,
        transfer.failure is None,
        before.len() < transfer.plan.len(),
        forall|i: int| 0 <= i < before.len() ==> #[trigger] before[i] is Ok,
    ensures
        transfer.after_all(before.push(Err(why)) + later).result() == Some(
            Err::<(), error::ToolErrorView>(step_error(transfer.host_name, before.len(), why)),
        ),
        transfer.after_all(before.push(Err(why)) + later).action() is Finish,
    decreases later.len(),
{
    let all = before.push(Err(why)) + later;
    if later.len() == 0 {
        a_plan_is_followed(transfer, before);
        assert(all.drop_last() =~= before);
        assert(all.last() == Err::<(), Seq<char>>(why));
    } else {
        a_failure_ends_a_transfer(transfer, before, why, later.drop_last());
        assert(all.drop_last() =~= before.push(Err(why)) + later.drop_last());
    }
}

/// As long as a transfer goes on, every action so far has succeeded.
pub proof fn a_transfer_goes_on_by_success(
    transfer: TransferView,
    results: Seq<Result<(), Seq<char>>>,
)
    requires
        transfer.done == 0,
        transfer.failure is None,
    ensures
        transfer.after_all(results).plan == transfer.plan,
        transfer.after_all(results).result() is None ==> transfer.after_all(results).done
            == results.len() && forall|i: int|
            0 <= i < results.len() ==> #[trigger] results[i] is Ok,
    decreases results.len(),
{
    if results.len() > 0 {
        let before = results.drop_last();
        a_transfer_goes_on_by_success(transfer, before);
        if transfer.after_all(results).result() is None {
            assert forall|i: int| 0 <= i < results.len() implies #[trigger] results[i] is Ok by {
                if i < before.len() {
                    assert(results[i] == before[i]);
                }
            }
        }
    }
}

/// Nothing is written to a file that is put on a host before its permission bits are set: the
/// content is never open to more than them.
pub proof fn permissions_come_before_content(
    upload: TransferView,
    path: Seq<char>,
    content: Seq<u8>,
    mode: u32,
    results: Seq<Result<(), Seq<char>>>,
)
    requires
        upload.plan == upload_plan(path, content, mode),
        upload.done == 0,
        upload.failure is None,
        upload.after_all(results).action() is Write,
    ensures
        results.len() == 5,
        upload.after_all(results.take(4)).action() == (SftpActionView::SetPermissions { mode }),
        results[4] is Ok,
{
    a_transfer_goes_on_by_success(upload, results);
    assert(upload.plan[results.len() as int] is Write);
    assert forall|i: int| 0 <= i < 4 implies #[trigger] results.take(4)[i] is Ok by {
        assert(results.take(4)[i] == results[i]);
    }
    a_plan_is_followed(upload, results.take(4));
}

/// A download whose actions all succeed ends with the bytes that were read.
pub proof fn a_download_gives_what_was_read(
    download: DownloadView,
    path: Seq<char>,
    bytes: Vec<u8>,
)
    requires
        download.transfer.plan == download_plan(path),
        download.transfer.done == 0,
        download.transfer.failure is None,
    ensures
        ({
            let done = DownloadEvent::Done(Ok(()));
            let opened = download.after(done).after(done).after(done).after(done);
            &&& opened.transfer.action() is ReadToEnd
            &&& opened.after(DownloadEvent::Content(Ok(bytes))).result() == Some(
                Ok::<Seq<u8>, error::ToolErrorView>(bytes@),
            )
        }),
{
}

/// What is done to put a file on a host, action by action: after as many successes as come before
/// it, each action is the one that the path, the whole content and the mode ask for.
pub proof fn an_upload_writes_the_content(
    upload: TransferView,
    path: Seq<char>,
    content: Seq<u8>,
    mode: u32,
    results: Seq<Result<(), Seq<char>>>,
)
    requires
        upload.plan == upload_plan(path, content, mode),
        upload.done == 0,
        upload.failure is None,
        forall|i: int| 0 <= i < results.len() ==> #[trigger] results[i] is Ok,
    ensures
        ({
            let action = upload.after_all(results).action();
            &&& results.len() == 0 ==> action is OpenChannel
            &&& results.len() == 1 ==> action == (SftpActionView::RequestSubsystem { name: "sftp"@ })
            &&& results.len() == 2 ==> action is StartSftp
            &&& results.len() == 3 ==> (action matches SftpActionView::CreateFile { path: p } && p
                == path)
            &&& results.len() == 4 ==> (action matches SftpActionView::SetPermissions { mode: m }
                && m == mode)
            &&& results.len() == 5 ==> (action matches SftpActionView::Write { content: c } && c
                == content)
            &&& results.len() == 6 ==> action is Flush
            &&& results.len() >= 7 ==> action is Finish
            &&& upload.after_all(results).result() == if results.len() >= 7 {
                Some(Ok::<(), error::ToolErrorView>(()))
            } else {
                None
            }
        }),
{
    lemma_all_succeed(upload, results);
}

/// What is done to get a file from a host, action by action.
pub proof fn a_download_reads_the_file(
    download: TransferView,
    path: Seq<char>,
    results: Seq<Result<(), Seq<char>>>,
)
    requires
        download.plan == download_plan(path),
        download.done == 0,
        download.failure is None,
        forall|i: int| 0 <= i < results.len() ==> #[trigger] results[i] is Ok,
    ensures
        ({
            let action = download.after_all(results).action();
            &&& results.len() == 0 ==> action is OpenChannel
            &&& results.len() == 1 ==> action == (SftpActionView::RequestSubsystem { name: "sftp"@ })
            &&& results.len() == 2 ==> action is StartSftp
            &&& results.len() == 3 ==> (action matches SftpActionView::OpenFile { path: p } && p
                == path)
            &&& results.len() == 4 ==> action is ReadToEnd
            &&& results.len() >= 5 ==> action is Finish
        }),
{
    lemma_all_succeed(download, results);
}

/// A transfer whose actions all succeed gets on by one with each, up to the end of its plan.
proof fn lemma_all_succeed(transfer: TransferView, results: Seq<Result<(), Seq<char>>>)
    requires
        transfer.done == 0,
        transfer.failure is None,
        forall|i: int| 0 <= i < results.len() ==> #[trigger] results[i] is Ok,
    ensures
        transfer.after_all(results) == (TransferView {
            done: if results.len() < transfer.plan.len() {
                results.len()
            } else {
                transfer.plan.len()
            },
            ..transfer
        }),
    decreases results.len(),
{
    if results.len() > 0 {
        let fewer = results.drop_last();
        assert forall|i: int| 0 <= i < fewer.len() implies #[trigger] fewer[i] is Ok by {
            assert(fewer[i] == results[i]);
        }
        lemma_all_succeed(transfer, fewer);
        assert(results[results.len() - 1] is Ok);
    }
}

/// A transfer succeeds only if every action of its plan did, whatever results it is given.
pub proof fn success_takes_every_action(
    transfer: TransferView,
    results: Seq<Result<(), Seq<char>>>,
)
    requires
        transfer.done == 0,
        transfer.failure is None,
        transfer.after_all(results).result() matches Some(Ok(_)),
    ensures
        results.len() >= transfer.plan.len(),
        forall|i: int| 0 <= i < transfer.plan.len() ==> #[trigger] results[i] is Ok,
    decreases results.len(),
{
    if results.len() > 0 {
        let fewer = results.drop_last();
        a_transfer_goes_on_by_success(transfer, fewer);
        if transfer.after_all(fewer).result() is None {
            assert forall|i: int| 0 <= i < transfer.plan.len() implies #[trigger] results[i] is Ok by {
                if i < fewer.len() {
                    assert(fewer[i] == results[i]);
                }
            }
        } else {
            success_takes_every_action(transfer, fewer);
            assert forall|i: int| 0 <= i < transfer.plan.len() implies #[trigger] results[i] is Ok by {
                assert(fewer[i] == results[i]);
            }
        }
    }
}

/// An action that fails is reported with its reason and the host: as a connection error while
/// there is no SFTP yet, and as an SFTP error from its start on.
pub proof fn a_failed_action_says_why(
    transfer: TransferView,
    before: Seq<Result<(), Seq<char>>>,
    why: Seq<char>,
)
    requires
        transfer.done == 0,
        transfer.failure is None,
        before.len() < transfer.plan.len(),
        forall|i: int| 0 <= i < before.len() ==> #[trigger] before[i] is Ok,
    ensures
        transfer.after_all(before.push(Err(why))).result() == Some(
            Err::<(), error::ToolErrorView>(
                if before.len() < 2 {
                    error::ToolErrorView::SshConnect { host: transfer.host_name, source: why }
                } else {
                    error::ToolErrorView::Sftp { host: transfer.host_name, message: why }
                },
            ),
        ),
{
    a_failure_ends_a_transfer(transfer, before, why, Seq::empty());
    assert(before.push(Err(why)) + Seq::<Result<(), Seq<char>>>::empty() =~= before.push(Err(why)));
}

/// A download is given no content but what was read, and an action that fails ends it with its
/// reason and the host: as a connection error while there is no SFTP yet, and as an SFTP error
/// from its start on.
pub proof fn a_download_fails_as_its_actions_do(
    download: DownloadView,
    path: Seq<char>,
    event: DownloadEvent,
    why: String,
)
    requires
        download.transfer.plan == download_plan(path),
        download.transfer.failure is None,
        download.transfer.done < 5,
    ensures
        ({
            let host = download.transfer.host_name;
            let failed = if download.transfer.done < 4 {
                download.after(DownloadEvent::Done(Err(why)))
            } else {
                download.after(DownloadEvent::Content(Err(why)))
            };
            &&& failed.result() == Some(
                Err::<Seq<u8>, error::ToolErrorView>(
                    if download.transfer.done < 2 {
                        error::ToolErrorView::SshConnect { host, source: why@ }
                    } else {
                        error::ToolErrorView::Sftp { host, message: why@ }
                    },
                ),
            )
            &&& download.transfer.done < 4 ==> download.after(event).content == download.content
            &&& download.transfer.done == 4 ==> download.after(DownloadEvent::Done(Ok(())))
                == download
        }),
{
}

/// What came of an action is told as it is.
pub proof fn results_are_told_as_they_are(why: String, bytes: Vec<u8>)
    ensures
        told(Ok::<(), String>(())) == Ok::<(), Seq<char>>(()),
        told(Ok::<Vec<u8>, String>(bytes)) == Ok::<(), Seq<char>>(()),
        told(Err::<(), String>(why)) == Err::<(), Seq<char>>(why@),
        told(Err::<Vec<u8>, String>(why)) == Err::<(), Seq<char>>(why@),
{
}

/// An action says what it says.
pub proof fn sftp_actions_are_what_they_say(action: SftpAction<'_>)
    ensures
        action matches SftpAction::RequestSubsystem { name } ==> action@ == (
        SftpActionView::RequestSubsystem { name: name@ }),
        action matches SftpAction::CreateFile { path } ==> action@ == (SftpActionView::CreateFile {
            path: path@,
        }),
        action matches SftpAction::OpenFile { path } ==> action@ == (SftpActionView::OpenFile {
            path: path@,
        }),
        action matches SftpAction::SetPermissions { mode } ==> action@ == (
        SftpActionView::SetPermissions { mode }),
        action matches SftpAction::Write { content } ==> action@ == (SftpActionView::Write {
            content: content@,
        }),
        action is OpenChannel <==> action@ is OpenChannel,
        action is StartSftp <==> action@ is StartSftp,
        action is Flush <==> action@ is Flush,
        action is ReadToEnd <==> action@ is ReadToEnd,
        action is Finish <==> action@ is Finish,
{
}

} // verus!
