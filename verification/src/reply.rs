//! What the tools reply.
use vstd::prelude::*;
use vstd::string::*;

use crate::error;
use crate::error::McpError;
use crate::ssh;
use crate::ssh::ExecOutput;
use crate::text;

verus! {

/// What a tool call gives back.
#[derive(Debug)]
pub struct ToolReply {
    pub text: String,
    /// Whether the tool did its work but reports that it went wrong.
    pub is_error: bool,
}

/// What a `ToolReply` holds, as mathematical values.
pub struct ReplyView {
    pub text: Seq<char>,
    pub is_error: bool,
}

impl View for ToolReply {
    type V = ReplyView;

    open spec fn view(&self) -> ReplyView {
        ReplyView { text: self.text@, is_error: self.is_error }
    }
}

/// What a call comes to, as mathematical values.
pub open spec fn answer_of(result: Result<ToolReply, McpError>) -> Result<
    ReplyView,
    error::McpErrorView,
> {
    match result {
        Ok(reply) => Ok(reply@),
        Err(error) => Err(error@),
    }
}

/// The reply that gives a command's output: standard output alone if there is nothing else to
/// show, and the exit code before it if that is not zero, as an error.
pub open spec fn exec_reply(out: ssh::OutputView) -> ReplyView {
    let text = if out.stderr.len() == 0 {
        out.stdout
    } else {
        "stdout:\n"@ + out.stdout + "\nstderr:\n"@ + out.stderr
    };
    if out.exit_code != 0 {
        ReplyView {
            text: "exit code: "@ + text::decimal(out.exit_code as nat) + "\n"@ + text,
            is_error: true,
        }
    } else {
        ReplyView { text, is_error: false }
    }
}

/// Format an ExecOutput as a reply.
/// Non-zero exits use is_error=true so the LLM can read the output and diagnose failures.
pub fn format_exec_result(out: ExecOutput) -> (reply: ToolReply)
    ensures
        reply@ == exec_reply(out@),
{
    let text = if out.stderr.as_str().is_empty() {
        out.stdout
    } else {
        "stdout:\n".to_owned().concat(out.stdout.as_str()).concat("\nstderr:\n").concat(
            out.stderr.as_str(),
        )
    };
    if out.exit_code != 0 {
        ToolReply {
            text: "exit code: ".to_owned().concat(
                text::decimal_text(out.exit_code as u64).as_str(),
            ).concat("\n").concat(text.as_str()),
            is_error: true,
        }
    } else {
        ToolReply { text, is_error: false }
    }
}

/// The reply to an upload.
pub open spec fn upload_reply(size: nat, remote_path: Seq<char>) -> ReplyView {
    ReplyView {
        text: "Uploaded "@ + text::decimal(size) + " bytes to "@ + remote_path,
        is_error: false,
    }
}

/// The reply to an upload of `size` bytes.
pub fn format_upload_result(size: usize, remote_path: &str) -> (reply: ToolReply)
    ensures
        reply@ == upload_reply(size as nat, remote_path@),
{
    ToolReply {
        text: "Uploaded ".to_owned().concat(text::decimal_text(size as u64).as_str()).concat(
            " bytes to ",
        ).concat(remote_path),
        is_error: false,
    }
}

/// The reply to a download, given how many bytes the file has and the base64 of its content.
pub open spec fn download_reply(size: nat, encoded: Seq<char>) -> ReplyView {
    ReplyView {
        text: "{\"bytes\":"@ + text::decimal(size) + ",\"content\":\""@ + encoded + "\"}"@,
        is_error: false,
    }
}

/// The reply to a download, given how many bytes the file has and the base64 of its content.
pub fn format_download_result(size: usize, encoded: &str) -> (reply: ToolReply)
    ensures
        reply@ == download_reply(size as nat, encoded@),
{
    ToolReply {
        text: "{\"bytes\":".to_owned().concat(text::decimal_text(size as u64).as_str()).concat(
            ",\"content\":\"",
        ).concat(encoded).concat("\"}"),
        is_error: false,
    }
}

/// Whether a text stands somewhere in another.
pub open spec fn shows(text: Seq<char>, part: Seq<char>) -> bool {
    exists|before: Seq<char>, after: Seq<char>| text == #[trigger] (before + part + after)
}

/// The reply to a command is an error exactly if the command did not exit with zero, and either
/// way shows all that the command put out.
pub proof fn output_is_visible(out: ssh::OutputView)
    ensures
        exec_reply(out).is_error <==> out.exit_code != 0,
        shows(exec_reply(out).text, out.stdout),
        shows(exec_reply(out).text, out.stderr),
{
    let text = exec_reply(out).text;
    let none = Seq::<char>::empty();
    let code = if out.exit_code != 0 {
        "exit code: "@ + text::decimal(out.exit_code as nat) + "\n"@
    } else {
        none
    };
    if out.stderr.len() == 0 {
        assert(text =~= code + out.stdout + none);
        assert(text =~= text + out.stderr + none);
    } else {
        assert(text =~= (code + "stdout:\n"@) + out.stdout + ("\nstderr:\n"@ + out.stderr));
        assert(text =~= (code + "stdout:\n"@ + out.stdout + "\nstderr:\n"@) + out.stderr + none);
    }
}

/// A command that succeeds and writes nothing to standard error is replied to with its standard
/// output alone.
pub proof fn clean_output_is_shown_alone(out: ssh::OutputView)
    requires
        out.stderr.len() == 0,
        out.exit_code == 0,
    ensures
        exec_reply(out).text == out.stdout,
{
}

/// The reply to a download can be read back: it opens with the number of bytes, and everything
/// from there to the closing quote is the content, whole. Replies for other contents, or for
/// other numbers of bytes, are other replies.
pub proof fn a_download_can_be_read_off_its_reply(size: nat, encoded: Seq<char>)
    ensures
        !download_reply(size, encoded).is_error,
        ({
            let text = download_reply(size, encoded).text;
            let opening = "{\"bytes\":"@ + text::decimal(size) + ",\"content\":\""@;
            let closing = "\"}"@;
            &&& text.len() == opening.len() + encoded.len() + closing.len()
            &&& text.take(opening.len() as int) == opening
            &&& text.subrange(opening.len() as int, (opening.len() + encoded.len()) as int)
                == encoded
            &&& text.skip((opening.len() + encoded.len()) as int) == closing
        }),
{
    let text = download_reply(size, encoded).text;
    let opening = "{\"bytes\":"@ + text::decimal(size) + ",\"content\":\""@;
    let closing = "\"}"@;
    assert(text =~= opening + encoded + closing);
    assert(text.take(opening.len() as int) =~= opening);
    assert(text.subrange(opening.len() as int, (opening.len() + encoded.len()) as int) =~= encoded);
    assert(text.skip((opening.len() + encoded.len()) as int) =~= closing);
}

/// Downloads of the same number of bytes with the same reply have the same content.
pub proof fn same_download_reply_same_content(size: nat, a: Seq<char>, b: Seq<char>)
    requires
        download_reply(size, a).text == download_reply(size, b).text,
    ensures
        a == b,
{
    a_download_can_be_read_off_its_reply(size, a);
    a_download_can_be_read_off_its_reply(size, b);
    assert(a.len() == b.len());
}

/// The reply to an upload can be read back: it opens with the number of bytes, and all that
/// follows is the path, whole.
pub proof fn an_upload_can_be_read_off_its_reply(size: nat, remote_path: Seq<char>)
    ensures
        !upload_reply(size, remote_path).is_error,
        ({
            let text = upload_reply(size, remote_path).text;
            let opening = "Uploaded "@ + text::decimal(size) + " bytes to "@;
            &&& text.len() == opening.len() + remote_path.len()
            &&& text.take(opening.len() as int) == opening
            &&& text.skip(opening.len() as int) == remote_path
        }),
{
    let text = upload_reply(size, remote_path).text;
    let opening = "Uploaded "@ + text::decimal(size) + " bytes to "@;
    assert(text =~= opening + remote_path);
    assert(text.take(opening.len() as int) =~= opening);
    assert(text.skip(opening.len() as int) =~= remote_path);
}

/// The reply to a command can be read back. A command that failed is replied to as one that
/// succeeded with the same output, with a line before it that gives the exit code; and where
/// there is something on standard error, it is the end of the reply, and the standard output
/// stands before it.
pub proof fn output_can_be_read_off_its_reply(out: ssh::OutputView)
    ensures
        ({
            let plain = exec_reply(ssh::OutputView { exit_code: 0, ..out }).text;
            let text = exec_reply(out).text;
            let line = "exit code: "@ + text::decimal(out.exit_code as nat) + "\n"@;
            &&& out.exit_code != 0 ==> text.len() == line.len() + plain.len() && text.take(
                line.len() as int,
            ) == line && text.skip(line.len() as int) == plain
            &&& out.exit_code == 0 ==> text == plain
            &&& out.stderr.len() == 0 ==> plain == out.stdout
            &&& out.stderr.len() > 0 ==> {
                let first = "stdout:\n"@;
                let second = "\nstderr:\n"@;
                let end = (plain.len() - out.stderr.len()) as int;
                &&& plain.len() == first.len() + out.stdout.len() + second.len() + out.stderr.len()
                &&& plain.take(first.len() as int) == first
                &&& plain.subrange(first.len() as int, (first.len() + out.stdout.len()) as int)
                    == out.stdout
                &&& plain.subrange((first.len() + out.stdout.len()) as int, end) == second
                &&& plain.skip(end) == out.stderr
            }
        }),
{
    let plain = exec_reply(ssh::OutputView { exit_code: 0, ..out }).text;
    let text = exec_reply(out).text;
    let line = "exit code: "@ + text::decimal(out.exit_code as nat) + "\n"@;
    if out.exit_code != 0 {
        assert(text =~= line + plain);
        assert(text.take(line.len() as int) =~= line);
        assert(text.skip(line.len() as int) =~= plain);
    }
    if out.stderr.len() > 0 {
        let first = "stdout:\n"@;
        let second = "\nstderr:\n"@;
        let end = (plain.len() - out.stderr.len()) as int;
        assert(plain =~= first + out.stdout + second + out.stderr);
        assert(plain.take(first.len() as int) =~= first);
        assert(plain.subrange(first.len() as int, (first.len() + out.stdout.len()) as int)
            =~= out.stdout);
        assert(plain.subrange((first.len() + out.stdout.len()) as int, end) =~= second);
        assert(plain.skip(end) =~= out.stderr);
    }
}

/// A reply is its text and whether it is an error; an answer is a reply or an error of the protocol.
pub proof fn a_reply_holds_its_text(reply: ToolReply, error: McpError)
    ensures
        reply@.text == reply.text@,
        reply@.is_error == reply.is_error,
        answer_of(Ok(reply)) == Ok::<ReplyView, error::McpErrorView>(reply@),
        answer_of(Err(error)) == Err::<ReplyView, error::McpErrorView>(error@),
{
}

} // verus!
