//! The transcript: the text `/copy` takes back out of it, and the entries
//! of shell commands run from the editor.
use vstd::prelude::*;
use crate::list_picker::{concat_parts, extract_user_text};
use crate::listnav::views;
use crate::text::{chars_of, owned, push_str_chars, string_from_chars, trim_seq};

verus! {

/// The text of a reply: its text parts run together, trimmed.
pub open spec fn reply_text(parts: Seq<String>) -> Seq<char> {
    trim_seq(concat_parts(views(parts)))
}

/// The text of the last assistant reply that has any: `messages` holds,
/// for each message of the session in order, the text parts of an
/// assistant reply and `None` for any other message.
pub open spec fn last_reply_text(messages: Seq<Option<Vec<String>>>) -> Option<Seq<char>>
    decreases messages.len(),
{
    if messages.len() == 0 {
        None
    } else {
        match messages.last() {
            Some(parts) if reply_text(parts@).len() > 0 => Some(reply_text(parts@)),
            _ => last_reply_text(messages.drop_last()),
        }
    }
}

/// The text `/copy` copies (see `last_reply_text`).
pub fn last_assistant_message_text(messages: &Vec<Option<Vec<String>>>) -> (r: Option<String>)
    ensures
        match r {
            Some(t) => last_reply_text(messages@) == Some(t@),
            None => last_reply_text(messages@) is None,
        },
{
    let mut k: usize = messages.len();
    assert(messages@.take(k as int) =~= messages@);
    while k > 0
        invariant
            0 <= k <= messages@.len(),
            last_reply_text(messages@) == last_reply_text(messages@.take(k as int)),
        decreases k,
    {
        let ghost prefix = messages@.take(k as int);
        assert(prefix.drop_last() =~= messages@.take(k - 1));
        assert(prefix.last() == messages@[k - 1]);
        if let Some(parts) = &messages[k - 1] {
            let text = extract_user_text(parts);
            if text.as_str().unicode_len() > 0 {
                return Some(text);
            }
        }
        k = k - 1;
    }
    None
}


/// Where a shell command run from the editor stands.
pub enum BashTranscriptStatus {
    Running,
    /// It could not be run, for this reason.
    Failed(String),
    /// It finished; the text shows the command and its output.
    Complete(String),
}

/// The label over a shell command's entry.
pub open spec fn bash_label(exclude_from_context: bool) -> Seq<char> {
    if exclude_from_context {
        "[bash no context]"@
    } else {
        "[bash]"@
    }
}

/// The body of a shell command's entry: the command and a running note
/// naming the cancel key, or the command and the error, or the finished
/// run's text.
pub open spec fn bash_body(command: Seq<char>, cancel_key_text: Seq<char>, status: BashTranscriptStatus) -> Seq<char> {
    match status {
        BashTranscriptStatus::Running => "$ "@ + command + "\n\nRunning... ("@ + cancel_key_text + " to cancel)"@,
        BashTranscriptStatus::Failed(error) => "$ "@ + command + "\n\nError: "@ + error@,
        BashTranscriptStatus::Complete(text) => text@,
    }
}

/// The label and body of a shell command's entry (see `bash_label` and
/// `bash_body`).
pub fn bash_transcript_text(
    command: &str,
    cancel_key_text: &str,
    exclude_from_context: bool,
    status: &BashTranscriptStatus,
) -> (r: (String, String))
    ensures
        r.0@ == bash_label(exclude_from_context),
        r.1@ == bash_body(command@, cancel_key_text@, *status),
{
    let label = if exclude_from_context {
        owned("[bash no context]")
    } else {
        owned("[bash]")
    };
    let body = match status {
        BashTranscriptStatus::Running => {
            let mut v = chars_of("$ ");
            push_str_chars(&mut v, command);
            push_str_chars(&mut v, "\n\nRunning... (");
            push_str_chars(&mut v, cancel_key_text);
            push_str_chars(&mut v, " to cancel)");
            string_from_chars(&v)
        },
        BashTranscriptStatus::Failed(error) => {
            let mut v = chars_of("$ ");
            push_str_chars(&mut v, command);
            push_str_chars(&mut v, "\n\nError: ");
            push_str_chars(&mut v, error.as_str());
            string_from_chars(&v)
        },
        BashTranscriptStatus::Complete(text) => owned(text.as_str()),
    };
    (label, body)
}

/// A shell command submitted while another runs is not started: the
/// editor gets the command back as it was typed (`!!` before it when it
/// stays out of the context, `!` otherwise) and the status line says how
/// to cancel the running one.
pub open spec fn bash_busy_reply(command: Seq<char>, exclude_from_context: bool, interrupt_key_text: Seq<char>) -> (Seq<char>, Seq<char>) {
    (
        (if exclude_from_context {
            "!!"@
        } else {
            "!"@
        }) + command,
        "A bash command is already running. Press "@ + interrupt_key_text + " to cancel it first."@,
    )
}

/// What submitting a shell command does to the editor and status line
/// while another runs (see `bash_busy_reply`); nothing when none runs.
pub fn bash_submit_refusal(
    running: bool,
    command: &str,
    exclude_from_context: bool,
    interrupt_key_text: &str,
) -> (r: Option<(String, String)>)
    ensures
        match r {
            Some((input, status)) => running && (input@, status@) == bash_busy_reply(
                command@,
                exclude_from_context,
                interrupt_key_text@,
            ),
            None => !running,
        },
{
    if !running {
        return None;
    }
    let mut input = if exclude_from_context {
        chars_of("!!")
    } else {
        chars_of("!")
    };
    push_str_chars(&mut input, command);
    let mut status = chars_of("A bash command is already running. Press ");
    push_str_chars(&mut status, interrupt_key_text);
    push_str_chars(&mut status, " to cancel it first.");
    Some((string_from_chars(&input), string_from_chars(&status)))
}

} // verus!
