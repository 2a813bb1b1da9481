//! The text the command line prints: diagnostics, warnings, help, and the
//! small values it derives from its inputs.
use vstd::prelude::*;
use crate::args::{AppMode, Args, Diagnostic, DiagnosticKind};
use crate::text::{chars_of, has_prefix, owned, push_line, push_str_chars, string_from_chars, trim_chars, trim_seq};

verus! {

/// Lines joined, each ending with a newline.
pub open spec fn joined_lines(lines: Seq<Seq<char>>) -> Seq<char>
    decreases lines.len(),
{
    if lines.len() == 0 {
        seq![]
    } else {
        joined_lines(lines.drop_last()) + lines.last() + seq!['\n']
    }
}

/// Writes each line followed by a newline.
pub fn join_lines_chars(lines: &Vec<Vec<char>>) -> (r: Vec<char>)
    ensures
        r@ == joined_lines(lines@.map_values(|l: Vec<char>| l@)),
{
    let ghost ls = lines@.map_values(|l: Vec<char>| l@);
    let mut out: Vec<char> = Vec::new();
    let mut i: usize = 0;
    assert(ls.take(0) =~= seq![]);
    while i < lines.len()
        invariant
            0 <= i <= lines@.len(),
            ls == lines@.map_values(|l: Vec<char>| l@),
            out@ == joined_lines(ls.take(i as int)),
        decreases lines@.len() - i,
    {
        crate::text::extend_chars(&mut out, &lines[i]);
        out.push('\n');
        assert(ls.take(i + 1).drop_last() =~= ls.take(i as int));
        i = i + 1;
    }
    assert(ls.take(ls.len() as int) =~= ls);
    out
}

/// `Warning` or `Error`.
pub open spec fn kind_label(kind: DiagnosticKind) -> Seq<char> {
    match kind {
        DiagnosticKind::Warning => "Warning"@,
        DiagnosticKind::Error => "Error"@,
    }
}

/// The line of one diagnostic: its label, a colon and its message.
pub open spec fn labelled(label: Seq<char>, message: Seq<char>) -> Seq<char> {
    label + ": "@ + message
}

/// Appends `label: message` as a line.
fn push_labelled(out: &mut String, label: &str, message: &str)
    ensures
        final(out)@ == old(out)@ + labelled(label@, message@) + seq!['\n'],
{
    let mut v = chars_of(label);
    push_str_chars(&mut v, ": ");
    push_str_chars(&mut v, message);
    let line = string_from_chars(&v);
    push_line(out, line.as_str());
}

/// The argument diagnostics, one line each.
pub fn render_parse_diagnostics(diagnostics: &Vec<Diagnostic>) -> (r: String)
    ensures
        r@ == joined_lines(diagnostics@.map_values(|d: Diagnostic| labelled(kind_label(d.kind), d.message@))),
{
    let ghost ls = diagnostics@.map_values(|d: Diagnostic| labelled(kind_label(d.kind), d.message@));
    let mut out = String::new();
    proof {
        reveal_strlit("");
    }
    let mut i: usize = 0;
    while i < diagnostics.len()
        invariant
            0 <= i <= diagnostics@.len(),
            ls == diagnostics@.map_values(|d: Diagnostic| labelled(kind_label(d.kind), d.message@)),
            out@ == joined_lines(ls.take(i as int)),
        decreases diagnostics@.len() - i,
    {
        let label = match diagnostics[i].kind {
            DiagnosticKind::Warning => "Warning",
            DiagnosticKind::Error => "Error",
        };
        push_labelled(&mut out, label, diagnostics[i].message.as_str());
        assert(ls.take(i + 1).drop_last() =~= ls.take(i as int));
        i = i + 1;
    }
    assert(ls.take(ls.len() as int) =~= ls);
    out
}

/// Scope warnings, one `Warning:` line each.
pub fn render_scope_warnings(warnings: &Vec<String>) -> (r: String)
    ensures
        r@ == joined_lines(warnings@.map_values(|w: String| labelled("Warning"@, w@))),
{
    let ghost ls = warnings@.map_values(|w: String| labelled("Warning"@, w@));
    let mut out = String::new();
    proof {
        reveal_strlit("");
    }
    let mut i: usize = 0;
    while i < warnings.len()
        invariant
            0 <= i <= warnings@.len(),
            ls == warnings@.map_values(|w: String| labelled("Warning"@, w@)),
            out@ == joined_lines(ls.take(i as int)),
        decreases warnings@.len() - i,
    {
        push_labelled(&mut out, "Warning", warnings[i].as_str());
        assert(ls.take(i + 1).drop_last() =~= ls.take(i as int));
        i = i + 1;
    }
    assert(ls.take(ls.len() as int) =~= ls);
    out
}

/// Extension diagnostics, given as `(level, message)`: level `error` is an
/// error, anything else a warning.
pub fn render_extension_diagnostics(diagnostics: &Vec<(String, String)>) -> (r: String)
    ensures
        r@ == joined_lines(
            diagnostics@.map_values(
                |d: (String, String)|
                    labelled(
                        if d.0@ == "error"@ {
                            "Error"@
                        } else {
                            "Warning"@
                        },
                        d.1@,
                    ),
            ),
        ),
{
    let ghost ls = diagnostics@.map_values(
        |d: (String, String)|
            labelled(
                if d.0@ == "error"@ {
                    "Error"@
                } else {
                    "Warning"@
                },
                d.1@,
            ),
    );
    let mut out = String::new();
    proof {
        reveal_strlit("");
    }
    let mut i: usize = 0;
    while i < diagnostics.len()
        invariant
            0 <= i <= diagnostics@.len(),
            ls == diagnostics@.map_values(
                |d: (String, String)|
                    labelled(
                        if d.0@ == "error"@ {
                            "Error"@
                        } else {
                            "Warning"@
                        },
                        d.1@,
                    ),
            ),
            out@ == joined_lines(ls.take(i as int)),
        decreases diagnostics@.len() - i,
    {
        let level = chars_of(diagnostics[i].0.as_str());
        let label = if crate::text::chars_eq_str(&level, "error") {
            "Error"
        } else {
            "Warning"
        };
        push_labelled(&mut out, label, diagnostics[i].1.as_str());
        assert(ls.take(i + 1).drop_last() =~= ls.take(i as int));
        i = i + 1;
    }
    assert(ls.take(ls.len() as int) =~= ls);
    out
}

/// Settings warnings, given as `(scope label, message)`.
pub fn render_settings_warnings(warnings: &Vec<(String, String)>) -> (r: String)
    ensures
        r@ == joined_lines(
            warnings@.map_values(
                |w: (String, String)| labelled("Warning"@, "("@ + w.0@ + " settings) "@ + w.1@),
            ),
        ),
{
    let ghost ls = warnings@.map_values(
        |w: (String, String)| labelled("Warning"@, "("@ + w.0@ + " settings) "@ + w.1@),
    );
    let mut out = String::new();
    proof {
        reveal_strlit("");
    }
    let mut i: usize = 0;
    while i < warnings.len()
        invariant
            0 <= i <= warnings@.len(),
            ls == warnings@.map_values(
                |w: (String, String)| labelled("Warning"@, "("@ + w.0@ + " settings) "@ + w.1@),
            ),
            out@ == joined_lines(ls.take(i as int)),
        decreases warnings@.len() - i,
    {
        let mut v = chars_of("(");
        push_str_chars(&mut v, warnings[i].0.as_str());
        push_str_chars(&mut v, " settings) ");
        push_str_chars(&mut v, warnings[i].1.as_str());
        let m = string_from_chars(&v);
        push_labelled(&mut out, "Warning", m.as_str());
        assert(ls.take(i + 1).drop_last() =~= ls.take(i as int));
        i = i + 1;
    }
    assert(ls.take(ls.len() as int) =~= ls);
    out
}

/// The hint listing the API key variables.
pub open spec fn no_models_env_hint() -> Seq<char> {
    "  ANTHROPIC_API_KEY, OPENAI_API_KEY, GEMINI_API_KEY, etc."@
}

/// What is printed when no model can be used, naming the models file when
/// there is one.
pub open spec fn no_models_text(models_json_path: Option<Seq<char>>) -> Seq<char> {
    let base = seq![
        "No models available."@,
        seq![],
        "Set an API key environment variable:"@,
        no_models_env_hint(),
    ];
    joined_lines(
        match models_json_path {
            Some(p) => base + seq![seq![], "Or create "@ + p],
            None => base,
        },
    )
}

/// Builds `no_models_text` (the path as the platform displays it).
pub fn render_no_models_message(models_json_path: Option<&str>) -> (r: String)
    ensures
        r@ == no_models_text(
            match models_json_path {
                Some(p) => Some(p@),
                None => None,
            },
        ),
{
    let mut out = String::new();
    proof {
        reveal_strlit("");
    }
    push_line(&mut out, "No models available.");
    push_line(&mut out, "");
    push_line(&mut out, "Set an API key environment variable:");
    push_line(&mut out, "  ANTHROPIC_API_KEY, OPENAI_API_KEY, GEMINI_API_KEY, etc.");
    let ghost base = seq![
        "No models available."@,
        seq![],
        "Set an API key environment variable:"@,
        no_models_env_hint(),
    ];
    assert(base.drop_last().drop_last().drop_last().drop_last() =~= seq![]);
    assert(base.drop_last().drop_last().drop_last() =~= seq!["No models available."@]);
    assert(base.drop_last().drop_last() =~= seq!["No models available."@, seq![]]);
    assert(base.drop_last() =~= seq!["No models available."@, seq![], "Set an API key environment variable:"@]);
    proof {
        reveal_with_fuel(joined_lines, 5);
    }
    assert(out@ =~= joined_lines(base));
    if let Some(p) = models_json_path {
        push_line(&mut out, "");
        let mut v = chars_of("Or create ");
        push_str_chars(&mut v, p);
        let line = string_from_chars(&v);
        push_line(&mut out, line.as_str());
        let ghost full = base + seq![seq![], "Or create "@ + p@];
        assert(full.drop_last().drop_last() =~= base);
        assert(full.drop_last() =~= base.push(seq![]));
        proof {
            reveal_with_fuel(joined_lines, 3);
        }
        assert(out@ =~= joined_lines(full));
    }
    out
}

/// Flags the parser accepts but this command line cannot honour: none.
pub fn unsupported_flag_message(parsed: &Args) -> (r: Option<String>)
    ensures
        r is None,
{
    None
}

/// What is printed for a mode that is not available.
pub open spec fn unsupported_mode_text(mode: AppMode) -> Seq<char> {
    match mode {
        AppMode::Interactive => "Interactive mode is not supported in the Rust CLI yet"@,
        AppMode::Rpc => "RPC mode is not supported in the Rust CLI yet"@,
        AppMode::Print | AppMode::Json => seq![],
    }
}

/// Builds `unsupported_mode_text`.
pub fn unsupported_app_mode_message(app_mode: AppMode) -> (r: String)
    ensures
        r@ == unsupported_mode_text(app_mode),
{
    proof {
        reveal_strlit("");
    }
    match app_mode {
        AppMode::Interactive => owned("Interactive mode is not supported in the Rust CLI yet"),
        AppMode::Rpc => owned("RPC mode is not supported in the Rust CLI yet"),
        AppMode::Print | AppMode::Json => String::new(),
    }
}

/// The lines of the help text.
pub open spec fn help_lines() -> Seq<Seq<char>> {
    seq![
        "pi Rust CLI migration"@,
        seq![],
        "Supported today:"@,
        "  - non-interactive text mode (-p / piped stdin)"@,
        "  - non-interactive json mode (--mode json)"@,
        "  - rpc mode (--mode rpc)"@,
        "  - interactive mode"@,
        "  - --provider, --model, --models, --api-key, --system-prompt, --append-system-prompt, --thinking, --transport"@,
        "  - --continue, --resume, --session, --fork, --no-session, --session-dir"@,
        "  - --list-models [search]"@,
        "  - --export <session.jsonl> [out.html]"@,
        "  - --extension/-e, --no-extensions (RPC extension commands/resources/UI bridge)"@,
        "  - --skill, --no-skills, --prompt-template, --no-prompt-templates"@,
        "  - --theme, --no-themes"@,
        "  - @file text/image preprocessing"@,
        seq![],
        "RPC mode limitations:"@,
        "  - @file arguments are rejected"@,
    ]
}

/// Lines joined with newlines between them (none after the last).
pub open spec fn lines_joined(lines: Seq<Seq<char>>) -> Seq<char>
    decreases lines.len(),
{
    if lines.len() == 0 {
        seq![]
    } else if lines.len() == 1 {
        lines[0]
    } else {
        lines_joined(lines.drop_last()) + seq!['\n'] + lines.last()
    }
}

/// The help text.
pub fn render_help() -> (r: String)
    ensures
        r@ == lines_joined(help_lines()),
{
    let lines: [&str; 18] = [
        "pi Rust CLI migration",
        "",
        "Supported today:",
        "  - non-interactive text mode (-p / piped stdin)",
        "  - non-interactive json mode (--mode json)",
        "  - rpc mode (--mode rpc)",
        "  - interactive mode",
        "  - --provider, --model, --models, --api-key, --system-prompt, --append-system-prompt, --thinking, --transport",
        "  - --continue, --resume, --session, --fork, --no-session, --session-dir",
        "  - --list-models [search]",
        "  - --export <session.jsonl> [out.html]",
        "  - --extension/-e, --no-extensions (RPC extension commands/resources/UI bridge)",
        "  - --skill, --no-skills, --prompt-template, --no-prompt-templates",
        "  - --theme, --no-themes",
        "  - @file text/image preprocessing",
        "",
        "RPC mode limitations:",
        "  - @file arguments are rejected",
    ];
    proof {
        reveal_strlit("");
    }
    let ghost hl = help_lines();
    assert(forall|k: int| 0 <= k < 18 ==> (#[trigger] lines@[k])@ == hl[k]);
    let mut v = chars_of(lines[0]);
    let mut i: usize = 1;
    assert(hl.take(1).drop_last() =~= seq![]);
    while i < 18
        invariant
            1 <= i <= 18,
            hl == help_lines(),
            forall|k: int| 0 <= k < 18 ==> (#[trigger] lines@[k])@ == hl[k],
            v@ == lines_joined(hl.take(i as int)),
        decreases 18 - i,
    {
        v.push('\n');
        push_str_chars(&mut v, lines[i]);
        assert(hl.take(i + 1).drop_last() =~= hl.take(i as int));
        i = i + 1;
    }
    assert(hl.take(18) =~= hl);
    string_from_chars(&v)
}

/// The marker that starts a system prompt which must be used as it is.
pub open spec fn finalized_prefix() -> Seq<char> {
    seq!['\0'] + "pi-final-system-prompt"@ + seq!['\n']
}

/// Marks `prompt` as final: resources and flags are not applied to it again.
pub fn finalize_system_prompt(prompt: &str) -> (r: String)
    ensures
        r@ == finalized_prefix() + prompt@,
{
    let mut v: Vec<char> = Vec::new();
    v.push('\0');
    push_str_chars(&mut v, "pi-final-system-prompt");
    v.push('\n');
    push_str_chars(&mut v, prompt);
    string_from_chars(&v)
}

/// Piped input as a message: nothing when stdin is a terminal or the input
/// is blank, otherwise the input trimmed.
pub open spec fn normalized_stdin(stdin_is_tty: bool, content: Option<Seq<char>>) -> Option<Seq<char>> {
    if stdin_is_tty {
        None
    } else {
        match content {
            Some(c) => if trim_seq(c).len() == 0 {
                None
            } else {
                Some(trim_seq(c))
            },
            None => None,
        }
    }
}

/// Normalizing piped input twice gives what normalizing it once gives.
pub proof fn lemma_normalized_stdin_idempotent(content: Option<Seq<char>>)
    ensures
        normalized_stdin(false, normalized_stdin(false, content)) == normalized_stdin(false, content),
{
    if let Some(c) = content {
        crate::text::lemma_trim_idempotent(c);
    }
}

/// Computes `normalized_stdin`.
pub fn normalize_stdin_content(stdin_is_tty: bool, stdin_content: Option<String>) -> (r: Option<String>)
    ensures
        crate::slash::opt_view(r) == normalized_stdin(stdin_is_tty, crate::slash::opt_view(stdin_content)),
{
    if stdin_is_tty {
        return None;
    }
    match stdin_content {
        Some(c) => {
            let cc = chars_of(c.as_str());
            let t = trim_chars(&cc);
            if t.len() == 0 {
                None
            } else {
                Some(string_from_chars(&t))
            }
        },
        None => None,
    }
}

/// What a finished command run reports.
#[derive(Clone, Debug, PartialEq, Eq)]
pub struct RunCommandResult {
    pub exit_code: i32,
    pub stdout: String,
    pub stderr: String,
}

/// The system prompt a run uses: a finalized prompt as it is; otherwise
/// the override (or the default) with the appended text after a blank line
/// when both are non-empty. `override_prompt` and `append` are the texts
/// of `--system-prompt` and `--append-system-prompt` after reading the
/// files they may name.
pub open spec fn resolved_system_prompt(
    default: Seq<char>,
    override_prompt: Option<Seq<char>>,
    append: Option<Seq<char>>,
) -> Seq<char> {
    if has_prefix(default, finalized_prefix()) {
        default.skip(finalized_prefix().len() as int)
    } else {
        let base = match override_prompt {
            Some(o) => o,
            None => default,
        };
        match append {
            Some(a) => if base.len() > 0 && a.len() > 0 {
                base + "\n\n"@ + a
            } else {
                base + a
            },
            None => base,
        }
    }
}

/// Computes `resolved_system_prompt`.
pub fn resolve_system_prompt(default: &str, override_prompt: Option<&str>, append: Option<&str>) -> (r: String)
    ensures
        r@ == resolved_system_prompt(
            default@,
            match override_prompt {
                Some(o) => Some(o@),
                None => None,
            },
            match append {
                Some(a) => Some(a@),
                None => None,
            },
        ),
{
    let d = chars_of(default);
    let mut prefix: Vec<char> = Vec::new();
    prefix.push('\0');
    push_str_chars(&mut prefix, "pi-final-system-prompt");
    prefix.push('\n');
    assert(prefix@ =~= finalized_prefix());
    let ps = string_from_chars(&prefix);
    if crate::text::starts_with_chars(&d, ps.as_str()) {
        let rest = crate::text::chars_from(&d, prefix.len());
        return string_from_chars(&rest);
    }
    let mut v = match override_prompt {
        Some(o) => chars_of(o),
        None => d,
    };
    if let Some(a) = append {
        let ac = chars_of(a);
        if v.len() > 0 && ac.len() > 0 {
            push_str_chars(&mut v, "\n\n");
        }
        crate::text::extend_chars(&mut v, &ac);
    }
    string_from_chars(&v)
}

/// A finalized prompt is used as it is, whatever the flags say.
pub proof fn lemma_finalized_prompt_is_kept(prompt: Seq<char>, override_prompt: Option<Seq<char>>, append: Option<Seq<char>>)
    ensures
        resolved_system_prompt(finalized_prefix() + prompt, override_prompt, append) == prompt,
{
    let f = finalized_prefix() + prompt;
    assert(f.take(finalized_prefix().len() as int) =~= finalized_prefix());
    assert(f.skip(finalized_prefix().len() as int) =~= prompt);
}


/// The first prompt of a run and the images that go with it.
pub struct InitialMessage<I> {
    pub initial_message: Option<String>,
    pub initial_images: Option<Vec<I>>,
}

/// The pieces of the first prompt, in order: what came on stdin, the text
/// of the `@file` arguments, and the first message of the command line.
pub open spec fn initial_parts(messages: Seq<Seq<char>>, file_text: Option<Seq<char>>, stdin: Option<Seq<char>>) -> Seq<
    Seq<char>,
> {
    (match stdin {
        Some(t) => seq![t],
        None => seq![],
    }) + (match file_text {
        Some(t) => seq![t],
        None => seq![],
    }) + (if messages.len() > 0 {
        seq![messages[0]]
    } else {
        seq![]
    })
}

/// The pieces run together.
pub open spec fn concatenated(parts: Seq<Seq<char>>) -> Seq<char>
    decreases parts.len(),
{
    if parts.len() == 0 {
        seq![]
    } else {
        concatenated(parts.drop_last()) + parts.last()
    }
}

/// Builds the first prompt: stdin, the files' text and the first message
/// run together (none where there is none of them), which leaves the
/// command line's messages; the files' images go with it where there are
/// any.
pub fn build_initial_message<I>(
    messages: &mut Vec<String>,
    file_text: Option<String>,
    file_images: Vec<I>,
    stdin_content: Option<String>,
) -> (r: InitialMessage<I>)
    ensures
        ({
            let parts = initial_parts(
                crate::listnav::views(old(messages)@),
                crate::slash::opt_view(file_text),
                crate::slash::opt_view(stdin_content),
            );
            &&& match r.initial_message {
                Some(m) => parts.len() > 0 && m@ == concatenated(parts),
                None => parts.len() == 0,
            }
        }),
        old(messages)@.len() > 0 ==> final(messages)@ == old(messages)@.drop_first(),
        old(messages)@.len() == 0 ==> final(messages)@ == old(messages)@,
        match r.initial_images {
            Some(images) => file_images@.len() > 0 && images@ == file_images@,
            None => file_images@.len() == 0,
        },
{
    let ghost ms = crate::listnav::views(messages@);
    let ghost parts = initial_parts(ms, crate::slash::opt_view(file_text), crate::slash::opt_view(stdin_content));
    let mut text: Vec<char> = Vec::new();
    let mut count: usize = 0;
    let ghost mut done: Seq<Seq<char>> = seq![];
    if let Some(s) = &stdin_content {
        push_str_chars(&mut text, s.as_str());
        count = count + 1;
        proof {
            done = done.push(s@);
            assert(done.drop_last() =~= seq![]);
            assert(concatenated(done) == concatenated(done.drop_last()) + s@);
            assert(concatenated(seq![]) == Seq::<char>::empty());
            assert(text@ =~= concatenated(done));
        }
    }
    assert(text@ == concatenated(done));
    if let Some(f) = &file_text {
        push_str_chars(&mut text, f.as_str());
        count = count + 1;
        proof {
            let before = done;
            done = done.push(f@);
            assert(done.drop_last() =~= before);
        }
    }
    assert(text@ == concatenated(done));
    if messages.len() > 0 {
        let first = messages.remove(0);
        push_str_chars(&mut text, first.as_str());
        count = count + 1;
        proof {
            let before = done;
            done = done.push(first@);
            assert(done.drop_last() =~= before);
        }
    }
    assert(done =~= parts);
    assert(count == parts.len());
    let initial_message = if count > 0 {
        Some(string_from_chars(&text))
    } else {
        None
    };
    let initial_images = if file_images.len() > 0 {
        Some(file_images)
    } else {
        None
    };
    InitialMessage { initial_message, initial_images }
}


/// A part of a user message.
pub enum UserPart<I> {
    Text(String),
    Image(I),
}

/// The parts of the first user message: the prompt's text, then the images.
pub open spec fn initial_user_parts<I>(text: Option<String>, images: Option<Vec<I>>) -> Seq<UserPart<I>> {
    text_parts(text) + image_parts(images)
}

/// The text part, where there is text.
pub open spec fn text_parts<I>(text: Option<String>) -> Seq<UserPart<I>> {
    match text {
        Some(t) => seq![UserPart::Text(t)],
        None => seq![],
    }
}

/// One part per image.
pub open spec fn image_parts<I>(images: Option<Vec<I>>) -> Seq<UserPart<I>> {
    match images {
        Some(v) => v@.map_values(|i: I| UserPart::Image(i)),
        None => seq![],
    }
}

/// The first user message of a run (see `initial_user_parts`); none where
/// it would have no part.
pub fn build_initial_user_message<I>(initial: InitialMessage<I>) -> (r: Option<Vec<UserPart<I>>>)
    ensures
        match r {
            Some(parts) => parts@.len() > 0 && parts@ == initial_user_parts(
                initial.initial_message,
                initial.initial_images,
            ),
            None => initial_user_parts(initial.initial_message, initial.initial_images).len() == 0,
        },
{
    let ghost expected = initial_user_parts(initial.initial_message, initial.initial_images);
    let mut parts: Vec<UserPart<I>> = Vec::new();
    let ghost text_part = text_parts::<I>(initial.initial_message);
    if let Some(t) = initial.initial_message {
        parts.push(UserPart::Text(t));
    }
    assert(parts@ =~= text_part);
    if let Some(images) = initial.initial_images {
        let ghost all = images@;
        let ghost base = parts@;
        let mut rest = images;
        let n = rest.len();
        let mut k: usize = 0;
        while rest.len() > 0
            invariant
                all.len() == n,
                k <= all.len(),
                rest@ == all.subrange(k as int, all.len() as int),
                parts@ == base + all.subrange(0, k as int).map_values(|i: I| UserPart::Image(i)),
            decreases rest@.len(),
        {
            let x = rest.remove(0);
            assert(x == all[k as int]);
            parts.push(UserPart::Image(x));
            assert(all.subrange(0, k + 1).map_values(|i: I| UserPart::Image(i)) =~= all.subrange(0, k as int).map_values(
                |i: I| UserPart::Image(i),
            ).push(UserPart::Image(x)));
            assert(rest@ =~= all.subrange(k + 1, all.len() as int));
            k = k + 1;
        }
        assert(all.subrange(0, k as int) =~= all);
    }
    assert(parts@ =~= expected);
    if parts.len() > 0 {
        Some(parts)
    } else {
        None
    }
}

} // verus!
