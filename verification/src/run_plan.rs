//! What a command-line run does before any session starts: the answers
//! given from the arguments alone, and the step the front end takes next.
use vstd::prelude::*;
use crate::args::{app_mode_of, AppMode, Args, ArgsModel, DiagnosticKind, ListModels};
use crate::messages::{
    help_lines, joined_lines, kind_label, labelled, lines_joined, render_help, render_parse_diagnostics,
    unsupported_app_mode_message, unsupported_mode_text, RunCommandResult,
};
use crate::text::push_line;

verus! {

/// The step a run takes after the arguments are read.
pub enum RunPlan {
    /// The run is over with this result.
    Finish(RunCommandResult),
    /// Export the session file `session_path` (to `output_path` when given);
    /// report with `export_result`.
    ExportSession { session_path: String, output_path: Option<String>, stderr: String },
    /// List the models matching `search` (every model without one) on stdout.
    ListModels { search: Option<String>, stderr: String },
    /// Start a session in `mode`.
    Run { mode: AppMode, stderr: String },
}

/// The abstract value of a finished run.
pub open spec fn result_view(r: RunCommandResult) -> (i32, Seq<char>, Seq<char>) {
    (r.exit_code, r.stdout@, r.stderr@)
}

/// The abstract value of a plan.
pub enum RunPlanModel {
    Finish(i32, Seq<char>, Seq<char>),
    ExportSession(Seq<char>, Option<Seq<char>>, Seq<char>),
    ListModels(Option<Seq<char>>, Seq<char>),
    Run(AppMode, Seq<char>),
}

/// The abstract value of a plan.
pub open spec fn plan_view(p: RunPlan) -> RunPlanModel {
    match p {
        RunPlan::Finish(r) => RunPlanModel::Finish(r.exit_code, r.stdout@, r.stderr@),
        RunPlan::ExportSession { session_path, output_path, stderr } => RunPlanModel::ExportSession(
            session_path@,
            crate::slash::opt_view(output_path),
            stderr@,
        ),
        RunPlan::ListModels { search, stderr } => RunPlanModel::ListModels(crate::slash::opt_view(search), stderr@),
        RunPlan::Run { mode, stderr } => RunPlanModel::Run(mode, stderr@),
    }
}

/// The diagnostics as printed.
pub open spec fn diagnostics_text(m: ArgsModel) -> Seq<char> {
    joined_lines(m.diagnostics.map_values(|d: (DiagnosticKind, Seq<char>)| labelled(kind_label(d.0), d.1)))
}

/// Whether some diagnostic is an error.
pub open spec fn has_error(m: ArgsModel) -> bool {
    exists|k: int| 0 <= k < m.diagnostics.len() && #[trigger] m.diagnostics[k].0 == DiagnosticKind::Error
}

/// The plan for the arguments `m` (with `version` the program's version):
/// errors stop the run; then the version, the help, an export and a model
/// listing are answered in that order; interactive mode is refused here.
pub open spec fn run_plan_of(m: ArgsModel, version: Seq<char>, stdin_is_tty: bool) -> RunPlanModel {
    let err = diagnostics_text(m);
    if has_error(m) {
        RunPlanModel::Finish(1, seq![], err)
    } else if m.version {
        RunPlanModel::Finish(0, version + seq!['\n'], err)
    } else if m.help {
        RunPlanModel::Finish(0, lines_joined(help_lines()) + seq!['\n'], err)
    } else if m.export is Some {
        if m.file_args.len() > 0 {
            RunPlanModel::Finish(1, seq![], err + "--export does not accept @file arguments"@ + seq!['\n'])
        } else if m.messages.len() > 1 {
            RunPlanModel::Finish(
                1,
                seq![],
                err + "--export accepts at most one optional output path argument"@ + seq!['\n'],
            )
        } else {
            RunPlanModel::ExportSession(
                m.export->0,
                if m.messages.len() == 1 {
                    Some(m.messages[0])
                } else {
                    None
                },
                err,
            )
        }
    } else if m.list_models is Some {
        RunPlanModel::ListModels(
            match m.list_models {
                Some(crate::args::ListModelsModel::Search(s)) => Some(s),
                _ => None,
            },
            err,
        )
    } else if app_mode_of(m, stdin_is_tty) == AppMode::Interactive {
        RunPlanModel::Finish(1, seq![], err + unsupported_mode_text(AppMode::Interactive) + seq!['\n'])
    } else {
        RunPlanModel::Run(app_mode_of(m, stdin_is_tty), err)
    }
}

/// A model listing asked for with a pattern lists the models matching that
/// pattern, and one asked for without lists every model, once nothing that
/// comes first (an error, the version, the help, an export) answers the run.
pub proof fn lemma_list_models_plan(m: ArgsModel, version: Seq<char>, stdin_is_tty: bool)
    requires
        !has_error(m),
        !m.version,
        !m.help,
        m.export is None,
        m.list_models is Some,
    ensures
        run_plan_of(m, version, stdin_is_tty) matches RunPlanModel::ListModels(search, err) && err == diagnostics_text(m)
            && (m.list_models matches Some(crate::args::ListModelsModel::Search(s)) ==> search == Some(s))
            && (m.list_models == Some(crate::args::ListModelsModel::All) ==> search is None),
{
}

/// `--list-models <pattern>` alone on the command line lists the models
/// matching the pattern.
pub proof fn lemma_list_models_search_plan(s: Seq<char>, version: Seq<char>, stdin_is_tty: bool)
    requires
        s.len() == 0 || (s[0] != '-' && s[0] != '@'),
    ensures
        run_plan_of(crate::args::parsed_args(seq!["--list-models"@, s]), version, stdin_is_tty)
            matches RunPlanModel::ListModels(search, _) && search == Some(s),
{
    crate::args::lemma_list_models_search(s);
}

/// `--export <file> <output>` exports that session file to that output path;
/// without an output it exports to the default path; nothing is printed
/// first and nothing fails.
pub proof fn lemma_export_plan(file: Seq<char>, output: Seq<char>, version: Seq<char>, stdin_is_tty: bool)
    requires
        output.len() > 0,
        output[0] != '-' && output[0] != '@',
    ensures
        run_plan_of(crate::args::parsed_args(seq!["--export"@, file, output]), version, stdin_is_tty)
            == RunPlanModel::ExportSession(file, Some(output), seq![]),
        run_plan_of(crate::args::parsed_args(seq!["--export"@, file]), version, stdin_is_tty)
            == RunPlanModel::ExportSession(file, None, seq![]),
{
    reveal_strlit("--help");
    reveal_strlit("-h");
    reveal_strlit("--version");
    reveal_strlit("-v");
    reveal_strlit("--continue");
    reveal_strlit("-c");
    reveal_strlit("--resume");
    reveal_strlit("-r");
    reveal_strlit("--no-session");
    reveal_strlit("--no-tools");
    reveal_strlit("--print");
    reveal_strlit("-p");
    reveal_strlit("--no-extensions");
    reveal_strlit("--no-skills");
    reveal_strlit("--no-prompt-templates");
    reveal_strlit("--no-themes");
    reveal_strlit("--mode");
    reveal_strlit("--provider");
    reveal_strlit("--model");
    reveal_strlit("--api-key");
    reveal_strlit("--system-prompt");
    reveal_strlit("--append-system-prompt");
    reveal_strlit("--session");
    reveal_strlit("--fork");
    reveal_strlit("--session-dir");
    reveal_strlit("--models");
    reveal_strlit("--tools");
    reveal_strlit("--thinking");
    reveal_strlit("--export");
    reveal_strlit("--extension");
    reveal_strlit("-e");
    reveal_strlit("--skill");
    reveal_strlit("--prompt-template");
    reveal_strlit("--theme");
    reveal_strlit("--transport");
    reveal_strlit("-");
    reveal_strlit("@");
    reveal_strlit("--list-models");
    assert("--export"@[2] != "--resume"@[2]);
    assert("--export"@[2] != "--models"@[2]);
    crate::args::lemma_value_flags(file);
    let args = seq!["--export"@, file, output];
    let m1 = ArgsModel { export: Some(file), ..crate::args::empty_args() };
    assert(crate::args::parse_step(args, 0, crate::args::empty_args()) == (m1, 2nat));
    assert(args[2] == output);
    assert(output.take(1)[0] == output[0]);
    assert(!crate::text::has_prefix(output, "-"@) && !crate::text::has_prefix(output, "@"@));
    assert(crate::args::switch_of(output) is None);
    assert(output != "--list-models"@);
    reveal_strlit("--");
    assert(!crate::text::has_prefix(output, "--"@)) by {
        if output.len() >= 2 {
            assert(output.take(2)[0] == output[0]);
        }
    }
    assert(m1.messages.push(output) =~= seq![output]);
    assert(crate::args::parse_step(args, 2, m1) == (ArgsModel { messages: seq![output], ..m1 }, 3nat));
    reveal_with_fuel(crate::args::parse_from, 3);
    let m = crate::args::parsed_args(args);
    assert(m == ArgsModel { messages: seq![output], ..m1 });
    assert(!has_error(m));
    assert(m.diagnostics =~= Seq::<(DiagnosticKind, Seq<char>)>::empty());
    assert(diagnostics_text(m) =~= Seq::<char>::empty());
    let m2 = crate::args::parsed_args(seq!["--export"@, file]);
    assert(!has_error(m2));
    assert(diagnostics_text(m2) =~= Seq::<char>::empty());
}

/// Decides `run_plan_of`.
pub fn run_command_preflight(parsed: &Args, version: &str, stdin_is_tty: bool) -> (r: RunPlan)
    ensures
        plan_view(r) == run_plan_of(parsed@, version@, stdin_is_tty),
{
    let stderr = render_parse_diagnostics(&parsed.diagnostics);
    proof {
        reveal_strlit("");
        assert(parsed@.diagnostics.map_values(
            |d: (DiagnosticKind, Seq<char>)| labelled(kind_label(d.0), d.1),
        ) =~= parsed.diagnostics@.map_values(
            |d: crate::args::Diagnostic| labelled(kind_label(d.kind), d.message@),
        ));
    }
    assert(stderr@ == diagnostics_text(parsed@));
    let mut i: usize = 0;
    while i < parsed.diagnostics.len()
        invariant
            0 <= i <= parsed.diagnostics@.len(),
            stderr@ == diagnostics_text(parsed@),
            forall|k: int| 0 <= k < i ==> (#[trigger] parsed.diagnostics@[k]).kind != DiagnosticKind::Error,
        decreases parsed.diagnostics@.len() - i,
    {
        if matches!(parsed.diagnostics[i].kind, DiagnosticKind::Error) {
            assert(parsed@.diagnostics[i as int].0 == DiagnosticKind::Error);
            assert(has_error(parsed@));
            let stdout = String::new();
            assert(stdout@ =~= seq![]);
            return RunPlan::Finish(RunCommandResult { exit_code: 1, stdout, stderr });
        }
        i = i + 1;
    }
    assert(!has_error(parsed@)) by {
        assert forall|k: int| 0 <= k < parsed@.diagnostics.len() implies parsed@.diagnostics[k].0
            != DiagnosticKind::Error by {
            assert(parsed@.diagnostics[k].0 == parsed.diagnostics@[k].kind);
        }
    }
    if parsed.version {
        let mut stdout = String::new();
        push_line(&mut stdout, version);
        return RunPlan::Finish(RunCommandResult { exit_code: 0, stdout, stderr });
    }
    if parsed.help {
        let mut stdout = String::new();
        let help = render_help();
        push_line(&mut stdout, help.as_str());
        return RunPlan::Finish(RunCommandResult { exit_code: 0, stdout, stderr });
    }
    if let Some(export_path) = &parsed.export {
        let mut stderr = stderr;
        if parsed.file_args.len() > 0 {
            push_line(&mut stderr, "--export does not accept @file arguments");
            return RunPlan::Finish(RunCommandResult { exit_code: 1, stdout: String::new(), stderr });
        }
        if parsed.messages.len() > 1 {
            push_line(&mut stderr, "--export accepts at most one optional output path argument");
            return RunPlan::Finish(RunCommandResult { exit_code: 1, stdout: String::new(), stderr });
        }
        let output_path = if parsed.messages.len() == 1 {
            Some(parsed.messages[0].clone())
        } else {
            None
        };
        return RunPlan::ExportSession { session_path: export_path.clone(), output_path, stderr };
    }
    if let Some(list) = &parsed.list_models {
        let search = match list {
            ListModels::All => None,
            ListModels::Search(s) => Some(s.clone()),
        };
        return RunPlan::ListModels { search, stderr };
    }
    let mode = crate::args::resolve_app_mode(parsed, stdin_is_tty);
    if matches!(mode, AppMode::Interactive) {
        let mut stderr = stderr;
        let message = unsupported_app_mode_message(mode);
        push_line(&mut stderr, message.as_str());
        return RunPlan::Finish(RunCommandResult { exit_code: 1, stdout: String::new(), stderr });
    }
    RunPlan::Run { mode, stderr }
}

/// How an export ends: the written path on stdout, or the error.
pub open spec fn export_result_of(result: Result<Seq<char>, Seq<char>>, stderr: Seq<char>) -> (
    i32,
    Seq<char>,
    Seq<char>,
) {
    match result {
        Ok(path) => (0, path + seq!['\n'], stderr),
        Err(e) => (1, seq![], stderr + "Error: "@ + e + seq!['\n']),
    }
}

/// Builds `export_result_of`.
pub fn export_result(result: Result<String, String>, stderr: String) -> (r: RunCommandResult)
    ensures
        result_view(r) == export_result_of(
            match result {
                Ok(p) => Ok(p@),
                Err(e) => Err(e@),
            },
            stderr@,
        ),
{
    proof {
        reveal_strlit("");
    }
    match result {
        Ok(path) => {
            let mut stdout = String::new();
            push_line(&mut stdout, path.as_str());
            RunCommandResult { exit_code: 0, stdout, stderr }
        },
        Err(e) => {
            let mut stderr = stderr;
            let mut v = crate::text::chars_of("Error: ");
            crate::text::push_str_chars(&mut v, e.as_str());
            let line = crate::text::string_from_chars(&v);
            push_line(&mut stderr, line.as_str());
            RunCommandResult { exit_code: 1, stdout: String::new(), stderr }
        },
    }
}

/// How an interactive run begins.
#[derive(Clone, Copy, Debug, PartialEq, Eq)]
pub enum InteractiveEntry {
    /// The arguments have errors: exit with status 1.
    Failed,
    /// Nothing interactive was asked for: the plain run answers.
    Delegate,
    /// Start the interactive session, first with the resume picker when
    /// `show_resume_picker`.
    Interactive { show_resume_picker: bool },
}

/// How an interactive run begins for the arguments `m`.
pub open spec fn interactive_entry_of(m: ArgsModel, stdin_is_tty: bool) -> InteractiveEntry {
    if has_error(m) {
        InteractiveEntry::Failed
    } else if m.help || m.version || m.export is Some || m.list_models is Some {
        InteractiveEntry::Delegate
    } else if app_mode_of(m, stdin_is_tty) != AppMode::Interactive {
        InteractiveEntry::Delegate
    } else {
        InteractiveEntry::Interactive {
            show_resume_picker: m.resume && !m.no_session && m.session is None && m.fork is None && !m.continue_session,
        }
    }
}

/// Decides `interactive_entry_of`.
pub fn interactive_entry(parsed: &Args, stdin_is_tty: bool) -> (r: InteractiveEntry)
    ensures
        r == interactive_entry_of(parsed@, stdin_is_tty),
{
    let mut i: usize = 0;
    while i < parsed.diagnostics.len()
        invariant
            0 <= i <= parsed.diagnostics@.len(),
            forall|k: int| 0 <= k < i ==> (#[trigger] parsed.diagnostics@[k]).kind != DiagnosticKind::Error,
        decreases parsed.diagnostics@.len() - i,
    {
        if matches!(parsed.diagnostics[i].kind, DiagnosticKind::Error) {
            assert(parsed@.diagnostics[i as int].0 == DiagnosticKind::Error);
            return InteractiveEntry::Failed;
        }
        i = i + 1;
    }
    assert(!has_error(parsed@)) by {
        assert forall|k: int| 0 <= k < parsed@.diagnostics.len() implies parsed@.diagnostics[k].0
            != DiagnosticKind::Error by {
            assert(parsed@.diagnostics[k].0 == parsed.diagnostics@[k].kind);
        }
    }
    if parsed.help || parsed.version || parsed.export.is_some() || parsed.list_models.is_some() {
        return InteractiveEntry::Delegate;
    }
    if !matches!(crate::args::resolve_app_mode(parsed, stdin_is_tty), AppMode::Interactive) {
        return InteractiveEntry::Delegate;
    }
    InteractiveEntry::Interactive {
        show_resume_picker: parsed.resume && !parsed.no_session && parsed.session.is_none() && parsed.fork.is_none()
            && !parsed.continue_session,
    }
}

/// Whether a plain run starts with the resume picker.
pub fn shows_resume_picker(parsed: &Args) -> (r: bool)
    ensures
        r == (parsed@.resume && !parsed@.no_session && parsed@.session is None && parsed@.fork is None),
{
    parsed.resume && !parsed.no_session && parsed.session.is_none() && parsed.fork.is_none()
}

/// Where the session of a run comes from, over strings `S`.
pub enum SessionSourceOf<S> {
    /// No session file is kept.
    Unmanaged,
    /// Open the session stored at this path.
    Open(S),
    /// Start a new session forked from the one stored at this path.
    Fork(S),
    /// Keep the session in memory only.
    InMemory,
    /// Continue the most recent session of the folder.
    ContinueRecent,
    /// Start a new stored session.
    Create,
}

/// A session source.
pub type SessionSource = SessionSourceOf<String>;

/// The abstract value of a session source.
pub open spec fn source_view(s: SessionSource) -> SessionSourceOf<Seq<char>> {
    match s {
        SessionSourceOf::Unmanaged => SessionSourceOf::Unmanaged,
        SessionSourceOf::Open(p) => SessionSourceOf::Open(p@),
        SessionSourceOf::Fork(p) => SessionSourceOf::Fork(p@),
        SessionSourceOf::InMemory => SessionSourceOf::InMemory,
        SessionSourceOf::ContinueRecent => SessionSourceOf::ContinueRecent,
        SessionSourceOf::Create => SessionSourceOf::Create,
    }
}

/// Where the session comes from: nothing is kept unless a session flag, a
/// chosen session to resume or an agent directory asks for it; then
/// `--session`, `--fork`, the resumed session, `--no-session`,
/// `--continue` decide in that order, and a new session is created otherwise.
pub open spec fn session_source_of(
    m: ArgsModel,
    cwd: Seq<char>,
    has_agent_dir: bool,
    resume_path: Option<Seq<char>>,
) -> SessionSourceOf<Seq<char>> {
    if !(m.no_session || m.continue_session || m.session is Some || m.fork is Some || m.session_dir is Some
        || resume_path is Some || has_agent_dir) {
        SessionSourceOf::Unmanaged
    } else if m.session is Some {
        SessionSourceOf::Open(crate::paths::joined_path(cwd, m.session->0))
    } else if m.fork is Some {
        SessionSourceOf::Fork(crate::paths::joined_path(cwd, m.fork->0))
    } else if resume_path is Some {
        SessionSourceOf::Open(crate::paths::joined_path(cwd, resume_path->0))
    } else if m.no_session {
        SessionSourceOf::InMemory
    } else if m.continue_session {
        SessionSourceOf::ContinueRecent
    } else {
        SessionSourceOf::Create
    }
}

/// Decides `session_source_of`.
pub fn session_source(parsed: &Args, cwd: &str, has_agent_dir: bool, resume_path: Option<&str>) -> (r: SessionSource)
    ensures
        source_view(r) == session_source_of(
            parsed@,
            cwd@,
            has_agent_dir,
            match resume_path {
                Some(p) => Some(p@),
                None => None,
            },
        ),
{
    if !(parsed.no_session || parsed.continue_session || parsed.session.is_some() || parsed.fork.is_some()
        || parsed.session_dir.is_some() || resume_path.is_some() || has_agent_dir) {
        return SessionSourceOf::Unmanaged;
    }
    if let Some(s) = &parsed.session {
        return SessionSourceOf::Open(crate::paths::resolve_session_path(cwd, s.as_str()));
    }
    if let Some(f) = &parsed.fork {
        return SessionSourceOf::Fork(crate::paths::resolve_session_path(cwd, f.as_str()));
    }
    if let Some(r) = resume_path {
        return SessionSourceOf::Open(crate::paths::resolve_session_path(cwd, r));
    }
    if parsed.no_session {
        SessionSourceOf::InMemory
    } else if parsed.continue_session {
        SessionSourceOf::ContinueRecent
    } else {
        SessionSourceOf::Create
    }
}

/// The session directory `--session-dir` names, resolved against `cwd`
/// (without it the agent directory's default applies).
pub fn session_dir_override(parsed: &Args, cwd: &str) -> (r: Option<String>)
    ensures
        crate::slash::opt_view(r) == match parsed@.session_dir {
            Some(d) => Some(crate::paths::joined_path(cwd@, d)),
            None => None,
        },
{
    match &parsed.session_dir {
        Some(d) => Some(crate::paths::resolve_path_from_cwd(cwd, d.as_str())),
        None => None,
    }
}


/// The error when `--api-key` cannot tell which provider it is for.
pub open spec fn api_key_requirement() -> Seq<char> {
    "--api-key requires a model to be specified via --model, --provider/--model, or --models"@
}

/// The provider that `--api-key` is for: none without the flag; without
/// `--model`, the provider of the first scoped model; with it, the
/// provider of the model it resolves to, else the one `--provider` names;
/// an error where none of these is known.
pub open spec fn api_key_provider_of(
    a: ArgsModel,
    first_scoped_provider: Option<Seq<char>>,
    resolved_model_provider: Option<Seq<char>>,
) -> Result<Option<Seq<char>>, Seq<char>> {
    if a.api_key is None {
        Ok(None)
    } else if a.model is None {
        match first_scoped_provider {
            Some(p) => Ok(Some(p)),
            None => Err(api_key_requirement()),
        }
    } else {
        match resolved_model_provider {
            Some(p) => Ok(Some(p)),
            None => match a.provider {
                Some(p) => Ok(Some(p)),
                None => Err(api_key_requirement()),
            },
        }
    }
}

/// Decides which provider `--api-key` is for (see `api_key_provider_of`);
/// `resolved_model_provider` is the provider of the model `--provider` and
/// `--model` resolve to in the catalogue, where they resolve to one.
pub fn api_key_provider(
    parsed: &Args,
    first_scoped_provider: Option<&str>,
    resolved_model_provider: Option<&str>,
) -> (r: Result<Option<String>, String>)
    ensures
        match r {
            Ok(p) => api_key_provider_of(
                parsed@,
                crate::session_stats::opt_view(first_scoped_provider),
                crate::session_stats::opt_view(resolved_model_provider),
            ) == Ok::<Option<Seq<char>>, Seq<char>>(crate::slash::opt_view(p)),
            Err(e) => api_key_provider_of(
                parsed@,
                crate::session_stats::opt_view(first_scoped_provider),
                crate::session_stats::opt_view(resolved_model_provider),
            ) == Err::<Option<Seq<char>>, Seq<char>>(e@),
        },
{
    if parsed.api_key.is_none() {
        return Ok(None);
    }
    let requirement = crate::text::owned(
        "--api-key requires a model to be specified via --model, --provider/--model, or --models",
    );
    if parsed.model.is_none() {
        return match first_scoped_provider {
            Some(p) => Ok(Some(crate::text::owned(p))),
            None => Err(requirement),
        };
    }
    match resolved_model_provider {
        Some(p) => Ok(Some(crate::text::owned(p))),
        None => match &parsed.provider {
            Some(p) => Ok(Some(crate::text::owned(p.as_str()))),
            None => Err(requirement),
        },
    }
}


/// What RPC mode answers to `@file` arguments, which it does not take:
/// the error it prints before it reads any command.
pub open spec fn rpc_file_args_refusal_of(a: ArgsModel) -> Option<Seq<char>> {
    if a.file_args.len() > 0 {
        Some("Error: @file arguments are not supported in RPC mode\n"@)
    } else {
        None
    }
}

/// Decides `rpc_file_args_refusal_of`; an RPC run that gets it ends with
/// status 1.
pub fn rpc_file_args_refusal(parsed: &Args) -> (r: Option<String>)
    ensures
        crate::slash::opt_view(r) == rpc_file_args_refusal_of(parsed@),
{
    if parsed.file_args.len() > 0 {
        Some(crate::text::owned("Error: @file arguments are not supported in RPC mode\n"))
    } else {
        None
    }
}

/// How an RPC run with `@file` arguments ends, before it reads any
/// command: status 1, nothing on stdout, the refusal on stderr. Runs
/// without them go on.
pub open spec fn rpc_file_args_end_of(a: ArgsModel) -> Option<(i32, Seq<char>, Seq<char>)> {
    match rpc_file_args_refusal_of(a) {
        Some(message) => Some((1, seq![], message)),
        None => None,
    }
}

/// Builds `rpc_file_args_end_of`.
pub fn rpc_file_args_end(parsed: &Args) -> (r: Option<RunCommandResult>)
    ensures
        match r {
            Some(res) => rpc_file_args_end_of(parsed@) == Some(result_view(res)),
            None => rpc_file_args_end_of(parsed@) is None,
        },
{
    match rpc_file_args_refusal(parsed) {
        Some(stderr) => Some(RunCommandResult { exit_code: 1, stdout: String::new(), stderr }),
        None => None,
    }
}

/// How preparing the session of a run came out.
pub enum SessionPreparation {
    /// The session is ready; the run goes on.
    Ready,
    /// The resume picker was closed without a choice.
    Cancelled,
    /// Preparing failed with this error.
    Failed(String),
}

/// How a run ends when its session could not be prepared: a closed resume
/// picker ends it quietly with "No session selected", an error ends it with
/// status 1; a ready session does not end it.
pub open spec fn preparation_end_of(p: SessionPreparation, stdout: Seq<char>, stderr: Seq<char>) -> Option<
    (i32, Seq<char>, Seq<char>),
> {
    match p {
        SessionPreparation::Ready => None,
        SessionPreparation::Cancelled => Some((0, stdout + "No session selected"@ + seq!['\n'], stderr)),
        SessionPreparation::Failed(e) => Some((1, stdout, stderr + "Error: "@ + e@ + seq!['\n'])),
    }
}

/// Builds `preparation_end_of` from what the run printed so far.
pub fn session_preparation_end(p: &SessionPreparation, stdout: String, stderr: String) -> (r: Option<RunCommandResult>)
    ensures
        match r {
            Some(res) => preparation_end_of(*p, stdout@, stderr@) == Some(result_view(res)),
            None => preparation_end_of(*p, stdout@, stderr@) is None,
        },
{
    match p {
        SessionPreparation::Ready => None,
        SessionPreparation::Cancelled => {
            let mut stdout = stdout;
            push_line(&mut stdout, "No session selected");
            Some(RunCommandResult { exit_code: 0, stdout, stderr })
        },
        SessionPreparation::Failed(e) => {
            let mut stderr = stderr;
            let mut v = crate::text::chars_of("Error: ");
            crate::text::push_str_chars(&mut v, e.as_str());
            let line = crate::text::string_from_chars(&v);
            push_line(&mut stderr, line.as_str());
            Some(RunCommandResult { exit_code: 1, stdout, stderr })
        },
    }
}

} // verus!
