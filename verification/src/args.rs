//! Command-line arguments: the parser and the decisions taken on its result.
use vstd::prelude::*;
use crate::listnav::views;
use crate::text::{chars_eq_str, chars_of, chars_from, has_prefix, starts_with_chars, string_from_chars, trim_chars, trim_seq};

verus! {

/// How much the model reasons before answering.
#[derive(Clone, Copy, Debug, PartialEq, Eq, Structural)]
pub enum ThinkingLevel {
    Off,
    Minimal,
    Low,
    Medium,
    High,
    XHigh,
}

/// The output mode named by `--mode`.
#[derive(Clone, Copy, Debug, PartialEq, Eq)]
pub enum Mode {
    Text,
    Json,
    Rpc,
}

/// Severity of a parse diagnostic.
#[derive(Clone, Copy, Debug, PartialEq, Eq)]
pub enum DiagnosticKind {
    Warning,
    Error,
}

/// A message about the arguments, reported before anything runs.
#[derive(Clone, Debug, PartialEq, Eq)]
pub struct Diagnostic {
    pub kind: DiagnosticKind,
    pub message: String,
}

/// The built-in tools `--tools` can select.
#[derive(Clone, Copy, Debug, PartialEq, Eq)]
pub enum ToolName {
    Read,
    Bash,
    Edit,
    Write,
    Grep,
    Find,
    Ls,
}

/// What `--list-models` asks for.
#[derive(Clone, Debug, PartialEq, Eq)]
pub enum ListModels {
    All,
    Search(String),
}

/// The value of a long flag the parser does not know (kept for extensions).
#[derive(Clone, Debug, PartialEq, Eq)]
pub enum UnknownFlagValue {
    Bool(bool),
    String(String),
}

/// How the program runs once the arguments are parsed.
#[derive(Clone, Copy, Debug, PartialEq, Eq)]
pub enum AppMode {
    Interactive,
    Print,
    Json,
    Rpc,
}

/// The output format of print mode.
#[derive(Clone, Copy, Debug, PartialEq, Eq)]
pub enum PrintOutputMode {
    Text,
    Json,
}

/// The parsed command line.
#[derive(Clone, Debug)]
pub struct Args {
    pub help: bool,
    pub version: bool,
    pub print: bool,
    pub continue_session: bool,
    pub resume: bool,
    pub no_session: bool,
    pub no_tools: bool,
    pub no_extensions: bool,
    pub no_skills: bool,
    pub no_prompt_templates: bool,
    pub no_themes: bool,
    pub mode: Option<Mode>,
    pub provider: Option<String>,
    pub model: Option<String>,
    pub api_key: Option<String>,
    pub system_prompt: Option<String>,
    pub append_system_prompt: Option<String>,
    pub session: Option<String>,
    pub fork: Option<String>,
    pub session_dir: Option<String>,
    pub export: Option<String>,
    pub transport: Option<String>,
    pub thinking: Option<ThinkingLevel>,
    pub models: Option<Vec<String>>,
    pub tools: Option<Vec<ToolName>>,
    pub extensions: Option<Vec<String>>,
    pub skills: Option<Vec<String>>,
    pub prompt_templates: Option<Vec<String>>,
    pub themes: Option<Vec<String>>,
    pub list_models: Option<ListModels>,
    pub file_args: Vec<String>,
    pub messages: Vec<String>,
    pub unknown_flags: Vec<(String, UnknownFlagValue)>,
    pub diagnostics: Vec<Diagnostic>,
}

/// The abstract value of an unknown flag.
pub enum FlagValueModel {
    Bool(bool),
    Str(Seq<char>),
}

/// The abstract value of `--list-models`.
pub enum ListModelsModel {
    All,
    Search(Seq<char>),
}

/// The abstract parsed command line.
#[verifier::ext_equal]
pub struct ArgsModel {
    pub help: bool,
    pub version: bool,
    pub print: bool,
    pub continue_session: bool,
    pub resume: bool,
    pub no_session: bool,
    pub no_tools: bool,
    pub no_extensions: bool,
    pub no_skills: bool,
    pub no_prompt_templates: bool,
    pub no_themes: bool,
    pub mode: Option<Mode>,
    pub provider: Option<Seq<char>>,
    pub model: Option<Seq<char>>,
    pub api_key: Option<Seq<char>>,
    pub system_prompt: Option<Seq<char>>,
    pub append_system_prompt: Option<Seq<char>>,
    pub session: Option<Seq<char>>,
    pub fork: Option<Seq<char>>,
    pub session_dir: Option<Seq<char>>,
    pub export: Option<Seq<char>>,
    pub transport: Option<Seq<char>>,
    pub thinking: Option<ThinkingLevel>,
    pub models: Option<Seq<Seq<char>>>,
    pub tools: Option<Seq<ToolName>>,
    pub extensions: Option<Seq<Seq<char>>>,
    pub skills: Option<Seq<Seq<char>>>,
    pub prompt_templates: Option<Seq<Seq<char>>>,
    pub themes: Option<Seq<Seq<char>>>,
    pub list_models: Option<ListModelsModel>,
    pub file_args: Seq<Seq<char>>,
    pub messages: Seq<Seq<char>>,
    pub unknown_flags: Seq<(Seq<char>, FlagValueModel)>,
    pub diagnostics: Seq<(DiagnosticKind, Seq<char>)>,
}

/// The view of an optional string.
pub open spec fn opt_str(o: Option<String>) -> Option<Seq<char>> {
    match o {
        Some(s) => Some(s@),
        None => None,
    }
}

/// The view of an optional list of strings.
pub open spec fn opt_strs(o: Option<Vec<String>>) -> Option<Seq<Seq<char>>> {
    match o {
        Some(v) => Some(views(v@)),
        None => None,
    }
}

/// The view of a flag value.
pub open spec fn flag_value_model(v: UnknownFlagValue) -> FlagValueModel {
    match v {
        UnknownFlagValue::Bool(b) => FlagValueModel::Bool(b),
        UnknownFlagValue::String(s) => FlagValueModel::Str(s@),
    }
}

impl View for Args {
    type V = ArgsModel;

    open spec fn view(&self) -> ArgsModel {
        ArgsModel {
            help: self.help,
            version: self.version,
            print: self.print,
            continue_session: self.continue_session,
            resume: self.resume,
            no_session: self.no_session,
            no_tools: self.no_tools,
            no_extensions: self.no_extensions,
            no_skills: self.no_skills,
            no_prompt_templates: self.no_prompt_templates,
            no_themes: self.no_themes,
            mode: self.mode,
            provider: opt_str(self.provider),
            model: opt_str(self.model),
            api_key: opt_str(self.api_key),
            system_prompt: opt_str(self.system_prompt),
            append_system_prompt: opt_str(self.append_system_prompt),
            session: opt_str(self.session),
            fork: opt_str(self.fork),
            session_dir: opt_str(self.session_dir),
            export: opt_str(self.export),
            transport: opt_str(self.transport),
            thinking: self.thinking,
            models: opt_strs(self.models),
            tools: match self.tools {
                Some(t) => Some(t@),
                None => None,
            },
            extensions: opt_strs(self.extensions),
            skills: opt_strs(self.skills),
            prompt_templates: opt_strs(self.prompt_templates),
            themes: opt_strs(self.themes),
            list_models: match self.list_models {
                Some(ListModels::All) => Some(ListModelsModel::All),
                Some(ListModels::Search(s)) => Some(ListModelsModel::Search(s@)),
                None => None,
            },
            file_args: views(self.file_args@),
            messages: views(self.messages@),
            unknown_flags: self.unknown_flags@.map_values(
                |e: (String, UnknownFlagValue)| (e.0@, flag_value_model(e.1)),
            ),
            diagnostics: self.diagnostics@.map_values(|d: Diagnostic| (d.kind, d.message@)),
        }
    }
}

/// The thinking level a name denotes.
pub open spec fn thinking_level_of(s: Seq<char>) -> Option<ThinkingLevel> {
    if s == "off"@ {
        Some(ThinkingLevel::Off)
    } else if s == "minimal"@ {
        Some(ThinkingLevel::Minimal)
    } else if s == "low"@ {
        Some(ThinkingLevel::Low)
    } else if s == "medium"@ {
        Some(ThinkingLevel::Medium)
    } else if s == "high"@ {
        Some(ThinkingLevel::High)
    } else if s == "xhigh"@ {
        Some(ThinkingLevel::XHigh)
    } else {
        None
    }
}

/// The mode a `--mode` value denotes.
pub open spec fn mode_of(s: Seq<char>) -> Option<Mode> {
    if s == "text"@ {
        Some(Mode::Text)
    } else if s == "json"@ {
        Some(Mode::Json)
    } else if s == "rpc"@ {
        Some(Mode::Rpc)
    } else {
        None
    }
}

/// The tool a name denotes.
pub open spec fn tool_of(s: Seq<char>) -> Option<ToolName> {
    if s == "read"@ {
        Some(ToolName::Read)
    } else if s == "bash"@ {
        Some(ToolName::Bash)
    } else if s == "edit"@ {
        Some(ToolName::Edit)
    } else if s == "write"@ {
        Some(ToolName::Write)
    } else if s == "grep"@ {
        Some(ToolName::Grep)
    } else if s == "find"@ {
        Some(ToolName::Find)
    } else if s == "ls"@ {
        Some(ToolName::Ls)
    } else {
        None
    }
}

/// Parses a thinking level name.
pub fn parse_thinking_level(value: &str) -> (r: Option<ThinkingLevel>)
    ensures
        r == thinking_level_of(value@),
{
    let v = chars_of(value);
    thinking_level_of_chars(&v)
}

fn thinking_level_of_chars(v: &Vec<char>) -> (r: Option<ThinkingLevel>)
    ensures
        r == thinking_level_of(v@),
{
    if chars_eq_str(v, "off") {
        Some(ThinkingLevel::Off)
    } else if chars_eq_str(v, "minimal") {
        Some(ThinkingLevel::Minimal)
    } else if chars_eq_str(v, "low") {
        Some(ThinkingLevel::Low)
    } else if chars_eq_str(v, "medium") {
        Some(ThinkingLevel::Medium)
    } else if chars_eq_str(v, "high") {
        Some(ThinkingLevel::High)
    } else if chars_eq_str(v, "xhigh") {
        Some(ThinkingLevel::XHigh)
    } else {
        None
    }
}

fn mode_of_chars(v: &Vec<char>) -> (r: Option<Mode>)
    ensures
        r == mode_of(v@),
{
    if chars_eq_str(v, "text") {
        Some(Mode::Text)
    } else if chars_eq_str(v, "json") {
        Some(Mode::Json)
    } else if chars_eq_str(v, "rpc") {
        Some(Mode::Rpc)
    } else {
        None
    }
}

fn tool_of_chars(v: &Vec<char>) -> (r: Option<ToolName>)
    ensures
        r == tool_of(v@),
{
    if chars_eq_str(v, "read") {
        Some(ToolName::Read)
    } else if chars_eq_str(v, "bash") {
        Some(ToolName::Bash)
    } else if chars_eq_str(v, "edit") {
        Some(ToolName::Edit)
    } else if chars_eq_str(v, "write") {
        Some(ToolName::Write)
    } else if chars_eq_str(v, "grep") {
        Some(ToolName::Grep)
    } else if chars_eq_str(v, "find") {
        Some(ToolName::Find)
    } else if chars_eq_str(v, "ls") {
        Some(ToolName::Ls)
    } else {
        None
    }
}

/// The comma-separated entries of a flag value, each trimmed.
pub open spec fn comma_list(v: Seq<char>) -> Seq<Seq<char>> {
    crate::text::split_seq(v, ',').map_values(|p: Seq<char>| trim_seq(p))
}

/// Splits a flag value at commas and trims each entry.
fn comma_list_strings(v: &Vec<char>) -> (r: Vec<String>)
    ensures
        views(r@) == comma_list(v@),
{
    let pieces = crate::text::split_chars(v, ',');
    let ghost ps = pieces@.map_values(|p: Vec<char>| p@);
    let mut r: Vec<String> = Vec::new();
    let mut i: usize = 0;
    while i < pieces.len()
        invariant
            0 <= i <= pieces@.len(),
            ps == pieces@.map_values(|p: Vec<char>| p@),
            ps == crate::text::split_seq(v@, ','),
            views(r@) == comma_list(v@).take(i as int),
        decreases pieces@.len() - i,
    {
        let t = trim_chars(&pieces[i]);
        let ghost before = r@;
        r.push(string_from_chars(&t));
        assert(views(r@) =~= views(before).push(t@));
        i = i + 1;
        assert(views(r@) =~= comma_list(v@).take(i as int));
    }
    assert(comma_list(v@).take(pieces@.len() as int) =~= comma_list(v@));
    r
}

/// The warning for a `--tools` entry that names no tool.
pub open spec fn unknown_tool_message(name: Seq<char>) -> Seq<char> {
    "Unknown tool \""@ + name + "\". Valid tools: read, bash, edit, write, grep, find, ls"@
}

/// The warning for a `--thinking` value that names no level.
pub open spec fn invalid_thinking_message(value: Seq<char>) -> Seq<char> {
    "Invalid thinking level \""@ + value
        + "\". Valid values: off, minimal, low, medium, high, xhigh"@
}

/// The tools named in `names`, in order, skipping unknown names.
pub open spec fn valid_tools(names: Seq<Seq<char>>) -> Seq<ToolName>
    decreases names.len(),
{
    if names.len() == 0 {
        seq![]
    } else {
        let prev = valid_tools(names.drop_last());
        match tool_of(names.last()) {
            Some(t) => prev.push(t),
            None => prev,
        }
    }
}

/// `diags` followed by one warning per unknown name in `names`.
pub open spec fn tool_warnings(diags: Seq<(DiagnosticKind, Seq<char>)>, names: Seq<Seq<char>>) -> Seq<
    (DiagnosticKind, Seq<char>),
>
    decreases names.len(),
{
    if names.len() == 0 {
        diags
    } else {
        let prev = tool_warnings(diags, names.drop_last());
        match tool_of(names.last()) {
            Some(_) => prev,
            None => prev.push((DiagnosticKind::Warning, unknown_tool_message(names.last()))),
        }
    }
}

/// `flags` with `name` set to `value`: an existing entry is replaced in
/// place, a new one is appended.
pub open spec fn set_flag(flags: Seq<(Seq<char>, FlagValueModel)>, name: Seq<char>, value: FlagValueModel) -> Seq<
    (Seq<char>, FlagValueModel),
> {
    match crate::listnav::first_index_of(flags.map_values(|e: (Seq<char>, FlagValueModel)| e.0), name) {
        Some(k) => flags.update(k as int, (name, value)),
        None => flags.push((name, value)),
    }
}

/// `list` with `v` appended (starting a list when there is none).
pub open spec fn appended(list: Option<Seq<Seq<char>>>, v: Seq<char>) -> Option<Seq<Seq<char>>> {
    match list {
        Some(l) => Some(l.push(v)),
        None => Some(seq![v]),
    }
}

/// Whether an argument can serve as the value of a preceding flag.
pub open spec fn is_flag_value(v: Seq<char>) -> bool {
    !has_prefix(v, "-"@) && !has_prefix(v, "@"@)
}

/// The parse of no arguments.
pub open spec fn empty_args() -> ArgsModel {
    ArgsModel {
        help: false,
        version: false,
        print: false,
        continue_session: false,
        resume: false,
        no_session: false,
        no_tools: false,
        no_extensions: false,
        no_skills: false,
        no_prompt_templates: false,
        no_themes: false,
        mode: None,
        provider: None,
        model: None,
        api_key: None,
        system_prompt: None,
        append_system_prompt: None,
        session: None,
        fork: None,
        session_dir: None,
        export: None,
        transport: None,
        thinking: None,
        models: None,
        tools: None,
        extensions: None,
        skills: None,
        prompt_templates: None,
        themes: None,
        list_models: None,
        file_args: seq![],
        messages: seq![],
        unknown_flags: seq![],
        diagnostics: seq![],
    }
}

/// A flag that takes no value.
#[derive(Clone, Copy, Debug, PartialEq, Eq)]
pub enum Switch {
    Help,
    Version,
    Continue,
    Resume,
    NoSession,
    NoTools,
    Print,
    NoExtensions,
    NoSkills,
    NoPromptTemplates,
    NoThemes,
}

/// A flag that takes the next argument as its value.
#[derive(Clone, Copy, Debug, PartialEq, Eq)]
pub enum ValueFlag {
    Mode,
    Provider,
    Model,
    ApiKey,
    SystemPrompt,
    AppendSystemPrompt,
    Session,
    Fork,
    SessionDir,
    Models,
    Tools,
    Thinking,
    Export,
    Extension,
    Skill,
    PromptTemplate,
    Theme,
    Transport,
}

/// The switch an argument spells, if any.
pub open spec fn switch_of(a: Seq<char>) -> Option<Switch> {
    if a == "--help"@ || a == "-h"@ {
        Some(Switch::Help)
    } else if a == "--version"@ || a == "-v"@ {
        Some(Switch::Version)
    } else if a == "--continue"@ || a == "-c"@ {
        Some(Switch::Continue)
    } else if a == "--resume"@ || a == "-r"@ {
        Some(Switch::Resume)
    } else if a == "--no-session"@ {
        Some(Switch::NoSession)
    } else if a == "--no-tools"@ {
        Some(Switch::NoTools)
    } else if a == "--print"@ || a == "-p"@ {
        Some(Switch::Print)
    } else if a == "--no-extensions"@ {
        Some(Switch::NoExtensions)
    } else if a == "--no-skills"@ {
        Some(Switch::NoSkills)
    } else if a == "--no-prompt-templates"@ {
        Some(Switch::NoPromptTemplates)
    } else if a == "--no-themes"@ {
        Some(Switch::NoThemes)
    } else {
        None
    }
}

/// The value flag an argument spells, if any.
pub open spec fn value_flag_of(a: Seq<char>) -> Option<ValueFlag> {
    if a == "--mode"@ {
        Some(ValueFlag::Mode)
    } else if a == "--provider"@ {
        Some(ValueFlag::Provider)
    } else if a == "--model"@ {
        Some(ValueFlag::Model)
    } else if a == "--api-key"@ {
        Some(ValueFlag::ApiKey)
    } else if a == "--system-prompt"@ {
        Some(ValueFlag::SystemPrompt)
    } else if a == "--append-system-prompt"@ {
        Some(ValueFlag::AppendSystemPrompt)
    } else if a == "--session"@ {
        Some(ValueFlag::Session)
    } else if a == "--fork"@ {
        Some(ValueFlag::Fork)
    } else if a == "--session-dir"@ {
        Some(ValueFlag::SessionDir)
    } else if a == "--models"@ {
        Some(ValueFlag::Models)
    } else if a == "--tools"@ {
        Some(ValueFlag::Tools)
    } else if a == "--thinking"@ {
        Some(ValueFlag::Thinking)
    } else if a == "--export"@ {
        Some(ValueFlag::Export)
    } else if a == "--extension"@ || a == "-e"@ {
        Some(ValueFlag::Extension)
    } else if a == "--skill"@ {
        Some(ValueFlag::Skill)
    } else if a == "--prompt-template"@ {
        Some(ValueFlag::PromptTemplate)
    } else if a == "--theme"@ {
        Some(ValueFlag::Theme)
    } else if a == "--transport"@ {
        Some(ValueFlag::Transport)
    } else {
        None
    }
}

/// `m` with a switch turned on.
pub open spec fn with_switch(m: ArgsModel, sw: Switch) -> ArgsModel {
    match sw {
        Switch::Help => ArgsModel { help: true, ..m },
        Switch::Version => ArgsModel { version: true, ..m },
        Switch::Continue => ArgsModel { continue_session: true, ..m },
        Switch::Resume => ArgsModel { resume: true, ..m },
        Switch::NoSession => ArgsModel { no_session: true, ..m },
        Switch::NoTools => ArgsModel { no_tools: true, ..m },
        Switch::Print => ArgsModel { print: true, ..m },
        Switch::NoExtensions => ArgsModel { no_extensions: true, ..m },
        Switch::NoSkills => ArgsModel { no_skills: true, ..m },
        Switch::NoPromptTemplates => ArgsModel { no_prompt_templates: true, ..m },
        Switch::NoThemes => ArgsModel { no_themes: true, ..m },
    }
}

/// `m` with the value of a flag that simply stores it.
pub open spec fn with_text(m: ArgsModel, f: ValueFlag, v: Seq<char>) -> ArgsModel {
    match f {
        ValueFlag::Provider => ArgsModel { provider: Some(v), ..m },
        ValueFlag::Model => ArgsModel { model: Some(v), ..m },
        ValueFlag::ApiKey => ArgsModel { api_key: Some(v), ..m },
        ValueFlag::SystemPrompt => ArgsModel { system_prompt: Some(v), ..m },
        ValueFlag::AppendSystemPrompt => ArgsModel { append_system_prompt: Some(v), ..m },
        ValueFlag::Session => ArgsModel { session: Some(v), ..m },
        ValueFlag::Fork => ArgsModel { fork: Some(v), ..m },
        ValueFlag::SessionDir => ArgsModel { session_dir: Some(v), ..m },
        ValueFlag::Export => ArgsModel { export: Some(v), ..m },
        _ => ArgsModel { transport: Some(v), ..m },
    }
}

/// `m` with the value of a flag that collects a list.
pub open spec fn with_list(m: ArgsModel, f: ValueFlag, v: Seq<char>) -> ArgsModel {
    match f {
        ValueFlag::Extension => ArgsModel { extensions: appended(m.extensions, v), ..m },
        ValueFlag::Skill => ArgsModel { skills: appended(m.skills, v), ..m },
        ValueFlag::PromptTemplate => ArgsModel {
            prompt_templates: appended(m.prompt_templates, v),
            ..m
        },
        _ => ArgsModel { themes: appended(m.themes, v), ..m },
    }
}

/// `m` with `--thinking` applied: an unknown level is warned about.
pub open spec fn with_thinking(m: ArgsModel, v: Seq<char>) -> ArgsModel {
    match thinking_level_of(v) {
        Some(level) => ArgsModel { thinking: Some(level), ..m },
        None => ArgsModel {
            diagnostics: m.diagnostics.push((DiagnosticKind::Warning, invalid_thinking_message(v))),
            ..m
        },
    }
}

/// `m` with `--tools` applied: unknown entries are warned about.
pub open spec fn with_tools(m: ArgsModel, v: Seq<char>) -> ArgsModel {
    ArgsModel {
        tools: Some(valid_tools(comma_list(v))),
        diagnostics: tool_warnings(m.diagnostics, comma_list(v)),
        ..m
    }
}

/// `m` with a value flag applied: an unknown `--mode` value is ignored.
pub open spec fn with_value(m: ArgsModel, f: ValueFlag, v: Seq<char>) -> ArgsModel {
    match f {
        ValueFlag::Mode => match mode_of(v) {
            Some(md) => ArgsModel { mode: Some(md), ..m },
            None => m,
        },
        ValueFlag::Models => ArgsModel { models: Some(comma_list(v)), ..m },
        ValueFlag::Tools => with_tools(m, v),
        ValueFlag::Thinking => with_thinking(m, v),
        _ => if is_list_flag(f) {
            with_list(m, f, v)
        } else {
            with_text(m, f, v)
        },
    }
}

/// Arguments that are no known flag: `@file` arguments, unknown long flags
/// (`--name=value`, `--name value`, or `--name` alone meaning true), plain
/// messages; other single-dash arguments are ignored. The second component
/// is how many arguments were read.
pub open spec fn positional_step(a: Seq<char>, hn: bool, v: Seq<char>, m: ArgsModel) -> (ArgsModel, nat) {
    if has_prefix(a, "@"@) {
        (ArgsModel { file_args: m.file_args.push(a.skip(1)), ..m }, 1)
    } else if has_prefix(a, "--"@) {
        match crate::text::first_char_index(a, '=') {
            Some(e) => (
                ArgsModel {
                    unknown_flags: set_flag(
                        m.unknown_flags,
                        a.subrange(2, e as int),
                        FlagValueModel::Str(a.skip(e + 1 as int)),
                    ),
                    ..m
                },
                1,
            ),
            None => if hn && is_flag_value(v) {
                (
                    ArgsModel {
                        unknown_flags: set_flag(m.unknown_flags, a.skip(2), FlagValueModel::Str(v)),
                        ..m
                    },
                    2,
                )
            } else {
                (
                    ArgsModel {
                        unknown_flags: set_flag(m.unknown_flags, a.skip(2), FlagValueModel::Bool(true)),
                        ..m
                    },
                    1,
                )
            },
        }
    } else if !has_prefix(a, "-"@) {
        (ArgsModel { messages: m.messages.push(a), ..m }, 1)
    } else {
        (m, 1)
    }
}

/// The effect of the argument at `i` (with the next one as its value where
/// the flag takes one): the updated parse and the index of the next
/// argument to read.
pub open spec fn parse_step(args: Seq<Seq<char>>, i: nat, m: ArgsModel) -> (ArgsModel, nat) {
    let a = args[i as int];
    let hn = i + 1 < args.len();
    let v = args[i + 1 as int];
    match switch_of(a) {
        Some(sw) => (with_switch(m, sw), i + 1),
        None => match (if hn {
            value_flag_of(a)
        } else {
            None
        }) {
            Some(f) => (with_value(m, f, v), i + 2),
            None => if a == "--list-models"@ {
                if hn && is_flag_value(v) {
                    (ArgsModel { list_models: Some(ListModelsModel::Search(v)), ..m }, i + 2)
                } else {
                    (ArgsModel { list_models: Some(ListModelsModel::All), ..m }, i + 1)
                }
            } else {
                let (m2, used) = positional_step(a, hn, v, m);
                (m2, i + used)
            },
        },
    }
}

/// The parse of `args` from index `i` on, starting from `m`.
pub open spec fn parse_from(args: Seq<Seq<char>>, i: nat, m: ArgsModel) -> ArgsModel
    decreases args.len() - i,
{
    if i >= args.len() {
        m
    } else {
        let (m2, next) = parse_step(args, i, m);
        if next > i {
            parse_from(args, next, m2)
        } else {
            m2
        }
    }
}

/// The parse of a whole command line.
pub open spec fn parsed_args(args: Seq<Seq<char>>) -> ArgsModel {
    parse_from(args, 0, empty_args())
}

/// A parse with nothing set.
fn empty_args_value() -> (r: Args)
    ensures
        r@ =~= empty_args(),
{
    let r = Args {
        help: false,
        version: false,
        print: false,
        continue_session: false,
        resume: false,
        no_session: false,
        no_tools: false,
        no_extensions: false,
        no_skills: false,
        no_prompt_templates: false,
        no_themes: false,
        mode: None,
        provider: None,
        model: None,
        api_key: None,
        system_prompt: None,
        append_system_prompt: None,
        session: None,
        fork: None,
        session_dir: None,
        export: None,
        transport: None,
        thinking: None,
        models: None,
        tools: None,
        extensions: None,
        skills: None,
        prompt_templates: None,
        themes: None,
        list_models: None,
        file_args: Vec::new(),
        messages: Vec::new(),
        unknown_flags: Vec::new(),
        diagnostics: Vec::new(),
    };
    assert(views(r.file_args@) =~= seq![]);
    assert(views(r.messages@) =~= seq![]);
    assert(r@.unknown_flags =~= seq![]);
    assert(r@.diagnostics =~= seq![]);
    r
}

/// `prefix` + `middle` + `suffix` as a `String`.
fn wrap_text(prefix: &str, middle: &Vec<char>, suffix: &str) -> (r: String)
    ensures
        r@ == prefix@ + middle@ + suffix@,
{
    let mut v: Vec<char> = Vec::new();
    crate::text::push_str_chars(&mut v, prefix);
    crate::text::extend_chars(&mut v, middle);
    crate::text::push_str_chars(&mut v, suffix);
    string_from_chars(&v)
}

/// Appends `v` to an optional list.
fn push_opt(list: &mut Option<Vec<String>>, v: String)
    ensures
        opt_strs(*final(list)) == appended(opt_strs(*old(list)), v@),
{
    match list {
        Some(l) => {
            let ghost before = l@;
            l.push(v);
            assert(views(l@) =~= views(before).push(v@));
        },
        None => {
            let mut l: Vec<String> = Vec::new();
            l.push(v);
            assert(views(l@) =~= seq![v@]);
            *list = Some(l);
        },
    }
}

/// Sets an unknown flag, replacing an earlier value of the same name.
fn set_unknown_flag(flags: &mut Vec<(String, UnknownFlagValue)>, name: String, value: UnknownFlagValue)
    ensures
        final(flags)@.map_values(|e: (String, UnknownFlagValue)| (e.0@, flag_value_model(e.1)))
            == set_flag(
            old(flags)@.map_values(|e: (String, UnknownFlagValue)| (e.0@, flag_value_model(e.1))),
            name@,
            flag_value_model(value),
        ),
{
    let ghost m = flags@.map_values(|e: (String, UnknownFlagValue)| (e.0@, flag_value_model(e.1)));
    let ghost keys = m.map_values(|e: (Seq<char>, FlagValueModel)| e.0);
    let mut i: usize = 0;
    while i < flags.len()
        invariant
            0 <= i <= flags@.len(),
            flags@ == old(flags)@,
            m == flags@.map_values(|e: (String, UnknownFlagValue)| (e.0@, flag_value_model(e.1))),
            keys == m.map_values(|e: (Seq<char>, FlagValueModel)| e.0),
            crate::listnav::first_index_of(keys.take(i as int), name@) is None,
        decreases flags@.len() - i,
    {
        assert(keys.take(i + 1).drop_last() =~= keys.take(i as int));
        if flags[i].0 == name {
            assert(keys.take(i + 1).last() == name@);
            proof {
                crate::listnav::lemma_first_index_prefix(keys, name@, (i + 1) as nat);
            }
            let ghost before = flags@;
            flags.set(i, (name, value));
            assert(flags@.map_values(|e: (String, UnknownFlagValue)| (e.0@, flag_value_model(e.1)))
                =~= m.update(i as int, (name@, flag_value_model(value))));
            return;
        }
        i = i + 1;
    }
    assert(keys.take(keys.len() as int) =~= keys);
    let ghost before = flags@;
    flags.push((name, value));
    assert(flags@.map_values(|e: (String, UnknownFlagValue)| (e.0@, flag_value_model(e.1))) =~= m.push(
        (name@, flag_value_model(value)),
    ));
}

/// The tools `--tools` selects; a warning is appended to `diags` for each
/// name that is no tool.
fn select_tools(diags: &mut Vec<Diagnostic>, names: &Vec<String>) -> (tools: Vec<ToolName>)
    ensures
        tools@ == valid_tools(views(names@)),
        final(diags)@.map_values(|d: Diagnostic| (d.kind, d.message@)) == tool_warnings(
            old(diags)@.map_values(|d: Diagnostic| (d.kind, d.message@)),
            views(names@),
        ),
{
    let ghost start = old(diags)@.map_values(|d: Diagnostic| (d.kind, d.message@));
    let mut tools: Vec<ToolName> = Vec::new();
    let mut i: usize = 0;
    while i < names.len()
        invariant
            0 <= i <= names@.len(),
            start == old(diags)@.map_values(|d: Diagnostic| (d.kind, d.message@)),
            tools@ == valid_tools(views(names@).take(i as int)),
            diags@.map_values(|d: Diagnostic| (d.kind, d.message@)) == tool_warnings(
                start,
                views(names@).take(i as int),
            ),
        decreases names@.len() - i,
    {
        assert(views(names@).take(i + 1).drop_last() =~= views(names@).take(i as int));
        assert(views(names@).take(i + 1).last() == names@[i as int]@);
        let nc = chars_of(names[i].as_str());
        match tool_of_chars(&nc) {
            Some(t) => {
                tools.push(t);
            },
            None => {
                let message = wrap_text(
                    "Unknown tool \"",
                    &nc,
                    "\". Valid tools: read, bash, edit, write, grep, find, ls",
                );
                let ghost before = diags@;
                diags.push(Diagnostic { kind: DiagnosticKind::Warning, message });
                assert(diags@.map_values(|d: Diagnostic| (d.kind, d.message@)) =~= before.map_values(
                    |d: Diagnostic| (d.kind, d.message@),
                ).push((DiagnosticKind::Warning, unknown_tool_message(names@[i as int]@))));
            },
        }
        i = i + 1;
    }
    assert(views(names@).take(names@.len() as int) =~= views(names@));
    tools
}

/// Which switch `a` spells.
fn switch_of_chars(a: &Vec<char>) -> (r: Option<Switch>)
    ensures
        r == switch_of(a@),
{
    if chars_eq_str(a, "--help") || chars_eq_str(a, "-h") {
        Some(Switch::Help)
    } else if chars_eq_str(a, "--version") || chars_eq_str(a, "-v") {
        Some(Switch::Version)
    } else if chars_eq_str(a, "--continue") || chars_eq_str(a, "-c") {
        Some(Switch::Continue)
    } else if chars_eq_str(a, "--resume") || chars_eq_str(a, "-r") {
        Some(Switch::Resume)
    } else if chars_eq_str(a, "--no-session") {
        Some(Switch::NoSession)
    } else if chars_eq_str(a, "--no-tools") {
        Some(Switch::NoTools)
    } else if chars_eq_str(a, "--print") || chars_eq_str(a, "-p") {
        Some(Switch::Print)
    } else if chars_eq_str(a, "--no-extensions") {
        Some(Switch::NoExtensions)
    } else if chars_eq_str(a, "--no-skills") {
        Some(Switch::NoSkills)
    } else if chars_eq_str(a, "--no-prompt-templates") {
        Some(Switch::NoPromptTemplates)
    } else if chars_eq_str(a, "--no-themes") {
        Some(Switch::NoThemes)
    } else {
        None
    }
}

/// Which value flag `a` spells.
fn value_flag_of_chars(a: &Vec<char>) -> (r: Option<ValueFlag>)
    ensures
        r == value_flag_of(a@),
{
    if chars_eq_str(a, "--mode") {
        Some(ValueFlag::Mode)
    } else if chars_eq_str(a, "--provider") {
        Some(ValueFlag::Provider)
    } else if chars_eq_str(a, "--model") {
        Some(ValueFlag::Model)
    } else if chars_eq_str(a, "--api-key") {
        Some(ValueFlag::ApiKey)
    } else if chars_eq_str(a, "--system-prompt") {
        Some(ValueFlag::SystemPrompt)
    } else if chars_eq_str(a, "--append-system-prompt") {
        Some(ValueFlag::AppendSystemPrompt)
    } else if chars_eq_str(a, "--session") {
        Some(ValueFlag::Session)
    } else if chars_eq_str(a, "--fork") {
        Some(ValueFlag::Fork)
    } else if chars_eq_str(a, "--session-dir") {
        Some(ValueFlag::SessionDir)
    } else if chars_eq_str(a, "--models") {
        Some(ValueFlag::Models)
    } else if chars_eq_str(a, "--tools") {
        Some(ValueFlag::Tools)
    } else if chars_eq_str(a, "--thinking") {
        Some(ValueFlag::Thinking)
    } else if chars_eq_str(a, "--export") {
        Some(ValueFlag::Export)
    } else if chars_eq_str(a, "--extension") || chars_eq_str(a, "-e") {
        Some(ValueFlag::Extension)
    } else if chars_eq_str(a, "--skill") {
        Some(ValueFlag::Skill)
    } else if chars_eq_str(a, "--prompt-template") {
        Some(ValueFlag::PromptTemplate)
    } else if chars_eq_str(a, "--theme") {
        Some(ValueFlag::Theme)
    } else if chars_eq_str(a, "--transport") {
        Some(ValueFlag::Transport)
    } else {
        None
    }
}

/// Turns a switch on.
fn apply_switch(out: &mut Args, sw: Switch)
    ensures
        final(out)@ === with_switch(old(out)@, sw),
{
    match sw {
        Switch::Help => {
            out.help = true;
        },
        Switch::Version => {
            out.version = true;
        },
        Switch::Continue => {
            out.continue_session = true;
        },
        Switch::Resume => {
            out.resume = true;
        },
        Switch::NoSession => {
            out.no_session = true;
        },
        Switch::NoTools => {
            out.no_tools = true;
        },
        Switch::Print => {
            out.print = true;
        },
        Switch::NoExtensions => {
            out.no_extensions = true;
        },
        Switch::NoSkills => {
            out.no_skills = true;
        },
        Switch::NoPromptTemplates => {
            out.no_prompt_templates = true;
        },
        Switch::NoThemes => {
            out.no_themes = true;
        },
    }
}

/// Whether a value flag simply stores its value.
pub open spec fn is_text_flag(f: ValueFlag) -> bool {
    f == ValueFlag::Provider || f == ValueFlag::Model || f == ValueFlag::ApiKey || f
        == ValueFlag::SystemPrompt || f == ValueFlag::AppendSystemPrompt || f == ValueFlag::Session
        || f == ValueFlag::Fork || f == ValueFlag::SessionDir || f == ValueFlag::Export || f
        == ValueFlag::Transport
}

/// Whether a value flag appends its value to a list.
pub open spec fn is_list_flag(f: ValueFlag) -> bool {
    f == ValueFlag::Extension || f == ValueFlag::Skill || f == ValueFlag::PromptTemplate || f
        == ValueFlag::Theme
}

/// Stores the value of a flag that simply stores it.
#[verifier::rlimit(100)]
fn apply_text_flag(out: &mut Args, f: ValueFlag, value: &String)
    requires
        is_text_flag(f),
    ensures
        final(out)@ === with_text(old(out)@, f, value@),
{
    let s = Some(value.clone());
    match f {
        ValueFlag::Provider => {
            out.provider = s;
        },
        ValueFlag::Model => {
            out.model = s;
        },
        ValueFlag::ApiKey => {
            out.api_key = s;
        },
        ValueFlag::SystemPrompt => {
            out.system_prompt = s;
        },
        ValueFlag::AppendSystemPrompt => {
            out.append_system_prompt = s;
        },
        ValueFlag::Session => {
            out.session = s;
        },
        ValueFlag::Fork => {
            out.fork = s;
        },
        ValueFlag::SessionDir => {
            out.session_dir = s;
        },
        ValueFlag::Export => {
            out.export = s;
        },
        _ => {
            out.transport = s;
        },
    }
}

/// Appends the value of a list flag.
fn apply_list_value(out: &mut Args, f: ValueFlag, value: &String)
    requires
        is_list_flag(f),
    ensures
        final(out)@ =~= with_list(old(out)@, f, value@),
{
    match f {
        ValueFlag::Extension => push_opt(&mut out.extensions, value.clone()),
        ValueFlag::Skill => push_opt(&mut out.skills, value.clone()),
        ValueFlag::PromptTemplate => push_opt(&mut out.prompt_templates, value.clone()),
        _ => push_opt(&mut out.themes, value.clone()),
    }
}

/// Applies `--thinking`.
fn apply_thinking(out: &mut Args, v: &Vec<char>)
    ensures
        final(out)@ =~= with_thinking(old(out)@, v@),
{
    match thinking_level_of_chars(v) {
        Some(level) => {
            out.thinking = Some(level);
        },
        None => {
            let message = wrap_text(
                "Invalid thinking level \"",
                v,
                "\". Valid values: off, minimal, low, medium, high, xhigh",
            );
            let ghost before = out.diagnostics@;
            out.diagnostics.push(Diagnostic { kind: DiagnosticKind::Warning, message });
            assert(out.diagnostics@.map_values(|d: Diagnostic| (d.kind, d.message@)) =~= before.map_values(
                |d: Diagnostic| (d.kind, d.message@),
            ).push((DiagnosticKind::Warning, invalid_thinking_message(v@))));
        },
    }
}

/// Applies a value flag whose value is `value` (with characters `v`).
fn apply_value_flag(out: &mut Args, f: ValueFlag, v: &Vec<char>, value: &String)
    requires
        value@ == v@,
    ensures
        final(out)@ =~= with_value(old(out)@, f, v@),
{
    match f {
        ValueFlag::Mode => match mode_of_chars(v) {
            Some(md) => {
                out.mode = Some(md);
            },
            None => {},
        },
        ValueFlag::Models => {
            out.models = Some(comma_list_strings(v));
        },
        ValueFlag::Tools => {
            let names = comma_list_strings(v);
            let tools = select_tools(&mut out.diagnostics, &names);
            out.tools = Some(tools);
            assert(out@ =~= with_tools(old(out)@, v@));
        },
        ValueFlag::Thinking => apply_thinking(out, v),
        ValueFlag::Extension | ValueFlag::Skill | ValueFlag::PromptTemplate | ValueFlag::Theme => {
            apply_list_value(out, f, value)
        },
        _ => apply_text_flag(out, f, value),
    }
}

/// Records an unknown long flag (`a` starts with `--`).
#[verifier::rlimit(100)]
fn apply_unknown_flag(a: &Vec<char>, hn: bool, v: &Vec<char>, value: Option<&String>, out: &mut Args) -> (used: usize)
    requires
        has_prefix(a@, "--"@),
        hn ==> (value matches Some(s) && s@ == v@),
    ensures
        final(out)@ =~= positional_step(a@, hn, v@, old(out)@).0,
        used as nat == positional_step(a@, hn, v@, old(out)@).1,
        1 <= used <= 2,
        used == 2 ==> hn,
{
    proof {
        reveal_strlit("--");
        reveal_strlit("@");
    }
    assert(!has_prefix(a@, "@"@)) by {
        assert(a@.take(2)[0] == '-');
        assert(a@.take(1)[0] == a@.take(2)[0]);
    }
    match crate::text::find_char(a, '=') {
        Some(e) => {
            proof {
                assert(a@[0] == a@.take(2)[0]);
                assert(a@[1] == a@.take(2)[1]);
                lemma_first_char_index_bound(a@, e as nat);
            }
            let name = crate::text::chars_between(a, 2, e);
            let al = a.len();
            let rest = chars_from(a, e + 1);
            set_unknown_flag(
                &mut out.unknown_flags,
                string_from_chars(&name),
                UnknownFlagValue::String(string_from_chars(&rest)),
            );
            1
        },
        None => {
            let name = chars_from(a, 2);
            if hn && !starts_with_chars(v, "-") && !starts_with_chars(v, "@") {
                let s = match value {
                    Some(s) => s.clone(),
                    None => String::new(),
                };
                set_unknown_flag(
                    &mut out.unknown_flags,
                    string_from_chars(&name),
                    UnknownFlagValue::String(s),
                );
                2
            } else {
                set_unknown_flag(
                    &mut out.unknown_flags,
                    string_from_chars(&name),
                    UnknownFlagValue::Bool(true),
                );
                1
            }
        },
    }
}

/// Applies an argument that is no known flag; returns how many arguments
/// it read.
#[verifier::rlimit(100)]
fn apply_positional(a: &Vec<char>, arg: &String, hn: bool, v: &Vec<char>, value: Option<&String>, out: &mut Args) -> (used: usize)
    requires
        arg@ == a@,
        hn ==> (value matches Some(s) && s@ == v@),
    ensures
        final(out)@ =~= positional_step(a@, hn, v@, old(out)@).0,
        used as nat == positional_step(a@, hn, v@, old(out)@).1,
        1 <= used <= 2,
        used == 2 ==> hn,
{
    if starts_with_chars(a, "@") {
        proof {
            reveal_strlit("@");
        }
        let rest = chars_from(a, 1);
        let ghost before = out.file_args@;
        out.file_args.push(string_from_chars(&rest));
        assert(views(out.file_args@) =~= views(before).push(a@.skip(1)));
        1
    } else if starts_with_chars(a, "--") {
        apply_unknown_flag(a, hn, v, value, out)
    } else if !starts_with_chars(a, "-") {
        let ghost before = out.messages@;
        out.messages.push(arg.clone());
        assert(views(out.messages@) =~= views(before).push(a@));
        1
    } else {
        1
    }
}

/// Reads the argument at `i` (and its value, where it takes one).
#[verifier::rlimit(100)]
fn parse_arg_step(args: &Vec<String>, i: usize, out: &mut Args) -> (next: usize)
    requires
        i < args@.len(),
    ensures
        final(out)@ =~= parse_step(views(args@), i as nat, old(out)@).0,
        next as nat == parse_step(views(args@), i as nat, old(out)@).1,
        i < next <= args@.len(),
{
    let ghost vs = views(args@);
    let a = chars_of(args[i].as_str());
    let n = args.len();
    let hn = i + 1 < n;
    let v: Vec<char> = if hn {
        chars_of(args[i + 1].as_str())
    } else {
        Vec::new()
    };
    assert(a@ == vs[i as int]);
    assert(hn ==> v@ == vs[i + 1 as int]);
    match switch_of_chars(&a) {
        Some(sw) => {
            apply_switch(out, sw);
            return i + 1;
        },
        None => {},
    }
    if hn {
        match value_flag_of_chars(&a) {
            Some(f) => {
                apply_value_flag(out, f, &v, &args[i + 1]);
                return i + 2;
            },
            None => {},
        }
    }
    if chars_eq_str(&a, "--list-models") {
        if hn && !starts_with_chars(&v, "-") && !starts_with_chars(&v, "@") {
            out.list_models = Some(ListModels::Search(args[i + 1].clone()));
            return i + 2;
        } else {
            out.list_models = Some(ListModels::All);
            return i + 1;
        }
    }
    let value: Option<&String> = if hn {
        Some(&args[i + 1])
    } else {
        None
    };
    let used = apply_positional(&a, &args[i], hn, &v, value, out);
    i + used
}

/// An `=` found by `first_char_index` in a long flag lies after its dashes.
proof fn lemma_first_char_index_bound(a: Seq<char>, e: nat)
    requires
        a.len() >= 2,
        a[0] == '-',
        a[1] == '-',
        crate::text::first_char_index(a, '=') == Some(e),
    ensures
        2 <= e,
{
    let t = a.drop_first();
    assert(t[0] == a[1]);
    let u = t.drop_first();
    match crate::text::first_char_index(u, '=') {
        Some(k) => {
            assert(crate::text::first_char_index(t, '=') == Some(k + 1));
        },
        None => {
            assert(crate::text::first_char_index(t, '=') is None);
        },
    }
}

/// Parses the command line.
pub fn parse_args(args: &Vec<String>) -> (r: Args)
    ensures
        r@ == parsed_args(views(args@)),
{
    let mut out = empty_args_value();
    let mut i: usize = 0;
    while i < args.len()
        invariant
            0 <= i <= args@.len(),
            parsed_args(views(args@)) == parse_from(views(args@), i as nat, out@),
        decreases args@.len() - i,
    {
        let ghost before = out@;
        let next = parse_arg_step(args, i, &mut out);
        assert(parse_from(views(args@), i as nat, before) == parse_from(views(args@), next as nat, out@));
        i = next;
    }
    out
}

/// The app mode for parsed arguments: the RPC and JSON modes when asked for,
/// print mode when asked for or when stdin is no terminal, interactive
/// mode otherwise.
pub open spec fn app_mode_of(m: ArgsModel, stdin_is_tty: bool) -> AppMode {
    if m.mode == Some(Mode::Rpc) {
        AppMode::Rpc
    } else if m.mode == Some(Mode::Json) {
        AppMode::Json
    } else if m.print || !stdin_is_tty {
        AppMode::Print
    } else {
        AppMode::Interactive
    }
}

/// Decides how the program runs.
pub fn resolve_app_mode(parsed: &Args, stdin_is_tty: bool) -> (r: AppMode)
    ensures
        r == app_mode_of(parsed@, stdin_is_tty),
{
    let rpc = match parsed.mode {
        Some(Mode::Rpc) => true,
        _ => false,
    };
    let json = match parsed.mode {
        Some(Mode::Json) => true,
        _ => false,
    };
    if rpc {
        AppMode::Rpc
    } else if json {
        AppMode::Json
    } else if parsed.print || !stdin_is_tty {
        AppMode::Print
    } else {
        AppMode::Interactive
    }
}

/// The print-mode output format of an app mode, if it prints.
pub fn to_print_output_mode(app_mode: AppMode) -> (r: Option<PrintOutputMode>)
    ensures
        r == match app_mode {
            AppMode::Print => Some(PrintOutputMode::Text),
            AppMode::Json => Some(PrintOutputMode::Json),
            _ => None,
        },
{
    match app_mode {
        AppMode::Print => Some(PrintOutputMode::Text),
        AppMode::Json => Some(PrintOutputMode::Json),
        _ => None,
    }
}

/// The value of the unknown flag `name`, if it was given: that of its
/// first entry.
pub fn unknown_flag<'a>(parsed: &'a Args, name: &str) -> (r: Option<&'a UnknownFlagValue>)
    ensures
        r matches Some(v) ==> (exists|k: int|
            0 <= k < parsed.unknown_flags@.len() && #[trigger] parsed.unknown_flags@[k].0@ == name@
                && parsed.unknown_flags@[k].1 == *v && forall|j: int|
                0 <= j < k ==> parsed.unknown_flags@[j].0@ != name@),
        r is None ==> forall|k: int|
            0 <= k < parsed.unknown_flags@.len() ==> parsed.unknown_flags@[k].0@ != name@,
{
    let target = crate::text::owned(name);
    let mut i: usize = 0;
    while i < parsed.unknown_flags.len()
        invariant
            0 <= i <= parsed.unknown_flags@.len(),
            target@ == name@,
            forall|k: int| 0 <= k < i ==> parsed.unknown_flags@[k].0@ != name@,
        decreases parsed.unknown_flags@.len() - i,
    {
        if parsed.unknown_flags[i].0 == target {
            assert(parsed.unknown_flags@[i as int].0@ == name@);
            return Some(&parsed.unknown_flags[i].1);
        }
        i = i + 1;
    }
    None
}

/// The arguments for the interactive iterations after the first: the
/// session selection and the initial input are dropped.
pub fn sanitize_interactive_follow_up_args(parsed: &Args) -> (r: Args)
    ensures
        r@ == (ArgsModel {
            continue_session: false,
            resume: false,
            session: None,
            fork: None,
            messages: seq![],
            file_args: seq![],
            ..parsed@
        }),
{
    let mut r = clone_args(parsed);
    r.continue_session = false;
    r.resume = false;
    r.session = None;
    r.fork = None;
    r.messages = Vec::new();
    r.file_args = Vec::new();
    assert(views(r.messages@) =~= seq![]);
    assert(views(r.file_args@) =~= seq![]);
    r
}

/// Copies an optional string.
fn clone_opt_string(o: &Option<String>) -> (r: Option<String>)
    ensures
        opt_str(r) == opt_str(*o),
{
    match o {
        Some(s) => Some(s.clone()),
        None => None,
    }
}

/// Copies an optional list of strings.
fn clone_opt_strings(o: &Option<Vec<String>>) -> (r: Option<Vec<String>>)
    ensures
        opt_strs(r) == opt_strs(*o),
{
    match o {
        Some(v) => Some(crate::scoped_models::clone_ids(v)),
        None => None,
    }
}

/// Copies the unknown flags.
fn clone_flags(s: &Vec<(String, UnknownFlagValue)>) -> (r: Vec<(String, UnknownFlagValue)>)
    ensures
        r@.map_values(|e: (String, UnknownFlagValue)| (e.0@, flag_value_model(e.1)))
            == s@.map_values(|e: (String, UnknownFlagValue)| (e.0@, flag_value_model(e.1))),
{
    let mut r: Vec<(String, UnknownFlagValue)> = Vec::new();
    let mut i: usize = 0;
    while i < s.len()
        invariant
            0 <= i <= s@.len(),
            r@.len() == i,
            forall|k: int| 0 <= k < i ==> (#[trigger] r@[k]).0@ == s@[k].0@ && flag_value_model(r@[k].1) == flag_value_model(s@[k].1),
        decreases s@.len() - i,
    {
        let name = s[i].0.clone();
        let value = match &s[i].1 {
            UnknownFlagValue::Bool(b) => UnknownFlagValue::Bool(*b),
            UnknownFlagValue::String(t) => UnknownFlagValue::String(t.clone()),
        };
        assert(name@ == s@[i as int].0@);
        assert(flag_value_model(value) == flag_value_model(s@[i as int].1));
        r.push((name, value));
        i = i + 1;
    }
    assert(r@.map_values(|e: (String, UnknownFlagValue)| (e.0@, flag_value_model(e.1)))
        =~= s@.map_values(|e: (String, UnknownFlagValue)| (e.0@, flag_value_model(e.1))));
    r
}

/// Copies the diagnostics.
fn clone_diagnostics(s: &Vec<Diagnostic>) -> (r: Vec<Diagnostic>)
    ensures
        r@.map_values(|d: Diagnostic| (d.kind, d.message@)) == s@.map_values(|d: Diagnostic| (d.kind, d.message@)),
{
    let mut r: Vec<Diagnostic> = Vec::new();
    let mut i: usize = 0;
    while i < s.len()
        invariant
            0 <= i <= s@.len(),
            r@.len() == i,
            forall|k: int| 0 <= k < i ==> (#[trigger] r@[k]).kind == s@[k].kind && r@[k].message@ == s@[k].message@,
        decreases s@.len() - i,
    {
        let m = s[i].message.clone();
        assert(m@ == s@[i as int].message@);
        r.push(Diagnostic { kind: s[i].kind, message: m });
        i = i + 1;
    }
    assert(r@.map_values(|d: Diagnostic| (d.kind, d.message@)) =~= s@.map_values(|d: Diagnostic| (d.kind, d.message@)));
    r
}

/// Copies a parse.
#[verifier::rlimit(100)]
pub fn clone_args(a: &Args) -> (r: Args)
    ensures
        r@ =~= a@,
{
    let tools = match &a.tools {
        Some(t) => {
            let mut c: Vec<ToolName> = Vec::new();
            let mut i: usize = 0;
            while i < t.len()
                invariant
                    0 <= i <= t@.len(),
                    c@ == t@.take(i as int),
                decreases t@.len() - i,
            {
                c.push(t[i]);
                i = i + 1;
            }
            assert(t@.take(t@.len() as int) =~= t@);
            Some(c)
        },
        None => None,
    };
    let list_models = match &a.list_models {
        Some(ListModels::All) => Some(ListModels::All),
        Some(ListModels::Search(s)) => Some(ListModels::Search(s.clone())),
        None => None,
    };
    let flags = clone_flags(&a.unknown_flags);
    let diags = clone_diagnostics(&a.diagnostics);
    Args {
        help: a.help,
        version: a.version,
        print: a.print,
        continue_session: a.continue_session,
        resume: a.resume,
        no_session: a.no_session,
        no_tools: a.no_tools,
        no_extensions: a.no_extensions,
        no_skills: a.no_skills,
        no_prompt_templates: a.no_prompt_templates,
        no_themes: a.no_themes,
        mode: a.mode,
        provider: clone_opt_string(&a.provider),
        model: clone_opt_string(&a.model),
        api_key: clone_opt_string(&a.api_key),
        system_prompt: clone_opt_string(&a.system_prompt),
        append_system_prompt: clone_opt_string(&a.append_system_prompt),
        session: clone_opt_string(&a.session),
        fork: clone_opt_string(&a.fork),
        session_dir: clone_opt_string(&a.session_dir),
        export: clone_opt_string(&a.export),
        transport: clone_opt_string(&a.transport),
        thinking: a.thinking,
        models: clone_opt_strings(&a.models),
        tools,
        extensions: clone_opt_strings(&a.extensions),
        skills: clone_opt_strings(&a.skills),
        prompt_templates: clone_opt_strings(&a.prompt_templates),
        themes: clone_opt_strings(&a.themes),
        list_models,
        file_args: crate::scoped_models::clone_ids(&a.file_args),
        messages: crate::scoped_models::clone_ids(&a.messages),
        unknown_flags: flags,
        diagnostics: diags,
    }
}

/// `-e` is the short form of `--extension`: on its own with a path, either
/// spelling adds the path to the extensions and sets nothing else; the path
/// is no message.
pub proof fn lemma_short_extension_flag(p: Seq<char>)
    ensures
        parsed_args(seq!["-e"@, p]) == (ArgsModel { extensions: Some(seq![p]), ..empty_args() }),
        parsed_args(seq!["--extension"@, p]) == parsed_args(seq!["-e"@, p]),
        parsed_args(seq!["-e"@, p]).messages.len() == 0,
{
    reveal_strlit("--help");
    reveal_strlit("-h");
    reveal_strlit("--version");
    reveal_strlit("-v");
    reveal_strlit("--continue");
    reveal_strlit("-c");
    reveal_strlit("--resume");
    reveal_strlit("-r");
    reveal_strlit("--no-session");
    reveal_strlit("--no-tools");
    reveal_strlit("--print");
    reveal_strlit("-p");
    reveal_strlit("--no-extensions");
    reveal_strlit("--no-skills");
    reveal_strlit("--no-prompt-templates");
    reveal_strlit("--no-themes");
    reveal_strlit("--mode");
    reveal_strlit("--provider");
    reveal_strlit("--model");
    reveal_strlit("--api-key");
    reveal_strlit("--system-prompt");
    reveal_strlit("--append-system-prompt");
    reveal_strlit("--session");
    reveal_strlit("--fork");
    reveal_strlit("--session-dir");
    reveal_strlit("--models");
    reveal_strlit("--tools");
    reveal_strlit("--thinking");
    reveal_strlit("--export");
    reveal_strlit("--extension");
    reveal_strlit("-e");
    reveal_strlit("--skill");
    reveal_strlit("--prompt-template");
    reveal_strlit("--theme");
    reveal_strlit("--transport");
    let a = seq!["-e"@, p];
    let b = seq!["--extension"@, p];
    assert(a[0] == "-e"@ && a[1] == p);
    assert(b[0] == "--extension"@ && b[1] == p);
    assert("-e"@[1] != "-h"@[1]);
    assert("-e"@[1] != "-v"@[1]);
    assert("-e"@[1] != "-c"@[1]);
    assert("-e"@[1] != "-r"@[1]);
    assert("-e"@[1] != "-p"@[1]);
    assert("--extension"@[2] != "--no-skills"@[2]);
    assert("--extension"@[2] != "--no-themes"@[2]);
    assert("--extension"@[2] != "--transport"@[2]);
    assert(switch_of("-e"@) is None);
    assert(switch_of("--extension"@) is None);
    assert(value_flag_of("-e"@) == Some(ValueFlag::Extension));
    assert(value_flag_of("--extension"@) == Some(ValueFlag::Extension));
    assert(parse_step(a, 0, empty_args()) == (ArgsModel { extensions: Some(seq![p]), ..empty_args() }, 2nat));
    assert(parse_step(b, 0, empty_args()) == (ArgsModel { extensions: Some(seq![p]), ..empty_args() }, 2nat));
    reveal_with_fuel(parse_from, 2);
}

/// `--list-models` followed by a pattern (an argument that starts with
/// neither `-` nor `@`) asks to list the models matching that pattern, and
/// sets nothing else; alone it asks for every model.
pub proof fn lemma_list_models_search(s: Seq<char>)
    requires
        s.len() == 0 || (s[0] != '-' && s[0] != '@'),
    ensures
        parsed_args(seq!["--list-models"@, s]) == (ArgsModel {
            list_models: Some(ListModelsModel::Search(s)),
            ..empty_args()
        }),
        parsed_args(seq!["--list-models"@]) == (ArgsModel { list_models: Some(ListModelsModel::All), ..empty_args() }),
{
    reveal_strlit("--help");
    reveal_strlit("-h");
    reveal_strlit("--version");
    reveal_strlit("-v");
    reveal_strlit("--continue");
    reveal_strlit("-c");
    reveal_strlit("--resume");
    reveal_strlit("-r");
    reveal_strlit("--no-session");
    reveal_strlit("--no-tools");
    reveal_strlit("--print");
    reveal_strlit("-p");
    reveal_strlit("--no-extensions");
    reveal_strlit("--no-skills");
    reveal_strlit("--no-prompt-templates");
    reveal_strlit("--no-themes");
    reveal_strlit("--mode");
    reveal_strlit("--provider");
    reveal_strlit("--model");
    reveal_strlit("--api-key");
    reveal_strlit("--system-prompt");
    reveal_strlit("--append-system-prompt");
    reveal_strlit("--session");
    reveal_strlit("--fork");
    reveal_strlit("--session-dir");
    reveal_strlit("--models");
    reveal_strlit("--tools");
    reveal_strlit("--thinking");
    reveal_strlit("--export");
    reveal_strlit("--extension");
    reveal_strlit("-e");
    reveal_strlit("--skill");
    reveal_strlit("--prompt-template");
    reveal_strlit("--theme");
    reveal_strlit("--transport");
    reveal_strlit("--list-models");
    reveal_strlit("-");
    reveal_strlit("@");
    let a = seq!["--list-models"@, s];
    let b = seq!["--list-models"@];
    assert(a[0] == "--list-models"@ && a[1] == s);
    assert(b[0] == "--list-models"@);
    assert("--list-models"@[2] != "--session-dir"@[2]);
    assert(switch_of("--list-models"@) is None);
    assert(value_flag_of("--list-models"@) is None);
    assert(is_flag_value(s)) by {
        if s.len() > 0 {
            assert(s.take(1)[0] == s[0]);
        }
    }
    assert(parse_step(a, 0, empty_args()).1 == 2);
    assert(parse_step(b, 0, empty_args()).1 == 1);
    reveal_with_fuel(parse_from, 2);
}

/// Each switch, in its long and (where it has one) short spelling, turns on
/// its own setting and nothing else.
pub proof fn lemma_switch_flags()
    ensures
        parsed_args(seq!["--help"@]) == (ArgsModel { help: true, ..empty_args() }),
        parsed_args(seq!["-h"@]) == (ArgsModel { help: true, ..empty_args() }),
        parsed_args(seq!["--version"@]) == (ArgsModel { version: true, ..empty_args() }),
        parsed_args(seq!["-v"@]) == (ArgsModel { version: true, ..empty_args() }),
        parsed_args(seq!["--continue"@]) == (ArgsModel { continue_session: true, ..empty_args() }),
        parsed_args(seq!["-c"@]) == (ArgsModel { continue_session: true, ..empty_args() }),
        parsed_args(seq!["--resume"@]) == (ArgsModel { resume: true, ..empty_args() }),
        parsed_args(seq!["-r"@]) == (ArgsModel { resume: true, ..empty_args() }),
        parsed_args(seq!["--no-session"@]) == (ArgsModel { no_session: true, ..empty_args() }),
        parsed_args(seq!["--no-tools"@]) == (ArgsModel { no_tools: true, ..empty_args() }),
        parsed_args(seq!["--print"@]) == (ArgsModel { print: true, ..empty_args() }),
        parsed_args(seq!["-p"@]) == (ArgsModel { print: true, ..empty_args() }),
        parsed_args(seq!["--no-extensions"@]) == (ArgsModel { no_extensions: true, ..empty_args() }),
        parsed_args(seq!["--no-skills"@]) == (ArgsModel { no_skills: true, ..empty_args() }),
        parsed_args(seq!["--no-prompt-templates"@]) == (ArgsModel { no_prompt_templates: true, ..empty_args() }),
        parsed_args(seq!["--no-themes"@]) == (ArgsModel { no_themes: true, ..empty_args() }),
{
    reveal_strlit("--help");
    reveal_strlit("-h");
    reveal_strlit("--version");
    reveal_strlit("-v");
    reveal_strlit("--continue");
    reveal_strlit("-c");
    reveal_strlit("--resume");
    reveal_strlit("-r");
    reveal_strlit("--no-session");
    reveal_strlit("--no-tools");
    reveal_strlit("--print");
    reveal_strlit("-p");
    reveal_strlit("--no-extensions");
    reveal_strlit("--no-skills");
    reveal_strlit("--no-prompt-templates");
    reveal_strlit("--no-themes");
    reveal_strlit("--mode");
    reveal_strlit("--provider");
    reveal_strlit("--model");
    reveal_strlit("--api-key");
    reveal_strlit("--system-prompt");
    reveal_strlit("--append-system-prompt");
    reveal_strlit("--session");
    reveal_strlit("--fork");
    reveal_strlit("--session-dir");
    reveal_strlit("--models");
    reveal_strlit("--tools");
    reveal_strlit("--thinking");
    reveal_strlit("--export");
    reveal_strlit("--extension");
    reveal_strlit("-e");
    reveal_strlit("--skill");
    reveal_strlit("--prompt-template");
    reveal_strlit("--theme");
    reveal_strlit("--transport");
    assert("--continue"@[2] != "--no-tools"@[2]);
    assert("--continue"@[2] != "--provider"@[2]);
    assert("--continue"@[2] != "--thinking"@[2]);
    assert("--help"@[2] != "--fork"@[2]);
    assert("--help"@[2] != "--mode"@[2]);
    assert("--no-extensions"@[2] != "--system-prompt"@[2]);
    assert("--no-skills"@[2] != "--extension"@[2]);
    assert("--no-skills"@[2] != "--transport"@[2]);
    assert("--no-skills"@[5] != "--no-themes"@[5]);
    assert("--no-themes"@[2] != "--extension"@[2]);
    assert("--no-themes"@[2] != "--transport"@[2]);
    assert("--no-themes"@[5] != "--no-skills"@[5]);
    assert("--no-tools"@[2] != "--continue"@[2]);
    assert("--no-tools"@[2] != "--provider"@[2]);
    assert("--no-tools"@[2] != "--thinking"@[2]);
    assert("--print"@[2] != "--model"@[2]);
    assert("--print"@[2] != "--skill"@[2]);
    assert("--print"@[2] != "--theme"@[2]);
    assert("--print"@[2] != "--tools"@[2]);
    assert("--resume"@[2] != "--export"@[2]);
    assert("--resume"@[2] != "--models"@[2]);
    assert("--version"@[2] != "--api-key"@[2]);
    assert("--version"@[2] != "--session"@[2]);
    assert("-c"@[1] != "-e"@[1]);
    assert("-c"@[1] != "-h"@[1]);
    assert("-c"@[1] != "-p"@[1]);
    assert("-c"@[1] != "-r"@[1]);
    assert("-c"@[1] != "-v"@[1]);
    assert("-h"@[1] != "-c"@[1]);
    assert("-h"@[1] != "-e"@[1]);
    assert("-h"@[1] != "-p"@[1]);
    assert("-h"@[1] != "-r"@[1]);
    assert("-h"@[1] != "-v"@[1]);
    assert("-p"@[1] != "-c"@[1]);
    assert("-p"@[1] != "-e"@[1]);
    assert("-p"@[1] != "-h"@[1]);
    assert("-p"@[1] != "-r"@[1]);
    assert("-p"@[1] != "-v"@[1]);
    assert("-r"@[1] != "-c"@[1]);
    assert("-r"@[1] != "-e"@[1]);
    assert("-r"@[1] != "-h"@[1]);
    assert("-r"@[1] != "-p"@[1]);
    assert("-r"@[1] != "-v"@[1]);
    assert("-v"@[1] != "-c"@[1]);
    assert("-v"@[1] != "-e"@[1]);
    assert("-v"@[1] != "-h"@[1]);
    assert("-v"@[1] != "-p"@[1]);
    assert("-v"@[1] != "-r"@[1]);
    reveal_with_fuel(parse_from, 2);
    assert(seq!["--help"@][0] == "--help"@);
    assert(parse_step(seq!["--help"@], 0, empty_args()) == (ArgsModel { help: true, ..empty_args() }, 1nat));
    assert(seq!["-h"@][0] == "-h"@);
    assert(parse_step(seq!["-h"@], 0, empty_args()) == (ArgsModel { help: true, ..empty_args() }, 1nat));
    assert(seq!["--version"@][0] == "--version"@);
    assert(parse_step(seq!["--version"@], 0, empty_args()) == (ArgsModel { version: true, ..empty_args() }, 1nat));
    assert(seq!["-v"@][0] == "-v"@);
    assert(parse_step(seq!["-v"@], 0, empty_args()) == (ArgsModel { version: true, ..empty_args() }, 1nat));
    assert(seq!["--continue"@][0] == "--continue"@);
    assert(parse_step(seq!["--continue"@], 0, empty_args()) == (ArgsModel { continue_session: true, ..empty_args() }, 1nat));
    assert(seq!["-c"@][0] == "-c"@);
    assert(parse_step(seq!["-c"@], 0, empty_args()) == (ArgsModel { continue_session: true, ..empty_args() }, 1nat));
    assert(seq!["--resume"@][0] == "--resume"@);
    assert(parse_step(seq!["--resume"@], 0, empty_args()) == (ArgsModel { resume: true, ..empty_args() }, 1nat));
    assert(seq!["-r"@][0] == "-r"@);
    assert(parse_step(seq!["-r"@], 0, empty_args()) == (ArgsModel { resume: true, ..empty_args() }, 1nat));
    assert(seq!["--no-session"@][0] == "--no-session"@);
    assert(parse_step(seq!["--no-session"@], 0, empty_args()) == (ArgsModel { no_session: true, ..empty_args() }, 1nat));
    assert(seq!["--no-tools"@][0] == "--no-tools"@);
    assert(parse_step(seq!["--no-tools"@], 0, empty_args()) == (ArgsModel { no_tools: true, ..empty_args() }, 1nat));
    assert(seq!["--print"@][0] == "--print"@);
    assert(parse_step(seq!["--print"@], 0, empty_args()) == (ArgsModel { print: true, ..empty_args() }, 1nat));
    assert(seq!["-p"@][0] == "-p"@);
    assert(parse_step(seq!["-p"@], 0, empty_args()) == (ArgsModel { print: true, ..empty_args() }, 1nat));
    assert(seq!["--no-extensions"@][0] == "--no-extensions"@);
    assert(parse_step(seq!["--no-extensions"@], 0, empty_args()) == (ArgsModel { no_extensions: true, ..empty_args() }, 1nat));
    assert(seq!["--no-skills"@][0] == "--no-skills"@);
    assert(parse_step(seq!["--no-skills"@], 0, empty_args()) == (ArgsModel { no_skills: true, ..empty_args() }, 1nat));
    assert(seq!["--no-prompt-templates"@][0] == "--no-prompt-templates"@);
    assert(parse_step(seq!["--no-prompt-templates"@], 0, empty_args()) == (ArgsModel { no_prompt_templates: true, ..empty_args() }, 1nat));
    assert(seq!["--no-themes"@][0] == "--no-themes"@);
    assert(parse_step(seq!["--no-themes"@], 0, empty_args()) == (ArgsModel { no_themes: true, ..empty_args() }, 1nat));
}

/// Each flag that stores its value stores the next argument, whatever it
/// is, and sets nothing else; each flag that collects a list starts the list
/// with it.
pub proof fn lemma_value_flags(p: Seq<char>)
    ensures
        parsed_args(seq!["--provider"@, p]) == (ArgsModel { provider: Some(p), ..empty_args() }),
        parsed_args(seq!["--model"@, p]) == (ArgsModel { model: Some(p), ..empty_args() }),
        parsed_args(seq!["--api-key"@, p]) == (ArgsModel { api_key: Some(p), ..empty_args() }),
        parsed_args(seq!["--system-prompt"@, p]) == (ArgsModel { system_prompt: Some(p), ..empty_args() }),
        parsed_args(seq!["--append-system-prompt"@, p]) == (ArgsModel { append_system_prompt: Some(p), ..empty_args() }),
        parsed_args(seq!["--session"@, p]) == (ArgsModel { session: Some(p), ..empty_args() }),
        parsed_args(seq!["--fork"@, p]) == (ArgsModel { fork: Some(p), ..empty_args() }),
        parsed_args(seq!["--session-dir"@, p]) == (ArgsModel { session_dir: Some(p), ..empty_args() }),
        parsed_args(seq!["--export"@, p]) == (ArgsModel { export: Some(p), ..empty_args() }),
        parsed_args(seq!["--transport"@, p]) == (ArgsModel { transport: Some(p), ..empty_args() }),
        parsed_args(seq!["--extension"@, p]) == (ArgsModel { extensions: Some(seq![p]), ..empty_args() }),
        parsed_args(seq!["-e"@, p]) == (ArgsModel { extensions: Some(seq![p]), ..empty_args() }),
        parsed_args(seq!["--skill"@, p]) == (ArgsModel { skills: Some(seq![p]), ..empty_args() }),
        parsed_args(seq!["--prompt-template"@, p]) == (ArgsModel { prompt_templates: Some(seq![p]), ..empty_args() }),
        parsed_args(seq!["--theme"@, p]) == (ArgsModel { themes: Some(seq![p]), ..empty_args() }),
{
    reveal_strlit("--help");
    reveal_strlit("-h");
    reveal_strlit("--version");
    reveal_strlit("-v");
    reveal_strlit("--continue");
    reveal_strlit("-c");
    reveal_strlit("--resume");
    reveal_strlit("-r");
    reveal_strlit("--no-session");
    reveal_strlit("--no-tools");
    reveal_strlit("--print");
    reveal_strlit("-p");
    reveal_strlit("--no-extensions");
    reveal_strlit("--no-skills");
    reveal_strlit("--no-prompt-templates");
    reveal_strlit("--no-themes");
    reveal_strlit("--mode");
    reveal_strlit("--provider");
    reveal_strlit("--model");
    reveal_strlit("--api-key");
    reveal_strlit("--system-prompt");
    reveal_strlit("--append-system-prompt");
    reveal_strlit("--session");
    reveal_strlit("--fork");
    reveal_strlit("--session-dir");
    reveal_strlit("--models");
    reveal_strlit("--tools");
    reveal_strlit("--thinking");
    reveal_strlit("--export");
    reveal_strlit("--extension");
    reveal_strlit("-e");
    reveal_strlit("--skill");
    reveal_strlit("--prompt-template");
    reveal_strlit("--theme");
    reveal_strlit("--transport");
    assert("--api-key"@[2] != "--session"@[2]);
    assert("--api-key"@[2] != "--version"@[2]);
    assert("--export"@[2] != "--models"@[2]);
    assert("--export"@[2] != "--resume"@[2]);
    assert("--extension"@[2] != "--no-skills"@[2]);
    assert("--extension"@[2] != "--no-themes"@[2]);
    assert("--extension"@[2] != "--transport"@[2]);
    assert("--fork"@[2] != "--help"@[2]);
    assert("--fork"@[2] != "--mode"@[2]);
    assert("--model"@[2] != "--print"@[2]);
    assert("--model"@[2] != "--skill"@[2]);
    assert("--model"@[2] != "--theme"@[2]);
    assert("--model"@[2] != "--tools"@[2]);
    assert("--provider"@[2] != "--continue"@[2]);
    assert("--provider"@[2] != "--no-tools"@[2]);
    assert("--provider"@[2] != "--thinking"@[2]);
    assert("--session"@[2] != "--api-key"@[2]);
    assert("--session"@[2] != "--version"@[2]);
    assert("--skill"@[2] != "--model"@[2]);
    assert("--skill"@[2] != "--print"@[2]);
    assert("--skill"@[2] != "--theme"@[2]);
    assert("--skill"@[2] != "--tools"@[2]);
    assert("--system-prompt"@[2] != "--no-extensions"@[2]);
    assert("--theme"@[2] != "--model"@[2]);
    assert("--theme"@[2] != "--print"@[2]);
    assert("--theme"@[2] != "--skill"@[2]);
    assert("--theme"@[3] != "--tools"@[3]);
    assert("--transport"@[2] != "--extension"@[2]);
    assert("--transport"@[2] != "--no-skills"@[2]);
    assert("--transport"@[2] != "--no-themes"@[2]);
    assert("-e"@[1] != "-c"@[1]);
    assert("-e"@[1] != "-h"@[1]);
    assert("-e"@[1] != "-p"@[1]);
    assert("-e"@[1] != "-r"@[1]);
    assert("-e"@[1] != "-v"@[1]);
    reveal_with_fuel(parse_from, 2);
    assert(seq!["--provider"@, p][0] == "--provider"@ && seq!["--provider"@, p][1] == p);
    assert(parse_step(seq!["--provider"@, p], 0, empty_args()) == (ArgsModel { provider: Some(p), ..empty_args() }, 2nat));
    assert(seq!["--model"@, p][0] == "--model"@ && seq!["--model"@, p][1] == p);
    assert(parse_step(seq!["--model"@, p], 0, empty_args()) == (ArgsModel { model: Some(p), ..empty_args() }, 2nat));
    assert(seq!["--api-key"@, p][0] == "--api-key"@ && seq!["--api-key"@, p][1] == p);
    assert(parse_step(seq!["--api-key"@, p], 0, empty_args()) == (ArgsModel { api_key: Some(p), ..empty_args() }, 2nat));
    assert(seq!["--system-prompt"@, p][0] == "--system-prompt"@ && seq!["--system-prompt"@, p][1] == p);
    assert(parse_step(seq!["--system-prompt"@, p], 0, empty_args()) == (ArgsModel { system_prompt: Some(p), ..empty_args() }, 2nat));
    assert(seq!["--append-system-prompt"@, p][0] == "--append-system-prompt"@ && seq!["--append-system-prompt"@, p][1] == p);
    assert(parse_step(seq!["--append-system-prompt"@, p], 0, empty_args()) == (ArgsModel { append_system_prompt: Some(p), ..empty_args() }, 2nat));
    assert(seq!["--session"@, p][0] == "--session"@ && seq!["--session"@, p][1] == p);
    assert(parse_step(seq!["--session"@, p], 0, empty_args()) == (ArgsModel { session: Some(p), ..empty_args() }, 2nat));
    assert(seq!["--fork"@, p][0] == "--fork"@ && seq!["--fork"@, p][1] == p);
    assert(parse_step(seq!["--fork"@, p], 0, empty_args()) == (ArgsModel { fork: Some(p), ..empty_args() }, 2nat));
    assert(seq!["--session-dir"@, p][0] == "--session-dir"@ && seq!["--session-dir"@, p][1] == p);
    assert(parse_step(seq!["--session-dir"@, p], 0, empty_args()) == (ArgsModel { session_dir: Some(p), ..empty_args() }, 2nat));
    assert(seq!["--export"@, p][0] == "--export"@ && seq!["--export"@, p][1] == p);
    assert(parse_step(seq!["--export"@, p], 0, empty_args()) == (ArgsModel { export: Some(p), ..empty_args() }, 2nat));
    assert(seq!["--transport"@, p][0] == "--transport"@ && seq!["--transport"@, p][1] == p);
    assert(parse_step(seq!["--transport"@, p], 0, empty_args()) == (ArgsModel { transport: Some(p), ..empty_args() }, 2nat));
    assert(seq!["--extension"@, p][0] == "--extension"@ && seq!["--extension"@, p][1] == p);
    assert(parse_step(seq!["--extension"@, p], 0, empty_args()) == (ArgsModel { extensions: Some(seq![p]), ..empty_args() }, 2nat));
    assert(seq!["-e"@, p][0] == "-e"@ && seq!["-e"@, p][1] == p);
    assert(parse_step(seq!["-e"@, p], 0, empty_args()) == (ArgsModel { extensions: Some(seq![p]), ..empty_args() }, 2nat));
    assert(seq!["--skill"@, p][0] == "--skill"@ && seq!["--skill"@, p][1] == p);
    assert(parse_step(seq!["--skill"@, p], 0, empty_args()) == (ArgsModel { skills: Some(seq![p]), ..empty_args() }, 2nat));
    assert(seq!["--prompt-template"@, p][0] == "--prompt-template"@ && seq!["--prompt-template"@, p][1] == p);
    assert(parse_step(seq!["--prompt-template"@, p], 0, empty_args()) == (ArgsModel { prompt_templates: Some(seq![p]), ..empty_args() }, 2nat));
    assert(seq!["--theme"@, p][0] == "--theme"@ && seq!["--theme"@, p][1] == p);
    assert(parse_step(seq!["--theme"@, p], 0, empty_args()) == (ArgsModel { themes: Some(seq![p]), ..empty_args() }, 2nat));
}

/// `--mode rpc`, `--mode json` and `--mode text` select that mode; any other
/// value leaves the mode unset and changes nothing.
pub proof fn lemma_mode_flag(p: Seq<char>)
    ensures
        parsed_args(seq!["--mode"@, "rpc"@]).mode == Some(Mode::Rpc),
        parsed_args(seq!["--mode"@, "json"@]).mode == Some(Mode::Json),
        parsed_args(seq!["--mode"@, "text"@]).mode == Some(Mode::Text),
        p != "rpc"@ && p != "json"@ && p != "text"@ ==> parsed_args(seq!["--mode"@, p]) == empty_args(),
{
    reveal_strlit("--help");
    reveal_strlit("-h");
    reveal_strlit("--version");
    reveal_strlit("-v");
    reveal_strlit("--continue");
    reveal_strlit("-c");
    reveal_strlit("--resume");
    reveal_strlit("-r");
    reveal_strlit("--no-session");
    reveal_strlit("--no-tools");
    reveal_strlit("--print");
    reveal_strlit("-p");
    reveal_strlit("--no-extensions");
    reveal_strlit("--no-skills");
    reveal_strlit("--no-prompt-templates");
    reveal_strlit("--no-themes");
    reveal_strlit("--mode");
    reveal_strlit("--provider");
    reveal_strlit("--model");
    reveal_strlit("--api-key");
    reveal_strlit("--system-prompt");
    reveal_strlit("--append-system-prompt");
    reveal_strlit("--session");
    reveal_strlit("--fork");
    reveal_strlit("--session-dir");
    reveal_strlit("--models");
    reveal_strlit("--tools");
    reveal_strlit("--thinking");
    reveal_strlit("--export");
    reveal_strlit("--extension");
    reveal_strlit("-e");
    reveal_strlit("--skill");
    reveal_strlit("--prompt-template");
    reveal_strlit("--theme");
    reveal_strlit("--transport");
    reveal_strlit("rpc");
    reveal_strlit("json");
    reveal_strlit("text");
    assert("--mode"@[2] != "--help"@[2]);
    assert("--mode"@[2] != "--fork"@[2]);
    assert(switch_of("--mode"@) is None);
    assert(value_flag_of("--mode"@) == Some(ValueFlag::Mode));
    assert("rpc"@.len() != "json"@.len() && "rpc"@.len() != "text"@.len());
    assert("json"@[0] != "text"@[0]);
    reveal_with_fuel(parse_from, 2);
    assert(seq!["--mode"@, "rpc"@][0] == "--mode"@ && seq!["--mode"@, "rpc"@][1] == "rpc"@);
    assert(seq!["--mode"@, "json"@][0] == "--mode"@ && seq!["--mode"@, "json"@][1] == "json"@);
    assert(seq!["--mode"@, "text"@][0] == "--mode"@ && seq!["--mode"@, "text"@][1] == "text"@);
    assert(seq!["--mode"@, p][0] == "--mode"@ && seq!["--mode"@, p][1] == p);
    assert(parse_step(seq!["--mode"@, "rpc"@], 0, empty_args()).1 == 2);
    assert(parse_step(seq!["--mode"@, "json"@], 0, empty_args()).1 == 2);
    assert(parse_step(seq!["--mode"@, "text"@], 0, empty_args()).1 == 2);
    assert(parse_step(seq!["--mode"@, p], 0, empty_args()).1 == 2);
}

/// RPC and JSON modes are chosen by `--mode` alone; otherwise a run prints
/// once when asked to (`--print`) or when input is piped, and is interactive
/// only at a terminal without `--print`.
pub proof fn lemma_app_mode(m: ArgsModel, stdin_is_tty: bool)
    ensures
        (app_mode_of(m, stdin_is_tty) == AppMode::Rpc) == (m.mode == Some(Mode::Rpc)),
        (app_mode_of(m, stdin_is_tty) == AppMode::Json) == (m.mode == Some(Mode::Json)),
        (app_mode_of(m, stdin_is_tty) == AppMode::Interactive) == (m.mode != Some(Mode::Rpc) && m.mode != Some(
            Mode::Json,
        ) && !m.print && stdin_is_tty),
{
}

/// An argument starting with `@` names a file to include: `@p` alone adds
/// `p` to the file arguments and sets nothing else.
pub proof fn lemma_file_argument(p: Seq<char>)
    ensures
        parsed_args(seq!["@"@ + p]) == (ArgsModel { file_args: seq![p], ..empty_args() }),
{
    reveal_strlit("--help");
    reveal_strlit("-h");
    reveal_strlit("--version");
    reveal_strlit("-v");
    reveal_strlit("--continue");
    reveal_strlit("-c");
    reveal_strlit("--resume");
    reveal_strlit("-r");
    reveal_strlit("--no-session");
    reveal_strlit("--no-tools");
    reveal_strlit("--print");
    reveal_strlit("-p");
    reveal_strlit("--no-extensions");
    reveal_strlit("--no-skills");
    reveal_strlit("--no-prompt-templates");
    reveal_strlit("--no-themes");
    reveal_strlit("--mode");
    reveal_strlit("--provider");
    reveal_strlit("--model");
    reveal_strlit("--api-key");
    reveal_strlit("--system-prompt");
    reveal_strlit("--append-system-prompt");
    reveal_strlit("--session");
    reveal_strlit("--fork");
    reveal_strlit("--session-dir");
    reveal_strlit("--models");
    reveal_strlit("--tools");
    reveal_strlit("--thinking");
    reveal_strlit("--export");
    reveal_strlit("--extension");
    reveal_strlit("-e");
    reveal_strlit("--skill");
    reveal_strlit("--prompt-template");
    reveal_strlit("--theme");
    reveal_strlit("--transport");
    reveal_strlit("--list-models");
    reveal_strlit("@");
    reveal_strlit("-");
    reveal_strlit("--");
    let a = "@"@ + p;
    assert(a[0] == '@');
    assert(a != "--help"@) by {
        if a.len() == "--help"@.len() {
            assert(a[0] != "--help"@[0]);
        }
    }
    assert(a != "-h"@) by {
        if a.len() == "-h"@.len() {
            assert(a[0] != "-h"@[0]);
        }
    }
    assert(a != "--version"@) by {
        if a.len() == "--version"@.len() {
            assert(a[0] != "--version"@[0]);
        }
    }
    assert(a != "-v"@) by {
        if a.len() == "-v"@.len() {
            assert(a[0] != "-v"@[0]);
        }
    }
    assert(a != "--continue"@) by {
        if a.len() == "--continue"@.len() {
            assert(a[0] != "--continue"@[0]);
        }
    }
    assert(a != "-c"@) by {
        if a.len() == "-c"@.len() {
            assert(a[0] != "-c"@[0]);
        }
    }
    assert(a != "--resume"@) by {
        if a.len() == "--resume"@.len() {
            assert(a[0] != "--resume"@[0]);
        }
    }
    assert(a != "-r"@) by {
        if a.len() == "-r"@.len() {
            assert(a[0] != "-r"@[0]);
        }
    }
    assert(a != "--no-session"@) by {
        if a.len() == "--no-session"@.len() {
            assert(a[0] != "--no-session"@[0]);
        }
    }
    assert(a != "--no-tools"@) by {
        if a.len() == "--no-tools"@.len() {
            assert(a[0] != "--no-tools"@[0]);
        }
    }
    assert(a != "--print"@) by {
        if a.len() == "--print"@.len() {
            assert(a[0] != "--print"@[0]);
        }
    }
    assert(a != "-p"@) by {
        if a.len() == "-p"@.len() {
            assert(a[0] != "-p"@[0]);
        }
    }
    assert(a != "--no-extensions"@) by {
        if a.len() == "--no-extensions"@.len() {
            assert(a[0] != "--no-extensions"@[0]);
        }
    }
    assert(a != "--no-skills"@) by {
        if a.len() == "--no-skills"@.len() {
            assert(a[0] != "--no-skills"@[0]);
        }
    }
    assert(a != "--no-prompt-templates"@) by {
        if a.len() == "--no-prompt-templates"@.len() {
            assert(a[0] != "--no-prompt-templates"@[0]);
        }
    }
    assert(a != "--no-themes"@) by {
        if a.len() == "--no-themes"@.len() {
            assert(a[0] != "--no-themes"@[0]);
        }
    }
    assert(a != "--mode"@) by {
        if a.len() == "--mode"@.len() {
            assert(a[0] != "--mode"@[0]);
        }
    }
    assert(a != "--provider"@) by {
        if a.len() == "--provider"@.len() {
            assert(a[0] != "--provider"@[0]);
        }
    }
    assert(a != "--model"@) by {
        if a.len() == "--model"@.len() {
            assert(a[0] != "--model"@[0]);
        }
    }
    assert(a != "--api-key"@) by {
        if a.len() == "--api-key"@.len() {
            assert(a[0] != "--api-key"@[0]);
        }
    }
    assert(a != "--system-prompt"@) by {
        if a.len() == "--system-prompt"@.len() {
            assert(a[0] != "--system-prompt"@[0]);
        }
    }
    assert(a != "--append-system-prompt"@) by {
        if a.len() == "--append-system-prompt"@.len() {
            assert(a[0] != "--append-system-prompt"@[0]);
        }
    }
    assert(a != "--session"@) by {
        if a.len() == "--session"@.len() {
            assert(a[0] != "--session"@[0]);
        }
    }
    assert(a != "--fork"@) by {
        if a.len() == "--fork"@.len() {
            assert(a[0] != "--fork"@[0]);
        }
    }
    assert(a != "--session-dir"@) by {
        if a.len() == "--session-dir"@.len() {
            assert(a[0] != "--session-dir"@[0]);
        }
    }
    assert(a != "--models"@) by {
        if a.len() == "--models"@.len() {
            assert(a[0] != "--models"@[0]);
        }
    }
    assert(a != "--tools"@) by {
        if a.len() == "--tools"@.len() {
            assert(a[0] != "--tools"@[0]);
        }
    }
    assert(a != "--thinking"@) by {
        if a.len() == "--thinking"@.len() {
            assert(a[0] != "--thinking"@[0]);
        }
    }
    assert(a != "--export"@) by {
        if a.len() == "--export"@.len() {
            assert(a[0] != "--export"@[0]);
        }
    }
    assert(a != "--extension"@) by {
        if a.len() == "--extension"@.len() {
            assert(a[0] != "--extension"@[0]);
        }
    }
    assert(a != "-e"@) by {
        if a.len() == "-e"@.len() {
            assert(a[0] != "-e"@[0]);
        }
    }
    assert(a != "--skill"@) by {
        if a.len() == "--skill"@.len() {
            assert(a[0] != "--skill"@[0]);
        }
    }
    assert(a != "--prompt-template"@) by {
        if a.len() == "--prompt-template"@.len() {
            assert(a[0] != "--prompt-template"@[0]);
        }
    }
    assert(a != "--theme"@) by {
        if a.len() == "--theme"@.len() {
            assert(a[0] != "--theme"@[0]);
        }
    }
    assert(a != "--transport"@) by {
        if a.len() == "--transport"@.len() {
            assert(a[0] != "--transport"@[0]);
        }
    }
    assert(a != "--list-models"@) by {
        if a.len() == "--list-models"@.len() {
            assert(a[0] != "--list-models"@[0]);
        }
    }
    assert(seq![a][0] == a);
    assert(crate::text::has_prefix(a, "@"@)) by {
        assert(a.take(1) =~= "@"@);
    }
    assert(a.skip(1) =~= p);
    assert(parse_step(seq![a], 0, empty_args()).1 == 1);
    reveal_with_fuel(parse_from, 2);
    assert(empty_args().file_args.push(p) =~= seq![p]);
}

/// An argument that starts with neither `-` nor `@` is a message: alone it
/// is the one message and sets nothing else.
pub proof fn lemma_message_argument(p: Seq<char>)
    requires
        p.len() > 0,
        p[0] != '-' && p[0] != '@',
    ensures
        parsed_args(seq![p]) == (ArgsModel { messages: seq![p], ..empty_args() }),
{
    reveal_strlit("--help");
    reveal_strlit("-h");
    reveal_strlit("--version");
    reveal_strlit("-v");
    reveal_strlit("--continue");
    reveal_strlit("-c");
    reveal_strlit("--resume");
    reveal_strlit("-r");
    reveal_strlit("--no-session");
    reveal_strlit("--no-tools");
    reveal_strlit("--print");
    reveal_strlit("-p");
    reveal_strlit("--no-extensions");
    reveal_strlit("--no-skills");
    reveal_strlit("--no-prompt-templates");
    reveal_strlit("--no-themes");
    reveal_strlit("--mode");
    reveal_strlit("--provider");
    reveal_strlit("--model");
    reveal_strlit("--api-key");
    reveal_strlit("--system-prompt");
    reveal_strlit("--append-system-prompt");
    reveal_strlit("--session");
    reveal_strlit("--fork");
    reveal_strlit("--session-dir");
    reveal_strlit("--models");
    reveal_strlit("--tools");
    reveal_strlit("--thinking");
    reveal_strlit("--export");
    reveal_strlit("--extension");
    reveal_strlit("-e");
    reveal_strlit("--skill");
    reveal_strlit("--prompt-template");
    reveal_strlit("--theme");
    reveal_strlit("--transport");
    reveal_strlit("--list-models");
    reveal_strlit("@");
    reveal_strlit("-");
    reveal_strlit("--");
    assert(p != "--help"@) by {
        if p.len() == "--help"@.len() {
            assert(p[0] != "--help"@[0]);
        }
    }
    assert(p != "-h"@) by {
        if p.len() == "-h"@.len() {
            assert(p[0] != "-h"@[0]);
        }
    }
    assert(p != "--version"@) by {
        if p.len() == "--version"@.len() {
            assert(p[0] != "--version"@[0]);
        }
    }
    assert(p != "-v"@) by {
        if p.len() == "-v"@.len() {
            assert(p[0] != "-v"@[0]);
        }
    }
    assert(p != "--continue"@) by {
        if p.len() == "--continue"@.len() {
            assert(p[0] != "--continue"@[0]);
        }
    }
    assert(p != "-c"@) by {
        if p.len() == "-c"@.len() {
            assert(p[0] != "-c"@[0]);
        }
    }
    assert(p != "--resume"@) by {
        if p.len() == "--resume"@.len() {
            assert(p[0] != "--resume"@[0]);
        }
    }
    assert(p != "-r"@) by {
        if p.len() == "-r"@.len() {
            assert(p[0] != "-r"@[0]);
        }
    }
    assert(p != "--no-session"@) by {
        if p.len() == "--no-session"@.len() {
            assert(p[0] != "--no-session"@[0]);
        }
    }
    assert(p != "--no-tools"@) by {
        if p.len() == "--no-tools"@.len() {
            assert(p[0] != "--no-tools"@[0]);
        }
    }
    assert(p != "--print"@) by {
        if p.len() == "--print"@.len() {
            assert(p[0] != "--print"@[0]);
        }
    }
    assert(p != "-p"@) by {
        if p.len() == "-p"@.len() {
            assert(p[0] != "-p"@[0]);
        }
    }
    assert(p != "--no-extensions"@) by {
        if p.len() == "--no-extensions"@.len() {
            assert(p[0] != "--no-extensions"@[0]);
        }
    }
    assert(p != "--no-skills"@) by {
        if p.len() == "--no-skills"@.len() {
            assert(p[0] != "--no-skills"@[0]);
        }
    }
    assert(p != "--no-prompt-templates"@) by {
        if p.len() == "--no-prompt-templates"@.len() {
            assert(p[0] != "--no-prompt-templates"@[0]);
        }
    }
    assert(p != "--no-themes"@) by {
        if p.len() == "--no-themes"@.len() {
            assert(p[0] != "--no-themes"@[0]);
        }
    }
    assert(p != "--mode"@) by {
        if p.len() == "--mode"@.len() {
            assert(p[0] != "--mode"@[0]);
        }
    }
    assert(p != "--provider"@) by {
        if p.len() == "--provider"@.len() {
            assert(p[0] != "--provider"@[0]);
        }
    }
    assert(p != "--model"@) by {
        if p.len() == "--model"@.len() {
            assert(p[0] != "--model"@[0]);
        }
    }
    assert(p != "--api-key"@) by {
        if p.len() == "--api-key"@.len() {
            assert(p[0] != "--api-key"@[0]);
        }
    }
    assert(p != "--system-prompt"@) by {
        if p.len() == "--system-prompt"@.len() {
            assert(p[0] != "--system-prompt"@[0]);
        }
    }
    assert(p != "--append-system-prompt"@) by {
        if p.len() == "--append-system-prompt"@.len() {
            assert(p[0] != "--append-system-prompt"@[0]);
        }
    }
    assert(p != "--session"@) by {
        if p.len() == "--session"@.len() {
            assert(p[0] != "--session"@[0]);
        }
    }
    assert(p != "--fork"@) by {
        if p.len() == "--fork"@.len() {
            assert(p[0] != "--fork"@[0]);
        }
    }
    assert(p != "--session-dir"@) by {
        if p.len() == "--session-dir"@.len() {
            assert(p[0] != "--session-dir"@[0]);
        }
    }
    assert(p != "--models"@) by {
        if p.len() == "--models"@.len() {
            assert(p[0] != "--models"@[0]);
        }
    }
    assert(p != "--tools"@) by {
        if p.len() == "--tools"@.len() {
            assert(p[0] != "--tools"@[0]);
        }
    }
    assert(p != "--thinking"@) by {
        if p.len() == "--thinking"@.len() {
            assert(p[0] != "--thinking"@[0]);
        }
    }
    assert(p != "--export"@) by {
        if p.len() == "--export"@.len() {
            assert(p[0] != "--export"@[0]);
        }
    }
    assert(p != "--extension"@) by {
        if p.len() == "--extension"@.len() {
            assert(p[0] != "--extension"@[0]);
        }
    }
    assert(p != "-e"@) by {
        if p.len() == "-e"@.len() {
            assert(p[0] != "-e"@[0]);
        }
    }
    assert(p != "--skill"@) by {
        if p.len() == "--skill"@.len() {
            assert(p[0] != "--skill"@[0]);
        }
    }
    assert(p != "--prompt-template"@) by {
        if p.len() == "--prompt-template"@.len() {
            assert(p[0] != "--prompt-template"@[0]);
        }
    }
    assert(p != "--theme"@) by {
        if p.len() == "--theme"@.len() {
            assert(p[0] != "--theme"@[0]);
        }
    }
    assert(p != "--transport"@) by {
        if p.len() == "--transport"@.len() {
            assert(p[0] != "--transport"@[0]);
        }
    }
    assert(p != "--list-models"@) by {
        if p.len() == "--list-models"@.len() {
            assert(p[0] != "--list-models"@[0]);
        }
    }
    assert(seq![p][0] == p);
    assert(!crate::text::has_prefix(p, "@"@)) by {
        assert(p.take(1)[0] == p[0]);
    }
    assert(!crate::text::has_prefix(p, "-"@)) by {
        assert(p.take(1)[0] == p[0]);
    }
    assert(!crate::text::has_prefix(p, "--"@)) by {
        if p.len() >= 2 {
            assert(p.take(2)[0] == p[0]);
        }
    }
    assert(parse_step(seq![p], 0, empty_args()).1 == 1);
    reveal_with_fuel(parse_from, 2);
    assert(empty_args().messages.push(p) =~= seq![p]);
}

/// A long flag the program does not know is kept for extensions: alone, or
/// followed by something that is no flag value, it is set to true; followed
/// by a value (an argument that starts with neither `-` nor `@`) it takes
/// that value.
pub proof fn lemma_unknown_flag(name: Seq<char>, v: Seq<char>)
    requires
        switch_of("--"@ + name) is None,
        value_flag_of("--"@ + name) is None,
        "--"@ + name != "--list-models"@,
        crate::text::first_char_index("--"@ + name, '=') is None,
    ensures
        parsed_args(seq!["--"@ + name]) == (ArgsModel {
            unknown_flags: seq![(name, FlagValueModel::Bool(true))],
            ..empty_args()
        }),
        is_flag_value(v) ==> parsed_args(seq!["--"@ + name, v]) == (ArgsModel {
            unknown_flags: seq![(name, FlagValueModel::Str(v))],
            ..empty_args()
        }),
{
    reveal_strlit("--");
    reveal_strlit("@");
    let a = "--"@ + name;
    assert(a[0] == '-' && a[1] == '-');
    assert(!crate::text::has_prefix(a, "@"@)) by {
        assert(a.take(1)[0] == a[0]);
    }
    assert(crate::text::has_prefix(a, "--"@)) by {
        assert(a.take(2) =~= "--"@);
    }
    assert(a.skip(2) =~= name);
    assert(seq![a][0] == a);
    assert(seq![a, v][0] == a && seq![a, v][1] == v);
    assert(Seq::<(Seq<char>, FlagValueModel)>::empty().map_values(|e: (Seq<char>, FlagValueModel)| e.0)
        =~= Seq::<Seq<char>>::empty());
    assert(Seq::<(Seq<char>, FlagValueModel)>::empty().push((name, FlagValueModel::Bool(true))) =~= seq![
        (name, FlagValueModel::Bool(true)),
    ]);
    assert(Seq::<(Seq<char>, FlagValueModel)>::empty().push((name, FlagValueModel::Str(v))) =~= seq![
        (name, FlagValueModel::Str(v)),
    ]);
    assert(parse_step(seq![a], 0, empty_args()).1 == 1);
    if is_flag_value(v) {
        assert(parse_step(seq![a, v], 0, empty_args()).1 == 2);
    }
    reveal_with_fuel(parse_from, 2);
}

} // verus!
