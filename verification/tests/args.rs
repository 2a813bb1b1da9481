use pi_cli_core::args::{
    clone_args, parse_args, parse_thinking_level, resolve_app_mode, sanitize_interactive_follow_up_args,
    to_print_output_mode, unknown_flag, AppMode, Args, DiagnosticKind, ListModels, Mode, PrintOutputMode,
    ThinkingLevel, ToolName, UnknownFlagValue,
};

use pi_cli_core::messages::{build_initial_message, build_initial_user_message, UserPart};
use pi_cli_core::rpc::RpcImage;

fn parse(input: &[&str]) -> Args {
    parse_args(&input.iter().map(|value| value.to_string()).collect::<Vec<_>>())
}

#[test]
fn parses_common_print_mode_flags() {
    let args = parse(&[
        "--provider",
        "openai",
        "--model",
        "gpt-4o",
        "--api-key",
        "sk-test",
        "--system-prompt",
        "system",
        "--append-system-prompt",
        "suffix",
        "--thinking",
        "high",
        "--mode",
        "json",
        "--print",
        "@README.md",
        "summarize",
    ]);

    assert_eq!(args.provider.as_deref(), Some("openai"));
    assert_eq!(args.model.as_deref(), Some("gpt-4o"));
    assert_eq!(args.api_key.as_deref(), Some("sk-test"));
    assert_eq!(args.system_prompt.as_deref(), Some("system"));
    assert_eq!(args.append_system_prompt.as_deref(), Some("suffix"));
    assert_eq!(args.thinking, Some(ThinkingLevel::High));
    assert_eq!(args.mode, Some(Mode::Json));
    assert!(args.print);
    assert_eq!(args.file_args, vec![String::from("README.md")]);
    assert_eq!(args.messages, vec![String::from("summarize")]);
    assert!(args.diagnostics.is_empty());
}

#[test]
fn warns_for_invalid_thinking_level() {
    let args = parse(&["--thinking", "maximum"]);

    assert_eq!(args.thinking, None);
    assert_eq!(args.diagnostics.len(), 1);
    assert_eq!(args.diagnostics[0].kind, DiagnosticKind::Warning);
    assert!(args.diagnostics[0].message.contains("Invalid thinking level \"maximum\""));
}

#[test]
fn parses_tool_list_and_warns_for_unknown_tools() {
    let args = parse(&["--tools", "read,bash,unknown,ls"]);

    assert_eq!(args.tools, Some(vec![ToolName::Read, ToolName::Bash, ToolName::Ls]));
    assert_eq!(args.diagnostics.len(), 1);
    assert_eq!(args.diagnostics[0].kind, DiagnosticKind::Warning);
    assert!(args.diagnostics[0].message.contains("Unknown tool \"unknown\""));
}

#[test]
fn captures_unknown_long_flags_like_typescript_cli() {
    let args = parse(&["--plan", "fast", "--custom-flag=value", "--bool-flag"]);

    assert_eq!(
        unknown_flag(&args, "plan"),
        Some(&UnknownFlagValue::String(String::from("fast")))
    );
    assert_eq!(
        unknown_flag(&args, "custom-flag"),
        Some(&UnknownFlagValue::String(String::from("value")))
    );
    assert_eq!(unknown_flag(&args, "bool-flag"), Some(&UnknownFlagValue::Bool(true)));
    assert!(args.messages.is_empty());
}

#[test]
fn parses_list_models_with_optional_search_pattern() {
    let all = parse(&["--list-models"]);
    let search = parse(&["--list-models", "sonnet"]);

    assert_eq!(all.list_models, Some(ListModels::All));
    assert_eq!(search.list_models, Some(ListModels::Search(String::from("sonnet"))));
}

#[test]
fn resolves_app_modes_like_typescript_main() {
    let interactive = parse(&[]);
    let print = parse(&["--print"]);
    let json = parse(&["--mode", "json"]);
    let rpc = parse(&["--mode", "rpc"]);

    assert_eq!(resolve_app_mode(&interactive, true), AppMode::Interactive);
    assert_eq!(resolve_app_mode(&print, true), AppMode::Print);
    assert_eq!(resolve_app_mode(&json, true), AppMode::Json);
    assert_eq!(resolve_app_mode(&rpc, true), AppMode::Rpc);
    assert_eq!(resolve_app_mode(&interactive, false), AppMode::Print);
    assert_eq!(to_print_output_mode(AppMode::Print), Some(PrintOutputMode::Text));
    assert_eq!(to_print_output_mode(AppMode::Json), Some(PrintOutputMode::Json));
    assert_eq!(to_print_output_mode(AppMode::Interactive), None);
}

#[test]
fn parses_thinking_levels() {
    assert_eq!(parse_thinking_level("off"), Some(ThinkingLevel::Off));
    assert_eq!(parse_thinking_level("minimal"), Some(ThinkingLevel::Minimal));
    assert_eq!(parse_thinking_level("low"), Some(ThinkingLevel::Low));
    assert_eq!(parse_thinking_level("medium"), Some(ThinkingLevel::Medium));
    assert_eq!(parse_thinking_level("high"), Some(ThinkingLevel::High));
    assert_eq!(parse_thinking_level("xhigh"), Some(ThinkingLevel::XHigh));
    assert_eq!(parse_thinking_level("invalid"), None);
}

#[test]
fn later_value_of_an_unknown_flag_replaces_the_earlier_one() {
    let args = parse(&["--plan", "fast", "--plan=slow"]);
    assert_eq!(
        unknown_flag(&args, "plan"),
        Some(&UnknownFlagValue::String(String::from("slow")))
    );
    assert_eq!(args.unknown_flags.len(), 1);
}

#[test]
fn follow_up_iterations_drop_session_selection_and_initial_input() {
    let args = parse(&["--continue", "--resume", "--session", "a.jsonl", "--fork", "b.jsonl", "@x.md", "hello", "--model", "m"]);
    let next = sanitize_interactive_follow_up_args(&args);
    assert!(!next.continue_session);
    assert!(!next.resume);
    assert_eq!(next.session, None);
    assert_eq!(next.fork, None);
    assert!(next.messages.is_empty());
    assert!(next.file_args.is_empty());
    assert_eq!(next.model.as_deref(), Some("m"));
}

#[test]
fn copied_arguments_keep_every_value() {
    let args = parse(&["--tools", "read,nope", "--plan", "x", "--list-models", "s", "hi"]);
    let copy = clone_args(&args);
    assert_eq!(copy.tools, args.tools);
    assert_eq!(copy.list_models, args.list_models);
    assert_eq!(copy.unknown_flags, args.unknown_flags);
    assert_eq!(copy.diagnostics, args.diagnostics);
    assert_eq!(copy.messages, args.messages);
}

#[test]
fn rpc_mode_wins_over_print_flag() {
    let args = parse(&["--print", "--mode", "rpc"]);
    assert_eq!(resolve_app_mode(&args, true), AppMode::Rpc);
}

#[test]
fn build_initial_message_merges_stdin_file_text_and_first_message() {
    let mut messages = vec![String::from("Explain it"), String::from("Second message")];
    let result = build_initial_message::<RpcImage>(
        &mut messages,
        Some(String::from("file\n")),
        Vec::new(),
        Some(String::from("stdin\n")),
    );

    assert_eq!(result.initial_message.as_deref(), Some("stdin\nfile\nExplain it"));
    assert_eq!(messages, vec![String::from("Second message")]);
    assert!(result.initial_images.is_none());
}

#[test]
fn build_initial_message_returns_images_when_present() {
    let mut messages = Vec::new();
    let result = build_initial_message(
        &mut messages,
        None,
        vec![RpcImage { data: String::from("abc"), mime_type: String::from("image/png") }],
        Some(String::from("stdin")),
    );

    assert_eq!(result.initial_message.as_deref(), Some("stdin"));
    assert_eq!(result.initial_images.as_ref().map(Vec::len), Some(1));
}

#[test]
fn build_initial_message_is_empty_without_input() {
    let mut messages: Vec<String> = Vec::new();
    let result = build_initial_message::<RpcImage>(&mut messages, None, Vec::new(), None);
    assert_eq!(result.initial_message, None);
    assert!(result.initial_images.is_none());
}

#[test]
fn initial_user_message_puts_text_before_images() {
    let mut messages = vec![String::from("look")];
    let initial = build_initial_message(
        &mut messages,
        None,
        vec![
            RpcImage { data: String::from("a"), mime_type: String::from("image/png") },
            RpcImage { data: String::from("b"), mime_type: String::from("image/jpeg") },
        ],
        None,
    );
    let parts = build_initial_user_message(initial).expect("a message");
    assert_eq!(parts.len(), 3);
    assert!(matches!(&parts[0], UserPart::Text(t) if t == "look"));
    assert!(matches!(&parts[1], UserPart::Image(i) if i.data == "a"));
    assert!(matches!(&parts[2], UserPart::Image(i) if i.data == "b"));
    let mut none: Vec<String> = Vec::new();
    let empty = build_initial_message::<RpcImage>(&mut none, None, Vec::new(), None);
    assert!(build_initial_user_message(empty).is_none());
}
