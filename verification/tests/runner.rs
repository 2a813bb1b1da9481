use pi_cli_core::rpc::rpc_input_lines;
use pi_cli_core::transition::{new_session_plan, resume_transition_message, session_data_refusal, NewSessionBase};
use pi_cli_core::args::{parse_args, AppMode, ThinkingLevel};
use pi_cli_core::keys::{capitalize_key_id, format_key_ids, render_hotkeys_text, HotkeyEntry};
use pi_cli_core::messages::{
    finalize_system_prompt, normalize_stdin_content, render_help, render_no_models_message,
    render_parse_diagnostics, render_scope_warnings, render_extension_diagnostics, render_settings_warnings,
    unsupported_app_mode_message, unsupported_flag_message, RunCommandResult,
};
use pi_cli_core::paths::{resolve_export_target, resolve_path_from_cwd, resolve_session_path, ExportFormat};
use pi_cli_core::run_plan::{
    api_key_provider, rpc_file_args_refusal, session_preparation_end, SessionPreparation, export_result, interactive_entry, run_command_preflight, session_dir_override, session_source,
    shows_resume_picker, InteractiveEntry, RunPlan, SessionSourceOf,
};
use pi_cli_core::scoped_models::scope_patterns;
use pi_cli_core::share::{parse_gist_id, parse_shared_session_links, share_viewer_url, shared_session_links_from_text};
use pi_cli_core::slash::{
    build_interactive_slash_commands, check_slash_command, check_transition, classify_submission,
    cycle_model_index, model_cycle_status_message, parse_slash_command, slash_outcome_message, slash_transition,
    SlashCommandOf, SlashFacts, SlashOutcome, SubmissionOf, TransitionKind,
};
use pi_cli_core::session_stats::{render_session_info_text, tally_session_messages, SessionMessage};
use pi_cli_core::changelog::render_changelog_text;
use pi_cli_core::text::push_line;
use pi_cli_core::thinking::{clamp_thinking_level, next_thinking_level, thinking_level_label};

fn args(input: &[&str]) -> pi_cli_core::args::Args {
    parse_args(&input.iter().map(|v| v.to_string()).collect::<Vec<_>>())
}

#[test]
fn parse_shared_session_links_builds_share_viewer_url() {
    let links = parse_shared_session_links(b"https://gist.github.com/badlogic/abc123\n", None)
        .expect("expected gist links");

    assert_eq!(links.gist_url, "https://gist.github.com/badlogic/abc123");
    assert_eq!(links.preview_url, "https://pi.dev/session/#abc123");
}

#[test]
fn interactive_slash_command_catalog_includes_remaining_builtin_commands() {
    let commands = build_interactive_slash_commands(&Vec::new(), &Vec::new())
        .into_iter()
        .map(|command| command.name)
        .collect::<Vec<_>>();

    for command in [
        "settings",
        "model",
        "scoped-models",
        "export",
        "share",
        "copy",
        "name",
        "session",
        "changelog",
        "hotkeys",
        "fork",
        "tree",
        "login",
        "logout",
        "new",
        "compact",
        "resume",
        "reload",
        "quit",
    ] {
        assert!(commands.iter().any(|current| current == command), "missing command {command}: {commands:?}");
    }
}

#[test]
fn slash_menu_lists_templates_and_skills_after_builtins() {
    let templates = vec![(String::from("review"), String::new()), (String::from("fix"), String::from("Fix it"))];
    let skills = vec![(String::from("web"), String::from("Browse"))];
    let menu = build_interactive_slash_commands(&templates, &skills);
    assert_eq!(menu.len(), 22);
    assert_eq!(menu[19].name, "review");
    assert_eq!(menu[19].description, None);
    assert_eq!(menu[20].description.as_deref(), Some("Fix it"));
    assert_eq!(menu[21].name, "skill:web");
    assert!(menu[1].completes_arguments);
    assert!(!menu[0].completes_arguments);
}

#[test]
fn share_links_use_configured_viewer_unless_blank() {
    let links = parse_shared_session_links(b"\n  https://gist.github.com/u/xyz/ \n", Some("https://viewer.example/"))
        .expect("links");
    assert_eq!(links.gist_url, "https://gist.github.com/u/xyz/");
    assert_eq!(links.preview_url, "https://viewer.example/#xyz");
    assert_eq!(share_viewer_url("id1", Some("   ")), "https://pi.dev/session/#id1");
}

#[test]
fn share_links_fail_without_a_gist_address() {
    assert_eq!(
        parse_shared_session_links(b"  \n\n", None).err().as_deref(),
        Some("Failed to parse gist URL from gh output")
    );
    assert!(shared_session_links_from_text("///\n", None).is_err());
}

#[test]
fn gist_id_is_the_last_path_segment() {
    assert_eq!(parse_gist_id(" https://gist.github.com/a/b// ").as_deref(), Some("b"));
    assert_eq!(parse_gist_id("plain").as_deref(), Some("plain"));
    assert_eq!(parse_gist_id("").as_deref(), Some(""));
}

#[test]
fn slash_commands_are_parsed_with_trimmed_arguments() {
    assert!(matches!(parse_slash_command("/quit"), Some(SlashCommandOf::Quit)));
    assert!(matches!(parse_slash_command("/tree"), Some(SlashCommandOf::Tree { target: None })));
    match parse_slash_command("/tree   entry-7  ") {
        Some(SlashCommandOf::Tree { target: Some(t) }) => assert_eq!(t, "entry-7"),
        _ => panic!("expected tree target"),
    }
    match parse_slash_command("/scoped-models son") {
        Some(SlashCommandOf::ScopedModels { search: Some(s) }) => assert_eq!(s, "son"),
        _ => panic!("expected search"),
    }
    assert!(parse_slash_command("/models").is_none());
    assert!(parse_slash_command("/quitx").is_none());
    assert!(matches!(parse_slash_command("/model"), Some(SlashCommandOf::Model { search: None })));
}

#[test]
fn submissions_are_classified_in_order() {
    assert!(matches!(classify_submission("   "), SubmissionOf::Ignore));
    assert!(matches!(classify_submission(" /new "), SubmissionOf::Slash(SlashCommandOf::New)));
    match classify_submission("!! ls -la ") {
        SubmissionOf::Bash { command, excluded } => {
            assert_eq!(command, "ls -la");
            assert!(excluded);
        }
        _ => panic!("expected bash"),
    }
    match classify_submission("!pwd") {
        SubmissionOf::Bash { command, excluded } => {
            assert_eq!(command, "pwd");
            assert!(!excluded);
        }
        _ => panic!("expected bash"),
    }
    match classify_submission("!!") {
        SubmissionOf::Bash { command, excluded } => {
            assert_eq!(command, "!");
            assert!(!excluded);
        }
        _ => panic!("expected bash"),
    }
    assert!(matches!(classify_submission("!"), SubmissionOf::Prompt));
    assert!(matches!(classify_submission("hello /new"), SubmissionOf::Prompt));
}

fn facts() -> SlashFacts {
    SlashFacts {
        is_streaming: false,
        has_session: true,
        has_fork_candidates: true,
        has_session_entries: true,
        has_available_models: true,
        has_assistant_text: true,
        has_session_name: false,
        auth_in_progress: false,
        has_agent_dir: true,
        has_oauth_providers: true,
        oauth_provider_known: true,
    }
}

#[test]
fn slash_commands_are_refused_with_the_matching_status() {
    let streaming = SlashFacts { is_streaming: true, ..facts() };
    assert_eq!(
        check_transition(TransitionKind::NewSession, &streaming).as_deref(),
        Some("Session switching while a request is running is not supported in the Rust interactive CLI yet.")
    );
    let no_session = SlashFacts { has_session: false, ..facts() };
    assert_eq!(
        check_slash_command(&parse_slash_command("/tree").unwrap(), &no_session).as_deref(),
        Some("Session tree is not available in this interactive mode.")
    );
    assert_eq!(
        check_slash_command(&parse_slash_command("/fork").unwrap(), &no_session).as_deref(),
        Some("No messages to fork from")
    );
    assert_eq!(
        check_slash_command(&parse_slash_command("/name").unwrap(), &facts()).as_deref(),
        Some("Usage: /name <name>")
    );
    let unknown = SlashFacts { oauth_provider_known: false, ..facts() };
    assert_eq!(
        check_slash_command(&parse_slash_command("/login acme").unwrap(), &unknown).as_deref(),
        Some("Unknown OAuth provider: acme")
    );
    assert_eq!(check_slash_command(&parse_slash_command("/export").unwrap(), &facts()), None);
    let no_entries = SlashFacts { has_session_entries: false, ..facts() };
    assert_eq!(
        check_slash_command(&parse_slash_command("/tree").unwrap(), &no_entries).as_deref(),
        Some("No entries in session")
    );
    assert_eq!(check_slash_command(&parse_slash_command("/tree abc").unwrap(), &no_entries), None);
}

#[test]
fn model_cycling_wraps_both_ways() {
    assert_eq!(cycle_model_index(Some(2), 3, false), Some(0));
    assert_eq!(cycle_model_index(Some(0), 3, true), Some(2));
    assert_eq!(cycle_model_index(None, 3, false), Some(1));
    assert_eq!(cycle_model_index(Some(0), 1, false), None);
    assert_eq!(
        model_cycle_status_message(Some(("", "gpt-x", true, ThinkingLevel::High)), false),
        "Switched to gpt-x (thinking: high)"
    );
    assert_eq!(model_cycle_status_message(Some(("Nice", "id", true, ThinkingLevel::Off)), false), "Switched to Nice");
    assert_eq!(model_cycle_status_message(None, true), "Only one model in scope");
    assert_eq!(model_cycle_status_message(None, false), "Only one model available");
}

#[test]
fn thinking_levels_cycle_and_clamp() {
    assert_eq!(next_thinking_level(ThinkingLevel::High, true, false), Some(ThinkingLevel::Off));
    assert_eq!(next_thinking_level(ThinkingLevel::High, true, true), Some(ThinkingLevel::XHigh));
    assert_eq!(next_thinking_level(ThinkingLevel::XHigh, true, false), Some(ThinkingLevel::Minimal));
    assert_eq!(next_thinking_level(ThinkingLevel::Low, false, true), None);
    assert_eq!(clamp_thinking_level(ThinkingLevel::XHigh, true, false), ThinkingLevel::High);
    assert_eq!(clamp_thinking_level(ThinkingLevel::Low, false, true), ThinkingLevel::Off);
    assert_eq!(thinking_level_label(ThinkingLevel::Minimal), "minimal");
}

#[test]
fn key_ids_are_written_for_people() {
    assert_eq!(capitalize_key_id("ctrl+shift+p"), "Ctrl+Shift+P");
    assert_eq!(capitalize_key_id("alt+enter/pageUp"), "Alt+Enter/PageUp");
    assert_eq!(capitalize_key_id("f5"), "F5");
    assert_eq!(capitalize_key_id(""), "");
    assert_eq!(format_key_ids(&vec![String::from("escape"), String::from("ctrl+c")]), "Escape / Ctrl+C");
    assert_eq!(format_key_ids(&Vec::new()), "(unbound)");
}

#[test]
fn hotkeys_are_listed_by_section() {
    let entries = vec![
        HotkeyEntry { id: String::from("tui.editor.cursorLeft"), keys: vec![String::from("left")], description: Some(String::from("Move left")) },
        HotkeyEntry { id: String::from("tui.editor.cursorRight"), keys: vec![], description: None },
        HotkeyEntry { id: String::from("app.scopedModels.save"), keys: vec![String::from("ctrl+s")], description: None },
        HotkeyEntry { id: String::from("app.interrupt"), keys: vec![String::from("escape")], description: Some(String::from("Interrupt")) },
    ];
    assert_eq!(
        render_hotkeys_text(&entries),
        "Keyboard Shortcuts\n\nEditor\nLeft: Move left\n(unbound): tui.editor.cursorRight\n\nApplication\nEscape: Interrupt"
    );
}

#[test]
fn paths_are_resolved_against_the_working_directory() {
    assert_eq!(resolve_session_path("/work", "s.jsonl"), "/work/s.jsonl");
    assert_eq!(resolve_session_path("/work/", "s.jsonl"), "/work/s.jsonl");
    assert_eq!(resolve_session_path("/work", "/abs/s.jsonl"), "/abs/s.jsonl");
    assert_eq!(resolve_path_from_cwd("", "rel"), "rel");
    assert_eq!(resolve_export_target("/w", "session.html", None), (String::from("/w/session.html"), ExportFormat::Html));
    assert_eq!(resolve_export_target("/w", "session.html", Some("  ")), (String::from("/w/session.html"), ExportFormat::Html));
    assert_eq!(resolve_export_target("/w", "session.html", Some("out.jsonl")), (String::from("/w/out.jsonl"), ExportFormat::Jsonl));
    assert_eq!(resolve_export_target("/w", "session.html", Some("/tmp/o.html")), (String::from("/tmp/o.html"), ExportFormat::Html));
}

#[test]
fn diagnostics_and_warnings_render_one_line_each() {
    let parsed = args(&["--thinking", "maximum", "--tools", "bad"]);
    let text = render_parse_diagnostics(&parsed.diagnostics);
    assert_eq!(text.lines().count(), 2);
    assert!(text.starts_with("Warning: "));
    assert!(text.ends_with('\n'));
    assert_eq!(render_scope_warnings(&vec![String::from("a"), String::from("b")]), "Warning: a\nWarning: b\n");
    assert_eq!(
        render_extension_diagnostics(&vec![(String::from("error"), String::from("x")), (String::from("info"), String::from("y"))]),
        "Error: x\nWarning: y\n"
    );
    assert_eq!(
        render_settings_warnings(&vec![(String::from("global"), String::from("bad key"))]),
        "Warning: (global settings) bad key\n"
    );
}

#[test]
fn no_models_message_mentions_the_models_file() {
    assert_eq!(
        render_no_models_message(None),
        "No models available.\n\nSet an API key environment variable:\n  ANTHROPIC_API_KEY, OPENAI_API_KEY, GEMINI_API_KEY, etc.\n"
    );
    assert!(render_no_models_message(Some("/a/models.json")).ends_with("\nOr create /a/models.json\n"));
}

#[test]
fn small_messages_match_their_texts() {
    assert_eq!(finalize_system_prompt("Be brief"), "\0pi-final-system-prompt\nBe brief");
    assert_eq!(unsupported_app_mode_message(AppMode::Interactive), "Interactive mode is not supported in the Rust CLI yet");
    assert_eq!(unsupported_app_mode_message(AppMode::Print), "");
    assert_eq!(unsupported_flag_message(&args(&[])), None);
    assert_eq!(normalize_stdin_content(false, Some(String::from("  hi \n"))), Some(String::from("hi")));
    assert_eq!(normalize_stdin_content(false, Some(String::from(" \n "))), None);
    assert_eq!(normalize_stdin_content(true, Some(String::from("hi"))), None);
    let help = render_help();
    assert!(help.starts_with("pi Rust CLI migration\n\nSupported today:"));
    assert!(help.ends_with("  - @file arguments are rejected"));
    let mut buffer = String::from("a");
    push_line(&mut buffer, "b");
    assert_eq!(buffer, "ab\n");
}

#[test]
fn preflight_answers_from_the_arguments_alone() {
    match run_command_preflight(&args(&["--version"]), "1.2.3", true) {
        RunPlan::Finish(RunCommandResult { exit_code, stdout, stderr }) => {
            assert_eq!(exit_code, 0);
            assert_eq!(stdout, "1.2.3\n");
            assert_eq!(stderr, "");
        }
        _ => panic!("expected finish"),
    }
    match run_command_preflight(&args(&["--export", "s.jsonl", "@f", "x"]), "v", true) {
        RunPlan::Finish(result) => {
            assert_eq!(result.exit_code, 1);
            assert_eq!(result.stderr, "--export does not accept @file arguments\n");
        }
        _ => panic!("expected finish"),
    }
    match run_command_preflight(&args(&["--export", "s.jsonl", "out.html"]), "v", true) {
        RunPlan::ExportSession { session_path, output_path, .. } => {
            assert_eq!(session_path, "s.jsonl");
            assert_eq!(output_path.as_deref(), Some("out.html"));
        }
        _ => panic!("expected export"),
    }
    match run_command_preflight(&args(&[]), "v", true) {
        RunPlan::Finish(result) => {
            assert_eq!(result.exit_code, 1);
            assert_eq!(result.stderr, "Interactive mode is not supported in the Rust CLI yet\n");
        }
        _ => panic!("expected finish"),
    }
    assert!(matches!(run_command_preflight(&args(&["--mode", "rpc"]), "v", true), RunPlan::Run { mode: AppMode::Rpc, .. }));
    assert!(matches!(run_command_preflight(&args(&["--list-models"]), "v", true), RunPlan::ListModels { search: None, .. }));
}

#[test]
fn export_results_become_run_results() {
    let ok = export_result(Ok(String::from("/w/out.html")), String::from("w\n"));
    assert_eq!((ok.exit_code, ok.stdout.as_str(), ok.stderr.as_str()), (0, "/w/out.html\n", "w\n"));
    let err = export_result(Err(String::from("boom")), String::new());
    assert_eq!((err.exit_code, err.stdout.as_str(), err.stderr.as_str()), (1, "", "Error: boom\n"));
}

#[test]
fn interactive_runs_start_as_the_arguments_ask() {
    assert_eq!(interactive_entry(&args(&["--resume"]), true), InteractiveEntry::Interactive { show_resume_picker: true });
    assert_eq!(interactive_entry(&args(&["--resume", "--continue"]), true), InteractiveEntry::Interactive { show_resume_picker: false });
    assert_eq!(interactive_entry(&args(&["--help"]), true), InteractiveEntry::Delegate);
    assert_eq!(interactive_entry(&args(&[]), false), InteractiveEntry::Delegate);
    assert!(shows_resume_picker(&args(&["--resume", "--continue"])));
    assert!(!shows_resume_picker(&args(&["--resume", "--no-session"])));
}

#[test]
fn session_source_follows_the_flags() {
    assert!(matches!(session_source(&args(&[]), "/w", false, None), SessionSourceOf::Unmanaged));
    assert!(matches!(session_source(&args(&[]), "/w", true, None), SessionSourceOf::Create));
    match session_source(&args(&["--session", "a.jsonl", "--fork", "b"]), "/w", false, None) {
        SessionSourceOf::Open(p) => assert_eq!(p, "/w/a.jsonl"),
        _ => panic!("expected open"),
    }
    match session_source(&args(&["--no-session"]), "/w", false, Some("/r.jsonl")) {
        SessionSourceOf::Open(p) => assert_eq!(p, "/r.jsonl"),
        _ => panic!("expected open"),
    }
    assert!(matches!(session_source(&args(&["--no-session"]), "/w", false, None), SessionSourceOf::InMemory));
    assert!(matches!(session_source(&args(&["--continue"]), "/w", false, None), SessionSourceOf::ContinueRecent));
    assert_eq!(session_dir_override(&args(&["--session-dir", "s"]), "/w").as_deref(), Some("/w/s"));
}

use pi_cli_core::messages::resolve_system_prompt;

#[test]
fn resolve_system_prompt_returns_finalized_prompts_without_reapplying_args() {
    let finalized = finalize_system_prompt("final prompt");
    let resolved = resolve_system_prompt(&finalized, Some("override"), Some("append"));

    assert_eq!(resolved, "final prompt");
}

#[test]
fn system_prompt_appends_after_a_blank_line() {
    assert_eq!(resolve_system_prompt("default", None, Some("more")), "default\n\nmore");
    assert_eq!(resolve_system_prompt("default", Some("own"), None), "own");
    assert_eq!(resolve_system_prompt("default", Some(""), Some("more")), "more");
}

#[test]
fn api_key_goes_to_the_provider_the_flags_name() {
    let requirement = "--api-key requires a model to be specified via --model, --provider/--model, or --models";
    assert_eq!(api_key_provider(&args(&["-p", "hi"]), Some("acme"), None), Ok(None));
    assert_eq!(api_key_provider(&args(&["--api-key", "k"]), Some("acme"), None), Ok(Some(String::from("acme"))));
    assert_eq!(api_key_provider(&args(&["--api-key", "k"]), None, None), Err(String::from(requirement)));
    let with_model = args(&["--api-key", "k", "--provider", "other", "--model", "m"]);
    assert_eq!(api_key_provider(&with_model, Some("acme"), Some("resolved")), Ok(Some(String::from("resolved"))));
    assert_eq!(api_key_provider(&with_model, Some("acme"), None), Ok(Some(String::from("other"))));
    assert_eq!(
        api_key_provider(&args(&["--api-key", "k", "--model", "m"]), None, None),
        Err(String::from(requirement))
    );
}

#[test]
fn scope_comes_from_flags_then_settings() {
    let flags = vec![String::from("acme/*")];
    let settings = vec![String::from("other/big")];
    let empty: Vec<String> = vec![];
    assert_eq!(scope_patterns(Some(&flags), Some(&settings)), Some(&flags));
    assert_eq!(scope_patterns(None, Some(&settings)), Some(&settings));
    assert_eq!(scope_patterns(None, Some(&empty)), None);
    assert_eq!(scope_patterns(None, None), None);
}

/// The transition a slash command asks for where it may run.
fn requested(text: &str, f: &SlashFacts) -> Option<TransitionKind> {
    let command = parse_slash_command(text).expect("a built-in command");
    assert_eq!(check_slash_command(&command, f), None);
    slash_transition(&command)
}

#[test]
fn settings_and_scoped_models_slash_commands_request_transitions() {
    let f = SlashFacts { has_session: false, ..facts() };
    assert_eq!(requested("/settings", &f), Some(TransitionKind::SettingsPicker));
    match parse_slash_command("/scoped-models beta") {
        Some(SlashCommandOf::ScopedModels { search }) => assert_eq!(search.as_deref(), Some("beta")),
        _ => panic!("expected /scoped-models"),
    }
    assert_eq!(requested("/scoped-models beta", &f), Some(TransitionKind::ScopedModelsPicker));
}

#[test]
fn login_slash_command_requests_oauth_picker_transition() {
    let f = SlashFacts { has_session: false, ..facts() };
    assert_eq!(requested("/login", &f), Some(TransitionKind::OAuthLogin));
}

#[test]
fn logout_slash_command_requests_oauth_picker_transition() {
    let f = SlashFacts { has_session: false, ..facts() };
    assert_eq!(requested("/logout", &f), Some(TransitionKind::OAuthLogout));
}

#[test]
fn reload_slash_command_requests_reload_transition() {
    let f = SlashFacts { has_session: false, ..facts() };
    assert_eq!(requested("/reload", &f), Some(TransitionKind::Reload));
}

#[test]
fn tree_slash_command_requests_tree_picker_transition() {
    assert_eq!(requested("/tree", &facts()), Some(TransitionKind::TreePicker));
    match parse_slash_command("/tree abc") {
        Some(command) => assert_eq!(slash_transition(&command), None),
        None => panic!("expected /tree"),
    }
}

#[test]
fn slash_commands_render_hotkeys_and_changelog() {
    for text in ["/hotkeys", "/changelog"] {
        let command = parse_slash_command(text).expect("a built-in command");
        assert_eq!(check_slash_command(&command, &facts()), None);
        assert_eq!(slash_transition(&command), None);
    }
    let hotkeys = render_hotkeys_text(&vec![HotkeyEntry {
        id: String::from("app.interrupt"),
        keys: vec![String::from("escape")],
        description: Some(String::from("Interrupt")),
    }]);
    assert!(hotkeys.contains("Keyboard Shortcuts"), "output: {hotkeys}");
    let changelog = render_changelog_text("# Changelog\n\n## [Unreleased]\n\n- next\n\n## [0.1.0]\n\n- first\n");
    assert!(changelog.contains("## ["), "output: {changelog}");
}

#[test]
fn slash_commands_name_and_session_update_transcript_and_session_metadata() {
    let name = match parse_slash_command("/name demo") {
        Some(SlashCommandOf::Name { name: Some(name) }) => name,
        _ => panic!("expected /name with a name"),
    };
    assert_eq!(check_slash_command(&parse_slash_command("/name demo").unwrap(), &facts()), None);
    assert_eq!(slash_outcome_message(&SlashOutcome::NameSet(Ok(name.clone()))), "Session name set: demo");
    let session = parse_slash_command("/session").expect("a built-in command");
    assert!(matches!(session, SlashCommandOf::Session));
    let tally = tally_session_messages(&vec![SessionMessage::User]);
    let info = render_session_info_text(&tally, Some(name.as_str()), None, Some("s-1"), None);
    assert!(info.contains("Session Info"), "output: {info}");
    assert!(info.contains("Name: demo"), "output: {info}");
}

#[test]
fn rpc_mode_refuses_file_arguments() {
    assert_eq!(
        rpc_file_args_refusal(&args(&["--mode", "rpc", "@notes.md"])).as_deref(),
        Some("Error: @file arguments are not supported in RPC mode\n")
    );
    assert_eq!(rpc_file_args_refusal(&args(&["--mode", "rpc"])), None);
}

#[test]
fn a_closed_resume_picker_ends_the_run_quietly() {
    let end = session_preparation_end(&SessionPreparation::Cancelled, String::new(), String::from("w\n")).unwrap();
    assert_eq!((end.exit_code, end.stdout.as_str(), end.stderr.as_str()), (0, "No session selected\n", "w\n"));
    let end = session_preparation_end(&SessionPreparation::Failed(String::from("bad path")), String::new(), String::new())
        .unwrap();
    assert_eq!((end.exit_code, end.stdout.as_str(), end.stderr.as_str()), (1, "", "Error: bad path\n"));
    assert!(session_preparation_end(&SessionPreparation::Ready, String::new(), String::new()).is_none());
}

#[test]
fn transitions_without_session_data_are_refused() {
    for kind in [
        TransitionKind::ForkPicker,
        TransitionKind::TreePicker,
        TransitionKind::SettingsPicker,
        TransitionKind::ScopedModelsPicker,
        TransitionKind::Reload,
    ] {
        assert_eq!(session_data_refusal(kind, false), Some("Session data unavailable"));
        assert_eq!(session_data_refusal(kind, true), None);
    }
    assert_eq!(session_data_refusal(TransitionKind::NewSession, false), None);
    assert_eq!(session_data_refusal(TransitionKind::OAuthLogin, false), None);
    assert_eq!(new_session_plan(true), (NewSessionBase::FromRunningSession, "New session started"));
    assert_eq!(new_session_plan(false), (NewSessionBase::InMemory, "New session started"));
    assert_eq!(resume_transition_message(true), Some("Resumed session"));
    assert_eq!(resume_transition_message(false), None);
}

#[test]
fn buffered_rpc_input_is_split_into_trimmed_lines() {
    assert_eq!(
        rpc_input_lines("  {\"type\":\"abort\"}  \r\n\n   \n{\"type\":\"get_state\"}"),
        vec![String::from("{\"type\":\"abort\"}"), String::from("{\"type\":\"get_state\"}")]
    );
    assert!(rpc_input_lines("").is_empty());
}
