use pi_cli_core::args::parse_args;
use pi_cli_core::messages::normalize_stdin_content;
use pi_cli_core::rpc::{
    read_rpc_line, rpc_parse_failure_response, rpc_response_line, JsonValue, RpcCommandOf, RpcRequestOf,
};
use pi_cli_core::settings_file::{settings_file_text, settings_object_from_text};
use pi_cli_core::run_plan::rpc_file_args_end;
use pi_cli_core::session_picker::{SessionPickerComponent, SessionPickerKey, SessionPickerOutcome, SessionSummary};
use pi_cli_core::slash::{slash_outcome_message, tree_switch_of, SlashOutcome, TreeSwitch};
use pi_cli_core::tree_picker::{TreePickerComponent, TreePickerItem};

fn strings(v: &[&str]) -> Vec<String> {
    v.iter().map(|s| s.to_string()).collect()
}

fn member(value: &JsonValue, key: &str) -> Option<String> {
    match value {
        JsonValue::Object(ms) => ms.iter().find(|(k, _)| k == key).map(|(_, v)| match v {
            JsonValue::Str(s) => s.clone(),
            JsonValue::Bool(b) => b.to_string(),
            _ => String::from("?"),
        }),
        _ => None,
    }
}

#[test]
fn run_command_rpc_mode_rejects_file_arguments() {
    let parsed = parse_args(&strings(&["--mode", "rpc", "@README.md"]));
    let result = rpc_file_args_end(&parsed).expect("an RPC run with @file arguments ends");
    assert_eq!(result.exit_code, 1);
    assert!(result.stdout.is_empty(), "stdout: {}", result.stdout);
    assert!(result.stderr.contains("@file arguments are not supported in RPC mode"), "stderr: {}", result.stderr);
}

#[test]
fn rpc_runs_without_file_arguments_go_on() {
    assert!(rpc_file_args_end(&parse_args(&strings(&["--mode", "rpc"]))).is_none());
}

#[test]
fn a_line_that_is_not_json_gets_a_parse_failure() {
    let response = rpc_parse_failure_response("expected value at line 1 column 1");
    assert_eq!(member(&response, "type").as_deref(), Some("response"));
    assert_eq!(member(&response, "command").as_deref(), Some("parse"));
    assert_eq!(member(&response, "success").as_deref(), Some("false"));
    assert_eq!(
        member(&response, "error").as_deref(),
        Some("Failed to parse command: expected value at line 1 column 1")
    );
    assert!(member(&response, "id").is_none());
}

#[test]
fn tree_targets_name_the_root_in_any_case() {
    assert_eq!(tree_switch_of("root"), TreeSwitch::ToRoot);
    assert_eq!(tree_switch_of("ROOT"), TreeSwitch::ToRoot);
    assert_eq!(tree_switch_of("Root"), TreeSwitch::ToRoot);
    assert_eq!(tree_switch_of("roots"), TreeSwitch::ToEntry(String::from("roots")));
    assert_eq!(tree_switch_of("abc123"), TreeSwitch::ToEntry(String::from("abc123")));
}

#[test]
fn tree_switches_report_where_the_session_ends() {
    assert_eq!(
        slash_outcome_message(&SlashOutcome::TreeSwitched(Ok((Some(String::from("e42")), None)))),
        "Switched to e42"
    );
    assert_eq!(slash_outcome_message(&SlashOutcome::TreeSwitched(Ok((None, None)))), "Switched to root");
    assert_eq!(
        slash_outcome_message(&SlashOutcome::TreeSwitched(Ok((
            Some(String::from("e7")),
            Some(String::from("Model p/m not found; using q/n"))
        )))),
        "Switched to e7. Model p/m not found; using q/n"
    );
    assert_eq!(
        slash_outcome_message(&SlashOutcome::TreeSwitched(Err(String::from("Entry zz not found")))),
        "Error: Entry zz not found"
    );
}

#[test]
fn tree_picker_filters_by_search_text() {
    let items = vec![
        TreePickerItem { entry_id: String::from("a"), display: String::from("A"), search_text: String::from("alpha") },
        TreePickerItem { entry_id: String::from("b"), display: String::from("B"), search_text: String::from("beta") },
    ];
    let picker = TreePickerComponent::new(items, None);
    assert_eq!(picker.filter_candidates(), strings(&["alpha", "beta"]));
}

#[test]
fn rpc_lines_are_read_as_json_commands() {
    match read_rpc_line("{\"type\":\"prompt\",\"id\":\"r1\",\"message\":\"hi\"}") {
        Ok(RpcRequestOf::Command { id, command: RpcCommandOf::Prompt { message, .. } }) => {
            assert_eq!(id.as_deref(), Some("r1"));
            assert_eq!(message, "hi");
        }
        _ => panic!("expected a prompt"),
    }
    match read_rpc_line("[1]") {
        Ok(RpcRequestOf::Rejected { id, command, message }) => {
            assert_eq!(id, None);
            assert_eq!(command, "parse");
            assert_eq!(message, "RPC command must be a JSON object");
        }
        _ => panic!("expected a rejection"),
    }
}

#[test]
fn rpc_lines_that_are_not_json_get_the_reader_error() {
    match read_rpc_line("not json") {
        Err(response) => {
            assert_eq!(member(&response, "command").as_deref(), Some("parse"));
            assert_eq!(member(&response, "success").as_deref(), Some("false"));
            let error = member(&response, "error").unwrap();
            assert!(error.starts_with("Failed to parse command: "), "{error}");
            assert!(error.len() > "Failed to parse command: ".len(), "{error}");
            assert!(member(&response, "id").is_none());
        }
        Ok(_) => panic!("expected a parse failure"),
    }
}

#[test]
fn rpc_responses_are_written_one_per_line() {
    let line = rpc_response_line(&rpc_parse_failure_response("bad"));
    assert!(line.ends_with("}\n"), "{line}");
    assert_eq!(line.matches('\n').count(), 1);
    assert!(line.contains("\"error\":\"Failed to parse command: bad\""), "{line}");
    assert!(line.contains("\"command\":\"parse\""), "{line}");
}

#[test]
fn settings_text_is_read_as_an_object() {
    let ms = settings_object_from_text("{\"theme\":\"dark\",\"n\":3}", "/cfg/settings.json").unwrap();
    let keys: Vec<&str> = ms.iter().map(|(k, _)| k.as_str()).collect();
    assert_eq!(keys, vec!["n", "theme"]);
    assert_eq!(
        settings_object_from_text("[1]", "/cfg/settings.json").err().unwrap(),
        "/cfg/settings.json must contain a JSON object"
    );
    let error = settings_object_from_text("{", "/cfg/settings.json").err().unwrap();
    assert!(!error.contains("must contain a JSON object"), "{error}");
    assert!(!error.is_empty());
}

#[test]
fn settings_text_is_written_pretty_with_a_newline() {
    let ms = settings_object_from_text("{\"theme\":\"dark\"}", "s").unwrap();
    assert_eq!(settings_file_text(ms), "{\n  \"theme\": \"dark\"\n}\n");
    assert_eq!(settings_file_text(Vec::new()), "{}\n");
}

#[test]
fn normalizing_piped_input_twice_changes_nothing() {
    for input in ["  hi \n", " \n ", "a b", "\u{3000}x\u{85}"] {
        let once = normalize_stdin_content(false, Some(String::from(input)));
        assert_eq!(normalize_stdin_content(false, once.clone()), once);
    }
}

fn session(path: &str) -> SessionSummary {
    SessionSummary {
        path: path.to_string(),
        id: format!("id-{path}"),
        name: None,
        first_message: String::from("hello"),
        all_messages_text: String::from("hello"),
        cwd: String::from("/w"),
        message_count: 1,
        age_secs: Some(60),
    }
}

#[test]
fn tab_twice_lists_the_current_folder_again() {
    let current = vec![session("/s/a")];
    let all = vec![session("/s/b"), session("/s/a"), session("/s/c")];
    let mut picker = SessionPickerComponent::new(current, all, None);
    assert_eq!(picker.title(), "Resume session (current folder)");
    let before = picker.render_session_lines();
    assert_eq!(picker.handle_key(SessionPickerKey::Tab), SessionPickerOutcome::Continue);
    assert_eq!(picker.title(), "Resume session (all projects)");
    assert_eq!(picker.render_session_lines().len(), 3);
    assert_eq!(picker.handle_key(SessionPickerKey::Tab), SessionPickerOutcome::Continue);
    assert_eq!(picker.title(), "Resume session (current folder)");
    assert_eq!(picker.render_session_lines(), before);
    assert_eq!(picker.handle_key(SessionPickerKey::Up), SessionPickerOutcome::Continue);
    assert_eq!(picker.handle_key(SessionPickerKey::Confirm), SessionPickerOutcome::Selected(String::from("/s/a")));
}
