use pi_cli_core::scoped_models::{
    clear_scoped_model_ids, enable_scoped_model_ids, move_scoped_model_id, ordered_scoped_model_ids,
    persisted_scoped_models_snapshot, scoped_model_enabled, toggle_scoped_model_id, PersistedScopedModels,
};
use pi_cli_core::scoped_picker::{
    full_model_id, sort_models, PickerModel, ScopedModelsKey, ScopedModelsOutcome, ScopedModelsPicker,
    SelectionStep,
};
use pi_cli_core::session_picker::{
    format_session_age, searchable_text, shorten_home_path, SessionPickerComponent, SessionPickerKey,
    SessionPickerOutcome, SessionSummary,
};
use pi_cli_core::settings_picker::{
    cycle_usize_value, on_off_label, settings_changes_between, settings_status_message, SettingValue,
    SettingsKey, SettingsOutcome, SettingsPicker, SettingsPickerSelection,
};
use pi_cli_core::transition::{
    login_status_message, logout_status_message, oauth_requires_agent_dir_message, scoped_models_from_enabled_ids,
    scoped_models_status_message, tree_navigation, tree_navigation_status, OAuthPickerMode, ScopedModelRef,
    TreeNavigation,
};
use pi_cli_core::tree_picker::{PickerOutcome, SelectAction, TreePickerComponent, TreePickerItem};
use pi_cli_core::text::{sanitize_display_text, strip_interactive_bash_output, truncate_text_for_tree};

fn ids(v: &[&str]) -> Vec<String> {
    v.iter().map(|s| s.to_string()).collect()
}

fn model(provider: &str, id: &str, name: &str) -> PickerModel {
    PickerModel { provider: provider.to_string(), id: id.to_string(), name: name.to_string() }
}

#[test]
fn scope_helpers_follow_the_enabled_list() {
    let all = ids(&["a/1", "a/2", "b/1"]);
    assert!(scoped_model_enabled(None, &String::from("a/1")));
    assert_eq!(toggle_scoped_model_id(None, &String::from("a/2")), Some(ids(&["a/2"])));
    let e = ids(&["a/2", "b/1"]);
    assert_eq!(toggle_scoped_model_id(Some(&e), &String::from("a/2")), Some(ids(&["b/1"])));
    assert_eq!(toggle_scoped_model_id(Some(&e), &String::from("a/1")), Some(ids(&["a/2", "b/1", "a/1"])));
    assert_eq!(enable_scoped_model_ids(Some(&e), &all, Some(&ids(&["a/1"]))), None);
    assert_eq!(enable_scoped_model_ids(Some(&ids(&["a/1"])), &all, Some(&ids(&["b/1"]))), Some(ids(&["a/1", "b/1"])));
    assert_eq!(clear_scoped_model_ids(None, &all, Some(&ids(&["a/1"]))), Some(ids(&["a/2", "b/1"])));
    assert_eq!(clear_scoped_model_ids(Some(&e), &all, None), Some(Vec::new()));
    assert_eq!(move_scoped_model_id(Some(&e), &all, &String::from("b/1"), -1), Some(ids(&["b/1", "a/2"])));
    assert_eq!(move_scoped_model_id(None, &all, &String::from("a/1"), -1), Some(all.clone()));
    assert_eq!(ordered_scoped_model_ids(Some(&ids(&["b/1"])), &all), ids(&["b/1", "a/1", "a/2"]));
    assert_eq!(persisted_scoped_models_snapshot(Some(&e), &all), PersistedScopedModels::Explicit(e.clone()));
    assert_eq!(persisted_scoped_models_snapshot(Some(&all), &all), PersistedScopedModels::AllEnabled);
}

#[test]
fn toggling_twice_gives_back_the_same_models() {
    let e = ids(&["a/2", "b/1"]);
    let once = toggle_scoped_model_id(Some(&e), &String::from("a/1")).unwrap();
    let twice = toggle_scoped_model_id(Some(&once), &String::from("a/1")).unwrap();
    assert_eq!(twice, e);
}

#[test]
fn models_are_sorted_by_provider_then_id() {
    let sorted = sort_models(vec![model("b", "x", "X"), model("a", "z", "Z"), model("a", "b", "B")]);
    let keys: Vec<String> = sorted.iter().map(full_model_id).collect();
    assert_eq!(keys, ids(&["a/b", "a/z", "b/x"]));
}

fn catalogue() -> Vec<PickerModel> {
    vec![model("openai", "gpt", "GPT"), model("anthropic", "sonnet", "Sonnet"), model("anthropic", "haiku", "Haiku")]
}

#[test]
fn scoped_models_picker_toggles_saves_and_closes() {
    let mut picker = ScopedModelsPicker::new(catalogue(), &Vec::new(), None, true);
    assert_eq!(picker.render_model_lines()[0], "→ haiku [anthropic]");
    assert_eq!(picker.footer_status_text(), "all enabled");
    assert_eq!(picker.handle_key(ScopedModelsKey::Confirm), ScopedModelsOutcome::Continue);
    assert_eq!(picker.footer_status_text(), "1/3 enabled (unsaved)");
    assert_eq!(picker.render_model_lines()[0], "→ haiku [anthropic] ✓");
    assert_eq!(picker.render_model_lines()[1], "  sonnet [anthropic] ✗");
    assert_eq!(picker.handle_key(ScopedModelsKey::Save), ScopedModelsOutcome::Continue);
    assert_eq!(picker.footer_status_text(), "1/3 enabled");
    match picker.handle_key(ScopedModelsKey::Cancel) {
        ScopedModelsOutcome::Closed(selection) => {
            assert_eq!(selection.enabled_ids, Some(ids(&["anthropic/haiku"])));
            assert_eq!(selection.persisted, Some(PersistedScopedModels::Explicit(ids(&["anthropic/haiku"]))));
        }
        other => panic!("expected close, got {other:?}"),
    }
}

#[test]
fn scoped_models_picker_moves_and_toggles_providers() {
    let scoped = vec![model("openai", "gpt", "GPT"), model("anthropic", "haiku", "Haiku")];
    let mut picker = ScopedModelsPicker::new(catalogue(), &scoped, None, false);
    assert_eq!(picker.render_model_lines()[0], "→ gpt [openai] ✓");
    assert_eq!(picker.handle_key(ScopedModelsKey::MoveDown), ScopedModelsOutcome::Continue);
    assert_eq!(picker.render_model_lines()[0], "  haiku [anthropic] ✓");
    assert_eq!(picker.render_model_lines()[1], "→ gpt [openai] ✓");
    assert_eq!(picker.handle_key(ScopedModelsKey::Up), ScopedModelsOutcome::Continue);
    assert_eq!(picker.handle_key(ScopedModelsKey::ToggleProvider), ScopedModelsOutcome::Continue);
    match picker.handle_key(ScopedModelsKey::Cancel) {
        ScopedModelsOutcome::Closed(selection) => {
            assert_eq!(selection.enabled_ids, None);
        }
        other => panic!("expected close, got {other:?}"),
    }
    assert_eq!(picker.handle_key(ScopedModelsKey::Save), ScopedModelsOutcome::EditSearch);
    assert_eq!(picker.header_lines()[1], "Session-only. Settings unavailable. Escape closes.");
}

#[test]
fn scoped_models_picker_filters_with_a_search() {
    let mut picker = ScopedModelsPicker::new(catalogue(), &Vec::new(), Some("son"), true);
    assert!(picker.needs_filter());
    assert_eq!(picker.render_model_lines(), vec![String::from("No matching models")]);
    let candidates = picker.filter_candidates();
    assert_eq!(candidates, ids(&["haiku anthropic", "sonnet anthropic", "gpt openai"]));
    picker.refresh(&vec![1], SelectionStep::Stay);
    assert_eq!(picker.render_model_lines()[0], "→ sonnet [anthropic]");
    assert_eq!(picker.handle_key(ScopedModelsKey::ClearAll), ScopedModelsOutcome::Refilter(SelectionStep::Stay));
    assert_eq!(picker.filter_candidates(), ids(&["haiku anthropic", "gpt openai", "sonnet anthropic"]));
    picker.refresh(&vec![2], SelectionStep::Stay);
    assert_eq!(picker.render_model_lines()[0], "→ sonnet [anthropic] ✗");
    assert_eq!(picker.footer_status_text(), "2/3 enabled (unsaved)");
    assert_eq!(picker.handle_key(ScopedModelsKey::Clear), ScopedModelsOutcome::Continue);
    assert_eq!(picker.render_model_lines().len(), 5);
    assert!(matches!(picker.handle_key(ScopedModelsKey::Clear), ScopedModelsOutcome::Closed(_)));
}

#[test]
fn settings_values_cycle_through_their_choices() {
    assert_eq!(cycle_usize_value(3, &[0, 1, 2, 3], 1), 0);
    assert_eq!(cycle_usize_value(0, &[0, 1, 2, 3], -1), 3);
    assert_eq!(cycle_usize_value(9, &[3, 5, 7], 1), 3);
    assert_eq!(cycle_usize_value(9, &[], 1), 9);
    assert_eq!(on_off_label(true), "on");
    assert_eq!(on_off_label(false), "off");
}

fn selection() -> SettingsPickerSelection {
    SettingsPickerSelection {
        auto_compact: true,
        auto_resize_images: true,
        block_images: false,
        editor_padding_x: 0,
        autocomplete_max_visible: 5,
    }
}

#[test]
fn settings_picker_edits_the_selected_row() {
    let mut picker = SettingsPicker::new(selection());
    assert_eq!(picker.render_items()[0], "→ Auto-compact             on");
    assert_eq!(picker.handle_key(SettingsKey::Right), SettingsOutcome::Continue);
    assert!(!picker.selection().auto_compact);
    for _ in 0..4 {
        picker.handle_key(SettingsKey::Down);
    }
    picker.handle_key(SettingsKey::Down);
    picker.handle_key(SettingsKey::Left);
    assert_eq!(picker.selection().autocomplete_max_visible, 3);
    assert_eq!(picker.render_items()[4], "→ Autocomplete max items   3");
    match picker.handle_key(SettingsKey::Cancel) {
        SettingsOutcome::Closed(s) => assert_eq!(s.autocomplete_max_visible, 3),
        _ => panic!("expected close"),
    }
}

#[test]
fn settings_changes_list_only_changed_values() {
    let next = SettingsPickerSelection { block_images: true, editor_padding_x: 2, ..selection() };
    let changes = settings_changes_between(selection(), next);
    assert_eq!(changes.len(), 2);
    assert_eq!(changes[0].parent.as_deref(), Some("images"));
    assert_eq!(changes[0].key, "blockImages");
    assert_eq!(changes[0].value, SettingValue::Bool(true));
    assert_eq!(changes[1].parent, None);
    assert_eq!(changes[1].key, "editorPaddingX");
    assert_eq!(changes[1].value, SettingValue::Number(2));
    assert!(settings_changes_between(selection(), selection()).is_empty());
    assert_eq!(settings_status_message(selection(), next, true), "Updated settings");
    assert_eq!(settings_status_message(selection(), next, false), "Updated session settings");
    assert_eq!(settings_status_message(selection(), selection(), true), "Settings unchanged");
}

fn summary(path: &str, name: Option<&str>, cwd: &str, age: Option<u64>) -> SessionSummary {
    SessionSummary {
        path: path.to_string(),
        id: format!("id-{path}"),
        name: name.map(|n| n.to_string()),
        first_message: String::from("first\tmessage"),
        all_messages_text: String::from("all"),
        cwd: cwd.to_string(),
        message_count: 4,
        age_secs: age,
    }
}

#[test]
fn session_ages_are_rounded_down_to_one_unit() {
    assert_eq!(format_session_age(None), "now");
    assert_eq!(format_session_age(Some(59)), "now");
    assert_eq!(format_session_age(Some(60)), "1m");
    assert_eq!(format_session_age(Some(3_600)), "1h");
    assert_eq!(format_session_age(Some(86_400 * 3)), "3d");
    assert_eq!(format_session_age(Some(86_400 * 14)), "2w");
    assert_eq!(format_session_age(Some(86_400 * 60)), "2mo");
    assert_eq!(format_session_age(Some(86_400 * 800)), "2y");
    assert_eq!(shorten_home_path("/home/u/p", Some("/home/u")), "~/p");
    assert_eq!(shorten_home_path("/srv/p", Some("/home/u")), "/srv/p");
    assert_eq!(shorten_home_path("/srv/p", None), "/srv/p");
}

#[test]
fn session_picker_lists_switches_scope_and_selects() {
    let current = vec![summary("/s/a.jsonl", Some("Alpha"), "/home/u/p", Some(120))];
    let all = vec![summary("/s/b.jsonl", None, "/home/u/q", Some(7_200)), summary("/s/a.jsonl", Some("Alpha"), "/home/u/p", Some(120))];
    let mut picker = SessionPickerComponent::new(current, all, Some(String::from("/home/u")));
    assert_eq!(picker.title(), "Resume session (current folder)");
    assert_eq!(picker.render_session_lines(), vec![String::from("→ Alpha — 4 msg · 2m")]);
    assert_eq!(picker.handle_key(SessionPickerKey::Tab), SessionPickerOutcome::Continue);
    assert_eq!(picker.title(), "Resume session (all projects)");
    let lines = picker.render_session_lines();
    assert_eq!(lines[0], "  first message — ~/q · 4 msg · 2h");
    assert_eq!(lines[1], "→ Alpha — ~/p · 4 msg · 2m");
    assert_eq!(picker.handle_key(SessionPickerKey::Down), SessionPickerOutcome::Continue);
    assert_eq!(picker.handle_key(SessionPickerKey::Confirm), SessionPickerOutcome::Selected(String::from("/s/b.jsonl")));
    assert_eq!(picker.handle_key(SessionPickerKey::Cancel), SessionPickerOutcome::Cancelled);
    assert_eq!(picker.handle_key(SessionPickerKey::Other), SessionPickerOutcome::EditSearch);
    picker.set_query(String::from("zzz"));
    picker.refresh(&Vec::new());
    assert_eq!(picker.render_session_lines(), vec![String::from("No matching sessions")]);
    assert_eq!(searchable_text(&summary("/p", None, "/c", None)), "id-/p  first\tmessage all /c /p");
}

#[test]
fn empty_current_folder_points_to_all_projects() {
    let picker = SessionPickerComponent::new(Vec::new(), vec![summary("/s/x", None, "/c", None)], None);
    assert_eq!(picker.render_session_lines(), vec![String::from("No sessions in current folder. Press Tab to view all.")]);
    let none = SessionPickerComponent::new(Vec::new(), Vec::new(), None);
    assert_eq!(none.render_session_lines(), vec![String::from("No sessions found")]);
}

fn tree_item(id: &str) -> TreePickerItem {
    TreePickerItem { entry_id: id.to_string(), display: format!("entry {id}"), search_text: id.to_string() }
}

#[test]
fn tree_picker_wraps_and_keeps_the_selection_when_filtering() {
    let mut picker = TreePickerComponent::new(vec![tree_item("a"), tree_item("b"), tree_item("c")], Some("b"));
    assert_eq!(picker.render_tree_lines()[1], "→ entry b");
    picker.handle_action(SelectAction::Down);
    picker.handle_action(SelectAction::Down);
    assert_eq!(picker.handle_action(SelectAction::Confirm), PickerOutcome::Selected(String::from("a")));
    picker.apply_filter("x", vec![2, 0]);
    assert_eq!(picker.render_tree_lines()[1], "→ entry a");
    picker.apply_filter("x", Vec::new());
    assert_eq!(picker.render_tree_lines(), vec![String::from("No matching entries")]);
    assert_eq!(picker.handle_action(SelectAction::Cancel), PickerOutcome::Cancelled);
}

#[test]
fn transition_statuses_match_their_outcomes() {
    assert_eq!(tree_navigation("a", "a"), TreeNavigation::AlreadyHere);
    assert_eq!(tree_navigation("root", "a"), TreeNavigation::ResetToRoot);
    assert_eq!(tree_navigation("b", "a"), TreeNavigation::Branch(String::from("b")));
    assert_eq!(tree_navigation_status(&TreeNavigation::AlreadyHere), "Already at this point");
    assert_eq!(tree_navigation_status(&TreeNavigation::ResetToRoot), "Navigated to selected point");
    assert_eq!(oauth_requires_agent_dir_message(OAuthPickerMode::Logout), "OAuth logout requires an agent directory.");
    assert_eq!(login_status_message(&Ok(String::from("Acme"))), "Logged in to Acme");
    assert_eq!(login_status_message(&Err(String::from("x"))), "Error: x");
    assert_eq!(logout_status_message(&Ok(true), "acme", "Acme"), "Logged out of Acme");
    assert_eq!(logout_status_message(&Ok(false), "acme", "Acme"), "No OAuth credentials stored for acme");
}

fn scoped(provider: &str, id: &str) -> ScopedModelRef {
    ScopedModelRef { provider: provider.to_string(), id: id.to_string(), thinking_level: None }
}

#[test]
fn scope_status_reports_change_and_saving() {
    let a = vec![scoped("p", "1")];
    let b = vec![scoped("p", "2")];
    assert_eq!(scoped_models_status_message(&a, &b, false, true), "Updated session model scope");
    assert_eq!(scoped_models_status_message(&a, &b, true, true), "Updated session model scope and saved to settings");
    assert_eq!(scoped_models_status_message(&a, &Vec::new(), false, true), "Model scope cleared");
    assert_eq!(scoped_models_status_message(&a, &a, true, true), "Saved model scope to settings");
    assert_eq!(scoped_models_status_message(&a, &a, true, false), "Settings unavailable; model scope unchanged");
    assert_eq!(scoped_models_status_message(&a, &a, false, false), "Model scope unchanged");
}

#[test]
fn scope_from_the_picker_names_catalogue_models() {
    let models = catalogue();
    let enabled = ids(&["anthropic/haiku", "missing/x"]);
    let scope = scoped_models_from_enabled_ids(&models, Some(&enabled));
    assert_eq!(scope, vec![scoped("anthropic", "haiku")]);
    assert!(scoped_models_from_enabled_ids(&models, None).is_empty());
    assert!(scoped_models_from_enabled_ids(&models, Some(&ids(&["a/1", "b/2", "c/3"]))).is_empty());
}

#[test]
fn display_text_helpers_clean_terminal_output() {
    assert_eq!(sanitize_display_text(" a\u{7}b \n c "), "a b c");
    assert_eq!(truncate_text_for_tree("abcdefgh", 6), "abc...");
    assert_eq!(truncate_text_for_tree("abc", 6), "abc");
    assert_eq!(strip_interactive_bash_output("\u{1b}[31mred\u{1b}[0m \u{1b}]0;title\u{7}ok"), "red ok");
}

use pi_cli_core::list_picker::{
    collect_fork_candidates, extract_user_text, EntryContent, ForkMessageCandidate, ListPicker, OAuthPickerEntry,
    SessionEntryInfo,
};

#[test]
fn collect_fork_candidates_uses_user_messages_only() {
    let entries = vec![
        SessionEntryInfo {
            id: String::from("e1"),
            parent_id: None,
            content: EntryContent::UserMessage(vec![String::from("first user message")]),
        },
        SessionEntryInfo { id: String::from("e2"), parent_id: Some(String::from("e1")), content: EntryContent::Other },
    ];

    let candidates = collect_fork_candidates(&entries);
    assert_eq!(candidates.len(), 1);
    assert_eq!(candidates[0].text, "first user message");
    assert!(candidates[0].parent_id.is_none());
}

#[test]
fn user_text_joins_parts_and_skips_blank_messages() {
    assert_eq!(extract_user_text(&vec![String::from(" a"), String::from("b ")]), "ab");
    let entries = vec![SessionEntryInfo {
        id: String::from("x"),
        parent_id: None,
        content: EntryContent::UserMessage(vec![String::from("  ")]),
    }];
    assert!(collect_fork_candidates(&entries).is_empty());
}

#[test]
fn fork_picker_marks_root_messages_and_returns_entry_ids() {
    let candidates = vec![
        ForkMessageCandidate { entry_id: String::from("a"), parent_id: None, text: String::from("hello\nworld") },
        ForkMessageCandidate { entry_id: String::from("b"), parent_id: Some(String::from("a")), text: String::from("again") },
    ];
    let mut picker = ListPicker::fork_picker(&candidates);
    assert_eq!(picker.title(), "Fork session from user message");
    assert_eq!(picker.render_lines(), vec![String::from("→ hello world (root)"), String::from("  again")]);
    assert_eq!(picker.handle_action(SelectAction::Up), PickerOutcome::Continue);
    assert_eq!(picker.handle_action(SelectAction::Confirm), PickerOutcome::Selected(String::from("b")));
    assert_eq!(picker.handle_action(SelectAction::Other), PickerOutcome::Continue);
    assert_eq!(picker.handle_action(SelectAction::Cancel), PickerOutcome::Cancelled);
    let empty = ListPicker::fork_picker(&Vec::new());
    assert_eq!(empty.render_lines(), vec![String::from("No messages to fork from")]);
}

#[test]
fn oauth_picker_lists_providers_by_id() {
    let entries = vec![
        OAuthPickerEntry { id: String::from("openai"), name: String::from("OpenAI") },
        OAuthPickerEntry { id: String::from("anthropic"), name: String::from("Anthropic") },
    ];
    let mut picker = ListPicker::oauth_picker(OAuthPickerMode::Login, entries);
    assert_eq!(picker.title(), "Select provider to login");
    assert_eq!(
        picker.render_lines(),
        vec![String::from("→ anthropic [Anthropic]"), String::from("  openai [OpenAI]")]
    );
    assert_eq!(picker.handle_action(SelectAction::Down), PickerOutcome::Continue);
    assert_eq!(picker.handle_action(SelectAction::Confirm), PickerOutcome::Selected(String::from("openai")));
    let empty = ListPicker::oauth_picker(OAuthPickerMode::Logout, Vec::new());
    assert_eq!(empty.render_lines(), vec![String::from("No OAuth providers logged in. Use /login first.")]);
}

use pi_cli_core::tree_items::{build_tree_picker_items, describe_session_tree_entry, TreeEntryKind, TreeNodeInfo};

fn node(id: &str, kind: TreeEntryKind, label: Option<&str>, children: Vec<TreeNodeInfo>) -> TreeNodeInfo {
    TreeNodeInfo { id: id.to_string(), kind, label: label.map(|l| l.to_string()), children }
}

#[test]
fn tree_rows_are_drawn_under_their_parents() {
    let tree = vec![node(
        "A",
        TreeEntryKind::UserMessage(vec![String::from(" hi ")]),
        None,
        vec![
            node("B", TreeEntryKind::AssistantMessage(vec![String::from("yo")]), Some("mark"), vec![]),
            node(
                "C",
                TreeEntryKind::Label,
                None,
                vec![node(
                    "D",
                    TreeEntryKind::ModelChange { provider: String::from("p"), model_id: String::from("m") },
                    None,
                    vec![],
                )],
            ),
        ],
    )];
    let leaf = String::from("B");
    let items = build_tree_picker_items(&tree, Some(&leaf));
    let rows: Vec<(String, String, String)> =
        items.into_iter().map(|i| (i.entry_id, i.display, i.search_text)).collect();
    assert_eq!(
        rows,
        vec![
            (String::from("root"), String::from("  root"), String::from("root session root")),
            (String::from("A"), String::from("  A user: hi"), String::from("A A user: hi")),
            (String::from("B"), String::from("   ├─ * B assistant: yo [mark]"), String::from("B B assistant: yo mark")),
            (String::from("D"), String::from("   └─   D model: p/m"), String::from("D D model: p/m")),
        ]
    );
    let at_root = build_tree_picker_items(&Vec::new(), None);
    assert_eq!(at_root[0].display, "* root");
}

#[test]
fn tree_entries_are_described_on_one_line() {
    assert_eq!(describe_session_tree_entry("x", &TreeEntryKind::SessionInfo(None)).as_deref(), Some("x session: (unnamed)"));
    assert_eq!(describe_session_tree_entry("x", &TreeEntryKind::ToolResult(String::from("bash"))).as_deref(), Some("x tool result: bash"));
    assert_eq!(
        describe_session_tree_entry(
            "x",
            &TreeEntryKind::CustomMessageEntry { custom_type: String::from("note"), text_parts: vec![String::from(" a\nb ")] }
        )
        .as_deref(),
        Some("x note: a b")
    );
    assert_eq!(describe_session_tree_entry("x", &TreeEntryKind::Label), None);
    let long = "w ".repeat(50);
    let described = describe_session_tree_entry("x", &TreeEntryKind::Compaction(long)).unwrap();
    assert_eq!(described.chars().count(), "x compaction: ".len() + 72);
    assert!(described.ends_with("..."));
}

#[test]
fn sorting_keeps_models_with_the_same_key_in_order() {
    let sorted = sort_models(vec![
        model("b", "x", "first"),
        model("a", "y", "A"),
        model("b", "x", "second"),
        model("b", "x", "third"),
    ]);
    let names: Vec<&str> = sorted.iter().map(|m| m.name.as_str()).collect();
    assert_eq!(names, vec!["A", "first", "second", "third"]);
}

#[test]
fn sorting_keeps_providers_with_the_same_id_in_order() {
    let sorted = pi_cli_core::list_picker::sort_oauth_entries(vec![
        OAuthPickerEntry { id: String::from("zed"), name: String::from("Z") },
        OAuthPickerEntry { id: String::from("acme"), name: String::from("one") },
        OAuthPickerEntry { id: String::from("acme"), name: String::from("two") },
    ]);
    let names: Vec<&str> = sorted.iter().map(|e| e.name.as_str()).collect();
    assert_eq!(names, vec!["one", "two", "Z"]);
}
