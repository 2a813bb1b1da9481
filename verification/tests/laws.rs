use pi_cli_core::keys::capitalize_key_id;
use pi_cli_core::scoped_models::{move_scoped_model_id, ordered_scoped_model_ids};
use pi_cli_core::settings_picker::cycle_usize_value;
use pi_cli_core::text::{sanitize_display_text, strip_interactive_bash_output, truncate_text_for_tree};
use pi_cli_core::tree_picker::{PickerOutcome, SelectAction, TreePickerComponent, TreePickerItem};

fn ids(v: &[&str]) -> Vec<String> {
    v.iter().map(|s| s.to_string()).collect()
}

fn entry(id: &str) -> TreePickerItem {
    TreePickerItem { entry_id: id.to_string(), display: format!("entry {id}"), search_text: id.to_string() }
}

#[test]
fn unterminated_escapes_swallow_the_rest_of_the_output() {
    assert_eq!(strip_interactive_bash_output("a\u{1b}"), "a");
    assert_eq!(strip_interactive_bash_output("a\u{1b}[12"), "a");
    assert_eq!(strip_interactive_bash_output("a\u{1b}]x\u{e9}"), "a");
    assert_eq!(strip_interactive_bash_output("a\u{1b}_x\u{1b}\\b"), "ab");
}

#[test]
fn stripping_keeps_newlines_tabs_and_drops_other_controls() {
    assert_eq!(strip_interactive_bash_output("a\r\nb\tc\u{0}\u{85}d"), "a\nb\tcd");
    let once = strip_interactive_bash_output("x\u{1b}[1;31my\u{7}z\r\n");
    assert_eq!(once, "xyz\n");
    assert_eq!(strip_interactive_bash_output(&once), once);
    assert_eq!(strip_interactive_bash_output("pl\u{e9}in text"), "pl\u{e9}in text");
}

#[test]
fn sanitized_text_is_a_fixed_point() {
    assert_eq!(sanitize_display_text("  a\u{7}b \n\t c  "), "a b c");
    let once = sanitize_display_text("\u{3000}one\u{0}two  three\u{85}");
    assert_eq!(once, "one two three");
    assert_eq!(sanitize_display_text(&once), once);
    assert_eq!(sanitize_display_text(" \n\t "), "");
}

#[test]
fn tree_lines_fit_their_width() {
    assert_eq!(truncate_text_for_tree("hello world", 8), "hello...");
    assert_eq!(truncate_text_for_tree("a\n b", 3), "a b");
    assert_eq!(truncate_text_for_tree("abcd", 2), "...");
    assert_eq!(truncate_text_for_tree("abcd", 0), "...");
    assert!(truncate_text_for_tree("a fairly long description", 10).chars().count() <= 10);
}

#[test]
fn key_ids_written_out_stay_written_out() {
    let once = capitalize_key_id("ctrl+shift+p/alt+x");
    assert_eq!(once, "Ctrl+Shift+P/Alt+X");
    assert_eq!(capitalize_key_id(&once), once);
    let odd = capitalize_key_id("PAGEDOWN+/+home");
    assert_eq!(odd, "PageDown+/+Home");
    assert_eq!(capitalize_key_id(&odd), odd);
    assert_eq!(odd.matches('/').count(), 1);
    assert_eq!(odd.matches('+').count(), 2);
    assert_eq!(capitalize_key_id("CTRL+X/Alt+enter"), capitalize_key_id("ctrl+x/alt+enter"));
    assert_eq!(capitalize_key_id("ctrl+x/alt+enter"), "Ctrl+X/Alt+Enter");
}

#[test]
fn cycling_back_and_forth_returns_to_the_start() {
    let values = [3usize, 5, 7, 10, 15, 20];
    for &v in values.iter() {
        assert_eq!(cycle_usize_value(cycle_usize_value(v, &values, 1), &values, -1), v);
        assert_eq!(cycle_usize_value(cycle_usize_value(v, &values, -1), &values, 1), v);
        let mut turned = v;
        for _ in 0..values.len() {
            turned = cycle_usize_value(turned, &values, 1);
            assert!(values.contains(&turned));
        }
        assert_eq!(turned, v);
    }
    assert!(values.contains(&cycle_usize_value(4, &values, -1)));
}

#[test]
fn moving_a_model_forward_then_back_restores_the_order() {
    let all = ids(&["a/1", "a/2", "b/1"]);
    let e = ids(&["b/1", "a/1", "a/2"]);
    let id = String::from("a/1");
    let down = move_scoped_model_id(Some(&e), &all, &id, 1).unwrap();
    assert_eq!(down, ids(&["b/1", "a/2", "a/1"]));
    assert_eq!(move_scoped_model_id(Some(&down), &all, &id, -1), Some(e.clone()));
    let mut sorted_down = down.clone();
    sorted_down.sort();
    let mut sorted_e = e.clone();
    sorted_e.sort();
    assert_eq!(sorted_down, sorted_e);
    assert_eq!(move_scoped_model_id(Some(&e), &all, &String::from("b/1"), -1), Some(e.clone()));
    assert_eq!(move_scoped_model_id(None, &all, &String::from("zz"), 1), None);
}

#[test]
fn tree_picker_confirms_the_initial_entry() {
    let mut picker = TreePickerComponent::new(vec![entry("a"), entry("b"), entry("c")], Some("c"));
    assert_eq!(picker.handle_action(SelectAction::Confirm), PickerOutcome::Selected(String::from("c")));
    let mut unknown = TreePickerComponent::new(vec![entry("a"), entry("b")], Some("zz"));
    assert_eq!(unknown.handle_action(SelectAction::Confirm), PickerOutcome::Selected(String::from("a")));
}

#[test]
fn tree_picker_wraps_up_from_the_top() {
    let mut picker = TreePickerComponent::new(vec![entry("a"), entry("b"), entry("c")], None);
    assert_eq!(picker.handle_action(SelectAction::Up), PickerOutcome::Continue);
    assert_eq!(picker.handle_action(SelectAction::Confirm), PickerOutcome::Selected(String::from("c")));
}

#[test]
fn tree_picker_cancel_and_empty_lists() {
    let mut picker = TreePickerComponent::new(vec![entry("a")], Some("a"));
    assert_eq!(picker.handle_action(SelectAction::Cancel), PickerOutcome::Cancelled);
    let mut empty = TreePickerComponent::new(Vec::new(), None);
    assert_eq!(empty.handle_action(SelectAction::Up), PickerOutcome::Continue);
    assert_eq!(empty.handle_action(SelectAction::Down), PickerOutcome::Continue);
    assert_eq!(empty.handle_action(SelectAction::Confirm), PickerOutcome::Continue);
}

#[test]
fn the_display_order_lists_every_model_once() {
    let all = ids(&["a", "b", "c"]);
    let e = ids(&["c", "a"]);
    let order = ordered_scoped_model_ids(Some(&e), &all);
    assert_eq!(order, ids(&["c", "a", "b"]));
    let mut sorted = order.clone();
    sorted.sort();
    assert_eq!(sorted, all);
    assert_eq!(ordered_scoped_model_ids(None, &all), all);
}

#[test]
fn sanitized_text_is_single_spaced() {
    for text in ["  a\u{7}b \n\t c  ", "\u{1b}[0mx\u{0}\u{0}y", "\t\tone  two\r\n", "\u{85}\u{a0}z\u{2028}"] {
        let out = sanitize_display_text(text);
        assert!(!out.chars().any(|c| c.is_control()), "{out:?}");
        assert!(!out.starts_with(char::is_whitespace) && !out.ends_with(char::is_whitespace), "{out:?}");
        assert!(!out.contains("  "), "{out:?}");
        assert!(out.chars().all(|c| c == ' ' || !c.is_whitespace()), "{out:?}");
    }
}
