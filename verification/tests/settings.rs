use pi_cli_core::rpc::JsonValue;
use pi_cli_core::scoped_models::PersistedScopedModels;
use pi_cli_core::settings_file::{
    apply_enabled_models_setting, apply_settings_changes, remove_member, set_member, set_nested_member,
    settings_object,
};
use pi_cli_core::settings_picker::{settings_changes_between, SettingsPickerSelection};

/// Compact JSON text of a value, members in the order they are held.
fn text(v: &JsonValue) -> String {
    match v {
        JsonValue::Null => String::from("null"),
        JsonValue::Bool(b) => b.to_string(),
        JsonValue::Number(n) => n.clone(),
        JsonValue::Str(s) => format!("\"{s}\""),
        JsonValue::Array(items) => format!("[{}]", items.iter().map(text).collect::<Vec<_>>().join(",")),
        JsonValue::Object(members) => format!(
            "{{{}}}",
            members.iter().map(|(k, v)| format!("\"{k}\":{}", text(v))).collect::<Vec<_>>().join(",")
        ),
    }
}

fn object_text(config: &Vec<(String, JsonValue)>) -> String {
    let members = config.iter().map(|(k, v)| (k.clone(), copy(v))).collect();
    text(&JsonValue::Object(members))
}

fn copy(v: &JsonValue) -> JsonValue {
    pi_cli_core::rpc::copy_json(v)
}

fn config() -> Vec<(String, JsonValue)> {
    vec![
        (String::from("theme"), JsonValue::Str(String::from("dark"))),
        (
            String::from("images"),
            JsonValue::Object(vec![(String::from("autoResize"), JsonValue::Bool(true))]),
        ),
        (String::from("compaction"), JsonValue::Str(String::from("oops"))),
    ]
}

#[test]
fn set_member_replaces_in_place_or_appends() {
    let mut c = config();
    set_member(&mut c, "theme", JsonValue::Str(String::from("light")));
    set_member(&mut c, "editorPaddingX", JsonValue::Number(String::from("2")));
    assert_eq!(
        object_text(&c),
        "{\"theme\":\"light\",\"images\":{\"autoResize\":true},\"compaction\":\"oops\",\"editorPaddingX\":2}"
    );
}

#[test]
fn remove_member_drops_only_that_key() {
    let mut c = config();
    remove_member(&mut c, "images");
    assert_eq!(object_text(&c), "{\"theme\":\"dark\",\"compaction\":\"oops\"}");
    remove_member(&mut c, "absent");
    assert_eq!(object_text(&c), "{\"theme\":\"dark\",\"compaction\":\"oops\"}");
}

#[test]
fn nested_set_keeps_siblings_and_replaces_non_objects() {
    let mut c = config();
    set_nested_member(&mut c, "images", "blockImages", JsonValue::Bool(false));
    set_nested_member(&mut c, "compaction", "enabled", JsonValue::Bool(true));
    assert_eq!(
        object_text(&c),
        "{\"theme\":\"dark\",\"images\":{\"autoResize\":true,\"blockImages\":false},\"compaction\":{\"enabled\":true}}"
    );
}

#[test]
fn saving_settings_writes_only_what_changed() {
    let previous = SettingsPickerSelection {
        auto_compact: true,
        auto_resize_images: true,
        block_images: false,
        editor_padding_x: 0,
        autocomplete_max_visible: 5,
    };
    let next = SettingsPickerSelection { auto_compact: false, block_images: true, autocomplete_max_visible: 10, ..previous };
    let changes = settings_changes_between(previous, next);
    let mut c = config();
    apply_settings_changes(&mut c, &changes);
    assert_eq!(
        object_text(&c),
        "{\"theme\":\"dark\",\"images\":{\"autoResize\":true,\"blockImages\":true},\"compaction\":{\"enabled\":false},\"autocompleteMaxVisible\":10}"
    );
}

#[test]
fn model_scope_is_written_or_removed() {
    let mut c = config();
    apply_enabled_models_setting(
        &mut c,
        &PersistedScopedModels::Explicit(vec![String::from("acme/fast-model"), String::from("other/big-model")]),
    );
    assert!(object_text(&c).ends_with(",\"enabledModels\":[\"acme/fast-model\",\"other/big-model\"]}"));
    apply_enabled_models_setting(&mut c, &PersistedScopedModels::AllEnabled);
    assert_eq!(object_text(&c), object_text(&config()));
}

#[test]
fn settings_file_must_hold_an_object() {
    match settings_object(JsonValue::Array(vec![]), "/tmp/conf/settings.json") {
        Err(e) => assert_eq!(e, "/tmp/conf/settings.json must contain a JSON object"),
        Ok(_) => panic!("expected an error"),
    }
    match settings_object(JsonValue::Object(config()), "x") {
        Ok(ms) => assert_eq!(ms.len(), 3),
        Err(_) => panic!("expected the members"),
    }
}
