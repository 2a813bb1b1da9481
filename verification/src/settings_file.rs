//! Editing the settings file's JSON object: what saving settings or the
//! model scope writes, leaving every other entry as it was.
use vstd::prelude::*;
use crate::listnav::{decimal, decimal_chars};
use crate::rpc::{copy_json, get_member, json_model, member, members_of, JsonModel, JsonValue};
use crate::scoped_models::PersistedScopedModels;
use crate::settings_picker::{change_view, settings_changes, SettingValue, SettingsChange, SettingsPickerSelection};
use crate::text::{chars_eq, chars_of, owned, string_from_chars};

verus! {

/// The abstract value of an object's members.
pub open spec fn object_model(ms: Seq<(String, JsonValue)>) -> Seq<(Seq<char>, JsonModel)> {
    ms.map_values(|e: (String, JsonValue)| (e.0@, json_model(e.1)))
}

/// An object's members, as `members_of` reads them, are `object_model`.
pub proof fn lemma_object_members(ms: Vec<(String, JsonValue)>)
    ensures
        members_of(JsonValue::Object(ms)) == object_model(ms@),
        json_model(JsonValue::Object(ms)) == JsonModel::Object(object_model(ms@)),
{
    reveal_with_fuel(json_model, 1);
    assert(members_of(JsonValue::Object(ms)) =~= object_model(ms@));
}

/// Whether some member is named `key`.
pub open spec fn has_key(ms: Seq<(Seq<char>, JsonModel)>, key: Seq<char>) -> bool {
    exists|i: int| 0 <= i < ms.len() && (#[trigger] ms[i]).0 == key
}

/// `ms` with the value of every member named `key` replaced by `v`.
pub open spec fn replaced(ms: Seq<(Seq<char>, JsonModel)>, key: Seq<char>, v: JsonModel) -> Seq<(Seq<char>, JsonModel)> {
    ms.map_values(
        |e: (Seq<char>, JsonModel)|
            if e.0 == key {
                (key, v)
            } else {
                e
            },
    )
}

/// `ms` with `key` set to `v`: in place where the key is there, at the
/// end where it is not (what inserting into a JSON object does).
pub open spec fn with_member(ms: Seq<(Seq<char>, JsonModel)>, key: Seq<char>, v: JsonModel) -> Seq<(Seq<char>, JsonModel)> {
    if has_key(ms, key) {
        replaced(ms, key, v)
    } else {
        ms.push((key, v))
    }
}

/// `ms` without the members named `key`.
pub open spec fn without_member(ms: Seq<(Seq<char>, JsonModel)>, key: Seq<char>) -> Seq<(Seq<char>, JsonModel)>
    decreases ms.len(),
{
    if ms.len() == 0 {
        seq![]
    } else if ms.last().0 == key {
        without_member(ms.drop_last(), key)
    } else {
        without_member(ms.drop_last(), key).push(ms.last())
    }
}

/// The members of the object under `key`, none where `key` holds no object.
pub open spec fn object_at(ms: Seq<(Seq<char>, JsonModel)>, key: Seq<char>) -> Seq<(Seq<char>, JsonModel)> {
    match member(ms, key) {
        Some(JsonModel::Object(inner)) => inner,
        _ => seq![],
    }
}

/// `ms` with `key` set to `v` inside the object under `parent`; where
/// `parent` holds no object, it becomes one.
pub open spec fn with_nested(ms: Seq<(Seq<char>, JsonModel)>, parent: Seq<char>, key: Seq<char>, v: JsonModel) -> Seq<
    (Seq<char>, JsonModel),
> {
    with_member(ms, parent, JsonModel::Object(with_member(object_at(ms, parent), key, v)))
}

/// Sets `key` to `value` (see `with_member`).
pub fn set_member(config: &mut Vec<(String, JsonValue)>, key: &str, value: JsonValue)
    ensures
        object_model(final(config)@) == with_member(object_model(old(config)@), key@, json_model(value)),
{
    let ghost old_ms = object_model(config@);
    let ghost expected = replaced(old_ms, key@, json_model(value));
    let k = chars_of(key);
    let mut found = false;
    let mut i: usize = 0;
    while i < config.len()
        invariant
            0 <= i <= config@.len(),
            config@.len() == old_ms.len(),
            old_ms == object_model(old(config)@),
            expected == replaced(old_ms, key@, json_model(value)),
            k@ == key@,
            found == exists|j: int| 0 <= j < i && (#[trigger] old_ms[j]).0 == key@,
            forall|j: int| 0 <= j < i ==> (#[trigger] object_model(config@)[j]) == expected[j],
            forall|j: int| i <= j < config@.len() ==> (#[trigger] object_model(config@)[j]) == old_ms[j],
        decreases config@.len() - i,
    {
        let name = chars_of(config[i].0.as_str());
        assert(old_ms[i as int] == object_model(config@)[i as int]);
        assert(name@ == old_ms[i as int].0);
        assert(expected[i as int] == (if old_ms[i as int].0 == key@ {
            (key@, json_model(value))
        } else {
            old_ms[i as int]
        }));
        if chars_eq(&name, &k) {
            let c = copy_json(&value);
            let ghost before = config@;
            config.set(i, (owned(key), c));
            assert(object_model(config@) =~= object_model(before).update(i as int, (key@, json_model(value))));
            found = true;
        }
        i = i + 1;
    }
    if found {
        assert(has_key(old_ms, key@));
        assert(object_model(config@) =~= expected);
    } else {
        assert(!has_key(old_ms, key@));
        assert(object_model(config@) =~= old_ms);
        let ghost before = config@;
        config.push((owned(key), value));
        assert(object_model(config@) =~= object_model(before).push((key@, json_model(value))));
    }
}

/// Removes every member named `key`.
pub fn remove_member(config: &mut Vec<(String, JsonValue)>, key: &str)
    ensures
        object_model(final(config)@) == without_member(object_model(old(config)@), key@),
{
    let ghost old_ms = object_model(config@);
    let k = chars_of(key);
    let mut kept: Vec<(String, JsonValue)> = Vec::new();
    let mut i: usize = 0;
    assert(old_ms.take(0) =~= seq![]);
    while i < config.len()
        invariant
            0 <= i <= config@.len(),
            old_ms == object_model(config@),
            k@ == key@,
            object_model(kept@) == without_member(old_ms.take(i as int), key@),
        decreases config@.len() - i,
    {
        assert(old_ms.take(i + 1).drop_last() =~= old_ms.take(i as int));
        assert(old_ms.take(i + 1).last() == old_ms[i as int]);
        let name = chars_of(config[i].0.as_str());
        if !chars_eq(&name, &k) {
            let ghost before = kept@;
            kept.push((owned(config[i].0.as_str()), copy_json(&config[i].1)));
            assert(object_model(kept@) =~= object_model(before).push(old_ms[i as int]));
        }
        i = i + 1;
    }
    assert(old_ms.take(i as int) =~= old_ms);
    *config = kept;
}

/// The members of the object under `parent`, copied; none where it holds
/// no object.
fn object_members_at(config: &Vec<(String, JsonValue)>, parent: &str) -> (r: Vec<(String, JsonValue)>)
    ensures
        object_model(r@) == object_at(object_model(config@), parent@),
{
    proof {
        lemma_object_members(*config);
    }
    match get_member(config, parent) {
        Some(v) => {
            let c = copy_json(v);
            match c {
                JsonValue::Object(ms) => {
                    proof {
                        lemma_object_members(ms);
                    }
                    ms
                },
                _ => {
                    assert(!(json_model(c) is Object));
                    Vec::new()
                },
            }
        },
        None => Vec::new(),
    }
}

/// Sets `key` to `value` inside the object under `parent` (see `with_nested`).
pub fn set_nested_member(config: &mut Vec<(String, JsonValue)>, parent: &str, key: &str, value: JsonValue)
    ensures
        object_model(final(config)@) == with_nested(object_model(old(config)@), parent@, key@, json_model(value)),
{
    let mut inner = object_members_at(config, parent);
    set_member(&mut inner, key, value);
    proof {
        lemma_object_members(inner);
    }
    set_member(config, parent, JsonValue::Object(inner));
}


/// A setting's value as JSON.
pub open spec fn setting_model(v: SettingValue) -> JsonModel {
    match v {
        SettingValue::Bool(b) => JsonModel::Bool(b),
        SettingValue::Number(n) => JsonModel::Number(decimal(n as nat)),
    }
}

/// `ms` with one change written: inside its parent object where it has
/// one, at the top level otherwise.
pub open spec fn with_change(ms: Seq<(Seq<char>, JsonModel)>, c: (Option<Seq<char>>, Seq<char>, SettingValue)) -> Seq<
    (Seq<char>, JsonModel),
> {
    match c.0 {
        Some(parent) => with_nested(ms, parent, c.1, setting_model(c.2)),
        None => with_member(ms, c.1, setting_model(c.2)),
    }
}

/// `ms` with the changes written in order.
pub open spec fn with_changes(ms: Seq<(Seq<char>, JsonModel)>, cs: Seq<(Option<Seq<char>>, Seq<char>, SettingValue)>) -> Seq<
    (Seq<char>, JsonModel),
>
    decreases cs.len(),
{
    if cs.len() == 0 {
        ms
    } else {
        with_change(with_changes(ms, cs.drop_last()), cs.last())
    }
}

/// A setting's value as a JSON value.
fn setting_value(v: SettingValue) -> (r: JsonValue)
    ensures
        json_model(r) == setting_model(v),
{
    match v {
        SettingValue::Bool(b) => JsonValue::Bool(b),
        SettingValue::Number(n) => {
            let d = decimal_chars(n as u64);
            JsonValue::Number(string_from_chars(&d))
        },
    }
}

/// Writes the settings picker's changes (see `settings_changes_between`)
/// into the settings object.
pub fn apply_settings_changes(config: &mut Vec<(String, JsonValue)>, changes: &Vec<SettingsChange>)
    ensures
        object_model(final(config)@) == with_changes(
            object_model(old(config)@),
            changes@.map_values(|c: SettingsChange| change_view(c)),
        ),
{
    let ghost start = object_model(config@);
    let ghost cs = changes@.map_values(|c: SettingsChange| change_view(c));
    let mut i: usize = 0;
    assert(cs.take(0) =~= seq![]);
    while i < changes.len()
        invariant
            0 <= i <= changes@.len(),
            cs == changes@.map_values(|c: SettingsChange| change_view(c)),
            start == object_model(old(config)@),
            object_model(config@) == with_changes(start, cs.take(i as int)),
        decreases changes@.len() - i,
    {
        let c = &changes[i];
        assert(cs.take(i + 1).drop_last() =~= cs.take(i as int));
        assert(cs.take(i + 1).last() == change_view(*c));
        let value = setting_value(c.value);
        match &c.parent {
            Some(parent) => set_nested_member(config, parent.as_str(), c.key.as_str(), value),
            None => set_member(config, c.key.as_str(), value),
        }
        i = i + 1;
    }
    assert(cs.take(i as int) =~= cs);
}

/// The ids as a JSON array of strings.
pub open spec fn ids_model(ids: Seq<String>) -> JsonModel {
    JsonModel::Array(ids.map_values(|s: String| JsonModel::Str(s@)))
}

/// `ms` with the model scope written: no `enabledModels` entry where every
/// model is enabled, else the enabled ids in order.
pub open spec fn with_enabled_models(ms: Seq<(Seq<char>, JsonModel)>, persisted: PersistedScopedModels) -> Seq<
    (Seq<char>, JsonModel),
> {
    match persisted {
        PersistedScopedModels::AllEnabled => without_member(ms, "enabledModels"@),
        PersistedScopedModels::Explicit(ids) => with_member(ms, "enabledModels"@, ids_model(ids@)),
    }
}

/// Writes the model scope into the settings object (see
/// `with_enabled_models`).
pub fn apply_enabled_models_setting(config: &mut Vec<(String, JsonValue)>, persisted: &PersistedScopedModels)
    ensures
        object_model(final(config)@) == with_enabled_models(object_model(old(config)@), *persisted),
{
    match persisted {
        PersistedScopedModels::AllEnabled => remove_member(config, "enabledModels"),
        PersistedScopedModels::Explicit(ids) => {
            let mut items: Vec<JsonValue> = Vec::new();
            let mut i: usize = 0;
            while i < ids.len()
                invariant
                    0 <= i <= ids@.len(),
                    crate::rpc::json_models(items@) == ids@.map_values(|s: String| JsonModel::Str(s@)).take(i as int),
                decreases ids@.len() - i,
            {
                let ghost before = items@;
                items.push(JsonValue::Str(owned(ids[i].as_str())));
                proof {
                    reveal_with_fuel(json_model, 1);
                }
                assert(crate::rpc::json_models(items@) =~= crate::rpc::json_models(before).push(
                    JsonModel::Str(ids@[i as int]@),
                ));
                assert(ids@.map_values(|s: String| JsonModel::Str(s@)).take(i + 1) =~= ids@.map_values(
                    |s: String| JsonModel::Str(s@),
                ).take(i as int).push(JsonModel::Str(ids@[i as int]@)));
                i = i + 1;
            }
            let ghost all = items@;
            assert(ids@.map_values(|s: String| JsonModel::Str(s@)).take(i as int) =~= ids@.map_values(
                |s: String| JsonModel::Str(s@),
            ));
            let array = JsonValue::Array(items);
            proof {
                reveal_with_fuel(json_model, 1);
                assert(crate::rpc::json_models(all) =~= match json_model(array) {
                    JsonModel::Array(a) => a,
                    _ => seq![],
                });
            }
            set_member(config, "enabledModels", array);
        },
    }
}

/// The settings object of a settings file's JSON: its members, or, where
/// the file holds anything but an object, the error naming `path`.
pub fn settings_object(value: JsonValue, path: &str) -> (r: Result<Vec<(String, JsonValue)>, String>)
    ensures
        match r {
            Ok(ms) => json_model(value) == JsonModel::Object(object_model(ms@)),
            Err(e) => !(json_model(value) is Object) && e@ == path@ + " must contain a JSON object"@,
        },
{
    proof {
        reveal_with_fuel(json_model, 1);
    }
    match value {
        JsonValue::Object(ms) => {
            proof {
                lemma_object_members(ms);
            }
            Ok(ms)
        },
        _ => {
            let mut e = owned(path);
            e.append(" must contain a JSON object");
            Err(e)
        },
    }
}

/// The settings object of a settings file's text: where the text is JSON,
/// what `settings_object` makes of it; otherwise the reader's error.
pub fn settings_object_from_text(raw: &str, path: &str) -> (r: Result<Vec<(String, JsonValue)>, String>)
    ensures
        match crate::json_text::json_text_value(raw@) {
            Some(v) => match r {
                Ok(ms) => v == JsonModel::Object(object_model(ms@)),
                Err(e) => !(v is Object) && e@ == path@ + " must contain a JSON object"@,
            },
            None => r matches Err(e) && e@ == crate::json_text::json_error_text(raw@),
        },
{
    match crate::json_text::parse_json_text(raw) {
        Ok(value) => settings_object(value, path),
        Err(message) => Err(message),
    }
}

/// The text written to the settings file for its object: the object's
/// pretty-printed JSON and a newline.
pub fn settings_file_text(config: Vec<(String, JsonValue)>) -> (r: String)
    ensures
        r@ == crate::json_text::json_pretty_text(JsonModel::Object(object_model(config@))) + seq!['\n'],
{
    proof {
        lemma_object_members(config);
        reveal_with_fuel(json_model, 1);
    }
    let value = JsonValue::Object(config);
    let mut text = crate::json_text::render_json_pretty(&value);
    crate::text::push_line(&mut text, "");
    proof {
        reveal_strlit("");
    }
    assert(text@ =~= crate::json_text::json_pretty_text(JsonModel::Object(object_model(config@))) + seq!['\n']);
    text
}

/// Reading a key after setting it gives the value set; every other key
/// reads as before.
pub proof fn lemma_set_member_reads_back(ms: Seq<(Seq<char>, JsonModel)>, key: Seq<char>, v: JsonModel, other: Seq<char>)
    ensures
        member(with_member(ms, key, v), key) == Some(v),
        other != key ==> member(with_member(ms, key, v), other) == member(ms, other),
    decreases ms.len(),
{
    if has_key(ms, key) {
        lemma_replaced_reads(ms, key, v, key);
        lemma_replaced_reads(ms, key, v, other);
    } else {
        assert(ms.push((key, v)).drop_last() =~= ms);
    }
}

/// Lookups in `replaced`: `key` reads `v` where it was there; other keys
/// read as before.
proof fn lemma_replaced_reads(ms: Seq<(Seq<char>, JsonModel)>, key: Seq<char>, v: JsonModel, other: Seq<char>)
    ensures
        member(replaced(ms, key, v), other) == if other == key {
            if has_key(ms, key) {
                Some(v)
            } else {
                None
            }
        } else {
            member(ms, other)
        },
    decreases ms.len(),
{
    if ms.len() > 0 {
        let rest = ms.drop_last();
        assert(replaced(ms, key, v).drop_last() =~= replaced(rest, key, v));
        lemma_replaced_reads(rest, key, v, other);
        if other == key && ms.last().0 != key {
            if has_key(ms, key) {
                let i = choose|i: int| 0 <= i < ms.len() && (#[trigger] ms[i]).0 == key;
                assert(rest[i].0 == key);
            } else {
                assert forall|i: int| 0 <= i < rest.len() implies (#[trigger] rest[i]).0 != key by {
                    assert(ms[i] == rest[i]);
                }
            }
        }
    } else {
        assert(!has_key(ms, key));
    }
}

/// Reading a key after removing it gives nothing; every other key reads
/// as before.
pub proof fn lemma_remove_member_reads(ms: Seq<(Seq<char>, JsonModel)>, key: Seq<char>, other: Seq<char>)
    ensures
        member(without_member(ms, key), key) is None,
        other != key ==> member(without_member(ms, key), other) == member(ms, other),
    decreases ms.len(),
{
    if ms.len() > 0 {
        lemma_remove_member_reads(ms.drop_last(), key, other);
        if ms.last().0 != key {
            assert(without_member(ms.drop_last(), key).push(ms.last()).drop_last() =~= without_member(
                ms.drop_last(),
                key,
            ));
        }
    }
}

/// Reading a nested key after setting it gives the value set; the other
/// keys of the parent object, and the other top-level keys, read as before.
pub proof fn lemma_set_nested_reads_back(
    ms: Seq<(Seq<char>, JsonModel)>,
    parent: Seq<char>,
    key: Seq<char>,
    v: JsonModel,
    other: Seq<char>,
    other_parent: Seq<char>,
)
    ensures
        member(object_at(with_nested(ms, parent, key, v), parent), key) == Some(v),
        other != key ==> member(object_at(with_nested(ms, parent, key, v), parent), other) == member(
            object_at(ms, parent),
            other,
        ),
        other_parent != parent ==> member(with_nested(ms, parent, key, v), other_parent) == member(ms, other_parent),
{
    let inner = with_member(object_at(ms, parent), key, v);
    lemma_set_member_reads_back(ms, parent, JsonModel::Object(inner), other_parent);
    lemma_set_member_reads_back(object_at(ms, parent), key, v, other);
}


/// What is at `path` (a key, inside a parent object where it names one).
pub open spec fn read_setting(ms: Seq<(Seq<char>, JsonModel)>, path: (Option<Seq<char>>, Seq<char>)) -> Option<JsonModel> {
    match path.0 {
        Some(parent) => member(object_at(ms, parent), path.1),
        None => member(ms, path.1),
    }
}

/// The top-level key a path goes through.
pub open spec fn top_key(path: (Option<Seq<char>>, Seq<char>)) -> Seq<char> {
    match path.0 {
        Some(parent) => parent,
        None => path.1,
    }
}

/// Writing at `a` leaves `b` alone: they go through different top-level
/// keys, or are different keys of the same parent object.
pub open spec fn apart(a: (Option<Seq<char>>, Seq<char>), b: (Option<Seq<char>>, Seq<char>)) -> bool {
    top_key(a) != top_key(b) || (a.0 is Some && a.0 == b.0 && a.1 != b.1)
}

/// The value the last change at `path` writes, if one does.
pub open spec fn last_write(cs: Seq<(Option<Seq<char>>, Seq<char>, SettingValue)>, path: (Option<Seq<char>>, Seq<char>)) -> Option<
    JsonModel,
>
    decreases cs.len(),
{
    if cs.len() == 0 {
        None
    } else if (cs.last().0, cs.last().1) == path {
        Some(setting_model(cs.last().2))
    } else {
        last_write(cs.drop_last(), path)
    }
}

/// One change read back at a path: the value written where it is the
/// change's path, the old value where the two are apart.
proof fn lemma_change_read(
    ms: Seq<(Seq<char>, JsonModel)>,
    c: (Option<Seq<char>>, Seq<char>, SettingValue),
    path: (Option<Seq<char>>, Seq<char>),
)
    ensures
        (c.0, c.1) == path ==> read_setting(with_change(ms, c), path) == Some(setting_model(c.2)),
        apart((c.0, c.1), path) ==> read_setting(with_change(ms, c), path) == read_setting(ms, path),
{
    let v = setting_model(c.2);
    match c.0 {
        Some(q) => {
            match path.0 {
                Some(p) => {
                    lemma_set_nested_reads_back(ms, q, c.1, v, path.1, p);
                },
                None => {
                    lemma_set_nested_reads_back(ms, q, c.1, v, path.1, path.1);
                },
            }
        },
        None => {
            match path.0 {
                Some(p) => {
                    lemma_set_member_reads_back(ms, c.1, v, p);
                },
                None => {
                    lemma_set_member_reads_back(ms, c.1, v, path.1);
                },
            }
        },
    }
}

/// Changes read back at a path that each of them writes or leaves alone:
/// the last value written there, else the old value.
pub proof fn lemma_changes_read(
    ms: Seq<(Seq<char>, JsonModel)>,
    cs: Seq<(Option<Seq<char>>, Seq<char>, SettingValue)>,
    path: (Option<Seq<char>>, Seq<char>),
)
    requires
        forall|i: int| 0 <= i < cs.len() ==> ((#[trigger] cs[i]).0, cs[i].1) == path || apart((cs[i].0, cs[i].1), path),
    ensures
        read_setting(with_changes(ms, cs), path) == match last_write(cs, path) {
            Some(v) => Some(v),
            None => read_setting(ms, path),
        },
    decreases cs.len(),
{
    if cs.len() > 0 {
        let rest = cs.drop_last();
        assert forall|i: int| 0 <= i < rest.len() implies ((#[trigger] rest[i]).0, rest[i].1) == path || apart(
            (rest[i].0, rest[i].1),
            path,
        ) by {
            assert(rest[i] == cs[i]);
        }
        lemma_changes_read(ms, rest, path);
        assert(cs[cs.len() - 1] == cs.last());
        lemma_change_read(with_changes(ms, rest), cs.last(), path);
    }
}

/// Writing `a` then `b` is writing `a + b`.
pub proof fn lemma_with_changes_append(
    ms: Seq<(Seq<char>, JsonModel)>,
    a: Seq<(Option<Seq<char>>, Seq<char>, SettingValue)>,
    b: Seq<(Option<Seq<char>>, Seq<char>, SettingValue)>,
)
    ensures
        with_changes(ms, a + b) == with_changes(with_changes(ms, a), b),
    decreases b.len(),
{
    if b.len() == 0 {
        assert(a + b =~= a);
    } else {
        lemma_with_changes_append(ms, a, b.drop_last());
        assert((a + b).drop_last() =~= a + b.drop_last());
        assert((a + b).last() == b.last());
    }
}

/// The change at `path` when a setting changed, none otherwise.
pub open spec fn change_piece(changed: bool, path: (Option<Seq<char>>, Seq<char>), value: SettingValue) -> Seq<
    (Option<Seq<char>>, Seq<char>, SettingValue),
> {
    if changed {
        seq![(path.0, path.1, value)]
    } else {
        seq![]
    }
}

/// A piece read back at a path it writes or leaves alone.
proof fn lemma_piece_read(
    ms: Seq<(Seq<char>, JsonModel)>,
    changed: bool,
    at: (Option<Seq<char>>, Seq<char>),
    value: SettingValue,
    path: (Option<Seq<char>>, Seq<char>),
)
    requires
        at == path || apart(at, path),
    ensures
        read_setting(with_changes(ms, change_piece(changed, at, value)), path) == if changed && at == path {
            Some(setting_model(value))
        } else {
            read_setting(ms, path)
        },
{
    let piece = change_piece(changed, at, value);
    if changed {
        assert(piece.drop_last() =~= seq![]);
        assert(piece.last() == (at.0, at.1, value));
        assert(with_changes(ms, piece.drop_last()) == ms);
        assert(with_changes(ms, piece) == with_change(ms, (at.0, at.1, value)));
        lemma_change_read(ms, (at.0, at.1, value), path);
    } else {
        assert(with_changes(ms, piece) == ms);
    }
}

/// Two settings' paths are the same path exactly when they are the same
/// setting, and apart otherwise.
proof fn lemma_setting_paths_apart(i: int, j: int)
    requires
        0 <= i < 5,
        0 <= j < 5,
    ensures
        (setting_paths()[i] == setting_paths()[j]) == (i == j),
        setting_paths()[i] == setting_paths()[j] || apart(setting_paths()[i], setting_paths()[j]),
{
    reveal_strlit("compaction");
    reveal_strlit("images");
    reveal_strlit("enabled");
    reveal_strlit("autoResize");
    reveal_strlit("blockImages");
    reveal_strlit("editorPaddingX");
    reveal_strlit("autocompleteMaxVisible");
    assert("compaction"@.len() == 10);
    assert("images"@.len() == 6);
    assert("autoResize"@.len() == 10);
    assert("blockImages"@.len() == 11);
    assert("editorPaddingX"@.len() == 14);
    assert("autocompleteMaxVisible"@.len() == 22);
}

/// The paths of the five settings, in the order of the picker's rows.
pub open spec fn setting_paths() -> Seq<(Option<Seq<char>>, Seq<char>)> {
    seq![
        (Some("compaction"@), "enabled"@),
        (Some("images"@), "autoResize"@),
        (Some("images"@), "blockImages"@),
        (None, "editorPaddingX"@),
        (None, "autocompleteMaxVisible"@),
    ]
}

/// The value of the setting at row `k` of a selection, as JSON.
pub open spec fn selection_value(s: SettingsPickerSelection, k: int) -> JsonModel {
    if k == 0 {
        JsonModel::Bool(s.auto_compact)
    } else if k == 1 {
        JsonModel::Bool(s.auto_resize_images)
    } else if k == 2 {
        JsonModel::Bool(s.block_images)
    } else if k == 3 {
        setting_model(SettingValue::Number(s.editor_padding_x))
    } else {
        setting_model(SettingValue::Number(s.autocomplete_max_visible))
    }
}

/// Saving settings writes what changed and nothing else: after the
/// changes from `previous` to `next` are written, each setting that
/// changed reads back as its new value, each that did not reads as the
/// file had it, and every top-level key that holds no setting is untouched.
pub proof fn lemma_saved_settings_read_back(
    ms: Seq<(Seq<char>, JsonModel)>,
    previous: SettingsPickerSelection,
    next: SettingsPickerSelection,
    k: int,
    other: Seq<char>,
)
    requires
        0 <= k < 5,
    ensures
        read_setting(with_changes(ms, settings_changes(previous, next)), setting_paths()[k]) == if selection_value(
            previous,
            k,
        ) != selection_value(next, k) {
            Some(selection_value(next, k))
        } else {
            read_setting(ms, setting_paths()[k])
        },
        other != "compaction"@ && other != "images"@ && other != "editorPaddingX"@ && other
            != "autocompleteMaxVisible"@ ==> member(with_changes(ms, settings_changes(previous, next)), other)
            == member(ms, other),
{
    reveal_strlit("compaction");
    reveal_strlit("images");
    reveal_strlit("enabled");
    reveal_strlit("autoResize");
    reveal_strlit("blockImages");
    reveal_strlit("editorPaddingX");
    reveal_strlit("autocompleteMaxVisible");
    let paths = setting_paths();
    let p1 = change_piece(
        previous.auto_compact != next.auto_compact,
        paths[0],
        SettingValue::Bool(next.auto_compact),
    );
    let p2 = change_piece(
        previous.auto_resize_images != next.auto_resize_images,
        paths[1],
        SettingValue::Bool(next.auto_resize_images),
    );
    let p3 = change_piece(previous.block_images != next.block_images, paths[2], SettingValue::Bool(next.block_images));
    let p4 = change_piece(
        previous.editor_padding_x != next.editor_padding_x,
        paths[3],
        SettingValue::Number(next.editor_padding_x),
    );
    let p5 = change_piece(
        previous.autocomplete_max_visible != next.autocomplete_max_visible,
        paths[4],
        SettingValue::Number(next.autocomplete_max_visible),
    );
    assert(settings_changes(previous, next) =~= p1 + p2 + p3 + p4 + p5);
    let s1 = with_changes(ms, p1);
    let s2 = with_changes(s1, p2);
    let s3 = with_changes(s2, p3);
    let s4 = with_changes(s3, p4);
    let s5 = with_changes(s4, p5);
    lemma_with_changes_append(ms, p1, p2);
    lemma_with_changes_append(ms, p1 + p2, p3);
    lemma_with_changes_append(ms, p1 + p2 + p3, p4);
    lemma_with_changes_append(ms, p1 + p2 + p3 + p4, p5);
    assert(with_changes(ms, settings_changes(previous, next)) == s5);
    let path = paths[k];
    lemma_setting_paths_apart(0, k);
    lemma_setting_paths_apart(1, k);
    lemma_setting_paths_apart(2, k);
    lemma_setting_paths_apart(3, k);
    lemma_setting_paths_apart(4, k);
    lemma_piece_read(ms, previous.auto_compact != next.auto_compact, paths[0], SettingValue::Bool(next.auto_compact), path);
    lemma_piece_read(
        s1,
        previous.auto_resize_images != next.auto_resize_images,
        paths[1],
        SettingValue::Bool(next.auto_resize_images),
        path,
    );
    lemma_piece_read(s2, previous.block_images != next.block_images, paths[2], SettingValue::Bool(next.block_images), path);
    lemma_piece_read(
        s3,
        previous.editor_padding_x != next.editor_padding_x,
        paths[3],
        SettingValue::Number(next.editor_padding_x),
        path,
    );
    lemma_piece_read(
        s4,
        previous.autocomplete_max_visible != next.autocomplete_max_visible,
        paths[4],
        SettingValue::Number(next.autocomplete_max_visible),
        path,
    );
    if previous.editor_padding_x != next.editor_padding_x {
        lemma_decimal_injective(previous.editor_padding_x as nat, next.editor_padding_x as nat);
    }
    if previous.autocomplete_max_visible != next.autocomplete_max_visible {
        lemma_decimal_injective(previous.autocomplete_max_visible as nat, next.autocomplete_max_visible as nat);
    }
    if other != "compaction"@ && other != "images"@ && other != "editorPaddingX"@ && other != "autocompleteMaxVisible"@ {
        let top = (None::<Seq<char>>, other);
        lemma_piece_read(ms, previous.auto_compact != next.auto_compact, paths[0], SettingValue::Bool(next.auto_compact), top);
        lemma_piece_read(
            s1,
            previous.auto_resize_images != next.auto_resize_images,
            paths[1],
            SettingValue::Bool(next.auto_resize_images),
            top,
        );
        lemma_piece_read(s2, previous.block_images != next.block_images, paths[2], SettingValue::Bool(next.block_images), top);
        lemma_piece_read(
            s3,
            previous.editor_padding_x != next.editor_padding_x,
            paths[3],
            SettingValue::Number(next.editor_padding_x),
            top,
        );
        lemma_piece_read(
            s4,
            previous.autocomplete_max_visible != next.autocomplete_max_visible,
            paths[4],
            SettingValue::Number(next.autocomplete_max_visible),
            top,
        );
    }
}

/// Different numbers are written differently.
pub proof fn lemma_decimal_injective(a: nat, b: nat)
    requires
        a != b,
    ensures
        decimal(a) != decimal(b),
    decreases a + b,
{
    if a < 10 && b < 10 {
        assert(decimal(a)[0] != decimal(b)[0]);
    } else if a < 10 {
        lemma_decimal_long(b);
    } else if b < 10 {
        lemma_decimal_long(a);
    } else if a / 10 != b / 10 {
        lemma_decimal_injective(a / 10, b / 10);
        if decimal(a) == decimal(b) {
            assert(decimal(a).drop_last() =~= decimal(a / 10));
            assert(decimal(b).drop_last() =~= decimal(b / 10));
        }
    } else {
        assert(a % 10 != b % 10);
        assert(decimal(a).last() != decimal(b).last());
    }
}

/// Numbers of ten and more have at least two digits.
proof fn lemma_decimal_long(n: nat)
    requires
        n >= 10,
    ensures
        decimal(n).len() >= 2,
    decreases n,
{
    if n / 10 >= 10 {
        lemma_decimal_long(n / 10);
    } else {
        assert(decimal(n / 10).len() == 1);
    }
    assert(decimal(n).len() == decimal(n / 10).len() + 1);
}


/// Saving the model scope writes it and nothing else: `enabledModels`
/// then reads as the enabled ids (nothing when every model is enabled),
/// and every other key reads as before.
pub proof fn lemma_saved_scope_reads_back(ms: Seq<(Seq<char>, JsonModel)>, persisted: PersistedScopedModels, other: Seq<char>)
    ensures
        member(with_enabled_models(ms, persisted), "enabledModels"@) == match persisted {
            PersistedScopedModels::AllEnabled => None,
            PersistedScopedModels::Explicit(ids) => Some(ids_model(ids@)),
        },
        other != "enabledModels"@ ==> member(with_enabled_models(ms, persisted), other) == member(ms, other),
{
    match persisted {
        PersistedScopedModels::AllEnabled => {
            lemma_remove_member_reads(ms, "enabledModels"@, other);
        },
        PersistedScopedModels::Explicit(ids) => {
            lemma_set_member_reads_back(ms, "enabledModels"@, ids_model(ids@), other);
        },
    }
}

} // verus!
