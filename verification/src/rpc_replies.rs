//! What some RPC commands decide and answer once they run: which model
//! `set_model` names, where `fork` branches, and the small reply payloads.
use vstd::prelude::*;
use crate::args::ThinkingLevel;
use crate::list_picker::{candidate_view, ForkMessageCandidate};
use crate::rpc::{json_model, json_models, members_of, JsonModel, JsonValue};
use crate::text::{chars_eq, chars_of, owned, push_str_chars, string_from_chars};

verus! {

/// The first of `models` (each a provider and an id) that is `provider`'s
/// model `model_id`.
pub open spec fn model_position(models: Seq<(Seq<char>, Seq<char>)>, provider: Seq<char>, model_id: Seq<char>) -> Option<nat>
    decreases models.len(),
{
    if models.len() == 0 {
        None
    } else if models[0] == (provider, model_id) {
        Some(0)
    } else {
        match model_position(models.drop_first(), provider, model_id) {
            Some(k) => Some(k + 1),
            None => None,
        }
    }
}

/// The views of `(provider, id)` pairs.
pub open spec fn model_keys(models: Seq<(String, String)>) -> Seq<(Seq<char>, Seq<char>)> {
    models.map_values(|m: (String, String)| (m.0@, m.1@))
}

/// Finds the model `set_model` names among the available ones, or the
/// error naming it where none matches.
pub fn find_rpc_model(models: &Vec<(String, String)>, provider: &str, model_id: &str) -> (r: Result<usize, String>)
    ensures
        match r {
            Ok(k) => model_position(model_keys(models@), provider@, model_id@) == Some(k as nat),
            Err(e) => model_position(model_keys(models@), provider@, model_id@) is None && e@ == "Model not found: "@
                + provider@ + seq!['/'] + model_id@,
        },
{
    let ghost keys = model_keys(models@);
    let p = chars_of(provider);
    let m = chars_of(model_id);
    let mut i: usize = 0;
    assert(keys.skip(0) =~= keys);
    while i < models.len()
        invariant
            0 <= i <= models@.len(),
            keys == model_keys(models@),
            p@ == provider@,
            m@ == model_id@,
            model_position(keys, provider@, model_id@) == match model_position(keys.skip(i as int), provider@, model_id@) {
                Some(k) => Some((k + i) as nat),
                None => None,
            },
        decreases models@.len() - i,
    {
        let a = chars_of(models[i].0.as_str());
        let b = chars_of(models[i].1.as_str());
        assert(keys.skip(i as int)[0] == keys[i as int]);
        assert(keys.skip(i as int).drop_first() =~= keys.skip(i + 1));
        if chars_eq(&a, &p) && chars_eq(&b, &m) {
            return Ok(i);
        }
        i = i + 1;
    }
    assert(keys.skip(i as int) =~= seq![]);
    let mut e = chars_of("Model not found: ");
    push_str_chars(&mut e, provider);
    e.push('/');
    push_str_chars(&mut e, model_id);
    Err(string_from_chars(&e))
}

/// Where `fork` starts the new session.
pub enum ForkTarget {
    /// A branch of the current session at the chosen message's parent.
    Branch { parent_id: String, text: String },
    /// A new session, the chosen message being the first one.
    NewSession { text: String },
}

/// The first candidate with id `entry_id`.
pub open spec fn candidate_position(cs: Seq<(Seq<char>, Option<Seq<char>>, Seq<char>)>, entry_id: Seq<char>) -> Option<nat>
    decreases cs.len(),
{
    if cs.len() == 0 {
        None
    } else if cs[0].0 == entry_id {
        Some(0)
    } else {
        match candidate_position(cs.drop_first(), entry_id) {
            Some(k) => Some(k + 1),
            None => None,
        }
    }
}

/// The abstract value of a fork target: the parent to branch at (none for
/// a new session) and the chosen message's text.
pub open spec fn fork_target_view(t: ForkTarget) -> (Option<Seq<char>>, Seq<char>) {
    match t {
        ForkTarget::Branch { parent_id, text } => (Some(parent_id@), text@),
        ForkTarget::NewSession { text } => (None, text@),
    }
}

/// The views of the candidates.
pub open spec fn candidate_views(cs: Seq<ForkMessageCandidate>) -> Seq<(Seq<char>, Option<Seq<char>>, Seq<char>)> {
    cs.map_values(|c: ForkMessageCandidate| candidate_view(c))
}

/// Where `fork` to the message `entry_id` starts: at the first candidate
/// with that id, a branch at its parent, or a new session where it has
/// none; an error where no candidate has the id.
pub fn rpc_fork_target(candidates: &Vec<ForkMessageCandidate>, entry_id: &str) -> (r: Result<ForkTarget, String>)
    ensures
        match r {
            Ok(t) => candidate_position(candidate_views(candidates@), entry_id@) matches Some(k) && fork_target_view(t) == (
                candidate_views(candidates@)[k as int].1,
                candidate_views(candidates@)[k as int].2,
            ),
            Err(e) => candidate_position(candidate_views(candidates@), entry_id@) is None && e@
                == "Invalid entry ID for forking"@,
        },
{
    let ghost cs = candidate_views(candidates@);
    let want = chars_of(entry_id);
    let mut i: usize = 0;
    assert(cs.skip(0) =~= cs);
    while i < candidates.len()
        invariant
            0 <= i <= candidates@.len(),
            cs == candidate_views(candidates@),
            want@ == entry_id@,
            candidate_position(cs, entry_id@) == match candidate_position(cs.skip(i as int), entry_id@) {
                Some(k) => Some((k + i) as nat),
                None => None,
            },
        decreases candidates@.len() - i,
    {
        assert(cs.skip(i as int)[0] == cs[i as int]);
        assert(cs.skip(i as int).drop_first() =~= cs.skip(i + 1));
        let id = chars_of(candidates[i].entry_id.as_str());
        if chars_eq(&id, &want) {
            let text = owned(candidates[i].text.as_str());
            return match &candidates[i].parent_id {
                Some(p) => Ok(ForkTarget::Branch { parent_id: owned(p.as_str()), text }),
                None => Ok(ForkTarget::NewSession { text }),
            };
        }
        i = i + 1;
    }
    assert(cs.skip(i as int) =~= seq![]);
    Err(owned("Invalid entry ID for forking"))
}

/// The `get_fork_messages` payload: each candidate's entry id and text.
pub open spec fn fork_messages_model(cs: Seq<(Seq<char>, Option<Seq<char>>, Seq<char>)>) -> JsonModel {
    JsonModel::Object(
        seq![
            ("messages"@, JsonModel::Array(
                cs.map_values(
                    |c: (Seq<char>, Option<Seq<char>>, Seq<char>)|
                        JsonModel::Object(seq![("entryId"@, JsonModel::Str(c.0)), ("text"@, JsonModel::Str(c.2))]),
                ),
            )),
        ],
    )
}

/// The `get_fork_messages` payload (see `fork_messages_model`).
pub fn rpc_fork_messages_json(candidates: &Vec<ForkMessageCandidate>) -> (r: JsonValue)
    ensures
        json_model(r) == fork_messages_model(candidate_views(candidates@)),
{
    let ghost cs = candidate_views(candidates@);
    let ghost expected = cs.map_values(
        |c: (Seq<char>, Option<Seq<char>>, Seq<char>)|
            JsonModel::Object(seq![("entryId"@, JsonModel::Str(c.0)), ("text"@, JsonModel::Str(c.2))]),
    );
    let mut items: Vec<JsonValue> = Vec::new();
    let mut i: usize = 0;
    while i < candidates.len()
        invariant
            0 <= i <= candidates@.len(),
            cs == candidate_views(candidates@),
            expected == cs.map_values(
                |c: (Seq<char>, Option<Seq<char>>, Seq<char>)|
                    JsonModel::Object(seq![("entryId"@, JsonModel::Str(c.0)), ("text"@, JsonModel::Str(c.2))]),
            ),
            json_models(items@) == expected.take(i as int),
        decreases candidates@.len() - i,
    {
        let item = JsonValue::Object(
            vec![
                (owned("entryId"), JsonValue::Str(owned(candidates[i].entry_id.as_str()))),
                (owned("text"), JsonValue::Str(owned(candidates[i].text.as_str()))),
            ],
        );
        proof {
            reveal_with_fuel(json_model, 2);
            assert(members_of(item) =~= seq![
                ("entryId"@, JsonModel::Str(cs[i as int].0)),
                ("text"@, JsonModel::Str(cs[i as int].2)),
            ]);
        }
        let ghost before = items@;
        items.push(item);
        assert(json_models(items@) =~= json_models(before).push(json_model(item)));
        assert(expected.take(i + 1) =~= expected.take(i as int).push(expected[i as int]));
        i = i + 1;
    }
    assert(expected.take(i as int) =~= expected);
    let ghost all = items@;
    let list = JsonValue::Array(items);
    let r = JsonValue::Object(vec![(owned("messages"), list)]);
    proof {
        reveal_with_fuel(json_model, 2);
        assert(json_models(all) =~= match json_model(list) {
            JsonModel::Array(a) => a,
            _ => seq![],
        });
        if let JsonModel::Object(m) = fork_messages_model(cs) {
            assert(members_of(r) =~= m);
        }
    }
    r
}

/// A single-member payload `{key: value}`.
fn single_member(key: &str, value: JsonValue) -> (r: JsonValue)
    ensures
        json_model(r) == JsonModel::Object(seq![(key@, json_model(value))]),
{
    let ghost v = value;
    let r = JsonValue::Object(vec![(owned(key), value)]);
    proof {
        reveal_with_fuel(json_model, 1);
        assert(members_of(r) =~= seq![(key@, json_model(v))]);
    }
    r
}

/// The `get_last_assistant_text` payload: `{"text": ...}`, null where no
/// reply has text.
pub fn rpc_last_text_json(text: Option<String>) -> (r: JsonValue)
    ensures
        json_model(r) == JsonModel::Object(
            seq![("text"@, match text {
                Some(t) => JsonModel::Str(t@),
                None => JsonModel::Null,
            })],
        ),
{
    let value = match text {
        Some(t) => JsonValue::Str(t),
        None => JsonValue::Null,
    };
    proof {
        reveal_with_fuel(json_model, 1);
    }
    single_member("text", value)
}

/// The `cycle_thinking_level` payload: `{"level": ...}` with the new
/// level's name, or null where the model does not reason.
pub fn rpc_thinking_cycle_json(level: Option<ThinkingLevel>) -> (r: JsonValue)
    ensures
        json_model(r) == match level {
            Some(l) => JsonModel::Object(seq![("level"@, JsonModel::Str(crate::thinking::level_name(l)))]),
            None => JsonModel::Null,
        },
{
    match level {
        Some(l) => {
            let name = JsonValue::Str(owned(crate::thinking::thinking_level_label(l)));
            proof {
                reveal_with_fuel(json_model, 1);
            }
            single_member("level", name)
        },
        None => JsonValue::Null,
    }
}

} // verus!
