//! The RPC protocol: decoding command objects and building responses.
use vstd::prelude::*;
use crate::text::{chars_eq_str, chars_of, owned, push_str_chars, string_from_chars};

verus! {

/// A JSON value as the RPC protocol reads and writes it.
pub enum JsonValue {
    Null,
    Bool(bool),
    /// A number, kept as its JSON text.
    Number(String),
    Str(String),
    Array(Vec<JsonValue>),
    /// Members in input order; a key given twice means its last value.
    Object(Vec<(String, JsonValue)>),
}

/// The abstract value of a `JsonValue`.
pub enum JsonModel {
    Null,
    Bool(bool),
    Number(Seq<char>),
    Str(Seq<char>),
    Array(Seq<JsonModel>),
    Object(Seq<(Seq<char>, JsonModel)>),
}

/// The abstract value of a `JsonValue`.
pub open spec fn json_model(v: JsonValue) -> JsonModel
    decreases v,
{
    match v {
        JsonValue::Null => JsonModel::Null,
        JsonValue::Bool(b) => JsonModel::Bool(b),
        JsonValue::Number(n) => JsonModel::Number(n@),
        JsonValue::Str(s) => JsonModel::Str(s@),
        JsonValue::Array(items) => JsonModel::Array(
            Seq::new(
                items@.len(),
                |i: int|
                    if 0 <= i < items@.len() {
                        json_model(items@[i])
                    } else {
                        JsonModel::Null
                    },
            ),
        ),
        JsonValue::Object(members) => JsonModel::Object(
            Seq::new(
                members@.len(),
                |i: int|
                    if 0 <= i < members@.len() {
                        (members@[i].0@, json_model(members@[i].1))
                    } else {
                        (seq![], JsonModel::Null)
                    },
            ),
        ),
    }
}

/// The value of `key` among `members`: the last one given.
pub open spec fn member(members: Seq<(Seq<char>, JsonModel)>, key: Seq<char>) -> Option<JsonModel>
    decreases members.len(),
{
    if members.len() == 0 {
        None
    } else if members.last().0 == key {
        Some(members.last().1)
    } else {
        member(members.drop_last(), key)
    }
}

/// A copy of `v`.
pub fn copy_json(v: &JsonValue) -> (r: JsonValue)
    ensures
        json_model(r) == json_model(*v),
    decreases v,
{
    match v {
        JsonValue::Null => JsonValue::Null,
        JsonValue::Bool(b) => JsonValue::Bool(*b),
        JsonValue::Number(n) => JsonValue::Number(owned(n.as_str())),
        JsonValue::Str(t) => JsonValue::Str(owned(t.as_str())),
        JsonValue::Array(items) => {
            let mut out: Vec<JsonValue> = Vec::new();
            let mut i: usize = 0;
            while i < items.len()
                invariant
                    0 <= i <= items@.len(),
                    *v == JsonValue::Array(*items),
                    out@.len() == i,
                    forall|k: int| 0 <= k < i ==> json_model(#[trigger] out@[k]) == json_model(items@[k]),
                decreases items@.len() - i,
            {
                proof {
                    assert(decreases_to!(v => v->Array_0));
                    assert(decreases_to!(*items => items[i as int]));
                }
                let c = copy_json(&items[i]);
                out.push(c);
                i = i + 1;
            }
            let r = JsonValue::Array(out);
            assert(json_model(r) == json_model(*v)) by {
                if let JsonModel::Array(a) = json_model(r) {
                    if let JsonModel::Array(b) = json_model(*v) {
                        assert(a =~= b);
                    }
                }
            }
            r
        },
        JsonValue::Object(members) => {
            let mut out: Vec<(String, JsonValue)> = Vec::new();
            let mut i: usize = 0;
            while i < members.len()
                invariant
                    0 <= i <= members@.len(),
                    *v == JsonValue::Object(*members),
                    out@.len() == i,
                    forall|k: int|
                        0 <= k < i ==> (#[trigger] out@[k]).0@ == members@[k].0@ && json_model(out@[k].1) == json_model(
                            members@[k].1,
                        ),
                decreases members@.len() - i,
            {
                proof {
                    assert(decreases_to!(v => v->Object_0));
                    assert(decreases_to!(*members => members[i as int]));
                    assert(decreases_to!(members@[i as int] => members@[i as int].1));
                }
                let c = copy_json(&members[i].1);
                out.push((owned(members[i].0.as_str()), c));
                i = i + 1;
            }
            let r = JsonValue::Object(out);
            assert(json_model(r) == json_model(*v)) by {
                if let JsonModel::Object(a) = json_model(r) {
                    if let JsonModel::Object(b) = json_model(*v) {
                        assert(a =~= b);
                    }
                }
            }
            r
        },
    }
}

/// The string value of `key`, if it has one.
pub open spec fn str_member(members: Seq<(Seq<char>, JsonModel)>, key: Seq<char>) -> Option<Seq<char>> {
    match member(members, key) {
        Some(JsonModel::Str(s)) => Some(s),
        _ => None,
    }
}

/// The boolean value of `key`, if it has one.
pub open spec fn bool_member(members: Seq<(Seq<char>, JsonModel)>, key: Seq<char>) -> Option<bool> {
    match member(members, key) {
        Some(JsonModel::Bool(b)) => Some(b),
        _ => None,
    }
}

/// The members of an object.
pub open spec fn members_of(v: JsonValue) -> Seq<(Seq<char>, JsonModel)> {
    match json_model(v) {
        JsonModel::Object(ms) => ms,
        _ => seq![],
    }
}

/// The value of `key` in `members`.
pub fn get_member<'a>(members: &'a Vec<(String, JsonValue)>, key: &str) -> (r: Option<&'a JsonValue>)
    ensures
        match r {
            Some(v) => member(members_of(JsonValue::Object(*members)), key@) == Some(json_model(*v)),
            None => member(members_of(JsonValue::Object(*members)), key@) is None,
        },
{
    let ghost ms = members_of(JsonValue::Object(*members));
    assert(ms.len() == members@.len());
    let k = chars_of(key);
    let mut i: usize = members.len();
    assert(ms.take(i as int) =~= ms);
    while i > 0
        invariant
            0 <= i <= members@.len(),
            ms == members_of(JsonValue::Object(*members)),
            ms.len() == members@.len(),
            k@ == key@,
            member(ms, key@) == member(ms.take(i as int), key@),
        decreases i,
    {
        assert(ms.take(i as int).drop_last() =~= ms.take(i - 1));
        assert(ms[i - 1] == (members@[i - 1].0@, json_model(members@[i - 1].1)));
        let name = chars_of(members[i - 1].0.as_str());
        if crate::text::chars_eq(&name, &k) {
            return Some(&members[i - 1].1);
        }
        i = i - 1;
    }
    None
}

/// The string value of `key`, copied.
pub fn string_member(members: &Vec<(String, JsonValue)>, key: &str) -> (r: Option<String>)
    ensures
        opt_string_view(r) == str_member(members_of(JsonValue::Object(*members)), key@),
{
    match get_member(members, key) {
        Some(JsonValue::Str(s)) => Some(s.clone()),
        _ => None,
    }
}

/// The boolean value of `key`.
pub fn boolean_member(members: &Vec<(String, JsonValue)>, key: &str) -> (r: Option<bool>)
    ensures
        r == bool_member(members_of(JsonValue::Object(*members)), key@),
{
    match get_member(members, key) {
        Some(JsonValue::Bool(b)) => Some(*b),
        _ => None,
    }
}

/// The view of an optional string.
pub open spec fn opt_string_view(o: Option<String>) -> Option<Seq<char>> {
    match o {
        Some(s) => Some(s@),
        None => None,
    }
}

/// The error for a missing string field.
pub open spec fn missing_field(key: Seq<char>) -> Seq<char> {
    "Missing required string field: "@ + key
}

/// Builds `missing_field`.
fn missing_field_message(key: &str) -> (r: String)
    ensures
        r@ == missing_field(key@),
{
    let mut v = chars_of("Missing required string field: ");
    push_str_chars(&mut v, key);
    string_from_chars(&v)
}

/// The string value of `key`, or the error naming the missing field.
pub open spec fn required_str(members: Seq<(Seq<char>, JsonModel)>, key: Seq<char>) -> Result<Seq<char>, Seq<char>> {
    match str_member(members, key) {
        Some(s) => Ok(s),
        None => Err(missing_field(key)),
    }
}

/// Decides `required_str`.
pub fn required_string_member(members: &Vec<(String, JsonValue)>, key: &str) -> (r: Result<String, String>)
    ensures
        match r {
            Ok(s) => required_str(members_of(JsonValue::Object(*members)), key@) == Ok::<Seq<char>, Seq<char>>(s@),
            Err(e) => required_str(members_of(JsonValue::Object(*members)), key@) == Err::<Seq<char>, Seq<char>>(e@),
        },
{
    match string_member(members, key) {
        Some(s) => Ok(s),
        None => Err(missing_field_message(key)),
    }
}

/// An image attached to a prompt.
pub struct RpcImage {
    pub data: String,
    pub mime_type: String,
}

/// One image entry: an object with `data` and `mimeType` (or `mime_type`).
pub open spec fn image_of(m: JsonModel) -> Result<(Seq<char>, Seq<char>), Seq<char>> {
    match m {
        JsonModel::Object(ms) => match str_member(ms, "data"@) {
            None => Err(missing_field("data"@)),
            Some(d) => match str_member(ms, "mimeType"@) {
                Some(t) => Ok((d, t)),
                None => match str_member(ms, "mime_type"@) {
                    Some(t) => Ok((d, t)),
                    None => Err("Image entries must include mimeType"@),
                },
            },
        },
        _ => Err("Image entries must be objects"@),
    }
}

/// The image entries, or the error of the first bad one.
pub open spec fn images_of(items: Seq<JsonModel>) -> Result<Seq<(Seq<char>, Seq<char>)>, Seq<char>>
    decreases items.len(),
{
    if items.len() == 0 {
        Ok(seq![])
    } else {
        match images_of(items.drop_last()) {
            Err(e) => Err(e),
            Ok(prev) => match image_of(items.last()) {
                Ok(i) => Ok(prev.push(i)),
                Err(e) => Err(e),
            },
        }
    }
}

/// The images of a command: none when the field is absent.
pub open spec fn images_field(members: Seq<(Seq<char>, JsonModel)>) -> Result<Seq<(Seq<char>, Seq<char>)>, Seq<char>> {
    match member(members, "images"@) {
        None => Ok(seq![]),
        Some(JsonModel::Array(items)) => images_of(items),
        Some(_) => Err("Field images must be an array"@),
    }
}

/// The view of decoded images.
pub open spec fn images_view(v: Seq<RpcImage>) -> Seq<(Seq<char>, Seq<char>)> {
    v.map_values(|i: RpcImage| (i.data@, i.mime_type@))
}

/// Decodes one image entry.
fn decode_image(v: &JsonValue) -> (r: Result<RpcImage, String>)
    ensures
        match r {
            Ok(i) => image_of(json_model(*v)) == Ok::<(Seq<char>, Seq<char>), Seq<char>>((i.data@, i.mime_type@)),
            Err(e) => image_of(json_model(*v)) == Err::<(Seq<char>, Seq<char>), Seq<char>>(e@),
        },
{
    match v {
        JsonValue::Object(ms) => {
            let data = match string_member(ms, "data") {
                Some(d) => d,
                None => {
                    return Err(missing_field_message("data"));
                },
            };
            match string_member(ms, "mimeType") {
                Some(t) => Ok(RpcImage { data, mime_type: t }),
                None => match string_member(ms, "mime_type") {
                    Some(t) => Ok(RpcImage { data, mime_type: t }),
                    None => Err(owned("Image entries must include mimeType")),
                },
            }
        },
        _ => Err(owned("Image entries must be objects")),
    }
}

/// Decodes the `images` field of a command.
pub fn decode_images(members: &Vec<(String, JsonValue)>) -> (r: Result<Vec<RpcImage>, String>)
    ensures
        match r {
            Ok(v) => images_field(members_of(JsonValue::Object(*members))) == Ok::<Seq<(Seq<char>, Seq<char>)>, Seq<char>>(
                images_view(v@),
            ),
            Err(e) => images_field(members_of(JsonValue::Object(*members))) == Err::<Seq<(Seq<char>, Seq<char>)>, Seq<char>>(
                e@,
            ),
        },
{
    let items = match get_member(members, "images") {
        None => {
            let none: Vec<RpcImage> = Vec::new();
            assert(images_view(none@) =~= seq![]);
            return Ok(none);
        },
        Some(JsonValue::Array(items)) => items,
        Some(_) => {
            return Err(owned("Field images must be an array"));
        },
    };
    let ghost ms = match json_model(JsonValue::Array(*items)) {
        JsonModel::Array(s) => s,
        _ => seq![],
    };
    assert(ms.len() == items@.len());
    assert(images_field(members_of(JsonValue::Object(*members))) == images_of(ms));
    let mut out: Vec<RpcImage> = Vec::new();
    let mut i: usize = 0;
    assert(ms.take(0) =~= seq![]);
    assert(images_view(out@) =~= seq![]);
    while i < items.len()
        invariant
            0 <= i <= items@.len(),
            ms.len() == items@.len(),
            images_field(members_of(JsonValue::Object(*members))) == images_of(ms),
            forall|k: int| 0 <= k < items@.len() ==> #[trigger] ms[k] == json_model(items@[k]),
            images_of(ms.take(i as int)) == Ok::<Seq<(Seq<char>, Seq<char>)>, Seq<char>>(images_view(out@)),
        decreases items@.len() - i,
    {
        assert(ms.take(i + 1).drop_last() =~= ms.take(i as int));
        assert(ms.take(i + 1).last() == json_model(items@[i as int]));
        match decode_image(&items[i]) {
            Ok(img) => {
                let ghost before = out@;
                out.push(img);
                assert(images_view(out@) =~= images_view(before).push((img.data@, img.mime_type@)));
            },
            Err(e) => {
                assert(images_of(ms.take(i + 1)) == Err::<Seq<(Seq<char>, Seq<char>)>, Seq<char>>(e@));
                proof {
                    lemma_images_of_error_persists(ms, (i + 1) as nat);
                }
                return Err(e);
            },
        }
        i = i + 1;
    }
    assert(ms.take(ms.len() as int) =~= ms);
    Ok(out)
}

/// An error in a prefix of the entries is the error of the whole list.
proof fn lemma_images_of_error_persists(items: Seq<JsonModel>, n: nat)
    requires
        n <= items.len(),
        images_of(items.take(n as int)) is Err,
    ensures
        images_of(items) == images_of(items.take(n as int)),
    decreases items.len() - n,
{
    if n < items.len() {
        assert(items.take(n + 1 as int).drop_last() =~= items.take(n as int));
        lemma_images_of_error_persists(items, n + 1);
    } else {
        assert(items.take(n as int) =~= items);
    }
}

/// How queued steering or follow-up messages are delivered.
#[derive(Clone, Copy, Debug, PartialEq, Eq)]
pub enum QueueMode {
    All,
    OneAtATime,
}

/// The queue mode a name denotes.
pub open spec fn queue_mode_of(s: Seq<char>) -> Option<QueueMode> {
    if s == "all"@ {
        Some(QueueMode::All)
    } else if s == "one-at-a-time"@ {
        Some(QueueMode::OneAtATime)
    } else {
        None
    }
}

/// Reads a queue mode name.
pub fn queue_mode_from_str(value: &str) -> (r: Option<QueueMode>)
    ensures
        r == queue_mode_of(value@),
{
    let v = chars_of(value);
    if chars_eq_str(&v, "all") {
        Some(QueueMode::All)
    } else if chars_eq_str(&v, "one-at-a-time") {
        Some(QueueMode::OneAtATime)
    } else {
        None
    }
}

/// The name of a queue mode.
pub fn queue_mode_label(mode: QueueMode) -> (r: &'static str)
    ensures
        r@ == match mode {
            QueueMode::All => "all"@,
            QueueMode::OneAtATime => "one-at-a-time"@,
        },
{
    match mode {
        QueueMode::All => "all",
        QueueMode::OneAtATime => "one-at-a-time",
    }
}

/// A command of the RPC protocol, over strings `S` and image lists `I`.
pub enum RpcCommandOf<S, I> {
    Prompt { message: S, images: I, streaming_behavior: Option<S> },
    Steer { message: S, images: I },
    FollowUp { message: S, images: I },
    Abort,
    NewSession { parent_session: Option<S> },
    GetState,
    SetModel { provider: S, model_id: S },
    CycleModel,
    GetAvailableModels,
    SetThinkingLevel { level: crate::args::ThinkingLevel },
    CycleThinkingLevel,
    SetSteeringMode { mode: QueueMode },
    SetFollowUpMode { mode: QueueMode },
    Compact { custom_instructions: Option<S> },
    SetAutoCompaction { enabled: bool },
    SetAutoRetry { enabled: bool },
    AbortRetry,
    Bash { command: S },
    AbortBash,
    GetSessionStats,
    ExportHtml { output_path: Option<S> },
    /// The path is checked once the session is known to be idle.
    SwitchSession { session_path: Option<S> },
    /// The entry id is checked once the session is known to be idle.
    Fork { entry_id: Option<S> },
    GetForkMessages,
    GetLastAssistantText,
    SetSessionName { name: S },
    GetMessages,
    GetCommands,
}

/// A decoded command.
pub type RpcCommand = RpcCommandOf<String, Vec<RpcImage>>;

/// The abstract value of a command.
pub type RpcCommandModel = RpcCommandOf<Seq<char>, Seq<(Seq<char>, Seq<char>)>>;

/// The abstract value of a command.
pub open spec fn command_view(c: RpcCommand) -> RpcCommandModel {
    match c {
        RpcCommandOf::Prompt { message, images, streaming_behavior } => RpcCommandOf::Prompt {
            message: message@,
            images: images_view(images@),
            streaming_behavior: opt_string_view(streaming_behavior),
        },
        RpcCommandOf::Steer { message, images } => RpcCommandOf::Steer {
            message: message@,
            images: images_view(images@),
        },
        RpcCommandOf::FollowUp { message, images } => RpcCommandOf::FollowUp {
            message: message@,
            images: images_view(images@),
        },
        RpcCommandOf::Abort => RpcCommandOf::Abort,
        RpcCommandOf::NewSession { parent_session } => RpcCommandOf::NewSession {
            parent_session: opt_string_view(parent_session),
        },
        RpcCommandOf::GetState => RpcCommandOf::GetState,
        RpcCommandOf::SetModel { provider, model_id } => RpcCommandOf::SetModel {
            provider: provider@,
            model_id: model_id@,
        },
        RpcCommandOf::CycleModel => RpcCommandOf::CycleModel,
        RpcCommandOf::GetAvailableModels => RpcCommandOf::GetAvailableModels,
        RpcCommandOf::SetThinkingLevel { level } => RpcCommandOf::SetThinkingLevel { level },
        RpcCommandOf::CycleThinkingLevel => RpcCommandOf::CycleThinkingLevel,
        RpcCommandOf::SetSteeringMode { mode } => RpcCommandOf::SetSteeringMode { mode },
        RpcCommandOf::SetFollowUpMode { mode } => RpcCommandOf::SetFollowUpMode { mode },
        RpcCommandOf::Compact { custom_instructions } => RpcCommandOf::Compact {
            custom_instructions: opt_string_view(custom_instructions),
        },
        RpcCommandOf::SetAutoCompaction { enabled } => RpcCommandOf::SetAutoCompaction { enabled },
        RpcCommandOf::SetAutoRetry { enabled } => RpcCommandOf::SetAutoRetry { enabled },
        RpcCommandOf::AbortRetry => RpcCommandOf::AbortRetry,
        RpcCommandOf::Bash { command } => RpcCommandOf::Bash { command: command@ },
        RpcCommandOf::AbortBash => RpcCommandOf::AbortBash,
        RpcCommandOf::GetSessionStats => RpcCommandOf::GetSessionStats,
        RpcCommandOf::ExportHtml { output_path } => RpcCommandOf::ExportHtml {
            output_path: opt_string_view(output_path),
        },
        RpcCommandOf::SwitchSession { session_path } => RpcCommandOf::SwitchSession {
            session_path: opt_string_view(session_path),
        },
        RpcCommandOf::Fork { entry_id } => RpcCommandOf::Fork { entry_id: opt_string_view(entry_id) },
        RpcCommandOf::GetForkMessages => RpcCommandOf::GetForkMessages,
        RpcCommandOf::GetLastAssistantText => RpcCommandOf::GetLastAssistantText,
        RpcCommandOf::SetSessionName { name } => RpcCommandOf::SetSessionName { name: name@ },
        RpcCommandOf::GetMessages => RpcCommandOf::GetMessages,
        RpcCommandOf::GetCommands => RpcCommandOf::GetCommands,
    }
}

/// What an input line asks for, over strings `S` and commands `C`.
pub enum RpcRequestOf<S, C> {
    /// An `extension_ui_response` object: it goes to the extension host as it is.
    ExtensionUiResponse,
    /// A command to run.
    Command { id: Option<S>, command: C },
    /// Refused before anything runs: answered with an error response for
    /// `command`.
    Rejected { id: Option<S>, command: S, message: S },
}

/// A decoded input line.
pub type RpcRequest = RpcRequestOf<String, RpcCommand>;

/// The abstract value of a decoded input line.
pub type RpcRequestModel = RpcRequestOf<Seq<char>, RpcCommandModel>;

/// The abstract value of a decoded input line.
pub open spec fn request_view(r: RpcRequest) -> RpcRequestModel {
    match r {
        RpcRequestOf::ExtensionUiResponse => RpcRequestOf::ExtensionUiResponse,
        RpcRequestOf::Command { id, command } => RpcRequestOf::Command {
            id: opt_string_view(id),
            command: command_view(command),
        },
        RpcRequestOf::Rejected { id, command, message } => RpcRequestOf::Rejected {
            id: opt_string_view(id),
            command: command@,
            message: message@,
        },
    }
}

/// The command decoded from the members of a command object whose type is `t`.
pub open spec fn command_of(id: Option<Seq<char>>, t: Seq<char>, ms: Seq<(Seq<char>, JsonModel)>) -> RpcRequestModel {
    let reject = |m: Seq<char>| RpcRequestOf::Rejected { id, command: t, message: m };
    let ok = |c: RpcCommandModel| RpcRequestOf::Command { id, command: c };
    if t == "prompt"@ || t == "steer"@ || t == "follow_up"@ {
        match required_str(ms, "message"@) {
            Err(e) => reject(e),
            Ok(message) => match images_field(ms) {
                Err(e) => reject(e),
                Ok(images) => ok(
                    if t == "prompt"@ {
                        RpcCommandOf::Prompt {
                            message,
                            images,
                            streaming_behavior: str_member(ms, "streamingBehavior"@),
                        }
                    } else if t == "steer"@ {
                        RpcCommandOf::Steer { message, images }
                    } else {
                        RpcCommandOf::FollowUp { message, images }
                    },
                ),
            },
        }
    } else if t == "abort"@ {
        ok(RpcCommandOf::Abort)
    } else if t == "new_session"@ {
        ok(RpcCommandOf::NewSession { parent_session: str_member(ms, "parentSession"@) })
    } else if t == "get_state"@ {
        ok(RpcCommandOf::GetState)
    } else if t == "set_model"@ {
        match required_str(ms, "provider"@) {
            Err(e) => reject(e),
            Ok(provider) => match required_str(ms, "modelId"@) {
                Err(e) => reject(e),
                Ok(model_id) => ok(RpcCommandOf::SetModel { provider, model_id }),
            },
        }
    } else if t == "cycle_model"@ {
        ok(RpcCommandOf::CycleModel)
    } else if t == "get_available_models"@ {
        ok(RpcCommandOf::GetAvailableModels)
    } else if t == "set_thinking_level"@ {
        match str_member(ms, "level"@) {
            Some(l) => match crate::args::thinking_level_of(l) {
                Some(level) => ok(RpcCommandOf::SetThinkingLevel { level }),
                None => reject("Invalid thinking level"@),
            },
            None => reject("Invalid thinking level"@),
        }
    } else if t == "cycle_thinking_level"@ {
        ok(RpcCommandOf::CycleThinkingLevel)
    } else if t == "set_steering_mode"@ || t == "set_follow_up_mode"@ {
        match str_member(ms, "mode"@) {
            Some(m) => match queue_mode_of(m) {
                Some(mode) => ok(
                    if t == "set_steering_mode"@ {
                        RpcCommandOf::SetSteeringMode { mode }
                    } else {
                        RpcCommandOf::SetFollowUpMode { mode }
                    },
                ),
                None => reject("Invalid queue mode"@),
            },
            None => reject("Invalid queue mode"@),
        }
    } else if t == "compact"@ {
        ok(RpcCommandOf::Compact { custom_instructions: str_member(ms, "customInstructions"@) })
    } else if t == "set_auto_compaction"@ {
        ok(
            RpcCommandOf::SetAutoCompaction {
                enabled: match bool_member(ms, "enabled"@) {
                    Some(b) => b,
                    None => false,
                },
            },
        )
    } else if t == "set_auto_retry"@ {
        ok(
            RpcCommandOf::SetAutoRetry {
                enabled: match bool_member(ms, "enabled"@) {
                    Some(b) => b,
                    None => true,
                },
            },
        )
    } else if t == "abort_retry"@ {
        ok(RpcCommandOf::AbortRetry)
    } else if t == "bash"@ {
        match required_str(ms, "command"@) {
            Err(e) => reject(e),
            Ok(command) => ok(RpcCommandOf::Bash { command }),
        }
    } else if t == "abort_bash"@ {
        ok(RpcCommandOf::AbortBash)
    } else if t == "get_session_stats"@ {
        ok(RpcCommandOf::GetSessionStats)
    } else if t == "export_html"@ {
        ok(RpcCommandOf::ExportHtml { output_path: str_member(ms, "outputPath"@) })
    } else if t == "switch_session"@ {
        ok(RpcCommandOf::SwitchSession { session_path: str_member(ms, "sessionPath"@) })
    } else if t == "fork"@ {
        ok(RpcCommandOf::Fork { entry_id: str_member(ms, "entryId"@) })
    } else if t == "get_fork_messages"@ {
        ok(RpcCommandOf::GetForkMessages)
    } else if t == "get_last_assistant_text"@ {
        ok(RpcCommandOf::GetLastAssistantText)
    } else if t == "set_session_name"@ {
        match str_member(ms, "name"@) {
            Some(name) => if crate::text::trim_seq(name).len() > 0 {
                ok(RpcCommandOf::SetSessionName { name })
            } else {
                reject("Session name cannot be empty"@)
            },
            None => reject("Session name cannot be empty"@),
        }
    } else if t == "get_messages"@ {
        ok(RpcCommandOf::GetMessages)
    } else if t == "get_commands"@ {
        ok(RpcCommandOf::GetCommands)
    } else {
        reject("Unknown command: "@ + t)
    }
}

/// What an input line (already read as JSON) asks for.
pub open spec fn decoded(v: JsonModel) -> RpcRequestModel {
    match v {
        JsonModel::Object(ms) => match str_member(ms, "type"@) {
            Some(t) => if t == "extension_ui_response"@ {
                RpcRequestOf::ExtensionUiResponse
            } else {
                command_of(str_member(ms, "id"@), t, ms)
            },
            None => RpcRequestOf::Rejected {
                id: str_member(ms, "id"@),
                command: "parse"@,
                message: "RPC command is missing type"@,
            },
        },
        _ => RpcRequestOf::Rejected {
            id: None,
            command: "parse"@,
            message: "RPC command must be a JSON object"@,
        },
    }
}

/// Decodes the members of a command object whose type is `t`.
#[verifier::rlimit(100)]
fn decode_command(id: Option<String>, t: String, ms: &Vec<(String, JsonValue)>) -> (r: RpcRequest)
    ensures
        request_view(r) == command_of(opt_string_view(id), t@, members_of(JsonValue::Object(*ms))),
{
    let tc = chars_of(t.as_str());
    let ghost m = members_of(JsonValue::Object(*ms));
    if chars_eq_str(&tc, "prompt") || chars_eq_str(&tc, "steer") || chars_eq_str(&tc, "follow_up") {
        let message = match required_string_member(ms, "message") {
            Ok(message) => message,
            Err(e) => {
                return RpcRequestOf::Rejected { id, command: t, message: e };
            },
        };
        let images = match decode_images(ms) {
            Ok(images) => images,
            Err(e) => {
                return RpcRequestOf::Rejected { id, command: t, message: e };
            },
        };
        let command = if chars_eq_str(&tc, "prompt") {
            RpcCommandOf::Prompt {
                message,
                images,
                streaming_behavior: string_member(ms, "streamingBehavior"),
            }
        } else if chars_eq_str(&tc, "steer") {
            RpcCommandOf::Steer { message, images }
        } else {
            RpcCommandOf::FollowUp { message, images }
        };
        return RpcRequestOf::Command { id, command };
    }
    let command = if chars_eq_str(&tc, "abort") {
        RpcCommandOf::Abort
    } else if chars_eq_str(&tc, "new_session") {
        RpcCommandOf::NewSession { parent_session: string_member(ms, "parentSession") }
    } else if chars_eq_str(&tc, "get_state") {
        RpcCommandOf::GetState
    } else if chars_eq_str(&tc, "set_model") {
        let provider = match required_string_member(ms, "provider") {
            Ok(p) => p,
            Err(e) => {
                return RpcRequestOf::Rejected { id, command: t, message: e };
            },
        };
        let model_id = match required_string_member(ms, "modelId") {
            Ok(p) => p,
            Err(e) => {
                return RpcRequestOf::Rejected { id, command: t, message: e };
            },
        };
        RpcCommandOf::SetModel { provider, model_id }
    } else if chars_eq_str(&tc, "cycle_model") {
        RpcCommandOf::CycleModel
    } else if chars_eq_str(&tc, "get_available_models") {
        RpcCommandOf::GetAvailableModels
    } else if chars_eq_str(&tc, "set_thinking_level") {
        let level = match string_member(ms, "level") {
            Some(l) => crate::args::parse_thinking_level(l.as_str()),
            None => None,
        };
        match level {
            Some(level) => RpcCommandOf::SetThinkingLevel { level },
            None => {
                return RpcRequestOf::Rejected { id, command: t, message: owned("Invalid thinking level") };
            },
        }
    } else if chars_eq_str(&tc, "cycle_thinking_level") {
        RpcCommandOf::CycleThinkingLevel
    } else if chars_eq_str(&tc, "set_steering_mode") || chars_eq_str(&tc, "set_follow_up_mode") {
        let mode = match string_member(ms, "mode") {
            Some(l) => queue_mode_from_str(l.as_str()),
            None => None,
        };
        match mode {
            Some(mode) => if chars_eq_str(&tc, "set_steering_mode") {
                RpcCommandOf::SetSteeringMode { mode }
            } else {
                RpcCommandOf::SetFollowUpMode { mode }
            },
            None => {
                return RpcRequestOf::Rejected { id, command: t, message: owned("Invalid queue mode") };
            },
        }
    } else if chars_eq_str(&tc, "compact") {
        RpcCommandOf::Compact { custom_instructions: string_member(ms, "customInstructions") }
    } else if chars_eq_str(&tc, "set_auto_compaction") {
        let enabled = match boolean_member(ms, "enabled") {
            Some(b) => b,
            None => false,
        };
        RpcCommandOf::SetAutoCompaction { enabled }
    } else if chars_eq_str(&tc, "set_auto_retry") {
        let enabled = match boolean_member(ms, "enabled") {
            Some(b) => b,
            None => true,
        };
        RpcCommandOf::SetAutoRetry { enabled }
    } else if chars_eq_str(&tc, "abort_retry") {
        RpcCommandOf::AbortRetry
    } else if chars_eq_str(&tc, "bash") {
        match required_string_member(ms, "command") {
            Ok(command) => RpcCommandOf::Bash { command },
            Err(e) => {
                return RpcRequestOf::Rejected { id, command: t, message: e };
            },
        }
    } else if chars_eq_str(&tc, "abort_bash") {
        RpcCommandOf::AbortBash
    } else if chars_eq_str(&tc, "get_session_stats") {
        RpcCommandOf::GetSessionStats
    } else if chars_eq_str(&tc, "export_html") {
        RpcCommandOf::ExportHtml { output_path: string_member(ms, "outputPath") }
    } else if chars_eq_str(&tc, "switch_session") {
        RpcCommandOf::SwitchSession { session_path: string_member(ms, "sessionPath") }
    } else if chars_eq_str(&tc, "fork") {
        RpcCommandOf::Fork { entry_id: string_member(ms, "entryId") }
    } else if chars_eq_str(&tc, "get_fork_messages") {
        RpcCommandOf::GetForkMessages
    } else if chars_eq_str(&tc, "get_last_assistant_text") {
        RpcCommandOf::GetLastAssistantText
    } else if chars_eq_str(&tc, "set_session_name") {
        let name = match string_member(ms, "name") {
            Some(n) => {
                let nc = chars_of(n.as_str());
                if crate::text::trim_chars(&nc).len() > 0 {
                    Some(n)
                } else {
                    None
                }
            },
            None => None,
        };
        match name {
            Some(name) => RpcCommandOf::SetSessionName { name },
            None => {
                return RpcRequestOf::Rejected {
                    id,
                    command: t,
                    message: owned("Session name cannot be empty"),
                };
            },
        }
    } else if chars_eq_str(&tc, "get_messages") {
        RpcCommandOf::GetMessages
    } else if chars_eq_str(&tc, "get_commands") {
        RpcCommandOf::GetCommands
    } else {
        let mut v = chars_of("Unknown command: ");
        crate::text::extend_chars(&mut v, &tc);
        let message = string_from_chars(&v);
        return RpcRequestOf::Rejected { id, command: t, message };
    };
    RpcRequestOf::Command { id, command }
}

/// `set_auto_compaction` switches auto-compaction on exactly when its
/// `enabled` member is the boolean `true`: `false`, a missing member or one
/// that is no boolean switch it off.
pub proof fn lemma_set_auto_compaction_enabled(ms: Seq<(Seq<char>, JsonModel)>)
    requires
        str_member(ms, "type"@) == Some("set_auto_compaction"@),
    ensures
        decoded(JsonModel::Object(ms)) == (RpcRequestModel::Command {
            id: str_member(ms, "id"@),
            command: RpcCommandModel::SetAutoCompaction { enabled: bool_member(ms, "enabled"@) == Some(true) },
        }),
{
    reveal_strlit("extension_ui_response");
    reveal_strlit("prompt");
    reveal_strlit("steer");
    reveal_strlit("follow_up");
    reveal_strlit("abort");
    reveal_strlit("new_session");
    reveal_strlit("get_state");
    reveal_strlit("set_model");
    reveal_strlit("cycle_model");
    reveal_strlit("get_available_models");
    reveal_strlit("set_thinking_level");
    reveal_strlit("cycle_thinking_level");
    reveal_strlit("set_steering_mode");
    reveal_strlit("set_follow_up_mode");
    reveal_strlit("compact");
    reveal_strlit("set_auto_compaction");
    reveal_strlit("set_auto_retry");
    assert("set_auto_compaction"@ != "extension_ui_response"@) by { assert("set_auto_compaction"@.len() != "extension_ui_response"@.len()); }
    assert("set_auto_compaction"@ != "prompt"@) by { assert("set_auto_compaction"@.len() != "prompt"@.len()); }
    assert("set_auto_compaction"@ != "steer"@) by { assert("set_auto_compaction"@.len() != "steer"@.len()); }
    assert("set_auto_compaction"@ != "follow_up"@) by { assert("set_auto_compaction"@.len() != "follow_up"@.len()); }
    assert("set_auto_compaction"@ != "abort"@) by { assert("set_auto_compaction"@.len() != "abort"@.len()); }
    assert("set_auto_compaction"@ != "new_session"@) by { assert("set_auto_compaction"@.len() != "new_session"@.len()); }
    assert("set_auto_compaction"@ != "get_state"@) by { assert("set_auto_compaction"@.len() != "get_state"@.len()); }
    assert("set_auto_compaction"@ != "set_model"@) by { assert("set_auto_compaction"@.len() != "set_model"@.len()); }
    assert("set_auto_compaction"@ != "cycle_model"@) by { assert("set_auto_compaction"@.len() != "cycle_model"@.len()); }
    assert("set_auto_compaction"@ != "get_available_models"@) by { assert("set_auto_compaction"@.len() != "get_available_models"@.len()); }
    assert("set_auto_compaction"@ != "set_thinking_level"@) by { assert("set_auto_compaction"@.len() != "set_thinking_level"@.len()); }
    assert("set_auto_compaction"@ != "cycle_thinking_level"@) by { assert("set_auto_compaction"@.len() != "cycle_thinking_level"@.len()); }
    assert("set_auto_compaction"@ != "set_steering_mode"@) by { assert("set_auto_compaction"@.len() != "set_steering_mode"@.len()); }
    assert("set_auto_compaction"@ != "set_follow_up_mode"@) by { assert("set_auto_compaction"@.len() != "set_follow_up_mode"@.len()); }
    assert("set_auto_compaction"@ != "compact"@) by { assert("set_auto_compaction"@.len() != "compact"@.len()); }
    assert(decoded(JsonModel::Object(ms)) == command_of(str_member(ms, "id"@), "set_auto_compaction"@, ms));
}

/// `set_auto_retry` switches automatic retries off exactly when its
/// `enabled` member is the boolean `false`: `true`, a missing member or one
/// that is no boolean switch them on.
pub proof fn lemma_set_auto_retry_enabled(ms: Seq<(Seq<char>, JsonModel)>)
    requires
        str_member(ms, "type"@) == Some("set_auto_retry"@),
    ensures
        decoded(JsonModel::Object(ms)) == (RpcRequestModel::Command {
            id: str_member(ms, "id"@),
            command: RpcCommandModel::SetAutoRetry { enabled: bool_member(ms, "enabled"@) != Some(false) },
        }),
{
    reveal_strlit("extension_ui_response");
    reveal_strlit("prompt");
    reveal_strlit("steer");
    reveal_strlit("follow_up");
    reveal_strlit("abort");
    reveal_strlit("new_session");
    reveal_strlit("get_state");
    reveal_strlit("set_model");
    reveal_strlit("cycle_model");
    reveal_strlit("get_available_models");
    reveal_strlit("set_thinking_level");
    reveal_strlit("cycle_thinking_level");
    reveal_strlit("set_steering_mode");
    reveal_strlit("set_follow_up_mode");
    reveal_strlit("compact");
    reveal_strlit("set_auto_compaction");
    reveal_strlit("set_auto_retry");
    assert("set_auto_retry"@ != "extension_ui_response"@) by { assert("set_auto_retry"@.len() != "extension_ui_response"@.len()); }
    assert("set_auto_retry"@ != "prompt"@) by { assert("set_auto_retry"@.len() != "prompt"@.len()); }
    assert("set_auto_retry"@ != "steer"@) by { assert("set_auto_retry"@.len() != "steer"@.len()); }
    assert("set_auto_retry"@ != "follow_up"@) by { assert("set_auto_retry"@.len() != "follow_up"@.len()); }
    assert("set_auto_retry"@ != "abort"@) by { assert("set_auto_retry"@.len() != "abort"@.len()); }
    assert("set_auto_retry"@ != "new_session"@) by { assert("set_auto_retry"@.len() != "new_session"@.len()); }
    assert("set_auto_retry"@ != "get_state"@) by { assert("set_auto_retry"@.len() != "get_state"@.len()); }
    assert("set_auto_retry"@ != "set_model"@) by { assert("set_auto_retry"@.len() != "set_model"@.len()); }
    assert("set_auto_retry"@ != "cycle_model"@) by { assert("set_auto_retry"@.len() != "cycle_model"@.len()); }
    assert("set_auto_retry"@ != "get_available_models"@) by { assert("set_auto_retry"@.len() != "get_available_models"@.len()); }
    assert("set_auto_retry"@ != "set_thinking_level"@) by { assert("set_auto_retry"@.len() != "set_thinking_level"@.len()); }
    assert("set_auto_retry"@ != "cycle_thinking_level"@) by { assert("set_auto_retry"@.len() != "cycle_thinking_level"@.len()); }
    assert("set_auto_retry"@ != "set_steering_mode"@) by { assert("set_auto_retry"@.len() != "set_steering_mode"@.len()); }
    assert("set_auto_retry"@ != "set_follow_up_mode"@) by { assert("set_auto_retry"@.len() != "set_follow_up_mode"@.len()); }
    assert("set_auto_retry"@ != "compact"@) by { assert("set_auto_retry"@.len() != "compact"@.len()); }
    assert("set_auto_retry"@ != "set_auto_compaction"@) by { assert("set_auto_retry"@.len() != "set_auto_compaction"@.len()); }
    assert(decoded(JsonModel::Object(ms)) == command_of(str_member(ms, "id"@), "set_auto_retry"@, ms));
}

/// Each command without arguments decodes to itself, with the object's id.
pub proof fn lemma_plain_commands(ms: Seq<(Seq<char>, JsonModel)>)
    ensures
        str_member(ms, "type"@) == Some("abort"@) ==> decoded(JsonModel::Object(ms)) == (RpcRequestModel::Command {
            id: str_member(ms, "id"@),
            command: RpcCommandModel::Abort,
        }),
        str_member(ms, "type"@) == Some("get_state"@) ==> decoded(JsonModel::Object(ms)) == (RpcRequestModel::Command {
            id: str_member(ms, "id"@),
            command: RpcCommandModel::GetState,
        }),
        str_member(ms, "type"@) == Some("cycle_model"@) ==> decoded(JsonModel::Object(ms)) == (RpcRequestModel::Command {
            id: str_member(ms, "id"@),
            command: RpcCommandModel::CycleModel,
        }),
        str_member(ms, "type"@) == Some("get_available_models"@) ==> decoded(JsonModel::Object(ms)) == (RpcRequestModel::Command {
            id: str_member(ms, "id"@),
            command: RpcCommandModel::GetAvailableModels,
        }),
        str_member(ms, "type"@) == Some("cycle_thinking_level"@) ==> decoded(JsonModel::Object(ms)) == (RpcRequestModel::Command {
            id: str_member(ms, "id"@),
            command: RpcCommandModel::CycleThinkingLevel,
        }),
        str_member(ms, "type"@) == Some("abort_retry"@) ==> decoded(JsonModel::Object(ms)) == (RpcRequestModel::Command {
            id: str_member(ms, "id"@),
            command: RpcCommandModel::AbortRetry,
        }),
        str_member(ms, "type"@) == Some("abort_bash"@) ==> decoded(JsonModel::Object(ms)) == (RpcRequestModel::Command {
            id: str_member(ms, "id"@),
            command: RpcCommandModel::AbortBash,
        }),
        str_member(ms, "type"@) == Some("get_session_stats"@) ==> decoded(JsonModel::Object(ms)) == (RpcRequestModel::Command {
            id: str_member(ms, "id"@),
            command: RpcCommandModel::GetSessionStats,
        }),
        str_member(ms, "type"@) == Some("get_fork_messages"@) ==> decoded(JsonModel::Object(ms)) == (RpcRequestModel::Command {
            id: str_member(ms, "id"@),
            command: RpcCommandModel::GetForkMessages,
        }),
        str_member(ms, "type"@) == Some("get_last_assistant_text"@) ==> decoded(JsonModel::Object(ms)) == (RpcRequestModel::Command {
            id: str_member(ms, "id"@),
            command: RpcCommandModel::GetLastAssistantText,
        }),
        str_member(ms, "type"@) == Some("get_messages"@) ==> decoded(JsonModel::Object(ms)) == (RpcRequestModel::Command {
            id: str_member(ms, "id"@),
            command: RpcCommandModel::GetMessages,
        }),
        str_member(ms, "type"@) == Some("get_commands"@) ==> decoded(JsonModel::Object(ms)) == (RpcRequestModel::Command {
            id: str_member(ms, "id"@),
            command: RpcCommandModel::GetCommands,
        }),
{
    reveal_strlit("extension_ui_response");
    reveal_strlit("prompt");
    reveal_strlit("steer");
    reveal_strlit("follow_up");
    reveal_strlit("abort");
    reveal_strlit("new_session");
    reveal_strlit("get_state");
    reveal_strlit("set_model");
    reveal_strlit("cycle_model");
    reveal_strlit("get_available_models");
    reveal_strlit("set_thinking_level");
    reveal_strlit("cycle_thinking_level");
    reveal_strlit("set_steering_mode");
    reveal_strlit("set_follow_up_mode");
    reveal_strlit("compact");
    reveal_strlit("set_auto_compaction");
    reveal_strlit("set_auto_retry");
    reveal_strlit("abort_retry");
    reveal_strlit("bash");
    reveal_strlit("abort_bash");
    reveal_strlit("get_session_stats");
    reveal_strlit("export_html");
    reveal_strlit("switch_session");
    reveal_strlit("fork");
    reveal_strlit("get_fork_messages");
    reveal_strlit("get_last_assistant_text");
    reveal_strlit("set_session_name");
    reveal_strlit("get_messages");
    reveal_strlit("get_commands");
    if str_member(ms, "type"@) == Some("abort"@) {
        assert("abort"@ != "extension_ui_response"@) by {
            assert("abort"@.len() != "extension_ui_response"@.len());
        }
        assert("abort"@ != "prompt"@) by {
            assert("abort"@.len() != "prompt"@.len());
        }
        assert("abort"@ != "steer"@) by {
            assert("abort"@[0] != "steer"@[0]);
        }
        assert("abort"@ != "follow_up"@) by {
            assert("abort"@.len() != "follow_up"@.len());
        }
        assert("abort"@ != "new_session"@) by {
            assert("abort"@.len() != "new_session"@.len());
        }
        assert("abort"@ != "get_state"@) by {
            assert("abort"@.len() != "get_state"@.len());
        }
        assert("abort"@ != "set_model"@) by {
            assert("abort"@.len() != "set_model"@.len());
        }
        assert("abort"@ != "cycle_model"@) by {
            assert("abort"@.len() != "cycle_model"@.len());
        }
        assert("abort"@ != "get_available_models"@) by {
            assert("abort"@.len() != "get_available_models"@.len());
        }
        assert("abort"@ != "set_thinking_level"@) by {
            assert("abort"@.len() != "set_thinking_level"@.len());
        }
        assert("abort"@ != "cycle_thinking_level"@) by {
            assert("abort"@.len() != "cycle_thinking_level"@.len());
        }
        assert("abort"@ != "set_steering_mode"@) by {
            assert("abort"@.len() != "set_steering_mode"@.len());
        }
        assert("abort"@ != "set_follow_up_mode"@) by {
            assert("abort"@.len() != "set_follow_up_mode"@.len());
        }
        assert("abort"@ != "compact"@) by {
            assert("abort"@.len() != "compact"@.len());
        }
        assert("abort"@ != "set_auto_compaction"@) by {
            assert("abort"@.len() != "set_auto_compaction"@.len());
        }
        assert("abort"@ != "set_auto_retry"@) by {
            assert("abort"@.len() != "set_auto_retry"@.len());
        }
        assert("abort"@ != "abort_retry"@) by {
            assert("abort"@.len() != "abort_retry"@.len());
        }
        assert("abort"@ != "bash"@) by {
            assert("abort"@.len() != "bash"@.len());
        }
        assert("abort"@ != "abort_bash"@) by {
            assert("abort"@.len() != "abort_bash"@.len());
        }
        assert("abort"@ != "get_session_stats"@) by {
            assert("abort"@.len() != "get_session_stats"@.len());
        }
        assert("abort"@ != "export_html"@) by {
            assert("abort"@.len() != "export_html"@.len());
        }
        assert("abort"@ != "switch_session"@) by {
            assert("abort"@.len() != "switch_session"@.len());
        }
        assert("abort"@ != "fork"@) by {
            assert("abort"@.len() != "fork"@.len());
        }
        assert("abort"@ != "get_fork_messages"@) by {
            assert("abort"@.len() != "get_fork_messages"@.len());
        }
        assert("abort"@ != "get_last_assistant_text"@) by {
            assert("abort"@.len() != "get_last_assistant_text"@.len());
        }
        assert("abort"@ != "set_session_name"@) by {
            assert("abort"@.len() != "set_session_name"@.len());
        }
        assert("abort"@ != "get_messages"@) by {
            assert("abort"@.len() != "get_messages"@.len());
        }
        assert("abort"@ != "get_commands"@) by {
            assert("abort"@.len() != "get_commands"@.len());
        }
        assert(decoded(JsonModel::Object(ms)) == command_of(str_member(ms, "id"@), "abort"@, ms));
    }
    if str_member(ms, "type"@) == Some("get_state"@) {
        assert("get_state"@ != "extension_ui_response"@) by {
            assert("get_state"@.len() != "extension_ui_response"@.len());
        }
        assert("get_state"@ != "prompt"@) by {
            assert("get_state"@.len() != "prompt"@.len());
        }
        assert("get_state"@ != "steer"@) by {
            assert("get_state"@.len() != "steer"@.len());
        }
        assert("get_state"@ != "follow_up"@) by {
            assert("get_state"@[0] != "follow_up"@[0]);
        }
        assert("get_state"@ != "abort"@) by {
            assert("get_state"@.len() != "abort"@.len());
        }
        assert("get_state"@ != "new_session"@) by {
            assert("get_state"@.len() != "new_session"@.len());
        }
        assert("get_state"@ != "set_model"@) by {
            assert("get_state"@[0] != "set_model"@[0]);
        }
        assert("get_state"@ != "cycle_model"@) by {
            assert("get_state"@.len() != "cycle_model"@.len());
        }
        assert("get_state"@ != "get_available_models"@) by {
            assert("get_state"@.len() != "get_available_models"@.len());
        }
        assert("get_state"@ != "set_thinking_level"@) by {
            assert("get_state"@.len() != "set_thinking_level"@.len());
        }
        assert("get_state"@ != "cycle_thinking_level"@) by {
            assert("get_state"@.len() != "cycle_thinking_level"@.len());
        }
        assert("get_state"@ != "set_steering_mode"@) by {
            assert("get_state"@.len() != "set_steering_mode"@.len());
        }
        assert("get_state"@ != "set_follow_up_mode"@) by {
            assert("get_state"@.len() != "set_follow_up_mode"@.len());
        }
        assert("get_state"@ != "compact"@) by {
            assert("get_state"@.len() != "compact"@.len());
        }
        assert("get_state"@ != "set_auto_compaction"@) by {
            assert("get_state"@.len() != "set_auto_compaction"@.len());
        }
        assert("get_state"@ != "set_auto_retry"@) by {
            assert("get_state"@.len() != "set_auto_retry"@.len());
        }
        assert("get_state"@ != "abort_retry"@) by {
            assert("get_state"@.len() != "abort_retry"@.len());
        }
        assert("get_state"@ != "bash"@) by {
            assert("get_state"@.len() != "bash"@.len());
        }
        assert("get_state"@ != "abort_bash"@) by {
            assert("get_state"@.len() != "abort_bash"@.len());
        }
        assert("get_state"@ != "get_session_stats"@) by {
            assert("get_state"@.len() != "get_session_stats"@.len());
        }
        assert("get_state"@ != "export_html"@) by {
            assert("get_state"@.len() != "export_html"@.len());
        }
        assert("get_state"@ != "switch_session"@) by {
            assert("get_state"@.len() != "switch_session"@.len());
        }
        assert("get_state"@ != "fork"@) by {
            assert("get_state"@.len() != "fork"@.len());
        }
        assert("get_state"@ != "get_fork_messages"@) by {
            assert("get_state"@.len() != "get_fork_messages"@.len());
        }
        assert("get_state"@ != "get_last_assistant_text"@) by {
            assert("get_state"@.len() != "get_last_assistant_text"@.len());
        }
        assert("get_state"@ != "set_session_name"@) by {
            assert("get_state"@.len() != "set_session_name"@.len());
        }
        assert("get_state"@ != "get_messages"@) by {
            assert("get_state"@.len() != "get_messages"@.len());
        }
        assert("get_state"@ != "get_commands"@) by {
            assert("get_state"@.len() != "get_commands"@.len());
        }
        assert(decoded(JsonModel::Object(ms)) == command_of(str_member(ms, "id"@), "get_state"@, ms));
    }
    if str_member(ms, "type"@) == Some("cycle_model"@) {
        assert("cycle_model"@ != "extension_ui_response"@) by {
            assert("cycle_model"@.len() != "extension_ui_response"@.len());
        }
        assert("cycle_model"@ != "prompt"@) by {
            assert("cycle_model"@.len() != "prompt"@.len());
        }
        assert("cycle_model"@ != "steer"@) by {
            assert("cycle_model"@.len() != "steer"@.len());
        }
        assert("cycle_model"@ != "follow_up"@) by {
            assert("cycle_model"@.len() != "follow_up"@.len());
        }
        assert("cycle_model"@ != "abort"@) by {
            assert("cycle_model"@.len() != "abort"@.len());
        }
        assert("cycle_model"@ != "new_session"@) by {
            assert("cycle_model"@[0] != "new_session"@[0]);
        }
        assert("cycle_model"@ != "get_state"@) by {
            assert("cycle_model"@.len() != "get_state"@.len());
        }
        assert("cycle_model"@ != "set_model"@) by {
            assert("cycle_model"@.len() != "set_model"@.len());
        }
        assert("cycle_model"@ != "get_available_models"@) by {
            assert("cycle_model"@.len() != "get_available_models"@.len());
        }
        assert("cycle_model"@ != "set_thinking_level"@) by {
            assert("cycle_model"@.len() != "set_thinking_level"@.len());
        }
        assert("cycle_model"@ != "cycle_thinking_level"@) by {
            assert("cycle_model"@.len() != "cycle_thinking_level"@.len());
        }
        assert("cycle_model"@ != "set_steering_mode"@) by {
            assert("cycle_model"@.len() != "set_steering_mode"@.len());
        }
        assert("cycle_model"@ != "set_follow_up_mode"@) by {
            assert("cycle_model"@.len() != "set_follow_up_mode"@.len());
        }
        assert("cycle_model"@ != "compact"@) by {
            assert("cycle_model"@.len() != "compact"@.len());
        }
        assert("cycle_model"@ != "set_auto_compaction"@) by {
            assert("cycle_model"@.len() != "set_auto_compaction"@.len());
        }
        assert("cycle_model"@ != "set_auto_retry"@) by {
            assert("cycle_model"@.len() != "set_auto_retry"@.len());
        }
        assert("cycle_model"@ != "abort_retry"@) by {
            assert("cycle_model"@[0] != "abort_retry"@[0]);
        }
        assert("cycle_model"@ != "bash"@) by {
            assert("cycle_model"@.len() != "bash"@.len());
        }
        assert("cycle_model"@ != "abort_bash"@) by {
            assert("cycle_model"@.len() != "abort_bash"@.len());
        }
        assert("cycle_model"@ != "get_session_stats"@) by {
            assert("cycle_model"@.len() != "get_session_stats"@.len());
        }
        assert("cycle_model"@ != "export_html"@) by {
            assert("cycle_model"@[0] != "export_html"@[0]);
        }
        assert("cycle_model"@ != "switch_session"@) by {
            assert("cycle_model"@.len() != "switch_session"@.len());
        }
        assert("cycle_model"@ != "fork"@) by {
            assert("cycle_model"@.len() != "fork"@.len());
        }
        assert("cycle_model"@ != "get_fork_messages"@) by {
            assert("cycle_model"@.len() != "get_fork_messages"@.len());
        }
        assert("cycle_model"@ != "get_last_assistant_text"@) by {
            assert("cycle_model"@.len() != "get_last_assistant_text"@.len());
        }
        assert("cycle_model"@ != "set_session_name"@) by {
            assert("cycle_model"@.len() != "set_session_name"@.len());
        }
        assert("cycle_model"@ != "get_messages"@) by {
            assert("cycle_model"@.len() != "get_messages"@.len());
        }
        assert("cycle_model"@ != "get_commands"@) by {
            assert("cycle_model"@.len() != "get_commands"@.len());
        }
        assert(decoded(JsonModel::Object(ms)) == command_of(str_member(ms, "id"@), "cycle_model"@, ms));
    }
    if str_member(ms, "type"@) == Some("get_available_models"@) {
        assert("get_available_models"@ != "extension_ui_response"@) by {
            assert("get_available_models"@.len() != "extension_ui_response"@.len());
        }
        assert("get_available_models"@ != "prompt"@) by {
            assert("get_available_models"@.len() != "prompt"@.len());
        }
        assert("get_available_models"@ != "steer"@) by {
            assert("get_available_models"@.len() != "steer"@.len());
        }
        assert("get_available_models"@ != "follow_up"@) by {
            assert("get_available_models"@.len() != "follow_up"@.len());
        }
        assert("get_available_models"@ != "abort"@) by {
            assert("get_available_models"@.len() != "abort"@.len());
        }
        assert("get_available_models"@ != "new_session"@) by {
            assert("get_available_models"@.len() != "new_session"@.len());
        }
        assert("get_available_models"@ != "get_state"@) by {
            assert("get_available_models"@.len() != "get_state"@.len());
        }
        assert("get_available_models"@ != "set_model"@) by {
            assert("get_available_models"@.len() != "set_model"@.len());
        }
        assert("get_available_models"@ != "cycle_model"@) by {
            assert("get_available_models"@.len() != "cycle_model"@.len());
        }
        assert("get_available_models"@ != "set_thinking_level"@) by {
            assert("get_available_models"@.len() != "set_thinking_level"@.len());
        }
        assert("get_available_models"@ != "cycle_thinking_level"@) by {
            assert("get_available_models"@[0] != "cycle_thinking_level"@[0]);
        }
        assert("get_available_models"@ != "set_steering_mode"@) by {
            assert("get_available_models"@.len() != "set_steering_mode"@.len());
        }
        assert("get_available_models"@ != "set_follow_up_mode"@) by {
            assert("get_available_models"@.len() != "set_follow_up_mode"@.len());
        }
        assert("get_available_models"@ != "compact"@) by {
            assert("get_available_models"@.len() != "compact"@.len());
        }
        assert("get_available_models"@ != "set_auto_compaction"@) by {
            assert("get_available_models"@.len() != "set_auto_compaction"@.len());
        }
        assert("get_available_models"@ != "set_auto_retry"@) by {
            assert("get_available_models"@.len() != "set_auto_retry"@.len());
        }
        assert("get_available_models"@ != "abort_retry"@) by {
            assert("get_available_models"@.len() != "abort_retry"@.len());
        }
        assert("get_available_models"@ != "bash"@) by {
            assert("get_available_models"@.len() != "bash"@.len());
        }
        assert("get_available_models"@ != "abort_bash"@) by {
            assert("get_available_models"@.len() != "abort_bash"@.len());
        }
        assert("get_available_models"@ != "get_session_stats"@) by {
            assert("get_available_models"@.len() != "get_session_stats"@.len());
        }
        assert("get_available_models"@ != "export_html"@) by {
            assert("get_available_models"@.len() != "export_html"@.len());
        }
        assert("get_available_models"@ != "switch_session"@) by {
            assert("get_available_models"@.len() != "switch_session"@.len());
        }
        assert("get_available_models"@ != "fork"@) by {
            assert("get_available_models"@.len() != "fork"@.len());
        }
        assert("get_available_models"@ != "get_fork_messages"@) by {
            assert("get_available_models"@.len() != "get_fork_messages"@.len());
        }
        assert("get_available_models"@ != "get_last_assistant_text"@) by {
            assert("get_available_models"@.len() != "get_last_assistant_text"@.len());
        }
        assert("get_available_models"@ != "set_session_name"@) by {
            assert("get_available_models"@.len() != "set_session_name"@.len());
        }
        assert("get_available_models"@ != "get_messages"@) by {
            assert("get_available_models"@.len() != "get_messages"@.len());
        }
        assert("get_available_models"@ != "get_commands"@) by {
            assert("get_available_models"@.len() != "get_commands"@.len());
        }
        assert(decoded(JsonModel::Object(ms)) == command_of(str_member(ms, "id"@), "get_available_models"@, ms));
    }
    if str_member(ms, "type"@) == Some("cycle_thinking_level"@) {
        assert("cycle_thinking_level"@ != "extension_ui_response"@) by {
            assert("cycle_thinking_level"@.len() != "extension_ui_response"@.len());
        }
        assert("cycle_thinking_level"@ != "prompt"@) by {
            assert("cycle_thinking_level"@.len() != "prompt"@.len());
        }
        assert("cycle_thinking_level"@ != "steer"@) by {
            assert("cycle_thinking_level"@.len() != "steer"@.len());
        }
        assert("cycle_thinking_level"@ != "follow_up"@) by {
            assert("cycle_thinking_level"@.len() != "follow_up"@.len());
        }
        assert("cycle_thinking_level"@ != "abort"@) by {
            assert("cycle_thinking_level"@.len() != "abort"@.len());
        }
        assert("cycle_thinking_level"@ != "new_session"@) by {
            assert("cycle_thinking_level"@.len() != "new_session"@.len());
        }
        assert("cycle_thinking_level"@ != "get_state"@) by {
            assert("cycle_thinking_level"@.len() != "get_state"@.len());
        }
        assert("cycle_thinking_level"@ != "set_model"@) by {
            assert("cycle_thinking_level"@.len() != "set_model"@.len());
        }
        assert("cycle_thinking_level"@ != "cycle_model"@) by {
            assert("cycle_thinking_level"@.len() != "cycle_model"@.len());
        }
        assert("cycle_thinking_level"@ != "get_available_models"@) by {
            assert("cycle_thinking_level"@[0] != "get_available_models"@[0]);
        }
        assert("cycle_thinking_level"@ != "set_thinking_level"@) by {
            assert("cycle_thinking_level"@.len() != "set_thinking_level"@.len());
        }
        assert("cycle_thinking_level"@ != "set_steering_mode"@) by {
            assert("cycle_thinking_level"@.len() != "set_steering_mode"@.len());
        }
        assert("cycle_thinking_level"@ != "set_follow_up_mode"@) by {
            assert("cycle_thinking_level"@.len() != "set_follow_up_mode"@.len());
        }
        assert("cycle_thinking_level"@ != "compact"@) by {
            assert("cycle_thinking_level"@.len() != "compact"@.len());
        }
        assert("cycle_thinking_level"@ != "set_auto_compaction"@) by {
            assert("cycle_thinking_level"@.len() != "set_auto_compaction"@.len());
        }
        assert("cycle_thinking_level"@ != "set_auto_retry"@) by {
            assert("cycle_thinking_level"@.len() != "set_auto_retry"@.len());
        }
        assert("cycle_thinking_level"@ != "abort_retry"@) by {
            assert("cycle_thinking_level"@.len() != "abort_retry"@.len());
        }
        assert("cycle_thinking_level"@ != "bash"@) by {
            assert("cycle_thinking_level"@.len() != "bash"@.len());
        }
        assert("cycle_thinking_level"@ != "abort_bash"@) by {
            assert("cycle_thinking_level"@.len() != "abort_bash"@.len());
        }
        assert("cycle_thinking_level"@ != "get_session_stats"@) by {
            assert("cycle_thinking_level"@.len() != "get_session_stats"@.len());
        }
        assert("cycle_thinking_level"@ != "export_html"@) by {
            assert("cycle_thinking_level"@.len() != "export_html"@.len());
        }
        assert("cycle_thinking_level"@ != "switch_session"@) by {
            assert("cycle_thinking_level"@.len() != "switch_session"@.len());
        }
        assert("cycle_thinking_level"@ != "fork"@) by {
            assert("cycle_thinking_level"@.len() != "fork"@.len());
        }
        assert("cycle_thinking_level"@ != "get_fork_messages"@) by {
            assert("cycle_thinking_level"@.len() != "get_fork_messages"@.len());
        }
        assert("cycle_thinking_level"@ != "get_last_assistant_text"@) by {
            assert("cycle_thinking_level"@.len() != "get_last_assistant_text"@.len());
        }
        assert("cycle_thinking_level"@ != "set_session_name"@) by {
            assert("cycle_thinking_level"@.len() != "set_session_name"@.len());
        }
        assert("cycle_thinking_level"@ != "get_messages"@) by {
            assert("cycle_thinking_level"@.len() != "get_messages"@.len());
        }
        assert("cycle_thinking_level"@ != "get_commands"@) by {
            assert("cycle_thinking_level"@.len() != "get_commands"@.len());
        }
        assert(decoded(JsonModel::Object(ms)) == command_of(str_member(ms, "id"@), "cycle_thinking_level"@, ms));
    }
    if str_member(ms, "type"@) == Some("abort_retry"@) {
        assert("abort_retry"@ != "extension_ui_response"@) by {
            assert("abort_retry"@.len() != "extension_ui_response"@.len());
        }
        assert("abort_retry"@ != "prompt"@) by {
            assert("abort_retry"@.len() != "prompt"@.len());
        }
        assert("abort_retry"@ != "steer"@) by {
            assert("abort_retry"@.len() != "steer"@.len());
        }
        assert("abort_retry"@ != "follow_up"@) by {
            assert("abort_retry"@.len() != "follow_up"@.len());
        }
        assert("abort_retry"@ != "abort"@) by {
            assert("abort_retry"@.len() != "abort"@.len());
        }
        assert("abort_retry"@ != "new_session"@) by {
            assert("abort_retry"@[0] != "new_session"@[0]);
        }
        assert("abort_retry"@ != "get_state"@) by {
            assert("abort_retry"@.len() != "get_state"@.len());
        }
        assert("abort_retry"@ != "set_model"@) by {
            assert("abort_retry"@.len() != "set_model"@.len());
        }
        assert("abort_retry"@ != "cycle_model"@) by {
            assert("abort_retry"@[0] != "cycle_model"@[0]);
        }
        assert("abort_retry"@ != "get_available_models"@) by {
            assert("abort_retry"@.len() != "get_available_models"@.len());
        }
        assert("abort_retry"@ != "set_thinking_level"@) by {
            assert("abort_retry"@.len() != "set_thinking_level"@.len());
        }
        assert("abort_retry"@ != "cycle_thinking_level"@) by {
            assert("abort_retry"@.len() != "cycle_thinking_level"@.len());
        }
        assert("abort_retry"@ != "set_steering_mode"@) by {
            assert("abort_retry"@.len() != "set_steering_mode"@.len());
        }
        assert("abort_retry"@ != "set_follow_up_mode"@) by {
            assert("abort_retry"@.len() != "set_follow_up_mode"@.len());
        }
        assert("abort_retry"@ != "compact"@) by {
            assert("abort_retry"@.len() != "compact"@.len());
        }
        assert("abort_retry"@ != "set_auto_compaction"@) by {
            assert("abort_retry"@.len() != "set_auto_compaction"@.len());
        }
        assert("abort_retry"@ != "set_auto_retry"@) by {
            assert("abort_retry"@.len() != "set_auto_retry"@.len());
        }
        assert("abort_retry"@ != "bash"@) by {
            assert("abort_retry"@.len() != "bash"@.len());
        }
        assert("abort_retry"@ != "abort_bash"@) by {
            assert("abort_retry"@.len() != "abort_bash"@.len());
        }
        assert("abort_retry"@ != "get_session_stats"@) by {
            assert("abort_retry"@.len() != "get_session_stats"@.len());
        }
        assert("abort_retry"@ != "export_html"@) by {
            assert("abort_retry"@[0] != "export_html"@[0]);
        }
        assert("abort_retry"@ != "switch_session"@) by {
            assert("abort_retry"@.len() != "switch_session"@.len());
        }
        assert("abort_retry"@ != "fork"@) by {
            assert("abort_retry"@.len() != "fork"@.len());
        }
        assert("abort_retry"@ != "get_fork_messages"@) by {
            assert("abort_retry"@.len() != "get_fork_messages"@.len());
        }
        assert("abort_retry"@ != "get_last_assistant_text"@) by {
            assert("abort_retry"@.len() != "get_last_assistant_text"@.len());
        }
        assert("abort_retry"@ != "set_session_name"@) by {
            assert("abort_retry"@.len() != "set_session_name"@.len());
        }
        assert("abort_retry"@ != "get_messages"@) by {
            assert("abort_retry"@.len() != "get_messages"@.len());
        }
        assert("abort_retry"@ != "get_commands"@) by {
            assert("abort_retry"@.len() != "get_commands"@.len());
        }
        assert(decoded(JsonModel::Object(ms)) == command_of(str_member(ms, "id"@), "abort_retry"@, ms));
    }
    if str_member(ms, "type"@) == Some("abort_bash"@) {
        assert("abort_bash"@ != "extension_ui_response"@) by {
            assert("abort_bash"@.len() != "extension_ui_response"@.len());
        }
        assert("abort_bash"@ != "prompt"@) by {
            assert("abort_bash"@.len() != "prompt"@.len());
        }
        assert("abort_bash"@ != "steer"@) by {
            assert("abort_bash"@.len() != "steer"@.len());
        }
        assert("abort_bash"@ != "follow_up"@) by {
            assert("abort_bash"@.len() != "follow_up"@.len());
        }
        assert("abort_bash"@ != "abort"@) by {
            assert("abort_bash"@.len() != "abort"@.len());
        }
        assert("abort_bash"@ != "new_session"@) by {
            assert("abort_bash"@.len() != "new_session"@.len());
        }
        assert("abort_bash"@ != "get_state"@) by {
            assert("abort_bash"@.len() != "get_state"@.len());
        }
        assert("abort_bash"@ != "set_model"@) by {
            assert("abort_bash"@.len() != "set_model"@.len());
        }
        assert("abort_bash"@ != "cycle_model"@) by {
            assert("abort_bash"@.len() != "cycle_model"@.len());
        }
        assert("abort_bash"@ != "get_available_models"@) by {
            assert("abort_bash"@.len() != "get_available_models"@.len());
        }
        assert("abort_bash"@ != "set_thinking_level"@) by {
            assert("abort_bash"@.len() != "set_thinking_level"@.len());
        }
        assert("abort_bash"@ != "cycle_thinking_level"@) by {
            assert("abort_bash"@.len() != "cycle_thinking_level"@.len());
        }
        assert("abort_bash"@ != "set_steering_mode"@) by {
            assert("abort_bash"@.len() != "set_steering_mode"@.len());
        }
        assert("abort_bash"@ != "set_follow_up_mode"@) by {
            assert("abort_bash"@.len() != "set_follow_up_mode"@.len());
        }
        assert("abort_bash"@ != "compact"@) by {
            assert("abort_bash"@.len() != "compact"@.len());
        }
        assert("abort_bash"@ != "set_auto_compaction"@) by {
            assert("abort_bash"@.len() != "set_auto_compaction"@.len());
        }
        assert("abort_bash"@ != "set_auto_retry"@) by {
            assert("abort_bash"@.len() != "set_auto_retry"@.len());
        }
        assert("abort_bash"@ != "abort_retry"@) by {
            assert("abort_bash"@.len() != "abort_retry"@.len());
        }
        assert("abort_bash"@ != "bash"@) by {
            assert("abort_bash"@.len() != "bash"@.len());
        }
        assert("abort_bash"@ != "get_session_stats"@) by {
            assert("abort_bash"@.len() != "get_session_stats"@.len());
        }
        assert("abort_bash"@ != "export_html"@) by {
            assert("abort_bash"@.len() != "export_html"@.len());
        }
        assert("abort_bash"@ != "switch_session"@) by {
            assert("abort_bash"@.len() != "switch_session"@.len());
        }
        assert("abort_bash"@ != "fork"@) by {
            assert("abort_bash"@.len() != "fork"@.len());
        }
        assert("abort_bash"@ != "get_fork_messages"@) by {
            assert("abort_bash"@.len() != "get_fork_messages"@.len());
        }
        assert("abort_bash"@ != "get_last_assistant_text"@) by {
            assert("abort_bash"@.len() != "get_last_assistant_text"@.len());
        }
        assert("abort_bash"@ != "set_session_name"@) by {
            assert("abort_bash"@.len() != "set_session_name"@.len());
        }
        assert("abort_bash"@ != "get_messages"@) by {
            assert("abort_bash"@.len() != "get_messages"@.len());
        }
        assert("abort_bash"@ != "get_commands"@) by {
            assert("abort_bash"@.len() != "get_commands"@.len());
        }
        assert(decoded(JsonModel::Object(ms)) == command_of(str_member(ms, "id"@), "abort_bash"@, ms));
    }
    if str_member(ms, "type"@) == Some("get_session_stats"@) {
        assert("get_session_stats"@ != "extension_ui_response"@) by {
            assert("get_session_stats"@.len() != "extension_ui_response"@.len());
        }
        assert("get_session_stats"@ != "prompt"@) by {
            assert("get_session_stats"@.len() != "prompt"@.len());
        }
        assert("get_session_stats"@ != "steer"@) by {
            assert("get_session_stats"@.len() != "steer"@.len());
        }
        assert("get_session_stats"@ != "follow_up"@) by {
            assert("get_session_stats"@.len() != "follow_up"@.len());
        }
        assert("get_session_stats"@ != "abort"@) by {
            assert("get_session_stats"@.len() != "abort"@.len());
        }
        assert("get_session_stats"@ != "new_session"@) by {
            assert("get_session_stats"@.len() != "new_session"@.len());
        }
        assert("get_session_stats"@ != "get_state"@) by {
            assert("get_session_stats"@.len() != "get_state"@.len());
        }
        assert("get_session_stats"@ != "set_model"@) by {
            assert("get_session_stats"@.len() != "set_model"@.len());
        }
        assert("get_session_stats"@ != "cycle_model"@) by {
            assert("get_session_stats"@.len() != "cycle_model"@.len());
        }
        assert("get_session_stats"@ != "get_available_models"@) by {
            assert("get_session_stats"@.len() != "get_available_models"@.len());
        }
        assert("get_session_stats"@ != "set_thinking_level"@) by {
            assert("get_session_stats"@.len() != "set_thinking_level"@.len());
        }
        assert("get_session_stats"@ != "cycle_thinking_level"@) by {
            assert("get_session_stats"@.len() != "cycle_thinking_level"@.len());
        }
        assert("get_session_stats"@ != "set_steering_mode"@) by {
            assert("get_session_stats"@[0] != "set_steering_mode"@[0]);
        }
        assert("get_session_stats"@ != "set_follow_up_mode"@) by {
            assert("get_session_stats"@.len() != "set_follow_up_mode"@.len());
        }
        assert("get_session_stats"@ != "compact"@) by {
            assert("get_session_stats"@.len() != "compact"@.len());
        }
        assert("get_session_stats"@ != "set_auto_compaction"@) by {
            assert("get_session_stats"@.len() != "set_auto_compaction"@.len());
        }
        assert("get_session_stats"@ != "set_auto_retry"@) by {
            assert("get_session_stats"@.len() != "set_auto_retry"@.len());
        }
        assert("get_session_stats"@ != "abort_retry"@) by {
            assert("get_session_stats"@.len() != "abort_retry"@.len());
        }
        assert("get_session_stats"@ != "bash"@) by {
            assert("get_session_stats"@.len() != "bash"@.len());
        }
        assert("get_session_stats"@ != "abort_bash"@) by {
            assert("get_session_stats"@.len() != "abort_bash"@.len());
        }
        assert("get_session_stats"@ != "export_html"@) by {
            assert("get_session_stats"@.len() != "export_html"@.len());
        }
        assert("get_session_stats"@ != "switch_session"@) by {
            assert("get_session_stats"@.len() != "switch_session"@.len());
        }
        assert("get_session_stats"@ != "fork"@) by {
            assert("get_session_stats"@.len() != "fork"@.len());
        }
        assert("get_session_stats"@ != "get_fork_messages"@) by {
            assert("get_session_stats"@[4] != "get_fork_messages"@[4]);
        }
        assert("get_session_stats"@ != "get_last_assistant_text"@) by {
            assert("get_session_stats"@.len() != "get_last_assistant_text"@.len());
        }
        assert("get_session_stats"@ != "set_session_name"@) by {
            assert("get_session_stats"@.len() != "set_session_name"@.len());
        }
        assert("get_session_stats"@ != "get_messages"@) by {
            assert("get_session_stats"@.len() != "get_messages"@.len());
        }
        assert("get_session_stats"@ != "get_commands"@) by {
            assert("get_session_stats"@.len() != "get_commands"@.len());
        }
        assert(decoded(JsonModel::Object(ms)) == command_of(str_member(ms, "id"@), "get_session_stats"@, ms));
    }
    if str_member(ms, "type"@) == Some("get_fork_messages"@) {
        assert("get_fork_messages"@ != "extension_ui_response"@) by {
            assert("get_fork_messages"@.len() != "extension_ui_response"@.len());
        }
        assert("get_fork_messages"@ != "prompt"@) by {
            assert("get_fork_messages"@.len() != "prompt"@.len());
        }
        assert("get_fork_messages"@ != "steer"@) by {
            assert("get_fork_messages"@.len() != "steer"@.len());
        }
        assert("get_fork_messages"@ != "follow_up"@) by {
            assert("get_fork_messages"@.len() != "follow_up"@.len());
        }
        assert("get_fork_messages"@ != "abort"@) by {
            assert("get_fork_messages"@.len() != "abort"@.len());
        }
        assert("get_fork_messages"@ != "new_session"@) by {
            assert("get_fork_messages"@.len() != "new_session"@.len());
        }
        assert("get_fork_messages"@ != "get_state"@) by {
            assert("get_fork_messages"@.len() != "get_state"@.len());
        }
        assert("get_fork_messages"@ != "set_model"@) by {
            assert("get_fork_messages"@.len() != "set_model"@.len());
        }
        assert("get_fork_messages"@ != "cycle_model"@) by {
            assert("get_fork_messages"@.len() != "cycle_model"@.len());
        }
        assert("get_fork_messages"@ != "get_available_models"@) by {
            assert("get_fork_messages"@.len() != "get_available_models"@.len());
        }
        assert("get_fork_messages"@ != "set_thinking_level"@) by {
            assert("get_fork_messages"@.len() != "set_thinking_level"@.len());
        }
        assert("get_fork_messages"@ != "cycle_thinking_level"@) by {
            assert("get_fork_messages"@.len() != "cycle_thinking_level"@.len());
        }
        assert("get_fork_messages"@ != "set_steering_mode"@) by {
            assert("get_fork_messages"@[0] != "set_steering_mode"@[0]);
        }
        assert("get_fork_messages"@ != "set_follow_up_mode"@) by {
            assert("get_fork_messages"@.len() != "set_follow_up_mode"@.len());
        }
        assert("get_fork_messages"@ != "compact"@) by {
            assert("get_fork_messages"@.len() != "compact"@.len());
        }
        assert("get_fork_messages"@ != "set_auto_compaction"@) by {
            assert("get_fork_messages"@.len() != "set_auto_compaction"@.len());
        }
        assert("get_fork_messages"@ != "set_auto_retry"@) by {
            assert("get_fork_messages"@.len() != "set_auto_retry"@.len());
        }
        assert("get_fork_messages"@ != "abort_retry"@) by {
            assert("get_fork_messages"@.len() != "abort_retry"@.len());
        }
        assert("get_fork_messages"@ != "bash"@) by {
            assert("get_fork_messages"@.len() != "bash"@.len());
        }
        assert("get_fork_messages"@ != "abort_bash"@) by {
            assert("get_fork_messages"@.len() != "abort_bash"@.len());
        }
        assert("get_fork_messages"@ != "get_session_stats"@) by {
            assert("get_fork_messages"@[4] != "get_session_stats"@[4]);
        }
        assert("get_fork_messages"@ != "export_html"@) by {
            assert("get_fork_messages"@.len() != "export_html"@.len());
        }
        assert("get_fork_messages"@ != "switch_session"@) by {
            assert("get_fork_messages"@.len() != "switch_session"@.len());
        }
        assert("get_fork_messages"@ != "fork"@) by {
            assert("get_fork_messages"@.len() != "fork"@.len());
        }
        assert("get_fork_messages"@ != "get_last_assistant_text"@) by {
            assert("get_fork_messages"@.len() != "get_last_assistant_text"@.len());
        }
        assert("get_fork_messages"@ != "set_session_name"@) by {
            assert("get_fork_messages"@.len() != "set_session_name"@.len());
        }
        assert("get_fork_messages"@ != "get_messages"@) by {
            assert("get_fork_messages"@.len() != "get_messages"@.len());
        }
        assert("get_fork_messages"@ != "get_commands"@) by {
            assert("get_fork_messages"@.len() != "get_commands"@.len());
        }
        assert(decoded(JsonModel::Object(ms)) == command_of(str_member(ms, "id"@), "get_fork_messages"@, ms));
    }
    if str_member(ms, "type"@) == Some("get_last_assistant_text"@) {
        assert("get_last_assistant_text"@ != "extension_ui_response"@) by {
            assert("get_last_assistant_text"@.len() != "extension_ui_response"@.len());
        }
        assert("get_last_assistant_text"@ != "prompt"@) by {
            assert("get_last_assistant_text"@.len() != "prompt"@.len());
        }
        assert("get_last_assistant_text"@ != "steer"@) by {
            assert("get_last_assistant_text"@.len() != "steer"@.len());
        }
        assert("get_last_assistant_text"@ != "follow_up"@) by {
            assert("get_last_assistant_text"@.len() != "follow_up"@.len());
        }
        assert("get_last_assistant_text"@ != "abort"@) by {
            assert("get_last_assistant_text"@.len() != "abort"@.len());
        }
        assert("get_last_assistant_text"@ != "new_session"@) by {
            assert("get_last_assistant_text"@.len() != "new_session"@.len());
        }
        assert("get_last_assistant_text"@ != "get_state"@) by {
            assert("get_last_assistant_text"@.len() != "get_state"@.len());
        }
        assert("get_last_assistant_text"@ != "set_model"@) by {
            assert("get_last_assistant_text"@.len() != "set_model"@.len());
        }
        assert("get_last_assistant_text"@ != "cycle_model"@) by {
            assert("get_last_assistant_text"@.len() != "cycle_model"@.len());
        }
        assert("get_last_assistant_text"@ != "get_available_models"@) by {
            assert("get_last_assistant_text"@.len() != "get_available_models"@.len());
        }
        assert("get_last_assistant_text"@ != "set_thinking_level"@) by {
            assert("get_last_assistant_text"@.len() != "set_thinking_level"@.len());
        }
        assert("get_last_assistant_text"@ != "cycle_thinking_level"@) by {
            assert("get_last_assistant_text"@.len() != "cycle_thinking_level"@.len());
        }
        assert("get_last_assistant_text"@ != "set_steering_mode"@) by {
            assert("get_last_assistant_text"@.len() != "set_steering_mode"@.len());
        }
        assert("get_last_assistant_text"@ != "set_follow_up_mode"@) by {
            assert("get_last_assistant_text"@.len() != "set_follow_up_mode"@.len());
        }
        assert("get_last_assistant_text"@ != "compact"@) by {
            assert("get_last_assistant_text"@.len() != "compact"@.len());
        }
        assert("get_last_assistant_text"@ != "set_auto_compaction"@) by {
            assert("get_last_assistant_text"@.len() != "set_auto_compaction"@.len());
        }
        assert("get_last_assistant_text"@ != "set_auto_retry"@) by {
            assert("get_last_assistant_text"@.len() != "set_auto_retry"@.len());
        }
        assert("get_last_assistant_text"@ != "abort_retry"@) by {
            assert("get_last_assistant_text"@.len() != "abort_retry"@.len());
        }
        assert("get_last_assistant_text"@ != "bash"@) by {
            assert("get_last_assistant_text"@.len() != "bash"@.len());
        }
        assert("get_last_assistant_text"@ != "abort_bash"@) by {
            assert("get_last_assistant_text"@.len() != "abort_bash"@.len());
        }
        assert("get_last_assistant_text"@ != "get_session_stats"@) by {
            assert("get_last_assistant_text"@.len() != "get_session_stats"@.len());
        }
        assert("get_last_assistant_text"@ != "export_html"@) by {
            assert("get_last_assistant_text"@.len() != "export_html"@.len());
        }
        assert("get_last_assistant_text"@ != "switch_session"@) by {
            assert("get_last_assistant_text"@.len() != "switch_session"@.len());
        }
        assert("get_last_assistant_text"@ != "fork"@) by {
            assert("get_last_assistant_text"@.len() != "fork"@.len());
        }
        assert("get_last_assistant_text"@ != "get_fork_messages"@) by {
            assert("get_last_assistant_text"@.len() != "get_fork_messages"@.len());
        }
        assert("get_last_assistant_text"@ != "set_session_name"@) by {
            assert("get_last_assistant_text"@.len() != "set_session_name"@.len());
        }
        assert("get_last_assistant_text"@ != "get_messages"@) by {
            assert("get_last_assistant_text"@.len() != "get_messages"@.len());
        }
        assert("get_last_assistant_text"@ != "get_commands"@) by {
            assert("get_last_assistant_text"@.len() != "get_commands"@.len());
        }
        assert(decoded(JsonModel::Object(ms)) == command_of(str_member(ms, "id"@), "get_last_assistant_text"@, ms));
    }
    if str_member(ms, "type"@) == Some("get_messages"@) {
        assert("get_messages"@ != "extension_ui_response"@) by {
            assert("get_messages"@.len() != "extension_ui_response"@.len());
        }
        assert("get_messages"@ != "prompt"@) by {
            assert("get_messages"@.len() != "prompt"@.len());
        }
        assert("get_messages"@ != "steer"@) by {
            assert("get_messages"@.len() != "steer"@.len());
        }
        assert("get_messages"@ != "follow_up"@) by {
            assert("get_messages"@.len() != "follow_up"@.len());
        }
        assert("get_messages"@ != "abort"@) by {
            assert("get_messages"@.len() != "abort"@.len());
        }
        assert("get_messages"@ != "new_session"@) by {
            assert("get_messages"@.len() != "new_session"@.len());
        }
        assert("get_messages"@ != "get_state"@) by {
            assert("get_messages"@.len() != "get_state"@.len());
        }
        assert("get_messages"@ != "set_model"@) by {
            assert("get_messages"@.len() != "set_model"@.len());
        }
        assert("get_messages"@ != "cycle_model"@) by {
            assert("get_messages"@.len() != "cycle_model"@.len());
        }
        assert("get_messages"@ != "get_available_models"@) by {
            assert("get_messages"@.len() != "get_available_models"@.len());
        }
        assert("get_messages"@ != "set_thinking_level"@) by {
            assert("get_messages"@.len() != "set_thinking_level"@.len());
        }
        assert("get_messages"@ != "cycle_thinking_level"@) by {
            assert("get_messages"@.len() != "cycle_thinking_level"@.len());
        }
        assert("get_messages"@ != "set_steering_mode"@) by {
            assert("get_messages"@.len() != "set_steering_mode"@.len());
        }
        assert("get_messages"@ != "set_follow_up_mode"@) by {
            assert("get_messages"@.len() != "set_follow_up_mode"@.len());
        }
        assert("get_messages"@ != "compact"@) by {
            assert("get_messages"@.len() != "compact"@.len());
        }
        assert("get_messages"@ != "set_auto_compaction"@) by {
            assert("get_messages"@.len() != "set_auto_compaction"@.len());
        }
        assert("get_messages"@ != "set_auto_retry"@) by {
            assert("get_messages"@.len() != "set_auto_retry"@.len());
        }
        assert("get_messages"@ != "abort_retry"@) by {
            assert("get_messages"@.len() != "abort_retry"@.len());
        }
        assert("get_messages"@ != "bash"@) by {
            assert("get_messages"@.len() != "bash"@.len());
        }
        assert("get_messages"@ != "abort_bash"@) by {
            assert("get_messages"@.len() != "abort_bash"@.len());
        }
        assert("get_messages"@ != "get_session_stats"@) by {
            assert("get_messages"@.len() != "get_session_stats"@.len());
        }
        assert("get_messages"@ != "export_html"@) by {
            assert("get_messages"@.len() != "export_html"@.len());
        }
        assert("get_messages"@ != "switch_session"@) by {
            assert("get_messages"@.len() != "switch_session"@.len());
        }
        assert("get_messages"@ != "fork"@) by {
            assert("get_messages"@.len() != "fork"@.len());
        }
        assert("get_messages"@ != "get_fork_messages"@) by {
            assert("get_messages"@.len() != "get_fork_messages"@.len());
        }
        assert("get_messages"@ != "get_last_assistant_text"@) by {
            assert("get_messages"@.len() != "get_last_assistant_text"@.len());
        }
        assert("get_messages"@ != "set_session_name"@) by {
            assert("get_messages"@.len() != "set_session_name"@.len());
        }
        assert("get_messages"@ != "get_commands"@) by {
            assert("get_messages"@[4] != "get_commands"@[4]);
        }
        assert(decoded(JsonModel::Object(ms)) == command_of(str_member(ms, "id"@), "get_messages"@, ms));
    }
    if str_member(ms, "type"@) == Some("get_commands"@) {
        assert("get_commands"@ != "extension_ui_response"@) by {
            assert("get_commands"@.len() != "extension_ui_response"@.len());
        }
        assert("get_commands"@ != "prompt"@) by {
            assert("get_commands"@.len() != "prompt"@.len());
        }
        assert("get_commands"@ != "steer"@) by {
            assert("get_commands"@.len() != "steer"@.len());
        }
        assert("get_commands"@ != "follow_up"@) by {
            assert("get_commands"@.len() != "follow_up"@.len());
        }
        assert("get_commands"@ != "abort"@) by {
            assert("get_commands"@.len() != "abort"@.len());
        }
        assert("get_commands"@ != "new_session"@) by {
            assert("get_commands"@.len() != "new_session"@.len());
        }
        assert("get_commands"@ != "get_state"@) by {
            assert("get_commands"@.len() != "get_state"@.len());
        }
        assert("get_commands"@ != "set_model"@) by {
            assert("get_commands"@.len() != "set_model"@.len());
        }
        assert("get_commands"@ != "cycle_model"@) by {
            assert("get_commands"@.len() != "cycle_model"@.len());
        }
        assert("get_commands"@ != "get_available_models"@) by {
            assert("get_commands"@.len() != "get_available_models"@.len());
        }
        assert("get_commands"@ != "set_thinking_level"@) by {
            assert("get_commands"@.len() != "set_thinking_level"@.len());
        }
        assert("get_commands"@ != "cycle_thinking_level"@) by {
            assert("get_commands"@.len() != "cycle_thinking_level"@.len());
        }
        assert("get_commands"@ != "set_steering_mode"@) by {
            assert("get_commands"@.len() != "set_steering_mode"@.len());
        }
        assert("get_commands"@ != "set_follow_up_mode"@) by {
            assert("get_commands"@.len() != "set_follow_up_mode"@.len());
        }
        assert("get_commands"@ != "compact"@) by {
            assert("get_commands"@.len() != "compact"@.len());
        }
        assert("get_commands"@ != "set_auto_compaction"@) by {
            assert("get_commands"@.len() != "set_auto_compaction"@.len());
        }
        assert("get_commands"@ != "set_auto_retry"@) by {
            assert("get_commands"@.len() != "set_auto_retry"@.len());
        }
        assert("get_commands"@ != "abort_retry"@) by {
            assert("get_commands"@.len() != "abort_retry"@.len());
        }
        assert("get_commands"@ != "bash"@) by {
            assert("get_commands"@.len() != "bash"@.len());
        }
        assert("get_commands"@ != "abort_bash"@) by {
            assert("get_commands"@.len() != "abort_bash"@.len());
        }
        assert("get_commands"@ != "get_session_stats"@) by {
            assert("get_commands"@.len() != "get_session_stats"@.len());
        }
        assert("get_commands"@ != "export_html"@) by {
            assert("get_commands"@.len() != "export_html"@.len());
        }
        assert("get_commands"@ != "switch_session"@) by {
            assert("get_commands"@.len() != "switch_session"@.len());
        }
        assert("get_commands"@ != "fork"@) by {
            assert("get_commands"@.len() != "fork"@.len());
        }
        assert("get_commands"@ != "get_fork_messages"@) by {
            assert("get_commands"@.len() != "get_fork_messages"@.len());
        }
        assert("get_commands"@ != "get_last_assistant_text"@) by {
            assert("get_commands"@.len() != "get_last_assistant_text"@.len());
        }
        assert("get_commands"@ != "set_session_name"@) by {
            assert("get_commands"@.len() != "set_session_name"@.len());
        }
        assert("get_commands"@ != "get_messages"@) by {
            assert("get_commands"@[4] != "get_messages"@[4]);
        }
        assert(decoded(JsonModel::Object(ms)) == command_of(str_member(ms, "id"@), "get_commands"@, ms));
    }
}

/// Each command with one optional text argument takes it from its member
/// (none where the member is missing or is no string).
pub proof fn lemma_optional_text_commands(ms: Seq<(Seq<char>, JsonModel)>)
    ensures
        str_member(ms, "type"@) == Some("new_session"@) ==> decoded(JsonModel::Object(ms)) == (RpcRequestModel::Command {
            id: str_member(ms, "id"@),
            command: RpcCommandModel::NewSession { parent_session: str_member(ms, "parentSession"@) },
        }),
        str_member(ms, "type"@) == Some("compact"@) ==> decoded(JsonModel::Object(ms)) == (RpcRequestModel::Command {
            id: str_member(ms, "id"@),
            command: RpcCommandModel::Compact { custom_instructions: str_member(ms, "customInstructions"@) },
        }),
        str_member(ms, "type"@) == Some("export_html"@) ==> decoded(JsonModel::Object(ms)) == (RpcRequestModel::Command {
            id: str_member(ms, "id"@),
            command: RpcCommandModel::ExportHtml { output_path: str_member(ms, "outputPath"@) },
        }),
        str_member(ms, "type"@) == Some("switch_session"@) ==> decoded(JsonModel::Object(ms)) == (RpcRequestModel::Command {
            id: str_member(ms, "id"@),
            command: RpcCommandModel::SwitchSession { session_path: str_member(ms, "sessionPath"@) },
        }),
        str_member(ms, "type"@) == Some("fork"@) ==> decoded(JsonModel::Object(ms)) == (RpcRequestModel::Command {
            id: str_member(ms, "id"@),
            command: RpcCommandModel::Fork { entry_id: str_member(ms, "entryId"@) },
        }),
{
    reveal_strlit("extension_ui_response");
    reveal_strlit("prompt");
    reveal_strlit("steer");
    reveal_strlit("follow_up");
    reveal_strlit("abort");
    reveal_strlit("new_session");
    reveal_strlit("get_state");
    reveal_strlit("set_model");
    reveal_strlit("cycle_model");
    reveal_strlit("get_available_models");
    reveal_strlit("set_thinking_level");
    reveal_strlit("cycle_thinking_level");
    reveal_strlit("set_steering_mode");
    reveal_strlit("set_follow_up_mode");
    reveal_strlit("compact");
    reveal_strlit("set_auto_compaction");
    reveal_strlit("set_auto_retry");
    reveal_strlit("abort_retry");
    reveal_strlit("bash");
    reveal_strlit("abort_bash");
    reveal_strlit("get_session_stats");
    reveal_strlit("export_html");
    reveal_strlit("switch_session");
    reveal_strlit("fork");
    reveal_strlit("get_fork_messages");
    reveal_strlit("get_last_assistant_text");
    reveal_strlit("set_session_name");
    reveal_strlit("get_messages");
    reveal_strlit("get_commands");
    if str_member(ms, "type"@) == Some("new_session"@) {
        assert("new_session"@ != "extension_ui_response"@) by {
            assert("new_session"@.len() != "extension_ui_response"@.len());
        }
        assert("new_session"@ != "prompt"@) by {
            assert("new_session"@.len() != "prompt"@.len());
        }
        assert("new_session"@ != "steer"@) by {
            assert("new_session"@.len() != "steer"@.len());
        }
        assert("new_session"@ != "follow_up"@) by {
            assert("new_session"@.len() != "follow_up"@.len());
        }
        assert("new_session"@ != "abort"@) by {
            assert("new_session"@.len() != "abort"@.len());
        }
        assert("new_session"@ != "get_state"@) by {
            assert("new_session"@.len() != "get_state"@.len());
        }
        assert("new_session"@ != "set_model"@) by {
            assert("new_session"@.len() != "set_model"@.len());
        }
        assert("new_session"@ != "cycle_model"@) by {
            assert("new_session"@[0] != "cycle_model"@[0]);
        }
        assert("new_session"@ != "get_available_models"@) by {
            assert("new_session"@.len() != "get_available_models"@.len());
        }
        assert("new_session"@ != "set_thinking_level"@) by {
            assert("new_session"@.len() != "set_thinking_level"@.len());
        }
        assert("new_session"@ != "cycle_thinking_level"@) by {
            assert("new_session"@.len() != "cycle_thinking_level"@.len());
        }
        assert("new_session"@ != "set_steering_mode"@) by {
            assert("new_session"@.len() != "set_steering_mode"@.len());
        }
        assert("new_session"@ != "set_follow_up_mode"@) by {
            assert("new_session"@.len() != "set_follow_up_mode"@.len());
        }
        assert("new_session"@ != "compact"@) by {
            assert("new_session"@.len() != "compact"@.len());
        }
        assert("new_session"@ != "set_auto_compaction"@) by {
            assert("new_session"@.len() != "set_auto_compaction"@.len());
        }
        assert("new_session"@ != "set_auto_retry"@) by {
            assert("new_session"@.len() != "set_auto_retry"@.len());
        }
        assert("new_session"@ != "abort_retry"@) by {
            assert("new_session"@[0] != "abort_retry"@[0]);
        }
        assert("new_session"@ != "bash"@) by {
            assert("new_session"@.len() != "bash"@.len());
        }
        assert("new_session"@ != "abort_bash"@) by {
            assert("new_session"@.len() != "abort_bash"@.len());
        }
        assert("new_session"@ != "get_session_stats"@) by {
            assert("new_session"@.len() != "get_session_stats"@.len());
        }
        assert("new_session"@ != "export_html"@) by {
            assert("new_session"@[0] != "export_html"@[0]);
        }
        assert("new_session"@ != "switch_session"@) by {
            assert("new_session"@.len() != "switch_session"@.len());
        }
        assert("new_session"@ != "fork"@) by {
            assert("new_session"@.len() != "fork"@.len());
        }
        assert("new_session"@ != "get_fork_messages"@) by {
            assert("new_session"@.len() != "get_fork_messages"@.len());
        }
        assert("new_session"@ != "get_last_assistant_text"@) by {
            assert("new_session"@.len() != "get_last_assistant_text"@.len());
        }
        assert("new_session"@ != "set_session_name"@) by {
            assert("new_session"@.len() != "set_session_name"@.len());
        }
        assert("new_session"@ != "get_messages"@) by {
            assert("new_session"@.len() != "get_messages"@.len());
        }
        assert("new_session"@ != "get_commands"@) by {
            assert("new_session"@.len() != "get_commands"@.len());
        }
        assert(decoded(JsonModel::Object(ms)) == command_of(str_member(ms, "id"@), "new_session"@, ms));
    }
    if str_member(ms, "type"@) == Some("compact"@) {
        assert("compact"@ != "extension_ui_response"@) by {
            assert("compact"@.len() != "extension_ui_response"@.len());
        }
        assert("compact"@ != "prompt"@) by {
            assert("compact"@.len() != "prompt"@.len());
        }
        assert("compact"@ != "steer"@) by {
            assert("compact"@.len() != "steer"@.len());
        }
        assert("compact"@ != "follow_up"@) by {
            assert("compact"@.len() != "follow_up"@.len());
        }
        assert("compact"@ != "abort"@) by {
            assert("compact"@.len() != "abort"@.len());
        }
        assert("compact"@ != "new_session"@) by {
            assert("compact"@.len() != "new_session"@.len());
        }
        assert("compact"@ != "get_state"@) by {
            assert("compact"@.len() != "get_state"@.len());
        }
        assert("compact"@ != "set_model"@) by {
            assert("compact"@.len() != "set_model"@.len());
        }
        assert("compact"@ != "cycle_model"@) by {
            assert("compact"@.len() != "cycle_model"@.len());
        }
        assert("compact"@ != "get_available_models"@) by {
            assert("compact"@.len() != "get_available_models"@.len());
        }
        assert("compact"@ != "set_thinking_level"@) by {
            assert("compact"@.len() != "set_thinking_level"@.len());
        }
        assert("compact"@ != "cycle_thinking_level"@) by {
            assert("compact"@.len() != "cycle_thinking_level"@.len());
        }
        assert("compact"@ != "set_steering_mode"@) by {
            assert("compact"@.len() != "set_steering_mode"@.len());
        }
        assert("compact"@ != "set_follow_up_mode"@) by {
            assert("compact"@.len() != "set_follow_up_mode"@.len());
        }
        assert("compact"@ != "set_auto_compaction"@) by {
            assert("compact"@.len() != "set_auto_compaction"@.len());
        }
        assert("compact"@ != "set_auto_retry"@) by {
            assert("compact"@.len() != "set_auto_retry"@.len());
        }
        assert("compact"@ != "abort_retry"@) by {
            assert("compact"@.len() != "abort_retry"@.len());
        }
        assert("compact"@ != "bash"@) by {
            assert("compact"@.len() != "bash"@.len());
        }
        assert("compact"@ != "abort_bash"@) by {
            assert("compact"@.len() != "abort_bash"@.len());
        }
        assert("compact"@ != "get_session_stats"@) by {
            assert("compact"@.len() != "get_session_stats"@.len());
        }
        assert("compact"@ != "export_html"@) by {
            assert("compact"@.len() != "export_html"@.len());
        }
        assert("compact"@ != "switch_session"@) by {
            assert("compact"@.len() != "switch_session"@.len());
        }
        assert("compact"@ != "fork"@) by {
            assert("compact"@.len() != "fork"@.len());
        }
        assert("compact"@ != "get_fork_messages"@) by {
            assert("compact"@.len() != "get_fork_messages"@.len());
        }
        assert("compact"@ != "get_last_assistant_text"@) by {
            assert("compact"@.len() != "get_last_assistant_text"@.len());
        }
        assert("compact"@ != "set_session_name"@) by {
            assert("compact"@.len() != "set_session_name"@.len());
        }
        assert("compact"@ != "get_messages"@) by {
            assert("compact"@.len() != "get_messages"@.len());
        }
        assert("compact"@ != "get_commands"@) by {
            assert("compact"@.len() != "get_commands"@.len());
        }
        assert(decoded(JsonModel::Object(ms)) == command_of(str_member(ms, "id"@), "compact"@, ms));
    }
    if str_member(ms, "type"@) == Some("export_html"@) {
        assert("export_html"@ != "extension_ui_response"@) by {
            assert("export_html"@.len() != "extension_ui_response"@.len());
        }
        assert("export_html"@ != "prompt"@) by {
            assert("export_html"@.len() != "prompt"@.len());
        }
        assert("export_html"@ != "steer"@) by {
            assert("export_html"@.len() != "steer"@.len());
        }
        assert("export_html"@ != "follow_up"@) by {
            assert("export_html"@.len() != "follow_up"@.len());
        }
        assert("export_html"@ != "abort"@) by {
            assert("export_html"@.len() != "abort"@.len());
        }
        assert("export_html"@ != "new_session"@) by {
            assert("export_html"@[0] != "new_session"@[0]);
        }
        assert("export_html"@ != "get_state"@) by {
            assert("export_html"@.len() != "get_state"@.len());
        }
        assert("export_html"@ != "set_model"@) by {
            assert("export_html"@.len() != "set_model"@.len());
        }
        assert("export_html"@ != "cycle_model"@) by {
            assert("export_html"@[0] != "cycle_model"@[0]);
        }
        assert("export_html"@ != "get_available_models"@) by {
            assert("export_html"@.len() != "get_available_models"@.len());
        }
        assert("export_html"@ != "set_thinking_level"@) by {
            assert("export_html"@.len() != "set_thinking_level"@.len());
        }
        assert("export_html"@ != "cycle_thinking_level"@) by {
            assert("export_html"@.len() != "cycle_thinking_level"@.len());
        }
        assert("export_html"@ != "set_steering_mode"@) by {
            assert("export_html"@.len() != "set_steering_mode"@.len());
        }
        assert("export_html"@ != "set_follow_up_mode"@) by {
            assert("export_html"@.len() != "set_follow_up_mode"@.len());
        }
        assert("export_html"@ != "compact"@) by {
            assert("export_html"@.len() != "compact"@.len());
        }
        assert("export_html"@ != "set_auto_compaction"@) by {
            assert("export_html"@.len() != "set_auto_compaction"@.len());
        }
        assert("export_html"@ != "set_auto_retry"@) by {
            assert("export_html"@.len() != "set_auto_retry"@.len());
        }
        assert("export_html"@ != "abort_retry"@) by {
            assert("export_html"@[0] != "abort_retry"@[0]);
        }
        assert("export_html"@ != "bash"@) by {
            assert("export_html"@.len() != "bash"@.len());
        }
        assert("export_html"@ != "abort_bash"@) by {
            assert("export_html"@.len() != "abort_bash"@.len());
        }
        assert("export_html"@ != "get_session_stats"@) by {
            assert("export_html"@.len() != "get_session_stats"@.len());
        }
        assert("export_html"@ != "switch_session"@) by {
            assert("export_html"@.len() != "switch_session"@.len());
        }
        assert("export_html"@ != "fork"@) by {
            assert("export_html"@.len() != "fork"@.len());
        }
        assert("export_html"@ != "get_fork_messages"@) by {
            assert("export_html"@.len() != "get_fork_messages"@.len());
        }
        assert("export_html"@ != "get_last_assistant_text"@) by {
            assert("export_html"@.len() != "get_last_assistant_text"@.len());
        }
        assert("export_html"@ != "set_session_name"@) by {
            assert("export_html"@.len() != "set_session_name"@.len());
        }
        assert("export_html"@ != "get_messages"@) by {
            assert("export_html"@.len() != "get_messages"@.len());
        }
        assert("export_html"@ != "get_commands"@) by {
            assert("export_html"@.len() != "get_commands"@.len());
        }
        assert(decoded(JsonModel::Object(ms)) == command_of(str_member(ms, "id"@), "export_html"@, ms));
    }
    if str_member(ms, "type"@) == Some("switch_session"@) {
        assert("switch_session"@ != "extension_ui_response"@) by {
            assert("switch_session"@.len() != "extension_ui_response"@.len());
        }
        assert("switch_session"@ != "prompt"@) by {
            assert("switch_session"@.len() != "prompt"@.len());
        }
        assert("switch_session"@ != "steer"@) by {
            assert("switch_session"@.len() != "steer"@.len());
        }
        assert("switch_session"@ != "follow_up"@) by {
            assert("switch_session"@.len() != "follow_up"@.len());
        }
        assert("switch_session"@ != "abort"@) by {
            assert("switch_session"@.len() != "abort"@.len());
        }
        assert("switch_session"@ != "new_session"@) by {
            assert("switch_session"@.len() != "new_session"@.len());
        }
        assert("switch_session"@ != "get_state"@) by {
            assert("switch_session"@.len() != "get_state"@.len());
        }
        assert("switch_session"@ != "set_model"@) by {
            assert("switch_session"@.len() != "set_model"@.len());
        }
        assert("switch_session"@ != "cycle_model"@) by {
            assert("switch_session"@.len() != "cycle_model"@.len());
        }
        assert("switch_session"@ != "get_available_models"@) by {
            assert("switch_session"@.len() != "get_available_models"@.len());
        }
        assert("switch_session"@ != "set_thinking_level"@) by {
            assert("switch_session"@.len() != "set_thinking_level"@.len());
        }
        assert("switch_session"@ != "cycle_thinking_level"@) by {
            assert("switch_session"@.len() != "cycle_thinking_level"@.len());
        }
        assert("switch_session"@ != "set_steering_mode"@) by {
            assert("switch_session"@.len() != "set_steering_mode"@.len());
        }
        assert("switch_session"@ != "set_follow_up_mode"@) by {
            assert("switch_session"@.len() != "set_follow_up_mode"@.len());
        }
        assert("switch_session"@ != "compact"@) by {
            assert("switch_session"@.len() != "compact"@.len());
        }
        assert("switch_session"@ != "set_auto_compaction"@) by {
            assert("switch_session"@.len() != "set_auto_compaction"@.len());
        }
        assert("switch_session"@ != "set_auto_retry"@) by {
            assert("switch_session"@[1] != "set_auto_retry"@[1]);
        }
        assert("switch_session"@ != "abort_retry"@) by {
            assert("switch_session"@.len() != "abort_retry"@.len());
        }
        assert("switch_session"@ != "bash"@) by {
            assert("switch_session"@.len() != "bash"@.len());
        }
        assert("switch_session"@ != "abort_bash"@) by {
            assert("switch_session"@.len() != "abort_bash"@.len());
        }
        assert("switch_session"@ != "get_session_stats"@) by {
            assert("switch_session"@.len() != "get_session_stats"@.len());
        }
        assert("switch_session"@ != "export_html"@) by {
            assert("switch_session"@.len() != "export_html"@.len());
        }
        assert("switch_session"@ != "fork"@) by {
            assert("switch_session"@.len() != "fork"@.len());
        }
        assert("switch_session"@ != "get_fork_messages"@) by {
            assert("switch_session"@.len() != "get_fork_messages"@.len());
        }
        assert("switch_session"@ != "get_last_assistant_text"@) by {
            assert("switch_session"@.len() != "get_last_assistant_text"@.len());
        }
        assert("switch_session"@ != "set_session_name"@) by {
            assert("switch_session"@.len() != "set_session_name"@.len());
        }
        assert("switch_session"@ != "get_messages"@) by {
            assert("switch_session"@.len() != "get_messages"@.len());
        }
        assert("switch_session"@ != "get_commands"@) by {
            assert("switch_session"@.len() != "get_commands"@.len());
        }
        assert(decoded(JsonModel::Object(ms)) == command_of(str_member(ms, "id"@), "switch_session"@, ms));
    }
    if str_member(ms, "type"@) == Some("fork"@) {
        assert("fork"@ != "extension_ui_response"@) by {
            assert("fork"@.len() != "extension_ui_response"@.len());
        }
        assert("fork"@ != "prompt"@) by {
            assert("fork"@.len() != "prompt"@.len());
        }
        assert("fork"@ != "steer"@) by {
            assert("fork"@.len() != "steer"@.len());
        }
        assert("fork"@ != "follow_up"@) by {
            assert("fork"@.len() != "follow_up"@.len());
        }
        assert("fork"@ != "abort"@) by {
            assert("fork"@.len() != "abort"@.len());
        }
        assert("fork"@ != "new_session"@) by {
            assert("fork"@.len() != "new_session"@.len());
        }
        assert("fork"@ != "get_state"@) by {
            assert("fork"@.len() != "get_state"@.len());
        }
        assert("fork"@ != "set_model"@) by {
            assert("fork"@.len() != "set_model"@.len());
        }
        assert("fork"@ != "cycle_model"@) by {
            assert("fork"@.len() != "cycle_model"@.len());
        }
        assert("fork"@ != "get_available_models"@) by {
            assert("fork"@.len() != "get_available_models"@.len());
        }
        assert("fork"@ != "set_thinking_level"@) by {
            assert("fork"@.len() != "set_thinking_level"@.len());
        }
        assert("fork"@ != "cycle_thinking_level"@) by {
            assert("fork"@.len() != "cycle_thinking_level"@.len());
        }
        assert("fork"@ != "set_steering_mode"@) by {
            assert("fork"@.len() != "set_steering_mode"@.len());
        }
        assert("fork"@ != "set_follow_up_mode"@) by {
            assert("fork"@.len() != "set_follow_up_mode"@.len());
        }
        assert("fork"@ != "compact"@) by {
            assert("fork"@.len() != "compact"@.len());
        }
        assert("fork"@ != "set_auto_compaction"@) by {
            assert("fork"@.len() != "set_auto_compaction"@.len());
        }
        assert("fork"@ != "set_auto_retry"@) by {
            assert("fork"@.len() != "set_auto_retry"@.len());
        }
        assert("fork"@ != "abort_retry"@) by {
            assert("fork"@.len() != "abort_retry"@.len());
        }
        assert("fork"@ != "bash"@) by {
            assert("fork"@[0] != "bash"@[0]);
        }
        assert("fork"@ != "abort_bash"@) by {
            assert("fork"@.len() != "abort_bash"@.len());
        }
        assert("fork"@ != "get_session_stats"@) by {
            assert("fork"@.len() != "get_session_stats"@.len());
        }
        assert("fork"@ != "export_html"@) by {
            assert("fork"@.len() != "export_html"@.len());
        }
        assert("fork"@ != "switch_session"@) by {
            assert("fork"@.len() != "switch_session"@.len());
        }
        assert("fork"@ != "get_fork_messages"@) by {
            assert("fork"@.len() != "get_fork_messages"@.len());
        }
        assert("fork"@ != "get_last_assistant_text"@) by {
            assert("fork"@.len() != "get_last_assistant_text"@.len());
        }
        assert("fork"@ != "set_session_name"@) by {
            assert("fork"@.len() != "set_session_name"@.len());
        }
        assert("fork"@ != "get_messages"@) by {
            assert("fork"@.len() != "get_messages"@.len());
        }
        assert("fork"@ != "get_commands"@) by {
            assert("fork"@.len() != "get_commands"@.len());
        }
        assert(decoded(JsonModel::Object(ms)) == command_of(str_member(ms, "id"@), "fork"@, ms));
    }
}

/// A command that needs a string member runs with it when it is there and
/// is refused, naming the member, when it is missing or no string: `bash`
/// needs `command`, `set_model` needs `provider` and then `modelId`.
pub proof fn lemma_required_members(ms: Seq<(Seq<char>, JsonModel)>)
    ensures
        str_member(ms, "type"@) == Some("bash"@) ==> decoded(JsonModel::Object(ms)) == (match str_member(ms, "command"@) {
            Some(c) => RpcRequestModel::Command { id: str_member(ms, "id"@), command: RpcCommandModel::Bash { command: c } },
            None => RpcRequestModel::Rejected {
                id: str_member(ms, "id"@),
                command: "bash"@,
                message: "Missing required string field: "@ + "command"@,
            },
        }),
        str_member(ms, "type"@) == Some("set_model"@) ==> decoded(JsonModel::Object(ms)) == (match (
            str_member(ms, "provider"@),
            str_member(ms, "modelId"@),
        ) {
            (Some(p), Some(m)) => RpcRequestModel::Command {
                id: str_member(ms, "id"@),
                command: RpcCommandModel::SetModel { provider: p, model_id: m },
            },
            (None, _) => RpcRequestModel::Rejected {
                id: str_member(ms, "id"@),
                command: "set_model"@,
                message: "Missing required string field: "@ + "provider"@,
            },
            (Some(_), None) => RpcRequestModel::Rejected {
                id: str_member(ms, "id"@),
                command: "set_model"@,
                message: "Missing required string field: "@ + "modelId"@,
            },
        }),
{
    reveal_strlit("extension_ui_response");
    reveal_strlit("prompt");
    reveal_strlit("steer");
    reveal_strlit("follow_up");
    reveal_strlit("abort");
    reveal_strlit("new_session");
    reveal_strlit("get_state");
    reveal_strlit("set_model");
    reveal_strlit("cycle_model");
    reveal_strlit("get_available_models");
    reveal_strlit("set_thinking_level");
    reveal_strlit("cycle_thinking_level");
    reveal_strlit("set_steering_mode");
    reveal_strlit("set_follow_up_mode");
    reveal_strlit("compact");
    reveal_strlit("set_auto_compaction");
    reveal_strlit("set_auto_retry");
    reveal_strlit("abort_retry");
    reveal_strlit("bash");
    reveal_strlit("abort_bash");
    reveal_strlit("get_session_stats");
    reveal_strlit("export_html");
    reveal_strlit("switch_session");
    reveal_strlit("fork");
    reveal_strlit("get_fork_messages");
    reveal_strlit("get_last_assistant_text");
    reveal_strlit("set_session_name");
    reveal_strlit("get_messages");
    reveal_strlit("get_commands");
    if str_member(ms, "type"@) == Some("bash"@) {
        assert("bash"@ != "extension_ui_response"@) by {
            assert("bash"@.len() != "extension_ui_response"@.len());
        }
        assert("bash"@ != "prompt"@) by {
            assert("bash"@.len() != "prompt"@.len());
        }
        assert("bash"@ != "steer"@) by {
            assert("bash"@.len() != "steer"@.len());
        }
        assert("bash"@ != "follow_up"@) by {
            assert("bash"@.len() != "follow_up"@.len());
        }
        assert("bash"@ != "abort"@) by {
            assert("bash"@.len() != "abort"@.len());
        }
        assert("bash"@ != "new_session"@) by {
            assert("bash"@.len() != "new_session"@.len());
        }
        assert("bash"@ != "get_state"@) by {
            assert("bash"@.len() != "get_state"@.len());
        }
        assert("bash"@ != "set_model"@) by {
            assert("bash"@.len() != "set_model"@.len());
        }
        assert("bash"@ != "cycle_model"@) by {
            assert("bash"@.len() != "cycle_model"@.len());
        }
        assert("bash"@ != "get_available_models"@) by {
            assert("bash"@.len() != "get_available_models"@.len());
        }
        assert("bash"@ != "set_thinking_level"@) by {
            assert("bash"@.len() != "set_thinking_level"@.len());
        }
        assert("bash"@ != "cycle_thinking_level"@) by {
            assert("bash"@.len() != "cycle_thinking_level"@.len());
        }
        assert("bash"@ != "set_steering_mode"@) by {
            assert("bash"@.len() != "set_steering_mode"@.len());
        }
        assert("bash"@ != "set_follow_up_mode"@) by {
            assert("bash"@.len() != "set_follow_up_mode"@.len());
        }
        assert("bash"@ != "compact"@) by {
            assert("bash"@.len() != "compact"@.len());
        }
        assert("bash"@ != "set_auto_compaction"@) by {
            assert("bash"@.len() != "set_auto_compaction"@.len());
        }
        assert("bash"@ != "set_auto_retry"@) by {
            assert("bash"@.len() != "set_auto_retry"@.len());
        }
        assert("bash"@ != "abort_retry"@) by {
            assert("bash"@.len() != "abort_retry"@.len());
        }
        assert("bash"@ != "abort_bash"@) by {
            assert("bash"@.len() != "abort_bash"@.len());
        }
        assert("bash"@ != "get_session_stats"@) by {
            assert("bash"@.len() != "get_session_stats"@.len());
        }
        assert("bash"@ != "export_html"@) by {
            assert("bash"@.len() != "export_html"@.len());
        }
        assert("bash"@ != "switch_session"@) by {
            assert("bash"@.len() != "switch_session"@.len());
        }
        assert("bash"@ != "fork"@) by {
            assert("bash"@[0] != "fork"@[0]);
        }
        assert("bash"@ != "get_fork_messages"@) by {
            assert("bash"@.len() != "get_fork_messages"@.len());
        }
        assert("bash"@ != "get_last_assistant_text"@) by {
            assert("bash"@.len() != "get_last_assistant_text"@.len());
        }
        assert("bash"@ != "set_session_name"@) by {
            assert("bash"@.len() != "set_session_name"@.len());
        }
        assert("bash"@ != "get_messages"@) by {
            assert("bash"@.len() != "get_messages"@.len());
        }
        assert("bash"@ != "get_commands"@) by {
            assert("bash"@.len() != "get_commands"@.len());
        }
        assert(decoded(JsonModel::Object(ms)) == command_of(str_member(ms, "id"@), "bash"@, ms));
    }
    if str_member(ms, "type"@) == Some("set_model"@) {
        assert("set_model"@ != "extension_ui_response"@) by {
            assert("set_model"@.len() != "extension_ui_response"@.len());
        }
        assert("set_model"@ != "prompt"@) by {
            assert("set_model"@.len() != "prompt"@.len());
        }
        assert("set_model"@ != "steer"@) by {
            assert("set_model"@.len() != "steer"@.len());
        }
        assert("set_model"@ != "follow_up"@) by {
            assert("set_model"@[0] != "follow_up"@[0]);
        }
        assert("set_model"@ != "abort"@) by {
            assert("set_model"@.len() != "abort"@.len());
        }
        assert("set_model"@ != "new_session"@) by {
            assert("set_model"@.len() != "new_session"@.len());
        }
        assert("set_model"@ != "get_state"@) by {
            assert("set_model"@[0] != "get_state"@[0]);
        }
        assert("set_model"@ != "cycle_model"@) by {
            assert("set_model"@.len() != "cycle_model"@.len());
        }
        assert("set_model"@ != "get_available_models"@) by {
            assert("set_model"@.len() != "get_available_models"@.len());
        }
        assert("set_model"@ != "set_thinking_level"@) by {
            assert("set_model"@.len() != "set_thinking_level"@.len());
        }
        assert("set_model"@ != "cycle_thinking_level"@) by {
            assert("set_model"@.len() != "cycle_thinking_level"@.len());
        }
        assert("set_model"@ != "set_steering_mode"@) by {
            assert("set_model"@.len() != "set_steering_mode"@.len());
        }
        assert("set_model"@ != "set_follow_up_mode"@) by {
            assert("set_model"@.len() != "set_follow_up_mode"@.len());
        }
        assert("set_model"@ != "compact"@) by {
            assert("set_model"@.len() != "compact"@.len());
        }
        assert("set_model"@ != "set_auto_compaction"@) by {
            assert("set_model"@.len() != "set_auto_compaction"@.len());
        }
        assert("set_model"@ != "set_auto_retry"@) by {
            assert("set_model"@.len() != "set_auto_retry"@.len());
        }
        assert("set_model"@ != "abort_retry"@) by {
            assert("set_model"@.len() != "abort_retry"@.len());
        }
        assert("set_model"@ != "bash"@) by {
            assert("set_model"@.len() != "bash"@.len());
        }
        assert("set_model"@ != "abort_bash"@) by {
            assert("set_model"@.len() != "abort_bash"@.len());
        }
        assert("set_model"@ != "get_session_stats"@) by {
            assert("set_model"@.len() != "get_session_stats"@.len());
        }
        assert("set_model"@ != "export_html"@) by {
            assert("set_model"@.len() != "export_html"@.len());
        }
        assert("set_model"@ != "switch_session"@) by {
            assert("set_model"@.len() != "switch_session"@.len());
        }
        assert("set_model"@ != "fork"@) by {
            assert("set_model"@.len() != "fork"@.len());
        }
        assert("set_model"@ != "get_fork_messages"@) by {
            assert("set_model"@.len() != "get_fork_messages"@.len());
        }
        assert("set_model"@ != "get_last_assistant_text"@) by {
            assert("set_model"@.len() != "get_last_assistant_text"@.len());
        }
        assert("set_model"@ != "set_session_name"@) by {
            assert("set_model"@.len() != "set_session_name"@.len());
        }
        assert("set_model"@ != "get_messages"@) by {
            assert("set_model"@.len() != "get_messages"@.len());
        }
        assert("set_model"@ != "get_commands"@) by {
            assert("set_model"@.len() != "get_commands"@.len());
        }
        assert(decoded(JsonModel::Object(ms)) == command_of(str_member(ms, "id"@), "set_model"@, ms));
    }
}

/// A message command without images carries its `message`: `prompt` with
/// its streaming behaviour, `steer` and `follow_up` as they are; without a
/// string `message` it is refused, naming the field.
pub proof fn lemma_message_commands(ms: Seq<(Seq<char>, JsonModel)>)
    requires
        member(ms, "images"@) is None,
    ensures
        str_member(ms, "type"@) == Some("prompt"@) ==> decoded(JsonModel::Object(ms)) == (match str_member(
            ms,
            "message"@,
        ) {
            Some(m) => RpcRequestModel::Command {
                id: str_member(ms, "id"@),
                command: RpcCommandModel::Prompt {
                    message: m,
                    images: seq![],
                    streaming_behavior: str_member(ms, "streamingBehavior"@),
                },
            },
            None => RpcRequestModel::Rejected {
                id: str_member(ms, "id"@),
                command: "prompt"@,
                message: "Missing required string field: "@ + "message"@,
            },
        }),
        str_member(ms, "type"@) == Some("steer"@) && str_member(ms, "message"@) is Some ==> decoded(
            JsonModel::Object(ms),
        ) == (RpcRequestModel::Command {
            id: str_member(ms, "id"@),
            command: RpcCommandModel::Steer { message: str_member(ms, "message"@)->0, images: seq![] },
        }),
        str_member(ms, "type"@) == Some("follow_up"@) && str_member(ms, "message"@) is Some ==> decoded(
            JsonModel::Object(ms),
        ) == (RpcRequestModel::Command {
            id: str_member(ms, "id"@),
            command: RpcCommandModel::FollowUp { message: str_member(ms, "message"@)->0, images: seq![] },
        }),
{
    reveal_strlit("extension_ui_response");
    reveal_strlit("prompt");
    reveal_strlit("steer");
    reveal_strlit("follow_up");
    reveal_strlit("images");
    assert("prompt"@.len() != "extension_ui_response"@.len());
    assert("steer"@.len() != "extension_ui_response"@.len());
    assert("follow_up"@.len() != "extension_ui_response"@.len());
    assert("prompt"@.len() != "steer"@.len());
    assert("steer"@.len() != "follow_up"@.len());
    assert("prompt"@.len() != "follow_up"@.len());
}

/// Each queue mode's name reads back as that mode, and only the two names
/// are modes.
pub proof fn lemma_queue_mode_names_round_trip(mode: QueueMode, s: Seq<char>)
    ensures
        queue_mode_of(queue_mode_name(mode)) == Some(mode),
        queue_mode_of(s) matches Some(m) ==> queue_mode_name(m) == s,
{
    reveal_strlit("all");
    reveal_strlit("one-at-a-time");
    assert("all"@.len() != "one-at-a-time"@.len());
}

/// `set_thinking_level` sets the level its `level` member names and is
/// refused when that names no level; `set_steering_mode` and
/// `set_follow_up_mode` set the queue mode their `mode` member names and are
/// refused when it names none.
pub proof fn lemma_level_and_mode_commands(ms: Seq<(Seq<char>, JsonModel)>)
    ensures
        str_member(ms, "type"@) == Some("set_thinking_level"@) ==> decoded(JsonModel::Object(ms)) == (match str_member(
            ms,
            "level"@,
        ) {
            Some(l) => match crate::args::thinking_level_of(l) {
                Some(level) => RpcRequestModel::Command {
                    id: str_member(ms, "id"@),
                    command: RpcCommandModel::SetThinkingLevel { level },
                },
                None => RpcRequestModel::Rejected {
                    id: str_member(ms, "id"@),
                    command: "set_thinking_level"@,
                    message: "Invalid thinking level"@,
                },
            },
            None => RpcRequestModel::Rejected {
                id: str_member(ms, "id"@),
                command: "set_thinking_level"@,
                message: "Invalid thinking level"@,
            },
        }),
        str_member(ms, "type"@) == Some("set_steering_mode"@) && str_member(ms, "mode"@) is Some && queue_mode_of(
            str_member(ms, "mode"@)->0,
        ) is Some ==> decoded(JsonModel::Object(ms)) == (RpcRequestModel::Command {
            id: str_member(ms, "id"@),
            command: RpcCommandModel::SetSteeringMode { mode: queue_mode_of(str_member(ms, "mode"@)->0)->0 },
        }),
        str_member(ms, "type"@) == Some("set_follow_up_mode"@) && str_member(ms, "mode"@) is Some && queue_mode_of(
            str_member(ms, "mode"@)->0,
        ) is Some ==> decoded(JsonModel::Object(ms)) == (RpcRequestModel::Command {
            id: str_member(ms, "id"@),
            command: RpcCommandModel::SetFollowUpMode { mode: queue_mode_of(str_member(ms, "mode"@)->0)->0 },
        }),
{
    reveal_strlit("extension_ui_response");
    reveal_strlit("prompt");
    reveal_strlit("steer");
    reveal_strlit("follow_up");
    reveal_strlit("abort");
    reveal_strlit("new_session");
    reveal_strlit("get_state");
    reveal_strlit("set_model");
    reveal_strlit("cycle_model");
    reveal_strlit("get_available_models");
    reveal_strlit("set_thinking_level");
    reveal_strlit("cycle_thinking_level");
    reveal_strlit("set_steering_mode");
    reveal_strlit("set_follow_up_mode");
    if str_member(ms, "type"@) == Some("set_thinking_level"@) {
        assert("set_thinking_level"@ != "extension_ui_response"@) by {
            assert("set_thinking_level"@.len() != "extension_ui_response"@.len());
        }
        assert("set_thinking_level"@ != "prompt"@) by {
            assert("set_thinking_level"@.len() != "prompt"@.len());
        }
        assert("set_thinking_level"@ != "steer"@) by {
            assert("set_thinking_level"@.len() != "steer"@.len());
        }
        assert("set_thinking_level"@ != "follow_up"@) by {
            assert("set_thinking_level"@.len() != "follow_up"@.len());
        }
        assert("set_thinking_level"@ != "abort"@) by {
            assert("set_thinking_level"@.len() != "abort"@.len());
        }
        assert("set_thinking_level"@ != "new_session"@) by {
            assert("set_thinking_level"@.len() != "new_session"@.len());
        }
        assert("set_thinking_level"@ != "get_state"@) by {
            assert("set_thinking_level"@.len() != "get_state"@.len());
        }
        assert("set_thinking_level"@ != "set_model"@) by {
            assert("set_thinking_level"@.len() != "set_model"@.len());
        }
        assert("set_thinking_level"@ != "cycle_model"@) by {
            assert("set_thinking_level"@.len() != "cycle_model"@.len());
        }
        assert("set_thinking_level"@ != "get_available_models"@) by {
            assert("set_thinking_level"@.len() != "get_available_models"@.len());
        }
        assert("set_thinking_level"@ != "cycle_thinking_level"@) by {
            assert("set_thinking_level"@.len() != "cycle_thinking_level"@.len());
        }
        assert("set_thinking_level"@ != "set_steering_mode"@) by {
            assert("set_thinking_level"@.len() != "set_steering_mode"@.len());
        }
        assert("set_thinking_level"@ != "set_follow_up_mode"@) by {
            assert("set_thinking_level"@[4] != "set_follow_up_mode"@[4]);
        }
        assert(decoded(JsonModel::Object(ms)) == command_of(str_member(ms, "id"@), "set_thinking_level"@, ms));
    }
    if str_member(ms, "type"@) == Some("set_steering_mode"@) {
        assert("set_steering_mode"@ != "extension_ui_response"@) by {
            assert("set_steering_mode"@.len() != "extension_ui_response"@.len());
        }
        assert("set_steering_mode"@ != "prompt"@) by {
            assert("set_steering_mode"@.len() != "prompt"@.len());
        }
        assert("set_steering_mode"@ != "steer"@) by {
            assert("set_steering_mode"@.len() != "steer"@.len());
        }
        assert("set_steering_mode"@ != "follow_up"@) by {
            assert("set_steering_mode"@.len() != "follow_up"@.len());
        }
        assert("set_steering_mode"@ != "abort"@) by {
            assert("set_steering_mode"@.len() != "abort"@.len());
        }
        assert("set_steering_mode"@ != "new_session"@) by {
            assert("set_steering_mode"@.len() != "new_session"@.len());
        }
        assert("set_steering_mode"@ != "get_state"@) by {
            assert("set_steering_mode"@.len() != "get_state"@.len());
        }
        assert("set_steering_mode"@ != "set_model"@) by {
            assert("set_steering_mode"@.len() != "set_model"@.len());
        }
        assert("set_steering_mode"@ != "cycle_model"@) by {
            assert("set_steering_mode"@.len() != "cycle_model"@.len());
        }
        assert("set_steering_mode"@ != "get_available_models"@) by {
            assert("set_steering_mode"@.len() != "get_available_models"@.len());
        }
        assert("set_steering_mode"@ != "set_thinking_level"@) by {
            assert("set_steering_mode"@.len() != "set_thinking_level"@.len());
        }
        assert("set_steering_mode"@ != "cycle_thinking_level"@) by {
            assert("set_steering_mode"@.len() != "cycle_thinking_level"@.len());
        }
        assert("set_steering_mode"@ != "set_follow_up_mode"@) by {
            assert("set_steering_mode"@.len() != "set_follow_up_mode"@.len());
        }
        assert(decoded(JsonModel::Object(ms)) == command_of(str_member(ms, "id"@), "set_steering_mode"@, ms));
    }
    if str_member(ms, "type"@) == Some("set_follow_up_mode"@) {
        assert("set_follow_up_mode"@ != "extension_ui_response"@) by {
            assert("set_follow_up_mode"@.len() != "extension_ui_response"@.len());
        }
        assert("set_follow_up_mode"@ != "prompt"@) by {
            assert("set_follow_up_mode"@.len() != "prompt"@.len());
        }
        assert("set_follow_up_mode"@ != "steer"@) by {
            assert("set_follow_up_mode"@.len() != "steer"@.len());
        }
        assert("set_follow_up_mode"@ != "follow_up"@) by {
            assert("set_follow_up_mode"@.len() != "follow_up"@.len());
        }
        assert("set_follow_up_mode"@ != "abort"@) by {
            assert("set_follow_up_mode"@.len() != "abort"@.len());
        }
        assert("set_follow_up_mode"@ != "new_session"@) by {
            assert("set_follow_up_mode"@.len() != "new_session"@.len());
        }
        assert("set_follow_up_mode"@ != "get_state"@) by {
            assert("set_follow_up_mode"@.len() != "get_state"@.len());
        }
        assert("set_follow_up_mode"@ != "set_model"@) by {
            assert("set_follow_up_mode"@.len() != "set_model"@.len());
        }
        assert("set_follow_up_mode"@ != "cycle_model"@) by {
            assert("set_follow_up_mode"@.len() != "cycle_model"@.len());
        }
        assert("set_follow_up_mode"@ != "get_available_models"@) by {
            assert("set_follow_up_mode"@.len() != "get_available_models"@.len());
        }
        assert("set_follow_up_mode"@ != "set_thinking_level"@) by {
            assert("set_follow_up_mode"@[4] != "set_thinking_level"@[4]);
        }
        assert("set_follow_up_mode"@ != "cycle_thinking_level"@) by {
            assert("set_follow_up_mode"@.len() != "cycle_thinking_level"@.len());
        }
        assert("set_follow_up_mode"@ != "set_steering_mode"@) by {
            assert("set_follow_up_mode"@.len() != "set_steering_mode"@.len());
        }
        assert(decoded(JsonModel::Object(ms)) == command_of(str_member(ms, "id"@), "set_follow_up_mode"@, ms));
    }
}

/// Decodes an input line already read as JSON.
pub fn decode_rpc_request(v: &JsonValue) -> (r: RpcRequest)
    ensures
        request_view(r) == decoded(json_model(*v)),
{
    match v {
        JsonValue::Object(ms) => {
            let id = string_member(ms, "id");
            match string_member(ms, "type") {
                Some(t) => {
                    let tc = chars_of(t.as_str());
                    if chars_eq_str(&tc, "extension_ui_response") {
                        RpcRequestOf::ExtensionUiResponse
                    } else {
                        decode_command(id, t, ms)
                    }
                },
                None => RpcRequestOf::Rejected {
                    id,
                    command: owned("parse"),
                    message: owned("RPC command is missing type"),
                },
            }
        },
        _ => RpcRequestOf::Rejected {
            id: None,
            command: owned("parse"),
            message: owned("RPC command must be a JSON object"),
        },
    }
}

/// `/name args` as `(name, trimmed args)`; `None` without the slash or
/// with an empty name.
pub open spec fn extension_command_of(text: Seq<char>) -> Option<(Seq<char>, Seq<char>)> {
    if text.len() > 0 && text[0] == '/' {
        let c = text.skip(1);
        match crate::text::first_char_index(c, ' ') {
            Some(k) => if k == 0 {
                None
            } else {
                Some((c.take(k as int), crate::text::trim_seq(c.skip(k + 1 as int))))
            },
            None => if c.len() == 0 {
                None
            } else {
                Some((c, seq![]))
            },
        }
    } else {
        None
    }
}

/// Reads a prompt of the form `/name args` as an extension command.
pub fn parse_rpc_extension_command(text: &str) -> (r: Option<(String, String)>)
    ensures
        match r {
            Some((name, args)) => extension_command_of(text@) == Some((name@, args@)),
            None => extension_command_of(text@) is None,
        },
{
    let t = chars_of(text);
    if t.len() == 0 || t[0] != '/' {
        return None;
    }
    let c = crate::text::chars_from(&t, 1);
    match crate::text::find_char(&c, ' ') {
        Some(k) => {
            if k == 0 {
                return None;
            }
            let name = crate::text::chars_between(&c, 0, k);
            let rest = crate::text::chars_from(&c, k + 1);
            let args = crate::text::trim_chars(&rest);
            assert(name@ =~= c@.take(k as int));
            Some((string_from_chars(&name), string_from_chars(&args)))
        },
        None => {
            if c.len() == 0 {
                return None;
            }
            proof {
                reveal_strlit("");
            }
            Some((string_from_chars(&c), String::new()))
        },
    }
}

/// What the session is doing when a command arrives.
#[derive(Clone, Copy, Debug, PartialEq, Eq)]
pub struct RpcFacts {
    /// A response is being generated.
    pub is_streaming: bool,
    /// The session is kept by a session manager.
    pub has_session: bool,
    /// A compaction is running.
    pub is_compacting: bool,
    /// A bash command started over RPC is running.
    pub bash_running: bool,
    /// The message names an extension command the extension host knows.
    pub extension_command: bool,
}

/// Why a decoded command cannot run now, checked in the order the protocol
/// answers them.
pub open spec fn precheck_error(c: RpcCommandModel, f: RpcFacts) -> Option<Seq<char>> {
    match c {
        RpcCommandOf::Steer { .. } => if f.extension_command {
            Some("Extension commands cannot be queued with steer"@)
        } else {
            None
        },
        RpcCommandOf::FollowUp { .. } => if f.extension_command {
            Some("Extension commands cannot be queued with follow_up"@)
        } else {
            None
        },
        RpcCommandOf::NewSession { .. } => if f.is_streaming {
            Some("Cannot create a new session while a request is running"@)
        } else {
            None
        },
        RpcCommandOf::Compact { .. } => if !f.has_session {
            Some("Session compaction is unavailable"@)
        } else if f.is_streaming {
            Some("Wait for the current response to finish before compacting"@)
        } else if f.is_compacting {
            Some("Compaction is already running"@)
        } else {
            None
        },
        RpcCommandOf::Bash { .. } => if f.bash_running {
            Some("A bash command is already running"@)
        } else {
            None
        },
        RpcCommandOf::ExportHtml { .. } => if !f.has_session {
            Some("Session export is unavailable"@)
        } else {
            None
        },
        RpcCommandOf::SwitchSession { session_path } => if f.is_streaming {
            Some("Cannot switch sessions while a request is running"@)
        } else if session_path is None {
            Some(missing_field("sessionPath"@))
        } else {
            None
        },
        RpcCommandOf::Fork { entry_id } => if f.is_streaming {
            Some("Cannot fork while a request is running"@)
        } else if entry_id is None {
            Some(missing_field("entryId"@))
        } else {
            None
        },
        RpcCommandOf::SetSessionName { .. } => if !f.has_session {
            Some("Session naming is unavailable"@)
        } else {
            None
        },
        _ => None,
    }
}

/// Only commands that touch the session or queue a message can be refused,
/// and an idle session (nothing streaming, compacting or running, and a
/// session kept) refuses none of them unless a switch or fork names no
/// target; while a response streams, starting, switching or forking a
/// session is refused.
pub proof fn lemma_precheck_refusals(c: RpcCommandModel, f: RpcFacts)
    ensures
        precheck_error(c, f) is Some ==> (c is Steer || c is FollowUp || c is NewSession || c is Compact || c is Bash
            || c is ExportHtml || c is SwitchSession || c is Fork || c is SetSessionName),
        (!f.is_streaming && f.has_session && !f.is_compacting && !f.bash_running && !f.extension_command) ==> (
        precheck_error(c, f) is Some <==> (c matches RpcCommandOf::SwitchSession { session_path: None }
            || c matches RpcCommandOf::Fork { entry_id: None })),
        f.is_streaming ==> ((c is NewSession || c is SwitchSession || c is Fork) ==> precheck_error(c, f) is Some),
{
}

/// Checks whether `command` can run given `facts` (see `precheck_error`).
pub fn rpc_precheck(command: &RpcCommand, facts: &RpcFacts) -> (r: Option<String>)
    ensures
        opt_string_view(r) == precheck_error(command_view(*command), *facts),
{
    match command {
        RpcCommandOf::Steer { .. } => if facts.extension_command {
            Some(owned("Extension commands cannot be queued with steer"))
        } else {
            None
        },
        RpcCommandOf::FollowUp { .. } => if facts.extension_command {
            Some(owned("Extension commands cannot be queued with follow_up"))
        } else {
            None
        },
        RpcCommandOf::NewSession { .. } => if facts.is_streaming {
            Some(owned("Cannot create a new session while a request is running"))
        } else {
            None
        },
        RpcCommandOf::Compact { .. } => if !facts.has_session {
            Some(owned("Session compaction is unavailable"))
        } else if facts.is_streaming {
            Some(owned("Wait for the current response to finish before compacting"))
        } else if facts.is_compacting {
            Some(owned("Compaction is already running"))
        } else {
            None
        },
        RpcCommandOf::Bash { .. } => if facts.bash_running {
            Some(owned("A bash command is already running"))
        } else {
            None
        },
        RpcCommandOf::ExportHtml { .. } => if !facts.has_session {
            Some(owned("Session export is unavailable"))
        } else {
            None
        },
        RpcCommandOf::SwitchSession { session_path } => if facts.is_streaming {
            Some(owned("Cannot switch sessions while a request is running"))
        } else if session_path.is_none() {
            Some(missing_field_message("sessionPath"))
        } else {
            None
        },
        RpcCommandOf::Fork { entry_id } => if facts.is_streaming {
            Some(owned("Cannot fork while a request is running"))
        } else if entry_id.is_none() {
            Some(missing_field_message("entryId"))
        } else {
            None
        },
        RpcCommandOf::SetSessionName { .. } => if !facts.has_session {
            Some(owned("Session naming is unavailable"))
        } else {
            None
        },
        _ => None,
    }
}

/// Where a `prompt` command goes.
#[derive(Clone, Copy, Debug, PartialEq, Eq)]
pub enum PromptRoute {
    /// Run the extension command it names.
    ExtensionCommand,
    /// Queue it as a steering message of the running response.
    QueueSteer,
    /// Queue it as a follow-up of the running response.
    QueueFollowUp,
    /// Start a new response with it.
    Run,
}

/// Where a prompt goes: to a known extension command first; while a
/// response runs, into the queue its `streamingBehavior` names; otherwise
/// into a new response.
pub open spec fn prompt_route(streaming_behavior: Option<Seq<char>>, f: RpcFacts) -> PromptRoute {
    if f.extension_command {
        PromptRoute::ExtensionCommand
    } else if f.is_streaming && streaming_behavior == Some("steer"@) {
        PromptRoute::QueueSteer
    } else if f.is_streaming && streaming_behavior == Some("followUp"@) {
        PromptRoute::QueueFollowUp
    } else {
        PromptRoute::Run
    }
}

/// Where a prompt goes: an extension command goes to the extension host;
/// otherwise, while a response streams, `steer` queues it as steering and
/// `followUp` as a follow-up; every other prompt runs.
pub proof fn lemma_prompt_routes(streaming_behavior: Option<Seq<char>>, f: RpcFacts)
    ensures
        f.extension_command ==> prompt_route(streaming_behavior, f) == PromptRoute::ExtensionCommand,
        !f.extension_command && !f.is_streaming ==> prompt_route(streaming_behavior, f) == PromptRoute::Run,
        !f.extension_command && f.is_streaming && streaming_behavior == Some("steer"@) ==> prompt_route(
            streaming_behavior,
            f,
        ) == PromptRoute::QueueSteer,
        !f.extension_command && f.is_streaming && streaming_behavior == Some("followUp"@) ==> prompt_route(
            streaming_behavior,
            f,
        ) == PromptRoute::QueueFollowUp,
        !f.extension_command && streaming_behavior != Some("steer"@) && streaming_behavior != Some("followUp"@)
            ==> prompt_route(streaming_behavior, f) == PromptRoute::Run,
{
    reveal_strlit("steer");
    reveal_strlit("followUp");
    assert("steer"@.len() != "followUp"@.len());
}

/// Decides `prompt_route`.
pub fn route_prompt(streaming_behavior: Option<&str>, facts: &RpcFacts) -> (r: PromptRoute)
    ensures
        r == prompt_route(
            match streaming_behavior {
                Some(s) => Some(s@),
                None => None,
            },
            *facts,
        ),
{
    if facts.extension_command {
        return PromptRoute::ExtensionCommand;
    }
    if facts.is_streaming {
        if let Some(s) = streaming_behavior {
            let c = chars_of(s);
            if chars_eq_str(&c, "steer") {
                return PromptRoute::QueueSteer;
            }
            if chars_eq_str(&c, "followUp") {
                return PromptRoute::QueueFollowUp;
            }
        }
    }
    PromptRoute::Run
}

/// The response to a command: `id` when the command had one, then `type`,
/// `command`, `success` and, when there is a payload, `data` (for a
/// success) or `error` (for a failure).
pub open spec fn response_members(
    id: Option<Seq<char>>,
    command: Seq<char>,
    success: bool,
    payload: Option<(Seq<char>, JsonModel)>,
) -> Seq<(Seq<char>, JsonModel)> {
    let head = match id {
        Some(i) => seq![("id"@, JsonModel::Str(i))],
        None => seq![],
    };
    let body = head + seq![
        ("type"@, JsonModel::Str("response"@)),
        ("command"@, JsonModel::Str(command)),
        ("success"@, JsonModel::Bool(success)),
    ];
    match payload {
        Some(p) => body.push(p),
        None => body,
    }
}

/// The members shared by both kinds of response.
fn response_head(id: Option<&str>, command: &str, success: bool) -> (r: Vec<(String, JsonValue)>)
    ensures
        members_of(JsonValue::Object(r)) == response_members(
            match id {
                Some(i) => Some(i@),
                None => None,
            },
            command@,
            success,
            None,
        ),
{
    let mut r: Vec<(String, JsonValue)> = Vec::new();
    if let Some(i) = id {
        r.push((owned("id"), JsonValue::Str(owned(i))));
    }
    r.push((owned("type"), JsonValue::Str(owned("response"))));
    r.push((owned("command"), JsonValue::Str(owned(command))));
    r.push((owned("success"), JsonValue::Bool(success)));
    proof {
        reveal_with_fuel(json_model, 2);
    }
    assert(members_of(JsonValue::Object(r)) =~= response_members(
        match id {
            Some(i) => Some(i@),
            None => None,
        },
        command@,
        success,
        None,
    ));
    r
}

/// A command offered over RPC: one of the extension host's, a prompt
/// template or a skill.
pub struct RpcCommandSource {
    pub name: String,
    /// Its description as JSON: a string, or null where it has none.
    pub description: JsonValue,
    /// Where it was loaded from, as JSON.
    pub source_info: JsonValue,
}

/// The JSON object describing one command.
pub open spec fn command_entry(name: Seq<char>, description: JsonModel, source: Seq<char>, info: JsonModel) -> JsonModel {
    JsonModel::Object(
        seq![
            ("name"@, JsonModel::Str(name)),
            ("description"@, description),
            ("source"@, JsonModel::Str(source)),
            ("sourceInfo"@, info),
        ],
    )
}

/// The entries of `list`, each name behind `prefix`, all from `source`.
pub open spec fn command_entries(list: Seq<RpcCommandSource>, prefix: Seq<char>, source: Seq<char>) -> Seq<JsonModel> {
    list.map_values(
        |c: RpcCommandSource| command_entry(prefix + c.name@, json_model(c.description), source, json_model(c.source_info)),
    )
}

/// The commands RPC lists: the extension host's, then the prompt
/// templates, then the skills (named `skill:<name>`).
pub open spec fn rpc_command_models(
    extension_commands: Seq<RpcCommandSource>,
    templates: Seq<RpcCommandSource>,
    skills: Seq<RpcCommandSource>,
) -> Seq<JsonModel> {
    command_entries(extension_commands, seq![], "extension"@) + command_entries(templates, seq![], "prompt"@)
        + command_entries(skills, "skill:"@, "skill"@)
}

/// The views of JSON values.
pub open spec fn json_models(v: Seq<JsonValue>) -> Seq<JsonModel> {
    v.map_values(|j: JsonValue| json_model(j))
}

/// Appends the entries of `list` (see `command_entries`).
fn append_command_entries(out: &mut Vec<JsonValue>, list: &Vec<RpcCommandSource>, prefix: &str, source: &str)
    ensures
        json_models(final(out)@) == json_models(old(out)@) + command_entries(list@, prefix@, source@),
{
    let ghost start = json_models(out@);
    let mut i: usize = 0;
    while i < list.len()
        invariant
            0 <= i <= list@.len(),
            json_models(out@) == start + command_entries(list@, prefix@, source@).take(i as int),
        decreases list@.len() - i,
    {
        let c = &list[i];
        let mut name = chars_of(prefix);
        push_str_chars(&mut name, c.name.as_str());
        let mut ms: Vec<(String, JsonValue)> = Vec::new();
        ms.push((owned("name"), JsonValue::Str(string_from_chars(&name))));
        ms.push((owned("description"), copy_json(&c.description)));
        ms.push((owned("source"), JsonValue::Str(owned(source))));
        ms.push((owned("sourceInfo"), copy_json(&c.source_info)));
        let entry = JsonValue::Object(ms);
        proof {
            reveal_with_fuel(json_model, 2);
        }
        assert(members_of(entry) =~= match command_entry(
            prefix@ + c.name@,
            json_model(c.description),
            source@,
            json_model(c.source_info),
        ) {
            JsonModel::Object(m) => m,
            _ => seq![],
        });
        let ghost before = out@;
        out.push(entry);
        assert(json_models(out@) =~= json_models(before).push(json_model(entry)));
        assert(command_entries(list@, prefix@, source@).take(i + 1) =~= command_entries(list@, prefix@, source@).take(
            i as int,
        ).push(json_model(entry)));
        i = i + 1;
    }
    assert(command_entries(list@, prefix@, source@).take(i as int) =~= command_entries(list@, prefix@, source@));
}

/// The commands RPC lists (see `rpc_command_models`), as `get_commands`
/// and the extension state give them.
pub fn rpc_command_list(
    extension_commands: &Vec<RpcCommandSource>,
    templates: &Vec<RpcCommandSource>,
    skills: &Vec<RpcCommandSource>,
) -> (r: Vec<JsonValue>)
    ensures
        json_models(r@) == rpc_command_models(extension_commands@, templates@, skills@),
{
    proof {
        reveal_strlit("");
    }
    let mut out: Vec<JsonValue> = Vec::new();
    append_command_entries(&mut out, extension_commands, "", "extension");
    append_command_entries(&mut out, templates, "", "prompt");
    append_command_entries(&mut out, skills, "skill:", "skill");
    assert(json_models(out@) =~= rpc_command_models(extension_commands@, templates@, skills@));
    out
}

/// The data of the `get_commands` response: `{"commands": [...]}`.
pub fn rpc_commands_payload(
    extension_commands: &Vec<RpcCommandSource>,
    templates: &Vec<RpcCommandSource>,
    skills: &Vec<RpcCommandSource>,
) -> (r: JsonValue)
    ensures
        json_model(r) == JsonModel::Object(
            seq![("commands"@, JsonModel::Array(rpc_command_models(extension_commands@, templates@, skills@)))],
        ),
{
    let list = rpc_command_list(extension_commands, templates, skills);
    let ghost items = list@;
    let r = JsonValue::Object(vec![(owned("commands"), JsonValue::Array(list))]);
    proof {
        reveal_with_fuel(json_model, 2);
    }
    assert(json_model(JsonValue::Array(list)) == JsonModel::Array(json_models(items))) by {
        assert(json_models(items) =~= match json_model(JsonValue::Array(list)) {
            JsonModel::Array(a) => a,
            _ => seq![],
        });
    }
    assert(members_of(r) =~= seq![("commands"@, JsonModel::Array(json_models(items)))]);
    r
}

/// What the extension state reports of the agent.
pub struct AgentStateFacts {
    /// The current model, as JSON.
    pub model: JsonValue,
    pub thinking_level: crate::args::ThinkingLevel,
    pub is_streaming: bool,
    pub has_pending_messages: bool,
    pub system_prompt: String,
    pub session_name: Option<String>,
    /// The names of the agent's tools.
    pub tool_names: Vec<String>,
}

/// Strings as JSON strings.
pub open spec fn string_models(v: Seq<String>) -> Seq<JsonModel> {
    v.map_values(|s: String| JsonModel::Str(s@))
}

/// The extension state: the model, the thinking level's name, whether the
/// agent is idle (not streaming), whether messages wait, the system
/// prompt, the session's name (null where it has none), the tools (all of
/// them active) and the commands.
pub open spec fn extension_state_model(facts: AgentStateFacts, commands: Seq<JsonModel>) -> JsonModel {
    JsonModel::Object(
        seq![
            ("model"@, json_model(facts.model)),
            ("thinkingLevel"@, JsonModel::Str(crate::thinking::level_name(facts.thinking_level))),
            ("isIdle"@, JsonModel::Bool(!facts.is_streaming)),
            ("hasPendingMessages"@, JsonModel::Bool(facts.has_pending_messages)),
            ("systemPrompt"@, JsonModel::Str(facts.system_prompt@)),
            ("sessionName"@, match facts.session_name {
                Some(n) => JsonModel::Str(n@),
                None => JsonModel::Null,
            }),
            ("activeTools"@, JsonModel::Array(string_models(facts.tool_names@))),
            ("allTools"@, JsonModel::Array(string_models(facts.tool_names@))),
            ("commands"@, JsonModel::Array(commands)),
        ],
    )
}

/// Strings as a JSON array of strings.
pub(crate) fn string_array(names: &Vec<String>) -> (r: JsonValue)
    ensures
        json_model(r) == JsonModel::Array(string_models(names@)),
{
    let mut out: Vec<JsonValue> = Vec::new();
    let mut i: usize = 0;
    while i < names.len()
        invariant
            0 <= i <= names@.len(),
            json_models(out@) == string_models(names@).take(i as int),
        decreases names@.len() - i,
    {
        let ghost before = out@;
        out.push(JsonValue::Str(owned(names[i].as_str())));
        proof {
            reveal_with_fuel(json_model, 1);
        }
        assert(json_models(out@) =~= json_models(before).push(JsonModel::Str(names@[i as int]@)));
        assert(string_models(names@).take(i + 1) =~= string_models(names@).take(i as int).push(
            JsonModel::Str(names@[i as int]@),
        ));
        i = i + 1;
    }
    assert(string_models(names@).take(i as int) =~= string_models(names@));
    let ghost items = out@;
    let r = JsonValue::Array(out);
    proof {
        reveal_with_fuel(json_model, 1);
    }
    assert(json_models(items) =~= match json_model(r) {
        JsonModel::Array(a) => a,
        _ => seq![],
    });
    r
}

/// The extension state (see `extension_state_model`), with the commands
/// of `rpc_command_list`.
pub fn rpc_extension_state_json(facts: &AgentStateFacts, commands: Vec<JsonValue>) -> (r: JsonValue)
    ensures
        json_model(r) == extension_state_model(*facts, json_models(commands@)),
{
    let ghost cs = commands@;
    let mut ms: Vec<(String, JsonValue)> = Vec::new();
    ms.push((owned("model"), copy_json(&facts.model)));
    ms.push(
        (owned("thinkingLevel"), JsonValue::Str(owned(crate::thinking::thinking_level_label(facts.thinking_level)))),
    );
    ms.push((owned("isIdle"), JsonValue::Bool(!facts.is_streaming)));
    ms.push((owned("hasPendingMessages"), JsonValue::Bool(facts.has_pending_messages)));
    ms.push((owned("systemPrompt"), JsonValue::Str(owned(facts.system_prompt.as_str()))));
    let name = match &facts.session_name {
        Some(n) => JsonValue::Str(owned(n.as_str())),
        None => JsonValue::Null,
    };
    ms.push((owned("sessionName"), name));
    ms.push((owned("activeTools"), string_array(&facts.tool_names)));
    ms.push((owned("allTools"), string_array(&facts.tool_names)));
    let list = JsonValue::Array(commands);
    proof {
        reveal_with_fuel(json_model, 2);
    }
    assert(json_models(cs) =~= match json_model(list) {
        JsonModel::Array(a) => a,
        _ => seq![],
    });
    ms.push((owned("commands"), list));
    let r = JsonValue::Object(ms);
    proof {
        if let JsonModel::Object(expected) = extension_state_model(*facts, json_models(cs)) {
            assert(members_of(r) =~= expected);
        }
    }
    r
}

/// What the RPC session state reports.
pub struct RpcSessionFacts {
    /// The current model, as JSON.
    pub model: JsonValue,
    pub thinking_level: crate::args::ThinkingLevel,
    pub is_streaming: bool,
    pub is_compacting: bool,
    pub steering_mode: QueueMode,
    pub follow_up_mode: QueueMode,
    pub session_file: Option<String>,
    /// The id the session file records, else the agent's.
    pub session_id: Option<String>,
    pub session_name: Option<String>,
    pub auto_compaction_enabled: bool,
    pub message_count: usize,
    pub has_pending_messages: bool,
}

/// An optional string as JSON: null where there is none.
pub open spec fn opt_string_model(s: Option<String>) -> JsonModel {
    match s {
        Some(v) => JsonModel::Str(v@),
        None => JsonModel::Null,
    }
}

/// The name of a queue mode.
pub open spec fn queue_mode_name(mode: QueueMode) -> Seq<char> {
    match mode {
        QueueMode::All => "all"@,
        QueueMode::OneAtATime => "one-at-a-time"@,
    }
}

/// The RPC session state: the model, the thinking level's name, whether
/// the agent streams or compacts, the queue modes, the session's file, id
/// (`In-memory` where there is none) and name, whether auto-compaction is
/// on, the number of messages and whether any wait (as 1 or 0).
pub open spec fn session_state_model(f: RpcSessionFacts) -> JsonModel {
    JsonModel::Object(
        seq![
            ("model"@, json_model(f.model)),
            ("thinkingLevel"@, JsonModel::Str(crate::thinking::level_name(f.thinking_level))),
            ("isStreaming"@, JsonModel::Bool(f.is_streaming)),
            ("isCompacting"@, JsonModel::Bool(f.is_compacting)),
            ("steeringMode"@, JsonModel::Str(queue_mode_name(f.steering_mode))),
            ("followUpMode"@, JsonModel::Str(queue_mode_name(f.follow_up_mode))),
            ("sessionFile"@, opt_string_model(f.session_file)),
            ("sessionId"@, JsonModel::Str(match f.session_id {
                Some(i) => i@,
                None => "In-memory"@,
            })),
            ("sessionName"@, opt_string_model(f.session_name)),
            ("autoCompactionEnabled"@, JsonModel::Bool(f.auto_compaction_enabled)),
            ("messageCount"@, JsonModel::Number(crate::listnav::decimal(f.message_count as nat))),
            ("pendingMessageCount"@, JsonModel::Number(if f.has_pending_messages {
                "1"@
            } else {
                "0"@
            })),
        ],
    )
}

/// An optional string as a JSON value.
fn opt_string_value(s: &Option<String>) -> (r: JsonValue)
    ensures
        json_model(r) == opt_string_model(*s),
{
    match s {
        Some(v) => JsonValue::Str(owned(v.as_str())),
        None => JsonValue::Null,
    }
}

/// The RPC session state (see `session_state_model`).
pub fn rpc_session_state_json(facts: &RpcSessionFacts) -> (r: JsonValue)
    ensures
        json_model(r) == session_state_model(*facts),
{
    proof {
        reveal_strlit("In-memory");
        reveal_strlit("1");
        reveal_strlit("0");
    }
    let mut ms: Vec<(String, JsonValue)> = Vec::new();
    ms.push((owned("model"), copy_json(&facts.model)));
    ms.push(
        (owned("thinkingLevel"), JsonValue::Str(owned(crate::thinking::thinking_level_label(facts.thinking_level)))),
    );
    ms.push((owned("isStreaming"), JsonValue::Bool(facts.is_streaming)));
    ms.push((owned("isCompacting"), JsonValue::Bool(facts.is_compacting)));
    ms.push((owned("steeringMode"), JsonValue::Str(owned(queue_mode_label(facts.steering_mode)))));
    ms.push((owned("followUpMode"), JsonValue::Str(owned(queue_mode_label(facts.follow_up_mode)))));
    ms.push((owned("sessionFile"), opt_string_value(&facts.session_file)));
    let id = match &facts.session_id {
        Some(i) => owned(i.as_str()),
        None => owned("In-memory"),
    };
    ms.push((owned("sessionId"), JsonValue::Str(id)));
    ms.push((owned("sessionName"), opt_string_value(&facts.session_name)));
    ms.push((owned("autoCompactionEnabled"), JsonValue::Bool(facts.auto_compaction_enabled)));
    let count = crate::listnav::decimal_chars(facts.message_count as u64);
    ms.push((owned("messageCount"), JsonValue::Number(string_from_chars(&count))));
    let pending = if facts.has_pending_messages {
        owned("1")
    } else {
        owned("0")
    };
    ms.push((owned("pendingMessageCount"), JsonValue::Number(pending)));
    let r = JsonValue::Object(ms);
    proof {
        reveal_with_fuel(json_model, 2);
        if let JsonModel::Object(expected) = session_state_model(*facts) {
            assert(members_of(r) =~= expected);
        }
    }
    r
}

/// The flags the parser did not know, as a JSON object of their values.
pub open spec fn unknown_flags_model(flags: Seq<(String, crate::args::UnknownFlagValue)>) -> JsonModel {
    JsonModel::Object(
        flags.map_values(
            |e: (String, crate::args::UnknownFlagValue)|
                (
                    e.0@,
                    match e.1 {
                        crate::args::UnknownFlagValue::Bool(b) => JsonModel::Bool(b),
                        crate::args::UnknownFlagValue::String(v) => JsonModel::Str(v@),
                    },
                ),
        ),
    )
}

/// The unknown flags as JSON (see `unknown_flags_model`), as they are
/// handed to extensions.
pub fn unknown_flags_to_json(flags: &Vec<(String, crate::args::UnknownFlagValue)>) -> (r: JsonValue)
    ensures
        json_model(r) == unknown_flags_model(flags@),
{
    let mut ms: Vec<(String, JsonValue)> = Vec::new();
    let mut i: usize = 0;
    while i < flags.len()
        invariant
            0 <= i <= flags@.len(),
            members_of(JsonValue::Object(ms)) == match unknown_flags_model(flags@) {
                JsonModel::Object(m) => m.take(i as int),
                _ => seq![],
            },
        decreases flags@.len() - i,
    {
        let value = match &flags[i].1 {
            crate::args::UnknownFlagValue::Bool(b) => JsonValue::Bool(*b),
            crate::args::UnknownFlagValue::String(v) => JsonValue::Str(owned(v.as_str())),
        };
        let ghost before = ms;
        ms.push((owned(flags[i].0.as_str()), value));
        proof {
            reveal_with_fuel(json_model, 2);
            assert(members_of(JsonValue::Object(ms)) =~= members_of(JsonValue::Object(before)).push(
                (flags@[i as int].0@, json_model(value)),
            ));
            if let JsonModel::Object(m) = unknown_flags_model(flags@) {
                assert(m.take(i + 1) =~= m.take(i as int).push(m[i as int]));
            }
        }
        i = i + 1;
    }
    let r = JsonValue::Object(ms);
    proof {
        reveal_with_fuel(json_model, 1);
        if let JsonModel::Object(m) = unknown_flags_model(flags@) {
            assert(m.take(i as int) =~= m);
        }
    }
    r
}

/// The protocol's name of a command: the `type` its line carries.
pub open spec fn command_type(c: RpcCommandModel) -> Seq<char> {
    match c {
        RpcCommandOf::Prompt { .. } => "prompt"@,
        RpcCommandOf::Steer { .. } => "steer"@,
        RpcCommandOf::FollowUp { .. } => "follow_up"@,
        RpcCommandOf::Abort => "abort"@,
        RpcCommandOf::NewSession { .. } => "new_session"@,
        RpcCommandOf::GetState => "get_state"@,
        RpcCommandOf::SetModel { .. } => "set_model"@,
        RpcCommandOf::CycleModel => "cycle_model"@,
        RpcCommandOf::GetAvailableModels => "get_available_models"@,
        RpcCommandOf::SetThinkingLevel { .. } => "set_thinking_level"@,
        RpcCommandOf::CycleThinkingLevel => "cycle_thinking_level"@,
        RpcCommandOf::SetSteeringMode { .. } => "set_steering_mode"@,
        RpcCommandOf::SetFollowUpMode { .. } => "set_follow_up_mode"@,
        RpcCommandOf::Compact { .. } => "compact"@,
        RpcCommandOf::SetAutoCompaction { .. } => "set_auto_compaction"@,
        RpcCommandOf::SetAutoRetry { .. } => "set_auto_retry"@,
        RpcCommandOf::AbortRetry => "abort_retry"@,
        RpcCommandOf::Bash { .. } => "bash"@,
        RpcCommandOf::AbortBash => "abort_bash"@,
        RpcCommandOf::GetSessionStats => "get_session_stats"@,
        RpcCommandOf::ExportHtml { .. } => "export_html"@,
        RpcCommandOf::SwitchSession { .. } => "switch_session"@,
        RpcCommandOf::Fork { .. } => "fork"@,
        RpcCommandOf::GetForkMessages => "get_fork_messages"@,
        RpcCommandOf::GetLastAssistantText => "get_last_assistant_text"@,
        RpcCommandOf::SetSessionName { .. } => "set_session_name"@,
        RpcCommandOf::GetMessages => "get_messages"@,
        RpcCommandOf::GetCommands => "get_commands"@,
    }
}

/// The protocol's name of a command (see `command_type`).
pub fn rpc_command_type(command: &RpcCommand) -> (r: &'static str)
    ensures
        r@ == command_type(command_view(*command)),
{
    match command {
        RpcCommandOf::Prompt { .. } => "prompt",
        RpcCommandOf::Steer { .. } => "steer",
        RpcCommandOf::FollowUp { .. } => "follow_up",
        RpcCommandOf::Abort => "abort",
        RpcCommandOf::NewSession { .. } => "new_session",
        RpcCommandOf::GetState => "get_state",
        RpcCommandOf::SetModel { .. } => "set_model",
        RpcCommandOf::CycleModel => "cycle_model",
        RpcCommandOf::GetAvailableModels => "get_available_models",
        RpcCommandOf::SetThinkingLevel { .. } => "set_thinking_level",
        RpcCommandOf::CycleThinkingLevel => "cycle_thinking_level",
        RpcCommandOf::SetSteeringMode { .. } => "set_steering_mode",
        RpcCommandOf::SetFollowUpMode { .. } => "set_follow_up_mode",
        RpcCommandOf::Compact { .. } => "compact",
        RpcCommandOf::SetAutoCompaction { .. } => "set_auto_compaction",
        RpcCommandOf::SetAutoRetry { .. } => "set_auto_retry",
        RpcCommandOf::AbortRetry => "abort_retry",
        RpcCommandOf::Bash { .. } => "bash",
        RpcCommandOf::AbortBash => "abort_bash",
        RpcCommandOf::GetSessionStats => "get_session_stats",
        RpcCommandOf::ExportHtml { .. } => "export_html",
        RpcCommandOf::SwitchSession { .. } => "switch_session",
        RpcCommandOf::Fork { .. } => "fork",
        RpcCommandOf::GetForkMessages => "get_fork_messages",
        RpcCommandOf::GetLastAssistantText => "get_last_assistant_text",
        RpcCommandOf::SetSessionName { .. } => "set_session_name",
        RpcCommandOf::GetMessages => "get_messages",
        RpcCommandOf::GetCommands => "get_commands",
    }
}

/// What a request is refused with before it runs: its id, the command the
/// answer names and the message, for a line that did not decode and for a
/// command that may not run now; nothing otherwise.
pub open spec fn refusal_of(request: RpcRequestModel, facts: RpcFacts) -> Option<(Option<Seq<char>>, Seq<char>, Seq<char>)> {
    match request {
        RpcRequestOf::ExtensionUiResponse => None,
        RpcRequestOf::Rejected { id, command, message } => Some((id, command, message)),
        RpcRequestOf::Command { id, command } => match precheck_error(command, facts) {
            Some(e) => Some((id, command_type(command), e)),
            None => None,
        },
    }
}

/// The answer to a refused request (see `refusal_of`): a failure response
/// carrying the message as `error`; none where the request may run.
pub fn rpc_refusal_response(request: &RpcRequest, facts: &RpcFacts) -> (r: Option<JsonValue>)
    ensures
        match refusal_of(request_view(*request), *facts) {
            Some((id, command, message)) => r matches Some(v) && members_of(v) == response_members(
                id,
                command,
                false,
                Some(("error"@, JsonModel::Str(message))),
            ),
            None => r is None,
        },
{
    match request {
        RpcRequestOf::ExtensionUiResponse => None,
        RpcRequestOf::Rejected { id, command, message } => {
            let id_ref = match id {
                Some(i) => Some(i.as_str()),
                None => None,
            };
            Some(rpc_error_response(id_ref, command.as_str(), message.as_str()))
        },
        RpcRequestOf::Command { id, command } => match rpc_precheck(command, facts) {
            Some(e) => {
                let id_ref = match id {
                    Some(i) => Some(i.as_str()),
                    None => None,
                };
                Some(rpc_error_response(id_ref, rpc_command_type(command), e.as_str()))
            },
            None => None,
        },
    }
}

/// A refused line is answered in its own terms: the answer carries the
/// line's id (where it gave one as a string) and names the command the
/// line's `type` gave; a line the decoder accepts becomes a command of
/// that same type.
#[verifier::rlimit(50)]
pub proof fn lemma_refusal_names_the_line(ms: Seq<(Seq<char>, JsonModel)>, facts: RpcFacts)
    requires
        str_member(ms, "type"@) matches Some(t) && t != "extension_ui_response"@,
    ensures
        ({
            let t = str_member(ms, "type"@)->0;
            &&& decoded(JsonModel::Object(ms)) matches RpcRequestOf::Command { id, command } ==> command_type(command) == t
                && id == str_member(ms, "id"@)
            &&& refusal_of(decoded(JsonModel::Object(ms)), facts) matches Some((id, command, message)) ==> command == t && id
                == str_member(ms, "id"@)
        }),
{
    reveal_strlit("extension_ui_response");
}

/// A success response, with `data` when there is a payload.
pub fn rpc_success_response(id: Option<&str>, command: &str, data: Option<JsonValue>) -> (r: JsonValue)
    ensures
        r matches JsonValue::Object(ms) && members_of(r) == response_members(
            match id {
                Some(i) => Some(i@),
                None => None,
            },
            command@,
            true,
            match data {
                Some(d) => Some(("data"@, json_model(d))),
                None => None,
            },
        ),
{
    let mut r = response_head(id, command, true);
    let ghost before = members_of(JsonValue::Object(r));
    if let Some(d) = data {
        r.push((owned("data"), d));
        assert(members_of(JsonValue::Object(r)) =~= before.push(("data"@, json_model(d))));
    }
    JsonValue::Object(r)
}

/// A failure response carrying `message` as `error`.
pub fn rpc_error_response(id: Option<&str>, command: &str, message: &str) -> (r: JsonValue)
    ensures
        r matches JsonValue::Object(ms) && members_of(r) == response_members(
            match id {
                Some(i) => Some(i@),
                None => None,
            },
            command@,
            false,
            Some(("error"@, JsonModel::Str(message@))),
        ),
{
    let mut r = response_head(id, command, false);
    let ghost before = members_of(JsonValue::Object(r));
    r.push((owned("error"), JsonValue::Str(owned(message))));
    proof {
        reveal_with_fuel(json_model, 2);
    }
    assert(members_of(JsonValue::Object(r)) =~= before.push(("error"@, JsonModel::Str(message@))));
    JsonValue::Object(r)
}


/// The answer to an input line that is not JSON: a failed `parse`
/// response without an id, whose error is "Failed to parse command: "
/// followed by the parser's message.
pub fn rpc_parse_failure_response(parser_message: &str) -> (r: JsonValue)
    ensures
        r matches JsonValue::Object(ms) && members_of(r) == response_members(
            None,
            "parse"@,
            false,
            Some(("error"@, JsonModel::Str("Failed to parse command: "@ + parser_message@))),
        ),
{
    let mut v = crate::text::chars_of("Failed to parse command: ");
    crate::text::push_str_chars(&mut v, parser_message);
    let message = crate::text::string_from_chars(&v);
    rpc_error_response(None, "parse", message.as_str())
}

/// What an RPC input line asks for: the request its JSON holds, or, where
/// the line is not JSON, the `parse` failure that answers it.
pub fn read_rpc_line(line: &str) -> (r: Result<RpcRequest, JsonValue>)
    ensures
        match crate::json_text::json_text_value(line@) {
            Some(v) => r matches Ok(q) && request_view(q) == decoded(v),
            None => r matches Err(e) && members_of(e) == response_members(
                None,
                "parse"@,
                false,
                Some(("error"@, JsonModel::Str("Failed to parse command: "@ + crate::json_text::json_error_text(line@)))),
            ),
        },
{
    match crate::json_text::parse_json_text(line) {
        Ok(v) => Ok(decode_rpc_request(&v)),
        Err(message) => Err(rpc_parse_failure_response(message.as_str())),
    }
}

/// A response as the line written to stdout: its compact JSON text and a
/// newline.
pub fn rpc_response_line(value: &JsonValue) -> (r: String)
    ensures
        r@ == crate::json_text::json_compact_text(json_model(*value)) + seq!['\n'],
{
    let mut text = crate::json_text::render_json_compact(value);
    crate::text::push_line(&mut text, "");
    proof {
        reveal_strlit("");
    }
    assert(text@ =~= crate::json_text::json_compact_text(json_model(*value)) + seq!['\n']);
    text
}

/// The trimmed lines that are not blank, in order.
pub open spec fn command_lines(lines: Seq<Seq<char>>) -> Seq<Seq<char>>
    decreases lines.len(),
{
    if lines.len() == 0 {
        seq![]
    } else {
        let rest = command_lines(lines.drop_last());
        let t = crate::text::trim_seq(lines.last());
        if t.len() == 0 {
            rest
        } else {
            rest.push(t)
        }
    }
}

/// The command lines of RPC input given all at once: each line of `content`
/// (see `text_lines`) trimmed, blank ones left out.
pub fn rpc_input_lines(content: &str) -> (r: Vec<String>)
    ensures
        crate::listnav::views(r@) == command_lines(crate::changelog::text_lines(content@)),
{
    let lines = crate::changelog::content_lines(content);
    let ghost ls = crate::changelog::char_views(lines@);
    let mut out: Vec<String> = Vec::new();
    let mut i: usize = 0;
    assert(ls.take(0) =~= seq![]);
    while i < lines.len()
        invariant
            0 <= i <= lines@.len(),
            ls == crate::changelog::char_views(lines@),
            ls == crate::changelog::text_lines(content@),
            crate::listnav::views(out@) == command_lines(ls.take(i as int)),
        decreases lines@.len() - i,
    {
        assert(ls.take(i + 1).drop_last() =~= ls.take(i as int));
        assert(ls.take(i + 1).last() == lines@[i as int]@);
        let t = crate::text::trim_chars(&lines[i]);
        if t.len() > 0 {
            let ghost before = out@;
            out.push(string_from_chars(&t));
            assert(crate::listnav::views(out@) =~= crate::listnav::views(before).push(t@));
        }
        i = i + 1;
    }
    assert(ls.take(i as int) =~= ls);
    out
}

} // verus!
