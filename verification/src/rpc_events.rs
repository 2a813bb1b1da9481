//! How agent events, and the results of the `bash` and `compact` commands,
//! are written on the RPC output stream.
use vstd::prelude::*;
use crate::list_picker::concat_parts;
use crate::listnav::{decimal, decimal_chars, views};
use crate::rpc::{
    get_member, json_model, json_models, members_of, str_member, string_array, string_models, JsonModel, JsonValue,
};
use crate::text::{owned, push_str_chars, string_from_chars};

verus! {

/// A message of the agent as the event stream carries it.
pub enum RpcAgentMessage {
    /// A standard message, already in its JSON form.
    Standard(JsonValue),
    /// A message of an extension's own kind.
    Custom { role: String, payload: JsonValue, timestamp: JsonValue },
}

/// An agent event, with the payloads that the stream copies as they are
/// already in their JSON form.
pub enum RpcAgentEvent {
    AgentStart,
    AgentEnd { messages: Vec<RpcAgentMessage> },
    TurnStart,
    TurnEnd { message: JsonValue, tool_results: JsonValue },
    MessageStart { message: RpcAgentMessage },
    /// A step of a streamed reply, with the assistant's event in its JSON form.
    MessageUpdate { message: RpcAgentMessage, assistant_message_event: JsonValue },
    MessageEnd { message: RpcAgentMessage },
    ToolExecutionStart { tool_call_id: String, tool_name: String, args: JsonValue },
    ToolExecutionUpdate {
        tool_call_id: String,
        tool_name: String,
        args: JsonValue,
        partial_content: JsonValue,
        partial_details: JsonValue,
    },
    ToolExecutionEnd {
        tool_call_id: String,
        tool_name: String,
        content: JsonValue,
        details: JsonValue,
        is_error: bool,
    },
}

/// A message as JSON: a standard one as it is, a custom one as its role,
/// payload and timestamp.
pub open spec fn message_model(m: RpcAgentMessage) -> JsonModel {
    match m {
        RpcAgentMessage::Standard(v) => json_model(v),
        RpcAgentMessage::Custom { role, payload, timestamp } => JsonModel::Object(
            seq![
                ("role"@, JsonModel::Str(role@)),
                ("payload"@, json_model(payload)),
                ("timestamp"@, json_model(timestamp)),
            ],
        ),
    }
}

/// The JSON form of the messages.
pub open spec fn message_models(ms: Seq<RpcAgentMessage>) -> Seq<JsonModel> {
    ms.map_values(|m: RpcAgentMessage| message_model(m))
}

/// The members naming a tool call.
pub open spec fn tool_call_members(id: Seq<char>, name: Seq<char>, args: JsonModel) -> Seq<(Seq<char>, JsonModel)> {
    seq![("toolCallId"@, JsonModel::Str(id)), ("toolName"@, JsonModel::Str(name)), ("args"@, args)]
}

/// A tool result as JSON: its content and details.
pub open spec fn tool_result_model(content: JsonModel, details: JsonModel) -> JsonModel {
    JsonModel::Object(seq![("content"@, content), ("details"@, details)])
}

/// An event as the RPC stream writes it: an object whose `type` names the
/// event (`agent_start`, `message_update`, `tool_execution_end`, ...), then
/// the event's fields under their camel-case names.
pub open spec fn event_model(e: RpcAgentEvent) -> JsonModel {
    match e {
        RpcAgentEvent::AgentStart => JsonModel::Object(seq![("type"@, JsonModel::Str("agent_start"@))]),
        RpcAgentEvent::AgentEnd { messages } => JsonModel::Object(
            seq![
                ("type"@, JsonModel::Str("agent_end"@)),
                ("messages"@, JsonModel::Array(message_models(messages@))),
            ],
        ),
        RpcAgentEvent::TurnStart => JsonModel::Object(seq![("type"@, JsonModel::Str("turn_start"@))]),
        RpcAgentEvent::TurnEnd { message, tool_results } => JsonModel::Object(
            seq![
                ("type"@, JsonModel::Str("turn_end"@)),
                ("message"@, json_model(message)),
                ("toolResults"@, json_model(tool_results)),
            ],
        ),
        RpcAgentEvent::MessageStart { message } => JsonModel::Object(
            seq![("type"@, JsonModel::Str("message_start"@)), ("message"@, message_model(message))],
        ),
        RpcAgentEvent::MessageUpdate { message, assistant_message_event } => JsonModel::Object(
            seq![
                ("type"@, JsonModel::Str("message_update"@)),
                ("message"@, message_model(message)),
                ("assistantMessageEvent"@, json_model(assistant_message_event)),
            ],
        ),
        RpcAgentEvent::MessageEnd { message } => JsonModel::Object(
            seq![("type"@, JsonModel::Str("message_end"@)), ("message"@, message_model(message))],
        ),
        RpcAgentEvent::ToolExecutionStart { tool_call_id, tool_name, args } => JsonModel::Object(
            seq![("type"@, JsonModel::Str("tool_execution_start"@))] + tool_call_members(
                tool_call_id@,
                tool_name@,
                json_model(args),
            ),
        ),
        RpcAgentEvent::ToolExecutionUpdate { tool_call_id, tool_name, args, partial_content, partial_details } =>
            JsonModel::Object(
            seq![("type"@, JsonModel::Str("tool_execution_update"@))] + tool_call_members(
                tool_call_id@,
                tool_name@,
                json_model(args),
            ) + seq![("partialResult"@, tool_result_model(json_model(partial_content), json_model(partial_details)))],
        ),
        RpcAgentEvent::ToolExecutionEnd { tool_call_id, tool_name, content, details, is_error } => JsonModel::Object(
            seq![
                ("type"@, JsonModel::Str("tool_execution_end"@)),
                ("toolCallId"@, JsonModel::Str(tool_call_id@)),
                ("toolName"@, JsonModel::Str(tool_name@)),
                ("result"@, tool_result_model(json_model(content), json_model(details))),
                ("isError"@, JsonModel::Bool(is_error)),
            ],
        ),
    }
}

/// An object from its members.
fn object_of(ms: Vec<(String, JsonValue)>) -> (r: JsonValue)
    ensures
        r == JsonValue::Object(ms),
        json_model(r) == JsonModel::Object(members_of(r)),
{
    JsonValue::Object(ms)
}

/// The member `key: value`.
fn entry(key: &str, value: JsonValue) -> (r: (String, JsonValue))
    ensures
        r.0@ == key@,
        r.1 == value,
{
    (owned(key), value)
}

/// A message as JSON (see `message_model`).
pub fn rpc_agent_message_to_json(message: RpcAgentMessage) -> (r: JsonValue)
    ensures
        json_model(r) == message_model(message),
{
    match message {
        RpcAgentMessage::Standard(v) => v,
        RpcAgentMessage::Custom { role, payload, timestamp } => {
            let ghost (p, t) = (payload, timestamp);
            let r = object_of(vec![entry("role", JsonValue::Str(role)), entry("payload", payload), entry("timestamp", timestamp)]);
            proof {
                reveal_with_fuel(json_model, 2);
            }
            assert(members_of(r) =~= seq![
                ("role"@, JsonModel::Str(role@)),
                ("payload"@, json_model(p)),
                ("timestamp"@, json_model(t)),
            ]);
            r
        },
    }
}

/// The messages as a JSON array.
fn messages_array(messages: Vec<RpcAgentMessage>) -> (r: JsonValue)
    ensures
        json_model(r) == JsonModel::Array(message_models(messages@)),
{
    let ghost ms = messages@;
    let mut rest = messages;
    let mut reversed: Vec<JsonValue> = Vec::new();
    while rest.len() > 0
        invariant
            json_models(reversed@) == message_models(ms.skip(rest@.len() as int)).reverse(),
            rest@ == ms.take(rest@.len() as int),
            rest@.len() <= ms.len(),
        decreases rest@.len(),
    {
        let ghost n = rest@.len();
        let m = rest.pop().unwrap();
        let v = rpc_agent_message_to_json(m);
        let ghost before = reversed@;
        reversed.push(v);
        assert(ms.skip(n - 1) =~= seq![ms[n - 1]] + ms.skip(n as int));
        assert(message_models(ms.skip(n - 1)) =~= seq![message_model(ms[n - 1])] + message_models(ms.skip(n as int)));
        assert(json_models(reversed@) =~= json_models(before).push(json_model(v)));
        assert(rest@ =~= ms.take(n - 1));
    }
    assert(ms.skip(0) =~= ms);
    let ghost rev = reversed@;
    let mut out: Vec<JsonValue> = Vec::new();
    while reversed.len() > 0
        invariant
            json_models(out@) + json_models(reversed@).reverse() == message_models(ms),
        decreases reversed@.len(),
    {
        let ghost before_rev = json_models(reversed@);
        let v = reversed.pop().unwrap();
        let ghost before = out@;
        out.push(v);
        assert(before_rev.reverse() =~= seq![json_model(v)] + json_models(reversed@).reverse());
        assert(json_models(out@) =~= json_models(before).push(json_model(v)));
    }
    let ghost items = out@;
    assert(json_models(items) =~= message_models(ms));
    let r = JsonValue::Array(out);
    proof {
        reveal_with_fuel(json_model, 1);
    }
    assert(json_models(items) =~= match json_model(r) {
        JsonModel::Array(a) => a,
        _ => seq![],
    });
    r
}

/// A tool result as JSON (see `tool_result_model`).
fn tool_result(content: JsonValue, details: JsonValue) -> (r: JsonValue)
    ensures
        json_model(r) == tool_result_model(json_model(content), json_model(details)),
{
    let ghost (c, d) = (content, details);
    let r = object_of(vec![entry("content", content), entry("details", details)]);
    assert(members_of(r) =~= seq![("content"@, json_model(c)), ("details"@, json_model(d))]);
    r
}

/// A `message_update` event is typed `message_update`, carries the
/// assistant event under `assistantMessageEvent`, and has no
/// `assistantEvent` member.
pub proof fn lemma_message_update_members(message: RpcAgentMessage, assistant_message_event: JsonValue)
    ensures
        event_model(RpcAgentEvent::MessageUpdate { message, assistant_message_event }) matches JsonModel::Object(ms)
            && crate::rpc::member(ms, "type"@) == Some(JsonModel::Str("message_update"@))
            && crate::rpc::member(ms, "assistantMessageEvent"@) == Some(json_model(assistant_message_event))
            && crate::rpc::member(ms, "assistantEvent"@) is None,
{
    reveal_strlit("type");
    reveal_strlit("message");
    reveal_strlit("assistantMessageEvent");
    reveal_strlit("assistantEvent");
    let ms = seq![
        ("type"@, JsonModel::Str("message_update"@)),
        ("message"@, message_model(message)),
        ("assistantMessageEvent"@, json_model(assistant_message_event)),
    ];
    assert(ms.drop_last() =~= seq![("type"@, JsonModel::Str("message_update"@)), ("message"@, message_model(message))]);
    assert(ms.drop_last().drop_last() =~= seq![("type"@, JsonModel::Str("message_update"@))]);
    assert(ms.drop_last().drop_last().drop_last() =~= Seq::<(Seq<char>, JsonModel)>::empty());
    assert("assistantEvent"@ != "assistantMessageEvent"@) by {
        assert("assistantEvent"@.len() != "assistantMessageEvent"@.len());
    }
    assert("assistantEvent"@ != "message"@) by {
        assert("assistantEvent"@.len() != "message"@.len());
    }
    assert("assistantEvent"@ != "type"@) by {
        assert("assistantEvent"@.len() != "type"@.len());
    }
    assert("type"@ != "assistantMessageEvent"@) by {
        assert("type"@.len() != "assistantMessageEvent"@.len());
    }
    assert("type"@ != "message"@) by {
        assert("type"@.len() != "message"@.len());
    }
    reveal_with_fuel(crate::rpc::member, 4);
    assert(event_model(RpcAgentEvent::MessageUpdate { message, assistant_message_event }) == JsonModel::Object(ms));
}

/// An event as the RPC stream writes it (see `event_model`).
pub fn rpc_agent_event_to_json(event: RpcAgentEvent) -> (r: JsonValue)
    ensures
        json_model(r) == event_model(event),
{
    proof {
        reveal_with_fuel(json_model, 2);
    }
    let ghost e = event;
    match event {
        RpcAgentEvent::AgentStart => {
            let r = object_of(vec![entry("type", JsonValue::Str(owned("agent_start")))]);
            assert(members_of(r) =~= seq![("type"@, JsonModel::Str("agent_start"@))]);
            r
        },
        RpcAgentEvent::AgentEnd { messages } => {
            let ghost ms = messages@;
            let list = messages_array(messages);
            let r = object_of(vec![entry("type", JsonValue::Str(owned("agent_end"))), entry("messages", list)]);
            assert(members_of(r) =~= seq![
                ("type"@, JsonModel::Str("agent_end"@)),
                ("messages"@, JsonModel::Array(message_models(ms))),
            ]);
            r
        },
        RpcAgentEvent::TurnStart => {
            let r = object_of(vec![entry("type", JsonValue::Str(owned("turn_start")))]);
            assert(members_of(r) =~= seq![("type"@, JsonModel::Str("turn_start"@))]);
            r
        },
        RpcAgentEvent::TurnEnd { message, tool_results } => {
            let ghost (m, t) = (message, tool_results);
            let r = object_of(
                vec![
                    entry("type", JsonValue::Str(owned("turn_end"))),
                    entry("message", message),
                    entry("toolResults", tool_results),
                ],
            );
            assert(members_of(r) =~= seq![
                ("type"@, JsonModel::Str("turn_end"@)),
                ("message"@, json_model(m)),
                ("toolResults"@, json_model(t)),
            ]);
            r
        },
        RpcAgentEvent::MessageStart { message } => {
            let ghost m = message;
            let v = rpc_agent_message_to_json(message);
            let r = object_of(vec![entry("type", JsonValue::Str(owned("message_start"))), entry("message", v)]);
            assert(members_of(r) =~= seq![("type"@, JsonModel::Str("message_start"@)), ("message"@, message_model(m))]);
            r
        },
        RpcAgentEvent::MessageUpdate { message, assistant_message_event } => {
            let ghost (m, a) = (message, assistant_message_event);
            let v = rpc_agent_message_to_json(message);
            let r = object_of(
                vec![
                    entry("type", JsonValue::Str(owned("message_update"))),
                    entry("message", v),
                    entry("assistantMessageEvent", assistant_message_event),
                ],
            );
            assert(members_of(r) =~= seq![
                ("type"@, JsonModel::Str("message_update"@)),
                ("message"@, message_model(m)),
                ("assistantMessageEvent"@, json_model(a)),
            ]);
            r
        },
        RpcAgentEvent::MessageEnd { message } => {
            let ghost m = message;
            let v = rpc_agent_message_to_json(message);
            let r = object_of(vec![entry("type", JsonValue::Str(owned("message_end"))), entry("message", v)]);
            assert(members_of(r) =~= seq![("type"@, JsonModel::Str("message_end"@)), ("message"@, message_model(m))]);
            r
        },
        RpcAgentEvent::ToolExecutionStart { tool_call_id, tool_name, args } => {
            let ghost (i, n, a) = (tool_call_id, tool_name, args);
            let r = object_of(
                vec![
                    entry("type", JsonValue::Str(owned("tool_execution_start"))),
                    entry("toolCallId", JsonValue::Str(tool_call_id)),
                    entry("toolName", JsonValue::Str(tool_name)),
                    entry("args", args),
                ],
            );
            assert(members_of(r) =~= seq![("type"@, JsonModel::Str("tool_execution_start"@))] + tool_call_members(
                i@,
                n@,
                json_model(a),
            ));
            r
        },
        RpcAgentEvent::ToolExecutionUpdate { tool_call_id, tool_name, args, partial_content, partial_details } => {
            let ghost (i, n, a, c, d) = (tool_call_id, tool_name, args, partial_content, partial_details);
            let partial = tool_result(partial_content, partial_details);
            let r = object_of(
                vec![
                    entry("type", JsonValue::Str(owned("tool_execution_update"))),
                    entry("toolCallId", JsonValue::Str(tool_call_id)),
                    entry("toolName", JsonValue::Str(tool_name)),
                    entry("args", args),
                    entry("partialResult", partial),
                ],
            );
            assert(members_of(r) =~= seq![("type"@, JsonModel::Str("tool_execution_update"@))] + tool_call_members(
                i@,
                n@,
                json_model(a),
            ) + seq![("partialResult"@, tool_result_model(json_model(c), json_model(d)))]);
            r
        },
        RpcAgentEvent::ToolExecutionEnd { tool_call_id, tool_name, content, details, is_error } => {
            let ghost (i, n, c, d) = (tool_call_id, tool_name, content, details);
            let result = tool_result(content, details);
            let r = object_of(
                vec![
                    entry("type", JsonValue::Str(owned("tool_execution_end"))),
                    entry("toolCallId", JsonValue::Str(tool_call_id)),
                    entry("toolName", JsonValue::Str(tool_name)),
                    entry("result", result),
                    entry("isError", JsonValue::Bool(is_error)),
                ],
            );
            assert(members_of(r) =~= seq![
                ("type"@, JsonModel::Str("tool_execution_end"@)),
                ("toolCallId"@, JsonModel::Str(i@)),
                ("toolName"@, JsonModel::Str(n@)),
                ("result"@, tool_result_model(json_model(c), json_model(d))),
                ("isError"@, JsonModel::Bool(is_error)),
            ]);
            r
        },
    }
}


/// The path of the full output that a tool's details name, where they
/// hold it as a string.
pub open spec fn full_output_path_of(details: JsonModel) -> Option<Seq<char>> {
    match details {
        JsonModel::Object(ms) => str_member(ms, "fullOutputPath"@),
        _ => None,
    }
}

/// An integer in decimal, with a minus sign when it is negative.
pub open spec fn signed_decimal(n: int) -> Seq<char> {
    if n < 0 {
        seq!['-'] + decimal((-n) as nat)
    } else {
        decimal(n as nat)
    }
}

/// An exit status as JSON: null where the command was stopped before it
/// exited with one.
pub open spec fn exit_code_model(exit_code: Option<i32>) -> JsonModel {
    match exit_code {
        Some(c) => JsonModel::Number(signed_decimal(c as int)),
        None => JsonModel::Null,
    }
}

/// The RPC `bash` result: the text parts of the tool's output run
/// together, the command's exit status, whether it was cancelled, and
/// truncated exactly when the details name a file holding the full output.
pub open spec fn bash_result_model(text_parts: Seq<String>, exit_code: Option<i32>, cancelled: bool, details: JsonModel) -> JsonModel {
    JsonModel::Object(
        seq![
            ("output"@, JsonModel::Str(concat_parts(views(text_parts)))),
            ("exitCode"@, exit_code_model(exit_code)),
            ("cancelled"@, JsonModel::Bool(cancelled)),
            ("truncated"@, JsonModel::Bool(full_output_path_of(details) is Some)),
            ("fullOutputPath"@, match full_output_path_of(details) {
                Some(p) => JsonModel::Str(p),
                None => JsonModel::Null,
            }),
        ],
    )
}

/// The full-output path named by `details` (see `full_output_path_of`).
fn full_output_path(details: &JsonValue) -> (r: Option<String>)
    ensures
        match r {
            Some(p) => full_output_path_of(json_model(*details)) == Some(p@),
            None => full_output_path_of(json_model(*details)) is None,
        },
{
    proof {
        reveal_with_fuel(json_model, 2);
    }
    match details {
        JsonValue::Object(ms) => match get_member(ms, "fullOutputPath") {
            Some(JsonValue::Str(p)) => Some(owned(p.as_str())),
            _ => None,
        },
        _ => None,
    }
}

/// An exit status as a JSON value (see `exit_code_model`).
fn exit_code_value(exit_code: Option<i32>) -> (r: JsonValue)
    ensures
        json_model(r) == exit_code_model(exit_code),
{
    proof {
        reveal_with_fuel(json_model, 1);
    }
    match exit_code {
        None => JsonValue::Null,
        Some(c) => {
            let mut v: Vec<char> = Vec::new();
            let magnitude: u64 = if c < 0 {
                v.push('-');
                (-(c as i64)) as u64
            } else {
                c as u64
            };
            let digits = decimal_chars(magnitude);
            crate::text::extend_chars(&mut v, &digits);
            assert(v@ =~= signed_decimal(c as int));
            JsonValue::Number(string_from_chars(&v))
        },
    }
}

/// The RPC `bash` result (see `bash_result_model`).
pub fn rpc_bash_result_json(text_parts: &Vec<String>, exit_code: Option<i32>, cancelled: bool, details: &JsonValue) -> (r:
    JsonValue)
    ensures
        json_model(r) == bash_result_model(text_parts@, exit_code, cancelled, json_model(*details)),
{
    let ghost ps = views(text_parts@);
    let mut output: Vec<char> = Vec::new();
    let mut i: usize = 0;
    while i < text_parts.len()
        invariant
            0 <= i <= text_parts@.len(),
            ps == views(text_parts@),
            output@ == concat_parts(ps.take(i as int)),
        decreases text_parts@.len() - i,
    {
        push_str_chars(&mut output, text_parts[i].as_str());
        assert(ps.take(i + 1).drop_last() =~= ps.take(i as int));
        i = i + 1;
    }
    assert(ps.take(i as int) =~= ps);
    let path = full_output_path(details);
    let truncated = path.is_some();
    let path_value = match path {
        Some(p) => JsonValue::Str(p),
        None => JsonValue::Null,
    };
    let r = object_of(
        vec![
            entry("output", JsonValue::Str(string_from_chars(&output))),
            entry("exitCode", exit_code_value(exit_code)),
            entry("cancelled", JsonValue::Bool(cancelled)),
            entry("truncated", JsonValue::Bool(truncated)),
            entry("fullOutputPath", path_value),
        ],
    );
    proof {
        reveal_with_fuel(json_model, 2);
        if let JsonModel::Object(expected) = bash_result_model(text_parts@, exit_code, cancelled, json_model(*details)) {
            assert(members_of(r) =~= expected);
        }
    }
    r
}

/// A compaction's result as the RPC `compact` command answers it: the
/// summary, the first entry kept, the token count before, and the details.
pub open spec fn compaction_result_model(summary: Seq<char>, first_kept: Seq<char>, tokens_before: nat, details: JsonModel) -> JsonModel {
    JsonModel::Object(
        seq![
            ("summary"@, JsonModel::Str(summary)),
            ("firstKeptEntryId"@, JsonModel::Str(first_kept)),
            ("tokensBefore"@, JsonModel::Number(decimal(tokens_before))),
            ("details"@, details),
        ],
    )
}

/// A compaction's result as JSON (see `compaction_result_model`).
pub fn compaction_result_to_json(summary: &str, first_kept_entry_id: &str, tokens_before: u64, details: JsonValue) -> (r:
    JsonValue)
    ensures
        json_model(r) == compaction_result_model(summary@, first_kept_entry_id@, tokens_before as nat, json_model(details)),
{
    let ghost d = details;
    let count = decimal_chars(tokens_before);
    let r = object_of(
        vec![
            entry("summary", JsonValue::Str(owned(summary))),
            entry("firstKeptEntryId", JsonValue::Str(owned(first_kept_entry_id))),
            entry("tokensBefore", JsonValue::Number(string_from_chars(&count))),
            entry("details", details),
        ],
    );
    proof {
        reveal_with_fuel(json_model, 2);
        if let JsonModel::Object(expected) = compaction_result_model(
            summary@,
            first_kept_entry_id@,
            tokens_before as nat,
            json_model(d),
        ) {
            assert(members_of(r) =~= expected);
        }
    }
    r
}


/// The `queue_update` event: the messages waiting to steer the running
/// reply and those waiting to follow it, in the order they were queued.
pub open spec fn queue_update_model(steering: Seq<String>, follow_up: Seq<String>) -> JsonModel {
    JsonModel::Object(
        seq![
            ("type"@, JsonModel::Str("queue_update"@)),
            ("steering"@, JsonModel::Array(string_models(steering))),
            ("followUp"@, JsonModel::Array(string_models(follow_up))),
        ],
    )
}

/// The `queue_update` event (see `queue_update_model`).
pub fn rpc_queue_update_json(steering: &Vec<String>, follow_up: &Vec<String>) -> (r: JsonValue)
    ensures
        json_model(r) == queue_update_model(steering@, follow_up@),
{
    let r = object_of(
        vec![
            entry("type", JsonValue::Str(owned("queue_update"))),
            entry("steering", string_array(steering)),
            entry("followUp", string_array(follow_up)),
        ],
    );
    proof {
        reveal_with_fuel(json_model, 2);
        if let JsonModel::Object(expected) = queue_update_model(steering@, follow_up@) {
            assert(members_of(r) =~= expected);
        }
    }
    r
}

} // verus!
