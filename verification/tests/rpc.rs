use pi_cli_core::args::ThinkingLevel;
use pi_cli_core::rpc::{
    decode_rpc_request, parse_rpc_extension_command, queue_mode_from_str, queue_mode_label, route_prompt,
    rpc_command_type, rpc_error_response, rpc_precheck, rpc_refusal_response, rpc_success_response, JsonValue, PromptRoute, QueueMode, RpcCommandOf,
    RpcFacts, RpcRequestOf,
};

fn s(v: &str) -> JsonValue {
    JsonValue::Str(v.to_string())
}

fn obj(members: Vec<(&str, JsonValue)>) -> JsonValue {
    JsonValue::Object(members.into_iter().map(|(k, v)| (k.to_string(), v)).collect())
}

fn idle() -> RpcFacts {
    RpcFacts { is_streaming: false, has_session: true, is_compacting: false, bash_running: false, extension_command: false }
}

#[test]
fn non_objects_and_untyped_commands_are_rejected() {
    match decode_rpc_request(&JsonValue::Array(vec![])) {
        RpcRequestOf::Rejected { id, command, message } => {
            assert_eq!(id, None);
            assert_eq!(command, "parse");
            assert_eq!(message, "RPC command must be a JSON object");
        }
        _ => panic!("expected rejection"),
    }
    match decode_rpc_request(&obj(vec![("id", s("7"))])) {
        RpcRequestOf::Rejected { id, command, message } => {
            assert_eq!(id.as_deref(), Some("7"));
            assert_eq!(command, "parse");
            assert_eq!(message, "RPC command is missing type");
        }
        _ => panic!("expected rejection"),
    }
    assert!(matches!(
        decode_rpc_request(&obj(vec![("type", s("extension_ui_response")), ("id", s("1"))])),
        RpcRequestOf::ExtensionUiResponse
    ));
}

#[test]
fn prompts_carry_message_images_and_streaming_behavior() {
    let v = obj(vec![
        ("type", s("prompt")),
        ("id", s("req-1")),
        ("message", s("hello")),
        ("streamingBehavior", s("steer")),
        ("images", JsonValue::Array(vec![obj(vec![("data", s("AAA")), ("mime_type", s("image/png"))])])),
    ]);
    match decode_rpc_request(&v) {
        RpcRequestOf::Command { id, command: RpcCommandOf::Prompt { message, images, streaming_behavior } } => {
            assert_eq!(id.as_deref(), Some("req-1"));
            assert_eq!(message, "hello");
            assert_eq!(images.len(), 1);
            assert_eq!(images[0].data, "AAA");
            assert_eq!(images[0].mime_type, "image/png");
            assert_eq!(streaming_behavior.as_deref(), Some("steer"));
        }
        _ => panic!("expected prompt"),
    }
}

#[test]
fn field_errors_name_the_field() {
    match decode_rpc_request(&obj(vec![("type", s("steer"))])) {
        RpcRequestOf::Rejected { command, message, .. } => {
            assert_eq!(command, "steer");
            assert_eq!(message, "Missing required string field: message");
        }
        _ => panic!("expected rejection"),
    }
    let bad_images = obj(vec![("type", s("prompt")), ("message", s("m")), ("images", s("x"))]);
    match decode_rpc_request(&bad_images) {
        RpcRequestOf::Rejected { message, .. } => assert_eq!(message, "Field images must be an array"),
        _ => panic!("expected rejection"),
    }
    let no_mime = obj(vec![("type", s("prompt")), ("message", s("m")), ("images", JsonValue::Array(vec![obj(vec![("data", s("d"))])]))]);
    match decode_rpc_request(&no_mime) {
        RpcRequestOf::Rejected { message, .. } => assert_eq!(message, "Image entries must include mimeType"),
        _ => panic!("expected rejection"),
    }
    let not_obj = obj(vec![("type", s("prompt")), ("message", s("m")), ("images", JsonValue::Array(vec![JsonValue::Null]))]);
    match decode_rpc_request(&not_obj) {
        RpcRequestOf::Rejected { message, .. } => assert_eq!(message, "Image entries must be objects"),
        _ => panic!("expected rejection"),
    }
    match decode_rpc_request(&obj(vec![("type", s("set_model")), ("provider", s("p"))])) {
        RpcRequestOf::Rejected { message, .. } => assert_eq!(message, "Missing required string field: modelId"),
        _ => panic!("expected rejection"),
    }
    match decode_rpc_request(&obj(vec![("type", s("set_thinking_level")), ("level", s("max"))])) {
        RpcRequestOf::Rejected { message, .. } => assert_eq!(message, "Invalid thinking level"),
        _ => panic!("expected rejection"),
    }
    match decode_rpc_request(&obj(vec![("type", s("set_session_name")), ("name", s("   "))])) {
        RpcRequestOf::Rejected { message, .. } => assert_eq!(message, "Session name cannot be empty"),
        _ => panic!("expected rejection"),
    }
    match decode_rpc_request(&obj(vec![("type", s("teleport"))])) {
        RpcRequestOf::Rejected { command, message, .. } => {
            assert_eq!(command, "teleport");
            assert_eq!(message, "Unknown command: teleport");
        }
        _ => panic!("expected rejection"),
    }
}

#[test]
fn options_take_their_defaults() {
    assert!(matches!(
        decode_rpc_request(&obj(vec![("type", s("set_auto_retry"))])),
        RpcRequestOf::Command { command: RpcCommandOf::SetAutoRetry { enabled: true }, .. }
    ));
    assert!(matches!(
        decode_rpc_request(&obj(vec![("type", s("set_auto_compaction"))])),
        RpcRequestOf::Command { command: RpcCommandOf::SetAutoCompaction { enabled: false }, .. }
    ));
    assert!(matches!(
        decode_rpc_request(&obj(vec![("type", s("set_thinking_level")), ("level", s("low"))])),
        RpcRequestOf::Command { command: RpcCommandOf::SetThinkingLevel { level: ThinkingLevel::Low }, .. }
    ));
    assert!(matches!(
        decode_rpc_request(&obj(vec![("type", s("set_follow_up_mode")), ("mode", s("one-at-a-time"))])),
        RpcRequestOf::Command { command: RpcCommandOf::SetFollowUpMode { mode: QueueMode::OneAtATime }, .. }
    ));
}

#[test]
fn a_key_given_twice_means_its_last_value() {
    let v = obj(vec![("type", s("bash")), ("command", s("ls")), ("command", s("pwd"))]);
    match decode_rpc_request(&v) {
        RpcRequestOf::Command { command: RpcCommandOf::Bash { command }, .. } => assert_eq!(command, "pwd"),
        _ => panic!("expected bash"),
    }
}

#[test]
fn prechecks_refuse_in_protocol_order() {
    let streaming = RpcFacts { is_streaming: true, ..idle() };
    let switch = match decode_rpc_request(&obj(vec![("type", s("switch_session"))])) {
        RpcRequestOf::Command { command, .. } => command,
        _ => panic!("expected command"),
    };
    assert_eq!(
        rpc_precheck(&switch, &streaming).as_deref(),
        Some("Cannot switch sessions while a request is running")
    );
    assert_eq!(rpc_precheck(&switch, &idle()).as_deref(), Some("Missing required string field: sessionPath"));
    let compact = match decode_rpc_request(&obj(vec![("type", s("compact"))])) {
        RpcRequestOf::Command { command, .. } => command,
        _ => panic!("expected command"),
    };
    assert_eq!(
        rpc_precheck(&compact, &RpcFacts { has_session: false, is_streaming: true, ..idle() }).as_deref(),
        Some("Session compaction is unavailable")
    );
    assert_eq!(
        rpc_precheck(&compact, &RpcFacts { is_compacting: true, ..idle() }).as_deref(),
        Some("Compaction is already running")
    );
    assert_eq!(rpc_precheck(&compact, &idle()), None);
    let steer = match decode_rpc_request(&obj(vec![("type", s("steer")), ("message", s("/cmd"))])) {
        RpcRequestOf::Command { command, .. } => command,
        _ => panic!("expected command"),
    };
    assert_eq!(
        rpc_precheck(&steer, &RpcFacts { extension_command: true, ..idle() }).as_deref(),
        Some("Extension commands cannot be queued with steer")
    );
}

#[test]
fn prompts_are_routed_by_state() {
    assert_eq!(route_prompt(Some("steer"), &idle()), PromptRoute::Run);
    assert_eq!(route_prompt(Some("steer"), &RpcFacts { is_streaming: true, ..idle() }), PromptRoute::QueueSteer);
    assert_eq!(route_prompt(Some("followUp"), &RpcFacts { is_streaming: true, ..idle() }), PromptRoute::QueueFollowUp);
    assert_eq!(route_prompt(None, &RpcFacts { is_streaming: true, ..idle() }), PromptRoute::Run);
    assert_eq!(route_prompt(None, &RpcFacts { extension_command: true, ..idle() }), PromptRoute::ExtensionCommand);
}

#[test]
fn extension_commands_are_read_from_prompts() {
    assert_eq!(parse_rpc_extension_command("/deploy  prod now "), Some((String::from("deploy"), String::from("prod now"))));
    assert_eq!(parse_rpc_extension_command("/status"), Some((String::from("status"), String::new())));
    assert_eq!(parse_rpc_extension_command("/ x"), None);
    assert_eq!(parse_rpc_extension_command("/"), None);
    assert_eq!(parse_rpc_extension_command("hello"), None);
}

#[test]
fn queue_modes_round_trip_through_their_names() {
    assert_eq!(queue_mode_from_str("all"), Some(QueueMode::All));
    assert_eq!(queue_mode_from_str(queue_mode_label(QueueMode::OneAtATime)), Some(QueueMode::OneAtATime));
    assert_eq!(queue_mode_from_str("some"), None);
}

fn members(v: &JsonValue) -> Vec<(String, String)> {
    match v {
        JsonValue::Object(ms) => ms
            .iter()
            .map(|(k, v)| {
                let text = match v {
                    JsonValue::Str(s) => s.clone(),
                    JsonValue::Bool(b) => b.to_string(),
                    JsonValue::Null => String::from("null"),
                    _ => String::from("?"),
                };
                (k.clone(), text)
            })
            .collect(),
        _ => panic!("expected object"),
    }
}

#[test]
fn responses_carry_id_command_and_outcome() {
    let ok = rpc_success_response(Some("9"), "get_state", Some(JsonValue::Null));
    assert_eq!(
        members(&ok),
        vec![
            (String::from("id"), String::from("9")),
            (String::from("type"), String::from("response")),
            (String::from("command"), String::from("get_state")),
            (String::from("success"), String::from("true")),
            (String::from("data"), String::from("null")),
        ]
    );
    let err = rpc_error_response(None, "bash", "A bash command is already running");
    assert_eq!(
        members(&err),
        vec![
            (String::from("type"), String::from("response")),
            (String::from("command"), String::from("bash")),
            (String::from("success"), String::from("false")),
            (String::from("error"), String::from("A bash command is already running")),
        ]
    );
}

fn member_text(v: &JsonValue, key: &str) -> Option<String> {
    match v {
        JsonValue::Object(ms) => ms.iter().rev().find(|(k, _)| k == key).map(|(_, v)| match v {
            JsonValue::Str(s) => s.clone(),
            JsonValue::Bool(b) => b.to_string(),
            _ => String::from("?"),
        }),
        _ => None,
    }
}

#[test]
fn refused_commands_are_answered_with_their_type_and_id() {
    let streaming = RpcFacts { is_streaming: true, ..idle() };
    let request = decode_rpc_request(&obj(vec![("type", s("compact")), ("id", s("c-1"))]));
    let answer = rpc_refusal_response(&request, &streaming).expect("a refusal");
    assert_eq!(member_text(&answer, "id").as_deref(), Some("c-1"));
    assert_eq!(member_text(&answer, "type").as_deref(), Some("response"));
    assert_eq!(member_text(&answer, "command").as_deref(), Some("compact"));
    assert_eq!(member_text(&answer, "success").as_deref(), Some("false"));
    assert_eq!(
        member_text(&answer, "error").as_deref(),
        Some("Wait for the current response to finish before compacting")
    );
    assert!(rpc_refusal_response(&request, &idle()).is_none());
}

#[test]
fn undecodable_lines_are_answered_with_the_decode_error() {
    let request = decode_rpc_request(&obj(vec![("type", s("teleport"))]));
    let answer = rpc_refusal_response(&request, &idle()).expect("a refusal");
    assert_eq!(member_text(&answer, "id"), None);
    assert_eq!(member_text(&answer, "command").as_deref(), Some("teleport"));
    assert_eq!(member_text(&answer, "error").as_deref(), Some("Unknown command: teleport"));
    let ui = decode_rpc_request(&obj(vec![("type", s("extension_ui_response"))]));
    assert!(rpc_refusal_response(&ui, &idle()).is_none());
}

#[test]
fn commands_know_their_protocol_names() {
    match decode_rpc_request(&obj(vec![("type", s("get_session_stats"))])) {
        RpcRequestOf::Command { command, .. } => assert_eq!(rpc_command_type(&command), "get_session_stats"),
        _ => panic!("expected a command"),
    }
}
