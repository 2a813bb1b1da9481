use pi_cli_core::args::{ThinkingLevel, UnknownFlagValue};
use pi_cli_core::changelog::render_changelog_text;
use pi_cli_core::compaction::{
    auto_compaction_notice, auto_compaction_step, CompactionFacts, CompactionStep, ReplyFacts, ReplyStop,
};
use pi_cli_core::rpc::{
    copy_json, rpc_command_list, rpc_commands_payload, rpc_extension_state_json, rpc_session_state_json,
    unknown_flags_to_json, AgentStateFacts, JsonValue, QueueMode, RpcCommandSource, RpcSessionFacts,
};
use pi_cli_core::list_picker::ForkMessageCandidate;
use pi_cli_core::rpc_replies::{
    find_rpc_model, rpc_fork_messages_json, rpc_fork_target, rpc_last_text_json, rpc_thinking_cycle_json, ForkTarget,
};
use pi_cli_core::slash::{slash_outcome_message, SlashOutcome};
use pi_cli_core::transition::{
    fork_transition, fork_transition_message, oauth_picker_status, settings_transition_message, ForkTransition,
    OAuthPickerMode,
};
use pi_cli_core::transcript::{
    bash_submit_refusal, bash_transcript_text, last_assistant_message_text, BashTranscriptStatus,
};
use pi_cli_core::rpc_events::{
    compaction_result_to_json, rpc_agent_event_to_json, rpc_agent_message_to_json, rpc_bash_result_json,
    rpc_queue_update_json, RpcAgentEvent, RpcAgentMessage,
};
use pi_cli_core::session_stats::{
    render_session_info_text, rpc_session_stats_json, tally_session_messages, ContextUsage, SessionMessage, SessionTally,
    TokenUsage,
};

/// Compact JSON text of a value, members in the order they are held.
fn text(v: &JsonValue) -> String {
    match v {
        JsonValue::Null => String::from("null"),
        JsonValue::Bool(b) => b.to_string(),
        JsonValue::Number(n) => n.clone(),
        JsonValue::Str(s) => format!("\"{s}\""),
        JsonValue::Array(items) => format!("[{}]", items.iter().map(text).collect::<Vec<_>>().join(",")),
        JsonValue::Object(members) => format!(
            "{{{}}}",
            members.iter().map(|(k, v)| format!("\"{k}\":{}", text(v))).collect::<Vec<_>>().join(",")
        ),
    }
}

fn s(v: &str) -> JsonValue {
    JsonValue::Str(v.to_string())
}

fn usage(input: u64, output: u64, cache_read: u64, cache_write: u64) -> TokenUsage {
    TokenUsage { input, output, cache_read, cache_write }
}

fn sample_messages() -> Vec<SessionMessage> {
    vec![
        SessionMessage::User,
        SessionMessage::Assistant { tool_calls: 2, usage: usage(100, 20, 0, 7) },
        SessionMessage::ToolResult,
        SessionMessage::ToolResult,
        SessionMessage::Custom,
        SessionMessage::User,
        SessionMessage::Assistant { tool_calls: 0, usage: usage(50, 5, 0, 0) },
    ]
}

#[test]
fn tally_counts_messages_by_kind_and_sums_tokens() {
    let t = tally_session_messages(&sample_messages());
    assert_eq!(
        t,
        SessionTally {
            user_messages: 2,
            assistant_messages: 2,
            tool_calls: 2,
            tool_results: 2,
            total_messages: 7,
            input: 150,
            output: 25,
            cache_read: 0,
            cache_write: 7,
        }
    );
    assert_eq!(tally_session_messages(&vec![]).total_messages, 0);
}

#[test]
fn session_info_lists_counts_and_skips_zero_cache_reads() {
    let t = tally_session_messages(&sample_messages());
    let text = render_session_info_text(&t, None, None, Some("abc-123"), None);
    assert_eq!(
        text,
        "Session Info\n\nFile: In-memory\nID: abc-123\n\nMessages\nUser: 2\nAssistant: 2\nTool Calls: 2\nTool Results: 2\nTotal: 7\n\nTokens\nInput: 150\nOutput: 25\nCache Write: 7\nTotal: 182"
    );
}

#[test]
fn session_info_shows_name_file_and_cost() {
    let t = tally_session_messages(&vec![SessionMessage::Assistant { tool_calls: 1, usage: usage(1, 2, 3, 4) }]);
    let text = render_session_info_text(&t, Some("demo"), Some("/tmp/s.jsonl"), None, Some("0.0123"));
    assert_eq!(
        text,
        "Session Info\n\nName: demo\nFile: /tmp/s.jsonl\nID: In-memory\n\nMessages\nUser: 0\nAssistant: 1\nTool Calls: 1\nTool Results: 0\nTotal: 1\n\nTokens\nInput: 1\nOutput: 2\nCache Read: 3\nCache Write: 4\nTotal: 10\n\nCost\nTotal: 0.0123"
    );
}

#[test]
fn session_stats_json_reports_counts_tokens_and_cost() {
    let t = tally_session_messages(&sample_messages());
    let usage = ContextUsage { tokens: Some(1200), context_window: 200000, percent: Some(String::from("0.6")) };
    let v = rpc_session_stats_json(&t, None, None, "0.5", &usage);
    assert_eq!(
        text(&v),
        "{\"sessionFile\":null,\"sessionId\":\"In-memory\",\"userMessages\":2,\"assistantMessages\":2,\"toolCalls\":2,\"toolResults\":2,\"totalMessages\":7,\"tokens\":{\"input\":150,\"output\":25,\"cacheRead\":0,\"cacheWrite\":7,\"total\":182},\"cost\":0.5,\"contextUsage\":{\"tokens\":1200,\"contextWindow\":200000,\"percent\":0.6}}"
    );
    let unknown = ContextUsage { tokens: None, context_window: 8000, percent: Some(String::from("1")) };
    let v = rpc_session_stats_json(&t, Some("/s.jsonl"), Some("id-9"), "0", &unknown);
    assert!(text(&v).ends_with("\"contextUsage\":{\"tokens\":null,\"contextWindow\":8000,\"percent\":null}}"));
    assert!(text(&v).starts_with("{\"sessionFile\":\"/s.jsonl\",\"sessionId\":\"id-9\","));
}

#[test]
fn changelog_shows_unreleased_and_latest_release() {
    let content = "# Changelog\n\nIntro text.\n\n## [Unreleased]\n\n- pending fix\n\n## [1.2.0] - 2024-05-01\n\n- added things\n\n## [1.1.0]\n\n- older\n";
    assert_eq!(
        render_changelog_text(content),
        "## [Unreleased]\n\n- pending fix\n\n## [1.2.0] - 2024-05-01\n\n- added things"
    );
}

#[test]
fn changelog_handles_crlf_and_missing_unreleased() {
    let content = "## [2.0.0]\r\n- new\r\n## [1.0.0]\r\n- old\r\n";
    assert_eq!(render_changelog_text(content), "## [2.0.0]\n- new");
}

#[test]
fn changelog_without_sections_gives_a_notice() {
    assert_eq!(render_changelog_text(""), "No changelog entries found.");
    assert_eq!(render_changelog_text("# Title\nno sections here\n"), "No changelog entries found.");
    assert_eq!(render_changelog_text("## Notes\n- not a release\n"), "No changelog entries found.");
}

fn reply(stop: ReplyStop, overflowed: bool, over_threshold: Option<bool>) -> Option<ReplyFacts> {
    Some(ReplyFacts { stop, same_model: true, overflowed, over_threshold })
}

fn facts(last_reply: Option<ReplyFacts>, attempted: bool) -> CompactionFacts {
    CompactionFacts { enabled: true, last_reply, overflow_recovery_attempted: attempted }
}

#[test]
fn compaction_skips_when_disabled_aborted_or_other_model() {
    let mut f = facts(reply(ReplyStop::Finished, false, Some(true)), false);
    f.enabled = false;
    assert_eq!(auto_compaction_step(&f), (CompactionStep::Skip, false));
    assert_eq!(auto_compaction_step(&facts(None, false)), (CompactionStep::Skip, false));
    assert_eq!(
        auto_compaction_step(&facts(reply(ReplyStop::Aborted, true, Some(true)), false)),
        (CompactionStep::Skip, false)
    );
    let other = Some(ReplyFacts { stop: ReplyStop::Finished, same_model: false, overflowed: true, over_threshold: Some(true) });
    assert_eq!(auto_compaction_step(&facts(other, false)), (CompactionStep::Skip, false));
}

#[test]
fn compaction_recovers_an_overflow_once() {
    let first = facts(reply(ReplyStop::Error, true, None), false);
    let (step, attempted) = auto_compaction_step(&first);
    assert_eq!((step, attempted), (CompactionStep::RecoverOverflow, true));
    assert_eq!(
        auto_compaction_notice(step, true).as_deref(),
        Some("Recovering from context overflow with compaction...")
    );
    assert_eq!(auto_compaction_notice(step, false), None);
    let second = facts(reply(ReplyStop::Error, true, None), attempted);
    let (step, attempted) = auto_compaction_step(&second);
    assert_eq!((step, attempted), (CompactionStep::RecoveryFailed, true));
    assert_eq!(
        auto_compaction_notice(step, false).as_deref(),
        Some("Context overflow recovery failed after one compact-and-retry attempt. Try reducing context or switching to a larger-context model.")
    );
}

#[test]
fn compaction_follows_the_threshold() {
    let (step, _) = auto_compaction_step(&facts(reply(ReplyStop::Finished, false, Some(true)), false));
    assert_eq!(step, CompactionStep::Compact);
    assert_eq!(auto_compaction_notice(step, true).as_deref(), Some("Automatically compacted session context"));
    assert_eq!(
        auto_compaction_step(&facts(reply(ReplyStop::Finished, false, Some(false)), false)).0,
        CompactionStep::Skip
    );
    assert_eq!(auto_compaction_step(&facts(reply(ReplyStop::Error, false, None), true)), (CompactionStep::Skip, true));
}

fn source(name: &str, description: JsonValue) -> RpcCommandSource {
    RpcCommandSource { name: name.to_string(), description, source_info: JsonValue::Object(vec![]) }
}

#[test]
fn rpc_commands_list_extensions_templates_then_skills() {
    let ext = vec![source("deploy", JsonValue::Null)];
    let templates = vec![source("review", s("Review code"))];
    let skills = vec![source("pdf", s("Read PDFs"))];
    let list = rpc_command_list(&ext, &templates, &skills);
    let texts: Vec<String> = list.iter().map(text).collect();
    assert_eq!(
        texts,
        vec![
            "{\"name\":\"deploy\",\"description\":null,\"source\":\"extension\",\"sourceInfo\":{}}",
            "{\"name\":\"review\",\"description\":\"Review code\",\"source\":\"prompt\",\"sourceInfo\":{}}",
            "{\"name\":\"skill:pdf\",\"description\":\"Read PDFs\",\"source\":\"skill\",\"sourceInfo\":{}}",
        ]
    );
    let payload = rpc_commands_payload(&vec![], &vec![], &skills);
    assert_eq!(
        text(&payload),
        "{\"commands\":[{\"name\":\"skill:pdf\",\"description\":\"Read PDFs\",\"source\":\"skill\",\"sourceInfo\":{}}]}"
    );
}

#[test]
fn extension_state_reports_idle_tools_and_commands() {
    let facts = AgentStateFacts {
        model: JsonValue::Object(vec![(String::from("id"), s("m1"))]),
        thinking_level: ThinkingLevel::High,
        is_streaming: true,
        has_pending_messages: false,
        system_prompt: String::from("be brief"),
        session_name: None,
        tool_names: vec![String::from("read"), String::from("bash")],
    };
    let commands = rpc_command_list(&vec![], &vec![source("t", s("d"))], &vec![]);
    let v = rpc_extension_state_json(&facts, commands);
    assert_eq!(
        text(&v),
        "{\"model\":{\"id\":\"m1\"},\"thinkingLevel\":\"high\",\"isIdle\":false,\"hasPendingMessages\":false,\"systemPrompt\":\"be brief\",\"sessionName\":null,\"activeTools\":[\"read\",\"bash\"],\"allTools\":[\"read\",\"bash\"],\"commands\":[{\"name\":\"t\",\"description\":\"d\",\"source\":\"prompt\",\"sourceInfo\":{}}]}"
    );
}

#[test]
fn copy_json_keeps_nested_values() {
    let v = JsonValue::Object(vec![
        (String::from("a"), JsonValue::Array(vec![JsonValue::Number(String::from("1")), JsonValue::Bool(true)])),
        (String::from("b"), JsonValue::Null),
    ]);
    assert_eq!(text(&copy_json(&v)), "{\"a\":[1,true],\"b\":null}");
}

#[test]
fn agent_events_are_tagged_with_their_type() {
    assert_eq!(text(&rpc_agent_event_to_json(RpcAgentEvent::AgentStart)), "{\"type\":\"agent_start\"}");
    assert_eq!(text(&rpc_agent_event_to_json(RpcAgentEvent::TurnStart)), "{\"type\":\"turn_start\"}");
    let end = RpcAgentEvent::ToolExecutionEnd {
        tool_call_id: String::from("call-1"),
        tool_name: String::from("bash"),
        content: JsonValue::Array(vec![]),
        details: JsonValue::Null,
        is_error: true,
    };
    assert_eq!(
        text(&rpc_agent_event_to_json(end)),
        "{\"type\":\"tool_execution_end\",\"toolCallId\":\"call-1\",\"toolName\":\"bash\",\"result\":{\"content\":[],\"details\":null},\"isError\":true}"
    );
    let update = RpcAgentEvent::ToolExecutionUpdate {
        tool_call_id: String::from("c"),
        tool_name: String::from("read"),
        args: JsonValue::Object(vec![(String::from("path"), s("a.txt"))]),
        partial_content: JsonValue::Array(vec![]),
        partial_details: JsonValue::Null,
    };
    assert_eq!(
        text(&rpc_agent_event_to_json(update)),
        "{\"type\":\"tool_execution_update\",\"toolCallId\":\"c\",\"toolName\":\"read\",\"args\":{\"path\":\"a.txt\"},\"partialResult\":{\"content\":[],\"details\":null}}"
    );
}

#[test]
fn agent_end_lists_messages_in_order() {
    let custom = RpcAgentMessage::Custom {
        role: String::from("note"),
        payload: s("hi"),
        timestamp: JsonValue::Number(String::from("42")),
    };
    assert_eq!(text(&rpc_agent_message_to_json(custom)), "{\"role\":\"note\",\"payload\":\"hi\",\"timestamp\":42}");
    let event = RpcAgentEvent::AgentEnd {
        messages: vec![
            RpcAgentMessage::Standard(s("first")),
            RpcAgentMessage::Standard(s("second")),
            RpcAgentMessage::Standard(s("third")),
        ],
    };
    assert_eq!(
        text(&rpc_agent_event_to_json(event)),
        "{\"type\":\"agent_end\",\"messages\":[\"first\",\"second\",\"third\"]}"
    );
    let update =
        RpcAgentEvent::MessageUpdate { message: RpcAgentMessage::Standard(s("m")), assistant_message_event: s("delta") };
    let update = rpc_agent_event_to_json(update);
    assert_eq!(text(&update), "{\"type\":\"message_update\",\"message\":\"m\",\"assistantMessageEvent\":\"delta\"}");
    assert!(!text(&update).contains("\"assistantEvent\""));
}

#[test]
fn copy_takes_the_last_reply_with_text() {
    let parts = |v: &[&str]| Some(v.iter().map(|p| p.to_string()).collect::<Vec<_>>());
    let messages = vec![parts(&["first"]), None, parts(&[" second ", "part "]), parts(&["  "]), None, parts(&[])];
    assert_eq!(last_assistant_message_text(&messages).as_deref(), Some("second part"));
    assert_eq!(last_assistant_message_text(&vec![None, parts(&[])]), None);
    assert_eq!(last_assistant_message_text(&vec![]), None);
}

#[test]
fn session_state_reports_modes_session_and_counts() {
    let facts = RpcSessionFacts {
        model: JsonValue::Null,
        thinking_level: ThinkingLevel::Off,
        is_streaming: false,
        is_compacting: true,
        steering_mode: QueueMode::OneAtATime,
        follow_up_mode: QueueMode::All,
        session_file: None,
        session_id: None,
        session_name: Some(String::from("work")),
        auto_compaction_enabled: true,
        message_count: 12,
        has_pending_messages: true,
    };
    assert_eq!(
        text(&rpc_session_state_json(&facts)),
        "{\"model\":null,\"thinkingLevel\":\"off\",\"isStreaming\":false,\"isCompacting\":true,\"steeringMode\":\"one-at-a-time\",\"followUpMode\":\"all\",\"sessionFile\":null,\"sessionId\":\"In-memory\",\"sessionName\":\"work\",\"autoCompactionEnabled\":true,\"messageCount\":12,\"pendingMessageCount\":1}"
    );
}

#[test]
fn unknown_flags_become_a_json_object() {
    let flags = vec![
        (String::from("plan"), UnknownFlagValue::Bool(true)),
        (String::from("profile"), UnknownFlagValue::String(String::from("fast"))),
    ];
    assert_eq!(text(&unknown_flags_to_json(&flags)), "{\"plan\":true,\"profile\":\"fast\"}");
    assert_eq!(text(&unknown_flags_to_json(&vec![])), "{}");
}

#[test]
fn bash_results_report_output_and_truncation() {
    let parts = vec![String::from("line 1\n"), String::from("line 2")];
    assert_eq!(
        text(&rpc_bash_result_json(&parts, Some(0), false, &JsonValue::Object(vec![]))),
        "{\"output\":\"line 1\nline 2\",\"exitCode\":0,\"cancelled\":false,\"truncated\":false,\"fullOutputPath\":null}"
    );
    let details = JsonValue::Object(vec![(String::from("fullOutputPath"), s("/tmp/out.log"))]);
    assert_eq!(
        text(&rpc_bash_result_json(&vec![], Some(0), false, &details)),
        "{\"output\":\"\",\"exitCode\":0,\"cancelled\":false,\"truncated\":true,\"fullOutputPath\":\"/tmp/out.log\"}"
    );
    let not_a_path = JsonValue::Object(vec![(String::from("fullOutputPath"), JsonValue::Bool(true))]);
    assert!(text(&rpc_bash_result_json(&vec![], Some(0), false, &not_a_path)).contains("\"truncated\":false"));
}

#[test]
fn compaction_results_name_summary_and_kept_entry() {
    assert_eq!(
        text(&compaction_result_to_json("short", "e42", 12345, JsonValue::Null)),
        "{\"summary\":\"short\",\"firstKeptEntryId\":\"e42\",\"tokensBefore\":12345,\"details\":null}"
    );
}

#[test]
fn set_model_finds_the_named_model_or_says_which_is_missing() {
    let models = vec![
        (String::from("acme"), String::from("fast")),
        (String::from("acme"), String::from("big")),
        (String::from("other"), String::from("big")),
    ];
    assert_eq!(find_rpc_model(&models, "other", "big"), Ok(2));
    assert_eq!(find_rpc_model(&models, "acme", "big"), Ok(1));
    assert_eq!(find_rpc_model(&models, "acme", "huge"), Err(String::from("Model not found: acme/huge")));
}

fn candidate(id: &str, parent: Option<&str>, text: &str) -> ForkMessageCandidate {
    ForkMessageCandidate { entry_id: id.to_string(), parent_id: parent.map(|p| p.to_string()), text: text.to_string() }
}

#[test]
fn fork_branches_at_the_parent_or_starts_a_new_session() {
    let cs = vec![candidate("u1", None, "first"), candidate("u2", Some("a1"), "second")];
    match rpc_fork_target(&cs, "u2") {
        Ok(ForkTarget::Branch { parent_id, text }) => {
            assert_eq!(parent_id, "a1");
            assert_eq!(text, "second");
        }
        _ => panic!("expected a branch"),
    }
    match rpc_fork_target(&cs, "u1") {
        Ok(ForkTarget::NewSession { text }) => assert_eq!(text, "first"),
        _ => panic!("expected a new session"),
    }
    match rpc_fork_target(&cs, "zz") {
        Err(e) => assert_eq!(e, "Invalid entry ID for forking"),
        Ok(_) => panic!("expected an error"),
    }
}

#[test]
fn small_reply_payloads() {
    let cs = vec![candidate("u1", None, "hi")];
    assert_eq!(text(&rpc_fork_messages_json(&cs)), "{\"messages\":[{\"entryId\":\"u1\",\"text\":\"hi\"}]}");
    assert_eq!(text(&rpc_last_text_json(None)), "{\"text\":null}");
    assert_eq!(text(&rpc_last_text_json(Some(String::from("done")))), "{\"text\":\"done\"}");
    assert_eq!(text(&rpc_thinking_cycle_json(Some(ThinkingLevel::Minimal))), "{\"level\":\"minimal\"}");
    assert_eq!(text(&rpc_thinking_cycle_json(None)), "null");
}

#[test]
fn bash_entries_show_command_and_state() {
    let (label, body) = bash_transcript_text("ls -la", "Escape", false, &BashTranscriptStatus::Running);
    assert_eq!(label, "[bash]");
    assert_eq!(body, "$ ls -la\n\nRunning... (Escape to cancel)");
    let (label, body) =
        bash_transcript_text("make", "Escape", true, &BashTranscriptStatus::Failed(String::from("no such dir")));
    assert_eq!(label, "[bash no context]");
    assert_eq!(body, "$ make\n\nError: no such dir");
    let (_, body) = bash_transcript_text("x", "Esc", false, &BashTranscriptStatus::Complete(String::from("done")));
    assert_eq!(body, "done");
}

#[test]
fn a_second_bash_command_is_refused_while_one_runs() {
    assert_eq!(bash_submit_refusal(false, "ls", false, "Escape"), None);
    assert_eq!(
        bash_submit_refusal(true, "ls", true, "Escape"),
        Some((
            String::from("!!ls"),
            String::from("A bash command is already running. Press Escape to cancel it first.")
        ))
    );
    assert_eq!(bash_submit_refusal(true, "pwd", false, "Ctrl+C").map(|r| r.0).as_deref(), Some("!pwd"));
}

#[test]
fn settings_transition_reports_where_changes_went() {
    assert_eq!(settings_transition_message(false, true), "Settings unchanged");
    assert_eq!(settings_transition_message(true, true), "Updated settings");
    assert_eq!(settings_transition_message(true, false), "Updated session settings");
}

#[test]
fn interactive_fork_prefills_the_chosen_message() {
    let none: Vec<ForkMessageCandidate> = vec![];
    let t = fork_transition(&none, Some("u1")).unwrap();
    assert!(matches!(t, ForkTransition::NothingToFork));
    assert_eq!(fork_transition_message(&t), Some("No messages to fork from"));
    let cs = vec![candidate("u1", None, "first"), candidate("u2", Some("a1"), "second")];
    let t = fork_transition(&cs, None).unwrap();
    assert!(matches!(t, ForkTransition::Cancelled));
    assert_eq!(fork_transition_message(&t), None);
    match fork_transition(&cs, Some("u2")).unwrap() {
        ForkTransition::Branch { parent_id, prefill } => {
            assert_eq!(parent_id, "a1");
            assert_eq!(prefill, "second");
        }
        _ => panic!("expected a branch"),
    }
    let t = fork_transition(&cs, Some("u1")).unwrap();
    assert!(matches!(&t, ForkTransition::NewSession { prefill } if prefill == "first"));
    assert_eq!(fork_transition_message(&t), Some("Branched to new session"));
    match fork_transition(&cs, Some("gone")) {
        Err(e) => assert_eq!(e, "Fork selection is no longer available"),
        Ok(_) => panic!("expected an error"),
    }
}

#[test]
fn oauth_pickers_open_only_with_providers() {
    assert_eq!(oauth_picker_status(OAuthPickerMode::Login, &Ok(vec![String::from("acme")])), None);
    assert_eq!(
        oauth_picker_status(OAuthPickerMode::Login, &Ok(vec![])).as_deref(),
        Some("No OAuth providers available")
    );
    assert_eq!(
        oauth_picker_status(OAuthPickerMode::Logout, &Ok(vec![])).as_deref(),
        Some("No OAuth providers logged in. Use /login first.")
    );
    assert_eq!(
        oauth_picker_status(OAuthPickerMode::Logout, &Err(String::from("bad auth file"))).as_deref(),
        Some("Error: bad auth file")
    );
}

#[test]
fn slash_outcomes_are_reported() {
    assert_eq!(
        slash_outcome_message(&SlashOutcome::Exported(Ok(String::from("/tmp/s.html")))),
        "Session exported to: /tmp/s.html"
    );
    assert_eq!(
        slash_outcome_message(&SlashOutcome::Shared(Ok((String::from("https://v/#1"), String::from("https://g/1"))))),
        "Share URL: https://v/#1\nGist: https://g/1"
    );
    assert_eq!(slash_outcome_message(&SlashOutcome::Copied(Ok(()))), "Copied last assistant message to clipboard");
    assert_eq!(slash_outcome_message(&SlashOutcome::Copied(Err(String::from("no clipboard")))), "Error: no clipboard");
    assert_eq!(slash_outcome_message(&SlashOutcome::NameShown(String::from("work"))), "Session name: work");
    assert_eq!(slash_outcome_message(&SlashOutcome::NameSet(Ok(String::from("work")))), "Session name set: work");
    assert_eq!(slash_outcome_message(&SlashOutcome::Compacted(Ok(true))), "Compacted session context");
    assert_eq!(slash_outcome_message(&SlashOutcome::Compacted(Ok(false))), "Nothing to compact");
}

#[test]
fn bash_results_carry_the_exit_status() {
    let parts = vec![String::from("rpc bash output")];
    let result = text(&rpc_bash_result_json(&parts, Some(7), false, &JsonValue::Null));
    assert_eq!(
        result,
        "{\"output\":\"rpc bash output\",\"exitCode\":7,\"cancelled\":false,\"truncated\":false,\"fullOutputPath\":null}"
    );
    assert!(text(&rpc_bash_result_json(&parts, Some(-2), false, &JsonValue::Null)).contains("\"exitCode\":-2"));
    assert!(text(&rpc_bash_result_json(&vec![], None, true, &JsonValue::Null))
        .contains("\"exitCode\":null,\"cancelled\":true"));
}

#[test]
fn queue_updates_list_steering_and_follow_up_messages() {
    let steering = vec![String::from("queued steer")];
    assert_eq!(
        text(&rpc_queue_update_json(&steering, &vec![])),
        "{\"type\":\"queue_update\",\"steering\":[\"queued steer\"],\"followUp\":[]}"
    );
    assert_eq!(
        text(&rpc_queue_update_json(&vec![], &vec![String::from("a"), String::from("b")])),
        "{\"type\":\"queue_update\",\"steering\":[],\"followUp\":[\"a\",\"b\"]}"
    );
}
