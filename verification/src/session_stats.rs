//! What a session's messages add up to: the counts and token totals that
//! the session-info text and the RPC session statistics report.
use vstd::prelude::*;
use crate::listnav::{decimal, decimal_chars};
use crate::messages::{join_lines_chars, joined_lines};
use crate::rpc::{json_model, members_of, JsonModel, JsonValue};
use crate::text::{chars_of, extend_chars, owned, push_str_chars, string_from_chars, trim_end_chars, trim_end_seq};

verus! {

/// The tokens one assistant reply used.
#[derive(Clone, Copy, Debug, PartialEq, Eq, Structural)]
pub struct TokenUsage {
    pub input: u64,
    pub output: u64,
    pub cache_read: u64,
    pub cache_write: u64,
}

/// One message of a session, as far as the statistics read it.
#[derive(Clone, Copy, Debug, PartialEq, Eq, Structural)]
pub enum SessionMessage {
    User,
    /// A reply: how many tool calls it holds and the tokens it used.
    Assistant { tool_calls: usize, usage: TokenUsage },
    ToolResult,
    /// A message of an extension's own kind: it counts in the total only.
    Custom,
}

/// The statistics of a run of messages, as mathematical integers.
pub struct TallyView {
    pub user: nat,
    pub assistant: nat,
    pub tool_calls: nat,
    pub tool_results: nat,
    pub total: nat,
    pub input: nat,
    pub output: nat,
    pub cache_read: nat,
    pub cache_write: nat,
}

/// The statistics of no messages.
pub open spec fn empty_tally() -> TallyView {
    TallyView {
        user: 0,
        assistant: 0,
        tool_calls: 0,
        tool_results: 0,
        total: 0,
        input: 0,
        output: 0,
        cache_read: 0,
        cache_write: 0,
    }
}

/// The statistics `t` with one more message `m` counted.
pub open spec fn tally_step(t: TallyView, m: SessionMessage) -> TallyView {
    match m {
        SessionMessage::User => TallyView {
            user: t.user + 1,
            assistant: t.assistant,
            tool_calls: t.tool_calls,
            tool_results: t.tool_results,
            total: t.total + 1,
            input: t.input,
            output: t.output,
            cache_read: t.cache_read,
            cache_write: t.cache_write,
        },
        SessionMessage::Assistant { tool_calls, usage } => TallyView {
            user: t.user,
            assistant: t.assistant + 1,
            tool_calls: t.tool_calls + tool_calls as nat,
            tool_results: t.tool_results,
            total: t.total + 1,
            input: t.input + usage.input as nat,
            output: t.output + usage.output as nat,
            cache_read: t.cache_read + usage.cache_read as nat,
            cache_write: t.cache_write + usage.cache_write as nat,
        },
        SessionMessage::ToolResult => TallyView {
            user: t.user,
            assistant: t.assistant,
            tool_calls: t.tool_calls,
            tool_results: t.tool_results + 1,
            total: t.total + 1,
            input: t.input,
            output: t.output,
            cache_read: t.cache_read,
            cache_write: t.cache_write,
        },
        SessionMessage::Custom => TallyView {
            user: t.user,
            assistant: t.assistant,
            tool_calls: t.tool_calls,
            tool_results: t.tool_results,
            total: t.total + 1,
            input: t.input,
            output: t.output,
            cache_read: t.cache_read,
            cache_write: t.cache_write,
        },
    }
}

/// The statistics of `msgs`: how many user, assistant and tool-result
/// messages there are, how many tool calls the replies hold, how many
/// messages in all, and the token sums of the replies.
pub open spec fn tally(msgs: Seq<SessionMessage>) -> TallyView
    decreases msgs.len(),
{
    if msgs.len() == 0 {
        empty_tally()
    } else {
        tally_step(tally(msgs.drop_last()), msgs.last())
    }
}

/// The sums of `t` that are kept in machine integers fit them.
pub open spec fn tally_fits(t: TallyView) -> bool {
    &&& t.tool_calls <= usize::MAX
    &&& t.input <= u64::MAX
    &&& t.output <= u64::MAX
    &&& t.cache_read <= u64::MAX
    &&& t.cache_write <= u64::MAX
}

/// The counts never exceed the number of messages, which is the total.
pub proof fn lemma_tally_counts(msgs: Seq<SessionMessage>)
    ensures
        tally(msgs).total == msgs.len(),
        tally(msgs).user + tally(msgs).assistant + tally(msgs).tool_results <= msgs.len(),
    decreases msgs.len(),
{
    if msgs.len() > 0 {
        lemma_tally_counts(msgs.drop_last());
    }
}

/// Counting fewer messages never gives larger sums.
pub proof fn lemma_tally_prefix(msgs: Seq<SessionMessage>, i: int)
    requires
        0 <= i <= msgs.len(),
    ensures
        tally(msgs.take(i)).tool_calls <= tally(msgs).tool_calls,
        tally(msgs.take(i)).input <= tally(msgs).input,
        tally(msgs.take(i)).output <= tally(msgs).output,
        tally(msgs.take(i)).cache_read <= tally(msgs).cache_read,
        tally(msgs.take(i)).cache_write <= tally(msgs).cache_write,
    decreases msgs.len(),
{
    if i == msgs.len() {
        assert(msgs.take(i) =~= msgs);
    } else {
        lemma_tally_prefix(msgs.drop_last(), i);
        assert(msgs.drop_last().take(i) =~= msgs.take(i));
    }
}

/// The statistics as the library keeps them.
#[derive(Clone, Copy, Debug, PartialEq, Eq, Structural)]
pub struct SessionTally {
    pub user_messages: usize,
    pub assistant_messages: usize,
    pub tool_calls: usize,
    pub tool_results: usize,
    pub total_messages: usize,
    pub input: u64,
    pub output: u64,
    pub cache_read: u64,
    pub cache_write: u64,
}

impl View for SessionTally {
    type V = TallyView;

    open spec fn view(&self) -> TallyView {
        TallyView {
            user: self.user_messages as nat,
            assistant: self.assistant_messages as nat,
            tool_calls: self.tool_calls as nat,
            tool_results: self.tool_results as nat,
            total: self.total_messages as nat,
            input: self.input as nat,
            output: self.output as nat,
            cache_read: self.cache_read as nat,
            cache_write: self.cache_write as nat,
        }
    }
}

/// Counts the messages of a session (see `tally`).
pub fn tally_session_messages(messages: &Vec<SessionMessage>) -> (r: SessionTally)
    requires
        tally_fits(tally(messages@)),
    ensures
        r@ == tally(messages@),
{
    let mut t = SessionTally {
        user_messages: 0,
        assistant_messages: 0,
        tool_calls: 0,
        tool_results: 0,
        total_messages: 0,
        input: 0,
        output: 0,
        cache_read: 0,
        cache_write: 0,
    };
    let mut i: usize = 0;
    assert(messages@.take(0) =~= seq![]);
    while i < messages.len()
        invariant
            0 <= i <= messages@.len(),
            tally_fits(tally(messages@)),
            t@ == tally(messages@.take(i as int)),
        decreases messages@.len() - i,
    {
        let ghost next = messages@.take(i + 1);
        assert(next.drop_last() =~= messages@.take(i as int));
        assert(next.last() == messages@[i as int]);
        proof {
            lemma_tally_prefix(messages@, i + 1);
            lemma_tally_counts(next);
            lemma_tally_counts(messages@.take(i as int));
        }
        match messages[i] {
            SessionMessage::User => {
                t.user_messages = t.user_messages + 1;
            },
            SessionMessage::Assistant { tool_calls, usage } => {
                t.assistant_messages = t.assistant_messages + 1;
                t.tool_calls = t.tool_calls + tool_calls;
                t.input = t.input + usage.input;
                t.output = t.output + usage.output;
                t.cache_read = t.cache_read + usage.cache_read;
                t.cache_write = t.cache_write + usage.cache_write;
            },
            SessionMessage::ToolResult => {
                t.tool_results = t.tool_results + 1;
            },
            SessionMessage::Custom => {},
        }
        t.total_messages = t.total_messages + 1;
        i = i + 1;
    }
    assert(messages@.take(messages@.len() as int) =~= messages@);
    t
}


/// `value`, or `In-memory` where there is none.
pub open spec fn or_in_memory(value: Option<Seq<char>>) -> Seq<char> {
    match value {
        Some(v) => v,
        None => "In-memory"@,
    }
}

/// All tokens the replies used.
pub open spec fn token_total(t: TallyView) -> nat {
    t.input + t.output + t.cache_read + t.cache_write
}

/// The head of the session-info text: the title, then the session's name
/// (where it has one), file and id.
pub open spec fn session_head_lines(name: Option<Seq<char>>, file: Option<Seq<char>>, id: Option<Seq<char>>) -> Seq<
    Seq<char>,
> {
    seq!["Session Info"@, seq![]] + (match name {
        Some(n) => seq!["Name: "@ + n],
        None => seq![],
    }) + seq!["File: "@ + or_in_memory(file), "ID: "@ + or_in_memory(id)]
}

/// The message counts of the session-info text.
pub open spec fn session_count_lines(t: TallyView) -> Seq<Seq<char>> {
    seq![
        seq![],
        "Messages"@,
        "User: "@ + decimal(t.user),
        "Assistant: "@ + decimal(t.assistant),
        "Tool Calls: "@ + decimal(t.tool_calls),
        "Tool Results: "@ + decimal(t.tool_results),
        "Total: "@ + decimal(t.total),
    ]
}

/// The token sums of the session-info text: cache lines only where they
/// are not zero.
pub open spec fn session_token_lines(t: TallyView) -> Seq<Seq<char>> {
    seq![seq![], "Tokens"@, "Input: "@ + decimal(t.input), "Output: "@ + decimal(t.output)] + (if t.cache_read
        > 0 {
        seq!["Cache Read: "@ + decimal(t.cache_read)]
    } else {
        seq![]
    }) + (if t.cache_write > 0 {
        seq!["Cache Write: "@ + decimal(t.cache_write)]
    } else {
        seq![]
    }) + seq!["Total: "@ + decimal(token_total(t))]
}

/// The cost lines of the session-info text, where a cost is given.
pub open spec fn session_cost_lines(cost: Option<Seq<char>>) -> Seq<Seq<char>> {
    match cost {
        Some(c) => seq![seq![], "Cost"@, "Total: "@ + c],
        None => seq![],
    }
}

/// The lines of the session-info text.
pub open spec fn session_info_lines(
    t: TallyView,
    name: Option<Seq<char>>,
    file: Option<Seq<char>>,
    id: Option<Seq<char>>,
    cost: Option<Seq<char>>,
) -> Seq<Seq<char>> {
    session_head_lines(name, file, id) + session_count_lines(t) + session_token_lines(t) + session_cost_lines(cost)
}

/// The session-info text: its lines, without trailing whitespace.
pub open spec fn session_info(
    t: TallyView,
    name: Option<Seq<char>>,
    file: Option<Seq<char>>,
    id: Option<Seq<char>>,
    cost: Option<Seq<char>>,
) -> Seq<char> {
    trim_end_seq(joined_lines(session_info_lines(t, name, file, id, cost)))
}

/// The view of an optional string.
pub open spec fn opt_view(s: Option<&str>) -> Option<Seq<char>> {
    match s {
        Some(v) => Some(v@),
        None => None,
    }
}

/// Appends a line.
fn add_line(lines: &mut Vec<Vec<char>>, line: Vec<char>)
    ensures
        final(lines)@.map_values(|l: Vec<char>| l@) == old(lines)@.map_values(|l: Vec<char>| l@).push(line@),
{
    let ghost before = lines@;
    lines.push(line);
    assert(lines@.map_values(|l: Vec<char>| l@) =~= before.map_values(|l: Vec<char>| l@).push(line@));
}

/// `label` followed by `n` in decimal.
fn number_line(label: &str, n: u64) -> (r: Vec<char>)
    ensures
        r@ == label@ + decimal(n as nat),
{
    let mut v = chars_of(label);
    let d = decimal_chars(n);
    extend_chars(&mut v, &d);
    v
}

/// `label` followed by `value`.
fn text_line(label: &str, value: &str) -> (r: Vec<char>)
    ensures
        r@ == label@ + value@,
{
    let mut v = chars_of(label);
    push_str_chars(&mut v, value);
    v
}

/// Appends `more` to `lines`.
fn append_lines(lines: &mut Vec<Vec<char>>, more: Vec<Vec<char>>)
    ensures
        final(lines)@.map_values(|l: Vec<char>| l@) == old(lines)@.map_values(|l: Vec<char>| l@) + more@.map_values(
            |l: Vec<char>| l@,
        ),
{
    let ghost before = lines@;
    let mut more = more;
    let ghost ms = more@;
    lines.append(&mut more);
    assert(lines@.map_values(|l: Vec<char>| l@) =~= before.map_values(|l: Vec<char>| l@) + ms.map_values(
        |l: Vec<char>| l@,
    ));
}

/// The head lines (see `session_head_lines`).
fn head_lines(session_name: Option<&str>, session_file: Option<&str>, session_id: Option<&str>) -> (r: Vec<Vec<char>>)
    ensures
        r@.map_values(|l: Vec<char>| l@) == session_head_lines(opt_view(session_name), opt_view(session_file), opt_view(session_id)),
{
    proof {
        reveal_strlit("In-memory");
    }
    let mut lines: Vec<Vec<char>> = Vec::new();
    add_line(&mut lines, chars_of("Session Info"));
    add_line(&mut lines, Vec::new());
    if let Some(n) = session_name {
        add_line(&mut lines, text_line("Name: ", n));
    }
    match session_file {
        Some(f) => add_line(&mut lines, text_line("File: ", f)),
        None => add_line(&mut lines, text_line("File: ", "In-memory")),
    }
    match session_id {
        Some(i) => add_line(&mut lines, text_line("ID: ", i)),
        None => add_line(&mut lines, text_line("ID: ", "In-memory")),
    }
    assert(lines@.map_values(|l: Vec<char>| l@) =~= session_head_lines(
        opt_view(session_name),
        opt_view(session_file),
        opt_view(session_id),
    ));
    lines
}

/// The count lines (see `session_count_lines`).
fn count_lines(tally: &SessionTally) -> (r: Vec<Vec<char>>)
    ensures
        r@.map_values(|l: Vec<char>| l@) == session_count_lines(tally@),
{
    let mut lines: Vec<Vec<char>> = Vec::new();
    add_line(&mut lines, Vec::new());
    add_line(&mut lines, chars_of("Messages"));
    add_line(&mut lines, number_line("User: ", tally.user_messages as u64));
    add_line(&mut lines, number_line("Assistant: ", tally.assistant_messages as u64));
    add_line(&mut lines, number_line("Tool Calls: ", tally.tool_calls as u64));
    add_line(&mut lines, number_line("Tool Results: ", tally.tool_results as u64));
    add_line(&mut lines, number_line("Total: ", tally.total_messages as u64));
    assert(lines@.map_values(|l: Vec<char>| l@) =~= session_count_lines(tally@));
    lines
}

/// The token lines (see `session_token_lines`).
fn token_lines(tally: &SessionTally) -> (r: Vec<Vec<char>>)
    requires
        token_total(tally@) <= u64::MAX,
    ensures
        r@.map_values(|l: Vec<char>| l@) == session_token_lines(tally@),
{
    let mut lines: Vec<Vec<char>> = Vec::new();
    add_line(&mut lines, Vec::new());
    add_line(&mut lines, chars_of("Tokens"));
    add_line(&mut lines, number_line("Input: ", tally.input));
    add_line(&mut lines, number_line("Output: ", tally.output));
    if tally.cache_read > 0 {
        add_line(&mut lines, number_line("Cache Read: ", tally.cache_read));
    }
    if tally.cache_write > 0 {
        add_line(&mut lines, number_line("Cache Write: ", tally.cache_write));
    }
    let total = tally.input + tally.output + tally.cache_read + tally.cache_write;
    add_line(&mut lines, number_line("Total: ", total));
    assert(lines@.map_values(|l: Vec<char>| l@) =~= session_token_lines(tally@));
    lines
}

/// The session-info text (see `session_info`). The session's id is the
/// one its file records, else the agent's; the cost is the formatted total
/// where the replies cost anything.
pub fn render_session_info_text(
    tally: &SessionTally,
    session_name: Option<&str>,
    session_file: Option<&str>,
    session_id: Option<&str>,
    cost_total: Option<&str>,
) -> (r: String)
    requires
        token_total(tally@) <= u64::MAX,
    ensures
        r@ == session_info(tally@, opt_view(session_name), opt_view(session_file), opt_view(session_id), opt_view(cost_total)),
{
    let mut lines = head_lines(session_name, session_file, session_id);
    append_lines(&mut lines, count_lines(tally));
    append_lines(&mut lines, token_lines(tally));
    if let Some(c) = cost_total {
        add_line(&mut lines, Vec::new());
        add_line(&mut lines, chars_of("Cost"));
        add_line(&mut lines, text_line("Total: ", c));
    }
    assert(lines@.map_values(|l: Vec<char>| l@) =~= session_info_lines(
        tally@,
        opt_view(session_name),
        opt_view(session_file),
        opt_view(session_id),
        opt_view(cost_total),
    ));
    let joined = join_lines_chars(&lines);
    let trimmed = trim_end_chars(&joined);
    string_from_chars(&trimmed)
}


/// A whole number as JSON.
pub open spec fn number_model(n: nat) -> JsonModel {
    JsonModel::Number(decimal(n))
}

/// The token sums as the RPC statistics give them.
pub open spec fn tokens_model(t: TallyView) -> JsonModel {
    JsonModel::Object(token_members(t))
}

/// The members of `tokens_model`.
pub open spec fn token_members(t: TallyView) -> Seq<(Seq<char>, JsonModel)> {
        seq![
            ("input"@, number_model(t.input)),
            ("output"@, number_model(t.output)),
            ("cacheRead"@, number_model(t.cache_read)),
            ("cacheWrite"@, number_model(t.cache_write)),
            ("total"@, number_model(token_total(t))),
        ]
}

/// How full the model's context window is.
pub struct ContextUsage {
    /// The tokens the context holds, where they can be estimated.
    pub tokens: Option<u64>,
    /// The model's context window, in tokens.
    pub context_window: u64,
    /// `tokens` as a percentage of the window, a JSON number given as its
    /// text (computed in floating point by the caller); none where the
    /// tokens are unknown.
    pub percent: Option<String>,
}

/// The context usage as JSON: the tokens (null where unknown), the
/// window, and the percentage (null where the tokens are unknown).
pub open spec fn context_usage_model(u: ContextUsage) -> JsonModel {
    JsonModel::Object(
        seq![
            ("tokens"@, match u.tokens {
                Some(n) => number_model(n as nat),
                None => JsonModel::Null,
            }),
            ("contextWindow"@, number_model(u.context_window as nat)),
            ("percent"@, match (u.tokens, u.percent) {
                (Some(_), Some(p)) => JsonModel::Number(p@),
                _ => JsonModel::Null,
            }),
        ],
    )
}

/// The RPC session statistics: the session's file (null where it has none)
/// and id, the message counts, the token sums, the cost (a JSON number
/// given as its text) and the context usage.
pub open spec fn session_stats_model(
    t: TallyView,
    file: Option<Seq<char>>,
    id: Option<Seq<char>>,
    cost: Seq<char>,
    usage: ContextUsage,
) -> JsonModel {
    JsonModel::Object(session_stats_members(t, file, id, cost, usage))
}

/// The members of `session_stats_model`.
pub open spec fn session_stats_members(
    t: TallyView,
    file: Option<Seq<char>>,
    id: Option<Seq<char>>,
    cost: Seq<char>,
    usage: ContextUsage,
) -> Seq<(Seq<char>, JsonModel)> {
        seq![
            ("sessionFile"@, match file {
                Some(f) => JsonModel::Str(f),
                None => JsonModel::Null,
            }),
            ("sessionId"@, JsonModel::Str(or_in_memory(id))),
            ("userMessages"@, number_model(t.user)),
            ("assistantMessages"@, number_model(t.assistant)),
            ("toolCalls"@, number_model(t.tool_calls)),
            ("toolResults"@, number_model(t.tool_results)),
            ("totalMessages"@, number_model(t.total)),
            ("tokens"@, tokens_model(t)),
            ("cost"@, JsonModel::Number(cost)),
            ("contextUsage"@, context_usage_model(usage)),
        ]
}

/// The RPC statistics of a session's messages give the number of messages
/// as `totalMessages`, user, assistant and tool-result counts that add up
/// to no more than that, and as token `total` the sum of the four token
/// counts.
pub proof fn lemma_session_stats_counts(
    msgs: Seq<SessionMessage>,
    file: Option<Seq<char>>,
    id: Option<Seq<char>>,
    cost: Seq<char>,
    usage: ContextUsage,
)
    ensures
        ({
            let t = tally(msgs);
            let ms = session_stats_members(t, file, id, cost, usage);
            &&& ms[6] == ("totalMessages"@, number_model(msgs.len()))
            &&& ms[2].1 == number_model(t.user) && ms[3].1 == number_model(t.assistant) && ms[5].1
                == number_model(t.tool_results)
            &&& t.user + t.assistant + t.tool_results <= msgs.len()
            &&& ms[7] == ("tokens"@, tokens_model(t))
            &&& token_members(t)[4] == ("total"@, number_model(t.input + t.output + t.cache_read + t.cache_write))
            &&& crate::rpc::member(ms, "totalMessages"@) == Some(number_model(msgs.len()))
            &&& crate::rpc::member(ms, "contextUsage"@) == Some(context_usage_model(usage))
        }),
{
    lemma_tally_counts(msgs);
    reveal_strlit("totalMessages");
    reveal_strlit("tokens");
    reveal_strlit("cost");
    reveal_strlit("contextUsage");
    assert("totalMessages"@.len() != "contextUsage"@.len());
    assert("totalMessages"@.len() != "cost"@.len());
    assert("totalMessages"@.len() != "tokens"@.len());
    let ms = session_stats_members(tally(msgs), file, id, cost, usage);
    assert(ms.drop_last().drop_last().drop_last().last() == ms[6]);
    reveal_with_fuel(crate::rpc::member, 4);
}

/// A whole number as a JSON value.
fn number_value(n: u64) -> (r: JsonValue)
    ensures
        json_model(r) == number_model(n as nat),
{
    let d = decimal_chars(n);
    JsonValue::Number(string_from_chars(&d))
}

/// A member of a JSON object.
fn member_entry(key: &str, value: JsonValue) -> (r: (String, JsonValue))
    ensures
        r.0@ == key@,
        r.1 == value,
{
    (owned(key), value)
}

/// The token sums (see `tokens_model`).
fn tokens_value(tally: &SessionTally) -> (r: JsonValue)
    requires
        token_total(tally@) <= u64::MAX,
    ensures
        json_model(r) == tokens_model(tally@),
{
    let total = tally.input + tally.output + tally.cache_read + tally.cache_write;
    let mut ms: Vec<(String, JsonValue)> = Vec::new();
    ms.push(member_entry("input", number_value(tally.input)));
    ms.push(member_entry("output", number_value(tally.output)));
    ms.push(member_entry("cacheRead", number_value(tally.cache_read)));
    ms.push(member_entry("cacheWrite", number_value(tally.cache_write)));
    ms.push(member_entry("total", number_value(total)));
    let r = JsonValue::Object(ms);
    assert(members_of(r) =~= token_members(tally@));
    r
}

/// The context usage as a JSON value (see `context_usage_model`).
fn context_usage_value(usage: &ContextUsage) -> (r: JsonValue)
    ensures
        json_model(r) == context_usage_model(*usage),
{
    let tokens = match usage.tokens {
        Some(n) => number_value(n),
        None => JsonValue::Null,
    };
    let percent = match (usage.tokens, &usage.percent) {
        (Some(_), Some(p)) => JsonValue::Number(owned(p.as_str())),
        _ => JsonValue::Null,
    };
    let r = JsonValue::Object(
        vec![
            member_entry("tokens", tokens),
            member_entry("contextWindow", number_value(usage.context_window)),
            member_entry("percent", percent),
        ],
    );
    proof {
        reveal_with_fuel(json_model, 2);
        if let JsonModel::Object(expected) = context_usage_model(*usage) {
            assert(members_of(r) =~= expected);
        }
    }
    r
}

/// The RPC session statistics (see `session_stats_model`).
pub fn rpc_session_stats_json(
    tally: &SessionTally,
    session_file: Option<&str>,
    session_id: Option<&str>,
    cost: &str,
    usage: &ContextUsage,
) -> (r: JsonValue)
    requires
        token_total(tally@) <= u64::MAX,
    ensures
        json_model(r) == session_stats_model(tally@, opt_view(session_file), opt_view(session_id), cost@, *usage),
{
    proof {
        reveal_strlit("In-memory");
        reveal_with_fuel(json_model, 2);
    }
    let mut ms: Vec<(String, JsonValue)> = Vec::new();
    let file = match session_file {
        Some(f) => JsonValue::Str(owned(f)),
        None => JsonValue::Null,
    };
    ms.push(member_entry("sessionFile", file));
    let id = match session_id {
        Some(i) => owned(i),
        None => owned("In-memory"),
    };
    ms.push(member_entry("sessionId", JsonValue::Str(id)));
    ms.push(member_entry("userMessages", number_value(tally.user_messages as u64)));
    ms.push(member_entry("assistantMessages", number_value(tally.assistant_messages as u64)));
    ms.push(member_entry("toolCalls", number_value(tally.tool_calls as u64)));
    ms.push(member_entry("toolResults", number_value(tally.tool_results as u64)));
    ms.push(member_entry("totalMessages", number_value(tally.total_messages as u64)));
    ms.push(member_entry("tokens", tokens_value(tally)));
    ms.push(member_entry("cost", JsonValue::Number(owned(cost))));
    ms.push(member_entry("contextUsage", context_usage_value(usage)));
    let r = JsonValue::Object(ms);
    assert(members_of(r) =~= session_stats_members(
        tally@,
        opt_view(session_file),
        opt_view(session_id),
        cost@,
        *usage,
    ));
    r
}

} // verus!
