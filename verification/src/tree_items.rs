//! The rows of the session-tree picker: each entry of the session tree
//! described on one line, drawn with box characters under its parent.
use vstd::prelude::*;
use crate::list_picker::{concat_parts, extract_user_text};
use crate::listnav::views;
use crate::text::{
    chars_of, extend_chars, owned, push_str_chars, sanitize_display_text, sanitized_seq, string_from_chars,
    truncate_text_for_tree, truncated_for_tree, trim_seq,
};
use crate::tree_picker::TreePickerItem;

verus! {

/// What a session entry is, as far as the tree shows it.
pub enum TreeEntryKind {
    /// A user message, with the text of each of its text parts.
    UserMessage(Vec<String>),
    /// An assistant message, with the text of each of its text parts.
    AssistantMessage(Vec<String>),
    /// The result of the named tool.
    ToolResult(String),
    /// A message of a kind that is not one of the standard ones.
    CustomMessage,
    /// A change of thinking level, to the named level.
    ThinkingLevelChange(String),
    ModelChange { provider: String, model_id: String },
    /// A compaction, with its summary.
    Compaction(String),
    /// A summary of an abandoned branch.
    BranchSummary(String),
    /// Extension data of the named type.
    Custom(String),
    /// An extension message of the named type, with the text of each of
    /// its text parts (a message of plain text has one part).
    CustomMessageEntry { custom_type: String, text_parts: Vec<String> },
    /// Session metadata, with the session name if one was set.
    SessionInfo(Option<String>),
    /// A label entry: not shown itself; its children are.
    Label,
}

/// A node of the session tree.
pub struct TreeNodeInfo {
    pub id: String,
    pub kind: TreeEntryKind,
    /// The label attached to the entry, if any.
    pub label: Option<String>,
    pub children: Vec<TreeNodeInfo>,
}

/// The one-line description of an entry; none for a label.
pub open spec fn description_of(id: Seq<char>, kind: TreeEntryKind) -> Option<Seq<char>> {
    match kind {
        TreeEntryKind::UserMessage(parts) => Some(
            id + " user: "@ + truncated_for_tree(trim_seq(concat_parts(views(parts@))), 72),
        ),
        TreeEntryKind::AssistantMessage(parts) => Some(
            id + " assistant: "@ + truncated_for_tree(trim_seq(concat_parts(views(parts@))), 72),
        ),
        TreeEntryKind::ToolResult(name) => Some(id + " tool result: "@ + name@),
        TreeEntryKind::CustomMessage => Some(id + " custom message"@),
        TreeEntryKind::ThinkingLevelChange(level) => Some(id + " thinking: "@ + level@),
        TreeEntryKind::ModelChange { provider, model_id } => Some(
            id + " model: "@ + provider@ + seq!['/'] + model_id@,
        ),
        TreeEntryKind::Compaction(summary) => Some(id + " compaction: "@ + truncated_for_tree(summary@, 72)),
        TreeEntryKind::BranchSummary(summary) => Some(
            id + " branch summary: "@ + truncated_for_tree(summary@, 72),
        ),
        TreeEntryKind::Custom(custom_type) => Some(id + " custom: "@ + custom_type@),
        TreeEntryKind::CustomMessageEntry { custom_type, text_parts } => Some(
            id + seq![' '] + custom_type@ + ": "@ + truncated_for_tree(trim_seq(concat_parts(views(text_parts@))), 72),
        ),
        TreeEntryKind::SessionInfo(name) => Some(
            id + " session: "@ + match name {
                Some(n) => n@,
                None => "(unnamed)"@,
            },
        ),
        TreeEntryKind::Label => None,
    }
}

/// Describes an entry (see `description_of`).
pub fn describe_session_tree_entry(id: &str, kind: &TreeEntryKind) -> (r: Option<String>)
    ensures
        crate::slash::opt_view(r) == description_of(id@, *kind),
{
    let mut v = chars_of(id);
    match kind {
        TreeEntryKind::UserMessage(parts) => {
            push_str_chars(&mut v, " user: ");
            let text = extract_user_text(parts);
            let t = truncate_text_for_tree(text.as_str(), 72);
            push_str_chars(&mut v, t.as_str());
        },
        TreeEntryKind::AssistantMessage(parts) => {
            push_str_chars(&mut v, " assistant: ");
            let text = extract_user_text(parts);
            let t = truncate_text_for_tree(text.as_str(), 72);
            push_str_chars(&mut v, t.as_str());
        },
        TreeEntryKind::ToolResult(name) => {
            push_str_chars(&mut v, " tool result: ");
            push_str_chars(&mut v, name.as_str());
        },
        TreeEntryKind::CustomMessage => {
            push_str_chars(&mut v, " custom message");
        },
        TreeEntryKind::ThinkingLevelChange(level) => {
            push_str_chars(&mut v, " thinking: ");
            push_str_chars(&mut v, level.as_str());
        },
        TreeEntryKind::ModelChange { provider, model_id } => {
            push_str_chars(&mut v, " model: ");
            push_str_chars(&mut v, provider.as_str());
            v.push('/');
            push_str_chars(&mut v, model_id.as_str());
        },
        TreeEntryKind::Compaction(summary) => {
            push_str_chars(&mut v, " compaction: ");
            let t = truncate_text_for_tree(summary.as_str(), 72);
            push_str_chars(&mut v, t.as_str());
        },
        TreeEntryKind::BranchSummary(summary) => {
            push_str_chars(&mut v, " branch summary: ");
            let t = truncate_text_for_tree(summary.as_str(), 72);
            push_str_chars(&mut v, t.as_str());
        },
        TreeEntryKind::Custom(custom_type) => {
            push_str_chars(&mut v, " custom: ");
            push_str_chars(&mut v, custom_type.as_str());
        },
        TreeEntryKind::CustomMessageEntry { custom_type, text_parts } => {
            v.push(' ');
            push_str_chars(&mut v, custom_type.as_str());
            push_str_chars(&mut v, ": ");
            let text = extract_user_text(text_parts);
            let t = truncate_text_for_tree(text.as_str(), 72);
            push_str_chars(&mut v, t.as_str());
        },
        TreeEntryKind::SessionInfo(name) => {
            push_str_chars(&mut v, " session: ");
            match name {
                Some(n) => push_str_chars(&mut v, n.as_str()),
                None => push_str_chars(&mut v, "(unnamed)"),
            }
        },
        TreeEntryKind::Label => {
            return None;
        },
    }
    Some(string_from_chars(&v))
}

/// The abstract value of a tree row: entry id, display line, search text.
pub open spec fn item_view(it: TreePickerItem) -> (Seq<char>, Seq<char>, Seq<char>) {
    (it.entry_id@, it.display@, it.search_text@)
}

/// The abstract values of tree rows.
pub open spec fn item_views(v: Seq<TreePickerItem>) -> Seq<(Seq<char>, Seq<char>, Seq<char>)> {
    v.map_values(|it: TreePickerItem| item_view(it))
}

/// The connector drawn before an entry below the top level.
pub open spec fn branch_of(prefix: Seq<char>, is_last: bool) -> Seq<char> {
    if prefix.len() == 0 {
        seq![]
    } else if is_last {
        "└─ "@
    } else {
        "├─ "@
    }
}

/// The indentation of an entry's children.
pub open spec fn child_prefix(prefix: Seq<char>, is_last: bool) -> Seq<char> {
    prefix + if is_last {
        "   "@
    } else {
        "│  "@
    }
}

/// `*` on the entry the session is at, a space elsewhere.
pub open spec fn marker_of(id: Seq<char>, leaf: Option<Seq<char>>) -> char {
    if leaf == Some(id) {
        '*'
    } else {
        ' '
    }
}

/// The row of one entry with description `d`.
pub open spec fn entry_row(
    id: Seq<char>,
    d: Seq<char>,
    label: Option<Seq<char>>,
    prefix: Seq<char>,
    is_last: bool,
    leaf: Option<Seq<char>>,
) -> (Seq<char>, Seq<char>, Seq<char>) {
    (
        id,
        prefix + branch_of(prefix, is_last) + seq![marker_of(id, leaf), ' '] + d + match label {
            Some(l) => " ["@ + l + "]"@,
            None => seq![],
        },
        sanitized_seq(id + seq![' '] + d + seq![' '] + match label {
            Some(l) => l,
            None => seq![],
        }),
    )
}

/// The rows of a node and its descendants, in depth-first order; a label
/// entry contributes only its children, at its own depth.
pub open spec fn node_items(n: TreeNodeInfo, prefix: Seq<char>, is_last: bool, leaf: Option<Seq<char>>) -> Seq<
    (Seq<char>, Seq<char>, Seq<char>),
>
    decreases n, 0int,
{
    match n.kind {
        TreeEntryKind::Label => forest_items(n.children@, 0, prefix, leaf),
        _ => (match description_of(n.id@, n.kind) {
            Some(d) => seq![entry_row(n.id@, d, crate::slash::opt_view(n.label), prefix, is_last, leaf)],
            None => seq![],
        }) + forest_items(n.children@, 0, child_prefix(prefix, is_last), leaf),
    }
}

/// The rows of the nodes of `cs` from the `i`-th on, each at `prefix`.
pub open spec fn forest_items(cs: Seq<TreeNodeInfo>, i: nat, prefix: Seq<char>, leaf: Option<Seq<char>>) -> Seq<
    (Seq<char>, Seq<char>, Seq<char>),
>
    decreases cs, cs.len() - i,
{
    if i >= cs.len() {
        seq![]
    } else {
        node_items(cs[i as int], prefix, i + 1 == cs.len(), leaf) + forest_items(cs, i + 1, prefix, leaf)
    }
}

/// Appends the rows of `node` and its descendants.
pub fn collect_tree_picker_items(
    items: &mut Vec<TreePickerItem>,
    node: &TreeNodeInfo,
    prefix: &Vec<char>,
    is_last: bool,
    leaf: Option<&String>,
)
    ensures
        item_views(final(items)@) == item_views(old(items)@) + node_items(
            *node,
            prefix@,
            is_last,
            match leaf {
                Some(l) => Some(l@),
                None => None,
            },
        ),
    decreases node,
{
    let ghost lf = match leaf {
        Some(l) => Some(l@),
        None => None,
    };
    let ghost start = item_views(items@);
    let next_prefix: Vec<char> = match &node.kind {
        TreeEntryKind::Label => {
            let mut p: Vec<char> = Vec::new();
            crate::text::extend_chars(&mut p, prefix);
            p
        },
        _ => {
            let d = describe_session_tree_entry(node.id.as_str(), &node.kind);
            if let Some(d) = d {
                let mut display: Vec<char> = Vec::new();
                extend_chars(&mut display, prefix);
                if prefix.len() > 0 {
                    if is_last {
                        push_str_chars(&mut display, "└─ ");
                    } else {
                        push_str_chars(&mut display, "├─ ");
                    }
                }
                let at_leaf = match leaf {
                    Some(l) => node.id == *l,
                    None => false,
                };
                display.push(if at_leaf {
                    '*'
                } else {
                    ' '
                });
                display.push(' ');
                push_str_chars(&mut display, d.as_str());
                proof {
                    reveal_strlit("└─ ");
                    reveal_strlit("├─ ");
                }
                assert(display@ =~= prefix@ + branch_of(prefix@, is_last) + seq![marker_of(node.id@, lf), ' '] + d@);
                let ghost head = display@;
                let mut search = chars_of(node.id.as_str());
                search.push(' ');
                push_str_chars(&mut search, d.as_str());
                search.push(' ');
                match &node.label {
                    Some(l) => {
                        push_str_chars(&mut display, " [");
                        push_str_chars(&mut display, l.as_str());
                        push_str_chars(&mut display, "]");
                        push_str_chars(&mut search, l.as_str());
                        assert(display@ =~= head + (" ["@ + l@ + "]"@));
                        assert(search@ =~= node.id@ + seq![' '] + d@ + seq![' '] + l@);
                    },
                    None => {
                        assert(display@ =~= head + seq![]);
                        assert(search@ =~= node.id@ + seq![' '] + d@ + seq![' '] + seq![]);
                    },
                }
                let search_text = sanitize_display_text(string_from_chars(&search).as_str());
                let item = TreePickerItem {
                    entry_id: node.id.clone(),
                    display: string_from_chars(&display),
                    search_text,
                };
                let ghost before = items@;
                items.push(item);
                proof {
                    assert(item_view(item) == entry_row(
                        node.id@,
                        d@,
                        crate::slash::opt_view(node.label),
                        prefix@,
                        is_last,
                        lf,
                    ));
                    assert(item_views(items@) =~= item_views(before).push(item_view(item)));
                }
            }
            let mut p: Vec<char> = Vec::new();
            extend_chars(&mut p, prefix);
            if is_last {
                push_str_chars(&mut p, "   ");
            } else {
                push_str_chars(&mut p, "│  ");
            }
            p
        },
    };
    let ghost own = item_views(items@);
    let ghost np = next_prefix@;
    let ghost cs = node.children@;
    let n = node.children.len();
    let mut i: usize = 0;
    while i < n
        invariant
            0 <= i <= n,
            n == cs.len(),
            cs == node.children@,
            np == next_prefix@,
            lf == match leaf {
                Some(l) => Some(l@),
                None => None,
            },
            item_views(items@) + forest_items(cs, i as nat, np, lf) == own + forest_items(cs, 0, np, lf),
        decreases n - i,
    {
        let ghost before = item_views(items@);
        assert(forest_items(cs, i as nat, np, lf) == node_items(cs[i as int], np, i + 1 == n, lf) + forest_items(
            cs,
            (i + 1) as nat,
            np,
            lf,
        ));
        collect_tree_picker_items(items, &node.children[i], &next_prefix, i + 1 == n, leaf);
        assert(item_views(items@) == before + node_items(cs[i as int], np, i + 1 == n, lf));
        assert(item_views(items@) + forest_items(cs, (i + 1) as nat, np, lf) =~= before + forest_items(
            cs,
            i as nat,
            np,
            lf,
        ));
        i = i + 1;
    }
    assert(forest_items(cs, n as nat, np, lf) =~= seq![]);
    assert(item_views(items@) =~= own + forest_items(cs, 0, np, lf));
}

/// The rows of the tree picker: the root first (marked while the session
/// is at the root), then every top-level entry with its descendants.
pub open spec fn tree_items(tree: Seq<TreeNodeInfo>, leaf: Option<Seq<char>>) -> Seq<(Seq<char>, Seq<char>, Seq<char>)> {
    seq![
        (
            "root"@,
            if leaf is None {
                "* root"@
            } else {
                "  root"@
            },
            "root session root"@,
        ),
    ] + forest_items(tree, 0, seq![], leaf)
}

/// Builds the rows of the tree picker (see `tree_items`); `leaf` is the
/// entry the session is at, if any.
pub fn build_tree_picker_items(tree: &Vec<TreeNodeInfo>, leaf: Option<&String>) -> (r: Vec<TreePickerItem>)
    ensures
        item_views(r@) == tree_items(
            tree@,
            match leaf {
                Some(l) => Some(l@),
                None => None,
            },
        ),
{
    let ghost lf = match leaf {
        Some(l) => Some(l@),
        None => None,
    };
    let mut items: Vec<TreePickerItem> = Vec::new();
    let display = if leaf.is_none() {
        owned("* root")
    } else {
        owned("  root")
    };
    items.push(TreePickerItem { entry_id: owned("root"), display, search_text: owned("root session root") });
    let ghost own = item_views(items@);
    assert(own =~= seq![
        (
            "root"@,
            if lf is None {
                "* root"@
            } else {
                "  root"@
            },
            "root session root"@,
        ),
    ]);
    let prefix: Vec<char> = Vec::new();
    let ghost cs = tree@;
    let n = tree.len();
    let mut i: usize = 0;
    while i < n
        invariant
            0 <= i <= n,
            n == cs.len(),
            cs == tree@,
            prefix@ == Seq::<char>::empty(),
            lf == match leaf {
                Some(l) => Some(l@),
                None => None,
            },
            item_views(items@) + forest_items(cs, i as nat, seq![], lf) == own + forest_items(cs, 0, seq![], lf),
        decreases n - i,
    {
        let ghost before = item_views(items@);
        assert(forest_items(cs, i as nat, seq![], lf) == node_items(cs[i as int], seq![], i + 1 == n, lf)
            + forest_items(cs, (i + 1) as nat, seq![], lf));
        collect_tree_picker_items(&mut items, &tree[i], &prefix, i + 1 == n, leaf);
        assert(item_views(items@) + forest_items(cs, (i + 1) as nat, seq![], lf) =~= before + forest_items(
            cs,
            i as nat,
            seq![],
            lf,
        ));
        i = i + 1;
    }
    assert(forest_items(cs, n as nat, seq![], lf) =~= seq![]);
    assert(item_views(items@) =~= own + forest_items(cs, 0, seq![], lf));
    items
}

} // verus!
