//! The fixed-list pickers: the user messages a session can be forked from,
//! and the OAuth providers to log in to or out of.
use vstd::prelude::*;
use crate::catalog_order::{
    chars_le, chars_le_exec, lemma_chars_le_reflexive, lemma_chars_le_total, lemma_chars_le_transitive,
};
use crate::listnav::{
    counter_line, counter_text, max_visible, max_visible_rows, page_down, page_up, paged_down, paged_up,
    row_prefix, views, visible_window, window_end, window_start, wrap_down, wrap_up, wrapped_down, wrapped_up,
};
use crate::text::{chars_of, owned, push_str_chars, sanitized_seq, string_from_chars, trim_chars, trim_seq};
use crate::tree_picker::{PickerOutcome, SelectAction};

verus! {

/// What a session entry holds, as far as forking reads it.
pub enum EntryContent {
    /// A user message, with the text of each of its text parts.
    UserMessage(Vec<String>),
    /// Any other entry.
    Other,
}

/// A session entry.
pub struct SessionEntryInfo {
    pub id: String,
    pub parent_id: Option<String>,
    pub content: EntryContent,
}

/// A user message a session can be forked from.
#[derive(Clone, Debug, PartialEq, Eq)]
pub struct ForkMessageCandidate {
    pub entry_id: String,
    pub parent_id: Option<String>,
    pub text: String,
}

/// The parts of a message run together.
pub open spec fn concat_parts(parts: Seq<Seq<char>>) -> Seq<char>
    decreases parts.len(),
{
    if parts.len() == 0 {
        seq![]
    } else {
        concat_parts(parts.drop_last()) + parts.last()
    }
}

/// The text of a user message: its text parts joined, trimmed.
pub fn extract_user_text(parts: &Vec<String>) -> (r: String)
    ensures
        r@ == trim_seq(concat_parts(views(parts@))),
{
    let ghost ps = views(parts@);
    let mut v: Vec<char> = Vec::new();
    let mut i: usize = 0;
    while i < parts.len()
        invariant
            0 <= i <= parts@.len(),
            ps == views(parts@),
            v@ == concat_parts(ps.take(i as int)),
        decreases parts@.len() - i,
    {
        push_str_chars(&mut v, parts[i].as_str());
        assert(ps.take(i + 1).drop_last() =~= ps.take(i as int));
        i = i + 1;
    }
    assert(ps.take(ps.len() as int) =~= ps);
    let t = trim_chars(&v);
    string_from_chars(&t)
}

/// The abstract value of an entry: id, parent, and the text parts of a
/// user message.
pub open spec fn entry_view(e: SessionEntryInfo) -> (Seq<char>, Option<Seq<char>>, Option<Seq<Seq<char>>>) {
    (
        e.id@,
        crate::slash::opt_view(e.parent_id),
        match e.content {
            EntryContent::UserMessage(parts) => Some(views(parts@)),
            EntryContent::Other => None,
        },
    )
}

/// The abstract value of a candidate.
pub open spec fn candidate_view(c: ForkMessageCandidate) -> (Seq<char>, Option<Seq<char>>, Seq<char>) {
    (c.entry_id@, crate::slash::opt_view(c.parent_id), c.text@)
}

/// The user messages with text, in session order.
pub open spec fn fork_candidates(entries: Seq<(Seq<char>, Option<Seq<char>>, Option<Seq<Seq<char>>>)>) -> Seq<
    (Seq<char>, Option<Seq<char>>, Seq<char>),
>
    decreases entries.len(),
{
    if entries.len() == 0 {
        seq![]
    } else {
        let prev = fork_candidates(entries.drop_last());
        let e = entries.last();
        match e.2 {
            Some(parts) => if trim_seq(concat_parts(parts)).len() > 0 {
                prev.push((e.0, e.1, trim_seq(concat_parts(parts))))
            } else {
                prev
            },
            None => prev,
        }
    }
}

/// Collects the user messages a session can be forked from.
pub fn collect_fork_candidates(entries: &Vec<SessionEntryInfo>) -> (r: Vec<ForkMessageCandidate>)
    ensures
        r@.map_values(|c: ForkMessageCandidate| candidate_view(c)) == fork_candidates(
            entries@.map_values(|e: SessionEntryInfo| entry_view(e)),
        ),
{
    let ghost es = entries@.map_values(|e: SessionEntryInfo| entry_view(e));
    let mut r: Vec<ForkMessageCandidate> = Vec::new();
    let mut i: usize = 0;
    while i < entries.len()
        invariant
            0 <= i <= entries@.len(),
            es == entries@.map_values(|e: SessionEntryInfo| entry_view(e)),
            r@.map_values(|c: ForkMessageCandidate| candidate_view(c)) == fork_candidates(es.take(i as int)),
        decreases entries@.len() - i,
    {
        assert(es.take(i + 1).drop_last() =~= es.take(i as int));
        assert(es.take(i + 1).last() == entry_view(entries@[i as int]));
        if let EntryContent::UserMessage(parts) = &entries[i].content {
            let text = extract_user_text(parts);
            let tc = chars_of(text.as_str());
            if tc.len() > 0 {
                let parent_id = match &entries[i].parent_id {
                    Some(p) => Some(p.clone()),
                    None => None,
                };
                let c = ForkMessageCandidate { entry_id: entries[i].id.clone(), parent_id, text };
                let ghost before = r@;
                r.push(c);
                assert(r@.map_values(|c: ForkMessageCandidate| candidate_view(c)) =~= before.map_values(
                    |c: ForkMessageCandidate| candidate_view(c),
                ).push(candidate_view(c)));
            }
        }
        i = i + 1;
    }
    assert(es.take(es.len() as int) =~= es);
    r
}

/// The row of a fork candidate: its text on one line, marked when it
/// starts the session.
pub open spec fn fork_row(c: (Seq<char>, Option<Seq<char>>, Seq<char>)) -> Seq<char> {
    sanitized_seq(c.2) + if c.1 is None {
        " (root)"@
    } else {
        seq![]
    }
}

/// An OAuth provider as the picker lists it.
#[derive(Clone, Debug, PartialEq, Eq)]
pub struct OAuthPickerEntry {
    pub id: String,
    pub name: String,
}

/// The row of a provider: its id and, in brackets, its name.
pub open spec fn oauth_row(id: Seq<char>, name: Seq<char>) -> Seq<char> {
    id + " ["@ + name + "]"@
}

/// The ids of the entries, in order.
pub open spec fn entry_ids(s: Seq<OAuthPickerEntry>) -> Seq<Seq<char>> {
    s.map_values(|e: OAuthPickerEntry| e.id@)
}

/// Ids in non-decreasing order.
pub open spec fn ids_sorted(s: Seq<Seq<char>>) -> bool {
    forall|i: int, j: int| 0 <= i < j < s.len() ==> chars_le(#[trigger] s[i], #[trigger] s[j])
}

/// `output` is `input` rearranged by `perm` (output position to input
/// position, each input position used once), and entries with the same
/// id keep the order they had in `input`.
pub open spec fn stable_by_id(input: Seq<OAuthPickerEntry>, output: Seq<OAuthPickerEntry>, perm: Seq<int>) -> bool {
    &&& perm.len() == output.len()
    &&& forall|i: int| 0 <= i < output.len() ==> 0 <= #[trigger] perm[i] < input.len() && output[i] == input[perm[i]]
    &&& forall|i: int, j: int| 0 <= i < j < output.len() ==> #[trigger] perm[i] != #[trigger] perm[j]
    &&& forall|i: int, j: int|
        0 <= i < j < output.len() && entry_ids(output)[i] == entry_ids(output)[j] ==> #[trigger] perm[i]
            < #[trigger] perm[j]
}

/// The providers ordered by id.
pub fn sort_oauth_entries(entries: Vec<OAuthPickerEntry>) -> (r: Vec<OAuthPickerEntry>)
    ensures
        ids_sorted(entry_ids(r@)),
        r@.to_multiset() == entries@.to_multiset(),
        exists|perm: Seq<int>| stable_by_id(entries@, r@, perm),
{
    broadcast use vstd::multiset::group_multiset_axioms;
    let ghost input_items = entries@;
    let mut rest = entries;
    let mut r: Vec<OAuthPickerEntry> = Vec::new();
    proof {
        r@.to_multiset_ensures();
        vstd::multiset::lemma_multiset_empty_len(r@.to_multiset());
    }
    let ghost mut perm: Seq<int> = seq![];
    while rest.len() > 0
        invariant
            ids_sorted(entry_ids(r@)),
            rest@.to_multiset().add(r@.to_multiset()) == input_items.to_multiset(),
            rest@ == input_items.take(rest@.len() as int),
            rest@.len() <= input_items.len(),
            stable_by_id(input_items, r@, perm),
            forall|i: int| 0 <= i < perm.len() ==> rest@.len() <= #[trigger] perm[i],
        decreases rest@.len(),
    {
        let ghost before_rest = rest@;
        let m = rest.pop().unwrap();
        let ghost idx = rest@.len() as int;
        assert(m == input_items[idx]);
        assert(rest@ =~= input_items.take(rest@.len() as int));
        proof {
            assert(before_rest =~= rest@.push(m));
            vstd::seq_lib::to_multiset_build(rest@, m);
        }
        let mc = chars_of(m.id.as_str());
        let mut p: usize = 0;
        while p < r.len() && !chars_le_exec(&mc, &chars_of(r[p].id.as_str()))
            invariant
                0 <= p <= r@.len(),
                mc@ == m.id@,
                forall|k: int| 0 <= k < p ==> !chars_le(m.id@, #[trigger] entry_ids(r@)[k]),
            decreases r@.len() - p,
        {
            p = p + 1;
        }
        let ghost before = r@;
        let ghost mk = m.id@;
        let ghost old_perm = perm;
        r.insert(p, m);
        proof {
            perm = old_perm.insert(p as int, idx);
            let rk0 = entry_ids(before);
            assert forall|i: int| 0 <= i < r@.len() implies 0 <= #[trigger] perm[i] < input_items.len() && r@[i]
                == input_items[perm[i]] by {
                if i < p {
                    assert(perm[i] == old_perm[i] && r@[i] == before[i]);
                } else if i > p {
                    assert(perm[i] == old_perm[i - 1] && r@[i] == before[i - 1]);
                }
            }
            assert forall|i: int, j: int| 0 <= i < j < r@.len() implies #[trigger] perm[i] != #[trigger] perm[j] by {
                if i < p && j < p {
                } else if i < p && j == p {
                    assert(old_perm[i] >= idx + 1);
                } else if i < p && j > p {
                    assert(perm[j] == old_perm[j - 1]);
                } else if i == p {
                    assert(perm[j] == old_perm[j - 1]);
                    assert(old_perm[j - 1] >= idx + 1);
                } else {
                    assert(perm[i] == old_perm[i - 1] && perm[j] == old_perm[j - 1]);
                }
            }
            assert forall|i: int, j: int|
                0 <= i < j < r@.len() && entry_ids(r@)[i] == entry_ids(r@)[j] implies #[trigger] perm[i]
                < #[trigger] perm[j] by {
                let rk = entry_ids(r@);
                if i < p && j < p {
                    assert(rk[i] == rk0[i] && rk[j] == rk0[j]);
                } else if i < p && j == p {
                    assert(rk[i] == rk0[i]);
                    assert(!chars_le(mk, rk0[i]));
                    lemma_chars_le_reflexive(mk);
                } else if i < p && j > p {
                    assert(rk[i] == rk0[i] && rk[j] == rk0[j - 1]);
                    assert(perm[i] == old_perm[i] && perm[j] == old_perm[j - 1]);
                } else if i == p {
                    assert(perm[j] == old_perm[j - 1]);
                    assert(old_perm[j - 1] >= idx + 1);
                } else {
                    assert(rk[i] == rk0[i - 1] && rk[j] == rk0[j - 1]);
                    assert(perm[i] == old_perm[i - 1] && perm[j] == old_perm[j - 1]);
                }
            }
            assert forall|i: int| 0 <= i < perm.len() implies rest@.len() <= #[trigger] perm[i] by {
                if i < p {
                    assert(perm[i] == old_perm[i]);
                } else if i > p {
                    assert(perm[i] == old_perm[i - 1]);
                }
            }
            vstd::seq_lib::to_multiset_insert(before, p as int, m);
            let ks = entry_ids(before);
            assert(entry_ids(r@) =~= ks.insert(p as int, mk));
            assert forall|i: int, j: int| 0 <= i < j < entry_ids(r@).len() implies chars_le(
                #[trigger] entry_ids(r@)[i],
                #[trigger] entry_ids(r@)[j],
            ) by {
                let rk = entry_ids(r@);
                if i < p && j < p {
                    assert(rk[i] == ks[i] && rk[j] == ks[j]);
                } else if i < p && j == p {
                    lemma_chars_le_total(mk, ks[i]);
                } else if i < p && j > p {
                    assert(rk[j] == ks[j - 1]);
                    assert(chars_le(ks[i], ks[j - 1]));
                } else if i == p {
                    assert(rk[j] == ks[j - 1]);
                    if j - 1 > p {
                        lemma_chars_le_transitive(mk, ks[p as int], ks[j - 1]);
                    }
                } else {
                    assert(rk[i] == ks[i - 1] && rk[j] == ks[j - 1]);
                }
            }
        }
    }
    proof {
        rest@.to_multiset_ensures();
        vstd::multiset::lemma_multiset_empty_len(rest@.to_multiset());
        assert(stable_by_id(input_items, r@, perm));
    }
    r
}

/// The abstract state of a fixed-list picker.
pub struct ListPickerState {
    /// The id each row hands back when chosen.
    pub ids: Seq<Seq<char>>,
    /// The text of each row, after its marker.
    pub rows: Seq<Seq<char>>,
    pub selected: nat,
    pub viewport: Option<(usize, usize)>,
    pub title: Seq<char>,
    /// The line shown when there is no row.
    pub empty_message: Seq<char>,
}

/// A picker over a fixed list of rows, with a wrapping selection.
pub struct ListPicker {
    ids: Vec<String>,
    rows: Vec<String>,
    selected_index: usize,
    viewport_size: Option<(usize, usize)>,
    title: String,
    empty_message: String,
}

impl View for ListPicker {
    type V = ListPickerState;

    closed spec fn view(&self) -> ListPickerState {
        ListPickerState {
            ids: views(self.ids@),
            rows: views(self.rows@),
            selected: self.selected_index as nat,
            viewport: self.viewport_size,
            title: self.title@,
            empty_message: self.empty_message@,
        }
    }
}

impl ListPickerState {
    /// Every row has an id, and the selection names a row whenever there is one.
    pub open spec fn wf(&self) -> bool {
        &&& self.ids.len() == self.rows.len()
        &&& (self.rows.len() > 0 ==> self.selected < self.rows.len())
        &&& (self.rows.len() == 0 ==> self.selected == 0)
    }

    /// Rows shown per page.
    pub open spec fn page(&self) -> nat {
        max_visible_rows(self.viewport, 4, 10)
    }

    /// The state and outcome after one key; keys the picker does not bind
    /// change nothing.
    pub open spec fn key_step(&self, action: SelectAction) -> (ListPickerState, Option<Option<Seq<char>>>) {
        let n = self.rows.len();
        match action {
            SelectAction::Cancel => (*self, None),
            SelectAction::Up => (ListPickerState { selected: wrapped_up(self.selected, n), ..*self }, Some(None)),
            SelectAction::Down => (ListPickerState { selected: wrapped_down(self.selected, n), ..*self }, Some(None)),
            SelectAction::PageUp => (
                ListPickerState { selected: paged_up(self.selected, self.page()), ..*self },
                Some(None),
            ),
            SelectAction::PageDown => (
                ListPickerState { selected: paged_down(self.selected, self.page(), n), ..*self },
                Some(None),
            ),
            SelectAction::Confirm => (
                *self,
                Some(
                    if self.selected < n {
                        Some(self.ids[self.selected as int])
                    } else {
                        None
                    },
                ),
            ),
            SelectAction::Other => (*self, Some(None)),
        }
    }

    /// The lines listing the rows, before truncation to the terminal width.
    pub open spec fn lines(&self) -> Seq<Seq<char>> {
        let n = self.rows.len();
        if n == 0 {
            seq![self.empty_message]
        } else {
            let start = window_start(self.selected, n, self.page());
            let end = window_end(self.selected, n, self.page());
            Seq::new(
                (end - start) as nat,
                |k: int| row_prefix(start + k == self.selected) + self.rows[start + k],
            ) + if start > 0 || end < n {
                seq![counter_line(self.selected, n)]
            } else {
                seq![]
            }
        }
    }
}

/// The abstract value of a picker outcome: `None` when cancelled, `Some(None)`
/// to go on, `Some(Some(id))` when a row was chosen.
pub open spec fn outcome_choice(o: PickerOutcome) -> Option<Option<Seq<char>>> {
    match o {
        PickerOutcome::Cancelled => None,
        PickerOutcome::Selected(s) => Some(Some(s@)),
        _ => Some(None),
    }
}

impl ListPicker {
    /// The fork picker over `candidates`.
    pub fn fork_picker(candidates: &Vec<ForkMessageCandidate>) -> (r: Self)
        ensures
            r@.wf(),
            r@.ids == candidates@.map_values(|c: ForkMessageCandidate| c.entry_id@),
            r@.rows == candidates@.map_values(|c: ForkMessageCandidate| fork_row(candidate_view(c))),
            r@.selected == 0,
            r@.viewport is None,
            r@.title == "Fork session from user message"@,
            r@.empty_message == "No messages to fork from"@,
    {
        let mut ids: Vec<String> = Vec::new();
        let mut rows: Vec<String> = Vec::new();
        let mut i: usize = 0;
        while i < candidates.len()
            invariant
                0 <= i <= candidates@.len(),
                ids@.len() == i,
                rows@.len() == i,
                forall|k: int| 0 <= k < i ==> (#[trigger] ids@[k])@ == candidates@[k].entry_id@,
                forall|k: int| 0 <= k < i ==> (#[trigger] rows@[k])@ == fork_row(candidate_view(candidates@[k])),
            decreases candidates@.len() - i,
        {
            ids.push(candidates[i].entry_id.clone());
            let text = crate::text::sanitize_display_text(candidates[i].text.as_str());
            let mut v = chars_of(text.as_str());
            if candidates[i].parent_id.is_none() {
                push_str_chars(&mut v, " (root)");
            } else {
                proof {
                    assert(v@ =~= v@ + seq![]);
                }
            }
            rows.push(string_from_chars(&v));
            i = i + 1;
        }
        let r = ListPicker {
            ids,
            rows,
            selected_index: 0,
            viewport_size: None,
            title: owned("Fork session from user message"),
            empty_message: owned("No messages to fork from"),
        };
        assert(r@.ids =~= candidates@.map_values(|c: ForkMessageCandidate| c.entry_id@));
        assert(r@.rows =~= candidates@.map_values(|c: ForkMessageCandidate| fork_row(candidate_view(c))));
        r
    }

    /// The OAuth picker for `mode` over `entries`, listed by id.
    pub fn oauth_picker(mode: crate::transition::OAuthPickerMode, entries: Vec<OAuthPickerEntry>) -> (r: Self)
        ensures
            r@.wf(),
            exists|s: Seq<OAuthPickerEntry>|
                s.to_multiset() == entries@.to_multiset() && ids_sorted(entry_ids(s)) && r@.ids == #[trigger] entry_ids(
                    s,
                ) && r@.rows == s.map_values(|e: OAuthPickerEntry| oauth_row(e.id@, e.name@)),
            r@.selected == 0,
            r@.viewport is None,
            r@.title == match mode {
                crate::transition::OAuthPickerMode::Login => "Select provider to login"@,
                crate::transition::OAuthPickerMode::Logout => "Select provider to logout"@,
            },
            r@.empty_message == match mode {
                crate::transition::OAuthPickerMode::Login => "No OAuth providers available"@,
                crate::transition::OAuthPickerMode::Logout => "No OAuth providers logged in. Use /login first."@,
            },
    {
        let sorted = sort_oauth_entries(entries);
        let mut ids: Vec<String> = Vec::new();
        let mut rows: Vec<String> = Vec::new();
        let mut i: usize = 0;
        while i < sorted.len()
            invariant
                0 <= i <= sorted@.len(),
                ids@.len() == i,
                rows@.len() == i,
                forall|k: int| 0 <= k < i ==> (#[trigger] ids@[k])@ == sorted@[k].id@,
                forall|k: int| 0 <= k < i ==> (#[trigger] rows@[k])@ == oauth_row(sorted@[k].id@, sorted@[k].name@),
            decreases sorted@.len() - i,
        {
            ids.push(sorted[i].id.clone());
            let mut v = chars_of(sorted[i].id.as_str());
            push_str_chars(&mut v, " [");
            push_str_chars(&mut v, sorted[i].name.as_str());
            push_str_chars(&mut v, "]");
            rows.push(string_from_chars(&v));
            i = i + 1;
        }
        let (title, empty) = match mode {
            crate::transition::OAuthPickerMode::Login => ("Select provider to login", "No OAuth providers available"),
            crate::transition::OAuthPickerMode::Logout => (
                "Select provider to logout",
                "No OAuth providers logged in. Use /login first.",
            ),
        };
        let r = ListPicker {
            ids,
            rows,
            selected_index: 0,
            viewport_size: None,
            title: owned(title),
            empty_message: owned(empty),
        };
        assert(r@.ids =~= entry_ids(sorted@));
        assert(r@.rows =~= sorted@.map_values(|e: OAuthPickerEntry| oauth_row(e.id@, e.name@)));
        r
    }

    /// Records the terminal size the picker is drawn in.
    pub fn set_viewport_size(&mut self, width: usize, height: usize)
        ensures
            final(self)@ == (ListPickerState { viewport: Some((width, height)), ..old(self)@ }),
    {
        self.viewport_size = Some((width, height));
    }

    /// The title line.
    pub fn title(&self) -> (r: String)
        ensures
            r@ == self@.title,
    {
        self.title.clone()
    }

    /// Handles one key (see `ListPickerState::key_step`).
    pub fn handle_action(&mut self, action: SelectAction) -> (r: PickerOutcome)
        requires
            old(self)@.wf(),
        ensures
            (final(self)@, outcome_choice(r)) == old(self)@.key_step(action),
            final(self)@.wf(),
    {
        let n = self.rows.len();
        match action {
            SelectAction::Cancel => PickerOutcome::Cancelled,
            SelectAction::Up => {
                self.selected_index = wrap_up(self.selected_index, n);
                PickerOutcome::Continue
            },
            SelectAction::Down => {
                self.selected_index = wrap_down(self.selected_index, n);
                PickerOutcome::Continue
            },
            SelectAction::PageUp => {
                let page = max_visible(self.viewport_size, 4, 10);
                self.selected_index = page_up(self.selected_index, page);
                PickerOutcome::Continue
            },
            SelectAction::PageDown => {
                let page = max_visible(self.viewport_size, 4, 10);
                if self.selected_index > usize::MAX - page {
                    self.selected_index = if n > 0 {
                        n - 1
                    } else {
                        0
                    };
                } else {
                    self.selected_index = page_down(self.selected_index, page, n);
                }
                PickerOutcome::Continue
            },
            SelectAction::Confirm => {
                if self.selected_index < n {
                    PickerOutcome::Selected(self.ids[self.selected_index].clone())
                } else {
                    PickerOutcome::Continue
                }
            },
            SelectAction::Other => PickerOutcome::Continue,
        }
    }

    /// The lines listing the rows, before truncation to the terminal width.
    pub fn render_lines(&self) -> (r: Vec<String>)
        requires
            self@.wf(),
        ensures
            views(r@) == self@.lines(),
    {
        let n = self.rows.len();
        let mut lines: Vec<String> = Vec::new();
        if n == 0 {
            lines.push(self.empty_message.clone());
            assert(views(lines@) =~= self@.lines());
            return lines;
        }
        let page = max_visible(self.viewport_size, 4, 10);
        let (start, end) = visible_window(self.selected_index, n, page);
        proof {
            crate::listnav::lemma_window_shows_selection(self@.selected, n as nat, page as nat);
        }
        let mut i: usize = start;
        while i < end
            invariant
                start <= i <= end,
                end <= n,
                n == self@.rows.len(),
                self@.wf(),
                start == window_start(self@.selected, n as nat, self@.page()),
                end == window_end(self@.selected, n as nat, self@.page()),
                lines@.len() == i - start,
                forall|k: int|
                    0 <= k < i - start ==> (#[trigger] lines@[k])@ == row_prefix(start + k == self@.selected)
                        + self@.rows[start + k],
            decreases end - i,
        {
            let mut v: Vec<char> = Vec::new();
            if i == self.selected_index {
                v.push('→');
                v.push(' ');
            } else {
                v.push(' ');
                v.push(' ');
            }
            push_str_chars(&mut v, self.rows[i].as_str());
            lines.push(string_from_chars(&v));
            i = i + 1;
        }
        if start > 0 || end < n {
            lines.push(counter_text(self.selected_index, n));
        }
        assert(views(lines@) =~= self@.lines());
        lines
    }
}

} // verus!
