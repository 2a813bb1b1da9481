//! The session-tree picker: a filterable list of tree entries with a
//! wrapping selection.
use vstd::prelude::*;
use crate::listnav::{
    counter_line, counter_text, first_index_of, lemma_first_index_of_found, max_visible, max_visible_rows, page_down,
    page_up, paged_down, paged_up, reselect, reselected, row_prefix, views, visible_window,
    window_end, window_start, wrap_down, wrap_up, wrapped_down, wrapped_up,
};
use crate::text::{chars_of, extend_chars, owned, string_from_chars, trim_chars, trim_seq};

verus! {

/// One selectable entry of the session tree.
#[derive(Clone, Debug, PartialEq, Eq)]
pub struct TreePickerItem {
    pub entry_id: String,
    pub display: String,
    pub search_text: String,
}

/// What a key press asks of a list picker. The front end maps raw input
/// to one of these through its keybindings.
#[derive(Clone, Copy, Debug, PartialEq, Eq)]
pub enum SelectAction {
    Cancel,
    Up,
    Down,
    PageUp,
    PageDown,
    Confirm,
    /// Input the picker does not bind; it goes to the search field.
    Other,
}

/// What handling one action produced.
#[derive(Clone, Debug, PartialEq, Eq)]
pub enum PickerOutcome {
    /// Nothing to report; the selection may have moved.
    Continue,
    /// The user chose the entry with this id.
    Selected(String),
    /// The user closed the picker.
    Cancelled,
    /// The input belongs to the search field; after editing it the front
    /// end filters again with `apply_filter`.
    EditSearch,
}

/// The abstract state of a tree picker.
pub struct TreePickerState {
    /// `(entry_id, display, search_text)` of every item, in tree order.
    pub items: Seq<(Seq<char>, Seq<char>, Seq<char>)>,
    /// Indices into `items` of the rows currently listed.
    pub filtered: Seq<int>,
    pub selected: nat,
    /// Whether the search field holds only whitespace.
    pub query_blank: bool,
    pub viewport: Option<(usize, usize)>,
}

/// A picker over the entries of a session tree.
pub struct TreePickerComponent {
    items: Vec<TreePickerItem>,
    filtered: Vec<usize>,
    selected_index: usize,
    query_blank: bool,
    viewport_size: Option<(usize, usize)>,
}

/// All indices `0..n`.
pub open spec fn all_indices(n: nat) -> Seq<int> {
    Seq::new(n, |k: int| k)
}

impl View for TreePickerComponent {
    type V = TreePickerState;

    closed spec fn view(&self) -> TreePickerState {
        TreePickerState {
            items: self.items@.map_values(|it: TreePickerItem| (it.entry_id@, it.display@, it.search_text@)),
            filtered: self.filtered@.map_values(|k: usize| k as int),
            selected: self.selected_index as nat,
            query_blank: self.query_blank,
            viewport: self.viewport_size,
        }
    }
}

impl TreePickerState {
    /// Every listed row names an item, and the selection names a listed row
    /// whenever there is one.
    pub open spec fn wf(&self) -> bool {
        &&& forall|k: int| 0 <= k < self.filtered.len() ==> 0 <= #[trigger] self.filtered[k] < self.items.len()
        &&& (self.filtered.len() > 0 ==> self.selected < self.filtered.len())
        &&& (self.filtered.len() == 0 ==> self.selected == 0)
    }

    /// Entry ids of the listed rows.
    pub open spec fn listed_ids(&self) -> Seq<Seq<char>> {
        self.filtered.map_values(|k: int| self.items[k].0)
    }

    /// Id of the selected row, if any.
    pub open spec fn selected_id(&self) -> Option<Seq<char>> {
        if self.selected < self.filtered.len() {
            Some(self.items[self.filtered[self.selected as int]].0)
        } else {
            None
        }
    }

    /// Rows shown per page.
    pub open spec fn page(&self) -> nat {
        max_visible_rows(self.viewport, 5, 10)
    }

    /// The lines listing the rows (before truncation to the terminal width).
    pub open spec fn rows(&self) -> Seq<Seq<char>> {
        let n = self.filtered.len();
        if n == 0 {
            if self.query_blank {
                seq!["No entries in session"@]
            } else {
                seq!["No matching entries"@]
            }
        } else {
            let start = window_start(self.selected, n, self.page());
            let end = window_end(self.selected, n, self.page());
            Seq::new(
                (end - start) as nat,
                |k: int| row_prefix(start + k == self.selected) + self.items[self.filtered[start + k]].1,
            ) + if start > 0 || end < n {
                seq![counter_line(self.selected, n)]
            } else {
                seq![]
            }
        }
    }
}

impl TreePickerComponent {
    /// A picker listing every item, with `initial_selected_id` selected when
    /// it names an item (the first item otherwise).
    pub fn new(items: Vec<TreePickerItem>, initial_selected_id: Option<&str>) -> (r: Self)
        ensures
            r@.wf(),
            r@.items == items@.map_values(|it: TreePickerItem| (it.entry_id@, it.display@, it.search_text@)),
            r@.filtered == all_indices(items@.len()),
            r@.query_blank,
            r@.viewport is None,
            r@.selected == (match initial_selected_id {
                Some(id) => match first_index_of(r@.listed_ids(), id@) {
                    Some(k) => k,
                    None => 0,
                },
                None => 0,
            }),
    {
        let n = items.len();
        let mut filtered: Vec<usize> = Vec::new();
        let mut i: usize = 0;
        while i < n
            invariant
                0 <= i <= n,
                n == items@.len(),
                filtered@.len() == i,
                forall|k: int| 0 <= k < i ==> #[trigger] filtered@[k] == k,
            decreases n - i,
        {
            filtered.push(i);
            i = i + 1;
        }
        let mut picker = TreePickerComponent {
            items,
            filtered,
            selected_index: 0,
            query_blank: true,
            viewport_size: None,
        };
        assert(picker@.filtered =~= all_indices(n as nat));
        if let Some(id) = initial_selected_id {
            let ids = picker.listed_id_strings();
            let target = owned(id);
            match crate::listnav::position_of(&ids, &target) {
                Some(k) => {
                    proof {
                        crate::listnav::lemma_first_index_of_found(views(ids@), target@);
                    }
                    picker.selected_index = k;
                },
                None => {},
            }
        }
        picker
    }

    /// Entry ids of the listed rows.
    fn listed_id_strings(&self) -> (r: Vec<String>)
        requires
            self@.wf(),
        ensures
            views(r@) == self@.listed_ids(),
    {
        let mut r: Vec<String> = Vec::new();
        let mut i: usize = 0;
        while i < self.filtered.len()
            invariant
                0 <= i <= self.filtered@.len(),
                self@.wf(),
                r@.len() == i,
                forall|k: int| 0 <= k < i ==> (#[trigger] r@[k])@ == self@.listed_ids()[k],
            decreases self.filtered@.len() - i,
        {
            let k = self.filtered[i];
            assert(self@.filtered[i as int] == k as int);
            r.push(self.items[k].entry_id.clone());
            i = i + 1;
        }
        assert(views(r@) =~= self@.listed_ids());
        r
    }

    /// Records the terminal size the picker is drawn in.
    pub fn set_viewport_size(&mut self, width: usize, height: usize)
        ensures
            final(self)@ == (TreePickerState { viewport: Some((width, height)), ..old(self)@ }),
    {
        self.viewport_size = Some((width, height));
    }

    /// The text each item is fuzzy-matched by when searching, in tree order;
    /// `apply_filter` takes positions in this list.
    pub fn filter_candidates(&self) -> (r: Vec<String>)
        ensures
            views(r@) == self@.items.map_values(|it: (Seq<char>, Seq<char>, Seq<char>)| it.2),
    {
        let mut r: Vec<String> = Vec::new();
        let mut i: usize = 0;
        while i < self.items.len()
            invariant
                0 <= i <= self.items@.len(),
                r@.len() == i,
                forall|k: int| 0 <= k < i ==> (#[trigger] r@[k])@ == self.items@[k].search_text@,
            decreases self.items@.len() - i,
        {
            r.push(self.items[i].search_text.clone());
            i = i + 1;
        }
        assert(views(r@) =~= self@.items.map_values(|it: (Seq<char>, Seq<char>, Seq<char>)| it.2));
        r
    }

    /// Lists the rows again for the search text `query`: every item when the
    /// query is blank, otherwise the items at `matches` (the fuzzy matches of
    /// the query against `filter_candidates`, best first). The item that
    /// was selected stays selected when it is still listed.
    pub fn apply_filter(&mut self, query: &str, matches: Vec<usize>)
        requires
            old(self)@.wf(),
            forall|k: int| 0 <= k < matches@.len() ==> #[trigger] matches@[k] < old(self)@.items.len(),
        ensures
            final(self)@.wf(),
            final(self)@.items == old(self)@.items,
            final(self)@.viewport == old(self)@.viewport,
            final(self)@.query_blank == (trim_seq(query@).len() == 0),
            final(self)@.filtered == (if trim_seq(query@).len() == 0 {
                all_indices(old(self)@.items.len())
            } else {
                matches@.map_values(|k: usize| k as int)
            }),
            final(self)@.selected == reselected(
                old(self)@.selected_id(),
                final(self)@.listed_ids(),
                old(self)@.selected,
            ),
    {
        let ghost previous = self@.selected_id();
        let old_selected = self.selected_index;
        let previous_id: Option<String> = if self.selected_index < self.filtered.len() {
            let k = self.filtered[self.selected_index];
            Some(self.items[k].entry_id.clone())
        } else {
            None
        };
        let qc = chars_of(query);
        let trimmed = trim_chars(&qc);
        let blank = trimmed.len() == 0;
        let n = self.items.len();
        let mut next: Vec<usize> = Vec::new();
        if blank {
            let mut i: usize = 0;
            while i < n
                invariant
                    0 <= i <= n,
                    n == self.items@.len(),
                    next@.len() == i,
                    forall|k: int| 0 <= k < i ==> #[trigger] next@[k] == k,
                decreases n - i,
            {
                next.push(i);
                i = i + 1;
            }
            assert(next@.map_values(|k: usize| k as int) =~= all_indices(n as nat));
        } else {
            next = matches;
        }
        self.filtered = next;
        self.query_blank = blank;
        self.selected_index = 0;
        let ids = self.listed_id_strings();
        self.selected_index = reselect(previous_id.as_ref(), &ids, old_selected);
        proof {
            crate::listnav::lemma_reselect_keeps_item(previous, views(ids@), old(self)@.selected);
        }
    }

    /// Handles one key action.
    pub fn handle_action(&mut self, action: SelectAction) -> (r: PickerOutcome)
        requires
            old(self)@.wf(),
        ensures
            final(self)@.wf(),
            final(self)@.items == old(self)@.items,
            final(self)@.filtered == old(self)@.filtered,
            final(self)@.query_blank == old(self)@.query_blank,
            final(self)@.viewport == old(self)@.viewport,
            final(self)@.selected == (match action {
                SelectAction::Up => wrapped_up(old(self)@.selected, old(self)@.filtered.len()),
                SelectAction::Down => wrapped_down(old(self)@.selected, old(self)@.filtered.len()),
                SelectAction::PageUp => paged_up(old(self)@.selected, old(self)@.page()),
                SelectAction::PageDown => paged_down(
                    old(self)@.selected,
                    old(self)@.page(),
                    old(self)@.filtered.len(),
                ),
                _ => old(self)@.selected,
            }),
            action == SelectAction::Cancel ==> r == PickerOutcome::Cancelled,
            action == SelectAction::Other ==> r == PickerOutcome::EditSearch,
            action == SelectAction::Confirm ==> (match old(self)@.selected_id() {
                Some(id) => (r matches PickerOutcome::Selected(s) && s@ == id),
                None => r == PickerOutcome::Continue,
            }),
            action != SelectAction::Cancel && action != SelectAction::Other && action
                != SelectAction::Confirm ==> r == PickerOutcome::Continue,
    {
        let n = self.filtered.len();
        match action {
            SelectAction::Cancel => PickerOutcome::Cancelled,
            SelectAction::Up => {
                self.selected_index = wrap_up(self.selected_index, n);
                PickerOutcome::Continue
            },
            SelectAction::Down => {
                self.selected_index = wrap_down(self.selected_index, n);
                PickerOutcome::Continue
            },
            SelectAction::PageUp => {
                let page = self.page_rows();
                self.selected_index = page_up(self.selected_index, page);
                PickerOutcome::Continue
            },
            SelectAction::PageDown => {
                let page = self.page_rows();
                if self.selected_index > usize::MAX - page {
                    self.selected_index = if n > 0 { n - 1 } else { 0 };
                } else {
                    self.selected_index = page_down(self.selected_index, page, n);
                }
                PickerOutcome::Continue
            },
            SelectAction::Confirm => {
                if self.selected_index < n {
                    let k = self.filtered[self.selected_index];
                    PickerOutcome::Selected(self.items[k].entry_id.clone())
                } else {
                    PickerOutcome::Continue
                }
            },
            SelectAction::Other => PickerOutcome::EditSearch,
        }
    }

    /// Rows shown per page.
    fn page_rows(&self) -> (r: usize)
        ensures
            r == self@.page(),
    {
        max_visible(self.viewport_size, 5, 10)
    }

    /// The lines listing the rows, before truncation to the terminal width.
    pub fn render_tree_lines(&self) -> (r: Vec<String>)
        requires
            self@.wf(),
        ensures
            views(r@) == self@.rows(),
    {
        let n = self.filtered.len();
        let mut lines: Vec<String> = Vec::new();
        if n == 0 {
            if self.query_blank {
                lines.push(owned("No entries in session"));
            } else {
                lines.push(owned("No matching entries"));
            }
            assert(views(lines@) =~= self@.rows());
            return lines;
        }
        let page = self.page_rows();
        let (start, end) = visible_window(self.selected_index, n, page);
        proof {
            crate::listnav::lemma_window_shows_selection(self@.selected, n as nat, page as nat);
        }
        let mut i: usize = start;
        while i < end
            invariant
                start <= i <= end,
                end <= n,
                n == self@.filtered.len(),
                self@.wf(),
                start == window_start(self@.selected, n as nat, self@.page()),
                end == window_end(self@.selected, n as nat, self@.page()),
                lines@.len() == i - start,
                forall|k: int|
                    0 <= k < i - start ==> (#[trigger] lines@[k])@ == row_prefix(
                        start + k == self@.selected,
                    ) + self@.items[self@.filtered[start + k]].1,
            decreases end - i,
        {
            let mut row: Vec<char> = Vec::new();
            if i == self.selected_index {
                row.push('→');
                row.push(' ');
            } else {
                row.push(' ');
                row.push(' ');
            }
            let k = self.filtered[i];
            assert(self@.filtered[i as int] == k as int);
            let d = chars_of(self.items[k].display.as_str());
            extend_chars(&mut row, &d);
            lines.push(string_from_chars(&row));
            i = i + 1;
        }
        if start > 0 || end < n {
            lines.push(counter_text(self.selected_index, n));
        }
        assert(views(lines@) =~= self@.rows());
        lines
    }
}

impl TreePickerState {
    /// Entry ids of all items, in tree order.
    pub open spec fn item_ids(&self) -> Seq<Seq<char>> {
        self.items.map_values(|it: (Seq<char>, Seq<char>, Seq<char>)| it.0)
    }
}

/// A picker just opened on its items (as `TreePickerComponent::new` leaves
/// it) has the entry with the initial id selected when one has it, the first
/// entry when none has it or no id was given, and nothing when it is empty;
/// so confirming chooses that entry.
pub proof fn lemma_fresh_picker_selection(s: TreePickerState, initial: Option<Seq<char>>)
    requires
        s.filtered == all_indices(s.items.len()),
        s.selected == (match initial {
            Some(id) => match first_index_of(s.listed_ids(), id) {
                Some(k) => k,
                None => 0,
            },
            None => 0,
        }),
    ensures
        s.items.len() == 0 ==> s.selected_id() is None,
        s.items.len() > 0 ==> s.selected_id() == Some(match initial {
            Some(id) => if s.item_ids().contains(id) {
                id
            } else {
                s.items[0].0
            },
            None => s.items[0].0,
        }),
{
    assert(s.listed_ids() =~= s.item_ids());
    if let Some(id) = initial {
        crate::scoped_models::lemma_absent_not_contained(s.item_ids(), id);
        lemma_first_index_of_found(s.item_ids(), id);
    }
}

/// Moving up from the top row of a picker listing every item selects the
/// last item.
pub proof fn lemma_up_from_top_selects_last(s: TreePickerState)
    requires
        s.filtered == all_indices(s.items.len()),
        s.items.len() > 0,
        s.selected == 0,
    ensures
        (TreePickerState { selected: wrapped_up(s.selected, s.filtered.len()), ..s }).selected_id() == Some(
            s.items[s.items.len() - 1].0,
        ),
{
}

} // verus!
