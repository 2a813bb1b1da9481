//! The resume picker: the sessions of the current folder or of every
//! project, filtered by a search and listed with their age.
use vstd::prelude::*;
use crate::listnav::{
    counter_line, counter_text, decimal, decimal_chars, max_visible, max_visible_rows, page_down, page_up,
    paged_down, paged_up, reselect, reselected, row_prefix, views, visible_window, window_end, window_start,
    wrap_down, wrap_up, wrapped_down, wrapped_up,
};
use crate::text::{chars_of, extend_chars, owned, push_str_chars, sanitized_seq, string_from_chars, trim_chars, trim_seq};

verus! {

/// What the picker shows of a stored session.
pub struct SessionSummary {
    pub path: String,
    pub id: String,
    pub name: Option<String>,
    pub first_message: String,
    pub all_messages_text: String,
    pub cwd: String,
    pub message_count: u64,
    /// Seconds since the session was last written; `None` when its time
    /// lies in the future.
    pub age_secs: Option<u64>,
}

/// The abstract value of a summary.
pub struct SessionSummaryModel {
    pub path: Seq<char>,
    pub id: Seq<char>,
    pub name: Option<Seq<char>>,
    pub first_message: Seq<char>,
    pub all_messages_text: Seq<char>,
    pub cwd: Seq<char>,
    pub message_count: u64,
    pub age_secs: Option<u64>,
}

/// The abstract value of a summary.
pub open spec fn summary_view(s: SessionSummary) -> SessionSummaryModel {
    SessionSummaryModel {
        path: s.path@,
        id: s.id@,
        name: match s.name {
            Some(n) => Some(n@),
            None => None,
        },
        first_message: s.first_message@,
        all_messages_text: s.all_messages_text@,
        cwd: s.cwd@,
        message_count: s.message_count,
        age_secs: s.age_secs,
    }
}

/// The abstract values of summaries.
pub open spec fn summaries_view(v: Seq<SessionSummary>) -> Seq<SessionSummaryModel> {
    v.map_values(|s: SessionSummary| summary_view(s))
}

/// How long ago a session was written: `now` under a minute (or in the
/// future), then minutes, hours, days, weeks, months of thirty days, years.
pub open spec fn session_age(age_secs: Option<u64>) -> Seq<char> {
    match age_secs {
        None => "now"@,
        Some(s) => {
            let minutes = s / 60;
            let hours = s / 3600;
            let days = s / 86400;
            if minutes == 0 {
                "now"@
            } else if minutes < 60 {
                decimal(minutes as nat) + "m"@
            } else if hours < 24 {
                decimal(hours as nat) + "h"@
            } else if days < 7 {
                decimal(days as nat) + "d"@
            } else if days < 30 {
                decimal((days / 7) as nat) + "w"@
            } else if days < 365 {
                decimal((days / 30) as nat) + "mo"@
            } else {
                decimal((days / 365) as nat) + "y"@
            }
        },
    }
}

/// Writes `session_age`.
pub fn format_session_age(age_secs: Option<u64>) -> (r: String)
    ensures
        r@ == session_age(age_secs),
{
    let s = match age_secs {
        None => {
            return owned("now");
        },
        Some(s) => s,
    };
    let minutes = s / 60;
    let hours = s / 3600;
    let days = s / 86400;
    if minutes == 0 {
        return owned("now");
    }
    let (n, unit) = if minutes < 60 {
        (minutes, "m")
    } else if hours < 24 {
        (hours, "h")
    } else if days < 7 {
        (days, "d")
    } else if days < 30 {
        (days / 7, "w")
    } else if days < 365 {
        (days / 30, "mo")
    } else {
        (days / 365, "y")
    };
    let mut v = decimal_chars(n);
    push_str_chars(&mut v, unit);
    string_from_chars(&v)
}

/// `path` with the home directory written as `~`.
pub open spec fn home_shortened(path: Seq<char>, home: Option<Seq<char>>) -> Seq<char> {
    match home {
        Some(h) => if crate::text::has_prefix(path, h) {
            seq!['~'] + path.skip(h.len() as int)
        } else {
            path
        },
        None => path,
    }
}

/// Computes `home_shortened` (`home` is the `HOME` directory, if set).
pub fn shorten_home_path(path: &str, home: Option<&str>) -> (r: String)
    ensures
        r@ == home_shortened(
            path@,
            match home {
                Some(h) => Some(h@),
                None => None,
            },
        ),
{
    let p = chars_of(path);
    match home {
        Some(h) => {
            if crate::text::starts_with_chars(&p, h) {
                let hl = chars_of(h).len();
                let mut v: Vec<char> = Vec::new();
                v.push('~');
                let rest = crate::text::chars_from(&p, hl);
                extend_chars(&mut v, &rest);
                string_from_chars(&v)
            } else {
                owned(path)
            }
        },
        None => owned(path),
    }
}

/// The text a session is fuzzy-matched by: id, name, first message, all
/// message text, folder and path, separated by spaces.
pub open spec fn searchable(s: SessionSummaryModel) -> Seq<char> {
    s.id + seq![' '] + (match s.name {
        Some(n) => n,
        None => seq![],
    }) + seq![' '] + s.first_message + seq![' '] + s.all_messages_text + seq![' '] + s.cwd + seq![' '] + s.path
}

/// Builds `searchable`.
pub fn searchable_text(s: &SessionSummary) -> (r: String)
    ensures
        r@ == searchable(summary_view(*s)),
{
    let mut v = chars_of(s.id.as_str());
    v.push(' ');
    if let Some(n) = &s.name {
        push_str_chars(&mut v, n.as_str());
    }
    v.push(' ');
    push_str_chars(&mut v, s.first_message.as_str());
    v.push(' ');
    push_str_chars(&mut v, s.all_messages_text.as_str());
    v.push(' ');
    push_str_chars(&mut v, s.cwd.as_str());
    v.push(' ');
    push_str_chars(&mut v, s.path.as_str());
    string_from_chars(&v)
}

/// The name a session is listed by: its name, else its first message.
pub open spec fn label_of(s: SessionSummaryModel) -> Seq<char> {
    match s.name {
        Some(n) => n,
        None => s.first_message,
    }
}

/// Which sessions the picker lists.
#[derive(Clone, Copy, Debug, PartialEq, Eq)]
pub enum SessionScope {
    Current,
    All,
}

/// What a key press asks of the resume picker.
#[derive(Clone, Copy, Debug, PartialEq, Eq)]
pub enum SessionPickerKey {
    Cancel,
    /// Switch between the current folder and every project.
    Tab,
    Up,
    Down,
    PageUp,
    PageDown,
    Confirm,
    /// Input the picker does not bind; it goes to the search field.
    Other,
}

/// What handling one key produced.
#[derive(Clone, Debug, PartialEq, Eq)]
pub enum SessionPickerOutcome {
    Continue,
    /// The user chose the session stored at this path.
    Selected(String),
    Cancelled,
    /// The list changed while a search is active: the front end filters
    /// `filter_candidates` with the search text and calls `refresh`.
    Refilter,
    /// The input belongs to the search field; after editing it the front
    /// end calls `set_query` and then `refresh`.
    EditSearch,
}

/// The abstract value of an outcome.
pub enum SessionPickerOutcomeModel {
    Continue,
    Selected(Seq<char>),
    Cancelled,
    Refilter,
    EditSearch,
}

/// The abstract value of an outcome.
pub open spec fn outcome_view(o: SessionPickerOutcome) -> SessionPickerOutcomeModel {
    match o {
        SessionPickerOutcome::Continue => SessionPickerOutcomeModel::Continue,
        SessionPickerOutcome::Selected(p) => SessionPickerOutcomeModel::Selected(p@),
        SessionPickerOutcome::Cancelled => SessionPickerOutcomeModel::Cancelled,
        SessionPickerOutcome::Refilter => SessionPickerOutcomeModel::Refilter,
        SessionPickerOutcome::EditSearch => SessionPickerOutcomeModel::EditSearch,
    }
}

/// The abstract state of the resume picker.
pub struct SessionPickerState {
    pub current: Seq<SessionSummaryModel>,
    pub all: Seq<SessionSummaryModel>,
    pub scope: SessionScope,
    pub query: Seq<char>,
    /// Indices into the active list of the rows listed.
    pub filtered: Seq<int>,
    pub selected: nat,
    pub viewport: Option<(usize, usize)>,
    /// The home directory, written as `~` in the all-projects list.
    pub home: Option<Seq<char>>,
    /// After a scope change that waits for its search results: the path and
    /// the index that were selected before it.
    pub pending: Option<(Option<Seq<char>>, nat)>,
}

/// The resume picker.
pub struct SessionPickerComponent {
    current_sessions: Vec<SessionSummary>,
    all_sessions: Vec<SessionSummary>,
    scope: SessionScope,
    query: String,
    filtered: Vec<usize>,
    selected_index: usize,
    viewport_size: Option<(usize, usize)>,
    home: Option<String>,
    pending: Option<(Option<String>, usize)>,
}

impl View for SessionPickerComponent {
    type V = SessionPickerState;

    closed spec fn view(&self) -> SessionPickerState {
        SessionPickerState {
            current: summaries_view(self.current_sessions@),
            all: summaries_view(self.all_sessions@),
            scope: self.scope,
            query: self.query@,
            filtered: self.filtered@.map_values(|k: usize| k as int),
            selected: self.selected_index as nat,
            viewport: self.viewport_size,
            home: match self.home {
                Some(h) => Some(h@),
                None => None,
            },
            pending: match self.pending {
                Some((p, k)) => Some(
                    (
                        match p {
                            Some(x) => Some(x@),
                            None => None,
                        },
                        k as nat,
                    ),
                ),
                None => None,
            },
        }
    }
}

impl SessionPickerState {
    /// The sessions of the scope.
    pub open spec fn active(&self) -> Seq<SessionSummaryModel> {
        match self.scope {
            SessionScope::Current => self.current,
            SessionScope::All => self.all,
        }
    }

    /// Every listed row names a session of the scope, and the selection
    /// names a listed row whenever there is one.
    pub open spec fn wf(&self) -> bool {
        &&& forall|k: int| 0 <= k < self.filtered.len() ==> 0 <= #[trigger] self.filtered[k] < self.active().len()
        &&& (self.filtered.len() > 0 ==> self.selected < self.filtered.len())
        &&& (self.filtered.len() == 0 ==> self.selected == 0)
    }

    /// Whether the search text is only whitespace.
    pub open spec fn query_blank(&self) -> bool {
        trim_seq(self.query).len() == 0
    }

    /// The paths of the listed rows.
    pub open spec fn listed_paths(&self) -> Seq<Seq<char>> {
        self.filtered.map_values(|k: int| self.active()[k].path)
    }

    /// The path of the selected row, if any.
    pub open spec fn selected_path(&self) -> Option<Seq<char>> {
        if self.selected < self.filtered.len() {
            Some(self.active()[self.filtered[self.selected as int]].path)
        } else {
            None
        }
    }

    /// Rows shown per page.
    pub open spec fn page(&self) -> nat {
        max_visible_rows(self.viewport, 5, 10)
    }

    /// The title line.
    pub open spec fn title(&self) -> Seq<char> {
        match self.scope {
            SessionScope::Current => "Resume session (current folder)"@,
            SessionScope::All => "Resume session (all projects)"@,
        }
    }

    /// The line shown when no session is listed.
    pub open spec fn empty_message(&self) -> Seq<char> {
        if !self.query_blank() {
            "No matching sessions"@
        } else {
            match self.scope {
                SessionScope::Current => if self.all.len() == 0 {
                    "No sessions found"@
                } else {
                    "No sessions in current folder. Press Tab to view all."@
                },
                SessionScope::All => "No sessions found"@,
            }
        }
    }

    /// The state once the rows are listed again: every session of the
    /// scope when the search is blank, otherwise the sessions at `matches`
    /// (fuzzy matches of the search against `filter_candidates`, best
    /// first); the session that was selected stays selected when it is
    /// still listed. `previous` is the path selected before the list changed.
    pub open spec fn refreshed(&self, matches: Seq<int>) -> SessionPickerState {
        let (previous, sel) = match self.pending {
            Some(p) => p,
            None => (self.selected_path(), self.selected),
        };
        let f = if self.query_blank() {
            Seq::new(self.active().len(), |k: int| k)
        } else {
            matches
        };
        let s = SessionPickerState { filtered: f, pending: None, ..*self };
        SessionPickerState { selected: reselected(previous, s.listed_paths(), sel), ..s }
    }

    /// The state and outcome after one key.
    pub open spec fn key_step(&self, key: SessionPickerKey) -> (SessionPickerState, SessionPickerOutcomeModel) {
        let n = self.filtered.len();
        match key {
            SessionPickerKey::Cancel => (*self, SessionPickerOutcomeModel::Cancelled),
            SessionPickerKey::Tab => {
                let t = SessionPickerState {
                    scope: match self.scope {
                        SessionScope::Current => SessionScope::All,
                        SessionScope::All => SessionScope::Current,
                    },
                    pending: Some((self.selected_path(), self.selected)),
                    filtered: seq![],
                    selected: 0,
                    ..*self
                };
                if self.query_blank() {
                    (t.refreshed(seq![]), SessionPickerOutcomeModel::Continue)
                } else {
                    (t, SessionPickerOutcomeModel::Refilter)
                }
            },
            SessionPickerKey::Up => (
                SessionPickerState { selected: wrapped_up(self.selected, n), ..*self },
                SessionPickerOutcomeModel::Continue,
            ),
            SessionPickerKey::Down => (
                SessionPickerState { selected: wrapped_down(self.selected, n), ..*self },
                SessionPickerOutcomeModel::Continue,
            ),
            SessionPickerKey::PageUp => (
                SessionPickerState { selected: paged_up(self.selected, self.page()), ..*self },
                SessionPickerOutcomeModel::Continue,
            ),
            SessionPickerKey::PageDown => (
                SessionPickerState { selected: paged_down(self.selected, self.page(), n), ..*self },
                SessionPickerOutcomeModel::Continue,
            ),
            SessionPickerKey::Confirm => (
                *self,
                match self.selected_path() {
                    Some(p) => SessionPickerOutcomeModel::Selected(p),
                    None => SessionPickerOutcomeModel::Continue,
                },
            ),
            SessionPickerKey::Other => (*self, SessionPickerOutcomeModel::EditSearch),
        }
    }

    /// The line of the listed row `k`.
    pub open spec fn row_line(&self, k: int) -> Seq<char> {
        let s = self.active()[self.filtered[k]];
        let meta = decimal(s.message_count as nat) + " msg · "@ + session_age(s.age_secs);
        row_prefix(k == self.selected) + sanitized_seq(label_of(s)) + " — "@ + match self.scope {
            SessionScope::All => home_shortened(s.cwd, self.home) + " · "@ + meta,
            SessionScope::Current => meta,
        }
    }

    /// The lines listing the sessions, before truncation to the terminal width.
    pub open spec fn rows(&self) -> Seq<Seq<char>> {
        let n = self.filtered.len();
        if n == 0 {
            seq![self.empty_message()]
        } else {
            let start = window_start(self.selected, n, self.page());
            let end = window_end(self.selected, n, self.page());
            Seq::new((end - start) as nat, |k: int| self.row_line(start + k)) + if start > 0 || end < n {
                seq![counter_line(self.selected, n)]
            } else {
                seq![]
            }
        }
    }
}

impl SessionPickerComponent {
    /// The sessions of the scope.
    fn active_sessions(&self) -> (r: &Vec<SessionSummary>)
        ensures
            summaries_view(r@) == self@.active(),
    {
        match self.scope {
            SessionScope::Current => &self.current_sessions,
            SessionScope::All => &self.all_sessions,
        }
    }

    /// The paths of the listed rows.
    fn listed_path_strings(&self) -> (r: Vec<String>)
        requires
            self@.wf(),
        ensures
            views(r@) == self@.listed_paths(),
    {
        let sessions = self.active_sessions();
        let mut r: Vec<String> = Vec::new();
        let mut i: usize = 0;
        while i < self.filtered.len()
            invariant
                0 <= i <= self.filtered@.len(),
                self@.wf(),
                summaries_view(sessions@) == self@.active(),
                r@.len() == i,
                forall|k: int| 0 <= k < i ==> (#[trigger] r@[k])@ == self@.listed_paths()[k],
            decreases self.filtered@.len() - i,
        {
            let k = self.filtered[i];
            assert(self@.filtered[i as int] == k as int);
            assert(summaries_view(sessions@)[k as int] == summary_view(sessions@[k as int]));
            r.push(sessions[k].path.clone());
            i = i + 1;
        }
        assert(views(r@) =~= self@.listed_paths());
        r
    }

    /// The path of the selected row, if any.
    fn selected_path_string(&self) -> (r: Option<String>)
        requires
            self@.wf(),
        ensures
            crate::slash::opt_view(r) == self@.selected_path(),
    {
        if self.selected_index < self.filtered.len() {
            let sessions = self.active_sessions();
            let k = self.filtered[self.selected_index];
            assert(self@.filtered[self.selected_index as int] == k as int);
            assert(summaries_view(sessions@)[k as int] == summary_view(sessions@[k as int]));
            Some(sessions[k].path.clone())
        } else {
            None
        }
    }

    /// Whether the search text is only whitespace.
    fn query_is_blank(&self) -> (r: bool)
        ensures
            r == self@.query_blank(),
    {
        let q = chars_of(self.query.as_str());
        trim_chars(&q).len() == 0
    }

    /// Whether rows must be filtered by the search text before `refresh`.
    pub fn needs_filter(&self) -> (r: bool)
        ensures
            r == !self@.query_blank(),
    {
        !self.query_is_blank()
    }

    /// Lists the rows again (see `SessionPickerState::refreshed`); `matches`
    /// index the sessions of the scope and are not read when the search is
    /// blank.
    pub fn refresh(&mut self, matches: &Vec<usize>)
        requires
            old(self)@.wf(),
            !old(self)@.query_blank() ==> forall|k: int| 0 <= k < matches@.len() ==> #[trigger] matches@[k] < old(
                self,
            )@.active().len(),
        ensures
            final(self)@ == old(self)@.refreshed(matches@.map_values(|p: usize| p as int)),
            final(self)@.wf(),
    {
        let (previous, sel) = match self.pending.take() {
            Some(p) => p,
            None => (self.selected_path_string(), self.selected_index),
        };
        let n = self.active_sessions().len();
        let f = if self.query_is_blank() {
            let mut f: Vec<usize> = Vec::new();
            let mut i: usize = 0;
            while i < n
                invariant
                    0 <= i <= n,
                    f@.len() == i,
                    forall|k: int| 0 <= k < i ==> #[trigger] f@[k] == k,
                decreases n - i,
            {
                f.push(i);
                i = i + 1;
            }
            f
        } else {
            let mut f: Vec<usize> = Vec::new();
            let mut i: usize = 0;
            while i < matches.len()
                invariant
                    0 <= i <= matches@.len(),
                    f@ == matches@.take(i as int),
                decreases matches@.len() - i,
            {
                f.push(matches[i]);
                i = i + 1;
            }
            assert(matches@.take(matches@.len() as int) =~= matches@);
            f
        };
        self.filtered = f;
        self.selected_index = 0;
        assert(self@.filtered =~= old(self)@.refreshed(matches@.map_values(|p: usize| p as int)).filtered);
        let paths = self.listed_path_strings();
        self.selected_index = reselect(previous.as_ref(), &paths, sel);
        proof {
            crate::listnav::lemma_reselect_keeps_item(
                crate::slash::opt_view(previous),
                views(paths@),
                sel as nat,
            );
        }
    }

    /// A picker over the sessions of the current folder and of every
    /// project, showing the current folder, with a blank search.
    pub fn new(current_sessions: Vec<SessionSummary>, all_sessions: Vec<SessionSummary>, home: Option<String>) -> (r:
        Self)
        ensures
            r@.wf(),
            r@.current == summaries_view(current_sessions@),
            r@.all == summaries_view(all_sessions@),
            r@.scope == SessionScope::Current,
            r@.query == Seq::<char>::empty(),
            r@.filtered == Seq::new(current_sessions@.len(), |k: int| k),
            r@.selected == 0,
            r@.viewport is None,
            r@.home == crate::slash::opt_view(home),
            r@.pending is None,
    {
        let mut picker = SessionPickerComponent {
            current_sessions,
            all_sessions,
            scope: SessionScope::Current,
            query: String::new(),
            filtered: Vec::new(),
            selected_index: 0,
            viewport_size: None,
            home,
            pending: None,
        };
        proof {
            reveal_strlit("");
        }
        assert(picker@.filtered =~= seq![]);
        let none: Vec<usize> = Vec::new();
        picker.refresh(&none);
        picker
    }

    /// Puts `query` in the search field; the front end then calls `refresh`.
    pub fn set_query(&mut self, query: String)
        ensures
            final(self)@ == (SessionPickerState { query: query@, ..old(self)@ }),
    {
        self.query = query;
    }

    /// Records the terminal size the picker is drawn in.
    pub fn set_viewport_size(&mut self, width: usize, height: usize)
        ensures
            final(self)@ == (SessionPickerState { viewport: Some((width, height)), ..old(self)@ }),
    {
        self.viewport_size = Some((width, height));
    }

    /// The text each session of the scope is fuzzy-matched by; `refresh`
    /// takes positions in this list.
    pub fn filter_candidates(&self) -> (r: Vec<String>)
        ensures
            views(r@) == self@.active().map_values(|s: SessionSummaryModel| searchable(s)),
    {
        let sessions = self.active_sessions();
        let mut r: Vec<String> = Vec::new();
        let mut i: usize = 0;
        while i < sessions.len()
            invariant
                0 <= i <= sessions@.len(),
                summaries_view(sessions@) == self@.active(),
                r@.len() == i,
                forall|k: int| 0 <= k < i ==> (#[trigger] r@[k])@ == searchable(summary_view(sessions@[k])),
            decreases sessions@.len() - i,
        {
            r.push(searchable_text(&sessions[i]));
            i = i + 1;
        }
        assert(views(r@) =~= self@.active().map_values(|s: SessionSummaryModel| searchable(s)));
        r
    }

    /// The title line.
    pub fn title(&self) -> (r: &'static str)
        ensures
            r@ == self@.title(),
    {
        match self.scope {
            SessionScope::Current => "Resume session (current folder)",
            SessionScope::All => "Resume session (all projects)",
        }
    }

    /// Handles one key (see `SessionPickerState::key_step`).
    pub fn handle_key(&mut self, key: SessionPickerKey) -> (r: SessionPickerOutcome)
        requires
            old(self)@.wf(),
        ensures
            (final(self)@, outcome_view(r)) == old(self)@.key_step(key),
            final(self)@.wf(),
    {
        let n = self.filtered.len();
        match key {
            SessionPickerKey::Cancel => SessionPickerOutcome::Cancelled,
            SessionPickerKey::Tab => {
                let previous = self.selected_path_string();
                self.pending = Some((previous, self.selected_index));
                self.scope = match self.scope {
                    SessionScope::Current => SessionScope::All,
                    SessionScope::All => SessionScope::Current,
                };
                self.filtered = Vec::new();
                self.selected_index = 0;
                assert(self@.filtered =~= seq![]);
                if self.query_is_blank() {
                    let none: Vec<usize> = Vec::new();
                    self.refresh(&none);
                    SessionPickerOutcome::Continue
                } else {
                    SessionPickerOutcome::Refilter
                }
            },
            SessionPickerKey::Up => {
                self.selected_index = wrap_up(self.selected_index, n);
                SessionPickerOutcome::Continue
            },
            SessionPickerKey::Down => {
                self.selected_index = wrap_down(self.selected_index, n);
                SessionPickerOutcome::Continue
            },
            SessionPickerKey::PageUp => {
                let page = max_visible(self.viewport_size, 5, 10);
                self.selected_index = page_up(self.selected_index, page);
                SessionPickerOutcome::Continue
            },
            SessionPickerKey::PageDown => {
                let page = max_visible(self.viewport_size, 5, 10);
                if self.selected_index > usize::MAX - page {
                    self.selected_index = if n > 0 {
                        n - 1
                    } else {
                        0
                    };
                } else {
                    self.selected_index = page_down(self.selected_index, page, n);
                }
                SessionPickerOutcome::Continue
            },
            SessionPickerKey::Confirm => match self.selected_path_string() {
                Some(p) => SessionPickerOutcome::Selected(p),
                None => SessionPickerOutcome::Continue,
            },
            SessionPickerKey::Other => SessionPickerOutcome::EditSearch,
        }
    }
}

impl SessionPickerComponent {
    /// The line shown when no session is listed.
    fn empty_message_text(&self) -> (r: &'static str)
        ensures
            r@ == self@.empty_message(),
    {
        if !self.query_is_blank() {
            return "No matching sessions";
        }
        match self.scope {
            SessionScope::Current => if self.all_sessions.len() == 0 {
                "No sessions found"
            } else {
                "No sessions in current folder. Press Tab to view all."
            },
            SessionScope::All => "No sessions found",
        }
    }

    /// The line of the listed row `i`.
    fn row_text(&self, i: usize) -> (r: String)
        requires
            self@.wf(),
            i < self@.filtered.len(),
        ensures
            r@ == self@.row_line(i as int),
    {
        let sessions = self.active_sessions();
        let k = self.filtered[i];
        assert(self@.filtered[i as int] == k as int);
        assert(summaries_view(sessions@)[k as int] == summary_view(sessions@[k as int]));
        let s = &sessions[k];
        let mut v: Vec<char> = Vec::new();
        if i == self.selected_index {
            v.push('→');
            v.push(' ');
        } else {
            v.push(' ');
            v.push(' ');
        }
        let label = match &s.name {
            Some(n) => n.as_str(),
            None => s.first_message.as_str(),
        };
        let shown = crate::text::sanitize_display_text(label);
        push_str_chars(&mut v, shown.as_str());
        push_str_chars(&mut v, " — ");
        if matches!(self.scope, SessionScope::All) {
            let home = match &self.home {
                Some(h) => Some(h.as_str()),
                None => None,
            };
            let cwd = shorten_home_path(s.cwd.as_str(), home);
            push_str_chars(&mut v, cwd.as_str());
            push_str_chars(&mut v, " · ");
        }
        let count = decimal_chars(s.message_count);
        extend_chars(&mut v, &count);
        push_str_chars(&mut v, " msg · ");
        let age = format_session_age(s.age_secs);
        push_str_chars(&mut v, age.as_str());
        string_from_chars(&v)
    }

    /// The lines listing the sessions, before truncation to the terminal width.
    pub fn render_session_lines(&self) -> (r: Vec<String>)
        requires
            self@.wf(),
        ensures
            views(r@) == self@.rows(),
    {
        let n = self.filtered.len();
        let mut lines: Vec<String> = Vec::new();
        if n == 0 {
            lines.push(owned(self.empty_message_text()));
            assert(views(lines@) =~= self@.rows());
            return lines;
        }
        let page = max_visible(self.viewport_size, 5, 10);
        let (start, end) = visible_window(self.selected_index, n, page);
        proof {
            crate::listnav::lemma_window_shows_selection(self@.selected, n as nat, page as nat);
        }
        let mut i: usize = start;
        while i < end
            invariant
                start <= i <= end,
                end <= n,
                n == self@.filtered.len(),
                self@.wf(),
                start == window_start(self@.selected, n as nat, self@.page()),
                end == window_end(self@.selected, n as nat, self@.page()),
                lines@.len() == i - start,
                forall|k: int| 0 <= k < i - start ==> (#[trigger] lines@[k])@ == self@.row_line(start + k),
            decreases end - i,
        {
            lines.push(self.row_text(i));
            i = i + 1;
        }
        if start > 0 || end < n {
            lines.push(counter_text(self.selected_index, n));
        }
        assert(views(lines@) =~= self@.rows());
        lines
    }
}

/// With a blank search, Tab lists every session of the other scope under
/// that scope's title, and a second Tab lists every session of the first
/// scope again under its own title; neither asks the front end to filter.
pub proof fn lemma_tab_round_trip(s: SessionPickerState)
    requires
        s.query_blank(),
    ensures
        ({
            let (once, first) = s.key_step(SessionPickerKey::Tab);
            let (twice, second) = once.key_step(SessionPickerKey::Tab);
            &&& first == SessionPickerOutcomeModel::Continue && second == SessionPickerOutcomeModel::Continue
            &&& once.scope != s.scope && once.title() != s.title()
            &&& once.active() == (match s.scope {
                SessionScope::Current => s.all,
                SessionScope::All => s.current,
            })
            &&& once.filtered == Seq::new(once.active().len(), |k: int| k)
            &&& twice.scope == s.scope && twice.title() == s.title()
            &&& twice.active() == s.active()
            &&& twice.filtered == Seq::new(s.active().len(), |k: int| k)
        }),
{
    reveal_strlit("Resume session (current folder)");
    reveal_strlit("Resume session (all projects)");
    let once = s.key_step(SessionPickerKey::Tab).0;
    assert(once.query == s.query);
    assert("Resume session (current folder)"@[16] != "Resume session (all projects)"@[16]);
}

} // verus!
