//! The scoped-models picker: the list of catalogue models with the ones
//! that take part in model cycling marked, reordered and saved from it.
use vstd::prelude::*;
use crate::catalog_order::{
    key_le, key_le_exec, keys_sorted, lemma_chars_le_reflexive, lemma_key_le_total, lemma_key_le_transitive,
};
use crate::listnav::views;
use crate::scoped_models::{opt_views, PersistedScopedModels};
use crate::text::{chars_of, extend_chars, push_str_chars, string_from_chars};

verus! {

/// A catalogue model as the picker lists it.
#[derive(Clone, Debug, PartialEq, Eq)]
pub struct PickerModel {
    pub provider: String,
    pub id: String,
    pub name: String,
}

/// `provider/id`, the id a scoped model is known by.
pub open spec fn full_id_of(provider: Seq<char>, id: Seq<char>) -> Seq<char> {
    provider + seq!['/'] + id
}

/// `(provider, id, name)` of each model.
pub open spec fn model_views(s: Seq<PickerModel>) -> Seq<(Seq<char>, Seq<char>, Seq<char>)> {
    s.map_values(|m: PickerModel| (m.provider@, m.id@, m.name@))
}

/// The sort keys `(provider, id)` of the models.
pub open spec fn model_keys(s: Seq<PickerModel>) -> Seq<(Seq<char>, Seq<char>)> {
    s.map_values(|m: PickerModel| (m.provider@, m.id@))
}

/// Builds `provider/id`.
pub fn full_model_id(model: &PickerModel) -> (r: String)
    ensures
        r@ == full_id_of(model.provider@, model.id@),
{
    let mut v = chars_of(model.provider.as_str());
    v.push('/');
    push_str_chars(&mut v, model.id.as_str());
    string_from_chars(&v)
}

/// `output` is `input` rearranged by `perm` (output position to input
/// position, each input position used once), and models with the same
/// key keep the order they had in `input`.
pub open spec fn stable_arrangement(input: Seq<PickerModel>, output: Seq<PickerModel>, perm: Seq<int>) -> bool {
    &&& perm.len() == output.len()
    &&& forall|i: int| 0 <= i < output.len() ==> 0 <= #[trigger] perm[i] < input.len() && output[i] == input[perm[i]]
    &&& forall|i: int, j: int| 0 <= i < j < output.len() ==> #[trigger] perm[i] != #[trigger] perm[j]
    &&& forall|i: int, j: int|
        0 <= i < j < output.len() && model_keys(output)[i] == model_keys(output)[j] ==> #[trigger] perm[i]
            < #[trigger] perm[j]
}

/// The models ordered by provider, then by id.
pub fn sort_models(models: Vec<PickerModel>) -> (r: Vec<PickerModel>)
    ensures
        keys_sorted(model_keys(r@)),
        r@.to_multiset() == models@.to_multiset(),
        exists|perm: Seq<int>| stable_arrangement(models@, r@, perm),
{
    broadcast use vstd::multiset::group_multiset_axioms;
    let ghost input_items = models@;
    let mut rest = models;
    let mut r: Vec<PickerModel> = Vec::new();
    proof {
        r@.to_multiset_ensures();
        vstd::multiset::lemma_multiset_empty_len(r@.to_multiset());
    }
    let ghost mut perm: Seq<int> = seq![];
    while rest.len() > 0
        invariant
            keys_sorted(model_keys(r@)),
            rest@.to_multiset().add(r@.to_multiset()) == input_items.to_multiset(),
            rest@ == input_items.take(rest@.len() as int),
            rest@.len() <= input_items.len(),
            stable_arrangement(input_items, r@, perm),
            forall|i: int| 0 <= i < perm.len() ==> rest@.len() <= #[trigger] perm[i],
        decreases rest@.len(),
    {
        let ghost before_rest = rest@;
        let m = rest.pop().unwrap();
        let ghost idx = rest@.len() as int;
        assert(m == input_items[idx]);
        assert(rest@ =~= input_items.take(rest@.len() as int));
        proof {
            assert(before_rest =~= rest@.push(m));
            vstd::seq_lib::to_multiset_build(rest@, m);
        }
        let mut p: usize = 0;
        while p < r.len() && !key_le_exec(
            m.provider.as_str(),
            m.id.as_str(),
            r[p].provider.as_str(),
            r[p].id.as_str(),
        )
            invariant
                0 <= p <= r@.len(),
                forall|k: int| 0 <= k < p ==> !key_le((m.provider@, m.id@), #[trigger] model_keys(r@)[k]),
            decreases r@.len() - p,
        {
            p = p + 1;
        }
        let ghost before = r@;
        let ghost mk = (m.provider@, m.id@);
        let ghost old_perm = perm;
        r.insert(p, m);
        proof {
            perm = old_perm.insert(p as int, idx);
            let rk0 = model_keys(before);
            assert forall|i: int| 0 <= i < r@.len() implies 0 <= #[trigger] perm[i] < input_items.len() && r@[i]
                == input_items[perm[i]] by {
                if i < p {
                    assert(perm[i] == old_perm[i] && r@[i] == before[i]);
                } else if i > p {
                    assert(perm[i] == old_perm[i - 1] && r@[i] == before[i - 1]);
                }
            }
            assert forall|i: int, j: int| 0 <= i < j < r@.len() implies #[trigger] perm[i] != #[trigger] perm[j] by {
                if i < p && j < p {
                } else if i < p && j == p {
                    assert(old_perm[i] >= idx + 1);
                } else if i < p && j > p {
                    assert(perm[j] == old_perm[j - 1]);
                } else if i == p {
                    assert(perm[j] == old_perm[j - 1]);
                    assert(old_perm[j - 1] >= idx + 1);
                } else {
                    assert(perm[i] == old_perm[i - 1] && perm[j] == old_perm[j - 1]);
                }
            }
            assert forall|i: int, j: int|
                0 <= i < j < r@.len() && model_keys(r@)[i] == model_keys(r@)[j] implies #[trigger] perm[i]
                < #[trigger] perm[j] by {
                let rk = model_keys(r@);
                if i < p && j < p {
                    assert(rk[i] == rk0[i] && rk[j] == rk0[j]);
                } else if i < p && j == p {
                    assert(rk[i] == rk0[i]);
                    assert(!key_le(mk, rk0[i]));
                    lemma_chars_le_reflexive(mk.1);
                    lemma_chars_le_reflexive(mk.0);
                } else if i < p && j > p {
                    assert(rk[i] == rk0[i] && rk[j] == rk0[j - 1]);
                    assert(perm[i] == old_perm[i] && perm[j] == old_perm[j - 1]);
                } else if i == p {
                    assert(perm[j] == old_perm[j - 1]);
                    assert(old_perm[j - 1] >= idx + 1);
                } else {
                    assert(rk[i] == rk0[i - 1] && rk[j] == rk0[j - 1]);
                    assert(perm[i] == old_perm[i - 1] && perm[j] == old_perm[j - 1]);
                }
            }
            assert forall|i: int| 0 <= i < perm.len() implies rest@.len() <= #[trigger] perm[i] by {
                if i < p {
                    assert(perm[i] == old_perm[i]);
                } else if i > p {
                    assert(perm[i] == old_perm[i - 1]);
                }
            }
            vstd::seq_lib::to_multiset_insert(before, p as int, m);
            let ks = model_keys(before);
            assert(model_keys(r@) =~= ks.insert(p as int, mk));
            assert forall|i: int, j: int| 0 <= i < j < model_keys(r@).len() implies key_le(
                #[trigger] model_keys(r@)[i],
                #[trigger] model_keys(r@)[j],
            ) by {
                let rk = model_keys(r@);
                if i < p && j < p {
                    assert(rk[i] == ks[i] && rk[j] == ks[j]);
                } else if i < p && j == p {
                    lemma_key_le_total(mk, ks[i]);
                } else if i < p && j > p {
                    assert(rk[j] == ks[j - 1]);
                    assert(key_le(ks[i], ks[j - 1]));
                } else if i == p {
                    assert(rk[j] == ks[j - 1]);
                    assert(p < before.len());
                    if !key_le(mk, ks[p as int]) {
                        assert(false);
                    }
                    if j - 1 > p {
                        lemma_key_le_transitive(mk, ks[p as int], ks[j - 1]);
                    }
                } else {
                    assert(rk[i] == ks[i - 1] && rk[j] == ks[j - 1]);
                }
            }
        }
    }
    proof {
        rest@.to_multiset_ensures();
        vstd::multiset::lemma_multiset_empty_len(rest@.to_multiset());
        assert(stable_arrangement(input_items, r@, perm));
    }
    r
}

/// Position of the last occurrence of `id` in `ids`: the model a catalogue
/// id resolves to when two models share it.
pub open spec fn last_index_of(ids: Seq<Seq<char>>, id: Seq<char>) -> Option<nat>
    decreases ids.len(),
{
    if ids.len() == 0 {
        None
    } else if ids.last() == id {
        Some((ids.len() - 1) as nat)
    } else {
        last_index_of(ids.drop_last(), id)
    }
}

/// What `last_index_of` finds is an occurrence.
pub proof fn lemma_last_index_of_found(ids: Seq<Seq<char>>, id: Seq<char>)
    ensures
        last_index_of(ids, id) matches Some(k) ==> k < ids.len() && ids[k as int] == id,
        last_index_of(ids, id) is None ==> !ids.contains(id),
    decreases ids.len(),
{
    if ids.len() > 0 {
        lemma_last_index_of_found(ids.drop_last(), id);
        if last_index_of(ids, id) is None {
            assert forall|k: int| 0 <= k < ids.len() implies ids[k] != id by {
                if k < ids.len() - 1 {
                    assert(ids.drop_last()[k] == ids[k]);
                }
            }
        }
    }
}

/// The models listed for the ids in `order`, in that order: each id names
/// the model it resolves to in `all`; ids of no model are skipped.
pub open spec fn item_indices(all: Seq<Seq<char>>, order: Seq<Seq<char>>) -> Seq<int>
    decreases order.len(),
{
    if order.len() == 0 {
        seq![]
    } else {
        let prev = item_indices(all, order.drop_last());
        match last_index_of(all, order.last()) {
            Some(k) => prev.push(k as int),
            None => prev,
        }
    }
}

/// Every listed model is one of `all`.
pub proof fn lemma_item_indices_in_range(all: Seq<Seq<char>>, order: Seq<Seq<char>>)
    ensures
        forall|k: int| 0 <= k < item_indices(all, order).len() ==> 0 <= #[trigger] item_indices(all, order)[k] < all.len(),
    decreases order.len(),
{
    if order.len() > 0 {
        lemma_item_indices_in_range(all, order.drop_last());
        lemma_last_index_of_found(all, order.last());
        let prev = item_indices(all, order.drop_last());
        assert forall|k: int| 0 <= k < item_indices(all, order).len() implies 0 <= #[trigger] item_indices(
            all,
            order,
        )[k] < all.len() by {
            if k < prev.len() {
                assert(item_indices(all, order)[k] == prev[k]);
            }
        }
    }
}

/// The ids among `ids` whose model (as `all` resolves it) comes from `provider`.
pub open spec fn provider_ids(
    all: Seq<Seq<char>>,
    models: Seq<(Seq<char>, Seq<char>, Seq<char>)>,
    ids: Seq<Seq<char>>,
    provider: Seq<char>,
) -> Seq<Seq<char>>
    decreases ids.len(),
{
    if ids.len() == 0 {
        seq![]
    } else {
        let prev = provider_ids(all, models, ids.drop_last(), provider);
        match last_index_of(all, ids.last()) {
            Some(k) => if models[k as int].0 == provider {
                prev.push(ids.last())
            } else {
                prev
            },
            None => prev,
        }
    }
}

/// Whether every id of `ids` is enabled.
pub open spec fn all_enabled(enabled: Option<Seq<Seq<char>>>, ids: Seq<Seq<char>>) -> bool {
    forall|k: int| 0 <= k < ids.len() ==> crate::scoped_models::is_enabled(enabled, #[trigger] ids[k])
}

/// What saving writes: `None` for "every model" (no list, or a list as long
/// as the catalogue), otherwise the list.
pub open spec fn snapshot(enabled: Option<Seq<Seq<char>>>, all: Seq<Seq<char>>) -> Option<Seq<Seq<char>>> {
    match enabled {
        None => None,
        Some(e) => if e.len() >= all.len() {
            None
        } else {
            Some(e)
        },
    }
}

/// The abstract value of a saved scope.
pub open spec fn persisted_view(p: PersistedScopedModels) -> Option<Seq<Seq<char>>> {
    match p {
        PersistedScopedModels::AllEnabled => None,
        PersistedScopedModels::Explicit(v) => Some(views(v@)),
    }
}

/// What a key press asks of the scoped-models picker. The front end maps
/// raw input to one of these through its keybindings, in this order.
#[derive(Clone, Copy, Debug, PartialEq, Eq)]
pub enum ScopedModelsKey {
    Cancel,
    Clear,
    Up,
    Down,
    PageUp,
    PageDown,
    MoveUp,
    MoveDown,
    Confirm,
    EnableAll,
    ClearAll,
    ToggleProvider,
    Save,
    /// Input the picker does not bind; it goes to the search field.
    Other,
}

/// Where the selection goes once the list has been rebuilt.
#[derive(Clone, Copy, Debug, PartialEq, Eq)]
pub enum SelectionStep {
    Stay,
    Up,
    Down,
}

/// What the picker hands back when it closes.
#[derive(Clone, Debug, PartialEq, Eq)]
pub struct ScopedModelsPickerSelection {
    /// The enabled ids, in order; `None` when every model is enabled.
    pub enabled_ids: Option<Vec<String>>,
    /// What was saved to the settings, if the user saved.
    pub persisted: Option<PersistedScopedModels>,
}

/// What handling one key produced.
#[derive(Clone, Debug, PartialEq, Eq)]
pub enum ScopedModelsOutcome {
    Continue,
    /// The picker closed with this selection.
    Closed(ScopedModelsPickerSelection),
    /// The scope changed while a search is active: the front end filters
    /// `filter_candidates` with the search text and calls `refresh`.
    Refilter(SelectionStep),
    /// The input belongs to the search field; after editing it the front
    /// end calls `set_query` and then `refresh`.
    EditSearch,
}

/// The abstract value of an outcome.
pub enum ScopedModelsOutcomeModel {
    Continue,
    Closed(Option<Seq<Seq<char>>>, Option<Option<Seq<Seq<char>>>>),
    Refilter(SelectionStep),
    EditSearch,
}

impl View for ScopedModelsOutcome {
    type V = ScopedModelsOutcomeModel;

    open spec fn view(&self) -> ScopedModelsOutcomeModel {
        match self {
            ScopedModelsOutcome::Continue => ScopedModelsOutcomeModel::Continue,
            ScopedModelsOutcome::Closed(s) => ScopedModelsOutcomeModel::Closed(
                opt_views(s.enabled_ids),
                match s.persisted {
                    Some(p) => Some(persisted_view(p)),
                    None => None,
                },
            ),
            ScopedModelsOutcome::Refilter(step) => ScopedModelsOutcomeModel::Refilter(*step),
            ScopedModelsOutcome::EditSearch => ScopedModelsOutcomeModel::EditSearch,
        }
    }
}

/// The abstract state of the picker.
pub struct ScopedModelsPickerState {
    /// `(provider, id, name)` of each catalogue model, in catalogue order.
    pub models: Seq<(Seq<char>, Seq<char>, Seq<char>)>,
    /// The full id of each model.
    pub all: Seq<Seq<char>>,
    /// The enabled ids in cycling order; `None` when every model is enabled.
    pub enabled: Option<Seq<Seq<char>>>,
    pub query: Seq<char>,
    /// Indices into `models` of the rows listed.
    pub filtered: Seq<int>,
    pub selected: nat,
    pub viewport: Option<(usize, usize)>,
    pub can_persist: bool,
    /// Whether the scope changed since it was last saved.
    pub dirty: bool,
    /// The last saved scope (`Some(None)`: every model).
    pub saved: Option<Option<Seq<Seq<char>>>>,
}

/// The scoped-models picker.
pub struct ScopedModelsPicker {
    models: Vec<PickerModel>,
    all_ids: Vec<String>,
    enabled_ids: Option<Vec<String>>,
    query: String,
    filtered: Vec<usize>,
    selected_index: usize,
    viewport_size: Option<(usize, usize)>,
    can_persist: bool,
    dirty: bool,
    saved_snapshot: Option<PersistedScopedModels>,
}

impl View for ScopedModelsPicker {
    type V = ScopedModelsPickerState;

    closed spec fn view(&self) -> ScopedModelsPickerState {
        ScopedModelsPickerState {
            models: model_views(self.models@),
            all: views(self.all_ids@),
            enabled: opt_views(self.enabled_ids),
            query: self.query@,
            filtered: self.filtered@.map_values(|k: usize| k as int),
            selected: self.selected_index as nat,
            viewport: self.viewport_size,
            can_persist: self.can_persist,
            dirty: self.dirty,
            saved: match self.saved_snapshot {
                Some(p) => Some(persisted_view(p)),
                None => None,
            },
        }
    }
}

impl ScopedModelsPickerState {
    /// The full ids name the models, every listed row names a model, and
    /// the selection names a listed row whenever there is one.
    pub open spec fn wf(&self) -> bool {
        &&& self.all.len() == self.models.len()
        &&& forall|k: int| 0 <= k < self.all.len() ==> #[trigger] self.all[k] == full_id_of(self.models[k].0, self.models[k].1)
        &&& forall|k: int| 0 <= k < self.filtered.len() ==> 0 <= #[trigger] self.filtered[k] < self.models.len()
        &&& (self.filtered.len() > 0 ==> self.selected < self.filtered.len())
        &&& (self.filtered.len() == 0 ==> self.selected == 0)
    }

    /// Whether the search text is only whitespace.
    pub open spec fn query_blank(&self) -> bool {
        crate::text::trim_seq(self.query).len() == 0
    }

    /// The models in display order: enabled ones first, in their order.
    pub open spec fn items(&self) -> Seq<int> {
        item_indices(self.all, crate::scoped_models::ordered(self.enabled, self.all))
    }

    /// The full ids of the listed rows.
    pub open spec fn listed_ids(&self) -> Seq<Seq<char>> {
        self.filtered.map_values(|k: int| self.all[k])
    }

    /// The model of the selected row, if any.
    pub open spec fn selected_model(&self) -> Option<int> {
        if self.selected < self.filtered.len() {
            Some(self.filtered[self.selected as int])
        } else {
            None
        }
    }

    /// Rows shown per page.
    pub open spec fn page(&self) -> nat {
        crate::listnav::max_visible_rows(self.viewport, 9, 12)
    }

    /// The state once the rows are listed again: every item when the search
    /// is blank, otherwise the items at `matches` (the fuzzy matches of the
    /// search against `filter_candidates`, best first); then the selection
    /// is clamped to the list and moved by `step`.
    pub open spec fn refreshed(&self, matches: Seq<int>, step: SelectionStep) -> ScopedModelsPickerState {
        let its = self.items();
        let f = if self.query_blank() {
            its
        } else {
            matches.map_values(|p: int| its[p])
        };
        let n = f.len();
        let c: nat = if self.selected < n {
            self.selected
        } else if n > 0 {
            (n - 1) as nat
        } else {
            0
        };
        let sel = match step {
            SelectionStep::Stay => c,
            SelectionStep::Up => crate::listnav::clamped_up(c),
            SelectionStep::Down => crate::listnav::clamped_down(c, n),
        };
        ScopedModelsPickerState { filtered: f, selected: sel, ..*self }
    }

    /// The scope became `enabled`: the state is marked unsaved and listed
    /// again right away when no search is active.
    pub open spec fn changed(&self, enabled: Option<Seq<Seq<char>>>, step: SelectionStep) -> (
        ScopedModelsPickerState,
        ScopedModelsOutcomeModel,
    ) {
        let s = ScopedModelsPickerState { enabled, dirty: true, ..*self };
        if s.query_blank() {
            (s.refreshed(seq![], step), ScopedModelsOutcomeModel::Continue)
        } else {
            (s, ScopedModelsOutcomeModel::Refilter(step))
        }
    }

    /// The selection the picker closes with.
    pub open spec fn closing(&self) -> ScopedModelsOutcomeModel {
        ScopedModelsOutcomeModel::Closed(self.enabled, self.saved)
    }

    /// The ids that enable-all and clear-all act on: every model without a
    /// search, the listed ones with one.
    pub open spec fn bulk_targets(&self) -> Option<Seq<Seq<char>>> {
        if self.query_blank() {
            None
        } else {
            Some(self.listed_ids())
        }
    }

    /// The state and outcome after one key.
    pub open spec fn key_step(&self, key: ScopedModelsKey) -> (ScopedModelsPickerState, ScopedModelsOutcomeModel) {
        let n = self.filtered.len();
        match key {
            ScopedModelsKey::Cancel => (*self, self.closing()),
            ScopedModelsKey::Clear => if self.query.len() == 0 {
                (*self, self.closing())
            } else {
                (
                    ScopedModelsPickerState { query: seq![], ..*self }.refreshed(seq![], SelectionStep::Stay),
                    ScopedModelsOutcomeModel::Continue,
                )
            },
            ScopedModelsKey::Up => (
                ScopedModelsPickerState {
                    selected: if n == 0 {
                        self.selected
                    } else {
                        crate::listnav::clamped_up(self.selected)
                    },
                    ..*self
                },
                ScopedModelsOutcomeModel::Continue,
            ),
            ScopedModelsKey::Down => (
                ScopedModelsPickerState {
                    selected: if n == 0 {
                        self.selected
                    } else {
                        crate::listnav::clamped_down(self.selected, n)
                    },
                    ..*self
                },
                ScopedModelsOutcomeModel::Continue,
            ),
            ScopedModelsKey::PageUp => (
                ScopedModelsPickerState {
                    selected: crate::listnav::paged_up(self.selected, self.page()),
                    ..*self
                },
                ScopedModelsOutcomeModel::Continue,
            ),
            ScopedModelsKey::PageDown => (
                ScopedModelsPickerState {
                    selected: crate::listnav::paged_down(self.selected, self.page(), n),
                    ..*self
                },
                ScopedModelsOutcomeModel::Continue,
            ),
            ScopedModelsKey::MoveUp | ScopedModelsKey::MoveDown => match self.selected_model() {
                Some(k) => if crate::scoped_models::is_enabled(self.enabled, self.all[k]) {
                    if matches!(key, ScopedModelsKey::MoveUp) {
                        self.changed(
                            crate::scoped_models::moved(self.enabled, self.all, self.all[k], -1),
                            SelectionStep::Up,
                        )
                    } else {
                        self.changed(
                            crate::scoped_models::moved(self.enabled, self.all, self.all[k], 1),
                            SelectionStep::Down,
                        )
                    }
                } else {
                    (*self, ScopedModelsOutcomeModel::Continue)
                },
                None => (*self, ScopedModelsOutcomeModel::Continue),
            },
            ScopedModelsKey::Confirm => match self.selected_model() {
                Some(k) => self.changed(
                    crate::scoped_models::toggled(self.enabled, self.all[k]),
                    SelectionStep::Stay,
                ),
                None => (*self, ScopedModelsOutcomeModel::Continue),
            },
            ScopedModelsKey::EnableAll => self.changed(
                crate::scoped_models::enabled_with(self.enabled, self.all, self.bulk_targets()),
                SelectionStep::Stay,
            ),
            ScopedModelsKey::ClearAll => self.changed(
                crate::scoped_models::cleared(self.enabled, self.all, self.bulk_targets()),
                SelectionStep::Stay,
            ),
            ScopedModelsKey::ToggleProvider => match self.selected_model() {
                Some(k) => {
                    let pids = provider_ids(self.all, self.models, self.all, self.models[k].0);
                    self.changed(
                        if all_enabled(self.enabled, pids) {
                            crate::scoped_models::cleared(self.enabled, self.all, Some(pids))
                        } else {
                            crate::scoped_models::enabled_with(self.enabled, self.all, Some(pids))
                        },
                        SelectionStep::Stay,
                    )
                },
                None => (*self, ScopedModelsOutcomeModel::Continue),
            },
            ScopedModelsKey::Save => if self.can_persist {
                (
                    ScopedModelsPickerState {
                        saved: Some(snapshot(self.enabled, self.all)),
                        dirty: false,
                        ..*self
                    },
                    ScopedModelsOutcomeModel::Continue,
                )
            } else {
                (*self, ScopedModelsOutcomeModel::EditSearch)
            },
            ScopedModelsKey::Other => (*self, ScopedModelsOutcomeModel::EditSearch),
        }
    }
}

impl ScopedModelsPicker {
    /// The model a full id resolves to.
    fn entry_index(&self, id: &String) -> (r: Option<usize>)
        ensures
            r matches Some(k) ==> last_index_of(self@.all, id@) == Some(k as nat),
            r is None ==> last_index_of(self@.all, id@) is None,
    {
        let ghost vs = views(self.all_ids@);
        let mut i: usize = self.all_ids.len();
        assert(vs.take(i as int) =~= vs);
        while i > 0
            invariant
                0 <= i <= self.all_ids@.len(),
                vs == views(self.all_ids@),
                vs == self@.all,
                last_index_of(vs, id@) == last_index_of(vs.take(i as int), id@),
            decreases i,
        {
            assert(vs.take(i as int).drop_last() =~= vs.take(i - 1));
            assert(vs.take(i as int).last() == self.all_ids@[i - 1]@);
            if self.all_ids[i - 1] == *id {
                return Some(i - 1);
            }
            i = i - 1;
        }
        None
    }

    /// The models in display order, as indices.
    fn item_list(&self) -> (r: Vec<usize>)
        requires
            self@.wf(),
        ensures
            r@.map_values(|k: usize| k as int) == self@.items(),
            forall|k: int| 0 <= k < r@.len() ==> #[trigger] r@[k] < self@.models.len(),
    {
        let e = self.enabled_ids.as_ref();
        assert(crate::scoped_models::opt_ref_views(e) == self@.enabled);
        let order = crate::scoped_models::ordered_scoped_model_ids(e, &self.all_ids);
        let ghost o = views(order@);
        let mut r: Vec<usize> = Vec::new();
        let mut i: usize = 0;
        while i < order.len()
            invariant
                0 <= i <= order@.len(),
                o == views(order@),
                o == crate::scoped_models::ordered(self@.enabled, self@.all),
                self@.wf(),
                r@.map_values(|k: usize| k as int) == item_indices(self@.all, o.take(i as int)),
                forall|k: int| 0 <= k < r@.len() ==> #[trigger] r@[k] < self@.models.len(),
            decreases order@.len() - i,
        {
            assert(o.take(i + 1).drop_last() =~= o.take(i as int));
            assert(o.take(i + 1).last() == order@[i as int]@);
            match self.entry_index(&order[i]) {
                Some(k) => {
                    proof {
                        lemma_last_index_of_found(self@.all, order@[i as int]@);
                    }
                    let ghost before = r@;
                    r.push(k);
                    assert(r@.map_values(|k: usize| k as int) =~= before.map_values(|k: usize| k as int).push(
                        k as int,
                    ));
                },
                None => {},
            }
            i = i + 1;
        }
        assert(o.take(o.len() as int) =~= o);
        r
    }

    /// Whether the search text is only whitespace.
    fn query_is_blank(&self) -> (r: bool)
        ensures
            r == self@.query_blank(),
    {
        let q = chars_of(self.query.as_str());
        crate::text::trim_chars(&q).len() == 0
    }

    /// Whether rows must be filtered by the search text before `refresh`:
    /// false when the search is blank and every item is listed.
    pub fn needs_filter(&self) -> (r: bool)
        ensures
            r == !self@.query_blank(),
    {
        !self.query_is_blank()
    }

    /// Lists the rows again (see `ScopedModelsPickerState::refreshed`).
    /// `matches` indexes `filter_candidates` and is not read when the search
    /// is blank.
    pub fn refresh(&mut self, matches: &Vec<usize>, step: SelectionStep)
        requires
            old(self)@.wf(),
            !old(self)@.query_blank() ==> forall|k: int| 0 <= k < matches@.len() ==> #[trigger] matches@[k] < old(
                self,
            )@.items().len(),
        ensures
            final(self)@ == old(self)@.refreshed(matches@.map_values(|p: usize| p as int), step),
            final(self)@.wf(),
    {
        let its = self.item_list();
        let ghost iv = its@.map_values(|k: usize| k as int);
        let blank = self.query_is_blank();
        let f = if blank {
            its
        } else {
            let mut f: Vec<usize> = Vec::new();
            let mut i: usize = 0;
            while i < matches.len()
                invariant
                    0 <= i <= matches@.len(),
                    !old(self)@.query_blank(),
                    iv == its@.map_values(|k: usize| k as int),
                    iv == old(self)@.items(),
                    forall|k: int| 0 <= k < its@.len() ==> #[trigger] its@[k] < old(self)@.models.len(),
                    forall|k: int| 0 <= k < matches@.len() ==> #[trigger] matches@[k] < iv.len(),
                    f@.len() == i,
                    forall|k: int| 0 <= k < i ==> (#[trigger] f@[k]) as int == iv[matches@[k] as int],
                decreases matches@.len() - i,
            {
                let p = matches[i];
                f.push(its[p]);
                i = i + 1;
            }
            assert(f@.map_values(|k: usize| k as int) =~= matches@.map_values(|p: usize| p as int).map_values(
                |p: int| iv[p],
            ));
            f
        };
        let n = f.len();
        let c: usize = if self.selected_index < n {
            self.selected_index
        } else if n > 0 {
            n - 1
        } else {
            0
        };
        let sel: usize = match step {
            SelectionStep::Stay => c,
            SelectionStep::Up => if c > 0 {
                c - 1
            } else {
                0
            },
            SelectionStep::Down => if c + 1 < n {
                c + 1
            } else if n > 0 {
                n - 1
            } else {
                0
            },
        };
        self.filtered = f;
        self.selected_index = sel;
        assert(self@.filtered =~= old(self)@.refreshed(matches@.map_values(|p: usize| p as int), step).filtered);
    }
}

/// Copies a saved scope.
fn copy_persisted(p: &PersistedScopedModels) -> (r: PersistedScopedModels)
    ensures
        persisted_view(r) == persisted_view(*p),
{
    match p {
        PersistedScopedModels::AllEnabled => PersistedScopedModels::AllEnabled,
        PersistedScopedModels::Explicit(v) => PersistedScopedModels::Explicit(crate::scoped_models::clone_ids(v)),
    }
}

impl ScopedModelsPicker {
    /// The full ids of the listed rows.
    fn listed_id_strings(&self) -> (r: Vec<String>)
        requires
            self@.wf(),
        ensures
            views(r@) == self@.listed_ids(),
    {
        let mut r: Vec<String> = Vec::new();
        let mut i: usize = 0;
        while i < self.filtered.len()
            invariant
                0 <= i <= self.filtered@.len(),
                self@.wf(),
                r@.len() == i,
                forall|k: int| 0 <= k < i ==> (#[trigger] r@[k])@ == self@.listed_ids()[k],
            decreases self.filtered@.len() - i,
        {
            let k = self.filtered[i];
            assert(self@.filtered[i as int] == k as int);
            r.push(self.all_ids[k].clone());
            i = i + 1;
        }
        assert(views(r@) =~= self@.listed_ids());
        r
    }

    /// The ids of every model of `provider`, in catalogue order.
    fn provider_id_list(&self, provider: &String) -> (r: Vec<String>)
        requires
            self@.wf(),
        ensures
            views(r@) == provider_ids(self@.all, self@.models, self@.all, provider@),
    {
        let ghost a = self@.all;
        let mut r: Vec<String> = Vec::new();
        let mut i: usize = 0;
        while i < self.all_ids.len()
            invariant
                0 <= i <= self.all_ids@.len(),
                a == self@.all,
                self@.wf(),
                views(r@) == provider_ids(a, self@.models, a.take(i as int), provider@),
            decreases self.all_ids@.len() - i,
        {
            assert(a.take(i + 1).drop_last() =~= a.take(i as int));
            assert(a.take(i + 1).last() == self.all_ids@[i as int]@);
            match self.entry_index(&self.all_ids[i]) {
                Some(k) => {
                    proof {
                        lemma_last_index_of_found(a, self.all_ids@[i as int]@);
                    }
                    assert(self@.models[k as int].0 == self.models@[k as int].provider@);
                    if self.models[k].provider == *provider {
                        let ghost before = r@;
                        let c = self.all_ids[i].clone();
                        r.push(c);
                        assert(views(r@) =~= views(before).push(c@));
                    }
                },
                None => {},
            }
            i = i + 1;
        }
        assert(a.take(a.len() as int) =~= a);
        r
    }

    /// Whether every id of `ids` is enabled.
    fn all_ids_enabled(&self, ids: &Vec<String>) -> (r: bool)
        ensures
            r == all_enabled(self@.enabled, views(ids@)),
    {
        let e = self.enabled_ids.as_ref();
        assert(crate::scoped_models::opt_ref_views(e) == self@.enabled);
        let mut i: usize = 0;
        while i < ids.len()
            invariant
                0 <= i <= ids@.len(),
                crate::scoped_models::opt_ref_views(e) == self@.enabled,
                forall|k: int| 0 <= k < i ==> crate::scoped_models::is_enabled(self@.enabled, #[trigger] views(ids@)[k]),
            decreases ids@.len() - i,
        {
            if !crate::scoped_models::scoped_model_enabled(e, &ids[i]) {
                assert(views(ids@)[i as int] == ids@[i as int]@);
                assert(!crate::scoped_models::is_enabled(self@.enabled, views(ids@)[i as int]));
                return false;
            }
            i = i + 1;
        }
        true
    }

    /// The outcome that closes the picker with the current scope.
    fn closing_outcome(&self) -> (r: ScopedModelsOutcome)
        ensures
            r@ == self@.closing(),
    {
        let enabled_ids = crate::scoped_models::clone_opt_ids(self.enabled_ids.as_ref());
        let persisted = match &self.saved_snapshot {
            Some(p) => Some(copy_persisted(p)),
            None => None,
        };
        ScopedModelsOutcome::Closed(ScopedModelsPickerSelection { enabled_ids, persisted })
    }

    /// Takes `enabled` as the new scope (see `ScopedModelsPickerState::changed`).
    fn apply_change(&mut self, enabled: Option<Vec<String>>, step: SelectionStep) -> (r: ScopedModelsOutcome)
        requires
            old(self)@.wf(),
        ensures
            (final(self)@, r@) == old(self)@.changed(opt_views(enabled), step),
            final(self)@.wf(),
    {
        self.enabled_ids = enabled;
        self.dirty = true;
        if self.query_is_blank() {
            let none: Vec<usize> = Vec::new();
            self.refresh(&none, step);
            assert(none@.map_values(|p: usize| p as int) =~= seq![]);
            ScopedModelsOutcome::Continue
        } else {
            ScopedModelsOutcome::Refilter(step)
        }
    }
}

impl ScopedModelsPicker {
    /// Rows shown per page.
    fn page_rows(&self) -> (r: usize)
        ensures
            r == self@.page(),
    {
        crate::listnav::max_visible(self.viewport_size, 9, 12)
    }

    /// Handles one key (see `ScopedModelsPickerState::key_step`).
    #[verifier::rlimit(50)]
    pub fn handle_key(&mut self, key: ScopedModelsKey) -> (r: ScopedModelsOutcome)
        requires
            old(self)@.wf(),
        ensures
            (final(self)@, r@) == old(self)@.key_step(key),
            final(self)@.wf(),
    {
        let n = self.filtered.len();
        let e = self.enabled_ids.as_ref();
        assert(crate::scoped_models::opt_ref_views(e) == self@.enabled);
        match key {
            ScopedModelsKey::Cancel => self.closing_outcome(),
            ScopedModelsKey::Clear => {
                if self.query.as_str().is_empty() {
                    self.closing_outcome()
                } else {
                    self.query = String::new();
                    let none: Vec<usize> = Vec::new();
                    proof {
                        reveal_strlit("");
                    }
                    assert(self@.query =~= seq![]);
                    self.refresh(&none, SelectionStep::Stay);
                    assert(none@.map_values(|p: usize| p as int) =~= seq![]);
                    ScopedModelsOutcome::Continue
                }
            },
            ScopedModelsKey::Up => {
                if n > 0 && self.selected_index > 0 {
                    self.selected_index = self.selected_index - 1;
                }
                ScopedModelsOutcome::Continue
            },
            ScopedModelsKey::Down => {
                if n > 0 && self.selected_index + 1 < n {
                    self.selected_index = self.selected_index + 1;
                }
                ScopedModelsOutcome::Continue
            },
            ScopedModelsKey::PageUp => {
                let page = self.page_rows();
                self.selected_index = crate::listnav::page_up(self.selected_index, page);
                ScopedModelsOutcome::Continue
            },
            ScopedModelsKey::PageDown => {
                let page = self.page_rows();
                if self.selected_index > usize::MAX - page {
                    self.selected_index = if n > 0 {
                        n - 1
                    } else {
                        0
                    };
                } else {
                    self.selected_index = crate::listnav::page_down(self.selected_index, page, n);
                }
                ScopedModelsOutcome::Continue
            },
            ScopedModelsKey::MoveUp | ScopedModelsKey::MoveDown => {
                if self.selected_index < n {
                    let k = self.filtered[self.selected_index];
                    assert(self@.filtered[self.selected_index as int] == k as int);
                    let id = self.all_ids[k].clone();
                    assert(id@ == self@.all[k as int]);
                    if crate::scoped_models::scoped_model_enabled(e, &id) {
                        if matches!(key, ScopedModelsKey::MoveUp) {
                            let next = crate::scoped_models::move_scoped_model_id(e, &self.all_ids, &id, -1);
                            self.apply_change(next, SelectionStep::Up)
                        } else {
                            let next = crate::scoped_models::move_scoped_model_id(e, &self.all_ids, &id, 1);
                            self.apply_change(next, SelectionStep::Down)
                        }
                    } else {
                        ScopedModelsOutcome::Continue
                    }
                } else {
                    ScopedModelsOutcome::Continue
                }
            },
            ScopedModelsKey::Confirm => {
                if self.selected_index < n {
                    let k = self.filtered[self.selected_index];
                    assert(self@.filtered[self.selected_index as int] == k as int);
                    let id = self.all_ids[k].clone();
                    assert(id@ == self@.all[k as int]);
                    let next = crate::scoped_models::toggle_scoped_model_id(e, &id);
                    self.apply_change(next, SelectionStep::Stay)
                } else {
                    ScopedModelsOutcome::Continue
                }
            },
            ScopedModelsKey::EnableAll => {
                let targets = if self.query_is_blank() {
                    None
                } else {
                    Some(self.listed_id_strings())
                };
                let t = targets.as_ref();
                assert(crate::scoped_models::opt_ref_views(t) == self@.bulk_targets());
                let next = crate::scoped_models::enable_scoped_model_ids(e, &self.all_ids, t);
                self.apply_change(next, SelectionStep::Stay)
            },
            ScopedModelsKey::ClearAll => {
                let targets = if self.query_is_blank() {
                    None
                } else {
                    Some(self.listed_id_strings())
                };
                let t = targets.as_ref();
                assert(crate::scoped_models::opt_ref_views(t) == self@.bulk_targets());
                let next = crate::scoped_models::clear_scoped_model_ids(e, &self.all_ids, t);
                self.apply_change(next, SelectionStep::Stay)
            },
            ScopedModelsKey::ToggleProvider => {
                if self.selected_index < n {
                    let k = self.filtered[self.selected_index];
                    assert(self@.filtered[self.selected_index as int] == k as int);
                    let provider = self.models[k].provider.clone();
                    assert(provider@ == self@.models[k as int].0);
                    let pids = self.provider_id_list(&provider);
                    let every = self.all_ids_enabled(&pids);
                    let next = if every {
                        crate::scoped_models::clear_scoped_model_ids(e, &self.all_ids, Some(&pids))
                    } else {
                        crate::scoped_models::enable_scoped_model_ids(e, &self.all_ids, Some(&pids))
                    };
                    self.apply_change(next, SelectionStep::Stay)
                } else {
                    ScopedModelsOutcome::Continue
                }
            },
            ScopedModelsKey::Save => {
                if self.can_persist {
                    let snap = crate::scoped_models::persisted_scoped_models_snapshot(e, &self.all_ids);
                    self.saved_snapshot = Some(snap);
                    self.dirty = false;
                    ScopedModelsOutcome::Continue
                } else {
                    ScopedModelsOutcome::EditSearch
                }
            },
            ScopedModelsKey::Other => ScopedModelsOutcome::EditSearch,
        }
    }
}

/// The text a model is fuzzy-matched by: its id, a space, its provider.
pub open spec fn candidate_text(m: (Seq<char>, Seq<char>, Seq<char>)) -> Seq<char> {
    m.1 + seq![' '] + m.0
}

/// The enabled mark after a row: none while every model is enabled.
pub open spec fn status_mark(enabled: Option<Seq<Seq<char>>>, id: Seq<char>) -> Seq<char> {
    match enabled {
        None => seq![],
        Some(e) => if e.contains(id) {
            seq![' ', '✓']
        } else {
            seq![' ', '✗']
        },
    }
}

impl ScopedModelsPickerState {
    /// The line of the listed row `k`.
    pub open spec fn row_line(&self, k: int) -> Seq<char> {
        let m = self.models[self.filtered[k]];
        crate::listnav::row_prefix(k == self.selected) + m.1 + seq![' ', '['] + m.0 + seq![']'] + status_mark(
            self.enabled,
            self.all[self.filtered[k]],
        )
    }

    /// The lines listing the models, before truncation to the terminal width.
    pub open spec fn model_rows(&self) -> Seq<Seq<char>> {
        let n = self.filtered.len();
        if n == 0 {
            seq!["No matching models"@]
        } else {
            let start = crate::listnav::window_start(self.selected, n, self.page());
            let end = crate::listnav::window_end(self.selected, n, self.page());
            Seq::new((end - start) as nat, |k: int| self.row_line(start + k)) + (if start > 0 || end < n {
                seq![crate::listnav::counter_line(self.selected, n)]
            } else {
                seq![]
            }) + (if self.selected < n {
                seq![seq![], "  Model Name: "@ + self.models[self.filtered[self.selected as int]].2]
            } else {
                seq![]
            })
        }
    }

    /// The status line under the list.
    pub open spec fn footer(&self) -> Seq<char> {
        let count = match self.enabled {
            None => "all enabled"@,
            Some(e) => crate::listnav::decimal(e.len()) + seq!['/'] + crate::listnav::decimal(self.all.len())
                + " enabled"@,
        };
        if self.dirty {
            count + " (unsaved)"@
        } else {
            count
        }
    }
}

impl ScopedModelsPicker {
    /// A picker over `models` (listed by provider, then id) with the models
    /// of `scoped` enabled in that order (every model when it is empty) and
    /// the search field holding `initial_search`. When that search is not
    /// blank, the front end filters and calls `refresh` before drawing.
    pub fn new(
        models: Vec<PickerModel>,
        scoped: &Vec<PickerModel>,
        initial_search: Option<&str>,
        can_persist: bool,
    ) -> (r: Self)
        ensures
            r@.wf(),
            exists|s: Seq<PickerModel>|
                s.to_multiset() == models@.to_multiset() && keys_sorted(model_keys(s)) && r@.models
                    == #[trigger] model_views(s),
            r@.enabled == (if scoped@.len() == 0 {
                None
            } else {
                Some(scoped@.map_values(|m: PickerModel| full_id_of(m.provider@, m.id@)))
            }),
            r@.query == (match initial_search {
                Some(q) => q@,
                None => seq![],
            }),
            r@.filtered == (if r@.query_blank() {
                r@.items()
            } else {
                seq![]
            }),
            r@.selected == 0,
            r@.viewport is None,
            r@.can_persist == can_persist,
            !r@.dirty,
            r@.saved is None,
    {
        let sorted = sort_models(models);
        let mut all_ids: Vec<String> = Vec::new();
        let mut i: usize = 0;
        while i < sorted.len()
            invariant
                0 <= i <= sorted@.len(),
                all_ids@.len() == i,
                forall|k: int| 0 <= k < i ==> (#[trigger] all_ids@[k])@ == full_id_of(sorted@[k].provider@, sorted@[k].id@),
            decreases sorted@.len() - i,
        {
            all_ids.push(full_model_id(&sorted[i]));
            i = i + 1;
        }
        let enabled_ids = if scoped.len() == 0 {
            None
        } else {
            let mut ids: Vec<String> = Vec::new();
            let mut j: usize = 0;
            while j < scoped.len()
                invariant
                    0 <= j <= scoped@.len(),
                    ids@.len() == j,
                    forall|k: int| 0 <= k < j ==> (#[trigger] ids@[k])@ == full_id_of(scoped@[k].provider@, scoped@[k].id@),
                decreases scoped@.len() - j,
            {
                ids.push(full_model_id(&scoped[j]));
                j = j + 1;
            }
            assert(views(ids@) =~= scoped@.map_values(|m: PickerModel| full_id_of(m.provider@, m.id@)));
            Some(ids)
        };
        let query = match initial_search {
            Some(q) => crate::text::owned(q),
            None => String::new(),
        };
        proof {
            reveal_strlit("");
        }
        let mut picker = ScopedModelsPicker {
            models: sorted,
            all_ids,
            enabled_ids,
            query,
            filtered: Vec::new(),
            selected_index: 0,
            viewport_size: None,
            can_persist,
            dirty: false,
            saved_snapshot: None,
        };
        assert(picker@.filtered =~= seq![]);
        assert(picker@.models == model_views(picker.models@));
        if picker.query_is_blank() {
            let none: Vec<usize> = Vec::new();
            picker.refresh(&none, SelectionStep::Stay);
        }
        picker
    }

    /// Puts `query` in the search field; the front end then calls `refresh`.
    pub fn set_query(&mut self, query: String)
        ensures
            final(self)@ == (ScopedModelsPickerState { query: query@, ..old(self)@ }),
    {
        self.query = query;
    }

    /// Records the terminal size the picker is drawn in.
    pub fn set_viewport_size(&mut self, width: usize, height: usize)
        ensures
            final(self)@ == (ScopedModelsPickerState { viewport: Some((width, height)), ..old(self)@ }),
    {
        self.viewport_size = Some((width, height));
    }

    /// The text each item is fuzzy-matched by, in display order; `refresh`
    /// takes positions in this list.
    pub fn filter_candidates(&self) -> (r: Vec<String>)
        requires
            self@.wf(),
        ensures
            views(r@) == self@.items().map_values(|k: int| candidate_text(self@.models[k])),
    {
        let its = self.item_list();
        let ghost iv = its@.map_values(|k: usize| k as int);
        let mut r: Vec<String> = Vec::new();
        let mut i: usize = 0;
        while i < its.len()
            invariant
                0 <= i <= its@.len(),
                iv == its@.map_values(|k: usize| k as int),
                iv == self@.items(),
                self@.wf(),
                forall|k: int| 0 <= k < its@.len() ==> #[trigger] its@[k] < self@.models.len(),
                r@.len() == i,
                forall|k: int| 0 <= k < i ==> (#[trigger] r@[k])@ == candidate_text(self@.models[iv[k]]),
            decreases its@.len() - i,
        {
            let m = &self.models[its[i]];
            let mut v = chars_of(m.id.as_str());
            v.push(' ');
            push_str_chars(&mut v, m.provider.as_str());
            r.push(string_from_chars(&v));
            i = i + 1;
        }
        assert(views(r@) =~= self@.items().map_values(|k: int| candidate_text(self@.models[k])));
        r
    }

    /// The title and the line under it.
    pub fn header_lines(&self) -> (r: Vec<String>)
        ensures
            views(r@) == seq![
                "Scoped Models"@,
                if self@.can_persist {
                    "Session-only until saved. Escape closes."@
                } else {
                    "Session-only. Settings unavailable. Escape closes."@
                },
            ],
    {
        let mut r: Vec<String> = Vec::new();
        r.push(crate::text::owned("Scoped Models"));
        if self.can_persist {
            r.push(crate::text::owned("Session-only until saved. Escape closes."));
        } else {
            r.push(crate::text::owned("Session-only. Settings unavailable. Escape closes."));
        }
        assert(views(r@) =~= seq![
            "Scoped Models"@,
            if self@.can_persist {
                "Session-only until saved. Escape closes."@
            } else {
                "Session-only. Settings unavailable. Escape closes."@
            },
        ]);
        r
    }

    /// The status line under the list.
    pub fn footer_status_text(&self) -> (r: String)
        ensures
            r@ == self@.footer(),
    {
        let mut v: Vec<char> = Vec::new();
        match &self.enabled_ids {
            None => push_str_chars(&mut v, "all enabled"),
            Some(e) => {
                let a = crate::listnav::decimal_chars(e.len() as u64);
                extend_chars(&mut v, &a);
                v.push('/');
                let b = crate::listnav::decimal_chars(self.all_ids.len() as u64);
                extend_chars(&mut v, &b);
                push_str_chars(&mut v, " enabled");
                assert(views(e@).len() == e@.len());
            },
        }
        if self.dirty {
            push_str_chars(&mut v, " (unsaved)");
        }
        string_from_chars(&v)
    }
}

impl ScopedModelsPicker {
    /// The line of the listed row `i`.
    fn row_text(&self, i: usize) -> (r: String)
        requires
            self@.wf(),
            i < self@.filtered.len(),
        ensures
            r@ == self@.row_line(i as int),
    {
        let mut row: Vec<char> = Vec::new();
        if i == self.selected_index {
            row.push('→');
            row.push(' ');
        } else {
            row.push(' ');
            row.push(' ');
        }
        let k = self.filtered[i];
        assert(self@.filtered[i as int] == k as int);
        let m = &self.models[k];
        push_str_chars(&mut row, m.id.as_str());
        row.push(' ');
        row.push('[');
        push_str_chars(&mut row, m.provider.as_str());
        row.push(']');
        match &self.enabled_ids {
            None => {},
            Some(e) => {
                if crate::scoped_models::contains_id(e, &self.all_ids[k]) {
                    row.push(' ');
                    row.push('✓');
                } else {
                    row.push(' ');
                    row.push('✗');
                }
            },
        }
        string_from_chars(&row)
    }

    /// The lines listing the models, before truncation to the terminal width.
    pub fn render_model_lines(&self) -> (r: Vec<String>)
        requires
            self@.wf(),
        ensures
            views(r@) == self@.model_rows(),
    {
        let n = self.filtered.len();
        let mut lines: Vec<String> = Vec::new();
        if n == 0 {
            lines.push(crate::text::owned("No matching models"));
            assert(views(lines@) =~= self@.model_rows());
            return lines;
        }
        let page = self.page_rows();
        let (start, end) = crate::listnav::visible_window(self.selected_index, n, page);
        proof {
            crate::listnav::lemma_window_shows_selection(self@.selected, n as nat, page as nat);
        }
        let mut i: usize = start;
        while i < end
            invariant
                start <= i <= end,
                end <= n,
                n == self@.filtered.len(),
                self@.wf(),
                start == crate::listnav::window_start(self@.selected, n as nat, self@.page()),
                end == crate::listnav::window_end(self@.selected, n as nat, self@.page()),
                lines@.len() == i - start,
                forall|k: int| 0 <= k < i - start ==> (#[trigger] lines@[k])@ == self@.row_line(start + k),
            decreases end - i,
        {
            lines.push(self.row_text(i));
            i = i + 1;
        }
        let ghost rows = views(lines@);
        if start > 0 || end < n {
            lines.push(crate::listnav::counter_text(self.selected_index, n));
        }
        let ghost with_counter = views(lines@);
        let k = self.filtered[self.selected_index];
        assert(self@.filtered[self.selected_index as int] == k as int);
        lines.push(String::new());
        let mut v = chars_of("  Model Name: ");
        push_str_chars(&mut v, self.models[k].name.as_str());
        lines.push(string_from_chars(&v));
        proof {
            reveal_strlit("");
        }
        assert(rows =~= Seq::new((end - start) as nat, |j: int| self@.row_line(start + j)));
        assert(views(lines@) =~= self@.model_rows());
        lines
    }
}

} // verus!
