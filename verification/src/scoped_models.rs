//! Bookkeeping of the scoped-model list: which models take part in model
//! cycling, in which order, and what is saved to the settings.
use vstd::prelude::*;
use crate::listnav::{first_index_of, lemma_first_index_of_found, views};

verus! {

/// The view of an optional id list: `None` means every model is enabled.
pub open spec fn opt_views(o: Option<Vec<String>>) -> Option<Seq<Seq<char>>> {
    match o {
        Some(v) => Some(views(v@)),
        None => None,
    }
}

/// Whether `id` is enabled: every id is when no explicit list exists.
pub open spec fn is_enabled(enabled: Option<Seq<Seq<char>>>, id: Seq<char>) -> bool {
    match enabled {
        None => true,
        Some(e) => e.contains(id),
    }
}

/// `enabled` with `id` switched: an explicit list loses its first `id` or
/// gains `id` at the end; with no list, only `id` becomes enabled.
pub open spec fn toggled(enabled: Option<Seq<Seq<char>>>, id: Seq<char>) -> Option<Seq<Seq<char>>> {
    match enabled {
        None => Some(seq![id]),
        Some(e) => Some(
            match first_index_of(e, id) {
                Some(k) => e.remove(k as int),
                None => e.push(id),
            },
        ),
    }
}

/// `next` extended by each element of `targets` that it does not hold yet.
pub open spec fn append_missing(next: Seq<Seq<char>>, targets: Seq<Seq<char>>) -> Seq<Seq<char>>
    decreases targets.len(),
{
    if targets.len() == 0 {
        next
    } else {
        let prev = append_missing(next, targets.drop_last());
        if prev.contains(targets.last()) {
            prev
        } else {
            prev.push(targets.last())
        }
    }
}

/// `enabled` after enabling `targets`: unchanged as "all enabled" when there
/// is no list or no target list; otherwise the list grows by the missing
/// targets and collapses to "all enabled" once it is as long as `all`.
pub open spec fn enabled_with(
    enabled: Option<Seq<Seq<char>>>,
    all: Seq<Seq<char>>,
    targets: Option<Seq<Seq<char>>>,
) -> Option<Seq<Seq<char>>> {
    match (enabled, targets) {
        (Some(e), Some(t)) => {
            let next = append_missing(e, t);
            if next.len() >= all.len() {
                None
            } else {
                Some(next)
            }
        },
        _ => None,
    }
}

/// The elements of `s` that `targets` does not hold, in order.
pub open spec fn without(s: Seq<Seq<char>>, targets: Seq<Seq<char>>) -> Seq<Seq<char>> {
    s.filter(|x: Seq<char>| !targets.contains(x))
}

/// `enabled` after disabling `targets` (every model when `targets` is
/// `None`); an empty target list changes nothing.
pub open spec fn cleared(
    enabled: Option<Seq<Seq<char>>>,
    all: Seq<Seq<char>>,
    targets: Option<Seq<Seq<char>>>,
) -> Option<Seq<Seq<char>>> {
    let t = match targets {
        Some(t) => t,
        None => all,
    };
    if t.len() == 0 {
        enabled
    } else {
        match enabled {
            None => Some(without(all, t)),
            Some(e) => Some(without(e, t)),
        }
    }
}

/// `enabled` after moving `id` by `delta` places (the list starts as `all`
/// when there is none); a move past either end keeps the order.
pub open spec fn moved(
    enabled: Option<Seq<Seq<char>>>,
    all: Seq<Seq<char>>,
    id: Seq<char>,
    delta: int,
) -> Option<Seq<Seq<char>>> {
    let next = match enabled {
        Some(e) => e,
        None => all,
    };
    match first_index_of(next, id) {
        None => if enabled is Some {
            Some(next)
        } else {
            None
        },
        Some(k) => {
            let j = k + delta;
            if j < 0 || j >= next.len() {
                Some(next)
            } else {
                Some(next.update(k as int, next[j]).update(j, next[k as int]))
            }
        },
    }
}

/// The display order: enabled ids first, in their order, then the rest of
/// `all` in catalogue order.
pub open spec fn ordered(enabled: Option<Seq<Seq<char>>>, all: Seq<Seq<char>>) -> Seq<Seq<char>> {
    match enabled {
        None => all,
        Some(e) => e + without(all, e),
    }
}

/// What is saved to the settings for the current scope.
#[derive(Clone, Debug, PartialEq, Eq)]
pub enum PersistedScopedModels {
    /// No `enabledModels` entry: every model is enabled.
    AllEnabled,
    /// `enabledModels` holds these ids, in order.
    Explicit(Vec<String>),
}

/// Whether `s` holds `id`.
pub fn contains_id(s: &Vec<String>, id: &String) -> (r: bool)
    ensures
        r == views(s@).contains(id@),
{
    match crate::listnav::position_of(s, id) {
        Some(k) => {
            proof {
                lemma_first_index_of_found(views(s@), id@);
            }
            true
        },
        None => {
            proof {
                lemma_absent_not_contained(views(s@), id@);
            }
            false
        },
    }
}

/// When `first_index_of` finds nothing, the element does not occur.
pub proof fn lemma_absent_not_contained(ids: Seq<Seq<char>>, id: Seq<char>)
    ensures
        first_index_of(ids, id) is None ==> !ids.contains(id),
        first_index_of(ids, id) is Some ==> ids.contains(id),
    decreases ids.len(),
{
    if ids.len() > 0 {
        lemma_absent_not_contained(ids.drop_last(), id);
        if first_index_of(ids, id) is None {
            assert forall|k: int| 0 <= k < ids.len() implies ids[k] != id by {
                if k < ids.len() - 1 {
                    assert(ids.drop_last()[k] == ids[k]);
                }
            }
        } else {
            lemma_first_index_of_found(ids, id);
        }
    }
}

/// Copies a list of strings.
pub fn clone_ids(s: &Vec<String>) -> (r: Vec<String>)
    ensures
        views(r@) == views(s@),
{
    let mut r: Vec<String> = Vec::new();
    let mut i: usize = 0;
    while i < s.len()
        invariant
            0 <= i <= s@.len(),
            views(r@) == views(s@).take(i as int),
        decreases s@.len() - i,
    {
        let c = s[i].clone();
        assert(c@ == s@[i as int]@);
        let ghost before = r@;
        r.push(c);
        assert(r@ == before.push(c));
        assert(views(r@) =~= views(before).push(c@));
        i = i + 1;
        assert(views(r@) =~= views(s@).take(i as int));
    }
    assert(views(s@).take(s@.len() as int) =~= views(s@));
    r
}

/// Copies an optional list of strings.
pub fn clone_opt_ids(o: Option<&Vec<String>>) -> (r: Option<Vec<String>>)
    ensures
        opt_views(r) == match o {
            Some(v) => Some(views(v@)),
            None => None,
        },
{
    match o {
        Some(v) => Some(clone_ids(v)),
        None => None,
    }
}

/// The optional list viewed, for contracts.
pub open spec fn opt_ref_views(o: Option<&Vec<String>>) -> Option<Seq<Seq<char>>> {
    match o {
        Some(v) => Some(views(v@)),
        None => None,
    }
}

/// Whether the model `id` takes part in model cycling.
pub fn scoped_model_enabled(enabled_ids: Option<&Vec<String>>, id: &String) -> (r: bool)
    ensures
        r == is_enabled(opt_ref_views(enabled_ids), id@),
{
    match enabled_ids {
        None => true,
        Some(e) => contains_id(e, id),
    }
}

/// Switches the model `id` on or off.
pub fn toggle_scoped_model_id(enabled_ids: Option<&Vec<String>>, id: &String) -> (r: Option<Vec<String>>)
    ensures
        opt_views(r) == toggled(opt_ref_views(enabled_ids), id@),
{
    match enabled_ids {
        None => {
            let mut v: Vec<String> = Vec::new();
            v.push(id.clone());
            assert(views(v@) =~= seq![id@]);
            Some(v)
        },
        Some(e) => {
            let mut next = clone_ids(e);
            match crate::listnav::position_of(&next, id) {
                Some(k) => {
                    proof {
                        lemma_first_index_of_found(views(next@), id@);
                    }
                    let ghost before = next@;
                    next.remove(k);
                    assert(views(next@) =~= views(before).remove(k as int));
                },
                None => {
                    let ghost before = next@;
                    let c = id.clone();
                    next.push(c);
                    assert(next@ == before.push(c));
                    assert(views(next@) =~= views(before).push(id@));
                },
            }
            Some(next)
        },
    }
}

/// Enables `target_ids` (no-op with no explicit list or no targets).
pub fn enable_scoped_model_ids(
    enabled_ids: Option<&Vec<String>>,
    all_ids: &Vec<String>,
    target_ids: Option<&Vec<String>>,
) -> (r: Option<Vec<String>>)
    ensures
        opt_views(r) == enabled_with(
            opt_ref_views(enabled_ids),
            views(all_ids@),
            opt_ref_views(target_ids),
        ),
{
    let e = match enabled_ids {
        None => {
            return None;
        },
        Some(e) => e,
    };
    let t = match target_ids {
        None => {
            return None;
        },
        Some(t) => t,
    };
    let mut next = clone_ids(e);
    let mut i: usize = 0;
    while i < t.len()
        invariant
            0 <= i <= t@.len(),
            views(next@) == append_missing(views(e@), views(t@).take(i as int)),
        decreases t@.len() - i,
    {
        assert(views(t@).take(i + 1).drop_last() =~= views(t@).take(i as int));
        assert(views(t@).take(i + 1).last() == t@[i as int]@);
        if !contains_id(&next, &t[i]) {
            let ghost before = next@;
            let c = t[i].clone();
            assert(c@ == t@[i as int]@);
            next.push(c);
            assert(next@ == before.push(c));
            assert(views(next@) =~= views(before).push(t@[i as int]@));
        }
        i = i + 1;
    }
    assert(views(t@).take(t@.len() as int) =~= views(t@));
    if next.len() >= all_ids.len() {
        None
    } else {
        Some(next)
    }
}

/// The elements of `s` that `targets` does not hold.
pub fn without_ids(s: &Vec<String>, targets: &Vec<String>) -> (r: Vec<String>)
    ensures
        views(r@) == without(views(s@), views(targets@)),
{
    let ghost p = |x: Seq<char>| !views(targets@).contains(x);
    reveal(Seq::filter);
    let mut r: Vec<String> = Vec::new();
    let mut i: usize = 0;
    while i < s.len()
        invariant
            0 <= i <= s@.len(),
            p == (|x: Seq<char>| !views(targets@).contains(x)),
            views(r@) == views(s@).take(i as int).filter(p),
        decreases s@.len() - i,
    {
        assert(views(s@).take(i + 1).drop_last() =~= views(s@).take(i as int));
        assert(views(s@).take(i + 1).last() == s@[i as int]@);
        if !contains_id(targets, &s[i]) {
            let c = s[i].clone();
            assert(c@ == s@[i as int]@);
            let ghost before = r@;
            r.push(c);
            assert(r@ == before.push(c));
            assert(views(r@) =~= views(before).push(c@));
        }
        reveal(Seq::filter);
        assert(views(s@).take(i + 1).filter(p) == (if p(s@[i as int]@) {
            views(s@).take(i as int).filter(p).push(s@[i as int]@)
        } else {
            views(s@).take(i as int).filter(p)
        }));
        i = i + 1;
    }
    assert(views(s@).take(s@.len() as int) =~= views(s@));
    r
}

/// Disables `target_ids` (every model when `None`).
pub fn clear_scoped_model_ids(
    enabled_ids: Option<&Vec<String>>,
    all_ids: &Vec<String>,
    target_ids: Option<&Vec<String>>,
) -> (r: Option<Vec<String>>)
    ensures
        opt_views(r) == cleared(opt_ref_views(enabled_ids), views(all_ids@), opt_ref_views(target_ids)),
{
    let targets = match target_ids {
        Some(t) => clone_ids(t),
        None => clone_ids(all_ids),
    };
    if targets.len() == 0 {
        return clone_opt_ids(enabled_ids);
    }
    match enabled_ids {
        None => Some(without_ids(all_ids, &targets)),
        Some(e) => Some(without_ids(e, &targets)),
    }
}

/// Moves the model `id` by `delta` places in the enabled order.
pub fn move_scoped_model_id(
    enabled_ids: Option<&Vec<String>>,
    all_ids: &Vec<String>,
    id: &String,
    delta: isize,
) -> (r: Option<Vec<String>>)
    ensures
        opt_views(r) == moved(opt_ref_views(enabled_ids), views(all_ids@), id@, delta as int),
{
    let mut next = match enabled_ids {
        Some(e) => clone_ids(e),
        None => clone_ids(all_ids),
    };
    let index = match crate::listnav::position_of(&next, id) {
        Some(k) => k,
        None => {
            return if enabled_ids.is_some() {
                Some(next)
            } else {
                None
            };
        },
    };
    proof {
        lemma_first_index_of_found(views(next@), id@);
    }
    let j: i128 = index as i128 + delta as i128;
    if j < 0 || j >= next.len() as i128 {
        return Some(next);
    }
    let other = j as usize;
    let ghost before = next@;
    let a = next[index].clone();
    let b = next[other].clone();
    next.set(index, b);
    next.set(other, a);
    assert(views(next@) =~= views(before).update(index as int, views(before)[other as int]).update(
        other as int,
        views(before)[index as int],
    ));
    Some(next)
}

/// What saving the scope writes to the settings.
pub fn persisted_scoped_models_snapshot(enabled_ids: Option<&Vec<String>>, all_ids: &Vec<String>) -> (r:
    PersistedScopedModels)
    ensures
        match r {
            PersistedScopedModels::AllEnabled => match enabled_ids {
                None => true,
                Some(e) => e@.len() >= all_ids@.len(),
            },
            PersistedScopedModels::Explicit(v) => match enabled_ids {
                None => false,
                Some(e) => e@.len() < all_ids@.len() && views(v@) == views(e@),
            },
        },
{
    match enabled_ids {
        None => PersistedScopedModels::AllEnabled,
        Some(e) => if e.len() >= all_ids.len() {
            PersistedScopedModels::AllEnabled
        } else {
            PersistedScopedModels::Explicit(clone_ids(e))
        },
    }
}

/// The display order of the models.
pub fn ordered_scoped_model_ids(enabled_ids: Option<&Vec<String>>, all_ids: &Vec<String>) -> (r: Vec<String>)
    ensures
        views(r@) == ordered(opt_ref_views(enabled_ids), views(all_ids@)),
{
    match enabled_ids {
        None => clone_ids(all_ids),
        Some(e) => {
            let mut r = clone_ids(e);
            let rest = without_ids(all_ids, e);
            let mut i: usize = 0;
            let ghost start = r@;
            while i < rest.len()
                invariant
                    0 <= i <= rest@.len(),
                    views(r@) == views(start) + views(rest@).take(i as int),
                decreases rest@.len() - i,
            {
                let c = rest[i].clone();
                assert(c@ == rest@[i as int]@);
                let ghost before = r@;
                r.push(c);
                assert(r@ == before.push(c));
                assert(views(r@) =~= views(before).push(c@));
                i = i + 1;
                assert(views(r@) =~= views(start) + views(rest@).take(i as int));
            }
            assert(views(rest@).take(rest@.len() as int) =~= views(rest@));
            r
        },
    }
}

/// An element of `s` is either its last one or one of the others.
proof fn lemma_contains_split(s: Seq<Seq<char>>, x: Seq<char>)
    requires
        s.len() > 0,
    ensures
        s.contains(x) <==> (s.drop_last().contains(x) || s.last() == x),
{
    if s.drop_last().contains(x) {
        let j = choose|j: int| 0 <= j < s.drop_last().len() && s.drop_last()[j] == x;
        assert(s[j] == x);
    }
    if s.contains(x) {
        let j = choose|j: int| 0 <= j < s.len() && s[j] == x;
        if j < s.len() - 1 {
            assert(s.drop_last()[j] == x);
        }
    }
}

/// `without(s, t)` holds exactly the elements of `s` that `t` lacks.
pub proof fn lemma_without_contains(s: Seq<Seq<char>>, t: Seq<Seq<char>>, x: Seq<char>)
    ensures
        without(s, t).contains(x) <==> (s.contains(x) && !t.contains(x)),
    decreases s.len(),
{
    reveal(Seq::filter);
    if s.len() > 0 {
        lemma_without_contains(s.drop_last(), t, x);
        lemma_contains_split(s, x);
        let sub = without(s.drop_last(), t);
        if !t.contains(s.last()) {
            assert(without(s, t) == sub.push(s.last()));
            lemma_contains_split(sub.push(s.last()), x);
            assert(sub.push(s.last()).drop_last() =~= sub);
        } else {
            assert(without(s, t) == sub);
        }
    } else {
        assert(without(s, t) =~= seq![]);
    }
}

/// `append_missing(next, targets)` holds what `next` holds and every target.
pub proof fn lemma_append_missing_contains(next: Seq<Seq<char>>, targets: Seq<Seq<char>>, x: Seq<char>)
    ensures
        append_missing(next, targets).contains(x) <==> (next.contains(x) || targets.contains(x)),
    decreases targets.len(),
{
    if targets.len() > 0 {
        lemma_append_missing_contains(next, targets.drop_last(), x);
        lemma_contains_split(targets, x);
        let prev = append_missing(next, targets.drop_last());
        if !prev.contains(targets.last()) {
            lemma_contains_split(prev.push(targets.last()), x);
            assert(prev.push(targets.last()).drop_last() =~= prev);
        }
    }
}

/// In a list without repeats, the first occurrence of an element is where it is.
pub proof fn lemma_first_index_unique(s: Seq<Seq<char>>, j: int)
    requires
        s.no_duplicates(),
        0 <= j < s.len(),
    ensures
        first_index_of(s, s[j]) == Some(j as nat),
{
    lemma_absent_not_contained(s, s[j]);
    lemma_first_index_of_found(s, s[j]);
}

/// Toggling a model when every model is enabled leaves only that model enabled.
pub proof fn lemma_toggle_from_all_enabled(id: Seq<char>, x: Seq<char>)
    ensures
        is_enabled(toggled(None, id), x) == (x == id),
{
    if x == id {
        assert(seq![id][0] == x);
    }
}

/// Toggling a model of an explicit list without repeats flips whether that
/// model is enabled and leaves every other model as it was; the list keeps
/// no repeats.
pub proof fn lemma_toggle_flips_only_target(e: Seq<Seq<char>>, id: Seq<char>, x: Seq<char>)
    requires
        e.no_duplicates(),
    ensures
        is_enabled(toggled(Some(e), id), x) == (if x == id {
            !e.contains(id)
        } else {
            e.contains(x)
        }),
        toggled(Some(e), id) matches Some(n) && n.no_duplicates(),
{
    lemma_first_index_of_found(e, id);
    lemma_absent_not_contained(e, id);
    match first_index_of(e, id) {
        Some(k) => {
            let n = e.remove(k as int);
            assert forall|i: int| 0 <= i < n.len() implies n[i] != id by {
                if i < k {
                    assert(n[i] == e[i]);
                } else {
                    assert(n[i] == e[i + 1]);
                }
            }
            if e.contains(x) && x != id {
                let j = choose|j: int| 0 <= j < e.len() && e[j] == x;
                if j < k {
                    assert(n[j] == x);
                } else {
                    assert(n[j - 1] == x);
                }
            }
            if n.contains(x) {
                let j = choose|j: int| 0 <= j < n.len() && n[j] == x;
                if j < k {
                    assert(e[j] == x);
                } else {
                    assert(e[j + 1] == x);
                }
            }
            assert forall|a: int, b: int| 0 <= a < n.len() && 0 <= b < n.len() && a != b implies n[a]
                != n[b] by {
                let ea = if a < k {
                    a
                } else {
                    a + 1
                };
                let eb = if b < k {
                    b
                } else {
                    b + 1
                };
                assert(n[a] == e[ea] && n[b] == e[eb]);
            }
        },
        None => {
            let n = e.push(id);
            lemma_contains_split(n, x);
            assert(n.drop_last() =~= e);
            assert forall|a: int, b: int| 0 <= a < n.len() && 0 <= b < n.len() && a != b implies n[a]
                != n[b] by {
                if a < e.len() && b < e.len() {
                    assert(n[a] == e[a] && n[b] == e[b]);
                } else if a < e.len() {
                    assert(n[a] == e[a]);
                } else if b < e.len() {
                    assert(n[b] == e[b]);
                }
            }
        },
    }
}

/// Toggling the same model twice gives back the same enabled models.
pub proof fn lemma_toggle_twice_restores(e: Seq<Seq<char>>, id: Seq<char>, x: Seq<char>)
    requires
        e.no_duplicates(),
    ensures
        is_enabled(toggled(toggled(Some(e), id), id), x) == e.contains(x),
{
    lemma_toggle_flips_only_target(e, id, x);
    lemma_toggle_flips_only_target(e, id, id);
    let n = toggled(Some(e), id)->0;
    lemma_toggle_flips_only_target(n, id, x);
}

/// Enabling models leaves every target and every model that was enabled
/// enabled.
pub proof fn lemma_enable_keeps_targets_and_enabled(
    enabled: Option<Seq<Seq<char>>>,
    all: Seq<Seq<char>>,
    targets: Seq<Seq<char>>,
    x: Seq<char>,
)
    requires
        targets.contains(x) || is_enabled(enabled, x),
    ensures
        is_enabled(enabled_with(enabled, all, Some(targets)), x),
{
    if let Some(e) = enabled {
        lemma_append_missing_contains(e, targets, x);
    }
}

/// Enabling without a target list enables every model.
pub proof fn lemma_enable_everything(enabled: Option<Seq<Seq<char>>>, all: Seq<Seq<char>>, x: Seq<char>)
    ensures
        enabled_with(enabled, all, None) is None,
        is_enabled(enabled_with(enabled, all, None), x),
{
}

/// Clearing a non-empty target list disables the targets and leaves every
/// other model of the scope as it was.
pub proof fn lemma_clear_disables_only_targets(
    enabled: Option<Seq<Seq<char>>>,
    all: Seq<Seq<char>>,
    targets: Seq<Seq<char>>,
    x: Seq<char>,
)
    requires
        targets.len() > 0,
    ensures
        is_enabled(cleared(enabled, all, Some(targets)), x) == (!targets.contains(x) && match enabled {
            None => all.contains(x),
            Some(e) => e.contains(x),
        }),
{
    match enabled {
        None => lemma_without_contains(all, targets, x),
        Some(e) => lemma_without_contains(e, targets, x),
    }
}

/// Clearing without a target list disables every catalogue model.
pub proof fn lemma_clear_everything(enabled: Option<Seq<Seq<char>>>, all: Seq<Seq<char>>, x: Seq<char>)
    requires
        all.contains(x),
    ensures
        !is_enabled(cleared(enabled, all, None), x),
{
    match enabled {
        None => lemma_without_contains(all, all, x),
        Some(e) => lemma_without_contains(e, all, x),
    }
}

/// The display order lists every catalogue model and every enabled one,
/// and nothing else.
pub proof fn lemma_ordered_lists_every_model(enabled: Option<Seq<Seq<char>>>, all: Seq<Seq<char>>, x: Seq<char>)
    ensures
        ordered(enabled, all).contains(x) <==> (all.contains(x) || match enabled {
            None => false,
            Some(e) => e.contains(x),
        }),
{
    if let Some(e) = enabled {
        lemma_without_contains(all, e, x);
        let w = without(all, e);
        if (e + w).contains(x) {
            let j = choose|j: int| 0 <= j < (e + w).len() && (e + w)[j] == x;
            if j < e.len() {
                assert(e[j] == x);
            } else {
                assert(w[j - e.len()] == x);
            }
        }
        if e.contains(x) {
            let j = choose|j: int| 0 <= j < e.len() && e[j] == x;
            assert((e + w)[j] == x);
        } else if w.contains(x) {
            let j = choose|j: int| 0 <= j < w.len() && w[j] == x;
            assert((e + w)[e.len() + j] == x);
        }
    }
}

/// A list without repeats keeps none after dropping the elements of `t`.
proof fn lemma_without_no_duplicates(s: Seq<Seq<char>>, t: Seq<Seq<char>>)
    requires
        s.no_duplicates(),
    ensures
        without(s, t).no_duplicates(),
    decreases s.len(),
{
    reveal(Seq::filter);
    if s.len() > 0 {
        let d = s.drop_last();
        assert(d.no_duplicates()) by {
            assert forall|a: int, b: int| 0 <= a < d.len() && 0 <= b < d.len() && a != b implies d[a] != d[b] by {
                assert(d[a] == s[a] && d[b] == s[b]);
            }
        }
        lemma_without_no_duplicates(d, t);
        let sub = without(d, t);
        if !t.contains(s.last()) {
            assert(without(s, t) == sub.push(s.last()));
            lemma_without_contains(d, t, s.last());
            assert(!d.contains(s.last())) by {
                if d.contains(s.last()) {
                    let j = choose|j: int| 0 <= j < d.len() && d[j] == s.last();
                    assert(s[j] == s[s.len() - 1]);
                }
            }
            let r = sub.push(s.last());
            assert forall|a: int, b: int| 0 <= a < r.len() && 0 <= b < r.len() && a != b implies r[a] != r[b] by {
                if a == r.len() - 1 {
                    assert(r[b] == sub[b]);
                } else if b == r.len() - 1 {
                    assert(r[a] == sub[a]);
                } else {
                    assert(r[a] == sub[a] && r[b] == sub[b]);
                }
            }
        } else {
            assert(without(s, t) == sub);
        }
    } else {
        assert(without(s, t) =~= seq![]);
    }
}

/// When the enabled ids are a part of the catalogue and neither list has
/// repeats, the display order lists every catalogue model exactly once: it
/// is the catalogue reordered.
pub proof fn lemma_ordered_permutes_all(e: Seq<Seq<char>>, all: Seq<Seq<char>>)
    requires
        e.no_duplicates(),
        all.no_duplicates(),
        forall|i: int| 0 <= i < e.len() ==> all.contains(#[trigger] e[i]),
    ensures
        ordered(Some(e), all).to_multiset() == all.to_multiset(),
{
    let w = without(all, e);
    lemma_without_no_duplicates(all, e);
    let r = e + w;
    assert(ordered(Some(e), all) == r);
    assert forall|a: int, b: int| 0 <= a < r.len() && 0 <= b < r.len() && a != b implies r[a] != r[b] by {
        if a < e.len() && b < e.len() {
            assert(r[a] == e[a] && r[b] == e[b]);
        } else if a >= e.len() && b >= e.len() {
            assert(r[a] == w[a - e.len()] && r[b] == w[b - e.len()]);
        } else {
            let i = if a < e.len() {
                a
            } else {
                b
            };
            let j = if a < e.len() {
                b - e.len()
            } else {
                a - e.len()
            };
            assert(r[i] == e[i] && r[e.len() + j] == w[j]);
            lemma_without_contains(all, e, w[j]);
            assert(w.contains(w[j]));
            assert(e.contains(e[i]));
        }
    }
    r.lemma_multiset_has_no_duplicates();
    all.lemma_multiset_has_no_duplicates();
    r.to_multiset_ensures();
    all.to_multiset_ensures();
    assert forall|x: Seq<char>| r.to_multiset().count(x) == all.to_multiset().count(x) by {
        lemma_ordered_lists_every_model(Some(e), all, x);
        if e.contains(x) {
            let i = choose|i: int| 0 <= i < e.len() && e[i] == x;
            assert(all.contains(e[i]));
        }
    }
    assert(r.to_multiset() =~= all.to_multiset());
}

/// Moving a model by `delta` places and then back by as many gives back
/// the same order, when the first move stays inside the list.
pub proof fn lemma_move_round_trip(e: Seq<Seq<char>>, all: Seq<Seq<char>>, k: int, delta: int)
    requires
        e.no_duplicates(),
        0 <= k < e.len(),
        0 <= k + delta < e.len(),
    ensures
        moved(moved(Some(e), all, e[k], delta), all, e[k], -delta) == Some(e),
{
    let id = e[k];
    let j = k + delta;
    lemma_first_index_unique(e, k);
    let n = e.update(k, e[j]).update(j, e[k]);
    assert(moved(Some(e), all, id, delta) == Some(n));
    assert(n[j] == id);
    assert forall|a: int, b: int| 0 <= a < n.len() && 0 <= b < n.len() && a != b implies n[a] != n[b] by {
        let ea = if a == j {
            k
        } else if a == k {
            j
        } else {
            a
        };
        let eb = if b == j {
            k
        } else if b == k {
            j
        } else {
            b
        };
        assert(n[a] == e[ea] && n[b] == e[eb]);
    }
    lemma_first_index_unique(n, j);
    assert(n.update(j, n[k]).update(k, n[j]) =~= e);
}

/// A move only reorders: what comes out holds the same ids, each as often,
/// as the list it started from.
pub proof fn lemma_move_permutes(enabled: Option<Seq<Seq<char>>>, all: Seq<Seq<char>>, id: Seq<char>, delta: int)
    ensures
        moved(enabled, all, id, delta) matches Some(r) ==> r.to_multiset() == (match enabled {
            Some(e) => e,
            None => all,
        }).to_multiset(),
{
    let next = match enabled {
        Some(e) => e,
        None => all,
    };
    lemma_first_index_of_found(next, id);
    if let Some(k) = first_index_of(next, id) {
        let j = k + delta;
        if 0 <= j < next.len() {
            broadcast use vstd::multiset::group_multiset_axioms;
            let k = k as int;
            let m1 = next.update(k, next[j]);
            let m2 = m1.update(j, next[k]);
            vstd::seq_lib::to_multiset_update(next, k, next[j]);
            vstd::seq_lib::to_multiset_update(m1, j, next[k]);
            assert(m1[j] == next[j]);
            next.to_multiset_ensures();
            assert(next.contains(next[k]));
            assert(next.contains(next[j]));
            let ms = next.to_multiset();
            assert(ms.insert(next[j]).remove(next[k]).insert(next[k]).remove(next[j]) =~= ms);
        }
    }
}

/// The patterns that define the model scope when no scope is handed on:
/// those of `--models`, else the settings' enabled models unless that
/// list is empty; none means no scope.
pub open spec fn scope_patterns_of(args_models: Option<Seq<Seq<char>>>, settings_enabled: Option<Seq<Seq<char>>>) -> Option<
    Seq<Seq<char>>,
> {
    match args_models {
        Some(p) => Some(p),
        None => match settings_enabled {
            Some(p) => if p.len() > 0 {
                Some(p)
            } else {
                None
            },
            None => None,
        },
    }
}

/// Picks the scope's patterns (see `scope_patterns_of`).
pub fn scope_patterns<'a>(args_models: Option<&'a Vec<String>>, settings_enabled: Option<&'a Vec<String>>) -> (r: Option<
    &'a Vec<String>,
>)
    ensures
        match r {
            Some(p) => scope_patterns_of(opt_ref_views(args_models), opt_ref_views(settings_enabled)) == Some(views(p@)),
            None => scope_patterns_of(opt_ref_views(args_models), opt_ref_views(settings_enabled)) is None,
        },
{
    match args_models {
        Some(p) => Some(p),
        None => match settings_enabled {
            Some(p) => if p.len() > 0 {
                Some(p)
            } else {
                None
            },
            None => None,
        },
    }
}

} // verus!
