//! What the interactive session shows after a picker closes: where a tree
//! jump goes, the scope that comes out of the scoped-models picker, and the
//! status line of each outcome.
use vstd::prelude::*;
use crate::args::ThinkingLevel;
use crate::listnav::views;
use crate::scoped_picker::{full_id_of, full_model_id, last_index_of, PickerModel};
use crate::text::{chars_eq_str, chars_of, owned, push_str_chars, string_from_chars};

verus! {

/// The id of the tree's root.
pub open spec fn root_entry_id() -> Seq<char> {
    "root"@
}

/// Where choosing a tree entry leads.
#[derive(Clone, Debug, PartialEq, Eq)]
pub enum TreeNavigation {
    /// The chosen entry is where the session already is.
    AlreadyHere,
    /// Back to before the first entry.
    ResetToRoot,
    /// To the chosen entry.
    Branch(String),
}

/// Decides where choosing `selected` leads; the status is
/// `tree_navigation_status` of the result.
pub fn tree_navigation(selected: &str, current: &str) -> (r: TreeNavigation)
    ensures
        selected@ == current@ ==> r == TreeNavigation::AlreadyHere,
        selected@ != current@ && selected@ == root_entry_id() ==> r == TreeNavigation::ResetToRoot,
        selected@ != current@ && selected@ != root_entry_id() ==> (r matches TreeNavigation::Branch(id)
            && id@ == selected@),
{
    let s = chars_of(selected);
    let c = chars_of(current);
    if crate::text::chars_eq(&s, &c) {
        TreeNavigation::AlreadyHere
    } else if chars_eq_str(&s, "root") {
        TreeNavigation::ResetToRoot
    } else {
        TreeNavigation::Branch(owned(selected))
    }
}

/// The status after a tree jump.
pub fn tree_navigation_status(nav: &TreeNavigation) -> (r: &'static str)
    ensures
        r@ == match nav {
            TreeNavigation::AlreadyHere => "Already at this point"@,
            _ => "Navigated to selected point"@,
        },
{
    match nav {
        TreeNavigation::AlreadyHere => "Already at this point",
        _ => "Navigated to selected point",
    }
}

/// What an OAuth picker was opened for.
#[derive(Clone, Copy, Debug, PartialEq, Eq)]
pub enum OAuthPickerMode {
    Login,
    Logout,
}

/// The status when OAuth has no agent directory to keep credentials in.
pub fn oauth_requires_agent_dir_message(mode: OAuthPickerMode) -> (r: &'static str)
    ensures
        r@ == match mode {
            OAuthPickerMode::Login => "OAuth login requires an agent directory."@,
            OAuthPickerMode::Logout => "OAuth logout requires an agent directory."@,
        },
{
    match mode {
        OAuthPickerMode::Login => "OAuth login requires an agent directory.",
        OAuthPickerMode::Logout => "OAuth logout requires an agent directory.",
    }
}

/// The status after a login: the provider logged in to, or the error.
pub open spec fn login_status(result: Result<Seq<char>, Seq<char>>) -> Seq<char> {
    match result {
        Ok(name) => "Logged in to "@ + name,
        Err(e) => "Error: "@ + e,
    }
}

/// Builds `login_status`.
pub fn login_status_message(result: &Result<String, String>) -> (r: String)
    ensures
        r@ == login_status(
            match result {
                Ok(n) => Ok(n@),
                Err(e) => Err(e@),
            },
        ),
{
    let mut v = match result {
        Ok(_) => chars_of("Logged in to "),
        Err(_) => chars_of("Error: "),
    };
    match result {
        Ok(n) => push_str_chars(&mut v, n.as_str()),
        Err(e) => push_str_chars(&mut v, e.as_str()),
    }
    string_from_chars(&v)
}

/// The status after a logout of `provider_id` (shown as `provider_name`):
/// whether credentials were removed, or the error.
pub open spec fn logout_status(result: Result<bool, Seq<char>>, provider_id: Seq<char>, provider_name: Seq<char>) -> Seq<
    char,
> {
    match result {
        Ok(true) => "Logged out of "@ + provider_name,
        Ok(false) => "No OAuth credentials stored for "@ + provider_id,
        Err(e) => "Error: "@ + e,
    }
}

/// Builds `logout_status`.
pub fn logout_status_message(result: &Result<bool, String>, provider_id: &str, provider_name: &str) -> (r: String)
    ensures
        r@ == logout_status(
            match result {
                Ok(b) => Ok(*b),
                Err(e) => Err(e@),
            },
            provider_id@,
            provider_name@,
        ),
{
    let v = match result {
        Ok(true) => {
            let mut v = chars_of("Logged out of ");
            push_str_chars(&mut v, provider_name);
            v
        },
        Ok(false) => {
            let mut v = chars_of("No OAuth credentials stored for ");
            push_str_chars(&mut v, provider_id);
            v
        },
        Err(e) => {
            let mut v = chars_of("Error: ");
            push_str_chars(&mut v, e.as_str());
            v
        },
    };
    string_from_chars(&v)
}

/// A model of the cycling scope.
#[derive(Clone, Debug, PartialEq, Eq)]
pub struct ScopedModelRef {
    pub provider: String,
    pub id: String,
    /// The thinking level the scope pins for it, if any.
    pub thinking_level: Option<ThinkingLevel>,
}

/// The abstract value of a scoped model.
pub open spec fn scoped_ref_view(m: ScopedModelRef) -> (Seq<char>, Seq<char>, Option<ThinkingLevel>) {
    (m.provider@, m.id@, m.thinking_level)
}

/// The abstract values of scoped models.
pub open spec fn scoped_refs_view(v: Seq<ScopedModelRef>) -> Seq<(Seq<char>, Seq<char>, Option<ThinkingLevel>)> {
    v.map_values(|m: ScopedModelRef| scoped_ref_view(m))
}

/// Whether two scopes name the same models, in the same order, with the
/// same thinking levels.
pub fn same_scoped_models(left: &Vec<ScopedModelRef>, right: &Vec<ScopedModelRef>) -> (r: bool)
    ensures
        r == (scoped_refs_view(left@) == scoped_refs_view(right@)),
{
    if left.len() != right.len() {
        assert(scoped_refs_view(left@).len() != scoped_refs_view(right@).len());
        return false;
    }
    let mut i: usize = 0;
    while i < left.len()
        invariant
            0 <= i <= left@.len(),
            left@.len() == right@.len(),
            forall|k: int| 0 <= k < i ==> scoped_ref_view(#[trigger] left@[k]) == scoped_ref_view(right@[k]),
        decreases left@.len() - i,
    {
        let same_level = match (left[i].thinking_level, right[i].thinking_level) {
            (None, None) => true,
            (Some(a), Some(b)) => a == b,
            _ => false,
        };
        if !(left[i].provider == right[i].provider && left[i].id == right[i].id && same_level) {
            assert(scoped_refs_view(left@)[i as int] != scoped_refs_view(right@)[i as int]);
            return false;
        }
        i = i + 1;
    }
    assert(scoped_refs_view(left@) =~= scoped_refs_view(right@));
    true
}

/// The status after the scoped-models picker closed: whether the scope
/// changed (and was cleared), and whether it was saved.
pub open spec fn scope_status(changed: bool, next_empty: bool, saved: bool, can_persist: bool) -> Seq<char> {
    let base = if changed {
        if next_empty {
            "Model scope cleared"@
        } else {
            "Updated session model scope"@
        }
    } else {
        "Model scope unchanged"@
    };
    if saved {
        if can_persist {
            if changed {
                base + " and saved to settings"@
            } else {
                "Saved model scope to settings"@
            }
        } else if !changed {
            "Settings unavailable; model scope unchanged"@
        } else {
            base
        }
    } else {
        base
    }
}

/// Builds `scope_status` for a scope that went from `previous` to `next`.
pub fn scoped_models_status_message(
    previous: &Vec<ScopedModelRef>,
    next: &Vec<ScopedModelRef>,
    saved: bool,
    can_persist: bool,
) -> (r: String)
    ensures
        r@ == scope_status(
            scoped_refs_view(previous@) != scoped_refs_view(next@),
            next@.len() == 0,
            saved,
            can_persist,
        ),
{
    let changed = !same_scoped_models(previous, next);
    let mut v = if changed {
        if next.len() == 0 {
            chars_of("Model scope cleared")
        } else {
            chars_of("Updated session model scope")
        }
    } else {
        chars_of("Model scope unchanged")
    };
    if saved {
        if can_persist {
            if changed {
                push_str_chars(&mut v, " and saved to settings");
            } else {
                v = chars_of("Saved model scope to settings");
            }
        } else if !changed {
            v = chars_of("Settings unavailable; model scope unchanged");
        }
    }
    string_from_chars(&v)
}

/// The full ids of the models.
pub open spec fn full_ids(models: Seq<PickerModel>) -> Seq<Seq<char>> {
    models.map_values(|m: PickerModel| full_id_of(m.provider@, m.id@))
}

/// The models the ids in `order` name, in that order (each id naming the
/// last model with that full id; unknown ids skipped).
pub open spec fn models_named(models: Seq<PickerModel>, order: Seq<Seq<char>>) -> Seq<(Seq<char>, Seq<char>)>
    decreases order.len(),
{
    if order.len() == 0 {
        seq![]
    } else {
        let prev = models_named(models, order.drop_last());
        match last_index_of(full_ids(models), order.last()) {
            Some(k) => prev.push((models[k as int].provider@, models[k as int].id@)),
            None => prev,
        }
    }
}

/// The scope that comes out of the picker: none when every model is
/// enabled, when nothing is, or when the list is as long as the catalogue;
/// otherwise the enabled models in order, with no pinned thinking level.
pub open spec fn scope_from_enabled(models: Seq<PickerModel>, enabled: Option<Seq<Seq<char>>>) -> Seq<
    (Seq<char>, Seq<char>),
> {
    match enabled {
        None => seq![],
        Some(e) => if e.len() == 0 || e.len() >= models.len() {
            seq![]
        } else {
            models_named(models, e)
        },
    }
}

/// Computes `scope_from_enabled`.
pub fn scoped_models_from_enabled_ids(models: &Vec<PickerModel>, enabled_ids: Option<&Vec<String>>) -> (r: Vec<
    ScopedModelRef,
>)
    ensures
        r@.map_values(|m: ScopedModelRef| (m.provider@, m.id@)) == scope_from_enabled(
            models@,
            crate::scoped_models::opt_ref_views(enabled_ids),
        ),
        forall|k: int| 0 <= k < r@.len() ==> (#[trigger] r@[k]).thinking_level is None,
{
    let e = match enabled_ids {
        None => {
            let none: Vec<ScopedModelRef> = Vec::new();
            assert(none@.map_values(|m: ScopedModelRef| (m.provider@, m.id@)) =~= seq![]);
            return none;
        },
        Some(e) => e,
    };
    if e.len() == 0 || e.len() >= models.len() {
        let none: Vec<ScopedModelRef> = Vec::new();
        assert(none@.map_values(|m: ScopedModelRef| (m.provider@, m.id@)) =~= seq![]);
        return none;
    }
    let mut ids: Vec<String> = Vec::new();
    let mut j: usize = 0;
    while j < models.len()
        invariant
            0 <= j <= models@.len(),
            ids@.len() == j,
            forall|k: int| 0 <= k < j ==> (#[trigger] ids@[k])@ == full_id_of(models@[k].provider@, models@[k].id@),
        decreases models@.len() - j,
    {
        ids.push(full_model_id(&models[j]));
        j = j + 1;
    }
    assert(views(ids@) =~= full_ids(models@));
    let ghost ev = views(e@);
    let mut r: Vec<ScopedModelRef> = Vec::new();
    let mut i: usize = 0;
    while i < e.len()
        invariant
            0 <= i <= e@.len(),
            ev == views(e@),
            views(ids@) == full_ids(models@),
            ids@.len() == models@.len(),
            r@.map_values(|m: ScopedModelRef| (m.provider@, m.id@)) == models_named(models@, ev.take(i as int)),
            forall|k: int| 0 <= k < r@.len() ==> (#[trigger] r@[k]).thinking_level is None,
        decreases e@.len() - i,
    {
        assert(ev.take(i + 1).drop_last() =~= ev.take(i as int));
        assert(ev.take(i + 1).last() == e@[i as int]@);
        let mut k: usize = ids.len();
        let ghost vs = views(ids@);
        assert(vs.take(k as int) =~= vs);
        let mut found: Option<usize> = None;
        while k > 0
            invariant_except_break
                found is None,
            invariant
                0 <= k <= ids@.len(),
                i < e@.len(),
                vs == views(ids@),
                last_index_of(vs, e@[i as int]@) == last_index_of(vs.take(k as int), e@[i as int]@),
            ensures
                found matches Some(x) ==> last_index_of(vs, e@[i as int]@) == Some(x as nat),
                found is None ==> last_index_of(vs, e@[i as int]@) is None,
            decreases k,
        {
            assert(vs.take(k as int).drop_last() =~= vs.take(k - 1));
            assert(vs.take(k as int).last() == ids@[k - 1]@);
            if ids[k - 1] == e[i] {
                found = Some(k - 1);
                break;
            }
            k = k - 1;
        }
        if let Some(x) = found {
            proof {
                crate::scoped_picker::lemma_last_index_of_found(vs, e@[i as int]@);
            }
            let ghost before = r@;
            let m = ScopedModelRef {
                provider: models[x].provider.clone(),
                id: models[x].id.clone(),
                thinking_level: None,
            };
            r.push(m);
            assert(r@.map_values(|m: ScopedModelRef| (m.provider@, m.id@)) =~= before.map_values(
                |m: ScopedModelRef| (m.provider@, m.id@),
            ).push((models@[x as int].provider@, models@[x as int].id@)));
        }
        i = i + 1;
    }
    assert(ev.take(ev.len() as int) =~= ev);
    r
}


/// The status after the settings picker: whether anything changed, and
/// whether the change went to the settings file or only to this session.
pub open spec fn settings_transition_status(changed: bool, can_persist: bool) -> Seq<char> {
    if !changed {
        "Settings unchanged"@
    } else if can_persist {
        "Updated settings"@
    } else {
        "Updated session settings"@
    }
}

/// Builds `settings_transition_status`.
pub fn settings_transition_message(changed: bool, can_persist: bool) -> (r: &'static str)
    ensures
        r@ == settings_transition_status(changed, can_persist),
{
    if !changed {
        "Settings unchanged"
    } else if can_persist {
        "Updated settings"
    } else {
        "Updated session settings"
    }
}

/// What forking from the interactive session does.
pub enum ForkTransition {
    /// The session has no user message to fork from; the picker is not shown.
    NothingToFork,
    /// The picker was closed without a choice.
    Cancelled,
    /// Branch at the chosen message's parent, with its text in the editor.
    Branch { parent_id: String, prefill: String },
    /// Start a new session with the chosen message's text in the editor.
    NewSession { prefill: String },
}

/// The abstract value of a fork transition: whether it forks, where, and
/// the editor's text.
pub open spec fn fork_transition_view(t: ForkTransition) -> Option<(Option<Seq<char>>, Seq<char>)> {
    match t {
        ForkTransition::NothingToFork => None,
        ForkTransition::Cancelled => None,
        ForkTransition::Branch { parent_id, prefill } => Some((Some(parent_id@), prefill@)),
        ForkTransition::NewSession { prefill } => Some((None, prefill@)),
    }
}

/// The status line after a fork transition.
pub open spec fn fork_transition_status(t: ForkTransition) -> Option<Seq<char>> {
    match t {
        ForkTransition::NothingToFork => Some("No messages to fork from"@),
        ForkTransition::Cancelled => None,
        _ => Some("Branched to new session"@),
    }
}

/// Decides the fork transition from the candidates and the picker's
/// choice (`None` when it was closed without one): nothing to fork where
/// there is no candidate, else the chosen candidate's parent and text; an
/// error where the choice is no longer among the candidates.
pub fn fork_transition(candidates: &Vec<crate::list_picker::ForkMessageCandidate>, picked: Option<&str>) -> (r: Result<
    ForkTransition,
    String,
>)
    ensures
        candidates@.len() == 0 ==> r matches Ok(ForkTransition::NothingToFork),
        candidates@.len() > 0 && picked is None ==> r matches Ok(ForkTransition::Cancelled),
        candidates@.len() > 0 ==> (picked matches Some(id) ==> match crate::rpc_replies::candidate_position(
            crate::rpc_replies::candidate_views(candidates@),
            id@,
        ) {
            Some(k) => r matches Ok(t) && fork_transition_view(t) == Some(
                (
                    crate::rpc_replies::candidate_views(candidates@)[k as int].1,
                    crate::rpc_replies::candidate_views(candidates@)[k as int].2,
                ),
            ),
            None => r matches Err(e) && e@ == "Fork selection is no longer available"@,
        }),
{
    if candidates.len() == 0 {
        return Ok(ForkTransition::NothingToFork);
    }
    let id = match picked {
        None => {
            return Ok(ForkTransition::Cancelled);
        },
        Some(id) => id,
    };
    match crate::rpc_replies::rpc_fork_target(candidates, id) {
        Ok(crate::rpc_replies::ForkTarget::Branch { parent_id, text }) => Ok(
            ForkTransition::Branch { parent_id, prefill: text },
        ),
        Ok(crate::rpc_replies::ForkTarget::NewSession { text }) => Ok(ForkTransition::NewSession { prefill: text }),
        Err(_) => Err(owned("Fork selection is no longer available")),
    }
}

/// Builds `fork_transition_status`.
pub fn fork_transition_message(t: &ForkTransition) -> (r: Option<&'static str>)
    ensures
        match r {
            Some(m) => fork_transition_status(*t) == Some(m@),
            None => fork_transition_status(*t) is None,
        },
{
    match t {
        ForkTransition::NothingToFork => Some("No messages to fork from"),
        ForkTransition::Cancelled => None,
        _ => Some("Branched to new session"),
    }
}

/// Why an OAuth picker is not opened: for a login, no provider offers
/// OAuth; for a logout, the stored credentials could not be read or none
/// are stored.
pub open spec fn oauth_picker_refusal(mode: OAuthPickerMode, providers: Result<nat, Seq<char>>) -> Option<Seq<char>> {
    match providers {
        Err(e) => Some("Error: "@ + e),
        Ok(n) => if n > 0 {
            None
        } else {
            match mode {
                OAuthPickerMode::Login => Some("No OAuth providers available"@),
                OAuthPickerMode::Logout => Some("No OAuth providers logged in. Use /login first."@),
            }
        },
    }
}

/// Builds `oauth_picker_refusal` from the providers the picker would list
/// (or the error reading them).
pub fn oauth_picker_status(mode: OAuthPickerMode, providers: &Result<Vec<String>, String>) -> (r: Option<String>)
    ensures
        crate::slash::opt_view(r) == oauth_picker_refusal(
            mode,
            match providers {
                Ok(p) => Ok(p@.len()),
                Err(e) => Err(e@),
            },
        ),
{
    match providers {
        Err(e) => {
            let mut v = chars_of("Error: ");
            push_str_chars(&mut v, e.as_str());
            Some(string_from_chars(&v))
        },
        Ok(p) => if p.len() > 0 {
            None
        } else {
            match mode {
                OAuthPickerMode::Login => Some(owned("No OAuth providers available")),
                OAuthPickerMode::Logout => Some(owned("No OAuth providers logged in. Use /login first.")),
            }
        },
    }
}


/// The transitions that work on the running session's data, and so cannot
/// start without it.
pub open spec fn needs_session_data(kind: crate::slash::TransitionKind) -> bool {
    match kind {
        crate::slash::TransitionKind::ForkPicker => true,
        crate::slash::TransitionKind::TreePicker => true,
        crate::slash::TransitionKind::SettingsPicker => true,
        crate::slash::TransitionKind::ScopedModelsPicker => true,
        crate::slash::TransitionKind::Reload => true,
        _ => false,
    }
}

/// The error of a transition that needs the session's data where there is
/// none ("Session data unavailable"); none otherwise.
pub fn session_data_refusal(kind: crate::slash::TransitionKind, has_session_data: bool) -> (r: Option<&'static str>)
    ensures
        match r {
            Some(m) => needs_session_data(kind) && !has_session_data && m@ == "Session data unavailable"@,
            None => !needs_session_data(kind) || has_session_data,
        },
{
    let needs = match kind {
        crate::slash::TransitionKind::ForkPicker => true,
        crate::slash::TransitionKind::TreePicker => true,
        crate::slash::TransitionKind::SettingsPicker => true,
        crate::slash::TransitionKind::ScopedModelsPicker => true,
        crate::slash::TransitionKind::Reload => true,
        _ => false,
    };
    if needs && !has_session_data {
        Some("Session data unavailable")
    } else {
        None
    }
}

/// Where a new session comes from.
#[derive(Clone, Copy, Debug, PartialEq, Eq)]
pub enum NewSessionBase {
    /// A fresh session of the running session's manager, keeping its
    /// model, thinking level, model scope and settings.
    FromRunningSession,
    /// A fresh in-memory session in the current directory, with the
    /// defaults.
    InMemory,
}

/// The plan of `/new`: where the session comes from (see
/// `NewSessionBase`), and the status "New session started".
pub fn new_session_plan(has_session_data: bool) -> (r: (NewSessionBase, &'static str))
    ensures
        r.0 == (if has_session_data {
            NewSessionBase::FromRunningSession
        } else {
            NewSessionBase::InMemory
        }),
        r.1@ == "New session started"@,
{
    let base = if has_session_data {
        NewSessionBase::FromRunningSession
    } else {
        NewSessionBase::InMemory
    };
    (base, "New session started")
}

/// The status after the resume picker: "Resumed session" where a session
/// was chosen, none where the picker was closed (the running session
/// stays).
pub fn resume_transition_message(chosen: bool) -> (r: Option<&'static str>)
    ensures
        match r {
            Some(m) => chosen && m@ == "Resumed session"@,
            None => !chosen,
        },
{
    if chosen {
        Some("Resumed session")
    } else {
        None
    }
}

} // verus!
