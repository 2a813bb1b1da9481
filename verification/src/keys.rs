//! How key bindings are written for people: key ids such as `ctrl+shift+p`
//! become `Ctrl+Shift+P`, and the bindings are listed by section.
use vstd::prelude::*;
use crate::text::{
    free_of, lemma_join_free_of, lemma_split_joined, lemma_split_nonempty, lemma_split_pieces_free,
    ascii_lower_char, ascii_upper_char, chars_eq_str, chars_of, extend_chars, has_prefix, join_chars,
    join_seqs, push_str_chars, split_chars, split_seq, starts_with_chars, string_from_chars, to_ascii_lower,
    to_ascii_upper, trim_end_chars, trim_end_seq,
};

verus! {

/// The canonical spelling of a named key, given its lower-case name.
pub open spec fn named_key(lower: Seq<char>) -> Option<Seq<char>> {
    if lower == "ctrl"@ {
        Some("Ctrl"@)
    } else if lower == "alt"@ {
        Some("Alt"@)
    } else if lower == "shift"@ {
        Some("Shift"@)
    } else if lower == "enter"@ {
        Some("Enter"@)
    } else if lower == "escape"@ {
        Some("Escape"@)
    } else if lower == "backspace"@ {
        Some("Backspace"@)
    } else if lower == "delete"@ {
        Some("Delete"@)
    } else if lower == "pageup"@ {
        Some("PageUp"@)
    } else if lower == "pagedown"@ {
        Some("PageDown"@)
    } else if lower == "left"@ {
        Some("Left"@)
    } else if lower == "right"@ {
        Some("Right"@)
    } else if lower == "up"@ {
        Some("Up"@)
    } else if lower == "down"@ {
        Some("Down"@)
    } else if lower == "tab"@ {
        Some("Tab"@)
    } else if lower == "home"@ {
        Some("Home"@)
    } else if lower == "end"@ {
        Some("End"@)
    } else {
        None
    }
}

/// One key of a chord as shown: named keys in their canonical spelling,
/// anything else with its first character in upper case.
pub open spec fn key_part_label(part: Seq<char>) -> Seq<char> {
    match named_key(part.map_values(|c: char| ascii_lower_char(c))) {
        Some(n) => n,
        None => if part.len() == 0 {
            seq![]
        } else {
            seq![ascii_upper_char(part[0])] + part.skip(1)
        },
    }
}

/// A key id as shown: each chord of the `/`-separated alternatives, each
/// key of the `+`-separated chord spelled by `key_part_label`.
pub open spec fn key_id_label(key: Seq<char>) -> Seq<char> {
    join_seqs(
        split_seq(key, '/').map_values(
            |binding: Seq<char>|
                join_seqs(split_seq(binding, '+').map_values(|p: Seq<char>| key_part_label(p)), "+"@),
        ),
        "/"@,
    )
}

/// A named key's canonical spelling names the same key again, and holds
/// neither `/` nor `+`.
proof fn lemma_named_key_canonical(lower: Seq<char>)
    ensures
        named_key(lower) matches Some(n) ==> named_key(n.map_values(|c: char| ascii_lower_char(c))) == Some(n)
            && free_of(n, '/') && free_of(n, '+'),
{
    reveal_strlit("ctrl");
    reveal_strlit("Ctrl");
    reveal_strlit("alt");
    reveal_strlit("Alt");
    reveal_strlit("shift");
    reveal_strlit("Shift");
    reveal_strlit("enter");
    reveal_strlit("Enter");
    reveal_strlit("escape");
    reveal_strlit("Escape");
    reveal_strlit("backspace");
    reveal_strlit("Backspace");
    reveal_strlit("delete");
    reveal_strlit("Delete");
    reveal_strlit("pageup");
    reveal_strlit("PageUp");
    reveal_strlit("pagedown");
    reveal_strlit("PageDown");
    reveal_strlit("left");
    reveal_strlit("Left");
    reveal_strlit("right");
    reveal_strlit("Right");
    reveal_strlit("up");
    reveal_strlit("Up");
    reveal_strlit("down");
    reveal_strlit("Down");
    reveal_strlit("tab");
    reveal_strlit("Tab");
    reveal_strlit("home");
    reveal_strlit("Home");
    reveal_strlit("end");
    reveal_strlit("End");
    if let Some(n) = named_key(lower) {
        let l = n.map_values(|c: char| ascii_lower_char(c));
        if lower == "ctrl"@ {
            assert(l =~= "ctrl"@);
        } else if lower == "alt"@ {
            assert(l =~= "alt"@);
        } else if lower == "shift"@ {
            assert(l =~= "shift"@);
        } else if lower == "enter"@ {
            assert(l =~= "enter"@);
        } else if lower == "escape"@ {
            assert(l =~= "escape"@);
        } else if lower == "backspace"@ {
            assert(l =~= "backspace"@);
        } else if lower == "delete"@ {
            assert(l =~= "delete"@);
        } else if lower == "pageup"@ {
            assert(l =~= "pageup"@);
        } else if lower == "pagedown"@ {
            assert(l =~= "pagedown"@);
        } else if lower == "left"@ {
            assert(l =~= "left"@);
        } else if lower == "right"@ {
            assert(l =~= "right"@);
        } else if lower == "up"@ {
            assert(l =~= "up"@);
        } else if lower == "down"@ {
            assert(l =~= "down"@);
        } else if lower == "tab"@ {
            assert(l =~= "tab"@);
        } else if lower == "home"@ {
            assert(l =~= "home"@);
        } else if lower == "end"@ {
            assert(l =~= "end"@);
        }
    }
}

/// Spelling a key twice spells it as once.
pub proof fn lemma_key_part_label_idempotent(part: Seq<char>)
    ensures
        key_part_label(key_part_label(part)) == key_part_label(part),
{
    lemma_named_key_canonical(part.map_values(|c: char| ascii_lower_char(c)));
    let lp = part.map_values(|c: char| ascii_lower_char(c));
    if named_key(lp) is None && part.len() > 0 {
        let shown = seq![ascii_upper_char(part[0])] + part.skip(1);
        let ls = shown.map_values(|c: char| ascii_lower_char(c));
        assert(ls =~= lp) by {
            assert forall|i: int| 0 <= i < ls.len() implies ls[i] == lp[i] by {
                if i > 0 {
                    assert(shown[i] == part[i]);
                }
            }
        }
        assert(shown[0] == ascii_upper_char(part[0]));
        assert(seq![ascii_upper_char(shown[0])] + shown.skip(1) =~= shown);
    } else if named_key(lp) is None {
        assert(key_part_label(part) =~= part);
    }
}

/// Spelling a key adds no `/` or `+` that it did not hold.
proof fn lemma_key_part_label_free(part: Seq<char>, c: char)
    requires
        c == '/' || c == '+',
        free_of(part, c),
    ensures
        free_of(key_part_label(part), c),
{
    lemma_named_key_canonical(part.map_values(|c: char| ascii_lower_char(c)));
    let lp = part.map_values(|c: char| ascii_lower_char(c));
    if named_key(lp) is None && part.len() > 0 {
        let shown = seq![ascii_upper_char(part[0])] + part.skip(1);
        assert forall|i: int| 0 <= i < shown.len() implies shown[i] != c by {
            if i > 0 {
                assert(shown[i] == part[i]);
            } else {
                assert(part[0] != c);
            }
        }
    }
}

/// A chord without `/`, written out, splits at `+` into its keys as spelled,
/// and holds no `/`.
proof fn lemma_binding_label(b: Seq<char>)
    requires
        free_of(b, '/'),
    ensures
        split_seq(join_seqs(split_seq(b, '+').map_values(|p: Seq<char>| key_part_label(p)), "+"@), '+')
            == split_seq(b, '+').map_values(|p: Seq<char>| key_part_label(p)),
        free_of(join_seqs(split_seq(b, '+').map_values(|p: Seq<char>| key_part_label(p)), "+"@), '/'),
{
    reveal_strlit("+");
    assert("+"@ == seq!['+']);
    let ps = split_seq(b, '+');
    let qs = ps.map_values(|p: Seq<char>| key_part_label(p));
    lemma_split_nonempty(b, '+');
    lemma_split_pieces_free(b, '+', '+');
    lemma_split_pieces_free(b, '+', '/');
    assert forall|i: int| 0 <= i < qs.len() implies free_of(#[trigger] qs[i], '+') && free_of(qs[i], '/') by {
        assert(free_of(ps[i], '+') && free_of(ps[i], '/'));
        lemma_key_part_label_free(ps[i], '+');
        lemma_key_part_label_free(ps[i], '/');
    }
    lemma_split_joined(qs, '+');
    lemma_join_free_of(qs, seq!['+'], '/');
}

/// The written-out alternatives of a key id, split at `/`, are the
/// alternatives of the key id, each written out.
proof fn lemma_key_id_label_split(key: Seq<char>)
    ensures
        split_seq(key_id_label(key), '/') == split_seq(key, '/').map_values(
            |binding: Seq<char>|
                join_seqs(split_seq(binding, '+').map_values(|p: Seq<char>| key_part_label(p)), "+"@),
        ),
{
    reveal_strlit("/");
    assert("/"@ == seq!['/']);
    let bs = split_seq(key, '/');
    let labels = bs.map_values(
        |binding: Seq<char>|
            join_seqs(split_seq(binding, '+').map_values(|p: Seq<char>| key_part_label(p)), "+"@),
    );
    lemma_split_nonempty(key, '/');
    lemma_split_pieces_free(key, '/', '/');
    assert forall|i: int| 0 <= i < labels.len() implies free_of(#[trigger] labels[i], '/') by {
        assert(free_of(bs[i], '/'));
        lemma_binding_label(bs[i]);
    }
    lemma_split_joined(labels, '/');
}

/// Writing a key id out keeps its shape: the same number of `/`-separated
/// alternatives, and in each the same keys, in order, each spelled by
/// `key_part_label`.
pub proof fn lemma_key_id_label_parts(key: Seq<char>)
    ensures
        split_seq(key_id_label(key), '/').len() == split_seq(key, '/').len(),
        forall|i: int|
            0 <= i < split_seq(key, '/').len() ==> split_seq(#[trigger] split_seq(key_id_label(key), '/')[i], '+')
                == split_seq(split_seq(key, '/')[i], '+').map_values(|p: Seq<char>| key_part_label(p)),
{
    lemma_key_id_label_split(key);
    let bs = split_seq(key, '/');
    lemma_split_pieces_free(key, '/', '/');
    assert forall|i: int| 0 <= i < bs.len() implies split_seq(#[trigger] split_seq(key_id_label(key), '/')[i], '+')
        == split_seq(bs[i], '+').map_values(|p: Seq<char>| key_part_label(p)) by {
        assert(free_of(bs[i], '/'));
        lemma_binding_label(bs[i]);
    }
}

/// Writing out a written-out key id changes nothing.
pub proof fn lemma_key_id_label_idempotent(key: Seq<char>)
    ensures
        key_id_label(key_id_label(key)) == key_id_label(key),
{
    reveal_strlit("/");
    lemma_key_id_label_split(key);
    let bs = split_seq(key, '/');
    let labels = split_seq(key_id_label(key), '/');
    lemma_split_pieces_free(key, '/', '/');
    let relabeled = labels.map_values(
        |binding: Seq<char>|
            join_seqs(split_seq(binding, '+').map_values(|p: Seq<char>| key_part_label(p)), "+"@),
    );
    assert forall|i: int| 0 <= i < labels.len() implies #[trigger] relabeled[i] == labels[i] by {
        assert(free_of(bs[i], '/'));
        lemma_binding_label(bs[i]);
        let ps = split_seq(bs[i], '+');
        let qs = ps.map_values(|p: Seq<char>| key_part_label(p));
        assert(qs.map_values(|p: Seq<char>| key_part_label(p)) =~= qs) by {
            assert forall|j: int| 0 <= j < qs.len() implies key_part_label(qs[j]) == qs[j] by {
                lemma_key_part_label_idempotent(ps[j]);
            }
        }
    }
    assert(relabeled =~= labels);
}

/// Lower-casing a key id and then splitting it splits first and lower-cases
/// each piece (neither `/` nor `+` has a case).
proof fn lemma_split_lowered(s: Seq<char>, sep: char)
    requires
        sep == '/' || sep == '+',
    ensures
        split_seq(s.map_values(|c: char| ascii_lower_char(c)), sep) == split_seq(s, sep).map_values(
            |p: Seq<char>| p.map_values(|c: char| ascii_lower_char(c)),
        ),
    decreases s.len(),
{
    let ls = s.map_values(|c: char| ascii_lower_char(c));
    if s.len() == 0 {
        assert(ls =~= Seq::<char>::empty());
        assert(seq![Seq::<char>::empty()].map_values(|p: Seq<char>| p.map_values(|c: char| ascii_lower_char(c)))
            =~= seq![Seq::<char>::empty()]) by {
            assert(Seq::<char>::empty().map_values(|c: char| ascii_lower_char(c)) =~= Seq::<char>::empty());
        }
    } else {
        lemma_split_lowered(s.drop_last(), sep);
        lemma_split_nonempty(s.drop_last(), sep);
        assert(ls.drop_last() =~= s.drop_last().map_values(|c: char| ascii_lower_char(c)));
        assert(ls.last() == ascii_lower_char(s.last()));
        assert((ls.last() == sep) == (s.last() == sep));
        let prev = split_seq(s.drop_last(), sep);
        let lprev = prev.map_values(|p: Seq<char>| p.map_values(|c: char| ascii_lower_char(c)));
        if s.last() == sep {
            assert(lprev.push(seq![]) =~= prev.push(seq![]).map_values(
                |p: Seq<char>| p.map_values(|c: char| ascii_lower_char(c)),
            )) by {
                assert(Seq::<char>::empty().map_values(|c: char| ascii_lower_char(c)) =~= Seq::<char>::empty());
            }
        } else {
            let grown = prev.last().push(s.last());
            assert(grown.map_values(|c: char| ascii_lower_char(c)) =~= lprev.last().push(ls.last()));
            assert(lprev.update(lprev.len() - 1, lprev.last().push(ls.last())) =~= prev.update(
                prev.len() - 1,
                grown,
            ).map_values(|p: Seq<char>| p.map_values(|c: char| ascii_lower_char(c))));
        }
    }
}

/// A key that is named, or at most one character long, is spelled the same
/// whatever its case.
proof fn lemma_key_part_label_lowered(part: Seq<char>)
    requires
        named_key(part.map_values(|c: char| ascii_lower_char(c))) is Some || part.len() <= 1,
    ensures
        key_part_label(part.map_values(|c: char| ascii_lower_char(c))) == key_part_label(part),
{
    let lp = part.map_values(|c: char| ascii_lower_char(c));
    assert(lp.map_values(|c: char| ascii_lower_char(c)) =~= lp);
    if named_key(lp) is None && part.len() == 1 {
        assert(lp.skip(1) =~= part.skip(1));
    } else if part.len() == 0 {
        assert(lp =~= part);
    }
}

/// Every key of every chord of `key` is named or at most one character long.
pub open spec fn keys_named_or_single(key: Seq<char>) -> bool {
    forall|i: int, j: int|
        0 <= i < split_seq(key, '/').len() && 0 <= j < split_seq(split_seq(key, '/')[i], '+').len() ==> {
            let part = #[trigger] split_seq(split_seq(key, '/')[i], '+')[j];
            named_key(part.map_values(|c: char| ascii_lower_char(c))) is Some || part.len() <= 1
        }
}

/// When every key is named or a single character, the case of a key id
/// does not change how it is written out.
pub proof fn lemma_key_id_label_ignores_case(key: Seq<char>)
    requires
        keys_named_or_single(key),
    ensures
        key_id_label(key.map_values(|c: char| ascii_lower_char(c))) == key_id_label(key),
{
    let bs = split_seq(key, '/');
    lemma_split_lowered(key, '/');
    let lbs = split_seq(key.map_values(|c: char| ascii_lower_char(c)), '/');
    let f = |binding: Seq<char>|
        join_seqs(split_seq(binding, '+').map_values(|p: Seq<char>| key_part_label(p)), "+"@);
    assert forall|i: int| 0 <= i < bs.len() implies #[trigger] f(lbs[i]) == f(bs[i]) by {
        let b = bs[i];
        lemma_split_lowered(b, '+');
        let ps = split_seq(b, '+');
        assert(lbs[i] == b.map_values(|c: char| ascii_lower_char(c)));
        let lps = split_seq(lbs[i], '+');
        assert(lps.map_values(|p: Seq<char>| key_part_label(p)) =~= ps.map_values(
            |p: Seq<char>| key_part_label(p),
        )) by {
            assert forall|j: int| 0 <= j < ps.len() implies key_part_label(lps[j]) == key_part_label(ps[j]) by {
                assert(lps[j] == ps[j].map_values(|c: char| ascii_lower_char(c)));
                let part = split_seq(split_seq(key, '/')[i], '+')[j];
                assert(part == ps[j]);
                lemma_key_part_label_lowered(ps[j]);
            }
        }
    }
    assert(lbs.map_values(f) =~= bs.map_values(f));
}

/// Computes `named_key`.
fn named_key_of(lower: &Vec<char>) -> (r: Option<&'static str>)
    ensures
        match r {
            Some(n) => named_key(lower@) == Some(n@),
            None => named_key(lower@) is None,
        },
{
    if chars_eq_str(lower, "ctrl") {
        Some("Ctrl")
    } else if chars_eq_str(lower, "alt") {
        Some("Alt")
    } else if chars_eq_str(lower, "shift") {
        Some("Shift")
    } else if chars_eq_str(lower, "enter") {
        Some("Enter")
    } else if chars_eq_str(lower, "escape") {
        Some("Escape")
    } else if chars_eq_str(lower, "backspace") {
        Some("Backspace")
    } else if chars_eq_str(lower, "delete") {
        Some("Delete")
    } else if chars_eq_str(lower, "pageup") {
        Some("PageUp")
    } else if chars_eq_str(lower, "pagedown") {
        Some("PageDown")
    } else if chars_eq_str(lower, "left") {
        Some("Left")
    } else if chars_eq_str(lower, "right") {
        Some("Right")
    } else if chars_eq_str(lower, "up") {
        Some("Up")
    } else if chars_eq_str(lower, "down") {
        Some("Down")
    } else if chars_eq_str(lower, "tab") {
        Some("Tab")
    } else if chars_eq_str(lower, "home") {
        Some("Home")
    } else if chars_eq_str(lower, "end") {
        Some("End")
    } else {
        None
    }
}

/// Computes `key_part_label`.
fn part_label(part: &Vec<char>) -> (r: Vec<char>)
    ensures
        r@ == key_part_label(part@),
{
    let mut lower: Vec<char> = Vec::new();
    let mut i: usize = 0;
    while i < part.len()
        invariant
            0 <= i <= part@.len(),
            lower@ == part@.take(i as int).map_values(|c: char| ascii_lower_char(c)),
        decreases part@.len() - i,
    {
        lower.push(to_ascii_lower(part[i]));
        assert(part@.take(i + 1) =~= part@.take(i as int).push(part@[i as int]));
        i = i + 1;
        assert(lower@ =~= part@.take(i as int).map_values(|c: char| ascii_lower_char(c)));
    }
    assert(part@.take(part@.len() as int) =~= part@);
    match named_key_of(&lower) {
        Some(n) => chars_of(n),
        None => {
            if part.len() == 0 {
                Vec::new()
            } else {
                let mut r: Vec<char> = Vec::new();
                r.push(to_ascii_upper(part[0]));
                let rest = crate::text::chars_from(part, 1);
                extend_chars(&mut r, &rest);
                r
            }
        },
    }
}

/// Writes a key id for people (see `key_id_label`).
pub fn capitalize_key_id(key: &str) -> (r: String)
    ensures
        r@ == key_id_label(key@),
{
    let kc = chars_of(key);
    let bindings = split_chars(&kc, '/');
    let ghost bs = bindings@.map_values(|p: Vec<char>| p@);
    let ghost f = |binding: Seq<char>|
        join_seqs(split_seq(binding, '+').map_values(|p: Seq<char>| key_part_label(p)), "+"@);
    let mut labels: Vec<Vec<char>> = Vec::new();
    let mut i: usize = 0;
    while i < bindings.len()
        invariant
            0 <= i <= bindings@.len(),
            bs == bindings@.map_values(|p: Vec<char>| p@),
            f == (|binding: Seq<char>|
                join_seqs(split_seq(binding, '+').map_values(|p: Seq<char>| key_part_label(p)), "+"@)),
            labels@.len() == i,
            forall|k: int| 0 <= k < i ==> (#[trigger] labels@[k])@ == f(bs[k]),
        decreases bindings@.len() - i,
    {
        let parts = split_chars(&bindings[i], '+');
        let ghost ps = parts@.map_values(|p: Vec<char>| p@);
        let mut shown: Vec<Vec<char>> = Vec::new();
        let mut j: usize = 0;
        while j < parts.len()
            invariant
                0 <= j <= parts@.len(),
                ps == parts@.map_values(|p: Vec<char>| p@),
                shown@.len() == j,
                forall|k: int| 0 <= k < j ==> (#[trigger] shown@[k])@ == key_part_label(ps[k]),
            decreases parts@.len() - j,
        {
            shown.push(part_label(&parts[j]));
            j = j + 1;
        }
        assert(shown@.map_values(|p: Vec<char>| p@) =~= ps.map_values(|p: Seq<char>| key_part_label(p)));
        let joined = join_chars(&shown, "+");
        assert(joined@ == f(bs[i as int]));
        labels.push(joined);
        i = i + 1;
    }
    assert(labels@.map_values(|p: Vec<char>| p@) =~= bs.map_values(f));
    let all = join_chars(&labels, "/");
    string_from_chars(&all)
}

/// The keys bound to an action as shown: `(unbound)` without any, the
/// labels joined with ` / ` otherwise.
pub open spec fn key_list_label(keys: Seq<Seq<char>>) -> Seq<char> {
    if keys.len() == 0 {
        "(unbound)"@
    } else {
        join_seqs(keys.map_values(|k: Seq<char>| key_id_label(k)), " / "@)
    }
}

/// Computes `key_list_label`.
pub fn format_key_ids(keys: &Vec<String>) -> (r: String)
    ensures
        r@ == key_list_label(crate::listnav::views(keys@)),
{
    if keys.len() == 0 {
        return crate::text::owned("(unbound)");
    }
    let ghost ks = crate::listnav::views(keys@);
    let mut labels: Vec<Vec<char>> = Vec::new();
    let mut i: usize = 0;
    while i < keys.len()
        invariant
            0 <= i <= keys@.len(),
            ks == crate::listnav::views(keys@),
            labels@.len() == i,
            forall|k: int| 0 <= k < i ==> (#[trigger] labels@[k])@ == key_id_label(ks[k]),
        decreases keys@.len() - i,
    {
        let l = capitalize_key_id(keys[i].as_str());
        labels.push(chars_of(l.as_str()));
        i = i + 1;
    }
    assert(labels@.map_values(|p: Vec<char>| p@) =~= ks.map_values(|k: Seq<char>| key_id_label(k)));
    let all = join_chars(&labels, " / ");
    string_from_chars(&all)
}

/// One action of the keybinding table as the hotkeys list shows it.
pub struct HotkeyEntry {
    /// The action id, such as `tui.editor.cursorLeft`.
    pub id: String,
    /// The key ids bound to it.
    pub keys: Vec<String>,
    pub description: Option<String>,
}

/// The abstract value of an entry: id, keys, description.
pub open spec fn hotkey_view(e: HotkeyEntry) -> (Seq<char>, Seq<Seq<char>>, Option<Seq<char>>) {
    (
        e.id@,
        crate::listnav::views(e.keys@),
        match e.description {
            Some(d) => Some(d@),
            None => None,
        },
    )
}

/// The section an action is listed under.
pub open spec fn hotkey_section(id: Seq<char>) -> Seq<char> {
    if has_prefix(id, "tui.editor."@) {
        "Editor"@
    } else if has_prefix(id, "tui.input."@) {
        "Input"@
    } else if has_prefix(id, "tui.select."@) {
        "Selection"@
    } else {
        "Application"@
    }
}

/// The lines listing `entries` after the section `current`: a section
/// heading (after a blank line, unless it is the first) wherever the
/// section changes, then one `keys: description` line per action; the
/// scoped-model actions are left out.
pub open spec fn hotkey_lines(
    entries: Seq<(Seq<char>, Seq<Seq<char>>, Option<Seq<char>>)>,
    current: Option<Seq<char>>,
) -> Seq<Seq<char>>
    decreases entries.len(),
{
    if entries.len() == 0 {
        seq![]
    } else {
        let e = entries[0];
        if has_prefix(e.0, "app.scopedModels."@) {
            hotkey_lines(entries.drop_first(), current)
        } else {
            let section = hotkey_section(e.0);
            let heading = if current == Some(section) {
                seq![]
            } else if current is Some {
                seq![seq![], section]
            } else {
                seq![section]
            };
            let line = key_list_label(e.1) + ": "@ + match e.2 {
                Some(d) => d,
                None => e.0,
            };
            heading + seq![line] + hotkey_lines(entries.drop_first(), Some(section))
        }
    }
}

/// The hotkeys text: a title, a blank line and the listing, without
/// trailing whitespace.
pub open spec fn hotkeys_text(entries: Seq<(Seq<char>, Seq<Seq<char>>, Option<Seq<char>>)>) -> Seq<char> {
    trim_end_seq(
        crate::messages::joined_lines(seq!["Keyboard Shortcuts"@, seq![]] + hotkey_lines(entries, None)),
    )
}

/// The section heading of an action.
fn section_of(id: &Vec<char>) -> (r: &'static str)
    ensures
        r@ == hotkey_section(id@),
{
    if starts_with_chars(id, "tui.editor.") {
        "Editor"
    } else if starts_with_chars(id, "tui.input.") {
        "Input"
    } else if starts_with_chars(id, "tui.select.") {
        "Selection"
    } else {
        "Application"
    }
}

/// The hotkeys text for the keybinding table (see `hotkeys_text`).
pub fn render_hotkeys_text(entries: &Vec<HotkeyEntry>) -> (r: String)
    ensures
        r@ == hotkeys_text(entries@.map_values(|e: HotkeyEntry| hotkey_view(e))),
{
    let ghost es = entries@.map_values(|e: HotkeyEntry| hotkey_view(e));
    let mut out: Vec<char> = Vec::new();
    push_str_chars(&mut out, "Keyboard Shortcuts");
    out.push('\n');
    out.push('\n');
    let ghost head = seq!["Keyboard Shortcuts"@, seq![]];
    proof {
        reveal_with_fuel(crate::messages::joined_lines, 3);
    }
    assert(out@ =~= crate::messages::joined_lines(head));
    let ghost mut done: Seq<Seq<char>> = seq![];
    let mut current: Option<&'static str> = None;
    let mut i: usize = 0;
    assert(es.skip(0) =~= es);
    while i < entries.len()
        invariant
            0 <= i <= entries@.len(),
            es == entries@.map_values(|e: HotkeyEntry| hotkey_view(e)),
            done + hotkey_lines(es.skip(i as int), match current {
                Some(c) => Some(c@),
                None => None,
            }) == hotkey_lines(es, None),
            out@ == crate::messages::joined_lines(head + done),
        decreases entries@.len() - i,
    {
        let ghost rest = es.skip(i as int);
        assert(rest[0] == hotkey_view(entries@[i as int]));
        assert(rest.drop_first() =~= es.skip(i + 1));
        let id = chars_of(entries[i].id.as_str());
        if !starts_with_chars(&id, "app.scopedModels.") {
            let section = section_of(&id);
            let mut added: Vec<Vec<char>> = Vec::new();
            let same = match current {
                Some(c) => {
                    let cc = chars_of(c);
                    chars_eq_str(&cc, section)
                },
                None => false,
            };
            if !same {
                if current.is_some() {
                    added.push(Vec::new());
                }
                added.push(chars_of(section));
            }
            let keys = format_key_ids(&entries[i].keys);
            let mut line = chars_of(keys.as_str());
            push_str_chars(&mut line, ": ");
            match &entries[i].description {
                Some(d) => push_str_chars(&mut line, d.as_str()),
                None => extend_chars(&mut line, &id),
            }
            added.push(line);
            let ghost new_lines = added@.map_values(|p: Vec<char>| p@);
            let mut k: usize = 0;
            let ghost base = done;
            while k < added.len()
                invariant
                    0 <= k <= added@.len(),
                    new_lines == added@.map_values(|p: Vec<char>| p@),
                    out@ == crate::messages::joined_lines(head + base + new_lines.take(k as int)),
                decreases added@.len() - k,
            {
                let ghost before = out@;
                extend_chars(&mut out, &added[k]);
                out.push('\n');
                let ghost prefix = head + base + new_lines.take(k as int);
                assert(head + base + new_lines.take(k + 1) =~= prefix.push(new_lines[k as int]));
                assert(prefix.push(new_lines[k as int]).drop_last() =~= prefix);
                assert(out@ =~= before + new_lines[k as int] + seq!['\n']);
                k = k + 1;
            }
            assert(new_lines.take(new_lines.len() as int) =~= new_lines);
            proof {
                let cur = match current {
                    Some(c) => Some(c@),
                    None => None,
                };
                assert(same == (cur == Some(section@)));
                assert(new_lines =~= (if cur == Some(section@) {
                    seq![]
                } else if cur is Some {
                    seq![seq![], section@]
                } else {
                    seq![section@]
                }) + seq![line@]);
                done = base + new_lines;
                assert(head + base + new_lines =~= head + done);
            }
            current = Some(section);
        }
        i = i + 1;
    }
    assert(es.skip(i as int) =~= seq![]);
    assert(done =~= hotkey_lines(es, None));
    let trimmed = trim_end_chars(&out);
    string_from_chars(&trimmed)
}

} // verus!
