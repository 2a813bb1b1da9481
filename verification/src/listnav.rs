//! Selection and scrolling arithmetic shared by the list pickers, plus the
//! decimal rendering of counters.
use vstd::prelude::*;
use crate::text::{extend_chars, string_from_chars};

verus! {

/// The selection after moving up one row in a list of `len` rows that wraps
/// from the first row to the last.
pub open spec fn wrapped_up(selected: nat, len: nat) -> nat {
    if len == 0 {
        selected
    } else if selected == 0 {
        (len - 1) as nat
    } else {
        (selected - 1) as nat
    }
}

/// The selection after moving down one row in a list of `len` rows that
/// wraps from the last row to the first.
pub open spec fn wrapped_down(selected: nat, len: nat) -> nat {
    if len == 0 {
        selected
    } else if selected + 1 >= len {
        0
    } else {
        selected + 1
    }
}

/// Moves the selection up one row, wrapping to the last row.
pub fn wrap_up(selected: usize, len: usize) -> (r: usize)
    ensures
        r == wrapped_up(selected as nat, len as nat),
{
    if len == 0 {
        selected
    } else if selected == 0 {
        len - 1
    } else {
        selected - 1
    }
}

/// Moves the selection down one row, wrapping to the first row.
pub fn wrap_down(selected: usize, len: usize) -> (r: usize)
    ensures
        r == wrapped_down(selected as nat, len as nat),
{
    if len == 0 {
        selected
    } else if selected >= len - 1 {
        0
    } else {
        selected + 1
    }
}

/// The selection after a page up: `page` rows earlier, stopping at the top.
pub open spec fn paged_up(selected: nat, page: nat) -> nat {
    if selected >= page {
        (selected - page) as nat
    } else {
        0
    }
}

/// The selection after a page down: `page` rows later, stopping at the last
/// row (row 0 of an empty list).
pub open spec fn paged_down(selected: nat, page: nat, len: nat) -> nat {
    let last: nat = if len > 0 {
        (len - 1) as nat
    } else {
        0
    };
    if selected + page <= last {
        selected + page
    } else {
        last
    }
}

/// Moves the selection one page up.
pub fn page_up(selected: usize, page: usize) -> (r: usize)
    ensures
        r == paged_up(selected as nat, page as nat),
{
    if selected >= page {
        selected - page
    } else {
        0
    }
}

/// Moves the selection one page down.
pub fn page_down(selected: usize, page: usize, len: usize) -> (r: usize)
    requires
        selected + page <= usize::MAX,
    ensures
        r == paged_down(selected as nat, page as nat, len as nat),
{
    let last: usize = if len > 0 {
        len - 1
    } else {
        0
    };
    if selected + page <= last {
        selected + page
    } else {
        last
    }
}

/// The selection after clamped steps (no wrapping): one row up.
pub open spec fn clamped_up(selected: nat) -> nat {
    if selected > 0 {
        (selected - 1) as nat
    } else {
        0
    }
}

/// The selection after a clamped step one row down in a list of `len` rows.
pub open spec fn clamped_down(selected: nat, len: nat) -> nat {
    paged_down(selected, 1, len)
}

/// How many rows a picker shows: the viewport height less the rows its
/// chrome takes (at least one), or `default` before the viewport is known.
pub open spec fn max_visible_rows(viewport: Option<(usize, usize)>, reserved: nat, default: nat) -> nat {
    match viewport {
        Some((_w, h)) => if h > reserved && h - reserved >= 1 {
            (h - reserved) as nat
        } else {
            1
        },
        None => default,
    }
}

/// Computes `max_visible_rows`.
pub fn max_visible(viewport: Option<(usize, usize)>, reserved: usize, default: usize) -> (r: usize)
    ensures
        r == max_visible_rows(viewport, reserved as nat, default as nat),
{
    match viewport {
        Some((_w, h)) => if h > reserved && h - reserved >= 1 {
            h - reserved
        } else {
            1
        },
        None => default,
    }
}

/// First row of the scrolled window: the selection sits near the middle
/// unless the window would run past the end of the list.
pub open spec fn window_start(selected: nat, len: nat, max_visible: nat) -> nat {
    let centred: nat = if selected >= max_visible / 2 {
        (selected - max_visible / 2) as nat
    } else {
        0
    };
    let latest: nat = if len >= max_visible {
        (len - max_visible) as nat
    } else {
        0
    };
    if centred <= latest {
        centred
    } else {
        latest
    }
}

/// One past the last row of the scrolled window.
pub open spec fn window_end(selected: nat, len: nat, max_visible: nat) -> nat {
    let start = window_start(selected, len, max_visible);
    if start + max_visible <= len {
        start + max_visible
    } else {
        len
    }
}

/// The rows `[start, end)` a picker shows.
pub fn visible_window(selected: usize, len: usize, max_visible: usize) -> (r: (usize, usize))
    ensures
        r.0 == window_start(selected as nat, len as nat, max_visible as nat),
        r.1 == window_end(selected as nat, len as nat, max_visible as nat),
{
    let half = max_visible / 2;
    let centred: usize = if selected >= half {
        selected - half
    } else {
        0
    };
    let latest: usize = if len >= max_visible {
        len - max_visible
    } else {
        0
    };
    let start = if centred <= latest {
        centred
    } else {
        latest
    };
    let end = if len - start >= max_visible {
        start + max_visible
    } else {
        len
    };
    (start, end)
}

/// The decimal digits of `n`.
pub open spec fn decimal(n: nat) -> Seq<char>
    decreases n,
{
    if n < 10 {
        seq![((48 + n) as u32) as char]
    } else {
        decimal(n / 10).push(((48 + n % 10) as u32) as char)
    }
}

/// Renders `n` in decimal.
pub fn decimal_chars(n: u64) -> (r: Vec<char>)
    ensures
        r@ == decimal(n as nat),
    decreases n,
{
    if n < 10 {
        let d: u8 = 48 + (n as u8);
        let mut v: Vec<char> = Vec::new();
        v.push(d as char);
        v
    } else {
        let mut v = decimal_chars(n / 10);
        let d: u8 = 48 + ((n % 10) as u8);
        v.push(d as char);
        v
    }
}

/// The counter line a scrolled picker shows under its rows: `  (k/n)`.
pub open spec fn counter_line(selected: nat, len: nat) -> Seq<char> {
    seq![' ', ' ', '('] + decimal(selected + 1) + seq!['/'] + decimal(len) + seq![')']
}

/// Renders `counter_line`.
pub fn counter_text(selected: usize, len: usize) -> (r: String)
    requires
        selected < len,
    ensures
        r@ == counter_line(selected as nat, len as nat),
{
    let mut v: Vec<char> = Vec::new();
    v.push(' ');
    v.push(' ');
    v.push('(');
    let a = decimal_chars((selected + 1) as u64);
    extend_chars(&mut v, &a);
    v.push('/');
    let b = decimal_chars(len as u64);
    extend_chars(&mut v, &b);
    v.push(')');
    string_from_chars(&v)
}

/// The row marker: an arrow on the selected row, two spaces elsewhere.
pub open spec fn row_prefix(is_selected: bool) -> Seq<char> {
    if is_selected {
        seq!['→', ' ']
    } else {
        seq![' ', ' ']
    }
}

/// Index of the first element of `ids` equal to `id`, if any.
pub open spec fn first_index_of(ids: Seq<Seq<char>>, id: Seq<char>) -> Option<nat>
    decreases ids.len(),
{
    if ids.len() == 0 {
        None
    } else if ids.last() == id {
        match first_index_of(ids.drop_last(), id) {
            Some(k) => Some(k),
            None => Some((ids.len() - 1) as nat),
        }
    } else {
        first_index_of(ids.drop_last(), id)
    }
}

/// The selection after the rows were filtered again: the row of the item
/// that was selected before if it is still listed, otherwise the old index
/// clamped to the new length.
pub open spec fn reselected(previous: Option<Seq<char>>, ids: Seq<Seq<char>>, selected: nat) -> nat {
    match previous {
        Some(p) => match first_index_of(ids, p) {
            Some(k) => k,
            None => paged_down(selected, 0, ids.len()),
        },
        None => paged_down(selected, 0, ids.len()),
    }
}

/// The view of each string.
pub open spec fn views(v: Seq<String>) -> Seq<Seq<char>> {
    v.map_values(|s: String| s@)
}

/// Position of `id` in `ids`.
pub fn position_of(ids: &Vec<String>, id: &String) -> (r: Option<usize>)
    ensures
        r matches Some(k) ==> first_index_of(views(ids@), id@) == Some(k as nat),
        r is None ==> first_index_of(views(ids@), id@) is None,
{
    let ghost vs = views(ids@);
    let mut i: usize = 0;
    while i < ids.len()
        invariant
            0 <= i <= ids@.len(),
            vs == views(ids@),
            vs.len() == ids@.len(),
            first_index_of(vs.take(i as int), id@) is None,
        decreases ids@.len() - i,
    {
        assert(vs.take(i + 1).drop_last() == vs.take(i as int));
        if ids[i] == *id {
            assert(vs.take(i + 1).last() == id@);
            proof {
                lemma_first_index_prefix(vs, id@, (i + 1) as nat);
            }
            return Some(i);
        }
        i = i + 1;
    }
    assert(vs.take(vs.len() as int) == vs);
    None
}

/// A first occurrence found in a prefix is the first occurrence overall.
pub proof fn lemma_first_index_prefix(ids: Seq<Seq<char>>, id: Seq<char>, n: nat)
    requires
        n <= ids.len(),
        first_index_of(ids.take(n as int), id) is Some,
    ensures
        first_index_of(ids, id) == first_index_of(ids.take(n as int), id),
    decreases ids.len() - n,
{
    if n < ids.len() {
        let m = (n + 1) as nat;
        assert(ids.take(m as int).drop_last() == ids.take(n as int));
        lemma_first_index_prefix(ids, id, m);
    } else {
        assert(ids.take(n as int) == ids);
    }
}

/// Computes `reselected`.
pub fn reselect(previous: Option<&String>, ids: &Vec<String>, selected: usize) -> (r: usize)
    ensures
        r == reselected(
            match previous {
                Some(p) => Some(p@),
                None => None,
            },
            views(ids@),
            selected as nat,
        ),
{
    let clamped = page_down(selected, 0, ids.len());
    match previous {
        Some(p) => match position_of(ids, p) {
            Some(k) => k,
            None => clamped,
        },
        None => clamped,
    }
}

/// Every navigation step keeps a valid selection valid: after moving up,
/// down, a page up or a page down, the selection still names a row.
pub proof fn lemma_navigation_stays_in_range(selected: nat, len: nat, page: nat)
    requires
        selected < len,
    ensures
        wrapped_up(selected, len) < len,
        wrapped_down(selected, len) < len,
        paged_up(selected, page) < len,
        paged_down(selected, page, len) < len,
        clamped_up(selected) < len,
        clamped_down(selected, len) < len,
{
}

/// Each step moves by what it names: one row down or up in a wrapping list,
/// one row or a page in a list that stops at its ends.
pub proof fn lemma_navigation_steps(selected: nat, len: nat, page: nat)
    requires
        selected < len,
    ensures
        wrapped_down(selected, len) as int == ((selected + 1) as int) % (len as int),
        wrapped_up(selected, len) as int == ((selected + len - 1) as int) % (len as int),
        clamped_up(selected) as int == (if selected == 0 { 0 } else { selected - 1 }),
        clamped_down(selected, len) as int == (if selected + 1 < len { (selected + 1) as int } else { selected as int }),
        paged_up(selected, page) as int == (if selected >= page { selected - page } else { 0 }),
        paged_down(selected, page, len) as int == (if selected + page < len { (selected + page) as int } else { len - 1 }),
{
    if selected + 1 < len {
        vstd::arithmetic::div_mod::lemma_small_mod((selected + 1) as nat, len);
    } else {
        vstd::arithmetic::div_mod::lemma_mod_self_0(len as int);
    }
    if selected > 0 {
        vstd::arithmetic::div_mod::lemma_mod_add_multiples_vanish((selected - 1) as int, len as int);
        vstd::arithmetic::div_mod::lemma_small_mod((selected - 1) as nat, len);
    } else {
        vstd::arithmetic::div_mod::lemma_small_mod((len - 1) as nat, len);
    }
}

/// Moving down and then up (or up and then down) in a wrapping list returns
/// to the row one started on.
pub proof fn lemma_wrap_round_trip(selected: nat, len: nat)
    requires
        selected < len,
    ensures
        wrapped_up(wrapped_down(selected, len), len) == selected,
        wrapped_down(wrapped_up(selected, len), len) == selected,
{
}

/// The scrolled window always shows the selected row: it starts at or before
/// the selection, ends after it, holds at most `max_visible` rows (exactly
/// that many when the list is long enough) and stays within the list.
pub proof fn lemma_window_shows_selection(selected: nat, len: nat, max_visible: nat)
    requires
        selected < len,
        max_visible >= 1,
    ensures
        window_start(selected, len, max_visible) <= selected,
        selected < window_end(selected, len, max_visible),
        window_end(selected, len, max_visible) <= len,
        window_end(selected, len, max_visible) - window_start(selected, len, max_visible) == (
        if len < max_visible {
            len
        } else {
            max_visible
        }),
{
}

/// After filtering again, a previously selected item that is still listed
/// stays selected, and the selection names a row whenever there is one.
pub proof fn lemma_reselect_keeps_item(previous: Option<Seq<char>>, ids: Seq<Seq<char>>, selected: nat)
    ensures
        ids.len() > 0 ==> reselected(previous, ids, selected) < ids.len(),
        previous matches Some(p) ==> (first_index_of(ids, p) is Some ==> ids[reselected(
            previous,
            ids,
            selected,
        ) as int] == p),
{
    if let Some(p) = previous {
        lemma_first_index_of_found(ids, p);
    }
}

/// What `first_index_of` finds is an occurrence.
pub proof fn lemma_first_index_of_found(ids: Seq<Seq<char>>, id: Seq<char>)
    ensures
        first_index_of(ids, id) matches Some(k) ==> k < ids.len() && ids[k as int] == id,
    decreases ids.len(),
{
    if ids.len() > 0 {
        lemma_first_index_of_found(ids.drop_last(), id);
    }
}

} // verus!
