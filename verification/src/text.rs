//! Character-level helpers shared by the renderers: Unicode character
//! classes, trimming, whitespace collapsing and string assembly.
use vstd::prelude::*;

verus! {

/// Unicode general category Cc: U+0000..=U+001F and U+007F..=U+009F
/// (what `char::is_control` decides).
pub open spec fn is_control_char(c: char) -> bool {
    (c as u32) <= 0x1f || (0x7f <= (c as u32) && (c as u32) <= 0x9f)
}

/// The Unicode `White_Space` property (what `char::is_whitespace` decides).
pub open spec fn is_whitespace_char(c: char) -> bool {
    let v = c as u32;
    ||| (0x09 <= v && v <= 0x0d)
    ||| v == 0x20
    ||| v == 0x85
    ||| v == 0xa0
    ||| v == 0x1680
    ||| (0x2000 <= v && v <= 0x200a)
    ||| v == 0x2028
    ||| v == 0x2029
    ||| v == 0x202f
    ||| v == 0x205f
    ||| v == 0x3000
}

/// Decides `is_control_char`.
pub fn char_is_control(c: char) -> (b: bool)
    ensures
        b == is_control_char(c),
{
    let v = c as u32;
    v <= 0x1f || (0x7f <= v && v <= 0x9f)
}

/// Decides `is_whitespace_char`.
pub fn char_is_whitespace(c: char) -> (b: bool)
    ensures
        b == is_whitespace_char(c),
{
    let v = c as u32;
    (0x09 <= v && v <= 0x0d) || v == 0x20 || v == 0x85 || v == 0xa0 || v == 0x1680 || (0x2000
        <= v && v <= 0x200a) || v == 0x2028 || v == 0x2029 || v == 0x202f || v == 0x205f || v
        == 0x3000
}

/// The characters of a string slice, in order.
pub fn chars_of(s: &str) -> (v: Vec<char>)
    ensures
        v@ == s@,
{
    let mut v: Vec<char> = Vec::new();
    for c in it: s.chars()
        invariant
            v@ == it.seq().take(it.index() as int),
            it.seq() == s@,
    {
        v.push(c);
    }
    v
}

/// Builds a `String` from characters, through `String`'s `FromIterator<&char>`,
/// which appends the characters in the order the iterator yields them.
#[verifier::external_body]
pub(crate) fn string_from_chars(v: &Vec<char>) -> (s: String)
    ensures
        s@ == v@,
{
    v.iter().collect()
}

/// Copies a string slice into a new `String` (`str::to_owned`).
pub fn owned(s: &str) -> (r: String)
    ensures
        r@ == s@,
{
    s.to_owned()
}

/// Appends the characters of `s` to `out`.
pub fn push_str_chars(out: &mut Vec<char>, s: &str)
    ensures
        final(out)@ == old(out)@ + s@,
{
    let cs = chars_of(s);
    let mut i: usize = 0;
    while i < cs.len()
        invariant
            0 <= i <= cs@.len(),
            cs@ == s@,
            out@ == old(out)@ + cs@.take(i as int),
        decreases cs@.len() - i,
    {
        out.push(cs[i]);
        i = i + 1;
        assert(cs@.take(i as int) == cs@.take(i - 1 as int).push(cs@[i - 1]));
    }
    assert(cs@.take(cs@.len() as int) == cs@);
}

/// Appends `src` to `out`.
pub fn extend_chars(out: &mut Vec<char>, src: &Vec<char>)
    ensures
        final(out)@ == old(out)@ + src@,
{
    let mut i: usize = 0;
    while i < src.len()
        invariant
            0 <= i <= src@.len(),
            out@ == old(out)@ + src@.take(i as int),
        decreases src@.len() - i,
    {
        out.push(src[i]);
        i = i + 1;
        assert(src@.take(i as int) == src@.take(i - 1 as int).push(src@[i - 1]));
    }
    assert(src@.take(src@.len() as int) == src@);
}

/// `s` with its leading whitespace removed.
pub open spec fn trim_start_seq(s: Seq<char>) -> Seq<char>
    decreases s.len(),
{
    if s.len() > 0 && is_whitespace_char(s[0]) {
        trim_start_seq(s.drop_first())
    } else {
        s
    }
}

/// `s` with its trailing whitespace removed.
pub open spec fn trim_end_seq(s: Seq<char>) -> Seq<char>
    decreases s.len(),
{
    if s.len() > 0 && is_whitespace_char(s.last()) {
        trim_end_seq(s.drop_last())
    } else {
        s
    }
}

/// `s` with whitespace removed at both ends (what `str::trim` returns).
pub open spec fn trim_seq(s: Seq<char>) -> Seq<char> {
    trim_end_seq(trim_start_seq(s))
}

/// What trimming the start leaves does not start with whitespace.
proof fn lemma_trim_start_clean(s: Seq<char>)
    ensures
        trim_start_seq(s).len() > 0 ==> !is_whitespace_char(trim_start_seq(s)[0]),
    decreases s.len(),
{
    if s.len() > 0 && is_whitespace_char(s[0]) {
        lemma_trim_start_clean(s.drop_first());
    }
}

/// Trimming the end leaves a prefix that does not end with whitespace.
proof fn lemma_trim_end_prefix(s: Seq<char>)
    ensures
        trim_end_seq(s).len() <= s.len(),
        trim_end_seq(s) == s.take(trim_end_seq(s).len() as int),
        trim_end_seq(s).len() > 0 ==> !is_whitespace_char(trim_end_seq(s).last()),
    decreases s.len(),
{
    if s.len() > 0 && is_whitespace_char(s.last()) {
        lemma_trim_end_prefix(s.drop_last());
        let r = trim_end_seq(s.drop_last());
        assert(s.drop_last().take(r.len() as int) == s.take(r.len() as int));
    } else {
        assert(s.take(s.len() as int) == s);
    }
}

/// Trimming trimmed text changes nothing.
pub proof fn lemma_trim_idempotent(s: Seq<char>)
    ensures
        trim_seq(trim_seq(s)) == trim_seq(s),
{
    let a = trim_start_seq(s);
    lemma_trim_start_clean(s);
    lemma_trim_end_prefix(a);
    let u = trim_end_seq(a);
    if u.len() > 0 {
        assert(u[0] == a[0]);
    }
    assert(trim_start_seq(u) == u);
}

/// Removes whitespace at both ends of a character sequence.
pub fn trim_chars(s: &Vec<char>) -> (r: Vec<char>)
    ensures
        r@ == trim_seq(s@),
{
    let n = s.len();
    let mut a: usize = 0;
    assert(s@.subrange(0, n as int) == s@);
    while a < n && char_is_whitespace(s[a])
        invariant
            0 <= a <= n,
            n == s@.len(),
            trim_start_seq(s@) == trim_start_seq(s@.subrange(a as int, n as int)),
        decreases n - a,
    {
        assert(s@.subrange(a as int, n as int).drop_first() == s@.subrange(a + 1, n as int));
        a = a + 1;
    }
    assert(trim_start_seq(s@.subrange(a as int, n as int)) == s@.subrange(a as int, n as int));
    let mut b: usize = n;
    while b > a && char_is_whitespace(s[b - 1])
        invariant
            a <= b <= n,
            n == s@.len(),
            trim_seq(s@) == trim_end_seq(s@.subrange(a as int, b as int)),
        decreases b - a,
    {
        assert(s@.subrange(a as int, b as int).drop_last() == s@.subrange(a as int, b - 1));
        b = b - 1;
    }
    let mut r: Vec<char> = Vec::new();
    let mut i: usize = a;
    while i < b
        invariant
            a <= i <= b,
            b <= n,
            n == s@.len(),
            r@ == s@.subrange(a as int, i as int),
        decreases b - i,
    {
        r.push(s[i]);
        i = i + 1;
    }
    r
}

/// `str::trim` as a new `String`.
pub fn trim_str(s: &str) -> (r: String)
    ensures
        r@ == trim_seq(s@),
{
    let cs = chars_of(s);
    let t = trim_chars(&cs);
    string_from_chars(&t)
}

/// A character that `sanitize_display_text` treats as a word break:
/// whitespace, or a control character (which the renderer blanks out).
pub open spec fn is_display_separator(c: char) -> bool {
    is_whitespace_char(c) || is_control_char(c)
}

/// Length of the run of non-separators that `s` starts with.
pub open spec fn word_len(s: Seq<char>) -> nat
    decreases s.len(),
{
    if s.len() == 0 || is_display_separator(s[0]) {
        0
    } else {
        1 + word_len(s.drop_first())
    }
}

/// A run is never longer than the sequence it starts.
pub proof fn lemma_word_len_bound(s: Seq<char>)
    ensures
        word_len(s) <= s.len(),
        s.len() > 0 && !is_display_separator(s[0]) ==> word_len(s) >= 1,
    decreases s.len(),
{
    if s.len() > 0 && !is_display_separator(s[0]) {
        lemma_word_len_bound(s.drop_first());
    }
}

/// The maximal runs of non-separator characters of `s`, in order.
pub open spec fn display_words(s: Seq<char>) -> Seq<Seq<char>>
    decreases s.len(),
{
    if s.len() == 0 {
        seq![]
    } else if is_display_separator(s[0]) {
        display_words(s.drop_first())
    } else {
        proof {
            lemma_word_len_bound(s);
        }
        seq![s.take(word_len(s) as int)] + display_words(s.skip(word_len(s) as int))
    }
}

/// `ws` joined with `sep` between neighbours.
pub open spec fn join_seqs(ws: Seq<Seq<char>>, sep: Seq<char>) -> Seq<char>
    decreases ws.len(),
{
    if ws.len() == 0 {
        seq![]
    } else if ws.len() == 1 {
        ws[0]
    } else {
        ws[0] + sep + join_seqs(ws.drop_first(), sep)
    }
}

/// What `sanitize_display_text` returns: the words of `s` joined by single spaces.
pub open spec fn sanitized_seq(s: Seq<char>) -> Seq<char> {
    join_seqs(display_words(s), seq![' '])
}

/// `a` and `b` joined by one space, when both are non-empty.
pub open spec fn glue_space(a: Seq<char>, b: Seq<char>) -> Seq<char> {
    if a.len() == 0 {
        b
    } else if b.len() == 0 {
        a
    } else {
        a + seq![' '] + b
    }
}

proof fn lemma_join_cons(w: Seq<char>, rest: Seq<Seq<char>>)
    requires
        w.len() > 0,
        rest.len() > 0 ==> rest[0].len() > 0,
    ensures
        join_seqs(seq![w] + rest, seq![' ']) == glue_space(w, join_seqs(rest, seq![' '])),
{
    let ws = seq![w] + rest;
    assert(ws.drop_first() == rest);
    if rest.len() > 0 {
        assert(join_seqs(rest, seq![' ']).len() > 0) by {
            if rest.len() > 1 {
                assert(join_seqs(rest, seq![' ']) == rest[0] + seq![' '] + join_seqs(
                    rest.drop_first(),
                    seq![' '],
                ));
            }
        }
    }
}

proof fn lemma_words_nonempty(s: Seq<char>)
    ensures
        display_words(s).len() > 0 ==> display_words(s)[0].len() > 0,
    decreases s.len(),
{
    if s.len() > 0 {
        if is_display_separator(s[0]) {
            lemma_words_nonempty(s.drop_first());
        } else {
            lemma_word_len_bound(s);
        }
    }
}

/// Replaces control characters with spaces and collapses every run of
/// whitespace into one space, dropping it at both ends.
pub fn sanitize_display_text(text: &str) -> (r: String)
    ensures
        r@ == sanitized_seq(text@),
{
    let cs = chars_of(text);
    let out = sanitize_chars(&cs);
    string_from_chars(&out)
}

/// `sanitize_display_text` on a character sequence.
pub fn sanitize_chars(cs: &Vec<char>) -> (out: Vec<char>)
    ensures
        out@ == sanitized_seq(cs@),
{
    let ghost s = cs@;
    let n = cs.len();
    let mut out: Vec<char> = Vec::new();
    let mut i: usize = 0;
    assert(s.skip(0) == s);
    while i < n
        invariant
            0 <= i <= n,
            n == s.len(),
            s == cs@,
            sanitized_seq(s) == glue_space(out@, sanitized_seq(s.skip(i as int))),
        decreases n - i,
    {
        let c = cs[i];
        if char_is_whitespace(c) || char_is_control(c) {
            assert(s.skip(i as int).drop_first() == s.skip(i + 1));
            i = i + 1;
        } else {
            let mut j: usize = i;
            while j < n && !(char_is_whitespace(cs[j]) || char_is_control(cs[j]))
                invariant
                    i <= j <= n,
                    n == s.len(),
                    s == cs@,
                    word_len(s.skip(i as int)) == (j - i) + word_len(s.skip(j as int)),
                decreases n - j,
            {
                assert(s.skip(j as int).drop_first() == s.skip(j + 1));
                j = j + 1;
            }
            let ghost t = s.skip(i as int);
            assert(word_len(t) == j - i);
            assert(t.take((j - i) as int) == s.subrange(i as int, j as int));
            assert(t.skip((j - i) as int) == s.skip(j as int));
            let ghost w = s.subrange(i as int, j as int);
            let ghost rest = display_words(s.skip(j as int));
            proof {
                lemma_words_nonempty(s.skip(j as int));
                lemma_join_cons(w, rest);
            }
            let ghost old_out = out@;
            if out.len() > 0 {
                out.push(' ');
            }
            let mut k: usize = i;
            while k < j
                invariant
                    i <= k <= j,
                    j <= n,
                    n == s.len(),
                    s == cs@,
                    out@ == (if old_out.len() == 0 {
                        seq![]
                    } else {
                        old_out + seq![' ']
                    }) + s.subrange(i as int, k as int),
                decreases j - k,
            {
                out.push(cs[k]);
                k = k + 1;
            }
            assert(out@ == glue_space(old_out, w));
            i = j;
        }
    }
    assert(s.skip(n as int).len() == 0);
    out
}

/// `sanitize_display_text` cut to at most `max` characters: longer text
/// keeps its first `max - 3` characters (none when `max < 3`) and gets "...".
pub open spec fn truncated_for_tree(text: Seq<char>, max: nat) -> Seq<char> {
    let s = sanitized_seq(text);
    if s.len() <= max {
        s
    } else {
        s.take(if max >= 3 { max - 3 } else { 0 }) + seq!['.', '.', '.']
    }
}

/// Shortens a description for one line of the session tree.
pub fn truncate_text_for_tree(text: &str, max: usize) -> (r: String)
    ensures
        r@ == truncated_for_tree(text@, max as nat),
{
    let cs = chars_of(text);
    let s = sanitize_chars(&cs);
    if s.len() <= max {
        return string_from_chars(&s);
    }
    let keep: usize = if max >= 3 { max - 3 } else { 0 };
    let mut out: Vec<char> = Vec::new();
    let mut i: usize = 0;
    while i < keep
        invariant
            0 <= i <= keep,
            keep < s@.len(),
            out@ == s@.take(i as int),
        decreases keep - i,
    {
        out.push(s[i]);
        i = i + 1;
    }
    out.push('.');
    out.push('.');
    out.push('.');
    string_from_chars(&out)
}

/// A word as `display_words` yields it: not empty, and without separators.
pub open spec fn is_display_word(w: Seq<char>) -> bool {
    w.len() > 0 && forall|j: int| 0 <= j < w.len() ==> !is_display_separator(#[trigger] w[j])
}

/// The run at the start of `s` holds no separator.
proof fn lemma_word_has_no_separator(s: Seq<char>)
    ensures
        forall|j: int| 0 <= j < word_len(s) ==> !is_display_separator(#[trigger] s[j]),
    decreases s.len(),
{
    if s.len() > 0 && !is_display_separator(s[0]) {
        lemma_word_len_bound(s);
        lemma_word_has_no_separator(s.drop_first());
        assert forall|j: int| 0 <= j < word_len(s) implies !is_display_separator(#[trigger] s[j]) by {
            if j > 0 {
                assert(s[j] == s.drop_first()[j - 1]);
            }
        }
    }
}

/// Every word that `display_words` yields is a display word.
pub proof fn lemma_display_words_are_words(s: Seq<char>)
    ensures
        forall|i: int| 0 <= i < display_words(s).len() ==> is_display_word(#[trigger] display_words(s)[i]),
    decreases s.len(),
{
    if s.len() > 0 {
        if is_display_separator(s[0]) {
            assert(display_words(s) == display_words(s.drop_first()));
            lemma_display_words_are_words(s.drop_first());
        } else {
            lemma_word_len_bound(s);
            lemma_word_has_no_separator(s);
            let w = s.take(word_len(s) as int);
            let rest = display_words(s.skip(word_len(s) as int));
            lemma_display_words_are_words(s.skip(word_len(s) as int));
            assert(is_display_word(w)) by {
                assert forall|j: int| 0 <= j < w.len() implies !is_display_separator(#[trigger] w[j]) by {
                    assert(w[j] == s[j]);
                }
            }
            assert(display_words(s) == seq![w] + rest);
            assert forall|i: int| 0 <= i < display_words(s).len() implies is_display_word(
                #[trigger] display_words(s)[i],
            ) by {
                if i > 0 {
                    assert(display_words(s)[i] == rest[i - 1]);
                } else {
                    assert(display_words(s)[0] == w);
                }
            }
        }
    }
}

/// A run of non-separators followed by `y` starts with a run that long.
proof fn lemma_word_len_of_word_then(w: Seq<char>, y: Seq<char>)
    requires
        forall|j: int| 0 <= j < w.len() ==> !is_display_separator(#[trigger] w[j]),
    ensures
        word_len(w + y) == w.len() + word_len(y),
    decreases w.len(),
{
    if w.len() > 0 {
        let t = w.drop_first();
        assert forall|j: int| 0 <= j < t.len() implies !is_display_separator(#[trigger] t[j]) by {
            assert(t[j] == w[j + 1]);
        }
        lemma_word_len_of_word_then(t, y);
        assert((w + y)[0] == w[0]);
        assert((w + y).drop_first() == t + y);
    } else {
        assert(w + y == y);
    }
}

/// Joining display words with single spaces and splitting the result into
/// words again gives back the same words.
pub proof fn lemma_display_words_of_joined(ws: Seq<Seq<char>>)
    requires
        forall|i: int| 0 <= i < ws.len() ==> is_display_word(#[trigger] ws[i]),
    ensures
        display_words(join_seqs(ws, seq![' '])) == ws,
    decreases ws.len(),
{
    if ws.len() == 0 {
    } else {
        let w = ws[0];
        assert(is_display_word(w));
        let rest = ws.drop_first();
        assert forall|i: int| 0 <= i < rest.len() implies is_display_word(#[trigger] rest[i]) by {
            assert(rest[i] == ws[i + 1]);
        }
        lemma_display_words_of_joined(rest);
        let tail: Seq<char> = if ws.len() == 1 {
            seq![]
        } else {
            seq![' '] + join_seqs(rest, seq![' '])
        };
        let t = join_seqs(ws, seq![' ']);
        if ws.len() == 1 {
            assert(t == w + tail);
        } else {
            assert(t == w + tail);
            assert(is_display_separator(tail[0]));
        }
        lemma_word_len_of_word_then(w, tail);
        assert(word_len(tail) == 0);
        assert(t[0] == w[0]);
        assert(t.take(w.len() as int) == w);
        assert(t.skip(w.len() as int) == tail);
        if ws.len() == 1 {
            assert(display_words(tail).len() == 0);
            assert(display_words(t) == seq![w]);
            assert(ws == seq![w]);
        } else {
            assert(tail.drop_first() == join_seqs(rest, seq![' ']));
            assert(display_words(tail) == rest);
            assert(display_words(t) == seq![w] + rest);
            assert(ws == seq![w] + rest);
        }
    }
}

/// Text whose only separators are single spaces between two other
/// characters: no control character, no whitespace at either end, no two
/// separators side by side.
pub open spec fn well_spaced(s: Seq<char>) -> bool {
    &&& s.len() > 0 ==> !is_display_separator(s[0]) && !is_display_separator(s[s.len() - 1])
    &&& forall|i: int|
        0 <= i < s.len() && is_display_separator(#[trigger] s[i]) ==> s[i] == ' ' && 0 < i < s.len() - 1
            && !is_display_separator(s[i - 1]) && !is_display_separator(s[i + 1])
}

/// Display words joined by single spaces are well spaced.
proof fn lemma_joined_words_well_spaced(ws: Seq<Seq<char>>)
    requires
        forall|i: int| 0 <= i < ws.len() ==> is_display_word(#[trigger] ws[i]),
    ensures
        well_spaced(join_seqs(ws, seq![' '])),
        ws.len() > 0 ==> join_seqs(ws, seq![' ']).len() > 0,
    decreases ws.len(),
{
    if ws.len() == 1 {
        assert(is_display_word(ws[0]));
    } else if ws.len() > 1 {
        let w = ws[0];
        assert(is_display_word(w));
        let rest = ws.drop_first();
        assert forall|i: int| 0 <= i < rest.len() implies is_display_word(#[trigger] rest[i]) by {
            assert(rest[i] == ws[i + 1]);
        }
        lemma_joined_words_well_spaced(rest);
        let r = join_seqs(rest, seq![' ']);
        let t = join_seqs(ws, seq![' ']);
        assert(t == w + seq![' '] + r);
        let n = w.len();
        assert(is_whitespace_char(' '));
        assert forall|i: int| 0 <= i < t.len() && is_display_separator(#[trigger] t[i]) implies t[i] == ' ' && 0 < i
            < t.len() - 1 && !is_display_separator(t[i - 1]) && !is_display_separator(t[i + 1]) by {
            if i < n {
                assert(t[i] == w[i]);
            } else if i == n {
                assert(t[i - 1] == w[n - 1]);
                assert(t[i + 1] == r[0]);
            } else {
                let k = i - n - 1;
                assert(t[i] == r[k]);
                if k > 0 {
                    assert(t[i - 1] == r[k - 1]);
                }
                assert(t[i + 1] == r[k + 1]);
            }
        }
        assert(t[0] == w[0]);
        assert(t[t.len() - 1] == r[r.len() - 1]);
    }
}

/// Sanitized text holds no control character, starts and ends with neither
/// whitespace nor a control character, and separates its words by single
/// spaces.
pub proof fn lemma_sanitized_well_spaced(s: Seq<char>)
    ensures
        well_spaced(sanitized_seq(s)),
        forall|i: int| 0 <= i < sanitized_seq(s).len() ==> !is_control_char(#[trigger] sanitized_seq(s)[i]),
{
    lemma_display_words_are_words(s);
    lemma_joined_words_well_spaced(display_words(s));
    let r = sanitized_seq(s);
    assert forall|i: int| 0 <= i < r.len() implies !is_control_char(#[trigger] r[i]) by {
        if is_control_char(r[i]) {
            assert(is_display_separator(r[i]));
        }
    }
}

/// Sanitizing sanitized text changes nothing.
pub proof fn lemma_sanitized_idempotent(s: Seq<char>)
    ensures
        sanitized_seq(sanitized_seq(s)) == sanitized_seq(s),
{
    lemma_display_words_are_words(s);
    lemma_display_words_of_joined(display_words(s));
}

/// A tree line is never longer than `max`, or than the three dots when
/// `max` is below three.
pub proof fn lemma_truncated_for_tree_len(text: Seq<char>, max: nat)
    ensures
        truncated_for_tree(text, max).len() <= (if max >= 3 { max } else { 3 }),
{
}

/// ASCII upper-case letters mapped to lower case; every other character kept.
pub open spec fn ascii_lower_char(c: char) -> char {
    if 'A' <= c && c <= 'Z' {
        ((c as u32) + 32) as char
    } else {
        c
    }
}

/// ASCII lower-case letters mapped to upper case; every other character kept.
pub open spec fn ascii_upper_char(c: char) -> char {
    if 'a' <= c && c <= 'z' {
        ((c as u32) - 32) as char
    } else {
        c
    }
}

/// `char::to_ascii_lowercase`.
pub fn to_ascii_lower(c: char) -> (r: char)
    ensures
        r == ascii_lower_char(c),
{
    if 'A' <= c && c <= 'Z' {
        ((c as u8) + 32) as char
    } else {
        c
    }
}

/// `char::to_ascii_uppercase`.
pub fn to_ascii_upper(c: char) -> (r: char)
    ensures
        r == ascii_upper_char(c),
{
    if 'a' <= c && c <= 'z' {
        ((c as u8) - 32) as char
    } else {
        c
    }
}

/// Whether two character sequences are equal.
pub fn chars_eq(a: &Vec<char>, b: &Vec<char>) -> (r: bool)
    ensures
        r == (a@ == b@),
{
    if a.len() != b.len() {
        return false;
    }
    let mut i: usize = 0;
    while i < a.len()
        invariant
            0 <= i <= a@.len(),
            a@.len() == b@.len(),
            forall|k: int| 0 <= k < i ==> a@[k] == b@[k],
        decreases a@.len() - i,
    {
        if a[i] != b[i] {
            return false;
        }
        i = i + 1;
    }
    assert(a@ =~= b@);
    true
}

/// Whether a character sequence spells the string `lit`.
pub fn chars_eq_str(a: &Vec<char>, lit: &str) -> (r: bool)
    ensures
        r == (a@ == lit@),
{
    let b = chars_of(lit);
    chars_eq(a, &b)
}

/// Whether `s` starts with `prefix`.
pub open spec fn has_prefix(s: Seq<char>, prefix: Seq<char>) -> bool {
    prefix.len() <= s.len() && s.take(prefix.len() as int) == prefix
}

/// Decides `has_prefix`.
pub fn starts_with_chars(s: &Vec<char>, prefix: &str) -> (r: bool)
    ensures
        r == has_prefix(s@, prefix@),
{
    let p = chars_of(prefix);
    if p.len() > s.len() {
        return false;
    }
    let mut i: usize = 0;
    while i < p.len()
        invariant
            0 <= i <= p@.len(),
            p@.len() <= s@.len(),
            p@ == prefix@,
            forall|k: int| 0 <= k < i ==> s@[k] == p@[k],
        decreases p@.len() - i,
    {
        if s[i] != p[i] {
            assert(s@.take(p@.len() as int)[i as int] != p@[i as int]);
            return false;
        }
        i = i + 1;
    }
    assert(s@.take(p@.len() as int) =~= p@);
    true
}

/// The characters of `s` from index `from` on.
pub fn chars_from(s: &Vec<char>, from: usize) -> (r: Vec<char>)
    requires
        from <= s@.len(),
    ensures
        r@ == s@.skip(from as int),
{
    let mut r: Vec<char> = Vec::new();
    let mut i: usize = from;
    while i < s.len()
        invariant
            from <= i <= s@.len(),
            r@ == s@.subrange(from as int, i as int),
        decreases s@.len() - i,
    {
        r.push(s[i]);
        i = i + 1;
    }
    r
}

/// Appends `line` and a newline to `buffer`.
pub fn push_line(buffer: &mut String, line: &str)
    ensures
        final(buffer)@ == old(buffer)@ + line@ + seq!['\n'],
{
    buffer.append(line);
    proof {
        reveal_strlit("\n");
    }
    buffer.append("\n");
}

/// Characters a CSI escape body consumes: everything up to and including
/// the first final character (U+0040..=U+007E), or all of `s` without one.
pub open spec fn csi_body_len(s: Seq<char>) -> nat
    decreases s.len(),
{
    if s.len() == 0 {
        0
    } else if 0x40 <= (s[0] as u32) && (s[0] as u32) <= 0x7e {
        1
    } else {
        1 + csi_body_len(s.drop_first())
    }
}

/// Characters an OSC/APC escape body consumes: everything up to and
/// including BEL or the two-character terminator ESC `\`, or all of `s`.
pub open spec fn osc_body_len(s: Seq<char>) -> nat
    decreases s.len(),
{
    if s.len() == 0 {
        0
    } else if s[0] == '\u{7}' {
        1
    } else if s[0] == '\u{1b}' && s.len() > 1 && s[1] == '\\' {
        2
    } else {
        1 + osc_body_len(s.drop_first())
    }
}

pub proof fn lemma_escape_body_bounds(s: Seq<char>)
    ensures
        csi_body_len(s) <= s.len(),
        osc_body_len(s) <= s.len(),
    decreases s.len(),
{
    if s.len() > 0 {
        lemma_escape_body_bounds(s.drop_first());
    }
}

/// Terminal output with escape sequences, carriage returns and control
/// characters (other than newline and tab) removed.
pub open spec fn stripped_output(s: Seq<char>) -> Seq<char>
    decreases s.len(),
{
    if s.len() == 0 {
        seq![]
    } else {
        proof {
            lemma_escape_body_bounds(s.skip(2));
        }
        if s[0] == '\u{1b}' {
            if s.len() > 1 && s[1] == '[' {
                stripped_output(s.skip((2 + csi_body_len(s.skip(2))) as int))
            } else if s.len() > 1 && (s[1] == ']' || s[1] == '_') {
                stripped_output(s.skip((2 + osc_body_len(s.skip(2))) as int))
            } else {
                stripped_output(s.skip(1))
            }
        } else if s[0] == '\r' || (is_control_char(s[0]) && s[0] != '\n' && s[0] != '\t') {
            stripped_output(s.drop_first())
        } else {
            seq![s[0]] + stripped_output(s.drop_first())
        }
    }
}

/// Removes ANSI escape sequences and control characters from the captured
/// output of a shell command.
pub fn strip_interactive_bash_output(output: &str) -> (r: String)
    ensures
        r@ == stripped_output(output@),
{
    let cs = chars_of(output);
    let ghost s = cs@;
    let n = cs.len();
    let mut out: Vec<char> = Vec::new();
    let mut i: usize = 0;
    assert(s.skip(0) == s);
    while i < n
        invariant
            0 <= i <= n,
            n == s.len(),
            s == cs@,
            stripped_output(s) == out@ + stripped_output(s.skip(i as int)),
        decreases n - i,
    {
        let c = cs[i];
        let ghost t = s.skip(i as int);
        if c == '\u{1b}' && i + 1 < n && cs[i + 1] == '[' {
            assert(t.skip(2) == s.skip(i + 2));
            let mut j: usize = i + 2;
            let mut done = false;
            while !done && j < n
                invariant
                    i + 2 <= j <= n,
                    n == s.len(),
                    s == cs@,
                    (i + 2) + csi_body_len(s.skip(i + 2)) == j + (if done {
                        0
                    } else {
                        csi_body_len(s.skip(j as int))
                    }),
                decreases n - j,
            {
                let b = cs[j];
                assert(s.skip(j as int).drop_first() == s.skip(j + 1));
                j = j + 1;
                if 0x40 <= (b as u32) && (b as u32) <= 0x7e {
                    done = true;
                }
            }
            assert(t.skip((2 + csi_body_len(t.skip(2))) as int) == s.skip(j as int));
            i = j;
        } else if c == '\u{1b}' && i + 1 < n && (cs[i + 1] == ']' || cs[i + 1] == '_') {
            assert(t.skip(2) == s.skip(i + 2));
            let mut j: usize = i + 2;
            let mut done = false;
            while !done && j < n
                invariant
                    i + 2 <= j <= n,
                    n == s.len(),
                    s == cs@,
                    (i + 2) + osc_body_len(s.skip(i + 2)) == j + (if done {
                        0
                    } else {
                        osc_body_len(s.skip(j as int))
                    }),
                decreases n - j,
            {
                let b = cs[j];
                assert(s.skip(j as int).drop_first() == s.skip(j + 1));
                if b == '\u{7}' {
                    j = j + 1;
                    done = true;
                } else if b == '\u{1b}' && j + 1 < n && cs[j + 1] == '\\' {
                    j = j + 2;
                    done = true;
                } else {
                    j = j + 1;
                }
            }
            assert(t.skip((2 + osc_body_len(t.skip(2))) as int) == s.skip(j as int));
            i = j;
        } else if c == '\u{1b}' {
            assert(t.skip(1) == s.skip(i + 1));
            i = i + 1;
        } else if c == '\r' || (char_is_control(c) && c != '\n' && c != '\t') {
            assert(t.drop_first() == s.skip(i + 1));
            i = i + 1;
        } else {
            assert(t.drop_first() == s.skip(i + 1));
            out.push(c);
            i = i + 1;
        }
    }
    assert(s.skip(n as int).len() == 0);
    string_from_chars(&out)
}

/// A character that `strip_interactive_bash_output` lets through: anything
/// but a control character, newline and tab excepted.
pub open spec fn kept_char(c: char) -> bool {
    !is_control_char(c) || c == '\n' || c == '\t'
}

/// `a` is `b` with some of its characters left out, the rest in order.
pub open spec fn is_subsequence(a: Seq<char>, b: Seq<char>) -> bool
    decreases b.len(),
{
    if b.len() == 0 {
        a.len() == 0
    } else if a.len() > 0 && a[0] == b[0] {
        is_subsequence(a.drop_first(), b.drop_first()) || is_subsequence(a, b.drop_first())
    } else {
        is_subsequence(a, b.drop_first())
    }
}

/// Leaving out a prefix of `b` keeps `a` a subsequence of it.
proof fn lemma_subsequence_of_suffix(a: Seq<char>, b: Seq<char>, k: int)
    requires
        0 <= k <= b.len(),
        is_subsequence(a, b.skip(k)),
    ensures
        is_subsequence(a, b),
    decreases k,
{
    if k == 0 {
        assert(b.skip(0) == b);
    } else {
        assert(b.drop_first().skip(k - 1) == b.skip(k));
        lemma_subsequence_of_suffix(a, b.drop_first(), k - 1);
    }
}

/// Every character of the stripped output is one that is let through:
/// no escape character, no carriage return, no other control character
/// but newline and tab.
pub proof fn lemma_stripped_output_kept(s: Seq<char>)
    ensures
        forall|i: int| 0 <= i < stripped_output(s).len() ==> kept_char(#[trigger] stripped_output(s)[i]),
    decreases s.len(),
{
    if s.len() > 0 {
        lemma_escape_body_bounds(s.skip(2));
        if s[0] == '\u{1b}' {
            let k = if s.len() > 1 && s[1] == '[' {
                (2 + csi_body_len(s.skip(2))) as int
            } else if s.len() > 1 && (s[1] == ']' || s[1] == '_') {
                (2 + osc_body_len(s.skip(2))) as int
            } else {
                1
            };
            assert(stripped_output(s) == stripped_output(s.skip(k)));
            lemma_stripped_output_kept(s.skip(k));
        } else if s[0] == '\r' || (is_control_char(s[0]) && s[0] != '\n' && s[0] != '\t') {
            assert(stripped_output(s) == stripped_output(s.drop_first()));
            lemma_stripped_output_kept(s.drop_first());
        } else {
            lemma_stripped_output_kept(s.drop_first());
            let r = stripped_output(s.drop_first());
            assert(stripped_output(s) == seq![s[0]] + r);
            assert(kept_char(s[0]));
            assert forall|i: int| 0 <= i < stripped_output(s).len() implies kept_char(
                #[trigger] stripped_output(s)[i],
            ) by {
                if i > 0 {
                    assert(stripped_output(s)[i] == r[i - 1]);
                } else {
                    assert(stripped_output(s)[0] == s[0]);
                }
            }
        }
    }
}

/// Output made only of characters that are let through comes back unchanged.
pub proof fn lemma_stripped_output_clean(s: Seq<char>)
    requires
        forall|i: int| 0 <= i < s.len() ==> kept_char(#[trigger] s[i]),
    ensures
        stripped_output(s) == s,
    decreases s.len(),
{
    if s.len() > 0 {
        lemma_escape_body_bounds(s.skip(2));
        assert(kept_char(s[0]));
        let t = s.drop_first();
        assert forall|i: int| 0 <= i < t.len() implies kept_char(#[trigger] t[i]) by {
            assert(t[i] == s[i + 1]);
        }
        lemma_stripped_output_clean(t);
        assert(seq![s[0]] + t == s);
    }
}

/// Stripping twice is stripping once.
pub proof fn lemma_stripped_output_idempotent(s: Seq<char>)
    ensures
        stripped_output(stripped_output(s)) == stripped_output(s),
{
    lemma_stripped_output_kept(s);
    lemma_stripped_output_clean(stripped_output(s));
}

/// The stripped output is the input with characters left out: nothing is
/// added and the order is kept.
pub proof fn lemma_stripped_output_subsequence(s: Seq<char>)
    ensures
        is_subsequence(stripped_output(s), s),
    decreases s.len(),
{
    if s.len() > 0 {
        lemma_escape_body_bounds(s.skip(2));
        if s[0] == '\u{1b}' {
            if s.len() > 1 && s[1] == '[' {
                let k = (2 + csi_body_len(s.skip(2))) as int;
                lemma_stripped_output_subsequence(s.skip(k));
                lemma_subsequence_of_suffix(stripped_output(s), s, k);
            } else if s.len() > 1 && (s[1] == ']' || s[1] == '_') {
                let k = (2 + osc_body_len(s.skip(2))) as int;
                lemma_stripped_output_subsequence(s.skip(k));
                lemma_subsequence_of_suffix(stripped_output(s), s, k);
            } else {
                lemma_stripped_output_subsequence(s.skip(1));
                lemma_subsequence_of_suffix(stripped_output(s), s, 1);
            }
        } else if s[0] == '\r' || (is_control_char(s[0]) && s[0] != '\n' && s[0] != '\t') {
            lemma_stripped_output_subsequence(s.drop_first());
            assert(s.skip(1) == s.drop_first());
            lemma_subsequence_of_suffix(stripped_output(s), s, 1);
        } else {
            lemma_stripped_output_subsequence(s.drop_first());
            let r = stripped_output(s);
            assert(r.drop_first() == stripped_output(s.drop_first()));
        }
    } else {
        assert(stripped_output(s).len() == 0);
    }
}

/// The pieces of `s` between occurrences of `sep` (what `str::split` with a
/// character yields): always at least one piece.
pub open spec fn split_seq(s: Seq<char>, sep: char) -> Seq<Seq<char>>
    decreases s.len(),
{
    if s.len() == 0 {
        seq![seq![]]
    } else {
        let prev = split_seq(s.drop_last(), sep);
        if s.last() == sep {
            prev.push(seq![])
        } else {
            prev.update(prev.len() - 1, prev.last().push(s.last()))
        }
    }
}

/// `split_seq` never yields an empty list of pieces.
pub proof fn lemma_split_nonempty(s: Seq<char>, sep: char)
    ensures
        split_seq(s, sep).len() >= 1,
    decreases s.len(),
{
    if s.len() > 0 {
        lemma_split_nonempty(s.drop_last(), sep);
    }
}

/// `w` holds no `c`.
pub open spec fn free_of(w: Seq<char>, c: char) -> bool {
    forall|i: int| 0 <= i < w.len() ==> w[i] != c
}

/// A piece without `sep` splits into itself alone.
pub proof fn lemma_split_without_sep(w: Seq<char>, sep: char)
    requires
        free_of(w, sep),
    ensures
        split_seq(w, sep) == seq![w],
    decreases w.len(),
{
    if w.len() > 0 {
        assert(w[w.len() - 1] != sep);
        assert(free_of(w.drop_last(), sep)) by {
            assert forall|i: int| 0 <= i < w.drop_last().len() implies w.drop_last()[i] != sep by {
                assert(w.drop_last()[i] == w[i]);
            }
        }
        lemma_split_without_sep(w.drop_last(), sep);
        assert(w.drop_last().push(w.last()) == w);
        assert(seq![w.drop_last()].update(0, w.drop_last().push(w.last())) == seq![w]);
    } else {
        assert(w == Seq::<char>::empty());
    }
}

/// Splitting at a `sep` placed between two parts splits each part.
pub proof fn lemma_split_concat(a: Seq<char>, b: Seq<char>, sep: char)
    ensures
        split_seq(a + seq![sep] + b, sep) == split_seq(a, sep) + split_seq(b, sep),
    decreases b.len(),
{
    let c = a + seq![sep] + b;
    lemma_split_nonempty(a, sep);
    if b.len() == 0 {
        assert(c.drop_last() == a);
        assert(c.last() == sep);
        assert(split_seq(a, sep).push(seq![]) == split_seq(a, sep) + split_seq(b, sep));
    } else {
        assert(c.drop_last() == a + seq![sep] + b.drop_last());
        assert(c.last() == b.last());
        lemma_split_concat(a, b.drop_last(), sep);
        lemma_split_nonempty(b.drop_last(), sep);
        let pa = split_seq(a, sep);
        let pb = split_seq(b.drop_last(), sep);
        let prev = pa + pb;
        if b.last() == sep {
            assert(prev.push(seq![]) == pa + pb.push(seq![]));
        } else {
            assert(prev.last() == pb.last());
            assert(prev.update(prev.len() - 1, prev.last().push(b.last())) == pa + pb.update(
                pb.len() - 1,
                pb.last().push(b.last()),
            ));
        }
    }
}

/// Pieces without `sep`, joined by `sep` and split again, come back as they were.
pub proof fn lemma_split_joined(ws: Seq<Seq<char>>, sep: char)
    requires
        ws.len() >= 1,
        forall|i: int| 0 <= i < ws.len() ==> free_of(#[trigger] ws[i], sep),
    ensures
        split_seq(join_seqs(ws, seq![sep]), sep) == ws,
    decreases ws.len(),
{
    assert(free_of(ws[0], sep));
    lemma_split_without_sep(ws[0], sep);
    if ws.len() == 1 {
        assert(seq![ws[0]] == ws);
    } else {
        let rest = ws.drop_first();
        assert forall|i: int| 0 <= i < rest.len() implies free_of(#[trigger] rest[i], sep) by {
            assert(rest[i] == ws[i + 1]);
        }
        lemma_split_joined(rest, sep);
        lemma_split_concat(ws[0], join_seqs(rest, seq![sep]), sep);
        assert(join_seqs(ws, seq![sep]) == ws[0] + seq![sep] + join_seqs(rest, seq![sep]));
        assert(seq![ws[0]] + rest == ws);
    }
}

/// Pieces free of `c`, joined by a separator free of `c`, stay free of it.
pub proof fn lemma_join_free_of(ws: Seq<Seq<char>>, sep: Seq<char>, c: char)
    requires
        forall|i: int| 0 <= i < ws.len() ==> free_of(#[trigger] ws[i], c),
        free_of(sep, c),
    ensures
        free_of(join_seqs(ws, sep), c),
    decreases ws.len(),
{
    if ws.len() > 1 {
        let rest = ws.drop_first();
        assert forall|i: int| 0 <= i < rest.len() implies free_of(#[trigger] rest[i], c) by {
            assert(rest[i] == ws[i + 1]);
        }
        lemma_join_free_of(rest, sep, c);
        assert(free_of(ws[0], c));
        let j = join_seqs(ws, sep);
        let r = join_seqs(rest, sep);
        assert(j == ws[0] + sep + r);
        assert forall|i: int| 0 <= i < j.len() implies j[i] != c by {
            if i < ws[0].len() {
                assert(j[i] == ws[0][i]);
            } else if i < ws[0].len() + sep.len() {
                assert(j[i] == sep[i - ws[0].len()]);
            } else {
                assert(j[i] == r[i - ws[0].len() - sep.len()]);
            }
        }
    } else if ws.len() == 1 {
        assert(free_of(ws[0], c));
    }
}

/// The pieces of a split hold no separator, and none of a character that
/// the whole did not hold.
pub proof fn lemma_split_pieces_free(s: Seq<char>, sep: char, c: char)
    requires
        c == sep || free_of(s, c),
    ensures
        forall|i: int| 0 <= i < split_seq(s, sep).len() ==> free_of(#[trigger] split_seq(s, sep)[i], c),
    decreases s.len(),
{
    if s.len() > 0 {
        assert(free_of(s, c) ==> free_of(s.drop_last(), c)) by {
            if free_of(s, c) {
                assert forall|i: int| 0 <= i < s.drop_last().len() implies s.drop_last()[i] != c by {
                    assert(s.drop_last()[i] == s[i]);
                }
            }
        }
        assert(free_of(s, c) ==> s[s.len() - 1] != c);
        lemma_split_pieces_free(s.drop_last(), sep, c);
        lemma_split_nonempty(s.drop_last(), sep);
        let prev = split_seq(s.drop_last(), sep);
        if s.last() != sep {
            let p = prev.last().push(s.last());
            assert(free_of(prev[prev.len() - 1], c));
            assert(free_of(p, c)) by {
                assert forall|i: int| 0 <= i < p.len() implies p[i] != c by {
                    if i < p.len() - 1 {
                        assert(p[i] == prev[prev.len() - 1][i]);
                    }
                }
            }
            let q = prev.update(prev.len() - 1, p);
            assert forall|i: int| 0 <= i < q.len() implies free_of(#[trigger] q[i], c) by {
                if i < q.len() - 1 {
                    assert(q[i] == prev[i]);
                }
            }
        } else {
            let q = prev.push(seq![]);
            assert forall|i: int| 0 <= i < q.len() implies free_of(#[trigger] q[i], c) by {
                if i < q.len() - 1 {
                    assert(q[i] == prev[i]);
                }
            }
        }
    }
}

/// Splits a character sequence at every `sep`.
pub fn split_chars(s: &Vec<char>, sep: char) -> (r: Vec<Vec<char>>)
    ensures
        r@.map_values(|p: Vec<char>| p@) == split_seq(s@, sep),
{
    let mut done: Vec<Vec<char>> = Vec::new();
    let mut cur: Vec<char> = Vec::new();
    let mut i: usize = 0;
    while i < s.len()
        invariant
            0 <= i <= s@.len(),
            done@.map_values(|p: Vec<char>| p@).push(cur@) == split_seq(s@.take(i as int), sep),
        decreases s@.len() - i,
    {
        let c = s[i];
        assert(s@.take(i + 1).drop_last() =~= s@.take(i as int));
        assert(s@.take(i + 1).last() == c);
        proof {
            lemma_split_nonempty(s@.take(i as int), sep);
        }
        if c == sep {
            let ghost before = done@;
            let piece = cur;
            done.push(piece);
            cur = Vec::new();
            assert(done@.map_values(|p: Vec<char>| p@) =~= before.map_values(|p: Vec<char>| p@).push(
                piece@,
            ));
            assert(done@.map_values(|p: Vec<char>| p@).push(cur@) =~= split_seq(
                s@.take(i + 1),
                sep,
            ));
        } else {
            let ghost prev_cur = cur@;
            cur.push(c);
            assert(done@.map_values(|p: Vec<char>| p@).push(cur@) =~= split_seq(
                s@.take(i + 1),
                sep,
            ));
        }
        i = i + 1;
    }
    assert(s@.take(s@.len() as int) =~= s@);
    let ghost before = done@;
    done.push(cur);
    assert(done@.map_values(|p: Vec<char>| p@) =~= before.map_values(|p: Vec<char>| p@).push(
        cur@,
    ));
    done
}

/// Index of the first `c` in `s`.
pub open spec fn first_char_index(s: Seq<char>, c: char) -> Option<nat>
    decreases s.len(),
{
    if s.len() == 0 {
        None
    } else if s[0] == c {
        Some(0)
    } else {
        match first_char_index(s.drop_first(), c) {
            Some(k) => Some(k + 1),
            None => None,
        }
    }
}

/// Finds the first `c` in `s`.
pub fn find_char(s: &Vec<char>, c: char) -> (r: Option<usize>)
    ensures
        r matches Some(k) ==> first_char_index(s@, c) == Some(k as nat) && k < s@.len(),
        r is None ==> first_char_index(s@, c) is None,
{
    let mut i: usize = 0;
    assert(s@.skip(0) =~= s@);
    while i < s.len()
        invariant
            0 <= i <= s@.len(),
            first_char_index(s@, c) == (match first_char_index(s@.skip(i as int), c) {
                Some(k) => Some((k + i) as nat),
                None => None,
            }),
        decreases s@.len() - i,
    {
        if s[i] == c {
            return Some(i);
        }
        assert(s@.skip(i as int).drop_first() =~= s@.skip(i + 1));
        i = i + 1;
    }
    None
}

/// The characters of `s` in `[from, to)`.
pub fn chars_between(s: &Vec<char>, from: usize, to: usize) -> (r: Vec<char>)
    requires
        from <= to <= s@.len(),
    ensures
        r@ == s@.subrange(from as int, to as int),
{
    let mut r: Vec<char> = Vec::new();
    let mut i: usize = from;
    while i < to
        invariant
            from <= i <= to,
            to <= s@.len(),
            r@ == s@.subrange(from as int, i as int),
        decreases to - i,
    {
        r.push(s[i]);
        i = i + 1;
    }
    r
}

/// Joining one more piece appends the separator and the piece.
pub proof fn lemma_join_push(ws: Seq<Seq<char>>, x: Seq<char>, sep: Seq<char>)
    requires
        ws.len() > 0,
    ensures
        join_seqs(ws.push(x), sep) == join_seqs(ws, sep) + sep + x,
    decreases ws.len(),
{
    if ws.len() == 1 {
        assert(ws.push(x).drop_first() =~= seq![x]);
        assert(join_seqs(ws.push(x), sep) == ws[0] + sep + join_seqs(seq![x], sep));
    } else {
        lemma_join_push(ws.drop_first(), x, sep);
        assert(ws.push(x).drop_first() =~= ws.drop_first().push(x));
    }
}

/// Joins character sequences with `sep` between neighbours.
pub fn join_chars(parts: &Vec<Vec<char>>, sep: &str) -> (r: Vec<char>)
    ensures
        r@ == join_seqs(parts@.map_values(|p: Vec<char>| p@), sep@),
{
    let ghost ps = parts@.map_values(|p: Vec<char>| p@);
    let mut r: Vec<char> = Vec::new();
    let mut i: usize = 0;
    while i < parts.len()
        invariant
            0 <= i <= parts@.len(),
            ps == parts@.map_values(|p: Vec<char>| p@),
            r@ == join_seqs(ps.take(i as int), sep@),
        decreases parts@.len() - i,
    {
        if i > 0 {
            push_str_chars(&mut r, sep);
            proof {
                lemma_join_push(ps.take(i as int), ps[i as int], sep@);
            }
        } else {
            assert(ps.take(1) =~= seq![ps[0]]);
        }
        extend_chars(&mut r, &parts[i]);
        assert(ps.take(i + 1) =~= ps.take(i as int).push(ps[i as int]));
        i = i + 1;
    }
    assert(ps.take(ps.len() as int) =~= ps);
    r
}

/// Removes the whitespace at the end of `v`.
pub fn trim_end_chars(v: &Vec<char>) -> (r: Vec<char>)
    ensures
        r@ == trim_end_seq(v@),
{
    let mut end: usize = v.len();
    assert(v@.take(end as int) =~= v@);
    while end > 0 && char_is_whitespace(v[end - 1])
        invariant
            0 <= end <= v@.len(),
            trim_end_seq(v@) == trim_end_seq(v@.take(end as int)),
        decreases end,
    {
        assert(v@.take(end as int).drop_last() =~= v@.take(end - 1));
        end = end - 1;
    }
    let r = chars_between(v, 0, end);
    assert(r@ =~= v@.take(end as int));
    r
}

} // verus!
