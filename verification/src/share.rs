//! Sharing a session as a gist: reading the gist address that `gh gist
//! create` prints and building the viewer link for it.
use vstd::prelude::*;
use crate::text::{chars_of, owned, push_str_chars, split_chars, split_seq, string_from_chars, trim_chars, trim_seq};

verus! {

/// The gist and the viewer page of a shared session.
#[derive(Clone, Debug, PartialEq, Eq)]
pub struct SharedSessionLinks {
    pub gist_url: String,
    pub preview_url: String,
}

/// The viewer used when no other is configured.
pub open spec fn default_viewer_url() -> Seq<char> {
    "https://pi.dev/session/"@
}

/// The viewer base: the configured one (`PI_SHARE_VIEWER_URL`) unless it
/// is blank, otherwise the default.
pub open spec fn viewer_base(configured: Option<Seq<char>>) -> Seq<char> {
    match configured {
        Some(v) => if trim_seq(v).len() > 0 {
            v
        } else {
            default_viewer_url()
        },
        None => default_viewer_url(),
    }
}

/// The optional view of a string slice.
pub open spec fn opt_str_view(o: Option<&str>) -> Option<Seq<char>> {
    match o {
        Some(s) => Some(s@),
        None => None,
    }
}

/// The viewer link of a gist: the viewer base, `#`, the gist id.
pub fn share_viewer_url(gist_id: &str, configured: Option<&str>) -> (r: String)
    ensures
        r@ == viewer_base(opt_str_view(configured)) + seq!['#'] + gist_id@,
{
    let mut v: Vec<char> = Vec::new();
    let mut use_default = true;
    if let Some(c) = configured {
        let cc = chars_of(c);
        if trim_chars(&cc).len() > 0 {
            push_str_chars(&mut v, c);
            use_default = false;
        }
    }
    if use_default {
        push_str_chars(&mut v, "https://pi.dev/session/");
    }
    v.push('#');
    push_str_chars(&mut v, gist_id);
    string_from_chars(&v)
}

/// `s` without the slashes at its end.
pub open spec fn trim_end_slashes(s: Seq<char>) -> Seq<char>
    decreases s.len(),
{
    if s.len() > 0 && s.last() == '/' {
        trim_end_slashes(s.drop_last())
    } else {
        s
    }
}

/// Index of the last `c` in `s`.
pub open spec fn last_char_index(s: Seq<char>, c: char) -> Option<nat>
    decreases s.len(),
{
    if s.len() == 0 {
        None
    } else if s.last() == c {
        Some((s.len() - 1) as nat)
    } else {
        last_char_index(s.drop_last(), c)
    }
}

/// The gist id in a gist address: the last path segment of the trimmed
/// address, ignoring slashes at its end.
pub open spec fn gist_id_of(url: Seq<char>) -> Seq<char> {
    let t = trim_end_slashes(trim_seq(url));
    match last_char_index(t, '/') {
        Some(k) => t.skip(k + 1 as int),
        None => t,
    }
}

/// Reads the gist id of a gist address (see `gist_id_of`); it is always
/// found, possibly empty.
pub fn parse_gist_id(gist_url: &str) -> (r: Option<String>)
    ensures
        r matches Some(id) && id@ == gist_id_of(gist_url@),
{
    let u = chars_of(gist_url);
    let t0 = trim_chars(&u);
    let mut end: usize = t0.len();
    assert(t0@.take(end as int) =~= t0@);
    while end > 0 && t0[end - 1] == '/'
        invariant
            0 <= end <= t0@.len(),
            trim_end_slashes(t0@) == trim_end_slashes(t0@.take(end as int)),
        decreases end,
    {
        assert(t0@.take(end as int).drop_last() =~= t0@.take(end - 1));
        end = end - 1;
    }
    let t = crate::text::chars_between(&t0, 0, end);
    assert(t@ =~= t0@.take(end as int));
    let mut k: usize = t.len();
    assert(t@.take(k as int) =~= t@);
    while k > 0 && t[k - 1] != '/'
        invariant
            0 <= k <= t@.len(),
            last_char_index(t@, '/') == last_char_index(t@.take(k as int), '/'),
        decreases k,
    {
        assert(t@.take(k as int).drop_last() =~= t@.take(k - 1));
        k = k - 1;
    }
    if k > 0 {
        assert(t@.take(k as int).last() == '/');
    } else {
        assert(t@.take(0) =~= seq![]);
        assert(t@.skip(0) =~= t@);
    }
    let id = crate::text::chars_from(&t, k);
    Some(string_from_chars(&id))
}

/// The first line that is not blank, trimmed.
pub open spec fn first_nonblank(lines: Seq<Seq<char>>) -> Option<Seq<char>>
    decreases lines.len(),
{
    if lines.len() == 0 {
        None
    } else if trim_seq(lines[0]).len() > 0 {
        Some(trim_seq(lines[0]))
    } else {
        first_nonblank(lines.drop_first())
    }
}

/// The error when no gist address can be read.
pub open spec fn gist_parse_error() -> Seq<char> {
    "Failed to parse gist URL from gh output"@
}

/// The links read from the text `gh gist create` printed: the first
/// non-blank line is the gist address; its id must not be empty.
pub open spec fn links_from_text(text: Seq<char>, configured: Option<Seq<char>>) -> Result<
    (Seq<char>, Seq<char>),
    Seq<char>,
> {
    match first_nonblank(split_seq(text, '\n')) {
        None => Err(gist_parse_error()),
        Some(url) => if gist_id_of(url).len() == 0 {
            Err(gist_parse_error())
        } else {
            Ok((url, viewer_base(configured) + seq!['#'] + gist_id_of(url)))
        },
    }
}

/// Reads the links from the printed text (see `links_from_text`).
pub fn shared_session_links_from_text(text: &str, configured: Option<&str>) -> (r: Result<SharedSessionLinks, String>)
    ensures
        match r {
            Ok(l) => links_from_text(text@, opt_str_view(configured)) == Ok::<(Seq<char>, Seq<char>), Seq<char>>(
                (l.gist_url@, l.preview_url@),
            ),
            Err(e) => links_from_text(text@, opt_str_view(configured)) == Err::<(Seq<char>, Seq<char>), Seq<char>>(
                e@,
            ),
        },
{
    let tc = chars_of(text);
    let pieces = split_chars(&tc, '\n');
    let ghost ls = pieces@.map_values(|p: Vec<char>| p@);
    let mut i: usize = 0;
    let mut found: Option<Vec<char>> = None;
    assert(ls.skip(0) =~= ls);
    while i < pieces.len()
        invariant_except_break
            found is None,
        invariant
            0 <= i <= pieces@.len(),
            ls == pieces@.map_values(|p: Vec<char>| p@),
            ls == split_seq(tc@, '\n'),
            first_nonblank(ls) == first_nonblank(ls.skip(i as int)),
        ensures
            found matches Some(t) ==> first_nonblank(ls) == Some(t@),
            found is None ==> first_nonblank(ls) is None,
        decreases pieces@.len() - i,
    {
        let t = trim_chars(&pieces[i]);
        assert(ls.skip(i as int)[0] == pieces@[i as int]@);
        if t.len() > 0 {
            found = Some(t);
            break;
        }
        assert(ls.skip(i as int).drop_first() =~= ls.skip(i + 1));
        i = i + 1;
        if i == pieces.len() {
            assert(ls.skip(i as int) =~= seq![]);
        }
    }
    let url = match found {
        Some(t) => t,
        None => {
            return Err(owned("Failed to parse gist URL from gh output"));
        },
    };
    let gist_url = string_from_chars(&url);
    let id = match parse_gist_id(gist_url.as_str()) {
        Some(id) => id,
        None => {
            return Err(owned("Failed to parse gist URL from gh output"));
        },
    };
    let idc = chars_of(id.as_str());
    if idc.len() == 0 {
        return Err(owned("Failed to parse gist URL from gh output"));
    }
    let preview_url = share_viewer_url(id.as_str(), configured);
    Ok(SharedSessionLinks { gist_url, preview_url })
}

/// What `String::from_utf8_lossy` makes of `bytes`.
pub uninterp spec fn utf8_lossy(bytes: Seq<u8>) -> Seq<char>;

/// Decodes `bytes` with `String::from_utf8_lossy`: invalid sequences become
/// U+FFFD. Stated: the result is `utf8_lossy(bytes)`; valid UTF-8 decodes to
/// the characters it encodes (std hands such input back unchanged), and
/// bytes that are all ASCII decode to the same characters. How invalid
/// sequences are replaced is left to that name.
#[verifier::external_body]
fn decode_utf8_lossy(bytes: &[u8]) -> (r: String)
    ensures
        r@ == utf8_lossy(bytes@),
        vstd::utf8::valid_utf8(bytes@) ==> r@ == vstd::utf8::decode_utf8(bytes@),
        (forall|i: int| 0 <= i < bytes@.len() ==> #[trigger] bytes@[i] < 128) ==> r@ == bytes@.map_values(
            |b: u8| b as char,
        ),
{
    String::from_utf8_lossy(bytes).into_owned()
}

/// The text of the captured output: its characters when it is valid
/// UTF-8, else what lossy decoding makes of it.
pub open spec fn output_text(output: Seq<u8>) -> Seq<char> {
    if vstd::utf8::valid_utf8(output) {
        vstd::utf8::decode_utf8(output)
    } else {
        utf8_lossy(output)
    }
}

/// Reads the links from what `gh gist create` printed (see
/// `links_from_text`); `configured` is the viewer set in the environment.
pub fn parse_shared_session_links(output: &[u8], configured: Option<&str>) -> (r: Result<SharedSessionLinks, String>)
    ensures
        match r {
            Ok(l) => links_from_text(output_text(output@), opt_str_view(configured)) == Ok::<
                (Seq<char>, Seq<char>),
                Seq<char>,
            >((l.gist_url@, l.preview_url@)),
            Err(e) => links_from_text(output_text(output@), opt_str_view(configured)) == Err::<
                (Seq<char>, Seq<char>),
                Seq<char>,
            >(e@),
        },
{
    let text = decode_utf8_lossy(output);
    shared_session_links_from_text(text.as_str(), configured)
}

} // verus!
