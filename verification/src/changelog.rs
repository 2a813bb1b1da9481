//! What `/changelog` shows: the unreleased section and the latest release
//! of the changelog's Markdown text.
use vstd::prelude::*;
use crate::text::{
    chars_of, has_prefix, join_chars, join_seqs, split_chars, split_seq, starts_with_chars, string_from_chars,
    trim_chars, trim_seq,
};

verus! {

/// `line` without a final carriage return.
pub open spec fn without_cr(line: Seq<char>) -> Seq<char> {
    if line.len() > 0 && line.last() == '\r' {
        line.drop_last()
    } else {
        line
    }
}

/// The lines of `s` as `str::lines` yields them: `s` is cut at each newline,
/// a line that a newline ended loses a carriage return before it, and a
/// last empty piece (after a closing newline, or of an empty text) is no line.
pub open spec fn text_lines(s: Seq<char>) -> Seq<Seq<char>> {
    let pieces = split_seq(s, '\n');
    let ended = pieces.drop_last().map_values(|p: Seq<char>| without_cr(p));
    if pieces.last().len() == 0 {
        ended
    } else {
        ended.push(pieces.last())
    }
}

/// A line that starts a section.
pub open spec fn is_heading(line: Seq<char>) -> bool {
    has_prefix(line, "## "@)
}

/// The text of a section: its lines joined, without surrounding whitespace.
pub open spec fn section_text(lines: Seq<Seq<char>>) -> Seq<char> {
    trim_seq(join_seqs(lines, seq!['\n']))
}

/// Reading `lines` in order: the texts of the sections closed so far, and
/// the lines of the section still open. Each heading closes the open
/// section and opens a new one; lines before the first heading belong to
/// no section.
pub open spec fn section_scan(lines: Seq<Seq<char>>) -> (Seq<Seq<char>>, Seq<Seq<char>>)
    decreases lines.len(),
{
    if lines.len() == 0 {
        (seq![], seq![])
    } else {
        let (done, open) = section_scan(lines.drop_last());
        let line = lines.last();
        if is_heading(line) {
            if open.len() > 0 {
                (done.push(section_text(open)), seq![line])
            } else {
                (done, seq![line])
            }
        } else if open.len() > 0 {
            (done, open.push(line))
        } else {
            (done, open)
        }
    }
}

/// The texts of the sections of a changelog, in order.
pub open spec fn changelog_sections(content: Seq<char>) -> Seq<Seq<char>> {
    let (done, open) = section_scan(text_lines(content));
    if open.len() > 0 {
        done.push(section_text(open))
    } else {
        done
    }
}

/// The unreleased section's heading.
pub open spec fn unreleased_prefix() -> Seq<char> {
    "## [Unreleased]"@
}

/// A section of a release: one whose heading names a version.
pub open spec fn is_release(section: Seq<char>) -> bool {
    has_prefix(section, "## ["@) && !has_prefix(section, unreleased_prefix())
}

/// The first unreleased section.
pub open spec fn first_unreleased(sections: Seq<Seq<char>>) -> Option<Seq<char>>
    decreases sections.len(),
{
    if sections.len() == 0 {
        None
    } else if has_prefix(sections[0], unreleased_prefix()) {
        Some(sections[0])
    } else {
        first_unreleased(sections.drop_first())
    }
}

/// The first section of a release: the latest one.
pub open spec fn first_release(sections: Seq<Seq<char>>) -> Option<Seq<char>>
    decreases sections.len(),
{
    if sections.len() == 0 {
        None
    } else if is_release(sections[0]) {
        Some(sections[0])
    } else {
        first_release(sections.drop_first())
    }
}

/// The value of an option, as a list of none or one.
pub open spec fn listed(o: Option<Seq<char>>) -> Seq<Seq<char>> {
    match o {
        Some(v) => seq![v],
        None => seq![],
    }
}

/// What `/changelog` shows: the unreleased section and the latest release,
/// a blank line apart, or a notice where the changelog has neither.
pub open spec fn changelog_summary(content: Seq<char>) -> Seq<char> {
    let sections = changelog_sections(content);
    let chosen = listed(first_unreleased(sections)) + listed(first_release(sections));
    if chosen.len() == 0 {
        "No changelog entries found."@
    } else {
        trim_seq(join_seqs(chosen, seq!['\n', '\n']))
    }
}

/// The views of lists of characters.
pub open spec fn char_views(v: Seq<Vec<char>>) -> Seq<Seq<char>> {
    v.map_values(|p: Vec<char>| p@)
}

/// `line` without a final carriage return.
fn strip_cr(line: Vec<char>) -> (r: Vec<char>)
    ensures
        r@ == without_cr(line@),
{
    let mut line = line;
    if line.len() > 0 && line[line.len() - 1] == '\r' {
        line.pop();
    }
    line
}

/// Appends a list of characters to a list of them.
fn push_chars(v: &mut Vec<Vec<char>>, x: Vec<char>)
    ensures
        char_views(final(v)@) == char_views(old(v)@).push(x@),
{
    let ghost before = v@;
    v.push(x);
    assert(char_views(v@) =~= char_views(before).push(x@));
}

/// The lines of `content` (see `text_lines`).
pub(crate) fn content_lines(content: &str) -> (r: Vec<Vec<char>>)
    ensures
        char_views(r@) == text_lines(content@),
{
    let chars = chars_of(content);
    let pieces = split_chars(&chars, '\n');
    let ghost ps = split_seq(content@, '\n');
    proof {
        crate::text::lemma_split_nonempty(content@, '\n');
    }
    let n = pieces.len();
    let mut lines: Vec<Vec<char>> = Vec::new();
    let mut i: usize = 0;
    while i + 1 < n
        invariant
            0 <= i < n,
            n == pieces@.len(),
            char_views(pieces@) == ps,
            char_views(lines@) == ps.drop_last().map_values(|p: Seq<char>| without_cr(p)).take(i as int),
        decreases n - i,
    {
        let line = strip_cr(pieces[i].clone());
        assert(line@ == without_cr(ps[i as int]));
        push_chars(&mut lines, line);
        assert(ps.drop_last().map_values(|p: Seq<char>| without_cr(p)).take(i + 1) =~= ps.drop_last().map_values(
            |p: Seq<char>| without_cr(p),
        ).take(i as int).push(without_cr(ps[i as int])));
        i = i + 1;
    }
    assert(ps.drop_last().map_values(|p: Seq<char>| without_cr(p)).take(i as int) =~= ps.drop_last().map_values(
        |p: Seq<char>| without_cr(p),
    ));
    if pieces[n - 1].len() > 0 {
        let last = pieces[n - 1].clone();
        push_chars(&mut lines, last);
    }
    lines
}


/// The text of a section (see `section_text`).
fn section_chars(lines: &Vec<Vec<char>>) -> (r: Vec<char>)
    ensures
        r@ == section_text(char_views(lines@)),
{
    let joined = join_chars(lines, "\n");
    proof {
        reveal_strlit("\n");
        assert("\n"@ =~= seq!['\n']);
    }
    trim_chars(&joined)
}

/// The texts of the sections of `content` (see `changelog_sections`).
fn sections_of(content: &str) -> (r: Vec<Vec<char>>)
    ensures
        char_views(r@) == changelog_sections(content@),
{
    let lines = content_lines(content);
    let ghost ls = char_views(lines@);
    let mut done: Vec<Vec<char>> = Vec::new();
    let mut open: Vec<Vec<char>> = Vec::new();
    let mut i: usize = 0;
    assert(ls.take(0) =~= seq![]);
    while i < lines.len()
        invariant
            0 <= i <= lines@.len(),
            ls == char_views(lines@),
            (char_views(done@), char_views(open@)) == section_scan(ls.take(i as int)),
        decreases lines@.len() - i,
    {
        assert(ls.take(i + 1).drop_last() =~= ls.take(i as int));
        assert(ls.take(i + 1).last() == lines@[i as int]@);
        let line = lines[i].clone();
        if starts_with_chars(&line, "## ") {
            if open.len() > 0 {
                let text = section_chars(&open);
                push_chars(&mut done, text);
            }
            open = Vec::new();
            push_chars(&mut open, line);
        } else if open.len() > 0 {
            push_chars(&mut open, line);
        }
        i = i + 1;
    }
    assert(ls.take(lines@.len() as int) =~= ls);
    if open.len() > 0 {
        let text = section_chars(&open);
        push_chars(&mut done, text);
    }
    done
}

/// The first section whose text starts with `prefix` and, where `exclude`
/// is given, does not start with it.
fn first_section(sections: &Vec<Vec<char>>, prefix: &str, exclude: Option<&str>) -> (r: Option<usize>)
    ensures
        match r {
            Some(k) => k < sections@.len() && has_prefix(sections@[k as int]@, prefix@) && !(match exclude {
                Some(x) => has_prefix(sections@[k as int]@, x@),
                None => false,
            }) && forall|j: int|
                0 <= j < k ==> !(has_prefix(#[trigger] sections@[j]@, prefix@) && !(match exclude {
                    Some(x) => has_prefix(sections@[j]@, x@),
                    None => false,
                })),
            None => forall|j: int|
                0 <= j < sections@.len() ==> !(has_prefix(#[trigger] sections@[j]@, prefix@) && !(match exclude {
                    Some(x) => has_prefix(sections@[j]@, x@),
                    None => false,
                })),
        },
{
    let mut k: usize = 0;
    while k < sections.len()
        invariant
            0 <= k <= sections@.len(),
            forall|j: int|
                0 <= j < k ==> !(has_prefix(#[trigger] sections@[j]@, prefix@) && !(match exclude {
                    Some(x) => has_prefix(sections@[j]@, x@),
                    None => false,
                })),
        decreases sections@.len() - k,
    {
        let excluded = match exclude {
            Some(x) => starts_with_chars(&sections[k], x),
            None => false,
        };
        if starts_with_chars(&sections[k], prefix) && !excluded {
            return Some(k);
        }
        k = k + 1;
    }
    None
}

/// The first unreleased section, found by `first_section`.
proof fn lemma_first_unreleased(sections: Seq<Seq<char>>, k: Option<nat>)
    requires
        match k {
            Some(k) => k < sections.len() && has_prefix(sections[k as int], unreleased_prefix()) && forall|j: int|
                0 <= j < k ==> !has_prefix(#[trigger] sections[j], unreleased_prefix()),
            None => forall|j: int| 0 <= j < sections.len() ==> !has_prefix(#[trigger] sections[j], unreleased_prefix()),
        },
    ensures
        first_unreleased(sections) == match k {
            Some(k) => Some(sections[k as int]),
            None => None,
        },
    decreases sections.len(),
{
    if sections.len() > 0 {
        if k != Some(0nat) {
            let k2 = match k {
                Some(k) => Some((k - 1) as nat),
                None => None,
            };
            assert(!has_prefix(sections[0], unreleased_prefix()));
            assert forall|j: int| 0 <= j < sections.len() - 1 implies #[trigger] sections.drop_first()[j] == sections[j + 1] by {}
            lemma_first_unreleased(sections.drop_first(), k2);
        }
    }
}

/// The first release section, found by `first_section`.
proof fn lemma_first_release(sections: Seq<Seq<char>>, k: Option<nat>)
    requires
        match k {
            Some(k) => k < sections.len() && is_release(sections[k as int]) && forall|j: int|
                0 <= j < k ==> !is_release(#[trigger] sections[j]),
            None => forall|j: int| 0 <= j < sections.len() ==> !is_release(#[trigger] sections[j]),
        },
    ensures
        first_release(sections) == match k {
            Some(k) => Some(sections[k as int]),
            None => None,
        },
    decreases sections.len(),
{
    if sections.len() > 0 {
        if k != Some(0nat) {
            let k2 = match k {
                Some(k) => Some((k - 1) as nat),
                None => None,
            };
            assert(!is_release(sections[0]));
            assert forall|j: int| 0 <= j < sections.len() - 1 implies #[trigger] sections.drop_first()[j] == sections[j + 1] by {}
            lemma_first_release(sections.drop_first(), k2);
        }
    }
}

/// What `/changelog` shows for the changelog text `content` (see
/// `changelog_summary`).
pub fn render_changelog_text(content: &str) -> (r: String)
    ensures
        r@ == changelog_summary(content@),
{
    proof {
        reveal_strlit("## [Unreleased]");
        reveal_strlit("## [");
        reveal_strlit("\n\n");
        assert("\n\n"@ =~= seq!['\n', '\n']);
    }
    let sections = sections_of(content);
    let ghost ss = char_views(sections@);
    let unreleased = first_section(&sections, "## [Unreleased]", None);
    let release = first_section(&sections, "## [", Some("## [Unreleased]"));
    proof {
        lemma_first_unreleased(ss, match unreleased {
            Some(k) => Some(k as nat),
            None => None,
        });
        lemma_first_release(ss, match release {
            Some(k) => Some(k as nat),
            None => None,
        });
    }
    let mut chosen: Vec<Vec<char>> = Vec::new();
    if let Some(k) = unreleased {
        push_chars(&mut chosen, sections[k].clone());
    }
    if let Some(k) = release {
        push_chars(&mut chosen, sections[k].clone());
    }
    assert(char_views(chosen@) =~= listed(first_unreleased(ss)) + listed(first_release(ss)));
    if chosen.len() == 0 {
        return String::from_str("No changelog entries found.");
    }
    let joined = join_chars(&chosen, "\n\n");
    let trimmed = trim_chars(&joined);
    string_from_chars(&trimmed)
}

} // verus!
