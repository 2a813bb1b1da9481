//! Paths given on the command line or in commands, resolved against the
//! working directory (POSIX paths: absolute when they start with `/`).
use vstd::prelude::*;
use crate::text::{chars_of, has_prefix, owned, push_str_chars, string_from_chars, trim_chars, trim_seq};

verus! {

/// Whether `p` is absolute.
pub open spec fn is_absolute_path(p: Seq<char>) -> bool {
    p.len() > 0 && p[0] == '/'
}

/// `base` joined with `p` (what `Path::join` gives): `p` itself when it is
/// absolute or `base` is empty, otherwise `base` and `p` with one `/`
/// between them unless `base` already ends with one.
pub open spec fn joined_path(base: Seq<char>, p: Seq<char>) -> Seq<char> {
    if is_absolute_path(p) || base.len() == 0 {
        p
    } else if base.last() == '/' {
        base + p
    } else {
        base + seq!['/'] + p
    }
}

/// Computes `joined_path`.
pub fn join_path(base: &str, p: &str) -> (r: String)
    ensures
        r@ == joined_path(base@, p@),
{
    let b = chars_of(base);
    let pc = chars_of(p);
    if (pc.len() > 0 && pc[0] == '/') || b.len() == 0 {
        return owned(p);
    }
    let mut v = b;
    if v[v.len() - 1] != '/' {
        v.push('/');
    }
    push_str_chars(&mut v, p);
    string_from_chars(&v)
}

/// A session path given by the user, resolved against `cwd`.
pub fn resolve_session_path(cwd: &str, path: &str) -> (r: String)
    ensures
        r@ == joined_path(cwd@, path@),
{
    join_path(cwd, path)
}

/// A path given by the user, resolved against `cwd`.
pub fn resolve_path_from_cwd(cwd: &str, path: &str) -> (r: String)
    ensures
        r@ == joined_path(cwd@, path@),
{
    join_path(cwd, path)
}

/// The format a session is exported in.
#[derive(Clone, Copy, Debug, PartialEq, Eq)]
pub enum ExportFormat {
    Html,
    Jsonl,
}

/// Where and how a session is exported: without a (non-blank) output path,
/// as HTML to `default_file_name` in `cwd`; otherwise to that path resolved
/// against `cwd`, as JSONL when it ends with `.jsonl` and as HTML otherwise.
pub open spec fn export_target(cwd: Seq<char>, default_file_name: Seq<char>, output_path: Option<Seq<char>>) -> (
    Seq<char>,
    ExportFormat,
) {
    match output_path {
        Some(p) => if trim_seq(p).len() == 0 {
            (joined_path(cwd, default_file_name), ExportFormat::Html)
        } else {
            (
                joined_path(cwd, p),
                if p.len() >= 6 && p.skip(p.len() - 6) == ".jsonl"@ {
                    ExportFormat::Jsonl
                } else {
                    ExportFormat::Html
                },
            )
        },
        None => (joined_path(cwd, default_file_name), ExportFormat::Html),
    }
}

/// Computes `export_target`.
pub fn resolve_export_target(cwd: &str, default_file_name: &str, output_path: Option<&str>) -> (r: (
    String,
    ExportFormat,
))
    ensures
        (r.0@, r.1) == export_target(
            cwd@,
            default_file_name@,
            match output_path {
                Some(p) => Some(p@),
                None => None,
            },
        ),
{
    let p = match output_path {
        Some(p) => {
            let pc = chars_of(p);
            if trim_chars(&pc).len() == 0 {
                return (join_path(cwd, default_file_name), ExportFormat::Html);
            }
            p
        },
        None => {
            return (join_path(cwd, default_file_name), ExportFormat::Html);
        },
    };
    let pc = chars_of(p);
    let n = pc.len();
    let format = if n >= 6 {
        let tail = crate::text::chars_from(&pc, n - 6);
        if crate::text::chars_eq_str(&tail, ".jsonl") {
            ExportFormat::Jsonl
        } else {
            ExportFormat::Html
        }
    } else {
        ExportFormat::Html
    };
    (join_path(cwd, p), format)
}

/// A relative path joined to a directory keeps the directory as its start.
pub proof fn lemma_join_keeps_base(base: Seq<char>, p: Seq<char>)
    requires
        !is_absolute_path(p),
    ensures
        has_prefix(joined_path(base, p), base),
{
    let j = joined_path(base, p);
    if base.len() == 0 {
        assert(j.take(0) =~= base);
    } else if base.last() == '/' {
        assert(j.take(base.len() as int) =~= base);
    } else {
        assert(j.take(base.len() as int) =~= base);
    }
}

/// An absolute path is resolved to itself.
pub proof fn lemma_absolute_path_unchanged(base: Seq<char>, p: Seq<char>)
    requires
        is_absolute_path(p),
    ensures
        joined_path(base, p) == p,
{
}

} // verus!
