//! The pieces that every kind of new file shares: the target's own
//! extension, the layered choice of extension, and assembling paths.
use vstd::prelude::*;

use crate::names::{extension_of, file_extension, last_segment};
use crate::segments::split_segments;

verus! {

/// Where a new file goes and what it starts from, as decided before any
/// file is written.
pub struct PlannedFile {
    /// The path of the new file, relative to the project's root.
    pub path: Seq<char>,
    /// The custom template file, or `None` for the built-in content.
    pub template: Option<Seq<char>>,
    /// The kind of the new file.
    pub kind: crate::CreateableFileType,
    /// The stem that names the new file in its template.
    pub stem: Seq<char>,
}

pub proof fn lemma_split_last_len(s: Seq<char>)
    ensures
        split_segments(s).last().len() <= s.len(),
    decreases s.len(),
{
    crate::segments::lemma_split_nonempty(s);
    if s.len() > 0 {
        lemma_split_last_len(s.drop_last());
        crate::segments::lemma_split_nonempty(s.drop_last());
    }
}

/// The target without the extension of its last segment, and that
/// extension.
pub open spec fn split_extension(target: Seq<char>) -> (Seq<char>, Option<Seq<char>>) {
    match extension_of(split_segments(target).last()) {
        Some(e) => (target.take(target.len() - e.len() - 1), Some(e)),
        None => (target, None),
    }
}

/// The first of: the target's own extension, the flag's, the template's,
/// the configured one.
pub open spec fn resolved_extension(
    own: Option<Seq<char>>,
    flag: Option<Seq<char>>,
    template: Option<Seq<char>>,
    configured: Seq<char>,
) -> Seq<char> {
    match own {
        Some(e) => e,
        None => match flag {
            Some(e) => e,
            None => match template {
                Some(e) => e,
                None => configured,
            },
        },
    }
}

pub open spec fn src_dir() -> Seq<char> {
    seq!['s', 'r', 'c', '/']
}

/// `src/` where the project keeps its code there, else nothing.
pub open spec fn root_prefix(has_src: bool) -> Seq<char> {
    if has_src {
        src_dir()
    } else {
        Seq::<char>::empty()
    }
}

/// `rest` inside `folder`.
pub open spec fn in_folder(folder: Seq<char>, rest: Seq<char>) -> Seq<char> {
    if folder.len() == 0 {
        rest
    } else if folder.last() == '/' {
        folder + rest
    } else {
        folder + seq!['/'] + rest
    }
}

/// The name with an extension after a dot.
pub open spec fn with_extension(base: Seq<char>, ext: Seq<char>) -> Seq<char> {
    base + seq!['.'] + ext
}

/// `s` ends with `suffix`.
pub open spec fn ends_with(s: Seq<char>, suffix: Seq<char>) -> bool {
    suffix.len() <= s.len() && s.skip(s.len() - suffix.len()) == suffix
}

pub proof fn lemma_ends_with_concat(a: Seq<char>, b: Seq<char>)
    ensures
        ends_with(a + b, b),
{
    assert((a + b).skip((a + b).len() - b.len()) =~= b);
}

/// Splits off the extension of the target's last segment.
pub fn split_target_extension(target: &str) -> (r: (String, Option<String>))
    ensures
        (r.0@, crate::config::opt_view(r.1)) == split_extension(target@),
{
    let last = last_segment(target);
    proof {
        lemma_split_last_len(target@);
        crate::names::lemma_last_index_of(last@, '.');
    }
    match file_extension(last.as_str()) {
        Some(e) => {
            let n = target.unicode_len();
            let cut = n - e.as_str().unicode_len() - 1;
            let base = target.substring_char(0, cut).to_owned();
            assert(base@ =~= target@.take(cut as int));
            (base, Some(e))
        },
        None => (target.to_owned(), None),
    }
}

/// Chooses the extension: the target's own extension wins, then a flag,
/// then the extension that a custom template encodes, then the configured
/// one.
pub fn get_extension_to_use(
    own: &Option<String>,
    flag: &Option<String>,
    template: &Option<String>,
    configured: &str,
) -> (r: String)
    ensures
        r@ == resolved_extension(
            crate::config::opt_view(*own),
            crate::config::opt_view(*flag),
            crate::config::opt_view(*template),
            configured@,
        ),
{
    match own {
        Some(e) => e.clone(),
        None => match flag {
            Some(e) => e.clone(),
            None => match template {
                Some(e) => e.clone(),
                None => configured.to_owned(),
            },
        },
    }
}

/// Puts `src/` in front of the path where the project has that folder, after
/// stripping the path's leading separators; without it the path stays as
/// it is.
pub fn prepend_root_path(path: &str, has_src: bool) -> (r: String)
    ensures
        r@ == if has_src {
            src_dir() + crate::sanitize::strip_leading_seps(path@)
        } else {
            path@
        },
{
    if !has_src {
        return path.to_owned();
    }
    let stripped = crate::sanitize::strip_separator(path);
    proof {
        reveal_strlit("src/");
    }
    let mut out = String::from_str("src/");
    out.append(stripped.as_str());
    assert(out@ =~= src_dir() + stripped@);
    out
}

/// `rest` inside `folder`.
pub fn join_folder(folder: &str, rest: &str) -> (r: String)
    ensures
        r@ == in_folder(folder@, rest@),
{
    let n = folder.unicode_len();
    if n == 0 {
        return rest.to_owned();
    }
    let mut out = folder.to_owned();
    if folder.get_char(n - 1) != '/' {
        proof {
            reveal_strlit("/");
        }
        out.append("/");
    }
    out.append(rest);
    assert(out@ =~= in_folder(folder@, rest@));
    out
}

/// The name with an extension after a dot.
pub fn add_extension(base: &str, ext: &str) -> (r: String)
    ensures
        r@ == with_extension(base@, ext@),
{
    let mut out = base.to_owned();
    proof {
        reveal_strlit(".");
    }
    out.append(".");
    out.append(ext);
    assert(out@ =~= with_extension(base@, ext@));
    out
}

} // verus!
