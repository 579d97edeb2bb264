//! Sanitizing the path that the user typed.
//!
//! `..` segments are dropped, the path is cleaned lexically, a leading
//! separator is stripped, and the result must name something and hold only
//! the characters `[a-zA-Z0-9_.-]` between its separators.
use vstd::prelude::*;

use crate::segments::{
    current_dir, is_named, is_rooted, join_path, join_segments, keep_if,
    lemma_join_starts_with_first, lemma_keep_if_members, lemma_keep_if_skip_first,
    lemma_keep_if_twice, lemma_split_join, lemma_split_leading_sep, lemma_split_no_sep,
    no_sep, parent_dir, split_path, split_segments, views,
};

verus! {

/// Why a path cannot be used.
#[derive(Clone, Copy, Debug, PartialEq, Eq, Structural)]
pub enum PathError {
    /// The path names no file: it is empty, or ends in a separator.
    NoName,
    /// The path holds a character that a file name may not hold.
    InvalidChar(char),
    /// The router folder that the path goes into does not exist.
    MissingDestination,
}

/// A character allowed in a sanitized path: `[a-zA-Z0-9_.-]` or the separator.
pub open spec fn is_path_char(c: char) -> bool {
    ||| ('a' <= c && c <= 'z')
    ||| ('A' <= c && c <= 'Z')
    ||| ('0' <= c && c <= '9')
    ||| c == '_'
    ||| c == '.'
    ||| c == '-'
    ||| c == '/'
}

/// The first character of `s` that a path may not hold, if any.
pub open spec fn first_bad_char(s: Seq<char>) -> Option<char>
    decreases s.len(),
{
    if s.len() == 0 {
        None
    } else if !is_path_char(s[0]) {
        Some(s[0])
    } else {
        first_bad_char(s.drop_first())
    }
}

/// The text ends in a separator (`/`, or `\` as typed on Windows).
pub open spec fn ends_with_sep(s: Seq<char>) -> bool {
    s.len() > 0 && (s.last() == '/' || s.last() == '\\')
}

/// A segment that is neither empty nor `..`.
pub open spec fn is_step() -> spec_fn(Seq<char>) -> bool {
    |s: Seq<char>| s.len() > 0 && s != parent_dir()
}

/// A segment that is neither empty nor `.`.
pub open spec fn is_not_dot() -> spec_fn(Seq<char>) -> bool {
    |s: Seq<char>| s.len() > 0 && s != current_dir()
}

/// A segment that names something.
pub open spec fn named() -> spec_fn(Seq<char>) -> bool {
    |s: Seq<char>| is_named(s)
}

/// The path with every `..` segment (and every empty one) removed; a
/// leading separator stays.
pub open spec fn without_parent_dirs(p: Seq<char>) -> Seq<char> {
    let kept = keep_if(split_segments(p), is_step());
    if is_rooted(p) {
        seq!['/'] + join_segments(kept)
    } else {
        join_segments(kept)
    }
}

/// Resolves `..` against the segments before it, as lexical cleaning does:
/// it removes the named segment before it, stays at the root of a rooted
/// path, and is kept where nothing precedes it in a relative path.
pub open spec fn resolve_parents(segs: Seq<Seq<char>>, rooted: bool) -> Seq<Seq<char>>
    decreases segs.len(),
{
    if segs.len() == 0 {
        Seq::<Seq<char>>::empty()
    } else {
        let out = resolve_parents(segs.drop_last(), rooted);
        let c = segs.last();
        if c == parent_dir() {
            if out.len() > 0 && out.last() != parent_dir() {
                out.drop_last()
            } else if rooted {
                out
            } else {
                out.push(c)
            }
        } else {
            out.push(c)
        }
    }
}

/// The lexically cleaned path: empty and `.` segments go, `..` is resolved,
/// and an empty relative result is `.`.
pub open spec fn lexical_clean(p: Seq<char>) -> Seq<char> {
    let rooted = is_rooted(p);
    let out = resolve_parents(keep_if(split_segments(p), is_not_dot()), rooted);
    if rooted {
        seq!['/'] + join_segments(out)
    } else if out.len() == 0 {
        current_dir()
    } else {
        join_segments(out)
    }
}

/// The named segments of the path, in order.
pub open spec fn named_segments(raw: Seq<char>) -> Seq<Seq<char>> {
    keep_if(split_segments(raw), named())
}

/// What sanitizing `raw` gives: its named segments joined, or the reason
/// why there is no such path.
pub open spec fn sanitized(raw: Seq<char>) -> Result<Seq<char>, PathError> {
    let names = named_segments(raw);
    if ends_with_sep(raw) || names.len() == 0 {
        Err(PathError::NoName)
    } else {
        match first_bad_char(join_segments(names)) {
            Some(c) => Err(PathError::InvalidChar(c)),
            None => Ok(join_segments(names)),
        }
    }
}

pub open spec fn path_result_view(r: Result<String, PathError>) -> Result<Seq<char>, PathError> {
    match r {
        Ok(s) => Ok(s@),
        Err(e) => Err(e),
    }
}

/// Relies on path_clean::clean, which walks the components that std's
/// `Path::components` yields (on Unix: the non-empty segments between `/`,
/// without `.`, after a root when the path starts with `/`), drops `.`,
/// resolves `..` as `resolve_parents` says, and gives `.` for an empty result.
#[verifier::external_body]
fn clean_path(p: &str) -> (r: String)
    ensures
        r@ == lexical_clean(p@),
{
    path_clean::clean(p).to_string_lossy().into_owned()
}

pub proof fn lemma_first_bad_none(s: Seq<char>)
    ensures
        first_bad_char(s) is None <==> forall|i: int| 0 <= i < s.len() ==> is_path_char(#[trigger] s[i]),
    decreases s.len(),
{
    if s.len() > 0 {
        lemma_first_bad_none(s.drop_first());
        if first_bad_char(s) is None {
            assert forall|i: int| 0 <= i < s.len() implies is_path_char(#[trigger] s[i]) by {
                if i > 0 {
                    assert(s[i] == s.drop_first()[i - 1]);
                }
            }
        }
        if forall|i: int| 0 <= i < s.len() ==> is_path_char(#[trigger] s[i]) {
            assert forall|i: int| 0 <= i < s.drop_first().len() implies is_path_char(
                #[trigger] s.drop_first()[i],
            ) by {
                assert(s.drop_first()[i] == s[i + 1]);
            }
        }
    }
}

pub proof fn lemma_resolve_without_parents(segs: Seq<Seq<char>>, rooted: bool)
    requires
        forall|i: int| 0 <= i < segs.len() ==> #[trigger] segs[i] != parent_dir(),
    ensures
        resolve_parents(segs, rooted) == segs,
    decreases segs.len(),
{
    if segs.len() > 0 {
        let pre = segs.drop_last();
        assert forall|i: int| 0 <= i < pre.len() implies #[trigger] pre[i] != parent_dir() by {
            assert(pre[i] == segs[i]);
        }
        lemma_resolve_without_parents(pre, rooted);
        assert(segs.last() != parent_dir());
        assert(pre.push(segs.last()) =~= segs);
    }
}

/// Dropping `..` segments and then cleaning leaves the named segments,
/// behind a separator where the path was rooted.
pub proof fn lemma_clean_without_parent_dirs(raw: Seq<char>)
    ensures
        ({
            let names = named_segments(raw);
            lexical_clean(without_parent_dirs(raw)) == if is_rooted(raw) {
                seq!['/'] + join_segments(names)
            } else if names.len() == 0 {
                current_dir()
            } else {
                join_segments(names)
            }
        }),
        forall|i: int|
            0 <= i < named_segments(raw).len() ==> is_named(#[trigger] named_segments(raw)[i])
                && no_sep(named_segments(raw)[i]),
{
    let s = split_segments(raw);
    let k = keep_if(s, is_step());
    let names = named_segments(raw);
    let e = Seq::<char>::empty();
    lemma_keep_if_twice(s, is_step(), is_not_dot(), named());
    lemma_split_no_sep(raw);
    lemma_keep_if_members(s, is_step());
    lemma_keep_if_members(s, named());
    assert forall|i: int| 0 <= i < k.len() implies no_sep(#[trigger] k[i]) by {
        let j = choose|j: int| 0 <= j < s.len() && s[j] == k[i];
        assert(no_sep(s[j]));
    }
    assert forall|i: int| 0 <= i < names.len() implies is_named(#[trigger] names[i]) && no_sep(
        names[i],
    ) by {
        let j = choose|j: int| 0 <= j < s.len() && s[j] == names[i];
        assert(no_sep(s[j]));
        assert(named()(names[i]));
    }
    assert forall|i: int| 0 <= i < names.len() implies #[trigger] names[i] != parent_dir() by {
        assert(is_named(names[i]));
    }
    lemma_resolve_without_parents(names, true);
    lemma_resolve_without_parents(names, false);
    let w = without_parent_dirs(raw);
    if k.len() == 0 {
        assert(join_segments(k) == e);
        assert(split_segments(e) == seq![e]);
        assert(seq![e].drop_last() =~= Seq::<Seq<char>>::empty());
        assert(keep_if(seq![e], is_not_dot()) == keep_if(seq![e].drop_last(), is_not_dot()));
        assert(keep_if(seq![e], is_not_dot()) =~= Seq::<Seq<char>>::empty());
    } else {
        lemma_split_join(k);
    }
    if is_rooted(raw) {
        lemma_split_leading_sep(join_segments(k));
        assert(is_rooted(w));
        lemma_keep_if_skip_first(e, split_segments(join_segments(k)), is_not_dot());
        if k.len() == 0 {
            lemma_keep_if_skip_first(e, Seq::<Seq<char>>::empty(), is_not_dot());
            assert(seq![e] + Seq::<Seq<char>>::empty() =~= seq![e]);
        }
    } else {
        if k.len() > 0 {
            lemma_join_starts_with_first(k);
            assert(is_step()(k[0]));
            assert(no_sep(k[0]));
            assert(join_segments(k)[0] == k[0][0]);
        }
        assert(!is_rooted(w));
    }
}

/// Removing `..` segments leaves no `..` segment, keeps every other
/// non-empty segment in its order, and removing them again changes
/// nothing.
pub proof fn lemma_without_parent_dirs_laws(p: Seq<char>)
    ensures
        forall|i: int|
            0 <= i < split_segments(without_parent_dirs(p)).len() ==> #[trigger] split_segments(
                without_parent_dirs(p),
            )[i] != parent_dir(),
        keep_if(split_segments(without_parent_dirs(p)), is_step()) == keep_if(
            split_segments(p),
            is_step(),
        ),
        without_parent_dirs(without_parent_dirs(p)) == without_parent_dirs(p),
{
    let s = split_segments(p);
    let k = keep_if(s, is_step());
    let w = without_parent_dirs(p);
    let e = Seq::<char>::empty();
    lemma_split_no_sep(p);
    lemma_keep_if_members(s, is_step());
    assert forall|i: int| 0 <= i < k.len() implies no_sep(#[trigger] k[i]) && is_step()(k[i]) by {
        let j = choose|j: int| 0 <= j < s.len() && s[j] == k[i];
        assert(no_sep(s[j]));
    }
    lemma_keep_if_members(k, is_step());
    assert(keep_if(k, is_step()) == k);
    assert(split_segments(e) == seq![e]);
    assert(seq![e].drop_last() =~= Seq::<Seq<char>>::empty());
    assert(keep_if(seq![e], is_step()) == keep_if(seq![e].drop_last(), is_step()));
    assert(keep_if(seq![e], is_step()) =~= Seq::<Seq<char>>::empty());
    if k.len() > 0 {
        lemma_split_join(k);
    } else {
        assert(join_segments(k) == e);
    }
    if is_rooted(p) {
        lemma_split_leading_sep(join_segments(k));
        assert(is_rooted(w));
        lemma_keep_if_skip_first(e, split_segments(join_segments(k)), is_step());
        if k.len() > 0 {
            assert forall|i: int| 0 <= i < split_segments(w).len() implies #[trigger] split_segments(
                w,
            )[i] != parent_dir() by {
                if i > 0 {
                    assert(split_segments(w)[i] == k[i - 1]);
                    assert(is_step()(k[i - 1]));
                }
            }
        } else {
            assert(split_segments(w) =~= seq![e, e]);
        }
    } else {
        if k.len() > 0 {
            lemma_join_starts_with_first(k);
            assert(no_sep(k[0]) && is_step()(k[0]));
            assert(join_segments(k)[0] == k[0][0]);
            assert forall|i: int| 0 <= i < split_segments(w).len() implies #[trigger] split_segments(
                w,
            )[i] != parent_dir() by {
                assert(is_step()(k[i]));
            }
        }
        assert(!is_rooted(w));
    }
}

/// Sanitizing leaves no `..` and no `.` segment and no leading separator,
/// so the result stays inside the folder that it is joined to, and lexical
/// cleaning leaves it as it is.
pub proof fn lemma_sanitized_stays_inside(raw: Seq<char>)
    requires
        sanitized(raw) is Ok,
    ensures
        ({
            let p = sanitized(raw)->Ok_0;
            &&& !is_rooted(p)
            &&& forall|i: int|
                0 <= i < split_segments(p).len() ==> #[trigger] split_segments(p)[i]
                    != parent_dir() && is_named(split_segments(p)[i])
            &&& lexical_clean(p) == p
        }),
{
    lemma_clean_without_parent_dirs(raw);
    let names = named_segments(raw);
    let p = join_segments(names);
    lemma_split_join(names);
    lemma_join_starts_with_first(names);
    assert(no_sep(names[0]));
    assert(is_named(names[0]));
    assert(p[0] == names[0][0]);
    lemma_keep_if_members(names, is_not_dot());
    assert forall|i: int| 0 <= i < names.len() implies #[trigger] names[i] != parent_dir() by {
        assert(is_named(names[i]));
    }
    assert forall|i: int| 0 <= i < names.len() implies is_not_dot()(#[trigger] names[i]) by {
        assert(is_named(names[i]));
    }
    lemma_resolve_without_parents(names, false);
}

/// Sanitizing a sanitized path changes nothing.
pub proof fn lemma_sanitize_idempotent(raw: Seq<char>)
    requires
        sanitized(raw) is Ok,
    ensures
        sanitized(sanitized(raw)->Ok_0) == sanitized(raw),
{
    lemma_clean_without_parent_dirs(raw);
    let names = named_segments(raw);
    let p = join_segments(names);
    lemma_split_join(names);
    lemma_keep_if_members(names, named());
    assert forall|i: int| 0 <= i < names.len() implies named()(#[trigger] names[i]) by {
        assert(is_named(names[i]));
    }
    assert(named_segments(p) == names);
    lemma_first_bad_none(p);
    lemma_join_starts_with_first(names);
    let last = names.last();
    assert(is_named(names[names.len() - 1]));
    assert(last.len() > 0);
    assert(p.last() == last.last());
    assert(is_path_char(p[p.len() - 1]));
}

/// The first character of `s` that a path may not hold.
pub fn find_bad_char(s: &str) -> (r: Option<char>)
    ensures
        r == first_bad_char(s@),
{
    let n = s.unicode_len();
    let mut i: usize = 0;
    assert(s@.subrange(0, n as int) =~= s@);
    while i < n
        invariant
            n == s@.len(),
            i <= n,
            first_bad_char(s@) == first_bad_char(s@.subrange(i as int, n as int)),
        decreases n - i,
    {
        let c = s.get_char(i);
        assert(s@.subrange(i as int, n as int)[0] == c);
        if !(('a' <= c && c <= 'z') || ('A' <= c && c <= 'Z') || ('0' <= c && c <= '9') || c
            == '_' || c == '.' || c == '-' || c == '/') {
            return Some(c);
        }
        assert(s@.subrange(i as int, n as int).drop_first() =~= s@.subrange(i + 1, n as int));
        i = i + 1;
    }
    assert(s@.subrange(n as int, n as int) =~= Seq::<char>::empty());
    None
}

/// Whether the text ends in a separator.
pub fn ends_with_separator(s: &str) -> (r: bool)
    ensures
        r == ends_with_sep(s@),
{
    let n = s.unicode_len();
    if n == 0 {
        false
    } else {
        let c = s.get_char(n - 1);
        c == '/' || c == '\\'
    }
}

/// Whether the segment is `..`.
pub fn is_parent_segment(s: &str) -> (r: bool)
    ensures
        r == (s@ == parent_dir()),
{
    if s.unicode_len() != 2 {
        return false;
    }
    let a = s.get_char(0);
    let b = s.get_char(1);
    if a == '.' && b == '.' {
        assert(s@ =~= parent_dir());
        true
    } else {
        false
    }
}

/// Whether the text is `.`.
pub fn is_current_dir(s: &str) -> (r: bool)
    ensures
        r == (s@ == current_dir()),
{
    if s.unicode_len() != 1 {
        return false;
    }
    if s.get_char(0) == '.' {
        assert(s@ =~= current_dir());
        true
    } else {
        false
    }
}

/// The segments that are neither empty nor `..`.
fn keep_steps(segs: &Vec<String>) -> (r: Vec<String>)
    ensures
        views(r@) == keep_if(views(segs@), is_step()),
{
    let mut out: Vec<String> = Vec::new();
    let mut i: usize = 0;
    assert(views(segs@).take(0) =~= Seq::<Seq<char>>::empty());
    assert(views(out@) =~= Seq::<Seq<char>>::empty());
    while i < segs.len()
        invariant
            i <= segs.len(),
            views(out@) == keep_if(views(segs@).take(i as int), is_step()),
        decreases segs.len() - i,
    {
        let seg = &segs[i];
        assert(views(segs@).take(i + 1).drop_last() =~= views(segs@).take(i as int));
        assert(views(segs@).take(i + 1).last() == seg@);
        if !seg.as_str().is_empty() && !is_parent_segment(seg.as_str()) {
            let ghost before = out@;
            out.push(seg.clone());
            assert(views(out@) =~= views(before).push(seg@));
        }
        i = i + 1;
    }
    assert(views(segs@).take(segs.len() as int) =~= views(segs@));
    out
}

/// Removes every `..` segment of the path, and the empty segments that
/// doubled separators leave; a leading separator stays.
pub fn rm_double_dots_from_path_buf(path: &mut String)
    ensures
        final(path)@ == without_parent_dirs(old(path)@),
{
    let segs = split_path(path.as_str());
    let kept = keep_steps(&segs);
    let joined = join_path(&kept);
    let rooted = path.as_str().unicode_len() > 0 && path.as_str().get_char(0) == '/';
    if rooted {
        let mut out = String::from_str("/");
        out.append(joined.as_str());
        proof {
            reveal_strlit("/");
        }
        assert(out@ =~= seq!['/'] + joined@);
        *path = out;
    } else {
        *path = joined;
    }
}

/// A separator, as typed on Unix (`/`) or on Windows (`\`).
pub open spec fn is_separator(c: char) -> bool {
    c == '/' || c == '\\'
}

/// The path without any of its leading separators.
pub open spec fn strip_leading_seps(s: Seq<char>) -> Seq<char>
    decreases s.len(),
{
    if s.len() > 0 && is_separator(s[0]) {
        strip_leading_seps(s.drop_first())
    } else {
        s
    }
}

/// Whether the `i`-th character of `s` is a separator.
fn is_separator_char(s: &str, i: usize) -> (r: bool)
    requires
        i < s@.len(),
    ensures
        r == is_separator(s@[i as int]),
{
    let c = s.get_char(i);
    c == '/' || c == '\\'
}

/// The path without any of its leading separators (`/` or `\`): what is
/// left does not start with one, so stripping again changes nothing.
pub fn strip_separator(path: &str) -> (r: String)
    ensures
        r@ == strip_leading_seps(path@),
        !(r@.len() > 0 && is_separator(r@[0])),
        strip_leading_seps(r@) == r@,
{
    let n = path.unicode_len();
    let mut i: usize = 0;
    assert(path@.skip(0) =~= path@);
    while i < n && is_separator_char(path, i)
        invariant
            n == path@.len(),
            i <= n,
            strip_leading_seps(path@) == strip_leading_seps(path@.skip(i as int)),
        decreases n - i,
    {
        assert(path@.skip(i as int)[0] == path@[i as int]);
        assert(path@.skip(i as int).drop_first() =~= path@.skip(i + 1));
        i = i + 1;
    }
    let rest = path.substring_char(i, n).to_owned();
    assert(rest@ =~= path@.skip(i as int));
    rest
}

/// Sanitizes the path that the user typed: drops `..` segments, cleans it,
/// strips the leading separator, and checks that what is left names a file
/// and holds only `[a-zA-Z0-9_.-]` between separators.
pub fn sanitize(raw: &str) -> (r: Result<String, PathError>)
    ensures
        path_result_view(r) == sanitized(raw@),
{
    if ends_with_separator(raw) {
        return Err(PathError::NoName);
    }
    let mut path = raw.to_owned();
    rm_double_dots_from_path_buf(&mut path);
    let cleaned = clean_path(path.as_str());
    let ghost names = named_segments(raw@);
    proof {
        lemma_clean_without_parent_dirs(raw@);
        if is_rooted(raw@) {
            assert((seq!['/'] + join_segments(names)).drop_first() =~= join_segments(names));
        }
    }
    match find_bad_char(cleaned.as_str()) {
        Some(c) => {
            proof {
                if names.len() == 0 {
                    lemma_first_bad_none(cleaned@);
                    assert(is_path_char(cleaned@[0]));
                }
            }
            return Err(PathError::InvalidChar(c));
        },
        None => {},
    }
    let stripped = strip_separator(cleaned.as_str());
    proof {
        if names.len() > 0 {
            lemma_first_bad_none(cleaned@);
            lemma_join_starts_with_first(names);
            assert(is_named(names[0]) && no_sep(names[0]));
            if !is_rooted(raw@) {
                assert(cleaned@[0] == names[0][0]);
                assert(is_path_char(cleaned@[0]));
            }
            let j = join_segments(names);
            assert(j[0] == names[0][0]);
            if is_rooted(raw@) {
                assert(cleaned@ == seq!['/'] + j);
                assert(cleaned@[1] == j[0]);
                assert(is_path_char(cleaned@[1]));
                assert(cleaned@.drop_first() =~= j);
                assert(strip_leading_seps(cleaned@) == strip_leading_seps(j));
            } else {
                assert(cleaned@ == j);
            }
            assert(!is_separator(j[0]));
            assert(strip_leading_seps(j) == j);
            assert(stripped@ == join_segments(names));
            if stripped@ == current_dir() {
                assert(names[0].len() == 1);
                assert(names[0] =~= current_dir());
            }
        } else {
            if is_rooted(raw@) {
                assert(cleaned@ =~= seq!['/']);
                assert(cleaned@.drop_first() =~= Seq::<char>::empty());
                assert(strip_leading_seps(Seq::<char>::empty()) == Seq::<char>::empty());
                assert(stripped@.len() == 0);
            } else {
                assert(cleaned@ == current_dir());
                assert(stripped@ == current_dir());
            }
        }
    }
    if stripped.as_str().is_empty() || is_current_dir(stripped.as_str()) {
        return Err(PathError::NoName);
    }
    Ok(stripped)
}

} // verus!
