//! File names: the last segment of a path, its stem and its extension.
//!
//! As with std's paths, the extension is what follows the last `.` of the
//! name, unless that `.` is its first character, and one trailing separator
//! does not hide the file name.
use vstd::prelude::*;

use crate::segments::{current_dir, parent_dir, split_segments};

verus! {

/// The index of the last `ch` in `s`, or -1.
pub open spec fn last_index_of(s: Seq<char>, ch: char) -> int
    decreases s.len(),
{
    if s.len() == 0 {
        -1
    } else if s.last() == ch {
        s.len() - 1
    } else {
        last_index_of(s.drop_last(), ch)
    }
}

pub proof fn lemma_last_index_of(s: Seq<char>, ch: char)
    ensures
        -1 <= last_index_of(s, ch) < s.len(),
        last_index_of(s, ch) >= 0 ==> s[last_index_of(s, ch)] == ch,
        forall|i: int| last_index_of(s, ch) < i < s.len() ==> s[i] != ch,
    decreases s.len(),
{
    if s.len() > 0 {
        lemma_last_index_of(s.drop_last(), ch);
        assert forall|i: int| last_index_of(s, ch) < i < s.len() implies s[i] != ch by {
            if i < s.len() - 1 {
                assert(s[i] == s.drop_last()[i]);
            }
        }
    }
}

/// The name without its extension.
pub open spec fn stem_of(name: Seq<char>) -> Seq<char> {
    let k = last_index_of(name, '.');
    if k <= 0 {
        name
    } else {
        name.take(k)
    }
}

/// The extension of the name, if it has one.
pub open spec fn extension_of(name: Seq<char>) -> Option<Seq<char>> {
    let k = last_index_of(name, '.');
    if k <= 0 {
        None
    } else {
        Some(name.skip(k + 1))
    }
}

/// The last of the segments that is neither empty nor `.`, or nothing.
pub open spec fn last_real_segment(segs: Seq<Seq<char>>) -> Seq<char>
    decreases segs.len(),
{
    if segs.len() == 0 {
        Seq::<char>::empty()
    } else if segs.last().len() == 0 || segs.last() == current_dir() {
        last_real_segment(segs.drop_last())
    } else {
        segs.last()
    }
}

/// The segment that names the file: as with std's path components, empty
/// segments and `.` do not count.
pub open spec fn name_segment(path: Seq<char>) -> Seq<char> {
    last_real_segment(split_segments(path))
}

/// The file name that a path ends in: its naming segment, unless that is
/// empty, `.` or `..`.
pub open spec fn file_name_of(path: Seq<char>) -> Option<Seq<char>> {
    let last = name_segment(path);
    if last.len() == 0 || last == current_dir() || last == parent_dir() {
        None
    } else {
        Some(last)
    }
}

/// The index of the last `ch` in `s`.
pub fn rfind_char(s: &str, ch: char) -> (r: Option<usize>)
    ensures
        match r {
            Some(k) => k as int == last_index_of(s@, ch),
            None => last_index_of(s@, ch) == -1,
        },
{
    let n = s.unicode_len();
    let mut i: usize = n;
    assert(s@.take(n as int) =~= s@);
    while i > 0
        invariant
            i <= n == s@.len(),
            last_index_of(s@, ch) == last_index_of(s@.take(i as int), ch),
        decreases i,
    {
        assert(s@.take(i as int).drop_last() =~= s@.take(i - 1));
        if s.get_char(i - 1) == ch {
            return Some(i - 1);
        }
        i = i - 1;
    }
    None
}

/// Splits `word` at its last `ch`: what comes before it, and the rest from
/// `ch` on.
pub fn split_last(word: &str, ch: char) -> (r: Option<(String, String)>)
    ensures
        match r {
            Some((a, b)) => {
                let k = last_index_of(word@, ch);
                &&& k >= 0
                &&& a@ == word@.take(k)
                &&& b@ == word@.skip(k)
            },
            None => last_index_of(word@, ch) == -1,
        },
{
    proof {
        lemma_last_index_of(word@, ch);
    }
    match rfind_char(word, ch) {
        Some(k) => {
            let n = word.unicode_len();
            let a = word.substring_char(0, k).to_owned();
            let b = word.substring_char(k, n).to_owned();
            assert(a@ =~= word@.take(k as int));
            assert(b@ =~= word@.skip(k as int));
            Some((a, b))
        },
        None => None,
    }
}

/// The stem of a file name.
pub fn file_stem(name: &str) -> (r: String)
    ensures
        r@ == stem_of(name@),
{
    proof {
        lemma_last_index_of(name@, '.');
    }
    match rfind_char(name, '.') {
        Some(k) => {
            if k == 0 {
                name.to_owned()
            } else {
                let r = name.substring_char(0, k).to_owned();
                assert(r@ =~= name@.take(k as int));
                r
            }
        },
        None => name.to_owned(),
    }
}

/// The extension of a file name.
pub fn file_extension(name: &str) -> (r: Option<String>)
    ensures
        match r {
            Some(e) => extension_of(name@) == Some(e@),
            None => extension_of(name@) is None,
        },
{
    proof {
        lemma_last_index_of(name@, '.');
    }
    match rfind_char(name, '.') {
        Some(k) => {
            if k == 0 {
                None
            } else {
                let n = name.unicode_len();
                let r = name.substring_char(k + 1, n).to_owned();
                assert(r@ =~= name@.skip(k + 1));
                Some(r)
            }
        },
        None => None,
    }
}

/// The last segment of a path.
pub fn last_segment(path: &str) -> (r: String)
    ensures
        r@ == split_segments(path@).last(),
{
    let segs = crate::segments::split_path(path);
    proof {
        crate::segments::lemma_split_nonempty(path@);
    }
    let r = segs[segs.len() - 1].clone();
    assert(r@ == crate::segments::views(segs@)[segs.len() - 1]);
    r
}

/// The segment that names the file: the last one that is neither empty
/// nor `.`.
pub fn get_name_segment(path: &str) -> (r: String)
    ensures
        r@ == name_segment(path@),
{
    let segs = crate::segments::split_path(path);
    let ghost all = crate::segments::views(segs@);
    let mut i: usize = segs.len();
    assert(all.take(i as int) =~= all);
    while i > 0
        invariant
            i <= segs.len(),
            all == crate::segments::views(segs@),
            all == split_segments(path@),
            last_real_segment(all) == last_real_segment(all.take(i as int)),
        decreases i,
    {
        let seg = segs[i - 1].as_str();
        assert(all.take(i as int).last() == seg@);
        assert(all.take(i as int).drop_last() =~= all.take(i - 1));
        if !seg.is_empty() && !crate::sanitize::is_current_dir(seg) {
            return segs[i - 1].clone();
        }
        i = i - 1;
    }
    assert(all.take(0) =~= Seq::<Seq<char>>::empty());
    String::new()
}

/// The stem of the file that the path names, or why there is none.
pub fn get_name_or_err(path: &str) -> (r: Result<String, String>)
    ensures
        match r {
            Ok(name) => file_name_of(path@) matches Some(f) && name@ == stem_of(f),
            Err(_) => file_name_of(path@) is None,
        },
{
    let last = get_name_segment(path);
    let s = last.as_str();
    if s.is_empty() || crate::sanitize::is_current_dir(s) || crate::sanitize::is_parent_segment(s) {
        return Err(String::from_str("Couldn't get the file name"));
    }
    Ok(file_stem(s))
}

/// Whether the two paths name files with the same stem.
pub fn eq_file_name(path1: &str, path2: &str) -> (r: bool)
    ensures
        r == (file_name_of(path1@) matches Some(f1) && file_name_of(path2@) matches Some(f2)
            && stem_of(f1) == stem_of(f2)),
{
    match (get_name_or_err(path1), get_name_or_err(path2)) {
        (Ok(a), Ok(b)) => a == b,
        _ => false,
    }
}

/// Whether the two extensions are the same, where no extension equals only
/// no extension.
pub fn eq_file_extensions(ext1: Option<&str>, ext2: Option<&str>) -> (r: bool)
    ensures
        r == match (ext1, ext2) {
            (Some(a), Some(b)) => a@ == b@,
            (None, None) => true,
            _ => false,
        },
{
    match (ext1, ext2) {
        (Some(a), Some(b)) => a.to_owned() == b.to_owned(),
        (None, None) => true,
        _ => false,
    }
}

} // verus!
