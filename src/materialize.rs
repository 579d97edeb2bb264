//! The checks made before a new file is written: nothing may exist at its
//! path, nor beside it under the same stem with another extension.
//!
//! The caller lists the files of the new file's folder (none where the
//! folder does not exist yet), and writes only when the check passes.
use vstd::prelude::*;

use crate::error::CollisionError;
use crate::names::{file_stem, last_segment, stem_of};
use crate::segments::{keep_if, split_segments, views};

verus! {

/// Some file in `files` has the stem `stem`.
pub open spec fn has_stem(files: Seq<Seq<char>>, stem: Seq<char>) -> bool {
    exists|i: int| 0 <= i < files.len() && stem_of(#[trigger] files[i]) == stem
}

/// The files of `files` whose stem is `stem`, in order.
pub open spec fn stem_occurrences(stem: Seq<char>, files: Seq<Seq<char>>) -> Seq<Seq<char>> {
    keep_if(files, |f: Seq<char>| stem_of(f) == stem)
}

/// What the check says of a new file at `path` beside `siblings`.
pub open spec fn collision(path: Seq<char>, siblings: Seq<Seq<char>>) -> Option<CollisionError> {
    let name = split_segments(path).last();
    if siblings.contains(name) {
        Some(CollisionError::AlreadyExists)
    } else if has_stem(siblings, stem_of(name)) {
        Some(CollisionError::DifferentExtension)
    } else {
        None
    }
}

/// The files among `files` whose stem is `file_stem`.
pub fn get_file_stem_occurrences(file_stem_arg: &str, files: &Vec<String>) -> (r: Vec<String>)
    ensures
        views(r@) == stem_occurrences(file_stem_arg@, views(files@)),
{
    let mut out: Vec<String> = Vec::new();
    let mut i: usize = 0;
    let ghost p = |f: Seq<char>| stem_of(f) == file_stem_arg@;
    let want = file_stem_arg.to_owned();
    assert(views(files@).take(0) =~= Seq::<Seq<char>>::empty());
    assert(views(out@) =~= Seq::<Seq<char>>::empty());
    while i < files.len()
        invariant
            i <= files.len(),
            want@ == file_stem_arg@,
            p == (|f: Seq<char>| stem_of(f) == file_stem_arg@),
            views(out@) == keep_if(views(files@).take(i as int), p),
        decreases files.len() - i,
    {
        let f = &files[i];
        assert(views(files@).take(i + 1).drop_last() =~= views(files@).take(i as int));
        assert(views(files@).take(i + 1).last() == f@);
        if file_stem(f.as_str()) == want {
            let ghost before = out@;
            out.push(f.clone());
            assert(views(out@) =~= views(before).push(f@));
        }
        i = i + 1;
    }
    assert(views(files@).take(files.len() as int) =~= views(files@));
    out
}

/// The first of `files` whose stem is `stem`.
pub open spec fn first_with_stem(files: Seq<Seq<char>>, stem: Seq<char>) -> Option<Seq<char>>
    decreases files.len(),
{
    if files.len() == 0 {
        None
    } else if stem_of(files[0]) == stem {
        Some(files[0])
    } else {
        first_with_stem(files.drop_first(), stem)
    }
}

pub proof fn lemma_first_with_stem(files: Seq<Seq<char>>, stem: Seq<char>)
    ensures
        first_with_stem(files, stem) is None <==> !has_stem(files, stem),
        first_with_stem(files, stem) matches Some(f) ==> stem_of(f) == stem && files.contains(f),
    decreases files.len(),
{
    if files.len() > 0 {
        let rest = files.drop_first();
        lemma_first_with_stem(rest, stem);
        if has_stem(rest, stem) {
            let k = choose|k: int| 0 <= k < rest.len() && stem_of(#[trigger] rest[k]) == stem;
            assert(files[k + 1] == rest[k]);
        }
        if has_stem(files, stem) && stem_of(files[0]) != stem {
            let k = choose|k: int| 0 <= k < files.len() && stem_of(#[trigger] files[k]) == stem;
            assert(rest[k - 1] == files[k]);
        }
        if first_with_stem(files, stem) is Some {
            let f = first_with_stem(files, stem)->Some_0;
            if stem_of(files[0]) != stem {
                let k = choose|k: int| 0 <= k < rest.len() && rest[k] == f;
                assert(files[k + 1] == f);
            } else {
                assert(files[0] == f);
            }
        }
    }
}

/// The first file among `files` with the stem of the file that `file_path`
/// names.
pub fn get_first_file_with_stem(file_path: &str, files: &Vec<String>) -> (r: Option<String>)
    ensures
        crate::config::opt_view(r) == first_with_stem(
            views(files@),
            stem_of(split_segments(file_path@).last()),
        ),
{
    let last = last_segment(file_path);
    let want = file_stem(last.as_str());
    let ghost stem = stem_of(split_segments(file_path@).last());
    let mut i: usize = 0;
    assert(views(files@).skip(0) =~= views(files@));
    while i < files.len()
        invariant
            i <= files.len(),
            want@ == stem,
            stem == stem_of(split_segments(file_path@).last()),
            first_with_stem(views(files@), stem) == first_with_stem(views(files@).skip(i as int), stem),
        decreases files.len() - i,
    {
        assert(views(files@).skip(i as int)[0] == files@[i as int]@);
        let st = file_stem(files[i].as_str());
        if st == want {
            let f = files[i].clone();
            let ghost rest = views(files@).skip(i as int);
            assert(rest.len() > 0);
            assert(stem_of(rest[0]) == stem);
            assert(first_with_stem(rest, stem) == Some(rest[0]));
            assert(rest[0] == files@[i as int]@);
            assert(f@ == rest[0]);
            assert(crate::config::opt_view(Some(f)) == Some(rest[0]));
            return Some(f);
        }
        assert(views(files@).skip(i as int).drop_first() =~= views(files@).skip(i + 1));
        i = i + 1;
    }
    assert(views(files@).skip(files.len() as int) =~= Seq::<Seq<char>>::empty());
    None
}

/// Whether a file with the stem of the file that `file_path` names is among
/// `files`.
pub fn file_stem_exists(file_path: &str, files: &Vec<String>) -> (r: bool)
    ensures
        r == has_stem(views(files@), stem_of(split_segments(file_path@).last())),
{
    proof {
        lemma_first_with_stem(views(files@), stem_of(split_segments(file_path@).last()));
    }
    match get_first_file_with_stem(file_path, files) {
        Some(_) => true,
        None => false,
    }
}

/// Checks that a new file may be written at `path`, where `siblings` are
/// the files already in its folder: a file of the same name is there
/// already, or one of the same stem under another extension.
pub fn check_new_file(path: &str, siblings: &Vec<String>) -> (r: Result<(), CollisionError>)
    ensures
        match r {
            Ok(()) => collision(path@, views(siblings@)) is None,
            Err(e) => collision(path@, views(siblings@)) == Some(e),
        },
        r is Err <==> has_stem(views(siblings@), stem_of(split_segments(path@).last())),
{
    let name = last_segment(path);
    let mut i: usize = 0;
    while i < siblings.len()
        invariant
            i <= siblings.len(),
            name@ == split_segments(path@).last(),
            forall|j: int| 0 <= j < i ==> siblings@[j]@ != name@,
        decreases siblings.len() - i,
    {
        if siblings[i] == name {
            assert(views(siblings@)[i as int] == name@);
            assert(stem_of(views(siblings@)[i as int]) == stem_of(name@));
            return Err(CollisionError::AlreadyExists);
        }
        i = i + 1;
    }
    proof {
        if views(siblings@).contains(name@) {
            let j = choose|j: int| 0 <= j < siblings.len() && #[trigger] views(siblings@)[j] == name@;
            assert(siblings@[j]@ == name@);
        }
    }
    if file_stem_exists(path, siblings) {
        Err(CollisionError::DifferentExtension)
    } else {
        Ok(())
    }
}

} // verus!
