//! Paths as sequences of segments.
//!
//! A path is text in which `/` separates segments. The model splits a path
//! into its segments, filters them and joins them back, and the executable
//! functions here compute exactly those models.
use vstd::prelude::*;

verus! {

/// The segments of `s` between separators, in order: `n` separators give
/// `n + 1` segments, some of which may be empty.
pub open spec fn split_segments(s: Seq<char>) -> Seq<Seq<char>>
    decreases s.len(),
{
    if s.len() == 0 {
        seq![Seq::<char>::empty()]
    } else {
        let rest = split_segments(s.drop_last());
        if s.last() == '/' {
            rest.push(Seq::<char>::empty())
        } else {
            rest.update(rest.len() - 1, rest.last().push(s.last()))
        }
    }
}

/// The segments joined back with a separator between each two.
pub open spec fn join_segments(segs: Seq<Seq<char>>) -> Seq<char>
    decreases segs.len(),
{
    if segs.len() == 0 {
        Seq::<char>::empty()
    } else if segs.len() == 1 {
        segs[0]
    } else {
        join_segments(segs.drop_last()) + seq!['/'] + segs.last()
    }
}

/// The segments that satisfy `p`, in their order.
pub open spec fn keep_if(segs: Seq<Seq<char>>, p: spec_fn(Seq<char>) -> bool) -> Seq<Seq<char>>
    decreases segs.len(),
{
    if segs.len() == 0 {
        Seq::<Seq<char>>::empty()
    } else {
        let rest = keep_if(segs.drop_last(), p);
        if p(segs.last()) {
            rest.push(segs.last())
        } else {
            rest
        }
    }
}

/// `s` holds no separator.
pub open spec fn no_sep(s: Seq<char>) -> bool {
    forall|i: int| 0 <= i < s.len() ==> s[i] != '/'
}

/// The path starts at the root of the file system.
pub open spec fn is_rooted(s: Seq<char>) -> bool {
    s.len() > 0 && s[0] == '/'
}

pub open spec fn parent_dir() -> Seq<char> {
    seq!['.', '.']
}

pub open spec fn current_dir() -> Seq<char> {
    seq!['.']
}

/// A segment that names something: not empty, not `.` and not `..`.
pub open spec fn is_named(seg: Seq<char>) -> bool {
    seg.len() > 0 && seg != current_dir() && seg != parent_dir()
}

/// The views of a sequence of strings.
pub open spec fn views(v: Seq<String>) -> Seq<Seq<char>> {
    v.map_values(|s: String| s@)
}

pub proof fn lemma_split_nonempty(s: Seq<char>)
    ensures
        split_segments(s).len() >= 1,
    decreases s.len(),
{
    if s.len() > 0 {
        lemma_split_nonempty(s.drop_last());
    }
}

/// No segment of a split holds a separator.
pub proof fn lemma_split_no_sep(s: Seq<char>)
    ensures
        forall|i: int| 0 <= i < split_segments(s).len() ==> no_sep(#[trigger] split_segments(s)[i]),
    decreases s.len(),
{
    if s.len() > 0 {
        lemma_split_no_sep(s.drop_last());
        lemma_split_nonempty(s.drop_last());
        let rest = split_segments(s.drop_last());
        if s.last() != '/' {
            let w = rest.last().push(s.last());
            assert(no_sep(rest.last()));
            assert(no_sep(w));
        }
    }
}

/// Appending text without separators extends the last segment.
pub proof fn lemma_split_append_word(x: Seq<char>, w: Seq<char>)
    requires
        no_sep(w),
    ensures
        split_segments(x + w) == split_segments(x).update(
            split_segments(x).len() - 1,
            split_segments(x).last() + w,
        ),
    decreases w.len(),
{
    lemma_split_nonempty(x);
    let sx = split_segments(x);
    if w.len() == 0 {
        assert(x + w =~= x);
        assert(sx.last() + w =~= sx.last());
        assert(sx.update(sx.len() - 1, sx.last()) =~= sx);
    } else {
        let w0 = w.drop_last();
        lemma_split_append_word(x, w0);
        assert((x + w).drop_last() =~= x + w0);
        assert((x + w).last() == w.last());
        let s0 = split_segments(x + w0);
        assert((sx.last() + w0).push(w.last()) =~= sx.last() + w);
        assert(s0.update(s0.len() - 1, s0.last().push(w.last())) =~= sx.update(
            sx.len() - 1,
            sx.last() + w,
        ));
    }
}

/// Splitting what was joined gives the segments back.
pub proof fn lemma_split_join(segs: Seq<Seq<char>>)
    requires
        segs.len() >= 1,
        forall|i: int| 0 <= i < segs.len() ==> no_sep(#[trigger] segs[i]),
    ensures
        split_segments(join_segments(segs)) == segs,
    decreases segs.len(),
{
    if segs.len() == 1 {
        let e = Seq::<char>::empty();
        lemma_split_append_word(e, segs[0]);
        assert(e + segs[0] =~= segs[0]);
        assert(split_segments(e) == seq![e]);
        assert(e + segs[0] =~= segs[0]);
        assert(seq![e].update(0, e + segs[0]) =~= segs);
    } else {
        let pre = segs.drop_last();
        assert forall|i: int| 0 <= i < pre.len() implies no_sep(#[trigger] pre[i]) by {
            assert(pre[i] == segs[i]);
        }
        lemma_split_join(pre);
        let jp = join_segments(pre) + seq!['/'];
        assert(jp.drop_last() =~= join_segments(pre));
        assert(split_segments(jp) == pre.push(Seq::<char>::empty()));
        assert(no_sep(segs[segs.len() - 1]));
        lemma_split_append_word(jp, segs.last());
        let e = Seq::<char>::empty();
        assert(e + segs.last() =~= segs.last());
        assert(pre.push(e).update(pre.len() as int, e + segs.last()) =~= segs);
    }
}

/// A separator in front adds an empty first segment.
pub proof fn lemma_split_leading_sep(x: Seq<char>)
    ensures
        split_segments(seq!['/'] + x) == seq![Seq::<char>::empty()] + split_segments(x),
    decreases x.len(),
{
    let e = Seq::<char>::empty();
    if x.len() == 0 {
        assert(seq!['/'] + x =~= seq!['/']);
        assert(seq!['/'].drop_last() =~= e);
        assert(split_segments(e) == seq![e]);
        assert(split_segments(seq!['/']) == split_segments(e).push(e));
        assert(seq![e].push(e) =~= seq![e] + seq![e]);
    } else {
        let x0 = x.drop_last();
        lemma_split_leading_sep(x0);
        lemma_split_nonempty(x0);
        assert((seq!['/'] + x).drop_last() =~= seq!['/'] + x0);
        assert((seq!['/'] + x).last() == x.last());
        let s0 = split_segments(x0);
        let t0 = seq![e] + s0;
        if x.last() == '/' {
            assert(t0.push(e) =~= seq![e] + s0.push(e));
            assert(split_segments(seq!['/'] + x) == t0.push(e));
        } else {
            assert(t0.update(t0.len() - 1, t0.last().push(x.last())) =~= seq![e] + s0.update(
                s0.len() - 1,
                s0.last().push(x.last()),
            ));
            assert(split_segments(seq!['/'] + x) == t0.update(t0.len() - 1, t0.last().push(x.last())));
        }
    }
}

/// The joined text starts with the first segment.
pub proof fn lemma_join_starts_with_first(segs: Seq<Seq<char>>)
    requires
        segs.len() >= 1,
    ensures
        segs[0].len() <= join_segments(segs).len(),
        forall|i: int| 0 <= i < segs[0].len() ==> join_segments(segs)[i] == segs[0][i],
    decreases segs.len(),
{
    if segs.len() > 1 {
        let pre = segs.drop_last();
        lemma_join_starts_with_first(pre);
        assert(pre[0] == segs[0]);
    }
}

/// Filtering keeps only segments that pass, and keeps every segment that
/// the filter was given when all of them pass.
pub proof fn lemma_keep_if_members(segs: Seq<Seq<char>>, p: spec_fn(Seq<char>) -> bool)
    ensures
        forall|i: int| 0 <= i < keep_if(segs, p).len() ==> p(#[trigger] keep_if(segs, p)[i]),
        forall|i: int|
            0 <= i < keep_if(segs, p).len() ==> exists|j: int|
                0 <= j < segs.len() && segs[j] == #[trigger] keep_if(segs, p)[i],
        (forall|i: int| 0 <= i < segs.len() ==> p(#[trigger] segs[i])) ==> keep_if(segs, p)
            == segs,
    decreases segs.len(),
{
    if segs.len() > 0 {
        let pre = segs.drop_last();
        lemma_keep_if_members(pre, p);
        let r = keep_if(pre, p);
        assert forall|i: int| 0 <= i < keep_if(segs, p).len() implies exists|j: int|
            0 <= j < segs.len() && segs[j] == #[trigger] keep_if(segs, p)[i] by {
            if i < r.len() {
                let j = choose|j: int| 0 <= j < pre.len() && pre[j] == r[i];
                assert(segs[j] == pre[j]);
            } else {
                assert(segs[segs.len() - 1] == keep_if(segs, p)[i]);
            }
        }
        if forall|i: int| 0 <= i < segs.len() ==> p(#[trigger] segs[i]) {
            assert forall|i: int| 0 <= i < pre.len() implies p(#[trigger] pre[i]) by {
                assert(pre[i] == segs[i]);
            }
            assert(p(segs[segs.len() - 1]));
            assert(pre.push(segs.last()) =~= segs);
        }
    }
}

/// Filtering twice is filtering once by both tests.
pub proof fn lemma_keep_if_twice(
    segs: Seq<Seq<char>>,
    p: spec_fn(Seq<char>) -> bool,
    q: spec_fn(Seq<char>) -> bool,
    r: spec_fn(Seq<char>) -> bool,
)
    requires
        forall|x: Seq<char>| #[trigger] r(x) == (p(x) && q(x)),
    ensures
        keep_if(keep_if(segs, p), q) == keep_if(segs, r),
    decreases segs.len(),
{
    if segs.len() > 0 {
        lemma_keep_if_twice(segs.drop_last(), p, q, r);
        let inner = keep_if(segs.drop_last(), p);
        if p(segs.last()) {
            assert(inner.push(segs.last()).drop_last() =~= inner);
        }
    }
}

/// A first segment that fails the filter does not count.
pub proof fn lemma_keep_if_skip_first(x: Seq<char>, segs: Seq<Seq<char>>, p: spec_fn(Seq<char>) -> bool)
    requires
        !p(x),
    ensures
        keep_if(seq![x] + segs, p) == keep_if(segs, p),
    decreases segs.len(),
{
    if segs.len() == 0 {
        assert(seq![x] + segs =~= seq![x]);
        assert(seq![x].drop_last() =~= Seq::<Seq<char>>::empty());
        assert(keep_if(seq![x], p) == keep_if(seq![x].drop_last(), p));
    } else {
        lemma_keep_if_skip_first(x, segs.drop_last(), p);
        assert((seq![x] + segs).drop_last() =~= seq![x] + segs.drop_last());
        assert((seq![x] + segs).last() == segs.last());
    }
}

/// Splits `s` at each separator.
pub fn split_path(s: &str) -> (r: Vec<String>)
    ensures
        views(r@) == split_segments(s@),
{
    let n = s.unicode_len();
    let mut segs: Vec<String> = Vec::new();
    let mut start: usize = 0;
    let mut i: usize = 0;
    assert(s@.take(0) =~= Seq::<char>::empty());
    assert(views(segs@) =~= Seq::<Seq<char>>::empty());
    assert(s@.subrange(0, 0) =~= Seq::<char>::empty());
    assert(split_segments(Seq::<char>::empty()) =~= seq![Seq::<char>::empty()]);
    while i < n
        invariant
            n == s@.len(),
            start <= i <= n,
            split_segments(s@.take(i as int)) == views(segs@).push(
                s@.subrange(start as int, i as int),
            ),
        decreases n - i,
    {
        let c = s.get_char(i);
        let ghost old_segs = segs@;
        let ghost old_start = start;
        assert(s@.take(i + 1).drop_last() =~= s@.take(i as int));
        assert(s@.take(i + 1).last() == c);
        if c == '/' {
            let piece = s.substring_char(start, i).to_owned();
            segs.push(piece);
            start = i + 1;
            assert(views(segs@) =~= views(old_segs).push(s@.subrange(old_start as int, i as int)));
            assert(s@.subrange(start as int, i + 1) =~= Seq::<char>::empty());
        } else {
            assert(s@.subrange(start as int, i as int).push(c) =~= s@.subrange(
                start as int,
                i + 1,
            ));
            assert(views(segs@).push(s@.subrange(start as int, i as int)).update(
                views(segs@).len() as int,
                s@.subrange(start as int, i + 1),
            ) =~= views(segs@).push(s@.subrange(start as int, i + 1)));
        }
        i = i + 1;
    }
    let last = s.substring_char(start, n).to_owned();
    let ghost before = segs@;
    segs.push(last);
    assert(s@.take(n as int) =~= s@);
    assert(views(segs@) =~= views(before).push(s@.subrange(start as int, n as int)));
    segs
}

/// Joins the segments with a separator between each two.
pub fn join_path(segs: &Vec<String>) -> (r: String)
    ensures
        r@ == join_segments(views(segs@)),
{
    let mut out = String::new();
    let mut i: usize = 0;
    proof {
        reveal_strlit("/");
    }
    assert("/"@ =~= seq!['/']);
    while i < segs.len()
        invariant
            i <= segs.len(),
            out@ == join_segments(views(segs@).take(i as int)),
            "/"@ == seq!['/'],
        decreases segs.len() - i,
    {
        let ghost prev = out@;
        assert(views(segs@).take(i + 1).drop_last() =~= views(segs@).take(i as int));
        if i > 0 {
            out.append("/");
        }
        let ghost mid = out@;
        out.append(segs[i].as_str());
        assert(out@ == mid + segs@[i as int]@);
        assert(i > 0 ==> mid == prev + seq!['/']);
        if i == 0 {
            assert(prev =~= Seq::<char>::empty());
            assert(out@ =~= segs@[0]@);
        } else {
            assert(out@ =~= prev + seq!['/'] + segs@[i as int]@);
        }
        i = i + 1;
    }
    assert(views(segs@).take(segs.len() as int) =~= views(segs@));
    out
}

} // verus!
