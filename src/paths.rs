//! Remote path handling: splitting on `/`, resolving `.` and `..`, and
//! re-joining under a single leading `/`.
use vstd::prelude::*;

use crate::text::{
    is_single_char, strip_leading, strip_trailing, trim_char, trim_end_char, trim_start_char,
};

verus! {

/// The pieces of `s` between slashes, exactly as `str::split('/')` yields
/// them: an empty string gives one empty piece, and each `/` ends a piece.
pub open spec fn split_slash(s: Seq<char>) -> Seq<Seq<char>>
    decreases s.len(),
{
    if s.len() == 0 {
        seq![Seq::<char>::empty()]
    } else {
        let init = split_slash(s.drop_last());
        if s.last() == '/' {
            init.push(Seq::<char>::empty())
        } else {
            init.update(init.len() - 1, init.last().push(s.last()))
        }
    }
}

/// The effect of one path segment on the components resolved so far:
/// empty and `.` segments are dropped, `..` goes up one level (never above
/// the root), anything else descends.
pub open spec fn resolve_step(comps: Seq<Seq<char>>, seg: Seq<char>) -> Seq<Seq<char>> {
    if seg.len() == 0 || seg == seq!['.'] {
        comps
    } else if seg == seq!['.', '.'] {
        if comps.len() == 0 {
            comps
        } else {
            comps.drop_last()
        }
    } else {
        comps.push(seg)
    }
}

/// The effect of one segment when dots carry no meaning: only empty
/// segments are dropped.
pub open spec fn keep_step(comps: Seq<Seq<char>>, seg: Seq<char>) -> Seq<Seq<char>> {
    if seg.len() == 0 {
        comps
    } else {
        comps.push(seg)
    }
}

/// The effect of one segment on the names of a local path: empty and `.`
/// segments are dropped, `..` is kept as a name of its own.
pub open spec fn name_step(comps: Seq<Seq<char>>, seg: Seq<char>) -> Seq<Seq<char>> {
    if seg.len() == 0 || seg == seq!['.'] {
        comps
    } else {
        comps.push(seg)
    }
}

/// How a walk over path segments treats them.
#[derive(Clone, Copy, PartialEq, Eq, Structural)]
pub enum Walk {
    /// Drop empty and `.` segments, go up on `..`.
    Resolve,
    /// Drop empty segments only.
    NonEmpty,
    /// Drop empty and `.` segments, keep `..`.
    Names,
}

/// One step of a walk.
pub open spec fn segment_step(comps: Seq<Seq<char>>, seg: Seq<char>, dots: Walk) -> Seq<Seq<char>> {
    match dots {
        Walk::Resolve => resolve_step(comps, seg),
        Walk::NonEmpty => keep_step(comps, seg),
        Walk::Names => name_step(comps, seg),
    }
}

/// The components left after walking `segs` from left to right.
pub open spec fn walk_segments(segs: Seq<Seq<char>>, dots: Walk) -> Seq<Seq<char>>
    decreases segs.len(),
{
    if segs.len() == 0 {
        Seq::empty()
    } else {
        segment_step(walk_segments(segs.drop_last(), dots), segs.last(), dots)
    }
}

/// The components left after resolving `segs` from left to right.
pub open spec fn resolve_segments(segs: Seq<Seq<char>>) -> Seq<Seq<char>> {
    walk_segments(segs, Walk::Resolve)
}

/// The non-empty segments of `segs`, in order.
pub open spec fn nonempty_segments(segs: Seq<Seq<char>>) -> Seq<Seq<char>> {
    walk_segments(segs, Walk::NonEmpty)
}

/// Each component preceded by one `/`.
pub open spec fn slash_join(comps: Seq<Seq<char>>) -> Seq<char>
    decreases comps.len(),
{
    if comps.len() == 0 {
        Seq::empty()
    } else {
        slash_join(comps.drop_last()) + seq!['/'] + comps.last()
    }
}

/// The rooted form of a component list: `/` alone when there is none.
pub open spec fn rooted(comps: Seq<Seq<char>>) -> Seq<char> {
    if comps.len() == 0 {
        seq!['/']
    } else {
        slash_join(comps)
    }
}

/// The canonical `/`-rooted form of a path: `.` and empty segments dropped,
/// `..` resolved, one leading `/`, no trailing `/`.
pub open spec fn normalized_path(s: Seq<char>) -> Seq<char> {
    rooted(resolve_segments(split_slash(s)))
}

/// The view of an optional string.
pub open spec fn opt_view(o: Option<String>) -> Option<Seq<char>> {
    match o {
        Some(s) => Some(s@),
        None => None,
    }
}

/// The views of a list of strings.
pub open spec fn views(v: Seq<String>) -> Seq<Seq<char>> {
    v.map_values(|c: String| c@)
}

proof fn lemma_split_slash_nonempty(s: Seq<char>)
    ensures
        split_slash(s).len() >= 1,
    decreases s.len(),
{
    if s.len() > 0 {
        lemma_split_slash_nonempty(s.drop_last());
    }
}

/// Applies one segment to the components walked so far.
fn apply_segment(comps: &mut Vec<String>, seg: &str, dots: Walk)
    ensures
        views(final(comps)@) == segment_step(views(old(comps)@), seg@, dots),
{
    let len = seg.unicode_len();
    if len == 0 {
        return ;
    }
    if dots != Walk::NonEmpty && len == 1 && seg.get_char(0) == '.' {
        assert(seg@ =~= seq!['.']);
        return ;
    }
    proof {
        if seg@ == seq!['.'] {
            assert(seg@.len() == 1 && seg@[0] == '.');
        }
    }
    if dots == Walk::Resolve && len == 2 && seg.get_char(0) == '.' && seg.get_char(1) == '.' {
        assert(seg@ =~= seq!['.', '.']);
        if comps.len() > 0 {
            comps.pop();
            assert(views(comps@) =~= views(old(comps)@).drop_last());
        }
        return ;
    }
    proof {
        if seg@ == seq!['.', '.'] {
            assert(seg@.len() == 2 && seg@[0] == '.' && seg@[1] == '.');
        }
    }
    comps.push(String::from_str(seg));
    assert(views(comps@) =~= views(old(comps)@).push(seg@));
}

/// Splits `path` on `/` and walks the segments from left to right.
fn walk_path(path: &str, dots: Walk) -> (comps: Vec<String>)
    ensures
        views(comps@) == walk_segments(split_slash(path@), dots),
{
    let n = path.unicode_len();
    let mut comps: Vec<String> = Vec::new();
    let mut start: usize = 0;
    let mut i: usize = 0;
    let ghost mut done: Seq<Seq<char>> = Seq::empty();
    assert(path@.take(0) =~= Seq::<char>::empty());
    assert(path@.subrange(0, 0) =~= Seq::<char>::empty());
    while i < n
        invariant
            n == path@.len(),
            start <= i <= n,
            split_slash(path@.take(i as int)) == done.push(path@.subrange(start as int, i as int)),
            views(comps@) == walk_segments(done, dots),
        decreases n - i,
    {
        let ch = path.get_char(i);
        let ghost prev = path@.take(i as int);
        assert(path@.take(i + 1).drop_last() =~= prev);
        assert(path@.take(i + 1).last() == ch);
        if ch == '/' {
            let seg = path.substring_char(start, i);
            apply_segment(&mut comps, seg, dots);
            proof {
                let d2 = done.push(seg@);
                assert(d2.drop_last() =~= done);
                assert(walk_segments(d2, dots) == segment_step(walk_segments(done, dots), seg@, dots));
                done = d2;
                assert(path@.subrange(i + 1, i + 1) =~= Seq::<char>::empty());
            }
            start = i + 1;
        } else {
            proof {
                let cur = path@.subrange(start as int, i as int);
                assert(cur.push(ch) =~= path@.subrange(start as int, i + 1));
                assert(done.push(cur).update(done.len() as int, cur.push(ch)) =~= done.push(
                    path@.subrange(start as int, i + 1),
                ));
            }
        }
        i = i + 1;
    }
    let last = path.substring_char(start, n);
    apply_segment(&mut comps, last, dots);
    proof {
        assert(path@.take(n as int) =~= path@);
        let d2 = done.push(last@);
        assert(d2.drop_last() =~= done);
    }
    comps
}

/// Joins components, each preceded by `/`, or gives `/` when there is none.
fn join_rooted(comps: &Vec<String>) -> (r: String)
    ensures
        r@ == rooted(views(comps@)),
{
    if comps.len() == 0 {
        let r = String::from_str("/");
        proof {
            reveal_strlit("/");
        }
        assert(r@ =~= seq!['/']);
        return r;
    }
    join_slashed(comps)
}

/// Joins components, each preceded by `/`.
fn join_slashed(comps: &Vec<String>) -> (r: String)
    ensures
        r@ == slash_join(views(comps@)),
{
    let mut r = String::new();
    let mut k: usize = 0;
    assert(views(comps@).take(0) =~= Seq::<Seq<char>>::empty());
    while k < comps.len()
        invariant
            k <= comps.len(),
            r@ == slash_join(views(comps@).take(k as int)),
        decreases comps.len() - k,
    {
        r.append("/");
        r.append(comps[k].as_str());
        proof {
            let vs = views(comps@);
            assert(vs.take(k + 1).drop_last() =~= vs.take(k as int));
            assert(vs.take(k + 1).last() == comps@[k as int]@);
            reveal_strlit("/");
            assert("/"@ =~= seq!['/']);
        }
        k = k + 1;
    }
    assert(views(comps@).take(comps.len() as int) =~= views(comps@));
    r
}

/// Canonicalises a remote path: splits it on `/`, drops empty and `.`
/// segments, goes up one level on `..`, and joins what is left under a
/// single leading `/` (`/` alone when nothing is left).
pub fn normalize_remote_path(path: &str) -> (r: String)
    ensures
        r@ == normalized_path(path@),
{
    let comps = walk_path(path, Walk::Resolve);
    join_rooted(&comps)
}

/// Turns a path as a protocol client sends it (relative or absolute, with
/// `.` and `..`) into the bridge's `/`-rooted form; the same canonical form
/// as remote operand paths.
pub fn normalize_request_path(path: &str) -> (r: String)
    ensures
        r@ == normalized_path(path@),
{
    normalize_remote_path(path)
}

/// `s` without its leading slashes.
pub open spec fn strip_leading_slashes(s: Seq<char>) -> Seq<char> {
    strip_leading(s, '/')
}

/// `s` without its trailing slashes.
pub open spec fn strip_trailing_slashes(s: Seq<char>) -> Seq<char> {
    strip_trailing(s, '/')
}

/// `s` without slashes at either end.
pub open spec fn trim_slashes(s: Seq<char>) -> Seq<char> {
    strip_trailing_slashes(strip_leading_slashes(s))
}

/// `s` without one leading slash, when it has one.
pub open spec fn drop_leading_slash(s: Seq<char>) -> Seq<char> {
    if s.len() > 0 && s[0] == '/' {
        s.skip(1)
    } else {
        s
    }
}

/// `path` without one leading slash, as the rename payload expects its
/// destination.
pub fn trim_leading_slash(path: &str) -> (r: &str)
    ensures
        r@ == drop_leading_slash(path@),
{
    let n = path.unicode_len();
    if n > 0 && path.get_char(0) == '/' {
        let r = path.substring_char(1, n);
        assert(r@ =~= path@.skip(1));
        r
    } else {
        path
    }
}

/// `path` without slashes at either end.
pub fn trim_slashes_str(path: &str) -> (r: &str)
    ensures
        r@ == trim_slashes(path@),
{
    trim_char(path, '/')
}

/// The remote path of `child` inside `base`.
pub open spec fn joined_path(base: Seq<char>, child: Seq<char>) -> Seq<char> {
    if base == seq!['/'] {
        seq!['/'] + trim_slashes(child)
    } else {
        strip_trailing_slashes(base) + seq!['/'] + trim_slashes(child)
    }
}

/// The path of `child` inside the remote directory `base`: the child's
/// slashes at either end are dropped, and exactly one `/` separates the two.
pub fn join_remote_paths(base: &str, child: &str) -> (r: String)
    ensures
        r@ == joined_path(base@, child@),
{
    let c = trim_slashes_str(child);
    proof {
        reveal_strlit("/");
    }
    if is_single_char(base, '/') {
        let mut r = String::from_str("/");
        r.append(c);
        r
    } else {
        let mut r = String::from_str(trim_end_char(base, '/'));
        r.append("/");
        r.append(c);
        r
    }
}

/// The absolute form under which a listed entry is reported to a protocol
/// client: `/` for an empty path, an absolute path as it is, and otherwise
/// the non-empty segments each after one `/`.
pub open spec fn absolute_path(raw: Seq<char>) -> Seq<char> {
    if raw.len() == 0 {
        seq!['/']
    } else if raw[0] == '/' {
        raw
    } else {
        slash_join(nonempty_segments(split_slash(raw)))
    }
}

/// Makes an entry path absolute, as a protocol client expects it.
pub fn absolute_entry_path(raw: &str) -> (r: String)
    ensures
        r@ == absolute_path(raw@),
{
    proof {
        reveal_strlit("/");
    }
    if raw.unicode_len() == 0 {
        let r = String::from_str("/");
        assert(r@ =~= seq!['/']);
        return r;
    }
    if raw.get_char(0) == '/' {
        return String::from_str(raw);
    }
    let comps = walk_path(raw, Walk::NonEmpty);
    join_slashed(&comps)
}

/// The file name of a local path, as `Path::file_name` gives it: its last
/// name once empty and `.` segments are dropped, and none when that is `..`
/// or there is no name at all.
pub open spec fn file_name(path: Seq<char>) -> Option<Seq<char>> {
    let names = walk_segments(split_slash(path), Walk::Names);
    if names.len() == 0 || names.last() == seq!['.', '.'] {
        None
    } else {
        Some(names.last())
    }
}

/// The file name of a local path.
pub fn file_name_of(path: &str) -> (r: Option<String>)
    ensures
        opt_view(r) == file_name(path@),
{
    let mut names = walk_path(path, Walk::Names);
    let n = names.len();
    if n == 0 {
        return None;
    }
    let ghost before = names@;
    let last = names.pop().unwrap();
    assert(views(before).last() == last@);
    let len = last.as_str().unicode_len();
    if len == 2 && last.as_str().get_char(0) == '.' && last.as_str().get_char(1) == '.' {
        assert(last@ =~= seq!['.', '.']);
        None
    } else {
        proof {
            if last@ == seq!['.', '.'] {
                assert(last@.len() == 2 && last@[0] == '.' && last@[1] == '.');
            }
        }
        Some(last)
    }
}

/// The non-empty pieces of `s` between slashes, in order.
pub fn nonempty_segments_of(s: &str) -> (r: Vec<String>)
    ensures
        views(r@) == nonempty_segments(split_slash(s@)),
{
    walk_path(s, Walk::NonEmpty)
}

} // verus!
