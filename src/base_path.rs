//! The API base path of a server, taken from the URL that an operator
//! pastes: the path up to the first front-end route.
use vstd::prelude::*;

use crate::paths::{nonempty_segments, nonempty_segments_of, slash_join, split_slash, trim_slashes, views};
use crate::text::{str_eq, strip_leading, trim_char, trim_start_char};

verus! {

/// The names of the front-end routes, which end the API base path.
pub open spec fn is_route(s: Seq<char>) -> bool {
    ||| s == seq!['l', 'a', 'b']
    ||| s == seq!['t', 'r', 'e', 'e']
    ||| s == seq!['n', 'o', 't', 'e', 'b', 'o', 'o', 'k', 's']
    ||| s == seq!['v', 'o', 'i', 'l', 'a']
    ||| s == seq!['r', 'e', 't', 'r', 'o']
    ||| s == seq!['c', 'o', 'n', 's', 'o', 'l', 'e']
}

/// Whether a path segment is one of the front-end routes.
pub fn is_frontend_route(segment: &str) -> (r: bool)
    ensures
        r == is_route(segment@),
{
    proof {
        reveal_strlit("lab");
        reveal_strlit("tree");
        reveal_strlit("notebooks");
        reveal_strlit("voila");
        reveal_strlit("retro");
        reveal_strlit("console");
    }
    assert("lab"@ =~= seq!['l', 'a', 'b']);
    assert("tree"@ =~= seq!['t', 'r', 'e', 'e']);
    assert("notebooks"@ =~= seq!['n', 'o', 't', 'e', 'b', 'o', 'o', 'k', 's']);
    assert("voila"@ =~= seq!['v', 'o', 'i', 'l', 'a']);
    assert("retro"@ =~= seq!['r', 'e', 't', 'r', 'o']);
    assert("console"@ =~= seq!['c', 'o', 'n', 's', 'o', 'l', 'e']);
    str_eq(segment, "lab") || str_eq(segment, "tree") || str_eq(segment, "notebooks") || str_eq(
        segment,
        "voila",
    ) || str_eq(segment, "retro") || str_eq(segment, "console")
}

/// A base path in its canonical form: `/` alone when it is empty once its
/// slashes at either end are dropped, else that text between two slashes.
pub open spec fn base_path_form(path: Seq<char>) -> Seq<char> {
    let t = trim_slashes(path);
    if t.len() == 0 {
        seq!['/']
    } else {
        seq!['/'] + t + seq!['/']
    }
}

/// Puts a base path given by hand into its canonical form.
pub fn normalize_path(path: &str) -> (r: String)
    ensures
        r@ == base_path_form(path@),
{
    proof {
        reveal_strlit("/");
    }
    let t = trim_char(path, '/');
    if t.unicode_len() == 0 {
        let r = String::from_str("/");
        assert(r@ =~= seq!['/']);
        r
    } else {
        let mut r = String::from_str("/");
        r.append(t);
        r.append("/");
        r
    }
}

/// The segments before the first front-end route.
pub open spec fn before_route(segs: Seq<Seq<char>>) -> Seq<Seq<char>>
    decreases segs.len(),
{
    if segs.len() == 0 || is_route(segs[0]) {
        Seq::empty()
    } else {
        seq![segs[0]] + before_route(segs.drop_first())
    }
}

proof fn lemma_before_route(segs: Seq<Seq<char>>, i: int)
    requires
        0 <= i <= segs.len(),
        forall|j: int| 0 <= j < i ==> !is_route(#[trigger] segs[j]),
        i == segs.len() || is_route(segs[i]),
    ensures
        before_route(segs) == segs.take(i),
    decreases i,
{
    if i > 0 {
        let rest = segs.drop_first();
        assert forall|j: int| 0 <= j < i - 1 implies !is_route(#[trigger] rest[j]) by {
            assert(rest[j] == segs[j + 1]);
        }
        lemma_before_route(rest, i - 1);
        assert(segs.take(i) =~= seq![segs[0]] + rest.take(i - 1));
    } else {
        assert(segs.take(0) =~= Seq::<Seq<char>>::empty());
    }
}

/// The API base path of a URL path: its segments up to the first front-end
/// route, between two slashes, or `/` when there is none.
pub open spec fn sanitized(path: Seq<char>) -> Seq<char> {
    let kept = before_route(nonempty_segments(split_slash(strip_leading(path, '/'))));
    if kept.len() == 0 {
        seq!['/']
    } else {
        slash_join(kept) + seq!['/']
    }
}

/// Takes the API base path from the path of a server URL.
pub fn sanitize_base_path(path: &str) -> (r: String)
    ensures
        r@ == sanitized(path@),
{
    proof {
        reveal_strlit("/");
    }
    let segs = nonempty_segments_of(trim_start_char(path, '/'));
    let ghost all = views(segs@);
    let mut r = String::new();
    let mut i: usize = 0;
    while i < segs.len()
        invariant
            i <= segs@.len(),
            all == views(segs@),
            forall|j: int| 0 <= j < i ==> !is_route(#[trigger] all[j]),
            r@ == slash_join(all.take(i as int)),
        ensures
            i == segs@.len() || is_route(all[i as int]),
        decreases segs@.len() - i,
    {
        if is_frontend_route(segs[i].as_str()) {
            break;
        }
        proof {
            reveal_strlit("/");
        }
        r.append("/");
        r.append(segs[i].as_str());
        assert(all.take(i + 1).drop_last() =~= all.take(i as int));
        assert("/"@ =~= seq!['/']);
        i = i + 1;
    }
    proof {
        lemma_before_route(all, i as int);
    }
    if i == 0 {
        let r = String::from_str("/");
        assert(r@ =~= seq!['/']);
        r
    } else {
        r.append("/");
        assert("/"@ =~= seq!['/']);
        r
    }
}

} // verus!
