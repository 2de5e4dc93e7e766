//! The path of a request URL, built from literal pieces and remote paths.
use vstd::prelude::*;

use crate::paths::{nonempty_segments, nonempty_segments_of, split_slash, trim_slashes, views};
use crate::text::trim_char;

verus! {

/// A piece of a request path: a literal segment, or a remote path whose own
/// segments are appended.
#[derive(Debug, Clone)]
pub enum Segment {
    Literal(String),
    Path { value: String, keep_trailing_slash_if_empty: bool },
}

impl Segment {
    /// A literal segment, appended as it is.
    pub fn literal(value: String) -> (r: Segment)
        ensures
            r == Segment::Literal(value),
    {
        Segment::Literal(value)
    }

    /// A remote path; nothing is appended when it is empty.
    pub fn path(value: String) -> (r: Segment)
        ensures
            r == (Segment::Path { value, keep_trailing_slash_if_empty: false }),
    {
        Segment::Path { value, keep_trailing_slash_if_empty: false }
    }

    /// A remote path; an empty one still ends the URL with `/`.
    pub fn path_allow_empty(value: String) -> (r: Segment)
        ensures
            r == (Segment::Path { value, keep_trailing_slash_if_empty: true }),
    {
        Segment::Path { value, keep_trailing_slash_if_empty: true }
    }
}

/// The URL path segments that one piece contributes: a literal as it is; a
/// path's non-empty segments once its slashes at either end are dropped, or
/// one empty segment for an empty path that keeps its trailing slash.
pub open spec fn segment_parts(s: Segment) -> Seq<Seq<char>> {
    match s {
        Segment::Literal(v) => seq![v@],
        Segment::Path { value, keep_trailing_slash_if_empty } => {
            let t = trim_slashes(value@);
            if t.len() == 0 {
                if keep_trailing_slash_if_empty {
                    seq![Seq::<char>::empty()]
                } else {
                    Seq::empty()
                }
            } else {
                nonempty_segments(split_slash(t))
            }
        },
    }
}

/// The URL path segments of all pieces, in order.
pub open spec fn url_parts(segs: Seq<Segment>) -> Seq<Seq<char>>
    decreases segs.len(),
{
    if segs.len() == 0 {
        Seq::empty()
    } else {
        url_parts(segs.drop_last()) + segment_parts(segs.last())
    }
}

/// The URL path segments to append to the base URL for a request.
pub fn url_path_parts(segments: &[Segment]) -> (r: Vec<String>)
    ensures
        views(r@) == url_parts(segments@),
{
    let mut out: Vec<String> = Vec::new();
    let mut i: usize = 0;
    assert(segments@.take(0) =~= Seq::<Segment>::empty());
    while i < segments.len()
        invariant
            i <= segments@.len(),
            views(out@) == url_parts(segments@.take(i as int)),
        decreases segments@.len() - i,
    {
        let ghost before = out@;
        match &segments[i] {
            Segment::Literal(v) => {
                out.push(v.clone());
                assert(views(out@) =~= views(before) + seq![v@]);
            },
            Segment::Path { value, keep_trailing_slash_if_empty } => {
                let t = trim_char(value.as_str(), '/');
                if t.unicode_len() == 0 {
                    if *keep_trailing_slash_if_empty {
                        out.push(String::new());
                        assert(views(out@) =~= views(before) + seq![Seq::<char>::empty()]);
                    } else {
                        assert(views(out@) =~= views(before) + Seq::<Seq<char>>::empty());
                    }
                } else {
                    let mut parts = nonempty_segments_of(t);
                    let ghost added = parts@;
                    out.append(&mut parts);
                    assert(views(out@) =~= views(before) + views(added));
                }
            },
        }
        assert(segments@.take(i + 1).drop_last() =~= segments@.take(i as int));
        i = i + 1;
    }
    assert(segments@.take(segments@.len() as int) =~= segments@);
    out
}

} // verus!
