//! The grammar of a route: a path of segments between slashes, in which a
//! segment in braces stands for a parameter.

use vstd::prelude::*;
use vstd::slice::slice_subrange;
use vstd::slice::slice_to_vec;

use crate::path::find_byte;
use crate::path::first_index;
use crate::path::split;
use crate::path::split_spec;
use crate::path::views;
use crate::path::SLASH;

verus! {

/// The byte `?`, which starts a query.
pub const QUESTION: u8 = 63;

/// The byte `#`, which starts a fragment.
pub const HASH: u8 = 35;

/// The byte `{`.
pub const OPEN: u8 = 123;

/// The byte `}`.
pub const CLOSE: u8 = 125;

/// `s` up to its first `b`, or all of it if it holds none.
pub open spec fn cut_at(s: Seq<u8>, b: u8) -> Seq<u8> {
    s.take(first_index(s, b))
}

/// Whether `s` holds a `b`.
pub open spec fn holds(s: Seq<u8>, b: u8) -> bool {
    first_index(s, b) < s.len()
}

/// Cuts `s` at its first `b`, and says whether there was one.
pub fn cut(s: &[u8], b: u8) -> (kept: (&[u8], bool))
    ensures
        kept.0@ == cut_at(s@, b),
        kept.1 == holds(s@, b),
{
    match find_byte(s, b) {
        Some(i) => (slice_subrange(s, 0, i), true),
        None => {
            assert(s@.take(s@.len() as int) =~= s@);
            (s, false)
        },
    }
}

/// What the text of a route holds that a route may not hold.
#[derive(Debug, Clone, Copy, PartialEq, Eq, Structural)]
pub struct Flaws {
    /// A query, from the first `?` on.
    pub query: bool,
    /// A fragment, from the first `#` on.
    pub fragment: bool,
    /// No `/` at the start.
    pub no_slash: bool,
}

/// The text of a route without its query and its fragment.
pub open spec fn bare(text: Seq<u8>) -> Seq<u8> {
    cut_at(cut_at(text, QUESTION), HASH)
}

/// What the text of a route holds that a route may not hold.
pub open spec fn flaws_of(text: Seq<u8>) -> Flaws {
    Flaws {
        query: holds(text, QUESTION),
        fragment: holds(cut_at(text, QUESTION), HASH),
        no_slash: !(bare(text).len() > 0 && bare(text)[0] == SLASH),
    }
}

/// The segments of a route: its text without query and fragment, and
/// without the `/` at its start if it has one, split at every `/`.
pub open spec fn route_segments_spec(text: Seq<u8>) -> Seq<Seq<u8>> {
    if flaws_of(text).no_slash {
        split_spec(bare(text), SLASH)
    } else {
        split_spec(bare(text).drop_first(), SLASH)
    }
}

/// Takes the text of a route apart into its segments, and notes its flaws.
/// A flaw does not stop the reading: a query and a fragment are left out,
/// and a text without `/` at its start is read as if it had one.
pub fn route_segments(text: &[u8]) -> (read: (Vec<Vec<u8>>, Flaws))
    ensures
        views(read.0@) == route_segments_spec(text@),
        read.1 == flaws_of(text@),
{
    let (without_query, query) = cut(text, QUESTION);
    let (bare, fragment) = cut(without_query, HASH);
    if bare.len() > 0 && bare[0] == SLASH {
        let rest = slice_subrange(bare, 1, bare.len());
        assert(rest@ =~= bare@.drop_first());
        (split(rest, SLASH), Flaws { query, fragment, no_slash: false })
    } else {
        (split(bare, SLASH), Flaws { query, fragment, no_slash: true })
    }
}

/// Whether a segment stands for a parameter: it starts with `{` and ends
/// with a `}` that is not the same byte.
pub open spec fn is_param_segment(segment: Seq<u8>) -> bool {
    segment.len() >= 2 && segment[0] == OPEN && segment.last() == CLOSE
}

/// The name of the parameter that a segment in braces stands for.
pub open spec fn param_name(segment: Seq<u8>) -> Seq<u8> {
    segment.subrange(1, segment.len() - 1)
}

/// The name of the parameter that `segment` stands for, if it stands for
/// one.
pub fn param_of(segment: &[u8]) -> (name: Option<Vec<u8>>)
    ensures
        match name {
            Some(n) => is_param_segment(segment@) && n@ == param_name(segment@),
            None => !is_param_segment(segment@),
        },
{
    let len = segment.len();
    if len >= 2 && segment[0] == OPEN && segment[len - 1] == CLOSE {
        Some(slice_to_vec(slice_subrange(segment, 1, len - 1)))
    } else {
        None
    }
}

/// What a segment of a route asks of the segment of a path at its place:
/// `None` where it stands for a parameter, else the literal to spell out.
pub open spec fn segment_pattern(segment: Seq<u8>) -> Option<Seq<u8>> {
    if is_param_segment(segment) {
        None
    } else {
        Some(segment)
    }
}

/// The pattern of a path as mathematics.
pub open spec fn pattern_view(pattern: Seq<Option<Vec<u8>>>) -> Seq<Option<Seq<u8>>> {
    pattern.map_values(
        |segment: Option<Vec<u8>>|
            match segment {
                Some(literal) => Some(literal@),
                None => None,
            },
    )
}

/// The pattern that the segments of a route make.
pub open spec fn pattern_spec(segments: Seq<Seq<u8>>) -> Seq<Option<Seq<u8>>> {
    segments.map_values(|segment: Seq<u8>| segment_pattern(segment))
}

/// Makes the pattern of a route from its segments.
pub fn pattern_of(segments: &Vec<Vec<u8>>) -> (pattern: Vec<Option<Vec<u8>>>)
    ensures
        pattern_view(pattern@) == pattern_spec(views(segments@)),
{
    let mut pattern: Vec<Option<Vec<u8>>> = Vec::new();
    let mut i: usize = 0;
    while i < segments.len()
        invariant
            i <= segments.len(),
            pattern@.len() == i,
            forall|j: int|
                0 <= j < i ==> (#[trigger] pattern_view(pattern@)[j]) == segment_pattern(
                    segments@[j]@,
                ),
        decreases segments.len() - i,
    {
        let ghost before = pattern@;
        match param_of(segments[i].as_slice()) {
            Some(_) => {
                pattern.push(None);
            },
            None => {
                pattern.push(Some(segments[i].clone()));
            },
        }
        proof {
            assert forall|j: int| 0 <= j < i + 1 implies (#[trigger] pattern_view(pattern@)[j])
                == segment_pattern(segments@[j]@) by {
                if j < i {
                    assert(pattern_view(pattern@)[j] == pattern_view(before)[j]);
                }
            }
        }
        i = i + 1;
    }
    assert(pattern_view(pattern@) =~= pattern_spec(views(segments@)));
    pattern
}

/// The literal segments of a route, each after a `/`: the path that the
/// route has when its parameters are left out.
pub open spec fn literal_path_spec(segments: Seq<Seq<u8>>) -> Seq<u8>
    decreases segments.len(),
{
    if segments.len() == 0 {
        Seq::empty()
    } else if is_param_segment(segments.last()) {
        literal_path_spec(segments.drop_last())
    } else {
        literal_path_spec(segments.drop_last()) + seq![SLASH] + segments.last()
    }
}

/// Puts the literal segments of a route together, each after a `/`.
pub fn literal_path(segments: &Vec<Vec<u8>>) -> (path: Vec<u8>)
    ensures
        path@ == literal_path_spec(views(segments@)),
{
    let mut path: Vec<u8> = Vec::new();
    let mut i: usize = 0;
    let ghost segs = views(segments@);
    assert(segs.take(0) =~= Seq::<Seq<u8>>::empty());
    while i < segments.len()
        invariant
            i <= segments.len(),
            segs == views(segments@),
            path@ == literal_path_spec(segs.take(i as int)),
        decreases segments.len() - i,
    {
        proof {
            assert(segs.take(i + 1).drop_last() =~= segs.take(i as int));
            assert(segs.take(i + 1).last() == segments@[i as int]@);
        }
        match param_of(segments[i].as_slice()) {
            Some(_) => {},
            None => {
                let ghost before = path@;
                path.push(SLASH);
                path.extend_from_slice(segments[i].as_slice());
                assert(path@ =~= before + seq![SLASH] + segments@[i as int]@);
            },
        }
        i = i + 1;
    }
    assert(segs.take(i as int) =~= segs);
    path
}

/// Whether `http` takes these bytes for a URI.
pub uninterp spec fn uri_parses(text: Seq<u8>) -> bool;

/// `http::Uri::try_from` on bytes: whether they are a URI.
#[verifier::external_body]
pub(crate) fn is_uri(text: &[u8]) -> (valid: bool)
    ensures
        valid == uri_parses(text@),
{
    http::Uri::try_from(text).is_ok()
}

} // verus!
