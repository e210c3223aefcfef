//! Paths as bytes: finding a byte, cutting at it, and splitting at every `/`.

use vstd::prelude::*;
use vstd::slice::slice_subrange;
use vstd::slice::slice_to_vec;

verus! {

/// The byte `/`.
pub const SLASH: u8 = 47;

/// The index of the first `b` in `s`, or the length of `s` if it holds none.
pub open spec fn first_index(s: Seq<u8>, b: u8) -> int
    decreases s.len(),
{
    if s.len() == 0 || s[0] == b {
        0
    } else {
        1 + first_index(s.drop_first(), b)
    }
}

/// `first_index` is within bounds, nothing before it is `b`, and where it is
/// inside `s` it points at a `b`.
pub proof fn lemma_first_index(s: Seq<u8>, b: u8)
    ensures
        0 <= first_index(s, b) <= s.len(),
        forall|j: int| 0 <= j < first_index(s, b) ==> s[j] != b,
        first_index(s, b) < s.len() ==> s[first_index(s, b)] == b,
    decreases s.len(),
{
    if s.len() == 0 || s[0] == b {
    } else {
        let rest = s.drop_first();
        lemma_first_index(rest, b);
        assert forall|j: int| 0 <= j < first_index(s, b) implies s[j] != b by {
            if j > 0 {
                assert(s[j] == rest[j - 1]);
            }
        }
        if first_index(s, b) < s.len() {
            assert(s[first_index(s, b)] == rest[first_index(rest, b)]);
        }
    }
}

/// An index with the three properties of `first_index` is `first_index`.
pub proof fn lemma_first_index_unique(s: Seq<u8>, b: u8, i: int)
    requires
        0 <= i <= s.len(),
        forall|j: int| 0 <= j < i ==> s[j] != b,
        i < s.len() ==> s[i] == b,
    ensures
        first_index(s, b) == i,
{
    lemma_first_index(s, b);
    let k = first_index(s, b);
    if k < i {
        assert(s[k] != b);
    } else if i < k {
        assert(s[i] != b);
    }
}

/// Finds the first `b` in `s`.
pub fn find_byte(s: &[u8], b: u8) -> (found: Option<usize>)
    ensures
        match found {
            Some(i) => i < s.len() && first_index(s@, b) == i,
            None => first_index(s@, b) == s.len(),
        },
{
    let mut i: usize = 0;
    while i < s.len()
        invariant
            i <= s.len(),
            forall|j: int| 0 <= j < i ==> s@[j] != b,
        decreases s.len() - i,
    {
        if s[i] == b {
            proof {
                lemma_first_index_unique(s@, b, i as int);
            }
            return Some(i);
        }
        i = i + 1;
    }
    proof {
        lemma_first_index_unique(s@, b, i as int);
    }
    None
}

/// The pieces of `s` between its separators `sep`, in order. There is one
/// piece more than there are separators: the empty sequence has one empty
/// piece, and a separator at either end gives an empty piece there.
pub open spec fn split_spec(s: Seq<u8>, sep: u8) -> Seq<Seq<u8>>
    decreases s.len(),
{
    let i = first_index(s, sep);
    if 0 <= i < s.len() {
        seq![s.take(i)] + split_spec(s.skip(i + 1), sep)
    } else {
        seq![s]
    }
}

/// `pieces` put together again, with `sep` between neighbours.
pub open spec fn join_spec(pieces: Seq<Seq<u8>>, sep: u8) -> Seq<u8>
    decreases pieces.len(),
{
    if pieces.len() == 0 {
        Seq::empty()
    } else if pieces.len() == 1 {
        pieces[0]
    } else {
        pieces[0] + seq![sep] + join_spec(pieces.drop_first(), sep)
    }
}

/// Splitting loses nothing: the pieces of `s`, joined, are `s`; there is at
/// least one piece; and no piece holds the separator.
pub proof fn lemma_split_join(s: Seq<u8>, sep: u8)
    ensures
        split_spec(s, sep).len() >= 1,
        join_spec(split_spec(s, sep), sep) == s,
        forall|k: int, j: int|
            0 <= k < split_spec(s, sep).len() && 0 <= j < split_spec(s, sep)[k].len()
                ==> #[trigger] split_spec(s, sep)[k][j] != sep,
    decreases s.len(),
{
    lemma_first_index(s, sep);
    let i = first_index(s, sep);
    let pieces = split_spec(s, sep);
    if 0 <= i < s.len() {
        let rest = split_spec(s.skip(i + 1), sep);
        lemma_split_join(s.skip(i + 1), sep);
        assert(pieces.drop_first() =~= rest);
        assert(pieces[0] == s.take(i));
        assert(s.take(i) + seq![sep] + s.skip(i + 1) =~= s);
        assert forall|k: int, j: int|
            0 <= k < pieces.len() && 0 <= j < pieces[k].len() implies #[trigger] pieces[k][j]
            != sep by {
            if k == 0 {
                assert(pieces[0][j] == s[j]);
            } else {
                assert(pieces[k] == rest[k - 1]);
            }
        }
    } else {
        assert forall|k: int, j: int|
            0 <= k < pieces.len() && 0 <= j < pieces[k].len() implies #[trigger] pieces[k][j]
            != sep by {
            assert(pieces[k][j] == s[j]);
        }
    }
}

/// The sequences that the vectors of `pieces` hold.
pub open spec fn views(pieces: Seq<Vec<u8>>) -> Seq<Seq<u8>> {
    pieces.map_values(|piece: Vec<u8>| piece@)
}

/// Splits `s` at every `sep`.
pub fn split(s: &[u8], sep: u8) -> (pieces: Vec<Vec<u8>>)
    ensures
        views(pieces@) == split_spec(s@, sep),
{
    let mut pieces: Vec<Vec<u8>> = Vec::new();
    let mut start: usize = 0;
    let mut i: usize = 0;
    assert(s@.skip(0) =~= s@);
    assert(views(pieces@) =~= Seq::<Seq<u8>>::empty());
    while i < s.len()
        invariant
            start <= i <= s.len(),
            forall|j: int| start <= j < i ==> s@[j] != sep,
            split_spec(s@, sep) == views(pieces@) + split_spec(s@.skip(start as int), sep),
        decreases s.len() - i,
    {
        if s[i] == sep {
            let piece = slice_to_vec(slice_subrange(s, start, i));
            proof {
                let tail = s@.skip(start as int);
                let k = i - start;
                assert forall|j: int| 0 <= j < k implies tail[j] != sep by {
                    assert(tail[j] == s@[start + j]);
                }
                assert(tail[k] == s@[i as int]);
                lemma_first_index_unique(tail, sep, k);
                assert(tail.take(k) =~= s@.subrange(start as int, i as int));
                assert(tail.skip(k + 1) =~= s@.skip(i + 1));
                assert(views(pieces@.push(piece)) =~= views(pieces@).push(piece@));
                assert(views(pieces@).push(piece@) + split_spec(s@.skip(i + 1), sep) =~= views(
                    pieces@,
                ) + (seq![piece@] + split_spec(s@.skip(i + 1), sep)));
            }
            pieces.push(piece);
            start = i + 1;
        }
        i = i + 1;
    }
    let piece = slice_to_vec(slice_subrange(s, start, s.len()));
    proof {
        let tail = s@.skip(start as int);
        assert forall|j: int| 0 <= j < tail.len() implies tail[j] != sep by {
            assert(tail[j] == s@[start + j]);
        }
        lemma_first_index_unique(tail, sep, tail.len() as int);
        assert(tail =~= s@.subrange(start as int, s.len() as int));
        assert(views(pieces@.push(piece)) =~= views(pieces@).push(piece@));
        assert(views(pieces@).push(piece@) =~= views(pieces@) + seq![piece@]);
    }
    pieces.push(piece);
    pieces
}

/// Whether two runs of bytes are the same.
pub fn bytes_eq(a: &[u8], b: &[u8]) -> (same: bool)
    ensures
        same == (a@ == b@),
{
    if a.len() != b.len() {
        return false;
    }
    let mut i: usize = 0;
    while i < a.len()
        invariant
            i <= a.len(),
            a.len() == b.len(),
            forall|j: int| 0 <= j < i ==> a@[j] == b@[j],
        decreases a.len() - i,
    {
        if a[i] != b[i] {
            return false;
        }
        i = i + 1;
    }
    assert(a@ =~= b@);
    true
}

/// Whether two texts are the same.
pub fn str_eq(a: &str, b: &str) -> (same: bool)
    ensures
        same == (a@ == b@),
{
    proof {
        vstd::utf8::encode_utf8_decode_utf8(a@);
        vstd::utf8::encode_utf8_decode_utf8(b@);
    }
    bytes_eq(a.as_bytes(), b.as_bytes())
}

} // verus!
