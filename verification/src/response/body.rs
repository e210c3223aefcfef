//! The body of a response: nothing, or one run of bytes that is handed out
//! once.

use vstd::prelude::*;

verus! {

/// `bytes::Bytes`, a shared run of bytes.
#[verifier::external_type_specification]
#[verifier::external_body]
pub struct ExBytes(bytes::Bytes);

/// The bytes that a `bytes::Bytes` holds, in order.
pub uninterp spec fn bytes_view(bytes: bytes::Bytes) -> Seq<u8>;

/// `bytes::Bytes::len`: the number of bytes held.
pub assume_specification[ bytes::Bytes::len ](bytes: &bytes::Bytes) -> (len: usize)
    ensures
        len == bytes_view(*bytes).len(),
;

/// `bytes::Bytes::is_empty`: whether no byte is held.
pub assume_specification[ bytes::Bytes::is_empty ](bytes: &bytes::Bytes) -> (empty: bool)
    ensures
        empty == (bytes_view(*bytes).len() == 0),
;

/// `bytes::Bytes::from` for a `Vec<u8>`. Believed of it: the result holds the
/// bytes of the vector.
#[verifier::external_body]
pub(crate) fn bytes_from_vec(bytes: Vec<u8>) -> (out: bytes::Bytes)
    ensures
        bytes_view(out) == bytes@,
{
    bytes::Bytes::from(bytes)
}

/// `bytes::Bytes::from` for a `String`. Believed of it: the result holds the
/// UTF-8 bytes of the text.
#[verifier::external_body]
pub(crate) fn bytes_from_string(text: String) -> (out: bytes::Bytes)
    ensures
        bytes_view(out) == vstd::utf8::encode_utf8(text@),
{
    bytes::Bytes::from(text)
}

/// `bytes::Bytes::from` for a `&'static str`. Believed of it: the result holds
/// the UTF-8 bytes of the text.
#[verifier::external_body]
pub(crate) fn bytes_from_static(text: &'static str) -> (out: bytes::Bytes)
    ensures
        bytes_view(out) == vstd::utf8::encode_utf8(text@),
{
    bytes::Bytes::from(text)
}

#[derive(Debug)]
enum Repr {
    Empty,
    Once(bytes::Bytes),
}

/// The body of a response. It yields its bytes in one piece and is empty
/// from then on.
#[derive(Debug)]
pub struct Body {
    repr: Repr,
}

impl View for Body {
    type V = Seq<u8>;

    /// The bytes that the body has still to yield.
    closed spec fn view(&self) -> Seq<u8> {
        match self.repr {
            Repr::Empty => Seq::empty(),
            Repr::Once(bytes) => bytes_view(bytes),
        }
    }
}

impl Body {
    /// A piece that is held is never empty: an empty body is `Empty`.
    #[verifier::type_invariant]
    spec fn well_formed(&self) -> bool {
        match self.repr {
            Repr::Empty => true,
            Repr::Once(bytes) => bytes_view(bytes).len() > 0,
        }
    }

    /// The body without bytes.
    pub fn empty() -> (body: Self)
        ensures
            body@ == Seq::<u8>::empty(),
    {
        Body { repr: Repr::Empty }
    }

    /// The body that yields `bytes`.
    pub fn once(bytes: bytes::Bytes) -> (body: Self)
        ensures
            body@ == bytes_view(bytes),
    {
        if bytes.is_empty() {
            assert(bytes_view(bytes) =~= Seq::<u8>::empty());
            Body { repr: Repr::Empty }
        } else {
            Body { repr: Repr::Once(bytes) }
        }
    }

    /// Yields what is left of the body: `None` once nothing is left, else the
    /// whole of it in one piece, after which nothing is left.
    pub fn poll_data(&mut self) -> (data: Option<bytes::Bytes>)
        ensures
            final(self)@ == Seq::<u8>::empty(),
            match data {
                Some(bytes) => old(self)@.len() > 0 && bytes_view(bytes) == old(self)@,
                None => old(self)@.len() == 0,
            },
    {
        proof {
            use_type_invariant(&*self);
        }
        let mut repr = Repr::Empty;
        core::mem::swap(&mut self.repr, &mut repr);
        match repr {
            Repr::Empty => None,
            Repr::Once(bytes) => Some(bytes),
        }
    }

    /// Whether nothing is left to yield.
    pub fn is_end_stream(&self) -> (end: bool)
        ensures
            end == (self@.len() == 0),
    {
        proof {
            use_type_invariant(self);
        }
        match &self.repr {
            Repr::Empty => true,
            Repr::Once(_) => false,
        }
    }

    /// The exact number of bytes that are left to yield.
    pub fn size_hint(&self) -> (exact: u64)
        ensures
            exact == self@.len(),
    {
        match &self.repr {
            Repr::Empty => 0,
            Repr::Once(bytes) => bytes.len() as u64,
        }
    }
}

} // verus!
