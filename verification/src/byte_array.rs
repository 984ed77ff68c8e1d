//! The byte array itself: construction, framing, parsing.

use crate::error::Error;
use crate::inner::Inner;
use crate::wire::{frame, has_frame, parse, MAX_LEN, PREFIX_LEN};
use vstd::prelude::*;
use vstd::std_specs::cmp::{PartialEqSpec, PartialEqSpecImpl};
use vstd::std_specs::convert::TryFromSpecImpl;

verus! {

/// A byte array of at most [`MAX_LEN`] bytes, borrowed or owned.
///
/// A value is made from a slice or a vector with `try_from`, or read off
/// the front of a buffer with [`B016M::deserialize`]; each checks the
/// length, and nothing changes a value afterwards.
#[derive(Debug)]
pub struct B016M<'b>(Inner<'b>);

impl<'b> View for B016M<'b> {
    type V = Seq<u8>;

    /// The payload.
    open spec fn view(&self) -> Seq<u8> {
        self.spec_inner()@
    }
}

impl<'b> B016M<'b> {
    /// Every value has a length that the prefix can declare.
    #[verifier::type_invariant]
    spec fn fits_prefix(&self) -> bool {
        self.0@.len() <= MAX_LEN
    }

    /// How the payload is held.
    pub closed spec fn spec_inner(&self) -> Inner<'b> {
        self.0
    }

    /// How the payload is held: a view into another buffer, or a buffer
    /// of this value's own. The payload is never longer than [`MAX_LEN`].
    pub fn inner(&self) -> (inner: &Inner<'b>)
        ensures
            *inner == self.spec_inner(),
            inner@.len() <= MAX_LEN,
    {
        proof {
            use_type_invariant(self);
        }
        &self.0
    }

    /// The number of bytes of this value's frame: three more than its
    /// payload.
    pub fn get_len(&self) -> (n: usize)
        ensures
            n == self@.len() + 3,
            n == frame(self@).len(),
    {
        proof {
            use_type_invariant(self);
        }
        match &self.0 {
            Inner::Ref(v) => v.len() + PREFIX_LEN,
            Inner::Owned(v) => v.len() + PREFIX_LEN,
        }
    }

    /// Appends this value's frame to `writer`: the three-byte prefix, then
    /// the payload. What `writer` held before stays in front.
    #[inline]
    pub fn serialize(&self, writer: &mut Vec<u8>)
        ensures
            final(writer)@ == old(writer)@ + frame(self@),
            final(writer)@.len() == old(writer)@.len() + self@.len() + 3,
    {
        let len = self.0.len();
        let inner = self.0.as_ref();
        writer.push(len[0]);
        writer.push(len[1]);
        writer.push(len[2]);
        writer.extend_from_slice(inner);
        assert(writer@ =~= old(writer)@ + frame(self@));
    }

    /// Reads one frame off the front of `input`, the bytes that a reader
    /// has not consumed yet.
    ///
    /// Where `input` begins with a whole frame, the result is its payload,
    /// as a view into `input`, and the bytes that follow the frame, from
    /// which the reader goes on. Otherwise, the input being shorter than a
    /// prefix or than the payload its prefix declares, the result is
    /// [`Error::InsufficientData`] and nothing was consumed: the caller
    /// still holds `input`.
    ///
    /// A prefix cannot declare more than [`MAX_LEN`] bytes, so a payload
    /// that was read needs no further check of its length.
    #[inline]
    pub fn deserialize(input: &'b [u8]) -> (parsed: Result<(B016M<'b>, &'b [u8]), Error>)
        ensures
            has_frame(input@) <==> parsed is Ok,
            parsed matches Ok((value, rest)) ==> {
                &&& parse(input@) == Some((value@, rest@))
                &&& value.spec_inner() is Ref
            },
            parsed matches Err(e) ==> e == Error::InsufficientData,
    {
        if input.len() < PREFIX_LEN {
            return Err(Error::InsufficientData);
        }
        let l0: usize = input[0] as usize;
        let l1: usize = input[1] as usize;
        let l2: usize = input[2] as usize;
        let declared: usize = l0 + 256 * l1 + 65_536 * l2;
        if input.len() - PREFIX_LEN < declared {
            return Err(Error::InsufficientData);
        }
        let end: usize = PREFIX_LEN + declared;
        let payload = &input[PREFIX_LEN..end];
        let rest = &input[end..input.len()];
        Ok((B016M(Inner::Ref(payload)), rest))
    }
}

impl<'b> TryFrom<&'b [u8]> for B016M<'b> {
    type Error = Error;

    /// A view of `v`, where `v` is at most [`MAX_LEN`] bytes long.
    #[inline]
    fn try_from(v: &'b [u8]) -> (made: Result<Self, Error>)
        ensures
            v@.len() <= MAX_LEN ==> made is Ok && made->Ok_0.spec_inner() == Inner::Ref(v),
            v@.len() > MAX_LEN ==> made is Err && made->Err_0 == Error::LengthExceeded,
    {
        if v.len() <= MAX_LEN {
            Ok(Self(Inner::Ref(v)))
        } else {
            Err(Error::LengthExceeded)
        }
    }
}

impl<'b> TryFromSpecImpl<&'b [u8]> for B016M<'b> {
    open spec fn obeys_try_from_spec() -> bool {
        true
    }

    closed spec fn try_from_spec(v: &'b [u8]) -> Result<Self, Error> {
        if v@.len() <= MAX_LEN {
            Ok(B016M(Inner::Ref(v)))
        } else {
            Err(Error::LengthExceeded)
        }
    }
}

impl<'b> TryFrom<Vec<u8>> for B016M<'b> {
    type Error = Error;

    /// Takes `v` over, where `v` is at most [`MAX_LEN`] bytes long, and
    /// drops it otherwise.
    fn try_from(v: Vec<u8>) -> (made: Result<Self, Error>)
        ensures
            v@.len() <= MAX_LEN ==> made is Ok && made->Ok_0.spec_inner() == Inner::Owned(v),
            v@.len() > MAX_LEN ==> made is Err && made->Err_0 == Error::LengthExceeded,
    {
        if v.len() <= MAX_LEN {
            Ok(Self(Inner::Owned(v)))
        } else {
            Err(Error::LengthExceeded)
        }
    }
}

impl<'b> TryFromSpecImpl<Vec<u8>> for B016M<'b> {
    open spec fn obeys_try_from_spec() -> bool {
        true
    }

    closed spec fn try_from_spec(v: Vec<u8>) -> Result<Self, Error> {
        if v@.len() <= MAX_LEN {
            Ok(B016M(Inner::Owned(v)))
        } else {
            Err(Error::LengthExceeded)
        }
    }
}

impl<'b> PartialEq for B016M<'b> {
    /// Two byte arrays are equal when their payloads are, whether borrowed
    /// or owned.
    fn eq(&self, other: &Self) -> (equal: bool) {
        self.0 == other.0
    }
}

impl<'b> PartialEqSpecImpl for B016M<'b> {
    open spec fn obeys_eq_spec() -> bool {
        true
    }

    open spec fn eq_spec(&self, other: &Self) -> bool {
        self@ == other@
    }
}

/// Equality looks at the payload alone: two byte arrays are equal exactly
/// when they hold the same bytes.
pub proof fn lemma_eq_by_payload(a: B016M, b: B016M)
    ensures
        PartialEqSpec::eq_spec(&a, &b) <==> a@ == b@,
{
}

/// A borrowed and an owned byte array over the same bytes are equal,
/// whichever stands on the left.
pub proof fn lemma_borrowed_equals_owned(borrowed: B016M, owned: B016M)
    requires
        borrowed.spec_inner() is Ref,
        owned.spec_inner() is Owned,
        borrowed@ == owned@,
    ensures
        PartialEqSpec::eq_spec(&borrowed, &owned),
        PartialEqSpec::eq_spec(&owned, &borrowed),
{
}

} // verus!
