//! The two ways a byte array is held: borrowed or owned.

use crate::wire::{lemma_prefix_bits, length_prefix};
use vstd::prelude::*;
use vstd::std_specs::cmp::{PartialEqSpec, PartialEqSpecImpl};

verus! {

/// The bytes of an array, either borrowed from a buffer that lives
/// elsewhere or held in a buffer of its own.
///
/// Nothing bounds the length here; [`crate::B016M`] does.
#[derive(Debug)]
pub enum Inner<'a> {
    /// A view into bytes owned elsewhere. Nothing is copied.
    Ref(&'a [u8]),
    /// A buffer that belongs to this value.
    Owned(Vec<u8>),
}

impl<'a> View for Inner<'a> {
    type V = Seq<u8>;

    /// The bytes held, whichever way they are held.
    open spec fn view(&self) -> Seq<u8> {
        match self {
            Inner::Ref(v) => v@,
            Inner::Owned(v) => v@,
        }
    }
}

impl<'a> Inner<'a> {
    /// The length prefix of these bytes: the low three bytes of their
    /// count, least significant first.
    #[inline]
    pub fn len(&self) -> (prefix: [u8; 3])
        ensures
            prefix@ == length_prefix(self@.len()),
    {
        let n: usize = match self {
            Self::Ref(v) => v.len(),
            Self::Owned(v) => v.len(),
        };
        let l0: u8 = (n & 0xff) as u8;
        let l1: u8 = ((n >> 8) & 0xff) as u8;
        let l2: u8 = ((n >> 16) & 0xff) as u8;
        let prefix = [l0, l1, l2];
        proof {
            lemma_prefix_bits(n);
            assert(prefix@ =~= length_prefix(n as nat));
        }
        prefix
    }

    /// The bytes themselves, borrowed from wherever they are held.
    #[inline]
    pub fn as_ref(&'a self) -> (bytes: &'a [u8])
        ensures
            bytes@ == self@,
    {
        match self {
            Self::Ref(v) => v,
            Self::Owned(v) => v.as_slice(),
        }
    }
}

/// Whether two slices hold the same bytes.
pub(crate) fn same_bytes(a: &[u8], b: &[u8]) -> (same: bool)
    ensures
        same <==> a@ == b@,
{
    if a.len() != b.len() {
        return false;
    }
    let mut i: usize = 0;
    while i < a.len()
        invariant
            a@.len() == b@.len(),
            i <= a@.len(),
            forall|j: int| 0 <= j < i ==> a@[j] == b@[j],
        decreases a@.len() - i,
    {
        if a[i] != b[i] {
            return false;
        }
        i += 1;
    }
    assert(a@ =~= b@);
    true
}

impl<'a> PartialEq for Inner<'a> {
    /// Two values are equal when they hold the same bytes, borrowed or
    /// owned.
    fn eq(&self, other: &Self) -> (equal: bool) {
        same_bytes(self.as_ref(), other.as_ref())
    }
}

impl<'a> PartialEqSpecImpl for Inner<'a> {
    open spec fn obeys_eq_spec() -> bool {
        true
    }

    open spec fn eq_spec(&self, other: &Self) -> bool {
        self@ == other@
    }
}

/// A borrowed and an owned value over the same bytes are equal.
pub proof fn lemma_ref_equals_owned(borrowed: &[u8], owned: Vec<u8>)
    requires
        borrowed@ == owned@,
    ensures
        PartialEqSpec::eq_spec(&Inner::Ref(borrowed), &Inner::Owned(owned)),
        PartialEqSpec::eq_spec(&Inner::Owned(owned), &Inner::Ref(borrowed)),
{
}

} // verus!
