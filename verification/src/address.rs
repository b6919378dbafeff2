//! Addresses, fixed-size hashes and byte strings: the plain values that the
//! payment contracts store and compare.
use std::sync::Arc;
use vstd::prelude::*;

verus! {

/// Number of characters in the text form of an address.
pub const ADDRESS_LEN: usize = 56;

/// A key under which a table can store a record.
pub trait Key: Copy {
    /// Whether two keys are the same key.
    fn same(&self, other: &Self) -> (r: bool)
        ensures
            r == (*self == *other),
    ;
}

/// An account or contract address, held in its 56-character text form.
#[derive(Clone, Copy, Debug)]
pub struct Address {
    pub text: [u8; 56],
}

impl View for Address {
    type V = Seq<u8>;

    open spec fn view(&self) -> Seq<u8> {
        self.text@
    }
}

impl Address {
    /// The address with the given text form.
    pub fn from_text(text: [u8; 56]) -> (r: Address)
        ensures
            r.text == text,
    {
        Address { text }
    }
}

impl PartialEq for Address {
    fn eq(&self, other: &Address) -> (r: bool) {
        let mut i: usize = 0;
        while i < ADDRESS_LEN
            invariant
                i <= ADDRESS_LEN,
                forall|j: int| 0 <= j < i ==> self.text[j] == other.text[j],
            decreases ADDRESS_LEN - i,
        {
            if self.text[i] != other.text[i] {
                return false;
            }
            i = i + 1;
        }
        assert(self.text =~= other.text);
        true
    }
}

impl vstd::std_specs::cmp::PartialEqSpecImpl for Address {
    open spec fn obeys_eq_spec() -> bool {
        true
    }

    open spec fn eq_spec(&self, other: &Address) -> bool {
        *self == *other
    }
}

impl Eq for Address {

}

impl Key for Address {
    fn same(&self, other: &Address) -> (r: bool) {
        *self == *other
    }
}

impl Key for u64 {
    fn same(&self, other: &u64) -> (r: bool) {
        *self == *other
    }
}

impl Key for u32 {
    fn same(&self, other: &u32) -> (r: bool) {
        *self == *other
    }
}

/// A byte string of a fixed length.
#[derive(Clone, Copy, Debug)]
pub struct BytesN<const N: usize> {
    pub bytes: [u8; N],
}

impl<const N: usize> View for BytesN<N> {
    type V = Seq<u8>;

    open spec fn view(&self) -> Seq<u8> {
        self.bytes@
    }
}

impl<const N: usize> BytesN<N> {
    /// The byte string made of the given bytes.
    pub fn from_array(bytes: [u8; N]) -> (r: BytesN<N>)
        ensures
            r.bytes == bytes,
    {
        BytesN { bytes }
    }
}

impl<const N: usize> PartialEq for BytesN<N> {
    fn eq(&self, other: &BytesN<N>) -> (r: bool) {
        let mut i: usize = 0;
        while i < N
            invariant
                i <= N,
                forall|j: int| 0 <= j < i ==> self.bytes[j] == other.bytes[j],
            decreases N - i,
        {
            if self.bytes[i] != other.bytes[i] {
                return false;
            }
            i = i + 1;
        }
        assert(self.bytes =~= other.bytes);
        true
    }
}

impl<const N: usize> vstd::std_specs::cmp::PartialEqSpecImpl for BytesN<N> {
    open spec fn obeys_eq_spec() -> bool {
        true
    }

    open spec fn eq_spec(&self, other: &BytesN<N>) -> bool {
        *self == *other
    }
}

impl<const N: usize> Eq for BytesN<N> {

}

impl<const N: usize> Key for BytesN<N> {
    fn same(&self, other: &BytesN<N>) -> (r: bool) {
        *self == *other
    }
}

/// A byte string of any length, cheap to copy.
#[derive(Debug)]
pub struct Bytes {
    data: Option<Arc<Vec<u8>>>,
}

impl View for Bytes {
    type V = Seq<u8>;

    closed spec fn view(&self) -> Seq<u8> {
        match self.data {
            Some(d) => d@,
            None => Seq::empty(),
        }
    }
}

impl Bytes {
    /// The byte string of length zero.
    pub closed spec fn empty() -> Bytes {
        Bytes { data: None }
    }

    /// The empty byte string.
    pub fn new() -> (r: Bytes)
        ensures
            r == Bytes::empty(),
            r@ == Seq::<u8>::empty(),
    {
        Bytes { data: None }
    }

    /// The byte string that holds the given bytes.
    pub fn from_vec(bytes: Vec<u8>) -> (r: Bytes)
        ensures
            r@ == bytes@,
    {
        Bytes { data: Some(Arc::new(bytes)) }
    }

    /// The bytes, copied out.
    pub fn to_vec(&self) -> (r: Vec<u8>)
        ensures
            r@ == self@,
    {
        let mut out: Vec<u8> = Vec::new();
        match &self.data {
            Some(d) => {
                let mut i: usize = 0;
                while i < d.len()
                    invariant
                        i <= d@.len(),
                        out@ == d@.take(i as int),
                    decreases d@.len() - i,
                {
                    out.push(d[i]);
                    i = i + 1;
                    assert(out@ =~= d@.take(i as int));
                }
                assert(d@.take(d@.len() as int) =~= d@);
            },
            None => {},
        }
        out
    }

    /// A second handle on the same bytes.
    pub fn share(&self) -> (r: Bytes)
        ensures
            r == *self,
    {
        match &self.data {
            Some(d) => Bytes { data: Some(d.clone()) },
            None => Bytes { data: None },
        }
    }
}

} // verus!
