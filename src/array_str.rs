use vstd::prelude::*;
use vstd::string::StringSliceAdditionalSpecFns;
use vstd::utf8::{encode_utf8_valid_utf8, valid_utf8, valid_utf8_concat};

use crate::array_vec::ArrayVec;

verus! {

/// UTF-8 text of at most `CAPACITY` bytes.
pub struct ArrayStr<const CAPACITY: usize> {
    bytes: ArrayVec<CAPACITY, u8>,
}

impl<const CAPACITY: usize> View for ArrayStr<CAPACITY> {
    type V = Seq<u8>;

    /// The text's bytes.
    closed spec fn view(&self) -> Seq<u8> {
        self.bytes@
    }
}

impl<const CAPACITY: usize> ArrayStr<CAPACITY> {
    /// The bytes fit the capacity and are valid UTF-8.
    pub closed spec fn wf(&self) -> bool {
        &&& self.bytes.wf()
        &&& self.bytes@.len() <= CAPACITY
        &&& valid_utf8(self.bytes@)
    }

    /// A well-formed text holds at most `CAPACITY` bytes, and they are
    /// valid UTF-8.
    pub proof fn lemma_bounded(&self)
        requires
            self.wf(),
        ensures
            self@.len() <= CAPACITY,
            valid_utf8(self@),
    {
    }

    pub fn new() -> (r: Self)
        ensures
            r.wf(),
            valid_utf8(r@),
            r@ == Seq::<u8>::empty(),
    {
        let r = ArrayStr { bytes: ArrayVec::new() };
        assert(valid_utf8(Seq::<u8>::empty()));
        r
    }

    /// Length in bytes.
    pub fn len(&self) -> (r: usize)
        requires
            self.wf(),
        ensures
            r == self@.len(),
    {
        self.bytes.len()
    }

    /// Appends all of `s`, or nothing when it does not fit.
    pub fn push_str(&mut self, s: &str) -> (r: Result<(), ()>)
        requires
            old(self).wf(),
        ensures
            final(self).wf(),
            valid_utf8(final(self)@),
            old(self)@.len() + s.spec_bytes().len() <= CAPACITY ==> r is Ok && final(self)@ == old(
                self,
            )@ + s.spec_bytes(),
            old(self)@.len() + s.spec_bytes().len() > CAPACITY ==> r is Err && final(self)@ == old(
                self,
            )@,
    {
        let ghost before = self.bytes@;
        let bytes = s.as_bytes();
        let r = self.bytes.extend_from_slice(bytes);
        proof {
            if r is Ok {
                assert(self.bytes@ =~= before + s.spec_bytes()) by {
                    assert forall|i: int| 0 <= i < bytes@.len() implies self.bytes@[before.len() + i]
                        == bytes@[i] by {
                        assert(cloned(bytes@[i], self.bytes@[before.len() + i]));
                    }
                }
                encode_utf8_valid_utf8(s@);
                valid_utf8_concat(before, s.spec_bytes());
            }
        }
        r
    }

    /// The text's bytes.
    pub fn as_bytes(&self) -> (r: &[u8])
        ensures
            r@ == self@,
    {
        self.bytes.as_slice()
    }
}

impl<const CAPACITY: usize> Default for ArrayStr<CAPACITY> {
    fn default() -> (r: Self)
        ensures
            r.wf(),
            r@ == Seq::<u8>::empty(),
    {
        Self::new()
    }
}

impl<const CAPACITY: usize> core::str::FromStr for ArrayStr<CAPACITY> {
    type Err = ();

    /// The text `s`, or an error when it does not fit.
    fn from_str(s: &str) -> Result<Self, ()> {
        let mut result = Self::new();
        match result.push_str(s) {
            Ok(()) => Ok(result),
            Err(()) => Err(()),
        }
    }
}

} // verus!
