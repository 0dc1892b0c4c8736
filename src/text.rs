//! Text of bounded length, stored inline.
use vstd::prelude::*;
use vstd::slice::slice_subrange;
use vstd::string::StringSliceAdditionalSpecFns;

use crate::Error;

verus! {

/// UTF-8 text of at most `N` bytes, held in an inline buffer.
#[derive(Debug, Clone, Copy, PartialEq, Eq)]
pub struct FixedText<const N: usize> {
    buf: [u8; N],
    len: usize,
}

impl<const N: usize> View for FixedText<N> {
    type V = Seq<u8>;

    /// The bytes of the text.
    closed spec fn view(&self) -> Seq<u8> {
        self.buf@.subrange(0, self.len as int)
    }
}

impl<const N: usize> FixedText<N> {
    /// The buffer holds the text.
    pub closed spec fn wf(&self) -> bool {
        self.len <= N
    }

    /// The empty text.
    pub fn new() -> (r: Self)
        ensures
            r.wf(),
            r@ == Seq::<u8>::empty(),
    {
        let r = FixedText { buf: [0u8; N], len: 0 };
        assert(r@ =~= Seq::<u8>::empty());
        r
    }

    /// A copy of `s`, or `ArgumentParseError` when its bytes exceed the capacity.
    pub fn try_from_str(s: &str) -> (r: Result<Self, Error>)
        ensures
            s.spec_bytes().len() <= N ==> (r matches Ok(t) && t.wf() && t@ == s.spec_bytes()),
            s.spec_bytes().len() > N ==> r == Err::<Self, Error>(Error::ArgumentParseError),
    {
        let bytes = s.as_bytes();
        if bytes.len() > N {
            return Err(Error::ArgumentParseError);
        }
        let mut buf = [0u8; N];
        let mut i: usize = 0;
        while i < bytes.len()
            invariant
                bytes@ == s.spec_bytes(),
                bytes@.len() <= N,
                i <= bytes@.len(),
                buf@.len() == N,
                forall|j: int| 0 <= j < i ==> buf@[j] == bytes@[j],
            decreases bytes@.len() - i,
        {
            buf[i] = bytes[i];
            i = i + 1;
        }
        let t = FixedText { buf, len: bytes.len() };
        assert(t@ =~= s.spec_bytes());
        Ok(t)
    }

    /// The largest number of bytes the text can hold.
    pub fn capacity(&self) -> (r: usize)
        ensures
            r == N,
    {
        N
    }

    /// The number of bytes of the text.
    pub fn len(&self) -> (r: usize)
        requires
            self.wf(),
        ensures
            r == self@.len(),
    {
        self.len
    }

    /// Whether the text is empty.
    pub fn is_empty(&self) -> (r: bool)
        requires
            self.wf(),
        ensures
            r == (self@.len() == 0),
    {
        self.len == 0
    }

    /// The bytes of the text.
    pub fn as_bytes(&self) -> (r: &[u8])
        requires
            self.wf(),
        ensures
            r@ == self@,
    {
        slice_subrange(self.buf.as_slice(), 0, self.len)
    }
}

} // verus!
