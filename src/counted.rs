//! A read-through cursor that counts the bytes it hands out.
use vstd::prelude::*;

verus! {

/// `std::io::Error`, carried opaquely: reads through [`Counted`] never fail.
#[verifier::external_type_specification]
#[verifier::external_body]
pub struct ExIoError(std::io::Error);

/// A sequential reader over a borrowed byte slice that records how many
/// bytes have been read through it so far.
pub struct Counted<'a> {
    data: &'a [u8],
    pos: usize,
}

impl<'a> Counted<'a> {
    /// The bytes this reader was made over.
    pub closed spec fn source(&self) -> Seq<u8> {
        self.data@
    }

    /// How many bytes have been read through this reader.
    pub closed spec fn count(&self) -> nat {
        self.pos as nat
    }

    /// The count never runs past the end of the source.
    #[verifier::type_invariant]
    pub closed spec fn wf(&self) -> bool {
        self.pos <= self.data@.len()
    }

    /// Bytes not yet read.
    pub open spec fn rest(&self) -> Seq<u8> {
        self.source().subrange(self.count() as int, self.source().len() as int)
    }

    /// A reader at the start of `data`, with a count of zero.
    pub fn new(data: &'a [u8]) -> (r: Self)
        ensures
            r.source() == data@,
            r.count() == 0,
    {
        Counted { data, pos: 0 }
    }

    /// The number of bytes read so far.
    pub fn consumed(&self) -> (r: usize)
        ensures
            r == self.count(),
            r <= self.source().len(),
    {
        proof {
            use_type_invariant(self);
        }
        self.pos
    }

    /// Copies as many of the unread bytes as fit into the front of `buf`,
    /// adds their number to the count and returns it. The result is zero
    /// only when `buf` is empty or nothing is left to read.
    pub fn read_into(&mut self, buf: &mut [u8]) -> (k: usize)
        ensures
            final(self).source() == old(self).source(),
            k == vstd::math::min(old(buf)@.len() as int, old(self).rest().len() as int),
            final(self).count() == old(self).count() + k,
            final(buf)@.len() == old(buf)@.len(),
            final(buf)@.subrange(0, k as int) == old(self).rest().subrange(0, k as int),
            final(buf)@.subrange(k as int, final(buf)@.len() as int)
                == old(buf)@.subrange(k as int, old(buf)@.len() as int),
    {
        proof {
            use_type_invariant(&*self);
        }
        let n: usize = self.data.len();
        let left: usize = n - self.pos;
        let k: usize = if buf.len() < left { buf.len() } else { left };
        let start: usize = self.pos;
        let mut i: usize = 0;
        while i < k
            invariant
                n == self.data@.len(),
                self.data@ == old(self).data@,
                self.pos == start,
                start == old(self).pos,
                k <= buf@.len(),
                start + k <= self.data@.len(),
                buf@.len() == old(buf)@.len(),
                0 <= i <= k,
                forall|j: int| 0 <= j < i ==> buf@[j] == self.data@[start + j],
                forall|j: int| k <= j < buf@.len() ==> buf@[j] == old(buf)@[j],
            decreases k - i,
        {
            buf[i] = self.data[start + i];
            i = i + 1;
        }
        self.pos = start + k;
        assert(final(buf)@.subrange(0, k as int) =~= old(self).rest().subrange(0, k as int));
        assert(final(buf)@.subrange(k as int, final(buf)@.len() as int)
            =~= old(buf)@.subrange(k as int, old(buf)@.len() as int));
        k
    }
}

impl<'a> std::io::Read for Counted<'a> {
    /// Reads through [`Counted::read_into`]; never an error.
    fn read(&mut self, buf: &mut [u8]) -> std::io::Result<usize> {
        Ok(self.read_into(buf))
    }
}

} // verus!
