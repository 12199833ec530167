//! The free list of a buffer pool: a fixed set of byte buffers handed out
//! one at a time and taken back empty.

use bytes::BytesMut;
use vstd::prelude::*;

verus! {

pub const DEFAULT_CAPACITY: usize = 8;

pub const DEFAULT_BUF_SIZE: usize = 256 * 1024;

#[verifier::external_type_specification]
#[verifier::external_body]
pub struct ExBytesMut(BytesMut);

/// The bytes a `BytesMut` holds.
pub uninterp spec fn buffer_contents(b: BytesMut) -> Seq<u8>;

/// The room a `BytesMut` was made with: the capacity asked of
/// `BytesMut::with_capacity`, which the buffer can hold without reallocating.
pub uninterp spec fn made_with_room(b: BytesMut) -> nat;

/// `BytesMut::with_capacity` returns a buffer that holds no bytes and is
/// made with room for `capacity` bytes (its documentation: it "will be able to
/// hold at least `capacity` bytes without reallocating", and the length is
/// 0). It allocates through `Vec::with_capacity`, which panics above
/// `isize::MAX` bytes.
pub assume_specification[ BytesMut::with_capacity ](capacity: usize) -> (r: BytesMut)
    requires
        capacity <= isize::MAX,
    ensures
        buffer_contents(r) == Seq::<u8>::empty(),
        made_with_room(r) == capacity,
;

/// `BytesMut::clear` drops every byte the buffer holds and keeps its room
/// (its documentation: "Existing capacity is preserved").
pub assume_specification[ BytesMut::clear ](b: &mut BytesMut)
    ensures
        buffer_contents(*final(b)) == Seq::<u8>::empty(),
        made_with_room(*final(b)) == made_with_room(*old(b)),
;

/// `BytesMut::len` is the number of bytes the buffer holds.
pub assume_specification[ BytesMut::len ](b: &BytesMut) -> (n: usize)
    ensures
        n == buffer_contents(*b).len(),
;

/// The buffers of a pool that are not handed out, and the size each was made
/// with.
pub struct BufferStack {
    free: Vec<BytesMut>,
    buf_size: usize,
}

impl BufferStack {
    pub closed spec fn free_buffers(&self) -> Seq<BytesMut> {
        self.free@
    }

    pub closed spec fn spec_buf_size(&self) -> usize {
        self.buf_size
    }

    /// A stack of `capacity` empty buffers of `buf_size` bytes each.
    pub fn new(capacity: usize, buf_size: usize) -> (s: BufferStack)
        requires
            capacity > 0 ==> buf_size <= isize::MAX,
        ensures
            s.free_buffers().len() == capacity,
            forall|i: int| 0 <= i < capacity ==> buffer_contents(#[trigger] s.free_buffers()[i])
                == Seq::<u8>::empty(),
            forall|i: int| 0 <= i < capacity ==> made_with_room(#[trigger] s.free_buffers()[i])
                == buf_size,
            s.spec_buf_size() == buf_size,
    {
        let mut free: Vec<BytesMut> = Vec::new();
        let mut i: usize = 0;
        while i < capacity
            invariant
                i <= capacity,
                capacity > 0 ==> buf_size <= isize::MAX,
                free@.len() == i,
                forall|k: int| 0 <= k < i ==> buffer_contents(#[trigger] free@[k]) == Seq::<u8>::empty(),
                forall|k: int| 0 <= k < i ==> made_with_room(#[trigger] free@[k]) == buf_size,
            decreases capacity - i,
        {
            free.push(BytesMut::with_capacity(buf_size));
            i += 1;
        }
        BufferStack { free, buf_size }
    }

    /// Hands out the most recently returned buffer, or `None` when every
    /// buffer is out.
    pub fn take(&mut self) -> (r: Option<BytesMut>)
        ensures
            old(self).free_buffers().len() == 0 ==> r is None && final(self).free_buffers()
                == old(self).free_buffers(),
            old(self).free_buffers().len() > 0 ==> r == Some(old(self).free_buffers().last())
                && final(self).free_buffers() == old(self).free_buffers().drop_last(),
            final(self).spec_buf_size() == old(self).spec_buf_size(),
    {
        self.free.pop()
    }

    /// Takes a buffer back, emptied, with the room it was made with.
    pub fn give_back(&mut self, buf: BytesMut)
        ensures
            final(self).free_buffers().len() == old(self).free_buffers().len() + 1,
            final(self).free_buffers().drop_last() == old(self).free_buffers(),
            buffer_contents(final(self).free_buffers().last()) == Seq::<u8>::empty(),
            made_with_room(final(self).free_buffers().last()) == made_with_room(buf),
            final(self).spec_buf_size() == old(self).spec_buf_size(),
    {
        let mut buf = buf;
        buf.clear();
        self.free.push(buf);
        proof {
            assert(self.free@.drop_last() =~= old(self).free@);
        }
    }

    /// Number of buffers not handed out.
    pub fn available(&self) -> (n: usize)
        ensures
            n == self.free_buffers().len(),
    {
        self.free.len()
    }

    pub fn buf_size(&self) -> (n: usize)
        ensures
            n == self.spec_buf_size(),
    {
        self.buf_size
    }
}

/// Reuse keeps the allocation: a buffer of a fresh stack, handed out and
/// given back, is back on top of the stack empty and with room for the
/// stack's buffer size.
pub proof fn lemma_reuse_keeps_room(
    fresh: Seq<BytesMut>,
    buf_size: usize,
    after_take: Seq<BytesMut>,
    handed_out: BytesMut,
    after_return: Seq<BytesMut>,
)
    requires
        fresh.len() > 0,
        forall|i: int| 0 <= i < fresh.len() ==> made_with_room(#[trigger] fresh[i]) == buf_size,
        handed_out == fresh.last(),
        after_take == fresh.drop_last(),
        after_return.drop_last() == after_take,
        after_return.len() == after_take.len() + 1,
        buffer_contents(after_return.last()) == Seq::<u8>::empty(),
        made_with_room(after_return.last()) == made_with_room(handed_out),
    ensures
        after_return.len() == fresh.len(),
        forall|i: int| 0 <= i < after_return.len() ==> made_with_room(#[trigger] after_return[i]) == buf_size,
        buffer_contents(after_return[after_return.len() - 1]) == Seq::<u8>::empty(),
{
    assert forall|i: int| 0 <= i < after_return.len() implies made_with_room(#[trigger] after_return[i])
        == buf_size by {
        if i < after_return.len() - 1 {
            assert(after_return[i] == after_take[i]);
            assert(after_take[i] == fresh[i]);
        } else {
            assert(made_with_room(fresh[fresh.len() - 1]) == buf_size);
        }
    }
}

} // verus!
