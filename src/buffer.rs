//! A bounded byte window over a stream, kept in a `circular::Buffer`.
use vstd::prelude::*;

verus! {

#[verifier::external_type_specification]
#[verifier::external_body]
pub struct ExBuffer(circular::Buffer);

/// The bytes that are readable in the buffer, in stream order.
pub uninterp spec fn buffer_data(b: circular::Buffer) -> Seq<u8>;

/// The free space at the tail of the buffer.
pub uninterp spec fn buffer_space(b: circular::Buffer) -> nat;

/// The bytes before the readable ones that were consumed and not yet reclaimed.
pub uninterp spec fn buffer_start(b: circular::Buffer) -> nat;

/// The fixed size of the buffer's memory.
pub uninterp spec fn buffer_capacity(b: circular::Buffer) -> nat;

/// The three regions of the memory add up to its size.
pub open spec fn regions_fit(b: circular::Buffer) -> bool {
    buffer_start(b) + buffer_data(b).len() + buffer_space(b) == buffer_capacity(b)
}

/// Relies on circular's `Buffer::with_capacity`: an empty buffer with `capacity` bytes of space.
#[verifier::external_body]
fn new_buffer(capacity: usize) -> (r: circular::Buffer)
    ensures
        buffer_data(r) == Seq::<u8>::empty(),
        buffer_start(r) == 0,
        buffer_space(r) == capacity,
        buffer_capacity(r) == capacity,
{
    circular::Buffer::with_capacity(capacity)
}

/// Relies on circular's `Buffer::available_data`: `end - position`.
#[verifier::external_body]
fn data_len(b: &circular::Buffer) -> (r: usize)
    ensures
        r == buffer_data(*b).len(),
{
    b.available_data()
}

/// Relies on circular's `Buffer::available_space`: `capacity - end`.
#[verifier::external_body]
fn space_len(b: &circular::Buffer) -> (r: usize)
    ensures
        r == buffer_space(*b),
{
    b.available_space()
}

/// Relies on circular's `Buffer::data`: the slice `memory[position..end]`.
#[verifier::external_body]
fn data_of(b: &circular::Buffer) -> (r: &[u8])
    ensures
        r@ == buffer_data(*b),
{
    b.data()
}

/// Relies on circular's `Write::write` for `Buffer`: it copies as many bytes as the space
/// holds to the end of the data and calls `fill` with that count, which may shift the data
/// to the front. Writing into a slice never fails.
#[verifier::external_body]
fn append_bytes(b: &mut circular::Buffer, bytes: &[u8]) -> (r: usize)
    ensures
        r == if bytes@.len() <= buffer_space(*old(b)) { bytes@.len() } else { buffer_space(*old(b)) },
        buffer_data(*final(b)) == buffer_data(*old(b)) + bytes@.subrange(0, r as int),
        buffer_capacity(*final(b)) == buffer_capacity(*old(b)),
        buffer_start(*final(b)) == buffer_start(*old(b)) || buffer_start(*final(b)) == 0,
        regions_fit(*final(b)),
{
    match std::io::Write::write(b, bytes) {
        Ok(n) => n,
        Err(_) => 0,
    }
}

/// Relies on circular's `Buffer::consume`: it advances the position by at most the readable
/// count, and shifts the data to the front once the position passes half the capacity.
#[verifier::external_body]
fn consume_front(b: &mut circular::Buffer, count: usize) -> (r: usize)
    ensures
        r == if count <= buffer_data(*old(b)).len() { count as nat } else { buffer_data(*old(b)).len() },
        buffer_data(*final(b)) == buffer_data(*old(b)).subrange(r as int, buffer_data(*old(b)).len() as int),
        buffer_capacity(*final(b)) == buffer_capacity(*old(b)),
        buffer_space(*final(b)) >= buffer_space(*old(b)),
        regions_fit(*final(b)),
{
    b.consume(count)
}

/// Relies on circular's `Buffer::shift`: the readable bytes move to the front of the memory.
#[verifier::external_body]
fn shift_front(b: &mut circular::Buffer)
    ensures
        buffer_data(*final(b)) == buffer_data(*old(b)),
        buffer_capacity(*final(b)) == buffer_capacity(*old(b)),
        buffer_start(*final(b)) == 0,
        regions_fit(*final(b)),
{
    b.shift()
}

/// A window of a byte stream with a fixed capacity: bytes enter at the tail and leave at
/// the front, in stream order.
pub struct StreamBuffer {
    inner: circular::Buffer,
}

impl StreamBuffer {
    /// The readable bytes.
    pub closed spec fn data(&self) -> Seq<u8> {
        buffer_data(self.inner)
    }

    /// The free space at the tail.
    pub closed spec fn space(&self) -> nat {
        buffer_space(self.inner)
    }

    /// Consumed bytes that still take room at the front.
    pub closed spec fn consumed(&self) -> nat {
        buffer_start(self.inner)
    }

    /// The capacity that the buffer was made with.
    pub closed spec fn capacity(&self) -> nat {
        buffer_capacity(self.inner)
    }

    /// Readable bytes, free space and reclaimable bytes make up the capacity.
    pub open spec fn wf(&self) -> bool {
        self.consumed() + self.data().len() + self.space() == self.capacity()
    }

    pub fn new(capacity: usize) -> (r: StreamBuffer)
        ensures
            r.wf(),
            r.data() == Seq::<u8>::empty(),
            r.space() == capacity,
            r.consumed() == 0,
            r.capacity() == capacity,
    {
        StreamBuffer { inner: new_buffer(capacity) }
    }

    pub fn available_data(&self) -> (r: usize)
        ensures
            r == self.data().len(),
    {
        data_len(&self.inner)
    }

    pub fn available_space(&self) -> (r: usize)
        ensures
            r == self.space(),
    {
        space_len(&self.inner)
    }

    /// The readable bytes, in stream order.
    pub fn readable(&self) -> (r: &[u8])
        ensures
            r@ == self.data(),
    {
        data_of(&self.inner)
    }

    /// Appends freshly read bytes; they must fit in the free space.
    pub fn fill(&mut self, bytes: &[u8])
        requires
            old(self).wf(),
            bytes@.len() <= old(self).space(),
        ensures
            final(self).wf(),
            final(self).data() == old(self).data() + bytes@,
            final(self).capacity() == old(self).capacity(),
    {
        let n = append_bytes(&mut self.inner, bytes);
        assert(bytes@.subrange(0, n as int) =~= bytes@);
    }

    /// Drops `n` bytes from the front of the readable bytes.
    pub fn consume(&mut self, n: usize)
        requires
            old(self).wf(),
            n <= old(self).data().len(),
        ensures
            final(self).wf(),
            final(self).data() == old(self).data().subrange(n as int, old(self).data().len() as int),
            final(self).capacity() == old(self).capacity(),
            final(self).space() >= old(self).space(),
    {
        consume_front(&mut self.inner, n);
    }

    /// Moves the readable bytes to the front, turning the consumed bytes into free space.
    pub fn compact(&mut self)
        requires
            old(self).wf(),
        ensures
            final(self).wf(),
            final(self).data() == old(self).data(),
            final(self).capacity() == old(self).capacity(),
            final(self).consumed() == 0,
            final(self).space() == old(self).space() + old(self).consumed(),
    {
        shift_front(&mut self.inner);
    }
}

/// In a well-formed buffer the readable bytes and the free space never exceed the
/// capacity, and they fill it exactly once the consumed bytes are reclaimed.
pub proof fn lemma_regions_within_capacity(b: StreamBuffer)
    requires
        b.wf(),
    ensures
        b.data().len() + b.space() <= b.capacity(),
        b.consumed() == 0 ==> b.data().len() + b.space() == b.capacity(),
{
}

} // verus!
