//! The request body, read chunk by chunk into a buffer that never holds more
//! than [`MAX_SIZE`] bytes.

use crate::error::{ServiceError, ServiceErrorView};
use crate::view::views;
use vstd::prelude::*;
use vstd::slice::slice_to_vec;

verus! {

/// Largest request body, in bytes, that the service buffers in memory: 256 KiB.
pub const MAX_SIZE: usize = 262_144;

/// `ntex::util::BytesMut`, a growable byte buffer.
#[verifier::external_type_specification]
#[verifier::external_body]
pub struct ExBytesMut(ntex::util::BytesMut);

/// The bytes that a buffer holds, first to last.
pub uninterp spec fn held(buffer: ntex::util::BytesMut) -> Seq<u8>;

/// `BytesMut::new`: a buffer that holds no bytes.
#[verifier::external_body]
fn buffer_new() -> (buffer: ntex::util::BytesMut)
    ensures
        held(buffer) == Seq::<u8>::empty(),
{
    ntex::util::BytesMut::new()
}

/// `BytesMut::len`: how many bytes the buffer holds.
#[verifier::external_body]
fn buffer_len(buffer: &ntex::util::BytesMut) -> (len: usize)
    ensures
        len == held(*buffer).len(),
{
    buffer.len()
}

/// `BytesMut::extend_from_slice`: the buffer grows as needed and the given
/// bytes are copied to its end. ntex refuses capacities beyond 28 bits on a
/// 32-bit machine, so the precondition keeps below that.
#[verifier::external_body]
fn buffer_extend(buffer: &mut ntex::util::BytesMut, extend: &[u8])
    requires
        held(*old(buffer)).len() + extend@.len() < 0x1000_0000,
    ensures
        held(*final(buffer)) == held(*old(buffer)) + extend@,
{
    buffer.extend_from_slice(extend)
}

/// `BytesMut::as_ref`: the bytes that the buffer holds, as a slice.
#[verifier::external_body]
fn buffer_bytes(buffer: &ntex::util::BytesMut) -> (bytes: &[u8])
    ensures
        bytes@ == held(*buffer),
{
    buffer.as_ref()
}

/// The chunks one after the other.
pub open spec fn concat(chunks: Seq<Seq<u8>>) -> Seq<u8>
    decreases chunks.len(),
{
    if chunks.len() == 0 {
        Seq::<u8>::empty()
    } else {
        concat(chunks.drop_last()) + chunks.last()
    }
}

/// The first chunks of a body are never longer than the whole body.
pub proof fn lemma_concat_grows(chunks: Seq<Seq<u8>>, count: int)
    requires
        0 <= count <= chunks.len(),
    ensures
        concat(chunks.take(count)).len() <= concat(chunks).len(),
    decreases chunks.len(),
{
    if count == chunks.len() {
        assert(chunks.take(count) =~= chunks);
    } else {
        lemma_concat_grows(chunks.drop_last(), count);
        assert(chunks.drop_last().take(count) =~= chunks.take(count));
    }
}

/// The part of a request body that has arrived so far.
pub struct BodyBuffer {
    buffer: ntex::util::BytesMut,
}

impl View for BodyBuffer {
    type V = Seq<u8>;

    closed spec fn view(&self) -> Seq<u8> {
        held(self.buffer)
    }
}

impl BodyBuffer {
    /// What holds of every buffer that this module hands out: it is within
    /// the size limit.
    pub open spec fn wf(&self) -> bool {
        self@.len() <= MAX_SIZE
    }

    /// An empty buffer.
    pub fn new() -> (body: BodyBuffer)
        ensures
            body.wf(),
            body@ == Seq::<u8>::empty(),
    {
        BodyBuffer { buffer: buffer_new() }
    }

    /// How many bytes have arrived.
    pub fn len(&self) -> (len: usize)
        ensures
            len == self@.len(),
    {
        buffer_len(&self.buffer)
    }

    /// Takes one more chunk. Where the chunk would bring the body over the
    /// size limit, it is refused with `PayloadTooLarge` and the buffer stays
    /// as it is: the caller stops reading. Otherwise the chunk is added at
    /// the end.
    pub fn push(&mut self, chunk: &[u8]) -> (result: Result<(), ServiceError>)
        requires
            old(self).wf(),
        ensures
            final(self).wf(),
            match result {
                Ok(_) => old(self)@.len() + chunk@.len() <= MAX_SIZE && final(self)@ == old(self)@
                    + chunk@,
                Err(error) => old(self)@.len() + chunk@.len() > MAX_SIZE && final(self)@ == old(
                    self,
                )@ && error@ == ServiceErrorView::PayloadTooLarge,
            },
    {
        let len = buffer_len(&self.buffer);
        if chunk.len() > MAX_SIZE - len {
            return Err(ServiceError::PayloadTooLarge);
        }
        buffer_extend(&mut self.buffer, chunk);
        Ok(())
    }

    /// The bytes that have arrived, first to last.
    pub fn into_bytes(self) -> (bytes: Vec<u8>)
        ensures
            bytes@ == self@,
    {
        slice_to_vec(buffer_bytes(&self.buffer))
    }
}

/// Reads a whole body from its chunks. The body is the chunks one after the
/// other; where they hold more than [`MAX_SIZE`] bytes together the answer is
/// `PayloadTooLarge`, whatever the bytes are.
pub fn payload(chunks: &Vec<Vec<u8>>) -> (result: Result<Vec<u8>, ServiceError>)
    ensures
        match result {
            Ok(body) => concat(views(chunks@)).len() <= MAX_SIZE && body@ == concat(
                views(chunks@),
            ),
            Err(error) => concat(views(chunks@)).len() > MAX_SIZE && error@
                == ServiceErrorView::PayloadTooLarge,
        },
{
    let mut body = BodyBuffer::new();
    let mut i: usize = 0;
    assert(views(chunks@).take(0) =~= Seq::<Seq<u8>>::empty());
    while i < chunks.len()
        invariant
            i <= chunks.len(),
            body.wf(),
            body@ == concat(views(chunks@).take(i as int)),
        decreases chunks.len() - i,
    {
        proof {
            let longer = views(chunks@).take(i + 1);
            assert(longer.drop_last() =~= views(chunks@).take(i as int));
            assert(longer.last() == chunks@[i as int]@);
            lemma_concat_grows(views(chunks@), i + 1);
        }
        match body.push(chunks[i].as_slice()) {
            Ok(_) => {},
            Err(error) => {
                return Err(error);
            },
        }
        i += 1;
    }
    assert(views(chunks@).take(chunks.len() as int) =~= views(chunks@));
    Ok(body.into_bytes())
}

} // verus!
