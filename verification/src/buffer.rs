//! Fixed-capacity single-producer/single-consumer telemetry byte queue with a
//! non-blocking reserve/commit/read/release grant protocol, backed by a
//! bip-buffer ring.

use vstd::prelude::*;

verus! {

/// Capacity in bytes of the telemetry ring buffer, fixed at construction.
pub const TELEMETRY_CAPACITY: usize = 64;

#[verifier::external_type_specification]
#[verifier::external_body]
pub struct ExProducer<'a, const N: usize>(bbqueue::Producer<'a, N>);

#[verifier::external_type_specification]
#[verifier::external_body]
pub struct ExConsumer<'a, const N: usize>(bbqueue::Consumer<'a, N>);

#[verifier::external_type_specification]
#[verifier::external_body]
pub struct ExGrantW<'a, const N: usize>(bbqueue::GrantW<'a, N>);

/// Reserving a write window failed: the free contiguous space is smaller than
/// the requested length. Expected backpressure signal, not a fault.
#[derive(Clone, Copy, Debug, PartialEq, Eq, Structural)]
pub struct BufferFull;

/// Reading failed: no committed bytes are waiting. Normal idle condition.
#[derive(Clone, Copy, Debug, PartialEq, Eq, Structural)]
pub struct EmptyBuffer;

/// Committed bytes that have not been released yet, oldest first.
pub uninterp spec fn rb_queued(rb: TelemetryRingBuffer) -> Seq<u8>;

/// Largest length for which a reserve succeeds right now: the free contiguous
/// space of the ring, either at its end or at its start.
pub uninterp spec fn rb_space(rb: TelemetryRingBuffer) -> nat;

/// Contents of the outstanding write window; empty when no write grant is
/// outstanding.
pub uninterp spec fn rb_wdata(rb: TelemetryRingBuffer) -> Seq<u8>;

/// Length of the readable prefix of the queued bytes: how many of them are
/// contiguous in storage and come back from a single read.
pub uninterp spec fn rb_contig(rb: TelemetryRingBuffer) -> nat;

/// Well-formedness of the ring: outstanding bytes never exceed the capacity,
/// the readable prefix lies within the queued bytes and is nonempty whenever
/// they are, and free space plus queued bytes fit the capacity.
pub open spec fn rb_wf(rb: TelemetryRingBuffer) -> bool {
    &&& rb_queued(rb).len() + rb_wdata(rb).len() <= TELEMETRY_CAPACITY
    &&& rb_contig(rb) <= rb_queued(rb).len()
    &&& (rb_queued(rb).len() > 0 ==> rb_contig(rb) > 0)
    &&& (rb_wdata(rb).len() == 0 ==> rb_space(rb) + rb_queued(rb).len() <= TELEMETRY_CAPACITY)
}

/// Fixed-capacity byte queue shared by one producer role and one consumer
/// role. Both halves are assigned at construction and never reassigned; all
/// operations are non-blocking.
pub struct TelemetryRingBuffer {
    producer: bbqueue::Producer<'static, 64>,
    consumer: bbqueue::Consumer<'static, 64>,
    write_grant: Option<bbqueue::GrantW<'static, 64>>,
}

/// Relies on bbqueue::BBBuffer::new and BBBuffer::try_split: a freshly split
/// ring holds no bytes, has no outstanding grant, and its whole capacity is
/// free contiguous space.
#[verifier::external_body]
fn ring_new() -> (rb: TelemetryRingBuffer)
    ensures
        rb_queued(rb) == Seq::<u8>::empty(),
        rb_wdata(rb) == Seq::<u8>::empty(),
        rb_contig(rb) == 0,
        rb_space(rb) == TELEMETRY_CAPACITY,
{
    let buffer: &'static bbqueue::BBBuffer<64> = Box::leak(Box::new(bbqueue::BBBuffer::new()));
    let (producer, consumer) = buffer.try_split().unwrap();
    TelemetryRingBuffer { producer, consumer, write_grant: None }
}

/// Relies on bbqueue::Producer::grant_exact: a window of exactly `len`
/// contiguous bytes is granted when and only when the free contiguous space
/// allows it, and a refused grant leaves the queue untouched.
#[verifier::external_body]
fn ring_reserve(rb: &mut TelemetryRingBuffer, len: usize) -> (r: Result<(), BufferFull>)
    requires
        rb_wdata(*old(rb)).len() == 0,
        1 <= len,
    ensures
        r is Ok <==> len <= rb_space(*old(rb)),
        r is Ok ==> rb_wdata(*final(rb)).len() == len,
        r is Err ==> rb_wdata(*final(rb)) == rb_wdata(*old(rb)),
        rb_space(*final(rb)) == rb_space(*old(rb)),
        rb_queued(*final(rb)) == rb_queued(*old(rb)),
        rb_contig(*final(rb)) == rb_contig(*old(rb)),
        rb_wf(*final(rb)),
{
    match rb.producer.grant_exact(len) {
        Ok(grant) => {
            rb.write_grant = Some(grant);
            Ok(())
        }
        Err(_) => Err(BufferFull),
    }
}

/// Relies on bbqueue::GrantW::buf: the granted window is a plain mutable byte
/// slice of the reserved length.
#[verifier::external_body]
fn ring_write_at(rb: &mut TelemetryRingBuffer, i: usize, b: u8)
    requires
        i < rb_wdata(*old(rb)).len(),
    ensures
        rb_wdata(*final(rb)) == rb_wdata(*old(rb)).update(i as int, b),
        rb_queued(*final(rb)) == rb_queued(*old(rb)),
        rb_contig(*final(rb)) == rb_contig(*old(rb)),
        rb_space(*final(rb)) == rb_space(*old(rb)),
        rb_wf(*final(rb)),
{
    rb.write_grant.as_mut().unwrap().buf()[i] = b;
}

/// Relies on bbqueue::GrantW::commit: the first `len` bytes of the window are
/// published in order behind the bytes already queued; committing less than
/// the reserved length releases the remainder, and committing zero bytes is a
/// pure release of the grant.
#[verifier::external_body]
fn ring_commit(rb: &mut TelemetryRingBuffer, len: usize)
    requires
        1 <= rb_wdata(*old(rb)).len(),
        len <= rb_wdata(*old(rb)).len(),
    ensures
        rb_queued(*final(rb)) == rb_queued(*old(rb)) + rb_wdata(*old(rb)).take(len as int),
        rb_wdata(*final(rb)) == Seq::<u8>::empty(),
        rb_space(*final(rb)) >= rb_space(*old(rb)) - len,
        rb_contig(*final(rb)) == rb_contig(*old(rb)) || rb_contig(*final(rb)) == rb_contig(
            *old(rb),
        ) + len,
        rb_queued(*old(rb)).len() == 0 ==> rb_contig(*final(rb)) == len,
        rb_wf(*final(rb)),
{
    let grant = rb.write_grant.take().unwrap();
    grant.commit(len);
}

/// Relies on bbqueue::Consumer::read and GrantR::buf: a read returns the
/// contiguous readable prefix of the queued bytes, fails exactly when nothing
/// is queued, and consumes nothing.
#[verifier::external_body]
fn ring_read(rb: &mut TelemetryRingBuffer) -> (r: Result<Vec<u8>, EmptyBuffer>)
    ensures
        r is Ok <==> rb_queued(*old(rb)).len() > 0,
        r is Ok ==> (r->Ok_0)@ == rb_queued(*old(rb)).take(rb_contig(*old(rb)) as int),
        rb_queued(*final(rb)) == rb_queued(*old(rb)),
        rb_wdata(*final(rb)) == rb_wdata(*old(rb)),
        rb_contig(*final(rb)) == rb_contig(*old(rb)),
        rb_space(*final(rb)) >= rb_space(*old(rb)),
        rb_wf(*final(rb)),
{
    match rb.consumer.read() {
        Ok(grant) => {
            let bytes = grant.buf().to_vec();
            grant.release(0);
            Ok(bytes)
        }
        Err(_) => Err(EmptyBuffer),
    }
}

/// Relies on bbqueue::Consumer::read and GrantR::release: releasing `len`
/// bytes of the readable prefix frees them for later writes and drops them
/// from the front of the queue. Releasing part of the prefix shortens it by
/// `len`; releasing all of it exposes whatever remains queued, which is the
/// wrapped run at the ring's start and is contiguous.
#[verifier::external_body]
fn ring_release(rb: &mut TelemetryRingBuffer, len: usize)
    requires
        1 <= len,
        len <= rb_contig(*old(rb)),
    ensures
        rb_queued(*final(rb)) == rb_queued(*old(rb)).skip(len as int),
        len < rb_contig(*old(rb)) ==> rb_contig(*final(rb)) == rb_contig(*old(rb)) - len,
        len == rb_contig(*old(rb)) ==> rb_contig(*final(rb)) == rb_queued(*final(rb)).len(),
        rb_wdata(*final(rb)) == rb_wdata(*old(rb)),
        rb_space(*final(rb)) >= rb_space(*old(rb)),
        rb_wf(*final(rb)),
{
    match rb.consumer.read() {
        Ok(grant) => grant.release(len),
        Err(_) => {}
    }
}

impl TelemetryRingBuffer {
    /// Creates an empty ring of [`TELEMETRY_CAPACITY`] bytes. The producer and
    /// consumer halves are assigned here once and never reassigned; the buffer
    /// never allocates again afterwards.
    pub fn new() -> (rb: TelemetryRingBuffer)
        ensures
            rb_queued(rb) == Seq::<u8>::empty(),
            rb_wdata(rb) == Seq::<u8>::empty(),
            rb_contig(rb) == 0,
            rb_space(rb) == TELEMETRY_CAPACITY,
            rb_wf(rb),
    {
        ring_new()
    }

    /// The fixed capacity of this ring in bytes.
    pub fn capacity(&self) -> (r: usize)
        ensures
            r == TELEMETRY_CAPACITY,
    {
        TELEMETRY_CAPACITY
    }

    /// Reserves a contiguous writable window of exactly `len` bytes.
    ///
    /// Succeeds if and only if the free contiguous space is at least `len`;
    /// otherwise fails immediately with [`BufferFull`] and leaves the queue
    /// state entirely unchanged.
    pub fn reserve_exact(&mut self, len: usize) -> (r: Result<(), BufferFull>)
        requires
            rb_wdata(*old(self)).len() == 0,
            1 <= len,
        ensures
            r is Ok <==> len <= rb_space(*old(self)),
            r is Ok ==> rb_wdata(*final(self)).len() == len,
            r is Err ==> rb_wdata(*final(self)) == rb_wdata(*old(self)),
            rb_space(*final(self)) == rb_space(*old(self)),
            rb_queued(*final(self)) == rb_queued(*old(self)),
            rb_contig(*final(self)) == rb_contig(*old(self)),
            rb_wf(*final(self)),
    {
        ring_reserve(self, len)
    }

    /// Writes one byte at offset `i` of the outstanding write window.
    pub fn write_at(&mut self, i: usize, b: u8)
        requires
            i < rb_wdata(*old(self)).len(),
        ensures
            rb_wdata(*final(self)) == rb_wdata(*old(self)).update(i as int, b),
            rb_queued(*final(self)) == rb_queued(*old(self)),
            rb_contig(*final(self)) == rb_contig(*old(self)),
            rb_space(*final(self)) == rb_space(*old(self)),
            rb_wf(*final(self)),
    {
        ring_write_at(self, i, b)
    }

    /// Fills the whole outstanding write window with `data`.
    pub fn write_all(&mut self, data: &Vec<u8>)
        requires
            rb_wf(*old(self)),
            data@.len() == rb_wdata(*old(self)).len(),
        ensures
            rb_wdata(*final(self)) == data@,
            rb_queued(*final(self)) == rb_queued(*old(self)),
            rb_contig(*final(self)) == rb_contig(*old(self)),
            rb_space(*final(self)) == rb_space(*old(self)),
            rb_wf(*final(self)),
    {
        let ghost orig = rb_wdata(*self);
        let mut i: usize = 0;
        while i < data.len()
            invariant
                i <= data@.len(),
                data@.len() == rb_wdata(*self).len(),
                rb_wdata(*self) == data@.take(i as int) + orig.skip(i as int),
                rb_queued(*self) == rb_queued(*old(self)),
                rb_contig(*self) == rb_contig(*old(self)),
                rb_space(*self) == rb_space(*old(self)),
                orig.len() == data@.len(),
                rb_wf(*self),
            decreases data@.len() - i,
        {
            assert(rb_wdata(*self).len() == data@.len());
            self.write_at(i, data[i]);
            proof {
                assert(rb_wdata(*self) =~= data@.take(i + 1) + orig.skip(i + 1));
            }
            i = i + 1;
        }
        proof {
            assert(rb_wdata(*self) =~= data@);
        }
    }

    /// Publishes the first `len` bytes of the outstanding write window,
    /// appending them behind the queued bytes; `len` may be smaller than the
    /// window, and zero is a legal no-op that only relinquishes the grant.
    pub fn commit(&mut self, len: usize)
        requires
            1 <= rb_wdata(*old(self)).len(),
            len <= rb_wdata(*old(self)).len(),
        ensures
            rb_queued(*final(self)) == rb_queued(*old(self)) + rb_wdata(*old(self)).take(
                len as int,
            ),
            rb_wdata(*final(self)) == Seq::<u8>::empty(),
            rb_space(*final(self)) >= rb_space(*old(self)) - len,
            rb_contig(*final(self)) == rb_contig(*old(self)) || rb_contig(*final(self))
                == rb_contig(*old(self)) + len,
            rb_queued(*old(self)).len() == 0 ==> rb_contig(*final(self)) == len,
            rb_wf(*final(self)),
    {
        ring_commit(self, len)
    }

    /// Returns a copy of however many contiguous committed bytes are currently
    /// readable, without consuming them; fails with [`EmptyBuffer`] exactly
    /// when nothing is queued. Reading changes none of the queued bytes, so
    /// two reads without an intervening release observe the same window.
    pub fn read(&mut self) -> (r: Result<Vec<u8>, EmptyBuffer>)
        ensures
            r is Ok <==> rb_queued(*old(self)).len() > 0,
            r is Ok ==> (r->Ok_0)@ == rb_queued(*old(self)).take(rb_contig(*old(self)) as int),
            rb_queued(*final(self)) == rb_queued(*old(self)),
            rb_wdata(*final(self)) == rb_wdata(*old(self)),
            rb_contig(*final(self)) == rb_contig(*old(self)),
            rb_space(*final(self)) >= rb_space(*old(self)),
            rb_wf(*final(self)),
    {
        ring_read(self)
    }

    /// Capacity law: in every well-formed state the outstanding bytes, the
    /// committed-unreleased ones together with a reserved-uncommitted
    /// window, never exceed the capacity. A refused reserve mutates nothing,
    /// as the error case of [`TelemetryRingBuffer::reserve_exact`] states.
    pub proof fn lemma_outstanding_within_capacity(rb: TelemetryRingBuffer)
        requires
            rb_wf(rb),
        ensures
            rb_queued(rb).len() + rb_wdata(rb).len() <= TELEMETRY_CAPACITY,
    {
    }

    /// Round-trip law: a record `d` committed into an empty ring is exactly
    /// what a read then observes, in order; a second record `e` committed
    /// before the release only appends behind `d` without interleaving, and
    /// releasing `d` leaves exactly `e` queued.
    ///
    /// `rb1` is the ring after reserving, filling and committing `d` into
    /// the empty ring `rb0`, and `rb2` is `rb1` after a second such write of
    /// `e`; the hypotheses are what the contracts of `reserve_exact`,
    /// `write_all` and `commit` establish for those steps.
    pub proof fn lemma_round_trip(
        rb0: TelemetryRingBuffer,
        rb1: TelemetryRingBuffer,
        rb2: TelemetryRingBuffer,
        d: Seq<u8>,
        e: Seq<u8>,
    )
        requires
            rb_queued(rb0).len() == 0,
            rb_queued(rb1) == rb_queued(rb0) + d,
            rb_contig(rb1) == d.len(),
            rb_queued(rb2) == rb_queued(rb1) + e,
            rb_contig(rb2) == rb_contig(rb1) || rb_contig(rb2) == rb_contig(rb1) + e.len(),
            rb_wf(rb2),
        ensures
            rb_contig(rb2) >= d.len(),
            rb_queued(rb2).take(rb_contig(rb2) as int).take(d.len() as int) == d,
            rb_queued(rb2).skip(d.len() as int) == e,
    {
        assert(rb_queued(rb1) =~= d);
        assert(rb_queued(rb2) =~= d + e);
        assert(rb_queued(rb2).take(rb_contig(rb2) as int).take(d.len() as int) =~= d);
        assert(rb_queued(rb2).skip(d.len() as int) =~= e);
    }

    /// Idempotence law: reading does not consume, so two reads without an
    /// intervening release return the same window. The hypotheses are what
    /// the contract of [`TelemetryRingBuffer::read`] establishes for two
    /// consecutive reads from `rb0`.
    pub proof fn lemma_read_idempotent(
        rb0: TelemetryRingBuffer,
        rb1: TelemetryRingBuffer,
        r1: Seq<u8>,
        r2: Seq<u8>,
    )
        requires
            r1 == rb_queued(rb0).take(rb_contig(rb0) as int),
            rb_queued(rb1) == rb_queued(rb0),
            rb_contig(rb1) == rb_contig(rb0),
            r2 == rb_queued(rb1).take(rb_contig(rb1) as int),
        ensures
            r1 == r2,
    {
    }

    /// Frees the first `len` readable bytes, advancing the read side past
    /// them. Releasing part of the readable prefix shortens it by `len`;
    /// releasing all of it exposes the wrapped remainder, which is
    /// contiguous. Releasing more than the readable prefix is a programming
    /// error and is excluded by contract.
    pub fn release(&mut self, len: usize)
        requires
            1 <= len,
            len <= rb_contig(*old(self)),
        ensures
            rb_queued(*final(self)) == rb_queued(*old(self)).skip(len as int),
            len < rb_contig(*old(self)) ==> rb_contig(*final(self)) == rb_contig(*old(self))
                - len,
            len == rb_contig(*old(self)) ==> rb_contig(*final(self)) == rb_queued(
                *final(self),
            ).len(),
            rb_wdata(*final(self)) == rb_wdata(*old(self)),
            rb_space(*final(self)) >= rb_space(*old(self)),
            rb_wf(*final(self)),
    {
        ring_release(self, len)
    }
}

} // verus!
