//! Sample bridge: a bounded single-producer / single-consumer queue of PCM
//! samples between the decode side and the playback callback.
use rb::{RbConsumer, RbInspector, RbProducer, RB};
use vstd::prelude::*;

verus! {

#[verifier::external_type_specification]
#[verifier::external_body]
#[verifier::reject_recursive_types(T)]
pub struct ExSpscRb<T>(rb::SpscRb<T>);

#[verifier::external_type_specification]
#[verifier::external_body]
#[verifier::reject_recursive_types(T)]
pub struct ExProducer<T>(rb::Producer<T>);

#[verifier::external_type_specification]
#[verifier::external_body]
#[verifier::reject_recursive_types(T)]
pub struct ExConsumer<T>(rb::Consumer<T>);

#[verifier::external_type_specification]
#[verifier::external_body]
pub struct ExRbError(rb::RbError);

/// The samples a ring holds, oldest first.
pub uninterp spec fn ring_samples(r: rb::SpscRb<i16>) -> Seq<i16>;

/// The number of samples a ring can hold.
pub uninterp spec fn ring_capacity(r: rb::SpscRb<i16>) -> nat;

/// Relies on `rb::SpscRb::new`: an empty ring of `size` slots (it allocates
/// `size + 1` cells, so `size` must leave room for one more).
#[verifier::external_body]
fn ring_new(size: usize) -> (r: rb::SpscRb<i16>)
    requires
        size < usize::MAX,
    ensures
        ring_samples(r) == Seq::<i16>::empty(),
        ring_capacity(r) == size,
{
    rb::SpscRb::new(size)
}

/// Relies on `RbInspector::count` of `rb::SpscRb`: the number of samples held.
#[verifier::external_body]
fn ring_count(r: &rb::SpscRb<i16>) -> (n: usize)
    ensures
        n == ring_samples(*r).len(),
{
    r.count()
}

/// Relies on `RbProducer::write` of a producer of the ring: empty input
/// writes nothing; a full ring refuses; otherwise as many leading samples as
/// there are free slots are appended.
#[verifier::external_body]
fn ring_write(r: &mut rb::SpscRb<i16>, data: &[i16]) -> (res: Result<usize, rb::RbError>)
    ensures
        ring_capacity(*final(r)) == ring_capacity(*old(r)),
        res is Err <==> (data@.len() > 0 && ring_samples(*old(r)).len() >= ring_capacity(*old(r))),
        res is Err ==> ring_samples(*final(r)) == ring_samples(*old(r)),
        res matches Ok(n) ==> n == free_take(
            ring_samples(*old(r)).len(),
            ring_capacity(*old(r)),
            data@.len(),
        ) && ring_samples(*final(r)) == ring_samples(*old(r)) + data@.take(n as int),
{
    r.producer().write(data)
}

/// Relies on `RbConsumer::read` of a consumer of the ring: an empty output
/// reads nothing; an empty ring refuses; otherwise the oldest samples, as
/// many as fit, are moved into the front of `out`.
#[verifier::external_body]
fn ring_read(r: &mut rb::SpscRb<i16>, out: &mut [i16]) -> (res: Result<usize, rb::RbError>)
    ensures
        ring_capacity(*final(r)) == ring_capacity(*old(r)),
        final(out)@.len() == old(out)@.len(),
        res is Err <==> (old(out)@.len() > 0 && ring_samples(*old(r)).len() == 0),
        res is Err ==> ring_samples(*final(r)) == ring_samples(*old(r)) && final(out)@ == old(
            out,
        )@,
        res matches Ok(n) ==> n == min_nat(old(out)@.len(), ring_samples(*old(r)).len())
            && final(out)@ == ring_samples(*old(r)).take(n as int) + old(out)@.skip(n as int)
            && ring_samples(*final(r)) == ring_samples(*old(r)).skip(n as int),
{
    r.consumer().read(out)
}

/// Relies on `RB::producer` of `rb::SpscRb`: a write handle on the ring.
#[verifier::external_body]
fn ring_producer(r: &rb::SpscRb<i16>) -> (p: rb::Producer<i16>) {
    r.producer()
}

/// Relies on `RB::consumer` of `rb::SpscRb`: a read handle on the ring.
#[verifier::external_body]
fn ring_consumer(r: &rb::SpscRb<i16>) -> (c: rb::Consumer<i16>) {
    r.consumer()
}

/// Relies on `RbProducer::write` of `rb::Producer`: while the consumer runs
/// on another thread, only that empty input writes nothing and that no more
/// than the input is taken.
#[verifier::external_body]
fn producer_write(p: &rb::Producer<i16>, data: &[i16]) -> (res: Result<usize, rb::RbError>)
    ensures
        data@.len() == 0 ==> res is Ok,
        res matches Ok(n) ==> n <= data@.len() && (data@.len() == 0 ==> n == 0),
{
    p.write(data)
}

/// Relies on `RbConsumer::read` of `rb::Consumer`: while the producer runs on
/// another thread, only that at most `out.len()` samples are read into the
/// front of `out` and the rest of `out` is left as it was.
#[verifier::external_body]
fn consumer_read(c: &rb::Consumer<i16>, out: &mut [i16]) -> (res: Result<usize, rb::RbError>)
    ensures
        final(out)@.len() == old(out)@.len(),
        res is Err ==> final(out)@ == old(out)@,
        res matches Ok(n) ==> n <= old(out)@.len() && final(out)@.skip(n as int) == old(
            out,
        )@.skip(n as int),
{
    c.read(out)
}

pub open spec fn min_nat(a: nat, b: nat) -> nat {
    if a <= b {
        a
    } else {
        b
    }
}

/// How many of `avail` samples one write takes into a queue holding `held`
/// of `cap`.
pub open spec fn free_take(held: nat, cap: nat, avail: nat) -> nat {
    if held >= cap {
        0
    } else {
        min_nat(avail, (cap - held) as nat)
    }
}

/// The queue after one write of `data`: the samples that fit are appended,
/// the rest are not.
pub open spec fn after_write(held: Seq<i16>, cap: nat, data: Seq<i16>) -> Seq<i16> {
    held + data.take(free_take(held.len(), cap, data.len()) as int)
}

/// The queue after a read of up to `want` samples.
pub open spec fn after_read(held: Seq<i16>, want: nat) -> Seq<i16> {
    held.skip(min_nat(want, held.len()) as int)
}

/// What a read of up to `want` samples hands out.
pub open spec fn read_out(held: Seq<i16>, want: nat) -> Seq<i16> {
    held.take(min_nat(want, held.len()) as int)
}

/// A playback block after a read: the samples read, then silence.
pub open spec fn padded_block(got: Seq<i16>, len: nat) -> Seq<i16> {
    got + Seq::new((len - got.len()) as nat, |_i: int| 0i16)
}


/// Write policy of a session, chosen once at its start.
#[derive(Debug, Clone, Copy, PartialEq, Eq, Structural)]
pub enum PushPolicy {
    /// Write the unwritten tail again until the whole frame is queued.
    BlockingRetry,
    /// Write once; what does not fit is dropped.
    BestEffort,
}

/// What the producer does after one write attempt.
#[derive(Debug, Clone, Copy, PartialEq, Eq, Structural)]
pub enum PushStep {
    /// The frame is finished with.
    Done,
    /// Yield, then write again from this offset of the frame.
    Retry(usize),
}

/// Decides what follows a write attempt that started at `offset` of a frame
/// of `len` samples and queued `written` of them.
pub fn next_push_step(policy: PushPolicy, offset: usize, written: usize, len: usize) -> (r:
    PushStep)
    requires
        offset <= len,
        written <= len - offset,
    ensures
        r == (match policy {
            PushPolicy::BestEffort => PushStep::Done,
            PushPolicy::BlockingRetry => if offset + written == len {
                PushStep::Done
            } else {
                PushStep::Retry((offset + written) as usize)
            },
        }),
{
    match policy {
        PushPolicy::BestEffort => PushStep::Done,
        PushPolicy::BlockingRetry => {
            let next = offset + written;
            if next == len {
                PushStep::Done
            } else {
                PushStep::Retry(next)
            }
        },
    }
}

/// Sets `out[from..]` to silence and leaves `out[..from]` as it was.
pub fn pad_silence(out: &mut [i16], from: usize)
    requires
        from <= old(out)@.len(),
    ensures
        final(out)@ == old(out)@.take(from as int) + Seq::new(
            (old(out)@.len() - from) as nat,
            |_i: int| 0i16,
        ),
{
    let n = out.len();
    let mut i: usize = from;
    while i < n
        invariant
            from <= i <= n,
            n == old(out)@.len(),
            out@.len() == n,
            out@.take(from as int) == old(out)@.take(from as int),
            forall|k: int| from <= k < i ==> out@[k] == 0i16,
        decreases n - i,
    {
        out[i] = 0;
        i = i + 1;
    }
    assert(out@ =~= old(out)@.take(from as int) + Seq::new((n - from) as nat, |_i: int| 0i16));
}

/// A bridge owned by one thread: the queue and its contents are known
/// exactly.
pub struct SampleBridge {
    ring: rb::SpscRb<i16>,
}

impl View for SampleBridge {
    type V = Seq<i16>;

    closed spec fn view(&self) -> Seq<i16> {
        ring_samples(self.ring)
    }
}

impl SampleBridge {
    /// The number of samples the bridge can hold.
    pub closed spec fn spec_capacity(&self) -> nat {
        ring_capacity(self.ring)
    }

    pub closed spec fn wf(&self) -> bool {
        ring_samples(self.ring).len() <= ring_capacity(self.ring)
    }

    /// An empty bridge for `capacity` samples.
    pub fn new(capacity: usize) -> (r: SampleBridge)
        requires
            capacity < usize::MAX,
        ensures
            r.wf(),
            r@ == Seq::<i16>::empty(),
            r.spec_capacity() == capacity,
    {
        SampleBridge { ring: ring_new(capacity) }
    }

    /// The number of samples held.
    pub fn len(&self) -> (r: usize)
        ensures
            r == self@.len(),
    {
        ring_count(&self.ring)
    }

    /// One write of `data`: the samples that fit are queued, the rest are
    /// dropped. Returns how many were queued.
    pub fn push(&mut self, data: &[i16]) -> (r: usize)
        requires
            old(self).wf(),
        ensures
            final(self).wf(),
            final(self).spec_capacity() == old(self).spec_capacity(),
            r == free_take(old(self)@.len(), old(self).spec_capacity(), data@.len()),
            final(self)@ == after_write(old(self)@, old(self).spec_capacity(), data@),
    {
        match ring_write(&mut self.ring, data) {
            Ok(n) => n,
            Err(_) => 0,
        }
    }

    /// One write attempt of the tail `data[offset..]` of a frame. Returns the
    /// offset of what is still unwritten.
    pub fn push_from(&mut self, data: &[i16], offset: usize) -> (r: usize)
        requires
            old(self).wf(),
            offset <= data@.len(),
        ensures
            final(self).wf(),
            final(self).spec_capacity() == old(self).spec_capacity(),
            r == offset + free_take(
                old(self)@.len(),
                old(self).spec_capacity(),
                (data@.len() - offset) as nat,
            ),
            final(self)@ == after_write(old(self)@, old(self).spec_capacity(), data@.skip(offset as int)),
    {
        let total = data.len();
        let tail = slice_from(data, offset);
        let n = self.push(tail);
        assert(n <= total - offset);
        offset + n
    }

    /// Reads up to `out.len()` of the oldest samples into the front of `out`.
    /// Never fails: an empty bridge reads nothing. Returns how many were read.
    pub fn pop(&mut self, out: &mut [i16]) -> (r: usize)
        requires
            old(self).wf(),
        ensures
            final(self).wf(),
            final(self).spec_capacity() == old(self).spec_capacity(),
            r == min_nat(old(out)@.len(), old(self)@.len()),
            final(out)@ == read_out(old(self)@, old(out)@.len()) + old(out)@.skip(r as int),
            final(self)@ == after_read(old(self)@, old(out)@.len()),
    {
        match ring_read(&mut self.ring, out) {
            Ok(n) => n,
            Err(_) => {
                assert(old(self)@.len() == 0);
                assert(old(self)@.take(0) =~= Seq::<i16>::empty());
                assert(old(self)@.skip(0) =~= old(self)@);
                assert(old(out)@.skip(0) =~= old(out)@);
                0
            },
        }
    }

    /// The playback pull: fills the whole of `out` with the oldest samples,
    /// then silence where the bridge ran short. Returns how many samples came
    /// from the bridge.
    pub fn fill_block(&mut self, out: &mut [i16]) -> (r: usize)
        requires
            old(self).wf(),
        ensures
            final(self).wf(),
            final(self).spec_capacity() == old(self).spec_capacity(),
            r == min_nat(old(out)@.len(), old(self)@.len()),
            final(out)@ == padded_block(read_out(old(self)@, old(out)@.len()), old(out)@.len()),
            final(self)@ == after_read(old(self)@, old(out)@.len()),
    {
        let n = self.pop(out);
        pad_silence(out, n);
        assert(out@.take(n as int) =~= read_out(old(self)@, old(out)@.len()));
        n
    }

    /// Splits the bridge into its two ends, one for each thread.
    pub fn into_ends(self) -> (r: (BridgeWriter, BridgeReader)) {
        let p = ring_producer(&self.ring);
        let c = ring_consumer(&self.ring);
        (BridgeWriter { producer: p }, BridgeReader { consumer: c })
    }
}

/// The suffix of `data` from `offset`.
fn slice_from(data: &[i16], offset: usize) -> (r: &[i16])
    requires
        offset <= data@.len(),
    ensures
        r@ == data@.skip(offset as int),
{
    let (_, tail) = data.split_at(offset);
    tail
}

/// The producer end of a bridge whose consumer runs on another thread.
pub struct BridgeWriter {
    producer: rb::Producer<i16>,
}

impl BridgeWriter {
    /// One write attempt of `data[offset..]`. Returns the offset of what is
    /// still unwritten: no less than `offset`, no more than the frame.
    pub fn push_from(&self, data: &[i16], offset: usize) -> (r: usize)
        requires
            offset <= data@.len(),
        ensures
            offset <= r <= data@.len(),
    {
        let total = data.len();
        let tail = slice_from(data, offset);
        match producer_write(&self.producer, tail) {
            Ok(n) => offset + n,
            Err(_) => offset,
        }
    }
}

/// The consumer end of a bridge, held by the playback callback.
pub struct BridgeReader {
    consumer: rb::Consumer<i16>,
}

impl BridgeReader {
    /// The playback pull: reads what is available into the front of `out`
    /// and sets the rest of `out` to silence. Never blocks, never fails.
    /// Returns how many samples came from the bridge.
    pub fn fill_block(&self, out: &mut [i16]) -> (r: usize)
        ensures
            r <= old(out)@.len(),
            final(out)@.len() == old(out)@.len(),
            forall|k: int| r <= k < final(out)@.len() ==> final(out)@[k] == 0i16,
    {
        let n = match consumer_read(&self.consumer, out) {
            Ok(n) => n,
            Err(_) => 0,
        };
        pad_silence(out, n);
        n
    }
}


/// One operation on a bridge, as the two ends see it.
pub enum BridgeOp {
    /// The producer hands over a decoded frame.
    Push(Seq<i16>),
    /// The consumer asks for up to this many samples.
    Pop(nat),
    /// The producer writes its unwritten tail again.
    Retry,
}

/// The frames pushed by a run of operations, in order.
pub open spec fn pushed_frames(ops: Seq<BridgeOp>) -> Seq<Seq<i16>>
    decreases ops.len(),
{
    if ops.len() == 0 {
        Seq::empty()
    } else {
        let before = pushed_frames(ops.drop_last());
        match ops.last() {
            BridgeOp::Push(d) => before.push(d),
            _ => before,
        }
    }
}

/// A run under the best-effort policy, from an empty bridge of `cap`
/// samples: what the consumer got, what the bridge holds, and the part of
/// each pushed frame that was queued.
pub open spec fn best_effort_run(ops: Seq<BridgeOp>, cap: nat) -> (Seq<i16>, Seq<i16>, Seq<
    Seq<i16>,
>)
    decreases ops.len(),
{
    if ops.len() == 0 {
        (Seq::empty(), Seq::empty(), Seq::empty())
    } else {
        let (popped, held, kept) = best_effort_run(ops.drop_last(), cap);
        match ops.last() {
            BridgeOp::Push(d) => (
                popped,
                after_write(held, cap, d),
                kept.push(d.take(free_take(held.len(), cap, d.len()) as int)),
            ),
            BridgeOp::Pop(m) => (popped + read_out(held, m), after_read(held, m), kept),
            BridgeOp::Retry => (popped, held, kept),
        }
    }
}

/// A run under the blocking-retry policy, from an empty bridge of `cap`
/// samples: what the consumer got, what the bridge holds, and what the
/// producer has still to write. A push or a retry makes one write attempt of
/// everything unwritten.
pub open spec fn retry_run(ops: Seq<BridgeOp>, cap: nat) -> (Seq<i16>, Seq<i16>, Seq<i16>)
    decreases ops.len(),
{
    if ops.len() == 0 {
        (Seq::empty(), Seq::empty(), Seq::empty())
    } else {
        let (popped, held, pending) = retry_run(ops.drop_last(), cap);
        match ops.last() {
            BridgeOp::Push(d) => {
                let tail = pending + d;
                (
                    popped,
                    after_write(held, cap, tail),
                    tail.skip(free_take(held.len(), cap, tail.len()) as int),
                )
            },
            BridgeOp::Pop(m) => (popped + read_out(held, m), after_read(held, m), pending),
            BridgeOp::Retry => (
                popped,
                after_write(held, cap, pending),
                pending.skip(free_take(held.len(), cap, pending.len()) as int),
            ),
        }
    }
}

/// Under blocking retry nothing is lost, duplicated or reordered: what the
/// consumer got, then what the bridge holds, then what the producer has
/// still to write, is exactly every pushed sample in order. Once the bridge
/// and the producer are drained, the consumer has seen exactly the pushed
/// samples.
pub proof fn lemma_retry_preserves_stream(ops: Seq<BridgeOp>, cap: nat)
    ensures
        ({
            let (popped, held, pending) = retry_run(ops, cap);
            &&& popped + held + pending == pushed_frames(ops).flatten_alt()
            &&& held.len() <= cap
            &&& (held.len() == 0 && pending.len() == 0 ==> popped == pushed_frames(
                ops,
            ).flatten_alt())
        }),
    decreases ops.len(),
{
    if ops.len() == 0 {
        assert(Seq::<i16>::empty() + Seq::<i16>::empty() + Seq::<i16>::empty() =~= Seq::<
            i16,
        >::empty());
    } else {
        let prev = ops.drop_last();
        lemma_retry_preserves_stream(prev, cap);
        let (popped, held, pending) = retry_run(prev, cap);
        let frames = pushed_frames(prev);
        match ops.last() {
            BridgeOp::Push(d) => {
                let tail = pending + d;
                let k = free_take(held.len(), cap, tail.len()) as int;
                assert(frames.push(d).drop_last() =~= frames);
                assert(popped + (held + tail.take(k)) + tail.skip(k) =~= popped + held + pending
                    + d);
            },
            BridgeOp::Pop(m) => {
                let n = min_nat(m, held.len()) as int;
                assert(popped + held.take(n) + held.skip(n) + pending =~= popped + held
                    + pending);
            },
            BridgeOp::Retry => {
                let k = free_take(held.len(), cap, pending.len()) as int;
                assert(popped + (held + pending.take(k)) + pending.skip(k) =~= popped + held
                    + pending);
            },
        }
        let (popped2, held2, pending2) = retry_run(ops, cap);
        if held2.len() == 0 && pending2.len() == 0 {
            assert(popped2 + held2 + pending2 =~= popped2);
        }
    }
}

/// Under best effort nothing is reordered or duplicated, but a frame may be
/// cut short: each pushed frame contributes a prefix of itself, and what the
/// consumer got, then what the bridge holds, is exactly those prefixes in
/// order.
pub proof fn lemma_best_effort_keeps_prefixes(ops: Seq<BridgeOp>, cap: nat)
    ensures
        ({
            let (popped, held, kept) = best_effort_run(ops, cap);
            let frames = pushed_frames(ops);
            &&& popped + held == kept.flatten_alt()
            &&& held.len() <= cap
            &&& kept.len() == frames.len()
            &&& forall|i: int|
                0 <= i < kept.len() ==> kept[i].len() <= frames[i].len() && #[trigger] kept[i]
                    == frames[i].take(kept[i].len() as int)
        }),
    decreases ops.len(),
{
    if ops.len() == 0 {
        assert(Seq::<i16>::empty() + Seq::<i16>::empty() =~= Seq::<i16>::empty());
    } else {
        let prev = ops.drop_last();
        lemma_best_effort_keeps_prefixes(prev, cap);
        let (popped, held, kept) = best_effort_run(prev, cap);
        let frames = pushed_frames(prev);
        match ops.last() {
            BridgeOp::Push(d) => {
                let k = free_take(held.len(), cap, d.len()) as int;
                let kept2 = kept.push(d.take(k));
                assert(kept2.drop_last() =~= kept);
                assert(popped + (held + d.take(k)) =~= popped + held + d.take(k));
                let frames2 = frames.push(d);
                assert forall|i: int| 0 <= i < kept2.len() implies kept2[i].len()
                    <= frames2[i].len() && #[trigger] kept2[i] == frames2[i].take(
                    kept2[i].len() as int,
                ) by {
                    if i == kept.len() {
                        assert(d.take(k).take(k) =~= d.take(k));
                    }
                }
            },
            BridgeOp::Pop(m) => {
                let n = min_nat(m, held.len()) as int;
                assert(popped + held.take(n) + held.skip(n) =~= popped + held);
            },
            BridgeOp::Retry => {},
        }
    }
}


/// On underrun the block is the samples that were held, then silence up to
/// its full length.
pub proof fn lemma_underrun_pads_silence(held: Seq<i16>, want: nat)
    requires
        held.len() < want,
    ensures
        ({
            let b = padded_block(read_out(held, want), want);
            &&& b.len() == want
            &&& b.take(held.len() as int) == held
            &&& forall|k: int| held.len() <= k < want ==> #[trigger] b[k] == 0i16
        }),
{
    let b = padded_block(read_out(held, want), want);
    assert(read_out(held, want) =~= held);
    assert(b.take(held.len() as int) =~= held);
}

} // verus!
