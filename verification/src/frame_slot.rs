//! The single shared cell through which the capture worker hands the most
//! recent frame to the consumer. No queueing: a new frame overwrites the
//! old one wholesale, and a frame is delivered at most once.

use vstd::prelude::*;

verus! {

/// Mathematical model of a [`FrameSlot`]: the stored bytes and whether the
/// consumer has already read exactly this content.
pub struct SlotModel {
    pub data: Seq<u8>,
    pub consumed: bool,
}

/// What `publish` does to the model: the stored bytes are replaced wholesale
/// and the content counts as not yet consumed.
pub open spec fn publish_m(m: SlotModel, frame: Seq<u8>) -> SlotModel {
    SlotModel { data: frame, consumed: false }
}

/// What `take_if_fresh` does to the model: on fresh content it marks the
/// content consumed and yields the bytes; otherwise it yields nothing and
/// leaves the model unchanged.
pub open spec fn take_m(m: SlotModel) -> (SlotModel, Option<Seq<u8>>) {
    if m.consumed {
        (m, None)
    } else {
        (SlotModel { data: m.data, consumed: true }, Some(m.data))
    }
}

/// A single cell holding the most recent captured frame plus a consumed
/// flag. Intended to be shared (under a mutex, outside this library)
/// between exactly one writer and one reader.
pub struct FrameSlot {
    data: Vec<u8>,
    consumed: bool,
}

impl View for FrameSlot {
    type V = SlotModel;

    closed spec fn view(&self) -> SlotModel {
        SlotModel { data: self.data@, consumed: self.consumed }
    }
}

/// Copies the bytes of a slice into a fresh vector.
fn copy_bytes(src: &[u8]) -> (r: Vec<u8>)
    ensures
        r@ == src@,
{
    let mut out: Vec<u8> = Vec::new();
    let mut i: usize = 0;
    while i < src.len()
        invariant
            i <= src.len(),
            out@ == src@.take(i as int),
        decreases src.len() - i,
    {
        out.push(src[i]);
        i = i + 1;
        proof {
            assert(out@ =~= src@.take(i as int));
        }
    }
    proof {
        assert(out@ =~= src@);
    }
    out
}

impl FrameSlot {
    /// An empty slot whose (empty) content has not been consumed yet, so the
    /// very first read yields the empty frame.
    pub fn new() -> (s: FrameSlot)
        ensures
            s@ == (SlotModel { data: Seq::<u8>::empty(), consumed: false }),
    {
        FrameSlot { data: Vec::new(), consumed: false }
    }

    /// Replaces the stored bytes wholesale and marks the content fresh.
    /// Called only by the active capture worker; a frame that the consumer
    /// never read is silently overwritten (freshness over completeness).
    pub fn publish(&mut self, frame: &[u8])
        ensures
            final(self)@ == publish_m(old(self)@, frame@),
    {
        self.data = copy_bytes(frame);
        self.consumed = false;
    }

    /// If the content is fresh, marks it consumed and returns a copy of the
    /// bytes; otherwise returns nothing and changes nothing. Called only by
    /// the consumer.
    pub fn take_if_fresh(&mut self) -> (r: Option<Vec<u8>>)
        ensures
            final(self)@ == take_m(old(self)@).0,
            r is Some <==> take_m(old(self)@).1 is Some,
            r matches Some(v) ==> take_m(old(self)@).1 == Some(v@),
    {
        if self.consumed {
            None
        } else {
            self.consumed = true;
            Some(copy_bytes(self.data.as_slice()))
        }
    }
}

/// One operation on the slot, as seen in a trace: the worker publishing a
/// frame, or the consumer attempting a read.
pub enum SlotOp {
    Publish(Seq<u8>),
    Take,
}

/// The model after one operation.
pub open spec fn apply_op(m: SlotModel, op: SlotOp) -> SlotModel {
    match op {
        SlotOp::Publish(f) => publish_m(m, f),
        SlotOp::Take => take_m(m).0,
    }
}

/// The model after a whole trace of operations, applied left to right.
pub open spec fn model_after(m: SlotModel, ops: Seq<SlotOp>) -> SlotModel
    decreases ops.len(),
{
    if ops.len() == 0 {
        m
    } else {
        apply_op(model_after(m, ops.drop_last()), ops.last())
    }
}

/// The bytes of the last frame published in the trace, or the initial bytes
/// if the trace publishes nothing.
pub open spec fn last_published(m: SlotModel, ops: Seq<SlotOp>) -> Seq<u8>
    decreases ops.len(),
{
    if ops.len() == 0 {
        m.data
    } else {
        match ops.last() {
            SlotOp::Publish(f) => f,
            SlotOp::Take => last_published(m, ops.drop_last()),
        }
    }
}

/// Whether a trace contains no publish at all.
pub open spec fn no_publish(ops: Seq<SlotOp>) -> bool {
    forall|i: int| 0 <= i < ops.len() ==> ops[i] !is Publish
}

/// No time-travel: after any trace of publishes and reads, the slot holds
/// exactly the bytes of the last frame published before this point (or the
/// initial bytes), so a read that yields a frame yields exactly that one —
/// never anything older.
pub proof fn lemma_reader_sees_latest(m: SlotModel, ops: Seq<SlotOp>)
    ensures
        model_after(m, ops).data == last_published(m, ops),
        take_m(model_after(m, ops)).1 matches Some(f) ==> f == last_published(m, ops),
    decreases ops.len(),
{
    if ops.len() > 0 {
        lemma_reader_sees_latest(m, ops.drop_last());
    }
}

/// No duplicate delivery: once a read has yielded a frame, further reads
/// yield nothing until the next publish, however many reads stand in
/// between.
pub proof fn lemma_no_duplicate_delivery(m: SlotModel, ops: Seq<SlotOp>)
    requires
        take_m(m).1 is Some,
        no_publish(ops),
    ensures
        take_m(model_after(take_m(m).0, ops)).1 is None,
    decreases ops.len(),
{
    let m1 = take_m(m).0;
    if ops.len() > 0 {
        assert(no_publish(ops.drop_last())) by {
            assert(forall|i: int|
                0 <= i < ops.drop_last().len() ==> ops.drop_last()[i] == ops[i]);
        }
        lemma_no_duplicate_delivery(m, ops.drop_last());
    }
}

/// Single-consume round trip: publishing a frame makes exactly one read
/// yield exactly that frame, and the read right after it yields nothing.
pub proof fn lemma_publish_take_roundtrip(m: SlotModel, f: Seq<u8>)
    ensures
        take_m(publish_m(m, f)).1 == Some(f),
        take_m(take_m(publish_m(m, f)).0).1 is None,
{
}

} // verus!
