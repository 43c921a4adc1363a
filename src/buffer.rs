//! The event buffer: records pending a flush, appended one at a time and
//! drained all at once.

use vstd::prelude::*;

use crate::record::LogEntryRequest;

verus! {

/// Records pending a flush, in the order they were appended.
#[derive(Debug)]
pub struct EventBuffer {
    records: Vec<LogEntryRequest>,
}

impl View for EventBuffer {
    type V = Seq<LogEntryRequest>;

    closed spec fn view(&self) -> Seq<LogEntryRequest> {
        self.records@
    }
}

impl EventBuffer {
    /// An empty buffer.
    pub fn new() -> (r: EventBuffer)
        ensures
            r@ == Seq::<LogEntryRequest>::empty(),
    {
        EventBuffer { records: Vec::new() }
    }

    /// Number of pending records.
    pub fn len(&self) -> (r: usize)
        ensures
            r == self@.len(),
    {
        self.records.len()
    }

    /// Adds a record at the end.
    pub fn append(&mut self, record: LogEntryRequest)
        ensures
            final(self)@ == old(self)@.push(record),
    {
        self.records.push(record);
    }

    /// Removes and returns every pending record, in insertion order.
    pub fn drain(&mut self) -> (r: Vec<LogEntryRequest>)
        ensures
            r@ == old(self)@,
            final(self)@ == Seq::<LogEntryRequest>::empty(),
    {
        let mut out: Vec<LogEntryRequest> = Vec::new();
        std::mem::swap(&mut self.records, &mut out);
        out
    }
}

/// One operation on a buffer, in the order the buffer's lock admitted it.
pub ghost enum BufferOp<T> {
    Append(T),
    Drain,
}

/// The buffer contents after `ops`, and everything the drains among them
/// returned, concatenated. Each step is what [`EventBuffer::append`] and
/// [`EventBuffer::drain`] ensure, and so what `FreeLogLayer::append`,
/// `FreeLogLayer::on_event` (for a recorded event) and `FreeLogLayer::drain`
/// ensure of the dispatcher's buffer.
pub open spec fn run<T>(buffer: Seq<T>, ops: Seq<BufferOp<T>>) -> (Seq<T>, Seq<T>)
    decreases ops.len(),
{
    if ops.len() == 0 {
        (buffer, Seq::empty())
    } else {
        let (held, drained) = run(buffer, ops.drop_last());
        match ops.last() {
            BufferOp::Append(x) => (held.push(x), drained),
            BufferOp::Drain => (Seq::empty(), drained + held),
        }
    }
}

/// The records appended by `ops`, in order.
pub open spec fn appended<T>(ops: Seq<BufferOp<T>>) -> Seq<T>
    decreases ops.len(),
{
    if ops.len() == 0 {
        Seq::empty()
    } else {
        match ops.last() {
            BufferOp::Append(x) => appended(ops.drop_last()).push(x),
            BufferOp::Drain => appended(ops.drop_last()),
        }
    }
}

/// Draining is atomic: however appends and drains interleave, every record
/// ends up exactly once in either what the drains returned or what the
/// buffer still holds, and in the order it was appended.
pub proof fn lemma_drain_atomic<T>(buffer: Seq<T>, ops: Seq<BufferOp<T>>)
    ensures
        run(buffer, ops).1 + run(buffer, ops).0 == buffer + appended(ops),
    decreases ops.len(),
{
    if ops.len() > 0 {
        lemma_drain_atomic(buffer, ops.drop_last());
        let (held, drained) = run(buffer, ops.drop_last());
        match ops.last() {
            BufferOp::Append(x) => {
                assert(drained + held.push(x) =~= (drained + held).push(x));
                assert(buffer + appended(ops.drop_last()).push(x) =~= (buffer + appended(
                    ops.drop_last(),
                )).push(x));
            },
            BufferOp::Drain => {
                assert(drained + held + Seq::<T>::empty() =~= drained + held);
            },
        }
    } else {
        assert(buffer + Seq::<T>::empty() =~= buffer);
        assert(Seq::<T>::empty() + buffer =~= buffer);
    }
}

} // verus!
