//! The single-producer, single-consumer ring of `doom_fish_utils` that
//! records travel through, and the receipts that show a record went in.
//!
//! A `PushReceipt` can only be made here, by pushing its record into a
//! ring; a `ListReceipt` only by collecting such receipts in order.
use vstd::prelude::*;
use doom_fish_utils::spsc::{SpscConsumer, SpscProducer, SpscRing};
use super::{MidiEventRecord, MAX_RECEIVER_CAPACITY};

verus! {

#[verifier::external_type_specification]
#[verifier::external_body]
#[verifier::reject_recursive_types(T)]
pub struct ExSpscProducer<T, const N: usize>(SpscProducer<T, N>);

#[verifier::external_type_specification]
#[verifier::external_body]
#[verifier::reject_recursive_types(T)]
pub struct ExSpscConsumer<T, const N: usize>(SpscConsumer<T, N>);

/// The number of slots a ring was made with (its consumer side).
pub uninterp spec fn ring_capacity(consumer: SpscConsumer<MidiEventRecord, 65536>) -> nat;

/// Makes a ring with `capacity` slots (`SpscRing::with_capacity`, which
/// panics outside `1..=65536`).
#[verifier::external_body]
pub(crate) fn ring_with_capacity(capacity: usize) -> (r: (
    SpscProducer<MidiEventRecord, 65536>,
    SpscConsumer<MidiEventRecord, 65536>,
))
    requires
        0 < capacity <= MAX_RECEIVER_CAPACITY,
    ensures
        ring_capacity(r.1) == capacity,
{
    SpscRing::<MidiEventRecord, 65536>::with_capacity(capacity)
}

/// Pushes a record, displacing the oldest one when the ring is full
/// (`SpscProducer::push_overwrite`); reports whether one was displaced, and
/// returns a receipt for the record it pushed into this ring. Whether a record is displaced
/// depends on what the consumer thread has taken, so nothing is promised of
/// it.
#[verifier::external_body]
pub(crate) fn ring_push_overwrite(
    producer: &SpscProducer<MidiEventRecord, 65536>,
    record: MidiEventRecord,
) -> (r: (bool, PushReceipt))
    ensures
        r.1.spec_record() == record,
        r.1.spec_ring() == *producer,
{
    let displaced = producer.push_overwrite(record).is_some();
    (displaced, PushReceipt { record, ring: Ghost(*producer) })
}

/// Takes the oldest buffered record, if any (`SpscConsumer::pop`). What it
/// returns depends on what the producer thread has pushed.
#[verifier::external_body]
pub(crate) fn ring_pop(consumer: &SpscConsumer<MidiEventRecord, 65536>) -> (r: Option<MidiEventRecord>)
{
    consumer.pop()
}

/// The number of buffered records (`SpscConsumer::buffered_count`), which
/// changes as the producer thread pushes; the ring's read and write slots
/// never lie more than its slot count apart.
#[verifier::external_body]
pub(crate) fn ring_buffered_count(consumer: &SpscConsumer<MidiEventRecord, 65536>) -> (r: usize)
    ensures
        r <= ring_capacity(*consumer),
{
    consumer.buffered_count()
}

/// The ring's slot count (`SpscConsumer::capacity`, the length of the slots
/// it was made with).
#[verifier::external_body]
pub(crate) fn ring_capacity_of(consumer: &SpscConsumer<MidiEventRecord, 65536>) -> (r: usize)
    ensures
        r == ring_capacity(*consumer),
{
    consumer.capacity()
}

/// Whether the producer side is gone (`SpscConsumer::is_closed`).
#[verifier::external_body]
pub(crate) fn ring_is_closed(consumer: &SpscConsumer<MidiEventRecord, 65536>) -> (r: bool)
{
    consumer.is_closed()
}

/// Shows that a record was pushed into a ring.
pub struct PushReceipt {
    record: MidiEventRecord,
    ring: Ghost<SpscProducer<MidiEventRecord, 65536>>,
}

impl PushReceipt {
    /// The record that was pushed.
    pub closed spec fn spec_record(&self) -> MidiEventRecord {
        self.record
    }

    /// The producer side of the ring it was pushed into.
    pub closed spec fn spec_ring(&self) -> SpscProducer<MidiEventRecord, 65536> {
        self.ring@
    }
}

/// Shows that records were pushed into one ring, in this order.
pub struct ListReceipt {
    records: Ghost<Seq<MidiEventRecord>>,
    ring: Ghost<SpscProducer<MidiEventRecord, 65536>>,
}

impl ListReceipt {
    /// The records that were pushed, oldest first.
    pub closed spec fn spec_records(&self) -> Seq<MidiEventRecord> {
        self.records@
    }

    /// The producer side of the ring they were pushed into.
    pub closed spec fn spec_ring(&self) -> SpscProducer<MidiEventRecord, 65536> {
        self.ring@
    }

    /// A receipt for no pushes yet into the ring of `producer`.
    pub fn empty(producer: &SpscProducer<MidiEventRecord, 65536>) -> (r: Self)
        ensures
            r.spec_records() == Seq::<MidiEventRecord>::empty(),
            r.spec_ring() == *producer,
    {
        ListReceipt { records: Ghost(Seq::empty()), ring: Ghost(*producer) }
    }

    /// Adds the receipt of the next push into the same ring.
    pub fn extend(self, pushed: PushReceipt) -> (r: Self)
        requires
            pushed.spec_ring() == self.spec_ring(),
        ensures
            r.spec_records() == self.spec_records().push(pushed.spec_record()),
            r.spec_ring() == self.spec_ring(),
    {
        ListReceipt { records: Ghost(self.records@.push(pushed.record)), ring: self.ring }
    }
}

} // verus!
