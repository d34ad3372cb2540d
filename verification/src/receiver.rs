//! Receive-side records and the ring they are delivered through.
//!
//! Each event packet that arrives is copied into a fixed-size
//! `MidiEventRecord` and pushed into a preallocated single-producer,
//! single-consumer ring of `doom_fish_utils`; when the ring is full the
//! oldest record is overwritten and counted as dropped.
use vstd::prelude::*;
use vstd::string::StringExecFns;
use std::sync::Arc;
use std::sync::atomic::{AtomicU64, Ordering};
use doom_fish_utils::spsc::{SpscConsumer, SpscProducer};
use crate::endpoint::MidiEndpoint;
use crate::error::{MidiError, MidiResult};
use crate::packet::events::EventPacketModel;
use crate::packet::EventListRef;
use crate::packet::ump::{MidiMessageType, MidiProtocol};

pub mod ring;

use ring::{
    ring_buffered_count, ring_capacity, ring_capacity_of, ring_is_closed, ring_pop, ring_push_overwrite,
    ring_with_capacity, ListReceipt, PushReceipt,
};

verus! {

/// The most UMP words a record keeps.
pub const MAX_EVENT_WORDS: usize = 64;
/// The largest ring a receiver can have.
pub const MAX_RECEIVER_CAPACITY: usize = 65536;

/// One received event packet: timestamp, protocol, source endpoint and up
/// to 64 UMP words.
#[derive(Debug, Clone, Copy, PartialEq, Eq, Hash)]
pub struct MidiEventRecord {
    timestamp: u64,
    protocol: i32,
    source: u32,
    word_count: u8,
    words: [u32; 64],
}

impl MidiEventRecord {
    /// The record's timestamp.
    pub closed spec fn spec_timestamp(&self) -> u64 {
        self.timestamp
    }

    /// The raw protocol ID of the event list the packet came in.
    pub closed spec fn spec_protocol_raw(&self) -> i32 {
        self.protocol
    }

    /// The raw source endpoint reference (0 when unknown).
    pub closed spec fn spec_source_raw(&self) -> u32 {
        self.source
    }

    /// The UMP words the record kept.
    pub closed spec fn spec_words(&self) -> Seq<u32> {
        self.words@.take(if self.word_count <= 64 { self.word_count as int } else { 64 })
    }

    /// Whether this is the record of a packet with these fields: the
    /// timestamp, protocol and source as given, the word count cut to 64,
    /// the first words of the packet and zeros after them.
    pub closed spec fn is_record_of(self, timestamp: u64, protocol: i32, source: u32, words: Seq<u32>) -> bool {
        let n = if words.len() < 64 { words.len() as int } else { 64 };
        &&& self.timestamp == timestamp
        &&& self.protocol == protocol
        &&& self.source == source
        &&& self.word_count as int == n
        &&& forall|j: int| 0 <= j < 64 ==> #[trigger] self.words@[j] == (if j < n { words[j] } else { 0u32 })
    }

    /// A packet has exactly one record.
    pub proof fn lemma_record_determined(
        a: Self,
        b: Self,
        timestamp: u64,
        protocol: i32,
        source: u32,
        words: Seq<u32>,
    )
        requires
            a.is_record_of(timestamp, protocol, source, words),
            b.is_record_of(timestamp, protocol, source, words),
        ensures
            a == b,
    {
        assert(a.words@ =~= b.words@);
        assert(a.words == b.words);
    }

    /// Copies an event packet: its words are cut to the first 64.
    pub fn from_event_words(timestamp: u64, protocol: i32, source: u32, words: &[u32]) -> (r: Self)
        ensures
            r.is_record_of(timestamp, protocol, source, words@),
            r.spec_timestamp() == timestamp,
            r.spec_protocol_raw() == protocol,
            r.spec_source_raw() == source,
            r.spec_words() == words@.take(
                if words@.len() < MAX_EVENT_WORDS { words@.len() as int } else { MAX_EVENT_WORDS as int },
            ),
    {
        let valid = if words.len() < MAX_EVENT_WORDS { words.len() } else { MAX_EVENT_WORDS };
        let mut buf = [0u32; 64];
        let mut i: usize = 0;
        while i < valid
            invariant
                valid <= 64,
                valid <= words@.len(),
                i <= valid,
                buf@.len() == 64,
                forall|j: int| 0 <= j < i ==> #[trigger] buf@[j] == words@[j],
                forall|j: int| i <= j < 64 ==> #[trigger] buf@[j] == 0u32,
            decreases valid - i,
        {
            buf[i] = words[i];
            i = i + 1;
        }
        let r = MidiEventRecord { timestamp, protocol, source, word_count: valid as u8, words: buf };
        assert(r.spec_words() =~= words@.take(valid as int));
        r
    }

    /// The record's timestamp.
    pub fn timestamp(&self) -> (r: u64)
        ensures
            r == self.spec_timestamp(),
    {
        self.timestamp
    }

    /// The protocol of the event list the packet came in, if known.
    pub fn protocol(&self) -> (r: Option<MidiProtocol>)
        ensures
            r == MidiProtocol::spec_from_raw(self.spec_protocol_raw()),
    {
        MidiProtocol::from_raw(self.protocol)
    }

    /// The source endpoint, or `None` for a virtual destination's records.
    pub fn source(&self) -> (r: Option<MidiEndpoint>)
        ensures
            self.spec_source_raw() == 0 ==> r is None,
            self.spec_source_raw() != 0 ==> r == Some(MidiEndpoint::spec_from_raw(self.spec_source_raw())),
    {
        if self.source == 0 {
            None
        } else {
            Some(MidiEndpoint::from_raw(self.source))
        }
    }

    /// The UMP words the record kept.
    pub fn words(&self) -> (r: &[u32])
        ensures
            r@ == self.spec_words(),
    {
        let n: usize = if self.word_count <= 64 { self.word_count as usize } else { 64 };
        let s = vstd::slice::slice_subrange(self.words.as_slice(), 0, n);
        assert(s@ =~= self.spec_words());
        s
    }

    /// The message type named by the first word, if there is one.
    pub fn message_type(&self) -> (r: Option<MidiMessageType>)
        ensures
            self.spec_words().len() == 0 ==> r is None,
            self.spec_words().len() > 0 ==> r == MidiMessageType::spec_from_up_word(self.spec_words()[0]),
    {
        if self.word_count == 0 {
            None
        } else {
            MidiMessageType::from_up_word(self.words[0])
        }
    }
}

/// The producer side: pushes records into the ring and counts those that
/// displaced an older record.
pub struct EventSink {
    producer: SpscProducer<MidiEventRecord, 65536>,
    dropped: Arc<AtomicU64>,
}

/// Whether `records` are the records of `packets`, one per packet and in
/// the same order, each with the list's protocol word and `source`.
pub open spec fn records_of_packets(
    records: Seq<MidiEventRecord>,
    packets: Seq<EventPacketModel>,
    protocol: i32,
    source: u32,
) -> bool {
    &&& records.len() == packets.len()
    &&& forall|i: int| 0 <= i < records.len()
        ==> #[trigger] records[i].is_record_of(packets[i].0, protocol, source, packets[i].1)
}

/// The records of an event list's packets, one per packet and in order,
/// each carrying the list's protocol word and `source`.
pub fn records_from_event_list(list: EventListRef, source: u32) -> (r: Vec<MidiEventRecord>)
    ensures
        records_of_packets(r@, list@, list.spec_protocol_raw(), source),
{
    let protocol = list.protocol_raw();
    let mut packets = list.iter();
    let mut records: Vec<MidiEventRecord> = Vec::new();
    loop
        invariant
            packets@ == list@.skip(records@.len() as int),
            records@.len() <= list@.len(),
            protocol == list.spec_protocol_raw(),
            records_of_packets(records@, list@.take(records@.len() as int), protocol, source),
        ensures
            records_of_packets(records@, list@, protocol, source),
        decreases packets@.len(),
    {
        let ghost k = records@.len() as int;
        match packets.next() {
            None => {
                assert(list@.take(k) =~= list@);
                break;
            },
            Some(packet) => {
                assert(list@[k] == list@.skip(k)[0]);
                let record = MidiEventRecord::from_event_words(packet.timestamp(), protocol, source, packet.words());
                records.push(record);
                assert(packets@ =~= list@.skip(records@.len() as int));
                assert forall|i: int| 0 <= i < records@.len() implies #[trigger] records@[i].is_record_of(
                    list@.take(k + 1)[i].0,
                    protocol,
                    source,
                    list@.take(k + 1)[i].1,
                ) by {
                    if i < k {
                        assert(list@.take(k + 1)[i] == list@.take(k)[i]);
                    }
                }
            },
        }
    }
    records
}

impl EventSink {
    /// The producer side of the ring this sink feeds.
    pub closed spec fn spec_producer(&self) -> SpscProducer<MidiEventRecord, 65536> {
        self.producer
    }

    /// Pushes a record, counting a displaced one as dropped; returns the
    /// receipt of the push.
    pub fn push_record(&self, record: MidiEventRecord) -> (receipt: PushReceipt)
        ensures
            receipt.spec_record() == record,
            receipt.spec_ring() == self.spec_producer(),
    {
        let (displaced, receipt) = ring_push_overwrite(&self.producer, record);
        if displaced {
            let _previous = self.dropped.fetch_add(1, Ordering::Relaxed);
        }
        receipt
    }

    /// Pushes one record per packet of an event list, in order, without
    /// allocating: each keeps the packet's timestamp, the list's protocol
    /// word, `source` and at most the packet's first 64 words. Returns the
    /// receipt of those pushes, in the order they were made.
    pub fn push_event_list(&self, list: EventListRef, source: u32) -> (receipt: ListReceipt)
        ensures
            records_of_packets(receipt.spec_records(), list@, list.spec_protocol_raw(), source),
            receipt.spec_ring() == self.spec_producer(),
    {
        let protocol = list.protocol_raw();
        let mut packets = list.iter();
        let mut receipt = ListReceipt::empty(&self.producer);
        loop
            invariant
                packets@ == list@.skip(receipt.spec_records().len() as int),
                receipt.spec_records().len() <= list@.len(),
                protocol == list.spec_protocol_raw(),
                receipt.spec_ring() == self.spec_producer(),
                records_of_packets(receipt.spec_records(), list@.take(receipt.spec_records().len() as int), protocol, source),
            ensures
                records_of_packets(receipt.spec_records(), list@, protocol, source),
                receipt.spec_ring() == self.spec_producer(),
            decreases packets@.len(),
        {
            let ghost k = receipt.spec_records().len() as int;
            match packets.next() {
                None => {
                    assert(list@.take(k) =~= list@);
                    break;
                },
                Some(packet) => {
                    assert(list@[k] == list@.skip(k)[0]);
                    let record = MidiEventRecord::from_event_words(packet.timestamp(), protocol, source, packet.words());
                    let pushed = self.push_record(record);
                    receipt = receipt.extend(pushed);
                    let ghost sent = receipt.spec_records();
                    assert(packets@ =~= list@.skip(sent.len() as int));
                    assert forall|i: int| 0 <= i < sent.len() implies #[trigger] sent[i].is_record_of(
                        list@.take(k + 1)[i].0,
                        protocol,
                        source,
                        list@.take(k + 1)[i].1,
                    ) by {
                        if i < k {
                            assert(list@.take(k + 1)[i] == list@.take(k)[i]);
                        }
                    }
                },
            }
        }
        receipt
    }
}

/// The consumer side of a receiver ring.
pub struct MidiEventReceiver {
    consumer: SpscConsumer<MidiEventRecord, 65536>,
    dropped: Arc<AtomicU64>,
}

impl MidiEventReceiver {
    /// The number of slots the ring was made with.
    pub closed spec fn spec_capacity(&self) -> nat {
        ring_capacity(self.consumer)
    }

    /// Takes the oldest buffered record, if there is one.
    pub fn try_next(&self) -> Option<MidiEventRecord> {
        ring_pop(&self.consumer)
    }

    /// The number of records waiting, never more than the ring holds.
    pub fn buffered_count(&self) -> (r: usize)
        ensures
            r <= self.spec_capacity(),
    {
        ring_buffered_count(&self.consumer)
    }

    /// The number of slots the ring was made with.
    pub fn capacity(&self) -> (r: usize)
        ensures
            r == self.spec_capacity(),
    {
        ring_capacity_of(&self.consumer)
    }

    /// How many records were overwritten before they were taken.
    pub fn dropped_count(&self) -> u64 {
        self.dropped.load(Ordering::Relaxed)
    }

    /// Whether the port or destination that fed the ring is gone.
    pub fn is_closed(&self) -> bool {
        ring_is_closed(&self.consumer)
    }
}

/// Whether `event_channel` accepts a ring size.
pub open spec fn valid_receiver_capacity(capacity: usize) -> bool {
    0 < capacity <= MAX_RECEIVER_CAPACITY
}

/// Makes a receiver ring of `capacity` records and its producer side. A
/// capacity of 0 or above 65536 is an `InvalidArgument` error.
pub fn event_channel(capacity: usize) -> (r: MidiResult<(EventSink, MidiEventReceiver)>)
    ensures
        r is Ok <==> valid_receiver_capacity(capacity),
        r matches Err(e) ==> e matches MidiError::InvalidArgument(m)
            && m@ == "receiver capacity must be between 1 and 65536 records"@,
        r matches Ok((_, receiver)) ==> receiver.spec_capacity() == capacity,
{
    if capacity == 0 || capacity > MAX_RECEIVER_CAPACITY {
        return Err(MidiError::InvalidArgument(
            String::from_str("receiver capacity must be between 1 and 65536 records"),
        ));
    }
    let (producer, consumer) = ring_with_capacity(capacity);
    let dropped = Arc::new(AtomicU64::new(0));
    let sink = EventSink { producer, dropped: Arc::clone(&dropped) };
    Ok((sink, MidiEventReceiver { consumer, dropped }))
}

} // verus!
