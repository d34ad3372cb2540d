//! What the async streams need apart from their subscriptions: owned copies
//! of received event lists, and the stream and sender pair each stream is
//! built on.
use vstd::prelude::*;
use vstd::string::StringExecFns;
use doom_fish_utils::stream::{AsyncStreamSender, BoundedAsyncStream};
use crate::error::{MidiError, MidiResult};
use crate::ffi::MIDIEventPacket;
use crate::packet::events::EventPacketModel;
use crate::packet::{EventListRef, MidiProtocol};

verus! {

#[verifier::external_type_specification]
#[verifier::external_body]
#[verifier::reject_recursive_types(T)]
pub struct ExBoundedAsyncStream<T>(BoundedAsyncStream<T>);

#[verifier::external_type_specification]
#[verifier::external_body]
#[verifier::reject_recursive_types(T)]
pub struct ExAsyncStreamSender<T>(AsyncStreamSender<T>);

/// Makes a bounded async stream and its first sender
/// (`BoundedAsyncStream::new`, which panics on a capacity of 0).
#[verifier::external_body]
fn async_stream_new<T>(capacity: usize) -> (r: (BoundedAsyncStream<T>, AsyncStreamSender<T>))
    requires
        capacity > 0,
{
    BoundedAsyncStream::new(capacity)
}

/// Makes the stream and sender an async stream delivers through; a
/// capacity of 0 is refused as `InvalidArgument`.
pub fn new_stream_pair<T>(capacity: usize) -> (r: MidiResult<(BoundedAsyncStream<T>, AsyncStreamSender<T>)>)
    ensures
        r is Ok <==> capacity > 0,
        r matches Err(e) ==> e matches MidiError::InvalidArgument(m) && m@ == "async stream capacity must be > 0"@,
{
    if capacity == 0 {
        return Err(MidiError::InvalidArgument(String::from_str("async stream capacity must be > 0")));
    }
    Ok(async_stream_new(capacity))
}

/// The first `n` of a packet's words followed by zeros up to 64: the
/// fixed-size word array of a copied packet.
pub open spec fn padded_words(words: Seq<u32>) -> Seq<u32> {
    Seq::new(64, |j: int| if j < words.len() { words[j] } else { 0u32 })
}

/// Whether a fixed-size packet is the copy of a packet of an event list:
/// same timestamp and word count, and its first words (at most 64).
pub open spec fn is_packet_copy(p: MIDIEventPacket, m: EventPacketModel) -> bool {
    &&& p.timeStamp == m.0
    &&& p.wordCount as int == m.1.len()
    &&& p.words@ == padded_words(m.1)
}

/// An owned copy of a received `MIDIEventList`.
#[derive(Clone)]
pub struct OwnedEventList {
    /// The protocol the list was sent in.
    pub protocol: MidiProtocol,
    /// The packets, each with at most its first 64 words.
    pub packets: Vec<MIDIEventPacket>,
}

impl OwnedEventList {
    /// Copies an event list; `None` when the list names no known protocol.
    /// Each packet keeps its word count and at most its first 64 words.
    pub fn copy_from(list: EventListRef) -> (r: Option<Self>)
        ensures
            list.spec_protocol() is None ==> r is None,
            list.spec_protocol() matches Some(p) ==> r matches Some(o) && {
                &&& o.protocol == p
                &&& o.packets@.len() == list@.len()
                &&& forall|i: int| 0 <= i < list@.len() ==> #[trigger] is_packet_copy(o.packets@[i], list@[i])
            },
    {
        let protocol = match list.protocol() {
            Some(p) => p,
            None => return None,
        };
        let mut it = list.iter();
        let mut packets: Vec<MIDIEventPacket> = Vec::new();
        proof {
            list.lemma_word_counts();
        }
        loop
            invariant
                packets@.len() + it@.len() == list@.len(),
                it@ == list@.skip(packets@.len() as int),
                forall|i: int| 0 <= i < list@.len() ==> #[trigger] list@[i].1.len() <= u32::MAX,
                forall|i: int| 0 <= i < packets@.len() ==> #[trigger] is_packet_copy(packets@[i], list@[i]),
            ensures
                packets@.len() == list@.len(),
                forall|i: int| 0 <= i < packets@.len() ==> #[trigger] is_packet_copy(packets@[i], list@[i]),
            decreases it@.len(),
        {
            let ghost before = it@;
            match it.next() {
                None => {
                    break;
                },
                Some(packet) => {
                    let ghost k = packets@.len() as int;
                    assert(list@[k] == before[0]);
                    let words = packet.words();
                    let n = words.len();
                    let valid = if n < 64 { n } else { 64 };
                    let mut buf = [0u32; 64];
                    let mut j: usize = 0;
                    while j < 64
                        invariant
                            valid == (if words@.len() < 64 { words@.len() } else { 64 }),
                            j <= 64,
                            buf@.len() == 64,
                            forall|t: int| 0 <= t < j ==> #[trigger] buf@[t] == (if t < words@.len() { words@[t] } else { 0u32 }),
                        decreases 64 - j,
                    {
                        if j < valid {
                            buf[j] = words[j];
                        } else {
                            buf[j] = 0;
                        }
                        j = j + 1;
                    }
                    assert(buf@ =~= padded_words(words@));
                    let copy = MIDIEventPacket { timeStamp: packet.timestamp(), wordCount: n as u32, words: buf };
                    packets.push(copy);
                    assert(it@ =~= list@.skip(packets@.len() as int));
                },
            }
        }
        Some(OwnedEventList { protocol, packets })
    }
}

} // verus!
