//! `MIDIEventList` images: a verified builder and a bounds-checked reader.
//!
//! The image is a sequence of 32-bit words: the protocol in word 0, the
//! packet count in word 1, then packets from word 2 on. A packet is its
//! timestamp (two words, low word first), its word count and that many UMP
//! words; the next packet follows directly (`MIDIEventPacketNext`).
use vstd::prelude::*;
use crate::error::{MidiError, MidiResult};
use crate::packet::ump::MidiProtocol;

verus! {

broadcast use vstd::seq_lib::group_seq_properties;

/// `size_of::<MIDIEventList>()`: the smallest buffer `with_capacity` makes.
pub const EVENT_LIST_SIZE: usize = 276;
/// Word offset of the first packet in an event list.
pub const FIRST_EVENT_PACKET_WORD: usize = 2;
/// Words in front of a packet's UMP words: timestamp and word count.
pub const EVENT_PACKET_HEADER_WORDS: usize = 3;

/// The size in bytes of `n` UMP words, as a refusal reports it. A slice of
/// words never takes more bytes than a `usize` counts, so the cap at
/// `usize::MAX` is never reached.
pub open spec fn requested_bytes(n: nat) -> usize {
    if n * 4 <= usize::MAX { (n * 4) as usize } else { usize::MAX }
}

/// A packet as the list holds it: timestamp and UMP words.
pub type EventPacketModel = (u64, Seq<u32>);

/// The timestamp that a low and a high word make up.
pub open spec fn join_timestamp(lo: u32, hi: u32) -> u64 {
    (lo as u64) | ((hi as u64) << 32u64)
}

/// The packets of an event-list image read from word `off` on, at most
/// `count` of them; reading stops at the first packet that does not fit.
pub open spec fn event_packets_from(s: Seq<u32>, off: int, count: nat) -> Seq<EventPacketModel>
    decreases count,
{
    if count == 0 || off < 0 || off + 3 > s.len() {
        Seq::empty()
    } else {
        let n = s[off + 2] as int;
        if off + 3 + n > s.len() {
            Seq::empty()
        } else {
            seq![(join_timestamp(s[off], s[off + 1]), s.subrange(off + 3, off + 3 + n))]
                + event_packets_from(s, off + 3 + n, (count - 1) as nat)
        }
    }
}

/// Where the packet after `ps` starts when `ps` is laid out from word `off` on.
pub open spec fn event_layout_end(ps: Seq<EventPacketModel>, off: int) -> int
    decreases ps.len(),
{
    if ps.len() == 0 {
        off
    } else {
        event_layout_end(ps.drop_first(), off + 3 + ps[0].1.len())
    }
}

/// The packets that an event-list image holds.
pub open spec fn event_list_packets(s: Seq<u32>) -> Seq<EventPacketModel> {
    if s.len() < 2 {
        Seq::empty()
    } else {
        event_packets_from(s, 2, s[1] as nat)
    }
}

pub proof fn lemma_timestamp_split(ts: u64)
    ensures
        join_timestamp(ts as u32, (ts >> 32u64) as u32) == ts,
{
    assert(((ts as u32) as u64) | ((((ts >> 32u64) as u32) as u64) << 32u64) == ts) by (bit_vector);
}

pub proof fn lemma_event_layout_end_push(ps: Seq<EventPacketModel>, off: int, p: EventPacketModel)
    ensures
        event_layout_end(ps.push(p), off) == event_layout_end(ps, off) + 3 + p.1.len(),
    decreases ps.len(),
{
    if ps.len() == 0 {
        assert(ps.push(p).drop_first() =~= Seq::<EventPacketModel>::empty());
        assert(ps.push(p)[0] == p);
        assert(event_layout_end(Seq::<EventPacketModel>::empty(), off + 3 + p.1.len()) == off + 3 + p.1.len());
    } else {
        assert(ps.push(p).drop_first() =~= ps.drop_first().push(p));
        assert(ps.push(p)[0] == ps[0]);
        lemma_event_layout_end_push(ps.drop_first(), off + 3 + ps[0].1.len(), p);
    }
}

pub proof fn lemma_event_layout_end_grows(ps: Seq<EventPacketModel>, off: int)
    ensures
        event_layout_end(ps, off) >= off,
        ps.len() > 0 ==> event_layout_end(ps, off) >= off + 3 + ps[0].1.len(),
    decreases ps.len(),
{
    if ps.len() > 0 {
        lemma_event_layout_end_grows(ps.drop_first(), off + 3 + ps[0].1.len());
    }
}

/// Writing a packet right after the packets of an image, without touching
/// the words they occupy, appends it to what the image reads back.
pub proof fn lemma_event_packets_extend(
    s: Seq<u32>,
    t: Seq<u32>,
    off: int,
    n: nat,
    p: EventPacketModel,
)
    requires
        0 <= off,
        event_packets_from(s, off, n).len() == n,
        ({
            let e = event_layout_end(event_packets_from(s, off, n), off);
            &&& e + 3 + p.1.len() <= t.len()
            &&& e <= s.len()
            &&& forall|i: int| off <= i < e ==> #[trigger] s[i] == t[i]
            &&& join_timestamp(t[e], t[e + 1]) == p.0
            &&& t[e + 2] as int == p.1.len()
            &&& t.subrange(e + 3, e + 3 + p.1.len()) == p.1
        }),
    ensures
        event_packets_from(t, off, n + 1) == event_packets_from(s, off, n).push(p),
    decreases n,
{
    let ps = event_packets_from(s, off, n);
    let e = event_layout_end(ps, off);
    if n == 0 {
        assert(event_packets_from(t, off + 3 + p.1.len(), 0) =~= Seq::<EventPacketModel>::empty());
        assert(event_packets_from(t, off, 1) =~= seq![p]);
        assert(ps.push(p) =~= seq![p]);
    } else {
        let k = s[off + 2] as int;
        let next = off + 3 + k;
        let rest = event_packets_from(s, next, (n - 1) as nat);
        assert(ps =~= seq![(join_timestamp(s[off], s[off + 1]), s.subrange(off + 3, off + 3 + k))] + rest);
        assert(ps.drop_first() =~= rest);
        lemma_event_layout_end_grows(rest, next);
        assert(t.subrange(off + 3, off + 3 + k) =~= s.subrange(off + 3, off + 3 + k));
        lemma_event_packets_extend(s, t, next, (n - 1) as nat, p);
        assert(event_packets_from(t, off, n + 1) =~= seq![ps[0]] + event_packets_from(t, next, n as nat));
        assert(event_packets_from(t, off, n + 1) =~= ps.push(p));
    }
}

/// The words of one packet as `MIDIEventList` lays it out: the timestamp's
/// low word, its high word, the word count, then the UMP words.
pub open spec fn event_packet_image(p: EventPacketModel) -> Seq<u32> {
    seq![p.0 as u32, (p.0 >> 32u64) as u32, p.1.len() as u32] + p.1
}

/// Packets laid out one right after another (`MIDIEventPacketNext`).
pub open spec fn event_packets_image(ps: Seq<EventPacketModel>) -> Seq<u32>
    decreases ps.len(),
{
    if ps.len() == 0 {
        Seq::empty()
    } else {
        event_packet_image(ps[0]) + event_packets_image(ps.drop_first())
    }
}

proof fn lemma_read_event_packets(s: Seq<u32>, off: int, ps: Seq<EventPacketModel>)
    requires
        0 <= off,
        off + event_packets_image(ps).len() <= s.len(),
        s.subrange(off, off + event_packets_image(ps).len()) == event_packets_image(ps),
        forall|i: int| 0 <= i < ps.len() ==> #[trigger] ps[i].1.len() <= u32::MAX,
    ensures
        event_packets_from(s, off, ps.len()) == ps,
    decreases ps.len(),
{
    if ps.len() > 0 {
        let p = ps[0];
        let n = p.1.len() as int;
        let img = event_packets_image(ps);
        let head = event_packet_image(p);
        let rest = event_packets_image(ps.drop_first());
        assert(img == head + rest);
        assert(head.len() == 3 + n);
        assert(s[off] == img[0]);
        assert(s[off + 1] == img[1]);
        assert(s[off + 2] == img[2]);
        assert(s[off + 2] as int == n);
        lemma_timestamp_split(p.0);
        assert(s.subrange(off + 3, off + 3 + n) =~= p.1) by {
            assert forall|j: int| 0 <= j < n implies #[trigger] s.subrange(off + 3, off + 3 + n)[j] == p.1[j] by {
                assert(s[off + 3 + j] == img[3 + j]);
                assert(img[3 + j] == head[3 + j]);
            }
        }
        assert(s.subrange(off + 3 + n, off + 3 + n + rest.len()) =~= rest) by {
            assert forall|j: int| 0 <= j < rest.len() implies #[trigger] s.subrange(
                off + 3 + n,
                off + 3 + n + rest.len(),
            )[j] == rest[j] by {
                assert(s[off + 3 + n + j] == img[3 + n + j]);
            }
        }
        assert forall|i: int| 0 <= i < ps.drop_first().len() implies #[trigger] ps.drop_first()[i].1.len() <= u32::MAX by {
            assert(ps.drop_first()[i] == ps[i + 1]);
        }
        lemma_read_event_packets(s, off + 3 + n, ps.drop_first());
        assert(event_packets_from(s, off, ps.len()) =~= seq![p] + ps.drop_first());
        assert(seq![p] + ps.drop_first() =~= ps);
    }
}

/// An image laid out as `MIDIEventList` (the protocol word, the packet
/// count, then each packet's timestamp low and high words, word count and
/// UMP words, one right after another) holds exactly those packets, in
/// that order.
pub proof fn lemma_event_list_image(protocol: u32, ps: Seq<EventPacketModel>)
    requires
        ps.len() <= u32::MAX,
        forall|i: int| 0 <= i < ps.len() ==> #[trigger] ps[i].1.len() <= u32::MAX,
    ensures
        event_list_packets(seq![protocol, ps.len() as u32] + event_packets_image(ps)) == ps,
{
    let img = event_packets_image(ps);
    let s = seq![protocol, ps.len() as u32] + img;
    assert(s.subrange(2, 2 + img.len() as int) =~= img);
    lemma_read_event_packets(s, 2, ps);
}

/// An owned `MIDIEventList` image that packets are appended to.
#[derive(Debug, Clone)]
pub struct EventListBuffer {
    storage: Vec<u32>,
    next: usize,
    protocol: MidiProtocol,
}

impl EventListBuffer {
    /// The list's own invariant: the header names the protocol and counts
    /// exactly the packets laid out from word 2, and `next` is where the
    /// next packet goes.
    pub closed spec fn wf(&self) -> bool {
        let s = self.storage@;
        &&& s.len() % 2 == 0
        &&& s.len() * 4 >= EVENT_LIST_SIZE
        &&& s.len() * 4 <= usize::MAX
        &&& s[0] == self.protocol.spec_as_raw() as u32
        &&& event_packets_from(s, 2, s[1] as nat).len() == s[1]
        &&& self.next as int == event_layout_end(event_packets_from(s, 2, s[1] as nat), 2)
        &&& 2 <= self.next <= s.len()
    }

    /// The packets in the list, in the order they were added.
    pub closed spec fn view(&self) -> Seq<EventPacketModel> {
        event_list_packets(self.storage@)
    }

    /// The protocol the list was made for.
    pub closed spec fn spec_protocol(&self) -> MidiProtocol {
        self.protocol
    }

    /// The size of the list's storage in bytes.
    pub closed spec fn spec_capacity(&self) -> int {
        (self.storage@.len() * 4) as int
    }

    /// The 32-bit words of the `MIDIEventList` image.
    pub closed spec fn image(&self) -> Seq<u32> {
        self.storage@
    }

    /// Whether a packet of `n` UMP words still fits: its header and words
    /// must end within the storage, and the packet count must stay a `u32`.
    pub open spec fn has_room(&self, n: int) -> bool {
        &&& (event_layout_end(self@, 2) + 3 + n) * 4 <= self.spec_capacity()
        &&& self@.len() < u32::MAX
        &&& n <= u32::MAX
    }

    /// The storage size `with_capacity` picks: at least a whole
    /// `MIDIEventList`, rounded up to whole 8-byte words.
    pub open spec fn spec_storage_size(capacity_bytes: int) -> int {
        let c = if capacity_bytes < EVENT_LIST_SIZE { EVENT_LIST_SIZE as int } else { capacity_bytes };
        (c + 7) / 8 * 8
    }

    /// Allocates an empty list (`MIDIEventListInit`) for `protocol`, in
    /// storage of at least `capacity_bytes` bytes.
    pub fn with_capacity(protocol: MidiProtocol, capacity_bytes: usize) -> (r: Self)
        requires
            capacity_bytes + 8 <= isize::MAX,
        ensures
            r.wf(),
            r@ == Seq::<EventPacketModel>::empty(),
            r.spec_protocol() == protocol,
            r.spec_capacity() == Self::spec_storage_size(capacity_bytes as int),
    {
        let c = if capacity_bytes < EVENT_LIST_SIZE { EVENT_LIST_SIZE } else { capacity_bytes };
        let words = (c + 7) / 8 * 2;
        let mut storage: Vec<u32> = vec![0u32; words];
        storage[0] = protocol.as_raw() as u32;
        storage[1] = 0;
        let r = EventListBuffer { storage, next: FIRST_EVENT_PACKET_WORD, protocol };
        proof {
            assert(event_packets_from(r.storage@, 2, 0) =~= Seq::<EventPacketModel>::empty());
        }
        r
    }

    /// Empties the list (`MIDIEventListInit`), keeping its protocol and storage.
    pub fn clear(&mut self)
        requires
            old(self).wf(),
        ensures
            final(self).wf(),
            final(self)@ == Seq::<EventPacketModel>::empty(),
            final(self).spec_protocol() == old(self).spec_protocol(),
            final(self).spec_capacity() == old(self).spec_capacity(),
    {
        let raw = self.protocol.as_raw() as u32;
        self.storage[0] = raw;
        self.storage[1] = 0;
        self.next = FIRST_EVENT_PACKET_WORD;
        proof {
            assert(event_packets_from(self.storage@, 2, 0) =~= Seq::<EventPacketModel>::empty());
        }
    }

    /// The protocol the list was made for.
    pub fn protocol(&self) -> (r: MidiProtocol)
        ensures
            r == self.spec_protocol(),
    {
        self.protocol
    }

    /// The size of the list's storage in bytes.
    pub fn capacity_bytes(&self) -> (r: usize)
        requires
            self.wf(),
        ensures
            r == self.spec_capacity(),
    {
        self.storage.len() * 4
    }

    /// Appends a packet of UMP words (`MIDIEventListAdd`). A packet that does
    /// not fit is refused as `BufferTooSmall` and leaves the list as it was.
    pub fn add_packet_words(&mut self, timestamp: u64, words: &[u32]) -> (r: MidiResult<()>)
        requires
            old(self).wf(),
        ensures
            final(self).wf(),
            final(self).spec_capacity() == old(self).spec_capacity(),
            final(self).spec_protocol() == old(self).spec_protocol(),
            !old(self).has_room(words@.len() as int) ==> {
                &&& r == Err::<(), MidiError>(MidiError::BufferTooSmall {
                    requested: requested_bytes(words@.len()),
                    available: old(self).spec_capacity() as usize,
                })
                &&& final(self)@ == old(self)@
            },
            old(self).has_room(words@.len() as int) ==> {
                &&& r is Ok
                &&& final(self)@ == old(self)@.push((timestamp, words@))
            },
    {
        let ghost s0 = self.storage@;
        let ghost ps = event_packets_from(s0, 2, s0[1] as nat);
        let len = self.storage.len();
        let count = self.storage[1];
        let n = words.len();
        if n > len - self.next || len - self.next - n < EVENT_PACKET_HEADER_WORDS || count == u32::MAX
            || n > u32::MAX as usize {
            let requested = if n <= usize::MAX / 4 { n * 4 } else { usize::MAX };
            return Err(MidiError::BufferTooSmall { requested, available: len * 4 });
        }
        let at = self.next;
        self.storage.set(at, #[verifier::truncate] (timestamp as u32));
        self.storage.set(at + 1, #[verifier::truncate] ((timestamp >> 32u64) as u32));
        self.storage.set(at + 2, n as u32);
        let mut i: usize = 0;
        while i < n
            invariant
                i <= n,
                n == words@.len(),
                n <= u32::MAX,
                self.protocol == old(self).protocol,
                self.next == at,
                at + 3 + n <= len,
                len == s0.len(),
                self.storage@.len() == len,
                forall|k: int| 0 <= k < at ==> #[trigger] self.storage@[k] == s0[k],
                self.storage@[at as int] == #[verifier::truncate] (timestamp as u32),
                self.storage@[at + 1] == #[verifier::truncate] ((timestamp >> 32u64) as u32),
                self.storage@[at + 2] == n as u32,
                forall|k: int| 0 <= k < i ==> #[trigger] self.storage@[at + 3 + k] == words@[k],
            decreases n - i,
        {
            self.storage.set(at + 3 + i, words[i]);
            i = i + 1;
        }
        let ghost s1 = self.storage@;
        self.storage.set(1, count + 1);
        let ghost s2 = self.storage@;
        proof {
            lemma_timestamp_split(timestamp);
            assert forall|k: int| 0 <= k < n implies #[trigger] s2.subrange(at + 3, at + 3 + n)[k] == words@[k] by {
                assert(s1[at + 3 + k] == words@[k]);
                assert(s2[at + 3 + k] == s1[at + 3 + k]);
            }
            assert(s2.subrange(at + 3, at + 3 + n) =~= words@);
            assert forall|k: int| 2 <= k < at implies #[trigger] s0[k] == s2[k] by {
                assert(s1[k] == s0[k]);
            }
            lemma_event_packets_extend(s0, s2, 2, count as nat, (timestamp, words@));
            lemma_event_layout_end_push(ps, 2, (timestamp, words@));
        }
        self.next = at + 3 + n;
        Ok(())
    }

    /// A reader over the list's image.
    pub fn as_event_list(&self) -> (r: EventListRef<'_>)
        requires
            self.wf(),
        ensures
            r@ == self@,
            r.spec_count() == self@.len(),
            r.spec_protocol() == Some(self.spec_protocol()),
    {
        proof {
            MidiProtocol::lemma_raw_roundtrip(self.protocol);
        }
        EventListRef { words: self.storage.as_slice() }
    }

    /// The 32-bit words of the list's `MIDIEventList` image.
    pub fn as_words(&self) -> (r: &[u32])
        ensures
            r@ == self.image(),
    {
        self.storage.as_slice()
    }
}

/// Every packet of an event-list image has at most `u32::MAX` words, as its
/// word count is a 32-bit word of the image.
pub proof fn lemma_event_word_counts(s: Seq<u32>, off: int, count: nat)
    ensures
        forall|i: int| 0 <= i < event_packets_from(s, off, count).len()
            ==> #[trigger] event_packets_from(s, off, count)[i].1.len() <= u32::MAX,
    decreases count,
{
    if count == 0 || off < 0 || off + 3 > s.len() {
    } else {
        let n = s[off + 2] as int;
        if off + 3 + n > s.len() {
        } else {
            lemma_event_word_counts(s, off + 3 + n, (count - 1) as nat);
            let all = event_packets_from(s, off, count);
            let rest = event_packets_from(s, off + 3 + n, (count - 1) as nat);
            assert forall|i: int| 0 <= i < all.len() implies #[trigger] all[i].1.len() <= u32::MAX by {
                if i > 0 {
                    assert(all[i] == rest[i - 1]);
                }
            }
        }
    }
}

/// A read-only view of a `MIDIEventList` image.
#[derive(Debug, Clone, Copy)]
pub struct EventListRef<'a> {
    words: &'a [u32],
}

impl<'a> EventListRef<'a> {
    /// The packets the image holds, as far as they fit in it.
    pub closed spec fn view(&self) -> Seq<EventPacketModel> {
        event_list_packets(self.words@)
    }

    /// The packet count the header states (0 for an image shorter than it).
    pub closed spec fn spec_count(&self) -> u32 {
        if self.words@.len() < 2 { 0 } else { self.words@[1] }
    }

    /// The protocol the header names, if it names a known one.
    pub closed spec fn spec_protocol(&self) -> Option<MidiProtocol> {
        if self.words@.len() < 1 { None } else { MidiProtocol::spec_from_raw(self.words@[0] as i32) }
    }

    /// Every packet of the list has at most `u32::MAX` words.
    pub proof fn lemma_word_counts(self)
        ensures
            forall|i: int| 0 <= i < self@.len() ==> #[trigger] self@[i].1.len() <= u32::MAX,
    {
        if self.words@.len() >= 2 {
            lemma_event_word_counts(self.words@, 2, self.words@[1] as nat);
        }
    }

    /// Views `words` as an event-list image.
    pub fn from_words(words: &'a [u32]) -> (r: Self)
        ensures
            r@ == event_list_packets(words@),
            r.spec_count() == (if words@.len() < 2 { 0 } else { words@[1] }),
            r.spec_protocol() == (if words@.len() < 1 { None } else {
                MidiProtocol::spec_from_raw(words@[0] as i32)
            }),
            r.spec_protocol_raw() == (if words@.len() < 1 { 0 } else { words@[0] as i32 }),
    {
        EventListRef { words }
    }

    /// The packet count the header states.
    pub fn packet_count(self) -> (r: u32)
        ensures
            r == self.spec_count(),
    {
        if self.words.len() < 2 {
            0
        } else {
            self.words[1]
        }
    }

    /// The protocol word of the header as CoreMIDI's `MIDIProtocolID` (0
    /// for an image shorter than it).
    pub closed spec fn spec_protocol_raw(&self) -> i32 {
        if self.words@.len() < 1 { 0 } else { self.words@[0] as i32 }
    }

    /// The protocol word of the header, whether or not it names a known
    /// protocol.
    pub fn protocol_raw(self) -> (r: i32)
        ensures
            r == self.spec_protocol_raw(),
    {
        if self.words.len() < 1 {
            0
        } else {
            self.words[0] as i32
        }
    }

    /// The protocol the header names, if it is a known one.
    pub fn protocol(self) -> (r: Option<MidiProtocol>)
        ensures
            r == self.spec_protocol(),
    {
        if self.words.len() < 1 {
            None
        } else {
            MidiProtocol::from_raw(self.words[0] as i32)
        }
    }

    /// Walks the packets from the first one.
    pub fn iter(self) -> (r: EventIter<'a>)
        ensures
            r@ == self@,
    {
        let remaining = self.packet_count();
        EventIter { words: self.words, offset: FIRST_EVENT_PACKET_WORD, remaining }
    }
}

/// One packet of an event list.
#[derive(Debug, Clone, Copy)]
pub struct MidiEventPacketRef<'a> {
    timestamp: u64,
    words: &'a [u32],
}

impl<'a> MidiEventPacketRef<'a> {
    /// The packet's timestamp and UMP words.
    pub closed spec fn view(&self) -> EventPacketModel {
        (self.timestamp, self.words@)
    }

    /// The packet's timestamp.
    pub fn timestamp(self) -> (r: u64)
        ensures
            r == self@.0,
    {
        self.timestamp
    }

    /// The number of UMP words.
    pub fn word_count(self) -> (r: usize)
        ensures
            r == self@.1.len(),
    {
        self.words.len()
    }

    /// The packet's UMP words.
    pub fn words(self) -> (r: &'a [u32])
        ensures
            r@ == self@.1,
    {
        self.words
    }

    /// The message type of the packet's first word, if it has one.
    pub fn message_type(self) -> (r: Option<crate::packet::ump::MidiMessageType>)
        ensures
            self@.1.len() == 0 ==> r is None,
            self@.1.len() > 0 ==> r == crate::packet::ump::MidiMessageType::spec_from_up_word(self@.1[0]),
    {
        if self.words.len() == 0 {
            None
        } else {
            crate::packet::ump::MidiMessageType::from_up_word(self.words[0])
        }
    }
}

/// Walks the packets of an event list.
#[derive(Debug, Clone)]
pub struct EventIter<'a> {
    words: &'a [u32],
    offset: usize,
    remaining: u32,
}

impl<'a> EventIter<'a> {
    /// The packets not yet returned.
    pub closed spec fn view(&self) -> Seq<EventPacketModel> {
        event_packets_from(self.words@, self.offset as int, self.remaining as nat)
    }

    /// Returns the next packet, or `None` once the packets are used up or
    /// the next one does not fit the image.
    pub fn next(&mut self) -> (r: Option<MidiEventPacketRef<'a>>)
        ensures
            old(self)@.len() == 0 ==> r is None && final(self)@ == old(self)@,
            old(self)@.len() > 0 ==> {
                &&& r matches Some(p) && p@ == old(self)@[0]
                &&& final(self)@ == old(self)@.drop_first()
            },
    {
        let len = self.words.len();
        if self.remaining == 0 || self.offset > len || len - self.offset < EVENT_PACKET_HEADER_WORDS {
            return None;
        }
        let off = self.offset;
        let n = self.words[off + 2] as usize;
        if n > len - off - EVENT_PACKET_HEADER_WORDS {
            return None;
        }
        let lo = self.words[off];
        let hi = self.words[off + 1];
        let timestamp = (lo as u64) | ((hi as u64) << 32u64);
        let words = vstd::slice::slice_subrange(self.words, off + 3, off + 3 + n);
        let ghost old_view = self@;
        proof {
            let rest = event_packets_from(self.words@, off + 3 + n, (self.remaining - 1) as nat);
            assert(old_view =~= seq![(timestamp, words@)] + rest);
        }
        self.offset = off + 3 + n;
        self.remaining = self.remaining - 1;
        assert(self@ =~= old_view.drop_first());
        Some(MidiEventPacketRef { timestamp, words })
    }
}

} // verus!
