//! `MIDIPacketList` images: a verified builder and a bounds-checked reader.
//!
//! Layout: `numPackets` (u32) at offset 0, then packets from offset 4. A
//! packet is its timestamp (u64), its length (u16) and that many data bytes.
//! Where the next packet starts depends on the platform's `MIDIPacket`
//! layout, as `MIDIPacketNext` computes it: at the following 4-byte boundary
//! on ARM, right after the data elsewhere.
use vstd::prelude::*;
use vstd::string::StringExecFns;
use crate::error::{MidiError, MidiResult};
use crate::wire::{agree, lemma_agree_subrange, lemma_splice_facts, read_u16, read_u32, read_u64, splice, u16_at, u32_at, u64_at, write_bytes, write_u16, write_u32, write_u64};

verus! {

broadcast use vstd::seq_lib::group_seq_properties;

/// `size_of::<MIDIPacketList>()`: the smallest buffer `with_capacity` makes.
pub const PACKET_LIST_SIZE: usize = 272;
/// Bytes in front of a packet's data: timestamp and length.
pub const PACKET_HEADER_SIZE: usize = 10;
/// Offset of the first packet in a packet list.
pub const FIRST_PACKET_OFFSET: usize = 4;
/// The largest payload one `MIDIPacket` can carry.
pub const MAX_PACKET_PAYLOAD: usize = 65535;

/// A packet as the list holds it: timestamp and data bytes.
pub type PacketModel = (u64, Seq<u8>);

/// Rounds up to the next multiple of four.
pub open spec fn align4(n: int) -> int {
    (n + 3) / 4 * 4
}

/// How packets follow each other in a packet list.
#[derive(Debug, Clone, Copy, PartialEq, Eq)]
pub enum PacketLayout {
    /// Each packet starts at a 4-byte boundary (ARM platforms).
    WordAligned,
    /// Each packet starts right after the previous one's data (x86_64).
    Packed,
}

/// Where the packet after one whose data ends at `end` starts.
pub open spec fn packet_step(end: int, layout: PacketLayout) -> int {
    match layout {
        PacketLayout::WordAligned => align4(end),
        PacketLayout::Packed => end,
    }
}

/// The packets of a packet-list image read from offset `off` on, at most
/// `count` of them; reading stops at the first packet that does not fit.
pub open spec fn packets_from(s: Seq<u8>, off: int, count: nat, layout: PacketLayout) -> Seq<PacketModel>
    decreases count,
{
    if count == 0 || off < 0 || off + 10 > s.len() {
        Seq::empty()
    } else {
        let len = u16_at(s, off + 8) as int;
        if off + 10 + len > s.len() {
            Seq::empty()
        } else {
            seq![(u64_at(s, off), s.subrange(off + 10, off + 10 + len))] + packets_from(
                s,
                packet_step(off + 10 + len, layout),
                (count - 1) as nat,
                layout,
            )
        }
    }
}

/// Where the packet after `ps` starts when `ps` is laid out from `off` on.
pub open spec fn layout_end(ps: Seq<PacketModel>, off: int, layout: PacketLayout) -> int
    decreases ps.len(),
{
    if ps.len() == 0 {
        off
    } else {
        layout_end(ps.drop_first(), packet_step(off + 10 + ps[0].1.len(), layout), layout)
    }
}

/// The packets that a packet-list image holds.
pub open spec fn packet_list_packets(s: Seq<u8>, layout: PacketLayout) -> Seq<PacketModel> {
    if s.len() < 4 {
        Seq::empty()
    } else {
        packets_from(s, 4, u32_at(s, 0) as nat, layout)
    }
}

pub proof fn lemma_layout_end_push(ps: Seq<PacketModel>, off: int, p: PacketModel, layout: PacketLayout)
    ensures
        layout_end(ps.push(p), off, layout) == packet_step(layout_end(ps, off, layout) + 10 + p.1.len(), layout),
    decreases ps.len(),
{
    if ps.len() == 0 {
        assert(ps.push(p).drop_first() =~= Seq::<PacketModel>::empty());
        assert(ps.push(p)[0] == p);
        assert(layout_end(Seq::<PacketModel>::empty(), packet_step(off + 10 + p.1.len(), layout), layout) == packet_step(off + 10 + p.1.len(), layout));
    } else {
        assert(ps.push(p).drop_first() =~= ps.drop_first().push(p));
        assert(ps.push(p)[0] == ps[0]);
        lemma_layout_end_push(ps.drop_first(), packet_step(off + 10 + ps[0].1.len(), layout), p, layout);
    }
}

pub proof fn lemma_layout_end_grows(ps: Seq<PacketModel>, off: int, layout: PacketLayout)
    ensures
        layout_end(ps, off, layout) >= off,
        ps.len() > 0 ==> layout_end(ps, off, layout) >= off + 10 + ps[0].1.len(),
    decreases ps.len(),
{
    if ps.len() > 0 {
        lemma_layout_end_grows(ps.drop_first(), packet_step(off + 10 + ps[0].1.len(), layout), layout);
    }
}

/// Writing a packet right after the packets of an image, without touching
/// the bytes they occupy, appends it to what the image reads back.
pub proof fn lemma_packets_extend(s: Seq<u8>, t: Seq<u8>, off: int, n: nat, p: PacketModel, layout: PacketLayout)
    requires
        0 <= off,
        packets_from(s, off, n, layout).len() == n,
        agree(s, t, off, layout_end(packets_from(s, off, n, layout), off, layout)),
        ({
            let e = layout_end(packets_from(s, off, n, layout), off, layout);
            &&& e + 10 + p.1.len() <= t.len()
            &&& u64_at(t, e) == p.0
            &&& u16_at(t, e + 8) as int == p.1.len()
            &&& t.subrange(e + 10, e + 10 + p.1.len()) == p.1
        }),
    ensures
        packets_from(t, off, n + 1, layout) == packets_from(s, off, n, layout).push(p),
    decreases n,
{
    let ps = packets_from(s, off, n, layout);
    let e = layout_end(ps, off, layout);
    if n == 0 {
        assert(e == off);
        assert(packets_from(t, packet_step(off + 10 + p.1.len(), layout), 0, layout) =~= Seq::<PacketModel>::empty());
        assert(packets_from(t, off, 1, layout) =~= seq![p]);
        assert(ps.push(p) =~= seq![p]);
    } else {
        let len = u16_at(s, off + 8) as int;
        let next = packet_step(off + 10 + len, layout);
        let rest = packets_from(s, next, (n - 1) as nat, layout);
        assert(ps =~= seq![(u64_at(s, off), s.subrange(off + 10, off + 10 + len))] + rest);
        assert(ps.drop_first() =~= rest);
        assert(ps[0].1.len() == len);
        lemma_layout_end_grows(rest, next, layout);
        assert(layout_end(rest, next, layout) == e);
        lemma_agree_subrange(s, t, off, e, off + 8, off + 10);
        lemma_agree_subrange(s, t, off, e, off, off + 8);
        lemma_agree_subrange(s, t, off, e, off + 10, off + 10 + len);
        assert(u16_at(t, off + 8) == u16_at(s, off + 8));
        assert(u64_at(t, off) == u64_at(s, off));
        lemma_packets_extend(s, t, next, (n - 1) as nat, p, layout);
        assert(packets_from(t, off, n + 1, layout) =~= seq![ps[0]] + packets_from(t, next, n as nat, layout));
        assert(packets_from(t, off, n + 1, layout) =~= ps.push(p));
    }
}

/// Every packet an image holds has at most 65535 data bytes, as its length
/// field is 16 bits wide.
pub proof fn lemma_packet_lengths(s: Seq<u8>, off: int, count: nat, layout: PacketLayout)
    ensures
        forall|i: int| 0 <= i < packets_from(s, off, count, layout).len()
            ==> #[trigger] packets_from(s, off, count, layout)[i].1.len() <= MAX_PACKET_PAYLOAD,
    decreases count,
{
    if count == 0 || off < 0 || off + 10 > s.len() {
    } else {
        let len = u16_at(s, off + 8) as int;
        if off + 10 + len > s.len() {
        } else {
            let next = packet_step(off + 10 + len, layout);
            lemma_packet_lengths(s, next, (count - 1) as nat, layout);
            let all = packets_from(s, off, count, layout);
            let rest = packets_from(s, next, (count - 1) as nat, layout);
            assert forall|i: int| 0 <= i < all.len() implies #[trigger] all[i].1.len() <= MAX_PACKET_PAYLOAD by {
                if i > 0 {
                    assert(all[i] == rest[i - 1]);
                }
            }
        }
    }
}

/// The message for a payload too large for one packet.
pub open spec fn oversized_payload_message() -> Seq<char> {
    "MIDIPacket payloads larger than 65535 bytes must be split across packets"@
}

/// The bytes of one packet as `MIDIPacket` lays it out: the timestamp
/// (`u64`), the length (`u16`), then the data.
pub open spec fn packet_image(p: PacketModel) -> Seq<u8> {
    vstd::bytes::spec_u64_to_le_bytes(p.0) + vstd::bytes::spec_u16_to_le_bytes(p.1.len() as u16) + p.1
}

/// Packets laid out from offset `off` on, each followed by zero padding up
/// to where `MIDIPacketNext` puts the next one.
pub open spec fn packets_image(ps: Seq<PacketModel>, off: int, layout: PacketLayout) -> Seq<u8>
    decreases ps.len(),
{
    if ps.len() == 0 {
        Seq::empty()
    } else {
        let end = off + 10 + ps[0].1.len();
        let next = packet_step(end, layout);
        packet_image(ps[0]) + Seq::new((next - end) as nat, |i: int| 0u8) + packets_image(
            ps.drop_first(),
            next,
            layout,
        )
    }
}

proof fn lemma_read_packets(s: Seq<u8>, off: int, ps: Seq<PacketModel>, layout: PacketLayout)
    requires
        0 <= off,
        off + packets_image(ps, off, layout).len() <= s.len(),
        s.subrange(off, off + packets_image(ps, off, layout).len()) == packets_image(ps, off, layout),
        forall|i: int| 0 <= i < ps.len() ==> #[trigger] ps[i].1.len() <= MAX_PACKET_PAYLOAD,
    ensures
        packets_from(s, off, ps.len(), layout) == ps,
    decreases ps.len(),
{
    if ps.len() > 0 {
        vstd::bytes::lemma_auto_spec_u64_to_from_le_bytes();
        vstd::bytes::lemma_auto_spec_u16_to_from_le_bytes();
        let p = ps[0];
        let n = p.1.len() as int;
        let end = off + 10 + n;
        let next = packet_step(end, layout);
        assert(next >= end);
        let ts = vstd::bytes::spec_u64_to_le_bytes(p.0);
        let ln = vstd::bytes::spec_u16_to_le_bytes(n as u16);
        let pad = Seq::new((next - end) as nat, |i: int| 0u8);
        let rest = packets_image(ps.drop_first(), next, layout);
        let img = packets_image(ps, off, layout);
        assert(img == packet_image(p) + pad + rest);
        assert(ts.len() == 8);
        assert(ln.len() == 2);
        assert(img.len() == 10 + n + pad.len() + rest.len());
        assert forall|j: int| 0 <= j < img.len() implies #[trigger] s[off + j] == img[j] by {
            assert(s.subrange(off, off + img.len())[j] == s[off + j]);
        }
        assert(s.subrange(off, off + 8) =~= ts) by {
            assert forall|j: int| 0 <= j < 8 implies #[trigger] s.subrange(off, off + 8)[j] == ts[j] by {
                assert(s[off + j] == img[j]);
            }
        }
        assert(s.subrange(off + 8, off + 10) =~= ln) by {
            assert forall|j: int| 0 <= j < 2 implies #[trigger] s.subrange(off + 8, off + 10)[j] == ln[j] by {
                assert(s[off + 8 + j] == img[8 + j]);
            }
        }
        assert(u16_at(s, off + 8) as int == n);
        assert(s.subrange(off + 10, off + 10 + n) =~= p.1) by {
            assert forall|j: int| 0 <= j < n implies #[trigger] s.subrange(off + 10, off + 10 + n)[j] == p.1[j] by {
                assert(s[off + 10 + j] == img[10 + j]);
            }
        }
        assert(s.subrange(next, next + rest.len()) =~= rest) by {
            assert forall|j: int| 0 <= j < rest.len() implies #[trigger] s.subrange(next, next + rest.len())[j]
                == rest[j] by {
                assert(s[off + (next - off) + j] == img[(next - off) + j]);
            }
        }
        assert forall|i: int| 0 <= i < ps.drop_first().len() implies #[trigger] ps.drop_first()[i].1.len()
            <= MAX_PACKET_PAYLOAD by {
            assert(ps.drop_first()[i] == ps[i + 1]);
        }
        lemma_read_packets(s, next, ps.drop_first(), layout);
        assert(packets_from(s, off, ps.len(), layout) =~= seq![p] + ps.drop_first());
        assert(seq![p] + ps.drop_first() =~= ps);
    }
}

/// An image laid out as `MIDIPacketList` (the packet count, then each
/// packet's timestamp, length and data, the next packet where
/// `MIDIPacketNext` puts it) holds exactly those packets, in that order.
pub proof fn lemma_packet_list_image(ps: Seq<PacketModel>, layout: PacketLayout)
    requires
        ps.len() <= u32::MAX,
        forall|i: int| 0 <= i < ps.len() ==> #[trigger] ps[i].1.len() <= MAX_PACKET_PAYLOAD,
    ensures
        packet_list_packets(vstd::bytes::spec_u32_to_le_bytes(ps.len() as u32) + packets_image(ps, 4, layout), layout)
            == ps,
{
    vstd::bytes::lemma_auto_spec_u32_to_from_le_bytes();
    let head = vstd::bytes::spec_u32_to_le_bytes(ps.len() as u32);
    let img = packets_image(ps, 4, layout);
    let s = head + img;
    assert(s.subrange(0, 4) =~= head);
    assert(s.subrange(4, 4 + img.len() as int) =~= img);
    lemma_read_packets(s, 4, ps, layout);
}

/// An owned `MIDIPacketList` image that packets are appended to.
#[derive(Debug, Clone)]
pub struct PacketListBuffer {
    storage: Vec<u8>,
    next: usize,
    layout: PacketLayout,
}

impl PacketListBuffer {
    /// The list's own invariant: the header counts exactly the packets laid
    /// out from offset 4, and `next` is where the next packet goes.
    pub closed spec fn wf(&self) -> bool {
        let s = self.storage@;
        &&& s.len() % 8 == 0
        &&& s.len() >= PACKET_LIST_SIZE
        &&& packets_from(s, 4, u32_at(s, 0) as nat, self.layout).len() == u32_at(s, 0)
        &&& self.next as int == layout_end(packets_from(s, 4, u32_at(s, 0) as nat, self.layout), 4, self.layout)
        &&& 4 <= self.next <= s.len()
    }

    /// The packets in the list, in the order they were added.
    pub closed spec fn view(&self) -> Seq<PacketModel> {
        packet_list_packets(self.storage@, self.layout)
    }

    /// How the list lays its packets out.
    pub closed spec fn spec_layout(&self) -> PacketLayout {
        self.layout
    }

    /// The size of the list's storage in bytes.
    pub closed spec fn spec_capacity(&self) -> int {
        self.storage@.len() as int
    }

    /// The bytes of the `MIDIPacketList` image.
    pub closed spec fn image(&self) -> Seq<u8> {
        self.storage@
    }

    /// Whether a payload of `n` bytes still fits: its packet header and data
    /// must end within the storage, and the packet count must stay a `u32`.
    pub open spec fn has_room(&self, n: int) -> bool {
        &&& layout_end(self@, 4, self.spec_layout()) + 10 + n <= self.spec_capacity()
        &&& self@.len() < u32::MAX
    }

    /// The storage size `with_capacity` picks: at least a whole
    /// `MIDIPacketList`, rounded up to whole 8-byte words.
    pub open spec fn spec_storage_size(capacity_bytes: int) -> int {
        let c = if capacity_bytes < PACKET_LIST_SIZE { PACKET_LIST_SIZE as int } else { capacity_bytes };
        (c + 7) / 8 * 8
    }

    /// Allocates an empty list (`MIDIPacketListInit`) in storage of at least
    /// `capacity_bytes` bytes, laid out with 4-byte aligned packets.
    pub fn with_capacity(capacity_bytes: usize) -> (r: Self)
        requires
            capacity_bytes + 8 <= isize::MAX,
        ensures
            r.wf(),
            r@ == Seq::<PacketModel>::empty(),
            r.spec_layout() == PacketLayout::WordAligned,
            r.spec_capacity() == Self::spec_storage_size(capacity_bytes as int),
    {
        Self::with_capacity_and_layout(capacity_bytes, PacketLayout::WordAligned)
    }

    /// Allocates an empty list (`MIDIPacketListInit`) in storage of at least
    /// `capacity_bytes` bytes, with the packet layout of the platform it is
    /// sent on.
    pub fn with_capacity_and_layout(capacity_bytes: usize, layout: PacketLayout) -> (r: Self)
        requires
            capacity_bytes + 8 <= isize::MAX,
        ensures
            r.wf(),
            r@ == Seq::<PacketModel>::empty(),
            r.spec_layout() == layout,
            r.spec_capacity() == Self::spec_storage_size(capacity_bytes as int),
    {
        let c = if capacity_bytes < PACKET_LIST_SIZE { PACKET_LIST_SIZE } else { capacity_bytes };
        let words = (c + 7) / 8;
        let size = words * 8;
        let mut storage: Vec<u8> = vec![0u8; size];
        write_u32(&mut storage, 0, 0);
        let r = PacketListBuffer { storage, next: FIRST_PACKET_OFFSET, layout };
        proof {
            assert(packets_from(r.storage@, 4, 0, layout) =~= Seq::<PacketModel>::empty());
        }
        r
    }

    /// How the list lays its packets out.
    pub fn layout(&self) -> (r: PacketLayout)
        ensures
            r == self.spec_layout(),
    {
        self.layout
    }

    /// Empties the list (`MIDIPacketListInit`), keeping its storage.
    pub fn clear(&mut self)
        requires
            old(self).wf(),
        ensures
            final(self).wf(),
            final(self)@ == Seq::<PacketModel>::empty(),
            final(self).spec_capacity() == old(self).spec_capacity(),
            final(self).spec_layout() == old(self).spec_layout(),
    {
        write_u32(&mut self.storage, 0, 0);
        self.next = FIRST_PACKET_OFFSET;
        proof {
            assert(packets_from(self.storage@, 4, 0, self.layout) =~= Seq::<PacketModel>::empty());
        }
    }

    /// The size of the list's storage in bytes.
    pub fn capacity_bytes(&self) -> (r: usize)
        ensures
            r == self.spec_capacity(),
    {
        self.storage.len()
    }

    /// Appends a packet (`MIDIPacketListAdd`). Payloads over 65535 bytes are
    /// refused as `InvalidArgument`; a packet that does not fit is refused as
    /// `BufferTooSmall`. A refused packet leaves the list as it was.
    pub fn add_packet(&mut self, timestamp: u64, data: &[u8]) -> (r: MidiResult<()>)
        requires
            old(self).wf(),
        ensures
            final(self).wf(),
            final(self).spec_capacity() == old(self).spec_capacity(),
            final(self).spec_layout() == old(self).spec_layout(),
            data@.len() > MAX_PACKET_PAYLOAD ==> {
                &&& r matches Err(MidiError::InvalidArgument(m)) && m@ == oversized_payload_message()
                &&& final(self)@ == old(self)@
            },
            data@.len() <= MAX_PACKET_PAYLOAD && !old(self).has_room(data@.len() as int) ==> {
                &&& r == Err::<(), MidiError>(MidiError::BufferTooSmall {
                    requested: data@.len() as usize,
                    available: old(self).spec_capacity() as usize,
                })
                &&& final(self)@ == old(self)@
            },
            data@.len() <= MAX_PACKET_PAYLOAD && old(self).has_room(data@.len() as int) ==> {
                &&& r is Ok
                &&& final(self)@ == old(self)@.push((timestamp, data@))
            },
    {
        if data.len() > MAX_PACKET_PAYLOAD {
            return Err(MidiError::InvalidArgument(
                String::from_str("MIDIPacket payloads larger than 65535 bytes must be split across packets"),
            ));
        }
        let cap = self.storage.len();
        let count = read_u32(self.storage.as_slice(), 0);
        let n = data.len();
        if n > cap - self.next || cap - self.next - n < PACKET_HEADER_SIZE || count == u32::MAX {
            return Err(MidiError::BufferTooSmall { requested: n, available: cap });
        }
        self.append_packet(timestamp, data);
        Ok(())
    }

    /// Writes a packet that fits after the last one and counts it.
    fn append_packet(&mut self, timestamp: u64, data: &[u8])
        requires
            old(self).wf(),
            data@.len() <= MAX_PACKET_PAYLOAD,
            old(self).has_room(data@.len() as int),
        ensures
            final(self).wf(),
            final(self).spec_capacity() == old(self).spec_capacity(),
            final(self).spec_layout() == old(self).spec_layout(),
            final(self)@ == old(self)@.push((timestamp, data@)),
    {
        let ghost s0 = self.storage@;
        let ghost layout = self.layout;
        let ghost ps = packets_from(s0, 4, u32_at(s0, 0) as nat, layout);
        assert(ps == self@);
        assert(self.next as int + 10 + data@.len() <= s0.len());
        let count = read_u32(self.storage.as_slice(), 0);
        let n = data.len();
        let at = self.next;
        let cap = self.storage.len();
        assert(at + 10 + n <= cap);
        write_u64(&mut self.storage, at, timestamp);
        write_u16(&mut self.storage, at + 8, n as u16);
        write_bytes(&mut self.storage, at + 10, data);
        let ghost s1 = self.storage@;
        write_u32(&mut self.storage, 0, count + 1);
        let ghost s2 = self.storage@;
        proof {
            lemma_splice_facts(s0, at as int, vstd::bytes::spec_u64_to_le_bytes(timestamp));
            let sa = splice(s0, at as int, vstd::bytes::spec_u64_to_le_bytes(timestamp));
            lemma_splice_facts(sa, at + 8, vstd::bytes::spec_u16_to_le_bytes(n as u16));
            let sb = splice(sa, at + 8, vstd::bytes::spec_u16_to_le_bytes(n as u16));
            lemma_splice_facts(sb, at + 10, data@);
            lemma_splice_facts(s1, 0, vstd::bytes::spec_u32_to_le_bytes((count + 1) as u32));
            // the header write leaves the packets alone, the packet writes land
            // past the existing ones
            assert(agree(s0, s2, 4, at as int));
            assert(s2.subrange(at as int, at + 8) == s1.subrange(at as int, at + 8));
            assert(s1.subrange(at as int, at + 8) =~= sa.subrange(at as int, at + 8));
            assert(u64_at(s2, at as int) == timestamp);
            assert(s2.subrange(at + 8, at + 10) =~= sb.subrange(at + 8, at + 10));
            assert(u16_at(s2, at + 8) == n as u16);
            assert(s2.subrange(at + 10, at + 10 + n) =~= data@);
            lemma_packets_extend(s0, s2, 4, count as nat, (timestamp, data@), layout);
            assert(u32_at(s2, 0) == count + 1);
            lemma_layout_end_push(ps, 4, (timestamp, data@), layout);
        }
        let end = at + 10 + n;
        self.next = match self.layout {
            PacketLayout::WordAligned => if end % 4 == 0 { end } else { end + (4 - end % 4) },
            PacketLayout::Packed => end,
        };
        proof {
            assert(self.next as int == packet_step(end as int, layout));
        }
    }

    /// A reader over the list's image.
    pub fn as_packet_list(&self) -> (r: PacketListRef<'_>)
        requires
            self.wf(),
        ensures
            r@ == self@,
            r.spec_count() == self@.len(),
    {
        PacketListRef { bytes: self.storage.as_slice(), layout: self.layout }
    }

    /// The bytes of the list's `MIDIPacketList` image.
    pub fn as_bytes(&self) -> (r: &[u8])
        ensures
            r@ == self.image(),
    {
        self.storage.as_slice()
    }
}

/// A read-only view of a `MIDIPacketList` image.
#[derive(Debug, Clone, Copy)]
pub struct PacketListRef<'a> {
    bytes: &'a [u8],
    layout: PacketLayout,
}

impl<'a> PacketListRef<'a> {
    /// The packets the image holds, as far as they fit in it.
    pub closed spec fn view(&self) -> Seq<PacketModel> {
        packet_list_packets(self.bytes@, self.layout)
    }

    /// The packet count the header states (0 for an image shorter than it).
    pub closed spec fn spec_count(&self) -> u32 {
        if self.bytes@.len() < 4 { 0 } else { u32_at(self.bytes@, 0) }
    }

    /// Every packet of the list has at most 65535 data bytes.
    pub proof fn lemma_packet_sizes(self)
        ensures
            forall|i: int| 0 <= i < self@.len() ==> #[trigger] self@[i].1.len() <= MAX_PACKET_PAYLOAD,
    {
        if self.bytes@.len() >= 4 {
            lemma_packet_lengths(self.bytes@, 4, u32_at(self.bytes@, 0) as nat, self.layout);
        }
    }

    /// Views `bytes` as a packet-list image with 4-byte aligned packets.
    pub fn from_bytes(bytes: &'a [u8]) -> (r: Self)
        ensures
            r@ == packet_list_packets(bytes@, PacketLayout::WordAligned),
            r.spec_count() == (if bytes@.len() < 4 { 0 } else { u32_at(bytes@, 0) }),
    {
        PacketListRef { bytes, layout: PacketLayout::WordAligned }
    }

    /// Views `bytes` as a packet-list image with the given packet layout.
    pub fn from_bytes_with_layout(bytes: &'a [u8], layout: PacketLayout) -> (r: Self)
        ensures
            r@ == packet_list_packets(bytes@, layout),
            r.spec_count() == (if bytes@.len() < 4 { 0 } else { u32_at(bytes@, 0) }),
    {
        PacketListRef { bytes, layout }
    }

    /// The packet count the header states.
    pub fn packet_count(self) -> (r: u32)
        ensures
            r == self.spec_count(),
    {
        if self.bytes.len() < 4 {
            0
        } else {
            read_u32(self.bytes, 0)
        }
    }

    /// Walks the packets from the first one.
    pub fn iter(self) -> (r: PacketIter<'a>)
        ensures
            r@ == self@,
    {
        let remaining = self.packet_count();
        PacketIter { bytes: self.bytes, offset: FIRST_PACKET_OFFSET, remaining, layout: self.layout }
    }
}

/// One packet of a packet list.
#[derive(Debug, Clone, Copy)]
pub struct MidiPacketRef<'a> {
    timestamp: u64,
    data: &'a [u8],
}

impl<'a> MidiPacketRef<'a> {
    /// A packet's length field is 16 bits wide.
    #[verifier::type_invariant]
    spec fn inv(self) -> bool {
        self.data@.len() <= MAX_PACKET_PAYLOAD
    }

    /// The packet's timestamp and data.
    pub closed spec fn view(&self) -> PacketModel {
        (self.timestamp, self.data@)
    }

    /// The packet's timestamp.
    pub fn timestamp(self) -> (r: u64)
        ensures
            r == self@.0,
    {
        self.timestamp
    }

    /// The number of data bytes, at most 65535.
    pub fn len(self) -> (r: usize)
        ensures
            r == self@.1.len(),
            r <= MAX_PACKET_PAYLOAD,
    {
        proof { use_type_invariant(&self); }
        self.data.len()
    }

    /// Whether the packet carries no data.
    pub fn is_empty(self) -> (r: bool)
        ensures
            r == (self@.1.len() == 0),
    {
        self.len() == 0
    }

    /// The packet's data bytes.
    pub fn bytes(self) -> (r: &'a [u8])
        ensures
            r@ == self@.1,
            r@.len() <= MAX_PACKET_PAYLOAD,
    {
        proof { use_type_invariant(&self); }
        self.data
    }
}

/// Walks the packets of a packet list.
#[derive(Debug, Clone)]
pub struct PacketIter<'a> {
    bytes: &'a [u8],
    offset: usize,
    remaining: u32,
    layout: PacketLayout,
}

impl<'a> PacketIter<'a> {
    /// The packets not yet returned.
    pub closed spec fn view(&self) -> Seq<PacketModel> {
        packets_from(self.bytes@, self.offset as int, self.remaining as nat, self.layout)
    }

    /// Returns the next packet, or `None` once the packets are used up or
    /// the next one does not fit the image.
    pub fn next(&mut self) -> (r: Option<MidiPacketRef<'a>>)
        ensures
            old(self)@.len() == 0 ==> r is None && final(self)@ == old(self)@,
            old(self)@.len() > 0 ==> {
                &&& r matches Some(p) && p@ == old(self)@[0]
                &&& final(self)@ == old(self)@.drop_first()
            },
    {
        let len = self.bytes.len();
        if self.remaining == 0 || self.offset > len || len - self.offset < PACKET_HEADER_SIZE {
            return None;
        }
        let off = self.offset;
        let data_len = read_u16(self.bytes, off + 8) as usize;
        if data_len > len - off - PACKET_HEADER_SIZE {
            return None;
        }
        let timestamp = read_u64(self.bytes, off);
        let data = vstd::slice::slice_subrange(self.bytes, off + 10, off + 10 + data_len);
        let end = off + 10 + data_len;
        let pad = match self.layout {
            PacketLayout::WordAligned => if end % 4 == 0 { 0 } else { 4 - end % 4 },
            PacketLayout::Packed => 0,
        };
        let ghost old_view = self@;
        proof {
            let rest = packets_from(self.bytes@, packet_step(end as int, self.layout), (self.remaining - 1) as nat, self.layout);
            assert(old_view =~= seq![(timestamp, data@)] + rest);
        }
        if end > usize::MAX - pad {
            // the image cannot reach past the address space, so this is the last packet
            self.remaining = 0;
            proof {
                assert(packet_step(end as int, self.layout) > len);
            }
        } else {
            self.offset = end + pad;
            self.remaining = self.remaining - 1;
        }
        assert(self@ =~= old_view.drop_first());
        Some(MidiPacketRef { timestamp, data })
    }
}

} // verus!
