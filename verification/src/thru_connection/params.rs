//! `ThruConnectionParams` and its blob encoding.
use vstd::prelude::*;
use vstd::string::StringExecFns;
use vstd::bytes::{spec_u16_to_le_bytes, spec_u32_to_le_bytes, u16_to_le_bytes, u32_to_le_bytes};
use crate::error::{MidiError, MidiResult};
use crate::ffi;
use crate::thru_connection::{control_error_message, unknown_kind_message, 
    spec_control_of, spec_transform_of, MidiControlTransform, MidiControlType, MidiTransform,
    MidiTransformKind, ThruConnectionEndpoint,
};
use crate::wire::{read_u16, read_u32, u16_at, u32_at};

verus! {

broadcast use vstd::seq_lib::group_seq_properties;

/// The most sources or destinations a thru connection has.
pub const MAX_THRU_ENDPOINTS: usize = 8;

/// The parameters of a thru connection.
#[derive(Debug, Clone, PartialEq, Eq, Hash)]
pub struct ThruConnectionParams {
    pub version: u32,
    pub sources: Vec<ThruConnectionEndpoint>,
    pub destinations: Vec<ThruConnectionEndpoint>,
    pub channel_map: [u8; 16],
    pub low_velocity: u8,
    pub high_velocity: u8,
    pub low_note: u8,
    pub high_note: u8,
    pub note_number: MidiTransform,
    pub velocity: MidiTransform,
    pub key_pressure: MidiTransform,
    pub channel_pressure: MidiTransform,
    pub program_change: MidiTransform,
    pub pitch_bend: MidiTransform,
    pub filter_out_sysex: bool,
    pub filter_out_mtc: bool,
    pub filter_out_beat_clock: bool,
    pub filter_out_tune_request: bool,
    pub filter_out_all_controls: bool,
    pub control_transforms: Vec<MidiControlTransform>,
    pub maps: Vec<u16>,
}

/// The value of a `ThruConnectionParams`, with its vectors as sequences.
pub struct ThruParamsView {
    pub version: u32,
    pub sources: Seq<ThruConnectionEndpoint>,
    pub destinations: Seq<ThruConnectionEndpoint>,
    pub channel_map: Seq<u8>,
    pub low_velocity: u8,
    pub high_velocity: u8,
    pub low_note: u8,
    pub high_note: u8,
    pub note_number: MidiTransform,
    pub velocity: MidiTransform,
    pub key_pressure: MidiTransform,
    pub channel_pressure: MidiTransform,
    pub program_change: MidiTransform,
    pub pitch_bend: MidiTransform,
    pub filter_out_sysex: bool,
    pub filter_out_mtc: bool,
    pub filter_out_beat_clock: bool,
    pub filter_out_tune_request: bool,
    pub filter_out_all_controls: bool,
    pub control_transforms: Seq<MidiControlTransform>,
    pub maps: Seq<u16>,
}

impl View for ThruConnectionParams {
    type V = ThruParamsView;

    open spec fn view(&self) -> ThruParamsView {
        ThruParamsView {
            version: self.version,
            sources: self.sources@,
            destinations: self.destinations@,
            channel_map: self.channel_map@,
            low_velocity: self.low_velocity,
            high_velocity: self.high_velocity,
            low_note: self.low_note,
            high_note: self.high_note,
            note_number: self.note_number,
            velocity: self.velocity,
            key_pressure: self.key_pressure,
            channel_pressure: self.channel_pressure,
            program_change: self.program_change,
            pitch_bend: self.pitch_bend,
            filter_out_sysex: self.filter_out_sysex,
            filter_out_mtc: self.filter_out_mtc,
            filter_out_beat_clock: self.filter_out_beat_clock,
            filter_out_tune_request: self.filter_out_tune_request,
            filter_out_all_controls: self.filter_out_all_controls,
            control_transforms: self.control_transforms@,
            maps: self.maps@,
        }
    }
}

// ---------------------------------------------------------------------------
// The blob layout

/// `n` zero bytes.
pub open spec fn zeros(n: nat) -> Seq<u8> {
    Seq::new(n, |i: int| 0u8)
}

/// The byte that stores a flag.
pub open spec fn flag_byte(b: bool) -> u8 {
    if b { 1u8 } else { 0u8 }
}

/// A `MIDIThruConnectionEndpoint` slot.
pub open spec fn enc_endpoint(e: ThruConnectionEndpoint) -> Seq<u8> {
    spec_u32_to_le_bytes(e.endpoint_ref) + spec_u32_to_le_bytes(e.unique_id as u32)
}

/// Endpoint slots, one after the other.
pub open spec fn enc_endpoints(s: Seq<ThruConnectionEndpoint>) -> Seq<u8>
    decreases s.len(),
{
    if s.len() == 0 {
        Seq::empty()
    } else {
        enc_endpoints(s.drop_last()) + enc_endpoint(s.last())
    }
}

/// The eight endpoint slots: the endpoints, then zeroed slots.
pub open spec fn enc_slots(s: Seq<ThruConnectionEndpoint>) -> Seq<u8> {
    enc_endpoints(s) + zeros((8 * (8 - s.len())) as nat)
}

/// A `MIDITransform`.
pub open spec fn enc_transform(t: MidiTransform) -> Seq<u8> {
    spec_u16_to_le_bytes(t.kind.spec_as_raw()) + spec_u16_to_le_bytes(t.param as u16)
}

/// A `MIDIControlTransform`.
pub open spec fn enc_control(c: MidiControlTransform) -> Seq<u8> {
    seq![c.control_type.spec_as_raw(), c.remapped_control_type.spec_as_raw()]
        + spec_u16_to_le_bytes(c.control_number) + enc_transform(c.transform)
}

/// Control transforms, one after the other.
pub open spec fn enc_controls(s: Seq<MidiControlTransform>) -> Seq<u8>
    decreases s.len(),
{
    if s.len() == 0 {
        Seq::empty()
    } else {
        enc_controls(s.drop_last()) + enc_control(s.last())
    }
}

/// Map entries, one after the other.
pub open spec fn enc_maps(s: Seq<u16>) -> Seq<u8>
    decreases s.len(),
{
    if s.len() == 0 {
        Seq::empty()
    } else {
        enc_maps(s.drop_last()) + spec_u16_to_le_bytes(s.last())
    }
}

/// Bytes 0..140: version, sources and destinations.
pub open spec fn enc_endpoint_part(v: ThruParamsView) -> Seq<u8> {
    spec_u32_to_le_bytes(v.version) + spec_u32_to_le_bytes(v.sources.len() as u32) + enc_slots(v.sources)
        + spec_u32_to_le_bytes(v.destinations.len() as u32) + enc_slots(v.destinations)
}

/// Bytes 140..204: channel map, ranges, transforms, filters and counts.
pub open spec fn enc_filter_part(v: ThruParamsView) -> Seq<u8> {
    v.channel_map + seq![v.low_velocity, v.high_velocity, v.low_note, v.high_note]
        + enc_transform(v.note_number) + enc_transform(v.velocity) + enc_transform(v.key_pressure)
        + enc_transform(v.channel_pressure) + enc_transform(v.program_change)
        + enc_transform(v.pitch_bend) + seq![
        flag_byte(v.filter_out_sysex),
        flag_byte(v.filter_out_mtc),
        flag_byte(v.filter_out_beat_clock),
        flag_byte(v.filter_out_tune_request),
        0u8,
        0u8,
        0u8,
        flag_byte(v.filter_out_all_controls),
    ] + spec_u16_to_le_bytes(v.control_transforms.len() as u16) + spec_u16_to_le_bytes(
        v.maps.len() as u16,
    ) + zeros(8)
}

/// The blob for a set of parameters, as `to_bytes` writes it: unused endpoint
/// slots and reserved fields are zero, flags are 0 or 1.
pub open spec fn encode_params(v: ThruParamsView) -> Seq<u8> {
    enc_endpoint_part(v) + enc_filter_part(v) + enc_controls(v.control_transforms) + enc_maps(v.maps)
}

/// Whether `to_bytes` accepts the parameters: at most eight sources and
/// destinations, and counts of control transforms and maps that fit a `u16`.
pub open spec fn encodable(v: ThruParamsView) -> bool {
    &&& v.sources.len() <= 8
    &&& v.destinations.len() <= 8
    &&& v.control_transforms.len() <= u16::MAX
    &&& v.maps.len() <= u16::MAX
}

/// The endpoint in the slot at `o`.
pub open spec fn endpoint_at(b: Seq<u8>, o: int) -> ThruConnectionEndpoint {
    ThruConnectionEndpoint { endpoint_ref: u32_at(b, o), unique_id: #[verifier::truncate] (u32_at(b, o + 4) as i32) }
}

/// The transform stored at `o`, if its kind is known.
pub open spec fn transform_at(b: Seq<u8>, o: int) -> Option<MidiTransform> {
    spec_transform_of(ffi::MIDITransform { transform: u16_at(b, o), param: #[verifier::truncate] (u16_at(b, o + 2) as i16) })
}

/// The raw control transform stored at `o`.
pub open spec fn raw_control_at(b: Seq<u8>, o: int) -> ffi::MIDIControlTransform {
    ffi::MIDIControlTransform {
        controlType: b[o],
        remappedControlType: b[o + 1],
        controlNumber: u16_at(b, o + 2),
        transform: u16_at(b, o + 4),
        param: #[verifier::truncate] (u16_at(b, o + 6) as i16),
    }
}

/// The control transform stored at `o`, if its types and kind are known.
pub open spec fn control_at(b: Seq<u8>, o: int) -> Option<MidiControlTransform> {
    spec_control_of(raw_control_at(b, o))
}

/// The index of the first of the `nc` control transforms whose types or
/// kind are unknown.
pub open spec fn first_bad_control(b: Seq<u8>, nc: int) -> int {
    choose|i: int| 0 <= i < nc && #[trigger] control_at(b, 204 + 8 * i) is None
        && forall|j: int| 0 <= j < i ==> #[trigger] control_at(b, 204 + 8 * j) is Some
}

/// Why `from_bytes` refuses a blob, in the order it checks: the fixed part
/// is missing, the announced tail is missing, one of the six transforms
/// has an unknown kind, or a control transform is unknown.
pub open spec fn decode_error_message(b: Seq<u8>) -> Seq<char> {
    if b.len() < 204 {
        "thru connection parameter blob is too small"@
    } else if b.len() < 204 + 8 * (u16_at(b, 192) as int) + 2 * (u16_at(b, 194) as int) {
        "thru connection parameter blob is truncated"@
    } else if transform_at(b, 160) is None {
        unknown_kind_message(u16_at(b, 160))
    } else if transform_at(b, 164) is None {
        unknown_kind_message(u16_at(b, 164))
    } else if transform_at(b, 168) is None {
        unknown_kind_message(u16_at(b, 168))
    } else if transform_at(b, 172) is None {
        unknown_kind_message(u16_at(b, 172))
    } else if transform_at(b, 176) is None {
        unknown_kind_message(u16_at(b, 176))
    } else if transform_at(b, 180) is None {
        unknown_kind_message(u16_at(b, 180))
    } else {
        control_error_message(raw_control_at(b, 204 + 8 * first_bad_control(b, u16_at(b, 192) as int)))
    }
}

/// Why `to_bytes` refuses parameters, in the order it checks.
pub open spec fn encode_error_message(v: ThruParamsView) -> Seq<char> {
    if v.sources.len() > 8 {
        "too many thru connection sources"@
    } else if v.destinations.len() > 8 {
        "too many thru connection destinations"@
    } else if v.control_transforms.len() > u16::MAX {
        "too many thru control transforms"@
    } else {
        "too many thru maps"@
    }
}

/// The smaller of a count and eight.
pub open spec fn clamp8(n: u32) -> nat {
    if n < 8 { n as nat } else { 8 }
}

/// The parameters a blob holds, or `None` where `from_bytes` refuses it: a
/// blob shorter than the fixed part or than the control transforms and maps
/// it announces, or one with an unknown transform kind or control type.
/// Source and destination counts above eight read as eight.
pub open spec fn decode_params(b: Seq<u8>) -> Option<ThruParamsView> {
    if b.len() < 204 {
        None
    } else {
        let nc = u16_at(b, 192) as int;
        let nm = u16_at(b, 194) as int;
        if b.len() < 204 + 8 * nc + 2 * nm {
            None
        } else if transform_at(b, 160) is None || transform_at(b, 164) is None
            || transform_at(b, 168) is None || transform_at(b, 172) is None
            || transform_at(b, 176) is None || transform_at(b, 180) is None
            || (exists|i: int| 0 <= i < nc && #[trigger] control_at(b, 204 + 8 * i) is None) {
            None
        } else {
            Some(ThruParamsView {
                version: u32_at(b, 0),
                sources: Seq::new(clamp8(u32_at(b, 4)), |i: int| endpoint_at(b, 8 + 8 * i)),
                destinations: Seq::new(clamp8(u32_at(b, 72)), |i: int| endpoint_at(b, 76 + 8 * i)),
                channel_map: b.subrange(140, 156),
                low_velocity: b[156],
                high_velocity: b[157],
                low_note: b[158],
                high_note: b[159],
                note_number: transform_at(b, 160).unwrap(),
                velocity: transform_at(b, 164).unwrap(),
                key_pressure: transform_at(b, 168).unwrap(),
                channel_pressure: transform_at(b, 172).unwrap(),
                program_change: transform_at(b, 176).unwrap(),
                pitch_bend: transform_at(b, 180).unwrap(),
                filter_out_sysex: b[184] != 0,
                filter_out_mtc: b[185] != 0,
                filter_out_beat_clock: b[186] != 0,
                filter_out_tune_request: b[187] != 0,
                filter_out_all_controls: b[191] != 0,
                control_transforms: Seq::new(nc as nat, |i: int| control_at(b, 204 + 8 * i).unwrap()),
                maps: Seq::new(nm as nat, |i: int| u16_at(b, 204 + 8 * nc + 2 * i)),
            })
        }
    }
}

// ---------------------------------------------------------------------------
// Building blobs

fn push_u32(out: &mut Vec<u8>, x: u32)
    ensures
        final(out)@ == old(out)@ + spec_u32_to_le_bytes(x),
{
    let mut t = u32_to_le_bytes(x);
    out.append(&mut t);
}

fn push_u16(out: &mut Vec<u8>, x: u16)
    ensures
        final(out)@ == old(out)@ + spec_u16_to_le_bytes(x),
{
    let mut t = u16_to_le_bytes(x);
    out.append(&mut t);
}

fn push_zeros(out: &mut Vec<u8>, n: usize)
    ensures
        final(out)@ == old(out)@ + zeros(n as nat),
{
    let ghost start = out@;
    let mut i: usize = 0;
    while i < n
        invariant
            i <= n,
            out@ == start + zeros(i as nat),
        decreases n - i,
    {
        out.push(0u8);
        i = i + 1;
        assert(out@ =~= start + zeros(i as nat));
    }
}

fn push_transform(out: &mut Vec<u8>, t: MidiTransform)
    ensures
        final(out)@ == old(out)@ + enc_transform(t),
{
    let ghost start = out@;
    push_u16(out, t.kind.as_raw());
    push_u16(out, t.param as u16);
    assert(out@ =~= start + enc_transform(t));
}

fn push_transform_after(out: &mut Vec<u8>, t: MidiTransform, Ghost(head): Ghost<Seq<u8>>, Ghost(part): Ghost<Seq<u8>>)
    requires
        old(out)@ == head + part,
    ensures
        final(out)@ == head + (part + enc_transform(t)),
{
    push_transform(out, t);
    proof { vstd::seq_lib::lemma_concat_associative(head, part, enc_transform(t)); }
}

fn push_slots(out: &mut Vec<u8>, eps: &Vec<ThruConnectionEndpoint>)
    requires
        eps@.len() <= 8,
    ensures
        final(out)@ == old(out)@ + enc_slots(eps@),
{
    let ghost start = out@;
    let mut i: usize = 0;
    while i < eps.len()
        invariant
            i <= eps@.len(),
            eps@.len() <= 8,
            out@ == start + enc_endpoints(eps@.take(i as int)),
        decreases eps@.len() - i,
    {
        let e = eps[i];
        let ghost before = out@;
        push_u32(out, e.endpoint_ref);
        push_u32(out, e.unique_id as u32);
        proof {
            let t = eps@.take(i + 1);
            assert(t.drop_last() =~= eps@.take(i as int));
            assert(t.last() == e);
        }
        i = i + 1;
        assert(out@ =~= start + enc_endpoints(eps@.take(i as int)));
    }
    assert(eps@.take(eps@.len() as int) =~= eps@);
    push_zeros(out, 8 * (8 - eps.len()));
    assert(out@ =~= start + enc_slots(eps@));
}

fn push_controls(out: &mut Vec<u8>, cs: &Vec<MidiControlTransform>)
    ensures
        final(out)@ == old(out)@ + enc_controls(cs@),
{
    let ghost start = out@;
    let mut i: usize = 0;
    while i < cs.len()
        invariant
            i <= cs@.len(),
            out@ == start + enc_controls(cs@.take(i as int)),
        decreases cs@.len() - i,
    {
        let c = cs[i];
        out.push(c.control_type.as_raw());
        out.push(c.remapped_control_type.as_raw());
        push_u16(out, c.control_number);
        push_transform(out, c.transform);
        proof {
            let t = cs@.take(i + 1);
            assert(t.drop_last() =~= cs@.take(i as int));
            assert(t.last() == c);
        }
        i = i + 1;
        assert(out@ =~= start + enc_controls(cs@.take(i as int)));
    }
    assert(cs@.take(cs@.len() as int) =~= cs@);
}

fn push_maps(out: &mut Vec<u8>, ms: &Vec<u16>)
    ensures
        final(out)@ == old(out)@ + enc_maps(ms@),
{
    let ghost start = out@;
    let mut i: usize = 0;
    while i < ms.len()
        invariant
            i <= ms@.len(),
            out@ == start + enc_maps(ms@.take(i as int)),
        decreases ms@.len() - i,
    {
        push_u16(out, ms[i]);
        proof {
            let t = ms@.take(i + 1);
            assert(t.drop_last() =~= ms@.take(i as int));
        }
        i = i + 1;
        assert(out@ =~= start + enc_maps(ms@.take(i as int)));
    }
    assert(ms@.take(ms@.len() as int) =~= ms@);
}

fn flag(b: bool) -> (r: u8)
    ensures
        r == flag_byte(b),
{
    if b { 1 } else { 0 }
}


fn transform_from(bytes: &[u8], o: usize) -> (r: MidiResult<MidiTransform>)
    requires
        o + 4 <= bytes@.len(),
    ensures
        r is Ok <==> transform_at(bytes@, o as int) is Some,
        r matches Ok(t) ==> transform_at(bytes@, o as int) == Some(t),
        r matches Err(e) ==> e matches MidiError::Bridge(m) && m@ == unknown_kind_message(u16_at(bytes@, o as int)),
{
    let _len = bytes.len();
    MidiTransform::from_raw(
        ffi::MIDITransform {
            transform: read_u16(bytes, o),
            param: #[verifier::truncate] (read_u16(bytes, o + 2) as i16),
        },
    )
}

fn control_from(bytes: &[u8], o: usize) -> (r: MidiResult<MidiControlTransform>)
    requires
        o + 8 <= bytes@.len(),
    ensures
        r is Ok <==> control_at(bytes@, o as int) is Some,
        r matches Ok(c) ==> control_at(bytes@, o as int) == Some(c),
        r matches Err(e) ==> e matches MidiError::Bridge(m) && m@ == control_error_message(raw_control_at(bytes@, o as int)),
{
    let _len = bytes.len();
    MidiControlTransform::from_raw(
        ffi::MIDIControlTransform {
            controlType: bytes[o],
            remappedControlType: bytes[o + 1],
            controlNumber: read_u16(bytes, o + 2),
            transform: read_u16(bytes, o + 4),
            param: #[verifier::truncate] (read_u16(bytes, o + 6) as i16),
        },
    )
}

fn read_slots(bytes: &[u8], base: usize, count: u32) -> (r: Vec<ThruConnectionEndpoint>)
    requires
        base + 64 <= bytes@.len(),
    ensures
        r@ == Seq::new(clamp8(count), |i: int| endpoint_at(bytes@, base + 8 * i)),
{
    let _len = bytes.len();
    let n: usize = if count < 8 { count as usize } else { 8 };
    let mut r: Vec<ThruConnectionEndpoint> = Vec::new();
    let mut i: usize = 0;
    while i < n
        invariant
            n <= 8,
            n == clamp8(count),
            i <= n,
            base + 64 <= bytes@.len(),
            bytes@.len() <= usize::MAX,
            r@ == Seq::new(i as nat, |j: int| endpoint_at(bytes@, base + 8 * j)),
        decreases n - i,
    {
        let e = ThruConnectionEndpoint {
            endpoint_ref: read_u32(bytes, base + 8 * i),
            unique_id: #[verifier::truncate] (read_u32(bytes, base + 8 * i + 4) as i32),
        };
        r.push(e);
        i = i + 1;
        assert(r@ =~= Seq::new(i as nat, |j: int| endpoint_at(bytes@, base + 8 * j)));
    }
    r
}

impl ThruConnectionParams {

    fn push_endpoint_part(&self, out: &mut Vec<u8>)
        requires
            self.sources@.len() <= 8,
            self.destinations@.len() <= 8,
        ensures
            final(out)@ == old(out)@ + enc_endpoint_part(self@),
    {
        let ghost start = out@;
        push_u32(out, self.version);
        push_u32(out, self.sources.len() as u32);
        push_slots(out, &self.sources);
        push_u32(out, self.destinations.len() as u32);
        push_slots(out, &self.destinations);
        assert(out@ =~= start + enc_endpoint_part(self@));
    }

    fn push_filter_part(&self, out: &mut Vec<u8>)
        requires
            self.control_transforms@.len() <= u16::MAX,
            self.maps@.len() <= u16::MAX,
        ensures
            final(out)@ == old(out)@ + enc_filter_part(self@),
    {
        let ghost head = out@;
        let mut i: usize = 0;
        while i < 16
            invariant
                i <= 16,
                out@ == head + self.channel_map@.take(i as int),
            decreases 16 - i,
        {
            out.push(self.channel_map[i]);
            i = i + 1;
            assert(out@ =~= head + self.channel_map@.take(i as int));
        }
        assert(self.channel_map@.take(16) =~= self.channel_map@);
        let ghost mut part = self.channel_map@;
        let ranges = [self.low_velocity, self.high_velocity, self.low_note, self.high_note];
        self.push_piece_bytes(out, &ranges, Ghost(head), Ghost(part));
        proof { part = part + ranges@; }
        assert(ranges@ =~= seq![self.low_velocity, self.high_velocity, self.low_note, self.high_note]);
        push_transform_after(out, self.note_number, Ghost(head), Ghost(part));
        proof { part = part + enc_transform(self.note_number); }
        push_transform_after(out, self.velocity, Ghost(head), Ghost(part));
        proof { part = part + enc_transform(self.velocity); }
        push_transform_after(out, self.key_pressure, Ghost(head), Ghost(part));
        proof { part = part + enc_transform(self.key_pressure); }
        push_transform_after(out, self.channel_pressure, Ghost(head), Ghost(part));
        proof { part = part + enc_transform(self.channel_pressure); }
        push_transform_after(out, self.program_change, Ghost(head), Ghost(part));
        proof { part = part + enc_transform(self.program_change); }
        push_transform_after(out, self.pitch_bend, Ghost(head), Ghost(part));
        proof { part = part + enc_transform(self.pitch_bend); }
        let flags = [
            flag(self.filter_out_sysex),
            flag(self.filter_out_mtc),
            flag(self.filter_out_beat_clock),
            flag(self.filter_out_tune_request),
            0u8,
            0u8,
            0u8,
            flag(self.filter_out_all_controls),
        ];
        self.push_piece_bytes(out, &flags, Ghost(head), Ghost(part));
        proof { part = part + flags@; }
        let counts = [
            self.control_transforms.len() as u16,
            self.maps.len() as u16,
        ];
        let ghost before_counts = out@;
        push_u16(out, counts[0]);
        push_u16(out, counts[1]);
        push_zeros(out, 8);
        proof {
            let tail = spec_u16_to_le_bytes(counts[0]) + spec_u16_to_le_bytes(counts[1]) + zeros(8);
            assert(out@ =~= before_counts + tail);
            vstd::seq_lib::lemma_concat_associative(head, part, tail);
            assert(flags@ =~= seq![
                flag_byte(self.filter_out_sysex),
                flag_byte(self.filter_out_mtc),
                flag_byte(self.filter_out_beat_clock),
                flag_byte(self.filter_out_tune_request),
                0u8,
                0u8,
                0u8,
                flag_byte(self.filter_out_all_controls),
            ]);
            assert(part + tail =~= enc_filter_part(self@));
        }
    }

    fn push_piece_bytes(&self, out: &mut Vec<u8>, piece: &[u8], Ghost(head): Ghost<Seq<u8>>, Ghost(part): Ghost<Seq<u8>>)
        requires
            old(out)@ == head + part,
        ensures
            final(out)@ == head + (part + piece@),
    {
        let ghost before = out@;
        let mut i: usize = 0;
        while i < piece.len()
            invariant
                i <= piece@.len(),
                out@ == before + piece@.take(i as int),
            decreases piece@.len() - i,
        {
            out.push(piece[i]);
            i = i + 1;
            assert(out@ =~= before + piece@.take(i as int));
        }
        assert(piece@.take(piece@.len() as int) =~= piece@);
        proof { vstd::seq_lib::lemma_concat_associative(head, part, piece@); }
    }


    /// Decodes a `MIDIThruConnectionParams` blob. Blobs that are too short for
    /// what they announce, or that hold an unknown transform kind or control
    /// type, are refused as `Bridge` errors.
    pub fn from_bytes(bytes: &[u8]) -> (r: MidiResult<Self>)
        ensures
            r is Ok <==> decode_params(bytes@) is Some,
            r matches Ok(p) ==> decode_params(bytes@) == Some(p@),
            r matches Err(e) ==> e matches MidiError::Bridge(m) && m@ == decode_error_message(bytes@),
    {
        let len = bytes.len();
        if len < ffi::THRU_PARAMS_SIZE {
            return Err(MidiError::Bridge(String::from_str("thru connection parameter blob is too small")));
        }
        let nc = read_u16(bytes, 192) as usize;
        let nm = read_u16(bytes, 194) as usize;
        if len - ffi::THRU_PARAMS_SIZE < 8 * nc + 2 * nm {
            return Err(MidiError::Bridge(String::from_str("thru connection parameter blob is truncated")));
        }
        let note_number = match transform_from(bytes, 160) {
            Ok(t) => t,
            Err(e) => return Err(e),
        };
        let velocity = match transform_from(bytes, 164) {
            Ok(t) => t,
            Err(e) => return Err(e),
        };
        let key_pressure = match transform_from(bytes, 168) {
            Ok(t) => t,
            Err(e) => return Err(e),
        };
        let channel_pressure = match transform_from(bytes, 172) {
            Ok(t) => t,
            Err(e) => return Err(e),
        };
        let program_change = match transform_from(bytes, 176) {
            Ok(t) => t,
            Err(e) => return Err(e),
        };
        let pitch_bend = match transform_from(bytes, 180) {
            Ok(t) => t,
            Err(e) => return Err(e),
        };
        let mut control_transforms: Vec<MidiControlTransform> = Vec::new();
        let mut i: usize = 0;
        while i < nc
            invariant
                i <= nc,
                nc == u16_at(bytes@, 192),
                nm == u16_at(bytes@, 194),
                204 + 8 * nc + 2 * nm <= bytes@.len(),
                transform_at(bytes@, 160) is Some,
                transform_at(bytes@, 164) is Some,
                transform_at(bytes@, 168) is Some,
                transform_at(bytes@, 172) is Some,
                transform_at(bytes@, 176) is Some,
                transform_at(bytes@, 180) is Some,
                forall|j: int| 0 <= j < i ==> #[trigger] control_at(bytes@, 204 + 8 * j) is Some,
                control_transforms@ == Seq::new(i as nat, |j: int| control_at(bytes@, 204 + 8 * j).unwrap()),
            decreases nc - i,
        {
            let c = match control_from(bytes, 204 + 8 * i) {
                Ok(c) => c,
                Err(e) => {
                    proof {
                        let b = bytes@;
                        let ii = i as int;
                        assert(control_at(b, 204 + 8 * ii) is None);
                        let k = first_bad_control(b, nc as int);
                        assert(0 <= ii < nc && control_at(b, 204 + 8 * ii) is None
                            && forall|j: int| 0 <= j < ii ==> #[trigger] control_at(b, 204 + 8 * j) is Some);
                        assert(0 <= k < nc && control_at(b, 204 + 8 * k) is None
                            && forall|j: int| 0 <= j < k ==> #[trigger] control_at(b, 204 + 8 * j) is Some);
                        if k < ii {
                            assert(control_at(b, 204 + 8 * k) is Some);
                        }
                        if k > ii {
                            assert(control_at(b, 204 + 8 * ii) is Some);
                        }
                        assert(k == ii);
                    }
                    return Err(e);
                },
            };
            control_transforms.push(c);
            i = i + 1;
            assert(control_transforms@ =~= Seq::new(i as nat, |j: int| control_at(bytes@, 204 + 8 * j).unwrap()));
        }
        let mut maps: Vec<u16> = Vec::new();
        let mut k: usize = 0;
        while k < nm
            invariant
                k <= nm,
                nc == u16_at(bytes@, 192),
                nm == u16_at(bytes@, 194),
                204 + 8 * nc + 2 * nm <= bytes@.len(),
                maps@ == Seq::new(k as nat, |j: int| u16_at(bytes@, 204 + 8 * nc + 2 * j)),
            decreases nm - k,
        {
            maps.push(read_u16(bytes, 204 + 8 * nc + 2 * k));
            k = k + 1;
            assert(maps@ =~= Seq::new(k as nat, |j: int| u16_at(bytes@, 204 + 8 * nc + 2 * j)));
        }
        let channel_map: [u8; 16] = [
            bytes[140], bytes[141], bytes[142], bytes[143], bytes[144], bytes[145], bytes[146],
            bytes[147], bytes[148], bytes[149], bytes[150], bytes[151], bytes[152], bytes[153],
            bytes[154], bytes[155],
        ];
        assert(channel_map@ =~= bytes@.subrange(140, 156));
        let p = ThruConnectionParams {
            version: read_u32(bytes, 0),
            sources: read_slots(bytes, 8, read_u32(bytes, 4)),
            destinations: read_slots(bytes, 76, read_u32(bytes, 72)),
            channel_map,
            low_velocity: bytes[156],
            high_velocity: bytes[157],
            low_note: bytes[158],
            high_note: bytes[159],
            note_number,
            velocity,
            key_pressure,
            channel_pressure,
            program_change,
            pitch_bend,
            filter_out_sysex: bytes[184] != 0,
            filter_out_mtc: bytes[185] != 0,
            filter_out_beat_clock: bytes[186] != 0,
            filter_out_tune_request: bytes[187] != 0,
            filter_out_all_controls: bytes[191] != 0,
            control_transforms,
            maps,
        };
        proof {
            assert(!(exists|j: int| 0 <= j < nc && #[trigger] control_at(bytes@, 204 + 8 * j) is None));
        }
        Ok(p)
    }

    /// Encodes the parameters as a `MIDIThruConnectionParams` blob. More than
    /// eight sources or destinations, or more control transforms or maps than
    /// a `u16` counts, are refused as `Bridge` errors.
    pub fn to_bytes(&self) -> (r: MidiResult<Vec<u8>>)
        ensures
            r is Ok <==> encodable(self@),
            r matches Ok(b) ==> b@ == encode_params(self@),
            r matches Err(e) ==> e matches MidiError::Bridge(m) && m@ == encode_error_message(self@),
    {
        if self.sources.len() > MAX_THRU_ENDPOINTS {
            return Err(MidiError::Bridge(String::from_str("too many thru connection sources")));
        }
        if self.destinations.len() > MAX_THRU_ENDPOINTS {
            return Err(MidiError::Bridge(String::from_str("too many thru connection destinations")));
        }
        if self.control_transforms.len() > 65535 {
            return Err(MidiError::Bridge(String::from_str("too many thru control transforms")));
        }
        if self.maps.len() > 65535 {
            return Err(MidiError::Bridge(String::from_str("too many thru maps")));
        }
        let mut out: Vec<u8> = Vec::new();
        self.push_endpoint_part(&mut out);
        self.push_filter_part(&mut out);
        push_controls(&mut out, &self.control_transforms);
        push_maps(&mut out, &self.maps);
        assert(out@ =~= encode_params(self@));
        Ok(out)
    }
}

/// The parameters `MIDIThruConnectionParamsInitialize` sets up: no endpoints,
/// the identity channel map, the full velocity and note ranges, identity
/// transforms, no filters, no control transforms and no maps.
pub open spec fn default_params_view() -> ThruParamsView {
    ThruParamsView {
        version: 0,
        sources: Seq::empty(),
        destinations: Seq::empty(),
        channel_map: Seq::new(16, |i: int| i as u8),
        low_velocity: 0,
        high_velocity: 127,
        low_note: 0,
        high_note: 127,
        note_number: MidiTransform { kind: MidiTransformKind::NoTransform, param: 0 },
        velocity: MidiTransform { kind: MidiTransformKind::NoTransform, param: 0 },
        key_pressure: MidiTransform { kind: MidiTransformKind::NoTransform, param: 0 },
        channel_pressure: MidiTransform { kind: MidiTransformKind::NoTransform, param: 0 },
        program_change: MidiTransform { kind: MidiTransformKind::NoTransform, param: 0 },
        pitch_bend: MidiTransform { kind: MidiTransformKind::NoTransform, param: 0 },
        filter_out_sysex: false,
        filter_out_mtc: false,
        filter_out_beat_clock: false,
        filter_out_tune_request: false,
        filter_out_all_controls: false,
        control_transforms: Seq::empty(),
        maps: Seq::empty(),
    }
}

impl Default for ThruConnectionParams {
    fn default() -> (r: Self)
        ensures
            r@ == default_params_view(),
    {
        let r = ThruConnectionParams {
            version: 0,
            sources: Vec::new(),
            destinations: Vec::new(),
            channel_map: [0u8, 1, 2, 3, 4, 5, 6, 7, 8, 9, 10, 11, 12, 13, 14, 15],
            low_velocity: 0,
            high_velocity: 127,
            low_note: 0,
            high_note: 127,
            note_number: MidiTransform::identity(),
            velocity: MidiTransform::identity(),
            key_pressure: MidiTransform::identity(),
            channel_pressure: MidiTransform::identity(),
            program_change: MidiTransform::identity(),
            pitch_bend: MidiTransform::identity(),
            filter_out_sysex: false,
            filter_out_mtc: false,
            filter_out_beat_clock: false,
            filter_out_tune_request: false,
            filter_out_all_controls: false,
            control_transforms: Vec::new(),
            maps: Vec::new(),
        };
        assert(r.channel_map@ =~= Seq::new(16, |i: int| i as u8));
        assert(r@.sources =~= Seq::<ThruConnectionEndpoint>::empty());
        assert(r@.destinations =~= Seq::<ThruConnectionEndpoint>::empty());
        assert(r@.control_transforms =~= Seq::<MidiControlTransform>::empty());
        assert(r@.maps =~= Seq::<u16>::empty());
        r
    }
}

/// The connection references a `MIDIThruConnectionFind` blob lists: one
/// little-endian `MIDIThruConnectionRef` per four bytes.
pub open spec fn connection_refs_of(b: Seq<u8>) -> Seq<u32> {
    Seq::new((b.len() / 4) as nat, |i: int| u32_at(b, 4 * i))
}

/// Splits a `MIDIThruConnectionFind` blob into connection references; a
/// blob whose length is not a multiple of four is a `Bridge` error.
pub fn connection_refs_from_bytes(bytes: &[u8]) -> (r: MidiResult<Vec<u32>>)
    ensures
        r is Ok <==> bytes@.len() % 4 == 0,
        r matches Ok(refs) ==> refs@ == connection_refs_of(bytes@),
        r matches Err(e) ==> e matches MidiError::Bridge(m)
            && m@ == "thru connection find blob is not connection-ref aligned"@,
{
    let len = bytes.len();
    if len % 4 != 0 {
        return Err(MidiError::Bridge(String::from_str("thru connection find blob is not connection-ref aligned")));
    }
    let n = len / 4;
    let mut refs: Vec<u32> = Vec::new();
    let mut i: usize = 0;
    while i < n
        invariant
            i <= n,
            n == len / 4,
            len == bytes@.len(),
            refs@ == Seq::new(i as nat, |j: int| u32_at(bytes@, 4 * j)),
        decreases n - i,
    {
        refs.push(read_u32(bytes, 4 * i));
        i = i + 1;
        assert(refs@ =~= Seq::new(i as nat, |j: int| u32_at(bytes@, 4 * j)));
    }
    Ok(refs)
}

// ---------------------------------------------------------------------------
// Decoding what `to_bytes` writes gives the parameters back

proof fn lemma_concat_sub(a: Seq<u8>, c: Seq<u8>, x: int, y: int)
    requires
        0 <= x <= y <= a.len() + c.len(),
    ensures
        y <= a.len() ==> (a + c).subrange(x, y) == a.subrange(x, y),
        a.len() <= x ==> (a + c).subrange(x, y) == c.subrange(x - a.len(), y - a.len()),
{
    if y <= a.len() {
        assert((a + c).subrange(x, y) =~= a.subrange(x, y));
    }
    if a.len() <= x {
        assert((a + c).subrange(x, y) =~= c.subrange(x - a.len(), y - a.len()));
    }
}

proof fn lemma_sub_sub(s: Seq<u8>, x: int, y: int, p: int, q: int)
    requires
        0 <= x <= y <= s.len(),
        0 <= p <= q <= y - x,
    ensures
        s.subrange(x, y).subrange(p, q) == s.subrange(x + p, x + q),
{
    assert(s.subrange(x, y).subrange(p, q) =~= s.subrange(x + p, x + q));
}

proof fn lemma_le_facts()
    ensures
        forall|x: u32|
            #![trigger spec_u32_to_le_bytes(x)]
            spec_u32_to_le_bytes(x).len() == 4 && vstd::bytes::spec_u32_from_le_bytes(spec_u32_to_le_bytes(x)) == x,
        forall|x: u16|
            #![trigger spec_u16_to_le_bytes(x)]
            spec_u16_to_le_bytes(x).len() == 2 && vstd::bytes::spec_u16_from_le_bytes(spec_u16_to_le_bytes(x)) == x,
{
    vstd::bytes::lemma_auto_spec_u32_to_from_le_bytes();
    vstd::bytes::lemma_auto_spec_u16_to_from_le_bytes();
    assert forall|x: u32| #![trigger spec_u32_to_le_bytes(x)]
        spec_u32_to_le_bytes(x).len() == 4 && vstd::bytes::spec_u32_from_le_bytes(spec_u32_to_le_bytes(x)) == x by {
        assert(spec_u32_to_le_bytes(x).len() == 4);
    }
    assert forall|x: u16| #![trigger spec_u16_to_le_bytes(x)]
        spec_u16_to_le_bytes(x).len() == 2 && vstd::bytes::spec_u16_from_le_bytes(spec_u16_to_le_bytes(x)) == x by {
        assert(spec_u16_to_le_bytes(x).len() == 2);
    }
}

proof fn lemma_casts(x: i32, y: i16)
    ensures
        #[verifier::truncate] ((x as u32) as i32) == x,
        #[verifier::truncate] ((y as u16) as i16) == y,
{
    assert(#[verifier::truncate] ((x as u32) as i32) == x) by (bit_vector);
    assert(#[verifier::truncate] ((y as u16) as i16) == y) by (bit_vector);
}

proof fn lemma_enc_endpoints(s: Seq<ThruConnectionEndpoint>, i: int)
    ensures
        enc_endpoints(s).len() == 8 * s.len(),
        0 <= i < s.len() ==> enc_endpoints(s).subrange(8 * i, 8 * i + 8) == enc_endpoint(s[i]),
    decreases s.len(),
{
    lemma_le_facts();
    if s.len() > 0 {
        lemma_enc_endpoints(s.drop_last(), i);
        if 0 <= i < s.len() {
            lemma_concat_sub(enc_endpoints(s.drop_last()), enc_endpoint(s.last()), 8 * i, 8 * i + 8);
            if i == s.len() - 1 {
                assert(enc_endpoint(s.last()).subrange(0, 8) =~= enc_endpoint(s.last()));
            }
        }
    }
}

proof fn lemma_enc_controls(s: Seq<MidiControlTransform>, i: int)
    ensures
        enc_controls(s).len() == 8 * s.len(),
        0 <= i < s.len() ==> enc_controls(s).subrange(8 * i, 8 * i + 8) == enc_control(s[i]),
    decreases s.len(),
{
    lemma_le_facts();
    if s.len() > 0 {
        lemma_enc_controls(s.drop_last(), i);
        if 0 <= i < s.len() {
            lemma_concat_sub(enc_controls(s.drop_last()), enc_control(s.last()), 8 * i, 8 * i + 8);
            if i == s.len() - 1 {
                assert(enc_control(s.last()).subrange(0, 8) =~= enc_control(s.last()));
            }
        }
    }
}

proof fn lemma_enc_maps(s: Seq<u16>, i: int)
    ensures
        enc_maps(s).len() == 2 * s.len(),
        0 <= i < s.len() ==> enc_maps(s).subrange(2 * i, 2 * i + 2) == spec_u16_to_le_bytes(s[i]),
    decreases s.len(),
{
    lemma_le_facts();
    if s.len() > 0 {
        lemma_enc_maps(s.drop_last(), i);
        if 0 <= i < s.len() {
            lemma_concat_sub(enc_maps(s.drop_last()), spec_u16_to_le_bytes(s.last()), 2 * i, 2 * i + 2);
            if i == s.len() - 1 {
                assert(spec_u16_to_le_bytes(s.last()).subrange(0, 2) =~= spec_u16_to_le_bytes(s.last()));
            }
        }
    }
}

/// Reading an endpoint slot that `enc_endpoint` wrote gives the endpoint.
proof fn lemma_read_endpoint(b: Seq<u8>, o: int, e: ThruConnectionEndpoint)
    requires
        0 <= o,
        o + 8 <= b.len(),
        b.subrange(o, o + 8) == enc_endpoint(e),
    ensures
        endpoint_at(b, o) == e,
{
    lemma_le_facts();
    lemma_casts(e.unique_id, 0);
    lemma_sub_sub(b, o, o + 8, 0, 4);
    lemma_sub_sub(b, o, o + 8, 4, 8);
    lemma_concat_sub(spec_u32_to_le_bytes(e.endpoint_ref), spec_u32_to_le_bytes(e.unique_id as u32), 0, 4);
    lemma_concat_sub(spec_u32_to_le_bytes(e.endpoint_ref), spec_u32_to_le_bytes(e.unique_id as u32), 4, 8);
    assert(spec_u32_to_le_bytes(e.endpoint_ref).subrange(0, 4) =~= spec_u32_to_le_bytes(e.endpoint_ref));
    assert(spec_u32_to_le_bytes(e.unique_id as u32).subrange(0, 4) =~= spec_u32_to_le_bytes(e.unique_id as u32));
}

/// Reading a transform that `enc_transform` wrote gives the transform.
proof fn lemma_read_transform(b: Seq<u8>, o: int, t: MidiTransform)
    requires
        0 <= o,
        o + 4 <= b.len(),
        b.subrange(o, o + 4) == enc_transform(t),
    ensures
        transform_at(b, o) == Some(t),
{
    lemma_le_facts();
    lemma_casts(0, t.param);
    MidiTransformKind::lemma_raw_roundtrip(t.kind);
    let k = spec_u16_to_le_bytes(t.kind.spec_as_raw());
    let q = spec_u16_to_le_bytes(t.param as u16);
    lemma_sub_sub(b, o, o + 4, 0, 2);
    lemma_sub_sub(b, o, o + 4, 2, 4);
    lemma_concat_sub(k, q, 0, 2);
    lemma_concat_sub(k, q, 2, 4);
    assert(k.subrange(0, 2) =~= k);
    assert(q.subrange(0, 2) =~= q);
}

/// Reading a control transform that `enc_control` wrote gives it back.
proof fn lemma_read_control(b: Seq<u8>, o: int, c: MidiControlTransform)
    requires
        0 <= o,
        o + 8 <= b.len(),
        b.subrange(o, o + 8) == enc_control(c),
    ensures
        control_at(b, o) == Some(c),
{
    lemma_le_facts();
    lemma_casts(0, c.transform.param);
    MidiTransformKind::lemma_raw_roundtrip(c.transform.kind);
    MidiControlType::lemma_raw_roundtrip(c.control_type);
    MidiControlType::lemma_raw_roundtrip(c.remapped_control_type);
    let head = seq![c.control_type.spec_as_raw(), c.remapped_control_type.spec_as_raw()];
    let num = spec_u16_to_le_bytes(c.control_number);
    let k = spec_u16_to_le_bytes(c.transform.kind.spec_as_raw());
    let q = spec_u16_to_le_bytes(c.transform.param as u16);
    let e = enc_control(c);
    assert(e =~= head + num + (k + q));
    assert(b[o] == e[0]);
    assert(b[o + 1] == e[1]);
    lemma_sub_sub(b, o, o + 8, 2, 4);
    lemma_sub_sub(b, o, o + 8, 4, 6);
    lemma_sub_sub(b, o, o + 8, 6, 8);
    assert(e.subrange(2, 4) =~= num);
    assert(e.subrange(4, 6) =~= k);
    assert(e.subrange(6, 8) =~= q);
}

/// Where the endpoint part of a blob stands, its fields read back.
proof fn lemma_read_endpoint_part(b: Seq<u8>, v: ThruParamsView)
    requires
        encodable(v),
        b.len() >= 140,
        b.subrange(0, 140) == enc_endpoint_part(v),
    ensures
        u32_at(b, 0) == v.version,
        clamp8(u32_at(b, 4)) == v.sources.len(),
        clamp8(u32_at(b, 72)) == v.destinations.len(),
        Seq::new(clamp8(u32_at(b, 4)), |i: int| endpoint_at(b, 8 + 8 * i)) == v.sources,
        Seq::new(clamp8(u32_at(b, 72)), |i: int| endpoint_at(b, 76 + 8 * i)) == v.destinations,
{
    lemma_le_facts();
    let e = enc_endpoint_part(v);
    let a0 = spec_u32_to_le_bytes(v.version);
    let a1 = spec_u32_to_le_bytes(v.sources.len() as u32);
    let s1 = enc_slots(v.sources);
    let a2 = spec_u32_to_le_bytes(v.destinations.len() as u32);
    let s2 = enc_slots(v.destinations);
    lemma_enc_endpoints(v.sources, 0);
    lemma_enc_endpoints(v.destinations, 0);
    assert(s1.len() == 64);
    assert(s2.len() == 64);
    assert(e.subrange(0, 4) =~= a0);
    assert(e.subrange(4, 8) =~= a1);
    assert(e.subrange(72, 76) =~= a2);
    assert(e.subrange(8, 72) =~= s1);
    assert(e.subrange(76, 140) =~= s2);
    lemma_sub_sub(b, 0, 140, 0, 4);
    lemma_sub_sub(b, 0, 140, 4, 8);
    lemma_sub_sub(b, 0, 140, 72, 76);
    lemma_sub_sub(b, 0, 140, 8, 72);
    lemma_sub_sub(b, 0, 140, 76, 140);
    assert forall|i: int| 0 <= i < v.sources.len() implies endpoint_at(b, 8 + 8 * i) == v.sources[i] by {
        lemma_enc_endpoints(v.sources, i);
        lemma_concat_sub(enc_endpoints(v.sources), zeros((8 * (8 - v.sources.len())) as nat), 8 * i, 8 * i + 8);
        lemma_sub_sub(b, 8, 72, 8 * i, 8 * i + 8);
        lemma_read_endpoint(b, 8 + 8 * i, v.sources[i]);
    }
    assert forall|i: int| 0 <= i < v.destinations.len() implies endpoint_at(b, 76 + 8 * i) == v.destinations[i] by {
        lemma_enc_endpoints(v.destinations, i);
        lemma_concat_sub(enc_endpoints(v.destinations), zeros((8 * (8 - v.destinations.len())) as nat), 8 * i, 8 * i + 8);
        lemma_sub_sub(b, 76, 140, 8 * i, 8 * i + 8);
        lemma_read_endpoint(b, 76 + 8 * i, v.destinations[i]);
    }
    assert(Seq::new(clamp8(u32_at(b, 4)), |i: int| endpoint_at(b, 8 + 8 * i)) =~= v.sources);
    assert(Seq::new(clamp8(u32_at(b, 72)), |i: int| endpoint_at(b, 76 + 8 * i)) =~= v.destinations);
}

/// Where the filter part of a blob stands, its fields read back.
proof fn lemma_read_filter_part(b: Seq<u8>, v: ThruParamsView)
    requires
        encodable(v),
        v.channel_map.len() == 16,
        b.len() >= 204,
        b.subrange(140, 204) == enc_filter_part(v),
    ensures
        b.subrange(140, 156) == v.channel_map,
        b[156] == v.low_velocity,
        b[157] == v.high_velocity,
        b[158] == v.low_note,
        b[159] == v.high_note,
        transform_at(b, 160) == Some(v.note_number),
        transform_at(b, 164) == Some(v.velocity),
        transform_at(b, 168) == Some(v.key_pressure),
        transform_at(b, 172) == Some(v.channel_pressure),
        transform_at(b, 176) == Some(v.program_change),
        transform_at(b, 180) == Some(v.pitch_bend),
        (b[184] != 0) == v.filter_out_sysex,
        (b[185] != 0) == v.filter_out_mtc,
        (b[186] != 0) == v.filter_out_beat_clock,
        (b[187] != 0) == v.filter_out_tune_request,
        (b[191] != 0) == v.filter_out_all_controls,
        u16_at(b, 192) == v.control_transforms.len(),
        u16_at(b, 194) == v.maps.len(),
{
    lemma_le_facts();
    let f = enc_filter_part(v);
    let cm = v.channel_map;
    let t1 = enc_transform(v.note_number);
    let t2 = enc_transform(v.velocity);
    let t3 = enc_transform(v.key_pressure);
    let t4 = enc_transform(v.channel_pressure);
    let t5 = enc_transform(v.program_change);
    let t6 = enc_transform(v.pitch_bend);
    let n1 = spec_u16_to_le_bytes(v.control_transforms.len() as u16);
    let n2 = spec_u16_to_le_bytes(v.maps.len() as u16);
    assert(f.len() == 64);
    assert(f.subrange(0, 16) =~= cm);
    assert(f.subrange(20, 24) =~= t1);
    assert(f.subrange(24, 28) =~= t2);
    assert(f.subrange(28, 32) =~= t3);
    assert(f.subrange(32, 36) =~= t4);
    assert(f.subrange(36, 40) =~= t5);
    assert(f.subrange(40, 44) =~= t6);
    assert(f.subrange(52, 54) =~= n1);
    assert(f.subrange(54, 56) =~= n2);
    lemma_sub_sub(b, 140, 204, 0, 16);
    lemma_sub_sub(b, 140, 204, 20, 24);
    lemma_sub_sub(b, 140, 204, 24, 28);
    lemma_sub_sub(b, 140, 204, 28, 32);
    lemma_sub_sub(b, 140, 204, 32, 36);
    lemma_sub_sub(b, 140, 204, 36, 40);
    lemma_sub_sub(b, 140, 204, 40, 44);
    lemma_sub_sub(b, 140, 204, 52, 54);
    lemma_sub_sub(b, 140, 204, 54, 56);
    lemma_read_transform(b, 160, v.note_number);
    lemma_read_transform(b, 164, v.velocity);
    lemma_read_transform(b, 168, v.key_pressure);
    lemma_read_transform(b, 172, v.channel_pressure);
    lemma_read_transform(b, 176, v.program_change);
    lemma_read_transform(b, 180, v.pitch_bend);
    assert(b[156] == f[16]);
    assert(b[157] == f[17]);
    assert(b[158] == f[18]);
    assert(b[159] == f[19]);
    assert(b[184] == f[44]);
    assert(b[185] == f[45]);
    assert(b[186] == f[46]);
    assert(b[187] == f[47]);
    assert(b[191] == f[51]);
}

/// The blob `to_bytes` writes is laid out as `MIDIThruConnectionParams`,
/// followed by the control transforms and then the maps: each field at its
/// offset, unused endpoint slots and reserved bytes zero, flags 0 or 1.
#[verifier::rlimit(60)]
pub proof fn lemma_blob_layout(v: ThruParamsView)
    requires
        encodable(v),
        v.channel_map.len() == 16,
    ensures
        ({
            let b = encode_params(v);
            let nc = v.control_transforms.len() as int;
            let nm = v.maps.len() as int;
            &&& b.len() == 204 + 8 * nc + 2 * nm
            &&& u32_at(b, 0) == v.version
            &&& u32_at(b, 4) == v.sources.len()
            &&& forall|i: int| 0 <= i < v.sources.len() ==> #[trigger] endpoint_at(b, 8 + 8 * i) == v.sources[i]
            &&& forall|i: int| v.sources.len() <= i < 8 ==> #[trigger] b.subrange(8 + 8 * i, 16 + 8 * i) == zeros(8)
            &&& u32_at(b, 72) == v.destinations.len()
            &&& forall|i: int| 0 <= i < v.destinations.len() ==> #[trigger] endpoint_at(b, 76 + 8 * i) == v.destinations[i]
            &&& forall|i: int| v.destinations.len() <= i < 8 ==> #[trigger] b.subrange(76 + 8 * i, 84 + 8 * i) == zeros(8)
            &&& b.subrange(140, 156) == v.channel_map
            &&& b[156] == v.low_velocity
            &&& b[157] == v.high_velocity
            &&& b[158] == v.low_note
            &&& b[159] == v.high_note
            &&& transform_at(b, 160) == Some(v.note_number)
            &&& transform_at(b, 164) == Some(v.velocity)
            &&& transform_at(b, 168) == Some(v.key_pressure)
            &&& transform_at(b, 172) == Some(v.channel_pressure)
            &&& transform_at(b, 176) == Some(v.program_change)
            &&& transform_at(b, 180) == Some(v.pitch_bend)
            &&& b[184] == flag_byte(v.filter_out_sysex)
            &&& b[185] == flag_byte(v.filter_out_mtc)
            &&& b[186] == flag_byte(v.filter_out_beat_clock)
            &&& b[187] == flag_byte(v.filter_out_tune_request)
            &&& b.subrange(188, 191) == zeros(3)
            &&& b[191] == flag_byte(v.filter_out_all_controls)
            &&& u16_at(b, 192) == nc
            &&& u16_at(b, 194) == nm
            &&& b.subrange(196, 204) == zeros(8)
            &&& forall|i: int| 0 <= i < nc ==> #[trigger] control_at(b, 204 + 8 * i) == Some(v.control_transforms[i])
            &&& forall|i: int| 0 <= i < nm ==> #[trigger] u16_at(b, 204 + 8 * nc + 2 * i) == v.maps[i]
        }),
{
    lemma_le_facts();
    let e = enc_endpoint_part(v);
    let f = enc_filter_part(v);
    let c = enc_controls(v.control_transforms);
    let m = enc_maps(v.maps);
    let b = encode_params(v);
    let nc = v.control_transforms.len() as int;
    let nm = v.maps.len() as int;
    lemma_enc_endpoints(v.sources, 0);
    lemma_enc_endpoints(v.destinations, 0);
    lemma_enc_controls(v.control_transforms, 0);
    lemma_enc_maps(v.maps, 0);
    assert(e.len() == 140);
    assert(f.len() == 64);
    assert(b.len() == 204 + 8 * nc + 2 * nm);
    lemma_concat_sub(e + f + c, m, 0, 204 + 8 * nc);
    lemma_concat_sub(e + f, c, 0, 204);
    lemma_concat_sub(e, f, 0, 140);
    lemma_concat_sub(e, f, 140, 204);
    lemma_sub_sub(b, 0, 204 + 8 * nc, 0, 140);
    lemma_sub_sub(b, 0, 204 + 8 * nc, 140, 204);
    lemma_concat_sub(e + f, c, 204, 204 + 8 * nc);
    lemma_sub_sub(b, 0, 204 + 8 * nc, 204, 204 + 8 * nc);
    lemma_concat_sub(e + f + c, m, 204 + 8 * nc, 204 + 8 * nc + 2 * nm);
    assert(b.subrange(0, 140) == e);
    assert(b.subrange(140, 204) == f);
    assert(b.subrange(204, 204 + 8 * nc) == c);
    assert(b.subrange(204 + 8 * nc, 204 + 8 * nc + 2 * nm) == m);
    lemma_read_endpoint_part(b, v);
    lemma_read_filter_part(b, v);
    // Counts and version, read exactly.
    lemma_sub_sub(b, 0, 140, 0, 4);
    lemma_sub_sub(b, 0, 140, 4, 8);
    lemma_sub_sub(b, 0, 140, 72, 76);
    assert(e.subrange(0, 4) =~= spec_u32_to_le_bytes(v.version));
    assert(e.subrange(4, 8) =~= spec_u32_to_le_bytes(v.sources.len() as u32));
    assert(e.subrange(72, 76) =~= spec_u32_to_le_bytes(v.destinations.len() as u32));
    // Unused endpoint slots.
    let s1 = enc_slots(v.sources);
    let s2 = enc_slots(v.destinations);
    assert(e.subrange(8, 72) =~= s1);
    assert(e.subrange(76, 140) =~= s2);
    lemma_sub_sub(b, 0, 140, 8, 72);
    lemma_sub_sub(b, 0, 140, 76, 140);
    assert forall|i: int| v.sources.len() <= i < 8 implies #[trigger] b.subrange(8 + 8 * i, 16 + 8 * i) == zeros(8) by {
        lemma_sub_sub(b, 8, 72, 8 * i, 8 * i + 8);
        assert(s1.subrange(8 * i, 8 * i + 8) =~= zeros(8));
    }
    assert forall|i: int| v.destinations.len() <= i < 8 implies #[trigger] b.subrange(76 + 8 * i, 84 + 8 * i) == zeros(8) by {
        lemma_sub_sub(b, 76, 140, 8 * i, 8 * i + 8);
        assert(s2.subrange(8 * i, 8 * i + 8) =~= zeros(8));
    }
    // Flags and reserved bytes of the filter part.
    assert(b[184] == f[44]);
    assert(b[185] == f[45]);
    assert(b[186] == f[46]);
    assert(b[187] == f[47]);
    assert(b[191] == f[51]);
    lemma_sub_sub(b, 140, 204, 48, 51);
    lemma_sub_sub(b, 140, 204, 56, 64);
    assert(f.subrange(48, 51) =~= zeros(3));
    assert(f.subrange(56, 64) =~= zeros(8));
    assert forall|i: int| 0 <= i < nc implies #[trigger] control_at(b, 204 + 8 * i) == Some(
        v.control_transforms[i],
    ) by {
        lemma_enc_controls(v.control_transforms, i);
        lemma_sub_sub(b, 204, 204 + 8 * nc, 8 * i, 8 * i + 8);
        lemma_read_control(b, 204 + 8 * i, v.control_transforms[i]);
    }
    assert forall|i: int| 0 <= i < nm implies #[trigger] u16_at(b, 204 + 8 * nc + 2 * i) == v.maps[i] by {
        lemma_enc_maps(v.maps, i);
        lemma_sub_sub(b, 204 + 8 * nc, 204 + 8 * nc + 2 * nm, 2 * i, 2 * i + 2);
    }
}

/// Decoding the blob that `to_bytes` writes for a set of parameters gives
/// those parameters back.
#[verifier::rlimit(60)]
pub proof fn lemma_params_roundtrip(v: ThruParamsView)
    requires
        encodable(v),
        v.channel_map.len() == 16,
    ensures
        decode_params(encode_params(v)) == Some(v),
{
    lemma_blob_layout(v);
    let b = encode_params(v);
    let nc = v.control_transforms.len() as int;
    assert(Seq::new(clamp8(u32_at(b, 4)), |i: int| endpoint_at(b, 8 + 8 * i)) =~= v.sources);
    assert(Seq::new(clamp8(u32_at(b, 72)), |i: int| endpoint_at(b, 76 + 8 * i)) =~= v.destinations);
    let d = decode_params(b);
    assert(!(exists|i: int| 0 <= i < nc && #[trigger] control_at(b, 204 + 8 * i) is None));
    assert(d is Some);
    assert(d.unwrap().control_transforms =~= v.control_transforms);
    assert(d.unwrap().maps =~= v.maps);
    assert(d.unwrap().channel_map =~= v.channel_map);
}

/// In the blob `to_bytes` writes, each of the six transforms starts with
/// the CoreMIDI code of its kind (`MIDITransformType`), at the offset of its
/// `MIDIThruConnectionParams` field.
pub proof fn lemma_transform_codes_in_blob(v: ThruParamsView)
    requires
        encodable(v),
        v.channel_map.len() == 16,
    ensures
        u16_at(encode_params(v), 160) == v.note_number.kind.spec_as_raw(),
        u16_at(encode_params(v), 164) == v.velocity.kind.spec_as_raw(),
        u16_at(encode_params(v), 168) == v.key_pressure.kind.spec_as_raw(),
        u16_at(encode_params(v), 172) == v.channel_pressure.kind.spec_as_raw(),
        u16_at(encode_params(v), 176) == v.program_change.kind.spec_as_raw(),
        u16_at(encode_params(v), 180) == v.pitch_bend.kind.spec_as_raw(),
{
    lemma_params_roundtrip(v);
    let b = encode_params(v);
    MidiTransformKind::lemma_decode_inverts_codes(u16_at(b, 160), v.note_number.kind);
    MidiTransformKind::lemma_decode_inverts_codes(u16_at(b, 164), v.velocity.kind);
    MidiTransformKind::lemma_decode_inverts_codes(u16_at(b, 168), v.key_pressure.kind);
    MidiTransformKind::lemma_decode_inverts_codes(u16_at(b, 172), v.channel_pressure.kind);
    MidiTransformKind::lemma_decode_inverts_codes(u16_at(b, 176), v.program_change.kind);
    MidiTransformKind::lemma_decode_inverts_codes(u16_at(b, 180), v.pitch_bend.kind);
}

} // verus!
