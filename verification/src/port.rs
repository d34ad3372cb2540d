//! Ports: the kinds of input port and the table that routes protocol
//! callbacks by source endpoint.
use vstd::prelude::*;
use vstd::string::StringExecFns;
use crate::error::{is_named_status, result_from_status, MidiError, MidiResult, NO_ERR};

verus! {

/// How an input port receives.
#[derive(Debug, Clone, Copy, PartialEq, Eq)]
pub enum InputPortKind {
    /// Created with a `MIDIReadProc` (`MidiClient::input_port`).
    Legacy,
    /// Created with protocol callbacks keyed by source.
    Callbacks,
    /// Created with a receiver ring.
    Receiver,
}

/// What an input port is asked to do with a source.
#[derive(Debug, Clone, Copy, PartialEq, Eq)]
pub enum PortRequest {
    /// `connect_source`, which passes a caller-owned `connRefCon`.
    ConnectSource,
    /// `connect_source_with_protocol_callback`.
    ConnectWithProtocolCallback,
    /// `connect`, for ports that feed a receiver.
    ConnectReceiver,
}

/// The kind of port a request needs.
pub open spec fn spec_kind_for(request: PortRequest) -> InputPortKind {
    match request {
        PortRequest::ConnectSource => InputPortKind::Legacy,
        PortRequest::ConnectWithProtocolCallback => InputPortKind::Callbacks,
        PortRequest::ConnectReceiver => InputPortKind::Receiver,
    }
}

/// Why a request is refused on a port of another kind.
pub open spec fn refusal_message(request: PortRequest) -> Seq<char> {
    match request {
        PortRequest::ConnectSource => "connect_source requires a port created with MidiClient::input_port"@,
        PortRequest::ConnectWithProtocolCallback => "connect_source_with_protocol_callback requires a protocol input port"@,
        PortRequest::ConnectReceiver => "connect requires a port created with MidiClient::input_port_with_receiver"@,
    }
}

/// Refuses a request that a port of this kind cannot serve, as
/// `Unsupported` with the request's refusal message.
pub fn check_request(kind: InputPortKind, request: PortRequest) -> (r: MidiResult<()>)
    ensures
        r is Ok <==> kind == spec_kind_for(request),
        r matches Err(e) ==> e matches MidiError::Unsupported(m) && m@ == refusal_message(request),
{
    match (request, kind) {
        (PortRequest::ConnectSource, InputPortKind::Legacy) => Ok(()),
        (PortRequest::ConnectWithProtocolCallback, InputPortKind::Callbacks) => Ok(()),
        (PortRequest::ConnectReceiver, InputPortKind::Receiver) => Ok(()),
        (PortRequest::ConnectSource, _) => Err(MidiError::Unsupported(
            String::from_str("connect_source requires a port created with MidiClient::input_port"),
        )),
        (PortRequest::ConnectWithProtocolCallback, _) => Err(MidiError::Unsupported(
            String::from_str("connect_source_with_protocol_callback requires a protocol input port"),
        )),
        (PortRequest::ConnectReceiver, _) => Err(MidiError::Unsupported(
            String::from_str("connect requires a port created with MidiClient::input_port_with_receiver"),
        )),
    }
}

/// The entries behind a `ConnectionTable`: source and connection pairs.
#[derive(Debug)]
struct EntryList<T> {
    entries: Vec<(u32, T)>,
}

impl<T> EntryList<T> {
    /// No two entries share a source.
    closed spec fn wf(&self) -> bool {
        forall|i: int, j: int|
            0 <= i < self.entries@.len() && 0 <= j < self.entries@.len() && i != j
                ==> #[trigger] self.entries@[i].0 != #[trigger] self.entries@[j].0
    }

    /// The connection of each connected source.
    closed spec fn view(&self) -> Map<u32, T> {
        Map::new(
            |s: u32| exists|i: int| 0 <= i < self.entries@.len() && #[trigger] self.entries@[i].0 == s,
            |s: u32| self.entries@[choose|i: int| 0 <= i < self.entries@.len() && #[trigger] self.entries@[i].0 == s].1,
        )
    }

    proof fn lemma_view_at(&self, i: int)
        requires
            self.wf(),
            0 <= i < self.entries@.len(),
        ensures
            self@.contains_key(self.entries@[i].0),
            self@[self.entries@[i].0] == self.entries@[i].1,
    {
        let s = self.entries@[i].0;
        assert(exists|k: int| 0 <= k < self.entries@.len() && #[trigger] self.entries@[k].0 == s);
        let k = choose|k: int| 0 <= k < self.entries@.len() && #[trigger] self.entries@[k].0 == s;
        assert(k == i);
    }

    /// An empty table.
    fn new() -> (r: Self)
        ensures
            r.wf(),
            r@ == Map::<u32, T>::empty(),
    {
        let r = EntryList { entries: Vec::new() };
        assert(r@ =~= Map::<u32, T>::empty());
        r
    }

    fn position(&self, source: u32) -> (r: Option<usize>)
        requires
            self.wf(),
        ensures
            r matches Some(i) ==> i < self.entries@.len() && self.entries@[i as int].0 == source,
            r is None ==> !self@.contains_key(source),
    {
        let mut i: usize = 0;
        while i < self.entries.len()
            invariant
                i <= self.entries@.len(),
                forall|j: int| 0 <= j < i ==> #[trigger] self.entries@[j].0 != source,
            decreases self.entries@.len() - i,
        {
            if self.entries[i].0 == source {
                return Some(i);
            }
            i = i + 1;
        }
        None
    }

    /// Whether `source` has a connection.
    fn contains(&self, source: u32) -> (r: bool)
        requires
            self.wf(),
        ensures
            r == self@.contains_key(source),
    {
        match self.position(source) {
            Some(i) => {
                proof { self.lemma_view_at(i as int); }
                true
            },
            None => false,
        }
    }

    /// The connection of `source`, if it has one.
    fn get(&self, source: u32) -> (r: Option<&T>)
        requires
            self.wf(),
        ensures
            r matches Some(v) ==> self@.contains_key(source) && self@[source] == *v,
            r is None ==> !self@.contains_key(source),
    {
        match self.position(source) {
            Some(i) => {
                proof { self.lemma_view_at(i as int); }
                Some(&self.entries[i].1)
            },
            None => None,
        }
    }

    /// Sets the connection of `source`, returning the one it replaces.
    fn replace(&mut self, source: u32, value: T) -> (r: Option<T>)
        requires
            old(self).wf(),
        ensures
            final(self).wf(),
            final(self)@ == old(self)@.insert(source, value),
            old(self)@.contains_key(source) ==> r == Some(old(self)@[source]),
            !old(self)@.contains_key(source) ==> r is None,
    {
        let ghost old_entries = self.entries@;
        match self.position(source) {
            Some(i) => {
                proof { self.lemma_view_at(i as int); }
                self.entries.push((source, value));
                let (_, previous) = self.entries.swap_remove(i);
                proof {
                    let e = self.entries@;
                    assert(e =~= old_entries.update(i as int, (source, value)));
                    assert forall|k: int| 0 <= k < e.len() && k != i implies #[trigger] e[k].0 != source by {
                        assert(old_entries[k].0 != old_entries[i as int].0);
                    }
                    assert(self.wf());
                    self.lemma_view_at(i as int);
                    assert forall|s: u32| #[trigger] self@.contains_key(s) <==> old(self)@.insert(source, value).contains_key(s) by {
                        if s != source {
                            if old(self)@.contains_key(s) {
                                let k = choose|k: int| 0 <= k < old_entries.len() && #[trigger] old_entries[k].0 == s;
                                assert(e[k].0 == s);
                            }
                            if self@.contains_key(s) {
                                let k = choose|k: int| 0 <= k < e.len() && #[trigger] e[k].0 == s;
                                assert(old_entries[k].0 == s);
                            }
                        }
                    }
                    assert forall|s: u32| #[trigger] self@.contains_key(s) && s != source implies self@[s] == old(self)@[s] by {
                        let k = choose|k: int| 0 <= k < e.len() && #[trigger] e[k].0 == s;
                        self.lemma_view_at(k);
                        old(self).lemma_view_at(k);
                    }
                    assert(self@ =~= old(self)@.insert(source, value));
                }
                Some(previous)
            },
            None => {
                self.entries.push((source, value));
                proof {
                    let e = self.entries@;
                    let n = old_entries.len() as int;
                    assert(self.wf());
                    self.lemma_view_at(n);
                    assert forall|s: u32| #[trigger] self@.contains_key(s) <==> old(self)@.insert(source, value).contains_key(s) by {
                        if s != source {
                            if old(self)@.contains_key(s) {
                                let k = choose|k: int| 0 <= k < old_entries.len() && #[trigger] old_entries[k].0 == s;
                                assert(e[k].0 == s);
                            }
                            if self@.contains_key(s) {
                                let k = choose|k: int| 0 <= k < e.len() && #[trigger] e[k].0 == s;
                                assert(old_entries[k].0 == s);
                            }
                        }
                    }
                    assert forall|s: u32| #[trigger] self@.contains_key(s) && s != source implies self@[s] == old(self)@[s] by {
                        let k = choose|k: int| 0 <= k < e.len() && #[trigger] e[k].0 == s;
                        self.lemma_view_at(k);
                        old(self).lemma_view_at(k);
                    }
                    assert(self@ =~= old(self)@.insert(source, value));
                }
                None
            },
        }
    }

    /// Removes the connection of `source`, returning it.
    fn remove(&mut self, source: u32) -> (r: Option<T>)
        requires
            old(self).wf(),
        ensures
            final(self).wf(),
            final(self)@ == old(self)@.remove(source),
            old(self)@.contains_key(source) ==> r == Some(old(self)@[source]),
            !old(self)@.contains_key(source) ==> r is None,
    {
        let ghost old_entries = self.entries@;
        match self.position(source) {
            Some(i) => {
                proof { self.lemma_view_at(i as int); }
                let (_, previous) = self.entries.swap_remove(i);
                proof {
                    let e = self.entries@;
                    let last = old_entries.len() - 1;
                    assert(e =~= old_entries.update(i as int, old_entries[last]).drop_last());
                    assert forall|a: int, b: int| 0 <= a < e.len() && 0 <= b < e.len() && a != b implies #[trigger] e[a].0 != #[trigger] e[b].0 by {
                        let oa = if a == i { last } else { a };
                        let ob = if b == i { last } else { b };
                        assert(e[a] == old_entries[oa]);
                        assert(e[b] == old_entries[ob]);
                    }
                    assert forall|s: u32| #[trigger] self@.contains_key(s) <==> old(self)@.remove(source).contains_key(s) by {
                        if old(self)@.contains_key(s) && s != source {
                            let k = choose|k: int| 0 <= k < old_entries.len() && #[trigger] old_entries[k].0 == s;
                            let nk = if k == last { i as int } else { k };
                            assert(e[nk].0 == s);
                        }
                        if self@.contains_key(s) {
                            let k = choose|k: int| 0 <= k < e.len() && #[trigger] e[k].0 == s;
                            let ok = if k == i { last } else { k };
                            assert(old_entries[ok].0 == s);
                            assert(old_entries[ok].0 != old_entries[i as int].0 || ok == i);
                        }
                    }
                    assert forall|s: u32| #[trigger] self@.contains_key(s) implies self@[s] == old(self)@[s] by {
                        let k = choose|k: int| 0 <= k < e.len() && #[trigger] e[k].0 == s;
                        let ok = if k == i { last } else { k };
                        self.lemma_view_at(k);
                        old(self).lemma_view_at(ok);
                    }
                    assert(self@ =~= old(self)@.remove(source));
                }
                Some(previous)
            },
            None => {
                assert(self@ =~= old(self)@.remove(source));
                None
            },
        }
    }
}

/// The connections of a protocol input port: at most one entry per source
/// endpoint.
#[derive(Debug)]
pub struct ConnectionTable<T> {
    list: EntryList<T>,
}

impl<T> ConnectionTable<T> {
    /// No two entries share a source.
    #[verifier::type_invariant]
    spec fn inv(self) -> bool {
        self.list.wf()
    }

    /// The connection of each connected source.
    pub closed spec fn view(&self) -> Map<u32, T> {
        self.list@
    }

    /// An empty table.
    pub fn new() -> (r: Self)
        ensures
            r@ == Map::<u32, T>::empty(),
    {
        ConnectionTable { list: EntryList::new() }
    }

    /// Whether `source` has a connection.
    pub fn contains(&self, source: u32) -> (r: bool)
        ensures
            r == self@.contains_key(source),
    {
        proof { use_type_invariant(self); }
        self.list.contains(source)
    }

    /// The connection of `source`, if it has one.
    pub fn get(&self, source: u32) -> (r: Option<&T>)
        ensures
            r matches Some(v) ==> self@.contains_key(source) && self@[source] == *v,
            r is None ==> !self@.contains_key(source),
    {
        proof { use_type_invariant(self); }
        self.list.get(source)
    }

    /// Sets the connection of `source`, returning the one it replaces.
    pub fn replace(&mut self, source: u32, value: T) -> (r: Option<T>)
        ensures
            final(self)@ == old(self)@.insert(source, value),
            old(self)@.contains_key(source) ==> r == Some(old(self)@[source]),
            !old(self)@.contains_key(source) ==> r is None,
    {
        proof { use_type_invariant(&*self); }
        let mut list = EntryList::new();
        std::mem::swap(&mut list, &mut self.list);
        let r = list.replace(source, value);
        self.list = list;
        r
    }

    /// Removes the connection of `source`, returning it.
    pub fn remove(&mut self, source: u32) -> (r: Option<T>)
        ensures
            final(self)@ == old(self)@.remove(source),
            old(self)@.contains_key(source) ==> r == Some(old(self)@[source]),
            !old(self)@.contains_key(source) ==> r is None,
    {
        proof { use_type_invariant(&*self); }
        let mut list = EntryList::new();
        std::mem::swap(&mut list, &mut self.list);
        let r = list.remove(source);
        self.list = list;
        r
    }

    /// Puts back what a failed connect displaced: the previous connection if
    /// there was one, otherwise no connection for `source`.
    pub fn restore(&mut self, source: u32, previous: Option<T>)
        ensures
            previous matches Some(p) ==> final(self)@ == old(self)@.insert(source, p),
            previous is None ==> final(self)@ == old(self)@.remove(source),
    {
        match previous {
            Some(p) => {
                let _ = self.replace(source, p);
            },
            None => {
                let _ = self.remove(source);
            },
        }
    }

    /// Finishes a connect that has already put `source`'s new connection in
    /// the table, given the status `MIDIPortConnectSource` returned: `noErr`
    /// keeps the table; any other status puts back `previous` (or removes
    /// the source when it had none) and is returned as a `Status` error.
    pub fn finish_connect(&mut self, source: u32, previous: Option<T>, status: i32) -> (r: MidiResult<()>)
        ensures
            status == NO_ERR ==> r is Ok && final(self)@ == old(self)@,
            status != NO_ERR ==> {
                &&& r matches Err(MidiError::Status(s)) && s.spec_raw() == status
                    && ((s is OsStatus) <==> !is_named_status(status))
                &&& previous matches Some(p) ==> final(self)@ == old(self)@.insert(source, p)
                &&& previous is None ==> final(self)@ == old(self)@.remove(source)
            },
    {
        if status == NO_ERR {
            return Ok(());
        }
        self.restore(source, previous);
        result_from_status(status)
    }

    /// Removes every connection.
    pub fn clear(&mut self)
        ensures
            final(self)@ == Map::<u32, T>::empty(),
    {
        self.list = EntryList::new();
    }
}

/// Replacing a source's connection and then restoring what the replacement
/// returned leaves the table as it was: a connect that fails and is rolled
/// back changes nothing.
pub proof fn lemma_replace_then_restore<T>(before: Map<u32, T>, source: u32, value: T)
    ensures
        before.contains_key(source) ==> before.insert(source, value).insert(source, before[source]) == before,
        !before.contains_key(source) ==> before.insert(source, value).remove(source) == before,
{
    if before.contains_key(source) {
        assert(before.insert(source, value).insert(source, before[source]) =~= before);
    } else {
        assert(before.insert(source, value).remove(source) =~= before);
    }
}

/// An output port, known by its `MIDIPortRef`.
#[derive(Debug)]
pub struct MidiOutputPort {
    raw: u32,
}

impl MidiOutputPort {
    pub closed spec fn spec_raw(&self) -> u32 {
        self.raw
    }

    /// The port with this reference.
    pub fn from_raw(raw: u32) -> (r: Self)
        ensures
            r.spec_raw() == raw,
    {
        MidiOutputPort { raw }
    }

    /// The wrapped `MIDIPortRef`.
    pub fn raw(&self) -> (r: u32)
        ensures
            r == self.spec_raw(),
    {
        self.raw
    }
}

/// An input port, known by its `MIDIPortRef` and how it receives.
#[derive(Debug)]
pub struct MidiInputPort {
    raw: u32,
    kind: InputPortKind,
}

impl MidiInputPort {
    pub closed spec fn spec_raw(&self) -> u32 {
        self.raw
    }

    pub closed spec fn spec_kind(&self) -> InputPortKind {
        self.kind
    }

    /// The port with this reference and kind.
    pub fn from_raw(raw: u32, kind: InputPortKind) -> (r: Self)
        ensures
            r.spec_raw() == raw,
            r.spec_kind() == kind,
    {
        MidiInputPort { raw, kind }
    }

    /// How the port receives.
    pub fn kind(&self) -> (r: InputPortKind)
        ensures
            r == self.spec_kind(),
    {
        self.kind
    }

    /// Refuses a request this port cannot serve, as `Unsupported`.
    pub fn check(&self, request: PortRequest) -> (r: MidiResult<()>)
        ensures
            r is Ok <==> self.spec_kind() == spec_kind_for(request),
            r matches Err(e) ==> e matches MidiError::Unsupported(m) && m@ == refusal_message(request),
    {
        check_request(self.kind, request)
    }

    /// The wrapped `MIDIPortRef`.
    pub fn raw(&self) -> (r: u32)
        ensures
            r == self.spec_raw(),
    {
        self.raw
    }
}

} // verus!
