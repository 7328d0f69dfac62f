//! The port mappings of an instance, one list per transport protocol.
use crate::manifest::port::{PortMapping, PortRange};
use crate::num::{decimal_chars, decimal_spec};
use crate::text::{concat_chars, string_of};
use vstd::prelude::*;

verus! {

/// The transport protocols a port mapping can be made for.
#[derive(Debug, Clone, Copy, PartialEq, Eq, Structural)]
pub enum TransportProtocol {
    Tcp,
    Udp,
    Sctp,
}

/// A new port mapping shares host ports with an existing one without using the same ones.
#[derive(Debug, Clone, Copy, PartialEq, Eq)]
pub struct PortMappingOverlap {
    pub new: PortMapping,
    pub existing: PortMapping,
}

/// Whether a new mapping `p` collides with the existing mapping `q`.
pub open spec fn conflicts(p: PortMapping, q: PortMapping) -> bool {
    p.host_equal_spec(&q) || p.host_overlap_spec(&q)
}

/// `i` is the first index of `v` whose host ports equal those of `q`.
pub open spec fn first_equal_at(v: Seq<PortMapping>, q: PortMapping, i: int) -> bool {
    &&& 0 <= i < v.len()
    &&& v[i].host_equal_spec(&q)
    &&& forall|j: int| 0 <= j < i ==> !v[j].host_equal_spec(&q)
}

/// No mapping of `v` has the host ports of `q`.
pub open spec fn none_equal(v: Seq<PortMapping>, q: PortMapping) -> bool {
    forall|j: int| 0 <= j < v.len() ==> !v[j].host_equal_spec(&q)
}

/// Outcome of adding or replacing `p` in `v`, giving `w`: the first mapping that collides
/// with `p` decides. With the same host ports it is replaced (`Ok(true)`); overlapping
/// otherwise, nothing changes (`Err`); with no collision, `p` is appended (`Ok(false)`).
pub open spec fn update_outcome(
    v: Seq<PortMapping>,
    p: PortMapping,
    w: Seq<PortMapping>,
    res: Result<bool, PortMappingOverlap>,
) -> bool {
    match res {
        Ok(true) => exists|i: int|
            {
                &&& 0 <= i < v.len()
                &&& #[trigger] p.host_equal_spec(&v[i])
                &&& forall|j: int| 0 <= j < i ==> !conflicts(p, v[j])
                &&& w == v.update(i, p)
            },
        Ok(false) => {
            &&& forall|j: int| 0 <= j < v.len() ==> !conflicts(p, v[j])
            &&& w == v.push(p)
        },
        Err(e) => exists|i: int|
            {
                &&& 0 <= i < v.len()
                &&& !p.host_equal_spec(&v[i])
                &&& #[trigger] p.host_overlap_spec(&v[i])
                &&& forall|j: int| 0 <= j < i ==> !conflicts(p, v[j])
                &&& e == PortMappingOverlap { new: p, existing: v[i] }
                &&& w == v
            },
    }
}

/// Outcome of looking up the first mapping of `v` with the host ports of `q`.
pub open spec fn find_outcome(v: Seq<PortMapping>, q: PortMapping, res: Option<PortMapping>) -> bool {
    match res {
        Some(m) => exists|i: int| #[trigger] first_equal_at(v, q, i) && m == v[i],
        None => none_equal(v, q),
    }
}

/// Outcome of removing the first mapping of `v` with the host ports of `q`, giving `w`.
pub open spec fn remove_outcome(
    v: Seq<PortMapping>,
    q: PortMapping,
    w: Seq<PortMapping>,
    res: Option<PortMapping>,
) -> bool {
    match res {
        Some(m) => exists|i: int| #[trigger] first_equal_at(v, q, i) && m == v[i] && w == v.remove(i),
        None => none_equal(v, q) && w == v,
    }
}

/// The query for a single host port.
pub open spec fn port_query(host_port: u16) -> PortMapping {
    PortMapping::Single(host_port, 0)
}

/// The query for a host port range.
pub open spec fn range_query(host_ports: PortRange) -> PortMapping {
    PortMapping::Range { from: host_ports, to: host_ports }
}

/// No two mappings share a host port.
pub open spec fn hosts_disjoint(v: Seq<PortMapping>) -> bool {
    forall|i: int, j: int|
        #![trigger v[i], v[j]]
        0 <= i < v.len() && 0 <= j < v.len() && i != j ==> !v[i].host_overlap_spec(&v[j])
}

/// All mappings are well formed and no two of them share a host port.
pub open spec fn disjoint_mappings(v: Seq<PortMapping>) -> bool {
    &&& forall|i: int| 0 <= i < v.len() ==> (#[trigger] v[i]).wf()
    &&& hosts_disjoint(v)
}

/// The port mappings of an instance.
#[derive(Debug, Clone, PartialEq, Eq)]
pub struct InstancePortMapping {
    pub tcp: Vec<PortMapping>,
    pub udp: Vec<PortMapping>,
    pub sctp: Vec<PortMapping>,
}

impl Default for InstancePortMapping {
    fn default() -> (res: Self)
        ensures
            res.tcp@.len() == 0,
            res.udp@.len() == 0,
            res.sctp@.len() == 0,
    {
        InstancePortMapping { tcp: Vec::new(), udp: Vec::new(), sctp: Vec::new() }
    }
}

impl InstancePortMapping {
    /// The mappings of one protocol.
    pub open spec fn list(&self, protocol: TransportProtocol) -> Seq<PortMapping> {
        match protocol {
            TransportProtocol::Tcp => self.tcp@,
            TransportProtocol::Udp => self.udp@,
            TransportProtocol::Sctp => self.sctp@,
        }
    }

    /// `other` differs from `self` at most in the mappings of `protocol`.
    pub open spec fn same_except(&self, other: &InstancePortMapping, protocol: TransportProtocol) -> bool {
        &&& protocol != TransportProtocol::Tcp ==> other.tcp@ == self.tcp@
        &&& protocol != TransportProtocol::Udp ==> other.udp@ == self.udp@
        &&& protocol != TransportProtocol::Sctp ==> other.sctp@ == self.sctp@
    }

    /// Whether no protocol has a mapping.
    pub fn is_empty(&self) -> (res: bool)
        ensures
            res == (self.tcp@.len() == 0 && self.udp@.len() == 0 && self.sctp@.len() == 0),
    {
        self.tcp.len() == 0 && self.udp.len() == 0 && self.sctp.len() == 0
    }

    /// Removes all mappings.
    pub fn clear(&mut self)
        ensures
            final(self).tcp@.len() == 0,
            final(self).udp@.len() == 0,
            final(self).sctp@.len() == 0,
    {
        self.tcp.clear();
        self.udp.clear();
        self.sctp.clear();
    }

    /// Adds `port_mapping`, or replaces the first mapping with the same host ports.
    ///
    /// Returns `Ok(true)` if a mapping was replaced, `Ok(false)` if it was added, and an
    /// error, changing nothing, if it overlaps an existing mapping first.
    pub fn update_port_mapping_vec(
        existing_port_mappings: &mut Vec<PortMapping>,
        port_mapping: PortMapping,
    ) -> (res: Result<bool, PortMappingOverlap>)
        ensures
            update_outcome(old(existing_port_mappings)@, port_mapping, final(existing_port_mappings)@, res),
    {
        let ghost v = existing_port_mappings@;
        let mut i: usize = 0;
        while i < existing_port_mappings.len()
            invariant
                0 <= i <= existing_port_mappings.len(),
                existing_port_mappings@ == v,
                v == old(existing_port_mappings)@,
                forall|j: int| 0 <= j < i ==> !conflicts(port_mapping, v[j]),
            decreases existing_port_mappings.len() - i,
        {
            let existing = existing_port_mappings[i];
            if port_mapping.are_host_ports_equal(&existing) {
                existing_port_mappings.set(i, port_mapping);
                assert(existing_port_mappings@ =~= v.update(i as int, port_mapping));
                assert(port_mapping.host_equal_spec(&v[i as int]));
                return Ok(true);
            }
            if port_mapping.do_host_ports_overlap(&existing) {
                assert(existing == v[i as int]);
                assert(!port_mapping.host_equal_spec(&v[i as int]));
                assert(port_mapping.host_overlap_spec(&v[i as int]));
                return Err(PortMappingOverlap { new: port_mapping, existing });
            }
            i = i + 1;
        }
        existing_port_mappings.push(port_mapping);
        Ok(false)
    }

    fn find_first(existing_port_mappings: &[PortMapping], query: PortMapping) -> (res: Option<usize>)
        ensures
            match res {
                Some(i) => first_equal_at(existing_port_mappings@, query, i as int),
                None => none_equal(existing_port_mappings@, query),
            },
    {
        let mut i: usize = 0;
        while i < existing_port_mappings.len()
            invariant
                0 <= i <= existing_port_mappings@.len(),
                forall|j: int| 0 <= j < i ==> !existing_port_mappings@[j].host_equal_spec(&query),
            decreases existing_port_mappings@.len() - i,
        {
            if existing_port_mappings[i].are_host_ports_equal(&query) {
                return Some(i);
            }
            i = i + 1;
        }
        None
    }

    fn remove_first(existing_port_mappings: &mut Vec<PortMapping>, query: PortMapping) -> (res: Option<PortMapping>)
        ensures
            remove_outcome(old(existing_port_mappings)@, query, final(existing_port_mappings)@, res),
    {
        match Self::find_first(existing_port_mappings.as_slice(), query) {
            Some(i) => {
                let ghost v = existing_port_mappings@;
                let m = existing_port_mappings.remove(i);
                assert(first_equal_at(v, query, i as int));
                Some(m)
            },
            None => None,
        }
    }

    /// Removes the first mapping whose host ports are exactly `host_port`.
    pub fn delete_port_mapping_vec(existing_port_mappings: &mut Vec<PortMapping>, host_port: u16) -> (res: Option<PortMapping>)
        ensures
            remove_outcome(old(existing_port_mappings)@, port_query(host_port), final(existing_port_mappings)@, res),
    {
        Self::remove_first(existing_port_mappings, PortMapping::Single(host_port, 0))
    }

    /// The first mapping whose host ports are exactly `host_port`.
    pub fn get_port_mapping_vec(existing_port_mappings: &[PortMapping], host_port: u16) -> (res: Option<PortMapping>)
        ensures
            find_outcome(existing_port_mappings@, port_query(host_port), res),
    {
        match Self::find_first(existing_port_mappings, PortMapping::Single(host_port, 0)) {
            Some(i) => Some(existing_port_mappings[i]),
            None => None,
        }
    }

    /// The first mapping whose host ports are exactly `host_ports`.
    pub fn get_port_mapping_range_vec(existing_port_mappings: &[PortMapping], host_ports: PortRange) -> (res: Option<PortMapping>)
        ensures
            find_outcome(existing_port_mappings@, range_query(host_ports), res),
    {
        match Self::find_first(existing_port_mappings, PortMapping::Range { from: host_ports, to: host_ports }) {
            Some(i) => Some(existing_port_mappings[i]),
            None => None,
        }
    }

    /// Removes the first mapping whose host ports are exactly `host_ports`.
    pub fn delete_port_mapping_range_vec(existing_port_mappings: &mut Vec<PortMapping>, host_ports: PortRange) -> (res: Option<PortMapping>)
        ensures
            remove_outcome(old(existing_port_mappings)@, range_query(host_ports), final(existing_port_mappings)@, res),
    {
        Self::remove_first(existing_port_mappings, PortMapping::Range { from: host_ports, to: host_ports })
    }

    /// Adds or replaces `mapping` among the mappings of `protocol`; see
    /// [`InstancePortMapping::update_port_mapping_vec`].
    pub fn update_port_mapping(&mut self, mapping: PortMapping, protocol: TransportProtocol) -> (res: Result<bool, PortMappingOverlap>)
        ensures
            update_outcome(old(self).list(protocol), mapping, final(self).list(protocol), res),
            old(self).same_except(&*final(self), protocol),
    {
        match protocol {
            TransportProtocol::Tcp => Self::update_port_mapping_vec(&mut self.tcp, mapping),
            TransportProtocol::Udp => Self::update_port_mapping_vec(&mut self.udp, mapping),
            TransportProtocol::Sctp => Self::update_port_mapping_vec(&mut self.sctp, mapping),
        }
    }

    /// Removes the mapping of `protocol` whose host port is `host_port`.
    pub fn delete_port_mapping(&mut self, host_port: u16, protocol: TransportProtocol) -> (res: Option<PortMapping>)
        ensures
            remove_outcome(old(self).list(protocol), port_query(host_port), final(self).list(protocol), res),
            old(self).same_except(&*final(self), protocol),
    {
        match protocol {
            TransportProtocol::Tcp => Self::delete_port_mapping_vec(&mut self.tcp, host_port),
            TransportProtocol::Udp => Self::delete_port_mapping_vec(&mut self.udp, host_port),
            TransportProtocol::Sctp => Self::delete_port_mapping_vec(&mut self.sctp, host_port),
        }
    }

    /// The mapping of `protocol` whose host port is `host_port`.
    pub fn get_port_mapping(&self, host_port: u16, protocol: TransportProtocol) -> (res: Option<PortMapping>)
        ensures
            find_outcome(self.list(protocol), port_query(host_port), res),
    {
        match protocol {
            TransportProtocol::Tcp => Self::get_port_mapping_vec(self.tcp.as_slice(), host_port),
            TransportProtocol::Udp => Self::get_port_mapping_vec(self.udp.as_slice(), host_port),
            TransportProtocol::Sctp => Self::get_port_mapping_vec(self.sctp.as_slice(), host_port),
        }
    }

    /// The mapping of `protocol` whose host ports are `host_port_range`.
    pub fn get_port_mapping_range(&self, host_port_range: PortRange, protocol: TransportProtocol) -> (res: Option<PortMapping>)
        ensures
            find_outcome(self.list(protocol), range_query(host_port_range), res),
    {
        match protocol {
            TransportProtocol::Tcp => Self::get_port_mapping_range_vec(self.tcp.as_slice(), host_port_range),
            TransportProtocol::Udp => Self::get_port_mapping_range_vec(self.udp.as_slice(), host_port_range),
            TransportProtocol::Sctp => Self::get_port_mapping_range_vec(self.sctp.as_slice(), host_port_range),
        }
    }

    /// Removes the mapping of `protocol` whose host ports are `host_ports`.
    pub fn delete_port_mapping_range(&mut self, host_ports: PortRange, protocol: TransportProtocol) -> (res: Option<PortMapping>)
        ensures
            remove_outcome(old(self).list(protocol), range_query(host_ports), final(self).list(protocol), res),
            old(self).same_except(&*final(self), protocol),
    {
        match protocol {
            TransportProtocol::Tcp => Self::delete_port_mapping_range_vec(&mut self.tcp, host_ports),
            TransportProtocol::Udp => Self::delete_port_mapping_range_vec(&mut self.udp, host_ports),
            TransportProtocol::Sctp => Self::delete_port_mapping_range_vec(&mut self.sctp, host_ports),
        }
    }
}

/// The query that finds a mapping by its own host ports.
pub open spec fn query_for(p: PortMapping) -> PortMapping {
    match p {
        PortMapping::Single(h, _) => port_query(h),
        PortMapping::Range { from, .. } => range_query(from),
    }
}

/// A mapping and its query agree on which mappings have the same host ports.
proof fn lemma_query_for(p: PortMapping, m: PortMapping)
    ensures
        p.host_equal_spec(&query_for(p)),
        m.host_equal_spec(&query_for(p)) == p.host_equal_spec(&m),
{
}

/// Mappings with the same host ports overlap the same mappings.
proof fn lemma_same_hosts_same_overlap(a: PortMapping, b: PortMapping, c: PortMapping)
    requires
        a.host_equal_spec(&b),
    ensures
        a.host_overlap_spec(&c) == b.host_overlap_spec(&c),
        c.host_overlap_spec(&a) == c.host_overlap_spec(&b),
{
}

/// Two well formed mappings with the host ports of one query overlap each other.
proof fn lemma_same_query_overlap(a: PortMapping, b: PortMapping, q: PortMapping)
    requires
        a.wf(),
        b.wf(),
        q.wf(),
        a.host_equal_spec(&q),
        b.host_equal_spec(&q),
    ensures
        a.host_overlap_spec(&b),
{
}

/// At most one index is the first with a given property.
proof fn lemma_first_unique(v: Seq<PortMapping>, q: PortMapping, i: int, k: int)
    requires
        first_equal_at(v, q, i),
        first_equal_at(v, q, k),
    ensures
        i == k,
{
    if i < k {
        assert(!v[i].host_equal_spec(&q));
    } else if k < i {
        assert(!v[k].host_equal_spec(&q));
    }
}

/// After a mapping was added or replaced, looking it up by its host ports finds it.
pub proof fn law_update_then_find(
    v: Seq<PortMapping>,
    p: PortMapping,
    w: Seq<PortMapping>,
    replaced: bool,
    found: Option<PortMapping>,
)
    requires
        update_outcome(v, p, w, Ok(replaced)),
        find_outcome(w, query_for(p), found),
    ensures
        found == Some(p),
{
    let q = query_for(p);
    lemma_query_for(p, p);
    let i: int = if replaced {
        choose|i: int|
            {
                &&& 0 <= i < v.len()
                &&& #[trigger] p.host_equal_spec(&v[i])
                &&& forall|j: int| 0 <= j < i ==> !conflicts(p, v[j])
                &&& w == v.update(i, p)
            }
    } else {
        v.len() as int
    };
    assert(w[i] == p);
    assert forall|j: int| 0 <= j < i implies !w[j].host_equal_spec(&q) by {
        lemma_query_for(p, w[j]);
        assert(w[j] == v[j]);
        assert(!conflicts(p, v[j]));
    }
    assert(first_equal_at(w, q, i));
    match found {
        Some(m) => {
            let k = choose|k: int| #[trigger] first_equal_at(w, q, k) && m == w[k];
            lemma_first_unique(w, q, i, k);
        },
        None => {
            assert(w[i].host_equal_spec(&q));
        },
    }
}

/// Adding or replacing a mapping keeps the mappings free of shared host ports; where all
/// mappings and the new one are well formed, all stay so.
pub proof fn law_update_keeps_disjoint(
    v: Seq<PortMapping>,
    p: PortMapping,
    w: Seq<PortMapping>,
    res: Result<bool, PortMappingOverlap>,
)
    requires
        hosts_disjoint(v),
        update_outcome(v, p, w, res),
    ensures
        hosts_disjoint(w),
        disjoint_mappings(v) && p.wf() ==> disjoint_mappings(w),
{
    match res {
        Ok(true) => {
            let i = choose|i: int|
                {
                    &&& 0 <= i < v.len()
                    &&& #[trigger] p.host_equal_spec(&v[i])
                    &&& forall|j: int| 0 <= j < i ==> !conflicts(p, v[j])
                    &&& w == v.update(i, p)
                };
            assert forall|a: int, b: int|
                #![trigger w[a], w[b]]
                0 <= a < w.len() && 0 <= b < w.len() && a != b implies !w[a].host_overlap_spec(
                &w[b],
            ) by {
                if a == i {
                    lemma_same_hosts_same_overlap(p, v[i], v[b]);
                    assert(!v[a].host_overlap_spec(&v[b]));
                } else if b == i {
                    lemma_same_hosts_same_overlap(p, v[i], v[a]);
                    assert(!v[a].host_overlap_spec(&v[b]));
                } else {
                    assert(!v[a].host_overlap_spec(&v[b]));
                }
            }
        },
        Ok(false) => {
            assert forall|a: int, b: int|
                #![trigger w[a], w[b]]
                0 <= a < w.len() && 0 <= b < w.len() && a != b implies !w[a].host_overlap_spec(
                &w[b],
            ) by {
                if a == v.len() {
                    assert(!conflicts(p, v[b]));
                } else if b == v.len() {
                    assert(!conflicts(p, v[a]));
                } else {
                    assert(!v[a].host_overlap_spec(&v[b]));
                }
            }
        },
        Err(_) => {},
    }
}

/// After the mapping with the host ports of a well formed query was removed from mappings
/// without shared host ports, no mapping with those host ports is left, and the rest still
/// shares no host ports.
pub proof fn law_remove_then_find_nothing(
    v: Seq<PortMapping>,
    q: PortMapping,
    w: Seq<PortMapping>,
    removed: Option<PortMapping>,
    found: Option<PortMapping>,
)
    requires
        disjoint_mappings(v),
        q.wf(),
        remove_outcome(v, q, w, removed),
        find_outcome(w, q, found),
    ensures
        found is None,
        disjoint_mappings(w),
{
    match removed {
        Some(m) => {
            let i = choose|i: int| #[trigger] first_equal_at(v, q, i) && m == v[i] && w == v.remove(i);
            assert forall|k: int| 0 <= k < w.len() implies !w[k].host_equal_spec(&q) by {
                let k2 = if k < i { k } else { k + 1 };
                assert(w[k] == v[k2]);
                if w[k].host_equal_spec(&q) {
                    lemma_same_query_overlap(v[k2], v[i], q);
                    assert(!v[k2].host_overlap_spec(&v[i]));
                }
            }
            assert forall|a: int, b: int|
                #![trigger w[a], w[b]]
                0 <= a < w.len() && 0 <= b < w.len() && a != b implies !w[a].host_overlap_spec(
                &w[b],
            ) by {
                let a2 = if a < i { a } else { a + 1 };
                let b2 = if b < i { b } else { b + 1 };
                assert(w[a] == v[a2] && w[b] == v[b2]);
                assert(!v[a2].host_overlap_spec(&v[b2]));
            }
            assert forall|k: int| 0 <= k < w.len() implies (#[trigger] w[k]).wf() by {
                let k2 = if k < i { k } else { k + 1 };
                assert(w[k] == v[k2]);
            }
        },
        None => {},
    }
    if let Some(f) = found {
        let k = choose|k: int| #[trigger] first_equal_at(w, q, k) && f == w[k];
        assert(w[k].host_equal_spec(&q));
        match removed {
            Some(_) => {},
            None => {
                assert(!v[k].host_equal_spec(&q));
            },
        }
    }
}

/// A failed update leaves the mappings as they were.
pub proof fn law_rejected_update_changes_nothing(
    v: Seq<PortMapping>,
    p: PortMapping,
    w: Seq<PortMapping>,
    e: PortMappingOverlap,
)
    requires
        update_outcome(v, p, w, Err(e)),
    ensures
        w == v,
        e.new == p,
        v.contains(e.existing),
{
    let i = choose|i: int|
        {
            &&& 0 <= i < v.len()
            &&& !p.host_equal_spec(&v[i])
            &&& #[trigger] p.host_overlap_spec(&v[i])
            &&& forall|j: int| 0 <= j < i ==> !conflicts(p, v[j])
            &&& e == PortMappingOverlap { new: p, existing: v[i] }
            &&& w == v
        };
    assert(v[i] == e.existing);
}

/// The name of a transport protocol in a container port key.
pub open spec fn protocol_text(protocol: TransportProtocol) -> Seq<char> {
    match protocol {
        TransportProtocol::Tcp => seq!['t', 'c', 'p'],
        TransportProtocol::Udp => seq!['u', 'd', 'p'],
        TransportProtocol::Sctp => seq!['s', 'c', 't', 'p'],
    }
}

/// The binding of one host port to one container port: the key `<container port>/<protocol>`
/// and the host port, both as text.
pub open spec fn binding_spec(host_port: int, container_port: int, protocol: TransportProtocol) -> (
    Seq<char>,
    Seq<char>,
) {
    (
        decimal_spec(container_port as nat) + seq!['/'] + protocol_text(protocol),
        decimal_spec(host_port as nat),
    )
}

/// The number of ports from `start` to `end`, none where `end` lies before `start`.
pub open spec fn ports_between(start: u16, end: u16) -> nat {
    if start <= end {
        (end - start + 1) as nat
    } else {
        0
    }
}

/// The bindings of a port mapping: one per port, host and container ports paired in order
/// as long as both ranges last.
pub open spec fn mapping_bindings(mapping: PortMapping, protocol: TransportProtocol) -> Seq<
    (Seq<char>, Seq<char>),
> {
    match mapping {
        PortMapping::Single(host, container) => seq![binding_spec(host as int, container as int, protocol)],
        PortMapping::Range { from, to } => {
            let n = if ports_between(from.start, from.end) <= ports_between(to.start, to.end) {
                ports_between(from.start, from.end)
            } else {
                ports_between(to.start, to.end)
            };
            Seq::new(n, |i: int| binding_spec(from.start + i, to.start + i, protocol))
        },
    }
}

/// The bindings of a list of port mappings, in order.
pub open spec fn list_bindings(mappings: Seq<PortMapping>, protocol: TransportProtocol) -> Seq<
    (Seq<char>, Seq<char>),
>
    decreases mappings.len(),
{
    if mappings.len() == 0 {
        Seq::empty()
    } else {
        list_bindings(mappings.drop_last(), protocol) + mapping_bindings(mappings.last(), protocol)
    }
}

/// The texts of a list of bindings.
pub open spec fn bindings_view(v: Seq<(String, String)>) -> Seq<(Seq<char>, Seq<char>)> {
    Seq::new(v.len(), |i: int| (v[i].0@, v[i].1@))
}

fn protocol_chars(protocol: TransportProtocol) -> (res: Vec<char>)
    ensures
        res@ == protocol_text(protocol),
{
    let mut v: Vec<char> = Vec::new();
    match protocol {
        TransportProtocol::Tcp => {
            v.push('t');
            v.push('c');
            v.push('p');
        },
        TransportProtocol::Udp => {
            v.push('u');
            v.push('d');
            v.push('p');
        },
        TransportProtocol::Sctp => {
            v.push('s');
            v.push('c');
            v.push('t');
            v.push('p');
        },
    }
    assert(v@ =~= protocol_text(protocol));
    v
}

/// The binding of `host_port` to `container_port` for the protocol.
pub fn new_port_bindings(host_port: u16, container_port: u16, transport_protocol: TransportProtocol) -> (res: (
    String,
    String,
))
    ensures
        (res.0@, res.1@) == binding_spec(host_port as int, container_port as int, transport_protocol),
{
    let mut slash: Vec<char> = Vec::new();
    slash.push('/');
    let key = concat_chars(
        &concat_chars(&decimal_chars(container_port as u64), &slash),
        &protocol_chars(transport_protocol),
    );
    assert(key@ =~= binding_spec(host_port as int, container_port as int, transport_protocol).0);
    (string_of(&key), string_of(&decimal_chars(host_port as u64)))
}

/// The bindings of one port mapping for the protocol.
pub fn port_mapping_to_port_bindings(port_mapping: &PortMapping, transport_protocol: TransportProtocol) -> (res: Vec<
    (String, String),
>)
    ensures
        bindings_view(res@) == mapping_bindings(*port_mapping, transport_protocol),
{
    let mut res: Vec<(String, String)> = Vec::new();
    match port_mapping {
        PortMapping::Single(host, container) => {
            res.push(new_port_bindings(*host, *container, transport_protocol));
            assert(bindings_view(res@) =~= mapping_bindings(*port_mapping, transport_protocol));
        },
        PortMapping::Range { from, to } => {
            let from_len: u32 = if from.start <= from.end {
                (from.end - from.start) as u32 + 1
            } else {
                0
            };
            let to_len: u32 = if to.start <= to.end {
                (to.end - to.start) as u32 + 1
            } else {
                0
            };
            let n: u32 = if from_len <= to_len {
                from_len
            } else {
                to_len
            };
            let ghost target = mapping_bindings(*port_mapping, transport_protocol);
            assert(target.len() == n);
            let mut i: u32 = 0;
            while i < n
                invariant
                    i <= n,
                    n <= from_len,
                    n <= to_len,
                    from_len == ports_between(from.start, from.end),
                    to_len == ports_between(to.start, to.end),
                    target == mapping_bindings(*port_mapping, transport_protocol),
                    *port_mapping == (PortMapping::Range { from: *from, to: *to }),
                    target.len() == n,
                    bindings_view(res@) == target.take(i as int),
                decreases n - i,
            {
                assert(from.start + i <= from.end);
                assert(to.start + i <= to.end);
                let host = (from.start as u32 + i) as u16;
                let container = (to.start as u32 + i) as u16;
                assert(target[i as int] == binding_spec(host as int, container as int, transport_protocol));
                let ghost len_before = res@.len();
                let ghost old_res = res@;
                res.push(new_port_bindings(host, container, transport_protocol));
                assert(bindings_view(res@)[len_before as int] == target[i as int]);
                assert(bindings_view(old_res).len() == old_res.len());
                assert(target.take(i as int).len() == i);
                assert(len_before == i);
                assert forall|k: int| 0 <= k < len_before + 1 implies bindings_view(res@)[k]
                    == target.take(i + 1)[k] by {
                    if k < len_before {
                        assert(res@[k] == old_res[k]);
                        assert(bindings_view(old_res)[k] == target.take(i as int)[k]);
                    }
                }
                assert(bindings_view(res@) =~= target.take(i + 1));
                i = i + 1;
            }
            assert(target.take(n as int) =~= target);
        },
    }
    res
}

impl InstancePortMapping {
    /// The bindings of all port mappings: those for TCP, then UDP, then SCTP, each list in
    /// its order. Where a key repeats, the later binding is the one that counts.
    pub fn generate_port_bindings(&self) -> (res: Vec<(String, String)>)
        ensures
            bindings_view(res@) == list_bindings(self.tcp@, TransportProtocol::Tcp) + list_bindings(
                self.udp@,
                TransportProtocol::Udp,
            ) + list_bindings(self.sctp@, TransportProtocol::Sctp),
    {
        let mut res: Vec<(String, String)> = Vec::new();
        append_list_bindings(&mut res, &self.tcp, TransportProtocol::Tcp);
        append_list_bindings(&mut res, &self.udp, TransportProtocol::Udp);
        append_list_bindings(&mut res, &self.sctp, TransportProtocol::Sctp);
        res
    }
}

fn append_list_bindings(res: &mut Vec<(String, String)>, mappings: &Vec<PortMapping>, protocol: TransportProtocol)
    ensures
        bindings_view(final(res)@) == bindings_view(old(res)@) + list_bindings(mappings@, protocol),
{
    let ghost start = bindings_view(res@);
    let mut i: usize = 0;
    assert(mappings@.take(0) =~= Seq::<PortMapping>::empty());
    assert(start + list_bindings(Seq::<PortMapping>::empty(), protocol) =~= start);
    while i < mappings.len()
        invariant
            i <= mappings@.len(),
            bindings_view(res@) == start + list_bindings(mappings@.take(i as int), protocol),
        decreases mappings@.len() - i,
    {
        let more = port_mapping_to_port_bindings(&mappings[i], protocol);
        let ghost before = bindings_view(res@);
        let mut j: usize = 0;
        while j < more.len()
            invariant
                j <= more@.len(),
                bindings_view(res@) == before + bindings_view(more@).take(j as int),
            decreases more@.len() - j,
        {
            let a = more[j].0.clone();
            let b = more[j].1.clone();
            assert(a@ == more@[j as int].0@ && b@ == more@[j as int].1@);
            let ghost len_before = res@.len();
            let ghost old_res = res@;
            res.push((a, b));
            assert(bindings_view(res@)[len_before as int] == bindings_view(more@)[j as int]);
            assert(bindings_view(old_res).len() == old_res.len());
            assert(bindings_view(more@).take(j as int).len() == j);
            assert(len_before == before.len() + j);
            assert forall|k: int| 0 <= k < len_before + 1 implies bindings_view(res@)[k] == (before
                + bindings_view(more@).take(j + 1))[k] by {
                if k < len_before {
                    assert(res@[k] == old_res[k]);
                    assert(bindings_view(old_res)[k] == (before + bindings_view(more@).take(
                        j as int,
                    ))[k]);
                }
            }
            assert(bindings_view(res@) =~= before + bindings_view(more@).take(j + 1));
            j = j + 1;
        }
        assert(bindings_view(more@).take(j as int) =~= bindings_view(more@));
        assert(mappings@.take(i + 1).drop_last() =~= mappings@.take(i as int));
        assert(bindings_view(res@) =~= start + list_bindings(mappings@.take(i + 1), protocol));
        i = i + 1;
    }
    assert(mappings@.take(i as int) =~= mappings@);
}

/// A mapping of well formed ranges of equal size binds every host port of it, each to the
/// container port at the same place, and normalizing the mapping does not change its
/// bindings.
pub proof fn law_bindings_one_per_port(m: PortMapping, protocol: TransportProtocol)
    requires
        m.wf(),
        m matches PortMapping::Range { from, to } ==> from.len_spec() == to.len_spec(),
    ensures
        mapping_bindings(m, protocol).len() == match m {
            PortMapping::Single(..) => 1,
            PortMapping::Range { from, .. } => from.len_spec(),
        },
        forall|i: int|
            0 <= i < mapping_bindings(m, protocol).len() ==> #[trigger] mapping_bindings(m, protocol)[i]
                == match m {
                PortMapping::Single(h, c) => binding_spec(h as int, c as int, protocol),
                PortMapping::Range { from, to } => binding_spec(from.start + i, to.start + i, protocol),
            },
        mapping_bindings(m.normalize_spec(), protocol) == mapping_bindings(m, protocol),
{
    if let PortMapping::Range { from, to } = m {
        if from.start == from.end {
            assert(mapping_bindings(m, protocol) =~= mapping_bindings(m.normalize_spec(), protocol));
        }
    }
}

} // verus!
