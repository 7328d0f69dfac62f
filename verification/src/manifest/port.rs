//! Port ranges and port mappings as app manifests and instance configurations write them:
//! `"8080"`, `"80:8080"`, `"1000-1010"` or `"1000-1010:2000-2010"`.
use crate::num::{
    decimal_chars, decimal_spec, lemma_decimal_all_digits, lemma_u16_roundtrip, parse_u16,
    parse_u16_spec, IntErrorKind, ParseIntError,
};
use crate::text::{
    chars_of, concat_chars, contains_char, lemma_concat_free, lemma_split_two, split_at_char,
    split_spec, string_of,
};
use std::ops::RangeInclusive;
use vstd::prelude::*;

verus! {

/// An inclusive range of ports.
#[derive(Debug, Clone, Copy, PartialEq, Eq, Structural)]
pub struct PortRange {
    pub start: u16,
    pub end: u16,
}

/// Why a port range could not be built or read.
#[derive(Debug, Clone, Copy, PartialEq, Eq)]
pub enum PortRangeError {
    /// The first port lies above the last one.
    StartAfterEnd { start: u16, end: u16 },
    /// The text did not consist of exactly two values separated by `-`; holds the number of parts.
    PartCount(usize),
    /// A part was no port number.
    InvalidNumber(ParseIntError),
}

/// Why a port mapping could not be read.
#[derive(Debug, Clone, Copy, PartialEq, Eq)]
pub enum PortMappingError {
    /// More than two parts separated by `:`; holds their number.
    PartCount(usize),
    /// One side of a range mapping is no port range.
    Range(PortRangeError),
    /// One side of a single mapping is no port number.
    InvalidNumber(ParseIntError),
    /// The two ranges of a range mapping hold different numbers of ports.
    SizeMismatch { from_len: usize, to_len: usize },
}

/// Maps ports of the host onto ports of a container.
#[derive(Debug, Clone, Copy, PartialEq, Eq, Structural)]
pub enum PortMapping {
    /// A single host port onto a single container port.
    Single(u16, u16),
    /// The host ports of `from` onto the container ports of `to`, in order.
    Range { from: PortRange, to: PortRange },
}

/// The first port of a range, by `RangeInclusive::start`; the contract claims that it is the
/// start the range was made with, as long as the range was not iterated to its end.
#[verifier::external_body]
fn range_start(range: &RangeInclusive<u16>) -> (res: u16)
    ensures
        !range@.exhausted ==> res == range@.start,
{
    *range.start()
}

/// The last port of a range, by `RangeInclusive::end`; the contract claims that it is the
/// end the range was made with, as long as the range was not iterated to its end.
#[verifier::external_body]
fn range_end(range: &RangeInclusive<u16>) -> (res: u16)
    ensures
        !range@.exhausted ==> res == range@.end,
{
    *range.end()
}

/// The text of a port range: `start-end`.
pub open spec fn port_range_text(start: u16, end: u16) -> Seq<char> {
    decimal_spec(start as nat) + seq!['-'] + decimal_spec(end as nat)
}

/// The port range that `text` denotes, or why it denotes none.
pub open spec fn parse_port_range_spec(text: Seq<char>) -> Result<PortRange, PortRangeError> {
    let parts = split_spec(text, '-');
    if parts.len() != 2 {
        Err(PortRangeError::PartCount(parts.len() as usize))
    } else {
        match parse_u16_spec(parts[0]) {
            Err(kind) => Err(PortRangeError::InvalidNumber(ParseIntError { kind })),
            Ok(start) => match parse_u16_spec(parts[1]) {
                Err(kind) => Err(PortRangeError::InvalidNumber(ParseIntError { kind })),
                Ok(end) => if start <= end {
                    Ok(PortRange { start: start as u16, end: end as u16 })
                } else {
                    Err(PortRangeError::StartAfterEnd { start: start as u16, end: end as u16 })
                },
            },
        }
    }
}

/// Every range read from text is well formed.
pub proof fn lemma_parsed_range_wf(text: Seq<char>)
    ensures
        parse_port_range_spec(text) matches Ok(r) ==> r.wf(),
{
    let parts = split_spec(text, '-');
    if parts.len() == 2 {
        crate::num::lemma_parse_unsigned_bound(parts[0], 10, 65535);
        crate::num::lemma_parse_unsigned_bound(parts[1], 10, 65535);
    }
}

impl PortRange {
    /// A range is well formed when it does not end before it starts.
    pub open spec fn wf(&self) -> bool {
        self.start <= self.end
    }

    /// The number of ports in the range.
    pub open spec fn len_spec(&self) -> nat {
        (self.end - self.start + 1) as nat
    }

    /// Whether `port` lies in the range.
    pub open spec fn contains_spec(&self, port: u16) -> bool {
        self.start <= port <= self.end
    }

    /// Whether the two ranges share a port.
    pub open spec fn overlaps_spec(&self, other: &PortRange) -> bool {
        self.start <= other.end && other.start <= self.end
    }

    /// The number of ports in the range.
    pub fn len(&self) -> (res: usize)
        requires
            self.wf(),
        ensures
            res == self.len_spec(),
    {
        (self.end - self.start) as usize + 1
    }

    /// The range from `start` to `end`; fails when `start` lies above `end`.
    pub fn try_new(start: u16, end: u16) -> (res: Result<Self, PortRangeError>)
        ensures
            start <= end ==> res == Ok::<PortRange, PortRangeError>(PortRange { start, end }),
            start > end ==> res == Err::<PortRange, PortRangeError>(
                PortRangeError::StartAfterEnd { start, end },
            ),
    {
        if start <= end {
            Ok(Self { start, end })
        } else {
            Err(PortRangeError::StartAfterEnd { start, end })
        }
    }

    /// The range with the bounds of `range`; the bounds are taken as they are.
    pub fn new(range: RangeInclusive<u16>) -> (res: Self)
        ensures
            !range@.exhausted ==> res == (PortRange { start: range@.start, end: range@.end }),
    {
        Self { start: range_start(&range), end: range_end(&range) }
    }

    /// Same as [`PortRange::new`].
    pub fn from(range: RangeInclusive<u16>) -> (res: Self)
        ensures
            !range@.exhausted ==> res == (PortRange { start: range@.start, end: range@.end }),
    {
        Self::new(range)
    }

    /// The ports of the range as a Rust range.
    pub fn range(&self) -> (res: RangeInclusive<u16>)
        ensures
            res@.start == self.start,
            res@.end == self.end,
            !res@.exhausted,
    {
        self.start..=self.end
    }

    /// Whether `port` lies in the range.
    pub fn contains(&self, port: u16) -> (res: bool)
        ensures
            res == self.contains_spec(port),
    {
        self.start <= port && port <= self.end
    }

    /// Whether the two ranges share a port.
    pub fn overlaps(&self, range: &PortRange) -> (res: bool)
        ensures
            res == self.overlaps_spec(range),
    {
        self.start <= range.end && range.start <= self.end
    }

    /// The range as text, `start-end`.
    pub fn to_chars(&self) -> (res: Vec<char>)
        ensures
            res@ == port_range_text(self.start, self.end),
    {
        let mut dash: Vec<char> = Vec::new();
        dash.push('-');
        let a = decimal_chars(self.start as u64);
        let b = decimal_chars(self.end as u64);
        let ab = concat_chars(&a, &dash);
        let res = concat_chars(&ab, &b);
        assert(dash@ =~= seq!['-']);
        res
    }

    /// The range as text, `start-end`.
    pub fn to_string(&self) -> (res: String)
        ensures
            res@ == port_range_text(self.start, self.end),
    {
        string_of(&self.to_chars())
    }

    /// Reads a range written as two port numbers separated by `-`.
    pub fn from_chars(text: &Vec<char>) -> (res: Result<Self, PortRangeError>)
        ensures
            res == parse_port_range_spec(text@),
    {
        let parts = split_at_char(text, '-');
        if parts.len() != 2 {
            return Err(PortRangeError::PartCount(parts.len()));
        }
        let start = match parse_u16(&parts[0]) {
            Ok(v) => v,
            Err(e) => {
                return Err(PortRangeError::InvalidNumber(e));
            },
        };
        let end = match parse_u16(&parts[1]) {
            Ok(v) => v,
            Err(e) => {
                return Err(PortRangeError::InvalidNumber(e));
            },
        };
        Self::try_new(start, end)
    }

    /// Reads a range written as two port numbers separated by `-`.
    pub fn from_str(s: &str) -> (res: Result<Self, PortRangeError>)
        ensures
            res == parse_port_range_spec(s@),
    {
        Self::from_chars(&chars_of(s))
    }
}

/// The text of a port mapping: `host:container` or `from:to` for ranges.
pub open spec fn port_mapping_text(m: PortMapping) -> Seq<char> {
    match m {
        PortMapping::Single(host, container) => decimal_spec(host as nat) + seq![':']
            + decimal_spec(container as nat),
        PortMapping::Range { from, to } => port_range_text(from.start, from.end) + seq![':']
            + port_range_text(to.start, to.end),
    }
}

/// The port mapping that `text` denotes, or why it denotes none.
///
/// One part stands for itself on both sides; a first part with a `-` makes a range mapping,
/// whose two ranges must hold equally many ports.
pub open spec fn parse_port_mapping_spec(text: Seq<char>) -> Result<PortMapping, PortMappingError> {
    let parts = split_spec(text, ':');
    if parts.len() != 1 && parts.len() != 2 {
        Err(PortMappingError::PartCount(parts.len() as usize))
    } else {
        let from = parts[0];
        let to = if parts.len() == 1 {
            parts[0]
        } else {
            parts[1]
        };
        if from.contains('-') {
            match parse_port_range_spec(from) {
                Err(e) => Err(PortMappingError::Range(e)),
                Ok(from_range) => match parse_port_range_spec(to) {
                    Err(e) => Err(PortMappingError::Range(e)),
                    Ok(to_range) => if from_range.len_spec() == to_range.len_spec() {
                        Ok(PortMapping::Range { from: from_range, to: to_range })
                    } else {
                        Err(
                            PortMappingError::SizeMismatch {
                                from_len: from_range.len_spec() as usize,
                                to_len: to_range.len_spec() as usize,
                            },
                        )
                    },
                },
            }
        } else {
            match parse_u16_spec(from) {
                Err(kind) => Err(PortMappingError::InvalidNumber(ParseIntError { kind })),
                Ok(host) => match parse_u16_spec(to) {
                    Err(kind) => Err(PortMappingError::InvalidNumber(ParseIntError { kind })),
                    Ok(container) => Ok(PortMapping::Single(host as u16, container as u16)),
                },
            }
        }
    }
}

impl PortMapping {
    /// All ranges of the mapping are well formed.
    pub open spec fn wf(&self) -> bool {
        match self {
            PortMapping::Single(..) => true,
            PortMapping::Range { from, to } => from.wf() && to.wf(),
        }
    }

    /// Whether the host ports of the two mappings share a port.
    pub open spec fn host_overlap_spec(&self, other: &PortMapping) -> bool {
        match (*self, *other) {
            (PortMapping::Single(h, _), PortMapping::Single(o, _)) => h == o,
            (PortMapping::Single(h, _), PortMapping::Range { from, .. }) => from.contains_spec(h),
            (PortMapping::Range { from, .. }, PortMapping::Single(h, _)) => from.contains_spec(h),
            (PortMapping::Range { from, .. }, PortMapping::Range { from: other_from, .. }) =>
                from.overlaps_spec(&other_from),
        }
    }

    /// Whether the two mappings use the same host ports.
    pub open spec fn host_equal_spec(&self, other: &PortMapping) -> bool {
        match (*self, *other) {
            (PortMapping::Single(h, _), PortMapping::Single(o, _)) => h == o,
            (PortMapping::Single(h, _), PortMapping::Range { from, .. }) => h == from.start && h
                == from.end,
            (PortMapping::Range { from, .. }, PortMapping::Single(h, _)) => h == from.start && h
                == from.end,
            (PortMapping::Range { from, .. }, PortMapping::Range { from: other_from, .. }) => from
                == other_from,
        }
    }

    /// A range mapping of a single port becomes a single mapping.
    pub open spec fn normalize_spec(self) -> PortMapping {
        match self {
            PortMapping::Range { from, to } => if from.start == from.end {
                PortMapping::Single(from.start, to.start)
            } else {
                self
            },
            _ => self,
        }
    }

    /// Whether the host ports of the two mappings share a port.
    pub fn do_host_ports_overlap(&self, other: &PortMapping) -> (res: bool)
        ensures
            res == self.host_overlap_spec(other),
    {
        match (self, other) {
            (PortMapping::Single(host_port, _), PortMapping::Single(other_host_port, _)) => {
                *host_port == *other_host_port
            },
            (PortMapping::Single(host_port, _), PortMapping::Range { from, .. }) => {
                from.contains(*host_port)
            },
            (PortMapping::Range { from, .. }, PortMapping::Single(host_port, _)) => {
                from.contains(*host_port)
            },
            (PortMapping::Range { from, .. }, PortMapping::Range { from: other_from, .. }) => {
                from.overlaps(other_from)
            },
        }
    }

    /// Whether the two mappings use the same host ports.
    pub fn are_host_ports_equal(&self, other: &PortMapping) -> (res: bool)
        ensures
            res == self.host_equal_spec(other),
    {
        match (self, other) {
            (PortMapping::Single(host_port, _), PortMapping::Single(other_host_port, _)) => {
                *host_port == *other_host_port
            },
            (PortMapping::Single(host_port, _), PortMapping::Range { from, .. }) => {
                *host_port == from.start && *host_port == from.end
            },
            (PortMapping::Range { from, .. }, PortMapping::Single(host_port, _)) => {
                *host_port == from.start && *host_port == from.end
            },
            (PortMapping::Range { from, .. }, PortMapping::Range { from: other_from, .. }) => {
                *from == *other_from
            },
        }
    }

    /// A range mapping whose host range holds one port becomes a single mapping.
    pub fn normalize(self) -> (res: Self)
        ensures
            res == self.normalize_spec(),
    {
        match self {
            PortMapping::Range { from, to } => {
                if from.start == from.end {
                    PortMapping::Single(from.start, to.start)
                } else {
                    self
                }
            },
            _ => self,
        }
    }

    /// The mapping as text, `host:container`.
    pub fn to_chars(&self) -> (res: Vec<char>)
        ensures
            res@ == port_mapping_text(*self),
    {
        let mut colon: Vec<char> = Vec::new();
        colon.push(':');
        assert(colon@ =~= seq![':']);
        let (a, b) = match self {
            PortMapping::Single(host, container) => (
                decimal_chars(*host as u64),
                decimal_chars(*container as u64),
            ),
            PortMapping::Range { from, to } => (from.to_chars(), to.to_chars()),
        };
        let ab = concat_chars(&a, &colon);
        concat_chars(&ab, &b)
    }

    /// The mapping as text, `host:container`.
    pub fn to_string(&self) -> (res: String)
        ensures
            res@ == port_mapping_text(*self),
    {
        string_of(&self.to_chars())
    }

    /// Reads a port mapping.
    pub fn from_chars(text: &Vec<char>) -> (res: Result<Self, PortMappingError>)
        ensures
            res == parse_port_mapping_spec(text@),
    {
        let parts = split_at_char(text, ':');
        let n = parts.len();
        if n != 1 && n != 2 {
            return Err(PortMappingError::PartCount(n));
        }
        let from = &parts[0];
        let to = if n == 1 {
            &parts[0]
        } else {
            &parts[1]
        };
        if contains_char(from, '-') {
            let from_range = match PortRange::from_chars(from) {
                Ok(r) => r,
                Err(e) => {
                    return Err(PortMappingError::Range(e));
                },
            };
            let to_range = match PortRange::from_chars(to) {
                Ok(r) => r,
                Err(e) => {
                    return Err(PortMappingError::Range(e));
                },
            };
            proof {
                lemma_parsed_range_wf(from@);
                lemma_parsed_range_wf(to@);
            }
            let from_len = from_range.len();
            let to_len = to_range.len();
            if from_len == to_len {
                Ok(PortMapping::Range { from: from_range, to: to_range })
            } else {
                Err(PortMappingError::SizeMismatch { from_len, to_len })
            }
        } else {
            let host = match parse_u16(from) {
                Ok(v) => v,
                Err(e) => {
                    return Err(PortMappingError::InvalidNumber(e));
                },
            };
            let container = match parse_u16(to) {
                Ok(v) => v,
                Err(e) => {
                    return Err(PortMappingError::InvalidNumber(e));
                },
            };
            Ok(PortMapping::Single(host, container))
        }
    }

    /// Reads a port mapping.
    pub fn from_str(s: &str) -> (res: Result<Self, PortMappingError>)
        ensures
            res == parse_port_mapping_spec(s@),
    {
        Self::from_chars(&chars_of(s))
    }
}

/// Digits carry neither `-` nor `:`.
proof fn lemma_decimal_free(n: nat, c: char)
    requires
        c == '-' || c == ':',
    ensures
        !decimal_spec(n).contains(c),
{
    lemma_decimal_all_digits(n);
    if decimal_spec(n).contains(c) {
        let k = choose|k: int| 0 <= k < decimal_spec(n).len() && decimal_spec(n)[k] == c;
        assert(crate::num::digit_value(decimal_spec(n)[k], 10) is Some);
    }
}

/// Printing a well formed port range and reading the text back gives the same range.
pub proof fn law_port_range_text_roundtrip(range: PortRange)
    requires
        range.wf(),
    ensures
        parse_port_range_spec(port_range_text(range.start, range.end)) == Ok::<
            PortRange,
            PortRangeError,
        >(range),
{
    lemma_decimal_free(range.start as nat, '-');
    lemma_decimal_free(range.end as nat, '-');
    lemma_split_two(decimal_spec(range.start as nat), decimal_spec(range.end as nat), '-');
    lemma_u16_roundtrip(range.start);
    lemma_u16_roundtrip(range.end);
}

/// Printing a port mapping and reading the text back gives the same mapping, provided that
/// its ranges are well formed and of equal size.
pub proof fn law_port_mapping_text_roundtrip(m: PortMapping)
    requires
        m.wf(),
        m matches PortMapping::Range { from, to } ==> from.len_spec() == to.len_spec(),
    ensures
        parse_port_mapping_spec(port_mapping_text(m)) == Ok::<PortMapping, PortMappingError>(m),
{
    match m {
        PortMapping::Single(host, container) => {
            lemma_decimal_free(host as nat, ':');
            lemma_decimal_free(container as nat, ':');
            lemma_decimal_free(host as nat, '-');
            lemma_split_two(decimal_spec(host as nat), decimal_spec(container as nat), ':');
            lemma_u16_roundtrip(host);
            lemma_u16_roundtrip(container);
        },
        PortMapping::Range { from, to } => {
            let ft = port_range_text(from.start, from.end);
            let tt = port_range_text(to.start, to.end);
            lemma_decimal_free(from.start as nat, ':');
            lemma_decimal_free(from.end as nat, ':');
            lemma_decimal_free(to.start as nat, ':');
            lemma_decimal_free(to.end as nat, ':');
            lemma_concat_free(decimal_spec(from.start as nat), decimal_spec(from.end as nat), '-', ':');
            lemma_concat_free(decimal_spec(to.start as nat), decimal_spec(to.end as nat), '-', ':');
            lemma_split_two(ft, tt, ':');
            assert(ft[decimal_spec(from.start as nat).len() as int] == '-');
            law_port_range_text_roundtrip(from);
            law_port_range_text_roundtrip(to);
        },
    }
}

/// Overlap of host ports does not depend on the order of the two mappings.
pub proof fn law_host_overlap_symmetric(a: PortMapping, b: PortMapping)
    ensures
        a.host_overlap_spec(&b) == b.host_overlap_spec(&a),
{
}

/// Equality of host ports does not depend on the order of the two mappings.
pub proof fn law_host_equal_symmetric(a: PortMapping, b: PortMapping)
    ensures
        a.host_equal_spec(&b) == b.host_equal_spec(&a),
{
}

/// Mappings of well formed ranges that use the same host ports also overlap.
pub proof fn law_host_equal_implies_overlap(a: PortMapping, b: PortMapping)
    requires
        a.wf(),
        b.wf(),
        a.host_equal_spec(&b),
    ensures
        a.host_overlap_spec(&b),
{
}

/// Normalizing keeps the host ports and is idempotent.
pub proof fn law_normalize_keeps_host_ports(m: PortMapping)
    requires
        m.wf(),
    ensures
        m.normalize_spec().host_equal_spec(&m),
        m.normalize_spec().normalize_spec() == m.normalize_spec(),
{
}

/// The host and container side of a port mapping as an instance's details show them.
#[derive(Debug, Clone, PartialEq, Eq)]
pub struct InstanceDetailPort {
    pub host: String,
    pub container: String,
}

impl InstanceDetailPort {
    /// The sides of `value`: single ports as numbers, ranges as `start-end`.
    pub fn from(value: &PortMapping) -> (res: Self)
        ensures
            match *value {
                PortMapping::Single(host, container) => res.host@ == decimal_spec(host as nat)
                    && res.container@ == decimal_spec(container as nat),
                PortMapping::Range { from, to } => res.host@ == port_range_text(from.start, from.end)
                    && res.container@ == port_range_text(to.start, to.end),
            },
    {
        match value {
            PortMapping::Single(host, container) => InstanceDetailPort {
                container: string_of(&decimal_chars(*container as u64)),
                host: string_of(&decimal_chars(*host as u64)),
            },
            PortMapping::Range { from, to } => InstanceDetailPort {
                host: from.to_string(),
                container: to.to_string(),
            },
        }
    }
}

} // verus!
