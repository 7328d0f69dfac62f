//! Kinds of container networks and their names.
use crate::text::{
    chars_eq_str, chars_equal, chars_of, chars_of_string, concat_strings, opt_view, string_from,
};
use vstd::prelude::*;

verus! {

/// The driver kind of a network.
#[derive(Debug, Clone, Copy, PartialEq, Eq, Structural)]
pub enum NetworkKind {
    NoNetwork,
    Internal,
    Bridge,
    MACVLAN,
    IpvlanL2,
    IpvlanL3,
    Unknown,
}

impl Default for NetworkKind {
    fn default() -> (res: Self)
        ensures
            res == NetworkKind::NoNetwork,
    {
        NetworkKind::NoNetwork
    }
}

/// The name of a network kind.
pub open spec fn network_kind_text(kind: NetworkKind) -> Seq<char> {
    match kind {
        NetworkKind::NoNetwork => "none"@,
        NetworkKind::Internal => "internal"@,
        NetworkKind::Bridge => "bridge"@,
        NetworkKind::MACVLAN => "macvlan"@,
        NetworkKind::IpvlanL2 => "ipvlan_l2"@,
        NetworkKind::IpvlanL3 => "ipvlan_l3"@,
        NetworkKind::Unknown => "unknown"@,
    }
}

/// The network kind a name stands for; each kind has a lower case name and the name of
/// its variant, anything else is `Unknown`.
pub open spec fn network_kind_of(s: Seq<char>) -> NetworkKind {
    if s == "none"@ || s == "None"@ {
        NetworkKind::NoNetwork
    } else if s == "internal"@ || s == "Internal"@ {
        NetworkKind::Internal
    } else if s == "bridge"@ || s == "Bridge"@ {
        NetworkKind::Bridge
    } else if s == "macvlan"@ || s == "MACVLAN"@ {
        NetworkKind::MACVLAN
    } else if s == "ipvlan_l2"@ || s == "IpvlanL2"@ {
        NetworkKind::IpvlanL2
    } else if s == "ipvlan_l3"@ || s == "IpvlanL3"@ {
        NetworkKind::IpvlanL3
    } else {
        NetworkKind::Unknown
    }
}

impl NetworkKind {
    /// The kind a name stands for.
    pub fn from(value: &str) -> (res: Self)
        ensures
            res == network_kind_of(value@),
    {
        let v = chars_of(value);
        if chars_eq_str(&v, "none") || chars_eq_str(&v, "None") {
            NetworkKind::NoNetwork
        } else if chars_eq_str(&v, "internal") || chars_eq_str(&v, "Internal") {
            NetworkKind::Internal
        } else if chars_eq_str(&v, "bridge") || chars_eq_str(&v, "Bridge") {
            NetworkKind::Bridge
        } else if chars_eq_str(&v, "macvlan") || chars_eq_str(&v, "MACVLAN") {
            NetworkKind::MACVLAN
        } else if chars_eq_str(&v, "ipvlan_l2") || chars_eq_str(&v, "IpvlanL2") {
            NetworkKind::IpvlanL2
        } else if chars_eq_str(&v, "ipvlan_l3") || chars_eq_str(&v, "IpvlanL3") {
            NetworkKind::IpvlanL3
        } else {
            NetworkKind::Unknown
        }
    }

    /// The lower case name of the kind.
    pub fn to_string(&self) -> (res: String)
        ensures
            res@ == network_kind_text(*self),
    {
        match self {
            NetworkKind::NoNetwork => string_from("none"),
            NetworkKind::Internal => string_from("internal"),
            NetworkKind::Bridge => string_from("bridge"),
            NetworkKind::MACVLAN => string_from("macvlan"),
            NetworkKind::IpvlanL2 => string_from("ipvlan_l2"),
            NetworkKind::IpvlanL3 => string_from("ipvlan_l3"),
            NetworkKind::Unknown => string_from("unknown"),
        }
    }
}

/// The name of every kind reads back as that kind.
pub proof fn law_network_kind_text_roundtrip(kind: NetworkKind)
    ensures
        network_kind_of(network_kind_text(kind)) == kind,
{
    reveal_strlit("none");
    reveal_strlit("None");
    reveal_strlit("internal");
    reveal_strlit("Internal");
    reveal_strlit("bridge");
    reveal_strlit("Bridge");
    reveal_strlit("macvlan");
    reveal_strlit("MACVLAN");
    reveal_strlit("ipvlan_l2");
    reveal_strlit("IpvlanL2");
    reveal_strlit("ipvlan_l3");
    reveal_strlit("IpvlanL3");
    reveal_strlit("unknown");
    let t = network_kind_text(kind);
    match kind {
        NetworkKind::NoNetwork => {},
        NetworkKind::Internal => {
            assert(t.len() != "none"@.len() && t.len() != "None"@.len());
        },
        NetworkKind::Bridge => {
            assert(t[0] != "none"@[0] && t[0] != "None"@[0] && t[0] != "internal"@[0] && t[0]
                != "Internal"@[0]);
        },
        NetworkKind::MACVLAN => {
            assert(t[0] != "none"@[0] && t[0] != "None"@[0] && t[0] != "internal"@[0] && t[0]
                != "Internal"@[0] && t[0] != "bridge"@[0] && t[0] != "Bridge"@[0]);
        },
        NetworkKind::IpvlanL2 => {
            assert(t[0] != "none"@[0] && t[0] != "None"@[0] && t[1] != "internal"@[1] && t[0]
                != "Internal"@[0] && t[0] != "bridge"@[0] && t[0] != "Bridge"@[0] && t[0]
                != "macvlan"@[0] && t[0] != "MACVLAN"@[0]);
        },
        NetworkKind::IpvlanL3 => {
            assert(t[0] != "none"@[0] && t[0] != "None"@[0] && t[1] != "internal"@[1] && t[0]
                != "Internal"@[0] && t[0] != "bridge"@[0] && t[0] != "Bridge"@[0] && t[0]
                != "macvlan"@[0] && t[0] != "MACVLAN"@[0] && t[8] != "ipvlan_l2"@[8] && t[0]
                != "IpvlanL2"@[0]);
        },
        NetworkKind::Unknown => {
            assert(t[0] != "none"@[0] && t[0] != "None"@[0] && t[0] != "internal"@[0] && t[0]
                != "Internal"@[0] && t[0] != "bridge"@[0] && t[0] != "Bridge"@[0] && t[0]
                != "macvlan"@[0] && t[0] != "MACVLAN"@[0] && t[0] != "ipvlan_l2"@[0] && t[0]
                != "IpvlanL2"@[0] && t[0] != "ipvlan_l3"@[0] && t[0] != "IpvlanL3"@[0]);
        },
    }
}

/// An IPv4 network: its address and the length of its prefix.
#[derive(Debug, Clone, Copy, PartialEq, Eq, Structural)]
pub struct Ipv4Net {
    pub address: u32,
    pub prefix_len: u8,
}

/// The mask of an IPv4 prefix of `prefix_len` bits.
pub open spec fn ipv4_mask(prefix_len: u8) -> u32 {
    if prefix_len == 0 {
        0
    } else {
        (0xffff_ffffu32 << ((32 - prefix_len) as u32)) as u32
    }
}

/// The mask of an IPv4 prefix of `prefix_len` bits.
pub fn mask_v4(prefix_len: u8) -> (res: u32)
    requires
        prefix_len <= 32,
    ensures
        res == ipv4_mask(prefix_len),
{
    if prefix_len == 0 {
        0
    } else {
        0xffff_ffffu32 << ((32 - prefix_len) as u32)
    }
}

/// How a network is to be set up.
#[derive(Debug, Clone, PartialEq, Eq)]
pub struct NetworkConfig {
    pub kind: NetworkKind,
    pub name: String,
    pub cidr_subnet: Option<Ipv4Net>,
    pub gateway: Option<u32>,
    pub parent_adapter: Option<String>,
    /// The driver options, each name once.
    pub options: Option<Vec<(String, String)>>,
}

/// What is known of a network that exists: its name, the kind it is taken for, its IPv4
/// subnets and gateways (or why they could not be read), the adapter it sits on, and its
/// driver options.
#[derive(Debug, PartialEq, Eq)]
pub struct NetworkInfo {
    pub name: Option<String>,
    pub kind: NetworkKind,
    pub subnets: Result<Vec<Ipv4Net>, String>,
    pub gateways: Result<Vec<u32>, String>,
    pub parent: Option<String>,
    pub options: Option<Vec<(String, String)>>,
}

/// The value of the first entry named `key`.
pub open spec fn option_value(options: Seq<(String, String)>, key: Seq<char>) -> Option<Seq<char>>
    decreases options.len(),
{
    if options.len() == 0 {
        None
    } else if options[0].0@ == key {
        Some(options[0].1@)
    } else {
        option_value(options.drop_first(), key)
    }
}

/// The network has the name.
pub open spec fn name_fits_spec(name: Seq<char>, network: NetworkInfo) -> bool {
    network.name matches Some(n) && n@ == name
}

/// The network is taken for the kind.
pub open spec fn kind_fits_spec(kind: NetworkKind, network: NetworkInfo) -> bool {
    kind == network.kind
}

/// No subnet is asked for, or the network has it among its subnets; where one is asked for,
/// subnets that cannot be read are the error.
pub open spec fn subnet_fits_spec(subnet: Option<Ipv4Net>, network: NetworkInfo) -> Result<bool, String> {
    match subnet {
        None => Ok(true),
        Some(s) => match network.subnets {
            Err(e) => Err(e),
            Ok(v) => Ok(v@.contains(s)),
        },
    }
}

/// No gateway is asked for, or the network has it among its gateways; where one is asked
/// for, gateways that cannot be read are the error.
pub open spec fn gateway_fits_spec(gateway: Option<u32>, network: NetworkInfo) -> Result<bool, String> {
    match gateway {
        None => Ok(true),
        Some(g) => match network.gateways {
            Err(e) => Err(e),
            Ok(v) => Ok(v@.contains(g)),
        },
    }
}

/// The network sits on the adapter asked for, or on none where none is asked for.
pub open spec fn parent_fits_spec(parent: Option<String>, network: NetworkInfo) -> bool {
    opt_view(parent) == opt_view(network.parent)
}

/// Every option asked for is set to its value on the network.
pub open spec fn options_fit_spec(options: Option<Vec<(String, String)>>, network: NetworkInfo) -> bool {
    match (options, network.options) {
        (None, _) => true,
        (Some(o), None) => o@.len() == 0,
        (Some(o), Some(e)) => forall|i: int|
            0 <= i < o@.len() ==> option_value(e@, (#[trigger] o@[i]).0@) == Some(o@[i].1@),
    }
}

/// Whether an existing network is the one `config` asks for: name, kind, subnet, gateway,
/// parent adapter and options, checked in this order; the first check that fails decides,
/// and subnets or gateways that must be read but cannot be are the error.
pub open spec fn network_fits_spec(config: NetworkConfig, network: NetworkInfo) -> Result<bool, String> {
    if !name_fits_spec(config.name@, network) || !kind_fits_spec(config.kind, network) {
        Ok(false)
    } else {
        match subnet_fits_spec(config.cidr_subnet, network) {
            Err(e) => Err(e),
            Ok(false) => Ok(false),
            Ok(true) => match gateway_fits_spec(config.gateway, network) {
                Err(e) => Err(e),
                Ok(false) => Ok(false),
                Ok(true) => Ok(
                    parent_fits_spec(config.parent_adapter, network) && options_fit_spec(
                        config.options,
                        network,
                    ),
                ),
            },
        }
    }
}

fn opt_strings_equal(a: &Option<String>, b: &Option<String>) -> (res: bool)
    ensures
        res == (opt_view(*a) == opt_view(*b)),
{
    match (a, b) {
        (None, None) => true,
        (Some(x), Some(y)) => chars_equal(&chars_of_string(x), &chars_of_string(y)),
        _ => false,
    }
}

/// The value of the first option named `key`.
pub fn find_option(options: &Vec<(String, String)>, key: &String) -> (res: Option<String>)
    ensures
        opt_view(res) == option_value(options@, key@),
{
    let wanted = chars_of_string(key);
    let mut i: usize = 0;
    assert(options@.skip(0) =~= options@);
    while i < options.len()
        invariant
            i <= options.len(),
            wanted@ == key@,
            option_value(options@, key@) == option_value(options@.skip(i as int), key@),
        decreases options.len() - i,
    {
        assert(options@.skip(i as int)[0] == options@[i as int]);
        assert(options@.skip(i as int).drop_first() =~= options@.skip(i + 1));
        if chars_equal(&chars_of_string(&options[i].0), &wanted) {
            return Some(options[i].1.clone());
        }
        i = i + 1;
    }
    assert(options@.skip(i as int) =~= Seq::<(String, String)>::empty());
    None
}

impl NetworkInfo {
    /// Whether the network has the name.
    pub fn name_fits(&self, name: &String) -> (res: bool)
        ensures
            res == name_fits_spec(name@, *self),
    {
        match &self.name {
            Some(n) => chars_equal(&chars_of_string(n), &chars_of_string(name)),
            None => false,
        }
    }

    /// Whether the network is taken for the kind.
    pub fn kind_fits(&self, kind: NetworkKind) -> (res: bool)
        ensures
            res == kind_fits_spec(kind, *self),
    {
        kind == self.kind
    }

    /// Whether the network has the subnet asked for, if any.
    pub fn subnet_fits(&self, subnet: Option<Ipv4Net>) -> (res: Result<bool, String>)
        ensures
            res == subnet_fits_spec(subnet, *self),
    {
        match subnet {
            None => Ok(true),
            Some(s) => match &self.subnets {
                Err(e) => Err(e.clone()),
                Ok(v) => Ok(contains_net(v, s)),
            },
        }
    }

    /// Whether the network has the gateway asked for, if any.
    pub fn gateway_fits(&self, gateway: Option<u32>) -> (res: Result<bool, String>)
        ensures
            res == gateway_fits_spec(gateway, *self),
    {
        match gateway {
            None => Ok(true),
            Some(g) => match &self.gateways {
                Err(e) => Err(e.clone()),
                Ok(v) => Ok(contains_u32(v, g)),
            },
        }
    }

    /// Whether the network sits on the adapter asked for.
    pub fn parent_fits(&self, parent: &Option<String>) -> (res: bool)
        ensures
            res == parent_fits_spec(*parent, *self),
    {
        opt_strings_equal(parent, &self.parent)
    }

    /// Whether every option asked for is set to its value on the network.
    pub fn options_fit(&self, options: &Option<Vec<(String, String)>>) -> (res: bool)
        ensures
            res == options_fit_spec(*options, *self),
    {
        match (options, &self.options) {
            (None, _) => true,
            (Some(o), None) => o.len() == 0,
            (Some(o), Some(e)) => all_options_set(o, e),
        }
    }
}

fn contains_net(v: &Vec<Ipv4Net>, s: Ipv4Net) -> (res: bool)
    ensures
        res == v@.contains(s),
{
    let mut i: usize = 0;
    while i < v.len()
        invariant
            i <= v@.len(),
            forall|k: int| 0 <= k < i ==> v@[k] != s,
        decreases v@.len() - i,
    {
        if v[i] == s {
            assert(v@[i as int] == s);
            return true;
        }
        i = i + 1;
    }
    false
}

fn contains_u32(v: &Vec<u32>, g: u32) -> (res: bool)
    ensures
        res == v@.contains(g),
{
    let mut i: usize = 0;
    while i < v.len()
        invariant
            i <= v@.len(),
            forall|k: int| 0 <= k < i ==> v@[k] != g,
        decreases v@.len() - i,
    {
        if v[i] == g {
            assert(v@[i as int] == g);
            return true;
        }
        i = i + 1;
    }
    false
}

fn all_options_set(o: &Vec<(String, String)>, e: &Vec<(String, String)>) -> (res: bool)
    ensures
        res == forall|i: int|
            0 <= i < o@.len() ==> option_value(e@, (#[trigger] o@[i]).0@) == Some(o@[i].1@),
{
    let mut i: usize = 0;
    while i < o.len()
        invariant
            i <= o@.len(),
            forall|k: int|
                0 <= k < i ==> option_value(e@, (#[trigger] o@[k]).0@) == Some(o@[k].1@),
        decreases o@.len() - i,
    {
        let found = find_option(e, &o[i].0);
        let fits = match &found {
            Some(v) => chars_equal(&chars_of_string(v), &chars_of_string(&o[i].1)),
            None => false,
        };
        if !fits {
            assert(option_value(e@, o@[i as int].0@) != Some(o@[i as int].1@));
            return false;
        }
        i = i + 1;
    }
    true
}

/// Whether the existing network `network` is the one `config` asks for.
pub fn network_fits(config: &NetworkConfig, network: &NetworkInfo) -> (res: Result<bool, String>)
    ensures
        res == network_fits_spec(*config, *network),
{
    if !network.name_fits(&config.name) || !network.kind_fits(config.kind) {
        return Ok(false);
    }
    match network.subnet_fits(config.cidr_subnet) {
        Err(e) => return Err(e),
        Ok(false) => return Ok(false),
        Ok(true) => {},
    }
    match network.gateway_fits(config.gateway) {
        Err(e) => return Err(e),
        Ok(false) => return Ok(false),
        Ok(true) => {},
    }
    Ok(network.parent_fits(&config.parent_adapter) && network.options_fit(&config.options))
}

/// Why a network cannot be created.
#[derive(Debug, PartialEq, Eq)]
pub enum CreateNetworkError {
    /// The configuration asks for something impossible.
    NetworkConfigInvalid { location: String, reason: String },
    /// A network of the name exists and is the one asked for; here it is.
    ExactNetworkExists(NetworkInfo),
    /// A network of the name exists but is set up otherwise; here it is.
    DifferentNetworkExists(NetworkInfo),
    /// The existing network or the host could not be read.
    Other(String),
}

/// What answers a request for a network whose name is already taken by `existing`.
pub fn existing_network_error(config: &NetworkConfig, existing: NetworkInfo) -> (res: CreateNetworkError)
    ensures
        match network_fits_spec(*config, existing) {
            Ok(true) => res == CreateNetworkError::ExactNetworkExists(existing),
            Ok(false) => res == CreateNetworkError::DifferentNetworkExists(existing),
            Err(e) => res matches CreateNetworkError::Other(m) && m@ == e@,
        },
{
    match network_fits(config, &existing) {
        Ok(true) => CreateNetworkError::ExactNetworkExists(existing),
        Ok(false) => CreateNetworkError::DifferentNetworkExists(existing),
        Err(e) => CreateNetworkError::Other(e),
    }
}

/// A network adapter of the host: its name, its IPv4 networks and its gateway.
#[derive(Debug, Clone, PartialEq, Eq)]
pub struct NetworkAdapter {
    pub name: String,
    pub ipv4_networks: Vec<Ipv4Net>,
    pub gateway: Option<u32>,
}

/// The settings a network is created with.
#[derive(Debug, Clone, PartialEq, Eq)]
pub struct NetworkCreateOptions {
    pub name: String,
    pub driver: String,
    pub options: Vec<(String, String)>,
    pub gateway: Option<u32>,
    pub subnet: Option<Ipv4Net>,
}

/// The kind is one of the two ipvlan kinds.
pub open spec fn is_ipvlan(kind: NetworkKind) -> bool {
    kind == NetworkKind::IpvlanL2 || kind == NetworkKind::IpvlanL3
}

/// Creating the network takes its subnet and gateway from its parent adapter: an ipvlan
/// network on a parent adapter that lacks a subnet or a gateway.
pub open spec fn needs_parent_adapter_spec(config: NetworkConfig) -> bool {
    &&& is_ipvlan(config.kind)
    &&& config.parent_adapter is Some
    &&& (config.cidr_subnet is None || config.gateway is None)
}

/// The subnet of an adapter's IPv4 network: its address with the host part cleared.
pub open spec fn network_of(net: Ipv4Net) -> Ipv4Net {
    Ipv4Net { address: net.address & ipv4_mask(net.prefix_len), prefix_len: net.prefix_len }
}

/// The driver option `key` of a network created for `config`: `parent` names the parent
/// adapter where there is one, `ipvlan_mode` is `l2` or `l3` for ipvlan networks, and every
/// other option is the configured one.
pub open spec fn created_option(config: NetworkConfig, key: Seq<char>) -> Option<Seq<char>> {
    if key == "parent"@ && config.parent_adapter is Some {
        Some(config.parent_adapter->0@)
    } else if key == "ipvlan_mode"@ && config.kind == NetworkKind::IpvlanL2 {
        Some("l2"@)
    } else if key == "ipvlan_mode"@ && config.kind == NetworkKind::IpvlanL3 {
        Some("l3"@)
    } else {
        match config.options {
            Some(o) => option_value(o@, key),
            None => None,
        }
    }
}

/// `res` refuses the configuration, naming where it fails and why.
pub open spec fn refused_as(
    res: Result<NetworkCreateOptions, CreateNetworkError>,
    location: Seq<char>,
    reason: Seq<char>,
) -> bool {
    res matches Err(CreateNetworkError::NetworkConfigInvalid { location: l, reason: r }) && l@
        == location && r@ == reason
}

/// Whether creating the network for `config` reads its subnet and gateway from the parent
/// adapter.
pub fn needs_parent_adapter(config: &NetworkConfig) -> (res: bool)
    ensures
        res == needs_parent_adapter_spec(*config),
{
    (config.kind == NetworkKind::IpvlanL2 || config.kind == NetworkKind::IpvlanL3)
        && config.parent_adapter.is_some() && (config.cidr_subnet.is_none()
        || config.gateway.is_none())
}

proof fn lemma_option_value_update(o: Seq<(String, String)>, i: int, entry: (String, String), key: Seq<char>)
    requires
        0 <= i < o.len(),
        o[i].0@ == entry.0@,
        forall|k: int| 0 <= k < i ==> (#[trigger] o[k]).0@ != entry.0@,
    ensures
        option_value(o.update(i, entry), key) == if key == entry.0@ {
            Some(entry.1@)
        } else {
            option_value(o, key)
        },
    decreases o.len(),
{
    if i > 0 {
        assert(o[0].0@ != entry.0@);
        assert forall|k: int| 0 <= k < i - 1 implies (#[trigger] o.drop_first()[k]).0@ != entry.0@ by {
            assert(o.drop_first()[k] == o[k + 1]);
        }
        lemma_option_value_update(o.drop_first(), i - 1, entry, key);
        assert(o.update(i, entry).drop_first() =~= o.drop_first().update(i - 1, entry));
        assert(o.update(i, entry)[0] == o[0]);
    } else {
        assert(o.update(i, entry).drop_first() =~= o.drop_first());
        assert(o.update(i, entry)[0] == entry);
    }
}

proof fn lemma_option_value_push(o: Seq<(String, String)>, entry: (String, String), key: Seq<char>)
    requires
        forall|k: int| 0 <= k < o.len() ==> (#[trigger] o[k]).0@ != entry.0@,
    ensures
        option_value(o.push(entry), key) == if key == entry.0@ {
            Some(entry.1@)
        } else {
            option_value(o, key)
        },
    decreases o.len(),
{
    if o.len() > 0 {
        assert forall|k: int| 0 <= k < o.drop_first().len() implies (
        #[trigger] o.drop_first()[k]).0@ != entry.0@ by {
            assert(o.drop_first()[k] == o[k + 1]);
        }
        lemma_option_value_push(o.drop_first(), entry, key);
        assert(o.push(entry).drop_first() =~= o.drop_first().push(entry));
        assert(o.push(entry)[0] == o[0]);
        assert(o[0].0@ != entry.0@);
        assert(option_value(o.push(entry), key) == if o[0].0@ == key {
            Some(o[0].1@)
        } else {
            option_value(o.drop_first().push(entry), key)
        });
    } else {
        let p = o.push(entry);
        assert(p.drop_first() =~= Seq::<(String, String)>::empty());
        assert(p[0] == entry);
        assert(option_value(p.drop_first(), key) is None);
        assert(option_value(o, key) is None);
    }
}

/// Sets the option `key` to `value`, in place of the entry of that name where there is one.
fn set_option(options: &mut Vec<(String, String)>, key: String, value: String)
    ensures
        forall|k: Seq<char>|
            #![trigger option_value(final(options)@, k)]
            option_value(final(options)@, k) == if k == key@ {
                Some(value@)
            } else {
                option_value(old(options)@, k)
            },
{
    let wanted = chars_of_string(&key);
    let mut i: usize = 0;
    while i < options.len()
        invariant
            i <= options@.len(),
            options@ == old(options)@,
            wanted@ == key@,
            forall|k: int| 0 <= k < i ==> (#[trigger] options@[k]).0@ != key@,
        decreases options@.len() - i,
    {
        if chars_equal(&chars_of_string(&options[i].0), &wanted) {
            let ghost before = options@;
            let entry = (key, value);
            proof {
                assert forall|k: Seq<char>| true implies option_value(before.update(i as int, entry), k)
                    == if k == entry.0@ {
                    Some(entry.1@)
                } else {
                    option_value(before, k)
                } by {
                    lemma_option_value_update(before, i as int, entry, k);
                }
            }
            options.set(i, entry);
            return;
        }
        i = i + 1;
    }
    let ghost before = options@;
    let entry = (key, value);
    proof {
        assert forall|k: Seq<char>| true implies option_value(before.push(entry), k) == if k
            == entry.0@ {
            Some(entry.1@)
        } else {
            option_value(before, k)
        } by {
            lemma_option_value_push(before, entry, k);
        }
    }
    options.push(entry);
}

/// What creating the network `config` asks for gives, with `adapter` the parent adapter as
/// the host lists it: kinds without a driver, an ipvlan network without a parent, and a
/// parent that is missing or has no IPv4 network are refused, each for its reason; otherwise
/// the network keeps its name, gets the driver of its kind and its options, and takes its
/// subnet and gateway from the parent adapter where it must, else from `config`.
pub open spec fn network_created_as(
    config: NetworkConfig,
    adapter: Option<NetworkAdapter>,
    res: Result<NetworkCreateOptions, CreateNetworkError>,
) -> bool {
    &&& ((config.kind == NetworkKind::NoNetwork || config.kind == NetworkKind::Unknown)
        ==> refused_as(res, "kind"@, "Invalid network type "@ + network_kind_text(config.kind)))
    &&& (is_ipvlan(config.kind) && config.parent_adapter is None ==> refused_as(
        res,
        "parent_adapter"@,
        "Can not create ipvlan network without parent"@,
    ))
    &&& (needs_parent_adapter_spec(config) && adapter is None ==> refused_as(
        res,
        "parent_adapter"@,
        "Parent network adapter "@ + config.parent_adapter->0@ + " does not exist"@,
    ))
    &&& (needs_parent_adapter_spec(config) && adapter is Some && adapter->0.ipv4_networks@.len()
        == 0 ==> refused_as(
        res,
        "parent_adapter"@,
        "Parent network adapter "@ + adapter->0.name@ + " is not ready"@,
    ))
    &&& (res is Ok <==> match config.kind {
        NetworkKind::Bridge | NetworkKind::MACVLAN | NetworkKind::Internal => true,
        NetworkKind::IpvlanL2 | NetworkKind::IpvlanL3 => config.parent_adapter is Some && (
        !needs_parent_adapter_spec(config) || (adapter is Some && adapter->0.ipv4_networks@.len()
            > 0)),
        _ => false,
    })
    &&& (res matches Ok(o) ==> {
        &&& o.name@ == config.name@
        &&& o.driver@ == if is_ipvlan(config.kind) {
            "ipvlan"@
        } else {
            network_kind_text(config.kind)
        }
        &&& forall|k: Seq<char>|
            #![trigger option_value(o.options@, k)]
            option_value(o.options@, k) == created_option(config, k)
        &&& if needs_parent_adapter_spec(config) {
            adapter matches Some(a) && o.subnet == Some(network_of(a.ipv4_networks@[0]))
                && o.gateway == a.gateway
        } else {
            o.subnet == config.cidr_subnet && o.gateway == config.gateway
        }
    })
}

/// The settings to create the network `config` asks for. `adapter` is the parent adapter
/// as the host lists it, `None` where the host has no adapter of that name; it is read only
/// where the subnet and gateway come from it. Kinds without a driver, an ipvlan network
/// without a parent, and a parent that is missing or has no IPv4 network are refused.
pub fn network_create_options(config: NetworkConfig, adapter: Option<NetworkAdapter>) -> (res: Result<
    NetworkCreateOptions,
    CreateNetworkError,
>)
    requires
        adapter matches Some(a) ==> forall|i: int|
            0 <= i < a.ipv4_networks@.len() ==> (#[trigger] a.ipv4_networks@[i]).prefix_len <= 32,
    ensures
        network_created_as(config, adapter, res),
{
    proof {
        reveal_strlit("kind");
        reveal_strlit("parent_adapter");
        reveal_strlit("Invalid network type ");
        reveal_strlit("Can not create ipvlan network without parent");
        reveal_strlit("Parent network adapter ");
        reveal_strlit(" does not exist");
        reveal_strlit(" is not ready");
        reveal_strlit("ipvlan");
        reveal_strlit("ipvlan_mode");
        reveal_strlit("parent");
        reveal_strlit("l2");
        reveal_strlit("l3");
    }
    let needs_parent = needs_parent_adapter(&config);
    let NetworkConfig { kind, name, cidr_subnet, gateway, parent_adapter, options } = config;
    let mut created: Vec<(String, String)> = match options {
        Some(o) => o,
        None => Vec::new(),
    };
    if kind == NetworkKind::IpvlanL2 {
        set_option(&mut created, string_from("ipvlan_mode"), string_from("l2"));
    } else if kind == NetworkKind::IpvlanL3 {
        set_option(&mut created, string_from("ipvlan_mode"), string_from("l3"));
    }
    let mut subnet = cidr_subnet;
    let mut gw = gateway;
    let driver = match kind {
        NetworkKind::Bridge | NetworkKind::MACVLAN | NetworkKind::Internal => kind.to_string(),
        NetworkKind::IpvlanL2 | NetworkKind::IpvlanL3 => {
            let parent = match &parent_adapter {
                Some(p) => p,
                None => {
                    return Err(
                        CreateNetworkError::NetworkConfigInvalid {
                            location: string_from("parent_adapter"),
                            reason: string_from("Can not create ipvlan network without parent"),
                        },
                    );
                },
            };
            if needs_parent {
                let a = match adapter {
                    Some(a) => a,
                    None => {
                        return Err(
                            CreateNetworkError::NetworkConfigInvalid {
                                location: string_from("parent_adapter"),
                                reason: concat_strings(
                                    &concat_strings(&string_from("Parent network adapter "), parent),
                                    &string_from(" does not exist"),
                                ),
                            },
                        );
                    },
                };
                if a.ipv4_networks.len() == 0 {
                    return Err(
                        CreateNetworkError::NetworkConfigInvalid {
                            location: string_from("parent_adapter"),
                            reason: concat_strings(
                                &concat_strings(&string_from("Parent network adapter "), &a.name),
                                &string_from(" is not ready"),
                            ),
                        },
                    );
                }
                let first = a.ipv4_networks[0];
                subnet = Some(
                    Ipv4Net {
                        address: first.address & mask_v4(first.prefix_len),
                        prefix_len: first.prefix_len,
                    },
                );
                gw = a.gateway;
            }
            string_from("ipvlan")
        },
        _ => {
            return Err(
                CreateNetworkError::NetworkConfigInvalid {
                    location: string_from("kind"),
                    reason: concat_strings(&string_from("Invalid network type "), &kind.to_string()),
                },
            );
        },
    };
    if let Some(p) = parent_adapter {
        set_option(&mut created, string_from("parent"), p);
    }
    Ok(NetworkCreateOptions { name, driver, options: created, gateway: gw, subnet })
}

/// The first adapter of `adapters` named `name`.
pub open spec fn adapter_named(adapters: Seq<NetworkAdapter>, name: Seq<char>) -> Option<NetworkAdapter>
    decreases adapters.len(),
{
    if adapters.len() == 0 {
        None
    } else if adapters[0].name@ == name {
        Some(adapters[0])
    } else {
        adapter_named(adapters.drop_first(), name)
    }
}

fn take_adapter(adapters: Vec<NetworkAdapter>, name: &String) -> (res: Option<NetworkAdapter>)
    ensures
        res == adapter_named(adapters@, name@),
{
    let wanted = chars_of_string(name);
    let ghost all = adapters@;
    let mut rest = adapters;
    assert(all.skip(0) =~= all);
    assert(all.len() == rest.len());
    let mut n: usize = 0;
    while rest.len() > 0
        invariant
            all == adapters@,
            all.len() <= usize::MAX,
            rest@ == all.skip(n as int),
            n <= all.len(),
            wanted@ == name@,
            adapter_named(all, name@) == adapter_named(all.skip(n as int), name@),
        decreases rest@.len(),
    {
        let a = rest.remove(0);
        assert(all.skip(n as int)[0] == a);
        assert(all.skip(n as int).drop_first() =~= all.skip(n + 1));
        assert(rest@ =~= all.skip(n + 1));
        if chars_equal(&chars_of_string(&a.name), &wanted) {
            return Some(a);
        }
        n = n + 1;
    }
    assert(all.skip(n as int) =~= Seq::<NetworkAdapter>::empty());
    None
}

/// What to do next to create a network.
#[derive(Debug, PartialEq, Eq)]
pub enum CreateNetworkStep {
    /// The network cannot be created, for this reason.
    Refuse(CreateNetworkError),
    /// The adapters of the host are to be read, and the step taken again with them.
    ReadAdapters,
    /// The network is to be created with these settings.
    Create(NetworkCreateOptions),
}

/// The next step of creating the network `config` asks for, given the network that already
/// bears its name, if any, and the adapters of the host once they were read: an existing
/// network refuses the request, exactly or differently set up; an ipvlan network that takes
/// its subnet and gateway from its parent needs the adapters read first; else the network is
/// created as `network_create_options` says, with the parent adapter found by name.
pub fn create_network_step(
    config: NetworkConfig,
    existing: Option<NetworkInfo>,
    adapters: Option<Vec<NetworkAdapter>>,
) -> (res: CreateNetworkStep)
    requires
        adapters matches Some(v) ==> forall|k: int, i: int|
            0 <= k < v@.len() && 0 <= i < v@[k].ipv4_networks@.len() ==> (
            #[trigger] v@[k].ipv4_networks@[i]).prefix_len <= 32,
    ensures
        existing matches Some(e) ==> res matches CreateNetworkStep::Refuse(err) && match network_fits_spec(config, e) {
            Ok(true) => err == CreateNetworkError::ExactNetworkExists(e),
            Ok(false) => err == CreateNetworkError::DifferentNetworkExists(e),
            Err(m) => err matches CreateNetworkError::Other(t) && t@ == m@,
        },
        existing is None && needs_parent_adapter_spec(config) && adapters is None ==> res
            == CreateNetworkStep::ReadAdapters,
        existing is None && (!needs_parent_adapter_spec(config) || adapters is Some) ==> {
            let adapter = if needs_parent_adapter_spec(config) {
                adapter_named(adapters->0@, config.parent_adapter->0@)
            } else {
                None
            };
            match res {
                CreateNetworkStep::Create(o) => network_created_as(config, adapter, Ok(o)),
                CreateNetworkStep::Refuse(e) => network_created_as(config, adapter, Err(e)),
                CreateNetworkStep::ReadAdapters => false,
            }
        },
{
    if let Some(e) = existing {
        return CreateNetworkStep::Refuse(existing_network_error(&config, e));
    }
    let adapter = if needs_parent_adapter(&config) {
        match adapters {
            None => return CreateNetworkStep::ReadAdapters,
            Some(v) => {
                let name = match &config.parent_adapter {
                    Some(p) => p,
                    None => return CreateNetworkStep::ReadAdapters,
                };
                let found = take_adapter(v, name);
                proof {
                    lemma_adapter_named_in(adapters->0@, config.parent_adapter->0@);
                }
                found
            },
        }
    } else {
        None
    };
    match network_create_options(config, adapter) {
        Ok(o) => CreateNetworkStep::Create(o),
        Err(e) => CreateNetworkStep::Refuse(e),
    }
}

proof fn lemma_adapter_named_in(adapters: Seq<NetworkAdapter>, name: Seq<char>)
    ensures
        adapter_named(adapters, name) matches Some(a) ==> exists|k: int|
            0 <= k < adapters.len() && adapters[k] == a,
    decreases adapters.len(),
{
    if adapters.len() > 0 && adapters[0].name@ != name {
        lemma_adapter_named_in(adapters.drop_first(), name);
        if let Some(a) = adapter_named(adapters, name) {
            let k = choose|k: int| 0 <= k < adapters.drop_first().len() && adapters.drop_first()[k] == a;
            assert(adapters[k + 1] == a);
        }
    } else if adapters.len() > 0 {
        assert(adapters[0] == adapters[0]);
    }
}

} // verus!
