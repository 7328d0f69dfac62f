//! Decisions of instances that run as a single container: moving an address into another
//! network, and how the container is set up.
use crate::instance::config::{bindings_view, list_bindings, InstancePortMapping, TransportProtocol};
use crate::instance::id::{docker_prefix, instance_id_text, InstanceId};
use crate::instance::status::InstanceStatus;
use crate::instance::usb::UsbPathConfig;
use crate::manifest::environment_variable::{env_text, EnvironmentVariable};
use crate::manifest::label::Label;
use crate::manifest::mount::{BindMount, VolumeMount};
use crate::manifest::port::PortMapping;
use crate::network::{ipv4_mask, mask_v4, Ipv4Net};
use crate::text::{chars_equal, chars_of_string, concat_strings, opt_view, string_from};
use vstd::prelude::*;

verus! {

/// An IP address, version 4 or 6, as a number.
#[derive(Debug, Clone, Copy, PartialEq, Eq, Structural)]
pub enum IpAddress {
    V4(u32),
    V6(u128),
}

/// An IPv6 network: its address and the length of its prefix.
#[derive(Debug, Clone, Copy, PartialEq, Eq, Structural)]
pub struct Ipv6Net {
    pub address: u128,
    pub prefix_len: u8,
}

/// The subnets of a network as far as an address is moved into it: its IPv4 and its IPv6
/// subnet, each absent where the network has none, or why the network could not be read.
#[derive(Debug, PartialEq, Eq)]
pub struct NetworkSubnets {
    pub ipv4: Result<Option<Ipv4Net>, String>,
    pub ipv6: Result<Option<Ipv6Net>, String>,
}

/// Why an address could not be moved into a network.
#[derive(Debug, Clone, PartialEq, Eq)]
pub enum TransferIpError {
    /// The subnets of the network could not be read.
    InspectNetwork { network: String, error: String },
    /// The network has no subnet of the address's version.
    NoFittingNetwork { network: String, ip: IpAddress },
}

/// The mask of an IPv6 prefix of `prefix_len` bits.
pub open spec fn ipv6_mask(prefix_len: u8) -> u128 {
    if prefix_len == 0 {
        0
    } else {
        (0xffff_ffff_ffff_ffff_ffff_ffff_ffff_ffffu128 << ((128 - prefix_len) as u32)) as u128
    }
}

/// The prefix lengths of the subnets fit their address widths.
pub open spec fn subnets_wf(subnets: NetworkSubnets) -> bool {
    &&& (subnets.ipv4 matches Ok(Some(n)) ==> n.prefix_len <= 32)
    &&& (subnets.ipv6 matches Ok(Some(n)) ==> n.prefix_len <= 128)
}

/// What moving an address into a network gives: the moved address, why the network's
/// subnets could not be read, or that it has no subnet of the address's version.
pub enum TransferView {
    Moved(IpAddress),
    Unreadable(Seq<char>),
    NoSubnet,
}

/// `current` moved into the network with `subnets`: the host part of the address kept, the
/// network part taken from the subnet of its version.
pub open spec fn transfer_ip_spec(current: IpAddress, subnets: NetworkSubnets) -> TransferView {
    match current {
        IpAddress::V4(ip) => match subnets.ipv4 {
            Err(e) => TransferView::Unreadable(e@),
            Ok(None) => TransferView::NoSubnet,
            Ok(Some(n)) => TransferView::Moved(
                IpAddress::V4(n.address | (ip & !ipv4_mask(n.prefix_len))),
            ),
        },
        IpAddress::V6(ip) => match subnets.ipv6 {
            Err(e) => TransferView::Unreadable(e@),
            Ok(None) => TransferView::NoSubnet,
            Ok(Some(n)) => TransferView::Moved(
                IpAddress::V6(n.address | (ip & !ipv6_mask(n.prefix_len))),
            ),
        },
    }
}

fn mask_v6(prefix_len: u8) -> (res: u128)
    requires
        prefix_len <= 128,
    ensures
        res == ipv6_mask(prefix_len),
{
    if prefix_len == 0 {
        0
    } else {
        0xffff_ffff_ffff_ffff_ffff_ffff_ffff_ffffu128 << ((128 - prefix_len) as u32)
    }
}

/// The IPv4 address `addr` lies in the subnet `n`.
pub open spec fn in_v4_subnet(addr: IpAddress, n: Ipv4Net) -> bool {
    addr matches IpAddress::V4(r) && r & ipv4_mask(n.prefix_len) == n.address
}

/// The IPv6 address `addr` lies in the subnet `n`.
pub open spec fn in_v6_subnet(addr: IpAddress, n: Ipv6Net) -> bool {
    addr matches IpAddress::V6(r) && r & ipv6_mask(n.prefix_len) == n.address
}

/// An IPv4 address moved into a network lies in that network's subnet, and one that already
/// lies in the subnet stays as it is.
pub proof fn law_transfer_v4_lands_in_subnet(
    ip: u32,
    n: Ipv4Net,
    subnets: NetworkSubnets,
)
    requires
        subnets.ipv4 == Ok::<Option<Ipv4Net>, String>(Some(n)),
    ensures
        transfer_ip_spec(IpAddress::V4(ip), subnets) is Moved,
        n.address & ipv4_mask(n.prefix_len) == n.address ==> in_v4_subnet(
            transfer_ip_spec(IpAddress::V4(ip), subnets)->Moved_0,
            n,
        ),
        in_v4_subnet(IpAddress::V4(ip), n) ==> transfer_ip_spec(IpAddress::V4(ip), subnets)
            == TransferView::Moved(IpAddress::V4(ip)),
{
    let m = ipv4_mask(n.prefix_len);
    let a = n.address;
    assert(a & m == a ==> (a | (ip & !m)) & m == a) by (bit_vector);
    assert(ip & m == a ==> (a | (ip & !m)) == ip) by (bit_vector);
}

/// An IPv6 address moved into a network lies in that network's subnet, and one that already
/// lies in the subnet stays as it is.
pub proof fn law_transfer_v6_lands_in_subnet(
    ip: u128,
    n: Ipv6Net,
    subnets: NetworkSubnets,
)
    requires
        subnets.ipv6 == Ok::<Option<Ipv6Net>, String>(Some(n)),
    ensures
        transfer_ip_spec(IpAddress::V6(ip), subnets) is Moved,
        n.address & ipv6_mask(n.prefix_len) == n.address ==> in_v6_subnet(
            transfer_ip_spec(IpAddress::V6(ip), subnets)->Moved_0,
            n,
        ),
        in_v6_subnet(IpAddress::V6(ip), n) ==> transfer_ip_spec(IpAddress::V6(ip), subnets)
            == TransferView::Moved(IpAddress::V6(ip)),
{
    let m = ipv6_mask(n.prefix_len);
    let a = n.address;
    assert(a & m == a ==> (a | (ip & !m)) & m == a) by (bit_vector);
    assert(ip & m == a ==> (a | (ip & !m)) == ip) by (bit_vector);
}

/// Moves `current` into the network `network` with `subnets`: keeps the host part of the
/// address and takes the network part from the subnet of the same version. Subnets that
/// could not be read, or no subnet of that version, are the error.
pub fn transfer_ip_address(current: IpAddress, subnets: &NetworkSubnets, network: &String) -> (res: Result<
    IpAddress,
    TransferIpError,
>)
    requires
        subnets_wf(*subnets),
    ensures
        match transfer_ip_spec(current, *subnets) {
            TransferView::Moved(ip) => res == Ok::<IpAddress, TransferIpError>(ip),
            TransferView::Unreadable(e) => res matches Err(
                TransferIpError::InspectNetwork { network: n, error },
            ) && n@ == network@ && error@ == e,
            TransferView::NoSubnet => res matches Err(TransferIpError::NoFittingNetwork { network: n, ip })
                && n@ == network@ && ip == current,
        },
{
    match current {
        IpAddress::V4(ip) => match &subnets.ipv4 {
            Err(e) => Err(
                TransferIpError::InspectNetwork { network: network.clone(), error: e.clone() },
            ),
            Ok(None) => Err(TransferIpError::NoFittingNetwork { network: network.clone(), ip: current }),
            Ok(Some(n)) => Ok(IpAddress::V4(n.address | (ip & !mask_v4(n.prefix_len)))),
        },
        IpAddress::V6(ip) => match &subnets.ipv6 {
            Err(e) => Err(
                TransferIpError::InspectNetwork { network: network.clone(), error: e.clone() },
            ),
            Ok(None) => Err(TransferIpError::NoFittingNetwork { network: network.clone(), ip: current }),
            Ok(Some(n)) => Ok(IpAddress::V6(n.address | (ip & !mask_v6(n.prefix_len)))),
        },
    }
}

/// The settings of an instance that runs as one container.
#[derive(Debug, Clone, PartialEq, Eq)]
pub struct InstanceConfig {
    pub environment_variables: Vec<EnvironmentVariable>,
    pub port_mapping: InstancePortMapping,
    pub volume_mounts: Vec<VolumeMount>,
    /// The networks the container is connected to, each with its address there.
    pub connected_networks: Vec<(String, IpAddress)>,
    /// The USB devices handed to the container, by port.
    pub usb_devices: Vec<(String, UsbPathConfig)>,
    /// Host ports mapped to the ports of editors.
    pub mapped_editor_ports: Vec<(u16, u16)>,
    /// The path prefixes of editors, by port.
    pub editor_path_prefixes: Vec<(u16, String)>,
}

/// The name of the default network of a deployment; a default network without a name
/// cannot take instances.
pub fn default_network_name(name: Option<String>) -> (res: Result<String, String>)
    ensures
        match name {
            Some(n) => res == Ok::<String, String>(n),
            None => res matches Err(m) && m@ == "Default network has no name"@,
        },
{
    match name {
        Some(n) => Ok(n),
        None => Err(string_from("Default network has no name")),
    }
}

/// What follows the creation of the volumes of a new instance.
#[derive(Debug, Clone, PartialEq, Eq)]
pub enum VolumesOutcome {
    /// The volumes are there; the instance can be set up with them.
    Ready(Vec<VolumeMount>),
    /// The configuration directory `remove` is to be removed and the creation fails with
    /// `error`.
    CleanUp { remove: String, error: String },
}

/// After the volumes of a new instance were created, or failed to be: on failure the
/// configuration files written before are removed again and the error is handed on.
pub fn after_volumes(created: Result<Vec<VolumeMount>, String>, config_path: String) -> (res: VolumesOutcome)
    ensures
        match created {
            Ok(v) => res == VolumesOutcome::Ready(v),
            Err(e) => res == (VolumesOutcome::CleanUp { remove: config_path, error: e }),
        },
{
    match created {
        Ok(v) => VolumesOutcome::Ready(v),
        Err(e) => VolumesOutcome::CleanUp { remove: config_path, error: e },
    }
}

/// The settings of a new instance: the environment and the TCP ports of its manifest, the
/// volumes created for it, connected to the default network with `address`, without USB
/// devices or mapped editor ports, and with the editor path prefixes of the manifest.
pub fn new_instance_config(
    environment_variables: Vec<EnvironmentVariable>,
    tcp_ports: Vec<PortMapping>,
    volume_mounts: Vec<VolumeMount>,
    default_network: String,
    address: IpAddress,
    editor_path_prefixes: Vec<(u16, String)>,
) -> (res: InstanceConfig)
    ensures
        res.environment_variables == environment_variables,
        res.port_mapping.tcp == tcp_ports,
        res.port_mapping.udp@.len() == 0,
        res.port_mapping.sctp@.len() == 0,
        res.volume_mounts == volume_mounts,
        res.connected_networks@ == seq![(default_network, address)],
        res.usb_devices@.len() == 0,
        instance_config_wf(res),
        res.mapped_editor_ports@.len() == 0,
        res.editor_path_prefixes == editor_path_prefixes,
{
    let mut connected_networks: Vec<(String, IpAddress)> = Vec::new();
    connected_networks.push((default_network, address));
    InstanceConfig {
        environment_variables,
        port_mapping: InstancePortMapping { tcp: tcp_ports, udp: Vec::new(), sctp: Vec::new() },
        volume_mounts,
        connected_networks,
        usb_devices: Vec::new(),
        mapped_editor_ports: Vec::new(),
        editor_path_prefixes,
    }
}

/// The host name of the container of an instance: `flecs-` and the id.
pub fn instance_hostname(id: InstanceId) -> (res: String)
    ensures
        res@ == "flecs-"@ + instance_id_text(id.value),
{
    concat_strings(&string_from("flecs-"), &id.to_string())
}

/// A capability an app asks for: access to the Docker daemon, or another one by name.
#[derive(Debug, Clone, PartialEq, Eq)]
pub enum Capability {
    Docker,
    Other(String),
}

/// The names of the capabilities added to the container: all but the Docker one, in order.
pub open spec fn added_capabilities(caps: Seq<Capability>) -> Seq<Seq<char>>
    decreases caps.len(),
{
    if caps.len() == 0 {
        Seq::empty()
    } else {
        let rest = added_capabilities(caps.drop_last());
        match caps.last() {
            Capability::Docker => rest,
            Capability::Other(n) => rest.push(n@),
        }
    }
}

/// The capabilities handed to the container and its bind mounts: the Docker capability is
/// not handed on; where the app asks for it, the socket of the Docker daemon is mounted in
/// addition to the app's bind mounts.
pub fn capabilities_and_bind_mounts(caps: &Vec<Capability>, bind_mounts: Vec<BindMount>) -> (res: (
    Vec<String>,
    Vec<BindMount>,
))
    ensures
        res.0@.len() == added_capabilities(caps@).len(),
        forall|i: int|
            0 <= i < res.0@.len() ==> (#[trigger] res.0@[i])@ == added_capabilities(caps@)[i],
        caps@.contains(Capability::Docker) ==> res.1@.len() == bind_mounts@.len() + 1
            && res.1@.take(bind_mounts@.len() as int) == bind_mounts@ && res.1@.last().host_path@
            == "/run/docker.sock"@ && res.1@.last().container_path@ == "/run/docker.sock"@,
        !caps@.contains(Capability::Docker) ==> res.1@ == bind_mounts@,
{
    let mut names: Vec<String> = Vec::new();
    let mut docker = false;
    let mut i: usize = 0;
    while i < caps.len()
        invariant
            i <= caps@.len(),
            names@.len() == added_capabilities(caps@.take(i as int)).len(),
            forall|k: int|
                0 <= k < names@.len() ==> (#[trigger] names@[k])@ == added_capabilities(
                    caps@.take(i as int),
                )[k],
            docker == caps@.take(i as int).contains(Capability::Docker),
        decreases caps@.len() - i,
    {
        assert(caps@.take(i + 1).drop_last() =~= caps@.take(i as int));
        assert(caps@.take(i + 1).last() == caps@[i as int]);
        match &caps[i] {
            Capability::Docker => {
                docker = true;
                assert(caps@.take(i + 1)[i as int] == Capability::Docker);
            },
            Capability::Other(n) => {
                names.push(n.clone());
                assert(caps@[i as int] != Capability::Docker);
                assert(caps@.take(i + 1).contains(Capability::Docker) == caps@.take(
                    i as int,
                ).contains(Capability::Docker)) by {
                    if caps@.take(i + 1).contains(Capability::Docker) {
                        let k = choose|k: int|
                            0 <= k < i + 1 && #[trigger] caps@.take(i + 1)[k] == Capability::Docker;
                        assert(caps@.take(i as int)[k] == Capability::Docker);
                    }
                    if caps@.take(i as int).contains(Capability::Docker) {
                        let k = choose|k: int|
                            0 <= k < i && #[trigger] caps@.take(i as int)[k] == Capability::Docker;
                        assert(caps@.take(i + 1)[k] == Capability::Docker);
                    }
                }
            },
        }
        i = i + 1;
    }
    assert(caps@.take(i as int) =~= caps@);
    let mut mounts = bind_mounts;
    if docker {
        let ghost before = mounts@;
        mounts.push(BindMount::default_docker_socket_bind_mount());
        assert(mounts@.take(before.len() as int) =~= before);
    }
    (names, mounts)
}

/// The command of the container: the app's arguments, or none where it has no arguments.
pub fn container_cmd(arguments: Vec<String>) -> (res: Option<Vec<String>>)
    ensures
        arguments@.len() == 0 ==> res is None,
        arguments@.len() > 0 ==> res == Some(arguments),
{
    if arguments.len() == 0 {
        None
    } else {
        Some(arguments)
    }
}

/// The environment of the container: each variable as `name` or `name=value`, in order.
pub fn environment_texts(vars: &Vec<EnvironmentVariable>) -> (res: Vec<String>)
    ensures
        res@.len() == vars@.len(),
        forall|i: int|
            0 <= i < res@.len() ==> (#[trigger] res@[i])@ == env_text(
                vars@[i].name@,
                opt_view(vars@[i].value),
            ),
{
    let mut res: Vec<String> = Vec::new();
    let mut i: usize = 0;
    while i < vars.len()
        invariant
            i <= vars@.len(),
            res@.len() == i,
            forall|k: int|
                0 <= k < i ==> (#[trigger] res@[k])@ == env_text(
                    vars@[k].name@,
                    opt_view(vars@[k].value),
                ),
        decreases vars@.len() - i,
    {
        res.push(vars[i].to_string());
        i = i + 1;
    }
    res
}

/// The labels of the container: each label with its value, or the empty text where it has
/// none.
pub fn container_labels(labels: &Vec<Label>) -> (res: Vec<(String, String)>)
    ensures
        res@.len() == labels@.len(),
        forall|i: int|
            0 <= i < res@.len() ==> (#[trigger] res@[i]).0@ == labels@[i].label@ && res@[i].1@
                == match labels@[i].value {
                Some(v) => v@,
                None => Seq::<char>::empty(),
            },
{
    let mut res: Vec<(String, String)> = Vec::new();
    let mut i: usize = 0;
    while i < labels.len()
        invariant
            i <= labels@.len(),
            res@.len() == i,
            forall|k: int|
                0 <= k < i ==> (#[trigger] res@[k]).0@ == labels@[k].label@ && res@[k].1@
                    == match labels@[k].value {
                    Some(v) => v@,
                    None => Seq::<char>::empty(),
                },
        decreases labels@.len() - i,
    {
        let value = match &labels[i].value {
            Some(v) => v.clone(),
            None => String::new(),
        };
        res.push((labels[i].label.clone(), value));
        i = i + 1;
    }
    res
}

/// Some text of `v` is `t`.
pub open spec fn text_listed(v: Seq<String>, t: Seq<char>) -> bool {
    exists|j: int| 0 <= j < v.len() && (#[trigger] v[j])@ == t
}

/// Some binding of `bindings` has the key `t`.
pub open spec fn key_bound(bindings: Seq<(String, String)>, t: Seq<char>) -> bool {
    exists|i: int| 0 <= i < bindings.len() && (#[trigger] bindings[i]).0@ == t
}

/// No text occurs twice in `v`.
pub open spec fn texts_distinct(v: Seq<String>) -> bool {
    forall|a: int, b: int|
        0 <= a < v.len() && 0 <= b < v.len() && a != b ==> (#[trigger] v[a])@ != (#[trigger] v[b])@
}

fn find_text(v: &Vec<String>, key: &Vec<char>) -> (res: bool)
    ensures
        res == text_listed(v@, key@),
{
    let mut j: usize = 0;
    while j < v.len()
        invariant
            j <= v@.len(),
            forall|m: int| 0 <= m < j ==> (#[trigger] v@[m])@ != key@,
        decreases v@.len() - j,
    {
        if chars_equal(&chars_of_string(&v[j]), key) {
            assert(v@[j as int]@ == key@);
            return true;
        }
        j = j + 1;
    }
    false
}

/// The ports the container exposes: the keys of its port bindings, each once, in the order
/// they first occur.
pub fn exposed_ports(bindings: &Vec<(String, String)>) -> (res: Vec<String>)
    ensures
        texts_distinct(res@),
        forall|i: int| 0 <= i < bindings@.len() ==> text_listed(res@, (#[trigger] bindings@[i]).0@),
        forall|j: int| 0 <= j < res@.len() ==> key_bound(bindings@, (#[trigger] res@[j])@),
{
    let mut res: Vec<String> = Vec::new();
    let mut i: usize = 0;
    while i < bindings.len()
        invariant
            i <= bindings@.len(),
            texts_distinct(res@),
            forall|k: int| 0 <= k < i ==> text_listed(res@, (#[trigger] bindings@[k]).0@),
            forall|j: int| 0 <= j < res@.len() ==> key_bound(bindings@, (#[trigger] res@[j])@),
        decreases bindings@.len() - i,
    {
        let key = chars_of_string(&bindings[i].0);
        if !find_text(&res, &key) {
            let ghost before = res@;
            res.push(bindings[i].0.clone());
            assert(res@[before.len() as int]@ == bindings@[i as int].0@);
            assert forall|a: int, b: int|
                0 <= a < res@.len() && 0 <= b < res@.len() && a != b implies (#[trigger] res@[a])@
                    != (#[trigger] res@[b])@ by {
                if a < before.len() && b < before.len() {
                    assert(before[a]@ != before[b]@);
                } else if a < before.len() {
                    assert(res@[a] == before[a]);
                    assert(!text_listed(before, key@));
                    if before[a]@ == key@ {
                        assert(text_listed(before, key@));
                    }
                } else {
                    assert(res@[b] == before[b]);
                    if before[b]@ == key@ {
                        assert(text_listed(before, key@));
                    }
                }
            }
            assert forall|k: int| 0 <= k < i + 1 implies text_listed(
                res@,
                (#[trigger] bindings@[k]).0@,
            ) by {
                if k < i {
                    assert(text_listed(before, bindings@[k].0@));
                    let j2 = choose|j2: int|
                        0 <= j2 < before.len() && (#[trigger] before[j2])@ == bindings@[k].0@;
                    assert(res@[j2] == before[j2]);
                } else {
                    assert(res@[before.len() as int]@ == bindings@[k].0@);
                }
            }
            assert forall|j2: int| 0 <= j2 < res@.len() implies key_bound(
                bindings@,
                (#[trigger] res@[j2])@,
            ) by {
                if j2 < before.len() {
                    assert(res@[j2] == before[j2]);
                    assert(key_bound(bindings@, before[j2]@));
                } else {
                    assert(bindings@[i as int].0@ == res@[j2]@);
                }
            }
        }
        i = i + 1;
    }
    res
}

/// The aliases of an endpoint of the container once the host name of the app is added:
/// the aliases it had, then the host name.
pub fn add_alias(aliases: Option<Vec<String>>, hostname: String) -> (res: Vec<String>)
    ensures
        match aliases {
            Some(a) => res@ == a@.push(hostname),
            None => res@ == seq![hostname],
        },
{
    match aliases {
        Some(a) => {
            let mut a = a;
            a.push(hostname);
            a
        },
        None => {
            let mut a: Vec<String> = Vec::new();
            a.push(hostname);
            a
        },
    }
}

/// No network occurs twice among the connected networks, and no USB port twice among the
/// devices.
pub open spec fn instance_config_wf(config: InstanceConfig) -> bool {
    &&& forall|a: int, b: int|
        0 <= a < config.connected_networks@.len() && 0 <= b < config.connected_networks@.len()
            && a != b ==> (#[trigger] config.connected_networks@[a]).0@ != (
        #[trigger] config.connected_networks@[b]).0@
    &&& forall|a: int, b: int|
        0 <= a < config.usb_devices@.len() && 0 <= b < config.usb_devices@.len() && a != b
            ==> (#[trigger] config.usb_devices@[a]).0@ != (#[trigger] config.usb_devices@[b]).0@
}

/// The aliases of an endpoint of the container: the host name of the app, where it has one.
pub open spec fn endpoint_aliases(hostname: Option<String>) -> Seq<String> {
    match hostname {
        Some(h) => seq![h],
        None => Seq::empty(),
    }
}

/// The endpoints of the container: one per connected network, in order, with the address
/// the instance has there and the host name of the app as its alias.
pub fn container_network_config(config: &InstanceConfig, hostname: Option<String>) -> (res: Vec<
    (String, IpAddress, Vec<String>),
>)
    ensures
        res@.len() == config.connected_networks@.len(),
        forall|i: int|
            0 <= i < res@.len() ==> {
                let (network, address, aliases) = #[trigger] res@[i];
                &&& network@ == config.connected_networks@[i].0@
                &&& address == config.connected_networks@[i].1
                &&& aliases@.len() == endpoint_aliases(hostname).len()
                &&& forall|k: int|
                    0 <= k < aliases@.len() ==> (#[trigger] aliases@[k])@ == endpoint_aliases(
                        hostname,
                    )[k]@
            },
{
    let mut res: Vec<(String, IpAddress, Vec<String>)> = Vec::new();
    let mut i: usize = 0;
    while i < config.connected_networks.len()
        invariant
            i <= config.connected_networks@.len(),
            res@.len() == i,
            forall|j: int|
                0 <= j < i ==> {
                    let (network, address, aliases) = #[trigger] res@[j];
                    &&& network@ == config.connected_networks@[j].0@
                    &&& address == config.connected_networks@[j].1
                    &&& aliases@.len() == endpoint_aliases(hostname).len()
                    &&& forall|k: int|
                        0 <= k < aliases@.len() ==> (#[trigger] aliases@[k])@
                            == endpoint_aliases(hostname)[k]@
                },
        decreases config.connected_networks@.len() - i,
    {
        let mut aliases: Vec<String> = Vec::new();
        match &hostname {
            Some(h) => aliases.push(h.clone()),
            None => {},
        }
        let network = config.connected_networks[i].0.clone();
        let address = config.connected_networks[i].1;
        res.push((network, address, aliases));
        i = i + 1;
    }
    res
}

/// The entry for the host of the daemon: `tech.flecs.core` with the daemon's address in the
/// default network, or with `host-gateway` where it has none there.
pub fn core_gateway_host(address: Option<String>) -> (res: String)
    ensures
        res@ == "tech.flecs.core:"@ + match address {
            Some(a) => a@,
            None => "host-gateway"@,
        },
{
    let prefix = string_from("tech.flecs.core:");
    match address {
        Some(a) => concat_strings(&prefix, &a),
        None => concat_strings(&prefix, &string_from("host-gateway")),
    }
}

/// How the container of an instance is set up.
#[derive(Debug, Clone, PartialEq, Eq)]
pub struct ContainerSettings {
    pub image: String,
    pub hostname: String,
    pub env: Vec<String>,
    pub labels: Vec<(String, String)>,
    pub cmd: Option<Vec<String>>,
    pub exposed_ports: Vec<String>,
    pub port_bindings: Vec<(String, String)>,
    pub cap_add: Vec<String>,
    pub bind_mounts: Vec<BindMount>,
    pub volume_mounts: Vec<VolumeMount>,
    pub extra_hosts: Vec<String>,
}

/// The setup of the container of an instance with `config`: the app's image and the
/// instance's host name, its environment and the app's labels, the app's arguments as the
/// command, its port bindings and their ports exposed, the capabilities and bind mounts
/// without and for the Docker capability, its volumes, and the entry for the host of the
/// daemon.
pub fn container_settings(
    image: String,
    hostname: String,
    config: InstanceConfig,
    capabilities: &Vec<Capability>,
    bind_mounts: Vec<BindMount>,
    arguments: Vec<String>,
    labels: &Vec<Label>,
    core_address: Option<String>,
) -> (res: ContainerSettings)
    ensures
        res.image == image,
        res.hostname == hostname,
        res.env@.len() == config.environment_variables@.len(),
        forall|i: int|
            0 <= i < res.env@.len() ==> (#[trigger] res.env@[i])@ == env_text(
                config.environment_variables@[i].name@,
                opt_view(config.environment_variables@[i].value),
            ),
        res.labels@.len() == labels@.len(),
        forall|i: int|
            0 <= i < res.labels@.len() ==> (#[trigger] res.labels@[i]).0@ == labels@[i].label@
                && res.labels@[i].1@ == match labels@[i].value {
                Some(v) => v@,
                None => Seq::<char>::empty(),
            },
        arguments@.len() == 0 ==> res.cmd is None,
        arguments@.len() > 0 ==> res.cmd == Some(arguments),
        bindings_view(res.port_bindings@) == list_bindings(
            config.port_mapping.tcp@,
            TransportProtocol::Tcp,
        ) + list_bindings(config.port_mapping.udp@, TransportProtocol::Udp) + list_bindings(
            config.port_mapping.sctp@,
            TransportProtocol::Sctp,
        ),
        texts_distinct(res.exposed_ports@),
        forall|i: int|
            0 <= i < res.port_bindings@.len() ==> text_listed(
                res.exposed_ports@,
                (#[trigger] res.port_bindings@[i]).0@,
            ),
        forall|j: int|
            0 <= j < res.exposed_ports@.len() ==> key_bound(
                res.port_bindings@,
                (#[trigger] res.exposed_ports@[j])@,
            ),
        res.cap_add@.len() == added_capabilities(capabilities@).len(),
        forall|i: int|
            0 <= i < res.cap_add@.len() ==> (#[trigger] res.cap_add@[i])@ == added_capabilities(
                capabilities@,
            )[i],
        capabilities@.contains(Capability::Docker) ==> res.bind_mounts@.len() == bind_mounts@.len()
            + 1 && res.bind_mounts@.take(bind_mounts@.len() as int) == bind_mounts@
            && res.bind_mounts@.last().host_path@ == "/run/docker.sock"@
            && res.bind_mounts@.last().container_path@ == "/run/docker.sock"@,
        !capabilities@.contains(Capability::Docker) ==> res.bind_mounts@ == bind_mounts@,
        res.volume_mounts@ == config.volume_mounts@,
        res.extra_hosts@.len() == 1,
        res.extra_hosts@[0]@ == "tech.flecs.core:"@ + match core_address {
            Some(a) => a@,
            None => "host-gateway"@,
        },
{
    let (cap_add, mounts) = capabilities_and_bind_mounts(capabilities, bind_mounts);
    let port_bindings = config.port_mapping.generate_port_bindings();
    let exposed = exposed_ports(&port_bindings);
    let mut extra_hosts: Vec<String> = Vec::new();
    extra_hosts.push(core_gateway_host(core_address));
    ContainerSettings {
        image,
        hostname,
        env: environment_texts(&config.environment_variables),
        labels: container_labels(labels),
        cmd: container_cmd(arguments),
        exposed_ports: exposed,
        port_bindings,
        cap_add,
        bind_mounts: mounts,
        volume_mounts: config.volume_mounts,
        extra_hosts,
    }
}

/// A new instance while it is being set up: what is known of it before the deployment is
/// asked anything, and the name of the default network once it is known.
#[derive(Debug, Clone, PartialEq, Eq)]
pub struct NewInstance {
    pub id: InstanceId,
    pub config_path: String,
    pub environment_variables: Vec<EnvironmentVariable>,
    pub tcp_ports: Vec<PortMapping>,
    pub address: IpAddress,
    pub editor_path_prefixes: Vec<(u16, String)>,
    pub default_network: Option<String>,
}

/// What the deployment answered while a new instance is set up.
#[derive(Debug, PartialEq, Eq)]
pub enum NewInstanceEvent {
    /// The name of the default network, where it has one.
    DefaultNetwork(Option<String>),
    /// The configuration files were written, or why not.
    ConfigFiles(Result<(), String>),
    /// The volumes were created, or why not.
    Volumes(Result<Vec<VolumeMount>, String>),
}

/// What to do next while a new instance is set up.
#[derive(Debug, Clone, PartialEq, Eq)]
pub enum NewInstanceStep {
    /// Write the configuration files into the configuration directory.
    CreateConfigFiles,
    /// Create the volumes of the instance.
    CreateVolumes,
    /// Remove the configuration directory `remove`, then fail with `error`.
    CleanUpAndFail { remove: String, error: String },
    /// Fail with the error.
    Fail(String),
    /// The instance is set up, with this configuration.
    Done(InstanceConfig),
}

/// The event hands the settings of the instance over to its finished configuration: the
/// volumes are there and the default network is known.
pub open spec fn hands_over(instance: NewInstance, event: NewInstanceEvent) -> bool {
    event matches NewInstanceEvent::Volumes(Ok(_)) && instance.default_network is Some
}

impl NewInstance {
    /// One step of setting up the instance: a default network without a name fails; with
    /// one, the configuration files are written, then the volumes created; a failure to
    /// write the files fails, a failure to create the volumes removes the files again and
    /// fails; with the volumes the instance is set up on the default network.
    pub fn step(&mut self, event: NewInstanceEvent) -> (res: NewInstanceStep)
        ensures
            !hands_over(*old(self), event) ==> *final(self) == match event {
                NewInstanceEvent::DefaultNetwork(Some(n)) => NewInstance {
                    default_network: Some(n),
                    ..*old(self)
                },
                _ => *old(self),
            },
            hands_over(*old(self), event) ==> {
                &&& final(self).id == old(self).id
                &&& final(self).config_path == old(self).config_path
                &&& final(self).address == old(self).address
                &&& final(self).default_network is None
                &&& final(self).environment_variables@.len() == 0
                &&& final(self).tcp_ports@.len() == 0
                &&& final(self).editor_path_prefixes@.len() == 0
            },
            match event {
                NewInstanceEvent::DefaultNetwork(Some(n)) => final(self).default_network == Some(n)
                    && res == NewInstanceStep::CreateConfigFiles,
                NewInstanceEvent::DefaultNetwork(None) => res matches NewInstanceStep::Fail(m) && m@
                    == "Default network has no name"@,
                NewInstanceEvent::ConfigFiles(Ok(())) => res == NewInstanceStep::CreateVolumes,
                NewInstanceEvent::ConfigFiles(Err(e)) => res == NewInstanceStep::Fail(e),
                NewInstanceEvent::Volumes(Err(e)) => res == (NewInstanceStep::CleanUpAndFail {
                    remove: old(self).config_path,
                    error: e,
                }),
                NewInstanceEvent::Volumes(Ok(v)) => match old(self).default_network {
                    Some(n) => res matches NewInstanceStep::Done(c) && {
                        &&& c.environment_variables == old(self).environment_variables
                        &&& c.port_mapping.tcp == old(self).tcp_ports
                        &&& c.port_mapping.udp@.len() == 0
                        &&& c.port_mapping.sctp@.len() == 0
                        &&& c.volume_mounts == v
                        &&& c.connected_networks@ == seq![(n, old(self).address)]
                        &&& c.usb_devices@.len() == 0
                        &&& c.mapped_editor_ports@.len() == 0
                        &&& c.editor_path_prefixes == old(self).editor_path_prefixes
                        &&& instance_config_wf(c)
                    },
                    None => res matches NewInstanceStep::Fail(m) && m@
                        == "Default network has no name"@,
                },
            },
    {
        proof {
            reveal_strlit("Default network has no name");
        }
        match event {
            NewInstanceEvent::DefaultNetwork(name) => match default_network_name(name) {
                Ok(n) => {
                    self.default_network = Some(n);
                    NewInstanceStep::CreateConfigFiles
                },
                Err(m) => NewInstanceStep::Fail(m),
            },
            NewInstanceEvent::ConfigFiles(Ok(())) => NewInstanceStep::CreateVolumes,
            NewInstanceEvent::ConfigFiles(Err(e)) => NewInstanceStep::Fail(e),
            NewInstanceEvent::Volumes(created) => match after_volumes(
                created,
                self.config_path.clone(),
            ) {
                VolumesOutcome::CleanUp { remove, error } => {
                    NewInstanceStep::CleanUpAndFail { remove, error }
                },
                VolumesOutcome::Ready(volumes) => {
                    let network = match self.default_network.take() {
                        Some(n) => n,
                        None => {
                            return NewInstanceStep::Fail(
                                string_from("Default network has no name"),
                            );
                        },
                    };
                    let mut environment_variables: Vec<EnvironmentVariable> = Vec::new();
                    std::mem::swap(&mut environment_variables, &mut self.environment_variables);
                    let mut tcp_ports: Vec<PortMapping> = Vec::new();
                    std::mem::swap(&mut tcp_ports, &mut self.tcp_ports);
                    let mut editor_path_prefixes: Vec<(u16, String)> = Vec::new();
                    std::mem::swap(&mut editor_path_prefixes, &mut self.editor_path_prefixes);
                    NewInstanceStep::Done(
                        new_instance_config(
                            environment_variables,
                            tcp_ports,
                            volumes,
                            network,
                            self.address,
                            editor_path_prefixes,
                        ),
                    )
                },
            },
        }
    }
}

/// Halting an instance in this state stops its container: it runs, or its state is not
/// known for sure.
pub open spec fn halt_stops_spec(status: InstanceStatus) -> bool {
    status == InstanceStatus::Running || status == InstanceStatus::Unknown || status
        == InstanceStatus::Orphaned
}

/// Whether halting an instance whose container is in `status` has to stop it.
pub fn halt_stops(status: InstanceStatus) -> (res: bool)
    ensures
        res == halt_stops_spec(status),
{
    match status {
        InstanceStatus::Running | InstanceStatus::Unknown | InstanceStatus::Orphaned => true,
        _ => false,
    }
}

/// The volumes of the instance `id` as they are created: each named
/// `flecs-<id>-<name of the manifest's volume>`, mounted where the manifest says.
pub fn instance_volume_mounts(id: InstanceId, mounts: Vec<VolumeMount>) -> (res: Vec<VolumeMount>)
    ensures
        res@.len() == mounts@.len(),
        forall|i: int|
            0 <= i < res@.len() ==> (#[trigger] res@[i]).name@ == docker_prefix() + instance_id_text(
                id.value,
            ) + "-"@ + mounts@[i].name@ && res@[i].container_path == mounts@[i].container_path,
{
    proof {
        reveal_strlit("-");
    }
    let prefix = concat_strings(&id.to_docker_id(), &string_from("-"));
    let ghost all = mounts@;
    let mut rest = mounts;
    let mut res: Vec<VolumeMount> = Vec::new();
    while rest.len() > 0
        invariant
            res@.len() + rest@.len() == all.len(),
            rest@ == all.skip(res@.len() as int),
            prefix@ == docker_prefix() + instance_id_text(id.value) + "-"@,
            forall|i: int|
                0 <= i < res@.len() ==> (#[trigger] res@[i]).name@ == prefix@ + all[i].name@
                    && res@[i].container_path == all[i].container_path,
        decreases rest@.len(),
    {
        let m = rest.remove(0);
        assert(m == all[res@.len() as int]);
        assert(rest@ =~= all.skip(res@.len() as int + 1));
        let name = concat_strings(&prefix, &m.name);
        res.push(VolumeMount { name, container_path: m.container_path });
    }
    res
}

/// The volumes of an instance once their creation is over: all of them with their ids
/// where every one was created; else the volumes that were created are to be deleted and
/// the instance fails.
#[derive(Debug, Clone, PartialEq, Eq)]
pub enum VolumesCreated {
    All(Vec<(String, VolumeMount)>),
    Failed { delete: Vec<String>, error: String },
}

/// The ids of the volumes created among `results`, in order.
pub open spec fn created_ids(results: Seq<Result<(String, VolumeMount), String>>) -> Seq<Seq<char>>
    decreases results.len(),
{
    if results.len() == 0 {
        Seq::empty()
    } else {
        let rest = created_ids(results.drop_last());
        match results.last() {
            Ok((id, _)) => rest.push(id@),
            Err(_) => rest,
        }
    }
}

/// Books the creation of the volumes of the instance `id`: where every volume was created,
/// all of them with their ids; else the created ones are to be deleted, and the error says
/// `Could not create all volumes for instance <id>`.
pub fn finish_create_volumes(id: InstanceId, results: Vec<Result<(String, VolumeMount), String>>) -> (res:
    VolumesCreated)
    ensures
        (res is All) <==> forall|i: int| 0 <= i < results@.len() ==> (#[trigger] results@[i]) is Ok,
        res matches VolumesCreated::All(v) ==> v@.len() == results@.len() && forall|i: int|
            0 <= i < v@.len() ==> results@[i] == Ok::<(String, VolumeMount), String>(
                #[trigger] v@[i],
            ),
        res matches VolumesCreated::Failed { delete, error } ==> delete@.len() == created_ids(
            results@,
        ).len() && (forall|k: int|
            0 <= k < delete@.len() ==> (#[trigger] delete@[k])@ == created_ids(results@)[k])
            && error@ == "Could not create all volumes for instance "@ + instance_id_text(
            id.value,
        ),
{
    proof {
        reveal_strlit("Could not create all volumes for instance ");
    }
    let ghost all = results@;
    let mut rest = results;
    let mut created: Vec<(String, VolumeMount)> = Vec::new();
    let mut ids: Vec<String> = Vec::new();
    let mut failed = false;
    let mut n: usize = 0;
    assert(all.len() == rest.len());
    while rest.len() > 0
        invariant
            all.len() <= usize::MAX,
            n + rest@.len() == all.len(),
            rest@ == all.skip(n as int),
            ids@.len() == created_ids(all.take(n as int)).len(),
            forall|k: int| 0 <= k < ids@.len() ==> (#[trigger] ids@[k])@ == created_ids(
                all.take(n as int),
            )[k],
            failed <==> exists|i: int| 0 <= i < n && (#[trigger] all[i]) is Err,
            !failed ==> created@.len() == n && forall|i: int|
                0 <= i < n ==> all[i] == Ok::<(String, VolumeMount), String>(#[trigger] created@[i]),
        decreases rest@.len(),
    {
        let r = rest.remove(0);
        let ghost at = n as int;
        assert(r == all[at]);
        assert(rest@ =~= all.skip(at + 1));
        assert(all.take(at + 1).drop_last() =~= all.take(at));
        assert(all.take(at + 1).last() == all[at]);
        match r {
            Ok((volume_id, mount)) => {
                ids.push(volume_id.clone());
                created.push((volume_id, mount));
            },
            Err(_) => {
                failed = true;
            },
        }
        n = n + 1;
    }
    assert(all.take(n as int) =~= all);
    if failed {
        VolumesCreated::Failed {
            delete: ids,
            error: concat_strings(
                &string_from("Could not create all volumes for instance "),
                &id.to_string(),
            ),
        }
    } else {
        VolumesCreated::All(created)
    }
}

/// What disconnecting an instance from a network gives: nothing where it was not connected;
/// where it was, its address there once the engine let go of it (the network then leaves
/// the configuration), or the engine's error.
pub fn disconnect_network_outcome(
    networks: &mut Vec<(String, IpAddress)>,
    network: &String,
    disconnected: Result<(), String>,
) -> (res: Result<Option<IpAddress>, String>)
    ensures
        match network_position(old(networks)@, network@) {
            None => res == Ok::<Option<IpAddress>, String>(None) && final(networks)@ == old(
                networks,
            )@,
            Some(i) => match disconnected {
                Ok(()) => res == Ok::<Option<IpAddress>, String>(Some(old(networks)@[i].1))
                    && final(networks)@ == old(networks)@.remove(i),
                Err(e) => res == Err::<Option<IpAddress>, String>(e) && final(networks)@ == old(
                    networks,
                )@,
            },
        },
{
    let wanted = chars_of_string(network);
    let mut i: usize = 0;
    while i < networks.len()
        invariant
            i <= networks@.len(),
            networks@ == old(networks)@,
            wanted@ == network@,
            forall|k: int| 0 <= k < i ==> (#[trigger] networks@[k]).0@ != network@,
            network_position(networks@, network@) == network_position_from(networks@, network@, i as int),
        decreases networks@.len() - i,
    {
        if chars_equal(&chars_of_string(&networks[i].0), &wanted) {
            return match disconnected {
                Ok(()) => {
                    let (_, address) = networks.remove(i);
                    Ok(Some(address))
                },
                Err(e) => Err(e),
            };
        }
        i = i + 1;
    }
    Ok(None)
}

/// Where the network `name` first stands among `networks`.
pub open spec fn network_position(networks: Seq<(String, IpAddress)>, name: Seq<char>) -> Option<int> {
    network_position_from(networks, name, 0)
}

/// Where the network `name` first stands among `networks`, looking from `start` on.
pub open spec fn network_position_from(
    networks: Seq<(String, IpAddress)>,
    name: Seq<char>,
    start: int,
) -> Option<int>
    decreases networks.len() - start,
{
    if start < 0 || start >= networks.len() {
        None
    } else if networks[start].0@ == name {
        Some(start)
    } else {
        network_position_from(networks, name, start + 1)
    }
}

} // verus!
