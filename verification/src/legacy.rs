//! Reading the instances that earlier versions of the daemon stored: their environment,
//! ports and USB devices in the old notation.
use crate::instance::config::InstancePortMapping;
use crate::instance::usb::{
    usb_location, UsbDevice, UsbDeviceReader, UsbError, UsbErrorView, UsbPathConfig,
};
use crate::manifest::environment_variable::{
    parse_env_spec, EnvironmentVariable, InvalidEnvironmentVariable,
};
use crate::manifest::port::{parse_port_mapping_spec, PortMapping, PortMappingError};
use crate::text::opt_view;
use vstd::prelude::*;

verus! {

/// A USB device as earlier versions stored it.
#[derive(Debug, Clone, PartialEq, Eq)]
pub struct Device {
    pub device: String,
    pub pid: u16,
    pub port: String,
    pub vendor: String,
    pub vid: u16,
}

impl UsbDevice {
    /// The device described by a stored entry.
    pub fn from(value: Device) -> (res: Self)
        ensures
            res.vid == value.vid,
            res.pid == value.pid,
            res.port == value.port,
            res.device == value.device,
            res.vendor == value.vendor,
    {
        UsbDevice {
            vid: value.vid,
            pid: value.pid,
            port: value.port,
            device: value.device,
            vendor: value.vendor,
        }
    }
}

/// Reads every stored variable; the first one that is no variable fails all.
pub fn migrate_environment(env: &Vec<String>) -> (res: Result<
    Vec<EnvironmentVariable>,
    InvalidEnvironmentVariable,
>)
    ensures
        match res {
            Ok(vars) => vars@.len() == env@.len() && forall|i: int|
                0 <= i < env@.len() ==> parse_env_spec(#[trigger] env@[i]@) == Some(
                    (vars@[i].name@, opt_view(vars@[i].value)),
                ),
            Err(_) => exists|i: int| 0 <= i < env@.len() && parse_env_spec(#[trigger] env@[i]@) is None,
        },
{
    let mut vars: Vec<EnvironmentVariable> = Vec::new();
    let mut i: usize = 0;
    while i < env.len()
        invariant
            i <= env@.len(),
            vars@.len() == i,
            forall|k: int|
                0 <= k < i ==> parse_env_spec(#[trigger] env@[k]@) == Some(
                    (vars@[k].name@, opt_view(vars@[k].value)),
                ),
        decreases env@.len() - i,
    {
        match EnvironmentVariable::from_str(env[i].as_str()) {
            Ok(v) => vars.push(v),
            Err(e) => {
                assert(parse_env_spec(env@[i as int]@) is None);
                return Err(e);
            },
        }
        i = i + 1;
    }
    Ok(vars)
}

/// Reads every stored port mapping; they are kept for TCP and for UDP alike. The first one
/// that is no mapping fails all.
pub fn migrate_ports(ports: &Vec<String>) -> (res: Result<InstancePortMapping, PortMappingError>)
    ensures
        match res {
            Ok(m) => {
                &&& m.tcp@.len() == ports@.len()
                &&& m.udp@ == m.tcp@
                &&& m.sctp@.len() == 0
                &&& forall|i: int|
                    0 <= i < ports@.len() ==> parse_port_mapping_spec(#[trigger] ports@[i]@) == Ok::<
                        PortMapping,
                        PortMappingError,
                    >(m.tcp@[i])
            },
            Err(e) => exists|i: int|
                0 <= i < ports@.len() && parse_port_mapping_spec(#[trigger] ports@[i]@) == Err::<
                    PortMapping,
                    PortMappingError,
                >(e),
        },
{
    let mut tcp: Vec<PortMapping> = Vec::new();
    let mut udp: Vec<PortMapping> = Vec::new();
    let mut i: usize = 0;
    while i < ports.len()
        invariant
            i <= ports@.len(),
            tcp@.len() == i,
            udp@ == tcp@,
            forall|k: int|
                0 <= k < i ==> parse_port_mapping_spec(#[trigger] ports@[k]@) == Ok::<
                    PortMapping,
                    PortMappingError,
                >(tcp@[k]),
        decreases ports@.len() - i,
    {
        match PortMapping::from_str(ports[i].as_str()) {
            Ok(m) => {
                tcp.push(m);
                udp.push(m);
            },
            Err(e) => {
                return Err(e);
            },
        }
        i = i + 1;
    }
    Ok(InstancePortMapping { tcp, udp, sctp: Vec::new() })
}

/// Looks up every stored USB device through `usb_reader`; the first one that cannot be
/// located fails all. Each location is given with its port; without devices there is
/// nothing to look up and the list is empty.
pub fn migrate_devices<U: UsbDeviceReader>(devices: Vec<Device>, usb_reader: &U) -> (res: Result<
    Vec<(String, UsbPathConfig)>,
    UsbError,
>)
    ensures
        (res is Ok) <==> forall|i: int|
            0 <= i < devices@.len() ==> usb_location(usb_reader, (#[trigger] devices@[i]).port@) is Ok,
        res matches Ok(list) ==> list@.len() == devices@.len() && forall|i: int|
            0 <= i < list@.len() ==> located_as(
                usb_reader,
                devices@[i].port@,
                #[trigger] list@[i],
            ),
        res matches Err(r) ==> exists|i: int|
            0 <= i < devices@.len() && (forall|k: int|
                0 <= k < i ==> usb_location(usb_reader, (#[trigger] devices@[k]).port@) is Ok)
                && usb_location(usb_reader, devices@[i].port@) == Err::<(nat, nat), UsbErrorView>(
                r@,
            ),
{
    let mut list: Vec<(String, UsbPathConfig)> = Vec::new();
    let ghost all = devices@;
    let mut rest = devices;
    while rest.len() > 0
        invariant
            list@.len() + rest@.len() == all.len(),
            all == devices@,
            rest@ == all.skip(list@.len() as int),
            forall|k: int|
                0 <= k < list@.len() ==> located_as(usb_reader, all[k].port@, #[trigger] list@[k]),
        decreases rest@.len(),
    {
        let device = rest.remove(0);
        let ghost n = list@.len() as int;
        assert(device == all[n]);
        assert(rest@ =~= all.skip(n + 1));
        match UsbPathConfig::try_from(&UsbDevice::from(device), usb_reader) {
            Ok(config) => {
                let port = config.port.clone();
                list.push((port, config));
                assert(located_as(usb_reader, all[n].port@, list@[n]));
            },
            Err(e) => {
                assert forall|k: int| 0 <= k < n implies usb_location(
                    usb_reader,
                    (#[trigger] all[k]).port@,
                ) is Ok by {
                    assert(located_as(usb_reader, all[k].port@, list@[k]));
                }
                return Err(e);
            },
        }
    }
    assert forall|i: int| 0 <= i < all.len() implies usb_location(
        usb_reader,
        (#[trigger] all[i]).port@,
    ) is Ok by {
        assert(located_as(usb_reader, all[i].port@, list@[i]));
    }
    Ok(list)
}

/// `entry` gives the device at `port` with its location as `reader` finds it.
pub open spec fn located_as<U: UsbDeviceReader>(
    reader: &U,
    port: Seq<char>,
    entry: (String, UsbPathConfig),
) -> bool {
    &&& entry.0@ == port
    &&& entry.1.port@ == port
    &&& usb_location(reader, port) matches Ok((d, b))
    &&& entry.1.dev_num == d
    &&& entry.1.bus_num == b
}

} // verus!
