//! USB devices handed to instances: which bus and device number a port has, and where its
//! device node lies.
use crate::num::{decimal_chars, decimal_spec, parse_u16, parse_u16_spec, IntErrorKind};
use crate::text::{chars_equal, chars_of, chars_of_string, concat_chars, string_from, string_of};
use vstd::prelude::*;

verus! {

/// A USB device as the system lists it.
#[derive(Debug, Clone, PartialEq, Eq)]
pub struct UsbDevice {
    pub device: String,
    pub vendor: String,
    pub port: String,
    pub pid: u16,
    pub vid: u16,
}

/// Why the location of a USB device could not be told.
#[derive(Debug, Clone, PartialEq, Eq)]
pub enum UsbError {
    /// The value could not be read.
    Read { value_name: String, port: String },
    /// The value read is no number that fits a `u16`.
    InvalidNumber { value_name: String, kind: IntErrorKind },
}

/// A `UsbError` with its texts taken as character sequences.
pub enum UsbErrorView {
    Read { value_name: Seq<char>, port: Seq<char> },
    InvalidNumber { value_name: Seq<char>, kind: IntErrorKind },
}

impl View for UsbError {
    type V = UsbErrorView;

    open spec fn view(&self) -> UsbErrorView {
        match self {
            UsbError::Read { value_name, port } => UsbErrorView::Read {
                value_name: value_name@,
                port: port@,
            },
            UsbError::InvalidNumber { value_name, kind } => UsbErrorView::InvalidNumber {
                value_name: value_name@,
                kind: *kind,
            },
        }
    }
}

/// Where the values of USB devices are read from, the system or a stand-in.
pub trait UsbDeviceReader {
    /// What reading the value `value_name` of the device at `port` gives: its text, or why
    /// it could not be read.
    spec fn usb_value(&self, value_name: Seq<char>, port: Seq<char>) -> Result<
        Seq<char>,
        UsbErrorView,
    >;

    /// Reads the value `value_name` (such as `busnum`) of the device at `port`.
    fn get_usb_value(&self, value_name: &str, port: &str) -> (res: Result<String, UsbError>)
        ensures
            match self.usb_value(value_name@, port@) {
                Ok(t) => res matches Ok(s) && s@ == t,
                Err(e) => res matches Err(r) && r@ == e,
            },
    ;
}

/// Values of USB devices given as port, value name and text; where a port and name occur
/// twice the first entry counts, and a value that is not listed cannot be read.
#[derive(Debug, Clone)]
pub struct UsbValues {
    pub values: Vec<(String, String, String)>,
}

/// The text of the first entry of `values` for `port` and `value_name`.
pub open spec fn lookup_usb_value(
    values: Seq<(String, String, String)>,
    value_name: Seq<char>,
    port: Seq<char>,
) -> Option<Seq<char>>
    decreases values.len(),
{
    if values.len() == 0 {
        None
    } else if values[0].0@ == port && values[0].1@ == value_name {
        Some(values[0].2@)
    } else {
        lookup_usb_value(values.drop_first(), value_name, port)
    }
}

impl UsbDeviceReader for UsbValues {
    open spec fn usb_value(&self, value_name: Seq<char>, port: Seq<char>) -> Result<
        Seq<char>,
        UsbErrorView,
    > {
        match lookup_usb_value(self.values@, value_name, port) {
            Some(t) => Ok(t),
            None => Err(UsbErrorView::Read { value_name, port }),
        }
    }

    fn get_usb_value(&self, value_name: &str, port: &str) -> (res: Result<String, UsbError>) {
        let wanted_port = chars_of(port);
        let wanted_name = chars_of(value_name);
        let mut i: usize = 0;
        assert(self.values@.skip(0) =~= self.values@);
        while i < self.values.len()
            invariant
                i <= self.values.len(),
                wanted_port@ == port@,
                wanted_name@ == value_name@,
                lookup_usb_value(self.values@, value_name@, port@) == lookup_usb_value(
                    self.values@.skip(i as int),
                    value_name@,
                    port@,
                ),
            decreases self.values.len() - i,
        {
            assert(self.values@.skip(i as int)[0] == self.values@[i as int]);
            assert(self.values@.skip(i as int).drop_first() =~= self.values@.skip(i + 1));
            let entry_port = chars_of_string(&self.values[i].0);
            let entry_name = chars_of_string(&self.values[i].1);
            if chars_equal(&entry_port, &wanted_port) && chars_equal(&entry_name, &wanted_name) {
                return Ok(self.values[i].2.clone());
            }
            i = i + 1;
        }
        assert(self.values@.skip(i as int) =~= Seq::<(String, String, String)>::empty());
        Err(UsbError::Read { value_name: string_from(value_name), port: string_from(port) })
    }
}

/// The bus and device number of the device at a USB port.
#[derive(Debug, Clone, PartialEq, Eq, Hash)]
pub struct UsbPathConfig {
    pub port: String,
    pub bus_num: u16,
    pub dev_num: u16,
}

/// What reading a number from the text of a USB value gives.
pub open spec fn usb_number(text: Seq<char>) -> Result<nat, IntErrorKind> {
    parse_u16_spec(text)
}

fn parse_usb_number(value_name: &str, text: &String) -> (res: Result<u16, UsbError>)
    ensures
        match res {
            Ok(v) => usb_number(text@) == Ok::<nat, IntErrorKind>(v as nat),
            Err(e) => e matches UsbError::InvalidNumber { value_name: n, kind } && n@
                == value_name@ && usb_number(text@) == Err::<nat, IntErrorKind>(kind),
        },
{
    match parse_u16(&chars_of_string(text)) {
        Ok(v) => Ok(v),
        Err(e) => Err(UsbError::InvalidNumber { value_name: string_from(value_name), kind: e.kind }),
    }
}

impl UsbPathConfig {
    /// The location of the device at `port` from the texts of its device and bus number:
    /// the device number is read first, and the first text that is no `u16` is the error.
    pub fn from_usb_values(port: &str, dev_num: &String, bus_num: &String) -> (res: Result<
        Self,
        UsbError,
    >)
        ensures
            match (usb_number(dev_num@), usb_number(bus_num@)) {
                (Ok(d), Ok(b)) => res matches Ok(c) && c.port@ == port@ && c.dev_num == d
                    && c.bus_num == b,
                (Err(k), _) => res matches Err(UsbError::InvalidNumber { value_name, kind })
                    && value_name@ == seq!['d', 'e', 'v', 'n', 'u', 'm'] && kind == k,
                (Ok(_), Err(k)) => res matches Err(UsbError::InvalidNumber { value_name, kind })
                    && value_name@ == seq!['b', 'u', 's', 'n', 'u', 'm'] && kind == k,
            },
    {
        proof {
            reveal_strlit("devnum");
            reveal_strlit("busnum");
        }
        let dev = match parse_usb_number("devnum", dev_num) {
            Ok(v) => v,
            Err(e) => return Err(e),
        };
        let bus = match parse_usb_number("busnum", bus_num) {
            Ok(v) => v,
            Err(e) => return Err(e),
        };
        Ok(UsbPathConfig { port: string_from(port), bus_num: bus, dev_num: dev })
    }

    /// The location of `device`, read through `reader`: first its device number, then its
    /// bus number, each the text of the value parsed as a `u16`.
    pub fn try_from<R: UsbDeviceReader>(device: &UsbDevice, reader: &R) -> (res: Result<
        Self,
        UsbError,
    >)
        ensures
            match usb_location(reader, device.port@) {
                Ok((d, b)) => res matches Ok(c) && c.port@ == device.port@ && c.dev_num == d
                    && c.bus_num == b,
                Err(e) => res matches Err(r) && r@ == e,
            },
    {
        proof {
            reveal_strlit("devnum");
            reveal_strlit("busnum");
            assert("devnum"@ =~= devnum_name());
            assert("busnum"@ =~= busnum_name());
        }
        let dev_text = match reader.get_usb_value("devnum", device.port.as_str()) {
            Ok(t) => t,
            Err(e) => return Err(e),
        };
        let dev = match parse_usb_number("devnum", &dev_text) {
            Ok(v) => v,
            Err(e) => return Err(e),
        };
        let bus_text = match reader.get_usb_value("busnum", device.port.as_str()) {
            Ok(t) => t,
            Err(e) => return Err(e),
        };
        let bus = match parse_usb_number("busnum", &bus_text) {
            Ok(v) => v,
            Err(e) => return Err(e),
        };
        Ok(UsbPathConfig { port: device.port.clone(), bus_num: bus, dev_num: dev })
    }
}

/// The name of the value holding the device number of a USB device.
pub open spec fn devnum_name() -> Seq<char> {
    seq!['d', 'e', 'v', 'n', 'u', 'm']
}

/// The name of the value holding the bus number of a USB device.
pub open spec fn busnum_name() -> Seq<char> {
    seq!['b', 'u', 's', 'n', 'u', 'm']
}

/// Where `reader` locates the device at `port`: its device number and then its bus number
/// are read and parsed, and the first read or parse that fails gives the error.
pub open spec fn usb_location<R: UsbDeviceReader>(reader: &R, port: Seq<char>) -> Result<
    (nat, nat),
    UsbErrorView,
> {
    match reader.usb_value(devnum_name(), port) {
        Err(e) => Err(e),
        Ok(dev_text) => match usb_number(dev_text) {
            Err(k) => Err(UsbErrorView::InvalidNumber { value_name: devnum_name(), kind: k }),
            Ok(d) => match reader.usb_value(busnum_name(), port) {
                Err(e) => Err(e),
                Ok(bus_text) => match usb_number(bus_text) {
                    Err(k) => Err(
                        UsbErrorView::InvalidNumber { value_name: busnum_name(), kind: k },
                    ),
                    Ok(b) => Ok((d, b)),
                },
            },
        },
    }
}

/// The directory of USB device nodes.
pub const USB_DEVICE_PATH: &'static str = "/dev/bus/usb/";

/// `n` in decimal, padded with zeros on the left to at least three digits, as `{:03}`
/// prints it.
pub open spec fn padded3(n: nat) -> Seq<char> {
    let d = decimal_spec(n);
    if d.len() >= 3 {
        d
    } else {
        Seq::new((3 - d.len()) as nat, |i: int| '0') + d
    }
}

/// The device node of a USB device: `/dev/bus/usb/<bus>/<device>`, both numbers with at
/// least three digits.
pub open spec fn usb_device_path_spec(bus_num: u16, dev_num: u16) -> Seq<char> {
    USB_DEVICE_PATH@ + padded3(bus_num as nat) + seq!['/'] + padded3(dev_num as nat)
}

fn padded3_chars(n: u16) -> (res: Vec<char>)
    ensures
        res@ == padded3(n as nat),
{
    let d = decimal_chars(n as u64);
    if d.len() >= 3 {
        return d;
    }
    let mut res: Vec<char> = Vec::new();
    let mut i: usize = 0;
    while i < 3 - d.len()
        invariant
            d@ == decimal_spec(n as nat),
            d.len() < 3,
            i <= 3 - d.len(),
            res@ == Seq::new(i as nat, |k: int| '0'),
        decreases 3 - d.len() - i,
    {
        res.push('0');
        assert(res@ =~= Seq::new((i + 1) as nat, |k: int| '0'));
        i = i + 1;
    }
    concat_chars(&res, &d)
}

impl UsbPathConfig {
    /// The device node of the device.
    pub fn device_path(&self) -> (res: String)
        ensures
            res@ == usb_device_path_spec(self.bus_num, self.dev_num),
    {
        let mut slash: Vec<char> = Vec::new();
        slash.push('/');
        let base = chars_of(USB_DEVICE_PATH);
        let path = concat_chars(
            &concat_chars(&concat_chars(&base, &padded3_chars(self.bus_num)), &slash),
            &padded3_chars(self.dev_num),
        );
        assert(path@ =~= usb_device_path_spec(self.bus_num, self.dev_num));
        string_of(&path)
    }
}

} // verus!
