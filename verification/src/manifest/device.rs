//! Devices that are passed into containers, given by their path below `/dev/`.
use crate::text::{chars_of, starts_with_chars, string_of};
use vstd::prelude::*;

verus! {

/// A device of the host.
#[derive(Debug, Clone, PartialEq, Eq)]
pub struct Device {
    pub path: String,
}

/// The path does not lie below `/dev/`.
#[derive(Debug, Clone, Copy, PartialEq, Eq)]
pub struct NotADevicePath;

/// The directory that device paths start with.
pub open spec fn dev_prefix() -> Seq<char> {
    seq!['/', 'd', 'e', 'v', '/']
}

/// Whether `p` starts with `/dev/`.
pub open spec fn is_device_path(p: Seq<char>) -> bool {
    dev_prefix().len() <= p.len() && p.subrange(0, dev_prefix().len() as int) == dev_prefix()
}

impl Device {
    /// The device at path `s`, which has to start with `/dev/`.
    pub fn from_str(s: &str) -> (res: Result<Self, NotADevicePath>)
        ensures
            is_device_path(s@) ==> (res matches Ok(d) && d.path@ == s@),
            !is_device_path(s@) ==> res is Err,
    {
        let text = chars_of(s);
        let mut prefix: Vec<char> = Vec::new();
        prefix.push('/');
        prefix.push('d');
        prefix.push('e');
        prefix.push('v');
        prefix.push('/');
        assert(prefix@ =~= dev_prefix());
        if starts_with_chars(&text, &prefix) {
            Ok(Device { path: string_of(&text) })
        } else {
            Err(NotADevicePath)
        }
    }
}

} // verus!
