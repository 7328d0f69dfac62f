//! Instance ids: 32-bit numbers written as eight hexadecimal digits.
use crate::num::{
    hex_fixed_chars, hex_fixed_spec, lemma_u32_hex_roundtrip, parse_u32_hex, parse_u32_hex_spec,
    IntErrorKind, ParseIntError,
};
use crate::text::{chars_of, concat_chars, string_of};
use vstd::prelude::*;

verus! {

/// The id of an app instance.
#[derive(Debug, Clone, Copy, PartialEq, Eq, Hash, Structural)]
pub struct InstanceId {
    pub value: u32,
}

/// The text of an instance id: eight lower case hexadecimal digits.
pub open spec fn instance_id_text(value: u32) -> Seq<char> {
    hex_fixed_spec(value as nat, 8)
}

/// The prefix of the names of the containers of instances.
pub open spec fn docker_prefix() -> Seq<char> {
    seq!['f', 'l', 'e', 'c', 's', '-']
}

/// A number drawn by `rand::random::<u32>()`; nothing is claimed of it, since it depends on
/// chance.
#[verifier::external_body]
fn random_u32() -> u32 {
    rand::random::<u32>()
}

impl InstanceId {
    /// The id with the given number.
    pub fn new(value: u32) -> (res: Self)
        ensures
            res.value == value,
    {
        Self { value }
    }

    /// An id with a number drawn at random.
    pub fn new_random() -> (res: Self) {
        Self::new(random_u32())
    }

    /// The id with the given number.
    pub fn from(value: u32) -> (res: Self)
        ensures
            res.value == value,
    {
        Self::new(value)
    }

    /// The id as text, eight lower case hexadecimal digits.
    pub fn to_string(&self) -> (res: String)
        ensures
            res@ == instance_id_text(self.value),
    {
        string_of(&hex_fixed_chars(self.value as u64, 8))
    }

    /// The name of the container of the instance: `flecs-` and the id.
    pub fn to_docker_id(self) -> (res: String)
        ensures
            res@ == docker_prefix() + instance_id_text(self.value),
    {
        let prefix = chars_of("flecs-");
        proof {
            reveal_strlit("flecs-");
        }
        assert(prefix@ =~= docker_prefix());
        string_of(&concat_chars(&prefix, &hex_fixed_chars(self.value as u64, 8)))
    }

    /// Reads an id written in hexadecimal, as `u32::from_str_radix(s, 16)` reads it.
    pub fn from_str(s: &str) -> (res: Result<Self, ParseIntError>)
        ensures
            match res {
                Ok(id) => parse_u32_hex_spec(s@) == Ok::<nat, IntErrorKind>(id.value as nat),
                Err(e) => parse_u32_hex_spec(s@) == Err::<nat, IntErrorKind>(e.kind),
            },
    {
        match parse_u32_hex(&chars_of(s)) {
            Ok(v) => Ok(Self::new(v)),
            Err(e) => Err(e),
        }
    }
}

/// The text of an id reads back as the same id.
pub proof fn law_instance_id_text_roundtrip(id: InstanceId)
    ensures
        parse_u32_hex_spec(instance_id_text(id.value)) == Ok::<nat, IntErrorKind>(id.value as nat),
{
    lemma_u32_hex_roundtrip(id.value);
}

} // verus!
