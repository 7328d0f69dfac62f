//! App instances: their ids, states and configuration, and which provider serves each of
//! their dependencies.
pub mod config;
pub mod id;
pub mod status;
pub mod usb;
pub mod docker;

use crate::app::AppKey;
use crate::manifest::FeatureKey;
use crate::num::{decimal_chars, decimal_spec, parse_u64, parse_u64_spec, IntErrorKind, ParseIntError};
use crate::text::{chars_eq_str, chars_of, string_from, string_of};
use vstd::prelude::*;

verus! {

/// The number of a provider, written in decimal.
#[derive(Debug, Clone, Copy, PartialEq, Eq, Hash, Structural)]
pub struct ProviderId(pub u64);

/// Who provides a feature to an instance: the default provider of the feature or a
/// particular one.
#[derive(Debug, Clone, Copy, PartialEq, Eq, Structural)]
pub enum ProviderReference {
    Default,
    Provider(ProviderId),
}

/// The text of a provider reference.
pub open spec fn provider_reference_text(r: ProviderReference) -> Seq<char> {
    match r {
        ProviderReference::Default => seq!['D', 'e', 'f', 'a', 'u', 'l', 't'],
        ProviderReference::Provider(id) => decimal_spec(id.0 as nat),
    }
}

/// What reading a provider reference from `s` gives: `Default`, or a decimal provider
/// number.
pub open spec fn parse_provider_reference_spec(s: Seq<char>) -> Result<ProviderReference, IntErrorKind> {
    if s == seq!['D', 'e', 'f', 'a', 'u', 'l', 't'] {
        Ok(ProviderReference::Default)
    } else {
        match parse_u64_spec(s) {
            Ok(v) => Ok(ProviderReference::Provider(ProviderId(v as u64))),
            Err(k) => Err(k),
        }
    }
}

impl Default for ProviderReference {
    fn default() -> (res: Self)
        ensures
            res == ProviderReference::Default,
    {
        ProviderReference::Default
    }
}

impl ProviderReference {
    /// Whether the reference is to the default provider.
    pub fn is_default(&self) -> (res: bool)
        ensures
            res == (*self is Default),
    {
        matches!(self, ProviderReference::Default)
    }

    /// The reference as text: `Default`, or the provider number.
    pub fn to_string(&self) -> (res: String)
        ensures
            res@ == provider_reference_text(*self),
    {
        match self {
            ProviderReference::Default => {
                proof {
                    reveal_strlit("Default");
                }
                string_from("Default")
            },
            ProviderReference::Provider(id) => string_of(&decimal_chars(id.0)),
        }
    }

    /// Reads a reference: `Default`, or a provider number.
    pub fn from_str(s: &str) -> (res: Result<Self, ParseIntError>)
        ensures
            match res {
                Ok(r) => parse_provider_reference_spec(s@) == Ok::<ProviderReference, IntErrorKind>(r),
                Err(e) => parse_provider_reference_spec(s@) == Err::<ProviderReference, IntErrorKind>(
                    e.kind,
                ),
            },
    {
        let chars = chars_of(s);
        proof {
            reveal_strlit("Default");
        }
        assert("Default"@ =~= seq!['D', 'e', 'f', 'a', 'u', 'l', 't']);
        if chars_eq_str(&chars, "Default") {
            assert(s@ =~= seq!['D', 'e', 'f', 'a', 'u', 'l', 't']);
            return Ok(ProviderReference::Default);
        }
        match parse_u64(&chars) {
            Ok(v) => {
                proof {
                    crate::num::lemma_parse_unsigned_bound(s@, 10, 0xffff_ffff_ffff_ffff);
                }
                Ok(ProviderReference::Provider(ProviderId(v)))
            },
            Err(e) => Err(e),
        }
    }
}

/// The provider chosen for a dependency of an instance, and the feature it provides.
#[derive(Debug, Clone, PartialEq, Eq)]
pub struct StoredProviderReference {
    pub provider_reference: ProviderReference,
    pub provided_feature: FeatureKey,
}

impl StoredProviderReference {
    /// Whether the default provider of the feature is chosen.
    pub fn is_default(&self) -> (res: bool)
        ensures
            res == (self.provider_reference is Default),
    {
        self.provider_reference.is_default()
    }
}

/// What an instance wrote to its output streams.
#[derive(Debug, Clone, PartialEq, Eq)]
pub struct Logs {
    pub stdout: String,
    pub stderr: String,
}

/// Why an instance could not be created.
#[derive(Debug, Clone, PartialEq, Eq)]
pub enum CreateInstanceError {
    /// Another failure, described.
    Other(String),
    /// Reading or writing files failed, described.
    IO(String),
    /// The manifest of the app is unknown.
    NoManifest(AppKey),
    /// No deployment can run the app.
    NoFittingDeployment,
    /// The app is not installed.
    AppNotInstalled(AppKey),
}

/// The text of a reference reads back as the same reference.
pub proof fn law_provider_reference_roundtrip(r: ProviderReference)
    ensures
        parse_provider_reference_spec(provider_reference_text(r)) == Ok::<
            ProviderReference,
            IntErrorKind,
        >(r),
{
    match r {
        ProviderReference::Default => {},
        ProviderReference::Provider(id) => {
            crate::num::lemma_decimal_roundtrip(id.0 as nat, 0xffff_ffff_ffff_ffff);
            crate::num::lemma_decimal_first_is_digit(id.0 as nat);
            assert(decimal_spec(id.0 as nat) != seq!['D', 'e', 'f', 'a', 'u', 'l', 't']) by {
                assert(decimal_spec(id.0 as nat)[0] != 'D');
            }
        },
    }
}

} // verus!
