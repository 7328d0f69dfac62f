//! The features an app provides to other apps.
pub mod auth;

use crate::json::JsonValue;
use crate::manifest::FeatureKey;
use crate::manifest::providers::auth::{auth_provider_spec, AuthProvider, AuthProviderFromValueError};
use crate::text::chars_eq_str;
use vstd::prelude::*;

verus! {

/// Why the provided features of a manifest are not usable.
#[derive(Debug, PartialEq, Eq)]
pub enum ProviderFromValueError {
    /// The description of the authentication provider is not usable.
    Auth(AuthProviderFromValueError),
}

/// The features with a meaning to the daemon that an app provides.
#[derive(Debug, PartialEq, Eq)]
pub struct Providers {
    pub auth: Option<AuthProvider>,
}

impl Default for Providers {
    fn default() -> (res: Self)
        ensures
            res.auth is None,
    {
        Providers { auth: None }
    }
}

/// The description of the first provided feature named `key`.
pub open spec fn provided(provides: Seq<(FeatureKey, JsonValue)>, key: Seq<char>) -> Option<JsonValue>
    decreases provides.len(),
{
    if provides.len() == 0 {
        None
    } else if provides[0].0@ == key {
        Some(provides[0].1)
    } else {
        provided(provides.drop_first(), key)
    }
}

/// What reading the provided features gives: the authentication provider where `auth` is
/// provided, or why its description is not usable.
pub open spec fn providers_spec(provides: Seq<(FeatureKey, JsonValue)>) -> Result<
    Providers,
    ProviderFromValueError,
> {
    match provided(provides, seq!['a', 'u', 't', 'h']) {
        None => Ok(Providers { auth: None }),
        Some(v) => match auth_provider_spec(v) {
            Ok(a) => Ok(Providers { auth: Some(a) }),
            Err(e) => Err(ProviderFromValueError::Auth(e)),
        },
    }
}

impl Providers {
    /// Reads the features an app provides, given as feature and description.
    pub fn try_from(value: Vec<(FeatureKey, JsonValue)>) -> (res: Result<Self, ProviderFromValueError>)
        ensures
            res == providers_spec(value@),
    {
        let mut provides = value;
        let ghost p = provides@;
        let mut i: usize = 0;
        assert(p.skip(0) =~= p);
        proof {
            reveal_strlit("auth");
        }
        assert("auth"@ =~= seq!['a', 'u', 't', 'h']);
        while i < provides.len()
            invariant
                i <= provides.len(),
                provides@ == p,
                p == value@,
                "auth"@ == seq!['a', 'u', 't', 'h'],
                provided(p, seq!['a', 'u', 't', 'h']) == provided(p.skip(i as int), seq!['a', 'u', 't', 'h']),
            decreases provides.len() - i,
        {
            assert(p.skip(i as int)[0] == p[i as int]);
            assert(p.skip(i as int).drop_first() =~= p.skip(i + 1));
            let key = crate::text::chars_of(provides[i].0.as_str());
            if chars_eq_str(&key, "auth") {
                assert(p[i as int].0@ == seq!['a', 'u', 't', 'h']);
                assert(provided(p, seq!['a', 'u', 't', 'h']) == Some(p[i as int].1));
                let (_, description) = provides.remove(i);
                assert(description == p[i as int].1);
                let res = match AuthProvider::try_from(description) {
                    Ok(a) => Ok(Providers { auth: Some(a) }),
                    Err(e) => Err(ProviderFromValueError::Auth(e)),
                };
                return res;
            }
            i = i + 1;
        }
        assert(p.skip(i as int) =~= Seq::<(FeatureKey, JsonValue)>::empty());
        Ok(Providers { auth: None })
    }
}

} // verus!
