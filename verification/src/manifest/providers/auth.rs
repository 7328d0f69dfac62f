//! Authentication providers as a manifest describes them: an object with a kind, an issuer
//! URL, a name, a port and, for OAuth, three more URLs.
use crate::json::{object_get, object_index, JsonNumber, JsonValue};
use crate::text::chars_eq_str;
use vstd::prelude::*;

verus! {

/// A property of the description of an authentication provider.
#[derive(Debug, Clone, Copy, PartialEq, Eq, Structural)]
pub enum AuthProperty {
    IssuerUrl,
    Name,
    Kind,
    Port,
    JwkUrl,
    AuthorizeUrl,
    TokenUrl,
}

/// The name of a property in the description.
pub open spec fn property_key(p: AuthProperty) -> Seq<char> {
    match p {
        AuthProperty::IssuerUrl => seq!['i', 's', 's', 'u', 'e', 'r', '_', 'u', 'r', 'l'],
        AuthProperty::Name => seq!['n', 'a', 'm', 'e'],
        AuthProperty::Kind => seq!['k', 'i', 'n', 'd'],
        AuthProperty::Port => seq!['p', 'o', 'r', 't'],
        AuthProperty::JwkUrl => seq!['j', 'w', 'k', '_', 'u', 'r', 'l'],
        AuthProperty::AuthorizeUrl => seq![
            'a', 'u', 't', 'h', 'o', 'r', 'i', 'z', 'e', '_', 'u', 'r', 'l',
        ],
        AuthProperty::TokenUrl => seq!['t', 'o', 'k', 'e', 'n', '_', 'u', 'r', 'l'],
    }
}

impl AuthProperty {
    /// The name of the property in the description.
    pub fn as_str(&self) -> (res: &'static str)
        ensures
            res@ == property_key(*self),
    {
        match self {
            AuthProperty::IssuerUrl => {
                proof {
                    reveal_strlit("issuer_url");
                }
                "issuer_url"
            },
            AuthProperty::Name => {
                proof {
                    reveal_strlit("name");
                }
                "name"
            },
            AuthProperty::Kind => {
                proof {
                    reveal_strlit("kind");
                }
                "kind"
            },
            AuthProperty::Port => {
                proof {
                    reveal_strlit("port");
                }
                "port"
            },
            AuthProperty::JwkUrl => {
                proof {
                    reveal_strlit("jwk_url");
                }
                "jwk_url"
            },
            AuthProperty::AuthorizeUrl => {
                proof {
                    reveal_strlit("authorize_url");
                }
                "authorize_url"
            },
            AuthProperty::TokenUrl => {
                proof {
                    reveal_strlit("token_url");
                }
                "token_url"
            },
        }
    }
}

/// Why a description is no authentication provider.
#[derive(Debug, PartialEq, Eq)]
pub enum AuthProviderFromValueError {
    /// The property is missing.
    ValueMissing(AuthProperty),
    /// The property has the wrong type or an unusable value, given with it.
    ValueMalformed { name: AuthProperty, value: JsonValue },
    /// The description is no object; it is given with the error.
    NotObject(JsonValue),
}

/// What kind of authentication a provider offers.
#[derive(Debug, Clone, PartialEq, Eq)]
pub enum AuthProviderConfig {
    Oidc,
    Oauth { jwk_url: String, authorize_url: String, token_url: String },
}

/// An authentication provider, with the description it was read from.
#[derive(Debug, PartialEq, Eq)]
pub struct AuthProvider {
    pub config: AuthProviderConfig,
    pub issuer_url: String,
    pub name: String,
    pub port: u16,
    pub properties: JsonValue,
}

/// The text property `p` of a description, or why there is none.
pub open spec fn text_property(entries: Seq<(String, JsonValue)>, p: AuthProperty) -> Result<
    String,
    AuthProviderFromValueError,
> {
    match object_get(entries, property_key(p)) {
        None => Err(AuthProviderFromValueError::ValueMissing(p)),
        Some(v) => match v {
            JsonValue::String(s) => Ok(s),
            _ => Err(AuthProviderFromValueError::ValueMalformed { name: p, value: v }),
        },
    }
}

/// The port of a description: a non-negative integer up to 65535.
pub open spec fn port_property(entries: Seq<(String, JsonValue)>) -> Result<
    u16,
    AuthProviderFromValueError,
> {
    match object_get(entries, property_key(AuthProperty::Port)) {
        None => Err(AuthProviderFromValueError::ValueMissing(AuthProperty::Port)),
        Some(v) => match v {
            JsonValue::Number(JsonNumber::PosInt(n)) => if n <= 65535 {
                Ok(n as u16)
            } else {
                Err(AuthProviderFromValueError::ValueMalformed { name: AuthProperty::Port, value: v })
            },
            _ => Err(AuthProviderFromValueError::ValueMalformed { name: AuthProperty::Port, value: v }),
        },
    }
}

/// The kind of a description: `oidc`, or `oauth` with its authorize, JWK and token URLs,
/// read in that order.
pub open spec fn config_property(entries: Seq<(String, JsonValue)>) -> Result<
    AuthProviderConfig,
    AuthProviderFromValueError,
> {
    match object_get(entries, property_key(AuthProperty::Kind)) {
        None => Err(AuthProviderFromValueError::ValueMissing(AuthProperty::Kind)),
        Some(v) => match v {
            JsonValue::String(k) => if k@ == seq!['o', 'i', 'd', 'c'] {
                Ok(AuthProviderConfig::Oidc)
            } else if k@ == seq!['o', 'a', 'u', 't', 'h'] {
                match text_property(entries, AuthProperty::AuthorizeUrl) {
                    Err(e) => Err(e),
                    Ok(authorize_url) => match text_property(entries, AuthProperty::JwkUrl) {
                        Err(e) => Err(e),
                        Ok(jwk_url) => match text_property(entries, AuthProperty::TokenUrl) {
                            Err(e) => Err(e),
                            Ok(token_url) => Ok(
                                AuthProviderConfig::Oauth { jwk_url, authorize_url, token_url },
                            ),
                        },
                    },
                }
            } else {
                Err(AuthProviderFromValueError::ValueMalformed { name: AuthProperty::Kind, value: v })
            },
            _ => Err(AuthProviderFromValueError::ValueMalformed { name: AuthProperty::Kind, value: v }),
        },
    }
}

/// What reading a description gives: the kind first, then issuer URL, name and port, the
/// first failure being the error.
pub open spec fn auth_provider_spec(value: JsonValue) -> Result<
    AuthProvider,
    AuthProviderFromValueError,
> {
    match value {
        JsonValue::Object(entries) => match config_property(entries@) {
            Err(e) => Err(e),
            Ok(config) => match text_property(entries@, AuthProperty::IssuerUrl) {
                Err(e) => Err(e),
                Ok(issuer_url) => match text_property(entries@, AuthProperty::Name) {
                    Err(e) => Err(e),
                    Ok(name) => match port_property(entries@) {
                        Err(e) => Err(e),
                        Ok(port) => Ok(AuthProvider { config, issuer_url, name, port, properties: value }),
                    },
                },
            },
        },
        _ => Err(AuthProviderFromValueError::NotObject(value)),
    }
}

/// Where a property is found, and whether it is a text.
enum Lookup {
    Missing,
    Text(String),
    Other(usize),
}

fn look_up_text(entries: &Vec<(String, JsonValue)>, p: AuthProperty) -> (res: Lookup)
    ensures
        match res {
            Lookup::Missing => text_property(entries@, p) == Err::<String, AuthProviderFromValueError>(
                AuthProviderFromValueError::ValueMissing(p),
            ),
            Lookup::Text(s) => text_property(entries@, p) == Ok::<String, AuthProviderFromValueError>(s),
            Lookup::Other(i) => i < entries@.len() && text_property(entries@, p) == Err::<
                String,
                AuthProviderFromValueError,
            >(AuthProviderFromValueError::ValueMalformed { name: p, value: entries@[i as int].1 }),
        },
{
    match object_index(entries, p.as_str()) {
        None => Lookup::Missing,
        Some(i) => match &entries[i].1 {
            JsonValue::String(s) => Lookup::Text(s.clone()),
            _ => Lookup::Other(i),
        },
    }
}

/// The error for a property that is missing or not usable, the offending value taken from
/// the entries.
fn property_error(entries: Vec<(String, JsonValue)>, p: AuthProperty, at: Option<usize>) -> (res:
    AuthProviderFromValueError)
    requires
        at matches Some(i) ==> i < entries@.len(),
    ensures
        match at {
            None => res == AuthProviderFromValueError::ValueMissing(p),
            Some(i) => res == AuthProviderFromValueError::ValueMalformed {
                name: p,
                value: entries@[i as int].1,
            },
        },
{
    match at {
        None => AuthProviderFromValueError::ValueMissing(p),
        Some(i) => {
            let mut entries = entries;
            let (_, value) = entries.remove(i);
            AuthProviderFromValueError::ValueMalformed { name: p, value }
        },
    }
}

impl AuthProvider {
    /// Reads an authentication provider from its description, which it keeps.
    pub fn try_from(value: JsonValue) -> (res: Result<Self, AuthProviderFromValueError>)
        ensures
            res == auth_provider_spec(value),
    {
        let entries = match value {
            JsonValue::Object(entries) => entries,
            other => return Err(AuthProviderFromValueError::NotObject(other)),
        };
        let ghost e = entries@;
        let config = match object_index(&entries, AuthProperty::Kind.as_str()) {
            None => return Err(AuthProviderFromValueError::ValueMissing(AuthProperty::Kind)),
            Some(i) => {
                let kind = match &entries[i].1 {
                    JsonValue::String(k) => Some(k.clone()),
                    _ => None,
                };
                match kind {
                    None => return Err(property_error(entries, AuthProperty::Kind, Some(i))),
                    Some(k) => {
                        let kind_chars = crate::text::chars_of_string(&k);
                        proof {
                            reveal_strlit("oidc");
                            reveal_strlit("oauth");
                        }
                        assert("oidc"@ =~= seq!['o', 'i', 'd', 'c']);
                        assert("oauth"@ =~= seq!['o', 'a', 'u', 't', 'h']);
                        if chars_eq_str(&kind_chars, "oidc") {
                            AuthProviderConfig::Oidc
                        } else if chars_eq_str(&kind_chars, "oauth") {
                            let authorize_url = match look_up_text(&entries, AuthProperty::AuthorizeUrl) {
                                Lookup::Text(s) => s,
                                Lookup::Missing => return Err(property_error(entries, AuthProperty::AuthorizeUrl, None)),
                                Lookup::Other(j) => return Err(property_error(entries, AuthProperty::AuthorizeUrl, Some(j))),
                            };
                            let jwk_url = match look_up_text(&entries, AuthProperty::JwkUrl) {
                                Lookup::Text(s) => s,
                                Lookup::Missing => return Err(property_error(entries, AuthProperty::JwkUrl, None)),
                                Lookup::Other(j) => return Err(property_error(entries, AuthProperty::JwkUrl, Some(j))),
                            };
                            let token_url = match look_up_text(&entries, AuthProperty::TokenUrl) {
                                Lookup::Text(s) => s,
                                Lookup::Missing => return Err(property_error(entries, AuthProperty::TokenUrl, None)),
                                Lookup::Other(j) => return Err(property_error(entries, AuthProperty::TokenUrl, Some(j))),
                            };
                            AuthProviderConfig::Oauth { jwk_url, authorize_url, token_url }
                        } else {
                            return Err(property_error(entries, AuthProperty::Kind, Some(i)));
                        }
                    },
                }
            },
        };
        assert(config_property(e) == Ok::<AuthProviderConfig, AuthProviderFromValueError>(config));
        let issuer_url = match look_up_text(&entries, AuthProperty::IssuerUrl) {
            Lookup::Text(s) => s,
            Lookup::Missing => return Err(property_error(entries, AuthProperty::IssuerUrl, None)),
            Lookup::Other(j) => return Err(property_error(entries, AuthProperty::IssuerUrl, Some(j))),
        };
        let name = match look_up_text(&entries, AuthProperty::Name) {
            Lookup::Text(s) => s,
            Lookup::Missing => return Err(property_error(entries, AuthProperty::Name, None)),
            Lookup::Other(j) => return Err(property_error(entries, AuthProperty::Name, Some(j))),
        };
        let port = match object_index(&entries, AuthProperty::Port.as_str()) {
            None => return Err(AuthProviderFromValueError::ValueMissing(AuthProperty::Port)),
            Some(i) => {
                let n = match &entries[i].1 {
                    JsonValue::Number(JsonNumber::PosInt(n)) => Some(*n),
                    _ => None,
                };
                match n {
                    Some(n) => {
                        if n <= 65535 {
                            n as u16
                        } else {
                            return Err(property_error(entries, AuthProperty::Port, Some(i)));
                        }
                    },
                    None => return Err(property_error(entries, AuthProperty::Port, Some(i))),
                }
            },
        };
        Ok(AuthProvider { config, issuer_url, name, port, properties: JsonValue::Object(entries) })
    }
}

} // verus!
