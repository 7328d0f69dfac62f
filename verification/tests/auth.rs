use flecs_core::json::{JsonNumber, JsonValue};
use flecs_core::manifest::providers::auth::{
    AuthProperty, AuthProvider, AuthProviderConfig, AuthProviderFromValueError,
};
use flecs_core::manifest::providers::{ProviderFromValueError, Providers};
use flecs_core::manifest::FeatureKey;

fn text(s: &str) -> JsonValue {
    JsonValue::String(s.to_string())
}

fn entry(key: &str, value: JsonValue) -> (String, JsonValue) {
    (key.to_string(), value)
}

fn oidc() -> JsonValue {
    JsonValue::Object(vec![
        entry("kind", text("oidc")),
        entry("issuer_url", text("http://issuer")),
        entry("name", text("provider")),
        entry("port", JsonValue::Number(JsonNumber::PosInt(8080))),
    ])
}

fn oidc_with(key: &str, value: Option<JsonValue>) -> JsonValue {
    let mut entries = match oidc() {
        JsonValue::Object(entries) => entries,
        _ => unreachable!(),
    };
    entries.retain(|(k, _)| k != key);
    if let Some(value) = value {
        entries.push(entry(key, value));
    }
    JsonValue::Object(entries)
}

#[test]
fn auth_provider_oidc() {
    let provider = AuthProvider::try_from(oidc()).unwrap();
    assert_eq!(provider.config, AuthProviderConfig::Oidc);
    assert_eq!(provider.issuer_url, "http://issuer");
    assert_eq!(provider.name, "provider");
    assert_eq!(provider.port, 8080);
    assert_eq!(provider.properties, oidc());
}

#[test]
fn auth_provider_oauth() {
    let value = JsonValue::Object(vec![
        entry("kind", text("oauth")),
        entry("issuer_url", text("http://issuer")),
        entry("name", text("provider")),
        entry("port", JsonValue::Number(JsonNumber::PosInt(65535))),
        entry("jwk_url", text("http://jwk")),
        entry("authorize_url", text("http://authorize")),
        entry("token_url", text("http://token")),
    ]);
    let provider = AuthProvider::try_from(value).unwrap();
    assert_eq!(
        provider.config,
        AuthProviderConfig::Oauth {
            jwk_url: "http://jwk".to_string(),
            authorize_url: "http://authorize".to_string(),
            token_url: "http://token".to_string(),
        }
    );
    assert_eq!(provider.port, 65535);
}

#[test]
fn auth_provider_oauth_needs_its_urls() {
    let value = JsonValue::Object(vec![
        entry("kind", text("oauth")),
        entry("issuer_url", text("http://issuer")),
        entry("name", text("provider")),
        entry("port", JsonValue::Number(JsonNumber::PosInt(1))),
        entry("authorize_url", text("http://authorize")),
        entry("token_url", JsonValue::Bool(false)),
    ]);
    assert_eq!(
        AuthProvider::try_from(value),
        Err(AuthProviderFromValueError::ValueMissing(AuthProperty::JwkUrl))
    );
}

#[test]
fn auth_provider_not_object() {
    assert_eq!(
        AuthProvider::try_from(text("oidc")),
        Err(AuthProviderFromValueError::NotObject(text("oidc")))
    );
}

#[test]
fn auth_provider_kind_missing_or_malformed() {
    assert_eq!(
        AuthProvider::try_from(oidc_with("kind", None)),
        Err(AuthProviderFromValueError::ValueMissing(AuthProperty::Kind))
    );
    assert_eq!(
        AuthProvider::try_from(oidc_with("kind", Some(text("saml")))),
        Err(AuthProviderFromValueError::ValueMalformed {
            name: AuthProperty::Kind,
            value: text("saml"),
        })
    );
}

#[test]
fn auth_provider_issuer_and_name() {
    assert_eq!(
        AuthProvider::try_from(oidc_with("issuer_url", None)),
        Err(AuthProviderFromValueError::ValueMissing(AuthProperty::IssuerUrl))
    );
    assert_eq!(
        AuthProvider::try_from(oidc_with("name", Some(JsonValue::Null))),
        Err(AuthProviderFromValueError::ValueMalformed {
            name: AuthProperty::Name,
            value: JsonValue::Null,
        })
    );
}

#[test]
fn auth_provider_port() {
    assert_eq!(
        AuthProvider::try_from(oidc_with("port", None)),
        Err(AuthProviderFromValueError::ValueMissing(AuthProperty::Port))
    );
    let too_big = JsonValue::Number(JsonNumber::PosInt(65536));
    assert_eq!(
        AuthProvider::try_from(oidc_with("port", Some(JsonValue::Number(JsonNumber::PosInt(65536))))),
        Err(AuthProviderFromValueError::ValueMalformed {
            name: AuthProperty::Port,
            value: too_big,
        })
    );
    let negative = JsonValue::Number(JsonNumber::NegInt(-1));
    assert_eq!(
        AuthProvider::try_from(oidc_with("port", Some(JsonValue::Number(JsonNumber::NegInt(-1))))),
        Err(AuthProviderFromValueError::ValueMalformed {
            name: AuthProperty::Port,
            value: negative,
        })
    );
}

#[test]
fn auth_property_names() {
    assert_eq!(AuthProperty::IssuerUrl.as_str(), "issuer_url");
    assert_eq!(AuthProperty::AuthorizeUrl.as_str(), "authorize_url");
    assert_eq!(AuthProperty::TokenUrl.as_str(), "token_url");
}

#[test]
fn providers_without_auth() {
    let provides = vec![(FeatureKey::from_str("mqtt").unwrap(), JsonValue::Null)];
    assert_eq!(Providers::try_from(provides), Ok(Providers { auth: None }));
}

#[test]
fn providers_with_auth() {
    let provides = vec![
        (FeatureKey::from_str("mqtt").unwrap(), JsonValue::Null),
        (FeatureKey::auth(), oidc()),
    ];
    let providers = Providers::try_from(provides).unwrap();
    assert_eq!(providers.auth.unwrap().name, "provider");
}

#[test]
fn providers_with_broken_auth() {
    let provides = vec![(FeatureKey::auth(), JsonValue::Null)];
    assert_eq!(
        Providers::try_from(provides),
        Err(ProviderFromValueError::Auth(AuthProviderFromValueError::NotObject(
            JsonValue::Null
        )))
    );
}
