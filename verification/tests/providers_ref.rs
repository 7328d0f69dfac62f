use flecs_core::instance::{ProviderId, ProviderReference, StoredProviderReference};
use flecs_core::manifest::FeatureKey;
use flecs_core::num::IntErrorKind;

#[test]
fn provider_reference_text() {
    assert_eq!(ProviderReference::Default.to_string(), "Default");
    assert_eq!(ProviderReference::Provider(ProviderId(42)).to_string(), "42");
}

#[test]
fn provider_reference_from_str() {
    assert_eq!(ProviderReference::from_str("Default"), Ok(ProviderReference::Default));
    assert_eq!(
        ProviderReference::from_str("1234"),
        Ok(ProviderReference::Provider(ProviderId(1234)))
    );
    assert_eq!(
        ProviderReference::from_str("default").unwrap_err().kind,
        IntErrorKind::InvalidDigit
    );
    assert_eq!(ProviderReference::from_str("").unwrap_err().kind, IntErrorKind::Empty);
}

#[test]
fn provider_reference_text_reads_back() {
    for reference in [
        ProviderReference::Default,
        ProviderReference::Provider(ProviderId(0)),
        ProviderReference::Provider(ProviderId(u64::MAX)),
    ] {
        assert_eq!(ProviderReference::from_str(&reference.to_string()), Ok(reference));
    }
}

#[test]
fn provider_reference_is_default() {
    assert!(ProviderReference::default().is_default());
    assert!(!ProviderReference::Provider(ProviderId(1)).is_default());
    let stored = StoredProviderReference {
        provider_reference: ProviderReference::Default,
        provided_feature: FeatureKey::auth(),
    };
    assert!(stored.is_default());
    let stored = StoredProviderReference {
        provider_reference: ProviderReference::Provider(ProviderId(7)),
        provided_feature: FeatureKey::auth(),
    };
    assert!(!stored.is_default());
}
