use flecs_core::json::JsonValue;
use flecs_core::manifest::{Dependency, DependencyKey, FeatureKey, ParseDependencyError};

#[test]
fn feature_key_from_str_accepts_word_characters_dots_and_dashes() {
    assert_eq!(FeatureKey::from_str("auth").unwrap().as_str(), "auth");
    assert_eq!(FeatureKey::from_str("my-feature.v2").unwrap().as_str(), "my-feature.v2");
    assert_eq!(FeatureKey::from_str("größe_1").unwrap().as_str(), "größe_1");
}

#[test]
fn feature_key_from_str_rejects_other_text() {
    assert!(FeatureKey::from_str("").is_err());
    assert!(FeatureKey::from_str("two words").is_err());
    assert!(FeatureKey::from_str("a|b").is_err());
    assert!(FeatureKey::from_str("auth\n").is_err());
}

#[test]
fn feature_key_auth() {
    assert_eq!(FeatureKey::auth().to_string(), "auth");
    assert_eq!(FeatureKey::auth(), FeatureKey::from_str("auth").unwrap());
}

#[test]
fn dependency_key_new_sorts_and_drops_white_space() {
    assert_eq!(DependencyKey::new(" mqtt | auth ").to_string(), "auth|mqtt");
    assert_eq!(DependencyKey::new("b|a|c").as_str(), "a|b|c");
    assert_eq!(DependencyKey::new("single").as_str(), "single");
    assert_eq!(DependencyKey::new("ab|a").as_str(), "a|ab");
    assert_eq!(DependencyKey::new("B|a").as_str(), "B|a");
    assert_eq!(DependencyKey::new("x\t|\u{3000}y").as_str(), "x|y");
}

#[test]
fn dependency_key_new_is_one_normal_form() {
    assert_eq!(DependencyKey::new("a | b"), DependencyKey::new("b|a"));
}

#[test]
fn dependency_key_features() {
    let features: Vec<String> = DependencyKey::new("mqtt|auth")
        .features()
        .iter()
        .map(|f| f.to_string())
        .collect();
    assert_eq!(features, vec!["auth".to_string(), "mqtt".to_string()]);
    assert_eq!(DependencyKey::new("one").features().len(), 1);
    assert_eq!(DependencyKey::new("").features().len(), 1);
}

fn text(s: &str) -> JsonValue {
    JsonValue::String(s.to_string())
}

#[test]
fn dependency_single_feature_takes_any_value() {
    let key = DependencyKey::new("auth");
    match Dependency::try_from(&key, text("config")).unwrap() {
        Dependency::One(feature, value) => {
            assert_eq!(feature.as_str(), "auth");
            assert_eq!(value, text("config"));
        }
        other => panic!("unexpected dependency {other:?}"),
    }
}

#[test]
fn dependency_several_features_need_an_object() {
    let key = DependencyKey::new("a|b");
    assert_eq!(
        Dependency::try_from(&key, text("config")),
        Err(ParseDependencyError::NoProperties)
    );
}

#[test]
fn dependency_several_features_need_one_entry_each() {
    let key = DependencyKey::new("a|b");
    let value = JsonValue::Object(vec![("a".to_string(), JsonValue::Null)]);
    assert_eq!(
        Dependency::try_from(&key, value),
        Err(ParseDependencyError::FeaturesNotMatchingProperties)
    );
}

#[test]
fn dependency_missing_feature_is_named() {
    let key = DependencyKey::new("a|b");
    let value = JsonValue::Object(vec![
        ("a".to_string(), JsonValue::Null),
        ("c".to_string(), JsonValue::Null),
    ]);
    assert_eq!(
        Dependency::try_from(&key, value),
        Err(ParseDependencyError::NoMatchingProperty("b".to_string()))
    );
}

#[test]
fn dependency_one_of_takes_each_entry() {
    let key = DependencyKey::new("b|a");
    let value = JsonValue::Object(vec![
        ("b".to_string(), JsonValue::Bool(true)),
        ("a".to_string(), text("x")),
    ]);
    match Dependency::try_from(&key, value).unwrap() {
        Dependency::OneOf(list) => {
            assert_eq!(list.len(), 2);
            assert_eq!(list[0].0.as_str(), "a");
            assert_eq!(list[0].1, text("x"));
            assert_eq!(list[1].0.as_str(), "b");
            assert_eq!(list[1].1, JsonValue::Bool(true));
        }
        other => panic!("unexpected dependency {other:?}"),
    }
}

#[test]
fn dependency_repeated_feature_is_taken_once() {
    let key = DependencyKey::new("a|a");
    let value = JsonValue::Object(vec![
        ("a".to_string(), text("x")),
        ("z".to_string(), text("y")),
    ]);
    match Dependency::try_from(&key, value).unwrap() {
        Dependency::OneOf(list) => {
            assert_eq!(list.len(), 1);
            assert_eq!(list[0].0.as_str(), "a");
            assert_eq!(list[0].1, text("x"));
        }
        other => panic!("unexpected dependency {other:?}"),
    }
}

#[test]
fn dependency_config_json() {
    let one = Dependency::One(FeatureKey::auth(), text("x"));
    assert_eq!(
        one.config_json(),
        JsonValue::Object(vec![("auth".to_string(), text("x"))])
    );
    let key = DependencyKey::new("b|a");
    let value = JsonValue::Object(vec![
        ("b".to_string(), JsonValue::Bool(true)),
        ("a".to_string(), text("x")),
    ]);
    assert_eq!(
        Dependency::try_from(&key, value).unwrap().config_json(),
        JsonValue::Object(vec![
            ("a".to_string(), text("x")),
            ("b".to_string(), JsonValue::Bool(true)),
        ])
    );
}

#[test]
fn parse_depends_reads_every_key() {
    let depends = vec![
        (
            "b | a".to_string(),
            JsonValue::Object(vec![
                ("a".to_string(), JsonValue::Null),
                ("b".to_string(), JsonValue::Null),
            ]),
        ),
        ("auth".to_string(), JsonValue::Null),
    ];
    let parsed = flecs_core::manifest::parse_depends(depends).unwrap();
    assert_eq!(parsed.len(), 2);
    assert_eq!(parsed[0].0.as_str(), "a|b");
    assert_eq!(parsed[1].0.as_str(), "auth");
    assert!(matches!(parsed[1].1, Dependency::One(_, JsonValue::Null)));
}

#[test]
fn parse_depends_later_entry_of_a_key_wins() {
    let depends = vec![
        ("auth".to_string(), JsonValue::Null),
        ("a|b".to_string(), JsonValue::Object(vec![
            ("a".to_string(), JsonValue::Null),
            ("b".to_string(), JsonValue::Null),
        ])),
        (" auth ".to_string(), JsonValue::Bool(true)),
        ("b | a".to_string(), JsonValue::Object(vec![
            ("b".to_string(), JsonValue::Bool(false)),
            ("a".to_string(), JsonValue::Bool(true)),
        ])),
    ];
    let parsed = flecs_core::manifest::parse_depends(depends).unwrap();
    assert_eq!(parsed.len(), 2);
    assert_eq!(parsed[0].0.as_str(), "auth");
    assert!(matches!(parsed[0].1, Dependency::One(_, JsonValue::Bool(true))));
    assert_eq!(parsed[1].0.as_str(), "a|b");
    match &parsed[1].1 {
        Dependency::OneOf(list) => {
            assert_eq!(list.len(), 2);
            assert_eq!(list[0].0.as_str(), "a");
            assert_eq!(list[0].1, JsonValue::Bool(true));
            assert_eq!(list[1].0.as_str(), "b");
            assert_eq!(list[1].1, JsonValue::Bool(false));
        }
        _ => panic!("expected a dependency on one of two features"),
    }
}
