use yaml_verifier::{CategorySet, NoRules, Snapshot, YamlShape, YamlVerifyError, DEFAULT_CATEGORIES};

const INVALID_YAML: &str = r#"
bad:++++-'
yaml:
"#;

#[test]
fn invalid_yaml() {
    let parsed = YamlShape::try_from_str(
        INVALID_YAML,
        &NoRules,
        &CategorySet::from_list(DEFAULT_CATEGORIES),
        &Snapshot::new(),
    );
    assert!(
        matches!(parsed, Err(YamlVerifyError::Unparsable(_))),
        "Value was not an unparsable error, but was {:?}",
        parsed
    );
}

const VALID_YAML_INVALID_CHALL: &str = r#"
good: 1
yaml:
  with:
    bad: format
"#;

#[test]
fn valid_yaml() {
    let parsed = YamlShape::try_from_str(
        VALID_YAML_INVALID_CHALL,
        &NoRules,
        &CategorySet::from_list(DEFAULT_CATEGORIES),
        &Snapshot::new(),
    );

    let was_unparsable = matches!(parsed, Err(YamlVerifyError::Unparsable(_)));

    assert!(
        parsed.is_err(),
        "Value was not an error, but was {:?}",
        parsed,
    );

    assert!(
        !was_unparsable,
        "Value was an unparsable error, whereas it should've been a content error {:?}",
        parsed,
    );
}

#[test]
fn unparsable_says_why() {
    let parsed = YamlShape::try_from_str(
        INVALID_YAML,
        &NoRules,
        &CategorySet::from_list(DEFAULT_CATEGORIES),
        &Snapshot::new(),
    );
    let Err(YamlVerifyError::Unparsable(reason)) = parsed else { unreachable!() };
    assert!(!reason.is_empty());
    let message = YamlVerifyError::Unparsable(reason.clone()).message();
    assert_eq!(message, format!("Invalid YAML:\n{reason}\n"));
}

#[test]
fn root_that_is_no_map() {
    let parsed = YamlShape::try_from_str(
        "- a\n- b\n",
        &NoRules,
        &CategorySet::from_list(DEFAULT_CATEGORIES),
        &Snapshot::new(),
    );
    let Err(YamlVerifyError::BaseNotMap(kind)) = parsed else { unreachable!() };
    assert_eq!(kind.get_str(), "a list");
    assert_eq!(
        YamlVerifyError::BaseNotMap(kind).message(),
        "The yaml file must have `key: value` pairs\n"
    );
}
