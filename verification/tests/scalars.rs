use serde_yaml::{Mapping, Number, Value};
use yaml_verifier::{CategorySet, NoRules, Snapshot, YamlShape, YamlVerifyError, DEFAULT_CATEGORIES};

fn generate_yaml_with_scalars(
    name: Value,
    description: Value,
    visible: Value,
    value: Value,
    categories: Value,
    authors: Value,
    hints: Value,
) -> String {
    let value = Value::Mapping(Mapping::from_iter([
        ("flag".into(), Value::String("bcactf{default-flag}".to_string())),
        ("name".into(), name),
        ("description".into(), description),
        ("visible".into(), visible),
        ("value".into(), value),
        ("categories".into(), categories),
        ("authors".into(), authors),
        ("hints".into(), hints),
    ]));

    serde_yaml::to_string(&value).unwrap()
}

#[derive(Clone)]
struct DefaultedYaml {
    name: Value,
    description: Value,
    visible: Value,
    value: Value,
    categories: Value,
    authors: Value,
    hints: Value,
}

impl Default for DefaultedYaml {
    fn default() -> Self {
        Self {
            name: Value::String("DEFAULT NAME".to_string()),
            description: Value::String("DEFAULT DESC".to_string()),
            visible: Value::Bool(false),
            value: Value::Number(Number::from(100)),
            categories: Value::Sequence(vec![]),
            authors: Value::Sequence(vec![Value::String("DEFAULT AUTHOR".to_string())]),
            hints: Value::Sequence(vec![Value::String("DEFAULT HINT".to_string())]),
        }
    }
}

impl DefaultedYaml {
    fn to_yaml(&self) -> String {
        generate_yaml_with_scalars(
            self.name.clone(),
            self.description.clone(),
            self.visible.clone(),
            self.value.clone(),
            self.categories.clone(),
            self.authors.clone(),
            self.hints.clone(),
        )
    }
}

fn scalar_test(known: &CategorySet, works: Value, fails: Vec<Value>, body: fn(Value) -> String) {
    let working = body(works);

    for failing in fails {
        let yaml = body(failing);
        let parsed = YamlShape::try_from_str(&yaml, &NoRules, known, &Snapshot::new());

        assert!(
            parsed.is_err(),
            "Value parsed successfully, although yaml was {yaml:?}",
        );

        let err = parsed.unwrap_err();
        assert!(
            matches!(err, YamlVerifyError::PartErrors(_)),
            "Error was not a PartError error, but was {err:?}",
        );

        let YamlVerifyError::PartErrors(part_errors) = err else { unreachable!() };

        println!("{yaml}");

        assert_eq!(
            part_errors.len(),
            1,
            "Expected exactly one part error, but got {} errors: {part_errors:?}",
            part_errors.len(),
        );
    }

    let parsed = YamlShape::try_from_str(&working, &NoRules, known, &Snapshot::new());

    assert!(
        parsed.is_ok(),
        "Value was not parsed successfully, but was {:?}",
        parsed,
    );
}

fn default_known() -> CategorySet {
    CategorySet::from_list(DEFAULT_CATEGORIES)
}

#[test]
fn names() {
    scalar_test(
        &default_known(),
        Value::String("TEST NAME".to_string()),
        vec![
            Value::Null,
            Value::Bool(false),
            Value::Number(Number::from(100)),
            Value::Sequence(vec![]),
            Value::Mapping(Mapping::new()),
        ],
        |name| DefaultedYaml { name, ..Default::default() }.to_yaml(),
    );
}

#[test]
fn desc() {
    scalar_test(
        &default_known(),
        Value::String("TEST DESC".to_string()),
        vec![
            Value::Null,
            Value::Bool(false),
            Value::Number(Number::from(100)),
            Value::Sequence(vec![]),
            Value::Mapping(Mapping::new()),
        ],
        |description| DefaultedYaml { description, ..Default::default() }.to_yaml(),
    );
}

#[test]
fn visible() {
    scalar_test(
        &default_known(),
        Value::Bool(true),
        vec![
            Value::Null,
            Value::String("true".to_string()),
            Value::Number(Number::from(100)),
            Value::Sequence(vec![]),
            Value::Mapping(Mapping::new()),
        ],
        |visible| DefaultedYaml { visible, ..Default::default() }.to_yaml(),
    );
}

#[test]
fn value() {
    scalar_test(
        &default_known(),
        Value::Number(Number::from(100)),
        vec![
            Value::Null,
            Value::Bool(false),
            Value::String("100".to_string()),
            Value::Sequence(vec![]),
            Value::Mapping(Mapping::new()),
        ],
        |value| DefaultedYaml { value, ..Default::default() }.to_yaml(),
    );
}

fn str_list_scalar_test(known: &CategorySet, base_list: Vec<String>, body: fn(Value) -> String) {
    let good_scalar: Vec<_> = base_list.into_iter().map(Value::String).collect();
    let with_bad_type: Vec<_> = good_scalar.iter().cloned().chain(vec![Value::Null]).collect();
    let all_bad_types = vec![Value::Number(Number::from(100))];

    scalar_test(
        known,
        Value::Sequence(good_scalar),
        vec![
            Value::Null,
            Value::Bool(false),
            Value::Number(Number::from(100)),
            Value::String("100".to_string()),
            Value::Mapping(Mapping::new()),
            Value::Sequence(with_bad_type),
            Value::Sequence(all_bad_types),
        ],
        body,
    );
}

#[test]
fn categories() {
    let categories = vec![
        "category1".to_string(),
        "category2".to_string(),
        "something-else".to_string(),
    ];
    str_list_scalar_test(
        &CategorySet::new(categories.clone()),
        categories,
        |categories| DefaultedYaml { categories, ..Default::default() }.to_yaml(),
    );
}

#[test]
fn categories_default() {
    let categories: Vec<String> = DEFAULT_CATEGORIES.split(',').map(str::to_string).collect();
    assert_eq!(CategorySet::from_list(DEFAULT_CATEGORIES), CategorySet::new(categories.clone()));
    str_list_scalar_test(
        &default_known(),
        categories,
        |categories| DefaultedYaml { categories, ..Default::default() }.to_yaml(),
    );
}

#[test]
fn authors() {
    str_list_scalar_test(
        &default_known(),
        vec!["AUTHOR1".to_string(), "AUTHOR2".to_string(), "AUTHOR3".to_string()],
        |authors| DefaultedYaml { authors, ..Default::default() }.to_yaml(),
    );
}

#[test]
fn hints() {
    str_list_scalar_test(
        &default_known(),
        vec!["HINT1".to_string(), "HINT2".to_string(), "HINT3".to_string()],
        |hints| DefaultedYaml { hints, ..Default::default() }.to_yaml(),
    );
}
