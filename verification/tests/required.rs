use serde_yaml::{Mapping, Value};
use yaml_verifier::categories::CategoryError;
use yaml_verifier::flag::FlagError;
use yaml_verifier::lists::structs::AuthorError;
use yaml_verifier::fields::FieldError;
use yaml_verifier::structs::{ValueType, ValueTypeEnum};
use yaml_verifier::{
    CategorySet, NoRules, Snapshot, YamlAttribVerifyError, YamlShape, YamlVerifyError,
    DEFAULT_CATEGORIES,
};

#[derive(Default)]
struct MissingYaml {
    no_flag: bool,
    no_name: bool,
    no_description: bool,
    no_visible: bool,
    no_value: bool,
    no_categories: bool,
    no_authors: bool,
    no_hints: bool,
}

impl MissingYaml {
    fn to_yaml(&self) -> String {
        let mut map = Mapping::new();
        if !self.no_flag {
            map.insert("flag".into(), "bcactf{default-flag}".into());
        }
        if !self.no_name {
            map.insert("name".into(), "DEFAULT NAME".into());
        }
        if !self.no_description {
            map.insert("description".into(), "DEFAULT DESC".into());
        }
        if !self.no_visible {
            map.insert("visible".into(), false.into());
        }
        if !self.no_value {
            map.insert("value".into(), 100.into());
        }
        if !self.no_categories {
            map.insert("categories".into(), Value::Sequence(vec![]));
        }
        if !self.no_authors {
            map.insert("authors".into(), vec![Value::String("DEFAULT AUTHOR".to_string())].into());
        }
        if !self.no_hints {
            map.insert("hints".into(), vec![Value::String("DEFAULT AUTHOR".to_string())].into());
        }
        serde_yaml::to_string(&Value::Mapping(map)).unwrap()
    }
}

fn parse(yaml: &str) -> Result<YamlShape, YamlVerifyError> {
    YamlShape::try_from_str(
        yaml,
        &NoRules,
        &CategorySet::from_list(DEFAULT_CATEGORIES),
        &Snapshot::new(),
    )
}

fn part_errors_of(missing: MissingYaml) -> Vec<YamlAttribVerifyError> {
    let yaml = missing.to_yaml();
    let parsed = parse(&yaml);
    assert!(parsed.is_err(), "Value parsed successfully, although yaml was {yaml:?}");
    let err = parsed.unwrap_err();
    assert!(
        matches!(err, YamlVerifyError::PartErrors(_)),
        "Error was not a PartError error, but was {err:?}",
    );
    let YamlVerifyError::PartErrors(part_errors) = err else { unreachable!() };
    part_errors
}

fn null() -> FieldError {
    FieldError::WrongType(ValueType { type_enum: ValueTypeEnum::Null })
}

#[test]
fn missing_flag() {
    let errors = part_errors_of(MissingYaml { no_flag: true, ..Default::default() });
    assert_eq!(errors, vec![YamlAttribVerifyError::Flag(FlagError::MissingKey)]);
}

#[test]
fn missing_name() {
    let errors = part_errors_of(MissingYaml { no_name: true, ..Default::default() });
    assert_eq!(errors, vec![YamlAttribVerifyError::NameNotString(FieldError::Missing)]);
}

#[test]
fn missing_description() {
    let errors = part_errors_of(MissingYaml { no_description: true, ..Default::default() });
    assert_eq!(errors, vec![YamlAttribVerifyError::DescNotString(FieldError::Missing)]);
}

#[test]
fn missing_visible() {
    let errors = part_errors_of(MissingYaml { no_visible: true, ..Default::default() });
    assert_eq!(errors, vec![YamlAttribVerifyError::VisNotBool(FieldError::Missing)]);
}

#[test]
fn missing_value() {
    let errors = part_errors_of(MissingYaml { no_value: true, ..Default::default() });
    assert_eq!(errors, vec![YamlAttribVerifyError::PointsNotInt(FieldError::Missing)]);
}

#[test]
fn missing_categories() {
    let errors = part_errors_of(MissingYaml { no_categories: true, ..Default::default() });
    assert_eq!(errors, vec![YamlAttribVerifyError::Categories(CategoryError::MissingKey)]);
}

#[test]
fn missing_authors() {
    let errors = part_errors_of(MissingYaml { no_authors: true, ..Default::default() });
    assert_eq!(errors, vec![YamlAttribVerifyError::Authors(AuthorError::MissingKey)]);
}

#[test]
fn missing_hints_is_no_hints() {
    let yaml = MissingYaml { no_hints: true, ..Default::default() }.to_yaml();
    let shape = parse(&yaml).unwrap();
    assert!(shape.hints().is_empty());
    assert!(shape.hint_iter().is_empty());
    assert_eq!(shape.authors(), ["DEFAULT AUTHOR".to_string()]);
}

#[test]
fn missing_multiple() {
    let errors = part_errors_of(MissingYaml {
        no_flag: true,
        no_name: true,
        no_description: true,
        ..Default::default()
    });
    assert_eq!(
        errors,
        vec![
            YamlAttribVerifyError::Flag(FlagError::MissingKey),
            YamlAttribVerifyError::NameNotString(FieldError::Missing),
            YamlAttribVerifyError::DescNotString(FieldError::Missing),
        ]
    );
}

#[test]
fn missing_all() {
    let errors = part_errors_of(MissingYaml {
        no_flag: true,
        no_name: true,
        no_description: true,
        no_visible: true,
        no_value: true,
        no_categories: true,
        no_authors: true,
        no_hints: true,
    });
    assert_eq!(
        errors,
        vec![
            YamlAttribVerifyError::Authors(AuthorError::MissingKey),
            YamlAttribVerifyError::Categories(CategoryError::MissingKey),
            YamlAttribVerifyError::PointsNotInt(FieldError::Missing),
            YamlAttribVerifyError::Flag(FlagError::MissingKey),
            YamlAttribVerifyError::NameNotString(FieldError::Missing),
            YamlAttribVerifyError::DescNotString(FieldError::Missing),
            YamlAttribVerifyError::VisNotBool(FieldError::Missing),
        ]
    );
}

fn with_null(key: &str) -> Vec<YamlAttribVerifyError> {
    let yaml = format!("{}{key}: null\n", match key {
        "name" => MissingYaml { no_name: true, ..Default::default() },
        "description" => MissingYaml { no_description: true, ..Default::default() },
        "visible" => MissingYaml { no_visible: true, ..Default::default() },
        _ => MissingYaml { no_value: true, ..Default::default() },
    }
    .to_yaml());
    let Err(YamlVerifyError::PartErrors(errors)) = parse(&yaml) else { unreachable!() };
    errors
}

#[test]
fn missing_is_not_null() {
    let absent = part_errors_of(MissingYaml { no_name: true, ..Default::default() });
    let present = with_null("name");
    assert_eq!(absent, vec![YamlAttribVerifyError::NameNotString(FieldError::Missing)]);
    assert_eq!(present, vec![YamlAttribVerifyError::NameNotString(null())]);
    assert_ne!(absent, present);
    assert_ne!(absent[0].message(), present[0].message());
    assert_eq!(absent[0].message(), "You have to define `name`.\n");
    assert_eq!(present[0].message(), "The name should be a string, not `null`.\n");

    let absent = part_errors_of(MissingYaml { no_description: true, ..Default::default() });
    let present = with_null("description");
    assert_eq!(absent, vec![YamlAttribVerifyError::DescNotString(FieldError::Missing)]);
    assert_eq!(present, vec![YamlAttribVerifyError::DescNotString(null())]);
    assert_ne!(absent[0].message(), present[0].message());

    let absent = part_errors_of(MissingYaml { no_visible: true, ..Default::default() });
    let present = with_null("visible");
    assert_eq!(absent, vec![YamlAttribVerifyError::VisNotBool(FieldError::Missing)]);
    assert_eq!(present, vec![YamlAttribVerifyError::VisNotBool(null())]);
    assert_ne!(absent[0].message(), present[0].message());

    let absent = part_errors_of(MissingYaml { no_value: true, ..Default::default() });
    let present = with_null("value");
    assert_eq!(absent, vec![YamlAttribVerifyError::PointsNotInt(FieldError::Missing)]);
    assert_eq!(present, vec![YamlAttribVerifyError::PointsNotInt(null())]);
    assert_ne!(absent[0].message(), present[0].message());
}

#[test]
fn nothing_missing() {
    let yaml = MissingYaml::default().to_yaml();
    let shape = parse(&yaml).unwrap();
    assert_eq!(shape.chall_name(), "DEFAULT NAME");
    assert_eq!(shape.description(), "DEFAULT DESC");
    assert_eq!(shape.points(), 100);
    assert!(!shape.visible());
    assert_eq!(shape.flag_str(), "bcactf{default-flag}");
    assert_eq!(shape.flag_filepath(), None);
    assert_eq!(shape.hints(), ["DEFAULT AUTHOR".to_string()]);
    assert_eq!(shape.author_iter(), vec!["DEFAULT AUTHOR"]);
    assert!(shape.categories().is_empty());
    assert!(shape.category_iter().is_empty());
    assert!(shape.category_str_iter().is_empty());
    assert!(shape.files().is_none());
    assert!(shape.file_iter().is_none());
    assert!(shape.file_path_iter().is_none());
    assert!(shape.deploy().is_none());
}

#[test]
fn same_text_same_document() {
    let yaml = MissingYaml::default().to_yaml();
    assert_eq!(parse(&yaml).unwrap(), parse(&yaml).unwrap());
}
