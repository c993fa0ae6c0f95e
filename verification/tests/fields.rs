use yaml_verifier::fields::{
    read_optional_bool, read_optional_str, read_optional_u64, read_required_bool,
    read_required_str, read_required_u64, FieldError,
};
use yaml_verifier::structs::{ValueType, ValueTypeEnum};
use yaml_verifier::Node;

fn text(value: &str) -> Node {
    Node::String(value.to_string())
}

fn wrong(type_enum: ValueTypeEnum) -> FieldError {
    FieldError::WrongType(ValueType { type_enum })
}

fn sample() -> Vec<(Node, Node)> {
    vec![
        (text("s"), text("string")),
        (text("b"), Node::Bool(true)),
        (text("n"), Node::Number(Some(7))),
        (text("neg"), Node::Number(None)),
        (text("null"), Node::Null),
        (text("seq"), Node::Sequence(vec![])),
        (text("tag"), Node::Tagged(Box::new(text("under")))),
    ]
}

#[test]
fn required_fields() {
    let map = sample();
    assert_eq!(read_required_str(&map, "s"), Ok("string"));
    assert_eq!(read_required_str(&map, "tag"), Ok("under"));
    assert_eq!(read_required_str(&map, "b"), Err(wrong(ValueTypeEnum::Bool)));
    assert_eq!(read_required_str(&map, "absent"), Err(FieldError::Missing));
    assert_eq!(read_required_bool(&map, "b"), Ok(true));
    assert_eq!(read_required_bool(&map, "s"), Err(wrong(ValueTypeEnum::String)));
    assert_eq!(read_required_bool(&map, "tag"), Err(wrong(ValueTypeEnum::Tagged)));
    assert_eq!(read_required_bool(&map, "absent"), Err(FieldError::Missing));
    assert_eq!(read_required_u64(&map, "n"), Ok(7));
    assert_eq!(read_required_u64(&map, "neg"), Err(wrong(ValueTypeEnum::Number)));
    assert_eq!(read_required_u64(&map, "null"), Err(wrong(ValueTypeEnum::Null)));
    assert_eq!(read_required_u64(&map, "absent"), Err(FieldError::Missing));
}

#[test]
fn optional_fields() {
    let map = sample();
    assert_eq!(read_optional_str(&map, "s"), Ok(Some("string")));
    assert_eq!(read_optional_str(&map, "absent"), Ok(None));
    assert_eq!(read_optional_str(&map, "null"), Err(wrong(ValueTypeEnum::Null)));
    assert_eq!(read_optional_bool(&map, "b"), Ok(Some(true)));
    assert_eq!(read_optional_bool(&map, "absent"), Ok(None));
    assert_eq!(read_optional_bool(&map, "seq"), Err(wrong(ValueTypeEnum::Sequence)));
    assert_eq!(read_optional_u64(&map, "n"), Ok(Some(7)));
    assert_eq!(read_optional_u64(&map, "absent"), Ok(None));
    assert_eq!(read_optional_u64(&map, "s"), Err(wrong(ValueTypeEnum::String)));
    assert_eq!(read_optional_u64(&vec![], "n"), Ok(None));
}
