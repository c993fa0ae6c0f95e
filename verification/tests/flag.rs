use yaml_verifier::flag::{flag_request, get_file_flag, get_flag, Flag, FlagError};
use yaml_verifier::structs::{ValueType, ValueTypeEnum};
use yaml_verifier::{Node, ReadOutcome, Snapshot};

fn text(value: &str) -> Node {
    Node::String(value.to_string())
}

fn map(list: Vec<(&str, Node)>) -> Node {
    Node::Mapping(list.into_iter().map(|(key, value)| (text(key), value)).collect())
}

fn kind(type_enum: ValueTypeEnum) -> ValueType {
    ValueType { type_enum }
}

fn snapshot() -> Snapshot {
    let mut files = Snapshot::new();
    files.record("flag.txt".to_string(), ReadOutcome::Found(b"flag{in-a-file}\n".to_vec()));
    files.record("umlaut.txt".to_string(), ReadOutcome::Found("gr\u{fc}n".as_bytes().to_vec()));
    files.record("binary".to_string(), ReadOutcome::Found(vec![0x66, 0xff, 0xfe]));
    files.record("cut".to_string(), ReadOutcome::Found(vec![0xc3]));
    files.record("locked".to_string(), ReadOutcome::Failed);
    files
}

#[test]
fn flag_in_the_document() {
    let flag = get_flag(&text("flag{inline}"), &snapshot()).unwrap();
    assert_eq!(flag, Flag::String("flag{inline}".to_string()));
    assert_eq!(flag.as_str(), "flag{inline}");
    assert_eq!(flag.path(), None);
    assert_eq!(flag.render(), "Flag< flag{inline} >");
    assert_eq!(flag_request(&text("flag.txt")), None);
}

#[test]
fn flag_in_a_file() {
    let node = map(vec![("file", text("flag.txt"))]);
    let flag = get_flag(&node, &snapshot()).unwrap();
    assert_eq!(flag, Flag::File("flag.txt".to_string(), "flag{in-a-file}\n".to_string()));
    assert_eq!(flag.as_str(), "flag{in-a-file}\n");
    assert_eq!(flag.path(), Some("flag.txt"));
    assert_eq!(flag.render(), "Flag< flag{in-a-file}\n (@ flag.txt) >");
    assert_eq!(flag_request(&node), Some("flag.txt".to_string()));
    let other = get_flag(&map(vec![("file", text("umlaut.txt"))]), &snapshot()).unwrap();
    assert_eq!(other.as_str(), "gr\u{fc}n");
}

#[test]
fn flag_file_errors() {
    assert_eq!(
        get_flag(&map(vec![("file", text("nowhere"))]), &snapshot()),
        Err(FlagError::FileMissing("nowhere".to_string()))
    );
    assert_eq!(
        get_flag(&map(vec![("file", text("locked"))]), &snapshot()),
        Err(FlagError::OsError("locked".to_string()))
    );
    assert_eq!(
        get_flag(&map(vec![("file", text("binary"))]), &snapshot()),
        Err(FlagError::OsError("binary".to_string()))
    );
    assert_eq!(
        get_file_flag("cut".to_string(), &snapshot()),
        Err(FlagError::OsError("cut".to_string()))
    );
    assert_eq!(
        get_file_flag("flag.txt".to_string(), &Snapshot::new()),
        Err(FlagError::FileMissing("flag.txt".to_string()))
    );
}

#[test]
fn flag_of_wrong_shape() {
    assert_eq!(
        get_flag(&map(vec![("file", text("/etc/flag"))]), &snapshot()),
        Err(FlagError::BadPath("/etc/flag".to_string()))
    );
    assert_eq!(flag_request(&map(vec![("file", text("/etc/flag"))])), None);
    assert_eq!(get_flag(&map(vec![]), &snapshot()), Err(FlagError::MappingNeedsFile));
    assert_eq!(
        get_flag(&map(vec![("file", Node::Number(Some(1)))]), &snapshot()),
        Err(FlagError::FileNotString(kind(ValueTypeEnum::Number)))
    );
    assert_eq!(
        get_flag(&map(vec![("file", Node::Null)]), &snapshot()),
        Err(FlagError::FileNotString(kind(ValueTypeEnum::Null)))
    );
    assert_eq!(flag_request(&map(vec![("file", Node::Number(Some(1)))])), None);
    assert_eq!(flag_request(&map(vec![])), None);
    assert_eq!(
        get_flag(&Node::Number(Some(7)), &snapshot()),
        Err(FlagError::BadType(kind(ValueTypeEnum::Number)))
    );
    assert_eq!(
        get_flag(&Node::Sequence(vec![]), &snapshot()),
        Err(FlagError::BadType(kind(ValueTypeEnum::Sequence)))
    );
    assert_eq!(flag_request(&Node::Null), None);
    assert_eq!(FlagError::default(), FlagError::MissingKey);
}

#[test]
fn flag_messages() {
    assert_eq!(
        FlagError::BadType(kind(ValueTypeEnum::Number)).message(),
        "Flag should be a list, not a number."
    );
    assert_eq!(
        FlagError::BadString("x".to_string()).message(),
        "The string x is not a valid flag."
    );
    assert_eq!(
        FlagError::BadPath("/x".to_string()).message(),
        "The string /x is not a valid path. (hint: If you want to define a flag with a string, use `flag: <input>`)"
    );
    assert_eq!(
        FlagError::MappingNeedsFile.message(),
        "If you are going to define a flag via a file, you need to have `file: <path>` as an entry under `flag`. (<path> must be a string)"
    );
    assert_eq!(FlagError::MissingKey.message(), "You have to define `flag`.");
    assert_eq!(
        FlagError::FileNotString(kind(ValueTypeEnum::Sequence)).message(),
        "The `file` entry under `flag` must be a string, not a list."
    );
    assert_eq!(FlagError::FileMissing("f".to_string()).message(), "There is no file at f.");
    assert_eq!(
        FlagError::OsError("f".to_string()).message(),
        "There was an issue opening the file at f. Maybe check permissions?"
    );
}
