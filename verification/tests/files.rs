use yaml_verifier::files::errors::{
    ContainerTypeErr, DataReadErr, FileErrors, FileParseErr, FilePathErr,
};
use yaml_verifier::files::get_file::{get_file_from_mapping, wanted};
use yaml_verifier::files::structs::ContainerType;
use yaml_verifier::files::{file_list, file_requests};
use yaml_verifier::structs::{ValueType, ValueTypeEnum};
use yaml_verifier::{File, Node, ReadOutcome, Snapshot};

fn text(value: &str) -> Node {
    Node::String(value.to_string())
}

fn entries(list: Vec<(&str, Node)>) -> Vec<(Node, Node)> {
    list.into_iter().map(|(key, value)| (text(key), value)).collect()
}

fn map(list: Vec<(&str, Node)>) -> Node {
    Node::Mapping(entries(list))
}

fn kind(type_enum: ValueTypeEnum) -> ValueType {
    ValueType { type_enum }
}

fn snapshot() -> Snapshot {
    let mut files = Snapshot::new();
    files.record("a.txt".to_string(), ReadOutcome::Found(b"alpha".to_vec()));
    files.record("locked.bin".to_string(), ReadOutcome::Failed);
    files.record("gone.txt".to_string(), ReadOutcome::Missing);
    files.record("empty".to_string(), ReadOutcome::Found(vec![]));
    files
}

fn parts(
    path: Option<FilePathErr>,
    visible: Option<ValueType>,
    alias: Option<ValueType>,
    container: Option<ContainerTypeErr>,
    data: Option<DataReadErr>,
) -> FileParseErr {
    FileParseErr::Parts { path, visible, alias, container, data }
}

fn file(mapping: Vec<(&str, Node)>) -> Result<File, FileParseErr> {
    get_file_from_mapping(&entries(mapping), &snapshot())
}

#[test]
fn entry_with_source_only() {
    let found = file(vec![("src", text("a.txt"))]).unwrap();
    assert_eq!(found.path(), "a.txt");
    assert!(found.visible());
    assert_eq!(found.alias(), None);
    assert_eq!(found.container(), None);
    assert_eq!(found.data(), Some(b"alpha".as_slice()));
    assert_eq!(found.data_vec_cloned(), Some(b"alpha".to_vec()));
    assert_eq!(found.clone().data_vec(), Some(b"alpha".to_vec()));
    assert_eq!(found.render(), "File< @a.txt | visible >");
}

#[test]
fn entry_with_empty_file() {
    let found = file(vec![("src", text("empty"))]).unwrap();
    assert_eq!(found.data(), Some([].as_slice()));
}

#[test]
fn entry_in_full() {
    let found = file(vec![
        ("src", text("a.txt")),
        ("visible", Node::Bool(false)),
        ("alias", text("readme")),
    ])
    .unwrap();
    assert!(!found.visible());
    assert_eq!(found.alias(), Some("readme"));
    assert_eq!(found.render(), "File< @a.txt => readme | unused >");
}

#[test]
fn entry_bound_to_a_container_is_never_read() {
    for files in [Snapshot::new(), snapshot()] {
        for path in ["does/not/exist", "gone.txt", "locked.bin", "a.txt"] {
            let found = get_file_from_mapping(
                &entries(vec![("src", text(path)), ("container", text("web"))]),
                &files,
            )
            .unwrap();
            assert_eq!(found.path(), path);
            assert_eq!(found.container(), Some(ContainerType::Web));
            assert_eq!(found.data(), None);
            assert_eq!(found.data_vec_cloned(), None);
            assert_eq!(found.data_vec(), None);
        }
    }
    assert_eq!(wanted(&entries(vec![("src", text("x")), ("container", text("web"))])), None);
    assert_eq!(wanted(&entries(vec![("src", text("x"))])), Some("x".to_string()));
    assert_eq!(wanted(&entries(vec![("container", text("web"))])), None);
    assert_eq!(wanted(&entries(vec![])), None);
    assert_eq!(
        wanted(&entries(vec![("src", text("x")), ("container", text("cloud"))])),
        Some("x".to_string())
    );
    let bound = file(vec![("src", text("a.txt")), ("container", text("nc")), ("vis", Node::Bool(true))])
        .unwrap();
    assert_eq!(bound.render(), "File< @a.txt | nc, visible >");
    let hidden =
        file(vec![("src", text("a.txt")), ("container", text("admin")), ("vis", Node::Bool(false))])
            .unwrap();
    assert_eq!(hidden.render(), "File< @a.txt | admin >");
}

#[test]
fn entry_keys_in_order_of_rank() {
    let found = file(vec![
        ("src", text("a.txt")),
        ("visible", Node::Bool(true)),
        ("vis", Node::Bool(false)),
        ("as", text("third")),
        ("alias", text("second")),
        ("dest", text("first")),
    ])
    .unwrap();
    assert!(!found.visible());
    assert_eq!(found.alias(), Some("first"));
    let found = file(vec![("src", text("a.txt")), ("as", text("third")), ("alias", text("second"))])
        .unwrap();
    assert_eq!(found.alias(), Some("second"));
    let found = file(vec![("src", text("a.txt")), ("as", text("third"))]).unwrap();
    assert_eq!(found.alias(), Some("third"));
    let wrong = file(vec![
        ("src", text("a.txt")),
        ("vis", text("yes")),
        ("visible", Node::Bool(true)),
    ]);
    assert_eq!(wrong, Err(parts(None, Some(kind(ValueTypeEnum::String)), None, None, None)));
}

#[test]
fn entry_source_errors() {
    assert_eq!(file(vec![]), Err(parts(Some(FilePathErr::NoExist), None, None, None, None)));
    assert_eq!(
        file(vec![("src", Node::Number(Some(1)))]),
        Err(parts(Some(FilePathErr::NotStr(kind(ValueTypeEnum::Number))), None, None, None, None))
    );
}

#[test]
fn entry_container_errors() {
    assert_eq!(
        file(vec![("src", text("a.txt")), ("container", Node::Bool(true))]),
        Err(parts(None, None, None, Some(ContainerTypeErr::NotStr(kind(ValueTypeEnum::Bool))), None))
    );
    assert_eq!(
        file(vec![("src", text("a.txt")), ("container", text("cloud"))]),
        Err(parts(None, None, None, Some(ContainerTypeErr::BadType("cloud".to_string())), None))
    );
}

#[test]
fn entry_read_errors() {
    assert_eq!(
        file(vec![("src", text("gone.txt"))]),
        Err(parts(None, None, None, None, Some(DataReadErr::DoesntExist("gone.txt".to_string()))))
    );
    assert_eq!(
        file(vec![("src", text("never-recorded"))]),
        Err(parts(
            None,
            None,
            None,
            None,
            Some(DataReadErr::DoesntExist("never-recorded".to_string()))
        ))
    );
    assert_eq!(
        file(vec![("src", text("locked.bin"))]),
        Err(parts(None, None, None, None, Some(DataReadErr::OsError("locked.bin".to_string()))))
    );
}

#[test]
fn entry_reports_every_part() {
    let wrong = file(vec![
        ("src", text("gone.txt")),
        ("vis", Node::Null),
        ("dest", Node::Sequence(vec![])),
        ("container", text("cloud")),
    ]);
    assert_eq!(
        wrong,
        Err(parts(
            None,
            Some(kind(ValueTypeEnum::Null)),
            Some(kind(ValueTypeEnum::Sequence)),
            Some(ContainerTypeErr::BadType("cloud".to_string())),
            Some(DataReadErr::DoesntExist("gone.txt".to_string())),
        ))
    );
}

#[test]
fn list_in_order() {
    let list = file_list(
        &Node::Sequence(vec![
            map(vec![("src", text("empty"))]),
            map(vec![("src", text("a.txt")), ("container", text("static"))]),
            map(vec![("src", text("a.txt"))]),
        ]),
        &snapshot(),
    )
    .unwrap();
    assert_eq!(list.iter_paths(), vec!["empty", "a.txt", "a.txt"]);
    assert_eq!(list.slice().len(), 3);
    assert_eq!(list.iter().len(), 3);
    assert_eq!(list.slice()[1].container(), Some(ContainerType::Static));
    assert_eq!(list.slice()[1].data(), None);
    assert_eq!(list.slice()[2].data(), Some(b"alpha".as_slice()));
    let none = file_list(&Node::Sequence(vec![]), &snapshot()).unwrap();
    assert!(none.slice().is_empty());
}

#[test]
fn list_errors_by_index() {
    let list = file_list(
        &Node::Sequence(vec![
            map(vec![("src", text("a.txt"))]),
            text("a.txt"),
            map(vec![("src", text("a.txt"))]),
            map(vec![]),
            Node::Null,
        ]),
        &snapshot(),
    );
    assert_eq!(
        list,
        Err(FileErrors::EntryErrors(vec![
            None,
            Some(FileParseErr::ItemNotMapping(kind(ValueTypeEnum::String))),
            None,
            Some(parts(Some(FilePathErr::NoExist), None, None, None, None)),
            Some(FileParseErr::ItemNotMapping(kind(ValueTypeEnum::Null))),
        ]))
    );
}

#[test]
fn file_list_that_is_no_list() {
    assert_eq!(
        file_list(&map(vec![("src", text("a.txt"))]), &snapshot()),
        Err(FileErrors::BadBaseType(kind(ValueTypeEnum::Mapping)))
    );
    assert_eq!(
        file_list(&Node::Null, &snapshot()),
        Err(FileErrors::BadBaseType(kind(ValueTypeEnum::Null)))
    );
}

#[test]
fn list_asks_for_what_it_reads() {
    let list = Node::Sequence(vec![
        map(vec![("src", text("one"))]),
        map(vec![("src", text("two")), ("container", text("web"))]),
        text("three"),
        map(vec![("src", Node::Null)]),
        map(vec![("src", text("five")), ("container", Node::Null)]),
        map(vec![("src", text("one"))]),
    ]);
    assert_eq!(file_requests(&list), vec!["one", "five", "one"]);
    assert!(file_requests(&text("one")).is_empty());
}

#[test]
fn containers_by_name() {
    assert_eq!(ContainerType::try_from_str("nc"), Some(ContainerType::Nc));
    assert_eq!(ContainerType::try_from_str("admin"), Some(ContainerType::Admin));
    assert_eq!(ContainerType::try_from_str("web"), Some(ContainerType::Web));
    assert_eq!(ContainerType::try_from_str("static"), Some(ContainerType::Static));
    assert_eq!(ContainerType::try_from_str("Web"), None);
    assert_eq!(ContainerType::try_from_str(""), None);
    for container in
        [ContainerType::Nc, ContainerType::Admin, ContainerType::Web, ContainerType::Static]
    {
        assert_eq!(ContainerType::try_from_str(container.to_str()), Some(container));
    }
    assert_eq!(ContainerType::Nc.to_str(), "nc");
    assert_eq!(ContainerType::Static.to_str(), "static");
}

#[test]
fn file_messages() {
    assert_eq!(FilePathErr::NoExist.message(), "You must define `src`");
    assert_eq!(
        FilePathErr::NotStr(kind(ValueTypeEnum::Mapping)).message(),
        "The source path must be a filepath, not a dictionary"
    );
    assert_eq!(
        FilePathErr::BadPath("?".to_string()).message(),
        "The source `?` is not a valid filepath"
    );
    assert_eq!(
        ContainerTypeErr::NotStr(kind(ValueTypeEnum::Tagged)).message(),
        "The container must be `nc`, `admin`, or `web`, not an enum"
    );
    assert_eq!(
        ContainerTypeErr::BadType("cloud".to_string()).message(),
        "The container must be `nc`, `admin`, or `web`. \"cloud\" is not one of those."
    );
    assert_eq!(
        DataReadErr::DoesntExist("x".to_string()).message(),
        "The file path `x` doesn't exist."
    );
    assert_eq!(
        DataReadErr::OsError("x".to_string()).message(),
        "There was an issue reading the file at `x`. Maybe check permissions?"
    );
    assert_eq!(
        FileParseErr::ItemNotMapping(kind(ValueTypeEnum::String)).message(),
        "each file should be a map of attributes, not a string."
    );
    let every = parts(
        Some(FilePathErr::NoExist),
        Some(kind(ValueTypeEnum::Null)),
        Some(kind(ValueTypeEnum::Number)),
        Some(ContainerTypeErr::BadType("cloud".to_string())),
        Some(DataReadErr::OsError("x".to_string())),
    );
    assert_eq!(
        every.message(),
        "There were issues with certain parts of this file entry:\n            You must define `src`\n            The visibility of a file must be a boolean or undefined, not `null`\n            The display name of a file must be a string or undefined, not a number\n            The container must be `nc`, `admin`, or `web`. \"cloud\" is not one of those.\n            There was an issue reading the file at `x`. Maybe check permissions?\n"
    );
    assert_eq!(
        FileErrors::BadBaseType(kind(ValueTypeEnum::Bool)).message(),
        "Files should be a list, not a boolean."
    );
    let mut errors: Vec<Option<FileParseErr>> = vec![None; 12];
    errors[1] = Some(FileParseErr::ItemNotMapping(kind(ValueTypeEnum::String)));
    errors[11] = Some(FileParseErr::ItemNotMapping(kind(ValueTypeEnum::Null)));
    assert_eq!(
        FileErrors::EntryErrors(errors).message(),
        "Some entries under `files` are invalid:\n        1: each file should be a map of attributes, not a string.\n        11: each file should be a map of attributes, not `null`.\n"
    );
    assert_eq!(
        FileErrors::EntryErrors(vec![]).message(),
        "Some entries under `files` are invalid:\n"
    );
}

#[test]
fn snapshot_keeps_the_first_outcome() {
    let mut files = Snapshot::new();
    assert_eq!(files.read("a"), ReadOutcome::Missing);
    files.record("a".to_string(), ReadOutcome::Found(vec![1, 2, 3]));
    files.record("a".to_string(), ReadOutcome::Failed);
    files.record("b".to_string(), ReadOutcome::Failed);
    assert_eq!(files.read("a"), ReadOutcome::Found(vec![1, 2, 3]));
    assert_eq!(files.read("b"), ReadOutcome::Failed);
    assert_eq!(files.read("c"), ReadOutcome::Missing);
}
