use yaml_validator_cli::{collect_documents, load_source, read_failure, Error};

#[test]
fn read_failure_message() {
    assert_eq!(
        read_failure("x.yaml", "permission denied"),
        Error::File("could not read file x.yaml: permission denied\n".into())
    );
}

#[test]
fn loads_every_document_of_a_file() {
    let docs = load_source("two.yaml", Ok(b"---\na: 1\n---\nb: 2\n".to_vec())).unwrap();
    assert_eq!(docs.len(), 2);
    let none = load_source("empty.yaml", Ok(Vec::new())).unwrap();
    assert_eq!(none.len(), 0);
}

#[test]
fn unparsable_yaml_is_reported() {
    match load_source("bad.yaml", Ok(b"a: [1, 2\n".to_vec())) {
        Err(Error::Yaml(message)) => assert!(message.contains(" at line ")),
        other => panic!("unexpected {:?}", other),
    }
}

#[test]
fn unreadable_file_is_reported() {
    assert_eq!(
        load_source("gone.yaml", Err("No such file or directory (os error 2)".into())).unwrap_err(),
        Error::File("could not read file gone.yaml: No such file or directory (os error 2)\n".into())
    );
}

#[test]
fn collect_keeps_order_of_documents() {
    let loaded: Vec<Result<Vec<u32>, Error>> = vec![Ok(vec![1, 2]), Ok(vec![]), Ok(vec![3])];
    assert_eq!(collect_documents(loaded).unwrap(), vec![1, 2, 3]);
}

#[test]
fn collect_reports_every_failure() {
    let loaded: Vec<Result<Vec<u32>, Error>> = vec![
        Err(Error::File("a".into())),
        Ok(vec![1]),
        Err(Error::Yaml("b".into())),
    ];
    assert_eq!(
        collect_documents(loaded).unwrap_err(),
        vec![Error::File("a".into()), Error::Yaml("b".into())]
    );
}

#[test]
fn error_text() {
    let e = Error::Multiple(vec![Error::File("one\n".into()), Error::Validation("two\n".into())]);
    assert_eq!(e.to_string(), "one\ntwo\n");
}

#[test]
fn invalid_utf8_is_replaced() {
    let docs = load_source("latin1.yaml", Ok(b"name: caf\xe9\n".to_vec())).unwrap();
    assert_eq!(docs.len(), 1);
    let expected = load_source("same.yaml", Ok("name: caf\u{fffd}\n".as_bytes().to_vec())).unwrap();
    assert_eq!(docs, expected);
}

#[test]
fn valid_utf8_is_read_unchanged() {
    let text = "name: caf\u{e9} \u{1F600}\n";
    let docs = load_source("utf8.yaml", Ok(text.as_bytes().to_vec())).unwrap();
    assert_eq!(docs, yaml_rust::YamlLoader::load_from_str(text).unwrap());
}
