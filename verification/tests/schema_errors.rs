use yaml_validator_cli::{Breadcrumb, BreadcrumbSegment, GenericError, SchemaError, SchemaErrorKind};

#[test]
fn test_error_path() {
    // The error for `leaf`, as it travels up through the nested `items` of the schema.
    let mut err = SchemaErrorKind::FieldMissing { field: "type" }.with_path_name("leaf");
    for name in ["items", "level2", "items", "something", "items"] {
        err = SchemaError::add_path_name(name)(err);
    }
    assert_eq!(
        err.to_string(),
        "#.items.something.items.level2.items.leaf: field \'type\' missing\n",
    );
}

#[test]
fn test_error_path_validation() {
    let wrong = |actual: &'static str, index: usize| {
        SchemaError::add_path_index(index)(
            SchemaErrorKind::WrongType { expected: "integer", actual }.with_path_name("num"),
        )
    };
    let level2 = SchemaError::add_path_name("level2")(SchemaError::from(vec![
        wrong("string", 0),
        wrong("hash", 1),
        wrong("array", 2),
        wrong("string", 4),
    ]));
    let something = SchemaError::add_path_name("something")(SchemaError::from(vec![level2]));
    let err = SchemaError::from(vec![something]);
    assert_eq!(
        err.to_string(),
        r#"#.something.level2[0].num: wrong type, expected integer got string
#.something.level2[1].num: wrong type, expected integer got hash
#.something.level2[2].num: wrong type, expected integer got array
#.something.level2[4].num: wrong type, expected integer got string
"#
    );
}

#[test]
fn every_kind_has_its_message() {
    let cases: Vec<(SchemaErrorKind, &str)> = vec![
        (SchemaErrorKind::WrongType { expected: "hash", actual: "string" }, "wrong type, expected hash got string"),
        (SchemaErrorKind::MalformedField { error: "bad".to_string() }, "malformed field: bad"),
        (SchemaErrorKind::FieldMissing { field: "uri" }, "field 'uri' missing"),
        (SchemaErrorKind::ExtraField { field: "x" }, "field 'x' is not specified in the schema"),
        (SchemaErrorKind::UnknownType { unknown_type: "blob" }, "unknown type specified: blob"),
        (SchemaErrorKind::ValidationError { error: "too short" }, "special requirements for field not met: too short"),
    ];
    for (kind, message) in cases {
        assert_eq!(kind.to_string(), message);
        assert_eq!(SchemaError::from(kind).to_string(), format!("#: {}\n", message));
    }
}

#[test]
fn empty_group_writes_nothing() {
    let err = SchemaError::from(Vec::new());
    assert_eq!(err.to_string(), "");
    let nested = SchemaErrorKind::Multiple { errors: vec![SchemaError::from(Vec::new())] }
        .with_path_name("a");
    assert_eq!(nested.to_string(), "");
}

#[test]
fn with_path_takes_innermost_first() {
    let err = SchemaErrorKind::ExtraField { field: "z" }.with_path(vec![
        BreadcrumbSegment::Name("inner"),
        BreadcrumbSegment::Index(12),
        BreadcrumbSegment::Name("outer"),
    ]);
    assert_eq!(err.to_string(), "#.outer[12].inner: field 'z' is not specified in the schema\n");
}

#[test]
fn with_path_index_writes_index() {
    let err = SchemaErrorKind::FieldMissing { field: "f" }.with_path_index(1234567);
    assert_eq!(err.to_string(), "#[1234567]: field 'f' missing\n");
    let zero = SchemaErrorKind::FieldMissing { field: "f" }.with_path_index(0);
    assert_eq!(zero.to_string(), "#[0]: field 'f' missing\n");
}

#[test]
fn into_gives_empty_path() {
    let err: SchemaError = SchemaErrorKind::FieldMissing { field: "f" }.into();
    assert_eq!(err.state, Breadcrumb::default());
    assert_eq!(err.kind, SchemaErrorKind::FieldMissing { field: "f" });
}

#[test]
fn added_segment_extends_root() {
    // Adding `.outer` to the path writes as if the root were `#.outer`.
    let err = SchemaErrorKind::FieldMissing { field: "f" }.with_path_name("inner");
    let moved = SchemaError::add_path_name("outer")(
        SchemaErrorKind::FieldMissing { field: "f" }.with_path_name("inner"),
    );
    assert_eq!(moved.to_string(), err.to_string().replacen("#", "#.outer", 1));
}

#[test]
fn generic_errors_convert() {
    let generic = GenericError::Multiple {
        errors: vec![
            GenericError::WrongType { expected: "hash", actual: "array" },
            GenericError::Multiple { errors: vec![GenericError::FieldMissing { field: "a" }] },
            GenericError::ExtraField { field: "b" },
        ],
    };
    let converted = SchemaErrorKind::from(generic);
    assert_eq!(
        converted,
        SchemaErrorKind::Multiple {
            errors: vec![
                SchemaErrorKind::WrongType { expected: "hash", actual: "array" }.into(),
                SchemaErrorKind::Multiple {
                    errors: vec![SchemaErrorKind::FieldMissing { field: "a" }.into()]
                }
                .into(),
                SchemaErrorKind::ExtraField { field: "b" }.into(),
            ]
        }
    );
    let err = SchemaError::from(GenericError::FieldMissing { field: "c" });
    assert_eq!(err, SchemaErrorKind::FieldMissing { field: "c" }.into());
    assert_eq!(err.to_string(), "#: field 'c' missing\n");
}

#[test]
fn breadcrumb_text() {
    let mut crumb = Breadcrumb::new(vec![BreadcrumbSegment::Index(3)]);
    crumb.push(BreadcrumbSegment::Name("list"));
    assert_eq!(crumb.to_string(), ".list[3]");
    assert_eq!(Breadcrumb::empty().to_string(), "");
}

#[test]
fn group_text_is_concatenation() {
    let a = || SchemaErrorKind::FieldMissing { field: "a" }.with_path_index(0);
    let b = || SchemaErrorKind::ExtraField { field: "b" }.with_path_name("x");
    let group = SchemaError::from(vec![a(), b()]);
    assert_eq!(group.to_string(), a().to_string() + &b().to_string());
}

#[test]
fn with_path_name_matches_add_path_name() {
    let with_path = SchemaErrorKind::UnknownType { unknown_type: "t" }.with_path_name("n");
    let added = SchemaError::add_path_name("n")(SchemaErrorKind::UnknownType { unknown_type: "t" }.into());
    assert_eq!(with_path, added);
}

#[test]
fn multiple_kind_message_lists_errors() {
    let errors = vec![SchemaErrorKind::FieldMissing { field: "a" }.into()];
    let expected = format!("multiple errors were encountered: {:?}", errors);
    let kind = SchemaErrorKind::Multiple { errors };
    assert_eq!(kind.to_string(), expected);
    assert!(kind.to_string().starts_with("multiple errors were encountered: [SchemaError {"));
}

#[test]
fn conversion_paths_agree() {
    let generic = || GenericError::Multiple {
        errors: vec![
            GenericError::ExtraField { field: "x" },
            GenericError::Multiple { errors: vec![GenericError::WrongType { expected: "hash", actual: "string" }] },
        ],
    };
    let direct = SchemaError::from(generic());
    let through_kind = SchemaError::from(SchemaErrorKind::from(generic()));
    assert_eq!(direct, through_kind);
    assert_eq!(direct.to_string(), through_kind.to_string());
}

#[test]
fn root_starts_every_line() {
    let err = SchemaError::add_path_name("outer")(SchemaError::from(vec![
        SchemaErrorKind::FieldMissing { field: "a" }.with_path_index(0),
        SchemaErrorKind::FieldMissing { field: "b" }.with_path_index(1),
    ]));
    let text = err.to_string();
    let lines: Vec<&str> = text.lines().collect();
    assert_eq!(lines, vec!["#.outer[0]: field 'a' missing", "#.outer[1]: field 'b' missing"]);
    assert!(lines.iter().all(|line| line.starts_with('#')));
}

#[test]
fn debug_text_of_nested_errors() {
    let errors = vec![
        SchemaErrorKind::WrongType { expected: "hash", actual: "a \"quoted\" \u{e9}" }
            .with_path(vec![BreadcrumbSegment::Index(7), BreadcrumbSegment::Name("k")]),
        SchemaErrorKind::Multiple {
            errors: vec![
                SchemaErrorKind::MalformedField { error: "line\nbreak".to_string() }.into(),
                SchemaErrorKind::ValidationError { error: "pattern" }.with_path_name("p"),
            ],
        }
        .into(),
        SchemaErrorKind::Multiple { errors: vec![] }.into(),
    ];
    let expected = format!("multiple errors were encountered: {:?}", errors);
    assert_eq!(SchemaErrorKind::Multiple { errors }.to_string(), expected);
}
