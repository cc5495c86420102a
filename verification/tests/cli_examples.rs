// End-to-end runs of the command-line front end. The schema and document files these runs
// name are not read here: what reading them gives (their text, or why they could not be
// read) and what the schema engine answers are handed to the run, as the program that
// drives it would hand them over.
use yaml_validator_cli::{
    collect_documents, load_source, Error, Opt, Outcome, Request, Run, SchemaError,
    SchemaErrorKind,
};

/// What the outside world answers during a run.
struct World {
    schema_sources: Vec<Result<Vec<u8>, String>>,
    context: Result<(), SchemaError<'static>>,
    schema_found: bool,
    file_sources: Vec<Result<Vec<u8>, String>>,
    validations: Vec<Result<(), SchemaError<'static>>>,
}

fn load(names: &[String], sources: Vec<Result<Vec<u8>, String>>) -> Outcome<'static> {
    let loaded = names
        .iter()
        .zip(sources)
        .map(|(name, source)| load_source(name, source))
        .collect();
    Outcome::Loaded(collect_documents(loaded).map(|docs| docs.len()))
}

fn actual_main(opt: Opt, world: World) -> Result<(), Error> {
    let schemas = opt.schemas.clone();
    let files = opt.files.clone();
    let mut run = Run::new(opt);
    let World { schema_sources, context, schema_found, file_sources, validations } = world;
    let mut schema_sources = Some(schema_sources);
    let mut context = Some(context);
    let mut file_sources = Some(file_sources);
    let mut validations = validations.into_iter();
    let mut outcome = Outcome::Begin;
    loop {
        match run.step(outcome) {
            Request::ReadSchemas => outcome = load(&schemas, schema_sources.take().unwrap()),
            Request::BuildContext => outcome = Outcome::ContextBuilt(context.take().unwrap()),
            Request::FindSchema => outcome = Outcome::SchemaFound(schema_found),
            Request::ReadFiles => outcome = load(&files, file_sources.take().unwrap()),
            Request::Validate(_) => outcome = Outcome::Validated(validations.next().unwrap()),
            Request::Exit(result) => return result,
            Request::Stop => panic!("the run had already ended"),
        }
    }
}

fn opt(schemas: &[&str], files: &[&str], uri: &str) -> Opt {
    Opt {
        schemas: schemas.iter().map(|s| s.to_string()).collect(),
        files: files.iter().map(|s| s.to_string()).collect(),
        uri: uri.to_string(),
    }
}

fn yaml(text: &str) -> Result<Vec<u8>, String> {
    Ok(text.as_bytes().to_vec())
}

fn not_found() -> Result<Vec<u8>, String> {
    Err("No such file or directory (os error 2)".to_string())
}

fn all_valid(schemas: usize, files: usize) -> World {
    World {
        schema_sources: (0..schemas).map(|_| yaml("uri: schema\nschema:\n  type: object\n")).collect(),
        context: Ok(()),
        schema_found: true,
        file_sources: (0..files).map(|_| yaml("name: someone\nage: 20\n")).collect(),
        validations: (0..files).map(|_| Ok(())).collect(),
    }
}

fn all_types_example() {
    actual_main(
        opt(&["../examples/all-types/schema.yaml"], &["../examples/all-types/customers.yaml"], "customer-list"),
        all_valid(1, 1),
    )
    .unwrap();
}

fn multiple_schemas_example() {
    actual_main(
        opt(
            &[
                "../examples/multiple-schemas/person-schema.yaml",
                "../examples/multiple-schemas/phonebook-schema.yaml",
            ],
            &["../examples/multiple-schemas/mybook.yaml"],
            "phonebook",
        ),
        all_valid(2, 1),
    )
    .unwrap();
}

fn nesting_example() {
    actual_main(
        opt(&["../examples/nesting/schema.yaml"], &["../examples/nesting/mybook.yaml"], "phonebook"),
        all_valid(1, 1),
    )
    .unwrap();
}

fn locating_errors_example() {
    let at = |kind: SchemaErrorKind<'static>, index: usize, field: &'static str| {
        SchemaError::add_path_index(index)(kind.with_path_name(field))
    };
    let errors = SchemaError::from(vec![
        at(SchemaErrorKind::WrongType { expected: "integer", actual: "real" }, 1, "age"),
        at(SchemaErrorKind::WrongType { expected: "integer", actual: "string" }, 2, "age"),
        at(SchemaErrorKind::WrongType { expected: "string", actual: "integer" }, 2, "name"),
    ]);
    let mut world = all_valid(1, 1);
    world.validations = vec![Err(errors)];
    assert_eq!(
        actual_main(
            opt(
                &["../examples/locating-errors/schema.yaml"],
                &["../examples/locating-errors/phonebook.yaml"],
                "phonebook",
            ),
            world,
        )
        .unwrap_err(),
        Error::Validation(
            "../examples/locating-errors/phonebook.yaml:
#[1].age: wrong type, expected integer got real
#[2].age: wrong type, expected integer got string
#[2].name: wrong type, expected string got integer
"
            .into()
        )
    );
}

fn branching_examples() {
    let password = SchemaError::add_path_index(2)(
        SchemaErrorKind::ValidationError {
            error: "supplied value does not match regex pattern for field",
        }
        .with_path_name("password"),
    );
    let mut world = all_valid(1, 1);
    world.validations = vec![Err(SchemaError::from(vec![password]))];
    assert_eq!(
        actual_main(
            opt(&["../examples/branching/schema.yaml"], &["../examples/branching/usernames.yaml"], "user-list"),
            world,
        )
        .unwrap_err(),
        Error::Validation(
            "../examples/branching/usernames.yaml:
#[2].password: special requirements for field not met: supplied value does not match regex pattern for field
"
            .into()
        )
    );
}

fn non_existent_schema_file() {
    let mut world = all_valid(0, 1);
    world.schema_sources = vec![not_found()];
    assert_eq!(
        actual_main(opt(&["not_found.yaml"], &[""], ""), world).unwrap_err(),
        Error::Multiple(vec![Error::File(
            "could not read file not_found.yaml: No such file or directory (os error 2)\n".into()
        )])
    );
}

fn non_existent_file() {
    let mut world = all_valid(1, 0);
    world.file_sources = vec![not_found()];
    assert_eq!(
        actual_main(opt(&["../examples/nesting/schema.yaml"], &["not_found.yaml"], "person"), world)
            .unwrap_err(),
        Error::Multiple(vec![Error::File(
            "could not read file not_found.yaml: No such file or directory (os error 2)\n".into()
        )])
    );
}

fn unknown_schema_uri() {
    let mut world = all_valid(1, 1);
    world.schema_found = false;
    assert_eq!(
        actual_main(
            opt(&["../examples/nesting/schema.yaml"], &["../examples/nesting/mybook.yaml"], "not-found"),
            world,
        )
        .unwrap_err(),
        Error::Validation("schema referenced by uri `not-found` not found in context\n".into())
    );
}

#[test]
fn lib_test_all_types_example() {
    all_types_example();
}

#[test]
fn lib_test_multiple_schemas_example() {
    multiple_schemas_example();
}

#[test]
fn lib_test_nesting_example() {
    nesting_example();
}

#[test]
fn lib_test_locating_errors_example() {
    locating_errors_example();
}

#[test]
fn lib_test_branching_examples() {
    branching_examples();
}

#[test]
fn examples_test_branching_examples() {
    branching_examples();
}

#[test]
fn lib_test_non_existent_schema_file() {
    non_existent_schema_file();
}

#[test]
fn lib_test_non_existent_file() {
    non_existent_file();
}

#[test]
fn lib_test_unknown_schema_uri() {
    unknown_schema_uri();
}

#[test]
fn examples_test_all_types_example() {
    all_types_example();
}

#[test]
fn examples_test_multiple_schemas_example() {
    multiple_schemas_example();
}

#[test]
fn examples_test_nesting_example() {
    nesting_example();
}

#[test]
fn examples_test_locating_errors_example() {
    locating_errors_example();
}

#[test]
fn examples_test_non_existent_schema_file() {
    non_existent_schema_file();
}

#[test]
fn examples_test_non_existent_file() {
    non_existent_file();
}

#[test]
fn examples_test_unknown_schema_uri() {
    unknown_schema_uri();
}

#[test]
fn no_schemas_supplied() {
    assert_eq!(
        actual_main(opt(&[], &["a.yaml"], "x"), all_valid(0, 1)).unwrap_err(),
        Error::Validation("no schemas supplied, see the --schema option for information\n".into())
    );
}

#[test]
fn no_files_supplied() {
    assert_eq!(
        actual_main(opt(&["s.yaml"], &[], "x"), all_valid(1, 0)).unwrap_err(),
        Error::Validation(
            "no files to validate were supplied, use --help for more information\n".into()
        )
    );
}

#[test]
fn schema_context_refused() {
    let mut world = all_valid(1, 1);
    world.context = Err(SchemaErrorKind::FieldMissing { field: "type" }.with_path_name("items"));
    assert_eq!(
        actual_main(opt(&["s.yaml"], &["d.yaml"], "x"), world).unwrap_err(),
        Error::Validation("#.items: field 'type' missing\n".into())
    );
}

#[test]
fn first_invalid_document_ends_run() {
    let mut world = all_valid(1, 3);
    world.validations = vec![
        Ok(()),
        Err(SchemaErrorKind::UnknownType { unknown_type: "blob" }.into()),
        Err(SchemaErrorKind::UnknownType { unknown_type: "never reached" }.into()),
    ];
    assert_eq!(
        actual_main(opt(&["s.yaml"], &["a.yaml", "b.yaml", "c.yaml"], "x"), world).unwrap_err(),
        Error::Validation("b.yaml:\n#: unknown type specified: blob\n".into())
    );
}

#[test]
fn unreadable_yaml_in_files() {
    let mut world = all_valid(1, 2);
    world.file_sources = vec![yaml("a: 1\n"), yaml("a: [1, 2\n"), not_found()];
    let result = actual_main(opt(&["s.yaml"], &["a.yaml", "b.yaml", "c.yaml"], "x"), world);
    match result {
        Err(Error::Multiple(errors)) => {
            assert_eq!(errors.len(), 2);
            assert!(matches!(&errors[0], Error::Yaml(message) if message.contains("at line")));
            assert_eq!(
                errors[1],
                Error::File(
                    "could not read file c.yaml: No such file or directory (os error 2)\n".into()
                )
            );
        },
        other => panic!("unexpected result {:?}", other),
    }
}
