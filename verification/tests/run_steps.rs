use yaml_validator_cli::{Error, Opt, Outcome, Request, Run, SchemaErrorKind, Stage};

fn opt(files: usize) -> Opt {
    Opt {
        schemas: vec!["s.yaml".into()],
        uri: "u".into(),
        files: (0..files).map(|i| format!("f{}.yaml", i)).collect(),
    }
}

fn to_files(run: &mut Run) {
    assert_eq!(run.step(Outcome::Begin), Request::ReadSchemas);
    assert_eq!(run.step(Outcome::Loaded(Ok(1))), Request::BuildContext);
    assert_eq!(run.step(Outcome::ContextBuilt(Ok(()))), Request::FindSchema);
    assert_eq!(run.step(Outcome::SchemaFound(true)), Request::ReadFiles);
}

#[test]
fn unexpected_outcome_repeats_request() {
    let mut run = Run::new(opt(1));
    assert_eq!(run.step(Outcome::Begin), Request::ReadSchemas);
    assert_eq!(run.step(Outcome::SchemaFound(true)), Request::ReadSchemas);
    assert_eq!(run.stage(), Stage::ReadingSchemas);
}

#[test]
fn documents_pair_with_files() {
    // Two files holding three documents: only two are validated.
    let mut run = Run::new(opt(2));
    to_files(&mut run);
    assert_eq!(run.step(Outcome::Loaded(Ok(3))), Request::Validate(0));
    assert_eq!(run.step(Outcome::Validated(Ok(()))), Request::Validate(1));
    assert_eq!(run.step(Outcome::Validated(Ok(()))), Request::Exit(Ok(())));
    assert_eq!(run.stage(), Stage::Finished);
    assert_eq!(run.step(Outcome::Validated(Ok(()))), Request::Stop);
}

#[test]
fn files_without_documents_succeed() {
    let mut run = Run::new(opt(2));
    to_files(&mut run);
    assert_eq!(run.step(Outcome::Loaded(Ok(0))), Request::Exit(Ok(())));
}

#[test]
fn invalid_document_names_its_file() {
    let mut run = Run::new(opt(3));
    to_files(&mut run);
    assert_eq!(run.step(Outcome::Loaded(Ok(3))), Request::Validate(0));
    assert_eq!(run.step(Outcome::Validated(Ok(()))), Request::Validate(1));
    let err = SchemaErrorKind::ExtraField { field: "k" }.with_path_index(0);
    assert_eq!(
        run.step(Outcome::Validated(Err(err))),
        Request::Exit(Err(Error::Validation(
            "f1.yaml:\n#[0]: field 'k' is not specified in the schema\n".into()
        )))
    );
}

#[test]
fn run_ends_within_bound() {
    // Answering every request as asked ends the run within files + 6 steps.
    let files = 4;
    let mut run = Run::new(opt(files));
    let mut outcome = Outcome::Begin;
    let mut steps = 0;
    loop {
        steps += 1;
        assert!(steps <= files + 6);
        outcome = match run.step(outcome) {
            Request::ReadSchemas => Outcome::Loaded(Ok(1)),
            Request::BuildContext => Outcome::ContextBuilt(Ok(())),
            Request::FindSchema => Outcome::SchemaFound(true),
            Request::ReadFiles => Outcome::Loaded(Ok(files)),
            Request::Validate(_) => Outcome::Validated(Ok(())),
            Request::Exit(result) => {
                assert_eq!(result, Ok(()));
                break;
            },
            Request::Stop => panic!("stopped before exit"),
        };
    }
}
