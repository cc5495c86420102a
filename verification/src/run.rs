//! The order of a validation run, as a machine: it asks for the work to be done next
//! (reading files, building the schema context, finding the schema, validating a
//! document) and, told how that went, decides what follows, until it answers with the
//! run's result.
use vstd::prelude::*;
use vstd::string::*;
use crate::cli::{Error, Opt};
use crate::errors::schema::{SchemaError, error_text};

verus! {

/// Where a run stands.
#[derive(Debug, Clone, Copy, PartialEq, Eq, Structural)]
pub enum Stage {
    /// Nothing done yet.
    Start,
    /// Waiting for the schema files to be loaded.
    ReadingSchemas,
    /// Waiting for the context to be built from the schemas.
    BuildingContext,
    /// Waiting to learn whether the context holds the schema asked for.
    FindingSchema,
    /// Waiting for the files to be loaded.
    ReadingFiles,
    /// Waiting for the document at position `next` to be validated; `total` documents
    /// are to be validated.
    Validating { next: usize, total: usize },
    /// The result has been given.
    Finished,
}

/// What a run asks for next.
#[derive(Debug, PartialEq, Eq)]
pub enum Request {
    /// Load every schema file, in order.
    ReadSchemas,
    /// Build the schema context from the loaded schemas.
    BuildContext,
    /// Look the schema up by its uri in the context.
    FindSchema,
    /// Load every file to validate, in order.
    ReadFiles,
    /// Validate the document at this position against the schema.
    Validate(usize),
    /// The run is over, with this result.
    Exit(Result<(), Error>),
    /// Nothing more: the result has been given already.
    Stop,
}

/// How the work asked for went.
pub enum Outcome<'a> {
    /// The run is started.
    Begin,
    /// The files were loaded, giving this many documents in all, or these errors.
    Loaded(Result<usize, Vec<Error>>),
    /// The context was built, or could not be, for this reason.
    ContextBuilt(Result<(), SchemaError<'a>>),
    /// Whether the context holds the schema.
    SchemaFound(bool),
    /// The document validated, or did not, for this reason.
    Validated(Result<(), SchemaError<'a>>),
}

/// The message when no schema file is given.
pub open spec fn no_schemas_text() -> Seq<char> {
    "no schemas supplied, see the --schema option for information\n"@
}

/// The message when no file to validate is given.
pub open spec fn no_files_text() -> Seq<char> {
    "no files to validate were supplied, use --help for more information\n"@
}

/// The message when the context holds no schema with the uri asked for.
pub open spec fn unknown_uri_text(uri: Seq<char>) -> Seq<char> {
    "schema referenced by uri `"@ + uri + "` not found in context\n"@
}

/// The message when the file `name` does not validate, for the reason `e`.
pub open spec fn invalid_file_text<'a>(name: Seq<char>, e: SchemaError<'a>) -> Seq<char> {
    name + ":\n"@ + error_text(e, "#"@)
}

/// The number of documents validated, once `count` were loaded: each file is paired with
/// one document, in order, as long as both last.
pub open spec fn documents_to_validate(count: usize, files: nat) -> usize {
    if count <= files { count } else { files as usize }
}

/// Where a run goes from `stage`, with options `opt`, once told `outcome`. An outcome that
/// does not answer the stage's request leaves the stage as it is.
pub open spec fn next_stage<'a>(stage: Stage, opt: Opt, outcome: Outcome<'a>) -> Stage {
    match stage {
        Stage::Start => if opt.schemas@.len() == 0 || opt.files@.len() == 0 {
            Stage::Finished
        } else {
            Stage::ReadingSchemas
        },
        Stage::ReadingSchemas => match outcome {
            Outcome::Loaded(Ok(_)) => Stage::BuildingContext,
            Outcome::Loaded(Err(_)) => Stage::Finished,
            _ => stage,
        },
        Stage::BuildingContext => match outcome {
            Outcome::ContextBuilt(Ok(_)) => Stage::FindingSchema,
            Outcome::ContextBuilt(Err(_)) => Stage::Finished,
            _ => stage,
        },
        Stage::FindingSchema => match outcome {
            Outcome::SchemaFound(true) => Stage::ReadingFiles,
            Outcome::SchemaFound(false) => Stage::Finished,
            _ => stage,
        },
        Stage::ReadingFiles => match outcome {
            Outcome::Loaded(Ok(count)) => {
                let total = documents_to_validate(count, opt.files@.len());
                if total == 0 {
                    Stage::Finished
                } else {
                    Stage::Validating { next: 0, total }
                }
            },
            Outcome::Loaded(Err(_)) => Stage::Finished,
            _ => stage,
        },
        Stage::Validating { next, total } => match outcome {
            Outcome::Validated(Ok(_)) => if next + 1 == total {
                Stage::Finished
            } else {
                Stage::Validating { next: (next + 1) as usize, total }
            },
            Outcome::Validated(Err(_)) => Stage::Finished,
            _ => stage,
        },
        Stage::Finished => Stage::Finished,
    }
}

/// `request` is an exit with the error `Validation(message)`.
pub open spec fn exits_refused(request: Request, message: Seq<char>) -> bool {
    &&& request is Exit
    &&& request->Exit_0 is Err
    &&& request->Exit_0->Err_0 is Validation
    &&& request->Exit_0->Err_0->Validation_0@ == message
}

/// The request a stage waits on an answer to.
pub open spec fn pending(stage: Stage) -> Request {
    match stage {
        Stage::Start => Request::Stop,
        Stage::ReadingSchemas => Request::ReadSchemas,
        Stage::BuildingContext => Request::BuildContext,
        Stage::FindingSchema => Request::FindSchema,
        Stage::ReadingFiles => Request::ReadFiles,
        Stage::Validating { next, .. } => Request::Validate(next),
        Stage::Finished => Request::Stop,
    }
}

/// `request` is what a run at `stage`, with options `opt`, asks for once told `outcome`.
/// An outcome that does not answer the stage's request is answered with that request again.
pub open spec fn answers<'a>(stage: Stage, opt: Opt, outcome: Outcome<'a>, request: Request) -> bool {
    match stage {
        Stage::Start => if opt.schemas@.len() == 0 {
            exits_refused(request, no_schemas_text())
        } else if opt.files@.len() == 0 {
            exits_refused(request, no_files_text())
        } else {
            request == Request::ReadSchemas
        },
        Stage::ReadingSchemas => match outcome {
            Outcome::Loaded(Ok(_)) => request == Request::BuildContext,
            Outcome::Loaded(Err(errors)) => request == Request::Exit(
                Err(Error::Multiple(errors)),
            ),
            _ => request == pending(stage),
        },
        Stage::BuildingContext => match outcome {
            Outcome::ContextBuilt(Ok(_)) => request == Request::FindSchema,
            Outcome::ContextBuilt(Err(e)) => exits_refused(request, error_text(e, "#"@)),
            _ => request == pending(stage),
        },
        Stage::FindingSchema => match outcome {
            Outcome::SchemaFound(true) => request == Request::ReadFiles,
            Outcome::SchemaFound(false) => exits_refused(request, unknown_uri_text(opt.uri@)),
            _ => request == pending(stage),
        },
        Stage::ReadingFiles => match outcome {
            Outcome::Loaded(Ok(count)) => if documents_to_validate(count, opt.files@.len()) == 0 {
                request == Request::Exit(Ok(()))
            } else {
                request == Request::Validate(0)
            },
            Outcome::Loaded(Err(errors)) => request == Request::Exit(
                Err(Error::Multiple(errors)),
            ),
            _ => request == pending(stage),
        },
        Stage::Validating { next, total } => match outcome {
            Outcome::Validated(Ok(_)) => if next + 1 == total {
                request == Request::Exit(Ok(()))
            } else {
                request == Request::Validate((next + 1) as usize)
            },
            Outcome::Validated(Err(e)) => exits_refused(
                request,
                invalid_file_text(opt.files@[next as int]@, e),
            ),
            _ => request == pending(stage),
        },
        Stage::Finished => request == Request::Stop,
    }
}

/// The stage is one a run can be at with options `opt`: a document being validated is one
/// of those paired with a file.
pub open spec fn stage_fits(stage: Stage, opt: Opt) -> bool {
    match stage {
        Stage::Validating { next, total } => next < total && total <= opt.files@.len(),
        _ => true,
    }
}

/// `outcome` tells how the work that `stage` waits on went (any outcome starts a run).
pub open spec fn answers_pending<'a>(stage: Stage, outcome: Outcome<'a>) -> bool {
    match stage {
        Stage::Start => true,
        Stage::ReadingSchemas => outcome is Loaded,
        Stage::BuildingContext => outcome is ContextBuilt,
        Stage::FindingSchema => outcome is SchemaFound,
        Stage::ReadingFiles => outcome is Loaded,
        Stage::Validating { .. } => outcome is Validated,
        Stage::Finished => false,
    }
}

/// An upper bound on the number of steps left before a run gives its result.
pub open spec fn steps_left(stage: Stage, opt: Opt) -> nat {
    let files = opt.files@.len();
    match stage {
        Stage::Start => files + 6,
        Stage::ReadingSchemas => files + 5,
        Stage::BuildingContext => files + 4,
        Stage::FindingSchema => files + 3,
        Stage::ReadingFiles => files + 2,
        Stage::Validating { next, total } => (total - next) as nat,
        Stage::Finished => 0,
    }
}

/// A validation run with its options.
pub struct Run {
    opt: Opt,
    stage: Stage,
}

impl Run {
    /// A document being validated is one of those paired with a file.
    #[verifier::type_invariant]
    spec fn well_formed(self) -> bool {
        match self.stage {
            Stage::Validating { next, total } => next < total && total <= self.opt.files@.len(),
            _ => true,
        }
    }

    /// The options of the run.
    pub closed spec fn inputs(self) -> Opt {
        self.opt
    }

    /// Where the run stands.
    pub closed spec fn at(self) -> Stage {
        self.stage
    }

    /// A run with these options, not started.
    pub fn new(opt: Opt) -> (run: Run)
        ensures
            run.inputs() == opt,
            run.at() == Stage::Start,
    {
        Run { opt, stage: Stage::Start }
    }

    /// The options of the run.
    pub fn options(&self) -> (opt: &Opt)
        ensures
            *opt == self.inputs(),
    {
        &self.opt
    }

    /// Where the run stands.
    pub fn stage(&self) -> (stage: Stage)
        ensures
            stage == self.at(),
            stage_fits(stage, self.inputs()),
    {
        proof {
            use_type_invariant(self);
        }
        self.stage
    }

    /// Takes in how the last request went, and says what to do next.
    pub fn step<'a>(&mut self, outcome: Outcome<'a>) -> (request: Request)
        ensures
            final(self).inputs() == old(self).inputs(),
            final(self).at() == next_stage(old(self).at(), old(self).inputs(), outcome),
            answers(old(self).at(), old(self).inputs(), outcome, request),
            request matches Request::Validate(i) ==> i < old(self).inputs().files@.len(),
            stage_fits(final(self).at(), final(self).inputs()),
    {
        proof {
            use_type_invariant(&*self);
        }
        match self.stage {
            Stage::Start => {
                if self.opt.schemas.len() == 0 {
                    self.stage = Stage::Finished;
                    Request::Exit(Err(Error::Validation(String::from_str(
                        "no schemas supplied, see the --schema option for information\n",
                    ))))
                } else if self.opt.files.len() == 0 {
                    self.stage = Stage::Finished;
                    Request::Exit(Err(Error::Validation(String::from_str(
                        "no files to validate were supplied, use --help for more information\n",
                    ))))
                } else {
                    self.stage = Stage::ReadingSchemas;
                    Request::ReadSchemas
                }
            },
            Stage::ReadingSchemas => match outcome {
                Outcome::Loaded(Ok(_)) => {
                    self.stage = Stage::BuildingContext;
                    Request::BuildContext
                },
                Outcome::Loaded(Err(errors)) => {
                    self.stage = Stage::Finished;
                    Request::Exit(Err(Error::Multiple(errors)))
                },
                _ => Request::ReadSchemas,
            },
            Stage::BuildingContext => match outcome {
                Outcome::ContextBuilt(Ok(_)) => {
                    self.stage = Stage::FindingSchema;
                    Request::FindSchema
                },
                Outcome::ContextBuilt(Err(e)) => {
                    self.stage = Stage::Finished;
                    Request::Exit(Err(Error::from_schema_error(&e)))
                },
                _ => Request::BuildContext,
            },
            Stage::FindingSchema => match outcome {
                Outcome::SchemaFound(true) => {
                    self.stage = Stage::ReadingFiles;
                    Request::ReadFiles
                },
                Outcome::SchemaFound(false) => {
                    self.stage = Stage::Finished;
                    let mut message = String::from_str("schema referenced by uri `");
                    message.append(self.opt.uri.as_str());
                    message.append("` not found in context\n");
                    Request::Exit(Err(Error::Validation(message)))
                },
                _ => Request::FindSchema,
            },
            Stage::ReadingFiles => match outcome {
                Outcome::Loaded(Ok(count)) => {
                    let files = self.opt.files.len();
                    let total = if count <= files { count } else { files };
                    if total == 0 {
                        self.stage = Stage::Finished;
                        Request::Exit(Ok(()))
                    } else {
                        self.stage = Stage::Validating { next: 0, total };
                        Request::Validate(0)
                    }
                },
                Outcome::Loaded(Err(errors)) => {
                    self.stage = Stage::Finished;
                    Request::Exit(Err(Error::Multiple(errors)))
                },
                _ => Request::ReadFiles,
            },
            Stage::Validating { next, total } => match outcome {
                Outcome::Validated(Ok(_)) => {
                    if next + 1 == total {
                        self.stage = Stage::Finished;
                        Request::Exit(Ok(()))
                    } else {
                        self.stage = Stage::Validating { next: next + 1, total };
                        Request::Validate(next + 1)
                    }
                },
                Outcome::Validated(Err(e)) => {
                    let mut message = String::from_str(self.opt.files[next].as_str());
                    message.append(":\n");
                    let text = e.to_string();
                    message.append(text.as_str());
                    self.stage = Stage::Finished;
                    Request::Exit(Err(Error::Validation(message)))
                },
                _ => Request::Validate(next),
            },
            Stage::Finished => Request::Stop,
        }
    }
}

/// A run that is told how each piece of work it asked for went ends: every such step brings
/// it strictly closer to its result, and keeps its stage one it can be at. So a run ends
/// after at most the number of files plus six steps.
pub proof fn lemma_run_progresses<'a>(stage: Stage, opt: Opt, outcome: Outcome<'a>)
    requires
        stage_fits(stage, opt),
        answers_pending(stage, outcome),
    ensures
        steps_left(next_stage(stage, opt, outcome), opt) < steps_left(stage, opt),
        stage_fits(next_stage(stage, opt, outcome), opt),
{
}

/// Once the files are loaded and hold `count` documents, the run validates one document
/// for each file as long as both last: when there is at least one document and one file it
/// asks to validate position 0 and will validate positions 0 up to the smaller of the number
/// of documents and the number of files; only when there is no document or no file does it
/// succeed without validating anything.
pub proof fn lemma_files_pair_with_documents(opt: Opt, count: usize, request: Request)
    requires
        answers(Stage::ReadingFiles, opt, Outcome::Loaded(Ok(count)), request),
    ensures
        (count > 0 && opt.files@.len() > 0) ==> {
            let after = next_stage(Stage::ReadingFiles, opt, Outcome::<'static>::Loaded(Ok(count)));
            &&& request == Request::Validate(0)
            &&& after is Validating
            &&& after->next == 0
            &&& after->total <= count
            &&& after->total <= opt.files@.len()
            &&& (after->total == count || after->total == opt.files@.len())
        },
        (count == 0 || opt.files@.len() == 0) ==> {
            &&& request == Request::Exit(Ok(()))
            &&& next_stage(Stage::ReadingFiles, opt, Outcome::<'static>::Loaded(Ok(count)))
                == Stage::Finished
        },
{
}

/// Each document that validates moves the run on to the next position, until the last of
/// the `total` positions, after which the run succeeds.
pub proof fn lemma_validation_walks_positions(opt: Opt, next: usize, total: usize, request: Request)
    requires
        stage_fits(Stage::Validating { next, total }, opt),
        answers(Stage::Validating { next, total }, opt, Outcome::Validated(Ok(())), request),
    ensures
        next + 1 < total ==> request == Request::Validate((next + 1) as usize)
            && next_stage(Stage::Validating { next, total }, opt, Outcome::<'static>::Validated(Ok(())))
            == (Stage::Validating { next: (next + 1) as usize, total }),
        next + 1 == total ==> request == Request::Exit(Ok(()))
            && next_stage(Stage::Validating { next, total }, opt, Outcome::<'static>::Validated(Ok(())))
            == Stage::Finished,
{
}

/// A finished run stays finished, and asks for nothing more.
pub proof fn lemma_finished_stays<'a>(opt: Opt, outcome: Outcome<'a>, request: Request)
    requires
        answers(Stage::Finished, opt, outcome, request),
    ensures
        next_stage(Stage::Finished, opt, outcome) == Stage::Finished,
        request == Request::Stop,
{
}

/// A run succeeds only once every document paired with a file has validated: the last step
/// of a successful run is the validation of the last such document, or the loading of files
/// that hold no document.
pub proof fn lemma_success_needs_every_document<'a>(
    stage: Stage,
    opt: Opt,
    outcome: Outcome<'a>,
    request: Request,
)
    requires
        stage_fits(stage, opt),
        answers(stage, opt, outcome, request),
        request == Request::Exit(Ok(())),
    ensures
        ({
            ||| (stage matches Stage::Validating { next, total } && next + 1 == total
                && outcome is Validated && outcome->Validated_0 is Ok)
            ||| (stage == Stage::ReadingFiles && (outcome matches Outcome::Loaded(Ok(count))
                && documents_to_validate(count, opt.files@.len()) == 0))
        }),
{
}

/// A run that is told of a failure gives its result at once, as an error.
pub proof fn lemma_failure_ends_run<'a>(stage: Stage, opt: Opt, outcome: Outcome<'a>, request: Request)
    requires
        answers_pending(stage, outcome),
        stage != Stage::Start,
        answers(stage, opt, outcome, request),
        outcome matches Outcome::Loaded(Err(_)) || outcome matches Outcome::ContextBuilt(Err(_))
            || outcome matches Outcome::SchemaFound(false) || outcome matches Outcome::Validated(
            Err(_),
        ),
    ensures
        next_stage(stage, opt, outcome) == Stage::Finished,
        request is Exit,
        request->Exit_0 is Err,
{
}

} // verus!
