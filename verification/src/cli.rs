//! The command-line front end: its options, its errors, and how it gathers the documents
//! it reads.
use vstd::prelude::*;
use vstd::string::*;
use yaml_rust::Yaml;
use crate::errors::schema::{SchemaError, error_text};
use crate::text::{decode_lossy, lossy_decoding};
use crate::yaml::{load_from_str, yaml_load};

verus! {

/// What to validate: the schema files that make up the context, the uri of the schema to
/// check against, and the files to check.
#[derive(Debug, PartialEq, Eq)]
pub struct Opt {
    pub schemas: Vec<String>,
    pub uri: String,
    pub files: Vec<String>,
}

/// Why a run failed.
#[derive(Debug, PartialEq, Eq)]
pub enum Error {
    /// A file could not be read.
    File(String),
    /// A file could not be read as YAML.
    Yaml(String),
    /// The inputs were refused, or a document or the schemas did not validate.
    Validation(String),
    /// Several files could not be loaded.
    Multiple(Vec<Error>),
}

/// The text of an error: the message it holds, or, for several, their texts one after
/// the other.
pub open spec fn error_message(e: Error) -> Seq<char>
    decreases e, 1nat,
{
    match e {
        Error::File(s) => s@,
        Error::Yaml(s) => s@,
        Error::Validation(s) => s@,
        Error::Multiple(errors) => error_messages(errors@),
    }
}

/// The texts of several errors, one after the other.
pub open spec fn error_messages(errors: Seq<Error>) -> Seq<char>
    decreases errors, 0nat,
{
    if errors.len() == 0 {
        Seq::empty()
    } else {
        error_messages(errors.drop_last()) + error_message(errors.last())
    }
}

/// Every error's text carries the message it holds: the text of a file, YAML or
/// validation error is its message, unchanged (so it is empty only when the message is);
/// the text of several errors is the texts of the first ones followed by those of the
/// others, and a single held error writes its own text.
pub proof fn lemma_error_text_carries_message(e: Error, first: Seq<Error>, second: Seq<Error>)
    ensures
        e matches Error::File(s) ==> error_message(e) == s@,
        e matches Error::Yaml(s) ==> error_message(e) == s@,
        e matches Error::Validation(s) ==> error_message(e) == s@,
        e matches Error::Multiple(errors) ==> error_message(e) == error_messages(errors@),
        error_messages(seq![e]) == error_message(e),
        error_messages(first + second) == error_messages(first) + error_messages(second),
    decreases second.len(),
{
    let single = seq![e];
    assert(single.drop_last() =~= Seq::<Error>::empty());
    assert(single.last() == e);
    assert(error_messages(single) == error_messages(single.drop_last()) + error_message(e));
    assert(Seq::<char>::empty() + error_message(e) =~= error_message(e));
    if second.len() == 0 {
        assert(first + second =~= first);
        assert(error_messages(first) + Seq::<char>::empty() =~= error_messages(first));
    } else {
        assert((first + second).drop_last() =~= first + second.drop_last());
        assert((first + second).last() == second.last());
        lemma_error_text_carries_message(e, first, second.drop_last());
        assert(error_messages(first) + error_messages(second.drop_last()) + error_message(
            second.last(),
        ) =~= error_messages(first) + (error_messages(second.drop_last()) + error_message(
            second.last(),
        )));
    }
}

impl Error {
    /// Appends the text of this error to `out`.
    fn write_to(&self, out: &mut String)
        ensures
            final(out)@ == old(out)@ + error_message(*self),
        decreases self,
    {
        match self {
            Error::File(s) => out.append(s.as_str()),
            Error::Yaml(s) => out.append(s.as_str()),
            Error::Validation(s) => out.append(s.as_str()),
            Error::Multiple(errors) => {
                let ghost start = out@;
                let mut i: usize = 0;
                while i < errors.len()
                    invariant
                        i <= errors.len(),
                        *self == Error::Multiple(*errors),
                        out@ == start + error_messages(errors@.take(i as int)),
                    decreases errors.len() - i,
                {
                    proof {
                        assert(decreases_to!(*self => (*self)->Multiple_0));
                        vstd::std_specs::vec::axiom_vec_index_decreases(*errors, i as int);
                    }
                    errors[i].write_to(out);
                    proof {
                        let next = errors@.take(i + 1);
                        assert(next.drop_last() == errors@.take(i as int));
                        assert(next.last() == errors@[i as int]);
                    }
                    i = i + 1;
                }
                proof {
                    assert(errors@.take(errors.len() as int) == errors@);
                }
            },
        }
    }

    /// The text of this error.
    pub fn to_string(&self) -> (s: String)
        ensures
            s@ == error_message(*self),
    {
        let mut s = String::new();
        self.write_to(&mut s);
        s
    }

    /// The error that a schema error found while building the context or validating
    /// becomes: its text, each path written after `#`.
    pub fn from_schema_error(e: &SchemaError) -> (r: Error)
        ensures
            r is Validation,
            r->Validation_0@ == error_text(*e, "#"@),
    {
        Error::Validation(e.to_string())
    }
}

/// The message for a file that could not be read, given why.
pub open spec fn read_failure_text(name: Seq<char>, reason: Seq<char>) -> Seq<char> {
    "could not read file "@ + name + ": "@ + reason + "\n"@
}

/// The error for the file `name` that could not be read, given why.
pub fn read_failure(name: &str, reason: &str) -> (e: Error)
    ensures
        e is File,
        e->File_0@ == read_failure_text(name@, reason@),
{
    let mut s = String::from_str("could not read file ");
    s.append(name);
    s.append(": ");
    s.append(reason);
    s.append("\n");
    Error::File(s)
}

/// The documents of the file `name`, given what reading it gave: its bytes, decoded as
/// UTF-8 with invalid sequences replaced, or why it could not be read.
pub fn load_source(name: &str, contents: Result<Vec<u8>, String>) -> (r: Result<Vec<Yaml>, Error>)
    ensures
        match contents {
            Err(reason) => r matches Err(e) && e is File && e->File_0@ == read_failure_text(
                name@,
                reason@,
            ),
            Ok(bytes) => match yaml_load(lossy_decoding(bytes@)) {
                Ok(docs) => r matches Ok(found) && found@ == docs,
                Err(message) => r matches Err(e) && e is Yaml && e->Yaml_0@ == message,
            },
        },
{
    match contents {
        Err(reason) => Err(read_failure(name, reason.as_str())),
        Ok(bytes) => match load_from_str(decode_lossy(bytes.as_slice()).as_str()) {
            Ok(docs) => Ok(docs),
            Err(message) => Err(Error::Yaml(message)),
        },
    }
}

/// The errors among the outcomes of loading several files, in order.
pub open spec fn load_failures<T>(loaded: Seq<Result<Vec<T>, Error>>) -> Seq<Error>
    decreases loaded.len(),
{
    if loaded.len() == 0 {
        Seq::empty()
    } else {
        let earlier = load_failures(loaded.drop_last());
        match loaded.last() {
            Ok(_) => earlier,
            Err(e) => earlier.push(e),
        }
    }
}

/// The documents among the outcomes of loading several files, in order.
pub open spec fn loaded_documents<T>(loaded: Seq<Result<Vec<T>, Error>>) -> Seq<T>
    decreases loaded.len(),
{
    if loaded.len() == 0 {
        Seq::empty()
    } else {
        let earlier = loaded_documents(loaded.drop_last());
        match loaded.last() {
            Ok(docs) => earlier + docs@,
            Err(_) => earlier,
        }
    }
}

/// The errors of the outcomes are those of each part, in order: the errors of the outcomes
/// of two groups of files, one after the other, are the errors of the first group followed
/// by those of the second; a file that loaded contributes no error, and a file that failed
/// contributes exactly its error.
pub proof fn lemma_failures_are_the_errors<T>(
    first: Seq<Result<Vec<T>, Error>>,
    second: Seq<Result<Vec<T>, Error>>,
    docs: Vec<T>,
    e: Error,
)
    ensures
        load_failures(first + second) == load_failures(first) + load_failures(second),
        load_failures(seq![Ok::<Vec<T>, Error>(docs)]) == Seq::<Error>::empty(),
        load_failures(seq![Err::<Vec<T>, Error>(e)]) == seq![e],
        (load_failures(first).len() == 0) == (forall|i: int| 0 <= i < first.len() ==> #[trigger] first[i] is Ok),
    decreases second.len(),
{
    if second.len() == 0 {
        assert(first + second =~= first);
    } else {
        assert((first + second).drop_last() =~= first + second.drop_last());
        assert((first + second).last() == second.last());
        lemma_failures_are_the_errors(first, second.drop_last(), docs, e);
    }
    let loaded = seq![Ok::<Vec<T>, Error>(docs)];
    let failed = seq![Err::<Vec<T>, Error>(e)];
    let none = Seq::<Result<Vec<T>, Error>>::empty();
    assert(loaded.drop_last() =~= none);
    assert(failed.drop_last() =~= none);
    assert(load_failures(none) == Seq::<Error>::empty());
    assert(loaded.last() == Ok::<Vec<T>, Error>(docs));
    assert(failed.last() == Err::<Vec<T>, Error>(e));
    assert(load_failures(loaded) == load_failures(none));
    assert(load_failures(failed) == load_failures(none).push(e));
    assert(Seq::<Error>::empty().push(e) =~= seq![e]);
    lemma_no_failures_all_loaded(first);
}

/// There is no error among the outcomes exactly when every file loaded.
proof fn lemma_no_failures_all_loaded<T>(loaded: Seq<Result<Vec<T>, Error>>)
    ensures
        (load_failures(loaded).len() == 0) == (forall|i: int| 0 <= i < loaded.len() ==> #[trigger] loaded[i] is Ok),
    decreases loaded.len(),
{
    if loaded.len() > 0 {
        lemma_no_failures_all_loaded(loaded.drop_last());
        let rest = loaded.drop_last();
        if load_failures(loaded).len() == 0 {
            assert(loaded.last() is Ok);
            assert forall|i: int| 0 <= i < loaded.len() implies #[trigger] loaded[i] is Ok by {
                if i < rest.len() {
                    assert(loaded[i] == rest[i]);
                }
            }
        } else if loaded.last() is Ok {
            let i = choose|i: int| 0 <= i < rest.len() && !(#[trigger] rest[i] is Ok);
            assert(loaded[i] == rest[i]);
        }
    }
}

/// The documents of the outcomes are those of each part, in order: the documents of two
/// groups of files are the documents of the first group followed by those of the second; a
/// file that loaded contributes exactly its documents, and a file that failed none.
pub proof fn lemma_documents_are_in_order<T>(
    first: Seq<Result<Vec<T>, Error>>,
    second: Seq<Result<Vec<T>, Error>>,
    docs: Vec<T>,
    e: Error,
)
    ensures
        loaded_documents(first + second) == loaded_documents(first) + loaded_documents(second),
        loaded_documents(seq![Ok::<Vec<T>, Error>(docs)]) == docs@,
        loaded_documents(seq![Err::<Vec<T>, Error>(e)]) == Seq::<T>::empty(),
    decreases second.len(),
{
    if second.len() == 0 {
        assert(first + second =~= first);
        assert(loaded_documents(first) + Seq::<T>::empty() =~= loaded_documents(first));
    } else {
        assert((first + second).drop_last() =~= first + second.drop_last());
        assert((first + second).last() == second.last());
        lemma_documents_are_in_order(first, second.drop_last(), docs, e);
        assert(loaded_documents(first) + loaded_documents(second.drop_last()) + match second.last() {
            Ok(d) => d@,
            Err(_) => Seq::<T>::empty(),
        } =~= loaded_documents(first) + (loaded_documents(second.drop_last()) + match second.last() {
            Ok(d) => d@,
            Err(_) => Seq::<T>::empty(),
        }));
    }
    let loaded = seq![Ok::<Vec<T>, Error>(docs)];
    let failed = seq![Err::<Vec<T>, Error>(e)];
    let none = Seq::<Result<Vec<T>, Error>>::empty();
    assert(loaded.drop_last() =~= none);
    assert(failed.drop_last() =~= none);
    assert(loaded_documents(none) == Seq::<T>::empty());
    assert(loaded.last() == Ok::<Vec<T>, Error>(docs));
    assert(failed.last() == Err::<Vec<T>, Error>(e));
    assert(loaded_documents(loaded) == loaded_documents(none) + docs@);
    assert(loaded_documents(failed) == loaded_documents(none));
    assert(Seq::<T>::empty() + docs@ =~= docs@);
}

/// Gathers what loading several files gave: all their documents in order if every file
/// loaded, else every error, in order.
pub fn collect_documents<T>(loaded: Vec<Result<Vec<T>, Error>>) -> (r: Result<Vec<T>, Vec<Error>>)
    ensures
        load_failures(loaded@).len() == 0 ==> (r matches Ok(docs) && docs@ == loaded_documents(
            loaded@,
        )),
        load_failures(loaded@).len() > 0 ==> (r matches Err(errors) && errors@ == load_failures(
            loaded@,
        )),
{
    let total: usize = loaded.len();
    let ghost all = loaded@;
    let mut rest = loaded;
    let mut docs: Vec<T> = Vec::new();
    let mut errors: Vec<Error> = Vec::new();
    let mut done: usize = 0;
    while rest.len() > 0
        invariant
            done + rest@.len() == all.len(),
            all.len() == total,
            rest@ == all.subrange(done as int, all.len() as int),
            docs@ == loaded_documents(all.take(done as int)),
            errors@ == load_failures(all.take(done as int)),
        decreases rest.len(),
    {
        let first = rest.remove(0);
        proof {
            assert(first == all[done as int]);
            assert(all.take(done + 1).drop_last() == all.take(done as int));
            assert(all.take(done + 1).last() == all[done as int]);
        }
        match first {
            Ok(mut found) => {
                docs.append(&mut found);
            },
            Err(e) => {
                errors.push(e);
            },
        }
        done = done + 1;
    }
    proof {
        assert(all.take(all.len() as int) == all);
    }
    if errors.len() == 0 {
        Ok(docs)
    } else {
        Err(errors)
    }
}

} // verus!
