//! Errors found in a schema or in a document checked against one, each with its path.
use vstd::prelude::*;
use vstd::string::*;
use vstd::std_specs::convert::FromSpecImpl;
use crate::breadcrumb::{
    Breadcrumb, BreadcrumbSegment, SegmentView, breadcrumb_debug, path_text, segment_views,
};
use crate::text::{str_debug, str_debug_text};
use crate::errors::generic::GenericError;

verus! {

/// What went wrong.
#[derive(Debug, PartialEq, Eq)]
pub enum SchemaErrorKind<'a> {
    WrongType { expected: &'static str, actual: &'a str },
    MalformedField { error: String },
    FieldMissing { field: &'a str },
    ExtraField { field: &'a str },
    UnknownType { unknown_type: &'a str },
    ValidationError { error: &'a str },
    Multiple { errors: Vec<SchemaError<'a>> },
}

/// An error together with the path at which it occurred.
#[derive(Debug, PartialEq, Eq)]
pub struct SchemaError<'a> {
    pub kind: SchemaErrorKind<'a>,
    pub state: Breadcrumb<'a>,
}

/// The `Debug` text of an error: `SchemaError { kind: <kind>, state: <path> }`.
pub open spec fn error_debug<'a>(e: SchemaError<'a>) -> Seq<char>
    decreases e, 0nat,
{
    "SchemaError { kind: "@ + kind_debug(e.kind) + ", state: "@ + breadcrumb_debug(e.state@)
        + " }"@
}

/// The `Debug` text of a kind: its variant's name and its fields, as `derive(Debug)`
/// writes them, such as `FieldMissing { field: "uri" }`.
pub open spec fn kind_debug<'a>(kind: SchemaErrorKind<'a>) -> Seq<char>
    decreases kind, 0nat,
{
    match kind {
        SchemaErrorKind::WrongType { expected, actual } =>
            "WrongType { expected: "@ + str_debug_text(expected@) + ", actual: "@
                + str_debug_text(actual@) + " }"@,
        SchemaErrorKind::MalformedField { error } =>
            "MalformedField { error: "@ + str_debug_text(error@) + " }"@,
        SchemaErrorKind::FieldMissing { field } =>
            "FieldMissing { field: "@ + str_debug_text(field@) + " }"@,
        SchemaErrorKind::ExtraField { field } =>
            "ExtraField { field: "@ + str_debug_text(field@) + " }"@,
        SchemaErrorKind::UnknownType { unknown_type } =>
            "UnknownType { unknown_type: "@ + str_debug_text(unknown_type@) + " }"@,
        SchemaErrorKind::ValidationError { error } =>
            "ValidationError { error: "@ + str_debug_text(error@) + " }"@,
        SchemaErrorKind::Multiple { errors } =>
            "Multiple { errors: "@ + errors_debug(errors@) + " }"@,
    }
}

/// The `Debug` texts of several errors, with `, ` between them.
pub open spec fn errors_debug_items<'a>(errors: Seq<SchemaError<'a>>) -> Seq<char>
    decreases errors, 0nat,
{
    if errors.len() == 0 {
        Seq::empty()
    } else if errors.len() == 1 {
        error_debug(errors[0])
    } else {
        errors_debug_items(errors.drop_last()) + ", "@ + error_debug(errors.last())
    }
}

/// The `Debug` text of a list of errors: `[<error>, <error>, ...]`.
pub open spec fn errors_debug<'a>(errors: Seq<SchemaError<'a>>) -> Seq<char>
    decreases errors, 1nat,
{
    "["@ + errors_debug_items(errors) + "]"@
}

/// The message of an error of this kind. In the text of an error (`error_text`), a
/// `Multiple` error writes no line of its own: the errors it holds are written instead.
pub open spec fn kind_message<'a>(kind: SchemaErrorKind<'a>) -> Seq<char> {
    match kind {
        SchemaErrorKind::WrongType { expected, actual } =>
            "wrong type, expected "@ + expected@ + " got "@ + actual@,
        SchemaErrorKind::MalformedField { error } => "malformed field: "@ + error@,
        SchemaErrorKind::FieldMissing { field } => "field '"@ + field@ + "' missing"@,
        SchemaErrorKind::ExtraField { field } =>
            "field '"@ + field@ + "' is not specified in the schema"@,
        SchemaErrorKind::UnknownType { unknown_type } =>
            "unknown type specified: "@ + unknown_type@,
        SchemaErrorKind::ValidationError { error } =>
            "special requirements for field not met: "@ + error@,
        SchemaErrorKind::Multiple { errors } =>
            "multiple errors were encountered: "@ + errors_debug(errors@),
    }
}

/// The text of an error, every path in it written after `root`: one line
/// `<root><path>: <message>` for a single error; for a `Multiple` error, the texts of the
/// errors it holds, in order, each with the `Multiple` error's own path added to the root.
pub open spec fn error_text<'a>(e: SchemaError<'a>, root: Seq<char>) -> Seq<char>
    decreases e, 1nat,
{
    let prefix = root + path_text(e.state@);
    match e.kind {
        SchemaErrorKind::Multiple { errors } => errors_text(errors@, prefix),
        _ => prefix + ": "@ + kind_message(e.kind) + "\n"@,
    }
}

/// The texts of a sequence of errors, in order, all with the same root.
pub open spec fn errors_text<'a>(errors: Seq<SchemaError<'a>>, root: Seq<char>) -> Seq<char>
    decreases errors, 0nat,
{
    if errors.len() == 0 {
        Seq::empty()
    } else {
        errors_text(errors.drop_last(), root) + error_text(errors.last(), root)
    }
}


/// `kind` is what `generic` becomes: each variant keeps its fields, and the errors of a
/// `Multiple` error become errors with an empty path, converted in turn and kept in order.
pub open spec fn converted_from<'a>(kind: SchemaErrorKind<'a>, generic: GenericError<'a>) -> bool
    decreases generic,
{
    match generic {
        GenericError::WrongType { expected, actual } =>
            kind == (SchemaErrorKind::WrongType { expected, actual }),
        GenericError::FieldMissing { field } => kind == (SchemaErrorKind::FieldMissing { field }),
        GenericError::ExtraField { field } => kind == (SchemaErrorKind::ExtraField { field }),
        GenericError::Multiple { errors } => {
            &&& kind is Multiple
            &&& kind->errors@.len() == errors@.len()
            &&& forall|i: int|
                0 <= i < errors@.len() ==> {
                    &&& (#[trigger] kind->errors@[i]).state@ == Seq::<SegmentView>::empty()
                    &&& converted_from(kind->errors@[i].kind, errors@[i])
                }
        },
    }
}

/// Appends the `Debug` text of a string to `out`.
fn push_str_debug(out: &mut String, s: &str)
    ensures
        final(out)@ == old(out)@ + str_debug_text(s@),
{
    let quoted = str_debug(s);
    out.append(quoted.as_str());
}

/// Appends the `Debug` text of an error to `out`.
fn push_error_debug(e: &SchemaError, out: &mut String)
    ensures
        final(out)@ == old(out)@ + error_debug(*e),
    decreases e,
{
    out.append("SchemaError { kind: ");
    push_kind_debug(&e.kind, out);
    out.append(", state: ");
    e.state.push_debug(out);
    out.append(" }");
}

/// Appends the `Debug` text of a kind to `out`.
fn push_kind_debug(kind: &SchemaErrorKind, out: &mut String)
    ensures
        final(out)@ == old(out)@ + kind_debug(*kind),
    decreases kind,
{
    match kind {
        SchemaErrorKind::WrongType { expected, actual } => {
            let quoted_expected = str_debug(expected);
            let quoted_actual = str_debug(actual);
            out.append("WrongType { expected: ");
            out.append(quoted_expected.as_str());
            out.append(", actual: ");
            out.append(quoted_actual.as_str());
            out.append(" }");
        },
        SchemaErrorKind::MalformedField { error } => {
            out.append("MalformedField { error: ");
            push_str_debug(out, error.as_str());
            out.append(" }");
        },
        SchemaErrorKind::FieldMissing { field } => {
            out.append("FieldMissing { field: ");
            push_str_debug(out, field);
            out.append(" }");
        },
        SchemaErrorKind::ExtraField { field } => {
            out.append("ExtraField { field: ");
            push_str_debug(out, field);
            out.append(" }");
        },
        SchemaErrorKind::UnknownType { unknown_type } => {
            out.append("UnknownType { unknown_type: ");
            push_str_debug(out, unknown_type);
            out.append(" }");
        },
        SchemaErrorKind::ValidationError { error } => {
            out.append("ValidationError { error: ");
            push_str_debug(out, error);
            out.append(" }");
        },
        SchemaErrorKind::Multiple { errors } => {
            out.append("Multiple { errors: ");
            push_errors_debug(errors, out);
            out.append(" }");
        },
    }
}

/// Appends the `Debug` text of a list of errors to `out`.
fn push_errors_debug(errors: &Vec<SchemaError>, out: &mut String)
    ensures
        final(out)@ == old(out)@ + errors_debug(errors@),
    decreases errors,
{
    let ghost start = old(out)@;
    out.append("[");
    let mut i: usize = 0;
    while i < errors.len()
        invariant
            i <= errors@.len(),
            out@ == start + "["@ + errors_debug_items(errors@.take(i as int)),
        decreases errors@.len() - i,
    {
        proof {
            let taken = errors@.take(i + 1);
            assert(taken.drop_last() =~= errors@.take(i as int));
            assert(taken.last() == errors@[i as int]);
            if i == 0 {
                assert(taken.len() == 1 && taken[0] == errors@[0]);
            }
            vstd::std_specs::vec::axiom_vec_index_decreases(*errors, i as int);
        }
        if i > 0 {
            out.append(", ");
        }
        push_error_debug(&errors[i], out);
        i = i + 1;
    }
    proof {
        assert(errors@.take(errors@.len() as int) =~= errors@);
    }
    out.append("]");
}

impl<'a> SchemaErrorKind<'a> {
    /// The message of an error of this kind.
    pub fn to_string(&self) -> (s: String)
        ensures
            s@ == kind_message(*self),
    {
        let mut s = String::new();
        match self {
            SchemaErrorKind::WrongType { expected, actual } => {
                s.append("wrong type, expected ");
                s.append(expected);
                s.append(" got ");
                s.append(actual);
            },
            SchemaErrorKind::MalformedField { error } => {
                s.append("malformed field: ");
                s.append(error.as_str());
            },
            SchemaErrorKind::FieldMissing { field } => {
                s.append("field '");
                s.append(field);
                s.append("' missing");
            },
            SchemaErrorKind::ExtraField { field } => {
                s.append("field '");
                s.append(field);
                s.append("' is not specified in the schema");
            },
            SchemaErrorKind::UnknownType { unknown_type } => {
                s.append("unknown type specified: ");
                s.append(unknown_type);
            },
            SchemaErrorKind::ValidationError { error } => {
                s.append("special requirements for field not met: ");
                s.append(error);
            },
            SchemaErrorKind::Multiple { errors } => {
                s.append("multiple errors were encountered: ");
                push_errors_debug(errors, &mut s);
            },
        }
        s
    }
}

impl<'a> SchemaError<'a> {
    /// Appends the text of this error to `out`, every path written after `root`.
    fn flatten(&self, out: &mut String, root: &str)
        ensures
            final(out)@ == old(out)@ + error_text(*self, root@),
        decreases self,
    {
        let mut prefix = String::from_str(root);
        let path = self.state.to_string();
        prefix.append(path.as_str());
        match &self.kind {
            SchemaErrorKind::Multiple { errors } => {
                let ghost start = out@;
                let mut i: usize = 0;
                while i < errors.len()
                    invariant
                        i <= errors.len(),
                        prefix@ == root@ + path_text(self.state@),
                        self.kind == (SchemaErrorKind::Multiple { errors: *errors }),
                        out@ == start + errors_text(errors@.take(i as int), prefix@),
                    decreases errors.len() - i,
                {
                    proof {
                        assert(decreases_to!(self.kind => self.kind->errors));
                        vstd::std_specs::vec::axiom_vec_index_decreases(*errors, i as int);
                    }
                    errors[i].flatten(out, prefix.as_str());
                    proof {
                        let next = errors@.take(i + 1);
                        assert(next.drop_last() == errors@.take(i as int));
                        assert(next.last() == errors@[i as int]);
                    }
                    i = i + 1;
                }
                proof {
                    assert(errors@.take(errors.len() as int) == errors@);
                }
            },
            _ => {
                out.append(prefix.as_str());
                out.append(": ");
                let message = self.kind.to_string();
                out.append(message.as_str());
                out.append("\n");
            },
        }
    }

    /// The text of this error, each path written after `#`: one line per single error.
    pub fn to_string(&self) -> (s: String)
        ensures
            s@ == error_text(*self, "#"@),
    {
        let mut s = String::new();
        self.flatten(&mut s, "#");
        s
    }

    /// A function that adds the field `path` to the path of the error it is given,
    /// outside the segments already there.
    pub fn add_path_name(path: &'a str) -> (f: impl Fn(SchemaError<'a>) -> SchemaError<'a>)
        ensures
            forall|e: SchemaError<'a>| #[trigger] f.requires((e,)),
            forall|e: SchemaError<'a>, r: SchemaError<'a>|
                #[trigger] f.ensures((e,), r) ==> r.kind == e.kind && r.state@ == e.state@.push(
                    SegmentView::Name(path@),
                ),
    {
        move |e: SchemaError<'a>| -> (r: SchemaError<'a>)
            ensures
                r.kind == e.kind,
                r.state@ == e.state@.push(SegmentView::Name(path@)),
            {
                let mut err = e;
                err.state.push(BreadcrumbSegment::Name(path));
                err
            }
    }

    /// A function that adds the position `index` to the path of the error it is given,
    /// outside the segments already there.
    pub fn add_path_index(index: usize) -> (f: impl Fn(SchemaError<'a>) -> SchemaError<'a>)
        ensures
            forall|e: SchemaError<'a>| #[trigger] f.requires((e,)),
            forall|e: SchemaError<'a>, r: SchemaError<'a>|
                #[trigger] f.ensures((e,), r) ==> r.kind == e.kind && r.state@ == e.state@.push(
                    SegmentView::Index(index),
                ),
    {
        move |e: SchemaError<'a>| -> (r: SchemaError<'a>)
            ensures
                r.kind == e.kind,
                r.state@ == e.state@.push(SegmentView::Index(index)),
            {
                let mut err = e;
                err.state.push(BreadcrumbSegment::Index(index));
                err
            }
    }

    /// The error of the given kind at the root of the document, with an empty path.
    pub fn from_kind(kind: SchemaErrorKind<'a>) -> (e: SchemaError<'a>)
        ensures
            e.kind == kind,
            e.state@ == Seq::<SegmentView>::empty(),
    {
        SchemaError { kind, state: Breadcrumb::empty() }
    }
}

impl<'a> SchemaErrorKind<'a> {
    /// This error at the path made of `path`, whose first segment is the innermost.
    #[must_use]
    pub fn with_path(self, path: Vec<BreadcrumbSegment<'a>>) -> (e: SchemaError<'a>)
        ensures
            e.kind == self,
            e.state@ == segment_views(path@),
    {
        SchemaError { kind: self, state: Breadcrumb::new(path) }
    }

    /// This error at the path made of the single field `path`.
    #[must_use]
    pub fn with_path_name(self, path: &'a str) -> (e: SchemaError<'a>)
        ensures
            e.kind == self,
            e.state@ == seq![SegmentView::Name(path@)],
    {
        let mut err = SchemaError::from_kind(self);
        err.state.push(BreadcrumbSegment::Name(path));
        err
    }

    /// This error at the path made of the single position `index`.
    #[must_use]
    pub fn with_path_index(self, index: usize) -> (e: SchemaError<'a>)
        ensures
            e.kind == self,
            e.state@ == seq![SegmentView::Index(index)],
    {
        let mut err = SchemaError::from_kind(self);
        err.state.push(BreadcrumbSegment::Index(index));
        err
    }
}

impl<'a> SchemaErrorKind<'a> {
    /// The error that a generic error becomes once it is tied to a schema.
    pub fn from_generic(generic: GenericError<'a>) -> (kind: SchemaErrorKind<'a>)
        ensures
            converted_from(kind, generic),
        decreases generic,
    {
        let ghost whole = generic;
        match generic {
            GenericError::WrongType { expected, actual } => SchemaErrorKind::WrongType {
                expected,
                actual,
            },
            GenericError::FieldMissing { field } => SchemaErrorKind::FieldMissing { field },
            GenericError::ExtraField { field } => SchemaErrorKind::ExtraField { field },
            GenericError::Multiple { errors } => {
                let ghost given = errors@;
                let mut rest = errors;
                let mut converted: Vec<SchemaError<'a>> = Vec::new();
                while rest.len() > 0
                    invariant
                        whole == generic,
                        whole is Multiple,
                        whole->errors@ == given,
                        converted@.len() + rest@.len() == given.len(),
                        rest@ == given.subrange(converted@.len() as int, given.len() as int),
                        forall|i: int|
                            0 <= i < converted@.len() ==> {
                                &&& (#[trigger] converted@[i]).state@ == Seq::<SegmentView>::empty()
                                &&& converted_from(converted@[i].kind, given[i])
                            },
                    decreases rest.len(),
                {
                    let first = rest.remove(0);
                    proof {
                        assert(first == given[converted@.len() as int]);
                        assert(decreases_to!(whole => whole->errors));
                        vstd::std_specs::vec::axiom_vec_index_decreases(
                            whole->errors,
                            converted@.len() as int,
                        );
                        assert(decreases_to!(whole => first));
                    }
                    let kind = SchemaErrorKind::from_generic(first);
                    converted.push(SchemaError::from_kind(kind));
                }
                SchemaErrorKind::Multiple { errors: converted }
            },
        }
    }
}

impl<'a> From<GenericError<'a>> for SchemaErrorKind<'a> {
    /// The error that a generic error becomes once it is tied to a schema.
    fn from(generic: GenericError<'a>) -> (kind: SchemaErrorKind<'a>)
        ensures
            converted_from(kind, generic),
    {
        SchemaErrorKind::from_generic(generic)
    }
}

impl<'a> FromSpecImpl<GenericError<'a>> for SchemaErrorKind<'a> {
    /// The converted errors of a `Multiple` error are held in a vector built by the
    /// conversion, which no spec expression can name, so no `from_spec` can be equal to the
    /// result; what the conversion gives is stated in the `ensures` of `from` instead.
    open spec fn obeys_from_spec() -> bool {
        false
    }

    open spec fn from_spec(generic: GenericError<'a>) -> SchemaErrorKind<'a> {
        choose|kind: SchemaErrorKind<'a>| converted_from(kind, generic)
    }
}

impl<'a> SchemaError<'a> {
    /// The error that a generic error becomes, with an empty path.
    pub fn from_generic(generic: GenericError<'a>) -> (e: SchemaError<'a>)
        ensures
            converted_from(e.kind, generic),
            e.state@ == Seq::<SegmentView>::empty(),
    {
        SchemaError::from_kind(SchemaErrorKind::from_generic(generic))
    }
}

impl<'a> From<GenericError<'a>> for SchemaError<'a> {
    /// The error that a generic error becomes, with an empty path.
    fn from(generic: GenericError<'a>) -> (e: SchemaError<'a>)
        ensures
            converted_from(e.kind, generic),
            e.state@ == Seq::<SegmentView>::empty(),
    {
        SchemaError::from_generic(generic)
    }
}

impl<'a> FromSpecImpl<GenericError<'a>> for SchemaError<'a> {
    /// As for the conversion into `SchemaErrorKind`, no `from_spec` can be equal to the
    /// result; what the conversion gives is stated in the `ensures` of `from` instead.
    open spec fn obeys_from_spec() -> bool {
        false
    }

    open spec fn from_spec(generic: GenericError<'a>) -> SchemaError<'a> {
        choose|e: SchemaError<'a>|
            converted_from(e.kind, generic) && e.state@ == Seq::<SegmentView>::empty()
    }
}

impl<'a> From<SchemaErrorKind<'a>> for SchemaError<'a> {
    /// The error of the given kind at the root of the document, with an empty path.
    fn from(kind: SchemaErrorKind<'a>) -> (e: SchemaError<'a>)
        ensures
            e.kind == kind,
            e.state@ == Seq::<SegmentView>::empty(),
    {
        SchemaError::from_kind(kind)
    }
}

impl<'a> FromSpecImpl<SchemaErrorKind<'a>> for SchemaError<'a> {
    /// The empty path of the result is a vector built by the conversion, which no spec
    /// expression can name, so no `from_spec` can be equal to the result; what the
    /// conversion gives is stated in the `ensures` of `from` instead.
    open spec fn obeys_from_spec() -> bool {
        false
    }

    open spec fn from_spec(kind: SchemaErrorKind<'a>) -> SchemaError<'a> {
        choose|e: SchemaError<'a>| e.kind == kind && e.state@ == Seq::<SegmentView>::empty()
    }
}

impl<'a> From<Vec<SchemaError<'a>>> for SchemaError<'a> {
    /// The errors grouped into one, at the root of the document, with an empty path.
    fn from(errors: Vec<SchemaError<'a>>) -> (e: SchemaError<'a>)
        ensures
            e.kind == (SchemaErrorKind::Multiple { errors }),
            e.state@ == Seq::<SegmentView>::empty(),
    {
        SchemaError::from_kind(SchemaErrorKind::Multiple { errors })
    }
}

impl<'a> FromSpecImpl<Vec<SchemaError<'a>>> for SchemaError<'a> {
    /// As for the conversion of a kind, no `from_spec` can be equal to the result; what the
    /// conversion gives is stated in the `ensures` of `from` instead.
    open spec fn obeys_from_spec() -> bool {
        false
    }

    open spec fn from_spec(errors: Vec<SchemaError<'a>>) -> SchemaError<'a> {
        choose|e: SchemaError<'a>|
            e.kind == (SchemaErrorKind::Multiple { errors }) && e.state@ == Seq::<SegmentView>::empty()
    }
}

} // verus!
