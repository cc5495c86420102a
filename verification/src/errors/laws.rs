//! What holds of errors across the functions that build, convert and write them.
use vstd::prelude::*;
use vstd::string::*;
use crate::breadcrumb::{SegmentView, path_text, segment_text};
use crate::errors::generic::GenericError;
use crate::errors::schema::{
    SchemaError, SchemaErrorKind, converted_from, error_text, errors_text, kind_debug,
    kind_message,
};

verus! {

/// The number of single errors an error stands for: one, or, for a `Multiple` error, as
/// many as the errors it holds stand for.
pub open spec fn single_errors<'a>(kind: SchemaErrorKind<'a>) -> nat
    decreases kind, 1nat,
{
    match kind {
        SchemaErrorKind::Multiple { errors } => single_errors_in(errors@),
        _ => 1,
    }
}

/// The number of single errors a sequence of errors stands for.
pub open spec fn single_errors_in<'a>(errors: Seq<SchemaError<'a>>) -> nat
    decreases errors, 0nat,
{
    if errors.len() == 0 {
        0
    } else {
        single_errors_in(errors.drop_last()) + single_errors(errors.last().kind)
    }
}

/// The number of single errors a generic error stands for.
pub open spec fn generic_single_errors<'a>(generic: GenericError<'a>) -> nat
    decreases generic, 1nat,
{
    match generic {
        GenericError::Multiple { errors } => generic_single_errors_in(errors@),
        _ => 1,
    }
}

/// The number of single errors a sequence of generic errors stands for.
pub open spec fn generic_single_errors_in<'a>(errors: Seq<GenericError<'a>>) -> nat
    decreases errors, 0nat,
{
    if errors.len() == 0 {
        0
    } else {
        generic_single_errors_in(errors.drop_last()) + generic_single_errors(errors.last())
    }
}

/// Adding a segment to the path of an error (as `add_path_name`, `add_path_index` and
/// `Breadcrumb::push` do) writes the error as if that segment's text were added to the
/// root it is written after: the new segment is the outermost one.
pub proof fn lemma_added_segment_extends_root<'a>(
    e: SchemaError<'a>,
    moved: SchemaError<'a>,
    segment: SegmentView,
    root: Seq<char>,
)
    requires
        moved.kind == e.kind,
        moved.state@ == e.state@.push(segment),
    ensures
        error_text(moved, root) == error_text(e, root + segment_text(segment)),
{
    assert(moved.state@.drop_last() == e.state@);
    assert(root + path_text(moved.state@) == root + segment_text(segment) + path_text(e.state@));
}

/// Giving an error a one-field path (`with_path_name`) is the same as turning it into an
/// error with an empty path (`From<SchemaErrorKind>`) and then adding the field to that
/// path (`add_path_name`).
pub proof fn lemma_with_path_name_is_add_path_name<'a>(
    kind: SchemaErrorKind<'a>,
    name: Seq<char>,
    with_path: SchemaError<'a>,
    added: SchemaError<'a>,
)
    requires
        with_path.kind == kind,
        with_path.state@ == seq![SegmentView::Name(name)],
        added.kind == kind,
        added.state@ == Seq::<SegmentView>::empty().push(SegmentView::Name(name)),
    ensures
        with_path.kind == added.kind,
        with_path.state@ == added.state@,
{
    assert(Seq::<SegmentView>::empty().push(SegmentView::Name(name)) == seq![SegmentView::Name(name)]);
}

/// Grouping errors into one error with an empty path (as `From<Vec<SchemaError>>` does)
/// writes exactly the texts of the grouped errors, in order.
pub proof fn lemma_group_writes_its_errors<'a>(group: SchemaError<'a>, root: Seq<char>)
    requires
        group.kind is Multiple,
        group.state@ == Seq::<SegmentView>::empty(),
    ensures
        error_text(group, root) == errors_text(group.kind->errors@, root),
{
    assert(root + path_text(Seq::<SegmentView>::empty()) == root);
}

/// An error's text is empty exactly when it stands for no single error: every single error
/// writes a line, and a group of no errors writes nothing.
pub proof fn lemma_text_empty_iff_no_errors<'a>(e: SchemaError<'a>, root: Seq<char>)
    ensures
        (error_text(e, root).len() == 0) == (single_errors(e.kind) == 0),
    decreases e, 1nat,
{
    match e.kind {
        SchemaErrorKind::Multiple { errors } => {
            lemma_texts_empty_iff_no_errors(errors@, root + path_text(e.state@));
        },
        _ => {
            reveal_strlit("\n");
            let prefix = root + path_text(e.state@);
            assert((prefix + ": "@ + kind_message(e.kind) + "\n"@).len() >= 1);
        },
    }
}

/// The texts of several errors are empty exactly when they stand for no single error.
pub proof fn lemma_texts_empty_iff_no_errors<'a>(errors: Seq<SchemaError<'a>>, root: Seq<char>)
    ensures
        (errors_text(errors, root).len() == 0) == (single_errors_in(errors) == 0),
    decreases errors, 0nat,
{
    if errors.len() > 0 {
        lemma_texts_empty_iff_no_errors(errors.drop_last(), root);
        lemma_text_empty_iff_no_errors(errors.last(), root);
    }
}

/// The number of errors a generic `Multiple` error holds directly.
pub open spec fn held<'a>(generic: GenericError<'a>) -> nat {
    match generic {
        GenericError::Multiple { errors } => errors@.len(),
        _ => 0,
    }
}

/// Converting a generic error loses no error and adds none: the result stands for as many
/// single errors as the generic error.
pub proof fn lemma_conversion_keeps_errors<'a>(kind: SchemaErrorKind<'a>, generic: GenericError<'a>)
    requires
        converted_from(kind, generic),
    ensures
        single_errors(kind) == generic_single_errors(generic),
    decreases generic, held(generic) + 1,
{
    match generic {
        GenericError::Multiple { errors } => {
            lemma_conversion_keeps_prefix(kind, generic, errors@.len() as int);
            assert(kind->errors@.take(errors@.len() as int) == kind->errors@);
            assert(errors@.take(errors@.len() as int) == errors@);
        },
        _ => {},
    }
}

/// The first `n` errors held by a converted `Multiple` error stand for as many single
/// errors as the first `n` errors it was converted from.
proof fn lemma_conversion_keeps_prefix<'a>(kind: SchemaErrorKind<'a>, generic: GenericError<'a>, n: int)
    requires
        converted_from(kind, generic),
        generic is Multiple,
        0 <= n <= held(generic),
    ensures
        single_errors_in(kind->errors@.take(n)) == generic_single_errors_in(
            generic->errors@.take(n),
        ),
    decreases generic, n,
{
    if n > 0 {
        let converted = kind->errors@;
        let generic_errors = generic->errors@;
        lemma_conversion_keeps_prefix(kind, generic, n - 1);
        assert(converted_from(converted[n - 1].kind, generic_errors[n - 1]));
        assert(decreases_to!(generic => generic->errors));
        vstd::std_specs::vec::axiom_vec_index_decreases(generic->errors, n - 1);
        lemma_conversion_keeps_errors(converted[n - 1].kind, generic_errors[n - 1]);
        assert(converted.take(n).drop_last() == converted.take(n - 1));
        assert(generic_errors.take(n).drop_last() == generic_errors.take(n - 1));
    }
}

/// `a` and `b` are the same error, field by field at every depth: what the derived `==`
/// compares.
pub open spec fn same_error<'a>(a: SchemaError<'a>, b: SchemaError<'a>) -> bool
    decreases a,
{
    a.state@ == b.state@ && same_kind(a.kind, b.kind)
}

/// `a` and `b` are the same kind of error, field by field at every depth.
pub open spec fn same_kind<'a>(a: SchemaErrorKind<'a>, b: SchemaErrorKind<'a>) -> bool
    decreases a,
{
    match a {
        SchemaErrorKind::Multiple { errors } => {
            &&& b is Multiple
            &&& b->errors@.len() == errors@.len()
            &&& forall|i: int|
                0 <= i < errors@.len() ==> same_error(errors@[i], #[trigger] b->errors@[i])
        },
        _ => a == b,
    }
}

/// A generic error converts to one error only: any two results of converting it are the
/// same error at every depth.
pub proof fn lemma_conversion_is_unique<'a>(
    first: SchemaErrorKind<'a>,
    second: SchemaErrorKind<'a>,
    generic: GenericError<'a>,
)
    requires
        converted_from(first, generic),
        converted_from(second, generic),
    ensures
        same_kind(first, second),
    decreases generic,
{
    if let GenericError::Multiple { errors } = generic {
        assert forall|i: int| 0 <= i < errors@.len() implies same_error(
            first->errors@[i],
            #[trigger] second->errors@[i],
        ) by {
            assert(decreases_to!(generic => errors));
            vstd::std_specs::vec::axiom_vec_index_decreases(errors, i);
            lemma_conversion_is_unique(first->errors@[i].kind, second->errors@[i].kind, errors@[i]);
        }
    }
}

/// Converting a generic error into an error (`From<GenericError> for SchemaError`) gives
/// the same error as converting it into a kind (`From<GenericError> for SchemaErrorKind`)
/// and that kind into an error (`From<SchemaErrorKind> for SchemaError`).
pub proof fn lemma_conversion_paths_agree<'a>(
    generic: GenericError<'a>,
    direct: SchemaError<'a>,
    kind: SchemaErrorKind<'a>,
    through_kind: SchemaError<'a>,
)
    requires
        converted_from(direct.kind, generic),
        direct.state@ == Seq::<SegmentView>::empty(),
        converted_from(kind, generic),
        through_kind.kind == kind,
        through_kind.state@ == Seq::<SegmentView>::empty(),
    ensures
        same_error(direct, through_kind),
        error_text(direct, Seq::empty()) == error_text(through_kind, Seq::empty()),
{
    lemma_conversion_is_unique(direct.kind, kind, generic);
    lemma_same_error_same_text(direct, through_kind, Seq::empty());
}

/// The same errors write the same text.
pub proof fn lemma_same_error_same_text<'a>(a: SchemaError<'a>, b: SchemaError<'a>, root: Seq<char>)
    requires
        same_error(a, b),
    ensures
        error_text(a, root) == error_text(b, root),
    decreases a, 1nat,
{
    if let SchemaErrorKind::Multiple { errors } = a.kind {
        assert(decreases_to!(a => a.kind));
        assert(errors@.take(errors@.len() as int) == errors@);
        lemma_same_errors_same_text(errors@, b.kind->errors@, root + path_text(a.state@), a);
    }
}

/// Errors that are the same one by one write the same text.
proof fn lemma_same_errors_same_text<'a>(
    errors: Seq<SchemaError<'a>>,
    others: Seq<SchemaError<'a>>,
    root: Seq<char>,
    holder: SchemaError<'a>,
)
    requires
        holder.kind is Multiple,
        errors.len() <= holder.kind->errors@.len(),
        errors == holder.kind->errors@.take(errors.len() as int),
        others.len() == errors.len(),
        forall|i: int| 0 <= i < errors.len() ==> same_error(errors[i], #[trigger] others[i]),
    ensures
        errors_text(errors, root) == errors_text(others, root),
    decreases holder, 0nat, errors.len(),
{
    if errors.len() > 0 {
        let n = errors.len() - 1;
        assert(errors.drop_last() == holder.kind->errors@.take(n));
        lemma_same_errors_same_text(errors.drop_last(), others.drop_last(), root, holder);
        assert(decreases_to!(holder => holder.kind));
        assert(decreases_to!(holder.kind => holder.kind->errors));
        vstd::std_specs::vec::axiom_vec_index_decreases(holder.kind->errors, n);
        assert(errors.last() == holder.kind->errors@[n]);
        lemma_same_error_same_text(errors.last(), others.last(), root);
    }
}

/// The lines an error writes after an empty root, in order: one line
/// `<path>: <message>\n` for a single error; for a `Multiple` error, the lines of the errors
/// it holds, each with the `Multiple` error's own path put in front.
pub open spec fn error_lines<'a>(e: SchemaError<'a>) -> Seq<Seq<char>>
    decreases e, 1nat,
{
    match e.kind {
        SchemaErrorKind::Multiple { errors } => prefixed(path_text(e.state@), errors_lines(errors@)),
        _ => seq![path_text(e.state@) + ": "@ + kind_message(e.kind) + "\n"@],
    }
}

/// The lines of several errors, one error after the other.
pub open spec fn errors_lines<'a>(errors: Seq<SchemaError<'a>>) -> Seq<Seq<char>>
    decreases errors, 0nat,
{
    if errors.len() == 0 {
        Seq::empty()
    } else {
        errors_lines(errors.drop_last()) + error_lines(errors.last())
    }
}

/// Each line with `root` put in front of it.
pub open spec fn prefixed(root: Seq<char>, lines: Seq<Seq<char>>) -> Seq<Seq<char>> {
    lines.map_values(|line: Seq<char>| root + line)
}

/// The lines, one after the other.
pub open spec fn joined(lines: Seq<Seq<char>>) -> Seq<char>
    decreases lines.len(),
{
    if lines.len() == 0 {
        Seq::empty()
    } else {
        joined(lines.drop_last()) + lines.last()
    }
}

proof fn lemma_joined_append(first: Seq<Seq<char>>, second: Seq<Seq<char>>)
    ensures
        joined(first + second) == joined(first) + joined(second),
    decreases second.len(),
{
    if second.len() == 0 {
        assert(first + second == first);
    } else {
        assert((first + second).drop_last() == first + second.drop_last());
        lemma_joined_append(first, second.drop_last());
    }
}

proof fn lemma_prefixed_append(root: Seq<char>, first: Seq<Seq<char>>, second: Seq<Seq<char>>)
    ensures
        prefixed(root, first + second) == prefixed(root, first) + prefixed(root, second),
{
    assert(prefixed(root, first + second) =~= prefixed(root, first) + prefixed(root, second));
}

proof fn lemma_prefixed_twice(outer: Seq<char>, inner: Seq<char>, lines: Seq<Seq<char>>)
    ensures
        prefixed(outer, prefixed(inner, lines)) == prefixed(outer + inner, lines),
{
    assert forall|i: int| 0 <= i < lines.len() implies prefixed(outer, prefixed(inner, lines))[i]
        == prefixed(outer + inner, lines)[i] by {
        assert(outer + (inner + lines[i]) =~= (outer + inner) + lines[i]);
    }
    assert(prefixed(outer, prefixed(inner, lines)) =~= prefixed(outer + inner, lines));
}

/// Writing an error after a root puts that root in front of every line the error writes:
/// the text is its lines, each with the root in front, one after the other. With an empty
/// root the lines come out as they are, so the text after any root is the text after the
/// empty root with the root inserted at the start of each of its lines.
pub proof fn lemma_root_starts_every_line<'a>(e: SchemaError<'a>, root: Seq<char>)
    ensures
        error_text(e, root) == joined(prefixed(root, error_lines(e))),
        error_text(e, Seq::empty()) == joined(error_lines(e)),
    decreases e, 1nat,
{
    let path = path_text(e.state@);
    let empty = Seq::<char>::empty();
    assert(empty + path =~= path);
    match e.kind {
        SchemaErrorKind::Multiple { errors } => {
            let lines = errors_lines(errors@);
            assert(error_lines(e) == prefixed(path, lines));
            assert(error_text(e, root) == errors_text(errors@, root + path));
            assert(error_text(e, empty) == errors_text(errors@, empty + path));
            lemma_root_starts_every_lines(errors@, root + path);
            lemma_root_starts_every_lines(errors@, path);
            lemma_prefixed_twice(root, path, lines);
        },
        _ => {
            let line = path + ": "@ + kind_message(e.kind) + "\n"@;
            assert(error_lines(e) == seq![line]);
            assert(prefixed(root, seq![line]) =~= seq![root + line]);
            lemma_joined_single(root + line);
            lemma_joined_single(line);
            assert(root + line =~= root + path + ": "@ + kind_message(e.kind) + "\n"@);
            assert(empty + path + ": "@ + kind_message(e.kind) + "\n"@ =~= line);
        },
    }
}

proof fn lemma_joined_single(line: Seq<char>)
    ensures
        joined(seq![line]) == line,
{
    let lines = seq![line];
    assert(lines.drop_last() =~= Seq::<Seq<char>>::empty());
    assert(joined(lines.drop_last()) == Seq::<char>::empty());
    assert(lines.last() == line);
    assert(joined(lines) == joined(lines.drop_last()) + lines.last());
    assert(Seq::<char>::empty() + line =~= line);
}

/// The texts of several errors after a root are their lines, each with the root in front.
pub proof fn lemma_root_starts_every_lines<'a>(errors: Seq<SchemaError<'a>>, root: Seq<char>)
    ensures
        errors_text(errors, root) == joined(prefixed(root, errors_lines(errors))),
    decreases errors, 0nat,
{
    if errors.len() > 0 {
        lemma_root_starts_every_lines(errors.drop_last(), root);
        lemma_root_starts_every_line(errors.last(), root);
        lemma_prefixed_append(root, errors_lines(errors.drop_last()), error_lines(errors.last()));
        lemma_joined_append(
            prefixed(root, errors_lines(errors.drop_last())),
            prefixed(root, error_lines(errors.last())),
        );
    } else {
        assert(prefixed(root, Seq::<Seq<char>>::empty()) =~= Seq::<Seq<char>>::empty());
    }
}

/// The name of a kind's variant.
pub open spec fn variant_name<'a>(kind: SchemaErrorKind<'a>) -> Seq<char> {
    match kind {
        SchemaErrorKind::WrongType { .. } => "WrongType"@,
        SchemaErrorKind::MalformedField { .. } => "MalformedField"@,
        SchemaErrorKind::FieldMissing { .. } => "FieldMissing"@,
        SchemaErrorKind::ExtraField { .. } => "ExtraField"@,
        SchemaErrorKind::UnknownType { .. } => "UnknownType"@,
        SchemaErrorKind::ValidationError { .. } => "ValidationError"@,
        SchemaErrorKind::Multiple { .. } => "Multiple"@,
    }
}

/// The `Debug` text of a kind starts with the name of that kind's own variant, followed by
/// ` {`: each kind is listed under its own name, never under another's.
pub proof fn lemma_debug_names_the_variant<'a>(kind: SchemaErrorKind<'a>)
    ensures
        kind_debug(kind).len() >= variant_name(kind).len() + 2,
        kind_debug(kind).take(variant_name(kind).len() + 2int) == variant_name(kind) + " {"@,
{
    reveal_strlit(" {");
    let text = kind_debug(kind);
    let head = variant_name(kind) + " {"@;
    match kind {
        SchemaErrorKind::WrongType { .. } => {
            reveal_strlit("WrongType");
            reveal_strlit("WrongType { expected: ");
        },
        SchemaErrorKind::MalformedField { .. } => {
            reveal_strlit("MalformedField");
            reveal_strlit("MalformedField { error: ");
        },
        SchemaErrorKind::FieldMissing { .. } => {
            reveal_strlit("FieldMissing");
            reveal_strlit("FieldMissing { field: ");
        },
        SchemaErrorKind::ExtraField { .. } => {
            reveal_strlit("ExtraField");
            reveal_strlit("ExtraField { field: ");
        },
        SchemaErrorKind::UnknownType { .. } => {
            reveal_strlit("UnknownType");
            reveal_strlit("UnknownType { unknown_type: ");
        },
        SchemaErrorKind::ValidationError { .. } => {
            reveal_strlit("ValidationError");
            reveal_strlit("ValidationError { error: ");
        },
        SchemaErrorKind::Multiple { .. } => {
            reveal_strlit("Multiple");
            reveal_strlit("Multiple { errors: ");
        },
    }
    assert(text.take(head.len() as int) =~= head);
}

} // verus!
