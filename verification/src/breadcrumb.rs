//! The path from a document's root to the place where an error was found.
//!
//! Segments are added from the inside out: the innermost field or index is pushed first,
//! each enclosing one after it, as an error travels up through the nested values.
use vstd::prelude::*;
use vstd::string::*;
use crate::text::{
    decimal, lemma_decimal_reads_back, numeral_value, push_decimal, str_debug, str_debug_text,
};

verus! {

/// One step of a path: a field of a mapping, or a position in a sequence.
#[derive(Debug, Clone, Copy, PartialEq, Eq)]
pub enum BreadcrumbSegment<'a> {
    Name(&'a str),
    Index(usize),
}

/// What a segment stands for.
pub enum SegmentView {
    Name(Seq<char>),
    Index(usize),
}

impl<'a> View for BreadcrumbSegment<'a> {
    type V = SegmentView;

    open spec fn view(&self) -> SegmentView {
        match *self {
            BreadcrumbSegment::Name(name) => SegmentView::Name(name@),
            BreadcrumbSegment::Index(index) => SegmentView::Index(index),
        }
    }
}

/// The text of one segment: `.name` for a field, `[index]` for a position.
pub open spec fn segment_text(s: SegmentView) -> Seq<char> {
    match s {
        SegmentView::Name(name) => seq!['.'] + name,
        SegmentView::Index(index) => seq!['['] + decimal(index as nat) + seq![']'],
    }
}

/// A field is written as a dot and then its name; a position is written as its index in
/// base 10 between square brackets, the digits reading back as the index.
pub proof fn lemma_segment_text_names_the_segment(s: SegmentView)
    ensures
        s matches SegmentView::Name(name) ==> segment_text(s) == seq!['.'] + name,
        s matches SegmentView::Index(index) ==> {
            let text = segment_text(s);
            &&& text.len() >= 3
            &&& text[0] == '['
            &&& text.last() == ']'
            &&& numeral_value(text.subrange(1, text.len() - 1)) == index
        },
{
    if let SegmentView::Index(index) = s {
        lemma_decimal_reads_back(index as nat);
        let text = segment_text(s);
        assert(text.subrange(1, text.len() - 1) =~= decimal(index as nat));
    }
}

/// The text of a path whose segments were pushed in the order of `segments`:
/// the segment pushed last is the outermost one and comes first.
pub open spec fn path_text(segments: Seq<SegmentView>) -> Seq<char>
    decreases segments.len(),
{
    if segments.len() == 0 {
        Seq::empty()
    } else {
        segment_text(segments.last()) + path_text(segments.drop_last())
    }
}

/// The views of a sequence of segments.
pub open spec fn segment_views<'a>(path: Seq<BreadcrumbSegment<'a>>) -> Seq<SegmentView> {
    path.map_values(|s: BreadcrumbSegment<'a>| s@)
}

/// Items written one after the other with `, ` between them, as a `Debug` list does.
pub open spec fn comma_joined(items: Seq<Seq<char>>) -> Seq<char>
    decreases items.len(),
{
    if items.len() == 0 {
        Seq::empty()
    } else if items.len() == 1 {
        items[0]
    } else {
        comma_joined(items.drop_last()) + ", "@ + items.last()
    }
}

/// The `Debug` text of a segment: `Name("…")` or `Index(…)`.
pub open spec fn segment_debug(s: SegmentView) -> Seq<char> {
    match s {
        SegmentView::Name(name) => "Name("@ + str_debug_text(name) + ")"@,
        SegmentView::Index(index) => "Index("@ + decimal(index as nat) + ")"@,
    }
}

/// The `Debug` text of a path: `Breadcrumb { crumbs: [...] }`, its segments in the order
/// they were pushed.
pub open spec fn breadcrumb_debug(segments: Seq<SegmentView>) -> Seq<char> {
    "Breadcrumb { crumbs: ["@ + comma_joined(segments.map_values(|s: SegmentView| segment_debug(s)))
        + "] }"@
}

/// A path: its segments in the order they were pushed, the innermost first.
#[derive(Debug, PartialEq, Eq)]
pub struct Breadcrumb<'a> {
    crumbs: Vec<BreadcrumbSegment<'a>>,
}

/// Builds the text of a segment.
fn segment_string(segment: &BreadcrumbSegment) -> (s: String)
    ensures
        s@ == segment_text(segment@),
{
    let mut s = String::new();
    match segment {
        BreadcrumbSegment::Name(name) => {
            s.append(".");
            s.append(name);
            proof {
                reveal_strlit(".");
            }
        },
        BreadcrumbSegment::Index(index) => {
            s.append("[");
            push_decimal(&mut s, *index);
            s.append("]");
            proof {
                reveal_strlit("[");
                reveal_strlit("]");
            }
        },
    }
    s
}

/// Appends the `Debug` text of a segment to `out`.
fn push_segment_debug(out: &mut String, segment: &BreadcrumbSegment)
    ensures
        final(out)@ == old(out)@ + segment_debug(segment@),
{
    match segment {
        BreadcrumbSegment::Name(name) => {
            out.append("Name(");
            let quoted = str_debug(name);
            out.append(quoted.as_str());
            out.append(")");
        },
        BreadcrumbSegment::Index(index) => {
            out.append("Index(");
            push_decimal(out, *index);
            out.append(")");
        },
    }
}

impl<'a> Breadcrumb<'a> {
    /// The path with no segment.
    pub fn empty() -> (b: Breadcrumb<'a>)
        ensures
            b@ == Seq::<SegmentView>::empty(),
    {
        Breadcrumb { crumbs: Vec::new() }
    }

    /// A path made of the given segments, the first of them the innermost.
    pub fn new(path: Vec<BreadcrumbSegment<'a>>) -> (b: Breadcrumb<'a>)
        ensures
            b@ == segment_views(path@),
    {
        Breadcrumb { crumbs: path }
    }

    /// Adds a segment outside all the segments already in the path.
    pub fn push(&mut self, segment: BreadcrumbSegment<'a>)
        ensures
            final(self)@ == old(self)@.push(segment@),
    {
        self.crumbs.push(segment);
        proof {
            assert(segment_views(self.crumbs@) =~= segment_views(old(self).crumbs@).push(segment@));
        }
    }

    /// The text of the path, outermost segment first, such as `.items[2].name`.
    pub fn to_string(&self) -> (s: String)
        ensures
            s@ == path_text(self@),
    {
        let ghost path = self@;
        let mut s = String::new();
        let mut k: usize = self.crumbs.len();
        assert(path.take(k as int) =~= path);
        while k > 0
            invariant
                k <= self.crumbs@.len(),
                path == segment_views(self.crumbs@),
                path_text(path) == s@ + path_text(path.take(k as int)),
            decreases k,
        {
            let next = segment_string(&self.crumbs[k - 1]);
            proof {
                let taken = path.take(k as int);
                assert(taken.drop_last() =~= path.take(k - 1));
                assert(taken.last() == self.crumbs@[k - 1]@);
            }
            s.append(next.as_str());
            k = k - 1;
        }
        s
    }

    /// Appends the `Debug` text of the path to `out`.
    pub fn push_debug(&self, out: &mut String)
        ensures
            final(out)@ == old(out)@ + breadcrumb_debug(self@),
    {
        let ghost start = old(out)@;
        let ghost items = self@.map_values(|s: SegmentView| segment_debug(s));
        out.append("Breadcrumb { crumbs: [");
        let mut i: usize = 0;
        while i < self.crumbs.len()
            invariant
                i <= self.crumbs@.len(),
                items == self@.map_values(|s: SegmentView| segment_debug(s)),
                self@ == segment_views(self.crumbs@),
                out@ == start + "Breadcrumb { crumbs: ["@ + comma_joined(items.take(i as int)),
            decreases self.crumbs@.len() - i,
        {
            proof {
                let taken = items.take(i + 1);
                assert(taken.drop_last() =~= items.take(i as int));
                assert(taken.last() == segment_debug(self.crumbs@[i as int]@));
                if i == 0 {
                    assert(taken.len() == 1);
                }
            }
            if i > 0 {
                out.append(", ");
            }
            push_segment_debug(out, &self.crumbs[i]);
            proof {
                if i == 0 {
                    assert(comma_joined(items.take(0)) == Seq::<char>::empty());
                }
            }
            i = i + 1;
        }
        proof {
            assert(items.take(self.crumbs@.len() as int) =~= items);
        }
        out.append("] }");
    }
}

impl<'a> View for Breadcrumb<'a> {
    type V = Seq<SegmentView>;

    closed spec fn view(&self) -> Seq<SegmentView> {
        segment_views(self.crumbs@)
    }
}

impl<'a> Default for Breadcrumb<'a> {
    fn default() -> (b: Breadcrumb<'a>)
        ensures
            b@ == Seq::<SegmentView>::empty(),
    {
        Breadcrumb::empty()
    }
}

} // verus!
