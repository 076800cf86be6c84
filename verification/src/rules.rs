//! Rules: what they are given, and helpers to read a tree with.

pub mod al05;
pub mod cv11;
pub mod st02;

use crate::dialect::DialectKind;
use crate::lint::{LintFix, LintFixView, LintResult, LintResultView};
use crate::segments::{
    lemma_views_concat, lemma_views_index, lemma_views_push, views_of, Segment, SegmentView,
};
use crate::syntax::SyntaxKind;
use crate::text::{to_upper, uppercase_of};
use itertools::chain;
use itertools::Itertools;
use vstd::prelude::*;
use vstd::string::*;
use vstd::utf8::*;

verus! {

/// The groups that a rule can be part of.
#[derive(Clone, Copy, Debug, PartialEq, Eq, Structural)]
pub enum RuleGroups {
    All,
    Core,
    Aliasing,
    Convention,
    Structure,
}

/// How the tree is walked for a rule: the rule is given every segment of
/// one of the kinds.
#[derive(Debug)]
pub struct Crawler {
    pub kinds: Vec<SyntaxKind>,
}

/// What a rule is given: the segment to look at, and the dialect that the
/// text is in.
#[derive(Debug)]
pub struct RuleContext {
    pub segment: Segment,
    pub dialect: DialectKind,
}

/// Those of the segments that are of kind `kind`, in order.
pub open spec fn of_kind(segments: Seq<SegmentView>, kind: SyntaxKind) -> Seq<SegmentView>
    decreases segments.len(),
{
    if segments.len() == 0 {
        seq![]
    } else if segments.last().kind() == kind {
        of_kind(segments.drop_last(), kind).push(segments.last())
    } else {
        of_kind(segments.drop_last(), kind)
    }
}

/// The children of the segments, in order.
pub open spec fn children_of(segments: Seq<SegmentView>) -> Seq<SegmentView>
    decreases segments.len(),
{
    if segments.len() == 0 {
        seq![]
    } else {
        children_of(segments.drop_last()) + segments.last().children()
    }
}

/// The text of a segment in upper case.
pub open spec fn raw_upper(segment: SegmentView) -> Seq<char> {
    uppercase_of(decode_utf8(segment.raw()))
}

/// The texts of the segments in upper case, in order.
pub open spec fn raw_uppers(segments: Seq<SegmentView>) -> Seq<Seq<char>> {
    Seq::new(segments.len(), |i: int| raw_upper(segments[i]))
}

/// A new leaf of kind `kind` with the text `text`, without a position.
pub open spec fn new_leaf(kind: SyntaxKind, text: Seq<char>) -> SegmentView {
    SegmentView::Leaf { kind, raw: encode_utf8(text), position: None }
}

/// The result at `anchor` with the given fixes and description.
pub open spec fn result_at(
    anchor: SegmentView,
    fixes: Seq<LintFixView>,
    description: Option<Seq<char>>,
) -> LintResultView {
    LintResultView { anchor: Some(anchor), fixes, description }
}

/// Copies of those of the segments that are of kind `kind`.
pub fn select_kind(segments: &[Segment], kind: SyntaxKind) -> (r: Vec<Segment>)
    ensures
        views_of(r@) == of_kind(views_of(segments@), kind),
{
    let ghost views = views_of(segments@);
    proof {
        lemma_views_index(segments@);
        assert(views.take(0) =~= Seq::<SegmentView>::empty());
    }
    let mut out: Vec<Segment> = Vec::new();
    assert(views_of(out@) =~= Seq::<SegmentView>::empty());
    let mut i: usize = 0;
    while i < segments.len()
        invariant
            views == views_of(segments@),
            views.len() == segments@.len(),
            forall|j: int|
                0 <= j < segments@.len() ==> views[j] == (#[trigger] segments@[j]).deep_view(),
            i <= segments@.len(),
            views_of(out@) == of_kind(views.take(i as int), kind),
        decreases segments@.len() - i,
    {
        proof {
            assert(views.take(i + 1).drop_last() =~= views.take(i as int));
            assert(views.take(i + 1).last() == views[i as int]);
        }
        if segments[i].is_type(kind) {
            let copy = segments[i].clone_segment();
            proof {
                lemma_views_push(out@, copy);
            }
            out.push(copy);
        }
        i += 1;
    }
    assert(views.take(i as int) =~= views);
    out
}

/// Copies of the children of the segments, in order.
pub fn children_of_all(segments: &[Segment]) -> (r: Vec<Segment>)
    ensures
        views_of(r@) == children_of(views_of(segments@)),
{
    let ghost views = views_of(segments@);
    proof {
        lemma_views_index(segments@);
        assert(views.take(0) =~= Seq::<SegmentView>::empty());
    }
    let mut out: Vec<Segment> = Vec::new();
    assert(views_of(out@) =~= Seq::<SegmentView>::empty());
    let mut i: usize = 0;
    while i < segments.len()
        invariant
            views == views_of(segments@),
            views.len() == segments@.len(),
            forall|j: int|
                0 <= j < segments@.len() ==> views[j] == (#[trigger] segments@[j]).deep_view(),
            i <= segments@.len(),
            views_of(out@) == children_of(views.take(i as int)),
        decreases segments@.len() - i,
    {
        let mut copies = crate::segments::clone_segments(segments[i].segments());
        proof {
            assert(views.take(i + 1).drop_last() =~= views.take(i as int));
            assert(views.take(i + 1).last() == views[i as int]);
            lemma_views_concat(out@, copies@);
        }
        out.append(&mut copies);
        i += 1;
    }
    assert(views.take(i as int) =~= views);
    out
}

/// The text of the segment in upper case.
pub fn get_raw_upper(segment: &Segment) -> (r: String)
    ensures
        r@ == raw_upper(segment.deep_view()),
{
    let raw = segment.raw();
    proof {
        encode_utf8_decode_utf8(raw@);
    }
    to_upper(raw.as_str())
}

/// A new leaf of kind `kind` with the text `text`, without a position.
pub fn create_leaf(kind: SyntaxKind, text: &str) -> (r: Segment)
    ensures
        r.deep_view() == new_leaf(kind, text@),
{
    Segment::leaf(kind, text.to_owned(), None)
}

/// `itertools::chain`, gathered into a list: the items of the first list
/// followed by those of the second.
#[verifier::external_body]
pub(crate) fn chain_all(first: Vec<Segment>, second: Vec<Segment>) -> (r: Vec<Segment>)
    ensures
        r@ == first@ + second@,
{
    chain(first, second).collect_vec()
}

/// The one result as a list.
pub fn one_result(result: LintResult) -> (r: Vec<LintResult>)
    ensures
        r.deep_view() == seq![result.deep_view()],
{
    let mut out: Vec<LintResult> = Vec::new();
    out.push(result);
    assert(out.deep_view() =~= seq![result.deep_view()]);
    out
}

/// No result.
pub fn no_result() -> (r: Vec<LintResult>)
    ensures
        r.deep_view() == Seq::<LintResultView>::empty(),
{
    let out: Vec<LintResult> = Vec::new();
    assert(out.deep_view() =~= Seq::<LintResultView>::empty());
    out
}

/// The one fix as a list.
pub fn one_fix(fix: LintFix) -> (r: Vec<LintFix>)
    ensures
        r.deep_view() == seq![fix.deep_view()],
{
    let mut out: Vec<LintFix> = Vec::new();
    out.push(fix);
    assert(out.deep_view() =~= seq![fix.deep_view()]);
    out
}

/// The index of the first of `segments`, at or after `from`, that is of
/// kind `kind`.
pub open spec fn first_of_kind(segments: Seq<SegmentView>, kind: SyntaxKind, from: int) -> Option<
    int,
>
    decreases segments.len() - from,
{
    if from < 0 || from >= segments.len() {
        None
    } else if segments[from].kind() == kind {
        Some(from)
    } else {
        first_of_kind(segments, kind, from + 1)
    }
}

/// The index of the first of the segments that is of kind `kind`.
pub fn position_of_kind(segments: &[Segment], kind: SyntaxKind) -> (r: Option<usize>)
    ensures
        r is Some <==> first_of_kind(views_of(segments@), kind, 0) is Some,
        r matches Some(i) ==> i < segments@.len() && first_of_kind(views_of(segments@), kind, 0)
            == Some(i as int),
{
    let ghost views = views_of(segments@);
    proof {
        lemma_views_index(segments@);
    }
    let mut i: usize = 0;
    while i < segments.len()
        invariant
            views == views_of(segments@),
            views.len() == segments@.len(),
            forall|j: int|
                0 <= j < segments@.len() ==> views[j] == (#[trigger] segments@[j]).deep_view(),
            i <= segments@.len(),
            first_of_kind(views, kind, 0) == first_of_kind(views, kind, i as int),
        decreases segments@.len() - i,
    {
        if segments[i].is_type(kind) {
            return Some(i);
        }
        i += 1;
    }
    None
}

} // verus!
