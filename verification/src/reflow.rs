//! The reflow sequence: the leaves of a tree as blocks of code with points
//! of spacing between them, and the edits of that sequence that a rule can
//! ask for.

use crate::config::FluffConfig;
use crate::lint::{fixes_of, LintFix, LintFixView, LintResult, LintResultView};
use crate::segments::{
    clone_segments, collect_raw_segments_of, leaves_of, lemma_views_concat, lemma_views_index,
    lemma_views_push, lemma_views_subrange, raws_joined, same_segments, views_of, Segment,
    SegmentView,
};
use crate::syntax::SyntaxKind;
use crate::text::same_text;
use itertools::Itertools;
use vstd::prelude::*;
use vstd::slice::slice_subrange;
use vstd::string::*;
use vstd::utf8::*;

verus! {

/// Where a leaf stands in the tree: the kinds of the nodes above it, from
/// the root down.
#[derive(Debug)]
pub struct DepthInfo {
    pub stack_kinds: Vec<SyntaxKind>,
}

/// A leaf with where it stands.
#[derive(Debug)]
pub struct DepthEntry {
    pub segment: Segment,
    pub info: DepthInfo,
}

/// The model of a `DepthEntry`.
pub struct DepthEntryView {
    pub segment: SegmentView,
    pub stack_kinds: Seq<SyntaxKind>,
}

impl DeepView for DepthEntry {
    type V = DepthEntryView;

    open spec fn deep_view(&self) -> DepthEntryView {
        DepthEntryView { segment: self.segment.deep_view(), stack_kinds: self.info.stack_kinds@ }
    }
}

/// For the leaves of a tree, where each stands. Of two entries for the
/// same leaf the first counts.
#[derive(Debug)]
pub struct DepthMap {
    pub entries: Vec<DepthEntry>,
}

/// The stack of the first entry, at or after `from`, for `segment`.
pub open spec fn depth_lookup(entries: Seq<DepthEntryView>, segment: SegmentView, from: int) -> Option<
    Seq<SyntaxKind>,
>
    decreases entries.len() - from,
{
    if from < 0 || from >= entries.len() {
        None
    } else if entries[from].segment == segment {
        Some(entries[from].stack_kinds)
    } else {
        depth_lookup(entries, segment, from + 1)
    }
}

/// The entries for the leaves below `segment`, which stands below nodes of
/// the kinds `stack`.
pub open spec fn depths_under(segment: SegmentView, stack: Seq<SyntaxKind>) -> Seq<DepthEntryView>
    decreases segment, 1nat,
{
    match segment {
        SegmentView::Leaf { .. } => seq![DepthEntryView { segment, stack_kinds: stack }],
        SegmentView::Node { kind, children, .. } => depths_under_all(children, stack.push(kind)),
    }
}

/// The entries for the leaves below `segments`, which stand below nodes of
/// the kinds `stack`.
pub open spec fn depths_under_all(segments: Seq<SegmentView>, stack: Seq<SyntaxKind>) -> Seq<
    DepthEntryView,
>
    decreases segments, 0nat,
{
    if segments.len() == 0 {
        seq![]
    } else {
        depths_under_all(segments.drop_last(), stack) + depths_under(segments.last(), stack)
    }
}

/// The entries for the leaves `raws`: each with the stack that it has
/// below `root`, and with no stack if it is not below `root`.
pub open spec fn depths_of_raws(raws: Seq<SegmentView>, root: SegmentView) -> Seq<DepthEntryView> {
    Seq::new(
        raws.len(),
        |i: int|
            DepthEntryView {
                segment: raws[i],
                stack_kinds: match depth_lookup(depths_under(root, seq![]), raws[i], 0) {
                    Some(stack) => stack,
                    None => seq![],
                },
            },
    )
}

/// The entries with one more before them: `new_segment` with the stack of
/// `anchor`, the last `trim` kinds taken off. Where `anchor` has no entry
/// the entries are as they were.
pub open spec fn depth_copied(
    entries: Seq<DepthEntryView>,
    anchor: SegmentView,
    new_segment: SegmentView,
    trim: int,
) -> Seq<DepthEntryView> {
    match depth_lookup(entries, anchor, 0) {
        Some(stack) => seq![
            DepthEntryView { segment: new_segment, stack_kinds: stack_trimmed(stack, trim) },
        ] + entries,
        None => entries,
    }
}

/// The entries after each of `news`, from the `k`-th on, was given the
/// stack of `anchor` in turn.
pub open spec fn depths_copied(
    entries: Seq<DepthEntryView>,
    anchor: SegmentView,
    news: Seq<SegmentView>,
    k: int,
    trim: int,
) -> Seq<DepthEntryView>
    decreases news.len() - k,
{
    if k < 0 || k >= news.len() {
        entries
    } else {
        depths_copied(depth_copied(entries, anchor, news[k], trim), anchor, news, k + 1, trim)
    }
}

/// The stack with the last `amount` kinds taken off.
pub open spec fn stack_trimmed(stack: Seq<SyntaxKind>, amount: int) -> Seq<SyntaxKind> {
    if amount >= stack.len() {
        seq![]
    } else if amount <= 0 {
        stack
    } else {
        stack.take(stack.len() - amount)
    }
}

/// A copy of the kinds.
fn clone_kinds(kinds: &Vec<SyntaxKind>) -> (r: Vec<SyntaxKind>)
    ensures
        r@ == kinds@,
{
    let mut out: Vec<SyntaxKind> = Vec::new();
    let mut i: usize = 0;
    while i < kinds.len()
        invariant
            i <= kinds@.len(),
            out@ == kinds@.take(i as int),
        decreases kinds@.len() - i,
    {
        out.push(kinds[i]);
        assert(kinds@.take(i + 1) =~= kinds@.take(i as int).push(kinds@[i as int]));
        i += 1;
    }
    assert(kinds@.take(i as int) =~= kinds@);
    out
}

/// Puts the entries for the leaves below `segments` behind `out`.
fn collect_depths_of(segments: &[Segment], stack: &Vec<SyntaxKind>, out: &mut Vec<DepthEntry>)
    ensures
        final(out).deep_view() == old(out).deep_view() + depths_under_all(
            views_of(segments@),
            stack@,
        ),
    decreases segments@, 0nat,
{
    let ghost views = views_of(segments@);
    let ghost start = out.deep_view();
    proof {
        lemma_views_index(segments@);
        assert(views.take(0) =~= Seq::<SegmentView>::empty());
        assert(start + depths_under_all(views.take(0), stack@) =~= start);
    }
    let mut i: usize = 0;
    while i < segments.len()
        invariant
            views == views_of(segments@),
            views.len() == segments@.len(),
            forall|j: int|
                0 <= j < segments@.len() ==> views[j] == (#[trigger] segments@[j]).deep_view(),
            i <= segments@.len(),
            out.deep_view() == start + depths_under_all(views.take(i as int), stack@),
        decreases segments@.len() - i,
    {
        collect_depths(&segments[i], stack, out);
        proof {
            assert(views.take(i + 1).drop_last() =~= views.take(i as int));
            assert(views.take(i + 1).last() == views[i as int]);
            assert(start + depths_under_all(views.take(i as int), stack@) + depths_under(
                views[i as int],
                stack@,
            ) =~= start + (depths_under_all(views.take(i as int), stack@) + depths_under(
                views[i as int],
                stack@,
            )));
        }
        i += 1;
    }
    assert(views.take(i as int) =~= views);
}

/// Puts the entries for the leaves below `segment` behind `out`.
fn collect_depths(segment: &Segment, stack: &Vec<SyntaxKind>, out: &mut Vec<DepthEntry>)
    ensures
        final(out).deep_view() == old(out).deep_view() + depths_under(
            segment.deep_view(),
            stack@,
        ),
    decreases *segment, 1nat,
{
    match segment {
        Segment::Leaf { .. } => {
            let ghost before = out.deep_view();
            out.push(
                DepthEntry {
                    segment: segment.clone_segment(),
                    info: DepthInfo { stack_kinds: clone_kinds(stack) },
                },
            );
            assert(out.deep_view() =~= before + seq![
                DepthEntryView { segment: segment.deep_view(), stack_kinds: stack@ },
            ]);
        },
        Segment::Node { kind, children, .. } => {
            let mut deeper = clone_kinds(stack);
            deeper.push(*kind);
            collect_depths_of(children.as_slice(), &deeper, out);
        },
    }
}

impl DepthMap {
    /// The stack of the first entry for `segment`, if there is one.
    pub fn get_depth_info(&self, segment: &Segment) -> (r: Option<DepthInfo>)
        ensures
            r is Some <==> depth_lookup(self.entries.deep_view(), segment.deep_view(), 0) is Some,
            r matches Some(info) ==> depth_lookup(
                self.entries.deep_view(),
                segment.deep_view(),
                0,
            ) == Some(info.stack_kinds@),
    {
        let ghost entries = self.entries.deep_view();
        let mut i: usize = 0;
        while i < self.entries.len()
            invariant
                entries == self.entries.deep_view(),
                i <= self.entries@.len(),
                depth_lookup(entries, segment.deep_view(), 0) == depth_lookup(
                    entries,
                    segment.deep_view(),
                    i as int,
                ),
            decreases self.entries@.len() - i,
        {
            assert(entries[i as int] == self.entries@[i as int].deep_view());
            if self.entries[i].segment.same(segment) {
                return Some(DepthInfo { stack_kinds: clone_kinds(&self.entries[i].info.stack_kinds) });
            }
            i += 1;
        }
        None
    }

    /// The map of the leaves below `parent`.
    pub fn from_parent(parent: &Segment) -> (r: Self)
        ensures
            r.entries.deep_view() == depths_under(parent.deep_view(), seq![]),
    {
        let mut entries: Vec<DepthEntry> = Vec::new();
        let stack: Vec<SyntaxKind> = Vec::new();
        assert(entries.deep_view() =~= Seq::<DepthEntryView>::empty());
        collect_depths(parent, &stack, &mut entries);
        assert(Seq::<DepthEntryView>::empty() + depths_under(parent.deep_view(), stack@)
            =~= depths_under(parent.deep_view(), seq![]));
        DepthMap { entries }
    }

    /// The map of the leaves `raws`: each with the stack that it has below
    /// `root`, and with no stack if it is not below `root`.
    pub fn from_raws_and_root(raws: Vec<Segment>, root: &Segment) -> (r: Self)
        ensures
            r.entries.deep_view() == depths_of_raws(views_of(raws@), root.deep_view()),
    {
        let whole = DepthMap::from_parent(root);
        let ghost views = views_of(raws@);
        let ghost goal = depths_of_raws(views, root.deep_view());
        proof {
            lemma_views_index(raws@);
        }
        let mut entries: Vec<DepthEntry> = Vec::new();
        let mut i: usize = 0;
        while i < raws.len()
            invariant
                views == views_of(raws@),
                views.len() == raws@.len(),
                forall|j: int| 0 <= j < raws@.len() ==> views[j] == (#[trigger] raws@[j]).deep_view(),
                whole.entries.deep_view() == depths_under(root.deep_view(), seq![]),
                goal == depths_of_raws(views, root.deep_view()),
                i <= raws@.len(),
                entries.deep_view() == goal.take(i as int),
            decreases raws@.len() - i,
        {
            let ghost before = entries.deep_view();
            let info = match whole.get_depth_info(&raws[i]) {
                Some(info) => info,
                None => DepthInfo { stack_kinds: Vec::new() },
            };
            entries.push(DepthEntry { segment: raws[i].clone_segment(), info });
            assert(entries.deep_view() =~= before.push(goal[i as int]));
            assert(goal.take(i + 1) =~= goal.take(i as int).push(goal[i as int]));
            i += 1;
        }
        assert(goal.take(i as int) =~= goal);
        DepthMap { entries }
    }

    /// Gives `new_segment` the stack of `anchor`, with the last `trim`
    /// kinds taken off, before all other entries. Where there is no entry
    /// for `anchor` nothing is changed, and the result is false.
    pub fn copy_depth_info(&mut self, anchor: &Segment, new_segment: Segment, trim: usize) -> (r:
        bool)
        ensures
            r == depth_lookup(old(self).entries.deep_view(), anchor.deep_view(), 0) is Some,
            final(self).entries.deep_view() == depth_copied(
                old(self).entries.deep_view(),
                anchor.deep_view(),
                new_segment.deep_view(),
                trim as int,
            ),
    {
        let ghost before = self.entries.deep_view();
        match self.get_depth_info(anchor) {
            Some(info) => {
                let mut kinds = info.stack_kinds;
                let ghost stack = kinds@;
                let keep = if trim >= kinds.len() {
                    0
                } else {
                    kinds.len() - trim
                };
                kinds.truncate(keep);
                assert(kinds@ =~= stack_trimmed(stack, trim as int));
                let entry = DepthEntry { segment: new_segment, info: DepthInfo { stack_kinds: kinds } };
                let ghost view = entry.deep_view();
                self.entries.insert(0, entry);
                assert(self.entries.deep_view() =~= seq![view] + before);
                true
            },
            None => false,
        }
    }

    /// A copy of the map.
    pub fn clone_map(&self) -> (r: Self)
        ensures
            r.entries.deep_view() == self.entries.deep_view(),
    {
        let mut entries: Vec<DepthEntry> = Vec::new();
        let mut i: usize = 0;
        while i < self.entries.len()
            invariant
                i <= self.entries@.len(),
                entries.deep_view() == self.entries.deep_view().take(i as int),
            decreases self.entries@.len() - i,
        {
            let ghost before = entries.deep_view();
            let entry = &self.entries[i];
            entries.push(
                DepthEntry {
                    segment: entry.segment.clone_segment(),
                    info: DepthInfo { stack_kinds: clone_kinds(&entry.info.stack_kinds) },
                },
            );
            assert(entries.deep_view() =~= before.push(self.entries@[i as int].deep_view()));
            assert(self.entries.deep_view().take(i + 1) =~= self.entries.deep_view().take(
                i as int,
            ).push(self.entries@[i as int].deep_view()));
            i += 1;
        }
        assert(self.entries.deep_view().take(i as int) =~= self.entries.deep_view());
        DepthMap { entries }
    }
}

/// How text is laid out.
#[derive(Clone, Copy, Debug, PartialEq, Eq, Structural)]
pub struct ReflowConfig {
    pub tab_space_size: usize,
    pub max_line_length: usize,
    pub allow_implicit_indents: bool,
}

impl ReflowConfig {
    /// The layout that goes with a configuration.
    pub fn from_fluff_config(_config: &FluffConfig) -> (r: Self)
        ensures
            r == (ReflowConfig {
                tab_space_size: 4,
                max_line_length: 80,
                allow_implicit_indents: false,
            }),
    {
        ReflowConfig { tab_space_size: 4, max_line_length: 80, allow_implicit_indents: false }
    }
}

/// A point: the spacing between two blocks, which may be none.
#[derive(Debug)]
pub struct ReflowPoint {
    pub segments: Vec<Segment>,
}

/// A block: a leaf that is no spacing, with where it stands in the tree.
#[derive(Debug)]
pub struct ReflowBlock {
    pub segments: Vec<Segment>,
    pub depth_info: Option<DepthInfo>,
}

/// An element of a reflow sequence.
#[derive(Debug)]
pub enum ReflowElement {
    Block(ReflowBlock),
    Point(ReflowPoint),
}

/// The model of an element.
pub enum ReflowElementView {
    Block { segments: Seq<SegmentView>, stack_kinds: Option<Seq<SyntaxKind>> },
    Point { segments: Seq<SegmentView> },
}

impl ReflowElementView {
    /// The segments of the element.
    pub open spec fn segments(self) -> Seq<SegmentView> {
        match self {
            ReflowElementView::Block { segments, .. } => segments,
            ReflowElementView::Point { segments } => segments,
        }
    }
}

impl DeepView for ReflowElement {
    type V = ReflowElementView;

    open spec fn deep_view(&self) -> ReflowElementView {
        match *self {
            ReflowElement::Block(block) => ReflowElementView::Block {
                segments: views_of(block.segments@),
                stack_kinds: match block.depth_info {
                    Some(info) => Some(info.stack_kinds@),
                    None => None,
                },
            },
            ReflowElement::Point(point) => ReflowElementView::Point {
                segments: views_of(point.segments@),
            },
        }
    }
}

impl ReflowPoint {
    /// The point of the given spacing.
    pub fn new(segments: Vec<Segment>) -> (r: Self)
        ensures
            r.segments == segments,
    {
        ReflowPoint { segments }
    }
}

impl ReflowBlock {
    /// The block of the given segments, which stand where `depth_info`
    /// says.
    pub fn from_config(segments: Vec<Segment>, _config: &ReflowConfig, depth_info: Option<DepthInfo>) -> (r:
        Self)
        ensures
            r.segments == segments,
            r.depth_info == depth_info,
    {
        ReflowBlock { segments, depth_info }
    }
}

impl ReflowElement {
    /// The segments of the element.
    pub fn segments(&self) -> (r: &[Segment])
        ensures
            views_of(r@) == self.deep_view().segments(),
    {
        match self {
            ReflowElement::Block(block) => block.segments.as_slice(),
            ReflowElement::Point(point) => point.segments.as_slice(),
        }
    }

    /// A copy of the element.
    pub fn clone_element(&self) -> (r: Self)
        ensures
            r.deep_view() == self.deep_view(),
    {
        match self {
            ReflowElement::Block(block) => ReflowElement::Block(
                ReflowBlock {
                    segments: clone_segments(block.segments.as_slice()),
                    depth_info: match &block.depth_info {
                        Some(info) => Some(DepthInfo { stack_kinds: clone_kinds(&info.stack_kinds) }),
                        None => None,
                    },
                },
            ),
            ReflowElement::Point(point) => ReflowElement::Point(
                ReflowPoint { segments: clone_segments(point.segments.as_slice()) },
            ),
        }
    }

    /// The text of the element.
    pub fn raw(&self) -> (r: String)
        ensures
            encode_utf8(r@) == raws_joined(self.deep_view().segments()),
    {
        let mut out = String::new();
        assert(encode_utf8(Seq::<char>::empty()) =~= Seq::<u8>::empty());
        crate::segments::push_raws_of(self.segments(), &mut out);
        assert(Seq::<u8>::empty() + raws_joined(self.deep_view().segments()) =~= raws_joined(
            self.deep_view().segments(),
        ));
        out
    }
}

/// Whether a segment of the kind is spacing: blank space, a line break, or
/// a marker of indentation.
pub open spec fn is_spacing(kind: SyntaxKind) -> bool {
    kind == SyntaxKind::Whitespace || kind == SyntaxKind::Newline || kind == SyntaxKind::Indent
        || kind == SyntaxKind::Dedent
}

/// The elements with the point of the spacing `buffer` behind them, unless
/// there is neither an element nor spacing.
pub open spec fn with_point(elements: Seq<ReflowElementView>, buffer: Seq<SegmentView>) -> Seq<
    ReflowElementView,
> {
    if elements.len() > 0 || buffer.len() > 0 {
        elements.push(ReflowElementView::Point { segments: buffer })
    } else {
        elements
    }
}

/// The elements that the leaves `raws`, from the `k`-th on, make, behind
/// the `elements` that the leaves before made and the spacing `buffer`
/// that is gathered. Spacing is gathered; a leaf that is no spacing ends
/// the point before it, which may hold no spacing, and is a block of its
/// own. Spacing that is left at the end is a last point.
pub open spec fn elements_from(
    raws: Seq<SegmentView>,
    k: int,
    depths: Seq<DepthEntryView>,
    elements: Seq<ReflowElementView>,
    buffer: Seq<SegmentView>,
) -> Seq<ReflowElementView>
    decreases raws.len() - k,
{
    if k < 0 || k >= raws.len() {
        if buffer.len() > 0 {
            elements.push(ReflowElementView::Point { segments: buffer })
        } else {
            elements
        }
    } else if is_spacing(raws[k].kind()) {
        elements_from(raws, k + 1, depths, elements, buffer.push(raws[k]))
    } else {
        elements_from(
            raws,
            k + 1,
            depths,
            with_point(elements, buffer).push(
                ReflowElementView::Block {
                    segments: seq![raws[k]],
                    stack_kinds: depth_lookup(depths, raws[k], 0),
                },
            ),
            seq![],
        )
    }
}

/// The texts of the elements, joined in order.
pub open spec fn elements_raw(elements: Seq<ReflowElementView>) -> Seq<char>
    decreases elements.len(),
{
    if elements.len() == 0 {
        seq![]
    } else {
        elements_raw(elements.drop_last()) + decode_utf8(raws_joined(elements.last().segments()))
    }
}

/// The texts, joined in order.
pub open spec fn texts_concat(texts: Seq<Seq<char>>) -> Seq<char>
    decreases texts.len(),
{
    if texts.len() == 0 {
        seq![]
    } else {
        texts_concat(texts.drop_last()) + texts.last()
    }
}

/// `Itertools::join` with an empty separator, over texts: the texts one
/// behind the other.
#[verifier::external_body]
fn join_all(parts: &Vec<String>) -> (r: String)
    ensures
        r@ == texts_concat(Seq::new(parts@.len(), |i: int| parts@[i]@)),
{
    parts.iter().join("")
}

/// The segments of the elements, in order.
pub open spec fn elements_segments(elements: Seq<ReflowElementView>) -> Seq<SegmentView>
    decreases elements.len(),
{
    if elements.len() == 0 {
        seq![]
    } else {
        elements_segments(elements.drop_last()) + elements.last().segments()
    }
}

/// The index of the first element, at or after `from`, that holds
/// `target`.
pub open spec fn element_index_with(elements: Seq<ReflowElementView>, target: SegmentView, from: int) -> Option<
    int,
>
    decreases elements.len() - from,
{
    if from < 0 || from >= elements.len() {
        None
    } else if segment_index(elements[from].segments(), target, 0) is Some {
        Some(from)
    } else {
        element_index_with(elements, target, from + 1)
    }
}

/// The index of the first of `segments`, at or after `from`, that is
/// `target`.
pub open spec fn segment_index(segments: Seq<SegmentView>, target: SegmentView, from: int) -> Option<
    int,
>
    decreases segments.len() - from,
{
    if from < 0 || from >= segments.len() {
        None
    } else if segments[from] == target {
        Some(from)
    } else {
        segment_index(segments, target, from + 1)
    }
}

/// The index of the first of the segments that is `target`.
pub fn position_of(segments: &[Segment], target: &Segment) -> (r: Option<usize>)
    ensures
        r is Some <==> segment_index(views_of(segments@), target.deep_view(), 0) is Some,
        r matches Some(i) ==> i < segments@.len() && segment_index(
            views_of(segments@),
            target.deep_view(),
            0,
        ) == Some(i as int),
{
    let ghost views = views_of(segments@);
    proof {
        lemma_views_index(segments@);
    }
    let mut i: usize = 0;
    while i < segments.len()
        invariant
            views == views_of(segments@),
            views.len() == segments@.len(),
            forall|j: int|
                0 <= j < segments@.len() ==> views[j] == (#[trigger] segments@[j]).deep_view(),
            i <= segments@.len(),
            segment_index(views, target.deep_view(), 0) == segment_index(
                views,
                target.deep_view(),
                i as int,
            ),
        decreases segments@.len() - i,
    {
        if segments[i].same(target) {
            return Some(i);
        }
        i += 1;
    }
    None
}

/// Which of the elements a caller wants respaced.
#[derive(Clone, Copy, PartialEq, Eq, Debug, Structural)]
pub enum Filter {
    All,
    Inline,
    Newline,
}

/// A point of a sequence with the blocks before and behind it, each by
/// its index.
#[derive(Clone, Copy, Debug, PartialEq, Eq, Structural)]
pub struct PointWithConstraints {
    pub point: usize,
    pub pre: Option<usize>,
    pub post: Option<usize>,
}

/// The points among the elements up to the `upto`-th, each with the block
/// just before it and the block just behind it, where there is one.
pub open spec fn points_with_constraints(elements: Seq<ReflowElementView>, upto: int) -> Seq<
    PointWithConstraints,
>
    decreases upto,
{
    if upto <= 0 || upto > elements.len() {
        seq![]
    } else {
        let idx = upto - 1;
        let before = points_with_constraints(elements, idx);
        if elements[idx] is Point {
            before.push(
                PointWithConstraints {
                    point: idx as usize,
                    pre: if idx > 0 && elements[idx - 1] is Block {
                        Some((idx - 1) as usize)
                    } else {
                        None
                    },
                    post: if idx + 1 < elements.len() && elements[idx + 1] is Block {
                        Some((idx + 1) as usize)
                    } else {
                        None
                    },
                },
            )
        } else {
            before
        }
    }
}

/// The model of a reflow sequence.
pub struct ReflowSequenceView {
    pub root: SegmentView,
    pub elements: Seq<ReflowElementView>,
    pub results: Seq<LintResultView>,
    pub depths: Seq<DepthEntryView>,
    pub config: ReflowConfig,
}

/// The leaves of a tree as blocks and points, with the results of the
/// edits made on them.
#[derive(Debug)]
pub struct ReflowSequence {
    root_segment: Segment,
    elements: Vec<ReflowElement>,
    lint_results: Vec<LintResult>,
    reflow_config: ReflowConfig,
    depth_map: DepthMap,
}

impl DeepView for ReflowSequence {
    type V = ReflowSequenceView;

    closed spec fn deep_view(&self) -> ReflowSequenceView {
        ReflowSequenceView {
            root: self.root_segment.deep_view(),
            elements: self.elements.deep_view(),
            results: self.lint_results.deep_view(),
            depths: self.depth_map.entries.deep_view(),
            config: self.reflow_config,
        }
    }
}

/// Copies of the elements from `from` up to `to`.
fn clone_elements(elements: &Vec<ReflowElement>, from: usize, to: usize) -> (r: Vec<ReflowElement>)
    requires
        from <= to <= elements@.len(),
    ensures
        r.deep_view() == elements.deep_view().subrange(from as int, to as int),
{
    let ghost views = elements.deep_view();
    let mut out: Vec<ReflowElement> = Vec::new();
    let mut i: usize = from;
    while i < to
        invariant
            views == elements.deep_view(),
            from <= i <= to <= elements@.len(),
            out.deep_view() == views.subrange(from as int, i as int),
        decreases to - i,
    {
        let ghost before = out.deep_view();
        out.push(elements[i].clone_element());
        assert(views[i as int] == elements@[i as int].deep_view());
        assert(out.deep_view() =~= before.push(views[i as int]));
        assert(views.subrange(from as int, i + 1) =~= views.subrange(from as int, i as int).push(
            views[i as int],
        ));
        i += 1;
    }
    out
}

impl ReflowSequence {
    /// The text of the sequence: the texts of its elements, joined.
    pub fn raw(&self) -> (r: String)
        ensures
            r@ == elements_raw(self.deep_view().elements),
    {
        let ghost views = self.elements.deep_view();
        let mut parts: Vec<String> = Vec::new();
        let mut i: usize = 0;
        assert(views.take(0) =~= Seq::<ReflowElementView>::empty());
        assert(Seq::new(parts@.len(), |j: int| parts@[j]@) =~= Seq::<Seq<char>>::empty());
        while i < self.elements.len()
            invariant
                views == self.elements.deep_view(),
                i <= self.elements@.len(),
                parts@.len() == i,
                texts_concat(Seq::new(parts@.len(), |j: int| parts@[j]@)) == elements_raw(
                    views.take(i as int),
                ),
            decreases self.elements@.len() - i,
        {
            let ghost before = Seq::new(parts@.len(), |j: int| parts@[j]@);
            let part = self.elements[i].raw();
            proof {
                encode_utf8_decode_utf8(part@);
                assert(views[i as int] == self.elements@[i as int].deep_view());
                assert(views.take(i + 1).drop_last() =~= views.take(i as int));
                assert(views.take(i + 1).last() == views[i as int]);
            }
            parts.push(part);
            proof {
                let after = Seq::new(parts@.len(), |j: int| parts@[j]@);
                assert(after.drop_last() =~= before);
                assert(after.last() == part@);
            }
            i += 1;
        }
        assert(views.take(i as int) =~= views);
        join_all(&parts)
    }

    /// The results of the edits made on the sequence.
    pub fn results(self) -> (r: Vec<LintResult>)
        ensures
            r.deep_view() == self.deep_view().results,
    {
        self.lint_results
    }

    /// The fixes of the results, in the order of the results.
    pub fn fixes(self) -> (r: Vec<LintFix>)
        ensures
            r.deep_view() == fixes_of(self.deep_view().results),
    {
        let ghost goal = self.deep_view().results;
        let results = self.results();
        let mut out: Vec<LintFix> = Vec::new();
        let mut i: usize = 0;
        assert(goal.take(0) =~= Seq::<LintResultView>::empty());
        assert(out.deep_view() =~= Seq::<LintFixView>::empty());
        while i < results.len()
            invariant
                goal == results.deep_view(),
                i <= results@.len(),
                out.deep_view() == fixes_of(goal.take(i as int)),
            decreases results@.len() - i,
        {
            let fixes = &results[i].fixes;
            let ghost start = out.deep_view();
            proof {
                assert(goal[i as int] == results@[i as int].deep_view());
                assert(goal.take(i + 1).drop_last() =~= goal.take(i as int));
                assert(goal.take(i + 1).last() == goal[i as int]);
                assert(fixes.deep_view().take(0) =~= Seq::<LintFixView>::empty());
                assert(start + fixes.deep_view().take(0) =~= start);
            }
            let mut k: usize = 0;
            while k < fixes.len()
                invariant
                    k <= fixes@.len(),
                    out.deep_view() == start + fixes.deep_view().take(k as int),
                decreases fixes@.len() - k,
            {
                let ghost before = out.deep_view();
                out.push(fixes[k].clone_fix());
                assert(out.deep_view() =~= before.push(fixes@[k as int].deep_view()));
                assert(fixes.deep_view().take(k + 1) =~= fixes.deep_view().take(k as int).push(
                    fixes@[k as int].deep_view(),
                ));
                k += 1;
            }
            assert(fixes.deep_view().take(k as int) =~= fixes.deep_view());
            i += 1;
        }
        assert(goal.take(i as int) =~= goal);
        out
    }

    /// The elements of the sequence.
    pub fn elements(&self) -> (r: &[ReflowElement])
        ensures
            r.deep_view() == self.deep_view().elements,
    {
        let r = self.elements.as_slice();
        assert(r.deep_view() =~= self.elements.deep_view());
        r
    }

    /// The elements that the leaves `segments` make: see `elements_from`.
    pub fn elements_from_raw_segments(segments: Vec<Segment>, depth_map: &DepthMap, reflow_config: &ReflowConfig) -> (r:
        Vec<ReflowElement>)
        ensures
            r.deep_view() == elements_from(
                views_of(segments@),
                0,
                depth_map.entries.deep_view(),
                seq![],
                seq![],
            ),
    {
        let ghost raws = views_of(segments@);
        let ghost depths = depth_map.entries.deep_view();
        let ghost goal = elements_from(raws, 0, depths, seq![], seq![]);
        proof {
            lemma_views_index(segments@);
        }
        let mut elem_buff: Vec<ReflowElement> = Vec::new();
        let mut seg_buff: Vec<Segment> = Vec::new();
        assert(elem_buff.deep_view() =~= Seq::<ReflowElementView>::empty());
        assert(views_of(seg_buff@) =~= Seq::<SegmentView>::empty());
        let mut k: usize = 0;
        while k < segments.len()
            invariant
                raws == views_of(segments@),
                raws.len() == segments@.len(),
                forall|j: int|
                    0 <= j < segments@.len() ==> raws[j] == (#[trigger] segments@[j]).deep_view(),
                depths == depth_map.entries.deep_view(),
                k <= segments@.len(),
                goal == elements_from(
                    raws,
                    k as int,
                    depths,
                    elem_buff.deep_view(),
                    views_of(seg_buff@),
                ),
            decreases segments@.len() - k,
        {
            let seg = &segments[k];
            let kind = seg.get_type();
            let ghost before = elem_buff.deep_view();
            if kind == SyntaxKind::Whitespace || kind == SyntaxKind::Newline || kind
                == SyntaxKind::Indent || kind == SyntaxKind::Dedent {
                let copy = seg.clone_segment();
                proof {
                    lemma_views_push(seg_buff@, copy);
                }
                seg_buff.push(copy);
            } else {
                let ghost gathered = views_of(seg_buff@);
                proof {
                    lemma_views_index(seg_buff@);
                }
                if elem_buff.len() > 0 || seg_buff.len() > 0 {
                    elem_buff.push(ReflowElement::Point(ReflowPoint::new(seg_buff)));
                    seg_buff = Vec::new();
                }
                assert(elem_buff.deep_view() =~= with_point(before, gathered));
                let ghost pointed = elem_buff.deep_view();
                let depth_info = depth_map.get_depth_info(seg);
                let block = ReflowBlock::from_config(
                    crate::engine::single(seg.clone_segment()),
                    reflow_config,
                    depth_info,
                );
                elem_buff.push(ReflowElement::Block(block));
                assert(elem_buff.deep_view() =~= pointed.push(
                    ReflowElementView::Block {
                        segments: seq![raws[k as int]],
                        stack_kinds: depth_lookup(depths, raws[k as int], 0),
                    },
                ));
                assert(views_of(seg_buff@) =~= Seq::<SegmentView>::empty());
            }
            k += 1;
        }
        let ghost before = elem_buff.deep_view();
        let ghost gathered = views_of(seg_buff@);
        proof {
            lemma_views_index(seg_buff@);
        }
        if seg_buff.len() > 0 {
            elem_buff.push(ReflowElement::Point(ReflowPoint::new(seg_buff)));
            assert(elem_buff.deep_view() =~= before.push(
                ReflowElementView::Point { segments: gathered },
            ));
        }
        elem_buff
    }
}

/// The index of the code leaf at or before `i` that is nearest to it:
/// `fallback` where there is none.
pub open spec fn code_at_or_before(raws: Seq<SegmentView>, i: int, fallback: int) -> int
    decreases i + 1,
{
    if i < 0 || i >= raws.len() {
        fallback
    } else if raws[i].kind().is_code() {
        i
    } else {
        code_at_or_before(raws, i - 1, fallback)
    }
}

/// The index of the code leaf at or behind `i` that is nearest to it:
/// `fallback` where there is none.
pub open spec fn code_at_or_behind(raws: Seq<SegmentView>, i: int, fallback: int) -> int
    decreases raws.len() - i,
{
    if i < 0 || i >= raws.len() {
        fallback
    } else if raws[i].kind().is_code() {
        i
    } else {
        code_at_or_behind(raws, i + 1, fallback)
    }
}

/// The part of the leaves `all` around a target with the leaves
/// `target_raws`: from the first leaf of the target up to behind its last.
/// With the side "before" or "both" it begins at the nearest code leaf
/// before the target, or at the leaf before the target where there is no
/// such code; with the side "after" or "both" it ends behind the nearest
/// code leaf behind the target, or one leaf behind the target. There is no
/// such part where the target has no leaf, where a leaf of it is not among
/// `all`, or where the part would begin before the first leaf or end
/// behind the last.
pub open spec fn target_window(
    all: Seq<SegmentView>,
    target_raws: Seq<SegmentView>,
    sides: Seq<char>,
) -> Option<(int, int)> {
    if target_raws.len() == 0 {
        None
    } else {
        match (
            segment_index(all, target_raws[0], 0),
            segment_index(all, target_raws.last(), 0),
        ) {
            (Some(first), Some(last)) => {
                let before = sides == "both"@ || sides == "before"@;
                let after = sides == "both"@ || sides == "after"@;
                let pre = if before {
                    code_at_or_before(all, first - 1, first - 1)
                } else {
                    first
                };
                let post = if after {
                    code_at_or_behind(all, last + 1, last + 1) + 1
                } else {
                    last + 1
                };
                if 0 <= pre <= post <= all.len() {
                    Some((pre, post))
                } else {
                    None
                }
            },
            _ => None,
        }
    }
}

/// The index of the code leaf at or before `i` that is nearest to it.
fn code_before(raws: &[Segment], i: usize, fallback: usize) -> (r: usize)
    requires
        i < raws@.len(),
        fallback <= i,
    ensures
        r == code_at_or_before(views_of(raws@), i as int, fallback as int),
        r <= i,
{
    let ghost all = views_of(raws@);
    proof {
        lemma_views_index(raws@);
    }
    let mut k: usize = i;
    loop
        invariant
            all == views_of(raws@),
            all.len() == raws@.len(),
            forall|j: int| 0 <= j < raws@.len() ==> all[j] == (#[trigger] raws@[j]).deep_view(),
            k <= i < raws@.len(),
            fallback <= i,
            code_at_or_before(all, i as int, fallback as int) == code_at_or_before(
                all,
                k as int,
                fallback as int,
            ),
        decreases k,
    {
        if raws[k].is_code() {
            return k;
        }
        if k == 0 {
            assert(code_at_or_before(all, -1, fallback as int) == fallback);
            return fallback;
        }
        k -= 1;
    }
}

/// The index of the code leaf at or behind `i` that is nearest to it.
fn code_behind(raws: &[Segment], i: usize, fallback: usize) -> (r: usize)
    requires
        i <= raws@.len(),
        fallback <= raws@.len(),
    ensures
        r == code_at_or_behind(views_of(raws@), i as int, fallback as int),
        r <= raws@.len(),
{
    let ghost all = views_of(raws@);
    proof {
        lemma_views_index(raws@);
    }
    let n = raws.len();
    let mut k: usize = i;
    while k < n
        invariant
            n == raws@.len(),
            all == views_of(raws@),
            all.len() == raws@.len(),
            forall|j: int| 0 <= j < raws@.len() ==> all[j] == (#[trigger] raws@[j]).deep_view(),
            i <= k <= n,
            fallback <= n,
            code_at_or_behind(all, i as int, fallback as int) == code_at_or_behind(
                all,
                k as int,
                fallback as int,
            ),
        decreases n - k,
    {
        if raws[k].is_code() {
            return k;
        }
        k += 1;
    }
    fallback
}

/// The index of the first element that holds `target`.
fn find_element(elements: &Vec<ReflowElement>, target: &Segment) -> (r: Option<usize>)
    ensures
        r is Some <==> element_index_with(elements.deep_view(), target.deep_view(), 0) is Some,
        r matches Some(i) ==> i < elements@.len() && element_index_with(
            elements.deep_view(),
            target.deep_view(),
            0,
        ) == Some(i as int),
{
    let ghost views = elements.deep_view();
    let mut i: usize = 0;
    while i < elements.len()
        invariant
            views == elements.deep_view(),
            i <= elements@.len(),
            element_index_with(views, target.deep_view(), 0) == element_index_with(
                views,
                target.deep_view(),
                i as int,
            ),
        decreases elements@.len() - i,
    {
        assert(views[i as int] == elements@[i as int].deep_view());
        if position_of(elements[i].segments(), target).is_some() {
            return Some(i);
        }
        i += 1;
    }
    None
}

/// The result that stands for one fix at `target`.
fn result_for(target: &Segment, fix: LintFix) -> (r: Vec<LintResult>)
    ensures
        r.deep_view() == seq![
            LintResultView {
                anchor: Some(target.deep_view()),
                fixes: seq![fix.deep_view()],
                description: None,
            },
        ],
{
    let ghost fix_view = fix.deep_view();
    let mut fixes: Vec<LintFix> = Vec::new();
    fixes.push(fix);
    assert(fixes.deep_view() =~= seq![fix_view]);
    let mut results: Vec<LintResult> = Vec::new();
    results.push(LintResult::new(Some(target.clone_segment()), fixes, None));
    assert(results.deep_view() =~= seq![
        LintResultView {
            anchor: Some(target.deep_view()),
            fixes: seq![fix_view],
            description: None,
        },
    ]);
    results
}

/// The segments of the elements, in order.
fn segments_of_elements(elements: &Vec<ReflowElement>) -> (r: Vec<Segment>)
    ensures
        views_of(r@) == elements_segments(elements.deep_view()),
{
    let ghost views = elements.deep_view();
    let mut out: Vec<Segment> = Vec::new();
    let mut i: usize = 0;
    assert(views.take(0) =~= Seq::<ReflowElementView>::empty());
    assert(views_of(out@) =~= Seq::<SegmentView>::empty());
    while i < elements.len()
        invariant
            views == elements.deep_view(),
            i <= elements@.len(),
            views_of(out@) == elements_segments(views.take(i as int)),
        decreases elements@.len() - i,
    {
        let mut copies = clone_segments(elements[i].segments());
        proof {
            assert(views[i as int] == elements@[i as int].deep_view());
            assert(views.take(i + 1).drop_last() =~= views.take(i as int));
            assert(views.take(i + 1).last() == views[i as int]);
            lemma_views_concat(out@, copies@);
        }
        out.append(&mut copies);
        i += 1;
    }
    assert(views.take(i as int) =~= views);
    out
}

impl ReflowSequence {
    /// The sequence of the leaves `segments` of the tree `root_segment`.
    /// Where no depth map is given, the one of the leaves below the root is
    /// taken.
    pub fn from_raw_segments(
        segments: Vec<Segment>,
        root_segment: Segment,
        config: &FluffConfig,
        depth_map: Option<DepthMap>,
    ) -> (r: Self)
        ensures
            ({
                let depths = match depth_map {
                    Some(map) => map.entries.deep_view(),
                    None => depths_of_raws(views_of(segments@), root_segment.deep_view()),
                };
                r.deep_view() == (ReflowSequenceView {
                    root: root_segment.deep_view(),
                    elements: elements_from(views_of(segments@), 0, depths, seq![], seq![]),
                    results: seq![],
                    depths,
                    config: ReflowConfig {
                        tab_space_size: 4,
                        max_line_length: 80,
                        allow_implicit_indents: false,
                    },
                })
            }),
    {
        let reflow_config = ReflowConfig::from_fluff_config(config);
        let depth_map = match depth_map {
            Some(map) => map,
            None => DepthMap::from_raws_and_root(clone_segments(segments.as_slice()), &root_segment),
        };
        let elements = ReflowSequence::elements_from_raw_segments(
            segments,
            &depth_map,
            &reflow_config,
        );
        let lint_results: Vec<LintResult> = Vec::new();
        assert(lint_results.deep_view() =~= Seq::<LintResultView>::empty());
        ReflowSequence { root_segment, elements, lint_results, reflow_config, depth_map }
    }

    /// The sequence of all leaves of the tree `root_segment`.
    pub fn from_root(root_segment: Segment, config: &FluffConfig) -> (r: Self)
        ensures
            r.deep_view() == (ReflowSequenceView {
                root: root_segment.deep_view(),
                elements: elements_from(
                    root_segment.deep_view().leaves(),
                    0,
                    depths_under(root_segment.deep_view(), seq![]),
                    seq![],
                    seq![],
                ),
                results: seq![],
                depths: depths_under(root_segment.deep_view(), seq![]),
                config: ReflowConfig {
                    tab_space_size: 4,
                    max_line_length: 80,
                    allow_implicit_indents: false,
                },
            }),
    {
        let depth_map = DepthMap::from_parent(&root_segment);
        let raws = root_segment.get_raw_segments();
        ReflowSequence::from_raw_segments(raws, root_segment, config, Some(depth_map))
    }

    /// The sequence of the leaves around `target_segment`: see
    /// `target_window`. There must be such a part of the leaves of
    /// `root_segment`.
    pub fn from_around_target(
        target_segment: &Segment,
        root_segment: Segment,
        sides: &str,
        config: &FluffConfig,
    ) -> (r: ReflowSequence)
        requires
            target_window(
                root_segment.deep_view().leaves(),
                target_segment.deep_view().leaves(),
                sides@,
            ) is Some,
        ensures
            r.deep_view() == around_target(
                root_segment.deep_view(),
                target_segment.deep_view(),
                sides@,
            ),
    {
        match ReflowSequence::try_from_around_target(target_segment, root_segment, sides, config) {
            Some(sequence) => sequence,
            None => unreached(),
        }
    }

    /// What `from_around_target` gives where there is such a part of the
    /// leaves; none where there is not.
    pub fn try_from_around_target(
        target_segment: &Segment,
        root_segment: Segment,
        sides: &str,
        config: &FluffConfig,
    ) -> (r: Option<ReflowSequence>)
        ensures
            match target_window(
                root_segment.deep_view().leaves(),
                target_segment.deep_view().leaves(),
                sides@,
            ) {
                Some(_) => r matches Some(sequence) && sequence.deep_view() == around_target(
                    root_segment.deep_view(),
                    target_segment.deep_view(),
                    sides@,
                ),
                None => r is None,
            },
    {
        let all_raws = root_segment.get_raw_segments();
        let target_raws = target_segment.get_raw_segments();
        let ghost all = views_of(all_raws@);
        proof {
            lemma_views_index(all_raws@);
            lemma_views_index(target_raws@);
        }
        if target_raws.len() == 0 {
            return None;
        }
        let first = match position_of(all_raws.as_slice(), &target_raws[0]) {
            Some(i) => i,
            None => {
                return None;
            },
        };
        let last = match position_of(all_raws.as_slice(), &target_raws[target_raws.len() - 1]) {
            Some(i) => i,
            None => {
                return None;
            },
        };
        let before = same_text(sides, "both") || same_text(sides, "before");
        let after = same_text(sides, "both") || same_text(sides, "after");
        let n = all_raws.len();
        let mut pre_idx: usize = first;
        if before {
            if first == 0 {
                return None;
            }
            pre_idx = code_before(all_raws.as_slice(), first - 1, first - 1);
        }
        let mut post_idx: usize = last + 1;
        if after {
            post_idx = code_behind(all_raws.as_slice(), last + 1, last + 1);
            if post_idx >= n {
                return None;
            }
            post_idx += 1;
        }
        if pre_idx > post_idx || post_idx > n {
            return None;
        }
        let segments = clone_segments(slice_subrange(all_raws.as_slice(), pre_idx, post_idx));
        proof {
            lemma_views_subrange(all_raws@, pre_idx as int, post_idx as int);
        }
        Some(ReflowSequence::from_raw_segments(segments, root_segment, config, None))
    }

    /// The index of the first element that holds `target`.
    pub fn find_element_idx_with(&self, target: &Segment) -> (r: Option<usize>)
        ensures
            r is Some <==> element_index_with(self.deep_view().elements, target.deep_view(), 0)
                is Some,
            r matches Some(i) ==> i < self.deep_view().elements.len() && element_index_with(
                self.deep_view().elements,
                target.deep_view(),
                0,
            ) == Some(i as int),
    {
        find_element(&self.elements, target)
    }

    /// The points of the sequence, each with the block just before it and
    /// the block just behind it, where there is one.
    pub fn iter_points_with_constraints(&self) -> (r: Vec<PointWithConstraints>)
        ensures
            r@ == points_with_constraints(
                self.deep_view().elements,
                self.deep_view().elements.len() as int,
            ),
    {
        let ghost views = self.elements.deep_view();
        let n = self.elements.len();
        let mut out: Vec<PointWithConstraints> = Vec::new();
        let mut idx: usize = 0;
        while idx < n
            invariant
                n == self.elements@.len(),
                views == self.elements.deep_view(),
                idx <= n,
                out@ == points_with_constraints(views, idx as int),
            decreases n - idx,
        {
            assert(views[idx as int] == self.elements@[idx as int].deep_view());
            match &self.elements[idx] {
                ReflowElement::Point(_) => {
                    let mut pre: Option<usize> = None;
                    let mut post: Option<usize> = None;
                    if idx > 0 {
                        assert(views[idx - 1] == self.elements@[idx - 1].deep_view());
                        match &self.elements[idx - 1] {
                            ReflowElement::Block(_) => {
                                pre = Some(idx - 1);
                            },
                            _ => {},
                        }
                    }
                    if idx + 1 < n {
                        assert(views[idx + 1] == self.elements@[idx + 1].deep_view());
                        match &self.elements[idx + 1] {
                            ReflowElement::Block(_) => {
                                post = Some(idx + 1);
                            },
                            _ => {},
                        }
                    }
                    out.push(PointWithConstraints { point: idx, pre, post });
                },
                _ => {},
            }
            idx += 1;
        }
        out
    }

    /// The sequence with a block of `insertion` and an empty point put in
    /// before the element that holds `target`, where `pos` is "before";
    /// its one result proposes to create `insertion` before `target`. With
    /// another `pos` the sequence is as it was. An element must hold
    /// `target`.
    pub fn insert(self, insertion: Segment, target: Segment, pos: &str) -> (r: Self)
        requires
            element_index_with(self.deep_view().elements, target.deep_view(), 0) is Some,
        ensures
            r.deep_view() == inserted(
                self.deep_view(),
                insertion.deep_view(),
                target.deep_view(),
                pos@,
            ),
    {
        match self.try_insert(insertion, target, pos) {
            Some(after) => after,
            None => unreached(),
        }
    }

    /// The sequence without the block that holds `target`: the points on
    /// its two sides become one; its one result proposes to delete
    /// `target`. The first element that holds `target` must be a block
    /// that stands at neither end of the sequence.
    pub fn without(self, target: &Segment) -> (r: ReflowSequence)
        requires
            removable(self.deep_view(), target.deep_view()),
        ensures
            r.deep_view() == removed(self.deep_view(), target.deep_view()),
    {
        match self.try_without(target) {
            Some(after) => after,
            None => unreached(),
        }
    }

    /// What `insert` gives where an element holds `target`; none where
    /// none does.
    pub fn try_insert(self, insertion: Segment, target: Segment, pos: &str) -> (r: Option<Self>)
        ensures
            match element_index_with(self.deep_view().elements, target.deep_view(), 0) {
                Some(_) => r matches Some(after) && after.deep_view() == inserted(
                    self.deep_view(),
                    insertion.deep_view(),
                    target.deep_view(),
                    pos@,
                ),
                None => r is None,
            },
    {
        let target_idx = match self.find_element_idx_with(&target) {
            Some(i) => i,
            None => {
                return None;
            },
        };
        if same_text(pos, "before") {
            let ghost views = self.elements.deep_view();
            let new_block = ReflowBlock::from_config(
                crate::engine::single(insertion.clone_segment()),
                &self.reflow_config,
                self.depth_map.get_depth_info(&target),
            );
            let n = self.elements.len();
            let mut new_elements = clone_elements(&self.elements, 0, target_idx);
            new_elements.push(ReflowElement::Block(new_block));
            new_elements.push(ReflowElement::Point(ReflowPoint::new(crate::engine::no_nodes())));
            let mut rest = clone_elements(&self.elements, target_idx, n);
            new_elements.append(&mut rest);
            assert(new_elements.deep_view() =~= views.take(target_idx as int) + seq![
                ReflowElementView::Block {
                    segments: seq![insertion.deep_view()],
                    stack_kinds: depth_lookup(
                        self.depth_map.entries.deep_view(),
                        target.deep_view(),
                        0,
                    ),
                },
                ReflowElementView::Point { segments: seq![] },
            ] + views.skip(target_idx as int));
            let fix = LintFix::create_before(
                target.clone_segment(),
                crate::engine::single(insertion),
            );
            let new_lint_result = result_for(&target, fix);
            return Some(
                ReflowSequence {
                    root_segment: self.root_segment,
                    elements: new_elements,
                    lint_results: new_lint_result,
                    reflow_config: self.reflow_config,
                    depth_map: self.depth_map,
                },
            );
        }
        Some(self)
    }

    /// What `without` gives where the first element that holds `target` is
    /// a block that stands at neither end of the sequence; none where it
    /// is not, or no element holds `target`.
    pub fn try_without(self, target: &Segment) -> (r: Option<ReflowSequence>)
        ensures
            if removable(self.deep_view(), target.deep_view()) {
                r matches Some(after) && after.deep_view() == removed(
                    self.deep_view(),
                    target.deep_view(),
                )
            } else {
                r is None
            },
    {
        let removal_idx = match self.find_element_idx_with(target) {
            Some(i) => i,
            None => {
                return None;
            },
        };
        let n = self.elements.len();
        if removal_idx == 0 || removal_idx == n - 1 {
            return None;
        }
        let ghost views = self.elements.deep_view();
        assert(views[removal_idx as int] == self.elements@[removal_idx as int].deep_view());
        assert(views[removal_idx - 1] == self.elements@[removal_idx - 1].deep_view());
        assert(views[removal_idx + 1] == self.elements@[removal_idx + 1].deep_view());
        match &self.elements[removal_idx] {
            ReflowElement::Point(_) => {
                return None;
            },
            _ => {},
        }
        let mut merged = clone_segments(self.elements[removal_idx - 1].segments());
        let mut behind = clone_segments(self.elements[removal_idx + 1].segments());
        proof {
            lemma_views_concat(merged@, behind@);
        }
        merged.append(&mut behind);
        let merged_point = ReflowPoint::new(merged);
        let mut new_elements = clone_elements(&self.elements, 0, removal_idx - 1);
        new_elements.push(ReflowElement::Point(merged_point));
        let mut rest = clone_elements(&self.elements, removal_idx + 2, n);
        new_elements.append(&mut rest);
        assert(new_elements.deep_view() =~= views.take(removal_idx - 1) + seq![
            ReflowElementView::Point {
                segments: views[removal_idx - 1].segments() + views[removal_idx + 1].segments(),
            },
        ] + views.skip(removal_idx + 2));
        let fix = LintFix::delete(target.clone_segment());
        Some(
            ReflowSequence {
                elements: new_elements,
                root_segment: self.root_segment,
                lint_results: result_for(target, fix),
                reflow_config: self.reflow_config,
                depth_map: self.depth_map,
            },
        )
    }
}

/// How deep below `target` its first leaf stands: the number of nodes
/// from `target` down to it.
pub open spec fn first_leaf_depth(target: SegmentView) -> int {
    let below = depths_under(target, seq![]);
    if below.len() == 0 {
        0
    } else {
        below[0].stack_kinds.len() as int
    }
}

/// What replacing `target` by `edit` makes of a sequence: the depth map
/// after it and the sequence that comes of it. None where `target` has no
/// leaf, where its first leaf has no entry in the depth map though `edit`
/// has leaves, or where its first or last leaf is not among the segments of
/// the sequence.
///
/// The leaves of `edit` get the stack of the first leaf of `target`,
/// without the part of it that lies in `target`. They take the place of the
/// segments of the sequence from the first leaf of `target` to its last,
/// and the elements are made anew. The one result proposes the
/// replacement.
pub open spec fn replaced(before: ReflowSequenceView, target: SegmentView, edit: Seq<SegmentView>) -> Option<
    ReflowSequenceView,
> {
    let target_raws = target.leaves();
    let edit_raws = leaves_of(edit);
    let current = elements_segments(before.elements);
    if target_raws.len() == 0 {
        None
    } else if edit_raws.len() > 0 && depth_lookup(before.depths, target_raws[0], 0) is None {
        None
    } else {
        match (
            segment_index(current, target_raws[0], 0),
            segment_index(current, target_raws.last(), 0),
        ) {
            (Some(start), Some(last)) => {
                let depths = depths_copied(
                    before.depths,
                    target_raws[0],
                    edit_raws,
                    0,
                    first_leaf_depth(target),
                );
                Some(
                    ReflowSequenceView {
                        elements: elements_from(
                            current.take(start) + edit_raws + current.skip(last + 1),
                            0,
                            depths,
                            seq![],
                            seq![],
                        ),
                        results: seq![
                            LintResultView {
                                anchor: Some(target),
                                fixes: seq![LintFixView::Replace { anchor: target, edit }],
                                description: None,
                            },
                        ],
                        depths,
                        ..before
                    },
                )
            },
            _ => None,
        }
    }
}

impl ReflowSequence {
    /// The sequence with `edit` in the place of `target`: see `replaced`.
    /// The depth map of this sequence learns where the leaves of `edit`
    /// stand; nothing else of it changes. The leaves of `target` must
    /// stand in the sequence, so that `replaced` gives one.
    pub fn replace(&mut self, target: Segment, edit: &[Segment]) -> (r: Self)
        requires
            replaced(old(self).deep_view(), target.deep_view(), views_of(edit@)) is Some,
        ensures
            Some(r.deep_view()) == replaced(
                old(self).deep_view(),
                target.deep_view(),
                views_of(edit@),
            ),
            final(self).deep_view() == (ReflowSequenceView {
                depths: r.deep_view().depths,
                ..old(self).deep_view()
            }),
    {
        match self.try_replace(target, edit) {
            Some(sequence) => sequence,
            None => unreached(),
        }
    }

    /// What `replace` gives where the leaves of `target` stand in the
    /// sequence; none, and nothing changed, where they do not.
    pub fn try_replace(&mut self, target: Segment, edit: &[Segment]) -> (r: Option<Self>)
        ensures
            match replaced(old(self).deep_view(), target.deep_view(), views_of(edit@)) {
                Some(after) => r matches Some(sequence) && sequence.deep_view() == after
                    && final(self).deep_view() == (ReflowSequenceView {
                    depths: after.depths,
                    ..old(self).deep_view()
                }),
                None => r is None && final(self).deep_view() == old(self).deep_view(),
            },
    {
        let ghost before = self.deep_view();
        let target_raws = target.get_raw_segments();
        let mut edit_raws: Vec<Segment> = Vec::new();
        assert(views_of(edit_raws@) =~= Seq::<SegmentView>::empty());
        collect_raw_segments_of(edit, &mut edit_raws);
        let ghost news = views_of(edit_raws@);
        assert(news =~= leaves_of(views_of(edit@)));
        proof {
            lemma_views_index(target_raws@);
            lemma_views_index(edit_raws@);
        }
        if target_raws.len() == 0 {
            return None;
        }
        let anchor = &target_raws[0];
        if edit_raws.len() > 0 && self.depth_map.get_depth_info(anchor).is_none() {
            return None;
        }
        let current_raws = segments_of_elements(&self.elements);
        let ghost current = views_of(current_raws@);
        let start_idx = match position_of(current_raws.as_slice(), anchor) {
            Some(i) => i,
            None => {
                return None;
            },
        };
        let last_idx = match position_of(
            current_raws.as_slice(),
            &target_raws[target_raws.len() - 1],
        ) {
            Some(i) => i,
            None => {
                return None;
            },
        };
        let below = DepthMap::from_parent(&target);
        let trim_amount = if below.entries.len() == 0 {
            0
        } else {
            assert(below.entries.deep_view()[0] == below.entries@[0].deep_view());
            below.entries[0].info.stack_kinds.len()
        };
        let ghost goal = depths_copied(
            before.depths,
            anchor.deep_view(),
            news,
            0,
            trim_amount as int,
        );
        let mut k: usize = 0;
        while k < edit_raws.len()
            invariant
                news == views_of(edit_raws@),
                news.len() == edit_raws@.len(),
                forall|j: int|
                    0 <= j < edit_raws@.len() ==> news[j] == (#[trigger] edit_raws@[j]).deep_view(),
                k <= edit_raws@.len(),
                self.root_segment == old(self).root_segment,
                self.elements == old(self).elements,
                self.lint_results == old(self).lint_results,
                self.reflow_config == old(self).reflow_config,
                goal == depths_copied(
                    self.depth_map.entries.deep_view(),
                    anchor.deep_view(),
                    news,
                    k as int,
                    trim_amount as int,
                ),
            decreases edit_raws@.len() - k,
        {
            let copy = edit_raws[k].clone_segment();
            let _ = self.depth_map.copy_depth_info(anchor, copy, trim_amount);
            k += 1;
        }
        let n = current_raws.len();
        let mut new_raws = clone_segments(slice_subrange(current_raws.as_slice(), 0, start_idx));
        let mut edits = edit_raws;
        let mut rest = clone_segments(slice_subrange(current_raws.as_slice(), last_idx + 1, n));
        proof {
            lemma_views_subrange(current_raws@, 0, start_idx as int);
            lemma_views_subrange(current_raws@, last_idx + 1, n as int);
            lemma_views_index(current_raws@);
            lemma_views_concat(new_raws@, edits@);
            lemma_views_concat(new_raws@ + edits@, rest@);
        }
        new_raws.append(&mut edits);
        new_raws.append(&mut rest);
        assert(views_of(new_raws@) =~= current.take(start_idx as int) + news + current.skip(
            last_idx + 1,
        ));
        let new_elements = ReflowSequence::elements_from_raw_segments(
            new_raws,
            &self.depth_map,
            &self.reflow_config,
        );
        let fix = LintFix::replace(target.clone_segment(), clone_segments(edit));
        Some(
            ReflowSequence {
                elements: new_elements,
                root_segment: self.root_segment.clone_segment(),
                reflow_config: self.reflow_config,
                depth_map: self.depth_map.clone_map(),
                lint_results: result_for(&target, fix),
            },
        )
    }
}

/// The sequence of the leaves around `target` in the tree `root`, where
/// there is such a part of the leaves: see `target_window`.
pub open spec fn around_target(root: SegmentView, target: SegmentView, sides: Seq<char>) -> ReflowSequenceView {
    let all = root.leaves();
    let (pre, post) = target_window(all, target.leaves(), sides).unwrap();
    ReflowSequenceView {
        root,
        elements: elements_from(
            all.subrange(pre, post),
            0,
            depths_of_raws(all.subrange(pre, post), root),
            seq![],
            seq![],
        ),
        results: seq![],
        depths: depths_of_raws(all.subrange(pre, post), root),
        config: ReflowConfig { tab_space_size: 4, max_line_length: 80, allow_implicit_indents: false },
    }
}

/// What inserting `insertion` before `target` makes of a sequence of which
/// an element holds `target`: see `ReflowSequence::insert`.
pub open spec fn inserted(
    before: ReflowSequenceView,
    insertion: SegmentView,
    target: SegmentView,
    pos: Seq<char>,
) -> ReflowSequenceView {
    let idx = element_index_with(before.elements, target, 0).unwrap();
    if pos == "before"@ {
        ReflowSequenceView {
            elements: before.elements.take(idx) + seq![
                ReflowElementView::Block {
                    segments: seq![insertion],
                    stack_kinds: depth_lookup(before.depths, target, 0),
                },
                ReflowElementView::Point { segments: seq![] },
            ] + before.elements.skip(idx),
            results: seq![
                LintResultView {
                    anchor: Some(target),
                    fixes: seq![LintFixView::CreateBefore { anchor: target, edit: seq![insertion] }],
                    description: None,
                },
            ],
            ..before
        }
    } else {
        before
    }
}

/// Whether `target` can be taken out of the sequence: the first element
/// that holds it is a block that stands at neither end.
pub open spec fn removable(before: ReflowSequenceView, target: SegmentView) -> bool {
    match element_index_with(before.elements, target, 0) {
        Some(idx) => 0 < idx < before.elements.len() - 1 && before.elements[idx] is Block,
        None => false,
    }
}

/// What taking `target` out makes of a sequence of which it is removable:
/// see `ReflowSequence::without`.
pub open spec fn removed(before: ReflowSequenceView, target: SegmentView) -> ReflowSequenceView {
    let idx = element_index_with(before.elements, target, 0).unwrap();
    ReflowSequenceView {
        elements: before.elements.take(idx - 1) + seq![
            ReflowElementView::Point {
                segments: before.elements[idx - 1].segments() + before.elements[idx + 1].segments(),
            },
        ] + before.elements.skip(idx + 2),
        results: seq![
            LintResultView {
                anchor: Some(target),
                fixes: seq![LintFixView::Delete { anchor: target }],
                description: None,
            },
        ],
        ..before
    }
}

/// Whether one of the segments is of the kind `kind`.
pub open spec fn holds_kind(segments: Seq<SegmentView>, kind: SyntaxKind) -> bool {
    exists|i: int| 0 <= i < segments.len() && (#[trigger] segments[i]).kind() == kind
}

/// Whether one of the segments is of the kind `kind`.
pub fn has_kind(segments: &[Segment], kind: SyntaxKind) -> (r: bool)
    ensures
        r == holds_kind(views_of(segments@), kind),
{
    proof {
        lemma_views_index(segments@);
    }
    let mut i: usize = 0;
    while i < segments.len()
        invariant
            i <= segments@.len(),
            views_of(segments@).len() == segments@.len(),
            forall|k: int|
                0 <= k < segments@.len() ==> #[trigger] views_of(segments@)[k]
                    == segments@[k].deep_view(),
            forall|k: int| 0 <= k < i ==> (#[trigger] views_of(segments@)[k]).kind() != kind,
        decreases segments@.len() - i,
    {
        if segments[i].get_type() == kind {
            assert(views_of(segments@)[i as int].kind() == kind);
            return true;
        }
        i += 1;
    }
    false
}

/// Whether two elements are the same: both blocks or both points, of the
/// same segments, standing at the same place in the tree.
pub fn same_element(a: &ReflowElement, b: &ReflowElement) -> (r: bool)
    ensures
        r == (a.deep_view() == b.deep_view()),
{
    match (a, b) {
        (ReflowElement::Point(x), ReflowElement::Point(y)) => same_segments(
            x.segments.as_slice(),
            y.segments.as_slice(),
        ),
        (ReflowElement::Block(x), ReflowElement::Block(y)) => {
            let places = match (&x.depth_info, &y.depth_info) {
                (Some(i), Some(k)) => same_kinds(&i.stack_kinds, &k.stack_kinds),
                (None, None) => true,
                _ => false,
            };
            places && same_segments(x.segments.as_slice(), y.segments.as_slice())
        },
        _ => false,
    }
}

/// Whether the two lists hold the same kinds, one for one.
fn same_kinds(a: &Vec<SyntaxKind>, b: &Vec<SyntaxKind>) -> (r: bool)
    ensures
        r == (a@ == b@),
{
    if a.len() != b.len() {
        return false;
    }
    let mut i: usize = 0;
    while i < a.len()
        invariant
            a@.len() == b@.len(),
            i <= a@.len(),
            a@.take(i as int) == b@.take(i as int),
        decreases a@.len() - i,
    {
        if a[i] != b[i] {
            return false;
        }
        assert(a@.take(i + 1) =~= a@.take(i as int).push(a@[i as int]));
        assert(b@.take(i + 1) =~= b@.take(i as int).push(b@[i as int]));
        i += 1;
    }
    assert(a@.take(i as int) =~= a@);
    assert(b@.take(i as int) =~= b@);
    true
}

/// Whether a point is left as it was although it was respaced into
/// `respaced`. A point that then holds a line break, or that stands before
/// the end of the file, is left alone where only the points within a line
/// are wanted; any other point, where only those at a line break are.
pub open spec fn left_alone(
    filter: Filter,
    respaced: Seq<SegmentView>,
    post: Option<ReflowElementView>,
) -> bool {
    let at_break = holds_kind(respaced, SyntaxKind::Newline) || match post {
        Some(block) => holds_kind(block.segments(), SyntaxKind::EndOfFile),
        None => false,
    };
    if at_break {
        filter == Filter::Inline
    } else {
        filter == Filter::Newline
    }
}

/// The model of a respacing under way.
pub struct RespacingView {
    /// The sequence that is respaced, as it was, without its results.
    pub before: ReflowSequenceView,
    /// How many of its points have been dealt with.
    pub done: int,
    /// The elements made so far.
    pub elements: Seq<ReflowElementView>,
    /// The results so far.
    pub results: Seq<LintResultView>,
    pub strip_newlines: bool,
    pub filter: Filter,
}

impl RespacingView {
    /// The points of the sequence that is respaced.
    pub open spec fn points(self) -> Seq<PointWithConstraints> {
        points_with_constraints(self.before.elements, self.before.elements.len() as int)
    }

    /// The point that is to be respaced next, if one is left.
    pub open spec fn pending(self) -> Option<PointWithConstraints> {
        if 0 <= self.done < self.points().len() {
            Some(self.points()[self.done])
        } else {
            None
        }
    }

    /// The respacing once the pending point was respaced into `point`,
    /// with `results` as the results that this leaves. The block before
    /// the point is put behind the elements made so far, unless it is the
    /// last of them; then the point, as it was where it is left alone and
    /// as `point` where not; then the block behind it. The results become
    /// `results` unless the point is left alone. With no point pending
    /// nothing changes.
    pub open spec fn accepted(self, results: Seq<LintResultView>, point: Seq<SegmentView>) -> Self {
        match self.pending() {
            None => self,
            Some(at) => {
                let old = self.before.elements;
                let post = match at.post {
                    Some(q) => Some(old[q as int]),
                    None => None,
                };
                let alone = left_alone(self.filter, point, post);
                let with_pre = match at.pre {
                    Some(p) => if self.elements.len() == 0 || self.elements.last() != old[p as int] {
                        self.elements.push(old[p as int])
                    } else {
                        self.elements
                    },
                    None => self.elements,
                };
                let with_point = with_pre.push(
                    if alone {
                        old[at.point as int]
                    } else {
                        ReflowElementView::Point { segments: point }
                    },
                );
                let with_post = match post {
                    Some(block) => with_point.push(block),
                    None => with_point,
                };
                RespacingView {
                    done: self.done + 1,
                    elements: with_post,
                    results: if alone {
                        self.results
                    } else {
                        results
                    },
                    ..self
                }
            },
        }
    }

    /// The sequence that the respacing has made.
    pub open spec fn made(self) -> ReflowSequenceView {
        ReflowSequenceView { elements: self.elements, results: self.results, ..self.before }
    }
}

/// Each of the points among the elements is a point, and the blocks that
/// go with it are its neighbours.
pub proof fn lemma_points_in_range(elements: Seq<ReflowElementView>, upto: int, i: int)
    requires
        elements.len() <= usize::MAX,
        0 <= i < points_with_constraints(elements, upto).len(),
    ensures
        ({
            let at = points_with_constraints(elements, upto)[i];
            &&& at.point < upto <= elements.len()
            &&& elements[at.point as int] is Point
            &&& at.pre matches Some(p) ==> p + 1 == at.point && elements[p as int] is Block
            &&& at.post matches Some(q) ==> q == at.point + 1 && q < elements.len()
                && elements[q as int] is Block
        }),
    decreases upto,
{
    if upto <= 0 || upto > elements.len() {
    } else {
        let before = points_with_constraints(elements, upto - 1);
        if i < before.len() {
            lemma_points_in_range(elements, upto - 1, i);
        }
    }
}

/// A respacing under way: the sequence that is respaced, the elements and
/// results made so far, and how far it has come. The spacing of a point is
/// worked out elsewhere; the respacing says which point is next, and
/// decides what becomes of each answer.
#[derive(Debug)]
pub struct Respacing {
    sequence: ReflowSequence,
    points: Vec<PointWithConstraints>,
    done: usize,
    elements: Vec<ReflowElement>,
    results: Vec<LintResult>,
    strip_newlines: bool,
    filter: Filter,
}

impl DeepView for Respacing {
    type V = RespacingView;

    closed spec fn deep_view(&self) -> RespacingView {
        RespacingView {
            before: self.sequence.deep_view(),
            done: self.done as int,
            elements: self.elements.deep_view(),
            results: self.results.deep_view(),
            strip_newlines: self.strip_newlines,
            filter: self.filter,
        }
    }
}

impl Respacing {
    /// Whether the respacing is in order: it knows the points of its
    /// sequence and has dealt with no more than there are.
    pub closed spec fn wf(&self) -> bool {
        &&& self.points@ == self.deep_view().points()
        &&& self.done <= self.points@.len()
    }

    /// The point that is to be respaced next, if one is left.
    pub fn pending(&self) -> (r: Option<PointWithConstraints>)
        requires
            self.wf(),
        ensures
            r == self.deep_view().pending(),
    {
        if self.done < self.points.len() {
            Some(self.points[self.done])
        } else {
            None
        }
    }

    /// The sequence that is respaced, as it was, without its results.
    pub fn sequence(&self) -> (r: &ReflowSequence)
        ensures
            r.deep_view() == self.deep_view().before,
    {
        &self.sequence
    }

    /// The results so far: those that the spacing of the next point starts
    /// from.
    pub fn results(&self) -> (r: &[LintResult])
        ensures
            r.deep_view() == self.deep_view().results,
    {
        self.results.as_slice()
    }

    /// Whether line breaks may be taken out.
    pub fn strip_newlines(&self) -> (r: bool)
        ensures
            r == self.deep_view().strip_newlines,
    {
        self.strip_newlines
    }

    /// Takes the answer for the pending point: the point as it would be
    /// respaced, and the results that this would leave. With no point
    /// pending the answer is dropped.
    pub fn accept(&mut self, results: Vec<LintResult>, point: ReflowPoint)
        requires
            old(self).wf(),
        ensures
            final(self).wf(),
            final(self).deep_view() == old(self).deep_view().accepted(
                results.deep_view(),
                views_of(point.segments@),
            ),
    {
        if self.done >= self.points.len() {
            return;
        }
        let ghost view = self.deep_view();
        let ghost old_elements = self.sequence.elements.deep_view();
        let at = self.points[self.done];
        let count = self.sequence.elements.len();
        proof {
            assert(old_elements.len() == count);
            lemma_points_in_range(old_elements, old_elements.len() as int, self.done as int);
        }
        let behind_is_end = match at.post {
            Some(q) => {
                assert(old_elements[q as int] == self.sequence.elements@[q as int].deep_view());
                has_kind(self.sequence.elements[q].segments(), SyntaxKind::EndOfFile)
            },
            None => false,
        };
        let at_break = has_kind(point.segments.as_slice(), SyntaxKind::Newline) || behind_is_end;
        let alone = if at_break {
            self.filter == Filter::Inline
        } else {
            self.filter == Filter::Newline
        };
        match at.pre {
            Some(p) => {
                assert(old_elements[p as int] == self.sequence.elements@[p as int].deep_view());
                let n = self.elements.len();
                let ghost so_far = self.elements.deep_view();
                let fresh = if n == 0 {
                    true
                } else {
                    assert(so_far.last() == self.elements@[n - 1].deep_view());
                    !same_element(&self.elements[n - 1], &self.sequence.elements[p])
                };
                if fresh {
                    self.elements.push(self.sequence.elements[p].clone_element());
                    assert(self.elements.deep_view() =~= so_far.push(old_elements[p as int]));
                }
            },
            None => {},
        }
        let ghost with_pre = self.elements.deep_view();
        assert(old_elements[at.point as int] == self.sequence.elements@[at.point as int].deep_view());
        if alone {
            self.elements.push(self.sequence.elements[at.point].clone_element());
            assert(self.elements.deep_view() =~= with_pre.push(old_elements[at.point as int]));
        } else {
            let ghost segments = views_of(point.segments@);
            self.elements.push(ReflowElement::Point(point));
            assert(self.elements.deep_view() =~= with_pre.push(
                ReflowElementView::Point { segments },
            ));
            self.results = results;
        }
        let ghost with_point = self.elements.deep_view();
        match at.post {
            Some(q) => {
                self.elements.push(self.sequence.elements[q].clone_element());
                assert(self.elements.deep_view() =~= with_point.push(old_elements[q as int]));
            },
            None => {},
        }
        self.done = self.done + 1;
    }

    /// The sequence that the respacing has made, once no point is
    /// pending: the elements and the results that it made, with all else
    /// as in the sequence that was respaced. None while a point is pending.
    pub fn finish(self) -> (r: Option<ReflowSequence>)
        requires
            self.wf(),
        ensures
            match self.deep_view().pending() {
                Some(_) => r is None,
                None => r matches Some(made) && made.deep_view() == self.deep_view().made(),
            },
    {
        if self.done < self.points.len() {
            return None;
        }
        let Respacing { sequence, elements, results, .. } = self;
        let ReflowSequence { root_segment, reflow_config, depth_map, .. } = sequence;
        Some(
            ReflowSequence {
                root_segment,
                elements,
                lint_results: results,
                reflow_config,
                depth_map,
            },
        )
    }
}

impl ReflowSequence {
    /// Begins to respace the sequence: no point has been dealt with and no
    /// element made, and the results are those of the sequence.
    pub fn respace(self, strip_newlines: bool, filter: Filter) -> (r: Respacing)
        ensures
            r.wf(),
            r.deep_view() == (RespacingView {
                before: ReflowSequenceView { results: Seq::empty(), ..self.deep_view() },
                done: 0,
                elements: Seq::empty(),
                results: self.deep_view().results,
                strip_newlines,
                filter,
            }),
    {
        let ReflowSequence { root_segment, elements, lint_results, reflow_config, depth_map } = self;
        let sequence = ReflowSequence {
            root_segment,
            elements,
            lint_results: Vec::new(),
            reflow_config,
            depth_map,
        };
        let points = sequence.iter_points_with_constraints();
        let made: Vec<ReflowElement> = Vec::new();
        assert(made.deep_view() =~= Seq::<ReflowElementView>::empty());
        assert(sequence.lint_results.deep_view() =~= Seq::<LintResultView>::empty());
        Respacing {
            sequence,
            points,
            done: 0,
            elements: made,
            results: lint_results,
            strip_newlines,
            filter,
        }
    }

    /// The sequence with the elements and the results that breaking its
    /// lines anew has given. It must hold no results of edits made before.
    pub fn rebreak(self, elements: Vec<ReflowElement>, lint_results: Vec<LintResult>) -> (r: Self)
        requires
            self.deep_view().results.len() == 0,
        ensures
            r.deep_view() == (ReflowSequenceView {
                elements: elements.deep_view(),
                results: lint_results.deep_view(),
                ..self.deep_view()
            }),
    {
        self.remade(elements, lint_results)
    }

    /// The sequence with the elements and the results that indenting its
    /// lines anew has given. It must hold no results of edits made before.
    pub fn reindent(self, elements: Vec<ReflowElement>, lint_results: Vec<LintResult>) -> (r: Self)
        requires
            self.deep_view().results.len() == 0,
        ensures
            r.deep_view() == (ReflowSequenceView {
                elements: elements.deep_view(),
                results: lint_results.deep_view(),
                ..self.deep_view()
            }),
    {
        self.remade(elements, lint_results)
    }

    /// The sequence with the elements and the results that breaking its
    /// long lines has given. It must hold no results of edits made before.
    pub fn break_long_lines(self, elements: Vec<ReflowElement>, lint_results: Vec<LintResult>) -> (r:
        Self)
        requires
            self.deep_view().results.len() == 0,
        ensures
            r.deep_view() == (ReflowSequenceView {
                elements: elements.deep_view(),
                results: lint_results.deep_view(),
                ..self.deep_view()
            }),
    {
        self.remade(elements, lint_results)
    }

    /// Whether the sequence holds no results of edits.
    pub fn is_untouched(&self) -> (r: bool)
        ensures
            r == (self.deep_view().results.len() == 0),
    {
        self.lint_results.len() == 0
    }

    /// The sequence with other elements and results.
    fn remade(self, elements: Vec<ReflowElement>, lint_results: Vec<LintResult>) -> (r: Self)
        ensures
            r.deep_view() == (ReflowSequenceView {
                elements: elements.deep_view(),
                results: lint_results.deep_view(),
                ..self.deep_view()
            }),
    {
        let ReflowSequence { root_segment, reflow_config, depth_map, .. } = self;
        ReflowSequence { root_segment, elements, lint_results, reflow_config, depth_map }
    }
}

} // verus!
