//! Segments: the nodes of the syntax tree.

use crate::markers::PositionMarker;
use crate::syntax::SyntaxKind;
use crate::text::{lemma_bytes_injective, lemma_encode_concat, same_text};
use vstd::prelude::*;
use vstd::string::*;
use vstd::utf8::*;

verus! {

/// A node of the syntax tree: a leaf, which holds text of the input, or an
/// inner node, which holds its children in order.
#[derive(Debug)]
pub enum Segment {
    Leaf { kind: SyntaxKind, raw: String, position: Option<PositionMarker> },
    Node { kind: SyntaxKind, children: Vec<Segment>, position: Option<PositionMarker> },
}

/// The model of a segment. Text is held as its UTF-8 bytes.
pub enum SegmentView {
    Leaf { kind: SyntaxKind, raw: Seq<u8>, position: Option<PositionMarker> },
    Node { kind: SyntaxKind, children: Seq<SegmentView>, position: Option<PositionMarker> },
}

/// The models of a sequence of segments.
pub open spec fn views_of(segments: Seq<Segment>) -> Seq<SegmentView>
    decreases segments, 0nat,
{
    if segments.len() == 0 {
        seq![]
    } else {
        views_of(segments.drop_last()).push(segments.last().deep_view())
    }
}

impl DeepView for Segment {
    type V = SegmentView;

    open spec fn deep_view(&self) -> SegmentView
        decreases *self, 1nat,
    {
        match *self {
            Segment::Leaf { kind, raw, position } => SegmentView::Leaf {
                kind,
                raw: encode_utf8(raw@),
                position,
            },
            Segment::Node { kind, children, position } => SegmentView::Node {
                kind,
                children: views_of(children@),
                position,
            },
        }
    }
}

impl SegmentView {
    /// The kind of the segment.
    pub open spec fn kind(self) -> SyntaxKind {
        match self {
            SegmentView::Leaf { kind, .. } => kind,
            SegmentView::Node { kind, .. } => kind,
        }
    }

    /// The position of the segment, if it has one.
    pub open spec fn position(self) -> Option<PositionMarker> {
        match self {
            SegmentView::Leaf { position, .. } => position,
            SegmentView::Node { position, .. } => position,
        }
    }

    /// The children of the segment: none for a leaf.
    pub open spec fn children(self) -> Seq<SegmentView> {
        match self {
            SegmentView::Leaf { .. } => seq![],
            SegmentView::Node { children, .. } => children,
        }
    }

    /// The text that the segment covers: that of a leaf, or that of the
    /// children of a node, joined in order.
    pub open spec fn raw(self) -> Seq<u8>
        decreases self, 1nat,
    {
        match self {
            SegmentView::Leaf { raw, .. } => raw,
            SegmentView::Node { children, .. } => raws_joined(children),
        }
    }

    /// The leaves below the segment, in order: the segment itself if it is
    /// a leaf.
    pub open spec fn leaves(self) -> Seq<SegmentView>
        decreases self, 1nat,
    {
        match self {
            SegmentView::Leaf { .. } => seq![self],
            SegmentView::Node { children, .. } => leaves_of(children),
        }
    }
}

/// The texts of the segments, joined in order.
pub open spec fn raws_joined(segments: Seq<SegmentView>) -> Seq<u8>
    decreases segments, 0nat,
{
    if segments.len() == 0 {
        seq![]
    } else {
        raws_joined(segments.drop_last()) + segments.last().raw()
    }
}

/// The leaves below the segments, in order.
pub open spec fn leaves_of(segments: Seq<SegmentView>) -> Seq<SegmentView>
    decreases segments, 0nat,
{
    if segments.len() == 0 {
        seq![]
    } else {
        leaves_of(segments.drop_last()) + segments.last().leaves()
    }
}

/// The models of a sequence with one more segment.
pub proof fn lemma_views_push(segments: Seq<Segment>, last: Segment)
    ensures
        views_of(segments.push(last)) == views_of(segments).push(last.deep_view()),
{
    assert(segments.push(last).drop_last() =~= segments);
}

/// The models of a sequence stand one for one.
pub proof fn lemma_views_index(segments: Seq<Segment>)
    ensures
        views_of(segments).len() == segments.len(),
        forall|i: int|
            0 <= i < segments.len() ==> views_of(segments)[i] == (#[trigger] segments[i]).deep_view(),
    decreases segments.len(),
{
    if segments.len() > 0 {
        let init = segments.drop_last();
        lemma_views_index(init);
        assert(views_of(segments) == views_of(init).push(segments.last().deep_view()));
        assert(views_of(segments).len() == segments.len());
        assert forall|i: int| 0 <= i < segments.len() implies views_of(segments)[i] == (
        #[trigger] segments[i]).deep_view() by {
            if i < segments.len() - 1 {
                assert(init[i] == segments[i]);
                assert(views_of(segments)[i] == views_of(init)[i]);
            }
        }
    }
}

/// The joined text of a sequence with one more segment.
pub proof fn lemma_raws_push(segments: Seq<SegmentView>, last: SegmentView)
    ensures
        raws_joined(segments.push(last)) == raws_joined(segments) + last.raw(),
{
    assert(segments.push(last).drop_last() =~= segments);
}

impl Segment {
    /// A leaf of the given kind, text and position.
    pub fn leaf(kind: SyntaxKind, raw: String, position: Option<PositionMarker>) -> (r: Self)
        ensures
            r == (Segment::Leaf { kind, raw, position }),
    {
        Segment::Leaf { kind, raw, position }
    }

    /// A node of the given kind over the given children, without a
    /// position.
    pub fn node(kind: SyntaxKind, children: Vec<Segment>) -> (r: Self)
        ensures
            r == (Segment::Node { kind, children, position: None }),
    {
        Segment::Node { kind, children, position: None }
    }

    /// The kind of the segment.
    pub fn get_type(&self) -> (r: SyntaxKind)
        ensures
            r == self.deep_view().kind(),
    {
        match self {
            Segment::Leaf { kind, .. } => *kind,
            Segment::Node { kind, .. } => *kind,
        }
    }

    /// Whether the segment is of the given kind.
    pub fn is_type(&self, kind: SyntaxKind) -> (r: bool)
        ensures
            r == (self.deep_view().kind() == kind),
    {
        self.get_type() == kind
    }

    /// The position of the segment, if it has one.
    pub fn get_position_marker(&self) -> (r: Option<PositionMarker>)
        ensures
            r == self.deep_view().position(),
    {
        match self {
            Segment::Leaf { position, .. } => match position {
                Some(p) => Some(p.clone()),
                None => None,
            },
            Segment::Node { position, .. } => match position {
                Some(p) => Some(p.clone()),
                None => None,
            },
        }
    }

    /// Whether the grammar reads the segment: it is neither blank space nor
    /// a comment nor a marker.
    pub fn is_code(&self) -> (r: bool)
        ensures
            r == self.deep_view().kind().is_code(),
    {
        self.get_type().code()
    }

    /// Whether the segment is a marker that stands for no text.
    pub fn is_meta(&self) -> (r: bool)
        ensures
            r == self.deep_view().kind().is_meta(),
    {
        self.get_type().meta()
    }

    /// Whether the segment is blank space or a line break.
    pub fn is_whitespace(&self) -> (r: bool)
        ensures
            r == self.deep_view().kind().is_whitespace(),
    {
        self.get_type().whitespace()
    }
}

/// The position of the first of `nodes`, at or after `from`, that has one.
pub open spec fn first_position(nodes: Seq<SegmentView>, from: int) -> Option<PositionMarker>
    decreases nodes.len() - from,
{
    if from < 0 || from >= nodes.len() {
        None
    } else if nodes[from].position() is Some {
        nodes[from].position()
    } else {
        first_position(nodes, from + 1)
    }
}

/// The position of the last of the first `upto` of `nodes` that has one.
pub open spec fn last_position(nodes: Seq<SegmentView>, upto: int) -> Option<PositionMarker>
    decreases upto,
{
    if upto <= 0 || upto > nodes.len() {
        None
    } else if nodes[upto - 1].position() is Some {
        nodes[upto - 1].position()
    } else {
        last_position(nodes, upto - 1)
    }
}

/// The position that spans `nodes`: from where the first of them that has
/// a position begins to where the last of them that has one ends. None
/// where none of them has a position.
pub open spec fn span_of(nodes: Seq<SegmentView>) -> Option<PositionMarker> {
    match (first_position(nodes, 0), last_position(nodes, nodes.len() as int)) {
        (Some(first), Some(last)) => Some(
            PositionMarker {
                source_slice: first.source_slice.start..last.source_slice.end,
                templated_slice: first.templated_slice.start..last.templated_slice.end,
            },
        ),
        _ => None,
    }
}

/// The node of kind `kind` over `children`, at the position that spans
/// them.
pub open spec fn node_of(kind: SyntaxKind, children: Seq<SegmentView>) -> SegmentView {
    SegmentView::Node { kind, children, position: span_of(children) }
}

/// The segment as one of kind `kind`: a leaf keeps its text and position;
/// a node is left as it is.
pub open spec fn retyped(segment: SegmentView, kind: SyntaxKind) -> SegmentView {
    match segment {
        SegmentView::Leaf { raw, position, .. } => SegmentView::Leaf { kind, raw, position },
        SegmentView::Node { .. } => segment,
    }
}

/// The marker of kind `kind`: a leaf without text or position.
pub open spec fn marker(kind: SyntaxKind) -> SegmentView {
    SegmentView::Leaf { kind, raw: seq![], position: None }
}

/// The models of a part of a sequence are that part of its models.
pub proof fn lemma_views_subrange(segments: Seq<Segment>, from: int, to: int)
    requires
        0 <= from <= to <= segments.len(),
    ensures
        views_of(segments.subrange(from, to)) == views_of(segments).subrange(from, to),
{
    let part = segments.subrange(from, to);
    lemma_views_index(segments);
    lemma_views_index(part);
    assert forall|i: int| 0 <= i < part.len() implies views_of(part)[i] == views_of(
        segments,
    ).subrange(from, to)[i] by {
        assert(part[i] == segments[from + i]);
    }
    assert(views_of(part) =~= views_of(segments).subrange(from, to));
}

/// The models of two sequences, one after the other.
pub proof fn lemma_views_concat(a: Seq<Segment>, b: Seq<Segment>)
    ensures
        views_of(a + b) == views_of(a) + views_of(b),
{
    let both = a + b;
    lemma_views_index(a);
    lemma_views_index(b);
    lemma_views_index(both);
    assert forall|i: int| 0 <= i < both.len() implies views_of(both)[i] == (views_of(a)
        + views_of(b))[i] by {
        if i < a.len() {
            assert(both[i] == a[i]);
        } else {
            assert(both[i] == b[i - a.len()]);
        }
    }
    assert(views_of(both) =~= views_of(a) + views_of(b));
}

/// A copy of the segments.
pub fn clone_segments(segments: &[Segment]) -> (r: Vec<Segment>)
    ensures
        views_of(r@) == views_of(segments@),
    decreases segments@, 0nat,
{
    let mut out: Vec<Segment> = Vec::new();
    let mut i: usize = 0;
    proof {
        lemma_views_index(segments@);
    }
    while i < segments.len()
        invariant
            i <= segments@.len(),
            views_of(out@) == views_of(segments@).take(i as int),
            views_of(segments@).len() == segments@.len(),
            forall|j: int|
                0 <= j < segments@.len() ==> views_of(segments@)[j] == (
                #[trigger] segments@[j]).deep_view(),
        decreases segments@.len() - i,
    {
        let copy = segments[i].clone_segment();
        proof {
            lemma_views_push(out@, copy);
            assert(views_of(segments@).take(i + 1) =~= views_of(segments@).take(i as int).push(
                segments@[i as int].deep_view(),
            ));
        }
        out.push(copy);
        i += 1;
    }
    assert(views_of(segments@).take(i as int) =~= views_of(segments@));
    out
}

impl Segment {
    /// A copy of the segment.
    pub fn clone_segment(&self) -> (r: Self)
        ensures
            r.deep_view() == self.deep_view(),
        decreases *self, 1nat,
    {
        match self {
            Segment::Leaf { kind, raw, position } => Segment::Leaf {
                kind: *kind,
                raw: raw.clone(),
                position: match position {
                    Some(p) => Some(p.clone()),
                    None => None,
                },
            },
            Segment::Node { kind, children, position } => Segment::Node {
                kind: *kind,
                children: clone_segments(children.as_slice()),
                position: match position {
                    Some(p) => Some(p.clone()),
                    None => None,
                },
            },
        }
    }

    /// The text of the segment, if it is a leaf.
    pub fn leaf_text(&self) -> (r: Option<&str>)
        ensures
            r is Some <==> self.deep_view() is Leaf,
            r matches Some(raw) ==> encode_utf8(raw@) == self.deep_view().raw(),
    {
        match self {
            Segment::Leaf { raw, .. } => Some(raw.as_str()),
            Segment::Node { .. } => None,
        }
    }

    /// A copy of the segment as one of kind `kind`.
    pub fn retyped(&self, kind: SyntaxKind) -> (r: Self)
        ensures
            r.deep_view() == retyped(self.deep_view(), kind),
    {
        match self {
            Segment::Leaf { raw, position, .. } => Segment::Leaf {
                kind,
                raw: raw.clone(),
                position: match position {
                    Some(p) => Some(p.clone()),
                    None => None,
                },
            },
            Segment::Node { .. } => self.clone_segment(),
        }
    }

    /// The marker of kind `kind`.
    pub fn marker(kind: SyntaxKind) -> (r: Self)
        ensures
            r.deep_view() == marker(kind),
    {
        let r = Segment::Leaf { kind, raw: String::new(), position: None };
        assert(encode_utf8(Seq::<char>::empty()) =~= Seq::<u8>::empty());
        r
    }

    /// The node of kind `kind` over `children`, at the position that spans
    /// them.
    pub fn node_over(kind: SyntaxKind, children: Vec<Segment>) -> (r: Self)
        ensures
            r.deep_view() == node_of(kind, views_of(children@)),
    {
        let position = span_of_segments(children.as_slice());
        Segment::Node { kind, children, position }
    }
}

/// The position of the first of the segments that has one.
fn first_position_of(segments: &[Segment]) -> (r: Option<PositionMarker>)
    ensures
        r == first_position(views_of(segments@), 0),
{
    let ghost views = views_of(segments@);
    proof {
        lemma_views_index(segments@);
    }
    let n = segments.len();
    let mut i: usize = 0;
    while i < n
        invariant
            n == segments@.len(),
            views == views_of(segments@),
            views.len() == n,
            forall|j: int| 0 <= j < n ==> views[j] == (#[trigger] segments@[j]).deep_view(),
            i <= n,
            first_position(views, 0) == first_position(views, i as int),
        decreases n - i,
    {
        match segments[i].get_position_marker() {
            Some(p) => {
                return Some(p);
            },
            None => {},
        }
        i += 1;
    }
    None
}

/// The position of the last of the segments that has one.
fn last_position_of(segments: &[Segment]) -> (r: Option<PositionMarker>)
    ensures
        r == last_position(views_of(segments@), segments@.len() as int),
{
    let ghost views = views_of(segments@);
    proof {
        lemma_views_index(segments@);
    }
    let n = segments.len();
    let mut k: usize = n;
    while k > 0
        invariant
            n == segments@.len(),
            views == views_of(segments@),
            views.len() == n,
            forall|j: int| 0 <= j < n ==> views[j] == (#[trigger] segments@[j]).deep_view(),
            k <= n,
            last_position(views, n as int) == last_position(views, k as int),
        decreases k,
    {
        match segments[k - 1].get_position_marker() {
            Some(p) => {
                return Some(p);
            },
            None => {},
        }
        k -= 1;
    }
    None
}

/// The position that spans the segments.
pub fn span_of_segments(segments: &[Segment]) -> (r: Option<PositionMarker>)
    ensures
        r == span_of(views_of(segments@)),
{
    proof {
        lemma_views_index(segments@);
    }
    match (first_position_of(segments), last_position_of(segments)) {
        (Some(first), Some(last)) => Some(
            PositionMarker::new(
                first.source_slice.start..last.source_slice.end,
                first.templated_slice.start..last.templated_slice.end,
            ),
        ),
        _ => None,
    }
}

/// Whether two optional positions are the same.
pub fn same_position(a: &Option<PositionMarker>, b: &Option<PositionMarker>) -> (r: bool)
    ensures
        r == (*a == *b),
{
    match (a, b) {
        (Some(p), Some(q)) => p.same(q),
        (None, None) => true,
        _ => false,
    }
}

/// Whether two lists of segments are the same, one for one.
pub fn same_segments(a: &[Segment], b: &[Segment]) -> (r: bool)
    ensures
        r == (views_of(a@) == views_of(b@)),
    decreases a@, 0nat,
{
    proof {
        lemma_views_index(a@);
        lemma_views_index(b@);
    }
    if a.len() != b.len() {
        return false;
    }
    let mut i: usize = 0;
    while i < a.len()
        invariant
            a@.len() == b@.len(),
            i <= a@.len(),
            views_of(a@).len() == a@.len(),
            views_of(b@).len() == b@.len(),
            forall|j: int| 0 <= j < a@.len() ==> views_of(a@)[j] == (#[trigger] a@[j]).deep_view(),
            forall|j: int| 0 <= j < b@.len() ==> views_of(b@)[j] == (#[trigger] b@[j]).deep_view(),
            forall|j: int| 0 <= j < i ==> views_of(a@)[j] == views_of(b@)[j],
        decreases a@.len() - i,
    {
        if !a[i].same(&b[i]) {
            assert(views_of(a@)[i as int] != views_of(b@)[i as int]);
            return false;
        }
        i += 1;
    }
    assert(views_of(a@) =~= views_of(b@));
    true
}

/// The leaves below a sequence with one more segment.
pub proof fn lemma_leaves_push(segments: Seq<SegmentView>, last: SegmentView)
    ensures
        leaves_of(segments.push(last)) == leaves_of(segments) + last.leaves(),
{
    assert(segments.push(last).drop_last() =~= segments);
}

impl Segment {
    /// Whether the two segments are the same: of the same kind, text and
    /// position, with the same children.
    pub fn same(&self, other: &Segment) -> (r: bool)
        ensures
            r == (self.deep_view() == other.deep_view()),
        decreases *self, 1nat,
    {
        match (self, other) {
            (
                Segment::Leaf { kind, raw, position },
                Segment::Leaf { kind: other_kind, raw: other_raw, position: other_position },
            ) => {
                let r = *kind == *other_kind && same_text(raw.as_str(), other_raw.as_str())
                    && same_position(position, other_position);
                proof {
                    if encode_utf8(raw@) == encode_utf8(other_raw@) {
                        lemma_bytes_injective(raw@, other_raw@);
                    }
                }
                r
            },
            (
                Segment::Node { kind, children, position },
                Segment::Node {
                    kind: other_kind,
                    children: other_children,
                    position: other_position,
                },
            ) => {
                *kind == *other_kind && same_position(position, other_position) && same_segments(
                    children.as_slice(),
                    other_children.as_slice(),
                )
            },
            _ => false,
        }
    }

    /// The children of the segment: none for a leaf.
    pub fn segments(&self) -> (r: &[Segment])
        ensures
            views_of(r@) == self.deep_view().children(),
    {
        match self {
            Segment::Leaf { .. } => {
                let none: &[Segment] = &[];
                assert(views_of(none@) =~= Seq::<SegmentView>::empty());
                none
            },
            Segment::Node { children, .. } => children.as_slice(),
        }
    }

    /// Puts copies of the leaves below the segment behind `out`.
    pub fn collect_raw_segments(&self, out: &mut Vec<Segment>)
        ensures
            views_of(final(out)@) == views_of(old(out)@) + self.deep_view().leaves(),
        decreases *self, 1nat,
    {
        match self {
            Segment::Leaf { .. } => {
                let copy = self.clone_segment();
                proof {
                    lemma_views_push(out@, copy);
                }
                out.push(copy);
                assert(views_of(out@) =~= views_of(old(out)@) + seq![self.deep_view()]);
            },
            Segment::Node { children, .. } => {
                collect_raw_segments_of(children.as_slice(), out);
            },
        }
    }

    /// Copies of the leaves below the segment, in order.
    pub fn get_raw_segments(&self) -> (r: Vec<Segment>)
        ensures
            views_of(r@) == self.deep_view().leaves(),
    {
        let mut out: Vec<Segment> = Vec::new();
        assert(views_of(out@) =~= Seq::<SegmentView>::empty());
        self.collect_raw_segments(&mut out);
        assert(Seq::<SegmentView>::empty() + self.deep_view().leaves()
            =~= self.deep_view().leaves());
        out
    }

    /// Puts the text that the segment covers behind `out`.
    pub fn push_raw(&self, out: &mut String)
        ensures
            encode_utf8(final(out)@) == encode_utf8(old(out)@) + self.deep_view().raw(),
        decreases *self, 1nat,
    {
        match self {
            Segment::Leaf { raw, .. } => {
                proof {
                    lemma_encode_concat(out@, raw@);
                }
                out.append(raw.as_str());
            },
            Segment::Node { children, .. } => {
                push_raws_of(children.as_slice(), out);
            },
        }
    }

    /// The text that the segment covers.
    pub fn raw(&self) -> (r: String)
        ensures
            encode_utf8(r@) == self.deep_view().raw(),
    {
        let mut out = String::new();
        self.push_raw(&mut out);
        assert(encode_utf8(Seq::<char>::empty()) =~= Seq::<u8>::empty());
        assert(Seq::<u8>::empty() + self.deep_view().raw() =~= self.deep_view().raw());
        out
    }
}

/// Puts copies of the leaves below the segments behind `out`.
pub fn collect_raw_segments_of(segments: &[Segment], out: &mut Vec<Segment>)
    ensures
        views_of(final(out)@) == views_of(old(out)@) + leaves_of(views_of(segments@)),
    decreases segments@, 0nat,
{
    let ghost views = views_of(segments@);
    let ghost start = views_of(out@);
    proof {
        lemma_views_index(segments@);
        assert(views.take(0) =~= Seq::<SegmentView>::empty());
        assert(start + leaves_of(views.take(0)) =~= start);
    }
    let mut i: usize = 0;
    while i < segments.len()
        invariant
            views == views_of(segments@),
            views.len() == segments@.len(),
            forall|j: int|
                0 <= j < segments@.len() ==> views[j] == (#[trigger] segments@[j]).deep_view(),
            i <= segments@.len(),
            views_of(out@) == start + leaves_of(views.take(i as int)),
        decreases segments@.len() - i,
    {
        segments[i].collect_raw_segments(out);
        proof {
            assert(views.take(i + 1) =~= views.take(i as int).push(views[i as int]));
            lemma_leaves_push(views.take(i as int), views[i as int]);
            assert(start + leaves_of(views.take(i as int)) + views[i as int].leaves() =~= start + (
            leaves_of(views.take(i as int)) + views[i as int].leaves()));
        }
        i += 1;
    }
    assert(views.take(i as int) =~= views);
}

/// Puts the texts that the segments cover behind `out`, in order.
pub fn push_raws_of(segments: &[Segment], out: &mut String)
    ensures
        encode_utf8(final(out)@) == encode_utf8(old(out)@) + raws_joined(views_of(segments@)),
    decreases segments@, 0nat,
{
    let ghost views = views_of(segments@);
    let ghost start = encode_utf8(out@);
    proof {
        lemma_views_index(segments@);
        assert(views.take(0) =~= Seq::<SegmentView>::empty());
        assert(start + raws_joined(views.take(0)) =~= start);
    }
    let mut i: usize = 0;
    while i < segments.len()
        invariant
            views == views_of(segments@),
            views.len() == segments@.len(),
            forall|j: int|
                0 <= j < segments@.len() ==> views[j] == (#[trigger] segments@[j]).deep_view(),
            i <= segments@.len(),
            encode_utf8(out@) == start + raws_joined(views.take(i as int)),
        decreases segments@.len() - i,
    {
        segments[i].push_raw(out);
        proof {
            assert(views.take(i + 1) =~= views.take(i as int).push(views[i as int]));
            lemma_raws_push(views.take(i as int), views[i as int]);
            assert(start + raws_joined(views.take(i as int)) + views[i as int].raw() =~= start + (
            raws_joined(views.take(i as int)) + views[i as int].raw()));
        }
        i += 1;
    }
    assert(views.take(i as int) =~= views);
}

impl Clone for Segment {
    fn clone(&self) -> (r: Self)
        ensures
            r.deep_view() == self.deep_view(),
    {
        self.clone_segment()
    }
}

} // verus!
