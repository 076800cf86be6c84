//! What a rule reports: a result at a segment, with the fixes it proposes.

use crate::segments::{views_of, Segment, SegmentView};
use vstd::prelude::*;
use vstd::string::*;

verus! {

/// An edit of the tree that a rule proposes.
#[derive(Debug)]
pub enum LintFix {
    /// Take the anchor out.
    Delete { anchor: Segment },
    /// Put the segments of `edit` in the place of the anchor.
    Replace { anchor: Segment, edit: Vec<Segment> },
    /// Put the segments of `edit` before the anchor.
    CreateBefore { anchor: Segment, edit: Vec<Segment> },
    /// Put the segments of `edit` behind the anchor.
    CreateAfter { anchor: Segment, edit: Vec<Segment> },
}

/// The model of a fix.
pub enum LintFixView {
    Delete { anchor: SegmentView },
    Replace { anchor: SegmentView, edit: Seq<SegmentView> },
    CreateBefore { anchor: SegmentView, edit: Seq<SegmentView> },
    CreateAfter { anchor: SegmentView, edit: Seq<SegmentView> },
}

impl DeepView for LintFix {
    type V = LintFixView;

    open spec fn deep_view(&self) -> LintFixView {
        match *self {
            LintFix::Delete { anchor } => LintFixView::Delete { anchor: anchor.deep_view() },
            LintFix::Replace { anchor, edit } => LintFixView::Replace {
                anchor: anchor.deep_view(),
                edit: views_of(edit@),
            },
            LintFix::CreateBefore { anchor, edit } => LintFixView::CreateBefore {
                anchor: anchor.deep_view(),
                edit: views_of(edit@),
            },
            LintFix::CreateAfter { anchor, edit } => LintFixView::CreateAfter {
                anchor: anchor.deep_view(),
                edit: views_of(edit@),
            },
        }
    }
}

impl LintFix {
    /// The fix that takes `anchor` out.
    pub fn delete(anchor: Segment) -> (r: Self)
        ensures
            r.deep_view() == (LintFixView::Delete { anchor: anchor.deep_view() }),
    {
        LintFix::Delete { anchor }
    }

    /// The fix that puts `edit` in the place of `anchor`.
    pub fn replace(anchor: Segment, edit: Vec<Segment>) -> (r: Self)
        ensures
            r.deep_view() == (LintFixView::Replace {
                anchor: anchor.deep_view(),
                edit: views_of(edit@),
            }),
    {
        LintFix::Replace { anchor, edit }
    }

    /// The fix that puts `edit` before `anchor`.
    pub fn create_before(anchor: Segment, edit: Vec<Segment>) -> (r: Self)
        ensures
            r.deep_view() == (LintFixView::CreateBefore {
                anchor: anchor.deep_view(),
                edit: views_of(edit@),
            }),
    {
        LintFix::CreateBefore { anchor, edit }
    }

    /// A copy of the fix.
    pub fn clone_fix(&self) -> (r: Self)
        ensures
            r.deep_view() == self.deep_view(),
    {
        match self {
            LintFix::Delete { anchor } => LintFix::Delete { anchor: anchor.clone_segment() },
            LintFix::Replace { anchor, edit } => LintFix::Replace {
                anchor: anchor.clone_segment(),
                edit: crate::segments::clone_segments(edit.as_slice()),
            },
            LintFix::CreateBefore { anchor, edit } => LintFix::CreateBefore {
                anchor: anchor.clone_segment(),
                edit: crate::segments::clone_segments(edit.as_slice()),
            },
            LintFix::CreateAfter { anchor, edit } => LintFix::CreateAfter {
                anchor: anchor.clone_segment(),
                edit: crate::segments::clone_segments(edit.as_slice()),
            },
        }
    }
}

/// What a rule found: the segment it is about, the fixes it proposes, and
/// what it has to say.
#[derive(Debug)]
pub struct LintResult {
    pub anchor: Option<Segment>,
    pub fixes: Vec<LintFix>,
    pub description: Option<String>,
}

/// The model of a result.
pub struct LintResultView {
    pub anchor: Option<SegmentView>,
    pub fixes: Seq<LintFixView>,
    pub description: Option<Seq<char>>,
}

impl DeepView for LintResult {
    type V = LintResultView;

    open spec fn deep_view(&self) -> LintResultView {
        LintResultView {
            anchor: match self.anchor {
                Some(a) => Some(a.deep_view()),
                None => None,
            },
            fixes: self.fixes.deep_view(),
            description: match self.description {
                Some(d) => Some(d@),
                None => None,
            },
        }
    }
}

impl LintResult {
    /// The result at `anchor` with the given fixes and description.
    pub fn new(anchor: Option<Segment>, fixes: Vec<LintFix>, description: Option<String>) -> (r:
        Self)
        ensures
            r.anchor == anchor,
            r.fixes == fixes,
            r.description == description,
    {
        LintResult { anchor, fixes, description }
    }
}

/// The fixes of the results, in the order of the results.
pub open spec fn fixes_of(results: Seq<LintResultView>) -> Seq<LintFixView>
    decreases results.len(),
{
    if results.len() == 0 {
        seq![]
    } else {
        fixes_of(results.drop_last()) + results.last().fixes
    }
}

} // verus!
