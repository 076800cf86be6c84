//! Positions of segments in the source text and in the templated text.

use std::ops::Range;
use vstd::prelude::*;

verus! {

/// Where a segment stands: its byte range in the source text and its byte
/// range in the templated text.
#[derive(Debug)]
pub struct PositionMarker {
    pub source_slice: Range<usize>,
    pub templated_slice: Range<usize>,
}

impl PositionMarker {
    pub fn new(source_slice: Range<usize>, templated_slice: Range<usize>) -> (r: Self)
        ensures
            r.source_slice == source_slice,
            r.templated_slice == templated_slice,
    {
        PositionMarker { source_slice, templated_slice }
    }

    pub fn from_point(source_point: usize, templated_point: usize) -> (r: Self)
        ensures
            r.source_slice == (source_point..source_point),
            r.templated_slice == (templated_point..templated_point),
    {
        PositionMarker {
            source_slice: source_point..source_point,
            templated_slice: templated_point..templated_point,
        }
    }

    pub fn end_point_marker(&self) -> (r: Self)
        ensures
            r.source_slice == (self.source_slice.end..self.source_slice.end),
            r.templated_slice == (self.templated_slice.end..self.templated_slice.end),
    {
        PositionMarker::from_point(self.source_slice.end, self.templated_slice.end)
    }

    pub fn same(&self, other: &PositionMarker) -> (r: bool)
        ensures
            r == (*self == *other),
    {
        self.source_slice.start == other.source_slice.start && self.source_slice.end
            == other.source_slice.end && self.templated_slice.start == other.templated_slice.start
            && self.templated_slice.end == other.templated_slice.end
    }
}

impl Clone for PositionMarker {
    fn clone(&self) -> (r: Self)
        ensures
            r == *self,
    {
        PositionMarker {
            source_slice: self.source_slice.start..self.source_slice.end,
            templated_slice: self.templated_slice.start..self.templated_slice.end,
        }
    }
}

} // verus!
