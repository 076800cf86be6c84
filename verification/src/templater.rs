//! The templated file: a text, the text it was expanded into, and the map
//! between the two.

use crate::text::text_len;
use std::ops::Range;
use vstd::prelude::*;
use vstd::string::*;
use vstd::utf8::*;

verus! {

/// What a slice of a templated file came from.
#[derive(Clone, Copy, Debug, PartialEq, Eq, Structural)]
pub enum SliceType {
    /// Text that stands in the source as it stands in the templated text.
    Literal,
    /// The output of a template expression.
    Templated,
    /// The opening tag of a template block.
    BlockStart,
    /// A tag in the middle of a template block.
    BlockMid,
    /// The closing tag of a template block.
    BlockEnd,
    /// A template comment.
    Comment,
}

/// One entry of the map: a range of the source text, the range of the
/// templated text that it became, and what kind of text it is.
#[derive(Debug)]
pub struct TemplatedFileSlice {
    pub slice_type: SliceType,
    pub source_slice: Range<usize>,
    pub templated_slice: Range<usize>,
}

impl TemplatedFileSlice {
    pub fn new(slice_type: SliceType, source_slice: Range<usize>, templated_slice: Range<usize>) -> (r:
        Self)
        ensures
            r.slice_type == slice_type,
            r.source_slice == source_slice,
            r.templated_slice == templated_slice,
    {
        TemplatedFileSlice { slice_type, source_slice, templated_slice }
    }
}

/// A source text, the templated text made of it, and the slices that map
/// the one to the other.
#[derive(Debug)]
pub struct TemplatedFile {
    pub source_str: String,
    pub templated_str: String,
    pub sliced_file: Vec<TemplatedFileSlice>,
}

impl TemplatedFile {
    /// A templated file of the given parts.
    pub fn new(source_str: String, templated_str: String, sliced_file: Vec<TemplatedFileSlice>) -> (r:
        Self)
        ensures
            r.source_str == source_str,
            r.templated_str == templated_str,
            r.sliced_file == sliced_file,
    {
        TemplatedFile { source_str, templated_str, sliced_file }
    }

    /// The file of a text without a template: the templated text is the
    /// source, and one literal slice covers all of it.
    pub fn from_string(raw: &str) -> (r: Self)
        ensures
            r.is_plain(encode_utf8(raw@)),
    {
        let len = text_len(raw);
        let slice = TemplatedFileSlice::new(SliceType::Literal, 0..len, 0..len);
        TemplatedFile {
            source_str: raw.to_owned(),
            templated_str: raw.to_owned(),
            sliced_file: vec![slice],
        }
    }

    /// The file is that of `text` without a template.
    pub open spec fn is_plain(&self, text: Seq<u8>) -> bool {
        &&& encode_utf8(self.source_str@) == text
        &&& encode_utf8(self.templated_str@) == text
        &&& self.sliced_file@.len() == 1
        &&& self.sliced_file@[0].slice_type == SliceType::Literal
        &&& self.sliced_file@[0].source_slice == (0usize..(text.len() as usize))
        &&& self.sliced_file@[0].templated_slice == (0usize..(text.len() as usize))
    }

    /// The templated text.
    pub fn get_templated_string(&self) -> (r: &str)
        ensures
            r@ == self.templated_str@,
    {
        self.templated_str.as_str()
    }
}

} // verus!
