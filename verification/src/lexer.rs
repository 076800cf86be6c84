//! The lexer: from text to a flat list of positioned leaf segments.
//!
//! Text is modelled by its UTF-8 bytes (`Seq<u8>`), since every position
//! that the lexer computes is a byte offset.

use crate::config::FluffConfig;
use crate::dialect::Dialect;
use crate::errors::{SQLLexError, ValueError};
use crate::markers::PositionMarker;
use crate::regexp::{
    clone_regex, compile_regex, find_regex, regex_compiles, regex_find, regex_source,
};
use crate::segments::{
    lemma_raws_push, lemma_views_push, raws_joined, views_of, Segment, SegmentView,
};
use crate::syntax::SyntaxKind;
use crate::templater::{SliceType, TemplatedFile, TemplatedFileSlice};
use crate::text::{
    byte_len, cut_text, cuttable, find_text, first_occurrence, join_text, lemma_encode_concat,
    lemma_first_occurrence, occurs_at, occurs_in, same_text, split_text, split_three,
    starts_with_text, text_len,
};
use fancy_regex::Regex;
use std::ops::Range;
use vstd::prelude::*;
use vstd::string::*;
use vstd::utf8::*;

verus! {

/// How a pattern looks for its text: a literal, by its bytes, or a regular
/// expression, by its source.
pub enum SearchRule {
    Literal(Seq<u8>),
    Regex(Seq<char>),
}

/// The model of a `Pattern`.
pub struct PatternView {
    pub name: Seq<char>,
    pub value: SyntaxKind,
    pub rule: SearchRule,
}

/// The model of a `Matcher`.
pub struct MatcherView {
    pub pattern: PatternView,
    pub subdivider: Option<PatternView>,
    pub trim_post_subdivide: Option<PatternView>,
}

/// The model of an `Element`.
pub struct ElementView {
    pub name: Seq<char>,
    pub text: Seq<u8>,
    pub value: SyntaxKind,
}

/// The model of a `Match`: the elements found and the text left over.
pub struct MatchView {
    pub elements: Seq<ElementView>,
    pub rest: Seq<u8>,
}

/// The span of the first occurrence of `rule` in `text`, wherever it lies.
pub open spec fn found_span(rule: SearchRule, text: Seq<u8>) -> Option<(int, int)> {
    match rule {
        SearchRule::Literal(template) => match first_occurrence(text, template, 0) {
            Some(at) => Some((at, at + template.len())),
            None => None,
        },
        SearchRule::Regex(source) => regex_find(source, decode_utf8(text)),
    }
}

/// The span that an unanchored search for `rule` in `text` yields: the
/// first occurrence, if its ends lie on character boundaries of `text`.
pub open spec fn search_span(rule: SearchRule, text: Seq<u8>) -> Option<(int, int)> {
    match found_span(rule, text) {
        Some((start, end)) => if cuttable(text, start, end) {
            Some((start, end))
        } else {
            None
        },
        None => None,
    }
}

/// The number of bytes that `rule` matches at the very start of `text`.
pub open spec fn anchored_len(rule: SearchRule, text: Seq<u8>) -> Option<int> {
    match rule {
        SearchRule::Literal(template) => if occurs_at(text, template, 0) && cuttable(
            text,
            0,
            template.len() as int,
        ) {
            Some(template.len() as int)
        } else {
            None
        },
        SearchRule::Regex(source) => match regex_find(source, decode_utf8(text)) {
            Some((start, end)) => if start == 0 && cuttable(text, 0, end) {
                Some(end)
            } else {
                None
            },
            None => None,
        },
    }
}

/// The element that `pattern` makes of `text`.
pub open spec fn element_of(pattern: PatternView, text: Seq<u8>) -> ElementView {
    ElementView { name: pattern.name, text, value: pattern.value }
}

/// What is left at the end of trimming: the content gathered so far and the
/// text not yet looked at become one element of the matcher's own pattern,
/// unless both are empty.
pub open spec fn trim_leftover(own: PatternView, content: Seq<u8>, rest: Seq<u8>) -> Seq<
    ElementView,
> {
    if content.len() > 0 || rest.len() > 0 {
        seq![element_of(own, content + rest)]
    } else {
        seq![]
    }
}

/// Trimming, from a state of the scan: `content` is what has been gathered
/// and `rest` is what is still to be scanned.
///
/// An occurrence of `trim` at the start of `rest` becomes an element of its
/// own. One that ends with `rest` closes the scan: the content before it
/// becomes an element of the matcher's own pattern and the occurrence one
/// of `trim`. One in the middle is gathered into the content. An empty
/// occurrence at the start ends the scan, as no occurrence does.
pub open spec fn trim_from(
    own: PatternView,
    trim: PatternView,
    content: Seq<u8>,
    rest: Seq<u8>,
) -> Seq<ElementView>
    decreases rest.len(),
{
    if rest.len() == 0 {
        trim_leftover(own, content, rest)
    } else {
        match search_span(trim.rule, rest) {
            Some((start, end)) => if end <= 0 || end > rest.len() {
                trim_leftover(own, content, rest)
            } else if start == 0 {
                seq![element_of(trim, rest.subrange(0, end))] + trim_from(
                    own,
                    trim,
                    content,
                    rest.subrange(end, rest.len() as int),
                )
            } else if end == rest.len() {
                seq![
                    element_of(own, content + rest.subrange(0, start)),
                    element_of(trim, rest.subrange(start, end)),
                ]
            } else {
                trim_from(
                    own,
                    trim,
                    content + rest.subrange(0, end),
                    rest.subrange(end, rest.len() as int),
                )
            },
            None => trim_leftover(own, content, rest),
        }
    }
}

/// The elements that trimming makes of `text`: none without a trim pattern.
pub open spec fn trim_elements(matcher: MatcherView, text: Seq<u8>) -> Seq<ElementView> {
    match matcher.trim_post_subdivide {
        Some(trim) => trim_from(matcher.pattern, trim, Seq::empty(), text),
        None => seq![],
    }
}

/// Subdividing, from a state of the scan: `rest` is what is still to be
/// scanned. What stands before each occurrence of the divider is trimmed,
/// the occurrence becomes an element of the divider, and what follows the
/// last occurrence is trimmed. An occurrence that ends at the start of
/// `rest` ends the scan, as no occurrence does.
pub open spec fn subdivide_from(matcher: MatcherView, divider: PatternView, rest: Seq<u8>) -> Seq<
    ElementView,
>
    decreases rest.len(),
{
    if rest.len() == 0 {
        seq![]
    } else {
        match search_span(divider.rule, rest) {
            Some((start, end)) => if end <= 0 || end > rest.len() {
                trim_elements(matcher, rest)
            } else {
                trim_elements(matcher, rest.subrange(0, start)) + seq![
                    element_of(divider, rest.subrange(start, end)),
                ] + subdivide_from(matcher, divider, rest.subrange(end, rest.len() as int))
            },
            None => trim_elements(matcher, rest),
        }
    }
}

/// The elements that a matcher makes of the text that its pattern matched.
pub open spec fn subdivide_elements(matcher: MatcherView, matched: Seq<u8>) -> Seq<ElementView> {
    match matcher.subdivider {
        Some(divider) => subdivide_from(matcher, divider, matched),
        None => seq![element_of(matcher.pattern, matched)],
    }
}

/// What a matcher makes of `text`: where its pattern matches at the start,
/// the elements of the matched text and the text behind it; else no element
/// and the whole text.
pub open spec fn matcher_result(matcher: MatcherView, text: Seq<u8>) -> MatchView {
    match anchored_len(matcher.pattern.rule, text) {
        Some(n) => MatchView {
            elements: subdivide_elements(matcher, text.subrange(0, n)),
            rest: text.subrange(n, text.len() as int),
        },
        None => MatchView { elements: seq![], rest: text },
    }
}

/// A matcher advances on `text` where it makes at least one element of it
/// and leaves less text than it was given.
pub open spec fn advances(matcher: MatcherView, text: Seq<u8>) -> bool {
    let made = matcher_result(matcher, text);
    made.elements.len() > 0 && made.rest.len() < text.len()
}

/// The index of the first matcher at or after `from` that advances on
/// `text`.
pub open spec fn first_advancing(matchers: Seq<MatcherView>, text: Seq<u8>, from: int) -> Option<
    int,
>
    decreases matchers.len() - from,
{
    if from < 0 || from >= matchers.len() {
        None
    } else if advances(matchers[from], text) {
        Some(from)
    } else {
        first_advancing(matchers, text, from + 1)
    }
}

/// Lexing with an ordered list of matchers: as long as text is left, the
/// first matcher of the list that advances on it adds its elements and
/// leaves its rest; the scan ends where the text is empty or no matcher
/// advances.
pub open spec fn lex_match_result(matchers: Seq<MatcherView>, text: Seq<u8>) -> MatchView
    decreases text.len(),
{
    if text.len() == 0 {
        MatchView { elements: seq![], rest: text }
    } else {
        match first_advancing(matchers, text, 0) {
            Some(k) => {
                let made = matcher_result(matchers[k], text);
                if made.rest.len() < text.len() {
                    let more = lex_match_result(matchers, made.rest);
                    MatchView { elements: made.elements + more.elements, rest: more.rest }
                } else {
                    MatchView { elements: seq![], rest: text }
                }
            },
            None => MatchView { elements: seq![], rest: text },
        }
    }
}

/// What `first_advancing` finds is a matcher that advances, and none
/// before it does.
pub proof fn lemma_first_advancing(matchers: Seq<MatcherView>, text: Seq<u8>, from: int)
    requires
        0 <= from,
    ensures
        first_advancing(matchers, text, from) matches Some(k) ==> {
            &&& from <= k < matchers.len()
            &&& advances(matchers[k], text)
            &&& forall|j: int| from <= j < k ==> !advances(matchers[j], text)
        },
        first_advancing(matchers, text, from) is None ==> forall|j: int|
            from <= j < matchers.len() ==> !advances(matchers[j], text),
    decreases matchers.len() - from,
{
    if from < matchers.len() && !advances(matchers[from], text) {
        lemma_first_advancing(matchers, text, from + 1);
    }
}

/// First match wins. Where two matchers both advance on a text, lexing it
/// with the one before the other begins with the elements of the one, and
/// lexing it with the other before the one begins with the elements of the
/// other: the order of the list decides.
pub proof fn lemma_first_match_wins(a: MatcherView, b: MatcherView, text: Seq<u8>)
    requires
        advances(a, text),
        advances(b, text),
    ensures
        matcher_result(a, text).elements.is_prefix_of(lex_match_result(seq![a, b], text).elements),
        matcher_result(b, text).elements.is_prefix_of(lex_match_result(seq![b, a], text).elements),
        lex_match_result(seq![a, b], text).elements[0] == matcher_result(a, text).elements[0],
        lex_match_result(seq![b, a], text).elements[0] == matcher_result(b, text).elements[0],
{
    let ab = seq![a, b];
    let ba = seq![b, a];
    assert(ab[0] == a);
    assert(ba[0] == b);
    assert(first_advancing(ab, text, 0) == Some(0int));
    assert(first_advancing(ba, text, 0) == Some(0int));
    let made_a = matcher_result(a, text);
    let made_b = matcher_result(b, text);
    let more_a = lex_match_result(ab, made_a.rest);
    let more_b = lex_match_result(ba, made_b.rest);
    assert(lex_match_result(ab, text).elements == made_a.elements + more_a.elements);
    assert(lex_match_result(ba, text).elements == made_b.elements + more_b.elements);
    assert((made_a.elements + more_a.elements).subrange(0, made_a.elements.len() as int)
        =~= made_a.elements);
    assert((made_b.elements + more_b.elements).subrange(0, made_b.elements.len() as int)
        =~= made_b.elements);
}

/// An element matched during lexing.
#[derive(Debug)]
pub struct Element {
    pub name: &'static str,
    pub text: String,
    pub value: SyntaxKind,
}

impl DeepView for Element {
    type V = ElementView;

    open spec fn deep_view(&self) -> ElementView {
        ElementView { name: self.name@, text: encode_utf8(self.text@), value: self.value }
    }
}

impl Clone for Element {
    fn clone(&self) -> (r: Self)
        ensures
            r == *self,
    {
        Element { name: self.name, text: self.text.clone(), value: self.value }
    }
}

impl Element {
    pub fn new(name: &'static str, value: SyntaxKind, text: String) -> (r: Self)
        ensures
            r.name == name,
            r.value == value,
            r.text == text,
    {
        Element { name, value, text }
    }
}

/// A class to hold matches from the lexer.
#[derive(Debug)]
pub struct Match<'a> {
    pub forward_string: &'a str,
    pub elements: Vec<Element>,
}

impl<'a> DeepView for Match<'a> {
    type V = MatchView;

    open spec fn deep_view(&self) -> MatchView {
        MatchView {
            elements: self.elements.deep_view(),
            rest: encode_utf8(self.forward_string@),
        }
    }
}

impl Match<'_> {
    /// A match is non-empty if it holds at least one element.
    pub fn is_non_empty(&self) -> (r: bool)
        ensures
            r == (self.elements@.len() > 0),
    {
        self.elements.len() > 0
    }
}

#[derive(Debug)]
pub enum SearchPatternKind {
    String(&'static str),
    Regex(Regex),
}

impl View for SearchPatternKind {
    type V = SearchRule;

    open spec fn view(&self) -> SearchRule {
        match *self {
            SearchPatternKind::String(template) => SearchRule::Literal(encode_utf8(template@)),
            SearchPatternKind::Regex(regex) => SearchRule::Regex(regex_source(regex)),
        }
    }
}

impl Clone for SearchPatternKind {
    fn clone(&self) -> (r: Self)
        ensures
            r == *self,
    {
        match self {
            SearchPatternKind::String(template) => SearchPatternKind::String(*template),
            SearchPatternKind::Regex(regex) => SearchPatternKind::Regex(clone_regex(regex)),
        }
    }
}

/// A lexical rule: a name, the kind of token it makes, and the text to look
/// for.
#[derive(Debug)]
pub struct Pattern {
    name: &'static str,
    value: SyntaxKind,
    kind: SearchPatternKind,
}

impl View for Pattern {
    type V = PatternView;

    closed spec fn view(&self) -> PatternView {
        PatternView { name: self.name@, value: self.value, rule: self.kind@ }
    }
}

impl Clone for Pattern {
    fn clone(&self) -> (r: Self)
        ensures
            r == *self,
    {
        Pattern { name: self.name, value: self.value, kind: self.kind.clone() }
    }
}

impl Pattern {
    /// A pattern that looks for the literal text `template`.
    pub fn string(name: &'static str, template: &'static str, value: SyntaxKind) -> (r: Self)
        ensures
            r@ == (PatternView {
                name: name@,
                value,
                rule: SearchRule::Literal(encode_utf8(template@)),
            }),
    {
        Pattern { name, value, kind: SearchPatternKind::String(template) }
    }

    /// A pattern that looks for the regular expression `regex`, which must
    /// be one that compiles.
    pub fn regex(name: &'static str, regex: &'static str, value: SyntaxKind) -> (r: Self)
        requires
            regex_compiles(regex@),
        ensures
            r@ == (PatternView { name: name@, value, rule: SearchRule::Regex(regex@) }),
    {
        match compile_regex(regex) {
            Some(compiled) => Pattern { name, value, kind: SearchPatternKind::Regex(compiled) },
            None => vstd::pervasive::unreached(),
        }
    }

    /// A pattern that looks for the regular expression `regex`, or `None`
    /// where `regex` does not compile.
    pub fn try_regex(name: &'static str, regex: &'static str, value: SyntaxKind) -> (r: Option<
        Self,
    >)
        ensures
            r is Some <==> regex_compiles(regex@),
            r matches Some(pattern) ==> pattern@ == (PatternView {
                name: name@,
                value,
                rule: SearchRule::Regex(regex@),
            }),
    {
        if compile_regex(regex).is_some() {
            Some(Pattern::regex(name, regex, value))
        } else {
            None
        }
    }

    /// The name of the pattern.
    pub fn name(&self) -> (r: &'static str)
        ensures
            r@ == self@.name,
    {
        self.name
    }

    /// The kind of token that the pattern makes.
    pub fn value(&self) -> (r: SyntaxKind)
        ensures
            r == self@.value,
    {
        self.value
    }

    /// The span that the pattern finds first in `text`, wherever it lies.
    fn find_span(&self, text: &str) -> (r: Option<(usize, usize)>)
        ensures
            r is Some <==> found_span(self@.rule, encode_utf8(text@)) is Some,
            r matches Some((start, end)) ==> found_span(self@.rule, encode_utf8(text@)) == Some(
                (start as int, end as int),
            ),
    {
        proof {
            encode_utf8_decode_utf8(text@);
        }
        match &self.kind {
            SearchPatternKind::String(template) => {
                let len = text_len(text);
                match find_text(text, template) {
                    Some(at) => {
                        proof {
                            lemma_first_occurrence(
                                encode_utf8(text@),
                                encode_utf8(template@),
                                0,
                            );
                        }
                        Some((at, at + text_len(template)))
                    },
                    None => None,
                }
            },
            SearchPatternKind::Regex(regex) => find_regex(regex, text),
        }
    }

    /// Matches the pattern at the very start of `forward_string`, and hands
    /// out the matched text and the text behind it.
    pub fn matches<'a>(&self, forward_string: &'a str) -> (r: Option<(&'a str, &'a str)>)
        ensures
            r is Some <==> anchored_len(self@.rule, encode_utf8(forward_string@)) is Some,
            r matches Some((matched, rest)) ==> {
                let text = encode_utf8(forward_string@);
                let n = anchored_len(self@.rule, text).unwrap();
                &&& 0 <= n <= text.len()
                &&& encode_utf8(matched@) == text.subrange(0, n)
                &&& encode_utf8(rest@) == text.subrange(n, text.len() as int)
            },
    {
        proof {
            encode_utf8_decode_utf8(forward_string@);
            encode_utf8_valid_utf8(forward_string@);
            is_char_boundary_start_end_of_seq(encode_utf8(forward_string@));
        }
        match &self.kind {
            SearchPatternKind::String(template) => {
                if starts_with_text(forward_string, template) {
                    split_text(forward_string, text_len(template))
                } else {
                    None
                }
            },
            SearchPatternKind::Regex(regex) => {
                match find_regex(regex, forward_string) {
                    Some((start, end)) => {
                        if start == 0 {
                            split_text(forward_string, end)
                        } else {
                            None
                        }
                    },
                    None => None,
                }
            },
        }
    }

    /// Searches for the first occurrence of the pattern anywhere in
    /// `forward_string`, and hands out its byte range.
    pub fn search(&self, forward_string: &str) -> (r: Option<Range<usize>>)
        ensures
            r is Some <==> search_span(self@.rule, encode_utf8(forward_string@)) is Some,
            r matches Some(range) ==> search_span(self@.rule, encode_utf8(forward_string@))
                == Some((range.start as int, range.end as int)),
    {
        match self.find_span(forward_string) {
            Some((start, end)) => {
                if split_three(forward_string, start, end).is_some() {
                    Some(start..end)
                } else {
                    None
                }
            },
            None => None,
        }
    }

    /// Searches as `search` does, and hands out the text before the
    /// occurrence, the occurrence and the text behind it.
    fn search_parts<'a>(&self, forward_string: &'a str) -> (r: Option<(&'a str, &'a str, &'a str)>)
        ensures
            r is Some <==> search_span(self@.rule, encode_utf8(forward_string@)) is Some,
            r matches Some((before, found, after)) ==> {
                let text = encode_utf8(forward_string@);
                let (start, end) = search_span(self@.rule, text).unwrap();
                &&& 0 <= start <= end <= text.len()
                &&& encode_utf8(before@) == text.subrange(0, start)
                &&& encode_utf8(found@) == text.subrange(start, end)
                &&& encode_utf8(after@) == text.subrange(end, text.len() as int)
            },
    {
        match self.find_span(forward_string) {
            Some((start, end)) => split_three(forward_string, start, end),
            None => None,
        }
    }
}

/// A lexical rule with what follows a match: a pattern, and optionally a
/// pattern that divides the matched text and one that trims the pieces.
#[derive(Debug)]
pub struct Matcher {
    pattern: Pattern,
    subdivider: Option<Pattern>,
    trim_post_subdivide: Option<Pattern>,
}

/// The model of an optional pattern.
pub open spec fn optional_view(pattern: Option<Pattern>) -> Option<PatternView> {
    match pattern {
        Some(p) => Some(p@),
        None => None,
    }
}

impl View for Matcher {
    type V = MatcherView;

    closed spec fn view(&self) -> MatcherView {
        MatcherView {
            pattern: self.pattern@,
            subdivider: optional_view(self.subdivider),
            trim_post_subdivide: optional_view(self.trim_post_subdivide),
        }
    }
}

impl DeepView for Matcher {
    type V = MatcherView;

    open spec fn deep_view(&self) -> MatcherView {
        self@
    }
}

impl Clone for Matcher {
    fn clone(&self) -> (r: Self)
        ensures
            r == *self,
    {
        let subdivider = match &self.subdivider {
            Some(p) => Some(p.clone()),
            None => None,
        };
        let trim_post_subdivide = match &self.trim_post_subdivide {
            Some(p) => Some(p.clone()),
            None => None,
        };
        Matcher { pattern: self.pattern.clone(), subdivider, trim_post_subdivide }
    }
}

impl Matcher {
    /// A matcher of `pattern` that neither divides nor trims.
    pub fn new(pattern: Pattern) -> (r: Self)
        ensures
            r@ == (MatcherView { pattern: pattern@, subdivider: None, trim_post_subdivide: None }),
    {
        Matcher { pattern, subdivider: None, trim_post_subdivide: None }
    }

    /// A matcher of the literal text `pattern`.
    pub fn string(name: &'static str, pattern: &'static str, value: SyntaxKind) -> (r: Self)
        ensures
            r@ == (MatcherView {
                pattern: PatternView {
                    name: name@,
                    value,
                    rule: SearchRule::Literal(encode_utf8(pattern@)),
                },
                subdivider: None,
                trim_post_subdivide: None,
            }),
    {
        Matcher::new(Pattern::string(name, pattern, value))
    }

    /// A matcher of the regular expression `pattern`, which must be one
    /// that compiles.
    pub fn regex(name: &'static str, pattern: &'static str, value: SyntaxKind) -> (r: Self)
        requires
            regex_compiles(pattern@),
        ensures
            r@ == (MatcherView {
                pattern: PatternView { name: name@, value, rule: SearchRule::Regex(pattern@) },
                subdivider: None,
                trim_post_subdivide: None,
            }),
    {
        Matcher::new(Pattern::regex(name, pattern, value))
    }

    /// A matcher of the regular expression `pattern`, or `None` where
    /// `pattern` does not compile.
    pub fn try_regex(name: &'static str, pattern: &'static str, value: SyntaxKind) -> (r: Option<
        Self,
    >)
        ensures
            r is Some <==> regex_compiles(pattern@),
            r matches Some(matcher) ==> matcher@ == (MatcherView {
                pattern: PatternView { name: name@, value, rule: SearchRule::Regex(pattern@) },
                subdivider: None,
                trim_post_subdivide: None,
            }),
    {
        if compile_regex(pattern).is_some() {
            Some(Matcher::regex(name, pattern, value))
        } else {
            None
        }
    }

    /// The same matcher, dividing what it matches at each occurrence of
    /// `subdivider`.
    pub fn subdivider(self, subdivider: Pattern) -> (r: Self)
        ensures
            r@ == (MatcherView { subdivider: Some(subdivider@), ..self@ }),
    {
        Matcher {
            pattern: self.pattern,
            subdivider: Some(subdivider),
            trim_post_subdivide: self.trim_post_subdivide,
        }
    }

    /// The same matcher, trimming occurrences of `trim_post_subdivide` off
    /// the pieces that dividing leaves.
    pub fn post_subdivide(self, trim_post_subdivide: Pattern) -> (r: Self)
        ensures
            r@ == (MatcherView { trim_post_subdivide: Some(trim_post_subdivide@), ..self@ }),
    {
        Matcher {
            pattern: self.pattern,
            subdivider: self.subdivider,
            trim_post_subdivide: Some(trim_post_subdivide),
        }
    }

    /// The name of the matcher, which is that of its pattern.
    pub fn name(&self) -> (r: &'static str)
        ensures
            r@ == self@.pattern.name,
    {
        self.pattern.name
    }

    /// Matches the pattern at the start of `forward_string` and divides and
    /// trims what it matched. Without a match the result holds no element
    /// and the whole of `forward_string`.
    pub fn matches<'a>(&self, forward_string: &'a str) -> (r: Match<'a>)
        ensures
            r.deep_view() == matcher_result(self@, encode_utf8(forward_string@)),
    {
        match self.pattern.matches(forward_string) {
            Some((matched, rest)) => {
                let new_elements = self.subdivide(matched);
                Match { forward_string: rest, elements: new_elements }
            },
            None => {
                let r = Match { forward_string, elements: Vec::new() };
                assert(r.elements.deep_view() =~= Seq::<ElementView>::empty());
                r
            },
        }
    }

    /// The elements of a matched text: the text as one element, or its
    /// pieces where the matcher divides.
    fn subdivide(&self, matched: &str) -> (r: Vec<Element>)
        ensures
            r.deep_view() == subdivide_elements(self@, encode_utf8(matched@)),
    {
        match &self.subdivider {
            Some(subdivider) => {
                let mut elem_buff: Vec<Element> = Vec::new();
                let mut str_buff: &str = matched;
                assert(elem_buff.deep_view() =~= Seq::<ElementView>::empty());
                loop
                    invariant
                        self.subdivider == Some(*subdivider),
                        subdivide_elements(self@, encode_utf8(matched@)) == elem_buff.deep_view()
                            + subdivide_from(self@, subdivider@, encode_utf8(str_buff@)),
                    decreases byte_len(str_buff@),
                {
                    let ghost before_view = elem_buff.deep_view();
                    let ghost rest = encode_utf8(str_buff@);
                    if text_len(str_buff) == 0 {
                        assert(before_view + Seq::<ElementView>::empty() =~= before_view);
                        return elem_buff;
                    }
                    match subdivider.search_parts(str_buff) {
                        None => {
                            let mut trimmed_elems = self.trim_match(str_buff);
                            elem_buff.append(&mut trimmed_elems);
                            assert(elem_buff.deep_view() =~= before_view + trim_elements(
                                self@,
                                rest,
                            ));
                            return elem_buff;
                        },
                        Some((before, found, after)) => {
                            if text_len(before) == 0 && text_len(found) == 0 {
                                let mut trimmed_elems = self.trim_match(str_buff);
                                elem_buff.append(&mut trimmed_elems);
                                assert(elem_buff.deep_view() =~= before_view + trim_elements(
                                    self@,
                                    rest,
                                ));
                                return elem_buff;
                            }
                            let mut trimmed_elems = self.trim_match(before);
                            let div_elem = Element::new(
                                subdivider.name,
                                subdivider.value,
                                found.to_owned(),
                            );
                            elem_buff.append(&mut trimmed_elems);
                            elem_buff.push(div_elem);
                            proof {
                                let (start, end) = search_span(subdivider@.rule, rest).unwrap();
                                let piece = trim_elements(self@, rest.subrange(0, start)) + seq![
                                    element_of(subdivider@, rest.subrange(start, end)),
                                ];
                                assert(elem_buff.deep_view() =~= before_view + piece);
                                let tail = subdivide_from(
                                    self@,
                                    subdivider@,
                                    rest.subrange(end, rest.len() as int),
                                );
                                assert(before_view + (piece + tail) =~= (before_view + piece)
                                    + tail);
                            }
                            str_buff = after;
                        },
                    }
                }
            },
            None => {
                let r = vec![Element::new(self.pattern.name, self.pattern.value, matched.to_owned())];
                assert(r.deep_view() =~= seq![element_of(self@.pattern, encode_utf8(matched@))]);
                r
            },
        }
    }

    /// The elements that trimming makes of a piece of matched text.
    fn trim_match(&self, matched_str: &str) -> (r: Vec<Element>)
        ensures
            r.deep_view() == trim_elements(self@, encode_utf8(matched_str@)),
    {
        let trim = match &self.trim_post_subdivide {
            Some(trim) => trim,
            None => {
                let r: Vec<Element> = Vec::new();
                assert(r.deep_view() =~= Seq::<ElementView>::empty());
                return r;
            },
        };
        let mut elem_buff: Vec<Element> = Vec::new();
        let mut content_buff = String::new();
        let mut str_buff: &str = matched_str;
        assert(elem_buff.deep_view() =~= Seq::<ElementView>::empty());
        assert(Seq::<ElementView>::empty() + trim_elements(self@, encode_utf8(matched_str@))
            =~= trim_elements(self@, encode_utf8(matched_str@)));
        loop
            invariant
                self.trim_post_subdivide == Some(*trim),
                trim_elements(self@, encode_utf8(matched_str@)) == elem_buff.deep_view()
                    + trim_from(
                    self@.pattern,
                    trim@,
                    encode_utf8(content_buff@),
                    encode_utf8(str_buff@),
                ),
            decreases byte_len(str_buff@),
        {
            let ghost before_view = elem_buff.deep_view();
            let ghost content = encode_utf8(content_buff@);
            let ghost rest = encode_utf8(str_buff@);
            if text_len(str_buff) == 0 {
                return self.trim_flush(elem_buff, content_buff, str_buff);
            }
            match trim.search_parts(str_buff) {
                None => {
                    return self.trim_flush(elem_buff, content_buff, str_buff);
                },
                Some((before, found, after)) => {
                    let start = text_len(before);
                    if start == 0 && text_len(found) == 0 {
                        return self.trim_flush(elem_buff, content_buff, str_buff);
                    }
                    let ghost (s, e) = search_span(trim@.rule, rest).unwrap();
                    if start == 0 {
                        elem_buff.push(Element::new(trim.name, trim.value, found.to_owned()));
                        proof {
                            let piece = seq![element_of(trim@, rest.subrange(0, e))];
                            let tail = trim_from(
                                self@.pattern,
                                trim@,
                                content,
                                rest.subrange(e, rest.len() as int),
                            );
                            assert(elem_buff.deep_view() =~= before_view + piece);
                            assert(before_view + (piece + tail) =~= (before_view + piece) + tail);
                        }
                        str_buff = after;
                    } else if text_len(after) == 0 {
                        let raw = join_text(content_buff.as_str(), before);
                        proof {
                            lemma_encode_concat(content_buff@, before@);
                        }
                        elem_buff.push(Element::new(self.pattern.name, self.pattern.value, raw));
                        elem_buff.push(Element::new(trim.name, trim.value, found.to_owned()));
                        assert(elem_buff.deep_view() =~= before_view + seq![
                            element_of(self@.pattern, content + rest.subrange(0, s)),
                            element_of(trim@, rest.subrange(s, e)),
                        ]);
                        return elem_buff;
                    } else {
                        let ghost old_content = content_buff@;
                        content_buff.append(before);
                        content_buff.append(found);
                        proof {
                            lemma_encode_concat(old_content, before@);
                            lemma_encode_concat(old_content + before@, found@);
                            assert(rest.subrange(0, s) + rest.subrange(s, e) =~= rest.subrange(
                                0,
                                e,
                            ));
                            assert(content + rest.subrange(0, s) + rest.subrange(s, e) =~= content
                                + rest.subrange(0, e));
                        }
                        str_buff = after;
                    }
                },
            }
        }
    }

    /// Closes a trimming scan: what was gathered and what was not scanned
    /// become one last element of the matcher's own pattern.
    fn trim_flush(&self, elem_buff: Vec<Element>, content_buff: String, str_buff: &str) -> (r:
        Vec<Element>)
        ensures
            r.deep_view() == elem_buff.deep_view() + trim_leftover(
                self@.pattern,
                encode_utf8(content_buff@),
                encode_utf8(str_buff@),
            ),
    {
        let mut elem_buff = elem_buff;
        let ghost before_view = elem_buff.deep_view();
        if text_len(content_buff.as_str()) > 0 || text_len(str_buff) > 0 {
            let raw = join_text(content_buff.as_str(), str_buff);
            proof {
                lemma_encode_concat(content_buff@, str_buff@);
            }
            elem_buff.push(Element::new(self.pattern.name, self.pattern.value, raw));
            assert(elem_buff.deep_view() =~= before_view + seq![
                element_of(
                    self@.pattern,
                    encode_utf8(content_buff@) + encode_utf8(str_buff@),
                ),
            ]);
        } else {
            assert(before_view + Seq::<ElementView>::empty() =~= before_view);
        }
        elem_buff
    }
}

/// The first matcher of the list that advances on `forward_string`, with
/// what it makes of it.
fn first_match<'b>(forward_string: &'b str, lexer_matchers: &[Matcher]) -> (r: Option<Match<'b>>)
    ensures
        r is Some <==> first_advancing(
            lexer_matchers.deep_view(),
            encode_utf8(forward_string@),
            0,
        ) is Some,
        r matches Some(found) ==> {
            let matchers = lexer_matchers.deep_view();
            let text = encode_utf8(forward_string@);
            let k = first_advancing(matchers, text, 0).unwrap();
            &&& 0 <= k < matchers.len()
            &&& found.deep_view() == matcher_result(matchers[k], text)
            &&& found.deep_view().rest.len() < text.len()
        },
{
    let ghost matchers = lexer_matchers.deep_view();
    let ghost text = encode_utf8(forward_string@);
    let len = text_len(forward_string);
    let mut i: usize = 0;
    while i < lexer_matchers.len()
        invariant
            matchers == lexer_matchers.deep_view(),
            text == encode_utf8(forward_string@),
            len == text.len(),
            i <= lexer_matchers@.len(),
            first_advancing(matchers, text, 0) == first_advancing(matchers, text, i as int),
        decreases lexer_matchers@.len() - i,
    {
        let found = lexer_matchers[i].matches(forward_string);
        assert(matchers[i as int] == lexer_matchers@[i as int]@);
        if found.is_non_empty() && text_len(found.forward_string) < len {
            proof {
                lemma_first_advancing(matchers, text, i as int);
            }
            return Some(found);
        }
        i += 1;
    }
    None
}


/// The model of a `TemplateElement`: the text of an element, the byte range
/// `start..end` that it takes in the templated text, and the name and kind
/// that its matcher gave it.
pub struct TemplateElementView {
    pub raw: Seq<u8>,
    pub start: int,
    pub end: int,
    pub name: Seq<char>,
    pub value: SyntaxKind,
}

/// The texts of the elements, joined in order.
pub open spec fn texts_joined(elements: Seq<ElementView>) -> Seq<u8>
    decreases elements.len(),
{
    if elements.len() == 0 {
        seq![]
    } else {
        texts_joined(elements.drop_last()) + elements.last().text
    }
}

/// The elements with the byte range that each takes in the text that they
/// join to.
pub open spec fn with_slices(elements: Seq<ElementView>) -> Seq<TemplateElementView> {
    Seq::new(
        elements.len(),
        |k: int|
            TemplateElementView {
                raw: elements[k].text,
                start: texts_joined(elements.take(k)).len() as int,
                end: texts_joined(elements.take(k + 1)).len() as int,
                name: elements[k].name,
                value: elements[k].value,
            },
    )
}

/// The joined text of a sequence is that of a first part followed by that
/// of the rest.
pub proof fn lemma_texts_joined_split(elements: Seq<ElementView>, k: int)
    requires
        0 <= k <= elements.len(),
    ensures
        texts_joined(elements) == texts_joined(elements.take(k)) + texts_joined(elements.skip(k)),
    decreases elements.len(),
{
    if k == elements.len() {
        assert(elements.take(k) =~= elements);
        assert(elements.skip(k) =~= Seq::<ElementView>::empty());
        assert(texts_joined(elements) + Seq::<u8>::empty() =~= texts_joined(elements));
    } else {
        let init = elements.drop_last();
        lemma_texts_joined_split(init, k);
        assert(init.take(k) =~= elements.take(k));
        assert(elements.skip(k).drop_last() =~= init.skip(k));
        assert(elements.skip(k).last() == elements.last());
        assert(texts_joined(init.take(k)) + texts_joined(init.skip(k)) + elements.last().text
            =~= texts_joined(init.take(k)) + (texts_joined(init.skip(k)) + elements.last().text));
    }
}

/// The joined text of two sequences of elements, one after the other.
pub proof fn lemma_texts_joined_concat(a: Seq<ElementView>, b: Seq<ElementView>)
    ensures
        texts_joined(a + b) == texts_joined(a) + texts_joined(b),
{
    lemma_texts_joined_split(a + b, a.len() as int);
    assert((a + b).take(a.len() as int) =~= a);
    assert((a + b).skip(a.len() as int) =~= b);
}

/// A lexed element with its place in the templated text.
#[derive(Debug)]
pub struct TemplateElement {
    raw: String,
    template_slice: Range<usize>,
    matcher: Info,
}

#[derive(Debug)]
struct Info {
    name: &'static str,
    value: SyntaxKind,
}

impl DeepView for TemplateElement {
    type V = TemplateElementView;

    closed spec fn deep_view(&self) -> TemplateElementView {
        TemplateElementView {
            raw: encode_utf8(self.raw@),
            start: self.template_slice.start as int,
            end: self.template_slice.end as int,
            name: self.matcher.name@,
            value: self.matcher.value,
        }
    }
}

impl TemplateElement {
    /// The element, placed at `template_slice` of the templated text.
    pub fn from_element(element: Element, template_slice: Range<usize>) -> (r: Self)
        ensures
            r.deep_view() == (TemplateElementView {
                raw: element.deep_view().text,
                start: template_slice.start as int,
                end: template_slice.end as int,
                name: element.deep_view().name,
                value: element.deep_view().value,
            }),
    {
        TemplateElement {
            raw: element.text,
            template_slice,
            matcher: Info { name: element.name, value: element.value },
        }
    }

    /// The leaf segment of the element at `pos_marker`: of all its text,
    /// or of the byte range `subslice` of it, which must be one that can
    /// be cut out of the text.
    pub fn to_segment(&self, pos_marker: PositionMarker, subslice: Option<Range<usize>>) -> (r:
        Segment)
        requires
            subslice matches Some(range) ==> cuttable(
                self.deep_view().raw,
                range.start as int,
                range.end as int,
            ),
        ensures
            r.deep_view() == (SegmentView::Leaf {
                kind: self.deep_view().value,
                raw: match subslice {
                    Some(range) => self.deep_view().raw.subrange(
                        range.start as int,
                        range.end as int,
                    ),
                    None => self.deep_view().raw,
                },
                position: Some(pos_marker),
            }),
    {
        match subslice {
            Some(range) => {
                match cut_text(self.raw.as_str(), range.start, range.end) {
                    Some(piece) => Segment::leaf(
                        self.matcher.value,
                        piece.to_owned(),
                        Some(pos_marker),
                    ),
                    None => vstd::pervasive::unreached(),
                }
            },
            None => Segment::leaf(self.matcher.value, self.raw.clone(), Some(pos_marker)),
        }
    }
}


/// Whether `x` is a value of `usize`.
pub open spec fn fits(x: int) -> bool {
    0 <= x <= usize::MAX
}

/// The position in the source text of the position `at` of the templated
/// text, by the offset between the two ranges of a literal slice; `None`
/// where it is no position at all.
pub open spec fn to_source(slice: TemplatedFileSlice, at: int) -> Option<int> {
    let moved = at - slice.templated_slice.start + slice.source_slice.start;
    if fits(at) && fits(moved) {
        Some(moved)
    } else {
        None
    }
}

/// The leaf made of the bytes `from..to` of an element, standing at
/// `source_start..source_end` of the source text.
pub open spec fn piece_leaf(
    element: TemplateElementView,
    from: int,
    to: int,
    source_start: int,
    source_end: int,
) -> SegmentView {
    SegmentView::Leaf {
        kind: element.value,
        raw: element.raw.subrange(from, to),
        position: Some(
            PositionMarker {
                source_slice: (source_start as usize)..(source_end as usize),
                templated_slice: (element.start as usize)..(element.end as usize),
            },
        ),
    }
}

/// Segments placed so far, and the slice that the walk has come to.
pub struct Placement {
    pub segments: Seq<SegmentView>,
    pub cursor: int,
}

/// Places one element: walks the slices from `cursor` on until the element
/// has found its place in the source text, and adds its segments to
/// `placed`.
///
/// `consumed` is how many bytes of the element earlier slices have taken,
/// and `stashed` the source position where a token that straddles slices
/// began.
///
/// - A slice without templated text is passed over.
/// - A literal slice that reaches to the end of the element takes what is
///   left of it as one segment; where both end together the walk moves on
///   to the next slice.
/// - A literal slice that ends where the element has got to is passed over.
/// - A literal slice that ends inside the element takes its part of it, if
///   the element is whitespace, as a segment of its own; of another element
///   only the source position where it began is kept.
/// - A slice of template output or the start of a block is not
///   implemented.
/// - Any other slice is passed over.
/// - Where the slices end, an element of which nothing is left is dropped;
///   any other was not placed.
pub open spec fn place_element(
    element: TemplateElementView,
    slices: Seq<TemplatedFileSlice>,
    cursor: int,
    consumed: int,
    stashed: Option<int>,
    placed: Seq<SegmentView>,
) -> Result<Placement, ValueError>
    decreases slices.len() - cursor,
{
    if cursor < 0 || cursor >= slices.len() {
        if consumed == element.raw.len() {
            Ok(Placement { segments: placed, cursor })
        } else {
            Err(ValueError::UnplacedElement)
        }
    } else {
        let slice = slices[cursor];
        let slice_end = slice.templated_slice.end as int;
        let at = element.start + consumed;
        if slice.templated_slice.start == slice.templated_slice.end {
            place_element(element, slices, cursor + 1, consumed, stashed, placed)
        } else if slice.slice_type == SliceType::Literal {
            if !fits(at) {
                Err(ValueError::PositionOutOfRange)
            } else if element.end <= slice_end {
                let source_start = match stashed {
                    Some(s) => Some(s),
                    None => to_source(slice, at),
                };
                let source_end = to_source(slice, element.end);
                if source_start is Some && source_end is Some && cuttable(
                    element.raw,
                    consumed,
                    element.raw.len() as int,
                ) {
                    Ok(
                        Placement {
                            segments: placed.push(
                                piece_leaf(
                                    element,
                                    consumed,
                                    element.raw.len() as int,
                                    source_start.unwrap(),
                                    source_end.unwrap(),
                                ),
                            ),
                            cursor: if element.end == slice_end {
                                cursor + 1
                            } else {
                                cursor
                            },
                        },
                    )
                } else {
                    Err(ValueError::PositionOutOfRange)
                }
            } else if at == slice_end {
                place_element(element, slices, cursor + 1, consumed, stashed, placed)
            } else if element.name == "whitespace"@ {
                let taken = slice_end - at;
                let source_start = to_source(slice, at);
                let source_end = to_source(slice, slice_end);
                if taken >= 0 && source_start is Some && source_end is Some && cuttable(
                    element.raw,
                    consumed,
                    consumed + taken,
                ) {
                    place_element(
                        element,
                        slices,
                        cursor + 1,
                        consumed + taken,
                        stashed,
                        placed.push(
                            piece_leaf(
                                element,
                                consumed,
                                consumed + taken,
                                source_start.unwrap(),
                                source_end.unwrap(),
                            ),
                        ),
                    )
                } else {
                    Err(ValueError::PositionOutOfRange)
                }
            } else {
                match stashed {
                    Some(_) => place_element(
                        element,
                        slices,
                        cursor + 1,
                        consumed,
                        stashed,
                        placed,
                    ),
                    None => match to_source(slice, element.start) {
                        Some(s) => place_element(
                            element,
                            slices,
                            cursor + 1,
                            consumed,
                            Some(s),
                            placed,
                        ),
                        None => Err(ValueError::PositionOutOfRange),
                    },
                }
            }
        } else if slice.slice_type == SliceType::Templated || slice.slice_type
            == SliceType::BlockStart {
            Err(ValueError::TemplatedSliceNotImplemented)
        } else {
            place_element(element, slices, cursor + 1, consumed, stashed, placed)
        }
    }
}

/// Places the elements from the `k`-th on, one after the other, each from
/// the slice that the one before it came to.
pub open spec fn place_all(
    elements: Seq<TemplateElementView>,
    k: int,
    slices: Seq<TemplatedFileSlice>,
    cursor: int,
    placed: Seq<SegmentView>,
) -> Result<Seq<SegmentView>, ValueError>
    decreases elements.len() - k,
{
    if k < 0 || k >= elements.len() {
        Ok(placed)
    } else {
        match place_element(elements[k], slices, cursor, 0, None, placed) {
            Ok(p) => place_all(elements, k + 1, slices, p.cursor, p.segments),
            Err(e) => Err(e),
        }
    }
}

/// The position in the source text of the position `at` of the templated
/// text, by the offset of a literal slice.
fn source_position(slice: &TemplatedFileSlice, at: usize) -> (r: Option<usize>)
    ensures
        r is Some <==> to_source(*slice, at as int) is Some,
        r matches Some(moved) ==> to_source(*slice, at as int) == Some(moved as int),
{
    let t_start = slice.templated_slice.start;
    let s_start = slice.source_slice.start;
    if at >= t_start {
        (at - t_start).checked_add(s_start)
    } else {
        let back: usize = t_start - at;
        if s_start >= back {
            Some(s_start - back)
        } else {
            None
        }
    }
}

impl TemplateElement {
    /// Walks the slices from `cursor` on until the element has found its
    /// place, adds its segments to `result` and hands out the slice that
    /// the walk came to.
    fn place(&self, slices: &Vec<TemplatedFileSlice>, cursor: usize, result: &mut Vec<Segment>) -> (r:
        Result<usize, ValueError>)
        requires
            cursor <= slices@.len(),
        ensures
            match place_element(
                self.deep_view(),
                slices@,
                cursor as int,
                0,
                None,
                views_of(old(result)@),
            ) {
                Ok(p) => r matches Ok(next) && next == p.cursor && next <= slices@.len()
                    && views_of(final(result)@) == p.segments,
                Err(e) => r == Err::<usize, ValueError>(e),
            },
    {
        let ghost element = self.deep_view();
        let ghost goal = place_element(element, slices@, cursor as int, 0, None, views_of(result@));
        let raw = self.raw.as_str();
        let raw_len = text_len(raw);
        let is_whitespace = same_text(self.matcher.name, "whitespace");
        let mut tfs_idx: usize = cursor;
        let mut consumed: usize = 0;
        let mut stashed: Option<usize> = None;
        while tfs_idx < slices.len()
            invariant
                element == self.deep_view(),
                raw@ == self.raw@,
                raw_len == element.raw.len(),
                is_whitespace == (element.name == "whitespace"@),
                tfs_idx <= slices@.len(),
                goal == place_element(
                    element,
                    slices@,
                    cursor as int,
                    0,
                    None,
                    views_of(old(result)@),
                ),
                goal == place_element(
                    element,
                    slices@,
                    tfs_idx as int,
                    consumed as int,
                    match stashed {
                        Some(s) => Some(s as int),
                        None => None,
                    },
                    views_of(result@),
                ),
            decreases slices@.len() - tfs_idx,
        {
            let tfs = &slices[tfs_idx];
            let slice_end = tfs.templated_slice.end;
            if tfs.templated_slice.start == slice_end {
                tfs_idx += 1;
                continue ;
            }
            if tfs.slice_type == SliceType::Literal {
                let at = match self.template_slice.start.checked_add(consumed) {
                    Some(at) => at,
                    None => {
                        return Err(ValueError::PositionOutOfRange);
                    },
                };
                if self.template_slice.end <= slice_end {
                    let source_start = match stashed {
                        Some(s) => Some(s),
                        None => source_position(tfs, at),
                    };
                    let source_end = source_position(tfs, self.template_slice.end);
                    let piece = cut_text(raw, consumed, raw_len);
                    match (source_start, source_end, piece) {
                        (Some(from), Some(to), Some(piece)) => {
                            let marker = PositionMarker::new(
                                from..to,
                                self.template_slice.start..self.template_slice.end,
                            );
                            let segment = Segment::leaf(
                                self.matcher.value,
                                piece.to_owned(),
                                Some(marker),
                            );
                            proof {
                                lemma_views_push(result@, segment);
                            }
                            result.push(segment);
                            if self.template_slice.end == slice_end {
                                tfs_idx += 1;
                            }
                            return Ok(tfs_idx);
                        },
                        _ => {
                            return Err(ValueError::PositionOutOfRange);
                        },
                    }
                } else if at == slice_end {
                    tfs_idx += 1;
                    continue ;
                } else if is_whitespace {
                    if slice_end < at {
                        return Err(ValueError::PositionOutOfRange);
                    }
                    let taken: usize = slice_end - at;
                    let upto = match consumed.checked_add(taken) {
                        Some(upto) => upto,
                        None => {
                            return Err(ValueError::PositionOutOfRange);
                        },
                    };
                    let source_start = source_position(tfs, at);
                    let source_end = source_position(tfs, slice_end);
                    let piece = cut_text(raw, consumed, upto);
                    match (source_start, source_end, piece) {
                        (Some(from), Some(to), Some(piece)) => {
                            let marker = PositionMarker::new(
                                from..to,
                                self.template_slice.start..self.template_slice.end,
                            );
                            let segment = Segment::leaf(
                                self.matcher.value,
                                piece.to_owned(),
                                Some(marker),
                            );
                            proof {
                                lemma_views_push(result@, segment);
                            }
                            result.push(segment);
                            consumed = upto;
                            tfs_idx += 1;
                            continue ;
                        },
                        _ => {
                            return Err(ValueError::PositionOutOfRange);
                        },
                    }
                } else {
                    if stashed.is_none() {
                        match source_position(tfs, self.template_slice.start) {
                            Some(s) => {
                                stashed = Some(s);
                            },
                            None => {
                                return Err(ValueError::PositionOutOfRange);
                            },
                        }
                    }
                    tfs_idx += 1;
                    continue ;
                }
            } else if tfs.slice_type == SliceType::Templated || tfs.slice_type
                == SliceType::BlockStart {
                return Err(ValueError::TemplatedSliceNotImplemented);
            } else {
                tfs_idx += 1;
            }
        }
        if consumed == raw_len {
            Ok(tfs_idx)
        } else {
            Err(ValueError::UnplacedElement)
        }
    }
}

/// Turns the lexed elements into leaf segments with their positions in the
/// source text, by walking the slices of the templated file once. Each
/// element must find its place: the slices must be such that `place_all`
/// places them all, which leaves out, among others, an element that comes
/// upon a slice of template output or the start of a block.
pub fn iter_segments(lexed_elements: Vec<TemplateElement>, templated_file: &TemplatedFile) -> (r:
    Vec<Segment>)
    requires
        place_all(lexed_elements.deep_view(), 0, templated_file.sliced_file@, 0, Seq::empty()) is Ok,
    ensures
        place_all(
            lexed_elements.deep_view(),
            0,
            templated_file.sliced_file@,
            0,
            Seq::empty(),
        ) == Ok::<Seq<SegmentView>, ValueError>(views_of(r@)),
{
    match try_iter_segments(lexed_elements, templated_file) {
        Ok(segments) => segments,
        Err(_) => unreached(),
    }
}

/// The segments of the lexed elements, as `iter_segments` gives them, or
/// the reason for which an element does not find its place.
pub fn try_iter_segments(lexed_elements: Vec<TemplateElement>, templated_file: &TemplatedFile) -> (r:
    Result<Vec<Segment>, ValueError>)
    ensures
        match place_all(
            lexed_elements.deep_view(),
            0,
            templated_file.sliced_file@,
            0,
            Seq::empty(),
        ) {
            Ok(placed) => r matches Ok(segments) && views_of(segments@) == placed,
            Err(e) => r matches Err(f) && f == e,
        },
{
    let ghost elements = lexed_elements.deep_view();
    let ghost slices = templated_file.sliced_file@;
    let ghost goal = place_all(elements, 0, slices, 0, Seq::empty());
    let mut result: Vec<Segment> = Vec::new();
    let mut tfs_idx: usize = 0;
    let mut k: usize = 0;
    assert(views_of(result@) =~= Seq::<SegmentView>::empty());
    while k < lexed_elements.len()
        invariant
            elements == lexed_elements.deep_view(),
            slices == templated_file.sliced_file@,
            k <= lexed_elements@.len(),
            tfs_idx <= slices.len(),
            goal == place_all(elements, 0, slices, 0, Seq::empty()),
            goal == place_all(elements, k as int, slices, tfs_idx as int, views_of(result@)),
        decreases lexed_elements@.len() - k,
    {
        assert(elements[k as int] == lexed_elements@[k as int].deep_view());
        match lexed_elements[k].place(&templated_file.sliced_file, tfs_idx, &mut result) {
            Ok(next) => {
                tfs_idx = next;
            },
            Err(e) => {
                return Err(e);
            },
        }
        k += 1;
    }
    Ok(result)
}

/// The element that stands for text that could not be lexed.
pub open spec fn unlexable_element(text: Seq<u8>) -> ElementView {
    ElementView { name: "<unlexable>"@, text, value: SyntaxKind::Unlexable }
}

/// Whether the last resort advances on `text`.
pub open spec fn resort_advances(last_resort: Option<MatcherView>, text: Seq<u8>) -> bool {
    match last_resort {
        Some(matcher) => advances(matcher, text),
        None => false,
    }
}

/// The elements of a whole text. The matchers lex as far as they get. Where
/// they stop before the end, the last resort takes over: if it advances,
/// its elements are added and the matchers go on behind them; if not, all
/// that is left becomes one unlexable element.
pub open spec fn lex_elements(
    matchers: Seq<MatcherView>,
    last_resort: Option<MatcherView>,
    text: Seq<u8>,
) -> Seq<ElementView>
    decreases text.len(),
{
    let first = lex_match_result(matchers, text);
    if first.rest.len() == 0 {
        first.elements
    } else if resort_advances(last_resort, first.rest) && matcher_result(
        last_resort.unwrap(),
        first.rest,
    ).rest.len() < text.len() {
        let resort = matcher_result(last_resort.unwrap(), first.rest);
        first.elements + resort.elements + lex_elements(matchers, last_resort, resort.rest)
    } else {
        first.elements.push(unlexable_element(first.rest))
    }
}

/// The model of an optional matcher.
pub open spec fn optional_matcher_view(matcher: Option<Matcher>) -> Option<MatcherView> {
    match matcher {
        Some(m) => Some(m@),
        None => None,
    }
}

/// A matcher keeps what it matches where it does not divide it, or trims
/// what it divides: only a matcher that divides without a trim pattern lets
/// the text between its dividers go.
pub open spec fn keeps_bytes(matcher: MatcherView) -> bool {
    matcher.subdivider is None || matcher.trim_post_subdivide is Some
}

/// Each of the matchers keeps what it matches.
pub open spec fn all_keep_bytes(matchers: Seq<MatcherView>) -> bool {
    forall|i: int| 0 <= i < matchers.len() ==> keeps_bytes(#[trigger] matchers[i])
}

/// Trimming drops no byte: its elements hold as many bytes as the content
/// gathered and the text still to be scanned. Their order is that of the
/// text unless an occurrence of the trim pattern at the start of the rest
/// follows content that was gathered, which then stands behind it.
pub proof fn lemma_trim_keeps_bytes(
    own: PatternView,
    trim: PatternView,
    content: Seq<u8>,
    rest: Seq<u8>,
)
    ensures
        texts_joined(trim_from(own, trim, content, rest)).len() == content.len() + rest.len(),
    decreases rest.len(),
{
    let none = Seq::<ElementView>::empty();
    assert(texts_joined(none) =~= Seq::<u8>::empty());
    lemma_texts_joined_one(element_of(own, content + rest));
    if rest.len() > 0 {
        match search_span(trim.rule, rest) {
            Some((start, end)) => {
                if end <= 0 || end > rest.len() {
                } else if start == 0 {
                    let head = seq![element_of(trim, rest.subrange(0, end))];
                    let tail = trim_from(own, trim, content, rest.subrange(end, rest.len() as int));
                    lemma_trim_keeps_bytes(own, trim, content, rest.subrange(end, rest.len() as int));
                    lemma_texts_joined_one(element_of(trim, rest.subrange(0, end)));
                    lemma_texts_joined_concat(head, tail);
                } else if end == rest.len() {
                    let a = seq![element_of(own, content + rest.subrange(0, start))];
                    let b = seq![element_of(trim, rest.subrange(start, end))];
                    lemma_texts_joined_one(element_of(own, content + rest.subrange(0, start)));
                    lemma_texts_joined_one(element_of(trim, rest.subrange(start, end)));
                    lemma_texts_joined_concat(a, b);
                    assert(a + b =~= seq![
                        element_of(own, content + rest.subrange(0, start)),
                        element_of(trim, rest.subrange(start, end)),
                    ]);
                } else {
                    lemma_trim_keeps_bytes(
                        own,
                        trim,
                        content + rest.subrange(0, end),
                        rest.subrange(end, rest.len() as int),
                    );
                }
            },
            None => {},
        }
    }
}

/// Dividing with a trim pattern drops no byte: the elements hold as many
/// bytes as the text that was divided.
pub proof fn lemma_subdivide_keeps_bytes(matcher: MatcherView, divider: PatternView, rest: Seq<u8>)
    requires
        matcher.trim_post_subdivide is Some,
    ensures
        texts_joined(subdivide_from(matcher, divider, rest)).len() == rest.len(),
    decreases rest.len(),
{
    let trim = matcher.trim_post_subdivide.unwrap();
    let none = Seq::<ElementView>::empty();
    assert(texts_joined(none) =~= Seq::<u8>::empty());
    if rest.len() > 0 {
        lemma_trim_keeps_bytes(matcher.pattern, trim, Seq::empty(), rest);
        match search_span(divider.rule, rest) {
            Some((start, end)) => {
                if end <= 0 || end > rest.len() {
                } else {
                    let before = trim_elements(matcher, rest.subrange(0, start));
                    let mark = seq![element_of(divider, rest.subrange(start, end))];
                    let after = subdivide_from(matcher, divider, rest.subrange(end, rest.len() as int));
                    lemma_trim_keeps_bytes(matcher.pattern, trim, Seq::empty(), rest.subrange(0, start));
                    lemma_subdivide_keeps_bytes(matcher, divider, rest.subrange(end, rest.len() as int));
                    lemma_texts_joined_one(element_of(divider, rest.subrange(start, end)));
                    lemma_texts_joined_concat(before, mark);
                    lemma_texts_joined_concat(before + mark, after);
                }
            },
            None => {},
        }
    }
}

/// A matcher that keeps what it matches accounts for every byte of the
/// text: its elements and what it leaves hold as many bytes as the text.
pub proof fn lemma_matcher_keeps_bytes(matcher: MatcherView, text: Seq<u8>)
    requires
        keeps_bytes(matcher),
    ensures
        texts_joined(matcher_result(matcher, text).elements).len() + matcher_result(
            matcher,
            text,
        ).rest.len() == text.len(),
{
    let none = Seq::<ElementView>::empty();
    assert(texts_joined(none) =~= Seq::<u8>::empty());
    match anchored_len(matcher.pattern.rule, text) {
        Some(n) => {
            let matched = text.subrange(0, n);
            match matcher.subdivider {
                Some(divider) => {
                    lemma_subdivide_keeps_bytes(matcher, divider, matched);
                },
                None => {
                    lemma_texts_joined_one(element_of(matcher.pattern, matched));
                },
            }
        },
        None => {},
    }
}

/// Matchers that keep what they match account for every byte of a text
/// that they lex: the elements and the rest hold as many bytes as the text.
pub proof fn lemma_lex_match_keeps_bytes(matchers: Seq<MatcherView>, text: Seq<u8>)
    requires
        all_keep_bytes(matchers),
    ensures
        texts_joined(lex_match_result(matchers, text).elements).len() + lex_match_result(
            matchers,
            text,
        ).rest.len() == text.len(),
    decreases text.len(),
{
    let none = Seq::<ElementView>::empty();
    assert(texts_joined(none) =~= Seq::<u8>::empty());
    if text.len() > 0 {
        lemma_first_advancing(matchers, text, 0);
        match first_advancing(matchers, text, 0) {
            Some(k) => {
                let made = matcher_result(matchers[k], text);
                if made.rest.len() < text.len() {
                    lemma_matcher_keeps_bytes(matchers[k], text);
                    lemma_lex_match_keeps_bytes(matchers, made.rest);
                    lemma_texts_joined_concat(
                        made.elements,
                        lex_match_result(matchers, made.rest).elements,
                    );
                }
            },
            None => {},
        }
    }
}

/// The marker that ends a file: a leaf without text, standing where the
/// last of `segments` ends, or at the start of the text if there is none.
pub open spec fn end_of_file(segments: Seq<SegmentView>) -> SegmentView {
    let at = if segments.len() > 0 {
        match segments.last().position() {
            Some(p) => (p.source_slice.end, p.templated_slice.end),
            None => (0usize, 0usize),
        }
    } else {
        (0usize, 0usize)
    };
    SegmentView::Leaf {
        kind: SyntaxKind::EndOfFile,
        raw: seq![],
        position: Some(
            PositionMarker { source_slice: at.0..at.0, templated_slice: at.1..at.1 },
        ),
    }
}

/// The segments of a templated file, from the elements that its templated
/// text was lexed into: each element placed, and the end-of-file marker
/// behind them.
pub open spec fn segments_of(elements: Seq<TemplateElementView>, slices: Seq<TemplatedFileSlice>) -> Result<
    Seq<SegmentView>,
    ValueError,
> {
    match place_all(elements, 0, slices, 0, Seq::empty()) {
        Ok(placed) => Ok(placed.push(end_of_file(placed))),
        Err(e) => Err(e),
    }
}


/// The texts of the placed elements from the `k`-th on, joined in order.
pub open spec fn raws_from(elements: Seq<TemplateElementView>, k: int) -> Seq<u8>
    decreases elements.len() - k,
{
    if k < 0 || k >= elements.len() {
        seq![]
    } else {
        elements[k].raw + raws_from(elements, k + 1)
    }
}

/// Placing an element loses none of its text: where it succeeds, the
/// segments it adds hold, in order, all that earlier slices had not taken.
pub proof fn lemma_place_element_keeps_text(
    element: TemplateElementView,
    slices: Seq<TemplatedFileSlice>,
    cursor: int,
    consumed: int,
    stashed: Option<int>,
    placed: Seq<SegmentView>,
)
    requires
        0 <= consumed <= element.raw.len(),
    ensures
        place_element(element, slices, cursor, consumed, stashed, placed) matches Ok(p)
            ==> raws_joined(p.segments) == raws_joined(placed) + element.raw.subrange(
            consumed,
            element.raw.len() as int,
        ),
    decreases slices.len() - cursor,
{
    let len = element.raw.len() as int;
    if cursor < 0 || cursor >= slices.len() {
        if consumed == len {
            assert(raws_joined(placed) + element.raw.subrange(consumed, len) =~= raws_joined(
                placed,
            ));
        }
    } else {
        let slice = slices[cursor];
        let slice_end = slice.templated_slice.end as int;
        let at = element.start + consumed;
        if slice.templated_slice.start == slice.templated_slice.end {
            lemma_place_element_keeps_text(element, slices, cursor + 1, consumed, stashed, placed);
        } else if slice.slice_type == SliceType::Literal {
            if !fits(at) {
            } else if element.end <= slice_end {
                let source_start = match stashed {
                    Some(s) => Some(s),
                    None => to_source(slice, at),
                };
                let source_end = to_source(slice, element.end);
                if source_start is Some && source_end is Some && cuttable(
                    element.raw,
                    consumed,
                    len,
                ) {
                    lemma_raws_push(
                        placed,
                        piece_leaf(
                            element,
                            consumed,
                            len,
                            source_start.unwrap(),
                            source_end.unwrap(),
                        ),
                    );
                }
            } else if at == slice_end {
                lemma_place_element_keeps_text(
                    element,
                    slices,
                    cursor + 1,
                    consumed,
                    stashed,
                    placed,
                );
            } else if element.name == "whitespace"@ {
                let taken = slice_end - at;
                let source_start = to_source(slice, at);
                let source_end = to_source(slice, slice_end);
                if taken >= 0 && source_start is Some && source_end is Some && cuttable(
                    element.raw,
                    consumed,
                    consumed + taken,
                ) {
                    let leaf = piece_leaf(
                        element,
                        consumed,
                        consumed + taken,
                        source_start.unwrap(),
                        source_end.unwrap(),
                    );
                    lemma_raws_push(placed, leaf);
                    lemma_place_element_keeps_text(
                        element,
                        slices,
                        cursor + 1,
                        consumed + taken,
                        stashed,
                        placed.push(leaf),
                    );
                    assert(element.raw.subrange(consumed, consumed + taken)
                        + element.raw.subrange(consumed + taken, len)
                        =~= element.raw.subrange(consumed, len));
                    assert(raws_joined(placed) + element.raw.subrange(
                        consumed,
                        consumed + taken,
                    ) + element.raw.subrange(consumed + taken, len) =~= raws_joined(placed) + (
                    element.raw.subrange(consumed, consumed + taken) + element.raw.subrange(
                        consumed + taken,
                        len,
                    )));
                }
            } else {
                match stashed {
                    Some(_) => lemma_place_element_keeps_text(
                        element,
                        slices,
                        cursor + 1,
                        consumed,
                        stashed,
                        placed,
                    ),
                    None => match to_source(slice, element.start) {
                        Some(s) => lemma_place_element_keeps_text(
                            element,
                            slices,
                            cursor + 1,
                            consumed,
                            Some(s),
                            placed,
                        ),
                        None => {},
                    },
                }
            }
        } else if slice.slice_type == SliceType::Templated || slice.slice_type
            == SliceType::BlockStart {
        } else {
            lemma_place_element_keeps_text(element, slices, cursor + 1, consumed, stashed, placed);
        }
    }
}

/// Placing the elements loses no text: where it succeeds, the segments
/// hold, in order, all the text of the elements.
pub proof fn lemma_place_all_keeps_text(
    elements: Seq<TemplateElementView>,
    k: int,
    slices: Seq<TemplatedFileSlice>,
    cursor: int,
    placed: Seq<SegmentView>,
)
    requires
        0 <= k,
    ensures
        place_all(elements, k, slices, cursor, placed) matches Ok(all) ==> raws_joined(all)
            == raws_joined(placed) + raws_from(elements, k),
    decreases elements.len() - k,
{
    if k >= elements.len() {
        assert(raws_joined(placed) + raws_from(elements, k) =~= raws_joined(placed));
    } else {
        let element = elements[k];
        lemma_place_element_keeps_text(element, slices, cursor, 0, None, placed);
        match place_element(element, slices, cursor, 0, None, placed) {
            Ok(p) => {
                lemma_place_all_keeps_text(elements, k + 1, slices, p.cursor, p.segments);
                assert(element.raw.subrange(0, element.raw.len() as int) =~= element.raw);
                assert(raws_joined(placed) + element.raw + raws_from(elements, k + 1)
                    =~= raws_joined(placed) + (element.raw + raws_from(elements, k + 1)));
            },
            Err(_) => {},
        }
    }
}

/// The texts of elements with their slices, from the `k`-th on, are the
/// texts of the elements from the `k`-th on.
pub proof fn lemma_raws_from_with_slices(elements: Seq<ElementView>, k: int)
    requires
        0 <= k <= elements.len(),
    ensures
        raws_from(with_slices(elements), k) == texts_joined(elements.skip(k)),
    decreases elements.len() - k,
{
    if k == elements.len() {
        assert(elements.skip(k) =~= Seq::<ElementView>::empty());
    } else {
        lemma_raws_from_with_slices(elements, k + 1);
        let head = seq![elements[k]];
        assert(elements.skip(k) =~= head + elements.skip(k + 1));
        lemma_texts_joined_concat(head, elements.skip(k + 1));
        assert(head.drop_last() =~= Seq::<ElementView>::empty());
        assert(head.last() == elements[k]);
        assert(texts_joined(head.drop_last()) =~= Seq::<u8>::empty());
        assert(texts_joined(head) == texts_joined(head.drop_last()) + head.last().text);
        assert(texts_joined(head) =~= elements[k].text);
    }
}

/// Round trip. Where the elements that a text was lexed into join to that
/// text, the segments made of them, in order, join to it too, whatever the
/// slices are; and the last of them is the end-of-file marker, which holds
/// no text.
pub proof fn lemma_segments_round_trip(
    elements: Seq<ElementView>,
    slices: Seq<TemplatedFileSlice>,
    text: Seq<u8>,
)
    requires
        texts_joined(elements) == text,
    ensures
        segments_of(with_slices(elements), slices) matches Ok(all) ==> {
            &&& raws_joined(all) == text
            &&& all.len() > 0
            &&& all.last().kind() == SyntaxKind::EndOfFile
            &&& all.last().raw() == Seq::<u8>::empty()
        },
{
    let placed_elements = with_slices(elements);
    lemma_place_all_keeps_text(placed_elements, 0, slices, 0, Seq::empty());
    lemma_raws_from_with_slices(elements, 0);
    assert(elements.skip(0) =~= elements);
    match place_all(placed_elements, 0, slices, 0, Seq::empty()) {
        Ok(placed) => {
            lemma_raws_push(placed, end_of_file(placed));
            assert(raws_joined(Seq::<SegmentView>::empty()) + text =~= text);
            assert(text + Seq::<u8>::empty() =~= text);
        },
        Err(_) => {},
    }
}

/// The pattern of the last resort: as many characters as follow that are
/// neither a tab nor a line feed nor a dot.
pub const UNLEXABLE_PATTERN: &'static str = "[^\\t\\n.]*";

/// The model of a lexing error.
pub struct LexErrorView {
    pub message: Seq<char>,
    pub position: PositionMarker,
}

impl DeepView for SQLLexError {
    type V = LexErrorView;

    open spec fn deep_view(&self) -> LexErrorView {
        LexErrorView { message: self.message@, position: self.position_marker }
    }
}

/// The first `n` of the characters, or all of them if they are fewer.
pub open spec fn first_chars(text: Seq<char>, n: int) -> Seq<char> {
    if text.len() <= n {
        text
    } else {
        text.take(n)
    }
}

/// The errors that the segments give rise to: one for each unlexable leaf
/// that has a position, with the first ten characters of its text.
pub open spec fn violations_of(segments: Seq<SegmentView>) -> Seq<LexErrorView>
    decreases segments.len(),
{
    if segments.len() == 0 {
        seq![]
    } else {
        let before = violations_of(segments.drop_last());
        match segments.last() {
            SegmentView::Leaf { kind, raw, position: Some(p) } => if kind == SyntaxKind::Unlexable {
                before.push(
                    LexErrorView {
                        message: "Unable to lex characters: "@ + first_chars(decode_utf8(raw), 10),
                        position: p,
                    },
                )
            } else {
                before
            },
            _ => before,
        }
    }
}

/// What lexing a templated text comes to: the segments of its elements, if
/// the elements join to the text.
pub open spec fn lexed(
    matchers: Seq<MatcherView>,
    last_resort: Option<MatcherView>,
    templated: Seq<u8>,
    slices: Seq<TemplatedFileSlice>,
) -> Result<Seq<SegmentView>, ValueError> {
    let elements = lex_elements(matchers, last_resort, templated);
    if texts_joined(elements) == templated {
        segments_of(with_slices(elements), slices)
    } else {
        Err(ValueError::TemplateMismatch)
    }
}

/// Whether the matcher can make an element of the kind `kind`: its own
/// pattern, its divider or its trim pattern gives that kind.
pub open spec fn makes_kind(matcher: MatcherView, kind: SyntaxKind) -> bool {
    ||| matcher.pattern.value == kind
    ||| matcher.subdivider matches Some(divider) && divider.value == kind
    ||| matcher.trim_post_subdivide matches Some(trim) && trim.value == kind
}

/// None of the elements is of the kind `kind`.
pub open spec fn no_element_of(elements: Seq<ElementView>, kind: SyntaxKind) -> bool {
    forall|i: int| 0 <= i < elements.len() ==> (#[trigger] elements[i]).value != kind
}

/// None of the segments is of the kind `kind`.
pub open spec fn no_segment_of(segments: Seq<SegmentView>, kind: SyntaxKind) -> bool {
    forall|i: int| 0 <= i < segments.len() ==> (#[trigger] segments[i]).kind() != kind
}

/// Trimming makes elements of the kinds of its two patterns only.
pub proof fn lemma_trim_kinds(
    own: PatternView,
    trim: PatternView,
    content: Seq<u8>,
    rest: Seq<u8>,
    kind: SyntaxKind,
)
    requires
        own.value != kind,
        trim.value != kind,
    ensures
        no_element_of(trim_from(own, trim, content, rest), kind),
    decreases rest.len(),
{
    if rest.len() > 0 {
        match search_span(trim.rule, rest) {
            Some((start, end)) => {
                if end <= 0 || end > rest.len() {
                } else if start == 0 {
                    lemma_trim_kinds(own, trim, content, rest.subrange(end, rest.len() as int), kind);
                } else if end == rest.len() {
                } else {
                    lemma_trim_kinds(
                        own,
                        trim,
                        content + rest.subrange(0, end),
                        rest.subrange(end, rest.len() as int),
                        kind,
                    );
                }
            },
            None => {},
        }
    }
}

/// Dividing makes elements of the kinds of the matcher's patterns only.
pub proof fn lemma_subdivide_kinds(
    matcher: MatcherView,
    divider: PatternView,
    rest: Seq<u8>,
    kind: SyntaxKind,
)
    requires
        !makes_kind(matcher, kind),
        divider.value != kind,
    ensures
        no_element_of(subdivide_from(matcher, divider, rest), kind),
    decreases rest.len(),
{
    if rest.len() > 0 {
        match matcher.trim_post_subdivide {
            Some(trim) => {
                lemma_trim_kinds(matcher.pattern, trim, Seq::empty(), rest, kind);
            },
            None => {},
        }
        match search_span(divider.rule, rest) {
            Some((start, end)) => {
                if end <= 0 || end > rest.len() {
                } else {
                    match matcher.trim_post_subdivide {
                        Some(trim) => {
                            lemma_trim_kinds(
                                matcher.pattern,
                                trim,
                                Seq::empty(),
                                rest.subrange(0, start),
                                kind,
                            );
                        },
                        None => {},
                    }
                    lemma_subdivide_kinds(
                        matcher,
                        divider,
                        rest.subrange(end, rest.len() as int),
                        kind,
                    );
                }
            },
            None => {},
        }
    }
}

/// A matcher makes elements of the kinds of its patterns only.
pub proof fn lemma_matcher_kinds(matcher: MatcherView, text: Seq<u8>, kind: SyntaxKind)
    requires
        !makes_kind(matcher, kind),
    ensures
        no_element_of(matcher_result(matcher, text).elements, kind),
{
    match anchored_len(matcher.pattern.rule, text) {
        Some(n) => match matcher.subdivider {
            Some(divider) => {
                lemma_subdivide_kinds(matcher, divider, text.subrange(0, n), kind);
            },
            None => {},
        },
        None => {},
    }
}

/// Lexing with matchers of which none makes the kind `kind` makes no
/// element of that kind.
pub proof fn lemma_lex_match_kinds(matchers: Seq<MatcherView>, text: Seq<u8>, kind: SyntaxKind)
    requires
        forall|i: int| 0 <= i < matchers.len() ==> !makes_kind(#[trigger] matchers[i], kind),
    ensures
        no_element_of(lex_match_result(matchers, text).elements, kind),
    decreases text.len(),
{
    if text.len() > 0 {
        lemma_first_advancing(matchers, text, 0);
        match first_advancing(matchers, text, 0) {
            Some(k) => {
                let made = matcher_result(matchers[k], text);
                if made.rest.len() < text.len() {
                    lemma_matcher_kinds(matchers[k], text, kind);
                    lemma_lex_match_kinds(matchers, made.rest, kind);
                }
            },
            None => {},
        }
    }
}

/// The elements of a whole text are of the kinds that the matchers and the
/// last resort make, or unlexable.
pub proof fn lemma_lex_elements_kinds(
    matchers: Seq<MatcherView>,
    last_resort: Option<MatcherView>,
    text: Seq<u8>,
    kind: SyntaxKind,
)
    requires
        forall|i: int| 0 <= i < matchers.len() ==> !makes_kind(#[trigger] matchers[i], kind),
        last_resort matches Some(m) ==> !makes_kind(m, kind),
        kind != SyntaxKind::Unlexable,
    ensures
        no_element_of(lex_elements(matchers, last_resort, text), kind),
    decreases text.len(),
{
    let first = lex_match_result(matchers, text);
    lemma_lex_match_kinds(matchers, text, kind);
    if first.rest.len() == 0 {
    } else if resort_advances(last_resort, first.rest) && matcher_result(
        last_resort.unwrap(),
        first.rest,
    ).rest.len() < text.len() {
        let resort = matcher_result(last_resort.unwrap(), first.rest);
        lemma_matcher_kinds(last_resort.unwrap(), first.rest, kind);
        lemma_lex_elements_kinds(matchers, last_resort, resort.rest, kind);
    } else {
    }
}

/// Placing an element makes segments of the kind of the element only.
pub proof fn lemma_place_element_kinds(
    element: TemplateElementView,
    slices: Seq<TemplatedFileSlice>,
    cursor: int,
    consumed: int,
    stashed: Option<int>,
    placed: Seq<SegmentView>,
    kind: SyntaxKind,
)
    requires
        element.value != kind,
        no_segment_of(placed, kind),
    ensures
        place_element(element, slices, cursor, consumed, stashed, placed) matches Ok(p)
            ==> no_segment_of(p.segments, kind),
    decreases slices.len() - cursor,
{
    if cursor < 0 || cursor >= slices.len() {
    } else {
        let slice = slices[cursor];
        let slice_end = slice.templated_slice.end as int;
        let at = element.start + consumed;
        if slice.templated_slice.start == slice.templated_slice.end {
            lemma_place_element_kinds(element, slices, cursor + 1, consumed, stashed, placed, kind);
        } else if slice.slice_type == SliceType::Literal {
            if !fits(at) {
            } else if element.end <= slice_end {
            } else if at == slice_end {
                lemma_place_element_kinds(
                    element,
                    slices,
                    cursor + 1,
                    consumed,
                    stashed,
                    placed,
                    kind,
                );
            } else if element.name == "whitespace"@ {
                let taken = slice_end - at;
                let source_start = to_source(slice, at);
                let source_end = to_source(slice, slice_end);
                if taken >= 0 && source_start is Some && source_end is Some && cuttable(
                    element.raw,
                    consumed,
                    consumed + taken,
                ) {
                    lemma_place_element_kinds(
                        element,
                        slices,
                        cursor + 1,
                        consumed + taken,
                        stashed,
                        placed.push(
                            piece_leaf(
                                element,
                                consumed,
                                consumed + taken,
                                source_start.unwrap(),
                                source_end.unwrap(),
                            ),
                        ),
                        kind,
                    );
                }
            } else {
                match stashed {
                    Some(_) => {
                        lemma_place_element_kinds(
                            element,
                            slices,
                            cursor + 1,
                            consumed,
                            stashed,
                            placed,
                            kind,
                        );
                    },
                    None => match to_source(slice, element.start) {
                        Some(s) => {
                            lemma_place_element_kinds(
                                element,
                                slices,
                                cursor + 1,
                                consumed,
                                Some(s),
                                placed,
                                kind,
                            );
                        },
                        None => {},
                    },
                }
            }
        } else if slice.slice_type == SliceType::Templated || slice.slice_type
            == SliceType::BlockStart {
        } else {
            lemma_place_element_kinds(element, slices, cursor + 1, consumed, stashed, placed, kind);
        }
    }
}

/// Placing elements of which none is of the kind `kind` makes no segment
/// of that kind.
pub proof fn lemma_place_all_kinds(
    elements: Seq<TemplateElementView>,
    k: int,
    slices: Seq<TemplatedFileSlice>,
    cursor: int,
    placed: Seq<SegmentView>,
    kind: SyntaxKind,
)
    requires
        forall|i: int| 0 <= i < elements.len() ==> (#[trigger] elements[i]).value != kind,
        no_segment_of(placed, kind),
    ensures
        place_all(elements, k, slices, cursor, placed) matches Ok(all) ==> no_segment_of(all, kind),
    decreases elements.len() - k,
{
    if k < 0 || k >= elements.len() {
    } else {
        lemma_place_element_kinds(elements[k], slices, cursor, 0, None, placed, kind);
        match place_element(elements[k], slices, cursor, 0, None, placed) {
            Ok(p) => {
                lemma_place_all_kinds(elements, k + 1, slices, p.cursor, p.segments, kind);
            },
            Err(_) => {},
        }
    }
}

/// Only the last segment ends the file. Where none of the matchers, nor
/// the last resort, makes an element that is an end-of-file marker, the
/// segments that a text is lexed into hold that marker as their last
/// segment and nowhere before it.
pub proof fn lemma_only_the_last_ends_the_file(
    matchers: Seq<MatcherView>,
    last_resort: Option<MatcherView>,
    templated: Seq<u8>,
    slices: Seq<TemplatedFileSlice>,
)
    requires
        forall|i: int|
            0 <= i < matchers.len() ==> !makes_kind(#[trigger] matchers[i], SyntaxKind::EndOfFile),
        last_resort matches Some(m) ==> !makes_kind(m, SyntaxKind::EndOfFile),
    ensures
        lexed(matchers, last_resort, templated, slices) matches Ok(all) ==> {
            &&& all.len() > 0
            &&& all.last().kind() == SyntaxKind::EndOfFile
            &&& forall|i: int|
                0 <= i < all.len() - 1 ==> (#[trigger] all[i]).kind() != SyntaxKind::EndOfFile
        },
{
    let kind = SyntaxKind::EndOfFile;
    let elements = lex_elements(matchers, last_resort, templated);
    lemma_lex_elements_kinds(matchers, last_resort, templated, kind);
    let sliced = with_slices(elements);
    assert forall|i: int| 0 <= i < sliced.len() implies (#[trigger] sliced[i]).value != kind by {
        assert(sliced[i].value == elements[i].value);
    }
    lemma_place_all_kinds(sliced, 0, slices, 0, Seq::empty(), kind);
    match place_all(sliced, 0, slices, 0, Seq::empty()) {
        Ok(placed) => {
            let all = placed.push(end_of_file(placed));
            assert forall|i: int| 0 <= i < all.len() - 1 implies (#[trigger] all[i]).kind()
                != kind by {
                assert(all[i] == placed[i]);
            }
        },
        Err(_) => {},
    }
}

/// The lexer: the matchers of a dialect, and a last resort for text that
/// none of them takes.
pub struct Lexer<'a> {
    config: &'a FluffConfig,
    last_resort_lexer: Option<Matcher>,
}

/// What there is to lex: a text, or a file that a templater made.
pub enum StringOrTemplate<'a> {
    String(&'a str),
    Template(TemplatedFile),
}

impl<'a> Lexer<'a> {
    /// The model of the last resort.
    pub closed spec fn last_resort(&self) -> Option<MatcherView> {
        optional_matcher_view(self.last_resort_lexer)
    }

    /// The matchers that the lexer lexes with: those of the dialect of its
    /// configuration.
    pub closed spec fn matchers(&self) -> Seq<MatcherView> {
        self.config.dialect.deep_view().lexer_matchers
    }

    /// A lexer for the dialect of `config`. Its last resort is the matcher
    /// of `UNLEXABLE_PATTERN`; where that pattern does not compile it has
    /// none.
    pub fn new(config: &'a FluffConfig, _dialect: Option<Dialect>) -> (r: Self)
        ensures
            r.matchers() == config.dialect.deep_view().lexer_matchers,
            r.last_resort() == if regex_compiles(UNLEXABLE_PATTERN@) {
                Some(
                    MatcherView {
                        pattern: PatternView {
                            name: "<unlexable>"@,
                            value: SyntaxKind::Unlexable,
                            rule: SearchRule::Regex(UNLEXABLE_PATTERN@),
                        },
                        subdivider: None,
                        trim_post_subdivide: None,
                    },
                )
            } else {
                None
            },
    {
        Lexer {
            config,
            last_resort_lexer: Matcher::try_regex(
                "<unlexable>",
                UNLEXABLE_PATTERN,
                SyntaxKind::Unlexable,
            ),
        }
    }

    /// Lexes a text, or the templated text of a file, into leaf segments
    /// with their positions, the end-of-file marker behind them, and hands
    /// out with them an error for each segment that could not be lexed.
    ///
    /// The segments, joined in order, are the text that was lexed.
    pub fn lex(&self, raw: StringOrTemplate) -> (r: Result<(Vec<Segment>, Vec<SQLLexError>), ValueError>)
        ensures
            ({
                let (templated, slices) = match raw {
                    StringOrTemplate::String(s) => (
                        encode_utf8(s@),
                        seq![
                            TemplatedFileSlice {
                                slice_type: SliceType::Literal,
                                source_slice: 0usize..(byte_len(s@) as usize),
                                templated_slice: 0usize..(byte_len(s@) as usize),
                            },
                        ],
                    ),
                    StringOrTemplate::Template(file) => (
                        encode_utf8(file.templated_str@),
                        file.sliced_file@,
                    ),
                };
                match lexed(self.matchers(), self.last_resort(), templated, slices) {
                    Ok(all) => {
                        &&& r matches Ok((segments, errors))
                        &&& views_of(segments@) == all
                        &&& errors.deep_view() == violations_of(all)
                        &&& raws_joined(all) == templated
                        &&& all.len() > 0
                        &&& all.last().kind() == SyntaxKind::EndOfFile
                    },
                    Err(e) => r matches Err(f) && f == e,
                }
            }),
    {
        let template = match raw {
            StringOrTemplate::String(s) => {
                let file = TemplatedFile::from_string(s);
                assert(file.sliced_file@ =~= seq![
                    TemplatedFileSlice {
                        slice_type: SliceType::Literal,
                        source_slice: 0usize..(byte_len(s@) as usize),
                        templated_slice: 0usize..(byte_len(s@) as usize),
                    },
                ]);
                file
            },
            StringOrTemplate::Template(slot) => slot,
        };
        let ghost templated = encode_utf8(template.templated_str@);
        let element_buffer = Lexer::lex_text(
            template.get_templated_string(),
            self.config.get_dialect().lexer_matchers(),
            &self.last_resort_lexer,
        );
        let ghost elements = element_buffer.deep_view();
        let total = text_len(template.get_templated_string());
        let templated_buffer = match Lexer::place_slices(element_buffer, &template) {
            Some((buffer, end)) => {
                if end != total {
                    return Err(ValueError::TemplateMismatch);
                }
                assert(templated.subrange(0, end as int) =~= templated);
                buffer
            },
            None => {
                return Err(ValueError::TemplateMismatch);
            },
        };
        let segments = match Lexer::elements_to_segments(templated_buffer, &template) {
            Ok(segments) => segments,
            Err(e) => {
                return Err(e);
            },
        };
        proof {
            lemma_segments_round_trip(elements, template.sliced_file@, templated);
        }
        let errors = Lexer::violations_from_segments(&segments);
        Ok((segments, errors))
    }

    /// An error for each unlexable segment that has a position.
    pub fn violations_from_segments(segments: &Vec<Segment>) -> (r: Vec<SQLLexError>)
        ensures
            r.deep_view() == violations_of(views_of(segments@)),
    {
        let ghost views = views_of(segments@);
        proof {
            crate::segments::lemma_views_index(segments@);
        }
        let mut out: Vec<SQLLexError> = Vec::new();
        let mut i: usize = 0;
        assert(views.take(0) =~= Seq::<SegmentView>::empty());
        assert(out.deep_view() =~= violations_of(views.take(0)));
        while i < segments.len()
            invariant
                views == views_of(segments@),
                views.len() == segments@.len(),
                forall|j: int|
                    0 <= j < segments@.len() ==> views[j] == (#[trigger] segments@[j]).deep_view(),
                i <= segments@.len(),
                out.deep_view() == violations_of(views.take(i as int)),
            decreases segments@.len() - i,
        {
            let ghost before = out.deep_view();
            proof {
                assert(views.take(i + 1).drop_last() =~= views.take(i as int));
                assert(views.take(i + 1).last() == views[i as int]);
            }
            match &segments[i] {
                Segment::Leaf { kind, raw, position: Some(p) } => {
                    if *kind == SyntaxKind::Unlexable {
                        let count = raw.as_str().unicode_len();
                        let shown = if count <= 10 {
                            raw.as_str()
                        } else {
                            raw.as_str().substring_char(0, 10)
                        };
                        proof {
                            encode_utf8_decode_utf8(raw@);
                            assert(raw@.subrange(0, 10) == raw@.take(10));
                        }
                        let message = join_text("Unable to lex characters: ", shown);
                        out.push(SQLLexError { message, position_marker: p.clone() });
                        assert(out.deep_view() =~= before.push(
                            LexErrorView {
                                message: "Unable to lex characters: "@ + first_chars(raw@, 10),
                                position: *p,
                            },
                        ));
                    }
                },
                _ => {},
            }
            i += 1;
        }
        assert(views.take(i as int) =~= views);
        out
    }

    /// Matches `forward_string` against the matchers over and over, each time
    /// taking the first matcher of the list that advances, until the text is
    /// used up or no matcher advances.
    pub fn lex_match<'b>(forward_string: &'b str, lexer_matchers: &[Matcher]) -> (r: Match<'b>)
        ensures
            r.deep_view() == lex_match_result(
                lexer_matchers.deep_view(),
                encode_utf8(forward_string@),
            ),
    {
        let ghost matchers = lexer_matchers.deep_view();
        let ghost whole = lex_match_result(matchers, encode_utf8(forward_string@));
        let mut elem_buff: Vec<Element> = Vec::new();
        let mut str_buff: &str = forward_string;
        assert(elem_buff.deep_view() =~= Seq::<ElementView>::empty());
        assert(Seq::<ElementView>::empty() + whole.elements =~= whole.elements);
        loop
            invariant
                matchers == lexer_matchers.deep_view(),
                whole == lex_match_result(matchers, encode_utf8(forward_string@)),
                whole.elements == elem_buff.deep_view() + lex_match_result(
                    matchers,
                    encode_utf8(str_buff@),
                ).elements,
                whole.rest == lex_match_result(matchers, encode_utf8(str_buff@)).rest,
            decreases byte_len(str_buff@),
        {
            let ghost before_view = elem_buff.deep_view();
            if text_len(str_buff) == 0 {
                assert(before_view + Seq::<ElementView>::empty() =~= before_view);
                return Match { forward_string: str_buff, elements: elem_buff };
            }
            match first_match(str_buff, lexer_matchers) {
                Some(found) => {
                    let ghost made = found.deep_view();
                    let ghost more = lex_match_result(matchers, made.rest);
                    let mut found = found;
                    elem_buff.append(&mut found.elements);
                    proof {
                        assert(elem_buff.deep_view() =~= before_view + made.elements);
                        assert(before_view + (made.elements + more.elements) =~= (before_view
                            + made.elements) + more.elements);
                    }
                    str_buff = found.forward_string;
                },
                None => {
                    assert(before_view + Seq::<ElementView>::empty() =~= before_view);
                    return Match { forward_string: str_buff, elements: elem_buff };
                },
            }
        }
    }

    /// Gives each element the byte range that it takes in the templated text,
    /// by the lengths of the elements before it. Each element must be the
    /// text that stands at its range, which is to say that the elements
    /// join to the start of the templated text.
    pub fn map_template_slices(elements: Vec<Element>, template: &TemplatedFile) -> (r: Vec<
        TemplateElement,
    >)
        requires
            texts_joined(elements.deep_view()).is_prefix_of(encode_utf8(template.templated_str@)),
        ensures
            r.deep_view() == with_slices(elements.deep_view()),
    {
        match Lexer::try_map_template_slices(elements, template) {
            Some(placed) => placed,
            None => unreached(),
        }
    }

    /// The elements with their byte ranges, as `map_template_slices` gives
    /// them, where each element is the text that stands at its range; none
    /// where one of them is not.
    pub fn try_map_template_slices(elements: Vec<Element>, template: &TemplatedFile) -> (r: Option<
        Vec<TemplateElement>,
    >)
        ensures
            r is Some <==> texts_joined(elements.deep_view()).is_prefix_of(
                encode_utf8(template.templated_str@),
            ),
            r matches Some(placed) ==> placed.deep_view() == with_slices(elements.deep_view()),
    {
        match Lexer::place_slices(elements, template) {
            Some((placed, _)) => Some(placed),
            None => None,
        }
    }

    /// The elements with their byte ranges, and the length of the text that
    /// they join to.
    fn place_slices(elements: Vec<Element>, template: &TemplatedFile) -> (r: Option<
        (Vec<TemplateElement>, usize),
    >)
        ensures
            r is Some <==> texts_joined(elements.deep_view()).is_prefix_of(
                encode_utf8(template.templated_str@),
            ),
            r matches Some((placed, end)) ==> placed.deep_view() == with_slices(elements.deep_view())
                && end == texts_joined(elements.deep_view()).len(),
    {
        let templated = template.get_templated_string().as_bytes();
        let ghost views = elements.deep_view();
        let ghost whole = encode_utf8(template.templated_str@);
        let total = templated.len();
        let mut idx: usize = 0;
        let mut templated_buff: Vec<TemplateElement> = Vec::new();
        let mut k: usize = 0;
        while k < elements.len()
            invariant
                total == whole.len(),
                views == elements.deep_view(),
                whole == encode_utf8(template.templated_str@),
                templated@ == whole,
                k <= elements@.len(),
                idx == texts_joined(views.take(k as int)).len(),
                idx <= whole.len(),
                texts_joined(views.take(k as int)) == whole.subrange(0, idx as int),
                templated_buff.deep_view() == with_slices(views).take(k as int),
            decreases elements@.len() - k,
        {
            let element = &elements[k];
            let text = element.text.as_str();
            let ghost before = texts_joined(views.take(k as int));
            proof {
                assert(views[k as int] == elements@[k as int].deep_view());
                assert(views.take(k + 1).drop_last() =~= views.take(k as int));
                assert(views.take(k + 1).last() == views[k as int]);
                lemma_texts_joined_split(views, k + 1);
            }
            if !occurs_in(templated, text.as_bytes(), idx) {
                proof {
                    if texts_joined(views).is_prefix_of(whole) {
                        let all = texts_joined(views);
                        let joined = texts_joined(views.take(k + 1));
                        let rest = texts_joined(views.skip(k + 1));
                        assert(all == joined + rest);
                        assert(all =~= whole.subrange(0, all.len() as int));
                        let text = views[k as int].text;
                        assert(joined == before + text);
                        assert(all.len() <= whole.len());
                        assert forall|j: int| 0 <= j < text.len() implies whole[idx + j]
                            == text[j] by {
                            assert(whole.subrange(0, all.len() as int)[idx + j] == all[idx + j]);
                            assert(all[idx + j] == joined[idx + j]);
                        }
                        assert(whole.subrange(idx as int, idx + text.len()) =~= text);
                    }
                }
                return None;
            }
            let len = text_len(text);
            let end: usize = idx + len;
            let ghost old_buff = templated_buff.deep_view();
            templated_buff.push(
                TemplateElement {
                    raw: element.text.clone(),
                    template_slice: idx..end,
                    matcher: Info { name: element.name, value: element.value },
                },
            );
            proof {
                assert(whole.subrange(0, idx as int) + whole.subrange(idx as int, end as int)
                    =~= whole.subrange(0, end as int));
                assert(templated_buff.deep_view() =~= old_buff.push(with_slices(views)[k as int]));
                assert(with_slices(views).take(k + 1) =~= with_slices(views).take(k as int).push(
                    with_slices(views)[k as int],
                ));
            }
            idx = end;
            k += 1;
        }
        proof {
            assert(views.take(k as int) =~= views);
            assert(with_slices(views).take(k as int) =~= with_slices(views));
        }
        Some((templated_buff, idx))
    }

    /// Lexes a whole text into elements.
    pub fn lex_text(text: &str, lexer_matchers: &[Matcher], last_resort: &Option<Matcher>) -> (r: Vec<
        Element,
    >)
        ensures
            r.deep_view() == lex_elements(
                lexer_matchers.deep_view(),
                optional_matcher_view(*last_resort),
                encode_utf8(text@),
            ),
    {
        let ghost matchers = lexer_matchers.deep_view();
        let ghost resort_view = optional_matcher_view(*last_resort);
        let ghost goal = lex_elements(matchers, resort_view, encode_utf8(text@));
        let mut element_buffer: Vec<Element> = Vec::new();
        let mut str_buff: &str = text;
        assert(element_buffer.deep_view() =~= Seq::<ElementView>::empty());
        assert(Seq::<ElementView>::empty() + goal =~= goal);
        loop
            invariant
                matchers == lexer_matchers.deep_view(),
                resort_view == optional_matcher_view(*last_resort),
                goal == lex_elements(matchers, resort_view, encode_utf8(text@)),
                goal == element_buffer.deep_view() + lex_elements(
                    matchers,
                    resort_view,
                    encode_utf8(str_buff@),
                ),
            decreases byte_len(str_buff@),
        {
            let ghost before_view = element_buffer.deep_view();
            let ghost first = lex_match_result(matchers, encode_utf8(str_buff@));
            let len = text_len(str_buff);
            let mut res = Lexer::lex_match(str_buff, lexer_matchers);
            element_buffer.append(&mut res.elements);
            assert(element_buffer.deep_view() =~= before_view + first.elements);
            if text_len(res.forward_string) == 0 {
                return element_buffer;
            }
            let advanced = match last_resort {
                Some(matcher) => {
                    let resort_res = matcher.matches(res.forward_string);
                    if resort_res.is_non_empty() && text_len(resort_res.forward_string) < text_len(
                        res.forward_string,
                    ) && text_len(resort_res.forward_string) < len {
                        Some(resort_res)
                    } else {
                        None
                    }
                },
                None => None,
            };
            match advanced {
                Some(resort_res) => {
                    let ghost made = resort_res.deep_view();
                    let ghost more = lex_elements(matchers, resort_view, made.rest);
                    let mut resort_res = resort_res;
                    element_buffer.append(&mut resort_res.elements);
                    proof {
                        assert(element_buffer.deep_view() =~= before_view + first.elements
                            + made.elements);
                        assert(before_view + (first.elements + made.elements + more) =~= (before_view
                            + first.elements + made.elements) + more);
                    }
                    str_buff = resort_res.forward_string;
                },
                None => {
                    element_buffer.push(
                        Element::new("<unlexable>", SyntaxKind::Unlexable, res.forward_string.to_owned()),
                    );
                    proof {
                        assert(element_buffer.deep_view() =~= before_view + first.elements.push(
                            unlexable_element(first.rest),
                        ));
                    }
                    return element_buffer;
                },
            }
        }
    }

    /// Places the elements in the source text and adds the end-of-file marker.
    pub fn elements_to_segments(elements: Vec<TemplateElement>, templated_file: &TemplatedFile) -> (r:
        Result<Vec<Segment>, ValueError>)
        ensures
            match segments_of(elements.deep_view(), templated_file.sliced_file@) {
                Ok(all) => r matches Ok(segments) && views_of(segments@) == all,
                Err(e) => r matches Err(f) && f == e,
            },
    {
        let mut segments = match try_iter_segments(elements, templated_file) {
            Ok(segments) => segments,
            Err(e) => {
                return Err(e);
            },
        };
        let ghost placed = views_of(segments@);
        let n = segments.len();
        let position_marker = if n > 0 {
            proof {
                crate::segments::lemma_views_index(segments@);
            }
            match segments[n - 1].get_position_marker() {
                Some(p) => p.end_point_marker(),
                None => PositionMarker::from_point(0, 0),
            }
        } else {
            PositionMarker::from_point(0, 0)
        };
        let marker = Segment::leaf(SyntaxKind::EndOfFile, String::new(), Some(position_marker));
        proof {
            lemma_views_push(segments@, marker);
            assert(encode_utf8(Seq::<char>::empty()) =~= Seq::<u8>::empty());
        }
        segments.push(marker);
        Ok(segments)
    }
}

/// A matcher is plain where it does not divide what it matches.
pub open spec fn is_plain(matcher: MatcherView) -> bool {
    matcher.subdivider is None
}

/// Each of the matchers is plain.
pub open spec fn all_plain(matchers: Seq<MatcherView>) -> bool {
    forall|i: int| 0 <= i < matchers.len() ==> is_plain(#[trigger] matchers[i])
}

/// The text of each of the elements is well-formed UTF-8.
pub open spec fn all_valid(elements: Seq<ElementView>) -> bool {
    forall|i: int| 0 <= i < elements.len() ==> valid_utf8((#[trigger] elements[i]).text)
}

/// The slices of a text without a template: one literal slice over all of
/// it.
pub open spec fn plain_slices(text: Seq<u8>) -> Seq<TemplatedFileSlice> {
    seq![
        TemplatedFileSlice {
            slice_type: SliceType::Literal,
            source_slice: 0usize..(text.len() as usize),
            templated_slice: 0usize..(text.len() as usize),
        },
    ]
}

/// The joined text of one element is its text.
pub proof fn lemma_texts_joined_one(element: ElementView)
    ensures
        texts_joined(seq![element]) == element.text,
{
    let one = seq![element];
    assert(one.drop_last() =~= Seq::<ElementView>::empty());
    assert(texts_joined(one.drop_last()) =~= Seq::<u8>::empty());
    assert(texts_joined(one) == texts_joined(one.drop_last()) + one.last().text);
    assert(texts_joined(one) =~= element.text);
}

/// What a plain matcher makes of a text, joined with what it leaves, is the
/// text.
pub proof fn lemma_plain_matcher_keeps_text(matcher: MatcherView, text: Seq<u8>)
    requires
        is_plain(matcher),
        valid_utf8(text),
    ensures
        texts_joined(matcher_result(matcher, text).elements) + matcher_result(matcher, text).rest
            == text,
        valid_utf8(matcher_result(matcher, text).rest),
        all_valid(matcher_result(matcher, text).elements),
{
    match anchored_len(matcher.pattern.rule, text) {
        Some(n) => {
            let made = element_of(matcher.pattern, text.subrange(0, n));
            lemma_texts_joined_one(made);
            valid_utf8_split(text, n);
            assert(text.subrange(0, n) + text.subrange(n, text.len() as int) =~= text);
            assert(seq![made][0] == made);
        },
        None => {
            assert(texts_joined(Seq::<ElementView>::empty()) + text =~= text);
        },
    }
}

/// What plain matchers lex of a text, joined with what they leave, is the
/// text.
pub proof fn lemma_plain_lex_match_keeps_text(matchers: Seq<MatcherView>, text: Seq<u8>)
    requires
        all_plain(matchers),
        valid_utf8(text),
    ensures
        texts_joined(lex_match_result(matchers, text).elements) + lex_match_result(
            matchers,
            text,
        ).rest == text,
        valid_utf8(lex_match_result(matchers, text).rest),
        all_valid(lex_match_result(matchers, text).elements),
    decreases text.len(),
{
    let none = Seq::<ElementView>::empty();
    assert(texts_joined(none) + text =~= text);
    if text.len() > 0 {
        lemma_first_advancing(matchers, text, 0);
        match first_advancing(matchers, text, 0) {
            Some(k) => {
                let made = matcher_result(matchers[k], text);
                lemma_plain_matcher_keeps_text(matchers[k], text);
                if made.rest.len() < text.len() {
                    let more = lex_match_result(matchers, made.rest);
                    lemma_plain_lex_match_keeps_text(matchers, made.rest);
                    lemma_texts_joined_concat(made.elements, more.elements);
                    assert(texts_joined(made.elements) + texts_joined(more.elements) + more.rest
                        =~= texts_joined(made.elements) + (texts_joined(more.elements)
                        + more.rest));
                }
            },
            None => {},
        }
    }
}

/// What plain matchers, with a plain last resort or none, lex of a whole
/// text is the text.
pub proof fn lemma_plain_lex_keeps_text(
    matchers: Seq<MatcherView>,
    last_resort: Option<MatcherView>,
    text: Seq<u8>,
)
    requires
        all_plain(matchers),
        last_resort matches Some(m) ==> is_plain(m),
        valid_utf8(text),
    ensures
        texts_joined(lex_elements(matchers, last_resort, text)) == text,
        all_valid(lex_elements(matchers, last_resort, text)),
    decreases text.len(),
{
    let first = lex_match_result(matchers, text);
    lemma_plain_lex_match_keeps_text(matchers, text);
    if first.rest.len() == 0 {
        assert(texts_joined(first.elements) + first.rest =~= texts_joined(first.elements));
    } else if resort_advances(last_resort, first.rest) && matcher_result(
        last_resort.unwrap(),
        first.rest,
    ).rest.len() < text.len() {
        let resort = matcher_result(last_resort.unwrap(), first.rest);
        let more = lex_elements(matchers, last_resort, resort.rest);
        lemma_plain_matcher_keeps_text(last_resort.unwrap(), first.rest);
        lemma_plain_lex_keeps_text(matchers, last_resort, resort.rest);
        lemma_texts_joined_concat(first.elements, resort.elements);
        lemma_texts_joined_concat(first.elements + resort.elements, more);
        assert(texts_joined(first.elements) + texts_joined(resort.elements) + texts_joined(more)
            =~= texts_joined(first.elements) + (texts_joined(resort.elements) + resort.rest));
    } else {
        let last = unlexable_element(first.rest);
        assert(first.elements.push(last).drop_last() =~= first.elements);
    }
}

/// The elements of a text without a template all find their place: each
/// in the one slice, as long as the walk stands at it, and none is left
/// over behind it but elements without text.
pub proof fn lemma_plain_placement(
    elements: Seq<ElementView>,
    k: int,
    cursor: int,
    placed: Seq<SegmentView>,
)
    requires
        all_valid(elements),
        texts_joined(elements).len() <= usize::MAX,
        0 <= k <= elements.len(),
        cursor == 0 || (cursor == 1 && texts_joined(elements.take(k)).len() == texts_joined(
            elements,
        ).len()),
    ensures
        place_all(with_slices(elements), k, plain_slices(texts_joined(elements)), cursor, placed)
            is Ok,
    decreases elements.len() - k,
{
    let placed_elements = with_slices(elements);
    let text = texts_joined(elements);
    let slices = plain_slices(text);
    let n = text.len() as int;
    if k < elements.len() {
        let element = placed_elements[k];
        lemma_texts_joined_split(elements, k);
        lemma_texts_joined_split(elements, k + 1);
        assert(elements.take(k + 1).drop_last() =~= elements.take(k));
        assert(elements.take(k + 1).last() == elements[k]);
        let start = texts_joined(elements.take(k)).len() as int;
        let end = texts_joined(elements.take(k + 1)).len() as int;
        assert(end == start + elements[k].text.len());
        assert(end <= n);
        assert(element.raw == elements[k].text);
        assert(element.start == start && element.end == end);
        is_char_boundary_start_end_of_seq(element.raw);
        let slice = slices[0];
        if cursor == 0 {
            if n == 0 {
                // The slice holds no text: the walk passes over it.
                assert(place_element(element, slices, 1, 0, None, placed) == Ok::<
                    Placement,
                    ValueError,
                >(Placement { segments: placed, cursor: 1 }));
                assert(place_element(element, slices, 0, 0, None, placed) == place_element(
                    element,
                    slices,
                    1,
                    0,
                    None,
                    placed,
                ));
                assert(texts_joined(elements.take(k + 1)).len() == n);
                lemma_plain_placement(elements, k + 1, 1, placed);
            } else {
                assert(to_source(slice, start) == Some(start));
                assert(to_source(slice, end) == Some(end));
                let result = place_element(element, slices, 0, 0, None, placed);
                assert(result is Ok);
                let p = result->Ok_0;
                if end == n {
                    assert(p.cursor == 1);
                    lemma_plain_placement(elements, k + 1, 1, p.segments);
                } else {
                    assert(p.cursor == 0);
                    lemma_plain_placement(elements, k + 1, 0, p.segments);
                }
            }
        } else {
            assert(elements[k].text.len() == 0);
            assert(place_element(element, slices, 1, 0, None, placed) == Ok::<
                Placement,
                ValueError,
            >(Placement { segments: placed, cursor: 1 }));
            assert(texts_joined(elements.take(k + 1)).len() == n);
            lemma_plain_placement(elements, k + 1, 1, placed);
        }
    }
}

/// Lexing a text without a template with plain matchers does not fail:
/// the segments are made, and by `lemma_segments_round_trip` they join to
/// the text.
pub proof fn lemma_plain_lex_succeeds(
    matchers: Seq<MatcherView>,
    last_resort: Option<MatcherView>,
    text: Seq<u8>,
)
    requires
        all_plain(matchers),
        last_resort matches Some(m) ==> is_plain(m),
        valid_utf8(text),
        text.len() <= usize::MAX,
    ensures
        lexed(matchers, last_resort, text, plain_slices(text)) is Ok,
{
    let elements = lex_elements(matchers, last_resort, text);
    lemma_plain_lex_keeps_text(matchers, last_resort, text);
    assert(elements.take(0) =~= Seq::<ElementView>::empty());
    lemma_plain_placement(elements, 0, 0, Seq::empty());
}

} // verus!
