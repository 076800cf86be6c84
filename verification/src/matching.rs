//! What it means for a grammar to match a list of tokens.
//!
//! A match starts at a position of the token list. It either fails, and
//! then has taken nothing, or it succeeds: it then ends at a position at or
//! behind the one where it started, and has made nodes of the tokens in
//! between. A success that takes no token is not a failure.

use crate::dialect::{bracket_index, lookup_rule, BracketPairView, RuleView};
use crate::grammar::{GrammarView, ParseMode};
use crate::markers::PositionMarker;
use crate::regexp::{regex_compiles, regex_find};
use crate::segments::{marker, node_of, retyped, SegmentView};
use crate::syntax::SyntaxKind;
use crate::text::{byte_len, uppercase_of};
use vstd::prelude::*;
use vstd::utf8::*;

verus! {

/// A flag of the configuration.
pub struct FlagView {
    pub name: Seq<char>,
    pub value: bool,
}

/// What a match is made against: the rules and bracket pairs of the
/// dialect, and the flags of the configuration.
pub struct ContextView {
    pub rules: Seq<RuleView>,
    pub bracket_pairs: Seq<BracketPairView>,
    pub flags: Seq<FlagView>,
}

/// A successful match: the position behind the last token taken, and the
/// nodes made.
pub struct Matched {
    pub end: int,
    pub nodes: Seq<SegmentView>,
}

/// Why a match could not be made at all. This is no failure to match: it
/// says that the dialect or the depth allowed does not fit the grammar.
#[derive(Clone, Copy, Debug, PartialEq, Eq, Structural)]
pub enum Fault {
    /// Rules refer to rules more deeply than the depth allowed.
    TooDeep,
    /// A rule is referred to that the dialect does not hold.
    UnknownRule,
    /// A bracket pair is referred to that the dialect does not hold.
    UnknownBracket,
    /// A grammar holds a choice of words that was not resolved: the dialect
    /// was not expanded.
    Unexpanded,
}

/// The position of the first code token at or behind `pos`: the end of the
/// tokens where there is none.
pub open spec fn next_code(tokens: Seq<SegmentView>, pos: int) -> int
    decreases tokens.len() - pos,
{
    if pos < 0 || pos >= tokens.len() {
        pos
    } else if tokens[pos].kind().is_code() {
        pos
    } else {
        next_code(tokens, pos + 1)
    }
}

/// The byte as an upper case letter, if it is an ASCII lower case letter.
pub open spec fn upper_byte(b: u8) -> u8 {
    if 97 <= b <= 122 {
        (b - 32) as u8
    } else {
        b
    }
}

/// Whether two texts are the same but for the case of ASCII letters.
pub open spec fn same_ignoring_case(a: Seq<u8>, b: Seq<u8>) -> bool {
    &&& a.len() == b.len()
    &&& forall|i: int| 0 <= i < a.len() ==> upper_byte(#[trigger] a[i]) == upper_byte(b[i])
}

/// Whether the regular expression `pattern` takes the text `raw` whole once
/// it is put in upper case: the pattern compiles, and its first match in
/// the upper-case text runs from the first byte to the last.
pub open spec fn pattern_takes(pattern: Seq<char>, raw: Seq<u8>) -> bool {
    let upper = uppercase_of(decode_utf8(raw));
    regex_compiles(pattern) && regex_find(pattern, upper) == Some((0int, byte_len(upper) as int))
}

/// The value of the flag named `name`: that of the first flag of that name
/// at or after `from`, and false where there is none.
pub open spec fn flag_value(flags: Seq<FlagView>, name: Seq<char>, from: int) -> bool
    decreases flags.len() - from,
{
    if from < 0 || from >= flags.len() {
        false
    } else if flags[from].name == name {
        flags[from].value
    } else {
        flag_value(flags, name, from + 1)
    }
}

/// The position of the bracket that closes the one opened before `pos`:
/// `open` brackets are still to be closed.
pub open spec fn matching_close(
    tokens: Seq<SegmentView>,
    pos: int,
    open: int,
    start: SyntaxKind,
    end: SyntaxKind,
) -> Option<int>
    decreases tokens.len() - pos,
{
    if pos < 0 || pos >= tokens.len() {
        None
    } else if tokens[pos].kind() == end {
        if open <= 1 {
            Some(pos)
        } else {
            matching_close(tokens, pos + 1, open - 1, start, end)
        }
    } else if tokens[pos].kind() == start {
        matching_close(tokens, pos + 1, open + 1, start, end)
    } else {
        matching_close(tokens, pos + 1, open, start, end)
    }
}

/// Whether the `j`-th option may still be taken: it has been taken less
/// often than `per_option` allows.
pub open spec fn may_take(counts: Seq<int>, j: int, per_option: Option<usize>) -> bool {
    match per_option {
        Some(limit) => 0 <= j < counts.len() ==> counts[j] < limit,
        None => true,
    }
}

/// The match of `grammar` at `pos`.
pub open spec fn match_grammar(
    grammar: GrammarView,
    tokens: Seq<SegmentView>,
    pos: int,
    cx: ContextView,
    depth: nat,
) -> Result<Option<Matched>, Fault>
    decreases depth, grammar, tokens.len() + 2, 0nat,
{
    match grammar {
        GrammarView::Nothing => Ok(None),
        GrammarView::Anything => if 0 <= pos <= tokens.len() {
            Ok(
                Some(
                    Matched {
                        end: tokens.len() as int,
                        nodes: tokens.subrange(pos, tokens.len() as int),
                    },
                ),
            )
        } else {
            Ok(None)
        },
        GrammarView::Token { kind, becomes } => if 0 <= pos < tokens.len() && tokens[pos].kind()
            == kind {
            Ok(Some(Matched { end: pos + 1, nodes: seq![retyped(tokens[pos], becomes)] }))
        } else {
            Ok(None)
        },
        GrammarView::Text { template, becomes } => if 0 <= pos < tokens.len() && tokens[pos] is Leaf
            && tokens[pos].kind().is_code() && same_ignoring_case(
            tokens[pos].raw(),
            encode_utf8(template),
        ) {
            Ok(Some(Matched { end: pos + 1, nodes: seq![retyped(tokens[pos], becomes)] }))
        } else {
            Ok(None)
        },
        GrammarView::Regex { pattern, becomes } => if 0 <= pos < tokens.len() && tokens[pos] is Leaf
            && tokens[pos].kind().is_code() && pattern_takes(pattern, tokens[pos].raw()) {
            Ok(Some(Matched { end: pos + 1, nodes: seq![retyped(tokens[pos], becomes)] }))
        } else {
            Ok(None)
        },
        GrammarView::Meta { kind } => Ok(Some(Matched { end: pos, nodes: seq![marker(kind)] })),
        GrammarView::Conditional { kind, flag, expected } => if flag_value(cx.flags, flag, 0)
            == expected {
            Ok(Some(Matched { end: pos, nodes: seq![marker(kind)] }))
        } else {
            Ok(Some(Matched { end: pos, nodes: seq![] }))
        },
        GrammarView::Optional { inner } => match match_grammar(*inner, tokens, pos, cx, depth) {
            Ok(None) => Ok(Some(Matched { end: pos, nodes: seq![] })),
            other => other,
        },
        GrammarView::Excluding { inner, exclude } => match match_grammar(
            *exclude,
            tokens,
            pos,
            cx,
            depth,
        ) {
            Ok(Some(_)) => Ok(None),
            Ok(None) => match_grammar(*inner, tokens, pos, cx, depth),
            Err(f) => Err(f),
        },
        GrammarView::Node { kind, inner } => match match_grammar(*inner, tokens, pos, cx, depth) {
            Ok(Some(m)) => if m.nodes.len() == 0 {
                Ok(Some(m))
            } else {
                Ok(Some(Matched { end: m.end, nodes: seq![node_of(kind, m.nodes)] }))
            },
            other => other,
        },
        GrammarView::Ref { name, exclude } => {
            let excluded = match exclude {
                Some(e) => match match_grammar(*e, tokens, pos, cx, depth) {
                    Ok(Some(_)) => Ok(true),
                    Ok(None) => Ok(false),
                    Err(f) => Err(f),
                },
                None => Ok(false),
            };
            match excluded {
                Err(f) => Err(f),
                Ok(true) => Ok(None),
                Ok(false) => match lookup_rule(cx.rules, name) {
                    None => Err(Fault::UnknownRule),
                    Some(rule) => if depth == 0 {
                        Err(Fault::TooDeep)
                    } else {
                        match_grammar(rule, tokens, pos, cx, (depth - 1) as nat)
                    },
                },
            }
        },
        GrammarView::KeywordOf { .. } => Err(Fault::Unexpanded),
        GrammarView::Sequence { elements } => match_sequence(
            elements,
            0,
            tokens,
            pos,
            pos,
            cx,
            depth,
            seq![],
        ),
        GrammarView::OneOf { options } => match first_option(
            options,
            0,
            tokens,
            pos,
            cx,
            depth,
            false,
            seq![],
            None,
        ) {
            Ok(Some((_, m))) => Ok(Some(m)),
            Ok(None) => Ok(None),
            Err(f) => Err(f),
        },
        GrammarView::AnyNumberOf { options, min_times, max_times, max_times_per_element } => {
            match_repeat(
                options,
                min_times,
                max_times,
                max_times_per_element,
                tokens,
                pos,
                pos,
                cx,
                depth,
                0,
                Seq::new(options.len(), |j: int| 0int),
                seq![],
            )
        },
        GrammarView::Delimited { .. } => if pos < 0 || pos > tokens.len() {
            Ok(None)
        } else {
            match_delimited(grammar, tokens, pos, pos, cx, depth, 0, seq![], None)
        },
        GrammarView::Bracketed { elements, bracket_type, parse_mode } => {
            match bracket_index(cx.bracket_pairs, bracket_type, 0) {
                None => Err(Fault::UnknownBracket),
                Some(b) => {
                    let pair = cx.bracket_pairs[b];
                    if 0 <= pos < tokens.len() && tokens[pos].kind() == pair.start {
                        match matching_close(tokens, pos + 1, 1, pair.start, pair.end) {
                            None => Ok(None),
                            Some(close) => {
                                let window = tokens.subrange(0, close);
                                let opened = seq![tokens[pos]];
                                match match_sequence(
                                    elements,
                                    0,
                                    window,
                                    pos,
                                    pos + 1,
                                    cx,
                                    depth,
                                    opened,
                                ) {
                                    Err(f) => Err(f),
                                    Ok(inner) => bracket_closed(
                                        tokens,
                                        pos,
                                        close,
                                        match inner {
                                            Some(m) => m,
                                            None => Matched { end: pos + 1, nodes: opened },
                                        },
                                        parse_mode,
                                    ),
                                }
                            },
                        }
                    } else {
                        Ok(None)
                    }
                },
            }
        },
    }
}

/// The bracketed node, from the match of what stands between the brackets.
/// Where that match came to the closing bracket, but for tokens that are no
/// code, the node holds it all. Where it did not, the bracket fails if it is
/// strict; if it is greedy, the node holds what was matched, and what was
/// not as one unparsable node.
pub open spec fn bracket_closed(
    tokens: Seq<SegmentView>,
    pos: int,
    close: int,
    inner: Matched,
    parse_mode: ParseMode,
) -> Result<Option<Matched>, Fault> {
    let window = tokens.subrange(0, close);
    let tail = next_code(window, inner.end);
    let closing = seq![tokens[close]];
    if tail >= close {
        Ok(
            Some(
                Matched {
                    end: close + 1,
                    nodes: seq![
                        node_of(
                            SyntaxKind::Bracketed,
                            inner.nodes + tokens.subrange(inner.end, close) + closing,
                        ),
                    ],
                },
            ),
        )
    } else if parse_mode == ParseMode::Greedy {
        Ok(
            Some(
                Matched {
                    end: close + 1,
                    nodes: seq![
                        node_of(
                            SyntaxKind::Bracketed,
                            inner.nodes + tokens.subrange(inner.end, tail) + seq![
                                node_of(SyntaxKind::Unparsable, tokens.subrange(tail, close)),
                            ] + closing,
                        ),
                    ],
                },
            ),
        )
    } else {
        Ok(None)
    }
}

/// The match of the elements from the `k`-th on, one after the other.
/// `start` is where the sequence began, `pos` where the elements before
/// the `k`-th ended, and `nodes` what they made. Between two elements
/// tokens that are no code are passed over and kept; an element that takes
/// no token stands before them.
pub open spec fn match_sequence(
    elements: Seq<GrammarView>,
    k: int,
    tokens: Seq<SegmentView>,
    start: int,
    pos: int,
    cx: ContextView,
    depth: nat,
    nodes: Seq<SegmentView>,
) -> Result<Option<Matched>, Fault>
    decreases depth, elements, elements.len() - k, 0nat,
{
    if k < 0 || k >= elements.len() {
        Ok(Some(Matched { end: pos, nodes }))
    } else {
        let at = if pos == start {
            pos
        } else {
            next_code(tokens, pos)
        };
        match match_grammar(elements[k], tokens, at, cx, depth) {
            Err(f) => Err(f),
            Ok(None) => Ok(None),
            Ok(Some(m)) => if m.end <= at {
                match_sequence(elements, k + 1, tokens, start, pos, cx, depth, nodes + m.nodes)
            } else {
                match_sequence(
                    elements,
                    k + 1,
                    tokens,
                    start,
                    m.end,
                    cx,
                    depth,
                    nodes + tokens.subrange(pos, at) + m.nodes,
                )
            },
        }
    }
}

/// The first of the options from the `j`-th on that matches at `pos`, with
/// its match. Where `must_advance`, an option only counts if it takes a
/// token; an option that has been taken as often as `per_option` allows
/// does not count.
pub open spec fn first_option(
    options: Seq<GrammarView>,
    j: int,
    tokens: Seq<SegmentView>,
    pos: int,
    cx: ContextView,
    depth: nat,
    must_advance: bool,
    counts: Seq<int>,
    per_option: Option<usize>,
) -> Result<Option<(int, Matched)>, Fault>
    decreases depth, options, 0nat, options.len() - j,
{
    if j < 0 || j >= options.len() {
        Ok(None)
    } else if !may_take(counts, j, per_option) {
        first_option(options, j + 1, tokens, pos, cx, depth, must_advance, counts, per_option)
    } else {
        match match_grammar(options[j], tokens, pos, cx, depth) {
            Err(f) => Err(f),
            Ok(Some(m)) => if must_advance && m.end <= pos {
                first_option(
                    options,
                    j + 1,
                    tokens,
                    pos,
                    cx,
                    depth,
                    must_advance,
                    counts,
                    per_option,
                )
            } else {
                Ok(Some((j, m)))
            },
            Ok(None) => first_option(
                options,
                j + 1,
                tokens,
                pos,
                cx,
                depth,
                must_advance,
                counts,
                per_option,
            ),
        }
    }
}

/// What a repetition comes to when it ends at `pos` after `count` rounds.
pub open spec fn repeat_done(min_times: usize, pos: int, count: int, nodes: Seq<SegmentView>) -> Result<
    Option<Matched>,
    Fault,
> {
    if count >= min_times {
        Ok(Some(Matched { end: pos, nodes }))
    } else {
        Ok(None)
    }
}

/// The repetition of the options, from a state of it: `count` rounds have
/// been made, the `j`-th option has been taken `counts[j]` times, the last
/// round ended at `pos` and the rounds made `nodes`. Each round takes the
/// first option that takes a token, behind tokens that are no code. The
/// repetition ends where no option does, or where `max_times` rounds have
/// been made; it fails if fewer than `min_times` rounds have been made.
pub open spec fn match_repeat(
    options: Seq<GrammarView>,
    min_times: usize,
    max_times: Option<usize>,
    per_option: Option<usize>,
    tokens: Seq<SegmentView>,
    start: int,
    pos: int,
    cx: ContextView,
    depth: nat,
    count: int,
    counts: Seq<int>,
    nodes: Seq<SegmentView>,
) -> Result<Option<Matched>, Fault>
    decreases depth, options, tokens.len() - pos + 1, 0nat,
{
    if pos < 0 || pos > tokens.len() || (max_times matches Some(most) && count >= most) {
        repeat_done(min_times, pos, count, nodes)
    } else {
        let at = if pos == start {
            pos
        } else {
            next_code(tokens, pos)
        };
        match first_option(options, 0, tokens, at, cx, depth, true, counts, per_option) {
            Err(f) => Err(f),
            Ok(None) => repeat_done(min_times, pos, count, nodes),
            Ok(Some((j, m))) => if m.end <= pos || m.end > tokens.len() || j < 0 || j
                >= counts.len() {
                repeat_done(min_times, pos, count, nodes)
            } else {
                match_repeat(
                    options,
                    min_times,
                    max_times,
                    per_option,
                    tokens,
                    start,
                    m.end,
                    cx,
                    depth,
                    count + 1,
                    counts.update(j, counts[j] + 1),
                    nodes + tokens.subrange(pos, at) + m.nodes,
                )
            },
        }
    }
}

/// What a delimited list comes to when it ends at `pos` with `delimiters`
/// delimiters.
pub open spec fn delimited_done(
    min_delimiters: usize,
    pos: int,
    delimiters: int,
    nodes: Seq<SegmentView>,
) -> Result<Option<Matched>, Fault> {
    if delimiters >= min_delimiters {
        Ok(Some(Matched { end: pos, nodes }))
    } else {
        Ok(None)
    }
}

/// The delimited list, from a state of it, at which an element is due. The
/// elements so far ended at `pos` and made `nodes`, with `delimiters`
/// delimiters between them; `pending` is the delimiter that was matched
/// behind the last element, with the position where it ends. An element
/// behind it takes the delimiter into the list; where none follows, the
/// delimiter is taken in only if a trailing delimiter is allowed. A list
/// without a first element fails.
pub open spec fn match_delimited(
    grammar: GrammarView,
    tokens: Seq<SegmentView>,
    start: int,
    pos: int,
    cx: ContextView,
    depth: nat,
    delimiters: int,
    nodes: Seq<SegmentView>,
    pending: Option<Matched>,
) -> Result<Option<Matched>, Fault>
    decreases depth, grammar, tokens.len() - pos + 1, 0nat,
{
    match grammar {
        GrammarView::Delimited { options, delimiter, min_delimiters, allow_trailing } => {
            let base = match pending {
                Some(d) => d.end,
                None => pos,
            };
            let at = if base == start {
                base
            } else {
                next_code(tokens, base)
            };
            match first_option(options, 0, tokens, at, cx, depth, true, seq![], None) {
                Err(f) => Err(f),
                Ok(None) => match pending {
                    None => if pos == start {
                        Ok(None)
                    } else {
                        delimited_done(min_delimiters, pos, delimiters, nodes)
                    },
                    Some(d) => if allow_trailing {
                        delimited_done(min_delimiters, d.end, delimiters + 1, nodes + d.nodes)
                    } else {
                        delimited_done(min_delimiters, pos, delimiters, nodes)
                    },
                },
                Ok(Some((_, m))) => {
                    let with_element = match pending {
                        Some(d) => nodes + d.nodes + tokens.subrange(base, at) + m.nodes,
                        None => nodes + tokens.subrange(base, at) + m.nodes,
                    };
                    let so_far = match pending {
                        Some(_) => delimiters + 1,
                        None => delimiters,
                    };
                    let before = next_code(tokens, m.end);
                    if m.end <= pos || m.end > tokens.len() {
                        delimited_done(min_delimiters, pos, delimiters, nodes)
                    } else {
                        match match_grammar(*delimiter, tokens, before, cx, depth) {
                            Err(f) => Err(f),
                            Ok(Some(d)) => if d.end <= before || d.end > tokens.len() {
                                delimited_done(min_delimiters, m.end, so_far, with_element)
                            } else {
                                match_delimited(
                                    grammar,
                                    tokens,
                                    start,
                                    m.end,
                                    cx,
                                    depth,
                                    so_far,
                                    with_element,
                                    Some(
                                        Matched {
                                            end: d.end,
                                            nodes: tokens.subrange(m.end, before) + d.nodes,
                                        },
                                    ),
                                )
                            },
                            Ok(None) => delimited_done(min_delimiters, m.end, so_far, with_element),
                        }
                    }
                },
            }
        },
        _ => Ok(None),
    }
}

/// The tokens under a segment, in order, each by its text and position:
/// the segment itself if it is a leaf with a position, the tokens under
/// its children if it is a node. A marker, which has no position, is no
/// token.
pub open spec fn tokens_under(segment: SegmentView) -> Seq<(Seq<u8>, PositionMarker)>
    decreases segment, 1nat,
{
    match segment {
        SegmentView::Leaf { raw, position, .. } => match position {
            Some(p) => seq![(raw, p)],
            None => seq![],
        },
        SegmentView::Node { children, .. } => tokens_under_all(children),
    }
}

/// The tokens under the segments, in order.
pub open spec fn tokens_under_all(segments: Seq<SegmentView>) -> Seq<(Seq<u8>, PositionMarker)>
    decreases segments, 0nat,
{
    if segments.len() == 0 {
        seq![]
    } else {
        tokens_under_all(segments.drop_last()) + tokens_under(segments.last())
    }
}

/// The tokens under two sequences of segments, one after the other.
pub proof fn lemma_tokens_concat(a: Seq<SegmentView>, b: Seq<SegmentView>)
    ensures
        tokens_under_all(a + b) == tokens_under_all(a) + tokens_under_all(b),
    decreases b.len(),
{
    if b.len() == 0 {
        assert(a + b =~= a);
        assert(tokens_under_all(a) + tokens_under_all(b) =~= tokens_under_all(a));
    } else {
        lemma_tokens_concat(a, b.drop_last());
        assert((a + b).drop_last() =~= a + b.drop_last());
        assert((a + b).last() == b.last());
        assert(tokens_under_all(a) + tokens_under_all(b.drop_last()) + tokens_under(b.last())
            =~= tokens_under_all(a) + (tokens_under_all(b.drop_last()) + tokens_under(b.last())));
    }
}

/// The tokens under one segment, taken as a sequence.
pub proof fn lemma_tokens_single(segment: SegmentView)
    ensures
        tokens_under_all(seq![segment]) == tokens_under(segment),
{
    let one = seq![segment];
    assert(one.drop_last() =~= Seq::<SegmentView>::empty());
    assert(tokens_under_all(one.drop_last()) =~= Seq::<(Seq<u8>, PositionMarker)>::empty());
    assert(tokens_under_all(one) == tokens_under_all(one.drop_last()) + tokens_under(one.last()));
    assert(tokens_under_all(one) =~= tokens_under(segment));
}

/// The tokens under two adjoining parts of a sequence are those under the
/// two parts together.
pub proof fn lemma_tokens_adjoin(tokens: Seq<SegmentView>, a: int, b: int, c: int)
    requires
        0 <= a <= b <= c <= tokens.len(),
    ensures
        tokens_under_all(tokens.subrange(a, b)) + tokens_under_all(tokens.subrange(b, c))
            == tokens_under_all(tokens.subrange(a, c)),
{
    lemma_tokens_concat(tokens.subrange(a, b), tokens.subrange(b, c));
    assert(tokens.subrange(a, b) + tokens.subrange(b, c) =~= tokens.subrange(a, c));
}

/// `next_code` stays within the tokens and goes no way back.
pub proof fn lemma_next_code(tokens: Seq<SegmentView>, pos: int)
    requires
        0 <= pos <= tokens.len(),
    ensures
        pos <= next_code(tokens, pos) <= tokens.len(),
        forall|i: int| pos <= i < next_code(tokens, pos) ==> !tokens[i].kind().is_code(),
    decreases tokens.len() - pos,
{
    if pos < tokens.len() && !tokens[pos].kind().is_code() {
        lemma_next_code(tokens, pos + 1);
    }
}

/// What `matching_close` finds is a closing bracket at or behind `pos`.
pub proof fn lemma_matching_close(
    tokens: Seq<SegmentView>,
    pos: int,
    open: int,
    start: SyntaxKind,
    end: SyntaxKind,
)
    requires
        0 <= pos,
    ensures
        matching_close(tokens, pos, open, start, end) matches Some(close) ==> pos <= close
            < tokens.len() && tokens[close].kind() == end,
    decreases tokens.len() - pos,
{
    if pos < tokens.len() {
        if tokens[pos].kind() == end {
            if open > 1 {
                lemma_matching_close(tokens, pos + 1, open - 1, start, end);
            }
        } else if tokens[pos].kind() == start {
            lemma_matching_close(tokens, pos + 1, open + 1, start, end);
        } else {
            lemma_matching_close(tokens, pos + 1, open, start, end);
        }
    }
}

/// A match accounts for what it took: it ends in the list at or behind
/// where it started, and the tokens under its nodes are the tokens between
/// the two places, each once and in order.
pub open spec fn accounts_for(m: Matched, tokens: Seq<SegmentView>, from: int) -> bool {
    &&& from <= m.end <= tokens.len()
    &&& tokens_under_all(m.nodes) == tokens_under_all(tokens.subrange(from, m.end))
}

/// Every successful match of a grammar accounts for the tokens that it
/// took: none is dropped, none doubled, none out of its place.
pub proof fn lemma_match_accounts(
    grammar: GrammarView,
    tokens: Seq<SegmentView>,
    pos: int,
    cx: ContextView,
    depth: nat,
)
    requires
        0 <= pos <= tokens.len(),
    ensures
        match_grammar(grammar, tokens, pos, cx, depth) matches Ok(Some(m)) ==> accounts_for(
            m,
            tokens,
            pos,
        ),
    decreases depth, grammar, tokens.len() + 2, 0nat,
{
    let none = Seq::<(Seq<u8>, PositionMarker)>::empty();
    assert(tokens.subrange(pos, pos) =~= Seq::<SegmentView>::empty());
    match grammar {
        GrammarView::Nothing => {},
        GrammarView::Anything => {},
        GrammarView::Token { kind, becomes } => {
            if pos < tokens.len() && tokens[pos].kind() == kind {
                lemma_tokens_single(retyped(tokens[pos], becomes));
                lemma_tokens_single(tokens[pos]);
                assert(tokens.subrange(pos, pos + 1) =~= seq![tokens[pos]]);
            }
        },
        GrammarView::Text { template, becomes } => {
            if pos < tokens.len() {
                lemma_tokens_single(retyped(tokens[pos], becomes));
                lemma_tokens_single(tokens[pos]);
                assert(tokens.subrange(pos, pos + 1) =~= seq![tokens[pos]]);
            }
        },
        GrammarView::Regex { pattern, becomes } => {
            if pos < tokens.len() {
                lemma_tokens_single(retyped(tokens[pos], becomes));
                lemma_tokens_single(tokens[pos]);
                assert(tokens.subrange(pos, pos + 1) =~= seq![tokens[pos]]);
            }
        },
        GrammarView::Meta { kind } => {
            lemma_tokens_single(marker(kind));
        },
        GrammarView::Conditional { kind, flag, expected } => {
            lemma_tokens_single(marker(kind));
        },
        GrammarView::Optional { inner } => {
            lemma_match_accounts(*inner, tokens, pos, cx, depth);
        },
        GrammarView::Excluding { inner, .. } => {
            lemma_match_accounts(*inner, tokens, pos, cx, depth);
        },
        GrammarView::Node { kind, inner } => {
            lemma_match_accounts(*inner, tokens, pos, cx, depth);
            match match_grammar(*inner, tokens, pos, cx, depth) {
                Ok(Some(m)) => {
                    lemma_tokens_single(node_of(kind, m.nodes));
                },
                _ => {},
            }
        },
        GrammarView::Ref { name, exclude } => {
            match lookup_rule(cx.rules, name) {
                Some(rule) => {
                    if depth > 0 {
                        lemma_match_accounts(rule, tokens, pos, cx, (depth - 1) as nat);
                    }
                },
                None => {},
            }
        },
        GrammarView::KeywordOf { .. } => {},
        GrammarView::Sequence { elements } => {
            lemma_sequence_accounts(elements, 0, tokens, pos, pos, cx, depth, seq![]);
        },
        GrammarView::OneOf { options } => {
            lemma_option_accounts(options, 0, tokens, pos, cx, depth, false, seq![], None);
        },
        GrammarView::AnyNumberOf { options, min_times, max_times, max_times_per_element } => {
            lemma_repeat_accounts(
                options,
                min_times,
                max_times,
                max_times_per_element,
                tokens,
                pos,
                pos,
                cx,
                depth,
                0,
                Seq::new(options.len(), |j: int| 0int),
                seq![],
            );
        },
        GrammarView::Delimited { .. } => {
            lemma_delimited_accounts(grammar, tokens, pos, pos, cx, depth, 0, seq![], None);
        },
        GrammarView::Bracketed { elements, bracket_type, parse_mode } => {
            match bracket_index(cx.bracket_pairs, bracket_type, 0) {
                None => {},
                Some(b) => {
                    let pair = cx.bracket_pairs[b];
                    if pos < tokens.len() && tokens[pos].kind() == pair.start {
                        lemma_matching_close(tokens, pos + 1, 1, pair.start, pair.end);
                        match matching_close(tokens, pos + 1, 1, pair.start, pair.end) {
                            None => {},
                            Some(close) => {
                                let window = tokens.subrange(0, close);
                                let opened = seq![tokens[pos]];
                                assert(window.subrange(pos, pos + 1) =~= opened);
                                lemma_sequence_accounts(
                                    elements,
                                    0,
                                    window,
                                    pos,
                                    pos + 1,
                                    cx,
                                    depth,
                                    opened,
                                );
                                match match_sequence(
                                    elements,
                                    0,
                                    window,
                                    pos,
                                    pos + 1,
                                    cx,
                                    depth,
                                    opened,
                                ) {
                                    Err(_) => {},
                                    Ok(inner) => {
                                        let m = match inner {
                                            Some(m) => m,
                                            None => Matched { end: pos + 1, nodes: opened },
                                        };
                                        assert(window.subrange(pos, m.end) =~= tokens.subrange(
                                            pos,
                                            m.end,
                                        ));
                                        lemma_bracket_accounts(tokens, pos, close, m, parse_mode);
                                    },
                                }
                            },
                        }
                    }
                },
            }
        },
    }
}

/// A bracketed node accounts for all tokens from the opening bracket to
/// the closing bracket, whether its inside was matched in full or not.
pub proof fn lemma_bracket_accounts(
    tokens: Seq<SegmentView>,
    pos: int,
    close: int,
    inner: Matched,
    parse_mode: ParseMode,
)
    requires
        0 <= pos < inner.end <= close < tokens.len(),
        tokens_under_all(inner.nodes) == tokens_under_all(tokens.subrange(pos, inner.end)),
    ensures
        bracket_closed(tokens, pos, close, inner, parse_mode) matches Ok(Some(m)) ==> m.end == close
            + 1 && m.nodes.len() == 1 && accounts_for(m, tokens, pos),
{
    let window = tokens.subrange(0, close);
    let tail = next_code(window, inner.end);
    let closing = seq![tokens[close]];
    lemma_next_code(window, inner.end);
    assert(tokens.subrange(close, close + 1) =~= closing);
    if tail >= close {
        let children = inner.nodes + tokens.subrange(inner.end, close) + closing;
        lemma_tokens_concat(inner.nodes, tokens.subrange(inner.end, close));
        lemma_tokens_concat(inner.nodes + tokens.subrange(inner.end, close), closing);
        lemma_tokens_adjoin(tokens, pos, inner.end, close);
        lemma_tokens_adjoin(tokens, pos, close, close + 1);
        lemma_tokens_single(node_of(SyntaxKind::Bracketed, children));
    } else if parse_mode == ParseMode::Greedy {
        let lost = node_of(SyntaxKind::Unparsable, tokens.subrange(tail, close));
        let children = inner.nodes + tokens.subrange(inner.end, tail) + seq![lost] + closing;
        lemma_tokens_concat(inner.nodes, tokens.subrange(inner.end, tail));
        lemma_tokens_concat(inner.nodes + tokens.subrange(inner.end, tail), seq![lost]);
        lemma_tokens_concat(
            inner.nodes + tokens.subrange(inner.end, tail) + seq![lost],
            closing,
        );
        lemma_tokens_single(lost);
        lemma_tokens_adjoin(tokens, pos, inner.end, tail);
        lemma_tokens_adjoin(tokens, pos, tail, close);
        lemma_tokens_adjoin(tokens, pos, close, close + 1);
        lemma_tokens_single(node_of(SyntaxKind::Bracketed, children));
    }
}

/// A sequence accounts for the tokens that it took.
pub proof fn lemma_sequence_accounts(
    elements: Seq<GrammarView>,
    k: int,
    tokens: Seq<SegmentView>,
    start: int,
    pos: int,
    cx: ContextView,
    depth: nat,
    nodes: Seq<SegmentView>,
)
    requires
        0 <= start <= pos <= tokens.len(),
        tokens_under_all(nodes) == tokens_under_all(tokens.subrange(start, pos)),
    ensures
        match_sequence(elements, k, tokens, start, pos, cx, depth, nodes) matches Ok(Some(m))
            ==> pos <= m.end && accounts_for(m, tokens, start),
    decreases depth, elements, elements.len() - k, 0nat,
{
    if 0 <= k < elements.len() {
        let at = if pos == start {
            pos
        } else {
            next_code(tokens, pos)
        };
        lemma_next_code(tokens, pos);
        lemma_match_accounts(elements[k], tokens, at, cx, depth);
        match match_grammar(elements[k], tokens, at, cx, depth) {
            Ok(Some(m)) => {
                if m.end <= at {
                    assert(tokens.subrange(at, m.end) =~= Seq::<SegmentView>::empty());
                    lemma_tokens_concat(nodes, m.nodes);
                    assert(tokens_under_all(nodes + m.nodes) =~= tokens_under_all(nodes));
                    lemma_sequence_accounts(
                        elements,
                        k + 1,
                        tokens,
                        start,
                        pos,
                        cx,
                        depth,
                        nodes + m.nodes,
                    );
                } else {
                    lemma_tokens_concat(nodes, tokens.subrange(pos, at));
                    lemma_tokens_concat(nodes + tokens.subrange(pos, at), m.nodes);
                    lemma_tokens_adjoin(tokens, start, pos, at);
                    lemma_tokens_adjoin(tokens, start, at, m.end);
                    lemma_sequence_accounts(
                        elements,
                        k + 1,
                        tokens,
                        start,
                        m.end,
                        cx,
                        depth,
                        nodes + tokens.subrange(pos, at) + m.nodes,
                    );
                }
            },
            _ => {},
        }
    }
}

/// The option that is taken accounts for the tokens that it took, and
/// took one where it had to.
pub proof fn lemma_option_accounts(
    options: Seq<GrammarView>,
    j: int,
    tokens: Seq<SegmentView>,
    pos: int,
    cx: ContextView,
    depth: nat,
    must_advance: bool,
    counts: Seq<int>,
    per_option: Option<usize>,
)
    requires
        0 <= pos <= tokens.len(),
        0 <= j,
    ensures
        first_option(options, j, tokens, pos, cx, depth, must_advance, counts, per_option) matches Ok(
            Some((taken, m)),
        ) ==> {
            &&& j <= taken < options.len()
            &&& accounts_for(m, tokens, pos)
            &&& must_advance ==> m.end > pos
            &&& may_take(counts, taken, per_option)
            &&& match_grammar(options[taken], tokens, pos, cx, depth) == Ok::<
                Option<Matched>,
                Fault,
            >(Some(m))
        },
    decreases depth, options, 0nat, options.len() - j,
{
    if j < options.len() {
        if !may_take(counts, j, per_option) {
            lemma_option_accounts(
                options,
                j + 1,
                tokens,
                pos,
                cx,
                depth,
                must_advance,
                counts,
                per_option,
            );
        } else {
            lemma_match_accounts(options[j], tokens, pos, cx, depth);
            match match_grammar(options[j], tokens, pos, cx, depth) {
                Err(_) => {},
                Ok(Some(m)) => {
                    if must_advance && m.end <= pos {
                        lemma_option_accounts(
                            options,
                            j + 1,
                            tokens,
                            pos,
                            cx,
                            depth,
                            must_advance,
                            counts,
                            per_option,
                        );
                    }
                },
                Ok(None) => {
                    lemma_option_accounts(
                        options,
                        j + 1,
                        tokens,
                        pos,
                        cx,
                        depth,
                        must_advance,
                        counts,
                        per_option,
                    );
                },
            }
        }
    }
}

/// A repetition accounts for the tokens that it took.
pub proof fn lemma_repeat_accounts(
    options: Seq<GrammarView>,
    min_times: usize,
    max_times: Option<usize>,
    per_option: Option<usize>,
    tokens: Seq<SegmentView>,
    start: int,
    pos: int,
    cx: ContextView,
    depth: nat,
    count: int,
    counts: Seq<int>,
    nodes: Seq<SegmentView>,
)
    requires
        0 <= start <= pos <= tokens.len(),
        tokens_under_all(nodes) == tokens_under_all(tokens.subrange(start, pos)),
    ensures
        match_repeat(
            options,
            min_times,
            max_times,
            per_option,
            tokens,
            start,
            pos,
            cx,
            depth,
            count,
            counts,
            nodes,
        ) matches Ok(Some(m)) ==> pos <= m.end && accounts_for(m, tokens, start),
    decreases depth, options, tokens.len() - pos + 1, 0nat,
{
    if !(max_times matches Some(most) && count >= most) {
        let at = if pos == start {
            pos
        } else {
            next_code(tokens, pos)
        };
        lemma_next_code(tokens, pos);
        lemma_option_accounts(options, 0, tokens, at, cx, depth, true, counts, per_option);
        match first_option(options, 0, tokens, at, cx, depth, true, counts, per_option) {
            Ok(Some((j, m))) => {
                if !(m.end <= pos || m.end > tokens.len() || j < 0 || j >= counts.len()) {
                    lemma_tokens_concat(nodes, tokens.subrange(pos, at));
                    lemma_tokens_concat(nodes + tokens.subrange(pos, at), m.nodes);
                    lemma_tokens_adjoin(tokens, start, pos, at);
                    lemma_tokens_adjoin(tokens, start, at, m.end);
                    lemma_repeat_accounts(
                        options,
                        min_times,
                        max_times,
                        per_option,
                        tokens,
                        start,
                        m.end,
                        cx,
                        depth,
                        count + 1,
                        counts.update(j, counts[j] + 1),
                        nodes + tokens.subrange(pos, at) + m.nodes,
                    );
                }
            },
            _ => {},
        }
    }
}

/// A delimited list accounts for the tokens that it took.
pub proof fn lemma_delimited_accounts(
    grammar: GrammarView,
    tokens: Seq<SegmentView>,
    start: int,
    pos: int,
    cx: ContextView,
    depth: nat,
    delimiters: int,
    nodes: Seq<SegmentView>,
    pending: Option<Matched>,
)
    requires
        0 <= start <= pos <= tokens.len(),
        tokens_under_all(nodes) == tokens_under_all(tokens.subrange(start, pos)),
        pending matches Some(d) ==> pos < d.end <= tokens.len() && tokens_under_all(d.nodes)
            == tokens_under_all(tokens.subrange(pos, d.end)),
    ensures
        match_delimited(grammar, tokens, start, pos, cx, depth, delimiters, nodes, pending) matches Ok(
            Some(m),
        ) ==> pos <= m.end && accounts_for(m, tokens, start),
    decreases depth, grammar, tokens.len() - pos + 1, 0nat,
{
    match grammar {
        GrammarView::Delimited { options, delimiter, min_delimiters, allow_trailing } => {
            let base = match pending {
                Some(d) => d.end,
                None => pos,
            };
            let at = if base == start {
                base
            } else {
                next_code(tokens, base)
            };
            lemma_next_code(tokens, base);
            lemma_option_accounts(options, 0, tokens, at, cx, depth, true, seq![], None);
            match pending {
                Some(d) => {
                    lemma_tokens_concat(nodes, d.nodes);
                    lemma_tokens_adjoin(tokens, start, pos, d.end);
                },
                None => {},
            }
            match first_option(options, 0, tokens, at, cx, depth, true, seq![], None) {
                Ok(Some((_, m))) => {
                    let with_pending = match pending {
                        Some(d) => nodes + d.nodes,
                        None => nodes,
                    };
                    let with_element = with_pending + tokens.subrange(base, at) + m.nodes;
                    let so_far = match pending {
                        Some(_) => delimiters + 1,
                        None => delimiters,
                    };
                    let before = next_code(tokens, m.end);
                    lemma_tokens_concat(with_pending, tokens.subrange(base, at));
                    lemma_tokens_concat(with_pending + tokens.subrange(base, at), m.nodes);
                    lemma_tokens_adjoin(tokens, start, base, at);
                    lemma_tokens_adjoin(tokens, start, at, m.end);
                    if !(m.end <= pos || m.end > tokens.len()) {
                        lemma_next_code(tokens, m.end);
                        lemma_match_accounts(*delimiter, tokens, before, cx, depth);
                        match match_grammar(*delimiter, tokens, before, cx, depth) {
                            Ok(Some(d)) => {
                                if !(d.end <= before || d.end > tokens.len()) {
                                    lemma_tokens_concat(tokens.subrange(m.end, before), d.nodes);
                                    lemma_tokens_adjoin(tokens, m.end, before, d.end);
                                    lemma_delimited_accounts(
                                        grammar,
                                        tokens,
                                        start,
                                        m.end,
                                        cx,
                                        depth,
                                        so_far,
                                        with_element,
                                        Some(
                                            Matched {
                                                end: d.end,
                                                nodes: tokens.subrange(m.end, before) + d.nodes,
                                            },
                                        ),
                                    );
                                }
                            },
                            _ => {},
                        }
                    }
                },
                _ => {},
            }
        },
        _ => {},
    }
}

/// Containment of a greedy bracket. Where a bracket opens at `pos` and its
/// closing bracket stands at `close`, a greedy bracketed grammar does not
/// fail, whatever stands between the two: where no fault comes up, its
/// match is one node of kind `Bracketed` that ends just behind `close` and
/// holds every token from `pos` to `close`, each once and in order. No
/// token between the brackets is left outside the node.
pub proof fn lemma_greedy_bracket_contains(
    elements: Seq<GrammarView>,
    bracket_type: Seq<char>,
    tokens: Seq<SegmentView>,
    pos: int,
    close: int,
    cx: ContextView,
    depth: nat,
)
    requires
        0 <= pos < tokens.len(),
        bracket_index(cx.bracket_pairs, bracket_type, 0) matches Some(b) && tokens[pos].kind()
            == cx.bracket_pairs[b].start && matching_close(
            tokens,
            pos + 1,
            1,
            cx.bracket_pairs[b].start,
            cx.bracket_pairs[b].end,
        ) == Some(close),
    ensures
        match match_grammar(
            GrammarView::Bracketed { elements, bracket_type, parse_mode: ParseMode::Greedy },
            tokens,
            pos,
            cx,
            depth,
        ) {
            Ok(Some(m)) => {
                &&& m.end == close + 1
                &&& m.nodes.len() == 1
                &&& m.nodes[0].kind() == SyntaxKind::Bracketed
                &&& tokens_under_all(m.nodes) == tokens_under_all(tokens.subrange(pos, close + 1))
            },
            Ok(None) => false,
            Err(_) => true,
        },
{
    let b = bracket_index(cx.bracket_pairs, bracket_type, 0).unwrap();
    let pair = cx.bracket_pairs[b];
    lemma_matching_close(tokens, pos + 1, 1, pair.start, pair.end);
    let window = tokens.subrange(0, close);
    let opened = seq![tokens[pos]];
    assert(window.subrange(pos, pos + 1) =~= opened);
    lemma_sequence_accounts(elements, 0, window, pos, pos + 1, cx, depth, opened);
    match match_sequence(elements, 0, window, pos, pos + 1, cx, depth, opened) {
        Err(_) => {},
        Ok(inner) => {
            let m = match inner {
                Some(m) => m,
                None => Matched { end: pos + 1, nodes: opened },
            };
            assert(window.subrange(pos, m.end) =~= tokens.subrange(pos, m.end));
            lemma_bracket_accounts(tokens, pos, close, m, ParseMode::Greedy);
            lemma_next_code(window, m.end);
        },
    }
}

} // verus!
