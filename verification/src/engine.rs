//! The matching engine: grammars run against a list of tokens.

use crate::config::{Flag, FluffConfig};
use crate::dialect::Dialect;
use crate::grammar::{grammar_view, grammar_views, lemma_grammar_views_index, Grammar, ParseMode};
use crate::matching::{
    bracket_closed, delimited_done, first_option, flag_value, lemma_match_accounts,
    lemma_option_accounts, match_delimited, match_grammar, match_repeat, match_sequence,
    matching_close, may_take, next_code, pattern_takes, repeat_done, same_ignoring_case,
    upper_byte, ContextView, Fault, Matched,
};
use crate::regexp::{compile_regex, find_regex};
use crate::segments::{
    clone_segments, lemma_views_concat, lemma_views_index, lemma_views_push,
    lemma_views_subrange, views_of, Segment, SegmentView,
};
use crate::syntax::SyntaxKind;
use crate::text::{text_len, to_upper};
use vstd::prelude::*;
use vstd::slice::slice_subrange;
use vstd::string::*;
use vstd::utf8::*;

verus! {

/// A successful match: the position behind the last token taken, and the
/// nodes made.
#[derive(Debug)]
pub struct MatchResult {
    pub end: usize,
    pub nodes: Vec<Segment>,
}

impl DeepView for MatchResult {
    type V = Matched;

    open spec fn deep_view(&self) -> Matched {
        Matched { end: self.end as int, nodes: views_of(self.nodes@) }
    }
}

/// What a parse runs against: the dialect, the flags, and how deeply rules
/// may refer to rules.
pub struct ParseContext<'a> {
    pub dialect: &'a Dialect,
    pub flags: &'a Vec<Flag>,
    pub max_depth: usize,
}

impl<'a> View for ParseContext<'a> {
    type V = ContextView;

    open spec fn view(&self) -> ContextView {
        ContextView {
            rules: self.dialect.deep_view().library,
            bracket_pairs: self.dialect.deep_view().bracket_pairs,
            flags: self.flags.deep_view(),
        }
    }
}

impl<'a> ParseContext<'a> {
    /// The context of a configuration.
    pub fn from_config(config: &'a FluffConfig) -> (r: Self)
        ensures
            *r.dialect == config.dialect,
            *r.flags == config.flags,
            r.max_depth == config.max_parse_depth,
    {
        ParseContext {
            dialect: &config.dialect,
            flags: &config.flags,
            max_depth: config.max_parse_depth,
        }
    }

    /// The dialect.
    pub fn dialect(&self) -> (r: &Dialect)
        ensures
            *r == *self.dialect,
    {
        self.dialect
    }

    /// The value of the flag named `name`: false where it was never set.
    pub fn flag(&self, name: &str) -> (r: bool)
        ensures
            r == flag_value(self@.flags, name@, 0),
    {
        let ghost flags = self.flags.deep_view();
        let mut i: usize = 0;
        while i < self.flags.len()
            invariant
                flags == self.flags.deep_view(),
                i <= self.flags@.len(),
                flag_value(flags, name@, 0) == flag_value(flags, name@, i as int),
            decreases self.flags@.len() - i,
        {
            assert(flags[i as int] == self.flags@[i as int].deep_view());
            if crate::text::same_text(self.flags[i].name.as_str(), name) {
                return self.flags[i].value;
            }
            i += 1;
        }
        false
    }
}

/// The model of the outcome of a match.
pub open spec fn outcome_view(r: Result<Option<MatchResult>, Fault>) -> Result<
    Option<Matched>,
    Fault,
> {
    match r {
        Ok(Some(m)) => Ok(Some(m.deep_view())),
        Ok(None) => Ok(None),
        Err(f) => Err(f),
    }
}

/// The model of the outcome of a choice.
pub open spec fn choice_view(r: Result<Option<(usize, MatchResult)>, Fault>) -> Result<
    Option<(int, Matched)>,
    Fault,
> {
    match r {
        Ok(Some((j, m))) => Ok(Some((j as int, m.deep_view()))),
        Ok(None) => Ok(None),
        Err(f) => Err(f),
    }
}

/// How often each option has been taken, as numbers without bound.
pub open spec fn counts_view(counts: Seq<usize>) -> Seq<int> {
    Seq::new(counts.len(), |j: int| counts[j] as int)
}

/// The position of the first code token at or behind `pos`.
pub fn next_code_at(tokens: &[Segment], pos: usize) -> (r: usize)
    requires
        pos <= tokens@.len(),
    ensures
        r == next_code(views_of(tokens@), pos as int),
        pos <= r <= tokens@.len(),
{
    let ghost views = views_of(tokens@);
    proof {
        lemma_views_index(tokens@);
    }
    let n = tokens.len();
    let mut i: usize = pos;
    while i < n
        invariant
            n == tokens@.len(),
            views == views_of(tokens@),
            views.len() == n,
            forall|j: int| 0 <= j < n ==> views[j] == (#[trigger] tokens@[j]).deep_view(),
            pos <= i <= n,
            next_code(views, pos as int) == next_code(views, i as int),
        decreases n - i,
    {
        if tokens[i].is_code() {
            return i;
        }
        i += 1;
    }
    i
}

/// The byte as an upper case letter, if it is an ASCII lower case letter.
fn upper(b: u8) -> (r: u8)
    ensures
        r == upper_byte(b),
{
    if b >= 97 && b <= 122 {
        b - 32
    } else {
        b
    }
}

/// Whether two texts are the same but for the case of ASCII letters.
pub fn text_matches(raw: &str, template: &str) -> (r: bool)
    ensures
        r == same_ignoring_case(encode_utf8(raw@), encode_utf8(template@)),
{
    let a = raw.as_bytes();
    let b = template.as_bytes();
    if a.len() != b.len() {
        return false;
    }
    let mut i: usize = 0;
    while i < a.len()
        invariant
            a@ == encode_utf8(raw@),
            b@ == encode_utf8(template@),
            a@.len() == b@.len(),
            i <= a@.len(),
            forall|j: int| 0 <= j < i ==> upper_byte(#[trigger] a@[j]) == upper_byte(b@[j]),
        decreases a@.len() - i,
    {
        if upper(a[i]) != upper(b[i]) {
            return false;
        }
        i += 1;
    }
    true
}

/// Whether the regular expression `pattern` takes the text `raw` whole once
/// it is put in upper case.
pub fn regex_takes(pattern: &str, raw: &str) -> (r: bool)
    ensures
        r == pattern_takes(pattern@, encode_utf8(raw@)),
{
    proof {
        encode_utf8_decode_utf8(raw@);
    }
    let upper = to_upper(raw);
    match compile_regex(pattern) {
        Some(regex) => match find_regex(&regex, upper.as_str()) {
            Some((start, end)) => start == 0 && end == text_len(upper.as_str()),
            None => false,
        },
        None => false,
    }
}

/// The position of the bracket that closes the one opened before `pos`.
pub fn find_close(tokens: &[Segment], pos: usize, start: SyntaxKind, end: SyntaxKind) -> (r: Option<
    usize,
>)
    requires
        pos <= tokens@.len(),
    ensures
        r is Some <==> matching_close(views_of(tokens@), pos as int, 1, start, end) is Some,
        r matches Some(close) ==> matching_close(views_of(tokens@), pos as int, 1, start, end)
            == Some(close as int) && pos <= close < tokens@.len(),
{
    let ghost views = views_of(tokens@);
    proof {
        lemma_views_index(tokens@);
    }
    let n = tokens.len();
    let mut i: usize = pos;
    let mut open: u128 = 1;
    while i < n
        invariant
            n == tokens@.len(),
            views == views_of(tokens@),
            views.len() == n,
            forall|j: int| 0 <= j < n ==> views[j] == (#[trigger] tokens@[j]).deep_view(),
            pos <= i <= n,
            1 <= open <= i - pos + 1,
            matching_close(views, pos as int, 1, start, end) == matching_close(
                views,
                i as int,
                open as int,
                start,
                end,
            ),
        decreases n - i,
    {
        let kind = tokens[i].get_type();
        if kind == end {
            if open <= 1 {
                return Some(i);
            }
            open -= 1;
        } else if kind == start {
            open += 1;
        }
        i += 1;
    }
    None
}

/// Puts copies of the tokens from `from` up to `to` behind `nodes`.
pub fn append_tokens(nodes: &mut Vec<Segment>, tokens: &[Segment], from: usize, to: usize)
    requires
        from <= to <= tokens@.len(),
    ensures
        views_of(final(nodes)@) == views_of(old(nodes)@) + views_of(tokens@).subrange(
            from as int,
            to as int,
        ),
{
    let part = slice_subrange(tokens, from, to);
    let mut copies = clone_segments(part);
    proof {
        lemma_views_subrange(tokens@, from as int, to as int);
        lemma_views_concat(nodes@, copies@);
    }
    nodes.append(&mut copies);
}

/// Puts `more` behind `nodes`.
pub fn append_nodes(nodes: &mut Vec<Segment>, more: Vec<Segment>)
    ensures
        views_of(final(nodes)@) == views_of(old(nodes)@) + views_of(more@),
{
    let mut more = more;
    proof {
        lemma_views_concat(nodes@, more@);
    }
    nodes.append(&mut more);
}

/// The one segment as a list.
pub fn single(segment: Segment) -> (r: Vec<Segment>)
    ensures
        views_of(r@) == seq![segment.deep_view()],
{
    let mut r: Vec<Segment> = Vec::new();
    proof {
        lemma_views_push(r@, segment);
        assert(views_of(r@) =~= Seq::<SegmentView>::empty());
    }
    r.push(segment);
    assert(views_of(r@) =~= seq![segment.deep_view()]);
    r
}

/// The empty list of segments.
pub fn no_nodes() -> (r: Vec<Segment>)
    ensures
        views_of(r@) == Seq::<SegmentView>::empty(),
{
    let r: Vec<Segment> = Vec::new();
    assert(views_of(r@) =~= Seq::<SegmentView>::empty());
    r
}

/// Whether the grammar is one that looks at one place of the token list
/// and at no other grammar.
pub open spec fn is_simple(grammar: Grammar) -> bool {
    grammar is Nothing || grammar is Anything || grammar is Token || grammar is Text
        || grammar is Regex || grammar is Meta || grammar is Conditional || grammar is KeywordOf
}

/// The match of a grammar that looks at one place of the token list and at
/// no other grammar.
fn match_simple(grammar: &Grammar, tokens: &[Segment], pos: usize, cx: &ParseContext) -> (r: Result<
    Option<MatchResult>,
    Fault,
>)
    requires
        pos <= tokens@.len(),
        is_simple(*grammar),
    ensures
        forall|depth: nat|
            outcome_view(r) == #[trigger] match_grammar(
                grammar_view(*grammar),
                views_of(tokens@),
                pos as int,
                cx@,
                depth,
            ),
{
    let ghost views = views_of(tokens@);
    proof {
        lemma_views_index(tokens@);
    }
    let n = tokens.len();
    match grammar {
        Grammar::Anything => {
            let mut nodes = no_nodes();
            append_tokens(&mut nodes, tokens, pos, n);
            assert(views_of(nodes@) =~= views.subrange(pos as int, n as int));
            Ok(Some(MatchResult { end: n, nodes }))
        },
        Grammar::Token { kind, becomes } => {
            if pos < n && tokens[pos].get_type() == *kind {
                Ok(Some(MatchResult { end: pos + 1, nodes: single(tokens[pos].retyped(*becomes)) }))
            } else {
                Ok(None)
            }
        },
        Grammar::Regex { pattern, becomes } => {
            if pos < n {
                match tokens[pos].leaf_text() {
                    Some(raw) => {
                        if tokens[pos].is_code() && regex_takes(pattern.as_str(), raw) {
                            Ok(
                                Some(
                                    MatchResult {
                                        end: pos + 1,
                                        nodes: single(tokens[pos].retyped(*becomes)),
                                    },
                                ),
                            )
                        } else {
                            Ok(None)
                        }
                    },
                    None => Ok(None),
                }
            } else {
                Ok(None)
            }
        },
        Grammar::Text { template, becomes } => {
            if pos < n {
                match tokens[pos].leaf_text() {
                    Some(raw) => {
                        if tokens[pos].is_code() && text_matches(raw, template.as_str()) {
                            Ok(
                                Some(
                                    MatchResult {
                                        end: pos + 1,
                                        nodes: single(tokens[pos].retyped(*becomes)),
                                    },
                                ),
                            )
                        } else {
                            Ok(None)
                        }
                    },
                    None => Ok(None),
                }
            } else {
                Ok(None)
            }
        },
        Grammar::Meta { kind } => Ok(
            Some(MatchResult { end: pos, nodes: single(Segment::marker(*kind)) }),
        ),
        Grammar::Conditional { kind, flag, expected } => {
            if cx.flag(flag.as_str()) == *expected {
                Ok(Some(MatchResult { end: pos, nodes: single(Segment::marker(*kind)) }))
            } else {
                Ok(Some(MatchResult { end: pos, nodes: no_nodes() }))
            }
        },
        Grammar::KeywordOf { .. } => Err(Fault::Unexpanded),
        _ => Ok(None),
    }
}

/// The match of `grammar` at `pos`, with rules referring to rules at most
/// `depth` deep.
pub fn match_at(grammar: &Grammar, tokens: &[Segment], pos: usize, cx: &ParseContext, depth: usize) -> (r:
    Result<Option<MatchResult>, Fault>)
    requires
        pos <= tokens@.len(),
    ensures
        outcome_view(r) == match_grammar(
            grammar_view(*grammar),
            views_of(tokens@),
            pos as int,
            cx@,
            depth as nat,
        ),
    decreases depth, *grammar, tokens@.len() + 2, 0nat,
{
    proof {
        lemma_views_index(tokens@);
    }
    match grammar {
        Grammar::Optional { inner } => {
            match match_at(&**inner, tokens, pos, cx, depth) {
                Ok(None) => Ok(Some(MatchResult { end: pos, nodes: no_nodes() })),
                other => other,
            }
        },
        Grammar::Excluding { inner, exclude } => {
            match match_at(&**exclude, tokens, pos, cx, depth) {
                Ok(Some(_)) => Ok(None),
                Ok(None) => match_at(&**inner, tokens, pos, cx, depth),
                Err(f) => Err(f),
            }
        },
        Grammar::Node { kind, inner } => {
            match match_at(&**inner, tokens, pos, cx, depth) {
                Ok(Some(m)) => {
                    proof {
                        lemma_views_index(m.nodes@);
                    }
                    if m.nodes.len() == 0 {
                        Ok(Some(m))
                    } else {
                        let end = m.end;
                        Ok(
                            Some(
                                MatchResult {
                                    end,
                                    nodes: single(Segment::node_over(*kind, m.nodes)),
                                },
                            ),
                        )
                    }
                },
                other => other,
            }
        },
        Grammar::Ref { name, exclude } => {
            match exclude {
                Some(e) => {
                    match match_at(&**e, tokens, pos, cx, depth) {
                        Ok(Some(_)) => {
                            return Ok(None);
                        },
                        Ok(None) => {},
                        Err(f) => {
                            return Err(f);
                        },
                    }
                },
                None => {},
            }
            match cx.dialect.grammar(name.as_str()) {
                None => Err(Fault::UnknownRule),
                Some(rule) => {
                    if depth == 0 {
                        Err(Fault::TooDeep)
                    } else {
                        match_at(rule, tokens, pos, cx, depth - 1)
                    }
                },
            }
        },
        Grammar::Sequence { elements } => match_sequence_at(
            elements,
            tokens,
            pos,
            pos,
            cx,
            depth,
            no_nodes(),
        ),
        Grammar::OneOf { options } => {
            let counts: Vec<usize> = Vec::new();
            assert(counts_view(counts@) =~= Seq::<int>::empty());
            match first_option_at(options, tokens, pos, cx, depth, false, &counts, None) {
                Ok(Some((_, m))) => Ok(Some(m)),
                Ok(None) => Ok(None),
                Err(f) => Err(f),
            }
        },
        Grammar::AnyNumberOf { options, min_times, max_times, max_times_per_element } => {
            match_repeat_at(
                options,
                *min_times,
                *max_times,
                *max_times_per_element,
                tokens,
                pos,
                cx,
                depth,
            )
        },
        Grammar::Delimited { .. } => match_delimited_at(grammar, tokens, pos, cx, depth),
        Grammar::Bracketed { elements, bracket_type, parse_mode } => match_bracketed_at(
            elements,
            bracket_type.as_str(),
            *parse_mode,
            tokens,
            pos,
            cx,
            depth,
        ),
        _ => match_simple(grammar, tokens, pos, cx),
    }
}

/// What a bracketed grammar comes to at `pos`.
pub open spec fn match_bracketed(
    elements: Seq<crate::grammar::GrammarView>,
    bracket_type: Seq<char>,
    parse_mode: ParseMode,
    tokens: Seq<SegmentView>,
    pos: int,
    cx: ContextView,
    depth: nat,
) -> Result<Option<Matched>, Fault> {
    match_grammar(
        crate::grammar::GrammarView::Bracketed { elements, bracket_type, parse_mode },
        tokens,
        pos,
        cx,
        depth,
    )
}

/// The match of the elements between the brackets of the type
/// `bracket_type`.
pub fn match_bracketed_at(
    elements: &Vec<Grammar>,
    bracket_type: &str,
    parse_mode: ParseMode,
    tokens: &[Segment],
    pos: usize,
    cx: &ParseContext,
    depth: usize,
) -> (r: Result<Option<MatchResult>, Fault>)
    requires
        pos <= tokens@.len(),
    ensures
        outcome_view(r) == match_bracketed(
            grammar_views(elements@),
            bracket_type@,
            parse_mode,
            views_of(tokens@),
            pos as int,
            cx@,
            depth as nat,
        ),
    decreases depth, *elements, elements@.len() + 1, 0nat,
{
    let ghost views = views_of(tokens@);
    proof {
        lemma_views_index(tokens@);
    }
    let n = tokens.len();
    match cx.dialect.bracket_pair(bracket_type) {
        None => Err(Fault::UnknownBracket),
        Some((start, end)) => {
            if pos < n && tokens[pos].get_type() == start {
                match find_close(tokens, pos + 1, start, end) {
                    None => Ok(None),
                    Some(close) => {
                        let window = slice_subrange(tokens, 0, close);
                        let opened = single(tokens[pos].clone_segment());
                        proof {
                            lemma_views_subrange(tokens@, 0, close as int);
                        }
                        match match_sequence_at(elements, window, pos, pos + 1, cx, depth, opened) {
                            Err(f) => Err(f),
                            Ok(inner) => {
                                let inner = match inner {
                                    Some(m) => m,
                                    None => MatchResult {
                                        end: pos + 1,
                                        nodes: single(tokens[pos].clone_segment()),
                                    },
                                };
                                proof {
                                    let window_views = views.subrange(0, close as int);
                                    assert(window_views.subrange(pos as int, pos + 1)
                                        =~= seq![views[pos as int]]);
                                    crate::matching::lemma_tokens_single(views[pos as int]);
                                    crate::matching::lemma_sequence_accounts(
                                        grammar_views(elements@),
                                        0,
                                        window_views,
                                        pos as int,
                                        pos + 1,
                                        cx@,
                                        depth as nat,
                                        seq![views[pos as int]],
                                    );
                                }
                                close_bracket(tokens, pos, close, inner, parse_mode)
                            },
                        }
                    },
                }
            } else {
                Ok(None)
            }
        },
    }
}

/// The bracketed node, from the match of what stands between the
/// brackets.
fn close_bracket(tokens: &[Segment], pos: usize, close: usize, inner: MatchResult, parse_mode: ParseMode) -> (r:
    Result<Option<MatchResult>, Fault>)
    requires
        pos < inner.end <= close < tokens@.len(),
    ensures
        outcome_view(r) == bracket_closed(
            views_of(tokens@),
            pos as int,
            close as int,
            inner.deep_view(),
            parse_mode,
        ),
{
    let ghost views = views_of(tokens@);
    let ghost inner_view = inner.deep_view();
    proof {
        lemma_views_index(tokens@);
        lemma_views_subrange(tokens@, 0, close as int);
    }
    let n = tokens.len();
    let window = slice_subrange(tokens, 0, close);
    let tail = next_code_at(window, inner.end);
    let mut children = inner.nodes;
    if tail >= close {
        append_tokens(&mut children, tokens, inner.end, close);
        append_tokens(&mut children, tokens, close, close + 1);
        proof {
            assert(views.subrange(close as int, close + 1) =~= seq![views[close as int]]);
        }
        Ok(
            Some(
                MatchResult {
                    end: close + 1,
                    nodes: single(Segment::node_over(SyntaxKind::Bracketed, children)),
                },
            ),
        )
    } else if parse_mode == ParseMode::Greedy {
        append_tokens(&mut children, tokens, inner.end, tail);
        let mut lost = no_nodes();
        append_tokens(&mut lost, tokens, tail, close);
        assert(views_of(lost@) =~= views.subrange(tail as int, close as int));
        let unparsable = Segment::node_over(SyntaxKind::Unparsable, lost);
        append_nodes(&mut children, single(unparsable));
        append_tokens(&mut children, tokens, close, close + 1);
        proof {
            assert(views.subrange(close as int, close + 1) =~= seq![views[close as int]]);
        }
        Ok(
            Some(
                MatchResult {
                    end: close + 1,
                    nodes: single(Segment::node_over(SyntaxKind::Bracketed, children)),
                },
            ),
        )
    } else {
        Ok(None)
    }
}

/// The match of the elements, one after the other, behind a start that was
/// made before: the sequence began at `start`, has come to `pos` and has
/// made `nodes`.
pub fn match_sequence_at(
    elements: &Vec<Grammar>,
    tokens: &[Segment],
    start: usize,
    pos: usize,
    cx: &ParseContext,
    depth: usize,
    nodes: Vec<Segment>,
) -> (r: Result<Option<MatchResult>, Fault>)
    requires
        start <= pos <= tokens@.len(),
    ensures
        outcome_view(r) == match_sequence(
            grammar_views(elements@),
            0,
            views_of(tokens@),
            start as int,
            pos as int,
            cx@,
            depth as nat,
            views_of(nodes@),
        ),
    decreases depth, *elements, elements@.len(), 0nat,
{
    let ghost views = views_of(tokens@);
    let ghost grammars = grammar_views(elements@);
    let ghost goal = match_sequence(
        grammars,
        0,
        views,
        start as int,
        pos as int,
        cx@,
        depth as nat,
        views_of(nodes@),
    );
    proof {
        lemma_grammar_views_index(elements@);
        lemma_views_index(tokens@);
    }
    let ghost first_nodes = views_of(nodes@);
    let mut made = nodes;
    let mut cur: usize = pos;
    let mut k: usize = 0;
    while k < elements.len()
        invariant
            views == views_of(tokens@),
            views.len() == tokens@.len(),
            first_nodes == views_of(nodes@),
            goal == match_sequence(
                grammars,
                0,
                views,
                start as int,
                pos as int,
                cx@,
                depth as nat,
                first_nodes,
            ),
            grammars == grammar_views(elements@),
            grammars.len() == elements@.len(),
            forall|i: int|
                0 <= i < elements@.len() ==> grammars[i] == (#[trigger] elements@[i]).deep_view(),
            k <= elements@.len(),
            start <= cur <= tokens@.len(),
            goal == match_sequence(
                grammars,
                k as int,
                views,
                start as int,
                cur as int,
                cx@,
                depth as nat,
                views_of(made@),
            ),
        decreases elements@.len() - k,
    {
        let at = if cur == start {
            cur
        } else {
            next_code_at(tokens, cur)
        };
        assert(grammars[k as int] == grammar_view(elements@[k as int]));
        proof {
            lemma_match_accounts(grammars[k as int], views, at as int, cx@, depth as nat);
        }
        match match_at(&elements[k], tokens, at, cx, depth) {
            Err(f) => {
                return Err(f);
            },
            Ok(None) => {
                return Ok(None);
            },
            Ok(Some(m)) => {
                if m.end <= at {
                    append_nodes(&mut made, m.nodes);
                } else {
                    append_tokens(&mut made, tokens, cur, at);
                    append_nodes(&mut made, m.nodes);
                    cur = m.end;
                }
            },
        }
        k += 1;
    }
    Ok(Some(MatchResult { end: cur, nodes: made }))
}

/// Whether the `j`-th option may still be taken.
fn may_take_at(counts: &Vec<usize>, j: usize, per_option: Option<usize>) -> (r: bool)
    ensures
        r == may_take(counts_view(counts@), j as int, per_option),
{
    match per_option {
        Some(limit) => j >= counts.len() || counts[j] < limit,
        None => true,
    }
}

/// The first of the options that matches at `pos`, with its match.
pub fn first_option_at(
    options: &Vec<Grammar>,
    tokens: &[Segment],
    pos: usize,
    cx: &ParseContext,
    depth: usize,
    must_advance: bool,
    counts: &Vec<usize>,
    per_option: Option<usize>,
) -> (r: Result<Option<(usize, MatchResult)>, Fault>)
    requires
        pos <= tokens@.len(),
    ensures
        choice_view(r) == first_option(
            grammar_views(options@),
            0,
            views_of(tokens@),
            pos as int,
            cx@,
            depth as nat,
            must_advance,
            counts_view(counts@),
            per_option,
        ),
    decreases depth, *options, 0nat, options@.len(),
{
    let ghost views = views_of(tokens@);
    let ghost grammars = grammar_views(options@);
    let ghost goal = first_option(
        grammars,
        0,
        views,
        pos as int,
        cx@,
        depth as nat,
        must_advance,
        counts_view(counts@),
        per_option,
    );
    proof {
        lemma_grammar_views_index(options@);
        lemma_views_index(tokens@);
    }
    let mut j: usize = 0;
    while j < options.len()
        invariant
            views == views_of(tokens@),
            views.len() == tokens@.len(),
            goal == first_option(
                grammars,
                0,
                views,
                pos as int,
                cx@,
                depth as nat,
                must_advance,
                counts_view(counts@),
                per_option,
            ),
            grammars == grammar_views(options@),
            grammars.len() == options@.len(),
            forall|i: int|
                0 <= i < options@.len() ==> grammars[i] == (#[trigger] options@[i]).deep_view(),
            j <= options@.len(),
            pos <= tokens@.len(),
            goal == first_option(
                grammars,
                j as int,
                views,
                pos as int,
                cx@,
                depth as nat,
                must_advance,
                counts_view(counts@),
                per_option,
            ),
        decreases options@.len() - j,
    {
        assert(grammars[j as int] == grammar_view(options@[j as int]));
        if may_take_at(counts, j, per_option) {
            match match_at(&options[j], tokens, pos, cx, depth) {
                Err(f) => {
                    return Err(f);
                },
                Ok(Some(m)) => {
                    if !(must_advance && m.end <= pos) {
                        return Ok(Some((j, m)));
                    }
                },
                Ok(None) => {},
            }
        }
        j += 1;
    }
    Ok(None)
}

/// What a repetition comes to when it ends at `pos` after `count` rounds.
fn repeat_done_at(min_times: usize, pos: usize, count: usize, nodes: Vec<Segment>) -> (r: Result<
    Option<MatchResult>,
    Fault,
>)
    ensures
        outcome_view(r) == repeat_done(min_times, pos as int, count as int, views_of(nodes@)),
{
    if count >= min_times {
        Ok(Some(MatchResult { end: pos, nodes }))
    } else {
        Ok(None)
    }
}

/// The repetition of the options from `start` on.
pub fn match_repeat_at(
    options: &Vec<Grammar>,
    min_times: usize,
    max_times: Option<usize>,
    per_option: Option<usize>,
    tokens: &[Segment],
    start: usize,
    cx: &ParseContext,
    depth: usize,
) -> (r: Result<Option<MatchResult>, Fault>)
    requires
        start <= tokens@.len(),
    ensures
        outcome_view(r) == match_repeat(
            grammar_views(options@),
            min_times,
            max_times,
            per_option,
            views_of(tokens@),
            start as int,
            start as int,
            cx@,
            depth as nat,
            0,
            Seq::new(grammar_views(options@).len(), |j: int| 0int),
            seq![],
        ),
    decreases depth, *options, tokens@.len() - start + 1, 0nat,
{
    let ghost views = views_of(tokens@);
    let ghost grammars = grammar_views(options@);
    proof {
        lemma_grammar_views_index(options@);
        lemma_views_index(tokens@);
    }
    let mut counts: Vec<usize> = Vec::new();
    let mut i: usize = 0;
    while i < options.len()
        invariant
            i <= options@.len(),
            counts@.len() == i,
            forall|j: int| 0 <= j < i ==> counts@[j] == 0,
        decreases options@.len() - i,
    {
        counts.push(0);
        i += 1;
    }
    assert(counts_view(counts@) =~= Seq::new(grammars.len(), |j: int| 0int));
    let ghost goal = match_repeat(
        grammars,
        min_times,
        max_times,
        per_option,
        views,
        start as int,
        start as int,
        cx@,
        depth as nat,
        0,
        counts_view(counts@),
        seq![],
    );
    let ghost zeros = counts_view(counts@);
    let mut nodes = no_nodes();
    let mut cur: usize = start;
    let mut count: usize = 0;
    loop
        invariant
            views == views_of(tokens@),
            views.len() == tokens@.len(),
            goal == match_repeat(
                grammars,
                min_times,
                max_times,
                per_option,
                views,
                start as int,
                start as int,
                cx@,
                depth as nat,
                0,
                zeros,
                seq![],
            ),
            zeros == Seq::new(grammars.len(), |j: int| 0int),
            grammars == grammar_views(options@),
            grammars.len() == options@.len(),
            counts@.len() == options@.len(),
            start <= cur <= tokens@.len(),
            count <= cur - start,
            forall|j: int| 0 <= j < counts@.len() ==> counts@[j] <= count,
            goal == match_repeat(
                grammars,
                min_times,
                max_times,
                per_option,
                views,
                start as int,
                cur as int,
                cx@,
                depth as nat,
                count as int,
                counts_view(counts@),
                views_of(nodes@),
            ),
        decreases tokens@.len() - cur,
    {
        let full = match max_times {
            Some(most) => count >= most,
            None => false,
        };
        if full {
            return repeat_done_at(min_times, cur, count, nodes);
        }
        let at = if cur == start {
            cur
        } else {
            next_code_at(tokens, cur)
        };
        proof {
            lemma_option_accounts(
                grammars,
                0,
                views,
                at as int,
                cx@,
                depth as nat,
                true,
                counts_view(counts@),
                per_option,
            );
        }
        match first_option_at(options, tokens, at, cx, depth, true, &counts, per_option) {
            Err(f) => {
                return Err(f);
            },
            Ok(None) => {
                return repeat_done_at(min_times, cur, count, nodes);
            },
            Ok(Some((j, m))) => {
                if m.end <= cur || j >= counts.len() {
                    return repeat_done_at(min_times, cur, count, nodes);
                }
                let ghost before_counts = counts_view(counts@);
                append_tokens(&mut nodes, tokens, cur, at);
                append_nodes(&mut nodes, m.nodes);
                let taken = counts[j] + 1;
                counts.set(j, taken);
                assert(counts_view(counts@) =~= before_counts.update(
                    j as int,
                    before_counts[j as int] + 1,
                ));
                count += 1;
                cur = m.end;
            },
        }
    }
}

/// What a delimited list comes to when it ends at `pos` with `delimiters`
/// delimiters.
fn delimited_done_at(min_delimiters: usize, pos: usize, delimiters: usize, nodes: Vec<Segment>) -> (r:
    Result<Option<MatchResult>, Fault>)
    ensures
        outcome_view(r) == delimited_done(
            min_delimiters,
            pos as int,
            delimiters as int,
            views_of(nodes@),
        ),
{
    if delimiters >= min_delimiters {
        Ok(Some(MatchResult { end: pos, nodes }))
    } else {
        Ok(None)
    }
}

/// The model of a delimiter that waits to be taken into the list.
pub open spec fn pending_view(pending: Option<MatchResult>) -> Option<Matched> {
    match pending {
        Some(d) => Some(d.deep_view()),
        None => None,
    }
}

/// The delimited list from `start` on.
pub fn match_delimited_at(
    grammar: &Grammar,
    tokens: &[Segment],
    start: usize,
    cx: &ParseContext,
    depth: usize,
) -> (r: Result<Option<MatchResult>, Fault>)
    requires
        start <= tokens@.len(),
    ensures
        outcome_view(r) == match_delimited(
            grammar_view(*grammar),
            views_of(tokens@),
            start as int,
            start as int,
            cx@,
            depth as nat,
            0,
            seq![],
            None,
        ),
    decreases depth, *grammar, tokens@.len() - start + 1, 0nat,
{
    let ghost views = views_of(tokens@);
    let ghost model = grammar_view(*grammar);
    match grammar {
        Grammar::Delimited { options, delimiter, min_delimiters, allow_trailing } => {
            let ghost goal = match_delimited(
                model,
                views,
                start as int,
                start as int,
                cx@,
                depth as nat,
                0,
                seq![],
                None,
            );
            let none: Vec<usize> = Vec::new();
            assert(counts_view(none@) =~= Seq::<int>::empty());
            proof {
                lemma_views_index(tokens@);
            }
            let mut nodes = no_nodes();
            let mut cur: usize = start;
            let mut delimiters: usize = 0;
            let mut pending: Option<MatchResult> = None;
            loop
                invariant
                    views == views_of(tokens@),
                    views.len() == tokens@.len(),
                    goal == match_delimited(
                        model,
                        views,
                        start as int,
                        start as int,
                        cx@,
                        depth as nat,
                        0,
                        seq![],
                        None,
                    ),
                    model == grammar_view(*grammar),
                    *grammar == (Grammar::Delimited {
                        options: *options,
                        delimiter: *delimiter,
                        min_delimiters: *min_delimiters,
                        allow_trailing: *allow_trailing,
                    }),
                    counts_view(none@) == Seq::<int>::empty(),
                    start <= cur <= tokens@.len(),
                    delimiters <= cur - start,
                    pending matches Some(d) ==> cur < d.end <= tokens@.len(),
                    goal == match_delimited(
                        model,
                        views,
                        start as int,
                        cur as int,
                        cx@,
                        depth as nat,
                        delimiters as int,
                        views_of(nodes@),
                        pending_view(pending),
                    ),
                decreases tokens@.len() - cur,
            {
                let base = match &pending {
                    Some(d) => d.end,
                    None => cur,
                };
                let at = if base == start {
                    base
                } else {
                    next_code_at(tokens, base)
                };
                proof {
                    lemma_option_accounts(
                        grammar_views(options@),
                        0,
                        views,
                        at as int,
                        cx@,
                        depth as nat,
                        true,
                        seq![],
                        None,
                    );
                }
                match first_option_at(options, tokens, at, cx, depth, true, &none, None) {
                    Err(f) => {
                        return Err(f);
                    },
                    Ok(None) => {
                        match pending {
                            None => {
                                if cur == start {
                                    return Ok(None);
                                } else {
                                    return delimited_done_at(
                                        *min_delimiters,
                                        cur,
                                        delimiters,
                                        nodes,
                                    );
                                }
                            },
                            Some(d) => {
                                if *allow_trailing {
                                    let end = d.end;
                                    append_nodes(&mut nodes, d.nodes);
                                    return delimited_done_at(
                                        *min_delimiters,
                                        end,
                                        delimiters + 1,
                                        nodes,
                                    );
                                } else {
                                    return delimited_done_at(
                                        *min_delimiters,
                                        cur,
                                        delimiters,
                                        nodes,
                                    );
                                }
                            },
                        }
                    },
                    Ok(Some((_, m))) => {
                        if m.end <= cur {
                            return delimited_done_at(*min_delimiters, cur, delimiters, nodes);
                        }
                        let so_far = match pending {
                            Some(d) => {
                                append_nodes(&mut nodes, d.nodes);
                                delimiters + 1
                            },
                            None => delimiters,
                        };
                        append_tokens(&mut nodes, tokens, base, at);
                        let element_end = m.end;
                        append_nodes(&mut nodes, m.nodes);
                        let before = next_code_at(tokens, element_end);
                        proof {
                            lemma_match_accounts(
                                grammar_view(**delimiter),
                                views,
                                before as int,
                                cx@,
                                depth as nat,
                            );
                        }
                        match match_at(&**delimiter, tokens, before, cx, depth) {
                            Err(f) => {
                                return Err(f);
                            },
                            Ok(Some(d)) => {
                                if d.end <= before {
                                    return delimited_done_at(
                                        *min_delimiters,
                                        element_end,
                                        so_far,
                                        nodes,
                                    );
                                }
                                let mut held = no_nodes();
                                append_tokens(&mut held, tokens, element_end, before);
                                append_nodes(&mut held, d.nodes);
                                assert(views_of(held@) =~= views.subrange(
                                    element_end as int,
                                    before as int,
                                ) + views_of(d.nodes@));
                                pending = Some(MatchResult { end: d.end, nodes: held });
                                cur = element_end;
                                delimiters = so_far;
                            },
                            Ok(None) => {
                                return delimited_done_at(
                                    *min_delimiters,
                                    element_end,
                                    so_far,
                                    nodes,
                                );
                            },
                        }
                    },
                }
            }
        },
        _ => Ok(None),
    }
}

impl Grammar {
    /// Matches the grammar against `segments` from the position `idx` on,
    /// with rules referring to rules as deeply as the context allows.
    pub fn match_segments(&self, segments: &[Segment], idx: usize, parse_context: &ParseContext) -> (r:
        Result<Option<MatchResult>, Fault>)
        requires
            idx <= segments@.len(),
        ensures
            outcome_view(r) == match_grammar(
                grammar_view(*self),
                views_of(segments@),
                idx as int,
                parse_context@,
                parse_context.max_depth as nat,
            ),
    {
        match_at(self, segments, idx, parse_context, parse_context.max_depth)
    }
}

} // verus!
