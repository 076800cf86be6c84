//! What expanding a dialect is good for: matching against a closed dialect
//! never comes upon a reference that leads nowhere.

use crate::dialect::{
    bracket_index, is_expanded, lemma_rule_index, lookup_rule, DialectView,
};
use crate::grammar::GrammarView;
use crate::matching::{
    first_option, match_delimited, match_grammar, match_repeat, match_sequence, matching_close,
    next_code, ContextView, Fault, FlagView, Matched,
};
use crate::resolve::{all_closed, closed, lemma_rules_closed};
use crate::segments::SegmentView;
use vstd::prelude::*;

verus! {

/// Every rule of the context is closed with respect to the context.
pub open spec fn context_closed(cx: ContextView) -> bool {
    forall|i: int|
        0 <= i < cx.rules.len() ==> closed((#[trigger] cx.rules[i]).grammar, cx.rules, cx.bracket_pairs)
}

/// The only fault that is left: rules refer to rules too deeply.
pub open spec fn only_too_deep<T>(outcome: Result<T, Fault>) -> bool {
    match outcome {
        Ok(_) => true,
        Err(fault) => fault == Fault::TooDeep,
    }
}

/// Where all of the grammars are closed, each one is.
pub proof fn lemma_each_closed(grammars: Seq<GrammarView>, cx: ContextView, i: int)
    requires
        all_closed(grammars, cx.rules, cx.bracket_pairs),
        0 <= i < grammars.len(),
    ensures
        closed(grammars[i], cx.rules, cx.bracket_pairs),
    decreases grammars.len(),
{
    if i < grammars.len() - 1 {
        assert(grammars.drop_last()[i] == grammars[i]);
        lemma_each_closed(grammars.drop_last(), cx, i);
    }
}

/// A closed grammar matched against a closed context does not come upon
/// an unknown rule, an unknown bracket pair or a choice of words that was
/// not resolved.
pub proof fn lemma_closed_match(
    grammar: GrammarView,
    tokens: Seq<SegmentView>,
    pos: int,
    cx: ContextView,
    depth: nat,
)
    requires
        context_closed(cx),
        closed(grammar, cx.rules, cx.bracket_pairs),
    ensures
        only_too_deep(match_grammar(grammar, tokens, pos, cx, depth)),
    decreases depth, grammar, tokens.len() + 2, 0nat,
{
    match grammar {
        GrammarView::Optional { inner } => {
            lemma_closed_match(*inner, tokens, pos, cx, depth);
        },
        GrammarView::Excluding { inner, exclude } => {
            lemma_closed_match(*inner, tokens, pos, cx, depth);
            lemma_closed_match(*exclude, tokens, pos, cx, depth);
        },
        GrammarView::Node { inner, .. } => {
            lemma_closed_match(*inner, tokens, pos, cx, depth);
        },
        GrammarView::Ref { name, exclude } => {
            match exclude {
                Some(e) => {
                    lemma_closed_match(*e, tokens, pos, cx, depth);
                },
                None => {},
            }
            lemma_rule_index(cx.rules, name, 0);
            match lookup_rule(cx.rules, name) {
                Some(rule) => {
                    if depth > 0 {
                        lemma_closed_match(rule, tokens, pos, cx, (depth - 1) as nat);
                    }
                },
                None => {},
            }
        },
        GrammarView::Sequence { elements } => {
            lemma_closed_sequence(elements, 0, tokens, pos, pos, cx, depth, seq![]);
        },
        GrammarView::OneOf { options } => {
            lemma_closed_option(options, 0, tokens, pos, cx, depth, false, seq![], None);
        },
        GrammarView::AnyNumberOf { options, min_times, max_times, max_times_per_element } => {
            lemma_closed_repeat(
                options,
                min_times,
                max_times,
                max_times_per_element,
                tokens,
                pos,
                pos,
                cx,
                depth,
                0,
                Seq::new(options.len(), |j: int| 0int),
                seq![],
            );
        },
        GrammarView::Delimited { .. } => {
            if !(pos < 0 || pos > tokens.len()) {
                lemma_closed_delimited(grammar, tokens, pos, pos, cx, depth, 0, seq![], None);
            }
        },
        GrammarView::Bracketed { elements, bracket_type, .. } => {
            match bracket_index(cx.bracket_pairs, bracket_type, 0) {
                None => {},
                Some(p) => {
                    let pair = cx.bracket_pairs[p];
                    if 0 <= pos < tokens.len() && tokens[pos].kind() == pair.start {
                        match matching_close(tokens, pos + 1, 1, pair.start, pair.end) {
                            None => {},
                            Some(close) => {
                                lemma_closed_sequence(
                                    elements,
                                    0,
                                    tokens.subrange(0, close),
                                    pos,
                                    pos + 1,
                                    cx,
                                    depth,
                                    seq![tokens[pos]],
                                );
                            },
                        }
                    }
                },
            }
        },
        _ => {},
    }
}

/// The same, for a sequence.
pub proof fn lemma_closed_sequence(
    elements: Seq<GrammarView>,
    k: int,
    tokens: Seq<SegmentView>,
    start: int,
    pos: int,
    cx: ContextView,
    depth: nat,
    nodes: Seq<SegmentView>,
)
    requires
        context_closed(cx),
        all_closed(elements, cx.rules, cx.bracket_pairs),
    ensures
        only_too_deep(match_sequence(elements, k, tokens, start, pos, cx, depth, nodes)),
    decreases depth, elements, elements.len() - k, 0nat,
{
    if 0 <= k < elements.len() {
        let at = if pos == start {
            pos
        } else {
            next_code(tokens, pos)
        };
        lemma_each_closed(elements, cx, k);
        lemma_closed_match(elements[k], tokens, at, cx, depth);
        match match_grammar(elements[k], tokens, at, cx, depth) {
            Ok(Some(m)) => {
                if m.end <= at {
                    lemma_closed_sequence(
                        elements,
                        k + 1,
                        tokens,
                        start,
                        pos,
                        cx,
                        depth,
                        nodes + m.nodes,
                    );
                } else {
                    lemma_closed_sequence(
                        elements,
                        k + 1,
                        tokens,
                        start,
                        m.end,
                        cx,
                        depth,
                        nodes + tokens.subrange(pos, at) + m.nodes,
                    );
                }
            },
            _ => {},
        }
    }
}

/// The same, for a choice.
pub proof fn lemma_closed_option(
    options: Seq<GrammarView>,
    j: int,
    tokens: Seq<SegmentView>,
    pos: int,
    cx: ContextView,
    depth: nat,
    must_advance: bool,
    counts: Seq<int>,
    per_option: Option<usize>,
)
    requires
        context_closed(cx),
        all_closed(options, cx.rules, cx.bracket_pairs),
    ensures
        only_too_deep(
            first_option(options, j, tokens, pos, cx, depth, must_advance, counts, per_option),
        ),
    decreases depth, options, 0nat, options.len() - j,
{
    if 0 <= j < options.len() {
        lemma_each_closed(options, cx, j);
        lemma_closed_match(options[j], tokens, pos, cx, depth);
        lemma_closed_option(
            options,
            j + 1,
            tokens,
            pos,
            cx,
            depth,
            must_advance,
            counts,
            per_option,
        );
    }
}

/// The same, for a repetition.
pub proof fn lemma_closed_repeat(
    options: Seq<GrammarView>,
    min_times: usize,
    max_times: Option<usize>,
    per_option: Option<usize>,
    tokens: Seq<SegmentView>,
    start: int,
    pos: int,
    cx: ContextView,
    depth: nat,
    count: int,
    counts: Seq<int>,
    nodes: Seq<SegmentView>,
)
    requires
        context_closed(cx),
        all_closed(options, cx.rules, cx.bracket_pairs),
    ensures
        only_too_deep(
            match_repeat(
                options,
                min_times,
                max_times,
                per_option,
                tokens,
                start,
                pos,
                cx,
                depth,
                count,
                counts,
                nodes,
            ),
        ),
    decreases depth, options, tokens.len() - pos + 1, 0nat,
{
    if !(pos < 0 || pos > tokens.len() || (max_times matches Some(most) && count >= most)) {
        let at = if pos == start {
            pos
        } else {
            next_code(tokens, pos)
        };
        lemma_closed_option(options, 0, tokens, at, cx, depth, true, counts, per_option);
        match first_option(options, 0, tokens, at, cx, depth, true, counts, per_option) {
            Ok(Some((j, m))) => {
                if !(m.end <= pos || m.end > tokens.len() || j < 0 || j >= counts.len()) {
                    lemma_closed_repeat(
                        options,
                        min_times,
                        max_times,
                        per_option,
                        tokens,
                        start,
                        m.end,
                        cx,
                        depth,
                        count + 1,
                        counts.update(j, counts[j] + 1),
                        nodes + tokens.subrange(pos, at) + m.nodes,
                    );
                }
            },
            _ => {},
        }
    }
}

/// The same, for a delimited list.
pub proof fn lemma_closed_delimited(
    grammar: GrammarView,
    tokens: Seq<SegmentView>,
    start: int,
    pos: int,
    cx: ContextView,
    depth: nat,
    delimiters: int,
    nodes: Seq<SegmentView>,
    pending: Option<Matched>,
)
    requires
        context_closed(cx),
        closed(grammar, cx.rules, cx.bracket_pairs),
        0 <= pos <= tokens.len(),
    ensures
        only_too_deep(
            match_delimited(grammar, tokens, start, pos, cx, depth, delimiters, nodes, pending),
        ),
    decreases depth, grammar, tokens.len() - pos + 1, 0nat,
{
    match grammar {
        GrammarView::Delimited { options, delimiter, min_delimiters, allow_trailing } => {
            let base = match pending {
                Some(d) => d.end,
                None => pos,
            };
            let at = if base == start {
                base
            } else {
                next_code(tokens, base)
            };
            lemma_closed_option(options, 0, tokens, at, cx, depth, true, seq![], None);
            match first_option(options, 0, tokens, at, cx, depth, true, seq![], None) {
                Ok(Some((_, m))) => {
                    let with_element = match pending {
                        Some(d) => nodes + d.nodes + tokens.subrange(base, at) + m.nodes,
                        None => nodes + tokens.subrange(base, at) + m.nodes,
                    };
                    let so_far = match pending {
                        Some(_) => delimiters + 1,
                        None => delimiters,
                    };
                    let before = next_code(tokens, m.end);
                    if !(m.end <= pos || m.end > tokens.len()) {
                        lemma_closed_match(*delimiter, tokens, before, cx, depth);
                        match match_grammar(*delimiter, tokens, before, cx, depth) {
                            Ok(Some(d)) => {
                                if !(d.end <= before || d.end > tokens.len()) {
                                    lemma_closed_delimited(
                                        grammar,
                                        tokens,
                                        start,
                                        m.end,
                                        cx,
                                        depth,
                                        so_far,
                                        with_element,
                                        Some(
                                            Matched {
                                                end: d.end,
                                                nodes: tokens.subrange(m.end, before) + d.nodes,
                                            },
                                        ),
                                    );
                                }
                            },
                            _ => {},
                        }
                    }
                },
                _ => {},
            }
        },
        _ => {},
    }
}

/// What expanding is for. Every rule of an expanded dialect, matched
/// against that dialect, does not come upon an unknown rule, an unknown
/// bracket pair or a choice of words that was not resolved: the one fault
/// that is left is that rules refer to rules too deeply.
pub proof fn lemma_expanded_matches(
    dialect: DialectView,
    flags: Seq<FlagView>,
    name: Seq<char>,
    tokens: Seq<SegmentView>,
    pos: int,
    depth: nat,
)
    requires
        is_expanded(dialect),
        lookup_rule(dialect.library, name) is Some,
    ensures
        only_too_deep(
            match_grammar(
                lookup_rule(dialect.library, name).unwrap(),
                tokens,
                pos,
                ContextView { rules: dialect.library, bracket_pairs: dialect.bracket_pairs, flags },
                depth,
            ),
        ),
{
    let cx = ContextView { rules: dialect.library, bracket_pairs: dialect.bracket_pairs, flags };
    lemma_rules_closed(
        dialect.library,
        dialect.library.len() as int,
        dialect.library,
        dialect.bracket_pairs,
    );
    lemma_rule_index(dialect.library, name, 0);
    lemma_closed_match(lookup_rule(dialect.library, name).unwrap(), tokens, pos, cx, depth);
}

} // verus!
