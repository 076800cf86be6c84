//! A rule that is replaced changes only the matches that come by it.

use crate::dialect::{
    bracket_index, lemma_replace_keeps_other_rules, lookup_rule, rule_index, RuleView,
};
use crate::grammar::GrammarView;
use crate::matching::{
    first_option, match_delimited, match_grammar, match_repeat, match_sequence, ContextView,
    Matched,
};
use crate::segments::SegmentView;
use vstd::prelude::*;

verus! {

/// Whether a match of `grammar`, with rules referring to rules at most
/// `depth` deep, can come by the rule named `name`: the grammar refers to
/// it, or to a rule that can come by it.
pub open spec fn mentions(grammar: GrammarView, rules: Seq<RuleView>, depth: nat, name: Seq<char>) -> bool
    decreases depth, grammar, 1nat,
{
    match grammar {
        GrammarView::Optional { inner } => mentions(*inner, rules, depth, name),
        GrammarView::Excluding { inner, exclude } => mentions(*inner, rules, depth, name) || mentions(
            *exclude,
            rules,
            depth,
            name,
        ),
        GrammarView::Node { inner, .. } => mentions(*inner, rules, depth, name),
        GrammarView::Ref { name: referred, exclude } => {
            ||| referred == name
            ||| match exclude {
                Some(e) => mentions(*e, rules, depth, name),
                None => false,
            }
            ||| match lookup_rule(rules, referred) {
                Some(rule) => depth > 0 && mentions(rule, rules, (depth - 1) as nat, name),
                None => false,
            }
        },
        GrammarView::Sequence { elements } => any_mentions(elements, rules, depth, name),
        GrammarView::OneOf { options } => any_mentions(options, rules, depth, name),
        GrammarView::AnyNumberOf { options, .. } => any_mentions(options, rules, depth, name),
        GrammarView::Delimited { options, delimiter, .. } => any_mentions(
            options,
            rules,
            depth,
            name,
        ) || mentions(*delimiter, rules, depth, name),
        GrammarView::Bracketed { elements, .. } => any_mentions(elements, rules, depth, name),
        _ => false,
    }
}

/// Whether a match of one of the grammars can come by the rule named
/// `name`.
pub open spec fn any_mentions(
    grammars: Seq<GrammarView>,
    rules: Seq<RuleView>,
    depth: nat,
    name: Seq<char>,
) -> bool
    decreases depth, grammars, 0nat,
{
    if grammars.len() == 0 {
        false
    } else {
        any_mentions(grammars.drop_last(), rules, depth, name) || mentions(
            grammars.last(),
            rules,
            depth,
            name,
        )
    }
}

/// Where none of the grammars mentions the rule, no single one does.
pub proof fn lemma_none_mentions(
    grammars: Seq<GrammarView>,
    rules: Seq<RuleView>,
    depth: nat,
    name: Seq<char>,
    i: int,
)
    requires
        !any_mentions(grammars, rules, depth, name),
        0 <= i < grammars.len(),
    ensures
        !mentions(grammars[i], rules, depth, name),
    decreases grammars.len(),
{
    if i < grammars.len() - 1 {
        assert(grammars.drop_last()[i] == grammars[i]);
        lemma_none_mentions(grammars.drop_last(), rules, depth, name, i);
    }
}

/// Two contexts agree but for the rule named `name`: every other name
/// leads to the same rule in both, and the bracket pairs and flags are the
/// same.
pub open spec fn agree_but_for(a: ContextView, b: ContextView, name: Seq<char>) -> bool {
    &&& a.bracket_pairs == b.bracket_pairs
    &&& a.flags == b.flags
    &&& forall|other: Seq<char>|
        other != name ==> #[trigger] lookup_rule(a.rules, other) == lookup_rule(b.rules, other)
}

/// Isolation of a replaced rule. A grammar whose matches cannot come by
/// the rule named `name` matches the same in every two contexts that agree
/// but for that rule.
pub proof fn lemma_match_isolated(
    grammar: GrammarView,
    tokens: Seq<SegmentView>,
    pos: int,
    a: ContextView,
    b: ContextView,
    depth: nat,
    name: Seq<char>,
)
    requires
        agree_but_for(a, b, name),
        !mentions(grammar, a.rules, depth, name),
    ensures
        match_grammar(grammar, tokens, pos, b, depth) == match_grammar(grammar, tokens, pos, a, depth),
    decreases depth, grammar, tokens.len() + 2, 0nat,
{
    match grammar {
        GrammarView::Optional { inner } => {
            lemma_match_isolated(*inner, tokens, pos, a, b, depth, name);
        },
        GrammarView::Excluding { inner, exclude } => {
            lemma_match_isolated(*inner, tokens, pos, a, b, depth, name);
            lemma_match_isolated(*exclude, tokens, pos, a, b, depth, name);
        },
        GrammarView::Node { inner, .. } => {
            lemma_match_isolated(*inner, tokens, pos, a, b, depth, name);
        },
        GrammarView::Ref { name: referred, exclude } => {
            match exclude {
                Some(e) => {
                    lemma_match_isolated(*e, tokens, pos, a, b, depth, name);
                },
                None => {},
            }
            assert(lookup_rule(a.rules, referred) == lookup_rule(b.rules, referred));
            match lookup_rule(a.rules, referred) {
                Some(rule) => {
                    if depth > 0 {
                        lemma_match_isolated(rule, tokens, pos, a, b, (depth - 1) as nat, name);
                    }
                },
                None => {},
            }
        },
        GrammarView::Sequence { elements } => {
            lemma_sequence_isolated(elements, 0, tokens, pos, pos, a, b, depth, seq![], name);
        },
        GrammarView::OneOf { options } => {
            lemma_option_isolated(options, 0, tokens, pos, a, b, depth, false, seq![], None, name);
        },
        GrammarView::AnyNumberOf { options, min_times, max_times, max_times_per_element } => {
            lemma_repeat_isolated(
                options,
                min_times,
                max_times,
                max_times_per_element,
                tokens,
                pos,
                pos,
                a,
                b,
                depth,
                0,
                Seq::new(options.len(), |j: int| 0int),
                seq![],
                name,
            );
        },
        GrammarView::Delimited { .. } => {
            if !(pos < 0 || pos > tokens.len()) {
                lemma_delimited_isolated(grammar, tokens, pos, pos, a, b, depth, 0, seq![], None, name);
            }
        },
        GrammarView::Bracketed { elements, bracket_type, parse_mode } => {
            match bracket_index(a.bracket_pairs, bracket_type, 0) {
                None => {},
                Some(p) => {
                    let pair = a.bracket_pairs[p];
                    if 0 <= pos < tokens.len() && tokens[pos].kind() == pair.start {
                        match crate::matching::matching_close(
                            tokens,
                            pos + 1,
                            1,
                            pair.start,
                            pair.end,
                        ) {
                            None => {},
                            Some(close) => {
                                lemma_sequence_isolated(
                                    elements,
                                    0,
                                    tokens.subrange(0, close),
                                    pos,
                                    pos + 1,
                                    a,
                                    b,
                                    depth,
                                    seq![tokens[pos]],
                                    name,
                                );
                            },
                        }
                    }
                },
            }
        },
        _ => {},
    }
}

/// Isolation, for a sequence.
pub proof fn lemma_sequence_isolated(
    elements: Seq<GrammarView>,
    k: int,
    tokens: Seq<SegmentView>,
    start: int,
    pos: int,
    a: ContextView,
    b: ContextView,
    depth: nat,
    nodes: Seq<SegmentView>,
    name: Seq<char>,
)
    requires
        agree_but_for(a, b, name),
        !any_mentions(elements, a.rules, depth, name),
    ensures
        match_sequence(elements, k, tokens, start, pos, b, depth, nodes) == match_sequence(
            elements,
            k,
            tokens,
            start,
            pos,
            a,
            depth,
            nodes,
        ),
    decreases depth, elements, elements.len() - k, 0nat,
{
    if 0 <= k < elements.len() {
        let at = if pos == start {
            pos
        } else {
            crate::matching::next_code(tokens, pos)
        };
        lemma_none_mentions(elements, a.rules, depth, name, k);
        lemma_match_isolated(elements[k], tokens, at, a, b, depth, name);
        match match_grammar(elements[k], tokens, at, a, depth) {
            Ok(Some(m)) => {
                if m.end <= at {
                    lemma_sequence_isolated(
                        elements,
                        k + 1,
                        tokens,
                        start,
                        pos,
                        a,
                        b,
                        depth,
                        nodes + m.nodes,
                        name,
                    );
                } else {
                    lemma_sequence_isolated(
                        elements,
                        k + 1,
                        tokens,
                        start,
                        m.end,
                        a,
                        b,
                        depth,
                        nodes + tokens.subrange(pos, at) + m.nodes,
                        name,
                    );
                }
            },
            _ => {},
        }
    }
}

/// Isolation, for a choice.
pub proof fn lemma_option_isolated(
    options: Seq<GrammarView>,
    j: int,
    tokens: Seq<SegmentView>,
    pos: int,
    a: ContextView,
    b: ContextView,
    depth: nat,
    must_advance: bool,
    counts: Seq<int>,
    per_option: Option<usize>,
    name: Seq<char>,
)
    requires
        agree_but_for(a, b, name),
        !any_mentions(options, a.rules, depth, name),
    ensures
        first_option(options, j, tokens, pos, b, depth, must_advance, counts, per_option)
            == first_option(options, j, tokens, pos, a, depth, must_advance, counts, per_option),
    decreases depth, options, 0nat, options.len() - j,
{
    if 0 <= j < options.len() {
        lemma_none_mentions(options, a.rules, depth, name, j);
        lemma_match_isolated(options[j], tokens, pos, a, b, depth, name);
        lemma_option_isolated(
            options,
            j + 1,
            tokens,
            pos,
            a,
            b,
            depth,
            must_advance,
            counts,
            per_option,
            name,
        );
    }
}

/// Isolation, for a repetition.
pub proof fn lemma_repeat_isolated(
    options: Seq<GrammarView>,
    min_times: usize,
    max_times: Option<usize>,
    per_option: Option<usize>,
    tokens: Seq<SegmentView>,
    start: int,
    pos: int,
    a: ContextView,
    b: ContextView,
    depth: nat,
    count: int,
    counts: Seq<int>,
    nodes: Seq<SegmentView>,
    name: Seq<char>,
)
    requires
        agree_but_for(a, b, name),
        !any_mentions(options, a.rules, depth, name),
    ensures
        match_repeat(
            options,
            min_times,
            max_times,
            per_option,
            tokens,
            start,
            pos,
            b,
            depth,
            count,
            counts,
            nodes,
        ) == match_repeat(
            options,
            min_times,
            max_times,
            per_option,
            tokens,
            start,
            pos,
            a,
            depth,
            count,
            counts,
            nodes,
        ),
    decreases depth, options, tokens.len() - pos + 1, 0nat,
{
    if !(pos < 0 || pos > tokens.len() || (max_times matches Some(most) && count >= most)) {
        let at = if pos == start {
            pos
        } else {
            crate::matching::next_code(tokens, pos)
        };
        lemma_option_isolated(options, 0, tokens, at, a, b, depth, true, counts, per_option, name);
        match first_option(options, 0, tokens, at, a, depth, true, counts, per_option) {
            Ok(Some((j, m))) => {
                if !(m.end <= pos || m.end > tokens.len() || j < 0 || j >= counts.len()) {
                    lemma_repeat_isolated(
                        options,
                        min_times,
                        max_times,
                        per_option,
                        tokens,
                        start,
                        m.end,
                        a,
                        b,
                        depth,
                        count + 1,
                        counts.update(j, counts[j] + 1),
                        nodes + tokens.subrange(pos, at) + m.nodes,
                        name,
                    );
                }
            },
            _ => {},
        }
    }
}

/// Isolation, for a delimited list.
pub proof fn lemma_delimited_isolated(
    grammar: GrammarView,
    tokens: Seq<SegmentView>,
    start: int,
    pos: int,
    a: ContextView,
    b: ContextView,
    depth: nat,
    delimiters: int,
    nodes: Seq<SegmentView>,
    pending: Option<Matched>,
    name: Seq<char>,
)
    requires
        agree_but_for(a, b, name),
        !mentions(grammar, a.rules, depth, name),
        0 <= pos <= tokens.len(),
    ensures
        match_delimited(grammar, tokens, start, pos, b, depth, delimiters, nodes, pending)
            == match_delimited(grammar, tokens, start, pos, a, depth, delimiters, nodes, pending),
    decreases depth, grammar, tokens.len() - pos + 1, 0nat,
{
    match grammar {
        GrammarView::Delimited { options, delimiter, min_delimiters, allow_trailing } => {
            let base = match pending {
                Some(d) => d.end,
                None => pos,
            };
            let at = if base == start {
                base
            } else {
                crate::matching::next_code(tokens, base)
            };
            lemma_option_isolated(options, 0, tokens, at, a, b, depth, true, seq![], None, name);
            match first_option(options, 0, tokens, at, a, depth, true, seq![], None) {
                Ok(Some((_, m))) => {
                    let with_element = match pending {
                        Some(d) => nodes + d.nodes + tokens.subrange(base, at) + m.nodes,
                        None => nodes + tokens.subrange(base, at) + m.nodes,
                    };
                    let so_far = match pending {
                        Some(_) => delimiters + 1,
                        None => delimiters,
                    };
                    let before = crate::matching::next_code(tokens, m.end);
                    if !(m.end <= pos || m.end > tokens.len()) {
                        lemma_match_isolated(*delimiter, tokens, before, a, b, depth, name);
                        match match_grammar(*delimiter, tokens, before, a, depth) {
                            Ok(Some(d)) => {
                                if !(d.end <= before || d.end > tokens.len()) {
                                    lemma_delimited_isolated(
                                        grammar,
                                        tokens,
                                        start,
                                        m.end,
                                        a,
                                        b,
                                        depth,
                                        so_far,
                                        with_element,
                                        Some(
                                            Matched {
                                                end: d.end,
                                                nodes: tokens.subrange(m.end, before) + d.nodes,
                                            },
                                        ),
                                        name,
                                    );
                                }
                            },
                            _ => {},
                        }
                    }
                },
                _ => {},
            }
        },
        _ => {},
    }
}

/// Override isolation. Replacing the rule named `name` in a dialect does
/// not change the match of any grammar whose matches cannot come by that
/// rule.
pub proof fn lemma_replace_is_isolated(
    grammar: GrammarView,
    tokens: Seq<SegmentView>,
    pos: int,
    cx: ContextView,
    depth: nat,
    name: Seq<char>,
    replacement: GrammarView,
)
    requires
        rule_index(cx.rules, name, 0) is Some,
        !mentions(grammar, cx.rules, depth, name),
    ensures
        match_grammar(
            grammar,
            tokens,
            pos,
            ContextView {
                rules: cx.rules.update(
                    rule_index(cx.rules, name, 0).unwrap(),
                    RuleView { name, grammar: replacement },
                ),
                ..cx
            },
            depth,
        ) == match_grammar(grammar, tokens, pos, cx, depth),
{
    let after = ContextView {
        rules: cx.rules.update(
            rule_index(cx.rules, name, 0).unwrap(),
            RuleView { name, grammar: replacement },
        ),
        ..cx
    };
    assert forall|other: Seq<char>| other != name implies #[trigger] lookup_rule(cx.rules, other)
        == lookup_rule(after.rules, other) by {
        lemma_replace_keeps_other_rules(cx.rules, name, replacement, other);
    }
    lemma_match_isolated(grammar, tokens, pos, cx, after, depth, name);
}

} // verus!
