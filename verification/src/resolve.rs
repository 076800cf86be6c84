//! Closing a dialect: choices of words are resolved against the word sets,
//! and every reference is checked to lead somewhere.

use crate::dialect::{
    bracket_index, find_rule, find_set, rule_index, words_of, BracketPairView, Dialect, Rule,
    RuleView, WordSet, WordSetView,
};
use crate::grammar::{
    grammar_view, grammar_views, lemma_grammar_views_index, lemma_grammar_views_push, Grammar,
    GrammarView,
};
use crate::syntax::SyntaxKind;
use vstd::prelude::*;
use vstd::string::*;

verus! {

/// The choice of the words as keywords: one option for each word, in the
/// order of the words.
pub open spec fn keyword_options(words: Seq<Seq<char>>) -> Seq<GrammarView> {
    Seq::new(
        words.len(),
        |i: int| GrammarView::Text { template: words[i], becomes: SyntaxKind::Keyword },
    )
}

/// The grammar with every choice of words of a set resolved into the
/// choice of the words that the set holds.
pub open spec fn resolved(grammar: GrammarView, sets: Seq<WordSetView>) -> GrammarView
    decreases grammar, 1nat,
{
    match grammar {
        GrammarView::KeywordOf { set } => GrammarView::OneOf {
            options: keyword_options(words_of(sets, set)),
        },
        GrammarView::Optional { inner } => GrammarView::Optional {
            inner: Box::new(resolved(*inner, sets)),
        },
        GrammarView::Excluding { inner, exclude } => GrammarView::Excluding {
            inner: Box::new(resolved(*inner, sets)),
            exclude: Box::new(resolved(*exclude, sets)),
        },
        GrammarView::Node { kind, inner } => GrammarView::Node {
            kind,
            inner: Box::new(resolved(*inner, sets)),
        },
        GrammarView::Ref { name, exclude } => GrammarView::Ref {
            name,
            exclude: match exclude {
                Some(e) => Some(Box::new(resolved(*e, sets))),
                None => None,
            },
        },
        GrammarView::Sequence { elements } => GrammarView::Sequence {
            elements: resolved_all(elements, sets),
        },
        GrammarView::OneOf { options } => GrammarView::OneOf {
            options: resolved_all(options, sets),
        },
        GrammarView::AnyNumberOf { options, min_times, max_times, max_times_per_element } => {
            GrammarView::AnyNumberOf {
                options: resolved_all(options, sets),
                min_times,
                max_times,
                max_times_per_element,
            }
        },
        GrammarView::Delimited { options, delimiter, min_delimiters, allow_trailing } => {
            GrammarView::Delimited {
                options: resolved_all(options, sets),
                delimiter: Box::new(resolved(*delimiter, sets)),
                min_delimiters,
                allow_trailing,
            }
        },
        GrammarView::Bracketed { elements, bracket_type, parse_mode } => GrammarView::Bracketed {
            elements: resolved_all(elements, sets),
            bracket_type,
            parse_mode,
        },
        other => other,
    }
}

/// The grammars, each resolved.
pub open spec fn resolved_all(grammars: Seq<GrammarView>, sets: Seq<WordSetView>) -> Seq<
    GrammarView,
>
    decreases grammars, 0nat,
{
    if grammars.len() == 0 {
        seq![]
    } else {
        resolved_all(grammars.drop_last(), sets).push(resolved(grammars.last(), sets))
    }
}

/// Whether the grammar is closed: it holds no choice of words that is yet
/// to be resolved, every rule it refers to is among `rules`, and every
/// bracket type it names is among `pairs`.
pub open spec fn closed(grammar: GrammarView, rules: Seq<RuleView>, pairs: Seq<BracketPairView>) -> bool
    decreases grammar, 1nat,
{
    match grammar {
        GrammarView::KeywordOf { .. } => false,
        GrammarView::Optional { inner } => closed(*inner, rules, pairs),
        GrammarView::Excluding { inner, exclude } => closed(*inner, rules, pairs) && closed(
            *exclude,
            rules,
            pairs,
        ),
        GrammarView::Node { inner, .. } => closed(*inner, rules, pairs),
        GrammarView::Ref { name, exclude } => rule_index(rules, name, 0) is Some && match exclude {
            Some(e) => closed(*e, rules, pairs),
            None => true,
        },
        GrammarView::Sequence { elements } => all_closed(elements, rules, pairs),
        GrammarView::OneOf { options } => all_closed(options, rules, pairs),
        GrammarView::AnyNumberOf { options, .. } => all_closed(options, rules, pairs),
        GrammarView::Delimited { options, delimiter, .. } => all_closed(options, rules, pairs)
            && closed(*delimiter, rules, pairs),
        GrammarView::Bracketed { elements, bracket_type, .. } => bracket_index(
            pairs,
            bracket_type,
            0,
        ) is Some && all_closed(elements, rules, pairs),
        _ => true,
    }
}

/// Whether each of the grammars is closed.
pub open spec fn all_closed(
    grammars: Seq<GrammarView>,
    rules: Seq<RuleView>,
    pairs: Seq<BracketPairView>,
) -> bool
    decreases grammars, 0nat,
{
    if grammars.len() == 0 {
        true
    } else {
        all_closed(grammars.drop_last(), rules, pairs) && closed(grammars.last(), rules, pairs)
    }
}

/// Whether the grammars of the first `upto` of `library` are closed with
/// respect to `rules` and `pairs`.
pub open spec fn rules_closed(
    library: Seq<RuleView>,
    upto: int,
    rules: Seq<RuleView>,
    pairs: Seq<BracketPairView>,
) -> bool
    decreases upto,
{
    if upto <= 0 || upto > library.len() {
        true
    } else {
        rules_closed(library, upto - 1, rules, pairs) && closed(
            library[upto - 1].grammar,
            rules,
            pairs,
        )
    }
}

/// The rules, each with its grammar resolved.
pub open spec fn library_resolved(library: Seq<RuleView>, sets: Seq<WordSetView>) -> Seq<RuleView> {
    Seq::new(
        library.len(),
        |i: int| RuleView { name: library[i].name, grammar: resolved(library[i].grammar, sets) },
    )
}

/// Resolving leaves a closed grammar as it is.
pub proof fn lemma_closed_is_resolved(
    grammar: GrammarView,
    sets: Seq<WordSetView>,
    rules: Seq<RuleView>,
    pairs: Seq<BracketPairView>,
)
    requires
        closed(grammar, rules, pairs),
    ensures
        resolved(grammar, sets) == grammar,
    decreases grammar, 1nat,
{
    match grammar {
        GrammarView::Optional { inner } => {
            lemma_closed_is_resolved(*inner, sets, rules, pairs);
        },
        GrammarView::Excluding { inner, exclude } => {
            lemma_closed_is_resolved(*inner, sets, rules, pairs);
            lemma_closed_is_resolved(*exclude, sets, rules, pairs);
        },
        GrammarView::Node { inner, .. } => {
            lemma_closed_is_resolved(*inner, sets, rules, pairs);
        },
        GrammarView::Ref { name, exclude } => {
            match exclude {
                Some(e) => {
                    lemma_closed_is_resolved(*e, sets, rules, pairs);
                },
                None => {},
            }
        },
        GrammarView::Sequence { elements } => {
            lemma_all_closed_are_resolved(elements, sets, rules, pairs);
        },
        GrammarView::OneOf { options } => {
            lemma_all_closed_are_resolved(options, sets, rules, pairs);
        },
        GrammarView::AnyNumberOf { options, .. } => {
            lemma_all_closed_are_resolved(options, sets, rules, pairs);
        },
        GrammarView::Delimited { options, delimiter, .. } => {
            lemma_all_closed_are_resolved(options, sets, rules, pairs);
            lemma_closed_is_resolved(*delimiter, sets, rules, pairs);
        },
        GrammarView::Bracketed { elements, .. } => {
            lemma_all_closed_are_resolved(elements, sets, rules, pairs);
        },
        _ => {},
    }
}

/// Resolving leaves closed grammars as they are.
pub proof fn lemma_all_closed_are_resolved(
    grammars: Seq<GrammarView>,
    sets: Seq<WordSetView>,
    rules: Seq<RuleView>,
    pairs: Seq<BracketPairView>,
)
    requires
        all_closed(grammars, rules, pairs),
    ensures
        resolved_all(grammars, sets) == grammars,
    decreases grammars, 0nat,
{
    if grammars.len() > 0 {
        lemma_all_closed_are_resolved(grammars.drop_last(), sets, rules, pairs);
        lemma_closed_is_resolved(grammars.last(), sets, rules, pairs);
        assert(grammars.drop_last().push(grammars.last()) =~= grammars);
    } else {
        assert(grammars =~= Seq::<GrammarView>::empty());
    }
}

/// Where the rules up to `upto` are closed, each of them is.
pub proof fn lemma_rules_closed(
    library: Seq<RuleView>,
    upto: int,
    rules: Seq<RuleView>,
    pairs: Seq<BracketPairView>,
)
    requires
        0 <= upto <= library.len(),
        rules_closed(library, upto, rules, pairs),
    ensures
        forall|i: int| 0 <= i < upto ==> closed((#[trigger] library[i]).grammar, rules, pairs),
    decreases upto,
{
    if upto > 0 {
        lemma_rules_closed(library, upto - 1, rules, pairs);
    }
}

/// The options that stand for the words of a set.
fn keyword_options_of(words: &WordSet) -> (r: Vec<Grammar>)
    ensures
        grammar_views(r@) == keyword_options(words.deep_view().words),
{
    let ghost views = words.deep_view().words;
    let mut out: Vec<Grammar> = Vec::new();
    let mut i: usize = 0;
    assert(grammar_views(out@) =~= keyword_options(views).take(0));
    while i < words.len()
        invariant
            views == words.deep_view().words,
            i <= views.len(),
            grammar_views(out@) == keyword_options(views).take(i as int),
        decreases views.len() - i,
    {
        let option = Grammar::Text {
            template: words.word(i).to_owned(),
            becomes: SyntaxKind::Keyword,
        };
        proof {
            lemma_grammar_views_push(out@, option);
            assert(keyword_options(views).take(i + 1) =~= keyword_options(views).take(
                i as int,
            ).push(keyword_options(views)[i as int]));
        }
        out.push(option);
        i += 1;
    }
    assert(keyword_options(views).take(i as int) =~= keyword_options(views));
    out
}

/// The grammars, each resolved.
pub fn resolve_all(grammars: &[Grammar], sets: &Vec<WordSet>) -> (r: Vec<Grammar>)
    ensures
        grammar_views(r@) == resolved_all(grammar_views(grammars@), sets.deep_view()),
    decreases grammars@, 0nat,
{
    let ghost views = grammar_views(grammars@);
    proof {
        lemma_grammar_views_index(grammars@);
        assert(views.take(0) =~= Seq::<GrammarView>::empty());
    }
    let mut out: Vec<Grammar> = Vec::new();
    assert(grammar_views(out@) =~= Seq::<GrammarView>::empty());
    let mut i: usize = 0;
    while i < grammars.len()
        invariant
            views == grammar_views(grammars@),
            views.len() == grammars@.len(),
            forall|j: int|
                0 <= j < grammars@.len() ==> views[j] == (#[trigger] grammars@[j]).deep_view(),
            i <= grammars@.len(),
            grammar_views(out@) == resolved_all(views.take(i as int), sets.deep_view()),
        decreases grammars@.len() - i,
    {
        let one = resolve(&grammars[i], sets);
        proof {
            lemma_grammar_views_push(out@, one);
            assert(views.take(i + 1).drop_last() =~= views.take(i as int));
            assert(views.take(i + 1).last() == views[i as int]);
        }
        out.push(one);
        i += 1;
    }
    assert(views.take(i as int) =~= views);
    out
}

/// The grammar with every choice of words of a set resolved.
pub fn resolve(grammar: &Grammar, sets: &Vec<WordSet>) -> (r: Grammar)
    ensures
        grammar_view(r) == resolved(grammar_view(*grammar), sets.deep_view()),
    decreases *grammar, 1nat,
{
    match grammar {
        Grammar::Nothing => Grammar::Nothing,
        Grammar::Anything => Grammar::Anything,
        Grammar::Token { kind, becomes } => Grammar::Token { kind: *kind, becomes: *becomes },
        Grammar::Text { template, becomes } => Grammar::Text {
            template: template.clone(),
            becomes: *becomes,
        },
        Grammar::Regex { pattern, becomes } => Grammar::Regex {
            pattern: pattern.clone(),
            becomes: *becomes,
        },
        Grammar::Meta { kind } => Grammar::Meta { kind: *kind },
        Grammar::Conditional { kind, flag, expected } => Grammar::Conditional {
            kind: *kind,
            flag: flag.clone(),
            expected: *expected,
        },
        Grammar::Optional { inner } => Grammar::Optional { inner: Box::new(resolve(&**inner, sets)) },
        Grammar::Excluding { inner, exclude } => Grammar::Excluding {
            inner: Box::new(resolve(&**inner, sets)),
            exclude: Box::new(resolve(&**exclude, sets)),
        },
        Grammar::Node { kind, inner } => Grammar::Node {
            kind: *kind,
            inner: Box::new(resolve(&**inner, sets)),
        },
        Grammar::Ref { name, exclude } => Grammar::Ref {
            name: name.clone(),
            exclude: match exclude {
                Some(e) => Some(Box::new(resolve(&**e, sets))),
                None => None,
            },
        },
        Grammar::KeywordOf { set } => {
            match find_set(sets, set.as_str()) {
                Some(i) => {
                    assert(sets.deep_view()[i as int] == sets@[i as int].deep_view());
                    Grammar::OneOf { options: keyword_options_of(&sets[i]) }
                },
                None => {
                    let options: Vec<Grammar> = Vec::new();
                    assert(grammar_views(options@) =~= keyword_options(seq![]));
                    Grammar::OneOf { options }
                },
            }
        },
        Grammar::Sequence { elements } => Grammar::Sequence {
            elements: resolve_all(elements.as_slice(), sets),
        },
        Grammar::OneOf { options } => Grammar::OneOf { options: resolve_all(options.as_slice(), sets) },
        Grammar::AnyNumberOf { options, min_times, max_times, max_times_per_element } => {
            Grammar::AnyNumberOf {
                options: resolve_all(options.as_slice(), sets),
                min_times: *min_times,
                max_times: *max_times,
                max_times_per_element: *max_times_per_element,
            }
        },
        Grammar::Delimited { options, delimiter, min_delimiters, allow_trailing } => {
            Grammar::Delimited {
                options: resolve_all(options.as_slice(), sets),
                delimiter: Box::new(resolve(&**delimiter, sets)),
                min_delimiters: *min_delimiters,
                allow_trailing: *allow_trailing,
            }
        },
        Grammar::Bracketed { elements, bracket_type, parse_mode } => Grammar::Bracketed {
            elements: resolve_all(elements.as_slice(), sets),
            bracket_type: bracket_type.clone(),
            parse_mode: *parse_mode,
        },
    }
}

/// Whether each of the grammars is closed.
pub fn are_closed(grammars: &[Grammar], rules: &Vec<Rule>, dialect: &Dialect) -> (r: bool)
    ensures
        r == all_closed(
            grammar_views(grammars@),
            rules.deep_view(),
            dialect.deep_view().bracket_pairs,
        ),
    decreases grammars@, 0nat,
{
    let ghost views = grammar_views(grammars@);
    proof {
        lemma_grammar_views_index(grammars@);
        assert(views.take(0) =~= Seq::<GrammarView>::empty());
    }
    let mut i: usize = 0;
    while i < grammars.len()
        invariant
            views == grammar_views(grammars@),
            views.len() == grammars@.len(),
            forall|j: int|
                0 <= j < grammars@.len() ==> views[j] == (#[trigger] grammars@[j]).deep_view(),
            i <= grammars@.len(),
            all_closed(views.take(i as int), rules.deep_view(), dialect.deep_view().bracket_pairs),
        decreases grammars@.len() - i,
    {
        proof {
            assert(views.take(i + 1).drop_last() =~= views.take(i as int));
            assert(views.take(i + 1).last() == views[i as int]);
        }
        if !is_closed(&grammars[i], rules, dialect) {
            proof {
                lemma_not_all_closed(
                    views,
                    i as int,
                    rules.deep_view(),
                    dialect.deep_view().bracket_pairs,
                );
            }
            return false;
        }
        i += 1;
    }
    assert(views.take(i as int) =~= views);
    true
}

/// Grammars of which one is not closed are not all closed.
pub proof fn lemma_not_all_closed(
    grammars: Seq<GrammarView>,
    i: int,
    rules: Seq<RuleView>,
    pairs: Seq<BracketPairView>,
)
    requires
        0 <= i < grammars.len(),
        !closed(grammars[i], rules, pairs),
    ensures
        !all_closed(grammars, rules, pairs),
    decreases grammars.len(),
{
    if i < grammars.len() - 1 {
        assert(grammars.drop_last()[i] == grammars[i]);
        lemma_not_all_closed(grammars.drop_last(), i, rules, pairs);
    }
}

/// Whether the grammar is closed with respect to `rules` and the bracket
/// pairs of `dialect`.
pub fn is_closed(grammar: &Grammar, rules: &Vec<Rule>, dialect: &Dialect) -> (r: bool)
    ensures
        r == closed(grammar_view(*grammar), rules.deep_view(), dialect.deep_view().bracket_pairs),
    decreases *grammar, 1nat,
{
    match grammar {
        Grammar::KeywordOf { .. } => false,
        Grammar::Optional { inner } => is_closed(&**inner, rules, dialect),
        Grammar::Excluding { inner, exclude } => is_closed(&**inner, rules, dialect) && is_closed(
            &**exclude,
            rules,
            dialect,
        ),
        Grammar::Node { inner, .. } => is_closed(&**inner, rules, dialect),
        Grammar::Ref { name, exclude } => {
            assert(rules.deep_view().take(rules@.len() as int) =~= rules.deep_view());
            if find_rule(rules, name.as_str(), rules.len()).is_none() {
                return false;
            }
            match exclude {
                Some(e) => is_closed(&**e, rules, dialect),
                None => true,
            }
        },
        Grammar::Sequence { elements } => are_closed(elements.as_slice(), rules, dialect),
        Grammar::OneOf { options } => are_closed(options.as_slice(), rules, dialect),
        Grammar::AnyNumberOf { options, .. } => are_closed(options.as_slice(), rules, dialect),
        Grammar::Delimited { options, delimiter, .. } => are_closed(
            options.as_slice(),
            rules,
            dialect,
        ) && is_closed(&**delimiter, rules, dialect),
        Grammar::Bracketed { elements, bracket_type, .. } => dialect.bracket_pair(
            bracket_type.as_str(),
        ).is_some() && are_closed(elements.as_slice(), rules, dialect),
        _ => true,
    }
}

} // verus!
