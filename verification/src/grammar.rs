//! The grammar: what a dialect's rules are made of.
//!
//! A grammar is a closed sum of combinators. Rules refer to each other by
//! name, through `Ref`, so that a rule may mention itself and a dialect may
//! replace a rule without touching those that mention it.

use crate::syntax::SyntaxKind;
use crate::text::same_text;
use vstd::prelude::*;
use vstd::string::*;

verus! {

/// What a bracketed grammar does with tokens between the brackets that its
/// inner grammar does not match.
#[derive(Clone, Copy, Debug, PartialEq, Eq, Structural)]
pub enum ParseMode {
    /// The whole bracket fails.
    Strict,
    /// The bracket matches up to the closing bracket all the same, and
    /// holds what was not matched as unparsable.
    Greedy,
}

/// A grammar.
#[derive(Debug)]
pub enum Grammar {
    /// Matches nothing: always fails.
    Nothing,
    /// Matches all tokens that are left.
    Anything,
    /// One token of kind `kind`, which becomes a leaf of kind `becomes`.
    Token { kind: SyntaxKind, becomes: SyntaxKind },
    /// One code token whose text is `template`, whatever the case of its
    /// ASCII letters, which becomes a leaf of kind `becomes`.
    Text { template: String, becomes: SyntaxKind },
    /// One code token whose text, in upper case, the regular expression
    /// `pattern` matches from its first byte to its last, and which becomes
    /// a leaf of kind `becomes`. A pattern that does not compile matches
    /// no token.
    Regex { pattern: String, becomes: SyntaxKind },
    /// No token: a marker of kind `kind` is put in.
    Meta { kind: SyntaxKind },
    /// No token: a marker of kind `kind` is put in where the flag `flag` of
    /// the configuration has the value `expected`.
    Conditional { kind: SyntaxKind, flag: String, expected: bool },
    /// The inner grammar, or nothing where it fails.
    Optional { inner: Box<Grammar> },
    /// The inner grammar, unless `exclude` matches at the same place.
    Excluding { inner: Box<Grammar>, exclude: Box<Grammar> },
    /// The inner grammar, with what it matched held in one node of kind
    /// `kind`.
    Node { kind: SyntaxKind, inner: Box<Grammar> },
    /// The rule that the dialect holds under `name`, unless `exclude`
    /// matches at the same place.
    Ref { name: String, exclude: Option<Box<Grammar>> },
    /// Any one word of the dialect's set `set`, as a keyword. It stands for
    /// a choice that is only known when the dialect is complete, and is
    /// resolved into that choice when the dialect is expanded.
    KeywordOf { set: String },
    /// Each of the elements, one after the other.
    Sequence { elements: Vec<Grammar> },
    /// The first of the options that matches.
    OneOf { options: Vec<Grammar> },
    /// Any of the options, over and over: at least `min_times`, at most
    /// `max_times`, and each option at most `max_times_per_element` times.
    AnyNumberOf {
        options: Vec<Grammar>,
        min_times: usize,
        max_times: Option<usize>,
        max_times_per_element: Option<usize>,
    },
    /// Any of the options, over and over, with the delimiter between each
    /// two: at least `min_delimiters` delimiters, and one more behind the
    /// last where `allow_trailing`.
    Delimited {
        options: Vec<Grammar>,
        delimiter: Box<Grammar>,
        min_delimiters: usize,
        allow_trailing: bool,
    },
    /// The elements, one after the other, between the brackets of the
    /// dialect's pair `bracket_type`.
    Bracketed { elements: Vec<Grammar>, bracket_type: String, parse_mode: ParseMode },
}

/// The model of a grammar.
pub enum GrammarView {
    Nothing,
    Anything,
    Token { kind: SyntaxKind, becomes: SyntaxKind },
    Text { template: Seq<char>, becomes: SyntaxKind },
    Regex { pattern: Seq<char>, becomes: SyntaxKind },
    Meta { kind: SyntaxKind },
    Conditional { kind: SyntaxKind, flag: Seq<char>, expected: bool },
    Optional { inner: Box<GrammarView> },
    Excluding { inner: Box<GrammarView>, exclude: Box<GrammarView> },
    Node { kind: SyntaxKind, inner: Box<GrammarView> },
    Ref { name: Seq<char>, exclude: Option<Box<GrammarView>> },
    KeywordOf { set: Seq<char> },
    Sequence { elements: Seq<GrammarView> },
    OneOf { options: Seq<GrammarView> },
    AnyNumberOf {
        options: Seq<GrammarView>,
        min_times: usize,
        max_times: Option<usize>,
        max_times_per_element: Option<usize>,
    },
    Delimited {
        options: Seq<GrammarView>,
        delimiter: Box<GrammarView>,
        min_delimiters: usize,
        allow_trailing: bool,
    },
    Bracketed { elements: Seq<GrammarView>, bracket_type: Seq<char>, parse_mode: ParseMode },
}

/// The models of a sequence of grammars.
pub open spec fn grammar_views(grammars: Seq<Grammar>) -> Seq<GrammarView>
    decreases grammars, 0nat,
{
    if grammars.len() == 0 {
        seq![]
    } else {
        grammar_views(grammars.drop_last()).push(grammar_view(grammars.last()))
    }
}

/// The model of a grammar.
pub open spec fn grammar_view(grammar: Grammar) -> GrammarView
    decreases grammar, 1nat,
{
    match grammar {
        Grammar::Nothing => GrammarView::Nothing,
        Grammar::Anything => GrammarView::Anything,
        Grammar::Token { kind, becomes } => GrammarView::Token { kind, becomes },
        Grammar::Text { template, becomes } => GrammarView::Text { template: template@, becomes },
        Grammar::Regex { pattern, becomes } => GrammarView::Regex { pattern: pattern@, becomes },
        Grammar::Meta { kind } => GrammarView::Meta { kind },
        Grammar::Conditional { kind, flag, expected } => GrammarView::Conditional {
            kind,
            flag: flag@,
            expected,
        },
        Grammar::Optional { inner } => GrammarView::Optional {
            inner: Box::new(grammar_view(*inner)),
        },
        Grammar::Excluding { inner, exclude } => GrammarView::Excluding {
            inner: Box::new(grammar_view(*inner)),
            exclude: Box::new(grammar_view(*exclude)),
        },
        Grammar::Node { kind, inner } => GrammarView::Node {
            kind,
            inner: Box::new(grammar_view(*inner)),
        },
        Grammar::Ref { name, exclude } => GrammarView::Ref {
            name: name@,
            exclude: match exclude {
                Some(e) => Some(Box::new(grammar_view(*e))),
                None => None,
            },
        },
        Grammar::KeywordOf { set } => GrammarView::KeywordOf { set: set@ },
        Grammar::Sequence { elements } => GrammarView::Sequence {
            elements: grammar_views(elements@),
        },
        Grammar::OneOf { options } => GrammarView::OneOf { options: grammar_views(options@) },
        Grammar::AnyNumberOf {
            options,
            min_times,
            max_times,
            max_times_per_element,
        } => GrammarView::AnyNumberOf {
            options: grammar_views(options@),
            min_times,
            max_times,
            max_times_per_element,
        },
        Grammar::Delimited {
            options,
            delimiter,
            min_delimiters,
            allow_trailing,
        } => GrammarView::Delimited {
            options: grammar_views(options@),
            delimiter: Box::new(grammar_view(*delimiter)),
            min_delimiters,
            allow_trailing,
        },
        Grammar::Bracketed { elements, bracket_type, parse_mode } => GrammarView::Bracketed {
            elements: grammar_views(elements@),
            bracket_type: bracket_type@,
            parse_mode,
        },
    }
}

impl DeepView for Grammar {
    type V = GrammarView;

    open spec fn deep_view(&self) -> GrammarView {
        grammar_view(*self)
    }
}

/// The models of a sequence stand one for one.
pub proof fn lemma_grammar_views_index(grammars: Seq<Grammar>)
    ensures
        grammar_views(grammars).len() == grammars.len(),
        forall|i: int|
            0 <= i < grammars.len() ==> grammar_views(grammars)[i] == (
            #[trigger] grammars[i]).deep_view(),
    decreases grammars.len(),
{
    if grammars.len() > 0 {
        let init = grammars.drop_last();
        lemma_grammar_views_index(init);
        assert(grammar_views(grammars) == grammar_views(init).push(grammar_view(grammars.last())));
        assert forall|i: int| 0 <= i < grammars.len() implies grammar_views(grammars)[i] == (
        #[trigger] grammars[i]).deep_view() by {
            if i < grammars.len() - 1 {
                assert(init[i] == grammars[i]);
                assert(grammar_views(grammars)[i] == grammar_views(init)[i]);
            }
        }
    }
}

/// The models of a sequence with one more grammar.
pub proof fn lemma_grammar_views_push(grammars: Seq<Grammar>, last: Grammar)
    ensures
        grammar_views(grammars.push(last)) == grammar_views(grammars).push(last.deep_view()),
{
    assert(grammars.push(last).drop_last() =~= grammars);
}

/// The grammar `grammar`, unless `other` matches at the same place.
pub open spec fn excluded(grammar: GrammarView, other: GrammarView) -> GrammarView
    decreases grammar,
{
    match grammar {
        GrammarView::Ref { name, .. } => GrammarView::Ref { name, exclude: Some(Box::new(other)) },
        GrammarView::Optional { inner } => GrammarView::Optional {
            inner: Box::new(excluded(*inner, other)),
        },
        view => GrammarView::Excluding { inner: Box::new(view), exclude: Box::new(other) },
    }
}

impl Grammar {
    /// The rule that the dialect holds under `name`.
    pub fn reference(name: &str) -> (r: Self)
        ensures
            grammar_view(r) == (GrammarView::Ref { name: name@, exclude: None }),
    {
        Grammar::Ref { name: name.to_owned(), exclude: None }
    }

    /// The word `word` as a keyword, whatever the case of its letters.
    pub fn keyword(word: &str) -> (r: Self)
        ensures
            grammar_view(r) == (GrammarView::Text {
                template: word@,
                becomes: SyntaxKind::Keyword,
            }),
    {
        Grammar::Text { template: word.to_owned(), becomes: SyntaxKind::Keyword }
    }

    /// One code token whose text in upper case the regular expression
    /// `pattern` matches whole, as a leaf of kind `becomes`.
    pub fn regex(pattern: &str, becomes: SyntaxKind) -> (r: Self)
        ensures
            grammar_view(r) == (GrammarView::Regex { pattern: pattern@, becomes }),
    {
        Grammar::Regex { pattern: pattern.to_owned(), becomes }
    }

    /// One code token of the text `template`, as a leaf of kind `becomes`.
    pub fn text(template: &str, becomes: SyntaxKind) -> (r: Self)
        ensures
            grammar_view(r) == (GrammarView::Text { template: template@, becomes }),
    {
        Grammar::Text { template: template.to_owned(), becomes }
    }

    /// One token of kind `kind`, as a leaf of kind `becomes`.
    pub fn token(kind: SyntaxKind, becomes: SyntaxKind) -> (r: Self)
        ensures
            grammar_view(r) == (GrammarView::Token { kind, becomes }),
    {
        Grammar::Token { kind, becomes }
    }

    /// Each of the elements, one after the other.
    pub fn sequence(elements: Vec<Grammar>) -> (r: Self)
        ensures
            grammar_view(r) == (GrammarView::Sequence { elements: grammar_views(elements@) }),
    {
        Grammar::Sequence { elements }
    }

    /// The first of the options that matches.
    pub fn one_of(options: Vec<Grammar>) -> (r: Self)
        ensures
            grammar_view(r) == (GrammarView::OneOf { options: grammar_views(options@) }),
    {
        Grammar::OneOf { options }
    }

    /// Any of the options, any number of times.
    pub fn any_number_of(options: Vec<Grammar>) -> (r: Self)
        ensures
            grammar_view(r) == (GrammarView::AnyNumberOf {
                options: grammar_views(options@),
                min_times: 0,
                max_times: None,
                max_times_per_element: None,
            }),
    {
        Grammar::AnyNumberOf { options, min_times: 0, max_times: None, max_times_per_element: None }
    }

    /// Any of the options, over and over, with `delimiter` between each
    /// two, and none behind the last.
    pub fn delimited(options: Vec<Grammar>, delimiter: Grammar) -> (r: Self)
        ensures
            grammar_view(r) == (GrammarView::Delimited {
                options: grammar_views(options@),
                delimiter: Box::new(grammar_view(delimiter)),
                min_delimiters: 0,
                allow_trailing: false,
            }),
    {
        Grammar::Delimited {
            options,
            delimiter: Box::new(delimiter),
            min_delimiters: 0,
            allow_trailing: false,
        }
    }

    /// The elements between round brackets, all of them or none.
    pub fn bracketed(elements: Vec<Grammar>) -> (r: Self)
        ensures
            grammar_view(r) == (GrammarView::Bracketed {
                elements: grammar_views(elements@),
                bracket_type: "round"@,
                parse_mode: ParseMode::Strict,
            }),
    {
        Grammar::Bracketed {
            elements,
            bracket_type: "round".to_owned(),
            parse_mode: ParseMode::Strict,
        }
    }

    /// The grammar, or nothing where it fails.
    pub fn optional(self) -> (r: Self)
        ensures
            grammar_view(r) == (GrammarView::Optional { inner: Box::new(grammar_view(self)) }),
    {
        Grammar::Optional { inner: Box::new(self) }
    }

    /// The grammar, with what it matched held in one node of kind `kind`.
    pub fn node(self, kind: SyntaxKind) -> (r: Self)
        ensures
            grammar_view(r) == (GrammarView::Node { kind, inner: Box::new(grammar_view(self)) }),
    {
        Grammar::Node { kind, inner: Box::new(self) }
    }

    /// The grammar, unless `other` matches at the same place. A reference
    /// takes the exclusion on itself; with an optional grammar it is the
    /// grammar within that is excluded.
    pub fn exclude(self, other: Grammar) -> (r: Self)
        ensures
            grammar_view(r) == excluded(grammar_view(self), grammar_view(other)),
        decreases self,
    {
        match self {
            Grammar::Ref { name, .. } => Grammar::Ref { name, exclude: Some(Box::new(other)) },
            Grammar::Optional { inner } => Grammar::Optional {
                inner: Box::new((*inner).exclude(other)),
            },
            grammar => Grammar::Excluding { inner: Box::new(grammar), exclude: Box::new(other) },
        }
    }

    /// A bracketed grammar with the way it treats what it does not match
    /// set to `mode`. A grammar that is not bracketed is left as it is.
    pub fn parse_mode(self, mode: ParseMode) -> (r: Self)
        ensures
            grammar_view(r) == match grammar_view(self) {
                GrammarView::Bracketed { elements, bracket_type, .. } => GrammarView::Bracketed {
                    elements,
                    bracket_type,
                    parse_mode: mode,
                },
                view => view,
            },
    {
        match self {
            Grammar::Bracketed { elements, bracket_type, .. } => Grammar::Bracketed {
                elements,
                bracket_type,
                parse_mode: mode,
            },
            grammar => grammar,
        }
    }
}

/// Copies of the grammars.
pub fn clone_grammars(grammars: &[Grammar]) -> (r: Vec<Grammar>)
    ensures
        grammar_views(r@) == grammar_views(grammars@),
    decreases grammars@, 0nat,
{
    let ghost views = grammar_views(grammars@);
    proof {
        lemma_grammar_views_index(grammars@);
    }
    let mut out: Vec<Grammar> = Vec::new();
    assert(grammar_views(out@) =~= views.take(0));
    let mut i: usize = 0;
    while i < grammars.len()
        invariant
            views == grammar_views(grammars@),
            views.len() == grammars@.len(),
            forall|j: int|
                0 <= j < grammars@.len() ==> views[j] == (#[trigger] grammars@[j]).deep_view(),
            i <= grammars@.len(),
            grammar_views(out@) == views.take(i as int),
        decreases grammars@.len() - i,
    {
        let copy = clone_grammar(&grammars[i]);
        proof {
            lemma_grammar_views_push(out@, copy);
            assert(views.take(i + 1) =~= views.take(i as int).push(views[i as int]));
        }
        out.push(copy);
        i += 1;
    }
    assert(views.take(i as int) =~= views);
    out
}

/// A copy of the grammar.
pub fn clone_grammar(grammar: &Grammar) -> (r: Grammar)
    ensures
        grammar_view(r) == grammar_view(*grammar),
    decreases *grammar, 1nat,
{
    match grammar {
        Grammar::Nothing => Grammar::Nothing,
        Grammar::Anything => Grammar::Anything,
        Grammar::Token { kind, becomes } => Grammar::Token { kind: *kind, becomes: *becomes },
        Grammar::Text { template, becomes } => Grammar::Text {
            template: template.clone(),
            becomes: *becomes,
        },
        Grammar::Regex { pattern, becomes } => Grammar::Regex {
            pattern: pattern.clone(),
            becomes: *becomes,
        },
        Grammar::Meta { kind } => Grammar::Meta { kind: *kind },
        Grammar::Conditional { kind, flag, expected } => Grammar::Conditional {
            kind: *kind,
            flag: flag.clone(),
            expected: *expected,
        },
        Grammar::Optional { inner } => Grammar::Optional { inner: Box::new(clone_grammar(&**inner)) },
        Grammar::Excluding { inner, exclude } => Grammar::Excluding {
            inner: Box::new(clone_grammar(&**inner)),
            exclude: Box::new(clone_grammar(&**exclude)),
        },
        Grammar::Node { kind, inner } => Grammar::Node {
            kind: *kind,
            inner: Box::new(clone_grammar(&**inner)),
        },
        Grammar::Ref { name, exclude } => Grammar::Ref {
            name: name.clone(),
            exclude: match exclude {
                Some(e) => Some(Box::new(clone_grammar(&**e))),
                None => None,
            },
        },
        Grammar::KeywordOf { set } => Grammar::KeywordOf { set: set.clone() },
        Grammar::Sequence { elements } => Grammar::Sequence {
            elements: clone_grammars(elements.as_slice()),
        },
        Grammar::OneOf { options } => Grammar::OneOf { options: clone_grammars(options.as_slice()) },
        Grammar::AnyNumberOf { options, min_times, max_times, max_times_per_element } => {
            Grammar::AnyNumberOf {
                options: clone_grammars(options.as_slice()),
                min_times: *min_times,
                max_times: *max_times,
                max_times_per_element: *max_times_per_element,
            }
        },
        Grammar::Delimited { options, delimiter, min_delimiters, allow_trailing } => {
            Grammar::Delimited {
                options: clone_grammars(options.as_slice()),
                delimiter: Box::new(clone_grammar(&**delimiter)),
                min_delimiters: *min_delimiters,
                allow_trailing: *allow_trailing,
            }
        },
        Grammar::Bracketed { elements, bracket_type, parse_mode } => Grammar::Bracketed {
            elements: clone_grammars(elements.as_slice()),
            bracket_type: bracket_type.clone(),
            parse_mode: *parse_mode,
        },
    }
}

impl Clone for Grammar {
    fn clone(&self) -> (r: Self)
        ensures
            grammar_view(r) == grammar_view(*self),
    {
        clone_grammar(self)
    }
}

/// `dyn_clone::clone`: a copy of the grammar, which that function has from
/// the grammar's own `clone`.
#[verifier::external_body]
pub(crate) fn dyn_cloned(grammar: &Grammar) -> (r: Grammar)
    ensures
        grammar_view(r) == grammar_view(*grammar),
{
    dyn_clone::clone(grammar)
}

/// The models of two sequences of grammars, one after the other.
pub proof fn lemma_grammar_views_concat(a: Seq<Grammar>, b: Seq<Grammar>)
    ensures
        grammar_views(a + b) == grammar_views(a) + grammar_views(b),
{
    let both = a + b;
    lemma_grammar_views_index(a);
    lemma_grammar_views_index(b);
    lemma_grammar_views_index(both);
    assert forall|i: int| 0 <= i < both.len() implies grammar_views(both)[i] == (grammar_views(a)
        + grammar_views(b))[i] by {
        if i < a.len() {
            assert(both[i] == a[i]);
        } else {
            assert(both[i] == b[i - a.len()]);
        }
    }
    assert(grammar_views(both) =~= grammar_views(a) + grammar_views(b));
}

/// The models of a part of a sequence of grammars.
pub proof fn lemma_grammar_views_subrange(grammars: Seq<Grammar>, from: int, to: int)
    requires
        0 <= from <= to <= grammars.len(),
    ensures
        grammar_views(grammars.subrange(from, to)) == grammar_views(grammars).subrange(from, to),
{
    let part = grammars.subrange(from, to);
    lemma_grammar_views_index(grammars);
    lemma_grammar_views_index(part);
    assert forall|i: int| 0 <= i < part.len() implies grammar_views(part)[i] == grammar_views(
        grammars,
    ).subrange(from, to)[i] by {
        assert(part[i] == grammars[from + i]);
    }
    assert(grammar_views(part) =~= grammar_views(grammars).subrange(from, to));
}

/// No grammar.
pub fn no_grammars() -> (r: Vec<Grammar>)
    ensures
        grammar_views(r@) == Seq::<GrammarView>::empty(),
{
    let r: Vec<Grammar> = Vec::new();
    assert(grammar_views(r@) =~= Seq::<GrammarView>::empty());
    r
}

/// The grammars with `more` behind them.
pub fn with(grammars: Vec<Grammar>, more: Grammar) -> (r: Vec<Grammar>)
    ensures
        grammar_views(r@) == grammar_views(grammars@).push(grammar_view(more)),
{
    let mut r = grammars;
    proof {
        lemma_grammar_views_push(r@, more);
    }
    r.push(more);
    r
}

/// The items with `insert` put in before the `at`-th of them, or behind
/// them all where `at` is none or lies behind them.
pub open spec fn spliced(items: Seq<GrammarView>, insert: Seq<GrammarView>, at: Option<usize>) -> Seq<
    GrammarView,
> {
    match at {
        Some(i) => if i <= items.len() {
            items.take(i as int) + insert + items.skip(i as int)
        } else {
            items + insert
        },
        None => items + insert,
    }
}

/// The grammar with `insert` put in among what it is made of: the
/// elements of a sequence or of a bracketed grammar, the options of a
/// choice, a repetition or a delimited list. Any other grammar has nowhere
/// to put them and is left as it is.
pub open spec fn copied(grammar: GrammarView, insert: Seq<GrammarView>, at: Option<usize>) -> GrammarView {
    match grammar {
        GrammarView::Sequence { elements } => GrammarView::Sequence {
            elements: spliced(elements, insert, at),
        },
        GrammarView::OneOf { options } => GrammarView::OneOf {
            options: spliced(options, insert, at),
        },
        GrammarView::AnyNumberOf { options, min_times, max_times, max_times_per_element } => {
            GrammarView::AnyNumberOf {
                options: spliced(options, insert, at),
                min_times,
                max_times,
                max_times_per_element,
            }
        },
        GrammarView::Delimited { options, delimiter, min_delimiters, allow_trailing } => {
            GrammarView::Delimited {
                options: spliced(options, insert, at),
                delimiter,
                min_delimiters,
                allow_trailing,
            }
        },
        GrammarView::Bracketed { elements, bracket_type, parse_mode } => GrammarView::Bracketed {
            elements: spliced(elements, insert, at),
            bracket_type,
            parse_mode,
        },
        other => other,
    }
}

/// Copies of the items with `insert` put in among them.
fn splice(items: &Vec<Grammar>, insert: Vec<Grammar>, at: Option<usize>) -> (r: Vec<Grammar>)
    ensures
        grammar_views(r@) == spliced(grammar_views(items@), grammar_views(insert@), at),
{
    let ghost views = grammar_views(items@);
    let ghost added = grammar_views(insert@);
    let mut more = insert;
    let mut out = clone_grammars(items.as_slice());
    proof {
        lemma_grammar_views_index(items@);
        lemma_grammar_views_index(out@);
    }
    let n = out.len();
    let cut = match at {
        Some(i) => if i <= n {
            i
        } else {
            n
        },
        None => n,
    };
    proof {
        lemma_grammar_views_subrange(out@, 0, cut as int);
        lemma_grammar_views_subrange(out@, cut as int, n as int);
    }
    let mut tail = out.split_off(cut);
    assert(grammar_views(out@) == views.take(cut as int));
    assert(grammar_views(tail@) == views.skip(cut as int));
    proof {
        lemma_grammar_views_concat(out@, more@);
        lemma_grammar_views_concat(out@ + more@, tail@);
    }
    out.append(&mut more);
    out.append(&mut tail);
    assert(grammar_views(out@) == views.take(cut as int) + added + views.skip(cut as int));
    proof {
        if cut == n {
            assert(views.take(cut as int) =~= views);
            assert(views.skip(cut as int) =~= Seq::<GrammarView>::empty());
            assert(views + added + Seq::<GrammarView>::empty() =~= views + added);
        }
    }
    out
}

impl Grammar {
    /// A copy of the grammar with `insert` put in among what it is made
    /// of: before the `at`-th item, or behind all items.
    pub fn copy(&self, insert: Vec<Grammar>, at: Option<usize>) -> (r: Self)
        ensures
            grammar_view(r) == copied(grammar_view(*self), grammar_views(insert@), at),
    {
        match self {
            Grammar::Sequence { elements } => Grammar::Sequence {
                elements: splice(elements, insert, at),
            },
            Grammar::OneOf { options } => Grammar::OneOf { options: splice(options, insert, at) },
            Grammar::AnyNumberOf { options, min_times, max_times, max_times_per_element } => {
                Grammar::AnyNumberOf {
                    options: splice(options, insert, at),
                    min_times: *min_times,
                    max_times: *max_times,
                    max_times_per_element: *max_times_per_element,
                }
            },
            Grammar::Delimited { options, delimiter, min_delimiters, allow_trailing } => {
                Grammar::Delimited {
                    options: splice(options, insert, at),
                    delimiter: Box::new((**delimiter).clone()),
                    min_delimiters: *min_delimiters,
                    allow_trailing: *allow_trailing,
                }
            },
            Grammar::Bracketed { elements, bracket_type, parse_mode } => Grammar::Bracketed {
                elements: splice(elements, insert, at),
                bracket_type: bracket_type.clone(),
                parse_mode: *parse_mode,
            },
            other => other.clone(),
        }
    }
}

/// A list of grammars in the making.
pub struct GrammarList {
    pub items: Vec<Grammar>,
}

impl View for GrammarList {
    type V = Seq<GrammarView>;

    open spec fn view(&self) -> Seq<GrammarView> {
        grammar_views(self.items@)
    }
}

impl GrammarList {
    /// The list without a grammar.
    pub fn new() -> (r: Self)
        ensures
            r@ == Seq::<GrammarView>::empty(),
    {
        GrammarList { items: no_grammars() }
    }

    /// The list with `more` behind the grammars that it holds.
    pub fn and(self, more: Grammar) -> (r: Self)
        ensures
            r@ == self@.push(grammar_view(more)),
    {
        GrammarList { items: with(self.items, more) }
    }
}

impl Grammar {
    /// The grammar that matches nothing.
    pub fn nothing() -> (r: Self)
        ensures
            grammar_view(r) == GrammarView::Nothing,
    {
        Grammar::Nothing
    }

    /// The grammar that matches all that is left.
    pub fn anything() -> (r: Self)
        ensures
            grammar_view(r) == GrammarView::Anything,
    {
        Grammar::Anything
    }

    /// The marker of kind `kind`.
    pub fn meta(kind: SyntaxKind) -> (r: Self)
        ensures
            grammar_view(r) == (GrammarView::Meta { kind }),
    {
        Grammar::Meta { kind }
    }

    /// The marker of kind `kind`, put in where the flag `flag` is set.
    pub fn conditional(kind: SyntaxKind, flag: &str) -> (r: Self)
        ensures
            grammar_view(r) == (GrammarView::Conditional { kind, flag: flag@, expected: true }),
    {
        Grammar::Conditional { kind, flag: flag.to_owned(), expected: true }
    }

    /// The rule named `name`, unless `exclude` matches at the same place.
    pub fn reference_unless(name: &str, exclude: Grammar) -> (r: Self)
        ensures
            grammar_view(r) == (GrammarView::Ref {
                name: name@,
                exclude: Some(Box::new(grammar_view(exclude))),
            }),
    {
        Grammar::Ref { name: name.to_owned(), exclude: Some(Box::new(exclude)) }
    }

    /// The grammar `inner`, unless `exclude` matches at the same place.
    pub fn excluding(inner: Grammar, exclude: Grammar) -> (r: Self)
        ensures
            grammar_view(r) == (GrammarView::Excluding {
                inner: Box::new(grammar_view(inner)),
                exclude: Box::new(grammar_view(exclude)),
            }),
    {
        Grammar::Excluding { inner: Box::new(inner), exclude: Box::new(exclude) }
    }

    /// Each of the elements, one after the other.
    pub fn sequence_of(elements: GrammarList) -> (r: Self)
        ensures
            grammar_view(r) == (GrammarView::Sequence { elements: elements@ }),
    {
        Grammar::Sequence { elements: elements.items }
    }

    /// The first of the options that matches.
    pub fn first_of(options: GrammarList) -> (r: Self)
        ensures
            grammar_view(r) == (GrammarView::OneOf { options: options@ }),
    {
        Grammar::OneOf { options: options.items }
    }

    /// Any of the options, over and over, within the given bounds.
    pub fn repeated(
        options: GrammarList,
        min_times: usize,
        max_times: Option<usize>,
        max_times_per_element: Option<usize>,
    ) -> (r: Self)
        ensures
            grammar_view(r) == (GrammarView::AnyNumberOf {
                options: options@,
                min_times,
                max_times,
                max_times_per_element,
            }),
    {
        Grammar::AnyNumberOf { options: options.items, min_times, max_times, max_times_per_element }
    }

    /// Any of the options, over and over, with `delimiter` between each
    /// two.
    pub fn delimited_by(
        options: GrammarList,
        delimiter: Grammar,
        min_delimiters: usize,
        allow_trailing: bool,
    ) -> (r: Self)
        ensures
            grammar_view(r) == (GrammarView::Delimited {
                options: options@,
                delimiter: Box::new(grammar_view(delimiter)),
                min_delimiters,
                allow_trailing,
            }),
    {
        Grammar::Delimited {
            options: options.items,
            delimiter: Box::new(delimiter),
            min_delimiters,
            allow_trailing,
        }
    }

    /// The elements between the brackets of the type `bracket_type`.
    pub fn bracketed_by(elements: GrammarList, bracket_type: &str, parse_mode: ParseMode) -> (r:
        Self)
        ensures
            grammar_view(r) == (GrammarView::Bracketed {
                elements: elements@,
                bracket_type: bracket_type@,
                parse_mode,
            }),
    {
        Grammar::Bracketed {
            elements: elements.items,
            bracket_type: bracket_type.to_owned(),
            parse_mode,
        }
    }
}

/// Whether two optional counts are the same.
fn same_count(a: &Option<usize>, b: &Option<usize>) -> (r: bool)
    ensures
        r == (*a == *b),
{
    match (a, b) {
        (Some(x), Some(y)) => *x == *y,
        (None, None) => true,
        _ => false,
    }
}

/// Whether two lists of grammars are the same, one for one.
pub fn same_grammars(a: &[Grammar], b: &[Grammar]) -> (r: bool)
    ensures
        r == (grammar_views(a@) == grammar_views(b@)),
    decreases a@, 0nat,
{
    proof {
        lemma_grammar_views_index(a@);
        lemma_grammar_views_index(b@);
    }
    if a.len() != b.len() {
        return false;
    }
    let mut i: usize = 0;
    while i < a.len()
        invariant
            a@.len() == b@.len(),
            i <= a@.len(),
            grammar_views(a@).len() == a@.len(),
            grammar_views(b@).len() == b@.len(),
            forall|j: int|
                0 <= j < a@.len() ==> grammar_views(a@)[j] == (#[trigger] a@[j]).deep_view(),
            forall|j: int|
                0 <= j < b@.len() ==> grammar_views(b@)[j] == (#[trigger] b@[j]).deep_view(),
            forall|j: int| 0 <= j < i ==> grammar_views(a@)[j] == grammar_views(b@)[j],
        decreases a@.len() - i,
    {
        if !same_grammar(&a[i], &b[i]) {
            assert(grammar_views(a@)[i as int] != grammar_views(b@)[i as int]);
            return false;
        }
        i += 1;
    }
    assert(grammar_views(a@) =~= grammar_views(b@));
    true
}

/// Whether two grammars are the same: the same combinator over the same
/// parts.
pub fn same_grammar(a: &Grammar, b: &Grammar) -> (r: bool)
    ensures
        r == (grammar_view(*a) == grammar_view(*b)),
    decreases *a, 1nat,
{
    match (a, b) {
        (Grammar::Nothing, Grammar::Nothing) => true,
        (Grammar::Anything, Grammar::Anything) => true,
        (Grammar::Token { kind, becomes }, Grammar::Token { kind: k, becomes: c }) => *kind == *k
            && *becomes == *c,
        (Grammar::Text { template, becomes }, Grammar::Text { template: t, becomes: c }) => {
            same_text(template.as_str(), t.as_str()) && *becomes == *c
        },
        (Grammar::Regex { pattern, becomes }, Grammar::Regex { pattern: p, becomes: c }) => {
            same_text(pattern.as_str(), p.as_str()) && *becomes == *c
        },
        (Grammar::Meta { kind }, Grammar::Meta { kind: k }) => *kind == *k,
        (
            Grammar::Conditional { kind, flag, expected },
            Grammar::Conditional { kind: k, flag: f, expected: e },
        ) => *kind == *k && same_text(flag.as_str(), f.as_str()) && *expected == *e,
        (Grammar::Optional { inner }, Grammar::Optional { inner: i }) => same_grammar(inner, i),
        (
            Grammar::Excluding { inner, exclude },
            Grammar::Excluding { inner: i, exclude: e },
        ) => same_grammar(inner, i) && same_grammar(exclude, e),
        (Grammar::Node { kind, inner }, Grammar::Node { kind: k, inner: i }) => *kind == *k
            && same_grammar(inner, i),
        (Grammar::Ref { name, exclude }, Grammar::Ref { name: n, exclude: e }) => {
            let excludes = match (exclude, e) {
                (Some(x), Some(y)) => same_grammar(x, y),
                (None, None) => true,
                _ => false,
            };
            same_text(name.as_str(), n.as_str()) && excludes
        },
        (Grammar::KeywordOf { set }, Grammar::KeywordOf { set: t }) => same_text(
            set.as_str(),
            t.as_str(),
        ),
        (Grammar::Sequence { elements }, Grammar::Sequence { elements: e }) => same_grammars(
            elements.as_slice(),
            e.as_slice(),
        ),
        (Grammar::OneOf { options }, Grammar::OneOf { options: o }) => same_grammars(
            options.as_slice(),
            o.as_slice(),
        ),
        (
            Grammar::AnyNumberOf { options, min_times, max_times, max_times_per_element },
            Grammar::AnyNumberOf {
                options: o,
                min_times: lo,
                max_times: hi,
                max_times_per_element: each,
            },
        ) => *min_times == *lo && same_count(max_times, hi) && same_count(
            max_times_per_element,
            each,
        ) && same_grammars(options.as_slice(), o.as_slice()),
        (
            Grammar::Delimited { options, delimiter, min_delimiters, allow_trailing },
            Grammar::Delimited {
                options: o,
                delimiter: d,
                min_delimiters: least,
                allow_trailing: trailing,
            },
        ) => *min_delimiters == *least && *allow_trailing == *trailing && same_grammar(
            delimiter,
            d,
        ) && same_grammars(options.as_slice(), o.as_slice()),
        (
            Grammar::Bracketed { elements, bracket_type, parse_mode },
            Grammar::Bracketed { elements: e, bracket_type: t, parse_mode: m },
        ) => same_text(bracket_type.as_str(), t.as_str()) && *parse_mode == *m && same_grammars(
            elements.as_slice(),
            e.as_slice(),
        ),
        _ => false,
    }
}

/// The place of the first of `items` from the `from`-th on that is the
/// grammar `target`.
pub open spec fn first_index_of(items: Seq<GrammarView>, target: GrammarView, from: int) -> Option<
    int,
>
    decreases items.len() - from,
{
    if from < 0 || from >= items.len() {
        None
    } else if items[from] == target {
        Some(from)
    } else {
        first_index_of(items, target, from + 1)
    }
}

/// The items with `insert` put in before the first of them that is the
/// grammar `before`, or behind them all where there is no such item.
pub open spec fn spliced_before(
    items: Seq<GrammarView>,
    insert: Seq<GrammarView>,
    before: Option<GrammarView>,
) -> Seq<GrammarView> {
    match before {
        Some(b) => match first_index_of(items, b, 0) {
            Some(i) => items.take(i) + insert + items.skip(i),
            None => items + insert,
        },
        None => items + insert,
    }
}

/// The items that are none of the grammars of `remove`, in their order.
pub open spec fn without_those(items: Seq<GrammarView>, remove: Seq<GrammarView>) -> Seq<
    GrammarView,
>
    decreases items.len(),
{
    if items.len() == 0 {
        seq![]
    } else {
        let init = without_those(items.drop_last(), remove);
        if first_index_of(remove, items.last(), 0) is Some {
            init
        } else {
            init.push(items.last())
        }
    }
}

/// The items with `insert` put in before `before`, and then without those
/// of `remove`.
pub open spec fn respliced(
    items: Seq<GrammarView>,
    insert: Seq<GrammarView>,
    before: Option<GrammarView>,
    remove: Seq<GrammarView>,
) -> Seq<GrammarView> {
    without_those(spliced_before(items, insert, before), remove)
}

/// The grammar with `insert` put in among what it is made of, before the
/// first item that is `before` or behind all items, and with the items
/// that are grammars of `remove` taken out. A grammar that is not made of
/// a list of grammars is left as it is.
pub open spec fn recopied(
    grammar: GrammarView,
    insert: Seq<GrammarView>,
    before: Option<GrammarView>,
    remove: Seq<GrammarView>,
) -> GrammarView {
    match grammar {
        GrammarView::Sequence { elements } => GrammarView::Sequence {
            elements: respliced(elements, insert, before, remove),
        },
        GrammarView::OneOf { options } => GrammarView::OneOf {
            options: respliced(options, insert, before, remove),
        },
        GrammarView::AnyNumberOf { options, min_times, max_times, max_times_per_element } => {
            GrammarView::AnyNumberOf {
                options: respliced(options, insert, before, remove),
                min_times,
                max_times,
                max_times_per_element,
            }
        },
        GrammarView::Delimited { options, delimiter, min_delimiters, allow_trailing } => {
            GrammarView::Delimited {
                options: respliced(options, insert, before, remove),
                delimiter,
                min_delimiters,
                allow_trailing,
            }
        },
        GrammarView::Bracketed { elements, bracket_type, parse_mode } => GrammarView::Bracketed {
            elements: respliced(elements, insert, before, remove),
            bracket_type,
            parse_mode,
        },
        other => other,
    }
}

/// The place of the first of the items from the `from`-th on that is the
/// grammar `target`.
fn find_grammar(items: &Vec<Grammar>, target: &Grammar) -> (r: Option<usize>)
    ensures
        r is Some <==> first_index_of(grammar_views(items@), grammar_view(*target), 0) is Some,
        r matches Some(i) ==> i < items@.len() && first_index_of(
            grammar_views(items@),
            grammar_view(*target),
            0,
        ) == Some(i as int),
{
    let ghost views = grammar_views(items@);
    let ghost goal = first_index_of(views, grammar_view(*target), 0);
    proof {
        lemma_grammar_views_index(items@);
    }
    let mut i: usize = 0;
    while i < items.len()
        invariant
            views == grammar_views(items@),
            views.len() == items@.len(),
            forall|j: int| 0 <= j < items@.len() ==> views[j] == (#[trigger] items@[j]).deep_view(),
            i <= items@.len(),
            goal == first_index_of(views, grammar_view(*target), 0),
            goal == first_index_of(views, grammar_view(*target), i as int),
        decreases items@.len() - i,
    {
        assert(views[i as int] == items@[i as int].deep_view());
        if same_grammar(&items[i], target) {
            return Some(i);
        }
        i += 1;
    }
    None
}

/// Copies of the items with `insert` put in before `before`, without
/// those of `remove`.
fn resplice(items: &Vec<Grammar>, insert: Vec<Grammar>, before: &Option<Grammar>, remove: &Vec<
    Grammar,
>) -> (r: Vec<Grammar>)
    ensures
        grammar_views(r@) == respliced(
            grammar_views(items@),
            grammar_views(insert@),
            match *before {
                Some(b) => Some(grammar_view(b)),
                None => None,
            },
            grammar_views(remove@),
        ),
{
    let at = match before {
        Some(b) => find_grammar(items, b),
        None => None,
    };
    proof {
        lemma_grammar_views_index(items@);
    }
    let all = splice(items, insert, at);
    let ghost views = grammar_views(all@);
    let ghost those = grammar_views(remove@);
    proof {
        lemma_grammar_views_index(all@);
    }
    let mut out: Vec<Grammar> = Vec::new();
    let mut i: usize = 0;
    assert(grammar_views(out@) =~= Seq::<GrammarView>::empty());
    assert(views.take(0) =~= Seq::<GrammarView>::empty());
    while i < all.len()
        invariant
            views == grammar_views(all@),
            those == grammar_views(remove@),
            views.len() == all@.len(),
            forall|j: int| 0 <= j < all@.len() ==> views[j] == (#[trigger] all@[j]).deep_view(),
            i <= all@.len(),
            grammar_views(out@) == without_those(views.take(i as int), those),
        decreases all@.len() - i,
    {
        proof {
            assert(views.take(i + 1).drop_last() =~= views.take(i as int));
            assert(views.take(i + 1).last() == views[i as int]);
        }
        if find_grammar(remove, &all[i]).is_none() {
            let copy = all[i].clone();
            proof {
                lemma_grammar_views_push(out@, copy);
            }
            out.push(copy);
        }
        i += 1;
    }
    assert(views.take(i as int) =~= views);
    out
}

impl Grammar {
    /// A copy of the grammar with `insert` put in among what it is made
    /// of, before the first item that is `before` or behind all items
    /// where there is none, and without the items that are grammars of
    /// `remove`.
    pub fn copy_before(&self, insert: Vec<Grammar>, before: Option<Grammar>, remove: Vec<Grammar>) -> (r:
        Self)
        ensures
            grammar_view(r) == recopied(
                grammar_view(*self),
                grammar_views(insert@),
                match before {
                    Some(b) => Some(grammar_view(b)),
                    None => None,
                },
                grammar_views(remove@),
            ),
    {
        match self {
            Grammar::Sequence { elements } => Grammar::Sequence {
                elements: resplice(elements, insert, &before, &remove),
            },
            Grammar::OneOf { options } => Grammar::OneOf {
                options: resplice(options, insert, &before, &remove),
            },
            Grammar::AnyNumberOf { options, min_times, max_times, max_times_per_element } => {
                Grammar::AnyNumberOf {
                    options: resplice(options, insert, &before, &remove),
                    min_times: *min_times,
                    max_times: *max_times,
                    max_times_per_element: *max_times_per_element,
                }
            },
            Grammar::Delimited { options, delimiter, min_delimiters, allow_trailing } => {
                Grammar::Delimited {
                    options: resplice(options, insert, &before, &remove),
                    delimiter: Box::new(clone_grammar(delimiter)),
                    min_delimiters: *min_delimiters,
                    allow_trailing: *allow_trailing,
                }
            },
            Grammar::Bracketed { elements, bracket_type, parse_mode } => Grammar::Bracketed {
                elements: resplice(elements, insert, &before, &remove),
                bracket_type: bracket_type.clone(),
                parse_mode: *parse_mode,
            },
            other => clone_grammar(other),
        }
    }
}

} // verus!
