//! The dialect: a named table of grammar rules, word sets, lexer matchers
//! and bracket pairs, with the operations that compose one dialect out of
//! another.

use crate::grammar::{grammar_view, Grammar, GrammarView};
use crate::lexer::{Matcher, MatcherView, PatternView, SearchRule};
use crate::regexp::regex_compiles;
use crate::resolve::{
    closed, is_closed, lemma_closed_is_resolved, lemma_rules_closed, library_resolved, resolve,
    resolved, rules_closed,
};
use crate::syntax::SyntaxKind;
use crate::text::same_text;
use vstd::prelude::*;
use vstd::string::*;
use vstd::utf8::*;

verus! {

/// The SQL variants that a dialect can be of.
#[derive(Clone, Copy, Debug, PartialEq, Eq, Hash, Structural)]
pub enum DialectKind {
    Ansi,
    Bigquery,
    Clickhouse,
    Duckdb,
    Hive,
    Postgres,
    Snowflake,
    Sparksql,
    Sqlite,
}

/// Why a dialect refused an operation. Nothing is changed where an
/// operation is refused.
#[derive(Clone, Copy, Debug, PartialEq, Eq, Structural)]
pub enum DialectError {
    /// A rule to add has the name of a rule that there is already.
    DuplicateRule,
    /// There is no rule of the name to replace.
    UnknownRule,
    /// There is no lexer matcher of the name to insert before.
    UnknownMatcher,
    /// A rule refers to a rule or to a bracket pair that there is not.
    UnresolvedReference,
    /// The regular expression of a lexer matcher does not compile.
    BadPattern,
}

/// A grammar rule: a grammar under a name.
#[derive(Debug)]
pub struct Rule {
    pub name: String,
    pub grammar: Grammar,
}

/// The model of a rule.
pub struct RuleView {
    pub name: Seq<char>,
    pub grammar: GrammarView,
}

impl DeepView for Rule {
    type V = RuleView;

    open spec fn deep_view(&self) -> RuleView {
        RuleView { name: self.name@, grammar: grammar_view(self.grammar) }
    }
}

impl Rule {
    pub fn new(name: String, grammar: Grammar) -> (r: Self)
        ensures
            r.name == name,
            r.grammar == grammar,
    {
        Rule { name, grammar }
    }
}

/// A pair of brackets: the kind of token that opens and the kind that
/// closes.
#[derive(Debug)]
pub struct BracketPair {
    pub bracket_type: String,
    pub start: SyntaxKind,
    pub end: SyntaxKind,
}

/// The model of a bracket pair.
pub struct BracketPairView {
    pub bracket_type: Seq<char>,
    pub start: SyntaxKind,
    pub end: SyntaxKind,
}

impl DeepView for BracketPair {
    type V = BracketPairView;

    open spec fn deep_view(&self) -> BracketPairView {
        BracketPairView { bracket_type: self.bracket_type@, start: self.start, end: self.end }
    }
}

/// A set of words under a name: the words in the order in which they were
/// put in, each once.
#[derive(Debug)]
pub struct WordSet {
    label: String,
    words: Vec<String>,
}

/// The model of a word set.
pub struct WordSetView {
    pub label: Seq<char>,
    pub words: Seq<Seq<char>>,
}

/// The index of the first of `words`, at or after `from`, that is `word`.
pub open spec fn word_index(words: Seq<Seq<char>>, word: Seq<char>, from: int) -> Option<int>
    decreases words.len() - from,
{
    if from < 0 || from >= words.len() {
        None
    } else if words[from] == word {
        Some(from)
    } else {
        word_index(words, word, from + 1)
    }
}

/// The words with `more` put in behind them, one after the other, each
/// unless it is there already.
pub open spec fn words_extended(words: Seq<Seq<char>>, more: Seq<Seq<char>>) -> Seq<Seq<char>>
    decreases more.len(),
{
    if more.len() == 0 {
        words
    } else if word_index(words, more[0], 0) is Some {
        words_extended(words, more.drop_first())
    } else {
        words_extended(words.push(more[0]), more.drop_first())
    }
}

/// The views of the texts.
pub open spec fn text_views(texts: Seq<String>) -> Seq<Seq<char>> {
    Seq::new(texts.len(), |i: int| texts[i]@)
}

/// The views of the texts.
pub open spec fn str_views(texts: Seq<&str>) -> Seq<Seq<char>> {
    Seq::new(texts.len(), |i: int| texts[i]@)
}

impl DeepView for WordSet {
    type V = WordSetView;

    closed spec fn deep_view(&self) -> WordSetView {
        WordSetView { label: self.label@, words: text_views(self.words@) }
    }
}

impl WordSet {
    /// The empty set under the name `label`.
    pub fn new(label: &str) -> (r: Self)
        ensures
            r.deep_view() == (WordSetView { label: label@, words: seq![] }),
    {
        let r = WordSet { label: label.to_owned(), words: Vec::new() };
        assert(text_views(r.words@) =~= Seq::<Seq<char>>::empty());
        r
    }

    /// Whether `word` is in the set.
    pub fn contains(&self, word: &str) -> (r: bool)
        ensures
            r == word_index(self.deep_view().words, word@, 0) is Some,
    {
        let ghost words = text_views(self.words@);
        let mut i: usize = 0;
        while i < self.words.len()
            invariant
                words == text_views(self.words@),
                i <= self.words@.len(),
                word_index(words, word@, 0) == word_index(words, word@, i as int),
            decreases self.words@.len() - i,
        {
            if same_text(self.words[i].as_str(), word) {
                return true;
            }
            i += 1;
        }
        false
    }

    /// How many words the set holds.
    pub fn len(&self) -> (r: usize)
        ensures
            r == self.deep_view().words.len(),
    {
        self.words.len()
    }

    /// The `i`-th word of the set.
    pub fn word(&self, i: usize) -> (r: &str)
        requires
            i < self.deep_view().words.len(),
        ensures
            r@ == self.deep_view().words[i as int],
    {
        self.words[i].as_str()
    }

    /// Takes all words out of the set.
    pub fn clear(&mut self)
        ensures
            final(self).deep_view() == (WordSetView { words: seq![], ..old(self).deep_view() }),
    {
        self.words.clear();
        assert(text_views(self.words@) =~= Seq::<Seq<char>>::empty());
    }

    /// Puts `word` into the set, behind the others, unless it is there.
    pub fn insert(&mut self, word: &str)
        ensures
            final(self).deep_view() == (WordSetView {
                words: words_extended(old(self).deep_view().words, seq![word@]),
                ..old(self).deep_view()
            }),
    {
        let ghost before = text_views(self.words@);
        proof {
            let none = Seq::<Seq<char>>::empty();
            assert(seq![word@].drop_first() =~= none);
            assert(words_extended(before, none) == before);
            assert(words_extended(before.push(word@), none) == before.push(word@));
        }
        if !self.contains(word) {
            self.words.push(word.to_owned());
            assert(text_views(self.words@) =~= before.push(word@));
        }
    }

    /// Puts each of `words` into the set, in order, unless it is there.
    pub fn extend(&mut self, words: &[&str])
        ensures
            final(self).deep_view() == (WordSetView {
                words: words_extended(old(self).deep_view().words, str_views(words@)),
                ..old(self).deep_view()
            }),
    {
        let ghost more = str_views(words@);
        let ghost goal = words_extended(text_views(self.words@), more);
        let mut k: usize = 0;
        assert(more.skip(0) =~= more);
        while k < words.len()
            invariant
                more == str_views(words@),
                k <= words@.len(),
                self.label == old(self).label,
                goal == words_extended(text_views(self.words@), more.skip(k as int)),
            decreases words@.len() - k,
        {
            let ghost before = text_views(self.words@);
            let ghost rest = more.skip(k as int);
            assert(rest[0] == words@[k as int]@);
            assert(rest.drop_first() =~= more.skip(k + 1));
            if !self.contains(words[k]) {
                self.words.push(words[k].to_owned());
                assert(text_views(self.words@) =~= before.push(words@[k as int]@));
            }
            k += 1;
        }
        assert(more.skip(k as int) =~= Seq::<Seq<char>>::empty());
    }
}

/// The index of the first of `rules`, at or after `from`, that is named
/// `name`.
pub open spec fn rule_index(rules: Seq<RuleView>, name: Seq<char>, from: int) -> Option<int>
    decreases rules.len() - from,
{
    if from < 0 || from >= rules.len() {
        None
    } else if rules[from].name == name {
        Some(from)
    } else {
        rule_index(rules, name, from + 1)
    }
}

/// The grammar that `rules` hold under `name`: that of the first rule of
/// that name.
pub open spec fn lookup_rule(rules: Seq<RuleView>, name: Seq<char>) -> Option<GrammarView> {
    match rule_index(rules, name, 0) {
        Some(i) => Some(rules[i].grammar),
        None => None,
    }
}

/// What `rule_index` finds is a rule of the name, and the first of them.
pub proof fn lemma_rule_index(rules: Seq<RuleView>, name: Seq<char>, from: int)
    requires
        0 <= from,
    ensures
        rule_index(rules, name, from) matches Some(i) ==> from <= i < rules.len() && rules[i].name
            == name && forall|j: int| from <= j < i ==> rules[j].name != name,
        rule_index(rules, name, from) is None ==> forall|j: int|
            from <= j < rules.len() ==> rules[j].name != name,
    decreases rules.len() - from,
{
    if from < rules.len() && rules[from].name != name {
        lemma_rule_index(rules, name, from + 1);
    }
}

/// Two lists of rules with the same names at the same places find a name
/// at the same place.
pub proof fn lemma_rule_index_same_names(
    a: Seq<RuleView>,
    b: Seq<RuleView>,
    name: Seq<char>,
    from: int,
)
    requires
        0 <= from,
        a.len() == b.len(),
        forall|i: int| 0 <= i < a.len() ==> a[i].name == b[i].name,
    ensures
        rule_index(a, name, from) == rule_index(b, name, from),
    decreases a.len() - from,
{
    if from < a.len() && a[from].name != name {
        lemma_rule_index_same_names(a, b, name, from + 1);
    }
}

/// Whether the rules `entries`, from the `k`-th on, can be added behind
/// `rules`: none has the name of a rule of `rules` or of an entry before
/// it.
pub open spec fn addable(rules: Seq<RuleView>, entries: Seq<RuleView>, k: int) -> bool
    decreases entries.len() - k,
{
    if k < 0 || k >= entries.len() {
        true
    } else {
        &&& rule_index(rules, entries[k].name, 0) is None
        &&& rule_index(entries.take(k), entries[k].name, 0) is None
        &&& addable(rules, entries, k + 1)
    }
}

/// The index of the first of `matchers`, at or after `from`, that is named
/// `name`.
pub open spec fn matcher_index(matchers: Seq<MatcherView>, name: Seq<char>, from: int) -> Option<
    int,
>
    decreases matchers.len() - from,
{
    if from < 0 || from >= matchers.len() {
        None
    } else if matchers[from].pattern.name == name {
        Some(from)
    } else {
        matcher_index(matchers, name, from + 1)
    }
}

/// The matchers with each one replaced by the first of `patch` that has
/// its name, if there is one.
pub open spec fn matchers_patched(matchers: Seq<MatcherView>, patch: Seq<MatcherView>) -> Seq<
    MatcherView,
> {
    Seq::new(
        matchers.len(),
        |i: int|
            match matcher_index(patch, matchers[i].pattern.name, 0) {
                Some(p) => patch[p],
                None => matchers[i],
            },
    )
}

/// The index of the first of `sets`, at or after `from`, that is named
/// `label`.
pub open spec fn set_index(sets: Seq<WordSetView>, label: Seq<char>, from: int) -> Option<int>
    decreases sets.len() - from,
{
    if from < 0 || from >= sets.len() {
        None
    } else if sets[from].label == label {
        Some(from)
    } else {
        set_index(sets, label, from + 1)
    }
}

/// The words of the set named `label`: none where there is no such set.
pub open spec fn words_of(sets: Seq<WordSetView>, label: Seq<char>) -> Seq<Seq<char>> {
    match set_index(sets, label, 0) {
        Some(i) => sets[i].words,
        None => seq![],
    }
}

/// The index of the first of `pairs`, at or after `from`, that is of the
/// type `bracket_type`.
pub open spec fn bracket_index(
    pairs: Seq<BracketPairView>,
    bracket_type: Seq<char>,
    from: int,
) -> Option<int>
    decreases pairs.len() - from,
{
    if from < 0 || from >= pairs.len() {
        None
    } else if pairs[from].bracket_type == bracket_type {
        Some(from)
    } else {
        bracket_index(pairs, bracket_type, from + 1)
    }
}

/// The model of a dialect.
pub struct DialectView {
    pub name: DialectKind,
    pub lexer_matchers: Seq<MatcherView>,
    pub library: Seq<RuleView>,
    pub sets: Seq<WordSetView>,
    pub bracket_pairs: Seq<BracketPairView>,
}

/// A dialect.
#[derive(Debug)]
pub struct Dialect {
    pub name: DialectKind,
    lexer_matchers: Vec<Matcher>,
    library: Vec<Rule>,
    sets: Vec<WordSet>,
    bracket_pairs: Vec<BracketPair>,
}

impl DeepView for Dialect {
    type V = DialectView;

    closed spec fn deep_view(&self) -> DialectView {
        DialectView {
            name: self.name,
            lexer_matchers: self.lexer_matchers.deep_view(),
            library: self.library.deep_view(),
            sets: self.sets.deep_view(),
            bracket_pairs: self.bracket_pairs.deep_view(),
        }
    }
}

/// The index of the first rule before `upto` that is named `name`.
pub(crate) fn find_rule(rules: &Vec<Rule>, name: &str, upto: usize) -> (r: Option<usize>)
    requires
        upto <= rules@.len(),
    ensures
        r is Some <==> rule_index(rules.deep_view().take(upto as int), name@, 0) is Some,
        r matches Some(i) ==> i < upto && rule_index(rules.deep_view().take(upto as int), name@, 0)
            == Some(i as int),
{
    let ghost views = rules.deep_view().take(upto as int);
    let mut i: usize = 0;
    while i < upto
        invariant
            views == rules.deep_view().take(upto as int),
            i <= upto <= rules@.len(),
            rule_index(views, name@, 0) == rule_index(views, name@, i as int),
        decreases upto - i,
    {
        assert(views[i as int] == rules@[i as int].deep_view());
        if same_text(rules[i].name.as_str(), name) {
            return Some(i);
        }
        i += 1;
    }
    None
}

impl Dialect {
    /// A dialect of the given kind without matchers, rules, sets or
    /// bracket pairs.
    pub fn new(name: DialectKind) -> (r: Self)
        ensures
            r.deep_view() == (DialectView {
                name,
                lexer_matchers: seq![],
                library: seq![],
                sets: seq![],
                bracket_pairs: seq![],
            }),
    {
        let r = Dialect {
            name,
            lexer_matchers: Vec::new(),
            library: Vec::new(),
            sets: Vec::new(),
            bracket_pairs: Vec::new(),
        };
        assert(r.lexer_matchers.deep_view() =~= Seq::<MatcherView>::empty());
        assert(r.library.deep_view() =~= Seq::<RuleView>::empty());
        assert(r.sets.deep_view() =~= Seq::<WordSetView>::empty());
        assert(r.bracket_pairs.deep_view() =~= Seq::<BracketPairView>::empty());
        r
    }

    /// The lexer matchers of the dialect, in the order in which the lexer
    /// tries them.
    pub fn lexer_matchers(&self) -> (r: &[Matcher])
        ensures
            r.deep_view() == self.deep_view().lexer_matchers,
    {
        let r = self.lexer_matchers.as_slice();
        assert(r.deep_view() =~= self.lexer_matchers.deep_view());
        r
    }

    /// Sets the lexer matchers of the dialect.
    pub fn set_lexer_matchers(&mut self, lexer_matchers: Vec<Matcher>)
        ensures
            final(self).deep_view() == (DialectView {
                lexer_matchers: lexer_matchers.deep_view(),
                ..old(self).deep_view()
            }),
    {
        self.lexer_matchers = lexer_matchers;
    }

    /// The grammar of the rule named `name`.
    pub fn grammar(&self, name: &str) -> (r: Option<&Grammar>)
        ensures
            r is Some <==> lookup_rule(self.deep_view().library, name@) is Some,
            r matches Some(g) ==> lookup_rule(self.deep_view().library, name@) == Some(
                grammar_view(*g),
            ),
    {
        assert(self.library.deep_view().take(self.library@.len() as int)
            =~= self.library.deep_view());
        match find_rule(&self.library, name, self.library.len()) {
            Some(i) => Some(&self.library[i].grammar),
            None => None,
        }
    }

    /// Adds the rules `entries` behind those that there are. No rule is
    /// overwritten: where an entry has the name of a rule that there is, or
    /// of an entry before it, nothing is added.
    pub fn add(&mut self, entries: Vec<Rule>) -> (r: Result<(), DialectError>)
        ensures
            r is Ok <==> addable(old(self).deep_view().library, entries.deep_view(), 0),
            r is Ok ==> final(self).deep_view() == (DialectView {
                library: old(self).deep_view().library + entries.deep_view(),
                ..old(self).deep_view()
            }),
            r matches Err(e) ==> e == DialectError::DuplicateRule && final(self).deep_view() == old(
                self,
            ).deep_view(),
    {
        let ghost rules = self.library.deep_view();
        let ghost added = entries.deep_view();
        let mut k: usize = 0;
        while k < entries.len()
            invariant
                rules == self.library.deep_view(),
                added == entries.deep_view(),
                *self == *old(self),
                k <= entries@.len(),
                addable(rules, added, 0) == addable(rules, added, k as int),
            decreases entries@.len() - k,
        {
            let name = entries[k].name.as_str();
            assert(added[k as int] == entries@[k as int].deep_view());
            assert(rules.take(self.library@.len() as int) =~= rules);
            if find_rule(&self.library, name, self.library.len()).is_some() || find_rule(
                &entries,
                name,
                k,
            ).is_some() {
                return Err(DialectError::DuplicateRule);
            }
            k += 1;
        }
        let mut entries = entries;
        self.library.append(&mut entries);
        assert(self.library.deep_view() =~= rules + added);
        Ok(())
    }

    /// Puts `grammar` in the place of the grammar of the rule named `name`,
    /// which must be there. A rule that makes a node keeps making nodes of
    /// its kind: it is the grammar within the node that is replaced.
    pub fn replace_grammar(&mut self, name: &str, grammar: Grammar) -> (r: Result<(), DialectError>)
        ensures
            r is Ok <==> rule_index(old(self).deep_view().library, name@, 0) is Some,
            r is Ok ==> {
                let library = old(self).deep_view().library;
                let at = rule_index(library, name@, 0).unwrap();
                final(self).deep_view() == (DialectView {
                    library: library.update(
                        at,
                        RuleView {
                            name: name@,
                            grammar: rewrapped(library[at].grammar, grammar_view(grammar)),
                        },
                    ),
                    ..old(self).deep_view()
                })
            },
            r matches Err(e) ==> e == DialectError::UnknownRule && final(self).deep_view() == old(
                self,
            ).deep_view(),
    {
        let ghost rules = self.library.deep_view();
        assert(rules.take(self.library@.len() as int) =~= rules);
        match find_rule(&self.library, name, self.library.len()) {
            Some(i) => {
                assert(rules[i as int] == self.library@[i as int].deep_view());
                let bound = match &self.library[i].grammar {
                    Grammar::Node { kind, .. } => Grammar::Node { kind: *kind, inner: Box::new(grammar) },
                    _ => grammar,
                };
                let rule = Rule { name: name.to_owned(), grammar: bound };
                let ghost view = rule.deep_view();
                self.library.insert(i, rule);
                let _ = self.library.remove(i + 1);
                assert(self.library.deep_view() =~= rules.update(i as int, view));
                Ok(())
            },
            None => Err(DialectError::UnknownRule),
        }
    }

    /// Binds `name` to `grammar`, whether or not a rule of that name is
    /// there: the rule that is there gets the grammar in the place of its
    /// own, and a new rule is put behind the others.
    pub fn define(&mut self, name: &str, grammar: Grammar)
        ensures
            final(self).deep_view() == (DialectView {
                library: defined(old(self).deep_view().library, name@, grammar_view(grammar)),
                ..old(self).deep_view()
            }),
    {
        let ghost rules = self.library.deep_view();
        assert(rules.take(self.library@.len() as int) =~= rules);
        let rule = Rule { name: name.to_owned(), grammar };
        let ghost view = rule.deep_view();
        match find_rule(&self.library, name, self.library.len()) {
            Some(i) => {
                self.library.insert(i, rule);
                let _ = self.library.remove(i + 1);
                assert(self.library.deep_view() =~= rules.update(i as int, view));
            },
            None => {
                self.library.push(rule);
                assert(self.library.deep_view() =~= rules.push(view));
            },
        }
    }

    /// A copy of the grammar within the node that the rule named `name`
    /// makes. None where there is no such rule, or it makes no node.
    pub fn match_grammar(&self, name: &str) -> (r: Option<Grammar>)
        ensures
            match node_grammar(self.deep_view().library, name@) {
                Some(inner) => r matches Some(g) && grammar_view(g) == inner,
                None => r is None,
            },
    {
        match self.grammar(name) {
            Some(Grammar::Node { inner, .. }) => Some((**inner).clone()),
            _ => None,
        }
    }
}

/// The grammar `new` as what takes the place of `old`: within a node of
/// the kind of `old` if `old` makes a node, as it is if not.
pub open spec fn rewrapped(old: GrammarView, new: GrammarView) -> GrammarView {
    match old {
        GrammarView::Node { kind, .. } => GrammarView::Node { kind, inner: Box::new(new) },
        _ => new,
    }
}

/// The rules with `name` bound to `grammar`: in the place of the first rule
/// of that name, or behind all rules where there is none.
pub open spec fn defined(rules: Seq<RuleView>, name: Seq<char>, grammar: GrammarView) -> Seq<
    RuleView,
> {
    match rule_index(rules, name, 0) {
        Some(at) => rules.update(at, RuleView { name, grammar }),
        None => rules.push(RuleView { name, grammar }),
    }
}

/// The grammar within the node that the rule named `name` makes.
pub open spec fn node_grammar(rules: Seq<RuleView>, name: Seq<char>) -> Option<GrammarView> {
    match lookup_rule(rules, name) {
        Some(GrammarView::Node { inner, .. }) => Some(*inner),
        _ => None,
    }
}

/// The index of the first matcher that is named `name`.
fn find_matcher(matchers: &Vec<Matcher>, name: &str) -> (r: Option<usize>)
    ensures
        r is Some <==> matcher_index(matchers.deep_view(), name@, 0) is Some,
        r matches Some(i) ==> i < matchers@.len() && matcher_index(matchers.deep_view(), name@, 0)
            == Some(i as int),
{
    let ghost views = matchers.deep_view();
    let mut i: usize = 0;
    while i < matchers.len()
        invariant
            views == matchers.deep_view(),
            i <= matchers@.len(),
            matcher_index(views, name@, 0) == matcher_index(views, name@, i as int),
        decreases matchers@.len() - i,
    {
        assert(views[i as int] == matchers@[i as int]@);
        if same_text(matchers[i].name(), name) {
            return Some(i);
        }
        i += 1;
    }
    None
}

/// The index of the first set that is named `label`.
pub(crate) fn find_set(sets: &Vec<WordSet>, label: &str) -> (r: Option<usize>)
    ensures
        r is Some <==> set_index(sets.deep_view(), label@, 0) is Some,
        r matches Some(i) ==> i < sets@.len() && set_index(sets.deep_view(), label@, 0) == Some(
            i as int,
        ),
{
    let ghost views = sets.deep_view();
    let mut i: usize = 0;
    while i < sets.len()
        invariant
            views == sets.deep_view(),
            i <= sets@.len(),
            set_index(views, label@, 0) == set_index(views, label@, i as int),
        decreases sets@.len() - i,
    {
        assert(views[i as int] == sets@[i as int].deep_view());
        if same_text(sets[i].label.as_str(), label) {
            return Some(i);
        }
        i += 1;
    }
    None
}

impl Dialect {
    /// Puts the matchers `lexer_patch` into the list of lexer matchers,
    /// just before the matcher named `before`, which must be there. The
    /// lexer tries them before that matcher and all behind it.
    pub fn insert_lexer_matchers(&mut self, lexer_patch: Vec<Matcher>, before: &str) -> (r: Result<
        (),
        DialectError,
    >)
        ensures
            r is Ok <==> matcher_index(old(self).deep_view().lexer_matchers, before@, 0) is Some,
            r is Ok ==> {
                let matchers = old(self).deep_view().lexer_matchers;
                let at = matcher_index(matchers, before@, 0).unwrap();
                final(self).deep_view() == (DialectView {
                    lexer_matchers: matchers.take(at) + lexer_patch.deep_view() + matchers.skip(
                        at,
                    ),
                    ..old(self).deep_view()
                })
            },
            r matches Err(e) ==> e == DialectError::UnknownMatcher && final(self).deep_view()
                == old(self).deep_view(),
    {
        let ghost matchers = self.lexer_matchers.deep_view();
        let ghost patch = lexer_patch.deep_view();
        match find_matcher(&self.lexer_matchers, before) {
            Some(at) => {
                let mut lexer_patch = lexer_patch;
                let mut tail = self.lexer_matchers.split_off(at);
                self.lexer_matchers.append(&mut lexer_patch);
                self.lexer_matchers.append(&mut tail);
                assert(self.lexer_matchers.deep_view() =~= matchers.take(at as int) + patch
                    + matchers.skip(at as int));
                Ok(())
            },
            None => Err(DialectError::UnknownMatcher),
        }
    }

    /// Puts each matcher of `lexer_patch` in the place of the lexer matcher
    /// that has its name. The order of the list stays; a matcher of
    /// `lexer_patch` whose name no lexer matcher has is left out.
    pub fn patch_lexer_matchers(&mut self, lexer_patch: Vec<Matcher>)
        ensures
            final(self).deep_view() == (DialectView {
                lexer_matchers: matchers_patched(
                    old(self).deep_view().lexer_matchers,
                    lexer_patch.deep_view(),
                ),
                ..old(self).deep_view()
            }),
    {
        let ghost matchers = self.lexer_matchers.deep_view();
        let ghost patch = lexer_patch.deep_view();
        let mut buff: Vec<Matcher> = Vec::new();
        let mut i: usize = 0;
        while i < self.lexer_matchers.len()
            invariant
                *self == *old(self),
                matchers == self.lexer_matchers.deep_view(),
                patch == lexer_patch.deep_view(),
                i <= self.lexer_matchers@.len(),
                buff.deep_view() == matchers_patched(matchers, patch).take(i as int),
            decreases self.lexer_matchers@.len() - i,
        {
            let ghost before = buff.deep_view();
            assert(matchers[i as int] == self.lexer_matchers@[i as int]@);
            let matcher = match find_matcher(&lexer_patch, self.lexer_matchers[i].name()) {
                Some(p) => {
                    assert(patch[p as int] == lexer_patch@[p as int]@);
                    lexer_patch[p].clone()
                },
                None => self.lexer_matchers[i].clone(),
            };
            buff.push(matcher);
            assert(buff.deep_view() =~= before.push(matchers_patched(matchers, patch)[i as int]));
            assert(matchers_patched(matchers, patch).take(i + 1) =~= matchers_patched(
                matchers,
                patch,
            ).take(i as int).push(matchers_patched(matchers, patch)[i as int]));
            i += 1;
        }
        assert(matchers_patched(matchers, patch).take(i as int) =~= matchers_patched(
            matchers,
            patch,
        ));
        self.lexer_matchers = buff;
    }

    /// The words of the set named `label`: none where there is no such
    /// set.
    pub fn sets(&self, label: &str) -> (r: Vec<String>)
        ensures
            text_views(r@) == words_of(self.deep_view().sets, label@),
    {
        match find_set(&self.sets, label) {
            Some(i) => {
                let set = &self.sets[i];
                assert(self.sets.deep_view()[i as int] == set.deep_view());
                let mut out: Vec<String> = Vec::new();
                let mut k: usize = 0;
                while k < set.words.len()
                    invariant
                        k <= set.words@.len(),
                        text_views(out@) == text_views(set.words@).take(k as int),
                    decreases set.words@.len() - k,
                {
                    let ghost before = text_views(out@);
                    out.push(set.words[k].clone());
                    assert(text_views(out@) =~= before.push(set.words@[k as int]@));
                    assert(text_views(set.words@).take(k + 1) =~= text_views(set.words@).take(
                        k as int,
                    ).push(set.words@[k as int]@));
                    k += 1;
                }
                assert(text_views(set.words@).take(k as int) =~= text_views(set.words@));
                out
            },
            None => {
                let out: Vec<String> = Vec::new();
                assert(text_views(out@) =~= Seq::<Seq<char>>::empty());
                out
            },
        }
    }

    /// The set named `label`, to change it. Where there is no such set, an
    /// empty one is put behind the others first.
    pub fn sets_mut(&mut self, label: &str) -> (r: &mut WordSet)
        ensures
            ({
                let before = sets_with(old(self).deep_view().sets, label@);
                let at = set_place(old(self).deep_view().sets, label@);
                &&& 0 <= at < before.len()
                &&& r.deep_view() == before[at]
                &&& final(self).deep_view() == (DialectView {
                    sets: before.update(at, final(r).deep_view()),
                    ..old(self).deep_view()
                })
            }),
    {
        let at = match find_set(&self.sets, label) {
            Some(i) => i,
            None => {
                let ghost before = self.sets.deep_view();
                self.sets.push(WordSet::new(label));
                assert(self.sets.deep_view() =~= before.push(
                    WordSetView { label: label@, words: seq![] },
                ));
                self.sets.len() - 1
            },
        };
        let ghost before = self.sets.deep_view();
        let ghost exec_before = self.sets@;
        let r = &mut self.sets[at];
        proof {
            assert(before[at as int] == exec_before[at as int].deep_view());
            assert(exec_before.update(at as int, *final(r)).len() == before.len());
            assert(Seq::new(
                before.len(),
                |i: int| exec_before.update(at as int, *final(r))[i].deep_view(),
            ) =~= before.update(at as int, final(r).deep_view()));
        }
        r
    }
}

/// The sets with an empty set named `label` behind them, unless there is a
/// set of that name.
pub open spec fn sets_with(sets: Seq<WordSetView>, label: Seq<char>) -> Seq<WordSetView> {
    match set_index(sets, label, 0) {
        Some(_) => sets,
        None => sets.push(WordSetView { label, words: seq![] }),
    }
}

/// The place of the set named `label` in `sets_with`.
pub open spec fn set_place(sets: Seq<WordSetView>, label: Seq<char>) -> int {
    match set_index(sets, label, 0) {
        Some(i) => i,
        None => sets.len() as int,
    }
}

impl Dialect {
    /// The kinds of token that open and close the brackets of the type
    /// `bracket_type`.
    pub fn bracket_pair(&self, bracket_type: &str) -> (r: Option<(SyntaxKind, SyntaxKind)>)
        ensures
            r is Some <==> bracket_index(self.deep_view().bracket_pairs, bracket_type@, 0) is Some,
            r matches Some((start, end)) ==> {
                let pairs = self.deep_view().bracket_pairs;
                let at = bracket_index(pairs, bracket_type@, 0).unwrap();
                &&& 0 <= at < pairs.len()
                &&& pairs[at].start == start
                &&& pairs[at].end == end
            },
    {
        let ghost pairs = self.bracket_pairs.deep_view();
        let mut i: usize = 0;
        while i < self.bracket_pairs.len()
            invariant
                pairs == self.bracket_pairs.deep_view(),
                i <= self.bracket_pairs@.len(),
                bracket_index(pairs, bracket_type@, 0) == bracket_index(
                    pairs,
                    bracket_type@,
                    i as int,
                ),
            decreases self.bracket_pairs@.len() - i,
        {
            let pair = &self.bracket_pairs[i];
            assert(pairs[i as int] == pair.deep_view());
            if same_text(pair.bracket_type.as_str(), bracket_type) {
                return Some((pair.start, pair.end));
            }
            i += 1;
        }
        None
    }

    /// Adds a bracket pair behind those that there are.
    pub fn add_bracket_pair(&mut self, bracket_type: &str, start: SyntaxKind, end: SyntaxKind)
        ensures
            final(self).deep_view() == (DialectView {
                bracket_pairs: old(self).deep_view().bracket_pairs.push(
                    BracketPairView { bracket_type: bracket_type@, start, end },
                ),
                ..old(self).deep_view()
            }),
    {
        let ghost before = self.bracket_pairs.deep_view();
        self.bracket_pairs.push(BracketPair { bracket_type: bracket_type.to_owned(), start, end });
        assert(self.bracket_pairs.deep_view() =~= before.push(
            BracketPairView { bracket_type: bracket_type@, start, end },
        ));
    }
}

/// Whether a dialect is expanded: each of its rules is closed with respect
/// to its rules and bracket pairs.
pub open spec fn is_expanded(dialect: DialectView) -> bool {
    rules_closed(
        dialect.library,
        dialect.library.len() as int,
        dialect.library,
        dialect.bracket_pairs,
    )
}

/// What expanding makes of a dialect: its rules, each with the choices of
/// words resolved against the word sets, if they are then closed; else the
/// dialect is refused as it refers to something that there is not.
pub open spec fn expanded(dialect: DialectView) -> Result<DialectView, DialectError> {
    let library = library_resolved(dialect.library, dialect.sets);
    let after = DialectView { library, ..dialect };
    if is_expanded(after) {
        Ok(after)
    } else {
        Err(DialectError::UnresolvedReference)
    }
}

/// Expanding is idempotent: a dialect that was expanded is expanded into
/// itself.
pub proof fn lemma_expand_idempotent(dialect: DialectView)
    ensures
        expanded(dialect) matches Ok(once) ==> expanded(once) == Ok::<DialectView, DialectError>(
            once,
        ),
{
    match expanded(dialect) {
        Ok(once) => {
            let library = once.library;
            lemma_rules_closed(library, library.len() as int, library, once.bracket_pairs);
            let again = library_resolved(library, once.sets);
            assert forall|i: int| 0 <= i < library.len() implies again[i] == library[i] by {
                lemma_closed_is_resolved(
                    library[i].grammar,
                    once.sets,
                    library,
                    once.bracket_pairs,
                );
            }
            assert(again =~= library);
        },
        Err(_) => {},
    }
}

/// Replacing a rule leaves every rule of another name as it is.
pub proof fn lemma_replace_keeps_other_rules(
    rules: Seq<RuleView>,
    name: Seq<char>,
    grammar: GrammarView,
    other: Seq<char>,
)
    requires
        rule_index(rules, name, 0) is Some,
        other != name,
    ensures
        lookup_rule(
            rules.update(rule_index(rules, name, 0).unwrap(), RuleView { name, grammar }),
            other,
        ) == lookup_rule(rules, other),
{
    let at = rule_index(rules, name, 0).unwrap();
    lemma_rule_index(rules, name, 0);
    let after = rules.update(at, RuleView { name, grammar });
    lemma_rule_index_same_names(rules, after, other, 0);
    lemma_rule_index(rules, other, 0);
}

impl Dialect {
    /// Closes the dialect: the choices of words in its rules are resolved
    /// against its word sets, and the rules are checked to refer only to
    /// rules and bracket pairs that there are. A dialect whose rules do
    /// not is left as it was.
    pub fn expand(&mut self) -> (r: Result<(), DialectError>)
        ensures
            match expanded(old(self).deep_view()) {
                Ok(after) => r is Ok && final(self).deep_view() == after && is_expanded(
                    final(self).deep_view(),
                ),
                Err(e) => r == Err::<(), DialectError>(e) && final(self).deep_view() == old(
                    self,
                ).deep_view(),
            },
    {
        let ghost before = self.deep_view();
        let ghost goal = library_resolved(before.library, before.sets);
        let mut library: Vec<Rule> = Vec::new();
        let mut i: usize = 0;
        while i < self.library.len()
            invariant
                *self == *old(self),
                before == self.deep_view(),
                goal == library_resolved(before.library, before.sets),
                i <= self.library@.len(),
                library.deep_view() == goal.take(i as int),
            decreases self.library@.len() - i,
        {
            let ghost made = library.deep_view();
            let rule = &self.library[i];
            assert(before.library[i as int] == rule.deep_view());
            library.push(Rule { name: rule.name.clone(), grammar: resolve(&rule.grammar, &self.sets) });
            assert(library.deep_view() =~= made.push(goal[i as int]));
            assert(goal.take(i + 1) =~= goal.take(i as int).push(goal[i as int]));
            i += 1;
        }
        assert(goal.take(i as int) =~= goal);
        let mut k: usize = 0;
        while k < library.len()
            invariant
                *self == *old(self),
                before == self.deep_view(),
                goal == library_resolved(before.library, before.sets),
                library.deep_view() == goal,
                k <= library@.len(),
                rules_closed(goal, k as int, goal, before.bracket_pairs),
            decreases library@.len() - k,
        {
            assert(goal[k as int] == library@[k as int].deep_view());
            if !is_closed(&library[k].grammar, &library, self) {
                proof {
                    assert(goal.len() == library@.len());
                    lemma_rules_not_closed(
                        goal,
                        goal.len() as int,
                        k as int,
                        goal,
                        before.bracket_pairs,
                    );
                    let after = DialectView { library: goal, ..before };
                    assert(!is_expanded(after));
                }
                return Err(DialectError::UnresolvedReference);
            }
            k += 1;
        }
        self.library = library;
        Ok(())
    }
}

/// Rules of which one is not closed are not closed.
pub proof fn lemma_rules_not_closed(
    library: Seq<RuleView>,
    upto: int,
    k: int,
    rules: Seq<RuleView>,
    pairs: Seq<BracketPairView>,
)
    requires
        0 <= k < upto <= library.len(),
        !closed(library[k].grammar, rules, pairs),
    ensures
        !rules_closed(library, upto, rules, pairs),
    decreases upto,
{
    if k < upto - 1 {
        lemma_rules_not_closed(library, upto - 1, k, rules, pairs);
    }
}

impl Clone for Dialect {
    /// A copy of the dialect, to make another dialect of.
    fn clone(&self) -> (r: Self)
        ensures
            r.deep_view() == self.deep_view(),
    {
        let mut lexer_matchers: Vec<Matcher> = Vec::new();
        let mut i: usize = 0;
        while i < self.lexer_matchers.len()
            invariant
                i <= self.lexer_matchers@.len(),
                lexer_matchers.deep_view() == self.lexer_matchers.deep_view().take(i as int),
            decreases self.lexer_matchers@.len() - i,
        {
            let ghost before = lexer_matchers.deep_view();
            lexer_matchers.push(self.lexer_matchers[i].clone());
            assert(lexer_matchers.deep_view() =~= before.push(self.lexer_matchers@[i as int]@));
            assert(self.lexer_matchers.deep_view().take(i + 1)
                =~= self.lexer_matchers.deep_view().take(i as int).push(
                self.lexer_matchers@[i as int]@,
            ));
            i += 1;
        }
        assert(self.lexer_matchers.deep_view().take(i as int) =~= self.lexer_matchers.deep_view());
        let mut library: Vec<Rule> = Vec::new();
        let mut i: usize = 0;
        while i < self.library.len()
            invariant
                i <= self.library@.len(),
                library.deep_view() == self.library.deep_view().take(i as int),
            decreases self.library@.len() - i,
        {
            let ghost before = library.deep_view();
            let rule = &self.library[i];
            library.push(Rule { name: rule.name.clone(), grammar: rule.grammar.clone() });
            assert(library.deep_view() =~= before.push(rule.deep_view()));
            assert(self.library.deep_view().take(i + 1) =~= self.library.deep_view().take(
                i as int,
            ).push(rule.deep_view()));
            i += 1;
        }
        assert(self.library.deep_view().take(i as int) =~= self.library.deep_view());
        let mut sets: Vec<WordSet> = Vec::new();
        let mut i: usize = 0;
        while i < self.sets.len()
            invariant
                i <= self.sets@.len(),
                sets.deep_view() == self.sets.deep_view().take(i as int),
            decreases self.sets@.len() - i,
        {
            let ghost before = sets.deep_view();
            let set = &self.sets[i];
            let mut words: Vec<String> = Vec::new();
            let mut k: usize = 0;
            while k < set.words.len()
                invariant
                    k <= set.words@.len(),
                    text_views(words@) == text_views(set.words@).take(k as int),
                decreases set.words@.len() - k,
            {
                let ghost made = text_views(words@);
                words.push(set.words[k].clone());
                assert(text_views(words@) =~= made.push(set.words@[k as int]@));
                assert(text_views(set.words@).take(k + 1) =~= text_views(set.words@).take(
                    k as int,
                ).push(set.words@[k as int]@));
                k += 1;
            }
            assert(text_views(set.words@).take(k as int) =~= text_views(set.words@));
            sets.push(WordSet { label: set.label.clone(), words });
            assert(sets.deep_view() =~= before.push(set.deep_view()));
            assert(self.sets.deep_view().take(i + 1) =~= self.sets.deep_view().take(i as int).push(
                set.deep_view(),
            ));
            i += 1;
        }
        assert(self.sets.deep_view().take(i as int) =~= self.sets.deep_view());
        let mut bracket_pairs: Vec<BracketPair> = Vec::new();
        let mut i: usize = 0;
        while i < self.bracket_pairs.len()
            invariant
                i <= self.bracket_pairs@.len(),
                bracket_pairs.deep_view() == self.bracket_pairs.deep_view().take(i as int),
            decreases self.bracket_pairs@.len() - i,
        {
            let ghost before = bracket_pairs.deep_view();
            let pair = &self.bracket_pairs[i];
            bracket_pairs.push(
                BracketPair {
                    bracket_type: pair.bracket_type.clone(),
                    start: pair.start,
                    end: pair.end,
                },
            );
            assert(bracket_pairs.deep_view() =~= before.push(pair.deep_view()));
            assert(self.bracket_pairs.deep_view().take(i + 1)
                =~= self.bracket_pairs.deep_view().take(i as int).push(pair.deep_view()));
            i += 1;
        }
        assert(self.bracket_pairs.deep_view().take(i as int) =~= self.bracket_pairs.deep_view());
        Dialect { name: self.name, lexer_matchers, library, sets, bracket_pairs }
    }
}

/// The dialect with `name` bound to `grammar`.
pub open spec fn with_rule(dialect: DialectView, name: Seq<char>, grammar: GrammarView) -> DialectView {
    DialectView { library: defined(dialect.library, name, grammar), ..dialect }
}

/// The dialect with `grammar` in the place of the grammar of the rule named
/// `name`, which must be there.
pub open spec fn with_replaced(dialect: DialectView, name: Seq<char>, grammar: GrammarView) -> Result<
    DialectView,
    DialectError,
> {
    match rule_index(dialect.library, name, 0) {
        Some(at) => Ok(
            DialectView {
                library: dialect.library.update(
                    at,
                    RuleView { name, grammar: rewrapped(dialect.library[at].grammar, grammar) },
                ),
                ..dialect
            },
        ),
        None => Err(DialectError::UnknownRule),
    }
}

/// The dialect with the matchers `patch` before the lexer matcher named
/// `before`, which must be there.
pub open spec fn with_matchers_before(
    dialect: DialectView,
    patch: Seq<MatcherView>,
    before: Seq<char>,
) -> Result<DialectView, DialectError> {
    match matcher_index(dialect.lexer_matchers, before, 0) {
        Some(at) => Ok(
            DialectView {
                lexer_matchers: dialect.lexer_matchers.take(at) + patch
                    + dialect.lexer_matchers.skip(at),
                ..dialect
            },
        ),
        None => Err(DialectError::UnknownMatcher),
    }
}

/// The dialect with the set named `label` holding `words`, where
/// `words` is what a change made of the words that it held.
pub open spec fn with_words(dialect: DialectView, label: Seq<char>, words: Seq<Seq<char>>) -> DialectView {
    DialectView {
        sets: sets_with(dialect.sets, label).update(
            set_place(dialect.sets, label),
            WordSetView { label, words },
        ),
        ..dialect
    }
}

/// The dialect with the set named `label` emptied.
pub open spec fn with_set_cleared(dialect: DialectView, label: Seq<char>) -> DialectView {
    with_words(dialect, label, seq![])
}

/// The dialect with `more` put into the set named `label`.
pub open spec fn with_set_extended(dialect: DialectView, label: Seq<char>, more: Seq<Seq<char>>) -> DialectView {
    with_words(dialect, label, words_extended(words_of(dialect.sets, label), more))
}

/// What a grammar is if it is there: the error that a rule is not known
/// if it is not.
pub open spec fn known(grammar: Option<GrammarView>) -> Result<GrammarView, DialectError> {
    match grammar {
        Some(g) => Ok(g),
        None => Err(DialectError::UnknownRule),
    }
}

/// What `next` makes of the dialect that was made `so_far`; where none was
/// made, the error that stood in its way.
pub open spec fn after(
    so_far: Result<DialectView, DialectError>,
    next: spec_fn(DialectView) -> Result<DialectView, DialectError>,
) -> Result<DialectView, DialectError> {
    match so_far {
        Ok(dialect) => next(dialect),
        Err(e) => Err(e),
    }
}

/// The model of what a dialect operation comes to.
pub open spec fn outcome_view(r: Result<Dialect, DialectError>) -> Result<DialectView, DialectError> {
    match r {
        Ok(d) => Ok(d.deep_view()),
        Err(e) => Err(e),
    }
}

impl Dialect {
    /// Empties the set named `label`.
    pub fn clear_set(&mut self, label: &str)
        ensures
            final(self).deep_view() == with_set_cleared(old(self).deep_view(), label@),
    {
        let ghost before = self.deep_view();
        proof {
            lemma_set_place(before.sets, label@);
        }
        self.sets_mut(label).clear();
    }

    /// Puts each of `words` into the set named `label`, unless it is
    /// there.
    pub fn extend_set(&mut self, label: &str, words: &[&str])
        ensures
            final(self).deep_view() == with_set_extended(
                old(self).deep_view(),
                label@,
                str_views(words@),
            ),
    {
        let ghost before = self.deep_view();
        proof {
            lemma_set_place(before.sets, label@);
        }
        self.sets_mut(label).extend(words);
    }

    /// The dialect as one of the kind `name`.
    pub fn named(self, name: DialectKind) -> (r: Self)
        ensures
            r.deep_view() == (DialectView { name, ..self.deep_view() }),
    {
        let mut r = self;
        r.name = name;
        r
    }
}

/// The set named `label` stands at its place, under its name, with its
/// words.
pub proof fn lemma_set_place(sets: Seq<WordSetView>, label: Seq<char>)
    ensures
        0 <= set_place(sets, label) < sets_with(sets, label).len(),
        sets_with(sets, label)[set_place(sets, label)].label == label,
        sets_with(sets, label)[set_place(sets, label)].words == words_of(sets, label),
{
    lemma_set_index(sets, label, 0);
}

/// What `set_index` finds is a set of the name.
pub proof fn lemma_set_index(sets: Seq<WordSetView>, label: Seq<char>, from: int)
    requires
        0 <= from,
    ensures
        set_index(sets, label, from) matches Some(i) ==> from <= i < sets.len() && sets[i].label
            == label,
    decreases sets.len() - from,
{
    if from < sets.len() && sets[from].label != label {
        lemma_set_index(sets, label, from + 1);
    }
}

/// The matchers with a matcher of the text `text` behind them.
pub open spec fn and_string(
    matchers: Option<Seq<MatcherView>>,
    name: Seq<char>,
    text: Seq<char>,
    kind: SyntaxKind,
) -> Option<Seq<MatcherView>> {
    match matchers {
        Some(list) => Some(
            list.push(
                MatcherView {
                    pattern: PatternView {
                        name,
                        value: kind,
                        rule: SearchRule::Literal(encode_utf8(text)),
                    },
                    subdivider: None,
                    trim_post_subdivide: None,
                },
            ),
        ),
        None => None,
    }
}

/// The matchers with a matcher of the regular expression `pattern` behind
/// them; none where the pattern does not compile.
pub open spec fn and_regex(
    matchers: Option<Seq<MatcherView>>,
    name: Seq<char>,
    pattern: Seq<char>,
    kind: SyntaxKind,
) -> Option<Seq<MatcherView>> {
    match matchers {
        Some(list) => if regex_compiles(pattern) {
            Some(
                list.push(
                    MatcherView {
                        pattern: PatternView { name, value: kind, rule: SearchRule::Regex(pattern) },
                        subdivider: None,
                        trim_post_subdivide: None,
                    },
                ),
            )
        } else {
            None
        },
        None => None,
    }
}

/// A list of lexer matchers in the making. It comes to nothing as soon as
/// the regular expression of one of them does not compile.
pub struct MatcherList {
    pub items: Option<Vec<Matcher>>,
}

impl View for MatcherList {
    type V = Option<Seq<MatcherView>>;

    open spec fn view(&self) -> Option<Seq<MatcherView>> {
        match self.items {
            Some(list) => Some(list.deep_view()),
            None => None,
        }
    }
}

impl MatcherList {
    /// The list without a matcher.
    pub fn new() -> (r: Self)
        ensures
            r@ == Some(Seq::<MatcherView>::empty()),
    {
        let list: Vec<Matcher> = Vec::new();
        assert(list.deep_view() =~= Seq::<MatcherView>::empty());
        MatcherList { items: Some(list) }
    }

    /// The list with a matcher of the text `text` behind the others.
    pub fn string(self, name: &'static str, text: &'static str, kind: SyntaxKind) -> (r: Self)
        ensures
            r@ == and_string(self@, name@, text@, kind),
    {
        match self.items {
            Some(list) => {
                let mut list = list;
                let ghost before = list.deep_view();
                let matcher = Matcher::string(name, text, kind);
                list.push(matcher);
                assert(list.deep_view() =~= before.push(matcher@));
                MatcherList { items: Some(list) }
            },
            None => MatcherList { items: None },
        }
    }

    /// The list with a matcher of the regular expression `pattern` behind
    /// the others, if the pattern compiles.
    pub fn regex(self, name: &'static str, pattern: &'static str, kind: SyntaxKind) -> (r: Self)
        ensures
            r@ == and_regex(self@, name@, pattern@, kind),
    {
        match self.items {
            Some(list) => match Matcher::try_regex(name, pattern, kind) {
                Some(matcher) => {
                    let mut list = list;
                    let ghost before = list.deep_view();
                    list.push(matcher);
                    assert(list.deep_view() =~= before.push(matcher@));
                    MatcherList { items: Some(list) }
                },
                None => MatcherList { items: None },
            },
            None => MatcherList { items: None },
        }
    }
}

/// The dialect with the matchers of `patch` before the lexer matcher named
/// `before`, where all their patterns compile and that matcher is there.
pub open spec fn with_list_before(
    dialect: DialectView,
    patch: Option<Seq<MatcherView>>,
    before: Seq<char>,
) -> Result<DialectView, DialectError> {
    match patch {
        Some(list) => with_matchers_before(dialect, list, before),
        None => Err(DialectError::BadPattern),
    }
}

/// The dialect with each lexer matcher that has the name of a matcher of
/// `patch` replaced by that one, where all their patterns compile.
pub open spec fn with_list_patched(dialect: DialectView, patch: Option<Seq<MatcherView>>) -> Result<
    DialectView,
    DialectError,
> {
    match patch {
        Some(list) => Ok(
            DialectView { lexer_matchers: matchers_patched(dialect.lexer_matchers, list), ..dialect },
        ),
        None => Err(DialectError::BadPattern),
    }
}

/// The dialect with one more pair of brackets.
pub open spec fn with_bracket_pair(
    dialect: DialectView,
    bracket_type: Seq<char>,
    start: SyntaxKind,
    end: SyntaxKind,
) -> DialectView {
    DialectView {
        bracket_pairs: dialect.bracket_pairs.push(BracketPairView { bracket_type, start, end }),
        ..dialect
    }
}

/// The dialect with `word` put into the set named `label`.
pub open spec fn with_word(dialect: DialectView, label: Seq<char>, word: Seq<char>) -> DialectView {
    with_set_extended(dialect, label, Seq::empty().push(word))
}

impl Dialect {
    /// Puts the matchers of the list before the lexer matcher named
    /// `before`: see `with_list_before`.
    pub fn insert_matcher_list(self, patch: MatcherList, before: &str) -> (r: Result<
        Dialect,
        DialectError,
    >)
        ensures
            outcome_view(r) == with_list_before(self.deep_view(), patch@, before@),
    {
        let mut dialect = self;
        match patch.items {
            Some(list) => match dialect.insert_lexer_matchers(list, before) {
                Ok(()) => Ok(dialect),
                Err(e) => Err(e),
            },
            None => Err(DialectError::BadPattern),
        }
    }

    /// Puts the matchers of the list in the place of the lexer matchers
    /// that have their names: see `with_list_patched`.
    pub fn patch_matcher_list(self, patch: MatcherList) -> (r: Result<Dialect, DialectError>)
        ensures
            outcome_view(r) == with_list_patched(self.deep_view(), patch@),
    {
        let mut dialect = self;
        match patch.items {
            Some(list) => {
                dialect.patch_lexer_matchers(list);
                Ok(dialect)
            },
            None => Err(DialectError::BadPattern),
        }
    }

    /// Puts `word` into the set named `label`, unless it is there.
    pub fn add_word(&mut self, label: &str, word: &str)
        ensures
            final(self).deep_view() == with_word(old(self).deep_view(), label@, word@),
    {
        let words: [&str; 1] = [word];
        assert(str_views(words@) =~= Seq::empty().push(word@));
        self.extend_set(label, words.as_slice());
    }

    /// A copy of the grammar of the rule named `name`, if there is one.
    pub fn rule_grammar(&self, name: &str) -> (r: Option<Grammar>)
        ensures
            match lookup_rule(self.deep_view().library, name@) {
                Some(grammar) => r matches Some(g) && grammar_view(g) == grammar,
                None => r is None,
            },
    {
        match self.grammar(name) {
            Some(grammar) => Some(grammar.clone()),
            None => None,
        }
    }
}

} // verus!
