//! The parser: from the token list of a file to its syntax tree.

use crate::config::FluffConfig;
use crate::dialect::lookup_rule;
use crate::engine::{append_nodes, append_tokens, match_at, next_code_at, no_nodes, ParseContext};
use crate::errors::{ParseErrorKind, ParseErrorView, SQLParseError};
use crate::grammar::grammar_view;
use crate::isolation::{agree_but_for, lemma_match_isolated, mentions};
use crate::matching::{
    lemma_match_accounts, lemma_next_code, lemma_tokens_adjoin, lemma_tokens_concat,
    match_grammar, next_code, tokens_under, tokens_under_all, ContextView,
};
use crate::segments::{
    lemma_views_index, lemma_views_subrange, node_of, views_of, Segment, SegmentView,
};
use crate::syntax::SyntaxKind;
use vstd::prelude::*;
use vstd::slice::slice_subrange;
use vstd::string::*;

verus! {

/// The name of the rule that a whole file is parsed by.
pub const ROOT_RULE: &'static str = "FileSegment";

/// The position behind the last code token among the first `upto` tokens:
/// zero where none of them is code.
pub open spec fn code_end(tokens: Seq<SegmentView>, upto: int) -> int
    decreases upto,
{
    if upto <= 0 || upto > tokens.len() {
        0
    } else if tokens[upto - 1].kind().is_code() {
        upto
    } else {
        code_end(tokens, upto - 1)
    }
}

/// The error of kind `kind` at the token `at`.
pub open spec fn error_at(tokens: Seq<SegmentView>, kind: ParseErrorKind, at: int) -> ParseErrorView {
    ParseErrorView {
        kind,
        token: at,
        position: if 0 <= at < tokens.len() {
            tokens[at].position()
        } else {
            None
        },
    }
}

/// The syntax tree of a token list.
///
/// No token gives no tree. Tokens without code among them give a file
/// node that holds them as they are. Else the rule for a file is matched
/// from the first code token up to the last; it must match there and leave
/// no code behind. The file node then holds the tokens before the first
/// code token, what the rule made, and the tokens that follow.
pub open spec fn parse_tree(tokens: Seq<SegmentView>, cx: ContextView, depth: nat) -> Result<
    Option<SegmentView>,
    ParseErrorView,
> {
    let n = tokens.len() as int;
    let start = next_code(tokens, 0);
    let end = code_end(tokens, n);
    if n == 0 {
        Ok(None)
    } else if start >= end {
        Ok(Some(node_of(SyntaxKind::File, tokens)))
    } else {
        match lookup_rule(cx.rules, ROOT_RULE@) {
            None => Err(error_at(tokens, ParseErrorKind::NoRootGrammar, start)),
            Some(root) => {
                let window = tokens.subrange(0, end);
                match match_grammar(root, window, start, cx, depth) {
                    Err(fault) => Err(error_at(tokens, ParseErrorKind::Faulty(fault), start)),
                    Ok(None) => Err(error_at(tokens, ParseErrorKind::NoMatch, start)),
                    Ok(Some(m)) => {
                        let rest = next_code(window, m.end);
                        if rest < end {
                            Err(error_at(tokens, ParseErrorKind::Unparsed, rest))
                        } else {
                            Ok(
                                Some(
                                    node_of(
                                        SyntaxKind::File,
                                        tokens.subrange(0, start) + m.nodes + tokens.subrange(
                                            m.end,
                                            n,
                                        ),
                                    ),
                                ),
                            )
                        }
                    },
                }
            },
        }
    }
}

/// `code_end` lies within the first `upto` tokens, and behind the last
/// code token among them.
pub proof fn lemma_code_end(tokens: Seq<SegmentView>, upto: int)
    requires
        0 <= upto <= tokens.len(),
    ensures
        0 <= code_end(tokens, upto) <= upto,
        forall|i: int| code_end(tokens, upto) <= i < upto ==> !tokens[i].kind().is_code(),
    decreases upto,
{
    if upto > 0 && !tokens[upto - 1].kind().is_code() {
        lemma_code_end(tokens, upto - 1);
    }
}

/// Completeness of a parse. Every tree that parsing makes holds the tokens
/// it was made of, each once and in their order: none is dropped, doubled
/// or moved.
pub proof fn lemma_parse_keeps_tokens(tokens: Seq<SegmentView>, cx: ContextView, depth: nat)
    ensures
        parse_tree(tokens, cx, depth) matches Ok(Some(root)) ==> tokens_under(root)
            == tokens_under_all(tokens),
{
    let n = tokens.len() as int;
    let start = next_code(tokens, 0);
    let end = code_end(tokens, n);
    lemma_next_code(tokens, 0);
    lemma_code_end(tokens, n);
    if n == 0 {
    } else if start >= end {
    } else {
        match lookup_rule(cx.rules, ROOT_RULE@) {
            None => {},
            Some(root) => {
                let window = tokens.subrange(0, end);
                lemma_match_accounts(root, window, start, cx, depth);
                match match_grammar(root, window, start, cx, depth) {
                    Ok(Some(m)) => {
                        let rest = next_code(window, m.end);
                        if rest >= end {
                            assert(window.subrange(start, m.end) =~= tokens.subrange(start, m.end));
                            lemma_tokens_concat(tokens.subrange(0, start), m.nodes);
                            lemma_tokens_concat(
                                tokens.subrange(0, start) + m.nodes,
                                tokens.subrange(m.end, n),
                            );
                            lemma_tokens_adjoin(tokens, 0, start, m.end);
                            lemma_tokens_adjoin(tokens, 0, m.end, n);
                            assert(tokens.subrange(0, n) =~= tokens);
                        }
                    },
                    _ => {},
                }
            },
        }
    }
}

/// The root of every tree: it parses a whole file by the rule `ROOT_RULE`.
#[derive(Debug)]
pub struct FileSegment;

/// Override isolation at a whole parse. Two contexts that agree but for
/// the rule named `name` give the same tree, or fail the same, for every
/// token list, where that rule is not the rule for a file and the rule for
/// a file cannot come by it.
pub proof fn lemma_parse_isolated(
    tokens: Seq<SegmentView>,
    a: ContextView,
    b: ContextView,
    depth: nat,
    name: Seq<char>,
)
    requires
        agree_but_for(a, b, name),
        name != ROOT_RULE@,
        lookup_rule(a.rules, ROOT_RULE@) matches Some(root) ==> !mentions(
            root,
            a.rules,
            depth,
            name,
        ),
    ensures
        parse_tree(tokens, b, depth) == parse_tree(tokens, a, depth),
{
    let end = code_end(tokens, tokens.len() as int);
    let start = next_code(tokens, 0);
    assert(lookup_rule(a.rules, ROOT_RULE@) == lookup_rule(b.rules, ROOT_RULE@));
    match lookup_rule(a.rules, ROOT_RULE@) {
        Some(root) => {
            lemma_match_isolated(root, tokens.subrange(0, end), start, a, b, depth, name);
        },
        None => {},
    }
}

/// Whether each of the segments is a leaf with a position, as a lexer makes
/// them.
pub open spec fn all_placed(tokens: Seq<SegmentView>) -> bool {
    forall|i: int|
        0 <= i < tokens.len() ==> (#[trigger] tokens[i]) is Leaf && tokens[i].position() is Some
}

/// Of leaves with positions each one is a token: the tokens under them are
/// as many as they are, and the `i`-th token is the text and the position
/// of the `i`-th leaf. So a tree that keeps the tokens of such a list
/// keeps every leaf of it, once and in its place.
pub proof fn lemma_placed_leaves_are_tokens(tokens: Seq<SegmentView>)
    requires
        all_placed(tokens),
    ensures
        tokens_under_all(tokens).len() == tokens.len(),
        forall|i: int|
            0 <= i < tokens.len() ==> (#[trigger] tokens_under_all(tokens)[i]) == (
                tokens[i].raw(),
                tokens[i].position().unwrap(),
            ),
    decreases tokens.len(),
{
    if tokens.len() > 0 {
        let init = tokens.drop_last();
        assert forall|i: int| 0 <= i < init.len() implies (#[trigger] init[i]) is Leaf
            && init[i].position() is Some by {
            assert(init[i] == tokens[i]);
        }
        lemma_placed_leaves_are_tokens(init);
        let last = tokens.last();
        assert(last == tokens[tokens.len() - 1]);
        assert(tokens_under(last) =~= seq![(last.raw(), last.position().unwrap())]);
        assert forall|i: int| 0 <= i < tokens.len() implies (#[trigger] tokens_under_all(
            tokens,
        )[i]) == (tokens[i].raw(), tokens[i].position().unwrap()) by {
            if i < init.len() {
                assert(tokens_under_all(tokens)[i] == tokens_under_all(init)[i]);
                assert(init[i] == tokens[i]);
            }
        }
    }
}

/// The parser.
pub struct Parser<'a> {
    config: &'a FluffConfig,
    root_segment: FileSegment,
}

/// The position behind the last code token.
fn code_end_of(tokens: &[Segment]) -> (r: usize)
    ensures
        r == code_end(views_of(tokens@), tokens@.len() as int),
        r <= tokens@.len(),
{
    let ghost views = views_of(tokens@);
    proof {
        lemma_views_index(tokens@);
    }
    let n = tokens.len();
    let mut k: usize = n;
    while k > 0
        invariant
            n == tokens@.len(),
            views == views_of(tokens@),
            views.len() == n,
            forall|j: int| 0 <= j < n ==> views[j] == (#[trigger] tokens@[j]).deep_view(),
            k <= n,
            code_end(views, n as int) == code_end(views, k as int),
        decreases k,
    {
        if tokens[k - 1].is_code() {
            return k;
        }
        k -= 1;
    }
    0
}

/// The error of kind `kind` at the token `at`.
fn error_for(tokens: &[Segment], kind: ParseErrorKind, at: usize) -> (r: SQLParseError)
    ensures
        r.deep_view() == error_at(views_of(tokens@), kind, at as int),
{
    proof {
        lemma_views_index(tokens@);
    }
    let position = if at < tokens.len() {
        tokens[at].get_position_marker()
    } else {
        None
    };
    SQLParseError { kind, token: at, position }
}

impl<'a> Parser<'a> {
    /// A parser for the dialect of `config`.
    pub fn new(config: &'a FluffConfig, _dialect: Option<String>) -> (r: Self)
        ensures
            *r.config() == *config,
    {
        Parser { config, root_segment: FileSegment }
    }

    /// The configuration that the parser runs under.
    #[verifier::when_used_as_spec(spec_config)]
    pub fn config(&self) -> (r: &FluffConfig)
        ensures
            r == self.spec_config(),
    {
        self.config
    }

    /// The configuration that the parser runs under.
    pub closed spec fn spec_config(&self) -> &FluffConfig {
        self.config
    }

    /// What the parser matches against.
    pub open spec fn context(&self) -> ContextView {
        ContextView {
            rules: self.config().dialect.deep_view().library,
            bracket_pairs: self.config().dialect.deep_view().bracket_pairs,
            flags: self.config().flags.deep_view(),
        }
    }

    /// Parses the token list of a file into its syntax tree. No token gives
    /// no tree. The tree holds all the tokens, each once and in their
    /// order. A token is counted by its text and its position: a leaf
    /// without a position is a marker, which the grammar may put in and a
    /// lexer does not make (`lemma_placed_leaves_are_tokens`). Rules may
    /// refer to rules as deeply as `max_parse_depth` of the configuration
    /// allows; a parse that would go deeper fails with `Faulty(TooDeep)`.
    /// The name of the file is taken for the caller's sake and not looked
    /// at. Statistics of the parse cannot be asked for.
    pub fn parse(&self, segments: &[Segment], f_name: Option<String>, parse_statistics: bool) -> (r:
        Result<Option<Segment>, SQLParseError>)
        requires
            !parse_statistics,
        ensures
            match parse_tree(
                views_of(segments@),
                self.context(),
                self.config().max_parse_depth as nat,
            ) {
                Ok(Some(tree)) => r matches Ok(Some(root)) && root.deep_view() == tree
                    && tokens_under(tree) == tokens_under_all(views_of(segments@)),
                Ok(None) => r matches Ok(None),
                Err(e) => r matches Err(f) && f.deep_view() == e,
            },
    {
        let ghost views = views_of(segments@);
        proof {
            lemma_views_index(segments@);
            lemma_next_code(views, 0);
            lemma_code_end(views, views.len() as int);
            lemma_parse_keeps_tokens(
                views,
                self.context(),
                self.config().max_parse_depth as nat,
            );
        }
        let n = segments.len();
        if n == 0 {
            return Ok(None);
        }
        let parse_cx = ParseContext::from_config(self.config);
        let start = next_code_at(segments, 0);
        let end = code_end_of(segments);
        if start >= end {
            let mut children = no_nodes();
            append_tokens(&mut children, segments, 0, n);
            assert(views_of(children@) =~= views);
            return Ok(Some(Segment::node_over(SyntaxKind::File, children)));
        }
        let root = match parse_cx.dialect().grammar(ROOT_RULE) {
            Some(root) => root,
            None => {
                return Err(error_for(segments, ParseErrorKind::NoRootGrammar, start));
            },
        };
        let window = slice_subrange(segments, 0, end);
        proof {
            lemma_views_subrange(segments@, 0, end as int);
            lemma_match_accounts(
                grammar_view(*root),
                views.subrange(0, end as int),
                start as int,
                parse_cx@,
                parse_cx.max_depth as nat,
            );
        }
        match match_at(root, window, start, &parse_cx, parse_cx.max_depth) {
            Err(fault) => Err(error_for(segments, ParseErrorKind::Faulty(fault), start)),
            Ok(None) => Err(error_for(segments, ParseErrorKind::NoMatch, start)),
            Ok(Some(m)) => {
                let rest = next_code_at(window, m.end);
                if rest < end {
                    return Err(error_for(segments, ParseErrorKind::Unparsed, rest));
                }
                let mut children = no_nodes();
                append_tokens(&mut children, segments, 0, start);
                let matched_end = m.end;
                append_nodes(&mut children, m.nodes);
                append_tokens(&mut children, segments, matched_end, n);
                assert(views_of(children@) =~= views.subrange(0, start as int) + m.deep_view().nodes
                    + views.subrange(matched_end as int, n as int));
                Ok(Some(Segment::node_over(SyntaxKind::File, children)))
            },
        }
    }
}

} // verus!
