//! The Spark SQL dialect: what it changes in the dialect that it is made of, and what it
//! takes from the Hive dialect.
//!
//! The rules are written with the combinators that a grammar has. A list or a sequence
//! here ends where its grammar ends and not at a terminator, blank space may stand between
//! any two of its parts, and only a bracketed grammar can be greedy.

use crate::dialect::{
    after, and_regex, and_string, expanded, known, lookup_rule, node_grammar, outcome_view,
    str_views, with_bracket_pair, with_list_before, with_list_patched, with_replaced, with_rule,
    with_set_cleared, with_set_extended, with_word, Dialect, DialectError, DialectKind,
    DialectView, MatcherList,
};
use crate::grammar::{copied, grammar_view, recopied, Grammar, GrammarList, GrammarView, ParseMode};
use crate::lexer::MatcherView;
use crate::syntax::SyntaxKind;
use vstd::prelude::*;

verus! {

/// The lexer matchers that take the place of those of their names.
pub open spec fn patched_matchers_view() -> Option<Seq<MatcherView>> {
    let list = Some(Seq::<MatcherView>::empty());
    let list = and_regex(list, "inline_comment"@, "(--)[^\\n]*"@, SyntaxKind::InlineComment);
    let list = and_regex(list, "equals"@, "==|<=>|="@, SyntaxKind::RawComparisonOperator);
    let list = and_regex(list, "back_quote"@, "`([^`]|``)*`"@, SyntaxKind::BackQuote);
    let list = and_regex(
        list,
        "numeric_literal"@,
        "(?>(?>\\d+\\.\\d+|\\d+\\.|\\.\\d+)([eE][+-]?\\d+)?([dDfF]|BD|bd)?|\\d+[eE][+-]?\\d+([dDfF]|BD|bd)?|\\d+([dDfFlLsSyY]|BD|bd)?)((?<=\\.)|(?=\\b))"@,
        SyntaxKind::NumericLiteral,
    );
    list
}

/// The lexer matchers that take the place of those of their names.
pub fn patched_matchers() -> (r: MatcherList)
    ensures
        r@ == patched_matchers_view(),
{
    MatcherList::new()
        .regex("inline_comment", "(--)[^\\n]*", SyntaxKind::InlineComment)
        .regex("equals", "==|<=>|=", SyntaxKind::RawComparisonOperator)
        .regex("back_quote", "`([^`]|``)*`", SyntaxKind::BackQuote)
        .regex(
            "numeric_literal",
            "(?>(?>\\d+\\.\\d+|\\d+\\.|\\.\\d+)([eE][+-]?\\d+)?([dDfF]|BD|bd)?|\\d+[eE][+-]?\\d+([dDfF]|BD|bd)?|\\d+([dDfFlLsSyY]|BD|bd)?)((?<=\\.)|(?=\\b))",
            SyntaxKind::NumericLiteral,
        )
}

/// Lexer matchers that are tried before the one named `single_quote`.
pub open spec fn matchers_before_single_quote_view() -> Option<Seq<MatcherView>> {
    let list = Some(Seq::<MatcherView>::empty());
    let list = and_regex(
        list,
        "bytes_single_quote"@,
        "X'([^'\\\\]|\\\\.)*'"@,
        SyntaxKind::BytesSingleQuote,
    );
    let list = and_regex(
        list,
        "bytes_double_quote"@,
        "X\"([^\"\\\\]|\\\\.)*\""@,
        SyntaxKind::BytesDoubleQuote,
    );
    list
}

/// Lexer matchers that are tried before the one named `single_quote`.
pub fn matchers_before_single_quote() -> (r: MatcherList)
    ensures
        r@ == matchers_before_single_quote_view(),
{
    MatcherList::new()
        .regex("bytes_single_quote", "X'([^'\\\\]|\\\\.)*'", SyntaxKind::BytesSingleQuote)
        .regex("bytes_double_quote", "X\"([^\"\\\\]|\\\\.)*\"", SyntaxKind::BytesDoubleQuote)
}

/// Lexer matchers that are tried before the one named `single_quote`.
pub open spec fn matchers_before_single_quote_2_view() -> Option<Seq<MatcherView>> {
    let list = Some(Seq::<MatcherView>::empty());
    let list = and_regex(
        list,
        "bytes_single_quote"@,
        "X'([^'\\\\]|\\\\.)*'"@,
        SyntaxKind::BytesSingleQuote,
    );
    let list = and_regex(
        list,
        "bytes_double_quote"@,
        "X\"([^\"\\\\]|\\\\.)*\""@,
        SyntaxKind::BytesDoubleQuote,
    );
    list
}

/// Lexer matchers that are tried before the one named `single_quote`.
pub fn matchers_before_single_quote_2() -> (r: MatcherList)
    ensures
        r@ == matchers_before_single_quote_2_view(),
{
    MatcherList::new()
        .regex("bytes_single_quote", "X'([^'\\\\]|\\\\.)*'", SyntaxKind::BytesSingleQuote)
        .regex("bytes_double_quote", "X\"([^\"\\\\]|\\\\.)*\"", SyntaxKind::BytesDoubleQuote)
}

/// Lexer matchers that are tried before the one named `word`.
pub open spec fn matchers_before_word_view() -> Option<Seq<MatcherView>> {
    let list = Some(Seq::<MatcherView>::empty());
    let list = and_regex(list, "at_sign_literal"@, "@\\w*"@, SyntaxKind::AtSignLiteral);
    list
}

/// Lexer matchers that are tried before the one named `word`.
pub fn matchers_before_word() -> (r: MatcherList)
    ensures
        r@ == matchers_before_word_view(),
{
    MatcherList::new()
        .regex("at_sign_literal", "@\\w*", SyntaxKind::AtSignLiteral)
}

/// Lexer matchers that are tried before the one named `newline`.
pub open spec fn matchers_before_newline_view() -> Option<Seq<MatcherView>> {
    let list = Some(Seq::<MatcherView>::empty());
    let list = and_regex(
        list,
        "file_literal"@,
        "[a-zA-Z0-9]*:?([a-zA-Z0-9\\-_\\.]*(/|\\\\)){2,}((([a-zA-Z0-9\\-_\\.]*(:|\\?|=|&)[a-zA-Z0-9\\-_\\.]*)+)|([a-zA-Z0-9\\-_\\.]*\\.[a-z]+))"@,
        SyntaxKind::FileLiteral,
    );
    list
}

/// Lexer matchers that are tried before the one named `newline`.
pub fn matchers_before_newline() -> (r: MatcherList)
    ensures
        r@ == matchers_before_newline_view(),
{
    MatcherList::new()
        .regex(
            "file_literal",
            "[a-zA-Z0-9]*:?([a-zA-Z0-9\\-_\\.]*(/|\\\\)){2,}((([a-zA-Z0-9\\-_\\.]*(:|\\?|=|&)[a-zA-Z0-9\\-_\\.]*)+)|([a-zA-Z0-9\\-_\\.]*\\.[a-z]+))",
            SyntaxKind::FileLiteral,
        )
}

/// Empties the set `bare_functions` and puts its words into it.
pub open spec fn refill_bare_functions_view(dialect: DialectView) -> DialectView {
    let dialect = with_set_cleared(dialect, "bare_functions"@);
    let dialect = with_word(dialect, "bare_functions"@, "CURRENT_DATE"@);
    let dialect = with_word(dialect, "bare_functions"@, "CURRENT_TIMESTAMP"@);
    let dialect = with_word(dialect, "bare_functions"@, "CURRENT_USER"@);
    dialect
}

/// Empties the set `bare_functions` and puts its words into it.
pub fn refill_bare_functions(dialect: Dialect) -> (r: Dialect)
    ensures
        r.deep_view() == refill_bare_functions_view(dialect.deep_view()),
{
    let mut dialect = dialect;
    dialect.clear_set("bare_functions");
    dialect.add_word("bare_functions", "CURRENT_DATE");
    dialect.add_word("bare_functions", "CURRENT_TIMESTAMP");
    dialect.add_word("bare_functions", "CURRENT_USER");
    dialect
}

/// Empties the set `datetime_units` and puts its words into it.
pub open spec fn refill_datetime_units_view(dialect: DialectView) -> DialectView {
    let dialect = with_set_cleared(dialect, "datetime_units"@);
    let dialect = with_word(dialect, "datetime_units"@, "YEAR"@);
    let dialect = with_word(dialect, "datetime_units"@, "YEARS"@);
    let dialect = with_word(dialect, "datetime_units"@, "YYYY"@);
    let dialect = with_word(dialect, "datetime_units"@, "YY"@);
    let dialect = with_word(dialect, "datetime_units"@, "QUARTER"@);
    let dialect = with_word(dialect, "datetime_units"@, "QUARTERS"@);
    let dialect = with_word(dialect, "datetime_units"@, "MONTH"@);
    let dialect = with_word(dialect, "datetime_units"@, "MONTHS"@);
    let dialect = with_word(dialect, "datetime_units"@, "MON"@);
    let dialect = with_word(dialect, "datetime_units"@, "MM"@);
    let dialect = with_word(dialect, "datetime_units"@, "WEEK"@);
    let dialect = with_word(dialect, "datetime_units"@, "WEEKS"@);
    let dialect = with_word(dialect, "datetime_units"@, "DAY"@);
    let dialect = with_word(dialect, "datetime_units"@, "DAYS"@);
    let dialect = with_word(dialect, "datetime_units"@, "DD"@);
    let dialect = with_word(dialect, "datetime_units"@, "HOUR"@);
    let dialect = with_word(dialect, "datetime_units"@, "HOURS"@);
    let dialect = with_word(dialect, "datetime_units"@, "MINUTE"@);
    let dialect = with_word(dialect, "datetime_units"@, "MINUTES"@);
    let dialect = with_word(dialect, "datetime_units"@, "SECOND"@);
    let dialect = with_word(dialect, "datetime_units"@, "SECONDS"@);
    let dialect = with_word(dialect, "datetime_units"@, "MILLISECOND"@);
    let dialect = with_word(dialect, "datetime_units"@, "MILLISECONDS"@);
    let dialect = with_word(dialect, "datetime_units"@, "MICROSECOND"@);
    let dialect = with_word(dialect, "datetime_units"@, "MICROSECONDS"@);
    dialect
}

/// Empties the set `datetime_units` and puts its words into it.
pub fn refill_datetime_units(dialect: Dialect) -> (r: Dialect)
    ensures
        r.deep_view() == refill_datetime_units_view(dialect.deep_view()),
{
    let mut dialect = dialect;
    dialect.clear_set("datetime_units");
    dialect.add_word("datetime_units", "YEAR");
    dialect.add_word("datetime_units", "YEARS");
    dialect.add_word("datetime_units", "YYYY");
    dialect.add_word("datetime_units", "YY");
    dialect.add_word("datetime_units", "QUARTER");
    dialect.add_word("datetime_units", "QUARTERS");
    dialect.add_word("datetime_units", "MONTH");
    dialect.add_word("datetime_units", "MONTHS");
    dialect.add_word("datetime_units", "MON");
    dialect.add_word("datetime_units", "MM");
    dialect.add_word("datetime_units", "WEEK");
    dialect.add_word("datetime_units", "WEEKS");
    dialect.add_word("datetime_units", "DAY");
    dialect.add_word("datetime_units", "DAYS");
    dialect.add_word("datetime_units", "DD");
    dialect.add_word("datetime_units", "HOUR");
    dialect.add_word("datetime_units", "HOURS");
    dialect.add_word("datetime_units", "MINUTE");
    dialect.add_word("datetime_units", "MINUTES");
    dialect.add_word("datetime_units", "SECOND");
    dialect.add_word("datetime_units", "SECONDS");
    dialect.add_word("datetime_units", "MILLISECOND");
    dialect.add_word("datetime_units", "MILLISECONDS");
    dialect.add_word("datetime_units", "MICROSECOND");
    dialect.add_word("datetime_units", "MICROSECONDS");
    dialect
}

/// The grammar of `ComparisonOperatorGrammar`.
pub open spec fn comparison_operator_grammar_view() -> GrammarView {
    GrammarView::OneOf {
        options: Seq::empty()
            .push(GrammarView::Ref { name: "EqualsSegment"@, exclude: None })
            .push(GrammarView::Ref { name: "EqualsSegment_a"@, exclude: None })
            .push(GrammarView::Ref { name: "EqualsSegment_b"@, exclude: None })
            .push(GrammarView::Ref { name: "GreaterThanSegment"@, exclude: None })
            .push(GrammarView::Ref { name: "LessThanSegment"@, exclude: None })
            .push(GrammarView::Ref { name: "GreaterThanOrEqualToSegment"@, exclude: None })
            .push(GrammarView::Ref { name: "LessThanOrEqualToSegment"@, exclude: None })
            .push(GrammarView::Ref { name: "NotEqualToSegment"@, exclude: None })
            .push(GrammarView::Ref { name: "LikeOperatorSegment"@, exclude: None })
            .push(GrammarView::Sequence {
                elements: Seq::empty()
                    .push(GrammarView::Text { template: "IS"@, becomes: SyntaxKind::Keyword })
                    .push(GrammarView::Text { template: "DISTINCT"@, becomes: SyntaxKind::Keyword })
                    .push(GrammarView::Text { template: "FROM"@, becomes: SyntaxKind::Keyword }),
            })
            .push(GrammarView::Sequence {
                elements: Seq::empty()
                    .push(GrammarView::Text { template: "IS"@, becomes: SyntaxKind::Keyword })
                    .push(GrammarView::Text { template: "NOT"@, becomes: SyntaxKind::Keyword })
                    .push(GrammarView::Text { template: "DISTINCT"@, becomes: SyntaxKind::Keyword })
                    .push(GrammarView::Text { template: "FROM"@, becomes: SyntaxKind::Keyword }),
            }),
    }
}

/// The grammar of `ComparisonOperatorGrammar`.
pub fn comparison_operator_grammar() -> (r: Grammar)
    ensures
        grammar_view(r) == comparison_operator_grammar_view(),
{
    Grammar::first_of(
        GrammarList::new()
            .and(Grammar::reference("EqualsSegment"))
            .and(Grammar::reference("EqualsSegment_a"))
            .and(Grammar::reference("EqualsSegment_b"))
            .and(Grammar::reference("GreaterThanSegment"))
            .and(Grammar::reference("LessThanSegment"))
            .and(Grammar::reference("GreaterThanOrEqualToSegment"))
            .and(Grammar::reference("LessThanOrEqualToSegment"))
            .and(Grammar::reference("NotEqualToSegment"))
            .and(Grammar::reference("LikeOperatorSegment"))
            .and(Grammar::sequence_of(
                GrammarList::new()
                    .and(Grammar::keyword("IS"))
                    .and(Grammar::keyword("DISTINCT"))
                    .and(Grammar::keyword("FROM")),
            ))
            .and(Grammar::sequence_of(
                GrammarList::new()
                    .and(Grammar::keyword("IS"))
                    .and(Grammar::keyword("NOT"))
                    .and(Grammar::keyword("DISTINCT"))
                    .and(Grammar::keyword("FROM")),
            )),
    )
}

/// The grammar of `FromClauseTerminatorGrammar`.
pub open spec fn from_clause_terminator_grammar_view() -> GrammarView {
    GrammarView::OneOf {
        options: Seq::empty()
            .push(GrammarView::Text { template: "WHERE"@, becomes: SyntaxKind::Keyword })
            .push(GrammarView::Text { template: "LIMIT"@, becomes: SyntaxKind::Keyword })
            .push(GrammarView::Sequence {
                elements: Seq::empty()
                    .push(GrammarView::Text { template: "GROUP"@, becomes: SyntaxKind::Keyword })
                    .push(GrammarView::Text { template: "BY"@, becomes: SyntaxKind::Keyword }),
            })
            .push(GrammarView::Sequence {
                elements: Seq::empty()
                    .push(GrammarView::Text { template: "ORDER"@, becomes: SyntaxKind::Keyword })
                    .push(GrammarView::Text { template: "BY"@, becomes: SyntaxKind::Keyword }),
            })
            .push(GrammarView::Sequence {
                elements: Seq::empty()
                    .push(GrammarView::Text { template: "CLUSTER"@, becomes: SyntaxKind::Keyword })
                    .push(GrammarView::Text { template: "BY"@, becomes: SyntaxKind::Keyword }),
            })
            .push(GrammarView::Sequence {
                elements: Seq::empty()
                    .push(
                        GrammarView::Text { template: "DISTRIBUTE"@, becomes: SyntaxKind::Keyword },
                    )
                    .push(GrammarView::Text { template: "BY"@, becomes: SyntaxKind::Keyword }),
            })
            .push(GrammarView::Sequence {
                elements: Seq::empty()
                    .push(GrammarView::Text { template: "SORT"@, becomes: SyntaxKind::Keyword })
                    .push(GrammarView::Text { template: "BY"@, becomes: SyntaxKind::Keyword }),
            })
            .push(GrammarView::Text { template: "HAVING"@, becomes: SyntaxKind::Keyword })
            .push(GrammarView::Text { template: "QUALIFY"@, becomes: SyntaxKind::Keyword })
            .push(GrammarView::Ref { name: "SetOperatorSegment"@, exclude: None })
            .push(GrammarView::Ref { name: "WithNoSchemaBindingClauseSegment"@, exclude: None })
            .push(GrammarView::Ref { name: "WithDataClauseSegment"@, exclude: None })
            .push(GrammarView::Text { template: "KEYS"@, becomes: SyntaxKind::Keyword }),
    }
}

/// The grammar of `FromClauseTerminatorGrammar`.
pub fn from_clause_terminator_grammar() -> (r: Grammar)
    ensures
        grammar_view(r) == from_clause_terminator_grammar_view(),
{
    Grammar::first_of(
        GrammarList::new()
            .and(Grammar::keyword("WHERE"))
            .and(Grammar::keyword("LIMIT"))
            .and(Grammar::sequence_of(
                GrammarList::new()
                    .and(Grammar::keyword("GROUP"))
                    .and(Grammar::keyword("BY")),
            ))
            .and(Grammar::sequence_of(
                GrammarList::new()
                    .and(Grammar::keyword("ORDER"))
                    .and(Grammar::keyword("BY")),
            ))
            .and(Grammar::sequence_of(
                GrammarList::new()
                    .and(Grammar::keyword("CLUSTER"))
                    .and(Grammar::keyword("BY")),
            ))
            .and(Grammar::sequence_of(
                GrammarList::new()
                    .and(Grammar::keyword("DISTRIBUTE"))
                    .and(Grammar::keyword("BY")),
            ))
            .and(Grammar::sequence_of(
                GrammarList::new()
                    .and(Grammar::keyword("SORT"))
                    .and(Grammar::keyword("BY")),
            ))
            .and(Grammar::keyword("HAVING"))
            .and(Grammar::keyword("QUALIFY"))
            .and(Grammar::reference("SetOperatorSegment"))
            .and(Grammar::reference("WithNoSchemaBindingClauseSegment"))
            .and(Grammar::reference("WithDataClauseSegment"))
            .and(Grammar::keyword("KEYS")),
    )
}

/// The grammar of `TemporaryGrammar`.
pub open spec fn temporary_grammar_view() -> GrammarView {
    GrammarView::Sequence {
        elements: Seq::empty()
            .push(GrammarView::Optional { inner: Box::new(GrammarView::Sequence {
                elements: Seq::empty()
                    .push(GrammarView::Text { template: "GLOBAL"@, becomes: SyntaxKind::Keyword }),
            }) })
            .push(GrammarView::OneOf {
                options: Seq::empty()
                    .push(GrammarView::Text { template: "TEMP"@, becomes: SyntaxKind::Keyword })
                    .push(
                        GrammarView::Text { template: "TEMPORARY"@, becomes: SyntaxKind::Keyword },
                    ),
            }),
    }
}

/// The grammar of `TemporaryGrammar`.
pub fn temporary_grammar() -> (r: Grammar)
    ensures
        grammar_view(r) == temporary_grammar_view(),
{
    Grammar::sequence_of(
        GrammarList::new()
            .and(Grammar::sequence_of(
                GrammarList::new()
                    .and(Grammar::keyword("GLOBAL")),
            ).optional())
            .and(Grammar::first_of(
                GrammarList::new()
                    .and(Grammar::keyword("TEMP"))
                    .and(Grammar::keyword("TEMPORARY")),
            )),
    )
}

/// The grammar of `QuotedLiteralSegment`.
pub open spec fn quoted_literal_segment_view() -> GrammarView {
    GrammarView::OneOf {
        options: Seq::empty()
            .push(
                GrammarView::Token {
                    kind: SyntaxKind::SingleQuote,
                    becomes: SyntaxKind::QuotedLiteral,
                },
            )
            .push(
                GrammarView::Token {
                    kind: SyntaxKind::DoubleQuote,
                    becomes: SyntaxKind::QuotedLiteral,
                },
            ),
    }
}

/// The grammar of `QuotedLiteralSegment`.
pub fn quoted_literal_segment() -> (r: Grammar)
    ensures
        grammar_view(r) == quoted_literal_segment_view(),
{
    Grammar::first_of(
        GrammarList::new()
            .and(Grammar::token(SyntaxKind::SingleQuote, SyntaxKind::QuotedLiteral))
            .and(Grammar::token(SyntaxKind::DoubleQuote, SyntaxKind::QuotedLiteral)),
    )
}

/// The grammar of `LiteralGrammar`, made of the grammar `base`.
pub open spec fn literal_grammar_view(base: GrammarView) -> GrammarView {
    copied(
        base,
        Seq::empty()
            .push(GrammarView::Ref { name: "BytesQuotedLiteralSegment"@, exclude: None }),
        None,
    )
}

/// The grammar of `LiteralGrammar`, made of the grammar `base`.
pub fn literal_grammar(base: Grammar) -> (r: Grammar)
    ensures
        grammar_view(r) == literal_grammar_view(grammar_view(base)),
{
    base.copy(
        GrammarList::new()
            .and(Grammar::reference("BytesQuotedLiteralSegment")).items,
        None,
    )
}

/// The grammar of `NaturalJoinKeywordsGrammar`.
pub open spec fn natural_join_keywords_grammar_view() -> GrammarView {
    GrammarView::Sequence {
        elements: Seq::empty()
            .push(GrammarView::Text { template: "NATURAL"@, becomes: SyntaxKind::Keyword })
            .push(
                GrammarView::Optional { inner: Box::new(
                    GrammarView::Ref { name: "JoinTypeKeywords"@, exclude: None },
                ) },
            ),
    }
}

/// The grammar of `NaturalJoinKeywordsGrammar`.
pub fn natural_join_keywords_grammar() -> (r: Grammar)
    ensures
        grammar_view(r) == natural_join_keywords_grammar_view(),
{
    Grammar::sequence_of(
        GrammarList::new()
            .and(Grammar::keyword("NATURAL"))
            .and(Grammar::reference("JoinTypeKeywords").optional()),
    )
}

/// The grammar of `LikeGrammar`.
pub open spec fn like_grammar_view() -> GrammarView {
    GrammarView::OneOf {
        options: Seq::empty()
            .push(GrammarView::Sequence {
                elements: Seq::empty()
                    .push(GrammarView::OneOf {
                        options: Seq::empty()
                            .push(
                                GrammarView::Text {
                                    template: "LIKE"@,
                                    becomes: SyntaxKind::Keyword,
                                },
                            )
                            .push(
                                GrammarView::Text {
                                    template: "ILIKE"@,
                                    becomes: SyntaxKind::Keyword,
                                },
                            ),
                    })
                    .push(GrammarView::Optional { inner: Box::new(GrammarView::OneOf {
                        options: Seq::empty()
                            .push(
                                GrammarView::Text {
                                    template: "ALL"@,
                                    becomes: SyntaxKind::Keyword,
                                },
                            )
                            .push(
                                GrammarView::Text {
                                    template: "ANY"@,
                                    becomes: SyntaxKind::Keyword,
                                },
                            )
                            .push(
                                GrammarView::Text {
                                    template: "SOME"@,
                                    becomes: SyntaxKind::Keyword,
                                },
                            ),
                    }) }),
            })
            .push(GrammarView::Text { template: "RLIKE"@, becomes: SyntaxKind::Keyword })
            .push(GrammarView::Text { template: "REGEXP"@, becomes: SyntaxKind::Keyword }),
    }
}

/// The grammar of `LikeGrammar`.
pub fn like_grammar() -> (r: Grammar)
    ensures
        grammar_view(r) == like_grammar_view(),
{
    Grammar::first_of(
        GrammarList::new()
            .and(Grammar::sequence_of(
                GrammarList::new()
                    .and(Grammar::first_of(
                        GrammarList::new()
                            .and(Grammar::keyword("LIKE"))
                            .and(Grammar::keyword("ILIKE")),
                    ))
                    .and(Grammar::first_of(
                        GrammarList::new()
                            .and(Grammar::keyword("ALL"))
                            .and(Grammar::keyword("ANY"))
                            .and(Grammar::keyword("SOME")),
                    ).optional()),
            ))
            .and(Grammar::keyword("RLIKE"))
            .and(Grammar::keyword("REGEXP")),
    )
}

/// The grammar of `SingleIdentifierGrammar`.
pub open spec fn single_identifier_grammar_view() -> GrammarView {
    GrammarView::OneOf {
        options: Seq::empty()
            .push(GrammarView::Ref { name: "NakedIdentifierSegment"@, exclude: None })
            .push(GrammarView::Ref { name: "QuotedIdentifierSegment"@, exclude: None })
            .push(GrammarView::Ref { name: "SingleQuotedIdentifierSegment"@, exclude: None })
            .push(GrammarView::Ref { name: "BackQuotedIdentifierSegment"@, exclude: None }),
    }
}

/// The grammar of `SingleIdentifierGrammar`.
pub fn single_identifier_grammar() -> (r: Grammar)
    ensures
        grammar_view(r) == single_identifier_grammar_view(),
{
    Grammar::first_of(
        GrammarList::new()
            .and(Grammar::reference("NakedIdentifierSegment"))
            .and(Grammar::reference("QuotedIdentifierSegment"))
            .and(Grammar::reference("SingleQuotedIdentifierSegment"))
            .and(Grammar::reference("BackQuotedIdentifierSegment")),
    )
}

/// The grammar of `WhereClauseTerminatorGrammar`.
pub open spec fn where_clause_terminator_grammar_view() -> GrammarView {
    GrammarView::OneOf {
        options: Seq::empty()
            .push(GrammarView::Text { template: "LIMIT"@, becomes: SyntaxKind::Keyword })
            .push(GrammarView::Sequence {
                elements: Seq::empty()
                    .push(GrammarView::OneOf {
                        options: Seq::empty()
                            .push(
                                GrammarView::Text {
                                    template: "CLUSTER"@,
                                    becomes: SyntaxKind::Keyword,
                                },
                            )
                            .push(
                                GrammarView::Text {
                                    template: "DISTRIBUTE"@,
                                    becomes: SyntaxKind::Keyword,
                                },
                            )
                            .push(
                                GrammarView::Text {
                                    template: "GROUP"@,
                                    becomes: SyntaxKind::Keyword,
                                },
                            )
                            .push(
                                GrammarView::Text {
                                    template: "ORDER"@,
                                    becomes: SyntaxKind::Keyword,
                                },
                            )
                            .push(
                                GrammarView::Text {
                                    template: "SORT"@,
                                    becomes: SyntaxKind::Keyword,
                                },
                            ),
                    })
                    .push(GrammarView::Text { template: "BY"@, becomes: SyntaxKind::Keyword }),
            })
            .push(GrammarView::Sequence {
                elements: Seq::empty()
                    .push(GrammarView::Text { template: "ORDER"@, becomes: SyntaxKind::Keyword })
                    .push(GrammarView::Text { template: "BY"@, becomes: SyntaxKind::Keyword }),
            })
            .push(GrammarView::Sequence {
                elements: Seq::empty()
                    .push(
                        GrammarView::Text { template: "DISTRIBUTE"@, becomes: SyntaxKind::Keyword },
                    )
                    .push(GrammarView::Text { template: "BY"@, becomes: SyntaxKind::Keyword }),
            })
            .push(GrammarView::Text { template: "HAVING"@, becomes: SyntaxKind::Keyword })
            .push(GrammarView::Text { template: "QUALIFY"@, becomes: SyntaxKind::Keyword })
            .push(GrammarView::Text { template: "WINDOW"@, becomes: SyntaxKind::Keyword })
            .push(GrammarView::Text { template: "OVERLAPS"@, becomes: SyntaxKind::Keyword })
            .push(GrammarView::Text { template: "APPLY"@, becomes: SyntaxKind::Keyword }),
    }
}

/// The grammar of `WhereClauseTerminatorGrammar`.
pub fn where_clause_terminator_grammar() -> (r: Grammar)
    ensures
        grammar_view(r) == where_clause_terminator_grammar_view(),
{
    Grammar::first_of(
        GrammarList::new()
            .and(Grammar::keyword("LIMIT"))
            .and(Grammar::sequence_of(
                GrammarList::new()
                    .and(Grammar::first_of(
                        GrammarList::new()
                            .and(Grammar::keyword("CLUSTER"))
                            .and(Grammar::keyword("DISTRIBUTE"))
                            .and(Grammar::keyword("GROUP"))
                            .and(Grammar::keyword("ORDER"))
                            .and(Grammar::keyword("SORT")),
                    ))
                    .and(Grammar::keyword("BY")),
            ))
            .and(Grammar::sequence_of(
                GrammarList::new()
                    .and(Grammar::keyword("ORDER"))
                    .and(Grammar::keyword("BY")),
            ))
            .and(Grammar::sequence_of(
                GrammarList::new()
                    .and(Grammar::keyword("DISTRIBUTE"))
                    .and(Grammar::keyword("BY")),
            ))
            .and(Grammar::keyword("HAVING"))
            .and(Grammar::keyword("QUALIFY"))
            .and(Grammar::keyword("WINDOW"))
            .and(Grammar::keyword("OVERLAPS"))
            .and(Grammar::keyword("APPLY")),
    )
}

/// The grammar of `GroupByClauseTerminatorGrammar`.
pub open spec fn group_by_clause_terminator_grammar_view() -> GrammarView {
    GrammarView::OneOf {
        options: Seq::empty()
            .push(GrammarView::Sequence {
                elements: Seq::empty()
                    .push(GrammarView::OneOf {
                        options: Seq::empty()
                            .push(
                                GrammarView::Text {
                                    template: "ORDER"@,
                                    becomes: SyntaxKind::Keyword,
                                },
                            )
                            .push(
                                GrammarView::Text {
                                    template: "DISTRIBUTE"@,
                                    becomes: SyntaxKind::Keyword,
                                },
                            )
                            .push(
                                GrammarView::Text {
                                    template: "CLUSTER"@,
                                    becomes: SyntaxKind::Keyword,
                                },
                            )
                            .push(
                                GrammarView::Text {
                                    template: "SORT"@,
                                    becomes: SyntaxKind::Keyword,
                                },
                            ),
                    })
                    .push(GrammarView::Text { template: "BY"@, becomes: SyntaxKind::Keyword }),
            })
            .push(GrammarView::Text { template: "LIMIT"@, becomes: SyntaxKind::Keyword })
            .push(GrammarView::Text { template: "HAVING"@, becomes: SyntaxKind::Keyword })
            .push(GrammarView::Text { template: "WINDOW"@, becomes: SyntaxKind::Keyword }),
    }
}

/// The grammar of `GroupByClauseTerminatorGrammar`.
pub fn group_by_clause_terminator_grammar() -> (r: Grammar)
    ensures
        grammar_view(r) == group_by_clause_terminator_grammar_view(),
{
    Grammar::first_of(
        GrammarList::new()
            .and(Grammar::sequence_of(
                GrammarList::new()
                    .and(Grammar::first_of(
                        GrammarList::new()
                            .and(Grammar::keyword("ORDER"))
                            .and(Grammar::keyword("DISTRIBUTE"))
                            .and(Grammar::keyword("CLUSTER"))
                            .and(Grammar::keyword("SORT")),
                    ))
                    .and(Grammar::keyword("BY")),
            ))
            .and(Grammar::keyword("LIMIT"))
            .and(Grammar::keyword("HAVING"))
            .and(Grammar::keyword("WINDOW")),
    )
}

/// The grammar of `HavingClauseTerminatorGrammar`.
pub open spec fn having_clause_terminator_grammar_view() -> GrammarView {
    GrammarView::OneOf {
        options: Seq::empty()
            .push(GrammarView::Sequence {
                elements: Seq::empty()
                    .push(GrammarView::OneOf {
                        options: Seq::empty()
                            .push(
                                GrammarView::Text {
                                    template: "ORDER"@,
                                    becomes: SyntaxKind::Keyword,
                                },
                            )
                            .push(
                                GrammarView::Text {
                                    template: "CLUSTER"@,
                                    becomes: SyntaxKind::Keyword,
                                },
                            )
                            .push(
                                GrammarView::Text {
                                    template: "DISTRIBUTE"@,
                                    becomes: SyntaxKind::Keyword,
                                },
                            )
                            .push(
                                GrammarView::Text {
                                    template: "SORT"@,
                                    becomes: SyntaxKind::Keyword,
                                },
                            ),
                    })
                    .push(GrammarView::Text { template: "BY"@, becomes: SyntaxKind::Keyword }),
            })
            .push(GrammarView::Text { template: "LIMIT"@, becomes: SyntaxKind::Keyword })
            .push(GrammarView::Text { template: "QUALIFY"@, becomes: SyntaxKind::Keyword })
            .push(GrammarView::Text { template: "WINDOW"@, becomes: SyntaxKind::Keyword }),
    }
}

/// The grammar of `HavingClauseTerminatorGrammar`.
pub fn having_clause_terminator_grammar() -> (r: Grammar)
    ensures
        grammar_view(r) == having_clause_terminator_grammar_view(),
{
    Grammar::first_of(
        GrammarList::new()
            .and(Grammar::sequence_of(
                GrammarList::new()
                    .and(Grammar::first_of(
                        GrammarList::new()
                            .and(Grammar::keyword("ORDER"))
                            .and(Grammar::keyword("CLUSTER"))
                            .and(Grammar::keyword("DISTRIBUTE"))
                            .and(Grammar::keyword("SORT")),
                    ))
                    .and(Grammar::keyword("BY")),
            ))
            .and(Grammar::keyword("LIMIT"))
            .and(Grammar::keyword("QUALIFY"))
            .and(Grammar::keyword("WINDOW")),
    )
}

/// The grammar of `ArithmeticBinaryOperatorGrammar`.
pub open spec fn arithmetic_binary_operator_grammar_view() -> GrammarView {
    GrammarView::OneOf {
        options: Seq::empty()
            .push(GrammarView::Ref { name: "PlusSegment"@, exclude: None })
            .push(GrammarView::Ref { name: "MinusSegment"@, exclude: None })
            .push(GrammarView::Ref { name: "DivideSegment"@, exclude: None })
            .push(GrammarView::Ref { name: "MultiplySegment"@, exclude: None })
            .push(GrammarView::Ref { name: "ModuloSegment"@, exclude: None })
            .push(GrammarView::Ref { name: "BitwiseAndSegment"@, exclude: None })
            .push(GrammarView::Ref { name: "BitwiseOrSegment"@, exclude: None })
            .push(GrammarView::Ref { name: "BitwiseXorSegment"@, exclude: None })
            .push(GrammarView::Ref { name: "BitwiseLShiftSegment"@, exclude: None })
            .push(GrammarView::Ref { name: "BitwiseRShiftSegment"@, exclude: None })
            .push(GrammarView::Ref { name: "DivBinaryOperatorSegment"@, exclude: None }),
    }
}

/// The grammar of `ArithmeticBinaryOperatorGrammar`.
pub fn arithmetic_binary_operator_grammar() -> (r: Grammar)
    ensures
        grammar_view(r) == arithmetic_binary_operator_grammar_view(),
{
    Grammar::first_of(
        GrammarList::new()
            .and(Grammar::reference("PlusSegment"))
            .and(Grammar::reference("MinusSegment"))
            .and(Grammar::reference("DivideSegment"))
            .and(Grammar::reference("MultiplySegment"))
            .and(Grammar::reference("ModuloSegment"))
            .and(Grammar::reference("BitwiseAndSegment"))
            .and(Grammar::reference("BitwiseOrSegment"))
            .and(Grammar::reference("BitwiseXorSegment"))
            .and(Grammar::reference("BitwiseLShiftSegment"))
            .and(Grammar::reference("BitwiseRShiftSegment"))
            .and(Grammar::reference("DivBinaryOperatorSegment")),
    )
}

/// The grammar of `BinaryOperatorGrammar`.
pub open spec fn binary_operator_grammar_view() -> GrammarView {
    GrammarView::OneOf {
        options: Seq::empty()
            .push(GrammarView::Ref { name: "ArithmeticBinaryOperatorGrammar"@, exclude: None })
            .push(GrammarView::Ref { name: "StringBinaryOperatorGrammar"@, exclude: None })
            .push(GrammarView::Ref { name: "BooleanBinaryOperatorGrammar"@, exclude: None })
            .push(GrammarView::Ref { name: "ComparisonOperatorGrammar"@, exclude: None })
            .push(GrammarView::Ref { name: "RightArrowOperator"@, exclude: None }),
    }
}

/// The grammar of `BinaryOperatorGrammar`.
pub fn binary_operator_grammar() -> (r: Grammar)
    ensures
        grammar_view(r) == binary_operator_grammar_view(),
{
    Grammar::first_of(
        GrammarList::new()
            .and(Grammar::reference("ArithmeticBinaryOperatorGrammar"))
            .and(Grammar::reference("StringBinaryOperatorGrammar"))
            .and(Grammar::reference("BooleanBinaryOperatorGrammar"))
            .and(Grammar::reference("ComparisonOperatorGrammar"))
            .and(Grammar::reference("RightArrowOperator")),
    )
}

/// The grammar of `AccessorGrammar`.
pub open spec fn accessor_grammar_view() -> GrammarView {
    GrammarView::AnyNumberOf {
        options: Seq::empty()
            .push(GrammarView::Ref { name: "ArrayAccessorSegment"@, exclude: None })
            .push(GrammarView::Ref { name: "SemiStructuredAccessorSegment"@, exclude: None }),
        min_times: 0,
        max_times: None,
        max_times_per_element: None,
    }
}

/// The grammar of `AccessorGrammar`.
pub fn accessor_grammar() -> (r: Grammar)
    ensures
        grammar_view(r) == accessor_grammar_view(),
{
    Grammar::repeated(
        GrammarList::new()
            .and(Grammar::reference("ArrayAccessorSegment"))
            .and(Grammar::reference("SemiStructuredAccessorSegment")),
        0,
        None,
        None,
    )
}

/// The grammar of `ObjectReferenceTerminatorGrammar`.
pub open spec fn object_reference_terminator_grammar_view() -> GrammarView {
    GrammarView::OneOf {
        options: Seq::empty()
            .push(GrammarView::Text { template: "ON"@, becomes: SyntaxKind::Keyword })
            .push(GrammarView::Text { template: "AS"@, becomes: SyntaxKind::Keyword })
            .push(GrammarView::Text { template: "USING"@, becomes: SyntaxKind::Keyword })
            .push(GrammarView::Ref { name: "CommaSegment"@, exclude: None })
            .push(GrammarView::Ref { name: "CastOperatorSegment"@, exclude: None })
            .push(GrammarView::Ref { name: "StartSquareBracketSegment"@, exclude: None })
            .push(GrammarView::Ref { name: "StartBracketSegment"@, exclude: None })
            .push(GrammarView::Ref { name: "BinaryOperatorGrammar"@, exclude: None })
            .push(GrammarView::Ref { name: "DelimiterGrammar"@, exclude: None })
            .push(GrammarView::Ref { name: "JoinLikeClauseGrammar"@, exclude: None })
            .push(
                GrammarView::Token { kind: SyntaxKind::Bracketed, becomes: SyntaxKind::Bracketed },
            ),
    }
}

/// The grammar of `ObjectReferenceTerminatorGrammar`.
pub fn object_reference_terminator_grammar() -> (r: Grammar)
    ensures
        grammar_view(r) == object_reference_terminator_grammar_view(),
{
    Grammar::first_of(
        GrammarList::new()
            .and(Grammar::keyword("ON"))
            .and(Grammar::keyword("AS"))
            .and(Grammar::keyword("USING"))
            .and(Grammar::reference("CommaSegment"))
            .and(Grammar::reference("CastOperatorSegment"))
            .and(Grammar::reference("StartSquareBracketSegment"))
            .and(Grammar::reference("StartBracketSegment"))
            .and(Grammar::reference("BinaryOperatorGrammar"))
            .and(Grammar::reference("DelimiterGrammar"))
            .and(Grammar::reference("JoinLikeClauseGrammar"))
            .and(Grammar::token(SyntaxKind::Bracketed, SyntaxKind::Bracketed)),
    )
}

/// The grammar of `FunctionContentsExpressionGrammar`.
pub open spec fn function_contents_expression_grammar_view() -> GrammarView {
    GrammarView::OneOf {
        options: Seq::empty()
            .push(GrammarView::Ref { name: "ExpressionSegment"@, exclude: None })
            .push(GrammarView::Ref { name: "StarSegment"@, exclude: None }),
    }
}

/// The grammar of `FunctionContentsExpressionGrammar`.
pub fn function_contents_expression_grammar() -> (r: Grammar)
    ensures
        grammar_view(r) == function_contents_expression_grammar_view(),
{
    Grammar::first_of(
        GrammarList::new()
            .and(Grammar::reference("ExpressionSegment"))
            .and(Grammar::reference("StarSegment")),
    )
}

/// Binds `ComparisonOperatorGrammar`, `FromClauseTerminatorGrammar`,
/// `TemporaryGrammar`, `QuotedLiteralSegment`, `LiteralGrammar`,
/// `NaturalJoinKeywordsGrammar`, `LikeGrammar`, `SingleIdentifierGrammar`,
/// `WhereClauseTerminatorGrammar`, `GroupByClauseTerminatorGrammar`,
/// `HavingClauseTerminatorGrammar`, `ArithmeticBinaryOperatorGrammar`,
/// `BinaryOperatorGrammar`, `AccessorGrammar`,
/// `ObjectReferenceTerminatorGrammar`, `FunctionContentsExpressionGrammar`.
pub open spec fn define_comparison_operator_grammar_etc_view(
    dialect: DialectView,
) -> Result<DialectView, DialectError> {
    let dialect = with_rule(
        dialect,
        "ComparisonOperatorGrammar"@,
        comparison_operator_grammar_view(),
    );
    let dialect = with_rule(
        dialect,
        "FromClauseTerminatorGrammar"@,
        from_clause_terminator_grammar_view(),
    );
    let dialect = with_rule(dialect, "TemporaryGrammar"@, temporary_grammar_view());
    let dialect = with_rule(dialect, "QuotedLiteralSegment"@, quoted_literal_segment_view());
    match known(lookup_rule(dialect.library, "LiteralGrammar"@)) {
        Err(e) => Err(e),
        Ok(base) => {
            let dialect = with_rule(dialect, "LiteralGrammar"@, literal_grammar_view(base));
            let dialect = with_rule(
                dialect,
                "NaturalJoinKeywordsGrammar"@,
                natural_join_keywords_grammar_view(),
            );
            let dialect = with_rule(dialect, "LikeGrammar"@, like_grammar_view());
            let dialect = with_rule(
                dialect,
                "SingleIdentifierGrammar"@,
                single_identifier_grammar_view(),
            );
            let dialect = with_rule(
                dialect,
                "WhereClauseTerminatorGrammar"@,
                where_clause_terminator_grammar_view(),
            );
            let dialect = with_rule(
                dialect,
                "GroupByClauseTerminatorGrammar"@,
                group_by_clause_terminator_grammar_view(),
            );
            let dialect = with_rule(
                dialect,
                "HavingClauseTerminatorGrammar"@,
                having_clause_terminator_grammar_view(),
            );
            let dialect = with_rule(
                dialect,
                "ArithmeticBinaryOperatorGrammar"@,
                arithmetic_binary_operator_grammar_view(),
            );
            let dialect = with_rule(
                dialect,
                "BinaryOperatorGrammar"@,
                binary_operator_grammar_view(),
            );
            let dialect = with_rule(dialect, "AccessorGrammar"@, accessor_grammar_view());
            let dialect = with_rule(
                dialect,
                "ObjectReferenceTerminatorGrammar"@,
                object_reference_terminator_grammar_view(),
            );
            let dialect = with_rule(
                dialect,
                "FunctionContentsExpressionGrammar"@,
                function_contents_expression_grammar_view(),
            );
            Ok(dialect)
        },
    }
}

/// Binds `ComparisonOperatorGrammar`, `FromClauseTerminatorGrammar`,
/// `TemporaryGrammar`, `QuotedLiteralSegment`, `LiteralGrammar`,
/// `NaturalJoinKeywordsGrammar`, `LikeGrammar`, `SingleIdentifierGrammar`,
/// `WhereClauseTerminatorGrammar`, `GroupByClauseTerminatorGrammar`,
/// `HavingClauseTerminatorGrammar`, `ArithmeticBinaryOperatorGrammar`,
/// `BinaryOperatorGrammar`, `AccessorGrammar`,
/// `ObjectReferenceTerminatorGrammar`, `FunctionContentsExpressionGrammar`.
pub fn define_comparison_operator_grammar_etc(
    dialect: Dialect,
) -> (r: Result<Dialect, DialectError>)
    ensures
        outcome_view(r) == define_comparison_operator_grammar_etc_view(dialect.deep_view()),
{
    let mut dialect = dialect;
    dialect.define("ComparisonOperatorGrammar", comparison_operator_grammar());
    dialect.define("FromClauseTerminatorGrammar", from_clause_terminator_grammar());
    dialect.define("TemporaryGrammar", temporary_grammar());
    dialect.define("QuotedLiteralSegment", quoted_literal_segment());
    let base = match dialect.rule_grammar("LiteralGrammar") {
        Some(base) => base,
        None => {
            return Err(DialectError::UnknownRule);
        },
    };
    dialect.define("LiteralGrammar", literal_grammar(base));
    dialect.define("NaturalJoinKeywordsGrammar", natural_join_keywords_grammar());
    dialect.define("LikeGrammar", like_grammar());
    dialect.define("SingleIdentifierGrammar", single_identifier_grammar());
    dialect.define("WhereClauseTerminatorGrammar", where_clause_terminator_grammar());
    dialect.define("GroupByClauseTerminatorGrammar", group_by_clause_terminator_grammar());
    dialect.define("HavingClauseTerminatorGrammar", having_clause_terminator_grammar());
    dialect.define("ArithmeticBinaryOperatorGrammar", arithmetic_binary_operator_grammar());
    dialect.define("BinaryOperatorGrammar", binary_operator_grammar());
    dialect.define("AccessorGrammar", accessor_grammar());
    dialect.define("ObjectReferenceTerminatorGrammar", object_reference_terminator_grammar());
    dialect.define("FunctionContentsExpressionGrammar", function_contents_expression_grammar());
    Ok(dialect)
}

/// The grammar of `FileLiteralSegment`.
pub open spec fn file_literal_segment_view() -> GrammarView {
    GrammarView::Token { kind: SyntaxKind::FileLiteral, becomes: SyntaxKind::FileLiteral }
}

/// The grammar of `FileLiteralSegment`.
pub fn file_literal_segment() -> (r: Grammar)
    ensures
        grammar_view(r) == file_literal_segment_view(),
{
    Grammar::token(SyntaxKind::FileLiteral, SyntaxKind::FileLiteral)
}

/// The grammar of `BackQuotedIdentifierSegment`.
pub open spec fn back_quoted_identifier_segment_view() -> GrammarView {
    GrammarView::Token { kind: SyntaxKind::BackQuote, becomes: SyntaxKind::QuotedIdentifier }
}

/// The grammar of `BackQuotedIdentifierSegment`.
pub fn back_quoted_identifier_segment() -> (r: Grammar)
    ensures
        grammar_view(r) == back_quoted_identifier_segment_view(),
{
    Grammar::token(SyntaxKind::BackQuote, SyntaxKind::QuotedIdentifier)
}

/// The grammar of `NakedSemiStructuredElementSegment`.
pub open spec fn naked_semi_structured_element_segment_view() -> GrammarView {
    GrammarView::Regex { pattern: "[A-Z0-9_]*"@, becomes: SyntaxKind::SemiStructuredElement }
}

/// The grammar of `NakedSemiStructuredElementSegment`.
pub fn naked_semi_structured_element_segment() -> (r: Grammar)
    ensures
        grammar_view(r) == naked_semi_structured_element_segment_view(),
{
    Grammar::regex("[A-Z0-9_]*", SyntaxKind::SemiStructuredElement)
}

/// The grammar of `QuotedSemiStructuredElementSegment`.
pub open spec fn quoted_semi_structured_element_segment_view() -> GrammarView {
    GrammarView::Token { kind: SyntaxKind::SingleQuote, becomes: SyntaxKind::SemiStructuredElement }
}

/// The grammar of `QuotedSemiStructuredElementSegment`.
pub fn quoted_semi_structured_element_segment() -> (r: Grammar)
    ensures
        grammar_view(r) == quoted_semi_structured_element_segment_view(),
{
    Grammar::token(SyntaxKind::SingleQuote, SyntaxKind::SemiStructuredElement)
}

/// The grammar of `RightArrowOperator`.
pub open spec fn right_arrow_operator_view() -> GrammarView {
    GrammarView::Text { template: "->"@, becomes: SyntaxKind::BinaryOperator }
}

/// The grammar of `RightArrowOperator`.
pub fn right_arrow_operator() -> (r: Grammar)
    ensures
        grammar_view(r) == right_arrow_operator_view(),
{
    Grammar::text("->", SyntaxKind::BinaryOperator)
}

/// The grammar of `BinaryfileKeywordSegment`.
pub open spec fn binaryfile_keyword_segment_view() -> GrammarView {
    GrammarView::Text { template: "BINARYFILE"@, becomes: SyntaxKind::FileFormat }
}

/// The grammar of `BinaryfileKeywordSegment`.
pub fn binaryfile_keyword_segment() -> (r: Grammar)
    ensures
        grammar_view(r) == binaryfile_keyword_segment_view(),
{
    Grammar::text("BINARYFILE", SyntaxKind::FileFormat)
}

/// The grammar of `JsonfileKeywordSegment`.
pub open spec fn jsonfile_keyword_segment_view() -> GrammarView {
    GrammarView::Text { template: "JSONFILE"@, becomes: SyntaxKind::FileFormat }
}

/// The grammar of `JsonfileKeywordSegment`.
pub fn jsonfile_keyword_segment() -> (r: Grammar)
    ensures
        grammar_view(r) == jsonfile_keyword_segment_view(),
{
    Grammar::text("JSONFILE", SyntaxKind::FileFormat)
}

/// The grammar of `RcfileKeywordSegment`.
pub open spec fn rcfile_keyword_segment_view() -> GrammarView {
    GrammarView::Text { template: "RCFILE"@, becomes: SyntaxKind::FileFormat }
}

/// The grammar of `RcfileKeywordSegment`.
pub fn rcfile_keyword_segment() -> (r: Grammar)
    ensures
        grammar_view(r) == rcfile_keyword_segment_view(),
{
    Grammar::text("RCFILE", SyntaxKind::FileFormat)
}

/// The grammar of `SequencefileKeywordSegment`.
pub open spec fn sequencefile_keyword_segment_view() -> GrammarView {
    GrammarView::Text { template: "SEQUENCEFILE"@, becomes: SyntaxKind::FileFormat }
}

/// The grammar of `SequencefileKeywordSegment`.
pub fn sequencefile_keyword_segment() -> (r: Grammar)
    ensures
        grammar_view(r) == sequencefile_keyword_segment_view(),
{
    Grammar::text("SEQUENCEFILE", SyntaxKind::FileFormat)
}

/// The grammar of `TextfileKeywordSegment`.
pub open spec fn textfile_keyword_segment_view() -> GrammarView {
    GrammarView::Text { template: "TEXTFILE"@, becomes: SyntaxKind::FileFormat }
}

/// The grammar of `TextfileKeywordSegment`.
pub fn textfile_keyword_segment() -> (r: Grammar)
    ensures
        grammar_view(r) == textfile_keyword_segment_view(),
{
    Grammar::text("TEXTFILE", SyntaxKind::FileFormat)
}

/// The grammar of `StartAngleBracketSegment`.
pub open spec fn start_angle_bracket_segment_view() -> GrammarView {
    GrammarView::Text { template: "<"@, becomes: SyntaxKind::StartAngleBracket }
}

/// The grammar of `StartAngleBracketSegment`.
pub fn start_angle_bracket_segment() -> (r: Grammar)
    ensures
        grammar_view(r) == start_angle_bracket_segment_view(),
{
    Grammar::text("<", SyntaxKind::StartAngleBracket)
}

/// The grammar of `EndAngleBracketSegment`.
pub open spec fn end_angle_bracket_segment_view() -> GrammarView {
    GrammarView::Text { template: ">"@, becomes: SyntaxKind::EndAngleBracket }
}

/// The grammar of `EndAngleBracketSegment`.
pub fn end_angle_bracket_segment() -> (r: Grammar)
    ensures
        grammar_view(r) == end_angle_bracket_segment_view(),
{
    Grammar::text(">", SyntaxKind::EndAngleBracket)
}

/// The grammar of `EqualsSegment_a`.
pub open spec fn equals_segment_a_view() -> GrammarView {
    GrammarView::Text { template: "=="@, becomes: SyntaxKind::ComparisonOperator }
}

/// The grammar of `EqualsSegment_a`.
pub fn equals_segment_a() -> (r: Grammar)
    ensures
        grammar_view(r) == equals_segment_a_view(),
{
    Grammar::text("==", SyntaxKind::ComparisonOperator)
}

/// The grammar of `EqualsSegment_b`.
pub open spec fn equals_segment_b_view() -> GrammarView {
    GrammarView::Text { template: "<=>"@, becomes: SyntaxKind::ComparisonOperator }
}

/// The grammar of `EqualsSegment_b`.
pub fn equals_segment_b() -> (r: Grammar)
    ensures
        grammar_view(r) == equals_segment_b_view(),
{
    Grammar::text("<=>", SyntaxKind::ComparisonOperator)
}

/// The grammar of `FileKeywordSegment`.
pub open spec fn file_keyword_segment_view() -> GrammarView {
    GrammarView::OneOf {
        options: Seq::empty()
            .push(GrammarView::Text { template: "FILE"@, becomes: SyntaxKind::FileKeyword })
            .push(GrammarView::Text { template: "FILES"@, becomes: SyntaxKind::FileKeyword }),
    }
}

/// The grammar of `FileKeywordSegment`.
pub fn file_keyword_segment() -> (r: Grammar)
    ensures
        grammar_view(r) == file_keyword_segment_view(),
{
    Grammar::first_of(
        GrammarList::new()
            .and(Grammar::text("FILE", SyntaxKind::FileKeyword))
            .and(Grammar::text("FILES", SyntaxKind::FileKeyword)),
    )
}

/// The grammar of `JarKeywordSegment`.
pub open spec fn jar_keyword_segment_view() -> GrammarView {
    GrammarView::OneOf {
        options: Seq::empty()
            .push(GrammarView::Text { template: "JAR"@, becomes: SyntaxKind::FileKeyword })
            .push(GrammarView::Text { template: "JARS"@, becomes: SyntaxKind::FileKeyword }),
    }
}

/// The grammar of `JarKeywordSegment`.
pub fn jar_keyword_segment() -> (r: Grammar)
    ensures
        grammar_view(r) == jar_keyword_segment_view(),
{
    Grammar::first_of(
        GrammarList::new()
            .and(Grammar::text("JAR", SyntaxKind::FileKeyword))
            .and(Grammar::text("JARS", SyntaxKind::FileKeyword)),
    )
}

/// The grammar of `NoscanKeywordSegment`.
pub open spec fn noscan_keyword_segment_view() -> GrammarView {
    GrammarView::Text { template: "NOSCAN"@, becomes: SyntaxKind::Keyword }
}

/// The grammar of `NoscanKeywordSegment`.
pub fn noscan_keyword_segment() -> (r: Grammar)
    ensures
        grammar_view(r) == noscan_keyword_segment_view(),
{
    Grammar::text("NOSCAN", SyntaxKind::Keyword)
}

/// The grammar of `WhlKeywordSegment`.
pub open spec fn whl_keyword_segment_view() -> GrammarView {
    GrammarView::Text { template: "WHL"@, becomes: SyntaxKind::FileKeyword }
}

/// The grammar of `WhlKeywordSegment`.
pub fn whl_keyword_segment() -> (r: Grammar)
    ensures
        grammar_view(r) == whl_keyword_segment_view(),
{
    Grammar::text("WHL", SyntaxKind::FileKeyword)
}

/// The grammar of `PropertyGrammar`.
pub open spec fn property_grammar_view() -> GrammarView {
    GrammarView::Sequence {
        elements: Seq::empty()
            .push(GrammarView::Ref { name: "PropertyNameSegment"@, exclude: None })
            .push(
                GrammarView::Optional { inner: Box::new(
                    GrammarView::Ref { name: "EqualsSegment"@, exclude: None },
                ) },
            )
            .push(GrammarView::OneOf {
                options: Seq::empty()
                    .push(GrammarView::Ref { name: "LiteralGrammar"@, exclude: None })
                    .push(GrammarView::Ref { name: "SingleIdentifierGrammar"@, exclude: None }),
            }),
    }
}

/// The grammar of `PropertyGrammar`.
pub fn property_grammar() -> (r: Grammar)
    ensures
        grammar_view(r) == property_grammar_view(),
{
    Grammar::sequence_of(
        GrammarList::new()
            .and(Grammar::reference("PropertyNameSegment"))
            .and(Grammar::reference("EqualsSegment").optional())
            .and(Grammar::first_of(
                GrammarList::new()
                    .and(Grammar::reference("LiteralGrammar"))
                    .and(Grammar::reference("SingleIdentifierGrammar")),
            )),
    )
}

/// The grammar of `PropertyNameListGrammar`.
pub open spec fn property_name_list_grammar_view() -> GrammarView {
    GrammarView::Delimited {
        options: Seq::empty()
            .push(GrammarView::Ref { name: "PropertyNameSegment"@, exclude: None }),
        delimiter: Box::new(GrammarView::Ref { name: "CommaSegment"@, exclude: None }),
        min_delimiters: 0,
        allow_trailing: false,
    }
}

/// The grammar of `PropertyNameListGrammar`.
pub fn property_name_list_grammar() -> (r: Grammar)
    ensures
        grammar_view(r) == property_name_list_grammar_view(),
{
    Grammar::delimited_by(
        GrammarList::new()
            .and(Grammar::reference("PropertyNameSegment")),
        Grammar::reference("CommaSegment"),
        0,
        false,
    )
}

/// The grammar of `BracketedPropertyNameListGrammar`.
pub open spec fn bracketed_property_name_list_grammar_view() -> GrammarView {
    GrammarView::Bracketed {
        elements: Seq::empty()
            .push(GrammarView::Ref { name: "PropertyNameListGrammar"@, exclude: None }),
        bracket_type: "round"@,
        parse_mode: ParseMode::Strict,
    }
}

/// The grammar of `BracketedPropertyNameListGrammar`.
pub fn bracketed_property_name_list_grammar() -> (r: Grammar)
    ensures
        grammar_view(r) == bracketed_property_name_list_grammar_view(),
{
    Grammar::bracketed_by(
        GrammarList::new()
            .and(Grammar::reference("PropertyNameListGrammar")),
        "round",
        ParseMode::Strict,
    )
}

/// The grammar of `PropertyListGrammar`.
pub open spec fn property_list_grammar_view() -> GrammarView {
    GrammarView::Delimited {
        options: Seq::empty()
            .push(GrammarView::Ref { name: "PropertyGrammar"@, exclude: None }),
        delimiter: Box::new(GrammarView::Ref { name: "CommaSegment"@, exclude: None }),
        min_delimiters: 0,
        allow_trailing: false,
    }
}

/// The grammar of `PropertyListGrammar`.
pub fn property_list_grammar() -> (r: Grammar)
    ensures
        grammar_view(r) == property_list_grammar_view(),
{
    Grammar::delimited_by(
        GrammarList::new()
            .and(Grammar::reference("PropertyGrammar")),
        Grammar::reference("CommaSegment"),
        0,
        false,
    )
}

/// The grammar of `BracketedPropertyListGrammar`.
pub open spec fn bracketed_property_list_grammar_view() -> GrammarView {
    GrammarView::Bracketed {
        elements: Seq::empty()
            .push(GrammarView::Ref { name: "PropertyListGrammar"@, exclude: None }),
        bracket_type: "round"@,
        parse_mode: ParseMode::Strict,
    }
}

/// The grammar of `BracketedPropertyListGrammar`.
pub fn bracketed_property_list_grammar() -> (r: Grammar)
    ensures
        grammar_view(r) == bracketed_property_list_grammar_view(),
{
    Grammar::bracketed_by(
        GrammarList::new()
            .and(Grammar::reference("PropertyListGrammar")),
        "round",
        ParseMode::Strict,
    )
}

/// The grammar of `OptionsGrammar`.
pub open spec fn options_grammar_view() -> GrammarView {
    GrammarView::Sequence {
        elements: Seq::empty()
            .push(GrammarView::Text { template: "OPTIONS"@, becomes: SyntaxKind::Keyword })
            .push(GrammarView::Ref { name: "BracketedPropertyListGrammar"@, exclude: None }),
    }
}

/// The grammar of `OptionsGrammar`.
pub fn options_grammar() -> (r: Grammar)
    ensures
        grammar_view(r) == options_grammar_view(),
{
    Grammar::sequence_of(
        GrammarList::new()
            .and(Grammar::keyword("OPTIONS"))
            .and(Grammar::reference("BracketedPropertyListGrammar")),
    )
}

/// The grammar of `BucketSpecGrammar`.
pub open spec fn bucket_spec_grammar_view() -> GrammarView {
    GrammarView::Sequence {
        elements: Seq::empty()
            .push(GrammarView::Ref { name: "ClusteredBySpecGrammar"@, exclude: None })
            .push(
                GrammarView::Optional { inner: Box::new(
                    GrammarView::Ref { name: "SortedBySpecGrammar"@, exclude: None },
                ) },
            )
            .push(GrammarView::Text { template: "INTO"@, becomes: SyntaxKind::Keyword })
            .push(GrammarView::Ref { name: "NumericLiteralSegment"@, exclude: None })
            .push(GrammarView::Text { template: "BUCKETS"@, becomes: SyntaxKind::Keyword }),
    }
}

/// The grammar of `BucketSpecGrammar`.
pub fn bucket_spec_grammar() -> (r: Grammar)
    ensures
        grammar_view(r) == bucket_spec_grammar_view(),
{
    Grammar::sequence_of(
        GrammarList::new()
            .and(Grammar::reference("ClusteredBySpecGrammar"))
            .and(Grammar::reference("SortedBySpecGrammar").optional())
            .and(Grammar::keyword("INTO"))
            .and(Grammar::reference("NumericLiteralSegment"))
            .and(Grammar::keyword("BUCKETS")),
    )
}

/// The grammar of `ClusteredBySpecGrammar`.
pub open spec fn clustered_by_spec_grammar_view() -> GrammarView {
    GrammarView::Sequence {
        elements: Seq::empty()
            .push(GrammarView::Text { template: "CLUSTERED"@, becomes: SyntaxKind::Keyword })
            .push(GrammarView::Text { template: "BY"@, becomes: SyntaxKind::Keyword })
            .push(GrammarView::Ref { name: "BracketedColumnReferenceListGrammar"@, exclude: None }),
    }
}

/// The grammar of `ClusteredBySpecGrammar`.
pub fn clustered_by_spec_grammar() -> (r: Grammar)
    ensures
        grammar_view(r) == clustered_by_spec_grammar_view(),
{
    Grammar::sequence_of(
        GrammarList::new()
            .and(Grammar::keyword("CLUSTERED"))
            .and(Grammar::keyword("BY"))
            .and(Grammar::reference("BracketedColumnReferenceListGrammar")),
    )
}

/// The grammar of `DatabasePropertiesGrammar`.
pub open spec fn database_properties_grammar_view() -> GrammarView {
    GrammarView::Sequence {
        elements: Seq::empty()
            .push(GrammarView::Text { template: "DBPROPERTIES"@, becomes: SyntaxKind::Keyword })
            .push(GrammarView::Ref { name: "BracketedPropertyListGrammar"@, exclude: None }),
    }
}

/// The grammar of `DatabasePropertiesGrammar`.
pub fn database_properties_grammar() -> (r: Grammar)
    ensures
        grammar_view(r) == database_properties_grammar_view(),
{
    Grammar::sequence_of(
        GrammarList::new()
            .and(Grammar::keyword("DBPROPERTIES"))
            .and(Grammar::reference("BracketedPropertyListGrammar")),
    )
}

/// The grammar of `DataSourcesV2FileTypeGrammar`.
pub open spec fn data_sources_v2_file_type_grammar_view() -> GrammarView {
    GrammarView::OneOf {
        options: Seq::empty()
            .push(GrammarView::Text { template: "AVRO"@, becomes: SyntaxKind::Keyword })
            .push(GrammarView::Text { template: "CSV"@, becomes: SyntaxKind::Keyword })
            .push(GrammarView::Text { template: "JSON"@, becomes: SyntaxKind::Keyword })
            .push(GrammarView::Text { template: "PARQUET"@, becomes: SyntaxKind::Keyword })
            .push(GrammarView::Text { template: "ORC"@, becomes: SyntaxKind::Keyword })
            .push(GrammarView::Text { template: "DELTA"@, becomes: SyntaxKind::Keyword })
            .push(GrammarView::Text { template: "CSV"@, becomes: SyntaxKind::Keyword })
            .push(GrammarView::Text { template: "ICEBERG"@, becomes: SyntaxKind::Keyword })
            .push(GrammarView::Text { template: "TEXT"@, becomes: SyntaxKind::Keyword })
            .push(GrammarView::Text { template: "BINARYFILE"@, becomes: SyntaxKind::Keyword }),
    }
}

/// The grammar of `DataSourcesV2FileTypeGrammar`.
pub fn data_sources_v2_file_type_grammar() -> (r: Grammar)
    ensures
        grammar_view(r) == data_sources_v2_file_type_grammar_view(),
{
    Grammar::first_of(
        GrammarList::new()
            .and(Grammar::keyword("AVRO"))
            .and(Grammar::keyword("CSV"))
            .and(Grammar::keyword("JSON"))
            .and(Grammar::keyword("PARQUET"))
            .and(Grammar::keyword("ORC"))
            .and(Grammar::keyword("DELTA"))
            .and(Grammar::keyword("CSV"))
            .and(Grammar::keyword("ICEBERG"))
            .and(Grammar::keyword("TEXT"))
            .and(Grammar::keyword("BINARYFILE")),
    )
}

/// The grammar of `FileFormatGrammar`.
pub open spec fn file_format_grammar_view() -> GrammarView {
    GrammarView::OneOf {
        options: Seq::empty()
            .push(GrammarView::Ref { name: "DataSourcesV2FileTypeGrammar"@, exclude: None })
            .push(GrammarView::Text { template: "SEQUENCEFILE"@, becomes: SyntaxKind::Keyword })
            .push(GrammarView::Text { template: "TEXTFILE"@, becomes: SyntaxKind::Keyword })
            .push(GrammarView::Text { template: "RCFILE"@, becomes: SyntaxKind::Keyword })
            .push(GrammarView::Text { template: "JSONFILE"@, becomes: SyntaxKind::Keyword })
            .push(GrammarView::Sequence {
                elements: Seq::empty()
                    .push(
                        GrammarView::Text {
                            template: "INPUTFORMAT"@,
                            becomes: SyntaxKind::Keyword,
                        },
                    )
                    .push(GrammarView::Ref { name: "QuotedLiteralSegment"@, exclude: None })
                    .push(
                        GrammarView::Text {
                            template: "OUTPUTFORMAT"@,
                            becomes: SyntaxKind::Keyword,
                        },
                    )
                    .push(GrammarView::Ref { name: "QuotedLiteralSegment"@, exclude: None }),
            }),
    }
}

/// The grammar of `FileFormatGrammar`.
pub fn file_format_grammar() -> (r: Grammar)
    ensures
        grammar_view(r) == file_format_grammar_view(),
{
    Grammar::first_of(
        GrammarList::new()
            .and(Grammar::reference("DataSourcesV2FileTypeGrammar"))
            .and(Grammar::keyword("SEQUENCEFILE"))
            .and(Grammar::keyword("TEXTFILE"))
            .and(Grammar::keyword("RCFILE"))
            .and(Grammar::keyword("JSONFILE"))
            .and(Grammar::sequence_of(
                GrammarList::new()
                    .and(Grammar::keyword("INPUTFORMAT"))
                    .and(Grammar::reference("QuotedLiteralSegment"))
                    .and(Grammar::keyword("OUTPUTFORMAT"))
                    .and(Grammar::reference("QuotedLiteralSegment")),
            )),
    )
}

/// The grammar of `TimestampAsOfGrammar`.
pub open spec fn timestamp_as_of_grammar_view() -> GrammarView {
    GrammarView::Sequence {
        elements: Seq::empty()
            .push(GrammarView::Text { template: "TIMESTAMP"@, becomes: SyntaxKind::Keyword })
            .push(GrammarView::Text { template: "AS"@, becomes: SyntaxKind::Keyword })
            .push(GrammarView::Text { template: "OF"@, becomes: SyntaxKind::Keyword })
            .push(GrammarView::OneOf {
                options: Seq::empty()
                    .push(GrammarView::Ref { name: "QuotedLiteralSegment"@, exclude: None })
                    .push(GrammarView::Ref { name: "BareFunctionSegment"@, exclude: None })
                    .push(GrammarView::Ref { name: "FunctionSegment"@, exclude: None }),
            }),
    }
}

/// The grammar of `TimestampAsOfGrammar`.
pub fn timestamp_as_of_grammar() -> (r: Grammar)
    ensures
        grammar_view(r) == timestamp_as_of_grammar_view(),
{
    Grammar::sequence_of(
        GrammarList::new()
            .and(Grammar::keyword("TIMESTAMP"))
            .and(Grammar::keyword("AS"))
            .and(Grammar::keyword("OF"))
            .and(Grammar::first_of(
                GrammarList::new()
                    .and(Grammar::reference("QuotedLiteralSegment"))
                    .and(Grammar::reference("BareFunctionSegment"))
                    .and(Grammar::reference("FunctionSegment")),
            )),
    )
}

/// The grammar of `VersionAsOfGrammar`.
pub open spec fn version_as_of_grammar_view() -> GrammarView {
    GrammarView::Sequence {
        elements: Seq::empty()
            .push(GrammarView::Text { template: "VERSION"@, becomes: SyntaxKind::Keyword })
            .push(GrammarView::Text { template: "AS"@, becomes: SyntaxKind::Keyword })
            .push(GrammarView::Text { template: "OF"@, becomes: SyntaxKind::Keyword })
            .push(GrammarView::Ref { name: "NumericLiteralSegment"@, exclude: None }),
    }
}

/// The grammar of `VersionAsOfGrammar`.
pub fn version_as_of_grammar() -> (r: Grammar)
    ensures
        grammar_view(r) == version_as_of_grammar_view(),
{
    Grammar::sequence_of(
        GrammarList::new()
            .and(Grammar::keyword("VERSION"))
            .and(Grammar::keyword("AS"))
            .and(Grammar::keyword("OF"))
            .and(Grammar::reference("NumericLiteralSegment")),
    )
}

/// The grammar of `StartHintSegment`.
pub open spec fn start_hint_segment_view() -> GrammarView {
    GrammarView::Text { template: "/*+"@, becomes: SyntaxKind::StartHint }
}

/// The grammar of `StartHintSegment`.
pub fn start_hint_segment() -> (r: Grammar)
    ensures
        grammar_view(r) == start_hint_segment_view(),
{
    Grammar::text("/*+", SyntaxKind::StartHint)
}

/// The grammar of `EndHintSegment`.
pub open spec fn end_hint_segment_view() -> GrammarView {
    GrammarView::Text { template: "*/"@, becomes: SyntaxKind::EndHint }
}

/// The grammar of `EndHintSegment`.
pub fn end_hint_segment() -> (r: Grammar)
    ensures
        grammar_view(r) == end_hint_segment_view(),
{
    Grammar::text("*/", SyntaxKind::EndHint)
}

/// The grammar of `PartitionSpecGrammar`.
pub open spec fn partition_spec_grammar_view() -> GrammarView {
    GrammarView::Sequence {
        elements: Seq::empty()
            .push(GrammarView::OneOf {
                options: Seq::empty()
                    .push(
                        GrammarView::Text { template: "PARTITION"@, becomes: SyntaxKind::Keyword },
                    )
                    .push(GrammarView::Sequence {
                        elements: Seq::empty()
                            .push(
                                GrammarView::Text {
                                    template: "PARTITIONED"@,
                                    becomes: SyntaxKind::Keyword,
                                },
                            )
                            .push(
                                GrammarView::Text { template: "BY"@, becomes: SyntaxKind::Keyword },
                            ),
                    }),
            })
            .push(GrammarView::Bracketed {
                elements: Seq::empty()
                    .push(GrammarView::Delimited {
                        options: Seq::empty()
                            .push(GrammarView::OneOf {
                                options: Seq::empty()
                                    .push(
                                        GrammarView::Ref {
                                            name: "ColumnDefinitionSegment"@,
                                            exclude: None,
                                        },
                                    )
                                    .push(GrammarView::Sequence {
                                        elements: Seq::empty()
                                            .push(
                                                GrammarView::Ref {
                                                    name: "ColumnReferenceSegment"@,
                                                    exclude: None,
                                                },
                                            )
                                            .push(
                                                GrammarView::Optional { inner: Box::new(
                                                    GrammarView::Ref {
                                                        name: "EqualsSegment"@,
                                                        exclude: None,
                                                    },
                                                ) },
                                            )
                                            .push(
                                                GrammarView::Optional { inner: Box::new(
                                                    GrammarView::Ref {
                                                        name: "LiteralGrammar"@,
                                                        exclude: None,
                                                    },
                                                ) },
                                            )
                                            .push(
                                                GrammarView::Optional { inner: Box::new(
                                                    GrammarView::Ref {
                                                        name: "CommentGrammar"@,
                                                        exclude: None,
                                                    },
                                                ) },
                                            ),
                                    })
                                    .push(
                                        GrammarView::Optional { inner: Box::new(
                                            GrammarView::Ref {
                                                name: "IcebergTransformationSegment"@,
                                                exclude: None,
                                            },
                                        ) },
                                    ),
                            }),
                        delimiter: Box::new(
                            GrammarView::Ref { name: "CommaSegment"@, exclude: None },
                        ),
                        min_delimiters: 0,
                        allow_trailing: false,
                    }),
                bracket_type: "round"@,
                parse_mode: ParseMode::Strict,
            }),
    }
}

/// The grammar of `PartitionSpecGrammar`.
pub fn partition_spec_grammar() -> (r: Grammar)
    ensures
        grammar_view(r) == partition_spec_grammar_view(),
{
    Grammar::sequence_of(
        GrammarList::new()
            .and(Grammar::first_of(
                GrammarList::new()
                    .and(Grammar::keyword("PARTITION"))
                    .and(Grammar::sequence_of(
                        GrammarList::new()
                            .and(Grammar::keyword("PARTITIONED"))
                            .and(Grammar::keyword("BY")),
                    )),
            ))
            .and(Grammar::bracketed_by(
                GrammarList::new()
                    .and(Grammar::delimited_by(
                        GrammarList::new()
                            .and(Grammar::first_of(
                                GrammarList::new()
                                    .and(Grammar::reference("ColumnDefinitionSegment"))
                                    .and(Grammar::sequence_of(
                                        GrammarList::new()
                                            .and(Grammar::reference("ColumnReferenceSegment"))
                                            .and(Grammar::reference("EqualsSegment").optional())
                                            .and(Grammar::reference("LiteralGrammar").optional())
                                            .and(Grammar::reference("CommentGrammar").optional()),
                                    ))
                                    .and(
                                        Grammar::reference("IcebergTransformationSegment").optional(),
                                    ),
                            )),
                        Grammar::reference("CommaSegment"),
                        0,
                        false,
                    )),
                "round",
                ParseMode::Strict,
            )),
    )
}

/// The grammar of `PartitionFieldGrammar`.
pub open spec fn partition_field_grammar_view() -> GrammarView {
    GrammarView::Sequence {
        elements: Seq::empty()
            .push(GrammarView::Text { template: "PARTITION"@, becomes: SyntaxKind::Keyword })
            .push(GrammarView::Text { template: "FIELD"@, becomes: SyntaxKind::Keyword })
            .push(GrammarView::Delimited {
                options: Seq::empty()
                    .push(GrammarView::OneOf {
                        options: Seq::empty()
                            .push(
                                GrammarView::Ref {
                                    name: "ColumnDefinitionSegment"@,
                                    exclude: None,
                                },
                            )
                            .push(GrammarView::Sequence {
                                elements: Seq::empty()
                                    .push(
                                        GrammarView::Ref {
                                            name: "ColumnReferenceSegment"@,
                                            exclude: None,
                                        },
                                    )
                                    .push(
                                        GrammarView::Optional { inner: Box::new(
                                            GrammarView::Ref {
                                                name: "EqualsSegment"@,
                                                exclude: None,
                                            },
                                        ) },
                                    )
                                    .push(
                                        GrammarView::Optional { inner: Box::new(
                                            GrammarView::Ref {
                                                name: "LiteralGrammar"@,
                                                exclude: None,
                                            },
                                        ) },
                                    )
                                    .push(
                                        GrammarView::Optional { inner: Box::new(
                                            GrammarView::Ref {
                                                name: "CommentGrammar"@,
                                                exclude: None,
                                            },
                                        ) },
                                    ),
                            })
                            .push(
                                GrammarView::Optional { inner: Box::new(
                                    GrammarView::Ref {
                                        name: "IcebergTransformationSegment"@,
                                        exclude: None,
                                    },
                                ) },
                            ),
                    }),
                delimiter: Box::new(GrammarView::Ref { name: "CommaSegment"@, exclude: None }),
                min_delimiters: 0,
                allow_trailing: false,
            })
            .push(GrammarView::Optional { inner: Box::new(GrammarView::Sequence {
                elements: Seq::empty()
                    .push(
                        GrammarView::Optional { inner: Box::new(
                            GrammarView::Text { template: "WITH"@, becomes: SyntaxKind::Keyword },
                        ) },
                    )
                    .push(GrammarView::Delimited {
                        options: Seq::empty()
                            .push(GrammarView::OneOf {
                                options: Seq::empty()
                                    .push(
                                        GrammarView::Ref {
                                            name: "ColumnDefinitionSegment"@,
                                            exclude: None,
                                        },
                                    )
                                    .push(GrammarView::Sequence {
                                        elements: Seq::empty()
                                            .push(
                                                GrammarView::Ref {
                                                    name: "ColumnReferenceSegment"@,
                                                    exclude: None,
                                                },
                                            )
                                            .push(
                                                GrammarView::Optional { inner: Box::new(
                                                    GrammarView::Ref {
                                                        name: "EqualsSegment"@,
                                                        exclude: None,
                                                    },
                                                ) },
                                            )
                                            .push(
                                                GrammarView::Optional { inner: Box::new(
                                                    GrammarView::Ref {
                                                        name: "LiteralGrammar"@,
                                                        exclude: None,
                                                    },
                                                ) },
                                            )
                                            .push(
                                                GrammarView::Optional { inner: Box::new(
                                                    GrammarView::Ref {
                                                        name: "CommentGrammar"@,
                                                        exclude: None,
                                                    },
                                                ) },
                                            ),
                                    })
                                    .push(
                                        GrammarView::Optional { inner: Box::new(
                                            GrammarView::Ref {
                                                name: "IcebergTransformationSegment"@,
                                                exclude: None,
                                            },
                                        ) },
                                    ),
                            }),
                        delimiter: Box::new(
                            GrammarView::Ref { name: "CommaSegment"@, exclude: None },
                        ),
                        min_delimiters: 0,
                        allow_trailing: false,
                    }),
            }) })
            .push(GrammarView::Optional { inner: Box::new(GrammarView::Sequence {
                elements: Seq::empty()
                    .push(GrammarView::Text { template: "AS"@, becomes: SyntaxKind::Keyword })
                    .push(GrammarView::Ref { name: "NakedIdentifierSegment"@, exclude: None }),
            }) }),
    }
}

/// The grammar of `PartitionFieldGrammar`.
pub fn partition_field_grammar() -> (r: Grammar)
    ensures
        grammar_view(r) == partition_field_grammar_view(),
{
    Grammar::sequence_of(
        GrammarList::new()
            .and(Grammar::keyword("PARTITION"))
            .and(Grammar::keyword("FIELD"))
            .and(Grammar::delimited_by(
                GrammarList::new()
                    .and(Grammar::first_of(
                        GrammarList::new()
                            .and(Grammar::reference("ColumnDefinitionSegment"))
                            .and(Grammar::sequence_of(
                                GrammarList::new()
                                    .and(Grammar::reference("ColumnReferenceSegment"))
                                    .and(Grammar::reference("EqualsSegment").optional())
                                    .and(Grammar::reference("LiteralGrammar").optional())
                                    .and(Grammar::reference("CommentGrammar").optional()),
                            ))
                            .and(Grammar::reference("IcebergTransformationSegment").optional()),
                    )),
                Grammar::reference("CommaSegment"),
                0,
                false,
            ))
            .and(Grammar::sequence_of(
                GrammarList::new()
                    .and(Grammar::keyword("WITH").optional())
                    .and(Grammar::delimited_by(
                        GrammarList::new()
                            .and(Grammar::first_of(
                                GrammarList::new()
                                    .and(Grammar::reference("ColumnDefinitionSegment"))
                                    .and(Grammar::sequence_of(
                                        GrammarList::new()
                                            .and(Grammar::reference("ColumnReferenceSegment"))
                                            .and(Grammar::reference("EqualsSegment").optional())
                                            .and(Grammar::reference("LiteralGrammar").optional())
                                            .and(Grammar::reference("CommentGrammar").optional()),
                                    ))
                                    .and(
                                        Grammar::reference("IcebergTransformationSegment").optional(),
                                    ),
                            )),
                        Grammar::reference("CommaSegment"),
                        0,
                        false,
                    )),
            ).optional())
            .and(Grammar::sequence_of(
                GrammarList::new()
                    .and(Grammar::keyword("AS"))
                    .and(Grammar::reference("NakedIdentifierSegment")),
            ).optional()),
    )
}

/// The grammar of `PropertiesNakedIdentifierSegment`.
pub open spec fn properties_naked_identifier_segment_view() -> GrammarView {
    GrammarView::Regex { pattern: "[A-Z0-9]*[A-Z][A-Z0-9]*"@, becomes: SyntaxKind::PropertiesNakedIdentifier }
}

/// The grammar of `PropertiesNakedIdentifierSegment`.
pub fn properties_naked_identifier_segment() -> (r: Grammar)
    ensures
        grammar_view(r) == properties_naked_identifier_segment_view(),
{
    Grammar::regex("[A-Z0-9]*[A-Z][A-Z0-9]*", SyntaxKind::PropertiesNakedIdentifier)
}

/// The grammar of `ResourceFileGrammar`.
pub open spec fn resource_file_grammar_view() -> GrammarView {
    GrammarView::OneOf {
        options: Seq::empty()
            .push(GrammarView::Ref { name: "JarKeywordSegment"@, exclude: None })
            .push(GrammarView::Ref { name: "WhlKeywordSegment"@, exclude: None })
            .push(GrammarView::Ref { name: "FileKeywordSegment"@, exclude: None }),
    }
}

/// The grammar of `ResourceFileGrammar`.
pub fn resource_file_grammar() -> (r: Grammar)
    ensures
        grammar_view(r) == resource_file_grammar_view(),
{
    Grammar::first_of(
        GrammarList::new()
            .and(Grammar::reference("JarKeywordSegment"))
            .and(Grammar::reference("WhlKeywordSegment"))
            .and(Grammar::reference("FileKeywordSegment")),
    )
}

/// The grammar of `ResourceLocationGrammar`.
pub open spec fn resource_location_grammar_view() -> GrammarView {
    GrammarView::Sequence {
        elements: Seq::empty()
            .push(GrammarView::Text { template: "USING"@, becomes: SyntaxKind::Keyword })
            .push(GrammarView::Ref { name: "ResourceFileGrammar"@, exclude: None })
            .push(GrammarView::Ref { name: "QuotedLiteralSegment"@, exclude: None }),
    }
}

/// The grammar of `ResourceLocationGrammar`.
pub fn resource_location_grammar() -> (r: Grammar)
    ensures
        grammar_view(r) == resource_location_grammar_view(),
{
    Grammar::sequence_of(
        GrammarList::new()
            .and(Grammar::keyword("USING"))
            .and(Grammar::reference("ResourceFileGrammar"))
            .and(Grammar::reference("QuotedLiteralSegment")),
    )
}

/// The grammar of `SortedBySpecGrammar`.
pub open spec fn sorted_by_spec_grammar_view() -> GrammarView {
    GrammarView::Optional { inner: Box::new(GrammarView::Sequence {
        elements: Seq::empty()
            .push(GrammarView::Text { template: "SORTED"@, becomes: SyntaxKind::Keyword })
            .push(GrammarView::Text { template: "BY"@, becomes: SyntaxKind::Keyword })
            .push(GrammarView::Bracketed {
                elements: Seq::empty()
                    .push(GrammarView::Delimited {
                        options: Seq::empty()
                            .push(GrammarView::Sequence {
                                elements: Seq::empty()
                                    .push(
                                        GrammarView::Ref {
                                            name: "ColumnReferenceSegment"@,
                                            exclude: None,
                                        },
                                    )
                                    .push(GrammarView::Optional { inner: Box::new(GrammarView::OneOf {
                                        options: Seq::empty()
                                            .push(
                                                GrammarView::Text {
                                                    template: "ASC"@,
                                                    becomes: SyntaxKind::Keyword,
                                                },
                                            )
                                            .push(
                                                GrammarView::Text {
                                                    template: "DESC"@,
                                                    becomes: SyntaxKind::Keyword,
                                                },
                                            ),
                                    }) }),
                            }),
                        delimiter: Box::new(
                            GrammarView::Ref { name: "CommaSegment"@, exclude: None },
                        ),
                        min_delimiters: 0,
                        allow_trailing: false,
                    }),
                bracket_type: "round"@,
                parse_mode: ParseMode::Strict,
            }),
    }) }
}

/// The grammar of `SortedBySpecGrammar`.
pub fn sorted_by_spec_grammar() -> (r: Grammar)
    ensures
        grammar_view(r) == sorted_by_spec_grammar_view(),
{
    Grammar::sequence_of(
        GrammarList::new()
            .and(Grammar::keyword("SORTED"))
            .and(Grammar::keyword("BY"))
            .and(Grammar::bracketed_by(
                GrammarList::new()
                    .and(Grammar::delimited_by(
                        GrammarList::new()
                            .and(Grammar::sequence_of(
                                GrammarList::new()
                                    .and(Grammar::reference("ColumnReferenceSegment"))
                                    .and(Grammar::first_of(
                                        GrammarList::new()
                                            .and(Grammar::keyword("ASC"))
                                            .and(Grammar::keyword("DESC")),
                                    ).optional()),
                            )),
                        Grammar::reference("CommaSegment"),
                        0,
                        false,
                    )),
                "round",
                ParseMode::Strict,
            )),
    ).optional()
}

/// The grammar of `UnsetTablePropertiesGrammar`.
pub open spec fn unset_table_properties_grammar_view() -> GrammarView {
    GrammarView::Sequence {
        elements: Seq::empty()
            .push(GrammarView::Text { template: "UNSET"@, becomes: SyntaxKind::Keyword })
            .push(GrammarView::Text { template: "TBLPROPERTIES"@, becomes: SyntaxKind::Keyword })
            .push(
                GrammarView::Optional { inner: Box::new(
                    GrammarView::Ref { name: "IfExistsGrammar"@, exclude: None },
                ) },
            )
            .push(GrammarView::Ref { name: "BracketedPropertyNameListGrammar"@, exclude: None }),
    }
}

/// The grammar of `UnsetTablePropertiesGrammar`.
pub fn unset_table_properties_grammar() -> (r: Grammar)
    ensures
        grammar_view(r) == unset_table_properties_grammar_view(),
{
    Grammar::sequence_of(
        GrammarList::new()
            .and(Grammar::keyword("UNSET"))
            .and(Grammar::keyword("TBLPROPERTIES"))
            .and(Grammar::reference("IfExistsGrammar").optional())
            .and(Grammar::reference("BracketedPropertyNameListGrammar")),
    )
}

/// The grammar of `TablePropertiesGrammar`.
pub open spec fn table_properties_grammar_view() -> GrammarView {
    GrammarView::Sequence {
        elements: Seq::empty()
            .push(GrammarView::Text { template: "TBLPROPERTIES"@, becomes: SyntaxKind::Keyword })
            .push(GrammarView::Ref { name: "BracketedPropertyListGrammar"@, exclude: None }),
    }
}

/// The grammar of `TablePropertiesGrammar`.
pub fn table_properties_grammar() -> (r: Grammar)
    ensures
        grammar_view(r) == table_properties_grammar_view(),
{
    Grammar::sequence_of(
        GrammarList::new()
            .and(Grammar::keyword("TBLPROPERTIES"))
            .and(Grammar::reference("BracketedPropertyListGrammar")),
    )
}

/// The grammar of `BytesQuotedLiteralSegment`.
pub open spec fn bytes_quoted_literal_segment_view() -> GrammarView {
    GrammarView::OneOf {
        options: Seq::empty()
            .push(
                GrammarView::Token {
                    kind: SyntaxKind::BytesSingleQuote,
                    becomes: SyntaxKind::BytesQuotedLiteral,
                },
            )
            .push(
                GrammarView::Token {
                    kind: SyntaxKind::BytesDoubleQuote,
                    becomes: SyntaxKind::BytesQuotedLiteral,
                },
            ),
    }
}

/// The grammar of `BytesQuotedLiteralSegment`.
pub fn bytes_quoted_literal_segment() -> (r: Grammar)
    ensures
        grammar_view(r) == bytes_quoted_literal_segment_view(),
{
    Grammar::first_of(
        GrammarList::new()
            .and(Grammar::token(SyntaxKind::BytesSingleQuote, SyntaxKind::BytesQuotedLiteral))
            .and(Grammar::token(SyntaxKind::BytesDoubleQuote, SyntaxKind::BytesQuotedLiteral)),
    )
}

/// The grammar of `JoinTypeKeywords`.
pub open spec fn join_type_keywords_view() -> GrammarView {
    GrammarView::OneOf {
        options: Seq::empty()
            .push(GrammarView::Text { template: "CROSS"@, becomes: SyntaxKind::Keyword })
            .push(GrammarView::Text { template: "INNER"@, becomes: SyntaxKind::Keyword })
            .push(GrammarView::Sequence {
                elements: Seq::empty()
                    .push(GrammarView::OneOf {
                        options: Seq::empty()
                            .push(
                                GrammarView::Text {
                                    template: "FULL"@,
                                    becomes: SyntaxKind::Keyword,
                                },
                            )
                            .push(
                                GrammarView::Text {
                                    template: "LEFT"@,
                                    becomes: SyntaxKind::Keyword,
                                },
                            )
                            .push(
                                GrammarView::Text {
                                    template: "RIGHT"@,
                                    becomes: SyntaxKind::Keyword,
                                },
                            ),
                    })
                    .push(
                        GrammarView::Optional { inner: Box::new(
                            GrammarView::Text { template: "OUTER"@, becomes: SyntaxKind::Keyword },
                        ) },
                    ),
            })
            .push(GrammarView::Sequence {
                elements: Seq::empty()
                    .push(
                        GrammarView::Optional { inner: Box::new(
                            GrammarView::Text { template: "LEFT"@, becomes: SyntaxKind::Keyword },
                        ) },
                    )
                    .push(GrammarView::Text { template: "SEMI"@, becomes: SyntaxKind::Keyword }),
            })
            .push(GrammarView::Sequence {
                elements: Seq::empty()
                    .push(
                        GrammarView::Optional { inner: Box::new(
                            GrammarView::Text { template: "LEFT"@, becomes: SyntaxKind::Keyword },
                        ) },
                    )
                    .push(GrammarView::Text { template: "ANTI"@, becomes: SyntaxKind::Keyword }),
            }),
    }
}

/// The grammar of `JoinTypeKeywords`.
pub fn join_type_keywords() -> (r: Grammar)
    ensures
        grammar_view(r) == join_type_keywords_view(),
{
    Grammar::first_of(
        GrammarList::new()
            .and(Grammar::keyword("CROSS"))
            .and(Grammar::keyword("INNER"))
            .and(Grammar::sequence_of(
                GrammarList::new()
                    .and(Grammar::first_of(
                        GrammarList::new()
                            .and(Grammar::keyword("FULL"))
                            .and(Grammar::keyword("LEFT"))
                            .and(Grammar::keyword("RIGHT")),
                    ))
                    .and(Grammar::keyword("OUTER").optional()),
            ))
            .and(Grammar::sequence_of(
                GrammarList::new()
                    .and(Grammar::keyword("LEFT").optional())
                    .and(Grammar::keyword("SEMI")),
            ))
            .and(Grammar::sequence_of(
                GrammarList::new()
                    .and(Grammar::keyword("LEFT").optional())
                    .and(Grammar::keyword("ANTI")),
            )),
    )
}

/// The grammar of `AtSignLiteralSegment`.
pub open spec fn at_sign_literal_segment_view() -> GrammarView {
    GrammarView::Token { kind: SyntaxKind::AtSignLiteral, becomes: SyntaxKind::AtSignLiteral }
}

/// The grammar of `AtSignLiteralSegment`.
pub fn at_sign_literal_segment() -> (r: Grammar)
    ensures
        grammar_view(r) == at_sign_literal_segment_view(),
{
    Grammar::token(SyntaxKind::AtSignLiteral, SyntaxKind::AtSignLiteral)
}

/// The grammar of `SignedQuotedLiteralSegment`.
pub open spec fn signed_quoted_literal_segment_view() -> GrammarView {
    GrammarView::OneOf {
        options: Seq::empty()
            .push(
                GrammarView::Token {
                    kind: SyntaxKind::SingleQuote,
                    becomes: SyntaxKind::SignedQuotedLiteral,
                },
            )
            .push(
                GrammarView::Token {
                    kind: SyntaxKind::DoubleQuote,
                    becomes: SyntaxKind::SignedQuotedLiteral,
                },
            ),
    }
}

/// The grammar of `SignedQuotedLiteralSegment`.
pub fn signed_quoted_literal_segment() -> (r: Grammar)
    ensures
        grammar_view(r) == signed_quoted_literal_segment_view(),
{
    Grammar::first_of(
        GrammarList::new()
            .and(Grammar::token(SyntaxKind::SingleQuote, SyntaxKind::SignedQuotedLiteral))
            .and(Grammar::token(SyntaxKind::DoubleQuote, SyntaxKind::SignedQuotedLiteral)),
    )
}

/// The grammar of `OrRefreshGrammar`.
pub open spec fn or_refresh_grammar_view() -> GrammarView {
    GrammarView::Sequence {
        elements: Seq::empty()
            .push(GrammarView::Text { template: "OR"@, becomes: SyntaxKind::Keyword })
            .push(GrammarView::Text { template: "REFRESH"@, becomes: SyntaxKind::Keyword }),
    }
}

/// The grammar of `OrRefreshGrammar`.
pub fn or_refresh_grammar() -> (r: Grammar)
    ensures
        grammar_view(r) == or_refresh_grammar_view(),
{
    Grammar::sequence_of(
        GrammarList::new()
            .and(Grammar::keyword("OR"))
            .and(Grammar::keyword("REFRESH")),
    )
}

/// The grammar of `WidgetNameIdentifierSegment`.
pub open spec fn widget_name_identifier_segment_view() -> GrammarView {
    GrammarView::Regex { pattern: "[A-Z][A-Z0-9_]*"@, becomes: SyntaxKind::WidgetNameIdentifier }
}

/// The grammar of `WidgetNameIdentifierSegment`.
pub fn widget_name_identifier_segment() -> (r: Grammar)
    ensures
        grammar_view(r) == widget_name_identifier_segment_view(),
{
    Grammar::regex("[A-Z][A-Z0-9_]*", SyntaxKind::WidgetNameIdentifier)
}

/// The grammar of `WidgetDefaultGrammar`.
pub open spec fn widget_default_grammar_view() -> GrammarView {
    GrammarView::Sequence {
        elements: Seq::empty()
            .push(GrammarView::Text { template: "DEFAULT"@, becomes: SyntaxKind::Keyword })
            .push(GrammarView::Ref { name: "QuotedLiteralSegment"@, exclude: None }),
    }
}

/// The grammar of `WidgetDefaultGrammar`.
pub fn widget_default_grammar() -> (r: Grammar)
    ensures
        grammar_view(r) == widget_default_grammar_view(),
{
    Grammar::sequence_of(
        GrammarList::new()
            .and(Grammar::keyword("DEFAULT"))
            .and(Grammar::reference("QuotedLiteralSegment")),
    )
}

/// The grammar of `TableDefinitionSegment`.
pub open spec fn table_definition_segment_view() -> GrammarView {
    GrammarView::Sequence {
        elements: Seq::empty()
            .push(GrammarView::Optional { inner: Box::new(GrammarView::OneOf {
                options: Seq::empty()
                    .push(GrammarView::Ref { name: "OrReplaceGrammar"@, exclude: None })
                    .push(GrammarView::Ref { name: "OrRefreshGrammar"@, exclude: None }),
            }) })
            .push(
                GrammarView::Optional { inner: Box::new(
                    GrammarView::Ref { name: "TemporaryGrammar"@, exclude: None },
                ) },
            )
            .push(
                GrammarView::Optional { inner: Box::new(
                    GrammarView::Text { template: "EXTERNAL"@, becomes: SyntaxKind::Keyword },
                ) },
            )
            .push(
                GrammarView::Optional { inner: Box::new(
                    GrammarView::Text { template: "STREAMING"@, becomes: SyntaxKind::Keyword },
                ) },
            )
            .push(
                GrammarView::Optional { inner: Box::new(
                    GrammarView::Text { template: "LIVE"@, becomes: SyntaxKind::Keyword },
                ) },
            )
            .push(GrammarView::Text { template: "TABLE"@, becomes: SyntaxKind::Keyword })
            .push(
                GrammarView::Optional { inner: Box::new(
                    GrammarView::Ref { name: "IfNotExistsGrammar"@, exclude: None },
                ) },
            )
            .push(GrammarView::OneOf {
                options: Seq::empty()
                    .push(GrammarView::Ref { name: "FileReferenceSegment"@, exclude: None })
                    .push(GrammarView::Ref { name: "TableReferenceSegment"@, exclude: None }),
            })
            .push(GrammarView::Optional { inner: Box::new(GrammarView::OneOf {
                options: Seq::empty()
                    .push(GrammarView::Bracketed {
                        elements: Seq::empty()
                            .push(GrammarView::Delimited {
                                options: Seq::empty()
                                    .push(GrammarView::Sequence {
                                        elements: Seq::empty()
                                            .push(GrammarView::OneOf {
                                                options: Seq::empty()
                                                    .push(
                                                        GrammarView::Ref {
                                                            name: "ColumnDefinitionSegment"@,
                                                            exclude: None,
                                                        },
                                                    )
                                                    .push(
                                                        GrammarView::Ref {
                                                            name: "GeneratedColumnDefinitionSegment"@,
                                                            exclude: None,
                                                        },
                                                    ),
                                            })
                                            .push(
                                                GrammarView::Optional { inner: Box::new(
                                                    GrammarView::Ref {
                                                        name: "CommentGrammar"@,
                                                        exclude: None,
                                                    },
                                                ) },
                                            ),
                                    }),
                                delimiter: Box::new(
                                    GrammarView::Ref { name: "CommaSegment"@, exclude: None },
                                ),
                                min_delimiters: 0,
                                allow_trailing: false,
                            }),
                        bracket_type: "round"@,
                        parse_mode: ParseMode::Strict,
                    })
                    .push(GrammarView::Sequence {
                        elements: Seq::empty()
                            .push(
                                GrammarView::Text {
                                    template: "LIKE"@,
                                    becomes: SyntaxKind::Keyword,
                                },
                            )
                            .push(GrammarView::OneOf {
                                options: Seq::empty()
                                    .push(
                                        GrammarView::Ref {
                                            name: "FileReferenceSegment"@,
                                            exclude: None,
                                        },
                                    )
                                    .push(
                                        GrammarView::Ref {
                                            name: "TableReferenceSegment"@,
                                            exclude: None,
                                        },
                                    ),
                            }),
                    }),
            }) })
            .push(
                GrammarView::Optional { inner: Box::new(
                    GrammarView::Ref { name: "UsingClauseSegment"@, exclude: None },
                ) },
            )
            .push(GrammarView::Optional { inner: Box::new(GrammarView::AnyNumberOf {
                options: Seq::empty()
                    .push(GrammarView::Ref { name: "RowFormatClauseSegment"@, exclude: None })
                    .push(GrammarView::Ref { name: "StoredAsGrammar"@, exclude: None })
                    .push(GrammarView::Ref { name: "CommentGrammar"@, exclude: None })
                    .push(GrammarView::Ref { name: "OptionsGrammar"@, exclude: None })
                    .push(GrammarView::Ref { name: "PartitionSpecGrammar"@, exclude: None })
                    .push(GrammarView::Ref { name: "BucketSpecGrammar"@, exclude: None }),
                min_times: 0,
                max_times: None,
                max_times_per_element: Some(1),
            }) })
            .push(GrammarView::Meta { kind: SyntaxKind::Indent })
            .push(GrammarView::AnyNumberOf {
                options: Seq::empty()
                    .push(
                        GrammarView::Optional { inner: Box::new(
                            GrammarView::Ref { name: "LocationGrammar"@, exclude: None },
                        ) },
                    )
                    .push(
                        GrammarView::Optional { inner: Box::new(
                            GrammarView::Ref { name: "CommentGrammar"@, exclude: None },
                        ) },
                    )
                    .push(
                        GrammarView::Optional { inner: Box::new(
                            GrammarView::Ref { name: "TablePropertiesGrammar"@, exclude: None },
                        ) },
                    ),
                min_times: 0,
                max_times: None,
                max_times_per_element: None,
            })
            .push(GrammarView::Meta { kind: SyntaxKind::Dedent })
            .push(GrammarView::Optional { inner: Box::new(GrammarView::Sequence {
                elements: Seq::empty()
                    .push(
                        GrammarView::Optional { inner: Box::new(
                            GrammarView::Text { template: "AS"@, becomes: SyntaxKind::Keyword },
                        ) },
                    )
                    .push(GrammarView::OneOf {
                        options: Seq::empty()
                            .push(GrammarView::Bracketed {
                                elements: Seq::empty()
                                    .push(
                                        GrammarView::Ref {
                                            name: "SelectableGrammar"@,
                                            exclude: None,
                                        },
                                    ),
                                bracket_type: "round"@,
                                parse_mode: ParseMode::Strict,
                            })
                            .push(GrammarView::Ref { name: "SelectableGrammar"@, exclude: None }),
                    }),
            }) }),
    }
}

/// The grammar of `TableDefinitionSegment`.
pub fn table_definition_segment() -> (r: Grammar)
    ensures
        grammar_view(r) == table_definition_segment_view(),
{
    Grammar::sequence_of(
        GrammarList::new()
            .and(Grammar::first_of(
                GrammarList::new()
                    .and(Grammar::reference("OrReplaceGrammar"))
                    .and(Grammar::reference("OrRefreshGrammar")),
            ).optional())
            .and(Grammar::reference("TemporaryGrammar").optional())
            .and(Grammar::keyword("EXTERNAL").optional())
            .and(Grammar::keyword("STREAMING").optional())
            .and(Grammar::keyword("LIVE").optional())
            .and(Grammar::keyword("TABLE"))
            .and(Grammar::reference("IfNotExistsGrammar").optional())
            .and(Grammar::first_of(
                GrammarList::new()
                    .and(Grammar::reference("FileReferenceSegment"))
                    .and(Grammar::reference("TableReferenceSegment")),
            ))
            .and(Grammar::first_of(
                GrammarList::new()
                    .and(Grammar::bracketed_by(
                        GrammarList::new()
                            .and(Grammar::delimited_by(
                                GrammarList::new()
                                    .and(Grammar::sequence_of(
                                        GrammarList::new()
                                            .and(Grammar::first_of(
                                                GrammarList::new()
                                                    .and(
                                                        Grammar::reference(
                                                            "ColumnDefinitionSegment",
                                                        ),
                                                    )
                                                    .and(
                                                        Grammar::reference(
                                                            "GeneratedColumnDefinitionSegment",
                                                        ),
                                                    ),
                                            ))
                                            .and(Grammar::reference("CommentGrammar").optional()),
                                    )),
                                Grammar::reference("CommaSegment"),
                                0,
                                false,
                            )),
                        "round",
                        ParseMode::Strict,
                    ))
                    .and(Grammar::sequence_of(
                        GrammarList::new()
                            .and(Grammar::keyword("LIKE"))
                            .and(Grammar::first_of(
                                GrammarList::new()
                                    .and(Grammar::reference("FileReferenceSegment"))
                                    .and(Grammar::reference("TableReferenceSegment")),
                            )),
                    )),
            ).optional())
            .and(Grammar::reference("UsingClauseSegment").optional())
            .and(Grammar::repeated(
                GrammarList::new()
                    .and(Grammar::reference("RowFormatClauseSegment"))
                    .and(Grammar::reference("StoredAsGrammar"))
                    .and(Grammar::reference("CommentGrammar"))
                    .and(Grammar::reference("OptionsGrammar"))
                    .and(Grammar::reference("PartitionSpecGrammar"))
                    .and(Grammar::reference("BucketSpecGrammar")),
                0,
                None,
                Some(1),
            ).optional())
            .and(Grammar::meta(SyntaxKind::Indent))
            .and(Grammar::repeated(
                GrammarList::new()
                    .and(Grammar::reference("LocationGrammar").optional())
                    .and(Grammar::reference("CommentGrammar").optional())
                    .and(Grammar::reference("TablePropertiesGrammar").optional()),
                0,
                None,
                None,
            ))
            .and(Grammar::meta(SyntaxKind::Dedent))
            .and(Grammar::sequence_of(
                GrammarList::new()
                    .and(Grammar::keyword("AS").optional())
                    .and(Grammar::first_of(
                        GrammarList::new()
                            .and(Grammar::bracketed_by(
                                GrammarList::new()
                                    .and(Grammar::reference("SelectableGrammar")),
                                "round",
                                ParseMode::Strict,
                            ))
                            .and(Grammar::reference("SelectableGrammar")),
                    )),
            ).optional()),
    )
}

/// Binds `FileLiteralSegment`, `BackQuotedIdentifierSegment`,
/// `NakedSemiStructuredElementSegment`,
/// `QuotedSemiStructuredElementSegment`, `RightArrowOperator`,
/// `BinaryfileKeywordSegment`, `JsonfileKeywordSegment`,
/// `RcfileKeywordSegment`, `SequencefileKeywordSegment`,
/// `TextfileKeywordSegment`, `StartAngleBracketSegment`,
/// `EndAngleBracketSegment`, `EqualsSegment_a`, `EqualsSegment_b`,
/// `FileKeywordSegment`, `JarKeywordSegment`, `NoscanKeywordSegment`,
/// `WhlKeywordSegment`, `CommentGrammar`, `LocationGrammar`,
/// `SerdePropertiesGrammar`, `StoredAsGrammar`, `StoredByGrammar`,
/// `StorageFormatGrammar`, `TerminatedByGrammar`, `PropertyGrammar`,
/// `PropertyNameListGrammar`, `BracketedPropertyNameListGrammar`,
/// `PropertyListGrammar`, `BracketedPropertyListGrammar`, `OptionsGrammar`,
/// `BucketSpecGrammar`, `ClusteredBySpecGrammar`,
/// `DatabasePropertiesGrammar`, `DataSourcesV2FileTypeGrammar`,
/// `FileFormatGrammar`, `TimestampAsOfGrammar`, `VersionAsOfGrammar`,
/// `StartHintSegment`, `EndHintSegment`, `PartitionSpecGrammar`,
/// `PartitionFieldGrammar`, `PropertiesNakedIdentifierSegment`,
/// `ResourceFileGrammar`, `ResourceLocationGrammar`, `SortedBySpecGrammar`,
/// `UnsetTablePropertiesGrammar`, `TablePropertiesGrammar`,
/// `BytesQuotedLiteralSegment`, `JoinTypeKeywords`, `AtSignLiteralSegment`,
/// `SignedQuotedLiteralSegment`, `OrRefreshGrammar`,
/// `WidgetNameIdentifierSegment`, `WidgetDefaultGrammar`,
/// `TableDefinitionSegment`.
pub open spec fn define_file_literal_segment_etc_view(
    dialect: DialectView,
    hive: DialectView,
) -> Result<DialectView, DialectError> {
    let dialect = with_rule(dialect, "FileLiteralSegment"@, file_literal_segment_view());
    let dialect = with_rule(
        dialect,
        "BackQuotedIdentifierSegment"@,
        back_quoted_identifier_segment_view(),
    );
    let dialect = with_rule(
        dialect,
        "NakedSemiStructuredElementSegment"@,
        naked_semi_structured_element_segment_view(),
    );
    let dialect = with_rule(
        dialect,
        "QuotedSemiStructuredElementSegment"@,
        quoted_semi_structured_element_segment_view(),
    );
    let dialect = with_rule(dialect, "RightArrowOperator"@, right_arrow_operator_view());
    let dialect = with_rule(
        dialect,
        "BinaryfileKeywordSegment"@,
        binaryfile_keyword_segment_view(),
    );
    let dialect = with_rule(dialect, "JsonfileKeywordSegment"@, jsonfile_keyword_segment_view());
    let dialect = with_rule(dialect, "RcfileKeywordSegment"@, rcfile_keyword_segment_view());
    let dialect = with_rule(
        dialect,
        "SequencefileKeywordSegment"@,
        sequencefile_keyword_segment_view(),
    );
    let dialect = with_rule(dialect, "TextfileKeywordSegment"@, textfile_keyword_segment_view());
    let dialect = with_rule(
        dialect,
        "StartAngleBracketSegment"@,
        start_angle_bracket_segment_view(),
    );
    let dialect = with_rule(dialect, "EndAngleBracketSegment"@, end_angle_bracket_segment_view());
    let dialect = with_rule(dialect, "EqualsSegment_a"@, equals_segment_a_view());
    let dialect = with_rule(dialect, "EqualsSegment_b"@, equals_segment_b_view());
    let dialect = with_rule(dialect, "FileKeywordSegment"@, file_keyword_segment_view());
    let dialect = with_rule(dialect, "JarKeywordSegment"@, jar_keyword_segment_view());
    let dialect = with_rule(dialect, "NoscanKeywordSegment"@, noscan_keyword_segment_view());
    let dialect = with_rule(dialect, "WhlKeywordSegment"@, whl_keyword_segment_view());
    match known(lookup_rule(hive.library, "CommentGrammar"@)) {
        Err(e) => Err(e),
        Ok(base) => {
            let dialect = with_rule(dialect, "CommentGrammar"@, base);
            match known(lookup_rule(hive.library, "LocationGrammar"@)) {
                Err(e) => Err(e),
                Ok(base) => {
                    let dialect = with_rule(dialect, "LocationGrammar"@, base);
                    match known(lookup_rule(hive.library, "SerdePropertiesGrammar"@)) {
                        Err(e) => Err(e),
                        Ok(base) => {
                            let dialect = with_rule(dialect, "SerdePropertiesGrammar"@, base);
                            match known(lookup_rule(hive.library, "StoredAsGrammar"@)) {
                                Err(e) => Err(e),
                                Ok(base) => {
                                    let dialect = with_rule(dialect, "StoredAsGrammar"@, base);
                                    match known(lookup_rule(hive.library, "StoredByGrammar"@)) {
                                        Err(e) => Err(e),
                                        Ok(base) => {
                                            let dialect = with_rule(
                                                dialect,
                                                "StoredByGrammar"@,
                                                base,
                                            );
                                            match known(
                                                lookup_rule(hive.library, "StorageFormatGrammar"@),
                                            ) {
                                                Err(e) => Err(e),
                                                Ok(base) => {
                                                    let dialect = with_rule(
                                                        dialect,
                                                        "StorageFormatGrammar"@,
                                                        base,
                                                    );
                                                    match known(
                                                        lookup_rule(
                                                            hive.library,
                                                            "TerminatedByGrammar"@,
                                                        ),
                                                    ) {
                                                        Err(e) => Err(e),
                                                        Ok(base) => {
                                                            let dialect = with_rule(
                                                                dialect,
                                                                "TerminatedByGrammar"@,
                                                                base,
                                                            );
                                                            let dialect = with_rule(
                                                                dialect,
                                                                "PropertyGrammar"@,
                                                                property_grammar_view(),
                                                            );
                                                            let dialect = with_rule(
                                                                dialect,
                                                                "PropertyNameListGrammar"@,
                                                                property_name_list_grammar_view(),
                                                            );
                                                            let dialect = with_rule(
                                                                dialect,
                                                                "BracketedPropertyNameListGrammar"@,
                                                                bracketed_property_name_list_grammar_view(),
                                                            );
                                                            let dialect = with_rule(
                                                                dialect,
                                                                "PropertyListGrammar"@,
                                                                property_list_grammar_view(),
                                                            );
                                                            let dialect = with_rule(
                                                                dialect,
                                                                "BracketedPropertyListGrammar"@,
                                                                bracketed_property_list_grammar_view(),
                                                            );
                                                            let dialect = with_rule(
                                                                dialect,
                                                                "OptionsGrammar"@,
                                                                options_grammar_view(),
                                                            );
                                                            let dialect = with_rule(
                                                                dialect,
                                                                "BucketSpecGrammar"@,
                                                                bucket_spec_grammar_view(),
                                                            );
                                                            let dialect = with_rule(
                                                                dialect,
                                                                "ClusteredBySpecGrammar"@,
                                                                clustered_by_spec_grammar_view(),
                                                            );
                                                            let dialect = with_rule(
                                                                dialect,
                                                                "DatabasePropertiesGrammar"@,
                                                                database_properties_grammar_view(),
                                                            );
                                                            let dialect = with_rule(
                                                                dialect,
                                                                "DataSourcesV2FileTypeGrammar"@,
                                                                data_sources_v2_file_type_grammar_view(),
                                                            );
                                                            let dialect = with_rule(
                                                                dialect,
                                                                "FileFormatGrammar"@,
                                                                file_format_grammar_view(),
                                                            );
                                                            let dialect = with_rule(
                                                                dialect,
                                                                "TimestampAsOfGrammar"@,
                                                                timestamp_as_of_grammar_view(),
                                                            );
                                                            let dialect = with_rule(
                                                                dialect,
                                                                "VersionAsOfGrammar"@,
                                                                version_as_of_grammar_view(),
                                                            );
                                                            let dialect = with_rule(
                                                                dialect,
                                                                "StartHintSegment"@,
                                                                start_hint_segment_view(),
                                                            );
                                                            let dialect = with_rule(
                                                                dialect,
                                                                "EndHintSegment"@,
                                                                end_hint_segment_view(),
                                                            );
                                                            let dialect = with_rule(
                                                                dialect,
                                                                "PartitionSpecGrammar"@,
                                                                partition_spec_grammar_view(),
                                                            );
                                                            let dialect = with_rule(
                                                                dialect,
                                                                "PartitionFieldGrammar"@,
                                                                partition_field_grammar_view(),
                                                            );
                                                            let dialect = with_rule(
                                                                dialect,
                                                                "PropertiesNakedIdentifierSegment"@,
                                                                properties_naked_identifier_segment_view(),
                                                            );
                                                            let dialect = with_rule(
                                                                dialect,
                                                                "ResourceFileGrammar"@,
                                                                resource_file_grammar_view(),
                                                            );
                                                            let dialect = with_rule(
                                                                dialect,
                                                                "ResourceLocationGrammar"@,
                                                                resource_location_grammar_view(),
                                                            );
                                                            let dialect = with_rule(
                                                                dialect,
                                                                "SortedBySpecGrammar"@,
                                                                sorted_by_spec_grammar_view(),
                                                            );
                                                            let dialect = with_rule(
                                                                dialect,
                                                                "UnsetTablePropertiesGrammar"@,
                                                                unset_table_properties_grammar_view(),
                                                            );
                                                            let dialect = with_rule(
                                                                dialect,
                                                                "TablePropertiesGrammar"@,
                                                                table_properties_grammar_view(),
                                                            );
                                                            let dialect = with_rule(
                                                                dialect,
                                                                "BytesQuotedLiteralSegment"@,
                                                                bytes_quoted_literal_segment_view(),
                                                            );
                                                            let dialect = with_rule(
                                                                dialect,
                                                                "JoinTypeKeywords"@,
                                                                join_type_keywords_view(),
                                                            );
                                                            let dialect = with_rule(
                                                                dialect,
                                                                "AtSignLiteralSegment"@,
                                                                at_sign_literal_segment_view(),
                                                            );
                                                            let dialect = with_rule(
                                                                dialect,
                                                                "SignedQuotedLiteralSegment"@,
                                                                signed_quoted_literal_segment_view(),
                                                            );
                                                            let dialect = with_rule(
                                                                dialect,
                                                                "OrRefreshGrammar"@,
                                                                or_refresh_grammar_view(),
                                                            );
                                                            let dialect = with_rule(
                                                                dialect,
                                                                "WidgetNameIdentifierSegment"@,
                                                                widget_name_identifier_segment_view(),
                                                            );
                                                            let dialect = with_rule(
                                                                dialect,
                                                                "WidgetDefaultGrammar"@,
                                                                widget_default_grammar_view(),
                                                            );
                                                            let dialect = with_rule(
                                                                dialect,
                                                                "TableDefinitionSegment"@,
                                                                table_definition_segment_view(),
                                                            );
                                                            Ok(dialect)
                                                        },
                                                    }
                                                },
                                            }
                                        },
                                    }
                                },
                            }
                        },
                    }
                },
            }
        },
    }
}

/// Binds `FileLiteralSegment`, `BackQuotedIdentifierSegment`,
/// `NakedSemiStructuredElementSegment`,
/// `QuotedSemiStructuredElementSegment`, `RightArrowOperator`,
/// `BinaryfileKeywordSegment`, `JsonfileKeywordSegment`,
/// `RcfileKeywordSegment`, `SequencefileKeywordSegment`,
/// `TextfileKeywordSegment`, `StartAngleBracketSegment`,
/// `EndAngleBracketSegment`, `EqualsSegment_a`, `EqualsSegment_b`,
/// `FileKeywordSegment`, `JarKeywordSegment`, `NoscanKeywordSegment`,
/// `WhlKeywordSegment`, `CommentGrammar`, `LocationGrammar`,
/// `SerdePropertiesGrammar`, `StoredAsGrammar`, `StoredByGrammar`,
/// `StorageFormatGrammar`, `TerminatedByGrammar`, `PropertyGrammar`,
/// `PropertyNameListGrammar`, `BracketedPropertyNameListGrammar`,
/// `PropertyListGrammar`, `BracketedPropertyListGrammar`, `OptionsGrammar`,
/// `BucketSpecGrammar`, `ClusteredBySpecGrammar`,
/// `DatabasePropertiesGrammar`, `DataSourcesV2FileTypeGrammar`,
/// `FileFormatGrammar`, `TimestampAsOfGrammar`, `VersionAsOfGrammar`,
/// `StartHintSegment`, `EndHintSegment`, `PartitionSpecGrammar`,
/// `PartitionFieldGrammar`, `PropertiesNakedIdentifierSegment`,
/// `ResourceFileGrammar`, `ResourceLocationGrammar`, `SortedBySpecGrammar`,
/// `UnsetTablePropertiesGrammar`, `TablePropertiesGrammar`,
/// `BytesQuotedLiteralSegment`, `JoinTypeKeywords`, `AtSignLiteralSegment`,
/// `SignedQuotedLiteralSegment`, `OrRefreshGrammar`,
/// `WidgetNameIdentifierSegment`, `WidgetDefaultGrammar`,
/// `TableDefinitionSegment`.
pub fn define_file_literal_segment_etc(
    dialect: Dialect,
    hive: &Dialect,
) -> (r: Result<Dialect, DialectError>)
    ensures
        outcome_view(r) == define_file_literal_segment_etc_view(
            dialect.deep_view(),
            hive.deep_view(),
        ),
{
    let mut dialect = dialect;
    dialect.define("FileLiteralSegment", file_literal_segment());
    dialect.define("BackQuotedIdentifierSegment", back_quoted_identifier_segment());
    dialect.define("NakedSemiStructuredElementSegment", naked_semi_structured_element_segment());
    dialect.define("QuotedSemiStructuredElementSegment", quoted_semi_structured_element_segment());
    dialect.define("RightArrowOperator", right_arrow_operator());
    dialect.define("BinaryfileKeywordSegment", binaryfile_keyword_segment());
    dialect.define("JsonfileKeywordSegment", jsonfile_keyword_segment());
    dialect.define("RcfileKeywordSegment", rcfile_keyword_segment());
    dialect.define("SequencefileKeywordSegment", sequencefile_keyword_segment());
    dialect.define("TextfileKeywordSegment", textfile_keyword_segment());
    dialect.define("StartAngleBracketSegment", start_angle_bracket_segment());
    dialect.define("EndAngleBracketSegment", end_angle_bracket_segment());
    dialect.define("EqualsSegment_a", equals_segment_a());
    dialect.define("EqualsSegment_b", equals_segment_b());
    dialect.define("FileKeywordSegment", file_keyword_segment());
    dialect.define("JarKeywordSegment", jar_keyword_segment());
    dialect.define("NoscanKeywordSegment", noscan_keyword_segment());
    dialect.define("WhlKeywordSegment", whl_keyword_segment());
    let base = match hive.rule_grammar("CommentGrammar") {
        Some(base) => base,
        None => {
            return Err(DialectError::UnknownRule);
        },
    };
    dialect.define("CommentGrammar", base);
    let base = match hive.rule_grammar("LocationGrammar") {
        Some(base) => base,
        None => {
            return Err(DialectError::UnknownRule);
        },
    };
    dialect.define("LocationGrammar", base);
    let base = match hive.rule_grammar("SerdePropertiesGrammar") {
        Some(base) => base,
        None => {
            return Err(DialectError::UnknownRule);
        },
    };
    dialect.define("SerdePropertiesGrammar", base);
    let base = match hive.rule_grammar("StoredAsGrammar") {
        Some(base) => base,
        None => {
            return Err(DialectError::UnknownRule);
        },
    };
    dialect.define("StoredAsGrammar", base);
    let base = match hive.rule_grammar("StoredByGrammar") {
        Some(base) => base,
        None => {
            return Err(DialectError::UnknownRule);
        },
    };
    dialect.define("StoredByGrammar", base);
    let base = match hive.rule_grammar("StorageFormatGrammar") {
        Some(base) => base,
        None => {
            return Err(DialectError::UnknownRule);
        },
    };
    dialect.define("StorageFormatGrammar", base);
    let base = match hive.rule_grammar("TerminatedByGrammar") {
        Some(base) => base,
        None => {
            return Err(DialectError::UnknownRule);
        },
    };
    dialect.define("TerminatedByGrammar", base);
    dialect.define("PropertyGrammar", property_grammar());
    dialect.define("PropertyNameListGrammar", property_name_list_grammar());
    dialect.define("BracketedPropertyNameListGrammar", bracketed_property_name_list_grammar());
    dialect.define("PropertyListGrammar", property_list_grammar());
    dialect.define("BracketedPropertyListGrammar", bracketed_property_list_grammar());
    dialect.define("OptionsGrammar", options_grammar());
    dialect.define("BucketSpecGrammar", bucket_spec_grammar());
    dialect.define("ClusteredBySpecGrammar", clustered_by_spec_grammar());
    dialect.define("DatabasePropertiesGrammar", database_properties_grammar());
    dialect.define("DataSourcesV2FileTypeGrammar", data_sources_v2_file_type_grammar());
    dialect.define("FileFormatGrammar", file_format_grammar());
    dialect.define("TimestampAsOfGrammar", timestamp_as_of_grammar());
    dialect.define("VersionAsOfGrammar", version_as_of_grammar());
    dialect.define("StartHintSegment", start_hint_segment());
    dialect.define("EndHintSegment", end_hint_segment());
    dialect.define("PartitionSpecGrammar", partition_spec_grammar());
    dialect.define("PartitionFieldGrammar", partition_field_grammar());
    dialect.define("PropertiesNakedIdentifierSegment", properties_naked_identifier_segment());
    dialect.define("ResourceFileGrammar", resource_file_grammar());
    dialect.define("ResourceLocationGrammar", resource_location_grammar());
    dialect.define("SortedBySpecGrammar", sorted_by_spec_grammar());
    dialect.define("UnsetTablePropertiesGrammar", unset_table_properties_grammar());
    dialect.define("TablePropertiesGrammar", table_properties_grammar());
    dialect.define("BytesQuotedLiteralSegment", bytes_quoted_literal_segment());
    dialect.define("JoinTypeKeywords", join_type_keywords());
    dialect.define("AtSignLiteralSegment", at_sign_literal_segment());
    dialect.define("SignedQuotedLiteralSegment", signed_quoted_literal_segment());
    dialect.define("OrRefreshGrammar", or_refresh_grammar());
    dialect.define("WidgetNameIdentifierSegment", widget_name_identifier_segment());
    dialect.define("WidgetDefaultGrammar", widget_default_grammar());
    dialect.define("TableDefinitionSegment", table_definition_segment());
    Ok(dialect)
}

/// Lexer matchers that are tried before the one named `block_comment`.
pub open spec fn matchers_before_block_comment_view() -> Option<Seq<MatcherView>> {
    let list = Some(Seq::<MatcherView>::empty());
    let list = and_regex(list, "start_hint"@, "\\/\\*\\+"@, SyntaxKind::BlockComment);
    list
}

/// Lexer matchers that are tried before the one named `block_comment`.
pub fn matchers_before_block_comment() -> (r: MatcherList)
    ensures
        r@ == matchers_before_block_comment_view(),
{
    MatcherList::new()
        .regex("start_hint", "\\/\\*\\+", SyntaxKind::BlockComment)
}

/// Lexer matchers that are tried before the one named `single_quote`.
pub open spec fn matchers_before_single_quote_3_view() -> Option<Seq<MatcherView>> {
    let list = Some(Seq::<MatcherView>::empty());
    let list = and_regex(list, "end_hint"@, "\\*\\/"@, SyntaxKind::EndHint);
    list
}

/// Lexer matchers that are tried before the one named `single_quote`.
pub fn matchers_before_single_quote_3() -> (r: MatcherList)
    ensures
        r@ == matchers_before_single_quote_3_view(),
{
    MatcherList::new()
        .regex("end_hint", "\\*\\/", SyntaxKind::EndHint)
}

/// Lexer matchers that are tried before the one named `like_operator`.
pub open spec fn matchers_before_like_operator_view() -> Option<Seq<MatcherView>> {
    let list = Some(Seq::<MatcherView>::empty());
    let list = and_string(list, "end_hint"@, "->"@, SyntaxKind::RightArrow);
    list
}

/// Lexer matchers that are tried before the one named `like_operator`.
pub fn matchers_before_like_operator() -> (r: MatcherList)
    ensures
        r@ == matchers_before_like_operator_view(),
{
    MatcherList::new()
        .string("end_hint", "->", SyntaxKind::RightArrow)
}

/// The grammar of `SQLConfPropertiesSegment`.
pub open spec fn sql_conf_properties_segment_view() -> GrammarView {
    GrammarView::Node {
        kind: SyntaxKind::SqlConfOption,
        inner: Box::new(GrammarView::Sequence {
            elements: Seq::empty()
                .push(GrammarView::Text { template: "-"@, becomes: SyntaxKind::Dash })
                .push(GrammarView::Text { template: "v"@, becomes: SyntaxKind::SqlConfOption }),
        }),
    }
}

/// The grammar of `SQLConfPropertiesSegment`.
pub fn sql_conf_properties_segment() -> (r: Grammar)
    ensures
        grammar_view(r) == sql_conf_properties_segment_view(),
{
    Grammar::sequence_of(
        GrammarList::new()
            .and(Grammar::text("-", SyntaxKind::Dash))
            .and(Grammar::text("v", SyntaxKind::SqlConfOption)),
    ).node(SyntaxKind::SqlConfOption)
}

/// The grammar of `DivBinaryOperatorSegment`.
pub open spec fn div_binary_operator_segment_view() -> GrammarView {
    GrammarView::Node {
        kind: SyntaxKind::BinaryOperator,
        inner: Box::new(GrammarView::Text { template: "DIV"@, becomes: SyntaxKind::Keyword }),
    }
}

/// The grammar of `DivBinaryOperatorSegment`.
pub fn div_binary_operator_segment() -> (r: Grammar)
    ensures
        grammar_view(r) == div_binary_operator_segment_view(),
{
    Grammar::keyword("DIV").node(SyntaxKind::BinaryOperator)
}

/// The grammar of `QualifyClauseSegment`.
pub open spec fn qualify_clause_segment_view() -> GrammarView {
    GrammarView::Node {
        kind: SyntaxKind::QualifyClause,
        inner: Box::new(GrammarView::Sequence {
            elements: Seq::empty()
                .push(GrammarView::Text { template: "QUALIFY"@, becomes: SyntaxKind::Keyword })
                .push(GrammarView::Meta { kind: SyntaxKind::Indent })
                .push(GrammarView::OneOf {
                    options: Seq::empty()
                        .push(GrammarView::Bracketed {
                            elements: Seq::empty()
                                .push(
                                    GrammarView::Ref { name: "ExpressionSegment"@, exclude: None },
                                ),
                            bracket_type: "round"@,
                            parse_mode: ParseMode::Strict,
                        })
                        .push(GrammarView::Ref { name: "ExpressionSegment"@, exclude: None }),
                })
                .push(GrammarView::Meta { kind: SyntaxKind::Dedent }),
        }),
    }
}

/// The grammar of `QualifyClauseSegment`.
pub fn qualify_clause_segment() -> (r: Grammar)
    ensures
        grammar_view(r) == qualify_clause_segment_view(),
{
    Grammar::sequence_of(
        GrammarList::new()
            .and(Grammar::keyword("QUALIFY"))
            .and(Grammar::meta(SyntaxKind::Indent))
            .and(Grammar::first_of(
                GrammarList::new()
                    .and(Grammar::bracketed_by(
                        GrammarList::new()
                            .and(Grammar::reference("ExpressionSegment")),
                        "round",
                        ParseMode::Strict,
                    ))
                    .and(Grammar::reference("ExpressionSegment")),
            ))
            .and(Grammar::meta(SyntaxKind::Dedent)),
    ).node(SyntaxKind::QualifyClause)
}

/// Binds `SQLConfPropertiesSegment`, `DivBinaryOperatorSegment`,
/// `QualifyClauseSegment`.
pub open spec fn define_sql_conf_properties_segment_etc_view(dialect: DialectView) -> DialectView {
    let dialect = with_rule(
        dialect,
        "SQLConfPropertiesSegment"@,
        sql_conf_properties_segment_view(),
    );
    let dialect = with_rule(
        dialect,
        "DivBinaryOperatorSegment"@,
        div_binary_operator_segment_view(),
    );
    let dialect = with_rule(dialect, "QualifyClauseSegment"@, qualify_clause_segment_view());
    dialect
}

/// Binds `SQLConfPropertiesSegment`, `DivBinaryOperatorSegment`,
/// `QualifyClauseSegment`.
pub fn define_sql_conf_properties_segment_etc(dialect: Dialect) -> (r: Dialect)
    ensures
        r.deep_view() == define_sql_conf_properties_segment_etc_view(dialect.deep_view()),
{
    let mut dialect = dialect;
    dialect.define("SQLConfPropertiesSegment", sql_conf_properties_segment());
    dialect.define("DivBinaryOperatorSegment", div_binary_operator_segment());
    dialect.define("QualifyClauseSegment", qualify_clause_segment());
    dialect
}

/// The grammar of `PrimitiveTypeSegment`.
pub open spec fn primitive_type_segment_view() -> GrammarView {
    GrammarView::Node {
        kind: SyntaxKind::PrimitiveType,
        inner: Box::new(GrammarView::OneOf {
            options: Seq::empty()
                .push(GrammarView::Text { template: "BOOLEAN"@, becomes: SyntaxKind::Keyword })
                .push(GrammarView::Text { template: "TINYINT"@, becomes: SyntaxKind::Keyword })
                .push(GrammarView::Text { template: "LONG"@, becomes: SyntaxKind::Keyword })
                .push(GrammarView::Text { template: "SMALLINT"@, becomes: SyntaxKind::Keyword })
                .push(GrammarView::Text { template: "INT"@, becomes: SyntaxKind::Keyword })
                .push(GrammarView::Text { template: "INTEGER"@, becomes: SyntaxKind::Keyword })
                .push(GrammarView::Text { template: "BIGINT"@, becomes: SyntaxKind::Keyword })
                .push(GrammarView::Text { template: "FLOAT"@, becomes: SyntaxKind::Keyword })
                .push(GrammarView::Text { template: "REAL"@, becomes: SyntaxKind::Keyword })
                .push(GrammarView::Text { template: "DOUBLE"@, becomes: SyntaxKind::Keyword })
                .push(GrammarView::Text { template: "DATE"@, becomes: SyntaxKind::Keyword })
                .push(GrammarView::Text { template: "TIMESTAMP"@, becomes: SyntaxKind::Keyword })
                .push(GrammarView::Text { template: "STRING"@, becomes: SyntaxKind::Keyword })
                .push(GrammarView::Sequence {
                    elements: Seq::empty()
                        .push(GrammarView::OneOf {
                            options: Seq::empty()
                                .push(
                                    GrammarView::Text {
                                        template: "CHAR"@,
                                        becomes: SyntaxKind::Keyword,
                                    },
                                )
                                .push(
                                    GrammarView::Text {
                                        template: "CHARACTER"@,
                                        becomes: SyntaxKind::Keyword,
                                    },
                                )
                                .push(
                                    GrammarView::Text {
                                        template: "VARCHAR"@,
                                        becomes: SyntaxKind::Keyword,
                                    },
                                )
                                .push(
                                    GrammarView::Text {
                                        template: "DECIMAL"@,
                                        becomes: SyntaxKind::Keyword,
                                    },
                                )
                                .push(
                                    GrammarView::Text {
                                        template: "DEC"@,
                                        becomes: SyntaxKind::Keyword,
                                    },
                                )
                                .push(
                                    GrammarView::Text {
                                        template: "NUMERIC"@,
                                        becomes: SyntaxKind::Keyword,
                                    },
                                ),
                        })
                        .push(
                            GrammarView::Optional { inner: Box::new(
                                GrammarView::Ref { name: "BracketedArguments"@, exclude: None },
                            ) },
                        ),
                })
                .push(GrammarView::Text { template: "BINARY"@, becomes: SyntaxKind::Keyword })
                .push(GrammarView::Text { template: "INTERVAL"@, becomes: SyntaxKind::Keyword }),
        }),
    }
}

/// The grammar of `PrimitiveTypeSegment`.
pub fn primitive_type_segment() -> (r: Grammar)
    ensures
        grammar_view(r) == primitive_type_segment_view(),
{
    Grammar::first_of(
        GrammarList::new()
            .and(Grammar::keyword("BOOLEAN"))
            .and(Grammar::keyword("TINYINT"))
            .and(Grammar::keyword("LONG"))
            .and(Grammar::keyword("SMALLINT"))
            .and(Grammar::keyword("INT"))
            .and(Grammar::keyword("INTEGER"))
            .and(Grammar::keyword("BIGINT"))
            .and(Grammar::keyword("FLOAT"))
            .and(Grammar::keyword("REAL"))
            .and(Grammar::keyword("DOUBLE"))
            .and(Grammar::keyword("DATE"))
            .and(Grammar::keyword("TIMESTAMP"))
            .and(Grammar::keyword("STRING"))
            .and(Grammar::sequence_of(
                GrammarList::new()
                    .and(Grammar::first_of(
                        GrammarList::new()
                            .and(Grammar::keyword("CHAR"))
                            .and(Grammar::keyword("CHARACTER"))
                            .and(Grammar::keyword("VARCHAR"))
                            .and(Grammar::keyword("DECIMAL"))
                            .and(Grammar::keyword("DEC"))
                            .and(Grammar::keyword("NUMERIC")),
                    ))
                    .and(Grammar::reference("BracketedArguments").optional()),
            ))
            .and(Grammar::keyword("BINARY"))
            .and(Grammar::keyword("INTERVAL")),
    ).node(SyntaxKind::PrimitiveType)
}

/// Binds `PrimitiveTypeSegment`, `ArrayTypeSegment`, `StructTypeSegment`,
/// `StructTypeSchemaSegment`.
pub open spec fn define_primitive_type_segment_etc_view(
    dialect: DialectView,
    hive: DialectView,
) -> Result<DialectView, DialectError> {
    let dialect = with_rule(dialect, "PrimitiveTypeSegment"@, primitive_type_segment_view());
    match known(lookup_rule(hive.library, "ArrayTypeSegment"@)) {
        Err(e) => Err(e),
        Ok(base) => {
            let dialect = with_rule(dialect, "ArrayTypeSegment"@, base);
            match known(lookup_rule(hive.library, "StructTypeSegment"@)) {
                Err(e) => Err(e),
                Ok(base) => {
                    let dialect = with_rule(dialect, "StructTypeSegment"@, base);
                    match known(lookup_rule(hive.library, "StructTypeSchemaSegment"@)) {
                        Err(e) => Err(e),
                        Ok(base) => {
                            let dialect = with_rule(dialect, "StructTypeSchemaSegment"@, base);
                            Ok(dialect)
                        },
                    }
                },
            }
        },
    }
}

/// Binds `PrimitiveTypeSegment`, `ArrayTypeSegment`, `StructTypeSegment`,
/// `StructTypeSchemaSegment`.
pub fn define_primitive_type_segment_etc(
    dialect: Dialect,
    hive: &Dialect,
) -> (r: Result<Dialect, DialectError>)
    ensures
        outcome_view(r) == define_primitive_type_segment_etc_view(
            dialect.deep_view(),
            hive.deep_view(),
        ),
{
    let mut dialect = dialect;
    dialect.define("PrimitiveTypeSegment", primitive_type_segment());
    let base = match hive.rule_grammar("ArrayTypeSegment") {
        Some(base) => base,
        None => {
            return Err(DialectError::UnknownRule);
        },
    };
    dialect.define("ArrayTypeSegment", base);
    let base = match hive.rule_grammar("StructTypeSegment") {
        Some(base) => base,
        None => {
            return Err(DialectError::UnknownRule);
        },
    };
    dialect.define("StructTypeSegment", base);
    let base = match hive.rule_grammar("StructTypeSchemaSegment") {
        Some(base) => base,
        None => {
            return Err(DialectError::UnknownRule);
        },
    };
    dialect.define("StructTypeSchemaSegment", base);
    Ok(dialect)
}

/// The grammar of `SemiStructuredAccessorSegment`.
pub open spec fn semi_structured_accessor_segment_view() -> GrammarView {
    GrammarView::Node {
        kind: SyntaxKind::SemiStructuredExpression,
        inner: Box::new(GrammarView::Sequence {
            elements: Seq::empty()
                .push(GrammarView::Ref { name: "ColonSegment"@, exclude: None })
                .push(GrammarView::OneOf {
                    options: Seq::empty()
                        .push(
                            GrammarView::Ref {
                                name: "NakedSemiStructuredElementSegment"@,
                                exclude: None,
                            },
                        )
                        .push(GrammarView::Bracketed {
                            elements: Seq::empty()
                                .push(
                                    GrammarView::Ref {
                                        name: "QuotedSemiStructuredElementSegment"@,
                                        exclude: None,
                                    },
                                ),
                            bracket_type: "square"@,
                            parse_mode: ParseMode::Strict,
                        }),
                })
                .push(
                    GrammarView::Optional { inner: Box::new(
                        GrammarView::Ref { name: "ArrayAccessorSegment"@, exclude: None },
                    ) },
                )
                .push(GrammarView::AnyNumberOf {
                    options: Seq::empty()
                        .push(GrammarView::Sequence {
                            elements: Seq::empty()
                                .push(GrammarView::OneOf {
                                    options: Seq::empty()
                                        .push(
                                            GrammarView::Ref { name: "DotSegment"@, exclude: None },
                                        )
                                        .push(
                                            GrammarView::Ref {
                                                name: "ColonSegment"@,
                                                exclude: None,
                                            },
                                        ),
                                })
                                .push(GrammarView::OneOf {
                                    options: Seq::empty()
                                        .push(
                                            GrammarView::Ref {
                                                name: "NakedSemiStructuredElementSegment"@,
                                                exclude: None,
                                            },
                                        )
                                        .push(GrammarView::Bracketed {
                                            elements: Seq::empty()
                                                .push(
                                                    GrammarView::Ref {
                                                        name: "QuotedSemiStructuredElementSegment"@,
                                                        exclude: None,
                                                    },
                                                ),
                                            bracket_type: "square"@,
                                            parse_mode: ParseMode::Strict,
                                        }),
                                }),
                        })
                        .push(
                            GrammarView::Optional { inner: Box::new(
                                GrammarView::Ref { name: "ArrayAccessorSegment"@, exclude: None },
                            ) },
                        ),
                    min_times: 0,
                    max_times: None,
                    max_times_per_element: None,
                }),
        }),
    }
}

/// The grammar of `SemiStructuredAccessorSegment`.
pub fn semi_structured_accessor_segment() -> (r: Grammar)
    ensures
        grammar_view(r) == semi_structured_accessor_segment_view(),
{
    Grammar::sequence_of(
        GrammarList::new()
            .and(Grammar::reference("ColonSegment"))
            .and(Grammar::first_of(
                GrammarList::new()
                    .and(Grammar::reference("NakedSemiStructuredElementSegment"))
                    .and(Grammar::bracketed_by(
                        GrammarList::new()
                            .and(Grammar::reference("QuotedSemiStructuredElementSegment")),
                        "square",
                        ParseMode::Strict,
                    )),
            ))
            .and(Grammar::reference("ArrayAccessorSegment").optional())
            .and(Grammar::repeated(
                GrammarList::new()
                    .and(Grammar::sequence_of(
                        GrammarList::new()
                            .and(Grammar::first_of(
                                GrammarList::new()
                                    .and(Grammar::reference("DotSegment"))
                                    .and(Grammar::reference("ColonSegment")),
                            ))
                            .and(Grammar::first_of(
                                GrammarList::new()
                                    .and(Grammar::reference("NakedSemiStructuredElementSegment"))
                                    .and(Grammar::bracketed_by(
                                        GrammarList::new()
                                            .and(
                                                Grammar::reference(
                                                    "QuotedSemiStructuredElementSegment",
                                                ),
                                            ),
                                        "square",
                                        ParseMode::Strict,
                                    )),
                            )),
                    ))
                    .and(Grammar::reference("ArrayAccessorSegment").optional()),
                0,
                None,
                None,
            )),
    ).node(SyntaxKind::SemiStructuredExpression)
}

/// The grammar of `DatatypeSegment`.
pub open spec fn datatype_segment_view() -> GrammarView {
    GrammarView::Node {
        kind: SyntaxKind::DataType,
        inner: Box::new(GrammarView::OneOf {
            options: Seq::empty()
                .push(GrammarView::Ref { name: "PrimitiveTypeSegment"@, exclude: None })
                .push(GrammarView::Ref { name: "ArrayTypeSegment"@, exclude: None })
                .push(GrammarView::Sequence {
                    elements: Seq::empty()
                        .push(GrammarView::Text { template: "MAP"@, becomes: SyntaxKind::Keyword })
                        .push(GrammarView::Bracketed {
                            elements: Seq::empty()
                                .push(GrammarView::Sequence {
                                    elements: Seq::empty()
                                        .push(
                                            GrammarView::Ref {
                                                name: "DatatypeSegment"@,
                                                exclude: None,
                                            },
                                        )
                                        .push(
                                            GrammarView::Ref {
                                                name: "CommaSegment"@,
                                                exclude: None,
                                            },
                                        )
                                        .push(
                                            GrammarView::Ref {
                                                name: "DatatypeSegment"@,
                                                exclude: None,
                                            },
                                        ),
                                }),
                            bracket_type: "angle"@,
                            parse_mode: ParseMode::Strict,
                        }),
                })
                .push(GrammarView::Ref { name: "StructTypeSegment"@, exclude: None }),
        }),
    }
}

/// The grammar of `DatatypeSegment`.
pub fn datatype_segment() -> (r: Grammar)
    ensures
        grammar_view(r) == datatype_segment_view(),
{
    Grammar::first_of(
        GrammarList::new()
            .and(Grammar::reference("PrimitiveTypeSegment"))
            .and(Grammar::reference("ArrayTypeSegment"))
            .and(Grammar::sequence_of(
                GrammarList::new()
                    .and(Grammar::keyword("MAP"))
                    .and(Grammar::bracketed_by(
                        GrammarList::new()
                            .and(Grammar::sequence_of(
                                GrammarList::new()
                                    .and(Grammar::reference("DatatypeSegment"))
                                    .and(Grammar::reference("CommaSegment"))
                                    .and(Grammar::reference("DatatypeSegment")),
                            )),
                        "angle",
                        ParseMode::Strict,
                    )),
            ))
            .and(Grammar::reference("StructTypeSegment")),
    ).node(SyntaxKind::DataType)
}

/// The grammar of `AlterDatabaseStatementSegment`.
pub open spec fn alter_database_statement_segment_view() -> GrammarView {
    GrammarView::Node {
        kind: SyntaxKind::AlterDatabaseStatement,
        inner: Box::new(GrammarView::Sequence {
            elements: Seq::empty()
                .push(GrammarView::Text { template: "ALTER"@, becomes: SyntaxKind::Keyword })
                .push(GrammarView::OneOf {
                    options: Seq::empty()
                        .push(
                            GrammarView::Text {
                                template: "DATABASE"@,
                                becomes: SyntaxKind::Keyword,
                            },
                        )
                        .push(
                            GrammarView::Text { template: "SCHEMA"@, becomes: SyntaxKind::Keyword },
                        ),
                })
                .push(GrammarView::Ref { name: "DatabaseReferenceSegment"@, exclude: None })
                .push(GrammarView::Text { template: "SET"@, becomes: SyntaxKind::Keyword })
                .push(GrammarView::Ref { name: "DatabasePropertiesGrammar"@, exclude: None }),
        }),
    }
}

/// The grammar of `AlterDatabaseStatementSegment`.
pub fn alter_database_statement_segment() -> (r: Grammar)
    ensures
        grammar_view(r) == alter_database_statement_segment_view(),
{
    Grammar::sequence_of(
        GrammarList::new()
            .and(Grammar::keyword("ALTER"))
            .and(Grammar::first_of(
                GrammarList::new()
                    .and(Grammar::keyword("DATABASE"))
                    .and(Grammar::keyword("SCHEMA")),
            ))
            .and(Grammar::reference("DatabaseReferenceSegment"))
            .and(Grammar::keyword("SET"))
            .and(Grammar::reference("DatabasePropertiesGrammar")),
    ).node(SyntaxKind::AlterDatabaseStatement)
}

/// Binds `SemiStructuredAccessorSegment`, `DatatypeSegment`,
/// `AlterDatabaseStatementSegment`.
pub open spec fn define_semi_structured_accessor_segment_etc_view(
    dialect: DialectView,
) -> DialectView {
    let dialect = with_rule(
        dialect,
        "SemiStructuredAccessorSegment"@,
        semi_structured_accessor_segment_view(),
    );
    let dialect = with_rule(dialect, "DatatypeSegment"@, datatype_segment_view());
    let dialect = with_rule(
        dialect,
        "AlterDatabaseStatementSegment"@,
        alter_database_statement_segment_view(),
    );
    dialect
}

/// Binds `SemiStructuredAccessorSegment`, `DatatypeSegment`,
/// `AlterDatabaseStatementSegment`.
pub fn define_semi_structured_accessor_segment_etc(dialect: Dialect) -> (r: Dialect)
    ensures
        r.deep_view() == define_semi_structured_accessor_segment_etc_view(dialect.deep_view()),
{
    let mut dialect = dialect;
    dialect.define("SemiStructuredAccessorSegment", semi_structured_accessor_segment());
    dialect.define("DatatypeSegment", datatype_segment());
    dialect.define("AlterDatabaseStatementSegment", alter_database_statement_segment());
    dialect
}

/// The grammar of `AlterTableStatementSegment`.
pub open spec fn alter_table_statement_segment_view() -> GrammarView {
    GrammarView::Sequence {
        elements: Seq::empty()
            .push(GrammarView::Text { template: "ALTER"@, becomes: SyntaxKind::Keyword })
            .push(GrammarView::Text { template: "TABLE"@, becomes: SyntaxKind::Keyword })
            .push(GrammarView::Ref { name: "TableReferenceSegment"@, exclude: None })
            .push(GrammarView::Meta { kind: SyntaxKind::Indent })
            .push(GrammarView::OneOf {
                options: Seq::empty()
                    .push(GrammarView::Sequence {
                        elements: Seq::empty()
                            .push(
                                GrammarView::Text {
                                    template: "RENAME"@,
                                    becomes: SyntaxKind::Keyword,
                                },
                            )
                            .push(
                                GrammarView::Text { template: "TO"@, becomes: SyntaxKind::Keyword },
                            )
                            .push(
                                GrammarView::Ref { name: "TableReferenceSegment"@, exclude: None },
                            ),
                    })
                    .push(GrammarView::Sequence {
                        elements: Seq::empty()
                            .push(GrammarView::Ref { name: "PartitionSpecGrammar"@, exclude: None })
                            .push(
                                GrammarView::Text {
                                    template: "RENAME"@,
                                    becomes: SyntaxKind::Keyword,
                                },
                            )
                            .push(
                                GrammarView::Text { template: "TO"@, becomes: SyntaxKind::Keyword },
                            )
                            .push(
                                GrammarView::Ref { name: "PartitionSpecGrammar"@, exclude: None },
                            ),
                    })
                    .push(GrammarView::Sequence {
                        elements: Seq::empty()
                            .push(
                                GrammarView::Text {
                                    template: "RENAME"@,
                                    becomes: SyntaxKind::Keyword,
                                },
                            )
                            .push(
                                GrammarView::Text {
                                    template: "COLUMN"@,
                                    becomes: SyntaxKind::Keyword,
                                },
                            )
                            .push(
                                GrammarView::Ref { name: "ColumnReferenceSegment"@, exclude: None },
                            )
                            .push(
                                GrammarView::Text { template: "TO"@, becomes: SyntaxKind::Keyword },
                            )
                            .push(
                                GrammarView::Ref { name: "ColumnReferenceSegment"@, exclude: None },
                            ),
                    })
                    .push(GrammarView::Sequence {
                        elements: Seq::empty()
                            .push(
                                GrammarView::Text {
                                    template: "ADD"@,
                                    becomes: SyntaxKind::Keyword,
                                },
                            )
                            .push(GrammarView::OneOf {
                                options: Seq::empty()
                                    .push(
                                        GrammarView::Text {
                                            template: "COLUMNS"@,
                                            becomes: SyntaxKind::Keyword,
                                        },
                                    )
                                    .push(
                                        GrammarView::Text {
                                            template: "COLUMN"@,
                                            becomes: SyntaxKind::Keyword,
                                        },
                                    ),
                            })
                            .push(GrammarView::Meta { kind: SyntaxKind::Indent })
                            .push(GrammarView::OneOf {
                                options: Seq::empty()
                                    .push(GrammarView::Bracketed {
                                        elements: Seq::empty()
                                            .push(GrammarView::Delimited {
                                                options: Seq::empty()
                                                    .push(GrammarView::Sequence {
                                                        elements: Seq::empty()
                                                            .push(
                                                                GrammarView::Ref {
                                                                    name: "ColumnFieldDefinitionSegment"@,
                                                                    exclude: None,
                                                                },
                                                            )
                                                            .push(GrammarView::Optional { inner: Box::new(GrammarView::OneOf {
                                                                options: Seq::empty()
                                                                    .push(
                                                                        GrammarView::Text {
                                                                            template: "FIRST"@,
                                                                            becomes: SyntaxKind::Keyword,
                                                                        },
                                                                    )
                                                                    .push(GrammarView::Sequence {
                                                                        elements: Seq::empty()
                                                                            .push(
                                                                                GrammarView::Text {
                                                                                    template: "AFTER"@,
                                                                                    becomes: SyntaxKind::Keyword,
                                                                                },
                                                                            )
                                                                            .push(
                                                                                GrammarView::Ref {
                                                                                    name: "ColumnReferenceSegment"@,
                                                                                    exclude: None,
                                                                                },
                                                                            ),
                                                                    }),
                                                            }) }),
                                                    }),
                                                delimiter: Box::new(
                                                    GrammarView::Ref {
                                                        name: "CommaSegment"@,
                                                        exclude: None,
                                                    },
                                                ),
                                                min_delimiters: 0,
                                                allow_trailing: false,
                                            }),
                                        bracket_type: "round"@,
                                        parse_mode: ParseMode::Strict,
                                    })
                                    .push(GrammarView::Delimited {
                                        options: Seq::empty()
                                            .push(GrammarView::Sequence {
                                                elements: Seq::empty()
                                                    .push(
                                                        GrammarView::Ref {
                                                            name: "ColumnFieldDefinitionSegment"@,
                                                            exclude: None,
                                                        },
                                                    )
                                                    .push(GrammarView::Optional { inner: Box::new(GrammarView::OneOf {
                                                        options: Seq::empty()
                                                            .push(
                                                                GrammarView::Text {
                                                                    template: "FIRST"@,
                                                                    becomes: SyntaxKind::Keyword,
                                                                },
                                                            )
                                                            .push(GrammarView::Sequence {
                                                                elements: Seq::empty()
                                                                    .push(
                                                                        GrammarView::Text {
                                                                            template: "AFTER"@,
                                                                            becomes: SyntaxKind::Keyword,
                                                                        },
                                                                    )
                                                                    .push(
                                                                        GrammarView::Ref {
                                                                            name: "ColumnReferenceSegment"@,
                                                                            exclude: None,
                                                                        },
                                                                    ),
                                                            }),
                                                    }) }),
                                            }),
                                        delimiter: Box::new(
                                            GrammarView::Ref {
                                                name: "CommaSegment"@,
                                                exclude: None,
                                            },
                                        ),
                                        min_delimiters: 0,
                                        allow_trailing: false,
                                    }),
                            })
                            .push(GrammarView::Meta { kind: SyntaxKind::Dedent }),
                    })
                    .push(GrammarView::Sequence {
                        elements: Seq::empty()
                            .push(GrammarView::OneOf {
                                options: Seq::empty()
                                    .push(
                                        GrammarView::Text {
                                            template: "ALTER"@,
                                            becomes: SyntaxKind::Keyword,
                                        },
                                    )
                                    .push(
                                        GrammarView::Text {
                                            template: "CHANGE"@,
                                            becomes: SyntaxKind::Keyword,
                                        },
                                    ),
                            })
                            .push(
                                GrammarView::Optional { inner: Box::new(
                                    GrammarView::Text {
                                        template: "COLUMN"@,
                                        becomes: SyntaxKind::Keyword,
                                    },
                                ) },
                            )
                            .push(GrammarView::Meta { kind: SyntaxKind::Indent })
                            .push(GrammarView::AnyNumberOf {
                                options: Seq::empty()
                                    .push(GrammarView::Ref {
                                        name: "ColumnReferenceSegment"@,
                                        exclude: Some(Box::new(GrammarView::OneOf {
                                            options: Seq::empty()
                                                .push(
                                                    GrammarView::Text {
                                                        template: "COMMENT"@,
                                                        becomes: SyntaxKind::Keyword,
                                                    },
                                                )
                                                .push(
                                                    GrammarView::Text {
                                                        template: "TYPE"@,
                                                        becomes: SyntaxKind::Keyword,
                                                    },
                                                )
                                                .push(
                                                    GrammarView::Ref {
                                                        name: "DatatypeSegment"@,
                                                        exclude: None,
                                                    },
                                                )
                                                .push(
                                                    GrammarView::Text {
                                                        template: "FIRST"@,
                                                        becomes: SyntaxKind::Keyword,
                                                    },
                                                )
                                                .push(
                                                    GrammarView::Text {
                                                        template: "AFTER"@,
                                                        becomes: SyntaxKind::Keyword,
                                                    },
                                                )
                                                .push(
                                                    GrammarView::Text {
                                                        template: "SET"@,
                                                        becomes: SyntaxKind::Keyword,
                                                    },
                                                )
                                                .push(
                                                    GrammarView::Text {
                                                        template: "DROP"@,
                                                        becomes: SyntaxKind::Keyword,
                                                    },
                                                ),
                                        })),
                                    }),
                                min_times: 0,
                                max_times: Some(2),
                                max_times_per_element: None,
                            })
                            .push(
                                GrammarView::Optional { inner: Box::new(
                                    GrammarView::Text {
                                        template: "TYPE"@,
                                        becomes: SyntaxKind::Keyword,
                                    },
                                ) },
                            )
                            .push(
                                GrammarView::Optional { inner: Box::new(
                                    GrammarView::Ref { name: "DatatypeSegment"@, exclude: None },
                                ) },
                            )
                            .push(
                                GrammarView::Optional { inner: Box::new(
                                    GrammarView::Ref { name: "CommentGrammar"@, exclude: None },
                                ) },
                            )
                            .push(GrammarView::Optional { inner: Box::new(GrammarView::OneOf {
                                options: Seq::empty()
                                    .push(
                                        GrammarView::Text {
                                            template: "FIRST"@,
                                            becomes: SyntaxKind::Keyword,
                                        },
                                    )
                                    .push(GrammarView::Sequence {
                                        elements: Seq::empty()
                                            .push(
                                                GrammarView::Text {
                                                    template: "AFTER"@,
                                                    becomes: SyntaxKind::Keyword,
                                                },
                                            )
                                            .push(
                                                GrammarView::Ref {
                                                    name: "ColumnReferenceSegment"@,
                                                    exclude: None,
                                                },
                                            ),
                                    }),
                            }) })
                            .push(GrammarView::Optional { inner: Box::new(GrammarView::Sequence {
                                elements: Seq::empty()
                                    .push(GrammarView::OneOf {
                                        options: Seq::empty()
                                            .push(
                                                GrammarView::Text {
                                                    template: "SET"@,
                                                    becomes: SyntaxKind::Keyword,
                                                },
                                            )
                                            .push(
                                                GrammarView::Text {
                                                    template: "DROP"@,
                                                    becomes: SyntaxKind::Keyword,
                                                },
                                            ),
                                    })
                                    .push(
                                        GrammarView::Text {
                                            template: "NOT"@,
                                            becomes: SyntaxKind::Keyword,
                                        },
                                    )
                                    .push(
                                        GrammarView::Text {
                                            template: "NULL"@,
                                            becomes: SyntaxKind::Keyword,
                                        },
                                    ),
                            }) })
                            .push(GrammarView::Meta { kind: SyntaxKind::Dedent }),
                    })
                    .push(GrammarView::Sequence {
                        elements: Seq::empty()
                            .push(
                                GrammarView::Text {
                                    template: "REPLACE"@,
                                    becomes: SyntaxKind::Keyword,
                                },
                            )
                            .push(
                                GrammarView::Text {
                                    template: "COLUMNS"@,
                                    becomes: SyntaxKind::Keyword,
                                },
                            )
                            .push(GrammarView::Bracketed {
                                elements: Seq::empty()
                                    .push(GrammarView::Delimited {
                                        options: Seq::empty()
                                            .push(GrammarView::Sequence {
                                                elements: Seq::empty()
                                                    .push(
                                                        GrammarView::Ref {
                                                            name: "ColumnDefinitionSegment"@,
                                                            exclude: None,
                                                        },
                                                    )
                                                    .push(
                                                        GrammarView::Optional { inner: Box::new(
                                                            GrammarView::Ref {
                                                                name: "CommentGrammar"@,
                                                                exclude: None,
                                                            },
                                                        ) },
                                                    ),
                                            }),
                                        delimiter: Box::new(
                                            GrammarView::Ref {
                                                name: "CommaSegment"@,
                                                exclude: None,
                                            },
                                        ),
                                        min_delimiters: 0,
                                        allow_trailing: false,
                                    }),
                                bracket_type: "round"@,
                                parse_mode: ParseMode::Strict,
                            }),
                    })
                    .push(GrammarView::Sequence {
                        elements: Seq::empty()
                            .push(
                                GrammarView::Text {
                                    template: "DROP"@,
                                    becomes: SyntaxKind::Keyword,
                                },
                            )
                            .push(GrammarView::OneOf {
                                options: Seq::empty()
                                    .push(GrammarView::Sequence {
                                        elements: Seq::empty()
                                            .push(
                                                GrammarView::Text {
                                                    template: "COLUMN"@,
                                                    becomes: SyntaxKind::Keyword,
                                                },
                                            )
                                            .push(
                                                GrammarView::Ref {
                                                    name: "ColumnReferenceSegment"@,
                                                    exclude: None,
                                                },
                                            ),
                                    })
                                    .push(GrammarView::Sequence {
                                        elements: Seq::empty()
                                            .push(
                                                GrammarView::Text {
                                                    template: "COLUMNS"@,
                                                    becomes: SyntaxKind::Keyword,
                                                },
                                            )
                                            .push(GrammarView::Bracketed {
                                                elements: Seq::empty()
                                                    .push(GrammarView::Delimited {
                                                        options: Seq::empty()
                                                            .push(GrammarView::AnyNumberOf {
                                                                options: Seq::empty()
                                                                    .push(
                                                                        GrammarView::Ref {
                                                                            name: "ColumnReferenceSegment"@,
                                                                            exclude: None,
                                                                        },
                                                                    ),
                                                                min_times: 0,
                                                                max_times: None,
                                                                max_times_per_element: None,
                                                            }),
                                                        delimiter: Box::new(
                                                            GrammarView::Ref {
                                                                name: "CommaSegment"@,
                                                                exclude: None,
                                                            },
                                                        ),
                                                        min_delimiters: 0,
                                                        allow_trailing: false,
                                                    }),
                                                bracket_type: "round"@,
                                                parse_mode: ParseMode::Strict,
                                            }),
                                    }),
                            }),
                    })
                    .push(GrammarView::Sequence {
                        elements: Seq::empty()
                            .push(
                                GrammarView::Text {
                                    template: "ADD"@,
                                    becomes: SyntaxKind::Keyword,
                                },
                            )
                            .push(
                                GrammarView::Optional { inner: Box::new(
                                    GrammarView::Ref { name: "IfNotExistsGrammar"@, exclude: None },
                                ) },
                            )
                            .push(GrammarView::AnyNumberOf {
                                options: Seq::empty()
                                    .push(
                                        GrammarView::Ref {
                                            name: "PartitionSpecGrammar"@,
                                            exclude: None,
                                        },
                                    )
                                    .push(
                                        GrammarView::Ref {
                                            name: "PartitionFieldGrammar"@,
                                            exclude: None,
                                        },
                                    ),
                                min_times: 1,
                                max_times: None,
                                max_times_per_element: None,
                            }),
                    })
                    .push(GrammarView::Sequence {
                        elements: Seq::empty()
                            .push(
                                GrammarView::Text {
                                    template: "DROP"@,
                                    becomes: SyntaxKind::Keyword,
                                },
                            )
                            .push(
                                GrammarView::Optional { inner: Box::new(
                                    GrammarView::Ref { name: "IfExistsGrammar"@, exclude: None },
                                ) },
                            )
                            .push(GrammarView::OneOf {
                                options: Seq::empty()
                                    .push(
                                        GrammarView::Ref {
                                            name: "PartitionSpecGrammar"@,
                                            exclude: None,
                                        },
                                    )
                                    .push(
                                        GrammarView::Ref {
                                            name: "PartitionFieldGrammar"@,
                                            exclude: None,
                                        },
                                    ),
                            })
                            .push(GrammarView::Optional { inner: Box::new(GrammarView::Sequence {
                                elements: Seq::empty()
                                    .push(
                                        GrammarView::Text {
                                            template: "PURGE"@,
                                            becomes: SyntaxKind::Keyword,
                                        },
                                    ),
                            }) }),
                    })
                    .push(GrammarView::Sequence {
                        elements: Seq::empty()
                            .push(
                                GrammarView::Text {
                                    template: "Replace"@,
                                    becomes: SyntaxKind::Keyword,
                                },
                            )
                            .push(
                                GrammarView::Ref { name: "PartitionFieldGrammar"@, exclude: None },
                            ),
                    })
                    .push(GrammarView::Sequence {
                        elements: Seq::empty()
                            .push(
                                GrammarView::Text {
                                    template: "RECOVER"@,
                                    becomes: SyntaxKind::Keyword,
                                },
                            )
                            .push(
                                GrammarView::Text {
                                    template: "PARTITIONS"@,
                                    becomes: SyntaxKind::Keyword,
                                },
                            ),
                    })
                    .push(GrammarView::Sequence {
                        elements: Seq::empty()
                            .push(
                                GrammarView::Text {
                                    template: "SET"@,
                                    becomes: SyntaxKind::Keyword,
                                },
                            )
                            .push(
                                GrammarView::Ref { name: "TablePropertiesGrammar"@, exclude: None },
                            ),
                    })
                    .push(GrammarView::Ref { name: "UnsetTablePropertiesGrammar"@, exclude: None })
                    .push(GrammarView::Sequence {
                        elements: Seq::empty()
                            .push(
                                GrammarView::Optional { inner: Box::new(
                                    GrammarView::Ref {
                                        name: "PartitionSpecGrammar"@,
                                        exclude: None,
                                    },
                                ) },
                            )
                            .push(
                                GrammarView::Text {
                                    template: "SET"@,
                                    becomes: SyntaxKind::Keyword,
                                },
                            )
                            .push(GrammarView::OneOf {
                                options: Seq::empty()
                                    .push(GrammarView::Sequence {
                                        elements: Seq::empty()
                                            .push(
                                                GrammarView::Text {
                                                    template: "SERDEPROPERTIES"@,
                                                    becomes: SyntaxKind::Keyword,
                                                },
                                            )
                                            .push(
                                                GrammarView::Ref {
                                                    name: "BracketedPropertyListGrammar"@,
                                                    exclude: None,
                                                },
                                            ),
                                    })
                                    .push(GrammarView::Sequence {
                                        elements: Seq::empty()
                                            .push(
                                                GrammarView::Text {
                                                    template: "SERDE"@,
                                                    becomes: SyntaxKind::Keyword,
                                                },
                                            )
                                            .push(
                                                GrammarView::Ref {
                                                    name: "QuotedLiteralSegment"@,
                                                    exclude: None,
                                                },
                                            )
                                            .push(
                                                GrammarView::Optional { inner: Box::new(
                                                    GrammarView::Ref {
                                                        name: "SerdePropertiesGrammar"@,
                                                        exclude: None,
                                                    },
                                                ) },
                                            ),
                                    }),
                            }),
                    })
                    .push(GrammarView::Sequence {
                        elements: Seq::empty()
                            .push(
                                GrammarView::Optional { inner: Box::new(
                                    GrammarView::Ref {
                                        name: "PartitionSpecGrammar"@,
                                        exclude: None,
                                    },
                                ) },
                            )
                            .push(
                                GrammarView::Text {
                                    template: "SET"@,
                                    becomes: SyntaxKind::Keyword,
                                },
                            )
                            .push(
                                GrammarView::Text {
                                    template: "FILEFORMAT"@,
                                    becomes: SyntaxKind::Keyword,
                                },
                            )
                            .push(
                                GrammarView::Ref {
                                    name: "DataSourceFormatSegment"@,
                                    exclude: None,
                                },
                            ),
                    })
                    .push(GrammarView::Sequence {
                        elements: Seq::empty()
                            .push(
                                GrammarView::Optional { inner: Box::new(
                                    GrammarView::Ref {
                                        name: "PartitionSpecGrammar"@,
                                        exclude: None,
                                    },
                                ) },
                            )
                            .push(
                                GrammarView::Text {
                                    template: "SET"@,
                                    becomes: SyntaxKind::Keyword,
                                },
                            )
                            .push(GrammarView::Ref { name: "LocationGrammar"@, exclude: None }),
                    })
                    .push(GrammarView::Sequence {
                        elements: Seq::empty()
                            .push(GrammarView::Meta { kind: SyntaxKind::Indent })
                            .push(GrammarView::OneOf {
                                options: Seq::empty()
                                    .push(
                                        GrammarView::Text {
                                            template: "ADD"@,
                                            becomes: SyntaxKind::Keyword,
                                        },
                                    )
                                    .push(
                                        GrammarView::Text {
                                            template: "DROP"@,
                                            becomes: SyntaxKind::Keyword,
                                        },
                                    ),
                            })
                            .push(
                                GrammarView::Text {
                                    template: "CONSTRAINT"@,
                                    becomes: SyntaxKind::Keyword,
                                },
                            )
                            .push(GrammarView::Ref {
                                name: "ColumnReferenceSegment"@,
                                exclude: Some(
                                    Box::new(
                                        GrammarView::Text {
                                            template: "CHECK"@,
                                            becomes: SyntaxKind::Keyword,
                                        },
                                    ),
                                ),
                            })
                            .push(
                                GrammarView::Optional { inner: Box::new(
                                    GrammarView::Text {
                                        template: "CHECK"@,
                                        becomes: SyntaxKind::Keyword,
                                    },
                                ) },
                            )
                            .push(GrammarView::Optional { inner: Box::new(GrammarView::Bracketed {
                                elements: Seq::empty()
                                    .push(
                                        GrammarView::Ref {
                                            name: "ExpressionSegment"@,
                                            exclude: None,
                                        },
                                    ),
                                bracket_type: "round"@,
                                parse_mode: ParseMode::Strict,
                            }) })
                            .push(GrammarView::Meta { kind: SyntaxKind::Dedent }),
                    })
                    .push(GrammarView::Sequence {
                        elements: Seq::empty()
                            .push(
                                GrammarView::Text {
                                    template: "WRITE"@,
                                    becomes: SyntaxKind::Keyword,
                                },
                            )
                            .push(GrammarView::AnyNumberOf {
                                options: Seq::empty()
                                    .push(GrammarView::Optional { inner: Box::new(GrammarView::Sequence {
                                        elements: Seq::empty()
                                            .push(
                                                GrammarView::Text {
                                                    template: "DISTRIBUTED"@,
                                                    becomes: SyntaxKind::Keyword,
                                                },
                                            )
                                            .push(
                                                GrammarView::Text {
                                                    template: "BY"@,
                                                    becomes: SyntaxKind::Keyword,
                                                },
                                            )
                                            .push(
                                                GrammarView::Text {
                                                    template: "PARTITION"@,
                                                    becomes: SyntaxKind::Keyword,
                                                },
                                            ),
                                    }) })
                                    .push(GrammarView::Optional { inner: Box::new(GrammarView::Sequence {
                                        elements: Seq::empty()
                                            .push(
                                                GrammarView::Optional { inner: Box::new(
                                                    GrammarView::Text {
                                                        template: "LOCALLY"@,
                                                        becomes: SyntaxKind::Keyword,
                                                    },
                                                ) },
                                            )
                                            .push(
                                                GrammarView::Text {
                                                    template: "ORDERED"@,
                                                    becomes: SyntaxKind::Keyword,
                                                },
                                            )
                                            .push(
                                                GrammarView::Text {
                                                    template: "BY"@,
                                                    becomes: SyntaxKind::Keyword,
                                                },
                                            )
                                            .push(GrammarView::Meta { kind: SyntaxKind::Indent })
                                            .push(GrammarView::Optional { inner: Box::new(GrammarView::Delimited {
                                                options: Seq::empty()
                                                    .push(GrammarView::Sequence {
                                                        elements: Seq::empty()
                                                            .push(
                                                                GrammarView::Ref {
                                                                    name: "ColumnReferenceSegment"@,
                                                                    exclude: None,
                                                                },
                                                            )
                                                            .push(GrammarView::Optional { inner: Box::new(GrammarView::OneOf {
                                                                options: Seq::empty()
                                                                    .push(
                                                                        GrammarView::Text {
                                                                            template: "ASC"@,
                                                                            becomes: SyntaxKind::Keyword,
                                                                        },
                                                                    )
                                                                    .push(
                                                                        GrammarView::Text {
                                                                            template: "DESC"@,
                                                                            becomes: SyntaxKind::Keyword,
                                                                        },
                                                                    ),
                                                            }) })
                                                            .push(GrammarView::Optional { inner: Box::new(GrammarView::Sequence {
                                                                elements: Seq::empty()
                                                                    .push(
                                                                        GrammarView::Text {
                                                                            template: "NULLS"@,
                                                                            becomes: SyntaxKind::Keyword,
                                                                        },
                                                                    )
                                                                    .push(GrammarView::OneOf {
                                                                        options: Seq::empty()
                                                                            .push(
                                                                                GrammarView::Text {
                                                                                    template: "FIRST"@,
                                                                                    becomes: SyntaxKind::Keyword,
                                                                                },
                                                                            )
                                                                            .push(
                                                                                GrammarView::Text {
                                                                                    template: "LAST"@,
                                                                                    becomes: SyntaxKind::Keyword,
                                                                                },
                                                                            ),
                                                                    }),
                                                            }) }),
                                                    }),
                                                delimiter: Box::new(
                                                    GrammarView::Ref {
                                                        name: "CommaSegment"@,
                                                        exclude: None,
                                                    },
                                                ),
                                                min_delimiters: 0,
                                                allow_trailing: false,
                                            }) })
                                            .push(GrammarView::Meta { kind: SyntaxKind::Dedent }),
                                    }) }),
                                min_times: 1,
                                max_times: None,
                                max_times_per_element: Some(1),
                            }),
                    })
                    .push(GrammarView::Sequence {
                        elements: Seq::empty()
                            .push(
                                GrammarView::Text {
                                    template: "SET"@,
                                    becomes: SyntaxKind::Keyword,
                                },
                            )
                            .push(
                                GrammarView::Text {
                                    template: "IDENTIFIER"@,
                                    becomes: SyntaxKind::Keyword,
                                },
                            )
                            .push(
                                GrammarView::Text {
                                    template: "FIELDS"@,
                                    becomes: SyntaxKind::Keyword,
                                },
                            )
                            .push(GrammarView::Meta { kind: SyntaxKind::Indent })
                            .push(GrammarView::Delimited {
                                options: Seq::empty()
                                    .push(GrammarView::Sequence {
                                        elements: Seq::empty()
                                            .push(
                                                GrammarView::Ref {
                                                    name: "ColumnReferenceSegment"@,
                                                    exclude: None,
                                                },
                                            ),
                                    }),
                                delimiter: Box::new(
                                    GrammarView::Ref { name: "CommaSegment"@, exclude: None },
                                ),
                                min_delimiters: 0,
                                allow_trailing: false,
                            })
                            .push(GrammarView::Meta { kind: SyntaxKind::Dedent }),
                    })
                    .push(GrammarView::Sequence {
                        elements: Seq::empty()
                            .push(
                                GrammarView::Text {
                                    template: "DROP"@,
                                    becomes: SyntaxKind::Keyword,
                                },
                            )
                            .push(
                                GrammarView::Text {
                                    template: "IDENTIFIER"@,
                                    becomes: SyntaxKind::Keyword,
                                },
                            )
                            .push(
                                GrammarView::Text {
                                    template: "FIELDS"@,
                                    becomes: SyntaxKind::Keyword,
                                },
                            )
                            .push(GrammarView::Meta { kind: SyntaxKind::Indent })
                            .push(GrammarView::Delimited {
                                options: Seq::empty()
                                    .push(GrammarView::Sequence {
                                        elements: Seq::empty()
                                            .push(
                                                GrammarView::Ref {
                                                    name: "ColumnReferenceSegment"@,
                                                    exclude: None,
                                                },
                                            ),
                                    }),
                                delimiter: Box::new(
                                    GrammarView::Ref { name: "CommaSegment"@, exclude: None },
                                ),
                                min_delimiters: 0,
                                allow_trailing: false,
                            })
                            .push(GrammarView::Meta { kind: SyntaxKind::Dedent }),
                    }),
            })
            .push(GrammarView::Meta { kind: SyntaxKind::Dedent }),
    }
}

/// The grammar of `AlterTableStatementSegment`.
pub fn alter_table_statement_segment() -> (r: Grammar)
    ensures
        grammar_view(r) == alter_table_statement_segment_view(),
{
    Grammar::sequence_of(
        GrammarList::new()
            .and(Grammar::keyword("ALTER"))
            .and(Grammar::keyword("TABLE"))
            .and(Grammar::reference("TableReferenceSegment"))
            .and(Grammar::meta(SyntaxKind::Indent))
            .and(Grammar::first_of(
                GrammarList::new()
                    .and(Grammar::sequence_of(
                        GrammarList::new()
                            .and(Grammar::keyword("RENAME"))
                            .and(Grammar::keyword("TO"))
                            .and(Grammar::reference("TableReferenceSegment")),
                    ))
                    .and(Grammar::sequence_of(
                        GrammarList::new()
                            .and(Grammar::reference("PartitionSpecGrammar"))
                            .and(Grammar::keyword("RENAME"))
                            .and(Grammar::keyword("TO"))
                            .and(Grammar::reference("PartitionSpecGrammar")),
                    ))
                    .and(Grammar::sequence_of(
                        GrammarList::new()
                            .and(Grammar::keyword("RENAME"))
                            .and(Grammar::keyword("COLUMN"))
                            .and(Grammar::reference("ColumnReferenceSegment"))
                            .and(Grammar::keyword("TO"))
                            .and(Grammar::reference("ColumnReferenceSegment")),
                    ))
                    .and(Grammar::sequence_of(
                        GrammarList::new()
                            .and(Grammar::keyword("ADD"))
                            .and(Grammar::first_of(
                                GrammarList::new()
                                    .and(Grammar::keyword("COLUMNS"))
                                    .and(Grammar::keyword("COLUMN")),
                            ))
                            .and(Grammar::meta(SyntaxKind::Indent))
                            .and(Grammar::first_of(
                                GrammarList::new()
                                    .and(Grammar::bracketed_by(
                                        GrammarList::new()
                                            .and(Grammar::delimited_by(
                                                GrammarList::new()
                                                    .and(Grammar::sequence_of(
                                                        GrammarList::new()
                                                            .and(
                                                                Grammar::reference(
                                                                    "ColumnFieldDefinitionSegment",
                                                                ),
                                                            )
                                                            .and(Grammar::first_of(
                                                                GrammarList::new()
                                                                    .and(Grammar::keyword("FIRST"))
                                                                    .and(Grammar::sequence_of(
                                                                        GrammarList::new()
                                                                            .and(
                                                                                Grammar::keyword(
                                                                                    "AFTER",
                                                                                ),
                                                                            )
                                                                            .and(
                                                                                Grammar::reference(
                                                                                    "ColumnReferenceSegment",
                                                                                ),
                                                                            ),
                                                                    )),
                                                            ).optional()),
                                                    )),
                                                Grammar::reference("CommaSegment"),
                                                0,
                                                false,
                                            )),
                                        "round",
                                        ParseMode::Strict,
                                    ))
                                    .and(Grammar::delimited_by(
                                        GrammarList::new()
                                            .and(Grammar::sequence_of(
                                                GrammarList::new()
                                                    .and(
                                                        Grammar::reference(
                                                            "ColumnFieldDefinitionSegment",
                                                        ),
                                                    )
                                                    .and(Grammar::first_of(
                                                        GrammarList::new()
                                                            .and(Grammar::keyword("FIRST"))
                                                            .and(Grammar::sequence_of(
                                                                GrammarList::new()
                                                                    .and(Grammar::keyword("AFTER"))
                                                                    .and(
                                                                        Grammar::reference(
                                                                            "ColumnReferenceSegment",
                                                                        ),
                                                                    ),
                                                            )),
                                                    ).optional()),
                                            )),
                                        Grammar::reference("CommaSegment"),
                                        0,
                                        false,
                                    )),
                            ))
                            .and(Grammar::meta(SyntaxKind::Dedent)),
                    ))
                    .and(Grammar::sequence_of(
                        GrammarList::new()
                            .and(Grammar::first_of(
                                GrammarList::new()
                                    .and(Grammar::keyword("ALTER"))
                                    .and(Grammar::keyword("CHANGE")),
                            ))
                            .and(Grammar::keyword("COLUMN").optional())
                            .and(Grammar::meta(SyntaxKind::Indent))
                            .and(Grammar::repeated(
                                GrammarList::new()
                                    .and(Grammar::reference_unless(
                                        "ColumnReferenceSegment",
                                        Grammar::first_of(
                                            GrammarList::new()
                                                .and(Grammar::keyword("COMMENT"))
                                                .and(Grammar::keyword("TYPE"))
                                                .and(Grammar::reference("DatatypeSegment"))
                                                .and(Grammar::keyword("FIRST"))
                                                .and(Grammar::keyword("AFTER"))
                                                .and(Grammar::keyword("SET"))
                                                .and(Grammar::keyword("DROP")),
                                        ),
                                    )),
                                0,
                                Some(2),
                                None,
                            ))
                            .and(Grammar::keyword("TYPE").optional())
                            .and(Grammar::reference("DatatypeSegment").optional())
                            .and(Grammar::reference("CommentGrammar").optional())
                            .and(Grammar::first_of(
                                GrammarList::new()
                                    .and(Grammar::keyword("FIRST"))
                                    .and(Grammar::sequence_of(
                                        GrammarList::new()
                                            .and(Grammar::keyword("AFTER"))
                                            .and(Grammar::reference("ColumnReferenceSegment")),
                                    )),
                            ).optional())
                            .and(Grammar::sequence_of(
                                GrammarList::new()
                                    .and(Grammar::first_of(
                                        GrammarList::new()
                                            .and(Grammar::keyword("SET"))
                                            .and(Grammar::keyword("DROP")),
                                    ))
                                    .and(Grammar::keyword("NOT"))
                                    .and(Grammar::keyword("NULL")),
                            ).optional())
                            .and(Grammar::meta(SyntaxKind::Dedent)),
                    ))
                    .and(Grammar::sequence_of(
                        GrammarList::new()
                            .and(Grammar::keyword("REPLACE"))
                            .and(Grammar::keyword("COLUMNS"))
                            .and(Grammar::bracketed_by(
                                GrammarList::new()
                                    .and(Grammar::delimited_by(
                                        GrammarList::new()
                                            .and(Grammar::sequence_of(
                                                GrammarList::new()
                                                    .and(
                                                        Grammar::reference(
                                                            "ColumnDefinitionSegment",
                                                        ),
                                                    )
                                                    .and(
                                                        Grammar::reference("CommentGrammar").optional(),
                                                    ),
                                            )),
                                        Grammar::reference("CommaSegment"),
                                        0,
                                        false,
                                    )),
                                "round",
                                ParseMode::Strict,
                            )),
                    ))
                    .and(Grammar::sequence_of(
                        GrammarList::new()
                            .and(Grammar::keyword("DROP"))
                            .and(Grammar::first_of(
                                GrammarList::new()
                                    .and(Grammar::sequence_of(
                                        GrammarList::new()
                                            .and(Grammar::keyword("COLUMN"))
                                            .and(Grammar::reference("ColumnReferenceSegment")),
                                    ))
                                    .and(Grammar::sequence_of(
                                        GrammarList::new()
                                            .and(Grammar::keyword("COLUMNS"))
                                            .and(Grammar::bracketed_by(
                                                GrammarList::new()
                                                    .and(Grammar::delimited_by(
                                                        GrammarList::new()
                                                            .and(Grammar::repeated(
                                                                GrammarList::new()
                                                                    .and(
                                                                        Grammar::reference(
                                                                            "ColumnReferenceSegment",
                                                                        ),
                                                                    ),
                                                                0,
                                                                None,
                                                                None,
                                                            )),
                                                        Grammar::reference("CommaSegment"),
                                                        0,
                                                        false,
                                                    )),
                                                "round",
                                                ParseMode::Strict,
                                            )),
                                    )),
                            )),
                    ))
                    .and(Grammar::sequence_of(
                        GrammarList::new()
                            .and(Grammar::keyword("ADD"))
                            .and(Grammar::reference("IfNotExistsGrammar").optional())
                            .and(Grammar::repeated(
                                GrammarList::new()
                                    .and(Grammar::reference("PartitionSpecGrammar"))
                                    .and(Grammar::reference("PartitionFieldGrammar")),
                                1,
                                None,
                                None,
                            )),
                    ))
                    .and(Grammar::sequence_of(
                        GrammarList::new()
                            .and(Grammar::keyword("DROP"))
                            .and(Grammar::reference("IfExistsGrammar").optional())
                            .and(Grammar::first_of(
                                GrammarList::new()
                                    .and(Grammar::reference("PartitionSpecGrammar"))
                                    .and(Grammar::reference("PartitionFieldGrammar")),
                            ))
                            .and(Grammar::sequence_of(
                                GrammarList::new()
                                    .and(Grammar::keyword("PURGE")),
                            ).optional()),
                    ))
                    .and(Grammar::sequence_of(
                        GrammarList::new()
                            .and(Grammar::keyword("Replace"))
                            .and(Grammar::reference("PartitionFieldGrammar")),
                    ))
                    .and(Grammar::sequence_of(
                        GrammarList::new()
                            .and(Grammar::keyword("RECOVER"))
                            .and(Grammar::keyword("PARTITIONS")),
                    ))
                    .and(Grammar::sequence_of(
                        GrammarList::new()
                            .and(Grammar::keyword("SET"))
                            .and(Grammar::reference("TablePropertiesGrammar")),
                    ))
                    .and(Grammar::reference("UnsetTablePropertiesGrammar"))
                    .and(Grammar::sequence_of(
                        GrammarList::new()
                            .and(Grammar::reference("PartitionSpecGrammar").optional())
                            .and(Grammar::keyword("SET"))
                            .and(Grammar::first_of(
                                GrammarList::new()
                                    .and(Grammar::sequence_of(
                                        GrammarList::new()
                                            .and(Grammar::keyword("SERDEPROPERTIES"))
                                            .and(
                                                Grammar::reference("BracketedPropertyListGrammar"),
                                            ),
                                    ))
                                    .and(Grammar::sequence_of(
                                        GrammarList::new()
                                            .and(Grammar::keyword("SERDE"))
                                            .and(Grammar::reference("QuotedLiteralSegment"))
                                            .and(
                                                Grammar::reference("SerdePropertiesGrammar").optional(),
                                            ),
                                    )),
                            )),
                    ))
                    .and(Grammar::sequence_of(
                        GrammarList::new()
                            .and(Grammar::reference("PartitionSpecGrammar").optional())
                            .and(Grammar::keyword("SET"))
                            .and(Grammar::keyword("FILEFORMAT"))
                            .and(Grammar::reference("DataSourceFormatSegment")),
                    ))
                    .and(Grammar::sequence_of(
                        GrammarList::new()
                            .and(Grammar::reference("PartitionSpecGrammar").optional())
                            .and(Grammar::keyword("SET"))
                            .and(Grammar::reference("LocationGrammar")),
                    ))
                    .and(Grammar::sequence_of(
                        GrammarList::new()
                            .and(Grammar::meta(SyntaxKind::Indent))
                            .and(Grammar::first_of(
                                GrammarList::new()
                                    .and(Grammar::keyword("ADD"))
                                    .and(Grammar::keyword("DROP")),
                            ))
                            .and(Grammar::keyword("CONSTRAINT"))
                            .and(Grammar::reference_unless(
                                "ColumnReferenceSegment",
                                Grammar::keyword("CHECK"),
                            ))
                            .and(Grammar::keyword("CHECK").optional())
                            .and(Grammar::bracketed_by(
                                GrammarList::new()
                                    .and(Grammar::reference("ExpressionSegment")),
                                "round",
                                ParseMode::Strict,
                            ).optional())
                            .and(Grammar::meta(SyntaxKind::Dedent)),
                    ))
                    .and(Grammar::sequence_of(
                        GrammarList::new()
                            .and(Grammar::keyword("WRITE"))
                            .and(Grammar::repeated(
                                GrammarList::new()
                                    .and(Grammar::sequence_of(
                                        GrammarList::new()
                                            .and(Grammar::keyword("DISTRIBUTED"))
                                            .and(Grammar::keyword("BY"))
                                            .and(Grammar::keyword("PARTITION")),
                                    ).optional())
                                    .and(Grammar::sequence_of(
                                        GrammarList::new()
                                            .and(Grammar::keyword("LOCALLY").optional())
                                            .and(Grammar::keyword("ORDERED"))
                                            .and(Grammar::keyword("BY"))
                                            .and(Grammar::meta(SyntaxKind::Indent))
                                            .and(Grammar::delimited_by(
                                                GrammarList::new()
                                                    .and(Grammar::sequence_of(
                                                        GrammarList::new()
                                                            .and(
                                                                Grammar::reference(
                                                                    "ColumnReferenceSegment",
                                                                ),
                                                            )
                                                            .and(Grammar::first_of(
                                                                GrammarList::new()
                                                                    .and(Grammar::keyword("ASC"))
                                                                    .and(Grammar::keyword("DESC")),
                                                            ).optional())
                                                            .and(Grammar::sequence_of(
                                                                GrammarList::new()
                                                                    .and(Grammar::keyword("NULLS"))
                                                                    .and(Grammar::first_of(
                                                                        GrammarList::new()
                                                                            .and(
                                                                                Grammar::keyword(
                                                                                    "FIRST",
                                                                                ),
                                                                            )
                                                                            .and(
                                                                                Grammar::keyword(
                                                                                    "LAST",
                                                                                ),
                                                                            ),
                                                                    )),
                                                            ).optional()),
                                                    )),
                                                Grammar::reference("CommaSegment"),
                                                0,
                                                false,
                                            ).optional())
                                            .and(Grammar::meta(SyntaxKind::Dedent)),
                                    ).optional()),
                                1,
                                None,
                                Some(1),
                            )),
                    ))
                    .and(Grammar::sequence_of(
                        GrammarList::new()
                            .and(Grammar::keyword("SET"))
                            .and(Grammar::keyword("IDENTIFIER"))
                            .and(Grammar::keyword("FIELDS"))
                            .and(Grammar::meta(SyntaxKind::Indent))
                            .and(Grammar::delimited_by(
                                GrammarList::new()
                                    .and(Grammar::sequence_of(
                                        GrammarList::new()
                                            .and(Grammar::reference("ColumnReferenceSegment")),
                                    )),
                                Grammar::reference("CommaSegment"),
                                0,
                                false,
                            ))
                            .and(Grammar::meta(SyntaxKind::Dedent)),
                    ))
                    .and(Grammar::sequence_of(
                        GrammarList::new()
                            .and(Grammar::keyword("DROP"))
                            .and(Grammar::keyword("IDENTIFIER"))
                            .and(Grammar::keyword("FIELDS"))
                            .and(Grammar::meta(SyntaxKind::Indent))
                            .and(Grammar::delimited_by(
                                GrammarList::new()
                                    .and(Grammar::sequence_of(
                                        GrammarList::new()
                                            .and(Grammar::reference("ColumnReferenceSegment")),
                                    )),
                                Grammar::reference("CommaSegment"),
                                0,
                                false,
                            ))
                            .and(Grammar::meta(SyntaxKind::Dedent)),
                    )),
            ))
            .and(Grammar::meta(SyntaxKind::Dedent)),
    )
}

/// Replaces the grammar of `AlterTableStatementSegment`.
pub open spec fn replace_alter_table_statement_segment_view(
    dialect: DialectView,
) -> Result<DialectView, DialectError> {
    with_replaced(dialect, "AlterTableStatementSegment"@, alter_table_statement_segment_view())
}

/// Replaces the grammar of `AlterTableStatementSegment`.
pub fn replace_alter_table_statement_segment(dialect: Dialect) -> (r: Result<Dialect, DialectError>)
    ensures
        outcome_view(r) == replace_alter_table_statement_segment_view(dialect.deep_view()),
{
    let mut dialect = dialect;
    match dialect.replace_grammar("AlterTableStatementSegment", alter_table_statement_segment()) {
        Ok(()) => Ok(dialect),
        Err(e) => Err(e),
    }
}

/// The grammar of `ColumnFieldDefinitionSegment`.
pub open spec fn column_field_definition_segment_view() -> GrammarView {
    GrammarView::Node {
        kind: SyntaxKind::ColumnDefinition,
        inner: Box::new(GrammarView::Sequence {
            elements: Seq::empty()
                .push(GrammarView::Ref { name: "ColumnReferenceSegment"@, exclude: None })
                .push(GrammarView::Ref { name: "DatatypeSegment"@, exclude: None })
                .push(GrammarView::Optional { inner: Box::new(GrammarView::Bracketed {
                    elements: Seq::empty()
                        .push(GrammarView::Anything),
                    bracket_type: "round"@,
                    parse_mode: ParseMode::Strict,
                }) })
                .push(GrammarView::AnyNumberOf {
                    options: Seq::empty()
                        .push(
                            GrammarView::Optional { inner: Box::new(
                                GrammarView::Ref {
                                    name: "ColumnConstraintSegment"@,
                                    exclude: None,
                                },
                            ) },
                        ),
                    min_times: 0,
                    max_times: None,
                    max_times_per_element: None,
                }),
        }),
    }
}

/// The grammar of `ColumnFieldDefinitionSegment`.
pub fn column_field_definition_segment() -> (r: Grammar)
    ensures
        grammar_view(r) == column_field_definition_segment_view(),
{
    Grammar::sequence_of(
        GrammarList::new()
            .and(Grammar::reference("ColumnReferenceSegment"))
            .and(Grammar::reference("DatatypeSegment"))
            .and(Grammar::bracketed_by(
                GrammarList::new()
                    .and(Grammar::anything()),
                "round",
                ParseMode::Strict,
            ).optional())
            .and(Grammar::repeated(
                GrammarList::new()
                    .and(Grammar::reference("ColumnConstraintSegment").optional()),
                0,
                None,
                None,
            )),
    ).node(SyntaxKind::ColumnDefinition)
}

/// Binds `ColumnFieldDefinitionSegment`.
pub open spec fn define_column_field_definition_segment_view(dialect: DialectView) -> DialectView {
    with_rule(dialect, "ColumnFieldDefinitionSegment"@, column_field_definition_segment_view())
}

/// Binds `ColumnFieldDefinitionSegment`.
pub fn define_column_field_definition_segment(dialect: Dialect) -> (r: Dialect)
    ensures
        r.deep_view() == define_column_field_definition_segment_view(dialect.deep_view()),
{
    let mut dialect = dialect;
    dialect.define("ColumnFieldDefinitionSegment", column_field_definition_segment());
    dialect
}

/// The grammar of `AlterViewStatementSegment`.
pub open spec fn alter_view_statement_segment_view() -> GrammarView {
    GrammarView::Node {
        kind: SyntaxKind::AlterViewStatement,
        inner: Box::new(GrammarView::Sequence {
            elements: Seq::empty()
                .push(GrammarView::Text { template: "ALTER"@, becomes: SyntaxKind::Keyword })
                .push(GrammarView::Text { template: "VIEW"@, becomes: SyntaxKind::Keyword })
                .push(GrammarView::Ref { name: "TableReferenceSegment"@, exclude: None })
                .push(GrammarView::OneOf {
                    options: Seq::empty()
                        .push(GrammarView::Sequence {
                            elements: Seq::empty()
                                .push(
                                    GrammarView::Text {
                                        template: "RENAME"@,
                                        becomes: SyntaxKind::Keyword,
                                    },
                                )
                                .push(
                                    GrammarView::Text {
                                        template: "TO"@,
                                        becomes: SyntaxKind::Keyword,
                                    },
                                )
                                .push(
                                    GrammarView::Ref {
                                        name: "TableReferenceSegment"@,
                                        exclude: None,
                                    },
                                ),
                        })
                        .push(GrammarView::Sequence {
                            elements: Seq::empty()
                                .push(
                                    GrammarView::Text {
                                        template: "SET"@,
                                        becomes: SyntaxKind::Keyword,
                                    },
                                )
                                .push(
                                    GrammarView::Ref {
                                        name: "TablePropertiesGrammar"@,
                                        exclude: None,
                                    },
                                ),
                        })
                        .push(
                            GrammarView::Ref {
                                name: "UnsetTablePropertiesGrammar"@,
                                exclude: None,
                            },
                        )
                        .push(GrammarView::Sequence {
                            elements: Seq::empty()
                                .push(
                                    GrammarView::Text {
                                        template: "AS"@,
                                        becomes: SyntaxKind::Keyword,
                                    },
                                )
                                .push(GrammarView::OneOf {
                                    options: Seq::empty()
                                        .push(GrammarView::Bracketed {
                                            elements: Seq::empty()
                                                .push(
                                                    GrammarView::Ref {
                                                        name: "SelectStatementSegment"@,
                                                        exclude: None,
                                                    },
                                                ),
                                            bracket_type: "round"@,
                                            parse_mode: ParseMode::Strict,
                                        })
                                        .push(
                                            GrammarView::Ref {
                                                name: "SelectStatementSegment"@,
                                                exclude: None,
                                            },
                                        ),
                                }),
                        }),
                }),
        }),
    }
}

/// The grammar of `AlterViewStatementSegment`.
pub fn alter_view_statement_segment() -> (r: Grammar)
    ensures
        grammar_view(r) == alter_view_statement_segment_view(),
{
    Grammar::sequence_of(
        GrammarList::new()
            .and(Grammar::keyword("ALTER"))
            .and(Grammar::keyword("VIEW"))
            .and(Grammar::reference("TableReferenceSegment"))
            .and(Grammar::first_of(
                GrammarList::new()
                    .and(Grammar::sequence_of(
                        GrammarList::new()
                            .and(Grammar::keyword("RENAME"))
                            .and(Grammar::keyword("TO"))
                            .and(Grammar::reference("TableReferenceSegment")),
                    ))
                    .and(Grammar::sequence_of(
                        GrammarList::new()
                            .and(Grammar::keyword("SET"))
                            .and(Grammar::reference("TablePropertiesGrammar")),
                    ))
                    .and(Grammar::reference("UnsetTablePropertiesGrammar"))
                    .and(Grammar::sequence_of(
                        GrammarList::new()
                            .and(Grammar::keyword("AS"))
                            .and(Grammar::first_of(
                                GrammarList::new()
                                    .and(Grammar::bracketed_by(
                                        GrammarList::new()
                                            .and(Grammar::reference("SelectStatementSegment")),
                                        "round",
                                        ParseMode::Strict,
                                    ))
                                    .and(Grammar::reference("SelectStatementSegment")),
                            )),
                    )),
            )),
    ).node(SyntaxKind::AlterViewStatement)
}

/// Binds `AlterViewStatementSegment`.
pub open spec fn define_alter_view_statement_segment_view(dialect: DialectView) -> DialectView {
    with_rule(dialect, "AlterViewStatementSegment"@, alter_view_statement_segment_view())
}

/// Binds `AlterViewStatementSegment`.
pub fn define_alter_view_statement_segment(dialect: Dialect) -> (r: Dialect)
    ensures
        r.deep_view() == define_alter_view_statement_segment_view(dialect.deep_view()),
{
    let mut dialect = dialect;
    dialect.define("AlterViewStatementSegment", alter_view_statement_segment());
    dialect
}

/// The grammar of `CreateDatabaseStatementSegment`.
pub open spec fn create_database_statement_segment_view() -> GrammarView {
    GrammarView::Sequence {
        elements: Seq::empty()
            .push(GrammarView::Text { template: "CREATE"@, becomes: SyntaxKind::Keyword })
            .push(GrammarView::OneOf {
                options: Seq::empty()
                    .push(GrammarView::Text { template: "DATABASE"@, becomes: SyntaxKind::Keyword })
                    .push(GrammarView::Text { template: "SCHEMA"@, becomes: SyntaxKind::Keyword }),
            })
            .push(
                GrammarView::Optional { inner: Box::new(
                    GrammarView::Ref { name: "IfNotExistsGrammar"@, exclude: None },
                ) },
            )
            .push(GrammarView::Ref { name: "DatabaseReferenceSegment"@, exclude: None })
            .push(
                GrammarView::Optional { inner: Box::new(
                    GrammarView::Ref { name: "CommentGrammar"@, exclude: None },
                ) },
            )
            .push(
                GrammarView::Optional { inner: Box::new(
                    GrammarView::Ref { name: "LocationGrammar"@, exclude: None },
                ) },
            )
            .push(GrammarView::Optional { inner: Box::new(GrammarView::Sequence {
                elements: Seq::empty()
                    .push(GrammarView::Text { template: "WITH"@, becomes: SyntaxKind::Keyword })
                    .push(
                        GrammarView::Text {
                            template: "DBPROPERTIES"@,
                            becomes: SyntaxKind::Keyword,
                        },
                    )
                    .push(
                        GrammarView::Ref { name: "BracketedPropertyListGrammar"@, exclude: None },
                    ),
            }) }),
    }
}

/// The grammar of `CreateDatabaseStatementSegment`.
pub fn create_database_statement_segment() -> (r: Grammar)
    ensures
        grammar_view(r) == create_database_statement_segment_view(),
{
    Grammar::sequence_of(
        GrammarList::new()
            .and(Grammar::keyword("CREATE"))
            .and(Grammar::first_of(
                GrammarList::new()
                    .and(Grammar::keyword("DATABASE"))
                    .and(Grammar::keyword("SCHEMA")),
            ))
            .and(Grammar::reference("IfNotExistsGrammar").optional())
            .and(Grammar::reference("DatabaseReferenceSegment"))
            .and(Grammar::reference("CommentGrammar").optional())
            .and(Grammar::reference("LocationGrammar").optional())
            .and(Grammar::sequence_of(
                GrammarList::new()
                    .and(Grammar::keyword("WITH"))
                    .and(Grammar::keyword("DBPROPERTIES"))
                    .and(Grammar::reference("BracketedPropertyListGrammar")),
            ).optional()),
    )
}

/// Replaces the grammar of `CreateDatabaseStatementSegment`.
pub open spec fn replace_create_database_statement_segment_view(
    dialect: DialectView,
) -> Result<DialectView, DialectError> {
    with_replaced(
        dialect,
        "CreateDatabaseStatementSegment"@,
        create_database_statement_segment_view(),
    )
}

/// Replaces the grammar of `CreateDatabaseStatementSegment`.
pub fn replace_create_database_statement_segment(
    dialect: Dialect,
) -> (r: Result<Dialect, DialectError>)
    ensures
        outcome_view(r) == replace_create_database_statement_segment_view(dialect.deep_view()),
{
    let mut dialect = dialect;
    match dialect.replace_grammar(
        "CreateDatabaseStatementSegment",
        create_database_statement_segment(),
    ) {
        Ok(()) => Ok(dialect),
        Err(e) => Err(e),
    }
}

/// The grammar of `CreateFunctionStatementSegment`.
pub open spec fn create_function_statement_segment_view() -> GrammarView {
    GrammarView::Sequence {
        elements: Seq::empty()
            .push(GrammarView::Text { template: "CREATE"@, becomes: SyntaxKind::Keyword })
            .push(GrammarView::Optional { inner: Box::new(GrammarView::Sequence {
                elements: Seq::empty()
                    .push(GrammarView::Text { template: "OR"@, becomes: SyntaxKind::Keyword })
                    .push(GrammarView::Text { template: "REPLACE"@, becomes: SyntaxKind::Keyword }),
            }) })
            .push(
                GrammarView::Optional { inner: Box::new(
                    GrammarView::Ref { name: "TemporaryGrammar"@, exclude: None },
                ) },
            )
            .push(GrammarView::Text { template: "FUNCTION"@, becomes: SyntaxKind::Keyword })
            .push(
                GrammarView::Optional { inner: Box::new(
                    GrammarView::Ref { name: "IfNotExistsGrammar"@, exclude: None },
                ) },
            )
            .push(GrammarView::Ref { name: "FunctionNameIdentifierSegment"@, exclude: None })
            .push(GrammarView::Text { template: "AS"@, becomes: SyntaxKind::Keyword })
            .push(GrammarView::Ref { name: "QuotedLiteralSegment"@, exclude: None })
            .push(
                GrammarView::Optional { inner: Box::new(
                    GrammarView::Ref { name: "ResourceLocationGrammar"@, exclude: None },
                ) },
            ),
    }
}

/// The grammar of `CreateFunctionStatementSegment`.
pub fn create_function_statement_segment() -> (r: Grammar)
    ensures
        grammar_view(r) == create_function_statement_segment_view(),
{
    Grammar::sequence_of(
        GrammarList::new()
            .and(Grammar::keyword("CREATE"))
            .and(Grammar::sequence_of(
                GrammarList::new()
                    .and(Grammar::keyword("OR"))
                    .and(Grammar::keyword("REPLACE")),
            ).optional())
            .and(Grammar::reference("TemporaryGrammar").optional())
            .and(Grammar::keyword("FUNCTION"))
            .and(Grammar::reference("IfNotExistsGrammar").optional())
            .and(Grammar::reference("FunctionNameIdentifierSegment"))
            .and(Grammar::keyword("AS"))
            .and(Grammar::reference("QuotedLiteralSegment"))
            .and(Grammar::reference("ResourceLocationGrammar").optional()),
    )
}

/// Replaces the grammar of `CreateFunctionStatementSegment`.
pub open spec fn replace_create_function_statement_segment_view(
    dialect: DialectView,
) -> Result<DialectView, DialectError> {
    with_replaced(
        dialect,
        "CreateFunctionStatementSegment"@,
        create_function_statement_segment_view(),
    )
}

/// Replaces the grammar of `CreateFunctionStatementSegment`.
pub fn replace_create_function_statement_segment(
    dialect: Dialect,
) -> (r: Result<Dialect, DialectError>)
    ensures
        outcome_view(r) == replace_create_function_statement_segment_view(dialect.deep_view()),
{
    let mut dialect = dialect;
    match dialect.replace_grammar(
        "CreateFunctionStatementSegment",
        create_function_statement_segment(),
    ) {
        Ok(()) => Ok(dialect),
        Err(e) => Err(e),
    }
}

/// The grammar of `CreateTableStatementSegment`.
pub open spec fn create_table_statement_segment_view() -> GrammarView {
    GrammarView::Sequence {
        elements: Seq::empty()
            .push(GrammarView::Text { template: "CREATE"@, becomes: SyntaxKind::Keyword })
            .push(GrammarView::Ref { name: "TableDefinitionSegment"@, exclude: None }),
    }
}

/// The grammar of `CreateTableStatementSegment`.
pub fn create_table_statement_segment() -> (r: Grammar)
    ensures
        grammar_view(r) == create_table_statement_segment_view(),
{
    Grammar::sequence_of(
        GrammarList::new()
            .and(Grammar::keyword("CREATE"))
            .and(Grammar::reference("TableDefinitionSegment")),
    )
}

/// Replaces the grammar of `CreateTableStatementSegment`.
pub open spec fn replace_create_table_statement_segment_view(
    dialect: DialectView,
) -> Result<DialectView, DialectError> {
    with_replaced(dialect, "CreateTableStatementSegment"@, create_table_statement_segment_view())
}

/// Replaces the grammar of `CreateTableStatementSegment`.
pub fn replace_create_table_statement_segment(
    dialect: Dialect,
) -> (r: Result<Dialect, DialectError>)
    ensures
        outcome_view(r) == replace_create_table_statement_segment_view(dialect.deep_view()),
{
    let mut dialect = dialect;
    match dialect.replace_grammar("CreateTableStatementSegment", create_table_statement_segment()) {
        Ok(()) => Ok(dialect),
        Err(e) => Err(e),
    }
}

/// Binds `CreateHiveFormatTableStatementSegment`.
pub open spec fn define_create_hive_format_table_statement_segment_view(
    dialect: DialectView,
    hive: DialectView,
) -> Result<DialectView, DialectError> {
    match known(lookup_rule(hive.library, "CreateTableStatementSegment"@)) {
        Err(e) => Err(e),
        Ok(base) => {
            let dialect = with_rule(dialect, "CreateHiveFormatTableStatementSegment"@, base);
            Ok(dialect)
        },
    }
}

/// Binds `CreateHiveFormatTableStatementSegment`.
pub fn define_create_hive_format_table_statement_segment(
    dialect: Dialect,
    hive: &Dialect,
) -> (r: Result<Dialect, DialectError>)
    ensures
        outcome_view(r) == define_create_hive_format_table_statement_segment_view(
            dialect.deep_view(),
            hive.deep_view(),
        ),
{
    let mut dialect = dialect;
    let base = match hive.rule_grammar("CreateTableStatementSegment") {
        Some(base) => base,
        None => {
            return Err(DialectError::UnknownRule);
        },
    };
    dialect.define("CreateHiveFormatTableStatementSegment", base);
    Ok(dialect)
}

/// The grammar of `CreateViewStatementSegment`.
pub open spec fn create_view_statement_segment_view() -> GrammarView {
    GrammarView::Sequence {
        elements: Seq::empty()
            .push(GrammarView::Text { template: "CREATE"@, becomes: SyntaxKind::Keyword })
            .push(GrammarView::Optional { inner: Box::new(GrammarView::OneOf {
                options: Seq::empty()
                    .push(GrammarView::Ref { name: "OrReplaceGrammar"@, exclude: None })
                    .push(GrammarView::Ref { name: "OrRefreshGrammar"@, exclude: None }),
            }) })
            .push(
                GrammarView::Optional { inner: Box::new(
                    GrammarView::Ref { name: "TemporaryGrammar"@, exclude: None },
                ) },
            )
            .push(
                GrammarView::Optional { inner: Box::new(
                    GrammarView::Text { template: "STREAMING"@, becomes: SyntaxKind::Keyword },
                ) },
            )
            .push(
                GrammarView::Optional { inner: Box::new(
                    GrammarView::Text { template: "LIVE"@, becomes: SyntaxKind::Keyword },
                ) },
            )
            .push(GrammarView::Text { template: "VIEW"@, becomes: SyntaxKind::Keyword })
            .push(
                GrammarView::Optional { inner: Box::new(
                    GrammarView::Ref { name: "IfNotExistsGrammar"@, exclude: None },
                ) },
            )
            .push(GrammarView::Ref { name: "TableReferenceSegment"@, exclude: None })
            .push(GrammarView::Optional { inner: Box::new(GrammarView::Sequence {
                elements: Seq::empty()
                    .push(GrammarView::Bracketed {
                        elements: Seq::empty()
                            .push(GrammarView::Delimited {
                                options: Seq::empty()
                                    .push(GrammarView::Sequence {
                                        elements: Seq::empty()
                                            .push(
                                                GrammarView::Ref {
                                                    name: "ColumnReferenceSegment"@,
                                                    exclude: None,
                                                },
                                            )
                                            .push(
                                                GrammarView::Optional { inner: Box::new(
                                                    GrammarView::Ref {
                                                        name: "CommentGrammar"@,
                                                        exclude: None,
                                                    },
                                                ) },
                                            ),
                                    }),
                                delimiter: Box::new(
                                    GrammarView::Ref { name: "CommaSegment"@, exclude: None },
                                ),
                                min_delimiters: 0,
                                allow_trailing: false,
                            }),
                        bracket_type: "round"@,
                        parse_mode: ParseMode::Strict,
                    }),
            }) })
            .push(GrammarView::Optional { inner: Box::new(GrammarView::Sequence {
                elements: Seq::empty()
                    .push(GrammarView::Text { template: "USING"@, becomes: SyntaxKind::Keyword })
                    .push(GrammarView::Ref { name: "DataSourceFormatSegment"@, exclude: None }),
            }) })
            .push(
                GrammarView::Optional { inner: Box::new(
                    GrammarView::Ref { name: "OptionsGrammar"@, exclude: None },
                ) },
            )
            .push(
                GrammarView::Optional { inner: Box::new(
                    GrammarView::Ref { name: "CommentGrammar"@, exclude: None },
                ) },
            )
            .push(
                GrammarView::Optional { inner: Box::new(
                    GrammarView::Ref { name: "TablePropertiesGrammar"@, exclude: None },
                ) },
            )
            .push(GrammarView::Optional { inner: Box::new(GrammarView::Sequence {
                elements: Seq::empty()
                    .push(GrammarView::Text { template: "AS"@, becomes: SyntaxKind::Keyword })
                    .push(GrammarView::OneOf {
                        options: Seq::empty()
                            .push(GrammarView::Bracketed {
                                elements: Seq::empty()
                                    .push(
                                        GrammarView::Ref {
                                            name: "SelectableGrammar"@,
                                            exclude: None,
                                        },
                                    ),
                                bracket_type: "round"@,
                                parse_mode: ParseMode::Strict,
                            })
                            .push(GrammarView::Ref { name: "SelectableGrammar"@, exclude: None }),
                    }),
            }) })
            .push(
                GrammarView::Optional { inner: Box::new(
                    GrammarView::Ref { name: "WithNoSchemaBindingClauseSegment"@, exclude: None },
                ) },
            ),
    }
}

/// The grammar of `CreateViewStatementSegment`.
pub fn create_view_statement_segment() -> (r: Grammar)
    ensures
        grammar_view(r) == create_view_statement_segment_view(),
{
    Grammar::sequence_of(
        GrammarList::new()
            .and(Grammar::keyword("CREATE"))
            .and(Grammar::first_of(
                GrammarList::new()
                    .and(Grammar::reference("OrReplaceGrammar"))
                    .and(Grammar::reference("OrRefreshGrammar")),
            ).optional())
            .and(Grammar::reference("TemporaryGrammar").optional())
            .and(Grammar::keyword("STREAMING").optional())
            .and(Grammar::keyword("LIVE").optional())
            .and(Grammar::keyword("VIEW"))
            .and(Grammar::reference("IfNotExistsGrammar").optional())
            .and(Grammar::reference("TableReferenceSegment"))
            .and(Grammar::sequence_of(
                GrammarList::new()
                    .and(Grammar::bracketed_by(
                        GrammarList::new()
                            .and(Grammar::delimited_by(
                                GrammarList::new()
                                    .and(Grammar::sequence_of(
                                        GrammarList::new()
                                            .and(Grammar::reference("ColumnReferenceSegment"))
                                            .and(Grammar::reference("CommentGrammar").optional()),
                                    )),
                                Grammar::reference("CommaSegment"),
                                0,
                                false,
                            )),
                        "round",
                        ParseMode::Strict,
                    )),
            ).optional())
            .and(Grammar::sequence_of(
                GrammarList::new()
                    .and(Grammar::keyword("USING"))
                    .and(Grammar::reference("DataSourceFormatSegment")),
            ).optional())
            .and(Grammar::reference("OptionsGrammar").optional())
            .and(Grammar::reference("CommentGrammar").optional())
            .and(Grammar::reference("TablePropertiesGrammar").optional())
            .and(Grammar::sequence_of(
                GrammarList::new()
                    .and(Grammar::keyword("AS"))
                    .and(Grammar::first_of(
                        GrammarList::new()
                            .and(Grammar::bracketed_by(
                                GrammarList::new()
                                    .and(Grammar::reference("SelectableGrammar")),
                                "round",
                                ParseMode::Strict,
                            ))
                            .and(Grammar::reference("SelectableGrammar")),
                    )),
            ).optional())
            .and(Grammar::reference("WithNoSchemaBindingClauseSegment").optional()),
    )
}

/// Replaces the grammar of `CreateViewStatementSegment`.
pub open spec fn replace_create_view_statement_segment_view(
    dialect: DialectView,
) -> Result<DialectView, DialectError> {
    with_replaced(dialect, "CreateViewStatementSegment"@, create_view_statement_segment_view())
}

/// Replaces the grammar of `CreateViewStatementSegment`.
pub fn replace_create_view_statement_segment(dialect: Dialect) -> (r: Result<Dialect, DialectError>)
    ensures
        outcome_view(r) == replace_create_view_statement_segment_view(dialect.deep_view()),
{
    let mut dialect = dialect;
    match dialect.replace_grammar("CreateViewStatementSegment", create_view_statement_segment()) {
        Ok(()) => Ok(dialect),
        Err(e) => Err(e),
    }
}

/// The grammar of `CreateWidgetStatementSegment`.
pub open spec fn create_widget_statement_segment_view() -> GrammarView {
    GrammarView::Node {
        kind: SyntaxKind::CreateWidgetStatement,
        inner: Box::new(GrammarView::Sequence {
            elements: Seq::empty()
                .push(GrammarView::Text { template: "CREATE"@, becomes: SyntaxKind::Keyword })
                .push(GrammarView::Text { template: "WIDGET"@, becomes: SyntaxKind::Keyword })
                .push(GrammarView::OneOf {
                    options: Seq::empty()
                        .push(GrammarView::Sequence {
                            elements: Seq::empty()
                                .push(
                                    GrammarView::Text {
                                        template: "DROPDOWN"@,
                                        becomes: SyntaxKind::Keyword,
                                    },
                                )
                                .push(
                                    GrammarView::Ref {
                                        name: "WidgetNameIdentifierSegment"@,
                                        exclude: None,
                                    },
                                )
                                .push(
                                    GrammarView::Ref {
                                        name: "WidgetDefaultGrammar"@,
                                        exclude: None,
                                    },
                                )
                                .push(GrammarView::Sequence {
                                    elements: Seq::empty()
                                        .push(
                                            GrammarView::Text {
                                                template: "CHOICES"@,
                                                becomes: SyntaxKind::Keyword,
                                            },
                                        )
                                        .push(
                                            GrammarView::Ref {
                                                name: "SelectStatementSegment"@,
                                                exclude: None,
                                            },
                                        ),
                                }),
                        })
                        .push(GrammarView::Sequence {
                            elements: Seq::empty()
                                .push(
                                    GrammarView::Text {
                                        template: "TEXT"@,
                                        becomes: SyntaxKind::Keyword,
                                    },
                                )
                                .push(
                                    GrammarView::Ref {
                                        name: "WidgetNameIdentifierSegment"@,
                                        exclude: None,
                                    },
                                )
                                .push(
                                    GrammarView::Ref {
                                        name: "WidgetDefaultGrammar"@,
                                        exclude: None,
                                    },
                                ),
                        }),
                }),
        }),
    }
}

/// The grammar of `CreateWidgetStatementSegment`.
pub fn create_widget_statement_segment() -> (r: Grammar)
    ensures
        grammar_view(r) == create_widget_statement_segment_view(),
{
    Grammar::sequence_of(
        GrammarList::new()
            .and(Grammar::keyword("CREATE"))
            .and(Grammar::keyword("WIDGET"))
            .and(Grammar::first_of(
                GrammarList::new()
                    .and(Grammar::sequence_of(
                        GrammarList::new()
                            .and(Grammar::keyword("DROPDOWN"))
                            .and(Grammar::reference("WidgetNameIdentifierSegment"))
                            .and(Grammar::reference("WidgetDefaultGrammar"))
                            .and(Grammar::sequence_of(
                                GrammarList::new()
                                    .and(Grammar::keyword("CHOICES"))
                                    .and(Grammar::reference("SelectStatementSegment")),
                            )),
                    ))
                    .and(Grammar::sequence_of(
                        GrammarList::new()
                            .and(Grammar::keyword("TEXT"))
                            .and(Grammar::reference("WidgetNameIdentifierSegment"))
                            .and(Grammar::reference("WidgetDefaultGrammar")),
                    )),
            )),
    ).node(SyntaxKind::CreateWidgetStatement)
}

/// The grammar of `ReplaceTableStatementSegment`.
pub open spec fn replace_table_statement_segment_view() -> GrammarView {
    GrammarView::Node {
        kind: SyntaxKind::ReplaceTableStatement,
        inner: Box::new(GrammarView::Sequence {
            elements: Seq::empty()
                .push(GrammarView::Text { template: "REPLACE"@, becomes: SyntaxKind::Keyword })
                .push(GrammarView::Ref { name: "TableDefinitionSegment"@, exclude: None }),
        }),
    }
}

/// The grammar of `ReplaceTableStatementSegment`.
pub fn replace_table_statement_segment() -> (r: Grammar)
    ensures
        grammar_view(r) == replace_table_statement_segment_view(),
{
    Grammar::sequence_of(
        GrammarList::new()
            .and(Grammar::keyword("REPLACE"))
            .and(Grammar::reference("TableDefinitionSegment")),
    ).node(SyntaxKind::ReplaceTableStatement)
}

/// The grammar of `RemoveWidgetStatementSegment`.
pub open spec fn remove_widget_statement_segment_view() -> GrammarView {
    GrammarView::Node {
        kind: SyntaxKind::RemoveWidgetStatement,
        inner: Box::new(GrammarView::Sequence {
            elements: Seq::empty()
                .push(GrammarView::Text { template: "REMOVE"@, becomes: SyntaxKind::Keyword })
                .push(GrammarView::Text { template: "WIDGET"@, becomes: SyntaxKind::Keyword })
                .push(GrammarView::Ref { name: "WidgetNameIdentifierSegment"@, exclude: None }),
        }),
    }
}

/// The grammar of `RemoveWidgetStatementSegment`.
pub fn remove_widget_statement_segment() -> (r: Grammar)
    ensures
        grammar_view(r) == remove_widget_statement_segment_view(),
{
    Grammar::sequence_of(
        GrammarList::new()
            .and(Grammar::keyword("REMOVE"))
            .and(Grammar::keyword("WIDGET"))
            .and(Grammar::reference("WidgetNameIdentifierSegment")),
    ).node(SyntaxKind::RemoveWidgetStatement)
}

/// Binds `CreateWidgetStatementSegment`, `ReplaceTableStatementSegment`,
/// `RemoveWidgetStatementSegment`.
pub open spec fn define_create_widget_statement_segment_etc_view(
    dialect: DialectView,
) -> DialectView {
    let dialect = with_rule(
        dialect,
        "CreateWidgetStatementSegment"@,
        create_widget_statement_segment_view(),
    );
    let dialect = with_rule(
        dialect,
        "ReplaceTableStatementSegment"@,
        replace_table_statement_segment_view(),
    );
    let dialect = with_rule(
        dialect,
        "RemoveWidgetStatementSegment"@,
        remove_widget_statement_segment_view(),
    );
    dialect
}

/// Binds `CreateWidgetStatementSegment`, `ReplaceTableStatementSegment`,
/// `RemoveWidgetStatementSegment`.
pub fn define_create_widget_statement_segment_etc(dialect: Dialect) -> (r: Dialect)
    ensures
        r.deep_view() == define_create_widget_statement_segment_etc_view(dialect.deep_view()),
{
    let mut dialect = dialect;
    dialect.define("CreateWidgetStatementSegment", create_widget_statement_segment());
    dialect.define("ReplaceTableStatementSegment", replace_table_statement_segment());
    dialect.define("RemoveWidgetStatementSegment", remove_widget_statement_segment());
    dialect
}

/// The grammar of `DropDatabaseStatementSegment`.
pub open spec fn drop_database_statement_segment_view() -> GrammarView {
    GrammarView::Sequence {
        elements: Seq::empty()
            .push(GrammarView::Text { template: "DROP"@, becomes: SyntaxKind::Keyword })
            .push(GrammarView::OneOf {
                options: Seq::empty()
                    .push(GrammarView::Text { template: "DATABASE"@, becomes: SyntaxKind::Keyword })
                    .push(GrammarView::Text { template: "SCHEMA"@, becomes: SyntaxKind::Keyword }),
            })
            .push(
                GrammarView::Optional { inner: Box::new(
                    GrammarView::Ref { name: "IfExistsGrammar"@, exclude: None },
                ) },
            )
            .push(GrammarView::Ref { name: "DatabaseReferenceSegment"@, exclude: None })
            .push(
                GrammarView::Optional { inner: Box::new(
                    GrammarView::Ref { name: "DropBehaviorGrammar"@, exclude: None },
                ) },
            ),
    }
}

/// The grammar of `DropDatabaseStatementSegment`.
pub fn drop_database_statement_segment() -> (r: Grammar)
    ensures
        grammar_view(r) == drop_database_statement_segment_view(),
{
    Grammar::sequence_of(
        GrammarList::new()
            .and(Grammar::keyword("DROP"))
            .and(Grammar::first_of(
                GrammarList::new()
                    .and(Grammar::keyword("DATABASE"))
                    .and(Grammar::keyword("SCHEMA")),
            ))
            .and(Grammar::reference("IfExistsGrammar").optional())
            .and(Grammar::reference("DatabaseReferenceSegment"))
            .and(Grammar::reference("DropBehaviorGrammar").optional()),
    )
}

/// Replaces the grammar of `DropDatabaseStatementSegment`.
pub open spec fn replace_drop_database_statement_segment_view(
    dialect: DialectView,
) -> Result<DialectView, DialectError> {
    with_replaced(dialect, "DropDatabaseStatementSegment"@, drop_database_statement_segment_view())
}

/// Replaces the grammar of `DropDatabaseStatementSegment`.
pub fn replace_drop_database_statement_segment(
    dialect: Dialect,
) -> (r: Result<Dialect, DialectError>)
    ensures
        outcome_view(r) == replace_drop_database_statement_segment_view(dialect.deep_view()),
{
    let mut dialect = dialect;
    match dialect.replace_grammar(
        "DropDatabaseStatementSegment",
        drop_database_statement_segment(),
    ) {
        Ok(()) => Ok(dialect),
        Err(e) => Err(e),
    }
}

/// The grammar of `DropFunctionStatementSegment`.
pub open spec fn drop_function_statement_segment_view() -> GrammarView {
    GrammarView::Node {
        kind: SyntaxKind::DropFunctionStatement,
        inner: Box::new(GrammarView::Sequence {
            elements: Seq::empty()
                .push(GrammarView::Text { template: "DROP"@, becomes: SyntaxKind::Keyword })
                .push(
                    GrammarView::Optional { inner: Box::new(
                        GrammarView::Ref { name: "TemporaryGrammar"@, exclude: None },
                    ) },
                )
                .push(GrammarView::Text { template: "FUNCTION"@, becomes: SyntaxKind::Keyword })
                .push(
                    GrammarView::Optional { inner: Box::new(
                        GrammarView::Ref { name: "IfExistsGrammar"@, exclude: None },
                    ) },
                )
                .push(GrammarView::Ref { name: "FunctionNameSegment"@, exclude: None }),
        }),
    }
}

/// The grammar of `DropFunctionStatementSegment`.
pub fn drop_function_statement_segment() -> (r: Grammar)
    ensures
        grammar_view(r) == drop_function_statement_segment_view(),
{
    Grammar::sequence_of(
        GrammarList::new()
            .and(Grammar::keyword("DROP"))
            .and(Grammar::reference("TemporaryGrammar").optional())
            .and(Grammar::keyword("FUNCTION"))
            .and(Grammar::reference("IfExistsGrammar").optional())
            .and(Grammar::reference("FunctionNameSegment")),
    ).node(SyntaxKind::DropFunctionStatement)
}

/// Binds `DropFunctionStatementSegment`.
pub open spec fn define_drop_function_statement_segment_view(dialect: DialectView) -> DialectView {
    with_rule(dialect, "DropFunctionStatementSegment"@, drop_function_statement_segment_view())
}

/// Binds `DropFunctionStatementSegment`.
pub fn define_drop_function_statement_segment(dialect: Dialect) -> (r: Dialect)
    ensures
        r.deep_view() == define_drop_function_statement_segment_view(dialect.deep_view()),
{
    let mut dialect = dialect;
    dialect.define("DropFunctionStatementSegment", drop_function_statement_segment());
    dialect
}

/// Binds `MsckRepairTableStatementSegment`.
pub open spec fn define_msck_repair_table_statement_segment_view(
    dialect: DialectView,
    hive: DialectView,
) -> Result<DialectView, DialectError> {
    match known(lookup_rule(hive.library, "MsckRepairTableStatementSegment"@)) {
        Err(e) => Err(e),
        Ok(base) => {
            let dialect = with_rule(dialect, "MsckRepairTableStatementSegment"@, base);
            Ok(dialect)
        },
    }
}

/// Binds `MsckRepairTableStatementSegment`.
pub fn define_msck_repair_table_statement_segment(
    dialect: Dialect,
    hive: &Dialect,
) -> (r: Result<Dialect, DialectError>)
    ensures
        outcome_view(r) == define_msck_repair_table_statement_segment_view(
            dialect.deep_view(),
            hive.deep_view(),
        ),
{
    let mut dialect = dialect;
    let base = match hive.rule_grammar("MsckRepairTableStatementSegment") {
        Some(base) => base,
        None => {
            return Err(DialectError::UnknownRule);
        },
    };
    dialect.define("MsckRepairTableStatementSegment", base);
    Ok(dialect)
}

/// The grammar of `TruncateStatementSegment`.
pub open spec fn truncate_statement_segment_view() -> GrammarView {
    GrammarView::Sequence {
        elements: Seq::empty()
            .push(GrammarView::Text { template: "TRUNCATE"@, becomes: SyntaxKind::Keyword })
            .push(GrammarView::Text { template: "TABLE"@, becomes: SyntaxKind::Keyword })
            .push(GrammarView::Ref { name: "TableReferenceSegment"@, exclude: None })
            .push(
                GrammarView::Optional { inner: Box::new(
                    GrammarView::Ref { name: "PartitionSpecGrammar"@, exclude: None },
                ) },
            ),
    }
}

/// The grammar of `TruncateStatementSegment`.
pub fn truncate_statement_segment() -> (r: Grammar)
    ensures
        grammar_view(r) == truncate_statement_segment_view(),
{
    Grammar::sequence_of(
        GrammarList::new()
            .and(Grammar::keyword("TRUNCATE"))
            .and(Grammar::keyword("TABLE"))
            .and(Grammar::reference("TableReferenceSegment"))
            .and(Grammar::reference("PartitionSpecGrammar").optional()),
    )
}

/// Replaces the grammar of `TruncateStatementSegment`.
pub open spec fn replace_truncate_statement_segment_view(
    dialect: DialectView,
) -> Result<DialectView, DialectError> {
    with_replaced(dialect, "TruncateStatementSegment"@, truncate_statement_segment_view())
}

/// Replaces the grammar of `TruncateStatementSegment`.
pub fn replace_truncate_statement_segment(dialect: Dialect) -> (r: Result<Dialect, DialectError>)
    ensures
        outcome_view(r) == replace_truncate_statement_segment_view(dialect.deep_view()),
{
    let mut dialect = dialect;
    match dialect.replace_grammar("TruncateStatementSegment", truncate_statement_segment()) {
        Ok(()) => Ok(dialect),
        Err(e) => Err(e),
    }
}

/// The grammar of `UseDatabaseStatementSegment`.
pub open spec fn use_database_statement_segment_view() -> GrammarView {
    GrammarView::Node {
        kind: SyntaxKind::UseDatabaseStatement,
        inner: Box::new(GrammarView::Sequence {
            elements: Seq::empty()
                .push(GrammarView::Text { template: "USE"@, becomes: SyntaxKind::Keyword })
                .push(GrammarView::Ref { name: "DatabaseReferenceSegment"@, exclude: None }),
        }),
    }
}

/// The grammar of `UseDatabaseStatementSegment`.
pub fn use_database_statement_segment() -> (r: Grammar)
    ensures
        grammar_view(r) == use_database_statement_segment_view(),
{
    Grammar::sequence_of(
        GrammarList::new()
            .and(Grammar::keyword("USE"))
            .and(Grammar::reference("DatabaseReferenceSegment")),
    ).node(SyntaxKind::UseDatabaseStatement)
}

/// The grammar of `InsertStatementSegment`.
pub open spec fn insert_statement_segment_view() -> GrammarView {
    GrammarView::Node {
        kind: SyntaxKind::InsertStatement,
        inner: Box::new(GrammarView::Sequence {
            elements: Seq::empty()
                .push(GrammarView::Text { template: "INSERT"@, becomes: SyntaxKind::Keyword })
                .push(GrammarView::OneOf {
                    options: Seq::empty()
                        .push(GrammarView::Text { template: "INTO"@, becomes: SyntaxKind::Keyword })
                        .push(
                            GrammarView::Text {
                                template: "OVERWRITE"@,
                                becomes: SyntaxKind::Keyword,
                            },
                        ),
                })
                .push(
                    GrammarView::Optional { inner: Box::new(
                        GrammarView::Text { template: "TABLE"@, becomes: SyntaxKind::Keyword },
                    ) },
                )
                .push(GrammarView::Ref { name: "TableReferenceSegment"@, exclude: None })
                .push(
                    GrammarView::Optional { inner: Box::new(
                        GrammarView::Ref { name: "PartitionSpecGrammar"@, exclude: None },
                    ) },
                )
                .push(
                    GrammarView::Optional { inner: Box::new(
                        GrammarView::Ref {
                            name: "BracketedColumnReferenceListGrammar"@,
                            exclude: None,
                        },
                    ) },
                )
                .push(GrammarView::OneOf {
                    options: Seq::empty()
                        .push(GrammarView::AnyNumberOf {
                            options: Seq::empty()
                                .push(
                                    GrammarView::Ref {
                                        name: "ValuesClauseSegment"@,
                                        exclude: None,
                                    },
                                ),
                            min_times: 1,
                            max_times: None,
                            max_times_per_element: None,
                        })
                        .push(GrammarView::Ref { name: "SelectableGrammar"@, exclude: None })
                        .push(GrammarView::Sequence {
                            elements: Seq::empty()
                                .push(
                                    GrammarView::Optional { inner: Box::new(
                                        GrammarView::Text {
                                            template: "TABLE"@,
                                            becomes: SyntaxKind::Keyword,
                                        },
                                    ) },
                                )
                                .push(
                                    GrammarView::Ref {
                                        name: "TableReferenceSegment"@,
                                        exclude: None,
                                    },
                                ),
                        })
                        .push(GrammarView::Sequence {
                            elements: Seq::empty()
                                .push(
                                    GrammarView::Text {
                                        template: "FROM"@,
                                        becomes: SyntaxKind::Keyword,
                                    },
                                )
                                .push(
                                    GrammarView::Ref {
                                        name: "TableReferenceSegment"@,
                                        exclude: None,
                                    },
                                )
                                .push(
                                    GrammarView::Text {
                                        template: "SELECT"@,
                                        becomes: SyntaxKind::Keyword,
                                    },
                                )
                                .push(GrammarView::Delimited {
                                    options: Seq::empty()
                                        .push(
                                            GrammarView::Ref {
                                                name: "ColumnReferenceSegment"@,
                                                exclude: None,
                                            },
                                        ),
                                    delimiter: Box::new(
                                        GrammarView::Ref { name: "CommaSegment"@, exclude: None },
                                    ),
                                    min_delimiters: 0,
                                    allow_trailing: false,
                                })
                                .push(
                                    GrammarView::Optional { inner: Box::new(
                                        GrammarView::Ref {
                                            name: "WhereClauseSegment"@,
                                            exclude: None,
                                        },
                                    ) },
                                )
                                .push(
                                    GrammarView::Optional { inner: Box::new(
                                        GrammarView::Ref {
                                            name: "GroupByClauseSegment"@,
                                            exclude: None,
                                        },
                                    ) },
                                )
                                .push(
                                    GrammarView::Optional { inner: Box::new(
                                        GrammarView::Ref {
                                            name: "OrderByClauseSegment"@,
                                            exclude: None,
                                        },
                                    ) },
                                )
                                .push(
                                    GrammarView::Optional { inner: Box::new(
                                        GrammarView::Ref {
                                            name: "LimitClauseSegment"@,
                                            exclude: None,
                                        },
                                    ) },
                                ),
                        }),
                }),
        }),
    }
}

/// The grammar of `InsertStatementSegment`.
pub fn insert_statement_segment() -> (r: Grammar)
    ensures
        grammar_view(r) == insert_statement_segment_view(),
{
    Grammar::sequence_of(
        GrammarList::new()
            .and(Grammar::keyword("INSERT"))
            .and(Grammar::first_of(
                GrammarList::new()
                    .and(Grammar::keyword("INTO"))
                    .and(Grammar::keyword("OVERWRITE")),
            ))
            .and(Grammar::keyword("TABLE").optional())
            .and(Grammar::reference("TableReferenceSegment"))
            .and(Grammar::reference("PartitionSpecGrammar").optional())
            .and(Grammar::reference("BracketedColumnReferenceListGrammar").optional())
            .and(Grammar::first_of(
                GrammarList::new()
                    .and(Grammar::repeated(
                        GrammarList::new()
                            .and(Grammar::reference("ValuesClauseSegment")),
                        1,
                        None,
                        None,
                    ))
                    .and(Grammar::reference("SelectableGrammar"))
                    .and(Grammar::sequence_of(
                        GrammarList::new()
                            .and(Grammar::keyword("TABLE").optional())
                            .and(Grammar::reference("TableReferenceSegment")),
                    ))
                    .and(Grammar::sequence_of(
                        GrammarList::new()
                            .and(Grammar::keyword("FROM"))
                            .and(Grammar::reference("TableReferenceSegment"))
                            .and(Grammar::keyword("SELECT"))
                            .and(Grammar::delimited_by(
                                GrammarList::new()
                                    .and(Grammar::reference("ColumnReferenceSegment")),
                                Grammar::reference("CommaSegment"),
                                0,
                                false,
                            ))
                            .and(Grammar::reference("WhereClauseSegment").optional())
                            .and(Grammar::reference("GroupByClauseSegment").optional())
                            .and(Grammar::reference("OrderByClauseSegment").optional())
                            .and(Grammar::reference("LimitClauseSegment").optional()),
                    )),
            )),
    ).node(SyntaxKind::InsertStatement)
}

/// The grammar of `InsertOverwriteDirectorySegment`.
pub open spec fn insert_overwrite_directory_segment_view() -> GrammarView {
    GrammarView::Node {
        kind: SyntaxKind::InsertOverwriteDirectoryStatement,
        inner: Box::new(GrammarView::Sequence {
            elements: Seq::empty()
                .push(GrammarView::Text { template: "INSERT"@, becomes: SyntaxKind::Keyword })
                .push(GrammarView::Text { template: "OVERWRITE"@, becomes: SyntaxKind::Keyword })
                .push(
                    GrammarView::Optional { inner: Box::new(
                        GrammarView::Text { template: "LOCAL"@, becomes: SyntaxKind::Keyword },
                    ) },
                )
                .push(GrammarView::Text { template: "DIRECTORY"@, becomes: SyntaxKind::Keyword })
                .push(
                    GrammarView::Optional { inner: Box::new(
                        GrammarView::Ref { name: "QuotedLiteralSegment"@, exclude: None },
                    ) },
                )
                .push(GrammarView::Text { template: "USING"@, becomes: SyntaxKind::Keyword })
                .push(GrammarView::Ref { name: "DataSourceFormatSegment"@, exclude: None })
                .push(
                    GrammarView::Optional { inner: Box::new(
                        GrammarView::Ref { name: "OptionsGrammar"@, exclude: None },
                    ) },
                )
                .push(GrammarView::OneOf {
                    options: Seq::empty()
                        .push(GrammarView::AnyNumberOf {
                            options: Seq::empty()
                                .push(
                                    GrammarView::Ref {
                                        name: "ValuesClauseSegment"@,
                                        exclude: None,
                                    },
                                ),
                            min_times: 1,
                            max_times: None,
                            max_times_per_element: None,
                        })
                        .push(GrammarView::Ref { name: "SelectableGrammar"@, exclude: None }),
                }),
        }),
    }
}

/// The grammar of `InsertOverwriteDirectorySegment`.
pub fn insert_overwrite_directory_segment() -> (r: Grammar)
    ensures
        grammar_view(r) == insert_overwrite_directory_segment_view(),
{
    Grammar::sequence_of(
        GrammarList::new()
            .and(Grammar::keyword("INSERT"))
            .and(Grammar::keyword("OVERWRITE"))
            .and(Grammar::keyword("LOCAL").optional())
            .and(Grammar::keyword("DIRECTORY"))
            .and(Grammar::reference("QuotedLiteralSegment").optional())
            .and(Grammar::keyword("USING"))
            .and(Grammar::reference("DataSourceFormatSegment"))
            .and(Grammar::reference("OptionsGrammar").optional())
            .and(Grammar::first_of(
                GrammarList::new()
                    .and(Grammar::repeated(
                        GrammarList::new()
                            .and(Grammar::reference("ValuesClauseSegment")),
                        1,
                        None,
                        None,
                    ))
                    .and(Grammar::reference("SelectableGrammar")),
            )),
    ).node(SyntaxKind::InsertOverwriteDirectoryStatement)
}

/// The grammar of `InsertOverwriteDirectoryHiveFmtSegment`.
pub open spec fn insert_overwrite_directory_hive_fmt_segment_view() -> GrammarView {
    GrammarView::Node {
        kind: SyntaxKind::InsertOverwriteDirectoryHiveFmtStatement,
        inner: Box::new(GrammarView::Sequence {
            elements: Seq::empty()
                .push(GrammarView::Text { template: "INSERT"@, becomes: SyntaxKind::Keyword })
                .push(GrammarView::Text { template: "OVERWRITE"@, becomes: SyntaxKind::Keyword })
                .push(
                    GrammarView::Optional { inner: Box::new(
                        GrammarView::Text { template: "LOCAL"@, becomes: SyntaxKind::Keyword },
                    ) },
                )
                .push(GrammarView::Text { template: "DIRECTORY"@, becomes: SyntaxKind::Keyword })
                .push(GrammarView::Ref { name: "QuotedLiteralSegment"@, exclude: None })
                .push(
                    GrammarView::Optional { inner: Box::new(
                        GrammarView::Ref { name: "RowFormatClauseSegment"@, exclude: None },
                    ) },
                )
                .push(
                    GrammarView::Optional { inner: Box::new(
                        GrammarView::Ref { name: "StoredAsGrammar"@, exclude: None },
                    ) },
                )
                .push(GrammarView::OneOf {
                    options: Seq::empty()
                        .push(GrammarView::AnyNumberOf {
                            options: Seq::empty()
                                .push(
                                    GrammarView::Ref {
                                        name: "ValuesClauseSegment"@,
                                        exclude: None,
                                    },
                                ),
                            min_times: 1,
                            max_times: None,
                            max_times_per_element: None,
                        })
                        .push(GrammarView::Ref { name: "SelectableGrammar"@, exclude: None }),
                }),
        }),
    }
}

/// The grammar of `InsertOverwriteDirectoryHiveFmtSegment`.
pub fn insert_overwrite_directory_hive_fmt_segment() -> (r: Grammar)
    ensures
        grammar_view(r) == insert_overwrite_directory_hive_fmt_segment_view(),
{
    Grammar::sequence_of(
        GrammarList::new()
            .and(Grammar::keyword("INSERT"))
            .and(Grammar::keyword("OVERWRITE"))
            .and(Grammar::keyword("LOCAL").optional())
            .and(Grammar::keyword("DIRECTORY"))
            .and(Grammar::reference("QuotedLiteralSegment"))
            .and(Grammar::reference("RowFormatClauseSegment").optional())
            .and(Grammar::reference("StoredAsGrammar").optional())
            .and(Grammar::first_of(
                GrammarList::new()
                    .and(Grammar::repeated(
                        GrammarList::new()
                            .and(Grammar::reference("ValuesClauseSegment")),
                        1,
                        None,
                        None,
                    ))
                    .and(Grammar::reference("SelectableGrammar")),
            )),
    ).node(SyntaxKind::InsertOverwriteDirectoryHiveFmtStatement)
}

/// The grammar of `LoadDataSegment`.
pub open spec fn load_data_segment_view() -> GrammarView {
    GrammarView::Node {
        kind: SyntaxKind::LoadDataStatement,
        inner: Box::new(GrammarView::Sequence {
            elements: Seq::empty()
                .push(GrammarView::Text { template: "LOAD"@, becomes: SyntaxKind::Keyword })
                .push(GrammarView::Text { template: "DATA"@, becomes: SyntaxKind::Keyword })
                .push(
                    GrammarView::Optional { inner: Box::new(
                        GrammarView::Text { template: "LOCAL"@, becomes: SyntaxKind::Keyword },
                    ) },
                )
                .push(GrammarView::Text { template: "INPATH"@, becomes: SyntaxKind::Keyword })
                .push(GrammarView::Ref { name: "QuotedLiteralSegment"@, exclude: None })
                .push(
                    GrammarView::Optional { inner: Box::new(
                        GrammarView::Text { template: "OVERWRITE"@, becomes: SyntaxKind::Keyword },
                    ) },
                )
                .push(GrammarView::Text { template: "INTO"@, becomes: SyntaxKind::Keyword })
                .push(GrammarView::Text { template: "TABLE"@, becomes: SyntaxKind::Keyword })
                .push(GrammarView::Ref { name: "TableReferenceSegment"@, exclude: None })
                .push(
                    GrammarView::Optional { inner: Box::new(
                        GrammarView::Ref { name: "PartitionSpecGrammar"@, exclude: None },
                    ) },
                ),
        }),
    }
}

/// The grammar of `LoadDataSegment`.
pub fn load_data_segment() -> (r: Grammar)
    ensures
        grammar_view(r) == load_data_segment_view(),
{
    Grammar::sequence_of(
        GrammarList::new()
            .and(Grammar::keyword("LOAD"))
            .and(Grammar::keyword("DATA"))
            .and(Grammar::keyword("LOCAL").optional())
            .and(Grammar::keyword("INPATH"))
            .and(Grammar::reference("QuotedLiteralSegment"))
            .and(Grammar::keyword("OVERWRITE").optional())
            .and(Grammar::keyword("INTO"))
            .and(Grammar::keyword("TABLE"))
            .and(Grammar::reference("TableReferenceSegment"))
            .and(Grammar::reference("PartitionSpecGrammar").optional()),
    ).node(SyntaxKind::LoadDataStatement)
}

/// The grammar of `ClusterByClauseSegment`.
pub open spec fn cluster_by_clause_segment_view() -> GrammarView {
    GrammarView::Node {
        kind: SyntaxKind::ClusterByClause,
        inner: Box::new(GrammarView::Sequence {
            elements: Seq::empty()
                .push(GrammarView::Text { template: "CLUSTER"@, becomes: SyntaxKind::Keyword })
                .push(GrammarView::Text { template: "BY"@, becomes: SyntaxKind::Keyword })
                .push(GrammarView::Meta { kind: SyntaxKind::Indent })
                .push(GrammarView::Delimited {
                    options: Seq::empty()
                        .push(GrammarView::Sequence {
                            elements: Seq::empty()
                                .push(GrammarView::OneOf {
                                    options: Seq::empty()
                                        .push(
                                            GrammarView::Ref {
                                                name: "ColumnReferenceSegment"@,
                                                exclude: None,
                                            },
                                        )
                                        .push(
                                            GrammarView::Ref {
                                                name: "NumericLiteralSegment"@,
                                                exclude: None,
                                            },
                                        )
                                        .push(
                                            GrammarView::Ref {
                                                name: "ExpressionSegment"@,
                                                exclude: None,
                                            },
                                        ),
                                }),
                        }),
                    delimiter: Box::new(GrammarView::Ref { name: "CommaSegment"@, exclude: None }),
                    min_delimiters: 0,
                    allow_trailing: false,
                })
                .push(GrammarView::Meta { kind: SyntaxKind::Dedent }),
        }),
    }
}

/// The grammar of `ClusterByClauseSegment`.
pub fn cluster_by_clause_segment() -> (r: Grammar)
    ensures
        grammar_view(r) == cluster_by_clause_segment_view(),
{
    Grammar::sequence_of(
        GrammarList::new()
            .and(Grammar::keyword("CLUSTER"))
            .and(Grammar::keyword("BY"))
            .and(Grammar::meta(SyntaxKind::Indent))
            .and(Grammar::delimited_by(
                GrammarList::new()
                    .and(Grammar::sequence_of(
                        GrammarList::new()
                            .and(Grammar::first_of(
                                GrammarList::new()
                                    .and(Grammar::reference("ColumnReferenceSegment"))
                                    .and(Grammar::reference("NumericLiteralSegment"))
                                    .and(Grammar::reference("ExpressionSegment")),
                            )),
                    )),
                Grammar::reference("CommaSegment"),
                0,
                false,
            ))
            .and(Grammar::meta(SyntaxKind::Dedent)),
    ).node(SyntaxKind::ClusterByClause)
}

/// The grammar of `DistributeByClauseSegment`.
pub open spec fn distribute_by_clause_segment_view() -> GrammarView {
    GrammarView::Node {
        kind: SyntaxKind::DistributeByClause,
        inner: Box::new(GrammarView::Sequence {
            elements: Seq::empty()
                .push(GrammarView::Text { template: "DISTRIBUTE"@, becomes: SyntaxKind::Keyword })
                .push(GrammarView::Text { template: "BY"@, becomes: SyntaxKind::Keyword })
                .push(GrammarView::Meta { kind: SyntaxKind::Indent })
                .push(GrammarView::Delimited {
                    options: Seq::empty()
                        .push(GrammarView::Sequence {
                            elements: Seq::empty()
                                .push(GrammarView::OneOf {
                                    options: Seq::empty()
                                        .push(
                                            GrammarView::Ref {
                                                name: "ColumnReferenceSegment"@,
                                                exclude: None,
                                            },
                                        )
                                        .push(
                                            GrammarView::Ref {
                                                name: "NumericLiteralSegment"@,
                                                exclude: None,
                                            },
                                        )
                                        .push(
                                            GrammarView::Ref {
                                                name: "ExpressionSegment"@,
                                                exclude: None,
                                            },
                                        ),
                                }),
                        }),
                    delimiter: Box::new(GrammarView::Ref { name: "CommaSegment"@, exclude: None }),
                    min_delimiters: 0,
                    allow_trailing: false,
                })
                .push(GrammarView::Meta { kind: SyntaxKind::Dedent }),
        }),
    }
}

/// The grammar of `DistributeByClauseSegment`.
pub fn distribute_by_clause_segment() -> (r: Grammar)
    ensures
        grammar_view(r) == distribute_by_clause_segment_view(),
{
    Grammar::sequence_of(
        GrammarList::new()
            .and(Grammar::keyword("DISTRIBUTE"))
            .and(Grammar::keyword("BY"))
            .and(Grammar::meta(SyntaxKind::Indent))
            .and(Grammar::delimited_by(
                GrammarList::new()
                    .and(Grammar::sequence_of(
                        GrammarList::new()
                            .and(Grammar::first_of(
                                GrammarList::new()
                                    .and(Grammar::reference("ColumnReferenceSegment"))
                                    .and(Grammar::reference("NumericLiteralSegment"))
                                    .and(Grammar::reference("ExpressionSegment")),
                            )),
                    )),
                Grammar::reference("CommaSegment"),
                0,
                false,
            ))
            .and(Grammar::meta(SyntaxKind::Dedent)),
    ).node(SyntaxKind::DistributeByClause)
}

/// The grammar of `HintFunctionSegment`.
pub open spec fn hint_function_segment_view() -> GrammarView {
    GrammarView::Node {
        kind: SyntaxKind::HintFunction,
        inner: Box::new(GrammarView::Sequence {
            elements: Seq::empty()
                .push(GrammarView::Ref { name: "FunctionNameSegment"@, exclude: None })
                .push(GrammarView::Optional { inner: Box::new(GrammarView::Bracketed {
                    elements: Seq::empty()
                        .push(GrammarView::Delimited {
                            options: Seq::empty()
                                .push(GrammarView::AnyNumberOf {
                                    options: Seq::empty()
                                        .push(
                                            GrammarView::Ref {
                                                name: "SingleIdentifierGrammar"@,
                                                exclude: None,
                                            },
                                        )
                                        .push(
                                            GrammarView::Ref {
                                                name: "NumericLiteralSegment"@,
                                                exclude: None,
                                            },
                                        )
                                        .push(
                                            GrammarView::Ref {
                                                name: "TableReferenceSegment"@,
                                                exclude: None,
                                            },
                                        )
                                        .push(
                                            GrammarView::Ref {
                                                name: "ColumnReferenceSegment"@,
                                                exclude: None,
                                            },
                                        ),
                                    min_times: 1,
                                    max_times: None,
                                    max_times_per_element: None,
                                }),
                            delimiter: Box::new(
                                GrammarView::Ref { name: "CommaSegment"@, exclude: None },
                            ),
                            min_delimiters: 0,
                            allow_trailing: false,
                        }),
                    bracket_type: "round"@,
                    parse_mode: ParseMode::Strict,
                }) }),
        }),
    }
}

/// The grammar of `HintFunctionSegment`.
pub fn hint_function_segment() -> (r: Grammar)
    ensures
        grammar_view(r) == hint_function_segment_view(),
{
    Grammar::sequence_of(
        GrammarList::new()
            .and(Grammar::reference("FunctionNameSegment"))
            .and(Grammar::bracketed_by(
                GrammarList::new()
                    .and(Grammar::delimited_by(
                        GrammarList::new()
                            .and(Grammar::repeated(
                                GrammarList::new()
                                    .and(Grammar::reference("SingleIdentifierGrammar"))
                                    .and(Grammar::reference("NumericLiteralSegment"))
                                    .and(Grammar::reference("TableReferenceSegment"))
                                    .and(Grammar::reference("ColumnReferenceSegment")),
                                1,
                                None,
                                None,
                            )),
                        Grammar::reference("CommaSegment"),
                        0,
                        false,
                    )),
                "round",
                ParseMode::Strict,
            ).optional()),
    ).node(SyntaxKind::HintFunction)
}

/// The grammar of `SelectHintSegment`.
pub open spec fn select_hint_segment_view() -> GrammarView {
    GrammarView::Node {
        kind: SyntaxKind::SelectHint,
        inner: Box::new(GrammarView::Sequence {
            elements: Seq::empty()
                .push(GrammarView::Sequence {
                    elements: Seq::empty()
                        .push(GrammarView::Ref { name: "StartHintSegment"@, exclude: None })
                        .push(GrammarView::Delimited {
                            options: Seq::empty()
                                .push(GrammarView::AnyNumberOf {
                                    options: Seq::empty()
                                        .push(
                                            GrammarView::Ref {
                                                name: "HintFunctionSegment"@,
                                                exclude: None,
                                            },
                                        ),
                                    min_times: 1,
                                    max_times: None,
                                    max_times_per_element: None,
                                }),
                            delimiter: Box::new(
                                GrammarView::Ref { name: "CommaSegment"@, exclude: None },
                            ),
                            min_delimiters: 0,
                            allow_trailing: false,
                        })
                        .push(GrammarView::Ref { name: "EndHintSegment"@, exclude: None }),
                }),
        }),
    }
}

/// The grammar of `SelectHintSegment`.
pub fn select_hint_segment() -> (r: Grammar)
    ensures
        grammar_view(r) == select_hint_segment_view(),
{
    Grammar::sequence_of(
        GrammarList::new()
            .and(Grammar::sequence_of(
                GrammarList::new()
                    .and(Grammar::reference("StartHintSegment"))
                    .and(Grammar::delimited_by(
                        GrammarList::new()
                            .and(Grammar::repeated(
                                GrammarList::new()
                                    .and(Grammar::reference("HintFunctionSegment")),
                                1,
                                None,
                                None,
                            )),
                        Grammar::reference("CommaSegment"),
                        0,
                        false,
                    ))
                    .and(Grammar::reference("EndHintSegment")),
            )),
    ).node(SyntaxKind::SelectHint)
}

/// Binds `UseDatabaseStatementSegment`, `InsertStatementSegment`,
/// `InsertOverwriteDirectorySegment`,
/// `InsertOverwriteDirectoryHiveFmtSegment`, `LoadDataSegment`,
/// `ClusterByClauseSegment`, `DistributeByClauseSegment`,
/// `HintFunctionSegment`, `SelectHintSegment`.
pub open spec fn define_use_database_statement_segment_etc_view(
    dialect: DialectView,
) -> DialectView {
    let dialect = with_rule(
        dialect,
        "UseDatabaseStatementSegment"@,
        use_database_statement_segment_view(),
    );
    let dialect = with_rule(dialect, "InsertStatementSegment"@, insert_statement_segment_view());
    let dialect = with_rule(
        dialect,
        "InsertOverwriteDirectorySegment"@,
        insert_overwrite_directory_segment_view(),
    );
    let dialect = with_rule(
        dialect,
        "InsertOverwriteDirectoryHiveFmtSegment"@,
        insert_overwrite_directory_hive_fmt_segment_view(),
    );
    let dialect = with_rule(dialect, "LoadDataSegment"@, load_data_segment_view());
    let dialect = with_rule(dialect, "ClusterByClauseSegment"@, cluster_by_clause_segment_view());
    let dialect = with_rule(
        dialect,
        "DistributeByClauseSegment"@,
        distribute_by_clause_segment_view(),
    );
    let dialect = with_rule(dialect, "HintFunctionSegment"@, hint_function_segment_view());
    let dialect = with_rule(dialect, "SelectHintSegment"@, select_hint_segment_view());
    dialect
}

/// Binds `UseDatabaseStatementSegment`, `InsertStatementSegment`,
/// `InsertOverwriteDirectorySegment`,
/// `InsertOverwriteDirectoryHiveFmtSegment`, `LoadDataSegment`,
/// `ClusterByClauseSegment`, `DistributeByClauseSegment`,
/// `HintFunctionSegment`, `SelectHintSegment`.
pub fn define_use_database_statement_segment_etc(dialect: Dialect) -> (r: Dialect)
    ensures
        r.deep_view() == define_use_database_statement_segment_etc_view(dialect.deep_view()),
{
    let mut dialect = dialect;
    dialect.define("UseDatabaseStatementSegment", use_database_statement_segment());
    dialect.define("InsertStatementSegment", insert_statement_segment());
    dialect.define("InsertOverwriteDirectorySegment", insert_overwrite_directory_segment());
    dialect.define(
        "InsertOverwriteDirectoryHiveFmtSegment",
        insert_overwrite_directory_hive_fmt_segment(),
    );
    dialect.define("LoadDataSegment", load_data_segment());
    dialect.define("ClusterByClauseSegment", cluster_by_clause_segment());
    dialect.define("DistributeByClauseSegment", distribute_by_clause_segment());
    dialect.define("HintFunctionSegment", hint_function_segment());
    dialect.define("SelectHintSegment", select_hint_segment());
    dialect
}

/// The grammar of `LimitClauseSegment`.
pub open spec fn limit_clause_segment_view() -> GrammarView {
    GrammarView::Sequence {
        elements: Seq::empty()
            .push(GrammarView::Text { template: "LIMIT"@, becomes: SyntaxKind::Keyword })
            .push(GrammarView::Meta { kind: SyntaxKind::Indent })
            .push(GrammarView::OneOf {
                options: Seq::empty()
                    .push(GrammarView::Ref { name: "NumericLiteralSegment"@, exclude: None })
                    .push(GrammarView::Text { template: "ALL"@, becomes: SyntaxKind::Keyword })
                    .push(GrammarView::Ref { name: "FunctionSegment"@, exclude: None }),
            })
            .push(GrammarView::Meta { kind: SyntaxKind::Dedent }),
    }
}

/// The grammar of `LimitClauseSegment`.
pub fn limit_clause_segment() -> (r: Grammar)
    ensures
        grammar_view(r) == limit_clause_segment_view(),
{
    Grammar::sequence_of(
        GrammarList::new()
            .and(Grammar::keyword("LIMIT"))
            .and(Grammar::meta(SyntaxKind::Indent))
            .and(Grammar::first_of(
                GrammarList::new()
                    .and(Grammar::reference("NumericLiteralSegment"))
                    .and(Grammar::keyword("ALL"))
                    .and(Grammar::reference("FunctionSegment")),
            ))
            .and(Grammar::meta(SyntaxKind::Dedent)),
    )
}

/// Replaces the grammar of `LimitClauseSegment`.
pub open spec fn replace_limit_clause_segment_view(
    dialect: DialectView,
) -> Result<DialectView, DialectError> {
    with_replaced(dialect, "LimitClauseSegment"@, limit_clause_segment_view())
}

/// Replaces the grammar of `LimitClauseSegment`.
pub fn replace_limit_clause_segment(dialect: Dialect) -> (r: Result<Dialect, DialectError>)
    ensures
        outcome_view(r) == replace_limit_clause_segment_view(dialect.deep_view()),
{
    let mut dialect = dialect;
    match dialect.replace_grammar("LimitClauseSegment", limit_clause_segment()) {
        Ok(()) => Ok(dialect),
        Err(e) => Err(e),
    }
}

/// The grammar of `SetOperatorSegment`.
pub open spec fn set_operator_segment_view() -> GrammarView {
    GrammarView::OneOf {
        options: Seq::empty()
            .push(GrammarView::Sequence {
                elements: Seq::empty()
                    .push(GrammarView::OneOf {
                        options: Seq::empty()
                            .push(
                                GrammarView::Text {
                                    template: "EXCEPT"@,
                                    becomes: SyntaxKind::Keyword,
                                },
                            )
                            .push(
                                GrammarView::Text {
                                    template: "MINUS"@,
                                    becomes: SyntaxKind::Keyword,
                                },
                            ),
                    })
                    .push(
                        GrammarView::Optional { inner: Box::new(
                            GrammarView::Text { template: "ALL"@, becomes: SyntaxKind::Keyword },
                        ) },
                    ),
            })
            .push(GrammarView::Sequence {
                elements: Seq::empty()
                    .push(GrammarView::OneOf {
                        options: Seq::empty()
                            .push(
                                GrammarView::Text {
                                    template: "UNION"@,
                                    becomes: SyntaxKind::Keyword,
                                },
                            )
                            .push(
                                GrammarView::Text {
                                    template: "INTERSECT"@,
                                    becomes: SyntaxKind::Keyword,
                                },
                            ),
                    })
                    .push(GrammarView::Optional { inner: Box::new(GrammarView::OneOf {
                        options: Seq::empty()
                            .push(
                                GrammarView::Text {
                                    template: "DISTINCT"@,
                                    becomes: SyntaxKind::Keyword,
                                },
                            )
                            .push(
                                GrammarView::Text {
                                    template: "ALL"@,
                                    becomes: SyntaxKind::Keyword,
                                },
                            ),
                    }) }),
            }),
    }
}

/// The grammar of `SetOperatorSegment`.
pub fn set_operator_segment() -> (r: Grammar)
    ensures
        grammar_view(r) == set_operator_segment_view(),
{
    Grammar::first_of(
        GrammarList::new()
            .and(Grammar::sequence_of(
                GrammarList::new()
                    .and(Grammar::first_of(
                        GrammarList::new()
                            .and(Grammar::keyword("EXCEPT"))
                            .and(Grammar::keyword("MINUS")),
                    ))
                    .and(Grammar::keyword("ALL").optional()),
            ))
            .and(Grammar::sequence_of(
                GrammarList::new()
                    .and(Grammar::first_of(
                        GrammarList::new()
                            .and(Grammar::keyword("UNION"))
                            .and(Grammar::keyword("INTERSECT")),
                    ))
                    .and(Grammar::first_of(
                        GrammarList::new()
                            .and(Grammar::keyword("DISTINCT"))
                            .and(Grammar::keyword("ALL")),
                    ).optional()),
            )),
    )
}

/// Replaces the grammar of `SetOperatorSegment`.
pub open spec fn replace_set_operator_segment_view(
    dialect: DialectView,
) -> Result<DialectView, DialectError> {
    with_replaced(dialect, "SetOperatorSegment"@, set_operator_segment_view())
}

/// Replaces the grammar of `SetOperatorSegment`.
pub fn replace_set_operator_segment(dialect: Dialect) -> (r: Result<Dialect, DialectError>)
    ensures
        outcome_view(r) == replace_set_operator_segment_view(dialect.deep_view()),
{
    let mut dialect = dialect;
    match dialect.replace_grammar("SetOperatorSegment", set_operator_segment()) {
        Ok(()) => Ok(dialect),
        Err(e) => Err(e),
    }
}

/// The grammar of `SelectClauseModifierSegment`.
pub open spec fn select_clause_modifier_segment_view() -> GrammarView {
    GrammarView::Sequence {
        elements: Seq::empty()
            .push(
                GrammarView::Optional { inner: Box::new(
                    GrammarView::Ref { name: "SelectHintSegment"@, exclude: None },
                ) },
            )
            .push(GrammarView::Optional { inner: Box::new(GrammarView::OneOf {
                options: Seq::empty()
                    .push(GrammarView::Text { template: "DISTINCT"@, becomes: SyntaxKind::Keyword })
                    .push(GrammarView::Text { template: "ALL"@, becomes: SyntaxKind::Keyword }),
            }) }),
    }
}

/// The grammar of `SelectClauseModifierSegment`.
pub fn select_clause_modifier_segment() -> (r: Grammar)
    ensures
        grammar_view(r) == select_clause_modifier_segment_view(),
{
    Grammar::sequence_of(
        GrammarList::new()
            .and(Grammar::reference("SelectHintSegment").optional())
            .and(Grammar::first_of(
                GrammarList::new()
                    .and(Grammar::keyword("DISTINCT"))
                    .and(Grammar::keyword("ALL")),
            ).optional()),
    )
}

/// Replaces the grammar of `SelectClauseModifierSegment`.
pub open spec fn replace_select_clause_modifier_segment_view(
    dialect: DialectView,
) -> Result<DialectView, DialectError> {
    with_replaced(dialect, "SelectClauseModifierSegment"@, select_clause_modifier_segment_view())
}

/// Replaces the grammar of `SelectClauseModifierSegment`.
pub fn replace_select_clause_modifier_segment(
    dialect: Dialect,
) -> (r: Result<Dialect, DialectError>)
    ensures
        outcome_view(r) == replace_select_clause_modifier_segment_view(dialect.deep_view()),
{
    let mut dialect = dialect;
    match dialect.replace_grammar("SelectClauseModifierSegment", select_clause_modifier_segment()) {
        Ok(()) => Ok(dialect),
        Err(e) => Err(e),
    }
}

/// The grammar of `UnorderedSelectStatementSegment`, made of the grammar `base`.
pub open spec fn unordered_select_statement_segment_view(base: GrammarView) -> GrammarView {
    recopied(
        base,
        Seq::empty()
            .push(
                GrammarView::Optional { inner: Box::new(
                    GrammarView::Ref { name: "QualifyClauseSegment"@, exclude: None },
                ) },
            ),
        None,
        Seq::empty()
            .push(
                GrammarView::Optional { inner: Box::new(
                    GrammarView::Ref { name: "OverlapsClauseSegment"@, exclude: None },
                ) },
            ),
    )
}

/// The grammar of `UnorderedSelectStatementSegment`, made of the grammar `base`.
pub fn unordered_select_statement_segment(base: Grammar) -> (r: Grammar)
    ensures
        grammar_view(r) == unordered_select_statement_segment_view(grammar_view(base)),
{
    base.copy_before(
        GrammarList::new()
            .and(Grammar::reference("QualifyClauseSegment").optional()).items,
        None,
        GrammarList::new()
            .and(Grammar::reference("OverlapsClauseSegment").optional()).items,
    )
}

/// Replaces the grammar of `UnorderedSelectStatementSegment`.
pub open spec fn replace_unordered_select_statement_segment_view(
    dialect: DialectView,
) -> Result<DialectView, DialectError> {
    match known(node_grammar(dialect.library, "UnorderedSelectStatementSegment"@)) {
        Ok(base) => with_replaced(
            dialect,
            "UnorderedSelectStatementSegment"@,
            unordered_select_statement_segment_view(base),
        ),
        Err(e) => Err(e),
    }
}

/// Replaces the grammar of `UnorderedSelectStatementSegment`.
pub fn replace_unordered_select_statement_segment(
    dialect: Dialect,
) -> (r: Result<Dialect, DialectError>)
    ensures
        outcome_view(r) == replace_unordered_select_statement_segment_view(dialect.deep_view()),
{
    let mut dialect = dialect;
    let base = match dialect.match_grammar("UnorderedSelectStatementSegment") {
        Some(base) => base,
        None => {
            return Err(DialectError::UnknownRule);
        },
    };
    match dialect.replace_grammar(
        "UnorderedSelectStatementSegment",
        unordered_select_statement_segment(base),
    ) {
        Ok(()) => Ok(dialect),
        Err(e) => Err(e),
    }
}

/// The grammar of `SelectStatementSegment`, made of the grammar `base`.
pub open spec fn select_statement_segment_view(base: GrammarView) -> GrammarView {
    recopied(
        recopied(
            base,
            Seq::empty()
                .push(
                    GrammarView::Optional { inner: Box::new(
                        GrammarView::Ref { name: "ClusterByClauseSegment"@, exclude: None },
                    ) },
                )
                .push(
                    GrammarView::Optional { inner: Box::new(
                        GrammarView::Ref { name: "DistributeByClauseSegment"@, exclude: None },
                    ) },
                )
                .push(
                    GrammarView::Optional { inner: Box::new(
                        GrammarView::Ref { name: "SortByClauseSegment"@, exclude: None },
                    ) },
                ),
            Some(
                GrammarView::Optional { inner: Box::new(
                    GrammarView::Ref { name: "LimitClauseSegment"@, exclude: None },
                ) },
            ),
            Seq::empty(),
        ),
        Seq::empty()
            .push(
                GrammarView::Optional { inner: Box::new(
                    GrammarView::Ref { name: "QualifyClauseSegment"@, exclude: None },
                ) },
            ),
        Some(
            GrammarView::Optional { inner: Box::new(
                GrammarView::Ref { name: "OrderByClauseSegment"@, exclude: None },
            ) },
        ),
        Seq::empty(),
    )
}

/// The grammar of `SelectStatementSegment`, made of the grammar `base`.
pub fn select_statement_segment(base: Grammar) -> (r: Grammar)
    ensures
        grammar_view(r) == select_statement_segment_view(grammar_view(base)),
{
    base.copy_before(
        GrammarList::new()
            .and(Grammar::reference("ClusterByClauseSegment").optional())
            .and(Grammar::reference("DistributeByClauseSegment").optional())
            .and(Grammar::reference("SortByClauseSegment").optional()).items,
        Some(Grammar::reference("LimitClauseSegment").optional()),
        GrammarList::new().items,
    ).copy_before(
        GrammarList::new()
            .and(Grammar::reference("QualifyClauseSegment").optional()).items,
        Some(Grammar::reference("OrderByClauseSegment").optional()),
        GrammarList::new().items,
    )
}

/// Replaces the grammar of `SelectStatementSegment`.
pub open spec fn replace_select_statement_segment_view(
    dialect: DialectView,
) -> Result<DialectView, DialectError> {
    match known(node_grammar(dialect.library, "SelectStatementSegment"@)) {
        Ok(base) => with_replaced(
            dialect,
            "SelectStatementSegment"@,
            select_statement_segment_view(base),
        ),
        Err(e) => Err(e),
    }
}

/// Replaces the grammar of `SelectStatementSegment`.
pub fn replace_select_statement_segment(dialect: Dialect) -> (r: Result<Dialect, DialectError>)
    ensures
        outcome_view(r) == replace_select_statement_segment_view(dialect.deep_view()),
{
    let mut dialect = dialect;
    let base = match dialect.match_grammar("SelectStatementSegment") {
        Some(base) => base,
        None => {
            return Err(DialectError::UnknownRule);
        },
    };
    match dialect.replace_grammar("SelectStatementSegment", select_statement_segment(base)) {
        Ok(()) => Ok(dialect),
        Err(e) => Err(e),
    }
}

/// The grammar of `GroupByClauseSegment`.
pub open spec fn group_by_clause_segment_view() -> GrammarView {
    GrammarView::Sequence {
        elements: Seq::empty()
            .push(GrammarView::Text { template: "GROUP"@, becomes: SyntaxKind::Keyword })
            .push(GrammarView::Text { template: "BY"@, becomes: SyntaxKind::Keyword })
            .push(GrammarView::Meta { kind: SyntaxKind::Indent })
            .push(GrammarView::OneOf {
                options: Seq::empty()
                    .push(GrammarView::Delimited {
                        options: Seq::empty()
                            .push(
                                GrammarView::Ref { name: "ColumnReferenceSegment"@, exclude: None },
                            )
                            .push(
                                GrammarView::Ref { name: "NumericLiteralSegment"@, exclude: None },
                            )
                            .push(
                                GrammarView::Ref {
                                    name: "CubeRollupClauseSegment"@,
                                    exclude: None,
                                },
                            )
                            .push(
                                GrammarView::Ref {
                                    name: "GroupingSetsClauseSegment"@,
                                    exclude: None,
                                },
                            )
                            .push(GrammarView::Ref { name: "ExpressionSegment"@, exclude: None }),
                        delimiter: Box::new(
                            GrammarView::Ref { name: "CommaSegment"@, exclude: None },
                        ),
                        min_delimiters: 0,
                        allow_trailing: false,
                    })
                    .push(GrammarView::Sequence {
                        elements: Seq::empty()
                            .push(GrammarView::Delimited {
                                options: Seq::empty()
                                    .push(
                                        GrammarView::Ref {
                                            name: "ColumnReferenceSegment"@,
                                            exclude: None,
                                        },
                                    )
                                    .push(
                                        GrammarView::Ref {
                                            name: "NumericLiteralSegment"@,
                                            exclude: None,
                                        },
                                    )
                                    .push(
                                        GrammarView::Ref {
                                            name: "ExpressionSegment"@,
                                            exclude: None,
                                        },
                                    ),
                                delimiter: Box::new(
                                    GrammarView::Ref { name: "CommaSegment"@, exclude: None },
                                ),
                                min_delimiters: 0,
                                allow_trailing: false,
                            })
                            .push(GrammarView::OneOf {
                                options: Seq::empty()
                                    .push(
                                        GrammarView::Ref {
                                            name: "WithCubeRollupClauseSegment"@,
                                            exclude: None,
                                        },
                                    )
                                    .push(
                                        GrammarView::Ref {
                                            name: "GroupingSetsClauseSegment"@,
                                            exclude: None,
                                        },
                                    ),
                            }),
                    }),
            })
            .push(GrammarView::Meta { kind: SyntaxKind::Dedent }),
    }
}

/// The grammar of `GroupByClauseSegment`.
pub fn group_by_clause_segment() -> (r: Grammar)
    ensures
        grammar_view(r) == group_by_clause_segment_view(),
{
    Grammar::sequence_of(
        GrammarList::new()
            .and(Grammar::keyword("GROUP"))
            .and(Grammar::keyword("BY"))
            .and(Grammar::meta(SyntaxKind::Indent))
            .and(Grammar::first_of(
                GrammarList::new()
                    .and(Grammar::delimited_by(
                        GrammarList::new()
                            .and(Grammar::reference("ColumnReferenceSegment"))
                            .and(Grammar::reference("NumericLiteralSegment"))
                            .and(Grammar::reference("CubeRollupClauseSegment"))
                            .and(Grammar::reference("GroupingSetsClauseSegment"))
                            .and(Grammar::reference("ExpressionSegment")),
                        Grammar::reference("CommaSegment"),
                        0,
                        false,
                    ))
                    .and(Grammar::sequence_of(
                        GrammarList::new()
                            .and(Grammar::delimited_by(
                                GrammarList::new()
                                    .and(Grammar::reference("ColumnReferenceSegment"))
                                    .and(Grammar::reference("NumericLiteralSegment"))
                                    .and(Grammar::reference("ExpressionSegment")),
                                Grammar::reference("CommaSegment"),
                                0,
                                false,
                            ))
                            .and(Grammar::first_of(
                                GrammarList::new()
                                    .and(Grammar::reference("WithCubeRollupClauseSegment"))
                                    .and(Grammar::reference("GroupingSetsClauseSegment")),
                            )),
                    )),
            ))
            .and(Grammar::meta(SyntaxKind::Dedent)),
    )
}

/// Replaces the grammar of `GroupByClauseSegment`.
pub open spec fn replace_group_by_clause_segment_view(
    dialect: DialectView,
) -> Result<DialectView, DialectError> {
    with_replaced(dialect, "GroupByClauseSegment"@, group_by_clause_segment_view())
}

/// Replaces the grammar of `GroupByClauseSegment`.
pub fn replace_group_by_clause_segment(dialect: Dialect) -> (r: Result<Dialect, DialectError>)
    ensures
        outcome_view(r) == replace_group_by_clause_segment_view(dialect.deep_view()),
{
    let mut dialect = dialect;
    match dialect.replace_grammar("GroupByClauseSegment", group_by_clause_segment()) {
        Ok(()) => Ok(dialect),
        Err(e) => Err(e),
    }
}

/// The grammar of `WithCubeRollupClauseSegment`.
pub open spec fn with_cube_rollup_clause_segment_view() -> GrammarView {
    GrammarView::Node {
        kind: SyntaxKind::WithCubeRollupClause,
        inner: Box::new(GrammarView::Sequence {
            elements: Seq::empty()
                .push(GrammarView::Text { template: "WITH"@, becomes: SyntaxKind::Keyword })
                .push(GrammarView::OneOf {
                    options: Seq::empty()
                        .push(GrammarView::Text { template: "CUBE"@, becomes: SyntaxKind::Keyword })
                        .push(
                            GrammarView::Text { template: "ROLLUP"@, becomes: SyntaxKind::Keyword },
                        ),
                }),
        }),
    }
}

/// The grammar of `WithCubeRollupClauseSegment`.
pub fn with_cube_rollup_clause_segment() -> (r: Grammar)
    ensures
        grammar_view(r) == with_cube_rollup_clause_segment_view(),
{
    Grammar::sequence_of(
        GrammarList::new()
            .and(Grammar::keyword("WITH"))
            .and(Grammar::first_of(
                GrammarList::new()
                    .and(Grammar::keyword("CUBE"))
                    .and(Grammar::keyword("ROLLUP")),
            )),
    ).node(SyntaxKind::WithCubeRollupClause)
}

/// The grammar of `SortByClauseSegment`.
pub open spec fn sort_by_clause_segment_view() -> GrammarView {
    GrammarView::Node {
        kind: SyntaxKind::SortByClause,
        inner: Box::new(GrammarView::Sequence {
            elements: Seq::empty()
                .push(GrammarView::Text { template: "SORT"@, becomes: SyntaxKind::Keyword })
                .push(GrammarView::Text { template: "BY"@, becomes: SyntaxKind::Keyword })
                .push(GrammarView::Meta { kind: SyntaxKind::Indent })
                .push(GrammarView::Delimited {
                    options: Seq::empty()
                        .push(GrammarView::Sequence {
                            elements: Seq::empty()
                                .push(GrammarView::OneOf {
                                    options: Seq::empty()
                                        .push(
                                            GrammarView::Ref {
                                                name: "ColumnReferenceSegment"@,
                                                exclude: None,
                                            },
                                        )
                                        .push(
                                            GrammarView::Ref {
                                                name: "NumericLiteralSegment"@,
                                                exclude: None,
                                            },
                                        )
                                        .push(
                                            GrammarView::Ref {
                                                name: "ExpressionSegment"@,
                                                exclude: None,
                                            },
                                        ),
                                })
                                .push(GrammarView::Optional { inner: Box::new(GrammarView::OneOf {
                                    options: Seq::empty()
                                        .push(
                                            GrammarView::Text {
                                                template: "ASC"@,
                                                becomes: SyntaxKind::Keyword,
                                            },
                                        )
                                        .push(
                                            GrammarView::Text {
                                                template: "DESC"@,
                                                becomes: SyntaxKind::Keyword,
                                            },
                                        ),
                                }) })
                                .push(GrammarView::Optional { inner: Box::new(GrammarView::Sequence {
                                    elements: Seq::empty()
                                        .push(
                                            GrammarView::Text {
                                                template: "NULLS"@,
                                                becomes: SyntaxKind::Keyword,
                                            },
                                        )
                                        .push(GrammarView::OneOf {
                                            options: Seq::empty()
                                                .push(
                                                    GrammarView::Text {
                                                        template: "FIRST"@,
                                                        becomes: SyntaxKind::Keyword,
                                                    },
                                                )
                                                .push(
                                                    GrammarView::Text {
                                                        template: "LAST"@,
                                                        becomes: SyntaxKind::Keyword,
                                                    },
                                                ),
                                        }),
                                }) }),
                        }),
                    delimiter: Box::new(GrammarView::Ref { name: "CommaSegment"@, exclude: None }),
                    min_delimiters: 0,
                    allow_trailing: false,
                })
                .push(GrammarView::Meta { kind: SyntaxKind::Dedent }),
        }),
    }
}

/// The grammar of `SortByClauseSegment`.
pub fn sort_by_clause_segment() -> (r: Grammar)
    ensures
        grammar_view(r) == sort_by_clause_segment_view(),
{
    Grammar::sequence_of(
        GrammarList::new()
            .and(Grammar::keyword("SORT"))
            .and(Grammar::keyword("BY"))
            .and(Grammar::meta(SyntaxKind::Indent))
            .and(Grammar::delimited_by(
                GrammarList::new()
                    .and(Grammar::sequence_of(
                        GrammarList::new()
                            .and(Grammar::first_of(
                                GrammarList::new()
                                    .and(Grammar::reference("ColumnReferenceSegment"))
                                    .and(Grammar::reference("NumericLiteralSegment"))
                                    .and(Grammar::reference("ExpressionSegment")),
                            ))
                            .and(Grammar::first_of(
                                GrammarList::new()
                                    .and(Grammar::keyword("ASC"))
                                    .and(Grammar::keyword("DESC")),
                            ).optional())
                            .and(Grammar::sequence_of(
                                GrammarList::new()
                                    .and(Grammar::keyword("NULLS"))
                                    .and(Grammar::first_of(
                                        GrammarList::new()
                                            .and(Grammar::keyword("FIRST"))
                                            .and(Grammar::keyword("LAST")),
                                    )),
                            ).optional()),
                    )),
                Grammar::reference("CommaSegment"),
                0,
                false,
            ))
            .and(Grammar::meta(SyntaxKind::Dedent)),
    ).node(SyntaxKind::SortByClause)
}

/// Binds `WithCubeRollupClauseSegment`, `SortByClauseSegment`.
pub open spec fn define_with_cube_rollup_clause_segment_etc_view(
    dialect: DialectView,
) -> DialectView {
    let dialect = with_rule(
        dialect,
        "WithCubeRollupClauseSegment"@,
        with_cube_rollup_clause_segment_view(),
    );
    let dialect = with_rule(dialect, "SortByClauseSegment"@, sort_by_clause_segment_view());
    dialect
}

/// Binds `WithCubeRollupClauseSegment`, `SortByClauseSegment`.
pub fn define_with_cube_rollup_clause_segment_etc(dialect: Dialect) -> (r: Dialect)
    ensures
        r.deep_view() == define_with_cube_rollup_clause_segment_etc_view(dialect.deep_view()),
{
    let mut dialect = dialect;
    dialect.define("WithCubeRollupClauseSegment", with_cube_rollup_clause_segment());
    dialect.define("SortByClauseSegment", sort_by_clause_segment());
    dialect
}

/// The grammar of `SamplingExpressionSegment`.
pub open spec fn sampling_expression_segment_view() -> GrammarView {
    GrammarView::Sequence {
        elements: Seq::empty()
            .push(GrammarView::Text { template: "TABLESAMPLE"@, becomes: SyntaxKind::Keyword })
            .push(GrammarView::OneOf {
                options: Seq::empty()
                    .push(GrammarView::Bracketed {
                        elements: Seq::empty()
                            .push(
                                GrammarView::Ref { name: "NumericLiteralSegment"@, exclude: None },
                            )
                            .push(GrammarView::OneOf {
                                options: Seq::empty()
                                    .push(
                                        GrammarView::Text {
                                            template: "PERCENT"@,
                                            becomes: SyntaxKind::Keyword,
                                        },
                                    )
                                    .push(
                                        GrammarView::Text {
                                            template: "ROWS"@,
                                            becomes: SyntaxKind::Keyword,
                                        },
                                    ),
                            }),
                        bracket_type: "round"@,
                        parse_mode: ParseMode::Strict,
                    })
                    .push(GrammarView::Bracketed {
                        elements: Seq::empty()
                            .push(
                                GrammarView::Text {
                                    template: "BUCKET"@,
                                    becomes: SyntaxKind::Keyword,
                                },
                            )
                            .push(
                                GrammarView::Ref { name: "NumericLiteralSegment"@, exclude: None },
                            )
                            .push(
                                GrammarView::Text {
                                    template: "OUT"@,
                                    becomes: SyntaxKind::Keyword,
                                },
                            )
                            .push(
                                GrammarView::Text { template: "OF"@, becomes: SyntaxKind::Keyword },
                            )
                            .push(
                                GrammarView::Ref { name: "NumericLiteralSegment"@, exclude: None },
                            ),
                        bracket_type: "round"@,
                        parse_mode: ParseMode::Strict,
                    }),
            }),
    }
}

/// The grammar of `SamplingExpressionSegment`.
pub fn sampling_expression_segment() -> (r: Grammar)
    ensures
        grammar_view(r) == sampling_expression_segment_view(),
{
    Grammar::sequence_of(
        GrammarList::new()
            .and(Grammar::keyword("TABLESAMPLE"))
            .and(Grammar::first_of(
                GrammarList::new()
                    .and(Grammar::bracketed_by(
                        GrammarList::new()
                            .and(Grammar::reference("NumericLiteralSegment"))
                            .and(Grammar::first_of(
                                GrammarList::new()
                                    .and(Grammar::keyword("PERCENT"))
                                    .and(Grammar::keyword("ROWS")),
                            )),
                        "round",
                        ParseMode::Strict,
                    ))
                    .and(Grammar::bracketed_by(
                        GrammarList::new()
                            .and(Grammar::keyword("BUCKET"))
                            .and(Grammar::reference("NumericLiteralSegment"))
                            .and(Grammar::keyword("OUT"))
                            .and(Grammar::keyword("OF"))
                            .and(Grammar::reference("NumericLiteralSegment")),
                        "round",
                        ParseMode::Strict,
                    )),
            )),
    )
}

/// Replaces the grammar of `SamplingExpressionSegment`.
pub open spec fn replace_sampling_expression_segment_view(
    dialect: DialectView,
) -> Result<DialectView, DialectError> {
    with_replaced(dialect, "SamplingExpressionSegment"@, sampling_expression_segment_view())
}

/// Replaces the grammar of `SamplingExpressionSegment`.
pub fn replace_sampling_expression_segment(dialect: Dialect) -> (r: Result<Dialect, DialectError>)
    ensures
        outcome_view(r) == replace_sampling_expression_segment_view(dialect.deep_view()),
{
    let mut dialect = dialect;
    match dialect.replace_grammar("SamplingExpressionSegment", sampling_expression_segment()) {
        Ok(()) => Ok(dialect),
        Err(e) => Err(e),
    }
}

/// The grammar of `LateralViewClauseSegment`.
pub open spec fn lateral_view_clause_segment_view() -> GrammarView {
    GrammarView::Node {
        kind: SyntaxKind::LateralViewClause,
        inner: Box::new(GrammarView::Sequence {
            elements: Seq::empty()
                .push(GrammarView::Meta { kind: SyntaxKind::Indent })
                .push(GrammarView::Text { template: "LATERAL"@, becomes: SyntaxKind::Keyword })
                .push(GrammarView::Text { template: "VIEW"@, becomes: SyntaxKind::Keyword })
                .push(
                    GrammarView::Optional { inner: Box::new(
                        GrammarView::Text { template: "OUTER"@, becomes: SyntaxKind::Keyword },
                    ) },
                )
                .push(GrammarView::Ref { name: "FunctionSegment"@, exclude: None })
                .push(GrammarView::OneOf {
                    options: Seq::empty()
                        .push(GrammarView::Sequence {
                            elements: Seq::empty()
                                .push(
                                    GrammarView::Ref {
                                        name: "SingleIdentifierGrammar"@,
                                        exclude: None,
                                    },
                                )
                                .push(GrammarView::Optional { inner: Box::new(GrammarView::Sequence {
                                    elements: Seq::empty()
                                        .push(
                                            GrammarView::Optional { inner: Box::new(
                                                GrammarView::Text {
                                                    template: "AS"@,
                                                    becomes: SyntaxKind::Keyword,
                                                },
                                            ) },
                                        )
                                        .push(GrammarView::Delimited {
                                            options: Seq::empty()
                                                .push(
                                                    GrammarView::Ref {
                                                        name: "SingleIdentifierGrammar"@,
                                                        exclude: None,
                                                    },
                                                ),
                                            delimiter: Box::new(
                                                GrammarView::Ref {
                                                    name: "CommaSegment"@,
                                                    exclude: None,
                                                },
                                            ),
                                            min_delimiters: 0,
                                            allow_trailing: false,
                                        }),
                                }) }),
                        })
                        .push(GrammarView::Sequence {
                            elements: Seq::empty()
                                .push(
                                    GrammarView::Optional { inner: Box::new(
                                        GrammarView::Text {
                                            template: "AS"@,
                                            becomes: SyntaxKind::Keyword,
                                        },
                                    ) },
                                )
                                .push(GrammarView::Delimited {
                                    options: Seq::empty()
                                        .push(
                                            GrammarView::Ref {
                                                name: "SingleIdentifierGrammar"@,
                                                exclude: None,
                                            },
                                        ),
                                    delimiter: Box::new(
                                        GrammarView::Ref { name: "CommaSegment"@, exclude: None },
                                    ),
                                    min_delimiters: 0,
                                    allow_trailing: false,
                                }),
                        }),
                })
                .push(GrammarView::Meta { kind: SyntaxKind::Dedent }),
        }),
    }
}

/// The grammar of `LateralViewClauseSegment`.
pub fn lateral_view_clause_segment() -> (r: Grammar)
    ensures
        grammar_view(r) == lateral_view_clause_segment_view(),
{
    Grammar::sequence_of(
        GrammarList::new()
            .and(Grammar::meta(SyntaxKind::Indent))
            .and(Grammar::keyword("LATERAL"))
            .and(Grammar::keyword("VIEW"))
            .and(Grammar::keyword("OUTER").optional())
            .and(Grammar::reference("FunctionSegment"))
            .and(Grammar::first_of(
                GrammarList::new()
                    .and(Grammar::sequence_of(
                        GrammarList::new()
                            .and(Grammar::reference("SingleIdentifierGrammar"))
                            .and(Grammar::sequence_of(
                                GrammarList::new()
                                    .and(Grammar::keyword("AS").optional())
                                    .and(Grammar::delimited_by(
                                        GrammarList::new()
                                            .and(Grammar::reference("SingleIdentifierGrammar")),
                                        Grammar::reference("CommaSegment"),
                                        0,
                                        false,
                                    )),
                            ).optional()),
                    ))
                    .and(Grammar::sequence_of(
                        GrammarList::new()
                            .and(Grammar::keyword("AS").optional())
                            .and(Grammar::delimited_by(
                                GrammarList::new()
                                    .and(Grammar::reference("SingleIdentifierGrammar")),
                                Grammar::reference("CommaSegment"),
                                0,
                                false,
                            )),
                    )),
            ))
            .and(Grammar::meta(SyntaxKind::Dedent)),
    ).node(SyntaxKind::LateralViewClause)
}

/// The grammar of `PivotClauseSegment`.
pub open spec fn pivot_clause_segment_view() -> GrammarView {
    GrammarView::Node {
        kind: SyntaxKind::PivotClause,
        inner: Box::new(GrammarView::Sequence {
            elements: Seq::empty()
                .push(GrammarView::Meta { kind: SyntaxKind::Indent })
                .push(GrammarView::Text { template: "PIVOT"@, becomes: SyntaxKind::Keyword })
                .push(GrammarView::Bracketed {
                    elements: Seq::empty()
                        .push(GrammarView::Meta { kind: SyntaxKind::Indent })
                        .push(GrammarView::Delimited {
                            options: Seq::empty()
                                .push(GrammarView::Sequence {
                                    elements: Seq::empty()
                                        .push(
                                            GrammarView::Ref {
                                                name: "BaseExpressionElementGrammar"@,
                                                exclude: None,
                                            },
                                        )
                                        .push(
                                            GrammarView::Optional { inner: Box::new(
                                                GrammarView::Ref {
                                                    name: "AliasExpressionSegment"@,
                                                    exclude: None,
                                                },
                                            ) },
                                        ),
                                }),
                            delimiter: Box::new(
                                GrammarView::Ref { name: "CommaSegment"@, exclude: None },
                            ),
                            min_delimiters: 0,
                            allow_trailing: false,
                        })
                        .push(GrammarView::Text { template: "FOR"@, becomes: SyntaxKind::Keyword })
                        .push(GrammarView::OneOf {
                            options: Seq::empty()
                                .push(GrammarView::Bracketed {
                                    elements: Seq::empty()
                                        .push(GrammarView::OneOf {
                                            options: Seq::empty()
                                                .push(
                                                    GrammarView::Ref {
                                                        name: "SingleIdentifierGrammar"@,
                                                        exclude: None,
                                                    },
                                                )
                                                .push(GrammarView::Delimited {
                                                    options: Seq::empty()
                                                        .push(
                                                            GrammarView::Ref {
                                                                name: "SingleIdentifierGrammar"@,
                                                                exclude: None,
                                                            },
                                                        ),
                                                    delimiter: Box::new(
                                                        GrammarView::Ref {
                                                            name: "CommaSegment"@,
                                                            exclude: None,
                                                        },
                                                    ),
                                                    min_delimiters: 0,
                                                    allow_trailing: false,
                                                }),
                                        }),
                                    bracket_type: "round"@,
                                    parse_mode: ParseMode::Strict,
                                })
                                .push(GrammarView::OneOf {
                                    options: Seq::empty()
                                        .push(
                                            GrammarView::Ref {
                                                name: "SingleIdentifierGrammar"@,
                                                exclude: None,
                                            },
                                        )
                                        .push(GrammarView::Delimited {
                                            options: Seq::empty()
                                                .push(
                                                    GrammarView::Ref {
                                                        name: "SingleIdentifierGrammar"@,
                                                        exclude: None,
                                                    },
                                                ),
                                            delimiter: Box::new(
                                                GrammarView::Ref {
                                                    name: "CommaSegment"@,
                                                    exclude: None,
                                                },
                                            ),
                                            min_delimiters: 0,
                                            allow_trailing: false,
                                        }),
                                }),
                        })
                        .push(GrammarView::Text { template: "IN"@, becomes: SyntaxKind::Keyword })
                        .push(GrammarView::Bracketed {
                            elements: Seq::empty()
                                .push(GrammarView::Delimited {
                                    options: Seq::empty()
                                        .push(GrammarView::Sequence {
                                            elements: Seq::empty()
                                                .push(GrammarView::OneOf {
                                                    options: Seq::empty()
                                                        .push(GrammarView::Bracketed {
                                                            elements: Seq::empty()
                                                                .push(GrammarView::Delimited {
                                                                    options: Seq::empty()
                                                                        .push(
                                                                            GrammarView::Ref {
                                                                                name: "ExpressionSegment"@,
                                                                                exclude: None,
                                                                            },
                                                                        ),
                                                                    delimiter: Box::new(
                                                                        GrammarView::Ref {
                                                                            name: "CommaSegment"@,
                                                                            exclude: None,
                                                                        },
                                                                    ),
                                                                    min_delimiters: 0,
                                                                    allow_trailing: false,
                                                                }),
                                                            bracket_type: "round"@,
                                                            parse_mode: ParseMode::Greedy,
                                                        })
                                                        .push(GrammarView::Delimited {
                                                            options: Seq::empty()
                                                                .push(
                                                                    GrammarView::Ref {
                                                                        name: "ExpressionSegment"@,
                                                                        exclude: None,
                                                                    },
                                                                ),
                                                            delimiter: Box::new(
                                                                GrammarView::Ref {
                                                                    name: "CommaSegment"@,
                                                                    exclude: None,
                                                                },
                                                            ),
                                                            min_delimiters: 0,
                                                            allow_trailing: false,
                                                        }),
                                                })
                                                .push(
                                                    GrammarView::Optional { inner: Box::new(
                                                        GrammarView::Ref {
                                                            name: "AliasExpressionSegment"@,
                                                            exclude: None,
                                                        },
                                                    ) },
                                                ),
                                        }),
                                    delimiter: Box::new(
                                        GrammarView::Ref { name: "CommaSegment"@, exclude: None },
                                    ),
                                    min_delimiters: 0,
                                    allow_trailing: false,
                                }),
                            bracket_type: "round"@,
                            parse_mode: ParseMode::Strict,
                        })
                        .push(GrammarView::Meta { kind: SyntaxKind::Dedent }),
                    bracket_type: "round"@,
                    parse_mode: ParseMode::Strict,
                })
                .push(GrammarView::Meta { kind: SyntaxKind::Dedent }),
        }),
    }
}

/// The grammar of `PivotClauseSegment`.
pub fn pivot_clause_segment() -> (r: Grammar)
    ensures
        grammar_view(r) == pivot_clause_segment_view(),
{
    Grammar::sequence_of(
        GrammarList::new()
            .and(Grammar::meta(SyntaxKind::Indent))
            .and(Grammar::keyword("PIVOT"))
            .and(Grammar::bracketed_by(
                GrammarList::new()
                    .and(Grammar::meta(SyntaxKind::Indent))
                    .and(Grammar::delimited_by(
                        GrammarList::new()
                            .and(Grammar::sequence_of(
                                GrammarList::new()
                                    .and(Grammar::reference("BaseExpressionElementGrammar"))
                                    .and(Grammar::reference("AliasExpressionSegment").optional()),
                            )),
                        Grammar::reference("CommaSegment"),
                        0,
                        false,
                    ))
                    .and(Grammar::keyword("FOR"))
                    .and(Grammar::first_of(
                        GrammarList::new()
                            .and(Grammar::bracketed_by(
                                GrammarList::new()
                                    .and(Grammar::first_of(
                                        GrammarList::new()
                                            .and(Grammar::reference("SingleIdentifierGrammar"))
                                            .and(Grammar::delimited_by(
                                                GrammarList::new()
                                                    .and(
                                                        Grammar::reference(
                                                            "SingleIdentifierGrammar",
                                                        ),
                                                    ),
                                                Grammar::reference("CommaSegment"),
                                                0,
                                                false,
                                            )),
                                    )),
                                "round",
                                ParseMode::Strict,
                            ))
                            .and(Grammar::first_of(
                                GrammarList::new()
                                    .and(Grammar::reference("SingleIdentifierGrammar"))
                                    .and(Grammar::delimited_by(
                                        GrammarList::new()
                                            .and(Grammar::reference("SingleIdentifierGrammar")),
                                        Grammar::reference("CommaSegment"),
                                        0,
                                        false,
                                    )),
                            )),
                    ))
                    .and(Grammar::keyword("IN"))
                    .and(Grammar::bracketed_by(
                        GrammarList::new()
                            .and(Grammar::delimited_by(
                                GrammarList::new()
                                    .and(Grammar::sequence_of(
                                        GrammarList::new()
                                            .and(Grammar::first_of(
                                                GrammarList::new()
                                                    .and(Grammar::bracketed_by(
                                                        GrammarList::new()
                                                            .and(Grammar::delimited_by(
                                                                GrammarList::new()
                                                                    .and(
                                                                        Grammar::reference(
                                                                            "ExpressionSegment",
                                                                        ),
                                                                    ),
                                                                Grammar::reference("CommaSegment"),
                                                                0,
                                                                false,
                                                            )),
                                                        "round",
                                                        ParseMode::Greedy,
                                                    ))
                                                    .and(Grammar::delimited_by(
                                                        GrammarList::new()
                                                            .and(
                                                                Grammar::reference(
                                                                    "ExpressionSegment",
                                                                ),
                                                            ),
                                                        Grammar::reference("CommaSegment"),
                                                        0,
                                                        false,
                                                    )),
                                            ))
                                            .and(
                                                Grammar::reference("AliasExpressionSegment").optional(),
                                            ),
                                    )),
                                Grammar::reference("CommaSegment"),
                                0,
                                false,
                            )),
                        "round",
                        ParseMode::Strict,
                    ))
                    .and(Grammar::meta(SyntaxKind::Dedent)),
                "round",
                ParseMode::Strict,
            ))
            .and(Grammar::meta(SyntaxKind::Dedent)),
    ).node(SyntaxKind::PivotClause)
}

/// The grammar of `TransformClauseSegment`.
pub open spec fn transform_clause_segment_view() -> GrammarView {
    GrammarView::Node {
        kind: SyntaxKind::TransformClause,
        inner: Box::new(GrammarView::Sequence {
            elements: Seq::empty()
                .push(GrammarView::Text { template: "TRANSFORM"@, becomes: SyntaxKind::Keyword })
                .push(GrammarView::Bracketed {
                    elements: Seq::empty()
                        .push(GrammarView::Delimited {
                            options: Seq::empty()
                                .push(
                                    GrammarView::Ref {
                                        name: "SingleIdentifierGrammar"@,
                                        exclude: None,
                                    },
                                ),
                            delimiter: Box::new(
                                GrammarView::Ref { name: "CommaSegment"@, exclude: None },
                            ),
                            min_delimiters: 0,
                            allow_trailing: false,
                        }),
                    bracket_type: "round"@,
                    parse_mode: ParseMode::Greedy,
                })
                .push(GrammarView::Meta { kind: SyntaxKind::Indent })
                .push(
                    GrammarView::Optional { inner: Box::new(
                        GrammarView::Ref { name: "RowFormatClauseSegment"@, exclude: None },
                    ) },
                )
                .push(GrammarView::Text { template: "USING"@, becomes: SyntaxKind::Keyword })
                .push(GrammarView::Ref { name: "QuotedLiteralSegment"@, exclude: None })
                .push(GrammarView::Optional { inner: Box::new(GrammarView::Sequence {
                    elements: Seq::empty()
                        .push(GrammarView::Text { template: "AS"@, becomes: SyntaxKind::Keyword })
                        .push(GrammarView::Bracketed {
                            elements: Seq::empty()
                                .push(GrammarView::Delimited {
                                    options: Seq::empty()
                                        .push(GrammarView::AnyNumberOf {
                                            options: Seq::empty()
                                                .push(
                                                    GrammarView::Ref {
                                                        name: "SingleIdentifierGrammar"@,
                                                        exclude: None,
                                                    },
                                                )
                                                .push(
                                                    GrammarView::Ref {
                                                        name: "DatatypeSegment"@,
                                                        exclude: None,
                                                    },
                                                ),
                                            min_times: 0,
                                            max_times: None,
                                            max_times_per_element: None,
                                        }),
                                    delimiter: Box::new(
                                        GrammarView::Ref { name: "CommaSegment"@, exclude: None },
                                    ),
                                    min_delimiters: 0,
                                    allow_trailing: false,
                                }),
                            bracket_type: "round"@,
                            parse_mode: ParseMode::Strict,
                        }),
                }) })
                .push(
                    GrammarView::Optional { inner: Box::new(
                        GrammarView::Ref { name: "RowFormatClauseSegment"@, exclude: None },
                    ) },
                ),
        }),
    }
}

/// The grammar of `TransformClauseSegment`.
pub fn transform_clause_segment() -> (r: Grammar)
    ensures
        grammar_view(r) == transform_clause_segment_view(),
{
    Grammar::sequence_of(
        GrammarList::new()
            .and(Grammar::keyword("TRANSFORM"))
            .and(Grammar::bracketed_by(
                GrammarList::new()
                    .and(Grammar::delimited_by(
                        GrammarList::new()
                            .and(Grammar::reference("SingleIdentifierGrammar")),
                        Grammar::reference("CommaSegment"),
                        0,
                        false,
                    )),
                "round",
                ParseMode::Greedy,
            ))
            .and(Grammar::meta(SyntaxKind::Indent))
            .and(Grammar::reference("RowFormatClauseSegment").optional())
            .and(Grammar::keyword("USING"))
            .and(Grammar::reference("QuotedLiteralSegment"))
            .and(Grammar::sequence_of(
                GrammarList::new()
                    .and(Grammar::keyword("AS"))
                    .and(Grammar::bracketed_by(
                        GrammarList::new()
                            .and(Grammar::delimited_by(
                                GrammarList::new()
                                    .and(Grammar::repeated(
                                        GrammarList::new()
                                            .and(Grammar::reference("SingleIdentifierGrammar"))
                                            .and(Grammar::reference("DatatypeSegment")),
                                        0,
                                        None,
                                        None,
                                    )),
                                Grammar::reference("CommaSegment"),
                                0,
                                false,
                            )),
                        "round",
                        ParseMode::Strict,
                    )),
            ).optional())
            .and(Grammar::reference("RowFormatClauseSegment").optional()),
    ).node(SyntaxKind::TransformClause)
}

/// Binds `LateralViewClauseSegment`, `PivotClauseSegment`,
/// `TransformClauseSegment`, `RowFormatClauseSegment`,
/// `SkewedByClauseSegment`.
pub open spec fn define_lateral_view_clause_segment_etc_view(
    dialect: DialectView,
    hive: DialectView,
) -> Result<DialectView, DialectError> {
    let dialect = with_rule(
        dialect,
        "LateralViewClauseSegment"@,
        lateral_view_clause_segment_view(),
    );
    let dialect = with_rule(dialect, "PivotClauseSegment"@, pivot_clause_segment_view());
    let dialect = with_rule(dialect, "TransformClauseSegment"@, transform_clause_segment_view());
    match known(lookup_rule(hive.library, "RowFormatClauseSegment"@)) {
        Err(e) => Err(e),
        Ok(base) => {
            let dialect = with_rule(dialect, "RowFormatClauseSegment"@, base);
            match known(lookup_rule(hive.library, "SkewedByClauseSegment"@)) {
                Err(e) => Err(e),
                Ok(base) => {
                    let dialect = with_rule(dialect, "SkewedByClauseSegment"@, base);
                    Ok(dialect)
                },
            }
        },
    }
}

/// Binds `LateralViewClauseSegment`, `PivotClauseSegment`,
/// `TransformClauseSegment`, `RowFormatClauseSegment`,
/// `SkewedByClauseSegment`.
pub fn define_lateral_view_clause_segment_etc(
    dialect: Dialect,
    hive: &Dialect,
) -> (r: Result<Dialect, DialectError>)
    ensures
        outcome_view(r) == define_lateral_view_clause_segment_etc_view(
            dialect.deep_view(),
            hive.deep_view(),
        ),
{
    let mut dialect = dialect;
    dialect.define("LateralViewClauseSegment", lateral_view_clause_segment());
    dialect.define("PivotClauseSegment", pivot_clause_segment());
    dialect.define("TransformClauseSegment", transform_clause_segment());
    let base = match hive.rule_grammar("RowFormatClauseSegment") {
        Some(base) => base,
        None => {
            return Err(DialectError::UnknownRule);
        },
    };
    dialect.define("RowFormatClauseSegment", base);
    let base = match hive.rule_grammar("SkewedByClauseSegment") {
        Some(base) => base,
        None => {
            return Err(DialectError::UnknownRule);
        },
    };
    dialect.define("SkewedByClauseSegment", base);
    Ok(dialect)
}

/// The grammar of `ExplainStatementSegment`.
pub open spec fn explain_statement_segment_view() -> GrammarView {
    GrammarView::Sequence {
        elements: Seq::empty()
            .push(GrammarView::Text { template: "EXPLAIN"@, becomes: SyntaxKind::Keyword })
            .push(GrammarView::Optional { inner: Box::new(GrammarView::OneOf {
                options: Seq::empty()
                    .push(GrammarView::Text { template: "EXTENDED"@, becomes: SyntaxKind::Keyword })
                    .push(GrammarView::Text { template: "CODEGEN"@, becomes: SyntaxKind::Keyword })
                    .push(GrammarView::Text { template: "COST"@, becomes: SyntaxKind::Keyword })
                    .push(
                        GrammarView::Text { template: "FORMATTED"@, becomes: SyntaxKind::Keyword },
                    ),
            }) })
            .push(GrammarView::Ref { name: "StatementSegment"@, exclude: None }),
    }
}

/// The grammar of `ExplainStatementSegment`.
pub fn explain_statement_segment() -> (r: Grammar)
    ensures
        grammar_view(r) == explain_statement_segment_view(),
{
    Grammar::sequence_of(
        GrammarList::new()
            .and(Grammar::keyword("EXPLAIN"))
            .and(Grammar::first_of(
                GrammarList::new()
                    .and(Grammar::keyword("EXTENDED"))
                    .and(Grammar::keyword("CODEGEN"))
                    .and(Grammar::keyword("COST"))
                    .and(Grammar::keyword("FORMATTED")),
            ).optional())
            .and(Grammar::reference("StatementSegment")),
    )
}

/// Replaces the grammar of `ExplainStatementSegment`.
pub open spec fn replace_explain_statement_segment_view(
    dialect: DialectView,
) -> Result<DialectView, DialectError> {
    with_replaced(dialect, "ExplainStatementSegment"@, explain_statement_segment_view())
}

/// Replaces the grammar of `ExplainStatementSegment`.
pub fn replace_explain_statement_segment(dialect: Dialect) -> (r: Result<Dialect, DialectError>)
    ensures
        outcome_view(r) == replace_explain_statement_segment_view(dialect.deep_view()),
{
    let mut dialect = dialect;
    match dialect.replace_grammar("ExplainStatementSegment", explain_statement_segment()) {
        Ok(()) => Ok(dialect),
        Err(e) => Err(e),
    }
}

/// The grammar of `AddFileSegment`.
pub open spec fn add_file_segment_view() -> GrammarView {
    GrammarView::Node {
        kind: SyntaxKind::AddFileStatement,
        inner: Box::new(GrammarView::Sequence {
            elements: Seq::empty()
                .push(GrammarView::Text { template: "ADD"@, becomes: SyntaxKind::Keyword })
                .push(GrammarView::Ref { name: "FileKeywordSegment"@, exclude: None })
                .push(GrammarView::AnyNumberOf {
                    options: Seq::empty()
                        .push(GrammarView::Ref { name: "QuotedLiteralSegment"@, exclude: None }),
                    min_times: 0,
                    max_times: None,
                    max_times_per_element: None,
                }),
        }),
    }
}

/// The grammar of `AddFileSegment`.
pub fn add_file_segment() -> (r: Grammar)
    ensures
        grammar_view(r) == add_file_segment_view(),
{
    Grammar::sequence_of(
        GrammarList::new()
            .and(Grammar::keyword("ADD"))
            .and(Grammar::reference("FileKeywordSegment"))
            .and(Grammar::repeated(
                GrammarList::new()
                    .and(Grammar::reference("QuotedLiteralSegment")),
                0,
                None,
                None,
            )),
    ).node(SyntaxKind::AddFileStatement)
}

/// The grammar of `AddJarSegment`.
pub open spec fn add_jar_segment_view() -> GrammarView {
    GrammarView::Node {
        kind: SyntaxKind::AddJarStatement,
        inner: Box::new(GrammarView::Sequence {
            elements: Seq::empty()
                .push(GrammarView::Text { template: "ADD"@, becomes: SyntaxKind::Keyword })
                .push(GrammarView::Ref { name: "JarKeywordSegment"@, exclude: None })
                .push(GrammarView::AnyNumberOf {
                    options: Seq::empty()
                        .push(GrammarView::Ref { name: "QuotedLiteralSegment"@, exclude: None })
                        .push(GrammarView::Ref { name: "FileLiteralSegment"@, exclude: None }),
                    min_times: 0,
                    max_times: None,
                    max_times_per_element: None,
                }),
        }),
    }
}

/// The grammar of `AddJarSegment`.
pub fn add_jar_segment() -> (r: Grammar)
    ensures
        grammar_view(r) == add_jar_segment_view(),
{
    Grammar::sequence_of(
        GrammarList::new()
            .and(Grammar::keyword("ADD"))
            .and(Grammar::reference("JarKeywordSegment"))
            .and(Grammar::repeated(
                GrammarList::new()
                    .and(Grammar::reference("QuotedLiteralSegment"))
                    .and(Grammar::reference("FileLiteralSegment")),
                0,
                None,
                None,
            )),
    ).node(SyntaxKind::AddJarStatement)
}

/// The grammar of `AnalyzeTableSegment`.
pub open spec fn analyze_table_segment_view() -> GrammarView {
    GrammarView::Node {
        kind: SyntaxKind::AnalyzeTableStatement,
        inner: Box::new(GrammarView::Sequence {
            elements: Seq::empty()
                .push(GrammarView::Text { template: "ANALYZE"@, becomes: SyntaxKind::Keyword })
                .push(GrammarView::OneOf {
                    options: Seq::empty()
                        .push(GrammarView::Sequence {
                            elements: Seq::empty()
                                .push(
                                    GrammarView::Text {
                                        template: "TABLE"@,
                                        becomes: SyntaxKind::Keyword,
                                    },
                                )
                                .push(
                                    GrammarView::Ref {
                                        name: "TableReferenceSegment"@,
                                        exclude: None,
                                    },
                                )
                                .push(
                                    GrammarView::Optional { inner: Box::new(
                                        GrammarView::Ref {
                                            name: "PartitionSpecGrammar"@,
                                            exclude: None,
                                        },
                                    ) },
                                )
                                .push(
                                    GrammarView::Text {
                                        template: "COMPUTE"@,
                                        becomes: SyntaxKind::Keyword,
                                    },
                                )
                                .push(
                                    GrammarView::Text {
                                        template: "STATISTICS"@,
                                        becomes: SyntaxKind::Keyword,
                                    },
                                )
                                .push(GrammarView::Optional { inner: Box::new(GrammarView::OneOf {
                                    options: Seq::empty()
                                        .push(
                                            GrammarView::Text {
                                                template: "NOSCAN"@,
                                                becomes: SyntaxKind::Keyword,
                                            },
                                        )
                                        .push(GrammarView::Sequence {
                                            elements: Seq::empty()
                                                .push(
                                                    GrammarView::Text {
                                                        template: "FOR"@,
                                                        becomes: SyntaxKind::Keyword,
                                                    },
                                                )
                                                .push(
                                                    GrammarView::Text {
                                                        template: "COLUMNS"@,
                                                        becomes: SyntaxKind::Keyword,
                                                    },
                                                )
                                                .push(GrammarView::OneOf {
                                                    options: Seq::empty()
                                                        .push(GrammarView::Bracketed {
                                                            elements: Seq::empty()
                                                                .push(GrammarView::Delimited {
                                                                    options: Seq::empty()
                                                                        .push(
                                                                            GrammarView::Ref {
                                                                                name: "ColumnReferenceSegment"@,
                                                                                exclude: None,
                                                                            },
                                                                        ),
                                                                    delimiter: Box::new(
                                                                        GrammarView::Ref {
                                                                            name: "CommaSegment"@,
                                                                            exclude: None,
                                                                        },
                                                                    ),
                                                                    min_delimiters: 0,
                                                                    allow_trailing: false,
                                                                }),
                                                            bracket_type: "round"@,
                                                            parse_mode: ParseMode::Strict,
                                                        })
                                                        .push(GrammarView::Delimited {
                                                            options: Seq::empty()
                                                                .push(
                                                                    GrammarView::Ref {
                                                                        name: "ColumnReferenceSegment"@,
                                                                        exclude: None,
                                                                    },
                                                                ),
                                                            delimiter: Box::new(
                                                                GrammarView::Ref {
                                                                    name: "CommaSegment"@,
                                                                    exclude: None,
                                                                },
                                                            ),
                                                            min_delimiters: 0,
                                                            allow_trailing: false,
                                                        }),
                                                }),
                                        }),
                                }) }),
                        })
                        .push(GrammarView::Sequence {
                            elements: Seq::empty()
                                .push(
                                    GrammarView::Text {
                                        template: "TABLES"@,
                                        becomes: SyntaxKind::Keyword,
                                    },
                                )
                                .push(GrammarView::Optional { inner: Box::new(GrammarView::Sequence {
                                    elements: Seq::empty()
                                        .push(GrammarView::OneOf {
                                            options: Seq::empty()
                                                .push(
                                                    GrammarView::Text {
                                                        template: "FROM"@,
                                                        becomes: SyntaxKind::Keyword,
                                                    },
                                                )
                                                .push(
                                                    GrammarView::Text {
                                                        template: "IN"@,
                                                        becomes: SyntaxKind::Keyword,
                                                    },
                                                ),
                                        })
                                        .push(
                                            GrammarView::Ref {
                                                name: "DatabaseReferenceSegment"@,
                                                exclude: None,
                                            },
                                        ),
                                }) })
                                .push(
                                    GrammarView::Text {
                                        template: "COMPUTE"@,
                                        becomes: SyntaxKind::Keyword,
                                    },
                                )
                                .push(
                                    GrammarView::Text {
                                        template: "STATISTICS"@,
                                        becomes: SyntaxKind::Keyword,
                                    },
                                )
                                .push(
                                    GrammarView::Optional { inner: Box::new(
                                        GrammarView::Text {
                                            template: "NOSCAN"@,
                                            becomes: SyntaxKind::Keyword,
                                        },
                                    ) },
                                ),
                        }),
                }),
        }),
    }
}

/// The grammar of `AnalyzeTableSegment`.
pub fn analyze_table_segment() -> (r: Grammar)
    ensures
        grammar_view(r) == analyze_table_segment_view(),
{
    Grammar::sequence_of(
        GrammarList::new()
            .and(Grammar::keyword("ANALYZE"))
            .and(Grammar::first_of(
                GrammarList::new()
                    .and(Grammar::sequence_of(
                        GrammarList::new()
                            .and(Grammar::keyword("TABLE"))
                            .and(Grammar::reference("TableReferenceSegment"))
                            .and(Grammar::reference("PartitionSpecGrammar").optional())
                            .and(Grammar::keyword("COMPUTE"))
                            .and(Grammar::keyword("STATISTICS"))
                            .and(Grammar::first_of(
                                GrammarList::new()
                                    .and(Grammar::keyword("NOSCAN"))
                                    .and(Grammar::sequence_of(
                                        GrammarList::new()
                                            .and(Grammar::keyword("FOR"))
                                            .and(Grammar::keyword("COLUMNS"))
                                            .and(Grammar::first_of(
                                                GrammarList::new()
                                                    .and(Grammar::bracketed_by(
                                                        GrammarList::new()
                                                            .and(Grammar::delimited_by(
                                                                GrammarList::new()
                                                                    .and(
                                                                        Grammar::reference(
                                                                            "ColumnReferenceSegment",
                                                                        ),
                                                                    ),
                                                                Grammar::reference("CommaSegment"),
                                                                0,
                                                                false,
                                                            )),
                                                        "round",
                                                        ParseMode::Strict,
                                                    ))
                                                    .and(Grammar::delimited_by(
                                                        GrammarList::new()
                                                            .and(
                                                                Grammar::reference(
                                                                    "ColumnReferenceSegment",
                                                                ),
                                                            ),
                                                        Grammar::reference("CommaSegment"),
                                                        0,
                                                        false,
                                                    )),
                                            )),
                                    )),
                            ).optional()),
                    ))
                    .and(Grammar::sequence_of(
                        GrammarList::new()
                            .and(Grammar::keyword("TABLES"))
                            .and(Grammar::sequence_of(
                                GrammarList::new()
                                    .and(Grammar::first_of(
                                        GrammarList::new()
                                            .and(Grammar::keyword("FROM"))
                                            .and(Grammar::keyword("IN")),
                                    ))
                                    .and(Grammar::reference("DatabaseReferenceSegment")),
                            ).optional())
                            .and(Grammar::keyword("COMPUTE"))
                            .and(Grammar::keyword("STATISTICS"))
                            .and(Grammar::keyword("NOSCAN").optional()),
                    )),
            )),
    ).node(SyntaxKind::AnalyzeTableStatement)
}

/// The grammar of `CacheTableSegment`.
pub open spec fn cache_table_segment_view() -> GrammarView {
    GrammarView::Node {
        kind: SyntaxKind::CacheTable,
        inner: Box::new(GrammarView::Sequence {
            elements: Seq::empty()
                .push(GrammarView::Text { template: "CACHE"@, becomes: SyntaxKind::Keyword })
                .push(
                    GrammarView::Optional { inner: Box::new(
                        GrammarView::Text { template: "LAZY"@, becomes: SyntaxKind::Keyword },
                    ) },
                )
                .push(GrammarView::Text { template: "TABLE"@, becomes: SyntaxKind::Keyword })
                .push(GrammarView::Ref { name: "TableReferenceSegment"@, exclude: None })
                .push(
                    GrammarView::Optional { inner: Box::new(
                        GrammarView::Ref { name: "OptionsGrammar"@, exclude: None },
                    ) },
                )
                .push(GrammarView::Optional { inner: Box::new(GrammarView::Sequence {
                    elements: Seq::empty()
                        .push(
                            GrammarView::Optional { inner: Box::new(
                                GrammarView::Text { template: "AS"@, becomes: SyntaxKind::Keyword },
                            ) },
                        )
                        .push(GrammarView::Ref { name: "SelectableGrammar"@, exclude: None }),
                }) }),
        }),
    }
}

/// The grammar of `CacheTableSegment`.
pub fn cache_table_segment() -> (r: Grammar)
    ensures
        grammar_view(r) == cache_table_segment_view(),
{
    Grammar::sequence_of(
        GrammarList::new()
            .and(Grammar::keyword("CACHE"))
            .and(Grammar::keyword("LAZY").optional())
            .and(Grammar::keyword("TABLE"))
            .and(Grammar::reference("TableReferenceSegment"))
            .and(Grammar::reference("OptionsGrammar").optional())
            .and(Grammar::sequence_of(
                GrammarList::new()
                    .and(Grammar::keyword("AS").optional())
                    .and(Grammar::reference("SelectableGrammar")),
            ).optional()),
    ).node(SyntaxKind::CacheTable)
}

/// The grammar of `ClearCacheSegment`.
pub open spec fn clear_cache_segment_view() -> GrammarView {
    GrammarView::Node {
        kind: SyntaxKind::ClearCache,
        inner: Box::new(GrammarView::Sequence {
            elements: Seq::empty()
                .push(GrammarView::Text { template: "CLEAR"@, becomes: SyntaxKind::Keyword })
                .push(GrammarView::Text { template: "CACHE"@, becomes: SyntaxKind::Keyword }),
        }),
    }
}

/// The grammar of `ClearCacheSegment`.
pub fn clear_cache_segment() -> (r: Grammar)
    ensures
        grammar_view(r) == clear_cache_segment_view(),
{
    Grammar::sequence_of(
        GrammarList::new()
            .and(Grammar::keyword("CLEAR"))
            .and(Grammar::keyword("CACHE")),
    ).node(SyntaxKind::ClearCache)
}

/// The grammar of `DescribeStatementSegment`.
pub open spec fn describe_statement_segment_view() -> GrammarView {
    GrammarView::Node {
        kind: SyntaxKind::DescribeStatement,
        inner: Box::new(GrammarView::Sequence {
            elements: Seq::empty()
                .push(GrammarView::OneOf {
                    options: Seq::empty()
                        .push(
                            GrammarView::Text {
                                template: "DESCRIBE"@,
                                becomes: SyntaxKind::Keyword,
                            },
                        )
                        .push(
                            GrammarView::Text { template: "DESC"@, becomes: SyntaxKind::Keyword },
                        ),
                })
                .push(GrammarView::Excluding {
                    inner: Box::new(GrammarView::OneOf {
                        options: Seq::empty()
                            .push(GrammarView::Sequence {
                                elements: Seq::empty()
                                    .push(GrammarView::OneOf {
                                        options: Seq::empty()
                                            .push(
                                                GrammarView::Text {
                                                    template: "DATABASE"@,
                                                    becomes: SyntaxKind::Keyword,
                                                },
                                            )
                                            .push(
                                                GrammarView::Text {
                                                    template: "SCHEMA"@,
                                                    becomes: SyntaxKind::Keyword,
                                                },
                                            ),
                                    })
                                    .push(
                                        GrammarView::Optional { inner: Box::new(
                                            GrammarView::Text {
                                                template: "EXTENDED"@,
                                                becomes: SyntaxKind::Keyword,
                                            },
                                        ) },
                                    )
                                    .push(
                                        GrammarView::Ref {
                                            name: "DatabaseReferenceSegment"@,
                                            exclude: None,
                                        },
                                    ),
                            })
                            .push(GrammarView::Sequence {
                                elements: Seq::empty()
                                    .push(
                                        GrammarView::Text {
                                            template: "FUNCTION"@,
                                            becomes: SyntaxKind::Keyword,
                                        },
                                    )
                                    .push(
                                        GrammarView::Optional { inner: Box::new(
                                            GrammarView::Text {
                                                template: "EXTENDED"@,
                                                becomes: SyntaxKind::Keyword,
                                            },
                                        ) },
                                    )
                                    .push(
                                        GrammarView::Ref {
                                            name: "FunctionNameSegment"@,
                                            exclude: None,
                                        },
                                    ),
                            })
                            .push(GrammarView::Sequence {
                                elements: Seq::empty()
                                    .push(
                                        GrammarView::Optional { inner: Box::new(
                                            GrammarView::Text {
                                                template: "TABLE"@,
                                                becomes: SyntaxKind::Keyword,
                                            },
                                        ) },
                                    )
                                    .push(
                                        GrammarView::Optional { inner: Box::new(
                                            GrammarView::Text {
                                                template: "EXTENDED"@,
                                                becomes: SyntaxKind::Keyword,
                                            },
                                        ) },
                                    )
                                    .push(
                                        GrammarView::Ref {
                                            name: "TableReferenceSegment"@,
                                            exclude: None,
                                        },
                                    )
                                    .push(
                                        GrammarView::Optional { inner: Box::new(
                                            GrammarView::Ref {
                                                name: "PartitionSpecGrammar"@,
                                                exclude: None,
                                            },
                                        ) },
                                    )
                                    .push(GrammarView::Optional { inner: Box::new(GrammarView::Sequence {
                                        elements: Seq::empty()
                                            .push(
                                                GrammarView::Ref {
                                                    name: "SingleIdentifierGrammar"@,
                                                    exclude: None,
                                                },
                                            )
                                            .push(GrammarView::AnyNumberOf {
                                                options: Seq::empty()
                                                    .push(GrammarView::Sequence {
                                                        elements: Seq::empty()
                                                            .push(
                                                                GrammarView::Ref {
                                                                    name: "DotSegment"@,
                                                                    exclude: None,
                                                                },
                                                            )
                                                            .push(
                                                                GrammarView::Ref {
                                                                    name: "SingleIdentifierGrammar"@,
                                                                    exclude: None,
                                                                },
                                                            ),
                                                    }),
                                                min_times: 0,
                                                max_times: Some(2),
                                                max_times_per_element: None,
                                            }),
                                    }) }),
                            })
                            .push(GrammarView::Sequence {
                                elements: Seq::empty()
                                    .push(
                                        GrammarView::Optional { inner: Box::new(
                                            GrammarView::Text {
                                                template: "QUERY"@,
                                                becomes: SyntaxKind::Keyword,
                                            },
                                        ) },
                                    )
                                    .push(GrammarView::OneOf {
                                        options: Seq::empty()
                                            .push(GrammarView::Sequence {
                                                elements: Seq::empty()
                                                    .push(
                                                        GrammarView::Text {
                                                            template: "TABLE"@,
                                                            becomes: SyntaxKind::Keyword,
                                                        },
                                                    )
                                                    .push(
                                                        GrammarView::Ref {
                                                            name: "TableReferenceSegment"@,
                                                            exclude: None,
                                                        },
                                                    ),
                                            })
                                            .push(GrammarView::Sequence {
                                                elements: Seq::empty()
                                                    .push(
                                                        GrammarView::Text {
                                                            template: "FROM"@,
                                                            becomes: SyntaxKind::Keyword,
                                                        },
                                                    )
                                                    .push(
                                                        GrammarView::Ref {
                                                            name: "TableReferenceSegment"@,
                                                            exclude: None,
                                                        },
                                                    )
                                                    .push(
                                                        GrammarView::Text {
                                                            template: "SELECT"@,
                                                            becomes: SyntaxKind::Keyword,
                                                        },
                                                    )
                                                    .push(GrammarView::Delimited {
                                                        options: Seq::empty()
                                                            .push(
                                                                GrammarView::Ref {
                                                                    name: "ColumnReferenceSegment"@,
                                                                    exclude: None,
                                                                },
                                                            ),
                                                        delimiter: Box::new(
                                                            GrammarView::Ref {
                                                                name: "CommaSegment"@,
                                                                exclude: None,
                                                            },
                                                        ),
                                                        min_delimiters: 0,
                                                        allow_trailing: false,
                                                    })
                                                    .push(
                                                        GrammarView::Optional { inner: Box::new(
                                                            GrammarView::Ref {
                                                                name: "WhereClauseSegment"@,
                                                                exclude: None,
                                                            },
                                                        ) },
                                                    )
                                                    .push(
                                                        GrammarView::Optional { inner: Box::new(
                                                            GrammarView::Ref {
                                                                name: "GroupByClauseSegment"@,
                                                                exclude: None,
                                                            },
                                                        ) },
                                                    )
                                                    .push(
                                                        GrammarView::Optional { inner: Box::new(
                                                            GrammarView::Ref {
                                                                name: "OrderByClauseSegment"@,
                                                                exclude: None,
                                                            },
                                                        ) },
                                                    )
                                                    .push(
                                                        GrammarView::Optional { inner: Box::new(
                                                            GrammarView::Ref {
                                                                name: "LimitClauseSegment"@,
                                                                exclude: None,
                                                            },
                                                        ) },
                                                    ),
                                            })
                                            .push(
                                                GrammarView::Ref {
                                                    name: "StatementSegment"@,
                                                    exclude: None,
                                                },
                                            ),
                                    }),
                            }),
                    }),
                    exclude: Box::new(GrammarView::OneOf {
                        options: Seq::empty()
                            .push(
                                GrammarView::Text {
                                    template: "HISTORY"@,
                                    becomes: SyntaxKind::Keyword,
                                },
                            )
                            .push(
                                GrammarView::Text {
                                    template: "DETAIL"@,
                                    becomes: SyntaxKind::Keyword,
                                },
                            ),
                    }),
                }),
        }),
    }
}

/// The grammar of `DescribeStatementSegment`.
pub fn describe_statement_segment() -> (r: Grammar)
    ensures
        grammar_view(r) == describe_statement_segment_view(),
{
    Grammar::sequence_of(
        GrammarList::new()
            .and(Grammar::first_of(
                GrammarList::new()
                    .and(Grammar::keyword("DESCRIBE"))
                    .and(Grammar::keyword("DESC")),
            ))
            .and(Grammar::excluding(
                Grammar::first_of(
                    GrammarList::new()
                        .and(Grammar::sequence_of(
                            GrammarList::new()
                                .and(Grammar::first_of(
                                    GrammarList::new()
                                        .and(Grammar::keyword("DATABASE"))
                                        .and(Grammar::keyword("SCHEMA")),
                                ))
                                .and(Grammar::keyword("EXTENDED").optional())
                                .and(Grammar::reference("DatabaseReferenceSegment")),
                        ))
                        .and(Grammar::sequence_of(
                            GrammarList::new()
                                .and(Grammar::keyword("FUNCTION"))
                                .and(Grammar::keyword("EXTENDED").optional())
                                .and(Grammar::reference("FunctionNameSegment")),
                        ))
                        .and(Grammar::sequence_of(
                            GrammarList::new()
                                .and(Grammar::keyword("TABLE").optional())
                                .and(Grammar::keyword("EXTENDED").optional())
                                .and(Grammar::reference("TableReferenceSegment"))
                                .and(Grammar::reference("PartitionSpecGrammar").optional())
                                .and(Grammar::sequence_of(
                                    GrammarList::new()
                                        .and(Grammar::reference("SingleIdentifierGrammar"))
                                        .and(Grammar::repeated(
                                            GrammarList::new()
                                                .and(Grammar::sequence_of(
                                                    GrammarList::new()
                                                        .and(Grammar::reference("DotSegment"))
                                                        .and(
                                                            Grammar::reference(
                                                                "SingleIdentifierGrammar",
                                                            ),
                                                        ),
                                                )),
                                            0,
                                            Some(2),
                                            None,
                                        )),
                                ).optional()),
                        ))
                        .and(Grammar::sequence_of(
                            GrammarList::new()
                                .and(Grammar::keyword("QUERY").optional())
                                .and(Grammar::first_of(
                                    GrammarList::new()
                                        .and(Grammar::sequence_of(
                                            GrammarList::new()
                                                .and(Grammar::keyword("TABLE"))
                                                .and(Grammar::reference("TableReferenceSegment")),
                                        ))
                                        .and(Grammar::sequence_of(
                                            GrammarList::new()
                                                .and(Grammar::keyword("FROM"))
                                                .and(Grammar::reference("TableReferenceSegment"))
                                                .and(Grammar::keyword("SELECT"))
                                                .and(Grammar::delimited_by(
                                                    GrammarList::new()
                                                        .and(
                                                            Grammar::reference(
                                                                "ColumnReferenceSegment",
                                                            ),
                                                        ),
                                                    Grammar::reference("CommaSegment"),
                                                    0,
                                                    false,
                                                ))
                                                .and(
                                                    Grammar::reference("WhereClauseSegment").optional(),
                                                )
                                                .and(
                                                    Grammar::reference("GroupByClauseSegment").optional(),
                                                )
                                                .and(
                                                    Grammar::reference("OrderByClauseSegment").optional(),
                                                )
                                                .and(
                                                    Grammar::reference("LimitClauseSegment").optional(),
                                                ),
                                        ))
                                        .and(Grammar::reference("StatementSegment")),
                                )),
                        )),
                ),
                Grammar::first_of(
                    GrammarList::new()
                        .and(Grammar::keyword("HISTORY"))
                        .and(Grammar::keyword("DETAIL")),
                ),
            )),
    ).node(SyntaxKind::DescribeStatement)
}

/// The grammar of `ListFileSegment`.
pub open spec fn list_file_segment_view() -> GrammarView {
    GrammarView::Node {
        kind: SyntaxKind::ListFileStatement,
        inner: Box::new(GrammarView::Sequence {
            elements: Seq::empty()
                .push(GrammarView::Text { template: "LIST"@, becomes: SyntaxKind::Keyword })
                .push(GrammarView::Ref { name: "FileKeywordSegment"@, exclude: None })
                .push(GrammarView::AnyNumberOf {
                    options: Seq::empty()
                        .push(GrammarView::Ref { name: "QuotedLiteralSegment"@, exclude: None }),
                    min_times: 0,
                    max_times: None,
                    max_times_per_element: None,
                }),
        }),
    }
}

/// The grammar of `ListFileSegment`.
pub fn list_file_segment() -> (r: Grammar)
    ensures
        grammar_view(r) == list_file_segment_view(),
{
    Grammar::sequence_of(
        GrammarList::new()
            .and(Grammar::keyword("LIST"))
            .and(Grammar::reference("FileKeywordSegment"))
            .and(Grammar::repeated(
                GrammarList::new()
                    .and(Grammar::reference("QuotedLiteralSegment")),
                0,
                None,
                None,
            )),
    ).node(SyntaxKind::ListFileStatement)
}

/// The grammar of `ListJarSegment`.
pub open spec fn list_jar_segment_view() -> GrammarView {
    GrammarView::Node {
        kind: SyntaxKind::ListJarStatement,
        inner: Box::new(GrammarView::Sequence {
            elements: Seq::empty()
                .push(GrammarView::Text { template: "LIST"@, becomes: SyntaxKind::Keyword })
                .push(GrammarView::Ref { name: "JarKeywordSegment"@, exclude: None })
                .push(GrammarView::AnyNumberOf {
                    options: Seq::empty()
                        .push(GrammarView::Ref { name: "QuotedLiteralSegment"@, exclude: None }),
                    min_times: 0,
                    max_times: None,
                    max_times_per_element: None,
                }),
        }),
    }
}

/// The grammar of `ListJarSegment`.
pub fn list_jar_segment() -> (r: Grammar)
    ensures
        grammar_view(r) == list_jar_segment_view(),
{
    Grammar::sequence_of(
        GrammarList::new()
            .and(Grammar::keyword("LIST"))
            .and(Grammar::reference("JarKeywordSegment"))
            .and(Grammar::repeated(
                GrammarList::new()
                    .and(Grammar::reference("QuotedLiteralSegment")),
                0,
                None,
                None,
            )),
    ).node(SyntaxKind::ListJarStatement)
}

/// The grammar of `RefreshStatementSegment`.
pub open spec fn refresh_statement_segment_view() -> GrammarView {
    GrammarView::Node {
        kind: SyntaxKind::RefreshStatement,
        inner: Box::new(GrammarView::Sequence {
            elements: Seq::empty()
                .push(GrammarView::Text { template: "REFRESH"@, becomes: SyntaxKind::Keyword })
                .push(GrammarView::OneOf {
                    options: Seq::empty()
                        .push(GrammarView::Ref { name: "QuotedLiteralSegment"@, exclude: None })
                        .push(GrammarView::Sequence {
                            elements: Seq::empty()
                                .push(
                                    GrammarView::Optional { inner: Box::new(
                                        GrammarView::Text {
                                            template: "TABLE"@,
                                            becomes: SyntaxKind::Keyword,
                                        },
                                    ) },
                                )
                                .push(
                                    GrammarView::Ref {
                                        name: "TableReferenceSegment"@,
                                        exclude: None,
                                    },
                                ),
                        })
                        .push(GrammarView::Sequence {
                            elements: Seq::empty()
                                .push(
                                    GrammarView::Text {
                                        template: "FUNCTION"@,
                                        becomes: SyntaxKind::Keyword,
                                    },
                                )
                                .push(
                                    GrammarView::Ref {
                                        name: "FunctionNameSegment"@,
                                        exclude: None,
                                    },
                                ),
                        }),
                }),
        }),
    }
}

/// The grammar of `RefreshStatementSegment`.
pub fn refresh_statement_segment() -> (r: Grammar)
    ensures
        grammar_view(r) == refresh_statement_segment_view(),
{
    Grammar::sequence_of(
        GrammarList::new()
            .and(Grammar::keyword("REFRESH"))
            .and(Grammar::first_of(
                GrammarList::new()
                    .and(Grammar::reference("QuotedLiteralSegment"))
                    .and(Grammar::sequence_of(
                        GrammarList::new()
                            .and(Grammar::keyword("TABLE").optional())
                            .and(Grammar::reference("TableReferenceSegment")),
                    ))
                    .and(Grammar::sequence_of(
                        GrammarList::new()
                            .and(Grammar::keyword("FUNCTION"))
                            .and(Grammar::reference("FunctionNameSegment")),
                    )),
            )),
    ).node(SyntaxKind::RefreshStatement)
}

/// The grammar of `ResetStatementSegment`.
pub open spec fn reset_statement_segment_view() -> GrammarView {
    GrammarView::Node {
        kind: SyntaxKind::ResetStatement,
        inner: Box::new(GrammarView::Sequence {
            elements: Seq::empty()
                .push(GrammarView::Text { template: "RESET"@, becomes: SyntaxKind::Keyword })
                .push(GrammarView::Optional { inner: Box::new(GrammarView::Delimited {
                    options: Seq::empty()
                        .push(GrammarView::Ref { name: "SingleIdentifierGrammar"@, exclude: None }),
                    delimiter: Box::new(GrammarView::Ref { name: "DotSegment"@, exclude: None }),
                    min_delimiters: 0,
                    allow_trailing: false,
                }) }),
        }),
    }
}

/// The grammar of `ResetStatementSegment`.
pub fn reset_statement_segment() -> (r: Grammar)
    ensures
        grammar_view(r) == reset_statement_segment_view(),
{
    Grammar::sequence_of(
        GrammarList::new()
            .and(Grammar::keyword("RESET"))
            .and(Grammar::delimited_by(
                GrammarList::new()
                    .and(Grammar::reference("SingleIdentifierGrammar")),
                Grammar::reference("DotSegment"),
                0,
                false,
            ).optional()),
    ).node(SyntaxKind::ResetStatement)
}

/// The grammar of `SetStatementSegment`.
pub open spec fn set_statement_segment_view() -> GrammarView {
    GrammarView::Node {
        kind: SyntaxKind::SetStatement,
        inner: Box::new(GrammarView::Sequence {
            elements: Seq::empty()
                .push(GrammarView::Text { template: "SET"@, becomes: SyntaxKind::Keyword })
                .push(
                    GrammarView::Optional { inner: Box::new(
                        GrammarView::Ref { name: "SQLConfPropertiesSegment"@, exclude: None },
                    ) },
                )
                .push(GrammarView::Optional { inner: Box::new(GrammarView::OneOf {
                    options: Seq::empty()
                        .push(GrammarView::Ref { name: "PropertyListGrammar"@, exclude: None })
                        .push(GrammarView::Ref { name: "PropertyNameSegment"@, exclude: None }),
                }) }),
        }),
    }
}

/// The grammar of `SetStatementSegment`.
pub fn set_statement_segment() -> (r: Grammar)
    ensures
        grammar_view(r) == set_statement_segment_view(),
{
    Grammar::sequence_of(
        GrammarList::new()
            .and(Grammar::keyword("SET"))
            .and(Grammar::reference("SQLConfPropertiesSegment").optional())
            .and(Grammar::first_of(
                GrammarList::new()
                    .and(Grammar::reference("PropertyListGrammar"))
                    .and(Grammar::reference("PropertyNameSegment")),
            ).optional()),
    ).node(SyntaxKind::SetStatement)
}

/// The grammar of `ShowStatement`.
pub open spec fn show_statement_view() -> GrammarView {
    GrammarView::Node {
        kind: SyntaxKind::ShowStatement,
        inner: Box::new(GrammarView::Sequence {
            elements: Seq::empty()
                .push(GrammarView::Text { template: "SHOW"@, becomes: SyntaxKind::Keyword })
                .push(GrammarView::OneOf {
                    options: Seq::empty()
                        .push(GrammarView::Sequence {
                            elements: Seq::empty()
                                .push(
                                    GrammarView::Text {
                                        template: "CREATE"@,
                                        becomes: SyntaxKind::Keyword,
                                    },
                                )
                                .push(
                                    GrammarView::Text {
                                        template: "TABLE"@,
                                        becomes: SyntaxKind::Keyword,
                                    },
                                )
                                .push(
                                    GrammarView::Ref {
                                        name: "TableExpressionSegment"@,
                                        exclude: None,
                                    },
                                )
                                .push(GrammarView::Optional { inner: Box::new(GrammarView::Sequence {
                                    elements: Seq::empty()
                                        .push(
                                            GrammarView::Text {
                                                template: "AS"@,
                                                becomes: SyntaxKind::Keyword,
                                            },
                                        )
                                        .push(
                                            GrammarView::Text {
                                                template: "SERDE"@,
                                                becomes: SyntaxKind::Keyword,
                                            },
                                        ),
                                }) }),
                        })
                        .push(GrammarView::Sequence {
                            elements: Seq::empty()
                                .push(
                                    GrammarView::Text {
                                        template: "COLUMNS"@,
                                        becomes: SyntaxKind::Keyword,
                                    },
                                )
                                .push(
                                    GrammarView::Text {
                                        template: "IN"@,
                                        becomes: SyntaxKind::Keyword,
                                    },
                                )
                                .push(
                                    GrammarView::Ref {
                                        name: "TableExpressionSegment"@,
                                        exclude: None,
                                    },
                                )
                                .push(GrammarView::Optional { inner: Box::new(GrammarView::Sequence {
                                    elements: Seq::empty()
                                        .push(
                                            GrammarView::Text {
                                                template: "IN"@,
                                                becomes: SyntaxKind::Keyword,
                                            },
                                        )
                                        .push(
                                            GrammarView::Ref {
                                                name: "DatabaseReferenceSegment"@,
                                                exclude: None,
                                            },
                                        ),
                                }) }),
                        })
                        .push(GrammarView::Sequence {
                            elements: Seq::empty()
                                .push(GrammarView::OneOf {
                                    options: Seq::empty()
                                        .push(
                                            GrammarView::Text {
                                                template: "DATABASES"@,
                                                becomes: SyntaxKind::Keyword,
                                            },
                                        )
                                        .push(
                                            GrammarView::Text {
                                                template: "SCHEMAS"@,
                                                becomes: SyntaxKind::Keyword,
                                            },
                                        ),
                                })
                                .push(GrammarView::Optional { inner: Box::new(GrammarView::Sequence {
                                    elements: Seq::empty()
                                        .push(
                                            GrammarView::Text {
                                                template: "LIKE"@,
                                                becomes: SyntaxKind::Keyword,
                                            },
                                        )
                                        .push(
                                            GrammarView::Ref {
                                                name: "QuotedLiteralSegment"@,
                                                exclude: None,
                                            },
                                        ),
                                }) }),
                        })
                        .push(GrammarView::Sequence {
                            elements: Seq::empty()
                                .push(GrammarView::Optional { inner: Box::new(GrammarView::OneOf {
                                    options: Seq::empty()
                                        .push(
                                            GrammarView::Text {
                                                template: "USER"@,
                                                becomes: SyntaxKind::Keyword,
                                            },
                                        )
                                        .push(
                                            GrammarView::Text {
                                                template: "SYSTEM"@,
                                                becomes: SyntaxKind::Keyword,
                                            },
                                        )
                                        .push(
                                            GrammarView::Text {
                                                template: "ALL"@,
                                                becomes: SyntaxKind::Keyword,
                                            },
                                        ),
                                }) })
                                .push(
                                    GrammarView::Text {
                                        template: "FUNCTIONS"@,
                                        becomes: SyntaxKind::Keyword,
                                    },
                                )
                                .push(GrammarView::OneOf {
                                    options: Seq::empty()
                                        .push(GrammarView::Optional { inner: Box::new(GrammarView::Sequence {
                                            elements: Seq::empty()
                                                .push(
                                                    GrammarView::Ref {
                                                        name: "DatabaseReferenceSegment"@,
                                                        exclude: None,
                                                    },
                                                )
                                                .push(
                                                    GrammarView::Ref {
                                                        name: "DotSegment"@,
                                                        exclude: None,
                                                    },
                                                )
                                                .push(
                                                    GrammarView::Ref {
                                                        name: "FunctionNameSegment"@,
                                                        exclude: None,
                                                    },
                                                ),
                                        }) })
                                        .push(
                                            GrammarView::Optional { inner: Box::new(
                                                GrammarView::Ref {
                                                    name: "FunctionNameSegment"@,
                                                    exclude: None,
                                                },
                                            ) },
                                        )
                                        .push(GrammarView::Optional { inner: Box::new(GrammarView::Sequence {
                                            elements: Seq::empty()
                                                .push(
                                                    GrammarView::Text {
                                                        template: "LIKE"@,
                                                        becomes: SyntaxKind::Keyword,
                                                    },
                                                )
                                                .push(
                                                    GrammarView::Ref {
                                                        name: "QuotedLiteralSegment"@,
                                                        exclude: None,
                                                    },
                                                ),
                                        }) }),
                                }),
                        })
                        .push(GrammarView::Sequence {
                            elements: Seq::empty()
                                .push(
                                    GrammarView::Text {
                                        template: "PARTITIONS"@,
                                        becomes: SyntaxKind::Keyword,
                                    },
                                )
                                .push(
                                    GrammarView::Ref {
                                        name: "TableReferenceSegment"@,
                                        exclude: None,
                                    },
                                )
                                .push(
                                    GrammarView::Optional { inner: Box::new(
                                        GrammarView::Ref {
                                            name: "PartitionSpecGrammar"@,
                                            exclude: None,
                                        },
                                    ) },
                                ),
                        })
                        .push(GrammarView::Sequence {
                            elements: Seq::empty()
                                .push(
                                    GrammarView::Text {
                                        template: "TABLE"@,
                                        becomes: SyntaxKind::Keyword,
                                    },
                                )
                                .push(
                                    GrammarView::Text {
                                        template: "EXTENDED"@,
                                        becomes: SyntaxKind::Keyword,
                                    },
                                )
                                .push(GrammarView::Optional { inner: Box::new(GrammarView::Sequence {
                                    elements: Seq::empty()
                                        .push(GrammarView::OneOf {
                                            options: Seq::empty()
                                                .push(
                                                    GrammarView::Text {
                                                        template: "IN"@,
                                                        becomes: SyntaxKind::Keyword,
                                                    },
                                                )
                                                .push(
                                                    GrammarView::Text {
                                                        template: "FROM"@,
                                                        becomes: SyntaxKind::Keyword,
                                                    },
                                                ),
                                        })
                                        .push(
                                            GrammarView::Ref {
                                                name: "DatabaseReferenceSegment"@,
                                                exclude: None,
                                            },
                                        ),
                                }) })
                                .push(
                                    GrammarView::Text {
                                        template: "LIKE"@,
                                        becomes: SyntaxKind::Keyword,
                                    },
                                )
                                .push(
                                    GrammarView::Ref {
                                        name: "QuotedLiteralSegment"@,
                                        exclude: None,
                                    },
                                )
                                .push(
                                    GrammarView::Optional { inner: Box::new(
                                        GrammarView::Ref {
                                            name: "PartitionSpecGrammar"@,
                                            exclude: None,
                                        },
                                    ) },
                                ),
                        })
                        .push(GrammarView::Sequence {
                            elements: Seq::empty()
                                .push(
                                    GrammarView::Text {
                                        template: "TABLES"@,
                                        becomes: SyntaxKind::Keyword,
                                    },
                                )
                                .push(GrammarView::Optional { inner: Box::new(GrammarView::Sequence {
                                    elements: Seq::empty()
                                        .push(GrammarView::OneOf {
                                            options: Seq::empty()
                                                .push(
                                                    GrammarView::Text {
                                                        template: "FROM"@,
                                                        becomes: SyntaxKind::Keyword,
                                                    },
                                                )
                                                .push(
                                                    GrammarView::Text {
                                                        template: "IN"@,
                                                        becomes: SyntaxKind::Keyword,
                                                    },
                                                ),
                                        })
                                        .push(
                                            GrammarView::Ref {
                                                name: "DatabaseReferenceSegment"@,
                                                exclude: None,
                                            },
                                        ),
                                }) })
                                .push(GrammarView::Optional { inner: Box::new(GrammarView::Sequence {
                                    elements: Seq::empty()
                                        .push(
                                            GrammarView::Text {
                                                template: "LIKE"@,
                                                becomes: SyntaxKind::Keyword,
                                            },
                                        )
                                        .push(
                                            GrammarView::Ref {
                                                name: "QuotedLiteralSegment"@,
                                                exclude: None,
                                            },
                                        ),
                                }) }),
                        })
                        .push(GrammarView::Sequence {
                            elements: Seq::empty()
                                .push(
                                    GrammarView::Text {
                                        template: "TBLPROPERTIES"@,
                                        becomes: SyntaxKind::Keyword,
                                    },
                                )
                                .push(
                                    GrammarView::Ref {
                                        name: "TableReferenceSegment"@,
                                        exclude: None,
                                    },
                                )
                                .push(
                                    GrammarView::Optional { inner: Box::new(
                                        GrammarView::Ref {
                                            name: "BracketedPropertyNameListGrammar"@,
                                            exclude: None,
                                        },
                                    ) },
                                ),
                        })
                        .push(GrammarView::Sequence {
                            elements: Seq::empty()
                                .push(
                                    GrammarView::Text {
                                        template: "VIEWS"@,
                                        becomes: SyntaxKind::Keyword,
                                    },
                                )
                                .push(GrammarView::Optional { inner: Box::new(GrammarView::Sequence {
                                    elements: Seq::empty()
                                        .push(GrammarView::OneOf {
                                            options: Seq::empty()
                                                .push(
                                                    GrammarView::Text {
                                                        template: "FROM"@,
                                                        becomes: SyntaxKind::Keyword,
                                                    },
                                                )
                                                .push(
                                                    GrammarView::Text {
                                                        template: "IN"@,
                                                        becomes: SyntaxKind::Keyword,
                                                    },
                                                ),
                                        })
                                        .push(
                                            GrammarView::Ref {
                                                name: "DatabaseReferenceSegment"@,
                                                exclude: None,
                                            },
                                        ),
                                }) })
                                .push(GrammarView::Optional { inner: Box::new(GrammarView::Sequence {
                                    elements: Seq::empty()
                                        .push(
                                            GrammarView::Text {
                                                template: "LIKE"@,
                                                becomes: SyntaxKind::Keyword,
                                            },
                                        )
                                        .push(
                                            GrammarView::Ref {
                                                name: "QuotedLiteralSegment"@,
                                                exclude: None,
                                            },
                                        ),
                                }) }),
                        }),
                }),
        }),
    }
}

/// The grammar of `ShowStatement`.
pub fn show_statement() -> (r: Grammar)
    ensures
        grammar_view(r) == show_statement_view(),
{
    Grammar::sequence_of(
        GrammarList::new()
            .and(Grammar::keyword("SHOW"))
            .and(Grammar::first_of(
                GrammarList::new()
                    .and(Grammar::sequence_of(
                        GrammarList::new()
                            .and(Grammar::keyword("CREATE"))
                            .and(Grammar::keyword("TABLE"))
                            .and(Grammar::reference("TableExpressionSegment"))
                            .and(Grammar::sequence_of(
                                GrammarList::new()
                                    .and(Grammar::keyword("AS"))
                                    .and(Grammar::keyword("SERDE")),
                            ).optional()),
                    ))
                    .and(Grammar::sequence_of(
                        GrammarList::new()
                            .and(Grammar::keyword("COLUMNS"))
                            .and(Grammar::keyword("IN"))
                            .and(Grammar::reference("TableExpressionSegment"))
                            .and(Grammar::sequence_of(
                                GrammarList::new()
                                    .and(Grammar::keyword("IN"))
                                    .and(Grammar::reference("DatabaseReferenceSegment")),
                            ).optional()),
                    ))
                    .and(Grammar::sequence_of(
                        GrammarList::new()
                            .and(Grammar::first_of(
                                GrammarList::new()
                                    .and(Grammar::keyword("DATABASES"))
                                    .and(Grammar::keyword("SCHEMAS")),
                            ))
                            .and(Grammar::sequence_of(
                                GrammarList::new()
                                    .and(Grammar::keyword("LIKE"))
                                    .and(Grammar::reference("QuotedLiteralSegment")),
                            ).optional()),
                    ))
                    .and(Grammar::sequence_of(
                        GrammarList::new()
                            .and(Grammar::first_of(
                                GrammarList::new()
                                    .and(Grammar::keyword("USER"))
                                    .and(Grammar::keyword("SYSTEM"))
                                    .and(Grammar::keyword("ALL")),
                            ).optional())
                            .and(Grammar::keyword("FUNCTIONS"))
                            .and(Grammar::first_of(
                                GrammarList::new()
                                    .and(Grammar::sequence_of(
                                        GrammarList::new()
                                            .and(Grammar::reference("DatabaseReferenceSegment"))
                                            .and(Grammar::reference("DotSegment"))
                                            .and(Grammar::reference("FunctionNameSegment")),
                                    ).optional())
                                    .and(Grammar::reference("FunctionNameSegment").optional())
                                    .and(Grammar::sequence_of(
                                        GrammarList::new()
                                            .and(Grammar::keyword("LIKE"))
                                            .and(Grammar::reference("QuotedLiteralSegment")),
                                    ).optional()),
                            )),
                    ))
                    .and(Grammar::sequence_of(
                        GrammarList::new()
                            .and(Grammar::keyword("PARTITIONS"))
                            .and(Grammar::reference("TableReferenceSegment"))
                            .and(Grammar::reference("PartitionSpecGrammar").optional()),
                    ))
                    .and(Grammar::sequence_of(
                        GrammarList::new()
                            .and(Grammar::keyword("TABLE"))
                            .and(Grammar::keyword("EXTENDED"))
                            .and(Grammar::sequence_of(
                                GrammarList::new()
                                    .and(Grammar::first_of(
                                        GrammarList::new()
                                            .and(Grammar::keyword("IN"))
                                            .and(Grammar::keyword("FROM")),
                                    ))
                                    .and(Grammar::reference("DatabaseReferenceSegment")),
                            ).optional())
                            .and(Grammar::keyword("LIKE"))
                            .and(Grammar::reference("QuotedLiteralSegment"))
                            .and(Grammar::reference("PartitionSpecGrammar").optional()),
                    ))
                    .and(Grammar::sequence_of(
                        GrammarList::new()
                            .and(Grammar::keyword("TABLES"))
                            .and(Grammar::sequence_of(
                                GrammarList::new()
                                    .and(Grammar::first_of(
                                        GrammarList::new()
                                            .and(Grammar::keyword("FROM"))
                                            .and(Grammar::keyword("IN")),
                                    ))
                                    .and(Grammar::reference("DatabaseReferenceSegment")),
                            ).optional())
                            .and(Grammar::sequence_of(
                                GrammarList::new()
                                    .and(Grammar::keyword("LIKE"))
                                    .and(Grammar::reference("QuotedLiteralSegment")),
                            ).optional()),
                    ))
                    .and(Grammar::sequence_of(
                        GrammarList::new()
                            .and(Grammar::keyword("TBLPROPERTIES"))
                            .and(Grammar::reference("TableReferenceSegment"))
                            .and(Grammar::reference("BracketedPropertyNameListGrammar").optional()),
                    ))
                    .and(Grammar::sequence_of(
                        GrammarList::new()
                            .and(Grammar::keyword("VIEWS"))
                            .and(Grammar::sequence_of(
                                GrammarList::new()
                                    .and(Grammar::first_of(
                                        GrammarList::new()
                                            .and(Grammar::keyword("FROM"))
                                            .and(Grammar::keyword("IN")),
                                    ))
                                    .and(Grammar::reference("DatabaseReferenceSegment")),
                            ).optional())
                            .and(Grammar::sequence_of(
                                GrammarList::new()
                                    .and(Grammar::keyword("LIKE"))
                                    .and(Grammar::reference("QuotedLiteralSegment")),
                            ).optional()),
                    )),
            )),
    ).node(SyntaxKind::ShowStatement)
}

/// The grammar of `UncacheTableSegment`.
pub open spec fn uncache_table_segment_view() -> GrammarView {
    GrammarView::Node {
        kind: SyntaxKind::UncacheTable,
        inner: Box::new(GrammarView::Sequence {
            elements: Seq::empty()
                .push(GrammarView::Text { template: "UNCACHE"@, becomes: SyntaxKind::Keyword })
                .push(GrammarView::Text { template: "TABLE"@, becomes: SyntaxKind::Keyword })
                .push(
                    GrammarView::Optional { inner: Box::new(
                        GrammarView::Ref { name: "IfExistsGrammar"@, exclude: None },
                    ) },
                )
                .push(GrammarView::Ref { name: "TableReferenceSegment"@, exclude: None }),
        }),
    }
}

/// The grammar of `UncacheTableSegment`.
pub fn uncache_table_segment() -> (r: Grammar)
    ensures
        grammar_view(r) == uncache_table_segment_view(),
{
    Grammar::sequence_of(
        GrammarList::new()
            .and(Grammar::keyword("UNCACHE"))
            .and(Grammar::keyword("TABLE"))
            .and(Grammar::reference("IfExistsGrammar").optional())
            .and(Grammar::reference("TableReferenceSegment")),
    ).node(SyntaxKind::UncacheTable)
}

/// Binds `AddFileSegment`, `AddJarSegment`, `AnalyzeTableSegment`,
/// `CacheTableSegment`, `ClearCacheSegment`, `DescribeStatementSegment`,
/// `ListFileSegment`, `ListJarSegment`, `RefreshStatementSegment`,
/// `ResetStatementSegment`, `SetStatementSegment`, `ShowStatement`,
/// `UncacheTableSegment`.
pub open spec fn define_add_file_segment_etc_view(dialect: DialectView) -> DialectView {
    let dialect = with_rule(dialect, "AddFileSegment"@, add_file_segment_view());
    let dialect = with_rule(dialect, "AddJarSegment"@, add_jar_segment_view());
    let dialect = with_rule(dialect, "AnalyzeTableSegment"@, analyze_table_segment_view());
    let dialect = with_rule(dialect, "CacheTableSegment"@, cache_table_segment_view());
    let dialect = with_rule(dialect, "ClearCacheSegment"@, clear_cache_segment_view());
    let dialect = with_rule(
        dialect,
        "DescribeStatementSegment"@,
        describe_statement_segment_view(),
    );
    let dialect = with_rule(dialect, "ListFileSegment"@, list_file_segment_view());
    let dialect = with_rule(dialect, "ListJarSegment"@, list_jar_segment_view());
    let dialect = with_rule(dialect, "RefreshStatementSegment"@, refresh_statement_segment_view());
    let dialect = with_rule(dialect, "ResetStatementSegment"@, reset_statement_segment_view());
    let dialect = with_rule(dialect, "SetStatementSegment"@, set_statement_segment_view());
    let dialect = with_rule(dialect, "ShowStatement"@, show_statement_view());
    let dialect = with_rule(dialect, "UncacheTableSegment"@, uncache_table_segment_view());
    dialect
}

/// Binds `AddFileSegment`, `AddJarSegment`, `AnalyzeTableSegment`,
/// `CacheTableSegment`, `ClearCacheSegment`, `DescribeStatementSegment`,
/// `ListFileSegment`, `ListJarSegment`, `RefreshStatementSegment`,
/// `ResetStatementSegment`, `SetStatementSegment`, `ShowStatement`,
/// `UncacheTableSegment`.
pub fn define_add_file_segment_etc(dialect: Dialect) -> (r: Dialect)
    ensures
        r.deep_view() == define_add_file_segment_etc_view(dialect.deep_view()),
{
    let mut dialect = dialect;
    dialect.define("AddFileSegment", add_file_segment());
    dialect.define("AddJarSegment", add_jar_segment());
    dialect.define("AnalyzeTableSegment", analyze_table_segment());
    dialect.define("CacheTableSegment", cache_table_segment());
    dialect.define("ClearCacheSegment", clear_cache_segment());
    dialect.define("DescribeStatementSegment", describe_statement_segment());
    dialect.define("ListFileSegment", list_file_segment());
    dialect.define("ListJarSegment", list_jar_segment());
    dialect.define("RefreshStatementSegment", refresh_statement_segment());
    dialect.define("ResetStatementSegment", reset_statement_segment());
    dialect.define("SetStatementSegment", set_statement_segment());
    dialect.define("ShowStatement", show_statement());
    dialect.define("UncacheTableSegment", uncache_table_segment());
    dialect
}

/// The grammar of `StatementSegment`, made of the grammar `base`.
pub open spec fn statement_segment_view(base: GrammarView) -> GrammarView {
    recopied(
        base,
        Seq::empty()
            .push(GrammarView::Ref { name: "AlterDatabaseStatementSegment"@, exclude: None })
            .push(GrammarView::Ref { name: "AlterTableStatementSegment"@, exclude: None })
            .push(GrammarView::Ref { name: "AlterViewStatementSegment"@, exclude: None })
            .push(
                GrammarView::Ref { name: "CreateHiveFormatTableStatementSegment"@, exclude: None },
            )
            .push(GrammarView::Ref { name: "MsckRepairTableStatementSegment"@, exclude: None })
            .push(GrammarView::Ref { name: "UseDatabaseStatementSegment"@, exclude: None })
            .push(GrammarView::Ref { name: "AddFileSegment"@, exclude: None })
            .push(GrammarView::Ref { name: "AddJarSegment"@, exclude: None })
            .push(GrammarView::Ref { name: "AnalyzeTableSegment"@, exclude: None })
            .push(GrammarView::Ref { name: "CacheTableSegment"@, exclude: None })
            .push(GrammarView::Ref { name: "ClearCacheSegment"@, exclude: None })
            .push(GrammarView::Ref { name: "ListFileSegment"@, exclude: None })
            .push(GrammarView::Ref { name: "ListJarSegment"@, exclude: None })
            .push(GrammarView::Ref { name: "RefreshStatementSegment"@, exclude: None })
            .push(GrammarView::Ref { name: "ResetStatementSegment"@, exclude: None })
            .push(GrammarView::Ref { name: "SetStatementSegment"@, exclude: None })
            .push(GrammarView::Ref { name: "ShowStatement"@, exclude: None })
            .push(GrammarView::Ref { name: "UncacheTableSegment"@, exclude: None })
            .push(GrammarView::Ref { name: "InsertOverwriteDirectorySegment"@, exclude: None })
            .push(
                GrammarView::Ref { name: "InsertOverwriteDirectoryHiveFmtSegment"@, exclude: None },
            )
            .push(GrammarView::Ref { name: "LoadDataSegment"@, exclude: None })
            .push(GrammarView::Ref { name: "ClusterByClauseSegment"@, exclude: None })
            .push(GrammarView::Ref { name: "DistributeByClauseSegment"@, exclude: None })
            .push(GrammarView::Ref { name: "VacuumStatementSegment"@, exclude: None })
            .push(GrammarView::Ref { name: "DescribeHistoryStatementSegment"@, exclude: None })
            .push(GrammarView::Ref { name: "DescribeDetailStatementSegment"@, exclude: None })
            .push(GrammarView::Ref { name: "GenerateManifestFileStatementSegment"@, exclude: None })
            .push(GrammarView::Ref { name: "ConvertToDeltaStatementSegment"@, exclude: None })
            .push(GrammarView::Ref { name: "RestoreTableStatementSegment"@, exclude: None })
            .push(GrammarView::Ref { name: "ConstraintStatementSegment"@, exclude: None })
            .push(GrammarView::Ref { name: "ApplyChangesIntoStatementSegment"@, exclude: None })
            .push(GrammarView::Ref { name: "CreateWidgetStatementSegment"@, exclude: None })
            .push(GrammarView::Ref { name: "RemoveWidgetStatementSegment"@, exclude: None })
            .push(GrammarView::Ref { name: "ReplaceTableStatementSegment"@, exclude: None }),
        None,
        Seq::empty()
            .push(GrammarView::Ref { name: "TransactionStatementSegment"@, exclude: None })
            .push(GrammarView::Ref { name: "CreateSchemaStatementSegment"@, exclude: None })
            .push(GrammarView::Ref { name: "SetSchemaStatementSegment"@, exclude: None })
            .push(GrammarView::Ref { name: "CreateModelStatementSegment"@, exclude: None })
            .push(GrammarView::Ref { name: "DropModelStatementSegment"@, exclude: None }),
    )
}

/// The grammar of `StatementSegment`, made of the grammar `base`.
pub fn statement_segment(base: Grammar) -> (r: Grammar)
    ensures
        grammar_view(r) == statement_segment_view(grammar_view(base)),
{
    base.copy_before(
        GrammarList::new()
            .and(Grammar::reference("AlterDatabaseStatementSegment"))
            .and(Grammar::reference("AlterTableStatementSegment"))
            .and(Grammar::reference("AlterViewStatementSegment"))
            .and(Grammar::reference("CreateHiveFormatTableStatementSegment"))
            .and(Grammar::reference("MsckRepairTableStatementSegment"))
            .and(Grammar::reference("UseDatabaseStatementSegment"))
            .and(Grammar::reference("AddFileSegment"))
            .and(Grammar::reference("AddJarSegment"))
            .and(Grammar::reference("AnalyzeTableSegment"))
            .and(Grammar::reference("CacheTableSegment"))
            .and(Grammar::reference("ClearCacheSegment"))
            .and(Grammar::reference("ListFileSegment"))
            .and(Grammar::reference("ListJarSegment"))
            .and(Grammar::reference("RefreshStatementSegment"))
            .and(Grammar::reference("ResetStatementSegment"))
            .and(Grammar::reference("SetStatementSegment"))
            .and(Grammar::reference("ShowStatement"))
            .and(Grammar::reference("UncacheTableSegment"))
            .and(Grammar::reference("InsertOverwriteDirectorySegment"))
            .and(Grammar::reference("InsertOverwriteDirectoryHiveFmtSegment"))
            .and(Grammar::reference("LoadDataSegment"))
            .and(Grammar::reference("ClusterByClauseSegment"))
            .and(Grammar::reference("DistributeByClauseSegment"))
            .and(Grammar::reference("VacuumStatementSegment"))
            .and(Grammar::reference("DescribeHistoryStatementSegment"))
            .and(Grammar::reference("DescribeDetailStatementSegment"))
            .and(Grammar::reference("GenerateManifestFileStatementSegment"))
            .and(Grammar::reference("ConvertToDeltaStatementSegment"))
            .and(Grammar::reference("RestoreTableStatementSegment"))
            .and(Grammar::reference("ConstraintStatementSegment"))
            .and(Grammar::reference("ApplyChangesIntoStatementSegment"))
            .and(Grammar::reference("CreateWidgetStatementSegment"))
            .and(Grammar::reference("RemoveWidgetStatementSegment"))
            .and(Grammar::reference("ReplaceTableStatementSegment")).items,
        None,
        GrammarList::new()
            .and(Grammar::reference("TransactionStatementSegment"))
            .and(Grammar::reference("CreateSchemaStatementSegment"))
            .and(Grammar::reference("SetSchemaStatementSegment"))
            .and(Grammar::reference("CreateModelStatementSegment"))
            .and(Grammar::reference("DropModelStatementSegment")).items,
    )
}

/// Replaces the grammar of `StatementSegment`.
pub open spec fn replace_statement_segment_view(
    dialect: DialectView,
) -> Result<DialectView, DialectError> {
    match known(node_grammar(dialect.library, "StatementSegment"@)) {
        Ok(base) => with_replaced(dialect, "StatementSegment"@, statement_segment_view(base)),
        Err(e) => Err(e),
    }
}

/// Replaces the grammar of `StatementSegment`.
pub fn replace_statement_segment(dialect: Dialect) -> (r: Result<Dialect, DialectError>)
    ensures
        outcome_view(r) == replace_statement_segment_view(dialect.deep_view()),
{
    let mut dialect = dialect;
    let base = match dialect.match_grammar("StatementSegment") {
        Some(base) => base,
        None => {
            return Err(DialectError::UnknownRule);
        },
    };
    match dialect.replace_grammar("StatementSegment", statement_segment(base)) {
        Ok(()) => Ok(dialect),
        Err(e) => Err(e),
    }
}

/// The grammar of `JoinClauseSegment`.
pub open spec fn join_clause_segment_view() -> GrammarView {
    GrammarView::OneOf {
        options: Seq::empty()
            .push(GrammarView::Sequence {
                elements: Seq::empty()
                    .push(
                        GrammarView::Optional { inner: Box::new(
                            GrammarView::Ref { name: "JoinTypeKeywords"@, exclude: None },
                        ) },
                    )
                    .push(GrammarView::Ref { name: "JoinKeywordsGrammar"@, exclude: None })
                    .push(GrammarView::Meta { kind: SyntaxKind::Indent })
                    .push(GrammarView::Ref { name: "FromExpressionElementSegment"@, exclude: None })
                    .push(GrammarView::Meta { kind: SyntaxKind::Dedent })
                    .push(
                        GrammarView::Conditional {
                            kind: SyntaxKind::Indent,
                            flag: "indented_using_on"@,
                            expected: true,
                        },
                    )
                    .push(GrammarView::Optional { inner: Box::new(GrammarView::OneOf {
                        options: Seq::empty()
                            .push(
                                GrammarView::Ref { name: "JoinOnConditionSegment"@, exclude: None },
                            )
                            .push(GrammarView::Sequence {
                                elements: Seq::empty()
                                    .push(
                                        GrammarView::Text {
                                            template: "USING"@,
                                            becomes: SyntaxKind::Keyword,
                                        },
                                    )
                                    .push(GrammarView::Meta { kind: SyntaxKind::Indent })
                                    .push(GrammarView::Bracketed {
                                        elements: Seq::empty()
                                            .push(GrammarView::Delimited {
                                                options: Seq::empty()
                                                    .push(
                                                        GrammarView::Ref {
                                                            name: "SingleIdentifierGrammar"@,
                                                            exclude: None,
                                                        },
                                                    ),
                                                delimiter: Box::new(
                                                    GrammarView::Ref {
                                                        name: "CommaSegment"@,
                                                        exclude: None,
                                                    },
                                                ),
                                                min_delimiters: 0,
                                                allow_trailing: false,
                                            }),
                                        bracket_type: "round"@,
                                        parse_mode: ParseMode::Greedy,
                                    })
                                    .push(GrammarView::Meta { kind: SyntaxKind::Dedent }),
                            }),
                    }) })
                    .push(
                        GrammarView::Conditional {
                            kind: SyntaxKind::Dedent,
                            flag: "indented_using_on"@,
                            expected: true,
                        },
                    ),
            })
            .push(GrammarView::Sequence {
                elements: Seq::empty()
                    .push(GrammarView::Ref { name: "NaturalJoinKeywordsGrammar"@, exclude: None })
                    .push(GrammarView::Ref { name: "JoinKeywordsGrammar"@, exclude: None })
                    .push(GrammarView::Meta { kind: SyntaxKind::Indent })
                    .push(GrammarView::Ref { name: "FromExpressionElementSegment"@, exclude: None })
                    .push(GrammarView::Meta { kind: SyntaxKind::Dedent }),
            }),
    }
}

/// The grammar of `JoinClauseSegment`.
pub fn join_clause_segment() -> (r: Grammar)
    ensures
        grammar_view(r) == join_clause_segment_view(),
{
    Grammar::first_of(
        GrammarList::new()
            .and(Grammar::sequence_of(
                GrammarList::new()
                    .and(Grammar::reference("JoinTypeKeywords").optional())
                    .and(Grammar::reference("JoinKeywordsGrammar"))
                    .and(Grammar::meta(SyntaxKind::Indent))
                    .and(Grammar::reference("FromExpressionElementSegment"))
                    .and(Grammar::meta(SyntaxKind::Dedent))
                    .and(Grammar::conditional(SyntaxKind::Indent, "indented_using_on"))
                    .and(Grammar::first_of(
                        GrammarList::new()
                            .and(Grammar::reference("JoinOnConditionSegment"))
                            .and(Grammar::sequence_of(
                                GrammarList::new()
                                    .and(Grammar::keyword("USING"))
                                    .and(Grammar::meta(SyntaxKind::Indent))
                                    .and(Grammar::bracketed_by(
                                        GrammarList::new()
                                            .and(Grammar::delimited_by(
                                                GrammarList::new()
                                                    .and(
                                                        Grammar::reference(
                                                            "SingleIdentifierGrammar",
                                                        ),
                                                    ),
                                                Grammar::reference("CommaSegment"),
                                                0,
                                                false,
                                            )),
                                        "round",
                                        ParseMode::Greedy,
                                    ))
                                    .and(Grammar::meta(SyntaxKind::Dedent)),
                            )),
                    ).optional())
                    .and(Grammar::conditional(SyntaxKind::Dedent, "indented_using_on")),
            ))
            .and(Grammar::sequence_of(
                GrammarList::new()
                    .and(Grammar::reference("NaturalJoinKeywordsGrammar"))
                    .and(Grammar::reference("JoinKeywordsGrammar"))
                    .and(Grammar::meta(SyntaxKind::Indent))
                    .and(Grammar::reference("FromExpressionElementSegment"))
                    .and(Grammar::meta(SyntaxKind::Dedent)),
            )),
    )
}

/// Replaces the grammar of `JoinClauseSegment`.
pub open spec fn replace_join_clause_segment_view(
    dialect: DialectView,
) -> Result<DialectView, DialectError> {
    with_replaced(dialect, "JoinClauseSegment"@, join_clause_segment_view())
}

/// Replaces the grammar of `JoinClauseSegment`.
pub fn replace_join_clause_segment(dialect: Dialect) -> (r: Result<Dialect, DialectError>)
    ensures
        outcome_view(r) == replace_join_clause_segment_view(dialect.deep_view()),
{
    let mut dialect = dialect;
    match dialect.replace_grammar("JoinClauseSegment", join_clause_segment()) {
        Ok(()) => Ok(dialect),
        Err(e) => Err(e),
    }
}

/// The grammar of `AliasExpressionSegment`.
pub open spec fn alias_expression_segment_view() -> GrammarView {
    GrammarView::Sequence {
        elements: Seq::empty()
            .push(
                GrammarView::Optional { inner: Box::new(
                    GrammarView::Text { template: "AS"@, becomes: SyntaxKind::Keyword },
                ) },
            )
            .push(GrammarView::Excluding {
                inner: Box::new(GrammarView::OneOf {
                    options: Seq::empty()
                        .push(GrammarView::Sequence {
                            elements: Seq::empty()
                                .push(
                                    GrammarView::Optional { inner: Box::new(
                                        GrammarView::Ref {
                                            name: "SingleIdentifierGrammar"@,
                                            exclude: None,
                                        },
                                    ) },
                                )
                                .push(GrammarView::Bracketed {
                                    elements: Seq::empty()
                                        .push(
                                            GrammarView::Ref {
                                                name: "SingleIdentifierListSegment"@,
                                                exclude: None,
                                            },
                                        ),
                                    bracket_type: "round"@,
                                    parse_mode: ParseMode::Strict,
                                }),
                        })
                        .push(GrammarView::Ref { name: "SingleIdentifierGrammar"@, exclude: None }),
                }),
                exclude: Box::new(GrammarView::OneOf {
                    options: Seq::empty()
                        .push(
                            GrammarView::Text {
                                template: "LATERAL"@,
                                becomes: SyntaxKind::Keyword,
                            },
                        )
                        .push(GrammarView::Ref { name: "JoinTypeKeywords"@, exclude: None })
                        .push(
                            GrammarView::Text { template: "WINDOW"@, becomes: SyntaxKind::Keyword },
                        )
                        .push(
                            GrammarView::Text { template: "PIVOT"@, becomes: SyntaxKind::Keyword },
                        )
                        .push(GrammarView::Text { template: "KEYS"@, becomes: SyntaxKind::Keyword })
                        .push(
                            GrammarView::Text { template: "FROM"@, becomes: SyntaxKind::Keyword },
                        ),
                }),
            }),
    }
}

/// The grammar of `AliasExpressionSegment`.
pub fn alias_expression_segment() -> (r: Grammar)
    ensures
        grammar_view(r) == alias_expression_segment_view(),
{
    Grammar::sequence_of(
        GrammarList::new()
            .and(Grammar::keyword("AS").optional())
            .and(Grammar::excluding(
                Grammar::first_of(
                    GrammarList::new()
                        .and(Grammar::sequence_of(
                            GrammarList::new()
                                .and(Grammar::reference("SingleIdentifierGrammar").optional())
                                .and(Grammar::bracketed_by(
                                    GrammarList::new()
                                        .and(Grammar::reference("SingleIdentifierListSegment")),
                                    "round",
                                    ParseMode::Strict,
                                )),
                        ))
                        .and(Grammar::reference("SingleIdentifierGrammar")),
                ),
                Grammar::first_of(
                    GrammarList::new()
                        .and(Grammar::keyword("LATERAL"))
                        .and(Grammar::reference("JoinTypeKeywords"))
                        .and(Grammar::keyword("WINDOW"))
                        .and(Grammar::keyword("PIVOT"))
                        .and(Grammar::keyword("KEYS"))
                        .and(Grammar::keyword("FROM")),
                ),
            )),
    )
}

/// Replaces the grammar of `AliasExpressionSegment`.
pub open spec fn replace_alias_expression_segment_view(
    dialect: DialectView,
) -> Result<DialectView, DialectError> {
    with_replaced(dialect, "AliasExpressionSegment"@, alias_expression_segment_view())
}

/// Replaces the grammar of `AliasExpressionSegment`.
pub fn replace_alias_expression_segment(dialect: Dialect) -> (r: Result<Dialect, DialectError>)
    ensures
        outcome_view(r) == replace_alias_expression_segment_view(dialect.deep_view()),
{
    let mut dialect = dialect;
    match dialect.replace_grammar("AliasExpressionSegment", alias_expression_segment()) {
        Ok(()) => Ok(dialect),
        Err(e) => Err(e),
    }
}

/// The grammar of `ValuesClauseSegment`.
pub open spec fn values_clause_segment_view() -> GrammarView {
    GrammarView::Sequence {
        elements: Seq::empty()
            .push(GrammarView::Text { template: "VALUES"@, becomes: SyntaxKind::Keyword })
            .push(GrammarView::Delimited {
                options: Seq::empty()
                    .push(GrammarView::Excluding {
                        inner: Box::new(GrammarView::OneOf {
                            options: Seq::empty()
                                .push(GrammarView::Bracketed {
                                    elements: Seq::empty()
                                        .push(GrammarView::Delimited {
                                            options: Seq::empty()
                                                .push(
                                                    GrammarView::Text {
                                                        template: "NULL"@,
                                                        becomes: SyntaxKind::Keyword,
                                                    },
                                                )
                                                .push(
                                                    GrammarView::Ref {
                                                        name: "ExpressionSegment"@,
                                                        exclude: None,
                                                    },
                                                ),
                                            delimiter: Box::new(
                                                GrammarView::Ref {
                                                    name: "CommaSegment"@,
                                                    exclude: None,
                                                },
                                            ),
                                            min_delimiters: 0,
                                            allow_trailing: false,
                                        }),
                                    bracket_type: "round"@,
                                    parse_mode: ParseMode::Greedy,
                                })
                                .push(
                                    GrammarView::Text {
                                        template: "NULL"@,
                                        becomes: SyntaxKind::Keyword,
                                    },
                                )
                                .push(
                                    GrammarView::Ref { name: "ExpressionSegment"@, exclude: None },
                                ),
                        }),
                        exclude: Box::new(GrammarView::OneOf {
                            options: Seq::empty()
                                .push(
                                    GrammarView::Text {
                                        template: "VALUES"@,
                                        becomes: SyntaxKind::Keyword,
                                    },
                                ),
                        }),
                    }),
                delimiter: Box::new(GrammarView::Ref { name: "CommaSegment"@, exclude: None }),
                min_delimiters: 0,
                allow_trailing: false,
            })
            .push(GrammarView::Optional { inner: Box::new(GrammarView::Ref {
                name: "AliasExpressionSegment"@,
                exclude: Some(Box::new(GrammarView::OneOf {
                    options: Seq::empty()
                        .push(
                            GrammarView::Text { template: "LIMIT"@, becomes: SyntaxKind::Keyword },
                        )
                        .push(
                            GrammarView::Text { template: "ORDER"@, becomes: SyntaxKind::Keyword },
                        ),
                })),
            }) })
            .push(
                GrammarView::Optional { inner: Box::new(
                    GrammarView::Ref { name: "OrderByClauseSegment"@, exclude: None },
                ) },
            )
            .push(
                GrammarView::Optional { inner: Box::new(
                    GrammarView::Ref { name: "LimitClauseSegment"@, exclude: None },
                ) },
            ),
    }
}

/// The grammar of `ValuesClauseSegment`.
pub fn values_clause_segment() -> (r: Grammar)
    ensures
        grammar_view(r) == values_clause_segment_view(),
{
    Grammar::sequence_of(
        GrammarList::new()
            .and(Grammar::keyword("VALUES"))
            .and(Grammar::delimited_by(
                GrammarList::new()
                    .and(Grammar::excluding(
                        Grammar::first_of(
                            GrammarList::new()
                                .and(Grammar::bracketed_by(
                                    GrammarList::new()
                                        .and(Grammar::delimited_by(
                                            GrammarList::new()
                                                .and(Grammar::keyword("NULL"))
                                                .and(Grammar::reference("ExpressionSegment")),
                                            Grammar::reference("CommaSegment"),
                                            0,
                                            false,
                                        )),
                                    "round",
                                    ParseMode::Greedy,
                                ))
                                .and(Grammar::keyword("NULL"))
                                .and(Grammar::reference("ExpressionSegment")),
                        ),
                        Grammar::first_of(
                            GrammarList::new()
                                .and(Grammar::keyword("VALUES")),
                        ),
                    )),
                Grammar::reference("CommaSegment"),
                0,
                false,
            ))
            .and(Grammar::reference_unless(
                "AliasExpressionSegment",
                Grammar::first_of(
                    GrammarList::new()
                        .and(Grammar::keyword("LIMIT"))
                        .and(Grammar::keyword("ORDER")),
                ),
            ).optional())
            .and(Grammar::reference("OrderByClauseSegment").optional())
            .and(Grammar::reference("LimitClauseSegment").optional()),
    )
}

/// Replaces the grammar of `ValuesClauseSegment`.
pub open spec fn replace_values_clause_segment_view(
    dialect: DialectView,
) -> Result<DialectView, DialectError> {
    with_replaced(dialect, "ValuesClauseSegment"@, values_clause_segment_view())
}

/// Replaces the grammar of `ValuesClauseSegment`.
pub fn replace_values_clause_segment(dialect: Dialect) -> (r: Result<Dialect, DialectError>)
    ensures
        outcome_view(r) == replace_values_clause_segment_view(dialect.deep_view()),
{
    let mut dialect = dialect;
    match dialect.replace_grammar("ValuesClauseSegment", values_clause_segment()) {
        Ok(()) => Ok(dialect),
        Err(e) => Err(e),
    }
}

/// The grammar of `TableExpressionSegment`.
pub open spec fn table_expression_segment_view() -> GrammarView {
    GrammarView::OneOf {
        options: Seq::empty()
            .push(GrammarView::Ref { name: "ValuesClauseSegment"@, exclude: None })
            .push(GrammarView::Ref { name: "BareFunctionSegment"@, exclude: None })
            .push(GrammarView::Ref { name: "FunctionSegment"@, exclude: None })
            .push(GrammarView::Sequence {
                elements: Seq::empty()
                    .push(GrammarView::OneOf {
                        options: Seq::empty()
                            .push(GrammarView::Ref { name: "FileReferenceSegment"@, exclude: None })
                            .push(
                                GrammarView::Ref { name: "TableReferenceSegment"@, exclude: None },
                            ),
                    })
                    .push(GrammarView::Optional { inner: Box::new(GrammarView::OneOf {
                        options: Seq::empty()
                            .push(GrammarView::Ref { name: "AtSignLiteralSegment"@, exclude: None })
                            .push(GrammarView::Sequence {
                                elements: Seq::empty()
                                    .push(GrammarView::Meta { kind: SyntaxKind::Indent })
                                    .push(GrammarView::OneOf {
                                        options: Seq::empty()
                                            .push(
                                                GrammarView::Ref {
                                                    name: "TimestampAsOfGrammar"@,
                                                    exclude: None,
                                                },
                                            )
                                            .push(
                                                GrammarView::Ref {
                                                    name: "VersionAsOfGrammar"@,
                                                    exclude: None,
                                                },
                                            ),
                                    })
                                    .push(GrammarView::Meta { kind: SyntaxKind::Dedent }),
                            }),
                    }) }),
            })
            .push(GrammarView::Bracketed {
                elements: Seq::empty()
                    .push(GrammarView::Ref { name: "SelectableGrammar"@, exclude: None }),
                bracket_type: "round"@,
                parse_mode: ParseMode::Strict,
            }),
    }
}

/// The grammar of `TableExpressionSegment`.
pub fn table_expression_segment() -> (r: Grammar)
    ensures
        grammar_view(r) == table_expression_segment_view(),
{
    Grammar::first_of(
        GrammarList::new()
            .and(Grammar::reference("ValuesClauseSegment"))
            .and(Grammar::reference("BareFunctionSegment"))
            .and(Grammar::reference("FunctionSegment"))
            .and(Grammar::sequence_of(
                GrammarList::new()
                    .and(Grammar::first_of(
                        GrammarList::new()
                            .and(Grammar::reference("FileReferenceSegment"))
                            .and(Grammar::reference("TableReferenceSegment")),
                    ))
                    .and(Grammar::first_of(
                        GrammarList::new()
                            .and(Grammar::reference("AtSignLiteralSegment"))
                            .and(Grammar::sequence_of(
                                GrammarList::new()
                                    .and(Grammar::meta(SyntaxKind::Indent))
                                    .and(Grammar::first_of(
                                        GrammarList::new()
                                            .and(Grammar::reference("TimestampAsOfGrammar"))
                                            .and(Grammar::reference("VersionAsOfGrammar")),
                                    ))
                                    .and(Grammar::meta(SyntaxKind::Dedent)),
                            )),
                    ).optional()),
            ))
            .and(Grammar::bracketed_by(
                GrammarList::new()
                    .and(Grammar::reference("SelectableGrammar")),
                "round",
                ParseMode::Strict,
            )),
    )
}

/// Replaces the grammar of `TableExpressionSegment`.
pub open spec fn replace_table_expression_segment_view(
    dialect: DialectView,
) -> Result<DialectView, DialectError> {
    with_replaced(dialect, "TableExpressionSegment"@, table_expression_segment_view())
}

/// Replaces the grammar of `TableExpressionSegment`.
pub fn replace_table_expression_segment(dialect: Dialect) -> (r: Result<Dialect, DialectError>)
    ensures
        outcome_view(r) == replace_table_expression_segment_view(dialect.deep_view()),
{
    let mut dialect = dialect;
    match dialect.replace_grammar("TableExpressionSegment", table_expression_segment()) {
        Ok(()) => Ok(dialect),
        Err(e) => Err(e),
    }
}

/// The grammar of `FileReferenceSegment`.
pub open spec fn file_reference_segment_view() -> GrammarView {
    GrammarView::Node {
        kind: SyntaxKind::FileReference,
        inner: Box::new(GrammarView::Sequence {
            elements: Seq::empty()
                .push(GrammarView::Ref { name: "DataSourcesV2FileTypeGrammar"@, exclude: None })
                .push(GrammarView::Ref { name: "DotSegment"@, exclude: None })
                .push(GrammarView::Ref { name: "BackQuotedIdentifierSegment"@, exclude: None }),
        }),
    }
}

/// The grammar of `FileReferenceSegment`.
pub fn file_reference_segment() -> (r: Grammar)
    ensures
        grammar_view(r) == file_reference_segment_view(),
{
    Grammar::sequence_of(
        GrammarList::new()
            .and(Grammar::reference("DataSourcesV2FileTypeGrammar"))
            .and(Grammar::reference("DotSegment"))
            .and(Grammar::reference("BackQuotedIdentifierSegment")),
    ).node(SyntaxKind::FileReference)
}

/// Binds `FileReferenceSegment`.
pub open spec fn define_file_reference_segment_view(dialect: DialectView) -> DialectView {
    with_rule(dialect, "FileReferenceSegment"@, file_reference_segment_view())
}

/// Binds `FileReferenceSegment`.
pub fn define_file_reference_segment(dialect: Dialect) -> (r: Dialect)
    ensures
        r.deep_view() == define_file_reference_segment_view(dialect.deep_view()),
{
    let mut dialect = dialect;
    dialect.define("FileReferenceSegment", file_reference_segment());
    dialect
}

/// The grammar of `FromExpressionElementSegment`.
pub open spec fn from_expression_element_segment_view() -> GrammarView {
    GrammarView::Sequence {
        elements: Seq::empty()
            .push(
                GrammarView::Optional { inner: Box::new(
                    GrammarView::Ref { name: "PreTableFunctionKeywordsGrammar"@, exclude: None },
                ) },
            )
            .push(GrammarView::OneOf {
                options: Seq::empty()
                    .push(GrammarView::Bracketed {
                        elements: Seq::empty()
                            .push(
                                GrammarView::Ref { name: "TableExpressionSegment"@, exclude: None },
                            ),
                        bracket_type: "round"@,
                        parse_mode: ParseMode::Strict,
                    })
                    .push(GrammarView::Ref { name: "TableExpressionSegment"@, exclude: None }),
            })
            .push(GrammarView::Optional { inner: Box::new(GrammarView::Ref {
                name: "AliasExpressionSegment"@,
                exclude: Some(Box::new(GrammarView::OneOf {
                    options: Seq::empty()
                        .push(
                            GrammarView::Ref {
                                name: "FromClauseTerminatorGrammar"@,
                                exclude: None,
                            },
                        )
                        .push(
                            GrammarView::Ref { name: "SamplingExpressionSegment"@, exclude: None },
                        ),
                })),
            }) })
            .push(
                GrammarView::Optional { inner: Box::new(
                    GrammarView::Ref { name: "SamplingExpressionSegment"@, exclude: None },
                ) },
            )
            .push(GrammarView::AnyNumberOf {
                options: Seq::empty()
                    .push(GrammarView::Ref { name: "LateralViewClauseSegment"@, exclude: None }),
                min_times: 0,
                max_times: None,
                max_times_per_element: None,
            })
            .push(
                GrammarView::Optional { inner: Box::new(
                    GrammarView::Ref { name: "NamedWindowSegment"@, exclude: None },
                ) },
            )
            .push(
                GrammarView::Optional { inner: Box::new(
                    GrammarView::Ref { name: "PivotClauseSegment"@, exclude: None },
                ) },
            )
            .push(
                GrammarView::Optional { inner: Box::new(
                    GrammarView::Ref { name: "PostTableExpressionGrammar"@, exclude: None },
                ) },
            ),
    }
}

/// The grammar of `FromExpressionElementSegment`.
pub fn from_expression_element_segment() -> (r: Grammar)
    ensures
        grammar_view(r) == from_expression_element_segment_view(),
{
    Grammar::sequence_of(
        GrammarList::new()
            .and(Grammar::reference("PreTableFunctionKeywordsGrammar").optional())
            .and(Grammar::first_of(
                GrammarList::new()
                    .and(Grammar::bracketed_by(
                        GrammarList::new()
                            .and(Grammar::reference("TableExpressionSegment")),
                        "round",
                        ParseMode::Strict,
                    ))
                    .and(Grammar::reference("TableExpressionSegment")),
            ))
            .and(Grammar::reference_unless(
                "AliasExpressionSegment",
                Grammar::first_of(
                    GrammarList::new()
                        .and(Grammar::reference("FromClauseTerminatorGrammar"))
                        .and(Grammar::reference("SamplingExpressionSegment")),
                ),
            ).optional())
            .and(Grammar::reference("SamplingExpressionSegment").optional())
            .and(Grammar::repeated(
                GrammarList::new()
                    .and(Grammar::reference("LateralViewClauseSegment")),
                0,
                None,
                None,
            ))
            .and(Grammar::reference("NamedWindowSegment").optional())
            .and(Grammar::reference("PivotClauseSegment").optional())
            .and(Grammar::reference("PostTableExpressionGrammar").optional()),
    )
}

/// Replaces the grammar of `FromExpressionElementSegment`.
pub open spec fn replace_from_expression_element_segment_view(
    dialect: DialectView,
) -> Result<DialectView, DialectError> {
    with_replaced(dialect, "FromExpressionElementSegment"@, from_expression_element_segment_view())
}

/// Replaces the grammar of `FromExpressionElementSegment`.
pub fn replace_from_expression_element_segment(
    dialect: Dialect,
) -> (r: Result<Dialect, DialectError>)
    ensures
        outcome_view(r) == replace_from_expression_element_segment_view(dialect.deep_view()),
{
    let mut dialect = dialect;
    match dialect.replace_grammar(
        "FromExpressionElementSegment",
        from_expression_element_segment(),
    ) {
        Ok(()) => Ok(dialect),
        Err(e) => Err(e),
    }
}

/// The grammar of `PropertyNameSegment`.
pub open spec fn property_name_segment_view() -> GrammarView {
    GrammarView::Node {
        kind: SyntaxKind::PropertyNameIdentifier,
        inner: Box::new(GrammarView::Sequence {
            elements: Seq::empty()
                .push(GrammarView::OneOf {
                    options: Seq::empty()
                        .push(GrammarView::Delimited {
                            options: Seq::empty()
                                .push(
                                    GrammarView::Ref {
                                        name: "PropertiesNakedIdentifierSegment"@,
                                        exclude: None,
                                    },
                                ),
                            delimiter: Box::new(
                                GrammarView::Ref { name: "DotSegment"@, exclude: None },
                            ),
                            min_delimiters: 0,
                            allow_trailing: false,
                        })
                        .push(GrammarView::Ref { name: "SingleIdentifierGrammar"@, exclude: None }),
                }),
        }),
    }
}

/// The grammar of `PropertyNameSegment`.
pub fn property_name_segment() -> (r: Grammar)
    ensures
        grammar_view(r) == property_name_segment_view(),
{
    Grammar::sequence_of(
        GrammarList::new()
            .and(Grammar::first_of(
                GrammarList::new()
                    .and(Grammar::delimited_by(
                        GrammarList::new()
                            .and(Grammar::reference("PropertiesNakedIdentifierSegment")),
                        Grammar::reference("DotSegment"),
                        0,
                        false,
                    ))
                    .and(Grammar::reference("SingleIdentifierGrammar")),
            )),
    ).node(SyntaxKind::PropertyNameIdentifier)
}

/// The grammar of `GeneratedColumnDefinitionSegment`.
pub open spec fn generated_column_definition_segment_view() -> GrammarView {
    GrammarView::Node {
        kind: SyntaxKind::GeneratedColumnDefinition,
        inner: Box::new(GrammarView::Sequence {
            elements: Seq::empty()
                .push(GrammarView::Ref { name: "SingleIdentifierGrammar"@, exclude: None })
                .push(GrammarView::Ref { name: "DatatypeSegment"@, exclude: None })
                .push(GrammarView::Optional { inner: Box::new(GrammarView::Bracketed {
                    elements: Seq::empty()
                        .push(GrammarView::Anything),
                    bracket_type: "round"@,
                    parse_mode: ParseMode::Strict,
                }) })
                .push(GrammarView::Sequence {
                    elements: Seq::empty()
                        .push(
                            GrammarView::Text {
                                template: "GENERATED"@,
                                becomes: SyntaxKind::Keyword,
                            },
                        )
                        .push(
                            GrammarView::Text { template: "ALWAYS"@, becomes: SyntaxKind::Keyword },
                        )
                        .push(GrammarView::Text { template: "AS"@, becomes: SyntaxKind::Keyword })
                        .push(GrammarView::Bracketed {
                            elements: Seq::empty()
                                .push(GrammarView::OneOf {
                                    options: Seq::empty()
                                        .push(
                                            GrammarView::Ref {
                                                name: "FunctionSegment"@,
                                                exclude: None,
                                            },
                                        )
                                        .push(
                                            GrammarView::Ref {
                                                name: "BareFunctionSegment"@,
                                                exclude: None,
                                            },
                                        ),
                                }),
                            bracket_type: "round"@,
                            parse_mode: ParseMode::Strict,
                        }),
                })
                .push(GrammarView::AnyNumberOf {
                    options: Seq::empty()
                        .push(
                            GrammarView::Optional { inner: Box::new(
                                GrammarView::Ref {
                                    name: "ColumnConstraintSegment"@,
                                    exclude: None,
                                },
                            ) },
                        ),
                    min_times: 0,
                    max_times: None,
                    max_times_per_element: None,
                }),
        }),
    }
}

/// The grammar of `GeneratedColumnDefinitionSegment`.
pub fn generated_column_definition_segment() -> (r: Grammar)
    ensures
        grammar_view(r) == generated_column_definition_segment_view(),
{
    Grammar::sequence_of(
        GrammarList::new()
            .and(Grammar::reference("SingleIdentifierGrammar"))
            .and(Grammar::reference("DatatypeSegment"))
            .and(Grammar::bracketed_by(
                GrammarList::new()
                    .and(Grammar::anything()),
                "round",
                ParseMode::Strict,
            ).optional())
            .and(Grammar::sequence_of(
                GrammarList::new()
                    .and(Grammar::keyword("GENERATED"))
                    .and(Grammar::keyword("ALWAYS"))
                    .and(Grammar::keyword("AS"))
                    .and(Grammar::bracketed_by(
                        GrammarList::new()
                            .and(Grammar::first_of(
                                GrammarList::new()
                                    .and(Grammar::reference("FunctionSegment"))
                                    .and(Grammar::reference("BareFunctionSegment")),
                            )),
                        "round",
                        ParseMode::Strict,
                    )),
            ))
            .and(Grammar::repeated(
                GrammarList::new()
                    .and(Grammar::reference("ColumnConstraintSegment").optional()),
                0,
                None,
                None,
            )),
    ).node(SyntaxKind::GeneratedColumnDefinition)
}

/// Binds `PropertyNameSegment`, `GeneratedColumnDefinitionSegment`.
pub open spec fn define_property_name_segment_etc_view(dialect: DialectView) -> DialectView {
    let dialect = with_rule(dialect, "PropertyNameSegment"@, property_name_segment_view());
    let dialect = with_rule(
        dialect,
        "GeneratedColumnDefinitionSegment"@,
        generated_column_definition_segment_view(),
    );
    dialect
}

/// Binds `PropertyNameSegment`, `GeneratedColumnDefinitionSegment`.
pub fn define_property_name_segment_etc(dialect: Dialect) -> (r: Dialect)
    ensures
        r.deep_view() == define_property_name_segment_etc_view(dialect.deep_view()),
{
    let mut dialect = dialect;
    dialect.define("PropertyNameSegment", property_name_segment());
    dialect.define("GeneratedColumnDefinitionSegment", generated_column_definition_segment());
    dialect
}

/// The grammar of `MergeUpdateClauseSegment`.
pub open spec fn merge_update_clause_segment_view() -> GrammarView {
    GrammarView::Sequence {
        elements: Seq::empty()
            .push(GrammarView::Text { template: "UPDATE"@, becomes: SyntaxKind::Keyword })
            .push(GrammarView::OneOf {
                options: Seq::empty()
                    .push(GrammarView::Sequence {
                        elements: Seq::empty()
                            .push(
                                GrammarView::Text {
                                    template: "SET"@,
                                    becomes: SyntaxKind::Keyword,
                                },
                            )
                            .push(
                                GrammarView::Ref {
                                    name: "WildcardIdentifierSegment"@,
                                    exclude: None,
                                },
                            ),
                    })
                    .push(GrammarView::Sequence {
                        elements: Seq::empty()
                            .push(GrammarView::Meta { kind: SyntaxKind::Indent })
                            .push(GrammarView::Ref { name: "SetClauseListSegment"@, exclude: None })
                            .push(GrammarView::Meta { kind: SyntaxKind::Dedent }),
                    }),
            }),
    }
}

/// The grammar of `MergeUpdateClauseSegment`.
pub fn merge_update_clause_segment() -> (r: Grammar)
    ensures
        grammar_view(r) == merge_update_clause_segment_view(),
{
    Grammar::sequence_of(
        GrammarList::new()
            .and(Grammar::keyword("UPDATE"))
            .and(Grammar::first_of(
                GrammarList::new()
                    .and(Grammar::sequence_of(
                        GrammarList::new()
                            .and(Grammar::keyword("SET"))
                            .and(Grammar::reference("WildcardIdentifierSegment")),
                    ))
                    .and(Grammar::sequence_of(
                        GrammarList::new()
                            .and(Grammar::meta(SyntaxKind::Indent))
                            .and(Grammar::reference("SetClauseListSegment"))
                            .and(Grammar::meta(SyntaxKind::Dedent)),
                    )),
            )),
    )
}

/// Replaces the grammar of `MergeUpdateClauseSegment`.
pub open spec fn replace_merge_update_clause_segment_view(
    dialect: DialectView,
) -> Result<DialectView, DialectError> {
    with_replaced(dialect, "MergeUpdateClauseSegment"@, merge_update_clause_segment_view())
}

/// Replaces the grammar of `MergeUpdateClauseSegment`.
pub fn replace_merge_update_clause_segment(dialect: Dialect) -> (r: Result<Dialect, DialectError>)
    ensures
        outcome_view(r) == replace_merge_update_clause_segment_view(dialect.deep_view()),
{
    let mut dialect = dialect;
    match dialect.replace_grammar("MergeUpdateClauseSegment", merge_update_clause_segment()) {
        Ok(()) => Ok(dialect),
        Err(e) => Err(e),
    }
}

/// The grammar of `MergeInsertClauseSegment`.
pub open spec fn merge_insert_clause_segment_view() -> GrammarView {
    GrammarView::Sequence {
        elements: Seq::empty()
            .push(GrammarView::Text { template: "INSERT"@, becomes: SyntaxKind::Keyword })
            .push(GrammarView::OneOf {
                options: Seq::empty()
                    .push(GrammarView::Ref { name: "WildcardIdentifierSegment"@, exclude: None })
                    .push(GrammarView::Sequence {
                        elements: Seq::empty()
                            .push(GrammarView::Meta { kind: SyntaxKind::Indent })
                            .push(
                                GrammarView::Ref {
                                    name: "BracketedColumnReferenceListGrammar"@,
                                    exclude: None,
                                },
                            )
                            .push(GrammarView::Meta { kind: SyntaxKind::Dedent })
                            .push(GrammarView::Ref { name: "ValuesClauseSegment"@, exclude: None }),
                    }),
            }),
    }
}

/// The grammar of `MergeInsertClauseSegment`.
pub fn merge_insert_clause_segment() -> (r: Grammar)
    ensures
        grammar_view(r) == merge_insert_clause_segment_view(),
{
    Grammar::sequence_of(
        GrammarList::new()
            .and(Grammar::keyword("INSERT"))
            .and(Grammar::first_of(
                GrammarList::new()
                    .and(Grammar::reference("WildcardIdentifierSegment"))
                    .and(Grammar::sequence_of(
                        GrammarList::new()
                            .and(Grammar::meta(SyntaxKind::Indent))
                            .and(Grammar::reference("BracketedColumnReferenceListGrammar"))
                            .and(Grammar::meta(SyntaxKind::Dedent))
                            .and(Grammar::reference("ValuesClauseSegment")),
                    )),
            )),
    )
}

/// Replaces the grammar of `MergeInsertClauseSegment`.
pub open spec fn replace_merge_insert_clause_segment_view(
    dialect: DialectView,
) -> Result<DialectView, DialectError> {
    with_replaced(dialect, "MergeInsertClauseSegment"@, merge_insert_clause_segment_view())
}

/// Replaces the grammar of `MergeInsertClauseSegment`.
pub fn replace_merge_insert_clause_segment(dialect: Dialect) -> (r: Result<Dialect, DialectError>)
    ensures
        outcome_view(r) == replace_merge_insert_clause_segment_view(dialect.deep_view()),
{
    let mut dialect = dialect;
    match dialect.replace_grammar("MergeInsertClauseSegment", merge_insert_clause_segment()) {
        Ok(()) => Ok(dialect),
        Err(e) => Err(e),
    }
}

/// The grammar of `UpdateStatementSegment`.
pub open spec fn update_statement_segment_view() -> GrammarView {
    GrammarView::Sequence {
        elements: Seq::empty()
            .push(GrammarView::Text { template: "UPDATE"@, becomes: SyntaxKind::Keyword })
            .push(GrammarView::OneOf {
                options: Seq::empty()
                    .push(GrammarView::Ref { name: "FileReferenceSegment"@, exclude: None })
                    .push(GrammarView::Ref { name: "TableReferenceSegment"@, exclude: None }),
            })
            .push(GrammarView::Optional { inner: Box::new(GrammarView::Ref {
                name: "AliasExpressionSegment"@,
                exclude: Some(
                    Box::new(GrammarView::Text { template: "SET"@, becomes: SyntaxKind::Keyword }),
                ),
            }) })
            .push(GrammarView::Ref { name: "SetClauseListSegment"@, exclude: None })
            .push(GrammarView::Ref { name: "WhereClauseSegment"@, exclude: None }),
    }
}

/// The grammar of `UpdateStatementSegment`.
pub fn update_statement_segment() -> (r: Grammar)
    ensures
        grammar_view(r) == update_statement_segment_view(),
{
    Grammar::sequence_of(
        GrammarList::new()
            .and(Grammar::keyword("UPDATE"))
            .and(Grammar::first_of(
                GrammarList::new()
                    .and(Grammar::reference("FileReferenceSegment"))
                    .and(Grammar::reference("TableReferenceSegment")),
            ))
            .and(Grammar::reference_unless(
                "AliasExpressionSegment",
                Grammar::keyword("SET"),
            ).optional())
            .and(Grammar::reference("SetClauseListSegment"))
            .and(Grammar::reference("WhereClauseSegment")),
    )
}

/// Replaces the grammar of `UpdateStatementSegment`.
pub open spec fn replace_update_statement_segment_view(
    dialect: DialectView,
) -> Result<DialectView, DialectError> {
    with_replaced(dialect, "UpdateStatementSegment"@, update_statement_segment_view())
}

/// Replaces the grammar of `UpdateStatementSegment`.
pub fn replace_update_statement_segment(dialect: Dialect) -> (r: Result<Dialect, DialectError>)
    ensures
        outcome_view(r) == replace_update_statement_segment_view(dialect.deep_view()),
{
    let mut dialect = dialect;
    match dialect.replace_grammar("UpdateStatementSegment", update_statement_segment()) {
        Ok(()) => Ok(dialect),
        Err(e) => Err(e),
    }
}

/// The grammar of `IntervalLiteralSegment`.
pub open spec fn interval_literal_segment_view() -> GrammarView {
    GrammarView::Node {
        kind: SyntaxKind::IntervalLiteral,
        inner: Box::new(GrammarView::Sequence {
            elements: Seq::empty()
                .push(
                    GrammarView::Optional { inner: Box::new(
                        GrammarView::Ref { name: "SignedSegmentGrammar"@, exclude: None },
                    ) },
                )
                .push(GrammarView::OneOf {
                    options: Seq::empty()
                        .push(GrammarView::Ref { name: "NumericLiteralSegment"@, exclude: None })
                        .push(
                            GrammarView::Ref { name: "SignedQuotedLiteralSegment"@, exclude: None },
                        ),
                })
                .push(GrammarView::Ref { name: "DatetimeUnitSegment"@, exclude: None })
                .push(
                    GrammarView::Optional { inner: Box::new(
                        GrammarView::Text { template: "TO"@, becomes: SyntaxKind::Keyword },
                    ) },
                )
                .push(
                    GrammarView::Optional { inner: Box::new(
                        GrammarView::Ref { name: "DatetimeUnitSegment"@, exclude: None },
                    ) },
                ),
        }),
    }
}

/// The grammar of `IntervalLiteralSegment`.
pub fn interval_literal_segment() -> (r: Grammar)
    ensures
        grammar_view(r) == interval_literal_segment_view(),
{
    Grammar::sequence_of(
        GrammarList::new()
            .and(Grammar::reference("SignedSegmentGrammar").optional())
            .and(Grammar::first_of(
                GrammarList::new()
                    .and(Grammar::reference("NumericLiteralSegment"))
                    .and(Grammar::reference("SignedQuotedLiteralSegment")),
            ))
            .and(Grammar::reference("DatetimeUnitSegment"))
            .and(Grammar::keyword("TO").optional())
            .and(Grammar::reference("DatetimeUnitSegment").optional()),
    ).node(SyntaxKind::IntervalLiteral)
}

/// Binds `IntervalLiteralSegment`.
pub open spec fn define_interval_literal_segment_view(dialect: DialectView) -> DialectView {
    with_rule(dialect, "IntervalLiteralSegment"@, interval_literal_segment_view())
}

/// Binds `IntervalLiteralSegment`.
pub fn define_interval_literal_segment(dialect: Dialect) -> (r: Dialect)
    ensures
        r.deep_view() == define_interval_literal_segment_view(dialect.deep_view()),
{
    let mut dialect = dialect;
    dialect.define("IntervalLiteralSegment", interval_literal_segment());
    dialect
}

/// The grammar of `IntervalExpressionSegment`.
pub open spec fn interval_expression_segment_view() -> GrammarView {
    GrammarView::Sequence {
        elements: Seq::empty()
            .push(GrammarView::Text { template: "INTERVAL"@, becomes: SyntaxKind::Keyword })
            .push(GrammarView::OneOf {
                options: Seq::empty()
                    .push(GrammarView::AnyNumberOf {
                        options: Seq::empty()
                            .push(
                                GrammarView::Ref { name: "IntervalLiteralSegment"@, exclude: None },
                            ),
                        min_times: 0,
                        max_times: None,
                        max_times_per_element: None,
                    })
                    .push(GrammarView::Ref { name: "QuotedLiteralSegment"@, exclude: None }),
            }),
    }
}

/// The grammar of `IntervalExpressionSegment`.
pub fn interval_expression_segment() -> (r: Grammar)
    ensures
        grammar_view(r) == interval_expression_segment_view(),
{
    Grammar::sequence_of(
        GrammarList::new()
            .and(Grammar::keyword("INTERVAL"))
            .and(Grammar::first_of(
                GrammarList::new()
                    .and(Grammar::repeated(
                        GrammarList::new()
                            .and(Grammar::reference("IntervalLiteralSegment")),
                        0,
                        None,
                        None,
                    ))
                    .and(Grammar::reference("QuotedLiteralSegment")),
            )),
    )
}

/// Replaces the grammar of `IntervalExpressionSegment`.
pub open spec fn replace_interval_expression_segment_view(
    dialect: DialectView,
) -> Result<DialectView, DialectError> {
    with_replaced(dialect, "IntervalExpressionSegment"@, interval_expression_segment_view())
}

/// Replaces the grammar of `IntervalExpressionSegment`.
pub fn replace_interval_expression_segment(dialect: Dialect) -> (r: Result<Dialect, DialectError>)
    ensures
        outcome_view(r) == replace_interval_expression_segment_view(dialect.deep_view()),
{
    let mut dialect = dialect;
    match dialect.replace_grammar("IntervalExpressionSegment", interval_expression_segment()) {
        Ok(()) => Ok(dialect),
        Err(e) => Err(e),
    }
}

/// The grammar of `VacuumStatementSegment`.
pub open spec fn vacuum_statement_segment_view() -> GrammarView {
    GrammarView::Node {
        kind: SyntaxKind::VacuumStatement,
        inner: Box::new(GrammarView::Sequence {
            elements: Seq::empty()
                .push(GrammarView::Text { template: "VACUUM"@, becomes: SyntaxKind::Keyword })
                .push(GrammarView::OneOf {
                    options: Seq::empty()
                        .push(GrammarView::Ref { name: "QuotedLiteralSegment"@, exclude: None })
                        .push(GrammarView::Ref { name: "FileReferenceSegment"@, exclude: None })
                        .push(GrammarView::Ref { name: "TableReferenceSegment"@, exclude: None }),
                })
                .push(GrammarView::Optional { inner: Box::new(GrammarView::OneOf {
                    options: Seq::empty()
                        .push(GrammarView::Sequence {
                            elements: Seq::empty()
                                .push(
                                    GrammarView::Text {
                                        template: "RETAIN"@,
                                        becomes: SyntaxKind::Keyword,
                                    },
                                )
                                .push(
                                    GrammarView::Ref {
                                        name: "NumericLiteralSegment"@,
                                        exclude: None,
                                    },
                                )
                                .push(
                                    GrammarView::Ref {
                                        name: "DatetimeUnitSegment"@,
                                        exclude: None,
                                    },
                                ),
                        })
                        .push(GrammarView::Sequence {
                            elements: Seq::empty()
                                .push(
                                    GrammarView::Text {
                                        template: "DRY"@,
                                        becomes: SyntaxKind::Keyword,
                                    },
                                )
                                .push(
                                    GrammarView::Text {
                                        template: "RUN"@,
                                        becomes: SyntaxKind::Keyword,
                                    },
                                ),
                        }),
                }) }),
        }),
    }
}

/// The grammar of `VacuumStatementSegment`.
pub fn vacuum_statement_segment() -> (r: Grammar)
    ensures
        grammar_view(r) == vacuum_statement_segment_view(),
{
    Grammar::sequence_of(
        GrammarList::new()
            .and(Grammar::keyword("VACUUM"))
            .and(Grammar::first_of(
                GrammarList::new()
                    .and(Grammar::reference("QuotedLiteralSegment"))
                    .and(Grammar::reference("FileReferenceSegment"))
                    .and(Grammar::reference("TableReferenceSegment")),
            ))
            .and(Grammar::first_of(
                GrammarList::new()
                    .and(Grammar::sequence_of(
                        GrammarList::new()
                            .and(Grammar::keyword("RETAIN"))
                            .and(Grammar::reference("NumericLiteralSegment"))
                            .and(Grammar::reference("DatetimeUnitSegment")),
                    ))
                    .and(Grammar::sequence_of(
                        GrammarList::new()
                            .and(Grammar::keyword("DRY"))
                            .and(Grammar::keyword("RUN")),
                    )),
            ).optional()),
    ).node(SyntaxKind::VacuumStatement)
}

/// The grammar of `DescribeHistoryStatementSegment`.
pub open spec fn describe_history_statement_segment_view() -> GrammarView {
    GrammarView::Node {
        kind: SyntaxKind::DescribeHistoryStatement,
        inner: Box::new(GrammarView::Sequence {
            elements: Seq::empty()
                .push(GrammarView::Text { template: "DESCRIBE"@, becomes: SyntaxKind::Keyword })
                .push(GrammarView::Text { template: "HISTORY"@, becomes: SyntaxKind::Keyword })
                .push(GrammarView::OneOf {
                    options: Seq::empty()
                        .push(GrammarView::Ref { name: "QuotedLiteralSegment"@, exclude: None })
                        .push(GrammarView::Ref { name: "FileReferenceSegment"@, exclude: None })
                        .push(GrammarView::Ref { name: "TableReferenceSegment"@, exclude: None }),
                })
                .push(
                    GrammarView::Optional { inner: Box::new(
                        GrammarView::Ref { name: "LimitClauseSegment"@, exclude: None },
                    ) },
                ),
        }),
    }
}

/// The grammar of `DescribeHistoryStatementSegment`.
pub fn describe_history_statement_segment() -> (r: Grammar)
    ensures
        grammar_view(r) == describe_history_statement_segment_view(),
{
    Grammar::sequence_of(
        GrammarList::new()
            .and(Grammar::keyword("DESCRIBE"))
            .and(Grammar::keyword("HISTORY"))
            .and(Grammar::first_of(
                GrammarList::new()
                    .and(Grammar::reference("QuotedLiteralSegment"))
                    .and(Grammar::reference("FileReferenceSegment"))
                    .and(Grammar::reference("TableReferenceSegment")),
            ))
            .and(Grammar::reference("LimitClauseSegment").optional()),
    ).node(SyntaxKind::DescribeHistoryStatement)
}

/// The grammar of `DescribeDetailStatementSegment`.
pub open spec fn describe_detail_statement_segment_view() -> GrammarView {
    GrammarView::Node {
        kind: SyntaxKind::DescribeDetailStatement,
        inner: Box::new(GrammarView::Sequence {
            elements: Seq::empty()
                .push(GrammarView::Text { template: "DESCRIBE"@, becomes: SyntaxKind::Keyword })
                .push(GrammarView::Text { template: "DETAIL"@, becomes: SyntaxKind::Keyword })
                .push(GrammarView::OneOf {
                    options: Seq::empty()
                        .push(GrammarView::Ref { name: "QuotedLiteralSegment"@, exclude: None })
                        .push(GrammarView::Ref { name: "FileReferenceSegment"@, exclude: None })
                        .push(GrammarView::Ref { name: "TableReferenceSegment"@, exclude: None }),
                }),
        }),
    }
}

/// The grammar of `DescribeDetailStatementSegment`.
pub fn describe_detail_statement_segment() -> (r: Grammar)
    ensures
        grammar_view(r) == describe_detail_statement_segment_view(),
{
    Grammar::sequence_of(
        GrammarList::new()
            .and(Grammar::keyword("DESCRIBE"))
            .and(Grammar::keyword("DETAIL"))
            .and(Grammar::first_of(
                GrammarList::new()
                    .and(Grammar::reference("QuotedLiteralSegment"))
                    .and(Grammar::reference("FileReferenceSegment"))
                    .and(Grammar::reference("TableReferenceSegment")),
            )),
    ).node(SyntaxKind::DescribeDetailStatement)
}

/// The grammar of `GenerateManifestFileStatementSegment`.
pub open spec fn generate_manifest_file_statement_segment_view() -> GrammarView {
    GrammarView::Node {
        kind: SyntaxKind::GenerateManifestFileStatement,
        inner: Box::new(GrammarView::Sequence {
            elements: Seq::empty()
                .push(GrammarView::Text { template: "GENERATE"@, becomes: SyntaxKind::Keyword })
                .push(
                    GrammarView::Text {
                        template: "symlink_format_manifest"@,
                        becomes: SyntaxKind::SymlinkFormatManifest,
                    },
                )
                .push(GrammarView::Text { template: "FOR"@, becomes: SyntaxKind::Keyword })
                .push(GrammarView::Text { template: "TABLE"@, becomes: SyntaxKind::Keyword })
                .push(GrammarView::OneOf {
                    options: Seq::empty()
                        .push(GrammarView::Ref { name: "QuotedLiteralSegment"@, exclude: None })
                        .push(GrammarView::Ref { name: "FileReferenceSegment"@, exclude: None })
                        .push(GrammarView::Ref { name: "TableReferenceSegment"@, exclude: None }),
                }),
        }),
    }
}

/// The grammar of `GenerateManifestFileStatementSegment`.
pub fn generate_manifest_file_statement_segment() -> (r: Grammar)
    ensures
        grammar_view(r) == generate_manifest_file_statement_segment_view(),
{
    Grammar::sequence_of(
        GrammarList::new()
            .and(Grammar::keyword("GENERATE"))
            .and(Grammar::text("symlink_format_manifest", SyntaxKind::SymlinkFormatManifest))
            .and(Grammar::keyword("FOR"))
            .and(Grammar::keyword("TABLE"))
            .and(Grammar::first_of(
                GrammarList::new()
                    .and(Grammar::reference("QuotedLiteralSegment"))
                    .and(Grammar::reference("FileReferenceSegment"))
                    .and(Grammar::reference("TableReferenceSegment")),
            )),
    ).node(SyntaxKind::GenerateManifestFileStatement)
}

/// The grammar of `ConvertToDeltaStatementSegment`.
pub open spec fn convert_to_delta_statement_segment_view() -> GrammarView {
    GrammarView::Node {
        kind: SyntaxKind::ConvertToDeltaStatement,
        inner: Box::new(GrammarView::Sequence {
            elements: Seq::empty()
                .push(GrammarView::Text { template: "CONVERT"@, becomes: SyntaxKind::Keyword })
                .push(GrammarView::Text { template: "TO"@, becomes: SyntaxKind::Keyword })
                .push(GrammarView::Text { template: "DELTA"@, becomes: SyntaxKind::Keyword })
                .push(GrammarView::Ref { name: "FileReferenceSegment"@, exclude: None })
                .push(GrammarView::Optional { inner: Box::new(GrammarView::Sequence {
                    elements: Seq::empty()
                        .push(GrammarView::Text { template: "NO"@, becomes: SyntaxKind::Keyword })
                        .push(
                            GrammarView::Text {
                                template: "STATISTICS"@,
                                becomes: SyntaxKind::Keyword,
                            },
                        ),
                }) })
                .push(
                    GrammarView::Optional { inner: Box::new(
                        GrammarView::Ref { name: "PartitionSpecGrammar"@, exclude: None },
                    ) },
                ),
        }),
    }
}

/// The grammar of `ConvertToDeltaStatementSegment`.
pub fn convert_to_delta_statement_segment() -> (r: Grammar)
    ensures
        grammar_view(r) == convert_to_delta_statement_segment_view(),
{
    Grammar::sequence_of(
        GrammarList::new()
            .and(Grammar::keyword("CONVERT"))
            .and(Grammar::keyword("TO"))
            .and(Grammar::keyword("DELTA"))
            .and(Grammar::reference("FileReferenceSegment"))
            .and(Grammar::sequence_of(
                GrammarList::new()
                    .and(Grammar::keyword("NO"))
                    .and(Grammar::keyword("STATISTICS")),
            ).optional())
            .and(Grammar::reference("PartitionSpecGrammar").optional()),
    ).node(SyntaxKind::ConvertToDeltaStatement)
}

/// The grammar of `RestoreTableStatementSegment`.
pub open spec fn restore_table_statement_segment_view() -> GrammarView {
    GrammarView::Node {
        kind: SyntaxKind::RestoreTableStatement,
        inner: Box::new(GrammarView::Sequence {
            elements: Seq::empty()
                .push(GrammarView::Text { template: "RESTORE"@, becomes: SyntaxKind::Keyword })
                .push(GrammarView::Text { template: "TABLE"@, becomes: SyntaxKind::Keyword })
                .push(GrammarView::OneOf {
                    options: Seq::empty()
                        .push(GrammarView::Ref { name: "QuotedLiteralSegment"@, exclude: None })
                        .push(GrammarView::Ref { name: "FileReferenceSegment"@, exclude: None })
                        .push(GrammarView::Ref { name: "TableReferenceSegment"@, exclude: None }),
                })
                .push(GrammarView::Text { template: "TO"@, becomes: SyntaxKind::Keyword })
                .push(GrammarView::OneOf {
                    options: Seq::empty()
                        .push(GrammarView::Ref { name: "TimestampAsOfGrammar"@, exclude: None })
                        .push(GrammarView::Ref { name: "VersionAsOfGrammar"@, exclude: None }),
                }),
        }),
    }
}

/// The grammar of `RestoreTableStatementSegment`.
pub fn restore_table_statement_segment() -> (r: Grammar)
    ensures
        grammar_view(r) == restore_table_statement_segment_view(),
{
    Grammar::sequence_of(
        GrammarList::new()
            .and(Grammar::keyword("RESTORE"))
            .and(Grammar::keyword("TABLE"))
            .and(Grammar::first_of(
                GrammarList::new()
                    .and(Grammar::reference("QuotedLiteralSegment"))
                    .and(Grammar::reference("FileReferenceSegment"))
                    .and(Grammar::reference("TableReferenceSegment")),
            ))
            .and(Grammar::keyword("TO"))
            .and(Grammar::first_of(
                GrammarList::new()
                    .and(Grammar::reference("TimestampAsOfGrammar"))
                    .and(Grammar::reference("VersionAsOfGrammar")),
            )),
    ).node(SyntaxKind::RestoreTableStatement)
}

/// The grammar of `ConstraintStatementSegment`.
pub open spec fn constraint_statement_segment_view() -> GrammarView {
    GrammarView::Node {
        kind: SyntaxKind::ConstraintStatement,
        inner: Box::new(GrammarView::Sequence {
            elements: Seq::empty()
                .push(GrammarView::Text { template: "CONSTRAINT"@, becomes: SyntaxKind::Keyword })
                .push(GrammarView::Ref { name: "ObjectReferenceSegment"@, exclude: None })
                .push(GrammarView::Text { template: "EXPECT"@, becomes: SyntaxKind::Keyword })
                .push(GrammarView::Bracketed {
                    elements: Seq::empty()
                        .push(GrammarView::Ref { name: "ExpressionSegment"@, exclude: None }),
                    bracket_type: "round"@,
                    parse_mode: ParseMode::Strict,
                })
                .push(GrammarView::Optional { inner: Box::new(GrammarView::Sequence {
                    elements: Seq::empty()
                        .push(GrammarView::Text { template: "ON"@, becomes: SyntaxKind::Keyword })
                        .push(
                            GrammarView::Text {
                                template: "VIOLATION"@,
                                becomes: SyntaxKind::Keyword,
                            },
                        ),
                }) })
                .push(GrammarView::Optional { inner: Box::new(GrammarView::OneOf {
                    options: Seq::empty()
                        .push(GrammarView::Sequence {
                            elements: Seq::empty()
                                .push(
                                    GrammarView::Text {
                                        template: "FAIL"@,
                                        becomes: SyntaxKind::Keyword,
                                    },
                                )
                                .push(
                                    GrammarView::Text {
                                        template: "UPDATE"@,
                                        becomes: SyntaxKind::Keyword,
                                    },
                                ),
                        })
                        .push(GrammarView::Sequence {
                            elements: Seq::empty()
                                .push(
                                    GrammarView::Text {
                                        template: "DROP"@,
                                        becomes: SyntaxKind::Keyword,
                                    },
                                )
                                .push(
                                    GrammarView::Text {
                                        template: "ROW"@,
                                        becomes: SyntaxKind::Keyword,
                                    },
                                ),
                        }),
                }) }),
        }),
    }
}

/// The grammar of `ConstraintStatementSegment`.
pub fn constraint_statement_segment() -> (r: Grammar)
    ensures
        grammar_view(r) == constraint_statement_segment_view(),
{
    Grammar::sequence_of(
        GrammarList::new()
            .and(Grammar::keyword("CONSTRAINT"))
            .and(Grammar::reference("ObjectReferenceSegment"))
            .and(Grammar::keyword("EXPECT"))
            .and(Grammar::bracketed_by(
                GrammarList::new()
                    .and(Grammar::reference("ExpressionSegment")),
                "round",
                ParseMode::Strict,
            ))
            .and(Grammar::sequence_of(
                GrammarList::new()
                    .and(Grammar::keyword("ON"))
                    .and(Grammar::keyword("VIOLATION")),
            ).optional())
            .and(Grammar::first_of(
                GrammarList::new()
                    .and(Grammar::sequence_of(
                        GrammarList::new()
                            .and(Grammar::keyword("FAIL"))
                            .and(Grammar::keyword("UPDATE")),
                    ))
                    .and(Grammar::sequence_of(
                        GrammarList::new()
                            .and(Grammar::keyword("DROP"))
                            .and(Grammar::keyword("ROW")),
                    )),
            ).optional()),
    ).node(SyntaxKind::ConstraintStatement)
}

/// The grammar of `ApplyChangesIntoStatementSegment`.
pub open spec fn apply_changes_into_statement_segment_view() -> GrammarView {
    GrammarView::Node {
        kind: SyntaxKind::ApplyChangesIntoStatement,
        inner: Box::new(GrammarView::Sequence {
            elements: Seq::empty()
                .push(GrammarView::Sequence {
                    elements: Seq::empty()
                        .push(
                            GrammarView::Text { template: "APPLY"@, becomes: SyntaxKind::Keyword },
                        )
                        .push(
                            GrammarView::Text {
                                template: "CHANGES"@,
                                becomes: SyntaxKind::Keyword,
                            },
                        )
                        .push(
                            GrammarView::Text { template: "INTO"@, becomes: SyntaxKind::Keyword },
                        ),
                })
                .push(GrammarView::Meta { kind: SyntaxKind::Indent })
                .push(GrammarView::Ref { name: "TableExpressionSegment"@, exclude: None })
                .push(GrammarView::Meta { kind: SyntaxKind::Dedent })
                .push(GrammarView::Ref { name: "FromClauseSegment"@, exclude: None })
                .push(GrammarView::Sequence {
                    elements: Seq::empty()
                        .push(GrammarView::Text { template: "KEYS"@, becomes: SyntaxKind::Keyword })
                        .push(GrammarView::Meta { kind: SyntaxKind::Indent })
                        .push(
                            GrammarView::Ref {
                                name: "BracketedColumnReferenceListGrammar"@,
                                exclude: None,
                            },
                        )
                        .push(GrammarView::Meta { kind: SyntaxKind::Dedent }),
                })
                .push(GrammarView::Optional { inner: Box::new(GrammarView::Sequence {
                    elements: Seq::empty()
                        .push(
                            GrammarView::Text { template: "IGNORE"@, becomes: SyntaxKind::Keyword },
                        )
                        .push(GrammarView::Text { template: "NULL"@, becomes: SyntaxKind::Keyword })
                        .push(
                            GrammarView::Text {
                                template: "UPDATES"@,
                                becomes: SyntaxKind::Keyword,
                            },
                        ),
                }) })
                .push(
                    GrammarView::Optional { inner: Box::new(
                        GrammarView::Ref { name: "WhereClauseSegment"@, exclude: None },
                    ) },
                )
                .push(GrammarView::AnyNumberOf {
                    options: Seq::empty()
                        .push(GrammarView::Sequence {
                            elements: Seq::empty()
                                .push(
                                    GrammarView::Text {
                                        template: "APPLY"@,
                                        becomes: SyntaxKind::Keyword,
                                    },
                                )
                                .push(
                                    GrammarView::Text {
                                        template: "AS"@,
                                        becomes: SyntaxKind::Keyword,
                                    },
                                )
                                .push(GrammarView::OneOf {
                                    options: Seq::empty()
                                        .push(
                                            GrammarView::Text {
                                                template: "DELETE"@,
                                                becomes: SyntaxKind::Keyword,
                                            },
                                        )
                                        .push(
                                            GrammarView::Text {
                                                template: "TRUNCATE"@,
                                                becomes: SyntaxKind::Keyword,
                                            },
                                        ),
                                })
                                .push(
                                    GrammarView::Text {
                                        template: "WHEN"@,
                                        becomes: SyntaxKind::Keyword,
                                    },
                                )
                                .push(
                                    GrammarView::Ref {
                                        name: "ColumnReferenceSegment"@,
                                        exclude: None,
                                    },
                                )
                                .push(GrammarView::Ref { name: "EqualsSegment"@, exclude: None })
                                .push(
                                    GrammarView::Ref {
                                        name: "QuotedLiteralSegment"@,
                                        exclude: None,
                                    },
                                ),
                        }),
                    min_times: 0,
                    max_times: Some(2),
                    max_times_per_element: None,
                })
                .push(GrammarView::Sequence {
                    elements: Seq::empty()
                        .push(
                            GrammarView::Text {
                                template: "SEQUENCE"@,
                                becomes: SyntaxKind::Keyword,
                            },
                        )
                        .push(GrammarView::Text { template: "BY"@, becomes: SyntaxKind::Keyword })
                        .push(GrammarView::Ref { name: "ColumnReferenceSegment"@, exclude: None }),
                })
                .push(GrammarView::Sequence {
                    elements: Seq::empty()
                        .push(
                            GrammarView::Text {
                                template: "COLUMNS"@,
                                becomes: SyntaxKind::Keyword,
                            },
                        )
                        .push(GrammarView::OneOf {
                            options: Seq::empty()
                                .push(GrammarView::Delimited {
                                    options: Seq::empty()
                                        .push(
                                            GrammarView::Ref {
                                                name: "ColumnReferenceSegment"@,
                                                exclude: None,
                                            },
                                        ),
                                    delimiter: Box::new(
                                        GrammarView::Ref { name: "CommaSegment"@, exclude: None },
                                    ),
                                    min_delimiters: 0,
                                    allow_trailing: false,
                                })
                                .push(GrammarView::Sequence {
                                    elements: Seq::empty()
                                        .push(
                                            GrammarView::Ref {
                                                name: "StarSegment"@,
                                                exclude: None,
                                            },
                                        )
                                        .push(
                                            GrammarView::Text {
                                                template: "EXCEPT"@,
                                                becomes: SyntaxKind::Keyword,
                                            },
                                        )
                                        .push(
                                            GrammarView::Ref {
                                                name: "BracketedColumnReferenceListGrammar"@,
                                                exclude: None,
                                            },
                                        ),
                                }),
                        }),
                })
                .push(GrammarView::Optional { inner: Box::new(GrammarView::Sequence {
                    elements: Seq::empty()
                        .push(
                            GrammarView::Text { template: "STORED"@, becomes: SyntaxKind::Keyword },
                        )
                        .push(GrammarView::Text { template: "AS"@, becomes: SyntaxKind::Keyword })
                        .push(GrammarView::Text { template: "SCD"@, becomes: SyntaxKind::Keyword })
                        .push(GrammarView::Text { template: "TYPE"@, becomes: SyntaxKind::Keyword })
                        .push(GrammarView::Ref { name: "NumericLiteralSegment"@, exclude: None }),
                }) }),
        }),
    }
}

/// The grammar of `ApplyChangesIntoStatementSegment`.
pub fn apply_changes_into_statement_segment() -> (r: Grammar)
    ensures
        grammar_view(r) == apply_changes_into_statement_segment_view(),
{
    Grammar::sequence_of(
        GrammarList::new()
            .and(Grammar::sequence_of(
                GrammarList::new()
                    .and(Grammar::keyword("APPLY"))
                    .and(Grammar::keyword("CHANGES"))
                    .and(Grammar::keyword("INTO")),
            ))
            .and(Grammar::meta(SyntaxKind::Indent))
            .and(Grammar::reference("TableExpressionSegment"))
            .and(Grammar::meta(SyntaxKind::Dedent))
            .and(Grammar::reference("FromClauseSegment"))
            .and(Grammar::sequence_of(
                GrammarList::new()
                    .and(Grammar::keyword("KEYS"))
                    .and(Grammar::meta(SyntaxKind::Indent))
                    .and(Grammar::reference("BracketedColumnReferenceListGrammar"))
                    .and(Grammar::meta(SyntaxKind::Dedent)),
            ))
            .and(Grammar::sequence_of(
                GrammarList::new()
                    .and(Grammar::keyword("IGNORE"))
                    .and(Grammar::keyword("NULL"))
                    .and(Grammar::keyword("UPDATES")),
            ).optional())
            .and(Grammar::reference("WhereClauseSegment").optional())
            .and(Grammar::repeated(
                GrammarList::new()
                    .and(Grammar::sequence_of(
                        GrammarList::new()
                            .and(Grammar::keyword("APPLY"))
                            .and(Grammar::keyword("AS"))
                            .and(Grammar::first_of(
                                GrammarList::new()
                                    .and(Grammar::keyword("DELETE"))
                                    .and(Grammar::keyword("TRUNCATE")),
                            ))
                            .and(Grammar::keyword("WHEN"))
                            .and(Grammar::reference("ColumnReferenceSegment"))
                            .and(Grammar::reference("EqualsSegment"))
                            .and(Grammar::reference("QuotedLiteralSegment")),
                    )),
                0,
                Some(2),
                None,
            ))
            .and(Grammar::sequence_of(
                GrammarList::new()
                    .and(Grammar::keyword("SEQUENCE"))
                    .and(Grammar::keyword("BY"))
                    .and(Grammar::reference("ColumnReferenceSegment")),
            ))
            .and(Grammar::sequence_of(
                GrammarList::new()
                    .and(Grammar::keyword("COLUMNS"))
                    .and(Grammar::first_of(
                        GrammarList::new()
                            .and(Grammar::delimited_by(
                                GrammarList::new()
                                    .and(Grammar::reference("ColumnReferenceSegment")),
                                Grammar::reference("CommaSegment"),
                                0,
                                false,
                            ))
                            .and(Grammar::sequence_of(
                                GrammarList::new()
                                    .and(Grammar::reference("StarSegment"))
                                    .and(Grammar::keyword("EXCEPT"))
                                    .and(Grammar::reference("BracketedColumnReferenceListGrammar")),
                            )),
                    )),
            ))
            .and(Grammar::sequence_of(
                GrammarList::new()
                    .and(Grammar::keyword("STORED"))
                    .and(Grammar::keyword("AS"))
                    .and(Grammar::keyword("SCD"))
                    .and(Grammar::keyword("TYPE"))
                    .and(Grammar::reference("NumericLiteralSegment")),
            ).optional()),
    ).node(SyntaxKind::ApplyChangesIntoStatement)
}

/// Binds `VacuumStatementSegment`, `DescribeHistoryStatementSegment`,
/// `DescribeDetailStatementSegment`,
/// `GenerateManifestFileStatementSegment`,
/// `ConvertToDeltaStatementSegment`, `RestoreTableStatementSegment`,
/// `ConstraintStatementSegment`, `ApplyChangesIntoStatementSegment`.
pub open spec fn define_vacuum_statement_segment_etc_view(dialect: DialectView) -> DialectView {
    let dialect = with_rule(dialect, "VacuumStatementSegment"@, vacuum_statement_segment_view());
    let dialect = with_rule(
        dialect,
        "DescribeHistoryStatementSegment"@,
        describe_history_statement_segment_view(),
    );
    let dialect = with_rule(
        dialect,
        "DescribeDetailStatementSegment"@,
        describe_detail_statement_segment_view(),
    );
    let dialect = with_rule(
        dialect,
        "GenerateManifestFileStatementSegment"@,
        generate_manifest_file_statement_segment_view(),
    );
    let dialect = with_rule(
        dialect,
        "ConvertToDeltaStatementSegment"@,
        convert_to_delta_statement_segment_view(),
    );
    let dialect = with_rule(
        dialect,
        "RestoreTableStatementSegment"@,
        restore_table_statement_segment_view(),
    );
    let dialect = with_rule(
        dialect,
        "ConstraintStatementSegment"@,
        constraint_statement_segment_view(),
    );
    let dialect = with_rule(
        dialect,
        "ApplyChangesIntoStatementSegment"@,
        apply_changes_into_statement_segment_view(),
    );
    dialect
}

/// Binds `VacuumStatementSegment`, `DescribeHistoryStatementSegment`,
/// `DescribeDetailStatementSegment`,
/// `GenerateManifestFileStatementSegment`,
/// `ConvertToDeltaStatementSegment`, `RestoreTableStatementSegment`,
/// `ConstraintStatementSegment`, `ApplyChangesIntoStatementSegment`.
pub fn define_vacuum_statement_segment_etc(dialect: Dialect) -> (r: Dialect)
    ensures
        r.deep_view() == define_vacuum_statement_segment_etc_view(dialect.deep_view()),
{
    let mut dialect = dialect;
    dialect.define("VacuumStatementSegment", vacuum_statement_segment());
    dialect.define("DescribeHistoryStatementSegment", describe_history_statement_segment());
    dialect.define("DescribeDetailStatementSegment", describe_detail_statement_segment());
    dialect.define(
        "GenerateManifestFileStatementSegment",
        generate_manifest_file_statement_segment(),
    );
    dialect.define("ConvertToDeltaStatementSegment", convert_to_delta_statement_segment());
    dialect.define("RestoreTableStatementSegment", restore_table_statement_segment());
    dialect.define("ConstraintStatementSegment", constraint_statement_segment());
    dialect.define("ApplyChangesIntoStatementSegment", apply_changes_into_statement_segment());
    dialect
}

/// The grammar of `WildcardExpressionSegment`, made of the grammar `base`.
pub open spec fn wildcard_expression_segment_view(base: GrammarView) -> GrammarView {
    copied(
        base,
        Seq::empty()
            .push(
                GrammarView::Optional { inner: Box::new(
                    GrammarView::Ref { name: "ExceptClauseSegment"@, exclude: None },
                ) },
            ),
        None,
    )
}

/// The grammar of `WildcardExpressionSegment`, made of the grammar `base`.
pub fn wildcard_expression_segment(base: Grammar) -> (r: Grammar)
    ensures
        grammar_view(r) == wildcard_expression_segment_view(grammar_view(base)),
{
    base.copy(
        GrammarList::new()
            .and(Grammar::reference("ExceptClauseSegment").optional()).items,
        None,
    )
}

/// Replaces the grammar of `WildcardExpressionSegment`.
pub open spec fn replace_wildcard_expression_segment_view(
    dialect: DialectView,
) -> Result<DialectView, DialectError> {
    match known(node_grammar(dialect.library, "WildcardExpressionSegment"@)) {
        Ok(base) => with_replaced(
            dialect,
            "WildcardExpressionSegment"@,
            wildcard_expression_segment_view(base),
        ),
        Err(e) => Err(e),
    }
}

/// Replaces the grammar of `WildcardExpressionSegment`.
pub fn replace_wildcard_expression_segment(dialect: Dialect) -> (r: Result<Dialect, DialectError>)
    ensures
        outcome_view(r) == replace_wildcard_expression_segment_view(dialect.deep_view()),
{
    let mut dialect = dialect;
    let base = match dialect.match_grammar("WildcardExpressionSegment") {
        Some(base) => base,
        None => {
            return Err(DialectError::UnknownRule);
        },
    };
    match dialect.replace_grammar("WildcardExpressionSegment", wildcard_expression_segment(base)) {
        Ok(()) => Ok(dialect),
        Err(e) => Err(e),
    }
}

/// The grammar of `ExceptClauseSegment`.
pub open spec fn except_clause_segment_view() -> GrammarView {
    GrammarView::Node {
        kind: SyntaxKind::SelectExceptClause,
        inner: Box::new(GrammarView::Sequence {
            elements: Seq::empty()
                .push(GrammarView::Text { template: "EXCEPT"@, becomes: SyntaxKind::Keyword })
                .push(GrammarView::Bracketed {
                    elements: Seq::empty()
                        .push(GrammarView::Delimited {
                            options: Seq::empty()
                                .push(
                                    GrammarView::Ref {
                                        name: "SingleIdentifierGrammar"@,
                                        exclude: None,
                                    },
                                ),
                            delimiter: Box::new(
                                GrammarView::Ref { name: "CommaSegment"@, exclude: None },
                            ),
                            min_delimiters: 0,
                            allow_trailing: false,
                        }),
                    bracket_type: "round"@,
                    parse_mode: ParseMode::Strict,
                }),
        }),
    }
}

/// The grammar of `ExceptClauseSegment`.
pub fn except_clause_segment() -> (r: Grammar)
    ensures
        grammar_view(r) == except_clause_segment_view(),
{
    Grammar::sequence_of(
        GrammarList::new()
            .and(Grammar::keyword("EXCEPT"))
            .and(Grammar::bracketed_by(
                GrammarList::new()
                    .and(Grammar::delimited_by(
                        GrammarList::new()
                            .and(Grammar::reference("SingleIdentifierGrammar")),
                        Grammar::reference("CommaSegment"),
                        0,
                        false,
                    )),
                "round",
                ParseMode::Strict,
            )),
    ).node(SyntaxKind::SelectExceptClause)
}

/// The grammar of `SelectClauseSegment`.
pub open spec fn select_clause_segment_view() -> GrammarView {
    GrammarView::Node {
        kind: SyntaxKind::SelectClause,
        inner: Box::new(GrammarView::Sequence {
            elements: Seq::empty()
                .push(GrammarView::Text { template: "SELECT"@, becomes: SyntaxKind::Keyword })
                .push(GrammarView::OneOf {
                    options: Seq::empty()
                        .push(GrammarView::Ref { name: "TransformClauseSegment"@, exclude: None })
                        .push(GrammarView::Sequence {
                            elements: Seq::empty()
                                .push(
                                    GrammarView::Optional { inner: Box::new(
                                        GrammarView::Ref {
                                            name: "SelectClauseModifierSegment"@,
                                            exclude: None,
                                        },
                                    ) },
                                )
                                .push(GrammarView::Meta { kind: SyntaxKind::Indent })
                                .push(GrammarView::Delimited {
                                    options: Seq::empty()
                                        .push(
                                            GrammarView::Ref {
                                                name: "SelectClauseElementSegment"@,
                                                exclude: None,
                                            },
                                        ),
                                    delimiter: Box::new(
                                        GrammarView::Ref { name: "CommaSegment"@, exclude: None },
                                    ),
                                    min_delimiters: 0,
                                    allow_trailing: true,
                                }),
                        }),
                }),
        }),
    }
}

/// The grammar of `SelectClauseSegment`.
pub fn select_clause_segment() -> (r: Grammar)
    ensures
        grammar_view(r) == select_clause_segment_view(),
{
    Grammar::sequence_of(
        GrammarList::new()
            .and(Grammar::keyword("SELECT"))
            .and(Grammar::first_of(
                GrammarList::new()
                    .and(Grammar::reference("TransformClauseSegment"))
                    .and(Grammar::sequence_of(
                        GrammarList::new()
                            .and(Grammar::reference("SelectClauseModifierSegment").optional())
                            .and(Grammar::meta(SyntaxKind::Indent))
                            .and(Grammar::delimited_by(
                                GrammarList::new()
                                    .and(Grammar::reference("SelectClauseElementSegment")),
                                Grammar::reference("CommaSegment"),
                                0,
                                true,
                            )),
                    )),
            )),
    ).node(SyntaxKind::SelectClause)
}

/// The grammar of `UsingClauseSegment`.
pub open spec fn using_clause_segment_view() -> GrammarView {
    GrammarView::Node {
        kind: SyntaxKind::UsingClause,
        inner: Box::new(GrammarView::Sequence {
            elements: Seq::empty()
                .push(GrammarView::Text { template: "USING"@, becomes: SyntaxKind::Keyword })
                .push(GrammarView::Ref { name: "DataSourceFormatSegment"@, exclude: None }),
        }),
    }
}

/// The grammar of `UsingClauseSegment`.
pub fn using_clause_segment() -> (r: Grammar)
    ensures
        grammar_view(r) == using_clause_segment_view(),
{
    Grammar::sequence_of(
        GrammarList::new()
            .and(Grammar::keyword("USING"))
            .and(Grammar::reference("DataSourceFormatSegment")),
    ).node(SyntaxKind::UsingClause)
}

/// The grammar of `DataSourceFormatSegment`.
pub open spec fn data_source_format_segment_view() -> GrammarView {
    GrammarView::Node {
        kind: SyntaxKind::DataSourceFormat,
        inner: Box::new(GrammarView::OneOf {
            options: Seq::empty()
                .push(GrammarView::Ref { name: "FileFormatGrammar"@, exclude: None })
                .push(GrammarView::Text { template: "JDBC"@, becomes: SyntaxKind::Keyword })
                .push(GrammarView::Ref { name: "ObjectReferenceSegment"@, exclude: None }),
        }),
    }
}

/// The grammar of `DataSourceFormatSegment`.
pub fn data_source_format_segment() -> (r: Grammar)
    ensures
        grammar_view(r) == data_source_format_segment_view(),
{
    Grammar::first_of(
        GrammarList::new()
            .and(Grammar::reference("FileFormatGrammar"))
            .and(Grammar::keyword("JDBC"))
            .and(Grammar::reference("ObjectReferenceSegment")),
    ).node(SyntaxKind::DataSourceFormat)
}

/// The grammar of `IcebergTransformationSegment`.
pub open spec fn iceberg_transformation_segment_view() -> GrammarView {
    GrammarView::Node {
        kind: SyntaxKind::IcebergTransformation,
        inner: Box::new(GrammarView::OneOf {
            options: Seq::empty()
                .push(GrammarView::Sequence {
                    elements: Seq::empty()
                        .push(GrammarView::OneOf {
                            options: Seq::empty()
                                .push(
                                    GrammarView::Text {
                                        template: "YEARS"@,
                                        becomes: SyntaxKind::Keyword,
                                    },
                                )
                                .push(
                                    GrammarView::Text {
                                        template: "MONTHS"@,
                                        becomes: SyntaxKind::Keyword,
                                    },
                                )
                                .push(
                                    GrammarView::Text {
                                        template: "DAYS"@,
                                        becomes: SyntaxKind::Keyword,
                                    },
                                )
                                .push(
                                    GrammarView::Text {
                                        template: "DATE"@,
                                        becomes: SyntaxKind::Keyword,
                                    },
                                )
                                .push(
                                    GrammarView::Text {
                                        template: "HOURS"@,
                                        becomes: SyntaxKind::Keyword,
                                    },
                                )
                                .push(
                                    GrammarView::Text {
                                        template: "DATE_HOUR"@,
                                        becomes: SyntaxKind::Keyword,
                                    },
                                ),
                        })
                        .push(GrammarView::Bracketed {
                            elements: Seq::empty()
                                .push(
                                    GrammarView::Ref {
                                        name: "ColumnReferenceSegment"@,
                                        exclude: None,
                                    },
                                ),
                            bracket_type: "round"@,
                            parse_mode: ParseMode::Strict,
                        }),
                })
                .push(GrammarView::Sequence {
                    elements: Seq::empty()
                        .push(GrammarView::OneOf {
                            options: Seq::empty()
                                .push(
                                    GrammarView::Text {
                                        template: "BUCKET"@,
                                        becomes: SyntaxKind::Keyword,
                                    },
                                )
                                .push(
                                    GrammarView::Text {
                                        template: "TRUNCATE"@,
                                        becomes: SyntaxKind::Keyword,
                                    },
                                ),
                        })
                        .push(GrammarView::Bracketed {
                            elements: Seq::empty()
                                .push(GrammarView::Sequence {
                                    elements: Seq::empty()
                                        .push(
                                            GrammarView::Ref {
                                                name: "NumericLiteralSegment"@,
                                                exclude: None,
                                            },
                                        )
                                        .push(
                                            GrammarView::Ref {
                                                name: "CommaSegment"@,
                                                exclude: None,
                                            },
                                        )
                                        .push(
                                            GrammarView::Ref {
                                                name: "ColumnReferenceSegment"@,
                                                exclude: None,
                                            },
                                        ),
                                }),
                            bracket_type: "round"@,
                            parse_mode: ParseMode::Strict,
                        }),
                }),
        }),
    }
}

/// The grammar of `IcebergTransformationSegment`.
pub fn iceberg_transformation_segment() -> (r: Grammar)
    ensures
        grammar_view(r) == iceberg_transformation_segment_view(),
{
    Grammar::first_of(
        GrammarList::new()
            .and(Grammar::sequence_of(
                GrammarList::new()
                    .and(Grammar::first_of(
                        GrammarList::new()
                            .and(Grammar::keyword("YEARS"))
                            .and(Grammar::keyword("MONTHS"))
                            .and(Grammar::keyword("DAYS"))
                            .and(Grammar::keyword("DATE"))
                            .and(Grammar::keyword("HOURS"))
                            .and(Grammar::keyword("DATE_HOUR")),
                    ))
                    .and(Grammar::bracketed_by(
                        GrammarList::new()
                            .and(Grammar::reference("ColumnReferenceSegment")),
                        "round",
                        ParseMode::Strict,
                    )),
            ))
            .and(Grammar::sequence_of(
                GrammarList::new()
                    .and(Grammar::first_of(
                        GrammarList::new()
                            .and(Grammar::keyword("BUCKET"))
                            .and(Grammar::keyword("TRUNCATE")),
                    ))
                    .and(Grammar::bracketed_by(
                        GrammarList::new()
                            .and(Grammar::sequence_of(
                                GrammarList::new()
                                    .and(Grammar::reference("NumericLiteralSegment"))
                                    .and(Grammar::reference("CommaSegment"))
                                    .and(Grammar::reference("ColumnReferenceSegment")),
                            )),
                        "round",
                        ParseMode::Strict,
                    )),
            )),
    ).node(SyntaxKind::IcebergTransformation)
}

/// Binds `ExceptClauseSegment`, `SelectClauseSegment`,
/// `UsingClauseSegment`, `DataSourceFormatSegment`,
/// `IcebergTransformationSegment`.
pub open spec fn define_except_clause_segment_etc_view(dialect: DialectView) -> DialectView {
    let dialect = with_rule(dialect, "ExceptClauseSegment"@, except_clause_segment_view());
    let dialect = with_rule(dialect, "SelectClauseSegment"@, select_clause_segment_view());
    let dialect = with_rule(dialect, "UsingClauseSegment"@, using_clause_segment_view());
    let dialect = with_rule(dialect, "DataSourceFormatSegment"@, data_source_format_segment_view());
    let dialect = with_rule(
        dialect,
        "IcebergTransformationSegment"@,
        iceberg_transformation_segment_view(),
    );
    dialect
}

/// Binds `ExceptClauseSegment`, `SelectClauseSegment`,
/// `UsingClauseSegment`, `DataSourceFormatSegment`,
/// `IcebergTransformationSegment`.
pub fn define_except_clause_segment_etc(dialect: Dialect) -> (r: Dialect)
    ensures
        r.deep_view() == define_except_clause_segment_etc_view(dialect.deep_view()),
{
    let mut dialect = dialect;
    dialect.define("ExceptClauseSegment", except_clause_segment());
    dialect.define("SelectClauseSegment", select_clause_segment());
    dialect.define("UsingClauseSegment", using_clause_segment());
    dialect.define("DataSourceFormatSegment", data_source_format_segment());
    dialect.define("IcebergTransformationSegment", iceberg_transformation_segment());
    dialect
}

/// The grammar of `FrameClauseSegment`.
pub open spec fn frame_clause_segment_view() -> GrammarView {
    GrammarView::Sequence {
        elements: Seq::empty()
            .push(GrammarView::Ref { name: "FrameClauseUnitGrammar"@, exclude: None })
            .push(GrammarView::OneOf {
                options: Seq::empty()
                    .push(GrammarView::OneOf {
                        options: Seq::empty()
                            .push(GrammarView::Sequence {
                                elements: Seq::empty()
                                    .push(
                                        GrammarView::Text {
                                            template: "CURRENT"@,
                                            becomes: SyntaxKind::Keyword,
                                        },
                                    )
                                    .push(
                                        GrammarView::Text {
                                            template: "ROW"@,
                                            becomes: SyntaxKind::Keyword,
                                        },
                                    ),
                            })
                            .push(GrammarView::Sequence {
                                elements: Seq::empty()
                                    .push(GrammarView::OneOf {
                                        options: Seq::empty()
                                            .push(
                                                GrammarView::Ref {
                                                    name: "NumericLiteralSegment"@,
                                                    exclude: None,
                                                },
                                            )
                                            .push(
                                                GrammarView::Text {
                                                    template: "UNBOUNDED"@,
                                                    becomes: SyntaxKind::Keyword,
                                                },
                                            )
                                            .push(
                                                GrammarView::Ref {
                                                    name: "IntervalExpressionSegment"@,
                                                    exclude: None,
                                                },
                                            ),
                                    })
                                    .push(GrammarView::OneOf {
                                        options: Seq::empty()
                                            .push(
                                                GrammarView::Text {
                                                    template: "PRECEDING"@,
                                                    becomes: SyntaxKind::Keyword,
                                                },
                                            )
                                            .push(
                                                GrammarView::Text {
                                                    template: "FOLLOWING"@,
                                                    becomes: SyntaxKind::Keyword,
                                                },
                                            ),
                                    }),
                            }),
                    })
                    .push(GrammarView::Sequence {
                        elements: Seq::empty()
                            .push(
                                GrammarView::Text {
                                    template: "BETWEEN"@,
                                    becomes: SyntaxKind::Keyword,
                                },
                            )
                            .push(GrammarView::OneOf {
                                options: Seq::empty()
                                    .push(GrammarView::Sequence {
                                        elements: Seq::empty()
                                            .push(
                                                GrammarView::Text {
                                                    template: "CURRENT"@,
                                                    becomes: SyntaxKind::Keyword,
                                                },
                                            )
                                            .push(
                                                GrammarView::Text {
                                                    template: "ROW"@,
                                                    becomes: SyntaxKind::Keyword,
                                                },
                                            ),
                                    })
                                    .push(GrammarView::Sequence {
                                        elements: Seq::empty()
                                            .push(GrammarView::OneOf {
                                                options: Seq::empty()
                                                    .push(
                                                        GrammarView::Ref {
                                                            name: "NumericLiteralSegment"@,
                                                            exclude: None,
                                                        },
                                                    )
                                                    .push(
                                                        GrammarView::Text {
                                                            template: "UNBOUNDED"@,
                                                            becomes: SyntaxKind::Keyword,
                                                        },
                                                    )
                                                    .push(
                                                        GrammarView::Ref {
                                                            name: "IntervalExpressionSegment"@,
                                                            exclude: None,
                                                        },
                                                    ),
                                            })
                                            .push(GrammarView::OneOf {
                                                options: Seq::empty()
                                                    .push(
                                                        GrammarView::Text {
                                                            template: "PRECEDING"@,
                                                            becomes: SyntaxKind::Keyword,
                                                        },
                                                    )
                                                    .push(
                                                        GrammarView::Text {
                                                            template: "FOLLOWING"@,
                                                            becomes: SyntaxKind::Keyword,
                                                        },
                                                    ),
                                            }),
                                    }),
                            })
                            .push(
                                GrammarView::Text {
                                    template: "AND"@,
                                    becomes: SyntaxKind::Keyword,
                                },
                            )
                            .push(GrammarView::OneOf {
                                options: Seq::empty()
                                    .push(GrammarView::Sequence {
                                        elements: Seq::empty()
                                            .push(
                                                GrammarView::Text {
                                                    template: "CURRENT"@,
                                                    becomes: SyntaxKind::Keyword,
                                                },
                                            )
                                            .push(
                                                GrammarView::Text {
                                                    template: "ROW"@,
                                                    becomes: SyntaxKind::Keyword,
                                                },
                                            ),
                                    })
                                    .push(GrammarView::Sequence {
                                        elements: Seq::empty()
                                            .push(GrammarView::OneOf {
                                                options: Seq::empty()
                                                    .push(
                                                        GrammarView::Ref {
                                                            name: "NumericLiteralSegment"@,
                                                            exclude: None,
                                                        },
                                                    )
                                                    .push(
                                                        GrammarView::Text {
                                                            template: "UNBOUNDED"@,
                                                            becomes: SyntaxKind::Keyword,
                                                        },
                                                    )
                                                    .push(
                                                        GrammarView::Ref {
                                                            name: "IntervalExpressionSegment"@,
                                                            exclude: None,
                                                        },
                                                    ),
                                            })
                                            .push(GrammarView::OneOf {
                                                options: Seq::empty()
                                                    .push(
                                                        GrammarView::Text {
                                                            template: "PRECEDING"@,
                                                            becomes: SyntaxKind::Keyword,
                                                        },
                                                    )
                                                    .push(
                                                        GrammarView::Text {
                                                            template: "FOLLOWING"@,
                                                            becomes: SyntaxKind::Keyword,
                                                        },
                                                    ),
                                            }),
                                    }),
                            }),
                    }),
            }),
    }
}

/// The grammar of `FrameClauseSegment`.
pub fn frame_clause_segment() -> (r: Grammar)
    ensures
        grammar_view(r) == frame_clause_segment_view(),
{
    Grammar::sequence_of(
        GrammarList::new()
            .and(Grammar::reference("FrameClauseUnitGrammar"))
            .and(Grammar::first_of(
                GrammarList::new()
                    .and(Grammar::first_of(
                        GrammarList::new()
                            .and(Grammar::sequence_of(
                                GrammarList::new()
                                    .and(Grammar::keyword("CURRENT"))
                                    .and(Grammar::keyword("ROW")),
                            ))
                            .and(Grammar::sequence_of(
                                GrammarList::new()
                                    .and(Grammar::first_of(
                                        GrammarList::new()
                                            .and(Grammar::reference("NumericLiteralSegment"))
                                            .and(Grammar::keyword("UNBOUNDED"))
                                            .and(Grammar::reference("IntervalExpressionSegment")),
                                    ))
                                    .and(Grammar::first_of(
                                        GrammarList::new()
                                            .and(Grammar::keyword("PRECEDING"))
                                            .and(Grammar::keyword("FOLLOWING")),
                                    )),
                            )),
                    ))
                    .and(Grammar::sequence_of(
                        GrammarList::new()
                            .and(Grammar::keyword("BETWEEN"))
                            .and(Grammar::first_of(
                                GrammarList::new()
                                    .and(Grammar::sequence_of(
                                        GrammarList::new()
                                            .and(Grammar::keyword("CURRENT"))
                                            .and(Grammar::keyword("ROW")),
                                    ))
                                    .and(Grammar::sequence_of(
                                        GrammarList::new()
                                            .and(Grammar::first_of(
                                                GrammarList::new()
                                                    .and(
                                                        Grammar::reference("NumericLiteralSegment"),
                                                    )
                                                    .and(Grammar::keyword("UNBOUNDED"))
                                                    .and(
                                                        Grammar::reference(
                                                            "IntervalExpressionSegment",
                                                        ),
                                                    ),
                                            ))
                                            .and(Grammar::first_of(
                                                GrammarList::new()
                                                    .and(Grammar::keyword("PRECEDING"))
                                                    .and(Grammar::keyword("FOLLOWING")),
                                            )),
                                    )),
                            ))
                            .and(Grammar::keyword("AND"))
                            .and(Grammar::first_of(
                                GrammarList::new()
                                    .and(Grammar::sequence_of(
                                        GrammarList::new()
                                            .and(Grammar::keyword("CURRENT"))
                                            .and(Grammar::keyword("ROW")),
                                    ))
                                    .and(Grammar::sequence_of(
                                        GrammarList::new()
                                            .and(Grammar::first_of(
                                                GrammarList::new()
                                                    .and(
                                                        Grammar::reference("NumericLiteralSegment"),
                                                    )
                                                    .and(Grammar::keyword("UNBOUNDED"))
                                                    .and(
                                                        Grammar::reference(
                                                            "IntervalExpressionSegment",
                                                        ),
                                                    ),
                                            ))
                                            .and(Grammar::first_of(
                                                GrammarList::new()
                                                    .and(Grammar::keyword("PRECEDING"))
                                                    .and(Grammar::keyword("FOLLOWING")),
                                            )),
                                    )),
                            )),
                    )),
            )),
    )
}

/// Replaces the grammar of `FrameClauseSegment`.
pub open spec fn replace_frame_clause_segment_view(
    dialect: DialectView,
) -> Result<DialectView, DialectError> {
    with_replaced(dialect, "FrameClauseSegment"@, frame_clause_segment_view())
}

/// Replaces the grammar of `FrameClauseSegment`.
pub fn replace_frame_clause_segment(dialect: Dialect) -> (r: Result<Dialect, DialectError>)
    ensures
        outcome_view(r) == replace_frame_clause_segment_view(dialect.deep_view()),
{
    let mut dialect = dialect;
    match dialect.replace_grammar("FrameClauseSegment", frame_clause_segment()) {
        Ok(()) => Ok(dialect),
        Err(e) => Err(e),
    }
}

/// Names the dialect, patches and adds to its lexer matchers, fills its
/// sets and adds its bracket pairs.
pub open spec fn lexer_and_sets_view(
    dialect: DialectView,
    reserved_keywords: Seq<Seq<char>>,
    unreserved_keywords: Seq<Seq<char>>,
) -> Result<DialectView, DialectError> {
    let dialect = DialectView { name: DialectKind::Sparksql, ..dialect };
    let made = with_list_patched(dialect, patched_matchers_view());
    let made = after(
        made,
        |d: DialectView| with_list_before(d, matchers_before_single_quote_view(), "single_quote"@),
    );
    let made = after(
        made,
        |d: DialectView| with_list_before(
            d,
            matchers_before_single_quote_2_view(),
            "single_quote"@,
        ),
    );
    let made = after(
        made,
        |d: DialectView| with_list_before(d, matchers_before_word_view(), "word"@),
    );
    let made = after(
        made,
        |d: DialectView| with_list_before(d, matchers_before_newline_view(), "newline"@),
    );
    let made = after(made, |d: DialectView| Ok(refill_bare_functions_view(d)));
    let made = after(made, |d: DialectView| Ok(refill_datetime_units_view(d)));
    let made = after(
        made,
        |d: DialectView| Ok(with_set_extended(d, "unreserved_keywords"@, unreserved_keywords)),
    );
    let made = after(
        made,
        |d: DialectView| Ok(with_set_extended(d, "reserved_keywords"@, reserved_keywords)),
    );
    let made = after(
        made,
        |d: DialectView| Ok(
            with_bracket_pair(
                d,
                "angle"@,
                SyntaxKind::StartAngleBracket,
                SyntaxKind::EndAngleBracket,
            ),
        ),
    );
    made
}

/// Names the dialect, patches and adds to its lexer matchers, fills its
/// sets and adds its bracket pairs.
pub fn lexer_and_sets(
    dialect: Dialect,
    reserved_keywords: &[&str],
    unreserved_keywords: &[&str],
) -> (r: Result<Dialect, DialectError>)
    ensures
        outcome_view(r) == lexer_and_sets_view(
            dialect.deep_view(),
            str_views(reserved_keywords@),
            str_views(unreserved_keywords@),
        ),
{
    let mut dialect = dialect;
    dialect = dialect.named(DialectKind::Sparksql);
    dialect = match dialect.patch_matcher_list(patched_matchers()) {
        Ok(dialect) => dialect,
        Err(e) => {
            return Err(e);
        },
    };
    dialect = match dialect.insert_matcher_list(matchers_before_single_quote(), "single_quote") {
        Ok(dialect) => dialect,
        Err(e) => {
            return Err(e);
        },
    };
    dialect = match dialect.insert_matcher_list(matchers_before_single_quote_2(), "single_quote") {
        Ok(dialect) => dialect,
        Err(e) => {
            return Err(e);
        },
    };
    dialect = match dialect.insert_matcher_list(matchers_before_word(), "word") {
        Ok(dialect) => dialect,
        Err(e) => {
            return Err(e);
        },
    };
    dialect = match dialect.insert_matcher_list(matchers_before_newline(), "newline") {
        Ok(dialect) => dialect,
        Err(e) => {
            return Err(e);
        },
    };
    dialect = refill_bare_functions(dialect);
    dialect = refill_datetime_units(dialect);
    dialect.extend_set("unreserved_keywords", unreserved_keywords);
    dialect.extend_set("reserved_keywords", reserved_keywords);
    dialect.add_bracket_pair("angle", SyntaxKind::StartAngleBracket, SyntaxKind::EndAngleBracket);
    Ok(dialect)
}

/// Binds and replaces the first part of the rules.
pub open spec fn first_rules_view(
    dialect: DialectView,
    hive: DialectView,
) -> Result<DialectView, DialectError> {
    let made = define_comparison_operator_grammar_etc_view(dialect);
    let made = after(made, |d: DialectView| define_file_literal_segment_etc_view(d, hive));
    let made = after(
        made,
        |d: DialectView| with_list_before(
            d,
            matchers_before_block_comment_view(),
            "block_comment"@,
        ),
    );
    let made = after(
        made,
        |d: DialectView| with_list_before(
            d,
            matchers_before_single_quote_3_view(),
            "single_quote"@,
        ),
    );
    let made = after(
        made,
        |d: DialectView| with_list_before(
            d,
            matchers_before_like_operator_view(),
            "like_operator"@,
        ),
    );
    let made = after(made, |d: DialectView| Ok(define_sql_conf_properties_segment_etc_view(d)));
    let made = after(made, |d: DialectView| define_primitive_type_segment_etc_view(d, hive));
    let made = after(
        made,
        |d: DialectView| Ok(define_semi_structured_accessor_segment_etc_view(d)),
    );
    made
}

/// Binds and replaces the first part of the rules.
pub fn first_rules(
    dialect: Dialect,
    hive: &Dialect,
) -> (r: Result<Dialect, DialectError>)
    ensures
        outcome_view(r) == first_rules_view(
            dialect.deep_view(),
            hive.deep_view(),
        ),
{
    let mut dialect = dialect;
    dialect = match define_comparison_operator_grammar_etc(dialect) {
        Ok(dialect) => dialect,
        Err(e) => {
            return Err(e);
        },
    };
    dialect = match define_file_literal_segment_etc(dialect, hive) {
        Ok(dialect) => dialect,
        Err(e) => {
            return Err(e);
        },
    };
    dialect = match dialect.insert_matcher_list(matchers_before_block_comment(), "block_comment") {
        Ok(dialect) => dialect,
        Err(e) => {
            return Err(e);
        },
    };
    dialect = match dialect.insert_matcher_list(matchers_before_single_quote_3(), "single_quote") {
        Ok(dialect) => dialect,
        Err(e) => {
            return Err(e);
        },
    };
    dialect = match dialect.insert_matcher_list(matchers_before_like_operator(), "like_operator") {
        Ok(dialect) => dialect,
        Err(e) => {
            return Err(e);
        },
    };
    dialect = define_sql_conf_properties_segment_etc(dialect);
    dialect = match define_primitive_type_segment_etc(dialect, hive) {
        Ok(dialect) => dialect,
        Err(e) => {
            return Err(e);
        },
    };
    dialect = define_semi_structured_accessor_segment_etc(dialect);
    Ok(dialect)
}

/// Binds and replaces the second part of the rules.
pub open spec fn second_rules_view(
    dialect: DialectView,
    hive: DialectView,
) -> Result<DialectView, DialectError> {
    let made = replace_alter_table_statement_segment_view(dialect);
    let made = after(made, |d: DialectView| Ok(define_column_field_definition_segment_view(d)));
    let made = after(made, |d: DialectView| Ok(define_alter_view_statement_segment_view(d)));
    let made = after(made, |d: DialectView| replace_create_database_statement_segment_view(d));
    let made = after(made, |d: DialectView| replace_create_function_statement_segment_view(d));
    let made = after(made, |d: DialectView| replace_create_table_statement_segment_view(d));
    let made = after(
        made,
        |d: DialectView| define_create_hive_format_table_statement_segment_view(d, hive),
    );
    let made = after(made, |d: DialectView| replace_create_view_statement_segment_view(d));
    made
}

/// Binds and replaces the second part of the rules.
pub fn second_rules(
    dialect: Dialect,
    hive: &Dialect,
) -> (r: Result<Dialect, DialectError>)
    ensures
        outcome_view(r) == second_rules_view(
            dialect.deep_view(),
            hive.deep_view(),
        ),
{
    let mut dialect = dialect;
    dialect = match replace_alter_table_statement_segment(dialect) {
        Ok(dialect) => dialect,
        Err(e) => {
            return Err(e);
        },
    };
    dialect = define_column_field_definition_segment(dialect);
    dialect = define_alter_view_statement_segment(dialect);
    dialect = match replace_create_database_statement_segment(dialect) {
        Ok(dialect) => dialect,
        Err(e) => {
            return Err(e);
        },
    };
    dialect = match replace_create_function_statement_segment(dialect) {
        Ok(dialect) => dialect,
        Err(e) => {
            return Err(e);
        },
    };
    dialect = match replace_create_table_statement_segment(dialect) {
        Ok(dialect) => dialect,
        Err(e) => {
            return Err(e);
        },
    };
    dialect = match define_create_hive_format_table_statement_segment(dialect, hive) {
        Ok(dialect) => dialect,
        Err(e) => {
            return Err(e);
        },
    };
    dialect = match replace_create_view_statement_segment(dialect) {
        Ok(dialect) => dialect,
        Err(e) => {
            return Err(e);
        },
    };
    Ok(dialect)
}

/// Binds and replaces the third part of the rules.
pub open spec fn third_rules_view(
    dialect: DialectView,
    hive: DialectView,
) -> Result<DialectView, DialectError> {
    let dialect = define_create_widget_statement_segment_etc_view(dialect);
    let made = replace_drop_database_statement_segment_view(dialect);
    let made = after(made, |d: DialectView| Ok(define_drop_function_statement_segment_view(d)));
    let made = after(
        made,
        |d: DialectView| define_msck_repair_table_statement_segment_view(d, hive),
    );
    let made = after(made, |d: DialectView| replace_truncate_statement_segment_view(d));
    let made = after(made, |d: DialectView| Ok(define_use_database_statement_segment_etc_view(d)));
    let made = after(made, |d: DialectView| replace_limit_clause_segment_view(d));
    let made = after(made, |d: DialectView| replace_set_operator_segment_view(d));
    made
}

/// Binds and replaces the third part of the rules.
pub fn third_rules(
    dialect: Dialect,
    hive: &Dialect,
) -> (r: Result<Dialect, DialectError>)
    ensures
        outcome_view(r) == third_rules_view(
            dialect.deep_view(),
            hive.deep_view(),
        ),
{
    let mut dialect = dialect;
    dialect = define_create_widget_statement_segment_etc(dialect);
    dialect = match replace_drop_database_statement_segment(dialect) {
        Ok(dialect) => dialect,
        Err(e) => {
            return Err(e);
        },
    };
    dialect = define_drop_function_statement_segment(dialect);
    dialect = match define_msck_repair_table_statement_segment(dialect, hive) {
        Ok(dialect) => dialect,
        Err(e) => {
            return Err(e);
        },
    };
    dialect = match replace_truncate_statement_segment(dialect) {
        Ok(dialect) => dialect,
        Err(e) => {
            return Err(e);
        },
    };
    dialect = define_use_database_statement_segment_etc(dialect);
    dialect = match replace_limit_clause_segment(dialect) {
        Ok(dialect) => dialect,
        Err(e) => {
            return Err(e);
        },
    };
    dialect = match replace_set_operator_segment(dialect) {
        Ok(dialect) => dialect,
        Err(e) => {
            return Err(e);
        },
    };
    Ok(dialect)
}

/// Binds and replaces the fourth part of the rules.
pub open spec fn fourth_rules_view(
    dialect: DialectView,
    hive: DialectView,
) -> Result<DialectView, DialectError> {
    let made = replace_select_clause_modifier_segment_view(dialect);
    let made = after(made, |d: DialectView| replace_unordered_select_statement_segment_view(d));
    let made = after(made, |d: DialectView| replace_select_statement_segment_view(d));
    let made = after(made, |d: DialectView| replace_group_by_clause_segment_view(d));
    let made = after(made, |d: DialectView| Ok(define_with_cube_rollup_clause_segment_etc_view(d)));
    let made = after(made, |d: DialectView| replace_sampling_expression_segment_view(d));
    let made = after(made, |d: DialectView| define_lateral_view_clause_segment_etc_view(d, hive));
    let made = after(made, |d: DialectView| replace_explain_statement_segment_view(d));
    made
}

/// Binds and replaces the fourth part of the rules.
pub fn fourth_rules(
    dialect: Dialect,
    hive: &Dialect,
) -> (r: Result<Dialect, DialectError>)
    ensures
        outcome_view(r) == fourth_rules_view(
            dialect.deep_view(),
            hive.deep_view(),
        ),
{
    let mut dialect = dialect;
    dialect = match replace_select_clause_modifier_segment(dialect) {
        Ok(dialect) => dialect,
        Err(e) => {
            return Err(e);
        },
    };
    dialect = match replace_unordered_select_statement_segment(dialect) {
        Ok(dialect) => dialect,
        Err(e) => {
            return Err(e);
        },
    };
    dialect = match replace_select_statement_segment(dialect) {
        Ok(dialect) => dialect,
        Err(e) => {
            return Err(e);
        },
    };
    dialect = match replace_group_by_clause_segment(dialect) {
        Ok(dialect) => dialect,
        Err(e) => {
            return Err(e);
        },
    };
    dialect = define_with_cube_rollup_clause_segment_etc(dialect);
    dialect = match replace_sampling_expression_segment(dialect) {
        Ok(dialect) => dialect,
        Err(e) => {
            return Err(e);
        },
    };
    dialect = match define_lateral_view_clause_segment_etc(dialect, hive) {
        Ok(dialect) => dialect,
        Err(e) => {
            return Err(e);
        },
    };
    dialect = match replace_explain_statement_segment(dialect) {
        Ok(dialect) => dialect,
        Err(e) => {
            return Err(e);
        },
    };
    Ok(dialect)
}

/// Binds and replaces the fifth part of the rules.
pub open spec fn fifth_rules_view(
    dialect: DialectView,
) -> Result<DialectView, DialectError> {
    let dialect = define_add_file_segment_etc_view(dialect);
    let made = replace_statement_segment_view(dialect);
    let made = after(made, |d: DialectView| replace_join_clause_segment_view(d));
    let made = after(made, |d: DialectView| replace_alias_expression_segment_view(d));
    let made = after(made, |d: DialectView| replace_values_clause_segment_view(d));
    let made = after(made, |d: DialectView| replace_table_expression_segment_view(d));
    let made = after(made, |d: DialectView| Ok(define_file_reference_segment_view(d)));
    let made = after(made, |d: DialectView| replace_from_expression_element_segment_view(d));
    made
}

/// Binds and replaces the fifth part of the rules.
pub fn fifth_rules(
    dialect: Dialect,
) -> (r: Result<Dialect, DialectError>)
    ensures
        outcome_view(r) == fifth_rules_view(
            dialect.deep_view(),
        ),
{
    let mut dialect = dialect;
    dialect = define_add_file_segment_etc(dialect);
    dialect = match replace_statement_segment(dialect) {
        Ok(dialect) => dialect,
        Err(e) => {
            return Err(e);
        },
    };
    dialect = match replace_join_clause_segment(dialect) {
        Ok(dialect) => dialect,
        Err(e) => {
            return Err(e);
        },
    };
    dialect = match replace_alias_expression_segment(dialect) {
        Ok(dialect) => dialect,
        Err(e) => {
            return Err(e);
        },
    };
    dialect = match replace_values_clause_segment(dialect) {
        Ok(dialect) => dialect,
        Err(e) => {
            return Err(e);
        },
    };
    dialect = match replace_table_expression_segment(dialect) {
        Ok(dialect) => dialect,
        Err(e) => {
            return Err(e);
        },
    };
    dialect = define_file_reference_segment(dialect);
    dialect = match replace_from_expression_element_segment(dialect) {
        Ok(dialect) => dialect,
        Err(e) => {
            return Err(e);
        },
    };
    Ok(dialect)
}

/// Binds and replaces the sixth part of the rules.
pub open spec fn sixth_rules_view(
    dialect: DialectView,
) -> Result<DialectView, DialectError> {
    let dialect = define_property_name_segment_etc_view(dialect);
    let made = replace_merge_update_clause_segment_view(dialect);
    let made = after(made, |d: DialectView| replace_merge_insert_clause_segment_view(d));
    let made = after(made, |d: DialectView| replace_update_statement_segment_view(d));
    let made = after(made, |d: DialectView| Ok(define_interval_literal_segment_view(d)));
    let made = after(made, |d: DialectView| replace_interval_expression_segment_view(d));
    let made = after(made, |d: DialectView| Ok(define_vacuum_statement_segment_etc_view(d)));
    let made = after(made, |d: DialectView| replace_wildcard_expression_segment_view(d));
    made
}

/// Binds and replaces the sixth part of the rules.
pub fn sixth_rules(
    dialect: Dialect,
) -> (r: Result<Dialect, DialectError>)
    ensures
        outcome_view(r) == sixth_rules_view(
            dialect.deep_view(),
        ),
{
    let mut dialect = dialect;
    dialect = define_property_name_segment_etc(dialect);
    dialect = match replace_merge_update_clause_segment(dialect) {
        Ok(dialect) => dialect,
        Err(e) => {
            return Err(e);
        },
    };
    dialect = match replace_merge_insert_clause_segment(dialect) {
        Ok(dialect) => dialect,
        Err(e) => {
            return Err(e);
        },
    };
    dialect = match replace_update_statement_segment(dialect) {
        Ok(dialect) => dialect,
        Err(e) => {
            return Err(e);
        },
    };
    dialect = define_interval_literal_segment(dialect);
    dialect = match replace_interval_expression_segment(dialect) {
        Ok(dialect) => dialect,
        Err(e) => {
            return Err(e);
        },
    };
    dialect = define_vacuum_statement_segment_etc(dialect);
    dialect = match replace_wildcard_expression_segment(dialect) {
        Ok(dialect) => dialect,
        Err(e) => {
            return Err(e);
        },
    };
    Ok(dialect)
}

/// Binds and replaces the seventh part of the rules, and expands the
/// dialect where that part is the last.
pub open spec fn seventh_rules_view(
    dialect: DialectView,
) -> Result<DialectView, DialectError> {
    let dialect = define_except_clause_segment_etc_view(dialect);
    let made = replace_frame_clause_segment_view(dialect);
    let made = after(made, |d: DialectView| expanded(d));
    made
}

/// Binds and replaces the seventh part of the rules, and expands the
/// dialect where that part is the last.
pub fn seventh_rules(
    dialect: Dialect,
) -> (r: Result<Dialect, DialectError>)
    ensures
        outcome_view(r) == seventh_rules_view(
            dialect.deep_view(),
        ),
{
    let mut dialect = dialect;
    dialect = define_except_clause_segment_etc(dialect);
    dialect = match replace_frame_clause_segment(dialect) {
        Ok(dialect) => dialect,
        Err(e) => {
            return Err(e);
        },
    };
    match dialect.expand() {
        Ok(()) => {},
        Err(e) => {
            return Err(e);
        },
    }
    Ok(dialect)
}

/// The Spark SQL dialect: the dialect `ansi` under the name of Spark SQL,
/// with its lexer matchers patched and more matchers put before those
/// named `single_quote`, `word` and `newline`, its sets of bare functions
/// and of units of time filled anew, the given words among its keywords,
/// angle brackets among its bracket pairs, and the rules of Spark SQL
/// bound or put in the place of those of `ansi`, some of them taken from
/// the dialect `hive`; then expanded. It is refused where the pattern of
/// a matcher does not compile, where `ansi` lacks a matcher or a rule that
/// Spark SQL builds on, where `hive` lacks a rule that it takes, or where
/// a rule refers to what is not there.
pub open spec fn sparksql_dialect_view(
    ansi: DialectView,
    hive: DialectView,
    reserved_keywords: Seq<Seq<char>>,
    unreserved_keywords: Seq<Seq<char>>,
) -> Result<DialectView, DialectError> {
    let dialect = ansi;
    let made = lexer_and_sets_view(dialect, reserved_keywords, unreserved_keywords);
    let made = after(made, |d: DialectView| first_rules_view(d, hive));
    let made = after(made, |d: DialectView| second_rules_view(d, hive));
    let made = after(made, |d: DialectView| third_rules_view(d, hive));
    let made = after(made, |d: DialectView| fourth_rules_view(d, hive));
    let made = after(made, |d: DialectView| fifth_rules_view(d));
    let made = after(made, |d: DialectView| sixth_rules_view(d));
    let made = after(made, |d: DialectView| seventh_rules_view(d));
    made
}

/// The Spark SQL dialect: the dialect `ansi` under the name of Spark SQL,
/// with its lexer matchers patched and more matchers put before those
/// named `single_quote`, `word` and `newline`, its sets of bare functions
/// and of units of time filled anew, the given words among its keywords,
/// angle brackets among its bracket pairs, and the rules of Spark SQL
/// bound or put in the place of those of `ansi`, some of them taken from
/// the dialect `hive`; then expanded. It is refused where the pattern of
/// a matcher does not compile, where `ansi` lacks a matcher or a rule that
/// Spark SQL builds on, where `hive` lacks a rule that it takes, or where
/// a rule refers to what is not there.
pub fn sparksql_dialect(
    ansi: Dialect,
    hive: &Dialect,
    reserved_keywords: &[&str],
    unreserved_keywords: &[&str],
) -> (r: Result<Dialect, DialectError>)
    ensures
        outcome_view(r) == sparksql_dialect_view(
            ansi.deep_view(),
            hive.deep_view(),
            str_views(reserved_keywords@),
            str_views(unreserved_keywords@),
        ),
{
    let mut dialect = ansi;
    dialect = match lexer_and_sets(dialect, reserved_keywords, unreserved_keywords) {
        Ok(dialect) => dialect,
        Err(e) => {
            return Err(e);
        },
    };
    dialect = match first_rules(dialect, hive) {
        Ok(dialect) => dialect,
        Err(e) => {
            return Err(e);
        },
    };
    dialect = match second_rules(dialect, hive) {
        Ok(dialect) => dialect,
        Err(e) => {
            return Err(e);
        },
    };
    dialect = match third_rules(dialect, hive) {
        Ok(dialect) => dialect,
        Err(e) => {
            return Err(e);
        },
    };
    dialect = match fourth_rules(dialect, hive) {
        Ok(dialect) => dialect,
        Err(e) => {
            return Err(e);
        },
    };
    dialect = match fifth_rules(dialect) {
        Ok(dialect) => dialect,
        Err(e) => {
            return Err(e);
        },
    };
    dialect = match sixth_rules(dialect) {
        Ok(dialect) => dialect,
        Err(e) => {
            return Err(e);
        },
    };
    dialect = match seventh_rules(dialect) {
        Ok(dialect) => dialect,
        Err(e) => {
            return Err(e);
        },
    };
    Ok(dialect)
}

} // verus!
