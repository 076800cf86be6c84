//! The ClickHouse dialect: what it changes in the dialect that it is made of.

use crate::dialect::{
    after, expanded, known, node_grammar, outcome_view, str_views, with_matchers_before,
    with_replaced, with_rule, with_set_extended, Dialect, DialectError, DialectKind, DialectView,
};
use crate::grammar::{copied, grammar_view, Grammar, GrammarList, GrammarView, ParseMode};
use crate::lexer::{Matcher, MatcherView, PatternView, SearchRule};
use crate::syntax::SyntaxKind;
use vstd::prelude::*;
use vstd::utf8::*;

verus! {

/// The grammar of `FromExpressionElementSegment`.
pub open spec fn from_expression_element_segment_view() -> GrammarView {
    GrammarView::Sequence {
        elements: Seq::empty()
            .push(
                GrammarView::Optional { inner: Box::new(
                    GrammarView::Ref { name: "PreTableFunctionKeywordsGrammar"@, exclude: None },
                ) },
            )
            .push(GrammarView::OneOf {
                options: Seq::empty()
                    .push(GrammarView::Bracketed {
                        elements: Seq::empty()
                            .push(
                                GrammarView::Ref { name: "TableExpressionSegment"@, exclude: None },
                            ),
                        bracket_type: "round"@,
                        parse_mode: ParseMode::Strict,
                    })
                    .push(GrammarView::Ref { name: "TableExpressionSegment"@, exclude: None }),
            })
            .push(GrammarView::Optional { inner: Box::new(GrammarView::Ref {
                name: "AliasExpressionSegment"@,
                exclude: Some(Box::new(GrammarView::OneOf {
                    options: Seq::empty()
                        .push(
                            GrammarView::Ref {
                                name: "FromClauseTerminatorGrammar"@,
                                exclude: None,
                            },
                        )
                        .push(
                            GrammarView::Ref { name: "SamplingExpressionSegment"@, exclude: None },
                        )
                        .push(GrammarView::Ref { name: "JoinLikeClauseGrammar"@, exclude: None })
                        .push(
                            GrammarView::Text { template: "FINAL"@, becomes: SyntaxKind::Keyword },
                        )
                        .push(GrammarView::Ref { name: "JoinClauseSegment"@, exclude: None }),
                })),
            }) })
            .push(
                GrammarView::Optional { inner: Box::new(
                    GrammarView::Text { template: "FINAL"@, becomes: SyntaxKind::Keyword },
                ) },
            )
            .push(GrammarView::Optional { inner: Box::new(GrammarView::Sequence {
                elements: Seq::empty()
                    .push(GrammarView::Text { template: "WITH"@, becomes: SyntaxKind::Keyword })
                    .push(GrammarView::Text { template: "OFFSET"@, becomes: SyntaxKind::Keyword })
                    .push(GrammarView::Ref { name: "AliasExpressionSegment"@, exclude: None }),
            }) })
            .push(
                GrammarView::Optional { inner: Box::new(
                    GrammarView::Ref { name: "SamplingExpressionSegment"@, exclude: None },
                ) },
            )
            .push(
                GrammarView::Optional { inner: Box::new(
                    GrammarView::Ref { name: "PostTableExpressionGrammar"@, exclude: None },
                ) },
            ),
    }
}

/// The grammar of `FromExpressionElementSegment`.
pub fn from_expression_element_segment() -> (r: Grammar)
    ensures
        grammar_view(r) == from_expression_element_segment_view(),
{
    Grammar::sequence_of(
        GrammarList::new()
            .and(Grammar::reference("PreTableFunctionKeywordsGrammar").optional())
            .and(Grammar::first_of(
                GrammarList::new()
                    .and(Grammar::bracketed_by(
                        GrammarList::new()
                            .and(Grammar::reference("TableExpressionSegment")),
                        "round",
                        ParseMode::Strict,
                    ))
                    .and(Grammar::reference("TableExpressionSegment")),
            ))
            .and(Grammar::reference_unless(
                "AliasExpressionSegment",
                Grammar::first_of(
                    GrammarList::new()
                        .and(Grammar::reference("FromClauseTerminatorGrammar"))
                        .and(Grammar::reference("SamplingExpressionSegment"))
                        .and(Grammar::reference("JoinLikeClauseGrammar"))
                        .and(Grammar::keyword("FINAL"))
                        .and(Grammar::reference("JoinClauseSegment")),
                ),
            ).optional())
            .and(Grammar::keyword("FINAL").optional())
            .and(Grammar::sequence_of(
                GrammarList::new()
                    .and(Grammar::keyword("WITH"))
                    .and(Grammar::keyword("OFFSET"))
                    .and(Grammar::reference("AliasExpressionSegment")),
            ).optional())
            .and(Grammar::reference("SamplingExpressionSegment").optional())
            .and(Grammar::reference("PostTableExpressionGrammar").optional()),
    )
}

/// Replaces the grammar of `FromExpressionElementSegment`.
pub open spec fn replace_from_expression_element_segment_view(
    dialect: DialectView,
) -> Result<DialectView, DialectError> {
    with_replaced(dialect, "FromExpressionElementSegment"@, from_expression_element_segment_view())
}

/// Replaces the grammar of `FromExpressionElementSegment`.
pub fn replace_from_expression_element_segment(
    dialect: Dialect,
) -> (r: Result<Dialect, DialectError>)
    ensures
        outcome_view(r) == replace_from_expression_element_segment_view(dialect.deep_view()),
{
    let mut dialect = dialect;
    match dialect.replace_grammar(
        "FromExpressionElementSegment",
        from_expression_element_segment(),
    ) {
        Ok(()) => Ok(dialect),
        Err(e) => Err(e),
    }
}

/// The grammar of `JoinClauseSegment`.
pub open spec fn join_clause_segment_view() -> GrammarView {
    GrammarView::OneOf {
        options: Seq::empty()
            .push(GrammarView::Sequence {
                elements: Seq::empty()
                    .push(
                        GrammarView::Optional { inner: Box::new(
                            GrammarView::Ref { name: "JoinTypeKeywords"@, exclude: None },
                        ) },
                    )
                    .push(GrammarView::Ref { name: "JoinKeywordsGrammar"@, exclude: None })
                    .push(GrammarView::Meta { kind: SyntaxKind::Indent })
                    .push(GrammarView::Ref { name: "FromExpressionElementSegment"@, exclude: None })
                    .push(GrammarView::Meta { kind: SyntaxKind::Dedent })
                    .push(
                        GrammarView::Conditional {
                            kind: SyntaxKind::Indent,
                            flag: "indented_using_on"@,
                            expected: true,
                        },
                    )
                    .push(GrammarView::Optional { inner: Box::new(GrammarView::OneOf {
                        options: Seq::empty()
                            .push(
                                GrammarView::Ref { name: "JoinOnConditionSegment"@, exclude: None },
                            )
                            .push(GrammarView::Sequence {
                                elements: Seq::empty()
                                    .push(
                                        GrammarView::Text {
                                            template: "USING"@,
                                            becomes: SyntaxKind::Keyword,
                                        },
                                    )
                                    .push(
                                        GrammarView::Conditional {
                                            kind: SyntaxKind::Indent,
                                            flag: "indented_using_on"@,
                                            expected: true,
                                        },
                                    )
                                    .push(GrammarView::Delimited {
                                        options: Seq::empty()
                                            .push(GrammarView::OneOf {
                                                options: Seq::empty()
                                                    .push(GrammarView::Bracketed {
                                                        elements: Seq::empty()
                                                            .push(GrammarView::Delimited {
                                                                options: Seq::empty()
                                                                    .push(
                                                                        GrammarView::Ref {
                                                                            name: "SingleIdentifierGrammar"@,
                                                                            exclude: None,
                                                                        },
                                                                    ),
                                                                delimiter: Box::new(
                                                                    GrammarView::Ref {
                                                                        name: "CommaSegment"@,
                                                                        exclude: None,
                                                                    },
                                                                ),
                                                                min_delimiters: 0,
                                                                allow_trailing: false,
                                                            }),
                                                        bracket_type: "round"@,
                                                        parse_mode: ParseMode::Greedy,
                                                    })
                                                    .push(GrammarView::Delimited {
                                                        options: Seq::empty()
                                                            .push(
                                                                GrammarView::Ref {
                                                                    name: "SingleIdentifierGrammar"@,
                                                                    exclude: None,
                                                                },
                                                            ),
                                                        delimiter: Box::new(
                                                            GrammarView::Ref {
                                                                name: "CommaSegment"@,
                                                                exclude: None,
                                                            },
                                                        ),
                                                        min_delimiters: 0,
                                                        allow_trailing: false,
                                                    }),
                                            }),
                                        delimiter: Box::new(
                                            GrammarView::Ref {
                                                name: "CommaSegment"@,
                                                exclude: None,
                                            },
                                        ),
                                        min_delimiters: 0,
                                        allow_trailing: false,
                                    })
                                    .push(
                                        GrammarView::Conditional {
                                            kind: SyntaxKind::Dedent,
                                            flag: "indented_using_on"@,
                                            expected: true,
                                        },
                                    ),
                            }),
                    }) })
                    .push(
                        GrammarView::Conditional {
                            kind: SyntaxKind::Dedent,
                            flag: "indented_using_on"@,
                            expected: true,
                        },
                    ),
            }),
    }
}

/// The grammar of `JoinClauseSegment`.
pub fn join_clause_segment() -> (r: Grammar)
    ensures
        grammar_view(r) == join_clause_segment_view(),
{
    Grammar::first_of(
        GrammarList::new()
            .and(Grammar::sequence_of(
                GrammarList::new()
                    .and(Grammar::reference("JoinTypeKeywords").optional())
                    .and(Grammar::reference("JoinKeywordsGrammar"))
                    .and(Grammar::meta(SyntaxKind::Indent))
                    .and(Grammar::reference("FromExpressionElementSegment"))
                    .and(Grammar::meta(SyntaxKind::Dedent))
                    .and(Grammar::conditional(SyntaxKind::Indent, "indented_using_on"))
                    .and(Grammar::first_of(
                        GrammarList::new()
                            .and(Grammar::reference("JoinOnConditionSegment"))
                            .and(Grammar::sequence_of(
                                GrammarList::new()
                                    .and(Grammar::keyword("USING"))
                                    .and(
                                        Grammar::conditional(
                                            SyntaxKind::Indent,
                                            "indented_using_on",
                                        ),
                                    )
                                    .and(Grammar::delimited_by(
                                        GrammarList::new()
                                            .and(Grammar::first_of(
                                                GrammarList::new()
                                                    .and(Grammar::bracketed_by(
                                                        GrammarList::new()
                                                            .and(Grammar::delimited_by(
                                                                GrammarList::new()
                                                                    .and(
                                                                        Grammar::reference(
                                                                            "SingleIdentifierGrammar",
                                                                        ),
                                                                    ),
                                                                Grammar::reference("CommaSegment"),
                                                                0,
                                                                false,
                                                            )),
                                                        "round",
                                                        ParseMode::Greedy,
                                                    ))
                                                    .and(Grammar::delimited_by(
                                                        GrammarList::new()
                                                            .and(
                                                                Grammar::reference(
                                                                    "SingleIdentifierGrammar",
                                                                ),
                                                            ),
                                                        Grammar::reference("CommaSegment"),
                                                        0,
                                                        false,
                                                    )),
                                            )),
                                        Grammar::reference("CommaSegment"),
                                        0,
                                        false,
                                    ))
                                    .and(
                                        Grammar::conditional(
                                            SyntaxKind::Dedent,
                                            "indented_using_on",
                                        ),
                                    ),
                            )),
                    ).optional())
                    .and(Grammar::conditional(SyntaxKind::Dedent, "indented_using_on")),
            )),
    )
}

/// Replaces the grammar of `JoinClauseSegment`.
pub open spec fn replace_join_clause_segment_view(
    dialect: DialectView,
) -> Result<DialectView, DialectError> {
    with_replaced(dialect, "JoinClauseSegment"@, join_clause_segment_view())
}

/// Replaces the grammar of `JoinClauseSegment`.
pub fn replace_join_clause_segment(dialect: Dialect) -> (r: Result<Dialect, DialectError>)
    ensures
        outcome_view(r) == replace_join_clause_segment_view(dialect.deep_view()),
{
    let mut dialect = dialect;
    match dialect.replace_grammar("JoinClauseSegment", join_clause_segment()) {
        Ok(()) => Ok(dialect),
        Err(e) => Err(e),
    }
}

/// The grammar of `SingleIdentifierGrammar`.
pub open spec fn single_identifier_grammar_view() -> GrammarView {
    GrammarView::OneOf {
        options: Seq::empty()
            .push(GrammarView::Ref { name: "NakedIdentifierSegment"@, exclude: None })
            .push(GrammarView::Ref { name: "QuotedIdentifierSegment"@, exclude: None })
            .push(GrammarView::Ref { name: "SingleQuotedIdentifierSegment"@, exclude: None }),
    }
}

/// The grammar of `SingleIdentifierGrammar`.
pub fn single_identifier_grammar() -> (r: Grammar)
    ensures
        grammar_view(r) == single_identifier_grammar_view(),
{
    Grammar::first_of(
        GrammarList::new()
            .and(Grammar::reference("NakedIdentifierSegment"))
            .and(Grammar::reference("QuotedIdentifierSegment"))
            .and(Grammar::reference("SingleQuotedIdentifierSegment")),
    )
}

/// The grammar of `QuotedLiteralSegment`.
pub open spec fn quoted_literal_segment_view() -> GrammarView {
    GrammarView::OneOf {
        options: Seq::empty()
            .push(
                GrammarView::Token {
                    kind: SyntaxKind::SingleQuote,
                    becomes: SyntaxKind::QuotedLiteral,
                },
            )
            .push(
                GrammarView::Token {
                    kind: SyntaxKind::DollarQuote,
                    becomes: SyntaxKind::QuotedLiteral,
                },
            ),
    }
}

/// The grammar of `QuotedLiteralSegment`.
pub fn quoted_literal_segment() -> (r: Grammar)
    ensures
        grammar_view(r) == quoted_literal_segment_view(),
{
    Grammar::first_of(
        GrammarList::new()
            .and(Grammar::token(SyntaxKind::SingleQuote, SyntaxKind::QuotedLiteral))
            .and(Grammar::token(SyntaxKind::DollarQuote, SyntaxKind::QuotedLiteral)),
    )
}

/// Binds `SingleIdentifierGrammar`, `QuotedLiteralSegment`.
pub open spec fn define_single_identifier_grammar_etc_view(dialect: DialectView) -> DialectView {
    let dialect = with_rule(dialect, "SingleIdentifierGrammar"@, single_identifier_grammar_view());
    let dialect = with_rule(dialect, "QuotedLiteralSegment"@, quoted_literal_segment_view());
    dialect
}

/// Binds `SingleIdentifierGrammar`, `QuotedLiteralSegment`.
pub fn define_single_identifier_grammar_etc(dialect: Dialect) -> (r: Dialect)
    ensures
        r.deep_view() == define_single_identifier_grammar_etc_view(dialect.deep_view()),
{
    let mut dialect = dialect;
    dialect.define("SingleIdentifierGrammar", single_identifier_grammar());
    dialect.define("QuotedLiteralSegment", quoted_literal_segment());
    dialect
}

/// The grammar of `JoinTypeKeywords`.
pub open spec fn join_type_keywords_view() -> GrammarView {
    GrammarView::OneOf {
        options: Seq::empty()
            .push(GrammarView::Sequence {
                elements: Seq::empty()
                    .push(GrammarView::Text { template: "INNER"@, becomes: SyntaxKind::Keyword })
                    .push(GrammarView::Optional { inner: Box::new(GrammarView::OneOf {
                        options: Seq::empty()
                            .push(
                                GrammarView::Text {
                                    template: "ALL"@,
                                    becomes: SyntaxKind::Keyword,
                                },
                            )
                            .push(
                                GrammarView::Text {
                                    template: "ANY"@,
                                    becomes: SyntaxKind::Keyword,
                                },
                            ),
                    }) }),
            })
            .push(GrammarView::Sequence {
                elements: Seq::empty()
                    .push(GrammarView::Optional { inner: Box::new(GrammarView::OneOf {
                        options: Seq::empty()
                            .push(
                                GrammarView::Text {
                                    template: "ALL"@,
                                    becomes: SyntaxKind::Keyword,
                                },
                            )
                            .push(
                                GrammarView::Text {
                                    template: "ANY"@,
                                    becomes: SyntaxKind::Keyword,
                                },
                            ),
                    }) })
                    .push(GrammarView::Text { template: "INNER"@, becomes: SyntaxKind::Keyword }),
            })
            .push(GrammarView::Sequence {
                elements: Seq::empty()
                    .push(GrammarView::Text { template: "FULL"@, becomes: SyntaxKind::Keyword })
                    .push(
                        GrammarView::Optional { inner: Box::new(
                            GrammarView::Text { template: "ALL"@, becomes: SyntaxKind::Keyword },
                        ) },
                    )
                    .push(
                        GrammarView::Optional { inner: Box::new(
                            GrammarView::Text { template: "OUTER"@, becomes: SyntaxKind::Keyword },
                        ) },
                    ),
            })
            .push(GrammarView::Sequence {
                elements: Seq::empty()
                    .push(
                        GrammarView::Optional { inner: Box::new(
                            GrammarView::Text { template: "ALL"@, becomes: SyntaxKind::Keyword },
                        ) },
                    )
                    .push(GrammarView::Text { template: "FULL"@, becomes: SyntaxKind::Keyword })
                    .push(
                        GrammarView::Optional { inner: Box::new(
                            GrammarView::Text { template: "OUTER"@, becomes: SyntaxKind::Keyword },
                        ) },
                    ),
            })
            .push(GrammarView::Sequence {
                elements: Seq::empty()
                    .push(GrammarView::Text { template: "LEFT"@, becomes: SyntaxKind::Keyword })
                    .push(GrammarView::Optional { inner: Box::new(GrammarView::OneOf {
                        options: Seq::empty()
                            .push(
                                GrammarView::Text {
                                    template: "ANTI"@,
                                    becomes: SyntaxKind::Keyword,
                                },
                            )
                            .push(
                                GrammarView::Text {
                                    template: "SEMI"@,
                                    becomes: SyntaxKind::Keyword,
                                },
                            )
                            .push(GrammarView::Optional { inner: Box::new(GrammarView::OneOf {
                                options: Seq::empty()
                                    .push(
                                        GrammarView::Text {
                                            template: "ANY"@,
                                            becomes: SyntaxKind::Keyword,
                                        },
                                    )
                                    .push(
                                        GrammarView::Text {
                                            template: "ALL"@,
                                            becomes: SyntaxKind::Keyword,
                                        },
                                    ),
                            }) })
                            .push(
                                GrammarView::Text {
                                    template: "ASOF"@,
                                    becomes: SyntaxKind::Keyword,
                                },
                            ),
                    }) })
                    .push(
                        GrammarView::Optional { inner: Box::new(
                            GrammarView::Text { template: "OUTER"@, becomes: SyntaxKind::Keyword },
                        ) },
                    ),
            })
            .push(GrammarView::Sequence {
                elements: Seq::empty()
                    .push(GrammarView::OneOf {
                        options: Seq::empty()
                            .push(
                                GrammarView::Text {
                                    template: "ANTI"@,
                                    becomes: SyntaxKind::Keyword,
                                },
                            )
                            .push(
                                GrammarView::Text {
                                    template: "SEMI"@,
                                    becomes: SyntaxKind::Keyword,
                                },
                            )
                            .push(GrammarView::Optional { inner: Box::new(GrammarView::OneOf {
                                options: Seq::empty()
                                    .push(
                                        GrammarView::Text {
                                            template: "ANY"@,
                                            becomes: SyntaxKind::Keyword,
                                        },
                                    )
                                    .push(
                                        GrammarView::Text {
                                            template: "ALL"@,
                                            becomes: SyntaxKind::Keyword,
                                        },
                                    ),
                            }) })
                            .push(
                                GrammarView::Text {
                                    template: "ASOF"@,
                                    becomes: SyntaxKind::Keyword,
                                },
                            ),
                    })
                    .push(GrammarView::Text { template: "LEFT"@, becomes: SyntaxKind::Keyword }),
            })
            .push(GrammarView::Sequence {
                elements: Seq::empty()
                    .push(GrammarView::Text { template: "RIGHT"@, becomes: SyntaxKind::Keyword })
                    .push(GrammarView::Optional { inner: Box::new(GrammarView::OneOf {
                        options: Seq::empty()
                            .push(
                                GrammarView::Text {
                                    template: "OUTER"@,
                                    becomes: SyntaxKind::Keyword,
                                },
                            )
                            .push(
                                GrammarView::Text {
                                    template: "ANTI"@,
                                    becomes: SyntaxKind::Keyword,
                                },
                            )
                            .push(
                                GrammarView::Text {
                                    template: "SEMI"@,
                                    becomes: SyntaxKind::Keyword,
                                },
                            )
                            .push(GrammarView::Optional { inner: Box::new(GrammarView::OneOf {
                                options: Seq::empty()
                                    .push(
                                        GrammarView::Text {
                                            template: "ANY"@,
                                            becomes: SyntaxKind::Keyword,
                                        },
                                    )
                                    .push(
                                        GrammarView::Text {
                                            template: "ALL"@,
                                            becomes: SyntaxKind::Keyword,
                                        },
                                    ),
                            }) }),
                    }) })
                    .push(
                        GrammarView::Optional { inner: Box::new(
                            GrammarView::Text { template: "OUTER"@, becomes: SyntaxKind::Keyword },
                        ) },
                    ),
            })
            .push(GrammarView::Sequence {
                elements: Seq::empty()
                    .push(GrammarView::OneOf {
                        options: Seq::empty()
                            .push(
                                GrammarView::Text {
                                    template: "ANTI"@,
                                    becomes: SyntaxKind::Keyword,
                                },
                            )
                            .push(
                                GrammarView::Text {
                                    template: "SEMI"@,
                                    becomes: SyntaxKind::Keyword,
                                },
                            )
                            .push(GrammarView::Optional { inner: Box::new(GrammarView::OneOf {
                                options: Seq::empty()
                                    .push(
                                        GrammarView::Text {
                                            template: "ANY"@,
                                            becomes: SyntaxKind::Keyword,
                                        },
                                    )
                                    .push(
                                        GrammarView::Text {
                                            template: "ALL"@,
                                            becomes: SyntaxKind::Keyword,
                                        },
                                    ),
                            }) }),
                    })
                    .push(GrammarView::Text { template: "RIGHT"@, becomes: SyntaxKind::Keyword }),
            })
            .push(GrammarView::Text { template: "CROSS"@, becomes: SyntaxKind::Keyword })
            .push(GrammarView::Text { template: "ANY"@, becomes: SyntaxKind::Keyword })
            .push(GrammarView::Text { template: "ALL"@, becomes: SyntaxKind::Keyword }),
    }
}

/// The grammar of `JoinTypeKeywords`.
pub fn join_type_keywords() -> (r: Grammar)
    ensures
        grammar_view(r) == join_type_keywords_view(),
{
    Grammar::first_of(
        GrammarList::new()
            .and(Grammar::sequence_of(
                GrammarList::new()
                    .and(Grammar::keyword("INNER"))
                    .and(Grammar::first_of(
                        GrammarList::new()
                            .and(Grammar::keyword("ALL"))
                            .and(Grammar::keyword("ANY")),
                    ).optional()),
            ))
            .and(Grammar::sequence_of(
                GrammarList::new()
                    .and(Grammar::first_of(
                        GrammarList::new()
                            .and(Grammar::keyword("ALL"))
                            .and(Grammar::keyword("ANY")),
                    ).optional())
                    .and(Grammar::keyword("INNER")),
            ))
            .and(Grammar::sequence_of(
                GrammarList::new()
                    .and(Grammar::keyword("FULL"))
                    .and(Grammar::keyword("ALL").optional())
                    .and(Grammar::keyword("OUTER").optional()),
            ))
            .and(Grammar::sequence_of(
                GrammarList::new()
                    .and(Grammar::keyword("ALL").optional())
                    .and(Grammar::keyword("FULL"))
                    .and(Grammar::keyword("OUTER").optional()),
            ))
            .and(Grammar::sequence_of(
                GrammarList::new()
                    .and(Grammar::keyword("LEFT"))
                    .and(Grammar::first_of(
                        GrammarList::new()
                            .and(Grammar::keyword("ANTI"))
                            .and(Grammar::keyword("SEMI"))
                            .and(Grammar::first_of(
                                GrammarList::new()
                                    .and(Grammar::keyword("ANY"))
                                    .and(Grammar::keyword("ALL")),
                            ).optional())
                            .and(Grammar::keyword("ASOF")),
                    ).optional())
                    .and(Grammar::keyword("OUTER").optional()),
            ))
            .and(Grammar::sequence_of(
                GrammarList::new()
                    .and(Grammar::first_of(
                        GrammarList::new()
                            .and(Grammar::keyword("ANTI"))
                            .and(Grammar::keyword("SEMI"))
                            .and(Grammar::first_of(
                                GrammarList::new()
                                    .and(Grammar::keyword("ANY"))
                                    .and(Grammar::keyword("ALL")),
                            ).optional())
                            .and(Grammar::keyword("ASOF")),
                    ))
                    .and(Grammar::keyword("LEFT")),
            ))
            .and(Grammar::sequence_of(
                GrammarList::new()
                    .and(Grammar::keyword("RIGHT"))
                    .and(Grammar::first_of(
                        GrammarList::new()
                            .and(Grammar::keyword("OUTER"))
                            .and(Grammar::keyword("ANTI"))
                            .and(Grammar::keyword("SEMI"))
                            .and(Grammar::first_of(
                                GrammarList::new()
                                    .and(Grammar::keyword("ANY"))
                                    .and(Grammar::keyword("ALL")),
                            ).optional()),
                    ).optional())
                    .and(Grammar::keyword("OUTER").optional()),
            ))
            .and(Grammar::sequence_of(
                GrammarList::new()
                    .and(Grammar::first_of(
                        GrammarList::new()
                            .and(Grammar::keyword("ANTI"))
                            .and(Grammar::keyword("SEMI"))
                            .and(Grammar::first_of(
                                GrammarList::new()
                                    .and(Grammar::keyword("ANY"))
                                    .and(Grammar::keyword("ALL")),
                            ).optional()),
                    ))
                    .and(Grammar::keyword("RIGHT")),
            ))
            .and(Grammar::keyword("CROSS"))
            .and(Grammar::keyword("ANY"))
            .and(Grammar::keyword("ALL")),
    )
}

/// The grammar of `LambdaFunctionSegment`.
pub open spec fn lambda_function_segment_view() -> GrammarView {
    GrammarView::Token { kind: SyntaxKind::Lambda, becomes: SyntaxKind::Lambda }
}

/// The grammar of `LambdaFunctionSegment`.
pub fn lambda_function_segment() -> (r: Grammar)
    ensures
        grammar_view(r) == lambda_function_segment_view(),
{
    Grammar::token(SyntaxKind::Lambda, SyntaxKind::Lambda)
}

/// Binds `JoinTypeKeywords`, `LambdaFunctionSegment`.
pub open spec fn define_join_type_keywords_etc_view(dialect: DialectView) -> DialectView {
    let dialect = with_rule(dialect, "JoinTypeKeywords"@, join_type_keywords_view());
    let dialect = with_rule(dialect, "LambdaFunctionSegment"@, lambda_function_segment_view());
    dialect
}

/// Binds `JoinTypeKeywords`, `LambdaFunctionSegment`.
pub fn define_join_type_keywords_etc(dialect: Dialect) -> (r: Dialect)
    ensures
        r.deep_view() == define_join_type_keywords_etc_view(dialect.deep_view()),
{
    let mut dialect = dialect;
    dialect.define("JoinTypeKeywords", join_type_keywords());
    dialect.define("LambdaFunctionSegment", lambda_function_segment());
    dialect
}

/// The grammar of `BinaryOperatorGrammar`.
pub open spec fn binary_operator_grammar_view() -> GrammarView {
    GrammarView::OneOf {
        options: Seq::empty()
            .push(GrammarView::Ref { name: "ArithmeticBinaryOperatorGrammar"@, exclude: None })
            .push(GrammarView::Ref { name: "StringBinaryOperatorGrammar"@, exclude: None })
            .push(GrammarView::Ref { name: "BooleanBinaryOperatorGrammar"@, exclude: None })
            .push(GrammarView::Ref { name: "ComparisonOperatorGrammar"@, exclude: None })
            .push(GrammarView::Ref { name: "LambdaFunctionSegment"@, exclude: None }),
    }
}

/// The grammar of `BinaryOperatorGrammar`.
pub fn binary_operator_grammar() -> (r: Grammar)
    ensures
        grammar_view(r) == binary_operator_grammar_view(),
{
    Grammar::first_of(
        GrammarList::new()
            .and(Grammar::reference("ArithmeticBinaryOperatorGrammar"))
            .and(Grammar::reference("StringBinaryOperatorGrammar"))
            .and(Grammar::reference("BooleanBinaryOperatorGrammar"))
            .and(Grammar::reference("ComparisonOperatorGrammar"))
            .and(Grammar::reference("LambdaFunctionSegment")),
    )
}

/// Binds `BinaryOperatorGrammar`.
pub open spec fn define_binary_operator_grammar_view(dialect: DialectView) -> DialectView {
    with_rule(dialect, "BinaryOperatorGrammar"@, binary_operator_grammar_view())
}

/// Binds `BinaryOperatorGrammar`.
pub fn define_binary_operator_grammar(dialect: Dialect) -> (r: Dialect)
    ensures
        r.deep_view() == define_binary_operator_grammar_view(dialect.deep_view()),
{
    let mut dialect = dialect;
    dialect.define("BinaryOperatorGrammar", binary_operator_grammar());
    dialect
}

/// The grammar of `JoinLikeClauseGrammar`.
pub open spec fn join_like_clause_grammar_view() -> GrammarView {
    GrammarView::Sequence {
        elements: Seq::empty()
            .push(GrammarView::AnyNumberOf {
                options: Seq::empty()
                    .push(GrammarView::Ref { name: "ArrayJoinClauseSegment"@, exclude: None }),
                min_times: 1,
                max_times: None,
                max_times_per_element: None,
            })
            .push(
                GrammarView::Optional { inner: Box::new(
                    GrammarView::Ref { name: "AliasExpressionSegment"@, exclude: None },
                ) },
            ),
    }
}

/// The grammar of `JoinLikeClauseGrammar`.
pub fn join_like_clause_grammar() -> (r: Grammar)
    ensures
        grammar_view(r) == join_like_clause_grammar_view(),
{
    Grammar::sequence_of(
        GrammarList::new()
            .and(Grammar::repeated(
                GrammarList::new()
                    .and(Grammar::reference("ArrayJoinClauseSegment")),
                1,
                None,
                None,
            ))
            .and(Grammar::reference("AliasExpressionSegment").optional()),
    )
}

/// Binds `JoinLikeClauseGrammar`.
pub open spec fn define_join_like_clause_grammar_view(dialect: DialectView) -> DialectView {
    with_rule(dialect, "JoinLikeClauseGrammar"@, join_like_clause_grammar_view())
}

/// Binds `JoinLikeClauseGrammar`.
pub fn define_join_like_clause_grammar(dialect: Dialect) -> (r: Dialect)
    ensures
        r.deep_view() == define_join_like_clause_grammar_view(dialect.deep_view()),
{
    let mut dialect = dialect;
    dialect.define("JoinLikeClauseGrammar", join_like_clause_grammar());
    dialect
}

/// The grammar of `BracketedArguments`.
pub open spec fn bracketed_arguments_view() -> GrammarView {
    GrammarView::Bracketed {
        elements: Seq::empty()
            .push(GrammarView::Optional { inner: Box::new(GrammarView::Delimited {
                options: Seq::empty()
                    .push(GrammarView::OneOf {
                        options: Seq::empty()
                            .push(
                                GrammarView::Ref {
                                    name: "DatatypeIdentifierSegment"@,
                                    exclude: None,
                                },
                            )
                            .push(
                                GrammarView::Ref { name: "NumericLiteralSegment"@, exclude: None },
                            ),
                    }),
                delimiter: Box::new(GrammarView::Ref { name: "CommaSegment"@, exclude: None }),
                min_delimiters: 0,
                allow_trailing: false,
            }) }),
        bracket_type: "round"@,
        parse_mode: ParseMode::Strict,
    }
}

/// The grammar of `BracketedArguments`.
pub fn bracketed_arguments() -> (r: Grammar)
    ensures
        grammar_view(r) == bracketed_arguments_view(),
{
    Grammar::bracketed_by(
        GrammarList::new()
            .and(Grammar::delimited_by(
                GrammarList::new()
                    .and(Grammar::first_of(
                        GrammarList::new()
                            .and(Grammar::reference("DatatypeIdentifierSegment"))
                            .and(Grammar::reference("NumericLiteralSegment")),
                    )),
                Grammar::reference("CommaSegment"),
                0,
                false,
            ).optional()),
        "round",
        ParseMode::Strict,
    )
}

/// Replaces the grammar of `BracketedArguments`.
pub open spec fn replace_bracketed_arguments_view(
    dialect: DialectView,
) -> Result<DialectView, DialectError> {
    with_replaced(dialect, "BracketedArguments"@, bracketed_arguments_view())
}

/// Replaces the grammar of `BracketedArguments`.
pub fn replace_bracketed_arguments(dialect: Dialect) -> (r: Result<Dialect, DialectError>)
    ensures
        outcome_view(r) == replace_bracketed_arguments_view(dialect.deep_view()),
{
    let mut dialect = dialect;
    match dialect.replace_grammar("BracketedArguments", bracketed_arguments()) {
        Ok(()) => Ok(dialect),
        Err(e) => Err(e),
    }
}

/// The grammar of `ArrayJoinClauseSegment`.
pub open spec fn array_join_clause_segment_view() -> GrammarView {
    GrammarView::Node {
        kind: SyntaxKind::ArrayJoinClause,
        inner: Box::new(GrammarView::Sequence {
            elements: Seq::empty()
                .push(
                    GrammarView::Optional { inner: Box::new(
                        GrammarView::Text { template: "LEFT"@, becomes: SyntaxKind::Keyword },
                    ) },
                )
                .push(GrammarView::Text { template: "ARRAY"@, becomes: SyntaxKind::Keyword })
                .push(GrammarView::Ref { name: "JoinKeywordsGrammar"@, exclude: None })
                .push(GrammarView::Meta { kind: SyntaxKind::Indent })
                .push(GrammarView::Delimited {
                    options: Seq::empty()
                        .push(
                            GrammarView::Ref { name: "SelectClauseElementSegment"@, exclude: None },
                        ),
                    delimiter: Box::new(GrammarView::Ref { name: "CommaSegment"@, exclude: None }),
                    min_delimiters: 0,
                    allow_trailing: false,
                })
                .push(GrammarView::Meta { kind: SyntaxKind::Dedent }),
        }),
    }
}

/// The grammar of `ArrayJoinClauseSegment`.
pub fn array_join_clause_segment() -> (r: Grammar)
    ensures
        grammar_view(r) == array_join_clause_segment_view(),
{
    Grammar::sequence_of(
        GrammarList::new()
            .and(Grammar::keyword("LEFT").optional())
            .and(Grammar::keyword("ARRAY"))
            .and(Grammar::reference("JoinKeywordsGrammar"))
            .and(Grammar::meta(SyntaxKind::Indent))
            .and(Grammar::delimited_by(
                GrammarList::new()
                    .and(Grammar::reference("SelectClauseElementSegment")),
                Grammar::reference("CommaSegment"),
                0,
                false,
            ))
            .and(Grammar::meta(SyntaxKind::Dedent)),
    ).node(SyntaxKind::ArrayJoinClause)
}

/// Binds `ArrayJoinClauseSegment`.
pub open spec fn define_array_join_clause_segment_view(dialect: DialectView) -> DialectView {
    with_rule(dialect, "ArrayJoinClauseSegment"@, array_join_clause_segment_view())
}

/// Binds `ArrayJoinClauseSegment`.
pub fn define_array_join_clause_segment(dialect: Dialect) -> (r: Dialect)
    ensures
        r.deep_view() == define_array_join_clause_segment_view(dialect.deep_view()),
{
    let mut dialect = dialect;
    dialect.define("ArrayJoinClauseSegment", array_join_clause_segment());
    dialect
}

/// The grammar of `CTEDefinitionSegment`.
pub open spec fn cte_definition_segment_view() -> GrammarView {
    GrammarView::OneOf {
        options: Seq::empty()
            .push(GrammarView::Sequence {
                elements: Seq::empty()
                    .push(GrammarView::Ref { name: "SingleIdentifierGrammar"@, exclude: None })
                    .push(
                        GrammarView::Optional { inner: Box::new(
                            GrammarView::Ref { name: "CTEColumnList"@, exclude: None },
                        ) },
                    )
                    .push(GrammarView::Text { template: "AS"@, becomes: SyntaxKind::Keyword })
                    .push(GrammarView::Bracketed {
                        elements: Seq::empty()
                            .push(GrammarView::Ref { name: "SelectableGrammar"@, exclude: None }),
                        bracket_type: "round"@,
                        parse_mode: ParseMode::Greedy,
                    }),
            })
            .push(GrammarView::Sequence {
                elements: Seq::empty()
                    .push(GrammarView::Ref { name: "ExpressionSegment"@, exclude: None })
                    .push(GrammarView::Text { template: "AS"@, becomes: SyntaxKind::Keyword })
                    .push(GrammarView::Ref { name: "SingleIdentifierGrammar"@, exclude: None }),
            }),
    }
}

/// The grammar of `CTEDefinitionSegment`.
pub fn cte_definition_segment() -> (r: Grammar)
    ensures
        grammar_view(r) == cte_definition_segment_view(),
{
    Grammar::first_of(
        GrammarList::new()
            .and(Grammar::sequence_of(
                GrammarList::new()
                    .and(Grammar::reference("SingleIdentifierGrammar"))
                    .and(Grammar::reference("CTEColumnList").optional())
                    .and(Grammar::keyword("AS"))
                    .and(Grammar::bracketed_by(
                        GrammarList::new()
                            .and(Grammar::reference("SelectableGrammar")),
                        "round",
                        ParseMode::Greedy,
                    )),
            ))
            .and(Grammar::sequence_of(
                GrammarList::new()
                    .and(Grammar::reference("ExpressionSegment"))
                    .and(Grammar::keyword("AS"))
                    .and(Grammar::reference("SingleIdentifierGrammar")),
            )),
    )
}

/// Replaces the grammar of `CTEDefinitionSegment`.
pub open spec fn replace_cte_definition_segment_view(
    dialect: DialectView,
) -> Result<DialectView, DialectError> {
    with_replaced(dialect, "CTEDefinitionSegment"@, cte_definition_segment_view())
}

/// Replaces the grammar of `CTEDefinitionSegment`.
pub fn replace_cte_definition_segment(dialect: Dialect) -> (r: Result<Dialect, DialectError>)
    ensures
        outcome_view(r) == replace_cte_definition_segment_view(dialect.deep_view()),
{
    let mut dialect = dialect;
    match dialect.replace_grammar("CTEDefinitionSegment", cte_definition_segment()) {
        Ok(()) => Ok(dialect),
        Err(e) => Err(e),
    }
}

/// The grammar of `AliasExpressionSegment`.
pub open spec fn alias_expression_segment_view() -> GrammarView {
    GrammarView::Sequence {
        elements: Seq::empty()
            .push(GrammarView::Meta { kind: SyntaxKind::Indent })
            .push(
                GrammarView::Optional { inner: Box::new(
                    GrammarView::Text { template: "AS"@, becomes: SyntaxKind::Keyword },
                ) },
            )
            .push(GrammarView::Excluding {
                inner: Box::new(GrammarView::OneOf {
                    options: Seq::empty()
                        .push(GrammarView::Sequence {
                            elements: Seq::empty()
                                .push(
                                    GrammarView::Ref {
                                        name: "SingleIdentifierGrammar"@,
                                        exclude: None,
                                    },
                                )
                                .push(GrammarView::Optional { inner: Box::new(GrammarView::Bracketed {
                                    elements: Seq::empty()
                                        .push(
                                            GrammarView::Ref {
                                                name: "SingleIdentifierListSegment"@,
                                                exclude: None,
                                            },
                                        ),
                                    bracket_type: "round"@,
                                    parse_mode: ParseMode::Strict,
                                }) }),
                        })
                        .push(
                            GrammarView::Ref {
                                name: "SingleQuotedIdentifierSegment"@,
                                exclude: None,
                            },
                        ),
                }),
                exclude: Box::new(GrammarView::OneOf {
                    options: Seq::empty()
                        .push(
                            GrammarView::Text {
                                template: "LATERAL"@,
                                becomes: SyntaxKind::Keyword,
                            },
                        )
                        .push(
                            GrammarView::Text { template: "WINDOW"@, becomes: SyntaxKind::Keyword },
                        )
                        .push(
                            GrammarView::Text { template: "KEYS"@, becomes: SyntaxKind::Keyword },
                        ),
                }),
            })
            .push(GrammarView::Meta { kind: SyntaxKind::Dedent }),
    }
}

/// The grammar of `AliasExpressionSegment`.
pub fn alias_expression_segment() -> (r: Grammar)
    ensures
        grammar_view(r) == alias_expression_segment_view(),
{
    Grammar::sequence_of(
        GrammarList::new()
            .and(Grammar::meta(SyntaxKind::Indent))
            .and(Grammar::keyword("AS").optional())
            .and(Grammar::excluding(
                Grammar::first_of(
                    GrammarList::new()
                        .and(Grammar::sequence_of(
                            GrammarList::new()
                                .and(Grammar::reference("SingleIdentifierGrammar"))
                                .and(Grammar::bracketed_by(
                                    GrammarList::new()
                                        .and(Grammar::reference("SingleIdentifierListSegment")),
                                    "round",
                                    ParseMode::Strict,
                                ).optional()),
                        ))
                        .and(Grammar::reference("SingleQuotedIdentifierSegment")),
                ),
                Grammar::first_of(
                    GrammarList::new()
                        .and(Grammar::keyword("LATERAL"))
                        .and(Grammar::keyword("WINDOW"))
                        .and(Grammar::keyword("KEYS")),
                ),
            ))
            .and(Grammar::meta(SyntaxKind::Dedent)),
    )
}

/// Replaces the grammar of `AliasExpressionSegment`.
pub open spec fn replace_alias_expression_segment_view(
    dialect: DialectView,
) -> Result<DialectView, DialectError> {
    with_replaced(dialect, "AliasExpressionSegment"@, alias_expression_segment_view())
}

/// Replaces the grammar of `AliasExpressionSegment`.
pub fn replace_alias_expression_segment(dialect: Dialect) -> (r: Result<Dialect, DialectError>)
    ensures
        outcome_view(r) == replace_alias_expression_segment_view(dialect.deep_view()),
{
    let mut dialect = dialect;
    match dialect.replace_grammar("AliasExpressionSegment", alias_expression_segment()) {
        Ok(()) => Ok(dialect),
        Err(e) => Err(e),
    }
}

/// The grammar of `TableEngineFunctionSegment`.
pub open spec fn table_engine_function_segment_view() -> GrammarView {
    GrammarView::Node {
        kind: SyntaxKind::TableEngineFunction,
        inner: Box::new(GrammarView::Sequence {
            elements: Seq::empty()
                .push(GrammarView::Ref {
                    name: "FunctionNameSegment"@,
                    exclude: Some(Box::new(GrammarView::OneOf {
                        options: Seq::empty()
                            .push(
                                GrammarView::Ref {
                                    name: "DatePartFunctionNameSegment"@,
                                    exclude: None,
                                },
                            )
                            .push(GrammarView::Ref { name: "ValuesClauseSegment"@, exclude: None }),
                    })),
                })
                .push(GrammarView::Optional { inner: Box::new(GrammarView::Bracketed {
                    elements: Seq::empty()
                        .push(
                            GrammarView::Optional { inner: Box::new(
                                GrammarView::Ref {
                                    name: "FunctionContentsGrammar"@,
                                    exclude: None,
                                },
                            ) },
                        ),
                    bracket_type: "round"@,
                    parse_mode: ParseMode::Greedy,
                }) }),
        }),
    }
}

/// The grammar of `TableEngineFunctionSegment`.
pub fn table_engine_function_segment() -> (r: Grammar)
    ensures
        grammar_view(r) == table_engine_function_segment_view(),
{
    Grammar::sequence_of(
        GrammarList::new()
            .and(Grammar::reference_unless(
                "FunctionNameSegment",
                Grammar::first_of(
                    GrammarList::new()
                        .and(Grammar::reference("DatePartFunctionNameSegment"))
                        .and(Grammar::reference("ValuesClauseSegment")),
                ),
            ))
            .and(Grammar::bracketed_by(
                GrammarList::new()
                    .and(Grammar::reference("FunctionContentsGrammar").optional()),
                "round",
                ParseMode::Greedy,
            ).optional()),
    ).node(SyntaxKind::TableEngineFunction)
}

/// The grammar of `OnClusterClauseSegment`.
pub open spec fn on_cluster_clause_segment_view() -> GrammarView {
    GrammarView::Node {
        kind: SyntaxKind::OnClusterClause,
        inner: Box::new(GrammarView::Sequence {
            elements: Seq::empty()
                .push(GrammarView::Text { template: "ON"@, becomes: SyntaxKind::Keyword })
                .push(GrammarView::Text { template: "CLUSTER"@, becomes: SyntaxKind::Keyword })
                .push(GrammarView::Ref { name: "SingleIdentifierGrammar"@, exclude: None }),
        }),
    }
}

/// The grammar of `OnClusterClauseSegment`.
pub fn on_cluster_clause_segment() -> (r: Grammar)
    ensures
        grammar_view(r) == on_cluster_clause_segment_view(),
{
    Grammar::sequence_of(
        GrammarList::new()
            .and(Grammar::keyword("ON"))
            .and(Grammar::keyword("CLUSTER"))
            .and(Grammar::reference("SingleIdentifierGrammar")),
    ).node(SyntaxKind::OnClusterClause)
}

/// The grammar of `TableEngineSegment`.
pub open spec fn table_engine_segment_view() -> GrammarView {
    GrammarView::Node {
        kind: SyntaxKind::Engine,
        inner: Box::new(GrammarView::Sequence {
            elements: Seq::empty()
                .push(GrammarView::Text { template: "ENGINE"@, becomes: SyntaxKind::Keyword })
                .push(GrammarView::Ref { name: "EqualsSegment"@, exclude: None })
                .push(GrammarView::Sequence {
                    elements: Seq::empty()
                        .push(
                            GrammarView::Ref { name: "TableEngineFunctionSegment"@, exclude: None },
                        )
                        .push(GrammarView::AnyNumberOf {
                            options: Seq::empty()
                                .push(GrammarView::Sequence {
                                    elements: Seq::empty()
                                        .push(
                                            GrammarView::Text {
                                                template: "ORDER"@,
                                                becomes: SyntaxKind::Keyword,
                                            },
                                        )
                                        .push(
                                            GrammarView::Text {
                                                template: "BY"@,
                                                becomes: SyntaxKind::Keyword,
                                            },
                                        )
                                        .push(GrammarView::OneOf {
                                            options: Seq::empty()
                                                .push(
                                                    GrammarView::Ref {
                                                        name: "BracketedColumnReferenceListGrammar"@,
                                                        exclude: None,
                                                    },
                                                )
                                                .push(
                                                    GrammarView::Ref {
                                                        name: "ColumnReferenceSegment"@,
                                                        exclude: None,
                                                    },
                                                ),
                                        }),
                                })
                                .push(GrammarView::Sequence {
                                    elements: Seq::empty()
                                        .push(
                                            GrammarView::Text {
                                                template: "PARTITION"@,
                                                becomes: SyntaxKind::Keyword,
                                            },
                                        )
                                        .push(
                                            GrammarView::Text {
                                                template: "BY"@,
                                                becomes: SyntaxKind::Keyword,
                                            },
                                        )
                                        .push(
                                            GrammarView::Ref {
                                                name: "ExpressionSegment"@,
                                                exclude: None,
                                            },
                                        ),
                                })
                                .push(GrammarView::Sequence {
                                    elements: Seq::empty()
                                        .push(
                                            GrammarView::Text {
                                                template: "PRIMARY"@,
                                                becomes: SyntaxKind::Keyword,
                                            },
                                        )
                                        .push(
                                            GrammarView::Text {
                                                template: "KEY"@,
                                                becomes: SyntaxKind::Keyword,
                                            },
                                        )
                                        .push(
                                            GrammarView::Ref {
                                                name: "ExpressionSegment"@,
                                                exclude: None,
                                            },
                                        ),
                                })
                                .push(GrammarView::Sequence {
                                    elements: Seq::empty()
                                        .push(
                                            GrammarView::Text {
                                                template: "SAMPLE"@,
                                                becomes: SyntaxKind::Keyword,
                                            },
                                        )
                                        .push(
                                            GrammarView::Text {
                                                template: "BY"@,
                                                becomes: SyntaxKind::Keyword,
                                            },
                                        )
                                        .push(
                                            GrammarView::Ref {
                                                name: "ExpressionSegment"@,
                                                exclude: None,
                                            },
                                        ),
                                })
                                .push(GrammarView::Sequence {
                                    elements: Seq::empty()
                                        .push(
                                            GrammarView::Text {
                                                template: "SETTINGS"@,
                                                becomes: SyntaxKind::Keyword,
                                            },
                                        )
                                        .push(GrammarView::Delimited {
                                            options: Seq::empty()
                                                .push(GrammarView::Optional { inner: Box::new(GrammarView::Sequence {
                                                    elements: Seq::empty()
                                                        .push(
                                                            GrammarView::Ref {
                                                                name: "NakedIdentifierSegment"@,
                                                                exclude: None,
                                                            },
                                                        )
                                                        .push(
                                                            GrammarView::Ref {
                                                                name: "EqualsSegment"@,
                                                                exclude: None,
                                                            },
                                                        )
                                                        .push(GrammarView::OneOf {
                                                            options: Seq::empty()
                                                                .push(
                                                                    GrammarView::Ref {
                                                                        name: "NumericLiteralSegment"@,
                                                                        exclude: None,
                                                                    },
                                                                )
                                                                .push(
                                                                    GrammarView::Ref {
                                                                        name: "QuotedLiteralSegment"@,
                                                                        exclude: None,
                                                                    },
                                                                ),
                                                        }),
                                                }) }),
                                            delimiter: Box::new(
                                                GrammarView::Ref {
                                                    name: "CommaSegment"@,
                                                    exclude: None,
                                                },
                                            ),
                                            min_delimiters: 0,
                                            allow_trailing: false,
                                        }),
                                }),
                            min_times: 0,
                            max_times: None,
                            max_times_per_element: Some(1),
                        }),
                }),
        }),
    }
}

/// The grammar of `TableEngineSegment`.
pub fn table_engine_segment() -> (r: Grammar)
    ensures
        grammar_view(r) == table_engine_segment_view(),
{
    Grammar::sequence_of(
        GrammarList::new()
            .and(Grammar::keyword("ENGINE"))
            .and(Grammar::reference("EqualsSegment"))
            .and(Grammar::sequence_of(
                GrammarList::new()
                    .and(Grammar::reference("TableEngineFunctionSegment"))
                    .and(Grammar::repeated(
                        GrammarList::new()
                            .and(Grammar::sequence_of(
                                GrammarList::new()
                                    .and(Grammar::keyword("ORDER"))
                                    .and(Grammar::keyword("BY"))
                                    .and(Grammar::first_of(
                                        GrammarList::new()
                                            .and(
                                                Grammar::reference(
                                                    "BracketedColumnReferenceListGrammar",
                                                ),
                                            )
                                            .and(Grammar::reference("ColumnReferenceSegment")),
                                    )),
                            ))
                            .and(Grammar::sequence_of(
                                GrammarList::new()
                                    .and(Grammar::keyword("PARTITION"))
                                    .and(Grammar::keyword("BY"))
                                    .and(Grammar::reference("ExpressionSegment")),
                            ))
                            .and(Grammar::sequence_of(
                                GrammarList::new()
                                    .and(Grammar::keyword("PRIMARY"))
                                    .and(Grammar::keyword("KEY"))
                                    .and(Grammar::reference("ExpressionSegment")),
                            ))
                            .and(Grammar::sequence_of(
                                GrammarList::new()
                                    .and(Grammar::keyword("SAMPLE"))
                                    .and(Grammar::keyword("BY"))
                                    .and(Grammar::reference("ExpressionSegment")),
                            ))
                            .and(Grammar::sequence_of(
                                GrammarList::new()
                                    .and(Grammar::keyword("SETTINGS"))
                                    .and(Grammar::delimited_by(
                                        GrammarList::new()
                                            .and(Grammar::sequence_of(
                                                GrammarList::new()
                                                    .and(
                                                        Grammar::reference(
                                                            "NakedIdentifierSegment",
                                                        ),
                                                    )
                                                    .and(Grammar::reference("EqualsSegment"))
                                                    .and(Grammar::first_of(
                                                        GrammarList::new()
                                                            .and(
                                                                Grammar::reference(
                                                                    "NumericLiteralSegment",
                                                                ),
                                                            )
                                                            .and(
                                                                Grammar::reference(
                                                                    "QuotedLiteralSegment",
                                                                ),
                                                            ),
                                                    )),
                                            ).optional()),
                                        Grammar::reference("CommaSegment"),
                                        0,
                                        false,
                                    )),
                            )),
                        0,
                        None,
                        Some(1),
                    )),
            )),
    ).node(SyntaxKind::Engine)
}

/// The grammar of `DatabaseEngineFunctionSegment`.
pub open spec fn database_engine_function_segment_view() -> GrammarView {
    GrammarView::Node {
        kind: SyntaxKind::EngineFunction,
        inner: Box::new(GrammarView::Sequence {
            elements: Seq::empty()
                .push(GrammarView::OneOf {
                    options: Seq::empty()
                        .push(
                            GrammarView::Text { template: "ATOMIC"@, becomes: SyntaxKind::Keyword },
                        )
                        .push(
                            GrammarView::Text { template: "MYSQL"@, becomes: SyntaxKind::Keyword },
                        )
                        .push(
                            GrammarView::Text {
                                template: "MATERIALIZEDMYSQL"@,
                                becomes: SyntaxKind::Keyword,
                            },
                        )
                        .push(GrammarView::Text { template: "LAZY"@, becomes: SyntaxKind::Keyword })
                        .push(
                            GrammarView::Text {
                                template: "POSTGRESQL"@,
                                becomes: SyntaxKind::Keyword,
                            },
                        )
                        .push(
                            GrammarView::Text {
                                template: "MATERIALIZEDPOSTGRESQL"@,
                                becomes: SyntaxKind::Keyword,
                            },
                        )
                        .push(
                            GrammarView::Text {
                                template: "REPLICATED"@,
                                becomes: SyntaxKind::Keyword,
                            },
                        )
                        .push(
                            GrammarView::Text { template: "SQLITE"@, becomes: SyntaxKind::Keyword },
                        ),
                })
                .push(GrammarView::Optional { inner: Box::new(GrammarView::Bracketed {
                    elements: Seq::empty()
                        .push(
                            GrammarView::Optional { inner: Box::new(
                                GrammarView::Ref {
                                    name: "FunctionContentsGrammar"@,
                                    exclude: None,
                                },
                            ) },
                        ),
                    bracket_type: "round"@,
                    parse_mode: ParseMode::Greedy,
                }) }),
        }),
    }
}

/// The grammar of `DatabaseEngineFunctionSegment`.
pub fn database_engine_function_segment() -> (r: Grammar)
    ensures
        grammar_view(r) == database_engine_function_segment_view(),
{
    Grammar::sequence_of(
        GrammarList::new()
            .and(Grammar::first_of(
                GrammarList::new()
                    .and(Grammar::keyword("ATOMIC"))
                    .and(Grammar::keyword("MYSQL"))
                    .and(Grammar::keyword("MATERIALIZEDMYSQL"))
                    .and(Grammar::keyword("LAZY"))
                    .and(Grammar::keyword("POSTGRESQL"))
                    .and(Grammar::keyword("MATERIALIZEDPOSTGRESQL"))
                    .and(Grammar::keyword("REPLICATED"))
                    .and(Grammar::keyword("SQLITE")),
            ))
            .and(Grammar::bracketed_by(
                GrammarList::new()
                    .and(Grammar::reference("FunctionContentsGrammar").optional()),
                "round",
                ParseMode::Greedy,
            ).optional()),
    ).node(SyntaxKind::EngineFunction)
}

/// The grammar of `DatabaseEngineSegment`.
pub open spec fn database_engine_segment_view() -> GrammarView {
    GrammarView::Node {
        kind: SyntaxKind::DatabaseEngine,
        inner: Box::new(GrammarView::Sequence {
            elements: Seq::empty()
                .push(GrammarView::Text { template: "ENGINE"@, becomes: SyntaxKind::Keyword })
                .push(GrammarView::Ref { name: "EqualsSegment"@, exclude: None })
                .push(GrammarView::Sequence {
                    elements: Seq::empty()
                        .push(
                            GrammarView::Ref {
                                name: "DatabaseEngineFunctionSegment"@,
                                exclude: None,
                            },
                        )
                        .push(GrammarView::AnyNumberOf {
                            options: Seq::empty()
                                .push(GrammarView::Optional { inner: Box::new(GrammarView::Sequence {
                                    elements: Seq::empty()
                                        .push(
                                            GrammarView::Text {
                                                template: "ORDER"@,
                                                becomes: SyntaxKind::Keyword,
                                            },
                                        )
                                        .push(
                                            GrammarView::Text {
                                                template: "BY"@,
                                                becomes: SyntaxKind::Keyword,
                                            },
                                        )
                                        .push(GrammarView::OneOf {
                                            options: Seq::empty()
                                                .push(
                                                    GrammarView::Ref {
                                                        name: "BracketedColumnReferenceListGrammar"@,
                                                        exclude: None,
                                                    },
                                                )
                                                .push(
                                                    GrammarView::Ref {
                                                        name: "ColumnReferenceSegment"@,
                                                        exclude: None,
                                                    },
                                                ),
                                        }),
                                }) })
                                .push(GrammarView::Optional { inner: Box::new(GrammarView::Sequence {
                                    elements: Seq::empty()
                                        .push(
                                            GrammarView::Text {
                                                template: "PARTITION"@,
                                                becomes: SyntaxKind::Keyword,
                                            },
                                        )
                                        .push(
                                            GrammarView::Text {
                                                template: "BY"@,
                                                becomes: SyntaxKind::Keyword,
                                            },
                                        )
                                        .push(
                                            GrammarView::Ref {
                                                name: "ExpressionSegment"@,
                                                exclude: None,
                                            },
                                        ),
                                }) })
                                .push(GrammarView::Optional { inner: Box::new(GrammarView::Sequence {
                                    elements: Seq::empty()
                                        .push(
                                            GrammarView::Text {
                                                template: "PRIMARY"@,
                                                becomes: SyntaxKind::Keyword,
                                            },
                                        )
                                        .push(
                                            GrammarView::Text {
                                                template: "KEY"@,
                                                becomes: SyntaxKind::Keyword,
                                            },
                                        )
                                        .push(
                                            GrammarView::Ref {
                                                name: "ExpressionSegment"@,
                                                exclude: None,
                                            },
                                        ),
                                }) })
                                .push(GrammarView::Optional { inner: Box::new(GrammarView::Sequence {
                                    elements: Seq::empty()
                                        .push(
                                            GrammarView::Text {
                                                template: "SAMPLE"@,
                                                becomes: SyntaxKind::Keyword,
                                            },
                                        )
                                        .push(
                                            GrammarView::Text {
                                                template: "BY"@,
                                                becomes: SyntaxKind::Keyword,
                                            },
                                        )
                                        .push(
                                            GrammarView::Ref {
                                                name: "ExpressionSegment"@,
                                                exclude: None,
                                            },
                                        ),
                                }) })
                                .push(GrammarView::Optional { inner: Box::new(GrammarView::Sequence {
                                    elements: Seq::empty()
                                        .push(
                                            GrammarView::Text {
                                                template: "SETTINGS"@,
                                                becomes: SyntaxKind::Keyword,
                                            },
                                        )
                                        .push(GrammarView::Delimited {
                                            options: Seq::empty()
                                                .push(GrammarView::AnyNumberOf {
                                                    options: Seq::empty()
                                                        .push(GrammarView::Optional { inner: Box::new(GrammarView::Sequence {
                                                            elements: Seq::empty()
                                                                .push(
                                                                    GrammarView::Ref {
                                                                        name: "NakedIdentifierSegment"@,
                                                                        exclude: None,
                                                                    },
                                                                )
                                                                .push(
                                                                    GrammarView::Ref {
                                                                        name: "EqualsSegment"@,
                                                                        exclude: None,
                                                                    },
                                                                )
                                                                .push(GrammarView::OneOf {
                                                                    options: Seq::empty()
                                                                        .push(
                                                                            GrammarView::Ref {
                                                                                name: "NumericLiteralSegment"@,
                                                                                exclude: None,
                                                                            },
                                                                        )
                                                                        .push(
                                                                            GrammarView::Ref {
                                                                                name: "QuotedLiteralSegment"@,
                                                                                exclude: None,
                                                                            },
                                                                        ),
                                                                }),
                                                        }) }),
                                                    min_times: 0,
                                                    max_times: None,
                                                    max_times_per_element: None,
                                                }),
                                            delimiter: Box::new(
                                                GrammarView::Ref {
                                                    name: "CommaSegment"@,
                                                    exclude: None,
                                                },
                                            ),
                                            min_delimiters: 0,
                                            allow_trailing: false,
                                        }),
                                }) }),
                            min_times: 0,
                            max_times: None,
                            max_times_per_element: Some(1),
                        }),
                }),
        }),
    }
}

/// The grammar of `DatabaseEngineSegment`.
pub fn database_engine_segment() -> (r: Grammar)
    ensures
        grammar_view(r) == database_engine_segment_view(),
{
    Grammar::sequence_of(
        GrammarList::new()
            .and(Grammar::keyword("ENGINE"))
            .and(Grammar::reference("EqualsSegment"))
            .and(Grammar::sequence_of(
                GrammarList::new()
                    .and(Grammar::reference("DatabaseEngineFunctionSegment"))
                    .and(Grammar::repeated(
                        GrammarList::new()
                            .and(Grammar::sequence_of(
                                GrammarList::new()
                                    .and(Grammar::keyword("ORDER"))
                                    .and(Grammar::keyword("BY"))
                                    .and(Grammar::first_of(
                                        GrammarList::new()
                                            .and(
                                                Grammar::reference(
                                                    "BracketedColumnReferenceListGrammar",
                                                ),
                                            )
                                            .and(Grammar::reference("ColumnReferenceSegment")),
                                    )),
                            ).optional())
                            .and(Grammar::sequence_of(
                                GrammarList::new()
                                    .and(Grammar::keyword("PARTITION"))
                                    .and(Grammar::keyword("BY"))
                                    .and(Grammar::reference("ExpressionSegment")),
                            ).optional())
                            .and(Grammar::sequence_of(
                                GrammarList::new()
                                    .and(Grammar::keyword("PRIMARY"))
                                    .and(Grammar::keyword("KEY"))
                                    .and(Grammar::reference("ExpressionSegment")),
                            ).optional())
                            .and(Grammar::sequence_of(
                                GrammarList::new()
                                    .and(Grammar::keyword("SAMPLE"))
                                    .and(Grammar::keyword("BY"))
                                    .and(Grammar::reference("ExpressionSegment")),
                            ).optional())
                            .and(Grammar::sequence_of(
                                GrammarList::new()
                                    .and(Grammar::keyword("SETTINGS"))
                                    .and(Grammar::delimited_by(
                                        GrammarList::new()
                                            .and(Grammar::repeated(
                                                GrammarList::new()
                                                    .and(Grammar::sequence_of(
                                                        GrammarList::new()
                                                            .and(
                                                                Grammar::reference(
                                                                    "NakedIdentifierSegment",
                                                                ),
                                                            )
                                                            .and(
                                                                Grammar::reference("EqualsSegment"),
                                                            )
                                                            .and(Grammar::first_of(
                                                                GrammarList::new()
                                                                    .and(
                                                                        Grammar::reference(
                                                                            "NumericLiteralSegment",
                                                                        ),
                                                                    )
                                                                    .and(
                                                                        Grammar::reference(
                                                                            "QuotedLiteralSegment",
                                                                        ),
                                                                    ),
                                                            )),
                                                    ).optional()),
                                                0,
                                                None,
                                                None,
                                            )),
                                        Grammar::reference("CommaSegment"),
                                        0,
                                        false,
                                    )),
                            ).optional()),
                        0,
                        None,
                        Some(1),
                    )),
            )),
    ).node(SyntaxKind::DatabaseEngine)
}

/// The grammar of `ColumnTTLSegment`.
pub open spec fn column_ttl_segment_view() -> GrammarView {
    GrammarView::Node {
        kind: SyntaxKind::ColumnTtlSegment,
        inner: Box::new(GrammarView::Sequence {
            elements: Seq::empty()
                .push(GrammarView::Text { template: "TTL"@, becomes: SyntaxKind::Keyword })
                .push(GrammarView::Ref { name: "ExpressionSegment"@, exclude: None }),
        }),
    }
}

/// The grammar of `ColumnTTLSegment`.
pub fn column_ttl_segment() -> (r: Grammar)
    ensures
        grammar_view(r) == column_ttl_segment_view(),
{
    Grammar::sequence_of(
        GrammarList::new()
            .and(Grammar::keyword("TTL"))
            .and(Grammar::reference("ExpressionSegment")),
    ).node(SyntaxKind::ColumnTtlSegment)
}

/// The grammar of `TableTTLSegment`.
pub open spec fn table_ttl_segment_view() -> GrammarView {
    GrammarView::Node {
        kind: SyntaxKind::TableTtlSegment,
        inner: Box::new(GrammarView::Sequence {
            elements: Seq::empty()
                .push(GrammarView::Text { template: "TTL"@, becomes: SyntaxKind::Keyword })
                .push(GrammarView::Delimited {
                    options: Seq::empty()
                        .push(GrammarView::Sequence {
                            elements: Seq::empty()
                                .push(
                                    GrammarView::Ref { name: "ExpressionSegment"@, exclude: None },
                                )
                                .push(GrammarView::Optional { inner: Box::new(GrammarView::OneOf {
                                    options: Seq::empty()
                                        .push(
                                            GrammarView::Text {
                                                template: "DELETE"@,
                                                becomes: SyntaxKind::Keyword,
                                            },
                                        )
                                        .push(GrammarView::Sequence {
                                            elements: Seq::empty()
                                                .push(
                                                    GrammarView::Text {
                                                        template: "TO"@,
                                                        becomes: SyntaxKind::Keyword,
                                                    },
                                                )
                                                .push(
                                                    GrammarView::Text {
                                                        template: "VOLUME"@,
                                                        becomes: SyntaxKind::Keyword,
                                                    },
                                                )
                                                .push(
                                                    GrammarView::Ref {
                                                        name: "QuotedLiteralSegment"@,
                                                        exclude: None,
                                                    },
                                                ),
                                        })
                                        .push(GrammarView::Sequence {
                                            elements: Seq::empty()
                                                .push(
                                                    GrammarView::Text {
                                                        template: "TO"@,
                                                        becomes: SyntaxKind::Keyword,
                                                    },
                                                )
                                                .push(
                                                    GrammarView::Text {
                                                        template: "DISK"@,
                                                        becomes: SyntaxKind::Keyword,
                                                    },
                                                )
                                                .push(
                                                    GrammarView::Ref {
                                                        name: "QuotedLiteralSegment"@,
                                                        exclude: None,
                                                    },
                                                ),
                                        }),
                                }) })
                                .push(
                                    GrammarView::Optional { inner: Box::new(
                                        GrammarView::Ref {
                                            name: "WhereClauseSegment"@,
                                            exclude: None,
                                        },
                                    ) },
                                )
                                .push(
                                    GrammarView::Optional { inner: Box::new(
                                        GrammarView::Ref {
                                            name: "GroupByClauseSegment"@,
                                            exclude: None,
                                        },
                                    ) },
                                ),
                        }),
                    delimiter: Box::new(GrammarView::Ref { name: "CommaSegment"@, exclude: None }),
                    min_delimiters: 0,
                    allow_trailing: false,
                }),
        }),
    }
}

/// The grammar of `TableTTLSegment`.
pub fn table_ttl_segment() -> (r: Grammar)
    ensures
        grammar_view(r) == table_ttl_segment_view(),
{
    Grammar::sequence_of(
        GrammarList::new()
            .and(Grammar::keyword("TTL"))
            .and(Grammar::delimited_by(
                GrammarList::new()
                    .and(Grammar::sequence_of(
                        GrammarList::new()
                            .and(Grammar::reference("ExpressionSegment"))
                            .and(Grammar::first_of(
                                GrammarList::new()
                                    .and(Grammar::keyword("DELETE"))
                                    .and(Grammar::sequence_of(
                                        GrammarList::new()
                                            .and(Grammar::keyword("TO"))
                                            .and(Grammar::keyword("VOLUME"))
                                            .and(Grammar::reference("QuotedLiteralSegment")),
                                    ))
                                    .and(Grammar::sequence_of(
                                        GrammarList::new()
                                            .and(Grammar::keyword("TO"))
                                            .and(Grammar::keyword("DISK"))
                                            .and(Grammar::reference("QuotedLiteralSegment")),
                                    )),
                            ).optional())
                            .and(Grammar::reference("WhereClauseSegment").optional())
                            .and(Grammar::reference("GroupByClauseSegment").optional()),
                    )),
                Grammar::reference("CommaSegment"),
                0,
                false,
            )),
    ).node(SyntaxKind::TableTtlSegment)
}

/// The grammar of `ColumnConstraintSegment`.
pub open spec fn column_constraint_segment_view() -> GrammarView {
    GrammarView::Node {
        kind: SyntaxKind::ColumnConstraintSegment,
        inner: Box::new(GrammarView::AnyNumberOf {
            options: Seq::empty()
                .push(GrammarView::Sequence {
                    elements: Seq::empty()
                        .push(GrammarView::Optional { inner: Box::new(GrammarView::Sequence {
                            elements: Seq::empty()
                                .push(
                                    GrammarView::Text {
                                        template: "CONSTRAINT"@,
                                        becomes: SyntaxKind::Keyword,
                                    },
                                )
                                .push(
                                    GrammarView::Ref {
                                        name: "ObjectReferenceSegment"@,
                                        exclude: None,
                                    },
                                ),
                        }) })
                        .push(GrammarView::OneOf {
                            options: Seq::empty()
                                .push(GrammarView::Sequence {
                                    elements: Seq::empty()
                                        .push(
                                            GrammarView::Optional { inner: Box::new(
                                                GrammarView::Text {
                                                    template: "NOT"@,
                                                    becomes: SyntaxKind::Keyword,
                                                },
                                            ) },
                                        )
                                        .push(
                                            GrammarView::Text {
                                                template: "NULL"@,
                                                becomes: SyntaxKind::Keyword,
                                            },
                                        ),
                                })
                                .push(GrammarView::Sequence {
                                    elements: Seq::empty()
                                        .push(
                                            GrammarView::Text {
                                                template: "CHECK"@,
                                                becomes: SyntaxKind::Keyword,
                                            },
                                        )
                                        .push(GrammarView::Bracketed {
                                            elements: Seq::empty()
                                                .push(
                                                    GrammarView::Ref {
                                                        name: "ExpressionSegment"@,
                                                        exclude: None,
                                                    },
                                                ),
                                            bracket_type: "round"@,
                                            parse_mode: ParseMode::Strict,
                                        }),
                                })
                                .push(GrammarView::Sequence {
                                    elements: Seq::empty()
                                        .push(GrammarView::OneOf {
                                            options: Seq::empty()
                                                .push(
                                                    GrammarView::Text {
                                                        template: "DEFAULT"@,
                                                        becomes: SyntaxKind::Keyword,
                                                    },
                                                )
                                                .push(
                                                    GrammarView::Text {
                                                        template: "MATERIALIZED"@,
                                                        becomes: SyntaxKind::Keyword,
                                                    },
                                                )
                                                .push(
                                                    GrammarView::Text {
                                                        template: "ALIAS"@,
                                                        becomes: SyntaxKind::Keyword,
                                                    },
                                                ),
                                        })
                                        .push(GrammarView::OneOf {
                                            options: Seq::empty()
                                                .push(
                                                    GrammarView::Ref {
                                                        name: "LiteralGrammar"@,
                                                        exclude: None,
                                                    },
                                                )
                                                .push(
                                                    GrammarView::Ref {
                                                        name: "FunctionSegment"@,
                                                        exclude: None,
                                                    },
                                                )
                                                .push(
                                                    GrammarView::Ref {
                                                        name: "BareFunctionSegment"@,
                                                        exclude: None,
                                                    },
                                                ),
                                        }),
                                })
                                .push(GrammarView::Sequence {
                                    elements: Seq::empty()
                                        .push(
                                            GrammarView::Text {
                                                template: "EPHEMERAL"@,
                                                becomes: SyntaxKind::Keyword,
                                            },
                                        )
                                        .push(GrammarView::Optional { inner: Box::new(GrammarView::OneOf {
                                            options: Seq::empty()
                                                .push(
                                                    GrammarView::Ref {
                                                        name: "LiteralGrammar"@,
                                                        exclude: None,
                                                    },
                                                )
                                                .push(
                                                    GrammarView::Ref {
                                                        name: "FunctionSegment"@,
                                                        exclude: None,
                                                    },
                                                )
                                                .push(
                                                    GrammarView::Ref {
                                                        name: "BareFunctionSegment"@,
                                                        exclude: None,
                                                    },
                                                ),
                                        }) }),
                                })
                                .push(
                                    GrammarView::Ref { name: "PrimaryKeyGrammar"@, exclude: None },
                                )
                                .push(GrammarView::Optional { inner: Box::new(GrammarView::Sequence {
                                    elements: Seq::empty()
                                        .push(
                                            GrammarView::Text {
                                                template: "CODEC"@,
                                                becomes: SyntaxKind::Keyword,
                                            },
                                        )
                                        .push(
                                            GrammarView::Ref {
                                                name: "FunctionContentsGrammar"@,
                                                exclude: None,
                                            },
                                        ),
                                }) })
                                .push(
                                    GrammarView::Ref { name: "ColumnTTLSegment"@, exclude: None },
                                ),
                        }),
                }),
            min_times: 0,
            max_times: None,
            max_times_per_element: Some(1),
        }),
    }
}

/// The grammar of `ColumnConstraintSegment`.
pub fn column_constraint_segment() -> (r: Grammar)
    ensures
        grammar_view(r) == column_constraint_segment_view(),
{
    Grammar::repeated(
        GrammarList::new()
            .and(Grammar::sequence_of(
                GrammarList::new()
                    .and(Grammar::sequence_of(
                        GrammarList::new()
                            .and(Grammar::keyword("CONSTRAINT"))
                            .and(Grammar::reference("ObjectReferenceSegment")),
                    ).optional())
                    .and(Grammar::first_of(
                        GrammarList::new()
                            .and(Grammar::sequence_of(
                                GrammarList::new()
                                    .and(Grammar::keyword("NOT").optional())
                                    .and(Grammar::keyword("NULL")),
                            ))
                            .and(Grammar::sequence_of(
                                GrammarList::new()
                                    .and(Grammar::keyword("CHECK"))
                                    .and(Grammar::bracketed_by(
                                        GrammarList::new()
                                            .and(Grammar::reference("ExpressionSegment")),
                                        "round",
                                        ParseMode::Strict,
                                    )),
                            ))
                            .and(Grammar::sequence_of(
                                GrammarList::new()
                                    .and(Grammar::first_of(
                                        GrammarList::new()
                                            .and(Grammar::keyword("DEFAULT"))
                                            .and(Grammar::keyword("MATERIALIZED"))
                                            .and(Grammar::keyword("ALIAS")),
                                    ))
                                    .and(Grammar::first_of(
                                        GrammarList::new()
                                            .and(Grammar::reference("LiteralGrammar"))
                                            .and(Grammar::reference("FunctionSegment"))
                                            .and(Grammar::reference("BareFunctionSegment")),
                                    )),
                            ))
                            .and(Grammar::sequence_of(
                                GrammarList::new()
                                    .and(Grammar::keyword("EPHEMERAL"))
                                    .and(Grammar::first_of(
                                        GrammarList::new()
                                            .and(Grammar::reference("LiteralGrammar"))
                                            .and(Grammar::reference("FunctionSegment"))
                                            .and(Grammar::reference("BareFunctionSegment")),
                                    ).optional()),
                            ))
                            .and(Grammar::reference("PrimaryKeyGrammar"))
                            .and(Grammar::sequence_of(
                                GrammarList::new()
                                    .and(Grammar::keyword("CODEC"))
                                    .and(Grammar::reference("FunctionContentsGrammar")),
                            ).optional())
                            .and(Grammar::reference("ColumnTTLSegment")),
                    )),
            )),
        0,
        None,
        Some(1),
    ).node(SyntaxKind::ColumnConstraintSegment)
}

/// Binds `TableEngineFunctionSegment`, `OnClusterClauseSegment`,
/// `TableEngineSegment`, `DatabaseEngineFunctionSegment`,
/// `DatabaseEngineSegment`, `ColumnTTLSegment`, `TableTTLSegment`,
/// `ColumnConstraintSegment`.
pub open spec fn define_table_engine_function_segment_etc_view(
    dialect: DialectView,
) -> DialectView {
    let dialect = with_rule(
        dialect,
        "TableEngineFunctionSegment"@,
        table_engine_function_segment_view(),
    );
    let dialect = with_rule(dialect, "OnClusterClauseSegment"@, on_cluster_clause_segment_view());
    let dialect = with_rule(dialect, "TableEngineSegment"@, table_engine_segment_view());
    let dialect = with_rule(
        dialect,
        "DatabaseEngineFunctionSegment"@,
        database_engine_function_segment_view(),
    );
    let dialect = with_rule(dialect, "DatabaseEngineSegment"@, database_engine_segment_view());
    let dialect = with_rule(dialect, "ColumnTTLSegment"@, column_ttl_segment_view());
    let dialect = with_rule(dialect, "TableTTLSegment"@, table_ttl_segment_view());
    let dialect = with_rule(dialect, "ColumnConstraintSegment"@, column_constraint_segment_view());
    dialect
}

/// Binds `TableEngineFunctionSegment`, `OnClusterClauseSegment`,
/// `TableEngineSegment`, `DatabaseEngineFunctionSegment`,
/// `DatabaseEngineSegment`, `ColumnTTLSegment`, `TableTTLSegment`,
/// `ColumnConstraintSegment`.
pub fn define_table_engine_function_segment_etc(dialect: Dialect) -> (r: Dialect)
    ensures
        r.deep_view() == define_table_engine_function_segment_etc_view(dialect.deep_view()),
{
    let mut dialect = dialect;
    dialect.define("TableEngineFunctionSegment", table_engine_function_segment());
    dialect.define("OnClusterClauseSegment", on_cluster_clause_segment());
    dialect.define("TableEngineSegment", table_engine_segment());
    dialect.define("DatabaseEngineFunctionSegment", database_engine_function_segment());
    dialect.define("DatabaseEngineSegment", database_engine_segment());
    dialect.define("ColumnTTLSegment", column_ttl_segment());
    dialect.define("TableTTLSegment", table_ttl_segment());
    dialect.define("ColumnConstraintSegment", column_constraint_segment());
    dialect
}

/// The grammar of `CreateDatabaseStatementSegment`.
pub open spec fn create_database_statement_segment_view() -> GrammarView {
    GrammarView::Sequence {
        elements: Seq::empty()
            .push(GrammarView::Text { template: "CREATE"@, becomes: SyntaxKind::Keyword })
            .push(GrammarView::Text { template: "DATABASE"@, becomes: SyntaxKind::Keyword })
            .push(
                GrammarView::Optional { inner: Box::new(
                    GrammarView::Ref { name: "IfNotExistsGrammar"@, exclude: None },
                ) },
            )
            .push(GrammarView::Ref { name: "DatabaseReferenceSegment"@, exclude: None })
            .push(GrammarView::AnyNumberOf {
                options: Seq::empty()
                    .push(
                        GrammarView::Optional { inner: Box::new(
                            GrammarView::Ref { name: "OnClusterClauseSegment"@, exclude: None },
                        ) },
                    )
                    .push(
                        GrammarView::Optional { inner: Box::new(
                            GrammarView::Ref { name: "DatabaseEngineSegment"@, exclude: None },
                        ) },
                    )
                    .push(GrammarView::Optional { inner: Box::new(GrammarView::Sequence {
                        elements: Seq::empty()
                            .push(
                                GrammarView::Text {
                                    template: "COMMENT"@,
                                    becomes: SyntaxKind::Keyword,
                                },
                            )
                            .push(
                                GrammarView::Ref {
                                    name: "SingleIdentifierGrammar"@,
                                    exclude: None,
                                },
                            ),
                    }) })
                    .push(GrammarView::Sequence {
                        elements: Seq::empty()
                            .push(
                                GrammarView::Text {
                                    template: "SETTINGS"@,
                                    becomes: SyntaxKind::Keyword,
                                },
                            )
                            .push(GrammarView::Optional { inner: Box::new(GrammarView::Delimited {
                                options: Seq::empty()
                                    .push(GrammarView::Optional { inner: Box::new(GrammarView::Sequence {
                                        elements: Seq::empty()
                                            .push(
                                                GrammarView::Ref {
                                                    name: "NakedIdentifierSegment"@,
                                                    exclude: None,
                                                },
                                            )
                                            .push(
                                                GrammarView::Ref {
                                                    name: "EqualsSegment"@,
                                                    exclude: None,
                                                },
                                            )
                                            .push(GrammarView::OneOf {
                                                options: Seq::empty()
                                                    .push(
                                                        GrammarView::Ref {
                                                            name: "NakedIdentifierSegment"@,
                                                            exclude: None,
                                                        },
                                                    )
                                                    .push(
                                                        GrammarView::Ref {
                                                            name: "NumericLiteralSegment"@,
                                                            exclude: None,
                                                        },
                                                    )
                                                    .push(
                                                        GrammarView::Ref {
                                                            name: "QuotedLiteralSegment"@,
                                                            exclude: None,
                                                        },
                                                    )
                                                    .push(
                                                        GrammarView::Ref {
                                                            name: "BooleanLiteralGrammar"@,
                                                            exclude: None,
                                                        },
                                                    ),
                                            }),
                                    }) }),
                                delimiter: Box::new(
                                    GrammarView::Ref { name: "CommaSegment"@, exclude: None },
                                ),
                                min_delimiters: 0,
                                allow_trailing: false,
                            }) }),
                    }),
                min_times: 0,
                max_times: None,
                max_times_per_element: Some(1),
            })
            .push(GrammarView::Optional { inner: Box::new(GrammarView::AnyNumberOf {
                options: Seq::empty()
                    .push(GrammarView::Text { template: "TABLE"@, becomes: SyntaxKind::Keyword })
                    .push(GrammarView::Text { template: "OVERRIDE"@, becomes: SyntaxKind::Keyword })
                    .push(GrammarView::Ref { name: "TableReferenceSegment"@, exclude: None })
                    .push(GrammarView::Optional { inner: Box::new(GrammarView::Bracketed {
                        elements: Seq::empty()
                            .push(GrammarView::Delimited {
                                options: Seq::empty()
                                    .push(
                                        GrammarView::Ref {
                                            name: "TableConstraintSegment"@,
                                            exclude: None,
                                        },
                                    )
                                    .push(
                                        GrammarView::Ref {
                                            name: "ColumnDefinitionSegment"@,
                                            exclude: None,
                                        },
                                    )
                                    .push(
                                        GrammarView::Ref {
                                            name: "ColumnConstraintSegment"@,
                                            exclude: None,
                                        },
                                    ),
                                delimiter: Box::new(
                                    GrammarView::Ref { name: "CommaSegment"@, exclude: None },
                                ),
                                min_delimiters: 0,
                                allow_trailing: false,
                            }),
                        bracket_type: "round"@,
                        parse_mode: ParseMode::Strict,
                    }) }),
                min_times: 0,
                max_times: None,
                max_times_per_element: None,
            }) }),
    }
}

/// The grammar of `CreateDatabaseStatementSegment`.
pub fn create_database_statement_segment() -> (r: Grammar)
    ensures
        grammar_view(r) == create_database_statement_segment_view(),
{
    Grammar::sequence_of(
        GrammarList::new()
            .and(Grammar::keyword("CREATE"))
            .and(Grammar::keyword("DATABASE"))
            .and(Grammar::reference("IfNotExistsGrammar").optional())
            .and(Grammar::reference("DatabaseReferenceSegment"))
            .and(Grammar::repeated(
                GrammarList::new()
                    .and(Grammar::reference("OnClusterClauseSegment").optional())
                    .and(Grammar::reference("DatabaseEngineSegment").optional())
                    .and(Grammar::sequence_of(
                        GrammarList::new()
                            .and(Grammar::keyword("COMMENT"))
                            .and(Grammar::reference("SingleIdentifierGrammar")),
                    ).optional())
                    .and(Grammar::sequence_of(
                        GrammarList::new()
                            .and(Grammar::keyword("SETTINGS"))
                            .and(Grammar::delimited_by(
                                GrammarList::new()
                                    .and(Grammar::sequence_of(
                                        GrammarList::new()
                                            .and(Grammar::reference("NakedIdentifierSegment"))
                                            .and(Grammar::reference("EqualsSegment"))
                                            .and(Grammar::first_of(
                                                GrammarList::new()
                                                    .and(
                                                        Grammar::reference(
                                                            "NakedIdentifierSegment",
                                                        ),
                                                    )
                                                    .and(
                                                        Grammar::reference("NumericLiteralSegment"),
                                                    )
                                                    .and(Grammar::reference("QuotedLiteralSegment"))
                                                    .and(
                                                        Grammar::reference("BooleanLiteralGrammar"),
                                                    ),
                                            )),
                                    ).optional()),
                                Grammar::reference("CommaSegment"),
                                0,
                                false,
                            ).optional()),
                    )),
                0,
                None,
                Some(1),
            ))
            .and(Grammar::repeated(
                GrammarList::new()
                    .and(Grammar::keyword("TABLE"))
                    .and(Grammar::keyword("OVERRIDE"))
                    .and(Grammar::reference("TableReferenceSegment"))
                    .and(Grammar::bracketed_by(
                        GrammarList::new()
                            .and(Grammar::delimited_by(
                                GrammarList::new()
                                    .and(Grammar::reference("TableConstraintSegment"))
                                    .and(Grammar::reference("ColumnDefinitionSegment"))
                                    .and(Grammar::reference("ColumnConstraintSegment")),
                                Grammar::reference("CommaSegment"),
                                0,
                                false,
                            )),
                        "round",
                        ParseMode::Strict,
                    ).optional()),
                0,
                None,
                None,
            ).optional()),
    )
}

/// Replaces the grammar of `CreateDatabaseStatementSegment`.
pub open spec fn replace_create_database_statement_segment_view(
    dialect: DialectView,
) -> Result<DialectView, DialectError> {
    with_replaced(
        dialect,
        "CreateDatabaseStatementSegment"@,
        create_database_statement_segment_view(),
    )
}

/// Replaces the grammar of `CreateDatabaseStatementSegment`.
pub fn replace_create_database_statement_segment(
    dialect: Dialect,
) -> (r: Result<Dialect, DialectError>)
    ensures
        outcome_view(r) == replace_create_database_statement_segment_view(dialect.deep_view()),
{
    let mut dialect = dialect;
    match dialect.replace_grammar(
        "CreateDatabaseStatementSegment",
        create_database_statement_segment(),
    ) {
        Ok(()) => Ok(dialect),
        Err(e) => Err(e),
    }
}

/// The grammar of `CreateTableStatementSegment`.
pub open spec fn create_table_statement_segment_view() -> GrammarView {
    GrammarView::Sequence {
        elements: Seq::empty()
            .push(GrammarView::Text { template: "CREATE"@, becomes: SyntaxKind::Keyword })
            .push(GrammarView::Optional { inner: Box::new(GrammarView::OneOf {
                options: Seq::empty()
                    .push(GrammarView::Ref { name: "OrReplaceGrammar"@, exclude: None })
                    .push(
                        GrammarView::Text { template: "TEMPORARY"@, becomes: SyntaxKind::Keyword },
                    ),
            }) })
            .push(GrammarView::Text { template: "TABLE"@, becomes: SyntaxKind::Keyword })
            .push(
                GrammarView::Optional { inner: Box::new(
                    GrammarView::Ref { name: "IfNotExistsGrammar"@, exclude: None },
                ) },
            )
            .push(GrammarView::Ref { name: "TableReferenceSegment"@, exclude: None })
            .push(
                GrammarView::Optional { inner: Box::new(
                    GrammarView::Ref { name: "OnClusterClauseSegment"@, exclude: None },
                ) },
            )
            .push(GrammarView::OneOf {
                options: Seq::empty()
                    .push(GrammarView::Sequence {
                        elements: Seq::empty()
                            .push(GrammarView::Optional { inner: Box::new(GrammarView::Bracketed {
                                elements: Seq::empty()
                                    .push(GrammarView::Delimited {
                                        options: Seq::empty()
                                            .push(GrammarView::OneOf {
                                                options: Seq::empty()
                                                    .push(
                                                        GrammarView::Ref {
                                                            name: "TableConstraintSegment"@,
                                                            exclude: None,
                                                        },
                                                    )
                                                    .push(
                                                        GrammarView::Ref {
                                                            name: "ColumnDefinitionSegment"@,
                                                            exclude: None,
                                                        },
                                                    )
                                                    .push(
                                                        GrammarView::Ref {
                                                            name: "ColumnConstraintSegment"@,
                                                            exclude: None,
                                                        },
                                                    ),
                                            }),
                                        delimiter: Box::new(
                                            GrammarView::Ref {
                                                name: "CommaSegment"@,
                                                exclude: None,
                                            },
                                        ),
                                        min_delimiters: 0,
                                        allow_trailing: false,
                                    }),
                                bracket_type: "round"@,
                                parse_mode: ParseMode::Strict,
                            }) })
                            .push(GrammarView::Ref { name: "TableEngineSegment"@, exclude: None })
                            .push(GrammarView::Optional { inner: Box::new(GrammarView::Sequence {
                                elements: Seq::empty()
                                    .push(
                                        GrammarView::Text {
                                            template: "AS"@,
                                            becomes: SyntaxKind::Keyword,
                                        },
                                    )
                                    .push(
                                        GrammarView::Ref {
                                            name: "SelectableGrammar"@,
                                            exclude: None,
                                        },
                                    ),
                            }) }),
                    })
                    .push(GrammarView::Sequence {
                        elements: Seq::empty()
                            .push(
                                GrammarView::Text { template: "AS"@, becomes: SyntaxKind::Keyword },
                            )
                            .push(
                                GrammarView::Ref { name: "TableReferenceSegment"@, exclude: None },
                            )
                            .push(
                                GrammarView::Optional { inner: Box::new(
                                    GrammarView::Ref { name: "TableEngineSegment"@, exclude: None },
                                ) },
                            ),
                    })
                    .push(GrammarView::Sequence {
                        elements: Seq::empty()
                            .push(
                                GrammarView::Text { template: "AS"@, becomes: SyntaxKind::Keyword },
                            )
                            .push(GrammarView::Ref { name: "FunctionSegment"@, exclude: None }),
                    }),
            })
            .push(GrammarView::Optional { inner: Box::new(GrammarView::AnyNumberOf {
                options: Seq::empty()
                    .push(GrammarView::Sequence {
                        elements: Seq::empty()
                            .push(
                                GrammarView::Text {
                                    template: "COMMENT"@,
                                    becomes: SyntaxKind::Keyword,
                                },
                            )
                            .push(GrammarView::OneOf {
                                options: Seq::empty()
                                    .push(
                                        GrammarView::Ref {
                                            name: "SingleIdentifierGrammar"@,
                                            exclude: None,
                                        },
                                    )
                                    .push(
                                        GrammarView::Ref {
                                            name: "QuotedIdentifierSegment"@,
                                            exclude: None,
                                        },
                                    ),
                            }),
                    })
                    .push(GrammarView::Ref { name: "TableTTLSegment"@, exclude: None }),
                min_times: 0,
                max_times: None,
                max_times_per_element: Some(1),
            }) })
            .push(
                GrammarView::Optional { inner: Box::new(
                    GrammarView::Ref { name: "TableEndClauseSegment"@, exclude: None },
                ) },
            ),
    }
}

/// The grammar of `CreateTableStatementSegment`.
pub fn create_table_statement_segment() -> (r: Grammar)
    ensures
        grammar_view(r) == create_table_statement_segment_view(),
{
    Grammar::sequence_of(
        GrammarList::new()
            .and(Grammar::keyword("CREATE"))
            .and(Grammar::first_of(
                GrammarList::new()
                    .and(Grammar::reference("OrReplaceGrammar"))
                    .and(Grammar::keyword("TEMPORARY")),
            ).optional())
            .and(Grammar::keyword("TABLE"))
            .and(Grammar::reference("IfNotExistsGrammar").optional())
            .and(Grammar::reference("TableReferenceSegment"))
            .and(Grammar::reference("OnClusterClauseSegment").optional())
            .and(Grammar::first_of(
                GrammarList::new()
                    .and(Grammar::sequence_of(
                        GrammarList::new()
                            .and(Grammar::bracketed_by(
                                GrammarList::new()
                                    .and(Grammar::delimited_by(
                                        GrammarList::new()
                                            .and(Grammar::first_of(
                                                GrammarList::new()
                                                    .and(
                                                        Grammar::reference(
                                                            "TableConstraintSegment",
                                                        ),
                                                    )
                                                    .and(
                                                        Grammar::reference(
                                                            "ColumnDefinitionSegment",
                                                        ),
                                                    )
                                                    .and(
                                                        Grammar::reference(
                                                            "ColumnConstraintSegment",
                                                        ),
                                                    ),
                                            )),
                                        Grammar::reference("CommaSegment"),
                                        0,
                                        false,
                                    )),
                                "round",
                                ParseMode::Strict,
                            ).optional())
                            .and(Grammar::reference("TableEngineSegment"))
                            .and(Grammar::sequence_of(
                                GrammarList::new()
                                    .and(Grammar::keyword("AS"))
                                    .and(Grammar::reference("SelectableGrammar")),
                            ).optional()),
                    ))
                    .and(Grammar::sequence_of(
                        GrammarList::new()
                            .and(Grammar::keyword("AS"))
                            .and(Grammar::reference("TableReferenceSegment"))
                            .and(Grammar::reference("TableEngineSegment").optional()),
                    ))
                    .and(Grammar::sequence_of(
                        GrammarList::new()
                            .and(Grammar::keyword("AS"))
                            .and(Grammar::reference("FunctionSegment")),
                    )),
            ))
            .and(Grammar::repeated(
                GrammarList::new()
                    .and(Grammar::sequence_of(
                        GrammarList::new()
                            .and(Grammar::keyword("COMMENT"))
                            .and(Grammar::first_of(
                                GrammarList::new()
                                    .and(Grammar::reference("SingleIdentifierGrammar"))
                                    .and(Grammar::reference("QuotedIdentifierSegment")),
                            )),
                    ))
                    .and(Grammar::reference("TableTTLSegment")),
                0,
                None,
                Some(1),
            ).optional())
            .and(Grammar::reference("TableEndClauseSegment").optional()),
    )
}

/// Replaces the grammar of `CreateTableStatementSegment`.
pub open spec fn replace_create_table_statement_segment_view(
    dialect: DialectView,
) -> Result<DialectView, DialectError> {
    with_replaced(dialect, "CreateTableStatementSegment"@, create_table_statement_segment_view())
}

/// Replaces the grammar of `CreateTableStatementSegment`.
pub fn replace_create_table_statement_segment(
    dialect: Dialect,
) -> (r: Result<Dialect, DialectError>)
    ensures
        outcome_view(r) == replace_create_table_statement_segment_view(dialect.deep_view()),
{
    let mut dialect = dialect;
    match dialect.replace_grammar("CreateTableStatementSegment", create_table_statement_segment()) {
        Ok(()) => Ok(dialect),
        Err(e) => Err(e),
    }
}

/// The grammar of `CreateMaterializedViewStatementSegment`.
pub open spec fn create_materialized_view_statement_segment_view() -> GrammarView {
    GrammarView::Node {
        kind: SyntaxKind::CreateMaterializedViewStatement,
        inner: Box::new(GrammarView::Sequence {
            elements: Seq::empty()
                .push(GrammarView::Text { template: "CREATE"@, becomes: SyntaxKind::Keyword })
                .push(GrammarView::Text { template: "MATERIALIZED"@, becomes: SyntaxKind::Keyword })
                .push(GrammarView::Text { template: "VIEW"@, becomes: SyntaxKind::Keyword })
                .push(
                    GrammarView::Optional { inner: Box::new(
                        GrammarView::Ref { name: "IfNotExistsGrammar"@, exclude: None },
                    ) },
                )
                .push(GrammarView::Ref { name: "TableReferenceSegment"@, exclude: None })
                .push(
                    GrammarView::Optional { inner: Box::new(
                        GrammarView::Ref { name: "OnClusterClauseSegment"@, exclude: None },
                    ) },
                )
                .push(GrammarView::OneOf {
                    options: Seq::empty()
                        .push(GrammarView::Sequence {
                            elements: Seq::empty()
                                .push(
                                    GrammarView::Text {
                                        template: "TO"@,
                                        becomes: SyntaxKind::Keyword,
                                    },
                                )
                                .push(
                                    GrammarView::Ref {
                                        name: "TableReferenceSegment"@,
                                        exclude: None,
                                    },
                                )
                                .push(
                                    GrammarView::Optional { inner: Box::new(
                                        GrammarView::Ref {
                                            name: "TableEngineSegment"@,
                                            exclude: None,
                                        },
                                    ) },
                                ),
                        })
                        .push(GrammarView::Sequence {
                            elements: Seq::empty()
                                .push(
                                    GrammarView::Optional { inner: Box::new(
                                        GrammarView::Ref {
                                            name: "TableEngineSegment"@,
                                            exclude: None,
                                        },
                                    ) },
                                )
                                .push(
                                    GrammarView::Optional { inner: Box::new(
                                        GrammarView::Text {
                                            template: "POPULATE"@,
                                            becomes: SyntaxKind::Keyword,
                                        },
                                    ) },
                                ),
                        }),
                })
                .push(GrammarView::Text { template: "AS"@, becomes: SyntaxKind::Keyword })
                .push(GrammarView::Ref { name: "SelectableGrammar"@, exclude: None })
                .push(
                    GrammarView::Optional { inner: Box::new(
                        GrammarView::Ref { name: "TableEndClauseSegment"@, exclude: None },
                    ) },
                ),
        }),
    }
}

/// The grammar of `CreateMaterializedViewStatementSegment`.
pub fn create_materialized_view_statement_segment() -> (r: Grammar)
    ensures
        grammar_view(r) == create_materialized_view_statement_segment_view(),
{
    Grammar::sequence_of(
        GrammarList::new()
            .and(Grammar::keyword("CREATE"))
            .and(Grammar::keyword("MATERIALIZED"))
            .and(Grammar::keyword("VIEW"))
            .and(Grammar::reference("IfNotExistsGrammar").optional())
            .and(Grammar::reference("TableReferenceSegment"))
            .and(Grammar::reference("OnClusterClauseSegment").optional())
            .and(Grammar::first_of(
                GrammarList::new()
                    .and(Grammar::sequence_of(
                        GrammarList::new()
                            .and(Grammar::keyword("TO"))
                            .and(Grammar::reference("TableReferenceSegment"))
                            .and(Grammar::reference("TableEngineSegment").optional()),
                    ))
                    .and(Grammar::sequence_of(
                        GrammarList::new()
                            .and(Grammar::reference("TableEngineSegment").optional())
                            .and(Grammar::keyword("POPULATE").optional()),
                    )),
            ))
            .and(Grammar::keyword("AS"))
            .and(Grammar::reference("SelectableGrammar"))
            .and(Grammar::reference("TableEndClauseSegment").optional()),
    ).node(SyntaxKind::CreateMaterializedViewStatement)
}

/// Binds `CreateMaterializedViewStatementSegment`.
pub open spec fn define_create_materialized_view_statement_segment_view(
    dialect: DialectView,
) -> DialectView {
    with_rule(
        dialect,
        "CreateMaterializedViewStatementSegment"@,
        create_materialized_view_statement_segment_view(),
    )
}

/// Binds `CreateMaterializedViewStatementSegment`.
pub fn define_create_materialized_view_statement_segment(dialect: Dialect) -> (r: Dialect)
    ensures
        r.deep_view() == define_create_materialized_view_statement_segment_view(
            dialect.deep_view(),
        ),
{
    let mut dialect = dialect;
    dialect.define(
        "CreateMaterializedViewStatementSegment",
        create_materialized_view_statement_segment(),
    );
    dialect
}

/// The grammar of `DropTableStatementSegment`.
pub open spec fn drop_table_statement_segment_view() -> GrammarView {
    GrammarView::Sequence {
        elements: Seq::empty()
            .push(GrammarView::Text { template: "DROP"@, becomes: SyntaxKind::Keyword })
            .push(
                GrammarView::Optional { inner: Box::new(
                    GrammarView::Text { template: "TEMPORARY"@, becomes: SyntaxKind::Keyword },
                ) },
            )
            .push(GrammarView::Text { template: "TABLE"@, becomes: SyntaxKind::Keyword })
            .push(
                GrammarView::Optional { inner: Box::new(
                    GrammarView::Ref { name: "IfExistsGrammar"@, exclude: None },
                ) },
            )
            .push(GrammarView::Ref { name: "TableReferenceSegment"@, exclude: None })
            .push(
                GrammarView::Optional { inner: Box::new(
                    GrammarView::Ref { name: "OnClusterClauseSegment"@, exclude: None },
                ) },
            )
            .push(
                GrammarView::Optional { inner: Box::new(
                    GrammarView::Text { template: "SYNC"@, becomes: SyntaxKind::Keyword },
                ) },
            ),
    }
}

/// The grammar of `DropTableStatementSegment`.
pub fn drop_table_statement_segment() -> (r: Grammar)
    ensures
        grammar_view(r) == drop_table_statement_segment_view(),
{
    Grammar::sequence_of(
        GrammarList::new()
            .and(Grammar::keyword("DROP"))
            .and(Grammar::keyword("TEMPORARY").optional())
            .and(Grammar::keyword("TABLE"))
            .and(Grammar::reference("IfExistsGrammar").optional())
            .and(Grammar::reference("TableReferenceSegment"))
            .and(Grammar::reference("OnClusterClauseSegment").optional())
            .and(Grammar::keyword("SYNC").optional()),
    )
}

/// Replaces the grammar of `DropTableStatementSegment`.
pub open spec fn replace_drop_table_statement_segment_view(
    dialect: DialectView,
) -> Result<DialectView, DialectError> {
    with_replaced(dialect, "DropTableStatementSegment"@, drop_table_statement_segment_view())
}

/// Replaces the grammar of `DropTableStatementSegment`.
pub fn replace_drop_table_statement_segment(dialect: Dialect) -> (r: Result<Dialect, DialectError>)
    ensures
        outcome_view(r) == replace_drop_table_statement_segment_view(dialect.deep_view()),
{
    let mut dialect = dialect;
    match dialect.replace_grammar("DropTableStatementSegment", drop_table_statement_segment()) {
        Ok(()) => Ok(dialect),
        Err(e) => Err(e),
    }
}

/// The grammar of `DropDatabaseStatementSegment`.
pub open spec fn drop_database_statement_segment_view() -> GrammarView {
    GrammarView::Sequence {
        elements: Seq::empty()
            .push(GrammarView::Text { template: "DROP"@, becomes: SyntaxKind::Keyword })
            .push(GrammarView::Text { template: "DATABASE"@, becomes: SyntaxKind::Keyword })
            .push(
                GrammarView::Optional { inner: Box::new(
                    GrammarView::Ref { name: "IfExistsGrammar"@, exclude: None },
                ) },
            )
            .push(GrammarView::Ref { name: "DatabaseReferenceSegment"@, exclude: None })
            .push(
                GrammarView::Optional { inner: Box::new(
                    GrammarView::Ref { name: "OnClusterClauseSegment"@, exclude: None },
                ) },
            )
            .push(
                GrammarView::Optional { inner: Box::new(
                    GrammarView::Text { template: "SYNC"@, becomes: SyntaxKind::Keyword },
                ) },
            ),
    }
}

/// The grammar of `DropDatabaseStatementSegment`.
pub fn drop_database_statement_segment() -> (r: Grammar)
    ensures
        grammar_view(r) == drop_database_statement_segment_view(),
{
    Grammar::sequence_of(
        GrammarList::new()
            .and(Grammar::keyword("DROP"))
            .and(Grammar::keyword("DATABASE"))
            .and(Grammar::reference("IfExistsGrammar").optional())
            .and(Grammar::reference("DatabaseReferenceSegment"))
            .and(Grammar::reference("OnClusterClauseSegment").optional())
            .and(Grammar::keyword("SYNC").optional()),
    )
}

/// Replaces the grammar of `DropDatabaseStatementSegment`.
pub open spec fn replace_drop_database_statement_segment_view(
    dialect: DialectView,
) -> Result<DialectView, DialectError> {
    with_replaced(dialect, "DropDatabaseStatementSegment"@, drop_database_statement_segment_view())
}

/// Replaces the grammar of `DropDatabaseStatementSegment`.
pub fn replace_drop_database_statement_segment(
    dialect: Dialect,
) -> (r: Result<Dialect, DialectError>)
    ensures
        outcome_view(r) == replace_drop_database_statement_segment_view(dialect.deep_view()),
{
    let mut dialect = dialect;
    match dialect.replace_grammar(
        "DropDatabaseStatementSegment",
        drop_database_statement_segment(),
    ) {
        Ok(()) => Ok(dialect),
        Err(e) => Err(e),
    }
}

/// The grammar of `DropDictionaryStatementSegment`.
pub open spec fn drop_dictionary_statement_segment_view() -> GrammarView {
    GrammarView::Node {
        kind: SyntaxKind::DropDictionaryStatement,
        inner: Box::new(GrammarView::Sequence {
            elements: Seq::empty()
                .push(GrammarView::Text { template: "DROP"@, becomes: SyntaxKind::Keyword })
                .push(GrammarView::Text { template: "DICTIONARY"@, becomes: SyntaxKind::Keyword })
                .push(
                    GrammarView::Optional { inner: Box::new(
                        GrammarView::Ref { name: "IfExistsGrammar"@, exclude: None },
                    ) },
                )
                .push(GrammarView::Ref { name: "SingleIdentifierGrammar"@, exclude: None })
                .push(
                    GrammarView::Optional { inner: Box::new(
                        GrammarView::Text { template: "SYNC"@, becomes: SyntaxKind::Keyword },
                    ) },
                ),
        }),
    }
}

/// The grammar of `DropDictionaryStatementSegment`.
pub fn drop_dictionary_statement_segment() -> (r: Grammar)
    ensures
        grammar_view(r) == drop_dictionary_statement_segment_view(),
{
    Grammar::sequence_of(
        GrammarList::new()
            .and(Grammar::keyword("DROP"))
            .and(Grammar::keyword("DICTIONARY"))
            .and(Grammar::reference("IfExistsGrammar").optional())
            .and(Grammar::reference("SingleIdentifierGrammar"))
            .and(Grammar::keyword("SYNC").optional()),
    ).node(SyntaxKind::DropDictionaryStatement)
}

/// Binds `DropDictionaryStatementSegment`.
pub open spec fn define_drop_dictionary_statement_segment_view(
    dialect: DialectView,
) -> DialectView {
    with_rule(dialect, "DropDictionaryStatementSegment"@, drop_dictionary_statement_segment_view())
}

/// Binds `DropDictionaryStatementSegment`.
pub fn define_drop_dictionary_statement_segment(dialect: Dialect) -> (r: Dialect)
    ensures
        r.deep_view() == define_drop_dictionary_statement_segment_view(dialect.deep_view()),
{
    let mut dialect = dialect;
    dialect.define("DropDictionaryStatementSegment", drop_dictionary_statement_segment());
    dialect
}

/// The grammar of `DropUserStatementSegment`.
pub open spec fn drop_user_statement_segment_view() -> GrammarView {
    GrammarView::Sequence {
        elements: Seq::empty()
            .push(GrammarView::Text { template: "DROP"@, becomes: SyntaxKind::Keyword })
            .push(GrammarView::Text { template: "USER"@, becomes: SyntaxKind::Keyword })
            .push(
                GrammarView::Optional { inner: Box::new(
                    GrammarView::Ref { name: "IfExistsGrammar"@, exclude: None },
                ) },
            )
            .push(GrammarView::Ref { name: "SingleIdentifierGrammar"@, exclude: None })
            .push(
                GrammarView::Optional { inner: Box::new(
                    GrammarView::Ref { name: "OnClusterClauseSegment"@, exclude: None },
                ) },
            ),
    }
}

/// The grammar of `DropUserStatementSegment`.
pub fn drop_user_statement_segment() -> (r: Grammar)
    ensures
        grammar_view(r) == drop_user_statement_segment_view(),
{
    Grammar::sequence_of(
        GrammarList::new()
            .and(Grammar::keyword("DROP"))
            .and(Grammar::keyword("USER"))
            .and(Grammar::reference("IfExistsGrammar").optional())
            .and(Grammar::reference("SingleIdentifierGrammar"))
            .and(Grammar::reference("OnClusterClauseSegment").optional()),
    )
}

/// Replaces the grammar of `DropUserStatementSegment`.
pub open spec fn replace_drop_user_statement_segment_view(
    dialect: DialectView,
) -> Result<DialectView, DialectError> {
    with_replaced(dialect, "DropUserStatementSegment"@, drop_user_statement_segment_view())
}

/// Replaces the grammar of `DropUserStatementSegment`.
pub fn replace_drop_user_statement_segment(dialect: Dialect) -> (r: Result<Dialect, DialectError>)
    ensures
        outcome_view(r) == replace_drop_user_statement_segment_view(dialect.deep_view()),
{
    let mut dialect = dialect;
    match dialect.replace_grammar("DropUserStatementSegment", drop_user_statement_segment()) {
        Ok(()) => Ok(dialect),
        Err(e) => Err(e),
    }
}

/// The grammar of `DropRoleStatementSegment`.
pub open spec fn drop_role_statement_segment_view() -> GrammarView {
    GrammarView::Sequence {
        elements: Seq::empty()
            .push(GrammarView::Text { template: "DROP"@, becomes: SyntaxKind::Keyword })
            .push(GrammarView::Text { template: "ROLE"@, becomes: SyntaxKind::Keyword })
            .push(
                GrammarView::Optional { inner: Box::new(
                    GrammarView::Ref { name: "IfExistsGrammar"@, exclude: None },
                ) },
            )
            .push(GrammarView::Ref { name: "SingleIdentifierGrammar"@, exclude: None })
            .push(
                GrammarView::Optional { inner: Box::new(
                    GrammarView::Ref { name: "OnClusterClauseSegment"@, exclude: None },
                ) },
            ),
    }
}

/// The grammar of `DropRoleStatementSegment`.
pub fn drop_role_statement_segment() -> (r: Grammar)
    ensures
        grammar_view(r) == drop_role_statement_segment_view(),
{
    Grammar::sequence_of(
        GrammarList::new()
            .and(Grammar::keyword("DROP"))
            .and(Grammar::keyword("ROLE"))
            .and(Grammar::reference("IfExistsGrammar").optional())
            .and(Grammar::reference("SingleIdentifierGrammar"))
            .and(Grammar::reference("OnClusterClauseSegment").optional()),
    )
}

/// Replaces the grammar of `DropRoleStatementSegment`.
pub open spec fn replace_drop_role_statement_segment_view(
    dialect: DialectView,
) -> Result<DialectView, DialectError> {
    with_replaced(dialect, "DropRoleStatementSegment"@, drop_role_statement_segment_view())
}

/// Replaces the grammar of `DropRoleStatementSegment`.
pub fn replace_drop_role_statement_segment(dialect: Dialect) -> (r: Result<Dialect, DialectError>)
    ensures
        outcome_view(r) == replace_drop_role_statement_segment_view(dialect.deep_view()),
{
    let mut dialect = dialect;
    match dialect.replace_grammar("DropRoleStatementSegment", drop_role_statement_segment()) {
        Ok(()) => Ok(dialect),
        Err(e) => Err(e),
    }
}

/// The grammar of `DropQuotaStatementSegment`.
pub open spec fn drop_quota_statement_segment_view() -> GrammarView {
    GrammarView::Node {
        kind: SyntaxKind::DropQuotaStatement,
        inner: Box::new(GrammarView::Sequence {
            elements: Seq::empty()
                .push(GrammarView::Text { template: "DROP"@, becomes: SyntaxKind::Keyword })
                .push(GrammarView::Text { template: "QUOTA"@, becomes: SyntaxKind::Keyword })
                .push(
                    GrammarView::Optional { inner: Box::new(
                        GrammarView::Ref { name: "IfExistsGrammar"@, exclude: None },
                    ) },
                )
                .push(GrammarView::Ref { name: "SingleIdentifierGrammar"@, exclude: None })
                .push(
                    GrammarView::Optional { inner: Box::new(
                        GrammarView::Ref { name: "OnClusterClauseSegment"@, exclude: None },
                    ) },
                ),
        }),
    }
}

/// The grammar of `DropQuotaStatementSegment`.
pub fn drop_quota_statement_segment() -> (r: Grammar)
    ensures
        grammar_view(r) == drop_quota_statement_segment_view(),
{
    Grammar::sequence_of(
        GrammarList::new()
            .and(Grammar::keyword("DROP"))
            .and(Grammar::keyword("QUOTA"))
            .and(Grammar::reference("IfExistsGrammar").optional())
            .and(Grammar::reference("SingleIdentifierGrammar"))
            .and(Grammar::reference("OnClusterClauseSegment").optional()),
    ).node(SyntaxKind::DropQuotaStatement)
}

/// The grammar of `DropSettingProfileStatementSegment`.
pub open spec fn drop_setting_profile_statement_segment_view() -> GrammarView {
    GrammarView::Node {
        kind: SyntaxKind::DropSettingProfileStatement,
        inner: Box::new(GrammarView::Sequence {
            elements: Seq::empty()
                .push(GrammarView::Text { template: "DROP"@, becomes: SyntaxKind::Keyword })
                .push(GrammarView::Delimited {
                    options: Seq::empty()
                        .push(GrammarView::Ref { name: "NakedIdentifierSegment"@, exclude: None }),
                    delimiter: Box::new(GrammarView::Ref { name: "CommaSegment"@, exclude: None }),
                    min_delimiters: 0,
                    allow_trailing: false,
                })
                .push(GrammarView::Text { template: "PROFILE"@, becomes: SyntaxKind::Keyword })
                .push(
                    GrammarView::Optional { inner: Box::new(
                        GrammarView::Ref { name: "IfExistsGrammar"@, exclude: None },
                    ) },
                )
                .push(GrammarView::Ref { name: "SingleIdentifierGrammar"@, exclude: None })
                .push(
                    GrammarView::Optional { inner: Box::new(
                        GrammarView::Ref { name: "OnClusterClauseSegment"@, exclude: None },
                    ) },
                ),
        }),
    }
}

/// The grammar of `DropSettingProfileStatementSegment`.
pub fn drop_setting_profile_statement_segment() -> (r: Grammar)
    ensures
        grammar_view(r) == drop_setting_profile_statement_segment_view(),
{
    Grammar::sequence_of(
        GrammarList::new()
            .and(Grammar::keyword("DROP"))
            .and(Grammar::delimited_by(
                GrammarList::new()
                    .and(Grammar::reference("NakedIdentifierSegment")),
                Grammar::reference("CommaSegment"),
                0,
                false,
            ))
            .and(Grammar::keyword("PROFILE"))
            .and(Grammar::reference("IfExistsGrammar").optional())
            .and(Grammar::reference("SingleIdentifierGrammar"))
            .and(Grammar::reference("OnClusterClauseSegment").optional()),
    ).node(SyntaxKind::DropSettingProfileStatement)
}

/// Binds `DropQuotaStatementSegment`, `DropSettingProfileStatementSegment`.
pub open spec fn define_drop_quota_statement_segment_etc_view(dialect: DialectView) -> DialectView {
    let dialect = with_rule(
        dialect,
        "DropQuotaStatementSegment"@,
        drop_quota_statement_segment_view(),
    );
    let dialect = with_rule(
        dialect,
        "DropSettingProfileStatementSegment"@,
        drop_setting_profile_statement_segment_view(),
    );
    dialect
}

/// Binds `DropQuotaStatementSegment`, `DropSettingProfileStatementSegment`.
pub fn define_drop_quota_statement_segment_etc(dialect: Dialect) -> (r: Dialect)
    ensures
        r.deep_view() == define_drop_quota_statement_segment_etc_view(dialect.deep_view()),
{
    let mut dialect = dialect;
    dialect.define("DropQuotaStatementSegment", drop_quota_statement_segment());
    dialect.define("DropSettingProfileStatementSegment", drop_setting_profile_statement_segment());
    dialect
}

/// The grammar of `DropViewStatementSegment`.
pub open spec fn drop_view_statement_segment_view() -> GrammarView {
    GrammarView::Sequence {
        elements: Seq::empty()
            .push(GrammarView::Text { template: "DROP"@, becomes: SyntaxKind::Keyword })
            .push(GrammarView::Text { template: "VIEW"@, becomes: SyntaxKind::Keyword })
            .push(
                GrammarView::Optional { inner: Box::new(
                    GrammarView::Ref { name: "IfExistsGrammar"@, exclude: None },
                ) },
            )
            .push(GrammarView::Ref { name: "TableReferenceSegment"@, exclude: None })
            .push(
                GrammarView::Optional { inner: Box::new(
                    GrammarView::Ref { name: "OnClusterClauseSegment"@, exclude: None },
                ) },
            )
            .push(
                GrammarView::Optional { inner: Box::new(
                    GrammarView::Text { template: "SYNC"@, becomes: SyntaxKind::Keyword },
                ) },
            ),
    }
}

/// The grammar of `DropViewStatementSegment`.
pub fn drop_view_statement_segment() -> (r: Grammar)
    ensures
        grammar_view(r) == drop_view_statement_segment_view(),
{
    Grammar::sequence_of(
        GrammarList::new()
            .and(Grammar::keyword("DROP"))
            .and(Grammar::keyword("VIEW"))
            .and(Grammar::reference("IfExistsGrammar").optional())
            .and(Grammar::reference("TableReferenceSegment"))
            .and(Grammar::reference("OnClusterClauseSegment").optional())
            .and(Grammar::keyword("SYNC").optional()),
    )
}

/// Replaces the grammar of `DropViewStatementSegment`.
pub open spec fn replace_drop_view_statement_segment_view(
    dialect: DialectView,
) -> Result<DialectView, DialectError> {
    with_replaced(dialect, "DropViewStatementSegment"@, drop_view_statement_segment_view())
}

/// Replaces the grammar of `DropViewStatementSegment`.
pub fn replace_drop_view_statement_segment(dialect: Dialect) -> (r: Result<Dialect, DialectError>)
    ensures
        outcome_view(r) == replace_drop_view_statement_segment_view(dialect.deep_view()),
{
    let mut dialect = dialect;
    match dialect.replace_grammar("DropViewStatementSegment", drop_view_statement_segment()) {
        Ok(()) => Ok(dialect),
        Err(e) => Err(e),
    }
}

/// The grammar of `DropFunctionStatementSegment`.
pub open spec fn drop_function_statement_segment_view() -> GrammarView {
    GrammarView::Sequence {
        elements: Seq::empty()
            .push(GrammarView::Text { template: "DROP"@, becomes: SyntaxKind::Keyword })
            .push(GrammarView::Text { template: "FUNCTION"@, becomes: SyntaxKind::Keyword })
            .push(
                GrammarView::Optional { inner: Box::new(
                    GrammarView::Ref { name: "IfExistsGrammar"@, exclude: None },
                ) },
            )
            .push(GrammarView::Ref { name: "SingleIdentifierGrammar"@, exclude: None })
            .push(
                GrammarView::Optional { inner: Box::new(
                    GrammarView::Ref { name: "OnClusterClauseSegment"@, exclude: None },
                ) },
            ),
    }
}

/// The grammar of `DropFunctionStatementSegment`.
pub fn drop_function_statement_segment() -> (r: Grammar)
    ensures
        grammar_view(r) == drop_function_statement_segment_view(),
{
    Grammar::sequence_of(
        GrammarList::new()
            .and(Grammar::keyword("DROP"))
            .and(Grammar::keyword("FUNCTION"))
            .and(Grammar::reference("IfExistsGrammar").optional())
            .and(Grammar::reference("SingleIdentifierGrammar"))
            .and(Grammar::reference("OnClusterClauseSegment").optional()),
    )
}

/// Replaces the grammar of `DropFunctionStatementSegment`.
pub open spec fn replace_drop_function_statement_segment_view(
    dialect: DialectView,
) -> Result<DialectView, DialectError> {
    with_replaced(dialect, "DropFunctionStatementSegment"@, drop_function_statement_segment_view())
}

/// Replaces the grammar of `DropFunctionStatementSegment`.
pub fn replace_drop_function_statement_segment(
    dialect: Dialect,
) -> (r: Result<Dialect, DialectError>)
    ensures
        outcome_view(r) == replace_drop_function_statement_segment_view(dialect.deep_view()),
{
    let mut dialect = dialect;
    match dialect.replace_grammar(
        "DropFunctionStatementSegment",
        drop_function_statement_segment(),
    ) {
        Ok(()) => Ok(dialect),
        Err(e) => Err(e),
    }
}

/// The grammar of `SystemMergesSegment`.
pub open spec fn system_merges_segment_view() -> GrammarView {
    GrammarView::Node {
        kind: SyntaxKind::SystemMergesSegment,
        inner: Box::new(GrammarView::Sequence {
            elements: Seq::empty()
                .push(GrammarView::OneOf {
                    options: Seq::empty()
                        .push(
                            GrammarView::Text { template: "START"@, becomes: SyntaxKind::Keyword },
                        )
                        .push(
                            GrammarView::Text { template: "STOP"@, becomes: SyntaxKind::Keyword },
                        ),
                })
                .push(GrammarView::Text { template: "MERGES"@, becomes: SyntaxKind::Keyword })
                .push(GrammarView::OneOf {
                    options: Seq::empty()
                        .push(GrammarView::Sequence {
                            elements: Seq::empty()
                                .push(
                                    GrammarView::Text {
                                        template: "ON"@,
                                        becomes: SyntaxKind::Keyword,
                                    },
                                )
                                .push(
                                    GrammarView::Text {
                                        template: "VOLUME"@,
                                        becomes: SyntaxKind::Keyword,
                                    },
                                )
                                .push(
                                    GrammarView::Ref {
                                        name: "ObjectReferenceSegment"@,
                                        exclude: None,
                                    },
                                ),
                        })
                        .push(GrammarView::Ref { name: "TableReferenceSegment"@, exclude: None }),
                }),
        }),
    }
}

/// The grammar of `SystemMergesSegment`.
pub fn system_merges_segment() -> (r: Grammar)
    ensures
        grammar_view(r) == system_merges_segment_view(),
{
    Grammar::sequence_of(
        GrammarList::new()
            .and(Grammar::first_of(
                GrammarList::new()
                    .and(Grammar::keyword("START"))
                    .and(Grammar::keyword("STOP")),
            ))
            .and(Grammar::keyword("MERGES"))
            .and(Grammar::first_of(
                GrammarList::new()
                    .and(Grammar::sequence_of(
                        GrammarList::new()
                            .and(Grammar::keyword("ON"))
                            .and(Grammar::keyword("VOLUME"))
                            .and(Grammar::reference("ObjectReferenceSegment")),
                    ))
                    .and(Grammar::reference("TableReferenceSegment")),
            )),
    ).node(SyntaxKind::SystemMergesSegment)
}

/// The grammar of `SystemTTLMergesSegment`.
pub open spec fn system_ttl_merges_segment_view() -> GrammarView {
    GrammarView::Node {
        kind: SyntaxKind::SystemTtlMergesSegment,
        inner: Box::new(GrammarView::Sequence {
            elements: Seq::empty()
                .push(GrammarView::OneOf {
                    options: Seq::empty()
                        .push(
                            GrammarView::Text { template: "START"@, becomes: SyntaxKind::Keyword },
                        )
                        .push(
                            GrammarView::Text { template: "STOP"@, becomes: SyntaxKind::Keyword },
                        ),
                })
                .push(GrammarView::Text { template: "TTL"@, becomes: SyntaxKind::Keyword })
                .push(GrammarView::Text { template: "MERGES"@, becomes: SyntaxKind::Keyword })
                .push(
                    GrammarView::Optional { inner: Box::new(
                        GrammarView::Ref { name: "TableReferenceSegment"@, exclude: None },
                    ) },
                ),
        }),
    }
}

/// The grammar of `SystemTTLMergesSegment`.
pub fn system_ttl_merges_segment() -> (r: Grammar)
    ensures
        grammar_view(r) == system_ttl_merges_segment_view(),
{
    Grammar::sequence_of(
        GrammarList::new()
            .and(Grammar::first_of(
                GrammarList::new()
                    .and(Grammar::keyword("START"))
                    .and(Grammar::keyword("STOP")),
            ))
            .and(Grammar::keyword("TTL"))
            .and(Grammar::keyword("MERGES"))
            .and(Grammar::reference("TableReferenceSegment").optional()),
    ).node(SyntaxKind::SystemTtlMergesSegment)
}

/// The grammar of `SystemMovesSegment`.
pub open spec fn system_moves_segment_view() -> GrammarView {
    GrammarView::Node {
        kind: SyntaxKind::SystemMovesSegment,
        inner: Box::new(GrammarView::Sequence {
            elements: Seq::empty()
                .push(GrammarView::OneOf {
                    options: Seq::empty()
                        .push(
                            GrammarView::Text { template: "START"@, becomes: SyntaxKind::Keyword },
                        )
                        .push(
                            GrammarView::Text { template: "STOP"@, becomes: SyntaxKind::Keyword },
                        ),
                })
                .push(GrammarView::Text { template: "MOVES"@, becomes: SyntaxKind::Keyword })
                .push(
                    GrammarView::Optional { inner: Box::new(
                        GrammarView::Ref { name: "TableReferenceSegment"@, exclude: None },
                    ) },
                ),
        }),
    }
}

/// The grammar of `SystemMovesSegment`.
pub fn system_moves_segment() -> (r: Grammar)
    ensures
        grammar_view(r) == system_moves_segment_view(),
{
    Grammar::sequence_of(
        GrammarList::new()
            .and(Grammar::first_of(
                GrammarList::new()
                    .and(Grammar::keyword("START"))
                    .and(Grammar::keyword("STOP")),
            ))
            .and(Grammar::keyword("MOVES"))
            .and(Grammar::reference("TableReferenceSegment").optional()),
    ).node(SyntaxKind::SystemMovesSegment)
}

/// The grammar of `SystemReplicaSegment`.
pub open spec fn system_replica_segment_view() -> GrammarView {
    GrammarView::Node {
        kind: SyntaxKind::SystemReplicaSegment,
        inner: Box::new(GrammarView::OneOf {
            options: Seq::empty()
                .push(GrammarView::Sequence {
                    elements: Seq::empty()
                        .push(GrammarView::Text { template: "SYNC"@, becomes: SyntaxKind::Keyword })
                        .push(
                            GrammarView::Text {
                                template: "REPLICA"@,
                                becomes: SyntaxKind::Keyword,
                            },
                        )
                        .push(
                            GrammarView::Optional { inner: Box::new(
                                GrammarView::Ref { name: "OnClusterClauseSegment"@, exclude: None },
                            ) },
                        )
                        .push(GrammarView::Ref { name: "TableReferenceSegment"@, exclude: None })
                        .push(
                            GrammarView::Optional { inner: Box::new(
                                GrammarView::Text {
                                    template: "STRICT"@,
                                    becomes: SyntaxKind::Keyword,
                                },
                            ) },
                        ),
                })
                .push(GrammarView::Sequence {
                    elements: Seq::empty()
                        .push(GrammarView::Text { template: "DROP"@, becomes: SyntaxKind::Keyword })
                        .push(
                            GrammarView::Text {
                                template: "REPLICA"@,
                                becomes: SyntaxKind::Keyword,
                            },
                        )
                        .push(GrammarView::Ref { name: "SingleIdentifierGrammar"@, exclude: None })
                        .push(GrammarView::Optional { inner: Box::new(GrammarView::Sequence {
                            elements: Seq::empty()
                                .push(
                                    GrammarView::Text {
                                        template: "FROM"@,
                                        becomes: SyntaxKind::Keyword,
                                    },
                                )
                                .push(GrammarView::OneOf {
                                    options: Seq::empty()
                                        .push(GrammarView::Sequence {
                                            elements: Seq::empty()
                                                .push(
                                                    GrammarView::Text {
                                                        template: "DATABASE"@,
                                                        becomes: SyntaxKind::Keyword,
                                                    },
                                                )
                                                .push(
                                                    GrammarView::Ref {
                                                        name: "ObjectReferenceSegment"@,
                                                        exclude: None,
                                                    },
                                                ),
                                        })
                                        .push(GrammarView::Sequence {
                                            elements: Seq::empty()
                                                .push(
                                                    GrammarView::Text {
                                                        template: "TABLE"@,
                                                        becomes: SyntaxKind::Keyword,
                                                    },
                                                )
                                                .push(
                                                    GrammarView::Ref {
                                                        name: "TableReferenceSegment"@,
                                                        exclude: None,
                                                    },
                                                ),
                                        })
                                        .push(GrammarView::Sequence {
                                            elements: Seq::empty()
                                                .push(
                                                    GrammarView::Text {
                                                        template: "ZKPATH"@,
                                                        becomes: SyntaxKind::Keyword,
                                                    },
                                                )
                                                .push(
                                                    GrammarView::Ref {
                                                        name: "PathSegment"@,
                                                        exclude: None,
                                                    },
                                                ),
                                        }),
                                }),
                        }) }),
                })
                .push(GrammarView::Sequence {
                    elements: Seq::empty()
                        .push(
                            GrammarView::Text {
                                template: "RESTART"@,
                                becomes: SyntaxKind::Keyword,
                            },
                        )
                        .push(
                            GrammarView::Text {
                                template: "REPLICA"@,
                                becomes: SyntaxKind::Keyword,
                            },
                        )
                        .push(GrammarView::Ref { name: "TableReferenceSegment"@, exclude: None }),
                })
                .push(GrammarView::Sequence {
                    elements: Seq::empty()
                        .push(
                            GrammarView::Text {
                                template: "RESTORE"@,
                                becomes: SyntaxKind::Keyword,
                            },
                        )
                        .push(
                            GrammarView::Text {
                                template: "REPLICA"@,
                                becomes: SyntaxKind::Keyword,
                            },
                        )
                        .push(GrammarView::Ref { name: "TableReferenceSegment"@, exclude: None })
                        .push(
                            GrammarView::Optional { inner: Box::new(
                                GrammarView::Ref { name: "OnClusterClauseSegment"@, exclude: None },
                            ) },
                        ),
                }),
        }),
    }
}

/// The grammar of `SystemReplicaSegment`.
pub fn system_replica_segment() -> (r: Grammar)
    ensures
        grammar_view(r) == system_replica_segment_view(),
{
    Grammar::first_of(
        GrammarList::new()
            .and(Grammar::sequence_of(
                GrammarList::new()
                    .and(Grammar::keyword("SYNC"))
                    .and(Grammar::keyword("REPLICA"))
                    .and(Grammar::reference("OnClusterClauseSegment").optional())
                    .and(Grammar::reference("TableReferenceSegment"))
                    .and(Grammar::keyword("STRICT").optional()),
            ))
            .and(Grammar::sequence_of(
                GrammarList::new()
                    .and(Grammar::keyword("DROP"))
                    .and(Grammar::keyword("REPLICA"))
                    .and(Grammar::reference("SingleIdentifierGrammar"))
                    .and(Grammar::sequence_of(
                        GrammarList::new()
                            .and(Grammar::keyword("FROM"))
                            .and(Grammar::first_of(
                                GrammarList::new()
                                    .and(Grammar::sequence_of(
                                        GrammarList::new()
                                            .and(Grammar::keyword("DATABASE"))
                                            .and(Grammar::reference("ObjectReferenceSegment")),
                                    ))
                                    .and(Grammar::sequence_of(
                                        GrammarList::new()
                                            .and(Grammar::keyword("TABLE"))
                                            .and(Grammar::reference("TableReferenceSegment")),
                                    ))
                                    .and(Grammar::sequence_of(
                                        GrammarList::new()
                                            .and(Grammar::keyword("ZKPATH"))
                                            .and(Grammar::reference("PathSegment")),
                                    )),
                            )),
                    ).optional()),
            ))
            .and(Grammar::sequence_of(
                GrammarList::new()
                    .and(Grammar::keyword("RESTART"))
                    .and(Grammar::keyword("REPLICA"))
                    .and(Grammar::reference("TableReferenceSegment")),
            ))
            .and(Grammar::sequence_of(
                GrammarList::new()
                    .and(Grammar::keyword("RESTORE"))
                    .and(Grammar::keyword("REPLICA"))
                    .and(Grammar::reference("TableReferenceSegment"))
                    .and(Grammar::reference("OnClusterClauseSegment").optional()),
            )),
    ).node(SyntaxKind::SystemReplicaSegment)
}

/// The grammar of `SystemFilesystemSegment`.
pub open spec fn system_filesystem_segment_view() -> GrammarView {
    GrammarView::Node {
        kind: SyntaxKind::SystemFilesystemSegment,
        inner: Box::new(GrammarView::Sequence {
            elements: Seq::empty()
                .push(GrammarView::Text { template: "DROP"@, becomes: SyntaxKind::Keyword })
                .push(GrammarView::Text { template: "FILESYSTEM"@, becomes: SyntaxKind::Keyword })
                .push(GrammarView::Text { template: "CACHE"@, becomes: SyntaxKind::Keyword }),
        }),
    }
}

/// The grammar of `SystemFilesystemSegment`.
pub fn system_filesystem_segment() -> (r: Grammar)
    ensures
        grammar_view(r) == system_filesystem_segment_view(),
{
    Grammar::sequence_of(
        GrammarList::new()
            .and(Grammar::keyword("DROP"))
            .and(Grammar::keyword("FILESYSTEM"))
            .and(Grammar::keyword("CACHE")),
    ).node(SyntaxKind::SystemFilesystemSegment)
}

/// The grammar of `SystemReplicatedSegment`.
pub open spec fn system_replicated_segment_view() -> GrammarView {
    GrammarView::Node {
        kind: SyntaxKind::SystemReplicatedSegment,
        inner: Box::new(GrammarView::Sequence {
            elements: Seq::empty()
                .push(GrammarView::OneOf {
                    options: Seq::empty()
                        .push(
                            GrammarView::Text { template: "START"@, becomes: SyntaxKind::Keyword },
                        )
                        .push(
                            GrammarView::Text { template: "STOP"@, becomes: SyntaxKind::Keyword },
                        ),
                })
                .push(GrammarView::Text { template: "REPLICATED"@, becomes: SyntaxKind::Keyword })
                .push(GrammarView::Text { template: "SENDS"@, becomes: SyntaxKind::Keyword })
                .push(
                    GrammarView::Optional { inner: Box::new(
                        GrammarView::Ref { name: "TableReferenceSegment"@, exclude: None },
                    ) },
                ),
        }),
    }
}

/// The grammar of `SystemReplicatedSegment`.
pub fn system_replicated_segment() -> (r: Grammar)
    ensures
        grammar_view(r) == system_replicated_segment_view(),
{
    Grammar::sequence_of(
        GrammarList::new()
            .and(Grammar::first_of(
                GrammarList::new()
                    .and(Grammar::keyword("START"))
                    .and(Grammar::keyword("STOP")),
            ))
            .and(Grammar::keyword("REPLICATED"))
            .and(Grammar::keyword("SENDS"))
            .and(Grammar::reference("TableReferenceSegment").optional()),
    ).node(SyntaxKind::SystemReplicatedSegment)
}

/// The grammar of `SystemReplicationSegment`.
pub open spec fn system_replication_segment_view() -> GrammarView {
    GrammarView::Node {
        kind: SyntaxKind::SystemReplicationSegment,
        inner: Box::new(GrammarView::Sequence {
            elements: Seq::empty()
                .push(GrammarView::OneOf {
                    options: Seq::empty()
                        .push(
                            GrammarView::Text { template: "START"@, becomes: SyntaxKind::Keyword },
                        )
                        .push(
                            GrammarView::Text { template: "STOP"@, becomes: SyntaxKind::Keyword },
                        ),
                })
                .push(GrammarView::Text { template: "REPLICATION"@, becomes: SyntaxKind::Keyword })
                .push(GrammarView::Text { template: "QUEUES"@, becomes: SyntaxKind::Keyword })
                .push(
                    GrammarView::Optional { inner: Box::new(
                        GrammarView::Ref { name: "TableReferenceSegment"@, exclude: None },
                    ) },
                ),
        }),
    }
}

/// The grammar of `SystemReplicationSegment`.
pub fn system_replication_segment() -> (r: Grammar)
    ensures
        grammar_view(r) == system_replication_segment_view(),
{
    Grammar::sequence_of(
        GrammarList::new()
            .and(Grammar::first_of(
                GrammarList::new()
                    .and(Grammar::keyword("START"))
                    .and(Grammar::keyword("STOP")),
            ))
            .and(Grammar::keyword("REPLICATION"))
            .and(Grammar::keyword("QUEUES"))
            .and(Grammar::reference("TableReferenceSegment").optional()),
    ).node(SyntaxKind::SystemReplicationSegment)
}

/// The grammar of `SystemFetchesSegment`.
pub open spec fn system_fetches_segment_view() -> GrammarView {
    GrammarView::Node {
        kind: SyntaxKind::SystemFetchesSegment,
        inner: Box::new(GrammarView::Sequence {
            elements: Seq::empty()
                .push(GrammarView::OneOf {
                    options: Seq::empty()
                        .push(
                            GrammarView::Text { template: "START"@, becomes: SyntaxKind::Keyword },
                        )
                        .push(
                            GrammarView::Text { template: "STOP"@, becomes: SyntaxKind::Keyword },
                        ),
                })
                .push(GrammarView::Text { template: "FETCHES"@, becomes: SyntaxKind::Keyword })
                .push(
                    GrammarView::Optional { inner: Box::new(
                        GrammarView::Ref { name: "TableReferenceSegment"@, exclude: None },
                    ) },
                ),
        }),
    }
}

/// The grammar of `SystemFetchesSegment`.
pub fn system_fetches_segment() -> (r: Grammar)
    ensures
        grammar_view(r) == system_fetches_segment_view(),
{
    Grammar::sequence_of(
        GrammarList::new()
            .and(Grammar::first_of(
                GrammarList::new()
                    .and(Grammar::keyword("START"))
                    .and(Grammar::keyword("STOP")),
            ))
            .and(Grammar::keyword("FETCHES"))
            .and(Grammar::reference("TableReferenceSegment").optional()),
    ).node(SyntaxKind::SystemFetchesSegment)
}

/// The grammar of `SystemDistributedSegment`.
pub open spec fn system_distributed_segment_view() -> GrammarView {
    GrammarView::Node {
        kind: SyntaxKind::SystemDistributedSegment,
        inner: Box::new(GrammarView::Sequence {
            elements: Seq::empty()
                .push(GrammarView::OneOf {
                    options: Seq::empty()
                        .push(GrammarView::Sequence {
                            elements: Seq::empty()
                                .push(GrammarView::OneOf {
                                    options: Seq::empty()
                                        .push(
                                            GrammarView::Text {
                                                template: "START"@,
                                                becomes: SyntaxKind::Keyword,
                                            },
                                        )
                                        .push(
                                            GrammarView::Text {
                                                template: "STOP"@,
                                                becomes: SyntaxKind::Keyword,
                                            },
                                        ),
                                })
                                .push(
                                    GrammarView::Text {
                                        template: "DISTRIBUTED"@,
                                        becomes: SyntaxKind::Keyword,
                                    },
                                )
                                .push(
                                    GrammarView::Text {
                                        template: "SENDS"@,
                                        becomes: SyntaxKind::Keyword,
                                    },
                                )
                                .push(
                                    GrammarView::Ref {
                                        name: "TableReferenceSegment"@,
                                        exclude: None,
                                    },
                                ),
                        })
                        .push(GrammarView::Sequence {
                            elements: Seq::empty()
                                .push(
                                    GrammarView::Text {
                                        template: "FLUSH"@,
                                        becomes: SyntaxKind::Keyword,
                                    },
                                )
                                .push(
                                    GrammarView::Text {
                                        template: "DISTRIBUTED"@,
                                        becomes: SyntaxKind::Keyword,
                                    },
                                )
                                .push(
                                    GrammarView::Ref {
                                        name: "TableReferenceSegment"@,
                                        exclude: None,
                                    },
                                ),
                        }),
                }),
        }),
    }
}

/// The grammar of `SystemDistributedSegment`.
pub fn system_distributed_segment() -> (r: Grammar)
    ensures
        grammar_view(r) == system_distributed_segment_view(),
{
    Grammar::sequence_of(
        GrammarList::new()
            .and(Grammar::first_of(
                GrammarList::new()
                    .and(Grammar::sequence_of(
                        GrammarList::new()
                            .and(Grammar::first_of(
                                GrammarList::new()
                                    .and(Grammar::keyword("START"))
                                    .and(Grammar::keyword("STOP")),
                            ))
                            .and(Grammar::keyword("DISTRIBUTED"))
                            .and(Grammar::keyword("SENDS"))
                            .and(Grammar::reference("TableReferenceSegment")),
                    ))
                    .and(Grammar::sequence_of(
                        GrammarList::new()
                            .and(Grammar::keyword("FLUSH"))
                            .and(Grammar::keyword("DISTRIBUTED"))
                            .and(Grammar::reference("TableReferenceSegment")),
                    )),
            )),
    ).node(SyntaxKind::SystemDistributedSegment)
}

/// The grammar of `SystemModelSegment`.
pub open spec fn system_model_segment_view() -> GrammarView {
    GrammarView::Node {
        kind: SyntaxKind::SystemModelSegment,
        inner: Box::new(GrammarView::Sequence {
            elements: Seq::empty()
                .push(GrammarView::Text { template: "RELOAD"@, becomes: SyntaxKind::Keyword })
                .push(GrammarView::OneOf {
                    options: Seq::empty()
                        .push(GrammarView::Sequence {
                            elements: Seq::empty()
                                .push(
                                    GrammarView::Text {
                                        template: "MODELS"@,
                                        becomes: SyntaxKind::Keyword,
                                    },
                                )
                                .push(
                                    GrammarView::Optional { inner: Box::new(
                                        GrammarView::Ref {
                                            name: "OnClusterClauseSegment"@,
                                            exclude: None,
                                        },
                                    ) },
                                ),
                        })
                        .push(GrammarView::Sequence {
                            elements: Seq::empty()
                                .push(
                                    GrammarView::Text {
                                        template: "MODEL"@,
                                        becomes: SyntaxKind::Keyword,
                                    },
                                )
                                .push(GrammarView::AnyNumberOf {
                                    options: Seq::empty()
                                        .push(
                                            GrammarView::Optional { inner: Box::new(
                                                GrammarView::Ref {
                                                    name: "OnClusterClauseSegment"@,
                                                    exclude: None,
                                                },
                                            ) },
                                        )
                                        .push(
                                            GrammarView::Ref {
                                                name: "PathSegment"@,
                                                exclude: None,
                                            },
                                        ),
                                    min_times: 0,
                                    max_times: None,
                                    max_times_per_element: Some(1),
                                }),
                        }),
                }),
        }),
    }
}

/// The grammar of `SystemModelSegment`.
pub fn system_model_segment() -> (r: Grammar)
    ensures
        grammar_view(r) == system_model_segment_view(),
{
    Grammar::sequence_of(
        GrammarList::new()
            .and(Grammar::keyword("RELOAD"))
            .and(Grammar::first_of(
                GrammarList::new()
                    .and(Grammar::sequence_of(
                        GrammarList::new()
                            .and(Grammar::keyword("MODELS"))
                            .and(Grammar::reference("OnClusterClauseSegment").optional()),
                    ))
                    .and(Grammar::sequence_of(
                        GrammarList::new()
                            .and(Grammar::keyword("MODEL"))
                            .and(Grammar::repeated(
                                GrammarList::new()
                                    .and(Grammar::reference("OnClusterClauseSegment").optional())
                                    .and(Grammar::reference("PathSegment")),
                                0,
                                None,
                                Some(1),
                            )),
                    )),
            )),
    ).node(SyntaxKind::SystemModelSegment)
}

/// The grammar of `SystemFileSegment`.
pub open spec fn system_file_segment_view() -> GrammarView {
    GrammarView::Node {
        kind: SyntaxKind::SystemFileSegment,
        inner: Box::new(GrammarView::Sequence {
            elements: Seq::empty()
                .push(GrammarView::Text { template: "SYNC"@, becomes: SyntaxKind::Keyword })
                .push(GrammarView::Text { template: "FILE"@, becomes: SyntaxKind::Keyword })
                .push(GrammarView::Text { template: "CACHE"@, becomes: SyntaxKind::Keyword }),
        }),
    }
}

/// The grammar of `SystemFileSegment`.
pub fn system_file_segment() -> (r: Grammar)
    ensures
        grammar_view(r) == system_file_segment_view(),
{
    Grammar::sequence_of(
        GrammarList::new()
            .and(Grammar::keyword("SYNC"))
            .and(Grammar::keyword("FILE"))
            .and(Grammar::keyword("CACHE")),
    ).node(SyntaxKind::SystemFileSegment)
}

/// The grammar of `SystemUnfreezeSegment`.
pub open spec fn system_unfreeze_segment_view() -> GrammarView {
    GrammarView::Node {
        kind: SyntaxKind::SystemUnfreezeSegment,
        inner: Box::new(GrammarView::Sequence {
            elements: Seq::empty()
                .push(GrammarView::Text { template: "UNFREEZE"@, becomes: SyntaxKind::Keyword })
                .push(GrammarView::Text { template: "WITH"@, becomes: SyntaxKind::Keyword })
                .push(GrammarView::Text { template: "NAME"@, becomes: SyntaxKind::Keyword })
                .push(GrammarView::Ref { name: "ObjectReferenceSegment"@, exclude: None }),
        }),
    }
}

/// The grammar of `SystemUnfreezeSegment`.
pub fn system_unfreeze_segment() -> (r: Grammar)
    ensures
        grammar_view(r) == system_unfreeze_segment_view(),
{
    Grammar::sequence_of(
        GrammarList::new()
            .and(Grammar::keyword("UNFREEZE"))
            .and(Grammar::keyword("WITH"))
            .and(Grammar::keyword("NAME"))
            .and(Grammar::reference("ObjectReferenceSegment")),
    ).node(SyntaxKind::SystemUnfreezeSegment)
}

/// The grammar of `SystemStatementSegment`.
pub open spec fn system_statement_segment_view() -> GrammarView {
    GrammarView::Node {
        kind: SyntaxKind::SystemStatement,
        inner: Box::new(GrammarView::Sequence {
            elements: Seq::empty()
                .push(GrammarView::Text { template: "SYSTEM"@, becomes: SyntaxKind::Keyword })
                .push(GrammarView::OneOf {
                    options: Seq::empty()
                        .push(GrammarView::Ref { name: "SystemMergesSegment"@, exclude: None })
                        .push(GrammarView::Ref { name: "SystemTTLMergesSegment"@, exclude: None })
                        .push(GrammarView::Ref { name: "SystemMovesSegment"@, exclude: None })
                        .push(GrammarView::Ref { name: "SystemReplicaSegment"@, exclude: None })
                        .push(GrammarView::Ref { name: "SystemReplicatedSegment"@, exclude: None })
                        .push(GrammarView::Ref { name: "SystemReplicationSegment"@, exclude: None })
                        .push(GrammarView::Ref { name: "SystemFetchesSegment"@, exclude: None })
                        .push(GrammarView::Ref { name: "SystemDistributedSegment"@, exclude: None })
                        .push(GrammarView::Ref { name: "SystemFileSegment"@, exclude: None })
                        .push(GrammarView::Ref { name: "SystemFilesystemSegment"@, exclude: None })
                        .push(GrammarView::Ref { name: "SystemUnfreezeSegment"@, exclude: None })
                        .push(GrammarView::Ref { name: "SystemModelSegment"@, exclude: None }),
                }),
        }),
    }
}

/// The grammar of `SystemStatementSegment`.
pub fn system_statement_segment() -> (r: Grammar)
    ensures
        grammar_view(r) == system_statement_segment_view(),
{
    Grammar::sequence_of(
        GrammarList::new()
            .and(Grammar::keyword("SYSTEM"))
            .and(Grammar::first_of(
                GrammarList::new()
                    .and(Grammar::reference("SystemMergesSegment"))
                    .and(Grammar::reference("SystemTTLMergesSegment"))
                    .and(Grammar::reference("SystemMovesSegment"))
                    .and(Grammar::reference("SystemReplicaSegment"))
                    .and(Grammar::reference("SystemReplicatedSegment"))
                    .and(Grammar::reference("SystemReplicationSegment"))
                    .and(Grammar::reference("SystemFetchesSegment"))
                    .and(Grammar::reference("SystemDistributedSegment"))
                    .and(Grammar::reference("SystemFileSegment"))
                    .and(Grammar::reference("SystemFilesystemSegment"))
                    .and(Grammar::reference("SystemUnfreezeSegment"))
                    .and(Grammar::reference("SystemModelSegment")),
            )),
    ).node(SyntaxKind::SystemStatement)
}

/// Binds `SystemMergesSegment`, `SystemTTLMergesSegment`,
/// `SystemMovesSegment`, `SystemReplicaSegment`, `SystemFilesystemSegment`,
/// `SystemReplicatedSegment`, `SystemReplicationSegment`,
/// `SystemFetchesSegment`, `SystemDistributedSegment`,
/// `SystemModelSegment`, `SystemFileSegment`, `SystemUnfreezeSegment`,
/// `SystemStatementSegment`.
pub open spec fn define_system_merges_segment_etc_view(dialect: DialectView) -> DialectView {
    let dialect = with_rule(dialect, "SystemMergesSegment"@, system_merges_segment_view());
    let dialect = with_rule(dialect, "SystemTTLMergesSegment"@, system_ttl_merges_segment_view());
    let dialect = with_rule(dialect, "SystemMovesSegment"@, system_moves_segment_view());
    let dialect = with_rule(dialect, "SystemReplicaSegment"@, system_replica_segment_view());
    let dialect = with_rule(dialect, "SystemFilesystemSegment"@, system_filesystem_segment_view());
    let dialect = with_rule(dialect, "SystemReplicatedSegment"@, system_replicated_segment_view());
    let dialect = with_rule(
        dialect,
        "SystemReplicationSegment"@,
        system_replication_segment_view(),
    );
    let dialect = with_rule(dialect, "SystemFetchesSegment"@, system_fetches_segment_view());
    let dialect = with_rule(
        dialect,
        "SystemDistributedSegment"@,
        system_distributed_segment_view(),
    );
    let dialect = with_rule(dialect, "SystemModelSegment"@, system_model_segment_view());
    let dialect = with_rule(dialect, "SystemFileSegment"@, system_file_segment_view());
    let dialect = with_rule(dialect, "SystemUnfreezeSegment"@, system_unfreeze_segment_view());
    let dialect = with_rule(dialect, "SystemStatementSegment"@, system_statement_segment_view());
    dialect
}

/// Binds `SystemMergesSegment`, `SystemTTLMergesSegment`,
/// `SystemMovesSegment`, `SystemReplicaSegment`, `SystemFilesystemSegment`,
/// `SystemReplicatedSegment`, `SystemReplicationSegment`,
/// `SystemFetchesSegment`, `SystemDistributedSegment`,
/// `SystemModelSegment`, `SystemFileSegment`, `SystemUnfreezeSegment`,
/// `SystemStatementSegment`.
pub fn define_system_merges_segment_etc(dialect: Dialect) -> (r: Dialect)
    ensures
        r.deep_view() == define_system_merges_segment_etc_view(dialect.deep_view()),
{
    let mut dialect = dialect;
    dialect.define("SystemMergesSegment", system_merges_segment());
    dialect.define("SystemTTLMergesSegment", system_ttl_merges_segment());
    dialect.define("SystemMovesSegment", system_moves_segment());
    dialect.define("SystemReplicaSegment", system_replica_segment());
    dialect.define("SystemFilesystemSegment", system_filesystem_segment());
    dialect.define("SystemReplicatedSegment", system_replicated_segment());
    dialect.define("SystemReplicationSegment", system_replication_segment());
    dialect.define("SystemFetchesSegment", system_fetches_segment());
    dialect.define("SystemDistributedSegment", system_distributed_segment());
    dialect.define("SystemModelSegment", system_model_segment());
    dialect.define("SystemFileSegment", system_file_segment());
    dialect.define("SystemUnfreezeSegment", system_unfreeze_segment());
    dialect.define("SystemStatementSegment", system_statement_segment());
    dialect
}

/// The grammar of `StatementSegment`, made of the grammar `base`.
pub open spec fn statement_segment_view(base: GrammarView) -> GrammarView {
    copied(
        base,
        Seq::empty()
            .push(
                GrammarView::Ref { name: "CreateMaterializedViewStatementSegment"@, exclude: None },
            )
            .push(GrammarView::Ref { name: "DropDictionaryStatementSegment"@, exclude: None })
            .push(GrammarView::Ref { name: "DropQuotaStatementSegment"@, exclude: None })
            .push(GrammarView::Ref { name: "DropSettingProfileStatementSegment"@, exclude: None })
            .push(GrammarView::Ref { name: "SystemStatementSegment"@, exclude: None }),
        None,
    )
}

/// The grammar of `StatementSegment`, made of the grammar `base`.
pub fn statement_segment(base: Grammar) -> (r: Grammar)
    ensures
        grammar_view(r) == statement_segment_view(grammar_view(base)),
{
    base.copy(
        GrammarList::new()
            .and(Grammar::reference("CreateMaterializedViewStatementSegment"))
            .and(Grammar::reference("DropDictionaryStatementSegment"))
            .and(Grammar::reference("DropQuotaStatementSegment"))
            .and(Grammar::reference("DropSettingProfileStatementSegment"))
            .and(Grammar::reference("SystemStatementSegment")).items,
        None,
    )
}

/// Replaces the grammar of `StatementSegment`.
pub open spec fn replace_statement_segment_view(
    dialect: DialectView,
) -> Result<DialectView, DialectError> {
    match known(node_grammar(dialect.library, "StatementSegment"@)) {
        Ok(base) => with_replaced(dialect, "StatementSegment"@, statement_segment_view(base)),
        Err(e) => Err(e),
    }
}

/// Replaces the grammar of `StatementSegment`.
pub fn replace_statement_segment(dialect: Dialect) -> (r: Result<Dialect, DialectError>)
    ensures
        outcome_view(r) == replace_statement_segment_view(dialect.deep_view()),
{
    let mut dialect = dialect;
    let base = match dialect.match_grammar("StatementSegment") {
        Some(base) => base,
        None => {
            return Err(DialectError::UnknownRule);
        },
    };
    match dialect.replace_grammar("StatementSegment", statement_segment(base)) {
        Ok(()) => Ok(dialect),
        Err(e) => Err(e),
    }
}

/// The ClickHouse dialect: the dialect `ansi` under the name of
/// ClickHouse, with the given words among its keywords, a matcher for
/// `->` before that of line breaks, and the rules of ClickHouse bound
/// or put in the place of those of `ansi`; then expanded. It is refused
/// where `ansi` lacks a rule or matcher that ClickHouse replaces or
/// builds on, or where a rule refers to what is not there.
pub open spec fn clickhouse_dialect_view(
    ansi: DialectView,
    unreserved_keywords: Seq<Seq<char>>,
) -> Result<DialectView, DialectError> {
    let dialect = ansi;
    let dialect = DialectView { name: DialectKind::Clickhouse, ..dialect };
    let dialect = with_set_extended(dialect, "unreserved_keywords"@, unreserved_keywords);
    let made = replace_from_expression_element_segment_view(dialect);
    let made = after(made, |d: DialectView| replace_join_clause_segment_view(d));
    let made = after(made, |d: DialectView| Ok(define_single_identifier_grammar_etc_view(d)));
    let made = after(
        made,
        |d: DialectView| with_matchers_before(
            d,
            Seq::empty()
                .push(MatcherView {
                    pattern: PatternView { name: "lambda"@, value: SyntaxKind::Lambda, rule: SearchRule::Literal(encode_utf8("->"@)) },
                    subdivider: None,
                    trim_post_subdivide: None,
                }),
            "newline"@,
        ),
    );
    let made = after(made, |d: DialectView| Ok(define_join_type_keywords_etc_view(d)));
    let made = after(made, |d: DialectView| Ok(define_binary_operator_grammar_view(d)));
    let made = after(made, |d: DialectView| Ok(define_join_like_clause_grammar_view(d)));
    let made = after(made, |d: DialectView| replace_bracketed_arguments_view(d));
    let made = after(made, |d: DialectView| Ok(define_array_join_clause_segment_view(d)));
    let made = after(made, |d: DialectView| replace_cte_definition_segment_view(d));
    let made = after(made, |d: DialectView| replace_alias_expression_segment_view(d));
    let made = after(made, |d: DialectView| Ok(define_table_engine_function_segment_etc_view(d)));
    let made = after(made, |d: DialectView| replace_create_database_statement_segment_view(d));
    let made = after(made, |d: DialectView| replace_create_table_statement_segment_view(d));
    let made = after(
        made,
        |d: DialectView| Ok(define_create_materialized_view_statement_segment_view(d)),
    );
    let made = after(made, |d: DialectView| replace_drop_table_statement_segment_view(d));
    let made = after(made, |d: DialectView| replace_drop_database_statement_segment_view(d));
    let made = after(made, |d: DialectView| Ok(define_drop_dictionary_statement_segment_view(d)));
    let made = after(made, |d: DialectView| replace_drop_user_statement_segment_view(d));
    let made = after(made, |d: DialectView| replace_drop_role_statement_segment_view(d));
    let made = after(made, |d: DialectView| Ok(define_drop_quota_statement_segment_etc_view(d)));
    let made = after(made, |d: DialectView| replace_drop_view_statement_segment_view(d));
    let made = after(made, |d: DialectView| replace_drop_function_statement_segment_view(d));
    let made = after(made, |d: DialectView| Ok(define_system_merges_segment_etc_view(d)));
    let made = after(made, |d: DialectView| replace_statement_segment_view(d));
    let made = after(made, |d: DialectView| expanded(d));
    made
}

/// The ClickHouse dialect: the dialect `ansi` under the name of
/// ClickHouse, with the given words among its keywords, a matcher for
/// `->` before that of line breaks, and the rules of ClickHouse bound
/// or put in the place of those of `ansi`; then expanded. It is refused
/// where `ansi` lacks a rule or matcher that ClickHouse replaces or
/// builds on, or where a rule refers to what is not there.
pub fn clickhouse_dialect(
    ansi: Dialect,
    unreserved_keywords: &[&str],
) -> (r: Result<Dialect, DialectError>)
    ensures
        outcome_view(r) == clickhouse_dialect_view(
            ansi.deep_view(),
            str_views(unreserved_keywords@),
        ),
{
    let mut dialect = ansi;
    dialect = dialect.named(DialectKind::Clickhouse);
    dialect.extend_set("unreserved_keywords", unreserved_keywords);
    dialect = match replace_from_expression_element_segment(dialect) {
        Ok(dialect) => dialect,
        Err(e) => {
            return Err(e);
        },
    };
    dialect = match replace_join_clause_segment(dialect) {
        Ok(dialect) => dialect,
        Err(e) => {
            return Err(e);
        },
    };
    dialect = define_single_identifier_grammar_etc(dialect);
    let patch = vec![Matcher::string("lambda", "->", SyntaxKind::Lambda)];
    assert(patch.deep_view() =~= Seq::empty()
        .push(MatcherView {
            pattern: PatternView { name: "lambda"@, value: SyntaxKind::Lambda, rule: SearchRule::Literal(encode_utf8("->"@)) },
            subdivider: None,
            trim_post_subdivide: None,
        })
    );
    match dialect.insert_lexer_matchers(patch, "newline") {
        Ok(()) => {},
        Err(e) => {
            return Err(e);
        },
    }
    dialect = define_join_type_keywords_etc(dialect);
    dialect = define_binary_operator_grammar(dialect);
    dialect = define_join_like_clause_grammar(dialect);
    dialect = match replace_bracketed_arguments(dialect) {
        Ok(dialect) => dialect,
        Err(e) => {
            return Err(e);
        },
    };
    dialect = define_array_join_clause_segment(dialect);
    dialect = match replace_cte_definition_segment(dialect) {
        Ok(dialect) => dialect,
        Err(e) => {
            return Err(e);
        },
    };
    dialect = match replace_alias_expression_segment(dialect) {
        Ok(dialect) => dialect,
        Err(e) => {
            return Err(e);
        },
    };
    dialect = define_table_engine_function_segment_etc(dialect);
    dialect = match replace_create_database_statement_segment(dialect) {
        Ok(dialect) => dialect,
        Err(e) => {
            return Err(e);
        },
    };
    dialect = match replace_create_table_statement_segment(dialect) {
        Ok(dialect) => dialect,
        Err(e) => {
            return Err(e);
        },
    };
    dialect = define_create_materialized_view_statement_segment(dialect);
    dialect = match replace_drop_table_statement_segment(dialect) {
        Ok(dialect) => dialect,
        Err(e) => {
            return Err(e);
        },
    };
    dialect = match replace_drop_database_statement_segment(dialect) {
        Ok(dialect) => dialect,
        Err(e) => {
            return Err(e);
        },
    };
    dialect = define_drop_dictionary_statement_segment(dialect);
    dialect = match replace_drop_user_statement_segment(dialect) {
        Ok(dialect) => dialect,
        Err(e) => {
            return Err(e);
        },
    };
    dialect = match replace_drop_role_statement_segment(dialect) {
        Ok(dialect) => dialect,
        Err(e) => {
            return Err(e);
        },
    };
    dialect = define_drop_quota_statement_segment_etc(dialect);
    dialect = match replace_drop_view_statement_segment(dialect) {
        Ok(dialect) => dialect,
        Err(e) => {
            return Err(e);
        },
    };
    dialect = match replace_drop_function_statement_segment(dialect) {
        Ok(dialect) => dialect,
        Err(e) => {
            return Err(e);
        },
    };
    dialect = define_system_merges_segment_etc(dialect);
    dialect = match replace_statement_segment(dialect) {
        Ok(dialect) => dialect,
        Err(e) => {
            return Err(e);
        },
    };
    match dialect.expand() {
        Ok(()) => {},
        Err(e) => {
            return Err(e);
        },
    }
    Ok(dialect)
}

} // verus!
