//! The SQLite dialect: what it changes in the dialect that it is made of.

use crate::dialect::{
    after, expanded, known, node_grammar, outcome_view, str_views, with_replaced, with_rule,
    with_set_cleared, with_set_extended, Dialect, DialectError, DialectKind, DialectView,
};
use crate::grammar::{
    copied, dyn_cloned, grammar_view, Grammar, GrammarList, GrammarView, ParseMode,
};
use crate::syntax::SyntaxKind;
use vstd::prelude::*;

verus! {

/// The grammar of `BooleanBinaryOperatorGrammar`.
pub open spec fn boolean_binary_operator_grammar_view() -> GrammarView {
    GrammarView::OneOf {
        options: Seq::empty()
            .push(GrammarView::Ref { name: "AndOperatorGrammar"@, exclude: None })
            .push(GrammarView::Ref { name: "OrOperatorGrammar"@, exclude: None })
            .push(GrammarView::Text { template: "REGEXP"@, becomes: SyntaxKind::Keyword }),
    }
}

/// The grammar of `BooleanBinaryOperatorGrammar`.
pub fn boolean_binary_operator_grammar() -> (r: Grammar)
    ensures
        grammar_view(r) == boolean_binary_operator_grammar_view(),
{
    Grammar::first_of(
        GrammarList::new()
            .and(Grammar::reference("AndOperatorGrammar"))
            .and(Grammar::reference("OrOperatorGrammar"))
            .and(Grammar::keyword("REGEXP")),
    )
}

/// The grammar of `PrimaryKeyGrammar`.
pub open spec fn primary_key_grammar_view() -> GrammarView {
    GrammarView::Sequence {
        elements: Seq::empty()
            .push(GrammarView::Text { template: "PRIMARY"@, becomes: SyntaxKind::Keyword })
            .push(GrammarView::Text { template: "KEY"@, becomes: SyntaxKind::Keyword })
            .push(GrammarView::Optional { inner: Box::new(GrammarView::Sequence {
                elements: Seq::empty()
                    .push(
                        GrammarView::Text {
                            template: "AUTOINCREMENT"@,
                            becomes: SyntaxKind::Keyword,
                        },
                    ),
            }) }),
    }
}

/// The grammar of `PrimaryKeyGrammar`.
pub fn primary_key_grammar() -> (r: Grammar)
    ensures
        grammar_view(r) == primary_key_grammar_view(),
{
    Grammar::sequence_of(
        GrammarList::new()
            .and(Grammar::keyword("PRIMARY"))
            .and(Grammar::keyword("KEY"))
            .and(Grammar::sequence_of(
                GrammarList::new()
                    .and(Grammar::keyword("AUTOINCREMENT")),
            ).optional()),
    )
}

/// The grammar of `TemporaryTransientGrammar`.
pub open spec fn temporary_transient_grammar_view() -> GrammarView {
    GrammarView::Ref { name: "TemporaryGrammar"@, exclude: None }
}

/// The grammar of `TemporaryTransientGrammar`.
pub fn temporary_transient_grammar() -> (r: Grammar)
    ensures
        grammar_view(r) == temporary_transient_grammar_view(),
{
    Grammar::reference("TemporaryGrammar")
}

/// The grammar of `DateTimeLiteralGrammar`.
pub open spec fn date_time_literal_grammar_view() -> GrammarView {
    GrammarView::Sequence {
        elements: Seq::empty()
            .push(GrammarView::OneOf {
                options: Seq::empty()
                    .push(GrammarView::Text { template: "DATE"@, becomes: SyntaxKind::Keyword })
                    .push(
                        GrammarView::Text { template: "DATETIME"@, becomes: SyntaxKind::Keyword },
                    ),
            })
            .push(
                GrammarView::Token {
                    kind: SyntaxKind::SingleQuote,
                    becomes: SyntaxKind::DateConstructorLiteral,
                },
            ),
    }
}

/// The grammar of `DateTimeLiteralGrammar`.
pub fn date_time_literal_grammar() -> (r: Grammar)
    ensures
        grammar_view(r) == date_time_literal_grammar_view(),
{
    Grammar::sequence_of(
        GrammarList::new()
            .and(Grammar::first_of(
                GrammarList::new()
                    .and(Grammar::keyword("DATE"))
                    .and(Grammar::keyword("DATETIME")),
            ))
            .and(Grammar::token(SyntaxKind::SingleQuote, SyntaxKind::DateConstructorLiteral)),
    )
}

/// The grammar of `BaseExpressionElementGrammar`.
pub open spec fn base_expression_element_grammar_view() -> GrammarView {
    GrammarView::OneOf {
        options: Seq::empty()
            .push(GrammarView::Ref { name: "LiteralGrammar"@, exclude: None })
            .push(GrammarView::Ref { name: "BareFunctionSegment"@, exclude: None })
            .push(GrammarView::Ref { name: "FunctionSegment"@, exclude: None })
            .push(GrammarView::Ref { name: "ColumnReferenceSegment"@, exclude: None })
            .push(GrammarView::Ref { name: "ExpressionSegment"@, exclude: None })
            .push(GrammarView::Sequence {
                elements: Seq::empty()
                    .push(GrammarView::Ref { name: "DatatypeSegment"@, exclude: None })
                    .push(GrammarView::Ref { name: "LiteralGrammar"@, exclude: None }),
            }),
    }
}

/// The grammar of `BaseExpressionElementGrammar`.
pub fn base_expression_element_grammar() -> (r: Grammar)
    ensures
        grammar_view(r) == base_expression_element_grammar_view(),
{
    Grammar::first_of(
        GrammarList::new()
            .and(Grammar::reference("LiteralGrammar"))
            .and(Grammar::reference("BareFunctionSegment"))
            .and(Grammar::reference("FunctionSegment"))
            .and(Grammar::reference("ColumnReferenceSegment"))
            .and(Grammar::reference("ExpressionSegment"))
            .and(Grammar::sequence_of(
                GrammarList::new()
                    .and(Grammar::reference("DatatypeSegment"))
                    .and(Grammar::reference("LiteralGrammar")),
            )),
    )
}

/// The grammar of `AutoIncrementGrammar`.
pub open spec fn auto_increment_grammar_view() -> GrammarView {
    GrammarView::Nothing
}

/// The grammar of `AutoIncrementGrammar`.
pub fn auto_increment_grammar() -> (r: Grammar)
    ensures
        grammar_view(r) == auto_increment_grammar_view(),
{
    Grammar::nothing()
}

/// The grammar of `CommentClauseSegment`.
pub open spec fn comment_clause_segment_view() -> GrammarView {
    GrammarView::Nothing
}

/// The grammar of `CommentClauseSegment`.
pub fn comment_clause_segment() -> (r: Grammar)
    ensures
        grammar_view(r) == comment_clause_segment_view(),
{
    Grammar::nothing()
}

/// The grammar of `IntervalExpressionSegment`.
pub open spec fn interval_expression_segment_view() -> GrammarView {
    GrammarView::Nothing
}

/// The grammar of `IntervalExpressionSegment`.
pub fn interval_expression_segment() -> (r: Grammar)
    ensures
        grammar_view(r) == interval_expression_segment_view(),
{
    Grammar::nothing()
}

/// The grammar of `TimeZoneGrammar`.
pub open spec fn time_zone_grammar_view() -> GrammarView {
    GrammarView::Nothing
}

/// The grammar of `TimeZoneGrammar`.
pub fn time_zone_grammar() -> (r: Grammar)
    ensures
        grammar_view(r) == time_zone_grammar_view(),
{
    Grammar::nothing()
}

/// The grammar of `FetchClauseSegment`.
pub open spec fn fetch_clause_segment_view() -> GrammarView {
    GrammarView::Nothing
}

/// The grammar of `FetchClauseSegment`.
pub fn fetch_clause_segment() -> (r: Grammar)
    ensures
        grammar_view(r) == fetch_clause_segment_view(),
{
    Grammar::nothing()
}

/// The grammar of `TrimParametersGrammar`.
pub open spec fn trim_parameters_grammar_view() -> GrammarView {
    GrammarView::Nothing
}

/// The grammar of `TrimParametersGrammar`.
pub fn trim_parameters_grammar() -> (r: Grammar)
    ensures
        grammar_view(r) == trim_parameters_grammar_view(),
{
    Grammar::nothing()
}

/// The grammar of `LikeGrammar`.
pub open spec fn like_grammar_view() -> GrammarView {
    GrammarView::Sequence {
        elements: Seq::empty()
            .push(GrammarView::Text { template: "LIKE"@, becomes: SyntaxKind::Keyword }),
    }
}

/// The grammar of `LikeGrammar`.
pub fn like_grammar() -> (r: Grammar)
    ensures
        grammar_view(r) == like_grammar_view(),
{
    Grammar::sequence_of(
        GrammarList::new()
            .and(Grammar::keyword("LIKE")),
    )
}

/// The grammar of `OverlapsClauseSegment`.
pub open spec fn overlaps_clause_segment_view() -> GrammarView {
    GrammarView::Nothing
}

/// The grammar of `OverlapsClauseSegment`.
pub fn overlaps_clause_segment() -> (r: Grammar)
    ensures
        grammar_view(r) == overlaps_clause_segment_view(),
{
    Grammar::nothing()
}

/// The grammar of `MLTableExpressionSegment`.
pub open spec fn ml_table_expression_segment_view() -> GrammarView {
    GrammarView::Nothing
}

/// The grammar of `MLTableExpressionSegment`.
pub fn ml_table_expression_segment() -> (r: Grammar)
    ensures
        grammar_view(r) == ml_table_expression_segment_view(),
{
    Grammar::nothing()
}

/// The grammar of `MergeIntoLiteralGrammar`.
pub open spec fn merge_into_literal_grammar_view() -> GrammarView {
    GrammarView::Nothing
}

/// The grammar of `MergeIntoLiteralGrammar`.
pub fn merge_into_literal_grammar() -> (r: Grammar)
    ensures
        grammar_view(r) == merge_into_literal_grammar_view(),
{
    Grammar::nothing()
}

/// The grammar of `SamplingExpressionSegment`.
pub open spec fn sampling_expression_segment_view() -> GrammarView {
    GrammarView::Nothing
}

/// The grammar of `SamplingExpressionSegment`.
pub fn sampling_expression_segment() -> (r: Grammar)
    ensures
        grammar_view(r) == sampling_expression_segment_view(),
{
    Grammar::nothing()
}

/// The grammar of `OrderByClauseTerminators`.
pub open spec fn order_by_clause_terminators_view() -> GrammarView {
    GrammarView::OneOf {
        options: Seq::empty()
            .push(GrammarView::Text { template: "LIMIT"@, becomes: SyntaxKind::Keyword })
            .push(GrammarView::Text { template: "WINDOW"@, becomes: SyntaxKind::Keyword })
            .push(GrammarView::Ref { name: "FrameClauseUnitGrammar"@, exclude: None }),
    }
}

/// The grammar of `OrderByClauseTerminators`.
pub fn order_by_clause_terminators() -> (r: Grammar)
    ensures
        grammar_view(r) == order_by_clause_terminators_view(),
{
    Grammar::first_of(
        GrammarList::new()
            .and(Grammar::keyword("LIMIT"))
            .and(Grammar::keyword("WINDOW"))
            .and(Grammar::reference("FrameClauseUnitGrammar")),
    )
}

/// The grammar of `WhereClauseTerminatorGrammar`.
pub open spec fn where_clause_terminator_grammar_view() -> GrammarView {
    GrammarView::OneOf {
        options: Seq::empty()
            .push(GrammarView::Text { template: "LIMIT"@, becomes: SyntaxKind::Keyword })
            .push(GrammarView::Sequence {
                elements: Seq::empty()
                    .push(GrammarView::Text { template: "GROUP"@, becomes: SyntaxKind::Keyword })
                    .push(GrammarView::Text { template: "BY"@, becomes: SyntaxKind::Keyword }),
            })
            .push(GrammarView::Sequence {
                elements: Seq::empty()
                    .push(GrammarView::Text { template: "ORDER"@, becomes: SyntaxKind::Keyword })
                    .push(GrammarView::Text { template: "BY"@, becomes: SyntaxKind::Keyword }),
            })
            .push(GrammarView::Text { template: "WINDOW"@, becomes: SyntaxKind::Keyword }),
    }
}

/// The grammar of `WhereClauseTerminatorGrammar`.
pub fn where_clause_terminator_grammar() -> (r: Grammar)
    ensures
        grammar_view(r) == where_clause_terminator_grammar_view(),
{
    Grammar::first_of(
        GrammarList::new()
            .and(Grammar::keyword("LIMIT"))
            .and(Grammar::sequence_of(
                GrammarList::new()
                    .and(Grammar::keyword("GROUP"))
                    .and(Grammar::keyword("BY")),
            ))
            .and(Grammar::sequence_of(
                GrammarList::new()
                    .and(Grammar::keyword("ORDER"))
                    .and(Grammar::keyword("BY")),
            ))
            .and(Grammar::keyword("WINDOW")),
    )
}

/// The grammar of `FromClauseTerminatorGrammar`.
pub open spec fn from_clause_terminator_grammar_view() -> GrammarView {
    GrammarView::OneOf {
        options: Seq::empty()
            .push(GrammarView::Text { template: "WHERE"@, becomes: SyntaxKind::Keyword })
            .push(GrammarView::Text { template: "LIMIT"@, becomes: SyntaxKind::Keyword })
            .push(GrammarView::Sequence {
                elements: Seq::empty()
                    .push(GrammarView::Text { template: "GROUP"@, becomes: SyntaxKind::Keyword })
                    .push(GrammarView::Text { template: "BY"@, becomes: SyntaxKind::Keyword }),
            })
            .push(GrammarView::Sequence {
                elements: Seq::empty()
                    .push(GrammarView::Text { template: "ORDER"@, becomes: SyntaxKind::Keyword })
                    .push(GrammarView::Text { template: "BY"@, becomes: SyntaxKind::Keyword }),
            })
            .push(GrammarView::Text { template: "WINDOW"@, becomes: SyntaxKind::Keyword })
            .push(GrammarView::Ref { name: "SetOperatorSegment"@, exclude: None })
            .push(GrammarView::Ref { name: "WithNoSchemaBindingClauseSegment"@, exclude: None })
            .push(GrammarView::Ref { name: "WithDataClauseSegment"@, exclude: None }),
    }
}

/// The grammar of `FromClauseTerminatorGrammar`.
pub fn from_clause_terminator_grammar() -> (r: Grammar)
    ensures
        grammar_view(r) == from_clause_terminator_grammar_view(),
{
    Grammar::first_of(
        GrammarList::new()
            .and(Grammar::keyword("WHERE"))
            .and(Grammar::keyword("LIMIT"))
            .and(Grammar::sequence_of(
                GrammarList::new()
                    .and(Grammar::keyword("GROUP"))
                    .and(Grammar::keyword("BY")),
            ))
            .and(Grammar::sequence_of(
                GrammarList::new()
                    .and(Grammar::keyword("ORDER"))
                    .and(Grammar::keyword("BY")),
            ))
            .and(Grammar::keyword("WINDOW"))
            .and(Grammar::reference("SetOperatorSegment"))
            .and(Grammar::reference("WithNoSchemaBindingClauseSegment"))
            .and(Grammar::reference("WithDataClauseSegment")),
    )
}

/// The grammar of `GroupByClauseTerminatorGrammar`.
pub open spec fn group_by_clause_terminator_grammar_view() -> GrammarView {
    GrammarView::OneOf {
        options: Seq::empty()
            .push(GrammarView::Sequence {
                elements: Seq::empty()
                    .push(GrammarView::Text { template: "ORDER"@, becomes: SyntaxKind::Keyword })
                    .push(GrammarView::Text { template: "BY"@, becomes: SyntaxKind::Keyword }),
            })
            .push(GrammarView::Text { template: "LIMIT"@, becomes: SyntaxKind::Keyword })
            .push(GrammarView::Text { template: "HAVING"@, becomes: SyntaxKind::Keyword })
            .push(GrammarView::Text { template: "WINDOW"@, becomes: SyntaxKind::Keyword }),
    }
}

/// The grammar of `GroupByClauseTerminatorGrammar`.
pub fn group_by_clause_terminator_grammar() -> (r: Grammar)
    ensures
        grammar_view(r) == group_by_clause_terminator_grammar_view(),
{
    Grammar::first_of(
        GrammarList::new()
            .and(Grammar::sequence_of(
                GrammarList::new()
                    .and(Grammar::keyword("ORDER"))
                    .and(Grammar::keyword("BY")),
            ))
            .and(Grammar::keyword("LIMIT"))
            .and(Grammar::keyword("HAVING"))
            .and(Grammar::keyword("WINDOW")),
    )
}

/// The grammar of `PostFunctionGrammar`.
pub open spec fn post_function_grammar_view() -> GrammarView {
    GrammarView::Ref { name: "FilterClauseGrammar"@, exclude: None }
}

/// The grammar of `PostFunctionGrammar`.
pub fn post_function_grammar() -> (r: Grammar)
    ensures
        grammar_view(r) == post_function_grammar_view(),
{
    Grammar::reference("FilterClauseGrammar")
}

/// The grammar of `IgnoreRespectNullsGrammar`.
pub open spec fn ignore_respect_nulls_grammar_view() -> GrammarView {
    GrammarView::Nothing
}

/// The grammar of `IgnoreRespectNullsGrammar`.
pub fn ignore_respect_nulls_grammar() -> (r: Grammar)
    ensures
        grammar_view(r) == ignore_respect_nulls_grammar_view(),
{
    Grammar::nothing()
}

/// The grammar of `SelectClauseTerminatorGrammar`.
pub open spec fn select_clause_terminator_grammar_view() -> GrammarView {
    GrammarView::OneOf {
        options: Seq::empty()
            .push(GrammarView::Text { template: "FROM"@, becomes: SyntaxKind::Keyword })
            .push(GrammarView::Text { template: "WHERE"@, becomes: SyntaxKind::Keyword })
            .push(GrammarView::Sequence {
                elements: Seq::empty()
                    .push(GrammarView::Text { template: "ORDER"@, becomes: SyntaxKind::Keyword })
                    .push(GrammarView::Text { template: "BY"@, becomes: SyntaxKind::Keyword }),
            })
            .push(GrammarView::Text { template: "LIMIT"@, becomes: SyntaxKind::Keyword })
            .push(GrammarView::Ref { name: "SetOperatorSegment"@, exclude: None }),
    }
}

/// The grammar of `SelectClauseTerminatorGrammar`.
pub fn select_clause_terminator_grammar() -> (r: Grammar)
    ensures
        grammar_view(r) == select_clause_terminator_grammar_view(),
{
    Grammar::first_of(
        GrammarList::new()
            .and(Grammar::keyword("FROM"))
            .and(Grammar::keyword("WHERE"))
            .and(Grammar::sequence_of(
                GrammarList::new()
                    .and(Grammar::keyword("ORDER"))
                    .and(Grammar::keyword("BY")),
            ))
            .and(Grammar::keyword("LIMIT"))
            .and(Grammar::reference("SetOperatorSegment")),
    )
}

/// The grammar of `FunctionContentsGrammar`.
pub open spec fn function_contents_grammar_view() -> GrammarView {
    GrammarView::AnyNumberOf {
        options: Seq::empty()
            .push(GrammarView::Ref { name: "ExpressionSegment"@, exclude: None })
            .push(GrammarView::Sequence {
                elements: Seq::empty()
                    .push(GrammarView::Ref { name: "ExpressionSegment"@, exclude: None })
                    .push(GrammarView::Text { template: "AS"@, becomes: SyntaxKind::Keyword })
                    .push(GrammarView::Ref { name: "DatatypeSegment"@, exclude: None }),
            })
            .push(GrammarView::Sequence {
                elements: Seq::empty()
                    .push(GrammarView::Ref { name: "TrimParametersGrammar"@, exclude: None })
                    .push(GrammarView::Optional { inner: Box::new(GrammarView::Ref {
                        name: "ExpressionSegment"@,
                        exclude: Some(
                            Box::new(
                                GrammarView::Text {
                                    template: "FROM"@,
                                    becomes: SyntaxKind::Keyword,
                                },
                            ),
                        ),
                    }) })
                    .push(GrammarView::Text { template: "FROM"@, becomes: SyntaxKind::Keyword })
                    .push(GrammarView::Ref { name: "ExpressionSegment"@, exclude: None }),
            })
            .push(GrammarView::Sequence {
                elements: Seq::empty()
                    .push(GrammarView::OneOf {
                        options: Seq::empty()
                            .push(GrammarView::Ref { name: "DatetimeUnitSegment"@, exclude: None })
                            .push(GrammarView::Ref { name: "ExpressionSegment"@, exclude: None }),
                    })
                    .push(GrammarView::Text { template: "FROM"@, becomes: SyntaxKind::Keyword })
                    .push(GrammarView::Ref { name: "ExpressionSegment"@, exclude: None }),
            })
            .push(GrammarView::Sequence {
                elements: Seq::empty()
                    .push(
                        GrammarView::Optional { inner: Box::new(
                            GrammarView::Text {
                                template: "DISTINCT"@,
                                becomes: SyntaxKind::Keyword,
                            },
                        ) },
                    )
                    .push(GrammarView::OneOf {
                        options: Seq::empty()
                            .push(GrammarView::Ref { name: "StarSegment"@, exclude: None })
                            .push(GrammarView::Delimited {
                                options: Seq::empty()
                                    .push(
                                        GrammarView::Ref {
                                            name: "FunctionContentsExpressionGrammar"@,
                                            exclude: None,
                                        },
                                    ),
                                delimiter: Box::new(
                                    GrammarView::Ref { name: "CommaSegment"@, exclude: None },
                                ),
                                min_delimiters: 0,
                                allow_trailing: false,
                            }),
                    }),
            })
            .push(GrammarView::Ref { name: "OrderByClauseSegment"@, exclude: None })
            .push(GrammarView::Sequence {
                elements: Seq::empty()
                    .push(GrammarView::OneOf {
                        options: Seq::empty()
                            .push(GrammarView::Ref { name: "QuotedLiteralSegment"@, exclude: None })
                            .push(
                                GrammarView::Ref {
                                    name: "SingleIdentifierGrammar"@,
                                    exclude: None,
                                },
                            )
                            .push(
                                GrammarView::Ref { name: "ColumnReferenceSegment"@, exclude: None },
                            ),
                    })
                    .push(GrammarView::Text { template: "IN"@, becomes: SyntaxKind::Keyword })
                    .push(GrammarView::OneOf {
                        options: Seq::empty()
                            .push(GrammarView::Ref { name: "QuotedLiteralSegment"@, exclude: None })
                            .push(
                                GrammarView::Ref {
                                    name: "SingleIdentifierGrammar"@,
                                    exclude: None,
                                },
                            )
                            .push(
                                GrammarView::Ref { name: "ColumnReferenceSegment"@, exclude: None },
                            ),
                    }),
            })
            .push(GrammarView::Ref { name: "IndexColumnDefinitionSegment"@, exclude: None }),
        min_times: 0,
        max_times: None,
        max_times_per_element: None,
    }
}

/// The grammar of `FunctionContentsGrammar`.
pub fn function_contents_grammar() -> (r: Grammar)
    ensures
        grammar_view(r) == function_contents_grammar_view(),
{
    Grammar::repeated(
        GrammarList::new()
            .and(Grammar::reference("ExpressionSegment"))
            .and(Grammar::sequence_of(
                GrammarList::new()
                    .and(Grammar::reference("ExpressionSegment"))
                    .and(Grammar::keyword("AS"))
                    .and(Grammar::reference("DatatypeSegment")),
            ))
            .and(Grammar::sequence_of(
                GrammarList::new()
                    .and(Grammar::reference("TrimParametersGrammar"))
                    .and(Grammar::reference_unless(
                        "ExpressionSegment",
                        Grammar::keyword("FROM"),
                    ).optional())
                    .and(Grammar::keyword("FROM"))
                    .and(Grammar::reference("ExpressionSegment")),
            ))
            .and(Grammar::sequence_of(
                GrammarList::new()
                    .and(Grammar::first_of(
                        GrammarList::new()
                            .and(Grammar::reference("DatetimeUnitSegment"))
                            .and(Grammar::reference("ExpressionSegment")),
                    ))
                    .and(Grammar::keyword("FROM"))
                    .and(Grammar::reference("ExpressionSegment")),
            ))
            .and(Grammar::sequence_of(
                GrammarList::new()
                    .and(Grammar::keyword("DISTINCT").optional())
                    .and(Grammar::first_of(
                        GrammarList::new()
                            .and(Grammar::reference("StarSegment"))
                            .and(Grammar::delimited_by(
                                GrammarList::new()
                                    .and(Grammar::reference("FunctionContentsExpressionGrammar")),
                                Grammar::reference("CommaSegment"),
                                0,
                                false,
                            )),
                    )),
            ))
            .and(Grammar::reference("OrderByClauseSegment"))
            .and(Grammar::sequence_of(
                GrammarList::new()
                    .and(Grammar::first_of(
                        GrammarList::new()
                            .and(Grammar::reference("QuotedLiteralSegment"))
                            .and(Grammar::reference("SingleIdentifierGrammar"))
                            .and(Grammar::reference("ColumnReferenceSegment")),
                    ))
                    .and(Grammar::keyword("IN"))
                    .and(Grammar::first_of(
                        GrammarList::new()
                            .and(Grammar::reference("QuotedLiteralSegment"))
                            .and(Grammar::reference("SingleIdentifierGrammar"))
                            .and(Grammar::reference("ColumnReferenceSegment")),
                    )),
            ))
            .and(Grammar::reference("IndexColumnDefinitionSegment")),
        0,
        None,
        None,
    )
}

/// The grammar of `Expression_A_Unary_Operator_Grammar`.
pub open spec fn expression_a_unary_operator_grammar_view() -> GrammarView {
    GrammarView::OneOf {
        options: Seq::empty()
            .push(GrammarView::Ref {
                name: "SignedSegmentGrammar"@,
                exclude: Some(Box::new(GrammarView::Sequence {
                    elements: Seq::empty()
                        .push(
                            GrammarView::Ref {
                                name: "QualifiedNumericLiteralSegment"@,
                                exclude: None,
                            },
                        ),
                })),
            })
            .push(GrammarView::Ref { name: "TildeSegment"@, exclude: None })
            .push(GrammarView::Ref { name: "NotOperatorGrammar"@, exclude: None }),
    }
}

/// The grammar of `Expression_A_Unary_Operator_Grammar`.
pub fn expression_a_unary_operator_grammar() -> (r: Grammar)
    ensures
        grammar_view(r) == expression_a_unary_operator_grammar_view(),
{
    Grammar::first_of(
        GrammarList::new()
            .and(Grammar::reference_unless(
                "SignedSegmentGrammar",
                Grammar::sequence_of(
                    GrammarList::new()
                        .and(Grammar::reference("QualifiedNumericLiteralSegment")),
                ),
            ))
            .and(Grammar::reference("TildeSegment"))
            .and(Grammar::reference("NotOperatorGrammar")),
    )
}

/// The grammar of `IsClauseGrammar`.
pub open spec fn is_clause_grammar_view() -> GrammarView {
    GrammarView::OneOf {
        options: Seq::empty()
            .push(GrammarView::Text { template: "NULL"@, becomes: SyntaxKind::Keyword })
            .push(GrammarView::Ref { name: "BooleanLiteralGrammar"@, exclude: None }),
    }
}

/// The grammar of `IsClauseGrammar`.
pub fn is_clause_grammar() -> (r: Grammar)
    ensures
        grammar_view(r) == is_clause_grammar_view(),
{
    Grammar::first_of(
        GrammarList::new()
            .and(Grammar::keyword("NULL"))
            .and(Grammar::reference("BooleanLiteralGrammar")),
    )
}

/// Binds `BooleanBinaryOperatorGrammar`, `PrimaryKeyGrammar`,
/// `TemporaryTransientGrammar`, `DateTimeLiteralGrammar`,
/// `BaseExpressionElementGrammar`, `AutoIncrementGrammar`,
/// `CommentClauseSegment`, `IntervalExpressionSegment`, `TimeZoneGrammar`,
/// `FetchClauseSegment`, `TrimParametersGrammar`, `LikeGrammar`,
/// `OverlapsClauseSegment`, `MLTableExpressionSegment`,
/// `MergeIntoLiteralGrammar`, `SamplingExpressionSegment`,
/// `OrderByClauseTerminators`, `WhereClauseTerminatorGrammar`,
/// `FromClauseTerminatorGrammar`, `GroupByClauseTerminatorGrammar`,
/// `PostFunctionGrammar`, `IgnoreRespectNullsGrammar`,
/// `SelectClauseTerminatorGrammar`, `FunctionContentsGrammar`,
/// `Expression_A_Unary_Operator_Grammar`, `IsClauseGrammar`.
pub open spec fn define_boolean_binary_operator_grammar_etc_view(
    dialect: DialectView,
) -> DialectView {
    let dialect = with_rule(
        dialect,
        "BooleanBinaryOperatorGrammar"@,
        boolean_binary_operator_grammar_view(),
    );
    let dialect = with_rule(dialect, "PrimaryKeyGrammar"@, primary_key_grammar_view());
    let dialect = with_rule(
        dialect,
        "TemporaryTransientGrammar"@,
        temporary_transient_grammar_view(),
    );
    let dialect = with_rule(dialect, "DateTimeLiteralGrammar"@, date_time_literal_grammar_view());
    let dialect = with_rule(
        dialect,
        "BaseExpressionElementGrammar"@,
        base_expression_element_grammar_view(),
    );
    let dialect = with_rule(dialect, "AutoIncrementGrammar"@, auto_increment_grammar_view());
    let dialect = with_rule(dialect, "CommentClauseSegment"@, comment_clause_segment_view());
    let dialect = with_rule(
        dialect,
        "IntervalExpressionSegment"@,
        interval_expression_segment_view(),
    );
    let dialect = with_rule(dialect, "TimeZoneGrammar"@, time_zone_grammar_view());
    let dialect = with_rule(dialect, "FetchClauseSegment"@, fetch_clause_segment_view());
    let dialect = with_rule(dialect, "TrimParametersGrammar"@, trim_parameters_grammar_view());
    let dialect = with_rule(dialect, "LikeGrammar"@, like_grammar_view());
    let dialect = with_rule(dialect, "OverlapsClauseSegment"@, overlaps_clause_segment_view());
    let dialect = with_rule(
        dialect,
        "MLTableExpressionSegment"@,
        ml_table_expression_segment_view(),
    );
    let dialect = with_rule(dialect, "MergeIntoLiteralGrammar"@, merge_into_literal_grammar_view());
    let dialect = with_rule(
        dialect,
        "SamplingExpressionSegment"@,
        sampling_expression_segment_view(),
    );
    let dialect = with_rule(
        dialect,
        "OrderByClauseTerminators"@,
        order_by_clause_terminators_view(),
    );
    let dialect = with_rule(
        dialect,
        "WhereClauseTerminatorGrammar"@,
        where_clause_terminator_grammar_view(),
    );
    let dialect = with_rule(
        dialect,
        "FromClauseTerminatorGrammar"@,
        from_clause_terminator_grammar_view(),
    );
    let dialect = with_rule(
        dialect,
        "GroupByClauseTerminatorGrammar"@,
        group_by_clause_terminator_grammar_view(),
    );
    let dialect = with_rule(dialect, "PostFunctionGrammar"@, post_function_grammar_view());
    let dialect = with_rule(
        dialect,
        "IgnoreRespectNullsGrammar"@,
        ignore_respect_nulls_grammar_view(),
    );
    let dialect = with_rule(
        dialect,
        "SelectClauseTerminatorGrammar"@,
        select_clause_terminator_grammar_view(),
    );
    let dialect = with_rule(dialect, "FunctionContentsGrammar"@, function_contents_grammar_view());
    let dialect = with_rule(
        dialect,
        "Expression_A_Unary_Operator_Grammar"@,
        expression_a_unary_operator_grammar_view(),
    );
    let dialect = with_rule(dialect, "IsClauseGrammar"@, is_clause_grammar_view());
    dialect
}

/// Binds `BooleanBinaryOperatorGrammar`, `PrimaryKeyGrammar`,
/// `TemporaryTransientGrammar`, `DateTimeLiteralGrammar`,
/// `BaseExpressionElementGrammar`, `AutoIncrementGrammar`,
/// `CommentClauseSegment`, `IntervalExpressionSegment`, `TimeZoneGrammar`,
/// `FetchClauseSegment`, `TrimParametersGrammar`, `LikeGrammar`,
/// `OverlapsClauseSegment`, `MLTableExpressionSegment`,
/// `MergeIntoLiteralGrammar`, `SamplingExpressionSegment`,
/// `OrderByClauseTerminators`, `WhereClauseTerminatorGrammar`,
/// `FromClauseTerminatorGrammar`, `GroupByClauseTerminatorGrammar`,
/// `PostFunctionGrammar`, `IgnoreRespectNullsGrammar`,
/// `SelectClauseTerminatorGrammar`, `FunctionContentsGrammar`,
/// `Expression_A_Unary_Operator_Grammar`, `IsClauseGrammar`.
pub fn define_boolean_binary_operator_grammar_etc(dialect: Dialect) -> (r: Dialect)
    ensures
        r.deep_view() == define_boolean_binary_operator_grammar_etc_view(dialect.deep_view()),
{
    let mut dialect = dialect;
    dialect.define("BooleanBinaryOperatorGrammar", boolean_binary_operator_grammar());
    dialect.define("PrimaryKeyGrammar", primary_key_grammar());
    dialect.define("TemporaryTransientGrammar", temporary_transient_grammar());
    dialect.define("DateTimeLiteralGrammar", date_time_literal_grammar());
    dialect.define("BaseExpressionElementGrammar", base_expression_element_grammar());
    dialect.define("AutoIncrementGrammar", auto_increment_grammar());
    dialect.define("CommentClauseSegment", comment_clause_segment());
    dialect.define("IntervalExpressionSegment", interval_expression_segment());
    dialect.define("TimeZoneGrammar", time_zone_grammar());
    dialect.define("FetchClauseSegment", fetch_clause_segment());
    dialect.define("TrimParametersGrammar", trim_parameters_grammar());
    dialect.define("LikeGrammar", like_grammar());
    dialect.define("OverlapsClauseSegment", overlaps_clause_segment());
    dialect.define("MLTableExpressionSegment", ml_table_expression_segment());
    dialect.define("MergeIntoLiteralGrammar", merge_into_literal_grammar());
    dialect.define("SamplingExpressionSegment", sampling_expression_segment());
    dialect.define("OrderByClauseTerminators", order_by_clause_terminators());
    dialect.define("WhereClauseTerminatorGrammar", where_clause_terminator_grammar());
    dialect.define("FromClauseTerminatorGrammar", from_clause_terminator_grammar());
    dialect.define("GroupByClauseTerminatorGrammar", group_by_clause_terminator_grammar());
    dialect.define("PostFunctionGrammar", post_function_grammar());
    dialect.define("IgnoreRespectNullsGrammar", ignore_respect_nulls_grammar());
    dialect.define("SelectClauseTerminatorGrammar", select_clause_terminator_grammar());
    dialect.define("FunctionContentsGrammar", function_contents_grammar());
    dialect.define("Expression_A_Unary_Operator_Grammar", expression_a_unary_operator_grammar());
    dialect.define("IsClauseGrammar", is_clause_grammar());
    dialect
}

/// The grammar of `SetOperatorSegment`.
pub open spec fn set_operator_segment_view() -> GrammarView {
    GrammarView::Node {
        kind: SyntaxKind::SetOperator,
        inner: Box::new(GrammarView::Excluding {
            inner: Box::new(GrammarView::OneOf {
                options: Seq::empty()
                    .push(GrammarView::Sequence {
                        elements: Seq::empty()
                            .push(
                                GrammarView::Text {
                                    template: "UNION"@,
                                    becomes: SyntaxKind::Keyword,
                                },
                            )
                            .push(GrammarView::Optional { inner: Box::new(GrammarView::OneOf {
                                options: Seq::empty()
                                    .push(
                                        GrammarView::Text {
                                            template: "DISTINCT"@,
                                            becomes: SyntaxKind::Keyword,
                                        },
                                    )
                                    .push(
                                        GrammarView::Text {
                                            template: "ALL"@,
                                            becomes: SyntaxKind::Keyword,
                                        },
                                    ),
                            }) }),
                    })
                    .push(GrammarView::Sequence {
                        elements: Seq::empty()
                            .push(GrammarView::OneOf {
                                options: Seq::empty()
                                    .push(
                                        GrammarView::Text {
                                            template: "INTERSECT"@,
                                            becomes: SyntaxKind::Keyword,
                                        },
                                    )
                                    .push(
                                        GrammarView::Text {
                                            template: "EXCEPT"@,
                                            becomes: SyntaxKind::Keyword,
                                        },
                                    ),
                            })
                            .push(
                                GrammarView::Optional { inner: Box::new(
                                    GrammarView::Text {
                                        template: "ALL"@,
                                        becomes: SyntaxKind::Keyword,
                                    },
                                ) },
                            ),
                    }),
            }),
            exclude: Box::new(GrammarView::Sequence {
                elements: Seq::empty()
                    .push(GrammarView::Text { template: "EXCEPT"@, becomes: SyntaxKind::Keyword })
                    .push(GrammarView::Bracketed {
                        elements: Seq::empty()
                            .push(GrammarView::Anything),
                        bracket_type: "round"@,
                        parse_mode: ParseMode::Strict,
                    }),
            }),
        }),
    }
}

/// The grammar of `SetOperatorSegment`.
pub fn set_operator_segment() -> (r: Grammar)
    ensures
        grammar_view(r) == set_operator_segment_view(),
{
    Grammar::excluding(
        Grammar::first_of(
            GrammarList::new()
                .and(Grammar::sequence_of(
                    GrammarList::new()
                        .and(Grammar::keyword("UNION"))
                        .and(Grammar::first_of(
                            GrammarList::new()
                                .and(Grammar::keyword("DISTINCT"))
                                .and(Grammar::keyword("ALL")),
                        ).optional()),
                ))
                .and(Grammar::sequence_of(
                    GrammarList::new()
                        .and(Grammar::first_of(
                            GrammarList::new()
                                .and(Grammar::keyword("INTERSECT"))
                                .and(Grammar::keyword("EXCEPT")),
                        ))
                        .and(Grammar::keyword("ALL").optional()),
                )),
        ),
        Grammar::sequence_of(
            GrammarList::new()
                .and(Grammar::keyword("EXCEPT"))
                .and(Grammar::bracketed_by(
                    GrammarList::new()
                        .and(Grammar::anything()),
                    "round",
                    ParseMode::Strict,
                )),
        ),
    ).node(SyntaxKind::SetOperator)
}

/// Binds `SetOperatorSegment`.
pub open spec fn define_set_operator_segment_view(dialect: DialectView) -> DialectView {
    with_rule(dialect, "SetOperatorSegment"@, set_operator_segment_view())
}

/// Binds `SetOperatorSegment`.
pub fn define_set_operator_segment(dialect: Dialect) -> (r: Dialect)
    ensures
        r.deep_view() == define_set_operator_segment_view(dialect.deep_view()),
{
    let mut dialect = dialect;
    dialect.define("SetOperatorSegment", set_operator_segment());
    dialect
}

/// The grammar of `DatatypeSegment`.
pub open spec fn datatype_segment_view() -> GrammarView {
    GrammarView::OneOf {
        options: Seq::empty()
            .push(GrammarView::Sequence {
                elements: Seq::empty()
                    .push(GrammarView::Text { template: "DOUBLE"@, becomes: SyntaxKind::Keyword })
                    .push(
                        GrammarView::Text { template: "PRECISION"@, becomes: SyntaxKind::Keyword },
                    ),
            })
            .push(GrammarView::Sequence {
                elements: Seq::empty()
                    .push(GrammarView::Text { template: "UNSIGNED"@, becomes: SyntaxKind::Keyword })
                    .push(GrammarView::Text { template: "BIG"@, becomes: SyntaxKind::Keyword })
                    .push(GrammarView::Text { template: "INT"@, becomes: SyntaxKind::Keyword }),
            })
            .push(GrammarView::Sequence {
                elements: Seq::empty()
                    .push(GrammarView::OneOf {
                        options: Seq::empty()
                            .push(GrammarView::Sequence {
                                elements: Seq::empty()
                                    .push(GrammarView::OneOf {
                                        options: Seq::empty()
                                            .push(
                                                GrammarView::Text {
                                                    template: "VARYING"@,
                                                    becomes: SyntaxKind::Keyword,
                                                },
                                            )
                                            .push(
                                                GrammarView::Text {
                                                    template: "NATIVE"@,
                                                    becomes: SyntaxKind::Keyword,
                                                },
                                            ),
                                    })
                                    .push(GrammarView::OneOf {
                                        options: Seq::empty()
                                            .push(
                                                GrammarView::Text {
                                                    template: "CHARACTER"@,
                                                    becomes: SyntaxKind::Keyword,
                                                },
                                            ),
                                    }),
                            })
                            .push(
                                GrammarView::Ref {
                                    name: "DatatypeIdentifierSegment"@,
                                    exclude: None,
                                },
                            ),
                    })
                    .push(
                        GrammarView::Optional { inner: Box::new(
                            GrammarView::Ref { name: "BracketedArguments"@, exclude: None },
                        ) },
                    ),
            }),
    }
}

/// The grammar of `DatatypeSegment`.
pub fn datatype_segment() -> (r: Grammar)
    ensures
        grammar_view(r) == datatype_segment_view(),
{
    Grammar::first_of(
        GrammarList::new()
            .and(Grammar::sequence_of(
                GrammarList::new()
                    .and(Grammar::keyword("DOUBLE"))
                    .and(Grammar::keyword("PRECISION")),
            ))
            .and(Grammar::sequence_of(
                GrammarList::new()
                    .and(Grammar::keyword("UNSIGNED"))
                    .and(Grammar::keyword("BIG"))
                    .and(Grammar::keyword("INT")),
            ))
            .and(Grammar::sequence_of(
                GrammarList::new()
                    .and(Grammar::first_of(
                        GrammarList::new()
                            .and(Grammar::sequence_of(
                                GrammarList::new()
                                    .and(Grammar::first_of(
                                        GrammarList::new()
                                            .and(Grammar::keyword("VARYING"))
                                            .and(Grammar::keyword("NATIVE")),
                                    ))
                                    .and(Grammar::first_of(
                                        GrammarList::new()
                                            .and(Grammar::keyword("CHARACTER")),
                                    )),
                            ))
                            .and(Grammar::reference("DatatypeIdentifierSegment")),
                    ))
                    .and(Grammar::reference("BracketedArguments").optional()),
            )),
    )
}

/// Replaces the grammar of `DatatypeSegment`.
pub open spec fn replace_datatype_segment_view(
    dialect: DialectView,
) -> Result<DialectView, DialectError> {
    with_replaced(dialect, "DatatypeSegment"@, datatype_segment_view())
}

/// Replaces the grammar of `DatatypeSegment`.
pub fn replace_datatype_segment(dialect: Dialect) -> (r: Result<Dialect, DialectError>)
    ensures
        outcome_view(r) == replace_datatype_segment_view(dialect.deep_view()),
{
    let mut dialect = dialect;
    match dialect.replace_grammar("DatatypeSegment", datatype_segment()) {
        Ok(()) => Ok(dialect),
        Err(e) => Err(e),
    }
}

/// The grammar of `TableEndClauseSegment`.
pub open spec fn table_end_clause_segment_view() -> GrammarView {
    GrammarView::Node {
        kind: SyntaxKind::TableEndClauseSegment,
        inner: Box::new(GrammarView::Delimited {
            options: Seq::empty()
                .push(GrammarView::Sequence {
                    elements: Seq::empty()
                        .push(
                            GrammarView::Text {
                                template: "WITHOUT"@,
                                becomes: SyntaxKind::Keyword,
                            },
                        )
                        .push(
                            GrammarView::Text { template: "ROWID"@, becomes: SyntaxKind::Keyword },
                        ),
                })
                .push(GrammarView::Text { template: "STRICT"@, becomes: SyntaxKind::Keyword }),
            delimiter: Box::new(GrammarView::Ref { name: "CommaSegment"@, exclude: None }),
            min_delimiters: 0,
            allow_trailing: false,
        }),
    }
}

/// The grammar of `TableEndClauseSegment`.
pub fn table_end_clause_segment() -> (r: Grammar)
    ensures
        grammar_view(r) == table_end_clause_segment_view(),
{
    Grammar::delimited_by(
        GrammarList::new()
            .and(Grammar::sequence_of(
                GrammarList::new()
                    .and(Grammar::keyword("WITHOUT"))
                    .and(Grammar::keyword("ROWID")),
            ))
            .and(Grammar::keyword("STRICT")),
        Grammar::reference("CommaSegment"),
        0,
        false,
    ).node(SyntaxKind::TableEndClauseSegment)
}

/// Binds `TableEndClauseSegment`.
pub open spec fn define_table_end_clause_segment_view(dialect: DialectView) -> DialectView {
    with_rule(dialect, "TableEndClauseSegment"@, table_end_clause_segment_view())
}

/// Binds `TableEndClauseSegment`.
pub fn define_table_end_clause_segment(dialect: Dialect) -> (r: Dialect)
    ensures
        r.deep_view() == define_table_end_clause_segment_view(dialect.deep_view()),
{
    let mut dialect = dialect;
    dialect.define("TableEndClauseSegment", table_end_clause_segment());
    dialect
}

/// The grammar of `ValuesClauseSegment`.
pub open spec fn values_clause_segment_view() -> GrammarView {
    GrammarView::Sequence {
        elements: Seq::empty()
            .push(GrammarView::Text { template: "VALUES"@, becomes: SyntaxKind::Keyword })
            .push(GrammarView::Delimited {
                options: Seq::empty()
                    .push(GrammarView::Sequence {
                        elements: Seq::empty()
                            .push(GrammarView::Bracketed {
                                elements: Seq::empty()
                                    .push(GrammarView::Delimited {
                                        options: Seq::empty()
                                            .push(
                                                GrammarView::Text {
                                                    template: "DEFAULT"@,
                                                    becomes: SyntaxKind::Keyword,
                                                },
                                            )
                                            .push(
                                                GrammarView::Ref {
                                                    name: "ExpressionSegment"@,
                                                    exclude: None,
                                                },
                                            ),
                                        delimiter: Box::new(
                                            GrammarView::Ref {
                                                name: "CommaSegment"@,
                                                exclude: None,
                                            },
                                        ),
                                        min_delimiters: 0,
                                        allow_trailing: false,
                                    }),
                                bracket_type: "round"@,
                                parse_mode: ParseMode::Greedy,
                            }),
                    }),
                delimiter: Box::new(GrammarView::Ref { name: "CommaSegment"@, exclude: None }),
                min_delimiters: 0,
                allow_trailing: false,
            }),
    }
}

/// The grammar of `ValuesClauseSegment`.
pub fn values_clause_segment() -> (r: Grammar)
    ensures
        grammar_view(r) == values_clause_segment_view(),
{
    Grammar::sequence_of(
        GrammarList::new()
            .and(Grammar::keyword("VALUES"))
            .and(Grammar::delimited_by(
                GrammarList::new()
                    .and(Grammar::sequence_of(
                        GrammarList::new()
                            .and(Grammar::bracketed_by(
                                GrammarList::new()
                                    .and(Grammar::delimited_by(
                                        GrammarList::new()
                                            .and(Grammar::keyword("DEFAULT"))
                                            .and(Grammar::reference("ExpressionSegment")),
                                        Grammar::reference("CommaSegment"),
                                        0,
                                        false,
                                    )),
                                "round",
                                ParseMode::Greedy,
                            )),
                    )),
                Grammar::reference("CommaSegment"),
                0,
                false,
            )),
    )
}

/// Replaces the grammar of `ValuesClauseSegment`.
pub open spec fn replace_values_clause_segment_view(
    dialect: DialectView,
) -> Result<DialectView, DialectError> {
    with_replaced(dialect, "ValuesClauseSegment"@, values_clause_segment_view())
}

/// Replaces the grammar of `ValuesClauseSegment`.
pub fn replace_values_clause_segment(dialect: Dialect) -> (r: Result<Dialect, DialectError>)
    ensures
        outcome_view(r) == replace_values_clause_segment_view(dialect.deep_view()),
{
    let mut dialect = dialect;
    match dialect.replace_grammar("ValuesClauseSegment", values_clause_segment()) {
        Ok(()) => Ok(dialect),
        Err(e) => Err(e),
    }
}

/// The grammar of `IndexColumnDefinitionSegment`.
pub open spec fn index_column_definition_segment_view() -> GrammarView {
    GrammarView::Node {
        kind: SyntaxKind::IndexColumnDefinition,
        inner: Box::new(GrammarView::Sequence {
            elements: Seq::empty()
                .push(GrammarView::OneOf {
                    options: Seq::empty()
                        .push(GrammarView::Ref { name: "SingleIdentifierGrammar"@, exclude: None })
                        .push(GrammarView::Ref { name: "ExpressionSegment"@, exclude: None }),
                })
                .push(GrammarView::Optional { inner: Box::new(GrammarView::OneOf {
                    options: Seq::empty()
                        .push(GrammarView::Text { template: "ASC"@, becomes: SyntaxKind::Keyword })
                        .push(
                            GrammarView::Text { template: "DESC"@, becomes: SyntaxKind::Keyword },
                        ),
                }) }),
        }),
    }
}

/// The grammar of `IndexColumnDefinitionSegment`.
pub fn index_column_definition_segment() -> (r: Grammar)
    ensures
        grammar_view(r) == index_column_definition_segment_view(),
{
    Grammar::sequence_of(
        GrammarList::new()
            .and(Grammar::first_of(
                GrammarList::new()
                    .and(Grammar::reference("SingleIdentifierGrammar"))
                    .and(Grammar::reference("ExpressionSegment")),
            ))
            .and(Grammar::first_of(
                GrammarList::new()
                    .and(Grammar::keyword("ASC"))
                    .and(Grammar::keyword("DESC")),
            ).optional()),
    ).node(SyntaxKind::IndexColumnDefinition)
}

/// The grammar of `InsertStatementSegment`.
pub open spec fn insert_statement_segment_view() -> GrammarView {
    GrammarView::Node {
        kind: SyntaxKind::InsertStatement,
        inner: Box::new(GrammarView::Sequence {
            elements: Seq::empty()
                .push(GrammarView::OneOf {
                    options: Seq::empty()
                        .push(GrammarView::Sequence {
                            elements: Seq::empty()
                                .push(
                                    GrammarView::Text {
                                        template: "INSERT"@,
                                        becomes: SyntaxKind::Keyword,
                                    },
                                )
                                .push(GrammarView::Optional { inner: Box::new(GrammarView::Sequence {
                                    elements: Seq::empty()
                                        .push(
                                            GrammarView::Text {
                                                template: "OR"@,
                                                becomes: SyntaxKind::Keyword,
                                            },
                                        )
                                        .push(GrammarView::OneOf {
                                            options: Seq::empty()
                                                .push(
                                                    GrammarView::Text {
                                                        template: "ABORT"@,
                                                        becomes: SyntaxKind::Keyword,
                                                    },
                                                )
                                                .push(
                                                    GrammarView::Text {
                                                        template: "FAIL"@,
                                                        becomes: SyntaxKind::Keyword,
                                                    },
                                                )
                                                .push(
                                                    GrammarView::Text {
                                                        template: "IGNORE"@,
                                                        becomes: SyntaxKind::Keyword,
                                                    },
                                                )
                                                .push(
                                                    GrammarView::Text {
                                                        template: "REPLACE"@,
                                                        becomes: SyntaxKind::Keyword,
                                                    },
                                                )
                                                .push(
                                                    GrammarView::Text {
                                                        template: "ROLLBACK"@,
                                                        becomes: SyntaxKind::Keyword,
                                                    },
                                                ),
                                        }),
                                }) }),
                        })
                        .push(
                            GrammarView::Text {
                                template: "REPLACE"@,
                                becomes: SyntaxKind::Keyword,
                            },
                        ),
                })
                .push(GrammarView::Text { template: "INTO"@, becomes: SyntaxKind::Keyword })
                .push(GrammarView::Ref { name: "TableReferenceSegment"@, exclude: None })
                .push(
                    GrammarView::Optional { inner: Box::new(
                        GrammarView::Ref {
                            name: "BracketedColumnReferenceListGrammar"@,
                            exclude: None,
                        },
                    ) },
                )
                .push(GrammarView::OneOf {
                    options: Seq::empty()
                        .push(GrammarView::Ref { name: "ValuesClauseSegment"@, exclude: None })
                        .push(GrammarView::OneOf {
                            options: Seq::empty()
                                .push(GrammarView::Bracketed {
                                    elements: Seq::empty()
                                        .push(
                                            GrammarView::Ref {
                                                name: "SelectableGrammar"@,
                                                exclude: None,
                                            },
                                        ),
                                    bracket_type: "round"@,
                                    parse_mode: ParseMode::Strict,
                                })
                                .push(
                                    GrammarView::Ref { name: "SelectableGrammar"@, exclude: None },
                                ),
                        })
                        .push(GrammarView::Ref { name: "DefaultValuesGrammar"@, exclude: None }),
                }),
        }),
    }
}

/// The grammar of `InsertStatementSegment`.
pub fn insert_statement_segment() -> (r: Grammar)
    ensures
        grammar_view(r) == insert_statement_segment_view(),
{
    Grammar::sequence_of(
        GrammarList::new()
            .and(Grammar::first_of(
                GrammarList::new()
                    .and(Grammar::sequence_of(
                        GrammarList::new()
                            .and(Grammar::keyword("INSERT"))
                            .and(Grammar::sequence_of(
                                GrammarList::new()
                                    .and(Grammar::keyword("OR"))
                                    .and(Grammar::first_of(
                                        GrammarList::new()
                                            .and(Grammar::keyword("ABORT"))
                                            .and(Grammar::keyword("FAIL"))
                                            .and(Grammar::keyword("IGNORE"))
                                            .and(Grammar::keyword("REPLACE"))
                                            .and(Grammar::keyword("ROLLBACK")),
                                    )),
                            ).optional()),
                    ))
                    .and(Grammar::keyword("REPLACE")),
            ))
            .and(Grammar::keyword("INTO"))
            .and(Grammar::reference("TableReferenceSegment"))
            .and(Grammar::reference("BracketedColumnReferenceListGrammar").optional())
            .and(Grammar::first_of(
                GrammarList::new()
                    .and(Grammar::reference("ValuesClauseSegment"))
                    .and(Grammar::first_of(
                        GrammarList::new()
                            .and(Grammar::bracketed_by(
                                GrammarList::new()
                                    .and(Grammar::reference("SelectableGrammar")),
                                "round",
                                ParseMode::Strict,
                            ))
                            .and(Grammar::reference("SelectableGrammar")),
                    ))
                    .and(Grammar::reference("DefaultValuesGrammar")),
            )),
    ).node(SyntaxKind::InsertStatement)
}

/// Binds `IndexColumnDefinitionSegment`, `InsertStatementSegment`.
pub open spec fn define_index_column_definition_segment_etc_view(
    dialect: DialectView,
) -> DialectView {
    let dialect = with_rule(
        dialect,
        "IndexColumnDefinitionSegment"@,
        index_column_definition_segment_view(),
    );
    let dialect = with_rule(dialect, "InsertStatementSegment"@, insert_statement_segment_view());
    dialect
}

/// Binds `IndexColumnDefinitionSegment`, `InsertStatementSegment`.
pub fn define_index_column_definition_segment_etc(dialect: Dialect) -> (r: Dialect)
    ensures
        r.deep_view() == define_index_column_definition_segment_etc_view(dialect.deep_view()),
{
    let mut dialect = dialect;
    dialect.define("IndexColumnDefinitionSegment", index_column_definition_segment());
    dialect.define("InsertStatementSegment", insert_statement_segment());
    dialect
}

/// The grammar of `ColumnConstraintSegment`, made of the grammar `base`.
pub open spec fn column_constraint_segment_view(base: GrammarView) -> GrammarView {
    copied(
        base,
        Seq::empty()
            .push(GrammarView::Optional { inner: Box::new(GrammarView::OneOf {
                options: Seq::empty()
                    .push(
                        GrammarView::Text { template: "DEFERRABLE"@, becomes: SyntaxKind::Keyword },
                    )
                    .push(GrammarView::Sequence {
                        elements: Seq::empty()
                            .push(
                                GrammarView::Text {
                                    template: "NOT"@,
                                    becomes: SyntaxKind::Keyword,
                                },
                            )
                            .push(
                                GrammarView::Text {
                                    template: "DEFERRABLE"@,
                                    becomes: SyntaxKind::Keyword,
                                },
                            ),
                    }),
            }) })
            .push(GrammarView::Optional { inner: Box::new(GrammarView::OneOf {
                options: Seq::empty()
                    .push(GrammarView::Sequence {
                        elements: Seq::empty()
                            .push(
                                GrammarView::Text {
                                    template: "INITIALLY"@,
                                    becomes: SyntaxKind::Keyword,
                                },
                            )
                            .push(
                                GrammarView::Text {
                                    template: "DEFERRED"@,
                                    becomes: SyntaxKind::Keyword,
                                },
                            ),
                    })
                    .push(GrammarView::Sequence {
                        elements: Seq::empty()
                            .push(
                                GrammarView::Text {
                                    template: "INITIALLY"@,
                                    becomes: SyntaxKind::Keyword,
                                },
                            )
                            .push(
                                GrammarView::Text {
                                    template: "IMMEDIATE"@,
                                    becomes: SyntaxKind::Keyword,
                                },
                            ),
                    }),
            }) }),
        None,
    )
}

/// The grammar of `ColumnConstraintSegment`, made of the grammar `base`.
pub fn column_constraint_segment(base: Grammar) -> (r: Grammar)
    ensures
        grammar_view(r) == column_constraint_segment_view(grammar_view(base)),
{
    dyn_cloned(&base).copy(
        GrammarList::new()
            .and(Grammar::first_of(
                GrammarList::new()
                    .and(Grammar::keyword("DEFERRABLE"))
                    .and(Grammar::sequence_of(
                        GrammarList::new()
                            .and(Grammar::keyword("NOT"))
                            .and(Grammar::keyword("DEFERRABLE")),
                    )),
            ).optional())
            .and(Grammar::first_of(
                GrammarList::new()
                    .and(Grammar::sequence_of(
                        GrammarList::new()
                            .and(Grammar::keyword("INITIALLY"))
                            .and(Grammar::keyword("DEFERRED")),
                    ))
                    .and(Grammar::sequence_of(
                        GrammarList::new()
                            .and(Grammar::keyword("INITIALLY"))
                            .and(Grammar::keyword("IMMEDIATE")),
                    )),
            ).optional()).items,
        None,
    )
}

/// Replaces the grammar of `ColumnConstraintSegment`.
pub open spec fn replace_column_constraint_segment_view(
    dialect: DialectView,
) -> Result<DialectView, DialectError> {
    match known(node_grammar(dialect.library, "ColumnConstraintSegment"@)) {
        Ok(base) => with_replaced(
            dialect,
            "ColumnConstraintSegment"@,
            column_constraint_segment_view(base),
        ),
        Err(e) => Err(e),
    }
}

/// Replaces the grammar of `ColumnConstraintSegment`.
pub fn replace_column_constraint_segment(dialect: Dialect) -> (r: Result<Dialect, DialectError>)
    ensures
        outcome_view(r) == replace_column_constraint_segment_view(dialect.deep_view()),
{
    let mut dialect = dialect;
    let base = match dialect.match_grammar("ColumnConstraintSegment") {
        Some(base) => base,
        None => {
            return Err(DialectError::UnknownRule);
        },
    };
    match dialect.replace_grammar("ColumnConstraintSegment", column_constraint_segment(base)) {
        Ok(()) => Ok(dialect),
        Err(e) => Err(e),
    }
}

/// The grammar of `TableConstraintSegment`.
pub open spec fn table_constraint_segment_view() -> GrammarView {
    GrammarView::Sequence {
        elements: Seq::empty()
            .push(GrammarView::Optional { inner: Box::new(GrammarView::Sequence {
                elements: Seq::empty()
                    .push(
                        GrammarView::Text { template: "CONSTRAINT"@, becomes: SyntaxKind::Keyword },
                    )
                    .push(GrammarView::Ref { name: "ObjectReferenceSegment"@, exclude: None }),
            }) })
            .push(GrammarView::OneOf {
                options: Seq::empty()
                    .push(GrammarView::Sequence {
                        elements: Seq::empty()
                            .push(
                                GrammarView::Text {
                                    template: "CHECK"@,
                                    becomes: SyntaxKind::Keyword,
                                },
                            )
                            .push(GrammarView::Bracketed {
                                elements: Seq::empty()
                                    .push(
                                        GrammarView::Ref {
                                            name: "ExpressionSegment"@,
                                            exclude: None,
                                        },
                                    ),
                                bracket_type: "round"@,
                                parse_mode: ParseMode::Strict,
                            }),
                    })
                    .push(GrammarView::Sequence {
                        elements: Seq::empty()
                            .push(
                                GrammarView::Text {
                                    template: "UNIQUE"@,
                                    becomes: SyntaxKind::Keyword,
                                },
                            )
                            .push(
                                GrammarView::Ref {
                                    name: "BracketedColumnReferenceListGrammar"@,
                                    exclude: None,
                                },
                            ),
                    })
                    .push(GrammarView::Sequence {
                        elements: Seq::empty()
                            .push(GrammarView::Ref { name: "PrimaryKeyGrammar"@, exclude: None })
                            .push(
                                GrammarView::Ref {
                                    name: "BracketedColumnReferenceListGrammar"@,
                                    exclude: None,
                                },
                            ),
                    })
                    .push(GrammarView::Sequence {
                        elements: Seq::empty()
                            .push(GrammarView::Ref { name: "ForeignKeyGrammar"@, exclude: None })
                            .push(
                                GrammarView::Ref {
                                    name: "BracketedColumnReferenceListGrammar"@,
                                    exclude: None,
                                },
                            )
                            .push(
                                GrammarView::Ref {
                                    name: "ReferenceDefinitionGrammar"@,
                                    exclude: None,
                                },
                            ),
                    }),
            })
            .push(GrammarView::Optional { inner: Box::new(GrammarView::OneOf {
                options: Seq::empty()
                    .push(
                        GrammarView::Text { template: "DEFERRABLE"@, becomes: SyntaxKind::Keyword },
                    )
                    .push(GrammarView::Sequence {
                        elements: Seq::empty()
                            .push(
                                GrammarView::Text {
                                    template: "NOT"@,
                                    becomes: SyntaxKind::Keyword,
                                },
                            )
                            .push(
                                GrammarView::Text {
                                    template: "DEFERRABLE"@,
                                    becomes: SyntaxKind::Keyword,
                                },
                            ),
                    }),
            }) })
            .push(GrammarView::Optional { inner: Box::new(GrammarView::OneOf {
                options: Seq::empty()
                    .push(GrammarView::Sequence {
                        elements: Seq::empty()
                            .push(
                                GrammarView::Text {
                                    template: "INITIALLY"@,
                                    becomes: SyntaxKind::Keyword,
                                },
                            )
                            .push(
                                GrammarView::Text {
                                    template: "DEFERRED"@,
                                    becomes: SyntaxKind::Keyword,
                                },
                            ),
                    })
                    .push(GrammarView::Sequence {
                        elements: Seq::empty()
                            .push(
                                GrammarView::Text {
                                    template: "INITIALLY"@,
                                    becomes: SyntaxKind::Keyword,
                                },
                            )
                            .push(
                                GrammarView::Text {
                                    template: "IMMEDIATE"@,
                                    becomes: SyntaxKind::Keyword,
                                },
                            ),
                    }),
            }) }),
    }
}

/// The grammar of `TableConstraintSegment`.
pub fn table_constraint_segment() -> (r: Grammar)
    ensures
        grammar_view(r) == table_constraint_segment_view(),
{
    Grammar::sequence_of(
        GrammarList::new()
            .and(Grammar::sequence_of(
                GrammarList::new()
                    .and(Grammar::keyword("CONSTRAINT"))
                    .and(Grammar::reference("ObjectReferenceSegment")),
            ).optional())
            .and(Grammar::first_of(
                GrammarList::new()
                    .and(Grammar::sequence_of(
                        GrammarList::new()
                            .and(Grammar::keyword("CHECK"))
                            .and(Grammar::bracketed_by(
                                GrammarList::new()
                                    .and(Grammar::reference("ExpressionSegment")),
                                "round",
                                ParseMode::Strict,
                            )),
                    ))
                    .and(Grammar::sequence_of(
                        GrammarList::new()
                            .and(Grammar::keyword("UNIQUE"))
                            .and(Grammar::reference("BracketedColumnReferenceListGrammar")),
                    ))
                    .and(Grammar::sequence_of(
                        GrammarList::new()
                            .and(Grammar::reference("PrimaryKeyGrammar"))
                            .and(Grammar::reference("BracketedColumnReferenceListGrammar")),
                    ))
                    .and(Grammar::sequence_of(
                        GrammarList::new()
                            .and(Grammar::reference("ForeignKeyGrammar"))
                            .and(Grammar::reference("BracketedColumnReferenceListGrammar"))
                            .and(Grammar::reference("ReferenceDefinitionGrammar")),
                    )),
            ))
            .and(Grammar::first_of(
                GrammarList::new()
                    .and(Grammar::keyword("DEFERRABLE"))
                    .and(Grammar::sequence_of(
                        GrammarList::new()
                            .and(Grammar::keyword("NOT"))
                            .and(Grammar::keyword("DEFERRABLE")),
                    )),
            ).optional())
            .and(Grammar::first_of(
                GrammarList::new()
                    .and(Grammar::sequence_of(
                        GrammarList::new()
                            .and(Grammar::keyword("INITIALLY"))
                            .and(Grammar::keyword("DEFERRED")),
                    ))
                    .and(Grammar::sequence_of(
                        GrammarList::new()
                            .and(Grammar::keyword("INITIALLY"))
                            .and(Grammar::keyword("IMMEDIATE")),
                    )),
            ).optional()),
    )
}

/// Replaces the grammar of `TableConstraintSegment`.
pub open spec fn replace_table_constraint_segment_view(
    dialect: DialectView,
) -> Result<DialectView, DialectError> {
    with_replaced(dialect, "TableConstraintSegment"@, table_constraint_segment_view())
}

/// Replaces the grammar of `TableConstraintSegment`.
pub fn replace_table_constraint_segment(dialect: Dialect) -> (r: Result<Dialect, DialectError>)
    ensures
        outcome_view(r) == replace_table_constraint_segment_view(dialect.deep_view()),
{
    let mut dialect = dialect;
    match dialect.replace_grammar("TableConstraintSegment", table_constraint_segment()) {
        Ok(()) => Ok(dialect),
        Err(e) => Err(e),
    }
}

/// The grammar of `TransactionStatementSegment`.
pub open spec fn transaction_statement_segment_view() -> GrammarView {
    GrammarView::Sequence {
        elements: Seq::empty()
            .push(GrammarView::OneOf {
                options: Seq::empty()
                    .push(GrammarView::Text { template: "BEGIN"@, becomes: SyntaxKind::Keyword })
                    .push(GrammarView::Text { template: "COMMIT"@, becomes: SyntaxKind::Keyword })
                    .push(GrammarView::Text { template: "ROLLBACK"@, becomes: SyntaxKind::Keyword })
                    .push(GrammarView::Text { template: "END"@, becomes: SyntaxKind::Keyword }),
            })
            .push(GrammarView::Optional { inner: Box::new(GrammarView::OneOf {
                options: Seq::empty()
                    .push(
                        GrammarView::Text {
                            template: "TRANSACTION"@,
                            becomes: SyntaxKind::Keyword,
                        },
                    ),
            }) })
            .push(GrammarView::Optional { inner: Box::new(GrammarView::Sequence {
                elements: Seq::empty()
                    .push(GrammarView::Text { template: "TO"@, becomes: SyntaxKind::Keyword })
                    .push(
                        GrammarView::Text { template: "SAVEPOINT"@, becomes: SyntaxKind::Keyword },
                    )
                    .push(GrammarView::Ref { name: "ObjectReferenceSegment"@, exclude: None }),
            }) }),
    }
}

/// The grammar of `TransactionStatementSegment`.
pub fn transaction_statement_segment() -> (r: Grammar)
    ensures
        grammar_view(r) == transaction_statement_segment_view(),
{
    Grammar::sequence_of(
        GrammarList::new()
            .and(Grammar::first_of(
                GrammarList::new()
                    .and(Grammar::keyword("BEGIN"))
                    .and(Grammar::keyword("COMMIT"))
                    .and(Grammar::keyword("ROLLBACK"))
                    .and(Grammar::keyword("END")),
            ))
            .and(Grammar::first_of(
                GrammarList::new()
                    .and(Grammar::keyword("TRANSACTION")),
            ).optional())
            .and(Grammar::sequence_of(
                GrammarList::new()
                    .and(Grammar::keyword("TO"))
                    .and(Grammar::keyword("SAVEPOINT"))
                    .and(Grammar::reference("ObjectReferenceSegment")),
            ).optional()),
    )
}

/// Replaces the grammar of `TransactionStatementSegment`.
pub open spec fn replace_transaction_statement_segment_view(
    dialect: DialectView,
) -> Result<DialectView, DialectError> {
    with_replaced(dialect, "TransactionStatementSegment"@, transaction_statement_segment_view())
}

/// Replaces the grammar of `TransactionStatementSegment`.
pub fn replace_transaction_statement_segment(dialect: Dialect) -> (r: Result<Dialect, DialectError>)
    ensures
        outcome_view(r) == replace_transaction_statement_segment_view(dialect.deep_view()),
{
    let mut dialect = dialect;
    match dialect.replace_grammar("TransactionStatementSegment", transaction_statement_segment()) {
        Ok(()) => Ok(dialect),
        Err(e) => Err(e),
    }
}

/// The grammar of `PragmaReferenceSegment`, made of the grammar `base`.
pub open spec fn pragma_reference_segment_view(base: GrammarView) -> GrammarView {
    GrammarView::Node {
        kind: SyntaxKind::PragmaReference,
        inner: Box::new(base),
    }
}

/// The grammar of `PragmaReferenceSegment`, made of the grammar `base`.
pub fn pragma_reference_segment(base: Grammar) -> (r: Grammar)
    ensures
        grammar_view(r) == pragma_reference_segment_view(grammar_view(base)),
{
    base.node(SyntaxKind::PragmaReference)
}

/// Binds `PragmaReferenceSegment`.
pub open spec fn define_pragma_reference_segment_view(
    dialect: DialectView,
) -> Result<DialectView, DialectError> {
    match known(node_grammar(dialect.library, "ObjectReferenceSegment"@)) {
        Err(e) => Err(e),
        Ok(base) => {
            let dialect = with_rule(
                dialect,
                "PragmaReferenceSegment"@,
                pragma_reference_segment_view(base),
            );
            Ok(dialect)
        },
    }
}

/// Binds `PragmaReferenceSegment`.
pub fn define_pragma_reference_segment(dialect: Dialect) -> (r: Result<Dialect, DialectError>)
    ensures
        outcome_view(r) == define_pragma_reference_segment_view(dialect.deep_view()),
{
    let mut dialect = dialect;
    let base = match dialect.match_grammar("ObjectReferenceSegment") {
        Some(base) => base,
        None => {
            return Err(DialectError::UnknownRule);
        },
    };
    dialect.define("PragmaReferenceSegment", pragma_reference_segment(base));
    Ok(dialect)
}

/// The grammar of `PragmaStatementSegment`.
pub open spec fn pragma_statement_segment_view() -> GrammarView {
    GrammarView::Node {
        kind: SyntaxKind::PragmaStatement,
        inner: Box::new(GrammarView::Sequence {
            elements: Seq::empty()
                .push(GrammarView::Text { template: "PRAGMA"@, becomes: SyntaxKind::Keyword })
                .push(GrammarView::Ref { name: "PragmaReferenceSegment"@, exclude: None })
                .push(GrammarView::Optional { inner: Box::new(GrammarView::Bracketed {
                    elements: Seq::empty()
                        .push(GrammarView::OneOf {
                            options: Seq::empty()
                                .push(GrammarView::Ref { name: "LiteralGrammar"@, exclude: None })
                                .push(
                                    GrammarView::Ref {
                                        name: "BooleanLiteralGrammar"@,
                                        exclude: None,
                                    },
                                )
                                .push(
                                    GrammarView::Text {
                                        template: "YES"@,
                                        becomes: SyntaxKind::Keyword,
                                    },
                                )
                                .push(
                                    GrammarView::Text {
                                        template: "NO"@,
                                        becomes: SyntaxKind::Keyword,
                                    },
                                )
                                .push(
                                    GrammarView::Text {
                                        template: "ON"@,
                                        becomes: SyntaxKind::Keyword,
                                    },
                                )
                                .push(
                                    GrammarView::Text {
                                        template: "OFF"@,
                                        becomes: SyntaxKind::Keyword,
                                    },
                                )
                                .push(
                                    GrammarView::Text {
                                        template: "NONE"@,
                                        becomes: SyntaxKind::Keyword,
                                    },
                                )
                                .push(
                                    GrammarView::Text {
                                        template: "FULL"@,
                                        becomes: SyntaxKind::Keyword,
                                    },
                                )
                                .push(
                                    GrammarView::Text {
                                        template: "INCREMENTAL"@,
                                        becomes: SyntaxKind::Keyword,
                                    },
                                )
                                .push(
                                    GrammarView::Text {
                                        template: "DELETE"@,
                                        becomes: SyntaxKind::Keyword,
                                    },
                                )
                                .push(
                                    GrammarView::Text {
                                        template: "TRUNCATE"@,
                                        becomes: SyntaxKind::Keyword,
                                    },
                                )
                                .push(
                                    GrammarView::Text {
                                        template: "PERSIST"@,
                                        becomes: SyntaxKind::Keyword,
                                    },
                                )
                                .push(
                                    GrammarView::Text {
                                        template: "MEMORY"@,
                                        becomes: SyntaxKind::Keyword,
                                    },
                                )
                                .push(
                                    GrammarView::Text {
                                        template: "WAL"@,
                                        becomes: SyntaxKind::Keyword,
                                    },
                                )
                                .push(
                                    GrammarView::Text {
                                        template: "NORMAL"@,
                                        becomes: SyntaxKind::Keyword,
                                    },
                                )
                                .push(
                                    GrammarView::Text {
                                        template: "EXCLUSIVE"@,
                                        becomes: SyntaxKind::Keyword,
                                    },
                                )
                                .push(
                                    GrammarView::Text {
                                        template: "FAST"@,
                                        becomes: SyntaxKind::Keyword,
                                    },
                                )
                                .push(
                                    GrammarView::Text {
                                        template: "EXTRA"@,
                                        becomes: SyntaxKind::Keyword,
                                    },
                                )
                                .push(
                                    GrammarView::Text {
                                        template: "DEFAULT"@,
                                        becomes: SyntaxKind::Keyword,
                                    },
                                )
                                .push(
                                    GrammarView::Text {
                                        template: "FILE"@,
                                        becomes: SyntaxKind::Keyword,
                                    },
                                )
                                .push(
                                    GrammarView::Text {
                                        template: "PASSIVE"@,
                                        becomes: SyntaxKind::Keyword,
                                    },
                                )
                                .push(
                                    GrammarView::Text {
                                        template: "RESTART"@,
                                        becomes: SyntaxKind::Keyword,
                                    },
                                )
                                .push(
                                    GrammarView::Text {
                                        template: "RESET"@,
                                        becomes: SyntaxKind::Keyword,
                                    },
                                ),
                        }),
                    bracket_type: "round"@,
                    parse_mode: ParseMode::Strict,
                }) })
                .push(GrammarView::Optional { inner: Box::new(GrammarView::Sequence {
                    elements: Seq::empty()
                        .push(GrammarView::Ref { name: "EqualsSegment"@, exclude: None })
                        .push(GrammarView::OneOf {
                            options: Seq::empty()
                                .push(GrammarView::Bracketed {
                                    elements: Seq::empty()
                                        .push(GrammarView::OneOf {
                                            options: Seq::empty()
                                                .push(
                                                    GrammarView::Ref {
                                                        name: "LiteralGrammar"@,
                                                        exclude: None,
                                                    },
                                                )
                                                .push(
                                                    GrammarView::Ref {
                                                        name: "BooleanLiteralGrammar"@,
                                                        exclude: None,
                                                    },
                                                )
                                                .push(
                                                    GrammarView::Text {
                                                        template: "YES"@,
                                                        becomes: SyntaxKind::Keyword,
                                                    },
                                                )
                                                .push(
                                                    GrammarView::Text {
                                                        template: "NO"@,
                                                        becomes: SyntaxKind::Keyword,
                                                    },
                                                )
                                                .push(
                                                    GrammarView::Text {
                                                        template: "ON"@,
                                                        becomes: SyntaxKind::Keyword,
                                                    },
                                                )
                                                .push(
                                                    GrammarView::Text {
                                                        template: "OFF"@,
                                                        becomes: SyntaxKind::Keyword,
                                                    },
                                                )
                                                .push(
                                                    GrammarView::Text {
                                                        template: "NONE"@,
                                                        becomes: SyntaxKind::Keyword,
                                                    },
                                                )
                                                .push(
                                                    GrammarView::Text {
                                                        template: "FULL"@,
                                                        becomes: SyntaxKind::Keyword,
                                                    },
                                                )
                                                .push(
                                                    GrammarView::Text {
                                                        template: "INCREMENTAL"@,
                                                        becomes: SyntaxKind::Keyword,
                                                    },
                                                )
                                                .push(
                                                    GrammarView::Text {
                                                        template: "DELETE"@,
                                                        becomes: SyntaxKind::Keyword,
                                                    },
                                                )
                                                .push(
                                                    GrammarView::Text {
                                                        template: "TRUNCATE"@,
                                                        becomes: SyntaxKind::Keyword,
                                                    },
                                                )
                                                .push(
                                                    GrammarView::Text {
                                                        template: "PERSIST"@,
                                                        becomes: SyntaxKind::Keyword,
                                                    },
                                                )
                                                .push(
                                                    GrammarView::Text {
                                                        template: "MEMORY"@,
                                                        becomes: SyntaxKind::Keyword,
                                                    },
                                                )
                                                .push(
                                                    GrammarView::Text {
                                                        template: "WAL"@,
                                                        becomes: SyntaxKind::Keyword,
                                                    },
                                                )
                                                .push(
                                                    GrammarView::Text {
                                                        template: "NORMAL"@,
                                                        becomes: SyntaxKind::Keyword,
                                                    },
                                                )
                                                .push(
                                                    GrammarView::Text {
                                                        template: "EXCLUSIVE"@,
                                                        becomes: SyntaxKind::Keyword,
                                                    },
                                                )
                                                .push(
                                                    GrammarView::Text {
                                                        template: "FAST"@,
                                                        becomes: SyntaxKind::Keyword,
                                                    },
                                                )
                                                .push(
                                                    GrammarView::Text {
                                                        template: "EXTRA"@,
                                                        becomes: SyntaxKind::Keyword,
                                                    },
                                                )
                                                .push(
                                                    GrammarView::Text {
                                                        template: "DEFAULT"@,
                                                        becomes: SyntaxKind::Keyword,
                                                    },
                                                )
                                                .push(
                                                    GrammarView::Text {
                                                        template: "FILE"@,
                                                        becomes: SyntaxKind::Keyword,
                                                    },
                                                )
                                                .push(
                                                    GrammarView::Text {
                                                        template: "PASSIVE"@,
                                                        becomes: SyntaxKind::Keyword,
                                                    },
                                                )
                                                .push(
                                                    GrammarView::Text {
                                                        template: "RESTART"@,
                                                        becomes: SyntaxKind::Keyword,
                                                    },
                                                )
                                                .push(
                                                    GrammarView::Text {
                                                        template: "RESET"@,
                                                        becomes: SyntaxKind::Keyword,
                                                    },
                                                ),
                                        }),
                                    bracket_type: "round"@,
                                    parse_mode: ParseMode::Strict,
                                })
                                .push(GrammarView::OneOf {
                                    options: Seq::empty()
                                        .push(
                                            GrammarView::Ref {
                                                name: "LiteralGrammar"@,
                                                exclude: None,
                                            },
                                        )
                                        .push(
                                            GrammarView::Ref {
                                                name: "BooleanLiteralGrammar"@,
                                                exclude: None,
                                            },
                                        )
                                        .push(
                                            GrammarView::Text {
                                                template: "YES"@,
                                                becomes: SyntaxKind::Keyword,
                                            },
                                        )
                                        .push(
                                            GrammarView::Text {
                                                template: "NO"@,
                                                becomes: SyntaxKind::Keyword,
                                            },
                                        )
                                        .push(
                                            GrammarView::Text {
                                                template: "ON"@,
                                                becomes: SyntaxKind::Keyword,
                                            },
                                        )
                                        .push(
                                            GrammarView::Text {
                                                template: "OFF"@,
                                                becomes: SyntaxKind::Keyword,
                                            },
                                        )
                                        .push(
                                            GrammarView::Text {
                                                template: "NONE"@,
                                                becomes: SyntaxKind::Keyword,
                                            },
                                        )
                                        .push(
                                            GrammarView::Text {
                                                template: "FULL"@,
                                                becomes: SyntaxKind::Keyword,
                                            },
                                        )
                                        .push(
                                            GrammarView::Text {
                                                template: "INCREMENTAL"@,
                                                becomes: SyntaxKind::Keyword,
                                            },
                                        )
                                        .push(
                                            GrammarView::Text {
                                                template: "DELETE"@,
                                                becomes: SyntaxKind::Keyword,
                                            },
                                        )
                                        .push(
                                            GrammarView::Text {
                                                template: "TRUNCATE"@,
                                                becomes: SyntaxKind::Keyword,
                                            },
                                        )
                                        .push(
                                            GrammarView::Text {
                                                template: "PERSIST"@,
                                                becomes: SyntaxKind::Keyword,
                                            },
                                        )
                                        .push(
                                            GrammarView::Text {
                                                template: "MEMORY"@,
                                                becomes: SyntaxKind::Keyword,
                                            },
                                        )
                                        .push(
                                            GrammarView::Text {
                                                template: "WAL"@,
                                                becomes: SyntaxKind::Keyword,
                                            },
                                        )
                                        .push(
                                            GrammarView::Text {
                                                template: "NORMAL"@,
                                                becomes: SyntaxKind::Keyword,
                                            },
                                        )
                                        .push(
                                            GrammarView::Text {
                                                template: "EXCLUSIVE"@,
                                                becomes: SyntaxKind::Keyword,
                                            },
                                        )
                                        .push(
                                            GrammarView::Text {
                                                template: "FAST"@,
                                                becomes: SyntaxKind::Keyword,
                                            },
                                        )
                                        .push(
                                            GrammarView::Text {
                                                template: "EXTRA"@,
                                                becomes: SyntaxKind::Keyword,
                                            },
                                        )
                                        .push(
                                            GrammarView::Text {
                                                template: "DEFAULT"@,
                                                becomes: SyntaxKind::Keyword,
                                            },
                                        )
                                        .push(
                                            GrammarView::Text {
                                                template: "FILE"@,
                                                becomes: SyntaxKind::Keyword,
                                            },
                                        )
                                        .push(
                                            GrammarView::Text {
                                                template: "PASSIVE"@,
                                                becomes: SyntaxKind::Keyword,
                                            },
                                        )
                                        .push(
                                            GrammarView::Text {
                                                template: "RESTART"@,
                                                becomes: SyntaxKind::Keyword,
                                            },
                                        )
                                        .push(
                                            GrammarView::Text {
                                                template: "RESET"@,
                                                becomes: SyntaxKind::Keyword,
                                            },
                                        ),
                                }),
                        }),
                }) }),
        }),
    }
}

/// The grammar of `PragmaStatementSegment`.
pub fn pragma_statement_segment() -> (r: Grammar)
    ensures
        grammar_view(r) == pragma_statement_segment_view(),
{
    Grammar::sequence_of(
        GrammarList::new()
            .and(Grammar::keyword("PRAGMA"))
            .and(Grammar::reference("PragmaReferenceSegment"))
            .and(Grammar::bracketed_by(
                GrammarList::new()
                    .and(Grammar::first_of(
                        GrammarList::new()
                            .and(Grammar::reference("LiteralGrammar"))
                            .and(Grammar::reference("BooleanLiteralGrammar"))
                            .and(Grammar::keyword("YES"))
                            .and(Grammar::keyword("NO"))
                            .and(Grammar::keyword("ON"))
                            .and(Grammar::keyword("OFF"))
                            .and(Grammar::keyword("NONE"))
                            .and(Grammar::keyword("FULL"))
                            .and(Grammar::keyword("INCREMENTAL"))
                            .and(Grammar::keyword("DELETE"))
                            .and(Grammar::keyword("TRUNCATE"))
                            .and(Grammar::keyword("PERSIST"))
                            .and(Grammar::keyword("MEMORY"))
                            .and(Grammar::keyword("WAL"))
                            .and(Grammar::keyword("NORMAL"))
                            .and(Grammar::keyword("EXCLUSIVE"))
                            .and(Grammar::keyword("FAST"))
                            .and(Grammar::keyword("EXTRA"))
                            .and(Grammar::keyword("DEFAULT"))
                            .and(Grammar::keyword("FILE"))
                            .and(Grammar::keyword("PASSIVE"))
                            .and(Grammar::keyword("RESTART"))
                            .and(Grammar::keyword("RESET")),
                    )),
                "round",
                ParseMode::Strict,
            ).optional())
            .and(Grammar::sequence_of(
                GrammarList::new()
                    .and(Grammar::reference("EqualsSegment"))
                    .and(Grammar::first_of(
                        GrammarList::new()
                            .and(Grammar::bracketed_by(
                                GrammarList::new()
                                    .and(Grammar::first_of(
                                        GrammarList::new()
                                            .and(Grammar::reference("LiteralGrammar"))
                                            .and(Grammar::reference("BooleanLiteralGrammar"))
                                            .and(Grammar::keyword("YES"))
                                            .and(Grammar::keyword("NO"))
                                            .and(Grammar::keyword("ON"))
                                            .and(Grammar::keyword("OFF"))
                                            .and(Grammar::keyword("NONE"))
                                            .and(Grammar::keyword("FULL"))
                                            .and(Grammar::keyword("INCREMENTAL"))
                                            .and(Grammar::keyword("DELETE"))
                                            .and(Grammar::keyword("TRUNCATE"))
                                            .and(Grammar::keyword("PERSIST"))
                                            .and(Grammar::keyword("MEMORY"))
                                            .and(Grammar::keyword("WAL"))
                                            .and(Grammar::keyword("NORMAL"))
                                            .and(Grammar::keyword("EXCLUSIVE"))
                                            .and(Grammar::keyword("FAST"))
                                            .and(Grammar::keyword("EXTRA"))
                                            .and(Grammar::keyword("DEFAULT"))
                                            .and(Grammar::keyword("FILE"))
                                            .and(Grammar::keyword("PASSIVE"))
                                            .and(Grammar::keyword("RESTART"))
                                            .and(Grammar::keyword("RESET")),
                                    )),
                                "round",
                                ParseMode::Strict,
                            ))
                            .and(Grammar::first_of(
                                GrammarList::new()
                                    .and(Grammar::reference("LiteralGrammar"))
                                    .and(Grammar::reference("BooleanLiteralGrammar"))
                                    .and(Grammar::keyword("YES"))
                                    .and(Grammar::keyword("NO"))
                                    .and(Grammar::keyword("ON"))
                                    .and(Grammar::keyword("OFF"))
                                    .and(Grammar::keyword("NONE"))
                                    .and(Grammar::keyword("FULL"))
                                    .and(Grammar::keyword("INCREMENTAL"))
                                    .and(Grammar::keyword("DELETE"))
                                    .and(Grammar::keyword("TRUNCATE"))
                                    .and(Grammar::keyword("PERSIST"))
                                    .and(Grammar::keyword("MEMORY"))
                                    .and(Grammar::keyword("WAL"))
                                    .and(Grammar::keyword("NORMAL"))
                                    .and(Grammar::keyword("EXCLUSIVE"))
                                    .and(Grammar::keyword("FAST"))
                                    .and(Grammar::keyword("EXTRA"))
                                    .and(Grammar::keyword("DEFAULT"))
                                    .and(Grammar::keyword("FILE"))
                                    .and(Grammar::keyword("PASSIVE"))
                                    .and(Grammar::keyword("RESTART"))
                                    .and(Grammar::keyword("RESET")),
                            )),
                    )),
            ).optional()),
    ).node(SyntaxKind::PragmaStatement)
}

/// Binds `PragmaStatementSegment`.
pub open spec fn define_pragma_statement_segment_view(dialect: DialectView) -> DialectView {
    with_rule(dialect, "PragmaStatementSegment"@, pragma_statement_segment_view())
}

/// Binds `PragmaStatementSegment`.
pub fn define_pragma_statement_segment(dialect: Dialect) -> (r: Dialect)
    ensures
        r.deep_view() == define_pragma_statement_segment_view(dialect.deep_view()),
{
    let mut dialect = dialect;
    dialect.define("PragmaStatementSegment", pragma_statement_segment());
    dialect
}

/// The grammar of `CreateTriggerStatementSegment`.
pub open spec fn create_trigger_statement_segment_view() -> GrammarView {
    GrammarView::Sequence {
        elements: Seq::empty()
            .push(GrammarView::Text { template: "CREATE"@, becomes: SyntaxKind::Keyword })
            .push(
                GrammarView::Optional { inner: Box::new(
                    GrammarView::Ref { name: "TemporaryGrammar"@, exclude: None },
                ) },
            )
            .push(GrammarView::Text { template: "TRIGGER"@, becomes: SyntaxKind::Keyword })
            .push(
                GrammarView::Optional { inner: Box::new(
                    GrammarView::Ref { name: "IfNotExistsGrammar"@, exclude: None },
                ) },
            )
            .push(GrammarView::Ref { name: "TriggerReferenceSegment"@, exclude: None })
            .push(GrammarView::Optional { inner: Box::new(GrammarView::OneOf {
                options: Seq::empty()
                    .push(GrammarView::Text { template: "BEFORE"@, becomes: SyntaxKind::Keyword })
                    .push(GrammarView::Text { template: "AFTER"@, becomes: SyntaxKind::Keyword })
                    .push(GrammarView::Sequence {
                        elements: Seq::empty()
                            .push(
                                GrammarView::Text {
                                    template: "INSTEAD"@,
                                    becomes: SyntaxKind::Keyword,
                                },
                            )
                            .push(
                                GrammarView::Text { template: "OF"@, becomes: SyntaxKind::Keyword },
                            ),
                    }),
            }) })
            .push(GrammarView::OneOf {
                options: Seq::empty()
                    .push(GrammarView::Text { template: "DELETE"@, becomes: SyntaxKind::Keyword })
                    .push(GrammarView::Text { template: "INSERT"@, becomes: SyntaxKind::Keyword })
                    .push(GrammarView::Sequence {
                        elements: Seq::empty()
                            .push(
                                GrammarView::Text {
                                    template: "UPDATE"@,
                                    becomes: SyntaxKind::Keyword,
                                },
                            )
                            .push(GrammarView::Optional { inner: Box::new(GrammarView::Sequence {
                                elements: Seq::empty()
                                    .push(
                                        GrammarView::Text {
                                            template: "OF"@,
                                            becomes: SyntaxKind::Keyword,
                                        },
                                    )
                                    .push(GrammarView::Delimited {
                                        options: Seq::empty()
                                            .push(
                                                GrammarView::Ref {
                                                    name: "ColumnReferenceSegment"@,
                                                    exclude: None,
                                                },
                                            ),
                                        delimiter: Box::new(
                                            GrammarView::Ref {
                                                name: "CommaSegment"@,
                                                exclude: None,
                                            },
                                        ),
                                        min_delimiters: 0,
                                        allow_trailing: false,
                                    }),
                            }) }),
                    }),
            })
            .push(GrammarView::Text { template: "ON"@, becomes: SyntaxKind::Keyword })
            .push(GrammarView::Ref { name: "TableReferenceSegment"@, exclude: None })
            .push(GrammarView::Optional { inner: Box::new(GrammarView::Sequence {
                elements: Seq::empty()
                    .push(GrammarView::Text { template: "FOR"@, becomes: SyntaxKind::Keyword })
                    .push(GrammarView::Text { template: "EACH"@, becomes: SyntaxKind::Keyword })
                    .push(GrammarView::Text { template: "ROW"@, becomes: SyntaxKind::Keyword }),
            }) })
            .push(GrammarView::Optional { inner: Box::new(GrammarView::Sequence {
                elements: Seq::empty()
                    .push(GrammarView::Text { template: "WHEN"@, becomes: SyntaxKind::Keyword })
                    .push(GrammarView::Bracketed {
                        elements: Seq::empty()
                            .push(GrammarView::Ref { name: "ExpressionSegment"@, exclude: None }),
                        bracket_type: "round"@,
                        parse_mode: ParseMode::Strict,
                    }),
            }) })
            .push(GrammarView::Text { template: "BEGIN"@, becomes: SyntaxKind::Keyword })
            .push(GrammarView::Delimited {
                options: Seq::empty()
                    .push(GrammarView::Ref { name: "UpdateStatementSegment"@, exclude: None })
                    .push(GrammarView::Ref { name: "InsertStatementSegment"@, exclude: None })
                    .push(GrammarView::Ref { name: "DeleteStatementSegment"@, exclude: None })
                    .push(GrammarView::Ref { name: "SelectableGrammar"@, exclude: None }),
                delimiter: Box::new(GrammarView::AnyNumberOf {
                    options: Seq::empty()
                        .push(GrammarView::Ref { name: "DelimiterGrammar"@, exclude: None }),
                    min_times: 1,
                    max_times: None,
                    max_times_per_element: None,
                }),
                min_delimiters: 0,
                allow_trailing: true,
            })
            .push(GrammarView::Text { template: "END"@, becomes: SyntaxKind::Keyword }),
    }
}

/// The grammar of `CreateTriggerStatementSegment`.
pub fn create_trigger_statement_segment() -> (r: Grammar)
    ensures
        grammar_view(r) == create_trigger_statement_segment_view(),
{
    Grammar::sequence_of(
        GrammarList::new()
            .and(Grammar::keyword("CREATE"))
            .and(Grammar::reference("TemporaryGrammar").optional())
            .and(Grammar::keyword("TRIGGER"))
            .and(Grammar::reference("IfNotExistsGrammar").optional())
            .and(Grammar::reference("TriggerReferenceSegment"))
            .and(Grammar::first_of(
                GrammarList::new()
                    .and(Grammar::keyword("BEFORE"))
                    .and(Grammar::keyword("AFTER"))
                    .and(Grammar::sequence_of(
                        GrammarList::new()
                            .and(Grammar::keyword("INSTEAD"))
                            .and(Grammar::keyword("OF")),
                    )),
            ).optional())
            .and(Grammar::first_of(
                GrammarList::new()
                    .and(Grammar::keyword("DELETE"))
                    .and(Grammar::keyword("INSERT"))
                    .and(Grammar::sequence_of(
                        GrammarList::new()
                            .and(Grammar::keyword("UPDATE"))
                            .and(Grammar::sequence_of(
                                GrammarList::new()
                                    .and(Grammar::keyword("OF"))
                                    .and(Grammar::delimited_by(
                                        GrammarList::new()
                                            .and(Grammar::reference("ColumnReferenceSegment")),
                                        Grammar::reference("CommaSegment"),
                                        0,
                                        false,
                                    )),
                            ).optional()),
                    )),
            ))
            .and(Grammar::keyword("ON"))
            .and(Grammar::reference("TableReferenceSegment"))
            .and(Grammar::sequence_of(
                GrammarList::new()
                    .and(Grammar::keyword("FOR"))
                    .and(Grammar::keyword("EACH"))
                    .and(Grammar::keyword("ROW")),
            ).optional())
            .and(Grammar::sequence_of(
                GrammarList::new()
                    .and(Grammar::keyword("WHEN"))
                    .and(Grammar::bracketed_by(
                        GrammarList::new()
                            .and(Grammar::reference("ExpressionSegment")),
                        "round",
                        ParseMode::Strict,
                    )),
            ).optional())
            .and(Grammar::keyword("BEGIN"))
            .and(Grammar::delimited_by(
                GrammarList::new()
                    .and(Grammar::reference("UpdateStatementSegment"))
                    .and(Grammar::reference("InsertStatementSegment"))
                    .and(Grammar::reference("DeleteStatementSegment"))
                    .and(Grammar::reference("SelectableGrammar")),
                Grammar::repeated(
                    GrammarList::new()
                        .and(Grammar::reference("DelimiterGrammar")),
                    1,
                    None,
                    None,
                ),
                0,
                true,
            ))
            .and(Grammar::keyword("END")),
    )
}

/// Replaces the grammar of `CreateTriggerStatementSegment`.
pub open spec fn replace_create_trigger_statement_segment_view(
    dialect: DialectView,
) -> Result<DialectView, DialectError> {
    with_replaced(
        dialect,
        "CreateTriggerStatementSegment"@,
        create_trigger_statement_segment_view(),
    )
}

/// Replaces the grammar of `CreateTriggerStatementSegment`.
pub fn replace_create_trigger_statement_segment(
    dialect: Dialect,
) -> (r: Result<Dialect, DialectError>)
    ensures
        outcome_view(r) == replace_create_trigger_statement_segment_view(dialect.deep_view()),
{
    let mut dialect = dialect;
    match dialect.replace_grammar(
        "CreateTriggerStatementSegment",
        create_trigger_statement_segment(),
    ) {
        Ok(()) => Ok(dialect),
        Err(e) => Err(e),
    }
}

/// The grammar of `UnorderedSelectStatementSegment`.
pub open spec fn unordered_select_statement_segment_view() -> GrammarView {
    GrammarView::Node {
        kind: SyntaxKind::SelectStatement,
        inner: Box::new(GrammarView::Sequence {
            elements: Seq::empty()
                .push(GrammarView::Ref { name: "SelectClauseSegment"@, exclude: None })
                .push(GrammarView::Meta { kind: SyntaxKind::Dedent })
                .push(
                    GrammarView::Optional { inner: Box::new(
                        GrammarView::Ref { name: "FromClauseSegment"@, exclude: None },
                    ) },
                )
                .push(
                    GrammarView::Optional { inner: Box::new(
                        GrammarView::Ref { name: "WhereClauseSegment"@, exclude: None },
                    ) },
                )
                .push(
                    GrammarView::Optional { inner: Box::new(
                        GrammarView::Ref { name: "GroupByClauseSegment"@, exclude: None },
                    ) },
                )
                .push(
                    GrammarView::Optional { inner: Box::new(
                        GrammarView::Ref { name: "HavingClauseSegment"@, exclude: None },
                    ) },
                )
                .push(
                    GrammarView::Optional { inner: Box::new(
                        GrammarView::Ref { name: "OverlapsClauseSegment"@, exclude: None },
                    ) },
                )
                .push(
                    GrammarView::Optional { inner: Box::new(
                        GrammarView::Ref { name: "NamedWindowSegment"@, exclude: None },
                    ) },
                ),
        }),
    }
}

/// The grammar of `UnorderedSelectStatementSegment`.
pub fn unordered_select_statement_segment() -> (r: Grammar)
    ensures
        grammar_view(r) == unordered_select_statement_segment_view(),
{
    Grammar::sequence_of(
        GrammarList::new()
            .and(Grammar::reference("SelectClauseSegment"))
            .and(Grammar::meta(SyntaxKind::Dedent))
            .and(Grammar::reference("FromClauseSegment").optional())
            .and(Grammar::reference("WhereClauseSegment").optional())
            .and(Grammar::reference("GroupByClauseSegment").optional())
            .and(Grammar::reference("HavingClauseSegment").optional())
            .and(Grammar::reference("OverlapsClauseSegment").optional())
            .and(Grammar::reference("NamedWindowSegment").optional()),
    ).node(SyntaxKind::SelectStatement)
}

/// Binds `UnorderedSelectStatementSegment`.
pub open spec fn define_unordered_select_statement_segment_view(
    dialect: DialectView,
) -> DialectView {
    with_rule(
        dialect,
        "UnorderedSelectStatementSegment"@,
        unordered_select_statement_segment_view(),
    )
}

/// Binds `UnorderedSelectStatementSegment`.
pub fn define_unordered_select_statement_segment(dialect: Dialect) -> (r: Dialect)
    ensures
        r.deep_view() == define_unordered_select_statement_segment_view(dialect.deep_view()),
{
    let mut dialect = dialect;
    dialect.define("UnorderedSelectStatementSegment", unordered_select_statement_segment());
    dialect
}

/// The grammar of `SelectStatementSegment`, made of the grammar `base`.
pub open spec fn select_statement_segment_view(base: GrammarView) -> GrammarView {
    GrammarView::Node {
        kind: SyntaxKind::SelectStatement,
        inner: Box::new(copied(
            base,
            Seq::empty()
                .push(
                    GrammarView::Optional { inner: Box::new(
                        GrammarView::Ref { name: "OrderByClauseSegment"@, exclude: None },
                    ) },
                )
                .push(
                    GrammarView::Optional { inner: Box::new(
                        GrammarView::Ref { name: "FetchClauseSegment"@, exclude: None },
                    ) },
                )
                .push(
                    GrammarView::Optional { inner: Box::new(
                        GrammarView::Ref { name: "LimitClauseSegment"@, exclude: None },
                    ) },
                )
                .push(
                    GrammarView::Optional { inner: Box::new(
                        GrammarView::Ref { name: "NamedWindowSegment"@, exclude: None },
                    ) },
                ),
            None,
        )),
    }
}

/// The grammar of `SelectStatementSegment`, made of the grammar `base`.
pub fn select_statement_segment(base: Grammar) -> (r: Grammar)
    ensures
        grammar_view(r) == select_statement_segment_view(grammar_view(base)),
{
    base.copy(
        GrammarList::new()
            .and(Grammar::reference("OrderByClauseSegment").optional())
            .and(Grammar::reference("FetchClauseSegment").optional())
            .and(Grammar::reference("LimitClauseSegment").optional())
            .and(Grammar::reference("NamedWindowSegment").optional()).items,
        None,
    ).node(SyntaxKind::SelectStatement)
}

/// Binds `SelectStatementSegment`.
pub open spec fn define_select_statement_segment_view(
    dialect: DialectView,
) -> Result<DialectView, DialectError> {
    match known(node_grammar(dialect.library, "UnorderedSelectStatementSegment"@)) {
        Err(e) => Err(e),
        Ok(base) => {
            let dialect = with_rule(
                dialect,
                "SelectStatementSegment"@,
                select_statement_segment_view(base),
            );
            Ok(dialect)
        },
    }
}

/// Binds `SelectStatementSegment`.
pub fn define_select_statement_segment(dialect: Dialect) -> (r: Result<Dialect, DialectError>)
    ensures
        outcome_view(r) == define_select_statement_segment_view(dialect.deep_view()),
{
    let mut dialect = dialect;
    let base = match dialect.match_grammar("UnorderedSelectStatementSegment") {
        Some(base) => base,
        None => {
            return Err(DialectError::UnknownRule);
        },
    };
    dialect.define("SelectStatementSegment", select_statement_segment(base));
    Ok(dialect)
}

/// The grammar of `CreateIndexStatementSegment`.
pub open spec fn create_index_statement_segment_view() -> GrammarView {
    GrammarView::Sequence {
        elements: Seq::empty()
            .push(GrammarView::Text { template: "CREATE"@, becomes: SyntaxKind::Keyword })
            .push(
                GrammarView::Optional { inner: Box::new(
                    GrammarView::Text { template: "UNIQUE"@, becomes: SyntaxKind::Keyword },
                ) },
            )
            .push(GrammarView::Text { template: "INDEX"@, becomes: SyntaxKind::Keyword })
            .push(
                GrammarView::Optional { inner: Box::new(
                    GrammarView::Ref { name: "IfNotExistsGrammar"@, exclude: None },
                ) },
            )
            .push(GrammarView::Ref { name: "IndexReferenceSegment"@, exclude: None })
            .push(GrammarView::Text { template: "ON"@, becomes: SyntaxKind::Keyword })
            .push(GrammarView::Ref { name: "TableReferenceSegment"@, exclude: None })
            .push(GrammarView::Sequence {
                elements: Seq::empty()
                    .push(GrammarView::Bracketed {
                        elements: Seq::empty()
                            .push(GrammarView::Delimited {
                                options: Seq::empty()
                                    .push(
                                        GrammarView::Ref {
                                            name: "IndexColumnDefinitionSegment"@,
                                            exclude: None,
                                        },
                                    ),
                                delimiter: Box::new(
                                    GrammarView::Ref { name: "CommaSegment"@, exclude: None },
                                ),
                                min_delimiters: 0,
                                allow_trailing: false,
                            }),
                        bracket_type: "round"@,
                        parse_mode: ParseMode::Strict,
                    }),
            })
            .push(
                GrammarView::Optional { inner: Box::new(
                    GrammarView::Ref { name: "WhereClauseSegment"@, exclude: None },
                ) },
            ),
    }
}

/// The grammar of `CreateIndexStatementSegment`.
pub fn create_index_statement_segment() -> (r: Grammar)
    ensures
        grammar_view(r) == create_index_statement_segment_view(),
{
    Grammar::sequence_of(
        GrammarList::new()
            .and(Grammar::keyword("CREATE"))
            .and(Grammar::keyword("UNIQUE").optional())
            .and(Grammar::keyword("INDEX"))
            .and(Grammar::reference("IfNotExistsGrammar").optional())
            .and(Grammar::reference("IndexReferenceSegment"))
            .and(Grammar::keyword("ON"))
            .and(Grammar::reference("TableReferenceSegment"))
            .and(Grammar::sequence_of(
                GrammarList::new()
                    .and(Grammar::bracketed_by(
                        GrammarList::new()
                            .and(Grammar::delimited_by(
                                GrammarList::new()
                                    .and(Grammar::reference("IndexColumnDefinitionSegment")),
                                Grammar::reference("CommaSegment"),
                                0,
                                false,
                            )),
                        "round",
                        ParseMode::Strict,
                    )),
            ))
            .and(Grammar::reference("WhereClauseSegment").optional()),
    )
}

/// Replaces the grammar of `CreateIndexStatementSegment`.
pub open spec fn replace_create_index_statement_segment_view(
    dialect: DialectView,
) -> Result<DialectView, DialectError> {
    with_replaced(dialect, "CreateIndexStatementSegment"@, create_index_statement_segment_view())
}

/// Replaces the grammar of `CreateIndexStatementSegment`.
pub fn replace_create_index_statement_segment(
    dialect: Dialect,
) -> (r: Result<Dialect, DialectError>)
    ensures
        outcome_view(r) == replace_create_index_statement_segment_view(dialect.deep_view()),
{
    let mut dialect = dialect;
    match dialect.replace_grammar("CreateIndexStatementSegment", create_index_statement_segment()) {
        Ok(()) => Ok(dialect),
        Err(e) => Err(e),
    }
}

/// The grammar of `StatementSegment`.
pub open spec fn statement_segment_view() -> GrammarView {
    GrammarView::OneOf {
        options: Seq::empty()
            .push(GrammarView::Ref { name: "AlterTableStatementSegment"@, exclude: None })
            .push(GrammarView::Ref { name: "CreateIndexStatementSegment"@, exclude: None })
            .push(GrammarView::Ref { name: "CreateTableStatementSegment"@, exclude: None })
            .push(GrammarView::Ref { name: "CreateTriggerStatementSegment"@, exclude: None })
            .push(GrammarView::Ref { name: "CreateViewStatementSegment"@, exclude: None })
            .push(GrammarView::Ref { name: "DeleteStatementSegment"@, exclude: None })
            .push(GrammarView::Ref { name: "DropIndexStatementSegment"@, exclude: None })
            .push(GrammarView::Ref { name: "DropTableStatementSegment"@, exclude: None })
            .push(GrammarView::Ref { name: "DropTriggerStatementSegment"@, exclude: None })
            .push(GrammarView::Ref { name: "DropViewStatementSegment"@, exclude: None })
            .push(GrammarView::Ref { name: "ExplainStatementSegment"@, exclude: None })
            .push(GrammarView::Ref { name: "InsertStatementSegment"@, exclude: None })
            .push(GrammarView::Ref { name: "PragmaStatementSegment"@, exclude: None })
            .push(GrammarView::Ref { name: "SelectableGrammar"@, exclude: None })
            .push(GrammarView::Ref { name: "TransactionStatementSegment"@, exclude: None })
            .push(GrammarView::Ref { name: "UpdateStatementSegment"@, exclude: None })
            .push(GrammarView::Bracketed {
                elements: Seq::empty()
                    .push(GrammarView::Ref { name: "StatementSegment"@, exclude: None }),
                bracket_type: "round"@,
                parse_mode: ParseMode::Strict,
            }),
    }
}

/// The grammar of `StatementSegment`.
pub fn statement_segment() -> (r: Grammar)
    ensures
        grammar_view(r) == statement_segment_view(),
{
    Grammar::first_of(
        GrammarList::new()
            .and(Grammar::reference("AlterTableStatementSegment"))
            .and(Grammar::reference("CreateIndexStatementSegment"))
            .and(Grammar::reference("CreateTableStatementSegment"))
            .and(Grammar::reference("CreateTriggerStatementSegment"))
            .and(Grammar::reference("CreateViewStatementSegment"))
            .and(Grammar::reference("DeleteStatementSegment"))
            .and(Grammar::reference("DropIndexStatementSegment"))
            .and(Grammar::reference("DropTableStatementSegment"))
            .and(Grammar::reference("DropTriggerStatementSegment"))
            .and(Grammar::reference("DropViewStatementSegment"))
            .and(Grammar::reference("ExplainStatementSegment"))
            .and(Grammar::reference("InsertStatementSegment"))
            .and(Grammar::reference("PragmaStatementSegment"))
            .and(Grammar::reference("SelectableGrammar"))
            .and(Grammar::reference("TransactionStatementSegment"))
            .and(Grammar::reference("UpdateStatementSegment"))
            .and(Grammar::bracketed_by(
                GrammarList::new()
                    .and(Grammar::reference("StatementSegment")),
                "round",
                ParseMode::Strict,
            )),
    )
}

/// Replaces the grammar of `StatementSegment`.
pub open spec fn replace_statement_segment_view(
    dialect: DialectView,
) -> Result<DialectView, DialectError> {
    with_replaced(dialect, "StatementSegment"@, statement_segment_view())
}

/// Replaces the grammar of `StatementSegment`.
pub fn replace_statement_segment(dialect: Dialect) -> (r: Result<Dialect, DialectError>)
    ensures
        outcome_view(r) == replace_statement_segment_view(dialect.deep_view()),
{
    let mut dialect = dialect;
    match dialect.replace_grammar("StatementSegment", statement_segment()) {
        Ok(()) => Ok(dialect),
        Err(e) => Err(e),
    }
}

/// The SQLite dialect before it is expanded: the dialect `ansi` under the
/// name of SQLite, with the given words as its keywords and the rules
/// of SQLite bound or put in the place of those of `ansi`. It is refused
/// where `ansi` lacks a rule that SQLite replaces or builds on.
pub open spec fn raw_dialect_view(
    ansi: DialectView,
    reserved_keywords: Seq<Seq<char>>,
    unreserved_keywords: Seq<Seq<char>>,
) -> Result<DialectView, DialectError> {
    let dialect = ansi;
    let dialect = DialectView { name: DialectKind::Sqlite, ..dialect };
    let dialect = with_set_cleared(dialect, "reserved_keywords"@);
    let dialect = with_set_extended(dialect, "reserved_keywords"@, reserved_keywords);
    let dialect = with_set_cleared(dialect, "unreserved_keywords"@);
    let dialect = with_set_extended(dialect, "unreserved_keywords"@, unreserved_keywords);
    let dialect = define_boolean_binary_operator_grammar_etc_view(dialect);
    let dialect = define_set_operator_segment_view(dialect);
    let made = replace_datatype_segment_view(dialect);
    let made = after(made, |d: DialectView| Ok(define_table_end_clause_segment_view(d)));
    let made = after(made, |d: DialectView| replace_values_clause_segment_view(d));
    let made = after(made, |d: DialectView| Ok(define_index_column_definition_segment_etc_view(d)));
    let made = after(made, |d: DialectView| replace_column_constraint_segment_view(d));
    let made = after(made, |d: DialectView| replace_table_constraint_segment_view(d));
    let made = after(made, |d: DialectView| replace_transaction_statement_segment_view(d));
    let made = after(made, |d: DialectView| define_pragma_reference_segment_view(d));
    let made = after(made, |d: DialectView| Ok(define_pragma_statement_segment_view(d)));
    let made = after(made, |d: DialectView| replace_create_trigger_statement_segment_view(d));
    let made = after(made, |d: DialectView| Ok(define_unordered_select_statement_segment_view(d)));
    let made = after(made, |d: DialectView| define_select_statement_segment_view(d));
    let made = after(made, |d: DialectView| replace_create_index_statement_segment_view(d));
    let made = after(made, |d: DialectView| replace_statement_segment_view(d));
    made
}

/// The SQLite dialect before it is expanded: the dialect `ansi` under the
/// name of SQLite, with the given words as its keywords and the rules
/// of SQLite bound or put in the place of those of `ansi`. It is refused
/// where `ansi` lacks a rule that SQLite replaces or builds on.
pub fn raw_dialect(
    ansi: Dialect,
    reserved_keywords: &[&str],
    unreserved_keywords: &[&str],
) -> (r: Result<Dialect, DialectError>)
    ensures
        outcome_view(r) == raw_dialect_view(
            ansi.deep_view(),
            str_views(reserved_keywords@),
            str_views(unreserved_keywords@),
        ),
{
    let mut dialect = ansi;
    dialect = dialect.named(DialectKind::Sqlite);
    dialect.clear_set("reserved_keywords");
    dialect.extend_set("reserved_keywords", reserved_keywords);
    dialect.clear_set("unreserved_keywords");
    dialect.extend_set("unreserved_keywords", unreserved_keywords);
    dialect = define_boolean_binary_operator_grammar_etc(dialect);
    dialect = define_set_operator_segment(dialect);
    dialect = match replace_datatype_segment(dialect) {
        Ok(dialect) => dialect,
        Err(e) => {
            return Err(e);
        },
    };
    dialect = define_table_end_clause_segment(dialect);
    dialect = match replace_values_clause_segment(dialect) {
        Ok(dialect) => dialect,
        Err(e) => {
            return Err(e);
        },
    };
    dialect = define_index_column_definition_segment_etc(dialect);
    dialect = match replace_column_constraint_segment(dialect) {
        Ok(dialect) => dialect,
        Err(e) => {
            return Err(e);
        },
    };
    dialect = match replace_table_constraint_segment(dialect) {
        Ok(dialect) => dialect,
        Err(e) => {
            return Err(e);
        },
    };
    dialect = match replace_transaction_statement_segment(dialect) {
        Ok(dialect) => dialect,
        Err(e) => {
            return Err(e);
        },
    };
    dialect = match define_pragma_reference_segment(dialect) {
        Ok(dialect) => dialect,
        Err(e) => {
            return Err(e);
        },
    };
    dialect = define_pragma_statement_segment(dialect);
    dialect = match replace_create_trigger_statement_segment(dialect) {
        Ok(dialect) => dialect,
        Err(e) => {
            return Err(e);
        },
    };
    dialect = define_unordered_select_statement_segment(dialect);
    dialect = match define_select_statement_segment(dialect) {
        Ok(dialect) => dialect,
        Err(e) => {
            return Err(e);
        },
    };
    dialect = match replace_create_index_statement_segment(dialect) {
        Ok(dialect) => dialect,
        Err(e) => {
            return Err(e);
        },
    };
    dialect = match replace_statement_segment(dialect) {
        Ok(dialect) => dialect,
        Err(e) => {
            return Err(e);
        },
    };
    Ok(dialect)
}

/// The SQLite dialect: `raw_dialect`, expanded.
pub open spec fn dialect_view(
    ansi: DialectView,
    reserved_keywords: Seq<Seq<char>>,
    unreserved_keywords: Seq<Seq<char>>,
) -> Result<DialectView, DialectError> {
    let dialect = ansi;
    let made = raw_dialect_view(dialect, reserved_keywords, unreserved_keywords);
    let made = after(made, |d: DialectView| expanded(d));
    made
}

/// The SQLite dialect: `raw_dialect`, expanded.
pub fn dialect(
    ansi: Dialect,
    reserved_keywords: &[&str],
    unreserved_keywords: &[&str],
) -> (r: Result<Dialect, DialectError>)
    ensures
        outcome_view(r) == dialect_view(
            ansi.deep_view(),
            str_views(reserved_keywords@),
            str_views(unreserved_keywords@),
        ),
{
    let mut dialect = ansi;
    dialect = match raw_dialect(dialect, reserved_keywords, unreserved_keywords) {
        Ok(dialect) => dialect,
        Err(e) => {
            return Err(e);
        },
    };
    match dialect.expand() {
        Ok(()) => {},
        Err(e) => {
            return Err(e);
        },
    }
    Ok(dialect)
}

} // verus!
