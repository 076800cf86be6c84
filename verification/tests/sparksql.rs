use sqruff_lib::config::FluffConfig;
use sqruff_lib::dialect::{Dialect, DialectError, DialectKind, MatcherList};
use sqruff_lib::dialects::sparksql;
use sqruff_lib::engine::ParseContext;
use sqruff_lib::grammar::{same_grammar, same_grammars, Grammar};
use sqruff_lib::lexer::{Lexer, Matcher, StringOrTemplate};
use sqruff_lib::parser::Parser;
use sqruff_lib::segments::Segment;
use sqruff_lib::syntax::SyntaxKind;

/// The rules that Spark SQL replaces, builds on or refers to without binding them.
const SPARK_NEEDS: &[&str] = &[
    "AliasExpressionSegment", "AlterTableStatementSegment", "ArrayAccessorSegment",
    "BareFunctionSegment", "BaseExpressionElementGrammar", "BitwiseAndSegment",
    "BitwiseLShiftSegment", "BitwiseOrSegment", "BitwiseRShiftSegment", "BitwiseXorSegment",
    "BooleanBinaryOperatorGrammar", "BracketedArguments", "BracketedColumnReferenceListGrammar",
    "CastOperatorSegment", "ColonSegment", "ColumnConstraintSegment", "ColumnDefinitionSegment",
    "ColumnReferenceSegment", "CommaSegment", "CreateDatabaseStatementSegment",
    "CreateFunctionStatementSegment", "CreateModelStatementSegment",
    "CreateSchemaStatementSegment", "CreateTableStatementSegment", "CreateViewStatementSegment",
    "CubeRollupClauseSegment", "DatabaseReferenceSegment", "DatetimeUnitSegment",
    "DelimiterGrammar", "DivideSegment", "DotSegment", "DropBehaviorGrammar",
    "DropDatabaseStatementSegment", "DropModelStatementSegment", "EqualsSegment",
    "ExplainStatementSegment", "ExpressionSegment", "FrameClauseSegment",
    "FrameClauseUnitGrammar", "FromClauseSegment", "FromExpressionElementSegment",
    "FunctionNameIdentifierSegment", "FunctionNameSegment", "FunctionSegment",
    "GreaterThanOrEqualToSegment", "GreaterThanSegment", "GroupByClauseSegment",
    "GroupingSetsClauseSegment", "IfExistsGrammar", "IfNotExistsGrammar",
    "IntervalExpressionSegment", "JoinClauseSegment", "JoinKeywordsGrammar",
    "JoinLikeClauseGrammar", "JoinOnConditionSegment", "LessThanOrEqualToSegment",
    "LessThanSegment", "LikeOperatorSegment", "LimitClauseSegment", "LiteralGrammar",
    "MergeInsertClauseSegment", "MergeUpdateClauseSegment", "MinusSegment", "ModuloSegment",
    "MultiplySegment", "NakedIdentifierSegment", "NamedWindowSegment", "NotEqualToSegment",
    "NumericLiteralSegment", "ObjectReferenceSegment", "OrReplaceGrammar",
    "OrderByClauseSegment", "OverlapsClauseSegment", "PlusSegment", "PostTableExpressionGrammar",
    "PreTableFunctionKeywordsGrammar", "QuotedIdentifierSegment", "SamplingExpressionSegment",
    "SelectClauseElementSegment", "SelectClauseModifierSegment", "SelectStatementSegment",
    "SelectableGrammar", "SetClauseListSegment", "SetOperatorSegment",
    "SetSchemaStatementSegment", "SignedSegmentGrammar", "SingleIdentifierListSegment",
    "SingleQuotedIdentifierSegment", "StarSegment", "StartBracketSegment",
    "StartSquareBracketSegment", "StatementSegment", "StringBinaryOperatorGrammar",
    "TableExpressionSegment", "TableReferenceSegment", "TransactionStatementSegment",
    "TruncateStatementSegment", "UnorderedSelectStatementSegment", "UpdateStatementSegment",
    "ValuesClauseSegment", "WhereClauseSegment", "WildcardExpressionSegment",
    "WildcardIdentifierSegment", "WithDataClauseSegment", "WithNoSchemaBindingClauseSegment",
];

/// The rules that Spark SQL takes from Hive.
const FROM_HIVE: &[&str] = &[
    "ArrayTypeSegment", "CommentGrammar", "CreateTableStatementSegment", "LocationGrammar",
    "MsckRepairTableStatementSegment", "RowFormatClauseSegment", "SerdePropertiesGrammar",
    "SkewedByClauseSegment", "StorageFormatGrammar", "StoredAsGrammar", "StoredByGrammar",
    "StructTypeSchemaSegment", "StructTypeSegment", "TerminatedByGrammar",
];

fn show_segment(segment: &Segment) -> String {
    match segment {
        Segment::Leaf { kind, raw, .. } => format!("{:?}:{:?}", kind, raw),
        Segment::Node { kind, children, .. } => {
            let inner: Vec<String> = children.iter().map(show_segment).collect();
            format!("{:?}[{}]", kind, inner.join(" "))
        }
    }
}

fn rf(name: &str) -> Grammar {
    Grammar::reference(name)
}

fn word(text: &str) -> Grammar {
    Grammar::keyword(text)
}

fn base_matchers() -> Vec<Matcher> {
    vec![
        Matcher::regex("whitespace", r"[^\S\r\n]+", SyntaxKind::Whitespace),
        Matcher::regex("inline_comment", r"#[^\n]*", SyntaxKind::InlineComment),
        Matcher::regex("block_comment", r"/\*[^+]([^*]|\*[^/])*\*/", SyntaxKind::BlockComment),
        Matcher::regex("single_quote", r"'[^']*'", SyntaxKind::SingleQuote),
        Matcher::regex("newline", r"\r\n|\n", SyntaxKind::Newline),
        Matcher::regex("numeric_literal", r"[0-9]+", SyntaxKind::NumericLiteral),
        Matcher::regex("like_operator", r"!?~~?\*?", SyntaxKind::LikeOperator),
        Matcher::string("equals", "=", SyntaxKind::RawComparisonOperator),
        Matcher::string("semicolon", ";", SyntaxKind::Semicolon),
        Matcher::string("dot", ".", SyntaxKind::Dot),
        Matcher::string("start_bracket", "(", SyntaxKind::StartBracket),
        Matcher::string("end_bracket", ")", SyntaxKind::EndBracket),
        Matcher::regex("word", r"[0-9a-zA-Z_]+", SyntaxKind::Word),
    ]
}

/// A dialect that stands in for the one that Spark SQL is made of.
fn base_like(names: &[&str]) -> Dialect {
    let mut dialect = Dialect::new(DialectKind::Ansi);
    dialect.set_lexer_matchers(base_matchers());
    dialect.add_bracket_pair("round", SyntaxKind::StartBracket, SyntaxKind::EndBracket);
    dialect.add_bracket_pair("square", SyntaxKind::StartSquareBracket, SyntaxKind::EndSquareBracket);
    dialect.extend_set("reserved_keywords", &["SELECT"]);
    dialect.extend_set("bare_functions", &["NOW"]);
    for name in names {
        dialect.define(name, Grammar::nothing().node(SyntaxKind::Expression));
    }
    dialect.define(
        "FileSegment",
        Grammar::Delimited {
            options: vec![rf("StatementSegment")],
            delimiter: Box::new(Grammar::token(SyntaxKind::Semicolon, SyntaxKind::StatementTerminator)),
            min_delimiters: 0,
            allow_trailing: true,
        },
    );
    dialect.define("StatementSegment", Grammar::one_of(vec![rf("SelectableGrammar")]).node(SyntaxKind::Statement));
    dialect.define("SelectableGrammar", Grammar::nothing());
    dialect.define(
        "SelectStatementSegment",
        Grammar::sequence(vec![
            word("SELECT"),
            rf("OrderByClauseSegment").optional(),
            rf("LimitClauseSegment").optional(),
        ])
        .node(SyntaxKind::SelectStatement),
    );
    dialect.define(
        "UnorderedSelectStatementSegment",
        Grammar::sequence(vec![word("SELECT"), rf("OverlapsClauseSegment").optional()])
            .node(SyntaxKind::SelectStatement),
    );
    dialect.define(
        "WildcardExpressionSegment",
        Grammar::sequence(vec![rf("WildcardIdentifierSegment")]).node(SyntaxKind::Expression),
    );
    dialect.define("LiteralGrammar", Grammar::one_of(vec![rf("NumericLiteralSegment")]));
    if names.contains(&"NumericLiteralSegment") {
        dialect.define(
            "NumericLiteralSegment",
            Grammar::token(SyntaxKind::NumericLiteral, SyntaxKind::NumericLiteral),
        );
    }
    dialect
}

fn hive_like(names: &[&str]) -> Dialect {
    let mut dialect = Dialect::new(DialectKind::Ansi);
    for name in names {
        dialect.define(name, word(name).node(SyntaxKind::Expression));
    }
    dialect
}

fn spark() -> Dialect {
    sparksql::sparksql_dialect(base_like(SPARK_NEEDS), &hive_like(FROM_HIVE), &["SELECT", "QUALIFY"], &["CACHE"])
        .unwrap()
}

fn shown(grammar: Option<&Grammar>) -> String {
    format!("{:?}", grammar.unwrap())
}

fn lex_code(dialect: Dialect, text: &str) -> Vec<String> {
    let config = FluffConfig::new(dialect);
    let lexer = Lexer::new(&config, None);
    let (tokens, errors) = lexer.lex(StringOrTemplate::String(text)).unwrap();
    assert!(errors.is_empty());
    tokens.iter().filter(|t| t.is_code()).map(show_segment).collect()
}

fn matched(grammar: &Grammar, dialect: Dialect, text: &str) -> Option<(usize, String)> {
    let config = FluffConfig::new(dialect);
    let lexer = Lexer::new(&config, None);
    let (tokens, _) = lexer.lex(StringOrTemplate::String(text)).unwrap();
    let cx = ParseContext::from_config(&config);
    grammar.match_segments(&tokens, 0, &cx).unwrap().map(|m| {
        let nodes: Vec<String> = m.nodes.iter().map(show_segment).collect();
        (m.end, nodes.join(" "))
    })
}

#[test]
fn sparksql_needs_matchers_rules_and_the_rules_of_hive() {
    let hive = hive_like(FROM_HIVE);
    let made = sparksql::sparksql_dialect(Dialect::new(DialectKind::Ansi), &hive, &[], &[]);
    assert_eq!(made.err(), Some(DialectError::UnknownMatcher));
    let mut bare = base_like(SPARK_NEEDS);
    bare.set_lexer_matchers(
        base_matchers().into_iter().filter(|m| m.name() != "word").collect(),
    );
    let made = sparksql::sparksql_dialect(bare, &hive, &[], &[]);
    assert_eq!(made.err(), Some(DialectError::UnknownMatcher));
    let made = sparksql::sparksql_dialect(base_like(&[]), &hive, &[], &[]);
    assert_eq!(made.err(), Some(DialectError::UnknownRule));
    let short: Vec<&str> = FROM_HIVE.iter().copied().filter(|n| *n != "StoredAsGrammar").collect();
    let made = sparksql::sparksql_dialect(base_like(SPARK_NEEDS), &hive_like(&short), &[], &[]);
    assert_eq!(made.err(), Some(DialectError::UnknownRule));
    let short: Vec<&str> = SPARK_NEEDS.iter().copied().filter(|n| *n != "DotSegment").collect();
    let made = sparksql::sparksql_dialect(base_like(&short), &hive, &[], &[]);
    assert_eq!(made.err(), Some(DialectError::UnresolvedReference));
}

#[test]
fn sparksql_takes_its_name_its_sets_and_its_brackets() {
    let made = spark();
    assert_eq!(made.name, DialectKind::Sparksql);
    assert_eq!(
        made.sets("bare_functions"),
        vec!["CURRENT_DATE".to_string(), "CURRENT_TIMESTAMP".to_string(), "CURRENT_USER".to_string()]
    );
    let units = made.sets("datetime_units");
    assert_eq!(units.len(), 25);
    assert_eq!(units[0], "YEAR");
    assert_eq!(units[24], "MICROSECONDS");
    assert_eq!(made.sets("reserved_keywords"), vec!["SELECT".to_string(), "QUALIFY".to_string()]);
    assert_eq!(made.sets("unreserved_keywords"), vec!["CACHE".to_string()]);
    assert_eq!(made.bracket_pair("angle"), Some((SyntaxKind::StartAngleBracket, SyntaxKind::EndAngleBracket)));
    assert_eq!(made.bracket_pair("round"), Some((SyntaxKind::StartBracket, SyntaxKind::EndBracket)));
    let mut again = spark();
    again.expand().unwrap();
    assert_eq!(format!("{:?}", again), format!("{:?}", made));
}

#[test]
fn sparksql_orders_its_lexer_matchers() {
    let made = spark();
    let names: Vec<&str> = made.lexer_matchers().iter().map(|m| m.name()).collect();
    assert_eq!(
        names,
        vec![
            "whitespace",
            "inline_comment",
            "start_hint",
            "block_comment",
            "bytes_single_quote",
            "bytes_double_quote",
            "bytes_single_quote",
            "bytes_double_quote",
            "end_hint",
            "single_quote",
            "file_literal",
            "newline",
            "numeric_literal",
            "end_hint",
            "like_operator",
            "equals",
            "semicolon",
            "dot",
            "start_bracket",
            "end_bracket",
            "at_sign_literal",
            "word"
        ]
    );
    assert_eq!(
        lex_code(spark(), "X'1f' == 'a' 1.5e3D"),
        vec![
            "BytesSingleQuote:\"X'1f'\"",
            "RawComparisonOperator:\"==\"",
            "SingleQuote:\"'a'\"",
            "NumericLiteral:\"1.5e3D\"",
        ]
    );
    // The dialect that it was made of takes the same text apart.
    assert_eq!(
        lex_code(base_like(SPARK_NEEDS), "X'1f' = 1"),
        vec!["Word:\"X\"", "SingleQuote:\"'1f'\"", "RawComparisonOperator:\"=\"", "NumericLiteral:\"1\""]
    );
    // A comment starts with two dashes and no longer with a hash.
    let config = FluffConfig::new(spark());
    let lexer = Lexer::new(&config, None);
    let (tokens, _) = lexer.lex(StringOrTemplate::String("a -- b")).unwrap();
    assert!(tokens.iter().any(|t| t.is_type(SyntaxKind::InlineComment) && t.raw() == "-- b"));
}

#[test]
fn sparksql_takes_rules_from_hive_and_builds_on_those_it_finds() {
    let made = sparksql::sparksql_dialect(base_like(SPARK_NEEDS), &hive_like(FROM_HIVE), &[], &[]).unwrap();
    assert_eq!(
        shown(made.grammar("StoredAsGrammar")),
        format!("{:?}", word("StoredAsGrammar").node(SyntaxKind::Expression))
    );
    assert_eq!(
        shown(made.grammar("CreateHiveFormatTableStatementSegment")),
        format!("{:?}", word("CreateTableStatementSegment").node(SyntaxKind::Expression))
    );
    assert_eq!(
        shown(made.grammar("LiteralGrammar")),
        format!(
            "{:?}",
            Grammar::one_of(vec![rf("NumericLiteralSegment"), rf("BytesQuotedLiteralSegment")])
        )
    );
    assert_eq!(
        shown(made.grammar("SelectStatementSegment")),
        format!(
            "{:?}",
            Grammar::sequence(vec![
                word("SELECT"),
                rf("QualifyClauseSegment").optional(),
                rf("OrderByClauseSegment").optional(),
                rf("ClusterByClauseSegment").optional(),
                rf("DistributeByClauseSegment").optional(),
                rf("SortByClauseSegment").optional(),
                rf("LimitClauseSegment").optional(),
            ])
            .node(SyntaxKind::SelectStatement)
        )
    );
    assert_eq!(
        shown(made.grammar("UnorderedSelectStatementSegment")),
        format!(
            "{:?}",
            Grammar::sequence(vec![word("SELECT"), rf("QualifyClauseSegment").optional()])
                .node(SyntaxKind::SelectStatement)
        )
    );
    assert_eq!(
        shown(made.grammar("WildcardExpressionSegment")),
        format!(
            "{:?}",
            Grammar::sequence(vec![rf("WildcardIdentifierSegment"), rf("ExceptClauseSegment").optional()])
                .node(SyntaxKind::Expression)
        )
    );
    assert_eq!(
        shown(made.grammar("FileKeywordSegment")),
        format!(
            "{:?}",
            Grammar::one_of(vec![
                Grammar::text("FILE", SyntaxKind::FileKeyword),
                Grammar::text("FILES", SyntaxKind::FileKeyword),
            ])
        )
    );
    assert_eq!(
        shown(made.grammar("WidgetNameIdentifierSegment")),
        format!("{:?}", Grammar::regex("[A-Z][A-Z0-9_]*", SyntaxKind::WidgetNameIdentifier))
    );
}

#[test]
fn sparksql_parses_a_statement_of_its_own() {
    let config = FluffConfig::new(spark());
    let lexer = Lexer::new(&config, None);
    let (tokens, errors) = lexer.lex(StringOrTemplate::String("clear cache;")).unwrap();
    assert!(errors.is_empty());
    let parser = Parser::new(&config, None);
    let tree = parser.parse(&tokens, None, false).unwrap().unwrap();
    assert_eq!(
        show_segment(&tree),
        "File[Statement[ClearCache[Keyword:\"clear\" Whitespace:\" \" Keyword:\"cache\"]] \
         StatementTerminator:\";\" EndOfFile:\"\"]"
    );
}

#[test]
fn a_regex_grammar_takes_a_token_whole_and_in_upper_case() {
    let name = Grammar::regex("[A-Z][A-Z0-9_]*", SyntaxKind::WidgetNameIdentifier);
    assert_eq!(
        matched(&name, spark(), "start_date x"),
        Some((1, "WidgetNameIdentifier:\"start_date\"".to_string()))
    );
    // A match of a part of the token is none, and so is a match that starts late.
    assert_eq!(matched(&Grammar::regex("[A-Z]", SyntaxKind::Word), spark(), "ab"), None);
    assert_eq!(matched(&Grammar::regex("B", SyntaxKind::Word), spark(), "ab"), None);
    assert_eq!(matched(&name, spark(), "9lives"), None);
    // Only code is taken, and a pattern that does not compile takes nothing.
    assert_eq!(matched(&Grammar::regex("\\s*", SyntaxKind::Word), spark(), " "), None);
    assert_eq!(matched(&Grammar::regex("(", SyntaxKind::Word), spark(), "a"), None);
    assert_eq!(matched(&name, spark(), ""), None);
    // Through a rule of the dialect.
    assert_eq!(
        matched(&rf("PropertiesNakedIdentifierSegment"), spark(), "delta1"),
        Some((1, "PropertiesNakedIdentifier:\"delta1\"".to_string()))
    );
    assert_eq!(matched(&rf("PropertiesNakedIdentifierSegment"), spark(), "123"), None);
}

#[test]
fn a_matcher_list_comes_to_nothing_with_a_bad_pattern() {
    let good = MatcherList::new().string("arrow", "->", SyntaxKind::RightArrow).regex("digits", "[0-9]+", SyntaxKind::NumericLiteral);
    let names: Vec<&str> = good.items.as_ref().unwrap().iter().map(|m| m.name()).collect();
    assert_eq!(names, vec!["arrow", "digits"]);
    let bad = MatcherList::new().regex("open", "(", SyntaxKind::Word).string("arrow", "->", SyntaxKind::RightArrow);
    assert!(bad.items.is_none());
    let made = base_like(&[]).insert_matcher_list(
        MatcherList::new().regex("open", "(", SyntaxKind::Word),
        "word",
    );
    assert_eq!(made.err(), Some(DialectError::BadPattern));
    let made = base_like(&[]).patch_matcher_list(MatcherList::new().regex("open", "(", SyntaxKind::Word));
    assert_eq!(made.err(), Some(DialectError::BadPattern));
    let made = base_like(&[]).insert_matcher_list(good, "nowhere");
    assert_eq!(made.err(), Some(DialectError::UnknownMatcher));
    let made = base_like(&[])
        .patch_matcher_list(MatcherList::new().string("equals", "==", SyntaxKind::RawComparisonOperator))
        .unwrap();
    assert_eq!(lex_code(made, "a==b")[1], "RawComparisonOperator:\"==\"");
}

#[test]
fn copy_before_puts_in_and_takes_out() {
    let a = || word("a");
    let b = || word("b");
    let x = || rf("X");
    let base = Grammar::sequence(vec![a(), b(), a()]);
    let shown = |g: &Grammar| format!("{:?}", g);
    assert_eq!(
        shown(&base.copy_before(vec![x()], Some(b()), vec![])),
        shown(&Grammar::sequence(vec![a(), x(), b(), a()]))
    );
    assert_eq!(
        shown(&base.copy_before(vec![x()], Some(a()), vec![])),
        shown(&Grammar::sequence(vec![x(), a(), b(), a()]))
    );
    assert_eq!(
        shown(&base.copy_before(vec![x()], Some(rf("Y")), vec![])),
        shown(&Grammar::sequence(vec![a(), b(), a(), x()]))
    );
    assert_eq!(
        shown(&base.copy_before(vec![x()], None, vec![a()])),
        shown(&Grammar::sequence(vec![b(), x()]))
    );
    assert_eq!(
        shown(&base.copy_before(vec![x()], Some(b()), vec![x(), b()])),
        shown(&Grammar::sequence(vec![a(), a()]))
    );
    assert_eq!(shown(&a().copy_before(vec![x()], None, vec![])), shown(&a()));
    let choice = Grammar::one_of(vec![a(), b()]);
    assert_eq!(
        shown(&choice.copy_before(vec![x()], Some(b()), vec![a()])),
        shown(&Grammar::one_of(vec![x(), b()]))
    );
}

#[test]
fn grammars_are_compared_by_what_they_are_made_of() {
    let one = || Grammar::sequence(vec![word("a"), rf("B").optional(), Grammar::regex("[A-Z]+", SyntaxKind::Word)]);
    assert!(same_grammar(&one(), &one()));
    assert!(!same_grammar(&one(), &Grammar::one_of(vec![word("a")])));
    assert!(!same_grammar(&word("a"), &word("A")));
    assert!(!same_grammar(&rf("a"), &word("a")));
    assert!(!same_grammar(&Grammar::regex("a", SyntaxKind::Word), &Grammar::regex("a", SyntaxKind::Code)));
    assert!(same_grammar(
        &Grammar::reference_unless("A", word("x")),
        &rf("A").exclude(word("x"))
    ));
    assert!(!same_grammar(&Grammar::reference_unless("A", word("x")), &rf("A")));
    assert!(same_grammar(
        &Grammar::delimited(vec![one()], word(",")).node(SyntaxKind::Statement),
        &Grammar::delimited(vec![one()], word(",")).node(SyntaxKind::Statement)
    ));
    assert!(!same_grammar(
        &Grammar::any_number_of(vec![one()]),
        &Grammar::AnyNumberOf { options: vec![one()], min_times: 1, max_times: None, max_times_per_element: None }
    ));
    assert!(!same_grammar(&Grammar::bracketed(vec![one()]), &Grammar::bracketed(vec![one(), one()])));
    assert!(same_grammars(&[one(), word("b")], &[one(), word("b")]));
    assert!(!same_grammars(&[one(), word("b")], &[one()]));
    assert!(same_grammars(&[], &[]));
}
