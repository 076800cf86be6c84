use sqruff_lib::config::FluffConfig;
use sqruff_lib::dialect::{Dialect, DialectError, DialectKind};
use sqruff_lib::dialects::{clickhouse, sqlite};
use sqruff_lib::grammar::Grammar;
use sqruff_lib::lexer::{Lexer, Matcher, StringOrTemplate};
use sqruff_lib::parser::Parser;
use sqruff_lib::segments::Segment;
use sqruff_lib::syntax::SyntaxKind;

/// The rules that SQLite replaces, builds on or refers to without binding them.
const SQLITE_NEEDS: &[&str] = &[
    "AlterTableStatementSegment", "AndOperatorGrammar", "BareFunctionSegment",
    "BooleanLiteralGrammar", "BracketedArguments", "BracketedColumnReferenceListGrammar",
    "ColumnConstraintSegment", "ColumnReferenceSegment", "CommaSegment",
    "CreateIndexStatementSegment", "CreateTableStatementSegment",
    "CreateTriggerStatementSegment", "CreateViewStatementSegment", "DatatypeIdentifierSegment",
    "DatatypeSegment", "DatetimeUnitSegment", "DefaultValuesGrammar", "DeleteStatementSegment",
    "DelimiterGrammar", "DropIndexStatementSegment", "DropTableStatementSegment",
    "DropTriggerStatementSegment", "DropViewStatementSegment", "EqualsSegment",
    "ExplainStatementSegment", "ExpressionSegment", "FilterClauseGrammar", "ForeignKeyGrammar",
    "FrameClauseUnitGrammar", "FromClauseSegment", "FunctionContentsExpressionGrammar",
    "FunctionSegment", "GroupByClauseSegment", "HavingClauseSegment", "IfNotExistsGrammar",
    "IndexReferenceSegment", "LimitClauseSegment", "LiteralGrammar", "NamedWindowSegment",
    "NotOperatorGrammar", "ObjectReferenceSegment", "OrOperatorGrammar", "OrderByClauseSegment",
    "QualifiedNumericLiteralSegment", "QuotedLiteralSegment", "ReferenceDefinitionGrammar",
    "SelectClauseSegment", "SelectableGrammar", "SignedSegmentGrammar",
    "SingleIdentifierGrammar", "StarSegment", "StatementSegment", "TableConstraintSegment",
    "TableReferenceSegment", "TemporaryGrammar", "TildeSegment", "TransactionStatementSegment",
    "TriggerReferenceSegment", "UnorderedSelectStatementSegment", "UpdateStatementSegment",
    "ValuesClauseSegment", "WhereClauseSegment", "WithDataClauseSegment",
    "WithNoSchemaBindingClauseSegment",
];

/// The rules that ClickHouse replaces, builds on or refers to without binding them.
const CLICKHOUSE_NEEDS: &[&str] = &[
    "AliasExpressionSegment", "ArithmeticBinaryOperatorGrammar", "BareFunctionSegment",
    "BooleanBinaryOperatorGrammar", "BooleanLiteralGrammar", "BracketedArguments",
    "BracketedColumnReferenceListGrammar", "CTEColumnList", "CTEDefinitionSegment",
    "ColumnDefinitionSegment", "ColumnReferenceSegment", "CommaSegment",
    "ComparisonOperatorGrammar", "CreateDatabaseStatementSegment", "CreateTableStatementSegment",
    "DatabaseReferenceSegment", "DatatypeIdentifierSegment", "DatePartFunctionNameSegment",
    "DropDatabaseStatementSegment", "DropFunctionStatementSegment", "DropRoleStatementSegment",
    "DropTableStatementSegment", "DropUserStatementSegment", "DropViewStatementSegment",
    "EqualsSegment", "ExpressionSegment", "FromClauseTerminatorGrammar",
    "FromExpressionElementSegment", "FunctionContentsGrammar", "FunctionNameSegment",
    "FunctionSegment", "GroupByClauseSegment", "IfExistsGrammar", "IfNotExistsGrammar",
    "JoinClauseSegment", "JoinKeywordsGrammar", "JoinOnConditionSegment", "LiteralGrammar",
    "NakedIdentifierSegment", "NumericLiteralSegment", "ObjectReferenceSegment",
    "OrReplaceGrammar", "PathSegment", "PostTableExpressionGrammar",
    "PreTableFunctionKeywordsGrammar", "PrimaryKeyGrammar", "QuotedIdentifierSegment",
    "SamplingExpressionSegment", "SelectClauseElementSegment", "SelectableGrammar",
    "SingleIdentifierListSegment", "SingleQuotedIdentifierSegment", "StatementSegment",
    "StringBinaryOperatorGrammar", "TableConstraintSegment", "TableEndClauseSegment",
    "TableExpressionSegment", "TableReferenceSegment", "ValuesClauseSegment",
    "WhereClauseSegment",
];

fn show(segment: &Segment) -> String {
    match segment {
        Segment::Leaf { kind, raw, .. } => format!("{:?}:{:?}", kind, raw),
        Segment::Node { kind, children, .. } => {
            let inner: Vec<String> = children.iter().map(show).collect();
            format!("{:?}[{}]", kind, inner.join(" "))
        }
    }
}

fn r(name: &str) -> Grammar {
    Grammar::reference(name)
}

fn kw(word: &str) -> Grammar {
    Grammar::keyword(word)
}

fn matchers() -> Vec<Matcher> {
    vec![
        Matcher::regex("whitespace", r"[^\S\r\n]+", SyntaxKind::Whitespace),
        Matcher::regex("newline", r"\r\n|\n", SyntaxKind::Newline),
        Matcher::regex("numeric_literal", r"[0-9]+", SyntaxKind::NumericLiteral),
        Matcher::string("equals", "=", SyntaxKind::RawComparisonOperator),
        Matcher::string("minus", "-", SyntaxKind::Minus),
        Matcher::string("semicolon", ";", SyntaxKind::Semicolon),
        Matcher::string("start_bracket", "(", SyntaxKind::StartBracket),
        Matcher::string("end_bracket", ")", SyntaxKind::EndBracket),
        Matcher::regex("word", r"[0-9a-zA-Z_]+", SyntaxKind::Word),
    ]
}

/// A dialect that stands in for the one that the others are made of: it
/// binds each of `names`, most of them to the grammar that matches nothing.
fn stand_in(names: &[&str]) -> Dialect {
    let mut dialect = Dialect::new(DialectKind::Ansi);
    dialect.set_lexer_matchers(matchers());
    dialect.add_bracket_pair("round", SyntaxKind::StartBracket, SyntaxKind::EndBracket);
    dialect.sets_mut("reserved_keywords").extend(&["SELECT", "FROM"]);
    dialect.sets_mut("unreserved_keywords").extend(&["DATE"]);
    for name in names {
        dialect.define(name, Grammar::nothing().node(SyntaxKind::Expression));
    }
    dialect.define(
        "FileSegment",
        Grammar::Delimited {
            options: vec![r("StatementSegment")],
            delimiter: Box::new(Grammar::token(SyntaxKind::Semicolon, SyntaxKind::StatementTerminator)),
            min_delimiters: 0,
            allow_trailing: true,
        },
    );
    dialect.define("StatementSegment", Grammar::one_of(vec![r("SelectableGrammar")]).node(SyntaxKind::Statement));
    dialect.define("SelectableGrammar", Grammar::nothing());
    dialect.define(
        "ObjectReferenceSegment",
        Grammar::sequence(vec![r("SingleIdentifierGrammar")]).node(SyntaxKind::ObjectReference),
    );
    dialect.define("SingleIdentifierGrammar", r("NakedIdentifierSegment"));
    dialect.define("NakedIdentifierSegment", Grammar::token(SyntaxKind::Word, SyntaxKind::NakedIdentifier));
    dialect.define(
        "EqualsSegment",
        Grammar::token(SyntaxKind::RawComparisonOperator, SyntaxKind::ComparisonOperator),
    );
    dialect.define("LiteralGrammar", Grammar::token(SyntaxKind::NumericLiteral, SyntaxKind::NumericLiteral));
    dialect.define("IfExistsGrammar", Grammar::sequence(vec![kw("IF"), kw("EXISTS")]));
    dialect.define(
        "UnorderedSelectStatementSegment",
        Grammar::sequence(vec![kw("SELECT"), r("LiteralGrammar")]).node(SyntaxKind::SelectStatement),
    );
    dialect.define(
        "ColumnConstraintSegment",
        Grammar::sequence(vec![kw("NOT"), kw("NULL")]).node(SyntaxKind::ColumnConstraintSegment),
    );
    dialect
}

fn shown(grammar: Option<&Grammar>) -> String {
    format!("{:?}", grammar.unwrap())
}

fn parse(dialect: Dialect, text: &str) -> String {
    let config = FluffConfig::new(dialect);
    let lexer = Lexer::new(&config, None);
    let (tokens, errors) = lexer.lex(StringOrTemplate::String(text)).unwrap();
    assert!(errors.is_empty());
    let parser = Parser::new(&config, None);
    show(&parser.parse(&tokens, None, false).unwrap().unwrap())
}

#[test]
fn sqlite_needs_the_rules_it_replaces() {
    let made = sqlite::raw_dialect(Dialect::new(DialectKind::Ansi), &[], &[]);
    assert_eq!(made.err(), Some(DialectError::UnknownRule));
    let made = sqlite::dialect(Dialect::new(DialectKind::Ansi), &[], &[]);
    assert_eq!(made.err(), Some(DialectError::UnknownRule));
    // One rule short is enough.
    let short: Vec<&str> = SQLITE_NEEDS.iter().copied().filter(|n| *n != "ValuesClauseSegment").collect();
    let made = sqlite::raw_dialect(stand_in(&short), &[], &[]);
    assert_eq!(made.err(), Some(DialectError::UnknownRule));
}

#[test]
fn sqlite_takes_its_name_and_its_own_keywords() {
    let made = sqlite::raw_dialect(stand_in(SQLITE_NEEDS), &["PRAGMA", "SELECT"], &["ABORT"]).unwrap();
    assert_eq!(made.name, DialectKind::Sqlite);
    assert_eq!(made.sets("reserved_keywords"), vec!["PRAGMA".to_string(), "SELECT".to_string()]);
    assert_eq!(made.sets("unreserved_keywords"), vec!["ABORT".to_string()]);
    // The lexer and the brackets are those of the dialect that it was made of.
    assert_eq!(made.lexer_matchers().len(), matchers().len());
    assert_eq!(made.bracket_pair("round"), Some((SyntaxKind::StartBracket, SyntaxKind::EndBracket)));
}

#[test]
fn sqlite_binds_its_rules() {
    let made = sqlite::raw_dialect(stand_in(SQLITE_NEEDS), &[], &[]).unwrap();
    assert_eq!(
        shown(made.grammar("BooleanBinaryOperatorGrammar")),
        format!("{:?}", Grammar::one_of(vec![r("AndOperatorGrammar"), r("OrOperatorGrammar"), kw("REGEXP")]))
    );
    assert_eq!(
        shown(made.grammar("PrimaryKeyGrammar")),
        format!(
            "{:?}",
            Grammar::sequence(vec![
                kw("PRIMARY"),
                kw("KEY"),
                Grammar::sequence(vec![kw("AUTOINCREMENT")]).optional(),
            ])
        )
    );
    assert_eq!(
        shown(made.grammar("DateTimeLiteralGrammar")),
        format!(
            "{:?}",
            Grammar::sequence(vec![
                Grammar::one_of(vec![kw("DATE"), kw("DATETIME")]),
                Grammar::token(SyntaxKind::SingleQuote, SyntaxKind::DateConstructorLiteral),
            ])
        )
    );
    assert_eq!(shown(made.grammar("TemporaryTransientGrammar")), format!("{:?}", r("TemporaryGrammar")));
    assert_eq!(shown(made.grammar("AutoIncrementGrammar")), format!("{:?}", Grammar::nothing()));
    assert_eq!(shown(made.grammar("PragmaStatementSegment")), format!("{:?}", sqlite::pragma_statement_segment()));
}

#[test]
fn sqlite_builds_on_the_rules_that_it_finds() {
    let made = sqlite::raw_dialect(stand_in(SQLITE_NEEDS), &[], &[]).unwrap();
    // What was a node stays one of its kind, around the grammar that replaces its own.
    assert_eq!(
        shown(made.grammar("StatementSegment")),
        format!("{:?}", sqlite::statement_segment().node(SyntaxKind::Statement))
    );
    assert_eq!(
        shown(made.grammar("PragmaReferenceSegment")),
        format!(
            "{:?}",
            Grammar::sequence(vec![r("SingleIdentifierGrammar")]).node(SyntaxKind::PragmaReference)
        )
    );
    // The select statement is built on the unordered one that SQLite itself has bound.
    let unordered = match sqlite::unordered_select_statement_segment() {
        Grammar::Node { kind: SyntaxKind::SelectStatement, inner } => *inner,
        other => panic!("no select statement: {:?}", other),
    };
    assert_eq!(
        shown(made.grammar("SelectStatementSegment")),
        format!(
            "{:?}",
            unordered
                .copy(
                    vec![
                        r("OrderByClauseSegment").optional(),
                        r("FetchClauseSegment").optional(),
                        r("LimitClauseSegment").optional(),
                        r("NamedWindowSegment").optional(),
                    ],
                    None
                )
                .node(SyntaxKind::SelectStatement)
        )
    );
    assert_eq!(
        shown(made.grammar("ColumnConstraintSegment")),
        format!(
            "{:?}",
            Grammar::sequence(vec![
                kw("NOT"),
                kw("NULL"),
                Grammar::one_of(vec![
                    kw("DEFERRABLE"),
                    Grammar::sequence(vec![kw("NOT"), kw("DEFERRABLE")]),
                ])
                .optional(),
                Grammar::one_of(vec![
                    Grammar::sequence(vec![kw("INITIALLY"), kw("DEFERRED")]),
                    Grammar::sequence(vec![kw("INITIALLY"), kw("IMMEDIATE")]),
                ])
                .optional(),
            ])
            .node(SyntaxKind::ColumnConstraintSegment)
        )
    );
}

#[test]
fn sqlite_dialect_is_expanded() {
    let mut made = sqlite::dialect(stand_in(SQLITE_NEEDS), &["PRAGMA"], &[]).unwrap();
    let once = format!("{:?}", made);
    made.expand().unwrap();
    assert_eq!(format!("{:?}", made), once);
    // A rule that refers to what the dialect lacks stops the expansion only.
    let short: Vec<&str> = SQLITE_NEEDS.iter().copied().filter(|n| *n != "TildeSegment").collect();
    assert!(sqlite::raw_dialect(stand_in(&short), &[], &[]).is_ok());
    let made = sqlite::dialect(stand_in(&short), &[], &[]);
    assert_eq!(made.err(), Some(DialectError::UnresolvedReference));
}

#[test]
fn sqlite_parses_a_pragma() {
    let made = sqlite::dialect(stand_in(SQLITE_NEEDS), &["PRAGMA"], &[]).unwrap();
    assert_eq!(
        parse(made, "pragma cache_size = 100;"),
        "File[Statement[PragmaStatement[Keyword:\"pragma\" Whitespace:\" \" \
         PragmaReference[NakedIdentifier:\"cache_size\"] Whitespace:\" \" ComparisonOperator:\"=\" \
         Whitespace:\" \" NumericLiteral:\"100\"]] StatementTerminator:\";\" EndOfFile:\"\"]"
    );
    let made = sqlite::dialect(stand_in(SQLITE_NEEDS), &["PRAGMA"], &[]).unwrap();
    assert_eq!(
        parse(made, "PRAGMA journal_mode(wal)"),
        "File[Statement[PragmaStatement[Keyword:\"PRAGMA\" Whitespace:\" \" \
         PragmaReference[NakedIdentifier:\"journal_mode\"] Bracketed[StartBracket:\"(\" \
         Keyword:\"wal\" EndBracket:\")\"]]] EndOfFile:\"\"]"
    );
}

#[test]
fn clickhouse_needs_the_rules_and_the_matcher_it_builds_on() {
    let made = clickhouse::clickhouse_dialect(Dialect::new(DialectKind::Ansi), &[]);
    assert_eq!(made.err(), Some(DialectError::UnknownRule));
    let mut bare = stand_in(CLICKHOUSE_NEEDS);
    bare.set_lexer_matchers(vec![Matcher::regex("word", r"[0-9a-zA-Z_]+", SyntaxKind::Word)]);
    let made = clickhouse::clickhouse_dialect(bare, &[]);
    assert_eq!(made.err(), Some(DialectError::UnknownMatcher));
    let short: Vec<&str> = CLICKHOUSE_NEEDS.iter().copied().filter(|n| *n != "PathSegment").collect();
    let made = clickhouse::clickhouse_dialect(stand_in(&short), &[]);
    assert_eq!(made.err(), Some(DialectError::UnresolvedReference));
}

#[test]
fn clickhouse_takes_its_name_and_adds_its_keywords() {
    let made = clickhouse::clickhouse_dialect(stand_in(CLICKHOUSE_NEEDS), &["QUOTA", "DATE"]).unwrap();
    assert_eq!(made.name, DialectKind::Clickhouse);
    assert_eq!(made.sets("reserved_keywords"), vec!["SELECT".to_string(), "FROM".to_string()]);
    assert_eq!(made.sets("unreserved_keywords"), vec!["DATE".to_string(), "QUOTA".to_string()]);
    let mut again = clickhouse::clickhouse_dialect(stand_in(CLICKHOUSE_NEEDS), &["QUOTA", "DATE"]).unwrap();
    again.expand().unwrap();
    assert_eq!(format!("{:?}", again), format!("{:?}", made));
}

#[test]
fn clickhouse_lexes_the_arrow_of_a_lambda() {
    let made = clickhouse::clickhouse_dialect(stand_in(CLICKHOUSE_NEEDS), &[]).unwrap();
    let names: Vec<&str> = made.lexer_matchers().iter().map(|m| m.name()).collect();
    assert_eq!(
        names,
        vec![
            "whitespace",
            "lambda",
            "newline",
            "numeric_literal",
            "equals",
            "minus",
            "semicolon",
            "start_bracket",
            "end_bracket",
            "word"
        ]
    );
    let config = FluffConfig::new(made);
    let lexer = Lexer::new(&config, None);
    let (tokens, errors) = lexer.lex(StringOrTemplate::String("x -> x - 1")).unwrap();
    assert!(errors.is_empty());
    let kinds: Vec<String> = tokens.iter().filter(|t| t.is_code()).map(show).collect();
    assert_eq!(
        kinds,
        vec!["Word:\"x\"", "Lambda:\"->\"", "Word:\"x\"", "Minus:\"-\"", "NumericLiteral:\"1\""]
    );
    // Without the matcher the arrow falls apart.
    let config = FluffConfig::new(stand_in(CLICKHOUSE_NEEDS));
    let lexer = Lexer::new(&config, None);
    let (tokens, _) = lexer.lex(StringOrTemplate::String("x -> x")).unwrap();
    let kinds: Vec<String> = tokens.iter().filter(|t| t.is_code()).map(show).collect();
    assert_eq!(kinds[1], "Minus:\"-\"");
}

#[test]
fn clickhouse_adds_its_statements_to_those_it_finds() {
    let made = clickhouse::clickhouse_dialect(stand_in(CLICKHOUSE_NEEDS), &[]).unwrap();
    assert_eq!(
        shown(made.grammar("StatementSegment")),
        format!(
            "{:?}",
            Grammar::one_of(vec![
                r("SelectableGrammar"),
                r("CreateMaterializedViewStatementSegment"),
                r("DropDictionaryStatementSegment"),
                r("DropQuotaStatementSegment"),
                r("DropSettingProfileStatementSegment"),
                r("SystemStatementSegment"),
            ])
            .node(SyntaxKind::Statement)
        )
    );
    assert_eq!(
        shown(made.grammar("OnClusterClauseSegment")),
        format!(
            "{:?}",
            Grammar::sequence(vec![kw("ON"), kw("CLUSTER"), r("SingleIdentifierGrammar")])
                .node(SyntaxKind::OnClusterClause)
        )
    );
}

#[test]
fn clickhouse_parses_a_drop_quota() {
    let made = clickhouse::clickhouse_dialect(stand_in(CLICKHOUSE_NEEDS), &["QUOTA"]).unwrap();
    assert_eq!(
        parse(made, "drop quota if exists q on cluster c"),
        "File[Statement[DropQuotaStatement[Keyword:\"drop\" Whitespace:\" \" Keyword:\"quota\" \
         Whitespace:\" \" Keyword:\"if\" Whitespace:\" \" Keyword:\"exists\" Whitespace:\" \" \
         NakedIdentifier:\"q\" Whitespace:\" \" OnClusterClause[Keyword:\"on\" Whitespace:\" \" \
         Keyword:\"cluster\" Whitespace:\" \" NakedIdentifier:\"c\"]]] EndOfFile:\"\"]"
    );
}
