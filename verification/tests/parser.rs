use sqruff_lib::config::FluffConfig;
use sqruff_lib::dialect::{Dialect, DialectError, DialectKind, Rule};
use sqruff_lib::engine::ParseContext;
use sqruff_lib::errors::ParseErrorKind;
use sqruff_lib::grammar::{Grammar, ParseMode};
use sqruff_lib::lexer::{Lexer, Matcher, StringOrTemplate};
use sqruff_lib::matching::Fault;
use sqruff_lib::parser::Parser;
use sqruff_lib::segments::Segment;
use sqruff_lib::syntax::SyntaxKind;

fn show(segment: &Segment) -> String {
    match segment {
        Segment::Leaf { kind, raw, .. } => format!("{:?}:{:?}", kind, raw),
        Segment::Node { kind, children, .. } => {
            let inner: Vec<String> = children.iter().map(show).collect();
            format!("{:?}[{}]", kind, inner.join(" "))
        }
    }
}

fn show_all(segments: &[Segment]) -> String {
    let inner: Vec<String> = segments.iter().map(show).collect();
    inner.join(" ")
}

fn leaves(segment: &Segment, out: &mut Vec<(String, Option<(usize, usize)>)>) {
    match segment {
        Segment::Leaf { raw, position, .. } => {
            out.push((raw.clone(), position.as_ref().map(|p| (p.source_slice.start, p.source_slice.end))))
        }
        Segment::Node { children, .. } => {
            for child in children {
                leaves(child, out);
            }
        }
    }
}

fn tokens_under(segment: &Segment) -> Vec<(String, Option<(usize, usize)>)> {
    let mut all = Vec::new();
    leaves(segment, &mut all);
    all.into_iter().filter(|(_, p)| p.is_some()).collect()
}

fn rule(name: &str, grammar: Grammar) -> Rule {
    Rule::new(name.to_string(), grammar)
}

fn r(name: &str) -> Grammar {
    Grammar::reference(name)
}

fn kw(word: &str) -> Grammar {
    Grammar::keyword(word)
}

fn base_dialect() -> Dialect {
    let mut dialect = Dialect::new(DialectKind::Ansi);
    dialect.set_lexer_matchers(vec![
        Matcher::regex("whitespace", r"[^\S\r\n]+", SyntaxKind::Whitespace),
        Matcher::regex("inline_comment", r"--[^\n]*", SyntaxKind::InlineComment),
        Matcher::regex("newline", r"\r\n|\n", SyntaxKind::Newline),
        Matcher::regex("numeric_literal", r"[0-9]+", SyntaxKind::NumericLiteral),
        Matcher::string("dot", ".", SyntaxKind::Dot),
        Matcher::string("comma", ",", SyntaxKind::Comma),
        Matcher::string("semicolon", ";", SyntaxKind::Semicolon),
        Matcher::string("start_bracket", "(", SyntaxKind::StartBracket),
        Matcher::string("end_bracket", ")", SyntaxKind::EndBracket),
        Matcher::string("star", "*", SyntaxKind::Star),
        Matcher::regex("word", r"[0-9a-zA-Z_]+", SyntaxKind::Word),
    ]);
    dialect.add_bracket_pair("round", SyntaxKind::StartBracket, SyntaxKind::EndBracket);
    dialect.sets_mut("reserved_keywords").extend(&["SELECT", "FROM", "CREATE", "TABLE", "WHERE"]);
    dialect.sets_mut("unreserved_keywords").extend(&["DATE"]);
    dialect
        .add(vec![
            rule(
                "FileSegment",
                Grammar::Delimited {
                    options: vec![r("StatementSegment")],
                    delimiter: Box::new(Grammar::token(
                        SyntaxKind::Semicolon,
                        SyntaxKind::StatementTerminator,
                    )),
                    min_delimiters: 0,
                    allow_trailing: true,
                },
            ),
            rule(
                "StatementSegment",
                Grammar::one_of(vec![r("SelectStatementSegment"), r("CreateTableStatementSegment")])
                    .node(SyntaxKind::Statement),
            ),
            rule(
                "SelectStatementSegment",
                Grammar::sequence(vec![
                    kw("SELECT"),
                    Grammar::Meta { kind: SyntaxKind::Indent },
                    Grammar::delimited(
                        vec![r("ColumnReferenceSegment"), Grammar::token(SyntaxKind::Star, SyntaxKind::Star)],
                        Grammar::token(SyntaxKind::Comma, SyntaxKind::Comma),
                    ),
                    Grammar::Meta { kind: SyntaxKind::Dedent },
                    Grammar::sequence(vec![kw("FROM"), r("TableReferenceSegment")])
                        .node(SyntaxKind::FromClause)
                        .optional(),
                ])
                .node(SyntaxKind::SelectStatement),
            ),
            rule(
                "CreateTableStatementSegment",
                Grammar::sequence(vec![
                    kw("CREATE"),
                    kw("TABLE"),
                    r("TableReferenceSegment"),
                    Grammar::bracketed(vec![Grammar::delimited(
                        vec![Grammar::sequence(vec![r("NakedIdentifierSegment"), r("NakedIdentifierSegment")])
                            .node(SyntaxKind::ColumnDefinition)],
                        Grammar::token(SyntaxKind::Comma, SyntaxKind::Comma),
                    )]),
                ])
                .node(SyntaxKind::CreateTableStatement),
            ),
            rule(
                "NakedIdentifierSegment",
                r("WordSegment").exclude(Grammar::KeywordOf { set: "reserved_keywords".to_string() }),
            ),
            rule("WordSegment", Grammar::token(SyntaxKind::Word, SyntaxKind::NakedIdentifier)),
            rule(
                "ColumnReferenceSegment",
                Grammar::delimited(
                    vec![r("NakedIdentifierSegment")],
                    Grammar::token(SyntaxKind::Dot, SyntaxKind::Dot),
                )
                .node(SyntaxKind::ColumnReference),
            ),
            rule("TableReferenceSegment", r("NakedIdentifierSegment").node(SyntaxKind::TableReference)),
        ])
        .unwrap();
    dialect
}

fn lex(config: &FluffConfig, text: &str) -> Vec<Segment> {
    let lexer = Lexer::new(config, None);
    let (segments, errors) = lexer.lex(StringOrTemplate::String(text)).unwrap();
    assert!(errors.is_empty());
    segments
}

fn parse_text(dialect: Dialect, text: &str) -> Result<Option<Segment>, (ParseErrorKind, usize)> {
    let config = FluffConfig::new(dialect);
    let tokens = lex(&config, text);
    let parser = Parser::new(&config, None);
    match parser.parse(&tokens, None, false) {
        Ok(tree) => {
            if let Some(root) = &tree {
                let expected: Vec<(String, Option<(usize, usize)>)> = tokens
                    .iter()
                    .flat_map(|t| tokens_under(t))
                    .collect();
                assert_eq!(tokens_under(root), expected);
            }
            Ok(tree)
        }
        Err(e) => Err((e.kind, e.token)),
    }
}

fn expanded() -> Dialect {
    let mut dialect = base_dialect();
    dialect.expand().unwrap();
    dialect
}

#[test]
fn parse_select() {
    let tree = parse_text(expanded(), "select a, b.c from t;\n").unwrap().unwrap();
    assert_eq!(
        show(&tree),
        "File[Statement[SelectStatement[Keyword:\"select\" Indent:\"\" Whitespace:\" \" \
         ColumnReference[NakedIdentifier:\"a\"] Comma:\",\" Whitespace:\" \" \
         ColumnReference[NakedIdentifier:\"b\" Dot:\".\" NakedIdentifier:\"c\"] Dedent:\"\" \
         Whitespace:\" \" FromClause[Keyword:\"from\" Whitespace:\" \" \
         TableReference[NakedIdentifier:\"t\"]]]] StatementTerminator:\";\" Newline:\"\\n\" \
         EndOfFile:\"\"]"
    );
    match &tree {
        Segment::Node { position: Some(p), .. } => {
            assert_eq!(p.source_slice, 0..22);
            assert_eq!(p.templated_slice, 0..22);
        }
        _ => panic!("a node with a position was expected"),
    }
}

#[test]
fn parse_two_statements_with_blank_ends() {
    let tree = parse_text(expanded(), "  select *;\nselect a ").unwrap().unwrap();
    assert_eq!(
        show(&tree),
        "File[Whitespace:\"  \" Statement[SelectStatement[Keyword:\"select\" Indent:\"\" \
         Whitespace:\" \" Star:\"*\" Dedent:\"\"]] StatementTerminator:\";\" Newline:\"\\n\" \
         Statement[SelectStatement[Keyword:\"select\" Indent:\"\" Whitespace:\" \" \
         ColumnReference[NakedIdentifier:\"a\"] Dedent:\"\"]] Whitespace:\" \" EndOfFile:\"\"]"
    );
}

#[test]
fn parse_create_table_with_brackets() {
    let tree = parse_text(expanded(), "create table t (a int, b text)").unwrap().unwrap();
    assert_eq!(
        show(&tree),
        "File[Statement[CreateTableStatement[Keyword:\"create\" Whitespace:\" \" Keyword:\"table\" \
         Whitespace:\" \" TableReference[NakedIdentifier:\"t\"] Whitespace:\" \" \
         Bracketed[StartBracket:\"(\" ColumnDefinition[NakedIdentifier:\"a\" Whitespace:\" \" \
         NakedIdentifier:\"int\"] Comma:\",\" Whitespace:\" \" ColumnDefinition[NakedIdentifier:\"b\" \
         Whitespace:\" \" NakedIdentifier:\"text\"] EndBracket:\")\"]]] EndOfFile:\"\"]"
    );
}

#[test]
fn parse_nothing() {
    let dialect = expanded();
    let config = FluffConfig::new(dialect);
    let parser = Parser::new(&config, None);
    assert!(parser.parse(&[], None, false).unwrap().is_none());
}

#[test]
fn parse_without_code() {
    let tree = parse_text(expanded(), "  -- nothing\n").unwrap().unwrap();
    assert_eq!(
        show(&tree),
        "File[Whitespace:\"  \" InlineComment:\"-- nothing\" Newline:\"\\n\" EndOfFile:\"\"]"
    );
}

#[test]
fn test_parser_parse_error() {
    assert_eq!(parse_text(expanded(), "SELECT ;").err(), Some((ParseErrorKind::NoMatch, 0)));
}

#[test]
fn parse_error_behind_a_statement() {
    let config = FluffConfig::new(expanded());
    let tokens = lex(&config, "select a from t where");
    let parser = Parser::new(&config, None);
    let error = parser.parse(&tokens, None, false).err().unwrap();
    assert_eq!(error.kind, ParseErrorKind::Unparsed);
    assert_eq!(error.token, 8);
    assert_eq!(error.position.as_ref().unwrap().source_slice, 16..21);
    assert_eq!(error.description(), "Found unparsable section after the parsed one.");
}

#[test]
fn parse_keyword_is_no_identifier() {
    assert_eq!(parse_text(expanded(), "select from").err(), Some((ParseErrorKind::NoMatch, 0)));
    assert!(parse_text(expanded(), "select date").is_ok());
}

#[test]
fn parse_faults() {
    // A dialect that was not expanded holds a choice of words.
    assert_eq!(
        parse_text(base_dialect(), "select a").err(),
        Some((ParseErrorKind::Faulty(Fault::Unexpanded), 0))
    );
    // No rule for a file.
    let mut empty = Dialect::new(DialectKind::Ansi);
    empty.set_lexer_matchers(vec![Matcher::regex("word", r"[a-z]+", SyntaxKind::Word)]);
    assert_eq!(parse_text(empty, "a").err(), Some((ParseErrorKind::NoRootGrammar, 0)));
    // A rule that refers to itself at once.
    let mut looping = Dialect::new(DialectKind::Ansi);
    looping.set_lexer_matchers(vec![Matcher::regex("word", r"[a-z]+", SyntaxKind::Word)]);
    looping.add(vec![rule("FileSegment", Grammar::sequence(vec![r("FileSegment"), kw("a")]))]).unwrap();
    assert_eq!(
        parse_text(looping, "a").err(),
        Some((ParseErrorKind::Faulty(Fault::TooDeep), 0))
    );
    // A rule that is not there.
    let mut missing = Dialect::new(DialectKind::Ansi);
    missing.set_lexer_matchers(vec![Matcher::regex("word", r"[a-z]+", SyntaxKind::Word)]);
    missing.add(vec![rule("FileSegment", r("Nowhere"))]).unwrap();
    assert_eq!(missing.expand(), Err(DialectError::UnresolvedReference));
    assert_eq!(
        parse_text(missing, "a").err(),
        Some((ParseErrorKind::Faulty(Fault::UnknownRule), 0))
    );
    // A bracket pair that is not there.
    let mut brackets = Dialect::new(DialectKind::Ansi);
    brackets.set_lexer_matchers(vec![Matcher::regex("word", r"[a-z]+", SyntaxKind::Word)]);
    brackets.add(vec![rule("FileSegment", Grammar::bracketed(vec![kw("a")]))]).unwrap();
    assert_eq!(brackets.expand(), Err(DialectError::UnresolvedReference));
    assert_eq!(
        parse_text(brackets, "a").err(),
        Some((ParseErrorKind::Faulty(Fault::UnknownBracket), 0))
    );
}

fn match_tokens(grammar: &Grammar, dialect: Dialect, text: &str) -> Option<(usize, String)> {
    let config = FluffConfig::new(dialect);
    let tokens = lex(&config, text);
    let cx = ParseContext::from_config(&config);
    grammar
        .match_segments(&tokens, 0, &cx)
        .unwrap()
        .map(|m| (m.end, show_all(&m.nodes)))
}

#[test]
fn bracket_greedy_mode_containment() {
    let inner = vec![Grammar::token(SyntaxKind::Word, SyntaxKind::NakedIdentifier)];
    let greedy = Grammar::bracketed(inner.clone()).parse_mode(ParseMode::Greedy);
    let (end, nodes) = match_tokens(&greedy, expanded(), "(a , (b) c) d").unwrap();
    assert_eq!(end, 11);
    assert_eq!(
        nodes,
        "Bracketed[StartBracket:\"(\" NakedIdentifier:\"a\" Whitespace:\" \" \
         Unparsable[Comma:\",\" Whitespace:\" \" StartBracket:\"(\" Word:\"b\" EndBracket:\")\" \
         Whitespace:\" \" Word:\"c\"] EndBracket:\")\"]"
    );
    let strict = Grammar::bracketed(vec![Grammar::token(SyntaxKind::Word, SyntaxKind::NakedIdentifier)]);
    assert_eq!(match_tokens(&strict, expanded(), "(a , (b) c) d"), None);
    assert_eq!(
        match_tokens(&strict, expanded(), "( a ) d"),
        Some((
            5,
            "Bracketed[StartBracket:\"(\" Whitespace:\" \" NakedIdentifier:\"a\" Whitespace:\" \" \
             EndBracket:\")\"]"
                .to_string()
        ))
    );
    // A bracket that is never closed does not match.
    let again = Grammar::bracketed(inner).parse_mode(ParseMode::Greedy);
    assert_eq!(match_tokens(&again, expanded(), "(a (b)"), None);
    // Nothing between the brackets that matches.
    let (end, nodes) = match_tokens(&again, expanded(), "(,)").unwrap();
    assert_eq!(end, 3);
    assert_eq!(nodes, "Bracketed[StartBracket:\"(\" Unparsable[Comma:\",\"] EndBracket:\")\"]");
}

#[test]
fn repetition_bounds_are_inclusive() {
    let word = || Grammar::token(SyntaxKind::Word, SyntaxKind::NakedIdentifier);
    let number = || Grammar::token(SyntaxKind::NumericLiteral, SyntaxKind::NumericLiteral);
    let repeat = |min_times, max_times, per| Grammar::AnyNumberOf {
        options: vec![word(), number()],
        min_times,
        max_times,
        max_times_per_element: per,
    };
    // No round is a success that takes nothing.
    assert_eq!(match_tokens(&repeat(0, None, None), expanded(), ", a"), Some((0, String::new())));
    assert_eq!(match_tokens(&repeat(1, None, None), expanded(), ", a"), None);
    assert_eq!(match_tokens(&repeat(0, None, None), expanded(), "a 1 b,").unwrap().0, 5);
    assert_eq!(match_tokens(&repeat(3, None, None), expanded(), "a 1 b,").unwrap().0, 5);
    assert_eq!(match_tokens(&repeat(4, None, None), expanded(), "a 1 b,"), None);
    assert_eq!(match_tokens(&repeat(0, Some(2), None), expanded(), "a 1 b,").unwrap().0, 3);
    assert_eq!(match_tokens(&repeat(0, Some(0), None), expanded(), "a 1 b,").unwrap().0, 0);
    assert_eq!(match_tokens(&repeat(0, None, Some(1)), expanded(), "a 1 b,").unwrap().0, 3);
    assert_eq!(match_tokens(&repeat(0, None, Some(1)), expanded(), "a b 1,").unwrap().0, 1);
}

#[test]
fn delimited_counts_and_trailing() {
    let list = |min_delimiters, allow_trailing| Grammar::Delimited {
        options: vec![Grammar::token(SyntaxKind::Word, SyntaxKind::NakedIdentifier)],
        delimiter: Box::new(Grammar::token(SyntaxKind::Comma, SyntaxKind::Comma)),
        min_delimiters,
        allow_trailing,
    };
    assert_eq!(match_tokens(&list(0, false), expanded(), "a, b , c").unwrap().0, 8);
    assert_eq!(match_tokens(&list(0, false), expanded(), "a, b,").unwrap().0, 4);
    assert_eq!(
        match_tokens(&list(0, true), expanded(), "a, b ,"),
        Some((
            6,
            "NakedIdentifier:\"a\" Comma:\",\" Whitespace:\" \" NakedIdentifier:\"b\" Whitespace:\" \" \
             Comma:\",\""
                .to_string()
        ))
    );
    assert_eq!(match_tokens(&list(2, false), expanded(), "a, b,"), None);
    assert_eq!(match_tokens(&list(2, true), expanded(), "a, b,").unwrap().0, 5);
    assert_eq!(match_tokens(&list(1, false), expanded(), "a"), None);
    assert_eq!(match_tokens(&list(0, false), expanded(), ", a"), None);
}

#[test]
fn one_of_takes_the_first_option_that_matches() {
    let grammar = Grammar::one_of(vec![
        Grammar::text("a", SyntaxKind::Keyword),
        Grammar::token(SyntaxKind::Word, SyntaxKind::NakedIdentifier),
    ]);
    assert_eq!(
        match_tokens(&grammar, expanded(), "A"),
        Some((1, "Keyword:\"A\"".to_string()))
    );
    assert_eq!(
        match_tokens(&grammar, expanded(), "b"),
        Some((1, "NakedIdentifier:\"b\"".to_string()))
    );
    assert_eq!(match_tokens(&grammar, expanded(), "1"), None);
    assert_eq!(match_tokens(&Grammar::Nothing, expanded(), "a"), None);
    assert_eq!(match_tokens(&Grammar::Anything, expanded(), "a b").unwrap().0, 4);
}

#[test]
fn sequence_fails_as_a_whole() {
    let grammar = Grammar::sequence(vec![kw("a"), kw("b").optional(), kw("c")]);
    assert_eq!(match_tokens(&grammar, expanded(), "a b c").unwrap().0, 5);
    assert_eq!(match_tokens(&grammar, expanded(), "a c").unwrap().0, 3);
    assert_eq!(match_tokens(&grammar, expanded(), "a b"), None);
    assert_eq!(match_tokens(&grammar, expanded(), " a c"), None);
}

#[test]
fn conditional_follows_the_flag() {
    let grammar = Grammar::sequence(vec![
        kw("using"),
        Grammar::Conditional {
            kind: SyntaxKind::Indent,
            flag: "indented_using_on".to_string(),
            expected: true,
        },
    ]);
    let mut config = FluffConfig::new(expanded());
    let tokens = lex(&config, "using");
    let off = {
        let cx = ParseContext::from_config(&config);
        grammar.match_segments(&tokens, 0, &cx).unwrap().unwrap()
    };
    assert_eq!(show_all(&off.nodes), "Keyword:\"using\"");
    config.set_flag("indented_using_on", true);
    assert!(config.flag("indented_using_on"));
    assert!(!config.flag("other"));
    let cx = ParseContext::from_config(&config);
    let on = grammar.match_segments(&tokens, 0, &cx).unwrap().unwrap();
    assert_eq!(show_all(&on.nodes), "Keyword:\"using\" Indent:\"\"");
}

#[test]
fn grammar_override_isolation() {
    let base = expanded();
    let mut derived = base_dialect();
    derived
        .replace_grammar(
            "CreateTableStatementSegment",
            Grammar::sequence(vec![kw("CREATE"), kw("TABLE"), r("TableReferenceSegment")]),
        )
        .unwrap();
    derived.expand().unwrap();
    let select = r("SelectStatementSegment");
    let text = "select a, b.c from t";
    assert_eq!(match_tokens(&select, base, text), match_tokens(&select, derived, text));
    // The replaced rule itself does change.
    let create = r("CreateTableStatementSegment");
    let text = "create table t (a int)";
    assert_eq!(match_tokens(&create, expanded(), text).unwrap().0, 11);
    let mut derived = base_dialect();
    derived
        .replace_grammar(
            "CreateTableStatementSegment",
            Grammar::sequence(vec![kw("CREATE"), kw("TABLE"), r("TableReferenceSegment")]),
        )
        .unwrap();
    derived.expand().unwrap();
    assert_eq!(match_tokens(&create, derived, text).unwrap().0, 5);
}

#[test]
fn idempotent_expand() {
    let once = expanded();
    let mut twice = expanded();
    twice.expand().unwrap();
    for text in ["select a, b.c from t;", "create table t (a int, b text)", "select from", "select ;"] {
        let left = parse_text(expanded(), text).map(|t| t.map(|s| show(&s)));
        let right = {
            let mut d = expanded();
            d.expand().unwrap();
            parse_text(d, text).map(|t| t.map(|s| show(&s)))
        };
        assert_eq!(left, right);
    }
    let select = r("NakedIdentifierSegment");
    assert_eq!(match_tokens(&select, once, "abc"), match_tokens(&select, twice, "abc"));
}
